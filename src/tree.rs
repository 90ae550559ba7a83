//! Directory trees as values: files with their bytes and folders with their
//! entries, in order.
use vstd::prelude::*;

verus! {

/// A file: its name and its full content.
#[derive(Clone, Debug, PartialEq)]
pub struct NamedFile {
    pub name: String,
    pub content: Vec<u8>,
}

/// A folder: its name and its entries, in order.
#[derive(Debug, PartialEq)]
pub struct NamedFolder {
    pub name: String,
    pub contents: Vec<FileOrFolder>,
}

/// An entry of a directory tree.
#[derive(Debug, PartialEq)]
pub enum FileOrFolder {
    File(NamedFile),
    Folder(NamedFolder),
}

/// The files of a template, as a tree.
#[derive(Debug, PartialEq)]
pub struct TemplateContents {
    pub contents: Vec<FileOrFolder>,
}

/// One step of materialising a tree under a base directory. A path lists the
/// names from the base down, the last being the entry's own name.
#[derive(Debug, PartialEq)]
pub enum WriteStep {
    /// Create the directory at this path
    CreateDir(Vec<String>),
    /// Write these bytes as the file at this path
    WriteFile(Vec<String>, Vec<u8>),
}

/// A [`WriteStep`] as plain values.
pub enum StepModel {
    CreateDir(Seq<String>),
    WriteFile(Seq<String>, Seq<u8>),
}

impl WriteStep {
    pub open spec fn model(self) -> StepModel {
        match self {
            WriteStep::CreateDir(path) => StepModel::CreateDir(path@),
            WriteStep::WriteFile(path, bytes) => StepModel::WriteFile(path@, bytes@),
        }
    }
}

/// The steps of a list of [`WriteStep`]s, as plain values.
pub open spec fn steps_model(steps: Seq<WriteStep>) -> Seq<StepModel> {
    steps.map_values(|s: WriteStep| s.model())
}

/// The steps that materialise `entries` in the directory at `prefix`, depth
/// first and in sibling order: a file is written whole; a folder is created,
/// then filled.
pub open spec fn write_steps(prefix: Seq<String>, entries: Seq<FileOrFolder>) -> Seq<StepModel>
    decreases entries,
{
    if entries.len() == 0 {
        Seq::empty()
    } else {
        let rest = write_steps(prefix, entries.subrange(1, entries.len() as int));
        match entries[0] {
            FileOrFolder::File(f) => seq![StepModel::WriteFile(prefix.push(f.name), f.content@)]
                + rest,
            FileOrFolder::Folder(d) => seq![StepModel::CreateDir(prefix.push(d.name))]
                + write_steps(prefix.push(d.name), d.contents@) + rest,
        }
    }
}

/// The path a step acts on.
pub open spec fn step_path(s: StepModel) -> Seq<String> {
    match s {
        StepModel::CreateDir(path) => path,
        StepModel::WriteFile(path, _) => path,
    }
}

/// Every step acts on a path strictly below `base`, and the directory that
/// holds it is `base` itself or was created by an earlier step.
pub open spec fn parents_first(steps: Seq<StepModel>, base: Seq<String>) -> bool {
    forall|i: int|
        0 <= i < steps.len() ==> {
            let p = #[trigger] step_path(steps[i]);
            &&& p.len() > base.len()
            &&& p.subrange(0, base.len() as int) == base
            &&& (p.len() == base.len() + 1 || exists|j: int|
                0 <= j < i && steps[j] == StepModel::CreateDir(p.drop_last()))
        }
}

/// Materialising a tree never touches a path before the directory that holds
/// it exists: each directory is created before anything is written into it.
pub proof fn lemma_write_steps_parents_first(base: Seq<String>, entries: Seq<FileOrFolder>)
    ensures
        parents_first(write_steps(base, entries), base),
    decreases entries,
{
    if entries.len() > 0 {
        let rest_entries = entries.subrange(1, entries.len() as int);
        let rest = write_steps(base, rest_entries);
        lemma_write_steps_parents_first(base, rest_entries);
        match entries[0] {
            FileOrFolder::File(f) => {
                let head = seq![StepModel::WriteFile(base.push(f.name), f.content@)];
                let all = head + rest;
                assert(all == write_steps(base, entries));
                assert forall|i: int| 0 <= i < all.len() implies {
                    let p = #[trigger] step_path(all[i]);
                    &&& p.len() > base.len()
                    &&& p.subrange(0, base.len() as int) == base
                    &&& (p.len() == base.len() + 1 || exists|j: int|
                        0 <= j < i && all[j] == StepModel::CreateDir(p.drop_last()))
                } by {
                    if i == 0 {
                        assert(base.push(f.name).subrange(0, base.len() as int) =~= base);
                    } else {
                        let p = step_path(rest[i - 1]);
                        assert(all[i] == rest[i - 1]);
                        if p.len() != base.len() + 1 {
                            let j = choose|j: int|
                                0 <= j < i - 1 && rest[j] == StepModel::CreateDir(p.drop_last());
                            assert(all[j + 1] == rest[j]);
                        }
                    }
                }
            },
            FileOrFolder::Folder(d) => {
                let sub = base.push(d.name);
                assert(decreases_to!(entries => d.contents@)) by {
                    vstd::seq::axiom_seq_index_decreases(entries, 0);
                    vstd::std_specs::vec::axiom_vec_decreases_to_view(d.contents);
                    assert(decreases_to!(entries => entries[0]));
                    assert(decreases_to!(entries[0] => d));
                    assert(decreases_to!(d => d.contents));
                    assert(decreases_to!(d.contents => d.contents@));
                };
                lemma_write_steps_parents_first(sub, d.contents@);
                let inner = write_steps(sub, d.contents@);
                let head = seq![StepModel::CreateDir(sub)];
                let all = head + inner + rest;
                assert(all == write_steps(base, entries));
                assert(sub.subrange(0, base.len() as int) =~= base);
                assert forall|i: int| 0 <= i < all.len() implies {
                    let p = #[trigger] step_path(all[i]);
                    &&& p.len() > base.len()
                    &&& p.subrange(0, base.len() as int) == base
                    &&& (p.len() == base.len() + 1 || exists|j: int|
                        0 <= j < i && all[j] == StepModel::CreateDir(p.drop_last()))
                } by {
                    let n = inner.len() as int;
                    if i == 0 {
                    } else if i <= n {
                        let p = step_path(inner[i - 1]);
                        assert(all[i] == inner[i - 1]);
                        assert(p.subrange(0, sub.len() as int) == sub);
                        assert(p.subrange(0, base.len() as int) =~= sub.subrange(
                            0,
                            base.len() as int,
                        ));
                        if p.len() == sub.len() + 1 {
                            assert(p.drop_last() =~= sub);
                            assert(all[0] == StepModel::CreateDir(p.drop_last()));
                        } else {
                            let j = choose|j: int|
                                0 <= j < i - 1 && inner[j] == StepModel::CreateDir(p.drop_last());
                            assert((head + inner)[j + 1] == inner[j]);
                            assert(all[j + 1] == (head + inner)[j + 1]);
                        }
                    } else {
                        let p = step_path(rest[i - 1 - n]);
                        assert(all[i] == rest[i - 1 - n]);
                        if p.len() != base.len() + 1 {
                            let j = choose|j: int|
                                0 <= j < i - 1 - n && rest[j] == StepModel::CreateDir(
                                    p.drop_last(),
                                );
                            assert(all[j + 1 + n] == rest[j]);
                        }
                    }
                }
            },
        }
    }
}

/// `prefix` with `name` added at the end.
fn child_path(prefix: &Vec<String>, name: &String) -> (r: Vec<String>)
    ensures
        r@ == prefix@.push(*name),
{
    let mut r: Vec<String> = Vec::new();
    let mut i: usize = 0;
    while i < prefix.len()
        invariant
            0 <= i <= prefix@.len(),
            r@ == prefix@.subrange(0, i as int),
        decreases prefix@.len() - i,
    {
        r.push(prefix[i].clone());
        i = i + 1;
        assert(r@ =~= prefix@.subrange(0, i as int));
    }
    r.push(name.clone());
    assert(r@ =~= prefix@.push(*name));
    r
}

/// Appends to `out` the steps that materialise `entries` in the directory at `prefix`.
fn push_write_steps(prefix: &Vec<String>, entries: Vec<FileOrFolder>, out: &mut Vec<WriteStep>)
    ensures
        steps_model(final(out)@) == steps_model(old(out)@) + write_steps(prefix@, entries@),
    decreases entries@,
{
    let ghost all = entries@;
    let len0 = entries.len();
    let ghost n = len0 as int;
    let mut entries = entries;
    let mut k: usize = 0;
    #[verifier::loop_isolation(false)]
    while entries.len() > 0
        invariant
            0 <= k <= n,
            n <= usize::MAX,
            all.len() == n,
            entries@ == all.subrange(k as int, n),
            steps_model(out@) + write_steps(prefix@, entries@) == steps_model(old(out)@)
                + write_steps(prefix@, all),
        decreases n - k,
    {
        let ghost before = out@;
        let ghost remaining = entries@;
        let entry = entries.remove(0);
        assert(entries@ =~= remaining.subrange(1, remaining.len() as int));
        assert(entry == all[k as int]);
        match entry {
            FileOrFolder::File(f) => {
                let path = child_path(prefix, &f.name);
                out.push(WriteStep::WriteFile(path, f.content));
                assert(steps_model(out@) =~= steps_model(before) + seq![
                    StepModel::WriteFile(prefix@.push(f.name), f.content@),
                ]);
            },
            FileOrFolder::Folder(d) => {
                let path = child_path(prefix, &d.name);
                out.push(WriteStep::CreateDir(child_path(prefix, &d.name)));
                assert(steps_model(out@) =~= steps_model(before) + seq![
                    StepModel::CreateDir(prefix@.push(d.name)),
                ]);
                assert(decreases_to!(all => d.contents@)) by {
                    vstd::seq::axiom_seq_index_decreases(all, k as int);
                    vstd::std_specs::vec::axiom_vec_decreases_to_view(d.contents);
                    assert(decreases_to!(all => all[k as int]));
                    assert(decreases_to!(all[k as int] => d));
                    assert(decreases_to!(d => d.contents));
                    assert(decreases_to!(d.contents => d.contents@));
                };
                push_write_steps(&path, d.contents, out);
            },
        }
        assert(all.subrange(k + 1, n) =~= entries@);
        k = k + 1;
        assert(steps_model(out@) + write_steps(prefix@, entries@) =~= steps_model(before)
            + write_steps(prefix@, remaining));
    }
}

/// The steps that materialise `entries` under a base directory, in the order
/// they must run.
pub fn write_plan(entries: Vec<FileOrFolder>) -> (r: Vec<WriteStep>)
    ensures
        steps_model(r@) == write_steps(Seq::empty(), entries@),
{
    let mut out: Vec<WriteStep> = Vec::new();
    let prefix: Vec<String> = Vec::new();
    push_write_steps(&prefix, entries, &mut out);
    assert(steps_model(out@) =~= write_steps(Seq::empty(), entries@));
    out
}

impl TemplateContents {
    /// The steps that write the template's files under a base directory.
    pub fn into_write_plan(self) -> (r: Vec<WriteStep>)
        ensures
            steps_model(r@) == write_steps(Seq::empty(), self.contents@),
    {
        write_plan(self.contents)
    }
}

/// A directory entry as a scan of the file system found it. The name is
/// `None` where it could not be read as text.
pub struct ScannedEntry {
    pub name: Option<String>,
    pub kind: ScannedKind,
}

/// What a scanned entry is.
pub enum ScannedKind {
    /// A file, with its full content
    File(Vec<u8>),
    /// A directory, with its own scanned entries
    Dir(Vec<ScannedEntry>),
}

/// `tree` is `scan` with every entry whose name could not be read left out, at
/// every level, and everything else kept in order: files with their bytes,
/// directories as folders.
pub open spec fn mirrors(scan: Seq<ScannedEntry>, tree: Seq<FileOrFolder>) -> bool
    decreases scan,
{
    if scan.len() == 0 {
        tree.len() == 0
    } else {
        let rest = scan.subrange(1, scan.len() as int);
        match scan[0].name {
            None => mirrors(rest, tree),
            Some(name) => {
                &&& tree.len() > 0
                &&& match (scan[0].kind, tree[0]) {
                    (ScannedKind::File(bytes), FileOrFolder::File(f)) => f.name == name
                        && f.content@ == bytes@,
                    (ScannedKind::Dir(children), FileOrFolder::Folder(d)) => d.name == name
                        && mirrors(children@, d.contents@),
                    _ => false,
                }
                &&& mirrors(rest, tree.subrange(1, tree.len() as int))
            },
        }
    }
}

/// The tree of a scan: entries whose name could not be read are skipped, at
/// every level; the rest keep their order.
pub fn tree_from_scan(scan: Vec<ScannedEntry>) -> (r: Vec<FileOrFolder>)
    ensures
        mirrors(scan@, r@),
    decreases scan@,
{
    let ghost all = scan@;
    let len0 = scan.len();
    let ghost n = len0 as int;
    let mut rest = scan;
    let mut built: Vec<FileOrFolder> = Vec::new();
    let mut k: usize = 0;
    #[verifier::loop_isolation(false)]
    while rest.len() > 0
        invariant
            0 <= k <= n,
            n <= usize::MAX,
            all.len() == n,
            rest@ == all.subrange(k as int, n),
            forall|t: Seq<FileOrFolder>|
                mirrors(rest@, t) ==> #[trigger] mirrors(all, built@ + t),
        decreases n - k,
    {
        let ghost remaining = rest@;
        let ghost prev = built@;
        let entry = rest.remove(0);
        assert(rest@ =~= remaining.subrange(1, remaining.len() as int));
        assert(entry == all[k as int]);
        match entry.name {
            None => {
                assert forall|t: Seq<FileOrFolder>| mirrors(rest@, t) implies #[trigger] mirrors(
                    all,
                    built@ + t,
                ) by {
                    assert(mirrors(remaining, t));
                }
            },
            Some(name) => {
                let item = match entry.kind {
                    ScannedKind::File(bytes) => FileOrFolder::File(NamedFile { name, content: bytes }),
                    ScannedKind::Dir(children) => {
                        assert(decreases_to!(all => children@)) by {
                            vstd::seq::axiom_seq_index_decreases(all, k as int);
                            vstd::std_specs::vec::axiom_vec_decreases_to_view(children);
                            assert(decreases_to!(all => all[k as int]));
                            assert(decreases_to!(all[k as int] => all[k as int].kind));
                            assert(decreases_to!(all[k as int].kind => children));
                            assert(decreases_to!(children => children@));
                        };
                        let contents = tree_from_scan(children);
                        FileOrFolder::Folder(NamedFolder { name, contents })
                    },
                };
                built.push(item);
                assert forall|t: Seq<FileOrFolder>| mirrors(rest@, t) implies #[trigger] mirrors(
                    all,
                    built@ + t,
                ) by {
                    let t2 = seq![item] + t;
                    assert(t2[0] == item);
                    assert(t2.subrange(1, t2.len() as int) =~= t);
                    assert(mirrors(remaining, t2));
                    assert(prev + t2 =~= built@ + t);
                }
            },
        }
        assert(all.subrange(k + 1, n) =~= rest@);
        k = k + 1;
    }
    assert(mirrors(rest@, Seq::empty()));
    assert(built@ + Seq::<FileOrFolder>::empty() =~= built@);
    built
}

} // verus!
