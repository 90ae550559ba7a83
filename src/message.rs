//! The messages the two peers exchange, and the checks a peer makes on what
//! it receives in the middle of an exchange.
use vstd::prelude::*;
use crate::ids::Uuid;
use crate::projects::PreparedProject;
use crate::status::RenderingStatus;
use crate::tree::{FileOrFolder, TemplateContents};

verus! {

/// A message of the rendering protocol.
pub enum Message {
    RenderingRequest(RenderingRequest),
    TemplateDataRequest(TemplateDataRequest),
    TemplateDataResult(TemplateDataResult),
    RenderingRequestStatus(RenderingStatus),
    CommunicationError(CommunicationError),
    UnexpectedError(String),
}

/// A request to render a project with a template.
pub struct RenderingRequest {
    /// Random id of the rendering request
    pub request_id: Uuid,
    /// All contents and metadata of the project
    pub prepared_project: PreparedProject,
    /// Files uploaded to the project, such as the images of image blocks
    pub project_uploaded_files: Vec<FileOrFolder>,
    /// Id of the template the project uses
    pub template_id: Uuid,
    /// Id of the version of that template
    pub template_version_id: Uuid,
    /// Names of the export formats to render
    pub export_formats: Vec<String>,
}

/// A renderer's request for the files of a template it does not hold.
#[derive(Clone, Copy, Debug, PartialEq, Eq, Structural)]
pub struct TemplateDataRequest {
    pub template_id: Uuid,
    pub template_version_id: Uuid,
}

/// The files and export formats of a template, sent in answer to a
/// [`TemplateDataRequest`].
pub struct TemplateDataResult {
    pub template_id: Uuid,
    pub template_version_id: Uuid,
    pub contents: TemplateContents,
    pub export_formats: ExportFormats,
}

/// A violation of the protocol by the peer.
#[derive(Clone, Copy, Debug, PartialEq, Eq, Structural)]
pub enum CommunicationError {
    /// Received a message that is not valid at this point of the exchange
    UnexpectedMessageType,
    /// The template data received is not that of the requested template and version
    WrongTemplateDataSend,
}

/// A template's export formats by name: each name once, with the encoded
/// definition of its format.
pub struct ExportFormats {
    entries: Vec<(String, Vec<u8>)>,
}

impl ExportFormats {
    /// The names, in the order they were first inserted.
    pub closed spec fn names(&self) -> Seq<Seq<char>> {
        self.entries@.map_values(|e: (String, Vec<u8>)| e.0@)
    }

    /// The table as a map from name to definition.
    pub closed spec fn view(&self) -> Map<Seq<char>, Seq<u8>> {
        Map::new(
            |k: Seq<char>| exists|i: int| 0 <= i < self.entries@.len() && self.entries@[i].0@ == k,
            |k: Seq<char>|
                self.entries@[choose|i: int| 0 <= i < self.entries@.len() && self.entries@[i].0@ == k].1@,
        )
    }

    /// Every name occurs once.
    pub closed spec fn wf(&self) -> bool {
        forall|i: int, j: int|
            0 <= i < j < self.entries@.len() ==> #[trigger] self.entries@[i].0@ != #[trigger] self.entries@[j].0@
    }

    /// The entries, each name once with its definition, in the order the names
    /// were first inserted.
    pub fn entries(&self) -> (r: &Vec<(String, Vec<u8>)>)
        requires
            self.wf(),
        ensures
            r@.len() == self@.len(),
            forall|i: int|
                0 <= i < r@.len() ==> self@.contains_key(#[trigger] r@[i].0@) && self@[r@[i].0@]
                    == r@[i].1@,
    {
        proof {
            self.lemma_len();
            assert forall|i: int| 0 <= i < self.entries@.len() implies self@.contains_key(
                #[trigger] self.entries@[i].0@,
            ) && self@[self.entries@[i].0@] == self.entries@[i].1@ by {
                let k = self.entries@[i].0@;
                assert(self@.contains_key(k));
                let c = choose|j: int| 0 <= j < self.entries@.len() && self.entries@[j].0@ == k;
                assert(c == i) by {
                    if c < i {
                        assert(self.entries@[c].0@ != self.entries@[i].0@);
                    } else if i < c {
                        assert(self.entries@[i].0@ != self.entries@[c].0@);
                    }
                }
            }
        }
        &self.entries
    }

    /// An empty table.
    pub fn new() -> (r: ExportFormats)
        ensures
            r.wf(),
            r@ == Map::<Seq<char>, Seq<u8>>::empty(),
    {
        let r = ExportFormats { entries: Vec::new() };
        assert(r@ =~= Map::<Seq<char>, Seq<u8>>::empty());
        r
    }

    /// Number of export formats.
    pub fn len(&self) -> (r: usize)
        requires
            self.wf(),
        ensures
            r == self@.len(),
    {
        proof { self.lemma_len(); }
        self.entries.len()
    }

    proof fn lemma_len(&self)
        requires
            self.wf(),
        ensures
            self@.dom().finite(),
            self@.len() == self.entries@.len(),
    {
        let names = self.names();
        assert forall|k: Seq<char>| self@.dom().contains(k) <==> #[trigger] names.to_set().contains(k) by {
            if names.to_set().contains(k) {
                let i = choose|i: int| 0 <= i < names.len() && names[i] == k;
                assert(self.entries@[i].0@ == k);
            }
            if self@.dom().contains(k) {
                let i = choose|i: int| 0 <= i < self.entries@.len() && self.entries@[i].0@ == k;
                assert(names[i] == k);
            }
        }
        assert(self@.dom() =~= names.to_set());
        assert(names.no_duplicates()) by {
            assert forall|i: int, j: int| 0 <= i < names.len() && 0 <= j < names.len() && i != j
                implies names[i] != names[j] by {
                if i < j {
                    assert(self.entries@[i].0@ != self.entries@[j].0@);
                } else {
                    assert(self.entries@[j].0@ != self.entries@[i].0@);
                }
            }
        }
        names.unique_seq_to_set();
    }

    /// Position of `name` among the entries, if it is there.
    fn find(&self, name: &str) -> (r: Option<usize>)
        requires
            self.wf(),
        ensures
            match r {
                Some(i) => i < self.entries@.len() && self.entries@[i as int].0@ == name@,
                None => !self@.contains_key(name@),
            },
    {
        let key = name.to_owned();
        let mut i: usize = 0;
        while i < self.entries.len()
            invariant
                0 <= i <= self.entries@.len(),
                key@ == name@,
                forall|k: int| 0 <= k < i ==> self.entries@[k].0@ != name@,
            decreases self.entries@.len() - i,
        {
            if self.entries[i].0 == key {
                return Some(i);
            }
            i = i + 1;
        }
        None
    }

    /// The definition of the export format called `name`, if there is one.
    pub fn get(&self, name: &str) -> (r: Option<&Vec<u8>>)
        requires
            self.wf(),
        ensures
            match r {
                Some(d) => self@.contains_key(name@) && d@ == self@[name@],
                None => !self@.contains_key(name@),
            },
    {
        match self.find(name) {
            Some(i) => {
                let ghost k = name@;
                assert(self@.contains_key(k));
                let ghost c = choose|j: int| 0 <= j < self.entries@.len() && self.entries@[j].0@ == k;
                assert(c == i) by {
                    if c != i {
                        if c < i {
                            assert(self.entries@[c].0@ != self.entries@[i as int].0@);
                        } else {
                            assert(self.entries@[i as int].0@ != self.entries@[c].0@);
                        }
                    }
                }
                Some(&self.entries[i].1)
            },
            None => None,
        }
    }

    /// Sets the definition of `name`, replacing one it had.
    pub fn insert(&mut self, name: String, definition: Vec<u8>)
        requires
            old(self).wf(),
        ensures
            final(self).wf(),
            final(self)@ == old(self)@.insert(name@, definition@),
    {
        let ghost k = name@;
        let ghost v = definition@;
        match self.find(name.as_str()) {
            Some(i) => {
                let ghost before = self.entries@;
                self.entries.set(i, (name, definition));
                assert(self.entries@ == before.update(i as int, self.entries@[i as int]));
                assert(self@ =~= old(self)@.insert(k, v)) by {
                    assert forall|key: Seq<char>| #[trigger] self@.contains_key(key) implies
                        old(self)@.insert(k, v).contains_key(key) && self@[key] == old(self)@.insert(k, v)[key] by {
                        let c = choose|j: int| 0 <= j < self.entries@.len() && self.entries@[j].0@ == key;
                        if key != k {
                            assert(c != i);
                            assert(before[c].0@ == key);
                            let d = choose|j: int| 0 <= j < before.len() && before[j].0@ == key;
                            assert(c == d) by {
                                if c < d {
                                    assert(before[c].0@ != before[d].0@);
                                } else if d < c {
                                    assert(before[d].0@ != before[c].0@);
                                }
                            }
                        } else {
                            assert(c == i) by {
                                if c < i {
                                    assert(self.entries@[c].0@ != self.entries@[i as int].0@);
                                } else if i < c {
                                    assert(self.entries@[i as int].0@ != self.entries@[c].0@);
                                }
                            }
                        }
                    }
                    assert forall|key: Seq<char>| #[trigger] old(self)@.insert(k, v).contains_key(key)
                        implies self@.contains_key(key) by {
                        if key != k {
                            let d = choose|j: int| 0 <= j < before.len() && before[j].0@ == key;
                            assert(self.entries@[d].0@ == key);
                        } else {
                            assert(self.entries@[i as int].0@ == key);
                        }
                    }
                }
            },
            None => {
                let ghost before = self.entries@;
                self.entries.push((name, definition));
                let ghost n = before.len() as int;
                assert(self.entries@[n].0@ == k);
                assert(self@ =~= old(self)@.insert(k, v)) by {
                    assert forall|key: Seq<char>| #[trigger] self@.contains_key(key) implies
                        old(self)@.insert(k, v).contains_key(key) && self@[key] == old(self)@.insert(k, v)[key] by {
                        let c = choose|j: int| 0 <= j < self.entries@.len() && self.entries@[j].0@ == key;
                        if key != k {
                            assert(c != n);
                            assert(before[c].0@ == key);
                            let d = choose|j: int| 0 <= j < before.len() && before[j].0@ == key;
                            assert(c == d) by {
                                if c < d {
                                    assert(before[c].0@ != before[d].0@);
                                } else if d < c {
                                    assert(before[d].0@ != before[c].0@);
                                }
                            }
                        } else {
                            assert(c == n) by {
                                if c < n {
                                    assert(before[c].0@ == k);
                                }
                            }
                        }
                    }
                    assert forall|key: Seq<char>| #[trigger] old(self)@.insert(k, v).contains_key(key)
                        implies self@.contains_key(key) by {
                        if key != k {
                            let d = choose|j: int| 0 <= j < before.len() && before[j].0@ == key;
                            assert(self.entries@[d].0@ == key);
                        }
                    }
                }
            },
        }
    }
}

impl TemplateDataRequest {
    /// The request for the template, and version, that a rendering request names.
    pub fn for_rendering(request: &RenderingRequest) -> (r: TemplateDataRequest)
        ensures
            r.template_id == request.template_id,
            r.template_version_id == request.template_version_id,
    {
        TemplateDataRequest {
            template_id: request.template_id,
            template_version_id: request.template_version_id,
        }
    }
}

impl TemplateDataResult {
    /// Whether this data is that of the template and version `requested` asks for.
    pub fn answers(&self, requested: &TemplateDataRequest) -> (r: bool)
        ensures
            r == (self.template_id == requested.template_id && self.template_version_id
                == requested.template_version_id),
    {
        self.template_id == requested.template_id && self.template_version_id
            == requested.template_version_id
    }
}

/// What a peer that asked for template data makes of the next message: the
/// data, if it is template data for the requested template and version.
pub fn expect_template_data(message: Message, requested: &TemplateDataRequest) -> (r: Result<
    TemplateDataResult,
    CommunicationError,
>)
    ensures
        match message {
            Message::TemplateDataResult(data) => if data.template_id == requested.template_id
                && data.template_version_id == requested.template_version_id {
                r == Ok::<TemplateDataResult, CommunicationError>(data)
            } else {
                r == Err::<TemplateDataResult, CommunicationError>(
                    CommunicationError::WrongTemplateDataSend,
                )
            },
            _ => r == Err::<TemplateDataResult, CommunicationError>(
                CommunicationError::UnexpectedMessageType,
            ),
        },
{
    match message {
        Message::TemplateDataResult(data) => {
            if data.answers(requested) {
                Ok(data)
            } else {
                Err(CommunicationError::WrongTemplateDataSend)
            }
        },
        _ => Err(CommunicationError::UnexpectedMessageType),
    }
}

/// What a renderer makes of the first message of an exchange: it must be a
/// rendering request.
pub fn expect_rendering_request(message: Message) -> (r: Result<RenderingRequest, CommunicationError>)
    ensures
        match message {
            Message::RenderingRequest(request) => r == Ok::<RenderingRequest, CommunicationError>(
                request,
            ),
            _ => r == Err::<RenderingRequest, CommunicationError>(
                CommunicationError::UnexpectedMessageType,
            ),
        },
{
    match message {
        Message::RenderingRequest(request) => Ok(request),
        _ => Err(CommunicationError::UnexpectedMessageType),
    }
}

} // verus!
