//! The prepared project: metadata, settings, people, identifiers, licenses,
//! sections and content blocks, with their construction and conversion helpers.
use vstd::prelude::*;
use crate::ids::Uuid;

verus! {

/// Project-level settings, current version.
#[derive(Debug, Clone, PartialEq)]
pub struct ProjectSettingsV4 {
    pub toc_enabled: bool,
    pub csl_style: Option<String>,
    pub csl_language_code: Option<String>,
    pub metadata_page_additional_html: Option<String>,
    pub cover_image_path: Option<String>,
    pub backcover_image_path: Option<String>,
}

/// Project-level settings, version 3.
#[derive(Debug, Clone, PartialEq)]
pub struct ProjectSettingsV3 {
    pub toc_enabled: bool,
    pub csl_style: Option<String>,
    pub csl_language_code: Option<String>,
}

/// Project-level settings, version 2.
#[derive(Debug, Clone, PartialEq)]
pub struct ProjectSettingsV2 {
    pub toc_enabled: bool,
    pub csl_style: Option<String>,
}

/// Version 3 settings as version 4: the fields new in version 4 are absent.
pub open spec fn v3_to_v4(s: ProjectSettingsV3) -> ProjectSettingsV4 {
    ProjectSettingsV4 {
        toc_enabled: s.toc_enabled,
        csl_style: s.csl_style,
        csl_language_code: s.csl_language_code,
        metadata_page_additional_html: None,
        cover_image_path: None,
        backcover_image_path: None,
    }
}

/// Version 2 settings as version 3: the language code new in version 3 is absent.
pub open spec fn v2_to_v3(s: ProjectSettingsV2) -> ProjectSettingsV3 {
    ProjectSettingsV3 {
        toc_enabled: s.toc_enabled,
        csl_style: s.csl_style,
        csl_language_code: None,
    }
}

impl From<ProjectSettingsV3> for ProjectSettingsV4 {
    fn from(settings: ProjectSettingsV3) -> (r: Self) {
        ProjectSettingsV4 {
            toc_enabled: settings.toc_enabled,
            csl_style: settings.csl_style,
            csl_language_code: settings.csl_language_code,
            metadata_page_additional_html: None,
            cover_image_path: None,
            backcover_image_path: None,
        }
    }
}

impl vstd::std_specs::convert::FromSpecImpl<ProjectSettingsV3> for ProjectSettingsV4 {
    open spec fn obeys_from_spec() -> bool {
        true
    }

    open spec fn from_spec(v: ProjectSettingsV3) -> ProjectSettingsV4 {
        v3_to_v4(v)
    }
}

impl From<ProjectSettingsV2> for ProjectSettingsV3 {
    fn from(settings: ProjectSettingsV2) -> (r: Self) {
        ProjectSettingsV3 {
            toc_enabled: settings.toc_enabled,
            csl_style: settings.csl_style,
            csl_language_code: None,
        }
    }
}

impl vstd::std_specs::convert::FromSpecImpl<ProjectSettingsV2> for ProjectSettingsV3 {
    open spec fn obeys_from_spec() -> bool {
        true
    }

    open spec fn from_spec(v: ProjectSettingsV2) -> ProjectSettingsV3 {
        v2_to_v3(v)
    }
}

impl From<ProjectSettingsV2> for ProjectSettingsV4 {
    fn from(settings: ProjectSettingsV2) -> (r: Self) {
        let v3 = ProjectSettingsV3::from(settings);
        ProjectSettingsV4::from(v3)
    }
}

impl vstd::std_specs::convert::FromSpecImpl<ProjectSettingsV2> for ProjectSettingsV4 {
    open spec fn obeys_from_spec() -> bool {
        true
    }

    open spec fn from_spec(v: ProjectSettingsV2) -> ProjectSettingsV4 {
        v3_to_v4(v2_to_v3(v))
    }
}

/// Upgrading settings keeps every field the older version has and leaves every
/// field it lacks absent: version 2 and version 3 settings both reach version 4 so.
pub proof fn lemma_settings_upgrade(v2: ProjectSettingsV2, v3: ProjectSettingsV3)
    ensures
        ({
            let u = v3_to_v4(v2_to_v3(v2));
            &&& u.toc_enabled == v2.toc_enabled
            &&& u.csl_style == v2.csl_style
            &&& u.csl_language_code is None
            &&& u.metadata_page_additional_html is None
            &&& u.cover_image_path is None
            &&& u.backcover_image_path is None
        }),
        ({
            let u = v3_to_v4(v3);
            &&& u.toc_enabled == v3.toc_enabled
            &&& u.csl_style == v3.csl_style
            &&& u.csl_language_code == v3.csl_language_code
            &&& u.metadata_page_additional_html is None
            &&& u.cover_image_path is None
            &&& u.backcover_image_path is None
        }),
{
}

/// A biography in a given language.
#[derive(Debug, Clone, PartialEq)]
pub struct Biography {
    pub content: String,
    pub lang: Option<Language>,
}

/// The supported languages.
#[derive(Debug, Clone, Copy, PartialEq, Eq, Structural)]
pub enum Language {
    DE,
    EN,
}

/// A person, such as an author or an editor.
#[derive(Debug, Clone, PartialEq)]
pub struct Person {
    pub id: Option<Uuid>,
    pub first_names: Option<String>,
    pub last_names: String,
    pub orcid: Option<Identifier>,
    pub gnd: Option<Identifier>,
    pub bios: Option<Vec<Biography>>,
    pub ror: Option<Identifier>,
}

/// An identifier such as a DOI, an ISBN or an ORCID.
#[derive(Debug, Clone, PartialEq)]
pub struct Identifier {
    pub id: Option<Uuid>,
    pub name: String,
    pub value: String,
    pub identifier_type: IdentifierType,
}

/// The kinds of identifier.
#[derive(Debug, Clone, PartialEq)]
pub enum IdentifierType {
    DOI,
    ISBN,
    ISSN,
    URL,
    URN,
    ORCID,
    ROR,
    GND,
    Other(String),
}

/// The display name an identifier of the given type has when none is supplied:
/// the type's canonical label, or the free text of `Other`.
pub open spec fn default_identifier_name(t: IdentifierType) -> Seq<char> {
    match t {
        IdentifierType::DOI => "DOI"@,
        IdentifierType::ISBN => "ISBN"@,
        IdentifierType::ISSN => "ISSN"@,
        IdentifierType::URL => "URL"@,
        IdentifierType::URN => "URN"@,
        IdentifierType::ORCID => "ORCID"@,
        IdentifierType::ROR => "ROR"@,
        IdentifierType::GND => "GND"@,
        IdentifierType::Other(other) => other@,
    }
}

impl Identifier {
    /// A new identifier with a fresh random id. Without an explicit name the
    /// name is the label of the identifier type.
    pub fn new(identifier_type: IdentifierType, value: String, name: Option<String>) -> (r: Self)
        ensures
            r.id is Some,
            r.value == value,
            r.identifier_type == identifier_type,
            r.name@ == match name {
                Some(n) => n@,
                None => default_identifier_name(identifier_type),
            },
    {
        let name = match name {
            Some(name) => name,
            None => match &identifier_type {
                IdentifierType::DOI => "DOI".to_owned(),
                IdentifierType::ISBN => "ISBN".to_owned(),
                IdentifierType::ISSN => "ISSN".to_owned(),
                IdentifierType::URL => "URL".to_owned(),
                IdentifierType::URN => "URN".to_owned(),
                IdentifierType::ORCID => "ORCID".to_owned(),
                IdentifierType::ROR => "ROR".to_owned(),
                IdentifierType::GND => "GND".to_owned(),
                IdentifierType::Other(other) => other.clone(),
            },
        };
        Identifier { id: Some(Uuid::new_v4()), name, value, identifier_type }
    }
}

/// Everything the renderer needs of a project.
pub struct PreparedProject {
    pub metadata: PreparedMetadata,
    pub settings: Option<ProjectSettingsV4>,
    pub sections: Vec<PreparedSection>,
}

/// Book-level metadata of a prepared project.
pub struct PreparedMetadata {
    /// Book title
    pub title: String,
    /// Subtitle of the book
    pub subtitle: Option<String>,
    /// Authors of the book
    pub authors: Vec<Person>,
    /// Editors of the book
    pub editors: Vec<Person>,
    /// URL of a web version of the book or a reference
    pub web_url: Option<String>,
    /// Identifiers of the book (e.g. ISBNs)
    pub identifiers: Option<Vec<Identifier>>,
    /// Date of publication
    pub published: Option<String>,
    /// Languages of the book
    pub languages: Option<Vec<Language>>,
    /// Number of pages of the book
    pub number_of_pages: Option<u32>,
    /// Short abstract
    pub short_abstract: Option<String>,
    /// Long abstract
    pub long_abstract: Option<String>,
    /// Keywords
    pub keywords: Option<Vec<Keyword>>,
    /// Dewey Decimal Classification classes
    pub ddc: Option<String>,
    /// License of the book
    pub license: Option<PreparedLicense>,
    /// Series the book belongs to
    pub series: Option<String>,
    /// Volume of the book in the series
    pub volume: Option<String>,
    /// Edition of the book
    pub edition: Option<String>,
    /// Publisher of the book
    pub publisher: Option<String>,
}

/// A keyword, optionally with a GND identifier.
#[derive(Debug, Clone, PartialEq)]
pub struct Keyword {
    pub title: String,
    pub gnd: Option<Identifier>,
}

/// The wire form of a [`License`]: one flag per standard license, or the
/// free text of a custom one. At most one indicator is set.
#[allow(non_snake_case)]
#[derive(Debug, Clone, PartialEq)]
pub struct PreparedLicense {
    CC0: bool,
    CC_BY_4: bool,
    CC_BY_SA_4: bool,
    CC_BY_ND_4: bool,
    CC_BY_NC_4: bool,
    CC_BY_NC_SA_4: bool,
    CC_BY_NC_ND_4: bool,
    other: String,
}

/// The standard Creative Commons licenses, or a custom one.
#[allow(non_camel_case_types)]
#[derive(Debug, Clone, PartialEq)]
pub enum License {
    CC0,
    CC_BY_4,
    CC_BY_SA_4,
    CC_BY_ND_4,
    CC_BY_NC_4,
    CC_BY_NC_SA_4,
    CC_BY_NC_ND_4,
    Other(String),
}

/// The position of a standard license among the flags of a [`PreparedLicense`];
/// `None` for a custom license.
pub open spec fn license_flag_index(l: License) -> Option<int> {
    match l {
        License::CC0 => Some(0),
        License::CC_BY_4 => Some(1),
        License::CC_BY_SA_4 => Some(2),
        License::CC_BY_ND_4 => Some(3),
        License::CC_BY_NC_4 => Some(4),
        License::CC_BY_NC_SA_4 => Some(5),
        License::CC_BY_NC_ND_4 => Some(6),
        License::Other(_) => None,
    }
}

impl PreparedLicense {
    /// The seven flags, in the order CC0, CC-BY, CC-BY-SA, CC-BY-ND, CC-BY-NC,
    /// CC-BY-NC-SA, CC-BY-NC-ND.
    pub closed spec fn flag_seq(&self) -> Seq<bool> {
        seq![
            self.CC0,
            self.CC_BY_4,
            self.CC_BY_SA_4,
            self.CC_BY_ND_4,
            self.CC_BY_NC_4,
            self.CC_BY_NC_SA_4,
            self.CC_BY_NC_ND_4,
        ]
    }

    /// The free text of a custom license.
    pub closed spec fn other_text(&self) -> Seq<char> {
        self.other@
    }

    /// The wire form of `l`: the flag of a standard license set and no text, or
    /// no flag set and the text of a custom license.
    pub open spec fn represents(&self, l: License) -> bool {
        &&& self.flag_seq().len() == 7
        &&& forall|i: int|
            0 <= i < 7 ==> (#[trigger] self.flag_seq()[i] <==> license_flag_index(l) == Some(i))
        &&& self.other_text() == match l {
            License::Other(text) => text@,
            _ => Seq::<char>::empty(),
        }
    }

    /// The seven flags, in the order of [`PreparedLicense::flag_seq`].
    pub fn flags(&self) -> (r: [bool; 7])
        ensures
            r@ == self.flag_seq(),
    {
        let r = [
            self.CC0,
            self.CC_BY_4,
            self.CC_BY_SA_4,
            self.CC_BY_ND_4,
            self.CC_BY_NC_4,
            self.CC_BY_NC_SA_4,
            self.CC_BY_NC_ND_4,
        ];
        assert(r@ =~= self.flag_seq());
        r
    }

    /// The license with these seven flags, in the order of
    /// [`PreparedLicense::flag_seq`], and this free text.
    pub fn from_parts(flags: [bool; 7], other: String) -> (r: PreparedLicense)
        ensures
            r.flag_seq() == flags@,
            r.other_text() == other@,
    {
        let r = PreparedLicense {
            CC0: flags[0],
            CC_BY_4: flags[1],
            CC_BY_SA_4: flags[2],
            CC_BY_ND_4: flags[3],
            CC_BY_NC_4: flags[4],
            CC_BY_NC_SA_4: flags[5],
            CC_BY_NC_ND_4: flags[6],
            other,
        };
        assert(r.flag_seq() =~= flags@);
        r
    }

    /// The free text of a custom license; empty for a standard one.
    pub fn other(&self) -> (r: &String)
        ensures
            r@ == self.other_text(),
    {
        &self.other
    }
}

impl From<License> for PreparedLicense {
    fn from(license: License) -> (r: Self)
        ensures
            r.represents(license),
    {
        let f = false;
        match license {
            License::CC0 => PreparedLicense { CC0: true, CC_BY_4: f, CC_BY_SA_4: f, CC_BY_ND_4: f, CC_BY_NC_4: f, CC_BY_NC_SA_4: f, CC_BY_NC_ND_4: f, other: String::new() },
            License::CC_BY_4 => PreparedLicense { CC0: f, CC_BY_4: true, CC_BY_SA_4: f, CC_BY_ND_4: f, CC_BY_NC_4: f, CC_BY_NC_SA_4: f, CC_BY_NC_ND_4: f, other: String::new() },
            License::CC_BY_SA_4 => PreparedLicense { CC0: f, CC_BY_4: f, CC_BY_SA_4: true, CC_BY_ND_4: f, CC_BY_NC_4: f, CC_BY_NC_SA_4: f, CC_BY_NC_ND_4: f, other: String::new() },
            License::CC_BY_ND_4 => PreparedLicense { CC0: f, CC_BY_4: f, CC_BY_SA_4: f, CC_BY_ND_4: true, CC_BY_NC_4: f, CC_BY_NC_SA_4: f, CC_BY_NC_ND_4: f, other: String::new() },
            License::CC_BY_NC_4 => PreparedLicense { CC0: f, CC_BY_4: f, CC_BY_SA_4: f, CC_BY_ND_4: f, CC_BY_NC_4: true, CC_BY_NC_SA_4: f, CC_BY_NC_ND_4: f, other: String::new() },
            License::CC_BY_NC_SA_4 => PreparedLicense { CC0: f, CC_BY_4: f, CC_BY_SA_4: f, CC_BY_ND_4: f, CC_BY_NC_4: f, CC_BY_NC_SA_4: true, CC_BY_NC_ND_4: f, other: String::new() },
            License::CC_BY_NC_ND_4 => PreparedLicense { CC0: f, CC_BY_4: f, CC_BY_SA_4: f, CC_BY_ND_4: f, CC_BY_NC_4: f, CC_BY_NC_SA_4: f, CC_BY_NC_ND_4: true, other: String::new() },
            License::Other(other) => PreparedLicense { CC0: f, CC_BY_4: f, CC_BY_SA_4: f, CC_BY_ND_4: f, CC_BY_NC_4: f, CC_BY_NC_SA_4: f, CC_BY_NC_ND_4: f, other },
        }
    }
}

impl vstd::std_specs::convert::FromSpecImpl<License> for PreparedLicense {
    open spec fn obeys_from_spec() -> bool {
        false
    }

    open spec fn from_spec(v: License) -> PreparedLicense {
        arbitrary()
    }
}

/// The wire form of a standard license has exactly one flag set and no text;
/// that of a custom license has no flag set and carries the license's text.
pub proof fn lemma_prepared_license_indicators(l: License, p: PreparedLicense)
    requires
        p.represents(l),
    ensures
        !(l is Other) ==> {
            &&& p.other_text().len() == 0
            &&& exists|i: int|
                0 <= i < 7 && #[trigger] p.flag_seq()[i] && forall|j: int|
                    0 <= j < 7 && j != i ==> !p.flag_seq()[j]
        },
        l matches License::Other(text) ==> {
            &&& p.other_text() == text@
            &&& forall|j: int| 0 <= j < 7 ==> !p.flag_seq()[j]
        },
{
    if !(l is Other) {
        let i = license_flag_index(l)->0;
        assert(p.flag_seq()[i]);
    }
}

/// One entry of the table of contents.
pub struct TocEntry {
    pub title: String,
    pub level: u32,
    pub id: Uuid,
    pub children: Vec<TocEntry>,
}

/// A section of a prepared project, with its sub-sections, content and endnotes.
pub struct PreparedSection {
    pub id: Uuid,
    pub sub_sections: Vec<PreparedSection>,
    pub children: Vec<PreparedContentBlock>,
    pub metadata: PreparedSectionMetadata,
    pub visible_in_toc: bool,
    pub endnotes: Vec<PreparedEndnote>,
}

/// An endnote of a section.
pub struct PreparedEndnote {
    pub num: usize,
    pub id: Uuid,
    pub content: String,
}

/// Metadata of a single section.
pub struct PreparedSectionMetadata {
    pub title: String,
    pub subtitle: Option<String>,
    pub toc_title: Option<String>,
    pub authors: Vec<Person>,
    pub editors: Vec<Person>,
    pub web_url: Option<String>,
    pub identifiers: Vec<Identifier>,
    pub published: Option<String>,
    pub lang: PreparedLanguage,
}

/// The language of a section, one flag per supported language.
pub struct PreparedLanguage {
    pub de: bool,
    pub en: bool,
}

/// A block of content, rendered to HTML.
pub struct PreparedContentBlock {
    pub id: String,
    pub block_type: BlockType,
    pub html: String,
}

/// The kinds of content block.
#[derive(Debug, Clone, Copy, PartialEq, Eq, Structural)]
pub enum BlockType {
    Paragraph,
    Heading,
    Raw,
    List,
    Quote,
    Image,
}

} // verus!
