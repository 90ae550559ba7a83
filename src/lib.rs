//! Wire protocol between a rendering client and a remote rendering worker:
//! the message envelope, its payload types, the length-prefixed framing, the
//! directory-tree payloads and the rendering status progression.
use vstd::prelude::*;

pub mod framing;
pub mod ids;
pub mod message;
pub mod projects;
pub mod status;
pub mod tree;

pub use crate::ids::Uuid;
pub use crate::message::{
    CommunicationError, ExportFormats, Message, RenderingRequest, TemplateDataRequest,
    TemplateDataResult,
};
pub use crate::status::{RenderingError, RenderingResult, RenderingStatus};
pub use crate::tree::{FileOrFolder, NamedFile, NamedFolder, TemplateContents};

verus! {

} // verus!
