use vstd::prelude::*;

use crate::exts::{Attachment, SourceInfo};
use crate::fields::Timestamp;

verus! {

/// Removes a resource while keeping its optional time stamp and metadata.
///
/// Both live publications and successful query replies can carry this body. It has no value bytes.
#[derive(Clone, Copy, Debug, PartialEq)]
pub struct Del<'a> {
    /// Time stamp of the sender.
    pub timestamp: Option<Timestamp>,
    /// Identity and sequence of the original source.
    pub sinfo: Option<SourceInfo>,
    /// Opaque application metadata.
    pub attachment: Option<Attachment<'a>>,
}

impl<'a> Default for Del<'a> {
    fn default() -> (del: Self)
        ensures
            del == (Del { timestamp: None, sinfo: None, attachment: None }),
    {
        Del { timestamp: None, sinfo: None, attachment: None }
    }
}

} // verus!
