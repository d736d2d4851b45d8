//! The browse block: asks the host to open the input URL in the system
//! browser.
//!
//! Opening a browser is blocking external work, so the block does not
//! perform it: activation validates the input and hands the host an
//! explicit request to carry out off the scheduler; the host then reports
//! the outcome back and the block finishes the activation. The request
//! value may outlive a cancelled graph pass harmlessly: it owns its URL
//! and touches no shared state.

use vstd::prelude::*;

use crate::error::{BlockError, ErrorKind};
use crate::registry::{BlockKind, Registry};
use crate::value::{TaggedValue, ValueModel};

verus! {

/// A blocking call the host must perform on a block's behalf.
#[derive(Debug)]
pub enum BlockedCall {
    OpenUrl(String),
}

/// The browse block itself is stateless.
pub struct BrowseBlock {}

impl BrowseBlock {
    pub fn new() -> (b: BrowseBlock) {
        BrowseBlock {  }
    }

    /// Validate the input and produce the blocking request: succeeds
    /// exactly on a string input, whose text becomes the URL to open.
    pub fn activate(&self, input: &TaggedValue) -> (r: Result<BlockedCall, BlockError>)
        ensures
            r is Ok <==> input@ is Str,
            input@ matches ValueModel::Str(s) ==> (r matches Ok(BlockedCall::OpenUrl(u)) && u@
                == s),
            r is Err ==> r->Err_0.kind == ErrorKind::ShapeMismatch,
    {
        match input.as_str() {
            Ok(s) => Ok(BlockedCall::OpenUrl(s.clone())),
            Err(e) => Err(e),
        }
    }

    /// Finish the activation once the host reports the call's outcome:
    /// the input passes through unchanged on success; failure to open the
    /// browser is an external failure.
    pub fn resume(&self, input: &TaggedValue, opened: bool) -> (r: Result<TaggedValue, BlockError>)
        ensures
            r is Ok <==> opened,
            opened ==> r->Ok_0@ == input@,
            !opened ==> r->Err_0.kind == ErrorKind::ExternalFailure && r->Err_0.message@
                == "Failed to browse."@,
    {
        if opened {
            Ok(input.deep_clone())
        } else {
            Err(BlockError::new(ErrorKind::ExternalFailure, "Failed to browse."))
        }
    }
}

/// Register the browse block.
#[allow(non_snake_case)]
pub fn registerBlocks(registry: &mut Registry)
    ensures
        final(registry).entries@ == old(registry).entries@.push(BlockKind::Browse),
{
    registry.register(BlockKind::Browse);
}

} // verus!
