//! The flag by which the user stops an optional pack's download.
use vstd::prelude::*;

verus! {

/// Whether the download of an optional pack has been asked to stop. One such
/// flag is shared by the window, which raises it, and the download, which
/// lowers it at its start and looks at it between its steps.
pub struct PackCancel {
    pub requested: bool,
}

/// Asks the running download to stop.
pub fn request_pack_cancel(cancel: &mut PackCancel)
    ensures
        final(cancel).requested,
{
    cancel.requested = true;
}

/// Forgets an earlier request, so that a new download can run.
pub fn reset_pack_cancel(cancel: &mut PackCancel)
    ensures
        !final(cancel).requested,
{
    cancel.requested = false;
}

} // verus!
