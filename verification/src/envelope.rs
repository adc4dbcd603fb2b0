//! The result-envelope convention: every boundary operation that can
//! fail returns a fixed-shape envelope in which exactly one of the
//! success payload, the not-ready flag (frame polling only) and the
//! error handle is populated.

use vstd::prelude::*;
use crate::error::BoundaryError;

verus! {

/// The outcome of listing every display the backend knows.
pub struct DisplayListOrErr<D> {
    /// The displays, in the backend's enumeration order.
    pub list: Option<Vec<D>>,
    /// The failure, when the enumeration could not be made.
    pub err: Option<BoundaryError>,
}

impl<D> DisplayListOrErr<D> {
    /// Exactly one of the list and the error is present.
    pub open spec fn wf(&self) -> bool {
        self.list is Some <==> self.err is None
    }
}

/// The outcome of asking for one display.
pub struct DisplayOrErr<D> {
    /// The display handle, whose ownership passes to the caller.
    pub display: Option<D>,
    /// The failure, when no display could be handed out.
    pub err: Option<BoundaryError>,
}

impl<D> DisplayOrErr<D> {
    /// Exactly one of the display and the error is present.
    pub open spec fn wf(&self) -> bool {
        self.display is Some <==> self.err is None
    }
}

/// The outcome of opening a capture session.
pub struct CapturerOrErr<C> {
    /// The capturer handle, whose ownership passes to the caller.
    pub capturer: Option<C>,
    /// The failure, when the session could not be opened.
    pub err: Option<BoundaryError>,
}

impl<C> CapturerOrErr<C> {
    /// Exactly one of the capturer and the error is present.
    pub open spec fn wf(&self) -> bool {
        self.capturer is Some <==> self.err is None
    }
}

/// The outcome of polling a capturer for its next frame.
pub struct FrameOrErr {
    /// The pixel bytes of the frame, when one was ready.
    pub data: Option<Vec<u8>>,
    /// Set when no frame is ready yet: not a failure, poll again later.
    pub would_block: bool,
    /// The failure, when the backend could not serve the poll.
    pub err: Option<BoundaryError>,
}

impl FrameOrErr {
    /// Exactly one of the payload, the not-ready flag and the error is
    /// populated.
    pub open spec fn wf(&self) -> bool {
        ||| (self.data is Some && !self.would_block && self.err is None)
        ||| (self.data is None && self.would_block && self.err is None)
        ||| (self.data is None && !self.would_block && self.err is Some)
    }
}

/// What one poll of the backend's frame stream came back with.
pub enum FramePoll {
    /// A frame arrived, carrying its pixel bytes.
    Ready(Vec<u8>),
    /// No frame yet; the caller should poll again.
    NotReady,
    /// The backend failed, with its textual description.
    Failed(String),
}

/// Law of the envelope convention: a well-formed display-list envelope
/// populates exactly one of the payload and the error handle — never
/// both, never neither.
pub proof fn lemma_display_list_exclusive<D>(r: DisplayListOrErr<D>)
    requires
        r.wf(),
    ensures
        (r.list is Some) != (r.err is Some),
{
}

/// Law of the envelope convention: a well-formed display envelope
/// populates exactly one of the payload and the error handle.
pub proof fn lemma_display_exclusive<D>(r: DisplayOrErr<D>)
    requires
        r.wf(),
    ensures
        (r.display is Some) != (r.err is Some),
{
}

/// Law of the envelope convention: a well-formed capturer envelope
/// populates exactly one of the payload and the error handle.
pub proof fn lemma_capturer_exclusive<C>(r: CapturerOrErr<C>)
    requires
        r.wf(),
    ensures
        (r.capturer is Some) != (r.err is Some),
{
}

/// Law of the frame relay: a well-formed frame envelope populates
/// exactly one of the payload, the not-ready flag and the error handle;
/// in particular a not-ready poll carries no bytes and no error.
pub proof fn lemma_frame_exclusive(r: FrameOrErr)
    requires
        r.wf(),
    ensures
        r.data is Some ==> !r.would_block && r.err is None,
        r.would_block ==> r.data is None && r.err is None,
        r.err is Some ==> r.data is None && !r.would_block,
        r.data is Some || r.would_block || r.err is Some,
{
}

} // verus!
