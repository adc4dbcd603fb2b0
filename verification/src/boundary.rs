//! The boundary's operations, decided over the backend's outcomes.
//!
//! The capture backend is an external engine reached over the operating
//! system's display interfaces; its calls cannot be made from verified
//! code, so they stand in the thin face outside this library, which
//! hands their outcomes in as plain values: an enumeration carrying
//! each display's dimensions, the result of opening a session, one poll
//! of the frame stream. Everything the boundary decides about an
//! outcome — envelope shape, index selection, dimension carry-over,
//! not-ready versus failure — is verified here, for every outcome the
//! backend could produce.

use vstd::prelude::*;
use crate::envelope::CapturerOrErr;
use crate::envelope::DisplayListOrErr;
use crate::envelope::DisplayOrErr;
use crate::envelope::FrameOrErr;
use crate::envelope::FramePoll;
use crate::error::BoundaryError;
use crate::error::index_error;
use crate::error::index_error_message;
use crate::handle::CapturerHandle;
use crate::handle::DisplayHandle;

verus! {

/// Binds each enumerated display's dimensions and backend object into
/// an owned handle, keeping the enumeration order.
fn bind_displays<B>(v: Vec<(usize, usize, B)>) -> (r: Vec<DisplayHandle<B>>)
    ensures
        r@.len() == v@.len(),
        forall|i: int| 0 <= i < v@.len() ==> (#[trigger] r@[i]).width == v@[i].0
            && r@[i].height == v@[i].1 && r@[i].backend == v@[i].2,
{
    let ghost orig = v@;
    let mut v = v;
    let mut out: Vec<DisplayHandle<B>> = Vec::new();
    while v.len() > 0
        invariant
            out@.len() + v@.len() == orig.len(),
            v@ == orig.subrange(out@.len() as int, orig.len() as int),
            forall|i: int| 0 <= i < out@.len() ==> (#[trigger] out@[i]).width == orig[i].0
                && out@[i].height == orig[i].1 && out@[i].backend == orig[i].2,
        decreases v@.len(),
    {
        let (w, h, b) = v.remove(0);
        assert(orig[out@.len() as int] == (w, h, b));
        out.push(DisplayHandle::new(w, h, b));
        assert(v@ =~= orig.subrange(out@.len() as int, orig.len() as int));
    }
    out
}

/// Shapes a display enumeration outcome into the list envelope.
///
/// On success the envelope carries one owned handle per enumerated
/// display, with its dimensions, in enumeration order, and no error; on
/// failure it carries exactly the backend's message. The caller frees
/// each listed display individually.
pub fn display_list<B>(outcome: Result<Vec<(usize, usize, B)>, String>) -> (r: DisplayListOrErr<
    DisplayHandle<B>,
>)
    ensures
        r.wf(),
        match outcome {
            Ok(v) => r.err is None && (r.list matches Some(l) && l@.len() == v@.len()
                && (forall|i: int| 0 <= i < v@.len() ==> (#[trigger] l@[i]).width == v@[i].0
                    && l@[i].height == v@[i].1 && l@[i].backend == v@[i].2)),
            Err(m) => r.list is None && (r.err matches Some(e) && e@ == m@),
        },
{
    match outcome {
        Ok(v) => DisplayListOrErr { list: Some(bind_displays(v)), err: None },
        Err(m) => DisplayListOrErr { list: None, err: Some(BoundaryError::new(m)) },
    }
}

/// Shapes a primary-display query outcome into its envelope: exactly
/// one of an owned handle with the reported dimensions, or the
/// backend's error.
pub fn display_primary<B>(outcome: Result<(usize, usize, B), String>) -> (r: DisplayOrErr<
    DisplayHandle<B>,
>)
    ensures
        r.wf(),
        match outcome {
            Ok(p) => r.err is None && (r.display matches Some(d) && d.width == p.0
                && d.height == p.1 && d.backend == p.2),
            Err(m) => r.display is None && (r.err matches Some(e) && e@ == m@),
        },
{
    match outcome {
        Ok(p) => {
            let (w, h, b) = p;
            DisplayOrErr { display: Some(DisplayHandle::new(w, h, b)), err: None }
        },
        Err(m) => DisplayOrErr { display: None, err: Some(BoundaryError::new(m)) },
    }
}

/// Hands out the display at `index` of an enumeration outcome.
///
/// A failed enumeration surfaces the backend's error; an index outside
/// `[0, len)` surfaces the domain error instead, never a backend error;
/// an index inside it yields exactly the display at that position, as
/// an owned handle.
pub fn get_display<B>(outcome: Result<Vec<(usize, usize, B)>, String>, index: i32) -> (r:
    DisplayOrErr<DisplayHandle<B>>)
    ensures
        r.wf(),
        match outcome {
            Ok(v) => {
                if 0 <= index && (index as int) < v@.len() {
                    r.err is None && (r.display matches Some(d) && d.width == v@[index as int].0
                        && d.height == v@[index as int].1 && d.backend == v@[index as int].2)
                } else {
                    r.display is None && (r.err matches Some(e) && e@ == index_error_message())
                }
            },
            Err(m) => r.display is None && (r.err matches Some(e) && e@ == m@),
        },
{
    match outcome {
        Ok(v) => {
            let mut v = v;
            if index >= 0 && (index as usize) < v.len() {
                let (w, h, b) = v.remove(index as usize);
                DisplayOrErr { display: Some(DisplayHandle::new(w, h, b)), err: None }
            } else {
                DisplayOrErr { display: None, err: Some(index_error()) }
            }
        },
        Err(m) => DisplayOrErr { display: None, err: Some(BoundaryError::new(m)) },
    }
}

/// Shapes the outcome of opening a capture session into its envelope,
/// carrying over the dimensions of the display the session was opened
/// on.
///
/// The display handle is consumed — through
/// [`DisplayHandle::into_parts`] — before the backend is asked to open
/// the session, so it is spent whatever the outcome: on failure only
/// its dimensions survive here, and no new handle is made from them. A
/// returned capturer mirrors the consumed display's dimensions.
pub fn capturer_new<S>(width: usize, height: usize, outcome: Result<S, String>) -> (r:
    CapturerOrErr<CapturerHandle<S>>)
    ensures
        r.wf(),
        match outcome {
            Ok(s) => r.err is None && (r.capturer matches Some(c) && c.width == width
                && c.height == height && c.session == s),
            Err(m) => r.capturer is None && (r.err matches Some(e) && e@ == m@),
        },
{
    match outcome {
        Ok(s) => CapturerOrErr {
            capturer: Some(CapturerHandle { width, height, session: s }),
            err: None,
        },
        Err(m) => CapturerOrErr { capturer: None, err: Some(BoundaryError::new(m)) },
    }
}

/// Shapes one poll of the frame stream into its envelope.
///
/// A poll that found no frame yet yields the not-ready flag and an
/// empty payload, never an error; a ready frame yields exactly its
/// bytes; a backend failure yields exactly its message.
pub fn capturer_frame(poll: FramePoll) -> (r: FrameOrErr)
    ensures
        r.wf(),
        match poll {
            FramePoll::Ready(bytes) => r.data == Some(bytes) && !r.would_block && r.err is None,
            FramePoll::NotReady => r.data is None && r.would_block && r.err is None,
            FramePoll::Failed(m) => r.data is None && !r.would_block && (r.err matches Some(e)
                && e@ == m@),
        },
{
    match poll {
        FramePoll::Ready(bytes) => FrameOrErr { data: Some(bytes), would_block: false, err: None },
        FramePoll::NotReady => FrameOrErr { data: None, would_block: true, err: None },
        FramePoll::Failed(m) => FrameOrErr {
            data: None,
            would_block: false,
            err: Some(BoundaryError::new(m)),
        },
    }
}

} // verus!
