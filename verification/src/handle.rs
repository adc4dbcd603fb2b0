//! The handle registry: displays and capture sessions as move-only
//! resources.
//!
//! A handle owns its backend object and is never duplicated by the
//! boundary, so every allocation has exactly one owner at every moment.
//! Freeing is consuming: once a handle is passed to its free operation,
//! or taken apart by [`DisplayHandle::into_parts`] on the way into a
//! capture session, the type system rules out every later use of it.

use vstd::prelude::*;

verus! {

/// One physical output device, bound to the backend object `B` that
/// stands for it, with its dimensions read from the backend once, when
/// the handle was made.
pub struct DisplayHandle<B> {
    /// The display's width in pixels.
    pub width: usize,
    /// The display's height in pixels.
    pub height: usize,
    /// The backend's own display object, owned by this handle alone.
    pub backend: B,
}

impl<B> DisplayHandle<B> {
    /// Binds a backend display object and its dimensions into a handle.
    pub fn new(width: usize, height: usize, backend: B) -> (d: DisplayHandle<B>)
        ensures
            d.width == width,
            d.height == height,
            d.backend == backend,
    {
        DisplayHandle { width, height, backend }
    }

    /// Consumes the handle, giving back its dimensions and the backend
    /// object it owned.
    ///
    /// This is the consuming step on the way into a capture session:
    /// the backend object goes to the session opener, the dimensions to
    /// [`crate::boundary::capturer_new`], and the handle itself is
    /// spent before the outcome of the opening is known.
    pub fn into_parts(self) -> (p: (usize, usize, B))
        ensures
            p.0 == self.width,
            p.1 == self.height,
            p.2 == self.backend,
    {
        let DisplayHandle { width, height, backend } = self;
        (width, height, backend)
    }
}

/// A live capture session, bound to the session object `S` the backend
/// opened, mirroring the dimensions of the display it was made from.
pub struct CapturerHandle<S> {
    /// The width in pixels of the frames the session captures.
    pub width: usize,
    /// The height in pixels of the frames the session captures.
    pub height: usize,
    /// The backend's own session object, owned by this handle alone.
    pub session: S,
}

/// Reads a display's width. The handle must still be owned live: a
/// freed or consumed handle cannot reach here.
pub fn display_width<B>(d: &DisplayHandle<B>) -> (w: usize)
    ensures
        w == d.width,
{
    d.width
}

/// Reads a display's height.
pub fn display_height<B>(d: &DisplayHandle<B>) -> (h: usize)
    ensures
        h == d.height,
{
    d.height
}

/// Releases a display handle.
///
/// Consuming the handle returns its allocation, and the backend object
/// it owned, to the system; this is the one matching free for every
/// display a creation operation handed out, and the type system rules
/// out any use of the handle afterwards.
pub fn display_free<B>(d: DisplayHandle<B>) {
    let _ = d;
}

/// Reads a capturer's width, which mirrors the consumed display's.
pub fn capturer_width<S>(c: &CapturerHandle<S>) -> (w: usize)
    ensures
        w == c.width,
{
    c.width
}

/// Reads a capturer's height, which mirrors the consumed display's.
pub fn capturer_height<S>(c: &CapturerHandle<S>) -> (h: usize)
    ensures
        h == c.height,
{
    c.height
}

/// Releases a capturer handle, ending its capture session.
///
/// Consuming the handle returns its allocation, and the backend session
/// it owned, to the system; the type system rules out any use of the
/// handle afterwards.
pub fn capturer_free<S>(c: CapturerHandle<S>) {
    let _ = c;
}

} // verus!
