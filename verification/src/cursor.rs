//! Cursor capture: the capture interface, the cursor shape record, and
//! the platform-independent stub; the X11-backed capture lives with the
//! platform plumbing outside this crate.

use vstd::prelude::*;

use crate::protocol::CursorShapeInfo;

verus! {

/// The cursor capture interface every capture backend implements.
pub trait CursorCapture {
    /// The cursor position.
    fn get_position(&self) -> Result<(i32, i32), crate::device::TransferError>;

    /// Whether the cursor is visible.
    fn is_visible(&self) -> bool;

    /// The cursor shape, when it changed since the last call.
    fn get_shape(&mut self) -> Result<Option<CursorShape>, crate::device::TransferError>;

    /// Whether the cursor shape has changed.
    fn has_shape_changed(&self) -> bool;
}

/// Cursor shape data: the shape record plus the BGRA pixels.
#[derive(Debug, Clone)]
pub struct CursorShape {
    /// Shape info
    pub info: CursorShapeInfo,
    /// Pixel data (BGRA format)
    pub data: Vec<u8>,
}

/// Stub cursor capture: reports a hidden cursor at the origin with no
/// shape, for platforms with no capture backend.
pub struct StubCursorCapture {
    /// Placeholder state so the stub mirrors a real backend's lifecycle
    initialized: bool,
}

impl StubCursorCapture {
    /// Whether the stub was initialized.
    pub closed spec fn spec_initialized(&self) -> bool {
        self.initialized
    }

    /// Create a stub cursor capture.
    pub fn new() -> (r: Result<Self, crate::device::TransferError>)
        ensures
            r is Ok,
            r is Ok ==> r->Ok_0.spec_initialized(),
    {
        Ok(Self { initialized: true })
    }
}

impl CursorCapture for StubCursorCapture {
    /// The stub cursor sits at the origin.
    fn get_position(&self) -> (r: Result<(i32, i32), crate::device::TransferError>)
        ensures
            r == Ok::<(i32, i32), crate::device::TransferError>((0i32, 0i32)),
    {
        Ok((0, 0))
    }

    /// The stub cursor is never visible.
    fn is_visible(&self) -> (r: bool)
        ensures
            r == false,
    {
        false
    }

    /// The stub cursor has no shape.
    fn get_shape(&mut self) -> (r: Result<Option<CursorShape>, crate::device::TransferError>)
        ensures
            r is Ok && r->Ok_0 is None,
            *final(self) == *old(self),
    {
        Ok(None)
    }

    /// The stub cursor's shape never changes.
    fn has_shape_changed(&self) -> (r: bool)
        ensures
            r == false,
    {
        false
    }
}

} // verus!
