//! Raw handle descriptors for the Web platform: one display descriptor and
//! three window/canvas descriptors.
//!
//! Every type here is a plain, copyable, non-owning value. None of them
//! allocates, owns, or references a live resource; they are interchange
//! values only. Equality is deep structural comparison of the fields, so two
//! values with equal fields are indistinguishable and interchangeable, and
//! the types can serve as map or set keys downstream.
//!
//! The numeric value `0` is reserved, by convention, as the sentinel meaning
//! "invalid / unset". A correct issuing collaborator never hands out `0` as a
//! real identifier; nothing in these types enforces that, on purpose — the
//! convention is part of the interchange contract that existing collaborators
//! rely on.

use vstd::prelude::*;

verus! {

/// Raw display handle for the Web.
///
/// The Web platform has exactly one implicit display context, so this
/// descriptor carries no distinguishing data: any two values of this type
/// are equal.
///
/// Construct it with [`WebDisplayHandle::empty`] and fill in any fields the
/// type may gain later.
#[non_exhaustive]
#[derive(Debug, Clone, Copy, PartialEq, Eq, Hash, Structural)]
pub struct WebDisplayHandle;

impl WebDisplayHandle {
    /// The sentinel constructor: yields the canonical well-formed value.
    pub fn empty() -> (r: Self)
        ensures
            r == (WebDisplayHandle {}),
    {
        Self {}
    }
}

/// Law: two display handle values are always equal — the type carries no
/// distinguishing state.
pub proof fn lemma_display_handles_equal(a: WebDisplayHandle, b: WebDisplayHandle)
    ensures
        a == b,
{
}

/// Raw window handle for the Web.
///
/// Construct it with [`WebWindowHandle::empty`] and then fill in the fields.
#[non_exhaustive]
#[derive(Debug, Clone, Copy, PartialEq, Eq, Hash, Structural)]
pub struct WebWindowHandle {
    /// An ID value correlated with the `raw-handle` data attribute of the
    /// canvas element (visible as `rawHandle` from JS).
    ///
    /// Each canvas created by the windowing system should be assigned its
    /// own unique non-zero ID by the issuing collaborator; `0` is reserved
    /// for invalid / null IDs.
    pub id: u32,
}

impl WebWindowHandle {
    /// The sentinel constructor: every numeric field is zero, meaning
    /// "no handle yet".
    pub fn empty() -> (r: Self)
        ensures
            r.id == 0,
    {
        Self { id: 0 }
    }
}

/// Law: window handle equality is exactly equality of the `id` fields.
pub proof fn lemma_window_handle_eq(a: WebWindowHandle, b: WebWindowHandle)
    ensures
        (a == b) <==> (a.id == b.id),
{
}

/// Law: rebuilding a window handle from its extracted `id` yields a value
/// equal to the original.
pub proof fn lemma_window_handle_round_trip(h: WebWindowHandle)
    ensures
        (WebWindowHandle { id: h.id }) == h,
{
}

/// Raw window handle for a Web canvas registered in an external FFI binding
/// registry table.
///
/// Construct it with [`Wbg02CanvasWindowHandle::empty`] and then fill in the
/// fields.
#[non_exhaustive]
#[derive(Debug, Clone, Copy, PartialEq, Eq, Hash, Structural)]
pub struct Wbg02CanvasWindowHandle {
    /// The index of the on-screen canvas element in the external binding
    /// registry table.
    ///
    /// A non-zero index implies, by convention, that the registry holds a
    /// live on-screen canvas object reachable through the registry's own
    /// conversion functions; `0` means "not registered / invalid". This type
    /// only carries the index and makes no promise about the table's
    /// contents.
    pub idx: u32,
}

impl Wbg02CanvasWindowHandle {
    /// The sentinel constructor: every numeric field is zero, meaning
    /// "no handle yet".
    pub fn empty() -> (r: Self)
        ensures
            r.idx == 0,
    {
        Self { idx: 0 }
    }
}

/// Law: on-screen canvas handle equality is exactly equality of the `idx`
/// fields.
pub proof fn lemma_canvas_handle_eq(a: Wbg02CanvasWindowHandle, b: Wbg02CanvasWindowHandle)
    ensures
        (a == b) <==> (a.idx == b.idx),
{
}

/// Law: rebuilding an on-screen canvas handle from its extracted `idx`
/// yields a value equal to the original.
pub proof fn lemma_canvas_handle_round_trip(h: Wbg02CanvasWindowHandle)
    ensures
        (Wbg02CanvasWindowHandle { idx: h.idx }) == h,
{
}

/// Raw window handle for a Web off-screen canvas registered in an external
/// FFI binding registry table.
///
/// Structurally identical to [`Wbg02CanvasWindowHandle`], but kept as a
/// distinct type so that an off-screen canvas index can never be silently
/// misread as an on-screen one.
///
/// Construct it with [`Wbg02OffscreenCanvasWindowHandle::empty`] and then
/// fill in the fields.
#[non_exhaustive]
#[derive(Debug, Clone, Copy, PartialEq, Eq, Hash, Structural)]
pub struct Wbg02OffscreenCanvasWindowHandle {
    /// The index of the off-screen canvas object in the external binding
    /// registry table.
    ///
    /// A non-zero index implies, by convention, that the registry holds a
    /// live off-screen canvas object reachable through the registry's own
    /// conversion functions; `0` means "not registered / invalid". This type
    /// only carries the index and makes no promise about the table's
    /// contents.
    pub idx: u32,
}

impl Wbg02OffscreenCanvasWindowHandle {
    /// The sentinel constructor: every numeric field is zero, meaning
    /// "no handle yet".
    pub fn empty() -> (r: Self)
        ensures
            r.idx == 0,
    {
        Self { idx: 0 }
    }
}

/// Law: off-screen canvas handle equality is exactly equality of the `idx`
/// fields.
pub proof fn lemma_offscreen_canvas_handle_eq(
    a: Wbg02OffscreenCanvasWindowHandle,
    b: Wbg02OffscreenCanvasWindowHandle,
)
    ensures
        (a == b) <==> (a.idx == b.idx),
{
}

/// Law: rebuilding an off-screen canvas handle from its extracted `idx`
/// yields a value equal to the original.
pub proof fn lemma_offscreen_canvas_handle_round_trip(h: Wbg02OffscreenCanvasWindowHandle)
    ensures
        (Wbg02OffscreenCanvasWindowHandle { idx: h.idx }) == h,
{
}

} // verus!
