use vstd::prelude::*;

verus! {

/// The coordinate-frame conventions a caller may request.
#[derive(Clone, Copy, PartialEq, Eq, Structural, Debug)]
pub enum XRReferenceSpaceType {
    Viewer,
    Local,
    LocalFloor,
    BoundedFloor,
    Unbounded,
}

/// Whether this capability tier can produce a space of the given kind.
///
/// `BoundedFloor` and `Unbounded` are categorically unsupported here — a
/// static capability gate, not a runtime probe — and every other kind is
/// served. Should the device gain support, this is the single place that
/// changes.
pub open spec fn kind_supported(ty: XRReferenceSpaceType) -> bool {
    !(ty == XRReferenceSpaceType::BoundedFloor || ty == XRReferenceSpaceType::Unbounded)
}

/// A reference space bound to one session: the requested kind, together with
/// the device-session handle it was created against.
#[derive(Clone, Copy, PartialEq, Eq, Structural, Debug)]
pub struct XRReferenceSpace {
    /// The device-session handle of the session that produced this space.
    pub session: u64,
    /// The coordinate-frame convention this space expresses poses in.
    pub ty: XRReferenceSpaceType,
}

} // verus!
