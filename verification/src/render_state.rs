use vstd::prelude::*;

verus! {

/// Default near clip distance: a tenth of a meter, in millimeters.
pub const DEFAULT_DEPTH_NEAR_MM: u64 = 100;

/// Default far clip distance: one kilometer, in millimeters.
pub const DEFAULT_DEPTH_FAR_MM: u64 = 1_000_000;

/// Identifies an output surface (layer) provided by the embedding.
///
/// The session never looks inside a layer; it only records which one is
/// bound, so an opaque integer handle is all the core needs.
#[derive(Clone, Copy, PartialEq, Eq, Structural, Debug)]
pub struct LayerHandle {
    pub id: u64,
}

/// One rendering configuration of a session: clip planes, output surface,
/// and (for non-immersive sessions) a vertical field of view.
///
/// Distances are fixed-point lengths in millimeters and the field of view is
/// in microradians, so that the depth-ordering invariant is a statement
/// about integers.
#[derive(Clone, Copy, PartialEq, Eq, Structural, Debug)]
pub struct RenderState {
    /// Near clip distance in millimeters; positive in every state that
    /// becomes active.
    pub depth_near_mm: u64,
    /// Far clip distance in millimeters; beyond the near clip distance in
    /// every state that becomes active.
    pub depth_far_mm: u64,
    /// The output surface this configuration renders to, if one is bound.
    pub base_layer: Option<LayerHandle>,
    /// Vertical field of view in microradians; meaningful only for
    /// non-immersive sessions.
    pub inline_vertical_fov_urad: Option<u64>,
}

impl RenderState {
    /// A render state may become active only when its clip planes are
    /// ordered: the near plane sits strictly between zero and the far plane.
    pub open spec fn depth_ok(self) -> bool {
        0 < self.depth_near_mm < self.depth_far_mm
    }

    /// The configuration every session starts from.
    pub open spec fn spec_default() -> RenderState {
        RenderState {
            depth_near_mm: DEFAULT_DEPTH_NEAR_MM,
            depth_far_mm: DEFAULT_DEPTH_FAR_MM,
            base_layer: None,
            inline_vertical_fov_urad: None,
        }
    }

    /// Builds a render state from explicit clip planes, as the session
    /// constructor does.
    pub fn new(depth_near_mm: u64, depth_far_mm: u64, base_layer: Option<LayerHandle>) -> (r:
        RenderState)
        requires
            0 < depth_near_mm < depth_far_mm,
        ensures
            r == (RenderState {
                depth_near_mm,
                depth_far_mm,
                base_layer,
                inline_vertical_fov_urad: None,
            }),
            r.depth_ok(),
    {
        RenderState { depth_near_mm, depth_far_mm, base_layer, inline_vertical_fov_urad: None }
    }
}

impl Default for RenderState {
    /// The engine-default state: near clip at a tenth of a meter, far clip at
    /// one kilometer, no layer bound, no field of view negotiated.
    fn default() -> (r: RenderState)
        ensures
            r == RenderState::spec_default(),
            r.depth_ok(),
    {
        RenderState::new(DEFAULT_DEPTH_NEAR_MM, DEFAULT_DEPTH_FAR_MM, None)
    }
}

/// A partial update request: each present field overlays the corresponding
/// field of the staged render state, each absent field leaves it unchanged.
#[derive(Clone, Copy, PartialEq, Eq, Structural, Debug)]
pub struct RenderStateInit {
    pub depth_near_mm: Option<u64>,
    pub depth_far_mm: Option<u64>,
    pub base_layer: Option<LayerHandle>,
    pub inline_vertical_fov_urad: Option<u64>,
}

impl RenderStateInit {
    /// A request that touches nothing.
    pub open spec fn spec_empty() -> RenderStateInit {
        RenderStateInit {
            depth_near_mm: None,
            depth_far_mm: None,
            base_layer: None,
            inline_vertical_fov_urad: None,
        }
    }

    pub fn empty() -> (r: RenderStateInit)
        ensures
            r == RenderStateInit::spec_empty(),
    {
        RenderStateInit {
            depth_near_mm: None,
            depth_far_mm: None,
            base_layer: None,
            inline_vertical_fov_urad: None,
        }
    }
}

/// The result of applying the partial update `init` on top of `base`:
/// exactly the fields present in `init` are replaced.
pub open spec fn overlay(base: RenderState, init: RenderStateInit) -> RenderState {
    RenderState {
        depth_near_mm: match init.depth_near_mm {
            Some(n) => n,
            None => base.depth_near_mm,
        },
        depth_far_mm: match init.depth_far_mm {
            Some(f) => f,
            None => base.depth_far_mm,
        },
        base_layer: match init.base_layer {
            Some(l) => Some(l),
            None => base.base_layer,
        },
        inline_vertical_fov_urad: match init.inline_vertical_fov_urad {
            Some(v) => Some(v),
            None => base.inline_vertical_fov_urad,
        },
    }
}

} // verus!
