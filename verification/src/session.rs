use crate::reference_space::{kind_supported, XRReferenceSpace, XRReferenceSpaceType};
use crate::registry::{
    handles_below, handles_strictly_increasing, lemma_frame_order_fidelity,
    lemma_tombstoned_never_served, live_entries, FrameCallback, FrameCallbackRegistration,
    FrameCallbackRegistry,
};
use crate::render_state::{overlay, LayerHandle, RenderState, RenderStateInit};
use crate::Error;
use vstd::prelude::*;

verus! {

/// The session mode negotiated at creation, fixed for the session's
/// lifetime. This capability tier only creates immersive-VR sessions.
#[derive(Clone, Copy, PartialEq, Eq, Structural, Debug)]
pub enum XRSessionMode {
    Inline,
    ImmersiveVr,
    ImmersiveAr,
}

impl XRSessionMode {
    /// Immersive sessions render to the device and do not negotiate an
    /// inline field of view.
    pub open spec fn spec_is_immersive(&self) -> bool {
        self == XRSessionMode::ImmersiveVr || self == XRSessionMode::ImmersiveAr
    }

    #[verifier::when_used_as_spec(spec_is_immersive)]
    pub fn is_immersive(&self) -> (r: bool)
        ensures
            r == self.spec_is_immersive(),
    {
        match self {
            XRSessionMode::ImmersiveVr => true,
            XRSessionMode::ImmersiveAr => true,
            XRSessionMode::Inline => false,
        }
    }
}

/// How rendered content mixes with the user's surroundings; fixed at
/// creation. Devices without see-through displays blend opaquely.
#[derive(Clone, Copy, PartialEq, Eq, Structural, Debug)]
pub enum XREnvironmentBlendMode {
    Opaque,
    Additive,
    AlphaBlend,
}

/// The mathematical state of a session: every contract below is phrased as a
/// transition between values of this model.
#[verifier::ext_equal]
pub ghost struct SessionModel {
    pub mode: XRSessionMode,
    pub blend_mode: XREnvironmentBlendMode,
    /// Non-owning handle to the device session this session renders through.
    pub device_session: u64,
    /// The output surface bound at the device level, outside the negotiated
    /// render state.
    pub base_layer: Option<LayerHandle>,
    /// The lazily created viewer-relative space; untouched by this tier.
    pub viewer_space: Option<XRReferenceSpace>,
    /// The configuration frame callbacks observe.
    pub active_render_state: RenderState,
    /// The staged configuration, if an update is waiting for the next frame
    /// boundary.
    pub pending_render_state: Option<RenderState>,
    /// The next animation-frame handle to hand out; never decreases.
    pub next_handle: i32,
    pub callbacks: Seq<FrameCallbackRegistration>,
    /// How many of the oldest registrations belong to the frame-service
    /// pass under way: they were already registered when the pass began.
    /// Zero when no pass is running or the pass is exhausted.
    pub pass_remaining: nat,
    /// Whether the device or the caller has ended the session.
    pub ended: bool,
}

impl SessionModel {
    /// The state a commit would promote: the pending snapshot if one exists,
    /// otherwise the active state carries forward.
    pub open spec fn staged(self) -> RenderState {
        match self.pending_render_state {
            Some(p) => p,
            None => self.active_render_state,
        }
    }

    /// Well-formedness, established at construction and preserved by every
    /// operation: both render-state slots hold ordered clip planes, registry
    /// handles ascend strictly, all below the next handle to issue, and the
    /// running pass covers no more than the registry holds.
    pub open spec fn wf(self) -> bool {
        &&& self.active_render_state.depth_ok()
        &&& (self.pending_render_state matches Some(p) ==> p.depth_ok())
        &&& handles_strictly_increasing(self.callbacks)
        &&& handles_below(self.callbacks, self.next_handle)
        &&& self.next_handle >= 0
        &&& self.pass_remaining <= self.callbacks.len()
    }

    /// The state of a session fresh from negotiation.
    pub open spec fn initial(device_session: u64, render_state: RenderState) -> SessionModel {
        SessionModel {
            mode: XRSessionMode::ImmersiveVr,
            blend_mode: XREnvironmentBlendMode::Opaque,
            device_session,
            base_layer: None,
            viewer_space: None,
            active_render_state: render_state,
            pending_render_state: None,
            next_handle: 0,
            callbacks: Seq::empty(),
            pass_remaining: 0,
            ended: false,
        }
    }
}

/// Whether the session accepts a render-state update: it must not have
/// ended, and an immersive session rejects any request that carries an
/// inline field of view.
pub open spec fn update_accepted(m: SessionModel, init: RenderStateInit) -> bool {
    &&& !m.ended
    &&& !(init.inline_vertical_fov_urad is Some && m.mode.spec_is_immersive())
}

/// An accepted update stages the overlay of `init` on the staged state; the
/// active state is untouched until the next commit.
pub open spec fn spec_update(m: SessionModel, init: RenderStateInit) -> SessionModel {
    SessionModel { pending_render_state: Some(overlay(m.staged(), init)), ..m }
}

/// The frame-boundary commit: the staged state becomes active and the
/// pending slot empties. With nothing pending the active state carries
/// forward unchanged.
pub open spec fn spec_commit(m: SessionModel) -> SessionModel {
    SessionModel { active_render_state: m.staged(), pending_render_state: None, ..m }
}

/// Registering a frame callback: the next handle is issued and a live
/// registration is appended.
pub open spec fn spec_request_frame(m: SessionModel, callback: FrameCallback) -> SessionModel {
    SessionModel {
        next_handle: (m.next_handle + 1) as i32,
        callbacks: m.callbacks.push(
            FrameCallbackRegistration { handle: m.next_handle, callback: Some(callback) },
        ),
        ..m
    }
}

/// Cancelling by handle: any registration under that handle is tombstoned
/// in place; everything else, the handle counter included, is untouched.
pub open spec fn spec_cancel(m: SessionModel, handle: i32) -> SessionModel {
    SessionModel {
        callbacks: m.callbacks.map(
            |i: int, e: FrameCallbackRegistration|
                if e.handle == handle {
                    FrameCallbackRegistration { handle: e.handle, callback: None }
                } else {
                    e
                },
        ),
        ..m
    }
}

/// Opening a frame-service pass: everything registered so far belongs to
/// this frame; registrations made while the pass runs lie beyond the bound
/// and wait for the next frame.
pub open spec fn spec_begin_service(m: SessionModel) -> SessionModel {
    SessionModel { pass_remaining: m.callbacks.len(), ..m }
}

/// One service step: the pass's oldest entries are removed up to and
/// including its first live one, which is served; tombstones in between are
/// swept without being served. An exhausted pass serves nothing and removes
/// nothing more. Each step reads the registry as cancellations have left it
/// *now*, so a cancellation landing between steps still silences every
/// entry not yet reached.
pub open spec fn spec_serve_next(m: SessionModel) -> (SessionModel, Option<(i32, FrameCallback)>)
    decreases m.pass_remaining,
{
    if m.pass_remaining == 0 {
        (m, None)
    } else {
        let head = m.callbacks[0];
        let stepped = SessionModel {
            callbacks: m.callbacks.drop_first(),
            pass_remaining: (m.pass_remaining - 1) as nat,
            ..m
        };
        match head.callback {
            Some(cb) => (stepped, Some((head.handle, cb))),
            None => spec_serve_next(stepped),
        }
    }
}

/// A whole frame-service pass, run to exhaustion: the session it leaves
/// behind, and the served entries in the order the steps returned them.
pub open spec fn spec_run_pass(m: SessionModel) -> (SessionModel, Seq<(i32, FrameCallback)>)
    decreases m.pass_remaining,
{
    if m.pass_remaining == 0 {
        (m, Seq::empty())
    } else {
        let head = m.callbacks[0];
        let stepped = SessionModel {
            callbacks: m.callbacks.drop_first(),
            pass_remaining: (m.pass_remaining - 1) as nat,
            ..m
        };
        let rest = spec_run_pass(stepped);
        match head.callback {
            Some(cb) => (rest.0, seq![(head.handle, cb)] + rest.1),
            None => rest,
        }
    }
}

/// Marking the session ended, as reported by the device or requested by the
/// caller.
pub open spec fn spec_end(m: SessionModel) -> SessionModel {
    SessionModel { ended: true, ..m }
}

/// Binding an output surface at the device level.
pub open spec fn spec_set_layer(m: SessionModel, layer: LayerHandle) -> SessionModel {
    SessionModel { base_layer: Some(layer), ..m }
}

/// One active XR session: the negotiated render configuration with its
/// two-slot commit protocol, the frame-callback registry, and the
/// capability filter for reference-space requests. The embedding's render loop drives
/// `commit_render_state`, then `begin_frame_service` and `serve_next`, once
/// per frame, in that order; everything else is script-driven and may
/// interleave with the pass, one service step at a time.
pub struct XRSession {
    mode: XRSessionMode,
    blend_mode: XREnvironmentBlendMode,
    device_session: u64,
    base_layer: Option<LayerHandle>,
    viewer_space: Option<XRReferenceSpace>,
    active_render_state: RenderState,
    pending_render_state: Option<RenderState>,
    next_handle: i32,
    callbacks: FrameCallbackRegistry,
    pass_remaining: usize,
    ended: bool,
}

impl View for XRSession {
    type V = SessionModel;

    closed spec fn view(&self) -> SessionModel {
        SessionModel {
            mode: self.mode,
            blend_mode: self.blend_mode,
            device_session: self.device_session,
            base_layer: self.base_layer,
            viewer_space: self.viewer_space,
            active_render_state: self.active_render_state,
            pending_render_state: self.pending_render_state,
            next_handle: self.next_handle,
            callbacks: self.callbacks@,
            pass_remaining: self.pass_remaining as nat,
            ended: self.ended,
        }
    }
}

impl XRSession {
    /// Builds the session around an already-negotiated initial render state.
    fn new_inherited(device_session: u64, render_state: RenderState) -> (r: XRSession)
        requires
            render_state.depth_ok(),
        ensures
            r@ == SessionModel::initial(device_session, render_state),
            r@.wf(),
    {
        XRSession {
            mode: XRSessionMode::ImmersiveVr,
            blend_mode: XREnvironmentBlendMode::Opaque,
            device_session,
            base_layer: None,
            viewer_space: None,
            active_render_state: render_state,
            pending_render_state: None,
            next_handle: 0,
            callbacks: FrameCallbackRegistry::new(),
            pass_remaining: 0,
            ended: false,
        }
    }

    /// One session per successful device negotiation, starting from the
    /// engine-default render state.
    pub fn new(device_session: u64) -> (r: XRSession)
        ensures
            r@ == SessionModel::initial(device_session, RenderState::spec_default()),
            r@.wf(),
    {
        let render_state = RenderState::default();
        XRSession::new_inherited(device_session, render_state)
    }

    /// The mode fixed at negotiation; this tier negotiates immersive VR.
    pub fn mode(&self) -> (r: XRSessionMode)
        ensures
            r == self@.mode,
    {
        self.mode
    }

    /// How rendered content blends with the surroundings; fixed at
    /// negotiation.
    pub fn environment_blend_mode(&self) -> (r: XREnvironmentBlendMode)
        ensures
            r == self@.blend_mode,
    {
        self.blend_mode
    }

    /// The current active render-state snapshot. Staged updates are not
    /// visible here until the next commit.
    pub fn render_state(&self) -> (r: RenderState)
        ensures
            r == self@.active_render_state,
    {
        self.active_render_state
    }

    /// The state the next commit will promote: the pending snapshot if an
    /// update is staged, otherwise the active state. The embedding reads
    /// this to check that a further partial update keeps the clip planes
    /// ordered before staging it.
    pub fn staged_render_state(&self) -> (r: RenderState)
        ensures
            r == self@.staged(),
    {
        match self.pending_render_state {
            Some(p) => p,
            None => self.active_render_state,
        }
    }

    /// The handle the next `request_animation_frame` call will return.
    pub fn next_handle(&self) -> (r: i32)
        ensures
            r == self@.next_handle,
    {
        self.next_handle
    }

    /// The output surface bound through `set_layer`, if any.
    pub fn base_layer(&self) -> (r: Option<LayerHandle>)
        ensures
            r == self@.base_layer,
    {
        self.base_layer
    }

    /// Whether the session has ended.
    pub fn ended(&self) -> (r: bool)
        ensures
            r == self@.ended,
    {
        self.ended
    }

    /// Binds (or rebinds) the session's base output surface unconditionally.
    /// This is a low-level binding point used during setup; it does not
    /// stage or commit a render state.
    pub fn set_layer(&mut self, layer: LayerHandle)
        ensures
            final(self)@ == spec_set_layer(old(self)@, layer),
            old(self)@.wf() ==> final(self)@.wf(),
    {
        self.base_layer = Some(layer);
    }

    /// Records that the session has ended, as the device driver or the
    /// caller reports it; later render-state updates are refused.
    pub fn end_session(&mut self)
        ensures
            final(self)@ == spec_end(old(self)@),
            old(self)@.wf() ==> final(self)@.wf(),
    {
        self.ended = true;
    }

    /// Stages a partial render-state update for the next frame boundary.
    ///
    /// The update never touches the active state. On an ended session, or
    /// when an immersive session is handed an inline field of view, the call
    /// fails with `InvalidState` before any field is applied. Otherwise the
    /// pending slot — lazily copied from the active state — receives exactly
    /// the fields present in `init`; repeated calls within one frame keep
    /// accumulating onto the same pending snapshot.
    ///
    /// An accepted overlay must leave the clip planes ordered: a state with
    /// a reversed depth range may never become active.
    pub fn update_render_state(&mut self, init: RenderStateInit) -> (r: Result<(), Error>)
        requires
            old(self)@.wf(),
            update_accepted(old(self)@, init) ==> overlay(old(self)@.staged(), init).depth_ok(),
        ensures
            r == (if update_accepted(old(self)@, init) {
                Ok::<(), Error>(())
            } else {
                Err::<(), Error>(Error::InvalidState)
            }),
            update_accepted(old(self)@, init) ==> final(self)@ == spec_update(old(self)@, init),
            !update_accepted(old(self)@, init) ==> final(self)@ == old(self)@,
            final(self)@.active_render_state == old(self)@.active_render_state,
            final(self)@.wf(),
    {
        if self.ended {
            return Err(Error::InvalidState);
        }
        if init.inline_vertical_fov_urad.is_some() && self.mode.is_immersive() {
            return Err(Error::InvalidState);
        }
        let base = match self.pending_render_state {
            Some(p) => p,
            None => self.active_render_state,
        };
        let mut next = base;
        if let Some(n) = init.depth_near_mm {
            next.depth_near_mm = n;
        }
        if let Some(f) = init.depth_far_mm {
            next.depth_far_mm = f;
        }
        if let Some(l) = init.base_layer {
            next.base_layer = Some(l);
        }
        if let Some(v) = init.inline_vertical_fov_urad {
            next.inline_vertical_fov_urad = Some(v);
        }
        self.pending_render_state = Some(next);
        Ok(())
    }

    /// The frame-boundary commit, driven by the embedding's render loop
    /// exactly once per frame, before the frame's callbacks are taken: an
    /// existing pending state is promoted to active and the pending slot is
    /// cleared; with nothing staged the active state carries forward.
    pub fn commit_render_state(&mut self)
        ensures
            final(self)@ == spec_commit(old(self)@),
            old(self)@.wf() ==> final(self)@.wf(),
    {
        match self.pending_render_state {
            Some(p) => {
                self.active_render_state = p;
                self.pending_render_state = None;
            },
            None => {},
        }
    }

    /// Registers caller-supplied work for the next frame and returns its
    /// handle. Handles start at zero and each call issues the next integer,
    /// so they are strictly increasing and never reused; callbacks are
    /// serviced in registration order.
    pub fn request_animation_frame(&mut self, callback: FrameCallback) -> (handle: i32)
        requires
            old(self)@.wf(),
            old(self)@.next_handle < i32::MAX,
        ensures
            handle == old(self)@.next_handle,
            final(self)@ == spec_request_frame(old(self)@, callback),
            final(self)@.wf(),
    {
        let handle = self.next_handle;
        self.next_handle = self.next_handle + 1;
        self.callbacks.push(handle, callback);
        proof {
            let entries = final(self)@.callbacks;
            assert forall|i: int, j: int|
                0 <= i < j < entries.len() implies #[trigger] entries[i].handle
                < #[trigger] entries[j].handle by {
                assert(old(self)@.callbacks[i].handle == entries[i].handle);
            }
        }
        handle
    }

    /// Cancels the registration issued under `handle`, if it is still
    /// pending, by tombstoning it in place; a tombstoned entry is skipped by
    /// the frame service. Cancelling an unknown, already-cancelled or
    /// already-served handle changes nothing and is not an error.
    pub fn cancel_animation_frame(&mut self, handle: i32)
        ensures
            final(self)@ == spec_cancel(old(self)@, handle),
            old(self)@.wf() ==> final(self)@.wf(),
    {
        self.callbacks.cancel(handle);
        proof {
            assert(final(self)@.callbacks =~= spec_cancel(old(self)@, handle).callbacks);
        }
    }

    /// Opens this frame's service pass, after the frame's commit: every
    /// registration made so far belongs to this frame, and work registered
    /// while the pass runs waits for the next one. The embedding then calls
    /// `serve_next` until it returns `None`, invoking each served callback
    /// against the just-promoted render state.
    pub fn begin_frame_service(&mut self)
        ensures
            final(self)@ == spec_begin_service(old(self)@),
            old(self)@.wf() ==> final(self)@.wf(),
    {
        self.pass_remaining = self.callbacks.len();
    }

    /// Serves the next callback of the running pass: entries are removed
    /// from the registry one at a time, tombstones are swept without being
    /// served, and the pass's first still-live entry is returned. `None`
    /// means the pass is over. Because entries not yet reached stay in the
    /// registry between steps, a cancellation issued from inside a running
    /// callback still silences any later callback of this same pass; served
    /// entries are removed at once, so a served callback is one-shot and
    /// cancelling it afterwards is a no-op.
    pub fn serve_next(&mut self) -> (served: Option<(i32, FrameCallback)>)
        requires
            old(self)@.wf(),
        ensures
            final(self)@ == spec_serve_next(old(self)@).0,
            served == spec_serve_next(old(self)@).1,
            final(self)@.wf(),
    {
        let mut result: Option<(i32, FrameCallback)> = None;
        while result.is_none() && self.pass_remaining > 0
            invariant
                self@.wf(),
                result is None ==> spec_serve_next(self@) == spec_serve_next(old(self)@),
                result is Some ==> (self@, result) == spec_serve_next(old(self)@),
            decreases self@.pass_remaining,
        {
            let entry = self.callbacks.pop_front();
            self.pass_remaining = self.pass_remaining - 1;
            match entry.callback {
                Some(cb) => {
                    result = Some((entry.handle, cb));
                },
                None => {},
            }
        }
        result
    }

    /// Decides a reference-space request: `BoundedFloor` and `Unbounded`
    /// are categorically unsupported in this tier and are refused with
    /// `NotSupported`; every other kind yields a space bound to this
    /// session. The embedding delivers the result through its asynchronous
    /// completion channel, errors and spaces alike.
    pub fn request_reference_space(&self, ty: XRReferenceSpaceType) -> (r: Result<
        XRReferenceSpace,
        Error,
    >)
        ensures
            r == (if kind_supported(ty) {
                Ok::<XRReferenceSpace, Error>(
                    XRReferenceSpace { session: self@.device_session, ty },
                )
            } else {
                Err::<XRReferenceSpace, Error>(Error::NotSupported)
            }),
    {
        match ty {
            XRReferenceSpaceType::BoundedFloor | XRReferenceSpaceType::Unbounded => Err(
                Error::NotSupported,
            ),
            _ => Ok(XRReferenceSpace { session: self.device_session, ty }),
        }
    }
}

/// The overlay of a whole frame's worth of update requests, applied in
/// order: later requests win on the fields they touch.
pub open spec fn overlay_seq(base: RenderState, inits: Seq<RenderStateInit>) -> RenderState
    decreases inits.len(),
{
    if inits.len() == 0 {
        base
    } else {
        overlay_seq(overlay(base, inits[0]), inits.drop_first())
    }
}

/// The session after a sequence of accepted update requests, in order.
pub open spec fn apply_updates(m: SessionModel, inits: Seq<RenderStateInit>) -> SessionModel
    decreases inits.len(),
{
    if inits.len() == 0 {
        m
    } else {
        apply_updates(spec_update(m, inits[0]), inits.drop_first())
    }
}

proof fn lemma_apply_updates_frame(m: SessionModel, inits: Seq<RenderStateInit>)
    ensures
        apply_updates(m, inits).active_render_state == m.active_render_state,
        apply_updates(m, inits).staged() == overlay_seq(m.staged(), inits),
    decreases inits.len(),
{
    if inits.len() > 0 {
        lemma_apply_updates_frame(spec_update(m, inits[0]), inits.drop_first());
    }
}

proof fn lemma_overlay_seq_untouched(base: RenderState, inits: Seq<RenderStateInit>)
    ensures
        (forall|k: int| 0 <= k < inits.len() ==> (#[trigger] inits[k]).depth_near_mm is None)
            ==> overlay_seq(base, inits).depth_near_mm == base.depth_near_mm,
        (forall|k: int| 0 <= k < inits.len() ==> (#[trigger] inits[k]).depth_far_mm is None)
            ==> overlay_seq(base, inits).depth_far_mm == base.depth_far_mm,
        (forall|k: int| 0 <= k < inits.len() ==> (#[trigger] inits[k]).base_layer is None)
            ==> overlay_seq(base, inits).base_layer == base.base_layer,
        (forall|k: int|
            0 <= k < inits.len() ==> (#[trigger] inits[k]).inline_vertical_fov_urad is None)
            ==> overlay_seq(base, inits).inline_vertical_fov_urad
            == base.inline_vertical_fov_urad,
    decreases inits.len(),
{
    if inits.len() > 0 {
        lemma_overlay_seq_untouched(overlay(base, inits[0]), inits.drop_first());
        assert(forall|k: int|
            0 <= k < inits.drop_first().len() ==> #[trigger] inits.drop_first()[k] == inits[k
                + 1]);
    }
}

/// Partial-update isolation: however many updates are staged within one
/// frame, the active state readable through `render_state` is the one from
/// the start of the frame, until a commit; the commit then promotes exactly
/// the in-order overlay of all the requests, and any field no request
/// touched is inherited from the pre-commit active state.
pub proof fn lemma_partial_update_isolation(m: SessionModel, inits: Seq<RenderStateInit>)
    requires
        m.pending_render_state is None,
    ensures
        apply_updates(m, inits).active_render_state == m.active_render_state,
        spec_commit(apply_updates(m, inits)).active_render_state == overlay_seq(
            m.active_render_state,
            inits,
        ),
        (forall|k: int| 0 <= k < inits.len() ==> (#[trigger] inits[k]).depth_near_mm is None)
            ==> spec_commit(apply_updates(m, inits)).active_render_state.depth_near_mm
            == m.active_render_state.depth_near_mm,
        (forall|k: int| 0 <= k < inits.len() ==> (#[trigger] inits[k]).depth_far_mm is None)
            ==> spec_commit(apply_updates(m, inits)).active_render_state.depth_far_mm
            == m.active_render_state.depth_far_mm,
        (forall|k: int| 0 <= k < inits.len() ==> (#[trigger] inits[k]).base_layer is None)
            ==> spec_commit(apply_updates(m, inits)).active_render_state.base_layer
            == m.active_render_state.base_layer,
        (forall|k: int|
            0 <= k < inits.len() ==> (#[trigger] inits[k]).inline_vertical_fov_urad is None)
            ==> spec_commit(apply_updates(m, inits)).active_render_state.inline_vertical_fov_urad
            == m.active_render_state.inline_vertical_fov_urad,
{
    lemma_apply_updates_frame(m, inits);
    lemma_overlay_seq_untouched(m.active_render_state, inits);
}

/// Depth ordering invariant: in a well-formed session the active state —
/// and therefore every state a commit ever promotes — keeps its near clip
/// plane strictly between zero and the far clip plane.
pub proof fn lemma_depth_ordering_invariant(m: SessionModel)
    requires
        m.wf(),
    ensures
        0 < m.active_render_state.depth_near_mm < m.active_render_state.depth_far_mm,
        spec_commit(m).wf(),
        0 < spec_commit(m).active_render_state.depth_near_mm < spec_commit(
            m,
        ).active_render_state.depth_far_mm,
{
}

/// The handles issued by consecutive `request_animation_frame` calls,
/// starting from the state `m`, in order of registration.
pub open spec fn handles_granted(m: SessionModel, callbacks: Seq<FrameCallback>) -> Seq<i32>
    decreases callbacks.len(),
{
    if callbacks.len() == 0 {
        Seq::empty()
    } else {
        seq![m.next_handle] + handles_granted(
            spec_request_frame(m, callbacks[0]),
            callbacks.drop_first(),
        )
    }
}

proof fn lemma_handles_granted_shape(m: SessionModel, callbacks: Seq<FrameCallback>)
    requires
        m.next_handle + callbacks.len() <= i32::MAX,
    ensures
        handles_granted(m, callbacks).len() == callbacks.len(),
        forall|k: int|
            0 <= k < callbacks.len() ==> #[trigger] handles_granted(m, callbacks)[k] as int
                == m.next_handle + k,
    decreases callbacks.len(),
{
    if callbacks.len() > 0 {
        let m1 = spec_request_frame(m, callbacks[0]);
        assert(m1.next_handle == m.next_handle + 1);
        lemma_handles_granted_shape(m1, callbacks.drop_first());
        let whole = handles_granted(m, callbacks);
        let rest = handles_granted(m1, callbacks.drop_first());
        assert forall|k: int|
            0 <= k < callbacks.len() implies #[trigger] whole[k] as int == m.next_handle + k by {
            if k == 0 {
                assert(whole[0] == m.next_handle);
            } else {
                assert(whole[k] == rest[k - 1]);
                assert(rest[k - 1] as int == m1.next_handle + (k - 1));
            }
        }
    }
}

/// Handle monotonicity: the handles returned by any number of consecutive
/// `request_animation_frame` calls are strictly increasing in registration
/// order, and so pairwise distinct — no handle is ever reused.
pub proof fn lemma_handle_monotonicity(m: SessionModel, callbacks: Seq<FrameCallback>)
    requires
        m.next_handle + callbacks.len() <= i32::MAX,
    ensures
        handles_granted(m, callbacks).len() == callbacks.len(),
        forall|i: int, j: int|
            0 <= i < j < callbacks.len() ==> #[trigger] handles_granted(m, callbacks)[i]
                < #[trigger] handles_granted(m, callbacks)[j],
        forall|i: int, j: int|
            0 <= i < callbacks.len() && 0 <= j < callbacks.len() && i != j ==> #[trigger] handles_granted(
                m,
                callbacks,
            )[i] != #[trigger] handles_granted(m, callbacks)[j],
{
    lemma_handles_granted_shape(m, callbacks);
}

/// The handle counter moves only when a registration is made: every other
/// operation leaves it where it was. Together with
/// `lemma_handle_monotonicity` this extends strict handle increase to
/// registrations arbitrarily interleaved with updates, commits,
/// cancellations, service passes and session end.
pub proof fn lemma_counter_moves_only_on_registration(
    m: SessionModel,
    init: RenderStateInit,
    handle: i32,
    layer: LayerHandle,
)
    ensures
        spec_update(m, init).next_handle == m.next_handle,
        spec_commit(m).next_handle == m.next_handle,
        spec_cancel(m, handle).next_handle == m.next_handle,
        spec_begin_service(m).next_handle == m.next_handle,
        spec_serve_next(m).0.next_handle == m.next_handle,
        spec_run_pass(m).0.next_handle == m.next_handle,
        spec_end(m).next_handle == m.next_handle,
        spec_set_layer(m, layer).next_handle == m.next_handle,
    decreases m.pass_remaining,
{
    if m.pass_remaining > 0 {
        let stepped = SessionModel {
            callbacks: m.callbacks.drop_first(),
            pass_remaining: (m.pass_remaining - 1) as nat,
            ..m
        };
        lemma_counter_moves_only_on_registration(stepped, init, handle, layer);
    }
}

/// Cancellation idempotence: cancelling the same handle again changes
/// nothing; cancelling a handle that no pending registration carries — never
/// issued, already cancelled and swept, or already served — is a no-op; and
/// after a cancellation no live entry under the cancelled handle is left for
/// any service pass to find (`lemma_cancellation_stops_unreached` states the
/// same for the pass already under way).
pub proof fn lemma_cancellation_idempotent(m: SessionModel, handle: i32)
    ensures
        spec_cancel(spec_cancel(m, handle), handle) == spec_cancel(m, handle),
        (forall|i: int|
            0 <= i < m.callbacks.len() ==> (#[trigger] m.callbacks[i]).handle != handle)
            ==> spec_cancel(m, handle) == m,
        forall|k: int|
            0 <= k < live_entries(spec_cancel(m, handle).callbacks).len()
                ==> (#[trigger] live_entries(spec_cancel(m, handle).callbacks)[k]).0 != handle,
{
    let once = spec_cancel(m, handle);
    assert(spec_cancel(once, handle).callbacks =~= once.callbacks);
    assert(spec_cancel(once, handle) =~= once);
    if forall|i: int|
        0 <= i < m.callbacks.len() ==> (#[trigger] m.callbacks[i]).handle != handle {
        assert(once.callbacks =~= m.callbacks);
        assert(once =~= m);
    }
    assert(forall|i: int|
        0 <= i < once.callbacks.len() && #[trigger] once.callbacks[i].handle == handle
            ==> once.callbacks[i].callback is None);
    lemma_tombstoned_never_served(once.callbacks, handle);
}

/// A whole service pass decomposes into `serve_next` steps: the pass serves
/// the step's entry first and then whatever the rest of the pass serves,
/// and it is over exactly when a step returns nothing.
pub proof fn lemma_pass_decomposes(m: SessionModel)
    ensures
        spec_serve_next(m).1 matches Some(p) ==> spec_run_pass(m).1 == seq![p] + spec_run_pass(
            spec_serve_next(m).0,
        ).1 && spec_run_pass(m).0 == spec_run_pass(spec_serve_next(m).0).0,
        spec_serve_next(m).1 is None ==> spec_run_pass(m).1 == Seq::<(
            i32,
            FrameCallback,
        )>::empty() && spec_run_pass(m).0 == spec_serve_next(m).0,
    decreases m.pass_remaining,
{
    if m.pass_remaining > 0 {
        let stepped = SessionModel {
            callbacks: m.callbacks.drop_first(),
            pass_remaining: (m.pass_remaining - 1) as nat,
            ..m
        };
        if m.callbacks[0].callback is None {
            lemma_pass_decomposes(stepped);
        }
    }
}

/// Frame-order fidelity across a whole pass: the pass serves exactly the
/// live entries of the registrations present when it began, in registration
/// order, and removes exactly those registrations — later ones survive it.
pub proof fn lemma_run_pass_serves_live(m: SessionModel)
    requires
        m.pass_remaining <= m.callbacks.len(),
    ensures
        spec_run_pass(m).1 == live_entries(m.callbacks.take(m.pass_remaining as int)),
        spec_run_pass(m).0 == (SessionModel {
            callbacks: m.callbacks.skip(m.pass_remaining as int),
            pass_remaining: 0,
            ..m
        }),
    decreases m.pass_remaining,
{
    let pr = m.pass_remaining as int;
    if m.pass_remaining == 0 {
        assert(m.callbacks.take(0) =~= Seq::<FrameCallbackRegistration>::empty());
        assert(m.callbacks.skip(0) =~= m.callbacks);
        assert(spec_run_pass(m).0 =~= (SessionModel {
            callbacks: m.callbacks.skip(0),
            pass_remaining: 0,
            ..m
        }));
    } else {
        let head = m.callbacks[0];
        let stepped = SessionModel {
            callbacks: m.callbacks.drop_first(),
            pass_remaining: (m.pass_remaining - 1) as nat,
            ..m
        };
        lemma_run_pass_serves_live(stepped);
        let head_only = seq![head];
        assert(m.callbacks.take(pr) =~= head_only + m.callbacks.drop_first().take(pr - 1));
        lemma_frame_order_fidelity(head_only, m.callbacks.drop_first().take(pr - 1));
        reveal_with_fuel(live_entries, 2);
        assert(head_only.drop_last() =~= Seq::<FrameCallbackRegistration>::empty());
        match head.callback {
            Some(cb) => {
                assert(live_entries(head_only) =~= seq![(head.handle, cb)]);
                assert(spec_run_pass(m).1 =~= live_entries(m.callbacks.take(pr)));
            },
            None => {
                assert(live_entries(head_only) =~= Seq::<(i32, FrameCallback)>::empty());
                assert(spec_run_pass(m).1 =~= live_entries(m.callbacks.take(pr)));
            },
        }
        assert(m.callbacks.skip(pr) =~= m.callbacks.drop_first().skip(pr - 1));
        assert(spec_run_pass(m).0 =~= (SessionModel {
            callbacks: m.callbacks.skip(pr),
            pass_remaining: 0,
            ..m
        }));
    }
}

/// A cancellation issued mid-pass silences every entry not yet reached:
/// from any point of a service pass, once `handle` is cancelled, no later
/// step of that pass serves it.
pub proof fn lemma_cancellation_stops_unreached(m: SessionModel, handle: i32)
    requires
        m.pass_remaining <= m.callbacks.len(),
    ensures
        forall|k: int|
            0 <= k < spec_run_pass(spec_cancel(m, handle)).1.len()
                ==> (#[trigger] spec_run_pass(spec_cancel(m, handle)).1[k]).0 != handle,
{
    let cancelled = spec_cancel(m, handle);
    let pr = cancelled.pass_remaining as int;
    lemma_run_pass_serves_live(cancelled);
    let pass_range = cancelled.callbacks.take(pr);
    assert(forall|i: int|
        0 <= i < pass_range.len() && #[trigger] pass_range[i].handle == handle
            ==> pass_range[i].callback is None);
    lemma_tombstoned_never_served(pass_range, handle);
}

/// Work registered while a pass runs is deferred to the next frame: the
/// running pass serves exactly what it would have served anyway, and the
/// new registration survives the pass.
pub proof fn lemma_mid_pass_registration_deferred(m: SessionModel, callback: FrameCallback)
    requires
        m.pass_remaining <= m.callbacks.len(),
    ensures
        spec_run_pass(spec_request_frame(m, callback)).1 == spec_run_pass(m).1,
        spec_run_pass(spec_request_frame(m, callback)).0.callbacks == spec_run_pass(
            m,
        ).0.callbacks.push(
            FrameCallbackRegistration { handle: m.next_handle, callback: Some(callback) },
        ),
{
    let r = spec_request_frame(m, callback);
    let pr = m.pass_remaining as int;
    lemma_run_pass_serves_live(m);
    lemma_run_pass_serves_live(r);
    assert(r.callbacks.take(pr) =~= m.callbacks.take(pr));
    assert(r.callbacks.skip(pr) =~= m.callbacks.skip(pr).push(
        FrameCallbackRegistration { handle: m.next_handle, callback: Some(callback) },
    ));
}

/// One-shot semantics: a pass removes every registration it covered, served
/// or swept, so a pass over the whole registry leaves it empty and — with
/// nothing re-registered — the next frame's pass serves nothing.
pub proof fn lemma_one_shot_service(m: SessionModel)
    requires
        m.pass_remaining <= m.callbacks.len(),
    ensures
        spec_run_pass(m).0.pass_remaining == 0,
        spec_run_pass(m).0.callbacks == m.callbacks.skip(m.pass_remaining as int),
        m.pass_remaining == m.callbacks.len() ==> spec_run_pass(
            spec_begin_service(spec_run_pass(m).0),
        ).1 == Seq::<(i32, FrameCallback)>::empty(),
{
    lemma_run_pass_serves_live(m);
    if m.pass_remaining == m.callbacks.len() {
        assert(spec_run_pass(m).0.callbacks =~= Seq::<FrameCallbackRegistration>::empty());
    }
}

} // verus!
