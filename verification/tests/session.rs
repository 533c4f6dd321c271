use xr_session::reference_space::{XRReferenceSpace, XRReferenceSpaceType};
use xr_session::registry::FrameCallback;
use xr_session::render_state::{
    LayerHandle, RenderState, RenderStateInit, DEFAULT_DEPTH_FAR_MM, DEFAULT_DEPTH_NEAR_MM,
};
use xr_session::session::{XREnvironmentBlendMode, XRSession, XRSessionMode};
use xr_session::Error;

fn update_far(session: &mut XRSession, depth_far_mm: u64) -> Result<(), Error> {
    let mut init = RenderStateInit::empty();
    init.depth_far_mm = Some(depth_far_mm);
    session.update_render_state(init)
}

fn run_service(session: &mut XRSession) -> Vec<(i32, FrameCallback)> {
    session.begin_frame_service();
    let mut served = Vec::new();
    while let Some(pair) = session.serve_next() {
        served.push(pair);
    }
    served
}

#[test]
fn defaults_at_construction() {
    let session = XRSession::new(7);
    let state = session.render_state();
    assert_eq!(state.depth_near_mm, DEFAULT_DEPTH_NEAR_MM);
    assert_eq!(state.depth_near_mm, 100);
    assert_eq!(state.depth_far_mm, DEFAULT_DEPTH_FAR_MM);
    assert_eq!(state.depth_far_mm, 1_000_000);
    assert_eq!(state.base_layer, None);
    assert_eq!(state.inline_vertical_fov_urad, None);
    assert_eq!(session.mode(), XRSessionMode::ImmersiveVr);
    assert_eq!(
        session.environment_blend_mode(),
        XREnvironmentBlendMode::Opaque
    );
    assert_eq!(session.base_layer(), None);
    assert!(!session.ended());
    assert_eq!(session.next_handle(), 0);
    assert_eq!(state, RenderState::default());
}

#[test]
fn end_to_end_default_then_far_update() {
    let mut session = XRSession::new(0);
    assert_eq!(session.render_state().depth_near_mm, 100);
    assert_eq!(session.render_state().depth_far_mm, 1_000_000);

    assert_eq!(update_far(&mut session, 50_000), Ok(()));

    // Still the pre-commit snapshot.
    assert_eq!(session.render_state().depth_far_mm, 1_000_000);

    session.commit_render_state();
    assert_eq!(session.render_state().depth_far_mm, 50_000);
    assert_eq!(session.render_state().depth_near_mm, 100);
}

#[test]
fn partial_updates_accumulate_and_stay_isolated() {
    let mut session = XRSession::new(1);

    let mut first = RenderStateInit::empty();
    first.depth_near_mm = Some(200);
    assert_eq!(session.update_render_state(first), Ok(()));

    let mut second = RenderStateInit::empty();
    second.depth_far_mm = Some(700_000);
    assert_eq!(session.update_render_state(second), Ok(()));

    // The same frame's pending snapshot keeps accumulating: last write wins.
    let mut third = RenderStateInit::empty();
    third.depth_far_mm = Some(500_000);
    assert_eq!(session.update_render_state(third), Ok(()));

    // The staged state holds the overlay; the active state is untouched.
    assert_eq!(session.staged_render_state().depth_near_mm, 200);
    assert_eq!(session.staged_render_state().depth_far_mm, 500_000);
    assert_eq!(session.render_state().depth_near_mm, 100);
    assert_eq!(session.render_state().depth_far_mm, 1_000_000);

    session.commit_render_state();
    let state = session.render_state();
    assert_eq!(state.depth_near_mm, 200);
    assert_eq!(state.depth_far_mm, 500_000);
    // Untouched fields are inherited from the pre-commit active state.
    assert_eq!(state.base_layer, None);
    assert_eq!(state.inline_vertical_fov_urad, None);
}

#[test]
fn commit_without_update_carries_active_forward() {
    let mut session = XRSession::new(2);
    let before = session.render_state();
    session.commit_render_state();
    assert_eq!(session.render_state(), before);
}

#[test]
fn committed_states_keep_depth_ordered() {
    let mut session = XRSession::new(3);
    let state = session.render_state();
    assert!(0 < state.depth_near_mm && state.depth_near_mm < state.depth_far_mm);

    assert_eq!(update_far(&mut session, 200), Ok(()));
    session.commit_render_state();
    let state = session.render_state();
    assert!(0 < state.depth_near_mm && state.depth_near_mm < state.depth_far_mm);

    let mut init = RenderStateInit::empty();
    init.depth_near_mm = Some(1);
    init.depth_far_mm = Some(2);
    assert_eq!(session.update_render_state(init), Ok(()));
    session.commit_render_state();
    let state = session.render_state();
    assert!(0 < state.depth_near_mm && state.depth_near_mm < state.depth_far_mm);
}

#[test]
fn handles_are_strictly_increasing() {
    let mut session = XRSession::new(4);
    let mut previous: Option<i32> = None;
    for id in 0..5u64 {
        let handle = session.request_animation_frame(FrameCallback { id });
        if let Some(p) = previous {
            assert!(p < handle);
        }
        previous = Some(handle);
    }
    assert_eq!(previous, Some(4));
    assert_eq!(session.next_handle(), 5);
}

#[test]
fn cancellation_is_idempotent_and_unknown_handles_are_no_ops() {
    let mut session = XRSession::new(5);
    let kept = session.request_animation_frame(FrameCallback { id: 1 });
    let cancelled = session.request_animation_frame(FrameCallback { id: 2 });

    // Never-issued handles are silently ignored.
    session.cancel_animation_frame(999);
    session.cancel_animation_frame(-1);

    // Zero, one or many cancellations of the same handle look alike.
    session.cancel_animation_frame(cancelled);
    session.cancel_animation_frame(cancelled);
    session.cancel_animation_frame(cancelled);

    let served = run_service(&mut session);
    assert_eq!(served, vec![(kept, FrameCallback { id: 1 })]);

    // Cancelling an already-served handle is a no-op too.
    session.cancel_animation_frame(kept);
    assert!(run_service(&mut session).is_empty());
}

#[test]
fn frame_service_respects_registration_order() {
    let mut session = XRSession::new(6);
    let first = session.request_animation_frame(FrameCallback { id: 10 });
    let middle = session.request_animation_frame(FrameCallback { id: 20 });
    let last = session.request_animation_frame(FrameCallback { id: 30 });

    session.cancel_animation_frame(middle);

    let served = run_service(&mut session);
    assert_eq!(
        served,
        vec![
            (first, FrameCallback { id: 10 }),
            (last, FrameCallback { id: 30 }),
        ]
    );
}

#[test]
fn mid_pass_cancellation_silences_unreached_callbacks() {
    let mut session = XRSession::new(13);
    let first = session.request_animation_frame(FrameCallback { id: 10 });
    let second = session.request_animation_frame(FrameCallback { id: 20 });
    let third = session.request_animation_frame(FrameCallback { id: 30 });

    session.begin_frame_service();
    assert_eq!(session.serve_next(), Some((first, FrameCallback { id: 10 })));

    // The first callback, while running, cancels the third: issued before
    // that entry is reached, the cancellation prevents its invocation.
    session.cancel_animation_frame(third);

    assert_eq!(session.serve_next(), Some((second, FrameCallback { id: 20 })));
    assert_eq!(session.serve_next(), None);

    // The tombstone was swept with its pass; later frames serve nothing.
    assert!(run_service(&mut session).is_empty());
}

#[test]
fn cancelling_a_callback_that_already_ran_has_no_effect() {
    let mut session = XRSession::new(14);
    let first = session.request_animation_frame(FrameCallback { id: 1 });
    let second = session.request_animation_frame(FrameCallback { id: 2 });

    session.begin_frame_service();
    assert_eq!(session.serve_next(), Some((first, FrameCallback { id: 1 })));

    // Serving already removed the entry, so this changes nothing.
    session.cancel_animation_frame(first);

    assert_eq!(session.serve_next(), Some((second, FrameCallback { id: 2 })));
    assert_eq!(session.serve_next(), None);
}

#[test]
fn served_callbacks_are_one_shot() {
    let mut session = XRSession::new(8);
    let handle = session.request_animation_frame(FrameCallback { id: 77 });
    let served = run_service(&mut session);
    assert_eq!(served, vec![(handle, FrameCallback { id: 77 })]);

    // Nothing re-registered: the next frame serves nothing.
    assert!(run_service(&mut session).is_empty());

    // Re-registering runs the same callback again, under a fresh handle.
    let again = session.request_animation_frame(FrameCallback { id: 77 });
    assert!(again > handle);
    let served = run_service(&mut session);
    assert_eq!(served, vec![(again, FrameCallback { id: 77 })]);
}

#[test]
fn registrations_during_a_pass_wait_for_the_next_frame() {
    let mut session = XRSession::new(9);
    let now = session.request_animation_frame(FrameCallback { id: 1 });

    session.begin_frame_service();
    assert_eq!(session.serve_next(), Some((now, FrameCallback { id: 1 })));

    // Work the running callback registers lies beyond the pass bound: this
    // pass is over, and the new registration is served one frame later.
    let deferred = session.request_animation_frame(FrameCallback { id: 2 });
    assert_eq!(session.serve_next(), None);

    let next_frame = run_service(&mut session);
    assert_eq!(next_frame, vec![(deferred, FrameCallback { id: 2 })]);
}

#[test]
fn reference_space_gating() {
    let session = XRSession::new(42);
    assert_eq!(
        session.request_reference_space(XRReferenceSpaceType::BoundedFloor),
        Err(Error::NotSupported)
    );
    assert_eq!(
        session.request_reference_space(XRReferenceSpaceType::Unbounded),
        Err(Error::NotSupported)
    );
    let supported = [
        XRReferenceSpaceType::Viewer,
        XRReferenceSpaceType::Local,
        XRReferenceSpaceType::LocalFloor,
    ];
    for ty in supported {
        assert_eq!(
            session.request_reference_space(ty),
            Ok(XRReferenceSpace { session: 42, ty })
        );
    }
}

#[test]
fn updates_on_an_ended_session_are_rejected() {
    let mut session = XRSession::new(10);
    session.end_session();
    assert!(session.ended());
    assert_eq!(
        session.update_render_state(RenderStateInit::empty()),
        Err(Error::InvalidState)
    );
    assert_eq!(update_far(&mut session, 5_000), Err(Error::InvalidState));
    // Nothing was staged, so a commit changes nothing.
    session.commit_render_state();
    assert_eq!(session.render_state(), RenderState::default());
}

#[test]
fn inline_fov_is_rejected_for_immersive_sessions() {
    let mut session = XRSession::new(11);
    let mut init = RenderStateInit::empty();
    init.depth_far_mm = Some(5_000);
    init.inline_vertical_fov_urad = Some(1_000_000);
    // The rejection is atomic: the far-plane field is not applied either.
    assert_eq!(session.update_render_state(init), Err(Error::InvalidState));
    session.commit_render_state();
    assert_eq!(session.render_state(), RenderState::default());
}

#[test]
fn set_layer_binds_outside_the_negotiated_state() {
    let mut session = XRSession::new(12);
    session.set_layer(LayerHandle { id: 9 });
    assert_eq!(session.base_layer(), Some(LayerHandle { id: 9 }));
    // The low-level binding does not touch the negotiated render state.
    assert_eq!(session.render_state().base_layer, None);

    session.set_layer(LayerHandle { id: 10 });
    assert_eq!(session.base_layer(), Some(LayerHandle { id: 10 }));

    // The negotiated field travels through the commit protocol instead.
    let mut init = RenderStateInit::empty();
    init.base_layer = Some(LayerHandle { id: 10 });
    assert_eq!(session.update_render_state(init), Ok(()));
    assert_eq!(session.render_state().base_layer, None);
    session.commit_render_state();
    assert_eq!(session.render_state().base_layer, Some(LayerHandle { id: 10 }));
}

#[test]
fn render_state_constructors() {
    let state = RenderState::new(100, 1_000_000, None);
    assert_eq!(state, RenderState::default());

    let layered = RenderState::new(50, 900, Some(LayerHandle { id: 3 }));
    assert_eq!(layered.depth_near_mm, 50);
    assert_eq!(layered.depth_far_mm, 900);
    assert_eq!(layered.base_layer, Some(LayerHandle { id: 3 }));
    assert_eq!(layered.inline_vertical_fov_urad, None);

    let empty = RenderStateInit::empty();
    assert_eq!(empty.depth_near_mm, None);
    assert_eq!(empty.depth_far_mm, None);
    assert_eq!(empty.base_layer, None);
    assert_eq!(empty.inline_vertical_fov_urad, None);
}
