use xr_session::registry::{FrameCallback, FrameCallbackRegistration, FrameCallbackRegistry};

#[test]
fn tombstones_keep_their_slot_until_popped() {
    let mut registry = FrameCallbackRegistry::new();
    registry.push(0, FrameCallback { id: 1 });
    registry.push(1, FrameCallback { id: 2 });
    registry.push(2, FrameCallback { id: 3 });
    assert_eq!(registry.len(), 3);

    registry.cancel(1);
    // A tombstoned entry keeps its slot: it is swept, not compacted away.
    assert_eq!(registry.len(), 3);

    assert_eq!(
        registry.pop_front(),
        FrameCallbackRegistration { handle: 0, callback: Some(FrameCallback { id: 1 }) }
    );
    assert_eq!(
        registry.pop_front(),
        FrameCallbackRegistration { handle: 1, callback: None }
    );
    assert_eq!(
        registry.pop_front(),
        FrameCallbackRegistration { handle: 2, callback: Some(FrameCallback { id: 3 }) }
    );
    assert_eq!(registry.len(), 0);
}

#[test]
fn cancelling_an_unknown_handle_changes_nothing() {
    let mut registry = FrameCallbackRegistry::new();
    registry.push(0, FrameCallback { id: 9 });
    registry.cancel(5);
    assert_eq!(registry.len(), 1);
    assert_eq!(
        registry.pop_front(),
        FrameCallbackRegistration { handle: 0, callback: Some(FrameCallback { id: 9 }) }
    );
}
