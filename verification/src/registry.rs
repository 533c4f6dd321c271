use vstd::prelude::*;

verus! {

/// A caller-supplied piece of per-frame work. The core never runs a
/// callback itself — the embedding does — so an opaque token identifying
/// the callback to the embedding is all the registry stores.
#[derive(Clone, Copy, PartialEq, Eq, Structural, Debug)]
pub struct FrameCallback {
    pub id: u64,
}

/// One registration in the frame-callback registry.
///
/// A cancelled registration keeps its slot with `callback` cleared (a
/// tombstone) rather than being removed at once, so that cancellation is
/// safe while the registry is being walked; tombstones disappear when the
/// frame is serviced.
#[derive(Clone, Copy, PartialEq, Eq, Structural, Debug)]
pub struct FrameCallbackRegistration {
    /// The handle under which the callback was registered; unique and
    /// strictly increasing along the registry.
    pub handle: i32,
    /// The registered work; `None` once cancelled.
    pub callback: Option<FrameCallback>,
}

/// Handles appear in registration order and never repeat: each entry's
/// handle is strictly below the next one's.
pub open spec fn handles_strictly_increasing(entries: Seq<FrameCallbackRegistration>) -> bool {
    forall|i: int, j: int|
        0 <= i < j < entries.len() ==> #[trigger] entries[i].handle < #[trigger] entries[j].handle
}

/// Every handle in the registry lies below `bound` (the session's next
/// unassigned handle).
pub open spec fn handles_below(entries: Seq<FrameCallbackRegistration>, bound: i32) -> bool {
    forall|i: int| 0 <= i < entries.len() ==> #[trigger] entries[i].handle < bound
}

/// The entries a frame-service pass hands to the embedding: the live
/// (uncancelled) registrations, in registration order, as handle/callback
/// pairs.
pub open spec fn live_entries(entries: Seq<FrameCallbackRegistration>) -> Seq<
    (i32, FrameCallback),
>
    decreases entries.len(),
{
    if entries.len() == 0 {
        Seq::empty()
    } else {
        let prefix = live_entries(entries.drop_last());
        match entries.last().callback {
            Some(cb) => prefix.push((entries.last().handle, cb)),
            None => prefix,
        }
    }
}

/// Frame-order fidelity: a service pass respects registration order. Splitting
/// the registry anywhere, everything registered in the first part is served
/// before anything registered in the second, each part in its own order and
/// with its own tombstones skipped.
pub proof fn lemma_frame_order_fidelity(
    s1: Seq<FrameCallbackRegistration>,
    s2: Seq<FrameCallbackRegistration>,
)
    ensures
        live_entries(s1 + s2) == live_entries(s1) + live_entries(s2),
    decreases s2.len(),
{
    if s2.len() == 0 {
        assert(s1 + s2 =~= s1);
        assert(live_entries(s1) + live_entries(s2) =~= live_entries(s1));
    } else {
        lemma_frame_order_fidelity(s1, s2.drop_last());
        assert((s1 + s2).drop_last() =~= s1 + s2.drop_last());
        assert((s1 + s2).last() == s2.last());
        match s2.last().callback {
            Some(cb) => {
                assert(live_entries(s1) + live_entries(s2) =~= (live_entries(s1) + live_entries(
                    s2.drop_last(),
                )).push((s2.last().handle, cb)));
            },
            None => {},
        }
    }
}

/// Once every registration under `handle` is tombstoned, no served entry
/// carries that handle: the cancelled callback does not fire.
pub proof fn lemma_tombstoned_never_served(s: Seq<FrameCallbackRegistration>, handle: i32)
    requires
        forall|i: int|
            0 <= i < s.len() && #[trigger] s[i].handle == handle ==> s[i].callback is None,
    ensures
        forall|k: int|
            0 <= k < live_entries(s).len() ==> (#[trigger] live_entries(s)[k]).0 != handle,
    decreases s.len(),
{
    if s.len() > 0 {
        assert(forall|i: int|
            0 <= i < s.drop_last().len() && #[trigger] s.drop_last()[i].handle == handle
                ==> s.drop_last()[i].callback is None);
        lemma_tombstoned_never_served(s.drop_last(), handle);
        let prefix = live_entries(s.drop_last());
        match s.last().callback {
            Some(cb) => {
                assert(s[s.len() - 1].handle != handle);
                assert(live_entries(s) == prefix.push((s.last().handle, cb)));
                assert forall|k: int|
                    0 <= k < live_entries(s).len() implies (#[trigger] live_entries(s)[k]).0
                    != handle by {
                    if k < prefix.len() {
                        assert(live_entries(s)[k] == prefix[k]);
                    } else {
                        assert(live_entries(s)[k] == (s.last().handle, cb));
                    }
                }
            },
            None => {
                assert(live_entries(s) == prefix);
            },
        }
    }
}

/// An insertion-ordered collection of pending animation-frame callback
/// registrations, supporting cancellation by handle and removal from the
/// front, one entry per frame-service step.
pub struct FrameCallbackRegistry {
    entries: Vec<FrameCallbackRegistration>,
}

impl View for FrameCallbackRegistry {
    type V = Seq<FrameCallbackRegistration>;

    closed spec fn view(&self) -> Seq<FrameCallbackRegistration> {
        self.entries@
    }
}

impl FrameCallbackRegistry {
    pub fn new() -> (r: FrameCallbackRegistry)
        ensures
            r@ == Seq::<FrameCallbackRegistration>::empty(),
    {
        FrameCallbackRegistry { entries: Vec::new() }
    }

    /// Appends a live registration at the end of the registry.
    pub fn push(&mut self, handle: i32, callback: FrameCallback)
        ensures
            final(self)@ == old(self)@.push(
                FrameCallbackRegistration { handle, callback: Some(callback) },
            ),
    {
        self.entries.push(FrameCallbackRegistration { handle, callback: Some(callback) });
    }

    /// Tombstones every registration under `handle` (at most one exists in
    /// a well-formed registry) and touches nothing else. Unknown handles
    /// match no entry, so cancelling one is a silent no-op.
    pub fn cancel(&mut self, handle: i32)
        ensures
            final(self)@.len() == old(self)@.len(),
            forall|i: int|
                0 <= i < old(self)@.len() && old(self)@[i].handle == handle
                    ==> #[trigger] final(self)@[i] == (FrameCallbackRegistration {
                    handle,
                    callback: None,
                }),
            forall|i: int|
                0 <= i < old(self)@.len() && old(self)@[i].handle != handle
                    ==> #[trigger] final(self)@[i] == old(self)@[i],
    {
        let n = self.entries.len();
        let mut k: usize = 0;
        while k < n
            invariant
                n == self.entries.len(),
                k <= n,
                self.entries@.len() == old(self)@.len(),
                forall|i: int|
                    0 <= i < k && old(self)@[i].handle == handle ==> #[trigger] self.entries@[i]
                        == (FrameCallbackRegistration { handle, callback: None }),
                forall|i: int|
                    0 <= i < old(self)@.len() && !(0 <= i < k && old(self)@[i].handle == handle)
                        ==> #[trigger] self.entries@[i] == old(self)@[i],
            decreases n - k,
        {
            if self.entries[k].handle == handle {
                self.entries[k].callback = None;
            }
            k = k + 1;
        }
    }

    /// Removes and returns the oldest registration — live or tombstoned —
    /// so a frame-service pass can walk the registry one entry at a time
    /// while cancellations keep landing on the entries not yet reached.
    pub fn pop_front(&mut self) -> (entry: FrameCallbackRegistration)
        requires
            old(self)@.len() > 0,
        ensures
            entry == old(self)@[0],
            final(self)@ == old(self)@.drop_first(),
    {
        let entry = self.entries.remove(0);
        proof {
            assert(self.entries@ =~= old(self)@.drop_first());
        }
        entry
    }

    /// How many registrations — live or tombstoned — are pending.
    pub fn len(&self) -> (n: usize)
        ensures
            n == self@.len(),
    {
        self.entries.len()
    }
}

} // verus!
