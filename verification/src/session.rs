//! The session adapter: the save / load / advance / event contract a
//! rollback engine drives.
//!
//! The adapter exclusively owns the live simulation state, an order-stable
//! sequence of players. The engine only ever receives snapshots by value, so
//! no later mutation of the live state can reach a snapshot already handed
//! out. Every operation is re-entrant and may be called in any order and any
//! number of times, which is how a rollback engine resimulates.

use vstd::prelude::*;
use vstd::pervasive::VecAdditionalExecFns;
use crate::input::Input;
use crate::player::{Player, PlayerHandle};

verus! {

/// Out-of-band session lifecycle notifications from the rollback engine.
/// None of them carries simulation data; the adapter absorbs them all.
#[derive(Clone, Copy, PartialEq, Eq, Structural, Debug)]
pub enum SessionEvent {
    /// A peer answered for the first time.
    PeerConnected,
    /// A peer has started the synchronization handshake.
    Synchronizing,
    /// A peer finished synchronizing.
    Synchronized,
    /// All peers are synchronized; the session is live.
    Running,
    /// A peer's connection was interrupted and may still resume.
    ConnectionInterrupted,
    /// An interrupted peer's connection resumed.
    ConnectionResumed,
    /// A peer disconnected for good.
    Disconnected,
    /// The engine recommends skipping frames to stay in step with a peer.
    TimeSyncRecommended,
}

/// Why a frame could not be advanced.
#[derive(Clone, Copy, PartialEq, Eq, Structural, Debug)]
pub enum AdvanceError {
    /// A tracked player had no input in the view handed to `advance_frame`.
    /// Fatal by design: substituting a default would silently desynchronize
    /// the peers.
    MissingInput(PlayerHandle),
}

/// The per-player input view the engine supplies for one advanced frame:
/// a lookup from player handle to that player's confirmed-or-predicted
/// input.
pub struct InputView {
    pub entries: Vec<(PlayerHandle, Input)>,
}

/// The input `entries` holds for `handle`: the first entry with that handle,
/// or nothing when no entry has it.
pub open spec fn lookup(entries: Seq<(PlayerHandle, Input)>, handle: PlayerHandle) -> Option<Input>
    decreases entries.len(),
{
    if entries.len() == 0 {
        None
    } else if entries[0].0 == handle {
        Some(entries[0].1)
    } else {
        lookup(entries.subrange(1, entries.len() as int), handle)
    }
}

/// Looking up past a prefix with no matching handle finds what the rest
/// finds.
proof fn lemma_lookup_skip_prefix(
    entries: Seq<(PlayerHandle, Input)>,
    handle: PlayerHandle,
    k: int,
)
    requires
        0 <= k <= entries.len(),
        forall|j: int| 0 <= j < k ==> entries[j].0 != handle,
    ensures
        lookup(entries, handle) == lookup(entries.subrange(k, entries.len() as int), handle),
    decreases k,
{
    if k > 0 {
        lemma_lookup_skip_prefix(entries, handle, k - 1);
        let rest = entries.subrange(k - 1, entries.len() as int);
        assert(rest[0] == entries[k - 1]);
        assert(rest.subrange(1, rest.len() as int) =~= entries.subrange(k, entries.len() as int));
        assert(lookup(rest, handle) == lookup(rest.subrange(1, rest.len() as int), handle));
    } else {
        assert(entries.subrange(0, entries.len() as int) =~= entries);
    }
}

impl InputView {
    /// A view with no entries at all.
    pub fn new() -> (r: InputView)
        ensures
            r.entries@.len() == 0,
    {
        InputView { entries: Vec::new() }
    }

    /// Appends one player's input to the view.
    pub fn push(&mut self, handle: PlayerHandle, input: Input)
        ensures
            final (self).entries@ == old(self).entries@.push((handle, input)),
    {
        self.entries.push((handle, input));
    }

    /// The input this view holds for `handle`, or nothing when the view has
    /// no entry for it.
    pub fn get(&self, handle: PlayerHandle) -> (r: Option<Input>)
        ensures
            r == lookup(self.entries@, handle),
    {
        let n = self.entries.len();
        let mut i: usize = 0;
        while i < n
            invariant
                n == self.entries@.len(),
                0 <= i <= n,
                forall|j: int| 0 <= j < i ==> self.entries@[j].0 != handle,
            decreases n - i,
        {
            let e = self.entries[i];
            if e.0 == handle {
                proof {
                    lemma_lookup_skip_prefix(self.entries@, handle, i as int);
                    let rest = self.entries@.subrange(i as int, self.entries@.len() as int);
                    assert(rest[0] == self.entries@[i as int]);
                }
                return Some(e.1);
            }
            i += 1;
        }
        proof {
            lemma_lookup_skip_prefix(self.entries@, handle, n as int);
        }
        None
    }
}

/// Every handle tracked in `players` has an input in `entries`.
pub open spec fn all_inputs_present(
    players: Seq<Player>,
    entries: Seq<(PlayerHandle, Input)>,
) -> bool {
    forall|j: int| 0 <= j < players.len() ==> #[trigger] lookup(entries, players[j].handle) is Some
}

/// The whole state advanced one frame under the view: each player stepped
/// with the input the view holds for its handle.
pub open spec fn stepped_all(
    players: Seq<Player>,
    entries: Seq<(PlayerHandle, Input)>,
) -> Seq<Player> {
    players.map(|j: int, p: Player| crate::player::stepped(p, lookup(entries, p.handle).unwrap()))
}

/// `handle` belongs to the first player in `players` whose input is missing
/// from `entries`.
pub open spec fn first_missing(
    players: Seq<Player>,
    entries: Seq<(PlayerHandle, Input)>,
    handle: PlayerHandle,
) -> bool {
    exists|j: int|
        0 <= j < players.len() && #[trigger] lookup(entries, players[j].handle) is None && (
        forall|k: int| 0 <= k < j ==> #[trigger] lookup(entries, players[k].handle) is Some)
            && handle == players[j].handle
}

/// Owns the authoritative simulation state and answers the rollback
/// engine's callbacks. The state is an order-stable sequence of players:
/// snapshots and restores preserve the order exactly, so round trips are
/// bit-exact.
pub struct SessionAdapter {
    pub players: Vec<Player>,
}

impl SessionAdapter {
    /// Starts a session over the given initial players.
    pub fn new(players: Vec<Player>) -> (r: SessionAdapter)
        ensures
            r.players@ == players@,
    {
        SessionAdapter { players }
    }

    /// Snapshots the live state: an independent copy with the same players
    /// in the same order. The checksum slot is unused (no checksum is
    /// supplied); were one supplied, it would have to be a deterministic
    /// function of the state content alone. Taking `&self`, the call cannot
    /// mutate the live state, and the returned copy is owned by the caller:
    /// later mutation of the live state cannot reach it.
    pub fn save_state(&self) -> (r: (Vec<Player>, Option<u64>))
        ensures
            r.0@ == self.players@,
            r.1 is None,
    {
        let n = self.players.len();
        let mut snapshot: Vec<Player> = Vec::new();
        let mut i: usize = 0;
        while i < n
            invariant
                n == self.players@.len(),
                0 <= i <= n,
                snapshot@.len() == i,
                forall|k: int| 0 <= k < i ==> snapshot@[k] == self.players@[k],
            decreases n - i,
        {
            snapshot.push(self.players[i]);
            i += 1;
        }
        proof {
            assert(snapshot@ =~= self.players@);
        }
        (snapshot, None)
    }

    /// Replaces the live state wholesale with an independent copy of
    /// `snapshot` — a full overwrite, not a merge. Callable at any time and
    /// any number of times; loading the same snapshot again leaves the same
    /// state.
    pub fn load_state(&mut self, snapshot: &Vec<Player>)
        ensures
            final (self).players@ == snapshot@,
    {
        let n = snapshot.len();
        let mut fresh: Vec<Player> = Vec::new();
        let mut i: usize = 0;
        while i < n
            invariant
                n == snapshot@.len(),
                0 <= i <= n,
                fresh@.len() == i,
                forall|k: int| 0 <= k < i ==> fresh@[k] == snapshot@[k],
            decreases n - i,
        {
            fresh.push(snapshot[i]);
            i += 1;
        }
        proof {
            assert(fresh@ =~= snapshot@);
        }
        self.players = fresh;
    }

    /// Advances every tracked player one frame with the input the view
    /// holds for its handle. When any tracked handle has no input, nothing
    /// is advanced: the state is left exactly as it was and the first such
    /// handle is reported as a fatal error, because substituting a default
    /// input would silently desynchronize the peers.
    pub fn advance_frame(&mut self, view: &InputView) -> (r: Result<(), AdvanceError>)
        ensures
            r is Ok <==> all_inputs_present(old(self).players@, view.entries@),
            r is Ok ==> final (self).players@ == stepped_all(old(self).players@, view.entries@),
            r is Err ==> final (self).players@ == old(self).players@,
            r matches Err(AdvanceError::MissingInput(h)) ==> first_missing(
                old(self).players@,
                view.entries@,
                h,
            ),
    {
        let ghost orig: Seq<Player> = self.players@;
        let n = self.players.len();
        let mut i: usize = 0;
        while i < n
            invariant
                self.players@ == orig,
                n == orig.len(),
                0 <= i <= n,
                forall|k: int| 0 <= k < i ==> #[trigger] lookup(view.entries@, orig[k].handle) is Some,
            decreases n - i,
        {
            let handle = self.players[i].handle;
            if view.get(handle).is_none() {
                return Err(AdvanceError::MissingInput(handle));
            }
            i += 1;
        }
        assert(all_inputs_present(orig, view.entries@));
        let mut i: usize = 0;
        while i < n
            invariant
                n == orig.len(),
                self.players@.len() == orig.len(),
                0 <= i <= n,
                all_inputs_present(orig, view.entries@),
                forall|k: int| i <= k < n ==> self.players@[k] == orig[k],
                forall|k: int|
                    0 <= k < i ==> self.players@[k] == crate::player::stepped(
                        orig[k],
                        lookup(view.entries@, orig[k].handle).unwrap(),
                    ),
            decreases n - i,
        {
            let mut p = self.players[i];
            assert(p == orig[i as int]);
            assert(lookup(view.entries@, orig[i as int].handle) is Some);
            let input = view.get(p.handle).unwrap();
            crate::player::player_physics_update(&mut p, input);
            self.players.set(i, p);
            i += 1;
        }
        proof {
            assert(self.players@ =~= stepped_all(orig, view.entries@));
        }
        Ok(())
    }

    /// Absorbs an out-of-band session notification. No event variant fails,
    /// and none touches the simulation state: event handling is advisory
    /// only in this core.
    pub fn handle_event(&mut self, event: SessionEvent)
        ensures
            final (self).players@ == old(self).players@,
    {
        match event {
            SessionEvent::PeerConnected => (),
            SessionEvent::Synchronizing => (),
            SessionEvent::Synchronized => (),
            SessionEvent::Running => (),
            SessionEvent::ConnectionInterrupted => (),
            SessionEvent::ConnectionResumed => (),
            SessionEvent::Disconnected => (),
            SessionEvent::TimeSyncRecommended => (),
        }
    }
}

/// Round-trip law: a snapshot taken by `save_state` and handed back to
/// `load_state` restores exactly the state at the moment of the save.
/// `before` is the live state when the snapshot was taken; `save_state`'s
/// contract makes `snapshot` its content; `load_state`'s contract makes
/// `after` the snapshot's content; so the state after the round trip is the
/// state before it — same players, same order.
pub proof fn lemma_save_load_round_trip(
    before: Seq<Player>,
    snapshot: Seq<Player>,
    after: Seq<Player>,
)
    requires
        snapshot == before,
        after == snapshot,
    ensures
        after == before,
{
}

/// Idempotence law: loading a snapshot twice in a row ends in the same state
/// as loading it once. Each load leaves the snapshot's content as the live
/// state, so the second load changes nothing further.
pub proof fn lemma_load_state_idempotent(
    snapshot: Seq<Player>,
    after_once: Seq<Player>,
    after_twice: Seq<Player>,
)
    requires
        after_once == snapshot,
        after_twice == snapshot,
    ensures
        after_twice == after_once,
{
}

} // verus!
