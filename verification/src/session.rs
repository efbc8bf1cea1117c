//! Game session bookkeeping on the server: which player id each connection
//! has, which players have left, when the session ends, and
//! the pacing of its ticks. The network, the command deduplication and the
//! replay recording stay with the caller.

use vstd::prelude::*;

use crate::matchmaker::ConnId;

verus! {

/// `seat` is the last seat in `players` taken by `conn`.
pub open spec fn is_last_seat(players: Seq<ConnId>, conn: ConnId, seat: int) -> bool {
    &&& 0 <= seat < players.len()
    &&& players[seat] == conn
    &&& forall|j: int| seat < j < players.len() ==> players[j] != conn
}

/// What the session does with an event it drains from its queue.
pub enum SessionReply {
    /// Hand the commands to the tick as coming from this player id.
    Forward(u8),
    /// The player left; the session ends when no player is left.
    PlayerLeft,
    /// The event is about a connection that is not in this session.
    Ignore,
}

/// Whether `conn` occurs in `ids`.
fn holds(ids: &Vec<ConnId>, conn: ConnId) -> (r: bool)
    ensures
        r == ids@.contains(conn),
{
    let mut i: usize = 0;
    while i < ids.len()
        invariant
            i <= ids@.len(),
            forall|j: int| 0 <= j < i ==> ids@[j] != conn,
        decreases ids@.len() - i,
    {
        if ids[i] == conn {
            return true;
        }
        i += 1;
    }
    false
}

/// Per-session bookkeeping: the players in seat order and the players that
/// have left.
pub struct SessionState {
    players: Vec<ConnId>,
    departed: Vec<ConnId>,
}

impl SessionState {
    /// Players in seat order.
    pub closed spec fn players(&self) -> Seq<ConnId> {
        self.players@
    }

    /// Players reported disconnected so far.
    pub closed spec fn departed(&self) -> Set<ConnId> {
        self.departed@.to_set()
    }

    /// Every player of the session has left.
    pub open spec fn all_left(&self) -> bool {
        forall|c: ConnId| #[trigger] self.players().contains(c) ==> self.departed().contains(c)
    }

    /// A session for `players`, all of them connected.
    pub fn new(players: Vec<ConnId>) -> (r: Self)
        ensures
            r.players() == players@,
            r.departed() == Set::<ConnId>::empty(),
    {
        let r = SessionState { players, departed: Vec::new() };
        assert(r.departed@.to_set() =~= Set::<ConnId>::empty());
        r
    }

    /// Number of players, as the single byte the replay header carries.
    pub fn num_players(&self) -> (r: u8)
        ensures
            r == (self.players().len() % 256) as u8,
    {
        (self.players.len() % 256) as u8
    }

    /// The player id of `conn_id`: its seat (the last one if it holds
    /// several), truncated to a byte; `None` if it is not in the session.
    pub fn player_id(&self, conn_id: ConnId) -> (r: Option<u8>)
        ensures
            r is None <==> !self.players().contains(conn_id),
            r matches Some(pid) ==> exists|seat: int|
                is_last_seat(self.players(), conn_id, seat) && pid == (seat % 256) as u8,
    {
        let mut i = self.players.len();
        while i > 0
            invariant
                i <= self.players@.len(),
                forall|j: int| i <= j < self.players@.len() ==> self.players@[j] != conn_id,
            decreases i,
        {
            i -= 1;
            if self.players[i] == conn_id {
                assert(is_last_seat(self.players@, conn_id, i as int));
                return Some((i % 256) as u8);
            }
        }
        proof {
            if self.players@.contains(conn_id) {
                let k = choose|k: int| 0 <= k < self.players@.len() && self.players@[k] == conn_id;
                assert(self.players@[k] != conn_id);
            }
        }
        None
    }

    /// Apply the commands event of `conn_id`: forwarded under its player
    /// id if it is in the session, ignored otherwise.
    pub fn on_commands(&self, conn_id: ConnId) -> (r: SessionReply)
        ensures
            r matches SessionReply::Forward(pid) ==> exists|seat: int|
                is_last_seat(self.players(), conn_id, seat) && pid == (seat % 256) as u8,
            r is Ignore <==> !self.players().contains(conn_id),
            !(r is PlayerLeft),
    {
        match self.player_id(conn_id) {
            Some(pid) => SessionReply::Forward(pid),
            None => SessionReply::Ignore,
        }
    }

    /// Apply the disconnect event of `conn_id`: a player of the session
    /// is recorded as having left (once, however often it is reported).
    pub fn on_disconnect(&mut self, conn_id: ConnId) -> (r: SessionReply)
        ensures
            final(self).players() == old(self).players(),
            old(self).players().contains(conn_id) ==> r is PlayerLeft && final(self).departed()
                == old(self).departed().insert(conn_id),
            !old(self).players().contains(conn_id) ==> r is Ignore && final(self).departed()
                == old(self).departed(),
    {
        if holds(&self.players, conn_id) {
            if !holds(&self.departed, conn_id) {
                let ghost before = self.departed@;
                self.departed.push(conn_id);
                proof {
                    assert forall|c: ConnId| #[trigger] self.departed@.contains(c) <==> (before.contains(c) || c == conn_id) by {
                        if self.departed@.contains(c) {
                            let k = choose|k: int| 0 <= k < self.departed@.len() && self.departed@[k] == c;
                            if k < before.len() {
                                assert(before[k] == c);
                            }
                        }
                        if before.contains(c) {
                            let k = choose|k: int| 0 <= k < before.len() && before[k] == c;
                            assert(self.departed@[k] == c);
                        }
                        if c == conn_id {
                            assert(self.departed@[before.len() as int] == c);
                        }
                    }
                    assert(self.departed@.to_set() =~= before.to_set().insert(conn_id));
                }
            } else {
                assert(self.departed@.to_set() =~= self.departed@.to_set().insert(conn_id));
            }
            SessionReply::PlayerLeft
        } else {
            SessionReply::Ignore
        }
    }

    /// The session ends after a tick once every one of its players has left.
    pub fn should_end(&self) -> (r: bool)
        ensures
            r == self.all_left(),
    {
        let mut i: usize = 0;
        while i < self.players.len()
            invariant
                i <= self.players@.len(),
                forall|j: int| 0 <= j < i ==> self.departed@.contains(#[trigger] self.players@[j]),
            decreases self.players@.len() - i,
        {
            if !holds(&self.departed, self.players[i]) {
                assert(self.players@.contains(self.players@[i as int]));
                assert(!self.departed().contains(self.players@[i as int]));
                assert(self.players().contains(self.players@[i as int]));
                assert(!self.all_left());
                return false;
            }
            i += 1;
        }
        assert forall|c: ConnId| #[trigger] self.players().contains(c) implies self.departed().contains(c) by {
            let k = choose|k: int| 0 <= k < self.players@.len() && self.players@[k] == c;
            assert(self.departed@.contains(self.players@[k]));
        }
        true
    }
}

/// A session never ends while one of its players is still connected, and
/// it ends once each of its players has been reported gone, however often
/// and in whatever order.
pub proof fn lemma_session_ends_when_all_left(state: SessionState, conn: ConnId)
    ensures
        state.players().contains(conn) && !state.departed().contains(conn) ==> !state.all_left(),
        state.players().to_set().subset_of(state.departed()) ==> state.all_left(),
        state.players().len() == 0 ==> state.all_left(),
{
    if state.players().to_set().subset_of(state.departed()) {
        assert forall|c: ConnId| #[trigger] state.players().contains(c) implies state.departed().contains(c) by {
            assert(state.players().to_set().contains(c));
        }
    }
}

/// Tick period in microseconds for `tick_rate` ticks per second.
pub fn tick_interval_micros(tick_rate: u64) -> (r: u64)
    requires
        tick_rate > 0,
    ensures
        r == 1_000_000u64 / tick_rate,
{
    1_000_000 / tick_rate
}

} // verus!
