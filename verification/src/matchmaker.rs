//! Queue-based matchmaking. Players enqueue and are grouped into games
//! when enough players are waiting.

use vstd::prelude::*;

verus! {

/// Unique connection id assigned to each player by the server.
pub type ConnId = u64;

/// The queue after `conn` leaves it: every entry equal to `conn` is dropped,
/// the others keep their order.
pub open spec fn without_conn(queue: Seq<ConnId>, conn: ConnId) -> Seq<ConnId> {
    queue.filter(other_than(conn))
}

/// Whether a connection id differs from `conn`.
pub open spec fn other_than(conn: ConnId) -> spec_fn(ConnId) -> bool {
    |id: ConnId| id != conn
}

/// Simple FIFO matchmaking queue.
pub struct Matchmaker {
    queue: Vec<ConnId>,
    players_per_game: u8,
}

impl Matchmaker {
    /// Players waiting, oldest first.
    pub closed spec fn waiting(&self) -> Seq<ConnId> {
        self.queue@
    }

    /// Group size that starts a game.
    pub closed spec fn group_size(&self) -> nat {
        self.players_per_game as nat
    }

    /// The queue never holds a full group: a group leaves as soon as it is
    /// complete (vacuous when the group size is zero).
    pub open spec fn wf(&self) -> bool {
        self.group_size() == 0 || self.waiting().len() < self.group_size()
    }

    /// An empty queue that starts games of `players_per_game` players.
    pub fn new(players_per_game: u8) -> (r: Self)
        ensures
            r.waiting() == Seq::<ConnId>::empty(),
            r.group_size() == players_per_game as nat,
            r.wf(),
    {
        Self { queue: Vec::new(), players_per_game }
    }

    /// Add a player to the queue. Returns the matched group, oldest first,
    /// if the queue now has enough players to start a game; the players of
    /// the group leave the queue.
    pub fn enqueue(&mut self, conn_id: ConnId) -> (r: Option<Vec<ConnId>>)
        ensures
            final(self).group_size() == old(self).group_size(),
            ({
                let pushed = old(self).waiting().push(conn_id);
                let n = old(self).group_size() as int;
                if pushed.len() >= n {
                    &&& r is Some
                    &&& r->0@ == pushed.take(n)
                    &&& final(self).waiting() == pushed.skip(n)
                } else {
                    &&& r is None
                    &&& final(self).waiting() == pushed
                }
            }),
            old(self).wf() ==> final(self).wf(),
    {
        self.queue.push(conn_id);
        let n = self.players_per_game as usize;
        if self.queue.len() >= n {
            let mut group = self.queue.split_off(n);
            std::mem::swap(&mut self.queue, &mut group);
            Some(group)
        } else {
            None
        }
    }

    /// Remove a player from the queue (e.g. on disconnect before a match).
    pub fn dequeue(&mut self, conn_id: ConnId)
        ensures
            final(self).group_size() == old(self).group_size(),
            final(self).waiting() == without_conn(old(self).waiting(), conn_id),
            old(self).wf() ==> final(self).wf(),
    {
        let ghost q = self.queue@;
        let mut kept: Vec<ConnId> = Vec::new();
        let len = self.queue.len();
        let mut i: usize = 0;
        while i < len
            invariant
                len == q.len(),
                self.queue@ == q,
                i <= len,
                kept@ == without_conn(q.take(i as int), conn_id),
            decreases len - i,
        {
            let id = self.queue[i];
            proof {
                assert(q.take(i as int + 1).drop_last() =~= q.take(i as int));
                reveal_with_fuel(Seq::filter, 1);
            }
            if id != conn_id {
                kept.push(id);
            }
            i += 1;
        }
        proof {
            assert(q.take(len as int) =~= q);
            broadcast use vstd::seq_lib::group_filter_ensures;
            q.lemma_filter_len(other_than(conn_id));
        }
        self.queue = kept;
    }

    /// Group size that starts a game.
    pub fn players_per_game(&self) -> (r: u8)
        ensures
            r as nat == self.group_size(),
    {
        self.players_per_game
    }

    /// Number of players currently waiting.
    pub fn queue_size(&self) -> (r: usize)
        ensures
            r == self.waiting().len(),
    {
        self.queue.len()
    }
}

/// A matched group and the players left waiting together are exactly the
/// waiting players followed by the newcomer: nobody is lost, duplicated or
/// reordered by matchmaking.
pub proof fn lemma_enqueue_conserves_players(waiting: Seq<ConnId>, conn: ConnId, group_size: nat)
    requires
        waiting.push(conn).len() >= group_size,
    ensures
        waiting.push(conn).take(group_size as int) + waiting.push(conn).skip(group_size as int)
            == waiting.push(conn),
{
    assert(waiting.push(conn).take(group_size as int) + waiting.push(conn).skip(group_size as int)
        =~= waiting.push(conn));
}

/// After a player leaves the queue, it is no longer waiting, and every
/// other player still waits exactly when it waited before.
pub proof fn lemma_dequeue_removes_only(waiting: Seq<ConnId>, conn: ConnId, other: ConnId)
    requires
        other != conn,
    ensures
        !without_conn(waiting, conn).contains(conn),
        without_conn(waiting, conn).contains(other) == waiting.contains(other),
{
    broadcast use vstd::seq_lib::group_filter_ensures;
    let out = without_conn(waiting, conn);
    if out.contains(conn) {
        let i = choose|i: int| 0 <= i < out.len() && out[i] == conn;
        assert(other_than(conn)(out[i]));
    }
    if out.contains(other) {
        waiting.lemma_filter_contains_rev(other_than(conn), other);
    }
    if waiting.contains(other) {
        let i = choose|i: int| 0 <= i < waiting.len() && waiting[i] == other;
        assert(out.contains(waiting[i]));
    }
}

/// Leaving the queue twice is the same as leaving it once.
pub proof fn lemma_dequeue_idempotent(waiting: Seq<ConnId>, conn: ConnId)
    ensures
        without_conn(without_conn(waiting, conn), conn) == without_conn(waiting, conn),
{
    broadcast use vstd::seq_lib::group_filter_ensures;
    let once = without_conn(waiting, conn);
    assert forall|i: int| 0 <= i < once.len() implies once[i] != conn by {
        assert(other_than(conn)(once[i]));
    }
    lemma_filter_keeps_all(once, conn);
}

proof fn lemma_filter_keeps_all(s: Seq<ConnId>, conn: ConnId)
    requires
        forall|i: int| 0 <= i < s.len() ==> s[i] != conn,
    ensures
        without_conn(s, conn) == s,
    decreases s.len(),
{
    reveal_with_fuel(Seq::filter, 1);
    if s.len() == 0 {
        assert(without_conn(s, conn) =~= s);
    } else {
        lemma_filter_keeps_all(s.drop_last(), conn);
        assert(s.drop_last().push(s.last()) =~= s);
    }
}

} // verus!
