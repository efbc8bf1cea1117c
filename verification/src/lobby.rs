//! The dedicated server's bookkeeping between connections and games:
//! players who become ready enter matchmaking, a complete group starts a
//! game with a fresh id, commands are routed to the player's game, and a
//! disconnect removes the player from the queue and from its game.
//! Sockets and tasks stay with the caller, which performs what these
//! decisions ask for.

use std::collections::BTreeMap;
use vstd::prelude::*;

use crate::matchmaker::{ConnId, Matchmaker};

verus! {

broadcast use vstd::std_specs::btree::group_btree_axioms;

/// A game that a complete group starts: its id and its players in seat
/// order (the seat is the player id the game's hello message carries).
pub struct MatchStart {
    pub game_id: u64,
    pub players: Vec<ConnId>,
}

/// `games` after each of `players` joined game `game_id`.
pub open spec fn join_game(games: Map<ConnId, u64>, players: Seq<ConnId>, game_id: u64) -> Map<
    ConnId,
    u64,
> {
    games.union_prefer_right(Map::new(|c: ConnId| players.contains(c), |c: ConnId| game_id))
}

/// Player id of the player in `seat`: the seat number, truncated to a byte.
pub open spec fn seat_player_id(seat: int) -> u8 {
    (seat % 256) as u8
}

/// Connection-to-game bookkeeping of the server.
pub struct Lobby {
    matchmaker: Matchmaker,
    next_game_id: u64,
    conn_to_game: BTreeMap<ConnId, u64>,
}

impl Lobby {
    /// Players waiting for a game, oldest first.
    pub closed spec fn waiting(&self) -> Seq<ConnId> {
        self.matchmaker.waiting()
    }

    /// Group size that starts a game.
    pub closed spec fn group_size(&self) -> nat {
        self.matchmaker.group_size()
    }

    /// Id that the next game will get.
    pub closed spec fn next_game_id(&self) -> u64 {
        self.next_game_id
    }

    /// The game each connected, matched player is in.
    pub closed spec fn games(&self) -> Map<ConnId, u64> {
        self.conn_to_game@
    }

    /// A lobby for games of `players_per_game` players; game ids start at 1.
    pub fn new(players_per_game: u8) -> (r: Self)
        ensures
            r.waiting() == Seq::<ConnId>::empty(),
            r.group_size() == players_per_game as nat,
            r.next_game_id() == 1,
            r.games() == Map::<ConnId, u64>::empty(),
    {
        Lobby { matchmaker: Matchmaker::new(players_per_game), next_game_id: 1, conn_to_game: BTreeMap::new() }
    }

    /// Id that the next game will get.
    pub fn peek_next_game_id(&self) -> (r: u64)
        ensures
            r == self.next_game_id(),
    {
        self.next_game_id
    }

    /// Whether one more ready player completes a group.
    pub fn completes_group(&self) -> (r: bool)
        ensures
            r == (self.waiting().len() + 1 >= self.group_size()),
    {
        self.matchmaker.queue_size() >= (self.matchmaker.players_per_game() as usize).saturating_sub(1)
    }

    /// A player connected and wants to play. When this completes a group, a
    /// game starts: it gets the next game id and each of its players is
    /// recorded as being in it.
    pub fn player_ready(&mut self, conn_id: ConnId) -> (r: Option<MatchStart>)
        requires
            old(self).waiting().len() + 1 >= old(self).group_size() ==> old(self).next_game_id()
                < u64::MAX,
        ensures
            final(self).group_size() == old(self).group_size(),
            ({
                let pushed = old(self).waiting().push(conn_id);
                let n = old(self).group_size() as int;
                if pushed.len() >= n {
                    &&& r is Some
                    &&& r->0.game_id == old(self).next_game_id()
                    &&& r->0.players@ == pushed.take(n)
                    &&& final(self).waiting() == pushed.skip(n)
                    &&& final(self).next_game_id() == old(self).next_game_id() + 1
                    &&& final(self).games() == join_game(
                        old(self).games(),
                        pushed.take(n),
                        old(self).next_game_id(),
                    )
                } else {
                    &&& r is None
                    &&& final(self).waiting() == pushed
                    &&& final(self).next_game_id() == old(self).next_game_id()
                    &&& final(self).games() == old(self).games()
                }
            }),
    {
        match self.matchmaker.enqueue(conn_id) {
            Some(players) => {
                let game_id = self.next_game_id;
                self.next_game_id = self.next_game_id + 1;
                let ghost g0 = self.conn_to_game@;
                let ghost mm = self.matchmaker;
                let len = players.len();
                let mut i: usize = 0;
                while i < len
                    invariant
                        len == players@.len(),
                        i <= len,
                        self.matchmaker == mm,
                        self.next_game_id == game_id + 1,
                        self.conn_to_game@ == join_game(g0, players@.take(i as int), game_id),
                    decreases len - i,
                {
                    let cid = players[i];
                    self.conn_to_game.insert(cid, game_id);
                    proof {
                        let before = players@.take(i as int);
                        let after = players@.take(i as int + 1);
                        assert(after =~= before.push(cid));
                        assert forall|c: ConnId| #[trigger] after.contains(c) <==> (before.contains(c) || c == cid) by {
                            if after.contains(c) {
                                let k = choose|k: int| 0 <= k < after.len() && after[k] == c;
                                if k < before.len() {
                                    assert(before[k] == c);
                                }
                            }
                            if before.contains(c) {
                                let k = choose|k: int| 0 <= k < before.len() && before[k] == c;
                                assert(after[k] == c);
                            }
                            if c == cid {
                                assert(after[i as int] == c);
                            }
                        }
                        assert(self.conn_to_game@ =~= join_game(g0, after, game_id));
                    }
                    i += 1;
                }
                proof {
                    assert(players@.take(len as int) =~= players@);
                }
                Some(MatchStart { game_id, players })
            },
            None => None,
        }
    }

    /// The game whose session receives the commands of `conn_id`, if the
    /// player is in one.
    pub fn game_of(&self, conn_id: ConnId) -> (r: Option<u64>)
        ensures
            r == (if self.games().contains_key(conn_id) {
                Some(self.games()[conn_id])
            } else {
                None
            }),
    {
        match self.conn_to_game.get(&conn_id) {
            Some(g) => Some(*g),
            None => None,
        }
    }

    /// A player disconnected: it leaves the queue and its game. Returns the
    /// game whose session must learn of it, if the player was in one.
    pub fn player_disconnected(&mut self, conn_id: ConnId) -> (r: Option<u64>)
        ensures
            final(self).group_size() == old(self).group_size(),
            final(self).waiting() == crate::matchmaker::without_conn(old(self).waiting(), conn_id),
            final(self).next_game_id() == old(self).next_game_id(),
            final(self).games() == old(self).games().remove(conn_id),
            r == (if old(self).games().contains_key(conn_id) {
                Some(old(self).games()[conn_id])
            } else {
                None
            }),
    {
        self.matchmaker.dequeue(conn_id);
        self.conn_to_game.remove(&conn_id)
    }
}

/// Once a group starts a game, the commands of each of its players go to
/// that game, and every other connection keeps its game (or none).
pub proof fn lemma_match_routes_players(games: Map<ConnId, u64>, players: Seq<ConnId>, game_id: u64, conn: ConnId)
    ensures
        players.contains(conn) ==> join_game(games, players, game_id).contains_key(conn)
            && join_game(games, players, game_id)[conn] == game_id,
        !players.contains(conn) ==> (join_game(games, players, game_id).contains_key(conn)
            == games.contains_key(conn)) && (games.contains_key(conn) ==> join_game(
            games,
            players,
            game_id,
        )[conn] == games[conn]),
{
}

/// A player that disconnected is routed to no game until it is matched
/// again.
pub proof fn lemma_disconnected_not_routed(games: Map<ConnId, u64>, conn: ConnId)
    ensures
        !games.remove(conn).contains_key(conn),
{
}

/// The player id that the player in `seat` of a new game receives.
pub fn player_id_for_seat(seat: usize) -> (r: u8)
    ensures
        r == seat_player_id(seat as int),
{
    (seat % 256) as u8
}

} // verus!
