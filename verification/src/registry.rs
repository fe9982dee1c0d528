//! The rooms of a server, found by their join code.
//!
//! The registry owns its rooms. No two of them share a code. Rooms that
//! everybody has left are not swept in the background: they are dropped when
//! the next room is created.

use vstd::prelude::*;
use vstd::string::*;
use crate::game::{game_start, get_initial_game_state, initial_game};
use crate::messages::{MessageContent, envelope, json_string_text, send_message};
use crate::room::{
    GameOptions, OptionsView, Player, PlayerInfo, PlayerView, RoomState, RoomView,
};
use crate::text::same_text;
use crate::words::is_word;

verus! {

/// Why a player could not join a room.
#[derive(Clone, Copy, PartialEq, Eq, Debug, Structural)]
pub enum JoinError {
    /// No room has this code.
    NoSuchRoom,
    /// The room already has its two players.
    RoomFull,
}

/// All rooms of a server.
#[derive(Clone, PartialEq, Eq, Debug)]
pub struct RoomRegistry {
    /// The rooms, oldest first.
    pub rooms: Vec<RoomState>,
}

impl RoomView {
    /// Whether a connection still serves at least one player of the room.
    pub open spec fn is_live(self) -> bool {
        ||| self.host_player.connection_alive
        ||| self.other_player matches Some(o) && o.connection_alive
    }

    /// The room after a second player has joined: the host is told, the
    /// newcomer is told to wait unless the host is ready, and the first match
    /// starts.
    pub open spec fn joined(self, newcomer: PlayerView) -> RoomView {
        RoomView {
            host_player: self.host_player.with_message(
                envelope("other-player-connected"@, "null"@),
            ),
            other_player: Some(
                if self.host_player.ready_to_restart {
                    newcomer
                } else {
                    newcomer.with_message(envelope("wait-for-host"@, "null"@))
                },
            ),
            ..self
        }.game_start()
    }
}

/// The room that `create_room` makes: no match started, the host alone, and
/// the room's code as the first message in the host's queue.
pub open spec fn new_room(
    code: Seq<char>,
    host: PlayerView,
    secret: Seq<char>,
    options: OptionsView,
) -> RoomView {
    RoomView {
        game_state: initial_game(secret),
        host_player: host.with_message(envelope("room-code"@, json_string_text(code))),
        other_player: None,
        join_code: code,
        game_started: false,
        game_options: options,
    }
}

/// The rooms that still have a connection, in the order they had.
pub open spec fn live_rooms(rooms: Seq<RoomState>) -> Seq<RoomState> {
    rooms.filter(|r: RoomState| r@.is_live())
}

/// No two rooms share a join code.
pub open spec fn codes_distinct(rooms: Seq<RoomState>) -> bool {
    forall|i: int, j: int|
        0 <= i < j < rooms.len() ==> (#[trigger] rooms[i]).join_code@ != (
        #[trigger] rooms[j]).join_code@
}

/// No room has the given join code.
pub open spec fn code_is_free(rooms: Seq<RoomState>, code: Seq<char>) -> bool {
    forall|i: int| 0 <= i < rooms.len() ==> (#[trigger] rooms[i]).join_code@ != code
}

/// Every room kept by the filter was there before, at a position that grows
/// with its position among the kept ones.
proof fn lemma_live_rooms_embed(rooms: Seq<RoomState>) -> (at: Seq<int>)
    ensures
        at.len() == live_rooms(rooms).len(),
        forall|k: int|
            0 <= k < at.len() ==> 0 <= #[trigger] at[k] < rooms.len() && rooms[at[k]]
                == live_rooms(rooms)[k],
        forall|k: int, l: int| 0 <= k < l < at.len() ==> at[k] < at[l],
    decreases rooms.len(),
{
    reveal(Seq::filter);
    if rooms.len() == 0 {
        Seq::empty()
    } else {
        let before = lemma_live_rooms_embed(rooms.drop_last());
        if rooms.last()@.is_live() {
            before.push(rooms.len() - 1)
        } else {
            before
        }
    }
}

/// Dropping rooms keeps the codes of the others distinct and the rooms
/// themselves well formed.
pub proof fn lemma_live_rooms_keep_invariant(rooms: Seq<RoomState>)
    requires
        codes_distinct(rooms),
    ensures
        codes_distinct(live_rooms(rooms)),
        forall|k: int|
            0 <= k < live_rooms(rooms).len() ==> rooms.contains(#[trigger] live_rooms(rooms)[k])
                && live_rooms(rooms)[k]@.is_live(),
{
    let at = lemma_live_rooms_embed(rooms);
    let kept = live_rooms(rooms);
    assert forall|i: int, j: int| 0 <= i < j < kept.len() implies (#[trigger] kept[i]).join_code@
        != (#[trigger] kept[j]).join_code@ by {
        assert(rooms[at[i]] == kept[i]);
        assert(rooms[at[j]] == kept[j]);
    }
    assert forall|k: int| 0 <= k < kept.len() implies rooms.contains(#[trigger] kept[k])
        && kept[k]@.is_live() by {
        assert(rooms[at[k]] == kept[k]);
        rooms.lemma_filter_pred(|r: RoomState| r@.is_live(), k);
    }
}

/// Whether a connection still serves at least one player of the room.
pub fn room_is_live(room: &RoomState) -> (r: bool)
    ensures
        r == room@.is_live(),
{
    // Room is still alive if at least one player has a valid connection
    room.host_player.connection_alive || (room.other_player.is_some()
        && room.other_player.as_ref().unwrap().connection_alive)
}

/// One more room looked at: it joins the live rooms if it is live.
proof fn lemma_live_rooms_next(all: Seq<RoomState>, seen: int)
    requires
        0 <= seen < all.len(),
    ensures
        live_rooms(all.subrange(0, seen + 1)) == if all[seen]@.is_live() {
            live_rooms(all.subrange(0, seen)).push(all[seen])
        } else {
            live_rooms(all.subrange(0, seen))
        },
{
    reveal(Seq::filter);
    assert(all.subrange(0, seen + 1).drop_last() =~= all.subrange(0, seen));
}

/// Drops every room that no connection serves any more. The others stay, in
/// the order they had.
pub fn remove_empty_rooms(rooms: &mut Vec<RoomState>)
    ensures
        final(rooms)@ == live_rooms(old(rooms)@),
{
    let ghost all = rooms@;
    let ghost mut seen: int = 0;
    let mut i: usize = 0;
    proof {
        reveal(Seq::filter);
        assert(all.subrange(0, 0) =~= Seq::<RoomState>::empty());
        assert(rooms@ =~= live_rooms(all.subrange(0, 0)) + all.subrange(0, all.len() as int));
    }
    while i < rooms.len()
        invariant
            0 <= seen <= all.len(),
            i == live_rooms(all.subrange(0, seen)).len(),
            rooms@ == live_rooms(all.subrange(0, seen)) + all.subrange(seen, all.len() as int),
        decreases all.len() - seen,
    {
        let ghost kept = live_rooms(all.subrange(0, seen));
        proof {
            lemma_live_rooms_next(all, seen);
            assert(rooms@[i as int] == all[seen]);
        }
        if room_is_live(&rooms[i]) {
            proof {
                assert(rooms@ =~= kept.push(all[seen]) + all.subrange(seen + 1, all.len() as int));
            }
            i = i + 1;
        } else {
            rooms.remove(i);
            proof {
                assert(rooms@ =~= kept + all.subrange(seen + 1, all.len() as int));
            }
        }
        proof {
            seen = seen + 1;
        }
    }
    proof {
        assert(all.subrange(0, all.len() as int) =~= all);
        assert(rooms@ =~= live_rooms(all));
    }
}

impl RoomRegistry {
    /// Every room is well formed and no two rooms share a code.
    pub open spec fn wf(&self) -> bool {
        &&& codes_distinct(self.rooms@)
        &&& forall|i: int| 0 <= i < self.rooms@.len() ==> (#[trigger] self.rooms@[i])@.wf()
    }

    /// Whether the registry is well formed; see `RoomRegistry::wf`.
    pub fn is_well_formed(&self) -> (r: bool)
        ensures
            r == self.wf(),
    {
        let n = self.rooms.len();
        let mut j: usize = 0;
        while j < n
            invariant
                n == self.rooms@.len(),
                j <= n,
                forall|a: int, b: int|
                    0 <= a < b < j ==> (#[trigger] self.rooms@[a]).join_code@ != (
                    #[trigger] self.rooms@[b]).join_code@,
                forall|k: int| 0 <= k < j ==> (#[trigger] self.rooms@[k])@.wf(),
            decreases n - j,
        {
            if !self.rooms[j].is_well_formed() {
                return false;
            }
            // The room must be the first one under its own code.
            match self.find_room(self.rooms[j].join_code.as_str()) {
                Some(i) => {
                    if i != j {
                        return false;
                    }
                },
                None => {
                    return false;
                },
            }
            j = j + 1;
        }
        true
    }

    /// A registry without rooms.
    pub fn new() -> (r: RoomRegistry)
        ensures
            r.rooms@.len() == 0,
            r.wf(),
    {
        RoomRegistry { rooms: Vec::new() }
    }

    /// The place of the first room with the given code, if there is one.
    pub fn find_room(&self, room_code: &str) -> (r: Option<usize>)
        ensures
            match r {
                Some(i) => {
                    &&& i < self.rooms@.len()
                    &&& self.rooms@[i as int].join_code@ == room_code@
                    &&& forall|k: int|
                        0 <= k < i ==> (#[trigger] self.rooms@[k]).join_code@ != room_code@
                },
                None => code_is_free(self.rooms@, room_code@),
            },
    {
        let mut i: usize = 0;
        while i < self.rooms.len()
            invariant
                i <= self.rooms.len(),
                forall|k: int| 0 <= k < i ==> (#[trigger] self.rooms@[k]).join_code@ != room_code@,
            decreases self.rooms.len() - i,
        {
            if same_text(self.rooms[i].join_code.as_str(), room_code) {
                return Some(i);
            }
            i = i + 1;
        }
        None
    }

    /// Makes a room for a host who has just connected at time `now`, and
    /// answers its place. Before that, every room that nobody is connected to
    /// is dropped. A room that has the same code is replaced by the new one.
    pub fn create_room(
        &mut self,
        code: String,
        host_info: Option<PlayerInfo>,
        secret: String,
        options: GameOptions,
        now: u64,
    ) -> (place: usize)
        requires
            old(self).wf(),
            is_word(secret@),
        ensures
            final(self).wf(),
            place < final(self).rooms@.len(),
            final(self).rooms@[place as int]@ == new_room(
                code@,
                Player::new_view(host_info, now),
                secret@,
                options@,
            ),
            ({
                let kept = live_rooms(old(self).rooms@);
                if code_is_free(kept, code@) {
                    &&& place == kept.len()
                    &&& final(self).rooms@.len() == kept.len() + 1
                    &&& final(self).rooms@.subrange(0, kept.len() as int) == kept
                } else {
                    &&& final(self).rooms@.len() == kept.len()
                    &&& kept[place as int].join_code@ == code@
                    &&& forall|i: int|
                        0 <= i < kept.len() && i != place ==> final(self).rooms@[i] == kept[i]
                }
            }),
    {
        // Before creating a new room, check if some rooms can be deleted
        proof {
            lemma_live_rooms_keep_invariant(self.rooms@);
        }
        remove_empty_rooms(&mut self.rooms);

        let mut new_room = RoomState {
            game_state: get_initial_game_state(secret),
            host_player: Player::new(host_info, now),
            other_player: None,
            join_code: code.clone(),
            game_started: false,
            game_options: options,
        };
        send_message(&mut new_room.host_player, "room-code", &MessageContent::Text(code));

        let found = self.find_room(new_room.join_code.as_str());
        match found {
            Some(i) => {
                // The new room takes the place of the one that had its code.
                self.rooms.set(i, new_room);
                i
            },
            None => {
                let place = self.rooms.len();
                self.rooms.push(new_room);
                place
            },
        }
    }

    /// Lets a second player, connected at time `now`, into the room with the
    /// given code, and answers the room's place. There must be such a room and
    /// its second place must be free; nothing changes otherwise. The host is
    /// told of the newcomer and the first match starts; see `RoomView::joined`.
    pub fn join_room(&mut self, room_code: &str, info: Option<PlayerInfo>, now: u64) -> (r: Result<
        usize,
        JoinError,
    >)
        requires
            old(self).wf(),
        ensures
            final(self).wf(),
            final(self).rooms@.len() == old(self).rooms@.len(),
            match r {
                Ok(place) => {
                    &&& place < old(self).rooms@.len()
                    &&& old(self).rooms@[place as int].join_code@ == room_code@
                    &&& old(self).rooms@[place as int].other_player is None
                    &&& final(self).rooms@[place as int]@ == old(self).rooms@[place as int]@.joined(
                        Player::new_view(info, now),
                    )
                    &&& forall|i: int|
                        0 <= i < old(self).rooms@.len() && i != place ==> final(self).rooms@[i]
                            == old(self).rooms@[i]
                },
                Err(JoinError::NoSuchRoom) => {
                    &&& code_is_free(old(self).rooms@, room_code@)
                    &&& final(self).rooms@ == old(self).rooms@
                },
                Err(JoinError::RoomFull) => {
                    &&& exists|i: int|
                        0 <= i < old(self).rooms@.len() && (
                        #[trigger] old(self).rooms@[i]).join_code@ == room_code@
                            && old(self).rooms@[i].other_player is Some
                    &&& final(self).rooms@ == old(self).rooms@
                },
            },
    {
        let place = match self.find_room(room_code) {
            Some(i) => i,
            None => {
                return Err(JoinError::NoSuchRoom);
            },
        };
        if self.rooms[place].other_player.is_some() {
            // Room already full
            return Err(JoinError::RoomFull);
        }
        let room = &mut self.rooms[place];
        let mut player = Player::new(info, now);
        if !room.host_player.ready_to_restart {
            send_message(&mut player, "wait-for-host", &MessageContent::Nothing);
        }
        room.other_player = Some(player);  // Add player to room
        // Tell the other player
        send_message(&mut room.host_player, "other-player-connected", &MessageContent::Nothing);
        game_start(room);  // Start the game
        Ok(place)
    }
}

} // verus!
