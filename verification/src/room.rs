//! A room, its two players and the state of their match, each with the
//! mathematical value that contracts speak of.

use vstd::prelude::*;
use vstd::string::*;
use crate::text::{opt_text, texts};
use crate::words::{MAX_WORD_COUNT, WORD_LENGTH, check_word, is_word};

verus! {

/// What the room is waiting for.
#[derive(Clone, Copy, PartialEq, Eq, Debug, Structural)]
pub enum GamePhase {
    /// Each player is to submit a guess.
    Typing,
    /// Each player is to choose the position of the opponent's guess to hide.
    Sabotaging,
    /// The match is over; each player is to say that they are ready for the next.
    Restarting,
}

/// The match in progress.
#[derive(Clone, PartialEq, Eq, Debug)]
pub struct GameState {
    /// The secret word of this match.
    pub word_to_guess: String,
    /// Number of the current turn; -1 until the first turn starts.
    pub current_turn: i64,
    /// What the room is waiting for.
    pub current_phase: GamePhase,
}

/// What a player has told about themselves.
#[derive(Clone, PartialEq, Eq, Debug)]
pub struct PlayerInfo {
    /// Name under which the player appears.
    pub name: String,
}

/// What the room knows about one of its players.
#[derive(Clone, PartialEq, Eq, Debug)]
pub struct Player {
    /// `None` until the player has sent it.
    pub player_info: Option<PlayerInfo>,
    /// Messages waiting to go out, oldest first.
    pub messages_to_send: Vec<String>,
    /// Whether a connection currently serves this player.
    pub connection_alive: bool,
    /// When the player was last heard from, in milliseconds on the server's clock.
    pub last_ping_time: u64,
    /// The guess submitted in the current turn.
    pub typed_word_this_turn: Option<String>,
    /// The position chosen in the current turn to be hidden from the opponent.
    pub letter_sabotaged_this_turn: Option<u64>,
    /// Every guess that counted, oldest first.
    pub past_words: Vec<String>,
    /// Whether the player has asked for the next match.
    pub ready_to_restart: bool,
}

/// How a room was configured when it was created.
#[derive(Clone, PartialEq, Eq, Debug)]
pub struct GameOptions {
    /// Language of the word list that secrets and guesses come from.
    pub language: String,
    /// Difficulty chosen by the host.
    pub difficulty: u8,
    /// Whether sabotage is played.
    pub attack_mode: bool,
}

/// A room: one match and up to two players.
#[derive(Clone, PartialEq, Eq, Debug)]
pub struct RoomState {
    /// The match in progress.
    pub game_state: GameState,
    /// The player who created the room.
    pub host_player: Player,
    /// The player who joined it, once there is one.
    pub other_player: Option<Player>,
    /// The code under which the room is found.
    pub join_code: String,
    /// Whether the first match has started.
    pub game_started: bool,
    /// How the room was configured.
    pub game_options: GameOptions,
}

/// The value of a `GameState`.
#[verifier::ext_equal]
pub struct GameView {
    pub word_to_guess: Seq<char>,
    pub current_turn: int,
    pub current_phase: GamePhase,
}

/// The value of a `Player`.
#[verifier::ext_equal]
pub struct PlayerView {
    pub name: Option<Seq<char>>,
    pub messages_to_send: Seq<Seq<char>>,
    pub connection_alive: bool,
    pub last_ping_time: u64,
    pub typed_word_this_turn: Option<Seq<char>>,
    pub letter_sabotaged_this_turn: Option<u64>,
    pub past_words: Seq<Seq<char>>,
    pub ready_to_restart: bool,
}

/// The value of a `GameOptions`.
#[verifier::ext_equal]
pub struct OptionsView {
    pub language: Seq<char>,
    pub difficulty: u8,
    pub attack_mode: bool,
}

/// The value of a `RoomState`.
#[verifier::ext_equal]
pub struct RoomView {
    pub game_state: GameView,
    pub host_player: PlayerView,
    pub other_player: Option<PlayerView>,
    pub join_code: Seq<char>,
    pub game_started: bool,
    pub game_options: OptionsView,
}

impl View for GameState {
    type V = GameView;

    open spec fn view(&self) -> GameView {
        GameView {
            word_to_guess: self.word_to_guess@,
            current_turn: self.current_turn as int,
            current_phase: self.current_phase,
        }
    }
}

impl View for Player {
    type V = PlayerView;

    open spec fn view(&self) -> PlayerView {
        PlayerView {
            name: match self.player_info {
                Some(info) => Some(info.name@),
                None => None,
            },
            messages_to_send: texts(self.messages_to_send@),
            connection_alive: self.connection_alive,
            last_ping_time: self.last_ping_time,
            typed_word_this_turn: opt_text(self.typed_word_this_turn),
            letter_sabotaged_this_turn: self.letter_sabotaged_this_turn,
            past_words: texts(self.past_words@),
            ready_to_restart: self.ready_to_restart,
        }
    }
}

impl View for GameOptions {
    type V = OptionsView;

    open spec fn view(&self) -> OptionsView {
        OptionsView {
            language: self.language@,
            difficulty: self.difficulty,
            attack_mode: self.attack_mode,
        }
    }
}

/// The value of an optional player.
pub open spec fn opt_player_view(p: Option<Player>) -> Option<PlayerView> {
    match p {
        Some(player) => Some(player@),
        None => None,
    }
}

impl View for RoomState {
    type V = RoomView;

    open spec fn view(&self) -> RoomView {
        RoomView {
            game_state: self.game_state@,
            host_player: self.host_player@,
            other_player: opt_player_view(self.other_player),
            join_code: self.join_code@,
            game_started: self.game_started,
            game_options: self.game_options@,
        }
    }
}

impl PlayerView {
    /// What holds of every player: a stored guess is a word, a stored
    /// position lies inside it, and no position is stored without a guess.
    pub open spec fn wf(self) -> bool {
        &&& self.typed_word_this_turn matches Some(w) ==> is_word(w)
        &&& self.letter_sabotaged_this_turn matches Some(i) ==> i < WORD_LENGTH
        &&& self.letter_sabotaged_this_turn is Some ==> self.typed_word_this_turn is Some
    }
}

impl RoomView {
    /// What holds of every room that the functions of this library have
    /// made: the secret is a word, the turn counter stays within a match,
    /// a started room has both players, and the room waits for positions only
    /// once both guesses are in.
    pub open spec fn wf(self) -> bool {
        &&& is_word(self.game_state.word_to_guess)
        &&& -1 <= self.game_state.current_turn < MAX_WORD_COUNT
        &&& self.host_player.wf()
        &&& self.other_player matches Some(o) ==> o.wf()
        &&& self.game_started ==> self.other_player is Some
        &&& !self.game_started ==> self.game_state.current_turn == -1
        &&& self.game_state.current_phase == GamePhase::Restarting ==> self.game_state.current_turn
            == -1
        &&& self.game_state.current_phase == GamePhase::Sabotaging ==> {
            &&& self.game_state.current_turn < MAX_WORD_COUNT - 1
            &&& self.other_player is Some
            &&& self.host_player.typed_word_this_turn is Some
            &&& self.other_player->0.typed_word_this_turn is Some
        }
    }

    /// The player in the host's slot or in the other one.
    pub open spec fn player(self, is_host: bool) -> PlayerView
        recommends
            is_host || self.other_player is Some,
    {
        if is_host {
            self.host_player
        } else {
            self.other_player->0
        }
    }

    /// The room with the given player in the host's slot or in the other one.
    pub open spec fn with_player(self, is_host: bool, p: PlayerView) -> RoomView {
        if is_host {
            RoomView { host_player: p, ..self }
        } else {
            RoomView { other_player: Some(p), ..self }
        }
    }
}

impl Player {
    /// The value of a player who has just connected at time `now`: alive,
    /// with nothing queued, nothing typed and nothing played.
    pub open spec fn new_view(info: Option<PlayerInfo>, now: u64) -> PlayerView {
        PlayerView {
            name: match info {
                Some(i) => Some(i.name@),
                None => None,
            },
            messages_to_send: Seq::empty(),
            connection_alive: true,
            last_ping_time: now,
            typed_word_this_turn: None,
            letter_sabotaged_this_turn: None,
            past_words: Seq::empty(),
            ready_to_restart: false,
        }
    }

    /// A player who has just connected at time `now`.
    pub fn new(info: Option<PlayerInfo>, now: u64) -> (p: Player)
        ensures
            p.player_info == info,
            p@ == Player::new_view(info, now),
            p@.wf(),
    {
        Player {
            player_info: info,
            messages_to_send: Vec::new(),
            connection_alive: true,
            last_ping_time: now,
            past_words: Vec::with_capacity(MAX_WORD_COUNT as usize),
            typed_word_this_turn: None,
            letter_sabotaged_this_turn: None,
            ready_to_restart: false,
        }
    }

    /// Whether the player is well formed; see `PlayerView::wf`.
    pub fn is_well_formed(&self) -> (r: bool)
        ensures
            r == self@.wf(),
    {
        let word_ok = match &self.typed_word_this_turn {
            Some(word) => check_word(word.as_str()),
            None => true,
        };
        let position_ok = match self.letter_sabotaged_this_turn {
            Some(i) => i < WORD_LENGTH && self.typed_word_this_turn.is_some(),
            None => true,
        };
        word_ok && position_ok
    }
}

impl RoomState {
    /// Whether the room is well formed; see `RoomView::wf`.
    pub fn is_well_formed(&self) -> (r: bool)
        ensures
            r == self@.wf(),
    {
        let turn = self.game_state.current_turn;
        if !check_word(self.game_state.word_to_guess.as_str()) {
            return false;
        }
        if turn < -1 || turn >= MAX_WORD_COUNT as i64 {
            return false;
        }
        if !self.host_player.is_well_formed() {
            return false;
        }
        let other_typed = match &self.other_player {
            Some(other) => {
                if !other.is_well_formed() {
                    return false;
                }
                other.typed_word_this_turn.is_some()
            },
            None => {
                if self.game_started {
                    return false;
                }
                false
            },
        };
        if !self.game_started && turn != -1 {
            return false;
        }
        match self.game_state.current_phase {
            GamePhase::Typing => true,
            GamePhase::Restarting => turn == -1,
            GamePhase::Sabotaging => turn < MAX_WORD_COUNT as i64 - 1
                && self.host_player.typed_word_this_turn.is_some() && other_typed,
        }
    }

    /// The host if `get_host_player` is set, else the second player, to be
    /// read or changed in place. The second player must have joined.
    pub fn get_player(&mut self, get_host_player: bool) -> (p: &mut Player)
        requires
            get_host_player || old(self).other_player is Some,
        ensures
            *p == (if get_host_player {
                old(self).host_player
            } else {
                old(self).other_player->0
            }),
            *final(self) == (if get_host_player {
                (RoomState { host_player: *final(p), ..*old(self) })
            } else {
                (RoomState { other_player: Some(*final(p)), ..*old(self) })
            }),
            p@ == old(self)@.player(get_host_player),
            final(self)@ == old(self)@.with_player(get_host_player, final(p)@),
    {
        if get_host_player {
            &mut self.host_player
        } else {
            self.other_player.as_mut().unwrap()
        }
    }

    /// Applies `f` twice: to the host with the second player as opponent,
    /// then to the second player with the host as opponent. The second call
    /// sees what the first one left.
    pub fn do_for_all_players<F: Fn(&mut Player, &mut Player)>(&mut self, f: &F)
        requires
            old(self).other_player is Some,
            forall|host: &mut Player, other: &mut Player|
                *host == old(self).host_player && *other == old(self).other_player->0
                    ==> call_requires(f, (host, other)),
            forall|host: &mut Player, other: &mut Player, other2: &mut Player, host2: &mut Player|
                *host == old(self).host_player && *other == old(self).other_player->0
                    && call_ensures(f, (host, other), ()) && *other2 == *final(other) && *host2
                    == *final(host) ==> call_requires(f, (other2, host2)),
        ensures
            final(self).other_player is Some,
            final(self).game_state == old(self).game_state,
            final(self).join_code == old(self).join_code,
            final(self).game_started == old(self).game_started,
            final(self).game_options == old(self).game_options,
            exists|host: &mut Player, other: &mut Player, other2: &mut Player, host2: &mut Player|
                {
                    &&& *host == old(self).host_player
                    &&& *other == old(self).other_player->0
                    &&& call_ensures(f, (host, other), ())
                    &&& *other2 == *final(other)
                    &&& *host2 == *final(host)
                    &&& call_ensures(f, (other2, host2), ())
                    &&& final(self).host_player == *final(host2)
                    &&& final(self).other_player->0 == *final(other2)
                },
    {
        match &mut self.other_player {
            Some(other) => {
                f(&mut self.host_player, other);
                f(other, &mut self.host_player);
            },
            None => {},
        }
    }
}

} // verus!
