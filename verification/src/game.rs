//! The turn and phase state machine of a room.
//!
//! A match runs in turns. In each turn both players submit a guess, then
//! both choose the position of the opponent's guess that will be hidden, then
//! each is sent the feedback for their own guess. A turn in which somebody
//! finds the secret, or the last turn that a match allows, ends the match: the
//! secret is revealed and the room waits until both players ask for the next
//! one. Every step waits for both players, in whichever order they come.

use vstd::prelude::*;
use vstd::string::*;
use crate::hints::{get_hints, get_hints_strings, hint_names, hints_of};
use crate::messages::{
    MessageContent, Winner, envelope, json_string_text, list_json, other_word_json, send_message,
    send_message_to_both_players,
};
use crate::room::{GamePhase, GameState, GameView, Player, PlayerView, RoomState, RoomView};
use crate::text::{lemma_texts_push, opt_text, same_text};
use crate::words::{MAX_WORD_COUNT, WORD_LENGTH, check_word, is_word};

verus! {

impl PlayerView {
    /// The player at the start of a turn: no guess and no position stored.
    pub open spec fn cleared(self) -> PlayerView {
        PlayerView { typed_word_this_turn: None, letter_sabotaged_this_turn: None, ..self }
    }

    /// The player after a turn's guess has been counted.
    pub open spec fn with_past_word(self, word: Seq<char>) -> PlayerView {
        PlayerView { past_words: self.past_words.push(word), ..self }
    }
}

/// The state of a match before its first turn.
pub open spec fn initial_game(secret: Seq<char>) -> GameView {
    GameView { word_to_guess: secret, current_turn: -1, current_phase: GamePhase::Typing }
}

/// The state that replaces a finished match: a new secret, no turn yet, and
/// the room waiting for both players to be ready.
pub open spec fn next_game(secret: Seq<char>) -> GameView {
    GameView { word_to_guess: secret, current_turn: -1, current_phase: GamePhase::Restarting }
}

/// What the host is told after a turn's guesses: the host's guess is looked
/// at first, so that when both players find the secret in the same turn the
/// host is the one who has won.
pub open spec fn host_verdict(
    secret: Seq<char>,
    host_word: Seq<char>,
    other_word: Seq<char>,
) -> Winner {
    if host_word == secret {
        Winner::You
    } else if other_word == secret {
        Winner::Other
    } else {
        Winner::Nobody
    }
}

/// What the second player is told after a turn's guesses.
pub open spec fn other_verdict(
    secret: Seq<char>,
    host_word: Seq<char>,
    other_word: Seq<char>,
) -> Winner {
    if host_word == secret {
        Winner::Other
    } else if other_word == secret {
        Winner::You
    } else {
        Winner::Nobody
    }
}

impl RoomView {
    /// The room at the start of the next turn.
    pub open spec fn start_turn(self) -> RoomView {
        RoomView {
            game_state: GameView {
                current_turn: self.game_state.current_turn + 1,
                current_phase: GamePhase::Typing,
                ..self.game_state
            },
            host_player: self.host_player.cleared(),
            other_player: match self.other_player {
                Some(o) => Some(o.cleared()),
                None => None,
            },
            ..self
        }
    }

    /// The room once its first match has started.
    pub open spec fn game_start(self) -> RoomView {
        RoomView { game_started: true, ..self }.start_turn()
    }

    /// Whether both players have submitted a guess in this turn.
    pub open spec fn both_typed(self) -> bool {
        &&& self.other_player is Some
        &&& self.host_player.typed_word_this_turn is Some
        &&& self.other_player->0.typed_word_this_turn is Some
    }

    /// Whether both players have chosen a position in this turn.
    pub open spec fn both_sabotaged(self) -> bool {
        &&& self.other_player is Some
        &&& self.host_player.letter_sabotaged_this_turn is Some
        &&& self.other_player->0.letter_sabotaged_this_turn is Some
    }

    /// Whether both players have asked for the next match.
    pub open spec fn both_ready(self) -> bool {
        &&& self.other_player is Some
        &&& self.host_player.ready_to_restart
        &&& self.other_player->0.ready_to_restart
    }

    /// Whether the guesses of this turn end the match: one of them is the
    /// secret, or the turn is the last one.
    pub open spec fn match_over(self) -> bool {
        ||| self.host_player.typed_word_this_turn->0 == self.game_state.word_to_guess
        ||| self.other_player->0.typed_word_this_turn->0 == self.game_state.word_to_guess
        ||| self.game_state.current_turn == MAX_WORD_COUNT - 1
    }

    /// The room after `check_for_type_end`. Nothing happens until both guesses
    /// are in. Then each player is sent the opponent's guess with the outcome,
    /// and each guess goes into its player's history. If the match is over,
    /// both are sent the secret and a new match with `next_secret` waits for
    /// them; if not, the room waits for the sabotaged positions.
    pub open spec fn type_end(self, next_secret: Seq<char>) -> RoomView {
        if !self.both_typed() {
            self
        } else {
            let secret = self.game_state.word_to_guess;
            let host = self.host_player;
            let other = self.other_player->0;
            let host_word = host.typed_word_this_turn->0;
            let other_word = other.typed_word_this_turn->0;
            let told = RoomView {
                game_state: GameView { current_phase: GamePhase::Sabotaging, ..self.game_state },
                host_player: host.with_message(
                    envelope(
                        "other-player-word"@,
                        other_word_json(other_word, host_verdict(secret, host_word, other_word)),
                    ),
                ).with_past_word(host_word),
                other_player: Some(
                    other.with_message(
                        envelope(
                            "other-player-word"@,
                            other_word_json(
                                host_word,
                                other_verdict(secret, host_word, other_word),
                            ),
                        ),
                    ).with_past_word(other_word),
                ),
                ..self
            };
            if self.match_over() {
                RoomView {
                    game_state: next_game(next_secret),
                    ..told.with_message_to_both(envelope("solution"@, json_string_text(secret)))
                }
            } else {
                told
            }
        }
    }

    /// The room after `check_for_sabotage_end`. Nothing happens until both
    /// positions are in. Then each player is sent the feedback for their own
    /// guess, with the position that the opponent chose shown red, and the
    /// next turn starts.
    pub open spec fn sabotage_end(self) -> RoomView {
        if !self.both_sabotaged() {
            self
        } else {
            let secret = self.game_state.word_to_guess;
            let host = self.host_player;
            let other = self.other_player->0;
            RoomView {
                host_player: host.with_message(
                    envelope(
                        "word-hints"@,
                        list_json(
                            hint_names(
                                hints_of(
                                    secret,
                                    host.typed_word_this_turn->0,
                                    other.letter_sabotaged_this_turn->0 as int,
                                ),
                            ),
                        ),
                    ),
                ),
                other_player: Some(
                    other.with_message(
                        envelope(
                            "word-hints"@,
                            list_json(
                                hint_names(
                                    hints_of(
                                        secret,
                                        other.typed_word_this_turn->0,
                                        host.letter_sabotaged_this_turn->0 as int,
                                    ),
                                ),
                            ),
                        ),
                    ),
                ),
                ..self
            }.start_turn()
        }
    }

    /// The room after a player's readiness has been noted. Nothing happens
    /// until both are ready. Then both are told that the match restarts, their
    /// readiness is forgotten and the first turn starts.
    pub open spec fn restart_end(self) -> RoomView {
        if !self.both_ready() {
            self
        } else {
            let told = self.with_message_to_both(envelope("restart"@, "null"@));
            RoomView {
                host_player: PlayerView { ready_to_restart: false, ..told.host_player },
                other_player: Some(
                    PlayerView { ready_to_restart: false, ..told.other_player->0 },
                ),
                ..told
            }.start_turn()
        }
    }
}

/// The state of a match before its first turn, with the given secret.
pub fn get_initial_game_state(secret: String) -> (g: GameState)
    ensures
        g@ == initial_game(secret@),
{
    GameState { current_turn: -1, current_phase: GamePhase::Typing, word_to_guess: secret }
}

/// Starts the next turn: the counter goes up by one, the room waits for
/// guesses, and what each player typed and chose in the last turn is cleared.
pub fn start_turn(room: &mut RoomState)
    requires
        old(room).other_player is Some,
        old(room).game_state.current_turn < i64::MAX,
    ensures
        final(room)@ == old(room)@.start_turn(),
        old(room)@.wf() && old(room).game_started && old(room).game_state.current_turn
            < MAX_WORD_COUNT - 1 ==> final(room)@.wf(),
{
    room.game_state.current_turn += 1;
    room.game_state.current_phase = GamePhase::Typing;
    room.host_player.typed_word_this_turn = None;
    room.host_player.letter_sabotaged_this_turn = None;
    match &mut room.other_player {
        Some(other_player) => {
            other_player.typed_word_this_turn = None;
            other_player.letter_sabotaged_this_turn = None;
        },
        None => {},
    }
}

/// Marks the room as started and starts the first turn.
pub fn game_start(room: &mut RoomState)
    requires
        old(room).other_player is Some,
        old(room).game_state.current_turn < i64::MAX,
    ensures
        final(room)@ == old(room)@.game_start(),
        old(room)@.wf() && old(room).game_state.current_turn < MAX_WORD_COUNT - 1
            ==> final(room)@.wf(),
{
    room.game_started = true;
    start_turn(room);
}

/// The outcome of a turn's guesses as each player is told it: first what the
/// host is told, then what the second player is told.
pub fn judge_guesses(secret: &str, host_word: &str, other_word: &str) -> (r: (Winner, Winner))
    ensures
        r.0 == host_verdict(secret@, host_word@, other_word@),
        r.1 == other_verdict(secret@, host_word@, other_word@),
{
    if same_text(host_word, secret) {
        (Winner::You, Winner::Other)
    } else if same_text(other_word, secret) {
        (Winner::Other, Winner::You)
    } else {
        (Winner::Nobody, Winner::Nobody)
    }
}

/// Ends the typing phase once both players have submitted a guess; see
/// `RoomView::type_end`. `next_secret` becomes the secret of the next match if
/// this turn ends the current one.
pub fn check_for_type_end(room: &mut RoomState, next_secret: &str)
    requires
        old(room).other_player is Some,
    ensures
        final(room)@ == old(room)@.type_end(next_secret@),
        old(room)@.wf() && is_word(next_secret@) ==> final(room)@.wf(),
{
    // Check that both players entered a word
    if room.get_player(false).typed_word_this_turn.is_none() || room.get_player(
        true,
    ).typed_word_this_turn.is_none() {
        return ;
    }
    let secret = room.game_state.word_to_guess.clone();
    let host_word = room.get_player(true).typed_word_this_turn.as_ref().unwrap().clone();
    let other_word = room.get_player(false).typed_word_this_turn.as_ref().unwrap().clone();
    let (for_host, for_other) = judge_guesses(
        secret.as_str(),
        host_word.as_str(),
        other_word.as_str(),
    );
    let last_turn = room.game_state.current_turn == MAX_WORD_COUNT as i64 - 1;

    // Go to next phase
    room.game_state.current_phase = GamePhase::Sabotaging;

    // Send other words
    send_message(
        room.get_player(true),
        "other-player-word",
        &MessageContent::OtherWord { word: other_word, who_wins: for_host },
    );
    send_message(
        room.get_player(false),
        "other-player-word",
        &MessageContent::OtherWord { word: host_word, who_wins: for_other },
    );

    let record = |player: &mut Player, _other: &mut Player|
        requires
            old(player).typed_word_this_turn is Some,
        ensures
            final(player)@ == old(player)@.with_past_word(old(player)@.typed_word_this_turn->0),
            *final(_other) == *old(_other),
        {
            let word = player.typed_word_this_turn.as_ref().unwrap().clone();
            proof {
                lemma_texts_push(player.past_words@, word);
            }
            player.past_words.push(word);
        };
    room.do_for_all_players(&record);

    if last_turn || for_host == Winner::You || for_host == Winner::Other {
        send_message_to_both_players(room, "solution", &MessageContent::Text(secret));
        room.game_state = GameState {
            word_to_guess: next_secret.to_owned(),
            current_turn: -1,
            current_phase: GamePhase::Restarting,
        };
    }
}

/// Ends the sabotage phase once both players have chosen a position; see
/// `RoomView::sabotage_end`.
pub fn check_for_sabotage_end(room: &mut RoomState)
    requires
        old(room).other_player is Some,
        old(room)@.wf(),
    ensures
        final(room)@ == old(room)@.sabotage_end(),
        old(room).game_started && old(room).game_state.current_phase == GamePhase::Sabotaging
            ==> final(room)@.wf(),
{
    // Check that both players sabotaged
    if room.get_player(false).letter_sabotaged_this_turn.is_none() || room.get_player(
        true,
    ).letter_sabotaged_this_turn.is_none() {
        return ;
    }
    // Send hints
    let word_to_guess = room.game_state.word_to_guess.clone();
    let send_hints = |player: &mut Player, other: &mut Player|
        requires
            is_word(word_to_guess@),
            old(player)@.typed_word_this_turn matches Some(w) && is_word(w),
            old(other).letter_sabotaged_this_turn matches Some(i) && i < WORD_LENGTH,
        ensures
            final(player)@ == old(player)@.with_message(
                envelope(
                    "word-hints"@,
                    list_json(
                        hint_names(
                            hints_of(
                                word_to_guess@,
                                old(player)@.typed_word_this_turn->0,
                                old(other).letter_sabotaged_this_turn->0 as int,
                            ),
                        ),
                    ),
                ),
            ),
            *final(other) == *old(other),
        {
            let hints = get_hints(
                word_to_guess.as_str(),
                player.typed_word_this_turn.as_ref().unwrap().as_str(),
                other.letter_sabotaged_this_turn.unwrap() as usize,
            );
            match hints {
                Ok(shown) => {
                    send_message(
                        player,
                        "word-hints",
                        &MessageContent::List(get_hints_strings(shown)),
                    );
                },
                // Two words and a position inside them always have hints.
                Err(_) => {},
            }
        };
    room.do_for_all_players(&send_hints);

    start_turn(room);  // Next turn
}

/// What the content of a client's message holds, as far as the game reads it.
#[derive(Clone, PartialEq, Eq, Debug)]
pub struct MessageFields {
    /// The string under `word`, if there is one.
    pub word: Option<String>,
    /// The non-negative whole number under `id`, if there is one.
    pub id: Option<u64>,
}

/// What the word list has to say about a message: whether the word it
/// carries is on the list, and a word drawn from the list that becomes the
/// secret of the next match if the message ends the current one.
#[derive(Clone, PartialEq, Eq, Debug)]
pub struct LexiconAnswer {
    /// Whether the guessed word is on the list.
    pub guess_is_listed: bool,
    /// The secret of the next match.
    pub next_secret: String,
}

/// The text of an answer of `handle_one_message`.
pub open spec fn answer_text(r: Result<(), String>) -> Result<(), Seq<char>> {
    match r {
        Ok(_) => Ok(()),
        Err(e) => Err(e@),
    }
}

impl RoomView {
    /// The room after the given player has submitted `word`. A word that is
    /// not on the list, or is no word of the game at all, is turned down: the
    /// player is told so and may try again. Any other word is stored as the
    /// player's guess for this turn, and the typing phase ends if it was the
    /// second one.
    pub open spec fn word_received(
        self,
        is_host: bool,
        word: Seq<char>,
        guess_is_listed: bool,
        next_secret: Seq<char>,
    ) -> RoomView {
        if guess_is_listed && is_word(word) {
            self.with_player(
                is_host,
                PlayerView { typed_word_this_turn: Some(word), ..self.player(is_host) },
            ).type_end(next_secret)
        } else {
            self.with_player(
                is_host,
                self.player(is_host).with_message(envelope("word-rejected"@, "null"@)),
            )
        }
    }

    /// The room after the given player has chosen position `id`.
    pub open spec fn sabotage_received(self, is_host: bool, id: u64) -> RoomView {
        self.with_player(
            is_host,
            PlayerView { letter_sabotaged_this_turn: Some(id), ..self.player(is_host) },
        ).sabotage_end()
    }

    /// The room after the given player has asked for the next match.
    pub open spec fn ready_received(self, is_host: bool) -> RoomView {
        self.with_player(
            is_host,
            PlayerView { ready_to_restart: true, ..self.player(is_host) },
        ).restart_end()
    }

    /// What `handle_one_message` answers and what it leaves of the room.
    /// Before the first match has started only `ping` is taken. Each other type
    /// is taken in its own phase only and needs its field; a position must lie
    /// inside the word. Whatever is turned down with an error leaves the room as
    /// it was.
    pub open spec fn handle_message(
        self,
        msg_type: Seq<char>,
        word: Option<Seq<char>>,
        id: Option<u64>,
        is_host: bool,
        guess_is_listed: bool,
        next_secret: Seq<char>,
    ) -> (RoomView, Result<(), Seq<char>>) {
        let phase = self.game_state.current_phase;
        if !self.game_started && msg_type != "ping"@ {
            (self, Err("Message sent before game started"@))
        } else if msg_type == "ping"@ {
            (self, Ok(()))
        } else if msg_type == "word"@ {
            if phase != GamePhase::Typing {
                (self, Err("Wrong phase"@))
            } else if word is None {
                (self, Err("Wrong type, expected string for field word"@))
            } else {
                (self.word_received(is_host, word->0, guess_is_listed, next_secret), Ok(()))
            }
        } else if msg_type == "sabotage"@ {
            if phase != GamePhase::Sabotaging {
                (self, Err("Wrong phase"@))
            } else if id is None {
                (self, Err("Wrong type, expected number for field id"@))
            } else if id->0 >= WORD_LENGTH {
                (self, Err("Letter index out of range"@))
            } else {
                (self.sabotage_received(is_host, id->0), Ok(()))
            }
        } else if msg_type == "restart-ready"@ {
            if phase != GamePhase::Restarting {
                (self, Err("Wrong phase"@))
            } else {
                (self.ready_received(is_host), Ok(()))
            }
        } else {
            (self, Err("Unknown message type "@ + msg_type))
        }
    }
}

/// Ends the wait for the next match once both players are ready; see
/// `RoomView::restart_end`.
pub fn check_for_restart(room: &mut RoomState)
    requires
        old(room).other_player is Some,
        old(room).game_state.current_turn < i64::MAX,
    ensures
        final(room)@ == old(room)@.restart_end(),
        old(room)@.wf() && old(room).game_started && old(room).game_state.current_turn
            < MAX_WORD_COUNT - 1 ==> final(room)@.wf(),
{
    if !room.get_player(false).ready_to_restart || !room.get_player(true).ready_to_restart {
        return ;
    }
    send_message_to_both_players(room, "restart", &MessageContent::Nothing);
    room.get_player(true).ready_to_restart = false;
    room.get_player(false).ready_to_restart = false;
    start_turn(room);
}

/// Applies one message of a player to the room; see
/// `RoomView::handle_message`.
pub fn handle_one_message(
    room: &mut RoomState,
    msg_type: &str,
    msg_contents: &MessageFields,
    is_host: bool,
    lexicon: &LexiconAnswer,
) -> (r: Result<(), String>)
    requires
        old(room)@.wf(),
        is_word(lexicon.next_secret@),
    ensures
        final(room)@ == old(room)@.handle_message(
            msg_type@,
            opt_text(msg_contents.word),
            msg_contents.id,
            is_host,
            lexicon.guess_is_listed,
            lexicon.next_secret@,
        ).0,
        answer_text(r) == old(room)@.handle_message(
            msg_type@,
            opt_text(msg_contents.word),
            msg_contents.id,
            is_host,
            lexicon.guess_is_listed,
            lexicon.next_secret@,
        ).1,
        final(room)@.wf(),
{
    if !room.game_started && !same_text(msg_type, "ping") {
        // Do nothing if room hasn't even started
        return Err(String::from_str("Message sent before game started"));
    }
    if same_text(msg_type, "ping") {
        // Nothing to do
    } else if same_text(msg_type, "word") {
        if room.game_state.current_phase != GamePhase::Typing {
            return Err(String::from_str("Wrong phase"));
        }
        match &msg_contents.word {
            None => {
                return Err(String::from_str("Wrong type, expected string for field word"));
            },
            Some(word) => {
                if lexicon.guess_is_listed && check_word(word.as_str()) {
                    room.get_player(is_host).typed_word_this_turn = Some(word.clone());
                    check_for_type_end(room, lexicon.next_secret.as_str());
                } else {
                    send_message(
                        room.get_player(is_host),
                        "word-rejected",
                        &MessageContent::Nothing,
                    );
                }
            },
        }
    } else if same_text(msg_type, "sabotage") {
        if room.game_state.current_phase != GamePhase::Sabotaging {
            return Err(String::from_str("Wrong phase"));
        }
        match msg_contents.id {
            None => {
                return Err(String::from_str("Wrong type, expected number for field id"));
            },
            Some(id) => {
                if id >= WORD_LENGTH {
                    return Err(String::from_str("Letter index out of range"));
                }
                room.get_player(is_host).letter_sabotaged_this_turn = Some(id);
                check_for_sabotage_end(room);
            },
        }
    } else if same_text(msg_type, "restart-ready") {
        if room.game_state.current_phase != GamePhase::Restarting {
            return Err(String::from_str("Wrong phase"));
        }
        room.get_player(is_host).ready_to_restart = true;
        check_for_restart(room);
    } else {
        let mut text = String::from_str("Unknown message type ");
        text.append(msg_type);
        return Err(text);
    }
    Ok(())
}

} // verus!
