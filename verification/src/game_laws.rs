//! What holds of the state machine whatever the players send.

use vstd::prelude::*;
use vstd::string::*;
use crate::game::{host_verdict, next_game, other_verdict};
use crate::hints::{hint_names, hints_of};
use crate::messages::{Winner, envelope, json_string_text, list_json, other_word_json};
use crate::room::{GamePhase, PlayerView, RoomView};
use crate::words::{MAX_WORD_COUNT, WORD_LENGTH, is_word};

verus! {

/// The four message types that the game knows are four different texts.
pub proof fn lemma_message_types_differ()
    ensures
        "word"@ != "ping"@,
        "sabotage"@ != "ping"@,
        "sabotage"@ != "word"@,
        "restart-ready"@ != "ping"@,
        "restart-ready"@ != "word"@,
        "restart-ready"@ != "sabotage"@,
{
    reveal_strlit("ping");
    reveal_strlit("word");
    reveal_strlit("sabotage");
    reveal_strlit("restart-ready");
    assert("ping"@.len() == 4);
    assert("word"@.len() == 4);
    assert("sabotage"@.len() == 8);
    assert("restart-ready"@.len() == 13);
    assert("ping"@[0] == 'p');
    assert("word"@[0] == 'w');
}

/// A message that is answered with an error leaves the room exactly as it was.
pub proof fn lemma_error_changes_nothing(
    room: RoomView,
    msg_type: Seq<char>,
    word: Option<Seq<char>>,
    id: Option<u64>,
    is_host: bool,
    guess_is_listed: bool,
    next_secret: Seq<char>,
)
    ensures
        room.handle_message(msg_type, word, id, is_host, guess_is_listed, next_secret).1 is Err
            ==> room.handle_message(msg_type, word, id, is_host, guess_is_listed, next_secret).0
            == room,
{
}

/// While the room waits for guesses, a `sabotage` message is turned down as
/// sent in the wrong phase and changes nothing; so is a `restart-ready` one.
pub proof fn lemma_phase_guard_while_typing(
    room: RoomView,
    word: Option<Seq<char>>,
    id: Option<u64>,
    is_host: bool,
    guess_is_listed: bool,
    next_secret: Seq<char>,
)
    requires
        room.game_started,
        room.game_state.current_phase == GamePhase::Typing,
    ensures
        room.handle_message("sabotage"@, word, id, is_host, guess_is_listed, next_secret) == (
            room,
            Err::<(), Seq<char>>("Wrong phase"@),
        ),
        room.handle_message("restart-ready"@, word, id, is_host, guess_is_listed, next_secret) == (
            room,
            Err::<(), Seq<char>>("Wrong phase"@),
        ),
{
    lemma_message_types_differ();
}

/// A message of a type that belongs to another phase is turned down and
/// changes nothing, whichever phase the room is in.
pub proof fn lemma_phase_guard(
    room: RoomView,
    word: Option<Seq<char>>,
    id: Option<u64>,
    is_host: bool,
    guess_is_listed: bool,
    next_secret: Seq<char>,
)
    requires
        room.game_started,
    ensures
        room.game_state.current_phase != GamePhase::Typing ==> room.handle_message(
            "word"@,
            word,
            id,
            is_host,
            guess_is_listed,
            next_secret,
        ) == (room, Err::<(), Seq<char>>("Wrong phase"@)),
        room.game_state.current_phase != GamePhase::Sabotaging ==> room.handle_message(
            "sabotage"@,
            word,
            id,
            is_host,
            guess_is_listed,
            next_secret,
        ) == (room, Err::<(), Seq<char>>("Wrong phase"@)),
        room.game_state.current_phase != GamePhase::Restarting ==> room.handle_message(
            "restart-ready"@,
            word,
            id,
            is_host,
            guess_is_listed,
            next_secret,
        ) == (room, Err::<(), Seq<char>>("Wrong phase"@)),
{
    lemma_message_types_differ();
}

/// The typing phase is a barrier for two. From a turn in which nobody has
/// typed yet, the first accepted guess leaves the room waiting for guesses,
/// and so does any number of further guesses of the same player. The guess of
/// the opponent then ends the phase, and a guess sent after that is turned
/// down without any effect.
pub proof fn lemma_typing_barrier(
    room: RoomView,
    first_is_host: bool,
    first_word: Seq<char>,
    again: Seq<char>,
    second_word: Seq<char>,
    late_word: Option<Seq<char>>,
    late_is_host: bool,
    id: Option<u64>,
    next_secret: Seq<char>,
)
    requires
        room.wf(),
        room.game_started,
        room.game_state.current_phase == GamePhase::Typing,
        room.host_player.typed_word_this_turn is None,
        room.other_player->0.typed_word_this_turn is None,
        is_word(first_word),
        is_word(again),
        is_word(second_word),
    ensures
        ({
            let one = room.handle_message(
                "word"@,
                Some(first_word),
                id,
                first_is_host,
                true,
                next_secret,
            ).0;
            let same = one.handle_message(
                "word"@,
                Some(again),
                id,
                first_is_host,
                true,
                next_secret,
            ).0;
            let both = one.handle_message(
                "word"@,
                Some(second_word),
                id,
                !first_is_host,
                true,
                next_secret,
            ).0;
            &&& one.game_state == room.game_state
            &&& one.player(first_is_host).typed_word_this_turn == Some(first_word)
            &&& one.player(!first_is_host) == room.player(!first_is_host)
            &&& same.game_state == room.game_state
            &&& same.player(!first_is_host) == room.player(!first_is_host)
            &&& both.game_state.current_phase != GamePhase::Typing
            &&& both == one.with_player(
                !first_is_host,
                PlayerView {
                    typed_word_this_turn: Some(second_word),
                    ..one.player(!first_is_host)
                },
            ).type_end(next_secret)
            &&& both.handle_message("word"@, late_word, id, late_is_host, true, next_secret) == (
                both,
                Err::<(), Seq<char>>("Wrong phase"@),
            )
        }),
{
    lemma_message_types_differ();
}

/// The two guesses of a turn may arrive in either order: the room ends up the
/// same.
pub proof fn lemma_arrival_order(
    room: RoomView,
    host_word: Seq<char>,
    other_word: Seq<char>,
    id: Option<u64>,
    next_secret: Seq<char>,
)
    requires
        room.wf(),
        room.game_started,
        room.game_state.current_phase == GamePhase::Typing,
        room.host_player.typed_word_this_turn is None,
        room.other_player->0.typed_word_this_turn is None,
        is_word(host_word),
        is_word(other_word),
    ensures
        room.handle_message("word"@, Some(host_word), id, true, true, next_secret).0.handle_message(
            "word"@,
            Some(other_word),
            id,
            false,
            true,
            next_secret,
        ).0 == room.handle_message(
            "word"@,
            Some(other_word),
            id,
            false,
            true,
            next_secret,
        ).0.handle_message("word"@, Some(host_word), id, true, true, next_secret).0,
{
    lemma_message_types_differ();
}

/// What the two players are told about a turn always fits together: one of
/// them has won and the other is told so, or nobody has.
pub proof fn lemma_verdicts_consistent(
    secret: Seq<char>,
    host_word: Seq<char>,
    other_word: Seq<char>,
)
    ensures
        host_verdict(secret, host_word, other_word) == Winner::You <==> other_verdict(
            secret,
            host_word,
            other_word,
        ) == Winner::Other,
        host_verdict(secret, host_word, other_word) == Winner::Other <==> other_verdict(
            secret,
            host_word,
            other_word,
        ) == Winner::You,
        host_verdict(secret, host_word, other_word) == Winner::Nobody <==> other_verdict(
            secret,
            host_word,
            other_word,
        ) == Winner::Nobody,
        host_verdict(secret, host_word, other_word) == Winner::Nobody <==> (host_word != secret
            && other_word != secret),
        host_word == secret ==> host_verdict(secret, host_word, other_word) == Winner::You,
        other_word == secret && host_word != secret ==> other_verdict(secret, host_word, other_word)
            == Winner::You,
{
}

/// When a guess of the turn is the secret, the typing phase ends the match:
/// each player is sent the opponent's guess, one with `you` and one with
/// `other`, then the secret; each guess is counted; and a new match with the
/// new secret waits for both to be ready.
pub proof fn lemma_win_ends_match(room: RoomView, next_secret: Seq<char>)
    requires
        room.both_typed(),
        room.host_player.typed_word_this_turn->0 == room.game_state.word_to_guess
            || room.other_player->0.typed_word_this_turn->0 == room.game_state.word_to_guess,
    ensures
        ({
            let secret = room.game_state.word_to_guess;
            let host_word = room.host_player.typed_word_this_turn->0;
            let other_word = room.other_player->0.typed_word_this_turn->0;
            let for_host = host_verdict(secret, host_word, other_word);
            let for_other = other_verdict(secret, host_word, other_word);
            let after = room.type_end(next_secret);
            &&& (for_host == Winner::You && for_other == Winner::Other) || (for_host
                == Winner::Other && for_other == Winner::You)
            &&& after.game_state == next_game(next_secret)
            &&& after.game_state.current_phase == GamePhase::Restarting
            &&& after.game_state.word_to_guess == next_secret
            &&& after.host_player.messages_to_send == room.host_player.messages_to_send.push(
                envelope("other-player-word"@, other_word_json(other_word, for_host)),
            ).push(envelope("solution"@, json_string_text(secret)))
            &&& after.other_player->0.messages_to_send
                == room.other_player->0.messages_to_send.push(
                envelope("other-player-word"@, other_word_json(host_word, for_other)),
            ).push(envelope("solution"@, json_string_text(secret)))
            &&& after.host_player.past_words == room.host_player.past_words.push(host_word)
            &&& after.other_player->0.past_words == room.other_player->0.past_words.push(
                other_word,
            )
        }),
{
}

/// When neither guess of the last turn is the secret, the match ends all the
/// same, with no winner: each player is sent the opponent's guess with
/// `none`, then the secret, and a new match waits for both to be ready.
pub proof fn lemma_last_turn_ends_match(room: RoomView, next_secret: Seq<char>)
    requires
        room.both_typed(),
        room.game_state.current_turn == MAX_WORD_COUNT - 1,
        room.host_player.typed_word_this_turn->0 != room.game_state.word_to_guess,
        room.other_player->0.typed_word_this_turn->0 != room.game_state.word_to_guess,
    ensures
        ({
            let secret = room.game_state.word_to_guess;
            let host_word = room.host_player.typed_word_this_turn->0;
            let other_word = room.other_player->0.typed_word_this_turn->0;
            let after = room.type_end(next_secret);
            &&& after.game_state == next_game(next_secret)
            &&& after.game_state.current_phase == GamePhase::Restarting
            &&& after.host_player.messages_to_send == room.host_player.messages_to_send.push(
                envelope("other-player-word"@, other_word_json(other_word, Winner::Nobody)),
            ).push(envelope("solution"@, json_string_text(secret)))
            &&& after.other_player->0.messages_to_send
                == room.other_player->0.messages_to_send.push(
                envelope("other-player-word"@, other_word_json(host_word, Winner::Nobody)),
            ).push(envelope("solution"@, json_string_text(secret)))
        }),
{
}

/// Before the last turn, a turn without a winner goes on to the sabotage
/// phase: nobody is sent the secret and the match stays the same.
pub proof fn lemma_turn_without_winner_goes_on(room: RoomView, next_secret: Seq<char>)
    requires
        room.both_typed(),
        room.game_state.current_turn != MAX_WORD_COUNT - 1,
        room.host_player.typed_word_this_turn->0 != room.game_state.word_to_guess,
        room.other_player->0.typed_word_this_turn->0 != room.game_state.word_to_guess,
    ensures
        ({
            let after = room.type_end(next_secret);
            &&& after.game_state.current_phase == GamePhase::Sabotaging
            &&& after.game_state.word_to_guess == room.game_state.word_to_guess
            &&& after.game_state.current_turn == room.game_state.current_turn
            &&& after.host_player.messages_to_send.len() == room.host_player.messages_to_send.len()
                + 1
            &&& after.other_player->0.messages_to_send.len()
                == room.other_player->0.messages_to_send.len() + 1
        }),
{
}

/// Every message keeps a well-formed room well formed, as long as the secret
/// offered for the next match is a word.
pub proof fn lemma_handle_message_keeps_wf(
    room: RoomView,
    msg_type: Seq<char>,
    word: Option<Seq<char>>,
    id: Option<u64>,
    is_host: bool,
    guess_is_listed: bool,
    next_secret: Seq<char>,
)
    requires
        room.wf(),
        is_word(next_secret),
    ensures
        room.handle_message(msg_type, word, id, is_host, guess_is_listed, next_secret).0.wf(),
{
}

/// The sabotage phase is a barrier for two as well. The first position
/// leaves the room waiting and sends nothing. The opponent's position then
/// sends each player the feedback for their own guess, with the position that
/// the opponent chose shown red, and starts the next turn of the same match.
pub proof fn lemma_sabotage_barrier(
    room: RoomView,
    first_is_host: bool,
    first_id: u64,
    second_id: u64,
    word: Option<Seq<char>>,
    next_secret: Seq<char>,
)
    requires
        room.wf(),
        room.game_started,
        room.game_state.current_phase == GamePhase::Sabotaging,
        room.host_player.letter_sabotaged_this_turn is None,
        room.other_player->0.letter_sabotaged_this_turn is None,
        first_id < WORD_LENGTH,
        second_id < WORD_LENGTH,
    ensures
        ({
            let one = room.handle_message(
                "sabotage"@,
                word,
                Some(first_id),
                first_is_host,
                true,
                next_secret,
            ).0;
            let both = one.handle_message(
                "sabotage"@,
                word,
                Some(second_id),
                !first_is_host,
                true,
                next_secret,
            ).0;
            let secret = room.game_state.word_to_guess;
            let chosen_by_host = if first_is_host {
                first_id
            } else {
                second_id
            };
            let chosen_by_other = if first_is_host {
                second_id
            } else {
                first_id
            };
            &&& one.game_state == room.game_state
            &&& one.host_player.messages_to_send == room.host_player.messages_to_send
            &&& one.other_player->0.messages_to_send == room.other_player->0.messages_to_send
            &&& one.player(first_is_host).letter_sabotaged_this_turn == Some(first_id)
            &&& both.game_state.current_phase == GamePhase::Typing
            &&& both.game_state.current_turn == room.game_state.current_turn + 1
            &&& both.game_state.word_to_guess == secret
            &&& both.host_player.messages_to_send == room.host_player.messages_to_send.push(
                envelope(
                    "word-hints"@,
                    list_json(
                        hint_names(
                            hints_of(
                                secret,
                                room.host_player.typed_word_this_turn->0,
                                chosen_by_other as int,
                            ),
                        ),
                    ),
                ),
            )
            &&& both.other_player->0.messages_to_send
                == room.other_player->0.messages_to_send.push(
                envelope(
                    "word-hints"@,
                    list_json(
                        hint_names(
                            hints_of(
                                secret,
                                room.other_player->0.typed_word_this_turn->0,
                                chosen_by_host as int,
                            ),
                        ),
                    ),
                ),
            )
            &&& both.host_player.typed_word_this_turn is None
            &&& both.host_player.letter_sabotaged_this_turn is None
            &&& both.other_player->0.typed_word_this_turn is None
            &&& both.other_player->0.letter_sabotaged_this_turn is None
        }),
{
    lemma_message_types_differ();
}

/// The wait for the next match is a barrier for two. One player being ready
/// changes nothing but that player's mark. When the opponent is ready too,
/// both are told that the match restarts, the marks are taken back, and the
/// first turn of the new match starts with the secret that was waiting.
pub proof fn lemma_restart_barrier(
    room: RoomView,
    first_is_host: bool,
    word: Option<Seq<char>>,
    id: Option<u64>,
    next_secret: Seq<char>,
)
    requires
        room.wf(),
        room.game_started,
        room.game_state.current_phase == GamePhase::Restarting,
        !room.host_player.ready_to_restart,
        !room.other_player->0.ready_to_restart,
    ensures
        ({
            let one = room.handle_message(
                "restart-ready"@,
                word,
                id,
                first_is_host,
                true,
                next_secret,
            ).0;
            let both = one.handle_message(
                "restart-ready"@,
                word,
                id,
                !first_is_host,
                true,
                next_secret,
            ).0;
            &&& one == room.with_player(
                first_is_host,
                PlayerView { ready_to_restart: true, ..room.player(first_is_host) },
            )
            &&& both.game_state.current_phase == GamePhase::Typing
            &&& both.game_state.current_turn == 0
            &&& both.game_state.word_to_guess == room.game_state.word_to_guess
            &&& both.host_player.messages_to_send == room.host_player.messages_to_send.push(
                envelope("restart"@, "null"@),
            )
            &&& both.other_player->0.messages_to_send
                == room.other_player->0.messages_to_send.push(envelope("restart"@, "null"@))
            &&& !both.host_player.ready_to_restart
            &&& !both.other_player->0.ready_to_restart
            &&& both.host_player.past_words == room.host_player.past_words
        }),
{
    lemma_message_types_differ();
}

/// Until the second player has joined and the first match has started, no
/// message but `ping` is taken, and no message changes anything.
pub proof fn lemma_nothing_moves_before_the_start(
    room: RoomView,
    msg_type: Seq<char>,
    word: Option<Seq<char>>,
    id: Option<u64>,
    is_host: bool,
    guess_is_listed: bool,
    next_secret: Seq<char>,
)
    requires
        room.wf(),
        room.other_player is None || !room.game_started,
    ensures
        room.handle_message(msg_type, word, id, is_host, guess_is_listed, next_secret).0 == room,
        room.handle_message(msg_type, word, id, is_host, guess_is_listed, next_secret).1 is Ok
            <==> msg_type == "ping"@,
{
}

/// No message takes anything out of a queue or a history, or changes the
/// order in them: what was there stays in front of whatever is added.
pub proof fn lemma_queues_and_histories_only_grow(
    room: RoomView,
    msg_type: Seq<char>,
    word: Option<Seq<char>>,
    id: Option<u64>,
    is_host: bool,
    guess_is_listed: bool,
    next_secret: Seq<char>,
)
    requires
        room.wf(),
    ensures
        ({
            let after = room.handle_message(
                msg_type,
                word,
                id,
                is_host,
                guess_is_listed,
                next_secret,
            ).0;
            &&& room.host_player.messages_to_send.is_prefix_of(after.host_player.messages_to_send)
            &&& room.host_player.past_words.is_prefix_of(after.host_player.past_words)
            &&& after.other_player is Some <==> room.other_player is Some
            &&& room.other_player is Some ==> {
                &&& room.other_player->0.messages_to_send.is_prefix_of(
                    after.other_player->0.messages_to_send,
                )
                &&& room.other_player->0.past_words.is_prefix_of(after.other_player->0.past_words)
            }
            &&& after.join_code == room.join_code
            &&& after.game_options == room.game_options
            &&& after.game_started == room.game_started
            &&& after.host_player.connection_alive == room.host_player.connection_alive
            &&& after.host_player.last_ping_time == room.host_player.last_ping_time
        }),
{
}

/// The secret of a match stays the same until the match is over: a message
/// changes it only when it is the guess that ends the match.
pub proof fn lemma_secret_is_kept_during_a_match(
    room: RoomView,
    msg_type: Seq<char>,
    word: Option<Seq<char>>,
    id: Option<u64>,
    is_host: bool,
    guess_is_listed: bool,
    next_secret: Seq<char>,
)
    requires
        room.wf(),
    ensures
        ({
            let after = room.handle_message(
                msg_type,
                word,
                id,
                is_host,
                guess_is_listed,
                next_secret,
            ).0;
            after.game_state.word_to_guess != room.game_state.word_to_guess ==> {
                &&& msg_type == "word"@
                &&& room.game_state.current_phase == GamePhase::Typing
                &&& after.game_state.current_phase == GamePhase::Restarting
                &&& after.game_state.word_to_guess == next_secret
            }
        }),
{
}

/// The phases follow each other in one order only. From typing the room
/// goes on to sabotage, or to the wait for the next match when the match is
/// over; from sabotage to the typing of the next turn; from the wait for the
/// next match to the typing of its first turn. The turn counter goes up by
/// one whenever typing starts again, is reset when a match ends, and stays as
/// it is otherwise.
pub proof fn lemma_phase_order(
    room: RoomView,
    msg_type: Seq<char>,
    word: Option<Seq<char>>,
    id: Option<u64>,
    is_host: bool,
    guess_is_listed: bool,
    next_secret: Seq<char>,
)
    requires
        room.wf(),
    ensures
        ({
            let before = room.game_state;
            let after = room.handle_message(
                msg_type,
                word,
                id,
                is_host,
                guess_is_listed,
                next_secret,
            ).0.game_state;
            match (before.current_phase, after.current_phase) {
                (GamePhase::Typing, GamePhase::Typing) => after == before,
                (GamePhase::Typing, GamePhase::Sabotaging) => after.current_turn
                    == before.current_turn && after.word_to_guess == before.word_to_guess,
                (GamePhase::Typing, GamePhase::Restarting) => after.current_turn == -1,
                (GamePhase::Sabotaging, GamePhase::Sabotaging) => after == before,
                (GamePhase::Sabotaging, GamePhase::Typing) => after.current_turn
                    == before.current_turn + 1 && after.word_to_guess == before.word_to_guess,
                (GamePhase::Restarting, GamePhase::Restarting) => after == before,
                (GamePhase::Restarting, GamePhase::Typing) => after.current_turn == 0
                    && after.word_to_guess == before.word_to_guess,
                (GamePhase::Sabotaging, GamePhase::Restarting) => false,
                (GamePhase::Restarting, GamePhase::Sabotaging) => false,
            }
        }),
{
}

} // verus!
