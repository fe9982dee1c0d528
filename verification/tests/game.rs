use word_duel::game::{
    check_for_restart, check_for_sabotage_end, check_for_type_end, game_start,
    get_initial_game_state, handle_one_message, judge_guesses, start_turn, LexiconAnswer,
    MessageFields,
};
use word_duel::messages::Winner;
use word_duel::room::{GameOptions, GamePhase, Player, PlayerInfo, RoomState};

fn new_room(secret: &str) -> RoomState {
    RoomState {
        game_state: get_initial_game_state(String::from(secret)),
        host_player: Player::new(Some(PlayerInfo { name: String::from("John client 1") }), 0),
        other_player: None,
        join_code: String::from("abacadab"),
        game_started: false,
        game_options: GameOptions {
            language: String::from("en"),
            difficulty: 0,
            attack_mode: true,
        },
    }
}

fn started_room(secret: &str) -> RoomState {
    let mut room = new_room(secret);
    room.other_player =
        Some(Player::new(Some(PlayerInfo { name: String::from("John client 2") }), 0));
    game_start(&mut room);
    room
}

fn lexicon(next_secret: &str) -> LexiconAnswer {
    LexiconAnswer { guess_is_listed: true, next_secret: String::from(next_secret) }
}

fn nothing() -> MessageFields {
    MessageFields { word: None, id: None }
}

fn word(w: &str) -> MessageFields {
    MessageFields { word: Some(String::from(w)), id: None }
}

fn id(i: u64) -> MessageFields {
    MessageFields { word: None, id: Some(i) }
}

fn other(room: &RoomState) -> &Player {
    room.other_player.as_ref().unwrap()
}

fn guess(room: &mut RoomState, is_host: bool, w: &str) {
    assert_eq!(handle_one_message(room, "word", &word(w), is_host, &lexicon("CRANE")), Ok(()));
}

fn sabotage(room: &mut RoomState, is_host: bool, i: u64) {
    assert_eq!(handle_one_message(room, "sabotage", &id(i), is_host, &lexicon("CRANE")), Ok(()));
}

fn other_word_text(w: &str, who: &str) -> String {
    format!(
        "{{\"type\":\"other-player-word\",\"content\":{{\"word\":\"{}\",\"who_wins\":\"{}\"}}}}",
        w, who
    )
}

const SOLUTION_LOOSE: &str = "{\"type\":\"solution\",\"content\":\"LOOSE\"}";

#[test]
fn initial_state_has_no_turn_yet() {
    let state = get_initial_game_state(String::from("LOOSE"));
    assert_eq!(state.word_to_guess, "LOOSE");
    assert_eq!(state.current_turn, -1);
    assert_eq!(state.current_phase, GamePhase::Typing);
}

#[test]
fn game_start_begins_turn_zero() {
    let room = started_room("LOOSE");
    assert!(room.game_started);
    assert_eq!(room.game_state.current_turn, 0);
    assert_eq!(room.game_state.current_phase, GamePhase::Typing);
    assert_eq!(room.game_state.word_to_guess, "LOOSE");
}

#[test]
fn start_turn_clears_what_the_players_did() {
    let mut room = started_room("LOOSE");
    room.game_state.current_phase = GamePhase::Sabotaging;
    room.host_player.typed_word_this_turn = Some(String::from("MOUSE"));
    room.host_player.letter_sabotaged_this_turn = Some(1);
    room.host_player.past_words.push(String::from("MOUSE"));
    room.other_player.as_mut().unwrap().typed_word_this_turn = Some(String::from("HOUSE"));
    room.other_player.as_mut().unwrap().letter_sabotaged_this_turn = Some(3);
    start_turn(&mut room);
    assert_eq!(room.game_state.current_turn, 1);
    assert_eq!(room.game_state.current_phase, GamePhase::Typing);
    assert_eq!(room.host_player.typed_word_this_turn, None);
    assert_eq!(room.host_player.letter_sabotaged_this_turn, None);
    assert_eq!(other(&room).typed_word_this_turn, None);
    assert_eq!(other(&room).letter_sabotaged_this_turn, None);
    assert_eq!(room.host_player.past_words, vec!["MOUSE"]);
}

#[test]
fn verdicts_for_each_case() {
    assert_eq!(judge_guesses("LOOSE", "LOOSE", "MOUSE"), (Winner::You, Winner::Other));
    assert_eq!(judge_guesses("LOOSE", "MOUSE", "LOOSE"), (Winner::Other, Winner::You));
    assert_eq!(judge_guesses("LOOSE", "MOUSE", "HOUSE"), (Winner::Nobody, Winner::Nobody));
    assert_eq!(judge_guesses("LOOSE", "LOOSE", "LOOSE"), (Winner::You, Winner::Other));
}

#[test]
fn host_finds_the_secret() {
    let mut room = started_room("LOOSE");
    guess(&mut room, true, "LOOSE");
    guess(&mut room, false, "MOUSE");
    assert_eq!(
        room.host_player.messages_to_send,
        vec![other_word_text("MOUSE", "you"), String::from(SOLUTION_LOOSE)]
    );
    assert_eq!(
        other(&room).messages_to_send,
        vec![other_word_text("LOOSE", "other"), String::from(SOLUTION_LOOSE)]
    );
    assert_eq!(room.game_state.current_phase, GamePhase::Restarting);
    assert_eq!(room.game_state.word_to_guess, "CRANE");
    assert_eq!(room.game_state.current_turn, -1);
    assert_eq!(room.host_player.past_words, vec!["LOOSE"]);
    assert_eq!(other(&room).past_words, vec!["MOUSE"]);
}

#[test]
fn second_player_finds_the_secret() {
    let mut room = started_room("LOOSE");
    guess(&mut room, false, "LOOSE");
    guess(&mut room, true, "MOUSE");
    assert_eq!(
        room.host_player.messages_to_send,
        vec![other_word_text("LOOSE", "other"), String::from(SOLUTION_LOOSE)]
    );
    assert_eq!(
        other(&room).messages_to_send,
        vec![other_word_text("MOUSE", "you"), String::from(SOLUTION_LOOSE)]
    );
    assert_eq!(room.game_state.current_phase, GamePhase::Restarting);
}

#[test]
fn both_find_the_secret_and_the_host_wins() {
    let mut room = started_room("LOOSE");
    guess(&mut room, false, "LOOSE");
    guess(&mut room, true, "LOOSE");
    assert_eq!(room.host_player.messages_to_send[0], other_word_text("LOOSE", "you"));
    assert_eq!(other(&room).messages_to_send[0], other_word_text("LOOSE", "other"));
    assert_eq!(room.game_state.current_phase, GamePhase::Restarting);
}

#[test]
fn one_guess_does_not_end_the_typing_phase() {
    let mut room = started_room("LOOSE");
    guess(&mut room, true, "MOUSE");
    assert_eq!(room.game_state.current_phase, GamePhase::Typing);
    assert_eq!(room.game_state.current_turn, 0);
    assert_eq!(room.host_player.typed_word_this_turn, Some(String::from("MOUSE")));
    assert!(room.host_player.messages_to_send.is_empty());
    assert!(other(&room).messages_to_send.is_empty());
    // The same player may change their mind; the room still waits.
    guess(&mut room, true, "HOUSE");
    assert_eq!(room.game_state.current_phase, GamePhase::Typing);
    assert_eq!(room.host_player.typed_word_this_turn, Some(String::from("HOUSE")));
    assert!(room.host_player.past_words.is_empty());
}

#[test]
fn second_guess_ends_the_typing_phase_once() {
    let mut room = started_room("LOOSE");
    guess(&mut room, true, "MOUSE");
    guess(&mut room, false, "HOUSE");
    assert_eq!(room.game_state.current_phase, GamePhase::Sabotaging);
    assert_eq!(room.game_state.current_turn, 0);
    assert_eq!(room.game_state.word_to_guess, "LOOSE");
    assert_eq!(room.host_player.messages_to_send, vec![other_word_text("HOUSE", "none")]);
    assert_eq!(other(&room).messages_to_send, vec![other_word_text("MOUSE", "none")]);
    assert_eq!(room.host_player.past_words, vec!["MOUSE"]);
    assert_eq!(other(&room).past_words, vec!["HOUSE"]);
    // A third guess comes too late and changes nothing.
    let before = room.clone();
    assert_eq!(
        handle_one_message(&mut room, "word", &word("CRANE"), true, &lexicon("CRANE")),
        Err(String::from("Wrong phase"))
    );
    assert_eq!(room, before);
}

#[test]
fn guesses_may_arrive_in_either_order() {
    let mut host_first = started_room("LOOSE");
    guess(&mut host_first, true, "MOUSE");
    guess(&mut host_first, false, "HOUSE");
    let mut other_first = started_room("LOOSE");
    guess(&mut other_first, false, "HOUSE");
    guess(&mut other_first, true, "MOUSE");
    assert_eq!(host_first, other_first);
}

#[test]
fn sabotage_while_typing_is_rejected() {
    let mut room = started_room("LOOSE");
    guess(&mut room, true, "MOUSE");
    let before = room.clone();
    assert_eq!(
        handle_one_message(&mut room, "sabotage", &id(2), false, &lexicon("CRANE")),
        Err(String::from("Wrong phase"))
    );
    assert_eq!(room, before);
    assert_eq!(
        handle_one_message(&mut room, "restart-ready", &nothing(), false, &lexicon("CRANE")),
        Err(String::from("Wrong phase"))
    );
    assert_eq!(room, before);
}

#[test]
fn messages_before_the_game_are_rejected() {
    let mut room = new_room("LOOSE");
    let before = room.clone();
    for msg_type in ["word", "sabotage", "restart-ready", "hello"] {
        assert_eq!(
            handle_one_message(&mut room, msg_type, &word("MOUSE"), true, &lexicon("CRANE")),
            Err(String::from("Message sent before game started"))
        );
        assert_eq!(room, before);
    }
    assert_eq!(handle_one_message(&mut room, "ping", &nothing(), true, &lexicon("CRANE")), Ok(()));
    assert_eq!(room, before);
}

#[test]
fn ping_changes_nothing() {
    let mut room = started_room("LOOSE");
    let before = room.clone();
    assert_eq!(handle_one_message(&mut room, "ping", &nothing(), false, &lexicon("CRANE")), Ok(()));
    assert_eq!(room, before);
}

#[test]
fn unknown_message_type_is_named_in_the_error() {
    let mut room = started_room("LOOSE");
    let before = room.clone();
    assert_eq!(
        handle_one_message(&mut room, "cursors", &nothing(), true, &lexicon("CRANE")),
        Err(String::from("Unknown message type cursors"))
    );
    assert_eq!(room, before);
}

#[test]
fn word_message_without_a_word_is_an_error() {
    let mut room = started_room("LOOSE");
    let before = room.clone();
    assert_eq!(
        handle_one_message(&mut room, "word", &id(3), true, &lexicon("CRANE")),
        Err(String::from("Wrong type, expected string for field word"))
    );
    assert_eq!(room, before);
}

#[test]
fn word_not_on_the_list_is_turned_down() {
    let mut room = started_room("LOOSE");
    let not_listed = LexiconAnswer { guess_is_listed: false, next_secret: String::from("CRANE") };
    assert_eq!(handle_one_message(&mut room, "word", &word("XXXXX"), true, &not_listed), Ok(()));
    assert_eq!(room.host_player.typed_word_this_turn, None);
    assert_eq!(
        room.host_player.messages_to_send,
        vec!["{\"type\":\"word-rejected\",\"content\":null}"]
    );
    assert!(other(&room).messages_to_send.is_empty());
    assert_eq!(room.game_state.current_phase, GamePhase::Typing);
    // The player may try again.
    guess(&mut room, true, "MOUSE");
    assert_eq!(room.host_player.typed_word_this_turn, Some(String::from("MOUSE")));
}

#[test]
fn malformed_word_is_turned_down() {
    let mut room = started_room("LOOSE");
    for bad in ["MOUS", "mouse", "MOUSES", ""] {
        assert_eq!(
            handle_one_message(&mut room, "word", &word(bad), false, &lexicon("CRANE")),
            Ok(())
        );
        assert_eq!(other(&room).typed_word_this_turn, None);
    }
    assert_eq!(other(&room).messages_to_send.len(), 4);
    assert!(room.host_player.messages_to_send.is_empty());
}

#[test]
fn sabotage_needs_a_position_inside_the_word() {
    let mut room = started_room("LOOSE");
    guess(&mut room, true, "MOUSE");
    guess(&mut room, false, "HOUSE");
    let before = room.clone();
    assert_eq!(
        handle_one_message(&mut room, "sabotage", &id(5), true, &lexicon("CRANE")),
        Err(String::from("Letter index out of range"))
    );
    assert_eq!(room, before);
    assert_eq!(
        handle_one_message(&mut room, "sabotage", &word("MOUSE"), true, &lexicon("CRANE")),
        Err(String::from("Wrong type, expected number for field id"))
    );
    assert_eq!(room, before);
    sabotage(&mut room, true, 4);
    assert_eq!(room.host_player.letter_sabotaged_this_turn, Some(4));
}

#[test]
fn hints_go_out_when_both_have_sabotaged() {
    let mut room = started_room("LOOSE");
    guess(&mut room, true, "MOUSE");
    guess(&mut room, false, "OOZES");
    sabotage(&mut room, true, 2);
    // One position is not enough.
    assert_eq!(room.game_state.current_phase, GamePhase::Sabotaging);
    assert_eq!(room.host_player.messages_to_send.len(), 1);
    sabotage(&mut room, false, 0);
    // The host's guess is shown with the position that the other player chose.
    assert_eq!(
        room.host_player.messages_to_send[1],
        "{\"type\":\"word-hints\",\"content\":[\"red\",\"green\",\"gray\",\"green\",\"green\"]}"
    );
    assert_eq!(
        other(&room).messages_to_send[1],
        "{\"type\":\"word-hints\",\"content\":[\"yellow\",\"green\",\"red\",\"yellow\",\"yellow\"]}"
    );
    assert_eq!(room.host_player.messages_to_send.len(), 2);
    assert_eq!(other(&room).messages_to_send.len(), 2);
    // And the next turn has started.
    assert_eq!(room.game_state.current_phase, GamePhase::Typing);
    assert_eq!(room.game_state.current_turn, 1);
    assert_eq!(room.host_player.typed_word_this_turn, None);
    assert_eq!(room.host_player.letter_sabotaged_this_turn, None);
    assert_eq!(other(&room).typed_word_this_turn, None);
    assert_eq!(other(&room).letter_sabotaged_this_turn, None);
    assert_eq!(room.host_player.past_words, vec!["MOUSE"]);
}

#[test]
fn sixth_turn_without_winner_ends_the_match() {
    let mut room = started_room("LOOSE");
    for turn in 0..5 {
        assert_eq!(room.game_state.current_turn, turn);
        guess(&mut room, true, "MOUSE");
        guess(&mut room, false, "HOUSE");
        assert_eq!(room.game_state.current_phase, GamePhase::Sabotaging);
        sabotage(&mut room, false, 1);
        sabotage(&mut room, true, 3);
        assert_eq!(room.game_state.current_phase, GamePhase::Typing);
    }
    assert_eq!(room.game_state.current_turn, 5);
    room.host_player.messages_to_send.clear();
    room.other_player.as_mut().unwrap().messages_to_send.clear();
    guess(&mut room, false, "HOUSE");
    guess(&mut room, true, "MOUSE");
    assert_eq!(
        room.host_player.messages_to_send,
        vec![other_word_text("HOUSE", "none"), String::from(SOLUTION_LOOSE)]
    );
    assert_eq!(
        other(&room).messages_to_send,
        vec![other_word_text("MOUSE", "none"), String::from(SOLUTION_LOOSE)]
    );
    assert_eq!(room.game_state.current_phase, GamePhase::Restarting);
    assert_eq!(room.game_state.current_turn, -1);
    assert_eq!(room.game_state.word_to_guess, "CRANE");
    assert_eq!(room.host_player.past_words.len(), 6);
    assert_eq!(other(&room).past_words.len(), 6);
}

#[test]
fn match_restarts_when_both_are_ready() {
    let mut room = started_room("LOOSE");
    guess(&mut room, true, "LOOSE");
    guess(&mut room, false, "MOUSE");
    room.host_player.messages_to_send.clear();
    room.other_player.as_mut().unwrap().messages_to_send.clear();
    assert_eq!(
        handle_one_message(&mut room, "restart-ready", &nothing(), false, &lexicon("OTHER")),
        Ok(())
    );
    assert!(other(&room).ready_to_restart);
    assert_eq!(room.game_state.current_phase, GamePhase::Restarting);
    assert!(room.host_player.messages_to_send.is_empty());
    // Guesses have to wait for the restart.
    assert_eq!(
        handle_one_message(&mut room, "word", &word("MOUSE"), true, &lexicon("OTHER")),
        Err(String::from("Wrong phase"))
    );
    assert_eq!(
        handle_one_message(&mut room, "restart-ready", &nothing(), true, &lexicon("OTHER")),
        Ok(())
    );
    let restart = "{\"type\":\"restart\",\"content\":null}";
    assert_eq!(room.host_player.messages_to_send, vec![restart]);
    assert_eq!(other(&room).messages_to_send, vec![restart]);
    assert!(!room.host_player.ready_to_restart);
    assert!(!other(&room).ready_to_restart);
    assert_eq!(room.game_state.current_phase, GamePhase::Typing);
    assert_eq!(room.game_state.current_turn, 0);
    assert_eq!(room.game_state.word_to_guess, "CRANE");
    assert_eq!(room.host_player.typed_word_this_turn, None);
    // The history of the first match stays.
    assert_eq!(room.host_player.past_words, vec!["LOOSE"]);
}

#[test]
fn type_end_waits_for_both_words() {
    let mut room = started_room("LOOSE");
    room.host_player.typed_word_this_turn = Some(String::from("MOUSE"));
    let before = room.clone();
    check_for_type_end(&mut room, "CRANE");
    assert_eq!(room, before);
}

#[test]
fn sabotage_end_waits_for_both_positions() {
    let mut room = started_room("LOOSE");
    guess(&mut room, true, "MOUSE");
    guess(&mut room, false, "HOUSE");
    room.host_player.letter_sabotaged_this_turn = Some(0);
    let before = room.clone();
    check_for_sabotage_end(&mut room);
    assert_eq!(room, before);
}

#[test]
fn restart_waits_for_both_players() {
    let mut room = started_room("LOOSE");
    room.host_player.ready_to_restart = true;
    let before = room.clone();
    check_for_restart(&mut room);
    assert_eq!(room, before);
}

#[test]
fn get_player_picks_the_slot() {
    let mut room = started_room("LOOSE");
    room.get_player(true).ready_to_restart = true;
    room.get_player(false).last_ping_time = 42;
    assert!(room.host_player.ready_to_restart);
    assert!(!other(&room).ready_to_restart);
    assert_eq!(other(&room).last_ping_time, 42);
    assert_eq!(room.host_player.last_ping_time, 0);
}

#[test]
fn do_for_all_players_runs_once_for_each() {
    let mut room = started_room("LOOSE");
    room.host_player.past_words.push(String::from("HOSTS"));
    room.do_for_all_players(&|player: &mut Player, opponent: &mut Player| {
        let seen = opponent.past_words.len() as u64;
        player.letter_sabotaged_this_turn = Some(seen);
        player.past_words.push(String::from("EXTRA"));
    });
    // The host saw the other player's empty history.
    assert_eq!(room.host_player.letter_sabotaged_this_turn, Some(0));
    // The other player saw the host's history after the first call.
    assert_eq!(other(&room).letter_sabotaged_this_turn, Some(2));
    assert_eq!(room.host_player.past_words, vec!["HOSTS", "EXTRA"]);
    assert_eq!(other(&room).past_words, vec!["EXTRA"]);
}

#[test]
fn new_player_is_alive_and_idle() {
    let player = Player::new(Some(PlayerInfo { name: String::from("Ann") }), 1234);
    assert_eq!(player.player_info, Some(PlayerInfo { name: String::from("Ann") }));
    assert!(player.messages_to_send.is_empty());
    assert!(player.connection_alive);
    assert_eq!(player.last_ping_time, 1234);
    assert_eq!(player.typed_word_this_turn, None);
    assert_eq!(player.letter_sabotaged_this_turn, None);
    assert!(player.past_words.is_empty());
    assert!(!player.ready_to_restart);
}

#[test]
fn rooms_made_by_the_game_are_well_formed() {
    let mut room = new_room("LOOSE");
    assert!(room.is_well_formed());
    room = started_room("LOOSE");
    assert!(room.is_well_formed());
    guess(&mut room, true, "MOUSE");
    assert!(room.is_well_formed());
    guess(&mut room, false, "HOUSE");
    assert!(room.is_well_formed());
    sabotage(&mut room, false, 0);
    assert!(room.is_well_formed());
    sabotage(&mut room, true, 4);
    assert!(room.is_well_formed());
    guess(&mut room, true, "LOOSE");
    guess(&mut room, false, "HOUSE");
    assert_eq!(room.game_state.current_phase, GamePhase::Restarting);
    assert!(room.is_well_formed());
}

#[test]
fn broken_rooms_are_told_apart() {
    let mut room = started_room("LOOSE");
    room.game_state.word_to_guess = String::from("loose");
    assert!(!room.is_well_formed());

    let mut room = started_room("LOOSE");
    room.game_state.current_turn = 6;
    assert!(!room.is_well_formed());
    room.game_state.current_turn = -2;
    assert!(!room.is_well_formed());

    let mut room = started_room("LOOSE");
    room.other_player = None;
    assert!(!room.is_well_formed());

    let mut room = new_room("LOOSE");
    room.game_state.current_turn = 0;
    assert!(!room.is_well_formed());

    let mut room = started_room("LOOSE");
    room.game_state.current_phase = GamePhase::Sabotaging;
    assert!(!room.is_well_formed());
    room.host_player.typed_word_this_turn = Some(String::from("MOUSE"));
    room.other_player.as_mut().unwrap().typed_word_this_turn = Some(String::from("HOUSE"));
    assert!(room.is_well_formed());
    room.game_state.current_turn = 5;
    assert!(!room.is_well_formed());

    let mut room = started_room("LOOSE");
    room.game_state.current_phase = GamePhase::Restarting;
    assert!(!room.is_well_formed());
    room.game_state.current_turn = -1;
    assert!(room.is_well_formed());
}

#[test]
fn broken_players_are_told_apart() {
    let mut player = Player::new(None, 0);
    assert!(player.is_well_formed());
    player.typed_word_this_turn = Some(String::from("MOUS"));
    assert!(!player.is_well_formed());
    player.typed_word_this_turn = Some(String::from("MOUSE"));
    assert!(player.is_well_formed());
    player.letter_sabotaged_this_turn = Some(4);
    assert!(player.is_well_formed());
    player.letter_sabotaged_this_turn = Some(5);
    assert!(!player.is_well_formed());
    player.letter_sabotaged_this_turn = Some(0);
    player.typed_word_this_turn = None;
    assert!(!player.is_well_formed());
}
