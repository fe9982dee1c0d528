use word_duel::messages::{
    create_message_text, send_message, send_message_to_both_players, MessageContent, Winner,
};
use word_duel::game::get_initial_game_state;
use word_duel::room::{GameOptions, Player, RoomState};

fn options() -> GameOptions {
    GameOptions { language: String::from("en"), difficulty: 0, attack_mode: true }
}

fn lonely_room() -> RoomState {
    RoomState {
        game_state: get_initial_game_state(String::from("LOOSE")),
        host_player: Player::new(None, 0),
        other_player: None,
        join_code: String::from("abacadab"),
        game_started: false,
        game_options: options(),
    }
}

#[test]
fn text_of_a_message_without_payload() {
    assert_eq!(
        create_message_text("restart", &MessageContent::Nothing),
        "{\"type\":\"restart\",\"content\":null}"
    );
}

#[test]
fn text_of_a_message_with_a_string() {
    assert_eq!(
        create_message_text("solution", &MessageContent::Text(String::from("LOOSE"))),
        "{\"type\":\"solution\",\"content\":\"LOOSE\"}"
    );
}

#[test]
fn strings_are_escaped_as_json() {
    assert_eq!(
        create_message_text("room-code", &MessageContent::Text(String::from("a\"b\\c\n"))),
        "{\"type\":\"room-code\",\"content\":\"a\\\"b\\\\c\\n\"}"
    );
}

#[test]
fn text_of_a_message_with_a_list() {
    let list = MessageContent::List(vec![
        String::from("green"),
        String::from("gray"),
        String::from("red"),
    ]);
    assert_eq!(
        create_message_text("word-hints", &list),
        "{\"type\":\"word-hints\",\"content\":[\"green\",\"gray\",\"red\"]}"
    );
    assert_eq!(
        create_message_text("word-hints", &MessageContent::List(vec![])),
        "{\"type\":\"word-hints\",\"content\":[]}"
    );
    assert_eq!(
        create_message_text("word-hints", &MessageContent::List(vec![String::from("red")])),
        "{\"type\":\"word-hints\",\"content\":[\"red\"]}"
    );
}

#[test]
fn text_of_the_opponents_word() {
    let you = MessageContent::OtherWord { word: String::from("MOUSE"), who_wins: Winner::You };
    assert_eq!(
        create_message_text("other-player-word", &you),
        "{\"type\":\"other-player-word\",\"content\":{\"word\":\"MOUSE\",\"who_wins\":\"you\"}}"
    );
    let other = MessageContent::OtherWord { word: String::from("LOOSE"), who_wins: Winner::Other };
    assert_eq!(
        create_message_text("other-player-word", &other),
        "{\"type\":\"other-player-word\",\"content\":{\"word\":\"LOOSE\",\"who_wins\":\"other\"}}"
    );
    let none = MessageContent::OtherWord { word: String::from("CRANE"), who_wins: Winner::Nobody };
    assert_eq!(
        create_message_text("other-player-word", &none),
        "{\"type\":\"other-player-word\",\"content\":{\"word\":\"CRANE\",\"who_wins\":\"none\"}}"
    );
}

#[test]
fn message_texts_are_valid_json() {
    let text = create_message_text(
        "other-player-word",
        &MessageContent::OtherWord { word: String::from("MO\"USE"), who_wins: Winner::You },
    );
    let value: serde_json::Value = serde_json::from_str(&text).unwrap();
    assert_eq!(value["type"], "other-player-word");
    assert_eq!(value["content"]["word"], "MO\"USE");
    assert_eq!(value["content"]["who_wins"], "you");
}

#[test]
fn messages_queue_in_order() {
    let mut player = Player::new(None, 7);
    send_message(&mut player, "room-code", &MessageContent::Text(String::from("abacadab")));
    send_message(&mut player, "other-player-connected", &MessageContent::Nothing);
    assert_eq!(
        player.messages_to_send,
        vec![
            "{\"type\":\"room-code\",\"content\":\"abacadab\"}",
            "{\"type\":\"other-player-connected\",\"content\":null}",
        ]
    );
    assert!(player.connection_alive);
    assert_eq!(player.last_ping_time, 7);
}

#[test]
fn message_to_both_reaches_both() {
    let mut room = lonely_room();
    room.other_player = Some(Player::new(None, 0));
    send_message_to_both_players(&mut room, "restart", &MessageContent::Nothing);
    let text = "{\"type\":\"restart\",\"content\":null}";
    assert_eq!(room.host_player.messages_to_send, vec![text]);
    assert_eq!(room.other_player.unwrap().messages_to_send, vec![text]);
}

#[test]
fn message_to_both_in_a_room_of_one() {
    let mut room = lonely_room();
    send_message_to_both_players(&mut room, "restart", &MessageContent::Nothing);
    assert_eq!(room.host_player.messages_to_send.len(), 1);
    assert!(room.other_player.is_none());
}
