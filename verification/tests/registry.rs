use word_duel::game::get_initial_game_state;
use word_duel::registry::{remove_empty_rooms, room_is_live, JoinError, RoomRegistry};
use word_duel::room::{GameOptions, GamePhase, Player, PlayerInfo, RoomState};

fn options() -> GameOptions {
    GameOptions { language: String::from("en"), difficulty: 1, attack_mode: true }
}

fn room(code: &str, host_alive: bool, other_alive: Option<bool>) -> RoomState {
    let mut host = Player::new(None, 0);
    host.connection_alive = host_alive;
    let other = other_alive.map(|alive| {
        let mut p = Player::new(None, 0);
        p.connection_alive = alive;
        p
    });
    RoomState {
        game_state: get_initial_game_state(String::from("LOOSE")),
        host_player: host,
        other_player: other,
        join_code: String::from(code),
        game_started: false,
        game_options: options(),
    }
}

fn codes(rooms: &[RoomState]) -> Vec<&str> {
    rooms.iter().map(|r| r.join_code.as_str()).collect()
}

#[test]
fn room_lives_while_somebody_is_connected() {
    assert!(room_is_live(&room("a", true, None)));
    assert!(room_is_live(&room("a", true, Some(false))));
    assert!(room_is_live(&room("a", false, Some(true))));
    assert!(!room_is_live(&room("a", false, Some(false))));
    assert!(!room_is_live(&room("a", false, None)));
}

#[test]
fn empty_rooms_are_removed_and_the_rest_keeps_its_order() {
    let mut rooms = vec![
        room("one", false, None),
        room("two", true, None),
        room("three", false, Some(false)),
        room("four", false, Some(true)),
        room("five", true, Some(true)),
        room("six", false, None),
    ];
    let kept_two = rooms[1].clone();
    remove_empty_rooms(&mut rooms);
    assert_eq!(codes(&rooms), vec!["two", "four", "five"]);
    assert_eq!(rooms[0], kept_two);
}

#[test]
fn removing_from_no_rooms_or_only_dead_rooms() {
    let mut rooms: Vec<RoomState> = vec![];
    remove_empty_rooms(&mut rooms);
    assert!(rooms.is_empty());
    let mut rooms = vec![room("one", false, None), room("two", false, Some(false))];
    remove_empty_rooms(&mut rooms);
    assert!(rooms.is_empty());
}

#[test]
fn created_room_waits_for_a_second_player() {
    let mut registry = RoomRegistry::new();
    let info = Some(PlayerInfo { name: String::from("John client 1") });
    let place = registry.create_room(
        String::from("abacadab"),
        info.clone(),
        String::from("LOOSE"),
        options(),
        500,
    );
    assert_eq!(place, 0);
    assert_eq!(registry.rooms.len(), 1);
    let room = &registry.rooms[0];
    assert_eq!(room.join_code, "abacadab");
    assert!(!room.game_started);
    assert!(room.other_player.is_none());
    assert_eq!(room.game_state, get_initial_game_state(String::from("LOOSE")));
    assert_eq!(room.game_options, options());
    assert_eq!(room.host_player.player_info, info);
    assert_eq!(room.host_player.last_ping_time, 500);
    assert_eq!(
        room.host_player.messages_to_send,
        vec!["{\"type\":\"room-code\",\"content\":\"abacadab\"}"]
    );
}

#[test]
fn creating_a_room_drops_the_empty_ones() {
    let mut registry = RoomRegistry {
        rooms: vec![room("one", false, None), room("two", true, None), room("three", false, None)],
    };
    let place =
        registry.create_room(String::from("four"), None, String::from("LOOSE"), options(), 0);
    assert_eq!(place, 1);
    assert_eq!(codes(&registry.rooms), vec!["two", "four"]);
}

#[test]
fn creating_a_room_under_a_taken_code_replaces_the_old_room() {
    let mut registry = RoomRegistry {
        rooms: vec![
            room("one", true, None),
            room("two", true, Some(true)),
            room("three", true, None),
        ],
    };
    let place =
        registry.create_room(String::from("two"), None, String::from("CRANE"), options(), 0);
    assert_eq!(place, 1);
    assert_eq!(codes(&registry.rooms), vec!["one", "two", "three"]);
    assert!(registry.rooms[1].other_player.is_none());
    assert_eq!(registry.rooms[1].game_state.word_to_guess, "CRANE");
}

#[test]
fn find_room_by_code() {
    let registry = RoomRegistry {
        rooms: vec![room("one", true, None), room("two", true, None)],
    };
    assert_eq!(registry.find_room("one"), Some(0));
    assert_eq!(registry.find_room("two"), Some(1));
    assert_eq!(registry.find_room("three"), None);
    assert_eq!(RoomRegistry::new().find_room("one"), None);
}

#[test]
fn joining_starts_the_game() {
    let mut registry = RoomRegistry::new();
    registry.create_room(String::from("abacadab"), None, String::from("LOOSE"), options(), 0);
    registry.create_room(String::from("otherone"), None, String::from("CRANE"), options(), 0);
    let untouched = registry.rooms[1].clone();
    let info = Some(PlayerInfo { name: String::from("John client 2") });
    assert_eq!(registry.join_room("abacadab", info.clone(), 900), Ok(0));
    let room = &registry.rooms[0];
    assert!(room.game_started);
    assert_eq!(room.game_state.current_turn, 0);
    assert_eq!(room.game_state.current_phase, GamePhase::Typing);
    assert_eq!(
        room.host_player.messages_to_send,
        vec![
            "{\"type\":\"room-code\",\"content\":\"abacadab\"}",
            "{\"type\":\"other-player-connected\",\"content\":null}",
        ]
    );
    let other = room.other_player.as_ref().unwrap();
    assert_eq!(other.player_info, info);
    assert_eq!(other.last_ping_time, 900);
    assert!(other.connection_alive);
    assert_eq!(other.messages_to_send, vec!["{\"type\":\"wait-for-host\",\"content\":null}"]);
    assert_eq!(registry.rooms[1], untouched);
}

#[test]
fn joining_a_room_whose_host_is_ready_needs_no_waiting() {
    let mut ready = room("abacadab", true, None);
    ready.host_player.ready_to_restart = true;
    let mut registry = RoomRegistry { rooms: vec![ready] };
    assert_eq!(registry.join_room("abacadab", None, 0), Ok(0));
    assert!(registry.rooms[0].other_player.as_ref().unwrap().messages_to_send.is_empty());
}

#[test]
fn joining_an_unknown_room_fails() {
    let mut registry = RoomRegistry { rooms: vec![room("one", true, None)] };
    let before = registry.clone();
    assert_eq!(registry.join_room("two", None, 0), Err(JoinError::NoSuchRoom));
    assert_eq!(registry, before);
}

#[test]
fn joining_a_full_room_fails() {
    let mut registry = RoomRegistry::new();
    registry.create_room(String::from("abacadab"), None, String::from("LOOSE"), options(), 0);
    assert_eq!(registry.join_room("abacadab", None, 0), Ok(0));
    let before = registry.clone();
    assert_eq!(registry.join_room("abacadab", None, 0), Err(JoinError::RoomFull));
    assert_eq!(registry, before);
}

#[test]
fn registry_with_a_code_used_twice_is_not_well_formed() {
    assert!(RoomRegistry::new().is_well_formed());
    let good = RoomRegistry {
        rooms: vec![room("one", true, None), room("two", false, None), room("three", true, None)],
    };
    assert!(good.is_well_formed());
    let twice = RoomRegistry {
        rooms: vec![room("one", true, None), room("two", true, None), room("one", true, None)],
    };
    assert!(!twice.is_well_formed());
    let mut broken = room("two", true, None);
    broken.game_state.word_to_guess = String::from("nothing");
    let with_broken_room = RoomRegistry { rooms: vec![room("one", true, None), broken] };
    assert!(!with_broken_room.is_well_formed());
}
