use smush_discord::character::Character;
use smush_discord::game_info::{Info, Player, ARENA_ID_LEN, PLAYER_COUNT};
use smush_discord::stage::Stage;

#[test]
fn new_player_is_an_empty_slot() {
    let p = Player::new();
    assert_eq!(p.character, 0);
    assert_eq!(p.stocks, 0);
    assert!(!p.is_cpu);
    assert_eq!(p.skin, 0);
    assert_eq!(p.damage_bits, 0);
    assert_eq!(p.character(), Some(Character::NoFighter));
}

#[test]
fn new_info_is_the_initial_state() {
    let info = Info::new();
    assert_eq!(info.stage(), Some(Stage::NoStage));
    assert!(!info.is_match());
    assert_eq!(info.remaining_frames(), 0);
    assert!(info.arena_id.is_none());
    for i in 0..PLAYER_COUNT {
        assert_eq!(info.player(i), Player::new());
    }
}

#[test]
fn player_information_reads_back() {
    let mut info = Info::new();
    info.set_player_information(3, Character::Mario, 2, true, 4, 42.5f32.to_bits());
    let p = info.player(3);
    assert_eq!(p.character(), Some(Character::Mario));
    assert_eq!(p.stocks(), 2);
    assert!(p.is_cpu);
    assert_eq!(p.skin, 5);
    assert_eq!(f32::from_bits(p.damage_bits), 42.5);
    for i in 0..PLAYER_COUNT {
        if i != 3 {
            assert_eq!(info.player(i), Player::new());
        }
    }
    assert_eq!(info.stage(), Some(Stage::NoStage));
}

#[test]
fn player_information_overwrites_a_slot() {
    let mut info = Info::new();
    info.set_player_information(0, Character::Link, 3, false, 0, 0);
    info.set_player_information(0, Character::Zelda, 1, true, 7, 120.0f32.to_bits());
    let p = info.player(0);
    assert_eq!(p.character(), Some(Character::Zelda));
    assert_eq!(p.stocks(), 1);
    assert!(p.is_cpu);
    assert_eq!(p.skin, 8);
    assert_eq!(f32::from_bits(p.damage_bits), 120.0);
}

#[test]
fn costume_numbered_from_one() {
    let mut info = Info::new();
    info.set_player_information(7, Character::Kirby, 1, false, -1, 0);
    assert_eq!(info.player(7).skin, 0);
    info.set_player_information(7, Character::Kirby, 1, false, -2, 0);
    assert_eq!(info.player(7).skin, u32::MAX);
}

#[test]
fn stage_reads_back() {
    let mut info = Info::new();
    info.set_stage(Stage::NoStage);
    assert_eq!(info.stage(), Some(Stage::NoStage));
    assert_eq!(info.stage, 0);
}

#[test]
fn match_state_in_a_match() {
    let mut info = Info::new();
    info.update_match_state(2, false, 10_800);
    assert!(info.is_match());
    assert_eq!(info.remaining_frames(), 10_800);
}

#[test]
fn match_state_on_result_screen() {
    let mut info = Info::new();
    info.update_match_state(2, false, 10_800);
    info.update_match_state(2, true, 500);
    assert!(!info.is_match());
    assert_eq!(info.remaining_frames(), 0);
}

#[test]
fn match_state_without_fighters() {
    let mut info = Info::new();
    info.update_match_state(0, false, 500);
    assert!(!info.is_match());
    assert_eq!(info.remaining_frames(), 0);
    info.update_match_state(-1, false, 500);
    assert!(!info.is_match());
}

#[test]
fn arena_id_from_the_lobby_is_recorded() {
    let mut info = Info::new();
    assert_eq!(ARENA_ID_LEN, 5);
    info.record_arena_id(0x225dc2c, 0x225dc2c, "7QK2M");
    assert_eq!(info.arena_id.as_deref(), Some("7QK2M"));
}

#[test]
fn arena_id_of_wrong_length_or_caller_is_ignored() {
    let mut info = Info::new();
    info.record_arena_id(0x225dc2c, 0x225dc2c, "7QK2");
    assert!(info.arena_id.is_none());
    info.record_arena_id(0x100, 0x225dc2c, "7QK2M");
    assert!(info.arena_id.is_none());
    info.record_arena_id(0x225dc2c, 0x225dc2c, "ABCDE");
    info.record_arena_id(0x225dc2c, 0x225dc2c, "ABCDEF");
    assert_eq!(info.arena_id.as_deref(), Some("ABCDE"));
}

#[test]
fn arena_id_is_cleared() {
    let mut info = Info::new();
    info.record_arena_id(1, 1, "ABCDE");
    info.clear_arena_id();
    assert!(info.arena_id.is_none());
}
