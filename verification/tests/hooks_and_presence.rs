use smush_discord::character::Character;
use smush_discord::game_info::Info;
use smush_discord::presence::{presence_of, Lineup, IN_MATCH_STATE, IN_MENUS_STATE};
use smush_discord::scan::{
    find_subsequence, resolve_hook_offsets, HookOffsets, CLOSE_ARENA_PATTERN, DEFAULT_CLOSE_ARENA,
    DEFAULT_LOBBY_CALLER, DEFAULT_STRLEN_HOOK, LOBBY_CALLER_PATTERN, STRLEN_HOOK_PATTERN,
};
use smush_discord::stage::Stage;

#[test]
fn find_subsequence_finds_the_first_window() {
    let hay = [1u8, 2, 3, 1, 2, 3];
    assert_eq!(find_subsequence(&hay, &[2, 3]), Some(1));
    assert_eq!(find_subsequence(&hay, &[1]), Some(0));
    assert_eq!(find_subsequence(&hay, &[3, 1, 2, 3]), Some(2));
}

#[test]
fn find_subsequence_without_a_match() {
    let hay = [1u8, 2, 3];
    assert_eq!(find_subsequence(&hay, &[3, 2]), None);
    assert_eq!(find_subsequence(&hay, &[1, 2, 3, 4]), None);
    assert_eq!(find_subsequence(&[], &[1]), None);
}

#[test]
fn hook_offsets_fall_back_without_patterns() {
    let text = vec![0u8; 64];
    assert_eq!(
        resolve_hook_offsets(&text),
        HookOffsets {
            strlen_hook: DEFAULT_STRLEN_HOOK,
            lobby_caller: DEFAULT_LOBBY_CALLER,
            close_arena: DEFAULT_CLOSE_ARENA,
        }
    );
    assert_eq!(DEFAULT_STRLEN_HOOK, 0x1b52a0);
    assert_eq!(DEFAULT_LOBBY_CALLER, 0x225dc2c);
    assert_eq!(DEFAULT_CLOSE_ARENA, 0xd7140);
}

#[test]
fn hook_offsets_from_patterns() {
    let mut text = vec![0u8; 200];
    text[10..18].copy_from_slice(&STRLEN_HOOK_PATTERN);
    text[40..48].copy_from_slice(&LOBBY_CALLER_PATTERN);
    text[100..124].copy_from_slice(&CLOSE_ARENA_PATTERN);
    assert_eq!(
        resolve_hook_offsets(&text),
        HookOffsets { strlen_hook: 10 + 0x38, lobby_caller: 40 - 0xc, close_arena: 100 }
    );
}

#[test]
fn presence_in_menus() {
    let info = Info::new();
    let p = presence_of(&info);
    assert_eq!(p.state, IN_MENUS_STATE);
    assert_eq!(p.state, "In Menus");
    assert_eq!(p.large_image_key.as_deref(), Some("smash_ball"));
    assert!(p.lineup.is_none());
    assert!(p.details.is_none());
    assert!(p.stage.is_none());
    assert!(p.remaining_frames.is_none());
}

#[test]
fn presence_in_a_match() {
    let mut info = Info::new();
    info.set_player_information(0, Character::Mario, 3, false, 0, 0);
    info.set_player_information(1, Character::Link, 2, true, 1, 0);
    info.update_match_state(2, false, 3600);
    let p = presence_of(&info);
    assert_eq!(p.state, IN_MATCH_STATE);
    assert_eq!(p.state, "In Match");
    assert_eq!(
        p.lineup,
        Some(Lineup {
            left: Some(Character::Mario),
            left_stocks: 3,
            right: Some(Character::Link),
            right_stocks: 2,
        })
    );
    assert_eq!(p.details.as_deref(), Some("Mario 3 - 2 Link"));
    assert_eq!(p.stage, Some(Stage::NoStage));
    assert_eq!(p.large_image_key.as_deref(), Some("none"));
    assert_eq!(p.remaining_frames, Some(3600));
}

#[test]
fn presence_with_an_unknown_stage_code() {
    let mut info = Info::new();
    info.stage = 42;
    info.update_match_state(1, false, 60);
    let p = presence_of(&info);
    assert_eq!(p.stage, None);
    assert_eq!(p.large_image_key, None);
}

use smush_discord::presence::details_line;

#[test]
fn details_line_spells_the_lineup() {
    let lineup = Lineup {
        left: Some(Character::Zenigame),
        left_stocks: 10,
        right: None,
        right_stocks: 0,
    };
    assert_eq!(details_line(&lineup), "Zenigame 10 - 0 ?");
    let lineup = Lineup {
        left: Some(Character::NoFighter),
        left_stocks: u32::MAX,
        right: Some(Character::Bayonetta),
        right_stocks: 1234567,
    };
    assert_eq!(details_line(&lineup), "None 4294967295 - 1234567 Bayonetta");
}
