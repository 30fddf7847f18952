use smush_discord::character::{Character, CHARACTER_COUNT};
use smush_discord::stage::{image_key_from_name, stage_to_image_key, Stage, STAGE_COUNT};

#[test]
fn character_codes_follow_the_list() {
    assert_eq!(Character::NoFighter.code(), 0);
    assert_eq!(Character::Bayonetta.code(), 1);
    assert_eq!(Character::Mario.code(), 37);
    assert_eq!(Character::Zenigame.code(), 90);
    assert_eq!(CHARACTER_COUNT, 91);
}

#[test]
fn character_codes_round_trip() {
    for code in 0..CHARACTER_COUNT {
        let c = Character::from_code(code).unwrap();
        assert_eq!(c.code(), code);
    }
    assert_eq!(Character::from_code(37), Some(Character::Mario));
}

#[test]
fn unknown_character_code_names_no_fighter() {
    assert_eq!(Character::from_code(CHARACTER_COUNT), None);
    assert_eq!(Character::from_code(u32::MAX), None);
}

#[test]
fn stage_codes_round_trip() {
    assert_eq!(STAGE_COUNT, 1);
    assert_eq!(Stage::NoStage.code(), 0);
    assert_eq!(Stage::from_code(0), Some(Stage::NoStage));
    assert_eq!(Stage::from_code(1), None);
    assert_eq!(Stage::NoStage.name(), "None");
}

#[test]
fn stage_image_key_of_no_stage() {
    assert_eq!(stage_to_image_key(Stage::NoStage), "none");
}

#[test]
fn image_key_strips_battle_prefix() {
    assert_eq!(image_key_from_name("Battle_Mario_Castle"), "mario_castle");
}

#[test]
fn image_key_strips_end_prefix() {
    assert_eq!(image_key_from_name("End_Pokemon_Stadium"), "pokemon_stadium");
}

#[test]
fn image_key_trims_leading_underscores_first() {
    assert_eq!(image_key_from_name("__Battle_FinalDest"), "finaldest");
    assert_eq!(image_key_from_name("_Training"), "training");
}

#[test]
fn image_key_strips_only_one_prefix() {
    assert_eq!(image_key_from_name("Battle_End_Zone"), "end_zone");
    assert_eq!(image_key_from_name("End_Battle_Zone"), "battle_zone");
}

#[test]
fn image_key_edge_cases() {
    assert_eq!(image_key_from_name(""), "");
    assert_eq!(image_key_from_name("___"), "");
    assert_eq!(image_key_from_name("Battle_"), "");
    assert_eq!(image_key_from_name("Battle"), "battle");
    assert_eq!(image_key_from_name("End"), "end");
}

#[test]
fn image_key_lowercases_beyond_ascii() {
    assert_eq!(image_key_from_name("Battle_ÉCOLE"), "école");
}

#[test]
fn character_names_follow_the_fighter_table() {
    assert_eq!(Character::NoFighter.name(), "None");
    assert_eq!(Character::Bayonetta.name(), "Bayonetta");
    assert_eq!(Character::Mario.name(), "Mario");
    assert_eq!(Character::Zenigame.name(), "Zenigame");
}
