//! The state of a match as the plugin publishes it: the stage, whether a
//! match is running and how many frames it has left, the id of the online
//! arena, and for each of the eight player slots the fighter, the stocks
//! left, whether the computer plays it, the costume slot and the damage.

use vstd::prelude::*;
use crate::character::Character;
use crate::stage::Stage;

verus! {

/// The number of player slots.
pub const PLAYER_COUNT: usize = 8;

/// The length, in bytes, of an online arena id.
pub const ARENA_ID_LEN: usize = 5;

/// One player slot. The fighter is held as its code, the form in which it
/// travels on the wire.
#[derive(Clone, Copy, Debug, PartialEq, Eq, Structural)]
pub struct Player {
    /// The code of the slot's fighter (see `Character::code`).
    pub character: u32,
    /// The stocks the player has left.
    pub stocks: u32,
    /// Whether the computer plays this slot.
    pub is_cpu: bool,
    /// The costume slot, counted from 1 as the game's menus count it.
    pub skin: u32,
    /// The damage the player has taken, a floating-point percentage, held as
    /// the bits of its IEEE 754 single-precision form.
    pub damage_bits: u32,
}

/// The whole published state.
#[derive(Debug)]
pub struct Info {
    /// The code of the current stage (see `Stage::code`).
    pub stage: u32,
    /// The player slots, indexed by the game's entry id.
    pub players: [Player; 8],
    /// The frames left on the match clock; 0 outside a match.
    pub remaining_frames: u32,
    /// Whether a match is running.
    pub is_match: bool,
    /// The id of the online arena the player is in, if any.
    pub arena_id: Option<String>,
}

impl Player {
    /// An empty slot: no fighter, no stocks, played by a person, no costume.
    pub open spec fn empty() -> Player {
        Player {
            character: Character::NoFighter.code_of(),
            stocks: 0,
            is_cpu: false,
            skin: 0,
            damage_bits: 0,
        }
    }

    /// The costume slot, counted from 1, of the costume the game numbers
    /// `color` counting from 0.
    pub open spec fn skin_of(color: i32) -> u32 {
        (color + 1) as u32
    }

    /// The slot as the game reports it: `character` with `stocks` stocks
    /// left, played by the computer when `is_cpu` holds, in costume `color`,
    /// with the damage whose bits are `damage_bits`.
    pub open spec fn reported(
        character: Character,
        stocks: u32,
        is_cpu: bool,
        color: i32,
        damage_bits: u32,
    ) -> Player {
        Player {
            character: character.code_of(),
            stocks,
            is_cpu,
            skin: Player::skin_of(color),
            damage_bits,
        }
    }

    /// An empty slot: no fighter, no stocks, played by a person, no costume.
    pub fn new() -> (p: Player)
        ensures
            p == Player::empty(),
    {
        Player {
            character: Character::NoFighter.code(),
            stocks: 0,
            is_cpu: false,
            skin: 0,
            damage_bits: 0,
        }
    }

    /// The slot's fighter, or `None` where the stored code names no fighter.
    pub fn character(&self) -> (c: Option<Character>)
        ensures
            c == Character::decode(self.character),
    {
        Character::from_code(self.character)
    }

    /// The stocks the player has left.
    pub fn stocks(&self) -> (s: u32)
        ensures
            s == self.stocks,
    {
        self.stocks
    }
}

/// Whether the game is in a match: some fighter has entered and the result
/// screen is not showing.
pub open spec fn in_match(entry_count: i32, is_result_mode: bool) -> bool {
    entry_count > 0 && !is_result_mode
}

impl Info {
    /// The state before any match: no stage, eight empty slots, no match,
    /// no frames left and no arena.
    pub open spec fn initial(self) -> bool {
        &&& self.stage == Stage::NoStage.code_of()
        &&& forall|i: int| 0 <= i < PLAYER_COUNT ==> #[trigger] self.players@[i] == Player::empty()
        &&& self.remaining_frames == 0
        &&& !self.is_match
        &&& self.arena_id is None
    }

    /// `self` is `before` with slot `index` replaced by `p`, all else kept.
    pub open spec fn is_player_update_of(self, before: Info, index: int, p: Player) -> bool {
        &&& self.players@ == before.players@.update(index, p)
        &&& self.stage == before.stage
        &&& self.remaining_frames == before.remaining_frames
        &&& self.is_match == before.is_match
        &&& self.arena_id == before.arena_id
    }

    /// `self` is `before` with everything but the match state kept.
    pub open spec fn keeps_all_but_match_state(self, before: Info) -> bool {
        &&& self.players == before.players
        &&& self.stage == before.stage
        &&& self.arena_id == before.arena_id
    }

    /// The state before any match: no stage, eight empty slots, no match,
    /// no frames left and no arena.
    pub fn new() -> (info: Info)
        ensures
            info.initial(),
    {
        let p = Player::new();
        Info {
            stage: Stage::NoStage.code(),
            players: [p; 8],
            remaining_frames: 0,
            is_match: false,
            arena_id: Option::None,
        }
    }

    /// The current stage, or `None` where the stored code names no stage.
    pub fn stage(&self) -> (s: Option<Stage>)
        ensures
            s == Stage::decode(self.stage),
    {
        Stage::from_code(self.stage)
    }

    /// Whether a match is running.
    pub fn is_match(&self) -> (m: bool)
        ensures
            m == self.is_match,
    {
        self.is_match
    }

    /// The frames left on the match clock.
    pub fn remaining_frames(&self) -> (f: u32)
        ensures
            f == self.remaining_frames,
    {
        self.remaining_frames
    }

    /// The slot with entry id `index`.
    pub fn player(&self, index: usize) -> (p: Player)
        requires
            index < PLAYER_COUNT,
        ensures
            p == self.players@[index as int],
    {
        self.players[index]
    }

    /// Records the stage a match is played on; all else is kept.
    pub fn set_stage(&mut self, stage: Stage)
        ensures
            final(self).stage == stage.code_of(),
            final(self).players == old(self).players,
            final(self).remaining_frames == old(self).remaining_frames,
            final(self).is_match == old(self).is_match,
            final(self).arena_id == old(self).arena_id,
    {
        self.stage = stage.code();
    }

    /// Records what the game reports of the player with entry id `entry_id`:
    /// the fighter, the stocks left, whether the computer plays it, the
    /// costume, which the game numbers from 0 and which is kept numbered
    /// from 1, and the bits of the damage taken. All else is kept.
    pub fn set_player_information(
        &mut self,
        entry_id: i32,
        character: Character,
        stock_count: u32,
        is_cpu: bool,
        color: i32,
        damage_bits: u32,
    )
        requires
            0 <= entry_id < PLAYER_COUNT,
            color < i32::MAX,
        ensures
            final(self).is_player_update_of(
                *old(self),
                entry_id as int,
                Player::reported(character, stock_count, is_cpu, color, damage_bits),
            ),
    {
        let player_num = entry_id as usize;
        let skin = (color + 1) as u32;
        self.players[player_num] = Player {
            character: character.code(),
            stocks: stock_count,
            is_cpu,
            skin,
            damage_bits,
        };
    }

    /// Records whether a match is running, from the number of fighters that
    /// entered and whether the result screen shows, and the frames left on
    /// the clock, which count only in a match and are 0 outside one.
    pub fn update_match_state(&mut self, entry_count: i32, is_result_mode: bool, clock_frames: u32)
        ensures
            final(self).is_match == in_match(entry_count, is_result_mode),
            final(self).remaining_frames == (if in_match(entry_count, is_result_mode) {
                clock_frames
            } else {
                0
            }),
            final(self).keeps_all_but_match_state(*old(self)),
            is_result_mode ==> !final(self).is_match && final(self).remaining_frames == 0,
            entry_count <= 0 ==> !final(self).is_match && final(self).remaining_frames == 0,
            entry_count > 0 && !is_result_mode ==> final(self).is_match
                && final(self).remaining_frames == clock_frames,
    {
        let is_match = entry_count > 0 && !is_result_mode;
        if is_match {
            self.remaining_frames = clock_frames;
            self.is_match = true;
        } else {
            self.remaining_frames = 0;
            self.is_match = false;
        }
    }

    /// Records the id of the arena the player entered, when it comes from
    /// the lobby call site (`caller_offset == lobby_caller`) and has the
    /// length of an arena id; otherwise all is kept.
    pub fn record_arena_id(&mut self, caller_offset: u64, lobby_caller: u64, id: &str)
        ensures
            caller_offset == lobby_caller && id.len() == ARENA_ID_LEN ==> (
            final(self).arena_id matches Option::Some(a) && a@ == id@),
            !(caller_offset == lobby_caller && id.len() == ARENA_ID_LEN)
                ==> final(self).arena_id == old(self).arena_id,
            final(self).players == old(self).players,
            final(self).stage == old(self).stage,
            final(self).remaining_frames == old(self).remaining_frames,
            final(self).is_match == old(self).is_match,
    {
        if caller_offset == lobby_caller && id.len() == ARENA_ID_LEN {
            self.arena_id = Option::Some(id.to_owned());
        }
    }

    /// Forgets the arena id when the arena closes; all else is kept.
    pub fn clear_arena_id(&mut self)
        ensures
            final(self).arena_id is None,
            final(self).players == old(self).players,
            final(self).stage == old(self).stage,
            final(self).remaining_frames == old(self).remaining_frames,
            final(self).is_match == old(self).is_match,
    {
        self.arena_id = Option::None;
    }
}

/// What is recorded of a player is what is read back of that slot, and
/// every other slot reads back as before.
pub proof fn lemma_player_update_reads_back(
    before: Info,
    after: Info,
    index: int,
    character: Character,
    stocks: u32,
    is_cpu: bool,
    color: i32,
    damage_bits: u32,
)
    requires
        0 <= index < PLAYER_COUNT,
        color < i32::MAX,
        after.is_player_update_of(
            before,
            index,
            Player::reported(character, stocks, is_cpu, color, damage_bits),
        ),
    ensures
        Character::decode(after.players@[index].character) == Option::Some(character),
        after.players@[index].stocks == stocks,
        after.players@[index].is_cpu == is_cpu,
        color >= 0 ==> after.players@[index].skin == color + 1,
        after.players@[index].damage_bits == damage_bits,
        forall|j: int|
            0 <= j < PLAYER_COUNT && j != index ==> #[trigger] after.players@[j] == before.players@[j],
        Stage::decode(after.stage) == Stage::decode(before.stage),
{
    crate::character::lemma_character_code_round_trip(character);
}

/// The stage that is recorded is the stage that is read back.
pub proof fn lemma_stage_update_reads_back(info: Info, stage: Stage)
    requires
        info.stage == stage.code_of(),
    ensures
        Stage::decode(info.stage) == Option::Some(stage),
{
    crate::stage::lemma_stage_code_round_trip(stage);
}

/// In the initial state every slot reads back as no fighter with no stocks,
/// the stage as no stage, and no match is running.
pub proof fn lemma_initial_reads_back(info: Info, index: int)
    requires
        info.initial(),
        0 <= index < PLAYER_COUNT,
    ensures
        Character::decode(info.players@[index].character) == Option::Some(Character::NoFighter),
        info.players@[index].stocks == 0,
        !info.players@[index].is_cpu,
        Stage::decode(info.stage) == Option::Some(Stage::NoStage),
        !info.is_match,
        info.remaining_frames == 0,
{
    assert(info.players@[index] == Player::empty());
}

/// A match runs exactly when some fighter has entered and the result screen
/// does not show: while the result screen shows, or before anyone entered,
/// there is no match, whatever the other input.
pub proof fn lemma_match_needs_fighters_and_no_result_screen(entry_count: i32, is_result_mode: bool)
    ensures
        is_result_mode ==> !in_match(entry_count, is_result_mode),
        entry_count <= 0 ==> !in_match(entry_count, is_result_mode),
        entry_count > 0 && !is_result_mode ==> in_match(entry_count, is_result_mode),
{
}

/// Outside a match no frames are left on the published clock.
pub proof fn lemma_no_frames_outside_match(info: Info, entry_count: i32, is_result_mode: bool, clock_frames: u32)
    requires
        info.is_match == in_match(entry_count, is_result_mode),
        info.remaining_frames == (if in_match(entry_count, is_result_mode) { clock_frames } else { 0 }),
    ensures
        !info.is_match ==> info.remaining_frames == 0,
        info.is_match ==> info.remaining_frames == clock_frames,
{
}

} // verus!
