//! What a rich-presence client shows of the published game information:
//! during a match the two leading players and a line naming them, the
//! stage and the time left;
//! otherwise that the player is in the menus.

use vstd::prelude::*;
use crate::character::Character;
use crate::game_info::Info;
use crate::stage::{ascii_lowercase, image_key_base, stage_to_image_key, Stage};

verus! {

/// The state line shown during a match.
pub const IN_MATCH_STATE: &'static str = "In Match";

/// The state line shown outside a match.
pub const IN_MENUS_STATE: &'static str = "In Menus";

/// The image shown outside a match.
pub const MENU_IMAGE_KEY: &'static str = "smash_ball";

/// The two leading players of a match: the first two slots, each with its
/// fighter (or `None` where the stored code names none) and its stocks.
#[derive(Clone, Copy, Debug, PartialEq, Eq, Structural)]
pub struct Lineup {
    pub left: Option<Character>,
    pub left_stocks: u32,
    pub right: Option<Character>,
    pub right_stocks: u32,
}

/// The content of the presence a client shows.
#[derive(Debug)]
pub struct Presence {
    /// The state line.
    pub state: &'static str,
    /// During a match, the two leading players.
    pub lineup: Option<Lineup>,
    /// During a match, the details line naming them (see `details_of`).
    pub details: Option<String>,
    /// The key of the large image, where there is one.
    pub large_image_key: Option<String>,
    /// During a match, the stage, which names the large image.
    pub stage: Option<Stage>,
    /// During a match, the frames left on the clock.
    pub remaining_frames: Option<u32>,
}

/// The two leading players of `info`.
pub open spec fn lineup_of(info: Info) -> Lineup {
    Lineup {
        left: Character::decode(info.players@[0].character),
        left_stocks: info.players@[0].stocks,
        right: Character::decode(info.players@[1].character),
        right_stocks: info.players@[1].stocks,
    }
}

/// Whether `key` is the image key of the stage stored under `code`: there is
/// none where the code names no stage.
pub open spec fn is_stage_image_key(key: Option<String>, code: u32) -> bool {
    match Stage::decode(code) {
        Option::Some(s) => key matches Option::Some(k) && k@ == ascii_lowercase(image_key_base(s.name_of())),
        Option::None => key is None,
    }
}

/// The text of a single decimal digit.
pub open spec fn digit_text_of(d: int) -> Seq<char> {
    if d == 0 {
        "0"@
    } else if d == 1 {
        "1"@
    } else if d == 2 {
        "2"@
    } else if d == 3 {
        "3"@
    } else if d == 4 {
        "4"@
    } else if d == 5 {
        "5"@
    } else if d == 6 {
        "6"@
    } else if d == 7 {
        "7"@
    } else if d == 8 {
        "8"@
    } else if d == 9 {
        "9"@
    } else {
        Seq::empty()
    }
}

/// The decimal numeral of `n`, without leading zeros.
pub open spec fn decimal(n: nat) -> Seq<char>
    decreases n,
{
    if n < 10 {
        digit_text_of(n as int)
    } else {
        decimal(n / 10) + digit_text_of((n % 10) as int)
    }
}

/// How a slot's fighter is named in the details line: its name, or `?`
/// where the stored code names no fighter.
pub open spec fn fighter_label(c: Option<Character>) -> Seq<char> {
    match c {
        Option::Some(c) => c.name_of(),
        Option::None => "?"@,
    }
}

/// The details line of a match: the left fighter, its stocks, ` - `, the
/// right player's stocks and the right fighter, separated by spaces.
pub open spec fn details_of(lineup: Lineup) -> Seq<char> {
    fighter_label(lineup.left) + " "@ + decimal(lineup.left_stocks as nat) + " - "@
        + decimal(lineup.right_stocks as nat) + " "@ + fighter_label(lineup.right)
}

/// The text of the decimal digit `d`.
fn digit_text(d: u32) -> (t: &'static str)
    requires
        d < 10,
    ensures
        t@ == digit_text_of(d as int),
{
    match d {
        0 => "0",
        1 => "1",
        2 => "2",
        3 => "3",
        4 => "4",
        5 => "5",
        6 => "6",
        7 => "7",
        8 => "8",
        _ => "9",
    }
}

/// Appends the decimal numeral of `n` to `s`.
fn append_decimal(s: &mut String, n: u32)
    ensures
        final(s)@ == old(s)@ + decimal(n as nat),
    decreases n,
{
    if n >= 10 {
        append_decimal(s, n / 10);
    }
    s.append(digit_text(n % 10));
    proof {
        if n >= 10 {
            assert(old(s)@ + decimal((n / 10) as nat) + digit_text_of((n % 10) as int)
                =~= old(s)@ + decimal(n as nat));
        } else {
            assert(n % 10 == n);
        }
    }
}

/// Appends the label of a slot's fighter to `s`.
fn append_fighter_label(s: &mut String, c: Option<Character>)
    ensures
        final(s)@ == old(s)@ + fighter_label(c),
{
    match c {
        Option::Some(c) => s.append(c.name()),
        Option::None => s.append("?"),
    }
}

/// The details line of a match, as `details_of` spells it.
pub fn details_line(lineup: &Lineup) -> (line: String)
    ensures
        line@ == details_of(*lineup),
{
    let mut line = String::new();
    append_fighter_label(&mut line, lineup.left);
    line.append(" ");
    append_decimal(&mut line, lineup.left_stocks);
    line.append(" - ");
    append_decimal(&mut line, lineup.right_stocks);
    line.append(" ");
    append_fighter_label(&mut line, lineup.right);
    assert(line@ =~= details_of(*lineup));
    line
}

/// The presence that shows `info`: during a match the "In Match" state, the
/// two leading players, the stage with its image and the frames left;
/// otherwise the "In Menus" state and the menu image.
pub fn presence_of(info: &Info) -> (p: Presence)
    ensures
        info.is_match ==> {
            &&& p.state@ == IN_MATCH_STATE@
            &&& p.lineup == Option::Some(lineup_of(*info))
            &&& p.details matches Option::Some(d) && d@ == details_of(lineup_of(*info))
            &&& p.stage == Stage::decode(info.stage)
            &&& is_stage_image_key(p.large_image_key, info.stage)
            &&& p.remaining_frames == Option::Some(info.remaining_frames)
        },
        !info.is_match ==> {
            &&& p.state@ == IN_MENUS_STATE@
            &&& p.lineup is None
            &&& p.details is None
            &&& p.stage is None
            &&& p.large_image_key matches Option::Some(k) && k@ == MENU_IMAGE_KEY@
            &&& p.remaining_frames is None
        },
{
    if info.is_match() {
        let first = info.player(0);
        let second = info.player(1);
        let lineup = Lineup {
            left: first.character(),
            left_stocks: first.stocks(),
            right: second.character(),
            right_stocks: second.stocks(),
        };
        let details = details_line(&lineup);
        let stage = info.stage();
        let large_image_key = match stage {
            Option::Some(s) => Option::Some(stage_to_image_key(s)),
            Option::None => Option::None,
        };
        Presence {
            state: IN_MATCH_STATE,
            lineup: Option::Some(lineup),
            details: Option::Some(details),
            large_image_key,
            stage,
            remaining_frames: Option::Some(info.remaining_frames()),
        }
    } else {
        Presence {
            state: IN_MENUS_STATE,
            lineup: Option::None,
            details: Option::None,
            large_image_key: Option::Some(MENU_IMAGE_KEY.to_owned()),
            stage: Option::None,
            remaining_frames: Option::None,
        }
    }
}

} // verus!
