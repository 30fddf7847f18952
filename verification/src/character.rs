//! The fighters of the game and the numeric codes under which the game
//! information carries them.

use vstd::prelude::*;

verus! {

/// A fighter, or `NoFighter` while a slot has no fighter.
///
/// Each fighter is carried on the wire as its code: its position in this list,
/// so `NoFighter` is 0, `Bayonetta` is 1 and `Zenigame` is the last code.
#[derive(Clone, Copy, Debug, PartialEq, Eq, Structural)]
pub enum Character {
    NoFighter,
    Bayonetta,
    Brave,
    Buddy,
    Captain,
    Chrom,
    Cloud,
    Daisy,
    Dedede,
    Diddy,
    Dolly,
    Donkey,
    Duckhunt,
    Falco,
    Fox,
    Fushigisou,
    Gamewatch,
    Ganon,
    Gaogaen,
    Gekkouga,
    Ike,
    Inkling,
    Jack,
    Kamui,
    Ken,
    Kirby,
    Koopa,
    Koopag,
    Koopajr,
    Krool,
    Link,
    Littlemac,
    Lizardon,
    Lucario,
    Lucas,
    Lucina,
    Luigi,
    Mario,
    Mariod,
    Marth,
    Master,
    Metaknight,
    Mewtwo,
    Miienemyf,
    Miienemyg,
    Miienemys,
    Miifighter,
    Miigunner,
    Miiswordsman,
    Murabito,
    Nana,
    Ness,
    Packun,
    Pacman,
    Palutena,
    Peach,
    Pfushigisou,
    Pichu,
    Pikachu,
    Pikmin,
    Pit,
    Pitb,
    Plizardon,
    Popo,
    Purin,
    Pzenigame,
    Reflet,
    Richter,
    Ridley,
    Robot,
    Rockman,
    Rosetta,
    Roy,
    Ryu,
    Samus,
    Samusd,
    Sheik,
    Shizue,
    Shulk,
    Simon,
    Snake,
    Sonic,
    Szerosuit,
    Toonlink,
    Wario,
    Wiifit,
    Wolf,
    Yoshi,
    Younglink,
    Zelda,
    Zenigame,
}

/// The number of fighters, `NoFighter` included: the codes are `0..CHARACTER_COUNT`.
pub const CHARACTER_COUNT: u32 = 91;

impl Character {
    /// The code of a fighter: its position in the list of fighters.
    pub open spec fn code_of(self) -> u32 {
        match self {
            Character::NoFighter => 0,
            Character::Bayonetta => 1,
            Character::Brave => 2,
            Character::Buddy => 3,
            Character::Captain => 4,
            Character::Chrom => 5,
            Character::Cloud => 6,
            Character::Daisy => 7,
            Character::Dedede => 8,
            Character::Diddy => 9,
            Character::Dolly => 10,
            Character::Donkey => 11,
            Character::Duckhunt => 12,
            Character::Falco => 13,
            Character::Fox => 14,
            Character::Fushigisou => 15,
            Character::Gamewatch => 16,
            Character::Ganon => 17,
            Character::Gaogaen => 18,
            Character::Gekkouga => 19,
            Character::Ike => 20,
            Character::Inkling => 21,
            Character::Jack => 22,
            Character::Kamui => 23,
            Character::Ken => 24,
            Character::Kirby => 25,
            Character::Koopa => 26,
            Character::Koopag => 27,
            Character::Koopajr => 28,
            Character::Krool => 29,
            Character::Link => 30,
            Character::Littlemac => 31,
            Character::Lizardon => 32,
            Character::Lucario => 33,
            Character::Lucas => 34,
            Character::Lucina => 35,
            Character::Luigi => 36,
            Character::Mario => 37,
            Character::Mariod => 38,
            Character::Marth => 39,
            Character::Master => 40,
            Character::Metaknight => 41,
            Character::Mewtwo => 42,
            Character::Miienemyf => 43,
            Character::Miienemyg => 44,
            Character::Miienemys => 45,
            Character::Miifighter => 46,
            Character::Miigunner => 47,
            Character::Miiswordsman => 48,
            Character::Murabito => 49,
            Character::Nana => 50,
            Character::Ness => 51,
            Character::Packun => 52,
            Character::Pacman => 53,
            Character::Palutena => 54,
            Character::Peach => 55,
            Character::Pfushigisou => 56,
            Character::Pichu => 57,
            Character::Pikachu => 58,
            Character::Pikmin => 59,
            Character::Pit => 60,
            Character::Pitb => 61,
            Character::Plizardon => 62,
            Character::Popo => 63,
            Character::Purin => 64,
            Character::Pzenigame => 65,
            Character::Reflet => 66,
            Character::Richter => 67,
            Character::Ridley => 68,
            Character::Robot => 69,
            Character::Rockman => 70,
            Character::Rosetta => 71,
            Character::Roy => 72,
            Character::Ryu => 73,
            Character::Samus => 74,
            Character::Samusd => 75,
            Character::Sheik => 76,
            Character::Shizue => 77,
            Character::Shulk => 78,
            Character::Simon => 79,
            Character::Snake => 80,
            Character::Sonic => 81,
            Character::Szerosuit => 82,
            Character::Toonlink => 83,
            Character::Wario => 84,
            Character::Wiifit => 85,
            Character::Wolf => 86,
            Character::Yoshi => 87,
            Character::Younglink => 88,
            Character::Zelda => 89,
            Character::Zenigame => 90,
        }
    }

    /// The fighter that a code names, if the code is one of `0..CHARACTER_COUNT`.
    pub open spec fn decode(code: u32) -> Option<Character> {
        match code {
            0 => Option::Some(Character::NoFighter),
            1 => Option::Some(Character::Bayonetta),
            2 => Option::Some(Character::Brave),
            3 => Option::Some(Character::Buddy),
            4 => Option::Some(Character::Captain),
            5 => Option::Some(Character::Chrom),
            6 => Option::Some(Character::Cloud),
            7 => Option::Some(Character::Daisy),
            8 => Option::Some(Character::Dedede),
            9 => Option::Some(Character::Diddy),
            10 => Option::Some(Character::Dolly),
            11 => Option::Some(Character::Donkey),
            12 => Option::Some(Character::Duckhunt),
            13 => Option::Some(Character::Falco),
            14 => Option::Some(Character::Fox),
            15 => Option::Some(Character::Fushigisou),
            16 => Option::Some(Character::Gamewatch),
            17 => Option::Some(Character::Ganon),
            18 => Option::Some(Character::Gaogaen),
            19 => Option::Some(Character::Gekkouga),
            20 => Option::Some(Character::Ike),
            21 => Option::Some(Character::Inkling),
            22 => Option::Some(Character::Jack),
            23 => Option::Some(Character::Kamui),
            24 => Option::Some(Character::Ken),
            25 => Option::Some(Character::Kirby),
            26 => Option::Some(Character::Koopa),
            27 => Option::Some(Character::Koopag),
            28 => Option::Some(Character::Koopajr),
            29 => Option::Some(Character::Krool),
            30 => Option::Some(Character::Link),
            31 => Option::Some(Character::Littlemac),
            32 => Option::Some(Character::Lizardon),
            33 => Option::Some(Character::Lucario),
            34 => Option::Some(Character::Lucas),
            35 => Option::Some(Character::Lucina),
            36 => Option::Some(Character::Luigi),
            37 => Option::Some(Character::Mario),
            38 => Option::Some(Character::Mariod),
            39 => Option::Some(Character::Marth),
            40 => Option::Some(Character::Master),
            41 => Option::Some(Character::Metaknight),
            42 => Option::Some(Character::Mewtwo),
            43 => Option::Some(Character::Miienemyf),
            44 => Option::Some(Character::Miienemyg),
            45 => Option::Some(Character::Miienemys),
            46 => Option::Some(Character::Miifighter),
            47 => Option::Some(Character::Miigunner),
            48 => Option::Some(Character::Miiswordsman),
            49 => Option::Some(Character::Murabito),
            50 => Option::Some(Character::Nana),
            51 => Option::Some(Character::Ness),
            52 => Option::Some(Character::Packun),
            53 => Option::Some(Character::Pacman),
            54 => Option::Some(Character::Palutena),
            55 => Option::Some(Character::Peach),
            56 => Option::Some(Character::Pfushigisou),
            57 => Option::Some(Character::Pichu),
            58 => Option::Some(Character::Pikachu),
            59 => Option::Some(Character::Pikmin),
            60 => Option::Some(Character::Pit),
            61 => Option::Some(Character::Pitb),
            62 => Option::Some(Character::Plizardon),
            63 => Option::Some(Character::Popo),
            64 => Option::Some(Character::Purin),
            65 => Option::Some(Character::Pzenigame),
            66 => Option::Some(Character::Reflet),
            67 => Option::Some(Character::Richter),
            68 => Option::Some(Character::Ridley),
            69 => Option::Some(Character::Robot),
            70 => Option::Some(Character::Rockman),
            71 => Option::Some(Character::Rosetta),
            72 => Option::Some(Character::Roy),
            73 => Option::Some(Character::Ryu),
            74 => Option::Some(Character::Samus),
            75 => Option::Some(Character::Samusd),
            76 => Option::Some(Character::Sheik),
            77 => Option::Some(Character::Shizue),
            78 => Option::Some(Character::Shulk),
            79 => Option::Some(Character::Simon),
            80 => Option::Some(Character::Snake),
            81 => Option::Some(Character::Sonic),
            82 => Option::Some(Character::Szerosuit),
            83 => Option::Some(Character::Toonlink),
            84 => Option::Some(Character::Wario),
            85 => Option::Some(Character::Wiifit),
            86 => Option::Some(Character::Wolf),
            87 => Option::Some(Character::Yoshi),
            88 => Option::Some(Character::Younglink),
            89 => Option::Some(Character::Zelda),
            90 => Option::Some(Character::Zenigame),
            _ => Option::None,
        }
    }

    /// The name under which the game's fighter table lists a fighter;
    /// `NoFighter` is listed as `None`.
    pub open spec fn name_of(self) -> Seq<char> {
        match self {
            Character::NoFighter => "None"@,
            Character::Bayonetta => "Bayonetta"@,
            Character::Brave => "Brave"@,
            Character::Buddy => "Buddy"@,
            Character::Captain => "Captain"@,
            Character::Chrom => "Chrom"@,
            Character::Cloud => "Cloud"@,
            Character::Daisy => "Daisy"@,
            Character::Dedede => "Dedede"@,
            Character::Diddy => "Diddy"@,
            Character::Dolly => "Dolly"@,
            Character::Donkey => "Donkey"@,
            Character::Duckhunt => "Duckhunt"@,
            Character::Falco => "Falco"@,
            Character::Fox => "Fox"@,
            Character::Fushigisou => "Fushigisou"@,
            Character::Gamewatch => "Gamewatch"@,
            Character::Ganon => "Ganon"@,
            Character::Gaogaen => "Gaogaen"@,
            Character::Gekkouga => "Gekkouga"@,
            Character::Ike => "Ike"@,
            Character::Inkling => "Inkling"@,
            Character::Jack => "Jack"@,
            Character::Kamui => "Kamui"@,
            Character::Ken => "Ken"@,
            Character::Kirby => "Kirby"@,
            Character::Koopa => "Koopa"@,
            Character::Koopag => "Koopag"@,
            Character::Koopajr => "Koopajr"@,
            Character::Krool => "Krool"@,
            Character::Link => "Link"@,
            Character::Littlemac => "Littlemac"@,
            Character::Lizardon => "Lizardon"@,
            Character::Lucario => "Lucario"@,
            Character::Lucas => "Lucas"@,
            Character::Lucina => "Lucina"@,
            Character::Luigi => "Luigi"@,
            Character::Mario => "Mario"@,
            Character::Mariod => "Mariod"@,
            Character::Marth => "Marth"@,
            Character::Master => "Master"@,
            Character::Metaknight => "Metaknight"@,
            Character::Mewtwo => "Mewtwo"@,
            Character::Miienemyf => "Miienemyf"@,
            Character::Miienemyg => "Miienemyg"@,
            Character::Miienemys => "Miienemys"@,
            Character::Miifighter => "Miifighter"@,
            Character::Miigunner => "Miigunner"@,
            Character::Miiswordsman => "Miiswordsman"@,
            Character::Murabito => "Murabito"@,
            Character::Nana => "Nana"@,
            Character::Ness => "Ness"@,
            Character::Packun => "Packun"@,
            Character::Pacman => "Pacman"@,
            Character::Palutena => "Palutena"@,
            Character::Peach => "Peach"@,
            Character::Pfushigisou => "Pfushigisou"@,
            Character::Pichu => "Pichu"@,
            Character::Pikachu => "Pikachu"@,
            Character::Pikmin => "Pikmin"@,
            Character::Pit => "Pit"@,
            Character::Pitb => "Pitb"@,
            Character::Plizardon => "Plizardon"@,
            Character::Popo => "Popo"@,
            Character::Purin => "Purin"@,
            Character::Pzenigame => "Pzenigame"@,
            Character::Reflet => "Reflet"@,
            Character::Richter => "Richter"@,
            Character::Ridley => "Ridley"@,
            Character::Robot => "Robot"@,
            Character::Rockman => "Rockman"@,
            Character::Rosetta => "Rosetta"@,
            Character::Roy => "Roy"@,
            Character::Ryu => "Ryu"@,
            Character::Samus => "Samus"@,
            Character::Samusd => "Samusd"@,
            Character::Sheik => "Sheik"@,
            Character::Shizue => "Shizue"@,
            Character::Shulk => "Shulk"@,
            Character::Simon => "Simon"@,
            Character::Snake => "Snake"@,
            Character::Sonic => "Sonic"@,
            Character::Szerosuit => "Szerosuit"@,
            Character::Toonlink => "Toonlink"@,
            Character::Wario => "Wario"@,
            Character::Wiifit => "Wiifit"@,
            Character::Wolf => "Wolf"@,
            Character::Yoshi => "Yoshi"@,
            Character::Younglink => "Younglink"@,
            Character::Zelda => "Zelda"@,
            Character::Zenigame => "Zenigame"@,
        }
    }

    /// The name under which the game's fighter table lists this fighter.
    pub fn name(self) -> (s: &'static str)
        ensures
            s@ == self.name_of(),
    {
        match self {
            Character::NoFighter => "None",
            Character::Bayonetta => "Bayonetta",
            Character::Brave => "Brave",
            Character::Buddy => "Buddy",
            Character::Captain => "Captain",
            Character::Chrom => "Chrom",
            Character::Cloud => "Cloud",
            Character::Daisy => "Daisy",
            Character::Dedede => "Dedede",
            Character::Diddy => "Diddy",
            Character::Dolly => "Dolly",
            Character::Donkey => "Donkey",
            Character::Duckhunt => "Duckhunt",
            Character::Falco => "Falco",
            Character::Fox => "Fox",
            Character::Fushigisou => "Fushigisou",
            Character::Gamewatch => "Gamewatch",
            Character::Ganon => "Ganon",
            Character::Gaogaen => "Gaogaen",
            Character::Gekkouga => "Gekkouga",
            Character::Ike => "Ike",
            Character::Inkling => "Inkling",
            Character::Jack => "Jack",
            Character::Kamui => "Kamui",
            Character::Ken => "Ken",
            Character::Kirby => "Kirby",
            Character::Koopa => "Koopa",
            Character::Koopag => "Koopag",
            Character::Koopajr => "Koopajr",
            Character::Krool => "Krool",
            Character::Link => "Link",
            Character::Littlemac => "Littlemac",
            Character::Lizardon => "Lizardon",
            Character::Lucario => "Lucario",
            Character::Lucas => "Lucas",
            Character::Lucina => "Lucina",
            Character::Luigi => "Luigi",
            Character::Mario => "Mario",
            Character::Mariod => "Mariod",
            Character::Marth => "Marth",
            Character::Master => "Master",
            Character::Metaknight => "Metaknight",
            Character::Mewtwo => "Mewtwo",
            Character::Miienemyf => "Miienemyf",
            Character::Miienemyg => "Miienemyg",
            Character::Miienemys => "Miienemys",
            Character::Miifighter => "Miifighter",
            Character::Miigunner => "Miigunner",
            Character::Miiswordsman => "Miiswordsman",
            Character::Murabito => "Murabito",
            Character::Nana => "Nana",
            Character::Ness => "Ness",
            Character::Packun => "Packun",
            Character::Pacman => "Pacman",
            Character::Palutena => "Palutena",
            Character::Peach => "Peach",
            Character::Pfushigisou => "Pfushigisou",
            Character::Pichu => "Pichu",
            Character::Pikachu => "Pikachu",
            Character::Pikmin => "Pikmin",
            Character::Pit => "Pit",
            Character::Pitb => "Pitb",
            Character::Plizardon => "Plizardon",
            Character::Popo => "Popo",
            Character::Purin => "Purin",
            Character::Pzenigame => "Pzenigame",
            Character::Reflet => "Reflet",
            Character::Richter => "Richter",
            Character::Ridley => "Ridley",
            Character::Robot => "Robot",
            Character::Rockman => "Rockman",
            Character::Rosetta => "Rosetta",
            Character::Roy => "Roy",
            Character::Ryu => "Ryu",
            Character::Samus => "Samus",
            Character::Samusd => "Samusd",
            Character::Sheik => "Sheik",
            Character::Shizue => "Shizue",
            Character::Shulk => "Shulk",
            Character::Simon => "Simon",
            Character::Snake => "Snake",
            Character::Sonic => "Sonic",
            Character::Szerosuit => "Szerosuit",
            Character::Toonlink => "Toonlink",
            Character::Wario => "Wario",
            Character::Wiifit => "Wiifit",
            Character::Wolf => "Wolf",
            Character::Yoshi => "Yoshi",
            Character::Younglink => "Younglink",
            Character::Zelda => "Zelda",
            Character::Zenigame => "Zenigame",
        }
    }

    /// The code under which this fighter is stored.
    pub fn code(self) -> (c: u32)
        ensures
            c == self.code_of(),
    {
        match self {
            Character::NoFighter => 0,
            Character::Bayonetta => 1,
            Character::Brave => 2,
            Character::Buddy => 3,
            Character::Captain => 4,
            Character::Chrom => 5,
            Character::Cloud => 6,
            Character::Daisy => 7,
            Character::Dedede => 8,
            Character::Diddy => 9,
            Character::Dolly => 10,
            Character::Donkey => 11,
            Character::Duckhunt => 12,
            Character::Falco => 13,
            Character::Fox => 14,
            Character::Fushigisou => 15,
            Character::Gamewatch => 16,
            Character::Ganon => 17,
            Character::Gaogaen => 18,
            Character::Gekkouga => 19,
            Character::Ike => 20,
            Character::Inkling => 21,
            Character::Jack => 22,
            Character::Kamui => 23,
            Character::Ken => 24,
            Character::Kirby => 25,
            Character::Koopa => 26,
            Character::Koopag => 27,
            Character::Koopajr => 28,
            Character::Krool => 29,
            Character::Link => 30,
            Character::Littlemac => 31,
            Character::Lizardon => 32,
            Character::Lucario => 33,
            Character::Lucas => 34,
            Character::Lucina => 35,
            Character::Luigi => 36,
            Character::Mario => 37,
            Character::Mariod => 38,
            Character::Marth => 39,
            Character::Master => 40,
            Character::Metaknight => 41,
            Character::Mewtwo => 42,
            Character::Miienemyf => 43,
            Character::Miienemyg => 44,
            Character::Miienemys => 45,
            Character::Miifighter => 46,
            Character::Miigunner => 47,
            Character::Miiswordsman => 48,
            Character::Murabito => 49,
            Character::Nana => 50,
            Character::Ness => 51,
            Character::Packun => 52,
            Character::Pacman => 53,
            Character::Palutena => 54,
            Character::Peach => 55,
            Character::Pfushigisou => 56,
            Character::Pichu => 57,
            Character::Pikachu => 58,
            Character::Pikmin => 59,
            Character::Pit => 60,
            Character::Pitb => 61,
            Character::Plizardon => 62,
            Character::Popo => 63,
            Character::Purin => 64,
            Character::Pzenigame => 65,
            Character::Reflet => 66,
            Character::Richter => 67,
            Character::Ridley => 68,
            Character::Robot => 69,
            Character::Rockman => 70,
            Character::Rosetta => 71,
            Character::Roy => 72,
            Character::Ryu => 73,
            Character::Samus => 74,
            Character::Samusd => 75,
            Character::Sheik => 76,
            Character::Shizue => 77,
            Character::Shulk => 78,
            Character::Simon => 79,
            Character::Snake => 80,
            Character::Sonic => 81,
            Character::Szerosuit => 82,
            Character::Toonlink => 83,
            Character::Wario => 84,
            Character::Wiifit => 85,
            Character::Wolf => 86,
            Character::Yoshi => 87,
            Character::Younglink => 88,
            Character::Zelda => 89,
            Character::Zenigame => 90,
        }
    }

    /// The fighter stored under `code`, or `None` for a code outside `0..CHARACTER_COUNT`.
    pub fn from_code(code: u32) -> (r: Option<Character>)
        ensures
            r == Character::decode(code),
    {
        match code {
            0 => Option::Some(Character::NoFighter),
            1 => Option::Some(Character::Bayonetta),
            2 => Option::Some(Character::Brave),
            3 => Option::Some(Character::Buddy),
            4 => Option::Some(Character::Captain),
            5 => Option::Some(Character::Chrom),
            6 => Option::Some(Character::Cloud),
            7 => Option::Some(Character::Daisy),
            8 => Option::Some(Character::Dedede),
            9 => Option::Some(Character::Diddy),
            10 => Option::Some(Character::Dolly),
            11 => Option::Some(Character::Donkey),
            12 => Option::Some(Character::Duckhunt),
            13 => Option::Some(Character::Falco),
            14 => Option::Some(Character::Fox),
            15 => Option::Some(Character::Fushigisou),
            16 => Option::Some(Character::Gamewatch),
            17 => Option::Some(Character::Ganon),
            18 => Option::Some(Character::Gaogaen),
            19 => Option::Some(Character::Gekkouga),
            20 => Option::Some(Character::Ike),
            21 => Option::Some(Character::Inkling),
            22 => Option::Some(Character::Jack),
            23 => Option::Some(Character::Kamui),
            24 => Option::Some(Character::Ken),
            25 => Option::Some(Character::Kirby),
            26 => Option::Some(Character::Koopa),
            27 => Option::Some(Character::Koopag),
            28 => Option::Some(Character::Koopajr),
            29 => Option::Some(Character::Krool),
            30 => Option::Some(Character::Link),
            31 => Option::Some(Character::Littlemac),
            32 => Option::Some(Character::Lizardon),
            33 => Option::Some(Character::Lucario),
            34 => Option::Some(Character::Lucas),
            35 => Option::Some(Character::Lucina),
            36 => Option::Some(Character::Luigi),
            37 => Option::Some(Character::Mario),
            38 => Option::Some(Character::Mariod),
            39 => Option::Some(Character::Marth),
            40 => Option::Some(Character::Master),
            41 => Option::Some(Character::Metaknight),
            42 => Option::Some(Character::Mewtwo),
            43 => Option::Some(Character::Miienemyf),
            44 => Option::Some(Character::Miienemyg),
            45 => Option::Some(Character::Miienemys),
            46 => Option::Some(Character::Miifighter),
            47 => Option::Some(Character::Miigunner),
            48 => Option::Some(Character::Miiswordsman),
            49 => Option::Some(Character::Murabito),
            50 => Option::Some(Character::Nana),
            51 => Option::Some(Character::Ness),
            52 => Option::Some(Character::Packun),
            53 => Option::Some(Character::Pacman),
            54 => Option::Some(Character::Palutena),
            55 => Option::Some(Character::Peach),
            56 => Option::Some(Character::Pfushigisou),
            57 => Option::Some(Character::Pichu),
            58 => Option::Some(Character::Pikachu),
            59 => Option::Some(Character::Pikmin),
            60 => Option::Some(Character::Pit),
            61 => Option::Some(Character::Pitb),
            62 => Option::Some(Character::Plizardon),
            63 => Option::Some(Character::Popo),
            64 => Option::Some(Character::Purin),
            65 => Option::Some(Character::Pzenigame),
            66 => Option::Some(Character::Reflet),
            67 => Option::Some(Character::Richter),
            68 => Option::Some(Character::Ridley),
            69 => Option::Some(Character::Robot),
            70 => Option::Some(Character::Rockman),
            71 => Option::Some(Character::Rosetta),
            72 => Option::Some(Character::Roy),
            73 => Option::Some(Character::Ryu),
            74 => Option::Some(Character::Samus),
            75 => Option::Some(Character::Samusd),
            76 => Option::Some(Character::Sheik),
            77 => Option::Some(Character::Shizue),
            78 => Option::Some(Character::Shulk),
            79 => Option::Some(Character::Simon),
            80 => Option::Some(Character::Snake),
            81 => Option::Some(Character::Sonic),
            82 => Option::Some(Character::Szerosuit),
            83 => Option::Some(Character::Toonlink),
            84 => Option::Some(Character::Wario),
            85 => Option::Some(Character::Wiifit),
            86 => Option::Some(Character::Wolf),
            87 => Option::Some(Character::Yoshi),
            88 => Option::Some(Character::Younglink),
            89 => Option::Some(Character::Zelda),
            90 => Option::Some(Character::Zenigame),
            _ => Option::None,
        }
    }
}

/// Every fighter has a code below `CHARACTER_COUNT`, and reading that code
/// back gives the same fighter.
pub proof fn lemma_character_code_round_trip(c: Character)
    ensures
        c.code_of() < CHARACTER_COUNT,
        Character::decode(c.code_of()) == Option::Some(c),
{
}

/// A code names a fighter exactly when it is below `CHARACTER_COUNT`, and
/// the fighter it names is stored under that same code.
pub proof fn lemma_character_decode_inverse(code: u32)
    ensures
        Character::decode(code) is Some <==> code < CHARACTER_COUNT,
        Character::decode(code) matches Option::Some(c) ==> c.code_of() == code,
{
}

/// Two fighters with the same code are the same fighter.
pub proof fn lemma_character_code_injective(a: Character, b: Character)
    requires
        a.code_of() == b.code_of(),
    ensures
        a == b,
{
    lemma_character_code_round_trip(a);
    lemma_character_code_round_trip(b);
}

/// Whether `i` is where `a` and `b` part in dictionary order with `a` first:
/// they agree before `i`, and there `a` has a smaller character or has ended
/// while `b` goes on.
pub open spec fn differs_in_order_at(a: Seq<char>, b: Seq<char>, i: int) -> bool {
    &&& 0 <= i <= a.len()
    &&& i <= b.len()
    &&& a.take(i) == b.take(i)
    &&& ((i < a.len() && i < b.len() && (a[i] as u32) < (b[i] as u32)) || (i == a.len() && i < b.len()))
}

/// Whether `a` comes strictly before `b` in dictionary order.
pub open spec fn precedes(a: Seq<char>, b: Seq<char>) -> bool {
    exists|i: int| differs_in_order_at(a, b, i)
}

/// The name of the fighter listed under `code`, empty for a code that names
/// no fighter.
pub open spec fn listed_name(code: u32) -> Seq<char> {
    match Character::decode(code) {
        Option::Some(c) => c.name_of(),
        Option::None => Seq::empty(),
    }
}

/// No name comes before itself.
pub proof fn lemma_precedes_irreflexive(a: Seq<char>)
    ensures
        !precedes(a, a),
{
}

/// Dictionary order is transitive.
pub proof fn lemma_precedes_transitive(a: Seq<char>, b: Seq<char>, c: Seq<char>)
    requires
        precedes(a, b),
        precedes(b, c),
    ensures
        precedes(a, c),
{
    let i = choose|i: int| differs_in_order_at(a, b, i);
    let j = choose|j: int| differs_in_order_at(b, c, j);
    if i < j {
        assert(b.take(j).take(i) =~= b.take(i));
        assert(c.take(j).take(i) =~= c.take(i));
        assert(a.take(i) =~= c.take(i));
        if i < a.len() {
            assert(b.take(j)[i] == b[i]);
            assert(c.take(j)[i] == c[i]);
        }
        assert(differs_in_order_at(a, c, i));
    } else if j < i {
        assert(a.take(i).take(j) =~= a.take(j));
        assert(b.take(i).take(j) =~= b.take(j));
        assert(a.take(j) =~= c.take(j));
        assert(a.take(i)[j] == a[j]);
        assert(b.take(i)[j] == b[j]);
        assert(differs_in_order_at(a, c, j));
    } else {
        assert(a.take(i) =~= c.take(i));
        assert(differs_in_order_at(a, c, i));
    }
}

/// The fighters after `NoFighter` are listed in the dictionary order of
/// their names: each name comes before the next one's.
#[verifier::spinoff_prover]
#[verifier::rlimit(50)]
pub proof fn lemma_fighters_listed_in_name_order(k: u32)
    requires
        1 <= k < CHARACTER_COUNT - 1,
    ensures
        Character::decode(k) is Some,
        Character::decode((k + 1) as u32) is Some,
        precedes(listed_name(k), listed_name((k + 1) as u32)),
{
    if k == 1 {
        reveal_strlit("Bayonetta");
        reveal_strlit("Brave");
        let (a, b) = ("Bayonetta"@, "Brave"@);
        assert(a.take(1) =~= b.take(1));
        assert(differs_in_order_at(a, b, 1));
    } else if k == 2 {
        reveal_strlit("Brave");
        reveal_strlit("Buddy");
        let (a, b) = ("Brave"@, "Buddy"@);
        assert(a.take(1) =~= b.take(1));
        assert(differs_in_order_at(a, b, 1));
    } else if k == 3 {
        reveal_strlit("Buddy");
        reveal_strlit("Captain");
        let (a, b) = ("Buddy"@, "Captain"@);
        assert(a.take(0) =~= b.take(0));
        assert(differs_in_order_at(a, b, 0));
    } else if k == 4 {
        reveal_strlit("Captain");
        reveal_strlit("Chrom");
        let (a, b) = ("Captain"@, "Chrom"@);
        assert(a.take(1) =~= b.take(1));
        assert(differs_in_order_at(a, b, 1));
    } else if k == 5 {
        reveal_strlit("Chrom");
        reveal_strlit("Cloud");
        let (a, b) = ("Chrom"@, "Cloud"@);
        assert(a.take(1) =~= b.take(1));
        assert(differs_in_order_at(a, b, 1));
    } else if k == 6 {
        reveal_strlit("Cloud");
        reveal_strlit("Daisy");
        let (a, b) = ("Cloud"@, "Daisy"@);
        assert(a.take(0) =~= b.take(0));
        assert(differs_in_order_at(a, b, 0));
    } else if k == 7 {
        reveal_strlit("Daisy");
        reveal_strlit("Dedede");
        let (a, b) = ("Daisy"@, "Dedede"@);
        assert(a.take(1) =~= b.take(1));
        assert(differs_in_order_at(a, b, 1));
    } else if k == 8 {
        reveal_strlit("Dedede");
        reveal_strlit("Diddy");
        let (a, b) = ("Dedede"@, "Diddy"@);
        assert(a.take(1) =~= b.take(1));
        assert(differs_in_order_at(a, b, 1));
    } else if k == 9 {
        reveal_strlit("Diddy");
        reveal_strlit("Dolly");
        let (a, b) = ("Diddy"@, "Dolly"@);
        assert(a.take(1) =~= b.take(1));
        assert(differs_in_order_at(a, b, 1));
    } else if k == 10 {
        reveal_strlit("Dolly");
        reveal_strlit("Donkey");
        let (a, b) = ("Dolly"@, "Donkey"@);
        assert(a.take(2) =~= b.take(2));
        assert(differs_in_order_at(a, b, 2));
    } else if k == 11 {
        reveal_strlit("Donkey");
        reveal_strlit("Duckhunt");
        let (a, b) = ("Donkey"@, "Duckhunt"@);
        assert(a.take(1) =~= b.take(1));
        assert(differs_in_order_at(a, b, 1));
    } else if k == 12 {
        reveal_strlit("Duckhunt");
        reveal_strlit("Falco");
        let (a, b) = ("Duckhunt"@, "Falco"@);
        assert(a.take(0) =~= b.take(0));
        assert(differs_in_order_at(a, b, 0));
    } else if k == 13 {
        reveal_strlit("Falco");
        reveal_strlit("Fox");
        let (a, b) = ("Falco"@, "Fox"@);
        assert(a.take(1) =~= b.take(1));
        assert(differs_in_order_at(a, b, 1));
    } else if k == 14 {
        reveal_strlit("Fox");
        reveal_strlit("Fushigisou");
        let (a, b) = ("Fox"@, "Fushigisou"@);
        assert(a.take(1) =~= b.take(1));
        assert(differs_in_order_at(a, b, 1));
    } else if k == 15 {
        reveal_strlit("Fushigisou");
        reveal_strlit("Gamewatch");
        let (a, b) = ("Fushigisou"@, "Gamewatch"@);
        assert(a.take(0) =~= b.take(0));
        assert(differs_in_order_at(a, b, 0));
    } else if k == 16 {
        reveal_strlit("Gamewatch");
        reveal_strlit("Ganon");
        let (a, b) = ("Gamewatch"@, "Ganon"@);
        assert(a.take(2) =~= b.take(2));
        assert(differs_in_order_at(a, b, 2));
    } else if k == 17 {
        reveal_strlit("Ganon");
        reveal_strlit("Gaogaen");
        let (a, b) = ("Ganon"@, "Gaogaen"@);
        assert(a.take(2) =~= b.take(2));
        assert(differs_in_order_at(a, b, 2));
    } else if k == 18 {
        reveal_strlit("Gaogaen");
        reveal_strlit("Gekkouga");
        let (a, b) = ("Gaogaen"@, "Gekkouga"@);
        assert(a.take(1) =~= b.take(1));
        assert(differs_in_order_at(a, b, 1));
    } else if k == 19 {
        reveal_strlit("Gekkouga");
        reveal_strlit("Ike");
        let (a, b) = ("Gekkouga"@, "Ike"@);
        assert(a.take(0) =~= b.take(0));
        assert(differs_in_order_at(a, b, 0));
    } else if k == 20 {
        reveal_strlit("Ike");
        reveal_strlit("Inkling");
        let (a, b) = ("Ike"@, "Inkling"@);
        assert(a.take(1) =~= b.take(1));
        assert(differs_in_order_at(a, b, 1));
    } else if k == 21 {
        reveal_strlit("Inkling");
        reveal_strlit("Jack");
        let (a, b) = ("Inkling"@, "Jack"@);
        assert(a.take(0) =~= b.take(0));
        assert(differs_in_order_at(a, b, 0));
    } else if k == 22 {
        reveal_strlit("Jack");
        reveal_strlit("Kamui");
        let (a, b) = ("Jack"@, "Kamui"@);
        assert(a.take(0) =~= b.take(0));
        assert(differs_in_order_at(a, b, 0));
    } else if k == 23 {
        reveal_strlit("Kamui");
        reveal_strlit("Ken");
        let (a, b) = ("Kamui"@, "Ken"@);
        assert(a.take(1) =~= b.take(1));
        assert(differs_in_order_at(a, b, 1));
    } else if k == 24 {
        reveal_strlit("Ken");
        reveal_strlit("Kirby");
        let (a, b) = ("Ken"@, "Kirby"@);
        assert(a.take(1) =~= b.take(1));
        assert(differs_in_order_at(a, b, 1));
    } else if k == 25 {
        reveal_strlit("Kirby");
        reveal_strlit("Koopa");
        let (a, b) = ("Kirby"@, "Koopa"@);
        assert(a.take(1) =~= b.take(1));
        assert(differs_in_order_at(a, b, 1));
    } else if k == 26 {
        reveal_strlit("Koopa");
        reveal_strlit("Koopag");
        let (a, b) = ("Koopa"@, "Koopag"@);
        assert(a.take(5) =~= b.take(5));
        assert(differs_in_order_at(a, b, 5));
    } else if k == 27 {
        reveal_strlit("Koopag");
        reveal_strlit("Koopajr");
        let (a, b) = ("Koopag"@, "Koopajr"@);
        assert(a.take(5) =~= b.take(5));
        assert(differs_in_order_at(a, b, 5));
    } else if k == 28 {
        reveal_strlit("Koopajr");
        reveal_strlit("Krool");
        let (a, b) = ("Koopajr"@, "Krool"@);
        assert(a.take(1) =~= b.take(1));
        assert(differs_in_order_at(a, b, 1));
    } else if k == 29 {
        reveal_strlit("Krool");
        reveal_strlit("Link");
        let (a, b) = ("Krool"@, "Link"@);
        assert(a.take(0) =~= b.take(0));
        assert(differs_in_order_at(a, b, 0));
    } else if k == 30 {
        reveal_strlit("Link");
        reveal_strlit("Littlemac");
        let (a, b) = ("Link"@, "Littlemac"@);
        assert(a.take(2) =~= b.take(2));
        assert(differs_in_order_at(a, b, 2));
    } else if k == 31 {
        reveal_strlit("Littlemac");
        reveal_strlit("Lizardon");
        let (a, b) = ("Littlemac"@, "Lizardon"@);
        assert(a.take(2) =~= b.take(2));
        assert(differs_in_order_at(a, b, 2));
    } else if k == 32 {
        reveal_strlit("Lizardon");
        reveal_strlit("Lucario");
        let (a, b) = ("Lizardon"@, "Lucario"@);
        assert(a.take(1) =~= b.take(1));
        assert(differs_in_order_at(a, b, 1));
    } else if k == 33 {
        reveal_strlit("Lucario");
        reveal_strlit("Lucas");
        let (a, b) = ("Lucario"@, "Lucas"@);
        assert(a.take(4) =~= b.take(4));
        assert(differs_in_order_at(a, b, 4));
    } else if k == 34 {
        reveal_strlit("Lucas");
        reveal_strlit("Lucina");
        let (a, b) = ("Lucas"@, "Lucina"@);
        assert(a.take(3) =~= b.take(3));
        assert(differs_in_order_at(a, b, 3));
    } else if k == 35 {
        reveal_strlit("Lucina");
        reveal_strlit("Luigi");
        let (a, b) = ("Lucina"@, "Luigi"@);
        assert(a.take(2) =~= b.take(2));
        assert(differs_in_order_at(a, b, 2));
    } else if k == 36 {
        reveal_strlit("Luigi");
        reveal_strlit("Mario");
        let (a, b) = ("Luigi"@, "Mario"@);
        assert(a.take(0) =~= b.take(0));
        assert(differs_in_order_at(a, b, 0));
    } else if k == 37 {
        reveal_strlit("Mario");
        reveal_strlit("Mariod");
        let (a, b) = ("Mario"@, "Mariod"@);
        assert(a.take(5) =~= b.take(5));
        assert(differs_in_order_at(a, b, 5));
    } else if k == 38 {
        reveal_strlit("Mariod");
        reveal_strlit("Marth");
        let (a, b) = ("Mariod"@, "Marth"@);
        assert(a.take(3) =~= b.take(3));
        assert(differs_in_order_at(a, b, 3));
    } else if k == 39 {
        reveal_strlit("Marth");
        reveal_strlit("Master");
        let (a, b) = ("Marth"@, "Master"@);
        assert(a.take(2) =~= b.take(2));
        assert(differs_in_order_at(a, b, 2));
    } else if k == 40 {
        reveal_strlit("Master");
        reveal_strlit("Metaknight");
        let (a, b) = ("Master"@, "Metaknight"@);
        assert(a.take(1) =~= b.take(1));
        assert(differs_in_order_at(a, b, 1));
    } else if k == 41 {
        reveal_strlit("Metaknight");
        reveal_strlit("Mewtwo");
        let (a, b) = ("Metaknight"@, "Mewtwo"@);
        assert(a.take(2) =~= b.take(2));
        assert(differs_in_order_at(a, b, 2));
    } else if k == 42 {
        reveal_strlit("Mewtwo");
        reveal_strlit("Miienemyf");
        let (a, b) = ("Mewtwo"@, "Miienemyf"@);
        assert(a.take(1) =~= b.take(1));
        assert(differs_in_order_at(a, b, 1));
    } else if k == 43 {
        reveal_strlit("Miienemyf");
        reveal_strlit("Miienemyg");
        let (a, b) = ("Miienemyf"@, "Miienemyg"@);
        assert(a.take(8) =~= b.take(8));
        assert(differs_in_order_at(a, b, 8));
    } else if k == 44 {
        reveal_strlit("Miienemyg");
        reveal_strlit("Miienemys");
        let (a, b) = ("Miienemyg"@, "Miienemys"@);
        assert(a.take(8) =~= b.take(8));
        assert(differs_in_order_at(a, b, 8));
    } else if k == 45 {
        reveal_strlit("Miienemys");
        reveal_strlit("Miifighter");
        let (a, b) = ("Miienemys"@, "Miifighter"@);
        assert(a.take(3) =~= b.take(3));
        assert(differs_in_order_at(a, b, 3));
    } else if k == 46 {
        reveal_strlit("Miifighter");
        reveal_strlit("Miigunner");
        let (a, b) = ("Miifighter"@, "Miigunner"@);
        assert(a.take(3) =~= b.take(3));
        assert(differs_in_order_at(a, b, 3));
    } else if k == 47 {
        reveal_strlit("Miigunner");
        reveal_strlit("Miiswordsman");
        let (a, b) = ("Miigunner"@, "Miiswordsman"@);
        assert(a.take(3) =~= b.take(3));
        assert(differs_in_order_at(a, b, 3));
    } else if k == 48 {
        reveal_strlit("Miiswordsman");
        reveal_strlit("Murabito");
        let (a, b) = ("Miiswordsman"@, "Murabito"@);
        assert(a.take(1) =~= b.take(1));
        assert(differs_in_order_at(a, b, 1));
    } else if k == 49 {
        reveal_strlit("Murabito");
        reveal_strlit("Nana");
        let (a, b) = ("Murabito"@, "Nana"@);
        assert(a.take(0) =~= b.take(0));
        assert(differs_in_order_at(a, b, 0));
    } else if k == 50 {
        reveal_strlit("Nana");
        reveal_strlit("Ness");
        let (a, b) = ("Nana"@, "Ness"@);
        assert(a.take(1) =~= b.take(1));
        assert(differs_in_order_at(a, b, 1));
    } else if k == 51 {
        reveal_strlit("Ness");
        reveal_strlit("Packun");
        let (a, b) = ("Ness"@, "Packun"@);
        assert(a.take(0) =~= b.take(0));
        assert(differs_in_order_at(a, b, 0));
    } else if k == 52 {
        reveal_strlit("Packun");
        reveal_strlit("Pacman");
        let (a, b) = ("Packun"@, "Pacman"@);
        assert(a.take(3) =~= b.take(3));
        assert(differs_in_order_at(a, b, 3));
    } else if k == 53 {
        reveal_strlit("Pacman");
        reveal_strlit("Palutena");
        let (a, b) = ("Pacman"@, "Palutena"@);
        assert(a.take(2) =~= b.take(2));
        assert(differs_in_order_at(a, b, 2));
    } else if k == 54 {
        reveal_strlit("Palutena");
        reveal_strlit("Peach");
        let (a, b) = ("Palutena"@, "Peach"@);
        assert(a.take(1) =~= b.take(1));
        assert(differs_in_order_at(a, b, 1));
    } else if k == 55 {
        reveal_strlit("Peach");
        reveal_strlit("Pfushigisou");
        let (a, b) = ("Peach"@, "Pfushigisou"@);
        assert(a.take(1) =~= b.take(1));
        assert(differs_in_order_at(a, b, 1));
    } else if k == 56 {
        reveal_strlit("Pfushigisou");
        reveal_strlit("Pichu");
        let (a, b) = ("Pfushigisou"@, "Pichu"@);
        assert(a.take(1) =~= b.take(1));
        assert(differs_in_order_at(a, b, 1));
    } else if k == 57 {
        reveal_strlit("Pichu");
        reveal_strlit("Pikachu");
        let (a, b) = ("Pichu"@, "Pikachu"@);
        assert(a.take(2) =~= b.take(2));
        assert(differs_in_order_at(a, b, 2));
    } else if k == 58 {
        reveal_strlit("Pikachu");
        reveal_strlit("Pikmin");
        let (a, b) = ("Pikachu"@, "Pikmin"@);
        assert(a.take(3) =~= b.take(3));
        assert(differs_in_order_at(a, b, 3));
    } else if k == 59 {
        reveal_strlit("Pikmin");
        reveal_strlit("Pit");
        let (a, b) = ("Pikmin"@, "Pit"@);
        assert(a.take(2) =~= b.take(2));
        assert(differs_in_order_at(a, b, 2));
    } else if k == 60 {
        reveal_strlit("Pit");
        reveal_strlit("Pitb");
        let (a, b) = ("Pit"@, "Pitb"@);
        assert(a.take(3) =~= b.take(3));
        assert(differs_in_order_at(a, b, 3));
    } else if k == 61 {
        reveal_strlit("Pitb");
        reveal_strlit("Plizardon");
        let (a, b) = ("Pitb"@, "Plizardon"@);
        assert(a.take(1) =~= b.take(1));
        assert(differs_in_order_at(a, b, 1));
    } else if k == 62 {
        reveal_strlit("Plizardon");
        reveal_strlit("Popo");
        let (a, b) = ("Plizardon"@, "Popo"@);
        assert(a.take(1) =~= b.take(1));
        assert(differs_in_order_at(a, b, 1));
    } else if k == 63 {
        reveal_strlit("Popo");
        reveal_strlit("Purin");
        let (a, b) = ("Popo"@, "Purin"@);
        assert(a.take(1) =~= b.take(1));
        assert(differs_in_order_at(a, b, 1));
    } else if k == 64 {
        reveal_strlit("Purin");
        reveal_strlit("Pzenigame");
        let (a, b) = ("Purin"@, "Pzenigame"@);
        assert(a.take(1) =~= b.take(1));
        assert(differs_in_order_at(a, b, 1));
    } else if k == 65 {
        reveal_strlit("Pzenigame");
        reveal_strlit("Reflet");
        let (a, b) = ("Pzenigame"@, "Reflet"@);
        assert(a.take(0) =~= b.take(0));
        assert(differs_in_order_at(a, b, 0));
    } else if k == 66 {
        reveal_strlit("Reflet");
        reveal_strlit("Richter");
        let (a, b) = ("Reflet"@, "Richter"@);
        assert(a.take(1) =~= b.take(1));
        assert(differs_in_order_at(a, b, 1));
    } else if k == 67 {
        reveal_strlit("Richter");
        reveal_strlit("Ridley");
        let (a, b) = ("Richter"@, "Ridley"@);
        assert(a.take(2) =~= b.take(2));
        assert(differs_in_order_at(a, b, 2));
    } else if k == 68 {
        reveal_strlit("Ridley");
        reveal_strlit("Robot");
        let (a, b) = ("Ridley"@, "Robot"@);
        assert(a.take(1) =~= b.take(1));
        assert(differs_in_order_at(a, b, 1));
    } else if k == 69 {
        reveal_strlit("Robot");
        reveal_strlit("Rockman");
        let (a, b) = ("Robot"@, "Rockman"@);
        assert(a.take(2) =~= b.take(2));
        assert(differs_in_order_at(a, b, 2));
    } else if k == 70 {
        reveal_strlit("Rockman");
        reveal_strlit("Rosetta");
        let (a, b) = ("Rockman"@, "Rosetta"@);
        assert(a.take(2) =~= b.take(2));
        assert(differs_in_order_at(a, b, 2));
    } else if k == 71 {
        reveal_strlit("Rosetta");
        reveal_strlit("Roy");
        let (a, b) = ("Rosetta"@, "Roy"@);
        assert(a.take(2) =~= b.take(2));
        assert(differs_in_order_at(a, b, 2));
    } else if k == 72 {
        reveal_strlit("Roy");
        reveal_strlit("Ryu");
        let (a, b) = ("Roy"@, "Ryu"@);
        assert(a.take(1) =~= b.take(1));
        assert(differs_in_order_at(a, b, 1));
    } else if k == 73 {
        reveal_strlit("Ryu");
        reveal_strlit("Samus");
        let (a, b) = ("Ryu"@, "Samus"@);
        assert(a.take(0) =~= b.take(0));
        assert(differs_in_order_at(a, b, 0));
    } else if k == 74 {
        reveal_strlit("Samus");
        reveal_strlit("Samusd");
        let (a, b) = ("Samus"@, "Samusd"@);
        assert(a.take(5) =~= b.take(5));
        assert(differs_in_order_at(a, b, 5));
    } else if k == 75 {
        reveal_strlit("Samusd");
        reveal_strlit("Sheik");
        let (a, b) = ("Samusd"@, "Sheik"@);
        assert(a.take(1) =~= b.take(1));
        assert(differs_in_order_at(a, b, 1));
    } else if k == 76 {
        reveal_strlit("Sheik");
        reveal_strlit("Shizue");
        let (a, b) = ("Sheik"@, "Shizue"@);
        assert(a.take(2) =~= b.take(2));
        assert(differs_in_order_at(a, b, 2));
    } else if k == 77 {
        reveal_strlit("Shizue");
        reveal_strlit("Shulk");
        let (a, b) = ("Shizue"@, "Shulk"@);
        assert(a.take(2) =~= b.take(2));
        assert(differs_in_order_at(a, b, 2));
    } else if k == 78 {
        reveal_strlit("Shulk");
        reveal_strlit("Simon");
        let (a, b) = ("Shulk"@, "Simon"@);
        assert(a.take(1) =~= b.take(1));
        assert(differs_in_order_at(a, b, 1));
    } else if k == 79 {
        reveal_strlit("Simon");
        reveal_strlit("Snake");
        let (a, b) = ("Simon"@, "Snake"@);
        assert(a.take(1) =~= b.take(1));
        assert(differs_in_order_at(a, b, 1));
    } else if k == 80 {
        reveal_strlit("Snake");
        reveal_strlit("Sonic");
        let (a, b) = ("Snake"@, "Sonic"@);
        assert(a.take(1) =~= b.take(1));
        assert(differs_in_order_at(a, b, 1));
    } else if k == 81 {
        reveal_strlit("Sonic");
        reveal_strlit("Szerosuit");
        let (a, b) = ("Sonic"@, "Szerosuit"@);
        assert(a.take(1) =~= b.take(1));
        assert(differs_in_order_at(a, b, 1));
    } else if k == 82 {
        reveal_strlit("Szerosuit");
        reveal_strlit("Toonlink");
        let (a, b) = ("Szerosuit"@, "Toonlink"@);
        assert(a.take(0) =~= b.take(0));
        assert(differs_in_order_at(a, b, 0));
    } else if k == 83 {
        reveal_strlit("Toonlink");
        reveal_strlit("Wario");
        let (a, b) = ("Toonlink"@, "Wario"@);
        assert(a.take(0) =~= b.take(0));
        assert(differs_in_order_at(a, b, 0));
    } else if k == 84 {
        reveal_strlit("Wario");
        reveal_strlit("Wiifit");
        let (a, b) = ("Wario"@, "Wiifit"@);
        assert(a.take(1) =~= b.take(1));
        assert(differs_in_order_at(a, b, 1));
    } else if k == 85 {
        reveal_strlit("Wiifit");
        reveal_strlit("Wolf");
        let (a, b) = ("Wiifit"@, "Wolf"@);
        assert(a.take(1) =~= b.take(1));
        assert(differs_in_order_at(a, b, 1));
    } else if k == 86 {
        reveal_strlit("Wolf");
        reveal_strlit("Yoshi");
        let (a, b) = ("Wolf"@, "Yoshi"@);
        assert(a.take(0) =~= b.take(0));
        assert(differs_in_order_at(a, b, 0));
    } else if k == 87 {
        reveal_strlit("Yoshi");
        reveal_strlit("Younglink");
        let (a, b) = ("Yoshi"@, "Younglink"@);
        assert(a.take(2) =~= b.take(2));
        assert(differs_in_order_at(a, b, 2));
    } else if k == 88 {
        reveal_strlit("Younglink");
        reveal_strlit("Zelda");
        let (a, b) = ("Younglink"@, "Zelda"@);
        assert(a.take(0) =~= b.take(0));
        assert(differs_in_order_at(a, b, 0));
    } else if k == 89 {
        reveal_strlit("Zelda");
        reveal_strlit("Zenigame");
        let (a, b) = ("Zelda"@, "Zenigame"@);
        assert(a.take(2) =~= b.take(2));
        assert(differs_in_order_at(a, b, 2));
    }
}

/// Along the list, a fighter's name comes before the names of all the
/// fighters listed after it (`NoFighter` aside).
pub proof fn lemma_listed_names_ordered(k: u32, l: u32)
    requires
        1 <= k < l < CHARACTER_COUNT,
    ensures
        precedes(listed_name(k), listed_name(l)),
    decreases l - k,
{
    lemma_fighters_listed_in_name_order(k);
    if l > k + 1 {
        lemma_listed_names_ordered((k + 1) as u32, l);
        lemma_precedes_transitive(listed_name(k), listed_name((k + 1) as u32), listed_name(l));
    }
}

/// No fighter but `NoFighter` is named `None`.
#[verifier::spinoff_prover]
#[verifier::rlimit(50)]
pub proof fn lemma_only_no_fighter_named_none(c: Character)
    requires
        c != Character::NoFighter,
    ensures
        c.name_of() != "None"@,
{
    reveal_strlit("None");
    match c {
        Character::NoFighter => {},
        Character::Bayonetta => {
            reveal_strlit("Bayonetta");
            assert(c.name_of().len() != "None"@.len());
        },
        Character::Brave => {
            reveal_strlit("Brave");
            assert(c.name_of().len() != "None"@.len());
        },
        Character::Buddy => {
            reveal_strlit("Buddy");
            assert(c.name_of().len() != "None"@.len());
        },
        Character::Captain => {
            reveal_strlit("Captain");
            assert(c.name_of().len() != "None"@.len());
        },
        Character::Chrom => {
            reveal_strlit("Chrom");
            assert(c.name_of().len() != "None"@.len());
        },
        Character::Cloud => {
            reveal_strlit("Cloud");
            assert(c.name_of().len() != "None"@.len());
        },
        Character::Daisy => {
            reveal_strlit("Daisy");
            assert(c.name_of().len() != "None"@.len());
        },
        Character::Dedede => {
            reveal_strlit("Dedede");
            assert(c.name_of().len() != "None"@.len());
        },
        Character::Diddy => {
            reveal_strlit("Diddy");
            assert(c.name_of().len() != "None"@.len());
        },
        Character::Dolly => {
            reveal_strlit("Dolly");
            assert(c.name_of().len() != "None"@.len());
        },
        Character::Donkey => {
            reveal_strlit("Donkey");
            assert(c.name_of().len() != "None"@.len());
        },
        Character::Duckhunt => {
            reveal_strlit("Duckhunt");
            assert(c.name_of().len() != "None"@.len());
        },
        Character::Falco => {
            reveal_strlit("Falco");
            assert(c.name_of().len() != "None"@.len());
        },
        Character::Fox => {
            reveal_strlit("Fox");
            assert(c.name_of().len() != "None"@.len());
        },
        Character::Fushigisou => {
            reveal_strlit("Fushigisou");
            assert(c.name_of().len() != "None"@.len());
        },
        Character::Gamewatch => {
            reveal_strlit("Gamewatch");
            assert(c.name_of().len() != "None"@.len());
        },
        Character::Ganon => {
            reveal_strlit("Ganon");
            assert(c.name_of().len() != "None"@.len());
        },
        Character::Gaogaen => {
            reveal_strlit("Gaogaen");
            assert(c.name_of().len() != "None"@.len());
        },
        Character::Gekkouga => {
            reveal_strlit("Gekkouga");
            assert(c.name_of().len() != "None"@.len());
        },
        Character::Ike => {
            reveal_strlit("Ike");
            assert(c.name_of().len() != "None"@.len());
        },
        Character::Inkling => {
            reveal_strlit("Inkling");
            assert(c.name_of().len() != "None"@.len());
        },
        Character::Jack => {
            reveal_strlit("Jack");
            assert(c.name_of()[0] != "None"@[0]);
        },
        Character::Kamui => {
            reveal_strlit("Kamui");
            assert(c.name_of().len() != "None"@.len());
        },
        Character::Ken => {
            reveal_strlit("Ken");
            assert(c.name_of().len() != "None"@.len());
        },
        Character::Kirby => {
            reveal_strlit("Kirby");
            assert(c.name_of().len() != "None"@.len());
        },
        Character::Koopa => {
            reveal_strlit("Koopa");
            assert(c.name_of().len() != "None"@.len());
        },
        Character::Koopag => {
            reveal_strlit("Koopag");
            assert(c.name_of().len() != "None"@.len());
        },
        Character::Koopajr => {
            reveal_strlit("Koopajr");
            assert(c.name_of().len() != "None"@.len());
        },
        Character::Krool => {
            reveal_strlit("Krool");
            assert(c.name_of().len() != "None"@.len());
        },
        Character::Link => {
            reveal_strlit("Link");
            assert(c.name_of()[0] != "None"@[0]);
        },
        Character::Littlemac => {
            reveal_strlit("Littlemac");
            assert(c.name_of().len() != "None"@.len());
        },
        Character::Lizardon => {
            reveal_strlit("Lizardon");
            assert(c.name_of().len() != "None"@.len());
        },
        Character::Lucario => {
            reveal_strlit("Lucario");
            assert(c.name_of().len() != "None"@.len());
        },
        Character::Lucas => {
            reveal_strlit("Lucas");
            assert(c.name_of().len() != "None"@.len());
        },
        Character::Lucina => {
            reveal_strlit("Lucina");
            assert(c.name_of().len() != "None"@.len());
        },
        Character::Luigi => {
            reveal_strlit("Luigi");
            assert(c.name_of().len() != "None"@.len());
        },
        Character::Mario => {
            reveal_strlit("Mario");
            assert(c.name_of().len() != "None"@.len());
        },
        Character::Mariod => {
            reveal_strlit("Mariod");
            assert(c.name_of().len() != "None"@.len());
        },
        Character::Marth => {
            reveal_strlit("Marth");
            assert(c.name_of().len() != "None"@.len());
        },
        Character::Master => {
            reveal_strlit("Master");
            assert(c.name_of().len() != "None"@.len());
        },
        Character::Metaknight => {
            reveal_strlit("Metaknight");
            assert(c.name_of().len() != "None"@.len());
        },
        Character::Mewtwo => {
            reveal_strlit("Mewtwo");
            assert(c.name_of().len() != "None"@.len());
        },
        Character::Miienemyf => {
            reveal_strlit("Miienemyf");
            assert(c.name_of().len() != "None"@.len());
        },
        Character::Miienemyg => {
            reveal_strlit("Miienemyg");
            assert(c.name_of().len() != "None"@.len());
        },
        Character::Miienemys => {
            reveal_strlit("Miienemys");
            assert(c.name_of().len() != "None"@.len());
        },
        Character::Miifighter => {
            reveal_strlit("Miifighter");
            assert(c.name_of().len() != "None"@.len());
        },
        Character::Miigunner => {
            reveal_strlit("Miigunner");
            assert(c.name_of().len() != "None"@.len());
        },
        Character::Miiswordsman => {
            reveal_strlit("Miiswordsman");
            assert(c.name_of().len() != "None"@.len());
        },
        Character::Murabito => {
            reveal_strlit("Murabito");
            assert(c.name_of().len() != "None"@.len());
        },
        Character::Nana => {
            reveal_strlit("Nana");
            assert(c.name_of()[1] != "None"@[1]);
        },
        Character::Ness => {
            reveal_strlit("Ness");
            assert(c.name_of()[1] != "None"@[1]);
        },
        Character::Packun => {
            reveal_strlit("Packun");
            assert(c.name_of().len() != "None"@.len());
        },
        Character::Pacman => {
            reveal_strlit("Pacman");
            assert(c.name_of().len() != "None"@.len());
        },
        Character::Palutena => {
            reveal_strlit("Palutena");
            assert(c.name_of().len() != "None"@.len());
        },
        Character::Peach => {
            reveal_strlit("Peach");
            assert(c.name_of().len() != "None"@.len());
        },
        Character::Pfushigisou => {
            reveal_strlit("Pfushigisou");
            assert(c.name_of().len() != "None"@.len());
        },
        Character::Pichu => {
            reveal_strlit("Pichu");
            assert(c.name_of().len() != "None"@.len());
        },
        Character::Pikachu => {
            reveal_strlit("Pikachu");
            assert(c.name_of().len() != "None"@.len());
        },
        Character::Pikmin => {
            reveal_strlit("Pikmin");
            assert(c.name_of().len() != "None"@.len());
        },
        Character::Pit => {
            reveal_strlit("Pit");
            assert(c.name_of().len() != "None"@.len());
        },
        Character::Pitb => {
            reveal_strlit("Pitb");
            assert(c.name_of()[0] != "None"@[0]);
        },
        Character::Plizardon => {
            reveal_strlit("Plizardon");
            assert(c.name_of().len() != "None"@.len());
        },
        Character::Popo => {
            reveal_strlit("Popo");
            assert(c.name_of()[0] != "None"@[0]);
        },
        Character::Purin => {
            reveal_strlit("Purin");
            assert(c.name_of().len() != "None"@.len());
        },
        Character::Pzenigame => {
            reveal_strlit("Pzenigame");
            assert(c.name_of().len() != "None"@.len());
        },
        Character::Reflet => {
            reveal_strlit("Reflet");
            assert(c.name_of().len() != "None"@.len());
        },
        Character::Richter => {
            reveal_strlit("Richter");
            assert(c.name_of().len() != "None"@.len());
        },
        Character::Ridley => {
            reveal_strlit("Ridley");
            assert(c.name_of().len() != "None"@.len());
        },
        Character::Robot => {
            reveal_strlit("Robot");
            assert(c.name_of().len() != "None"@.len());
        },
        Character::Rockman => {
            reveal_strlit("Rockman");
            assert(c.name_of().len() != "None"@.len());
        },
        Character::Rosetta => {
            reveal_strlit("Rosetta");
            assert(c.name_of().len() != "None"@.len());
        },
        Character::Roy => {
            reveal_strlit("Roy");
            assert(c.name_of().len() != "None"@.len());
        },
        Character::Ryu => {
            reveal_strlit("Ryu");
            assert(c.name_of().len() != "None"@.len());
        },
        Character::Samus => {
            reveal_strlit("Samus");
            assert(c.name_of().len() != "None"@.len());
        },
        Character::Samusd => {
            reveal_strlit("Samusd");
            assert(c.name_of().len() != "None"@.len());
        },
        Character::Sheik => {
            reveal_strlit("Sheik");
            assert(c.name_of().len() != "None"@.len());
        },
        Character::Shizue => {
            reveal_strlit("Shizue");
            assert(c.name_of().len() != "None"@.len());
        },
        Character::Shulk => {
            reveal_strlit("Shulk");
            assert(c.name_of().len() != "None"@.len());
        },
        Character::Simon => {
            reveal_strlit("Simon");
            assert(c.name_of().len() != "None"@.len());
        },
        Character::Snake => {
            reveal_strlit("Snake");
            assert(c.name_of().len() != "None"@.len());
        },
        Character::Sonic => {
            reveal_strlit("Sonic");
            assert(c.name_of().len() != "None"@.len());
        },
        Character::Szerosuit => {
            reveal_strlit("Szerosuit");
            assert(c.name_of().len() != "None"@.len());
        },
        Character::Toonlink => {
            reveal_strlit("Toonlink");
            assert(c.name_of().len() != "None"@.len());
        },
        Character::Wario => {
            reveal_strlit("Wario");
            assert(c.name_of().len() != "None"@.len());
        },
        Character::Wiifit => {
            reveal_strlit("Wiifit");
            assert(c.name_of().len() != "None"@.len());
        },
        Character::Wolf => {
            reveal_strlit("Wolf");
            assert(c.name_of()[0] != "None"@[0]);
        },
        Character::Yoshi => {
            reveal_strlit("Yoshi");
            assert(c.name_of().len() != "None"@.len());
        },
        Character::Younglink => {
            reveal_strlit("Younglink");
            assert(c.name_of().len() != "None"@.len());
        },
        Character::Zelda => {
            reveal_strlit("Zelda");
            assert(c.name_of().len() != "None"@.len());
        },
        Character::Zenigame => {
            reveal_strlit("Zenigame");
            assert(c.name_of().len() != "None"@.len());
        },
    }
}

/// Different fighters have different names.
pub proof fn lemma_character_names_distinct(a: Character, b: Character)
    requires
        a.name_of() == b.name_of(),
    ensures
        a == b,
{
    lemma_character_code_round_trip(a);
    lemma_character_code_round_trip(b);
    if a == Character::NoFighter && b != Character::NoFighter {
        lemma_only_no_fighter_named_none(b);
    } else if b == Character::NoFighter && a != Character::NoFighter {
        lemma_only_no_fighter_named_none(a);
    } else if a != Character::NoFighter && b != Character::NoFighter {
        let (k, l) = (a.code_of(), b.code_of());
        assert(listed_name(k) == a.name_of());
        assert(listed_name(l) == b.name_of());
        if k < l {
            lemma_listed_names_ordered(k, l);
            lemma_precedes_irreflexive(a.name_of());
        } else if l < k {
            lemma_listed_names_ordered(l, k);
            lemma_precedes_irreflexive(a.name_of());
        } else {
            lemma_character_code_injective(a, b);
        }
    }
}

} // verus!
