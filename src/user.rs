//! Forward-compatible enumerations: known integer codes map to named variants, and every other
//! code is kept verbatim in a catch-all variant.

use vstd::prelude::*;

verus! {

/// The different types of moderator a user can be
#[derive(Debug, PartialEq, Eq, Structural, Hash, Copy, Clone)]
pub enum ModLevel {
    /// User isn't a moderator
    NoMod,
    /// User is a normal moderator
    Normal,
    /// User is an elder moderator
    Elder,
    /// A level the codec does not know yet, holding its raw code
    Unknown(u8),
}

/// The moderator level that `code` stands for.
pub open spec fn mod_level_of(code: u8) -> ModLevel {
    if code == 0 {
        ModLevel::NoMod
    } else if code == 1 {
        ModLevel::Normal
    } else if code == 2 {
        ModLevel::Elder
    } else {
        ModLevel::Unknown(code)
    }
}

/// The code written for a moderator level.
pub open spec fn mod_level_code(level: ModLevel) -> u8 {
    match level {
        ModLevel::NoMod => 0,
        ModLevel::Normal => 1,
        ModLevel::Elder => 2,
        ModLevel::Unknown(code) => code,
    }
}

impl ModLevel {
    /// A level is canonical when it is the one that its own code decodes to: every named level,
    /// and a catch-all whose code is not one of the named ones.
    pub open spec fn is_canonical(self) -> bool {
        match self {
            ModLevel::Unknown(code) => code > 2,
            _ => true,
        }
    }
}

impl From<ModLevel> for u8 {
    fn from(level: ModLevel) -> (r: u8)
        ensures
            r == mod_level_code(level),
    {
        match level {
            ModLevel::NoMod => 0,
            ModLevel::Normal => 1,
            ModLevel::Elder => 2,
            ModLevel::Unknown(inner) => inner,
        }
    }
}

impl vstd::std_specs::convert::FromSpecImpl<ModLevel> for u8 {
    open spec fn obeys_from_spec() -> bool {
        true
    }

    open spec fn from_spec(level: ModLevel) -> u8 {
        mod_level_code(level)
    }
}

impl From<u8> for ModLevel {
    fn from(i: u8) -> (r: ModLevel)
        ensures
            r == mod_level_of(i),
    {
        match i {
            0 => ModLevel::NoMod,
            1 => ModLevel::Normal,
            2 => ModLevel::Elder,
            i => ModLevel::Unknown(i),
        }
    }
}

impl vstd::std_specs::convert::FromSpecImpl<u8> for ModLevel {
    open spec fn obeys_from_spec() -> bool {
        true
    }

    open spec fn from_spec(code: u8) -> ModLevel {
        mod_level_of(code)
    }
}

/// Every code survives decoding and re-encoding as a moderator level, known or not.
pub proof fn lemma_mod_level_code_round_trip(code: u8)
    ensures
        mod_level_code(mod_level_of(code)) == code,
        mod_level_of(code).is_canonical(),
{
}

/// Every canonical moderator level survives encoding and re-decoding.
pub proof fn lemma_mod_level_round_trip(level: ModLevel)
    requires
        level.is_canonical(),
    ensures
        mod_level_of(mod_level_code(level)) == level,
{
}

/// An in-game icon color
#[derive(Debug, PartialEq, Eq, Structural, Hash, Copy, Clone)]
pub enum Color {
    /// A color whose palette index is known, as its red, green and blue components
    Known(u8, u8, u8),
    /// The palette index of a color the codec does not know yet
    Unknown(u8),
}

/// The red, green and blue components of the palette entry at `code`, in the order of the
/// in-game selection menu; `None` for an index outside the known palette.
pub open spec fn palette_rgb(code: u8) -> Option<(u8, u8, u8)> {
    if code == 0 {
        Some((125, 255, 0))
    } else if code == 1 {
        Some((0, 255, 0))
    } else if code == 2 {
        Some((0, 255, 125))
    } else if code == 3 {
        Some((0, 255, 255))
    } else if code == 16 {
        Some((0, 200, 255))
    } else if code == 4 {
        Some((0, 125, 255))
    } else if code == 5 {
        Some((0, 0, 255))
    } else if code == 6 {
        Some((125, 0, 255))
    } else if code == 13 {
        Some((185, 0, 255))
    } else if code == 7 {
        Some((255, 0, 255))
    } else if code == 8 {
        Some((255, 0, 125))
    } else if code == 9 {
        Some((255, 0, 0))
    } else if code == 29 {
        Some((255, 75, 0))
    } else if code == 10 {
        Some((255, 125, 0))
    } else if code == 14 {
        Some((255, 185, 0))
    } else if code == 11 {
        Some((255, 255, 0))
    } else if code == 12 {
        Some((255, 255, 255))
    } else if code == 17 {
        Some((175, 175, 175))
    } else if code == 18 {
        Some((80, 80, 80))
    } else if code == 15 {
        Some((0, 0, 0))
    } else if code == 27 {
        Some((125, 125, 0))
    } else if code == 32 {
        Some((100, 150, 0))
    } else if code == 28 {
        Some((75, 175, 0))
    } else if code == 38 {
        Some((0, 150, 0))
    } else if code == 20 {
        Some((0, 175, 75))
    } else if code == 33 {
        Some((0, 150, 100))
    } else if code == 21 {
        Some((0, 125, 125))
    } else if code == 34 {
        Some((0, 100, 150))
    } else if code == 22 {
        Some((0, 75, 175))
    } else if code == 39 {
        Some((0, 0, 150))
    } else if code == 23 {
        Some((75, 0, 175))
    } else if code == 35 {
        Some((100, 0, 150))
    } else if code == 24 {
        Some((125, 0, 125))
    } else if code == 36 {
        Some((150, 0, 100))
    } else if code == 25 {
        Some((175, 0, 75))
    } else if code == 37 {
        Some((150, 0, 0))
    } else if code == 30 {
        Some((150, 50, 0))
    } else if code == 26 {
        Some((175, 75, 0))
    } else if code == 31 {
        Some((150, 100, 0))
    } else if code == 19 {
        Some((255, 255, 125))
    } else if code == 40 {
        Some((125, 255, 175))
    } else if code == 41 {
        Some((125, 125, 255))
    } else {
        None
    }
}

/// The palette index whose entry has the components `rgb`, if any.
pub open spec fn palette_index(rgb: (u8, u8, u8)) -> Option<u8> {
    if rgb == (125u8, 255u8, 0u8) {
        Some(0u8)
    } else if rgb == (0u8, 255u8, 0u8) {
        Some(1u8)
    } else if rgb == (0u8, 255u8, 125u8) {
        Some(2u8)
    } else if rgb == (0u8, 255u8, 255u8) {
        Some(3u8)
    } else if rgb == (0u8, 200u8, 255u8) {
        Some(16u8)
    } else if rgb == (0u8, 125u8, 255u8) {
        Some(4u8)
    } else if rgb == (0u8, 0u8, 255u8) {
        Some(5u8)
    } else if rgb == (125u8, 0u8, 255u8) {
        Some(6u8)
    } else if rgb == (185u8, 0u8, 255u8) {
        Some(13u8)
    } else if rgb == (255u8, 0u8, 255u8) {
        Some(7u8)
    } else if rgb == (255u8, 0u8, 125u8) {
        Some(8u8)
    } else if rgb == (255u8, 0u8, 0u8) {
        Some(9u8)
    } else if rgb == (255u8, 75u8, 0u8) {
        Some(29u8)
    } else if rgb == (255u8, 125u8, 0u8) {
        Some(10u8)
    } else if rgb == (255u8, 185u8, 0u8) {
        Some(14u8)
    } else if rgb == (255u8, 255u8, 0u8) {
        Some(11u8)
    } else if rgb == (255u8, 255u8, 255u8) {
        Some(12u8)
    } else if rgb == (175u8, 175u8, 175u8) {
        Some(17u8)
    } else if rgb == (80u8, 80u8, 80u8) {
        Some(18u8)
    } else if rgb == (0u8, 0u8, 0u8) {
        Some(15u8)
    } else if rgb == (125u8, 125u8, 0u8) {
        Some(27u8)
    } else if rgb == (100u8, 150u8, 0u8) {
        Some(32u8)
    } else if rgb == (75u8, 175u8, 0u8) {
        Some(28u8)
    } else if rgb == (0u8, 150u8, 0u8) {
        Some(38u8)
    } else if rgb == (0u8, 175u8, 75u8) {
        Some(20u8)
    } else if rgb == (0u8, 150u8, 100u8) {
        Some(33u8)
    } else if rgb == (0u8, 125u8, 125u8) {
        Some(21u8)
    } else if rgb == (0u8, 100u8, 150u8) {
        Some(34u8)
    } else if rgb == (0u8, 75u8, 175u8) {
        Some(22u8)
    } else if rgb == (0u8, 0u8, 150u8) {
        Some(39u8)
    } else if rgb == (75u8, 0u8, 175u8) {
        Some(23u8)
    } else if rgb == (100u8, 0u8, 150u8) {
        Some(35u8)
    } else if rgb == (125u8, 0u8, 125u8) {
        Some(24u8)
    } else if rgb == (150u8, 0u8, 100u8) {
        Some(36u8)
    } else if rgb == (175u8, 0u8, 75u8) {
        Some(25u8)
    } else if rgb == (150u8, 0u8, 0u8) {
        Some(37u8)
    } else if rgb == (150u8, 50u8, 0u8) {
        Some(30u8)
    } else if rgb == (175u8, 75u8, 0u8) {
        Some(26u8)
    } else if rgb == (150u8, 100u8, 0u8) {
        Some(31u8)
    } else if rgb == (255u8, 255u8, 125u8) {
        Some(19u8)
    } else if rgb == (125u8, 255u8, 175u8) {
        Some(40u8)
    } else if rgb == (125u8, 125u8, 255u8) {
        Some(41u8)
    } else {
        None
    }
}

/// The color that palette index `code` stands for.
pub open spec fn color_of(code: u8) -> Color {
    match palette_rgb(code) {
        Some((r, g, b)) => Color::Known(r, g, b),
        None => Color::Unknown(code),
    }
}

/// The palette index written for a color: `None` for components that no palette entry has.
pub open spec fn color_code(color: Color) -> Option<u8> {
    match color {
        Color::Known(r, g, b) => palette_index((r, g, b)),
        Color::Unknown(code) => Some(code),
    }
}

impl Color {
    /// A color is canonical when it is the one that its own index decodes to: a palette entry,
    /// or a catch-all whose index is outside the palette.
    pub open spec fn is_canonical(self) -> bool {
        match self {
            Color::Known(r, g, b) => palette_index((r, g, b)) is Some,
            Color::Unknown(code) => palette_rgb(code) is None,
        }
    }

    /// The palette index of this color; `None` where the components match no palette entry.
    pub fn to_code(self) -> (r: Option<u8>)
        ensures
            r == color_code(self),
    {
        match self {
            Color::Known(125, 255, 0) => Some(0),
            Color::Known(0, 255, 0) => Some(1),
            Color::Known(0, 255, 125) => Some(2),
            Color::Known(0, 255, 255) => Some(3),
            Color::Known(0, 200, 255) => Some(16),
            Color::Known(0, 125, 255) => Some(4),
            Color::Known(0, 0, 255) => Some(5),
            Color::Known(125, 0, 255) => Some(6),
            Color::Known(185, 0, 255) => Some(13),
            Color::Known(255, 0, 255) => Some(7),
            Color::Known(255, 0, 125) => Some(8),
            Color::Known(255, 0, 0) => Some(9),
            Color::Known(255, 75, 0) => Some(29),
            Color::Known(255, 125, 0) => Some(10),
            Color::Known(255, 185, 0) => Some(14),
            Color::Known(255, 255, 0) => Some(11),
            Color::Known(255, 255, 255) => Some(12),
            Color::Known(175, 175, 175) => Some(17),
            Color::Known(80, 80, 80) => Some(18),
            Color::Known(0, 0, 0) => Some(15),
            Color::Known(125, 125, 0) => Some(27),
            Color::Known(100, 150, 0) => Some(32),
            Color::Known(75, 175, 0) => Some(28),
            Color::Known(0, 150, 0) => Some(38),
            Color::Known(0, 175, 75) => Some(20),
            Color::Known(0, 150, 100) => Some(33),
            Color::Known(0, 125, 125) => Some(21),
            Color::Known(0, 100, 150) => Some(34),
            Color::Known(0, 75, 175) => Some(22),
            Color::Known(0, 0, 150) => Some(39),
            Color::Known(75, 0, 175) => Some(23),
            Color::Known(100, 0, 150) => Some(35),
            Color::Known(125, 0, 125) => Some(24),
            Color::Known(150, 0, 100) => Some(36),
            Color::Known(175, 0, 75) => Some(25),
            Color::Known(150, 0, 0) => Some(37),
            Color::Known(150, 50, 0) => Some(30),
            Color::Known(175, 75, 0) => Some(26),
            Color::Known(150, 100, 0) => Some(31),
            Color::Known(255, 255, 125) => Some(19),
            Color::Known(125, 255, 175) => Some(40),
            Color::Known(125, 125, 255) => Some(41),
            Color::Known(_, _, _) => None,
            Color::Unknown(code) => Some(code),
        }
    }
}

impl From<u8> for Color {
    fn from(idx: u8) -> (r: Color)
        ensures
            r == color_of(idx),
    {
        match idx {
            0 => Color::Known(125, 255, 0),
            1 => Color::Known(0, 255, 0),
            2 => Color::Known(0, 255, 125),
            3 => Color::Known(0, 255, 255),
            16 => Color::Known(0, 200, 255),
            4 => Color::Known(0, 125, 255),
            5 => Color::Known(0, 0, 255),
            6 => Color::Known(125, 0, 255),
            13 => Color::Known(185, 0, 255),
            7 => Color::Known(255, 0, 255),
            8 => Color::Known(255, 0, 125),
            9 => Color::Known(255, 0, 0),
            29 => Color::Known(255, 75, 0),
            10 => Color::Known(255, 125, 0),
            14 => Color::Known(255, 185, 0),
            11 => Color::Known(255, 255, 0),
            12 => Color::Known(255, 255, 255),
            17 => Color::Known(175, 175, 175),
            18 => Color::Known(80, 80, 80),
            15 => Color::Known(0, 0, 0),
            27 => Color::Known(125, 125, 0),
            32 => Color::Known(100, 150, 0),
            28 => Color::Known(75, 175, 0),
            38 => Color::Known(0, 150, 0),
            20 => Color::Known(0, 175, 75),
            33 => Color::Known(0, 150, 100),
            21 => Color::Known(0, 125, 125),
            34 => Color::Known(0, 100, 150),
            22 => Color::Known(0, 75, 175),
            39 => Color::Known(0, 0, 150),
            23 => Color::Known(75, 0, 175),
            35 => Color::Known(100, 0, 150),
            24 => Color::Known(125, 0, 125),
            36 => Color::Known(150, 0, 100),
            25 => Color::Known(175, 0, 75),
            37 => Color::Known(150, 0, 0),
            30 => Color::Known(150, 50, 0),
            26 => Color::Known(175, 75, 0),
            31 => Color::Known(150, 100, 0),
            19 => Color::Known(255, 255, 125),
            40 => Color::Known(125, 255, 175),
            41 => Color::Known(125, 125, 255),
            idx => Color::Unknown(idx),
        }
    }
}

impl vstd::std_specs::convert::FromSpecImpl<u8> for Color {
    open spec fn obeys_from_spec() -> bool {
        true
    }

    open spec fn from_spec(code: u8) -> Color {
        color_of(code)
    }
}

/// Every palette index survives decoding and re-encoding as a color, known or not.
pub proof fn lemma_color_code_round_trip(code: u8)
    ensures
        color_code(color_of(code)) == Some(code),
        color_of(code).is_canonical(),
{
}

/// Every canonical color survives encoding and re-decoding.
pub proof fn lemma_color_round_trip(color: Color)
    requires
        color.is_canonical(),
    ensures
        color_code(color) matches Some(code) && color_of(code) == color,
{
}

} // verus!
