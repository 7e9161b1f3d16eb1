//! What has to be settled before a game starts, and how the answers are read.
use vstd::prelude::*;
use crate::map::MapSize;
use crate::names::PlayerNameConfigError;
use crate::text::{owned, str_eq, to_lowercase, lowercased};

verus! {

/// Why a game cannot be configured.
#[derive(Debug)]
pub enum GameConfigurationError {
    PlayerNameConfigError(PlayerNameConfigError),
}

/// The settings of a game.
#[derive(Debug)]
pub struct GameConfiguration {
    pub num_of_players: u8,
    pub player_names: Vec<String>,
    pub num_of_ai: u8,
    pub map_size: MapSize,
}

/// The digit that a character writes, or `None`.
pub open spec fn digit_of(c: char) -> Option<nat> {
    if c == '0' {
        Some(0)
    } else if c == '1' {
        Some(1)
    } else if c == '2' {
        Some(2)
    } else if c == '3' {
        Some(3)
    } else if c == '4' {
        Some(4)
    } else if c == '5' {
        Some(5)
    } else if c == '6' {
        Some(6)
    } else if c == '7' {
        Some(7)
    } else if c == '8' {
        Some(8)
    } else if c == '9' {
        Some(9)
    } else {
        None
    }
}

/// Whether the text is made of digits alone.
pub open spec fn all_digits(text: Seq<char>) -> bool {
    forall|i: int| 0 <= i < text.len() ==> digit_of(#[trigger] text[i]).is_some()
}

/// The number that digits write in base ten.
pub open spec fn digits_value(text: Seq<char>) -> nat
    decreases text.len(),
{
    if text.len() == 0 {
        0
    } else {
        let low = match digit_of(text.last()) {
            Some(d) => d,
            None => 0,
        };
        digits_value(text.drop_last()) * 10 + low
    }
}

/// The number that a text writes: an optional `+`, then one digit or more
/// and nothing else, worth 255 at most.
pub open spec fn u8_of(text: Seq<char>) -> Option<u8> {
    let digits = if text.len() > 0 && text[0] == '+' {
        text.skip(1)
    } else {
        text
    };
    if digits.len() > 0 && all_digits(digits) && digits_value(digits) <= 255 {
        Some(digits_value(digits) as u8)
    } else {
        None
    }
}

/// `str::parse::<u8>`: the number that the text writes, which is an
/// optional `+` and then only digits, one at least; any other character,
/// no digit at all, or a value above 255 is refused.
#[verifier::external_body]
pub(crate) fn parse_u8(input: &str) -> (r: Option<u8>)
    ensures
        r == u8_of(input@),
{
    input.parse::<u8>().ok()
}

/// The wording of a line shown to the player.
pub open spec fn not_a_number_text() -> Seq<char> {
    "Invalid input format. Numerical value required."@
}

/// The wording of a line shown to the player.
pub open spec fn bad_player_count_text() -> Seq<char> {
    "Invalid parameter. Colonial doctrine allows 1-4 commanders."@
}

/// The wording of a line shown to the player.
pub open spec fn bad_ai_count_text() -> Seq<char> {
    "Invalid parameter. Colonial doctrine allows 0-4 AI factions."@
}

/// The wording of a line shown to the player.
pub open spec fn bad_yes_no_text() -> Seq<char> {
    "Invalid response. Protocol requires affirmative (Y) or negative (N)."@
}

/// The wording of a line shown to the player.
pub open spec fn bad_map_size_text() -> Seq<char> {
    "Unknown configuration. Valid options: small, medium, large"@
}

/// The view of an answer that was read.
pub open spec fn answer_view<T>(r: Result<T, String>) -> Result<T, Seq<char>> {
    match r {
        Ok(v) => Ok(v),
        Err(e) => Err(e@),
    }
}

/// The number of human players that a number stands for: 1 to 4.
pub open spec fn player_count_of(parsed: Option<u8>) -> Result<u8, Seq<char>> {
    match parsed {
        Some(p) => if 1 <= p <= 4 {
            Ok(p)
        } else {
            Err(bad_player_count_text())
        },
        None => Err(not_a_number_text()),
    }
}

/// The number of computer players that a number stands for: at most 4,
/// and at least 2 players in all.
pub open spec fn ai_count_of(parsed: Option<u8>, players: u8) -> Result<u8, Seq<char>> {
    match parsed {
        Some(a) => if a <= 4 && players + a >= 2 {
            Ok(a)
        } else {
            Err(bad_ai_count_text())
        },
        None => Err(not_a_number_text()),
    }
}

/// The map size that a word names.
pub open spec fn map_size_of(word: Seq<char>) -> Result<MapSize, Seq<char>> {
    if word == "small"@ {
        Ok(MapSize::Small)
    } else if word == "medium"@ {
        Ok(MapSize::Medium)
    } else if word == "large"@ {
        Ok(MapSize::Large)
    } else {
        Err(bad_map_size_text())
    }
}

/// Whether a lower-case word says yes or no.
pub open spec fn yes_no_of(lower: Seq<char>) -> Result<bool, Seq<char>> {
    if lower == "y"@ {
        Ok(true)
    } else if lower == "n"@ {
        Ok(false)
    } else {
        Err(bad_yes_no_text())
    }
}

impl GameConfiguration {
    /// The settings made of the answers given.
    pub fn from_answers(
        num_of_players: u8,
        player_names: Vec<String>,
        num_of_ai: u8,
        map_size: MapSize,
    ) -> (r: Self)
        ensures
            r.num_of_players == num_of_players,
            r.player_names == player_names,
            r.num_of_ai == num_of_ai,
            r.map_size == map_size,
    {
        GameConfiguration { num_of_players, player_names, num_of_ai, map_size }
    }

    /// Judges a number given as the count of human players.
    pub fn judge_player_count(parsed: Option<u8>) -> (r: Result<u8, String>)
        ensures
            answer_view(r) == player_count_of(parsed),
    {
        match parsed {
            Some(p) => if p >= 1 && p <= 4 {
                Ok(p)
            } else {
                Err(owned("Invalid parameter. Colonial doctrine allows 1-4 commanders."))
            },
            None => Err(owned("Invalid input format. Numerical value required.")),
        }
    }

    /// Reads the count of human players.
    pub fn read_player_count(input: &str) -> (r: Result<u8, String>)
        ensures
            answer_view(r) == player_count_of(u8_of(input@)),
    {
        Self::judge_player_count(parse_u8(input))
    }

    /// Judges a number given as the count of computer players.
    pub fn judge_ai_count(parsed: Option<u8>, players: u8) -> (r: Result<u8, String>)
        ensures
            answer_view(r) == ai_count_of(parsed, players),
    {
        match parsed {
            Some(a) => if a <= 4 && players as u16 + a as u16 >= 2 {
                Ok(a)
            } else {
                Err(owned("Invalid parameter. Colonial doctrine allows 0-4 AI factions."))
            },
            None => Err(owned("Invalid input format. Numerical value required.")),
        }
    }

    /// Reads the count of computer players.
    pub fn read_ai_count(input: &str, players: u8) -> (r: Result<u8, String>)
        ensures
            answer_view(r) == ai_count_of(u8_of(input@), players),
    {
        Self::judge_ai_count(parse_u8(input), players)
    }

    /// Judges a lower-case word given as yes or no.
    pub fn judge_yes_no(lower: &str) -> (r: Result<bool, String>)
        ensures
            answer_view(r) == yes_no_of(lower@),
    {
        if str_eq(lower, "y") {
            Ok(true)
        } else if str_eq(lower, "n") {
            Ok(false)
        } else {
            Err(owned("Invalid response. Protocol requires affirmative (Y) or negative (N)."))
        }
    }

    /// Reads a yes or a no, in either case of letters.
    pub fn read_yes_no(input: &str) -> (r: Result<bool, String>)
        ensures
            answer_view(r) == yes_no_of(lowercased(input@)),
    {
        let lower = to_lowercase(input);
        Self::judge_yes_no(lower.as_str())
    }

    /// Reads the size of the map.
    pub fn read_map_size(input: &str) -> (r: Result<MapSize, String>)
        ensures
            answer_view(r) == map_size_of(input@),
    {
        if str_eq(input, "small") {
            Ok(MapSize::Small)
        } else if str_eq(input, "medium") {
            Ok(MapSize::Medium)
        } else if str_eq(input, "large") {
            Ok(MapSize::Large)
        } else {
            Err(owned("Unknown configuration. Valid options: small, medium, large"))
        }
    }
}

} // verus!
