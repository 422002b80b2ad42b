//! Parsing of command arguments.

use vstd::prelude::*;
use vstd::string::*;
use crate::text::{has_prefix, int_error_message, int_error_text, lowercase, parse_i32_value, parse_int_spec,
    skip_chars, starts_with, str_eq, to_lowercase, IntErrorKind};
use crate::types::{game_mode_number, GameMode};
use crate::commands::context::game_mode_text;
use crate::words::ascii_lower_seq;
use crate::text::{decimal, digit_char};

verus! {

/// The game mode a lower-case argument names (number, letter or word).
pub open spec fn game_mode_named(s: Seq<char>) -> Option<GameMode> {
    if s == "0"@ || s == "s"@ || s == "survival"@ {
        Some(GameMode::Survival)
    } else if s == "1"@ || s == "c"@ || s == "creative"@ {
        Some(GameMode::Creative)
    } else if s == "2"@ || s == "a"@ || s == "adventure"@ {
        Some(GameMode::Adventure)
    } else if s == "3"@ || s == "sp"@ || s == "spectator"@ {
        Some(GameMode::Spectator)
    } else {
        None
    }
}

/// Parses a game mode argument, ignoring case.
pub fn parse_gamemode(input: &str) -> (r: Result<GameMode, String>)
    ensures
        match game_mode_named(lowercase(input@)) {
            Some(m) => r == Ok::<GameMode, String>(m),
            None => r matches Err(e) && e@ == "Unknown gamemode: "@ + input@,
        },
{
    let lower = to_lowercase(input);
    match game_mode_of_lower(lower.as_str()) {
        Some(m) => Ok(m),
        None => {
            let mut e = String::from_str("Unknown gamemode: ");
            e.append(input);
            Err(e)
        },
    }
}

/// The game mode an already lower-cased argument names.
pub fn game_mode_of_lower(s: &str) -> (r: Option<GameMode>)
    ensures
        r == game_mode_named(s@),
{
    if str_eq(s, "0") || str_eq(s, "s") || str_eq(s, "survival") {
        Some(GameMode::Survival)
    } else if str_eq(s, "1") || str_eq(s, "c") || str_eq(s, "creative") {
        Some(GameMode::Creative)
    } else if str_eq(s, "2") || str_eq(s, "a") || str_eq(s, "adventure") {
        Some(GameMode::Adventure)
    } else if str_eq(s, "3") || str_eq(s, "sp") || str_eq(s, "spectator") {
        Some(GameMode::Spectator)
    } else {
        None
    }
}

/// Parses a 32-bit integer; the error names why the text is not one.
pub fn parse_i32(input: &str) -> (r: Result<i32, String>)
    ensures
        match parse_int_spec(input@, true, i32::MAX as nat, 0x8000_0000) {
            Ok(v) => r matches Ok(x) && x as int == v,
            Err(k) => r matches Err(e) && e@ == "Invalid number: "@ + int_error_text(k),
        },
{
    match parse_i32_value(input) {
        Ok(v) => Ok(v),
        Err(k) => {
            let mut e = String::from_str("Invalid number: ");
            let m = int_error_message(k);
            e.append(m.as_str());
            Err(e)
        },
    }
}

/// The truth value a lower-case argument names.
pub open spec fn bool_named(s: Seq<char>) -> Option<bool> {
    if s == "true"@ || s == "yes"@ || s == "1"@ {
        Some(true)
    } else if s == "false"@ || s == "no"@ || s == "0"@ {
        Some(false)
    } else {
        None
    }
}

/// Parses `true`/`yes`/`1` or `false`/`no`/`0`, ignoring case.
pub fn parse_bool(input: &str) -> (r: Result<bool, String>)
    ensures
        match bool_named(lowercase(input@)) {
            Some(b) => r == Ok::<bool, String>(b),
            None => r matches Err(e) && e@ == "Invalid boolean: "@ + input@,
        },
{
    let lower = to_lowercase(input);
    match bool_of_lower(lower.as_str()) {
        Some(b) => Ok(b),
        None => {
            let mut e = String::from_str("Invalid boolean: ");
            e.append(input);
            Err(e)
        },
    }
}

/// The truth value an already lower-cased argument names.
pub fn bool_of_lower(s: &str) -> (r: Option<bool>)
    ensures
        r == bool_named(s@),
{
    if str_eq(s, "true") || str_eq(s, "yes") || str_eq(s, "1") {
        Some(true)
    } else if str_eq(s, "false") || str_eq(s, "no") || str_eq(s, "0") {
        Some(false)
    } else {
        None
    }
}

/// `s` with every leading copy of the non-empty `p` removed.
pub open spec fn trim_leading(s: Seq<char>, p: Seq<char>) -> Seq<char>
    decreases s.len(),
{
    if p.len() > 0 && has_prefix(s, p) {
        trim_leading(s.subrange(p.len() as int, s.len() as int), p)
    } else {
        s
    }
}

/// Lower-cases an item name and removes every leading `minecraft:`.
pub fn normalize_item_name(name: &str) -> (r: String)
    ensures
        r@ == trim_leading(lowercase(name@), "minecraft:"@),
{
    let lower = to_lowercase(name);
    strip_namespace(lower)
}

/// Removes every leading `minecraft:` of an already lower-cased name.
pub fn strip_namespace(name: String) -> (r: String)
    ensures
        r@ == trim_leading(name@, "minecraft:"@),
{
    let prefix = "minecraft:";
    let k = prefix.unicode_len();
    proof { reveal_strlit("minecraft:"); }
    let mut s = name;
    let ghost start = s@;
    while starts_with(s.as_str(), prefix)
        invariant
            k == prefix@.len(),
            k > 0,
            trim_leading(s@, prefix@) == trim_leading(start, prefix@),
        decreases s@.len(),
    {
        s = skip_chars(s.as_str(), k);
    }
    s
}

/// Every game mode is named by its own name in lower case and by its
/// protocol number.
pub proof fn game_modes_named_by_name_and_number(m: GameMode)
    ensures
        game_mode_named(ascii_lower_seq(game_mode_text(m))) == Some(m),
        game_mode_named(decimal(game_mode_number(m) as nat)) == Some(m),
{
    reveal_strlit("0");
    reveal_strlit("s");
    reveal_strlit("survival");
    reveal_strlit("1");
    reveal_strlit("c");
    reveal_strlit("creative");
    reveal_strlit("2");
    reveal_strlit("a");
    reveal_strlit("adventure");
    reveal_strlit("3");
    reveal_strlit("sp");
    reveal_strlit("spectator");
    reveal_strlit("Survival");
    reveal_strlit("Creative");
    reveal_strlit("Adventure");
    reveal_strlit("Spectator");
    let t = game_mode_text(m);
    assert(decimal(game_mode_number(m) as nat) =~= seq![digit_char(game_mode_number(m) as nat)]);
    match m {
        GameMode::Survival => {
            assert(ascii_lower_seq(t) =~= "survival"@);
            assert(decimal(game_mode_number(m) as nat) =~= "0"@);
            assert(game_mode_named("survival"@) == Some(GameMode::Survival));
            assert(game_mode_named("0"@) == Some(GameMode::Survival));
        },
        GameMode::Creative => {
            assert(ascii_lower_seq(t) =~= "creative"@);
            assert(decimal(game_mode_number(m) as nat) =~= "1"@);
            assert("creative"@[0] != "survival"@[0]);
            assert("1"@[0] != "0"@[0] && "1"@[0] != "s"@[0]);
            assert(game_mode_named("creative"@) == Some(GameMode::Creative));
            assert(game_mode_named("1"@) == Some(GameMode::Creative));
        },
        GameMode::Adventure => {
            assert(ascii_lower_seq(t) =~= "adventure"@);
            assert(decimal(game_mode_number(m) as nat) =~= "2"@);
            assert("2"@[0] != "0"@[0] && "2"@[0] != "s"@[0] && "2"@[0] != "1"@[0] && "2"@[0] != "c"@[0]);
            assert(game_mode_named("adventure"@) == Some(GameMode::Adventure));
            assert(game_mode_named("2"@) == Some(GameMode::Adventure));
        },
        GameMode::Spectator => {
            assert(ascii_lower_seq(t) =~= "spectator"@);
            assert(decimal(game_mode_number(m) as nat) =~= "3"@);
            assert("spectator"@[0] != "adventure"@[0]);
            assert("3"@[0] != "0"@[0] && "3"@[0] != "s"@[0] && "3"@[0] != "1"@[0] && "3"@[0] != "c"@[0]);
            assert("3"@[0] != "2"@[0] && "3"@[0] != "a"@[0]);
            assert(game_mode_named("spectator"@) == Some(GameMode::Spectator));
            assert(game_mode_named("3"@) == Some(GameMode::Spectator));
        },
    }
}

} // verus!
