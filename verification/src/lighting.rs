//! Keyboard (Aura) and Slash lighting: mode codes and brightness levels.
use vstd::prelude::*;
use crate::text::{
    ascii_lower, chars_of, lower_chars, name_key, name_key_of, parse_u8, parse_u8_chars, text_is,
    trim, trim_chars,
};

verus! {

/// The code of an Aura mode key.
pub open spec fn aura_primary_code(k: Seq<char>) -> Option<u8> {
    if k == "static"@ {
        Some(0)
    } else if k == "breathe"@ {
        Some(1)
    } else if k == "rainbowcycle"@ {
        Some(2)
    } else if k == "rainbowwave"@ {
        Some(3)
    } else if k == "star"@ || k == "stars"@ {
        Some(4)
    } else if k == "rain"@ {
        Some(5)
    } else if k == "highlight"@ {
        Some(6)
    } else if k == "laser"@ {
        Some(7)
    } else if k == "ripple"@ {
        Some(8)
    } else if k == "pulse"@ {
        Some(10)
    } else if k == "comet"@ {
        Some(11)
    } else if k == "flash"@ {
        Some(12)
    } else {
        None
    }
}

/// The codes to try, in order, for the Aura mode `mode`: its own code, and for
/// "pulse" also the code of "star", which some firmware uses for it.
pub open spec fn aura_mode_codes(mode: Seq<char>) -> Option<Seq<u8>> {
    let k = name_key(mode);
    match aura_primary_code(k) {
        Some(p) => Some(
            if k == "pulse"@ {
                seq![p, 4u8]
            } else {
                seq![p]
            },
        ),
        None => None,
    }
}

/// The codes to try for the Aura mode `mode`, if it names one.
pub fn parse_aura_mode_codes(mode: &str) -> (r: Option<Vec<u8>>)
    ensures
        match r {
            Some(v) => aura_mode_codes(mode@) == Some(v@),
            None => aura_mode_codes(mode@) is None,
        },
{
    let k = name_key_of(mode);
    let primary: u8 = if text_is(&k, "static") {
        0
    } else if text_is(&k, "breathe") {
        1
    } else if text_is(&k, "rainbowcycle") {
        2
    } else if text_is(&k, "rainbowwave") {
        3
    } else if text_is(&k, "star") || text_is(&k, "stars") {
        4
    } else if text_is(&k, "rain") {
        5
    } else if text_is(&k, "highlight") {
        6
    } else if text_is(&k, "laser") {
        7
    } else if text_is(&k, "ripple") {
        8
    } else if text_is(&k, "pulse") {
        10
    } else if text_is(&k, "comet") {
        11
    } else if text_is(&k, "flash") {
        12
    } else {
        return None;
    };
    let mut codes: Vec<u8> = Vec::new();
    codes.push(primary);
    if text_is(&k, "pulse") {
        codes.push(4);
    }
    assert(codes@ =~= (if k@ == "pulse"@ {
        seq![primary, 4u8]
    } else {
        seq![primary]
    }));
    Some(codes)
}

/// A lower-case word is its own key.
pub(crate) proof fn lemma_word_is_its_key(s: Seq<char>)
    requires
        s.len() > 0,
        forall|i: int| 0 <= i < s.len() ==> 97 <= (#[trigger] s[i] as u32) <= 122,
    ensures
        name_key(s) == s,
{
    crate::profiles::lemma_key_of_plain_name(s);
    assert(ascii_lower(s) =~= s);
}

/// asusd's Aura modes and their codes: static 0, breathe 1, rainbow cycle 2,
/// rainbow wave 3, star 4, rain 5, highlight 6, laser 7, ripple 8, pulse 10
/// (tried also as 4), comet 11, flash 12.
pub proof fn lemma_aura_mode_table()
    ensures
        aura_mode_codes("static"@) == Some(seq![0u8]),
        aura_mode_codes("breathe"@) == Some(seq![1u8]),
        aura_mode_codes("rainbowcycle"@) == Some(seq![2u8]),
        aura_mode_codes("rainbowwave"@) == Some(seq![3u8]),
        aura_mode_codes("star"@) == Some(seq![4u8]),
        aura_mode_codes("rain"@) == Some(seq![5u8]),
        aura_mode_codes("highlight"@) == Some(seq![6u8]),
        aura_mode_codes("laser"@) == Some(seq![7u8]),
        aura_mode_codes("ripple"@) == Some(seq![8u8]),
        aura_mode_codes("pulse"@) == Some(seq![10u8, 4u8]),
        aura_mode_codes("comet"@) == Some(seq![11u8]),
        aura_mode_codes("flash"@) == Some(seq![12u8]),
{
    reveal_strlit("static");
    reveal_strlit("breathe");
    reveal_strlit("rainbowcycle");
    reveal_strlit("rainbowwave");
    reveal_strlit("star");
    reveal_strlit("stars");
    reveal_strlit("rain");
    reveal_strlit("highlight");
    reveal_strlit("laser");
    reveal_strlit("ripple");
    reveal_strlit("pulse");
    reveal_strlit("comet");
    reveal_strlit("flash");
    lemma_word_is_its_key("static"@);
    lemma_word_is_its_key("breathe"@);
    lemma_word_is_its_key("rainbowcycle"@);
    lemma_word_is_its_key("rainbowwave"@);
    lemma_word_is_its_key("star"@);
    lemma_word_is_its_key("rain"@);
    lemma_word_is_its_key("highlight"@);
    lemma_word_is_its_key("laser"@);
    lemma_word_is_its_key("ripple"@);
    lemma_word_is_its_key("pulse"@);
    lemma_word_is_its_key("comet"@);
    lemma_word_is_its_key("flash"@);
}

/// Two Aura mode names that are asked for with the same first code name the
/// same mode (up to case and separators), "star" and "stars" being one mode.
pub proof fn lemma_aura_modes_have_distinct_codes(m1: Seq<char>, m2: Seq<char>)
    requires
        aura_mode_codes(m1) matches Some(c1) && aura_mode_codes(m2) matches Some(c2) && c1[0]
            == c2[0],
    ensures
        name_key(m1) == name_key(m2) || ((name_key(m1) == "star"@ || name_key(m1) == "stars"@) && (
        name_key(m2) == "star"@ || name_key(m2) == "stars"@)),
{
}

/// The (enum index, hardware code) pair of a Slash mode key.
pub open spec fn slash_code_pair(k: Seq<char>) -> Option<(u8, u8)> {
    if k == "static"@ {
        Some((0, 0x06))
    } else if k == "bounce"@ {
        Some((1, 0x10))
    } else if k == "slash"@ {
        Some((2, 0x12))
    } else if k == "loading"@ {
        Some((3, 0x13))
    } else if k == "bitstream"@ {
        Some((4, 0x1d))
    } else if k == "transmission"@ {
        Some((5, 0x1a))
    } else if k == "flow"@ {
        Some((6, 0x19))
    } else if k == "flux"@ {
        Some((7, 0x25))
    } else if k == "phantom"@ {
        Some((8, 0x24))
    } else if k == "spectrum"@ {
        Some((9, 0x26))
    } else if k == "hazard"@ {
        Some((10, 0x32))
    } else if k == "interfacing"@ {
        Some((11, 0x33))
    } else if k == "ramp"@ {
        Some((12, 0x34))
    } else if k == "gameover"@ {
        Some((13, 0x42))
    } else if k == "start"@ {
        Some((14, 0x43))
    } else if k == "buzzer"@ {
        Some((15, 0x44))
    } else {
        None
    }
}

/// Two codes in increasing order, a repeated code once.

pub open spec fn sorted_pair(a: u8, b: u8) -> Seq<u8> {
    if a < b {
        seq![a, b]
    } else if a == b {
        seq![a]
    } else {
        seq![b, a]
    }
}

/// The codes to try for the Slash mode `mode`: both the enum index and the
/// hardware code, in increasing order and without repetition.
pub open spec fn slash_mode_codes(mode: Seq<char>) -> Option<Seq<u8>> {
    match slash_code_pair(name_key(mode)) {
        Some((a, b)) => Some(sorted_pair(a, b)),
        None => None,
    }
}

/// asusd's Slash modes, each asked for by its position in asusd's list and
/// by its hardware code (the smaller first): static 0 and 0x06, bounce 1 and
/// 0x10, slash 2 and 0x12, loading 3 and 0x13, bitstream 4 and 0x1d,
/// transmission 5 and 0x1a, flow 6 and 0x19, flux 7 and 0x25, phantom 8 and
/// 0x24, spectrum 9 and 0x26, hazard 10 and 0x32, interfacing 11 and 0x33,
/// ramp 12 and 0x34, game over 13 and 0x42, start 14 and 0x43, buzzer 15 and
/// 0x44.
pub proof fn lemma_slash_mode_table()
    ensures
        slash_mode_codes("static"@) == Some(seq![0u8, 6u8]),
        slash_mode_codes("bounce"@) == Some(seq![1u8, 16u8]),
        slash_mode_codes("slash"@) == Some(seq![2u8, 18u8]),
        slash_mode_codes("loading"@) == Some(seq![3u8, 19u8]),
        slash_mode_codes("bitstream"@) == Some(seq![4u8, 29u8]),
        slash_mode_codes("transmission"@) == Some(seq![5u8, 26u8]),
        slash_mode_codes("flow"@) == Some(seq![6u8, 25u8]),
        slash_mode_codes("flux"@) == Some(seq![7u8, 37u8]),
        slash_mode_codes("phantom"@) == Some(seq![8u8, 36u8]),
        slash_mode_codes("spectrum"@) == Some(seq![9u8, 38u8]),
        slash_mode_codes("hazard"@) == Some(seq![10u8, 50u8]),
        slash_mode_codes("interfacing"@) == Some(seq![11u8, 51u8]),
        slash_mode_codes("ramp"@) == Some(seq![12u8, 52u8]),
        slash_mode_codes("gameover"@) == Some(seq![13u8, 66u8]),
        slash_mode_codes("start"@) == Some(seq![14u8, 67u8]),
        slash_mode_codes("buzzer"@) == Some(seq![15u8, 68u8]),
{
    reveal_strlit("static");
    lemma_word_is_its_key("static"@);
    reveal_strlit("bounce");
    lemma_word_is_its_key("bounce"@);
    reveal_strlit("slash");
    lemma_word_is_its_key("slash"@);
    reveal_strlit("loading");
    lemma_word_is_its_key("loading"@);
    reveal_strlit("bitstream");
    lemma_word_is_its_key("bitstream"@);
    reveal_strlit("transmission");
    lemma_word_is_its_key("transmission"@);
    reveal_strlit("flow");
    lemma_word_is_its_key("flow"@);
    reveal_strlit("flux");
    lemma_word_is_its_key("flux"@);
    reveal_strlit("phantom");
    lemma_word_is_its_key("phantom"@);
    reveal_strlit("spectrum");
    lemma_word_is_its_key("spectrum"@);
    reveal_strlit("hazard");
    lemma_word_is_its_key("hazard"@);
    reveal_strlit("interfacing");
    lemma_word_is_its_key("interfacing"@);
    reveal_strlit("ramp");
    lemma_word_is_its_key("ramp"@);
    reveal_strlit("gameover");
    lemma_word_is_its_key("gameover"@);
    reveal_strlit("start");
    lemma_word_is_its_key("start"@);
    reveal_strlit("buzzer");
    lemma_word_is_its_key("buzzer"@);
}

/// The codes to try for the Slash mode `mode`, if it names one.
pub fn parse_slash_mode_codes(mode: &str) -> (r: Option<Vec<u8>>)
    ensures
        match r {
            Some(v) => slash_mode_codes(mode@) == Some(v@),
            None => slash_mode_codes(mode@) is None,
        },
{
    let k = name_key_of(mode);
    let (a, b): (u8, u8) = if text_is(&k, "static") {
        (0, 0x06)
    } else if text_is(&k, "bounce") {
        (1, 0x10)
    } else if text_is(&k, "slash") {
        (2, 0x12)
    } else if text_is(&k, "loading") {
        (3, 0x13)
    } else if text_is(&k, "bitstream") {
        (4, 0x1d)
    } else if text_is(&k, "transmission") {
        (5, 0x1a)
    } else if text_is(&k, "flow") {
        (6, 0x19)
    } else if text_is(&k, "flux") {
        (7, 0x25)
    } else if text_is(&k, "phantom") {
        (8, 0x24)
    } else if text_is(&k, "spectrum") {
        (9, 0x26)
    } else if text_is(&k, "hazard") {
        (10, 0x32)
    } else if text_is(&k, "interfacing") {
        (11, 0x33)
    } else if text_is(&k, "ramp") {
        (12, 0x34)
    } else if text_is(&k, "gameover") {
        (13, 0x42)
    } else if text_is(&k, "start") {
        (14, 0x43)
    } else if text_is(&k, "buzzer") {
        (15, 0x44)
    } else {
        return None;
    };
    let mut codes: Vec<u8> = Vec::new();
    if a < b {
        codes.push(a);
        codes.push(b);
    } else if a == b {
        codes.push(a);
    } else {
        codes.push(b);
        codes.push(a);
    }
    assert(codes@ =~= sorted_pair(a, b));
    Some(codes)
}

/// The brightness level that `level` names: off, low, med or medium, high,
/// or a number from 0 to 3; matched after trimming and lower-casing.
pub open spec fn brightness_level_of(level: Seq<char>) -> Option<u8> {
    let n = ascii_lower(trim(level));
    if n == "off"@ {
        Some(0)
    } else if n == "low"@ {
        Some(1)
    } else if n == "med"@ || n == "medium"@ {
        Some(2)
    } else if n == "high"@ {
        Some(3)
    } else {
        match parse_u8(n) {
            Some(v) => if v <= 3 {
                Some(v)
            } else {
                None
            },
            None => None,
        }
    }
}

/// The brightness level that `level` names, if any.
pub fn parse_brightness_level(level: &str) -> (r: Option<u8>)
    ensures
        r == brightness_level_of(level@),
{
    let n = lower_chars(&trim_chars(&chars_of(level)));
    if text_is(&n, "off") {
        Some(0)
    } else if text_is(&n, "low") {
        Some(1)
    } else if text_is(&n, "med") || text_is(&n, "medium") {
        Some(2)
    } else if text_is(&n, "high") {
        Some(3)
    } else {
        match parse_u8_chars(&n) {
            Some(v) => if v <= 3 {
                Some(v)
            } else {
                None
            },
            None => None,
        }
    }
}

/// One step through the four brightness levels, up or down, wrapping around.
pub open spec fn brightness_step(current: u8, next: bool) -> u8 {
    if next {
        ((current + 1) % 4) as u8
    } else {
        ((current + 3) % 4) as u8
    }
}

/// The level to set when cycling from the keyboard's reported brightness:
/// one step from the level it names, or from off when it names none.
pub fn cycle_brightness_target(current: Option<&str>, next: bool) -> (r: u8)
    ensures
        r == brightness_step(
            match current {
                Some(t) => match brightness_level_of(t@) {
                    Some(l) => l,
                    None => 0,
                },
                None => 0,
            },
            next,
        ),
        r <= 3,
{
    let level: u8 = match current {
        Some(t) => match parse_brightness_level(t) {
            Some(l) => l,
            None => 0,
        },
        None => 0,
    };
    if next {
        (level + 1) % 4
    } else {
        (level + 3) % 4
    }
}

/// Stepping down undoes stepping up, and stepping up undoes stepping down.
pub proof fn lemma_brightness_steps_undo(level: u8)
    requires
        level <= 3,
    ensures
        brightness_step(brightness_step(level, true), false) == level,
        brightness_step(brightness_step(level, false), true) == level,
{
}

/// Every level that a brightness name gives is one of the four levels.
pub proof fn lemma_brightness_level_in_range(level: Seq<char>)
    ensures
        brightness_level_of(level) matches Some(l) ==> l <= 3,
{
}

proof fn lemma_one_digit(s: Seq<char>)
    requires
        s.len() == 1,
        crate::text::is_digit(s[0]),
    ensures
        parse_u8(s) == Some(((s[0] as u32) - 48) as u8),
{
    assert(s.drop_last() =~= Seq::<char>::empty());
    assert(crate::text::digits_value(s.drop_last()) == 0);
    assert(s.last() == s[0]);
    assert(crate::text::digits_value(s) == ((s[0] as u32) - 48) as nat);
}

/// The brightness names and their levels, in rising order: off 0, low 1,
/// med or medium 2, high 3; the digits 0 to 3 name their own level, and 4
/// names none.
pub proof fn lemma_brightness_names()
    ensures
        brightness_level_of("off"@) == Some(0u8),
        brightness_level_of("low"@) == Some(1u8),
        brightness_level_of("med"@) == Some(2u8),
        brightness_level_of("medium"@) == Some(2u8),
        brightness_level_of("high"@) == Some(3u8),
        brightness_level_of("0"@) == Some(0u8),
        brightness_level_of("1"@) == Some(1u8),
        brightness_level_of("2"@) == Some(2u8),
        brightness_level_of("3"@) == Some(3u8),
        brightness_level_of("4"@) is None,
{
    reveal_strlit("off");
    crate::text::lemma_trim_untouched("off"@);
    assert(ascii_lower("off"@) =~= "off"@);
    reveal_strlit("low");
    crate::text::lemma_trim_untouched("low"@);
    assert(ascii_lower("low"@) =~= "low"@);
    reveal_strlit("med");
    crate::text::lemma_trim_untouched("med"@);
    assert(ascii_lower("med"@) =~= "med"@);
    reveal_strlit("medium");
    crate::text::lemma_trim_untouched("medium"@);
    assert(ascii_lower("medium"@) =~= "medium"@);
    reveal_strlit("high");
    crate::text::lemma_trim_untouched("high"@);
    assert(ascii_lower("high"@) =~= "high"@);
    reveal_strlit("0");
    crate::text::lemma_trim_untouched("0"@);
    assert(ascii_lower("0"@) =~= "0"@);
    lemma_one_digit("0"@);
    reveal_strlit("1");
    crate::text::lemma_trim_untouched("1"@);
    assert(ascii_lower("1"@) =~= "1"@);
    lemma_one_digit("1"@);
    reveal_strlit("2");
    crate::text::lemma_trim_untouched("2"@);
    assert(ascii_lower("2"@) =~= "2"@);
    lemma_one_digit("2"@);
    reveal_strlit("3");
    crate::text::lemma_trim_untouched("3"@);
    assert(ascii_lower("3"@) =~= "3"@);
    lemma_one_digit("3"@);
    reveal_strlit("4");
    crate::text::lemma_trim_untouched("4"@);
    assert(ascii_lower("4"@) =~= "4"@);
    lemma_one_digit("4"@);
}

} // verus!
