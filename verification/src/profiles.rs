//! asusd's platform profiles: their numeric codes and their display names.
use vstd::prelude::*;
use crate::bus::{opt_view, summary_of, format_value, BusData, BusScalar, BusValue};
use crate::text::{
    ascii_lower, is_separator, is_space, join, join_strings, lemma_strip_without_separators,
    lemma_trim_untouched, name_key, name_key_of, owned, text_is, trim, views,
};

verus! {

/// The code of a platform profile named `name`, matched on its key.
pub open spec fn platform_profile_code_of(name: Seq<char>) -> Option<u32> {
    let k = name_key(name);
    if k == "balanced"@ {
        Some(0)
    } else if k == "performance"@ {
        Some(1)
    } else if k == "quiet"@ {
        Some(2)
    } else if k == "lowpower"@ {
        Some(3)
    } else if k == "custom"@ {
        Some(4)
    } else {
        None
    }
}

/// The display name of a platform profile code.
pub open spec fn platform_profile_label(code: u32) -> Seq<char> {
    if code == 0 {
        "Balanced"@
    } else if code == 1 {
        "Performance"@
    } else if code == 2 {
        "Quiet"@
    } else if code == 3 {
        "Low Power"@
    } else if code == 4 {
        "Custom"@
    } else {
        "Unknown"@
    }
}

/// The code asusd uses for the platform profile `profile`, if it names one.
pub fn parse_platform_profile_code(profile: &str) -> (r: Option<u32>)
    ensures
        r == platform_profile_code_of(profile@),
{
    let k = name_key_of(profile);
    if text_is(&k, "balanced") {
        Some(0)
    } else if text_is(&k, "performance") {
        Some(1)
    } else if text_is(&k, "quiet") {
        Some(2)
    } else if text_is(&k, "lowpower") {
        Some(3)
    } else if text_is(&k, "custom") {
        Some(4)
    } else {
        None
    }
}

/// The display name of a platform profile code.
pub fn format_platform_profile_code(code: u32) -> (r: &'static str)
    ensures
        r@ == platform_profile_label(code),
{
    match code {
        0 => "Balanced",
        1 => "Performance",
        2 => "Quiet",
        3 => "Low Power",
        4 => "Custom",
        _ => "Unknown",
    }
}

/// The key of a name with no white space and no separator is its lower-casing.
pub proof fn lemma_key_of_plain_name(s: Seq<char>)
    requires
        s.len() > 0,
        forall|i: int| 0 <= i < s.len() ==> !is_separator(#[trigger] s[i]) && !is_space(s[i]),
    ensures
        name_key(s) == ascii_lower(s),
{
    lemma_trim_untouched(s);
    assert(trim(s) == s);
    let l = ascii_lower(s);
    assert forall|i: int| 0 <= i < l.len() implies !is_separator(#[trigger] l[i]) by {
        assert(!is_separator(s[i]));
    }
    lemma_strip_without_separators(l);
}

/// Every platform profile code's display name parses back to that code;
/// the name shown for any other code ("Unknown") names no profile.
pub proof fn lemma_platform_profile_round_trip(code: u32)
    ensures
        platform_profile_code_of(platform_profile_label(code)) == (if code <= 4 {
            Some(code)
        } else {
            None
        }),
{
    reveal_strlit("balanced");
    reveal_strlit("performance");
    reveal_strlit("quiet");
    reveal_strlit("lowpower");
    reveal_strlit("custom");
    if code == 0 {
        reveal_strlit("Balanced");
        lemma_key_of_plain_name("Balanced"@);
        assert(ascii_lower("Balanced"@) =~= "balanced"@);
    } else if code == 1 {
        reveal_strlit("Performance");
        lemma_key_of_plain_name("Performance"@);
        assert(ascii_lower("Performance"@) =~= "performance"@);
    } else if code == 2 {
        reveal_strlit("Quiet");
        lemma_key_of_plain_name("Quiet"@);
        assert(ascii_lower("Quiet"@) =~= "quiet"@);
    } else if code == 3 {
        reveal_strlit("Low Power");
        lemma_trim_untouched("Low Power"@);
        let l = ascii_lower("Low Power"@);
        assert(l =~= seq!['l', 'o', 'w', ' ', 'p', 'o', 'w', 'e', 'r']);
        reveal_with_fuel(crate::text::strip_separators, 10);
        assert(crate::text::strip_separators(l) =~= "lowpower"@);
        assert("lowpower"@ != "balanced"@) by {
            assert("lowpower"@[0] != "balanced"@[0]);
        }
    } else if code == 4 {
        reveal_strlit("Custom");
        lemma_key_of_plain_name("Custom"@);
        assert(ascii_lower("Custom"@) =~= "custom"@);
    } else {
        reveal_strlit("Unknown");
        reveal_strlit("unknown");
        lemma_key_of_plain_name("Unknown"@);
        assert(ascii_lower("Unknown"@) =~= "unknown"@);
        assert("unknown"@ != "balanced"@ && "unknown"@ != "lowpower"@) by {
            assert("unknown"@[0] != "balanced"@[0]);
            assert("unknown"@[0] != "lowpower"@[0]);
        }
    }
}

/// asusd's platform profiles and their codes: balanced 0, performance 1,
/// quiet 2, low power 3, custom 4.
pub proof fn lemma_platform_profile_table()
    ensures
        platform_profile_code_of("balanced"@) == Some(0u32),
        platform_profile_code_of("performance"@) == Some(1u32),
        platform_profile_code_of("quiet"@) == Some(2u32),
        platform_profile_code_of("lowpower"@) == Some(3u32),
        platform_profile_code_of("custom"@) == Some(4u32),
{
    reveal_strlit("balanced");
    crate::lighting::lemma_word_is_its_key("balanced"@);
    reveal_strlit("performance");
    crate::lighting::lemma_word_is_its_key("performance"@);
    reveal_strlit("quiet");
    crate::lighting::lemma_word_is_its_key("quiet"@);
    reveal_strlit("lowpower");
    crate::lighting::lemma_word_is_its_key("lowpower"@);
    reveal_strlit("custom");
    crate::lighting::lemma_word_is_its_key("custom"@);
}

/// The profile name a D-Bus scalar stands for: a code's display name, or a
/// text's display name when it names a profile and the text itself otherwise.
pub open spec fn scalar_profile_name(s: BusScalar) -> Option<Seq<char>> {
    match s {
        BusScalar::U32(c) => Some(platform_profile_label(c)),
        BusScalar::I32(c) => if c >= 0 {
            Some(platform_profile_label(c as u32))
        } else {
            None
        },
        BusScalar::Str(t) => match platform_profile_code_of(t@) {
            Some(c) => Some(platform_profile_label(c)),
            None => Some(t@),
        },
        _ => None,
    }
}

/// The profile name a property value stands for.
pub open spec fn profile_value_name(v: BusValue) -> Option<Seq<char>> {
    match v.data {
        BusData::Scalar(s) => scalar_profile_name(s),
        _ => None,
    }
}

fn scalar_profile_name_of(s: &BusScalar) -> (r: Option<String>)
    ensures
        opt_view(r) == scalar_profile_name(*s),
{
    match s {
        BusScalar::U32(c) => Some(owned(format_platform_profile_code(*c))),
        BusScalar::I32(c) => {
            if *c >= 0 {
                Some(owned(format_platform_profile_code(*c as u32)))
            } else {
                None
            }
        },
        BusScalar::Str(t) => match parse_platform_profile_code(t.as_str()) {
            Some(code) => Some(owned(format_platform_profile_code(code))),
            None => Some(t.clone()),
        },
        _ => None,
    }
}

/// The display name of the platform profile a property value holds.
pub fn format_platform_profile_value(value: &BusValue) -> (r: Option<String>)
    ensures
        opt_view(r) == profile_value_name(*value),
{
    match &value.data {
        BusData::Scalar(s) => scalar_profile_name_of(s),
        _ => None,
    }
}

/// How the elements of a list of profiles are read.
pub enum NameMode {
    /// Each element is a `u32` code.
    Codes,
    /// Each element is an `i32` code; negative ones are skipped.
    SignedCodes,
    /// Each element is read as a single profile value.
    Values,
    /// Each element is a text.
    Texts,
}

/// The name one element contributes under `mode`, if any.
pub open spec fn pick_name(mode: NameMode, e: BusScalar) -> Option<Seq<char>> {
    match mode {
        NameMode::Codes => match e {
            BusScalar::U32(c) => Some(platform_profile_label(c)),
            _ => None,
        },
        NameMode::SignedCodes => match e {
            BusScalar::I32(c) => if c >= 0 {
                Some(platform_profile_label(c as u32))
            } else {
                None
            },
            _ => None,
        },
        NameMode::Values => scalar_profile_name(e),
        NameMode::Texts => match e {
            BusScalar::Str(t) => Some(
                match platform_profile_code_of(t@) {
                    Some(c) => platform_profile_label(c),
                    None => t@,
                },
            ),
            _ => None,
        },
    }
}

/// The names the elements contribute under `mode`, in order.
pub open spec fn picked_names(es: Seq<BusScalar>, mode: NameMode) -> Seq<Seq<char>>
    decreases es.len(),
{
    if es.len() == 0 {
        Seq::empty()
    } else {
        let r = picked_names(es.drop_last(), mode);
        match pick_name(mode, es.last()) {
            Some(n) => r.push(n),
            None => r,
        }
    }
}

/// Whether every element is of the type that `mode` reads.
pub open spec fn all_of_kind(es: Seq<BusScalar>, mode: NameMode) -> bool {
    forall|i: int|
        0 <= i < es.len() ==> match mode {
            NameMode::Codes => #[trigger] es[i] is U32,
            NameMode::SignedCodes => es[i] is I32,
            NameMode::Texts => es[i] is Str,
            NameMode::Values => true,
        }
}

/// The list of profile choices a property value holds, as shown: the names
/// joined with ", ", read as `u32` codes, else `i32` codes, else single values,
/// else texts, and the value's summary when none of these gives a name.
pub open spec fn profile_choices_text(v: BusValue) -> Seq<char> {
    match v.data {
        BusData::Array(es) => if all_of_kind(es@, NameMode::Codes) {
            join(picked_names(es@, NameMode::Codes), ", "@)
        } else if all_of_kind(es@, NameMode::SignedCodes) && picked_names(
            es@,
            NameMode::SignedCodes,
        ).len() > 0 {
            join(picked_names(es@, NameMode::SignedCodes), ", "@)
        } else if picked_names(es@, NameMode::Values).len() > 0 {
            join(picked_names(es@, NameMode::Values), ", "@)
        } else if all_of_kind(es@, NameMode::Texts) && picked_names(es@, NameMode::Texts).len()
            > 0 {
            join(picked_names(es@, NameMode::Texts), ", "@)
        } else {
            summary_of(v)
        },
        _ => summary_of(v),
    }
}

fn pick_name_of(mode: &NameMode, e: &BusScalar) -> (r: Option<String>)
    ensures
        opt_view(r) == pick_name(*mode, *e),
{
    match mode {
        NameMode::Codes => match e {
            BusScalar::U32(c) => Some(owned(format_platform_profile_code(*c))),
            _ => None,
        },
        NameMode::SignedCodes => match e {
            BusScalar::I32(c) => {
                if *c >= 0 {
                    Some(owned(format_platform_profile_code(*c as u32)))
                } else {
                    None
                }
            },
            _ => None,
        },
        NameMode::Values => scalar_profile_name_of(e),
        NameMode::Texts => match e {
            BusScalar::Str(t) => match parse_platform_profile_code(t.as_str()) {
                Some(code) => Some(owned(format_platform_profile_code(code))),
                None => Some(t.clone()),
            },
            _ => None,
        },
    }
}

fn collect_names(es: &Vec<BusScalar>, mode: &NameMode) -> (r: Vec<String>)
    ensures
        views(r@) == picked_names(es@, *mode),
{
    let mut r: Vec<String> = Vec::new();
    let mut i: usize = 0;
    assert(es@.take(0) =~= Seq::<BusScalar>::empty());
    assert(views(r@) =~= Seq::<Seq<char>>::empty());
    while i < es.len()
        invariant
            i <= es@.len(),
            views(r@) == picked_names(es@.take(i as int), *mode),
        decreases es@.len() - i,
    {
        assert(es@.take(i + 1).drop_last() =~= es@.take(i as int));
        assert(es@.take(i + 1).last() == es@[i as int]);
        let picked = pick_name_of(mode, &es[i]);
        match picked {
            Some(n) => {
                let ghost before = r@;
                r.push(n);
                assert(views(r@) =~= views(before).push(n@));
            },
            None => {},
        }
        i = i + 1;
    }
    assert(es@.take(es@.len() as int) =~= es@);
    r
}

fn check_all_of_kind(es: &Vec<BusScalar>, mode: &NameMode) -> (r: bool)
    ensures
        r == all_of_kind(es@, *mode),
{
    let mut i: usize = 0;
    while i < es.len()
        invariant
            i <= es@.len(),
            forall|k: int|
                0 <= k < i ==> match *mode {
                    NameMode::Codes => #[trigger] es@[k] is U32,
                    NameMode::SignedCodes => es@[k] is I32,
                    NameMode::Texts => es@[k] is Str,
                    NameMode::Values => true,
                },
        decreases es@.len() - i,
    {
        let ok = match mode {
            NameMode::Codes => match &es[i] {
                BusScalar::U32(_) => true,
                _ => false,
            },
            NameMode::SignedCodes => match &es[i] {
                BusScalar::I32(_) => true,
                _ => false,
            },
            NameMode::Texts => match &es[i] {
                BusScalar::Str(_) => true,
                _ => false,
            },
            NameMode::Values => true,
        };
        if !ok {
            return false;
        }
        i = i + 1;
    }
    true
}

/// The list of platform profile choices a property value holds, as shown.
pub fn format_platform_profile_choices_value(value: &BusValue) -> (r: Option<String>)
    ensures
        r matches Some(t) && t@ == profile_choices_text(*value),
{
    match &value.data {
        BusData::Array(es) => {
            if check_all_of_kind(es, &NameMode::Codes) {
                let names = collect_names(es, &NameMode::Codes);
                return Some(join_strings(&names, ", "));
            }
            if check_all_of_kind(es, &NameMode::SignedCodes) {
                let names = collect_names(es, &NameMode::SignedCodes);
                if names.len() > 0 {
                    return Some(join_strings(&names, ", "));
                }
            }
            let names = collect_names(es, &NameMode::Values);
            if names.len() > 0 {
                return Some(join_strings(&names, ", "));
            }
            if check_all_of_kind(es, &NameMode::Texts) {
                let names = collect_names(es, &NameMode::Texts);
                if names.len() > 0 {
                    return Some(join_strings(&names, ", "));
                }
            }
            Some(format_value(value))
        },
        _ => Some(format_value(value)),
    }
}

} // verus!
