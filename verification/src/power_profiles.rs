//! power-profiles-daemon: profile names and the texts shown for its properties.
use vstd::prelude::*;
use crate::bus::{format_value, opt_view, summary_of, BusData, BusScalar, BusValue};
use crate::text::{
    ascii_lower, chars_of, contains_chars, contains_text, dashed, is_space, is_upper, join,
    join_strings, lemma_trim_untouched, lower_chars, owned, slug, slug_of, string_of, text_is,
    trim, trim_chars, views,
};

verus! {

/// The key by which a power profile name is matched: trimmed, lower-cased,
/// with `_` and spaces written as `-`.
pub open spec fn ppd_key(p: Seq<char>) -> Seq<char> {
    slug(p)
}

/// The canonical name of the power profile that `p` names, if any.
pub open spec fn ppd_profile_of(p: Seq<char>) -> Option<Seq<char>> {
    let k = ppd_key(p);
    if k == "power-saver"@ || k == "powersaver"@ {
        Some("power-saver"@)
    } else if k == "balanced"@ {
        Some("balanced"@)
    } else if k == "performance"@ {
        Some("performance"@)
    } else {
        None
    }
}

/// The canonical name of the power profile `profile` names, if any.
pub fn normalize_profile(profile: &str) -> (r: Option<&'static str>)
    ensures
        match r {
            Some(name) => ppd_profile_of(profile@) == Some(name@),
            None => ppd_profile_of(profile@) is None,
        },
{
    let k = slug_of(profile);
    if text_is(&k, "power-saver") || text_is(&k, "powersaver") {
        Some("power-saver")
    } else if text_is(&k, "balanced") {
        Some("balanced")
    } else if text_is(&k, "performance") {
        Some("performance")
    } else {
        None
    }
}

/// A name already in canonical form is its own key.
proof fn lemma_ppd_key_of_canonical(s: Seq<char>)
    requires
        s.len() > 0,
        forall|i: int|
            0 <= i < s.len() ==> !is_upper(#[trigger] s[i]) && s[i] != '_' && s[i] != ' '
                && !is_space(s[i]),
    ensures
        ppd_key(s) == s,
{
    lemma_trim_untouched(s);
    assert(ascii_lower(s) =~= s);
    assert(dashed(s) =~= s);
}

/// Normalising a power profile name is idempotent: the canonical name of a
/// profile names that same profile.
pub proof fn lemma_normalize_profile_idempotent(p: Seq<char>)
    ensures
        ppd_profile_of(p) matches Some(n) ==> ppd_profile_of(n) == Some(n),
{
    reveal_strlit("power-saver");
    reveal_strlit("powersaver");
    reveal_strlit("balanced");
    reveal_strlit("performance");
    match ppd_profile_of(p) {
        Some(n) => {
            lemma_ppd_key_of_canonical(n);
        },
        None => {},
    }
}

/// The text a profile property shows: the string it holds, else its summary.
pub open spec fn ppd_text(v: BusValue) -> Seq<char> {
    match v.data {
        BusData::Scalar(BusScalar::Str(s)) => s@,
        _ => summary_of(v),
    }
}

/// The text shown for a profile property.
pub fn format_ppd_profile_value(value: &BusValue) -> (r: Option<String>)
    ensures
        r matches Some(t) && t@ == ppd_text(*value),
{
    match &value.data {
        BusData::Scalar(BusScalar::Str(s)) => Some(s.clone()),
        _ => Some(format_value(value)),
    }
}

/// The trimmed text of a property, or nothing when it is blank.
pub open spec fn ppd_optional_text(v: BusValue) -> Option<Seq<char>> {
    let t = trim(ppd_text(v));
    if t.len() == 0 {
        None
    } else {
        Some(t)
    }
}

/// The trimmed text shown for a property, or nothing when it is blank.
pub fn format_ppd_optional_text(value: &BusValue) -> (r: Option<String>)
    ensures
        opt_view(r) == ppd_optional_text(*value),
{
    let text = match format_ppd_profile_value(value) {
        Some(t) => t,
        None => {
            return None;
        },
    };
    let v = chars_of(text.as_str());
    let t = trim_chars(&v);
    if t.len() == 0 {
        return None;
    }
    Some(string_of(&t))
}

/// The known profile names that occur in `low`, in their fixed order.
pub open spec fn known_profiles_in(low: Seq<char>) -> Seq<Seq<char>> {
    let a = if contains_text(low, "power-saver"@) {
        seq!["power-saver"@]
    } else {
        Seq::empty()
    };
    let b = if contains_text(low, "balanced"@) {
        seq!["balanced"@]
    } else {
        Seq::empty()
    };
    let c = if contains_text(low, "performance"@) {
        seq!["performance"@]
    } else {
        Seq::empty()
    };
    a + b + c
}

/// Whether every element of an array is a string.
pub open spec fn all_texts(es: Seq<BusScalar>) -> bool {
    forall|i: int| 0 <= i < es.len() ==> #[trigger] es[i] is Str
}

/// The texts of an array of strings.
pub open spec fn texts_of(es: Seq<BusScalar>) -> Seq<Seq<char>> {
    es.map_values(|e: BusScalar| e->Str_0@)
}

/// The list of profiles shown: the strings of a non-empty string array joined
/// with ", "; otherwise the known profile names found in the lower-cased
/// summary, and the summary itself when none is found.
pub open spec fn ppd_profiles_text(v: BusValue) -> Seq<char> {
    let fallback = if known_profiles_in(ascii_lower(summary_of(v))).len() > 0 {
        join(known_profiles_in(ascii_lower(summary_of(v))), ", "@)
    } else {
        summary_of(v)
    };
    match v.data {
        BusData::Array(es) => if all_texts(es@) && es@.len() > 0 {
            join(texts_of(es@), ", "@)
        } else {
            fallback
        },
        _ => fallback,
    }
}

/// The texts of an array, when every element is a string.
pub fn string_array(es: &Vec<BusScalar>) -> (r: Option<Vec<String>>)
    ensures
        match r {
            Some(v) => all_texts(es@) && views(v@) == texts_of(es@),
            None => !all_texts(es@),
        },
{
    let mut out: Vec<String> = Vec::new();
    let mut i: usize = 0;
    while i < es.len()
        invariant
            i <= es@.len(),
            forall|k: int| 0 <= k < i ==> #[trigger] es@[k] is Str,
            views(out@) == texts_of(es@.take(i as int)),
        decreases es@.len() - i,
    {
        match &es[i] {
            BusScalar::Str(s) => {
                let ghost before = out@;
                out.push(s.clone());
                assert(views(out@) =~= texts_of(es@.take(i + 1))) by {
                    assert(views(out@) =~= views(before).push(s@));
                }
            },
            _ => {
                assert(!(es@[i as int] is Str));
                return None;
            },
        }
        i = i + 1;
    }
    assert(es@.take(es@.len() as int) =~= es@);
    Some(out)
}

/// The list of profiles shown for the `Profiles` property.
pub fn format_ppd_profiles_value(value: &BusValue) -> (r: Option<String>)
    ensures
        r matches Some(t) && t@ == ppd_profiles_text(*value),
{
    match &value.data {
        BusData::Array(es) => {
            match string_array(es) {
                Some(list) => {
                    if list.len() > 0 {
                        return Some(join_strings(&list, ", "));
                    }
                },
                None => {},
            }
        },
        _ => {},
    }
    let debug = format_value(value);
    let low = lower_chars(&chars_of(debug.as_str()));
    let mut found: Vec<String> = Vec::new();
    let saver = contains_chars(&low, &chars_of("power-saver"));
    if saver {
        found.push(owned("power-saver"));
    }
    let balanced = contains_chars(&low, &chars_of("balanced"));
    if balanced {
        found.push(owned("balanced"));
    }
    let performance = contains_chars(&low, &chars_of("performance"));
    if performance {
        found.push(owned("performance"));
    }
    assert(views(found@) =~= known_profiles_in(ascii_lower(summary_of(*value))));
    if found.len() > 0 {
        return Some(join_strings(&found, ", "));
    }
    Some(debug)
}

} // verus!
