//! The performance figures: reading a clock frequency out of a sysfs file,
//! choosing the graphics card and the file to read, and assembling the CPU,
//! GPU and memory figures with the errors met on the way.
use vstd::prelude::*;
use crate::dto::{CpuPerformanceSnapshot, GpuPerformanceSnapshot, RamPerformanceSnapshot};
use crate::text::{
    char_is_digit, chars_of, contains_char, digits_up_to, digits_value, is_digit, join, join_strings, owned,
    starts_with, views, has_prefix,
};
use crate::tray::{lemma_lex_irreflexive, lemma_lex_transitive, lex_less, lex_lt};

verus! {

/// The pieces of a text cut at each line feed; there is always one more piece
/// than there are line feeds.
pub open spec fn pieces(s: Seq<char>) -> Seq<Seq<char>>
    decreases s.len(),
{
    if s.len() == 0 {
        seq![Seq::empty()]
    } else {
        let rest = pieces(s.drop_last());
        if s.last() == '\n' {
            rest.push(Seq::empty())
        } else {
            rest.update(rest.len() - 1, rest.last().push(s.last()))
        }
    }
}

/// The lines of a text, as `str::lines` gives them up to a carriage return
/// before the line feed: the pieces, without the empty one after a final line
/// feed, and none for the empty text.
pub open spec fn lines_of(s: Seq<char>) -> Seq<Seq<char>> {
    if s.len() == 0 {
        Seq::empty()
    } else if s.last() == '\n' {
        pieces(s).drop_last()
    } else {
        pieces(s)
    }
}

/// The first of the lines that holds a `*`.
pub open spec fn first_marked(ls: Seq<Seq<char>>) -> Option<Seq<char>>
    decreases ls.len(),
{
    if ls.len() == 0 {
        None
    } else if ls[0].contains('*') {
        Some(ls[0])
    } else {
        first_marked(ls.drop_first())
    }
}

/// The first line marked with `*` (the active entry of a list of clock
/// levels), else the first line, else the whole text.
pub open spec fn chosen_line(s: Seq<char>) -> Seq<char> {
    let ls = lines_of(s);
    match first_marked(ls) {
        Some(l) => l,
        None => if ls.len() > 0 {
            ls[0]
        } else {
            s
        },
    }
}

/// How many decimal digits the text starts with.
pub open spec fn leading_digits(s: Seq<char>) -> nat
    decreases s.len(),
{
    if s.len() > 0 && is_digit(s[0]) {
        1 + leading_digits(s.drop_first())
    } else {
        0
    }
}

/// The first run of decimal digits in the text.
pub open spec fn first_digit_run(s: Seq<char>) -> Option<Seq<char>>
    decreases s.len(),
{
    if s.len() == 0 {
        None
    } else if is_digit(s[0]) {
        Some(s.take(leading_digits(s) as int))
    } else {
        first_digit_run(s.drop_first())
    }
}

/// The frequency a sysfs file gives: the first number on its chosen line
/// (surrounding blanks hold no digit), divided by `divisor` and cut to 32
/// bits; nothing when there is no number, when it exceeds 64 bits, or when
/// the divisor is zero.
pub open spec fn frequency_of(raw: Seq<char>, divisor: u32) -> Option<u32> {
    match first_digit_run(chosen_line(raw)) {
        None => None,
        Some(d) => if digits_value(d) > u64::MAX || divisor == 0 {
            None
        } else {
            Some((digits_value(d) / (divisor as nat)) as u32)
        },
    }
}

fn pieces_of(s: &Vec<char>) -> (r: Vec<Vec<char>>)
    ensures
        r@.map_values(|t: Vec<char>| t@) == pieces(s@),
{
    let mut done: Vec<Vec<char>> = Vec::new();
    let mut cur: Vec<char> = Vec::new();
    let mut i: usize = 0;
    assert(s@.take(0) =~= Seq::<char>::empty());
    assert(done@.map_values(|t: Vec<char>| t@).push(cur@) =~= pieces(s@.take(0)));
    while i < s.len()
        invariant
            i <= s@.len(),
            done@.map_values(|t: Vec<char>| t@).push(cur@) == pieces(s@.take(i as int)),
        decreases s@.len() - i,
    {
        let c = s[i];
        let ghost prev = done@.map_values(|t: Vec<char>| t@);
        let ghost cur0 = cur@;
        assert(s@.take(i + 1).drop_last() =~= s@.take(i as int));
        assert(s@.take(i + 1).last() == c);
        if c == '\n' {
            let finished = cur;
            done.push(finished);
            cur = Vec::new();
            assert(done@.map_values(|t: Vec<char>| t@).push(cur@) =~= prev.push(cur0).push(
                Seq::empty(),
            ));
        } else {
            cur.push(c);
            assert(done@.map_values(|t: Vec<char>| t@).push(cur@) =~= prev.push(cur0).update(
                prev.len() as int,
                cur0.push(c),
            ));
        }
        i = i + 1;
    }
    assert(s@.take(s@.len() as int) =~= s@);
    done.push(cur);
    done
}

proof fn lemma_pieces_nonempty(s: Seq<char>)
    ensures
        pieces(s).len() >= 1,
    decreases s.len(),
{
    if s.len() > 0 {
        lemma_pieces_nonempty(s.drop_last());
    }
}

/// The line of a sysfs file that holds the figure.
pub fn chosen_line_of(s: &Vec<char>) -> (r: Vec<char>)
    ensures
        r@ == chosen_line(s@),
{
    let ps = pieces_of(s);
    let ghost pv = ps@.map_values(|t: Vec<char>| t@);
    proof {
        lemma_pieces_nonempty(s@);
    }
    let n: usize = if s.len() == 0 {
        0
    } else if s[s.len() - 1] == '\n' {
        ps.len() - 1
    } else {
        ps.len()
    };
    let ghost ls = lines_of(s@);
    assert(ls =~= pv.take(n as int));
    let mut i: usize = 0;
    assert(ls.skip(0) =~= ls);
    while i < n
        invariant
            i <= n <= ps@.len(),
            pv == ps@.map_values(|t: Vec<char>| t@),
            ls == pv.take(n as int),
            ls == lines_of(s@),
            first_marked(ls) == first_marked(ls.skip(i as int)),
        decreases n - i,
    {
        assert(ls.skip(i as int)[0] == ps@[i as int]@);
        if contains_char(&ps[i], '*') {
            assert(ls.skip(i as int).len() > 0);
            assert(first_marked(ls.skip(i as int)) == Some(ps@[i as int]@));
            let line = ps[i].clone();
            assert(line@ =~= ps@[i as int]@);
            return line;
        }
        assert(ls.skip(i as int).drop_first() =~= ls.skip(i + 1));
        i = i + 1;
    }
    assert(ls.skip(n as int).len() == 0);
    if n > 0 {
        assert(ls[0] == ps@[0]@);
        ps[0].clone()
    } else {
        s.clone()
    }
}

proof fn lemma_leading_digits(s: Seq<char>, i: int, j: int)
    requires
        0 <= i <= j <= s.len(),
        forall|k: int| i <= k < j ==> is_digit(#[trigger] s[k]),
        j == s.len() || !is_digit(s[j]),
    ensures
        leading_digits(s.skip(i)) == j - i,
    decreases j - i,
{
    if i < j {
        assert(s.skip(i).drop_first() =~= s.skip(i + 1));
        lemma_leading_digits(s, i + 1, j);
    } else {
        if j < s.len() {
            assert(s.skip(i)[0] == s[j]);
        }
    }
}

/// The value of the first run of digits in `s`, when there is one and it fits
/// in 64 bits.
fn first_number(s: &Vec<char>) -> (r: Option<u64>)
    ensures
        r == (match first_digit_run(s@) {
            Some(d) => if digits_value(d) <= u64::MAX {
                Some(digits_value(d) as u64)
            } else {
                None
            },
            None => None,
        }),
{
    let mut i: usize = 0;
    assert(s@.skip(0) =~= s@);
    while i < s.len() && !char_is_digit(s[i])
        invariant
            i <= s@.len(),
            first_digit_run(s@) == first_digit_run(s@.skip(i as int)),
        decreases s@.len() - i,
    {
        assert(s@.skip(i as int).drop_first() =~= s@.skip(i + 1));
        assert(s@.skip(i as int)[0] == s@[i as int]);
        i = i + 1;
    }
    if i == s.len() {
        return None;
    }
    let mut j: usize = i;
    while j < s.len() && char_is_digit(s[j])
        invariant
            i <= j <= s@.len(),
            forall|k: int| i <= k < j ==> is_digit(#[trigger] s@[k]),
        decreases s@.len() - j,
    {
        j = j + 1;
    }
    proof {
        lemma_leading_digits(s@, i as int, j as int);
        assert(s@.skip(i as int)[0] == s@[i as int]);
        assert(s@.skip(i as int).take((j - i) as int) =~= s@.subrange(i as int, j as int));
        assert(crate::text::all_digits(s@.subrange(i as int, j as int)));
    }
    digits_up_to(s, i, j, u64::MAX)
}

/// The frequency a sysfs file gives, divided by `divisor`.
pub fn parse_frequency_value(raw: &str, divisor: u32) -> (r: Option<u32>)
    ensures
        r == frequency_of(raw@, divisor),
{
    let line = chosen_line_of(&chars_of(raw));
    let value = match first_number(&line) {
        Some(v) => v,
        None => {
            return None;
        },
    };
    if divisor == 0 {
        return None;
    }
    Some((value / (divisor as u64)) as u32)
}

/// The notes of a reading joined into its error: nothing when there is none.
pub open spec fn notes_text(notes: Seq<Seq<char>>) -> Option<Seq<char>> {
    if notes.len() == 0 {
        None
    } else {
        Some(join(notes, "; "@))
    }
}

fn notes_error(notes: &Vec<String>) -> (r: Option<String>)
    ensures
        crate::bus::opt_view(r) == notes_text(views(notes@)),
{
    if notes.len() == 0 {
        None
    } else {
        Some(join_strings(notes, "; "))
    }
}

/// The sum of the cores' frequencies.
pub open spec fn total(s: Seq<u64>) -> nat
    decreases s.len(),
{
    if s.len() == 0 {
        0
    } else {
        total(s.drop_last()) + (s.last() as nat)
    }
}

/// The notes of a CPU reading: no core found, then no usable utilisation.
pub open spec fn cpu_notes(cores: nat, usage_tenths: Option<u32>) -> Seq<Seq<char>> {
    (if cores == 0 {
        seq!["sysinfo reported zero cpu cores"@]
    } else {
        Seq::empty()
    }) + (if usage_tenths is None {
        seq!["sysinfo returned invalid cpu utilization"@]
    } else {
        Seq::empty()
    })
}

/// The CPU figures from each core's frequency in MHz and the overall
/// utilisation (absent when the system gave no finite figure): the core count,
/// capped at 65535, and the mean frequency, cut to 32 bits.
pub fn cpu_snapshot(frequencies: &Vec<u64>, usage_tenths: Option<u32>) -> (r: CpuPerformanceSnapshot)
    requires
        total(frequencies@) <= u64::MAX,
    ensures
        frequencies@.len() == 0 ==> r.core_count is None && r.frequency_mhz is None,
        frequencies@.len() > 0 ==> r.core_count == Some(
            (if frequencies@.len() <= 65535 {
                frequencies@.len()
            } else {
                65535
            }) as u16,
        ) && r.frequency_mhz == Some((total(frequencies@) / frequencies@.len()) as u32),
        r.utilization_tenths == usage_tenths,
        crate::bus::opt_view(r.last_error) == notes_text(cpu_notes(frequencies@.len(), usage_tenths)),
{
    let mut notes: Vec<String> = Vec::new();
    let n = frequencies.len();
    let mut core_count: Option<u16> = None;
    let mut frequency_mhz: Option<u32> = None;
    if n > 0 {
        core_count = Some(if n <= 65535 { n as u16 } else { 65535u16 });
        let mut sum: u64 = 0;
        let mut i: usize = 0;
        while i < n
            invariant
                n == frequencies@.len(),
                i <= n,
                sum == total(frequencies@.take(i as int)),
                total(frequencies@) <= u64::MAX,
            decreases n - i,
        {
            proof {
                assert(frequencies@.take(i + 1).drop_last() =~= frequencies@.take(i as int));
                lemma_total_prefix(frequencies@, i + 1);
            }
            sum = sum + frequencies[i];
            i = i + 1;
        }
        assert(frequencies@.take(n as int) =~= frequencies@);
        frequency_mhz = Some((sum / (n as u64)) as u32);
    } else {
        notes.push(owned("sysinfo reported zero cpu cores"));
    }
    if usage_tenths.is_none() {
        notes.push(owned("sysinfo returned invalid cpu utilization"));
    }
    assert(views(notes@) =~= cpu_notes(frequencies@.len(), usage_tenths));
    CpuPerformanceSnapshot {
        frequency_mhz,
        utilization_tenths: usage_tenths,
        core_count,
        last_error: notes_error(&notes),
    }
}

proof fn lemma_total_prefix(s: Seq<u64>, k: int)
    requires
        0 <= k <= s.len(),
    ensures
        total(s.take(k)) <= total(s),
    decreases s.len(),
{
    if k < s.len() {
        assert(s.drop_last().take(k) =~= s.take(k));
        lemma_total_prefix(s.drop_last(), k);
    } else {
        assert(s.take(k) =~= s);
    }
}

/// The share of memory in use, in tenths of a percent, rounded to the
/// nearest (halves up).
pub open spec fn used_tenths(used: nat, total: nat) -> nat {
    (used * 2000 + total) / (2 * total)
}

/// The memory figures from the total and the used bytes; the used bytes are
/// capped at the total. A total of zero is reported as an error.
pub fn ram_snapshot(total_bytes: u64, used_bytes: u64) -> (r: RamPerformanceSnapshot)
    ensures
        total_bytes == 0 ==> r.total_bytes is None && r.used_bytes is None
            && r.utilization_tenths is None && crate::bus::opt_view(r.last_error) == Some(
            "sysinfo reported zero total memory"@,
        ),
        total_bytes > 0 ==> ({
            let used = if used_bytes <= total_bytes { used_bytes } else { total_bytes };
            &&& r.total_bytes == Some(total_bytes)
            &&& r.used_bytes == Some(used)
            &&& r.utilization_tenths == Some(used_tenths(used as nat, total_bytes as nat) as u32)
            &&& r.last_error is None
        }),
{
    if total_bytes == 0 {
        return RamPerformanceSnapshot {
            total_bytes: None,
            used_bytes: None,
            utilization_tenths: None,
            last_error: Some(owned("sysinfo reported zero total memory")),
        };
    }
    let used = if used_bytes <= total_bytes { used_bytes } else { total_bytes };
    let num: u128 = (used as u128) * 2000 + (total_bytes as u128);
    let den: u128 = 2 * (total_bytes as u128);
    let tenths = num / den;
    assert(tenths <= 1000) by (nonlinear_arith)
        requires
            tenths == num / den,
            num == (used as u128) * 2000 + (total_bytes as u128),
            den == 2 * (total_bytes as u128),
            used <= total_bytes,
            total_bytes > 0,
    {
        assert(num < 1001 * den);
    }
    RamPerformanceSnapshot {
        total_bytes: Some(total_bytes),
        used_bytes: Some(used),
        utilization_tenths: Some(tenths as u32),
        last_error: None,
    }
}

/// What NVIDIA's management library answered, step by step; each step is
/// asked only when the one before succeeded.
pub struct NvmlAnswers {
    /// The number of devices.
    pub count: Result<u32, String>,
    /// Reaching the first device; asked when there is one.
    pub device: Option<Result<(), String>>,
    /// Its utilisation in percent; asked when the device was reached.
    pub utilization: Option<Result<u32, String>>,
    /// Its graphics clock in MHz; asked when the utilisation was read.
    pub clock: Option<Result<u32, String>>,
}

/// Whether each step of the answers was asked exactly when the one before it
/// succeeded.
pub open spec fn nvml_steps_follow(a: NvmlAnswers) -> bool {
    &&& (a.device is Some <==> (a.count matches Ok(c) && c > 0))
    &&& (a.utilization is Some <==> a.device matches Some(Ok(_)))
    &&& (a.clock is Some <==> a.utilization matches Some(Ok(_)))
}

/// A utilisation in percent as tenths of a percent (saturating).
pub open spec fn percent_tenths(p: u32) -> u32 {
    if p * 10 <= u32::MAX {
        (p * 10) as u32
    } else {
        u32::MAX
    }
}

fn failed_nvml(prefix: &str, error: &String, utilization_tenths: Option<u32>) -> (r: GpuPerformanceSnapshot)
    ensures
        r.frequency_mhz is None,
        r.utilization_tenths == utilization_tenths,
        crate::bus::opt_view(r.source) == Some("nvml"@),
        crate::bus::opt_view(r.last_error) == Some(prefix@ + error@),
{
    let mut m = owned(prefix);
    m.append(error.as_str());
    GpuPerformanceSnapshot {
        frequency_mhz: None,
        utilization_tenths,
        source: Some(owned("nvml")),
        last_error: Some(m),
    }
}

/// The GPU figures from NVIDIA's management library: nothing when it knows no
/// device, the figures when every step succeeded, and otherwise the failed
/// step's error, with the utilisation when it was read.
pub fn nvml_gpu_snapshot(a: &NvmlAnswers) -> (r: Option<GpuPerformanceSnapshot>)
    requires
        nvml_steps_follow(*a),
    ensures
        match a.count {
            Err(e) => r matches Some(s) && s.frequency_mhz is None && s.utilization_tenths is None
                && crate::bus::opt_view(s.source) == Some("nvml"@) && crate::bus::opt_view(
                s.last_error,
            ) == Some("nvml device count query failed: "@ + e@),
            Ok(c) => if c == 0 {
                r is None
            } else {
                match a.device {
                    Some(Err(e)) => r matches Some(s) && s.frequency_mhz is None
                        && s.utilization_tenths is None && crate::bus::opt_view(s.source) == Some(
                        "nvml"@,
                    ) && crate::bus::opt_view(s.last_error) == Some(
                        "nvml device query failed: "@ + e@,
                    ),
                    _ => match a.utilization {
                        Some(Err(e)) => r matches Some(s) && s.frequency_mhz is None
                            && s.utilization_tenths is None && crate::bus::opt_view(s.source)
                            == Some("nvml"@) && crate::bus::opt_view(s.last_error) == Some(
                            "nvml utilization query failed: "@ + e@,
                        ),
                        Some(Ok(u)) => match a.clock {
                            Some(Err(e)) => r matches Some(s) && s.frequency_mhz is None
                                && s.utilization_tenths == Some(percent_tenths(u))
                                && crate::bus::opt_view(s.source) == Some("nvml"@)
                                && crate::bus::opt_view(s.last_error) == Some(
                                "nvml clock query failed: "@ + e@,
                            ),
                            Some(Ok(f)) => r matches Some(s) && s.frequency_mhz == Some(f)
                                && s.utilization_tenths == Some(percent_tenths(u))
                                && crate::bus::opt_view(s.source) == Some("nvml"@)
                                && s.last_error is None,
                            None => false,
                        },
                        None => false,
                    },
                }
            },
        },
{
    let c = match &a.count {
        Err(e) => {
            return Some(failed_nvml("nvml device count query failed: ", e, None));
        },
        Ok(c) => *c,
    };
    if c == 0 {
        return None;
    }
    match &a.device {
        Some(Err(e)) => {
            return Some(failed_nvml("nvml device query failed: ", e, None));
        },
        Some(Ok(())) => {},
        None => {
            return None;
        },
    }
    let u = match &a.utilization {
        Some(Err(e)) => {
            return Some(failed_nvml("nvml utilization query failed: ", e, None));
        },
        Some(Ok(u)) => *u,
        None => {
            return None;
        },
    };
    let tenths: u32 = if u <= 429_496_729 {
        u * 10
    } else {
        u32::MAX
    };
    match &a.clock {
        Some(Err(e)) => Some(failed_nvml("nvml clock query failed: ", e, Some(tenths))),
        Some(Ok(f)) => Some(
            GpuPerformanceSnapshot {
                frequency_mhz: Some(*f),
                utilization_tenths: Some(tenths),
                source: Some(owned("nvml")),
                last_error: None,
            },
        ),
        None => None,
    }
}

/// Whether a file of the DRM class names a card: "card" and a number, not
/// one of the card's connectors (which carry a '-').
pub open spec fn names_card(name: Seq<char>) -> bool {
    starts_with(name, "card"@) && !name.contains('-')
}

/// The first card, in sorting order, among the names of the DRM class's files.
pub fn first_card_name(names: &Vec<String>) -> (r: Option<String>)
    ensures
        match r {
            None => forall|i: int| 0 <= i < names@.len() ==> !names_card((#[trigger] names@[i])@),
            Some(n) => {
                &&& names_card(n@)
                &&& exists|i: int| 0 <= i < names@.len() && (#[trigger] names@[i])@ == n@
                &&& forall|j: int|
                    0 <= j < names@.len() && names_card((#[trigger] names@[j])@) ==> !lex_lt(
                        names@[j]@,
                        n@,
                    )
            },
        },
{
    let prefix = chars_of("card");
    let mut best: Option<usize> = None;
    let mut best_chars: Vec<char> = Vec::new();
    let mut i: usize = 0;
    while i < names.len()
        invariant
            i <= names@.len(),
            prefix@ == "card"@,
            match best {
                None => forall|j: int| 0 <= j < i ==> !names_card((#[trigger] names@[j])@),
                Some(b) => {
                    &&& b < i
                    &&& best_chars@ == names@[b as int]@
                    &&& names_card(best_chars@)
                    &&& forall|j: int|
                        0 <= j < i && names_card((#[trigger] names@[j])@) ==> !lex_lt(
                            names@[j]@,
                            best_chars@,
                        )
                },
            },
        decreases names@.len() - i,
    {
        let c = chars_of(names[i].as_str());
        if has_prefix(&c, &prefix) && !contains_char(&c, '-') {
            match best {
                None => {
                    proof {
                        lemma_lex_irreflexive(c@);
                    }
                    best = Some(i);
                    best_chars = c;
                },
                Some(_) => {
                    if lex_less(&c, &best_chars) {
                        proof {
                            assert forall|j: int|
                                0 <= j < i + 1 && names_card(
                                    (#[trigger] names@[j])@,
                                ) implies !lex_lt(names@[j]@, c@) by {
                                if j < i && lex_lt(names@[j]@, c@) {
                                    lemma_lex_transitive(names@[j]@, c@, best_chars@);
                                }
                                if j == i {
                                    lemma_lex_irreflexive(c@);
                                }
                            }
                        }
                        best = Some(i);
                        best_chars = c;
                    }
                },
            }
        }
        i = i + 1;
    }
    match best {
        None => None,
        Some(b) => Some(names[b].clone()),
    }
}

/// The files a card's clock frequency is read from, in order, relative to the
/// card, each with the divisor that turns its figure into MHz.
pub open spec fn frequency_source(i: int) -> (Seq<char>, u32) {
    if i == 0 {
        ("device/gt_cur_freq_mhz"@, 1)
    } else if i == 1 {
        ("device/pp_dpm_sclk"@, 1)
    } else if i == 2 {
        ("device/cur_freq"@, 1_000_000)
    } else {
        ("device/current_link_speed"@, 1)
    }
}

/// Only `device/cur_freq` gives its figure in Hz; every other source gives
/// MHz. So the frequency read from any source is the first number on its
/// chosen line, taken as it is, except from `device/cur_freq`, where it is cut
/// down from Hz to whole MHz.
pub proof fn lemma_frequency_sources_read_in_mhz(reading: Seq<char>, i: int, d: Seq<char>)
    requires
        0 <= i < 4,
        first_digit_run(chosen_line(reading)) == Some(d),
        digits_value(d) <= u64::MAX,
    ensures
        frequency_of(reading, frequency_source(i).1) == Some(
            (if frequency_source(i).0 == "device/cur_freq"@ {
                digits_value(d) / 1_000_000
            } else {
                digits_value(d)
            }) as u32,
        ),
{
    reveal_strlit("device/cur_freq");
    reveal_strlit("device/gt_cur_freq_mhz");
    reveal_strlit("device/pp_dpm_sclk");
    reveal_strlit("device/current_link_speed");
    assert("device/gt_cur_freq_mhz"@ != "device/cur_freq"@) by {
        assert("device/gt_cur_freq_mhz"@[7] != "device/cur_freq"@[7]);
    }
    assert("device/pp_dpm_sclk"@ != "device/cur_freq"@) by {
        assert("device/pp_dpm_sclk"@[7] != "device/cur_freq"@[7]);
    }
    assert("device/current_link_speed"@ != "device/cur_freq"@) by {
        assert("device/current_link_speed"@.len() != "device/cur_freq"@.len());
    }
}

/// The clock sources, in the order they are tried: Intel's
/// `gt_cur_freq_mhz` (MHz), AMD's `pp_dpm_sclk` clock levels (MHz), the
/// generic `cur_freq` (Hz, so divided by a million), and at last
/// `current_link_speed` as it is.
pub proof fn lemma_frequency_source_order()
    ensures
        frequency_source(0) == ("device/gt_cur_freq_mhz"@, 1u32),
        frequency_source(1) == ("device/pp_dpm_sclk"@, 1u32),
        frequency_source(2) == ("device/cur_freq"@, 1_000_000u32),
        frequency_source(3) == ("device/current_link_speed"@, 1u32),
{
}

/// The files a card's clock frequency is read from, in order.
pub fn frequency_source_files() -> (r: Vec<&'static str>)
    ensures
        r@.len() == 4,
        forall|i: int| 0 <= i < 4 ==> (#[trigger] r@[i])@ == frequency_source(i).0,
{
    let mut r: Vec<&'static str> = Vec::new();
    r.push("device/gt_cur_freq_mhz");
    r.push("device/pp_dpm_sclk");
    r.push("device/cur_freq");
    r.push("device/current_link_speed");
    r
}

fn frequency_divisor(i: usize) -> (r: u32)
    requires
        i < 4,
    ensures
        r == frequency_source(i as int).1,
{
    if i == 2 {
        1_000_000
    } else {
        1
    }
}

/// The frequency read from the frequency source `i`, whose content is
/// `reading` (absent when the file could not be read).
pub open spec fn frequency_from(reading: Option<String>, i: int) -> Option<u32> {
    match reading {
        Some(t) => frequency_of(t@, frequency_source(i).1),
        None => None,
    }
}

/// The card's clock frequency: from the first source, in order, that could be
/// read and holds a frequency, with that source's place in the list.
pub fn pick_frequency(readings: &Vec<Option<String>>) -> (r: Result<(u32, usize), String>)
    requires
        readings@.len() == 4,
    ensures
        match r {
            Ok((v, i)) => {
                &&& i < 4
                &&& frequency_from(readings@[i as int], i as int) == Some(v)
                &&& forall|j: int| 0 <= j < i ==> frequency_from(#[trigger] readings@[j], j) is None
            },
            Err(e) => {
                &&& forall|j: int| 0 <= j < 4 ==> frequency_from(#[trigger] readings@[j], j) is None
                &&& e@ == "gpu frequency source unavailable"@
            },
        },
{
    let mut i: usize = 0;
    while i < 4
        invariant
            i <= 4,
            readings@.len() == 4,
            forall|j: int| 0 <= j < i ==> frequency_from(#[trigger] readings@[j], j) is None,
        decreases 4 - i,
    {
        if let Some(t) = &readings[i] {
            if let Some(v) = parse_frequency_value(t.as_str(), frequency_divisor(i)) {
                return Ok((v, i));
            }
        }
        i = i + 1;
    }
    Err(owned("gpu frequency source unavailable"))
}

/// The files a card's utilisation is read from, in order, relative to the card.
pub fn utilization_source_files() -> (r: Vec<&'static str>)
    ensures
        r@.len() == 2,
        r@[0]@ == "device/gpu_busy_percent"@,
        r@[1]@ == "device/mem_busy_percent"@,
{
    let mut r: Vec<&'static str> = Vec::new();
    r.push("device/gpu_busy_percent");
    r.push("device/mem_busy_percent");
    r
}

/// The card's utilisation: from the first source, in order, that could be
/// read and holds a figure (in tenths of a percent), with its place.
pub fn pick_utilization(readings: &Vec<Option<u32>>) -> (r: Result<(u32, usize), String>)
    ensures
        match r {
            Ok((v, i)) => {
                &&& i < readings@.len()
                &&& readings@[i as int] == Some(v)
                &&& forall|j: int| 0 <= j < i ==> (#[trigger] readings@[j]) is None
            },
            Err(e) => {
                &&& forall|j: int| 0 <= j < readings@.len() ==> (#[trigger] readings@[j]) is None
                &&& e@ == "gpu utilization source unavailable"@
            },
        },
{
    let mut i: usize = 0;
    while i < readings.len()
        invariant
            i <= readings@.len(),
            forall|j: int| 0 <= j < i ==> (#[trigger] readings@[j]) is None,
        decreases readings@.len() - i,
    {
        if let Some(v) = readings[i] {
            return Ok((v, i));
        }
        i = i + 1;
    }
    Err(owned("gpu utilization source unavailable"))
}

/// The notes of a card's readings: the frequency's error, then the
/// utilisation's.
pub open spec fn sysfs_notes(
    frequency: Result<(u32, String), String>,
    utilization: Result<(u32, String), String>,
) -> Seq<Seq<char>> {
    (match frequency {
        Err(e) => seq![e@],
        Ok(_) => Seq::empty(),
    }) + (match utilization {
        Err(e) => seq![e@],
        Ok(_) => Seq::empty(),
    })
}

/// The GPU figures read from the card's sysfs files: each figure with the file
/// it came from; the source shown is the frequency's file when it was read,
/// else the utilisation's; each missing figure's error is noted. Without a
/// card there is only the error "no drm card found".
pub fn sysfs_gpu_snapshot(
    card_found: bool,
    frequency: Option<Result<(u32, String), String>>,
    utilization: Option<Result<(u32, String), String>>,
) -> (r: GpuPerformanceSnapshot)
    requires
        frequency is Some <==> card_found,
        utilization is Some <==> card_found,
    ensures
        !card_found ==> r.frequency_mhz is None && r.utilization_tenths is None && r.source is None
            && crate::bus::opt_view(r.last_error) == Some("no drm card found"@),
        card_found ==> ({
            let f = frequency.unwrap();
            let u = utilization.unwrap();
            &&& r.frequency_mhz == (match f {
                Ok((v, _)) => Some(v),
                Err(_) => None,
            })
            &&& r.utilization_tenths == (match u {
                Ok((v, _)) => Some(v),
                Err(_) => None,
            })
            &&& crate::bus::opt_view(r.source) == (match (f, u) {
                (Ok((_, s)), _) => Some(s@),
                (Err(_), Ok((_, s))) => Some(s@),
                _ => None,
            })
            &&& crate::bus::opt_view(r.last_error) == notes_text(sysfs_notes(f, u))
        }),
{
    let (f, u) = match (frequency, utilization) {
        (Some(f), Some(u)) => (f, u),
        _ => {
            return GpuPerformanceSnapshot {
                frequency_mhz: None,
                utilization_tenths: None,
                source: None,
                last_error: Some(owned("no drm card found")),
            };
        },
    };
    let ghost (f0, u0) = (f, u);
    let mut notes: Vec<String> = Vec::new();
    let mut frequency_mhz: Option<u32> = None;
    let mut utilization_tenths: Option<u32> = None;
    let mut source: Option<String> = None;
    match f {
        Ok((v, s)) => {
            frequency_mhz = Some(v);
            source = Some(s);
        },
        Err(e) => {
            notes.push(e);
        },
    }
    match u {
        Ok((v, s)) => {
            utilization_tenths = Some(v);
            if source.is_none() {
                source = Some(s);
            }
        },
        Err(e) => {
            notes.push(e);
        },
    }
    assert(views(notes@) =~= sysfs_notes(f0, u0));
    GpuPerformanceSnapshot {
        frequency_mhz,
        utilization_tenths,
        source,
        last_error: notes_error(&notes),
    }
}

} // verus!
