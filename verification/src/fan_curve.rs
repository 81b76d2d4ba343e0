//! Fan curves: the profiles they belong to, the fans, and the eight-point curves
//! that asusd accepts.
use vstd::prelude::*;
use crate::bus::{format_value, summary_of, BusData, BusValue};
use crate::power_profiles::{all_texts, string_array, texts_of};
use crate::dto::{FanCurvePointSnapshot, FanCurveSeriesSnapshot, SetFanCurvePointRequest};
use crate::profiles::{parse_platform_profile_code, platform_profile_code_of};
use crate::text::{
    decimal, decimal_string, join, join_strings, name_key, name_key_of, owned, slug, slug_of,
    string_of, text_is, views,
};

verus! {

/// Why a fan curve was refused.
#[derive(Clone, Copy, PartialEq, Eq, Structural)]
pub enum CurveError {
    /// The curve does not have exactly eight points.
    WrongPointCount { count: usize },
    /// A point's temperature is above 100.
    InvalidTemperature { index: usize, value: u8 },
    /// A point's PWM duty is above 100.
    InvalidPwm { index: usize, value: u8 },
    /// A temperature is lower than the one before it.
    TemperatureDecreases { index: usize },
    /// A PWM duty is lower than the one before it.
    PwmDecreases { index: usize },
}

/// The first point from `i` on whose temperature or duty is out of range.
pub open spec fn range_error_from(ps: Seq<SetFanCurvePointRequest>, i: int) -> Option<CurveError>
    decreases ps.len() - i,
{
    if i < 0 || i >= ps.len() {
        None
    } else if ps[i].temperature > 100 {
        Some(CurveError::InvalidTemperature { index: i as usize, value: ps[i].temperature })
    } else if ps[i].pwm > 100 {
        Some(CurveError::InvalidPwm { index: i as usize, value: ps[i].pwm })
    } else {
        range_error_from(ps, i + 1)
    }
}

/// The first point from `i` on that is lower than its predecessor.
pub open spec fn order_error_from(ps: Seq<SetFanCurvePointRequest>, i: int) -> Option<CurveError>
    decreases ps.len() - i,
{
    if i < 1 || i >= ps.len() {
        None
    } else if ps[i].temperature < ps[i - 1].temperature {
        Some(CurveError::TemperatureDecreases { index: i as usize })
    } else if ps[i].pwm < ps[i - 1].pwm {
        Some(CurveError::PwmDecreases { index: i as usize })
    } else {
        order_error_from(ps, i + 1)
    }
}

/// The temperatures of the points.
pub open spec fn temperatures(ps: Seq<SetFanCurvePointRequest>) -> Seq<u8> {
    ps.map_values(|p: SetFanCurvePointRequest| p.temperature)
}

/// The PWM duties of the points.
pub open spec fn duties(ps: Seq<SetFanCurvePointRequest>) -> Seq<u8> {
    ps.map_values(|p: SetFanCurvePointRequest| p.pwm)
}

/// What checking a curve gives: its temperatures and duties when it has eight
/// points, each within 0..=100 and none lower than the one before; otherwise
/// the first fault, looking at the count, then at each point's range in
/// order, then at the order of the points.
pub open spec fn curve_check(ps: Seq<SetFanCurvePointRequest>) -> Result<
    (Seq<u8>, Seq<u8>),
    CurveError,
> {
    if ps.len() != 8 {
        Err(CurveError::WrongPointCount { count: ps.len() as usize })
    } else {
        match range_error_from(ps, 0) {
            Some(e) => Err(e),
            None => match order_error_from(ps, 1) {
                Some(e) => Err(e),
                None => Ok((temperatures(ps), duties(ps))),
            },
        }
    }
}

/// Checks a curve and splits it into its temperatures and its duties.
pub fn validate_curve_points(points: &[SetFanCurvePointRequest]) -> (r: Result<
    ([u8; 8], [u8; 8]),
    CurveError,
>)
    ensures
        match (r, curve_check(points@)) {
            (Ok((t, p)), Ok((ts, ps))) => t@ == ts && p@ == ps,
            (Err(e), Err(f)) => e == f,
            _ => false,
        },
{
    let n = points.len();
    if n != 8 {
        return Err(CurveError::WrongPointCount { count: n });
    }
    let mut i: usize = 0;
    while i < 8
        invariant
            points@.len() == 8,
            i <= 8,
            range_error_from(points@, 0) == range_error_from(points@, i as int),
        decreases 8 - i,
    {
        let p = points[i];
        if p.temperature > 100 {
            return Err(CurveError::InvalidTemperature { index: i, value: p.temperature });
        }
        if p.pwm > 100 {
            return Err(CurveError::InvalidPwm { index: i, value: p.pwm });
        }
        i = i + 1;
    }
    let mut j: usize = 1;
    while j < 8
        invariant
            points@.len() == 8,
            1 <= j <= 8,
            range_error_from(points@, 0) is None,
            order_error_from(points@, 1) == order_error_from(points@, j as int),
        decreases 8 - j,
    {
        if points[j].temperature < points[j - 1].temperature {
            return Err(CurveError::TemperatureDecreases { index: j });
        }
        if points[j].pwm < points[j - 1].pwm {
            return Err(CurveError::PwmDecreases { index: j });
        }
        j = j + 1;
    }
    let temps: [u8; 8] = [
        points[0].temperature,
        points[1].temperature,
        points[2].temperature,
        points[3].temperature,
        points[4].temperature,
        points[5].temperature,
        points[6].temperature,
        points[7].temperature,
    ];
    let pwms: [u8; 8] = [
        points[0].pwm,
        points[1].pwm,
        points[2].pwm,
        points[3].pwm,
        points[4].pwm,
        points[5].pwm,
        points[6].pwm,
        points[7].pwm,
    ];
    assert(temps@ =~= temperatures(points@));
    assert(pwms@ =~= duties(points@));
    Ok((temps, pwms))
}

proof fn lemma_range_ok(ps: Seq<SetFanCurvePointRequest>, i: int, k: int)
    requires
        0 <= i <= k < ps.len(),
        range_error_from(ps, i) is None,
    ensures
        ps[k].temperature <= 100 && ps[k].pwm <= 100,
    decreases k - i,
{
    if i < k {
        lemma_range_ok(ps, i + 1, k);
    }
}

proof fn lemma_order_ok(ps: Seq<SetFanCurvePointRequest>, i: int, k: int)
    requires
        1 <= i <= k < ps.len(),
        order_error_from(ps, i) is None,
    ensures
        ps[k - 1].temperature <= ps[k].temperature && ps[k - 1].pwm <= ps[k].pwm,
    decreases k - i,
{
    if i < k {
        lemma_order_ok(ps, i + 1, k);
    }
}

proof fn lemma_order_ok_span(ps: Seq<SetFanCurvePointRequest>, a: int, b: int)
    requires
        0 <= a <= b < ps.len(),
        order_error_from(ps, 1) is None,
    ensures
        ps[a].temperature <= ps[b].temperature && ps[a].pwm <= ps[b].pwm,
    decreases b - a,
{
    if a < b {
        lemma_order_ok_span(ps, a, b - 1);
        lemma_order_ok(ps, 1, b);
    }
}

/// An accepted curve has eight points, every temperature and duty within
/// 0..=100, and both the temperatures and the duties non-decreasing.
pub proof fn lemma_accepted_curve_is_monotone(ps: Seq<SetFanCurvePointRequest>)
    requires
        curve_check(ps) is Ok,
    ensures
        ps.len() == 8,
        forall|k: int| 0 <= k < 8 ==> #[trigger] ps[k].temperature <= 100 && ps[k].pwm <= 100,
        forall|a: int, b: int|
            0 <= a <= b < 8 ==> #[trigger] ps[a].temperature <= #[trigger] ps[b].temperature
                && ps[a].pwm <= ps[b].pwm,
{
    assert forall|k: int| 0 <= k < 8 implies #[trigger] ps[k].temperature <= 100 && ps[k].pwm
        <= 100 by {
        lemma_range_ok(ps, 0, k);
    }
    assert forall|a: int, b: int|
        0 <= a <= b < 8 implies #[trigger] ps[a].temperature <= #[trigger] ps[b].temperature
        && ps[a].pwm <= ps[b].pwm by {
        lemma_order_ok_span(ps, a, b);
    }
}

proof fn lemma_range_clear(ps: Seq<SetFanCurvePointRequest>, i: int)
    requires
        0 <= i,
        forall|k: int| 0 <= k < ps.len() ==> #[trigger] ps[k].temperature <= 100 && ps[k].pwm <= 100,
    ensures
        range_error_from(ps, i) is None,
    decreases ps.len() - i,
{
    if i < ps.len() {
        lemma_range_clear(ps, i + 1);
    }
}

proof fn lemma_order_clear(ps: Seq<SetFanCurvePointRequest>, i: int)
    requires
        1 <= i,
        forall|k: int|
            1 <= k < ps.len() ==> ps[k - 1].temperature <= #[trigger] ps[k].temperature
                && ps[k - 1].pwm <= ps[k].pwm,
    ensures
        order_error_from(ps, i) is None,
    decreases ps.len() - i,
{
    if i < ps.len() {
        lemma_order_clear(ps, i + 1);
    }
}

/// Every curve of eight points whose temperatures and duties all lie within
/// 0..=100 and never fall from one point to the next is accepted, and comes
/// back as its temperatures and its duties, point by point.
pub proof fn lemma_valid_curve_is_accepted(ps: Seq<SetFanCurvePointRequest>)
    requires
        ps.len() == 8,
        forall|k: int| 0 <= k < 8 ==> #[trigger] ps[k].temperature <= 100 && ps[k].pwm <= 100,
        forall|k: int|
            1 <= k < 8 ==> ps[k - 1].temperature <= #[trigger] ps[k].temperature
                && ps[k - 1].pwm <= ps[k].pwm,
    ensures
        curve_check(ps) matches Ok((t, d)) && t.len() == 8 && d.len() == 8 && forall|k: int|
            0 <= k < 8 ==> t[k] == #[trigger] ps[k].temperature && d[k] == ps[k].pwm,
{
    lemma_range_clear(ps, 0);
    lemma_order_clear(ps, 1);
}

/// The fault a refused curve is refused for, as it is in the points.
pub open spec fn fault_holds(ps: Seq<SetFanCurvePointRequest>, e: CurveError) -> bool {
    match e {
        CurveError::WrongPointCount { count } => ps.len() != 8 && count == ps.len() as usize,
        CurveError::InvalidTemperature { index, value } => index < ps.len()
            && ps[index as int].temperature == value && value > 100,
        CurveError::InvalidPwm { index, value } => index < ps.len() && ps[index as int].pwm == value
            && value > 100,
        CurveError::TemperatureDecreases { index } => 1 <= index < ps.len()
            && ps[index as int].temperature < ps[index - 1].temperature,
        CurveError::PwmDecreases { index } => 1 <= index < ps.len() && ps[index as int].pwm
            < ps[index - 1].pwm,
    }
}

proof fn lemma_range_error_holds(ps: Seq<SetFanCurvePointRequest>, i: int)
    requires
        0 <= i,
        ps.len() == 8,
    ensures
        range_error_from(ps, i) matches Some(e) ==> fault_holds(ps, e),
    decreases ps.len() - i,
{
    if i < ps.len() && ps[i].temperature <= 100 && ps[i].pwm <= 100 {
        lemma_range_error_holds(ps, i + 1);
    }
}

proof fn lemma_order_error_holds(ps: Seq<SetFanCurvePointRequest>, i: int)
    requires
        1 <= i,
        ps.len() == 8,
    ensures
        order_error_from(ps, i) matches Some(e) ==> fault_holds(ps, e),
    decreases ps.len() - i,
{
    if i < ps.len() && ps[i].temperature >= ps[i - 1].temperature && ps[i].pwm >= ps[i - 1].pwm {
        lemma_order_error_holds(ps, i + 1);
    }
}

/// A curve is refused only for a fault it has: a count other than eight, a
/// temperature or duty above 100 at the point named, or a temperature or duty
/// lower than the one before it at the point named.
pub proof fn lemma_refused_curve_has_the_fault(ps: Seq<SetFanCurvePointRequest>)
    ensures
        curve_check(ps) matches Err(e) ==> fault_holds(ps, e),
{
    if ps.len() == 8 {
        lemma_range_error_holds(ps, 0);
        lemma_order_error_holds(ps, 1);
    }
}

/// The message that reports a refused curve.
pub open spec fn curve_error_text(e: CurveError) -> Seq<char> {
    match e {
        CurveError::WrongPointCount { count } => "asusd: fan curve requires exactly 8 points, got "@
            + decimal(count as nat),
        CurveError::InvalidTemperature { index, value } => "asusd: fan curve point "@ + decimal(
            index as nat,
        ) + " has invalid temperature "@ + decimal(value as nat) + " (expected 0..=100)"@,
        CurveError::InvalidPwm { index, value } => "asusd: fan curve point "@ + decimal(
            index as nat,
        ) + " has invalid pwm "@ + decimal(value as nat) + " (expected 0..=100)"@,
        CurveError::TemperatureDecreases { index } =>
            "asusd: fan curve temperatures must be non-decreasing (index "@ + decimal(index as nat)
            + ")"@,
        CurveError::PwmDecreases { index } =>
            "asusd: fan curve pwm values must be non-decreasing (index "@ + decimal(index as nat)
            + ")"@,
    }
}

impl CurveError {
    /// The message that reports this fault.
    pub fn message(&self) -> (r: String)
        ensures
            r@ == curve_error_text(*self),
    {
        match *self {
            CurveError::WrongPointCount { count } => {
                let mut m = owned("asusd: fan curve requires exactly 8 points, got ");
                m.append(decimal_string(count as u64).as_str());
                m
            },
            CurveError::InvalidTemperature { index, value } => {
                let mut m = owned("asusd: fan curve point ");
                m.append(decimal_string(index as u64).as_str());
                m.append(" has invalid temperature ");
                m.append(decimal_string(value as u64).as_str());
                m.append(" (expected 0..=100)");
                m
            },
            CurveError::InvalidPwm { index, value } => {
                let mut m = owned("asusd: fan curve point ");
                m.append(decimal_string(index as u64).as_str());
                m.append(" has invalid pwm ");
                m.append(decimal_string(value as u64).as_str());
                m.append(" (expected 0..=100)");
                m
            },
            CurveError::TemperatureDecreases { index } => {
                let mut m = owned("asusd: fan curve temperatures must be non-decreasing (index ");
                m.append(decimal_string(index as u64).as_str());
                m.append(")");
                m
            },
            CurveError::PwmDecreases { index } => {
                let mut m = owned("asusd: fan curve pwm values must be non-decreasing (index ");
                m.append(decimal_string(index as u64).as_str());
                m.append(")");
                m
            },
        }
    }
}

/// The fan-curve profile code of a profile name; the same names as the
/// platform profiles.
pub fn parse_profile_code(profile: &str) -> (r: Option<u32>)
    ensures
        r == platform_profile_code_of(profile@),
{
    parse_platform_profile_code(profile)
}

/// The profile name written as asusd's fan-curve calls take it.
pub fn normalize_profile_name(profile: &str) -> (r: String)
    ensures
        r@ == slug(profile@),
{
    let s = slug_of(profile);
    string_of(&s)
}

/// The fan that `fan` names, in asusd's spelling.
pub open spec fn fan_name_of(fan: Seq<char>) -> Option<Seq<char>> {
    let k = name_key(fan);
    if k == "cpu"@ {
        Some("CPU"@)
    } else if k == "gpu"@ {
        Some("GPU"@)
    } else if k == "mid"@ {
        Some("MID"@)
    } else {
        None
    }
}

/// The fan that `fan` names, in asusd's spelling, if it names one.
pub fn normalize_fan_name(fan: &str) -> (r: Option<String>)
    ensures
        crate::bus::opt_view(r) == fan_name_of(fan@),
{
    let k = name_key_of(fan);
    if text_is(&k, "cpu") {
        Some(owned("CPU"))
    } else if text_is(&k, "gpu") {
        Some(owned("GPU"))
    } else if text_is(&k, "mid") {
        Some(owned("MID"))
    } else {
        None
    }
}

/// The profile code whose curves the dashboard shows: that of the active
/// platform profile, "balanced" when none is known, and 0 when the name is
/// not a profile's.
pub fn fan_curves_profile_code(active_profile: Option<&str>) -> (r: u32)
    ensures
        r == match platform_profile_code_of(
            match active_profile {
                Some(p) => p@,
                None => "balanced"@,
            },
        ) {
            Some(c) => c,
            None => 0,
        },
{
    let name = match active_profile {
        Some(p) => p,
        None => "balanced",
    };
    match parse_platform_profile_code(name) {
        Some(c) => c,
        None => 0,
    }
}

/// One fan's curve as asusd takes it: the fan, the eight duties, the eight
/// temperatures, and whether the curve is enabled.
pub fn fan_curve_write_tuple(fan: &str, pwm: [u8; 8], temp: [u8; 8], enabled: bool) -> (r: (
    String,
    [u8; 8],
    [u8; 8],
    bool,
))
    ensures
        r.0@ == fan@,
        r.1@ == pwm@,
        r.2@ == temp@,
        r.3 == enabled,
{
    (owned(fan), pwm, temp, enabled)
}

/// The text of a boolean.
pub open spec fn bool_text(b: bool) -> Seq<char> {
    if b {
        "true"@
    } else {
        "false"@
    }
}

/// A list of numbers written as `[a, b, ...]`.
pub open spec fn list_text(xs: Seq<u8>) -> Seq<char> {
    "["@ + join(xs.map_values(|x: u8| decimal(x as nat)), ", "@) + "]"@
}

/// One fan's curve written as a line of the raw curve text.
pub open spec fn curve_line(fan: Seq<char>, pwm: Seq<u8>, temp: Seq<u8>, enabled: bool) -> Seq<
    char,
> {
    fan + ": pwm="@ + list_text(pwm) + ", temp="@ + list_text(temp) + ", enabled="@ + bool_text(
        enabled,
    )
}

/// The points of a curve, pairing each temperature with the duty at the same place.
pub open spec fn curve_points(pwm: Seq<u8>, temp: Seq<u8>) -> Seq<FanCurvePointSnapshot> {
    Seq::new(temp.len(), |k: int| FanCurvePointSnapshot { temperature: temp[k], pwm: pwm[k] })
}

/// The fan curves asusd reported, as text and as series.
pub struct FanCurveDecoded {
    pub raw: String,
    pub series: Vec<FanCurveSeriesSnapshot>,
}

fn list_string(xs: &[u8; 8]) -> (r: String)
    ensures
        r@ == list_text(xs@),
{
    let mut parts: Vec<String> = Vec::new();
    let mut i: usize = 0;
    while i < 8
        invariant
            i <= 8,
            xs@.len() == 8,
            views(parts@) == xs@.take(i as int).map_values(|x: u8| decimal(x as nat)),
        decreases 8 - i,
    {
        let d = decimal_string(xs[i] as u64);
        let ghost before = parts@;
        parts.push(d);
        i = i + 1;
        assert(views(parts@) =~= xs@.take(i as int).map_values(|x: u8| decimal(x as nat))) by {
            assert(views(parts@) =~= views(before).push(d@));
        }
    }
    assert(xs@.take(8) =~= xs@);
    let mut r = owned("[");
    r.append(join_strings(&parts, ", ").as_str());
    r.append("]");
    r
}

fn curve_line_string(fan: &String, pwm: &[u8; 8], temp: &[u8; 8], enabled: bool) -> (r: String)
    ensures
        r@ == curve_line(fan@, pwm@, temp@, enabled),
{
    let mut r = fan.clone();
    r.append(": pwm=");
    r.append(list_string(pwm).as_str());
    r.append(", temp=");
    r.append(list_string(temp).as_str());
    r.append(", enabled=");
    r.append(
        if enabled {
            "true"
        } else {
            "false"
        },
    );
    r
}

fn curve_point_list(pwm: &[u8; 8], temp: &[u8; 8]) -> (r: Vec<FanCurvePointSnapshot>)
    ensures
        r@ == curve_points(pwm@, temp@),
{
    let mut r: Vec<FanCurvePointSnapshot> = Vec::new();
    let mut i: usize = 0;
    while i < 8
        invariant
            i <= 8,
            pwm@.len() == 8,
            temp@.len() == 8,
            r@ == curve_points(pwm@, temp@).take(i as int),
        decreases 8 - i,
    {
        r.push(FanCurvePointSnapshot { temperature: temp[i], pwm: pwm[i] });
        i = i + 1;
        assert(r@ =~= curve_points(pwm@, temp@).take(i as int));
    }
    assert(curve_points(pwm@, temp@).take(8) =~= curve_points(pwm@, temp@));
    r
}

/// The curves of the entries asusd answered with, one line and one series per
/// fan; nothing when it answered with no entry.
pub fn decode_fan_curve_entries(entries: &Vec<(String, [u8; 8], [u8; 8], bool)>) -> (r: Option<
    FanCurveDecoded,
>)
    ensures
        entries@.len() == 0 ==> r is None,
        entries@.len() > 0 ==> (r matches Some(d) && {
            &&& d.raw@ == join(
                entries@.map_values(
                    |e: (String, [u8; 8], [u8; 8], bool)| curve_line(e.0@, e.1@, e.2@, e.3),
                ),
                "\n"@,
            )
            &&& d.series@.len() == entries@.len()
            &&& forall|i: int|
                0 <= i < entries@.len() ==> {
                    &&& (#[trigger] d.series@[i]).fan@ == entries@[i].0@
                    &&& d.series@[i].enabled == entries@[i].3
                    &&& d.series@[i].points@ == curve_points(entries@[i].1@, entries@[i].2@)
                }
        }),
{
    if entries.len() == 0 {
        return None;
    }
    let ghost lines_spec = entries@.map_values(
        |e: (String, [u8; 8], [u8; 8], bool)| curve_line(e.0@, e.1@, e.2@, e.3),
    );
    let mut lines: Vec<String> = Vec::new();
    let mut series: Vec<FanCurveSeriesSnapshot> = Vec::new();
    let mut i: usize = 0;
    while i < entries.len()
        invariant
            i <= entries@.len(),
            lines_spec == entries@.map_values(
                |e: (String, [u8; 8], [u8; 8], bool)| curve_line(e.0@, e.1@, e.2@, e.3),
            ),
            views(lines@) == lines_spec.take(i as int),
            series@.len() == i,
            forall|k: int|
                0 <= k < i ==> {
                    &&& (#[trigger] series@[k]).fan@ == entries@[k].0@
                    &&& series@[k].enabled == entries@[k].3
                    &&& series@[k].points@ == curve_points(entries@[k].1@, entries@[k].2@)
                },
        decreases entries@.len() - i,
    {
        let e = &entries[i];
        let line = curve_line_string(&e.0, &e.1, &e.2, e.3);
        let ghost before = lines@;
        lines.push(line);
        assert(views(lines@) =~= lines_spec.take(i + 1)) by {
            assert(views(lines@) =~= views(before).push(line@));
        }
        let points = curve_point_list(&e.1, &e.2);
        series.push(FanCurveSeriesSnapshot { fan: e.0.clone(), enabled: e.3, points });
        i = i + 1;
    }
    assert(lines_spec.take(entries@.len() as int) =~= lines_spec);
    let raw = join_strings(&lines, "\n");
    Some(FanCurveDecoded { raw, series })
}

/// The raw curve text of an answer that is not a list of curve entries: the
/// lines of a non-empty array of strings, else the summaries of a non-empty
/// array's elements, one per line, else the answer's own summary.
pub open spec fn payload_text(value: BusValue, elements: Option<Seq<BusValue>>) -> Seq<char> {
    match value.data {
        BusData::Array(es) if all_texts(es@) && es@.len() > 0 => join(texts_of(es@), "\n"@),
        _ => match elements {
            Some(v) if v.len() > 0 => join(v.map_values(|e: BusValue| summary_of(e)), "\n"@),
            _ => summary_of(value),
        },
    }
}

/// The raw curve text of an answer that is not a list of curve entries.
/// `elements` holds the answer's elements when it is an array.
pub fn format_fan_curve_payload(value: &BusValue, elements: &Option<Vec<BusValue>>) -> (r: String)
    ensures
        r@ == payload_text(*value, match *elements {
            Some(v) => Some(v@),
            None => None,
        }),
{
    if let BusData::Array(es) = &value.data {
        if let Some(lines) = string_array(es) {
            if lines.len() > 0 {
                return join_strings(&lines, "\n");
            }
        }
    }
    if let Some(v) = elements {
        if v.len() > 0 {
            let mut lines: Vec<String> = Vec::new();
            let mut i: usize = 0;
            while i < v.len()
                invariant
                    i <= v@.len(),
                    views(lines@) == v@.take(i as int).map_values(|e: BusValue| summary_of(e)),
                decreases v@.len() - i,
            {
                let line = format_value(&v[i]);
                let ghost before = lines@;
                lines.push(line);
                i = i + 1;
                assert(views(lines@) =~= v@.take(i as int).map_values(|e: BusValue| summary_of(e))) by {
                    assert(views(lines@) =~= views(before).push(line@));
                }
            }
            assert(v@.take(v@.len() as int) =~= v@);
            return join_strings(&lines, "\n");
        }
    }
    format_value(value)
}

} // verus!
