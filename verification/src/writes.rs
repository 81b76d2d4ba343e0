//! Changes written to the daemons, as plans of bus attempts.
//!
//! The daemons have changed their method names and argument types across
//! versions, so a change is a list of attempts, made in order until one
//! succeeds (`next_plan_step`). When none succeeds the change fails with the
//! plan's failure message.
use vstd::prelude::*;
use crate::fan_curve::{fan_curve_write_tuple, fan_name_of, normalize_fan_name, parse_profile_code};
use crate::gfx::{gfx_mode_code_of, parse_mode_code};
use crate::lighting::{aura_mode_codes, parse_aura_mode_codes, parse_slash_mode_codes, slash_mode_codes};
use crate::power_profiles::{normalize_profile, ppd_profile_of};
use crate::profiles::{parse_platform_profile_code, platform_profile_code_of};
use crate::bus::{format_value, summary_of, BusValue};
use crate::text::{chars_of, contains_chars, contains_text, decimal, decimal_string, owned};

verus! {

/// A value passed on the bus.
pub enum WireValue {
    U8(u8),
    U32(u32),
    I32(i32),
    Bool(bool),
    Text(String),
    /// One fan's curve: the fan, eight duties, eight temperatures, enabled.
    Curve(String, [u8; 8], [u8; 8], bool),
}

/// What a wire value stands for.
pub enum Wire {
    U8(u8),
    U32(u32),
    I32(i32),
    Bool(bool),
    Text(Seq<char>),
    Curve(Seq<char>, Seq<u8>, Seq<u8>, bool),
}

impl View for WireValue {
    type V = Wire;

    open spec fn view(&self) -> Wire {
        match self {
            WireValue::U8(x) => Wire::U8(*x),
            WireValue::U32(x) => Wire::U32(*x),
            WireValue::I32(x) => Wire::I32(*x),
            WireValue::Bool(x) => Wire::Bool(*x),
            WireValue::Text(s) => Wire::Text(s@),
            WireValue::Curve(f, p, t, e) => Wire::Curve(f@, p@, t@, *e),
        }
    }
}

/// One attempt: a method called with its arguments, or a property written.
pub enum Attempt {
    Call(String, Vec<WireValue>),
    Write(String, WireValue),
}

/// What an attempt stands for.
pub enum Step {
    Call(Seq<char>, Seq<Wire>),
    Write(Seq<char>, Wire),
}

impl View for Attempt {
    type V = Step;

    open spec fn view(&self) -> Step {
        match self {
            Attempt::Call(m, args) => Step::Call(m@, args@.map_values(|w: WireValue| w@)),
            Attempt::Write(p, v) => Step::Write(p@, v@),
        }
    }
}

/// The attempts of a change, in order, and the message it fails with when
/// none succeeds.
pub struct AttemptPlan {
    pub attempts: Vec<Attempt>,
    pub failure: String,
}

/// What a plan's attempts stand for.
pub open spec fn steps(plan: AttemptPlan) -> Seq<Step> {
    plan.attempts@.map_values(|a: Attempt| a@)
}

fn call1(method: &str, arg: WireValue) -> (r: Attempt)
    ensures
        r@ == Step::Call(method@, seq![arg@]),
{
    let mut args: Vec<WireValue> = Vec::new();
    let ghost a = arg@;
    args.push(arg);
    assert(args@.map_values(|w: WireValue| w@) =~= seq![a]);
    Attempt::Call(owned(method), args)
}

fn call2(method: &str, a0: WireValue, a1: WireValue) -> (r: Attempt)
    ensures
        r@ == Step::Call(method@, seq![a0@, a1@]),
{
    let mut args: Vec<WireValue> = Vec::new();
    let ghost (v0, v1) = (a0@, a1@);
    args.push(a0);
    args.push(a1);
    assert(args@.map_values(|w: WireValue| w@) =~= seq![v0, v1]);
    Attempt::Call(owned(method), args)
}

fn call0(method: &str) -> (r: Attempt)
    ensures
        r@ == Step::Call(method@, Seq::empty()),
{
    let args: Vec<WireValue> = Vec::new();
    assert(args@.map_values(|w: WireValue| w@) =~= Seq::<Wire>::empty());
    Attempt::Call(owned(method), args)
}

fn write(property: &str, value: WireValue) -> (r: Attempt)
    ensures
        r@ == Step::Write(property@, value@),
{
    Attempt::Write(owned(property), value)
}

/// The message for a name that is none of those a daemon knows:
/// `<what> '<name>'`.
pub open spec fn unsupported_text(what: Seq<char>, name: Seq<char>) -> Seq<char> {
    what + " '"@ + name + "'"@
}

fn unsupported(what: &str, name: &str) -> (r: String)
    ensures
        r@ == unsupported_text(what@, name@),
{
    let mut m = owned(what);
    m.append(" '");
    m.append(name);
    m.append("'");
    m
}

/// Setting the platform profile: asusd's method with the code as `u32`, then
/// as `i32`, then under its older name, and at last a write of the property.
pub fn platform_profile_plan(profile: &str) -> (r: Result<AttemptPlan, String>)
    ensures
        match platform_profile_code_of(profile@) {
            None => r matches Err(e) && e@ == unsupported_text(
                "asusd: unsupported platform profile"@,
                profile@,
            ),
            Some(c) => r matches Ok(plan) && steps(plan) == seq![
                Step::Call("SetPlatformProfile"@, seq![Wire::U32(c)]),
                Step::Call("SetPlatformProfile"@, seq![Wire::I32(c as i32)]),
                Step::Call("set_platform_profile"@, seq![Wire::U32(c)]),
                Step::Write("PlatformProfile"@, Wire::U32(c)),
            ] && plan.failure@ == "D-Bus: failed to set asusd PlatformProfile"@,
        },
{
    let code = match parse_platform_profile_code(profile) {
        Some(c) => c,
        None => {
            return Err(unsupported("asusd: unsupported platform profile", profile));
        },
    };
    let mut attempts: Vec<Attempt> = Vec::new();
    attempts.push(call1("SetPlatformProfile", WireValue::U32(code)));
    attempts.push(call1("SetPlatformProfile", WireValue::I32(code as i32)));
    attempts.push(call1("set_platform_profile", WireValue::U32(code)));
    attempts.push(write("PlatformProfile", WireValue::U32(code)));
    let plan = AttemptPlan {
        attempts,
        failure: owned("D-Bus: failed to set asusd PlatformProfile"),
    };
    assert(steps(plan) =~= seq![
        Step::Call("SetPlatformProfile"@, seq![Wire::U32(code)]),
        Step::Call("SetPlatformProfile"@, seq![Wire::I32(code as i32)]),
        Step::Call("set_platform_profile"@, seq![Wire::U32(code)]),
        Step::Write("PlatformProfile"@, Wire::U32(code)),
    ]);
    Ok(plan)
}

/// Writing the platform profile used on AC power, or on battery: one write of
/// the named property with the profile's code.
pub fn platform_profile_source_write(profile: &str, on_battery: bool) -> (r: Result<AttemptPlan, String>)
    ensures
        match platform_profile_code_of(profile@) {
            None => r matches Err(e) && e@ == unsupported_text(
                "asusd: unsupported platform profile"@,
                profile@,
            ),
            Some(c) => r matches Ok(plan) && if on_battery {
                steps(plan) == seq![Step::Write("PlatformProfileOnBattery"@, Wire::U32(c))]
                    && plan.failure@ == "D-Bus: failed to set asusd PlatformProfileOnBattery"@
            } else {
                steps(plan) == seq![Step::Write("PlatformProfileOnAc"@, Wire::U32(c))]
                    && plan.failure@ == "D-Bus: failed to set asusd PlatformProfileOnAc"@
            },
        },
{
    let code = match parse_platform_profile_code(profile) {
        Some(c) => c,
        None => {
            return Err(unsupported("asusd: unsupported platform profile", profile));
        },
    };
    let mut attempts: Vec<Attempt> = Vec::new();
    if on_battery {
        attempts.push(write("PlatformProfileOnBattery", WireValue::U32(code)));
        let plan = AttemptPlan {
            attempts,
            failure: owned("D-Bus: failed to set asusd PlatformProfileOnBattery"),
        };
        assert(steps(plan) =~= seq![Step::Write("PlatformProfileOnBattery"@, Wire::U32(code))]);
        Ok(plan)
    } else {
        attempts.push(write("PlatformProfileOnAc", WireValue::U32(code)));
        let plan = AttemptPlan {
            attempts,
            failure: owned("D-Bus: failed to set asusd PlatformProfileOnAc"),
        };
        assert(steps(plan) =~= seq![Step::Write("PlatformProfileOnAc"@, Wire::U32(code))]);
        Ok(plan)
    }
}

/// The writes of a lighting mode: for each candidate code in turn, the
/// property written as `u8`, then `i32`, then `u32`.
pub open spec fn mode_writes(property: Seq<char>, codes: Seq<u8>) -> Seq<Step>
    decreases codes.len(),
{
    if codes.len() == 0 {
        Seq::empty()
    } else {
        let c = codes.last();
        mode_writes(property, codes.drop_last()) + seq![
            Step::Write(property, Wire::U8(c)),
            Step::Write(property, Wire::I32(c as i32)),
            Step::Write(property, Wire::U32(c as u32)),
        ]
    }
}

fn mode_write_attempts(property: &str, codes: &Vec<u8>) -> (r: Vec<Attempt>)
    ensures
        r@.map_values(|a: Attempt| a@) == mode_writes(property@, codes@),
{
    let mut r: Vec<Attempt> = Vec::new();
    let mut i: usize = 0;
    while i < codes.len()
        invariant
            i <= codes@.len(),
            r@.map_values(|a: Attempt| a@) == mode_writes(property@, codes@.take(i as int)),
        decreases codes@.len() - i,
    {
        let c = codes[i];
        let ghost before = r@.map_values(|a: Attempt| a@);
        r.push(write(property, WireValue::U8(c)));
        r.push(write(property, WireValue::I32(c as i32)));
        r.push(write(property, WireValue::U32(c as u32)));
        assert(codes@.take(i + 1).drop_last() =~= codes@.take(i as int));
        assert(r@.map_values(|a: Attempt| a@) =~= before + seq![
            Step::Write(property@, Wire::U8(c)),
            Step::Write(property@, Wire::I32(c as i32)),
            Step::Write(property@, Wire::U32(c as u32)),
        ]);
        i = i + 1;
    }
    assert(codes@.take(codes@.len() as int) =~= codes@);
    r
}

/// Setting the keyboard lighting mode: each candidate code of the mode, each
/// written in the three integer types asusd has taken.
pub fn aura_mode_plan(mode: &str) -> (r: Result<AttemptPlan, String>)
    ensures
        match aura_mode_codes(mode@) {
            None => r matches Err(e) && e@ == unsupported_text("asusd: unsupported aura mode"@, mode@),
            Some(codes) => r matches Ok(plan) && steps(plan) == mode_writes("LedMode"@, codes)
                && plan.failure@ == "D-Bus: failed to set asusd aura LedMode"@,
        },
{
    match parse_aura_mode_codes(mode) {
        None => Err(unsupported("asusd: unsupported aura mode", mode)),
        Some(codes) => Ok(
            AttemptPlan {
                attempts: mode_write_attempts("LedMode", &codes),
                failure: owned("D-Bus: failed to set asusd aura LedMode"),
            },
        ),
    }
}

/// Setting the Slash lighting mode, in the same way.
pub fn slash_mode_plan(mode: &str) -> (r: Result<AttemptPlan, String>)
    ensures
        match slash_mode_codes(mode@) {
            None => r matches Err(e) && e@ == unsupported_text("asusd: unsupported slash mode"@, mode@),
            Some(codes) => r matches Ok(plan) && steps(plan) == mode_writes("Mode"@, codes)
                && plan.failure@ == "D-Bus: failed to set asusd slash Mode"@,
        },
{
    match parse_slash_mode_codes(mode) {
        None => Err(unsupported("asusd: unsupported slash mode", mode)),
        Some(codes) => Ok(
            AttemptPlan {
                attempts: mode_write_attempts("Mode", &codes),
                failure: owned("D-Bus: failed to set asusd slash Mode"),
            },
        ),
    }
}

/// The message for a profile code that does not fit the `i32` retries.
pub open spec fn invalid_code_text(code: u32) -> Seq<char> {
    "invalid profile code: "@ + decimal(code as nat)
}

fn invalid_code(code: u32) -> (r: String)
    ensures
        r@ == invalid_code_text(code),
{
    let mut m = owned("invalid profile code: ");
    m.append(decimal_string(code as u64).as_str());
    m
}

/// Writing one fan's curve: asusd's method and its older name with the profile
/// code as `u32`, then as `i32`, then with the profile's name. A code too
/// large for `i32` ends the plan after the `u32` attempts, with its own
/// message.
pub fn fan_curve_plan(
    profile_code: u32,
    profile_name: &str,
    fan: &str,
    pwm: [u8; 8],
    temp: [u8; 8],
    enabled: bool,
) -> (r: AttemptPlan)
    ensures
        ({
            let curve = Wire::Curve(fan@, pwm@, temp@, enabled);
            let by_code = seq![
                Step::Call("SetFanCurve"@, seq![Wire::U32(profile_code), curve]),
                Step::Call("set_fan_curve"@, seq![Wire::U32(profile_code), curve]),
            ];
            if profile_code <= i32::MAX {
                &&& steps(r) == by_code + seq![
                    Step::Call("SetFanCurve"@, seq![Wire::I32(profile_code as i32), curve]),
                    Step::Call("set_fan_curve"@, seq![Wire::I32(profile_code as i32), curve]),
                    Step::Call("SetFanCurve"@, seq![Wire::Text(profile_name@), curve]),
                    Step::Call("set_fan_curve"@, seq![Wire::Text(profile_name@), curve]),
                ]
                &&& r.failure@ == "D-Bus: failed to call asusd SetFanCurve"@
            } else {
                steps(r) == by_code && r.failure@ == invalid_code_text(profile_code)
            }
        }),
{
    let ghost curve = Wire::Curve(fan@, pwm@, temp@, enabled);
    let mut attempts: Vec<Attempt> = Vec::new();
    let t = fan_curve_write_tuple(fan, pwm, temp, enabled);
    attempts.push(
        call2("SetFanCurve", WireValue::U32(profile_code), WireValue::Curve(t.0.clone(), t.1, t.2, t.3)),
    );
    attempts.push(
        call2("set_fan_curve", WireValue::U32(profile_code), WireValue::Curve(t.0.clone(), t.1, t.2, t.3)),
    );
    if profile_code > 0x7fff_ffff {
        let plan = AttemptPlan { attempts, failure: invalid_code(profile_code) };
        assert(steps(plan) =~= seq![
            Step::Call("SetFanCurve"@, seq![Wire::U32(profile_code), curve]),
            Step::Call("set_fan_curve"@, seq![Wire::U32(profile_code), curve]),
        ]);
        return plan;
    }
    let c = profile_code as i32;
    attempts.push(
        call2("SetFanCurve", WireValue::I32(c), WireValue::Curve(t.0.clone(), t.1, t.2, t.3)),
    );
    attempts.push(
        call2("set_fan_curve", WireValue::I32(c), WireValue::Curve(t.0.clone(), t.1, t.2, t.3)),
    );
    attempts.push(
        call2(
            "SetFanCurve",
            WireValue::Text(owned(profile_name)),
            WireValue::Curve(t.0.clone(), t.1, t.2, t.3),
        ),
    );
    attempts.push(
        call2(
            "set_fan_curve",
            WireValue::Text(owned(profile_name)),
            WireValue::Curve(t.0.clone(), t.1, t.2, t.3),
        ),
    );
    let plan = AttemptPlan { attempts, failure: owned("D-Bus: failed to call asusd SetFanCurve") };
    assert(steps(plan) =~= seq![
        Step::Call("SetFanCurve"@, seq![Wire::U32(profile_code), curve]),
        Step::Call("set_fan_curve"@, seq![Wire::U32(profile_code), curve]),
        Step::Call("SetFanCurve"@, seq![Wire::I32(c), curve]),
        Step::Call("set_fan_curve"@, seq![Wire::I32(c), curve]),
        Step::Call("SetFanCurve"@, seq![Wire::Text(profile_name@), curve]),
        Step::Call("set_fan_curve"@, seq![Wire::Text(profile_name@), curve]),
    ]);
    plan
}

/// Reading a profile's fan curves: asusd's method and its older name with the
/// code as `u32`, then, when it fits, as `i32`.
pub fn fan_curve_data_plan(profile_code: u32) -> (r: Vec<Attempt>)
    ensures
        r@.map_values(|a: Attempt| a@) == seq![
            Step::Call("FanCurveData"@, seq![Wire::U32(profile_code)]),
            Step::Call("fan_curve_data"@, seq![Wire::U32(profile_code)]),
        ] + if profile_code <= i32::MAX {
            seq![
                Step::Call("FanCurveData"@, seq![Wire::I32(profile_code as i32)]),
                Step::Call("fan_curve_data"@, seq![Wire::I32(profile_code as i32)]),
            ]
        } else {
            Seq::empty()
        },
{
    let mut r: Vec<Attempt> = Vec::new();
    r.push(call1("FanCurveData", WireValue::U32(profile_code)));
    r.push(call1("fan_curve_data", WireValue::U32(profile_code)));
    if profile_code <= 0x7fff_ffff {
        r.push(call1("FanCurveData", WireValue::I32(profile_code as i32)));
        r.push(call1("fan_curve_data", WireValue::I32(profile_code as i32)));
    }
    assert(r@.map_values(|a: Attempt| a@) =~= seq![
        Step::Call("FanCurveData"@, seq![Wire::U32(profile_code)]),
        Step::Call("fan_curve_data"@, seq![Wire::U32(profile_code)]),
    ] + if profile_code <= i32::MAX {
        seq![
            Step::Call("FanCurveData"@, seq![Wire::I32(profile_code as i32)]),
            Step::Call("fan_curve_data"@, seq![Wire::I32(profile_code as i32)]),
        ]
    } else {
        Seq::empty()
    });
    r
}

/// The message of a failed fan-curve read, from the error of the `u32`
/// attempts and that of the `i32` retry.
pub fn fan_curve_data_failure(first: &str, second: &str) -> (r: String)
    ensures
        r@ == "u32 call failed: "@ + first@ + "; i32 retry failed: "@ + second@,
{
    let mut m = owned("u32 call failed: ");
    m.append(first);
    m.append("; i32 retry failed: ");
    m.append(second);
    m
}

/// A call of a method that has an older name: the method, then the older
/// name, with the same arguments.
pub open spec fn with_older_name(method: Seq<char>, older: Seq<char>, args: Seq<Wire>) -> Seq<Step> {
    seq![Step::Call(method, args), Step::Call(older, args)]
}

/// Moving to the next platform profile.
pub fn next_platform_profile_plan() -> (r: AttemptPlan)
    ensures
        steps(r) == with_older_name("NextPlatformProfile"@, "next_platform_profile"@, Seq::empty()),
        r.failure@ == "D-Bus: failed to call asusd NextPlatformProfile"@,
{
    let mut attempts: Vec<Attempt> = Vec::new();
    attempts.push(call0("NextPlatformProfile"));
    attempts.push(call0("next_platform_profile"));
    let plan = AttemptPlan {
        attempts,
        failure: owned("D-Bus: failed to call asusd NextPlatformProfile"),
    };
    assert(steps(plan) =~= with_older_name(
        "NextPlatformProfile"@,
        "next_platform_profile"@,
        Seq::empty(),
    ));
    plan
}

/// Charging the battery fully once.
pub fn one_shot_full_charge_plan() -> (r: AttemptPlan)
    ensures
        steps(r) == with_older_name("OneShotFullCharge"@, "one_shot_full_charge"@, Seq::empty()),
        r.failure@ == "D-Bus: failed to call asusd OneShotFullCharge"@,
{
    let mut attempts: Vec<Attempt> = Vec::new();
    attempts.push(call0("OneShotFullCharge"));
    attempts.push(call0("one_shot_full_charge"));
    let plan = AttemptPlan {
        attempts,
        failure: owned("D-Bus: failed to call asusd OneShotFullCharge"),
    };
    assert(steps(plan) =~= with_older_name(
        "OneShotFullCharge"@,
        "one_shot_full_charge"@,
        Seq::empty(),
    ));
    plan
}

/// Switching a profile's custom fan curves on or off.
pub fn fan_curves_enabled_plan(profile_code: u32, enabled: bool) -> (r: AttemptPlan)
    ensures
        steps(r) == with_older_name(
            "SetFanCurvesEnabled"@,
            "set_fan_curves_enabled"@,
            seq![Wire::U32(profile_code), Wire::Bool(enabled)],
        ),
        r.failure@ == "D-Bus: failed to call asusd SetFanCurvesEnabled"@,
{
    let mut attempts: Vec<Attempt> = Vec::new();
    attempts.push(call2("SetFanCurvesEnabled", WireValue::U32(profile_code), WireValue::Bool(enabled)));
    attempts.push(call2("set_fan_curves_enabled", WireValue::U32(profile_code), WireValue::Bool(enabled)));
    let plan = AttemptPlan {
        attempts,
        failure: owned("D-Bus: failed to call asusd SetFanCurvesEnabled"),
    };
    assert(steps(plan) =~= with_older_name(
        "SetFanCurvesEnabled"@,
        "set_fan_curves_enabled"@,
        seq![Wire::U32(profile_code), Wire::Bool(enabled)],
    ));
    plan
}

/// Restoring a profile's default fan curves.
pub fn curves_to_defaults_plan(profile_code: u32) -> (r: AttemptPlan)
    ensures
        steps(r) == with_older_name(
            "SetCurvesToDefaults"@,
            "set_curves_to_defaults"@,
            seq![Wire::U32(profile_code)],
        ),
        r.failure@ == "D-Bus: failed to call asusd SetCurvesToDefaults"@,
{
    let mut attempts: Vec<Attempt> = Vec::new();
    attempts.push(call1("SetCurvesToDefaults", WireValue::U32(profile_code)));
    attempts.push(call1("set_curves_to_defaults", WireValue::U32(profile_code)));
    let plan = AttemptPlan {
        attempts,
        failure: owned("D-Bus: failed to call asusd SetCurvesToDefaults"),
    };
    assert(steps(plan) =~= with_older_name(
        "SetCurvesToDefaults"@,
        "set_curves_to_defaults"@,
        seq![Wire::U32(profile_code)],
    ));
    plan
}

/// Setting the graphics mode: supergfxd's method and its older name with the
/// mode's code.
pub fn gpu_mode_plan(mode: &str) -> (r: Result<AttemptPlan, String>)
    ensures
        match gfx_mode_code_of(mode@) {
            None => r matches Err(e) && e@ == unsupported_text("supergfxd: unsupported mode"@, mode@),
            Some(c) => r matches Ok(plan) && steps(plan) == with_older_name(
                "SetMode"@,
                "set_mode"@,
                seq![Wire::U32(c)],
            ) && plan.failure@ == "D-Bus: failed to set supergfxd mode"@,
        },
{
    let code = match parse_mode_code(mode) {
        Some(c) => c,
        None => {
            return Err(unsupported("supergfxd: unsupported mode", mode));
        },
    };
    let mut attempts: Vec<Attempt> = Vec::new();
    attempts.push(call1("SetMode", WireValue::U32(code)));
    attempts.push(call1("set_mode", WireValue::U32(code)));
    let plan = AttemptPlan { attempts, failure: owned("D-Bus: failed to set supergfxd mode") };
    assert(steps(plan) =~= with_older_name("SetMode"@, "set_mode"@, seq![Wire::U32(code)]));
    Ok(plan)
}

/// Setting the power profile: one write of the daemon's own name for it.
pub fn power_profile_plan(profile: &str) -> (r: Result<AttemptPlan, String>)
    ensures
        match ppd_profile_of(profile@) {
            None => r matches Err(e) && e@ == unsupported_text("ppd: unsupported profile"@, profile@),
            Some(name) => r matches Ok(plan) && steps(plan) == seq![
                Step::Write("ActiveProfile"@, Wire::Text(name)),
            ] && plan.failure@ == "D-Bus: failed to set ppd ActiveProfile"@,
        },
{
    let name = match normalize_profile(profile) {
        Some(n) => n,
        None => {
            return Err(unsupported("ppd: unsupported profile", profile));
        },
    };
    let mut attempts: Vec<Attempt> = Vec::new();
    attempts.push(write("ActiveProfile", WireValue::Text(owned(name))));
    let plan = AttemptPlan { attempts, failure: owned("D-Bus: failed to set ppd ActiveProfile") };
    assert(steps(plan) =~= seq![Step::Write("ActiveProfile"@, Wire::Text(name@))]);
    Ok(plan)
}

/// The fan a request names, in asusd's spelling, or the message for an
/// unknown one.
pub fn fan_for_curve(fan: &str) -> (r: Result<String, String>)
    ensures
        match fan_name_of(fan@) {
            Some(n) => r matches Ok(f) && f@ == n,
            None => r matches Err(e) && e@ == unsupported_text("asusd: unsupported fan"@, fan@)
                + " (expected cpu/gpu/mid)"@,
        },
{
    match normalize_fan_name(fan) {
        Some(f) => Ok(f),
        None => {
            let mut m = unsupported("asusd: unsupported fan", fan);
            m.append(" (expected cpu/gpu/mid)");
            Err(m)
        },
    }
}

/// The fan-curve profile code of a requested profile, or the message for an
/// unknown one.
pub fn fan_profile_code(profile: &str) -> (r: Result<u32, String>)
    ensures
        match platform_profile_code_of(profile@) {
            None => r matches Err(e) && e@ == unsupported_text("asusd: unsupported fan profile"@, profile@),
            Some(c) => r == Ok::<u32, String>(c),
        },
{
    match parse_profile_code(profile) {
        Some(c) => Ok(c),
        None => Err(unsupported("asusd: unsupported fan profile", profile)),
    }
}

/// The charge limit requested, when it is a percentage asusd takes.
pub fn check_charge_limit(percent: u8) -> (r: Result<u8, String>)
    ensures
        1 <= percent <= 100 ==> r == Ok::<u8, String>(percent),
        !(1 <= percent <= 100) ==> (r matches Err(e) && e@ == "charge limit must be in 1..=100"@),
{
    if 1 <= percent && percent <= 100 {
        Ok(percent)
    } else {
        Err(owned("charge limit must be in 1..=100"))
    }
}

/// Writing the charge limit.
pub fn charge_limit_plan(percent: u8) -> (r: AttemptPlan)
    ensures
        steps(r) == seq![Step::Write("ChargeControlEndThreshold"@, Wire::U8(percent))],
        r.failure@ == "D-Bus: failed to set asusd ChargeControlEndThreshold"@,
{
    let mut attempts: Vec<Attempt> = Vec::new();
    attempts.push(write("ChargeControlEndThreshold", WireValue::U8(percent)));
    let plan = AttemptPlan {
        attempts,
        failure: owned("D-Bus: failed to set asusd ChargeControlEndThreshold"),
    };
    assert(steps(plan) =~= seq![Step::Write("ChargeControlEndThreshold"@, Wire::U8(percent))]);
    plan
}

/// How asusd answered the question which properties it supports.
pub enum SupportAnswer {
    /// It answered with this list.
    Listed(BusValue),
    /// It answered with something that could not be read as a value.
    Undecodable,
    /// Neither the method nor its older name answered.
    NoAnswer,
}

/// Whether asusd controls the charge limit: the property is in its list of
/// supported properties, or, when it gives no list, the property can be read
/// (`property_readable`, asked only then).
pub fn charge_control_supported(answer: &SupportAnswer, property_readable: Option<bool>) -> (r: Result<bool, String>)
    requires
        property_readable is Some <==> answer is NoAnswer,
    ensures
        match *answer {
            SupportAnswer::Listed(v) => r == Ok::<bool, String>(
                contains_text(summary_of(v), "ChargeControlEndThreshold"@),
            ),
            SupportAnswer::Undecodable => r matches Err(e) && e@
                == "D-Bus: failed to decode asusd supported_properties"@,
            SupportAnswer::NoAnswer => r == Ok::<bool, String>(property_readable == Some(true)),
        },
{
    match answer {
        SupportAnswer::Listed(v) => {
            let summary = chars_of(format_value(v).as_str());
            Ok(contains_chars(&summary, &chars_of("ChargeControlEndThreshold")))
        },
        SupportAnswer::Undecodable => Err(owned("D-Bus: failed to decode asusd supported_properties")),
        SupportAnswer::NoAnswer => Ok(property_readable == Some(true)),
    }
}

/// A mode change tries every candidate code, in order, each written first as
/// `u8`, then as `i32`, then as `u32`, and nothing else.
pub proof fn lemma_mode_writes_try_each_code(property: Seq<char>, codes: Seq<u8>)
    ensures
        mode_writes(property, codes).len() == 3 * codes.len(),
        forall|i: int|
            0 <= i < codes.len() ==> {
                &&& mode_writes(property, codes)[3 * i] == Step::Write(property, Wire::U8(#[trigger] codes[i]))
                &&& mode_writes(property, codes)[3 * i + 1] == Step::Write(property, Wire::I32(codes[i] as i32))
                &&& mode_writes(property, codes)[3 * i + 2] == Step::Write(property, Wire::U32(codes[i] as u32))
            },
    decreases codes.len(),
{
    if codes.len() > 0 {
        let rest = codes.drop_last();
        lemma_mode_writes_try_each_code(property, rest);
        let w = mode_writes(property, codes);
        let n = codes.len() - 1;
        assert forall|i: int| 0 <= i < codes.len() implies {
            &&& w[3 * i] == Step::Write(property, Wire::U8(#[trigger] codes[i]))
            &&& w[3 * i + 1] == Step::Write(property, Wire::I32(codes[i] as i32))
            &&& w[3 * i + 2] == Step::Write(property, Wire::U32(codes[i] as u32))
        } by {
            if i < n {
                assert(rest[i] == codes[i]);
            }
        }
    }
}

/// The asusd sections whose settings are single property writes.
#[derive(Clone, Copy, PartialEq, Eq, Structural)]
pub enum Section {
    Aura,
    Anime,
    Slash,
    Backlight,
    Scsi,
    Armoury,
}

/// The interface of a section.
pub open spec fn section_interface_name(s: Section) -> Seq<char> {
    match s {
        Section::Aura => "xyz.ljones.Aura"@,
        Section::Anime => "xyz.ljones.Anime"@,
        Section::Slash => "xyz.ljones.Slash"@,
        Section::Backlight => "xyz.ljones.Backlight"@,
        Section::Scsi => "xyz.ljones.ScsiAura"@,
        Section::Armoury => "xyz.ljones.AsusArmoury"@,
    }
}

/// The message for a section whose interface asusd does not offer.
pub open spec fn section_missing_text(s: Section) -> Seq<char> {
    match s {
        Section::Aura => "asusd aura interface unavailable"@,
        Section::Anime => "asusd anime interface unavailable"@,
        Section::Slash => "asusd slash interface unavailable"@,
        Section::Backlight => "asusd backlight interface unavailable"@,
        Section::Scsi => "asusd scsi interface unavailable"@,
        Section::Armoury => "asusd armoury interface unavailable"@,
    }
}

/// The interface of a section, and the message for when asusd does not offer
/// it.
pub fn section_interface(s: Section) -> (r: (&'static str, &'static str))
    ensures
        r.0@ == section_interface_name(s),
        r.1@ == section_missing_text(s),
{
    match s {
        Section::Aura => ("xyz.ljones.Aura", "asusd aura interface unavailable"),
        Section::Anime => ("xyz.ljones.Anime", "asusd anime interface unavailable"),
        Section::Slash => ("xyz.ljones.Slash", "asusd slash interface unavailable"),
        Section::Backlight => ("xyz.ljones.Backlight", "asusd backlight interface unavailable"),
        Section::Scsi => ("xyz.ljones.ScsiAura", "asusd scsi interface unavailable"),
        Section::Armoury => ("xyz.ljones.AsusArmoury", "asusd armoury interface unavailable"),
    }
}

/// A setting of an asusd section that is one property write.
pub enum Setting {
    AuraBrightness(u8),
    AnimeBrightness(u8),
    AnimeEnableDisplay(bool),
    AnimeBuiltinsEnabled(bool),
    AnimeOffWhenLidClosed(bool),
    AnimeOffWhenSuspended(bool),
    AnimeOffWhenUnplugged(bool),
    SlashEnabled(bool),
    SlashBrightness(u8),
    SlashInterval(u8),
    SlashShowOnBoot(bool),
    SlashShowOnShutdown(bool),
    SlashShowOnSleep(bool),
    SlashShowOnBattery(bool),
    SlashShowBatteryWarning(bool),
    SlashShowOnLidClosed(bool),
    ScreenpadBrightness(i32),
    ScreenpadGamma(String),
    ScreenpadSyncWithPrimary(bool),
    ScsiEnabled(bool),
    ScsiMode(u8),
    ArmouryCurrentValue(i32),
}

/// The section a setting belongs to.
pub open spec fn setting_section_of(s: Setting) -> Section {
    match s {
        Setting::AuraBrightness(_) => Section::Aura,
        Setting::AnimeBrightness(_) => Section::Anime,
        Setting::AnimeEnableDisplay(_) => Section::Anime,
        Setting::AnimeBuiltinsEnabled(_) => Section::Anime,
        Setting::AnimeOffWhenLidClosed(_) => Section::Anime,
        Setting::AnimeOffWhenSuspended(_) => Section::Anime,
        Setting::AnimeOffWhenUnplugged(_) => Section::Anime,
        Setting::SlashEnabled(_) => Section::Slash,
        Setting::SlashBrightness(_) => Section::Slash,
        Setting::SlashInterval(_) => Section::Slash,
        Setting::SlashShowOnBoot(_) => Section::Slash,
        Setting::SlashShowOnShutdown(_) => Section::Slash,
        Setting::SlashShowOnSleep(_) => Section::Slash,
        Setting::SlashShowOnBattery(_) => Section::Slash,
        Setting::SlashShowBatteryWarning(_) => Section::Slash,
        Setting::SlashShowOnLidClosed(_) => Section::Slash,
        Setting::ScreenpadBrightness(_) => Section::Backlight,
        Setting::ScreenpadGamma(_) => Section::Backlight,
        Setting::ScreenpadSyncWithPrimary(_) => Section::Backlight,
        Setting::ScsiEnabled(_) => Section::Scsi,
        Setting::ScsiMode(_) => Section::Scsi,
        Setting::ArmouryCurrentValue(_) => Section::Armoury,
    }
}

/// The property a setting writes, the value written, and the message when
/// the write fails.
pub open spec fn setting_write(s: Setting) -> (Seq<char>, Wire, Seq<char>) {
    match s {
        Setting::AuraBrightness(x) => ("Brightness"@, Wire::U8(x), "D-Bus: failed to set asusd aura Brightness"@),
        Setting::AnimeBrightness(x) => ("Brightness"@, Wire::U8(x), "D-Bus: failed to set asusd anime Brightness"@),
        Setting::AnimeEnableDisplay(x) => ("EnableDisplay"@, Wire::Bool(x), "D-Bus: failed to set asusd anime EnableDisplay"@),
        Setting::AnimeBuiltinsEnabled(x) => ("BuiltinsEnabled"@, Wire::Bool(x), "D-Bus: failed to set asusd anime BuiltinsEnabled"@),
        Setting::AnimeOffWhenLidClosed(x) => ("OffWhenLidClosed"@, Wire::Bool(x), "D-Bus: failed to set asusd anime OffWhenLidClosed"@),
        Setting::AnimeOffWhenSuspended(x) => ("OffWhenSuspended"@, Wire::Bool(x), "D-Bus: failed to set asusd anime OffWhenSuspended"@),
        Setting::AnimeOffWhenUnplugged(x) => ("OffWhenUnplugged"@, Wire::Bool(x), "D-Bus: failed to set asusd anime OffWhenUnplugged"@),
        Setting::SlashEnabled(x) => ("Enabled"@, Wire::Bool(x), "D-Bus: failed to set asusd slash Enabled"@),
        Setting::SlashBrightness(x) => ("Brightness"@, Wire::U8(x), "D-Bus: failed to set asusd slash Brightness"@),
        Setting::SlashInterval(x) => ("Interval"@, Wire::U8(x), "D-Bus: failed to set asusd slash Interval"@),
        Setting::SlashShowOnBoot(x) => ("ShowOnBoot"@, Wire::Bool(x), "D-Bus: failed to set asusd slash ShowOnBoot"@),
        Setting::SlashShowOnShutdown(x) => ("ShowOnShutdown"@, Wire::Bool(x), "D-Bus: failed to set asusd slash ShowOnShutdown"@),
        Setting::SlashShowOnSleep(x) => ("ShowOnSleep"@, Wire::Bool(x), "D-Bus: failed to set asusd slash ShowOnSleep"@),
        Setting::SlashShowOnBattery(x) => ("ShowOnBattery"@, Wire::Bool(x), "D-Bus: failed to set asusd slash ShowOnBattery"@),
        Setting::SlashShowBatteryWarning(x) => ("ShowBatteryWarning"@, Wire::Bool(x), "D-Bus: failed to set asusd slash ShowBatteryWarning"@),
        Setting::SlashShowOnLidClosed(x) => ("ShowOnLidClosed"@, Wire::Bool(x), "D-Bus: failed to set asusd slash ShowOnLidClosed"@),
        Setting::ScreenpadBrightness(x) => ("ScreenpadBrightness"@, Wire::I32(x), "D-Bus: failed to set asusd backlight ScreenpadBrightness"@),
        Setting::ScreenpadGamma(x) => ("ScreenpadGamma"@, Wire::Text(x@), "D-Bus: failed to set asusd backlight ScreenpadGamma"@),
        Setting::ScreenpadSyncWithPrimary(x) => ("ScreenpadSyncWithPrimary"@, Wire::Bool(x), "D-Bus: failed to set asusd backlight ScreenpadSyncWithPrimary"@),
        Setting::ScsiEnabled(x) => ("Enabled"@, Wire::Bool(x), "D-Bus: failed to set asusd scsi Enabled"@),
        Setting::ScsiMode(x) => ("LedMode"@, Wire::U8(x), "D-Bus: failed to set asusd scsi LedMode"@),
        Setting::ArmouryCurrentValue(x) => ("CurrentValue"@, Wire::I32(x), "D-Bus: failed to set asusd armoury CurrentValue"@),
    }
}

/// The section a setting belongs to.
pub fn setting_section(s: &Setting) -> (r: Section)
    ensures
        r == setting_section_of(*s),
{
    match s {
        Setting::AuraBrightness(_) => Section::Aura,
        Setting::AnimeBrightness(_) => Section::Anime,
        Setting::AnimeEnableDisplay(_) => Section::Anime,
        Setting::AnimeBuiltinsEnabled(_) => Section::Anime,
        Setting::AnimeOffWhenLidClosed(_) => Section::Anime,
        Setting::AnimeOffWhenSuspended(_) => Section::Anime,
        Setting::AnimeOffWhenUnplugged(_) => Section::Anime,
        Setting::SlashEnabled(_) => Section::Slash,
        Setting::SlashBrightness(_) => Section::Slash,
        Setting::SlashInterval(_) => Section::Slash,
        Setting::SlashShowOnBoot(_) => Section::Slash,
        Setting::SlashShowOnShutdown(_) => Section::Slash,
        Setting::SlashShowOnSleep(_) => Section::Slash,
        Setting::SlashShowOnBattery(_) => Section::Slash,
        Setting::SlashShowBatteryWarning(_) => Section::Slash,
        Setting::SlashShowOnLidClosed(_) => Section::Slash,
        Setting::ScreenpadBrightness(_) => Section::Backlight,
        Setting::ScreenpadGamma(_) => Section::Backlight,
        Setting::ScreenpadSyncWithPrimary(_) => Section::Backlight,
        Setting::ScsiEnabled(_) => Section::Scsi,
        Setting::ScsiMode(_) => Section::Scsi,
        Setting::ArmouryCurrentValue(_) => Section::Armoury,
    }
}

/// Writing a setting: the one property write, and its failure message.
pub fn setting_plan(s: Setting) -> (r: AttemptPlan)
    ensures
        steps(r) == seq![Step::Write(setting_write(s).0, setting_write(s).1)],
        r.failure@ == setting_write(s).2,
{
    let ghost g = s;
    let (property, value, failure): (&str, WireValue, &str) = match s {
        Setting::AuraBrightness(x) => ("Brightness", WireValue::U8(x), "D-Bus: failed to set asusd aura Brightness"),
        Setting::AnimeBrightness(x) => ("Brightness", WireValue::U8(x), "D-Bus: failed to set asusd anime Brightness"),
        Setting::AnimeEnableDisplay(x) => ("EnableDisplay", WireValue::Bool(x), "D-Bus: failed to set asusd anime EnableDisplay"),
        Setting::AnimeBuiltinsEnabled(x) => ("BuiltinsEnabled", WireValue::Bool(x), "D-Bus: failed to set asusd anime BuiltinsEnabled"),
        Setting::AnimeOffWhenLidClosed(x) => ("OffWhenLidClosed", WireValue::Bool(x), "D-Bus: failed to set asusd anime OffWhenLidClosed"),
        Setting::AnimeOffWhenSuspended(x) => ("OffWhenSuspended", WireValue::Bool(x), "D-Bus: failed to set asusd anime OffWhenSuspended"),
        Setting::AnimeOffWhenUnplugged(x) => ("OffWhenUnplugged", WireValue::Bool(x), "D-Bus: failed to set asusd anime OffWhenUnplugged"),
        Setting::SlashEnabled(x) => ("Enabled", WireValue::Bool(x), "D-Bus: failed to set asusd slash Enabled"),
        Setting::SlashBrightness(x) => ("Brightness", WireValue::U8(x), "D-Bus: failed to set asusd slash Brightness"),
        Setting::SlashInterval(x) => ("Interval", WireValue::U8(x), "D-Bus: failed to set asusd slash Interval"),
        Setting::SlashShowOnBoot(x) => ("ShowOnBoot", WireValue::Bool(x), "D-Bus: failed to set asusd slash ShowOnBoot"),
        Setting::SlashShowOnShutdown(x) => ("ShowOnShutdown", WireValue::Bool(x), "D-Bus: failed to set asusd slash ShowOnShutdown"),
        Setting::SlashShowOnSleep(x) => ("ShowOnSleep", WireValue::Bool(x), "D-Bus: failed to set asusd slash ShowOnSleep"),
        Setting::SlashShowOnBattery(x) => ("ShowOnBattery", WireValue::Bool(x), "D-Bus: failed to set asusd slash ShowOnBattery"),
        Setting::SlashShowBatteryWarning(x) => ("ShowBatteryWarning", WireValue::Bool(x), "D-Bus: failed to set asusd slash ShowBatteryWarning"),
        Setting::SlashShowOnLidClosed(x) => ("ShowOnLidClosed", WireValue::Bool(x), "D-Bus: failed to set asusd slash ShowOnLidClosed"),
        Setting::ScreenpadBrightness(x) => ("ScreenpadBrightness", WireValue::I32(x), "D-Bus: failed to set asusd backlight ScreenpadBrightness"),
        Setting::ScreenpadGamma(x) => ("ScreenpadGamma", WireValue::Text(x), "D-Bus: failed to set asusd backlight ScreenpadGamma"),
        Setting::ScreenpadSyncWithPrimary(x) => ("ScreenpadSyncWithPrimary", WireValue::Bool(x), "D-Bus: failed to set asusd backlight ScreenpadSyncWithPrimary"),
        Setting::ScsiEnabled(x) => ("Enabled", WireValue::Bool(x), "D-Bus: failed to set asusd scsi Enabled"),
        Setting::ScsiMode(x) => ("LedMode", WireValue::U8(x), "D-Bus: failed to set asusd scsi LedMode"),
        Setting::ArmouryCurrentValue(x) => ("CurrentValue", WireValue::I32(x), "D-Bus: failed to set asusd armoury CurrentValue"),
    };
    let mut attempts: Vec<Attempt> = Vec::new();
    attempts.push(write(property, value));
    let plan = AttemptPlan { attempts, failure: owned(failure) };
    assert(steps(plan) =~= seq![Step::Write(setting_write(g).0, setting_write(g).1)]);
    plan
}

/// Each setting writes, on its own section's interface, the property it is
/// named for, with the value asked for: the keyboard brightness writes Aura
/// `Brightness`, the AniMe settings write `Brightness`, `EnableDisplay`,
/// `BuiltinsEnabled` and the three `OffWhen…` flags, the Slash settings write
/// `Enabled`, `Brightness`, `Interval` and the `Show…` flags, the ScreenPad
/// settings its brightness, gamma and sync flag, the SCSI settings `Enabled`
/// and `LedMode`, and a firmware attribute its `CurrentValue`.
pub proof fn lemma_each_setting_writes_its_property(u: u8, f: bool, i: i32, t: String)
    ensures
        setting_write(Setting::AuraBrightness(u)).0 == "Brightness"@,
        setting_write(Setting::AuraBrightness(u)).1 == Wire::U8(u),
        setting_section_of(Setting::AuraBrightness(u)) == Section::Aura,
        setting_write(Setting::AnimeBrightness(u)).0 == "Brightness"@,
        setting_write(Setting::AnimeBrightness(u)).1 == Wire::U8(u),
        setting_section_of(Setting::AnimeBrightness(u)) == Section::Anime,
        setting_write(Setting::AnimeEnableDisplay(f)).0 == "EnableDisplay"@,
        setting_write(Setting::AnimeEnableDisplay(f)).1 == Wire::Bool(f),
        setting_section_of(Setting::AnimeEnableDisplay(f)) == Section::Anime,
        setting_write(Setting::AnimeBuiltinsEnabled(f)).0 == "BuiltinsEnabled"@,
        setting_write(Setting::AnimeBuiltinsEnabled(f)).1 == Wire::Bool(f),
        setting_section_of(Setting::AnimeBuiltinsEnabled(f)) == Section::Anime,
        setting_write(Setting::AnimeOffWhenLidClosed(f)).0 == "OffWhenLidClosed"@,
        setting_write(Setting::AnimeOffWhenLidClosed(f)).1 == Wire::Bool(f),
        setting_section_of(Setting::AnimeOffWhenLidClosed(f)) == Section::Anime,
        setting_write(Setting::AnimeOffWhenSuspended(f)).0 == "OffWhenSuspended"@,
        setting_write(Setting::AnimeOffWhenSuspended(f)).1 == Wire::Bool(f),
        setting_section_of(Setting::AnimeOffWhenSuspended(f)) == Section::Anime,
        setting_write(Setting::AnimeOffWhenUnplugged(f)).0 == "OffWhenUnplugged"@,
        setting_write(Setting::AnimeOffWhenUnplugged(f)).1 == Wire::Bool(f),
        setting_section_of(Setting::AnimeOffWhenUnplugged(f)) == Section::Anime,
        setting_write(Setting::SlashEnabled(f)).0 == "Enabled"@,
        setting_write(Setting::SlashEnabled(f)).1 == Wire::Bool(f),
        setting_section_of(Setting::SlashEnabled(f)) == Section::Slash,
        setting_write(Setting::SlashBrightness(u)).0 == "Brightness"@,
        setting_write(Setting::SlashBrightness(u)).1 == Wire::U8(u),
        setting_section_of(Setting::SlashBrightness(u)) == Section::Slash,
        setting_write(Setting::SlashInterval(u)).0 == "Interval"@,
        setting_write(Setting::SlashInterval(u)).1 == Wire::U8(u),
        setting_section_of(Setting::SlashInterval(u)) == Section::Slash,
        setting_write(Setting::SlashShowOnBoot(f)).0 == "ShowOnBoot"@,
        setting_write(Setting::SlashShowOnBoot(f)).1 == Wire::Bool(f),
        setting_section_of(Setting::SlashShowOnBoot(f)) == Section::Slash,
        setting_write(Setting::SlashShowOnShutdown(f)).0 == "ShowOnShutdown"@,
        setting_write(Setting::SlashShowOnShutdown(f)).1 == Wire::Bool(f),
        setting_section_of(Setting::SlashShowOnShutdown(f)) == Section::Slash,
        setting_write(Setting::SlashShowOnSleep(f)).0 == "ShowOnSleep"@,
        setting_write(Setting::SlashShowOnSleep(f)).1 == Wire::Bool(f),
        setting_section_of(Setting::SlashShowOnSleep(f)) == Section::Slash,
        setting_write(Setting::SlashShowOnBattery(f)).0 == "ShowOnBattery"@,
        setting_write(Setting::SlashShowOnBattery(f)).1 == Wire::Bool(f),
        setting_section_of(Setting::SlashShowOnBattery(f)) == Section::Slash,
        setting_write(Setting::SlashShowBatteryWarning(f)).0 == "ShowBatteryWarning"@,
        setting_write(Setting::SlashShowBatteryWarning(f)).1 == Wire::Bool(f),
        setting_section_of(Setting::SlashShowBatteryWarning(f)) == Section::Slash,
        setting_write(Setting::SlashShowOnLidClosed(f)).0 == "ShowOnLidClosed"@,
        setting_write(Setting::SlashShowOnLidClosed(f)).1 == Wire::Bool(f),
        setting_section_of(Setting::SlashShowOnLidClosed(f)) == Section::Slash,
        setting_write(Setting::ScreenpadBrightness(i)).0 == "ScreenpadBrightness"@,
        setting_write(Setting::ScreenpadBrightness(i)).1 == Wire::I32(i),
        setting_section_of(Setting::ScreenpadBrightness(i)) == Section::Backlight,
        setting_write(Setting::ScreenpadSyncWithPrimary(f)).0 == "ScreenpadSyncWithPrimary"@,
        setting_write(Setting::ScreenpadSyncWithPrimary(f)).1 == Wire::Bool(f),
        setting_section_of(Setting::ScreenpadSyncWithPrimary(f)) == Section::Backlight,
        setting_write(Setting::ScsiEnabled(f)).0 == "Enabled"@,
        setting_write(Setting::ScsiEnabled(f)).1 == Wire::Bool(f),
        setting_section_of(Setting::ScsiEnabled(f)) == Section::Scsi,
        setting_write(Setting::ScsiMode(u)).0 == "LedMode"@,
        setting_write(Setting::ScsiMode(u)).1 == Wire::U8(u),
        setting_section_of(Setting::ScsiMode(u)) == Section::Scsi,
        setting_write(Setting::ArmouryCurrentValue(i)).0 == "CurrentValue"@,
        setting_write(Setting::ArmouryCurrentValue(i)).1 == Wire::I32(i),
        setting_section_of(Setting::ArmouryCurrentValue(i)) == Section::Armoury,
        setting_write(Setting::ScreenpadGamma(t)).0 == "ScreenpadGamma"@,
        setting_write(Setting::ScreenpadGamma(t)).1 == Wire::Text(t@),
        setting_section_of(Setting::ScreenpadGamma(t)) == Section::Backlight,
{
}

/// Where a plan stands: the attempt to make next, success, or failure with
/// the plan's message.
pub enum PlanStep {
    Try(usize),
    Succeeded,
    Failed(String),
}

/// The rule by which a plan is carried out. `tried` attempts have been made,
/// each but the last failing, and `last` is how the last one went (`None`
/// before the first). An attempt that succeeds ends the plan in success;
/// otherwise the next attempt is made, and when none is left the plan fails
/// with its message.
pub fn next_plan_step(plan: &AttemptPlan, tried: usize, last: Option<bool>) -> (r: PlanStep)
    requires
        tried <= plan.attempts@.len(),
        last is None <==> tried == 0,
    ensures
        last == Some(true) ==> r is Succeeded,
        last != Some(true) && tried < plan.attempts@.len() ==> r == PlanStep::Try(tried),
        last != Some(true) && tried == plan.attempts@.len() ==> (r matches PlanStep::Failed(m)
            && m@ == plan.failure@),
{
    if last == Some(true) {
        PlanStep::Succeeded
    } else if tried < plan.attempts.len() {
        PlanStep::Try(tried)
    } else {
        PlanStep::Failed(plan.failure.clone())
    }
}

/// The plan that sets the active platform profile to the code `c`.
pub open spec fn sets_platform_profile(plan: AttemptPlan, c: u32) -> bool {
    &&& steps(plan) == seq![
        Step::Call("SetPlatformProfile"@, seq![Wire::U32(c)]),
        Step::Call("SetPlatformProfile"@, seq![Wire::I32(c as i32)]),
        Step::Call("set_platform_profile"@, seq![Wire::U32(c)]),
        Step::Write("PlatformProfile"@, Wire::U32(c)),
    ]
    &&& plan.failure@ == "D-Bus: failed to set asusd PlatformProfile"@
}

/// The plan that keeps the code `c` as the profile used on battery, or on AC.
pub open spec fn sets_source_profile(plan: AttemptPlan, c: u32, on_battery: bool) -> bool {
    if on_battery {
        steps(plan) == seq![Step::Write("PlatformProfileOnBattery"@, Wire::U32(c))]
            && plan.failure@ == "D-Bus: failed to set asusd PlatformProfileOnBattery"@
    } else {
        steps(plan) == seq![Step::Write("PlatformProfileOnAc"@, Wire::U32(c))]
            && plan.failure@ == "D-Bus: failed to set asusd PlatformProfileOnAc"@
    }
}

/// Setting the platform profile, in order: the active profile; then, when
/// asked, the profile kept for AC power; then, when asked, the one kept for
/// battery. A name asusd does not know is refused before any write.
pub fn platform_profile_plans(profile: &str, on_ac: bool, on_battery: bool) -> (r: Result<
    Vec<AttemptPlan>,
    String,
>)
    ensures
        match platform_profile_code_of(profile@) {
            None => r matches Err(e) && e@ == unsupported_text(
                "asusd: unsupported platform profile"@,
                profile@,
            ),
            Some(c) => r matches Ok(ps) && {
                &&& ps@.len() == 1 + (if on_ac { 1int } else { 0 }) + (if on_battery { 1int } else { 0 })
                &&& sets_platform_profile(ps@[0], c)
                &&& on_ac ==> sets_source_profile(ps@[1], c, false)
                &&& on_battery ==> sets_source_profile(ps@[ps@.len() - 1], c, true)
            },
        },
{
    let main = match platform_profile_plan(profile) {
        Ok(p) => p,
        Err(e) => {
            return Err(e);
        },
    };
    let ghost c = platform_profile_code_of(profile@)->0;
    let mut plans: Vec<AttemptPlan> = Vec::new();
    plans.push(main);
    if on_ac {
        match platform_profile_source_write(profile, false) {
            Ok(p) => plans.push(p),
            Err(e) => {
                return Err(e);
            },
        }
    }
    if on_battery {
        match platform_profile_source_write(profile, true) {
            Ok(p) => plans.push(p),
            Err(e) => {
                return Err(e);
            },
        }
    }
    Ok(plans)
}

/// The plan that writes the charge limit `percent`.
pub open spec fn sets_charge_limit(plan: AttemptPlan, percent: u8) -> bool {
    &&& steps(plan) == seq![Step::Write("ChargeControlEndThreshold"@, Wire::U8(percent))]
    &&& plan.failure@ == "D-Bus: failed to set asusd ChargeControlEndThreshold"@
}

/// The plan that asks for one full charge.
pub open spec fn asks_one_shot_charge(plan: AttemptPlan) -> bool {
    &&& steps(plan) == with_older_name("OneShotFullCharge"@, "one_shot_full_charge"@, Seq::empty())
    &&& plan.failure@ == "D-Bus: failed to call asusd OneShotFullCharge"@
}

/// One full charge, once asusd is known to control the charge limit: when a
/// limit is given it must be in 1..=100 and is written first; then the full
/// charge is asked for. A limit out of range is refused before any write.
pub fn one_shot_charge_plans(percent: Option<u8>) -> (r: Result<Vec<AttemptPlan>, String>)
    ensures
        match percent {
            None => r matches Ok(ps) && ps@.len() == 1 && asks_one_shot_charge(ps@[0]),
            Some(p) => if 1 <= p <= 100 {
                r matches Ok(ps) && ps@.len() == 2 && sets_charge_limit(ps@[0], p)
                    && asks_one_shot_charge(ps@[1])
            } else {
                r matches Err(e) && e@ == "charge limit must be in 1..=100"@
            },
        },
{
    let mut plans: Vec<AttemptPlan> = Vec::new();
    if let Some(p) = percent {
        match check_charge_limit(p) {
            Ok(p) => plans.push(charge_limit_plan(p)),
            Err(e) => {
                return Err(e);
            },
        }
    }
    plans.push(one_shot_full_charge_plan());
    Ok(plans)
}

} // verus!
