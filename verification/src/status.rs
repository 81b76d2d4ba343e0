//! Each daemon's status section, built from the properties and method answers
//! read off the bus. A property that could not be read is `None`; one of the
//! wrong type reads as missing.
use vstd::prelude::*;
use crate::bus::{
    opt_bool, opt_i32, opt_summary, opt_u8, opt_view, read_bool, read_i32, read_summary,
    read_u8, BusValue,
};
use crate::dto::{
    AnimeStatusSnapshot, ArmouryAttributeSnapshot, ArmouryStatusSnapshot, AuraStatusSnapshot,
    BacklightStatusSnapshot, FanCurvesStatusSnapshot, GpuStatusSnapshot, PlatformStatusSnapshot,
    PowerStatusSnapshot, ScsiStatusSnapshot, SlashStatusSnapshot,
};
use crate::fan_curve::FanCurveDecoded;
use crate::gfx::{
    format_action_code, format_mode_code, format_modes, format_power_code, gfx_action_label,
    gfx_mode_label, gfx_mode_labels, gfx_power_label,
};
use crate::power_profiles::{
    format_ppd_optional_text, format_ppd_profile_value, format_ppd_profiles_value,
    ppd_optional_text, ppd_profiles_text, ppd_text,
};
use crate::profiles::{
    format_platform_profile_choices_value, format_platform_profile_value, profile_choices_text,
    profile_value_name,
};
use crate::text::{join, owned};

verus! {

/// A platform-profile property named as a profile, when it names one.
pub open spec fn opt_profile_name(v: Option<BusValue>) -> Option<Seq<char>> {
    match v {
        Some(x) => profile_value_name(x),
        None => None,
    }
}

/// The profile-choices property written out, when it is there.
pub open spec fn opt_choices_text(v: Option<BusValue>) -> Option<Seq<char>> {
    match v {
        Some(x) => Some(profile_choices_text(x)),
        None => None,
    }
}

fn read_profile_name(v: &Option<BusValue>) -> (r: Option<String>)
    ensures
        opt_view(r) == opt_profile_name(*v),
{
    match v {
        Some(x) => format_platform_profile_value(x),
        None => None,
    }
}

fn read_choices(v: &Option<BusValue>) -> (r: Option<String>)
    ensures
        opt_view(r) == opt_choices_text(*v),
{
    match v {
        Some(x) => format_platform_profile_choices_value(x),
        None => None,
    }
}

/// The asusd platform properties.
pub struct PlatformProperties {
    pub platform_profile: Option<BusValue>,
    pub platform_profile_choices: Option<BusValue>,
    pub platform_profile_on_ac: Option<BusValue>,
    pub platform_profile_on_battery: Option<BusValue>,
    pub charge_control_end_threshold: Option<BusValue>,
    pub platform_profile_linked_epp: Option<BusValue>,
}

/// The platform section from asusd's platform properties.
pub fn platform_status(p: &PlatformProperties) -> (r: PlatformStatusSnapshot)
    ensures
        opt_view(r.platform_profile) == opt_profile_name(p.platform_profile),
        opt_view(r.platform_profile_choices) == opt_choices_text(p.platform_profile_choices),
        opt_view(r.platform_profile_on_ac) == opt_profile_name(p.platform_profile_on_ac),
        opt_view(r.platform_profile_on_battery) == opt_profile_name(p.platform_profile_on_battery),
        r.charge_control_end_threshold == opt_u8(p.charge_control_end_threshold),
        r.platform_profile_linked_epp == opt_bool(p.platform_profile_linked_epp),
        r.last_error is None,
{
    PlatformStatusSnapshot {
        platform_profile: read_profile_name(&p.platform_profile),
        platform_profile_choices: read_choices(&p.platform_profile_choices),
        platform_profile_on_ac: read_profile_name(&p.platform_profile_on_ac),
        platform_profile_on_battery: read_profile_name(&p.platform_profile_on_battery),
        charge_control_end_threshold: read_u8(&p.charge_control_end_threshold),
        platform_profile_linked_epp: read_bool(&p.platform_profile_linked_epp),
        last_error: None,
    }
}

/// The fan-curve section: the active profile and its choices from the
/// platform properties, and the curves asusd answered with.
pub fn fan_curves_status(
    active_profile: &Option<BusValue>,
    profile_choices: &Option<BusValue>,
    curves: FanCurveDecoded,
) -> (r: FanCurvesStatusSnapshot)
    ensures
        opt_view(r.active_profile) == opt_profile_name(*active_profile),
        opt_view(r.profile_choices) == opt_choices_text(*profile_choices),
        r.curve_data == Some(curves.raw),
        r.curve_series == curves.series,
        r.last_error is None,
{
    FanCurvesStatusSnapshot {
        active_profile: read_profile_name(active_profile),
        profile_choices: read_choices(profile_choices),
        curve_data: Some(curves.raw),
        curve_series: curves.series,
        last_error: None,
    }
}

/// The keyboard-lighting properties.
pub struct AuraProperties {
    pub brightness: Option<BusValue>,
    pub led_mode: Option<BusValue>,
    pub supported_brightness: Option<BusValue>,
    pub supported_basic_modes: Option<BusValue>,
}

/// The keyboard-lighting section: each property summarised as text.
pub fn aura_status(p: &AuraProperties) -> (r: AuraStatusSnapshot)
    ensures
        opt_view(r.brightness) == opt_summary(p.brightness),
        opt_view(r.led_mode) == opt_summary(p.led_mode),
        opt_view(r.supported_brightness) == opt_summary(p.supported_brightness),
        opt_view(r.supported_basic_modes) == opt_summary(p.supported_basic_modes),
        r.last_error is None,
{
    AuraStatusSnapshot {
        brightness: read_summary(&p.brightness),
        led_mode: read_summary(&p.led_mode),
        supported_brightness: read_summary(&p.supported_brightness),
        supported_basic_modes: read_summary(&p.supported_basic_modes),
        last_error: None,
    }
}

/// The AniMe matrix properties.
pub struct AnimeProperties {
    pub enable_display: Option<BusValue>,
    pub builtins_enabled: Option<BusValue>,
    pub brightness: Option<BusValue>,
    pub off_when_lid_closed: Option<BusValue>,
    pub off_when_suspended: Option<BusValue>,
    pub off_when_unplugged: Option<BusValue>,
}

/// The AniMe matrix section.
pub fn anime_status(p: &AnimeProperties) -> (r: AnimeStatusSnapshot)
    ensures
        r.enable_display == opt_bool(p.enable_display),
        r.builtins_enabled == opt_bool(p.builtins_enabled),
        opt_view(r.brightness) == opt_summary(p.brightness),
        r.off_when_lid_closed == opt_bool(p.off_when_lid_closed),
        r.off_when_suspended == opt_bool(p.off_when_suspended),
        r.off_when_unplugged == opt_bool(p.off_when_unplugged),
        r.last_error is None,
{
    AnimeStatusSnapshot {
        enable_display: read_bool(&p.enable_display),
        builtins_enabled: read_bool(&p.builtins_enabled),
        brightness: read_summary(&p.brightness),
        off_when_lid_closed: read_bool(&p.off_when_lid_closed),
        off_when_suspended: read_bool(&p.off_when_suspended),
        off_when_unplugged: read_bool(&p.off_when_unplugged),
        last_error: None,
    }
}

/// The Slash lighting properties.
pub struct SlashProperties {
    pub enabled: Option<BusValue>,
    pub brightness: Option<BusValue>,
    pub interval: Option<BusValue>,
    pub mode: Option<BusValue>,
    pub show_on_boot: Option<BusValue>,
    pub show_on_sleep: Option<BusValue>,
    pub show_on_shutdown: Option<BusValue>,
    pub show_on_battery: Option<BusValue>,
    pub show_battery_warning: Option<BusValue>,
    pub show_on_lid_closed: Option<BusValue>,
}

/// The Slash lighting section.
pub fn slash_status(p: &SlashProperties) -> (r: SlashStatusSnapshot)
    ensures
        r.enabled == opt_bool(p.enabled),
        r.brightness == opt_u8(p.brightness),
        r.interval == opt_u8(p.interval),
        opt_view(r.mode) == opt_summary(p.mode),
        r.show_on_boot == opt_bool(p.show_on_boot),
        r.show_on_sleep == opt_bool(p.show_on_sleep),
        r.show_on_shutdown == opt_bool(p.show_on_shutdown),
        r.show_on_battery == opt_bool(p.show_on_battery),
        r.show_battery_warning == opt_bool(p.show_battery_warning),
        r.show_on_lid_closed == opt_bool(p.show_on_lid_closed),
        r.last_error is None,
{
    SlashStatusSnapshot {
        enabled: read_bool(&p.enabled),
        brightness: read_u8(&p.brightness),
        interval: read_u8(&p.interval),
        mode: read_summary(&p.mode),
        show_on_boot: read_bool(&p.show_on_boot),
        show_on_sleep: read_bool(&p.show_on_sleep),
        show_on_shutdown: read_bool(&p.show_on_shutdown),
        show_on_battery: read_bool(&p.show_on_battery),
        show_battery_warning: read_bool(&p.show_battery_warning),
        show_on_lid_closed: read_bool(&p.show_on_lid_closed),
        last_error: None,
    }
}

/// The ScreenPad backlight properties.
pub struct BacklightProperties {
    pub screenpad_brightness: Option<BusValue>,
    pub screenpad_gamma: Option<BusValue>,
    pub screenpad_sync_with_primary: Option<BusValue>,
}

/// The ScreenPad backlight section.
pub fn backlight_status(p: &BacklightProperties) -> (r: BacklightStatusSnapshot)
    ensures
        r.screenpad_brightness == opt_i32(p.screenpad_brightness),
        opt_view(r.screenpad_gamma) == opt_summary(p.screenpad_gamma),
        r.sync_screenpad_brightness == opt_bool(p.screenpad_sync_with_primary),
        r.last_error is None,
{
    BacklightStatusSnapshot {
        screenpad_brightness: read_i32(&p.screenpad_brightness),
        screenpad_gamma: read_summary(&p.screenpad_gamma),
        sync_screenpad_brightness: read_bool(&p.screenpad_sync_with_primary),
        last_error: None,
    }
}

/// The SCSI lighting properties.
pub struct ScsiProperties {
    pub enabled: Option<BusValue>,
    pub led_mode: Option<BusValue>,
    pub led_mode_data: Option<BusValue>,
}

/// The SCSI lighting section.
pub fn scsi_status(p: &ScsiProperties) -> (r: ScsiStatusSnapshot)
    ensures
        r.enabled == opt_bool(p.enabled),
        opt_view(r.mode) == opt_summary(p.led_mode),
        opt_view(r.mode_data) == opt_summary(p.led_mode_data),
        r.last_error is None,
{
    ScsiStatusSnapshot {
        enabled: read_bool(&p.enabled),
        mode: read_summary(&p.led_mode),
        mode_data: read_summary(&p.led_mode_data),
        last_error: None,
    }
}

/// The properties of one firmware attribute.
pub struct ArmouryProperties {
    pub name: Option<BusValue>,
    pub available_attrs: Option<BusValue>,
    pub current_value: Option<BusValue>,
    pub default_value: Option<BusValue>,
    pub min_value: Option<BusValue>,
    pub max_value: Option<BusValue>,
    pub possible_values: Option<BusValue>,
    pub scalar_increment: Option<BusValue>,
    pub queued_gpu_value: Option<BusValue>,
}

/// What the attribute at `path` shows, read from its properties.
pub open spec fn attribute_shows(r: ArmouryAttributeSnapshot, path: Seq<char>, p: ArmouryProperties) -> bool {
    &&& r.path@ == path
    &&& opt_view(r.name) == opt_summary(p.name)
    &&& opt_view(r.available_attrs) == opt_summary(p.available_attrs)
    &&& r.current_value == opt_i32(p.current_value)
    &&& r.default_value == opt_i32(p.default_value)
    &&& r.min_value == opt_i32(p.min_value)
    &&& r.max_value == opt_i32(p.max_value)
    &&& opt_view(r.possible_values) == opt_summary(p.possible_values)
    &&& r.scalar_increment == opt_i32(p.scalar_increment)
    &&& r.queued_gpu_value == opt_i32(p.queued_gpu_value)
    &&& r.last_error is None
}

/// What the attribute at `path` shows when its properties could not be
/// reached: the path and the error, nothing else.
pub open spec fn attribute_failed(r: ArmouryAttributeSnapshot, path: Seq<char>, error: Seq<char>) -> bool {
    &&& r.path@ == path
    &&& r.name is None && r.available_attrs is None && r.possible_values is None
    &&& r.current_value is None && r.default_value is None
    &&& r.min_value is None && r.max_value is None
    &&& r.scalar_increment is None && r.queued_gpu_value is None
    &&& opt_view(r.last_error) == Some(error)
}

/// One firmware attribute, from the properties read at its path, or from the
/// error met reaching them.
pub fn armoury_attribute(path: &String, read: &Result<ArmouryProperties, String>) -> (r:
    ArmouryAttributeSnapshot)
    ensures
        match *read {
            Ok(p) => attribute_shows(r, path@, p),
            Err(e) => attribute_failed(r, path@, e@),
        },
{
    match read {
        Ok(p) => ArmouryAttributeSnapshot {
            path: path.clone(),
            name: read_summary(&p.name),
            available_attrs: read_summary(&p.available_attrs),
            current_value: read_i32(&p.current_value),
            default_value: read_i32(&p.default_value),
            min_value: read_i32(&p.min_value),
            max_value: read_i32(&p.max_value),
            possible_values: read_summary(&p.possible_values),
            scalar_increment: read_i32(&p.scalar_increment),
            queued_gpu_value: read_i32(&p.queued_gpu_value),
            last_error: None,
        },
        Err(e) => ArmouryAttributeSnapshot::failed(path.clone(), Some(e.clone())),
    }
}

/// The firmware-attribute section: one attribute per path, in the order of
/// the paths, each read or failed on its own.
pub fn armoury_status(reads: &Vec<(String, Result<ArmouryProperties, String>)>) -> (r:
    ArmouryStatusSnapshot)
    ensures
        r.last_error is None,
        r.attributes@.len() == reads@.len(),
        forall|i: int|
            0 <= i < reads@.len() ==> match reads@[i].1 {
                Ok(p) => attribute_shows(#[trigger] r.attributes@[i], reads@[i].0@, p),
                Err(e) => attribute_failed(r.attributes@[i], reads@[i].0@, e@),
            },
{
    let mut attributes: Vec<ArmouryAttributeSnapshot> = Vec::new();
    let mut i: usize = 0;
    while i < reads.len()
        invariant
            i <= reads@.len(),
            attributes@.len() == i,
            forall|k: int|
                0 <= k < i ==> match reads@[k].1 {
                    Ok(p) => attribute_shows(#[trigger] attributes@[k], reads@[k].0@, p),
                    Err(e) => attribute_failed(attributes@[k], reads@[k].0@, e@),
                },
        decreases reads@.len() - i,
    {
        let a = armoury_attribute(&reads[i].0, &reads[i].1);
        attributes.push(a);
        i = i + 1;
    }
    ArmouryStatusSnapshot { attributes, last_error: None }
}

/// supergfxd's answers to its status methods; a method that failed, or
/// answered with another type, is `None`.
pub struct GfxAnswers {
    pub mode: Option<u32>,
    pub power: Option<u32>,
    pub pending_mode: Option<u32>,
    pub pending_action: Option<u32>,
    pub version: Option<String>,
    pub vendor: Option<String>,
    pub supported: Option<Vec<u32>>,
}

/// A mode code named, when there is one.
pub open spec fn opt_mode_label(c: Option<u32>) -> Option<Seq<char>> {
    match c {
        Some(x) => Some(gfx_mode_label(x)),
        None => None,
    }
}

/// The graphics section from supergfxd's answers: each code named, the
/// supported modes listed by name.
pub fn gpu_status(a: GfxAnswers) -> (r: GpuStatusSnapshot)
    ensures
        opt_view(r.mode) == opt_mode_label(a.mode),
        opt_view(r.power) == (match a.power {
            Some(x) => Some(gfx_power_label(x)),
            None => None,
        }),
        opt_view(r.pending_mode) == opt_mode_label(a.pending_mode),
        opt_view(r.pending_action) == (match a.pending_action {
            Some(x) => Some(gfx_action_label(x)),
            None => None,
        }),
        r.daemon_version == a.version,
        r.vendor == a.vendor,
        opt_view(r.supported_modes) == (match a.supported {
            Some(v) => Some(join(gfx_mode_labels(v@), ", "@)),
            None => None,
        }),
        r.last_error is None,
{
    GpuStatusSnapshot {
        mode: match a.mode {
            Some(x) => Some(format_mode_code(x)),
            None => None,
        },
        power: match a.power {
            Some(x) => Some(format_power_code(x)),
            None => None,
        },
        pending_mode: match a.pending_mode {
            Some(x) => Some(format_mode_code(x)),
            None => None,
        },
        pending_action: match a.pending_action {
            Some(x) => Some(format_action_code(x)),
            None => None,
        },
        daemon_version: a.version,
        vendor: a.vendor,
        supported_modes: match a.supported {
            Some(v) => Some(format_modes(v)),
            None => None,
        },
        last_error: None,
    }
}

/// What supergfxd answered to a mode change, as text: its reply summarised,
/// or "unknown" when the reply could not be decoded.
pub fn mode_change_answer(reply: &Option<BusValue>) -> (r: String)
    ensures
        r@ == (match *reply {
            Some(v) => crate::bus::summary_of(v),
            None => "unknown"@,
        }),
{
    match reply {
        Some(v) => crate::bus::format_value(v),
        None => owned("unknown"),
    }
}

/// The power-profiles-daemon properties.
pub struct PowerProperties {
    pub active_profile: Option<BusValue>,
    pub profiles: Option<BusValue>,
    pub performance_degraded: Option<BusValue>,
}

/// The power-profile section from power-profiles-daemon's properties.
pub fn power_status(p: &PowerProperties) -> (r: PowerStatusSnapshot)
    ensures
        opt_view(r.active_profile) == (match p.active_profile {
            Some(v) => Some(ppd_text(v)),
            None => None,
        }),
        opt_view(r.profiles) == (match p.profiles {
            Some(v) => Some(ppd_profiles_text(v)),
            None => None,
        }),
        opt_view(r.performance_degraded) == (match p.performance_degraded {
            Some(v) => ppd_optional_text(v),
            None => None,
        }),
        r.last_error is None,
{
    PowerStatusSnapshot {
        active_profile: match &p.active_profile {
            Some(v) => format_ppd_profile_value(v),
            None => None,
        },
        profiles: match &p.profiles {
            Some(v) => format_ppd_profiles_value(v),
            None => None,
        },
        performance_degraded: match &p.performance_degraded {
            Some(v) => format_ppd_optional_text(v),
            None => None,
        },
        last_error: None,
    }
}

} // verus!
