//! Whether two dashboards show the same, and so whether a fresh one is to
//! be published.
use vstd::prelude::*;
use crate::bus::opt_view;
use crate::dto::{
    AnimeStatusSnapshot, ArmouryAttributeSnapshot, ArmouryStatusSnapshot, AuraStatusSnapshot,
    BacklightStatusSnapshot, DaemonHealthSnapshot, DaemonInterfaceSnapshot, DashboardSnapshotDto,
    FanCurvePointSnapshot, FanCurveSeriesSnapshot, FanCurvesStatusSnapshot, GpuStatusSnapshot,
    PlatformStatusSnapshot, PowerStatusSnapshot, ScsiStatusSnapshot, SlashStatusSnapshot,
};
use crate::state::{same_figures, same_performance, same_text};
use crate::text::chars_of;
use crate::tray::same_chars;

verus! {

/// Whether two DaemonHealthSnapshot records show the same.
pub open spec fn same_daemon_health(a: DaemonHealthSnapshot, b: DaemonHealthSnapshot) -> bool {
    &&& a.asusd_available == b.asusd_available
    &&& a.supergfxd_available == b.supergfxd_available
    &&& a.ppd_available == b.ppd_available
    &&& opt_view(a.last_error) == opt_view(b.last_error)
}

/// Whether two DaemonInterfaceSnapshot records show the same.
pub open spec fn same_daemon_interface(a: DaemonInterfaceSnapshot, b: DaemonInterfaceSnapshot) -> bool {
    &&& a.asusd_platform_available == b.asusd_platform_available
    &&& a.asusd_fan_curves_available == b.asusd_fan_curves_available
    &&& a.asusd_aura_available == b.asusd_aura_available
    &&& a.asusd_anime_available == b.asusd_anime_available
    &&& a.asusd_slash_available == b.asusd_slash_available
    &&& a.asusd_scsi_available == b.asusd_scsi_available
    &&& a.asusd_backlight_available == b.asusd_backlight_available
    &&& a.asusd_armoury_available == b.asusd_armoury_available
    &&& a.supergfxd_interface_available == b.supergfxd_interface_available
    &&& a.ppd_interface_available == b.ppd_interface_available
}

/// Whether two GpuStatusSnapshot records show the same.
pub open spec fn same_gpu_status(a: GpuStatusSnapshot, b: GpuStatusSnapshot) -> bool {
    &&& opt_view(a.mode) == opt_view(b.mode)
    &&& opt_view(a.power) == opt_view(b.power)
    &&& opt_view(a.pending_mode) == opt_view(b.pending_mode)
    &&& opt_view(a.pending_action) == opt_view(b.pending_action)
    &&& opt_view(a.daemon_version) == opt_view(b.daemon_version)
    &&& opt_view(a.vendor) == opt_view(b.vendor)
    &&& opt_view(a.supported_modes) == opt_view(b.supported_modes)
    &&& opt_view(a.last_error) == opt_view(b.last_error)
}

/// Whether two PowerStatusSnapshot records show the same.
pub open spec fn same_power_status(a: PowerStatusSnapshot, b: PowerStatusSnapshot) -> bool {
    &&& opt_view(a.active_profile) == opt_view(b.active_profile)
    &&& opt_view(a.profiles) == opt_view(b.profiles)
    &&& opt_view(a.performance_degraded) == opt_view(b.performance_degraded)
    &&& opt_view(a.last_error) == opt_view(b.last_error)
}

/// Whether two PlatformStatusSnapshot records show the same.
pub open spec fn same_platform_status(a: PlatformStatusSnapshot, b: PlatformStatusSnapshot) -> bool {
    &&& opt_view(a.platform_profile) == opt_view(b.platform_profile)
    &&& opt_view(a.platform_profile_choices) == opt_view(b.platform_profile_choices)
    &&& opt_view(a.platform_profile_on_ac) == opt_view(b.platform_profile_on_ac)
    &&& opt_view(a.platform_profile_on_battery) == opt_view(b.platform_profile_on_battery)
    &&& a.charge_control_end_threshold == b.charge_control_end_threshold
    &&& a.platform_profile_linked_epp == b.platform_profile_linked_epp
    &&& opt_view(a.last_error) == opt_view(b.last_error)
}

/// Whether two FanCurveSeriesSnapshot records show the same.
pub open spec fn same_fan_curve_series(a: FanCurveSeriesSnapshot, b: FanCurveSeriesSnapshot) -> bool {
    &&& a.fan@ == b.fan@
    &&& a.enabled == b.enabled
    &&& a.points@ == b.points@
}

/// Whether two FanCurvesStatusSnapshot records show the same.
pub open spec fn same_fan_curves_status(a: FanCurvesStatusSnapshot, b: FanCurvesStatusSnapshot) -> bool {
    &&& opt_view(a.active_profile) == opt_view(b.active_profile)
    &&& opt_view(a.profile_choices) == opt_view(b.profile_choices)
    &&& opt_view(a.curve_data) == opt_view(b.curve_data)
    &&& (a.curve_series@.len() == b.curve_series@.len() && forall|i: int| 0 <= i < a.curve_series@.len() ==> same_fan_curve_series(#[trigger] a.curve_series@[i], b.curve_series@[i]))
    &&& opt_view(a.last_error) == opt_view(b.last_error)
}

/// Whether two AuraStatusSnapshot records show the same.
pub open spec fn same_aura_status(a: AuraStatusSnapshot, b: AuraStatusSnapshot) -> bool {
    &&& opt_view(a.brightness) == opt_view(b.brightness)
    &&& opt_view(a.led_mode) == opt_view(b.led_mode)
    &&& opt_view(a.supported_brightness) == opt_view(b.supported_brightness)
    &&& opt_view(a.supported_basic_modes) == opt_view(b.supported_basic_modes)
    &&& opt_view(a.last_error) == opt_view(b.last_error)
}

/// Whether two AnimeStatusSnapshot records show the same.
pub open spec fn same_anime_status(a: AnimeStatusSnapshot, b: AnimeStatusSnapshot) -> bool {
    &&& a.enable_display == b.enable_display
    &&& a.builtins_enabled == b.builtins_enabled
    &&& opt_view(a.brightness) == opt_view(b.brightness)
    &&& a.off_when_lid_closed == b.off_when_lid_closed
    &&& a.off_when_suspended == b.off_when_suspended
    &&& a.off_when_unplugged == b.off_when_unplugged
    &&& opt_view(a.last_error) == opt_view(b.last_error)
}

/// Whether two SlashStatusSnapshot records show the same.
pub open spec fn same_slash_status(a: SlashStatusSnapshot, b: SlashStatusSnapshot) -> bool {
    &&& a.enabled == b.enabled
    &&& a.brightness == b.brightness
    &&& a.interval == b.interval
    &&& opt_view(a.mode) == opt_view(b.mode)
    &&& a.show_on_boot == b.show_on_boot
    &&& a.show_on_sleep == b.show_on_sleep
    &&& a.show_on_shutdown == b.show_on_shutdown
    &&& a.show_on_battery == b.show_on_battery
    &&& a.show_battery_warning == b.show_battery_warning
    &&& a.show_on_lid_closed == b.show_on_lid_closed
    &&& opt_view(a.last_error) == opt_view(b.last_error)
}

/// Whether two ScsiStatusSnapshot records show the same.
pub open spec fn same_scsi_status(a: ScsiStatusSnapshot, b: ScsiStatusSnapshot) -> bool {
    &&& a.enabled == b.enabled
    &&& opt_view(a.mode) == opt_view(b.mode)
    &&& opt_view(a.mode_data) == opt_view(b.mode_data)
    &&& opt_view(a.last_error) == opt_view(b.last_error)
}

/// Whether two BacklightStatusSnapshot records show the same.
pub open spec fn same_backlight_status(a: BacklightStatusSnapshot, b: BacklightStatusSnapshot) -> bool {
    &&& a.screenpad_brightness == b.screenpad_brightness
    &&& opt_view(a.screenpad_gamma) == opt_view(b.screenpad_gamma)
    &&& a.sync_screenpad_brightness == b.sync_screenpad_brightness
    &&& opt_view(a.last_error) == opt_view(b.last_error)
}

/// Whether two ArmouryAttributeSnapshot records show the same.
pub open spec fn same_armoury_attribute(a: ArmouryAttributeSnapshot, b: ArmouryAttributeSnapshot) -> bool {
    &&& a.path@ == b.path@
    &&& opt_view(a.name) == opt_view(b.name)
    &&& opt_view(a.available_attrs) == opt_view(b.available_attrs)
    &&& a.current_value == b.current_value
    &&& a.default_value == b.default_value
    &&& a.min_value == b.min_value
    &&& a.max_value == b.max_value
    &&& opt_view(a.possible_values) == opt_view(b.possible_values)
    &&& a.scalar_increment == b.scalar_increment
    &&& a.queued_gpu_value == b.queued_gpu_value
    &&& opt_view(a.last_error) == opt_view(b.last_error)
}

/// Whether two ArmouryStatusSnapshot records show the same.
pub open spec fn same_armoury_status(a: ArmouryStatusSnapshot, b: ArmouryStatusSnapshot) -> bool {
    &&& (a.attributes@.len() == b.attributes@.len() && forall|i: int| 0 <= i < a.attributes@.len() ==> same_armoury_attribute(#[trigger] a.attributes@[i], b.attributes@[i]))
    &&& opt_view(a.last_error) == opt_view(b.last_error)
}

/// Whether two DashboardSnapshotDto records show the same.
pub open spec fn same_dashboard(a: DashboardSnapshotDto, b: DashboardSnapshotDto) -> bool {
    &&& same_daemon_health(a.health, b.health)
    &&& same_daemon_interface(a.interfaces, b.interfaces)
    &&& same_figures(a.performance, b.performance)
    &&& same_gpu_status(a.gpu, b.gpu)
    &&& same_power_status(a.power, b.power)
    &&& same_platform_status(a.platform, b.platform)
    &&& same_fan_curves_status(a.fan_curves, b.fan_curves)
    &&& same_aura_status(a.aura, b.aura)
    &&& same_anime_status(a.anime, b.anime)
    &&& same_slash_status(a.slash, b.slash)
    &&& same_scsi_status(a.scsi, b.scsi)
    &&& same_backlight_status(a.backlight, b.backlight)
    &&& same_armoury_status(a.armoury, b.armoury)
    &&& a.updated_at_ms == b.updated_at_ms
}

fn same_u8(a: Option<u8>, b: Option<u8>) -> (r: bool)
    ensures
        r == (a == b),
{
    match (a, b) {
        (Some(x), Some(y)) => x == y,
        (None, None) => true,
        _ => false,
    }
}

fn same_bool(a: Option<bool>, b: Option<bool>) -> (r: bool)
    ensures
        r == (a == b),
{
    match (a, b) {
        (Some(x), Some(y)) => x == y,
        (None, None) => true,
        _ => false,
    }
}

fn same_i32(a: Option<i32>, b: Option<i32>) -> (r: bool)
    ensures
        r == (a == b),
{
    match (a, b) {
        (Some(x), Some(y)) => x == y,
        (None, None) => true,
        _ => false,
    }
}

fn same_string(a: &String, b: &String) -> (r: bool)
    ensures
        r == (a@ == b@),
{
    same_chars(&chars_of(a.as_str()), &chars_of(b.as_str()))
}

fn same_points(a: &Vec<FanCurvePointSnapshot>, b: &Vec<FanCurvePointSnapshot>) -> (r: bool)
    ensures
        r == (a@ == b@),
{
    if a.len() != b.len() {
        return false;
    }
    let mut i: usize = 0;
    while i < a.len()
        invariant
            i <= a@.len(),
            a@.len() == b@.len(),
            forall|k: int| 0 <= k < i ==> a@[k] == b@[k],
        decreases a@.len() - i,
    {
        if a[i].temperature != b[i].temperature || a[i].pwm != b[i].pwm {
            return false;
        }
        i = i + 1;
    }
    assert(a@ =~= b@);
    true
}

fn daemon_health_same(a: &DaemonHealthSnapshot, b: &DaemonHealthSnapshot) -> (r: bool)
    ensures
        r == same_daemon_health(*a, *b),
{
    a.asusd_available == b.asusd_available
        && a.supergfxd_available == b.supergfxd_available
        && a.ppd_available == b.ppd_available
        && same_text(&a.last_error, &b.last_error)
}

fn daemon_interface_same(a: &DaemonInterfaceSnapshot, b: &DaemonInterfaceSnapshot) -> (r: bool)
    ensures
        r == same_daemon_interface(*a, *b),
{
    a.asusd_platform_available == b.asusd_platform_available
        && a.asusd_fan_curves_available == b.asusd_fan_curves_available
        && a.asusd_aura_available == b.asusd_aura_available
        && a.asusd_anime_available == b.asusd_anime_available
        && a.asusd_slash_available == b.asusd_slash_available
        && a.asusd_scsi_available == b.asusd_scsi_available
        && a.asusd_backlight_available == b.asusd_backlight_available
        && a.asusd_armoury_available == b.asusd_armoury_available
        && a.supergfxd_interface_available == b.supergfxd_interface_available
        && a.ppd_interface_available == b.ppd_interface_available
}

fn gpu_status_same(a: &GpuStatusSnapshot, b: &GpuStatusSnapshot) -> (r: bool)
    ensures
        r == same_gpu_status(*a, *b),
{
    same_text(&a.mode, &b.mode)
        && same_text(&a.power, &b.power)
        && same_text(&a.pending_mode, &b.pending_mode)
        && same_text(&a.pending_action, &b.pending_action)
        && same_text(&a.daemon_version, &b.daemon_version)
        && same_text(&a.vendor, &b.vendor)
        && same_text(&a.supported_modes, &b.supported_modes)
        && same_text(&a.last_error, &b.last_error)
}

fn power_status_same(a: &PowerStatusSnapshot, b: &PowerStatusSnapshot) -> (r: bool)
    ensures
        r == same_power_status(*a, *b),
{
    same_text(&a.active_profile, &b.active_profile)
        && same_text(&a.profiles, &b.profiles)
        && same_text(&a.performance_degraded, &b.performance_degraded)
        && same_text(&a.last_error, &b.last_error)
}

fn platform_status_same(a: &PlatformStatusSnapshot, b: &PlatformStatusSnapshot) -> (r: bool)
    ensures
        r == same_platform_status(*a, *b),
{
    same_text(&a.platform_profile, &b.platform_profile)
        && same_text(&a.platform_profile_choices, &b.platform_profile_choices)
        && same_text(&a.platform_profile_on_ac, &b.platform_profile_on_ac)
        && same_text(&a.platform_profile_on_battery, &b.platform_profile_on_battery)
        && same_u8(a.charge_control_end_threshold, b.charge_control_end_threshold)
        && same_bool(a.platform_profile_linked_epp, b.platform_profile_linked_epp)
        && same_text(&a.last_error, &b.last_error)
}

fn fan_curve_series_same(a: &FanCurveSeriesSnapshot, b: &FanCurveSeriesSnapshot) -> (r: bool)
    ensures
        r == same_fan_curve_series(*a, *b),
{
    same_string(&a.fan, &b.fan)
        && a.enabled == b.enabled
        && same_points(&a.points, &b.points)
}

fn fan_curves_status_same(a: &FanCurvesStatusSnapshot, b: &FanCurvesStatusSnapshot) -> (r: bool)
    ensures
        r == same_fan_curves_status(*a, *b),
{
    same_text(&a.active_profile, &b.active_profile)
        && same_text(&a.profile_choices, &b.profile_choices)
        && same_text(&a.curve_data, &b.curve_data)
        && fan_curve_series_list_same(&a.curve_series, &b.curve_series)
        && same_text(&a.last_error, &b.last_error)
}

fn aura_status_same(a: &AuraStatusSnapshot, b: &AuraStatusSnapshot) -> (r: bool)
    ensures
        r == same_aura_status(*a, *b),
{
    same_text(&a.brightness, &b.brightness)
        && same_text(&a.led_mode, &b.led_mode)
        && same_text(&a.supported_brightness, &b.supported_brightness)
        && same_text(&a.supported_basic_modes, &b.supported_basic_modes)
        && same_text(&a.last_error, &b.last_error)
}

fn anime_status_same(a: &AnimeStatusSnapshot, b: &AnimeStatusSnapshot) -> (r: bool)
    ensures
        r == same_anime_status(*a, *b),
{
    same_bool(a.enable_display, b.enable_display)
        && same_bool(a.builtins_enabled, b.builtins_enabled)
        && same_text(&a.brightness, &b.brightness)
        && same_bool(a.off_when_lid_closed, b.off_when_lid_closed)
        && same_bool(a.off_when_suspended, b.off_when_suspended)
        && same_bool(a.off_when_unplugged, b.off_when_unplugged)
        && same_text(&a.last_error, &b.last_error)
}

fn slash_status_same(a: &SlashStatusSnapshot, b: &SlashStatusSnapshot) -> (r: bool)
    ensures
        r == same_slash_status(*a, *b),
{
    same_bool(a.enabled, b.enabled)
        && same_u8(a.brightness, b.brightness)
        && same_u8(a.interval, b.interval)
        && same_text(&a.mode, &b.mode)
        && same_bool(a.show_on_boot, b.show_on_boot)
        && same_bool(a.show_on_sleep, b.show_on_sleep)
        && same_bool(a.show_on_shutdown, b.show_on_shutdown)
        && same_bool(a.show_on_battery, b.show_on_battery)
        && same_bool(a.show_battery_warning, b.show_battery_warning)
        && same_bool(a.show_on_lid_closed, b.show_on_lid_closed)
        && same_text(&a.last_error, &b.last_error)
}

fn scsi_status_same(a: &ScsiStatusSnapshot, b: &ScsiStatusSnapshot) -> (r: bool)
    ensures
        r == same_scsi_status(*a, *b),
{
    same_bool(a.enabled, b.enabled)
        && same_text(&a.mode, &b.mode)
        && same_text(&a.mode_data, &b.mode_data)
        && same_text(&a.last_error, &b.last_error)
}

fn backlight_status_same(a: &BacklightStatusSnapshot, b: &BacklightStatusSnapshot) -> (r: bool)
    ensures
        r == same_backlight_status(*a, *b),
{
    same_i32(a.screenpad_brightness, b.screenpad_brightness)
        && same_text(&a.screenpad_gamma, &b.screenpad_gamma)
        && same_bool(a.sync_screenpad_brightness, b.sync_screenpad_brightness)
        && same_text(&a.last_error, &b.last_error)
}

fn armoury_attribute_same(a: &ArmouryAttributeSnapshot, b: &ArmouryAttributeSnapshot) -> (r: bool)
    ensures
        r == same_armoury_attribute(*a, *b),
{
    same_string(&a.path, &b.path)
        && same_text(&a.name, &b.name)
        && same_text(&a.available_attrs, &b.available_attrs)
        && same_i32(a.current_value, b.current_value)
        && same_i32(a.default_value, b.default_value)
        && same_i32(a.min_value, b.min_value)
        && same_i32(a.max_value, b.max_value)
        && same_text(&a.possible_values, &b.possible_values)
        && same_i32(a.scalar_increment, b.scalar_increment)
        && same_i32(a.queued_gpu_value, b.queued_gpu_value)
        && same_text(&a.last_error, &b.last_error)
}

fn armoury_status_same(a: &ArmouryStatusSnapshot, b: &ArmouryStatusSnapshot) -> (r: bool)
    ensures
        r == same_armoury_status(*a, *b),
{
    armoury_attribute_list_same(&a.attributes, &b.attributes) && same_text(&a.last_error, &b.last_error)
}

fn dashboard_same(a: &DashboardSnapshotDto, b: &DashboardSnapshotDto) -> (r: bool)
    ensures
        r == same_dashboard(*a, *b),
{
    daemon_health_same(&a.health, &b.health)
        && daemon_interface_same(&a.interfaces, &b.interfaces)
        && same_performance(&a.performance, &b.performance)
        && gpu_status_same(&a.gpu, &b.gpu)
        && power_status_same(&a.power, &b.power)
        && platform_status_same(&a.platform, &b.platform)
        && fan_curves_status_same(&a.fan_curves, &b.fan_curves)
        && aura_status_same(&a.aura, &b.aura)
        && anime_status_same(&a.anime, &b.anime)
        && slash_status_same(&a.slash, &b.slash)
        && scsi_status_same(&a.scsi, &b.scsi)
        && backlight_status_same(&a.backlight, &b.backlight)
        && armoury_status_same(&a.armoury, &b.armoury)
        && a.updated_at_ms == b.updated_at_ms
}

fn fan_curve_series_list_same(a: &Vec<FanCurveSeriesSnapshot>, b: &Vec<FanCurveSeriesSnapshot>) -> (r: bool)
    ensures
        r == (a@.len() == b@.len() && forall|i: int| 0 <= i < a@.len() ==> same_fan_curve_series(#[trigger] a@[i], b@[i])),
{
    if a.len() != b.len() {
        return false;
    }
    let mut i: usize = 0;
    while i < a.len()
        invariant
            i <= a@.len(),
            a@.len() == b@.len(),
            forall|k: int| 0 <= k < i ==> same_fan_curve_series(#[trigger] a@[k], b@[k]),
        decreases a@.len() - i,
    {
        if !fan_curve_series_same(&a[i], &b[i]) {
            return false;
        }
        i = i + 1;
    }
    true
}

fn armoury_attribute_list_same(a: &Vec<ArmouryAttributeSnapshot>, b: &Vec<ArmouryAttributeSnapshot>) -> (r: bool)
    ensures
        r == (a@.len() == b@.len() && forall|i: int| 0 <= i < a@.len() ==> same_armoury_attribute(#[trigger] a@[i], b@[i])),
{
    if a.len() != b.len() {
        return false;
    }
    let mut i: usize = 0;
    while i < a.len()
        invariant
            i <= a@.len(),
            a@.len() == b@.len(),
            forall|k: int| 0 <= k < i ==> same_armoury_attribute(#[trigger] a@[k], b@[k]),
        decreases a@.len() - i,
    {
        if !armoury_attribute_same(&a[i], &b[i]) {
            return false;
        }
        i = i + 1;
    }
    true
}

/// Whether two dashboards show the same.
pub fn dashboards_match(a: &DashboardSnapshotDto, b: &DashboardSnapshotDto) -> (r: bool)
    ensures
        r == same_dashboard(*a, *b),
{
    dashboard_same(a, b)
}

/// Whether a freshly collected dashboard is to be published: when none is
/// held (or it cannot be read), or when the one held shows something else.
pub fn should_publish(current: Option<&DashboardSnapshotDto>, fresh: &DashboardSnapshotDto) -> (r: bool)
    ensures
        r == match current {
            Some(c) => !same_dashboard(*c, *fresh),
            None => true,
        },
{
    match current {
        Some(c) => !dashboard_same(c, fresh),
        None => true,
    }
}

/// A dashboard shows the same as itself: collecting an unchanged dashboard
/// again publishes nothing.
pub proof fn lemma_unchanged_dashboard_is_not_published(d: DashboardSnapshotDto)
    ensures
        same_dashboard(d, d),
{
}

/// What a health record shows.
pub open spec fn health_shown(h: DaemonHealthSnapshot) -> (bool, bool, bool, Option<Seq<char>>) {
    (h.asusd_available, h.supergfxd_available, h.ppd_available, opt_view(h.last_error))
}

/// What the performance figures show.
pub open spec fn performance_shown(p: crate::dto::PerformanceSnapshot) -> (
    (Option<u32>, Option<u32>, Option<u16>, Option<Seq<char>>),
    (Option<u32>, Option<u32>, Option<Seq<char>>, Option<Seq<char>>),
    (Option<u64>, Option<u64>, Option<u32>, Option<Seq<char>>),
) {
    (
        (p.cpu.frequency_mhz, p.cpu.utilization_tenths, p.cpu.core_count, opt_view(p.cpu.last_error)),
        (p.gpu.frequency_mhz, p.gpu.utilization_tenths, opt_view(p.gpu.source), opt_view(p.gpu.last_error)),
        (p.ram.total_bytes, p.ram.used_bytes, p.ram.utilization_tenths, opt_view(p.ram.last_error)),
    )
}

/// What a graphics section shows.
pub open spec fn gpu_shown(g: GpuStatusSnapshot) -> (
    Option<Seq<char>>, Option<Seq<char>>, Option<Seq<char>>, Option<Seq<char>>,
    Option<Seq<char>>, Option<Seq<char>>, Option<Seq<char>>, Option<Seq<char>>,
) {
    (
        opt_view(g.mode), opt_view(g.power), opt_view(g.pending_mode), opt_view(g.pending_action),
        opt_view(g.daemon_version), opt_view(g.vendor), opt_view(g.supported_modes),
        opt_view(g.last_error),
    )
}

/// What a power-profile section shows.
pub open spec fn power_shown(p: PowerStatusSnapshot) -> (
    Option<Seq<char>>, Option<Seq<char>>, Option<Seq<char>>, Option<Seq<char>>,
) {
    (opt_view(p.active_profile), opt_view(p.profiles), opt_view(p.performance_degraded), opt_view(p.last_error))
}

/// What a platform section shows.
pub open spec fn platform_shown(p: PlatformStatusSnapshot) -> (
    Option<Seq<char>>, Option<Seq<char>>, Option<Seq<char>>, Option<Seq<char>>,
    Option<u8>, Option<bool>, Option<Seq<char>>,
) {
    (
        opt_view(p.platform_profile), opt_view(p.platform_profile_choices),
        opt_view(p.platform_profile_on_ac), opt_view(p.platform_profile_on_battery),
        p.charge_control_end_threshold, p.platform_profile_linked_epp, opt_view(p.last_error),
    )
}

/// What one fan's curve shows.
pub open spec fn series_shown(c: FanCurveSeriesSnapshot) -> (Seq<char>, bool, Seq<FanCurvePointSnapshot>) {
    (c.fan@, c.enabled, c.points@)
}

/// What a fan-curve section shows.
pub open spec fn fan_curves_shown(f: FanCurvesStatusSnapshot) -> (
    Option<Seq<char>>, Option<Seq<char>>, Option<Seq<char>>,
    Seq<(Seq<char>, bool, Seq<FanCurvePointSnapshot>)>, Option<Seq<char>>,
) {
    (
        opt_view(f.active_profile), opt_view(f.profile_choices), opt_view(f.curve_data),
        f.curve_series@.map_values(|c: FanCurveSeriesSnapshot| series_shown(c)),
        opt_view(f.last_error),
    )
}

/// What a keyboard lighting section shows.
pub open spec fn aura_shown(a: AuraStatusSnapshot) -> (
    Option<Seq<char>>, Option<Seq<char>>, Option<Seq<char>>, Option<Seq<char>>, Option<Seq<char>>,
) {
    (
        opt_view(a.brightness), opt_view(a.led_mode), opt_view(a.supported_brightness),
        opt_view(a.supported_basic_modes), opt_view(a.last_error),
    )
}

/// What an AniMe section shows.
pub open spec fn anime_shown(a: AnimeStatusSnapshot) -> (
    Option<bool>, Option<bool>, Option<Seq<char>>, Option<bool>, Option<bool>, Option<bool>,
    Option<Seq<char>>,
) {
    (
        a.enable_display, a.builtins_enabled, opt_view(a.brightness), a.off_when_lid_closed,
        a.off_when_suspended, a.off_when_unplugged, opt_view(a.last_error),
    )
}

/// What a Slash section shows.
pub open spec fn slash_shown(s: SlashStatusSnapshot) -> (
    (Option<bool>, Option<u8>, Option<u8>, Option<Seq<char>>),
    (Option<bool>, Option<bool>, Option<bool>, Option<bool>, Option<bool>, Option<bool>),
    Option<Seq<char>>,
) {
    (
        (s.enabled, s.brightness, s.interval, opt_view(s.mode)),
        (s.show_on_boot, s.show_on_sleep, s.show_on_shutdown, s.show_on_battery,
            s.show_battery_warning, s.show_on_lid_closed),
        opt_view(s.last_error),
    )
}

/// What a SCSI section shows.
pub open spec fn scsi_shown(s: ScsiStatusSnapshot) -> (
    Option<bool>, Option<Seq<char>>, Option<Seq<char>>, Option<Seq<char>>,
) {
    (s.enabled, opt_view(s.mode), opt_view(s.mode_data), opt_view(s.last_error))
}

/// What a backlight section shows.
pub open spec fn backlight_shown(b: BacklightStatusSnapshot) -> (
    Option<i32>, Option<Seq<char>>, Option<bool>, Option<Seq<char>>,
) {
    (b.screenpad_brightness, opt_view(b.screenpad_gamma), b.sync_screenpad_brightness, opt_view(b.last_error))
}

/// What one firmware attribute shows.
pub open spec fn attribute_shown(a: ArmouryAttributeSnapshot) -> (
    (Seq<char>, Option<Seq<char>>, Option<Seq<char>>),
    (Option<i32>, Option<i32>, Option<i32>, Option<i32>),
    (Option<Seq<char>>, Option<i32>, Option<i32>, Option<Seq<char>>),
) {
    (
        (a.path@, opt_view(a.name), opt_view(a.available_attrs)),
        (a.current_value, a.default_value, a.min_value, a.max_value),
        (opt_view(a.possible_values), a.scalar_increment, a.queued_gpu_value, opt_view(a.last_error)),
    )
}

/// What a firmware attribute section shows.
pub open spec fn armoury_shown(a: ArmouryStatusSnapshot) -> (
    Seq<(
        (Seq<char>, Option<Seq<char>>, Option<Seq<char>>),
        (Option<i32>, Option<i32>, Option<i32>, Option<i32>),
        (Option<Seq<char>>, Option<i32>, Option<i32>, Option<Seq<char>>),
    )>,
    Option<Seq<char>>,
) {
    (a.attributes@.map_values(|x: ArmouryAttributeSnapshot| attribute_shown(x)), opt_view(a.last_error))
}

/// Two dashboards show the same exactly when every field reads the same: each
/// flag and number is equal and each text has the same characters, in every
/// section and in the time stamp. So a fresh dashboard that differs from the
/// one held in any field is published, and one that differs in none is not.
pub proof fn lemma_same_dashboard_means_every_field_reads_the_same(
    a: DashboardSnapshotDto,
    b: DashboardSnapshotDto,
)
    ensures
        same_dashboard(a, b) <==> {
            &&& health_shown(a.health) == health_shown(b.health)
            &&& a.interfaces == b.interfaces
            &&& performance_shown(a.performance) == performance_shown(b.performance)
            &&& gpu_shown(a.gpu) == gpu_shown(b.gpu)
            &&& power_shown(a.power) == power_shown(b.power)
            &&& platform_shown(a.platform) == platform_shown(b.platform)
            &&& fan_curves_shown(a.fan_curves) == fan_curves_shown(b.fan_curves)
            &&& aura_shown(a.aura) == aura_shown(b.aura)
            &&& anime_shown(a.anime) == anime_shown(b.anime)
            &&& slash_shown(a.slash) == slash_shown(b.slash)
            &&& scsi_shown(a.scsi) == scsi_shown(b.scsi)
            &&& backlight_shown(a.backlight) == backlight_shown(b.backlight)
            &&& armoury_shown(a.armoury) == armoury_shown(b.armoury)
            &&& a.updated_at_ms == b.updated_at_ms
        },
{
    let fa = a.fan_curves.curve_series@;
    let fb = b.fan_curves.curve_series@;
    let sa = fa.map_values(|c: FanCurveSeriesSnapshot| series_shown(c));
    let sb = fb.map_values(|c: FanCurveSeriesSnapshot| series_shown(c));
    if fa.len() == fb.len() && forall|i: int| 0 <= i < fa.len() ==> same_fan_curve_series(#[trigger] fa[i], fb[i]) {
        assert(sa =~= sb) by {
            assert forall|i: int| 0 <= i < sa.len() implies sa[i] == sb[i] by {
                assert(same_fan_curve_series(fa[i], fb[i]));
            }
        }
    }
    if sa == sb {
        assert(sa.len() == fa.len() && sb.len() == fb.len());
        assert forall|i: int| 0 <= i < fa.len() implies same_fan_curve_series(#[trigger] fa[i], fb[i]) by {
            assert(sa[i] == sb[i]);
        }
    }
    let xa = a.armoury.attributes@;
    let xb = b.armoury.attributes@;
    let ta = xa.map_values(|x: ArmouryAttributeSnapshot| attribute_shown(x));
    let tb = xb.map_values(|x: ArmouryAttributeSnapshot| attribute_shown(x));
    if xa.len() == xb.len() && forall|i: int| 0 <= i < xa.len() ==> same_armoury_attribute(#[trigger] xa[i], xb[i]) {
        assert(ta =~= tb) by {
            assert forall|i: int| 0 <= i < ta.len() implies ta[i] == tb[i] by {
                assert(same_armoury_attribute(xa[i], xb[i]));
            }
        }
    }
    if ta == tb {
        assert(ta.len() == xa.len() && tb.len() == xb.len());
        assert forall|i: int| 0 <= i < xa.len() implies same_armoury_attribute(#[trigger] xa[i], xb[i]) by {
            assert(ta[i] == tb[i]);
        }
    }
    if a.interfaces == b.interfaces {
        assert(same_daemon_interface(a.interfaces, b.interfaces));
    }
}

} // verus!
