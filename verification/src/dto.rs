//! The records that the backend hands to the frontend, and the requests it takes.
//!
//! Fractional utilisation figures are held as tenths of a percent, the
//! precision to which the backend rounds them.
use vstd::prelude::*;

verus! {

/// Which of the three daemons answer on the system bus.
pub struct DaemonHealthSnapshot {
    pub asusd_available: bool,
    pub supergfxd_available: bool,
    pub ppd_available: bool,
    pub last_error: Option<String>,
}

pub struct BootstrapSnapshotDto {
    pub health: DaemonHealthSnapshot,
}

/// Which asusd interfaces were found, and whether the other daemons expose theirs.
pub struct DaemonInterfaceSnapshot {
    pub asusd_platform_available: bool,
    pub asusd_fan_curves_available: bool,
    pub asusd_aura_available: bool,
    pub asusd_anime_available: bool,
    pub asusd_slash_available: bool,
    pub asusd_scsi_available: bool,
    pub asusd_backlight_available: bool,
    pub asusd_armoury_available: bool,
    pub supergfxd_interface_available: bool,
    pub ppd_interface_available: bool,
}

pub struct GpuStatusSnapshot {
    pub mode: Option<String>,
    pub power: Option<String>,
    pub pending_mode: Option<String>,
    pub pending_action: Option<String>,
    pub daemon_version: Option<String>,
    pub vendor: Option<String>,
    pub supported_modes: Option<String>,
    pub last_error: Option<String>,
}

pub struct PowerStatusSnapshot {
    pub active_profile: Option<String>,
    pub profiles: Option<String>,
    pub performance_degraded: Option<String>,
    pub last_error: Option<String>,
}

pub struct PlatformStatusSnapshot {
    pub platform_profile: Option<String>,
    pub platform_profile_choices: Option<String>,
    pub platform_profile_on_ac: Option<String>,
    pub platform_profile_on_battery: Option<String>,
    pub charge_control_end_threshold: Option<u8>,
    pub platform_profile_linked_epp: Option<bool>,
    pub last_error: Option<String>,
}

pub struct FanCurvesStatusSnapshot {
    pub active_profile: Option<String>,
    pub profile_choices: Option<String>,
    pub curve_data: Option<String>,
    pub curve_series: Vec<FanCurveSeriesSnapshot>,
    pub last_error: Option<String>,
}

#[derive(Clone, Copy, PartialEq, Eq, Structural)]
pub struct FanCurvePointSnapshot {
    pub temperature: u8,
    pub pwm: u8,
}

pub struct FanCurveSeriesSnapshot {
    pub fan: String,
    pub enabled: bool,
    pub points: Vec<FanCurvePointSnapshot>,
}

pub struct CpuPerformanceSnapshot {
    pub frequency_mhz: Option<u32>,
    /// Utilisation in tenths of a percent.
    pub utilization_tenths: Option<u32>,
    pub core_count: Option<u16>,
    pub last_error: Option<String>,
}

pub struct GpuPerformanceSnapshot {
    pub frequency_mhz: Option<u32>,
    /// Utilisation in tenths of a percent.
    pub utilization_tenths: Option<u32>,
    pub source: Option<String>,
    pub last_error: Option<String>,
}

pub struct RamPerformanceSnapshot {
    pub total_bytes: Option<u64>,
    pub used_bytes: Option<u64>,
    /// Utilisation in tenths of a percent.
    pub utilization_tenths: Option<u32>,
    pub last_error: Option<String>,
}

pub struct PerformanceSnapshot {
    pub cpu: CpuPerformanceSnapshot,
    pub gpu: GpuPerformanceSnapshot,
    pub ram: RamPerformanceSnapshot,
}

pub struct AuraStatusSnapshot {
    pub brightness: Option<String>,
    pub led_mode: Option<String>,
    pub supported_brightness: Option<String>,
    pub supported_basic_modes: Option<String>,
    pub last_error: Option<String>,
}

pub struct AnimeStatusSnapshot {
    pub enable_display: Option<bool>,
    pub builtins_enabled: Option<bool>,
    pub brightness: Option<String>,
    pub off_when_lid_closed: Option<bool>,
    pub off_when_suspended: Option<bool>,
    pub off_when_unplugged: Option<bool>,
    pub last_error: Option<String>,
}

pub struct SlashStatusSnapshot {
    pub enabled: Option<bool>,
    pub brightness: Option<u8>,
    pub interval: Option<u8>,
    pub mode: Option<String>,
    pub show_on_boot: Option<bool>,
    pub show_on_sleep: Option<bool>,
    pub show_on_shutdown: Option<bool>,
    pub show_on_battery: Option<bool>,
    pub show_battery_warning: Option<bool>,
    pub show_on_lid_closed: Option<bool>,
    pub last_error: Option<String>,
}

pub struct ScsiStatusSnapshot {
    pub enabled: Option<bool>,
    pub mode: Option<String>,
    pub mode_data: Option<String>,
    pub last_error: Option<String>,
}

pub struct BacklightStatusSnapshot {
    pub screenpad_brightness: Option<i32>,
    pub screenpad_gamma: Option<String>,
    pub sync_screenpad_brightness: Option<bool>,
    pub last_error: Option<String>,
}

pub struct ArmouryAttributeSnapshot {
    pub path: String,
    pub name: Option<String>,
    pub available_attrs: Option<String>,
    pub current_value: Option<i32>,
    pub default_value: Option<i32>,
    pub min_value: Option<i32>,
    pub max_value: Option<i32>,
    pub possible_values: Option<String>,
    pub scalar_increment: Option<i32>,
    pub queued_gpu_value: Option<i32>,
    pub last_error: Option<String>,
}

pub struct ArmouryStatusSnapshot {
    pub attributes: Vec<ArmouryAttributeSnapshot>,
    pub last_error: Option<String>,
}

/// Everything the dashboard shows, taken at `updated_at_ms`.
pub struct DashboardSnapshotDto {
    pub health: DaemonHealthSnapshot,
    pub interfaces: DaemonInterfaceSnapshot,
    pub performance: PerformanceSnapshot,
    pub gpu: GpuStatusSnapshot,
    pub power: PowerStatusSnapshot,
    pub platform: PlatformStatusSnapshot,
    pub fan_curves: FanCurvesStatusSnapshot,
    pub aura: AuraStatusSnapshot,
    pub anime: AnimeStatusSnapshot,
    pub slash: SlashStatusSnapshot,
    pub scsi: ScsiStatusSnapshot,
    pub backlight: BacklightStatusSnapshot,
    pub armoury: ArmouryStatusSnapshot,
    pub updated_at_ms: u64,
}

pub struct SetGpuModeRequest {
    pub mode: String,
}

pub struct SetPowerProfileRequest {
    pub profile: String,
}

pub struct SetPlatformProfileRequest {
    pub profile: String,
    pub ac: bool,
    pub battery: bool,
}

pub struct SetChargeLimitRequest {
    pub percent: u8,
}

pub struct ReadFanCurvesRequest {
    pub profile: String,
}

pub struct ResetFanCurvesRequest {
    pub profile: String,
}

pub struct SetFanCurvesEnabledRequest {
    pub profile: String,
    pub enabled: bool,
}

#[derive(Clone, Copy, PartialEq, Eq, Structural)]
pub struct SetFanCurvePointRequest {
    pub temperature: u8,
    pub pwm: u8,
}

pub struct SetFanCurveRequest {
    pub profile: String,
    pub fan: String,
    pub points: Vec<SetFanCurvePointRequest>,
    pub enabled: bool,
}

pub struct SetAuraBrightnessRequest {
    pub level: u8,
}

pub struct SetAuraModeRequest {
    pub mode: String,
}

pub struct SetLedsBrightnessRequest {
    pub level: String,
}

pub struct SetAnimeDisplayEnabledRequest {
    pub enabled: bool,
}

pub struct SetAnimeBrightnessRequest {
    pub level: u8,
}

pub struct SetAnimeOffConditionRequest {
    pub enabled: bool,
}

pub struct SetAnimeBuiltinsEnabledRequest {
    pub enabled: bool,
}

pub struct SetSlashEnabledRequest {
    pub enabled: bool,
}

pub struct SetSlashBrightnessRequest {
    pub brightness: u8,
}

pub struct SetSlashIntervalRequest {
    pub interval: u8,
}

pub struct SetSlashModeRequest {
    pub mode: String,
}

pub struct SetSlashFlagRequest {
    pub enabled: bool,
}

pub struct SetArmouryValueRequest {
    pub path: String,
    pub value: i32,
}

pub struct SetScsiEnabledRequest {
    pub enabled: bool,
}

pub struct SetScsiModeRequest {
    pub mode: u8,
}

pub struct BatteryOneShotRequest {
    pub percent: Option<u8>,
}

/// The two families of colour themes.
#[derive(Clone, Copy, PartialEq, Eq, Structural)]
pub enum ThemeKind {
    Heroui,
    Catppuccin,
}

/// A theme within its family; `Default` is the only HeroUI theme.
#[derive(Clone, Copy, PartialEq, Eq, Structural)]
pub enum ThemeId {
    Default,
    Latte,
    Frappe,
    Macchiato,
    Mocha,
}

#[derive(Clone, Copy, PartialEq, Eq, Structural)]
pub enum ColorMode {
    System,
    Light,
    Dark,
}

/// Whether the main window shows at start or the app starts in the tray.
#[derive(Clone, Copy, PartialEq, Eq, Structural)]
pub enum LaunchBehavior {
    Normal,
    Silent,
}

/// The user's persisted preferences.
pub struct SettingsSnapshotDto {
    pub autostart_enabled: bool,
    pub launch_behavior: LaunchBehavior,
    pub theme_kind: ThemeKind,
    pub theme_id: ThemeId,
    pub accent_color: Option<String>,
    pub color_mode: ColorMode,
}

pub struct SetAutostartRequest {
    pub enabled: bool,
}

pub struct SetLaunchBehaviorRequest {
    pub launch_behavior: LaunchBehavior,
}

pub struct SetThemeRequest {
    pub theme_kind: ThemeKind,
    pub theme_id: ThemeId,
    pub accent_color: Option<String>,
    pub color_mode: ColorMode,
}

/// A copy of an optional text.
pub fn copy_text(t: &Option<String>) -> (r: Option<String>)
    ensures
        r == *t,
{
    match t {
        Some(s) => Some(s.clone()),
        None => None,
    }
}

impl SettingsSnapshotDto {
    /// The preferences of a fresh installation.
    pub fn initial() -> (r: Self)
        ensures
            !r.autostart_enabled,
            r.launch_behavior == LaunchBehavior::Normal,
            r.theme_kind == ThemeKind::Heroui,
            r.theme_id == ThemeId::Default,
            r.accent_color is None,
            r.color_mode == ColorMode::System,
    {
        SettingsSnapshotDto {
            autostart_enabled: false,
            launch_behavior: LaunchBehavior::Normal,
            theme_kind: ThemeKind::Heroui,
            theme_id: ThemeId::Default,
            accent_color: None,
            color_mode: ColorMode::System,
        }
    }

    /// A copy of these preferences.
    pub fn copy(&self) -> (r: Self)
        ensures
            r == *self,
    {
        SettingsSnapshotDto {
            autostart_enabled: self.autostart_enabled,
            launch_behavior: self.launch_behavior,
            theme_kind: self.theme_kind,
            theme_id: self.theme_id,
            accent_color: copy_text(&self.accent_color),
            color_mode: self.color_mode,
        }
    }
}

impl DaemonHealthSnapshot {
    /// A copy of this health record.
    pub fn copy(&self) -> (r: Self)
        ensures
            r == *self,
    {
        DaemonHealthSnapshot {
            asusd_available: self.asusd_available,
            supergfxd_available: self.supergfxd_available,
            ppd_available: self.ppd_available,
            last_error: copy_text(&self.last_error),
        }
    }
}

impl GpuStatusSnapshot {
    /// No reading, only the given error.
    #[verifier::allow_in_spec]
    pub fn failed(last_error: Option<String>) -> Self
        returns
            (GpuStatusSnapshot {
                mode: None,
                power: None,
                pending_mode: None,
                pending_action: None,
                daemon_version: None,
                vendor: None,
                supported_modes: None,
                last_error,
            }),
    {
        GpuStatusSnapshot {
            mode: None,
            power: None,
            pending_mode: None,
            pending_action: None,
            daemon_version: None,
            vendor: None,
            supported_modes: None,
            last_error,
        }
    }
}

impl PowerStatusSnapshot {
    /// No reading, only the given error.
    #[verifier::allow_in_spec]
    pub fn failed(last_error: Option<String>) -> Self
        returns
            (PowerStatusSnapshot {
                active_profile: None,
                profiles: None,
                performance_degraded: None,
                last_error,
            }),
    {
        PowerStatusSnapshot {
            active_profile: None,
            profiles: None,
            performance_degraded: None,
            last_error,
        }
    }
}

impl PlatformStatusSnapshot {
    /// No reading, only the given error.
    #[verifier::allow_in_spec]
    pub fn failed(last_error: Option<String>) -> Self
        returns
            (PlatformStatusSnapshot {
                platform_profile: None,
                platform_profile_choices: None,
                platform_profile_on_ac: None,
                platform_profile_on_battery: None,
                charge_control_end_threshold: None,
                platform_profile_linked_epp: None,
                last_error,
            }),
    {
        PlatformStatusSnapshot {
            platform_profile: None,
            platform_profile_choices: None,
            platform_profile_on_ac: None,
            platform_profile_on_battery: None,
            charge_control_end_threshold: None,
            platform_profile_linked_epp: None,
            last_error,
        }
    }
}

impl FanCurvesStatusSnapshot {
    /// Whether this section holds no reading, only the error `last_error`.
    pub open spec fn shows_only(self, last_error: Option<String>) -> bool {
        &&& self.active_profile is None
        &&& self.profile_choices is None
        &&& self.curve_data is None
        &&& self.curve_series@.len() == 0
        &&& self.last_error == last_error
    }

    /// No reading, only the given error.
    pub fn failed(last_error: Option<String>) -> (r: Self)
        ensures
            r.shows_only(last_error),
    {
        FanCurvesStatusSnapshot {
            active_profile: None,
            profile_choices: None,
            curve_data: None,
            curve_series: Vec::new(),
            last_error,
        }
    }
}

impl AuraStatusSnapshot {
    /// No reading, only the given error.
    #[verifier::allow_in_spec]
    pub fn failed(last_error: Option<String>) -> Self
        returns
            (AuraStatusSnapshot {
                brightness: None,
                led_mode: None,
                supported_brightness: None,
                supported_basic_modes: None,
                last_error,
            }),
    {
        AuraStatusSnapshot {
            brightness: None,
            led_mode: None,
            supported_brightness: None,
            supported_basic_modes: None,
            last_error,
        }
    }
}

impl AnimeStatusSnapshot {
    /// No reading, only the given error.
    #[verifier::allow_in_spec]
    pub fn failed(last_error: Option<String>) -> Self
        returns
            (AnimeStatusSnapshot {
                enable_display: None,
                builtins_enabled: None,
                brightness: None,
                off_when_lid_closed: None,
                off_when_suspended: None,
                off_when_unplugged: None,
                last_error,
            }),
    {
        AnimeStatusSnapshot {
            enable_display: None,
            builtins_enabled: None,
            brightness: None,
            off_when_lid_closed: None,
            off_when_suspended: None,
            off_when_unplugged: None,
            last_error,
        }
    }
}

impl SlashStatusSnapshot {
    /// No reading, only the given error.
    #[verifier::allow_in_spec]
    pub fn failed(last_error: Option<String>) -> Self
        returns
            (SlashStatusSnapshot {
                enabled: None,
                brightness: None,
                interval: None,
                mode: None,
                show_on_boot: None,
                show_on_sleep: None,
                show_on_shutdown: None,
                show_on_battery: None,
                show_battery_warning: None,
                show_on_lid_closed: None,
                last_error,
            }),
    {
        SlashStatusSnapshot {
            enabled: None,
            brightness: None,
            interval: None,
            mode: None,
            show_on_boot: None,
            show_on_sleep: None,
            show_on_shutdown: None,
            show_on_battery: None,
            show_battery_warning: None,
            show_on_lid_closed: None,
            last_error,
        }
    }
}

impl ScsiStatusSnapshot {
    /// No reading, only the given error.
    #[verifier::allow_in_spec]
    pub fn failed(last_error: Option<String>) -> Self
        returns
            (ScsiStatusSnapshot { enabled: None, mode: None, mode_data: None, last_error }),
    {
        ScsiStatusSnapshot { enabled: None, mode: None, mode_data: None, last_error }
    }
}

impl BacklightStatusSnapshot {
    /// No reading, only the given error.
    #[verifier::allow_in_spec]
    pub fn failed(last_error: Option<String>) -> Self
        returns
            (BacklightStatusSnapshot {
                screenpad_brightness: None,
                screenpad_gamma: None,
                sync_screenpad_brightness: None,
                last_error,
            }),
    {
        BacklightStatusSnapshot {
            screenpad_brightness: None,
            screenpad_gamma: None,
            sync_screenpad_brightness: None,
            last_error,
        }
    }
}

impl ArmouryAttributeSnapshot {
    /// The attribute at `path` with no reading, only the given error.
    pub fn failed(path: String, last_error: Option<String>) -> (r: Self)
        ensures
            r == (ArmouryAttributeSnapshot {
                path,
                name: None,
                available_attrs: None,
                current_value: None,
                default_value: None,
                min_value: None,
                max_value: None,
                possible_values: None,
                scalar_increment: None,
                queued_gpu_value: None,
                last_error,
            }),
    {
        ArmouryAttributeSnapshot {
            path,
            name: None,
            available_attrs: None,
            current_value: None,
            default_value: None,
            min_value: None,
            max_value: None,
            possible_values: None,
            scalar_increment: None,
            queued_gpu_value: None,
            last_error,
        }
    }
}

impl ArmouryStatusSnapshot {
    /// Whether this section holds no attribute, only the error `last_error`.
    pub open spec fn shows_only(self, last_error: Option<String>) -> bool {
        &&& self.attributes@.len() == 0
        &&& self.last_error == last_error
    }

    /// No attributes, only the given error.
    pub fn failed(last_error: Option<String>) -> (r: Self)
        ensures
            r.shows_only(last_error),
    {
        ArmouryStatusSnapshot { attributes: Vec::new(), last_error }
    }
}

impl DaemonInterfaceSnapshot {
    /// No interface found.
    #[verifier::allow_in_spec]
    pub fn none() -> Self
        returns
            (DaemonInterfaceSnapshot {
                asusd_platform_available: false,
                asusd_fan_curves_available: false,
                asusd_aura_available: false,
                asusd_anime_available: false,
                asusd_slash_available: false,
                asusd_scsi_available: false,
                asusd_backlight_available: false,
                asusd_armoury_available: false,
                supergfxd_interface_available: false,
                ppd_interface_available: false,
            }),
    {
        DaemonInterfaceSnapshot {
            asusd_platform_available: false,
            asusd_fan_curves_available: false,
            asusd_aura_available: false,
            asusd_anime_available: false,
            asusd_slash_available: false,
            asusd_scsi_available: false,
            asusd_backlight_available: false,
            asusd_armoury_available: false,
            supergfxd_interface_available: false,
            ppd_interface_available: false,
        }
    }
}

/// No reading of any performance figure.
pub open spec fn performance_is_empty(p: PerformanceSnapshot) -> bool {
    &&& p.cpu == (CpuPerformanceSnapshot {
        frequency_mhz: None,
        utilization_tenths: None,
        core_count: None,
        last_error: None,
    })
    &&& p.gpu == (GpuPerformanceSnapshot {
        frequency_mhz: None,
        utilization_tenths: None,
        source: None,
        last_error: None,
    })
    &&& p.ram == (RamPerformanceSnapshot {
        total_bytes: None,
        used_bytes: None,
        utilization_tenths: None,
        last_error: None,
    })
}

impl PerformanceSnapshot {
    /// No reading of any figure.
    pub fn empty() -> (r: Self)
        ensures
            performance_is_empty(r),
    {
        PerformanceSnapshot {
            cpu: CpuPerformanceSnapshot {
                frequency_mhz: None,
                utilization_tenths: None,
                core_count: None,
                last_error: None,
            },
            gpu: GpuPerformanceSnapshot {
                frequency_mhz: None,
                utilization_tenths: None,
                source: None,
                last_error: None,
            },
            ram: RamPerformanceSnapshot {
                total_bytes: None,
                used_bytes: None,
                utilization_tenths: None,
                last_error: None,
            },
        }
    }
}

impl DashboardSnapshotDto {
    /// Every section but the health is empty and carries no error.
    pub open spec fn knows_only_health(self) -> bool {
        &&& self.interfaces == DaemonInterfaceSnapshot::none()
        &&& performance_is_empty(self.performance)
        &&& self.gpu == GpuStatusSnapshot::failed(None)
        &&& self.power == PowerStatusSnapshot::failed(None)
        &&& self.platform == PlatformStatusSnapshot::failed(None)
        &&& self.fan_curves.shows_only(None)
        &&& self.aura == AuraStatusSnapshot::failed(None)
        &&& self.anime == AnimeStatusSnapshot::failed(None)
        &&& self.slash == SlashStatusSnapshot::failed(None)
        &&& self.scsi == ScsiStatusSnapshot::failed(None)
        &&& self.backlight == BacklightStatusSnapshot::failed(None)
        &&& self.armoury.shows_only(None)
    }

    /// A dashboard that knows only the daemons' health: every section is empty
    /// and carries no error.
    pub fn from_health(health: DaemonHealthSnapshot, updated_at_ms: u64) -> (r: Self)
        ensures
            r.health == health,
            r.updated_at_ms == updated_at_ms,
            r.knows_only_health(),
            r.interfaces == DaemonInterfaceSnapshot::none(),
            performance_is_empty(r.performance),
            r.gpu == GpuStatusSnapshot::failed(None),
            r.power == PowerStatusSnapshot::failed(None),
            r.platform == PlatformStatusSnapshot::failed(None),
            r.fan_curves.shows_only(None),
            r.aura == AuraStatusSnapshot::failed(None),
            r.anime == AnimeStatusSnapshot::failed(None),
            r.slash == SlashStatusSnapshot::failed(None),
            r.scsi == ScsiStatusSnapshot::failed(None),
            r.backlight == BacklightStatusSnapshot::failed(None),
            r.armoury.shows_only(None),
    {
        DashboardSnapshotDto {
            health,
            interfaces: DaemonInterfaceSnapshot::none(),
            performance: PerformanceSnapshot::empty(),
            gpu: GpuStatusSnapshot::failed(None),
            power: PowerStatusSnapshot::failed(None),
            platform: PlatformStatusSnapshot::failed(None),
            fan_curves: FanCurvesStatusSnapshot::failed(None),
            aura: AuraStatusSnapshot::failed(None),
            anime: AnimeStatusSnapshot::failed(None),
            slash: SlashStatusSnapshot::failed(None),
            scsi: ScsiStatusSnapshot::failed(None),
            backlight: BacklightStatusSnapshot::failed(None),
            armoury: ArmouryStatusSnapshot::failed(None),
            updated_at_ms,
        }
    }
}

} // verus!
