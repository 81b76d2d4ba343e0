//! What each dashboard section shows, from whether its daemon and interface
//! answer and from the reading taken when they do.
use vstd::prelude::*;
use crate::dto::{
    AnimeStatusSnapshot, ArmouryStatusSnapshot, AuraStatusSnapshot, BacklightStatusSnapshot,
    FanCurvesStatusSnapshot, GpuStatusSnapshot, PlatformStatusSnapshot, PowerStatusSnapshot,
    ScsiStatusSnapshot, SlashStatusSnapshot,
};
use crate::bus::opt_view;
use crate::text::owned;

verus! {

/// The error shown by an asusd-backed section whose reading is not taken:
/// "asusd unavailable" when asusd does not answer, else the section's own
/// message for its missing interface.
pub open spec fn gate_text(daemon_available: bool, missing: Seq<char>) -> Seq<char> {
    if !daemon_available {
        "asusd unavailable"@
    } else {
        missing
    }
}

/// Whether a section's reading may be taken, and if not, why: `None` when
/// asusd and the interface both answer.
pub fn section_gate(daemon_available: bool, interface_available: bool, missing: &str) -> (r:
    Option<String>)
    ensures
        r is None <==> daemon_available && interface_available,
        r matches Some(m) ==> m@ == gate_text(daemon_available, missing@),
{
    if !daemon_available {
        Some(owned("asusd unavailable"))
    } else if !interface_available {
        Some(owned(missing))
    } else {
        None
    }
}

/// The platform section. Its reading is taken only when asusd and its interface
/// answer; otherwise the section shows why not.
pub fn read_platform_snapshot(
    daemon_available: bool,
    interface_available: bool,
    fetched: Option<Result<PlatformStatusSnapshot, String>>,
) -> (r: PlatformStatusSnapshot)
    requires
        fetched is Some <==> daemon_available && interface_available,
    ensures
        match fetched {
            Some(Ok(s)) => r == s,
            Some(Err(e)) => r == PlatformStatusSnapshot::failed(Some(e)),
            None => r == PlatformStatusSnapshot::failed(r.last_error) && opt_view(r.last_error) == Some(gate_text(daemon_available, "asusd platform interface unavailable"@)),
        },
{
    match fetched {
        Some(Ok(s)) => s,
        Some(Err(e)) => PlatformStatusSnapshot::failed(Some(e)),
        None => PlatformStatusSnapshot::failed(section_gate(daemon_available, interface_available, "asusd platform interface unavailable")),
    }
}

/// The fan-curve section. Its reading is taken only when asusd and its interface
/// answer; otherwise the section shows why not.
pub fn read_fan_curves_snapshot(
    daemon_available: bool,
    interface_available: bool,
    fetched: Option<Result<FanCurvesStatusSnapshot, String>>,
) -> (r: FanCurvesStatusSnapshot)
    requires
        fetched is Some <==> daemon_available && interface_available,
    ensures
        match fetched {
            Some(Ok(s)) => r == s,
            Some(Err(e)) => r.shows_only(Some(e)),
            None => r.shows_only(r.last_error) && opt_view(r.last_error) == Some(gate_text(daemon_available, "asusd fan curves interface unavailable"@)),
        },
{
    match fetched {
        Some(Ok(s)) => s,
        Some(Err(e)) => FanCurvesStatusSnapshot::failed(Some(e)),
        None => FanCurvesStatusSnapshot::failed(section_gate(daemon_available, interface_available, "asusd fan curves interface unavailable")),
    }
}

/// The keyboard lighting section. Its reading is taken only when asusd and its interface
/// answer; otherwise the section shows why not.
pub fn read_aura_snapshot(
    daemon_available: bool,
    interface_available: bool,
    fetched: Option<Result<AuraStatusSnapshot, String>>,
) -> (r: AuraStatusSnapshot)
    requires
        fetched is Some <==> daemon_available && interface_available,
    ensures
        match fetched {
            Some(Ok(s)) => r == s,
            Some(Err(e)) => r == AuraStatusSnapshot::failed(Some(e)),
            None => r == AuraStatusSnapshot::failed(r.last_error) && opt_view(r.last_error) == Some(gate_text(daemon_available, "asusd aura interface unavailable"@)),
        },
{
    match fetched {
        Some(Ok(s)) => s,
        Some(Err(e)) => AuraStatusSnapshot::failed(Some(e)),
        None => AuraStatusSnapshot::failed(section_gate(daemon_available, interface_available, "asusd aura interface unavailable")),
    }
}

/// The AniMe matrix section. Its reading is taken only when asusd and its interface
/// answer; otherwise the section shows why not.
pub fn read_anime_snapshot(
    daemon_available: bool,
    interface_available: bool,
    fetched: Option<Result<AnimeStatusSnapshot, String>>,
) -> (r: AnimeStatusSnapshot)
    requires
        fetched is Some <==> daemon_available && interface_available,
    ensures
        match fetched {
            Some(Ok(s)) => r == s,
            Some(Err(e)) => r == AnimeStatusSnapshot::failed(Some(e)),
            None => r == AnimeStatusSnapshot::failed(r.last_error) && opt_view(r.last_error) == Some(gate_text(daemon_available, "asusd anime interface unavailable"@)),
        },
{
    match fetched {
        Some(Ok(s)) => s,
        Some(Err(e)) => AnimeStatusSnapshot::failed(Some(e)),
        None => AnimeStatusSnapshot::failed(section_gate(daemon_available, interface_available, "asusd anime interface unavailable")),
    }
}

/// The Slash lighting section. Its reading is taken only when asusd and its interface
/// answer; otherwise the section shows why not.
pub fn read_slash_snapshot(
    daemon_available: bool,
    interface_available: bool,
    fetched: Option<Result<SlashStatusSnapshot, String>>,
) -> (r: SlashStatusSnapshot)
    requires
        fetched is Some <==> daemon_available && interface_available,
    ensures
        match fetched {
            Some(Ok(s)) => r == s,
            Some(Err(e)) => r == SlashStatusSnapshot::failed(Some(e)),
            None => r == SlashStatusSnapshot::failed(r.last_error) && opt_view(r.last_error) == Some(gate_text(daemon_available, "asusd slash interface unavailable"@)),
        },
{
    match fetched {
        Some(Ok(s)) => s,
        Some(Err(e)) => SlashStatusSnapshot::failed(Some(e)),
        None => SlashStatusSnapshot::failed(section_gate(daemon_available, interface_available, "asusd slash interface unavailable")),
    }
}

/// The SCSI lighting section. Its reading is taken only when asusd and its interface
/// answer; otherwise the section shows why not.
pub fn read_scsi_snapshot(
    daemon_available: bool,
    interface_available: bool,
    fetched: Option<Result<ScsiStatusSnapshot, String>>,
) -> (r: ScsiStatusSnapshot)
    requires
        fetched is Some <==> daemon_available && interface_available,
    ensures
        match fetched {
            Some(Ok(s)) => r == s,
            Some(Err(e)) => r == ScsiStatusSnapshot::failed(Some(e)),
            None => r == ScsiStatusSnapshot::failed(r.last_error) && opt_view(r.last_error) == Some(gate_text(daemon_available, "asusd scsi interface unavailable"@)),
        },
{
    match fetched {
        Some(Ok(s)) => s,
        Some(Err(e)) => ScsiStatusSnapshot::failed(Some(e)),
        None => ScsiStatusSnapshot::failed(section_gate(daemon_available, interface_available, "asusd scsi interface unavailable")),
    }
}

/// The ScreenPad backlight section. Its reading is taken only when asusd and its interface
/// answer; otherwise the section shows why not.
pub fn read_backlight_snapshot(
    daemon_available: bool,
    interface_available: bool,
    fetched: Option<Result<BacklightStatusSnapshot, String>>,
) -> (r: BacklightStatusSnapshot)
    requires
        fetched is Some <==> daemon_available && interface_available,
    ensures
        match fetched {
            Some(Ok(s)) => r == s,
            Some(Err(e)) => r == BacklightStatusSnapshot::failed(Some(e)),
            None => r == BacklightStatusSnapshot::failed(r.last_error) && opt_view(r.last_error) == Some(gate_text(daemon_available, "asusd backlight interface unavailable"@)),
        },
{
    match fetched {
        Some(Ok(s)) => s,
        Some(Err(e)) => BacklightStatusSnapshot::failed(Some(e)),
        None => BacklightStatusSnapshot::failed(section_gate(daemon_available, interface_available, "asusd backlight interface unavailable")),
    }
}

/// The firmware attribute section. Its reading is taken only when asusd and its interface
/// answer; otherwise the section shows why not.
pub fn read_armoury_snapshot(
    daemon_available: bool,
    interface_available: bool,
    fetched: Option<Result<ArmouryStatusSnapshot, String>>,
) -> (r: ArmouryStatusSnapshot)
    requires
        fetched is Some <==> daemon_available && interface_available,
    ensures
        match fetched {
            Some(Ok(s)) => r == s,
            Some(Err(e)) => r.shows_only(Some(e)),
            None => r.shows_only(r.last_error) && opt_view(r.last_error) == Some(gate_text(daemon_available, "asusd armoury interface unavailable"@)),
        },
{
    match fetched {
        Some(Ok(s)) => s,
        Some(Err(e)) => ArmouryStatusSnapshot::failed(Some(e)),
        None => ArmouryStatusSnapshot::failed(section_gate(daemon_available, interface_available, "asusd armoury interface unavailable")),
    }
}

/// The graphics section. When supergfxd does not answer, an NVIDIA card that
/// answers for itself is still shown, as mode "Nvidia" from vendor "NVIDIA".
/// `nvidia_detected` is asked only when supergfxd does not answer, the reading
/// only when it does.
pub fn read_gpu_snapshot(
    daemon_available: bool,
    nvidia_detected: Option<bool>,
    fetched: Option<Result<GpuStatusSnapshot, String>>,
) -> (r: GpuStatusSnapshot)
    requires
        fetched is Some <==> daemon_available,
        nvidia_detected is Some <==> !daemon_available,
    ensures
        match fetched {
            Some(Ok(s)) => r == s,
            Some(Err(e)) => r == GpuStatusSnapshot::failed(Some(e)),
            None => if nvidia_detected == Some(true) {
                &&& r.mode matches Some(m) && m@ == "Nvidia"@
                &&& r.vendor matches Some(v) && v@ == "NVIDIA"@
                &&& r.power is None && r.pending_mode is None && r.pending_action is None
                &&& r.daemon_version is None && r.supported_modes is None
                &&& r.last_error is None
            } else {
                r == GpuStatusSnapshot::failed(r.last_error) && opt_view(r.last_error) == Some(
                    "supergfxd unavailable"@,
                )
            },
        },
{
    match fetched {
        Some(Ok(s)) => s,
        Some(Err(e)) => GpuStatusSnapshot::failed(Some(e)),
        None => {
            if nvidia_detected == Some(true) {
                GpuStatusSnapshot {
                    mode: Some(owned("Nvidia")),
                    power: None,
                    pending_mode: None,
                    pending_action: None,
                    daemon_version: None,
                    vendor: Some(owned("NVIDIA")),
                    supported_modes: None,
                    last_error: None,
                }
            } else {
                GpuStatusSnapshot::failed(Some(owned("supergfxd unavailable")))
            }
        },
    }
}

/// The power-profile section: the reading when power-profiles-daemon answers,
/// else "power-profiles-daemon unavailable".
pub fn read_power_snapshot(daemon_available: bool, fetched: Option<Result<PowerStatusSnapshot, String>>) -> (r: PowerStatusSnapshot)
    requires
        fetched is Some <==> daemon_available,
    ensures
        match fetched {
            Some(Ok(s)) => r == s,
            Some(Err(e)) => r == PowerStatusSnapshot::failed(Some(e)),
            None => r == PowerStatusSnapshot::failed(r.last_error) && opt_view(r.last_error) == Some(
                "power-profiles-daemon unavailable"@,
            ),
        },
{
    match fetched {
        Some(Ok(s)) => s,
        Some(Err(e)) => PowerStatusSnapshot::failed(Some(e)),
        None => PowerStatusSnapshot::failed(Some(owned("power-profiles-daemon unavailable"))),
    }
}

/// The three daemons.
#[derive(Clone, Copy, PartialEq, Eq, Structural)]
pub enum Daemon {
    Asusd,
    Supergfxd,
    PowerProfiles,
}

/// The message for a daemon that does not answer.
pub open spec fn daemon_missing_text(d: Daemon) -> Seq<char> {
    match d {
        Daemon::Asusd => "asusd unavailable"@,
        Daemon::Supergfxd => "supergfxd unavailable"@,
        Daemon::PowerProfiles => "power-profiles-daemon unavailable"@,
    }
}

/// A change goes ahead only when its daemon answers.
pub fn require_daemon(d: Daemon, available: bool) -> (r: Result<(), String>)
    ensures
        available ==> r is Ok,
        !available ==> (r matches Err(e) && e@ == daemon_missing_text(d)),
{
    if available {
        Ok(())
    } else {
        Err(
            owned(
                match d {
                    Daemon::Asusd => "asusd unavailable",
                    Daemon::Supergfxd => "supergfxd unavailable",
                    Daemon::PowerProfiles => "power-profiles-daemon unavailable",
                },
            ),
        )
    }
}

/// A change to an asusd section goes ahead only when asusd and the section's
/// interface answer.
pub fn require_interface(daemon_available: bool, interface_available: bool, missing: &str) -> (r:
    Result<(), String>)
    ensures
        daemon_available && interface_available ==> r is Ok,
        !(daemon_available && interface_available) ==> (r matches Err(e) && e@ == gate_text(
            daemon_available,
            missing@,
        )),
{
    match section_gate(daemon_available, interface_available, missing) {
        Some(m) => Err(m),
        None => Ok(()),
    }
}

/// A change of the charge limit goes ahead only when asusd controls it.
pub fn require_charge_control(supported: bool) -> (r: Result<(), String>)
    ensures
        supported ==> r is Ok,
        !supported ==> (r matches Err(e) && e@ == "asusd charge limit control unsupported"@),
{
    if supported {
        Ok(())
    } else {
        Err(owned("asusd charge limit control unsupported"))
    }
}

} // verus!
