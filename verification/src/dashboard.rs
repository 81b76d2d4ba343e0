//! The dashboard: which daemons and interfaces answer, what each section shows
//! when its daemon or interface is missing, and the snapshot as a whole.
use vstd::prelude::*;
use crate::dto::{DaemonHealthSnapshot, DaemonInterfaceSnapshot, DashboardSnapshotDto};
use crate::text::{join, join_strings, owned, views};

verus! {

/// The standard library's `SystemTime`, carried through unopened.
#[verifier::external_type_specification]
#[verifier::external_body]
pub struct ExSystemTime(std::time::SystemTime);

/// The standard library's `SystemTimeError`, carried through unopened.
#[verifier::external_type_specification]
#[verifier::external_body]
pub struct ExSystemTimeError(std::time::SystemTimeError);

/// `SystemTime::now`: the clock's reading, about which nothing is promised.
#[verifier::external_body]
fn system_time_now() -> std::time::SystemTime {
    std::time::SystemTime::now()
}

/// `SystemTime::duration_since(UNIX_EPOCH)`: the time elapsed since the epoch,
/// or an error when the reading is before it. Nothing is said of the value,
/// which depends on the clock.
#[verifier::external_body]
fn since_unix_epoch(t: &std::time::SystemTime) -> Result<
    std::time::Duration,
    std::time::SystemTimeError,
> {
    t.duration_since(std::time::UNIX_EPOCH)
}

/// `Duration::as_millis`: the whole milliseconds of a duration. The duration
/// is opaque to the library and comes from the clock, so nothing is stated of
/// the result.
#[verifier::external_body]
fn duration_millis(d: &std::time::Duration) -> u128 {
    d.as_millis()
}

/// A time since the epoch in milliseconds, truncated to 64 bits; 0 when the
/// clock is before the epoch.
pub fn millis_or_zero(elapsed: Option<u128>) -> (r: u64)
    ensures
        r == match elapsed {
            Some(ms) => ms as u64,
            None => 0,
        },
{
    match elapsed {
        Some(ms) => ms as u64,
        None => 0,
    }
}

/// The current time in milliseconds since the epoch, 0 when the clock is
/// before it.
pub fn now_ms() -> u64 {
    let now = system_time_now();
    let elapsed = match since_unix_epoch(&now) {
        Ok(d) => Some(duration_millis(&d)),
        Err(_) => None,
    };
    millis_or_zero(elapsed)
}

/// Whether a probe found its daemon or interface.
pub open spec fn probe_found(r: Result<bool, String>) -> bool {
    r matches Ok(true)
}

/// The note a failed probe leaves: its description, a colon, and the error.
pub open spec fn probe_notes(r: Result<bool, String>, note: Seq<char>) -> Seq<Seq<char>> {
    match r {
        Err(e) => seq![note + ": "@ + e@],
        Ok(_) => Seq::empty(),
    }
}

/// A probe's answer; a failed probe counts as "not found" and leaves a note.
pub fn probe_with_note(result: Result<bool, String>, note: &str, errors: &mut Vec<String>) -> (r:
    bool)
    ensures
        r == probe_found(result),
        views(final(errors)@) == views(old(errors)@) + probe_notes(result, note@),
{
    match result {
        Ok(value) => {
            assert(views(errors@) =~= views(errors@) + Seq::<Seq<char>>::empty());
            value
        },
        Err(error) => {
            let mut line = owned(note);
            line.append(": ");
            line.append(error.as_str());
            let ghost before = errors@;
            errors.push(line);
            assert(views(errors@) =~= views(before) + seq![note@ + ": "@ + error@]);
            false
        },
    }
}

/// The answers of the interface probes, made only when asusd answers.
pub struct InterfaceProbes {
    pub platform: Result<bool, String>,
    pub fan_curves: Result<bool, String>,
    pub aura: Result<bool, String>,
    pub anime: Result<bool, String>,
    pub slash: Result<bool, String>,
    pub scsi: Result<bool, String>,
    pub backlight: Result<bool, String>,
    pub armoury: Result<bool, String>,
}

/// Whether the asusd interfaces are to be probed, given asusd's own probe.
pub fn interfaces_probed(asusd: &Result<bool, String>) -> (r: bool)
    ensures
        r == probe_found(*asusd),
{
    match asusd {
        Ok(v) => *v,
        Err(_) => false,
    }
}

/// The notes of the interface probes, in their fixed order.
pub open spec fn interface_notes(p: InterfaceProbes) -> Seq<Seq<char>> {
    probe_notes(p.platform, "asusd platform interface discovery failed"@) + probe_notes(
        p.fan_curves,
        "asusd fan curves interface discovery failed"@,
    ) + probe_notes(p.aura, "asusd aura interface discovery failed"@) + probe_notes(
        p.anime,
        "asusd anime interface discovery failed"@,
    ) + probe_notes(p.slash, "asusd slash interface discovery failed"@) + probe_notes(
        p.scsi,
        "asusd scsi interface discovery failed"@,
    ) + probe_notes(p.backlight, "asusd backlight interface discovery failed"@) + probe_notes(
        p.armoury,
        "asusd armoury interface discovery failed"@,
    )
}

/// All notes of a round of probes: the three daemons, then the interfaces.
pub open spec fn all_probe_notes(
    asusd: Result<bool, String>,
    supergfxd: Result<bool, String>,
    ppd: Result<bool, String>,
    interfaces: Option<InterfaceProbes>,
) -> Seq<Seq<char>> {
    probe_notes(asusd, "asusd probe failed"@) + probe_notes(supergfxd, "supergfxd probe failed"@)
        + probe_notes(ppd, "ppd probe failed"@) + match interfaces {
        Some(p) => interface_notes(p),
        None => Seq::empty(),
    }
}

/// The error text of a round of notes: nothing when there is none, else the
/// notes joined with "; ".
pub open spec fn notes_error(notes: Seq<Seq<char>>) -> Option<Seq<char>> {
    if notes.len() == 0 {
        None
    } else {
        Some(join(notes, "; "@))
    }
}

/// What the asusd interface flags show for a round of interface probes.
pub open spec fn interfaces_shown(ifaces: DaemonInterfaceSnapshot, p: InterfaceProbes) -> bool {
    &&& ifaces.asusd_platform_available == probe_found(p.platform)
    &&& ifaces.asusd_fan_curves_available == probe_found(p.fan_curves)
    &&& ifaces.asusd_aura_available == probe_found(p.aura)
    &&& ifaces.asusd_anime_available == probe_found(p.anime)
    &&& ifaces.asusd_slash_available == probe_found(p.slash)
    &&& ifaces.asusd_scsi_available == probe_found(p.scsi)
    &&& ifaces.asusd_backlight_available == probe_found(p.backlight)
    &&& ifaces.asusd_armoury_available == probe_found(p.armoury)
}

/// No asusd interface is shown.
pub open spec fn no_asusd_interfaces(ifaces: DaemonInterfaceSnapshot) -> bool {
    &&& !ifaces.asusd_platform_available
    &&& !ifaces.asusd_fan_curves_available
    &&& !ifaces.asusd_aura_available
    &&& !ifaces.asusd_anime_available
    &&& !ifaces.asusd_slash_available
    &&& !ifaces.asusd_scsi_available
    &&& !ifaces.asusd_backlight_available
    &&& !ifaces.asusd_armoury_available
}

/// What a round of probes shows: each daemon available when its probe found
/// it; each asusd interface available when asusd was found and the interface's
/// probe found it; supergfxd's and the power daemon's interfaces available
/// with their daemons; and every failed probe's note in the health error.
pub open spec fn availability_shows(
    health: DaemonHealthSnapshot,
    ifaces: DaemonInterfaceSnapshot,
    asusd: Result<bool, String>,
    supergfxd: Result<bool, String>,
    ppd: Result<bool, String>,
    interfaces: Option<InterfaceProbes>,
) -> bool {
    &&& health.asusd_available == probe_found(asusd)
    &&& health.supergfxd_available == probe_found(supergfxd)
    &&& health.ppd_available == probe_found(ppd)
    &&& crate::bus::opt_view(health.last_error) == notes_error(
        all_probe_notes(asusd, supergfxd, ppd, interfaces),
    )
    &&& match interfaces {
        Some(p) => interfaces_shown(ifaces, p),
        None => no_asusd_interfaces(ifaces),
    }
    &&& ifaces.supergfxd_interface_available == probe_found(supergfxd)
    &&& ifaces.ppd_interface_available == probe_found(ppd)
}

/// The asusd interface flags from a round of interface probes; the failed
/// probes' notes are added to `errors`, in order.
fn probe_interfaces(p: InterfaceProbes, errors: &mut Vec<String>) -> (r: DaemonInterfaceSnapshot)
    ensures
        interfaces_shown(r, p),
        !r.supergfxd_interface_available,
        !r.ppd_interface_available,
        views(final(errors)@) == views(old(errors)@) + interface_notes(p),
{
    let ghost start = views(errors@);
    let mut ifaces = DaemonInterfaceSnapshot::none();
    ifaces.asusd_platform_available = probe_with_note(
        p.platform,
        "asusd platform interface discovery failed",
        errors,
    );
    ifaces.asusd_fan_curves_available = probe_with_note(
        p.fan_curves,
        "asusd fan curves interface discovery failed",
        errors,
    );
    ifaces.asusd_aura_available = probe_with_note(
        p.aura,
        "asusd aura interface discovery failed",
        errors,
    );
    ifaces.asusd_anime_available = probe_with_note(
        p.anime,
        "asusd anime interface discovery failed",
        errors,
    );
    let ghost half = views(errors@);
    assert(half =~= start + (probe_notes(p.platform, "asusd platform interface discovery failed"@)
        + probe_notes(p.fan_curves, "asusd fan curves interface discovery failed"@) + probe_notes(
        p.aura,
        "asusd aura interface discovery failed"@,
    ) + probe_notes(p.anime, "asusd anime interface discovery failed"@)));
    ifaces.asusd_slash_available = probe_with_note(
        p.slash,
        "asusd slash interface discovery failed",
        errors,
    );
    ifaces.asusd_scsi_available = probe_with_note(
        p.scsi,
        "asusd scsi interface discovery failed",
        errors,
    );
    ifaces.asusd_backlight_available = probe_with_note(
        p.backlight,
        "asusd backlight interface discovery failed",
        errors,
    );
    ifaces.asusd_armoury_available = probe_with_note(
        p.armoury,
        "asusd armoury interface discovery failed",
        errors,
    );
    assert(views(errors@) =~= start + interface_notes(p));
    ifaces
}

/// The daemons' health and the interfaces found, from a round of probes. The
/// interfaces are probed exactly when asusd was found.
pub fn assemble_availability(
    asusd: Result<bool, String>,
    supergfxd: Result<bool, String>,
    ppd: Result<bool, String>,
    interfaces: Option<InterfaceProbes>,
) -> (r: (DaemonHealthSnapshot, DaemonInterfaceSnapshot))
    requires
        interfaces is Some <==> probe_found(asusd),
    ensures
        availability_shows(r.0, r.1, asusd, supergfxd, ppd, interfaces),
{
    let ghost (a0, s0, p0, i0) = (asusd, supergfxd, ppd, interfaces);
    let mut errors: Vec<String> = Vec::new();
    let asusd_available = probe_with_note(asusd, "asusd probe failed", &mut errors);
    let supergfxd_available = probe_with_note(supergfxd, "supergfxd probe failed", &mut errors);
    let ppd_available = probe_with_note(ppd, "ppd probe failed", &mut errors);
    let ghost daemons = views(errors@);
    assert(daemons =~= probe_notes(a0, "asusd probe failed"@) + probe_notes(
        s0,
        "supergfxd probe failed"@,
    ) + probe_notes(p0, "ppd probe failed"@));
    let mut ifaces = match interfaces {
        Some(p) => probe_interfaces(p, &mut errors),
        None => DaemonInterfaceSnapshot::none(),
    };
    ifaces.supergfxd_interface_available = supergfxd_available;
    ifaces.ppd_interface_available = ppd_available;
    assert(views(errors@) =~= all_probe_notes(a0, s0, p0, i0));
    let last_error = if errors.len() == 0 {
        None
    } else {
        Some(join_strings(&errors, "; "))
    };
    let health = DaemonHealthSnapshot {
        asusd_available,
        supergfxd_available,
        ppd_available,
        last_error,
    };
    (health, ifaces)
}

/// The daemons' health from their probes, made in turn, each only when the
/// one before answered: the first failed probe fails the whole with its
/// daemon's message.
pub fn probe_daemons(
    asusd: Result<bool, String>,
    supergfxd: Option<Result<bool, String>>,
    ppd: Option<Result<bool, String>>,
) -> (r: Result<DaemonHealthSnapshot, String>)
    requires
        supergfxd is Some <==> asusd is Ok,
        ppd is Some <==> supergfxd matches Some(Ok(_)),
    ensures
        match (asusd, supergfxd, ppd) {
            (Err(_), _, _) => r matches Err(e) && e@ == "D-Bus: asusd probe failed"@,
            (Ok(_), Some(Err(_)), _) => r matches Err(e) && e@ == "D-Bus: supergfxd probe failed"@,
            (Ok(_), Some(Ok(_)), Some(Err(_))) => r matches Err(e) && e@ == "D-Bus: ppd probe failed"@,
            (Ok(a), Some(Ok(g)), Some(Ok(p))) => r matches Ok(h) && h.asusd_available == a
                && h.supergfxd_available == g && h.ppd_available == p && h.last_error is None,
            _ => false,
        },
{
    let a = match asusd {
        Ok(a) => a,
        Err(_) => {
            return Err(owned("D-Bus: asusd probe failed"));
        },
    };
    let g = match supergfxd {
        Some(Ok(g)) => g,
        _ => {
            return Err(owned("D-Bus: supergfxd probe failed"));
        },
    };
    let p = match ppd {
        Some(Ok(p)) => p,
        _ => {
            return Err(owned("D-Bus: ppd probe failed"));
        },
    };
    Ok(DaemonHealthSnapshot {
        asusd_available: a,
        supergfxd_available: g,
        ppd_available: p,
        last_error: None,
    })
}

/// The health shown when the daemons could not be probed at all.
pub open spec fn degraded_health(error: Seq<char>, h: DaemonHealthSnapshot) -> bool {
    &&& !h.asusd_available
    &&& !h.supergfxd_available
    &&& !h.ppd_available
    &&& h.last_error matches Some(e) && e@ == error
}

/// The daemons' health: the probes' answer, or, when probing failed, every
/// daemon down and the failure as the error.
pub fn probe_daemons_resilient(probed: Result<DaemonHealthSnapshot, String>) -> (r:
    DaemonHealthSnapshot)
    ensures
        match probed {
            Ok(h) => r == h,
            Err(e) => degraded_health(e@, r),
        },
{
    match probed {
        Ok(snapshot) => snapshot,
        Err(error) => DaemonHealthSnapshot {
            asusd_available: false,
            supergfxd_available: false,
            ppd_available: false,
            last_error: Some(error),
        },
    }
}

/// The dashboard: the collected snapshot, or, when collecting failed, a
/// snapshot that knows only that every daemon is down, taken at `now`.
pub fn collect_dashboard_resilient(collected: Result<DashboardSnapshotDto, String>, now: u64) -> (r:
    DashboardSnapshotDto)
    ensures
        match collected {
            Ok(s) => r == s,
            Err(e) => {
                &&& degraded_health(e@, r.health)
                &&& r.updated_at_ms == now
                &&& r.knows_only_health()
            },
        },
{
    match collected {
        Ok(snapshot) => snapshot,
        Err(error) => DashboardSnapshotDto::from_health(
            DaemonHealthSnapshot {
                asusd_available: false,
                supergfxd_available: false,
                ppd_available: false,
                last_error: Some(error),
            },
            now,
        ),
    }
}

/// No probe of a round failed.
pub open spec fn no_probe_failed(
    asusd: Result<bool, String>,
    supergfxd: Result<bool, String>,
    ppd: Result<bool, String>,
    interfaces: Option<InterfaceProbes>,
) -> bool {
    &&& asusd is Ok && supergfxd is Ok && ppd is Ok
    &&& interfaces matches Some(p) ==> {
        &&& p.platform is Ok && p.fan_curves is Ok && p.aura is Ok && p.anime is Ok
        &&& p.slash is Ok && p.scsi is Ok && p.backlight is Ok && p.armoury is Ok
    }
}

/// What a round of probes shows hangs together: no asusd interface is shown
/// available while asusd itself is not, and the health carries an error
/// exactly when some probe failed.
pub proof fn lemma_availability_consistent(
    health: DaemonHealthSnapshot,
    ifaces: DaemonInterfaceSnapshot,
    asusd: Result<bool, String>,
    supergfxd: Result<bool, String>,
    ppd: Result<bool, String>,
    interfaces: Option<InterfaceProbes>,
)
    requires
        interfaces is Some <==> probe_found(asusd),
        availability_shows(health, ifaces, asusd, supergfxd, ppd, interfaces),
    ensures
        !health.asusd_available ==> no_asusd_interfaces(ifaces),
        health.last_error is None <==> no_probe_failed(asusd, supergfxd, ppd, interfaces),
{
    let notes = all_probe_notes(asusd, supergfxd, ppd, interfaces);
    assert(notes.len() == 0 <==> no_probe_failed(asusd, supergfxd, ppd, interfaces));
}

} // verus!
