//! The dashboard held by the running application, and how a fresh reading of
//! the performance figures updates it.
use vstd::prelude::*;
use crate::bus::opt_view;
use crate::dto::{
    CpuPerformanceSnapshot, DaemonHealthSnapshot, DashboardSnapshotDto, GpuPerformanceSnapshot,
    PerformanceSnapshot, RamPerformanceSnapshot,
};
use crate::text::chars_of;
use crate::tray::same_chars;

verus! {

/// The last dashboard collected.
pub struct AppState {
    dashboard: DashboardSnapshotDto,
}

impl View for AppState {
    type V = DashboardSnapshotDto;

    closed spec fn view(&self) -> DashboardSnapshotDto {
        self.dashboard
    }
}

impl AppState {
    /// A state holding `initial_dashboard`.
    pub fn new(initial_dashboard: DashboardSnapshotDto) -> (r: Self)
        ensures
            r@ == initial_dashboard,
    {
        AppState { dashboard: initial_dashboard }
    }

    /// A copy of the daemons' health as last collected.
    pub fn get_health(&self) -> (r: DaemonHealthSnapshot)
        ensures
            r == self@.health,
    {
        self.dashboard.health.copy()
    }

    /// The dashboard held.
    pub fn get_dashboard(&self) -> (r: &DashboardSnapshotDto)
        ensures
            *r == self@,
    {
        &self.dashboard
    }

    /// Applies a fresh performance reading to the dashboard held; see
    /// `apply_performance`. Returns whether the dashboard changed.
    pub fn refresh_performance(&mut self, performance: PerformanceSnapshot, now: u64) -> (r: bool)
        ensures
            r == !same_figures(old(self)@.performance, performance),
            !r ==> final(self)@ == old(self)@,
            r ==> final(self)@ == (DashboardSnapshotDto {
                performance,
                updated_at_ms: now,
                ..old(self)@
            }),
    {
        apply_performance(&mut self.dashboard, performance, now)
    }

    /// Replaces the dashboard held by `dashboard`.
    pub fn set_dashboard(&mut self, dashboard: DashboardSnapshotDto)
        ensures
            final(self)@ == dashboard,
    {
        self.dashboard = dashboard;
    }
}

/// Whether two optional texts say the same.
pub fn same_text(a: &Option<String>, b: &Option<String>) -> (r: bool)
    ensures
        r == (opt_view(*a) == opt_view(*b)),
{
    match (a, b) {
        (Some(x), Some(y)) => same_chars(&chars_of(x.as_str()), &chars_of(y.as_str())),
        (None, None) => true,
        _ => false,
    }
}

/// Two performance readings that show the same figures and errors.
pub open spec fn same_figures(a: PerformanceSnapshot, b: PerformanceSnapshot) -> bool {
    &&& a.cpu.frequency_mhz == b.cpu.frequency_mhz
    &&& a.cpu.utilization_tenths == b.cpu.utilization_tenths
    &&& a.cpu.core_count == b.cpu.core_count
    &&& opt_view(a.cpu.last_error) == opt_view(b.cpu.last_error)
    &&& a.gpu.frequency_mhz == b.gpu.frequency_mhz
    &&& a.gpu.utilization_tenths == b.gpu.utilization_tenths
    &&& opt_view(a.gpu.source) == opt_view(b.gpu.source)
    &&& opt_view(a.gpu.last_error) == opt_view(b.gpu.last_error)
    &&& a.ram.total_bytes == b.ram.total_bytes
    &&& a.ram.used_bytes == b.ram.used_bytes
    &&& a.ram.utilization_tenths == b.ram.utilization_tenths
    &&& opt_view(a.ram.last_error) == opt_view(b.ram.last_error)
}

fn same_u32(a: Option<u32>, b: Option<u32>) -> (r: bool)
    ensures
        r == (a == b),
{
    match (a, b) {
        (Some(x), Some(y)) => x == y,
        (None, None) => true,
        _ => false,
    }
}

fn same_cpu(a: &CpuPerformanceSnapshot, b: &CpuPerformanceSnapshot) -> (r: bool)
    ensures
        r == (a.frequency_mhz == b.frequency_mhz && a.utilization_tenths == b.utilization_tenths
            && a.core_count == b.core_count && opt_view(a.last_error) == opt_view(b.last_error)),
{
    let cores = match (a.core_count, b.core_count) {
        (Some(x), Some(y)) => x == y,
        (None, None) => true,
        _ => false,
    };
    same_u32(a.frequency_mhz, b.frequency_mhz) && same_u32(
        a.utilization_tenths,
        b.utilization_tenths,
    ) && cores && same_text(&a.last_error, &b.last_error)
}

fn same_gpu(a: &GpuPerformanceSnapshot, b: &GpuPerformanceSnapshot) -> (r: bool)
    ensures
        r == (a.frequency_mhz == b.frequency_mhz && a.utilization_tenths == b.utilization_tenths
            && opt_view(a.source) == opt_view(b.source) && opt_view(a.last_error) == opt_view(
            b.last_error,
        )),
{
    same_u32(a.frequency_mhz, b.frequency_mhz) && same_u32(
        a.utilization_tenths,
        b.utilization_tenths,
    ) && same_text(&a.source, &b.source) && same_text(&a.last_error, &b.last_error)
}

fn same_ram(a: &RamPerformanceSnapshot, b: &RamPerformanceSnapshot) -> (r: bool)
    ensures
        r == (a.total_bytes == b.total_bytes && a.used_bytes == b.used_bytes
            && a.utilization_tenths == b.utilization_tenths && opt_view(a.last_error) == opt_view(
            b.last_error,
        )),
{
    let total = match (a.total_bytes, b.total_bytes) {
        (Some(x), Some(y)) => x == y,
        (None, None) => true,
        _ => false,
    };
    let used = match (a.used_bytes, b.used_bytes) {
        (Some(x), Some(y)) => x == y,
        (None, None) => true,
        _ => false,
    };
    total && used && same_u32(a.utilization_tenths, b.utilization_tenths) && same_text(
        &a.last_error,
        &b.last_error,
    )
}

/// Whether two performance readings show the same figures and errors.
pub fn same_performance(a: &PerformanceSnapshot, b: &PerformanceSnapshot) -> (r: bool)
    ensures
        r == same_figures(*a, *b),
{
    same_cpu(&a.cpu, &b.cpu) && same_gpu(&a.gpu, &b.gpu) && same_ram(&a.ram, &b.ram)
}

/// A fresh performance reading applied to the dashboard: when it shows
/// anything new, it replaces the old figures and the dashboard is stamped with
/// `now`; otherwise nothing changes. Returns whether the dashboard changed
/// (and is to be published).
pub fn apply_performance(
    dashboard: &mut DashboardSnapshotDto,
    performance: PerformanceSnapshot,
    now: u64,
) -> (r: bool)
    ensures
        r == !same_figures(old(dashboard).performance, performance),
        !r ==> *final(dashboard) == *old(dashboard),
        r ==> *final(dashboard) == (DashboardSnapshotDto {
            performance,
            updated_at_ms: now,
            ..*old(dashboard)
        }),
{
    if same_performance(&dashboard.performance, &performance) {
        return false;
    }
    dashboard.performance = performance;
    dashboard.updated_at_ms = now;
    true
}

} // verus!
