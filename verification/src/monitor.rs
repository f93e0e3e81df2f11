//! Storage monitoring: the size of what a contract keeps, how well pruning
//! keeps it down, what it costs, and the recommendations and maintenance
//! that follow.

use vstd::prelude::*;
use crate::storage::StorageMetrics;

verus! {

/// Bytes estimated for each kind of stored entry.
pub const LEASE_INSTANCE_BYTES: u64 = 512;
pub const TOMBSTONE_BYTES: u64 = 128;
pub const LEGAL_HOLD_BYTES: u64 = 128;
pub const RECEIPT_BYTES: u64 = 96;
pub const USAGE_RIGHTS_BYTES: u64 = 128;

/// Counts of stored entries by kind and their estimated size.
#[derive(Clone, Copy, Debug, PartialEq, Eq, Structural)]
pub struct StorageStatistics {
    pub lease_instances: u64,
    pub tombstones: u64,
    pub legal_holds: u64,
    pub receipts: u64,
    pub usage_rights: u64,
    pub total_bytes: u64,
    pub average_lease_size: u32,
}

impl StorageStatistics {
    /// Statistics of empty storage.
    pub fn new() -> (s: Self)
        ensures
            s == (StorageStatistics {
                lease_instances: 0,
                tombstones: 0,
                legal_holds: 0,
                receipts: 0,
                usage_rights: 0,
                total_bytes: 0,
                average_lease_size: 0,
            }),
    {
        StorageStatistics {
            lease_instances: 0,
            tombstones: 0,
            legal_holds: 0,
            receipts: 0,
            usage_rights: 0,
            total_bytes: 0,
            average_lease_size: 0,
        }
    }
}

/// A picture of storage taken for debugging.
#[derive(Clone, Copy, Debug, PartialEq, Eq, Structural)]
pub struct StorageSnapshot {
    pub timestamp: u64,
    pub lease_count: u64,
    pub tombstone_count: u64,
    pub legal_hold_count: u64,
    /// Share of storage taken by tombstones, in percent.
    pub storage_efficiency: u32,
}

impl StorageSnapshot {
    /// An empty snapshot at `timestamp`.
    pub fn new(timestamp: u64) -> (s: Self)
        ensures
            s == (StorageSnapshot { timestamp, lease_count: 0, tombstone_count: 0, legal_hold_count: 0, storage_efficiency: 0 }),
    {
        StorageSnapshot { timestamp, lease_count: 0, tombstone_count: 0, legal_hold_count: 0, storage_efficiency: 0 }
    }
}

/// The outcome of a maintenance run.
#[derive(Clone, Copy, Debug, PartialEq, Eq, Structural)]
pub struct MaintenanceReport {
    pub timestamp: u64,
    pub bytes_compacted: u32,
    pub bytes_optimized: u32,
    pub integrity_validated: bool,
    pub snapshot: StorageSnapshot,
}

impl MaintenanceReport {
    /// A report of a run that has not done anything yet.
    pub fn new(timestamp: u64) -> (r: Self)
        ensures
            r == (MaintenanceReport {
                timestamp,
                bytes_compacted: 0,
                bytes_optimized: 0,
                integrity_validated: false,
                snapshot: StorageSnapshot { timestamp, lease_count: 0, tombstone_count: 0, legal_hold_count: 0, storage_efficiency: 0 },
            }),
    {
        MaintenanceReport {
            timestamp,
            bytes_compacted: 0,
            bytes_optimized: 0,
            integrity_validated: false,
            snapshot: StorageSnapshot::new(timestamp),
        }
    }
}

/// How efficiently storage is used, in percent or scores out of 100.
#[derive(Clone, Copy, Debug, PartialEq, Eq, Structural)]
pub struct StorageEfficiencyMetrics {
    pub timestamp: u64,
    pub compression_ratio: u32,
    pub space_savings_percentage: u32,
    pub optimization_rate: u32,
    pub storage_health_score: u32,
    pub rent_cost_efficiency: u32,
}

impl StorageEfficiencyMetrics {
    /// Metrics before anything is measured: full health and cost efficiency.
    pub fn new(timestamp: u64) -> (m: Self)
        ensures
            m == (StorageEfficiencyMetrics {
                timestamp,
                compression_ratio: 0,
                space_savings_percentage: 0,
                optimization_rate: 0,
                storage_health_score: 100,
                rent_cost_efficiency: 100,
            }),
    {
        StorageEfficiencyMetrics {
            timestamp,
            compression_ratio: 0,
            space_savings_percentage: 0,
            optimization_rate: 0,
            storage_health_score: 100,
            rent_cost_efficiency: 100,
        }
    }
}

/// Monthly storage cost now and after optimization.
#[derive(Clone, Copy, Debug, PartialEq, Eq, Structural)]
pub struct CostProjection {
    pub current_monthly_cost: u64,
    pub projected_monthly_after_optimization: u64,
    pub annual_savings_potential: u64,
    pub payback_period_months: u64,
}

impl CostProjection {
    /// A projection with every figure at zero.
    pub fn new() -> (p: Self)
        ensures
            p == (CostProjection {
                current_monthly_cost: 0,
                projected_monthly_after_optimization: 0,
                annual_savings_potential: 0,
                payback_period_months: 0,
            }),
    {
        CostProjection {
            current_monthly_cost: 0,
            projected_monthly_after_optimization: 0,
            annual_savings_potential: 0,
            payback_period_months: 0,
        }
    }
}

/// Estimated bytes held by each kind of entry.
#[derive(Clone, Copy, Debug, PartialEq, Eq, Structural)]
pub struct RentCostBreakdown {
    pub lease_instances: u64,
    pub tombstones: u64,
    pub legal_holds: u64,
    pub receipts: u64,
    pub usage_rights: u64,
}

/// What storage costs and what optimization saves.
#[derive(Clone, Copy, Debug, PartialEq, Eq, Structural)]
pub struct StorageCostAnalysis {
    pub timestamp: u64,
    pub current_monthly_cost: u64,
    pub projected_annual_cost: u64,
    pub savings_from_optimization: u64,
    pub cost_per_lease: u64,
    pub rent_cost_breakdown: RentCostBreakdown,
    pub optimization_roi: u32,
}

/// Signs of trouble in storage.
#[derive(Clone, Debug)]
pub struct StorageHealthIndicators {
    pub timestamp: u64,
    pub overall_health_score: u32,
    pub bloat_level: u32,
    pub fragmentation_score: u32,
    pub optimization_needed: bool,
    pub risk_factors: Vec<String>,
    pub performance_impact: u32,
}

#[derive(Clone, Copy, Debug, PartialEq, Eq, Structural)]
pub enum RecommendationPriority {
    Low,
    Medium,
    High,
    Critical,
}

#[derive(Clone, Copy, Debug, PartialEq, Eq, Structural)]
pub enum RecommendationCategory {
    Pruning,
    Optimization,
    Monitoring,
    CostReduction,
}

#[derive(Clone, Copy, Debug, PartialEq, Eq, Structural)]
pub enum ImplementationEffort {
    Low,
    Medium,
    High,
}

/// Advice on keeping storage down.
#[derive(Clone, Debug)]
pub struct StorageRecommendation {
    pub priority: RecommendationPriority,
    pub category: RecommendationCategory,
    pub title: String,
    pub description: String,
    pub action_items: Vec<String>,
    pub estimated_savings: u32,
    pub implementation_effort: ImplementationEffort,
}

/// Pruning results over a period.
#[derive(Clone, Copy, Debug, PartialEq, Eq, Structural)]
pub struct OptimizationPerformanceReport {
    pub period_start: u64,
    pub period_end: u64,
    pub leases_pruned: u64,
    pub bytes_recovered: u64,
    pub cost_savings: u64,
    pub efficiency_improvement: u32,
    pub error_rate: u32,
}

/// A full account of storage use.
#[derive(Clone, Debug)]
pub struct StorageAnalysisReport {
    pub timestamp: u64,
    pub metrics: StorageMetrics,
    pub statistics: StorageStatistics,
    pub efficiency: StorageEfficiencyMetrics,
    pub cost_projection: CostProjection,
    pub recommendations: Vec<StorageRecommendation>,
}

/// The kinds of key a lease's data is stored under.
#[derive(Clone, Copy, Debug, PartialEq, Eq, Structural)]
pub enum CleanupKeyKind {
    LeaseInstance,
    AuthorizedPayer,
    RoommateBalance,
    TenantFlag,
    LegalHold,
    LeaseTombstone,
    Receipt,
    UsageRights,
    Other,
}

/// Computes storage figures, costs and recommendations.
pub struct StorageMonitor;

/// Estimates storage sizes and plans removals.
pub struct SorobanStorageOptimizer;

/// Decides when maintenance runs and reports on it.
pub struct StorageMaintenance;

/// Estimated total bytes for the given counts of entries.
pub open spec fn total_bytes_spec(leases: u64, tombstones: u64, holds: u64, receipts: u64, rights: u64) -> int {
    leases * 512 + tombstones * 128 + holds * 128 + receipts * 96 + rights * 128
}

/// The health score: 100, less 20 above a megabyte (10 above half of one),
/// less 30 when leases are stored and tombstones are under a fifth of them
/// (15 under a half). Empty storage is fully healthy.
pub open spec fn health_score_spec(stats: StorageStatistics) -> u32 {
    let size_penalty: int = if stats.total_bytes > 1_000_000 { 20 } else if stats.total_bytes > 500_000 { 10 } else { 0 };
    let ratio: int = if stats.lease_instances > 0 { (stats.tombstones * 100) / (stats.lease_instances as int) } else { 0 };
    let pruning_penalty: int = if stats.lease_instances == 0 { 0 } else if ratio < 20 { 30 } else if ratio < 50 { 15 } else { 0 };
    (100 - size_penalty - pruning_penalty) as u32
}

/// What the health score charges for, with leases stored: nothing up to
/// 500 000 bytes, 10 points up to a million, 20 above; and 30 points when
/// tombstones are under 20% of the leases, 15 when they are at least 20% but
/// under 50%, nothing from 50% on.
pub proof fn lemma_health_score_penalties(stats: StorageStatistics)
    requires
        stats.lease_instances > 0,
    ensures
        ({
            let size_penalty: int = if stats.total_bytes > 1_000_000 { 20 } else if stats.total_bytes > 500_000 { 10 } else { 0 };
            let t = stats.tombstones as int * 100;
            let l = stats.lease_instances as int;
            &&& t < 20 * l ==> health_score_spec(stats) == 70 - size_penalty
            &&& 20 * l <= t < 50 * l ==> health_score_spec(stats) == 85 - size_penalty
            &&& t >= 50 * l ==> health_score_spec(stats) == 100 - size_penalty
        }),
{
    let t = stats.tombstones as int * 100;
    let l = stats.lease_instances as int;
    let ratio = t / l;
    assert(ratio < 20 <==> t < 20 * l) by (nonlinear_arith) requires l > 0, t >= 0, ratio == t / l;
    assert(ratio < 50 <==> t < 50 * l) by (nonlinear_arith) requires l > 0, t >= 0, ratio == t / l;
}

/// Cost efficiency by monthly cost (one unit per whole kilobyte): 100 under
/// 1000, 80 under 5000, 60 under 10000, else 40.
pub open spec fn rent_cost_efficiency_spec(total_bytes: u64) -> u32 {
    let cost = total_bytes / 1024;
    if cost < 1000 { 100 } else if cost < 5000 { 80 } else if cost < 10000 { 60 } else { 40 }
}

/// Bloat by the share of leases not yet reduced to tombstones: none above
/// 80%, 25 above 60%, else 50.
pub open spec fn bloat_level_spec(stats: StorageStatistics) -> u32 {
    let active_ratio: int = if stats.lease_instances > 0 {
        ((stats.lease_instances - stats.tombstones) * 100) / (stats.lease_instances as int)
    } else {
        100
    };
    if active_ratio > 80 { 0 } else if active_ratio > 60 { 25 } else { 50 }
}

/// A recommendation as plain values: priority, category, title,
/// description, action items, estimated saving and effort.
pub type RecommendationView = (RecommendationPriority, RecommendationCategory, Seq<char>, Seq<char>, Seq<Seq<char>>, u32, ImplementationEffort);

/// A recommendation's plain values.
pub open spec fn recommendation_view(r: StorageRecommendation) -> RecommendationView {
    (r.priority, r.category, r.title@, r.description@, r.action_items@.map_values(|a: String| a@),
        r.estimated_savings, r.implementation_effort)
}

/// The recommendations issued for the given figures, in order.
pub open spec fn recommendation_plan(stats: StorageStatistics, metrics: StorageMetrics) -> Seq<RecommendationView> {
    let a: Seq<RecommendationView> =
        if stats.lease_instances > 1000 {
            seq![(RecommendationPriority::High, RecommendationCategory::Pruning, "High Volume of Active Leases"@,
                "Consider pruning old terminated leases to reduce storage costs"@,
                seq!["Review leases older than 60 days"@, "Set up automated pruning schedule"@, "Monitor pruning effectiveness"@],
                (((stats.lease_instances - stats.tombstones) as u32) * 384) as u32, ImplementationEffort::Medium)]
        } else {
            seq![]
        };
    let b: Seq<RecommendationView> =
        if stats.tombstones > stats.lease_instances / 2 {
            seq![(RecommendationPriority::Medium, RecommendationCategory::Optimization, "High Tombstone Ratio"@,
                "Consider further optimization of tombstone storage"@,
                seq!["Analyze tombstone efficiency"@, "Consider tombstone compression"@, "Evaluate off-chain storage options"@],
                ((stats.tombstones * 64) as u32), ImplementationEffort::Low)]
        } else {
            seq![]
        };
    let c: Seq<RecommendationView> =
        if metrics.total_bytes_recovered < 10000 {
            seq![(RecommendationPriority::Low, RecommendationCategory::Monitoring, "Low Storage Recovery"@,
                "Storage optimization is underperforming"@,
                seq!["Review pruning criteria"@, "Check for legal holds blocking pruning"@, "Optimize pruning schedule"@],
                5000u32, ImplementationEffort::Low)]
        } else {
            seq![]
        };
    a + b + c
}

/// Whether the figures admit the arithmetic of the recommendations.
pub open spec fn recommendation_fits(stats: StorageStatistics) -> bool {
    &&& stats.lease_instances > 1000 ==> stats.tombstones <= stats.lease_instances
        && ((stats.lease_instances - stats.tombstones) as u32) * 384 <= u32::MAX
    &&& stats.tombstones * 64 <= u64::MAX
}

/// The size of each kind of key.
pub open spec fn key_size_spec(kind: CleanupKeyKind) -> u32 {
    match kind {
        CleanupKeyKind::LeaseInstance => 512,
        CleanupKeyKind::AuthorizedPayer => 64,
        CleanupKeyKind::RoommateBalance => 32,
        CleanupKeyKind::TenantFlag => 16,
        CleanupKeyKind::LegalHold => 128,
        CleanupKeyKind::LeaseTombstone => 128,
        CleanupKeyKind::Receipt => 96,
        CleanupKeyKind::UsageRights => 128,
        CleanupKeyKind::Other => 64,
    }
}

/// The number of legal holds among `expiries` that expired before `now`.
pub open spec fn expired_count(expiries: Seq<Option<u64>>, now: u64) -> nat
    decreases expiries.len(),
{
    if expiries.len() == 0 {
        0
    } else {
        expired_count(expiries.drop_last(), now) + match expiries.last() {
            Some(e) => if now > e { 1nat } else { 0nat },
            None => 0nat,
        }
    }
}

proof fn lemma_expired_count_bounded(expiries: Seq<Option<u64>>, now: u64)
    ensures
        expired_count(expiries, now) <= expiries.len(),
    decreases expiries.len(),
{
    if expiries.len() > 0 {
        lemma_expired_count_bounded(expiries.drop_last(), now);
    }
}


/// The risks storage shows, in order: high usage (over a million bytes),
/// many legal holds (over ten), low pruning efficiency (more than three
/// leases per tombstone).
pub open spec fn risk_factors_spec(stats: StorageStatistics) -> Seq<Seq<char>> {
    (if stats.total_bytes > 1_000_000 { seq!["High storage usage"@] } else { Seq::empty() })
        + (if stats.legal_holds > 10 { seq!["Multiple legal holds blocking optimization"@] } else { Seq::empty() })
        + (if stats.lease_instances > stats.tombstones * 3 { seq!["Low pruning efficiency"@] } else { Seq::empty() })
}

impl StorageMonitor {
    /// Percentage of the lease footprint left after tombstones are deducted
    /// (0 with no leases).
    pub fn calculate_compression_ratio(stats: &StorageStatistics) -> (r: u32)
        requires
            stats.lease_instances * 512 <= u64::MAX,
            stats.tombstones * 128 <= stats.lease_instances * 512,
            (stats.lease_instances * 512 - stats.tombstones * 128) * 100 <= u64::MAX,
        ensures
            stats.lease_instances > 0 ==> r == (stats.lease_instances * 512 - stats.tombstones * 128) * 100 / (stats.lease_instances * 512),
            stats.lease_instances == 0 ==> r == 0,
            r <= 100,
    {
        if stats.lease_instances > 0 {
            let base: u64 = stats.lease_instances * 512;
            let kept: u64 = base - stats.tombstones * 128;
            let q: u64 = (kept * 100) / base;
            assert(q <= 100) by (nonlinear_arith) requires q == (kept * 100) / (base as int), kept <= base, base > 0;
            q as u32
        } else {
            0
        }
    }

    /// Percentage of storage that is not tombstones (0 with empty storage).
    pub fn calculate_space_savings(stats: &StorageStatistics) -> (r: u32)
        requires
            stats.tombstones * 128 <= stats.total_bytes,
            stats.total_bytes * 100 <= u64::MAX,
        ensures
            stats.total_bytes > 0 ==> r == (stats.total_bytes - stats.tombstones * 128) * 100 / (stats.total_bytes as int),
            stats.total_bytes == 0 ==> r == 0,
            r <= 100,
    {
        if stats.total_bytes > 0 {
            let kept: u64 = stats.total_bytes - stats.tombstones * 128;
            assert(kept * 100 <= stats.total_bytes * 100) by (nonlinear_arith) requires kept <= stats.total_bytes;
            let q: u64 = (kept * 100) / stats.total_bytes;
            assert(q <= 100) by (nonlinear_arith) requires q == (kept * 100) / (stats.total_bytes as int), kept <= stats.total_bytes, stats.total_bytes > 0;
            q as u32
        } else {
            0
        }
    }

    /// Bytes recovered per pruned lease, as a percentage of a lease's 512
    /// bytes (kept to 32 bits).
    pub fn calculate_optimization_rate(metrics: &StorageMetrics) -> (r: u32)
        requires
            metrics.total_bytes_recovered * 100 <= u64::MAX,
            metrics.total_leases_pruned * 512 <= u64::MAX,
        ensures
            metrics.total_leases_pruned > 0 ==> r == ((metrics.total_bytes_recovered * 100 / (metrics.total_leases_pruned * 512)) as u32),
            metrics.total_leases_pruned == 0 ==> r == 0,
    {
        if metrics.total_leases_pruned > 0 {
            let q: u64 = (metrics.total_bytes_recovered * 100) / (metrics.total_leases_pruned * 512);
            q as u32
        } else {
            0
        }
    }

    /// The storage health score out of 100.
    pub fn calculate_storage_health_score(stats: &StorageStatistics) -> (r: u32)
        requires
            stats.tombstones * 100 <= u64::MAX,
        ensures
            r == health_score_spec(*stats),
            50 <= r <= 100,
    {
        let mut score: u32 = 100;
        if stats.total_bytes > 1_000_000 {
            score = score - 20;
        } else if stats.total_bytes > 500_000 {
            score = score - 10;
        }
        if stats.lease_instances > 0 {
            let optimization_ratio: u64 = (stats.tombstones * 100) / stats.lease_instances;
            if optimization_ratio < 20 {
                score = score - 30;
            } else if optimization_ratio < 50 {
                score = score - 15;
            }
        }
        score
    }

    /// The rent cost efficiency score.
    pub fn calculate_rent_cost_efficiency(stats: &StorageStatistics) -> (r: u32)
        ensures
            r == rent_cost_efficiency_spec(stats.total_bytes),
    {
        let total_cost: u64 = stats.total_bytes / 1024;
        if total_cost < 1000 {
            100
        } else if total_cost < 5000 {
            80
        } else if total_cost < 10000 {
            60
        } else {
            40
        }
    }

    /// Monthly cost: one unit per stored byte.
    pub fn estimate_monthly_cost(stats: &StorageStatistics) -> (c: u64)
        ensures
            c == stats.total_bytes,
    {
        stats.total_bytes
    }

    /// Annual cost: twelve months.
    pub fn estimate_annual_cost(stats: &StorageStatistics) -> (c: u64)
        requires
            stats.total_bytes * 12 <= u64::MAX,
        ensures
            c == stats.total_bytes * 12,
    {
        Self::estimate_monthly_cost(stats) * 12
    }

    /// Monthly saving from optimization: the bytes recovered (kept to 32
    /// bits) over 100.
    pub fn calculate_optimization_savings(metrics: &StorageMetrics) -> (s: u32)
        ensures
            s == (metrics.total_bytes_recovered as u32) / 100,
    {
        (metrics.total_bytes_recovered as u32) / 100
    }

    /// Bytes per lease (0 with no leases).
    pub fn calculate_cost_per_lease(stats: &StorageStatistics) -> (c: u64)
        ensures
            stats.lease_instances > 0 ==> c == stats.total_bytes / stats.lease_instances,
            stats.lease_instances == 0 ==> c == 0,
    {
        if stats.lease_instances > 0 {
            stats.total_bytes / stats.lease_instances
        } else {
            0
        }
    }

    /// Estimated bytes held by each kind of entry.
    pub fn get_rent_cost_breakdown(stats: &StorageStatistics) -> (b: RentCostBreakdown)
        requires
            stats.lease_instances * 512 <= u64::MAX,
            stats.tombstones * 128 <= u64::MAX,
            stats.legal_holds * 128 <= u64::MAX,
            stats.receipts * 96 <= u64::MAX,
            stats.usage_rights * 128 <= u64::MAX,
        ensures
            b == (RentCostBreakdown {
                lease_instances: (stats.lease_instances * 512) as u64,
                tombstones: (stats.tombstones * 128) as u64,
                legal_holds: (stats.legal_holds * 128) as u64,
                receipts: (stats.receipts * 96) as u64,
                usage_rights: (stats.usage_rights * 128) as u64,
            }),
    {
        RentCostBreakdown {
            lease_instances: stats.lease_instances * 512,
            tombstones: stats.tombstones * 128,
            legal_holds: stats.legal_holds * 128,
            receipts: stats.receipts * 96,
            usage_rights: stats.usage_rights * 128,
        }
    }

    /// Return on optimization in percent: recovered over recovered plus
    /// 10000 (0 with nothing recovered).
    pub fn calculate_optimization_roi(metrics: &StorageMetrics) -> (r: u32)
        requires
            metrics.total_bytes_recovered * 100 <= u64::MAX,
        ensures
            metrics.total_bytes_recovered > 0 ==> r == metrics.total_bytes_recovered * 100 / (metrics.total_bytes_recovered + 10000),
            metrics.total_bytes_recovered == 0 ==> r == 0,
            r < 100,
    {
        if metrics.total_bytes_recovered > 0 {
            let rec = metrics.total_bytes_recovered;
            let q: u64 = (rec * 100) / (rec + 10000);
            assert(q < 100) by (nonlinear_arith) requires q == (rec * 100) / (rec + 10000), rec > 0;
            q as u32
        } else {
            0
        }
    }

    /// Monthly cost now and after the optimization saving, the yearly saving
    /// and the months to repay an optimization effort of 1000.
    pub fn calculate_cost_projection(stats: &StorageStatistics, metrics: &StorageMetrics) -> (p: CostProjection)
        ensures
            p.current_monthly_cost == stats.total_bytes,
            p.projected_monthly_after_optimization == (if stats.total_bytes >= (metrics.total_bytes_recovered as u32) / 100 {
                stats.total_bytes - (metrics.total_bytes_recovered as u32) / 100
            } else {
                0
            }),
            p.annual_savings_potential == ((metrics.total_bytes_recovered as u32) / 100) * 12,
            p.payback_period_months == (if (metrics.total_bytes_recovered as u32) / 100 > 0 {
                (1000int / (((metrics.total_bytes_recovered as u32) / 100) as int)) as u64
            } else {
                u64::MAX
            }),
    {
        let current_monthly = Self::estimate_monthly_cost(stats);
        let savings = Self::calculate_optimization_savings(metrics);
        let savings64 = savings as u64;
        CostProjection {
            current_monthly_cost: current_monthly,
            projected_monthly_after_optimization: current_monthly.saturating_sub(savings64),
            annual_savings_potential: savings64 * 12,
            payback_period_months: if savings > 0 { 1000 / savings64 } else { u64::MAX },
        }
    }

    /// Bloat level: 0, 25 or 50.
    pub fn calculate_bloat_level(stats: &StorageStatistics) -> (r: u32)
        requires
            stats.tombstones <= stats.lease_instances,
            stats.lease_instances * 100 <= u64::MAX,
        ensures
            r == bloat_level_spec(*stats),
    {
        let active_ratio: u64 = if stats.lease_instances > 0 {
            assert((stats.lease_instances - stats.tombstones) * 100 <= stats.lease_instances * 100) by (nonlinear_arith)
                requires stats.tombstones <= stats.lease_instances;
            ((stats.lease_instances - stats.tombstones) * 100) / stats.lease_instances
        } else {
            100
        };
        if active_ratio > 80 {
            0
        } else if active_ratio > 60 {
            25
        } else {
            50
        }
    }

    /// Optimization is needed with over 100 leases and tombstones under half
    /// of them.
    pub fn is_optimization_needed(stats: &StorageStatistics) -> (b: bool)
        ensures
            b == (stats.lease_instances > 100 && stats.tombstones < stats.lease_instances / 2),
    {
        stats.lease_instances > 100 && stats.tombstones < stats.lease_instances / 2
    }

    /// The risks storage shows, in order: high usage, many legal holds, low
    /// pruning efficiency.
    pub fn identify_risk_factors(stats: &StorageStatistics) -> (v: Vec<String>)
        requires
            stats.tombstones * 3 <= u64::MAX,
        ensures
            v@.map_values(|r: String| r@) == risk_factors_spec(*stats),
    {
        let mut risks: Vec<String> = Vec::new();
        let ghost high: Seq<Seq<char>> = if stats.total_bytes > 1_000_000 { seq!["High storage usage"@] } else { Seq::empty() };
        let ghost holds: Seq<Seq<char>> = if stats.legal_holds > 10 { seq!["Multiple legal holds blocking optimization"@] } else { Seq::empty() };
        let ghost pruning: Seq<Seq<char>> = if stats.lease_instances > stats.tombstones * 3 { seq!["Low pruning efficiency"@] } else { Seq::empty() };
        if stats.total_bytes > 1_000_000 {
            risks.push("High storage usage".to_owned());
        }
        assert(risks@.map_values(|r: String| r@) =~= high);
        if stats.legal_holds > 10 {
            risks.push("Multiple legal holds blocking optimization".to_owned());
        }
        assert(risks@.map_values(|r: String| r@) =~= high + holds);
        if stats.lease_instances > stats.tombstones * 3 {
            risks.push("Low pruning efficiency".to_owned());
        }
        assert(risks@.map_values(|r: String| r@) =~= high + holds + pruning);
        risks
    }

    /// Performance impact of the storage size: 80, 50 or 20.
    pub fn assess_performance_impact(stats: &StorageStatistics) -> (r: u32)
        ensures
            r == (if stats.total_bytes > 2_000_000 { 80u32 } else if stats.total_bytes > 1_000_000 { 50u32 } else { 20u32 }),
    {
        if stats.total_bytes > 2_000_000 {
            80
        } else if stats.total_bytes > 1_000_000 {
            50
        } else {
            20
        }
    }

    /// Bytes saved by pruning every lease not yet reduced to a tombstone:
    /// 384 each (512 less the 128 of a tombstone).
    pub fn estimate_pruning_savings(stats: &StorageStatistics) -> (s: u32)
        requires
            stats.tombstones <= stats.lease_instances,
            ((stats.lease_instances - stats.tombstones) as u32) * 384 <= u32::MAX,
        ensures
            s == ((stats.lease_instances - stats.tombstones) as u32) * 384,
    {
        let prunable: u64 = stats.lease_instances - stats.tombstones;
        (prunable as u32) * 384
    }

    /// Storage efficiency measured at `now`.
    pub fn get_efficiency_metrics(stats: &StorageStatistics, metrics: &StorageMetrics, now: u64) -> (m: StorageEfficiencyMetrics)
        requires
            stats.lease_instances * 512 <= u64::MAX,
            stats.tombstones * 128 <= stats.lease_instances * 512,
            (stats.lease_instances * 512 - stats.tombstones * 128) * 100 <= u64::MAX,
            stats.tombstones * 128 <= stats.total_bytes,
            stats.total_bytes * 100 <= u64::MAX,
            stats.tombstones * 100 <= u64::MAX,
            metrics.total_bytes_recovered * 100 <= u64::MAX,
            metrics.total_leases_pruned * 512 <= u64::MAX,
        ensures
            m.timestamp == now,
            m.storage_health_score == health_score_spec(*stats),
            m.rent_cost_efficiency == rent_cost_efficiency_spec(stats.total_bytes),
            m.compression_ratio <= 100,
            m.space_savings_percentage <= 100,
    {
        StorageEfficiencyMetrics {
            timestamp: now,
            compression_ratio: Self::calculate_compression_ratio(stats),
            space_savings_percentage: Self::calculate_space_savings(stats),
            optimization_rate: Self::calculate_optimization_rate(metrics),
            storage_health_score: Self::calculate_storage_health_score(stats),
            rent_cost_efficiency: Self::calculate_rent_cost_efficiency(stats),
        }
    }

    /// Storage costs measured at `now`.
    pub fn get_cost_analysis(stats: &StorageStatistics, metrics: &StorageMetrics, now: u64) -> (a: StorageCostAnalysis)
        requires
            stats.total_bytes * 12 <= u64::MAX,
            stats.lease_instances * 512 <= u64::MAX,
            stats.tombstones * 128 <= u64::MAX,
            stats.legal_holds * 128 <= u64::MAX,
            stats.receipts * 96 <= u64::MAX,
            stats.usage_rights * 128 <= u64::MAX,
            metrics.total_bytes_recovered * 100 <= u64::MAX,
        ensures
            a.timestamp == now,
            a.current_monthly_cost == stats.total_bytes,
            a.projected_annual_cost == stats.total_bytes * 12,
            a.savings_from_optimization == (metrics.total_bytes_recovered as u32) / 100,
            stats.lease_instances > 0 ==> a.cost_per_lease == stats.total_bytes / stats.lease_instances,
            a.rent_cost_breakdown.lease_instances == stats.lease_instances * 512,
    {
        StorageCostAnalysis {
            timestamp: now,
            current_monthly_cost: Self::estimate_monthly_cost(stats),
            projected_annual_cost: Self::estimate_annual_cost(stats),
            savings_from_optimization: Self::calculate_optimization_savings(metrics) as u64,
            cost_per_lease: Self::calculate_cost_per_lease(stats),
            rent_cost_breakdown: Self::get_rent_cost_breakdown(stats),
            optimization_roi: Self::calculate_optimization_roi(metrics),
        }
    }

    /// Health indicators measured at `now`.
    pub fn get_health_indicators(stats: &StorageStatistics, now: u64) -> (h: StorageHealthIndicators)
        requires
            stats.tombstones <= stats.lease_instances,
            stats.lease_instances * 100 <= u64::MAX,
        ensures
            h.timestamp == now,
            h.overall_health_score == health_score_spec(*stats),
            h.bloat_level == bloat_level_spec(*stats),
            h.fragmentation_score == 10,
            h.optimization_needed == (stats.lease_instances > 100 && stats.tombstones < stats.lease_instances / 2),
            h.performance_impact == (if stats.total_bytes > 2_000_000 { 80u32 } else if stats.total_bytes > 1_000_000 { 50u32 } else { 20u32 }),
    {
        StorageHealthIndicators {
            timestamp: now,
            overall_health_score: Self::calculate_storage_health_score(stats),
            bloat_level: Self::calculate_bloat_level(stats),
            fragmentation_score: 10,
            optimization_needed: Self::is_optimization_needed(stats),
            risk_factors: Self::identify_risk_factors(stats),
            performance_impact: Self::assess_performance_impact(stats),
        }
    }

    /// Recommendations for the figures: prune when over 1000 leases are
    /// stored, compress tombstones when they outnumber half the leases, and
    /// review pruning when under 10000 bytes were recovered.
    pub fn generate_optimization_recommendations(stats: &StorageStatistics, metrics: &StorageMetrics) -> (v: Vec<StorageRecommendation>)
        requires
            recommendation_fits(*stats),
        ensures
            v@.map_values(|r: StorageRecommendation| recommendation_view(r)) == recommendation_plan(*stats, *metrics),
    {
        let ghost plan = recommendation_plan(*stats, *metrics);
        let ghost first: int = if stats.lease_instances > 1000 { 1 } else { 0 };
        let ghost second: int = first + if stats.tombstones > stats.lease_instances / 2 { 1int } else { 0 };
        let mut recs: Vec<StorageRecommendation> = Vec::new();
        if stats.lease_instances > 1000 {
            let savings = Self::estimate_pruning_savings(stats);
            let mut items: Vec<String> = Vec::new();
            items.push("Review leases older than 60 days".to_owned());
            items.push("Set up automated pruning schedule".to_owned());
            items.push("Monitor pruning effectiveness".to_owned());
            assert(items@.map_values(|a: String| a@) =~= seq!["Review leases older than 60 days"@, "Set up automated pruning schedule"@, "Monitor pruning effectiveness"@]);
            recs.push(StorageRecommendation {
                priority: RecommendationPriority::High,
                category: RecommendationCategory::Pruning,
                title: "High Volume of Active Leases".to_owned(),
                description: "Consider pruning old terminated leases to reduce storage costs".to_owned(),
                action_items: items,
                estimated_savings: savings,
                implementation_effort: ImplementationEffort::Medium,
            });
        }
        assert(recs@.map_values(|r: StorageRecommendation| recommendation_view(r)) =~= plan.take(first));
        if stats.tombstones > stats.lease_instances / 2 {
            let mut items: Vec<String> = Vec::new();
            items.push("Analyze tombstone efficiency".to_owned());
            items.push("Consider tombstone compression".to_owned());
            items.push("Evaluate off-chain storage options".to_owned());
            assert(items@.map_values(|a: String| a@) =~= seq!["Analyze tombstone efficiency"@, "Consider tombstone compression"@, "Evaluate off-chain storage options"@]);
            let savings: u64 = stats.tombstones * 64;
            recs.push(StorageRecommendation {
                priority: RecommendationPriority::Medium,
                category: RecommendationCategory::Optimization,
                title: "High Tombstone Ratio".to_owned(),
                description: "Consider further optimization of tombstone storage".to_owned(),
                action_items: items,
                estimated_savings: savings as u32,
                implementation_effort: ImplementationEffort::Low,
            });
        }
        assert(recs@.map_values(|r: StorageRecommendation| recommendation_view(r)) =~= plan.take(second));
        if metrics.total_bytes_recovered < 10000 {
            let mut items: Vec<String> = Vec::new();
            items.push("Review pruning criteria".to_owned());
            items.push("Check for legal holds blocking pruning".to_owned());
            items.push("Optimize pruning schedule".to_owned());
            assert(items@.map_values(|a: String| a@) =~= seq!["Review pruning criteria"@, "Check for legal holds blocking pruning"@, "Optimize pruning schedule"@]);
            recs.push(StorageRecommendation {
                priority: RecommendationPriority::Low,
                category: RecommendationCategory::Monitoring,
                title: "Low Storage Recovery".to_owned(),
                description: "Storage optimization is underperforming".to_owned(),
                action_items: items,
                estimated_savings: 5000,
                implementation_effort: ImplementationEffort::Low,
            });
        }
        assert(recs@.map_values(|r: StorageRecommendation| recommendation_view(r)) =~= plan);
        recs
    }

    /// A full storage report at `now`.
    pub fn get_storage_analysis(stats: &StorageStatistics, metrics: &StorageMetrics, now: u64) -> (r: StorageAnalysisReport)
        requires
            stats.lease_instances * 512 <= u64::MAX,
            stats.tombstones * 128 <= stats.lease_instances * 512,
            (stats.lease_instances * 512 - stats.tombstones * 128) * 100 <= u64::MAX,
            stats.tombstones * 128 <= stats.total_bytes,
            stats.total_bytes * 100 <= u64::MAX,
            stats.tombstones * 100 <= u64::MAX,
            metrics.total_bytes_recovered * 100 <= u64::MAX,
            metrics.total_leases_pruned * 512 <= u64::MAX,
            recommendation_fits(*stats),
        ensures
            r.timestamp == now,
            r.metrics == *metrics,
            r.statistics == *stats,
            r.efficiency.storage_health_score == health_score_spec(*stats),
            r.cost_projection.current_monthly_cost == stats.total_bytes,
            r.recommendations@.map_values(|x: StorageRecommendation| recommendation_view(x)) == recommendation_plan(*stats, *metrics),
    {
        StorageAnalysisReport {
            timestamp: now,
            metrics: *metrics,
            statistics: *stats,
            efficiency: Self::get_efficiency_metrics(stats, metrics, now),
            cost_projection: Self::calculate_cost_projection(stats, metrics),
            recommendations: Self::generate_optimization_recommendations(stats, metrics),
        }
    }

    /// Pruning results over the last `period_days` days up to `now`.
    pub fn track_optimization_performance(metrics: &StorageMetrics, period_days: u32, now: u64) -> (r: OptimizationPerformanceReport)
        requires
            period_days * 86400 <= now,
        ensures
            r == (OptimizationPerformanceReport {
                period_start: (now - period_days * 86400) as u64,
                period_end: now,
                leases_pruned: metrics.total_leases_pruned,
                bytes_recovered: metrics.total_bytes_recovered,
                cost_savings: 1000,
                efficiency_improvement: 25,
                error_rate: 1,
            }),
    {
        let start_time = now - (period_days as u64) * 86400;
        OptimizationPerformanceReport {
            period_start: start_time,
            period_end: now,
            leases_pruned: metrics.total_leases_pruned,
            bytes_recovered: metrics.total_bytes_recovered,
            cost_savings: 1000,
            efficiency_improvement: 25,
            error_rate: 1,
        }
    }
}

impl SorobanStorageOptimizer {
    /// Statistics for the given counts of stored entries, with their
    /// estimated total size.
    pub fn get_storage_statistics(leases: u64, tombstones: u64, legal_holds: u64, receipts: u64, usage_rights: u64) -> (s: StorageStatistics)
        requires
            total_bytes_spec(leases, tombstones, legal_holds, receipts, usage_rights) <= u64::MAX,
        ensures
            s == (StorageStatistics {
                lease_instances: leases,
                tombstones,
                legal_holds,
                receipts,
                usage_rights,
                total_bytes: total_bytes_spec(leases, tombstones, legal_holds, receipts, usage_rights) as u64,
                average_lease_size: 0,
            }),
    {
        let mut s = StorageStatistics::new();
        s.lease_instances = leases;
        s.tombstones = tombstones;
        s.legal_holds = legal_holds;
        s.receipts = receipts;
        s.usage_rights = usage_rights;
        s.total_bytes = leases * 512 + tombstones * 128 + legal_holds * 128 + receipts * 96 + usage_rights * 128;
        s
    }

    /// Estimated size of a stored lease: 1080 bytes when it exists (a base of
    /// 512, five arbitrators, four strings, eight optional fields and three
    /// vector entries), else nothing.
    pub fn estimate_lease_instance_size(exists: bool) -> (n: u32)
        ensures
            n == (if exists { 1080u32 } else { 0u32 }),
    {
        if exists {
            let base_size: u32 = 512;
            let arbitrator_size: u32 = 32;
            let string_size: u32 = 64;
            let optional_size: u32 = 16;
            let vector_size: u32 = 8;
            base_size + (5 * arbitrator_size) + (4 * string_size) + (8 * optional_size) + (3 * vector_size)
        } else {
            0
        }
    }

    /// Estimated size of an entry stored under a key of `kind`.
    pub fn estimate_key_size(kind: CleanupKeyKind) -> (n: u32)
        ensures
            n == key_size_spec(kind),
    {
        match kind {
            CleanupKeyKind::LeaseInstance => 512,
            CleanupKeyKind::AuthorizedPayer => 64,
            CleanupKeyKind::RoommateBalance => 32,
            CleanupKeyKind::TenantFlag => 16,
            CleanupKeyKind::LegalHold => 128,
            CleanupKeyKind::LeaseTombstone => 128,
            CleanupKeyKind::Receipt => 96,
            CleanupKeyKind::UsageRights => 128,
            CleanupKeyKind::Other => 64,
        }
    }

    /// The kinds of the keys that depend on a lease and go with it.
    pub fn get_lease_dependency_keys() -> (v: Vec<CleanupKeyKind>)
        ensures
            v@ == seq![CleanupKeyKind::AuthorizedPayer, CleanupKeyKind::RoommateBalance, CleanupKeyKind::TenantFlag],
    {
        let mut v: Vec<CleanupKeyKind> = Vec::new();
        v.push(CleanupKeyKind::AuthorizedPayer);
        v.push(CleanupKeyKind::RoommateBalance);
        v.push(CleanupKeyKind::TenantFlag);
        v
    }

    /// Bytes recovered by removing a lease with its dependent keys: the
    /// lease's estimated size plus the size of each dependent key.
    pub fn remove_lease_instance_with_dependencies(exists: bool) -> (n: u32)
        ensures
            n == (if exists { 1080u32 } else { 0u32 }) + 64 + 32 + 16,
    {
        let mut bytes: u32 = Self::estimate_lease_instance_size(exists);
        let deps = Self::get_lease_dependency_keys();
        let mut i: usize = 0;
        while i < deps.len()
            invariant
                deps@ == seq![CleanupKeyKind::AuthorizedPayer, CleanupKeyKind::RoommateBalance, CleanupKeyKind::TenantFlag],
                i <= deps@.len(),
                bytes == (if exists { 1080int } else { 0int })
                    + (if i > 0 { 64int } else { 0 }) + (if i > 1 { 32int } else { 0 }) + (if i > 2 { 16int } else { 0 }),
            decreases deps.len() - i,
        {
            bytes = bytes + Self::estimate_key_size(deps[i]);
            i = i + 1;
        }
        bytes
    }

    /// Bytes recovered by dropping the legal holds that expired before `now`
    /// (128 each), given the expiry of every hold.
    pub fn compact_storage(hold_expiries: &Vec<Option<u64>>, now: u64) -> (n: u64)
        requires
            hold_expiries@.len() * 128 <= u64::MAX,
        ensures
            n == expired_count(hold_expiries@, now) * 128,
    {
        let mut count: u64 = 0;
        let mut i: usize = 0;
        while i < hold_expiries.len()
            invariant
                i <= hold_expiries@.len(),
                hold_expiries@.len() * 128 <= u64::MAX,
                count == expired_count(hold_expiries@.subrange(0, i as int), now),
                count <= i,
            decreases hold_expiries.len() - i,
        {
            proof {
                let s = hold_expiries@.subrange(0, i as int + 1);
                assert(s.drop_last() == hold_expiries@.subrange(0, i as int));
                assert(s.last() == hold_expiries@[i as int]);
            }
            match hold_expiries[i] {
                Some(e) => {
                    if now > e {
                        count = count + 1;
                    }
                },
                None => {},
            }
            i = i + 1;
        }
        proof {
            assert(hold_expiries@.subrange(0, hold_expiries@.len() as int) == hold_expiries@);
        }
        assert(count * 128 <= u64::MAX) by (nonlinear_arith)
            requires count <= hold_expiries@.len(), hold_expiries@.len() * 128 <= u64::MAX;
        count * 128
    }

    /// A snapshot of storage at `now`: the counts and the percentage of
    /// storage taken by tombstones.
    pub fn create_storage_snapshot(stats: &StorageStatistics, now: u64) -> (s: StorageSnapshot)
        requires
            stats.tombstones * 128 <= stats.total_bytes,
            stats.total_bytes * 100 <= u64::MAX,
        ensures
            s.timestamp == now,
            s.lease_count == stats.lease_instances,
            s.tombstone_count == stats.tombstones,
            s.legal_hold_count == stats.legal_holds,
            stats.total_bytes > 0 ==> s.storage_efficiency == (stats.tombstones * 128) * 100 / (stats.total_bytes as int),
            stats.total_bytes == 0 ==> s.storage_efficiency == 0,
            s.storage_efficiency <= 100,
    {
        let mut snapshot = StorageSnapshot::new(now);
        snapshot.lease_count = stats.lease_instances;
        snapshot.tombstone_count = stats.tombstones;
        snapshot.legal_hold_count = stats.legal_holds;
        snapshot.storage_efficiency = if stats.total_bytes > 0 {
            let t: u64 = stats.tombstones * 128;
            assert(t * 100 <= stats.total_bytes * 100) by (nonlinear_arith) requires t <= stats.total_bytes;
            let q: u64 = (t * 100) / stats.total_bytes;
            assert(q <= 100) by (nonlinear_arith) requires q == (t * 100) / (stats.total_bytes as int), t <= stats.total_bytes, stats.total_bytes > 0;
            q as u32
        } else {
            0
        };
        snapshot
    }
}

impl StorageMaintenance {
    /// Maintenance is due when it never ran, or `interval_days` have passed
    /// since it last did.
    pub fn is_maintenance_due(last_maintenance: Option<u64>, interval_days: u32, now: u64) -> (b: bool)
        requires
            last_maintenance is Some ==> last_maintenance->0 + interval_days * 86400 <= u64::MAX,
        ensures
            b == match last_maintenance {
                Some(t) => now >= t + interval_days * 86400,
                None => true,
            },
    {
        let interval_seconds: u64 = (interval_days as u64) * 86400;
        match last_maintenance {
            Some(t) => now >= t + interval_seconds,
            None => true,
        }
    }

    /// The report of a maintenance run at `now`: what compaction recovered,
    /// compaction again as part of the layout optimization, integrity checked
    /// and a snapshot taken.
    pub fn perform_maintenance(stats: &StorageStatistics, hold_expiries: &Vec<Option<u64>>, now: u64) -> (r: MaintenanceReport)
        requires
            hold_expiries@.len() * 128 <= u32::MAX,
            stats.tombstones * 128 <= stats.total_bytes,
            stats.total_bytes * 100 <= u64::MAX,
        ensures
            r.timestamp == now,
            r.bytes_compacted == expired_count(hold_expiries@, now) * 128,
            r.bytes_optimized == r.bytes_compacted,
            r.integrity_validated,
            r.snapshot.timestamp == now,
            r.snapshot.lease_count == stats.lease_instances,
    {
        let mut report = MaintenanceReport::new(now);
        let compacted = SorobanStorageOptimizer::compact_storage(hold_expiries, now);
        proof {
            lemma_expired_count_bounded(hold_expiries@, now);
        }
        assert(compacted <= u32::MAX) by (nonlinear_arith)
            requires compacted == expired_count(hold_expiries@, now) * 128,
                expired_count(hold_expiries@, now) <= hold_expiries@.len(),
                hold_expiries@.len() * 128 <= u32::MAX;
        report.bytes_compacted = compacted as u32;
        let optimized = SorobanStorageOptimizer::compact_storage(hold_expiries, now);
        report.bytes_optimized = optimized as u32;
        report.integrity_validated = true;
        report.snapshot = SorobanStorageOptimizer::create_storage_snapshot(stats, now);
        report
    }
}

} // verus!
