use leaseflow::monitor::{
    CleanupKeyKind, CostProjection, ImplementationEffort, MaintenanceReport, RecommendationCategory, RecommendationPriority,
    SorobanStorageOptimizer, StorageEfficiencyMetrics, StorageMaintenance, StorageMonitor, StorageSnapshot, StorageStatistics,
};
use leaseflow::storage::StorageMetrics;

const NOW: u64 = 1_700_000_000;

fn stats(leases: u64, tombstones: u64, holds: u64, receipts: u64, rights: u64) -> StorageStatistics {
    SorobanStorageOptimizer::get_storage_statistics(leases, tombstones, holds, receipts, rights)
}

fn metrics(pruned: u64, recovered: u64) -> StorageMetrics {
    let mut m = StorageMetrics::new();
    m.total_leases_pruned = pruned;
    m.total_bytes_recovered = recovered;
    m
}

#[test]
fn test_storage_analysis_report() {
    let report = StorageMonitor::get_storage_analysis(&StorageStatistics::new(), &StorageMetrics::new(), NOW);
    assert!(report.timestamp > 0);
    assert_eq!(report.metrics.total_leases_pruned, 0);
    assert_eq!(report.statistics.lease_instances, 0);
    assert_eq!(report.efficiency.compression_ratio, 0);
}

#[test]
fn test_efficiency_metrics() {
    let m = StorageMonitor::get_efficiency_metrics(&StorageStatistics::new(), &StorageMetrics::new(), NOW);
    assert!(m.timestamp > 0);
    assert_eq!(m.compression_ratio, 0);
    assert_eq!(m.space_savings_percentage, 0);
    assert_eq!(m.optimization_rate, 0);
    assert_eq!(m.storage_health_score, 100);
}

#[test]
fn test_cost_analysis() {
    let analysis = StorageMonitor::get_cost_analysis(&StorageStatistics::new(), &StorageMetrics::new(), NOW);
    assert!(analysis.timestamp > 0);
    assert_eq!(analysis.current_monthly_cost, 0);
    assert_eq!(analysis.projected_annual_cost, 0);
    assert_eq!(analysis.savings_from_optimization, 0);
}

#[test]
fn test_health_indicators() {
    let indicators = StorageMonitor::get_health_indicators(&StorageStatistics::new(), NOW);
    assert!(indicators.timestamp > 0);
    assert_eq!(indicators.overall_health_score, 100);
    assert_eq!(indicators.bloat_level, 0);
    assert!(!indicators.optimization_needed);
}

#[test]
fn test_recommendations() {
    let recommendations = StorageMonitor::generate_optimization_recommendations(&StorageStatistics::new(), &StorageMetrics::new());
    assert!(recommendations.len() > 0);
    assert_eq!(recommendations.len(), 1);
    assert_eq!(recommendations[0].priority, RecommendationPriority::Low);
    assert_eq!(recommendations[0].category, RecommendationCategory::Monitoring);
    assert_eq!(recommendations[0].title, "Low Storage Recovery");
    assert_eq!(recommendations[0].estimated_savings, 5000);
}

#[test]
fn test_performance_tracking() {
    let report = StorageMonitor::track_optimization_performance(&StorageMetrics::new(), 30, NOW);
    assert!(report.period_start > 0);
    assert!(report.period_end > report.period_start);
    assert_eq!(report.leases_pruned, 0);
    assert_eq!(report.bytes_recovered, 0);
    assert_eq!(report.period_end - report.period_start, 30 * 86400);
}

#[test]
fn test_storage_size_estimation() {
    assert_eq!(SorobanStorageOptimizer::estimate_lease_instance_size(false), 0);
    assert_eq!(SorobanStorageOptimizer::estimate_lease_instance_size(true), 1080);
    assert!(SorobanStorageOptimizer::estimate_key_size(CleanupKeyKind::LeaseInstance) > 0);
    assert_eq!(SorobanStorageOptimizer::estimate_key_size(CleanupKeyKind::Receipt), 96);
    assert_eq!(SorobanStorageOptimizer::estimate_key_size(CleanupKeyKind::Other), 64);
    assert_eq!(SorobanStorageOptimizer::remove_lease_instance_with_dependencies(true), 1080 + 112);
    assert_eq!(SorobanStorageOptimizer::remove_lease_instance_with_dependencies(false), 112);
    assert_eq!(SorobanStorageOptimizer::get_lease_dependency_keys().len(), 3);
}

#[test]
fn test_storage_statistics() {
    let empty = stats(0, 0, 0, 0, 0);
    assert_eq!(empty.lease_instances, 0);
    assert_eq!(empty.tombstones, 0);
    assert_eq!(empty.total_bytes, 0);
    let s = stats(2, 1, 1, 3, 1);
    assert_eq!(s.total_bytes, 2 * 512 + 128 + 128 + 3 * 96 + 128);
}

#[test]
fn test_storage_snapshot() {
    let snapshot = SorobanStorageOptimizer::create_storage_snapshot(&StorageStatistics::new(), NOW);
    assert!(snapshot.timestamp > 0);
    assert_eq!(snapshot.lease_count, 0);
    assert_eq!(snapshot.tombstone_count, 0);
    let s = stats(1, 4, 0, 0, 0);
    let snap = SorobanStorageOptimizer::create_storage_snapshot(&s, NOW);
    assert_eq!(snap.storage_efficiency, 50);
    assert_eq!(StorageSnapshot::new(5).timestamp, 5);
}

#[test]
fn test_maintenance_report() {
    let expiries = vec![Some(NOW - 1), None, Some(NOW + 1), Some(NOW - 100)];
    let report = StorageMaintenance::perform_maintenance(&StorageStatistics::new(), &expiries, NOW);
    assert!(report.timestamp > 0);
    assert!(report.integrity_validated);
    assert_eq!(report.bytes_compacted, 256);
    assert_eq!(report.bytes_optimized, 256);
    assert_eq!(SorobanStorageOptimizer::compact_storage(&expiries, NOW), 256);
    assert!(!MaintenanceReport::new(NOW).integrity_validated);
}

#[test]
fn test_maintenance_schedule() {
    assert!(StorageMaintenance::is_maintenance_due(None, 7, NOW));
    assert!(!StorageMaintenance::is_maintenance_due(Some(NOW - 86400), 7, NOW));
    assert!(StorageMaintenance::is_maintenance_due(Some(NOW - 7 * 86400), 7, NOW));
}

#[test]
fn test_ratio_formulas() {
    let s = stats(10, 5, 0, 0, 0);
    // 5120 bytes of leases, 640 of tombstones: (5120 - 640) * 100 / 5120 = 87.
    assert_eq!(StorageMonitor::calculate_compression_ratio(&s), 87);
    // total 5760: (5760 - 640) * 100 / 5760 = 88.
    assert_eq!(StorageMonitor::calculate_space_savings(&s), 88);
    assert_eq!(StorageMonitor::calculate_optimization_rate(&metrics(2, 512)), 50);
    assert_eq!(StorageMonitor::calculate_optimization_rate(&metrics(0, 512)), 0);
    // tombstones are half the leases: no pruning penalty.
    assert_eq!(StorageMonitor::calculate_storage_health_score(&s), 100);
    // 1 tombstone in 10 leases and over a megabyte: 100 - 20 - 30.
    let big = StorageStatistics { total_bytes: 2_000_000, ..stats(10, 1, 0, 0, 0) };
    assert_eq!(StorageMonitor::calculate_storage_health_score(&big), 50);
    assert_eq!(StorageMonitor::calculate_rent_cost_efficiency(&big), 80);
    assert_eq!(StorageMonitor::assess_performance_impact(&big), 50);
    assert_eq!(StorageMonitor::calculate_bloat_level(&big), 0);
    assert_eq!(StorageMonitor::calculate_bloat_level(&stats(10, 5, 0, 0, 0)), 50);
    assert_eq!(StorageMonitor::calculate_bloat_level(&stats(10, 3, 0, 0, 0)), 25);
    assert_eq!(StorageMonitor::calculate_optimization_roi(&metrics(1, 10000)), 50);
    assert_eq!(StorageMonitor::calculate_optimization_savings(&metrics(1, 12345)), 123);
    assert_eq!(StorageMonitor::calculate_cost_per_lease(&s), 576);
    assert_eq!(StorageMonitor::estimate_annual_cost(&s), 5760 * 12);
    assert_eq!(StorageMonitor::estimate_pruning_savings(&s), 5 * 384);
    let b = StorageMonitor::get_rent_cost_breakdown(&stats(1, 2, 3, 4, 5));
    assert_eq!((b.lease_instances, b.tombstones, b.legal_holds, b.receipts, b.usage_rights), (512, 256, 384, 384, 640));
}

#[test]
fn test_cost_projection_and_risks() {
    let s = stats(200, 10, 11, 0, 0);
    let p = StorageMonitor::calculate_cost_projection(&s, &metrics(1, 10000));
    assert_eq!(p.current_monthly_cost, s.total_bytes);
    assert_eq!(p.projected_monthly_after_optimization, s.total_bytes - 100);
    assert_eq!(p.annual_savings_potential, 1200);
    assert_eq!(p.payback_period_months, 10);
    let none = StorageMonitor::calculate_cost_projection(&s, &StorageMetrics::new());
    assert_eq!(none.payback_period_months, u64::MAX);
    assert_eq!(CostProjection::new().current_monthly_cost, 0);
    let risks = StorageMonitor::identify_risk_factors(&s);
    assert_eq!(risks, vec![String::from("Multiple legal holds blocking optimization"), String::from("Low pruning efficiency")]);
    assert!(StorageMonitor::is_optimization_needed(&s));
    assert_eq!(StorageEfficiencyMetrics::new(NOW).storage_health_score, 100);
}

#[test]
fn test_all_recommendations() {
    let s = stats(2000, 1500, 0, 0, 0);
    let recs = StorageMonitor::generate_optimization_recommendations(&s, &metrics(1, 50000));
    assert_eq!(recs.len(), 2);
    assert_eq!(recs[0].priority, RecommendationPriority::High);
    assert_eq!(recs[0].category, RecommendationCategory::Pruning);
    assert_eq!(recs[0].estimated_savings, 500 * 384);
    assert_eq!(recs[0].implementation_effort, ImplementationEffort::Medium);
    assert_eq!(recs[0].action_items.len(), 3);
    assert_eq!(recs[1].title, "High Tombstone Ratio");
    assert_eq!(recs[1].estimated_savings, 1500 * 64);
}
