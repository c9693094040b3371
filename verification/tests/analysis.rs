use edu_contracts::diagnostics::behavior_analyzer::{BehaviorAnalyzer, BehaviorPattern, InteractionType, UserInteraction};
use edu_contracts::diagnostics::distributed_tracer::{DistributedTracer, TraceSpan};
use edu_contracts::diagnostics::errors::DiagnosticsError;
use edu_contracts::diagnostics::improvement_plans::{ImprovementPlan, ImplementationPhase};
use edu_contracts::diagnostics::optimization_engine::OptimizationEngine;
use edu_contracts::diagnostics::predictive_engine::{
    BottleneckPrediction, LoadPrediction, LoadTrend, PredictiveEngine, ResourceTrend,
};
use edu_contracts::diagnostics::storage::DiagnosticsStorage;
use edu_contracts::diagnostics::tracing::TraceStore;
use edu_contracts::diagnostics::types::{
    BottleneckType, Complexity, EffectivenessTrend, EngagementMetrics, ImpactEstimate, ImpactLevel,
    ImplementationEffort, LearningEffectiveness, OptimizationCategory, OptimizationRecommendation, OptimizationType,
    PatternType, PerformanceMetrics, Priority, RiskLevel, RiskType, SavingsEstimate,
};

const CONTRACT: &str = "CANALYSED";
const LEARNER: &str = "GLEARNER";

fn sample(timestamp: u64, transactions: u32, memory: u32) -> PerformanceMetrics {
    PerformanceMetrics {
        timestamp,
        contract_address: CONTRACT.to_string(),
        execution_time: 200,
        gas_used: 500_000,
        memory_usage: memory,
        storage_reads: 3,
        storage_writes: 1,
        cpu_utilization: 40,
        cpu_instructions: 1_000,
        transaction_count: transactions,
        error_count: 0,
        error_rate: 1,
        average_execution_time: 200,
        average_response_time: 100,
        network_bandwidth: 0,
        gas_consumption: 0,
        storage_usage: 0,
        peak_memory_usage: 0,
        network_latency: 30,
    }
}

#[test]
fn load_trend_follows_the_thirds() {
    let rising: Vec<_> = [10, 10, 20, 20, 30, 30].iter().map(|t| sample(0, *t, 1)).collect();
    assert_eq!(PredictiveEngine::analyze_load_trend(&rising), LoadTrend::Increasing);
    let falling: Vec<_> = [30, 30, 20, 20, 10, 10].iter().map(|t| sample(0, *t, 1)).collect();
    assert_eq!(PredictiveEngine::analyze_load_trend(&falling), LoadTrend::Decreasing);
    let jumpy: Vec<_> = [10, 10, 50, 50, 20, 20].iter().map(|t| sample(0, *t, 1)).collect();
    assert_eq!(PredictiveEngine::analyze_load_trend(&jumpy), LoadTrend::Volatile);
    let flat: Vec<_> = [10, 10, 10].iter().map(|t| sample(0, *t, 1)).collect();
    assert_eq!(PredictiveEngine::analyze_load_trend(&flat), LoadTrend::Stable);
    assert_eq!(PredictiveEngine::analyze_load_trend(&rising[..2].to_vec()), LoadTrend::Stable);
}

#[test]
fn memory_trend_uses_a_ten_percent_margin() {
    let up: Vec<_> = [100, 100, 120, 120].iter().map(|m| sample(0, 1, *m)).collect();
    assert_eq!(PredictiveEngine::analyze_resource_trend(&up), ResourceTrend::Increasing);
    let down: Vec<_> = [100, 100, 80, 80].iter().map(|m| sample(0, 1, *m)).collect();
    assert_eq!(PredictiveEngine::analyze_resource_trend(&down), ResourceTrend::Decreasing);
    let edge: Vec<_> = [100, 100, 110, 110].iter().map(|m| sample(0, 1, *m)).collect();
    assert_eq!(PredictiveEngine::analyze_resource_trend(&edge), ResourceTrend::Stable);
    assert_eq!(PredictiveEngine::calculate_average_memory(&up), 110);
}

#[test]
fn averages_and_peaks() {
    let data: Vec<_> = [(1, 10), (2, 10), (3, 40)].iter().map(|(t, x)| sample(*t, *x, 1)).collect();
    assert_eq!(PredictiveEngine::calculate_average_transactions_per_hour(&data), 20);
    assert_eq!(PredictiveEngine::calculate_average_storage_usage(&data), 4);
    assert_eq!(PredictiveEngine::identify_peak_load_times(&data), vec![3]);
}

#[test]
fn capacity_advice_follows_risk_and_bottlenecks() {
    let load = LoadPrediction {
        predicted_tx_per_hour: 0,
        predicted_gas_usage: 0,
        predicted_storage_growth: 0,
        peak_load_times: Vec::new(),
        resource_saturation_risk: RiskLevel::Critical,
        predicted_tx_hourly: 0,
    };
    let b = |t| BottleneckPrediction {
        bottleneck_type: t,
        severity: RiskLevel::Medium,
        estimated_impact: Vec::new(),
        recommended_actions: Vec::new(),
        estimated_occurrence_time: 0,
    };
    let advice = PredictiveEngine::generate_capacity_recommendations(
        &load,
        &vec![b(BottleneckType::Gas), b(BottleneckType::Network), b(BottleneckType::CPU)],
    );
    assert_eq!(
        advice,
        vec![
            b"Consider horizontal scaling to handle increased load".to_vec(),
            b"Implement load balancing strategies".to_vec(),
            b"Implement gas optimization techniques".to_vec(),
            b"Optimize computational algorithms".to_vec(),
        ]
    );
}

#[test]
fn scaling_needs_a_recent_sample() {
    let st = DiagnosticsStorage::new();
    let r = PredictiveEngine::predict_scaling_requirements(&st, &CONTRACT.to_string(), 50, 10_000);
    assert_eq!(r.unwrap_err(), DiagnosticsError::MetricsNotFound);
}

#[test]
fn scaling_projects_the_latest_sample() {
    let mut st = DiagnosticsStorage::new();
    let mut m = sample(9_000, 10, 1_000);
    m.cpu_utilization = 90;
    st.store_performance_metrics(CONTRACT.to_string(), m);
    let p = PredictiveEngine::predict_scaling_requirements(&st, &CONTRACT.to_string(), 50, 10_000).unwrap();
    assert_eq!(p.predicted_gas_usage, 750_000);
    assert_eq!(p.predicted_memory_usage, 1_500);
    assert_eq!(p.predicted_execution_time, 300);
    assert_eq!(p.estimated_cost_increase, 50);
    assert_eq!(p.scaling_bottlenecks.len(), 1);
    assert_eq!(p.scaling_bottlenecks[0].severity, RiskLevel::Critical);
    assert_eq!(p.scaling_bottlenecks[0].projected_utilization, 140);
    assert_eq!(p.scaling_recommendations.len(), 2);
}

#[test]
fn history_is_read_hour_by_hour_newest_first() {
    let mut st = DiagnosticsStorage::new();
    let now = 100_000u64;
    st.store_performance_metrics(CONTRACT.to_string(), sample(now - 7_200, 1, 1));
    st.store_performance_metrics(CONTRACT.to_string(), sample(now, 2, 1));
    st.store_performance_metrics(CONTRACT.to_string(), sample(now - 100, 3, 1));
    let h = PredictiveEngine::gather_historical_data(&st, &CONTRACT.to_string(), now).unwrap();
    assert_eq!(h.iter().map(|m| m.transaction_count).collect::<Vec<_>>(), vec![2, 1]);
    let empty = PredictiveEngine::gather_historical_data(&DiagnosticsStorage::new(), &CONTRACT.to_string(), now);
    assert_eq!(empty.unwrap_err(), DiagnosticsError::InsufficientDataForPrediction);
}

fn interaction(timestamp: u64, kind: InteractionType, duration: u64, score: Option<u32>) -> UserInteraction {
    UserInteraction {
        user: LEARNER.to_string(),
        timestamp,
        interaction_type: kind,
        duration,
        success: true,
        content_id: b"c".to_vec(),
        score,
    }
}

#[test]
fn sampled_interactions_cycle_through_kinds() {
    let v = BehaviorAnalyzer::gather_user_interaction_data(&LEARNER.to_string(), 1_000, 5_000).unwrap();
    assert_eq!(v.len(), 10);
    assert_eq!(v[0].timestamp, 4_000);
    assert_eq!(v[9].timestamp, 4_900);
    assert_eq!(v[0].interaction_type, InteractionType::Login);
    assert_eq!(v[4].interaction_type, InteractionType::ContentView);
    assert_eq!(v[5].interaction_type, InteractionType::Assessment);
    assert_eq!(v[5].score, Some(75));
    assert_eq!(v[8].score, Some(90));
    assert!(!v[4].success && v[5].success);
    assert_eq!(v[3].duration, 600);
}

#[test]
fn scores_measure_retention_skill_and_trend() {
    let scored = |s: &[u32]| -> Vec<UserInteraction> {
        s.iter().enumerate().map(|(i, x)| interaction(i as u64, InteractionType::Assessment, 60, Some(*x))).collect()
    };
    assert_eq!(BehaviorAnalyzer::estimate_knowledge_retention(&scored(&[60, 80])), 70);
    assert_eq!(BehaviorAnalyzer::estimate_knowledge_retention(&Vec::new()), 50);
    assert_eq!(BehaviorAnalyzer::assess_skill_acquisition(&scored(&[50, 50, 60, 80])), 40);
    assert_eq!(BehaviorAnalyzer::assess_skill_acquisition(&scored(&[80, 60])), 50);
    assert_eq!(
        BehaviorAnalyzer::determine_effectiveness_trend(&scored(&[50, 60, 70])),
        EffectivenessTrend::Improving
    );
    assert_eq!(
        BehaviorAnalyzer::determine_effectiveness_trend(&scored(&[70, 60, 50])),
        EffectivenessTrend::Declining
    );
    assert_eq!(
        BehaviorAnalyzer::determine_effectiveness_trend(&scored(&[60, 60, 64])),
        EffectivenessTrend::Stable
    );
    assert_eq!(
        BehaviorAnalyzer::determine_effectiveness_trend(&scored(&[60, 60])),
        EffectivenessTrend::Inconsistent
    );
}

#[test]
fn engagement_from_logins_and_durations() {
    let day = 86_400u64;
    let v = vec![
        interaction(0, InteractionType::Login, 1_200, None),
        interaction(day, InteractionType::ContentView, 1_200, None),
        interaction(3 * day, InteractionType::Login, 1_200, None),
        interaction(4 * day, InteractionType::Assessment, 1_200, Some(80)),
    ];
    assert_eq!(BehaviorAnalyzer::calculate_daily_active_time(&v), 20);
    assert_eq!(BehaviorAnalyzer::calculate_return_rate(&v), 80);
    let e = BehaviorAnalyzer::calculate_engagement_metrics(&v);
    assert_eq!(e.daily_active_time, 20);
    assert_eq!(e.content_interaction_rate, 25);
    assert_eq!(e.return_rate, 80);
    let c = BehaviorAnalyzer::analyze_content_consumption(&v);
    assert_eq!(c.frequency, 1);
    assert_eq!(c.impact_on_learning, ImpactLevel::Negative);
    let p = BehaviorAnalyzer::analyze_progress_pacing(&v);
    assert_eq!(p.pattern_type, PatternType::ProgressPacing);
    assert_eq!(p.frequency, 0);
}

#[test]
fn plateaus_and_risks() {
    assert!(BehaviorAnalyzer::is_plateau_detected(&vec![10, 70, 71, 72]));
    assert!(!BehaviorAnalyzer::is_plateau_detected(&vec![70, 75, 80]));
    assert!(!BehaviorAnalyzer::is_plateau_detected(&vec![70, 70]));
    let v = vec![
        interaction(0, InteractionType::Assessment, 60, Some(70)),
        interaction(1, InteractionType::Assessment, 60, Some(71)),
        interaction(2, InteractionType::Assessment, 60, Some(70)),
    ];
    let quiet = EngagementMetrics {
        daily_active_time: 10,
        session_frequency: 1,
        content_interaction_rate: 0,
        completion_velocity: 0,
        return_rate: 0,
    };
    let risks = BehaviorAnalyzer::identify_risk_indicators(&v, &quiet);
    assert_eq!(risks.len(), 2);
    assert_eq!(risks[0].risk_type, RiskType::Dropout);
    assert_eq!(risks[1].risk_type, RiskType::LearningPlateau);
    assert_eq!(risks[1].probability, 60);
}

#[test]
fn suggestions_follow_engagement_effectiveness_and_patterns() {
    let engagement = EngagementMetrics {
        daily_active_time: 45,
        session_frequency: 1,
        content_interaction_rate: 0,
        completion_velocity: 0,
        return_rate: 0,
    };
    let effectiveness = LearningEffectiveness {
        completion_rate: 90,
        knowledge_retention: 50,
        skill_acquisition: 0,
        engagement_score: 0,
        effectiveness_trend: EffectivenessTrend::Stable,
    };
    let pattern = |t, confidence, impact| BehaviorPattern {
        pattern_type: t,
        frequency: 0,
        confidence,
        impact_on_learning: impact,
        description: Vec::new(),
    };
    let s = BehaviorAnalyzer::generate_optimization_suggestions(
        &vec![
            pattern(PatternType::LoginTiming, 85, ImpactLevel::Positive),
            pattern(PatternType::SessionDuration, 50, ImpactLevel::Negative),
        ],
        &effectiveness,
        &engagement,
    );
    assert_eq!(
        s,
        vec![
            b"Increase learning session frequency for better retention".to_vec(),
            b"Implement spaced repetition for better retention".to_vec(),
            b"Maintain consistent learning schedule".to_vec(),
            b"Optimize session duration for better learning outcomes".to_vec(),
        ]
    );
}

#[test]
fn no_partners_are_known() {
    let r = BehaviorAnalyzer::analyze_collaborative_opportunities(&LEARNER.to_string(), 30 * 86_400).unwrap();
    assert!(r.is_empty());
    let p = BehaviorAnalyzer::analyze_learning_path_effectiveness(
        &LEARNER.to_string(),
        &vec![b"intro".to_vec()],
        31 * 86_400,
    )
    .unwrap();
    assert_eq!(p.overall_effectiveness, 75);
    assert_eq!(p.course_path, vec![b"intro".to_vec()]);
}

fn rec(priority: Priority, complexity: Complexity, performance: u32, daily: u64) -> OptimizationRecommendation {
    OptimizationRecommendation {
        recommendation_id: [1u8; 32],
        category: OptimizationCategory::Gas,
        priority,
        description: b"d".to_vec(),
        expected_impact: ImpactEstimate {
            performance_improvement: performance,
            cost_reduction: 50,
            user_experience_improvement: 10,
            reliability_improvement: 60,
        },
        implementation_complexity: complexity,
        estimated_savings: SavingsEstimate {
            daily_cost_savings: daily,
            monthly_cost_savings: daily * 30,
            annual_cost_savings: daily * 365,
            performance_gains: 60,
        },
        implementation_steps: Vec::new(),
        contract_address: CONTRACT.to_string(),
        optimization_type: OptimizationType::Gas,
        title: b"t".to_vec(),
        expected_improvement: 0,
        estimated_effort: ImplementationEffort::Low,
        cost_savings: 0,
        automated_fix_available: false,
        monitoring_metrics: Vec::new(),
    }
}

#[test]
fn selection_stops_once_the_target_is_met() {
    let recs = vec![
        rec(Priority::High, Complexity::Low, 20, 1),
        rec(Priority::Low, Complexity::Complex, 20, 2),
        rec(Priority::Medium, Complexity::Simple, 20, 3),
    ];
    assert_eq!(OptimizationEngine::select_recommendations_for_target(&recs, 30).len(), 2);
    assert_eq!(OptimizationEngine::select_recommendations_for_target(&recs, 0).len(), 0);
    assert_eq!(OptimizationEngine::select_recommendations_for_target(&recs, 100).len(), 3);
    let (impact, days) = OptimizationEngine::calculate_plan_impact(&recs);
    assert_eq!(impact.performance_improvement, 60);
    assert_eq!(impact.cost_reduction, 80);
    assert_eq!(impact.user_experience_improvement, 30);
    assert_eq!(impact.reliability_improvement, 95);
    assert_eq!(days, 42);
    let savings = OptimizationEngine::calculate_total_savings(&recs);
    assert_eq!(savings.daily_cost_savings, 6);
    assert_eq!(savings.monthly_cost_savings, 180);
    assert_eq!(savings.performance_gains, 100);
}

#[test]
fn phases_group_by_priority() {
    let recs = vec![
        rec(Priority::Low, Complexity::Low, 1, 1),
        rec(Priority::Critical, Complexity::Low, 1, 1),
        rec(Priority::High, Complexity::Low, 1, 1),
    ];
    let phases: Vec<ImplementationPhase> = OptimizationEngine::create_implementation_phases(&recs);
    assert_eq!(phases.len(), 2);
    assert_eq!(phases[0].phase_number, 1);
    assert_eq!(phases[0].recommendations.len(), 2);
    assert_eq!(phases[0].estimated_duration, 42);
    assert!(phases[0].dependencies.is_empty());
    assert_eq!(phases[1].phase_number, 3);
    assert_eq!(phases[1].dependencies, vec![b"Phase 2 completion".to_vec()]);
}

#[test]
fn an_improvement_plan_from_the_latest_sample() {
    let mut st = DiagnosticsStorage::new();
    st.store_performance_metrics(CONTRACT.to_string(), sample(9_000, 10, 1_000));
    let all = OptimizationEngine::generate_recommendations(&st, &CONTRACT.to_string(), 10_000).unwrap();
    let target = 25u32;
    let mut expected = 0usize;
    let mut total = 0u32;
    for r in &all {
        if total < target {
            expected += 1;
            total += r.expected_impact.performance_improvement;
        }
    }
    let plan: ImprovementPlan =
        OptimizationEngine::generate_improvement_plan(&st, &CONTRACT.to_string(), target, 10_000).unwrap();
    assert_eq!(plan.target_improvement, target);
    assert_eq!(plan.selected_recommendations.len(), expected);
    for (chosen, original) in plan.selected_recommendations.iter().zip(all.iter()) {
        assert_eq!(chosen.title, original.title);
    }
    let phase_total: usize = plan.implementation_phases.iter().map(|p| p.recommendations.len()).sum();
    assert_eq!(phase_total, expected);
    let none = OptimizationEngine::generate_improvement_plan(&DiagnosticsStorage::new(), &CONTRACT.to_string(), 1, 10_000);
    assert_eq!(none.unwrap_err(), DiagnosticsError::MetricsNotFound);
}

#[test]
fn cost_structure_of_a_sample() {
    let c = OptimizationEngine::analyze_current_costs(&sample(1, 1, 1));
    assert_eq!(c.total_daily_cost, 50 + 20 + 2 + 60);
    assert_eq!(c.cost_breakdown.len(), 4);
    assert_eq!(c.cost_breakdown[0].component_name, b"Gas".to_vec());
    assert_eq!(c.cost_breakdown[0].percentage_of_total, 37);
    assert_eq!(c.cost_breakdown[3].percentage_of_total, 45);
    let mut st = DiagnosticsStorage::new();
    st.store_performance_metrics(CONTRACT.to_string(), sample(9_000, 10, 1_000));
    let a = OptimizationEngine::analyze_cost_optimization(&st, &CONTRACT.to_string(), 10_000).unwrap();
    assert_eq!(a.current_daily_cost, 132);
    assert_eq!(a.potential_daily_savings, 1_000);
    assert_eq!(a.roi_analysis.annual_roi_percentage, 240);
}

fn span(start: u64, end: u64, gas: u64) -> TraceSpan {
    TraceSpan {
        span_id: [9u8; 32],
        has_parent: false,
        parent_span_id: [0u8; 32],
        operation_name: b"transfer".to_vec(),
        start_time: start,
        end_time: end,
        contract_address: CONTRACT.to_string(),
        function_name: "transfer".to_string(),
        gas_used: gas,
        success: true,
        has_error: false,
        error_message: Vec::new(),
    }
}

#[test]
fn a_trace_grows_until_it_is_completed() {
    let mut store = TraceStore::new();
    let id = DistributedTracer::start_trace(&mut store, &b"checkout".to_vec(), 1_000, 7).unwrap();
    assert_eq!(id[16], 0xAB);
    assert_eq!(id[11], 7);
    DistributedTracer::add_span(&mut store, &id, &span(0, 6_000, 10)).unwrap();
    DistributedTracer::add_span(&mut store, &id, &span(0, 10, 2_000_000)).unwrap();
    assert_eq!(
        DistributedTracer::add_span(&mut store, &id, &span(5, 5, 0)).unwrap_err(),
        DiagnosticsError::InvalidTraceSpan
    );
    let t = DistributedTracer::complete_trace(&mut store, &id, 40_000).unwrap();
    assert_eq!(t.span_count, 3);
    assert_eq!(t.total_gas_used, 2_000_010);
    assert_eq!(t.bottlenecks.len(), 2);
    assert_eq!(t.bottlenecks[0].bottleneck_type, BottleneckType::CPU);
    assert_eq!(t.bottlenecks[0].severity, RiskLevel::High);
    assert_eq!(t.bottlenecks[1].bottleneck_type, BottleneckType::Gas);
    assert_eq!(t.total_duration, 40_000);
    assert_eq!(t.optimization_opportunities, vec![b"Implement asynchronous processing for long operations".to_vec()]);
    assert_eq!(t.error_analysis, b"No errors".to_vec());
    assert_eq!(
        DistributedTracer::add_span(&mut store, &id, &span(0, 10, 0)).unwrap_err(),
        DiagnosticsError::TraceAlreadyCompleted
    );
    assert_eq!(
        DistributedTracer::complete_trace(&mut store, &id, 50_000).unwrap_err(),
        DiagnosticsError::TraceAlreadyCompleted
    );
    assert_eq!(
        DistributedTracer::complete_trace(&mut store, &[3u8; 32], 50_000).unwrap_err(),
        DiagnosticsError::TraceNotFound
    );
    assert!(DistributedTracer::analyze_execution_flow(&store, &id).is_ok());
}

#[test]
fn trace_reports_need_kept_traces() {
    let mut store = TraceStore::new();
    let a = DistributedTracer::start_trace(&mut store, &b"a".to_vec(), 10, 1).unwrap();
    let b = DistributedTracer::start_trace(&mut store, &b"b".to_vec(), 20, 2).unwrap();
    let c = DistributedTracer::compare_traces(&store, &a, &b).unwrap();
    assert_eq!(c.performance_delta.duration_change_percentage, -15);
    assert!(!c.regression_analysis.regression_detected);
    assert_eq!(c.bottleneck_changes.len(), 1);
    assert_eq!(
        DistributedTracer::compare_traces(&store, &a, &[0u8; 32]).unwrap_err(),
        DiagnosticsError::TraceNotFound
    );
    let r = DistributedTracer::perform_root_cause_analysis(&store, &a).unwrap();
    assert_eq!(r.root_causes[0].cause_type, b"Invalid input validation".to_vec());
    assert_eq!(r.remediation_steps.len(), 3);
    assert_eq!(
        DistributedTracer::perform_root_cause_analysis(&store, &[0u8; 32]).unwrap_err(),
        DiagnosticsError::TraceNotFound
    );
    let d = edu_contracts::diagnostics::distributed_tracer::PerformanceDelta {
        duration_change_percentage: 30,
        gas_usage_change_percentage: 0,
        span_count_change: 0,
        bottleneck_count_change: 0,
    };
    let g = DistributedTracer::analyze_regression(&d);
    assert!(g.regression_detected);
    assert_eq!(g.severity, RiskLevel::High);
}

#[test]
fn every_recommendation_names_the_analysed_contract() {
    let mut st = DiagnosticsStorage::new();
    let mut m = sample(9_000, 10, 100_000_000);
    m.network_latency = 600;
    m.average_execution_time = 3_000;
    m.error_rate = 20;
    st.store_performance_metrics(CONTRACT.to_string(), m);
    let all = OptimizationEngine::generate_recommendations(&st, &CONTRACT.to_string(), 10_000).unwrap();
    assert!(all.len() >= 4);
    for r in &all {
        assert_eq!(r.contract_address, CONTRACT.to_string());
    }
}

#[test]
fn a_trace_completed_at_time_zero_stays_closed() {
    let mut store = TraceStore::new();
    let id = DistributedTracer::start_trace(&mut store, &b"boot".to_vec(), 0, 1).unwrap();
    let t = DistributedTracer::complete_trace(&mut store, &id, 0).unwrap();
    assert!(t.is_completed);
    assert_eq!(t.total_duration, 0);
    assert_eq!(
        DistributedTracer::add_span(&mut store, &id, &span(0, 10, 0)).unwrap_err(),
        DiagnosticsError::TraceAlreadyCompleted
    );
    assert_eq!(
        DistributedTracer::complete_trace(&mut store, &id, 5).unwrap_err(),
        DiagnosticsError::TraceAlreadyCompleted
    );
}

fn quiet_load() -> LoadPrediction {
    LoadPrediction {
        predicted_tx_per_hour: 40,
        predicted_gas_usage: 1_000,
        predicted_storage_growth: 2,
        peak_load_times: Vec::new(),
        resource_saturation_risk: RiskLevel::Low,
        predicted_tx_hourly: 40,
    }
}

fn flat_costs() -> edu_contracts::diagnostics::types::CostProjection {
    edu_contracts::diagnostics::types::CostProjection {
        current_daily_cost: 5,
        projected_daily_cost: 6,
        cost_optimization_potential: 1,
        cost_trend: edu_contracts::diagnostics::types::CostTrend::Stable,
    }
}

#[test]
fn capacity_prediction_checks_horizon_and_history() {
    let mut st = DiagnosticsStorage::new();
    let now = 200_000u64;
    let c = CONTRACT.to_string();
    let bad = PredictiveEngine::predict_capacity(&st, &c, 60, now, 1, quiet_load(), Vec::new(), flat_costs(), 50);
    assert_eq!(bad.unwrap_err(), DiagnosticsError::InvalidPredictionHorizon);
    let few = PredictiveEngine::predict_capacity(&st, &c, 7_200, now, 1, quiet_load(), Vec::new(), flat_costs(), 50);
    assert_eq!(few.unwrap_err(), DiagnosticsError::InsufficientDataForPrediction);
    for h in 0..12u64 {
        st.store_performance_metrics(c.clone(), sample(now - h * 3_600, 10, 1_000));
    }
    let p = PredictiveEngine::predict_capacity(&st, &c, 7_200, now, 9, quiet_load(), Vec::new(), flat_costs(), 50)
        .unwrap();
    assert_eq!(p.prediction_horizon, 7_200);
    assert_eq!(p.confidence_score, 50);
    assert_eq!(p.generated_at, now);
    assert_eq!(p.prediction_id[11], 9);
    assert_eq!(p.predicted_load.predicted_tx_per_hour, 40);
    assert_eq!(p.cost_projections, flat_costs());
    assert!(p.capacity_recommendations.is_empty());
}

#[test]
fn behavior_analysis_checks_its_period() {
    let eff = LearningEffectiveness {
        completion_rate: 60,
        knowledge_retention: 80,
        skill_acquisition: 70,
        engagement_score: 50,
        effectiveness_trend: EffectivenessTrend::Stable,
    };
    let bad = BehaviorAnalyzer::analyze_behavior(&LEARNER.to_string(), 60, 1_000_000, 1, Vec::new(), eff);
    assert_eq!(bad.unwrap_err(), DiagnosticsError::InvalidAnalysisPeriod);
    let a = BehaviorAnalyzer::analyze_behavior(&LEARNER.to_string(), 86_400, 1_000_000, 2, Vec::new(), eff).unwrap();
    let data = BehaviorAnalyzer::gather_user_interaction_data(&LEARNER.to_string(), 86_400, 1_000_000).unwrap();
    let expected = BehaviorAnalyzer::calculate_engagement_metrics(&data);
    assert_eq!(a.engagement_metrics, expected);
    assert_eq!(a.analysis_period, 86_400);
    assert_eq!(a.learning_effectiveness, eff);
    assert_eq!(a.analysis_id[11], 2);
}
