use migration_analysis::analysis::{get_jobs_insights, Analysis, Insight};
use migration_analysis::error::ErrorKind;
use migration_analysis::jobs::{get_item_with_name, DurationMetrics, Item, Jobs, Metrics};

fn item(name: &str, min: u64, mean: u64, median: u64, max: u64, start: &str, end: &str) -> Item {
    let duration_metrics = DurationMetrics {
        min,
        mean,
        median,
        p95: max,
        max,
        standard_deviation_bits: 1.0f64.to_bits(),
        total_duration: 20,
    };
    let metrics = Metrics {
        total_runs: 7,
        failed_runs: 2,
        successful_runs: 5,
        median_credits_used: 4,
        duration_metrics,
        success_rate_bits: 0.9f64.to_bits(),
        total_credits_used: 4,
        throughput_bits: 5.0f64.to_bits(),
    };
    Item {
        name: name.to_string(),
        metrics,
        window_start: start.to_string(),
        window_end: end.to_string(),
    }
}

fn base_workflow_item(workflow_name: &String) -> Item {
    let duration_metrics = DurationMetrics {
        min: 1,
        mean: 4,
        median: 5,
        p95: 8,
        max: 12,
        standard_deviation_bits: 1.1f64.to_bits(),
        total_duration: 23,
    };

    let metrics = Metrics {
        total_runs: 7,
        failed_runs: 2,
        successful_runs: 5,
        median_credits_used: 4,
        duration_metrics,
        success_rate_bits: 0.9f64.to_bits(),
        total_credits_used: 4,
        throughput_bits: 5.0f64.to_bits(),
    };

    Item {
        name: workflow_name.to_string(),
        metrics,
        window_start: "start".to_string(),
        window_end: "end".to_string(),
    }
}

fn migration_workflow_item(workflow_name: &String) -> Item {
    let duration_metrics = DurationMetrics {
        min: 1,
        mean: 3,
        median: 4,
        p95: 7,
        max: 11,
        standard_deviation_bits: 1.0f64.to_bits(),
        total_duration: 22,
    };

    let metrics = Metrics {
        total_runs: 7,
        failed_runs: 2,
        successful_runs: 5,
        median_credits_used: 4,
        duration_metrics,
        success_rate_bits: 0.9f64.to_bits(),
        total_credits_used: 4,
        throughput_bits: 5.0f64.to_bits(),
    };

    Item {
        name: workflow_name.to_string(),
        metrics,
        window_start: "start".to_string(),
        window_end: "end".to_string(),
    }
}

#[test]
fn migration_get_insights_fails_if_base_workflow_not_found() {
    let base_workflow_name = String::from("base workflow");
    let base_workflow_item = base_workflow_item(&base_workflow_name);
    let migration_workflow_name = String::from("migration workflow");
    let migration_workflow_item = migration_workflow_item(&migration_workflow_name);

    let jobs = Jobs { next_page_token: None, items: vec![] };

    let analysis = Analysis {};
    let actual_err = analysis
        .get_insights(&migration_workflow_item.name, &base_workflow_item.name, &jobs)
        .unwrap_err();

    assert_eq!(actual_err.kind(), ErrorKind::InvalidInput);
    assert_eq!(
        actual_err.message(),
        format!("failed to find workflow {} in retrieved jobs", &base_workflow_item.name)
    );
}

#[test]
fn migration_get_insights_fails_if_migration_workflow_not_found() {
    let base_workflow_name = String::from("base workflow");
    let base_workflow_item = base_workflow_item(&base_workflow_name);
    let migration_workflow_name = String::from("migration workflow");

    let jobs = Jobs { next_page_token: None, items: vec![base_workflow_item] };

    let analysis = Analysis {};
    let actual_err =
        analysis.get_insights(&migration_workflow_name, &base_workflow_name, &jobs).unwrap_err();

    assert_eq!(actual_err.kind(), ErrorKind::InvalidInput);
    assert_eq!(
        actual_err.message(),
        format!("failed to find workflow {} in retrieved jobs", &migration_workflow_name)
    );
}

#[test]
fn migration_get_insights() {
    let base_job_name: String = String::from("base workflow");
    let base_workflow_item = base_workflow_item(&base_job_name);
    let base_workflow_min = base_workflow_item.metrics.duration_metrics.min;
    let base_workflow_median = base_workflow_item.metrics.duration_metrics.median;
    let base_workflow_mean = base_workflow_item.metrics.duration_metrics.mean;
    let base_workflow_max = base_workflow_item.metrics.duration_metrics.max;

    let migration_workflow_name = String::from("migration workflow");
    let migration_workflow_item = migration_workflow_item(&migration_workflow_name);
    let migration_workflow_min = migration_workflow_item.metrics.duration_metrics.min;
    let migration_workflow_median = migration_workflow_item.metrics.duration_metrics.median;
    let migration_workflow_mean = migration_workflow_item.metrics.duration_metrics.mean;
    let migration_workflow_max = migration_workflow_item.metrics.duration_metrics.max;

    let jobs = Jobs {
        next_page_token: None,
        items: vec![base_workflow_item, migration_workflow_item],
    };

    let analysis = Analysis {};
    let insights = analysis.get_insights(&migration_workflow_name, &base_job_name, &jobs).unwrap();

    let min_differential = migration_workflow_min as f64 - base_workflow_min as f64;
    let median_differential = migration_workflow_median as f64 - base_workflow_median as f64;
    let mean_differential = migration_workflow_mean as f64 - base_workflow_mean as f64;
    let max_differential = migration_workflow_max as f64 - base_workflow_max as f64;

    assert_eq!(base_job_name, insights.base_job);
    assert_eq!(migration_workflow_name, insights.migration_job);
    assert_eq!(min_differential, insights.min_differential as f64);
    assert_eq!(median_differential, insights.median_differential as f64);
    assert_eq!(mean_differential, insights.mean_differential as f64);
    assert_eq!(max_differential, insights.max_differential as f64);
}

#[test]
fn display_insights_returns_formatted_insights() {
    let base_job: String = String::from("base job");
    let migration_job: String = String::from("migration job");
    let min_differential: f64 = 1.0;
    let mean_differential: f64 = 1.0;
    let median_differential: f64 = 1.0;
    let max_differential: f64 = 1.0;
    let window_start: String = String::from("start");
    let window_end: String = String::from("end");

    let expected_display = format!(
        r#"
        Migration analysis:

        Details:

            base job: {}
            migration job: {}
            window start: {}
            window end: {}

        Data:

            minimum duration - differential: {}
            maximum duration - differential: {}
            mean duration - differential: {}
            median duration - differential: {}
        "#,
        &base_job,
        &migration_job,
        &window_start,
        &window_end,
        &min_differential,
        &max_differential,
        &mean_differential,
        &median_differential
    );

    let insights = Insight {
        base_job,
        migration_job,
        min_differential: min_differential as i128,
        mean_differential: mean_differential as i128,
        median_differential: median_differential as i128,
        max_differential: max_differential as i128,
        window_start,
        window_end,
    };

    let insight_display = insights.to_string();

    assert_eq!(insight_display, expected_display);
}

#[test]
fn display_insights_writes_each_statistic_in_its_place() {
    let insights = Insight {
        base_job: String::from("b"),
        migration_job: String::from("m"),
        min_differential: 0,
        mean_differential: -1,
        median_differential: 250,
        max_differential: i128::MIN,
        window_start: String::from("s"),
        window_end: String::from("e"),
    };
    let text = insights.to_string();
    assert!(text.contains("minimum duration - differential: 0\n"));
    assert!(text.contains("mean duration - differential: -1\n"));
    assert!(text.contains("median duration - differential: 250\n"));
    assert!(text.contains(&format!("maximum duration - differential: {}\n", i128::MIN)));
    assert!(text.contains("window start: s\n"));
    assert!(text.contains("window end: e\n"));
}

#[test]
fn example_durations_give_expected_differentials() {
    let jobs = Jobs {
        next_page_token: None,
        items: vec![
            item("cmake_build", 1, 4, 5, 12, "base start", "base end"),
            item("bazel_build", 1, 3, 4, 11, "mig start", "mig end"),
        ],
    };
    let insights = get_jobs_insights(&jobs).unwrap();

    assert_eq!(insights.min_differential, 0);
    assert_eq!(insights.mean_differential, -1);
    assert_eq!(insights.median_differential, -1);
    assert_eq!(insights.max_differential, -1);
    assert_eq!(insights.base_job, "cmake_build");
    assert_eq!(insights.migration_job, "bazel_build");
    assert_eq!(insights.window_start, "mig start");
    assert_eq!(insights.window_end, "mig end");
}

#[test]
fn distinct_samples_give_migration_minus_base_and_migration_window() {
    let jobs = Jobs {
        next_page_token: None,
        items: vec![
            item("other", 9, 9, 9, 9, "o", "o"),
            item("a", 10, 20, 30, 40, "a start", "a end"),
            item("b", 15, 12, 30, 100, "b start", "b end"),
        ],
    };
    let insights = Analysis {}.get_insights(&String::from("b"), &String::from("a"), &jobs).unwrap();

    assert_eq!(insights.min_differential, 5);
    assert_eq!(insights.mean_differential, -8);
    assert_eq!(insights.median_differential, 0);
    assert_eq!(insights.max_differential, 60);
    assert_eq!(insights.window_start, "b start");
    assert_eq!(insights.window_end, "b end");
}

#[test]
fn missing_base_is_reported_before_missing_migration() {
    let jobs = Jobs { next_page_token: None, items: vec![item("x", 1, 1, 1, 1, "s", "e")] };
    let actual_err =
        Analysis {}.get_insights(&String::from("m"), &String::from("b"), &jobs).unwrap_err();

    assert_eq!(actual_err.kind(), ErrorKind::InvalidInput);
    assert_eq!(actual_err.message(), "failed to find workflow b in retrieved jobs");
}

#[test]
fn fixed_workflows_missing_from_report_are_reported() {
    let jobs = Jobs { next_page_token: None, items: vec![item("cmake_build", 1, 1, 1, 1, "s", "e")] };
    let actual_err = get_jobs_insights(&jobs).unwrap_err();
    assert_eq!(actual_err.message(), "failed to find workflow bazel_build in retrieved jobs");
}

#[test]
fn first_sample_of_a_name_is_used() {
    let jobs = Jobs {
        next_page_token: None,
        items: vec![
            item("base", 10, 10, 10, 10, "s1", "e1"),
            item("mig", 20, 20, 20, 20, "s2", "e2"),
            item("mig", 0, 0, 0, 0, "s3", "e3"),
            item("base", 0, 0, 0, 0, "s4", "e4"),
        ],
    };
    let insights =
        Analysis {}.get_insights(&String::from("mig"), &String::from("base"), &jobs).unwrap();
    assert_eq!(insights.min_differential, 10);
    assert_eq!(insights.window_start, "s2");

    let found = get_item_with_name(&jobs.items, &String::from("mig")).unwrap();
    assert_eq!(found.window_end, "e2");
    assert!(get_item_with_name(&jobs.items, &String::from("MIG")).is_none());
}

#[test]
fn extreme_durations_are_subtracted_exactly() {
    let jobs = Jobs {
        next_page_token: None,
        items: vec![
            item("base", u64::MAX, 0, u64::MAX, 0, "s", "e"),
            item("mig", 0, u64::MAX, u64::MAX, 0, "s", "e"),
        ],
    };
    let insights =
        Analysis {}.get_insights(&String::from("mig"), &String::from("base"), &jobs).unwrap();
    assert_eq!(insights.min_differential, -(u64::MAX as i128));
    assert_eq!(insights.mean_differential, u64::MAX as i128);
    assert_eq!(insights.median_differential, 0);
    assert_eq!(insights.max_differential, 0);
}
