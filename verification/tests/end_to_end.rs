//! One full pass through the verified core, driven the way the shell
//! drives it: bind a dataset, load a two-statement query file, run it for
//! one iteration, record everything, and name the report.

use tpch_bench::driver::Driver;
use tpch_bench::names::{multipart, plan_text_name, report_name, result_sample_name};
use tpch_bench::results::Results;
use tpch_bench::runner::QueryRun;
use tpch_bench::source::split_statements;

#[test]
fn two_statement_query_single_iteration_end_to_end() {
    let mut results = Results::new("33.0.0".to_string());
    let mut driver = Driver::new(Some(14));

    // Dataset binding: every file present; the measured latency is
    // recorded once.
    driver.dataset_bound(true);
    results.record_table_binding(42);
    assert_eq!(results.register_tables_time, 42);

    // The query file holds two statements.
    let text: Vec<char> = "create view v as select 1;\nselect * from v;"
        .chars()
        .collect();
    let batch = split_statements(&text);
    assert_eq!(batch.len(), 2);
    let m = multipart(batch.len());
    assert!(m);

    // One iteration: both statements timed, artifacts captured for each.
    let q = driver.next_query().expect("one query requested");
    assert_eq!(q, 14);
    let mut run = QueryRun::new(q, batch.len(), 1);
    let times = [5u128, 7u128];
    let mut artifact_names = Vec::new();
    while !run.done() {
        let i = run.next_statement();
        run.record_statement(times[i]);
        if run.iteration() == 0 || run.durations().len() == 1 {
            artifact_names.push(plan_text_name("/out", q, m, i));
            artifact_names.push(result_sample_name("/out", q, m, i));
        }
    }
    assert_eq!(
        artifact_names,
        vec![
            "/out/q14_part_1_logical_plan.txt".to_string(),
            "/out/q14_part_1.csv".to_string(),
            "/out/q14_part_2_logical_plan.txt".to_string(),
            "/out/q14_part_2.csv".to_string(),
        ]
    );

    // Exactly one duration entry: the sum of both statements' times.
    results.record_query_result(q, run.durations().clone());
    assert_eq!(results.query_times, vec![(14, vec![12])]);

    // The run completes and owes its report, named by the start time.
    assert!(!driver.query_outcome(true));
    assert_eq!(driver.next_query(), None);
    assert!(driver.report_due());
    let report = report_name("/out", results.system_time);
    assert_eq!(report, format!("/out/results-{}.yaml", results.system_time));
}
