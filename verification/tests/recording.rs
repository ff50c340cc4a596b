use tpch_bench::errors::BenchError;
use tpch_bench::results::Results;

#[test]
fn new_record_starts_empty_with_the_engine_version() {
    let r = Results::new("33.0.0".to_string());
    assert_eq!(r.datafusion_version, "33.0.0");
    assert_eq!(r.datafusion_github_sha, None);
    assert!(r.config.is_empty());
    assert!(r.command_line_args.is_empty());
    assert_eq!(r.register_tables_time, 0);
    assert!(r.query_times.is_empty());
}

#[test]
fn command_line_args_keep_their_order() {
    let mut r = Results::new("v".to_string());
    r.push_command_line_arg("bench".to_string());
    r.push_command_line_arg("--query".to_string());
    r.push_command_line_arg("5".to_string());
    assert_eq!(r.command_line_args, vec!["bench", "--query", "5"]);
}

#[test]
fn config_snapshot_is_stored_verbatim() {
    let mut r = Results::new("v".to_string());
    r.record_config(vec![
        ("target_partitions".to_string(), "4".to_string()),
        ("batch_size".to_string(), "8192".to_string()),
    ]);
    assert_eq!(r.config.len(), 2);
    assert_eq!(r.config[0].0, "target_partitions");
    assert_eq!(r.config[0].1, "4");
}

#[test]
fn table_binding_latency_is_recorded_once() {
    let mut r = Results::new("v".to_string());
    r.record_table_binding(42);
    assert_eq!(r.register_tables_time, 42);
}

#[test]
fn query_results_are_append_only() {
    let mut r = Results::new("v".to_string());
    r.record_query_result(1, vec![10, 11]);
    r.record_query_result(3, vec![7]);
    assert_eq!(r.query_times.len(), 2);
    assert_eq!(r.query_times[0], (1, vec![10, 11]));
    assert_eq!(r.query_times[1], (3, vec![7]));
}

#[test]
fn revision_is_recorded_when_given() {
    let mut r = Results::new("v".to_string());
    r.set_revision(Some("abc123".to_string()));
    assert_eq!(r.datafusion_github_sha, Some("abc123".to_string()));
}

#[test]
fn default_record_is_all_empty() {
    let r = Results::default();
    assert_eq!(r.system_time, 0);
    assert_eq!(r.datafusion_version, "");
    assert_eq!(r.datafusion_github_sha, None);
    assert!(r.config.is_empty());
    assert!(r.command_line_args.is_empty());
    assert_eq!(r.register_tables_time, 0);
    assert!(r.query_times.is_empty());
}

#[test]
fn error_messages_name_their_subject() {
    let e = BenchError::QueryFileMissing {
        path: "/q/q3.sql".to_string(),
    };
    assert_eq!(e.message(), "Query file does not exist: /q/q3.sql");
    let e = BenchError::EngineExecution {
        message: "no table x".to_string(),
    };
    assert_eq!(e.message(), "Query execution failed: no table x");
    let e = BenchError::ArtifactWrite {
        path: "/out/q3.csv".to_string(),
    };
    assert_eq!(e.message(), "Failed to write artifact: /out/q3.csv");
}
