use tpch_bench::names::{
    multipart, plan_portable_name, plan_text_name, query_file_name, report_name,
    result_sample_name,
};
use tpch_bench::text::dec_string;

#[test]
fn decimal_rendering_is_exact() {
    assert_eq!(dec_string(0), "0");
    assert_eq!(dec_string(7), "7");
    assert_eq!(dec_string(10), "10");
    assert_eq!(dec_string(22), "22");
    assert_eq!(dec_string(1678901234567), "1678901234567");
}

#[test]
fn query_file_names_follow_the_pattern() {
    assert_eq!(query_file_name("/queries", 1), "/queries/q1.sql");
    assert_eq!(query_file_name("/queries", 22), "/queries/q22.sql");
}

#[test]
fn single_statement_names_have_no_part_suffix() {
    let m = multipart(1);
    assert!(!m);
    assert_eq!(plan_text_name("/out", 3, m, 0), "/out/q3_logical_plan.txt");
    assert_eq!(
        plan_portable_name("/out", 3, m, 0),
        "/out/q3_logical_plan.qpml"
    );
    assert_eq!(result_sample_name("/out", 3, m, 0), "/out/q3.csv");
}

#[test]
fn multipart_names_carry_one_based_part_suffixes() {
    let m = multipart(2);
    assert!(m);
    assert_eq!(
        plan_text_name("/out", 15, m, 0),
        "/out/q15_part_1_logical_plan.txt"
    );
    assert_eq!(
        plan_text_name("/out", 15, m, 1),
        "/out/q15_part_2_logical_plan.txt"
    );
    assert_eq!(
        plan_portable_name("/out", 15, m, 1),
        "/out/q15_part_2_logical_plan.qpml"
    );
    assert_eq!(result_sample_name("/out", 15, m, 1), "/out/q15_part_2.csv");
}

#[test]
fn report_name_carries_the_start_timestamp() {
    assert_eq!(
        report_name("/out", 1678901234567),
        "/out/results-1678901234567.yaml"
    );
    assert_eq!(report_name("", 0), "/results-0.yaml");
}
