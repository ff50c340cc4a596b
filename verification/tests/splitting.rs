use tpch_bench::source::split_statements;

fn chars_of(s: &str) -> Vec<char> {
    s.chars().collect()
}

fn strings_of(v: Vec<Vec<char>>) -> Vec<String> {
    v.into_iter().map(|f| f.into_iter().collect()).collect()
}

#[test]
fn single_statement_splits_to_one() {
    let text = chars_of("select * from nation");
    let batch = strings_of(split_statements(&text));
    assert_eq!(batch, vec!["select * from nation".to_string()]);
}

#[test]
fn two_statements_split_to_two() {
    let text = chars_of("create view v as select 1; select * from v");
    let batch = strings_of(split_statements(&text));
    assert_eq!(
        batch,
        vec![
            "create view v as select 1".to_string(),
            " select * from v".to_string(),
        ]
    );
}

#[test]
fn trailing_separator_adds_no_statement() {
    let text = chars_of("select 1;\n");
    let batch = strings_of(split_statements(&text));
    assert_eq!(batch, vec!["select 1".to_string()]);
}

#[test]
fn blank_fragments_are_dropped() {
    let text = chars_of("  ;select 1; \t\n ;select 2;;");
    let batch = strings_of(split_statements(&text));
    assert_eq!(batch, vec!["select 1".to_string(), "select 2".to_string()]);
}

#[test]
fn empty_text_yields_no_statements() {
    let text = chars_of("");
    let batch = strings_of(split_statements(&text));
    assert!(batch.is_empty());
}

#[test]
fn whitespace_only_text_yields_no_statements() {
    let text = chars_of(" \n\t ");
    let batch = strings_of(split_statements(&text));
    assert!(batch.is_empty());
}

#[test]
fn unicode_whitespace_counts_as_blank() {
    let text = chars_of("select 1;\u{a0}\u{2028}\u{3000};select 2");
    let batch = strings_of(split_statements(&text));
    assert_eq!(batch, vec!["select 1".to_string(), "select 2".to_string()]);
}

#[test]
fn three_statements_keep_their_order() {
    let text = chars_of("a;b;c");
    let batch = strings_of(split_statements(&text));
    assert_eq!(
        batch,
        vec!["a".to_string(), "b".to_string(), "c".to_string()]
    );
}
