use tpch_bench::dataset::{all_tables, plan_binding, table_data_path, table_name, Table};
use tpch_bench::errors::BenchError;

#[test]
fn tables_come_in_the_fixed_order() {
    let tables = all_tables();
    let names: Vec<&str> = tables.iter().map(|t| table_name(*t)).collect();
    assert_eq!(
        names,
        vec![
            "customer", "lineitem", "nation", "orders", "part", "partsupp", "region", "supplier",
        ]
    );
}

#[test]
fn table_paths_follow_the_pattern() {
    assert_eq!(
        table_data_path("/data", Table::Customer),
        "/data/customer.parquet"
    );
    assert_eq!(
        table_data_path("/data", Table::Supplier),
        "/data/supplier.parquet"
    );
}

#[test]
fn complete_dataset_binds_every_table() {
    let exists = vec![true; 8];
    let paths = plan_binding("/data", &exists).expect("all files present");
    assert_eq!(paths.len(), 8);
    assert_eq!(paths[0], "/data/customer.parquet");
    assert_eq!(paths[2], "/data/nation.parquet");
    assert_eq!(paths[7], "/data/supplier.parquet");
}

#[test]
fn missing_nation_fails_with_dataset_missing() {
    let mut exists = vec![true; 8];
    exists[2] = false;
    match plan_binding("/data", &exists) {
        Ok(_) => panic!("binding must fail"),
        Err(BenchError::DatasetMissing { table, path }) => {
            assert_eq!(table, "nation");
            assert_eq!(path, "/data/nation.parquet");
        }
        Err(_) => panic!("wrong error kind"),
    }
}

#[test]
fn first_missing_table_wins() {
    let mut exists = vec![true; 8];
    exists[1] = false;
    exists[5] = false;
    match plan_binding("/data", &exists) {
        Err(BenchError::DatasetMissing { table, path }) => {
            assert_eq!(table, "lineitem");
            assert_eq!(path, "/data/lineitem.parquet");
        }
        _ => panic!("binding must fail on the first missing table"),
    }
}

#[test]
fn dataset_missing_message_names_the_path() {
    let mut exists = vec![true; 8];
    exists[2] = false;
    let err = plan_binding("/data", &exists).unwrap_err();
    assert_eq!(err.message(), "Path does not exist: /data/nation.parquet");
}
