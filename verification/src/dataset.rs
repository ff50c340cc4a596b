//! Dataset binding: the fixed table list, the path each table is expected
//! at, and the binding decision. Binding is atomic — the first missing file
//! fails the whole binding with `DatasetMissing`, and no table after the
//! missing one is registered.

use vstd::prelude::*;

use crate::errors::BenchError;

verus! {

/// The fixed tables of the workload, in their deterministic binding order.
#[derive(Debug, Clone, Copy, PartialEq, Eq, Structural)]
pub enum Table {
    Customer,
    Lineitem,
    Nation,
    Orders,
    Part,
    Partsupp,
    Region,
    Supplier,
}

/// How many tables the workload has.
pub open spec fn table_count() -> int {
    8
}

/// The binding order: `customer, lineitem, nation, orders, part, partsupp,
/// region, supplier`.
pub open spec fn table_order(i: int) -> Table {
    if i == 0 {
        Table::Customer
    } else if i == 1 {
        Table::Lineitem
    } else if i == 2 {
        Table::Nation
    } else if i == 3 {
        Table::Orders
    } else if i == 4 {
        Table::Part
    } else if i == 5 {
        Table::Partsupp
    } else if i == 6 {
        Table::Region
    } else {
        Table::Supplier
    }
}

/// Each table's name.
pub open spec fn table_name_spec(t: Table) -> Seq<char> {
    match t {
        Table::Customer => "customer"@,
        Table::Lineitem => "lineitem"@,
        Table::Nation => "nation"@,
        Table::Orders => "orders"@,
        Table::Part => "part"@,
        Table::Partsupp => "partsupp"@,
        Table::Region => "region"@,
        Table::Supplier => "supplier"@,
    }
}

/// The tables in binding order, as values.
pub fn all_tables() -> (r: Vec<Table>)
    ensures
        r@.len() == table_count(),
        forall|i: int| 0 <= i < table_count() ==> r@[i] == table_order(i),
{
    let mut r: Vec<Table> = Vec::new();
    r.push(Table::Customer);
    r.push(Table::Lineitem);
    r.push(Table::Nation);
    r.push(Table::Orders);
    r.push(Table::Part);
    r.push(Table::Partsupp);
    r.push(Table::Region);
    r.push(Table::Supplier);
    r
}

/// The table's name, as a string.
pub fn table_name(t: Table) -> (r: &'static str)
    ensures
        r@ == table_name_spec(t),
{
    match t {
        Table::Customer => "customer",
        Table::Lineitem => "lineitem",
        Table::Nation => "nation",
        Table::Orders => "orders",
        Table::Part => "part",
        Table::Partsupp => "partsupp",
        Table::Region => "region",
        Table::Supplier => "supplier",
    }
}

/// Where a table's data file is expected: `<data_path>/<table>.parquet`.
pub open spec fn table_path_spec(data_path: Seq<char>, t: Table) -> Seq<char> {
    data_path + "/"@ + table_name_spec(t) + ".parquet"@
}

/// Builds `<data_path>/<table>.parquet`.
pub fn table_data_path(data_path: &str, t: Table) -> (r: String)
    ensures
        r@ == table_path_spec(data_path@, t),
{
    let mut out = String::from_str(data_path);
    out.append("/");
    out.append(table_name(t));
    out.append(".parquet");
    out
}

/// The least table index whose file is missing, or the table count when
/// every file is present.
pub open spec fn first_missing(exists: Seq<bool>) -> int
    decreases exists.len(),
{
    if exists.len() == 0 {
        0
    } else if !exists[0] {
        0
    } else {
        1 + first_missing(exists.drop_first())
    }
}

/// `first_missing` points at a missing table (or at the end), and every
/// table before it is present.
pub proof fn lemma_first_missing(exists: Seq<bool>)
    ensures
        0 <= first_missing(exists) <= exists.len(),
        first_missing(exists) < exists.len() ==> !exists[first_missing(exists)],
        forall|k: int| 0 <= k < first_missing(exists) ==> exists[k],
    decreases exists.len(),
{
    if exists.len() > 0 && exists[0] {
        lemma_first_missing(exists.drop_first());
        assert forall|k: int| 0 <= k < first_missing(exists) implies exists[k] by {
            if k > 0 {
                assert(exists.drop_first()[k - 1] == exists[k]);
            }
        }
    }
}

/// The binding decision over an existence oracle: given, in binding order,
/// whether each table's file exists, either every file is present and the
/// result lists all the paths to register, in order, or the result is
/// `DatasetMissing` for the first missing table — and only the tables
/// strictly before it are to be registered (none after the missing one).
pub fn plan_binding(data_path: &str, exists: &Vec<bool>) -> (r: Result<Vec<String>, BenchError>)
    requires
        exists@.len() == table_count(),
    ensures
        match r {
            Ok(paths) => {
                &&& first_missing(exists@) == table_count()
                &&& paths@.len() == table_count()
                &&& forall|i: int|
                    0 <= i < table_count() ==> #[trigger] paths@[i]@ == table_path_spec(
                        data_path@,
                        table_order(i),
                    )
            },
            Err(e) => {
                let m = first_missing(exists@);
                &&& m < table_count()
                &&& (e matches BenchError::DatasetMissing { table, path } ==> table@
                    == table_name_spec(table_order(m)) && path@ == table_path_spec(
                    data_path@,
                    table_order(m),
                ))
                &&& e matches BenchError::DatasetMissing { .. }
            },
        },
{
    let tables = all_tables();
    let mut paths: Vec<String> = Vec::new();
    let mut i: usize = 0;
    while i < 8
        invariant
            0 <= i <= 8,
            exists@.len() == 8,
            tables@.len() == 8,
            forall|k: int| 0 <= k < 8 ==> tables@[k] == table_order(k),
            forall|k: int| 0 <= k < i ==> exists@[k],
            paths@.len() == i,
            forall|k: int|
                0 <= k < i ==> #[trigger] paths@[k]@ == table_path_spec(
                    data_path@,
                    table_order(k),
                ),
        decreases 8 - i,
    {
        let t = tables[i];
        let path = table_data_path(data_path, t);
        if !exists[i] {
            proof {
                lemma_first_missing_at(exists@, i as int);
            }
            let name = String::from_str(table_name(t));
            return Err(BenchError::DatasetMissing { table: name, path });
        }
        paths.push(path);
        i += 1;
    }
    proof {
        lemma_first_missing_at(exists@, 8);
    }
    Ok(paths)
}

/// The least index with a missing file is what `first_missing` returns.
pub proof fn lemma_first_missing_at(exists: Seq<bool>, m: int)
    requires
        0 <= m <= exists.len(),
        forall|k: int| 0 <= k < m ==> exists[k],
        m < exists.len() ==> !exists[m],
    ensures
        first_missing(exists) == m,
    decreases exists.len(),
{
    if exists.len() > 0 && exists[0] {
        let t = exists.drop_first();
        assert forall|k: int| 0 <= k < m - 1 implies t[k] by {
            assert(t[k] == exists[k + 1]);
        }
        lemma_first_missing_at(t, m - 1);
    }
}

} // verus!
