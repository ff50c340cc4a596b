//! Artifact and file naming: the query-file path, the per-query plan and
//! result-sample artifact names with their optional part suffix, and the
//! timestamped report name. Every name is pinned exactly, so two runs over
//! the same inputs name their artifacts identically.

use vstd::prelude::*;

use crate::text::{dec_digits, push_dec};

verus! {

/// A statement batch is multipart when it holds more than one statement.
pub open spec fn is_multipart(num_statements: int) -> bool {
    num_statements > 1
}

/// Decides `is_multipart` for a batch length.
pub fn multipart(num_statements: usize) -> (r: bool)
    ensures
        r == is_multipart(num_statements as int),
{
    num_statements > 1
}

/// The artifact-name part suffix: `_part_<i+1>` (1-based) for a statement
/// of a multipart batch, empty otherwise.
pub open spec fn part_suffix_spec(multipart: bool, index: int) -> Seq<char> {
    if multipart {
        "_part_"@ + dec_digits(index + 1)
    } else {
        Seq::<char>::empty()
    }
}

/// A single-statement batch never gets a part suffix; a multipart batch's
/// statements get the suffixes `_part_1`, ..., `_part_k` in order.
pub proof fn lemma_part_suffixes(num_statements: int, index: int)
    requires
        0 <= index < num_statements,
    ensures
        num_statements == 1 ==> part_suffix_spec(
            is_multipart(num_statements),
            index,
        ) == Seq::<char>::empty(),
        num_statements > 1 ==> part_suffix_spec(is_multipart(num_statements), index) == "_part_"@
            + dec_digits(index + 1),
{
}

/// The common stem of a query's artifact names:
/// `<output_path>/q<query_no><suffix>`.
pub open spec fn artifact_stem_spec(
    output_path: Seq<char>,
    query_no: u8,
    multipart: bool,
    index: int,
) -> Seq<char> {
    output_path + "/q"@ + dec_digits(query_no as int) + part_suffix_spec(multipart, index)
}

fn push_artifact_stem(out: &mut String, query_no: u8, multipart: bool, index: usize)
    requires
        index < usize::MAX,
    ensures
        final(out)@ == old(out)@ + "/q"@ + dec_digits(query_no as int) + part_suffix_spec(
            multipart,
            index as int,
        ),
{
    out.append("/q");
    push_dec(out, query_no as u128);
    if multipart {
        out.append("_part_");
        push_dec(out, (index + 1) as u128);
    }
}

/// `<query_path>/q<N>.sql`: where the text of query `N` is read from.
pub fn query_file_name(query_path: &str, query_no: u8) -> (r: String)
    ensures
        r@ == query_path@ + "/q"@ + dec_digits(query_no as int) + ".sql"@,
{
    let mut out = String::from_str(query_path);
    out.append("/q");
    push_dec(&mut out, query_no as u128);
    out.append(".sql");
    out
}

/// `<output_path>/q<N>[_part_<i+1>]_logical_plan.txt`: the indented text
/// rendering of the statement's logical plan.
pub fn plan_text_name(output_path: &str, query_no: u8, multipart: bool, index: usize) -> (r: String)
    requires
        index < usize::MAX,
    ensures
        r@ == artifact_stem_spec(output_path@, query_no, multipart, index as int)
            + "_logical_plan.txt"@,
{
    let mut out = String::from_str(output_path);
    push_artifact_stem(&mut out, query_no, multipart, index);
    out.append("_logical_plan.txt");
    out
}

/// `<output_path>/q<N>[_part_<i+1>]_logical_plan.qpml`: the portable
/// (engine-independent) export of the same plan.
pub fn plan_portable_name(
    output_path: &str,
    query_no: u8,
    multipart: bool,
    index: usize,
) -> (r: String)
    requires
        index < usize::MAX,
    ensures
        r@ == artifact_stem_spec(output_path@, query_no, multipart, index as int)
            + "_logical_plan.qpml"@,
{
    let mut out = String::from_str(output_path);
    push_artifact_stem(&mut out, query_no, multipart, index);
    out.append("_logical_plan.qpml");
    out
}

/// `<output_path>/q<N>[_part_<i+1>].csv`: the first-batch result sample,
/// written only when the statement returned rows.
pub fn result_sample_name(
    output_path: &str,
    query_no: u8,
    multipart: bool,
    index: usize,
) -> (r: String)
    requires
        index < usize::MAX,
    ensures
        r@ == artifact_stem_spec(output_path@, query_no, multipart, index as int) + ".csv"@,
{
    let mut out = String::from_str(output_path);
    push_artifact_stem(&mut out, query_no, multipart, index);
    out.append(".csv");
    out
}

/// `<output_path>/results-<system_time>.yaml`: the final report, named by
/// the run's start timestamp so each invocation writes a fresh, sortable
/// file.
pub fn report_name(output_path: &str, system_time: u128) -> (r: String)
    ensures
        r@ == output_path@ + "/results-"@ + dec_digits(system_time as int) + ".yaml"@,
{
    let mut out = String::from_str(output_path);
    out.append("/results-");
    push_dec(&mut out, system_time);
    out.append(".yaml");
    out
}

} // verus!
