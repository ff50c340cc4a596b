//! The run record: one `Results` value per invocation, created at startup,
//! filled in as binding and queries complete, serialized exactly once at
//! the end. Entries are only ever added, never removed, so a run that
//! fails partway still holds everything collected up to that point.

use vstd::prelude::*;

verus! {

/// Milliseconds since the Unix epoch, for the run's start timestamp.
///
/// Relies on `std::time::SystemTime::now`: the current clock reading,
/// taken relative to `std::time::UNIX_EPOCH`. Nothing can be promised of a
/// clock value; a clock standing before the epoch is read as zero rather
/// than panicking.
#[verifier::external_body]
fn now_epoch_millis() -> u128 {
    match std::time::SystemTime::now().duration_since(std::time::UNIX_EPOCH) {
        Ok(d) => d.as_millis(),
        Err(_) => 0,
    }
}

/// The aggregated record of one benchmark invocation.
#[derive(Debug)]
pub struct Results {
    /// The run's start timestamp, milliseconds since the Unix epoch; also
    /// names the report file.
    pub system_time: u128,
    /// The engine's version string.
    pub datafusion_version: String,
    /// Optional provenance identifier of the engine build.
    pub datafusion_github_sha: Option<String>,
    /// The engine's effective configuration, as name/value pairs.
    pub config: Vec<(String, String)>,
    /// The literal command-line invocation, in order.
    pub command_line_args: Vec<String>,
    /// How long registering every table took, in milliseconds.
    pub register_tables_time: u128,
    /// Per attempted query: its number and its per-iteration durations.
    pub query_times: Vec<(u8, Vec<u128>)>,
}

impl Results {
    /// Starts the record: captures the current time and the engine's
    /// version; everything else starts empty and is filled in as the run
    /// proceeds.
    pub fn new(engine_version: String) -> (r: Self)
        ensures
            r.datafusion_version == engine_version,
            r.datafusion_github_sha is None,
            r.config@ == Seq::<(String, String)>::empty(),
            r.command_line_args@ == Seq::<String>::empty(),
            r.register_tables_time == 0,
            r.query_times@ == Seq::<(u8, Vec<u128>)>::empty(),
    {
        Results {
            system_time: now_epoch_millis(),
            datafusion_version: engine_version,
            datafusion_github_sha: None,
            config: Vec::new(),
            command_line_args: Vec::new(),
            register_tables_time: 0,
            query_times: Vec::new(),
        }
    }

    /// Appends one argument of the command-line invocation.
    pub fn push_command_line_arg(&mut self, arg: String)
        ensures
            final(self).command_line_args@ == old(self).command_line_args@.push(arg),
            final(self).system_time == old(self).system_time,
            final(self).datafusion_version == old(self).datafusion_version,
            final(self).datafusion_github_sha == old(self).datafusion_github_sha,
            final(self).config == old(self).config,
            final(self).register_tables_time == old(self).register_tables_time,
            final(self).query_times == old(self).query_times,
    {
        self.command_line_args.push(arg);
    }

    /// Records the engine build's provenance identifier.
    pub fn set_revision(&mut self, rev: Option<String>)
        ensures
            final(self).datafusion_github_sha == rev,
            final(self).system_time == old(self).system_time,
            final(self).datafusion_version == old(self).datafusion_version,
            final(self).config == old(self).config,
            final(self).command_line_args == old(self).command_line_args,
            final(self).register_tables_time == old(self).register_tables_time,
            final(self).query_times == old(self).query_times,
    {
        self.datafusion_github_sha = rev;
    }

    /// Copies the engine's effective-configuration snapshot into the
    /// record — once, before any query executes.
    pub fn record_config(&mut self, options: Vec<(String, String)>)
        requires
            old(self).config@.len() == 0,
        ensures
            final(self).config == options,
            final(self).system_time == old(self).system_time,
            final(self).datafusion_version == old(self).datafusion_version,
            final(self).datafusion_github_sha == old(self).datafusion_github_sha,
            final(self).command_line_args == old(self).command_line_args,
            final(self).register_tables_time == old(self).register_tables_time,
            final(self).query_times == old(self).query_times,
    {
        self.config = options;
    }

    /// Stores the table-registration latency — once.
    pub fn record_table_binding(&mut self, millis: u128)
        ensures
            final(self).register_tables_time == millis,
            final(self).system_time == old(self).system_time,
            final(self).datafusion_version == old(self).datafusion_version,
            final(self).datafusion_github_sha == old(self).datafusion_github_sha,
            final(self).config == old(self).config,
            final(self).command_line_args == old(self).command_line_args,
            final(self).query_times == old(self).query_times,
    {
        self.register_tables_time = millis;
    }

    /// Appends one query's per-iteration durations. Append-only: every
    /// earlier entry stays where it was.
    pub fn record_query_result(&mut self, query_no: u8, durations: Vec<u128>)
        ensures
            final(self).query_times@ == old(self).query_times@.push((query_no, durations)),
            final(self).system_time == old(self).system_time,
            final(self).datafusion_version == old(self).datafusion_version,
            final(self).datafusion_github_sha == old(self).datafusion_github_sha,
            final(self).config == old(self).config,
            final(self).command_line_args == old(self).command_line_args,
            final(self).register_tables_time == old(self).register_tables_time,
    {
        self.query_times.push((query_no, durations));
    }

}

impl Default for Results {
    /// An all-empty record, timestamped zero.
    fn default() -> (r: Self)
        ensures
            r.system_time == 0,
            r.datafusion_version@ == Seq::<char>::empty(),
            r.datafusion_github_sha is None,
            r.config@ == Seq::<(String, String)>::empty(),
            r.command_line_args@ == Seq::<String>::empty(),
            r.register_tables_time == 0,
            r.query_times@ == Seq::<(u8, Vec<u128>)>::empty(),
    {
        Results {
            system_time: 0,
            datafusion_version: String::new(),
            datafusion_github_sha: None,
            config: Vec::new(),
            command_line_args: Vec::new(),
            register_tables_time: 0,
            query_times: Vec::new(),
        }
    }
}

} // verus!
