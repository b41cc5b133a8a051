//! The directories in which the application keeps its data, and the names of
//! the files in them.

use crate::clock::{local_time_text, FILE_STAMP_FORMAT};
use vstd::prelude::*;
use vstd::string::StringExecFns;

verus! {

/// Seconds in a day.
pub const SECONDS_PER_DAY: u64 = 86400;

/// The text of the path that `std::path::Path::join` makes of the path with
/// the text `base` and the path with the text `name`. On one platform it
/// depends on the two texts alone.
pub uninterp spec fn joined_path(base: Seq<char>, name: Seq<char>) -> Seq<char>;

/// Calls `std::path::Path::join` on the path that `base` spells, with the
/// path that `name` spells, and hands back the text of the result.
#[verifier::external_body]
fn join_path(base: &str, name: &str) -> (path: String)
    ensures
        path@ == joined_path(base@, name@),
{
    std::path::Path::new(base).join(name).to_string_lossy().into_owned()
}

/// The name of the temporary CSV file that was begun at `timestamp`.
pub open spec fn csv_temp_name(timestamp: Seq<char>) -> Seq<char> {
    "robot_data_"@ + timestamp + ".csv"@
}

/// The name of the log file of the day `date`.
pub open spec fn log_name(date: Seq<char>) -> Seq<char> {
    date + ".log"@
}

/// The name of the temporary CSV file that was begun at `timestamp`.
pub fn csv_temp_file_name(timestamp: &str) -> (name: String)
    ensures
        name@ == csv_temp_name(timestamp@),
{
    String::from_str("robot_data_").concat(timestamp).concat(".csv")
}

/// The name of the log file of the day `date`.
pub fn log_file_name(date: &str) -> (name: String)
    ensures
        name@ == log_name(date@),
{
    String::from_str(date).concat(".log")
}

/// Whether a file created at `created_secs` is older at `now_secs` than
/// `keep_days` days, so that a cleanup removes it.
pub fn is_stale(created_secs: u64, now_secs: u64, keep_days: u32) -> (stale: bool)
    ensures
        stale == (created_secs + keep_days * SECONDS_PER_DAY < now_secs),
{
    let window: u64 = keep_days as u64 * SECONDS_PER_DAY;
    now_secs >= window && created_secs < now_secs - window
}

/// The directories of the user's data, each as the text of its path.
#[derive(Debug, Clone)]
pub struct UserDataPaths {
    /// The root directory.
    pub root: String,
    /// The directory of the logs, `logs` under the root.
    pub logs: String,
    /// The directory of the saved CSV files, `csv_data` under the root.
    pub csv_data: String,
    /// The directory of the temporary CSV files, `csv_temp` under the root.
    pub csv_temp: String,
    /// The directory of the configuration, `config` under the root.
    pub config: String,
}

impl UserDataPaths {
    /// The directories under `root`.
    pub fn new(root: &str) -> (paths: Self)
        ensures
            paths.root@ == root@,
            paths.logs@ == joined_path(root@, "logs"@),
            paths.csv_data@ == joined_path(root@, "csv_data"@),
            paths.csv_temp@ == joined_path(root@, "csv_temp"@),
            paths.config@ == joined_path(root@, "config"@),
    {
        UserDataPaths {
            root: String::from_str(root),
            logs: join_path(root, "logs"),
            csv_data: join_path(root, "csv_data"),
            csv_temp: join_path(root, "csv_temp"),
            config: join_path(root, "config"),
        }
    }

    /// The path of the temporary CSV file that was begun at `timestamp`.
    pub fn csv_temp_file(&self, timestamp: &str) -> (path: String)
        ensures
            path@ == joined_path(self.csv_temp@, csv_temp_name(timestamp@)),
    {
        let name = csv_temp_file_name(timestamp);
        join_path(self.csv_temp.as_str(), name.as_str())
    }

    /// The path of a temporary CSV file that is begun now: its name holds
    /// the local time of this moment.
    pub fn fresh_csv_temp_file(&self) -> (path: String)
        ensures
            exists|stamp: Seq<char>|
                path@ == joined_path(self.csv_temp@, #[trigger] csv_temp_name(stamp)),
    {
        let stamp = local_time_text(FILE_STAMP_FORMAT);
        let path = self.csv_temp_file(stamp.as_str());
        assert(path@ == joined_path(self.csv_temp@, csv_temp_name(stamp@)));
        path
    }

    /// The path of the log file of the day `date`.
    pub fn log_file(&self, date: &str) -> (path: String)
        ensures
            path@ == joined_path(self.logs@, log_name(date@)),
    {
        let name = log_file_name(date);
        join_path(self.logs.as_str(), name.as_str())
    }
}

} // verus!
