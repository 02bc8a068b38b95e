//! Where the report of a run is written.

use std::fmt::Write;
use vstd::prelude::*;
use vstd::string::StringExecFns;

verus! {

#[verifier::external_type_specification]
#[verifier::external_body]
pub struct ExParseError(chrono::ParseError);

/// Why no report can be written.
#[derive(Debug)]
pub enum ReportError {
    /// The time of the run is not written the way RFC 3339 asks.
    BadTimestamp { cause: chrono::ParseError },
    /// The pattern for the file stamp asks for something that cannot be
    /// written.
    BadPattern,
}

/// The time `timestamp`, read the way RFC 3339 asks, written out again
/// after `pattern`, in the offset that `timestamp` is written in; or
/// nothing where `timestamp` cannot be read or `pattern` cannot be
/// followed.
pub uninterp spec fn file_stamp(timestamp: Seq<char>, pattern: Seq<char>) -> Option<Seq<char>>;

/// The pattern of the stamp in a report's name: year, month and day with
/// hyphens between them, an underscore, then hour, minute and second with
/// hyphens between them.
pub open spec fn stamp_pattern() -> Seq<char> {
    "%Y-%m-%d_%H-%M-%S"@
}

/// The path of the report of the run that is stamped `stamp`.
pub open spec fn report_path_text(stamp: Seq<char>) -> Seq<char> {
    "reports"@ + "/run_"@ + stamp + ".json"@
}

/// Calls `DateTime::parse_from_rfc3339` and, on what it returns,
/// `DateTime::format` with `pattern`. The first reads a time written the
/// way RFC 3339 asks or says why it cannot; the second writes that time
/// out again after the pattern, or fails where the pattern cannot be
/// followed. What comes out depends on `timestamp` and `pattern` alone.
#[verifier::external_body]
pub(crate) fn stamp_of(timestamp: &str, pattern: &str) -> (stamped: Result<String, ReportError>)
    ensures
        stamped is Ok == file_stamp(timestamp@, pattern@) is Some,
        stamped is Ok ==> stamped->Ok_0@ == file_stamp(timestamp@, pattern@)->Some_0,
{
    match chrono::DateTime::parse_from_rfc3339(timestamp) {
        Ok(moment) => {
            let mut text = String::new();
            match write!(text, "{}", moment.format(pattern)) {
                Ok(()) => Ok(text),
                Err(_) => Err(ReportError::BadPattern),
            }
        },
        Err(cause) => Err(ReportError::BadTimestamp { cause }),
    }
}

/// The directory that reports are written to.
pub fn report_directory() -> (directory: String)
    ensures
        directory@ == "reports"@,
{
    String::from_str("reports")
}

/// Builds the path of the report of the run that is stamped `stamp`.
pub fn report_path(stamp: &str) -> (path: String)
    ensures
        path@ == report_path_text(stamp@),
{
    let mut path = report_directory();
    path.append("/run_");
    path.append(stamp);
    path.append(".json");
    path
}

/// Builds the path of the report of the run that took place at
/// `timestamp_utc`, or says why there is none.
pub fn report_path_for(timestamp_utc: &str) -> (path: Result<String, ReportError>)
    ensures
        path is Ok == file_stamp(timestamp_utc@, stamp_pattern()) is Some,
        path is Ok ==> path->Ok_0@ == report_path_text(
            file_stamp(timestamp_utc@, stamp_pattern())->Some_0,
        ),
{
    match stamp_of(timestamp_utc, "%Y-%m-%d_%H-%M-%S") {
        Ok(stamp) => Ok(report_path(stamp.as_str())),
        Err(error) => Err(error),
    }
}

} // verus!
