//! Checks on the data directory and import files, and backup file names.
//! The file system is asked by the caller; these functions decide on its
//! answers.
use vstd::prelude::*;
use vstd::string::*;
use crate::tui_error::{TuiError, TuiResult};

verus! {

/// The outcome of checking a path: what is wrong with it, if anything.
pub open spec fn path_check(
    exists: bool,
    expected_kind: bool,
    missing: Seq<char>,
    wrong_kind: Seq<char>,
    path_debug: Seq<char>,
) -> Option<Seq<char>> {
    if !exists {
        Some(missing + path_debug)
    } else if !expected_kind {
        Some(wrong_kind + path_debug)
    } else {
        None
    }
}

/// The message of a result: `None` for success, the state error's text
/// otherwise.
pub open spec fn state_error_text(r: TuiResult<()>) -> Option<Seq<char>> {
    match r {
        Ok(_) => None,
        Err(TuiError::State { message }) => Some(message@),
        Err(TuiError::Core(s)) => Some(s@),
    }
}

/// Checks the data directory: it must exist and be a directory.
/// `path_debug` is the path as `{:?}` shows it; `exists` and `is_dir` are
/// what the file system says of it.
pub fn validate_data_dir(path_debug: &str, exists: bool, is_dir: bool) -> (r: TuiResult<()>)
    ensures
        state_error_text(r) == path_check(
            exists,
            is_dir,
            "Data directory does not exist: "@,
            "Data path is not a directory: "@,
            path_debug@,
        ),
        r is Err ==> r matches Err(TuiError::State { .. }),
{
    if !exists {
        return Err(
            TuiError::State {
                message: String::from_str("Data directory does not exist: ").concat(path_debug),
            },
        );
    }
    if !is_dir {
        return Err(
            TuiError::State { message: String::from_str("Data path is not a directory: ").concat(path_debug) },
        );
    }
    Ok(())
}

/// Checks an import file: it must exist and be a file. `path_debug` is the
/// path as `{:?}` shows it; `exists` and `is_file` are what the file system
/// says of it.
pub fn validate_import_file(path_debug: &str, exists: bool, is_file: bool) -> (r: TuiResult<()>)
    ensures
        state_error_text(r) == path_check(
            exists,
            is_file,
            "Import file does not exist: "@,
            "Import path is not a file: "@,
            path_debug@,
        ),
        r is Err ==> r matches Err(TuiError::State { .. }),
{
    if !exists {
        return Err(
            TuiError::State { message: String::from_str("Import file does not exist: ").concat(path_debug) },
        );
    }
    if !is_file {
        return Err(
            TuiError::State { message: String::from_str("Import path is not a file: ").concat(path_debug) },
        );
    }
    Ok(())
}

/// Whether a character is an ASCII digit.
pub open spec fn is_digit(c: char) -> bool {
    '0' <= c && c <= '9'
}

/// Whether a text has the shape `chrono`'s `%Y%m%d_%H%M%S` gives: the year
/// (at least four characters), then month, day, an underscore, hours,
/// minutes and seconds, each two digits.
pub open spec fn stamp_shaped(ts: Seq<char>) -> bool {
    &&& ts.len() >= 15
    &&& ts[ts.len() - 7] == '_'
    &&& forall|i: int| ts.len() - 6 <= i < ts.len() ==> is_digit(#[trigger] ts[i])
    &&& forall|i: int| ts.len() - 11 <= i < ts.len() - 7 ==> is_digit(#[trigger] ts[i])
}

/// The current time as `chrono::Utc::now().format("%Y%m%d_%H%M%S")` writes
/// it. Claimed: the text has that format's shape, ending in month, day, an
/// underscore and the time of day as two-digit numbers after a year of at
/// least four characters. Which time it is depends on the clock and is left
/// unstated.
#[verifier::external_body]
fn utc_timestamp_text() -> (ts: String)
    ensures
        stamp_shaped(ts@),
{
    chrono::Utc::now().format("%Y%m%d_%H%M%S").to_string()
}

/// The backup file name for a time stamp: `backup_<stamp>.toml`.
pub fn backup_filename(stamp: &str) -> (name: String)
    ensures
        name@ == "backup_"@ + stamp@ + ".toml"@,
{
    String::from_str("backup_").concat(stamp).concat(".toml")
}

/// A backup file name stamped with the current time:
/// `backup_<timestamp>.toml`, the stamp as `stamp_shaped` says.
pub fn create_backup_filename() -> (name: String)
    ensures
        exists|ts: Seq<char>| #[trigger] stamp_shaped(ts) && name@ == "backup_"@ + ts + ".toml"@,
{
    let ts = utc_timestamp_text();
    let name = backup_filename(ts.as_str());
    assert(stamp_shaped(ts@) && name@ == "backup_"@ + ts@ + ".toml"@);
    name
}

} // verus!
