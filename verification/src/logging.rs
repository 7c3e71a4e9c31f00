//! Names of the daily log files and the rule that retires old ones.

use vstd::prelude::*;

use crate::text::{
    chars_of, ends_with, has_prefix, has_suffix, push_str, starts_with_chars, string_from_chars,
};

verus! {

/// The product name that every log file name starts with.
pub const LOG_FILE_STEM: &'static str = "steady-ink";

/// How long a log file is kept, in nanoseconds: seven days.
pub const LOG_RETENTION_NANOS: u128 = 604800000000000;

/// The name of the log file for a local date written as text: `steady-ink.<date>.log`.
pub open spec fn log_file_name_of(date: Seq<char>) -> Seq<char> {
    LOG_FILE_STEM@ + "."@ + date + ".log"@
}

/// Whether a file name belongs to the product's logs, under the daily naming
/// (`steady-ink.<date>.log`) or the earlier one (`steady-ink.log.<suffix>`).
pub open spec fn is_log_file_name(name: Seq<char>) -> bool {
    (has_prefix(name, LOG_FILE_STEM@ + "."@) && has_suffix(name, ".log"@)) || has_prefix(
        name,
        LOG_FILE_STEM@ + ".log."@,
    )
}

/// The log file name for a local date that the caller formatted.
pub fn log_file_name(date: &str) -> (name: String)
    ensures
        name@ == log_file_name_of(date@),
{
    let mut chars: Vec<char> = Vec::new();
    push_str(&mut chars, LOG_FILE_STEM);
    push_str(&mut chars, ".");
    push_str(&mut chars, date);
    push_str(&mut chars, ".log");
    string_from_chars(&chars)
}

/// Whether a file name belongs to the product's logs, current or earlier naming.
pub fn is_steady_ink_log_file(name: &str) -> (is_log: bool)
    ensures
        is_log == is_log_file_name(name@),
{
    let chars = chars_of(name);
    let mut stem_dot: Vec<char> = Vec::new();
    push_str(&mut stem_dot, LOG_FILE_STEM);
    push_str(&mut stem_dot, ".");
    let mut stem_log: Vec<char> = Vec::new();
    push_str(&mut stem_log, LOG_FILE_STEM);
    push_str(&mut stem_log, ".log.");
    let dated = starts_with_chars(&chars, &stem_dot) && ends_with(&chars, ".log");
    dated || starts_with_chars(&chars, &stem_log)
}

/// Every log file that the logger names for a date is recognised as one of the
/// product's logs, so that retention cleanup reaches it.
pub proof fn lemma_daily_log_is_recognized(date: Seq<char>)
    ensures
        is_log_file_name(log_file_name_of(date)),
{
    let name = log_file_name_of(date);
    let head = LOG_FILE_STEM@ + "."@;
    assert(name == head + (date + ".log"@));
    assert(name.subrange(0, head.len() as int) =~= head);
    assert(name == (head + date) + ".log"@);
    assert(name.subrange(name.len() - ".log"@.len(), name.len() as int) =~= ".log"@);
}

/// Whether a log file whose age is known is past the retention period; a file
/// whose age cannot be told (its time lies ahead) is kept.
pub fn log_is_expired(age_nanos: Option<u128>) -> (expired: bool)
    ensures
        expired == (age_nanos matches Some(age) && age > LOG_RETENTION_NANOS),
{
    match age_nanos {
        Some(age) => age > LOG_RETENTION_NANOS,
        None => false,
    }
}

} // verus!
