//! Names of the recovery files and of the copies that corrupt files are moved to.

use vstd::prelude::*;

use crate::recovery::record::recovery_error_text;
use crate::recovery::store::{CheckpointLoad, JournalOutcome};
use crate::text::{decimal, push_decimal, push_str, string_from_chars};

verus! {

/// The full checkpoint.
pub const CHECKPOINT_FILE: &'static str = "checkpoint.sink";
/// The checkpoint being written, renamed over the checkpoint once complete.
pub const CHECKPOINT_TEMP_FILE: &'static str = "checkpoint.sink.tmp";
/// The append-only delta journal.
pub const JOURNAL_FILE: &'static str = "journal.sink";

/// The name a corrupt file is moved to: `<name>.corrupt-<milliseconds>`.
pub open spec fn quarantine_name_of(file_name: Seq<char>, timestamp_millis: u128) -> Seq<char> {
    file_name + ".corrupt-"@ + decimal(timestamp_millis as nat)
}

/// The name that keeps a corrupt recovery file for diagnosis, stamped with the
/// time in milliseconds since the Unix epoch.
pub fn quarantine_target_name(file_name: &str, timestamp_millis: u128) -> (name: String)
    ensures
        name@ == quarantine_name_of(file_name@, timestamp_millis),
{
    let mut chars: Vec<char> = Vec::new();
    push_str(&mut chars, file_name);
    push_str(&mut chars, ".corrupt-");
    push_decimal(&mut chars, timestamp_millis);
    string_from_chars(&chars)
}

/// The moved files joined by `", "`.
pub open spec fn joined(names: Seq<Seq<char>>) -> Seq<char>
    decreases names.len(),
{
    if names.len() == 0 {
        Seq::empty()
    } else if names.len() == 1 {
        names[0]
    } else {
        joined(names.drop_last()) + ", "@ + names.last()
    }
}

/// The views of a list of strings.
pub open spec fn string_views(names: Seq<String>) -> Seq<Seq<char>> {
    names.map_values(|name: String| name@)
}

/// The report of a quarantine: the moved files joined by `", "`, or a note
/// that there was nothing to move.
pub fn quarantine_summary(isolated: &Vec<String>) -> (summary: String)
    ensures
        isolated@.len() == 0 ==> summary@ == "没有需要隔离的文件"@,
        isolated@.len() > 0 ==> summary@ == joined(string_views(isolated@)),
{
    if isolated.len() == 0 {
        let mut chars: Vec<char> = Vec::new();
        push_str(&mut chars, "没有需要隔离的文件");
        assert(chars@ =~= "没有需要隔离的文件"@);
        return string_from_chars(&chars);
    }
    let ghost views = string_views(isolated@);
    let mut chars: Vec<char> = Vec::new();
    push_str(&mut chars, isolated[0].as_str());
    assert(views.subrange(0, 1) =~= seq![views[0]]);
    let mut i: usize = 1;
    while i < isolated.len()
        invariant
            views == string_views(isolated@),
            1 <= i <= isolated@.len(),
            chars@ == joined(views.subrange(0, i as int)),
        decreases isolated@.len() - i,
    {
        push_str(&mut chars, ", ");
        push_str(&mut chars, isolated[i].as_str());
        assert(views.subrange(0, i + 1).drop_last() =~= views.subrange(0, i as int));
        i = i + 1;
    }
    assert(views.subrange(0, i as int) =~= views);
    string_from_chars(&chars)
}

/// The start-up notice for the checkpoint file, given the quarantine report of
/// the files that were moved aside.
pub open spec fn checkpoint_notice(load: CheckpointLoad, isolated: Seq<char>) -> Option<Seq<char>> {
    match load {
        CheckpointLoad::Empty | CheckpointLoad::Loaded => None,
        CheckpointLoad::OrphanJournal => Some("缺少恢复检查点，已隔离 journal: "@ + isolated),
        CheckpointLoad::WrongKind => Some("检查点记录类型无效，已隔离: "@ + isolated),
        CheckpointLoad::Corrupt { error } => Some(
            "检查点损坏，已隔离: "@ + recovery_error_text(error) + "; "@ + isolated,
        ),
    }
}

/// The start-up notice for how the checkpoint was found.
pub fn checkpoint_diagnostic(load: &CheckpointLoad, isolated: &str) -> (notice: Option<String>)
    ensures
        match checkpoint_notice(*load, isolated@) {
            None => notice is None,
            Some(text) => notice matches Some(n) && n@ == text,
        },
{
    let mut chars: Vec<char> = Vec::new();
    match load {
        CheckpointLoad::Empty | CheckpointLoad::Loaded => return None,
        CheckpointLoad::OrphanJournal => {
            push_str(&mut chars, "缺少恢复检查点，已隔离 journal: ");
            push_str(&mut chars, isolated);
        },
        CheckpointLoad::WrongKind => {
            push_str(&mut chars, "检查点记录类型无效，已隔离: ");
            push_str(&mut chars, isolated);
        },
        CheckpointLoad::Corrupt { error } => {
            push_str(&mut chars, "检查点损坏，已隔离: ");
            let text = error.message();
            push_str(&mut chars, text.as_str());
            push_str(&mut chars, "; ");
            push_str(&mut chars, isolated);
        },
    }
    Some(string_from_chars(&chars))
}

/// The start-up notice after the journal was replayed, given the quarantine
/// report of a corrupt journal.
pub open spec fn journal_notice(outcome: JournalOutcome, isolated: Seq<char>) -> Option<Seq<char>> {
    match outcome {
        JournalOutcome::Complete => None,
        JournalOutcome::IncompleteTail { .. } => Some("已忽略并截断崩溃产生的不完整 journal 尾部"@),
        JournalOutcome::Corrupt { error } => Some(
            "journal 损坏，已保留有效前缀并隔离: "@ + recovery_error_text(error) + "; "@ + isolated,
        ),
    }
}

/// The start-up notice for how the journal replay ended.
pub fn journal_diagnostic(outcome: &JournalOutcome, isolated: &str) -> (notice: Option<String>)
    ensures
        match journal_notice(*outcome, isolated@) {
            None => notice is None,
            Some(text) => notice matches Some(n) && n@ == text,
        },
{
    let mut chars: Vec<char> = Vec::new();
    match outcome {
        JournalOutcome::Complete => return None,
        JournalOutcome::IncompleteTail { .. } => {
            push_str(&mut chars, "已忽略并截断崩溃产生的不完整 journal 尾部");
            assert(chars@ =~= "已忽略并截断崩溃产生的不完整 journal 尾部"@);
        },
        JournalOutcome::Corrupt { error } => {
            push_str(&mut chars, "journal 损坏，已保留有效前缀并隔离: ");
            let text = error.message();
            push_str(&mut chars, text.as_str());
            push_str(&mut chars, "; ");
            push_str(&mut chars, isolated);
        },
    }
    Some(string_from_chars(&chars))
}

} // verus!
