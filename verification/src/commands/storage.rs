//! Loading and changing the upload history.

use crate::commands::config::{file_text, read_back_detail, read_back_mismatch, written};
use crate::error::{StorageError, Store};
use crate::json::{json_parsed, json_text, parse, render, shape_detail, shape_mismatch};
use crate::storage::{doc_history, history_doc, history_from_value, history_to_value, records_view};
use crate::storage::{HistoryData, UploadRecord, UploadRecordView};
use vstd::prelude::*;

verus! {

/// What the caller is to do with a file after an operation.
#[derive(Debug, Clone, PartialEq, Eq)]
pub enum FileChange {
    /// Leave the file as it is.
    Keep,
    /// Replace the file's text, creating the file where there is none.
    Write(String),
    /// Delete the file.
    Remove,
}

impl FileChange {
    /// The state of a file after the change: its text, or `None` where there
    /// is no file.
    pub open spec fn apply(self, file: Option<Seq<char>>) -> Option<Seq<char>> {
        match self {
            FileChange::Keep => file,
            FileChange::Write(text) => Some(text@),
            FileChange::Remove => None,
        }
    }
}

/// The history that a text holds: the text must be JSON, and the document
/// must have the shape of a history.
pub open spec fn stored_history(text: Seq<char>) -> Option<Seq<UploadRecordView>> {
    match json_parsed(text) {
        Some(doc) => doc_history(doc),
        None => None,
    }
}

/// The history that a file stands for: no records where there is no file,
/// else what its text holds.
pub open spec fn history_in(file: Option<Seq<char>>) -> Option<Seq<UploadRecordView>> {
    match file {
        Some(text) => stored_history(text),
        None => Some(Seq::empty()),
    }
}

/// The text that is written for a history: its document as printed, provided
/// that the text holds the history again when it is read.
pub open spec fn written_history(records: Seq<UploadRecordView>) -> Option<Seq<char>> {
    match json_text(history_doc(records)) {
        Some(text) => if stored_history(text) == Some(records) {
            Some(text)
        } else {
            None
        },
        None => None,
    }
}

/// The history that a file holds after a record was appended to it.
pub open spec fn appended(file: Option<Seq<char>>, record: UploadRecordView) -> Option<Seq<UploadRecordView>> {
    match history_in(file) {
        Some(records) => Some(records.push(record)),
        None => None,
    }
}

/// The records that are left when every record with the given id is taken
/// out: the others, in their order.
pub open spec fn without_id(records: Seq<UploadRecordView>, id: Seq<char>) -> Seq<UploadRecordView> {
    records.filter(|record: UploadRecordView| record.id != id)
}

/// How often an id occurs among the records.
pub open spec fn occurrences(records: Seq<UploadRecordView>, id: Seq<char>) -> nat {
    records.filter(|record: UploadRecordView| record.id == id).len()
}

/// The change that empties the history.
pub open spec fn cleared(file_exists: bool) -> FileChange {
    if file_exists {
        FileChange::Remove
    } else {
        FileChange::Keep
    }
}

fn read_history(file: Option<&str>) -> (r: Result<HistoryData, StorageError>)
    ensures
        match r {
            Ok(history) => history_in(file_text(file)) == Some(history@),
            Err(StorageError::Parse { store, detail }) => {
                &&& store == Store::History
                &&& history_in(file_text(file)) is None
                &&& json_parsed(file.unwrap()@) is Some ==> detail@ == shape_detail()
            },
            Err(_) => false,
        },
{
    let text = match file {
        Some(text) => text,
        None => {
            let history = HistoryData::default();
            return Ok(history);
        },
    };
    match parse(text) {
        Ok(value) => match history_from_value(&value) {
            Some(history) => Ok(history),
            None => Err(StorageError::Parse { store: Store::History, detail: shape_mismatch() }),
        },
        Err(e) => Err(StorageError::Parse { store: Store::History, detail: e.to_string() }),
    }
}

/// The records of the history file, in the order in which they were
/// appended. `file` is the text of the file, `None` where there is no file: a
/// missing file is an empty history, no error.
///
/// Fails, with `Parse`, exactly where the text of the file holds no history.
pub fn load_history(file: Option<&str>) -> (r: Result<Vec<UploadRecord>, StorageError>)
    ensures
        match r {
            Ok(records) => {
                &&& history_in(file_text(file)) == Some(records_view(records@))
                &&& file is None ==> records@.len() == 0
            },
            Err(StorageError::Parse { store, detail }) => {
                &&& store == Store::History
                &&& history_in(file_text(file)) is None
                &&& json_parsed(file.unwrap()@) is Some ==> detail@ == shape_detail()
            },
            Err(_) => false,
        },
{
    match read_history(file) {
        Ok(history) => {
            assert(records_view(history.records@).len() == history.records@.len());
            Ok(history.records)
        },
        Err(e) => Err(e),
    }
}

/// Whether two records have the same content.
pub fn same_record(a: &UploadRecord, b: &UploadRecord) -> (same: bool)
    ensures
        same == (a@ == b@),
{
    a.id == b.id && a.file_name == b.file_name && a.file_size == b.file_size && a.local_path
        == b.local_path && a.upload_url == b.upload_url && a.uploaded_at == b.uploaded_at
        && a.status == b.status
}

/// Whether two sequences of records have the same content, in the same order.
pub fn same_records(a: &Vec<UploadRecord>, b: &Vec<UploadRecord>) -> (same: bool)
    ensures
        same == (records_view(a@) == records_view(b@)),
{
    if a.len() != b.len() {
        assert(records_view(a@).len() != records_view(b@).len());
        return false;
    }
    let mut i: usize = 0;
    while i < a.len()
        invariant
            i <= a.len(),
            a.len() == b.len(),
            forall|j: int| 0 <= j < i ==> (#[trigger] a[j])@ == b[j]@,
        decreases a.len() - i,
    {
        if !same_record(&a[i], &b[i]) {
            assert(records_view(a@)[i as int] != records_view(b@)[i as int]);
            return false;
        }
        i += 1;
    }
    assert(records_view(a@) =~= records_view(b@));
    true
}

/// Reads a text that was printed for a history, and passes it on only if it
/// holds that history.
pub fn confirm_history(text: String, history: &HistoryData) -> (r: Result<String, StorageError>)
    ensures
        match r {
            Ok(confirmed) => confirmed == text && stored_history(text@) == Some(history@),
            Err(StorageError::Serialization { store, detail }) => {
                &&& store == Store::History
                &&& stored_history(text@) != Some(history@)
                &&& detail@ == read_back_detail()
            },
            Err(_) => false,
        },
{
    let holds = match read_history(Some(text.as_str())) {
        Ok(read) => same_records(&read.records, &history.records),
        Err(_) => false,
    };
    if holds {
        Ok(text)
    } else {
        Err(StorageError::Serialization { store: Store::History, detail: read_back_mismatch() })
    }
}

/// The text to write to the history file so that it holds `history`.
///
/// The text is the document of the history as `serde_json` prints it, and it
/// is returned only after it was read again and found to hold `history`.
/// Fails, with `Serialization`, exactly where there is no such text.
pub fn write_history(history: &HistoryData) -> (r: Result<String, StorageError>)
    ensures
        match r {
            Ok(text) => written_history(history@) == Some(text@) && stored_history(text@) == Some(
                history@,
            ),
            Err(StorageError::Serialization { store, .. }) => store == Store::History
                && written_history(history@) is None,
            Err(_) => false,
        },
{
    let value = history_to_value(history);
    match written(render(&value), Store::History) {
        Ok(text) => confirm_history(text, history),
        Err(e) => Err(e),
    }
}

/// A record with the same content.
pub fn copy_of(record: &UploadRecord) -> (copy: UploadRecord)
    ensures
        copy@ == record@,
{
    UploadRecord {
        id: record.id.clone(),
        file_name: record.file_name.clone(),
        file_size: record.file_size,
        local_path: record.local_path.clone(),
        upload_url: record.upload_url.clone(),
        uploaded_at: record.uploaded_at.clone(),
        status: record.status.clone(),
    }
}

/// The records whose id differs from `id`, in their order.
pub fn remove_by_id(records: &Vec<UploadRecord>, id: &str) -> (kept: Vec<UploadRecord>)
    ensures
        records_view(kept@) == without_id(records_view(records@), id@),
{
    let unwanted: String = id.to_owned();
    let mut kept: Vec<UploadRecord> = Vec::new();
    let mut i: usize = 0;
    assert(records_view(records@).take(0) =~= Seq::empty());
    assert(without_id(Seq::empty(), id@) =~= Seq::empty()) by {
        reveal(Seq::filter);
    }
    while i < records.len()
        invariant
            i <= records.len(),
            unwanted@ == id@,
            records_view(kept@) == without_id(records_view(records@).take(i as int), id@),
        decreases records.len() - i,
    {
        let ghost seen = records_view(records@).take(i as int);
        let ghost before = records_view(kept@);
        proof {
            assert(records_view(records@).take(i + 1) =~= seen.push(records[i as int]@));
            seen.lemma_filter_push(records[i as int]@, |record: UploadRecordView| record.id != id@);
        }
        if !(records[i].id == unwanted) {
            kept.push(copy_of(&records[i]));
            assert(records_view(kept@) =~= before.push(records[i as int]@));
        }
        i += 1;
    }
    assert(records_view(records@).take(records.len() as int) =~= records_view(records@));
    kept
}

/// The text to write to the history file so that it holds the records it
/// held, followed by `record`. `file` is the text of the file, `None` where
/// there is no file, which stands for an empty history. A record whose id is
/// already there is appended like any other.
///
/// What this function gives, [`load_history`] reads as those records. Fails
/// with `Parse` exactly where the text of the file holds no history, and else
/// with `Serialization` exactly where no text can be written for the longer
/// history.
pub fn save_record(file: Option<&str>, record: UploadRecord) -> (r: Result<String, StorageError>)
    ensures
        match r {
            Ok(text) => {
                &&& appended(file_text(file), record@) is Some
                &&& written_history(appended(file_text(file), record@).unwrap()) == Some(text@)
                &&& stored_history(text@) == appended(file_text(file), record@)
            },
            Err(StorageError::Parse { store, detail }) => {
                &&& store == Store::History
                &&& history_in(file_text(file)) is None
                &&& json_parsed(file.unwrap()@) is Some ==> detail@ == shape_detail()
            },
            Err(StorageError::Serialization { store, .. }) => {
                &&& store == Store::History
                &&& appended(file_text(file), record@) is Some
                &&& written_history(appended(file_text(file), record@).unwrap()) is None
            },
            Err(_) => false,
        },
{
    let mut history = match read_history(file) {
        Ok(history) => history,
        Err(e) => { return Err(e); },
    };
    let ghost before = history@;
    history.records.push(record);
    assert(history@ =~= before.push(record@));
    write_history(&history)
}

/// What to do with the history file so that it holds no record with the
/// given id: nothing where there is no file, else write the text returned,
/// which holds the other records in their order. An id that no record has
/// leaves the records as they are.
///
/// Fails with `Parse` exactly where the text of the file holds no history,
/// and else with `Serialization` exactly where no text can be written for
/// the records that are left.
pub fn delete_record(file: Option<&str>, id: &str) -> (r: Result<FileChange, StorageError>)
    ensures
        match r {
            Ok(FileChange::Keep) => file is None,
            Ok(FileChange::Write(text)) => {
                &&& file is Some
                &&& stored_history(file.unwrap()@) is Some
                &&& written_history(without_id(stored_history(file.unwrap()@).unwrap(), id@))
                    == Some(text@)
                &&& stored_history(text@) == Some(
                    without_id(stored_history(file.unwrap()@).unwrap(), id@),
                )
            },
            Ok(FileChange::Remove) => false,
            Err(StorageError::Parse { store, detail }) => {
                &&& store == Store::History
                &&& file is Some
                &&& stored_history(file.unwrap()@) is None
                &&& json_parsed(file.unwrap()@) is Some ==> detail@ == shape_detail()
            },
            Err(StorageError::Serialization { store, .. }) => {
                &&& store == Store::History
                &&& file is Some
                &&& stored_history(file.unwrap()@) is Some
                &&& written_history(without_id(stored_history(file.unwrap()@).unwrap(), id@))
                    is None
            },
            Err(_) => false,
        },
{
    if file.is_none() {
        return Ok(FileChange::Keep);
    }
    let history = match read_history(file) {
        Ok(history) => history,
        Err(e) => { return Err(e); },
    };
    let kept = HistoryData { records: remove_by_id(&history.records, id) };
    match write_history(&kept) {
        Ok(text) => Ok(FileChange::Write(text)),
        Err(e) => Err(e),
    }
}

/// What to do with the history file so that the history is empty: delete the
/// file where there is one, nothing where there is none.
pub fn clear_history(file_exists: bool) -> (change: FileChange)
    ensures
        change == cleared(file_exists),
{
    if file_exists {
        FileChange::Remove
    } else {
        FileChange::Keep
    }
}

/// Clearing is idempotent: after the change that empties the history there
/// is no file, whatever was there before; emptying it once more changes
/// nothing; and the history of a missing file is the empty one.
pub proof fn clear_is_idempotent(file: Option<Seq<char>>)
    ensures
        cleared(file is Some).apply(file) is None,
        cleared(false).apply(None) is None,
        history_in(None) == Some(Seq::<UploadRecordView>::empty()),
{
}

/// Deleting an id that no record has leaves the records as they are.
pub proof fn delete_absent_id(records: Seq<UploadRecordView>, id: Seq<char>)
    requires
        forall|i: int| 0 <= i < records.len() ==> (#[trigger] records[i]).id != id,
    ensures
        without_id(records, id) == records,
    decreases records.len(),
{
    reveal(Seq::filter);
    if records.len() > 0 {
        delete_absent_id(records.drop_last(), id);
        assert(records =~= records.drop_last().push(records.last()));
    }
}

/// Deleting an id takes out every record that has it, and no other: no
/// record that is left has the id, and as many records are gone as had it.
pub proof fn delete_removes_every_occurrence(records: Seq<UploadRecordView>, id: Seq<char>)
    ensures
        forall|i: int|
            0 <= i < without_id(records, id).len() ==> (#[trigger] without_id(records, id)[i]).id
                != id,
        without_id(records, id).len() + occurrences(records, id) == records.len(),
        occurrences(without_id(records, id), id) == 0,
    decreases records.len(),
{
    reveal(Seq::filter);
    if records.len() > 0 {
        let rest = records.drop_last();
        delete_removes_every_occurrence(rest, id);
        if records.last().id != id {
            let kept = without_id(rest, id);
            kept.lemma_filter_push(records.last(), |record: UploadRecordView| record.id == id);
        }
    }
}

/// The state of the history file after the given records were appended one
/// by one, starting without a file: the text of the file, or no file where no
/// record was appended. `None` where one of the steps fails.
pub open spec fn file_after_appending(records: Seq<UploadRecordView>) -> Option<Option<Seq<char>>>
    decreases records.len(),
{
    if records.len() == 0 {
        Some(None)
    } else {
        match file_after_appending(records.drop_last()) {
            Some(file) => match appended(file, records.last()) {
                Some(longer) => match written_history(longer) {
                    Some(text) => Some(Some(text)),
                    None => None,
                },
                None => None,
            },
            None => None,
        }
    }
}

/// Appending, then loading: the file that is left when any number of records
/// was appended one by one holds exactly those records, in the order in which
/// they were appended.
pub proof fn appended_records_are_loaded(records: Seq<UploadRecordView>)
    ensures
        file_after_appending(records) is Some ==> history_in(file_after_appending(records).unwrap())
            == Some(records),
    decreases records.len(),
{
    if records.len() == 0 {
        assert(records =~= Seq::empty());
    } else {
        appended_records_are_loaded(records.drop_last());
        assert(records.drop_last().push(records.last()) =~= records);
    }
}

/// An id that occurs no time is the id of no record.
pub proof fn no_occurrence_means_absent(records: Seq<UploadRecordView>, id: Seq<char>)
    requires
        occurrences(records, id) == 0,
    ensures
        forall|i: int| 0 <= i < records.len() ==> (#[trigger] records[i]).id != id,
{
    assert forall|i: int| 0 <= i < records.len() implies (#[trigger] records[i]).id != id by {
        if records[i].id == id {
            records.lemma_filter_contains(|record: UploadRecordView| record.id == id, i);
        }
    }
}

/// Deleting, then loading: the text that is written when an id is deleted
/// holds no record with that id, and holds the same records as before where
/// no record had the id.
pub proof fn deleted_records_are_gone(records: Seq<UploadRecordView>, id: Seq<char>, text: Seq<char>)
    ensures
        written_history(without_id(records, id)) == Some(text) ==> {
            &&& stored_history(text) == Some(without_id(records, id))
            &&& occurrences(stored_history(text).unwrap(), id) == 0
            &&& stored_history(text).unwrap().len() + occurrences(records, id) == records.len()
            &&& occurrences(records, id) == 0 ==> stored_history(text) == Some(records)
        },
{
    delete_removes_every_occurrence(records, id);
    if occurrences(records, id) == 0 {
        no_occurrence_means_absent(records, id);
        delete_absent_id(records, id);
    }
}

/// A text that is read as the document of a history holds that history: the
/// same records, in the order in which they were appended.
pub proof fn history_text_round_trip(records: Seq<UploadRecordView>, text: Seq<char>)
    ensures
        json_parsed(text) == Some(history_doc(records)) ==> stored_history(text) == Some(records)
            && history_in(Some(text)) == Some(records),
{
    crate::storage::history_doc_round_trip(records);
}

} // verus!
