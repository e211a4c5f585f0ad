//! Upload records, the history they form and its JSON form, fresh record
//! ids, and the places of the two files.

use crate::json::{
    array_value, doc_of, docs_of, items_of, member, no_members, object_value, put_member,
    put_text, put_unsigned, text_field, unsigned_field, JsonDoc,
};
use crate::error::StorageError;
use serde_json::Value;
use vstd::prelude::*;

verus! {

/// One logged upload.
#[derive(Debug, Clone, PartialEq, Eq)]
pub struct UploadRecord {
    pub id: String,
    pub file_name: String,
    pub file_size: u64,
    pub local_path: String,
    pub upload_url: String,
    pub uploaded_at: String,
    pub status: String,
}

/// The content of an [`UploadRecord`].
pub struct UploadRecordView {
    pub id: Seq<char>,
    pub file_name: Seq<char>,
    pub file_size: u64,
    pub local_path: Seq<char>,
    pub upload_url: Seq<char>,
    pub uploaded_at: Seq<char>,
    pub status: Seq<char>,
}

impl View for UploadRecord {
    type V = UploadRecordView;

    open spec fn view(&self) -> UploadRecordView {
        UploadRecordView {
            id: self.id@,
            file_name: self.file_name@,
            file_size: self.file_size,
            local_path: self.local_path@,
            upload_url: self.upload_url@,
            uploaded_at: self.uploaded_at@,
            status: self.status@,
        }
    }
}

/// The contents of a sequence of records, in order.
pub open spec fn records_view(records: Seq<UploadRecord>) -> Seq<UploadRecordView> {
    records.map_values(|record: UploadRecord| record@)
}

/// The upload history: records in the order in which they were appended.
#[derive(Debug, Clone, PartialEq, Eq)]
pub struct HistoryData {
    pub records: Vec<UploadRecord>,
}

impl View for HistoryData {
    type V = Seq<UploadRecordView>;

    open spec fn view(&self) -> Seq<UploadRecordView> {
        records_view(self.records@)
    }
}

impl Default for HistoryData {
    /// The empty history.
    fn default() -> (history: HistoryData)
        ensures
            history@ == Seq::<UploadRecordView>::empty(),
    {
        HistoryData { records: Vec::new() }
    }
}

/// The document that stands for a record: an object with one member for each
/// attribute.
pub open spec fn record_doc(record: UploadRecordView) -> JsonDoc {
    JsonDoc::Object(
        JsonDoc::no_members().insert("id"@, JsonDoc::Text(record.id)).insert(
            "fileName"@,
            JsonDoc::Text(record.file_name),
        ).insert("fileSize"@, JsonDoc::Integer(record.file_size as int)).insert(
            "localPath"@,
            JsonDoc::Text(record.local_path),
        ).insert("uploadUrl"@, JsonDoc::Text(record.upload_url)).insert(
            "uploadedAt"@,
            JsonDoc::Text(record.uploaded_at),
        ).insert("status"@, JsonDoc::Text(record.status)),
    )
}

/// The record that a document stands for: each attribute is read from the
/// member of its name, all seven must be there with the right type, and other
/// members are passed over.
pub open spec fn doc_record(doc: JsonDoc) -> Option<UploadRecordView> {
    if doc.text_field("id"@) is Some && doc.text_field("fileName"@) is Some && doc.unsigned_field(
        "fileSize"@,
    ) is Some && doc.text_field("localPath"@) is Some && doc.text_field("uploadUrl"@) is Some
        && doc.text_field("uploadedAt"@) is Some && doc.text_field("status"@) is Some {
        Some(
            UploadRecordView {
                id: doc.text_field("id"@).unwrap(),
                file_name: doc.text_field("fileName"@).unwrap(),
                file_size: doc.unsigned_field("fileSize"@).unwrap(),
                local_path: doc.text_field("localPath"@).unwrap(),
                upload_url: doc.text_field("uploadUrl"@).unwrap(),
                uploaded_at: doc.text_field("uploadedAt"@).unwrap(),
                status: doc.text_field("status"@).unwrap(),
            },
        )
    } else {
        None
    }
}

/// The documents of a sequence of records, in order.
pub open spec fn record_docs(records: Seq<UploadRecordView>) -> Seq<JsonDoc> {
    records.map_values(|record: UploadRecordView| record_doc(record))
}

/// The records that a sequence of documents stands for, if each of them
/// stands for one.
pub open spec fn docs_records(docs: Seq<JsonDoc>) -> Option<Seq<UploadRecordView>> {
    if forall|i: int| 0 <= i < docs.len() ==> (#[trigger] doc_record(docs[i])) is Some {
        Some(docs.map_values(|doc: JsonDoc| doc_record(doc).unwrap()))
    } else {
        None
    }
}

/// The document that stands for a history: `{"records": [<record>, ...]}`.
pub open spec fn history_doc(records: Seq<UploadRecordView>) -> JsonDoc {
    JsonDoc::Object(
        JsonDoc::no_members().insert("records"@, JsonDoc::Array(record_docs(records))),
    )
}

/// The history that a document stands for: the array under `records`, each
/// element of which must stand for a record.
pub open spec fn doc_history(doc: JsonDoc) -> Option<Seq<UploadRecordView>> {
    match doc.field("records"@) {
        Some(JsonDoc::Array(docs)) => docs_records(docs),
        _ => None,
    }
}

/// The seven member names of a record differ from one another.
pub proof fn record_keys_differ()
    ensures
        "id"@ != "fileName"@,
        "id"@ != "fileSize"@,
        "id"@ != "localPath"@,
        "id"@ != "uploadUrl"@,
        "id"@ != "uploadedAt"@,
        "id"@ != "status"@,
        "fileName"@ != "fileSize"@,
        "fileName"@ != "localPath"@,
        "fileName"@ != "uploadUrl"@,
        "fileName"@ != "uploadedAt"@,
        "fileName"@ != "status"@,
        "fileSize"@ != "localPath"@,
        "fileSize"@ != "uploadUrl"@,
        "fileSize"@ != "uploadedAt"@,
        "fileSize"@ != "status"@,
        "localPath"@ != "uploadUrl"@,
        "localPath"@ != "uploadedAt"@,
        "localPath"@ != "status"@,
        "uploadUrl"@ != "uploadedAt"@,
        "uploadUrl"@ != "status"@,
        "uploadedAt"@ != "status"@,
{
    reveal_strlit("id");
    reveal_strlit("fileName");
    reveal_strlit("fileSize");
    reveal_strlit("localPath");
    reveal_strlit("uploadUrl");
    reveal_strlit("uploadedAt");
    reveal_strlit("status");
    assert("id"@.len() == 2 && "fileName"@.len() == 8 && "fileSize"@.len() == 8);
    assert("localPath"@.len() == 9 && "uploadUrl"@.len() == 9);
    assert("uploadedAt"@.len() == 10 && "status"@.len() == 6);
    assert("fileName"@[4] == 'N' && "fileSize"@[4] == 'S');
    assert("localPath"@[0] == 'l' && "uploadUrl"@[0] == 'u');
}

/// Every record is read back from its own document.
pub proof fn record_doc_round_trip(record: UploadRecordView)
    ensures
        doc_record(record_doc(record)) == Some(record),
{
    record_keys_differ();
}

/// Every history is read back from its own document: the same records, in the
/// same order.
pub proof fn history_doc_round_trip(records: Seq<UploadRecordView>)
    ensures
        doc_history(history_doc(records)) == Some(records),
{
    let docs = record_docs(records);
    assert forall|i: int| 0 <= i < docs.len() implies (#[trigger] doc_record(docs[i])) == Some(
        records[i],
    ) by {
        record_doc_round_trip(records[i]);
    }
    assert(docs.map_values(|doc: JsonDoc| doc_record(doc).unwrap()) =~= records);
}

/// Builds the JSON value of a record.
pub fn record_to_value(record: &UploadRecord) -> (value: Value)
    ensures
        doc_of(value) == record_doc(record@),
{
    let mut members = no_members();
    put_text(&mut members, "id", &record.id);
    put_text(&mut members, "fileName", &record.file_name);
    put_unsigned(&mut members, "fileSize", record.file_size);
    put_text(&mut members, "localPath", &record.local_path);
    put_text(&mut members, "uploadUrl", &record.upload_url);
    put_text(&mut members, "uploadedAt", &record.uploaded_at);
    put_text(&mut members, "status", &record.status);
    object_value(members)
}

/// Reads a record from a JSON value, if the value has its shape.
pub fn record_from_value(value: &Value) -> (r: Option<UploadRecord>)
    ensures
        match r {
            Some(record) => doc_record(doc_of(*value)) == Some(record@),
            None => doc_record(doc_of(*value)) is None,
        },
{
    let id = text_field(value, "id");
    let file_name = text_field(value, "fileName");
    let file_size = unsigned_field(value, "fileSize");
    let local_path = text_field(value, "localPath");
    let upload_url = text_field(value, "uploadUrl");
    let uploaded_at = text_field(value, "uploadedAt");
    let status = text_field(value, "status");
    match (id, file_name, file_size, local_path, upload_url, uploaded_at, status) {
        (
            Some(id),
            Some(file_name),
            Some(file_size),
            Some(local_path),
            Some(upload_url),
            Some(uploaded_at),
            Some(status),
        ) => Some(
            UploadRecord { id, file_name, file_size, local_path, upload_url, uploaded_at, status },
        ),
        _ => None,
    }
}

/// Builds the JSON value of a history.
pub fn history_to_value(history: &HistoryData) -> (value: Value)
    ensures
        doc_of(value) == history_doc(history@),
{
    let mut elements: Vec<Value> = Vec::new();
    let mut i: usize = 0;
    while i < history.records.len()
        invariant
            i <= history.records.len(),
            elements.len() == i,
            forall|j: int| 0 <= j < i ==> doc_of(#[trigger] elements[j]) == record_doc(history.records[j]@),
        decreases history.records.len() - i,
    {
        elements.push(record_to_value(&history.records[i]));
        i += 1;
    }
    assert(docs_of(elements@) =~= record_docs(history@));
    let mut members = no_members();
    put_member(&mut members, "records".to_owned(), array_value(elements));
    object_value(members)
}

/// Reads a history from a JSON value, if the value has its shape.
pub fn history_from_value(value: &Value) -> (r: Option<HistoryData>)
    ensures
        match r {
            Some(history) => doc_history(doc_of(*value)) == Some(history@),
            None => doc_history(doc_of(*value)) is None,
        },
{
    let elements = match member(value, "records") {
        Some(found) => match items_of(found) {
            Some(elements) => elements,
            None => { return None; },
        },
        None => { return None; },
    };
    let ghost docs = docs_of(elements@);
    let mut records: Vec<UploadRecord> = Vec::new();
    let mut i: usize = 0;
    while i < elements.len()
        invariant
            i <= elements.len(),
            records.len() == i,
            docs == docs_of(elements@),
            doc_of(*value).field("records"@) == Some(JsonDoc::Array(docs)),
            forall|j: int| 0 <= j < i ==> (#[trigger] doc_record(docs[j])) == Some(records[j]@),
        decreases elements.len() - i,
    {
        match record_from_value(&elements[i]) {
            Some(record) => {
                records.push(record);
            },
            None => {
                assert(doc_record(docs[i as int]) is None);
                return None;
            },
        }
        i += 1;
    }
    let history = HistoryData { records };
    assert(docs_records(docs) == Some(history@)) by {
        assert(docs.map_values(|doc: JsonDoc| doc_record(doc).unwrap()) =~= history@);
    }
    Some(history)
}

/// Whether a character is a decimal digit or one of `a` to `f`.
pub open spec fn is_lower_hex(c: char) -> bool {
    ('0' <= c && c <= '9') || ('a' <= c && c <= 'f')
}

/// The form of a generated identifier: 36 characters in five groups of
/// lowercase hexadecimal digits divided by hyphens, the third group starting
/// with `4` and the fourth with one of `8`, `9`, `a`, `b`.
pub open spec fn is_generated_id(text: Seq<char>) -> bool {
    &&& text.len() == 36
    &&& forall|i: int|
        0 <= i < 36 ==> if i == 8 || i == 13 || i == 18 || i == 23 {
            #[trigger] text[i] == '-'
        } else {
            is_lower_hex(text[i])
        }
    &&& text[14] == '4'
    &&& (text[19] == '8' || text[19] == '9' || text[19] == 'a' || text[19] == 'b')
}

/// `Uuid::new_v4` and its `to_string`: a random identifier in hyphenated
/// lowercase form. The value is drawn anew at every call, so the contract
/// states only the form, which holds of every outcome: the version and the
/// variant bits are fixed, the other 122 are random.
#[verifier::external_body]
fn random_uuid_text() -> (text: String)
    ensures
        is_generated_id(text@),
{
    uuid::Uuid::new_v4().to_string()
}

/// A fresh identifier for a record. Nothing is promised of two calls but the
/// form of what each returns.
pub fn generate_id() -> (id: String)
    ensures
        is_generated_id(id@),
{
    random_uuid_text()
}

/// The operating systems whose conventions for application data differ.
#[derive(Debug, Clone, Copy, PartialEq, Eq, Structural)]
pub enum Platform {
    MacOs,
    Windows,
    /// Linux and every other system that keeps settings under `~/.config`.
    Linux,
}

/// A location in the file system: a base directory taken from the
/// environment, and the names to descend through below it.
#[derive(Debug, Clone, PartialEq, Eq)]
pub struct AppPath {
    pub base: String,
    pub segments: Vec<String>,
}

/// The content of an [`AppPath`].
pub struct AppPathView {
    pub base: Seq<char>,
    pub segments: Seq<Seq<char>>,
}

/// What a path computation gives: the path, or the name of the environment
/// variable that was needed and not set.
pub type PathModel = Result<AppPathView, Seq<char>>;

/// The characters of each string of a sequence, in order.
pub open spec fn texts(strings: Seq<String>) -> Seq<Seq<char>> {
    strings.map_values(|s: String| s@)
}

impl View for AppPath {
    type V = AppPathView;

    open spec fn view(&self) -> AppPathView {
        AppPathView { base: self.base@, segments: texts(self.segments@) }
    }
}

impl Platform {
    /// The name of the environment variable that holds the base directory.
    pub open spec fn base_variable_name(self) -> Seq<char> {
        match self {
            Platform::Windows => "APPDATA"@,
            _ => "HOME"@,
        }
    }

    /// The names that lead from the base directory to the directory of this
    /// application.
    pub open spec fn data_segments(self) -> Seq<Seq<char>> {
        match self {
            Platform::MacOs => seq!["Library"@, "Application Support"@, "com.upload-img.app"@],
            Platform::Windows => seq!["com.upload-img.app"@],
            Platform::Linux => seq![".config"@, "com.upload-img.app"@],
        }
    }

    /// The name of the environment variable that holds the base directory:
    /// the roaming application data on Windows, the home directory elsewhere.
    pub fn base_variable(self) -> (name: &'static str)
        ensures
            name@ == self.base_variable_name(),
    {
        match self {
            Platform::Windows => "APPDATA",
            _ => "HOME",
        }
    }
}

/// The directory of this application's data, for a platform and the value of
/// its base variable.
pub open spec fn appdata_path(platform: Platform, base: Option<Seq<char>>) -> PathModel {
    match base {
        Some(base) => Ok(AppPathView { base, segments: platform.data_segments() }),
        None => Err(platform.base_variable_name()),
    }
}

/// The characters of an optional string.
pub open spec fn opt_text(text: Option<String>) -> Option<Seq<char>> {
    match text {
        Some(chars) => Some(chars@),
        None => None,
    }
}

/// Whether a result of a path computation is the one that the model gives:
/// the same path, or the error that names the missing variable.
pub open spec fn path_result_is(
    r: Result<AppPath, StorageError>,
    expected: PathModel,
) -> bool {
    match r {
        Ok(path) => expected == PathModel::Ok(path@),
        Err(StorageError::Environment { variable }) => expected == PathModel::Err(variable@),
        Err(_) => false,
    }
}

/// The directory that holds this application's files. `base` is the value of
/// the platform's base variable, `None` where it is not set.
pub fn get_appdata_path(platform: Platform, base: Option<String>) -> (r: Result<AppPath, StorageError>)
    ensures
        path_result_is(r, appdata_path(platform, opt_text(base))),
{
    let base = match base {
        Some(base) => base,
        None => {
            return Err(
                StorageError::Environment { variable: platform.base_variable().to_owned() },
            );
        },
    };
    let mut segments: Vec<String> = Vec::new();
    match platform {
        Platform::MacOs => {
            segments.push("Library".to_owned());
            segments.push("Application Support".to_owned());
        },
        Platform::Windows => {},
        Platform::Linux => {
            segments.push(".config".to_owned());
        },
    }
    segments.push("com.upload-img.app".to_owned());
    assert(texts(segments@) =~= platform.data_segments());
    Ok(AppPath { base, segments })
}

/// A path one step below another.
pub open spec fn joined(path: PathModel, name: Seq<char>) -> PathModel {
    match path {
        Ok(dir) => Ok(AppPathView { base: dir.base, segments: dir.segments.push(name) }),
        Err(variable) => Err(variable),
    }
}

fn below(dir: Result<AppPath, StorageError>, name: &str) -> (r: Result<AppPath, StorageError>)
    ensures
        forall|expected: PathModel|
            path_result_is(dir, expected) ==> path_result_is(r, joined(expected, name@)),
{
    match dir {
        Ok(mut path) => {
            let ghost before = texts(path.segments@);
            path.segments.push(name.to_owned());
            assert(texts(path.segments@) =~= before.push(name@));
            Ok(path)
        },
        Err(e) => Err(e),
    }
}

/// The file that holds the configuration: `config.json` in the directory of
/// this application's data.
pub fn get_config_path(platform: Platform, base: Option<String>) -> (r: Result<AppPath, StorageError>)
    ensures
        path_result_is(r, joined(appdata_path(platform, opt_text(base)), "config.json"@)),
{
    below(get_appdata_path(platform, base), "config.json")
}

/// The file that holds the history: `history.json` in the directory of this
/// application's data.
pub fn get_history_path(platform: Platform, base: Option<String>) -> (r: Result<AppPath, StorageError>)
    ensures
        path_result_is(r, joined(appdata_path(platform, opt_text(base)), "history.json"@)),
{
    below(get_appdata_path(platform, base), "history.json")
}

} // verus!
