use upload_img::commands::storage::{
    clear_history, confirm_history, copy_of, delete_record, load_history, remove_by_id,
    same_record, same_records, save_record, write_history, FileChange,
};
use upload_img::error::{IoStep, StorageError, Store};
use upload_img::storage::{
    generate_id, history_from_value, history_to_value, record_from_value, record_to_value,
    HistoryData, UploadRecord,
};

fn record(id: &str, size: u64) -> UploadRecord {
    UploadRecord {
        id: id.to_string(),
        file_name: format!("{}.png", id),
        file_size: size,
        local_path: format!("/tmp/{}.png", id),
        upload_url: format!("https://example.com/{}.png", id),
        uploaded_at: "2024-05-01T12:00:00Z".to_string(),
        status: "success".to_string(),
    }
}

/// Runs the file through the changes that the library asks for.
fn apply(change: FileChange, file: Option<String>) -> Option<String> {
    match change {
        FileChange::Keep => file,
        FileChange::Write(text) => Some(text),
        FileChange::Remove => None,
    }
}

fn append_all(records: &[UploadRecord]) -> Option<String> {
    let mut file: Option<String> = None;
    for r in records {
        file = Some(save_record(file.as_deref(), r.clone()).expect("a record can be appended"));
    }
    file
}

#[test]
fn load_history_before_any_save_is_empty() {
    assert_eq!(load_history(None), Ok(vec![]));
}

#[test]
fn appending_no_record_then_loading_gives_none() {
    let file = append_all(&[]);
    assert_eq!(load_history(file.as_deref()), Ok(vec![]));
}

#[test]
fn appending_one_record_then_loading_gives_it_back() {
    let file = append_all(&[record("a", 7)]);
    assert_eq!(load_history(file.as_deref()), Ok(vec![record("a", 7)]));
}

#[test]
fn appending_a_hundred_records_then_loading_gives_them_in_order() {
    let records: Vec<UploadRecord> = (0..100u64).map(|i| record(&format!("id-{}", i), i * 1000)).collect();
    let file = append_all(&records);
    assert_eq!(load_history(file.as_deref()), Ok(records));
}

#[test]
fn history_text_is_pretty_json_with_camel_case_members() {
    let text = save_record(None, record("a", 7)).unwrap();
    let expected = "{\n  \"records\": [\n    {\n      \"fileName\": \"a.png\",\n      \"fileSize\": 7,\n      \"id\": \"a\",\n      \"localPath\": \"/tmp/a.png\",\n      \"status\": \"success\",\n      \"uploadUrl\": \"https://example.com/a.png\",\n      \"uploadedAt\": \"2024-05-01T12:00:00Z\"\n    }\n  ]\n}";
    assert_eq!(text, expected);
}

#[test]
fn the_largest_file_size_round_trips() {
    let file = append_all(&[record("big", u64::MAX), record("none", 0)]);
    assert_eq!(load_history(file.as_deref()), Ok(vec![record("big", u64::MAX), record("none", 0)]));
}

#[test]
fn records_with_text_outside_ascii_round_trip() {
    let mut r = record("ü", 1);
    r.file_name = "图片 \"一\".png".to_string();
    r.status = "".to_string();
    let file = append_all(&[r.clone()]);
    assert_eq!(load_history(file.as_deref()), Ok(vec![r]));
}

#[test]
fn an_id_that_is_already_there_is_appended_again() {
    let file = append_all(&[record("a", 1), record("a", 2)]);
    assert_eq!(load_history(file.as_deref()), Ok(vec![record("a", 1), record("a", 2)]));
}

#[test]
fn save_record_fails_on_a_malformed_file_and_writes_nothing() {
    match save_record(Some("<html>"), record("a", 1)) {
        Err(StorageError::Parse { store: Store::History, .. }) => {}
        other => panic!("expected a parse error, got {:?}", other),
    }
}

#[test]
fn deleting_an_id_that_is_not_there_leaves_the_records() {
    let file = append_all(&[record("a", 1), record("b", 2)]);
    let change = delete_record(file.as_deref(), "zzz").expect("deleting cannot fail here");
    let after = apply(change, file);
    assert_eq!(load_history(after.as_deref()), Ok(vec![record("a", 1), record("b", 2)]));
}

#[test]
fn deleting_an_id_removes_each_record_that_has_it() {
    let file = append_all(&[record("a", 1), record("b", 2), record("a", 3), record("c", 4), record("a", 5)]);
    let change = delete_record(file.as_deref(), "a").unwrap();
    let after = apply(change, file);
    assert_eq!(load_history(after.as_deref()), Ok(vec![record("b", 2), record("c", 4)]));
}

#[test]
fn deleting_the_only_record_leaves_an_empty_history() {
    let file = append_all(&[record("a", 1)]);
    let change = delete_record(file.as_deref(), "a").unwrap();
    assert_eq!(change, FileChange::Write("{\n  \"records\": []\n}".to_string()));
    let after = apply(change, file);
    assert_eq!(load_history(after.as_deref()), Ok(vec![]));
}

#[test]
fn deleting_without_a_file_changes_nothing() {
    assert_eq!(delete_record(None, "a"), Ok(FileChange::Keep));
}

#[test]
fn deleting_from_a_malformed_file_fails() {
    match delete_record(Some("]["), "a") {
        Err(StorageError::Parse { store: Store::History, .. }) => {}
        other => panic!("expected a parse error, got {:?}", other),
    }
}

#[test]
fn remove_by_id_keeps_the_others_in_order() {
    let records = vec![record("x", 1), record("y", 2), record("x", 3), record("z", 4)];
    assert_eq!(remove_by_id(&records, "x"), vec![record("y", 2), record("z", 4)]);
    assert_eq!(remove_by_id(&records, "w"), records);
    assert_eq!(remove_by_id(&records, ""), records);
    assert_eq!(remove_by_id(&Vec::new(), "x"), Vec::<UploadRecord>::new());
}

#[test]
fn copy_of_has_the_same_content() {
    let r = record("a", 9);
    assert_eq!(copy_of(&r), r);
}

#[test]
fn clearing_twice_never_fails_and_leaves_an_empty_history() {
    let file = append_all(&[record("a", 1)]);
    let first = clear_history(file.is_some());
    assert_eq!(first, FileChange::Remove);
    let file = apply(first, file);
    assert_eq!(file, None);
    assert_eq!(load_history(file.as_deref()), Ok(vec![]));
    let second = clear_history(file.is_some());
    assert_eq!(second, FileChange::Keep);
    let file = apply(second, file);
    assert_eq!(file, None);
    assert_eq!(load_history(file.as_deref()), Ok(vec![]));
}

#[test]
fn load_history_rejects_text_that_is_no_json() {
    for text in ["", "garbage", "{\"records\": [", "\u{7f}\u{1}"] {
        match load_history(Some(text)) {
            Err(StorageError::Parse { store: Store::History, .. }) => {}
            other => panic!("expected a parse error for {:?}, got {:?}", text, other),
        }
    }
}

#[test]
fn load_history_rejects_json_of_another_shape() {
    let texts = [
        "{}",
        "[]",
        "{\"records\": {}}",
        "{\"records\": [1]}",
        "{\"records\": [{\"id\": \"a\"}]}",
        "{\"records\": [{\"id\":\"a\",\"fileName\":\"f\",\"fileSize\":-1,\"localPath\":\"l\",\"uploadUrl\":\"u\",\"uploadedAt\":\"t\",\"status\":\"s\"}]}",
        "{\"records\": [{\"id\":\"a\",\"fileName\":\"f\",\"fileSize\":1.5,\"localPath\":\"l\",\"uploadUrl\":\"u\",\"uploadedAt\":\"t\",\"status\":\"s\"}]}",
        "{\"records\": [{\"id\":\"a\",\"fileName\":\"f\",\"fileSize\":\"1\",\"localPath\":\"l\",\"uploadUrl\":\"u\",\"uploadedAt\":\"t\",\"status\":\"s\"}]}",
        "{\"records\": [{\"id\":7,\"fileName\":\"f\",\"fileSize\":1,\"localPath\":\"l\",\"uploadUrl\":\"u\",\"uploadedAt\":\"t\",\"status\":\"s\"}]}",
    ];
    for text in texts {
        assert_eq!(
            load_history(Some(text)),
            Err(StorageError::Parse {
                store: Store::History,
                detail: "document does not have the expected shape".to_string(),
            }),
            "for {:?}",
            text
        );
    }
}

#[test]
fn load_history_reads_a_file_written_by_hand() {
    let text = "{\"records\":[{\"status\":\"s\",\"uploadedAt\":\"t\",\"uploadUrl\":\"u\",\"localPath\":\"l\",\"fileSize\":18446744073709551615,\"fileName\":\"f\",\"id\":\"i\",\"extra\":true}]}";
    let expected = UploadRecord {
        id: "i".to_string(),
        file_name: "f".to_string(),
        file_size: u64::MAX,
        local_path: "l".to_string(),
        upload_url: "u".to_string(),
        uploaded_at: "t".to_string(),
        status: "s".to_string(),
    };
    assert_eq!(load_history(Some(text)), Ok(vec![expected]));
}

#[test]
fn record_values_hold_seven_members() {
    let value = record_to_value(&record("a", 7));
    assert_eq!(value.as_object().map(|members| members.len()), Some(7));
    assert_eq!(value.get("id").and_then(|v| v.as_str()), Some("a"));
    assert_eq!(value.get("fileSize").and_then(|v| v.as_u64()), Some(7));
    assert_eq!(record_from_value(&value), Some(record("a", 7)));
    assert_eq!(record_from_value(&serde_json::Value::Null), None);
}

#[test]
fn history_values_hold_the_records_in_order() {
    let history = HistoryData { records: vec![record("a", 1), record("b", 2)] };
    let value = history_to_value(&history);
    let elements = value.get("records").and_then(|v| v.as_array()).expect("an array of records");
    assert_eq!(elements.len(), 2);
    assert_eq!(elements[1].get("id").and_then(|v| v.as_str()), Some("b"));
    assert_eq!(history_from_value(&value), Some(history));
}

#[test]
fn the_default_history_is_empty() {
    assert_eq!(HistoryData::default(), HistoryData { records: vec![] });
}

#[test]
fn generated_ids_have_the_form_of_a_random_uuid() {
    let id = generate_id();
    let chars: Vec<char> = id.chars().collect();
    assert_eq!(chars.len(), 36);
    for (i, c) in chars.iter().enumerate() {
        if i == 8 || i == 13 || i == 18 || i == 23 {
            assert_eq!(*c, '-');
        } else {
            assert!(matches!(*c, '0'..='9' | 'a'..='f'), "{:?} at {}", c, i);
        }
    }
    assert_eq!(chars[14], '4');
    assert!(matches!(chars[19], '8' | '9' | 'a' | 'b'));
}

#[test]
fn generated_ids_differ_from_call_to_call() {
    assert_ne!(generate_id(), generate_id());
}

#[test]
fn storage_errors_say_what_failed() {
    let cases = [
        (StorageError::Environment { variable: "HOME".to_string() }, "无法获取 HOME 目录"),
        (StorageError::Environment { variable: "APPDATA".to_string() }, "无法获取 APPDATA 目录"),
        (
            StorageError::Io { step: IoStep::CreateDirectory, store: Store::Config, detail: "denied".to_string() },
            "创建目录失败: denied",
        ),
        (
            StorageError::Io { step: IoStep::Read, store: Store::Config, detail: "d".to_string() },
            "读取配置文件失败: d",
        ),
        (
            StorageError::Io { step: IoStep::Read, store: Store::History, detail: "d".to_string() },
            "读取历史记录失败: d",
        ),
        (
            StorageError::Io { step: IoStep::Write, store: Store::Config, detail: "d".to_string() },
            "写入配置文件失败: d",
        ),
        (
            StorageError::Io { step: IoStep::Write, store: Store::History, detail: "d".to_string() },
            "写入历史记录失败: d",
        ),
        (
            StorageError::Io { step: IoStep::Remove, store: Store::History, detail: "d".to_string() },
            "删除历史记录失败: d",
        ),
        (StorageError::Parse { store: Store::Config, detail: "eof".to_string() }, "解析配置文件失败: eof"),
        (StorageError::Parse { store: Store::History, detail: "eof".to_string() }, "解析历史记录失败: eof"),
        (StorageError::Serialization { store: Store::Config, detail: "x".to_string() }, "序列化配置失败: x"),
        (
            StorageError::Serialization { store: Store::History, detail: "x".to_string() },
            "序列化历史记录失败: x",
        ),
        (StorageError::NotFound, "配置文件不存在"),
    ];
    for (error, message) in cases {
        assert_eq!(error.message(), message);
    }
}

#[test]
fn records_are_the_same_where_every_attribute_is() {
    let r = record("a", 1);
    assert!(same_record(&r, &record("a", 1)));
    assert!(!same_record(&r, &record("a", 2)));
    assert!(!same_record(&r, &record("b", 1)));
    for change in 0..6 {
        let mut other = record("a", 1);
        match change {
            0 => other.id.push('x'),
            1 => other.file_name.push('x'),
            2 => other.local_path.push('x'),
            3 => other.upload_url.push('x'),
            4 => other.uploaded_at.push('x'),
            _ => other.status.push('x'),
        }
        assert!(!same_record(&r, &other), "change {}", change);
    }
}

#[test]
fn sequences_are_the_same_where_length_order_and_records_are() {
    let a = vec![record("a", 1), record("b", 2)];
    assert!(same_records(&a, &vec![record("a", 1), record("b", 2)]));
    assert!(!same_records(&a, &vec![record("b", 2), record("a", 1)]));
    assert!(!same_records(&a, &vec![record("a", 1)]));
    assert!(!same_records(&a, &vec![record("a", 1), record("b", 3)]));
    assert!(same_records(&Vec::new(), &Vec::new()));
}

#[test]
fn write_history_gives_a_text_that_holds_the_history() {
    let history = HistoryData { records: vec![record("a", 1), record("b", 2)] };
    let text = write_history(&history).unwrap();
    assert_eq!(load_history(Some(&text)), Ok(history.records.clone()));
    assert_eq!(write_history(&HistoryData::default()), Ok("{\n  \"records\": []\n}".to_string()));
}

#[test]
fn a_text_is_confirmed_only_if_it_holds_the_history() {
    let history = HistoryData { records: vec![record("a", 1)] };
    let text = write_history(&history).unwrap();
    assert_eq!(confirm_history(text.clone(), &history), Ok(text.clone()));
    let refused = Err(StorageError::Serialization {
        store: Store::History,
        detail: "text does not read back as the value written".to_string(),
    });
    assert_eq!(confirm_history(text, &HistoryData::default()), refused);
    assert_eq!(confirm_history("{\"records\": []}".to_string(), &history), refused);
    assert_eq!(confirm_history("[".to_string(), &HistoryData::default()), refused);
}
