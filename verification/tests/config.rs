use upload_img::commands::config::{confirm_config, load_config, save_config, written};
use upload_img::config::{config_from_value, config_to_value, ApiConfig};
use upload_img::error::{StorageError, Store};

fn config(url: &str) -> ApiConfig {
    ApiConfig { api_url: url.to_string() }
}

fn round_trip(url: &str) {
    let text = save_config(&config(url)).expect("a configuration can be written");
    let loaded = load_config(Some(&text)).expect("what was written can be read");
    assert_eq!(loaded, config(url));
}

#[test]
fn config_round_trips_for_a_plain_url() {
    round_trip("https://example.com/api/upload");
}

#[test]
fn config_round_trips_for_the_empty_url() {
    round_trip("");
}

#[test]
fn config_round_trips_for_urls_outside_ascii() {
    round_trip("https://例え.jp/上传?q=ü&e=😀");
    round_trip("quote \" backslash \\ newline \n tab \t nul \u{0}");
}

#[test]
fn saved_config_is_pretty_json_with_the_api_url_member() {
    let text = save_config(&config("http://h/u")).unwrap();
    assert_eq!(text, "{\n  \"apiUrl\": \"http://h/u\"\n}");
}

#[test]
fn saving_replaces_whatever_was_saved_before() {
    let first = save_config(&config("http://first")).unwrap();
    let second = save_config(&config("http://second")).unwrap();
    assert_ne!(first, second);
    assert_eq!(load_config(Some(&second)).unwrap(), config("http://second"));
}

#[test]
fn load_config_before_any_save_is_not_found() {
    assert_eq!(load_config(None), Err(StorageError::NotFound));
}

#[test]
fn load_config_rejects_text_that_is_no_json() {
    for text in ["", "not json", "{\"apiUrl\": ", "\u{0}\u{1}\u{2}", "{apiUrl: 'x'}"] {
        match load_config(Some(text)) {
            Err(StorageError::Parse { store: Store::Config, .. }) => {}
            other => panic!("expected a parse error for {:?}, got {:?}", text, other),
        }
    }
}

#[test]
fn load_config_rejects_json_of_another_shape() {
    for text in ["{}", "{\"apiUrl\": 5}", "{\"apiUrl\": null}", "{\"api_url\": \"x\"}", "[\"x\"]", "\"x\"", "null"] {
        assert_eq!(
            load_config(Some(text)),
            Err(StorageError::Parse {
                store: Store::Config,
                detail: "document does not have the expected shape".to_string(),
            }),
            "for {:?}",
            text
        );
    }
}

#[test]
fn load_config_passes_over_other_members() {
    let loaded = load_config(Some("{\"theme\": \"dark\", \"apiUrl\": \"http://h\", \"n\": [1, 2]}"));
    assert_eq!(loaded, Ok(config("http://h")));
}

#[test]
fn config_value_has_one_string_member() {
    let value = config_to_value(&config("http://h"));
    assert_eq!(value.as_object().map(|members| members.len()), Some(1));
    assert_eq!(value.get("apiUrl").and_then(|url| url.as_str()), Some("http://h"));
    assert_eq!(config_from_value(&value), Some(config("http://h")));
}

#[test]
fn config_from_value_wants_a_string_under_api_url() {
    let number: serde_json::Value = serde_json::from_str("{\"apiUrl\": 1}").unwrap();
    assert_eq!(config_from_value(&number), None);
    let array: serde_json::Value = serde_json::from_str("[]").unwrap();
    assert_eq!(config_from_value(&array), None);
}

#[test]
fn written_keeps_the_text_and_names_the_store_of_a_failure() {
    assert_eq!(written(Ok("text".to_string()), Store::Config), Ok("text".to_string()));
    let failure = serde_json::from_str::<serde_json::Value>("?").unwrap_err();
    let detail = failure.to_string();
    assert_eq!(
        written(Err(failure), Store::History),
        Err(StorageError::Serialization { store: Store::History, detail })
    );
}

#[test]
fn a_text_is_confirmed_only_if_it_holds_the_configuration() {
    let text = "{\"apiUrl\": \"http://h\"}".to_string();
    assert_eq!(confirm_config(text.clone(), &config("http://h")), Ok(text.clone()));
    let refused = Err(StorageError::Serialization {
        store: Store::Config,
        detail: "text does not read back as the value written".to_string(),
    });
    assert_eq!(confirm_config(text, &config("http://other")), refused);
    assert_eq!(confirm_config("{}".to_string(), &config("http://h")), refused);
    assert_eq!(confirm_config("no json".to_string(), &config("")), refused);
}
