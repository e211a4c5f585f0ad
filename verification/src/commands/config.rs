//! Saving and loading the configuration.

use crate::config::{config_doc, config_from_value, config_to_value, doc_config};
use crate::config::{ApiConfig, ApiConfigView};
use crate::error::{StorageError, Store};
use crate::json::{json_parsed, json_text, parse, render, shape_detail, shape_mismatch};
use vstd::prelude::*;

verus! {

/// The characters of a file's text, where the file is there.
pub open spec fn file_text(file: Option<&str>) -> Option<Seq<char>> {
    match file {
        Some(text) => Some(text@),
        None => None,
    }
}

/// The configuration that a text holds: the text must be JSON, and the
/// document must have the shape of a configuration.
pub open spec fn stored_config(text: Seq<char>) -> Option<ApiConfigView> {
    match json_parsed(text) {
        Some(doc) => doc_config(doc),
        None => None,
    }
}

/// The text that is written for a configuration: its document as printed,
/// provided that the text holds the configuration again when it is read.
pub open spec fn written_config(config: ApiConfigView) -> Option<Seq<char>> {
    match json_text(config_doc(config)) {
        Some(text) => if stored_config(text) == Some(config) {
            Some(text)
        } else {
            None
        },
        None => None,
    }
}

/// The detail of the error for a text that was printed for a value and does
/// not hold the value when it is read.
pub open spec fn read_back_detail() -> Seq<char> {
    "text does not read back as the value written"@
}

/// The detail of the error for a text that was printed for a value and does
/// not hold the value when it is read, as a string.
pub fn read_back_mismatch() -> (detail: String)
    ensures
        detail@ == read_back_detail(),
{
    "text does not read back as the value written".to_owned()
}

/// The configuration held by the configuration file. `file` is the text of
/// the file, `None` where there is no file.
///
/// Fails with `NotFound` exactly where there is no file, and with `Parse`
/// exactly where the text of the file holds no configuration.
pub fn load_config(file: Option<&str>) -> (r: Result<ApiConfig, StorageError>)
    ensures
        match r {
            Ok(config) => file is Some && stored_config(file.unwrap()@) == Some(config@),
            Err(StorageError::NotFound) => file is None,
            Err(StorageError::Parse { store, detail }) => {
                &&& store == Store::Config
                &&& file is Some
                &&& stored_config(file.unwrap()@) is None
                &&& json_parsed(file.unwrap()@) is Some ==> detail@ == shape_detail()
            },
            Err(_) => false,
        },
{
    let text = match file {
        Some(text) => text,
        None => { return Err(StorageError::NotFound); },
    };
    match parse(text) {
        Ok(value) => match config_from_value(&value) {
            Some(config) => Ok(config),
            None => Err(StorageError::Parse { store: Store::Config, detail: shape_mismatch() }),
        },
        Err(e) => Err(StorageError::Parse { store: Store::Config, detail: e.to_string() }),
    }
}

/// What becomes of the text that was printed for a value of one of the two
/// files: the text itself, or the error that says why there is none.
pub fn written(rendered: Result<String, serde_json::Error>, store: Store) -> (r: Result<String, StorageError>)
    ensures
        match r {
            Ok(text) => rendered == Ok::<String, serde_json::Error>(text),
            Err(StorageError::Serialization { store: failed, .. }) => rendered is Err && failed
                == store,
            Err(_) => false,
        },
{
    match rendered {
        Ok(text) => Ok(text),
        Err(e) => Err(StorageError::Serialization { store, detail: e.to_string() }),
    }
}

/// Reads a text that was printed for a configuration, and passes it on only
/// if it holds that configuration.
pub fn confirm_config(text: String, config: &ApiConfig) -> (r: Result<String, StorageError>)
    ensures
        match r {
            Ok(confirmed) => confirmed == text && stored_config(text@) == Some(config@),
            Err(StorageError::Serialization { store, detail }) => {
                &&& store == Store::Config
                &&& stored_config(text@) != Some(config@)
                &&& detail@ == read_back_detail()
            },
            Err(_) => false,
        },
{
    let holds = match load_config(Some(text.as_str())) {
        Ok(read) => read.api_url == config.api_url,
        Err(_) => false,
    };
    if holds {
        Ok(text)
    } else {
        Err(StorageError::Serialization { store: Store::Config, detail: read_back_mismatch() })
    }
}

/// The text to write to the configuration file so that it holds `config`.
/// Whatever the file held before is replaced.
///
/// The text is the document of the configuration as `serde_json` prints it,
/// and it is returned only after it was read again and found to hold
/// `config`: what this function gives, [`load_config`] reads as `config`.
/// Fails, with `Serialization`, exactly where there is no such text.
pub fn save_config(config: &ApiConfig) -> (r: Result<String, StorageError>)
    ensures
        match r {
            Ok(text) => written_config(config@) == Some(text@) && stored_config(text@) == Some(
                config@,
            ),
            Err(StorageError::Serialization { store, .. }) => store == Store::Config
                && written_config(config@) is None,
            Err(_) => false,
        },
{
    let value = config_to_value(config);
    match written(render(&value), Store::Config) {
        Ok(text) => confirm_config(text, config),
        Err(e) => Err(e),
    }
}

/// Saving, then loading: a text that is written for a configuration holds
/// that configuration, whatever its URL.
pub proof fn saved_config_is_loaded(config: ApiConfigView, text: Seq<char>)
    ensures
        written_config(config) == Some(text) ==> stored_config(text) == Some(config),
{
}

/// A text that is read as the document of a configuration holds that
/// configuration.
pub proof fn config_text_round_trip(config: ApiConfigView, text: Seq<char>)
    ensures
        json_parsed(text) == Some(config_doc(config)) ==> stored_config(text) == Some(config),
{
    crate::config::config_doc_round_trip(config);
}

} // verus!
