//! The configuration of the uploader and its JSON form.

use crate::json::{doc_of, no_members, object_value, put_text, text_field, JsonDoc};
use serde_json::Value;
use vstd::prelude::*;

verus! {

/// Where uploads are sent.
#[derive(Debug, Clone, PartialEq, Eq)]
pub struct ApiConfig {
    pub api_url: String,
}

/// The content of an [`ApiConfig`].
pub struct ApiConfigView {
    pub api_url: Seq<char>,
}

impl View for ApiConfig {
    type V = ApiConfigView;

    open spec fn view(&self) -> ApiConfigView {
        ApiConfigView { api_url: self.api_url@ }
    }
}

/// The document that stands for a configuration: `{"apiUrl": <string>}`.
pub open spec fn config_doc(config: ApiConfigView) -> JsonDoc {
    JsonDoc::Object(JsonDoc::no_members().insert("apiUrl"@, JsonDoc::Text(config.api_url)))
}

/// The configuration that a document stands for: the string under `apiUrl`.
/// Other members are passed over.
pub open spec fn doc_config(doc: JsonDoc) -> Option<ApiConfigView> {
    match doc.text_field("apiUrl"@) {
        Some(api_url) => Some(ApiConfigView { api_url }),
        None => None,
    }
}

/// Every configuration is read back from its own document.
pub proof fn config_doc_round_trip(config: ApiConfigView)
    ensures
        doc_config(config_doc(config)) == Some(config),
{
}

/// Builds the JSON value of a configuration.
pub fn config_to_value(config: &ApiConfig) -> (value: Value)
    ensures
        doc_of(value) == config_doc(config@),
{
    let mut members = no_members();
    put_text(&mut members, "apiUrl", &config.api_url);
    object_value(members)
}

/// Reads a configuration from a JSON value, if the value has its shape.
pub fn config_from_value(value: &Value) -> (r: Option<ApiConfig>)
    ensures
        match r {
            Some(config) => doc_config(doc_of(*value)) == Some(config@),
            None => doc_config(doc_of(*value)) is None,
        },
{
    match text_field(value, "apiUrl") {
        Some(api_url) => Some(ApiConfig { api_url }),
        None => None,
    }
}

} // verus!
