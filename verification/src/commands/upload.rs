//! Uploading a file: what is sent to the endpoint, and how its answer is read.

use crate::decimal::{decimal, decimal_text, signed_decimal, signed_decimal_text};
use crate::json::{doc_of, json_parsed, parse, shape_detail, shape_mismatch};
use crate::json::{signed_field, text_field, JsonDoc};
use base64::Engine;
use serde_json::Value;
use vstd::prelude::*;

verus! {

/// The envelope in which the endpoint answers.
#[derive(Debug, Clone, PartialEq, Eq)]
pub struct UploadResponse {
    pub code: i32,
    pub msg: String,
    pub result: String,
}

/// The content of an [`UploadResponse`].
pub struct UploadResponseView {
    pub code: i32,
    pub msg: Seq<char>,
    pub result: Seq<char>,
}

impl View for UploadResponse {
    type V = UploadResponseView;

    open spec fn view(&self) -> UploadResponseView {
        UploadResponseView { code: self.code, msg: self.msg@, result: self.result@ }
    }
}

/// The step of the exchange with the endpoint at which the transport failed.
#[derive(Debug, Clone, Copy, PartialEq, Eq, Structural)]
pub enum TransportStep {
    BuildClient,
    Send,
    ReadBody,
}

/// Why an upload failed.
#[derive(Debug, Clone, PartialEq, Eq)]
pub enum UploadError {
    /// The content is not standard base64.
    Decode { detail: String },
    /// The request did not get through, or its answer could not be read.
    Network { step: TransportStep, cause: String },
    /// The endpoint answered with a status that is no success.
    Http { status: u16, body: String },
    /// The body of the answer is no envelope.
    ResponseParse { cause: String, raw_body: String },
    /// The envelope reports a failure.
    Api { code: i32, msg: String },
}

impl UploadError {
    /// The message shown to the user.
    pub open spec fn message_text(self) -> Seq<char> {
        match self {
            UploadError::Decode { detail } => "解码文件失败: "@ + detail@,
            UploadError::Network { step: TransportStep::BuildClient, cause } => "无法创建 HTTP 客户端: "@
                + cause@,
            UploadError::Network { step: TransportStep::Send, cause } => "上传请求失败: "@ + cause@,
            UploadError::Network { step: TransportStep::ReadBody, cause } => "读取响应失败: "@ + cause@,
            UploadError::Http { status, body } => "HTTP "@ + decimal(status as nat) + ": "@ + body@,
            UploadError::ResponseParse { cause, raw_body } => "解析响应失败: "@ + cause@
                + " - 响应内容: "@ + raw_body@,
            UploadError::Api { code, msg } => signed_decimal(code as int) + ": "@ + msg@,
        }
    }

    /// The message shown to the user.
    pub fn message(&self) -> (text: String)
        ensures
            text@ == self.message_text(),
    {
        match self {
            UploadError::Decode { detail } => {
                let mut text = "解码文件失败: ".to_owned();
                text.append(detail.as_str());
                text
            },
            UploadError::Network { step, cause } => {
                let mut text = match step {
                    TransportStep::BuildClient => "无法创建 HTTP 客户端: ".to_owned(),
                    TransportStep::Send => "上传请求失败: ".to_owned(),
                    TransportStep::ReadBody => "读取响应失败: ".to_owned(),
                };
                text.append(cause.as_str());
                text
            },
            UploadError::Http { status, body } => {
                let mut text = "HTTP ".to_owned();
                let digits = decimal_text(*status as u64);
                text.append(digits.as_str());
                text.append(": ");
                text.append(body.as_str());
                text
            },
            UploadError::ResponseParse { cause, raw_body } => {
                let mut text = "解析响应失败: ".to_owned();
                text.append(cause.as_str());
                text.append(" - 响应内容: ");
                text.append(raw_body.as_str());
                text
            },
            UploadError::Api { code, msg } => {
                let mut text = signed_decimal_text(*code as i64);
                text.append(": ");
                text.append(msg.as_str());
                text
            },
        }
    }
}

/// `base64::DecodeError`, carried through as an opaque value.
#[verifier::external_type_specification]
#[verifier::external_body]
pub struct ExDecodeError(base64::DecodeError);

/// The bytes that the standard base64 engine decodes a text to, or `None`
/// where it rejects the text.
pub uninterp spec fn base64_decoded(text: Seq<char>) -> Option<Seq<u8>>;

/// `Engine::decode` of `base64::engine::general_purpose::STANDARD`: the
/// standard alphabet, with canonical padding required. The result is a
/// function of the text alone: the contract names it and claims nothing more.
#[verifier::external_body]
fn decode_standard(text: &str) -> (r: Result<Vec<u8>, base64::DecodeError>)
    ensures
        match r {
            Ok(bytes) => base64_decoded(text@) == Some(bytes@),
            Err(_) => base64_decoded(text@) is None,
        },
{
    base64::engine::general_purpose::STANDARD.decode(text)
}

/// The file of a multipart form.
#[derive(Debug, Clone, PartialEq, Eq)]
pub struct FilePart {
    pub name: String,
    pub file_name: String,
    pub content_type: String,
    pub content: Vec<u8>,
}

/// A text field of a multipart form.
#[derive(Debug, Clone, PartialEq, Eq)]
pub struct TextPart {
    pub name: String,
    pub value: String,
}

/// One request to the endpoint: a POST of a multipart form to `url`.
#[derive(Debug, Clone, PartialEq, Eq)]
pub struct UploadRequest {
    pub url: String,
    pub file: FilePart,
    pub text: TextPart,
}

/// The content of an [`UploadRequest`].
pub struct UploadRequestView {
    pub url: Seq<char>,
    pub file_part_name: Seq<char>,
    pub file_name: Seq<char>,
    pub content_type: Seq<char>,
    pub content: Seq<u8>,
    pub text_part_name: Seq<char>,
    pub text_part_value: Seq<char>,
}

impl View for UploadRequest {
    type V = UploadRequestView;

    open spec fn view(&self) -> UploadRequestView {
        UploadRequestView {
            url: self.url@,
            file_part_name: self.file.name@,
            file_name: self.file.file_name@,
            content_type: self.file.content_type@,
            content: self.file.content@,
            text_part_name: self.text.name@,
            text_part_value: self.text.value@,
        }
    }
}

/// The request that uploads a file: the file goes under `file` as a stream of
/// octets, beside the field `expireTime` with the fixed value `-1`.
pub open spec fn upload_request(
    file_name: Seq<char>,
    content: Seq<u8>,
    api_url: Seq<char>,
) -> UploadRequestView {
    UploadRequestView {
        url: api_url,
        file_part_name: "file"@,
        file_name,
        content_type: "application/octet-stream"@,
        content,
        text_part_name: "expireTime"@,
        text_part_value: "-1"@,
    }
}

/// Builds the request that uploads `content` under `file_name` to `api_url`.
pub fn build_request(file_name: String, content: Vec<u8>, api_url: String) -> (request: UploadRequest)
    ensures
        request@ == upload_request(file_name@, content@, api_url@),
{
    UploadRequest {
        url: api_url,
        file: FilePart {
            name: "file".to_owned(),
            file_name,
            content_type: "application/octet-stream".to_owned(),
            content,
        },
        text: TextPart { name: "expireTime".to_owned(), value: "-1".to_owned() },
    }
}

/// What becomes of the decoded content: the request that uploads it, or the
/// error that says why there is no content.
pub fn request_for(file_name: String, decoded: Result<Vec<u8>, base64::DecodeError>, api_url: String) -> (r: Result<UploadRequest, UploadError>)
    ensures
        match r {
            Ok(request) => decoded is Ok && request@ == upload_request(
                file_name@,
                decoded->Ok_0@,
                api_url@,
            ),
            Err(UploadError::Decode { .. }) => decoded is Err,
            Err(_) => false,
        },
{
    match decoded {
        Ok(content) => Ok(build_request(file_name, content, api_url)),
        Err(e) => Err(UploadError::Decode { detail: e.to_string() }),
    }
}

/// The first half of an upload: decodes the content and says what to send.
///
/// Fails, with `Decode`, exactly where the content is not standard base64;
/// no request is made then.
pub fn prepare_upload(file_name: String, file_content_base64: &str, api_url: String) -> (r: Result<UploadRequest, UploadError>)
    ensures
        match r {
            Ok(request) => base64_decoded(file_content_base64@) is Some && request@
                == upload_request(
                file_name@,
                base64_decoded(file_content_base64@).unwrap(),
                api_url@,
            ),
            Err(UploadError::Decode { .. }) => base64_decoded(file_content_base64@) is None,
            Err(_) => false,
        },
{
    request_for(file_name, decode_standard(file_content_base64), api_url)
}

/// The envelope that a document stands for: an integer that fits 32 bits
/// under `code`, and strings under `msg` and `result`. Other members are
/// passed over.
pub open spec fn doc_response(doc: JsonDoc) -> Option<UploadResponseView> {
    if doc.signed_field("code"@) is Some && i32::MIN <= doc.signed_field("code"@).unwrap()
        <= i32::MAX && doc.text_field("msg"@) is Some && doc.text_field("result"@) is Some {
        Some(
            UploadResponseView {
                code: doc.signed_field("code"@).unwrap() as i32,
                msg: doc.text_field("msg"@).unwrap(),
                result: doc.text_field("result"@).unwrap(),
            },
        )
    } else {
        None
    }
}

/// The envelope that the body of an answer holds: the body must be JSON, and
/// the document must have the shape of an envelope.
pub open spec fn stored_response(body: Seq<char>) -> Option<UploadResponseView> {
    match json_parsed(body) {
        Some(doc) => doc_response(doc),
        None => None,
    }
}

/// Whether an HTTP status reports success: the codes from 200 to 299.
pub open spec fn is_success_status(status: u16) -> bool {
    200 <= status < 300
}

/// Whether an HTTP status reports success.
pub fn is_success(status: u16) -> (yes: bool)
    ensures
        yes == is_success_status(status),
{
    200 <= status && status < 300
}

/// Reads an envelope from a JSON value, if the value has its shape.
pub fn response_from_value(value: &Value) -> (r: Option<UploadResponse>)
    ensures
        match r {
            Some(response) => doc_response(doc_of(*value)) == Some(response@),
            None => doc_response(doc_of(*value)) is None,
        },
{
    let code = match signed_field(value, "code") {
        Some(code) => if -2147483648 <= code && code <= 2147483647 {
            code as i32
        } else {
            return None;
        },
        None => { return None; },
    };
    match (text_field(value, "msg"), text_field(value, "result")) {
        (Some(msg), Some(result)) => Some(UploadResponse { code, msg, result }),
        _ => None,
    }
}

/// What an envelope says: the result where the code is 0, else the failure
/// that the endpoint reports.
pub fn conclude(response: UploadResponse) -> (r: Result<String, UploadError>)
    ensures
        match r {
            Ok(result) => response.code == 0 && result == response.result,
            Err(UploadError::Api { code, msg }) => code != 0 && code == response.code && msg
                == response.msg,
            Err(_) => false,
        },
{
    if response.code == 0 {
        Ok(response.result)
    } else {
        Err(UploadError::Api { code: response.code, msg: response.msg })
    }
}

/// Whether `r` is what an answer of the endpoint comes to.
///
/// A status that is no success gives `Http` with the status and the body, and
/// the body is not looked into. Else a body that holds no envelope gives
/// `ResponseParse` with the body; an envelope with code 0 gives its result,
/// and any other envelope gives `Api` with its code and message.
pub open spec fn reads_answer(r: Result<String, UploadError>, status: u16, body: String) -> bool {
    match r {
        Ok(result) => {
            &&& is_success_status(status)
            &&& stored_response(body@) is Some
            &&& stored_response(body@).unwrap().code == 0
            &&& result@ == stored_response(body@).unwrap().result
        },
        Err(UploadError::Http { status: failed, body: raw }) => {
            &&& !is_success_status(status)
            &&& failed == status
            &&& raw == body
        },
        Err(UploadError::ResponseParse { cause, raw_body }) => {
            &&& is_success_status(status)
            &&& stored_response(body@) is None
            &&& raw_body == body
            &&& json_parsed(body@) is Some ==> cause@ == shape_detail()
        },
        Err(UploadError::Api { code, msg }) => {
            &&& is_success_status(status)
            &&& stored_response(body@) is Some
            &&& code != 0
            &&& code == stored_response(body@).unwrap().code
            &&& msg@ == stored_response(body@).unwrap().msg
        },
        Err(_) => false,
    }
}

/// Reads the answer of the endpoint: see [`reads_answer`].
pub fn interpret_response(status: u16, body: String) -> (r: Result<String, UploadError>)
    ensures
        reads_answer(r, status, body),
{
    if !is_success(status) {
        return Err(UploadError::Http { status, body });
    }
    match parse(body.as_str()) {
        Ok(value) => match response_from_value(&value) {
            Some(response) => conclude(response),
            None => Err(
                UploadError::ResponseParse {
                    cause: shape_mismatch(),
                    raw_body: body,
                },
            ),
        },
        Err(e) => Err(UploadError::ResponseParse { cause: e.to_string(), raw_body: body }),
    }
}

/// How the exchange with the endpoint went.
#[derive(Debug, Clone, PartialEq, Eq)]
pub enum Transport {
    /// The transport failed at `step`.
    Failed { step: TransportStep, cause: String },
    /// The endpoint answered.
    Answered { status: u16, body: String },
}

/// The second half of an upload: what the caller gets for the way the
/// exchange went. A failure of the transport gives `Network` with its step
/// and cause; an answer is read by [`interpret_response`].
pub fn finish_upload(outcome: Transport) -> (r: Result<String, UploadError>)
    ensures
        match outcome {
            Transport::Failed { step, cause } => r matches Err(
                UploadError::Network { step: failed, cause: why },
            ) && failed == step && why == cause,
            Transport::Answered { status, body } => reads_answer(r, status, body),
        },
{
    match outcome {
        Transport::Failed { step, cause } => Err(UploadError::Network { step, cause }),
        Transport::Answered { status, body } => interpret_response(status, body),
    }
}

} // verus!
