//! Header and multipart form assembly.
//!
//! Every outbound call carries the access key pair, the client version and
//! a freshly generated per-request correlation id as headers.  The request
//! bodies are multipart forms whose layout is fixed here, part by part; the
//! HTTP shell only has to copy the planned fields into its form builder in
//! order.

use vstd::prelude::*;

use crate::compile::ir_name;
use crate::compile::CompileRequest;
use crate::compile::TargetIr;
use crate::config::Credentials;
use crate::dss::CalibrateRequest;
use crate::dss::OptimizeRequest;
use crate::dss::QuantizeRequest;
use crate::json::ranges_json;
use crate::json::ranges_json_text;
use crate::json::tensors_json;
use crate::json::tensors_json_text;
use crate::ClientError;

verus! {

/// Header carrying the access key id.
pub const ACCESS_KEY_ID_HTTP_HEADER: &'static str = "X-FuriosaAI-Access-Key-ID";

/// Header carrying the secret access key.
pub const SECRET_ACCESS_KEY_HTTP_HEADER: &'static str = "X-FuriosaAI-Secret-Access-KEY";

/// Header carrying the per-request correlation id.
pub const REQUEST_ID_HTTP_HEADER: &'static str = "X-Request-Id";

/// Header carrying the client version.
pub const FURIOSA_SDK_VERSION_HEADER: &'static str = "X-FuriosaAI-SDK-Version";

/// The client version sent with every call.
pub const FURIOSA_SDK_VERSION_VALUE: &'static str = "0.2.1";

/// Content type under which model bytes are attached.
pub const APPLICATION_OCTET_STREAM_MIME: &'static str = "application/octet-stream";

/// One HTTP header to attach to a call.
pub struct Header {
    pub name: String,
    pub value: String,
}

/// Relies on uuid::Uuid::new_v4 and its hyphenated rendering: a fresh random
/// correlation id.  Nothing relates two calls; the hyphenated form is 36
/// characters.
#[verifier::external_body]
fn new_request_id() -> (r: String)
    ensures
        r@.len() == 36,
{
    uuid::Uuid::new_v4().hyphenated().to_string()
}

/// The four headers every outbound call carries: the per-request
/// correlation id, the access key pair, and the client version.
pub fn request_headers(creds: &Credentials, request_id: &str) -> (r: Vec<Header>)
    ensures
        r@.len() == 4,
        (r@[0].name@ == "X-Request-Id"@ && r@[0].value@ == request_id@),
        (r@[1].name@ == "X-FuriosaAI-Access-Key-ID"@ && r@[1].value@ == creds.access_key_id@),
        (r@[2].name@ == "X-FuriosaAI-Secret-Access-KEY"@ && r@[2].value@
            == creds.secret_access_key@),
        (r@[3].name@ == "X-FuriosaAI-SDK-Version"@ && r@[3].value@ == "0.2.1"@),
{
    let mut v: Vec<Header> = Vec::new();
    v.push(Header { name: REQUEST_ID_HTTP_HEADER.to_owned(), value: request_id.to_owned() });
    v.push(
        Header {
            name: ACCESS_KEY_ID_HTTP_HEADER.to_owned(),
            value: creds.access_key_id.clone(),
        },
    );
    v.push(
        Header {
            name: SECRET_ACCESS_KEY_HTTP_HEADER.to_owned(),
            value: creds.secret_access_key.clone(),
        },
    );
    v.push(
        Header {
            name: FURIOSA_SDK_VERSION_HEADER.to_owned(),
            value: FURIOSA_SDK_VERSION_VALUE.to_owned(),
        },
    );
    v
}

/// The headers of one outbound call with a freshly generated correlation
/// id, which is random and only ever read by the server's logs.
pub fn fresh_request_headers(creds: &Credentials) -> (r: Vec<Header>)
    ensures
        r@.len() == 4,
        (r@[0].name@ == "X-Request-Id"@ && r@[0].value@.len() == 36),
        (r@[1].name@ == "X-FuriosaAI-Access-Key-ID"@ && r@[1].value@ == creds.access_key_id@),
        (r@[2].name@ == "X-FuriosaAI-Secret-Access-KEY"@ && r@[2].value@
            == creds.secret_access_key@),
        (r@[3].name@ == "X-FuriosaAI-SDK-Version"@ && r@[3].value@ == "0.2.1"@),
{
    let id = new_request_id();
    request_headers(creds, id.as_str())
}

/// One part of a multipart form, in wire order.
pub enum FormField {
    /// A text part.
    Text { name: String, value: String },
    /// Bytes attached as a named file part with an explicit content type.
    File { name: String, filename: String, mime: String, bytes: Vec<u8> },
}

/// Relies on serde_json::to_string: serializes a JSON value to its text.
/// Serialization fails only when a `Serialize` impl decides to fail or a map
/// has non-string keys; a `Value` does neither (its objects are keyed by
/// `String`), so the call always succeeds.
#[verifier::external_body]
fn value_to_json(v: &serde_json::Value) -> (r: Option<String>)
    ensures
        r is Some,
{
    match serde_json::to_string(v) {
        Ok(s) => Some(s),
        Err(_) => None,
    }
}

/// Lays out the compile form from the already serialized device spec and
/// config: the target-ir name, the device spec text, the source bytes as a
/// file part, and the config text when present.
pub fn compile_form_parts(
    target_ir: TargetIr,
    filename: String,
    source: Vec<u8>,
    npu_spec_json: String,
    compiler_config_json: Option<String>,
) -> (r: Vec<FormField>)
    ensures
        r@.len() == (if compiler_config_json is Some {
            4int
        } else {
            3int
        }),
        (r@[0] matches FormField::Text { name, value } && name@ == "target_ir"@ && value@
            == ir_name(target_ir)),
        (r@[1] matches FormField::Text { name, value } && name@ == "target_npu_spec"@ && value@
            == npu_spec_json@),
        (r@[2] matches FormField::File { name, filename: f, mime, bytes } && name@ == "source"@
            && f@ == filename@ && mime@ == "application/octet-stream"@ && bytes@ == source@),
        (compiler_config_json matches Some(cfg) ==> (r@[3] matches FormField::Text { name, value }
            && name@ == "compiler_config"@ && value@ == cfg@)),
{
    let mut v: Vec<FormField> = Vec::new();
    v.push(FormField::Text { name: "target_ir".to_owned(), value: target_ir.as_str().to_owned() });
    v.push(FormField::Text { name: "target_npu_spec".to_owned(), value: npu_spec_json });
    v.push(
        FormField::File {
            name: "source".to_owned(),
            filename,
            mime: APPLICATION_OCTET_STREAM_MIME.to_owned(),
            bytes: source,
        },
    );
    match compiler_config_json {
        Some(cfg) => {
            v.push(FormField::Text { name: "compiler_config".to_owned(), value: cfg });
        },
        None => {},
    }
    v
}

/// The fixed layout of the compile form, without pinning the serialized JSON
/// texts (the device spec and config are opaque values).
pub open spec fn compile_form_shape(req: CompileRequest, fields: Seq<FormField>) -> bool {
    &&& fields.len() == (if req.compiler_config is Some {
        4int
    } else {
        3int
    })
    &&& (fields[0] matches FormField::Text { name, value } && name@ == "target_ir"@ && value@
        == ir_name(req.target_ir))
    &&& (fields[1] matches FormField::Text { name, .. } && name@ == "target_npu_spec"@)
    &&& (fields[2] matches FormField::File { name, filename, mime, bytes } && name@ == "source"@
        && filename@ == req.filename@ && mime@ == "application/octet-stream"@ && bytes@
        == req.source@)
    &&& (req.compiler_config is Some ==> (fields[3] matches FormField::Text { name, .. } && name@
        == "compiler_config"@))
}

/// Builds the multipart form of a compile request, serializing the device
/// spec and the optional compiler config; serializing a JSON value cannot
/// fail, so neither can the form.
pub fn compile_form(req: CompileRequest) -> (r: Vec<FormField>)
    ensures
        compile_form_shape(req, r@),
{
    let npu_spec_json: String = match value_to_json(&req.target_npu_spec) {
        Some(s) => s,
        None => unreached(),
    };
    let compiler_config_json: Option<String> = match &req.compiler_config {
        Some(cfg) => match value_to_json(cfg) {
            Some(s) => Some(s),
            None => unreached(),
        },
        None => None,
    };
    compile_form_parts(req.target_ir, req.filename, req.source, npu_spec_json, compiler_config_json)
}

/// Lays out the optimize form: the source bytes as the only part.
pub fn optimize_form(req: OptimizeRequest) -> (r: Vec<FormField>)
    ensures
        r@.len() == 1,
        (r@[0] matches FormField::File { name, filename, mime, bytes } && name@ == "source"@
            && filename@ == req.filename@ && mime@ == "application/octet-stream"@ && bytes@
            == req.source@),
{
    let mut v: Vec<FormField> = Vec::new();
    v.push(
        FormField::File {
            name: "source".to_owned(),
            filename: req.filename,
            mime: APPLICATION_OCTET_STREAM_MIME.to_owned(),
            bytes: req.source,
        },
    );
    v
}

/// Lays out the calibration form: the tensor-name list as JSON text, then
/// the source bytes.
pub fn calibrate_form(req: CalibrateRequest) -> (r: Vec<FormField>)
    ensures
        r@.len() == 2,
        (r@[0] matches FormField::Text { name, value } && name@ == "input_tensors"@ && value@
            == tensors_json_text(req.input_tensors.deep_view())),
        (r@[1] matches FormField::File { name, filename, mime, bytes } && name@ == "source"@
            && filename@ == req.filename@ && mime@ == "application/octet-stream"@ && bytes@
            == req.source@),
{
    let tensors = tensors_json(&req.input_tensors);
    let mut v: Vec<FormField> = Vec::new();
    v.push(FormField::Text { name: "input_tensors".to_owned(), value: tensors });
    v.push(
        FormField::File {
            name: "source".to_owned(),
            filename: req.filename,
            mime: APPLICATION_OCTET_STREAM_MIME.to_owned(),
            bytes: req.source,
        },
    );
    v
}

/// Lays out the quantization form: the tensor-name list, the dynamic-range
/// object, then the source bytes.
pub fn quantize_form(req: QuantizeRequest) -> (r: Vec<FormField>)
    ensures
        r@.len() == 3,
        (r@[0] matches FormField::Text { name, value } && name@ == "input_tensors"@ && value@
            == tensors_json_text(req.input_tensors.deep_view())),
        (r@[1] matches FormField::Text { name, value } && name@ == "dynamic_ranges"@ && value@
            == ranges_json_text(req.dynamic_ranges@)),
        (r@[2] matches FormField::File { name, filename, mime, bytes } && name@ == "source"@
            && filename@ == req.filename@ && mime@ == "application/octet-stream"@ && bytes@
            == req.source@),
{
    let tensors = tensors_json(&req.input_tensors);
    let ranges = ranges_json(&req.dynamic_ranges);
    let mut v: Vec<FormField> = Vec::new();
    v.push(FormField::Text { name: "input_tensors".to_owned(), value: tensors });
    v.push(FormField::Text { name: "dynamic_ranges".to_owned(), value: ranges });
    v.push(
        FormField::File {
            name: "source".to_owned(),
            filename: req.filename,
            mime: APPLICATION_OCTET_STREAM_MIME.to_owned(),
            bytes: req.source,
        },
    );
    v
}

} // verus!
