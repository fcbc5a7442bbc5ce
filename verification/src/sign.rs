//! E-signature façade: the decisions behind each remote operation.
//!
//! Each operation is planned here as a value — which endpoint, which body,
//! JSON or multipart — and the plan's contract pins every choice: the
//! sender-email precondition fails fast before any call, a request carrying
//! raw file bytes becomes a multipart upload with an exactly specified form,
//! and any other document source is sent as one JSON body.

use vstd::prelude::*;

use crate::errors::ErrorV;
use crate::errors::TurboDocxError;
use crate::http::HttpClientConfig;
use crate::http::HttpClientConfigV;
use crate::http::spec_unwrap_envelope;
use crate::json::Json;
use crate::json::JsonValue;
use crate::json::member;
use crate::json::obj_lookup;
use crate::json::opt_member_str;
use crate::json::opt_member_str_arr;
use crate::json::push_member;
use crate::json::push_opt_str;
use crate::json::push_opt_str_arr;
use crate::json::str_arr_json;
use crate::json::view_of_members;
use crate::sign_types::AuditTrailResponse;
use crate::sign_types::CreateSignatureReviewLinkRequest;
use crate::sign_types::CreateSignatureReviewLinkResponse;
use crate::sign_types::DocumentStatusResponse;
use crate::sign_types::Field;
use crate::sign_types::Recipient;
use crate::sign_types::ResendEmailResponse;
use crate::sign_types::SendSignatureRequest;
use crate::sign_types::SendSignatureResponse;
use crate::sign_types::SignatureRequestV;
use crate::sign_types::VoidDocumentResponse;
use crate::sign_types::audit_response_of_json;
use crate::sign_types::document_status_response_of_json;
use crate::sign_types::fields_json_arr;
use crate::sign_types::fields_to_json;
use crate::sign_types::recipients_json_arr;
use crate::sign_types::recipients_to_json;
use crate::sign_types::resend_email_response_of_json;
use crate::sign_types::review_link_response_of_json;
use crate::sign_types::send_signature_response_of_json;
use crate::sign_types::signature_request_json;
use crate::sign_types::void_document_response_of_json;
use vstd::string::StringExecFns;

verus! {

/// Mathematical model of a `SignatureCall`.
pub enum SignatureCallV {
    Multipart {
        path: Seq<char>,
        file: Seq<u8>,
        file_name: Seq<char>,
        form: Seq<(Seq<char>, Json)>,
    },
    Json { path: Seq<char>, body: Json },
}

/// One outbound call, fully decided: the endpoint and either a multipart
/// upload (file plus form fields) or a single JSON body.
#[derive(Debug)]
pub enum SignatureCall {
    Multipart {
        path: String,
        file: Vec<u8>,
        file_name: String,
        form: Vec<(String, JsonValue)>,
    },
    Json { path: String, body: JsonValue },
}

impl DeepView for SignatureCall {
    type V = SignatureCallV;

    open spec fn deep_view(&self) -> SignatureCallV {
        match self {
            SignatureCall::Multipart { path, file, file_name, form } => SignatureCallV::Multipart {
                path: path@,
                file: file@,
                file_name: file_name@,
                form: view_of_members(form@),
            },
            SignatureCall::Json { path, body } => SignatureCallV::Json {
                path: path@,
                body: body@,
            },
        }
    }
}

/// Whether a usable sender email is configured.
pub open spec fn sender_email_configured(c: HttpClientConfigV) -> bool {
    match c.sender_email {
        Some(e) => e.len() > 0,
        None => false,
    }
}

/// The sender email attached to a multipart upload: the request's value
/// when present, else the configured default.
pub open spec fn effective_sender_email(v: SignatureRequestV, c: HttpClientConfigV) -> Seq<char> {
    match v.sender_email {
        Some(e) => e,
        None => match c.sender_email {
            Some(e) => e,
            None => Seq::empty(),
        },
    }
}

/// The sender name attached to a multipart upload: the request's value when
/// present, else the configured default, else nothing.
pub open spec fn effective_sender_name(v: SignatureRequestV, c: HttpClientConfigV) -> Option<
    Seq<char>,
> {
    match v.sender_name {
        Some(n) => Some(n),
        None => c.sender_name,
    }
}

/// The form fields of a multipart signature upload: recipients and fields
/// in their JSON shapes, the optional document name and description, the
/// sender identity after fallback, and the optional addresses in copy.
pub open spec fn spec_signature_form(v: SignatureRequestV, c: HttpClientConfigV) -> Seq<
    (Seq<char>, Json),
> {
    member("recipients"@, Json::Arr(recipients_json_arr(v.recipients))) + member(
        "fields"@,
        Json::Arr(fields_json_arr(v.fields)),
    ) + opt_member_str("documentName"@, v.document_name) + opt_member_str(
        "documentDescription"@,
        v.document_description,
    ) + member("senderEmail"@, Json::Str(effective_sender_email(v, c))) + opt_member_str(
        "senderName"@,
        effective_sender_name(v, c),
    ) + opt_member_str_arr("ccEmails"@, v.cc_emails)
}

/// The file name of a multipart upload: the request's value, else
/// `document.pdf`.
pub open spec fn effective_file_name(v: SignatureRequestV) -> Seq<char> {
    match v.file_name {
        Some(n) => n,
        None => "document.pdf"@,
    }
}

/// The plan of a signature operation. Without a configured sender email the
/// operation fails at once with a validation error and no call is made.
/// With raw file bytes the call is a multipart upload; with any other
/// document source it is one JSON body holding the whole request.
pub open spec fn spec_signature_call(
    v: SignatureRequestV,
    c: HttpClientConfigV,
    multipart_path: Seq<char>,
    json_path: Seq<char>,
) -> Result<SignatureCallV, ErrorV> {
    if !sender_email_configured(c) {
        Err(
            ErrorV::Validation(
                "senderEmail is required for TurboSign operations. Please configure with sender_email."@,
            ),
        )
    } else {
        match v.file {
            Some(bytes) => Ok(
                SignatureCallV::Multipart {
                    path: multipart_path,
                    file: bytes,
                    file_name: effective_file_name(v),
                    form: spec_signature_form(v, c),
                },
            ),
            None => Ok(SignatureCallV::Json { path: json_path, body: signature_request_json(v) }),
        }
    }
}

/// Handle to the e-signature operations, built from one configuration.
#[derive(Debug, Clone)]
pub struct TurboSign {
    /// The configuration every call of this handle uses.
    pub config: HttpClientConfig,
}

fn build_signature_form(
    recipients: &Vec<Recipient>,
    fields: &Vec<Field>,
    document_name: &Option<String>,
    document_description: &Option<String>,
    sender_email: &Option<String>,
    sender_name: &Option<String>,
    cc_emails: &Option<Vec<String>>,
    config: &HttpClientConfig,
) -> (form: Vec<(String, JsonValue)>)
    ensures
        view_of_members(form@) == spec_signature_form(
            SignatureRequestV {
                file: None,
                file_name: None,
                file_link: None,
                deliverable_id: None,
                template_id: None,
                recipients: recipients.deep_view(),
                fields: fields.deep_view(),
                document_name: document_name.deep_view(),
                document_description: document_description.deep_view(),
                sender_name: sender_name.deep_view(),
                sender_email: sender_email.deep_view(),
                cc_emails: cc_emails.deep_view(),
            },
            config.deep_view(),
        ),
{
    let mut form: Vec<(String, JsonValue)> = Vec::new();
    push_member(&mut form, "recipients", recipients_to_json(recipients));
    push_member(&mut form, "fields", fields_to_json(fields));
    push_opt_str(&mut form, "documentName", document_name);
    push_opt_str(&mut form, "documentDescription", document_description);
    let sender_email_val = match sender_email {
        Some(e) => e.clone(),
        None => match &config.sender_email {
            Some(e) => e.clone(),
            None => String::new(),
        },
    };
    push_member(&mut form, "senderEmail", JsonValue::Str(sender_email_val));
    match sender_name {
        Some(n) => push_member(&mut form, "senderName", JsonValue::Str(n.clone())),
        None => match &config.sender_name {
            Some(n) => push_member(&mut form, "senderName", JsonValue::Str(n.clone())),
            None => (),
        },
    }
    push_opt_str_arr(&mut form, "ccEmails", cc_emails);
    form
}

impl TurboSign {
    /// A handle using the given configuration.
    pub fn configure(config: HttpClientConfig) -> (r: Result<TurboSign, TurboDocxError>)
        ensures
            r matches Ok(t) && t.config.deep_view() == config.deep_view(),
    {
        Ok(TurboSign { config })
    }

    /// Plan the call that prepares a document for review without sending
    /// emails.
    pub fn create_signature_review_link_call(&self, request: CreateSignatureReviewLinkRequest) -> (
        r: Result<SignatureCall, TurboDocxError>)
        ensures
            match r {
                Ok(call) => spec_signature_call(
                    request.deep_view(),
                    self.config.deep_view(),
                    "/turbosign/single/prepare-for-review"@,
                    "/v1/signature/create-review-link"@,
                ) == Ok::<SignatureCallV, ErrorV>(call.deep_view()),
                Err(e) => spec_signature_call(
                    request.deep_view(),
                    self.config.deep_view(),
                    "/turbosign/single/prepare-for-review"@,
                    "/v1/signature/create-review-link"@,
                ) == Err::<SignatureCallV, ErrorV>(e.deep_view()),
            },
    {
        if !sender_email_usable(&self.config) {
            return Err(sender_email_error());
        }
        match request.file {
            Some(ref bytes) => {
                let file = bytes.clone();
                proof {
                    assert(forall|i: int| 0 <= i < bytes@.len() ==> file@[i] == bytes@[i]);
                    assert(file@ =~= bytes@);
                    assert(bytes.deep_view() =~= bytes@);
                }
                let form = build_signature_form(
                    &request.recipients,
                    &request.fields,
                    &request.document_name,
                    &request.document_description,
                    &request.sender_email,
                    &request.sender_name,
                    &request.cc_emails,
                    &self.config,
                );
                let file_name = match &request.file_name {
                    Some(n) => n.clone(),
                    None => "document.pdf".to_owned(),
                };
                Ok(
                    SignatureCall::Multipart {
                        path: "/turbosign/single/prepare-for-review".to_owned(),
                        file,
                        file_name,
                        form,
                    },
                )
            },
            None => {
                let body = request.to_json();
                Ok(
                    SignatureCall::Json {
                        path: "/v1/signature/create-review-link".to_owned(),
                        body,
                    },
                )
            },
        }
    }

    /// Plan the call that prepares a document and immediately sends the
    /// signature request emails.
    pub fn send_signature_call(&self, request: SendSignatureRequest) -> (r: Result<
        SignatureCall,
        TurboDocxError,
    >)
        ensures
            match r {
                Ok(call) => spec_signature_call(
                    request.deep_view(),
                    self.config.deep_view(),
                    "/turbosign/single/send"@,
                    "/v1/signature/send"@,
                ) == Ok::<SignatureCallV, ErrorV>(call.deep_view()),
                Err(e) => spec_signature_call(
                    request.deep_view(),
                    self.config.deep_view(),
                    "/turbosign/single/send"@,
                    "/v1/signature/send"@,
                ) == Err::<SignatureCallV, ErrorV>(e.deep_view()),
            },
    {
        if !sender_email_usable(&self.config) {
            return Err(sender_email_error());
        }
        match request.file {
            Some(ref bytes) => {
                let file = bytes.clone();
                proof {
                    assert(forall|i: int| 0 <= i < bytes@.len() ==> file@[i] == bytes@[i]);
                    assert(file@ =~= bytes@);
                    assert(bytes.deep_view() =~= bytes@);
                }
                let form = build_signature_form(
                    &request.recipients,
                    &request.fields,
                    &request.document_name,
                    &request.document_description,
                    &request.sender_email,
                    &request.sender_name,
                    &request.cc_emails,
                    &self.config,
                );
                let file_name = match &request.file_name {
                    Some(n) => n.clone(),
                    None => "document.pdf".to_owned(),
                };
                Ok(
                    SignatureCall::Multipart {
                        path: "/turbosign/single/send".to_owned(),
                        file,
                        file_name,
                        form,
                    },
                )
            },
            None => {
                let body = request.to_json();
                Ok(SignatureCall::Json { path: "/v1/signature/send".to_owned(), body })
            },
        }
    }

    /// The body of a void call: `{documentId, reason?}`.
    pub fn void_document_body(document_id: &str, reason: Option<&str>) -> (j: JsonValue)
        ensures
            j@ == Json::Obj(
                member("documentId"@, Json::Str(document_id@)) + opt_member_str(
                    "reason"@,
                    match reason {
                        Some(s) => Some(s@),
                        None => None,
                    },
                ),
            ),
    {
        let mut ms: Vec<(String, JsonValue)> = Vec::new();
        push_member(&mut ms, "documentId", JsonValue::Str(document_id.to_owned()));
        match reason {
            Some(s) => push_member(&mut ms, "reason", JsonValue::Str(s.to_owned())),
            None => (),
        }
        proof {
            assert(view_of_members(ms@) =~= member("documentId"@, Json::Str(document_id@))
                + opt_member_str(
                "reason"@,
                match reason {
                    Some(s) => Some(s@),
                    None => None,
                },
            ));
        }
        JsonValue::Obj(ms)
    }

    /// The endpoint of a void call.
    pub fn void_document_path() -> (r: &'static str)
        ensures
            r@ == "/v1/signature/void"@,
    {
        "/v1/signature/void"
    }

    /// The body of a resend call: `{documentId, recipientIds}`.
    pub fn resend_emails_body(document_id: &str, recipient_ids: &Vec<String>) -> (j: JsonValue)
        ensures
            j@ == Json::Obj(
                member("documentId"@, Json::Str(document_id@)) + member(
                    "recipientIds"@,
                    str_arr_json(recipient_ids.deep_view()),
                ),
            ),
    {
        let mut ms: Vec<(String, JsonValue)> = Vec::new();
        push_member(&mut ms, "documentId", JsonValue::Str(document_id.to_owned()));
        push_member(&mut ms, "recipientIds", crate::json::strings_to_json(recipient_ids));
        proof {
            assert(view_of_members(ms@) =~= member("documentId"@, Json::Str(document_id@))
                + member("recipientIds"@, str_arr_json(recipient_ids.deep_view())));
        }
        JsonValue::Obj(ms)
    }

    /// The endpoint of a resend call.
    pub fn resend_emails_path() -> (r: &'static str)
        ensures
            r@ == "/v1/signature/resend"@,
    {
        "/v1/signature/resend"
    }

    /// The endpoint of an audit trail query.
    pub fn audit_trail_path(document_id: &str) -> (r: String)
        ensures
            r@ == "/v1/signature/"@ + document_id@ + "/audit-trail"@,
    {
        let mut p = "/v1/signature/".to_owned();
        p.append(document_id);
        p.append("/audit-trail");
        p
    }

    /// The endpoint of a status query.
    pub fn status_path(document_id: &str) -> (r: String)
        ensures
            r@ == "/v1/signature/"@ + document_id@ + "/status"@,
    {
        let mut p = "/v1/signature/".to_owned();
        p.append(document_id);
        p.append("/status");
        p
    }

    /// The endpoint of a download query.
    pub fn download_path(document_id: &str) -> (r: String)
        ensures
            r@ == "/v1/signature/"@ + document_id@ + "/download"@,
    {
        let mut p = "/v1/signature/".to_owned();
        p.append(document_id);
        p.append("/download");
        p
    }

    /// Extract the presigned download URL from a download response: the
    /// `downloadUrl` member of the unwrapped payload, failing when it is
    /// absent or not a string.
    pub fn download_url_from(v: &JsonValue) -> (r: Result<String, TurboDocxError>)
        ensures
            match r {
                Ok(url) => spec_download_url(v@) == Ok::<Seq<char>, ErrorV>(url@),
                Err(e) => spec_download_url(v@) == Err::<Seq<char>, ErrorV>(e.deep_view()),
            },
    {
        let payload = crate::http::unwrap_envelope(v);
        match payload {
            JsonValue::Obj(ref ms) => match crate::json::obj_get(ms, "downloadUrl") {
                Some(JsonValue::Str(s)) => Ok(s.clone()),
                _ => Err(TurboDocxError::Other("No download URL in response".to_owned())),
            },
            _ => Err(TurboDocxError::Other("No download URL in response".to_owned())),
        }
    }
}

/// The download URL a download response carries, or the error surfaced when
/// it carries none.
pub open spec fn spec_download_url(j: Json) -> Result<Seq<char>, ErrorV> {
    match spec_unwrap_envelope(j) {
        Json::Obj(ms) => match obj_lookup(ms, "downloadUrl"@) {
            Some(Json::Str(s)) => Ok(s),
            _ => Err(ErrorV::Other("No download URL in response"@)),
        },
        _ => Err(ErrorV::Other("No download URL in response"@)),
    }
}

/// Whether the configured sender email is present and non-empty.
fn sender_email_usable(config: &HttpClientConfig) -> (r: bool)
    ensures
        r == sender_email_configured(config.deep_view()),
{
    match &config.sender_email {
        Some(e) => !e.as_str().is_empty(),
        None => false,
    }
}

/// The validation error of a signature operation attempted without a
/// configured sender email.
fn sender_email_error() -> (e: TurboDocxError)
    ensures
        e.deep_view() == ErrorV::Validation(
            "senderEmail is required for TurboSign operations. Please configure with sender_email."@,
        ),
{
    TurboDocxError::Validation(
        "senderEmail is required for TurboSign operations. Please configure with sender_email.".to_owned(),
    )
}

/// Decode a review-link response from a response payload, after envelope
/// normalization.
pub fn parse_review_link_response(v: &JsonValue) -> (r: Result<
    CreateSignatureReviewLinkResponse,
    TurboDocxError,
>)
    ensures
        match r {
            Ok(resp) => review_link_response_of_json(spec_unwrap_envelope(v@)) == Some(
                resp.deep_view(),
            ),
            Err(e) => review_link_response_of_json(spec_unwrap_envelope(v@)) is None
                && e.deep_view() == ErrorV::Serialization(
                "response body does not have the expected shape"@,
            ),
        },
{
    let payload = crate::http::unwrap_envelope(v);
    match CreateSignatureReviewLinkResponse::from_json(&payload) {
        Some(resp) => Ok(resp),
        None => Err(
            TurboDocxError::Serialization(
                "response body does not have the expected shape".to_owned(),
            ),
        ),
    }
}

/// Decode a send response from a response payload.
pub fn parse_send_signature_response(v: &JsonValue) -> (r: Result<
    SendSignatureResponse,
    TurboDocxError,
>)
    ensures
        match r {
            Ok(resp) => send_signature_response_of_json(spec_unwrap_envelope(v@)) == Some(
                resp.deep_view(),
            ),
            Err(e) => send_signature_response_of_json(spec_unwrap_envelope(v@)) is None
                && e.deep_view() == ErrorV::Serialization(
                "response body does not have the expected shape"@,
            ),
        },
{
    let payload = crate::http::unwrap_envelope(v);
    match SendSignatureResponse::from_json(&payload) {
        Some(resp) => Ok(resp),
        None => Err(
            TurboDocxError::Serialization(
                "response body does not have the expected shape".to_owned(),
            ),
        ),
    }
}

/// Decode a void response from a response payload.
pub fn parse_void_document_response(v: &JsonValue) -> (r: Result<
    VoidDocumentResponse,
    TurboDocxError,
>)
    ensures
        match r {
            Ok(resp) => void_document_response_of_json(spec_unwrap_envelope(v@)) == Some(
                resp.deep_view(),
            ),
            Err(e) => void_document_response_of_json(spec_unwrap_envelope(v@)) is None
                && e.deep_view() == ErrorV::Serialization(
                "response body does not have the expected shape"@,
            ),
        },
{
    let payload = crate::http::unwrap_envelope(v);
    match VoidDocumentResponse::from_json(&payload) {
        Some(resp) => Ok(resp),
        None => Err(
            TurboDocxError::Serialization(
                "response body does not have the expected shape".to_owned(),
            ),
        ),
    }
}

/// Decode a resend response from a response payload.
pub fn parse_resend_email_response(v: &JsonValue) -> (r: Result<
    ResendEmailResponse,
    TurboDocxError,
>)
    ensures
        match r {
            Ok(resp) => resend_email_response_of_json(spec_unwrap_envelope(v@)) == Some(
                resp.deep_view(),
            ),
            Err(e) => resend_email_response_of_json(spec_unwrap_envelope(v@)) is None
                && e.deep_view() == ErrorV::Serialization(
                "response body does not have the expected shape"@,
            ),
        },
{
    let payload = crate::http::unwrap_envelope(v);
    match ResendEmailResponse::from_json(&payload) {
        Some(resp) => Ok(resp),
        None => Err(
            TurboDocxError::Serialization(
                "response body does not have the expected shape".to_owned(),
            ),
        ),
    }
}

/// Decode an audit trail response from a response payload.
pub fn parse_audit_trail_response(v: &JsonValue) -> (r: Result<
    AuditTrailResponse,
    TurboDocxError,
>)
    ensures
        match r {
            Ok(resp) => audit_response_of_json(spec_unwrap_envelope(v@)) == Some(resp.deep_view()),
            Err(e) => audit_response_of_json(spec_unwrap_envelope(v@)) is None && e.deep_view()
                == ErrorV::Serialization("response body does not have the expected shape"@),
        },
{
    let payload = crate::http::unwrap_envelope(v);
    match AuditTrailResponse::from_json(&payload) {
        Some(resp) => Ok(resp),
        None => Err(
            TurboDocxError::Serialization(
                "response body does not have the expected shape".to_owned(),
            ),
        ),
    }
}

/// Decode a status response from a response payload. The `data` envelope is
/// normalized first, so `{"data": {"status": s}}` and `{"status": s}`
/// decode to the same value.
pub fn parse_document_status_response(v: &JsonValue) -> (r: Result<
    DocumentStatusResponse,
    TurboDocxError,
>)
    ensures
        match r {
            Ok(resp) => document_status_response_of_json(spec_unwrap_envelope(v@)) == Some(
                resp.deep_view(),
            ),
            Err(e) => document_status_response_of_json(spec_unwrap_envelope(v@)) is None
                && e.deep_view() == ErrorV::Serialization(
                "response body does not have the expected shape"@,
            ),
        },
{
    let payload = crate::http::unwrap_envelope(v);
    match DocumentStatusResponse::from_json(&payload) {
        Some(resp) => Ok(resp),
        None => Err(
            TurboDocxError::Serialization(
                "response body does not have the expected shape".to_owned(),
            ),
        ),
    }
}

} // verus!
