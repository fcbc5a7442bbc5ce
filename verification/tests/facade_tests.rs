use turbodocx_sdk::http::HttpClientConfig;
use turbodocx_sdk::render;
use turbodocx_sdk::CreateSignatureReviewLinkRequest;
use turbodocx_sdk::Field;
use turbodocx_sdk::JsonValue;
use turbodocx_sdk::Recipient;
use turbodocx_sdk::SendSignatureRequest;
use turbodocx_sdk::SignatureCall;
use turbodocx_sdk::SignatureFieldType;
use turbodocx_sdk::TurboDocxError;
use turbodocx_sdk::TurboSign;
use turbodocx_sdk::TurboTemplate;
use turbodocx_sdk::AuditTrailDocument;
use turbodocx_sdk::AuditTrailEntry;
use turbodocx_sdk::AuditTrailResponse;
use turbodocx_sdk::AuditTrailUser;
use turbodocx_sdk::CreateSignatureReviewLinkResponse;
use turbodocx_sdk::RecipientStatus;

fn sample_request(file: Option<Vec<u8>>) -> CreateSignatureReviewLinkRequest {
    CreateSignatureReviewLinkRequest {
        file,
        file_name: None,
        file_link: Some("https://example.com/contract.pdf".to_string()),
        deliverable_id: None,
        template_id: None,
        recipients: vec![Recipient::new("John Doe", "john@example.com", 1)],
        fields: vec![Field::coordinate_based(
            SignatureFieldType::Signature,
            1,
            100,
            500,
            200,
            50,
            "john@example.com",
        )],
        document_name: Some("Contract".to_string()),
        document_description: None,
        sender_name: None,
        sender_email: None,
        cc_emails: None,
    }
}

#[test]
fn test_send_without_sender_email_fails_fast() {
    let sign = TurboSign::configure(HttpClientConfig::new("key")).unwrap();
    let request = SendSignatureRequest {
        file: None,
        file_name: None,
        file_link: Some("https://example.com/contract.pdf".to_string()),
        deliverable_id: None,
        template_id: None,
        recipients: vec![Recipient::new("John Doe", "john@example.com", 1)],
        fields: vec![],
        document_name: None,
        document_description: None,
        sender_name: None,
        sender_email: None,
        cc_emails: None,
    };
    let r = sign.send_signature_call(request);
    assert!(matches!(r, Err(TurboDocxError::Validation(_))));
}

#[test]
fn test_review_link_without_sender_email_fails_fast() {
    let sign = TurboSign::configure(HttpClientConfig::new("key").with_sender_email("")).unwrap();
    let r = sign.create_signature_review_link_call(sample_request(None));
    assert!(matches!(r, Err(TurboDocxError::Validation(_))));
}

#[test]
fn test_review_link_json_path() {
    let sign = TurboSign::configure(
        HttpClientConfig::new("key").with_sender_email("support@company.com"),
    )
    .unwrap();
    let r = sign.create_signature_review_link_call(sample_request(None)).unwrap();
    match r {
        SignatureCall::Json { path, body } => {
            assert_eq!(path, "/v1/signature/create-review-link");
            let text = render(&body);
            assert!(text.contains("\"fileLink\":\"https://example.com/contract.pdf\""));
            assert!(!text.contains("\"file\":"));
        }
        _ => panic!("expected a JSON call"),
    }
}

#[test]
fn test_review_link_multipart_path() {
    let sign = TurboSign::configure(
        HttpClientConfig::new("key")
            .with_sender_email("support@company.com")
            .with_sender_name("Support"),
    )
    .unwrap();
    let r = sign
        .create_signature_review_link_call(sample_request(Some(vec![1, 2, 3])))
        .unwrap();
    match r {
        SignatureCall::Multipart { path, file, file_name, form } => {
            assert_eq!(path, "/turbosign/single/prepare-for-review");
            assert_eq!(file, vec![1, 2, 3]);
            assert_eq!(file_name, "document.pdf");
            let keys: Vec<&str> = form.iter().map(|m| m.0.as_str()).collect();
            assert_eq!(
                keys,
                vec!["recipients", "fields", "documentName", "senderEmail", "senderName"]
            );
            assert_eq!(form[3].1, JsonValue::Str("support@company.com".to_string()));
        }
        _ => panic!("expected a multipart call"),
    }
}

#[test]
fn test_send_signature_multipart_uses_send_endpoint() {
    let sign = TurboSign::configure(
        HttpClientConfig::new("key").with_sender_email("support@company.com"),
    )
    .unwrap();
    let request = SendSignatureRequest {
        file: Some(vec![9]),
        file_name: Some("x.pdf".to_string()),
        file_link: None,
        deliverable_id: None,
        template_id: None,
        recipients: vec![],
        fields: vec![],
        document_name: None,
        document_description: None,
        sender_name: None,
        sender_email: Some("override@company.com".to_string()),
        cc_emails: None,
    };
    let r = sign.send_signature_call(request).unwrap();
    match r {
        SignatureCall::Multipart { path, file_name, form, .. } => {
            assert_eq!(path, "/turbosign/single/send");
            assert_eq!(file_name, "x.pdf");
            let sender = form.iter().find(|m| m.0 == "senderEmail").unwrap();
            assert_eq!(sender.1, JsonValue::Str("override@company.com".to_string()));
        }
        _ => panic!("expected a multipart call"),
    }
}

#[test]
fn test_void_and_resend_bodies() {
    let body = TurboSign::void_document_body("doc-1", Some("terms changed"));
    assert_eq!(
        render(&body),
        "{\"documentId\":\"doc-1\",\"reason\":\"terms changed\"}"
    );
    let body = TurboSign::void_document_body("doc-1", None);
    assert_eq!(render(&body), "{\"documentId\":\"doc-1\"}");

    let body =
        TurboSign::resend_emails_body("doc-2", &vec!["r1".to_string(), "r2".to_string()]);
    assert_eq!(
        render(&body),
        "{\"documentId\":\"doc-2\",\"recipientIds\":[\"r1\",\"r2\"]}"
    );
}

#[test]
fn test_signature_paths() {
    assert_eq!(TurboSign::audit_trail_path("d"), "/v1/signature/d/audit-trail");
    assert_eq!(TurboSign::status_path("d"), "/v1/signature/d/status");
    assert_eq!(TurboSign::download_path("d"), "/v1/signature/d/download");
    assert_eq!(TurboSign::void_document_path(), "/v1/signature/void");
    assert_eq!(TurboSign::resend_emails_path(), "/v1/signature/resend");
    assert_eq!(TurboTemplate::generate_path(), "/v1/deliverable");
}

#[test]
fn test_download_url_extraction() {
    let ok = JsonValue::Obj(vec![(
        "downloadUrl".to_string(),
        JsonValue::Str("https://files.example/doc".to_string()),
    )]);
    assert_eq!(
        TurboSign::download_url_from(&ok).unwrap(),
        "https://files.example/doc"
    );

    let wrapped = JsonValue::Obj(vec![("data".to_string(), ok)]);
    assert_eq!(
        TurboSign::download_url_from(&wrapped).unwrap(),
        "https://files.example/doc"
    );

    let missing = JsonValue::Obj(vec![("other".to_string(), JsonValue::Null)]);
    assert!(matches!(
        TurboSign::download_url_from(&missing),
        Err(TurboDocxError::Other(_))
    ));
}

#[test]
fn test_status_envelope_and_bare_body_decode_identically() {
    let bare = JsonValue::Obj(vec![(
        "status".to_string(),
        JsonValue::Str("completed".to_string()),
    )]);
    let wrapped = JsonValue::Obj(vec![(
        "data".to_string(),
        JsonValue::Obj(vec![(
            "status".to_string(),
            JsonValue::Str("completed".to_string()),
        )]),
    )]);

    let a = turbodocx_sdk::sign::parse_document_status_response(&bare).unwrap();
    let b = turbodocx_sdk::sign::parse_document_status_response(&wrapped).unwrap();
    assert_eq!(a, b);
    assert_eq!(a.status, "completed");
}

#[test]
fn test_status_to_error_mapping() {
    let cases: Vec<(u16, fn(&TurboDocxError) -> bool)> = vec![
        (401, |e| matches!(e, TurboDocxError::Authentication(_))),
        (400, |e| matches!(e, TurboDocxError::Validation(_))),
        (404, |e| matches!(e, TurboDocxError::NotFound(_))),
        (429, |e| matches!(e, TurboDocxError::RateLimit(_))),
    ];
    for (status, check) in cases {
        let e = turbodocx_sdk::errors::error_for_status(status, "boom".to_string());
        assert!(check(&e));
    }
    match turbodocx_sdk::errors::error_for_status(503, "down".to_string()) {
        TurboDocxError::Api { status, message } => {
            assert_eq!(status, 503);
            assert_eq!(message, "down");
        }
        _ => panic!("expected an API error"),
    }
}

#[test]
fn test_check_status_accepts_success_range() {
    assert!(turbodocx_sdk::errors::check_status(200, String::new()).is_ok());
    assert!(turbodocx_sdk::errors::check_status(204, String::new()).is_ok());
    assert!(turbodocx_sdk::errors::check_status(299, String::new()).is_ok());
    assert!(turbodocx_sdk::errors::check_status(300, String::new()).is_err());
    assert!(turbodocx_sdk::errors::check_status(199, String::new()).is_err());
}

#[test]
fn test_error_describe_messages() {
    let e = TurboDocxError::Authentication("denied".to_string());
    assert_eq!(e.describe(), "Authentication error: denied");
    let e = TurboDocxError::Api { status: 503, message: "down".to_string() };
    assert_eq!(e.describe(), "API error (status 503): down");
}

#[test]
fn test_download_source_path() {
    let deliverable_id = "deliverable-123";
    let format = "source";
    let path = if format == "pdf" {
        format!("/v1/deliverable/file/pdf/{}", deliverable_id)
    } else {
        format!("/v1/deliverable/file/{}", deliverable_id)
    };
    assert_eq!(path, "/v1/deliverable/file/deliverable-123");
}

#[test]
fn test_download_pdf_path() {
    let deliverable_id = "deliverable-456";
    let format = "pdf";
    let path = if format == "pdf" {
        format!("/v1/deliverable/file/pdf/{}", deliverable_id)
    } else {
        format!("/v1/deliverable/file/{}", deliverable_id)
    };
    assert_eq!(path, "/v1/deliverable/file/pdf/deliverable-456");
}

#[test]
fn test_template_download_path_variants() {
    assert_eq!(
        TurboTemplate::download_path("deliverable-123", "source").unwrap(),
        "/v1/deliverable/file/deliverable-123"
    );
    assert_eq!(
        TurboTemplate::download_path("deliverable-456", "pdf").unwrap(),
        "/v1/deliverable/file/pdf/deliverable-456"
    );
    assert_eq!(
        TurboTemplate::download_path("d", "anything-else").unwrap(),
        "/v1/deliverable/file/d"
    );
    assert!(matches!(
        TurboTemplate::download_path("", "pdf"),
        Err(TurboDocxError::Validation(_))
    ));
}

#[test]
fn test_generate_response_decodes_partial_record() {
    let body = JsonValue::Obj(vec![
        ("id".to_string(), JsonValue::Str("deliv-1".to_string())),
        ("name".to_string(), JsonValue::Str("Doc".to_string())),
    ]);
    let resp = turbodocx_sdk::template::parse_generate_response(&body).unwrap();
    assert_eq!(resp.id, Some("deliv-1".to_string()));
    assert_eq!(resp.name, Some("Doc".to_string()));
    assert_eq!(resp.download_url, None);

    let round = turbodocx_sdk::template::parse_generate_response(&resp.to_json()).unwrap();
    assert_eq!(round, resp);
}

#[test]
fn test_review_link_response_round_trip() {
    let resp = CreateSignatureReviewLinkResponse {
        success: true,
        document_id: "doc-1".to_string(),
        status: "ready".to_string(),
        preview_url: Some("https://example.com/preview".to_string()),
        recipients: Some(vec![RecipientStatus {
            id: "r1".to_string(),
            name: "John".to_string(),
            email: "john@example.com".to_string(),
            status: "pending".to_string(),
        }]),
        message: "ok".to_string(),
    };
    let decoded =
        turbodocx_sdk::sign::parse_review_link_response(&resp.to_json()).unwrap();
    assert_eq!(decoded, resp);
}

#[test]
fn test_audit_trail_response_round_trip() {
    let resp = AuditTrailResponse {
        document: AuditTrailDocument { id: "doc-1".to_string(), name: "Doc".to_string() },
        audit_trail: vec![AuditTrailEntry {
            id: "e1".to_string(),
            document_id: "doc-1".to_string(),
            action_type: "signed".to_string(),
            timestamp: "2024-01-01T00:00:00Z".to_string(),
            previous_hash: None,
            current_hash: Some("abc".to_string()),
            created_on: None,
            details: None,
            user: Some(AuditTrailUser {
                name: "John".to_string(),
                email: "john@example.com".to_string(),
            }),
            user_id: None,
            recipient: None,
            recipient_id: None,
        }],
    };
    let decoded = turbodocx_sdk::sign::parse_audit_trail_response(&resp.to_json()).unwrap();
    assert_eq!(decoded, resp);
}

#[test]
fn test_wrong_shape_surfaces_serialization_error() {
    let body = JsonValue::Str("not an object".to_string());
    assert!(matches!(
        turbodocx_sdk::sign::parse_document_status_response(&body),
        Err(TurboDocxError::Serialization(_))
    ));
}
