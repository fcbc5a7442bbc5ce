use turbodocx_sdk::render;
use turbodocx_sdk::CreateSignatureReviewLinkRequest;
use turbodocx_sdk::Field;
use turbodocx_sdk::JsonValue;
use turbodocx_sdk::Placement;
use turbodocx_sdk::Recipient;
use turbodocx_sdk::SignatureFieldType;
use turbodocx_sdk::TemplateVariable;

#[test]
fn test_recipient_serialization() {
    let recipient = Recipient::new("John Doe", "john@example.com", 1);
    let json = render(&recipient.to_json());

    assert!(json.contains("John Doe"));
    assert!(json.contains("john@example.com"));
    assert!(json.contains("\"signingOrder\":1"));
}

#[test]
fn test_field_serialization() {
    let field = Field::coordinate_based(
        SignatureFieldType::Signature,
        1,
        100,
        500,
        200,
        50,
        "john@example.com",
    );

    let json = render(&field.to_json());

    assert!(json.contains("\"type\":\"signature\""));
    assert!(json.contains("\"page\":1"));
    assert!(json.contains("\"recipientEmail\":\"john@example.com\""));
}

#[test]
fn test_signature_field_type_serialization() {
    let types = vec![
        (SignatureFieldType::Signature, "signature"),
        (SignatureFieldType::Initial, "initial"),
        (SignatureFieldType::Date, "date"),
        (SignatureFieldType::Text, "text"),
        (SignatureFieldType::FullName, "full_name"),
        (SignatureFieldType::Title, "title"),
        (SignatureFieldType::Company, "company"),
        (SignatureFieldType::FirstName, "first_name"),
        (SignatureFieldType::LastName, "last_name"),
        (SignatureFieldType::Email, "email"),
        (SignatureFieldType::Checkbox, "checkbox"),
    ];

    for (field_type, expected_json) in types {
        let json = render(&JsonValue::Str(field_type.wire_name().to_string()));
        assert_eq!(json, format!("\"{}\"", expected_json));
    }
}

#[test]
fn test_placement_serialization() {
    let placements = vec![
        (Placement::Replace, "replace"),
        (Placement::Before, "before"),
        (Placement::After, "after"),
        (Placement::Above, "above"),
        (Placement::Below, "below"),
    ];

    for (placement, expected_json) in placements {
        let json = render(&JsonValue::Str(placement.wire_name().to_string()));
        assert_eq!(json, format!("\"{}\"", expected_json));
    }
}

#[test]
fn test_request_serialization_omits_none_fields() {
    let request = CreateSignatureReviewLinkRequest {
        file_link: Some("https://example.com/test.pdf".to_string()),
        file: None,
        file_name: None,
        deliverable_id: None,
        template_id: None,
        recipients: vec![Recipient::new("Test User", "test@example.com", 1)],
        fields: vec![Field::coordinate_based(
            SignatureFieldType::Signature,
            1,
            100,
            500,
            200,
            50,
            "test@example.com",
        )],
        document_name: None,
        document_description: None,
        sender_name: None,
        sender_email: None,
        cc_emails: None,
    };

    let json = render(&request.to_json());

    assert!(!json.contains("\"file\":"));
    assert!(!json.contains("\"deliverableId\":"));
    assert!(!json.contains("\"documentName\":"));

    assert!(json.contains("\"fileLink\":"));
    assert!(json.contains("\"recipients\":"));
}

#[test]
fn test_rendered_recipient_parses_with_serde() {
    let recipient = Recipient::new("Ann \"A\" O'Hara", "ann@example.com", 3);
    let json = render(&recipient.to_json());
    let parsed: serde_json::Value = serde_json::from_str(&json).unwrap();
    assert_eq!(parsed["name"], serde_json::Value::String("Ann \"A\" O'Hara".to_string()));
    assert_eq!(parsed["signingOrder"], serde_json::Value::from(3));
}

#[test]
fn test_render_escapes_and_numbers() {
    let v = JsonValue::Obj(vec![
        ("a\nb".to_string(), JsonValue::Int(-42)),
        ("tab".to_string(), JsonValue::Str("x\ty\\z\"q".to_string())),
        ("ctl".to_string(), JsonValue::Str("\u{0001}".to_string())),
        ("arr".to_string(), JsonValue::Arr(vec![JsonValue::Null, JsonValue::Bool(true), JsonValue::Int(0)])),
    ]);
    assert_eq!(
        render(&v),
        "{\"a\\nb\":-42,\"tab\":\"x\\ty\\\\z\\\"q\",\"ctl\":\"\\u0001\",\"arr\":[null,true,0]}"
    );
}

#[test]
fn test_signature_request_round_trip() {
    let request = CreateSignatureReviewLinkRequest {
        file_link: Some("https://example.com/contract.pdf".to_string()),
        file: Some(vec![37, 80, 68, 70]),
        file_name: Some("contract.pdf".to_string()),
        deliverable_id: None,
        template_id: None,
        recipients: vec![Recipient::new("John Doe", "john@example.com", 1)],
        fields: vec![
            Field::coordinate_based(
                SignatureFieldType::Signature,
                1,
                100,
                500,
                200,
                50,
                "john@example.com",
            ),
            Field::anchor_based(SignatureFieldType::Date, "{Date}", "john@example.com"),
        ],
        document_name: Some("Contract".to_string()),
        document_description: None,
        sender_name: None,
        sender_email: Some("support@company.com".to_string()),
        cc_emails: Some(vec!["manager@company.com".to_string()]),
    };

    let encoded = request.to_json();
    let decoded = CreateSignatureReviewLinkRequest::from_json(&encoded).unwrap();
    assert_eq!(decoded, request);
}

#[test]
fn test_field_round_trip_keeps_absent_fields_absent() {
    let field = Field::anchor_based(SignatureFieldType::Signature, "{Sig}", "a@b.c");
    let encoded = field.to_json();
    let text = render(&encoded);
    assert!(!text.contains("\"page\":"));
    assert!(!text.contains("\"defaultValue\":"));
    let decoded = Field::from_json(&encoded).unwrap();
    assert_eq!(decoded, field);
    assert!(decoded.page.is_none());
    assert!(decoded.default_value.is_none());
}

#[test]
fn test_wire_names_decode_back() {
    assert_eq!(
        SignatureFieldType::of_wire("full_name"),
        Some(SignatureFieldType::FullName)
    );
    assert_eq!(Placement::of_wire("after"), Some(Placement::After));
    assert_eq!(SignatureFieldType::of_wire("bogus"), None);
    assert_eq!(Placement::of_wire("sideways"), None);
}

#[test]
fn test_template_variable_round_trip_with_subvariables() {
    let mut var = TemplateVariable::simple(
        "{group}",
        "group",
        JsonValue::Str("top".to_string()),
    );
    var.subvariables = Some(vec![
        TemplateVariable::simple("{inner}", "inner", JsonValue::Int(7)),
    ]);
    let encoded = var.to_json();
    let decoded = TemplateVariable::from_json(&encoded).unwrap();
    assert_eq!(decoded, var);
}
