use turbodocx_sdk::Field;
use turbodocx_sdk::FieldOffset;
use turbodocx_sdk::FieldSize;
use turbodocx_sdk::Placement;
use turbodocx_sdk::Recipient;
use turbodocx_sdk::SignatureFieldType;
use turbodocx_sdk::TemplateAnchor;

#[test]
fn test_coordinate_based_field() {
    let field = Field::coordinate_based(
        SignatureFieldType::Signature,
        1,
        100,
        500,
        200,
        50,
        "john@example.com",
    );

    assert_eq!(field.field_type, SignatureFieldType::Signature);
    assert_eq!(field.page, Some(1));
    assert_eq!(field.x, Some(100));
    assert_eq!(field.recipient_email, "john@example.com");
}

#[test]
fn test_anchor_based_field() {
    let field = Field::anchor_based(
        SignatureFieldType::Signature,
        "{SignHere}",
        "john@example.com",
    );

    assert_eq!(field.field_type, SignatureFieldType::Signature);
    assert!(field.template.is_some());
    assert_eq!(
        field.template.as_ref().unwrap().anchor,
        Some("{SignHere}".to_string())
    );
}

#[test]
fn test_recipient() {
    let recipient = Recipient::new("John Doe", "john@example.com", 1);
    assert_eq!(recipient.name, "John Doe");
    assert_eq!(recipient.email, "john@example.com");
    assert_eq!(recipient.signing_order, 1);
}

#[test]
fn test_coordinate_based_signature_field() {
    let field = Field::coordinate_based(
        SignatureFieldType::Signature,
        1,
        100,
        500,
        200,
        50,
        "john@example.com",
    );

    assert_eq!(field.field_type, SignatureFieldType::Signature);
    assert_eq!(field.page, Some(1));
    assert_eq!(field.x, Some(100));
    assert_eq!(field.y, Some(500));
    assert_eq!(field.width, Some(200));
    assert_eq!(field.height, Some(50));
    assert_eq!(field.recipient_email, "john@example.com");
    assert!(field.template.is_none());
}

#[test]
fn test_anchor_based_signature_field() {
    let field = Field::anchor_based(
        SignatureFieldType::Signature,
        "{SignHere}",
        "john@example.com",
    );

    assert_eq!(field.field_type, SignatureFieldType::Signature);
    assert_eq!(field.recipient_email, "john@example.com");
    assert!(field.template.is_some());

    let template = field.template.unwrap();
    assert_eq!(template.anchor, Some("{SignHere}".to_string()));
    assert_eq!(template.placement, Some(Placement::Replace));
}

#[test]
fn test_field_types() {
    let types = vec![
        SignatureFieldType::Signature,
        SignatureFieldType::Initial,
        SignatureFieldType::Date,
        SignatureFieldType::Text,
        SignatureFieldType::FullName,
        SignatureFieldType::Title,
        SignatureFieldType::Company,
        SignatureFieldType::FirstName,
        SignatureFieldType::LastName,
        SignatureFieldType::Email,
        SignatureFieldType::Checkbox,
    ];

    for field_type in types {
        let field = Field::coordinate_based(
            field_type.clone(),
            1,
            100,
            500,
            200,
            50,
            "test@example.com",
        );
        assert_eq!(field.field_type, field_type);
    }
}

#[test]
fn test_checkbox_field_with_default_value() {
    let mut field = Field::coordinate_based(
        SignatureFieldType::Checkbox,
        1,
        100,
        600,
        20,
        20,
        "john@example.com",
    );

    field.default_value = Some("true".to_string());

    assert_eq!(field.field_type, SignatureFieldType::Checkbox);
    assert_eq!(field.default_value, Some("true".to_string()));
}

#[test]
fn test_field_with_optional_properties() {
    let mut field = Field::coordinate_based(
        SignatureFieldType::Text,
        1,
        100,
        500,
        300,
        100,
        "john@example.com",
    );

    field.is_multiline = Some(true);
    field.is_readonly = Some(false);
    field.required = Some(true);
    field.background_color = Some("#FFFF00".to_string());

    assert_eq!(field.is_multiline, Some(true));
    assert_eq!(field.is_readonly, Some(false));
    assert_eq!(field.required, Some(true));
    assert_eq!(field.background_color, Some("#FFFF00".to_string()));
}

#[test]
fn test_template_anchor_with_search_text() {
    let mut field = Field::anchor_based(
        SignatureFieldType::Signature,
        "{SignHere}",
        "john@example.com",
    );

    field.template = Some(TemplateAnchor {
        anchor: None,
        search_text: Some("Sign here:".to_string()),
        placement: Some(Placement::After),
        size: Some(FieldSize { width: 200, height: 50 }),
        offset: Some(FieldOffset { x: 10, y: 0 }),
        case_sensitive: Some(false),
        use_regex: Some(false),
    });

    let template = field.template.unwrap();
    assert_eq!(template.search_text, Some("Sign here:".to_string()));
    assert_eq!(template.placement, Some(Placement::After));
    assert!(template.size.is_some());
    assert!(template.offset.is_some());
}

#[test]
fn test_placement_variants() {
    let placements = vec![
        Placement::Replace,
        Placement::Before,
        Placement::After,
        Placement::Above,
        Placement::Below,
    ];

    for placement in placements {
        let template = TemplateAnchor {
            anchor: Some("{Tag}".to_string()),
            search_text: None,
            placement: Some(placement.clone()),
            size: None,
            offset: None,
            case_sensitive: None,
            use_regex: None,
        };

        assert_eq!(template.placement, Some(placement));
    }
}

#[test]
fn test_recipient_creation() {
    let recipient = Recipient::new("John Doe", "john@example.com", 1);

    assert_eq!(recipient.name, "John Doe");
    assert_eq!(recipient.email, "john@example.com");
    assert_eq!(recipient.signing_order, 1);
}

#[test]
fn test_multiple_recipients_with_signing_order() {
    let recipients = vec![
        Recipient::new("John Doe", "john@example.com", 1),
        Recipient::new("Jane Smith", "jane@example.com", 2),
        Recipient::new("Bob Johnson", "bob@example.com", 3),
    ];

    assert_eq!(recipients.len(), 3);
    assert_eq!(recipients[0].signing_order, 1);
    assert_eq!(recipients[1].signing_order, 2);
    assert_eq!(recipients[2].signing_order, 3);
}
