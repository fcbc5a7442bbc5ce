use turbodocx_sdk::CreateSignatureReviewLinkRequest;
use turbodocx_sdk::Field;
use turbodocx_sdk::Recipient;
use turbodocx_sdk::SendSignatureRequest;
use turbodocx_sdk::SignatureFieldType;

#[test]
fn test_review_link_request_with_file_link() {
    let request = CreateSignatureReviewLinkRequest {
        file_link: Some("https://example.com/contract.pdf".to_string()),
        file: None,
        file_name: None,
        deliverable_id: None,
        template_id: None,
        recipients: vec![Recipient::new("John Doe", "john@example.com", 1)],
        fields: vec![Field::coordinate_based(
            SignatureFieldType::Signature,
            1,
            100,
            500,
            200,
            50,
            "john@example.com",
        )],
        document_name: Some("Service Agreement".to_string()),
        document_description: Some("Annual service contract".to_string()),
        sender_name: None,
        sender_email: None,
        cc_emails: None,
    };

    assert_eq!(
        request.file_link,
        Some("https://example.com/contract.pdf".to_string())
    );
    assert_eq!(request.recipients.len(), 1);
    assert_eq!(request.fields.len(), 1);
    assert_eq!(request.document_name, Some("Service Agreement".to_string()));
}

#[test]
fn test_review_link_request_with_deliverable_id() {
    let request = CreateSignatureReviewLinkRequest {
        file_link: None,
        file: None,
        file_name: None,
        deliverable_id: Some("deliverable-uuid".to_string()),
        template_id: None,
        recipients: vec![Recipient::new("John Doe", "john@example.com", 1)],
        fields: vec![Field::anchor_based(
            SignatureFieldType::Signature,
            "{SignHere}",
            "john@example.com",
        )],
        document_name: Some("Generated Document".to_string()),
        document_description: None,
        sender_name: None,
        sender_email: None,
        cc_emails: None,
    };

    assert_eq!(request.deliverable_id, Some("deliverable-uuid".to_string()));
    assert!(request.file_link.is_none());
    assert!(request.file.is_none());
}

#[test]
fn test_review_link_request_with_template_id() {
    let request = CreateSignatureReviewLinkRequest {
        file_link: None,
        file: None,
        file_name: None,
        deliverable_id: None,
        template_id: Some("template-uuid".to_string()),
        recipients: vec![Recipient::new("John Doe", "john@example.com", 1)],
        fields: vec![Field::coordinate_based(
            SignatureFieldType::Signature,
            1,
            100,
            500,
            200,
            50,
            "john@example.com",
        )],
        document_name: None,
        document_description: None,
        sender_name: None,
        sender_email: None,
        cc_emails: None,
    };

    assert_eq!(request.template_id, Some("template-uuid".to_string()));
}

#[test]
fn test_review_link_request_with_sender_info() {
    let request = CreateSignatureReviewLinkRequest {
        file_link: Some("https://example.com/contract.pdf".to_string()),
        file: None,
        file_name: None,
        deliverable_id: None,
        template_id: None,
        recipients: vec![Recipient::new("John Doe", "john@example.com", 1)],
        fields: vec![Field::coordinate_based(
            SignatureFieldType::Signature,
            1,
            100,
            500,
            200,
            50,
            "john@example.com",
        )],
        document_name: Some("Contract".to_string()),
        document_description: None,
        sender_name: Some("Support Team".to_string()),
        sender_email: Some("support@company.com".to_string()),
        cc_emails: Some(vec!["manager@company.com".to_string()]),
    };

    assert_eq!(request.sender_name, Some("Support Team".to_string()));
    assert_eq!(
        request.sender_email,
        Some("support@company.com".to_string())
    );
    assert_eq!(
        request.cc_emails,
        Some(vec!["manager@company.com".to_string()])
    );
}

#[test]
fn test_review_link_request_with_multiple_recipients_and_fields() {
    let request = CreateSignatureReviewLinkRequest {
        file_link: Some("https://example.com/contract.pdf".to_string()),
        file: None,
        file_name: None,
        deliverable_id: None,
        template_id: None,
        recipients: vec![
            Recipient::new("John Doe", "john@example.com", 1),
            Recipient::new("Jane Smith", "jane@example.com", 2),
        ],
        fields: vec![
            Field::coordinate_based(
                SignatureFieldType::Signature,
                1,
                100,
                500,
                200,
                50,
                "john@example.com",
            ),
            Field::coordinate_based(
                SignatureFieldType::Date,
                1,
                320,
                500,
                100,
                30,
                "john@example.com",
            ),
            Field::coordinate_based(
                SignatureFieldType::Signature,
                2,
                100,
                500,
                200,
                50,
                "jane@example.com",
            ),
        ],
        document_name: Some("Multi-Party Agreement".to_string()),
        document_description: None,
        sender_name: None,
        sender_email: None,
        cc_emails: None,
    };

    assert_eq!(request.recipients.len(), 2);
    assert_eq!(request.fields.len(), 3);
}

#[test]
fn test_send_signature_request_with_file_link() {
    let request = SendSignatureRequest {
        file_link: Some("https://example.com/contract.pdf".to_string()),
        file: None,
        file_name: None,
        deliverable_id: None,
        template_id: None,
        recipients: vec![Recipient::new("Alice Johnson", "alice@example.com", 1)],
        fields: vec![Field::anchor_based(
            SignatureFieldType::Signature,
            "{ClientSignature}",
            "alice@example.com",
        )],
        document_name: Some("Engagement Letter".to_string()),
        document_description: None,
        sender_name: Some("Support Team".to_string()),
        sender_email: Some("support@company.com".to_string()),
        cc_emails: Some(vec!["manager@company.com".to_string()]),
    };

    assert_eq!(
        request.file_link,
        Some("https://example.com/contract.pdf".to_string())
    );
    assert_eq!(request.recipients.len(), 1);
    assert_eq!(request.fields.len(), 1);
}

#[test]
fn test_send_signature_request_with_deliverable_id() {
    let request = SendSignatureRequest {
        file_link: None,
        file: None,
        file_name: None,
        deliverable_id: Some("deliverable-uuid".to_string()),
        template_id: None,
        recipients: vec![Recipient::new("Bob Smith", "bob@example.com", 1)],
        fields: vec![
            Field::anchor_based(
                SignatureFieldType::Signature,
                "{SignHere}",
                "bob@example.com",
            ),
            Field::anchor_based(SignatureFieldType::Date, "{Date}", "bob@example.com"),
        ],
        document_name: Some("Contract".to_string()),
        document_description: Some("Employment contract".to_string()),
        sender_name: None,
        sender_email: None,
        cc_emails: None,
    };

    assert_eq!(request.deliverable_id, Some("deliverable-uuid".to_string()));
    assert_eq!(request.fields.len(), 2);
}
