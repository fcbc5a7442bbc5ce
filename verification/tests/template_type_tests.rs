use turbodocx_sdk::render;
use turbodocx_sdk::GenerateTemplateRequest;
use turbodocx_sdk::JsonValue;
use turbodocx_sdk::OutputFormat;
use turbodocx_sdk::TemplateVariable;
use turbodocx_sdk::VariableMimeType;

fn str_value(s: &str) -> JsonValue {
    JsonValue::Str(s.to_string())
}

#[test]
fn template_test_simple_variable() {
    let var = TemplateVariable::simple("{name}", "name", str_value("John Doe"));
    assert_eq!(var.placeholder, "{name}");
    assert_eq!(var.name, "name");
    assert_eq!(var.mime_type, VariableMimeType::Text);
    assert_eq!(var.value, Some(str_value("John Doe")));
}

#[test]
fn template_test_loop_variable() {
    let items = JsonValue::Arr(vec![
        JsonValue::Obj(vec![
            ("name".to_string(), str_value("Item 1")),
            ("price".to_string(), JsonValue::Int(100)),
        ]),
        JsonValue::Obj(vec![
            ("name".to_string(), str_value("Item 2")),
            ("price".to_string(), JsonValue::Int(200)),
        ]),
    ]);
    let var = TemplateVariable::loop_var("{items}", "items", items);
    assert_eq!(var.placeholder, "{items}");
    assert_eq!(var.mime_type, VariableMimeType::Json);
}

#[test]
fn template_test_conditional_variable() {
    let var = TemplateVariable::conditional("{is_active}", "is_active", JsonValue::Bool(true));
    assert_eq!(var.placeholder, "{is_active}");
    assert_eq!(var.mime_type, VariableMimeType::Json);
    assert_eq!(var.value, Some(JsonValue::Bool(true)));
}

#[test]
fn template_test_image_variable() {
    let var = TemplateVariable::image("{logo}", "logo", "https://example.com/logo.png");
    assert_eq!(var.mime_type, VariableMimeType::Image);
    assert_eq!(var.value, Some(str_value("https://example.com/logo.png")));
}

#[test]
fn template_test_request_builder() {
    let request = GenerateTemplateRequest::new(
        "template-123",
        vec![TemplateVariable::simple("{name}", "name", str_value("Test"))],
        "Test Document",
    )
    .with_description("A test document");

    assert_eq!(request.template_id, "template-123");
    assert_eq!(request.name, "Test Document".to_string());
    assert_eq!(request.description, Some("A test document".to_string()));
}

#[test]
fn turbotemplate_test_test_simple_variable() {
    let var = TemplateVariable::simple("{name}", "name", str_value("John Doe"));
    assert_eq!(var.placeholder, "{name}");
    assert_eq!(var.name, "name");
    assert_eq!(var.mime_type, VariableMimeType::Text);
    assert_eq!(var.value, Some(str_value("John Doe")));
}

#[test]
fn test_html_variable() {
    let var = TemplateVariable::html("{content}", "content", "<h1>Hello</h1>");
    assert_eq!(var.mime_type, VariableMimeType::Html);
    assert_eq!(var.allow_rich_text_injection, Some(true));
}

#[test]
fn test_advanced_engine_variable() {
    let data = JsonValue::Obj(vec![
        ("firstName".to_string(), str_value("John")),
        ("lastName".to_string(), str_value("Doe")),
    ]);
    let var = TemplateVariable::advanced_engine("{user}", "user", data.clone());
    assert_eq!(var.mime_type, VariableMimeType::Json);
    assert_eq!(var.uses_advanced_templating_engine, Some(true));
    assert_eq!(var.value, Some(data));
}

#[test]
fn turbotemplate_test_test_loop_variable() {
    let items = JsonValue::Arr(vec![
        JsonValue::Obj(vec![("name".to_string(), str_value("Item 1"))]),
        JsonValue::Obj(vec![("name".to_string(), str_value("Item 2"))]),
    ]);
    let var = TemplateVariable::loop_var("{items}", "items", items.clone());
    assert_eq!(var.mime_type, VariableMimeType::Json);
    assert_eq!(var.value, Some(items));
}

#[test]
fn turbotemplate_test_test_conditional_variable() {
    let var = TemplateVariable::conditional("{is_active}", "is_active", JsonValue::Bool(true));
    assert_eq!(var.mime_type, VariableMimeType::Json);
    assert_eq!(var.value, Some(JsonValue::Bool(true)));
    assert_eq!(var.uses_advanced_templating_engine, Some(true));
}

#[test]
fn turbotemplate_test_test_image_variable() {
    let var = TemplateVariable::image("{logo}", "logo", "https://example.com/logo.png");
    assert_eq!(var.mime_type, VariableMimeType::Image);
    assert_eq!(var.value, Some(str_value("https://example.com/logo.png")));
}

#[test]
fn turbotemplate_test_test_request_serialization() {
    let request = GenerateTemplateRequest::new(
        "template-123",
        vec![
            TemplateVariable::simple("{customer_name}", "customer_name", str_value("John Doe")),
            TemplateVariable::simple("{order_total}", "order_total", JsonValue::Int(1500)),
        ],
        "Invoice",
    );

    let json = render(&request.to_json());
    assert!(json.contains("template-123"));
    assert!(json.contains("Invoice"));
    assert!(json.contains("customer_name"));
    assert!(json.contains("John Doe"));
}

#[test]
fn test_nested_object_variable() {
    let user = JsonValue::Obj(vec![
        ("firstName".to_string(), str_value("John")),
        ("lastName".to_string(), str_value("Doe")),
        (
            "address".to_string(),
            JsonValue::Obj(vec![
                ("street".to_string(), str_value("123 Main St")),
                ("city".to_string(), str_value("San Francisco")),
            ]),
        ),
    ]);

    let var = TemplateVariable::advanced_engine("{user}", "user", user.clone());
    assert_eq!(var.value, Some(user));
}

#[test]
fn test_variable_with_numbers() {
    let var1 = TemplateVariable::simple("{quantity}", "quantity", JsonValue::Int(42));
    assert_eq!(var1.value, Some(JsonValue::Int(42)));

    let var2 = TemplateVariable::simple("{price}", "price", JsonValue::Int(99));
    assert_eq!(var2.value, Some(JsonValue::Int(99)));
}

#[test]
fn test_variable_with_boolean() {
    let var = TemplateVariable::simple("{is_active}", "is_active", JsonValue::Bool(true));
    assert_eq!(var.value, Some(JsonValue::Bool(true)));
}

#[test]
fn test_output_format_serialization() {
    let format = OutputFormat::Docx;
    let json = render(&JsonValue::Str(format.wire_name().to_string()));
    assert_eq!(json, r#""docx""#);

    let format = OutputFormat::Pdf;
    let json = render(&JsonValue::Str(format.wire_name().to_string()));
    assert_eq!(json, r#""pdf""#);
}

#[test]
fn test_mime_type_serialization() {
    let mime = VariableMimeType::Text;
    let json = render(&JsonValue::Str(mime.wire_name().to_string()));
    assert_eq!(json, r#""text""#);

    let mime = VariableMimeType::Json;
    let json = render(&JsonValue::Str(mime.wire_name().to_string()));
    assert_eq!(json, r#""json""#);
}

#[test]
fn template_test_request_serialization() {
    let request = GenerateTemplateRequest::new(
        "template-123",
        vec![TemplateVariable::simple("{name}", "name", str_value("Test"))],
        "Test Document",
    );

    let json = render(&request.to_json());
    assert!(json.contains("template-123"));
    assert!(json.contains("Test Document"));
}

#[test]
fn test_generate_request_round_trip() {
    let request = GenerateTemplateRequest::new(
        "template-123",
        vec![
            TemplateVariable::simple("{name}", "name", str_value("Test")),
            TemplateVariable::html("{body}", "body", "<p>hi</p>"),
        ],
        "Test Document",
    )
    .with_description("A test document")
    .with_font_replacement(true, Some("Arial"));

    let encoded = request.to_json();
    let decoded = GenerateTemplateRequest::from_json(&encoded).unwrap();
    assert_eq!(decoded, request);
}
