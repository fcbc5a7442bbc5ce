//! Typed client library for a remote document-generation and e-signature
//! service. The heart of the crate is the wire contract: a JSON value model,
//! a verified renderer for it, and encoders/decoders between the typed
//! request/response structures and their wire shapes.

pub mod errors;
pub mod http;
pub mod json;
pub mod render;
pub mod sign;
pub mod sign_types;
pub mod template;
pub mod template_types;

pub use json::Json;
pub use json::JsonValue;
pub use render::render;
pub use errors::TurboDocxError;
pub use http::HttpClientConfig;
pub use sign_types::AuditTrailDocument;
pub use sign_types::AuditTrailEntry;
pub use sign_types::AuditTrailResponse;
pub use sign_types::AuditTrailUser;
pub use sign_types::CreateSignatureReviewLinkRequest;
pub use sign_types::CreateSignatureReviewLinkResponse;
pub use sign_types::DocumentStatusResponse;
pub use sign_types::Field;
pub use sign_types::FieldOffset;
pub use sign_types::FieldSize;
pub use sign_types::Placement;
pub use sign_types::RecipientStatus;
pub use sign_types::ResendEmailResponse;
pub use sign_types::SendSignatureRequest;
pub use sign_types::SendSignatureResponse;
pub use sign_types::TemplateAnchor;
pub use sign_types::VoidDocumentResponse;
pub use sign::SignatureCall;
pub use sign::TurboSign;
pub use template::TurboTemplate;
pub use template_types::GenerateTemplateRequest;
pub use template_types::GenerateTemplateResponse;
pub use template_types::OutputFormat;
pub use template_types::TemplateVariable;
pub use template_types::VariableMimeType;
pub use sign_types::Recipient;
pub use sign_types::SignatureFieldType;
