//! Request and response model for the document-generation service.
//!
//! `TemplateVariable` is one substitution unit: a flat structure that serves
//! several semantic intents (plain text, HTML, nested objects, loops,
//! conditionals, images), distinguished by its MIME type and flags. As for
//! the signature model, every type carries its wire encoding and decoding,
//! pinned to spec functions on the `Json` model.

use vstd::prelude::*;

use crate::json::Json;
use crate::json::JsonValue;
use crate::json::member;
use crate::json::obj_lookup;
use crate::json::opt_member_bool;
use crate::json::opt_member_json;
use crate::json::opt_member_str;
use crate::json::spec_opt_bool;
use crate::json::spec_opt_str;
use crate::json::spec_req_str;
use crate::json::str_eq;
use crate::json::view_of_items;
use crate::json::view_of_members;
use crate::json::lemma_view_of_items;
use crate::json::lemma_lookup_concat;
use crate::json::lemma_lookup_member;
use crate::json::lemma_lookup_opt_str;
use crate::json::lemma_lookup_opt_bool;
use crate::json::lemma_lookup_opt_json;
use crate::json::lemma_lookup_smaller;
use crate::json::push_member;
use crate::json::push_opt_str;
use crate::json::push_opt_bool;
use crate::json::get_req_str;
use crate::json::get_opt_str;
use crate::json::get_opt_bool;
use crate::json::get_opt_json;
use crate::json::obj_get;

verus! {

/// How the renderer should interpret a variable's value.
#[derive(Debug, Clone, Copy, PartialEq, Eq, Structural)]
pub enum VariableMimeType {
    Text,
    Html,
    Json,
    Image,
    Markdown,
}

impl VariableMimeType {
    /// The lowercase string this MIME type is written as on the wire.
    pub open spec fn wire_chars(&self) -> Seq<char> {
        match self {
            VariableMimeType::Text => "text"@,
            VariableMimeType::Html => "html"@,
            VariableMimeType::Json => "json"@,
            VariableMimeType::Image => "image"@,
            VariableMimeType::Markdown => "markdown"@,
        }
    }

    /// The exact wire name of this MIME type.
    pub fn wire_name(&self) -> (r: &'static str)
        ensures
            r@ == self.wire_chars(),
    {
        match self {
            VariableMimeType::Text => "text",
            VariableMimeType::Html => "html",
            VariableMimeType::Json => "json",
            VariableMimeType::Image => "image",
            VariableMimeType::Markdown => "markdown",
        }
    }

    /// The MIME type a wire name stands for, if any.
    pub open spec fn spec_of_wire(s: Seq<char>) -> Option<VariableMimeType> {
        if s == "text"@ {
            Some(VariableMimeType::Text)
        } else if s == "html"@ {
            Some(VariableMimeType::Html)
        } else if s == "json"@ {
            Some(VariableMimeType::Json)
        } else if s == "image"@ {
            Some(VariableMimeType::Image)
        } else if s == "markdown"@ {
            Some(VariableMimeType::Markdown)
        } else {
            None
        }
    }

    /// Parse a wire name back into the MIME type it stands for.
    pub fn of_wire(s: &str) -> (r: Option<VariableMimeType>)
        ensures
            r == Self::spec_of_wire(s@),
    {
        if str_eq(s, "text") {
            Some(VariableMimeType::Text)
        } else if str_eq(s, "html") {
            Some(VariableMimeType::Html)
        } else if str_eq(s, "json") {
            Some(VariableMimeType::Json)
        } else if str_eq(s, "image") {
            Some(VariableMimeType::Image)
        } else if str_eq(s, "markdown") {
            Some(VariableMimeType::Markdown)
        } else {
            None
        }
    }
}

/// Writing a MIME type to the wire and reading it back yields the MIME type.
pub proof fn lemma_mime_type_wire_roundtrip(m: VariableMimeType)
    ensures
        VariableMimeType::spec_of_wire(m.wire_chars()) == Some(m),
{
    reveal_strlit("text");
    reveal_strlit("html");
    reveal_strlit("json");
    reveal_strlit("image");
    reveal_strlit("markdown");
    assert("text"@.len() == 4);
    assert("html"@.len() == 4);
    assert("json"@.len() == 4);
    assert("image"@.len() == 5);
    assert("markdown"@.len() == 8);
    assert("text"@[0] == 't');
    assert("html"@[0] == 'h');
    assert("json"@[0] == 'j');
}

/// Output format of a generated document.
#[derive(Debug, Clone, Copy, PartialEq, Eq, Structural)]
pub enum OutputFormat {
    Docx,
    Pdf,
}

impl OutputFormat {
    /// The lowercase string this format is written as on the wire.
    pub open spec fn wire_chars(&self) -> Seq<char> {
        match self {
            OutputFormat::Docx => "docx"@,
            OutputFormat::Pdf => "pdf"@,
        }
    }

    /// The exact wire name of this format.
    pub fn wire_name(&self) -> (r: &'static str)
        ensures
            r@ == self.wire_chars(),
    {
        match self {
            OutputFormat::Docx => "docx",
            OutputFormat::Pdf => "pdf",
        }
    }

    /// The format a wire name stands for, if any.
    pub open spec fn spec_of_wire(s: Seq<char>) -> Option<OutputFormat> {
        if s == "docx"@ {
            Some(OutputFormat::Docx)
        } else if s == "pdf"@ {
            Some(OutputFormat::Pdf)
        } else {
            None
        }
    }

    /// Parse a wire name back into the format it stands for.
    pub fn of_wire(s: &str) -> (r: Option<OutputFormat>)
        ensures
            r == Self::spec_of_wire(s@),
    {
        if str_eq(s, "docx") {
            Some(OutputFormat::Docx)
        } else if str_eq(s, "pdf") {
            Some(OutputFormat::Pdf)
        } else {
            None
        }
    }
}

/// Writing a format to the wire and reading it back yields the format.
pub proof fn lemma_output_format_wire_roundtrip(f: OutputFormat)
    ensures
        OutputFormat::spec_of_wire(f.wire_chars()) == Some(f),
{
    reveal_strlit("docx");
    reveal_strlit("pdf");
    assert("docx"@.len() == 4);
    assert("pdf"@.len() == 3);
}

/// Mathematical model of a `TemplateVariable`.
pub struct TemplateVariableV {
    pub placeholder: Seq<char>,
    pub name: Seq<char>,
    pub mime_type: VariableMimeType,
    pub value: Option<Json>,
    pub text: Option<Json>,
    pub uses_advanced_templating_engine: Option<bool>,
    pub nested_in_advanced_templating_engine: Option<bool>,
    pub allow_rich_text_injection: Option<bool>,
    pub description: Option<Seq<char>>,
    pub default_value: Option<bool>,
    pub subvariables: Option<Seq<TemplateVariableV>>,
}

/// One substitution unit of a template. The same flat shape serves plain
/// substitution, HTML, nested objects, loops, conditionals and images,
/// told apart by `mime_type` and the flags.
#[derive(Debug, PartialEq)]
pub struct TemplateVariable {
    /// Literal marker appearing in the source document, e.g. `{name}`.
    pub placeholder: String,
    /// Logical name of the variable.
    pub name: String,
    /// How the renderer interprets `value`.
    pub mime_type: VariableMimeType,
    /// The value substituted for the placeholder.
    pub value: Option<JsonValue>,
    /// Older alias for `value`; at most one of the two is meaningfully set.
    pub text: Option<JsonValue>,
    /// Whether the advanced templating engine handles this variable.
    pub uses_advanced_templating_engine: Option<bool>,
    /// Whether this variable is nested inside an advanced-engine variable.
    pub nested_in_advanced_templating_engine: Option<bool>,
    /// Whether raw HTML may be injected.
    pub allow_rich_text_injection: Option<bool>,
    /// Description of the variable.
    pub description: Option<String>,
    /// Whether the value is a default.
    pub default_value: Option<bool>,
    /// Nested variables, for grouped structures.
    pub subvariables: Option<Vec<TemplateVariable>>,
}

pub open spec fn deep_views_of_vars(vars: Seq<TemplateVariable>) -> Seq<TemplateVariableV>
    decreases vars,
{
    if vars.len() == 0 {
        Seq::empty()
    } else {
        seq![vars[0].deep_view()] + deep_views_of_vars(vars.skip(1))
    }
}

impl DeepView for TemplateVariable {
    type V = TemplateVariableV;

    open spec fn deep_view(&self) -> TemplateVariableV
        decreases self,
    {
        TemplateVariableV {
            placeholder: self.placeholder@,
            name: self.name@,
            mime_type: self.mime_type,
            value: match &self.value {
                Some(v) => Some(v@),
                None => None,
            },
            text: match &self.text {
                Some(v) => Some(v@),
                None => None,
            },
            uses_advanced_templating_engine: self.uses_advanced_templating_engine,
            nested_in_advanced_templating_engine: self.nested_in_advanced_templating_engine,
            allow_rich_text_injection: self.allow_rich_text_injection,
            description: self.description.deep_view(),
            default_value: self.default_value,
            subvariables: match &self.subvariables {
                Some(vs) => Some(deep_views_of_vars(vs@)),
                None => None,
            },
        }
    }
}

pub proof fn lemma_deep_views_of_vars(vars: Seq<TemplateVariable>)
    ensures
        deep_views_of_vars(vars).len() == vars.len(),
        forall|i: int| 0 <= i < vars.len() ==> deep_views_of_vars(vars)[i]
            == vars[i].deep_view(),
    decreases vars.len(),
{
    if vars.len() > 0 {
        lemma_deep_views_of_vars(vars.skip(1));
        let tail = deep_views_of_vars(vars.skip(1));
        assert(deep_views_of_vars(vars) == seq![vars[0].deep_view()] + tail);
        assert forall|i: int| 0 <= i < vars.len() implies deep_views_of_vars(vars)[i]
            == vars[i].deep_view() by {
            if i > 0 {
                assert((seq![vars[0].deep_view()] + tail)[i] == tail[i - 1]);
                assert(vars.skip(1)[i - 1] == vars[i]);
            }
        }
    }
}

pub open spec fn vars_json_arr(vs: Seq<TemplateVariableV>) -> Seq<Json>
    decreases vs, 0int,
{
    if vs.len() == 0 {
        Seq::empty()
    } else {
        seq![template_variable_json(vs[0])] + vars_json_arr(vs.skip(1))
    }
}

pub open spec fn opt_vars_json(vs: Option<Seq<TemplateVariableV>>) -> Option<Json>
    decreases vs, 1int,
{
    match vs {
        Some(vs) => Some(Json::Arr(vars_json_arr(vs))),
        None => None,
    }
}

/// The wire object of a template variable; unset optional fields are
/// omitted.
pub open spec fn template_variable_json(v: TemplateVariableV) -> Json
    decreases v, 2int,
{
    Json::Obj(
        member("placeholder"@, Json::Str(v.placeholder)) + member("name"@, Json::Str(v.name))
            + member("mimeType"@, Json::Str(v.mime_type.wire_chars())) + opt_member_json(
            "value"@,
            v.value,
        ) + opt_member_json("text"@, v.text) + opt_member_bool(
            "usesAdvancedTemplatingEngine"@,
            v.uses_advanced_templating_engine,
        ) + opt_member_bool(
            "nestedInAdvancedTemplatingEngine"@,
            v.nested_in_advanced_templating_engine,
        ) + opt_member_bool("allowRichTextInjection"@, v.allow_rich_text_injection)
            + opt_member_str("description"@, v.description) + opt_member_bool(
            "defaultValue"@,
            v.default_value,
        ) + opt_member_json("subvariables"@, opt_vars_json(v.subvariables)),
    )
}

/// The variables of a JSON array, provided every element decodes.
pub open spec fn vars_of_arr(items: Seq<Json>) -> Option<Seq<TemplateVariableV>>
    decreases items, 0int,
{
    if items.len() == 0 {
        Some(Seq::empty())
    } else {
        match template_variable_of_json(items[0]) {
            Some(v) => match vars_of_arr(items.skip(1)) {
                Some(rest) => Some(seq![v] + rest),
                None => None,
            },
            None => None,
        }
    }
}

/// The template variable a wire object stands for, if it is well shaped.
pub open spec fn template_variable_of_json(j: Json) -> Option<TemplateVariableV>
    decreases j, 1int,
    via template_variable_of_json_dec
{
    match j {
        Json::Obj(ms) => {
            let subvariables = match obj_lookup(ms, "subvariables"@) {
                None => Some(None),
                Some(Json::Arr(items)) => match vars_of_arr(items) {
                    Some(vs) => Some(Some(vs)),
                    None => None,
                },
                Some(_) => None,
            };
            match (spec_req_str(ms, "placeholder"@), spec_req_str(ms, "name"@), spec_req_str(
                ms,
                "mimeType"@,
            ), spec_opt_bool(ms, "usesAdvancedTemplatingEngine"@), spec_opt_bool(
                ms,
                "nestedInAdvancedTemplatingEngine"@,
            ), spec_opt_bool(ms, "allowRichTextInjection"@), spec_opt_str(ms, "description"@),
            spec_opt_bool(ms, "defaultValue"@), subvariables) {
                (
                    Some(placeholder),
                    Some(name),
                    Some(mime_chars),
                    Some(uses_advanced_templating_engine),
                    Some(nested_in_advanced_templating_engine),
                    Some(allow_rich_text_injection),
                    Some(description),
                    Some(default_value),
                    Some(subvariables),
                ) => match VariableMimeType::spec_of_wire(mime_chars) {
                    Some(mime_type) => Some(
                        TemplateVariableV {
                            placeholder,
                            name,
                            mime_type,
                            value: obj_lookup(ms, "value"@),
                            text: obj_lookup(ms, "text"@),
                            uses_advanced_templating_engine,
                            nested_in_advanced_templating_engine,
                            allow_rich_text_injection,
                            description,
                            default_value,
                            subvariables,
                        },
                    ),
                    None => None,
                },
                _ => None,
            }
        },
        _ => None,
    }
}

#[via_fn]
proof fn template_variable_of_json_dec(j: Json) {
    match j {
        Json::Obj(ms) => {
            assert(decreases_to!(j => j->Obj_0));
            lemma_lookup_smaller(ms, "subvariables"@);
            match obj_lookup(ms, "subvariables"@) {
                Some(x) => {
                    match x {
                        Json::Arr(items) => {
                            assert(decreases_to!(x => x->Arr_0));
                        },
                        _ => (),
                    }
                },
                None => (),
            }
        },
        _ => (),
    }
}

impl TemplateVariable {
    /// A plain text substitution: MIME type `Text`, the given value, no
    /// flags.
    pub fn simple(placeholder: &str, name: &str, value: JsonValue) -> (r: TemplateVariable)
        ensures
            r.deep_view() == (TemplateVariableV {
                placeholder: placeholder@,
                name: name@,
                mime_type: VariableMimeType::Text,
                value: Some(value@),
                text: None,
                uses_advanced_templating_engine: None,
                nested_in_advanced_templating_engine: None,
                allow_rich_text_injection: None,
                description: None,
                default_value: None,
                subvariables: None,
            }),
    {
        TemplateVariable {
            placeholder: placeholder.to_owned(),
            name: name.to_owned(),
            mime_type: VariableMimeType::Text,
            value: Some(value),
            text: None,
            uses_advanced_templating_engine: None,
            nested_in_advanced_templating_engine: None,
            allow_rich_text_injection: None,
            description: None,
            default_value: None,
            subvariables: None,
        }
    }

    /// An HTML fragment: MIME type `Html`, rich text injection allowed.
    pub fn html(placeholder: &str, name: &str, html: &str) -> (r: TemplateVariable)
        ensures
            r.deep_view() == (TemplateVariableV {
                placeholder: placeholder@,
                name: name@,
                mime_type: VariableMimeType::Html,
                value: Some(Json::Str(html@)),
                text: None,
                uses_advanced_templating_engine: None,
                nested_in_advanced_templating_engine: None,
                allow_rich_text_injection: Some(true),
                description: None,
                default_value: None,
                subvariables: None,
            }),
    {
        TemplateVariable {
            placeholder: placeholder.to_owned(),
            name: name.to_owned(),
            mime_type: VariableMimeType::Html,
            value: Some(JsonValue::Str(html.to_owned())),
            text: None,
            uses_advanced_templating_engine: None,
            nested_in_advanced_templating_engine: None,
            allow_rich_text_injection: Some(true),
            description: None,
            default_value: None,
            subvariables: None,
        }
    }

    /// A nested-object binding handled by the advanced templating engine
    /// (dot notation): MIME type `Json`, advanced engine flag set.
    pub fn advanced_engine(placeholder: &str, name: &str, value: JsonValue) -> (r:
        TemplateVariable)
        ensures
            r.deep_view() == (TemplateVariableV {
                placeholder: placeholder@,
                name: name@,
                mime_type: VariableMimeType::Json,
                value: Some(value@),
                text: None,
                uses_advanced_templating_engine: Some(true),
                nested_in_advanced_templating_engine: None,
                allow_rich_text_injection: None,
                description: None,
                default_value: None,
                subvariables: None,
            }),
    {
        TemplateVariable {
            placeholder: placeholder.to_owned(),
            name: name.to_owned(),
            mime_type: VariableMimeType::Json,
            value: Some(value),
            text: None,
            uses_advanced_templating_engine: Some(true),
            nested_in_advanced_templating_engine: None,
            allow_rich_text_injection: None,
            description: None,
            default_value: None,
            subvariables: None,
        }
    }

    /// An array iterated by the template's loop construct: MIME type `Json`.
    pub fn loop_var(placeholder: &str, name: &str, items: JsonValue) -> (r: TemplateVariable)
        ensures
            r.deep_view() == (TemplateVariableV {
                placeholder: placeholder@,
                name: name@,
                mime_type: VariableMimeType::Json,
                value: Some(items@),
                text: None,
                uses_advanced_templating_engine: None,
                nested_in_advanced_templating_engine: None,
                allow_rich_text_injection: None,
                description: None,
                default_value: None,
                subvariables: None,
            }),
    {
        TemplateVariable {
            placeholder: placeholder.to_owned(),
            name: name.to_owned(),
            mime_type: VariableMimeType::Json,
            value: Some(items),
            text: None,
            uses_advanced_templating_engine: None,
            nested_in_advanced_templating_engine: None,
            allow_rich_text_injection: None,
            description: None,
            default_value: None,
            subvariables: None,
        }
    }

    /// A boolean condition for the template's conditional construct: MIME
    /// type `Json`, advanced engine flag set.
    pub fn conditional(placeholder: &str, name: &str, condition: JsonValue) -> (r:
        TemplateVariable)
        ensures
            r.deep_view() == (TemplateVariableV {
                placeholder: placeholder@,
                name: name@,
                mime_type: VariableMimeType::Json,
                value: Some(condition@),
                text: None,
                uses_advanced_templating_engine: Some(true),
                nested_in_advanced_templating_engine: None,
                allow_rich_text_injection: None,
                description: None,
                default_value: None,
                subvariables: None,
            }),
    {
        TemplateVariable {
            placeholder: placeholder.to_owned(),
            name: name.to_owned(),
            mime_type: VariableMimeType::Json,
            value: Some(condition),
            text: None,
            uses_advanced_templating_engine: Some(true),
            nested_in_advanced_templating_engine: None,
            allow_rich_text_injection: None,
            description: None,
            default_value: None,
            subvariables: None,
        }
    }

    /// An image, given by its URL: MIME type `Image`.
    pub fn image(placeholder: &str, name: &str, image_url: &str) -> (r: TemplateVariable)
        ensures
            r.deep_view() == (TemplateVariableV {
                placeholder: placeholder@,
                name: name@,
                mime_type: VariableMimeType::Image,
                value: Some(Json::Str(image_url@)),
                text: None,
                uses_advanced_templating_engine: None,
                nested_in_advanced_templating_engine: None,
                allow_rich_text_injection: None,
                description: None,
                default_value: None,
                subvariables: None,
            }),
    {
        TemplateVariable {
            placeholder: placeholder.to_owned(),
            name: name.to_owned(),
            mime_type: VariableMimeType::Image,
            value: Some(JsonValue::Str(image_url.to_owned())),
            text: None,
            uses_advanced_templating_engine: None,
            nested_in_advanced_templating_engine: None,
            allow_rich_text_injection: None,
            description: None,
            default_value: None,
            subvariables: None,
        }
    }

    /// Encode to the wire object; unset optional fields are omitted.
    pub fn to_json(&self) -> (j: JsonValue)
        ensures
            j@ == template_variable_json(self.deep_view()),
        decreases self.deep_view(), 1int,
    {
        let ghost dv = self.deep_view();
        let mut ms: Vec<(String, JsonValue)> = Vec::new();
        push_member(&mut ms, "placeholder", JsonValue::Str(self.placeholder.clone()));
        push_member(&mut ms, "name", JsonValue::Str(self.name.clone()));
        push_member(&mut ms, "mimeType", JsonValue::Str(self.mime_type.wire_name().to_owned()));
        match &self.value {
            Some(v) => push_member(&mut ms, "value", v.clone()),
            None => (),
        }
        match &self.text {
            Some(v) => push_member(&mut ms, "text", v.clone()),
            None => (),
        }
        push_opt_bool(&mut ms, "usesAdvancedTemplatingEngine", &self.uses_advanced_templating_engine);
        push_opt_bool(
            &mut ms,
            "nestedInAdvancedTemplatingEngine",
            &self.nested_in_advanced_templating_engine,
        );
        push_opt_bool(&mut ms, "allowRichTextInjection", &self.allow_rich_text_injection);
        push_opt_str(&mut ms, "description", &self.description);
        push_opt_bool(&mut ms, "defaultValue", &self.default_value);
        match &self.subvariables {
            Some(vs) => {
                proof {
                    assert(decreases_to!(dv => dv.subvariables));
                    assert(decreases_to!(dv.subvariables => dv.subvariables->Some_0));
                }
                push_member(&mut ms, "subvariables", vars_to_json(vs));
            },
            None => (),
        }
        proof {
            assert(view_of_members(ms@) =~= member("placeholder"@, Json::Str(dv.placeholder))
                + member("name"@, Json::Str(dv.name)) + member(
                "mimeType"@,
                Json::Str(dv.mime_type.wire_chars()),
            ) + opt_member_json("value"@, dv.value) + opt_member_json("text"@, dv.text)
                + opt_member_bool(
                "usesAdvancedTemplatingEngine"@,
                dv.uses_advanced_templating_engine,
            ) + opt_member_bool(
                "nestedInAdvancedTemplatingEngine"@,
                dv.nested_in_advanced_templating_engine,
            ) + opt_member_bool("allowRichTextInjection"@, dv.allow_rich_text_injection)
                + opt_member_str("description"@, dv.description) + opt_member_bool(
                "defaultValue"@,
                dv.default_value,
            ) + opt_member_json("subvariables"@, opt_vars_json(dv.subvariables)));
        }
        JsonValue::Obj(ms)
    }

    /// Decode from a wire object.
    pub fn from_json(j: &JsonValue) -> (r: Option<TemplateVariable>)
        ensures
            r.deep_view() == template_variable_of_json(j@),
        decreases j@, 1int,
    {
        let ms = match j {
            JsonValue::Obj(ms) => ms,
            _ => {
                return None;
            },
        };
        let placeholder = match get_req_str(ms, "placeholder") {
            Some(v) => v,
            None => {
                return None;
            },
        };
        let name = match get_req_str(ms, "name") {
            Some(v) => v,
            None => {
                return None;
            },
        };
        let mime_type = match get_req_str(ms, "mimeType") {
            Some(s) => match VariableMimeType::of_wire(s.as_str()) {
                Some(m) => m,
                None => {
                    return None;
                },
            },
            None => {
                return None;
            },
        };
        let value = get_opt_json(ms, "value");
        let text = get_opt_json(ms, "text");
        let uses_advanced_templating_engine = match get_opt_bool(
            ms,
            "usesAdvancedTemplatingEngine",
        ) {
            Some(v) => v,
            None => {
                return None;
            },
        };
        let nested_in_advanced_templating_engine = match get_opt_bool(
            ms,
            "nestedInAdvancedTemplatingEngine",
        ) {
            Some(v) => v,
            None => {
                return None;
            },
        };
        let allow_rich_text_injection = match get_opt_bool(ms, "allowRichTextInjection") {
            Some(v) => v,
            None => {
                return None;
            },
        };
        let description = match get_opt_str(ms, "description") {
            Some(v) => v,
            None => {
                return None;
            },
        };
        let default_value = match get_opt_bool(ms, "defaultValue") {
            Some(v) => v,
            None => {
                return None;
            },
        };
        let subvariables = match obj_get(ms, "subvariables") {
            None => None,
            Some(x) => {
                proof {
                    lemma_lookup_smaller(view_of_members(ms@), "subvariables"@);
                }
                match x {
                    JsonValue::Arr(items) => {
                        proof {
                            assert(decreases_to!(x@ => x@->Arr_0));
                        }
                        match vars_of_items(items) {
                            Some(vs) => {
                                proof {
                                    lemma_deep_views_of_vars(vs@);
                                    assert(deep_views_of_vars(vs@) =~= vs.deep_view());
                                }
                                Some(vs)
                            },
                            None => {
                                return None;
                            },
                        }
                    },
                    _ => {
                        return None;
                    },
                }
            },
        };
        Some(
            TemplateVariable {
                placeholder,
                name,
                mime_type,
                value,
                text,
                uses_advanced_templating_engine,
                nested_in_advanced_templating_engine,
                allow_rich_text_injection,
                description,
                default_value,
                subvariables,
            },
        )
    }
}

/// Encode a list of template variables to a JSON array.
pub fn vars_to_json(vars: &Vec<TemplateVariable>) -> (j: JsonValue)
    ensures
        j@ == Json::Arr(vars_json_arr(deep_views_of_vars(vars@))),
    decreases deep_views_of_vars(vars@), 0int,
{
    proof {
        lemma_deep_views_of_vars(vars@);
    }
    let ghost dvs = deep_views_of_vars(vars@);
    let n = vars.len();
    let mut out: Vec<JsonValue> = Vec::new();
    let mut i: usize = 0;
    while i < n
        invariant
            i <= n,
            n == vars.len(),
            dvs == deep_views_of_vars(vars@),
            dvs.len() == vars@.len(),
            forall|k: int| 0 <= k < vars@.len() ==> dvs[k] == vars@[k].deep_view(),
            out@.len() == i,
            forall|k: int| 0 <= k < i ==> out@[k]@ == template_variable_json(dvs[k]),
        decreases n - i,
    {
        proof {
            assert(decreases_to!(dvs => dvs[i as int]));
        }
        let vj = vars[i].to_json();
        out.push(vj);
        i += 1;
    }
    proof {
        lemma_view_of_items(out@);
        lemma_vars_json_arr(dvs);
        assert(view_of_items(out@) =~= vars_json_arr(dvs));
    }
    JsonValue::Arr(out)
}

pub proof fn lemma_vars_json_arr(vs: Seq<TemplateVariableV>)
    ensures
        vars_json_arr(vs).len() == vs.len(),
        forall|i: int| 0 <= i < vs.len() ==> vars_json_arr(vs)[i] == template_variable_json(
            vs[i],
        ),
    decreases vs.len(),
{
    if vs.len() > 0 {
        lemma_vars_json_arr(vs.skip(1));
        let tail = vars_json_arr(vs.skip(1));
        assert(vars_json_arr(vs) == seq![template_variable_json(vs[0])] + tail);
        assert forall|i: int| 0 <= i < vs.len() implies vars_json_arr(vs)[i]
            == template_variable_json(vs[i]) by {
            if i > 0 {
                assert((seq![template_variable_json(vs[0])] + tail)[i] == tail[i - 1]);
                assert(vs.skip(1)[i - 1] == vs[i]);
            }
        }
    }
}

proof fn lemma_vars_of_arr_bad(items: Seq<Json>, i: int)
    requires
        0 <= i < items.len(),
        template_variable_of_json(items[i]) is None,
    ensures
        vars_of_arr(items) is None,
    decreases i,
{
    if i > 0 {
        if template_variable_of_json(items[0]) is Some {
            lemma_vars_of_arr_bad(items.skip(1), i - 1);
        }
    }
}

proof fn lemma_vars_of_arr_good(items: Seq<Json>, vs: Seq<TemplateVariableV>)
    requires
        vs.len() == items.len(),
        forall|j: int| 0 <= j < items.len() ==> #[trigger] template_variable_of_json(items[j])
            == Some(vs[j]),
    ensures
        vars_of_arr(items) == Some(vs),
    decreases items.len(),
{
    if items.len() == 0 {
        assert(vs =~= Seq::<TemplateVariableV>::empty());
    } else {
        assert forall|j: int| 0 <= j < items.skip(1).len() implies #[trigger]
            template_variable_of_json(items.skip(1)[j]) == Some(vs.skip(1)[j]) by {
            assert(items.skip(1)[j] == items[j + 1]);
            assert(vs.skip(1)[j] == vs[j + 1]);
        }
        lemma_vars_of_arr_good(items.skip(1), vs.skip(1));
        assert(template_variable_of_json(items[0]) == Some(vs[0]));
        assert(vars_of_arr(items.skip(1)) == Some(vs.skip(1)));
        assert(vs =~= seq![vs[0]] + vs.skip(1));
        assert(vars_of_arr(items) == Some(seq![vs[0]] + vs.skip(1)));
    }
}

/// Decode a JSON array of template variables.
pub fn vars_of_items(items: &Vec<JsonValue>) -> (r: Option<Vec<TemplateVariable>>)
    ensures
        r.deep_view() == vars_of_arr(view_of_items(items@)),
    decreases view_of_items(items@), 0int,
{
    proof {
        lemma_view_of_items(items@);
    }
    let ghost lv = view_of_items(items@);
    let n = items.len();
    let mut out: Vec<TemplateVariable> = Vec::new();
    let mut i: usize = 0;
    while i < n
        invariant
            i <= n,
            n == items.len(),
            lv == view_of_items(items@),
            lv.len() == items@.len(),
            forall|k: int| 0 <= k < items@.len() ==> lv[k] == items@[k]@,
            out@.len() == i,
            forall|k: int| 0 <= k < i ==> #[trigger] template_variable_of_json(lv[k]) == Some(
                out@[k].deep_view(),
            ),
        decreases n - i,
    {
        proof {
            assert(decreases_to!(lv => lv[i as int]));
        }
        match TemplateVariable::from_json(&items[i]) {
            Some(v) => {
                out.push(v);
            },
            None => {
                proof {
                    lemma_vars_of_arr_bad(lv, i as int);
                }
                return None;
            },
        }
        i += 1;
    }
    proof {
        lemma_vars_of_arr_good(lv, out.deep_view());
    }
    Some(out)
}

/// Round trip: encoding a template variable and decoding the result yields
/// the same variable.
#[verifier::rlimit(100)]
pub proof fn lemma_template_variable_roundtrip(v: TemplateVariableV)
    ensures
        template_variable_of_json(template_variable_json(v)) == Some(v),
    decreases v, 1int,
{
    reveal_strlit("placeholder");
    reveal_strlit("name");
    reveal_strlit("mimeType");
    reveal_strlit("value");
    reveal_strlit("text");
    reveal_strlit("usesAdvancedTemplatingEngine");
    reveal_strlit("nestedInAdvancedTemplatingEngine");
    reveal_strlit("allowRichTextInjection");
    reveal_strlit("description");
    reveal_strlit("defaultValue");
    reveal_strlit("subvariables");
    assert("placeholder"@.len() == 11);
    assert("name"@.len() == 4);
    assert("mimeType"@.len() == 8);
    assert("value"@.len() == 5);
    assert("text"@.len() == 4);
    assert("usesAdvancedTemplatingEngine"@.len() == 28);
    assert("nestedInAdvancedTemplatingEngine"@.len() == 32);
    assert("allowRichTextInjection"@.len() == 22);
    assert("description"@.len() == 11);
    assert("defaultValue"@.len() == 12);
    assert("subvariables"@.len() == 12);
    assert("name"@[0] == 'n');
    assert("text"@[0] == 't');
    assert("placeholder"@[0] == 'p');
    assert("description"@[0] == 'd');
    assert("defaultValue"@[0] == 'd');
    assert("subvariables"@[0] == 's');
    let s1 = member("placeholder"@, Json::Str(v.placeholder));
    let s2 = member("name"@, Json::Str(v.name));
    let s3 = member("mimeType"@, Json::Str(v.mime_type.wire_chars()));
    let s4 = opt_member_json("value"@, v.value);
    let s5 = opt_member_json("text"@, v.text);
    let s6 = opt_member_bool("usesAdvancedTemplatingEngine"@, v.uses_advanced_templating_engine);
    let s7 = opt_member_bool(
        "nestedInAdvancedTemplatingEngine"@,
        v.nested_in_advanced_templating_engine,
    );
    let s8 = opt_member_bool("allowRichTextInjection"@, v.allow_rich_text_injection);
    let s9 = opt_member_str("description"@, v.description);
    let s10 = opt_member_bool("defaultValue"@, v.default_value);
    let s11 = opt_member_json("subvariables"@, opt_vars_json(v.subvariables));
    lemma_lookup_member("placeholder"@, Json::Str(v.placeholder));
    lemma_lookup_member("name"@, Json::Str(v.name));
    lemma_lookup_member("mimeType"@, Json::Str(v.mime_type.wire_chars()));
    lemma_lookup_opt_json("value"@, v.value);
    lemma_lookup_opt_json("text"@, v.text);
    lemma_lookup_opt_bool("usesAdvancedTemplatingEngine"@, v.uses_advanced_templating_engine);
    lemma_lookup_opt_bool(
        "nestedInAdvancedTemplatingEngine"@,
        v.nested_in_advanced_templating_engine,
    );
    lemma_lookup_opt_bool("allowRichTextInjection"@, v.allow_rich_text_injection);
    lemma_lookup_opt_str("description"@, v.description);
    lemma_lookup_opt_bool("defaultValue"@, v.default_value);
    lemma_lookup_opt_json("subvariables"@, opt_vars_json(v.subvariables));
    lemma_lookup_concat(s1, s2);
    lemma_lookup_concat(s1 + s2, s3);
    lemma_lookup_concat(s1 + s2 + s3, s4);
    lemma_lookup_concat(s1 + s2 + s3 + s4, s5);
    lemma_lookup_concat(s1 + s2 + s3 + s4 + s5, s6);
    lemma_lookup_concat(s1 + s2 + s3 + s4 + s5 + s6, s7);
    lemma_lookup_concat(s1 + s2 + s3 + s4 + s5 + s6 + s7, s8);
    lemma_lookup_concat(s1 + s2 + s3 + s4 + s5 + s6 + s7 + s8, s9);
    lemma_lookup_concat(s1 + s2 + s3 + s4 + s5 + s6 + s7 + s8 + s9, s10);
    lemma_lookup_concat(s1 + s2 + s3 + s4 + s5 + s6 + s7 + s8 + s9 + s10, s11);
    lemma_mime_type_wire_roundtrip(v.mime_type);
    match v.subvariables {
        Some(vs) => {
            assert(decreases_to!(v => v.subvariables));
            assert(decreases_to!(v.subvariables => v.subvariables->Some_0));
            lemma_vars_arr_roundtrip(vs);
        },
        None => (),
    }
}

proof fn lemma_vars_arr_roundtrip(vs: Seq<TemplateVariableV>)
    ensures
        vars_of_arr(vars_json_arr(vs)) == Some(vs),
    decreases vs, 0int,
{
    let items = vars_json_arr(vs);
    if vs.len() == 0 {
        assert(items.len() == 0);
    } else {
        assert(decreases_to!(vs => vs[0]));
        lemma_template_variable_roundtrip(vs[0]);
        assert(decreases_to!(vs => vs.skip(1)));
        lemma_vars_arr_roundtrip(vs.skip(1));
        assert(items.skip(1) =~= vars_json_arr(vs.skip(1)));
        assert(items[0] == template_variable_json(vs[0]));
        assert(vs =~= seq![vs[0]] + vs.skip(1));
    }
}

/// Mathematical model of a `GenerateTemplateRequest`.
pub struct GenerateTemplateRequestV {
    pub template_id: Seq<char>,
    pub variables: Seq<TemplateVariableV>,
    pub name: Seq<char>,
    pub description: Option<Seq<char>>,
    pub replace_fonts: Option<bool>,
    pub default_font: Option<Seq<char>>,
    pub metadata: Option<Seq<(Seq<char>, Json)>>,
}

/// Request to generate a document from a template.
#[derive(Debug, PartialEq)]
pub struct GenerateTemplateRequest {
    /// Identifier of the template to fill.
    pub template_id: String,
    /// The substitutions to apply.
    pub variables: Vec<TemplateVariable>,
    /// Display name of the generated document.
    pub name: String,
    /// Description of the generated document.
    pub description: Option<String>,
    /// Whether fonts in the document are replaced.
    pub replace_fonts: Option<bool>,
    /// The font to replace with.
    pub default_font: Option<String>,
    /// Free-form additional facts attached to the deliverable.
    pub metadata: Option<Vec<(String, JsonValue)>>,
}

impl DeepView for GenerateTemplateRequest {
    type V = GenerateTemplateRequestV;

    open spec fn deep_view(&self) -> GenerateTemplateRequestV {
        GenerateTemplateRequestV {
            template_id: self.template_id@,
            variables: deep_views_of_vars(self.variables@),
            name: self.name@,
            description: self.description.deep_view(),
            replace_fonts: self.replace_fonts,
            default_font: self.default_font.deep_view(),
            metadata: match &self.metadata {
                Some(m) => Some(view_of_members(m@)),
                None => None,
            },
        }
    }
}

pub open spec fn opt_obj_json(d: Option<Seq<(Seq<char>, Json)>>) -> Option<Json> {
    match d {
        Some(ms) => Some(Json::Obj(ms)),
        None => None,
    }
}

/// The wire object of a generation request; unset optional fields are
/// omitted.
pub open spec fn generate_request_json(v: GenerateTemplateRequestV) -> Json {
    Json::Obj(
        member("templateId"@, Json::Str(v.template_id)) + member(
            "variables"@,
            Json::Arr(vars_json_arr(v.variables)),
        ) + member("name"@, Json::Str(v.name)) + opt_member_str("description"@, v.description)
            + opt_member_bool("replaceFonts"@, v.replace_fonts) + opt_member_str(
            "defaultFont"@,
            v.default_font,
        ) + opt_member_json("metadata"@, opt_obj_json(v.metadata)),
    )
}

/// The generation request a wire object stands for, if it is well shaped.
pub open spec fn generate_request_of_json(j: Json) -> Option<GenerateTemplateRequestV> {
    match j {
        Json::Obj(ms) => {
            let variables = match obj_lookup(ms, "variables"@) {
                Some(Json::Arr(items)) => vars_of_arr(items),
                _ => None,
            };
            match (spec_req_str(ms, "templateId"@), variables, spec_req_str(ms, "name"@),
            spec_opt_str(ms, "description"@), spec_opt_bool(ms, "replaceFonts"@), spec_opt_str(
                ms,
                "defaultFont"@,
            ), crate::json::spec_opt_obj(ms, "metadata"@)) {
                (
                    Some(template_id),
                    Some(variables),
                    Some(name),
                    Some(description),
                    Some(replace_fonts),
                    Some(default_font),
                    Some(metadata),
                ) => Some(
                    GenerateTemplateRequestV {
                        template_id,
                        variables,
                        name,
                        description,
                        replace_fonts,
                        default_font,
                        metadata,
                    },
                ),
                _ => None,
            }
        },
        _ => None,
    }
}

impl GenerateTemplateRequest {
    /// A generation request with the given template, variables and document
    /// name, and no optional directive set.
    pub fn new(template_id: &str, variables: Vec<TemplateVariable>, name: &str) -> (r:
        GenerateTemplateRequest)
        ensures
            r.deep_view() == (GenerateTemplateRequestV {
                template_id: template_id@,
                variables: deep_views_of_vars(variables@),
                name: name@,
                description: None,
                replace_fonts: None,
                default_font: None,
                metadata: None,
            }),
    {
        GenerateTemplateRequest {
            template_id: template_id.to_owned(),
            variables,
            name: name.to_owned(),
            description: None,
            replace_fonts: None,
            default_font: None,
            metadata: None,
        }
    }

    /// The same request with the description set.
    pub fn with_description(self, description: &str) -> (r: GenerateTemplateRequest)
        ensures
            r.deep_view() == (GenerateTemplateRequestV {
                description: Some(description@),
                ..self.deep_view()
            }),
    {
        GenerateTemplateRequest { description: Some(description.to_owned()), ..self }
    }

    /// The same request with the font-replacement directive set.
    pub fn with_font_replacement(self, replace: bool, default_font: Option<&str>) -> (r:
        GenerateTemplateRequest)
        ensures
            r.deep_view() == (GenerateTemplateRequestV {
                replace_fonts: Some(replace),
                default_font: match default_font {
                    Some(f) => Some(f@),
                    None => None,
                },
                ..self.deep_view()
            }),
    {
        let default_font = match default_font {
            Some(f) => Some(f.to_owned()),
            None => None,
        };
        GenerateTemplateRequest { replace_fonts: Some(replace), default_font, ..self }
    }

    /// The same request with the metadata set.
    pub fn with_metadata(self, metadata: Vec<(String, JsonValue)>) -> (r: GenerateTemplateRequest)
        ensures
            r.deep_view() == (GenerateTemplateRequestV {
                metadata: Some(view_of_members(metadata@)),
                ..self.deep_view()
            }),
    {
        GenerateTemplateRequest { metadata: Some(metadata), ..self }
    }

    /// Encode to the wire object; unset optional fields are omitted.
    pub fn to_json(&self) -> (j: JsonValue)
        ensures
            j@ == generate_request_json(self.deep_view()),
    {
        let mut ms: Vec<(String, JsonValue)> = Vec::new();
        push_member(&mut ms, "templateId", JsonValue::Str(self.template_id.clone()));
        push_member(&mut ms, "variables", vars_to_json(&self.variables));
        push_member(&mut ms, "name", JsonValue::Str(self.name.clone()));
        push_opt_str(&mut ms, "description", &self.description);
        push_opt_bool(&mut ms, "replaceFonts", &self.replace_fonts);
        push_opt_str(&mut ms, "defaultFont", &self.default_font);
        match &self.metadata {
            Some(m) => push_member(
                &mut ms,
                "metadata",
                JsonValue::Obj(crate::json::clone_members(m)),
            ),
            None => (),
        }
        proof {
            let v = self.deep_view();
            assert(view_of_members(ms@) =~= member("templateId"@, Json::Str(v.template_id))
                + member("variables"@, Json::Arr(vars_json_arr(v.variables))) + member(
                "name"@,
                Json::Str(v.name),
            ) + opt_member_str("description"@, v.description) + opt_member_bool(
                "replaceFonts"@,
                v.replace_fonts,
            ) + opt_member_str("defaultFont"@, v.default_font) + opt_member_json(
                "metadata"@,
                opt_obj_json(v.metadata),
            ));
        }
        JsonValue::Obj(ms)
    }

    /// Decode from a wire object.
    pub fn from_json(j: &JsonValue) -> (r: Option<GenerateTemplateRequest>)
        ensures
            r.deep_view() == generate_request_of_json(j@),
    {
        let ms = match j {
            JsonValue::Obj(ms) => ms,
            _ => {
                return None;
            },
        };
        let template_id = match get_req_str(ms, "templateId") {
            Some(v) => v,
            None => {
                return None;
            },
        };
        let variables = match obj_get(ms, "variables") {
            Some(JsonValue::Arr(items)) => match vars_of_items(items) {
                Some(vs) => {
                    proof {
                        lemma_deep_views_of_vars(vs@);
                        assert(deep_views_of_vars(vs@) =~= vs.deep_view());
                    }
                    vs
                },
                None => {
                    return None;
                },
            },
            _ => {
                return None;
            },
        };
        let name = match get_req_str(ms, "name") {
            Some(v) => v,
            None => {
                return None;
            },
        };
        let description = match get_opt_str(ms, "description") {
            Some(v) => v,
            None => {
                return None;
            },
        };
        let replace_fonts = match get_opt_bool(ms, "replaceFonts") {
            Some(v) => v,
            None => {
                return None;
            },
        };
        let default_font = match get_opt_str(ms, "defaultFont") {
            Some(v) => v,
            None => {
                return None;
            },
        };
        let metadata = match crate::json::get_opt_obj(ms, "metadata") {
            Some(v) => v,
            None => {
                return None;
            },
        };
        Some(
            GenerateTemplateRequest {
                template_id,
                variables,
                name,
                description,
                replace_fonts,
                default_font,
                metadata,
            },
        )
    }
}

/// Round trip: encoding a generation request and decoding the result yields
/// the same request.
#[verifier::rlimit(100)]
pub proof fn lemma_generate_request_roundtrip(v: GenerateTemplateRequestV)
    ensures
        generate_request_of_json(generate_request_json(v)) == Some(v),
{
    reveal_strlit("templateId");
    reveal_strlit("variables");
    reveal_strlit("name");
    reveal_strlit("description");
    reveal_strlit("replaceFonts");
    reveal_strlit("defaultFont");
    reveal_strlit("metadata");
    assert("templateId"@.len() == 10);
    assert("variables"@.len() == 9);
    assert("name"@.len() == 4);
    assert("description"@.len() == 11);
    assert("replaceFonts"@.len() == 12);
    assert("defaultFont"@.len() == 11);
    assert("metadata"@.len() == 8);
    assert("description"@[2] == 's');
    assert("defaultFont"@[2] == 'f');
    let s1 = member("templateId"@, Json::Str(v.template_id));
    let s2 = member("variables"@, Json::Arr(vars_json_arr(v.variables)));
    let s3 = member("name"@, Json::Str(v.name));
    let s4 = opt_member_str("description"@, v.description);
    let s5 = opt_member_bool("replaceFonts"@, v.replace_fonts);
    let s6 = opt_member_str("defaultFont"@, v.default_font);
    let s7 = opt_member_json("metadata"@, opt_obj_json(v.metadata));
    lemma_lookup_member("templateId"@, Json::Str(v.template_id));
    lemma_lookup_member("variables"@, Json::Arr(vars_json_arr(v.variables)));
    lemma_lookup_member("name"@, Json::Str(v.name));
    lemma_lookup_opt_str("description"@, v.description);
    lemma_lookup_opt_bool("replaceFonts"@, v.replace_fonts);
    lemma_lookup_opt_str("defaultFont"@, v.default_font);
    lemma_lookup_opt_json("metadata"@, opt_obj_json(v.metadata));
    lemma_lookup_concat(s1, s2);
    lemma_lookup_concat(s1 + s2, s3);
    lemma_lookup_concat(s1 + s2 + s3, s4);
    lemma_lookup_concat(s1 + s2 + s3 + s4, s5);
    lemma_lookup_concat(s1 + s2 + s3 + s4 + s5, s6);
    lemma_lookup_concat(s1 + s2 + s3 + s4 + s5 + s6, s7);
    lemma_vars_arr_roundtrip_pub(v.variables);
}

/// Round trip for variable lists, stated for use by envelope round trips.
pub proof fn lemma_vars_arr_roundtrip_pub(vs: Seq<TemplateVariableV>)
    ensures
        vars_of_arr(vars_json_arr(vs)) == Some(vs),
{
    lemma_vars_arr_roundtrip(vs);
}

/// Mathematical model of a `GenerateTemplateResponse`.
pub struct GenerateTemplateResponseV {
    pub id: Option<Seq<char>>,
    pub name: Option<Seq<char>>,
    pub description: Option<Seq<char>>,
    pub template_id: Option<Seq<char>>,
    pub projectspace_id: Option<Seq<char>>,
    pub deliverable_folder_id: Option<Seq<char>>,
    pub metadata: Option<Seq<(Seq<char>, Json)>>,
    pub created_by: Option<Seq<char>>,
    pub org_id: Option<Seq<char>>,
    pub default_font: Option<Seq<char>>,
    pub created_on: Option<Seq<char>>,
    pub updated_on: Option<Seq<char>>,
    pub is_active: Option<i32>,
    pub fonts: Option<Json>,
    pub download_url: Option<Seq<char>>,
    pub message: Option<Seq<char>>,
    pub error: Option<Seq<char>>,
}

/// The deliverable record the service answers a generation request with.
/// Every field may be absent; callers must tolerate partial records.
#[derive(Debug, Clone, PartialEq)]
pub struct GenerateTemplateResponse {
    /// Identifier of the deliverable.
    pub id: Option<String>,
    /// Name of the generated document.
    pub name: Option<String>,
    /// Description of the generated document.
    pub description: Option<String>,
    /// Template the document was generated from.
    pub template_id: Option<String>,
    /// Projectspace the deliverable belongs to.
    pub projectspace_id: Option<String>,
    /// Folder the deliverable was filed under.
    pub deliverable_folder_id: Option<String>,
    /// Free-form additional facts.
    pub metadata: Option<Vec<(String, JsonValue)>>,
    /// Who created the deliverable.
    pub created_by: Option<String>,
    /// Organization the deliverable belongs to.
    pub org_id: Option<String>,
    /// Font used where fonts were replaced.
    pub default_font: Option<String>,
    /// Creation timestamp.
    pub created_on: Option<String>,
    /// Last update timestamp.
    pub updated_on: Option<String>,
    /// Whether the deliverable is active.
    pub is_active: Option<i32>,
    /// Font facts, in whatever shape the service sends.
    pub fonts: Option<JsonValue>,
    /// Where the document can be fetched, if offered.
    pub download_url: Option<String>,
    /// Message from the service.
    pub message: Option<String>,
    /// Error text, if the generation partially failed.
    pub error: Option<String>,
}

impl DeepView for GenerateTemplateResponse {
    type V = GenerateTemplateResponseV;

    open spec fn deep_view(&self) -> GenerateTemplateResponseV {
        GenerateTemplateResponseV {
            id: self.id.deep_view(),
            name: self.name.deep_view(),
            description: self.description.deep_view(),
            template_id: self.template_id.deep_view(),
            projectspace_id: self.projectspace_id.deep_view(),
            deliverable_folder_id: self.deliverable_folder_id.deep_view(),
            metadata: match &self.metadata {
                Some(m) => Some(view_of_members(m@)),
                None => None,
            },
            created_by: self.created_by.deep_view(),
            org_id: self.org_id.deep_view(),
            default_font: self.default_font.deep_view(),
            created_on: self.created_on.deep_view(),
            updated_on: self.updated_on.deep_view(),
            is_active: self.is_active,
            fonts: match &self.fonts {
                Some(f) => Some(f@),
                None => None,
            },
            download_url: self.download_url.deep_view(),
            message: self.message.deep_view(),
            error: self.error.deep_view(),
        }
    }
}

/// The wire object of a generation response; unset fields are omitted.
pub open spec fn generate_response_json(v: GenerateTemplateResponseV) -> Json {
    Json::Obj(
        opt_member_str("id"@, v.id) + opt_member_str("name"@, v.name) + opt_member_str(
            "description"@,
            v.description,
        ) + opt_member_str("templateId"@, v.template_id) + opt_member_str(
            "projectspaceId"@,
            v.projectspace_id,
        ) + opt_member_str("deliverableFolderId"@, v.deliverable_folder_id) + opt_member_json(
            "metadata"@,
            opt_obj_json(v.metadata),
        ) + opt_member_str("createdBy"@, v.created_by) + opt_member_str("orgId"@, v.org_id)
            + opt_member_str("defaultFont"@, v.default_font) + opt_member_str(
            "createdOn"@,
            v.created_on,
        ) + opt_member_str("updatedOn"@, v.updated_on) + crate::json::opt_member_i32(
            "isActive"@,
            v.is_active,
        ) + opt_member_json("fonts"@, v.fonts) + opt_member_str("downloadUrl"@, v.download_url)
            + opt_member_str("message"@, v.message) + opt_member_str("error"@, v.error),
    )
}

/// The generation response a wire object stands for, if it is well shaped.
pub open spec fn generate_response_of_json(j: Json) -> Option<GenerateTemplateResponseV> {
    match j {
        Json::Obj(ms) => {
            let part1 = (
                spec_opt_str(ms, "id"@),
                spec_opt_str(ms, "name"@),
                spec_opt_str(ms, "description"@),
                spec_opt_str(ms, "templateId"@),
                spec_opt_str(ms, "projectspaceId"@),
                spec_opt_str(ms, "deliverableFolderId"@),
                crate::json::spec_opt_obj(ms, "metadata"@),
                spec_opt_str(ms, "createdBy"@),
                spec_opt_str(ms, "orgId"@),
            );
            let part2 = (
                spec_opt_str(ms, "defaultFont"@),
                spec_opt_str(ms, "createdOn"@),
                spec_opt_str(ms, "updatedOn"@),
                crate::json::spec_opt_i32(ms, "isActive"@),
                spec_opt_str(ms, "downloadUrl"@),
                spec_opt_str(ms, "message"@),
                spec_opt_str(ms, "error"@),
            );
            match (part1, part2) {
                (
                    (
                        Some(id),
                        Some(name),
                        Some(description),
                        Some(template_id),
                        Some(projectspace_id),
                        Some(deliverable_folder_id),
                        Some(metadata),
                        Some(created_by),
                        Some(org_id),
                    ),
                    (
                        Some(default_font),
                        Some(created_on),
                        Some(updated_on),
                        Some(is_active),
                        Some(download_url),
                        Some(message),
                        Some(error),
                    ),
                ) => Some(
                    GenerateTemplateResponseV {
                        id,
                        name,
                        description,
                        template_id,
                        projectspace_id,
                        deliverable_folder_id,
                        metadata,
                        created_by,
                        org_id,
                        default_font,
                        created_on,
                        updated_on,
                        is_active,
                        fonts: obj_lookup(ms, "fonts"@),
                        download_url,
                        message,
                        error,
                    },
                ),
                _ => None,
            }
        },
        _ => None,
    }
}

impl GenerateTemplateResponse {
    /// Encode to the wire object; unset fields are omitted.
    pub fn to_json(&self) -> (j: JsonValue)
        ensures
            j@ == generate_response_json(self.deep_view()),
    {
        let mut ms: Vec<(String, JsonValue)> = Vec::new();
        push_opt_str(&mut ms, "id", &self.id);
        push_opt_str(&mut ms, "name", &self.name);
        push_opt_str(&mut ms, "description", &self.description);
        push_opt_str(&mut ms, "templateId", &self.template_id);
        push_opt_str(&mut ms, "projectspaceId", &self.projectspace_id);
        push_opt_str(&mut ms, "deliverableFolderId", &self.deliverable_folder_id);
        match &self.metadata {
            Some(m) => push_member(
                &mut ms,
                "metadata",
                JsonValue::Obj(crate::json::clone_members(m)),
            ),
            None => (),
        }
        push_opt_str(&mut ms, "createdBy", &self.created_by);
        push_opt_str(&mut ms, "orgId", &self.org_id);
        push_opt_str(&mut ms, "defaultFont", &self.default_font);
        push_opt_str(&mut ms, "createdOn", &self.created_on);
        push_opt_str(&mut ms, "updatedOn", &self.updated_on);
        crate::json::push_opt_i32(&mut ms, "isActive", &self.is_active);
        match &self.fonts {
            Some(f) => push_member(&mut ms, "fonts", f.clone()),
            None => (),
        }
        push_opt_str(&mut ms, "downloadUrl", &self.download_url);
        push_opt_str(&mut ms, "message", &self.message);
        push_opt_str(&mut ms, "error", &self.error);
        proof {
            let v = self.deep_view();
            assert(view_of_members(ms@) =~= opt_member_str("id"@, v.id) + opt_member_str(
                "name"@,
                v.name,
            ) + opt_member_str("description"@, v.description) + opt_member_str(
                "templateId"@,
                v.template_id,
            ) + opt_member_str("projectspaceId"@, v.projectspace_id) + opt_member_str(
                "deliverableFolderId"@,
                v.deliverable_folder_id,
            ) + opt_member_json("metadata"@, opt_obj_json(v.metadata)) + opt_member_str(
                "createdBy"@,
                v.created_by,
            ) + opt_member_str("orgId"@, v.org_id) + opt_member_str("defaultFont"@, v.default_font)
                + opt_member_str("createdOn"@, v.created_on) + opt_member_str(
                "updatedOn"@,
                v.updated_on,
            ) + crate::json::opt_member_i32("isActive"@, v.is_active) + opt_member_json(
                "fonts"@,
                v.fonts,
            ) + opt_member_str("downloadUrl"@, v.download_url) + opt_member_str(
                "message"@,
                v.message,
            ) + opt_member_str("error"@, v.error));
        }
        JsonValue::Obj(ms)
    }

    /// Decode from a wire object.
    pub fn from_json(j: &JsonValue) -> (r: Option<GenerateTemplateResponse>)
        ensures
            r.deep_view() == generate_response_of_json(j@),
    {
        let ms = match j {
            JsonValue::Obj(ms) => ms,
            _ => {
                return None;
            },
        };
        let id = match get_opt_str(ms, "id") {
            Some(v) => v,
            None => {
                return None;
            },
        };
        let name = match get_opt_str(ms, "name") {
            Some(v) => v,
            None => {
                return None;
            },
        };
        let description = match get_opt_str(ms, "description") {
            Some(v) => v,
            None => {
                return None;
            },
        };
        let template_id = match get_opt_str(ms, "templateId") {
            Some(v) => v,
            None => {
                return None;
            },
        };
        let projectspace_id = match get_opt_str(ms, "projectspaceId") {
            Some(v) => v,
            None => {
                return None;
            },
        };
        let deliverable_folder_id = match get_opt_str(ms, "deliverableFolderId") {
            Some(v) => v,
            None => {
                return None;
            },
        };
        let metadata = match crate::json::get_opt_obj(ms, "metadata") {
            Some(v) => v,
            None => {
                return None;
            },
        };
        let created_by = match get_opt_str(ms, "createdBy") {
            Some(v) => v,
            None => {
                return None;
            },
        };
        let org_id = match get_opt_str(ms, "orgId") {
            Some(v) => v,
            None => {
                return None;
            },
        };
        let default_font = match get_opt_str(ms, "defaultFont") {
            Some(v) => v,
            None => {
                return None;
            },
        };
        let created_on = match get_opt_str(ms, "createdOn") {
            Some(v) => v,
            None => {
                return None;
            },
        };
        let updated_on = match get_opt_str(ms, "updatedOn") {
            Some(v) => v,
            None => {
                return None;
            },
        };
        let is_active = match crate::json::get_opt_i32(ms, "isActive") {
            Some(v) => v,
            None => {
                return None;
            },
        };
        let fonts = get_opt_json(ms, "fonts");
        let download_url = match get_opt_str(ms, "downloadUrl") {
            Some(v) => v,
            None => {
                return None;
            },
        };
        let message = match get_opt_str(ms, "message") {
            Some(v) => v,
            None => {
                return None;
            },
        };
        let error = match get_opt_str(ms, "error") {
            Some(v) => v,
            None => {
                return None;
            },
        };
        Some(
            GenerateTemplateResponse {
                id,
                name,
                description,
                template_id,
                projectspace_id,
                deliverable_folder_id,
                metadata,
                created_by,
                org_id,
                default_font,
                created_on,
                updated_on,
                is_active,
                fonts,
                download_url,
                message,
                error,
            },
        )
    }
}

/// The member list of an encoded generation response.
pub open spec fn generate_response_members(v: GenerateTemplateResponseV) -> Seq<
    (Seq<char>, Json),
> {
    generate_response_json(v)->Obj_0
}

#[verifier::rlimit(100)]
proof fn lemma_generate_response_lookups_a(v: GenerateTemplateResponseV)
    ensures
        spec_opt_str(generate_response_members(v), "id"@) == Some(v.id),
        spec_opt_str(generate_response_members(v), "name"@) == Some(v.name),
        spec_opt_str(generate_response_members(v), "description"@) == Some(v.description),
        spec_opt_str(generate_response_members(v), "templateId"@) == Some(v.template_id),
        spec_opt_str(generate_response_members(v), "projectspaceId"@) == Some(v.projectspace_id),
{
    reveal_strlit("id");
    reveal_strlit("name");
    reveal_strlit("description");
    reveal_strlit("templateId");
    reveal_strlit("projectspaceId");
    reveal_strlit("deliverableFolderId");
    reveal_strlit("metadata");
    reveal_strlit("createdBy");
    reveal_strlit("orgId");
    reveal_strlit("defaultFont");
    reveal_strlit("createdOn");
    reveal_strlit("updatedOn");
    reveal_strlit("isActive");
    reveal_strlit("fonts");
    reveal_strlit("downloadUrl");
    reveal_strlit("message");
    reveal_strlit("error");
    assert("id"@.len() == 2);
    assert("name"@.len() == 4);
    assert("description"@.len() == 11);
    assert("templateId"@.len() == 10);
    assert("projectspaceId"@.len() == 14);
    assert("deliverableFolderId"@.len() == 19);
    assert("metadata"@.len() == 8);
    assert("createdBy"@.len() == 9);
    assert("orgId"@.len() == 5);
    assert("defaultFont"@.len() == 11);
    assert("createdOn"@.len() == 9);
    assert("updatedOn"@.len() == 9);
    assert("isActive"@.len() == 8);
    assert("fonts"@.len() == 5);
    assert("downloadUrl"@.len() == 11);
    assert("message"@.len() == 7);
    assert("error"@.len() == 5);
    assert("description"@[1] == 'e');
    assert("defaultFont"@[1] == 'e');
    assert("downloadUrl"@[1] == 'o');
    assert("description"@[2] == 's');
    assert("defaultFont"@[2] == 'f');
    assert("createdBy"@[7] == 'B');
    assert("createdOn"@[7] == 'O');
    assert("updatedOn"@[0] == 'u');
    assert("createdBy"@[0] == 'c');
    assert("createdOn"@[0] == 'c');
    assert("metadata"@[0] == 'm');
    assert("isActive"@[0] == 'i');
    assert("orgId"@[0] == 'o');
    assert("fonts"@[0] == 'f');
    assert("error"@[0] == 'e');
    let s1 = opt_member_str("id"@, v.id);
    let s2 = opt_member_str("name"@, v.name);
    let s3 = opt_member_str("description"@, v.description);
    let s4 = opt_member_str("templateId"@, v.template_id);
    let s5 = opt_member_str("projectspaceId"@, v.projectspace_id);
    let s6 = opt_member_str("deliverableFolderId"@, v.deliverable_folder_id);
    let s7 = opt_member_json("metadata"@, opt_obj_json(v.metadata));
    let s8 = opt_member_str("createdBy"@, v.created_by);
    let s9 = opt_member_str("orgId"@, v.org_id);
    let s10 = opt_member_str("defaultFont"@, v.default_font);
    let s11 = opt_member_str("createdOn"@, v.created_on);
    let s12 = opt_member_str("updatedOn"@, v.updated_on);
    let s13 = crate::json::opt_member_i32("isActive"@, v.is_active);
    let s14 = opt_member_json("fonts"@, v.fonts);
    let s15 = opt_member_str("downloadUrl"@, v.download_url);
    let s16 = opt_member_str("message"@, v.message);
    let s17 = opt_member_str("error"@, v.error);
    lemma_lookup_opt_str("id"@, v.id);
    lemma_lookup_opt_str("name"@, v.name);
    lemma_lookup_opt_str("description"@, v.description);
    lemma_lookup_opt_str("templateId"@, v.template_id);
    lemma_lookup_opt_str("projectspaceId"@, v.projectspace_id);
    lemma_lookup_opt_str("deliverableFolderId"@, v.deliverable_folder_id);
    lemma_lookup_opt_json("metadata"@, opt_obj_json(v.metadata));
    lemma_lookup_opt_str("createdBy"@, v.created_by);
    lemma_lookup_opt_str("orgId"@, v.org_id);
    lemma_lookup_opt_str("defaultFont"@, v.default_font);
    lemma_lookup_opt_str("createdOn"@, v.created_on);
    lemma_lookup_opt_str("updatedOn"@, v.updated_on);
    crate::json::lemma_lookup_opt_i32("isActive"@, v.is_active);
    lemma_lookup_opt_json("fonts"@, v.fonts);
    lemma_lookup_opt_str("downloadUrl"@, v.download_url);
    lemma_lookup_opt_str("message"@, v.message);
    lemma_lookup_opt_str("error"@, v.error);
    lemma_lookup_concat(s1, s2);
    lemma_lookup_concat(s1 + s2, s3);
    lemma_lookup_concat(s1 + s2 + s3, s4);
    lemma_lookup_concat(s1 + s2 + s3 + s4, s5);
    lemma_lookup_concat(s1 + s2 + s3 + s4 + s5, s6);
    lemma_lookup_concat(s1 + s2 + s3 + s4 + s5 + s6, s7);
    lemma_lookup_concat(s1 + s2 + s3 + s4 + s5 + s6 + s7, s8);
    lemma_lookup_concat(s1 + s2 + s3 + s4 + s5 + s6 + s7 + s8, s9);
    lemma_lookup_concat(s1 + s2 + s3 + s4 + s5 + s6 + s7 + s8 + s9, s10);
    lemma_lookup_concat(s1 + s2 + s3 + s4 + s5 + s6 + s7 + s8 + s9 + s10, s11);
    lemma_lookup_concat(s1 + s2 + s3 + s4 + s5 + s6 + s7 + s8 + s9 + s10 + s11, s12);
    lemma_lookup_concat(s1 + s2 + s3 + s4 + s5 + s6 + s7 + s8 + s9 + s10 + s11 + s12, s13);
    lemma_lookup_concat(s1 + s2 + s3 + s4 + s5 + s6 + s7 + s8 + s9 + s10 + s11 + s12 + s13, s14);
    lemma_lookup_concat(s1 + s2 + s3 + s4 + s5 + s6 + s7 + s8 + s9 + s10 + s11 + s12 + s13 + s14, s15);
    lemma_lookup_concat(s1 + s2 + s3 + s4 + s5 + s6 + s7 + s8 + s9 + s10 + s11 + s12 + s13 + s14 + s15, s16);
    lemma_lookup_concat(s1 + s2 + s3 + s4 + s5 + s6 + s7 + s8 + s9 + s10 + s11 + s12 + s13 + s14 + s15 + s16, s17);
    let e_id: Option<Json> = match v.id { Some(s) => Some(Json::Str(s)), None => None::<Json> };
    assert(obj_lookup(s1, "id"@) == e_id);
    assert(obj_lookup(s1 + s2, "id"@) == e_id);
    assert(obj_lookup(s1 + s2 + s3, "id"@) == e_id);
    assert(obj_lookup(s1 + s2 + s3 + s4, "id"@) == e_id);
    assert(obj_lookup(s1 + s2 + s3 + s4 + s5, "id"@) == e_id);
    assert(obj_lookup(s1 + s2 + s3 + s4 + s5 + s6, "id"@) == e_id);
    assert(obj_lookup(s1 + s2 + s3 + s4 + s5 + s6 + s7, "id"@) == e_id);
    assert(obj_lookup(s1 + s2 + s3 + s4 + s5 + s6 + s7 + s8, "id"@) == e_id);
    assert(obj_lookup(s1 + s2 + s3 + s4 + s5 + s6 + s7 + s8 + s9, "id"@) == e_id);
    assert(obj_lookup(s1 + s2 + s3 + s4 + s5 + s6 + s7 + s8 + s9 + s10, "id"@) == e_id);
    assert(obj_lookup(s1 + s2 + s3 + s4 + s5 + s6 + s7 + s8 + s9 + s10 + s11, "id"@) == e_id);
    assert(obj_lookup(s1 + s2 + s3 + s4 + s5 + s6 + s7 + s8 + s9 + s10 + s11 + s12, "id"@) == e_id);
    assert(obj_lookup(s1 + s2 + s3 + s4 + s5 + s6 + s7 + s8 + s9 + s10 + s11 + s12 + s13, "id"@) == e_id);
    assert(obj_lookup(s1 + s2 + s3 + s4 + s5 + s6 + s7 + s8 + s9 + s10 + s11 + s12 + s13 + s14, "id"@) == e_id);
    assert(obj_lookup(s1 + s2 + s3 + s4 + s5 + s6 + s7 + s8 + s9 + s10 + s11 + s12 + s13 + s14 + s15, "id"@) == e_id);
    assert(obj_lookup(s1 + s2 + s3 + s4 + s5 + s6 + s7 + s8 + s9 + s10 + s11 + s12 + s13 + s14 + s15 + s16, "id"@) == e_id);
    assert(obj_lookup(s1 + s2 + s3 + s4 + s5 + s6 + s7 + s8 + s9 + s10 + s11 + s12 + s13 + s14 + s15 + s16 + s17, "id"@) == e_id);
    assert(obj_lookup(generate_response_members(v), "id"@) == e_id);
    let e_name: Option<Json> = match v.name { Some(s) => Some(Json::Str(s)), None => None::<Json> };
    assert(obj_lookup(s1, "name"@) is None);
    assert(obj_lookup(s1 + s2, "name"@) == e_name);
    assert(obj_lookup(s1 + s2 + s3, "name"@) == e_name);
    assert(obj_lookup(s1 + s2 + s3 + s4, "name"@) == e_name);
    assert(obj_lookup(s1 + s2 + s3 + s4 + s5, "name"@) == e_name);
    assert(obj_lookup(s1 + s2 + s3 + s4 + s5 + s6, "name"@) == e_name);
    assert(obj_lookup(s1 + s2 + s3 + s4 + s5 + s6 + s7, "name"@) == e_name);
    assert(obj_lookup(s1 + s2 + s3 + s4 + s5 + s6 + s7 + s8, "name"@) == e_name);
    assert(obj_lookup(s1 + s2 + s3 + s4 + s5 + s6 + s7 + s8 + s9, "name"@) == e_name);
    assert(obj_lookup(s1 + s2 + s3 + s4 + s5 + s6 + s7 + s8 + s9 + s10, "name"@) == e_name);
    assert(obj_lookup(s1 + s2 + s3 + s4 + s5 + s6 + s7 + s8 + s9 + s10 + s11, "name"@) == e_name);
    assert(obj_lookup(s1 + s2 + s3 + s4 + s5 + s6 + s7 + s8 + s9 + s10 + s11 + s12, "name"@) == e_name);
    assert(obj_lookup(s1 + s2 + s3 + s4 + s5 + s6 + s7 + s8 + s9 + s10 + s11 + s12 + s13, "name"@) == e_name);
    assert(obj_lookup(s1 + s2 + s3 + s4 + s5 + s6 + s7 + s8 + s9 + s10 + s11 + s12 + s13 + s14, "name"@) == e_name);
    assert(obj_lookup(s1 + s2 + s3 + s4 + s5 + s6 + s7 + s8 + s9 + s10 + s11 + s12 + s13 + s14 + s15, "name"@) == e_name);
    assert(obj_lookup(s1 + s2 + s3 + s4 + s5 + s6 + s7 + s8 + s9 + s10 + s11 + s12 + s13 + s14 + s15 + s16, "name"@) == e_name);
    assert(obj_lookup(s1 + s2 + s3 + s4 + s5 + s6 + s7 + s8 + s9 + s10 + s11 + s12 + s13 + s14 + s15 + s16 + s17, "name"@) == e_name);
    assert(obj_lookup(generate_response_members(v), "name"@) == e_name);
    let e_description: Option<Json> = match v.description { Some(s) => Some(Json::Str(s)), None => None::<Json> };
    assert(obj_lookup(s1, "description"@) is None);
    assert(obj_lookup(s1 + s2, "description"@) is None);
    assert(obj_lookup(s1 + s2 + s3, "description"@) == e_description);
    assert(obj_lookup(s1 + s2 + s3 + s4, "description"@) == e_description);
    assert(obj_lookup(s1 + s2 + s3 + s4 + s5, "description"@) == e_description);
    assert(obj_lookup(s1 + s2 + s3 + s4 + s5 + s6, "description"@) == e_description);
    assert(obj_lookup(s1 + s2 + s3 + s4 + s5 + s6 + s7, "description"@) == e_description);
    assert(obj_lookup(s1 + s2 + s3 + s4 + s5 + s6 + s7 + s8, "description"@) == e_description);
    assert(obj_lookup(s1 + s2 + s3 + s4 + s5 + s6 + s7 + s8 + s9, "description"@) == e_description);
    assert(obj_lookup(s1 + s2 + s3 + s4 + s5 + s6 + s7 + s8 + s9 + s10, "description"@) == e_description);
    assert(obj_lookup(s1 + s2 + s3 + s4 + s5 + s6 + s7 + s8 + s9 + s10 + s11, "description"@) == e_description);
    assert(obj_lookup(s1 + s2 + s3 + s4 + s5 + s6 + s7 + s8 + s9 + s10 + s11 + s12, "description"@) == e_description);
    assert(obj_lookup(s1 + s2 + s3 + s4 + s5 + s6 + s7 + s8 + s9 + s10 + s11 + s12 + s13, "description"@) == e_description);
    assert(obj_lookup(s1 + s2 + s3 + s4 + s5 + s6 + s7 + s8 + s9 + s10 + s11 + s12 + s13 + s14, "description"@) == e_description);
    assert(obj_lookup(s1 + s2 + s3 + s4 + s5 + s6 + s7 + s8 + s9 + s10 + s11 + s12 + s13 + s14 + s15, "description"@) == e_description);
    assert(obj_lookup(s1 + s2 + s3 + s4 + s5 + s6 + s7 + s8 + s9 + s10 + s11 + s12 + s13 + s14 + s15 + s16, "description"@) == e_description);
    assert(obj_lookup(s1 + s2 + s3 + s4 + s5 + s6 + s7 + s8 + s9 + s10 + s11 + s12 + s13 + s14 + s15 + s16 + s17, "description"@) == e_description);
    assert(obj_lookup(generate_response_members(v), "description"@) == e_description);
    let e_template_id: Option<Json> = match v.template_id { Some(s) => Some(Json::Str(s)), None => None::<Json> };
    assert(obj_lookup(s1, "templateId"@) is None);
    assert(obj_lookup(s1 + s2, "templateId"@) is None);
    assert(obj_lookup(s1 + s2 + s3, "templateId"@) is None);
    assert(obj_lookup(s1 + s2 + s3 + s4, "templateId"@) == e_template_id);
    assert(obj_lookup(s1 + s2 + s3 + s4 + s5, "templateId"@) == e_template_id);
    assert(obj_lookup(s1 + s2 + s3 + s4 + s5 + s6, "templateId"@) == e_template_id);
    assert(obj_lookup(s1 + s2 + s3 + s4 + s5 + s6 + s7, "templateId"@) == e_template_id);
    assert(obj_lookup(s1 + s2 + s3 + s4 + s5 + s6 + s7 + s8, "templateId"@) == e_template_id);
    assert(obj_lookup(s1 + s2 + s3 + s4 + s5 + s6 + s7 + s8 + s9, "templateId"@) == e_template_id);
    assert(obj_lookup(s1 + s2 + s3 + s4 + s5 + s6 + s7 + s8 + s9 + s10, "templateId"@) == e_template_id);
    assert(obj_lookup(s1 + s2 + s3 + s4 + s5 + s6 + s7 + s8 + s9 + s10 + s11, "templateId"@) == e_template_id);
    assert(obj_lookup(s1 + s2 + s3 + s4 + s5 + s6 + s7 + s8 + s9 + s10 + s11 + s12, "templateId"@) == e_template_id);
    assert(obj_lookup(s1 + s2 + s3 + s4 + s5 + s6 + s7 + s8 + s9 + s10 + s11 + s12 + s13, "templateId"@) == e_template_id);
    assert(obj_lookup(s1 + s2 + s3 + s4 + s5 + s6 + s7 + s8 + s9 + s10 + s11 + s12 + s13 + s14, "templateId"@) == e_template_id);
    assert(obj_lookup(s1 + s2 + s3 + s4 + s5 + s6 + s7 + s8 + s9 + s10 + s11 + s12 + s13 + s14 + s15, "templateId"@) == e_template_id);
    assert(obj_lookup(s1 + s2 + s3 + s4 + s5 + s6 + s7 + s8 + s9 + s10 + s11 + s12 + s13 + s14 + s15 + s16, "templateId"@) == e_template_id);
    assert(obj_lookup(s1 + s2 + s3 + s4 + s5 + s6 + s7 + s8 + s9 + s10 + s11 + s12 + s13 + s14 + s15 + s16 + s17, "templateId"@) == e_template_id);
    assert(obj_lookup(generate_response_members(v), "templateId"@) == e_template_id);
    let e_projectspace_id: Option<Json> = match v.projectspace_id { Some(s) => Some(Json::Str(s)), None => None::<Json> };
    assert(obj_lookup(s1, "projectspaceId"@) is None);
    assert(obj_lookup(s1 + s2, "projectspaceId"@) is None);
    assert(obj_lookup(s1 + s2 + s3, "projectspaceId"@) is None);
    assert(obj_lookup(s1 + s2 + s3 + s4, "projectspaceId"@) is None);
    assert(obj_lookup(s1 + s2 + s3 + s4 + s5, "projectspaceId"@) == e_projectspace_id);
    assert(obj_lookup(s1 + s2 + s3 + s4 + s5 + s6, "projectspaceId"@) == e_projectspace_id);
    assert(obj_lookup(s1 + s2 + s3 + s4 + s5 + s6 + s7, "projectspaceId"@) == e_projectspace_id);
    assert(obj_lookup(s1 + s2 + s3 + s4 + s5 + s6 + s7 + s8, "projectspaceId"@) == e_projectspace_id);
    assert(obj_lookup(s1 + s2 + s3 + s4 + s5 + s6 + s7 + s8 + s9, "projectspaceId"@) == e_projectspace_id);
    assert(obj_lookup(s1 + s2 + s3 + s4 + s5 + s6 + s7 + s8 + s9 + s10, "projectspaceId"@) == e_projectspace_id);
    assert(obj_lookup(s1 + s2 + s3 + s4 + s5 + s6 + s7 + s8 + s9 + s10 + s11, "projectspaceId"@) == e_projectspace_id);
    assert(obj_lookup(s1 + s2 + s3 + s4 + s5 + s6 + s7 + s8 + s9 + s10 + s11 + s12, "projectspaceId"@) == e_projectspace_id);
    assert(obj_lookup(s1 + s2 + s3 + s4 + s5 + s6 + s7 + s8 + s9 + s10 + s11 + s12 + s13, "projectspaceId"@) == e_projectspace_id);
    assert(obj_lookup(s1 + s2 + s3 + s4 + s5 + s6 + s7 + s8 + s9 + s10 + s11 + s12 + s13 + s14, "projectspaceId"@) == e_projectspace_id);
    assert(obj_lookup(s1 + s2 + s3 + s4 + s5 + s6 + s7 + s8 + s9 + s10 + s11 + s12 + s13 + s14 + s15, "projectspaceId"@) == e_projectspace_id);
    assert(obj_lookup(s1 + s2 + s3 + s4 + s5 + s6 + s7 + s8 + s9 + s10 + s11 + s12 + s13 + s14 + s15 + s16, "projectspaceId"@) == e_projectspace_id);
    assert(obj_lookup(s1 + s2 + s3 + s4 + s5 + s6 + s7 + s8 + s9 + s10 + s11 + s12 + s13 + s14 + s15 + s16 + s17, "projectspaceId"@) == e_projectspace_id);
    assert(obj_lookup(generate_response_members(v), "projectspaceId"@) == e_projectspace_id);
}

#[verifier::rlimit(100)]
proof fn lemma_generate_response_lookups_b(v: GenerateTemplateResponseV)
    ensures
        spec_opt_str(generate_response_members(v), "deliverableFolderId"@) == Some(v.deliverable_folder_id),
        crate::json::spec_opt_obj(generate_response_members(v), "metadata"@) == Some(v.metadata),
        spec_opt_str(generate_response_members(v), "createdBy"@) == Some(v.created_by),
        spec_opt_str(generate_response_members(v), "orgId"@) == Some(v.org_id),
{
    reveal_strlit("id");
    reveal_strlit("name");
    reveal_strlit("description");
    reveal_strlit("templateId");
    reveal_strlit("projectspaceId");
    reveal_strlit("deliverableFolderId");
    reveal_strlit("metadata");
    reveal_strlit("createdBy");
    reveal_strlit("orgId");
    reveal_strlit("defaultFont");
    reveal_strlit("createdOn");
    reveal_strlit("updatedOn");
    reveal_strlit("isActive");
    reveal_strlit("fonts");
    reveal_strlit("downloadUrl");
    reveal_strlit("message");
    reveal_strlit("error");
    assert("id"@.len() == 2);
    assert("name"@.len() == 4);
    assert("description"@.len() == 11);
    assert("templateId"@.len() == 10);
    assert("projectspaceId"@.len() == 14);
    assert("deliverableFolderId"@.len() == 19);
    assert("metadata"@.len() == 8);
    assert("createdBy"@.len() == 9);
    assert("orgId"@.len() == 5);
    assert("defaultFont"@.len() == 11);
    assert("createdOn"@.len() == 9);
    assert("updatedOn"@.len() == 9);
    assert("isActive"@.len() == 8);
    assert("fonts"@.len() == 5);
    assert("downloadUrl"@.len() == 11);
    assert("message"@.len() == 7);
    assert("error"@.len() == 5);
    assert("description"@[1] == 'e');
    assert("defaultFont"@[1] == 'e');
    assert("downloadUrl"@[1] == 'o');
    assert("description"@[2] == 's');
    assert("defaultFont"@[2] == 'f');
    assert("createdBy"@[7] == 'B');
    assert("createdOn"@[7] == 'O');
    assert("updatedOn"@[0] == 'u');
    assert("createdBy"@[0] == 'c');
    assert("createdOn"@[0] == 'c');
    assert("metadata"@[0] == 'm');
    assert("isActive"@[0] == 'i');
    assert("orgId"@[0] == 'o');
    assert("fonts"@[0] == 'f');
    assert("error"@[0] == 'e');
    let s1 = opt_member_str("id"@, v.id);
    let s2 = opt_member_str("name"@, v.name);
    let s3 = opt_member_str("description"@, v.description);
    let s4 = opt_member_str("templateId"@, v.template_id);
    let s5 = opt_member_str("projectspaceId"@, v.projectspace_id);
    let s6 = opt_member_str("deliverableFolderId"@, v.deliverable_folder_id);
    let s7 = opt_member_json("metadata"@, opt_obj_json(v.metadata));
    let s8 = opt_member_str("createdBy"@, v.created_by);
    let s9 = opt_member_str("orgId"@, v.org_id);
    let s10 = opt_member_str("defaultFont"@, v.default_font);
    let s11 = opt_member_str("createdOn"@, v.created_on);
    let s12 = opt_member_str("updatedOn"@, v.updated_on);
    let s13 = crate::json::opt_member_i32("isActive"@, v.is_active);
    let s14 = opt_member_json("fonts"@, v.fonts);
    let s15 = opt_member_str("downloadUrl"@, v.download_url);
    let s16 = opt_member_str("message"@, v.message);
    let s17 = opt_member_str("error"@, v.error);
    lemma_lookup_opt_str("id"@, v.id);
    lemma_lookup_opt_str("name"@, v.name);
    lemma_lookup_opt_str("description"@, v.description);
    lemma_lookup_opt_str("templateId"@, v.template_id);
    lemma_lookup_opt_str("projectspaceId"@, v.projectspace_id);
    lemma_lookup_opt_str("deliverableFolderId"@, v.deliverable_folder_id);
    lemma_lookup_opt_json("metadata"@, opt_obj_json(v.metadata));
    lemma_lookup_opt_str("createdBy"@, v.created_by);
    lemma_lookup_opt_str("orgId"@, v.org_id);
    lemma_lookup_opt_str("defaultFont"@, v.default_font);
    lemma_lookup_opt_str("createdOn"@, v.created_on);
    lemma_lookup_opt_str("updatedOn"@, v.updated_on);
    crate::json::lemma_lookup_opt_i32("isActive"@, v.is_active);
    lemma_lookup_opt_json("fonts"@, v.fonts);
    lemma_lookup_opt_str("downloadUrl"@, v.download_url);
    lemma_lookup_opt_str("message"@, v.message);
    lemma_lookup_opt_str("error"@, v.error);
    lemma_lookup_concat(s1, s2);
    lemma_lookup_concat(s1 + s2, s3);
    lemma_lookup_concat(s1 + s2 + s3, s4);
    lemma_lookup_concat(s1 + s2 + s3 + s4, s5);
    lemma_lookup_concat(s1 + s2 + s3 + s4 + s5, s6);
    lemma_lookup_concat(s1 + s2 + s3 + s4 + s5 + s6, s7);
    lemma_lookup_concat(s1 + s2 + s3 + s4 + s5 + s6 + s7, s8);
    lemma_lookup_concat(s1 + s2 + s3 + s4 + s5 + s6 + s7 + s8, s9);
    lemma_lookup_concat(s1 + s2 + s3 + s4 + s5 + s6 + s7 + s8 + s9, s10);
    lemma_lookup_concat(s1 + s2 + s3 + s4 + s5 + s6 + s7 + s8 + s9 + s10, s11);
    lemma_lookup_concat(s1 + s2 + s3 + s4 + s5 + s6 + s7 + s8 + s9 + s10 + s11, s12);
    lemma_lookup_concat(s1 + s2 + s3 + s4 + s5 + s6 + s7 + s8 + s9 + s10 + s11 + s12, s13);
    lemma_lookup_concat(s1 + s2 + s3 + s4 + s5 + s6 + s7 + s8 + s9 + s10 + s11 + s12 + s13, s14);
    lemma_lookup_concat(s1 + s2 + s3 + s4 + s5 + s6 + s7 + s8 + s9 + s10 + s11 + s12 + s13 + s14, s15);
    lemma_lookup_concat(s1 + s2 + s3 + s4 + s5 + s6 + s7 + s8 + s9 + s10 + s11 + s12 + s13 + s14 + s15, s16);
    lemma_lookup_concat(s1 + s2 + s3 + s4 + s5 + s6 + s7 + s8 + s9 + s10 + s11 + s12 + s13 + s14 + s15 + s16, s17);
    let e_deliverable_folder_id: Option<Json> = match v.deliverable_folder_id { Some(s) => Some(Json::Str(s)), None => None::<Json> };
    assert(obj_lookup(s1, "deliverableFolderId"@) is None);
    assert(obj_lookup(s1 + s2, "deliverableFolderId"@) is None);
    assert(obj_lookup(s1 + s2 + s3, "deliverableFolderId"@) is None);
    assert(obj_lookup(s1 + s2 + s3 + s4, "deliverableFolderId"@) is None);
    assert(obj_lookup(s1 + s2 + s3 + s4 + s5, "deliverableFolderId"@) is None);
    assert(obj_lookup(s1 + s2 + s3 + s4 + s5 + s6, "deliverableFolderId"@) == e_deliverable_folder_id);
    assert(obj_lookup(s1 + s2 + s3 + s4 + s5 + s6 + s7, "deliverableFolderId"@) == e_deliverable_folder_id);
    assert(obj_lookup(s1 + s2 + s3 + s4 + s5 + s6 + s7 + s8, "deliverableFolderId"@) == e_deliverable_folder_id);
    assert(obj_lookup(s1 + s2 + s3 + s4 + s5 + s6 + s7 + s8 + s9, "deliverableFolderId"@) == e_deliverable_folder_id);
    assert(obj_lookup(s1 + s2 + s3 + s4 + s5 + s6 + s7 + s8 + s9 + s10, "deliverableFolderId"@) == e_deliverable_folder_id);
    assert(obj_lookup(s1 + s2 + s3 + s4 + s5 + s6 + s7 + s8 + s9 + s10 + s11, "deliverableFolderId"@) == e_deliverable_folder_id);
    assert(obj_lookup(s1 + s2 + s3 + s4 + s5 + s6 + s7 + s8 + s9 + s10 + s11 + s12, "deliverableFolderId"@) == e_deliverable_folder_id);
    assert(obj_lookup(s1 + s2 + s3 + s4 + s5 + s6 + s7 + s8 + s9 + s10 + s11 + s12 + s13, "deliverableFolderId"@) == e_deliverable_folder_id);
    assert(obj_lookup(s1 + s2 + s3 + s4 + s5 + s6 + s7 + s8 + s9 + s10 + s11 + s12 + s13 + s14, "deliverableFolderId"@) == e_deliverable_folder_id);
    assert(obj_lookup(s1 + s2 + s3 + s4 + s5 + s6 + s7 + s8 + s9 + s10 + s11 + s12 + s13 + s14 + s15, "deliverableFolderId"@) == e_deliverable_folder_id);
    assert(obj_lookup(s1 + s2 + s3 + s4 + s5 + s6 + s7 + s8 + s9 + s10 + s11 + s12 + s13 + s14 + s15 + s16, "deliverableFolderId"@) == e_deliverable_folder_id);
    assert(obj_lookup(s1 + s2 + s3 + s4 + s5 + s6 + s7 + s8 + s9 + s10 + s11 + s12 + s13 + s14 + s15 + s16 + s17, "deliverableFolderId"@) == e_deliverable_folder_id);
    assert(obj_lookup(generate_response_members(v), "deliverableFolderId"@) == e_deliverable_folder_id);
    let e_metadata: Option<Json> = match v.metadata { Some(m) => Some(Json::Obj(m)), None => None::<Json> };
    assert(obj_lookup(s1, "metadata"@) is None);
    assert(obj_lookup(s1 + s2, "metadata"@) is None);
    assert(obj_lookup(s1 + s2 + s3, "metadata"@) is None);
    assert(obj_lookup(s1 + s2 + s3 + s4, "metadata"@) is None);
    assert(obj_lookup(s1 + s2 + s3 + s4 + s5, "metadata"@) is None);
    assert(obj_lookup(s1 + s2 + s3 + s4 + s5 + s6, "metadata"@) is None);
    assert(obj_lookup(s1 + s2 + s3 + s4 + s5 + s6 + s7, "metadata"@) == e_metadata);
    assert(obj_lookup(s1 + s2 + s3 + s4 + s5 + s6 + s7 + s8, "metadata"@) == e_metadata);
    assert(obj_lookup(s1 + s2 + s3 + s4 + s5 + s6 + s7 + s8 + s9, "metadata"@) == e_metadata);
    assert(obj_lookup(s1 + s2 + s3 + s4 + s5 + s6 + s7 + s8 + s9 + s10, "metadata"@) == e_metadata);
    assert(obj_lookup(s1 + s2 + s3 + s4 + s5 + s6 + s7 + s8 + s9 + s10 + s11, "metadata"@) == e_metadata);
    assert(obj_lookup(s1 + s2 + s3 + s4 + s5 + s6 + s7 + s8 + s9 + s10 + s11 + s12, "metadata"@) == e_metadata);
    assert(obj_lookup(s1 + s2 + s3 + s4 + s5 + s6 + s7 + s8 + s9 + s10 + s11 + s12 + s13, "metadata"@) == e_metadata);
    assert(obj_lookup(s1 + s2 + s3 + s4 + s5 + s6 + s7 + s8 + s9 + s10 + s11 + s12 + s13 + s14, "metadata"@) == e_metadata);
    assert(obj_lookup(s1 + s2 + s3 + s4 + s5 + s6 + s7 + s8 + s9 + s10 + s11 + s12 + s13 + s14 + s15, "metadata"@) == e_metadata);
    assert(obj_lookup(s1 + s2 + s3 + s4 + s5 + s6 + s7 + s8 + s9 + s10 + s11 + s12 + s13 + s14 + s15 + s16, "metadata"@) == e_metadata);
    assert(obj_lookup(s1 + s2 + s3 + s4 + s5 + s6 + s7 + s8 + s9 + s10 + s11 + s12 + s13 + s14 + s15 + s16 + s17, "metadata"@) == e_metadata);
    assert(obj_lookup(generate_response_members(v), "metadata"@) == e_metadata);
    let e_created_by: Option<Json> = match v.created_by { Some(s) => Some(Json::Str(s)), None => None::<Json> };
    assert(obj_lookup(s1, "createdBy"@) is None);
    assert(obj_lookup(s1 + s2, "createdBy"@) is None);
    assert(obj_lookup(s1 + s2 + s3, "createdBy"@) is None);
    assert(obj_lookup(s1 + s2 + s3 + s4, "createdBy"@) is None);
    assert(obj_lookup(s1 + s2 + s3 + s4 + s5, "createdBy"@) is None);
    assert(obj_lookup(s1 + s2 + s3 + s4 + s5 + s6, "createdBy"@) is None);
    assert(obj_lookup(s1 + s2 + s3 + s4 + s5 + s6 + s7, "createdBy"@) is None);
    assert(obj_lookup(s1 + s2 + s3 + s4 + s5 + s6 + s7 + s8, "createdBy"@) == e_created_by);
    assert(obj_lookup(s1 + s2 + s3 + s4 + s5 + s6 + s7 + s8 + s9, "createdBy"@) == e_created_by);
    assert(obj_lookup(s1 + s2 + s3 + s4 + s5 + s6 + s7 + s8 + s9 + s10, "createdBy"@) == e_created_by);
    assert(obj_lookup(s1 + s2 + s3 + s4 + s5 + s6 + s7 + s8 + s9 + s10 + s11, "createdBy"@) == e_created_by);
    assert(obj_lookup(s1 + s2 + s3 + s4 + s5 + s6 + s7 + s8 + s9 + s10 + s11 + s12, "createdBy"@) == e_created_by);
    assert(obj_lookup(s1 + s2 + s3 + s4 + s5 + s6 + s7 + s8 + s9 + s10 + s11 + s12 + s13, "createdBy"@) == e_created_by);
    assert(obj_lookup(s1 + s2 + s3 + s4 + s5 + s6 + s7 + s8 + s9 + s10 + s11 + s12 + s13 + s14, "createdBy"@) == e_created_by);
    assert(obj_lookup(s1 + s2 + s3 + s4 + s5 + s6 + s7 + s8 + s9 + s10 + s11 + s12 + s13 + s14 + s15, "createdBy"@) == e_created_by);
    assert(obj_lookup(s1 + s2 + s3 + s4 + s5 + s6 + s7 + s8 + s9 + s10 + s11 + s12 + s13 + s14 + s15 + s16, "createdBy"@) == e_created_by);
    assert(obj_lookup(s1 + s2 + s3 + s4 + s5 + s6 + s7 + s8 + s9 + s10 + s11 + s12 + s13 + s14 + s15 + s16 + s17, "createdBy"@) == e_created_by);
    assert(obj_lookup(generate_response_members(v), "createdBy"@) == e_created_by);
    let e_org_id: Option<Json> = match v.org_id { Some(s) => Some(Json::Str(s)), None => None::<Json> };
    assert(obj_lookup(s1, "orgId"@) is None);
    assert(obj_lookup(s1 + s2, "orgId"@) is None);
    assert(obj_lookup(s1 + s2 + s3, "orgId"@) is None);
    assert(obj_lookup(s1 + s2 + s3 + s4, "orgId"@) is None);
    assert(obj_lookup(s1 + s2 + s3 + s4 + s5, "orgId"@) is None);
    assert(obj_lookup(s1 + s2 + s3 + s4 + s5 + s6, "orgId"@) is None);
    assert(obj_lookup(s1 + s2 + s3 + s4 + s5 + s6 + s7, "orgId"@) is None);
    assert(obj_lookup(s1 + s2 + s3 + s4 + s5 + s6 + s7 + s8, "orgId"@) is None);
    assert(obj_lookup(s1 + s2 + s3 + s4 + s5 + s6 + s7 + s8 + s9, "orgId"@) == e_org_id);
    assert(obj_lookup(s1 + s2 + s3 + s4 + s5 + s6 + s7 + s8 + s9 + s10, "orgId"@) == e_org_id);
    assert(obj_lookup(s1 + s2 + s3 + s4 + s5 + s6 + s7 + s8 + s9 + s10 + s11, "orgId"@) == e_org_id);
    assert(obj_lookup(s1 + s2 + s3 + s4 + s5 + s6 + s7 + s8 + s9 + s10 + s11 + s12, "orgId"@) == e_org_id);
    assert(obj_lookup(s1 + s2 + s3 + s4 + s5 + s6 + s7 + s8 + s9 + s10 + s11 + s12 + s13, "orgId"@) == e_org_id);
    assert(obj_lookup(s1 + s2 + s3 + s4 + s5 + s6 + s7 + s8 + s9 + s10 + s11 + s12 + s13 + s14, "orgId"@) == e_org_id);
    assert(obj_lookup(s1 + s2 + s3 + s4 + s5 + s6 + s7 + s8 + s9 + s10 + s11 + s12 + s13 + s14 + s15, "orgId"@) == e_org_id);
    assert(obj_lookup(s1 + s2 + s3 + s4 + s5 + s6 + s7 + s8 + s9 + s10 + s11 + s12 + s13 + s14 + s15 + s16, "orgId"@) == e_org_id);
    assert(obj_lookup(s1 + s2 + s3 + s4 + s5 + s6 + s7 + s8 + s9 + s10 + s11 + s12 + s13 + s14 + s15 + s16 + s17, "orgId"@) == e_org_id);
    assert(obj_lookup(generate_response_members(v), "orgId"@) == e_org_id);
}

#[verifier::rlimit(100)]
proof fn lemma_generate_response_lookups_c(v: GenerateTemplateResponseV)
    ensures
        spec_opt_str(generate_response_members(v), "defaultFont"@) == Some(v.default_font),
        spec_opt_str(generate_response_members(v), "createdOn"@) == Some(v.created_on),
        spec_opt_str(generate_response_members(v), "updatedOn"@) == Some(v.updated_on),
        crate::json::spec_opt_i32(generate_response_members(v), "isActive"@) == Some(v.is_active),
{
    reveal_strlit("id");
    reveal_strlit("name");
    reveal_strlit("description");
    reveal_strlit("templateId");
    reveal_strlit("projectspaceId");
    reveal_strlit("deliverableFolderId");
    reveal_strlit("metadata");
    reveal_strlit("createdBy");
    reveal_strlit("orgId");
    reveal_strlit("defaultFont");
    reveal_strlit("createdOn");
    reveal_strlit("updatedOn");
    reveal_strlit("isActive");
    reveal_strlit("fonts");
    reveal_strlit("downloadUrl");
    reveal_strlit("message");
    reveal_strlit("error");
    assert("id"@.len() == 2);
    assert("name"@.len() == 4);
    assert("description"@.len() == 11);
    assert("templateId"@.len() == 10);
    assert("projectspaceId"@.len() == 14);
    assert("deliverableFolderId"@.len() == 19);
    assert("metadata"@.len() == 8);
    assert("createdBy"@.len() == 9);
    assert("orgId"@.len() == 5);
    assert("defaultFont"@.len() == 11);
    assert("createdOn"@.len() == 9);
    assert("updatedOn"@.len() == 9);
    assert("isActive"@.len() == 8);
    assert("fonts"@.len() == 5);
    assert("downloadUrl"@.len() == 11);
    assert("message"@.len() == 7);
    assert("error"@.len() == 5);
    assert("description"@[1] == 'e');
    assert("defaultFont"@[1] == 'e');
    assert("downloadUrl"@[1] == 'o');
    assert("description"@[2] == 's');
    assert("defaultFont"@[2] == 'f');
    assert("createdBy"@[7] == 'B');
    assert("createdOn"@[7] == 'O');
    assert("updatedOn"@[0] == 'u');
    assert("createdBy"@[0] == 'c');
    assert("createdOn"@[0] == 'c');
    assert("metadata"@[0] == 'm');
    assert("isActive"@[0] == 'i');
    assert("orgId"@[0] == 'o');
    assert("fonts"@[0] == 'f');
    assert("error"@[0] == 'e');
    let s1 = opt_member_str("id"@, v.id);
    let s2 = opt_member_str("name"@, v.name);
    let s3 = opt_member_str("description"@, v.description);
    let s4 = opt_member_str("templateId"@, v.template_id);
    let s5 = opt_member_str("projectspaceId"@, v.projectspace_id);
    let s6 = opt_member_str("deliverableFolderId"@, v.deliverable_folder_id);
    let s7 = opt_member_json("metadata"@, opt_obj_json(v.metadata));
    let s8 = opt_member_str("createdBy"@, v.created_by);
    let s9 = opt_member_str("orgId"@, v.org_id);
    let s10 = opt_member_str("defaultFont"@, v.default_font);
    let s11 = opt_member_str("createdOn"@, v.created_on);
    let s12 = opt_member_str("updatedOn"@, v.updated_on);
    let s13 = crate::json::opt_member_i32("isActive"@, v.is_active);
    let s14 = opt_member_json("fonts"@, v.fonts);
    let s15 = opt_member_str("downloadUrl"@, v.download_url);
    let s16 = opt_member_str("message"@, v.message);
    let s17 = opt_member_str("error"@, v.error);
    lemma_lookup_opt_str("id"@, v.id);
    lemma_lookup_opt_str("name"@, v.name);
    lemma_lookup_opt_str("description"@, v.description);
    lemma_lookup_opt_str("templateId"@, v.template_id);
    lemma_lookup_opt_str("projectspaceId"@, v.projectspace_id);
    lemma_lookup_opt_str("deliverableFolderId"@, v.deliverable_folder_id);
    lemma_lookup_opt_json("metadata"@, opt_obj_json(v.metadata));
    lemma_lookup_opt_str("createdBy"@, v.created_by);
    lemma_lookup_opt_str("orgId"@, v.org_id);
    lemma_lookup_opt_str("defaultFont"@, v.default_font);
    lemma_lookup_opt_str("createdOn"@, v.created_on);
    lemma_lookup_opt_str("updatedOn"@, v.updated_on);
    crate::json::lemma_lookup_opt_i32("isActive"@, v.is_active);
    lemma_lookup_opt_json("fonts"@, v.fonts);
    lemma_lookup_opt_str("downloadUrl"@, v.download_url);
    lemma_lookup_opt_str("message"@, v.message);
    lemma_lookup_opt_str("error"@, v.error);
    lemma_lookup_concat(s1, s2);
    lemma_lookup_concat(s1 + s2, s3);
    lemma_lookup_concat(s1 + s2 + s3, s4);
    lemma_lookup_concat(s1 + s2 + s3 + s4, s5);
    lemma_lookup_concat(s1 + s2 + s3 + s4 + s5, s6);
    lemma_lookup_concat(s1 + s2 + s3 + s4 + s5 + s6, s7);
    lemma_lookup_concat(s1 + s2 + s3 + s4 + s5 + s6 + s7, s8);
    lemma_lookup_concat(s1 + s2 + s3 + s4 + s5 + s6 + s7 + s8, s9);
    lemma_lookup_concat(s1 + s2 + s3 + s4 + s5 + s6 + s7 + s8 + s9, s10);
    lemma_lookup_concat(s1 + s2 + s3 + s4 + s5 + s6 + s7 + s8 + s9 + s10, s11);
    lemma_lookup_concat(s1 + s2 + s3 + s4 + s5 + s6 + s7 + s8 + s9 + s10 + s11, s12);
    lemma_lookup_concat(s1 + s2 + s3 + s4 + s5 + s6 + s7 + s8 + s9 + s10 + s11 + s12, s13);
    lemma_lookup_concat(s1 + s2 + s3 + s4 + s5 + s6 + s7 + s8 + s9 + s10 + s11 + s12 + s13, s14);
    lemma_lookup_concat(s1 + s2 + s3 + s4 + s5 + s6 + s7 + s8 + s9 + s10 + s11 + s12 + s13 + s14, s15);
    lemma_lookup_concat(s1 + s2 + s3 + s4 + s5 + s6 + s7 + s8 + s9 + s10 + s11 + s12 + s13 + s14 + s15, s16);
    lemma_lookup_concat(s1 + s2 + s3 + s4 + s5 + s6 + s7 + s8 + s9 + s10 + s11 + s12 + s13 + s14 + s15 + s16, s17);
    let e_default_font: Option<Json> = match v.default_font { Some(s) => Some(Json::Str(s)), None => None::<Json> };
    assert(obj_lookup(s1, "defaultFont"@) is None);
    assert(obj_lookup(s1 + s2, "defaultFont"@) is None);
    assert(obj_lookup(s1 + s2 + s3, "defaultFont"@) is None);
    assert(obj_lookup(s1 + s2 + s3 + s4, "defaultFont"@) is None);
    assert(obj_lookup(s1 + s2 + s3 + s4 + s5, "defaultFont"@) is None);
    assert(obj_lookup(s1 + s2 + s3 + s4 + s5 + s6, "defaultFont"@) is None);
    assert(obj_lookup(s1 + s2 + s3 + s4 + s5 + s6 + s7, "defaultFont"@) is None);
    assert(obj_lookup(s1 + s2 + s3 + s4 + s5 + s6 + s7 + s8, "defaultFont"@) is None);
    assert(obj_lookup(s1 + s2 + s3 + s4 + s5 + s6 + s7 + s8 + s9, "defaultFont"@) is None);
    assert(obj_lookup(s1 + s2 + s3 + s4 + s5 + s6 + s7 + s8 + s9 + s10, "defaultFont"@) == e_default_font);
    assert(obj_lookup(s1 + s2 + s3 + s4 + s5 + s6 + s7 + s8 + s9 + s10 + s11, "defaultFont"@) == e_default_font);
    assert(obj_lookup(s1 + s2 + s3 + s4 + s5 + s6 + s7 + s8 + s9 + s10 + s11 + s12, "defaultFont"@) == e_default_font);
    assert(obj_lookup(s1 + s2 + s3 + s4 + s5 + s6 + s7 + s8 + s9 + s10 + s11 + s12 + s13, "defaultFont"@) == e_default_font);
    assert(obj_lookup(s1 + s2 + s3 + s4 + s5 + s6 + s7 + s8 + s9 + s10 + s11 + s12 + s13 + s14, "defaultFont"@) == e_default_font);
    assert(obj_lookup(s1 + s2 + s3 + s4 + s5 + s6 + s7 + s8 + s9 + s10 + s11 + s12 + s13 + s14 + s15, "defaultFont"@) == e_default_font);
    assert(obj_lookup(s1 + s2 + s3 + s4 + s5 + s6 + s7 + s8 + s9 + s10 + s11 + s12 + s13 + s14 + s15 + s16, "defaultFont"@) == e_default_font);
    assert(obj_lookup(s1 + s2 + s3 + s4 + s5 + s6 + s7 + s8 + s9 + s10 + s11 + s12 + s13 + s14 + s15 + s16 + s17, "defaultFont"@) == e_default_font);
    assert(obj_lookup(generate_response_members(v), "defaultFont"@) == e_default_font);
    let e_created_on: Option<Json> = match v.created_on { Some(s) => Some(Json::Str(s)), None => None::<Json> };
    assert(obj_lookup(s1, "createdOn"@) is None);
    assert(obj_lookup(s1 + s2, "createdOn"@) is None);
    assert(obj_lookup(s1 + s2 + s3, "createdOn"@) is None);
    assert(obj_lookup(s1 + s2 + s3 + s4, "createdOn"@) is None);
    assert(obj_lookup(s1 + s2 + s3 + s4 + s5, "createdOn"@) is None);
    assert(obj_lookup(s1 + s2 + s3 + s4 + s5 + s6, "createdOn"@) is None);
    assert(obj_lookup(s1 + s2 + s3 + s4 + s5 + s6 + s7, "createdOn"@) is None);
    assert(obj_lookup(s1 + s2 + s3 + s4 + s5 + s6 + s7 + s8, "createdOn"@) is None);
    assert(obj_lookup(s1 + s2 + s3 + s4 + s5 + s6 + s7 + s8 + s9, "createdOn"@) is None);
    assert(obj_lookup(s1 + s2 + s3 + s4 + s5 + s6 + s7 + s8 + s9 + s10, "createdOn"@) is None);
    assert(obj_lookup(s1 + s2 + s3 + s4 + s5 + s6 + s7 + s8 + s9 + s10 + s11, "createdOn"@) == e_created_on);
    assert(obj_lookup(s1 + s2 + s3 + s4 + s5 + s6 + s7 + s8 + s9 + s10 + s11 + s12, "createdOn"@) == e_created_on);
    assert(obj_lookup(s1 + s2 + s3 + s4 + s5 + s6 + s7 + s8 + s9 + s10 + s11 + s12 + s13, "createdOn"@) == e_created_on);
    assert(obj_lookup(s1 + s2 + s3 + s4 + s5 + s6 + s7 + s8 + s9 + s10 + s11 + s12 + s13 + s14, "createdOn"@) == e_created_on);
    assert(obj_lookup(s1 + s2 + s3 + s4 + s5 + s6 + s7 + s8 + s9 + s10 + s11 + s12 + s13 + s14 + s15, "createdOn"@) == e_created_on);
    assert(obj_lookup(s1 + s2 + s3 + s4 + s5 + s6 + s7 + s8 + s9 + s10 + s11 + s12 + s13 + s14 + s15 + s16, "createdOn"@) == e_created_on);
    assert(obj_lookup(s1 + s2 + s3 + s4 + s5 + s6 + s7 + s8 + s9 + s10 + s11 + s12 + s13 + s14 + s15 + s16 + s17, "createdOn"@) == e_created_on);
    assert(obj_lookup(generate_response_members(v), "createdOn"@) == e_created_on);
    let e_updated_on: Option<Json> = match v.updated_on { Some(s) => Some(Json::Str(s)), None => None::<Json> };
    assert(obj_lookup(s1, "updatedOn"@) is None);
    assert(obj_lookup(s1 + s2, "updatedOn"@) is None);
    assert(obj_lookup(s1 + s2 + s3, "updatedOn"@) is None);
    assert(obj_lookup(s1 + s2 + s3 + s4, "updatedOn"@) is None);
    assert(obj_lookup(s1 + s2 + s3 + s4 + s5, "updatedOn"@) is None);
    assert(obj_lookup(s1 + s2 + s3 + s4 + s5 + s6, "updatedOn"@) is None);
    assert(obj_lookup(s1 + s2 + s3 + s4 + s5 + s6 + s7, "updatedOn"@) is None);
    assert(obj_lookup(s1 + s2 + s3 + s4 + s5 + s6 + s7 + s8, "updatedOn"@) is None);
    assert(obj_lookup(s1 + s2 + s3 + s4 + s5 + s6 + s7 + s8 + s9, "updatedOn"@) is None);
    assert(obj_lookup(s1 + s2 + s3 + s4 + s5 + s6 + s7 + s8 + s9 + s10, "updatedOn"@) is None);
    assert(obj_lookup(s1 + s2 + s3 + s4 + s5 + s6 + s7 + s8 + s9 + s10 + s11, "updatedOn"@) is None);
    assert(obj_lookup(s1 + s2 + s3 + s4 + s5 + s6 + s7 + s8 + s9 + s10 + s11 + s12, "updatedOn"@) == e_updated_on);
    assert(obj_lookup(s1 + s2 + s3 + s4 + s5 + s6 + s7 + s8 + s9 + s10 + s11 + s12 + s13, "updatedOn"@) == e_updated_on);
    assert(obj_lookup(s1 + s2 + s3 + s4 + s5 + s6 + s7 + s8 + s9 + s10 + s11 + s12 + s13 + s14, "updatedOn"@) == e_updated_on);
    assert(obj_lookup(s1 + s2 + s3 + s4 + s5 + s6 + s7 + s8 + s9 + s10 + s11 + s12 + s13 + s14 + s15, "updatedOn"@) == e_updated_on);
    assert(obj_lookup(s1 + s2 + s3 + s4 + s5 + s6 + s7 + s8 + s9 + s10 + s11 + s12 + s13 + s14 + s15 + s16, "updatedOn"@) == e_updated_on);
    assert(obj_lookup(s1 + s2 + s3 + s4 + s5 + s6 + s7 + s8 + s9 + s10 + s11 + s12 + s13 + s14 + s15 + s16 + s17, "updatedOn"@) == e_updated_on);
    assert(obj_lookup(generate_response_members(v), "updatedOn"@) == e_updated_on);
    let e_is_active: Option<Json> = match v.is_active { Some(i) => Some(Json::Int(i as int)), None => None::<Json> };
    assert(obj_lookup(s1, "isActive"@) is None);
    assert(obj_lookup(s1 + s2, "isActive"@) is None);
    assert(obj_lookup(s1 + s2 + s3, "isActive"@) is None);
    assert(obj_lookup(s1 + s2 + s3 + s4, "isActive"@) is None);
    assert(obj_lookup(s1 + s2 + s3 + s4 + s5, "isActive"@) is None);
    assert(obj_lookup(s1 + s2 + s3 + s4 + s5 + s6, "isActive"@) is None);
    assert(obj_lookup(s1 + s2 + s3 + s4 + s5 + s6 + s7, "isActive"@) is None);
    assert(obj_lookup(s1 + s2 + s3 + s4 + s5 + s6 + s7 + s8, "isActive"@) is None);
    assert(obj_lookup(s1 + s2 + s3 + s4 + s5 + s6 + s7 + s8 + s9, "isActive"@) is None);
    assert(obj_lookup(s1 + s2 + s3 + s4 + s5 + s6 + s7 + s8 + s9 + s10, "isActive"@) is None);
    assert(obj_lookup(s1 + s2 + s3 + s4 + s5 + s6 + s7 + s8 + s9 + s10 + s11, "isActive"@) is None);
    assert(obj_lookup(s1 + s2 + s3 + s4 + s5 + s6 + s7 + s8 + s9 + s10 + s11 + s12, "isActive"@) is None);
    assert(obj_lookup(s1 + s2 + s3 + s4 + s5 + s6 + s7 + s8 + s9 + s10 + s11 + s12 + s13, "isActive"@) == e_is_active);
    assert(obj_lookup(s1 + s2 + s3 + s4 + s5 + s6 + s7 + s8 + s9 + s10 + s11 + s12 + s13 + s14, "isActive"@) == e_is_active);
    assert(obj_lookup(s1 + s2 + s3 + s4 + s5 + s6 + s7 + s8 + s9 + s10 + s11 + s12 + s13 + s14 + s15, "isActive"@) == e_is_active);
    assert(obj_lookup(s1 + s2 + s3 + s4 + s5 + s6 + s7 + s8 + s9 + s10 + s11 + s12 + s13 + s14 + s15 + s16, "isActive"@) == e_is_active);
    assert(obj_lookup(s1 + s2 + s3 + s4 + s5 + s6 + s7 + s8 + s9 + s10 + s11 + s12 + s13 + s14 + s15 + s16 + s17, "isActive"@) == e_is_active);
    assert(obj_lookup(generate_response_members(v), "isActive"@) == e_is_active);
}

#[verifier::rlimit(100)]
proof fn lemma_generate_response_lookups_d(v: GenerateTemplateResponseV)
    ensures
        obj_lookup(generate_response_members(v), "fonts"@) == v.fonts,
        spec_opt_str(generate_response_members(v), "downloadUrl"@) == Some(v.download_url),
        spec_opt_str(generate_response_members(v), "message"@) == Some(v.message),
        spec_opt_str(generate_response_members(v), "error"@) == Some(v.error),
{
    reveal_strlit("id");
    reveal_strlit("name");
    reveal_strlit("description");
    reveal_strlit("templateId");
    reveal_strlit("projectspaceId");
    reveal_strlit("deliverableFolderId");
    reveal_strlit("metadata");
    reveal_strlit("createdBy");
    reveal_strlit("orgId");
    reveal_strlit("defaultFont");
    reveal_strlit("createdOn");
    reveal_strlit("updatedOn");
    reveal_strlit("isActive");
    reveal_strlit("fonts");
    reveal_strlit("downloadUrl");
    reveal_strlit("message");
    reveal_strlit("error");
    assert("id"@.len() == 2);
    assert("name"@.len() == 4);
    assert("description"@.len() == 11);
    assert("templateId"@.len() == 10);
    assert("projectspaceId"@.len() == 14);
    assert("deliverableFolderId"@.len() == 19);
    assert("metadata"@.len() == 8);
    assert("createdBy"@.len() == 9);
    assert("orgId"@.len() == 5);
    assert("defaultFont"@.len() == 11);
    assert("createdOn"@.len() == 9);
    assert("updatedOn"@.len() == 9);
    assert("isActive"@.len() == 8);
    assert("fonts"@.len() == 5);
    assert("downloadUrl"@.len() == 11);
    assert("message"@.len() == 7);
    assert("error"@.len() == 5);
    assert("description"@[1] == 'e');
    assert("defaultFont"@[1] == 'e');
    assert("downloadUrl"@[1] == 'o');
    assert("description"@[2] == 's');
    assert("defaultFont"@[2] == 'f');
    assert("createdBy"@[7] == 'B');
    assert("createdOn"@[7] == 'O');
    assert("updatedOn"@[0] == 'u');
    assert("createdBy"@[0] == 'c');
    assert("createdOn"@[0] == 'c');
    assert("metadata"@[0] == 'm');
    assert("isActive"@[0] == 'i');
    assert("orgId"@[0] == 'o');
    assert("fonts"@[0] == 'f');
    assert("error"@[0] == 'e');
    let s1 = opt_member_str("id"@, v.id);
    let s2 = opt_member_str("name"@, v.name);
    let s3 = opt_member_str("description"@, v.description);
    let s4 = opt_member_str("templateId"@, v.template_id);
    let s5 = opt_member_str("projectspaceId"@, v.projectspace_id);
    let s6 = opt_member_str("deliverableFolderId"@, v.deliverable_folder_id);
    let s7 = opt_member_json("metadata"@, opt_obj_json(v.metadata));
    let s8 = opt_member_str("createdBy"@, v.created_by);
    let s9 = opt_member_str("orgId"@, v.org_id);
    let s10 = opt_member_str("defaultFont"@, v.default_font);
    let s11 = opt_member_str("createdOn"@, v.created_on);
    let s12 = opt_member_str("updatedOn"@, v.updated_on);
    let s13 = crate::json::opt_member_i32("isActive"@, v.is_active);
    let s14 = opt_member_json("fonts"@, v.fonts);
    let s15 = opt_member_str("downloadUrl"@, v.download_url);
    let s16 = opt_member_str("message"@, v.message);
    let s17 = opt_member_str("error"@, v.error);
    lemma_lookup_opt_str("id"@, v.id);
    lemma_lookup_opt_str("name"@, v.name);
    lemma_lookup_opt_str("description"@, v.description);
    lemma_lookup_opt_str("templateId"@, v.template_id);
    lemma_lookup_opt_str("projectspaceId"@, v.projectspace_id);
    lemma_lookup_opt_str("deliverableFolderId"@, v.deliverable_folder_id);
    lemma_lookup_opt_json("metadata"@, opt_obj_json(v.metadata));
    lemma_lookup_opt_str("createdBy"@, v.created_by);
    lemma_lookup_opt_str("orgId"@, v.org_id);
    lemma_lookup_opt_str("defaultFont"@, v.default_font);
    lemma_lookup_opt_str("createdOn"@, v.created_on);
    lemma_lookup_opt_str("updatedOn"@, v.updated_on);
    crate::json::lemma_lookup_opt_i32("isActive"@, v.is_active);
    lemma_lookup_opt_json("fonts"@, v.fonts);
    lemma_lookup_opt_str("downloadUrl"@, v.download_url);
    lemma_lookup_opt_str("message"@, v.message);
    lemma_lookup_opt_str("error"@, v.error);
    lemma_lookup_concat(s1, s2);
    lemma_lookup_concat(s1 + s2, s3);
    lemma_lookup_concat(s1 + s2 + s3, s4);
    lemma_lookup_concat(s1 + s2 + s3 + s4, s5);
    lemma_lookup_concat(s1 + s2 + s3 + s4 + s5, s6);
    lemma_lookup_concat(s1 + s2 + s3 + s4 + s5 + s6, s7);
    lemma_lookup_concat(s1 + s2 + s3 + s4 + s5 + s6 + s7, s8);
    lemma_lookup_concat(s1 + s2 + s3 + s4 + s5 + s6 + s7 + s8, s9);
    lemma_lookup_concat(s1 + s2 + s3 + s4 + s5 + s6 + s7 + s8 + s9, s10);
    lemma_lookup_concat(s1 + s2 + s3 + s4 + s5 + s6 + s7 + s8 + s9 + s10, s11);
    lemma_lookup_concat(s1 + s2 + s3 + s4 + s5 + s6 + s7 + s8 + s9 + s10 + s11, s12);
    lemma_lookup_concat(s1 + s2 + s3 + s4 + s5 + s6 + s7 + s8 + s9 + s10 + s11 + s12, s13);
    lemma_lookup_concat(s1 + s2 + s3 + s4 + s5 + s6 + s7 + s8 + s9 + s10 + s11 + s12 + s13, s14);
    lemma_lookup_concat(s1 + s2 + s3 + s4 + s5 + s6 + s7 + s8 + s9 + s10 + s11 + s12 + s13 + s14, s15);
    lemma_lookup_concat(s1 + s2 + s3 + s4 + s5 + s6 + s7 + s8 + s9 + s10 + s11 + s12 + s13 + s14 + s15, s16);
    lemma_lookup_concat(s1 + s2 + s3 + s4 + s5 + s6 + s7 + s8 + s9 + s10 + s11 + s12 + s13 + s14 + s15 + s16, s17);
    let e_fonts: Option<Json> = v.fonts;
    assert(obj_lookup(s1, "fonts"@) is None);
    assert(obj_lookup(s1 + s2, "fonts"@) is None);
    assert(obj_lookup(s1 + s2 + s3, "fonts"@) is None);
    assert(obj_lookup(s1 + s2 + s3 + s4, "fonts"@) is None);
    assert(obj_lookup(s1 + s2 + s3 + s4 + s5, "fonts"@) is None);
    assert(obj_lookup(s1 + s2 + s3 + s4 + s5 + s6, "fonts"@) is None);
    assert(obj_lookup(s1 + s2 + s3 + s4 + s5 + s6 + s7, "fonts"@) is None);
    assert(obj_lookup(s1 + s2 + s3 + s4 + s5 + s6 + s7 + s8, "fonts"@) is None);
    assert(obj_lookup(s1 + s2 + s3 + s4 + s5 + s6 + s7 + s8 + s9, "fonts"@) is None);
    assert(obj_lookup(s1 + s2 + s3 + s4 + s5 + s6 + s7 + s8 + s9 + s10, "fonts"@) is None);
    assert(obj_lookup(s1 + s2 + s3 + s4 + s5 + s6 + s7 + s8 + s9 + s10 + s11, "fonts"@) is None);
    assert(obj_lookup(s1 + s2 + s3 + s4 + s5 + s6 + s7 + s8 + s9 + s10 + s11 + s12, "fonts"@) is None);
    assert(obj_lookup(s1 + s2 + s3 + s4 + s5 + s6 + s7 + s8 + s9 + s10 + s11 + s12 + s13, "fonts"@) is None);
    assert(obj_lookup(s1 + s2 + s3 + s4 + s5 + s6 + s7 + s8 + s9 + s10 + s11 + s12 + s13 + s14, "fonts"@) == e_fonts);
    assert(obj_lookup(s1 + s2 + s3 + s4 + s5 + s6 + s7 + s8 + s9 + s10 + s11 + s12 + s13 + s14 + s15, "fonts"@) == e_fonts);
    assert(obj_lookup(s1 + s2 + s3 + s4 + s5 + s6 + s7 + s8 + s9 + s10 + s11 + s12 + s13 + s14 + s15 + s16, "fonts"@) == e_fonts);
    assert(obj_lookup(s1 + s2 + s3 + s4 + s5 + s6 + s7 + s8 + s9 + s10 + s11 + s12 + s13 + s14 + s15 + s16 + s17, "fonts"@) == e_fonts);
    assert(obj_lookup(generate_response_members(v), "fonts"@) == e_fonts);
    let e_download_url: Option<Json> = match v.download_url { Some(s) => Some(Json::Str(s)), None => None::<Json> };
    assert(obj_lookup(s1, "downloadUrl"@) is None);
    assert(obj_lookup(s1 + s2, "downloadUrl"@) is None);
    assert(obj_lookup(s1 + s2 + s3, "downloadUrl"@) is None);
    assert(obj_lookup(s1 + s2 + s3 + s4, "downloadUrl"@) is None);
    assert(obj_lookup(s1 + s2 + s3 + s4 + s5, "downloadUrl"@) is None);
    assert(obj_lookup(s1 + s2 + s3 + s4 + s5 + s6, "downloadUrl"@) is None);
    assert(obj_lookup(s1 + s2 + s3 + s4 + s5 + s6 + s7, "downloadUrl"@) is None);
    assert(obj_lookup(s1 + s2 + s3 + s4 + s5 + s6 + s7 + s8, "downloadUrl"@) is None);
    assert(obj_lookup(s1 + s2 + s3 + s4 + s5 + s6 + s7 + s8 + s9, "downloadUrl"@) is None);
    assert(obj_lookup(s1 + s2 + s3 + s4 + s5 + s6 + s7 + s8 + s9 + s10, "downloadUrl"@) is None);
    assert(obj_lookup(s1 + s2 + s3 + s4 + s5 + s6 + s7 + s8 + s9 + s10 + s11, "downloadUrl"@) is None);
    assert(obj_lookup(s1 + s2 + s3 + s4 + s5 + s6 + s7 + s8 + s9 + s10 + s11 + s12, "downloadUrl"@) is None);
    assert(obj_lookup(s1 + s2 + s3 + s4 + s5 + s6 + s7 + s8 + s9 + s10 + s11 + s12 + s13, "downloadUrl"@) is None);
    assert(obj_lookup(s1 + s2 + s3 + s4 + s5 + s6 + s7 + s8 + s9 + s10 + s11 + s12 + s13 + s14, "downloadUrl"@) is None);
    assert(obj_lookup(s1 + s2 + s3 + s4 + s5 + s6 + s7 + s8 + s9 + s10 + s11 + s12 + s13 + s14 + s15, "downloadUrl"@) == e_download_url);
    assert(obj_lookup(s1 + s2 + s3 + s4 + s5 + s6 + s7 + s8 + s9 + s10 + s11 + s12 + s13 + s14 + s15 + s16, "downloadUrl"@) == e_download_url);
    assert(obj_lookup(s1 + s2 + s3 + s4 + s5 + s6 + s7 + s8 + s9 + s10 + s11 + s12 + s13 + s14 + s15 + s16 + s17, "downloadUrl"@) == e_download_url);
    assert(obj_lookup(generate_response_members(v), "downloadUrl"@) == e_download_url);
    let e_message: Option<Json> = match v.message { Some(s) => Some(Json::Str(s)), None => None::<Json> };
    assert(obj_lookup(s1, "message"@) is None);
    assert(obj_lookup(s1 + s2, "message"@) is None);
    assert(obj_lookup(s1 + s2 + s3, "message"@) is None);
    assert(obj_lookup(s1 + s2 + s3 + s4, "message"@) is None);
    assert(obj_lookup(s1 + s2 + s3 + s4 + s5, "message"@) is None);
    assert(obj_lookup(s1 + s2 + s3 + s4 + s5 + s6, "message"@) is None);
    assert(obj_lookup(s1 + s2 + s3 + s4 + s5 + s6 + s7, "message"@) is None);
    assert(obj_lookup(s1 + s2 + s3 + s4 + s5 + s6 + s7 + s8, "message"@) is None);
    assert(obj_lookup(s1 + s2 + s3 + s4 + s5 + s6 + s7 + s8 + s9, "message"@) is None);
    assert(obj_lookup(s1 + s2 + s3 + s4 + s5 + s6 + s7 + s8 + s9 + s10, "message"@) is None);
    assert(obj_lookup(s1 + s2 + s3 + s4 + s5 + s6 + s7 + s8 + s9 + s10 + s11, "message"@) is None);
    assert(obj_lookup(s1 + s2 + s3 + s4 + s5 + s6 + s7 + s8 + s9 + s10 + s11 + s12, "message"@) is None);
    assert(obj_lookup(s1 + s2 + s3 + s4 + s5 + s6 + s7 + s8 + s9 + s10 + s11 + s12 + s13, "message"@) is None);
    assert(obj_lookup(s1 + s2 + s3 + s4 + s5 + s6 + s7 + s8 + s9 + s10 + s11 + s12 + s13 + s14, "message"@) is None);
    assert(obj_lookup(s1 + s2 + s3 + s4 + s5 + s6 + s7 + s8 + s9 + s10 + s11 + s12 + s13 + s14 + s15, "message"@) is None);
    assert(obj_lookup(s1 + s2 + s3 + s4 + s5 + s6 + s7 + s8 + s9 + s10 + s11 + s12 + s13 + s14 + s15 + s16, "message"@) == e_message);
    assert(obj_lookup(s1 + s2 + s3 + s4 + s5 + s6 + s7 + s8 + s9 + s10 + s11 + s12 + s13 + s14 + s15 + s16 + s17, "message"@) == e_message);
    assert(obj_lookup(generate_response_members(v), "message"@) == e_message);
    let e_error: Option<Json> = match v.error { Some(s) => Some(Json::Str(s)), None => None::<Json> };
    assert(obj_lookup(s1, "error"@) is None);
    assert(obj_lookup(s1 + s2, "error"@) is None);
    assert(obj_lookup(s1 + s2 + s3, "error"@) is None);
    assert(obj_lookup(s1 + s2 + s3 + s4, "error"@) is None);
    assert(obj_lookup(s1 + s2 + s3 + s4 + s5, "error"@) is None);
    assert(obj_lookup(s1 + s2 + s3 + s4 + s5 + s6, "error"@) is None);
    assert(obj_lookup(s1 + s2 + s3 + s4 + s5 + s6 + s7, "error"@) is None);
    assert(obj_lookup(s1 + s2 + s3 + s4 + s5 + s6 + s7 + s8, "error"@) is None);
    assert(obj_lookup(s1 + s2 + s3 + s4 + s5 + s6 + s7 + s8 + s9, "error"@) is None);
    assert(obj_lookup(s1 + s2 + s3 + s4 + s5 + s6 + s7 + s8 + s9 + s10, "error"@) is None);
    assert(obj_lookup(s1 + s2 + s3 + s4 + s5 + s6 + s7 + s8 + s9 + s10 + s11, "error"@) is None);
    assert(obj_lookup(s1 + s2 + s3 + s4 + s5 + s6 + s7 + s8 + s9 + s10 + s11 + s12, "error"@) is None);
    assert(obj_lookup(s1 + s2 + s3 + s4 + s5 + s6 + s7 + s8 + s9 + s10 + s11 + s12 + s13, "error"@) is None);
    assert(obj_lookup(s1 + s2 + s3 + s4 + s5 + s6 + s7 + s8 + s9 + s10 + s11 + s12 + s13 + s14, "error"@) is None);
    assert(obj_lookup(s1 + s2 + s3 + s4 + s5 + s6 + s7 + s8 + s9 + s10 + s11 + s12 + s13 + s14 + s15, "error"@) is None);
    assert(obj_lookup(s1 + s2 + s3 + s4 + s5 + s6 + s7 + s8 + s9 + s10 + s11 + s12 + s13 + s14 + s15 + s16, "error"@) is None);
    assert(obj_lookup(s1 + s2 + s3 + s4 + s5 + s6 + s7 + s8 + s9 + s10 + s11 + s12 + s13 + s14 + s15 + s16 + s17, "error"@) == e_error);
    assert(obj_lookup(generate_response_members(v), "error"@) == e_error);
}

/// Round trip: encoding a generation response and decoding the result yields
/// the same value.
pub proof fn lemma_generate_response_roundtrip(v: GenerateTemplateResponseV)
    ensures
        generate_response_of_json(generate_response_json(v)) == Some(v),
{
    lemma_generate_response_lookups_a(v);
    lemma_generate_response_lookups_b(v);
    lemma_generate_response_lookups_c(v);
    lemma_generate_response_lookups_d(v);
}

} // verus!
