//! Request and response model for the e-signature service.
//!
//! Every type carries its wire encoding (`to_json`) and, where the service
//! answers with it or a round trip is meaningful, its decoding (`from_json`),
//! both pinned to spec-level functions on the `Json` model. Optional fields
//! are omitted from the encoded object entirely when unset.

use vstd::prelude::*;

use crate::json::Json;
use crate::json::JsonValue;
use crate::json::member;
use crate::json::obj_lookup;
use crate::json::spec_req_str;
use crate::json::spec_req_i64;
use crate::json::spec_opt_str;
use crate::json::spec_opt_bool;
use crate::json::opt_member_str;
use crate::json::opt_member_bool;
use crate::json::opt_member_json;
use crate::json::lemma_lookup_opt_str;
use crate::json::lemma_lookup_opt_bool;
use crate::json::lemma_lookup_opt_json;
use crate::json::push_opt_str;
use crate::json::push_opt_bool;
use crate::json::get_opt_str;
use crate::json::get_opt_bool;
use crate::json::get_req_i64;
use crate::json::opt_member_u32;
use crate::json::opt_member_i64;
use crate::json::spec_opt_u32;
use crate::json::spec_opt_i64;
use crate::json::lemma_lookup_opt_u32;
use crate::json::lemma_lookup_opt_i64;
use crate::json::push_opt_u32;
use crate::json::push_opt_i64;
use crate::json::get_opt_u32;
use crate::json::get_opt_i64;
use crate::json::bytes_json;
use crate::json::bytes_of_arr;
use crate::json::opt_member_str_arr;
use crate::json::spec_opt_str_arr;
use crate::json::lemma_view_of_items;
use crate::json::view_of_items;
use crate::json::lemma_lookup_opt_str_arr;
use crate::json::get_opt_str_arr;
use crate::json::bytes_to_json;
use crate::json::push_opt_str_arr;
use crate::json::spec_req_bool;
use crate::json::get_req_bool;
use crate::json::spec_opt_obj;
use crate::json::spec_req_u32;
use crate::json::lemma_lookup_concat;
use crate::json::lemma_lookup_member;
use crate::json::push_member;
use crate::json::get_req_str;
use crate::json::get_req_u32;
use crate::json::str_eq;
use crate::json::view_of_members;

verus! {

/// The kind of a signature field.
#[derive(Debug, Clone, Copy, PartialEq, Eq, Structural)]
pub enum SignatureFieldType {
    Signature,
    Initial,
    Date,
    Text,
    FullName,
    Title,
    Company,
    FirstName,
    LastName,
    Email,
    Checkbox,
}

impl SignatureFieldType {
    /// The snake_case string this kind is written as on the wire.
    pub open spec fn wire_chars(&self) -> Seq<char> {
        match self {
            SignatureFieldType::Signature => "signature"@,
            SignatureFieldType::Initial => "initial"@,
            SignatureFieldType::Date => "date"@,
            SignatureFieldType::Text => "text"@,
            SignatureFieldType::FullName => "full_name"@,
            SignatureFieldType::Title => "title"@,
            SignatureFieldType::Company => "company"@,
            SignatureFieldType::FirstName => "first_name"@,
            SignatureFieldType::LastName => "last_name"@,
            SignatureFieldType::Email => "email"@,
            SignatureFieldType::Checkbox => "checkbox"@,
        }
    }

    /// The exact wire name of this kind.
    pub fn wire_name(&self) -> (r: &'static str)
        ensures
            r@ == self.wire_chars(),
    {
        match self {
            SignatureFieldType::Signature => "signature",
            SignatureFieldType::Initial => "initial",
            SignatureFieldType::Date => "date",
            SignatureFieldType::Text => "text",
            SignatureFieldType::FullName => "full_name",
            SignatureFieldType::Title => "title",
            SignatureFieldType::Company => "company",
            SignatureFieldType::FirstName => "first_name",
            SignatureFieldType::LastName => "last_name",
            SignatureFieldType::Email => "email",
            SignatureFieldType::Checkbox => "checkbox",
        }
    }

    /// The kind a wire name stands for, if any.
    pub open spec fn spec_of_wire(s: Seq<char>) -> Option<SignatureFieldType> {
        if s == "signature"@ {
            Some(SignatureFieldType::Signature)
        } else if s == "initial"@ {
            Some(SignatureFieldType::Initial)
        } else if s == "date"@ {
            Some(SignatureFieldType::Date)
        } else if s == "text"@ {
            Some(SignatureFieldType::Text)
        } else if s == "full_name"@ {
            Some(SignatureFieldType::FullName)
        } else if s == "title"@ {
            Some(SignatureFieldType::Title)
        } else if s == "company"@ {
            Some(SignatureFieldType::Company)
        } else if s == "first_name"@ {
            Some(SignatureFieldType::FirstName)
        } else if s == "last_name"@ {
            Some(SignatureFieldType::LastName)
        } else if s == "email"@ {
            Some(SignatureFieldType::Email)
        } else if s == "checkbox"@ {
            Some(SignatureFieldType::Checkbox)
        } else {
            None
        }
    }

    /// Parse a wire name back into the kind it stands for.
    pub fn of_wire(s: &str) -> (r: Option<SignatureFieldType>)
        ensures
            r == Self::spec_of_wire(s@),
    {
        if str_eq(s, "signature") {
            Some(SignatureFieldType::Signature)
        } else if str_eq(s, "initial") {
            Some(SignatureFieldType::Initial)
        } else if str_eq(s, "date") {
            Some(SignatureFieldType::Date)
        } else if str_eq(s, "text") {
            Some(SignatureFieldType::Text)
        } else if str_eq(s, "full_name") {
            Some(SignatureFieldType::FullName)
        } else if str_eq(s, "title") {
            Some(SignatureFieldType::Title)
        } else if str_eq(s, "company") {
            Some(SignatureFieldType::Company)
        } else if str_eq(s, "first_name") {
            Some(SignatureFieldType::FirstName)
        } else if str_eq(s, "last_name") {
            Some(SignatureFieldType::LastName)
        } else if str_eq(s, "email") {
            Some(SignatureFieldType::Email)
        } else if str_eq(s, "checkbox") {
            Some(SignatureFieldType::Checkbox)
        } else {
            None
        }
    }
}

/// Writing a field kind to the wire and reading it back yields the kind.
pub proof fn lemma_field_type_wire_roundtrip(t: SignatureFieldType)
    ensures
        SignatureFieldType::spec_of_wire(t.wire_chars()) == Some(t),
{
    reveal_strlit("signature");
    reveal_strlit("initial");
    reveal_strlit("date");
    reveal_strlit("text");
    reveal_strlit("full_name");
    reveal_strlit("title");
    reveal_strlit("company");
    reveal_strlit("first_name");
    reveal_strlit("last_name");
    reveal_strlit("email");
    reveal_strlit("checkbox");
    assert("signature"@.len() == 9);
    assert("initial"@.len() == 7);
    assert("date"@.len() == 4);
    assert("text"@.len() == 4);
    assert("full_name"@.len() == 9);
    assert("title"@.len() == 5);
    assert("company"@.len() == 7);
    assert("first_name"@.len() == 10);
    assert("last_name"@.len() == 9);
    assert("email"@.len() == 5);
    assert("checkbox"@.len() == 8);
    assert("signature"@[0] == 's');
    assert("initial"@[0] == 'i');
    assert("date"@[0] == 'd');
    assert("text"@[0] == 't');
    assert("full_name"@[0] == 'f');
    assert("title"@[0] == 't');
    assert("company"@[0] == 'c');
    assert("last_name"@[0] == 'l');
    assert("email"@[0] == 'e');
    match t {
        SignatureFieldType::Signature => {
        },
        SignatureFieldType::Initial => {
            assert("initial"@ != "signature"@);
        },
        SignatureFieldType::Date => {
            assert("date"@ != "signature"@);
            assert("date"@ != "initial"@);
        },
        SignatureFieldType::Text => {
            assert("text"@ != "signature"@);
            assert("text"@ != "initial"@);
            assert("text"@ != "date"@);
        },
        SignatureFieldType::FullName => {
            assert("full_name"@ != "signature"@);
            assert("full_name"@ != "initial"@);
            assert("full_name"@ != "date"@);
            assert("full_name"@ != "text"@);
        },
        SignatureFieldType::Title => {
            assert("title"@ != "signature"@);
            assert("title"@ != "initial"@);
            assert("title"@ != "date"@);
            assert("title"@ != "text"@);
            assert("title"@ != "full_name"@);
        },
        SignatureFieldType::Company => {
            assert("company"@ != "signature"@);
            assert("company"@ != "initial"@);
            assert("company"@ != "date"@);
            assert("company"@ != "text"@);
            assert("company"@ != "full_name"@);
            assert("company"@ != "title"@);
        },
        SignatureFieldType::FirstName => {
            assert("first_name"@ != "signature"@);
            assert("first_name"@ != "initial"@);
            assert("first_name"@ != "date"@);
            assert("first_name"@ != "text"@);
            assert("first_name"@ != "full_name"@);
            assert("first_name"@ != "title"@);
            assert("first_name"@ != "company"@);
        },
        SignatureFieldType::LastName => {
            assert("last_name"@ != "signature"@);
            assert("last_name"@ != "initial"@);
            assert("last_name"@ != "date"@);
            assert("last_name"@ != "text"@);
            assert("last_name"@ != "full_name"@);
            assert("last_name"@ != "title"@);
            assert("last_name"@ != "company"@);
            assert("last_name"@ != "first_name"@);
        },
        SignatureFieldType::Email => {
            assert("email"@ != "signature"@);
            assert("email"@ != "initial"@);
            assert("email"@ != "date"@);
            assert("email"@ != "text"@);
            assert("email"@ != "full_name"@);
            assert("email"@ != "title"@);
            assert("email"@ != "company"@);
            assert("email"@ != "first_name"@);
            assert("email"@ != "last_name"@);
        },
        SignatureFieldType::Checkbox => {
            assert("checkbox"@ != "signature"@);
            assert("checkbox"@ != "initial"@);
            assert("checkbox"@ != "date"@);
            assert("checkbox"@ != "text"@);
            assert("checkbox"@ != "full_name"@);
            assert("checkbox"@ != "title"@);
            assert("checkbox"@ != "company"@);
            assert("checkbox"@ != "first_name"@);
            assert("checkbox"@ != "last_name"@);
            assert("checkbox"@ != "email"@);
        },
    }
}

/// Where a field is placed relative to its anchor text.
#[derive(Debug, Clone, Copy, PartialEq, Eq, Structural)]
pub enum Placement {
    Replace,
    Before,
    After,
    Above,
    Below,
}

impl Placement {
    /// The lowercase string this placement is written as on the wire.
    pub open spec fn wire_chars(&self) -> Seq<char> {
        match self {
            Placement::Replace => "replace"@,
            Placement::Before => "before"@,
            Placement::After => "after"@,
            Placement::Above => "above"@,
            Placement::Below => "below"@,
        }
    }

    /// The exact wire name of this placement.
    pub fn wire_name(&self) -> (r: &'static str)
        ensures
            r@ == self.wire_chars(),
    {
        match self {
            Placement::Replace => "replace",
            Placement::Before => "before",
            Placement::After => "after",
            Placement::Above => "above",
            Placement::Below => "below",
        }
    }

    /// The placement a wire name stands for, if any.
    pub open spec fn spec_of_wire(s: Seq<char>) -> Option<Placement> {
        if s == "replace"@ {
            Some(Placement::Replace)
        } else if s == "before"@ {
            Some(Placement::Before)
        } else if s == "after"@ {
            Some(Placement::After)
        } else if s == "above"@ {
            Some(Placement::Above)
        } else if s == "below"@ {
            Some(Placement::Below)
        } else {
            None
        }
    }

    /// Parse a wire name back into the placement it stands for.
    pub fn of_wire(s: &str) -> (r: Option<Placement>)
        ensures
            r == Self::spec_of_wire(s@),
    {
        if str_eq(s, "replace") {
            Some(Placement::Replace)
        } else if str_eq(s, "before") {
            Some(Placement::Before)
        } else if str_eq(s, "after") {
            Some(Placement::After)
        } else if str_eq(s, "above") {
            Some(Placement::Above)
        } else if str_eq(s, "below") {
            Some(Placement::Below)
        } else {
            None
        }
    }
}

/// Writing a placement to the wire and reading it back yields the placement.
pub proof fn lemma_placement_wire_roundtrip(p: Placement)
    ensures
        Placement::spec_of_wire(p.wire_chars()) == Some(p),
{
    reveal_strlit("replace");
    reveal_strlit("before");
    reveal_strlit("after");
    reveal_strlit("above");
    reveal_strlit("below");
    assert("replace"@.len() == 7);
    assert("before"@.len() == 6);
    assert("after"@.len() == 5);
    assert("above"@.len() == 5);
    assert("below"@.len() == 5);
    assert("after"@[0] == 'a');
    assert("above"@[0] == 'a');
    assert("below"@[0] == 'b');
    assert("after"@[1] == 'f');
    assert("above"@[1] == 'b');
    match p {
        Placement::Replace => {
        },
        Placement::Before => {
            assert("before"@ != "replace"@);
        },
        Placement::After => {
            assert("after"@ != "replace"@);
            assert("after"@ != "before"@);
        },
        Placement::Above => {
            assert("above"@ != "replace"@);
            assert("above"@ != "before"@);
            assert("above"@ != "after"@);
        },
        Placement::Below => {
            assert("below"@ != "replace"@);
            assert("below"@ != "before"@);
            assert("below"@ != "after"@);
            assert("below"@ != "above"@);
        },
    }
}

/// Mathematical model of a `Recipient`.
pub struct RecipientV {
    pub name: Seq<char>,
    pub email: Seq<char>,
    pub signing_order: u32,
}

/// One signer of a document.
#[derive(Debug, Clone, PartialEq)]
pub struct Recipient {
    /// Full name of the signer.
    pub name: String,
    /// Email address the signature request is sent to.
    pub email: String,
    /// Position in the signing sequence, starting at 1.
    pub signing_order: u32,
}

impl DeepView for Recipient {
    type V = RecipientV;

    open spec fn deep_view(&self) -> RecipientV {
        RecipientV { name: self.name@, email: self.email@, signing_order: self.signing_order }
    }
}

/// The wire object of a recipient.
pub open spec fn recipient_json(v: RecipientV) -> Json {
    Json::Obj(
        member("name"@, Json::Str(v.name)) + member("email"@, Json::Str(v.email)) + member(
            "signingOrder"@,
            Json::Int(v.signing_order as int),
        ),
    )
}

/// The recipient a wire object stands for, if it is well shaped.
pub open spec fn recipient_of_json(j: Json) -> Option<RecipientV> {
    match j {
        Json::Obj(ms) => match (spec_req_str(ms, "name"@), spec_req_str(ms, "email"@),
        spec_req_u32(ms, "signingOrder"@)) {
            (Some(name), Some(email), Some(signing_order)) => Some(
                RecipientV { name, email, signing_order },
            ),
            _ => None,
        },
        _ => None,
    }
}

impl Recipient {
    /// A recipient with the given name, email and signing position.
    pub fn new(name: &str, email: &str, signing_order: u32) -> (r: Recipient)
        ensures
            r.deep_view() == (RecipientV { name: name@, email: email@, signing_order }),
    {
        Recipient { name: name.to_owned(), email: email.to_owned(), signing_order }
    }

    /// Encode to the wire object.
    pub fn to_json(&self) -> (j: JsonValue)
        ensures
            j@ == recipient_json(self.deep_view()),
    {
        let mut ms: Vec<(String, JsonValue)> = Vec::new();
        push_member(&mut ms, "name", JsonValue::Str(self.name.clone()));
        push_member(&mut ms, "email", JsonValue::Str(self.email.clone()));
        push_member(&mut ms, "signingOrder", JsonValue::Int(self.signing_order as i64));
        proof {
            assert(view_of_members(ms@) =~= member("name"@, Json::Str(self.name@)) + member(
                "email"@,
                Json::Str(self.email@),
            ) + member("signingOrder"@, Json::Int(self.signing_order as int)));
        }
        JsonValue::Obj(ms)
    }

    /// Decode from a wire object.
    pub fn from_json(j: &JsonValue) -> (r: Option<Recipient>)
        ensures
            r.deep_view() == recipient_of_json(j@),
    {
        match j {
            JsonValue::Obj(ms) => {
                let name = get_req_str(ms, "name");
                let email = get_req_str(ms, "email");
                let signing_order = get_req_u32(ms, "signingOrder");
                match (name, email, signing_order) {
                    (Some(name), Some(email), Some(signing_order)) => Some(
                        Recipient { name, email, signing_order },
                    ),
                    _ => None,
                }
            },
            _ => None,
        }
    }
}

/// Round trip: encoding a recipient and decoding the result yields the same
/// recipient.
pub proof fn lemma_recipient_roundtrip(v: RecipientV)
    ensures
        recipient_of_json(recipient_json(v)) == Some(v),
{
    reveal_strlit("name");
    reveal_strlit("email");
    reveal_strlit("signingOrder");
    let m1 = member("name"@, Json::Str(v.name));
    let m2 = member("email"@, Json::Str(v.email));
    let m3 = member("signingOrder"@, Json::Int(v.signing_order as int));
    lemma_lookup_member("name"@, Json::Str(v.name));
    lemma_lookup_member("email"@, Json::Str(v.email));
    lemma_lookup_member("signingOrder"@, Json::Int(v.signing_order as int));
    lemma_lookup_concat(m1, m2);
    lemma_lookup_concat(m1 + m2, m3);
    assert("name"@.len() == 4);
    assert("email"@.len() == 5);
    assert("signingOrder"@.len() == 12);
    assert("name"@ != "email"@);
    assert("name"@ != "signingOrder"@);
    assert("email"@ != "signingOrder"@);
    assert(obj_lookup(m1 + m2 + m3, "name"@) == Some(Json::Str(v.name)));
    assert(obj_lookup(m1 + m2 + m3, "email"@) == Some(Json::Str(v.email)));
    assert(obj_lookup(m1 + m2 + m3, "signingOrder"@) == Some(Json::Int(v.signing_order as int)));
}

/// Mathematical model of a `FieldSize`.
pub struct FieldSizeV {
    pub width: i64,
    pub height: i64,
}

/// Size of a field, in pixels.
#[derive(Debug, Clone, PartialEq)]
pub struct FieldSize {
    pub width: i64,
    pub height: i64,
}

impl DeepView for FieldSize {
    type V = FieldSizeV;

    open spec fn deep_view(&self) -> FieldSizeV {
        FieldSizeV { width: self.width, height: self.height }
    }
}

pub open spec fn size_json(v: FieldSizeV) -> Json {
    Json::Obj(
        member("width"@, Json::Int(v.width as int)) + member("height"@, Json::Int(v.height as int)),
    )
}

pub open spec fn size_of_json(j: Json) -> Option<FieldSizeV> {
    match j {
        Json::Obj(ms) => match (spec_req_i64(ms, "width"@), spec_req_i64(ms, "height"@)) {
            (Some(width), Some(height)) => Some(FieldSizeV { width, height }),
            _ => None,
        },
        _ => None,
    }
}

impl FieldSize {
    /// Encode to the wire object.
    pub fn to_json(&self) -> (j: JsonValue)
        ensures
            j@ == size_json(self.deep_view()),
    {
        let mut ms: Vec<(String, JsonValue)> = Vec::new();
        push_member(&mut ms, "width", JsonValue::Int(self.width));
        push_member(&mut ms, "height", JsonValue::Int(self.height));
        proof {
            assert(view_of_members(ms@) =~= member("width"@, Json::Int(self.width as int))
                + member("height"@, Json::Int(self.height as int)));
        }
        JsonValue::Obj(ms)
    }

    /// Decode from a wire object.
    pub fn from_json(j: &JsonValue) -> (r: Option<FieldSize>)
        ensures
            r.deep_view() == size_of_json(j@),
    {
        match j {
            JsonValue::Obj(ms) => match (get_req_i64(ms, "width"), get_req_i64(ms, "height")) {
                (Some(width), Some(height)) => Some(FieldSize { width, height }),
                _ => None,
            },
            _ => None,
        }
    }
}

/// Round trip: encoding a field size and decoding the result yields the same
/// size.
pub proof fn lemma_size_roundtrip(v: FieldSizeV)
    ensures
        size_of_json(size_json(v)) == Some(v),
{
    reveal_strlit("width");
    reveal_strlit("height");
    assert("width"@.len() == 5);
    assert("height"@.len() == 6);
    let m1 = member("width"@, Json::Int(v.width as int));
    let m2 = member("height"@, Json::Int(v.height as int));
    lemma_lookup_member("width"@, Json::Int(v.width as int));
    lemma_lookup_member("height"@, Json::Int(v.height as int));
    lemma_lookup_concat(m1, m2);
    assert(obj_lookup(m1 + m2, "width"@) == Some(Json::Int(v.width as int)));
    assert(obj_lookup(m1 + m2, "height"@) == Some(Json::Int(v.height as int)));
}

/// Mathematical model of a `FieldOffset`.
pub struct FieldOffsetV {
    pub x: i64,
    pub y: i64,
}

/// Offset of a field from its anchor position, in pixels.
#[derive(Debug, Clone, PartialEq)]
pub struct FieldOffset {
    pub x: i64,
    pub y: i64,
}

impl DeepView for FieldOffset {
    type V = FieldOffsetV;

    open spec fn deep_view(&self) -> FieldOffsetV {
        FieldOffsetV { x: self.x, y: self.y }
    }
}

pub open spec fn offset_json(v: FieldOffsetV) -> Json {
    Json::Obj(member("x"@, Json::Int(v.x as int)) + member("y"@, Json::Int(v.y as int)))
}

pub open spec fn offset_of_json(j: Json) -> Option<FieldOffsetV> {
    match j {
        Json::Obj(ms) => match (spec_req_i64(ms, "x"@), spec_req_i64(ms, "y"@)) {
            (Some(x), Some(y)) => Some(FieldOffsetV { x, y }),
            _ => None,
        },
        _ => None,
    }
}

impl FieldOffset {
    /// Encode to the wire object.
    pub fn to_json(&self) -> (j: JsonValue)
        ensures
            j@ == offset_json(self.deep_view()),
    {
        let mut ms: Vec<(String, JsonValue)> = Vec::new();
        push_member(&mut ms, "x", JsonValue::Int(self.x));
        push_member(&mut ms, "y", JsonValue::Int(self.y));
        proof {
            assert(view_of_members(ms@) =~= member("x"@, Json::Int(self.x as int)) + member(
                "y"@,
                Json::Int(self.y as int),
            ));
        }
        JsonValue::Obj(ms)
    }

    /// Decode from a wire object.
    pub fn from_json(j: &JsonValue) -> (r: Option<FieldOffset>)
        ensures
            r.deep_view() == offset_of_json(j@),
    {
        match j {
            JsonValue::Obj(ms) => match (get_req_i64(ms, "x"), get_req_i64(ms, "y")) {
                (Some(x), Some(y)) => Some(FieldOffset { x, y }),
                _ => None,
            },
            _ => None,
        }
    }
}

/// Round trip: encoding an offset and decoding the result yields the same
/// offset.
pub proof fn lemma_offset_roundtrip(v: FieldOffsetV)
    ensures
        offset_of_json(offset_json(v)) == Some(v),
{
    reveal_strlit("x");
    reveal_strlit("y");
    assert("x"@[0] == 'x');
    assert("y"@[0] == 'y');
    let m1 = member("x"@, Json::Int(v.x as int));
    let m2 = member("y"@, Json::Int(v.y as int));
    lemma_lookup_member("x"@, Json::Int(v.x as int));
    lemma_lookup_member("y"@, Json::Int(v.y as int));
    lemma_lookup_concat(m1, m2);
    assert(obj_lookup(m1 + m2, "x"@) == Some(Json::Int(v.x as int)));
    assert(obj_lookup(m1 + m2, "y"@) == Some(Json::Int(v.y as int)));
}

/// Mathematical model of a `TemplateAnchor`.
pub struct TemplateAnchorV {
    pub anchor: Option<Seq<char>>,
    pub search_text: Option<Seq<char>>,
    pub placement: Option<Placement>,
    pub size: Option<FieldSizeV>,
    pub offset: Option<FieldOffsetV>,
    pub case_sensitive: Option<bool>,
    pub use_regex: Option<bool>,
}

/// Anchor-based placement of a signature field: the field is put where a
/// marker text or a searched text occurs in the document.
#[derive(Debug, Clone, PartialEq)]
pub struct TemplateAnchor {
    /// Marker text such as `{SignHere}`.
    pub anchor: Option<String>,
    /// Alternative to `anchor`: any text to search for.
    pub search_text: Option<String>,
    /// Where the field goes relative to the anchor text.
    pub placement: Option<Placement>,
    /// Field size override.
    pub size: Option<FieldSize>,
    /// Offset from the anchor position.
    pub offset: Option<FieldOffset>,
    /// Case sensitive search; the service defaults to false.
    pub case_sensitive: Option<bool>,
    /// Treat the anchor text as a regular expression; defaults to false.
    pub use_regex: Option<bool>,
}

impl DeepView for TemplateAnchor {
    type V = TemplateAnchorV;

    open spec fn deep_view(&self) -> TemplateAnchorV {
        TemplateAnchorV {
            anchor: self.anchor.deep_view(),
            search_text: self.search_text.deep_view(),
            placement: self.placement,
            size: match self.size {
                Some(s) => Some(s.deep_view()),
                None => None,
            },
            offset: match self.offset {
                Some(o) => Some(o.deep_view()),
                None => None,
            },
            case_sensitive: self.case_sensitive,
            use_regex: self.use_regex,
        }
    }
}

pub open spec fn opt_placement_chars(p: Option<Placement>) -> Option<Seq<char>> {
    match p {
        Some(p) => Some(p.wire_chars()),
        None => None,
    }
}

pub open spec fn opt_size_json(s: Option<FieldSizeV>) -> Option<Json> {
    match s {
        Some(s) => Some(size_json(s)),
        None => None,
    }
}

pub open spec fn opt_offset_json(o: Option<FieldOffsetV>) -> Option<Json> {
    match o {
        Some(o) => Some(offset_json(o)),
        None => None,
    }
}

/// The wire object of a template anchor; unset fields contribute no member.
pub open spec fn anchor_json(v: TemplateAnchorV) -> Json {
    Json::Obj(
        opt_member_str("anchor"@, v.anchor) + opt_member_str("searchText"@, v.search_text)
            + opt_member_str("placement"@, opt_placement_chars(v.placement)) + opt_member_json(
            "size"@,
            opt_size_json(v.size),
        ) + opt_member_json("offset"@, opt_offset_json(v.offset)) + opt_member_bool(
            "caseSensitive"@,
            v.case_sensitive,
        ) + opt_member_bool("useRegex"@, v.use_regex),
    )
}

pub open spec fn spec_opt_placement(ms: Seq<(Seq<char>, Json)>) -> Option<Option<Placement>> {
    match spec_opt_str(ms, "placement"@) {
        Some(None) => Some(None),
        Some(Some(s)) => match Placement::spec_of_wire(s) {
            Some(p) => Some(Some(p)),
            None => None,
        },
        None => None,
    }
}

pub open spec fn spec_opt_size(ms: Seq<(Seq<char>, Json)>) -> Option<Option<FieldSizeV>> {
    match obj_lookup(ms, "size"@) {
        None => Some(None),
        Some(j) => match size_of_json(j) {
            Some(s) => Some(Some(s)),
            None => None,
        },
    }
}

pub open spec fn spec_opt_offset(ms: Seq<(Seq<char>, Json)>) -> Option<Option<FieldOffsetV>> {
    match obj_lookup(ms, "offset"@) {
        None => Some(None),
        Some(j) => match offset_of_json(j) {
            Some(o) => Some(Some(o)),
            None => None,
        },
    }
}

/// The template anchor a wire object stands for, if it is well shaped.
pub open spec fn anchor_of_json(j: Json) -> Option<TemplateAnchorV> {
    match j {
        Json::Obj(ms) => match (spec_opt_str(ms, "anchor"@), spec_opt_str(ms, "searchText"@),
        spec_opt_placement(ms), spec_opt_size(ms), spec_opt_offset(ms), spec_opt_bool(
            ms,
            "caseSensitive"@,
        ), spec_opt_bool(ms, "useRegex"@)) {
            (
                Some(anchor),
                Some(search_text),
                Some(placement),
                Some(size),
                Some(offset),
                Some(case_sensitive),
                Some(use_regex),
            ) => Some(
                TemplateAnchorV {
                    anchor,
                    search_text,
                    placement,
                    size,
                    offset,
                    case_sensitive,
                    use_regex,
                },
            ),
            _ => None,
        },
        _ => None,
    }
}

impl TemplateAnchor {
    /// Encode to the wire object; unset fields are omitted.
    pub fn to_json(&self) -> (j: JsonValue)
        ensures
            j@ == anchor_json(self.deep_view()),
    {
        let mut ms: Vec<(String, JsonValue)> = Vec::new();
        push_opt_str(&mut ms, "anchor", &self.anchor);
        push_opt_str(&mut ms, "searchText", &self.search_text);
        match &self.placement {
            Some(p) => push_member(&mut ms, "placement", JsonValue::Str(p.wire_name().to_owned())),
            None => (),
        }
        match &self.size {
            Some(s) => push_member(&mut ms, "size", s.to_json()),
            None => (),
        }
        match &self.offset {
            Some(o) => push_member(&mut ms, "offset", o.to_json()),
            None => (),
        }
        push_opt_bool(&mut ms, "caseSensitive", &self.case_sensitive);
        push_opt_bool(&mut ms, "useRegex", &self.use_regex);
        proof {
            let v = self.deep_view();
            assert(view_of_members(ms@) =~= opt_member_str("anchor"@, v.anchor) + opt_member_str(
                "searchText"@,
                v.search_text,
            ) + opt_member_str("placement"@, opt_placement_chars(v.placement)) + opt_member_json(
                "size"@,
                opt_size_json(v.size),
            ) + opt_member_json("offset"@, opt_offset_json(v.offset)) + opt_member_bool(
                "caseSensitive"@,
                v.case_sensitive,
            ) + opt_member_bool("useRegex"@, v.use_regex));
        }
        JsonValue::Obj(ms)
    }

    /// Decode from a wire object.
    pub fn from_json(j: &JsonValue) -> (r: Option<TemplateAnchor>)
        ensures
            r.deep_view() == anchor_of_json(j@),
    {
        let ms = match j {
            JsonValue::Obj(ms) => ms,
            _ => {
                return None;
            },
        };
        let anchor = match get_opt_str(ms, "anchor") {
            Some(v) => v,
            None => {
                return None;
            },
        };
        let search_text = match get_opt_str(ms, "searchText") {
            Some(v) => v,
            None => {
                return None;
            },
        };
        let placement = match get_opt_str(ms, "placement") {
            Some(None) => None,
            Some(Some(s)) => match Placement::of_wire(s.as_str()) {
                Some(p) => Some(p),
                None => {
                    return None;
                },
            },
            None => {
                return None;
            },
        };
        let size = match crate::json::obj_get(ms, "size") {
            None => None,
            Some(v) => match FieldSize::from_json(v) {
                Some(s) => Some(s),
                None => {
                    return None;
                },
            },
        };
        let offset = match crate::json::obj_get(ms, "offset") {
            None => None,
            Some(v) => match FieldOffset::from_json(v) {
                Some(o) => Some(o),
                None => {
                    return None;
                },
            },
        };
        let case_sensitive = match get_opt_bool(ms, "caseSensitive") {
            Some(v) => v,
            None => {
                return None;
            },
        };
        let use_regex = match get_opt_bool(ms, "useRegex") {
            Some(v) => v,
            None => {
                return None;
            },
        };
        Some(
            TemplateAnchor {
                anchor,
                search_text,
                placement,
                size,
                offset,
                case_sensitive,
                use_regex,
            },
        )
    }
}

/// Round trip: encoding a template anchor and decoding the result yields the
/// same anchor.
pub proof fn lemma_anchor_roundtrip(v: TemplateAnchorV)
    ensures
        anchor_of_json(anchor_json(v)) == Some(v),
{
    reveal_strlit("anchor");
    reveal_strlit("searchText");
    reveal_strlit("placement");
    reveal_strlit("size");
    reveal_strlit("offset");
    reveal_strlit("caseSensitive");
    reveal_strlit("useRegex");
    assert("anchor"@.len() == 6);
    assert("searchText"@.len() == 10);
    assert("placement"@.len() == 9);
    assert("size"@.len() == 4);
    assert("offset"@.len() == 6);
    assert("caseSensitive"@.len() == 13);
    assert("useRegex"@.len() == 8);
    assert("anchor"@[0] == 'a');
    assert("offset"@[0] == 'o');
    let s1 = opt_member_str("anchor"@, v.anchor);
    let s2 = opt_member_str("searchText"@, v.search_text);
    let s3 = opt_member_str("placement"@, opt_placement_chars(v.placement));
    let s4 = opt_member_json("size"@, opt_size_json(v.size));
    let s5 = opt_member_json("offset"@, opt_offset_json(v.offset));
    let s6 = opt_member_bool("caseSensitive"@, v.case_sensitive);
    let s7 = opt_member_bool("useRegex"@, v.use_regex);
    lemma_lookup_opt_str("anchor"@, v.anchor);
    lemma_lookup_opt_str("searchText"@, v.search_text);
    lemma_lookup_opt_str("placement"@, opt_placement_chars(v.placement));
    lemma_lookup_opt_json("size"@, opt_size_json(v.size));
    lemma_lookup_opt_json("offset"@, opt_offset_json(v.offset));
    lemma_lookup_opt_bool("caseSensitive"@, v.case_sensitive);
    lemma_lookup_opt_bool("useRegex"@, v.use_regex);
    lemma_lookup_concat(s1, s2);
    lemma_lookup_concat(s1 + s2, s3);
    lemma_lookup_concat(s1 + s2 + s3, s4);
    lemma_lookup_concat(s1 + s2 + s3 + s4, s5);
    lemma_lookup_concat(s1 + s2 + s3 + s4 + s5, s6);
    lemma_lookup_concat(s1 + s2 + s3 + s4 + s5 + s6, s7);
    match v.placement {
        Some(p) => {
            lemma_placement_wire_roundtrip(p);
        },
        None => (),
    }
    match v.size {
        Some(s) => {
            lemma_size_roundtrip(s);
        },
        None => (),
    }
    match v.offset {
        Some(o) => {
            lemma_offset_roundtrip(o);
        },
        None => (),
    }
}

/// Mathematical model of a `Field`.
pub struct FieldV {
    pub field_type: SignatureFieldType,
    pub page: Option<u32>,
    pub x: Option<i64>,
    pub y: Option<i64>,
    pub width: Option<i64>,
    pub height: Option<i64>,
    pub recipient_email: Seq<char>,
    pub default_value: Option<Seq<char>>,
    pub is_multiline: Option<bool>,
    pub is_readonly: Option<bool>,
    pub required: Option<bool>,
    pub background_color: Option<Seq<char>>,
    pub template: Option<TemplateAnchorV>,
}

/// One signature field of a document. A field is placed either by absolute
/// coordinates (`page`, `x`, `y`, `width`, `height`) or by a template anchor
/// (`template`); the two modes are not meant to be mixed.
#[derive(Debug, Clone, PartialEq)]
pub struct Field {
    /// The kind of the field.
    pub field_type: SignatureFieldType,
    /// Page number, starting at 1; set on the coordinate path.
    pub page: Option<u32>,
    /// Horizontal position in pixels.
    pub x: Option<i64>,
    /// Vertical position in pixels.
    pub y: Option<i64>,
    /// Width in pixels.
    pub width: Option<i64>,
    /// Height in pixels.
    pub height: Option<i64>,
    /// Email of the recipient who fills this field.
    pub recipient_email: String,
    /// Preset value; for a checkbox, "true" or "false".
    pub default_value: Option<String>,
    /// Whether a text field spans several lines.
    pub is_multiline: Option<bool>,
    /// Whether the field is read-only.
    pub is_readonly: Option<bool>,
    /// Whether the field must be filled.
    pub required: Option<bool>,
    /// Background color, as hex, rgb or a color name.
    pub background_color: Option<String>,
    /// Anchor-based placement; set on the anchor path.
    pub template: Option<TemplateAnchor>,
}

impl DeepView for Field {
    type V = FieldV;

    open spec fn deep_view(&self) -> FieldV {
        FieldV {
            field_type: self.field_type,
            page: self.page,
            x: self.x,
            y: self.y,
            width: self.width,
            height: self.height,
            recipient_email: self.recipient_email@,
            default_value: self.default_value.deep_view(),
            is_multiline: self.is_multiline,
            is_readonly: self.is_readonly,
            required: self.required,
            background_color: self.background_color.deep_view(),
            template: match self.template {
                Some(t) => Some(t.deep_view()),
                None => None,
            },
        }
    }
}

pub open spec fn opt_anchor_json(t: Option<TemplateAnchorV>) -> Option<Json> {
    match t {
        Some(t) => Some(anchor_json(t)),
        None => None,
    }
}

/// The wire object of a field; unset fields contribute no member.
pub open spec fn field_json(v: FieldV) -> Json {
    Json::Obj(
        member("type"@, Json::Str(v.field_type.wire_chars())) + opt_member_u32("page"@, v.page)
            + opt_member_i64("x"@, v.x) + opt_member_i64("y"@, v.y) + opt_member_i64(
            "width"@,
            v.width,
        ) + opt_member_i64("height"@, v.height) + member(
            "recipientEmail"@,
            Json::Str(v.recipient_email),
        ) + opt_member_str("defaultValue"@, v.default_value) + opt_member_bool(
            "isMultiline"@,
            v.is_multiline,
        ) + opt_member_bool("isReadonly"@, v.is_readonly) + opt_member_bool(
            "required"@,
            v.required,
        ) + opt_member_str("backgroundColor"@, v.background_color) + opt_member_json(
            "template"@,
            opt_anchor_json(v.template),
        ),
    )
}

pub open spec fn spec_req_field_type(ms: Seq<(Seq<char>, Json)>) -> Option<SignatureFieldType> {
    match spec_req_str(ms, "type"@) {
        Some(s) => SignatureFieldType::spec_of_wire(s),
        None => None,
    }
}

pub open spec fn spec_opt_anchor(ms: Seq<(Seq<char>, Json)>) -> Option<Option<TemplateAnchorV>> {
    match obj_lookup(ms, "template"@) {
        None => Some(None),
        Some(j) => match anchor_of_json(j) {
            Some(t) => Some(Some(t)),
            None => None,
        },
    }
}

/// The field a wire object stands for, if it is well shaped.
pub open spec fn field_of_json(j: Json) -> Option<FieldV> {
    match j {
        Json::Obj(ms) => match (spec_req_field_type(ms), spec_opt_u32(ms, "page"@), spec_opt_i64(
            ms,
            "x"@,
        ), spec_opt_i64(ms, "y"@), spec_opt_i64(ms, "width"@), spec_opt_i64(ms, "height"@),
        spec_req_str(ms, "recipientEmail"@), spec_opt_str(ms, "defaultValue"@), spec_opt_bool(
            ms,
            "isMultiline"@,
        ), spec_opt_bool(ms, "isReadonly"@), spec_opt_bool(ms, "required"@), spec_opt_str(
            ms,
            "backgroundColor"@,
        ), spec_opt_anchor(ms)) {
            (
                Some(field_type),
                Some(page),
                Some(x),
                Some(y),
                Some(width),
                Some(height),
                Some(recipient_email),
                Some(default_value),
                Some(is_multiline),
                Some(is_readonly),
                Some(required),
                Some(background_color),
                Some(template),
            ) => Some(
                FieldV {
                    field_type,
                    page,
                    x,
                    y,
                    width,
                    height,
                    recipient_email,
                    default_value,
                    is_multiline,
                    is_readonly,
                    required,
                    background_color,
                    template,
                },
            ),
            _ => None,
        },
        _ => None,
    }
}

impl Field {
    /// A field placed by absolute coordinates: all five coordinate fields are
    /// set and no template anchor is.
    pub fn coordinate_based(
        field_type: SignatureFieldType,
        page: u32,
        x: i64,
        y: i64,
        width: i64,
        height: i64,
        recipient_email: &str,
    ) -> (r: Field)
        ensures
            r.deep_view() == (FieldV {
                field_type,
                page: Some(page),
                x: Some(x),
                y: Some(y),
                width: Some(width),
                height: Some(height),
                recipient_email: recipient_email@,
                default_value: None,
                is_multiline: None,
                is_readonly: None,
                required: None,
                background_color: None,
                template: None,
            }),
    {
        Field {
            field_type,
            page: Some(page),
            x: Some(x),
            y: Some(y),
            width: Some(width),
            height: Some(height),
            recipient_email: recipient_email.to_owned(),
            default_value: None,
            is_multiline: None,
            is_readonly: None,
            required: None,
            background_color: None,
            template: None,
        }
    }

    /// A field placed by a marker text: the template anchor is set with
    /// placement `Replace`, and no coordinate field is.
    pub fn anchor_based(field_type: SignatureFieldType, anchor: &str, recipient_email: &str) -> (r:
        Field)
        ensures
            r.deep_view() == (FieldV {
                field_type,
                page: None,
                x: None,
                y: None,
                width: None,
                height: None,
                recipient_email: recipient_email@,
                default_value: None,
                is_multiline: None,
                is_readonly: None,
                required: None,
                background_color: None,
                template: Some(
                    TemplateAnchorV {
                        anchor: Some(anchor@),
                        search_text: None,
                        placement: Some(Placement::Replace),
                        size: None,
                        offset: None,
                        case_sensitive: None,
                        use_regex: None,
                    },
                ),
            }),
    {
        Field {
            field_type,
            page: None,
            x: None,
            y: None,
            width: None,
            height: None,
            recipient_email: recipient_email.to_owned(),
            default_value: None,
            is_multiline: None,
            is_readonly: None,
            required: None,
            background_color: None,
            template: Some(
                TemplateAnchor {
                    anchor: Some(anchor.to_owned()),
                    search_text: None,
                    placement: Some(Placement::Replace),
                    size: None,
                    offset: None,
                    case_sensitive: None,
                    use_regex: None,
                },
            ),
        }
    }

    /// Encode to the wire object; unset fields are omitted.
    pub fn to_json(&self) -> (j: JsonValue)
        ensures
            j@ == field_json(self.deep_view()),
    {
        let mut ms: Vec<(String, JsonValue)> = Vec::new();
        push_member(&mut ms, "type", JsonValue::Str(self.field_type.wire_name().to_owned()));
        push_opt_u32(&mut ms, "page", &self.page);
        push_opt_i64(&mut ms, "x", &self.x);
        push_opt_i64(&mut ms, "y", &self.y);
        push_opt_i64(&mut ms, "width", &self.width);
        push_opt_i64(&mut ms, "height", &self.height);
        push_member(&mut ms, "recipientEmail", JsonValue::Str(self.recipient_email.clone()));
        push_opt_str(&mut ms, "defaultValue", &self.default_value);
        push_opt_bool(&mut ms, "isMultiline", &self.is_multiline);
        push_opt_bool(&mut ms, "isReadonly", &self.is_readonly);
        push_opt_bool(&mut ms, "required", &self.required);
        push_opt_str(&mut ms, "backgroundColor", &self.background_color);
        match &self.template {
            Some(t) => push_member(&mut ms, "template", t.to_json()),
            None => (),
        }
        proof {
            let v = self.deep_view();
            assert(view_of_members(ms@) =~= member("type"@, Json::Str(v.field_type.wire_chars()))
                + opt_member_u32("page"@, v.page) + opt_member_i64("x"@, v.x) + opt_member_i64(
                "y"@,
                v.y,
            ) + opt_member_i64("width"@, v.width) + opt_member_i64("height"@, v.height) + member(
                "recipientEmail"@,
                Json::Str(v.recipient_email),
            ) + opt_member_str("defaultValue"@, v.default_value) + opt_member_bool(
                "isMultiline"@,
                v.is_multiline,
            ) + opt_member_bool("isReadonly"@, v.is_readonly) + opt_member_bool(
                "required"@,
                v.required,
            ) + opt_member_str("backgroundColor"@, v.background_color) + opt_member_json(
                "template"@,
                opt_anchor_json(v.template),
            ));
        }
        JsonValue::Obj(ms)
    }

    /// Decode from a wire object.
    pub fn from_json(j: &JsonValue) -> (r: Option<Field>)
        ensures
            r.deep_view() == field_of_json(j@),
    {
        let ms = match j {
            JsonValue::Obj(ms) => ms,
            _ => {
                return None;
            },
        };
        let field_type = match get_req_str(ms, "type") {
            Some(s) => match SignatureFieldType::of_wire(s.as_str()) {
                Some(t) => t,
                None => {
                    return None;
                },
            },
            None => {
                return None;
            },
        };
        let page = match get_opt_u32(ms, "page") {
            Some(v) => v,
            None => {
                return None;
            },
        };
        let x = match get_opt_i64(ms, "x") {
            Some(v) => v,
            None => {
                return None;
            },
        };
        let y = match get_opt_i64(ms, "y") {
            Some(v) => v,
            None => {
                return None;
            },
        };
        let width = match get_opt_i64(ms, "width") {
            Some(v) => v,
            None => {
                return None;
            },
        };
        let height = match get_opt_i64(ms, "height") {
            Some(v) => v,
            None => {
                return None;
            },
        };
        let recipient_email = match get_req_str(ms, "recipientEmail") {
            Some(s) => s,
            None => {
                return None;
            },
        };
        let default_value = match get_opt_str(ms, "defaultValue") {
            Some(v) => v,
            None => {
                return None;
            },
        };
        let is_multiline = match get_opt_bool(ms, "isMultiline") {
            Some(v) => v,
            None => {
                return None;
            },
        };
        let is_readonly = match get_opt_bool(ms, "isReadonly") {
            Some(v) => v,
            None => {
                return None;
            },
        };
        let required = match get_opt_bool(ms, "required") {
            Some(v) => v,
            None => {
                return None;
            },
        };
        let background_color = match get_opt_str(ms, "backgroundColor") {
            Some(v) => v,
            None => {
                return None;
            },
        };
        let template = match crate::json::obj_get(ms, "template") {
            None => None,
            Some(v) => match TemplateAnchor::from_json(v) {
                Some(t) => Some(t),
                None => {
                    return None;
                },
            },
        };
        Some(
            Field {
                field_type,
                page,
                x,
                y,
                width,
                height,
                recipient_email,
                default_value,
                is_multiline,
                is_readonly,
                required,
                background_color,
                template,
            },
        )
    }
}

/// Round trip: encoding a field and decoding the result yields the same
/// field.
#[verifier::rlimit(100)]
pub proof fn lemma_field_roundtrip(v: FieldV)
    ensures
        field_of_json(field_json(v)) == Some(v),
{
    reveal_strlit("type");
    reveal_strlit("page");
    reveal_strlit("x");
    reveal_strlit("y");
    reveal_strlit("width");
    reveal_strlit("height");
    reveal_strlit("recipientEmail");
    reveal_strlit("defaultValue");
    reveal_strlit("isMultiline");
    reveal_strlit("isReadonly");
    reveal_strlit("required");
    reveal_strlit("backgroundColor");
    reveal_strlit("template");
    assert("type"@.len() == 4);
    assert("page"@.len() == 4);
    assert("x"@.len() == 1);
    assert("y"@.len() == 1);
    assert("width"@.len() == 5);
    assert("height"@.len() == 6);
    assert("recipientEmail"@.len() == 14);
    assert("defaultValue"@.len() == 12);
    assert("isMultiline"@.len() == 11);
    assert("isReadonly"@.len() == 10);
    assert("required"@.len() == 8);
    assert("backgroundColor"@.len() == 15);
    assert("template"@.len() == 8);
    assert("type"@[0] == 't');
    assert("page"@[0] == 'p');
    assert("x"@[0] == 'x');
    assert("y"@[0] == 'y');
    assert("required"@[0] == 'r');
    assert("template"@[0] == 't');
    assert("required"@[1] == 'e');
    assert("template"@[1] == 'e');
    assert("required"@[2] == 'q');
    assert("template"@[2] == 'm');
    let s1 = member("type"@, Json::Str(v.field_type.wire_chars()));
    let s2 = opt_member_u32("page"@, v.page);
    let s3 = opt_member_i64("x"@, v.x);
    let s4 = opt_member_i64("y"@, v.y);
    let s5 = opt_member_i64("width"@, v.width);
    let s6 = opt_member_i64("height"@, v.height);
    let s7 = member("recipientEmail"@, Json::Str(v.recipient_email));
    let s8 = opt_member_str("defaultValue"@, v.default_value);
    let s9 = opt_member_bool("isMultiline"@, v.is_multiline);
    let s10 = opt_member_bool("isReadonly"@, v.is_readonly);
    let s11 = opt_member_bool("required"@, v.required);
    let s12 = opt_member_str("backgroundColor"@, v.background_color);
    let s13 = opt_member_json("template"@, opt_anchor_json(v.template));
    lemma_lookup_member("type"@, Json::Str(v.field_type.wire_chars()));
    lemma_lookup_opt_u32("page"@, v.page);
    lemma_lookup_opt_i64("x"@, v.x);
    lemma_lookup_opt_i64("y"@, v.y);
    lemma_lookup_opt_i64("width"@, v.width);
    lemma_lookup_opt_i64("height"@, v.height);
    lemma_lookup_member("recipientEmail"@, Json::Str(v.recipient_email));
    lemma_lookup_opt_str("defaultValue"@, v.default_value);
    lemma_lookup_opt_bool("isMultiline"@, v.is_multiline);
    lemma_lookup_opt_bool("isReadonly"@, v.is_readonly);
    lemma_lookup_opt_bool("required"@, v.required);
    lemma_lookup_opt_str("backgroundColor"@, v.background_color);
    lemma_lookup_opt_json("template"@, opt_anchor_json(v.template));
    lemma_lookup_concat(s1, s2);
    lemma_lookup_concat(s1 + s2, s3);
    lemma_lookup_concat(s1 + s2 + s3, s4);
    lemma_lookup_concat(s1 + s2 + s3 + s4, s5);
    lemma_lookup_concat(s1 + s2 + s3 + s4 + s5, s6);
    lemma_lookup_concat(s1 + s2 + s3 + s4 + s5 + s6, s7);
    lemma_lookup_concat(s1 + s2 + s3 + s4 + s5 + s6 + s7, s8);
    lemma_lookup_concat(s1 + s2 + s3 + s4 + s5 + s6 + s7 + s8, s9);
    lemma_lookup_concat(s1 + s2 + s3 + s4 + s5 + s6 + s7 + s8 + s9, s10);
    lemma_lookup_concat(s1 + s2 + s3 + s4 + s5 + s6 + s7 + s8 + s9 + s10, s11);
    lemma_lookup_concat(s1 + s2 + s3 + s4 + s5 + s6 + s7 + s8 + s9 + s10 + s11, s12);
    lemma_lookup_concat(s1 + s2 + s3 + s4 + s5 + s6 + s7 + s8 + s9 + s10 + s11 + s12, s13);
    lemma_field_type_wire_roundtrip(v.field_type);
    match v.template {
        Some(t) => {
            lemma_anchor_roundtrip(t);
        },
        None => (),
    }
}

/// Mathematical model shared by the two signature request envelopes: their
/// fields, and therefore their wire shape, are the same.
pub struct SignatureRequestV {
    pub file: Option<Seq<u8>>,
    pub file_name: Option<Seq<char>>,
    pub file_link: Option<Seq<char>>,
    pub deliverable_id: Option<Seq<char>>,
    pub template_id: Option<Seq<char>>,
    pub recipients: Seq<RecipientV>,
    pub fields: Seq<FieldV>,
    pub document_name: Option<Seq<char>>,
    pub document_description: Option<Seq<char>>,
    pub sender_name: Option<Seq<char>>,
    pub sender_email: Option<Seq<char>>,
    pub cc_emails: Option<Seq<Seq<char>>>,
}

pub open spec fn opt_bytes_json(b: Option<Seq<u8>>) -> Option<Json> {
    match b {
        Some(s) => Some(bytes_json(s)),
        None => None,
    }
}

pub open spec fn recipients_json_arr(rs: Seq<RecipientV>) -> Seq<Json> {
    rs.map_values(|r: RecipientV| recipient_json(r))
}

pub open spec fn fields_json_arr(fs: Seq<FieldV>) -> Seq<Json> {
    fs.map_values(|f: FieldV| field_json(f))
}

/// The wire object shared by both signature request envelopes; unset optional
/// fields are omitted.
pub open spec fn signature_request_json(v: SignatureRequestV) -> Json {
    Json::Obj(
        opt_member_json("file"@, opt_bytes_json(v.file)) + opt_member_str("fileName"@, v.file_name)
            + opt_member_str("fileLink"@, v.file_link) + opt_member_str(
            "deliverableId"@,
            v.deliverable_id,
        ) + opt_member_str("templateId"@, v.template_id) + member(
            "recipients"@,
            Json::Arr(recipients_json_arr(v.recipients)),
        ) + member("fields"@, Json::Arr(fields_json_arr(v.fields))) + opt_member_str(
            "documentName"@,
            v.document_name,
        ) + opt_member_str("documentDescription"@, v.document_description) + opt_member_str(
            "senderName"@,
            v.sender_name,
        ) + opt_member_str("senderEmail"@, v.sender_email) + opt_member_str_arr(
            "ccEmails"@,
            v.cc_emails,
        ),
    )
}

/// The recipients of a JSON array, provided every element decodes.
pub open spec fn recipients_of_arr(items: Seq<Json>) -> Option<Seq<RecipientV>>
    decreases items.len(),
{
    if items.len() == 0 {
        Some(Seq::empty())
    } else {
        match recipient_of_json(items[0]) {
            Some(r) => match recipients_of_arr(items.skip(1)) {
                Some(rest) => Some(seq![r] + rest),
                None => None,
            },
            None => None,
        }
    }
}

/// The fields of a JSON array, provided every element decodes.
pub open spec fn fields_of_arr(items: Seq<Json>) -> Option<Seq<FieldV>>
    decreases items.len(),
{
    if items.len() == 0 {
        Some(Seq::empty())
    } else {
        match field_of_json(items[0]) {
            Some(f) => match fields_of_arr(items.skip(1)) {
                Some(rest) => Some(seq![f] + rest),
                None => None,
            },
            None => None,
        }
    }
}

pub open spec fn spec_opt_bytes(ms: Seq<(Seq<char>, Json)>, k: Seq<char>) -> Option<
    Option<Seq<u8>>,
> {
    match obj_lookup(ms, k) {
        None => Some(None),
        Some(Json::Arr(items)) => match bytes_of_arr(items) {
            Some(b) => Some(Some(b)),
            None => None,
        },
        Some(_) => None,
    }
}

pub open spec fn spec_req_recipients(ms: Seq<(Seq<char>, Json)>) -> Option<Seq<RecipientV>> {
    match obj_lookup(ms, "recipients"@) {
        Some(Json::Arr(items)) => recipients_of_arr(items),
        _ => None,
    }
}

pub open spec fn spec_req_fields(ms: Seq<(Seq<char>, Json)>) -> Option<Seq<FieldV>> {
    match obj_lookup(ms, "fields"@) {
        Some(Json::Arr(items)) => fields_of_arr(items),
        _ => None,
    }
}

/// The request a wire object stands for, if it is well shaped.
pub open spec fn signature_request_of_json(j: Json) -> Option<SignatureRequestV> {
    match j {
        Json::Obj(ms) => match (spec_opt_bytes(ms, "file"@), spec_opt_str(ms, "fileName"@),
        spec_opt_str(ms, "fileLink"@), spec_opt_str(ms, "deliverableId"@), spec_opt_str(
            ms,
            "templateId"@,
        ), spec_req_recipients(ms), spec_req_fields(ms), spec_opt_str(ms, "documentName"@),
        spec_opt_str(ms, "documentDescription"@), spec_opt_str(ms, "senderName"@), spec_opt_str(
            ms,
            "senderEmail"@,
        ), spec_opt_str_arr(ms, "ccEmails"@)) {
            (
                Some(file),
                Some(file_name),
                Some(file_link),
                Some(deliverable_id),
                Some(template_id),
                Some(recipients),
                Some(fields),
                Some(document_name),
                Some(document_description),
                Some(sender_name),
                Some(sender_email),
                Some(cc_emails),
            ) => Some(
                SignatureRequestV {
                    file,
                    file_name,
                    file_link,
                    deliverable_id,
                    template_id,
                    recipients,
                    fields,
                    document_name,
                    document_description,
                    sender_name,
                    sender_email,
                    cc_emails,
                },
            ),
            _ => None,
        },
        _ => None,
    }
}

/// Encode a list of recipients to a JSON array.
pub fn recipients_to_json(rs: &Vec<Recipient>) -> (j: JsonValue)
    ensures
        j@ == Json::Arr(recipients_json_arr(rs.deep_view())),
{
    let n = rs.len();
    let mut out: Vec<JsonValue> = Vec::new();
    let mut i: usize = 0;
    while i < n
        invariant
            i <= n,
            n == rs.len(),
            out@.len() == i,
            forall|j: int| 0 <= j < i ==> out@[j]@ == recipient_json(rs@[j].deep_view()),
        decreases n - i,
    {
        let rj = rs[i].to_json();
        out.push(rj);
        i += 1;
    }
    proof {
        lemma_view_of_items(out@);
        assert(view_of_items(out@) =~= recipients_json_arr(rs.deep_view()));
    }
    JsonValue::Arr(out)
}

/// Encode a list of fields to a JSON array.
pub fn fields_to_json(fs: &Vec<Field>) -> (j: JsonValue)
    ensures
        j@ == Json::Arr(fields_json_arr(fs.deep_view())),
{
    let n = fs.len();
    let mut out: Vec<JsonValue> = Vec::new();
    let mut i: usize = 0;
    while i < n
        invariant
            i <= n,
            n == fs.len(),
            out@.len() == i,
            forall|j: int| 0 <= j < i ==> out@[j]@ == field_json(fs@[j].deep_view()),
        decreases n - i,
    {
        let fj = fs[i].to_json();
        out.push(fj);
        i += 1;
    }
    proof {
        lemma_view_of_items(out@);
        assert(view_of_items(out@) =~= fields_json_arr(fs.deep_view()));
    }
    JsonValue::Arr(out)
}

proof fn lemma_recipients_of_arr_bad(items: Seq<Json>, i: int)
    requires
        0 <= i < items.len(),
        recipient_of_json(items[i]) is None,
    ensures
        recipients_of_arr(items) is None,
    decreases i,
{
    if i > 0 {
        if recipient_of_json(items[0]) is Some {
            lemma_recipients_of_arr_bad(items.skip(1), i - 1);
        }
    }
}

proof fn lemma_recipients_of_arr_good(items: Seq<Json>, rs: Seq<RecipientV>)
    requires
        rs.len() == items.len(),
        forall|j: int| 0 <= j < items.len() ==> #[trigger] recipient_of_json(items[j]) == Some(
            rs[j],
        ),
    ensures
        recipients_of_arr(items) == Some(rs),
    decreases items.len(),
{
    if items.len() == 0 {
        assert(rs =~= Seq::<RecipientV>::empty());
    } else {
        lemma_recipients_of_arr_good(items.skip(1), rs.skip(1));
        assert(rs =~= seq![rs[0]] + rs.skip(1));
    }
}

proof fn lemma_fields_of_arr_bad(items: Seq<Json>, i: int)
    requires
        0 <= i < items.len(),
        field_of_json(items[i]) is None,
    ensures
        fields_of_arr(items) is None,
    decreases i,
{
    if i > 0 {
        if field_of_json(items[0]) is Some {
            lemma_fields_of_arr_bad(items.skip(1), i - 1);
        }
    }
}

proof fn lemma_fields_of_arr_good(items: Seq<Json>, fs: Seq<FieldV>)
    requires
        fs.len() == items.len(),
        forall|j: int| 0 <= j < items.len() ==> #[trigger] field_of_json(items[j]) == Some(fs[j]),
    ensures
        fields_of_arr(items) == Some(fs),
    decreases items.len(),
{
    if items.len() == 0 {
        assert(fs =~= Seq::<FieldV>::empty());
    } else {
        lemma_fields_of_arr_good(items.skip(1), fs.skip(1));
        assert(fs =~= seq![fs[0]] + fs.skip(1));
    }
}

/// Decode a JSON array of recipients.
pub fn recipients_of_items(items: &Vec<JsonValue>) -> (r: Option<Vec<Recipient>>)
    ensures
        r.deep_view() == recipients_of_arr(view_of_items(items@)),
{
    proof {
        lemma_view_of_items(items@);
    }
    let ghost lv = view_of_items(items@);
    let n = items.len();
    let mut out: Vec<Recipient> = Vec::new();
    let mut i: usize = 0;
    while i < n
        invariant
            i <= n,
            n == items.len(),
            lv == view_of_items(items@),
            lv.len() == items@.len(),
            forall|j: int| 0 <= j < items@.len() ==> lv[j] == items@[j]@,
            out@.len() == i,
            forall|j: int| 0 <= j < i ==> #[trigger] recipient_of_json(lv[j]) == Some(
                out@[j].deep_view(),
            ),
        decreases n - i,
    {
        match Recipient::from_json(&items[i]) {
            Some(r) => {
                out.push(r);
            },
            None => {
                proof {
                    lemma_recipients_of_arr_bad(lv, i as int);
                }
                return None;
            },
        }
        i += 1;
    }
    proof {
        lemma_recipients_of_arr_good(lv, out.deep_view());
    }
    Some(out)
}

/// Decode a JSON array of fields.
pub fn fields_of_items(items: &Vec<JsonValue>) -> (r: Option<Vec<Field>>)
    ensures
        r.deep_view() == fields_of_arr(view_of_items(items@)),
{
    proof {
        lemma_view_of_items(items@);
    }
    let ghost lv = view_of_items(items@);
    let n = items.len();
    let mut out: Vec<Field> = Vec::new();
    let mut i: usize = 0;
    while i < n
        invariant
            i <= n,
            n == items.len(),
            lv == view_of_items(items@),
            lv.len() == items@.len(),
            forall|j: int| 0 <= j < items@.len() ==> lv[j] == items@[j]@,
            out@.len() == i,
            forall|j: int| 0 <= j < i ==> #[trigger] field_of_json(lv[j]) == Some(
                out@[j].deep_view(),
            ),
        decreases n - i,
    {
        match Field::from_json(&items[i]) {
            Some(f) => {
                out.push(f);
            },
            None => {
                proof {
                    lemma_fields_of_arr_bad(lv, i as int);
                }
                return None;
            },
        }
        i += 1;
    }
    proof {
        lemma_fields_of_arr_good(lv, out.deep_view());
    }
    Some(out)
}

/// Request to prepare a document for review without sending signature
/// request emails. The document source is exactly one of `file`, `file_link`,
/// `deliverable_id` or `template_id`.
#[derive(Debug, Clone, PartialEq)]
pub struct CreateSignatureReviewLinkRequest {
    /// Raw bytes of the document to upload.
    pub file: Option<Vec<u8>>,
    /// File name used when `file` is set.
    pub file_name: Option<String>,
    /// URL of the document.
    pub file_link: Option<String>,
    /// Identifier of a previously generated deliverable.
    pub deliverable_id: Option<String>,
    /// Identifier of a template.
    pub template_id: Option<String>,
    /// Signers of the document.
    pub recipients: Vec<Recipient>,
    /// Signature fields to place.
    pub fields: Vec<Field>,
    /// Display name of the document.
    pub document_name: Option<String>,
    /// Description of the document.
    pub document_description: Option<String>,
    /// Sender name override.
    pub sender_name: Option<String>,
    /// Sender email override.
    pub sender_email: Option<String>,
    /// Addresses to put in copy.
    pub cc_emails: Option<Vec<String>>,
}

impl DeepView for CreateSignatureReviewLinkRequest {
    type V = SignatureRequestV;

    open spec fn deep_view(&self) -> SignatureRequestV {
        SignatureRequestV {
            file: self.file.deep_view(),
            file_name: self.file_name.deep_view(),
            file_link: self.file_link.deep_view(),
            deliverable_id: self.deliverable_id.deep_view(),
            template_id: self.template_id.deep_view(),
            recipients: self.recipients.deep_view(),
            fields: self.fields.deep_view(),
            document_name: self.document_name.deep_view(),
            document_description: self.document_description.deep_view(),
            sender_name: self.sender_name.deep_view(),
            sender_email: self.sender_email.deep_view(),
            cc_emails: self.cc_emails.deep_view(),
        }
    }
}

/// Request to prepare a document and immediately send the signature request
/// emails. Same shape as `CreateSignatureReviewLinkRequest`.
#[derive(Debug, Clone, PartialEq)]
pub struct SendSignatureRequest {
    /// Raw bytes of the document to upload.
    pub file: Option<Vec<u8>>,
    /// File name used when `file` is set.
    pub file_name: Option<String>,
    /// URL of the document.
    pub file_link: Option<String>,
    /// Identifier of a previously generated deliverable.
    pub deliverable_id: Option<String>,
    /// Identifier of a template.
    pub template_id: Option<String>,
    /// Signers of the document.
    pub recipients: Vec<Recipient>,
    /// Signature fields to place.
    pub fields: Vec<Field>,
    /// Display name of the document.
    pub document_name: Option<String>,
    /// Description of the document.
    pub document_description: Option<String>,
    /// Sender name override.
    pub sender_name: Option<String>,
    /// Sender email override.
    pub sender_email: Option<String>,
    /// Addresses to put in copy.
    pub cc_emails: Option<Vec<String>>,
}

impl DeepView for SendSignatureRequest {
    type V = SignatureRequestV;

    open spec fn deep_view(&self) -> SignatureRequestV {
        SignatureRequestV {
            file: self.file.deep_view(),
            file_name: self.file_name.deep_view(),
            file_link: self.file_link.deep_view(),
            deliverable_id: self.deliverable_id.deep_view(),
            template_id: self.template_id.deep_view(),
            recipients: self.recipients.deep_view(),
            fields: self.fields.deep_view(),
            document_name: self.document_name.deep_view(),
            document_description: self.document_description.deep_view(),
            sender_name: self.sender_name.deep_view(),
            sender_email: self.sender_email.deep_view(),
            cc_emails: self.cc_emails.deep_view(),
        }
    }
}

/// Encode the shared request shape; unset optional fields are omitted.
fn signature_request_members(
    file: &Option<Vec<u8>>,
    file_name: &Option<String>,
    file_link: &Option<String>,
    deliverable_id: &Option<String>,
    template_id: &Option<String>,
    recipients: &Vec<Recipient>,
    fields: &Vec<Field>,
    document_name: &Option<String>,
    document_description: &Option<String>,
    sender_name: &Option<String>,
    sender_email: &Option<String>,
    cc_emails: &Option<Vec<String>>,
) -> (ms: Vec<(String, JsonValue)>)
    ensures
        Json::Obj(view_of_members(ms@)) == signature_request_json(
            SignatureRequestV {
                file: file.deep_view(),
                file_name: file_name.deep_view(),
                file_link: file_link.deep_view(),
                deliverable_id: deliverable_id.deep_view(),
                template_id: template_id.deep_view(),
                recipients: recipients.deep_view(),
                fields: fields.deep_view(),
                document_name: document_name.deep_view(),
                document_description: document_description.deep_view(),
                sender_name: sender_name.deep_view(),
                sender_email: sender_email.deep_view(),
                cc_emails: cc_emails.deep_view(),
            },
        ),
{
    let mut ms: Vec<(String, JsonValue)> = Vec::new();
    match file {
        Some(b) => {
            proof {
                assert(b.deep_view() =~= b@);
            }
            push_member(&mut ms, "file", bytes_to_json(b));
        },
        None => (),
    }
    push_opt_str(&mut ms, "fileName", file_name);
    push_opt_str(&mut ms, "fileLink", file_link);
    push_opt_str(&mut ms, "deliverableId", deliverable_id);
    push_opt_str(&mut ms, "templateId", template_id);
    push_member(&mut ms, "recipients", recipients_to_json(recipients));
    push_member(&mut ms, "fields", fields_to_json(fields));
    push_opt_str(&mut ms, "documentName", document_name);
    push_opt_str(&mut ms, "documentDescription", document_description);
    push_opt_str(&mut ms, "senderName", sender_name);
    push_opt_str(&mut ms, "senderEmail", sender_email);
    push_opt_str_arr(&mut ms, "ccEmails", cc_emails);
    proof {
        assert(view_of_members(ms@) =~= opt_member_json("file"@, opt_bytes_json(file.deep_view()))
            + opt_member_str("fileName"@, file_name.deep_view()) + opt_member_str(
            "fileLink"@,
            file_link.deep_view(),
        ) + opt_member_str("deliverableId"@, deliverable_id.deep_view()) + opt_member_str(
            "templateId"@,
            template_id.deep_view(),
        ) + member("recipients"@, Json::Arr(recipients_json_arr(recipients.deep_view()))) + member(
            "fields"@,
            Json::Arr(fields_json_arr(fields.deep_view())),
        ) + opt_member_str("documentName"@, document_name.deep_view()) + opt_member_str(
            "documentDescription"@,
            document_description.deep_view(),
        ) + opt_member_str("senderName"@, sender_name.deep_view()) + opt_member_str(
            "senderEmail"@,
            sender_email.deep_view(),
        ) + opt_member_str_arr("ccEmails"@, cc_emails.deep_view()));
    }
    ms
}

/// Decode the shared request shape.
fn signature_request_parts(j: &JsonValue) -> (r: Option<
    (
        Option<Vec<u8>>,
        Option<String>,
        Option<String>,
        Option<String>,
        Option<String>,
        Vec<Recipient>,
        Vec<Field>,
        Option<String>,
        Option<String>,
        Option<String>,
        Option<String>,
        Option<Vec<String>>,
    ),
>)
    ensures
        match r {
            Some(p) => signature_request_of_json(j@) == Some(
                SignatureRequestV {
                    file: p.0.deep_view(),
                    file_name: p.1.deep_view(),
                    file_link: p.2.deep_view(),
                    deliverable_id: p.3.deep_view(),
                    template_id: p.4.deep_view(),
                    recipients: p.5.deep_view(),
                    fields: p.6.deep_view(),
                    document_name: p.7.deep_view(),
                    document_description: p.8.deep_view(),
                    sender_name: p.9.deep_view(),
                    sender_email: p.10.deep_view(),
                    cc_emails: p.11.deep_view(),
                },
            ),
            None => signature_request_of_json(j@) is None,
        },
{
    let ms = match j {
        JsonValue::Obj(ms) => ms,
        _ => {
            return None;
        },
    };
    let file = match crate::json::obj_get(ms, "file") {
        None => None,
        Some(JsonValue::Arr(items)) => match crate::json::bytes_of_items(items) {
            Some(b) => Some(b),
            None => {
                return None;
            },
        },
        Some(_) => {
            return None;
        },
    };
    let file_name = match get_opt_str(ms, "fileName") {
        Some(v) => v,
        None => {
            return None;
        },
    };
    let file_link = match get_opt_str(ms, "fileLink") {
        Some(v) => v,
        None => {
            return None;
        },
    };
    let deliverable_id = match get_opt_str(ms, "deliverableId") {
        Some(v) => v,
        None => {
            return None;
        },
    };
    let template_id = match get_opt_str(ms, "templateId") {
        Some(v) => v,
        None => {
            return None;
        },
    };
    let recipients = match crate::json::obj_get(ms, "recipients") {
        Some(JsonValue::Arr(items)) => match recipients_of_items(items) {
            Some(rs) => rs,
            None => {
                return None;
            },
        },
        _ => {
            return None;
        },
    };
    let fields = match crate::json::obj_get(ms, "fields") {
        Some(JsonValue::Arr(items)) => match fields_of_items(items) {
            Some(fs) => fs,
            None => {
                return None;
            },
        },
        _ => {
            return None;
        },
    };
    let document_name = match get_opt_str(ms, "documentName") {
        Some(v) => v,
        None => {
            return None;
        },
    };
    let document_description = match get_opt_str(ms, "documentDescription") {
        Some(v) => v,
        None => {
            return None;
        },
    };
    let sender_name = match get_opt_str(ms, "senderName") {
        Some(v) => v,
        None => {
            return None;
        },
    };
    let sender_email = match get_opt_str(ms, "senderEmail") {
        Some(v) => v,
        None => {
            return None;
        },
    };
    let cc_emails = match crate::json::get_opt_str_arr(ms, "ccEmails") {
        Some(v) => v,
        None => {
            return None;
        },
    };
    Some(
        (
            file,
            file_name,
            file_link,
            deliverable_id,
            template_id,
            recipients,
            fields,
            document_name,
            document_description,
            sender_name,
            sender_email,
            cc_emails,
        ),
    )
}

impl CreateSignatureReviewLinkRequest {
    /// Encode to the wire object; unset optional fields are omitted.
    pub fn to_json(&self) -> (j: JsonValue)
        ensures
            j@ == signature_request_json(self.deep_view()),
    {
        JsonValue::Obj(
            signature_request_members(
                &self.file,
                &self.file_name,
                &self.file_link,
                &self.deliverable_id,
                &self.template_id,
                &self.recipients,
                &self.fields,
                &self.document_name,
                &self.document_description,
                &self.sender_name,
                &self.sender_email,
                &self.cc_emails,
            ),
        )
    }

    /// Decode from a wire object.
    pub fn from_json(j: &JsonValue) -> (r: Option<CreateSignatureReviewLinkRequest>)
        ensures
            r.deep_view() == signature_request_of_json(j@),
    {
        match signature_request_parts(j) {
            Some(p) => Some(
                CreateSignatureReviewLinkRequest {
                    file: p.0,
                    file_name: p.1,
                    file_link: p.2,
                    deliverable_id: p.3,
                    template_id: p.4,
                    recipients: p.5,
                    fields: p.6,
                    document_name: p.7,
                    document_description: p.8,
                    sender_name: p.9,
                    sender_email: p.10,
                    cc_emails: p.11,
                },
            ),
            None => None,
        }
    }
}

impl SendSignatureRequest {
    /// Encode to the wire object; unset optional fields are omitted.
    pub fn to_json(&self) -> (j: JsonValue)
        ensures
            j@ == signature_request_json(self.deep_view()),
    {
        JsonValue::Obj(
            signature_request_members(
                &self.file,
                &self.file_name,
                &self.file_link,
                &self.deliverable_id,
                &self.template_id,
                &self.recipients,
                &self.fields,
                &self.document_name,
                &self.document_description,
                &self.sender_name,
                &self.sender_email,
                &self.cc_emails,
            ),
        )
    }

    /// Decode from a wire object.
    pub fn from_json(j: &JsonValue) -> (r: Option<SendSignatureRequest>)
        ensures
            r.deep_view() == signature_request_of_json(j@),
    {
        match signature_request_parts(j) {
            Some(p) => Some(
                SendSignatureRequest {
                    file: p.0,
                    file_name: p.1,
                    file_link: p.2,
                    deliverable_id: p.3,
                    template_id: p.4,
                    recipients: p.5,
                    fields: p.6,
                    document_name: p.7,
                    document_description: p.8,
                    sender_name: p.9,
                    sender_email: p.10,
                    cc_emails: p.11,
                },
            ),
            None => None,
        }
    }
}

proof fn lemma_recipients_arr_roundtrip(rs: Seq<RecipientV>)
    ensures
        recipients_of_arr(recipients_json_arr(rs)) == Some(rs),
    decreases rs.len(),
{
    let items = recipients_json_arr(rs);
    if rs.len() == 0 {
        assert(items.len() == 0);
    } else {
        lemma_recipient_roundtrip(rs[0]);
        lemma_recipients_arr_roundtrip(rs.skip(1));
        assert(items.skip(1) =~= recipients_json_arr(rs.skip(1)));
        assert(items[0] == recipient_json(rs[0]));
        assert(rs =~= seq![rs[0]] + rs.skip(1));
    }
}

proof fn lemma_fields_arr_roundtrip(fs: Seq<FieldV>)
    ensures
        fields_of_arr(fields_json_arr(fs)) == Some(fs),
    decreases fs.len(),
{
    let items = fields_json_arr(fs);
    if fs.len() == 0 {
        assert(items.len() == 0);
    } else {
        lemma_field_roundtrip(fs[0]);
        lemma_fields_arr_roundtrip(fs.skip(1));
        assert(items.skip(1) =~= fields_json_arr(fs.skip(1)));
        assert(items[0] == field_json(fs[0]));
        assert(fs =~= seq![fs[0]] + fs.skip(1));
    }
}

/// Round trip: encoding a signature request and decoding the result yields
/// the same request. This covers both envelope types, which share one wire
/// shape.
#[verifier::rlimit(100)]
pub proof fn lemma_signature_request_roundtrip(v: SignatureRequestV)
    ensures
        signature_request_of_json(signature_request_json(v)) == Some(v),
{
    reveal_strlit("file");
    reveal_strlit("fileName");
    reveal_strlit("fileLink");
    reveal_strlit("deliverableId");
    reveal_strlit("templateId");
    reveal_strlit("recipients");
    reveal_strlit("fields");
    reveal_strlit("documentName");
    reveal_strlit("documentDescription");
    reveal_strlit("senderName");
    reveal_strlit("senderEmail");
    reveal_strlit("ccEmails");
    assert("file"@.len() == 4);
    assert("fileName"@.len() == 8);
    assert("fileLink"@.len() == 8);
    assert("deliverableId"@.len() == 13);
    assert("templateId"@.len() == 10);
    assert("recipients"@.len() == 10);
    assert("fields"@.len() == 6);
    assert("documentName"@.len() == 12);
    assert("documentDescription"@.len() == 19);
    assert("senderName"@.len() == 10);
    assert("senderEmail"@.len() == 11);
    assert("ccEmails"@.len() == 8);
    assert("fileName"@[4] == 'N');
    assert("fileLink"@[4] == 'L');
    assert("ccEmails"@[0] == 'c');
    assert("fileName"@[0] == 'f');
    assert("fileLink"@[0] == 'f');
    assert("templateId"@[0] == 't');
    assert("recipients"@[0] == 'r');
    assert("senderName"@[0] == 's');
    let s1 = opt_member_json("file"@, opt_bytes_json(v.file));
    let s2 = opt_member_str("fileName"@, v.file_name);
    let s3 = opt_member_str("fileLink"@, v.file_link);
    let s4 = opt_member_str("deliverableId"@, v.deliverable_id);
    let s5 = opt_member_str("templateId"@, v.template_id);
    let s6 = member("recipients"@, Json::Arr(recipients_json_arr(v.recipients)));
    let s7 = member("fields"@, Json::Arr(fields_json_arr(v.fields)));
    let s8 = opt_member_str("documentName"@, v.document_name);
    let s9 = opt_member_str("documentDescription"@, v.document_description);
    let s10 = opt_member_str("senderName"@, v.sender_name);
    let s11 = opt_member_str("senderEmail"@, v.sender_email);
    let s12 = opt_member_str_arr("ccEmails"@, v.cc_emails);
    lemma_lookup_opt_json("file"@, opt_bytes_json(v.file));
    lemma_lookup_opt_str("fileName"@, v.file_name);
    lemma_lookup_opt_str("fileLink"@, v.file_link);
    lemma_lookup_opt_str("deliverableId"@, v.deliverable_id);
    lemma_lookup_opt_str("templateId"@, v.template_id);
    lemma_lookup_member("recipients"@, Json::Arr(recipients_json_arr(v.recipients)));
    lemma_lookup_member("fields"@, Json::Arr(fields_json_arr(v.fields)));
    lemma_lookup_opt_str("documentName"@, v.document_name);
    lemma_lookup_opt_str("documentDescription"@, v.document_description);
    lemma_lookup_opt_str("senderName"@, v.sender_name);
    lemma_lookup_opt_str("senderEmail"@, v.sender_email);
    lemma_lookup_opt_str_arr("ccEmails"@, v.cc_emails);
    lemma_lookup_concat(s1, s2);
    lemma_lookup_concat(s1 + s2, s3);
    lemma_lookup_concat(s1 + s2 + s3, s4);
    lemma_lookup_concat(s1 + s2 + s3 + s4, s5);
    lemma_lookup_concat(s1 + s2 + s3 + s4 + s5, s6);
    lemma_lookup_concat(s1 + s2 + s3 + s4 + s5 + s6, s7);
    lemma_lookup_concat(s1 + s2 + s3 + s4 + s5 + s6 + s7, s8);
    lemma_lookup_concat(s1 + s2 + s3 + s4 + s5 + s6 + s7 + s8, s9);
    lemma_lookup_concat(s1 + s2 + s3 + s4 + s5 + s6 + s7 + s8 + s9, s10);
    lemma_lookup_concat(s1 + s2 + s3 + s4 + s5 + s6 + s7 + s8 + s9 + s10, s11);
    lemma_lookup_concat(s1 + s2 + s3 + s4 + s5 + s6 + s7 + s8 + s9 + s10 + s11, s12);
    match v.file {
        Some(b) => {
            crate::json::lemma_bytes_of_bytes_arr(b);
        },
        None => (),
    }
    lemma_recipients_arr_roundtrip(v.recipients);
    lemma_fields_arr_roundtrip(v.fields);
    match v.cc_emails {
        Some(xs) => {
            crate::json::lemma_strs_of_str_arr(xs);
        },
        None => (),
    }
}

/// Mathematical model of a `RecipientStatus`.
pub struct RecipientStatusV {
    pub id: Seq<char>,
    pub name: Seq<char>,
    pub email: Seq<char>,
    pub status: Seq<char>,
}

/// State of one recipient, as reported by the service.
#[derive(Debug, Clone, PartialEq)]
pub struct RecipientStatus {
    pub id: String,
    pub name: String,
    pub email: String,
    pub status: String,
}

impl DeepView for RecipientStatus {
    type V = RecipientStatusV;

    open spec fn deep_view(&self) -> RecipientStatusV {
        RecipientStatusV {
            id: self.id@,
            name: self.name@,
            email: self.email@,
            status: self.status@,
        }
    }
}

pub open spec fn recipient_status_json(v: RecipientStatusV) -> Json {
    Json::Obj(
        member("id"@, Json::Str(v.id)) + member("name"@, Json::Str(v.name)) + member(
            "email"@,
            Json::Str(v.email),
        ) + member("status"@, Json::Str(v.status)),
    )
}

pub open spec fn recipient_status_of_json(j: Json) -> Option<RecipientStatusV> {
    match j {
        Json::Obj(ms) => match (spec_req_str(ms, "id"@), spec_req_str(ms, "name"@), spec_req_str(
            ms,
            "email"@,
        ), spec_req_str(ms, "status"@)) {
            (Some(id), Some(name), Some(email), Some(status)) => Some(
                RecipientStatusV { id, name, email, status },
            ),
            _ => None,
        },
        _ => None,
    }
}

impl RecipientStatus {
    /// Encode to the wire object.
    pub fn to_json(&self) -> (j: JsonValue)
        ensures
            j@ == recipient_status_json(self.deep_view()),
    {
        let mut ms: Vec<(String, JsonValue)> = Vec::new();
        push_member(&mut ms, "id", JsonValue::Str(self.id.clone()));
        push_member(&mut ms, "name", JsonValue::Str(self.name.clone()));
        push_member(&mut ms, "email", JsonValue::Str(self.email.clone()));
        push_member(&mut ms, "status", JsonValue::Str(self.status.clone()));
        proof {
            assert(view_of_members(ms@) =~= member("id"@, Json::Str(self.id@)) + member(
                "name"@,
                Json::Str(self.name@),
            ) + member("email"@, Json::Str(self.email@)) + member(
                "status"@,
                Json::Str(self.status@),
            ));
        }
        JsonValue::Obj(ms)
    }

    /// Decode from a wire object.
    pub fn from_json(j: &JsonValue) -> (r: Option<RecipientStatus>)
        ensures
            r.deep_view() == recipient_status_of_json(j@),
    {
        match j {
            JsonValue::Obj(ms) => match (get_req_str(ms, "id"), get_req_str(ms, "name"),
            get_req_str(ms, "email"), get_req_str(ms, "status")) {
                (Some(id), Some(name), Some(email), Some(status)) => Some(
                    RecipientStatus { id, name, email, status },
                ),
                _ => None,
            },
            _ => None,
        }
    }
}

/// Round trip: encoding a recipient status and decoding the result yields
/// the same value.
pub proof fn lemma_recipient_status_roundtrip(v: RecipientStatusV)
    ensures
        recipient_status_of_json(recipient_status_json(v)) == Some(v),
{
    reveal_strlit("id");
    reveal_strlit("name");
    reveal_strlit("email");
    reveal_strlit("status");
    assert("id"@.len() == 2);
    assert("name"@.len() == 4);
    assert("email"@.len() == 5);
    assert("status"@.len() == 6);
    let m1 = member("id"@, Json::Str(v.id));
    let m2 = member("name"@, Json::Str(v.name));
    let m3 = member("email"@, Json::Str(v.email));
    let m4 = member("status"@, Json::Str(v.status));
    lemma_lookup_member("id"@, Json::Str(v.id));
    lemma_lookup_member("name"@, Json::Str(v.name));
    lemma_lookup_member("email"@, Json::Str(v.email));
    lemma_lookup_member("status"@, Json::Str(v.status));
    lemma_lookup_concat(m1, m2);
    lemma_lookup_concat(m1 + m2, m3);
    lemma_lookup_concat(m1 + m2 + m3, m4);
}

/// Mathematical model of a `CreateSignatureReviewLinkResponse`.
pub struct ReviewLinkResponseV {
    pub success: bool,
    pub document_id: Seq<char>,
    pub status: Seq<char>,
    pub preview_url: Option<Seq<char>>,
    pub recipients: Option<Seq<RecipientStatusV>>,
    pub message: Seq<char>,
}

/// Answer to a review-link request: the prepared document and a preview URL.
#[derive(Debug, Clone, PartialEq)]
pub struct CreateSignatureReviewLinkResponse {
    /// Whether the request was accepted.
    pub success: bool,
    /// Identifier of the prepared document.
    pub document_id: String,
    /// State of the document.
    pub status: String,
    /// URL for reviewing field placement.
    pub preview_url: Option<String>,
    /// Recipients with their states.
    pub recipients: Option<Vec<RecipientStatus>>,
    /// Message from the service.
    pub message: String,
}

impl DeepView for CreateSignatureReviewLinkResponse {
    type V = ReviewLinkResponseV;

    open spec fn deep_view(&self) -> ReviewLinkResponseV {
        ReviewLinkResponseV {
            success: self.success,
            document_id: self.document_id@,
            status: self.status@,
            preview_url: self.preview_url.deep_view(),
            recipients: match self.recipients {
                Some(rs) => Some(rs.deep_view()),
                None => None,
            },
            message: self.message@,
        }
    }
}

pub open spec fn statuses_json_arr(rs: Seq<RecipientStatusV>) -> Seq<Json> {
    rs.map_values(|r: RecipientStatusV| recipient_status_json(r))
}

pub open spec fn opt_statuses_json(rs: Option<Seq<RecipientStatusV>>) -> Option<Json> {
    match rs {
        Some(rs) => Some(Json::Arr(statuses_json_arr(rs))),
        None => None,
    }
}

pub open spec fn review_link_response_json(v: ReviewLinkResponseV) -> Json {
    Json::Obj(
        member("success"@, Json::Bool(v.success)) + member(
            "documentId"@,
            Json::Str(v.document_id),
        ) + member("status"@, Json::Str(v.status)) + opt_member_str("previewUrl"@, v.preview_url)
            + opt_member_json("recipients"@, opt_statuses_json(v.recipients)) + member(
            "message"@,
            Json::Str(v.message),
        ),
    )
}

pub open spec fn statuses_of_arr(items: Seq<Json>) -> Option<Seq<RecipientStatusV>>
    decreases items.len(),
{
    if items.len() == 0 {
        Some(Seq::empty())
    } else {
        match recipient_status_of_json(items[0]) {
            Some(r) => match statuses_of_arr(items.skip(1)) {
                Some(rest) => Some(seq![r] + rest),
                None => None,
            },
            None => None,
        }
    }
}

pub open spec fn spec_opt_statuses(ms: Seq<(Seq<char>, Json)>) -> Option<
    Option<Seq<RecipientStatusV>>,
> {
    match obj_lookup(ms, "recipients"@) {
        None => Some(None),
        Some(Json::Arr(items)) => match statuses_of_arr(items) {
            Some(rs) => Some(Some(rs)),
            None => None,
        },
        Some(_) => None,
    }
}

pub open spec fn review_link_response_of_json(j: Json) -> Option<ReviewLinkResponseV> {
    match j {
        Json::Obj(ms) => match (spec_req_bool(ms, "success"@), spec_req_str(ms, "documentId"@),
        spec_req_str(ms, "status"@), spec_opt_str(ms, "previewUrl"@), spec_opt_statuses(ms),
        spec_req_str(ms, "message"@)) {
            (
                Some(success),
                Some(document_id),
                Some(status),
                Some(preview_url),
                Some(recipients),
                Some(message),
            ) => Some(
                ReviewLinkResponseV {
                    success,
                    document_id,
                    status,
                    preview_url,
                    recipients,
                    message,
                },
            ),
            _ => None,
        },
        _ => None,
    }
}

proof fn lemma_statuses_of_arr_bad(items: Seq<Json>, i: int)
    requires
        0 <= i < items.len(),
        recipient_status_of_json(items[i]) is None,
    ensures
        statuses_of_arr(items) is None,
    decreases i,
{
    if i > 0 {
        if recipient_status_of_json(items[0]) is Some {
            lemma_statuses_of_arr_bad(items.skip(1), i - 1);
        }
    }
}

proof fn lemma_statuses_of_arr_good(items: Seq<Json>, rs: Seq<RecipientStatusV>)
    requires
        rs.len() == items.len(),
        forall|j: int| 0 <= j < items.len() ==> #[trigger] recipient_status_of_json(items[j])
            == Some(rs[j]),
    ensures
        statuses_of_arr(items) == Some(rs),
    decreases items.len(),
{
    if items.len() == 0 {
        assert(rs =~= Seq::<RecipientStatusV>::empty());
    } else {
        lemma_statuses_of_arr_good(items.skip(1), rs.skip(1));
        assert(rs =~= seq![rs[0]] + rs.skip(1));
    }
}

/// Encode a list of recipient statuses to a JSON array.
fn statuses_to_json(rs: &Vec<RecipientStatus>) -> (j: JsonValue)
    ensures
        j@ == Json::Arr(statuses_json_arr(rs.deep_view())),
{
    let n = rs.len();
    let mut out: Vec<JsonValue> = Vec::new();
    let mut i: usize = 0;
    while i < n
        invariant
            i <= n,
            n == rs.len(),
            out@.len() == i,
            forall|j: int| 0 <= j < i ==> out@[j]@ == recipient_status_json(rs@[j].deep_view()),
        decreases n - i,
    {
        let rj = rs[i].to_json();
        out.push(rj);
        i += 1;
    }
    proof {
        lemma_view_of_items(out@);
        assert(view_of_items(out@) =~= statuses_json_arr(rs.deep_view()));
    }
    JsonValue::Arr(out)
}

/// Decode a JSON array of recipient statuses.
fn statuses_of_items(items: &Vec<JsonValue>) -> (r: Option<Vec<RecipientStatus>>)
    ensures
        r.deep_view() == statuses_of_arr(view_of_items(items@)),
{
    proof {
        lemma_view_of_items(items@);
    }
    let ghost lv = view_of_items(items@);
    let n = items.len();
    let mut out: Vec<RecipientStatus> = Vec::new();
    let mut i: usize = 0;
    while i < n
        invariant
            i <= n,
            n == items.len(),
            lv == view_of_items(items@),
            lv.len() == items@.len(),
            forall|j: int| 0 <= j < items@.len() ==> lv[j] == items@[j]@,
            out@.len() == i,
            forall|j: int| 0 <= j < i ==> #[trigger] recipient_status_of_json(lv[j]) == Some(
                out@[j].deep_view(),
            ),
        decreases n - i,
    {
        match RecipientStatus::from_json(&items[i]) {
            Some(r) => {
                out.push(r);
            },
            None => {
                proof {
                    lemma_statuses_of_arr_bad(lv, i as int);
                }
                return None;
            },
        }
        i += 1;
    }
    proof {
        lemma_statuses_of_arr_good(lv, out.deep_view());
    }
    Some(out)
}

impl CreateSignatureReviewLinkResponse {
    /// Encode to the wire object; unset optional fields are omitted.
    pub fn to_json(&self) -> (j: JsonValue)
        ensures
            j@ == review_link_response_json(self.deep_view()),
    {
        let mut ms: Vec<(String, JsonValue)> = Vec::new();
        push_member(&mut ms, "success", JsonValue::Bool(self.success));
        push_member(&mut ms, "documentId", JsonValue::Str(self.document_id.clone()));
        push_member(&mut ms, "status", JsonValue::Str(self.status.clone()));
        push_opt_str(&mut ms, "previewUrl", &self.preview_url);
        match &self.recipients {
            Some(rs) => push_member(&mut ms, "recipients", statuses_to_json(rs)),
            None => (),
        }
        push_member(&mut ms, "message", JsonValue::Str(self.message.clone()));
        proof {
            let v = self.deep_view();
            assert(view_of_members(ms@) =~= member("success"@, Json::Bool(v.success)) + member(
                "documentId"@,
                Json::Str(v.document_id),
            ) + member("status"@, Json::Str(v.status)) + opt_member_str(
                "previewUrl"@,
                v.preview_url,
            ) + opt_member_json("recipients"@, opt_statuses_json(v.recipients)) + member(
                "message"@,
                Json::Str(v.message),
            ));
        }
        JsonValue::Obj(ms)
    }

    /// Decode from a wire object.
    pub fn from_json(j: &JsonValue) -> (r: Option<CreateSignatureReviewLinkResponse>)
        ensures
            r.deep_view() == review_link_response_of_json(j@),
    {
        let ms = match j {
            JsonValue::Obj(ms) => ms,
            _ => {
                return None;
            },
        };
        let success = match get_req_bool(ms, "success") {
            Some(v) => v,
            None => {
                return None;
            },
        };
        let document_id = match get_req_str(ms, "documentId") {
            Some(v) => v,
            None => {
                return None;
            },
        };
        let status = match get_req_str(ms, "status") {
            Some(v) => v,
            None => {
                return None;
            },
        };
        let preview_url = match get_opt_str(ms, "previewUrl") {
            Some(v) => v,
            None => {
                return None;
            },
        };
        let recipients = match crate::json::obj_get(ms, "recipients") {
            None => None,
            Some(JsonValue::Arr(items)) => match statuses_of_items(items) {
                Some(rs) => Some(rs),
                None => {
                    return None;
                },
            },
            Some(_) => {
                return None;
            },
        };
        let message = match get_req_str(ms, "message") {
            Some(v) => v,
            None => {
                return None;
            },
        };
        Some(
            CreateSignatureReviewLinkResponse {
                success,
                document_id,
                status,
                preview_url,
                recipients,
                message,
            },
        )
    }
}

proof fn lemma_statuses_arr_roundtrip(rs: Seq<RecipientStatusV>)
    ensures
        statuses_of_arr(statuses_json_arr(rs)) == Some(rs),
    decreases rs.len(),
{
    let items = statuses_json_arr(rs);
    if rs.len() == 0 {
        assert(items.len() == 0);
    } else {
        lemma_recipient_status_roundtrip(rs[0]);
        lemma_statuses_arr_roundtrip(rs.skip(1));
        assert(items.skip(1) =~= statuses_json_arr(rs.skip(1)));
        assert(items[0] == recipient_status_json(rs[0]));
        assert(rs =~= seq![rs[0]] + rs.skip(1));
    }
}

/// Round trip: encoding a review-link response and decoding the result
/// yields the same value.
pub proof fn lemma_review_link_response_roundtrip(v: ReviewLinkResponseV)
    ensures
        review_link_response_of_json(review_link_response_json(v)) == Some(v),
{
    reveal_strlit("success");
    reveal_strlit("documentId");
    reveal_strlit("status");
    reveal_strlit("previewUrl");
    reveal_strlit("recipients");
    reveal_strlit("message");
    assert("success"@.len() == 7);
    assert("documentId"@.len() == 10);
    assert("status"@.len() == 6);
    assert("previewUrl"@.len() == 10);
    assert("recipients"@.len() == 10);
    assert("message"@.len() == 7);
    assert("success"@[0] == 's');
    assert("message"@[0] == 'm');
    assert("documentId"@[0] == 'd');
    assert("previewUrl"@[0] == 'p');
    assert("recipients"@[0] == 'r');
    let m1 = member("success"@, Json::Bool(v.success));
    let m2 = member("documentId"@, Json::Str(v.document_id));
    let m3 = member("status"@, Json::Str(v.status));
    let m4 = opt_member_str("previewUrl"@, v.preview_url);
    let m5 = opt_member_json("recipients"@, opt_statuses_json(v.recipients));
    let m6 = member("message"@, Json::Str(v.message));
    lemma_lookup_member("success"@, Json::Bool(v.success));
    lemma_lookup_member("documentId"@, Json::Str(v.document_id));
    lemma_lookup_member("status"@, Json::Str(v.status));
    lemma_lookup_opt_str("previewUrl"@, v.preview_url);
    lemma_lookup_opt_json("recipients"@, opt_statuses_json(v.recipients));
    lemma_lookup_member("message"@, Json::Str(v.message));
    lemma_lookup_concat(m1, m2);
    lemma_lookup_concat(m1 + m2, m3);
    lemma_lookup_concat(m1 + m2 + m3, m4);
    lemma_lookup_concat(m1 + m2 + m3 + m4, m5);
    lemma_lookup_concat(m1 + m2 + m3 + m4 + m5, m6);
    match v.recipients {
        Some(rs) => {
            lemma_statuses_arr_roundtrip(rs);
        },
        None => (),
    }
}

/// Mathematical model of a `SendSignatureResponse`.
pub struct SendSignatureResponseV {
    pub success: bool,
    pub document_id: Seq<char>,
    pub message: Seq<char>,
}

/// Answer to a send request: the document identifier and a confirmation.
#[derive(Debug, Clone, PartialEq)]
pub struct SendSignatureResponse {
    /// Whether the request was accepted.
    pub success: bool,
    /// Identifier of the sent document.
    pub document_id: String,
    /// Message from the service.
    pub message: String,
}

impl DeepView for SendSignatureResponse {
    type V = SendSignatureResponseV;

    open spec fn deep_view(&self) -> SendSignatureResponseV {
        SendSignatureResponseV {
            success: self.success,
            document_id: self.document_id@,
            message: self.message@,
        }
    }
}

pub open spec fn send_signature_response_json(v: SendSignatureResponseV) -> Json {
    Json::Obj(
        member("success"@, Json::Bool(v.success)) + member(
            "documentId"@,
            Json::Str(v.document_id),
        ) + member("message"@, Json::Str(v.message)),
    )
}

pub open spec fn send_signature_response_of_json(j: Json) -> Option<SendSignatureResponseV> {
    match j {
        Json::Obj(ms) => match (spec_req_bool(ms, "success"@), spec_req_str(ms, "documentId"@),
        spec_req_str(ms, "message"@)) {
            (Some(success), Some(document_id), Some(message)) => Some(
                SendSignatureResponseV { success, document_id, message },
            ),
            _ => None,
        },
        _ => None,
    }
}

impl SendSignatureResponse {
    /// Encode to the wire object.
    pub fn to_json(&self) -> (j: JsonValue)
        ensures
            j@ == send_signature_response_json(self.deep_view()),
    {
        let mut ms: Vec<(String, JsonValue)> = Vec::new();
        push_member(&mut ms, "success", JsonValue::Bool(self.success));
        push_member(&mut ms, "documentId", JsonValue::Str(self.document_id.clone()));
        push_member(&mut ms, "message", JsonValue::Str(self.message.clone()));
        proof {
            assert(view_of_members(ms@) =~= member("success"@, Json::Bool(self.success)) + member(
                "documentId"@,
                Json::Str(self.document_id@),
            ) + member("message"@, Json::Str(self.message@)));
        }
        JsonValue::Obj(ms)
    }

    /// Decode from a wire object.
    pub fn from_json(j: &JsonValue) -> (r: Option<SendSignatureResponse>)
        ensures
            r.deep_view() == send_signature_response_of_json(j@),
    {
        match j {
            JsonValue::Obj(ms) => match (get_req_bool(ms, "success"), get_req_str(
                ms,
                "documentId",
            ), get_req_str(ms, "message")) {
                (Some(success), Some(document_id), Some(message)) => Some(
                    SendSignatureResponse { success, document_id, message },
                ),
                _ => None,
            },
            _ => None,
        }
    }
}

/// Round trip: encoding a send response and decoding the result yields the
/// same value.
pub proof fn lemma_send_signature_response_roundtrip(v: SendSignatureResponseV)
    ensures
        send_signature_response_of_json(send_signature_response_json(v)) == Some(v),
{
    reveal_strlit("success");
    reveal_strlit("documentId");
    reveal_strlit("message");
    assert("success"@.len() == 7);
    assert("documentId"@.len() == 10);
    assert("message"@.len() == 7);
    assert("success"@[0] == 's');
    assert("message"@[0] == 'm');
    let m1 = member("success"@, Json::Bool(v.success));
    let m2 = member("documentId"@, Json::Str(v.document_id));
    let m3 = member("message"@, Json::Str(v.message));
    lemma_lookup_member("success"@, Json::Bool(v.success));
    lemma_lookup_member("documentId"@, Json::Str(v.document_id));
    lemma_lookup_member("message"@, Json::Str(v.message));
    lemma_lookup_concat(m1, m2);
    lemma_lookup_concat(m1 + m2, m3);
}

/// Mathematical model of a `VoidDocumentResponse`.
pub struct VoidDocumentResponseV {
    pub success: bool,
    pub message: Seq<char>,
}

/// Answer to a void request.
#[derive(Debug, Clone, PartialEq)]
pub struct VoidDocumentResponse {
    /// Whether the document was voided.
    pub success: bool,
    /// Message from the service.
    pub message: String,
}

impl DeepView for VoidDocumentResponse {
    type V = VoidDocumentResponseV;

    open spec fn deep_view(&self) -> VoidDocumentResponseV {
        VoidDocumentResponseV { success: self.success, message: self.message@ }
    }
}

pub open spec fn void_document_response_json(v: VoidDocumentResponseV) -> Json {
    Json::Obj(member("success"@, Json::Bool(v.success)) + member("message"@, Json::Str(v.message)))
}

pub open spec fn void_document_response_of_json(j: Json) -> Option<VoidDocumentResponseV> {
    match j {
        Json::Obj(ms) => match (spec_req_bool(ms, "success"@), spec_req_str(ms, "message"@)) {
            (Some(success), Some(message)) => Some(VoidDocumentResponseV { success, message }),
            _ => None,
        },
        _ => None,
    }
}

impl VoidDocumentResponse {
    /// Encode to the wire object.
    pub fn to_json(&self) -> (j: JsonValue)
        ensures
            j@ == void_document_response_json(self.deep_view()),
    {
        let mut ms: Vec<(String, JsonValue)> = Vec::new();
        push_member(&mut ms, "success", JsonValue::Bool(self.success));
        push_member(&mut ms, "message", JsonValue::Str(self.message.clone()));
        proof {
            assert(view_of_members(ms@) =~= member("success"@, Json::Bool(self.success)) + member(
                "message"@,
                Json::Str(self.message@),
            ));
        }
        JsonValue::Obj(ms)
    }

    /// Decode from a wire object.
    pub fn from_json(j: &JsonValue) -> (r: Option<VoidDocumentResponse>)
        ensures
            r.deep_view() == void_document_response_of_json(j@),
    {
        match j {
            JsonValue::Obj(ms) => match (get_req_bool(ms, "success"), get_req_str(ms, "message")) {
                (Some(success), Some(message)) => Some(VoidDocumentResponse { success, message }),
                _ => None,
            },
            _ => None,
        }
    }
}

/// Round trip: encoding a void response and decoding the result yields the
/// same value.
pub proof fn lemma_void_document_response_roundtrip(v: VoidDocumentResponseV)
    ensures
        void_document_response_of_json(void_document_response_json(v)) == Some(v),
{
    reveal_strlit("success");
    reveal_strlit("message");
    assert("success"@[0] == 's');
    assert("message"@[0] == 'm');
    let m1 = member("success"@, Json::Bool(v.success));
    let m2 = member("message"@, Json::Str(v.message));
    lemma_lookup_member("success"@, Json::Bool(v.success));
    lemma_lookup_member("message"@, Json::Str(v.message));
    lemma_lookup_concat(m1, m2);
}

/// Mathematical model of a `ResendEmailResponse`.
pub struct ResendEmailResponseV {
    pub success: bool,
    pub recipient_count: u32,
}

/// Answer to a resend request.
#[derive(Debug, Clone, PartialEq)]
pub struct ResendEmailResponse {
    /// Whether the emails were resent.
    pub success: bool,
    /// How many recipients received an email.
    pub recipient_count: u32,
}

impl DeepView for ResendEmailResponse {
    type V = ResendEmailResponseV;

    open spec fn deep_view(&self) -> ResendEmailResponseV {
        ResendEmailResponseV {
            success: self.success,
            recipient_count: self.recipient_count,
        }
    }
}

pub open spec fn resend_email_response_json(v: ResendEmailResponseV) -> Json {
    Json::Obj(
        member("success"@, Json::Bool(v.success)) + member(
            "recipientCount"@,
            Json::Int(v.recipient_count as int),
        ),
    )
}

pub open spec fn resend_email_response_of_json(j: Json) -> Option<ResendEmailResponseV> {
    match j {
        Json::Obj(ms) => match (spec_req_bool(ms, "success"@), spec_req_u32(
            ms,
            "recipientCount"@,
        )) {
            (Some(success), Some(recipient_count)) => Some(
                ResendEmailResponseV { success, recipient_count },
            ),
            _ => None,
        },
        _ => None,
    }
}

impl ResendEmailResponse {
    /// Encode to the wire object.
    pub fn to_json(&self) -> (j: JsonValue)
        ensures
            j@ == resend_email_response_json(self.deep_view()),
    {
        let mut ms: Vec<(String, JsonValue)> = Vec::new();
        push_member(&mut ms, "success", JsonValue::Bool(self.success));
        push_member(&mut ms, "recipientCount", JsonValue::Int(self.recipient_count as i64));
        proof {
            assert(view_of_members(ms@) =~= member("success"@, Json::Bool(self.success)) + member(
                "recipientCount"@,
                Json::Int(self.recipient_count as int),
            ));
        }
        JsonValue::Obj(ms)
    }

    /// Decode from a wire object.
    pub fn from_json(j: &JsonValue) -> (r: Option<ResendEmailResponse>)
        ensures
            r.deep_view() == resend_email_response_of_json(j@),
    {
        match j {
            JsonValue::Obj(ms) => match (get_req_bool(ms, "success"), get_req_u32(
                ms,
                "recipientCount",
            )) {
                (Some(success), Some(recipient_count)) => Some(
                    ResendEmailResponse { success, recipient_count },
                ),
                _ => None,
            },
            _ => None,
        }
    }
}

/// Round trip: encoding a resend response and decoding the result yields the
/// same value.
pub proof fn lemma_resend_email_response_roundtrip(v: ResendEmailResponseV)
    ensures
        resend_email_response_of_json(resend_email_response_json(v)) == Some(v),
{
    reveal_strlit("success");
    reveal_strlit("recipientCount");
    assert("success"@.len() == 7);
    assert("recipientCount"@.len() == 14);
    let m1 = member("success"@, Json::Bool(v.success));
    let m2 = member("recipientCount"@, Json::Int(v.recipient_count as int));
    lemma_lookup_member("success"@, Json::Bool(v.success));
    lemma_lookup_member("recipientCount"@, Json::Int(v.recipient_count as int));
    lemma_lookup_concat(m1, m2);
}

/// Mathematical model of a `DocumentStatusResponse`.
pub struct DocumentStatusResponseV {
    pub status: Seq<char>,
}

/// Current state of a signature request.
#[derive(Debug, Clone, PartialEq)]
pub struct DocumentStatusResponse {
    /// State of the document.
    pub status: String,
}

impl DeepView for DocumentStatusResponse {
    type V = DocumentStatusResponseV;

    open spec fn deep_view(&self) -> DocumentStatusResponseV {
        DocumentStatusResponseV { status: self.status@ }
    }
}

pub open spec fn document_status_response_json(v: DocumentStatusResponseV) -> Json {
    Json::Obj(member("status"@, Json::Str(v.status)))
}

pub open spec fn document_status_response_of_json(j: Json) -> Option<DocumentStatusResponseV> {
    match j {
        Json::Obj(ms) => match spec_req_str(ms, "status"@) {
            Some(status) => Some(DocumentStatusResponseV { status }),
            None => None,
        },
        _ => None,
    }
}

impl DocumentStatusResponse {
    /// Encode to the wire object.
    pub fn to_json(&self) -> (j: JsonValue)
        ensures
            j@ == document_status_response_json(self.deep_view()),
    {
        let mut ms: Vec<(String, JsonValue)> = Vec::new();
        push_member(&mut ms, "status", JsonValue::Str(self.status.clone()));
        proof {
            assert(view_of_members(ms@) =~= member("status"@, Json::Str(self.status@)));
        }
        JsonValue::Obj(ms)
    }

    /// Decode from a wire object.
    pub fn from_json(j: &JsonValue) -> (r: Option<DocumentStatusResponse>)
        ensures
            r.deep_view() == document_status_response_of_json(j@),
    {
        match j {
            JsonValue::Obj(ms) => match get_req_str(ms, "status") {
                Some(status) => Some(DocumentStatusResponse { status }),
                None => None,
            },
            _ => None,
        }
    }
}

/// Round trip: encoding a status response and decoding the result yields the
/// same value.
pub proof fn lemma_document_status_response_roundtrip(v: DocumentStatusResponseV)
    ensures
        document_status_response_of_json(document_status_response_json(v)) == Some(v),
{
    lemma_lookup_member("status"@, Json::Str(v.status));
}

/// Mathematical model of an `AuditTrailUser`.
pub struct AuditTrailUserV {
    pub name: Seq<char>,
    pub email: Seq<char>,
}

/// A person appearing in the audit trail.
#[derive(Debug, Clone, PartialEq)]
pub struct AuditTrailUser {
    pub name: String,
    pub email: String,
}

impl DeepView for AuditTrailUser {
    type V = AuditTrailUserV;

    open spec fn deep_view(&self) -> AuditTrailUserV {
        AuditTrailUserV { name: self.name@, email: self.email@ }
    }
}

pub open spec fn audit_user_json(v: AuditTrailUserV) -> Json {
    Json::Obj(member("name"@, Json::Str(v.name)) + member("email"@, Json::Str(v.email)))
}

pub open spec fn audit_user_of_json(j: Json) -> Option<AuditTrailUserV> {
    match j {
        Json::Obj(ms) => match (spec_req_str(ms, "name"@), spec_req_str(ms, "email"@)) {
            (Some(name), Some(email)) => Some(AuditTrailUserV { name, email }),
            _ => None,
        },
        _ => None,
    }
}

impl AuditTrailUser {
    /// Encode to the wire object.
    pub fn to_json(&self) -> (j: JsonValue)
        ensures
            j@ == audit_user_json(self.deep_view()),
    {
        let mut ms: Vec<(String, JsonValue)> = Vec::new();
        push_member(&mut ms, "name", JsonValue::Str(self.name.clone()));
        push_member(&mut ms, "email", JsonValue::Str(self.email.clone()));
        proof {
            assert(view_of_members(ms@) =~= member("name"@, Json::Str(self.name@)) + member(
                "email"@,
                Json::Str(self.email@),
            ));
        }
        JsonValue::Obj(ms)
    }

    /// Decode from a wire object.
    pub fn from_json(j: &JsonValue) -> (r: Option<AuditTrailUser>)
        ensures
            r.deep_view() == audit_user_of_json(j@),
    {
        match j {
            JsonValue::Obj(ms) => match (get_req_str(ms, "name"), get_req_str(ms, "email")) {
                (Some(name), Some(email)) => Some(AuditTrailUser { name, email }),
                _ => None,
            },
            _ => None,
        }
    }
}

/// Round trip: encoding an audit trail user and decoding the result yields
/// the same value.
pub proof fn lemma_audit_user_roundtrip(v: AuditTrailUserV)
    ensures
        audit_user_of_json(audit_user_json(v)) == Some(v),
{
    reveal_strlit("name");
    reveal_strlit("email");
    assert("name"@.len() == 4);
    assert("email"@.len() == 5);
    let m1 = member("name"@, Json::Str(v.name));
    let m2 = member("email"@, Json::Str(v.email));
    lemma_lookup_member("name"@, Json::Str(v.name));
    lemma_lookup_member("email"@, Json::Str(v.email));
    lemma_lookup_concat(m1, m2);
}

/// Mathematical model of an `AuditTrailDocument`.
pub struct AuditTrailDocumentV {
    pub id: Seq<char>,
    pub name: Seq<char>,
}

/// The document an audit trail belongs to.
#[derive(Debug, Clone, PartialEq)]
pub struct AuditTrailDocument {
    pub id: String,
    pub name: String,
}

impl DeepView for AuditTrailDocument {
    type V = AuditTrailDocumentV;

    open spec fn deep_view(&self) -> AuditTrailDocumentV {
        AuditTrailDocumentV { id: self.id@, name: self.name@ }
    }
}

pub open spec fn audit_document_json(v: AuditTrailDocumentV) -> Json {
    Json::Obj(member("id"@, Json::Str(v.id)) + member("name"@, Json::Str(v.name)))
}

pub open spec fn audit_document_of_json(j: Json) -> Option<AuditTrailDocumentV> {
    match j {
        Json::Obj(ms) => match (spec_req_str(ms, "id"@), spec_req_str(ms, "name"@)) {
            (Some(id), Some(name)) => Some(AuditTrailDocumentV { id, name }),
            _ => None,
        },
        _ => None,
    }
}

impl AuditTrailDocument {
    /// Encode to the wire object.
    pub fn to_json(&self) -> (j: JsonValue)
        ensures
            j@ == audit_document_json(self.deep_view()),
    {
        let mut ms: Vec<(String, JsonValue)> = Vec::new();
        push_member(&mut ms, "id", JsonValue::Str(self.id.clone()));
        push_member(&mut ms, "name", JsonValue::Str(self.name.clone()));
        proof {
            assert(view_of_members(ms@) =~= member("id"@, Json::Str(self.id@)) + member(
                "name"@,
                Json::Str(self.name@),
            ));
        }
        JsonValue::Obj(ms)
    }

    /// Decode from a wire object.
    pub fn from_json(j: &JsonValue) -> (r: Option<AuditTrailDocument>)
        ensures
            r.deep_view() == audit_document_of_json(j@),
    {
        match j {
            JsonValue::Obj(ms) => match (get_req_str(ms, "id"), get_req_str(ms, "name")) {
                (Some(id), Some(name)) => Some(AuditTrailDocument { id, name }),
                _ => None,
            },
            _ => None,
        }
    }
}

/// Round trip: encoding an audit trail document and decoding the result
/// yields the same value.
pub proof fn lemma_audit_document_roundtrip(v: AuditTrailDocumentV)
    ensures
        audit_document_of_json(audit_document_json(v)) == Some(v),
{
    reveal_strlit("id");
    reveal_strlit("name");
    assert("id"@.len() == 2);
    assert("name"@.len() == 4);
    let m1 = member("id"@, Json::Str(v.id));
    let m2 = member("name"@, Json::Str(v.name));
    lemma_lookup_member("id"@, Json::Str(v.id));
    lemma_lookup_member("name"@, Json::Str(v.name));
    lemma_lookup_concat(m1, m2);
}

/// Mathematical model of an `AuditTrailEntry`.
pub struct AuditTrailEntryV {
    pub id: Seq<char>,
    pub document_id: Seq<char>,
    pub action_type: Seq<char>,
    pub timestamp: Seq<char>,
    pub previous_hash: Option<Seq<char>>,
    pub current_hash: Option<Seq<char>>,
    pub created_on: Option<Seq<char>>,
    pub details: Option<Seq<(Seq<char>, Json)>>,
    pub user: Option<AuditTrailUserV>,
    pub user_id: Option<Seq<char>>,
    pub recipient: Option<AuditTrailUserV>,
    pub recipient_id: Option<Seq<char>>,
}

/// One event in the hash-chained history of a document.
#[derive(Debug, Clone, PartialEq)]
pub struct AuditTrailEntry {
    /// Identifier of this entry.
    pub id: String,
    /// Identifier of the document.
    pub document_id: String,
    /// What happened.
    pub action_type: String,
    /// When it happened.
    pub timestamp: String,
    /// Hash of the preceding entry.
    pub previous_hash: Option<String>,
    /// Hash of this entry.
    pub current_hash: Option<String>,
    /// When the entry was recorded.
    pub created_on: Option<String>,
    /// Free-form additional facts.
    pub details: Option<Vec<(String, JsonValue)>>,
    /// Who acted.
    pub user: Option<AuditTrailUser>,
    /// Identifier of who acted.
    pub user_id: Option<String>,
    /// The recipient concerned.
    pub recipient: Option<AuditTrailUser>,
    /// Identifier of the recipient concerned.
    pub recipient_id: Option<String>,
}

impl DeepView for AuditTrailEntry {
    type V = AuditTrailEntryV;

    open spec fn deep_view(&self) -> AuditTrailEntryV {
        AuditTrailEntryV {
            id: self.id@,
            document_id: self.document_id@,
            action_type: self.action_type@,
            timestamp: self.timestamp@,
            previous_hash: self.previous_hash.deep_view(),
            current_hash: self.current_hash.deep_view(),
            created_on: self.created_on.deep_view(),
            details: match &self.details {
                Some(d) => Some(view_of_members(d@)),
                None => None,
            },
            user: match &self.user {
                Some(u) => Some(u.deep_view()),
                None => None,
            },
            user_id: self.user_id.deep_view(),
            recipient: match &self.recipient {
                Some(u) => Some(u.deep_view()),
                None => None,
            },
            recipient_id: self.recipient_id.deep_view(),
        }
    }
}

pub open spec fn opt_obj_json(d: Option<Seq<(Seq<char>, Json)>>) -> Option<Json> {
    match d {
        Some(ms) => Some(Json::Obj(ms)),
        None => None,
    }
}

pub open spec fn opt_audit_user_json(u: Option<AuditTrailUserV>) -> Option<Json> {
    match u {
        Some(u) => Some(audit_user_json(u)),
        None => None,
    }
}

pub open spec fn audit_entry_json(v: AuditTrailEntryV) -> Json {
    Json::Obj(
        member("id"@, Json::Str(v.id)) + member("documentId"@, Json::Str(v.document_id)) + member(
            "actionType"@,
            Json::Str(v.action_type),
        ) + member("timestamp"@, Json::Str(v.timestamp)) + opt_member_str(
            "previousHash"@,
            v.previous_hash,
        ) + opt_member_str("currentHash"@, v.current_hash) + opt_member_str(
            "createdOn"@,
            v.created_on,
        ) + opt_member_json("details"@, opt_obj_json(v.details)) + opt_member_json(
            "user"@,
            opt_audit_user_json(v.user),
        ) + opt_member_str("userId"@, v.user_id) + opt_member_json(
            "recipient"@,
            opt_audit_user_json(v.recipient),
        ) + opt_member_str("recipientId"@, v.recipient_id),
    )
}

pub open spec fn spec_opt_audit_user(ms: Seq<(Seq<char>, Json)>, k: Seq<char>) -> Option<
    Option<AuditTrailUserV>,
> {
    match obj_lookup(ms, k) {
        None => Some(None),
        Some(j) => match audit_user_of_json(j) {
            Some(u) => Some(Some(u)),
            None => None,
        },
    }
}

pub open spec fn audit_entry_of_json(j: Json) -> Option<AuditTrailEntryV> {
    match j {
        Json::Obj(ms) => match (spec_req_str(ms, "id"@), spec_req_str(ms, "documentId"@),
        spec_req_str(ms, "actionType"@), spec_req_str(ms, "timestamp"@), spec_opt_str(
            ms,
            "previousHash"@,
        ), spec_opt_str(ms, "currentHash"@), spec_opt_str(ms, "createdOn"@), spec_opt_obj(
            ms,
            "details"@,
        ), spec_opt_audit_user(ms, "user"@), spec_opt_str(ms, "userId"@), spec_opt_audit_user(
            ms,
            "recipient"@,
        ), spec_opt_str(ms, "recipientId"@)) {
            (
                Some(id),
                Some(document_id),
                Some(action_type),
                Some(timestamp),
                Some(previous_hash),
                Some(current_hash),
                Some(created_on),
                Some(details),
                Some(user),
                Some(user_id),
                Some(recipient),
                Some(recipient_id),
            ) => Some(
                AuditTrailEntryV {
                    id,
                    document_id,
                    action_type,
                    timestamp,
                    previous_hash,
                    current_hash,
                    created_on,
                    details,
                    user,
                    user_id,
                    recipient,
                    recipient_id,
                },
            ),
            _ => None,
        },
        _ => None,
    }
}

impl AuditTrailEntry {
    /// Encode to the wire object; unset optional fields are omitted.
    pub fn to_json(&self) -> (j: JsonValue)
        ensures
            j@ == audit_entry_json(self.deep_view()),
    {
        let mut ms: Vec<(String, JsonValue)> = Vec::new();
        push_member(&mut ms, "id", JsonValue::Str(self.id.clone()));
        push_member(&mut ms, "documentId", JsonValue::Str(self.document_id.clone()));
        push_member(&mut ms, "actionType", JsonValue::Str(self.action_type.clone()));
        push_member(&mut ms, "timestamp", JsonValue::Str(self.timestamp.clone()));
        push_opt_str(&mut ms, "previousHash", &self.previous_hash);
        push_opt_str(&mut ms, "currentHash", &self.current_hash);
        push_opt_str(&mut ms, "createdOn", &self.created_on);
        match &self.details {
            Some(d) => push_member(&mut ms, "details", JsonValue::Obj(crate::json::clone_members(d))),
            None => (),
        }
        match &self.user {
            Some(u) => push_member(&mut ms, "user", u.to_json()),
            None => (),
        }
        push_opt_str(&mut ms, "userId", &self.user_id);
        match &self.recipient {
            Some(u) => push_member(&mut ms, "recipient", u.to_json()),
            None => (),
        }
        push_opt_str(&mut ms, "recipientId", &self.recipient_id);
        proof {
            let v = self.deep_view();
            assert(view_of_members(ms@) =~= member("id"@, Json::Str(v.id)) + member(
                "documentId"@,
                Json::Str(v.document_id),
            ) + member("actionType"@, Json::Str(v.action_type)) + member(
                "timestamp"@,
                Json::Str(v.timestamp),
            ) + opt_member_str("previousHash"@, v.previous_hash) + opt_member_str(
                "currentHash"@,
                v.current_hash,
            ) + opt_member_str("createdOn"@, v.created_on) + opt_member_json(
                "details"@,
                opt_obj_json(v.details),
            ) + opt_member_json("user"@, opt_audit_user_json(v.user)) + opt_member_str(
                "userId"@,
                v.user_id,
            ) + opt_member_json("recipient"@, opt_audit_user_json(v.recipient)) + opt_member_str(
                "recipientId"@,
                v.recipient_id,
            ));
        }
        JsonValue::Obj(ms)
    }

    /// Decode from a wire object.
    pub fn from_json(j: &JsonValue) -> (r: Option<AuditTrailEntry>)
        ensures
            r.deep_view() == audit_entry_of_json(j@),
    {
        let ms = match j {
            JsonValue::Obj(ms) => ms,
            _ => {
                return None;
            },
        };
        let id = match get_req_str(ms, "id") {
            Some(v) => v,
            None => {
                return None;
            },
        };
        let document_id = match get_req_str(ms, "documentId") {
            Some(v) => v,
            None => {
                return None;
            },
        };
        let action_type = match get_req_str(ms, "actionType") {
            Some(v) => v,
            None => {
                return None;
            },
        };
        let timestamp = match get_req_str(ms, "timestamp") {
            Some(v) => v,
            None => {
                return None;
            },
        };
        let previous_hash = match get_opt_str(ms, "previousHash") {
            Some(v) => v,
            None => {
                return None;
            },
        };
        let current_hash = match get_opt_str(ms, "currentHash") {
            Some(v) => v,
            None => {
                return None;
            },
        };
        let created_on = match get_opt_str(ms, "createdOn") {
            Some(v) => v,
            None => {
                return None;
            },
        };
        let details = match crate::json::get_opt_obj(ms, "details") {
            Some(v) => v,
            None => {
                return None;
            },
        };
        let user = match crate::json::obj_get(ms, "user") {
            None => None,
            Some(v) => match AuditTrailUser::from_json(v) {
                Some(u) => Some(u),
                None => {
                    return None;
                },
            },
        };
        let user_id = match get_opt_str(ms, "userId") {
            Some(v) => v,
            None => {
                return None;
            },
        };
        let recipient = match crate::json::obj_get(ms, "recipient") {
            None => None,
            Some(v) => match AuditTrailUser::from_json(v) {
                Some(u) => Some(u),
                None => {
                    return None;
                },
            },
        };
        let recipient_id = match get_opt_str(ms, "recipientId") {
            Some(v) => v,
            None => {
                return None;
            },
        };
        Some(
            AuditTrailEntry {
                id,
                document_id,
                action_type,
                timestamp,
                previous_hash,
                current_hash,
                created_on,
                details,
                user,
                user_id,
                recipient,
                recipient_id,
            },
        )
    }
}

/// Round trip: encoding an audit trail entry and decoding the result yields
/// the same value.
#[verifier::rlimit(100)]
pub proof fn lemma_audit_entry_roundtrip(v: AuditTrailEntryV)
    ensures
        audit_entry_of_json(audit_entry_json(v)) == Some(v),
{
    reveal_strlit("id");
    reveal_strlit("documentId");
    reveal_strlit("actionType");
    reveal_strlit("timestamp");
    reveal_strlit("previousHash");
    reveal_strlit("currentHash");
    reveal_strlit("createdOn");
    reveal_strlit("details");
    reveal_strlit("user");
    reveal_strlit("userId");
    reveal_strlit("recipient");
    reveal_strlit("recipientId");
    assert("id"@.len() == 2);
    assert("documentId"@.len() == 10);
    assert("actionType"@.len() == 10);
    assert("timestamp"@.len() == 9);
    assert("previousHash"@.len() == 12);
    assert("currentHash"@.len() == 11);
    assert("createdOn"@.len() == 9);
    assert("details"@.len() == 7);
    assert("user"@.len() == 4);
    assert("userId"@.len() == 6);
    assert("recipient"@.len() == 9);
    assert("recipientId"@.len() == 11);
    assert("documentId"@[0] == 'd');
    assert("actionType"@[0] == 'a');
    assert("timestamp"@[0] == 't');
    assert("createdOn"@[0] == 'c');
    assert("recipient"@[0] == 'r');
    assert("currentHash"@[0] == 'c');
    assert("recipientId"@[0] == 'r');
    let s1 = member("id"@, Json::Str(v.id));
    let s2 = member("documentId"@, Json::Str(v.document_id));
    let s3 = member("actionType"@, Json::Str(v.action_type));
    let s4 = member("timestamp"@, Json::Str(v.timestamp));
    let s5 = opt_member_str("previousHash"@, v.previous_hash);
    let s6 = opt_member_str("currentHash"@, v.current_hash);
    let s7 = opt_member_str("createdOn"@, v.created_on);
    let s8 = opt_member_json("details"@, opt_obj_json(v.details));
    let s9 = opt_member_json("user"@, opt_audit_user_json(v.user));
    let s10 = opt_member_str("userId"@, v.user_id);
    let s11 = opt_member_json("recipient"@, opt_audit_user_json(v.recipient));
    let s12 = opt_member_str("recipientId"@, v.recipient_id);
    lemma_lookup_member("id"@, Json::Str(v.id));
    lemma_lookup_member("documentId"@, Json::Str(v.document_id));
    lemma_lookup_member("actionType"@, Json::Str(v.action_type));
    lemma_lookup_member("timestamp"@, Json::Str(v.timestamp));
    lemma_lookup_opt_str("previousHash"@, v.previous_hash);
    lemma_lookup_opt_str("currentHash"@, v.current_hash);
    lemma_lookup_opt_str("createdOn"@, v.created_on);
    lemma_lookup_opt_json("details"@, opt_obj_json(v.details));
    lemma_lookup_opt_json("user"@, opt_audit_user_json(v.user));
    lemma_lookup_opt_str("userId"@, v.user_id);
    lemma_lookup_opt_json("recipient"@, opt_audit_user_json(v.recipient));
    lemma_lookup_opt_str("recipientId"@, v.recipient_id);
    lemma_lookup_concat(s1, s2);
    lemma_lookup_concat(s1 + s2, s3);
    lemma_lookup_concat(s1 + s2 + s3, s4);
    lemma_lookup_concat(s1 + s2 + s3 + s4, s5);
    lemma_lookup_concat(s1 + s2 + s3 + s4 + s5, s6);
    lemma_lookup_concat(s1 + s2 + s3 + s4 + s5 + s6, s7);
    lemma_lookup_concat(s1 + s2 + s3 + s4 + s5 + s6 + s7, s8);
    lemma_lookup_concat(s1 + s2 + s3 + s4 + s5 + s6 + s7 + s8, s9);
    lemma_lookup_concat(s1 + s2 + s3 + s4 + s5 + s6 + s7 + s8 + s9, s10);
    lemma_lookup_concat(s1 + s2 + s3 + s4 + s5 + s6 + s7 + s8 + s9 + s10, s11);
    lemma_lookup_concat(s1 + s2 + s3 + s4 + s5 + s6 + s7 + s8 + s9 + s10 + s11, s12);
    match v.user {
        Some(u) => {
            lemma_audit_user_roundtrip(u);
        },
        None => (),
    }
    match v.recipient {
        Some(u) => {
            lemma_audit_user_roundtrip(u);
        },
        None => (),
    }
}

/// Mathematical model of an `AuditTrailResponse`.
pub struct AuditTrailResponseV {
    pub document: AuditTrailDocumentV,
    pub audit_trail: Seq<AuditTrailEntryV>,
}

/// The chronological, hash-chained history of a document.
#[derive(Debug, Clone, PartialEq)]
pub struct AuditTrailResponse {
    /// The document the history belongs to.
    pub document: AuditTrailDocument,
    /// The events, oldest first.
    pub audit_trail: Vec<AuditTrailEntry>,
}

impl DeepView for AuditTrailResponse {
    type V = AuditTrailResponseV;

    open spec fn deep_view(&self) -> AuditTrailResponseV {
        AuditTrailResponseV {
            document: self.document.deep_view(),
            audit_trail: self.audit_trail.deep_view(),
        }
    }
}

pub open spec fn entries_json_arr(es: Seq<AuditTrailEntryV>) -> Seq<Json> {
    es.map_values(|e: AuditTrailEntryV| audit_entry_json(e))
}

pub open spec fn audit_response_json(v: AuditTrailResponseV) -> Json {
    Json::Obj(
        member("document"@, audit_document_json(v.document)) + member(
            "auditTrail"@,
            Json::Arr(entries_json_arr(v.audit_trail)),
        ),
    )
}

pub open spec fn entries_of_arr(items: Seq<Json>) -> Option<Seq<AuditTrailEntryV>>
    decreases items.len(),
{
    if items.len() == 0 {
        Some(Seq::empty())
    } else {
        match audit_entry_of_json(items[0]) {
            Some(e) => match entries_of_arr(items.skip(1)) {
                Some(rest) => Some(seq![e] + rest),
                None => None,
            },
            None => None,
        }
    }
}

pub open spec fn audit_response_of_json(j: Json) -> Option<AuditTrailResponseV> {
    match j {
        Json::Obj(ms) => {
            let doc = match obj_lookup(ms, "document"@) {
                Some(dj) => audit_document_of_json(dj),
                None => None,
            };
            let entries = match obj_lookup(ms, "auditTrail"@) {
                Some(Json::Arr(items)) => entries_of_arr(items),
                _ => None,
            };
            match (doc, entries) {
                (Some(document), Some(audit_trail)) => Some(
                    AuditTrailResponseV { document, audit_trail },
                ),
                _ => None,
            }
        },
        _ => None,
    }
}

proof fn lemma_entries_of_arr_bad(items: Seq<Json>, i: int)
    requires
        0 <= i < items.len(),
        audit_entry_of_json(items[i]) is None,
    ensures
        entries_of_arr(items) is None,
    decreases i,
{
    if i > 0 {
        if audit_entry_of_json(items[0]) is Some {
            lemma_entries_of_arr_bad(items.skip(1), i - 1);
        }
    }
}

proof fn lemma_entries_of_arr_good(items: Seq<Json>, es: Seq<AuditTrailEntryV>)
    requires
        es.len() == items.len(),
        forall|j: int| 0 <= j < items.len() ==> #[trigger] audit_entry_of_json(items[j]) == Some(
            es[j],
        ),
    ensures
        entries_of_arr(items) == Some(es),
    decreases items.len(),
{
    if items.len() == 0 {
        assert(es =~= Seq::<AuditTrailEntryV>::empty());
    } else {
        lemma_entries_of_arr_good(items.skip(1), es.skip(1));
        assert(es =~= seq![es[0]] + es.skip(1));
    }
}

/// Encode a list of audit trail entries to a JSON array.
fn entries_to_json(es: &Vec<AuditTrailEntry>) -> (j: JsonValue)
    ensures
        j@ == Json::Arr(entries_json_arr(es.deep_view())),
{
    let n = es.len();
    let mut out: Vec<JsonValue> = Vec::new();
    let mut i: usize = 0;
    while i < n
        invariant
            i <= n,
            n == es.len(),
            out@.len() == i,
            forall|j: int| 0 <= j < i ==> out@[j]@ == audit_entry_json(es@[j].deep_view()),
        decreases n - i,
    {
        let ej = es[i].to_json();
        out.push(ej);
        i += 1;
    }
    proof {
        lemma_view_of_items(out@);
        assert(view_of_items(out@) =~= entries_json_arr(es.deep_view()));
    }
    JsonValue::Arr(out)
}

/// Decode a JSON array of audit trail entries.
fn entries_of_items(items: &Vec<JsonValue>) -> (r: Option<Vec<AuditTrailEntry>>)
    ensures
        r.deep_view() == entries_of_arr(view_of_items(items@)),
{
    proof {
        lemma_view_of_items(items@);
    }
    let ghost lv = view_of_items(items@);
    let n = items.len();
    let mut out: Vec<AuditTrailEntry> = Vec::new();
    let mut i: usize = 0;
    while i < n
        invariant
            i <= n,
            n == items.len(),
            lv == view_of_items(items@),
            lv.len() == items@.len(),
            forall|j: int| 0 <= j < items@.len() ==> lv[j] == items@[j]@,
            out@.len() == i,
            forall|j: int| 0 <= j < i ==> #[trigger] audit_entry_of_json(lv[j]) == Some(
                out@[j].deep_view(),
            ),
        decreases n - i,
    {
        match AuditTrailEntry::from_json(&items[i]) {
            Some(e) => {
                out.push(e);
            },
            None => {
                proof {
                    lemma_entries_of_arr_bad(lv, i as int);
                }
                return None;
            },
        }
        i += 1;
    }
    proof {
        lemma_entries_of_arr_good(lv, out.deep_view());
    }
    Some(out)
}

impl AuditTrailResponse {
    /// Encode to the wire object.
    pub fn to_json(&self) -> (j: JsonValue)
        ensures
            j@ == audit_response_json(self.deep_view()),
    {
        let mut ms: Vec<(String, JsonValue)> = Vec::new();
        push_member(&mut ms, "document", self.document.to_json());
        push_member(&mut ms, "auditTrail", entries_to_json(&self.audit_trail));
        proof {
            let v = self.deep_view();
            assert(view_of_members(ms@) =~= member("document"@, audit_document_json(v.document))
                + member("auditTrail"@, Json::Arr(entries_json_arr(v.audit_trail))));
        }
        JsonValue::Obj(ms)
    }

    /// Decode from a wire object.
    pub fn from_json(j: &JsonValue) -> (r: Option<AuditTrailResponse>)
        ensures
            r.deep_view() == audit_response_of_json(j@),
    {
        let ms = match j {
            JsonValue::Obj(ms) => ms,
            _ => {
                return None;
            },
        };
        let document = match crate::json::obj_get(ms, "document") {
            Some(dj) => match AuditTrailDocument::from_json(dj) {
                Some(d) => d,
                None => {
                    return None;
                },
            },
            None => {
                return None;
            },
        };
        let audit_trail = match crate::json::obj_get(ms, "auditTrail") {
            Some(JsonValue::Arr(items)) => match entries_of_items(items) {
                Some(es) => es,
                None => {
                    return None;
                },
            },
            _ => {
                return None;
            },
        };
        Some(AuditTrailResponse { document, audit_trail })
    }
}

proof fn lemma_entries_arr_roundtrip(es: Seq<AuditTrailEntryV>)
    ensures
        entries_of_arr(entries_json_arr(es)) == Some(es),
    decreases es.len(),
{
    let items = entries_json_arr(es);
    if es.len() == 0 {
        assert(items.len() == 0);
    } else {
        lemma_audit_entry_roundtrip(es[0]);
        lemma_entries_arr_roundtrip(es.skip(1));
        assert(items.skip(1) =~= entries_json_arr(es.skip(1)));
        assert(items[0] == audit_entry_json(es[0]));
        assert(es =~= seq![es[0]] + es.skip(1));
    }
}

/// Round trip: encoding an audit trail response and decoding the result
/// yields the same value.
pub proof fn lemma_audit_response_roundtrip(v: AuditTrailResponseV)
    ensures
        audit_response_of_json(audit_response_json(v)) == Some(v),
{
    reveal_strlit("document");
    reveal_strlit("auditTrail");
    assert("document"@.len() == 8);
    assert("auditTrail"@.len() == 10);
    let m1 = member("document"@, audit_document_json(v.document));
    let m2 = member("auditTrail"@, Json::Arr(entries_json_arr(v.audit_trail)));
    lemma_lookup_member("document"@, audit_document_json(v.document));
    lemma_lookup_member("auditTrail"@, Json::Arr(entries_json_arr(v.audit_trail)));
    lemma_lookup_concat(m1, m2);
    lemma_audit_document_roundtrip(v.document);
    lemma_entries_arr_roundtrip(v.audit_trail);
}

} // verus!
