//! JSON value model.
//!
//! `JsonValue` is the executable representation of a JSON document; `Json` is
//! its mathematical counterpart used in specifications. Numbers are modelled
//! as signed 64-bit integers, which covers every value this client exchanges
//! with the service.

use vstd::prelude::*;

verus! {

/// Mathematical model of a JSON document.
pub enum Json {
    Null,
    Bool(bool),
    Int(int),
    Str(Seq<char>),
    Arr(Seq<Json>),
    Obj(Seq<(Seq<char>, Json)>),
}

/// Executable JSON document. Object member order is preserved.
#[derive(Debug, PartialEq)]
pub enum JsonValue {
    Null,
    Bool(bool),
    Int(i64),
    Str(String),
    Arr(Vec<JsonValue>),
    Obj(Vec<(String, JsonValue)>),
}

impl View for JsonValue {
    type V = Json;

    open spec fn view(&self) -> Json
        decreases self,
    {
        match self {
            JsonValue::Null => Json::Null,
            JsonValue::Bool(b) => Json::Bool(*b),
            JsonValue::Int(i) => Json::Int(*i as int),
            JsonValue::Str(s) => Json::Str(s@),
            JsonValue::Arr(items) => Json::Arr(view_of_items(items@)),
            JsonValue::Obj(members) => Json::Obj(view_of_members(members@)),
        }
    }
}

pub open spec fn view_of_items(items: Seq<JsonValue>) -> Seq<Json>
    decreases items,
{
    if items.len() == 0 {
        Seq::empty()
    } else {
        seq![items[0]@] + view_of_items(items.skip(1))
    }
}

pub open spec fn view_of_members(members: Seq<(String, JsonValue)>) -> Seq<(Seq<char>, Json)>
    decreases members,
{
    if members.len() == 0 {
        Seq::empty()
    } else {
        seq![(members[0].0@, members[0].1@)] + view_of_members(members.skip(1))
    }
}

pub proof fn lemma_view_of_items(items: Seq<JsonValue>)
    ensures
        view_of_items(items).len() == items.len(),
        forall|i: int| 0 <= i < items.len() ==> view_of_items(items)[i] == items[i]@,
    decreases items.len(),
{
    if items.len() > 0 {
        lemma_view_of_items(items.skip(1));
        let tail = view_of_items(items.skip(1));
        assert(view_of_items(items) == seq![items[0]@] + tail);
        assert(items.skip(1).len() == items.len() - 1);
        assert forall|i: int| 0 <= i < items.len() implies view_of_items(items)[i]
            == items[i]@ by {
            if i > 0 {
                assert((seq![items[0]@] + tail)[i] == tail[i - 1]);
                assert(items.skip(1)[i - 1] == items[i]);
            } else {
                assert((seq![items[0]@] + tail)[0] == items[0]@);
            }
        }
    }
}

pub proof fn lemma_view_of_members(members: Seq<(String, JsonValue)>)
    ensures
        view_of_members(members).len() == members.len(),
        forall|i: int| 0 <= i < members.len() ==> view_of_members(members)[i] == (
            members[i].0@,
            members[i].1@,
        ),
    decreases members.len(),
{
    if members.len() > 0 {
        lemma_view_of_members(members.skip(1));
        let tail = view_of_members(members.skip(1));
        assert(view_of_members(members) == seq![(members[0].0@, members[0].1@)] + tail);
        assert(members.skip(1).len() == members.len() - 1);
        assert forall|i: int| 0 <= i < members.len() implies view_of_members(members)[i] == (
            members[i].0@,
            members[i].1@,
        ) by {
            if i > 0 {
                assert((seq![(members[0].0@, members[0].1@)] + tail)[i] == tail[i - 1]);
                assert(members.skip(1)[i - 1] == members[i]);
            } else {
                assert((seq![(members[0].0@, members[0].1@)] + tail)[0] == (
                    members[0].0@,
                    members[0].1@,
                ));
            }
        }
    }
}

/// First value bound to key `k` among the members of an object, if any.
pub open spec fn obj_lookup(members: Seq<(Seq<char>, Json)>, k: Seq<char>) -> Option<Json>
    decreases members.len(),
{
    if members.len() == 0 {
        None
    } else if members[0].0 == k {
        Some(members[0].1)
    } else {
        obj_lookup(members.skip(1), k)
    }
}

pub proof fn lemma_obj_lookup_at(members: Seq<(Seq<char>, Json)>, k: Seq<char>, i: int)
    requires
        0 <= i < members.len(),
        members[i].0 == k,
        forall|j: int| 0 <= j < i ==> members[j].0 != k,
    ensures
        obj_lookup(members, k) == Some(members[i].1),
    decreases i,
{
    if i > 0 {
        lemma_obj_lookup_at(members.skip(1), k, i - 1);
    }
}

pub proof fn lemma_obj_lookup_absent(members: Seq<(Seq<char>, Json)>, k: Seq<char>)
    requires
        forall|j: int| 0 <= j < members.len() ==> members[j].0 != k,
    ensures
        obj_lookup(members, k) is None,
    decreases members.len(),
{
    if members.len() > 0 {
        lemma_obj_lookup_absent(members.skip(1), k);
    }
}

/// Relies on str's `PartialEq` implementation: two string slices compare equal
/// exactly when they consist of the same characters.
#[verifier::external_body]
pub fn str_eq(a: &str, b: &str) -> (r: bool)
    ensures
        r == (a@ == b@),
{
    a == b
}

/// Look up the first member of a JSON object with key `k`.
pub fn obj_get<'a>(members: &'a Vec<(String, JsonValue)>, k: &str) -> (r: Option<
    &'a JsonValue,
>)
    ensures
        match r {
            Some(v) => obj_lookup(view_of_members(members@), k@) == Some(v@),
            None => obj_lookup(view_of_members(members@), k@) is None,
        },
{
    proof {
        lemma_view_of_members(members@);
    }
    let ghost msv = view_of_members(members@);
    let n = members.len();
    let mut i: usize = 0;
    while i < n
        invariant
            i <= n,
            n == members.len(),
            msv == view_of_members(members@),
            msv.len() == members@.len(),
            forall|j: int| 0 <= j < members@.len() ==> msv[j] == (
                members@[j].0@,
                members@[j].1@,
            ),
            forall|j: int| 0 <= j < i ==> msv[j].0 != k@,
        decreases n - i,
    {
        let m = &members[i];
        if str_eq(m.0.as_str(), k) {
            proof {
                lemma_obj_lookup_at(msv, k@, i as int);
            }
            return Some(&m.1);
        }
        i += 1;
    }
    proof {
        lemma_obj_lookup_absent(msv, k@);
    }
    None
}

pub proof fn lemma_view_of_items_push(s: Seq<JsonValue>, x: JsonValue)
    ensures
        view_of_items(s.push(x)) == view_of_items(s) + seq![x@],
    decreases s.len(),
{
    if s.len() == 0 {
        let e = s.push(x);
        assert(e[0] == x);
        assert(e.skip(1) =~= Seq::<JsonValue>::empty());
        assert(view_of_items(e.skip(1)) =~= Seq::<Json>::empty());
        assert(view_of_items(e) == seq![e[0]@] + view_of_items(e.skip(1)));
        assert(view_of_items(e) =~= view_of_items(s) + seq![x@]);
    } else {
        assert(s.push(x).skip(1) =~= s.skip(1).push(x));
        lemma_view_of_items_push(s.skip(1), x);
        assert(seq![s[0]@] + (view_of_items(s.skip(1)) + seq![x@]) =~= (seq![s[0]@]
            + view_of_items(s.skip(1))) + seq![x@]);
    }
}

pub proof fn lemma_view_of_members_push(s: Seq<(String, JsonValue)>, x: (String, JsonValue))
    ensures
        view_of_members(s.push(x)) == view_of_members(s) + seq![(x.0@, x.1@)],
    decreases s.len(),
{
    if s.len() == 0 {
        let e = s.push(x);
        assert(e[0] == x);
        assert(e.skip(1) =~= Seq::<(String, JsonValue)>::empty());
        assert(view_of_members(e.skip(1)) =~= Seq::<(Seq<char>, Json)>::empty());
        assert(view_of_members(e) == seq![(e[0].0@, e[0].1@)] + view_of_members(e.skip(1)));
        assert(view_of_members(e) =~= view_of_members(s) + seq![(x.0@, x.1@)]);
    } else {
        assert(s.push(x).skip(1) =~= s.skip(1).push(x));
        lemma_view_of_members_push(s.skip(1), x);
        assert(seq![(s[0].0@, s[0].1@)] + (view_of_members(s.skip(1)) + seq![(x.0@, x.1@)]) =~= (
        seq![(s[0].0@, s[0].1@)] + view_of_members(s.skip(1))) + seq![(x.0@, x.1@)]);
    }
}

impl Clone for JsonValue {
    /// Structural copy; the copy has the same mathematical value.
    fn clone(&self) -> (res: Self)
        ensures
            res@ == self@,
        decreases self@,
    {
        match self {
            JsonValue::Null => JsonValue::Null,
            JsonValue::Bool(b) => JsonValue::Bool(*b),
            JsonValue::Int(i) => JsonValue::Int(*i),
            JsonValue::Str(s) => JsonValue::Str(s.clone()),
            JsonValue::Arr(items) => {
                proof {
                    lemma_view_of_items(items@);
                }
                let ghost lv = view_of_items(items@);
                proof {
                    assert(self@ == Json::Arr(lv));
                    assert(decreases_to!(self@ => self@->Arr_0));
                }
                let n = items.len();
                let mut out: Vec<JsonValue> = Vec::new();
                let mut i: usize = 0;
                while i < n
                    invariant
                        i <= n,
                        n == items.len(),
                        lv == view_of_items(items@),
                        lv.len() == items@.len(),
                        forall|j: int| 0 <= j < items@.len() ==> lv[j] == items@[j]@,
                        decreases_to!(self@ => lv),
                        out@.len() == i,
                        forall|j: int| 0 <= j < i ==> out@[j]@ == items@[j]@,
                    decreases n - i,
                {
                    proof {
                        assert(decreases_to!(lv => lv[i as int]));
                    }
                    let c = items[i].clone();
                    out.push(c);
                    i += 1;
                }
                proof {
                    lemma_view_of_items(out@);
                    assert(view_of_items(out@) =~= lv);
                }
                JsonValue::Arr(out)
            },
            JsonValue::Obj(members) => {
                proof {
                    lemma_view_of_members(members@);
                }
                let ghost mv = view_of_members(members@);
                proof {
                    assert(self@ == Json::Obj(mv));
                    assert(decreases_to!(self@ => self@->Obj_0));
                }
                let n = members.len();
                let mut out: Vec<(String, JsonValue)> = Vec::new();
                let mut i: usize = 0;
                while i < n
                    invariant
                        i <= n,
                        n == members.len(),
                        mv == view_of_members(members@),
                        mv.len() == members@.len(),
                        forall|j: int| 0 <= j < members@.len() ==> mv[j] == (
                            members@[j].0@,
                            members@[j].1@,
                        ),
                        decreases_to!(self@ => mv),
                        out@.len() == i,
                        forall|j: int| 0 <= j < i ==> (out@[j].0@, out@[j].1@) == (
                            members@[j].0@,
                            members@[j].1@,
                        ),
                    decreases n - i,
                {
                    proof {
                        assert(decreases_to!(mv => mv[i as int]));
                        assert(decreases_to!(mv[i as int] => mv[i as int].1));
                    }
                    let m = &members[i];
                    let c = m.1.clone();
                    out.push((m.0.clone(), c));
                    i += 1;
                }
                proof {
                    lemma_view_of_members(out@);
                    assert(view_of_members(out@) =~= mv);
                }
                JsonValue::Obj(out)
            },
        }
    }
}

impl DeepView for JsonValue {
    type V = Json;

    open spec fn deep_view(&self) -> Json {
        self.view()
    }
}

/// The members contributed by an optional string field: one when the field is
/// set, none when it is not.
pub open spec fn opt_member_str(k: Seq<char>, v: Option<Seq<char>>) -> Seq<(Seq<char>, Json)> {
    match v {
        Some(s) => seq![(k, Json::Str(s))],
        None => Seq::empty(),
    }
}

pub open spec fn opt_member_bool(k: Seq<char>, v: Option<bool>) -> Seq<(Seq<char>, Json)> {
    match v {
        Some(b) => seq![(k, Json::Bool(b))],
        None => Seq::empty(),
    }
}

pub open spec fn opt_member_u32(k: Seq<char>, v: Option<u32>) -> Seq<(Seq<char>, Json)> {
    match v {
        Some(i) => seq![(k, Json::Int(i as int))],
        None => Seq::empty(),
    }
}

pub open spec fn opt_member_i64(k: Seq<char>, v: Option<i64>) -> Seq<(Seq<char>, Json)> {
    match v {
        Some(i) => seq![(k, Json::Int(i as int))],
        None => Seq::empty(),
    }
}

pub open spec fn opt_member_json(k: Seq<char>, v: Option<Json>) -> Seq<(Seq<char>, Json)> {
    match v {
        Some(j) => seq![(k, j)],
        None => Seq::empty(),
    }
}

/// A JSON array of strings.
pub open spec fn str_arr_json(xs: Seq<Seq<char>>) -> Json {
    Json::Arr(xs.map_values(|s: Seq<char>| Json::Str(s)))
}

pub open spec fn opt_member_str_arr(k: Seq<char>, v: Option<Seq<Seq<char>>>) -> Seq<
    (Seq<char>, Json),
> {
    match v {
        Some(xs) => seq![(k, str_arr_json(xs))],
        None => Seq::empty(),
    }
}

/// Append one member to an object under construction.
pub fn push_member(ms: &mut Vec<(String, JsonValue)>, k: &str, v: JsonValue)
    ensures
        view_of_members(final(ms)@) == view_of_members(old(ms)@) + seq![(k@, v@)],
{
    let ghost s0 = ms@;
    let p = (k.to_owned(), v);
    let ghost px = p;
    ms.push(p);
    proof {
        lemma_view_of_members_push(s0, px);
    }
}

pub fn push_opt_str(ms: &mut Vec<(String, JsonValue)>, k: &str, v: &Option<String>)
    ensures
        view_of_members(final(ms)@) == view_of_members(old(ms)@) + opt_member_str(
            k@,
            v.deep_view(),
        ),
{
    match v {
        Some(s) => push_member(ms, k, JsonValue::Str(s.clone())),
        None => (),
    }
}

pub fn push_opt_bool(ms: &mut Vec<(String, JsonValue)>, k: &str, v: &Option<bool>)
    ensures
        view_of_members(final(ms)@) == view_of_members(old(ms)@) + opt_member_bool(
            k@,
            v.deep_view(),
        ),
{
    match v {
        Some(b) => push_member(ms, k, JsonValue::Bool(*b)),
        None => (),
    }
}

pub fn push_opt_u32(ms: &mut Vec<(String, JsonValue)>, k: &str, v: &Option<u32>)
    ensures
        view_of_members(final(ms)@) == view_of_members(old(ms)@) + opt_member_u32(
            k@,
            v.deep_view(),
        ),
{
    match v {
        Some(i) => push_member(ms, k, JsonValue::Int(*i as i64)),
        None => (),
    }
}

pub fn push_opt_i64(ms: &mut Vec<(String, JsonValue)>, k: &str, v: &Option<i64>)
    ensures
        view_of_members(final(ms)@) == view_of_members(old(ms)@) + opt_member_i64(
            k@,
            v.deep_view(),
        ),
{
    match v {
        Some(i) => push_member(ms, k, JsonValue::Int(*i)),
        None => (),
    }
}

/// Turn a list of strings into a JSON array of strings.
pub fn strings_to_json(xs: &Vec<String>) -> (j: JsonValue)
    ensures
        j@ == str_arr_json(xs.deep_view()),
{
    let n = xs.len();
    let mut out: Vec<JsonValue> = Vec::new();
    let mut i: usize = 0;
    while i < n
        invariant
            i <= n,
            n == xs.len(),
            out@.len() == i,
            forall|j: int| 0 <= j < i ==> out@[j]@ == Json::Str(xs@[j]@),
        decreases n - i,
    {
        out.push(JsonValue::Str(xs[i].clone()));
        i += 1;
    }
    proof {
        lemma_view_of_items(out@);
        assert(view_of_items(out@) =~= xs.deep_view().map_values(|s: Seq<char>| Json::Str(s)));
    }
    JsonValue::Arr(out)
}

pub fn push_opt_str_arr(ms: &mut Vec<(String, JsonValue)>, k: &str, v: &Option<Vec<String>>)
    ensures
        view_of_members(final(ms)@) == view_of_members(old(ms)@) + opt_member_str_arr(
            k@,
            v.deep_view(),
        ),
{
    match v {
        Some(xs) => {
            let j = strings_to_json(xs);
            push_member(ms, k, j);
        },
        None => (),
    }
}

// ------------------------------------------------------------------
// Typed extraction from a decoded object.
//
// Each `spec_opt_*` function returns `None` when the member is present with
// the wrong shape (the whole decode fails), `Some(None)` when it is absent,
// and `Some(Some(v))` when it is present and well shaped. The `spec_req_*`
// functions are for mandatory members.
// ------------------------------------------------------------------

pub open spec fn spec_req_str(ms: Seq<(Seq<char>, Json)>, k: Seq<char>) -> Option<Seq<char>> {
    match obj_lookup(ms, k) {
        Some(Json::Str(s)) => Some(s),
        _ => None,
    }
}

pub open spec fn spec_req_bool(ms: Seq<(Seq<char>, Json)>, k: Seq<char>) -> Option<bool> {
    match obj_lookup(ms, k) {
        Some(Json::Bool(b)) => Some(b),
        _ => None,
    }
}

pub open spec fn spec_req_u32(ms: Seq<(Seq<char>, Json)>, k: Seq<char>) -> Option<u32> {
    match obj_lookup(ms, k) {
        Some(Json::Int(i)) => if 0 <= i <= u32::MAX {
            Some(i as u32)
        } else {
            None
        },
        _ => None,
    }
}

pub open spec fn spec_opt_str(ms: Seq<(Seq<char>, Json)>, k: Seq<char>) -> Option<
    Option<Seq<char>>,
> {
    match obj_lookup(ms, k) {
        None => Some(None),
        Some(Json::Str(s)) => Some(Some(s)),
        Some(_) => None,
    }
}

pub open spec fn spec_opt_bool(ms: Seq<(Seq<char>, Json)>, k: Seq<char>) -> Option<Option<bool>> {
    match obj_lookup(ms, k) {
        None => Some(None),
        Some(Json::Bool(b)) => Some(Some(b)),
        Some(_) => None,
    }
}

pub open spec fn spec_opt_u32(ms: Seq<(Seq<char>, Json)>, k: Seq<char>) -> Option<Option<u32>> {
    match obj_lookup(ms, k) {
        None => Some(None),
        Some(Json::Int(i)) => if 0 <= i <= u32::MAX {
            Some(Some(i as u32))
        } else {
            None
        },
        Some(_) => None,
    }
}

pub open spec fn spec_opt_i32(ms: Seq<(Seq<char>, Json)>, k: Seq<char>) -> Option<Option<i32>> {
    match obj_lookup(ms, k) {
        None => Some(None),
        Some(Json::Int(i)) => if i32::MIN <= i <= i32::MAX {
            Some(Some(i as i32))
        } else {
            None
        },
        Some(_) => None,
    }
}

pub open spec fn spec_opt_i64(ms: Seq<(Seq<char>, Json)>, k: Seq<char>) -> Option<Option<i64>> {
    match obj_lookup(ms, k) {
        None => Some(None),
        Some(Json::Int(i)) => Some(Some(i as i64)),
        Some(_) => None,
    }
}

/// The strings of a JSON array, provided every element is a string.
pub open spec fn strs_of_arr(items: Seq<Json>) -> Option<Seq<Seq<char>>>
    decreases items.len(),
{
    if items.len() == 0 {
        Some(Seq::empty())
    } else {
        match items[0] {
            Json::Str(s) => match strs_of_arr(items.skip(1)) {
                Some(rest) => Some(seq![s] + rest),
                None => None,
            },
            _ => None,
        }
    }
}

pub open spec fn spec_opt_str_arr(ms: Seq<(Seq<char>, Json)>, k: Seq<char>) -> Option<
    Option<Seq<Seq<char>>>,
> {
    match obj_lookup(ms, k) {
        None => Some(None),
        Some(Json::Arr(items)) => match strs_of_arr(items) {
            Some(xs) => Some(Some(xs)),
            None => None,
        },
        Some(_) => None,
    }
}

pub open spec fn spec_opt_obj(ms: Seq<(Seq<char>, Json)>, k: Seq<char>) -> Option<
    Option<Seq<(Seq<char>, Json)>>,
> {
    match obj_lookup(ms, k) {
        None => Some(None),
        Some(Json::Obj(inner)) => Some(Some(inner)),
        Some(_) => None,
    }
}

pub fn get_req_str(members: &Vec<(String, JsonValue)>, k: &str) -> (r: Option<String>)
    ensures
        r.deep_view() == spec_req_str(view_of_members(members@), k@),
{
    match obj_get(members, k) {
        Some(JsonValue::Str(s)) => Some(s.clone()),
        _ => None,
    }
}

pub fn get_req_bool(members: &Vec<(String, JsonValue)>, k: &str) -> (r: Option<bool>)
    ensures
        r.deep_view() == spec_req_bool(view_of_members(members@), k@),
{
    match obj_get(members, k) {
        Some(JsonValue::Bool(b)) => Some(*b),
        _ => None,
    }
}

pub fn get_req_u32(members: &Vec<(String, JsonValue)>, k: &str) -> (r: Option<u32>)
    ensures
        r.deep_view() == spec_req_u32(view_of_members(members@), k@),
{
    match obj_get(members, k) {
        Some(JsonValue::Int(i)) => {
            if 0 <= *i && *i <= u32::MAX as i64 {
                Some(*i as u32)
            } else {
                None
            }
        },
        _ => None,
    }
}

pub fn get_opt_str(members: &Vec<(String, JsonValue)>, k: &str) -> (r: Option<Option<String>>)
    ensures
        r.deep_view() == spec_opt_str(view_of_members(members@), k@),
{
    match obj_get(members, k) {
        None => Some(None),
        Some(JsonValue::Str(s)) => Some(Some(s.clone())),
        Some(_) => None,
    }
}

pub fn get_opt_bool(members: &Vec<(String, JsonValue)>, k: &str) -> (r: Option<Option<bool>>)
    ensures
        r.deep_view() == spec_opt_bool(view_of_members(members@), k@),
{
    match obj_get(members, k) {
        None => Some(None),
        Some(JsonValue::Bool(b)) => Some(Some(*b)),
        Some(_) => None,
    }
}

pub fn get_opt_u32(members: &Vec<(String, JsonValue)>, k: &str) -> (r: Option<Option<u32>>)
    ensures
        r.deep_view() == spec_opt_u32(view_of_members(members@), k@),
{
    match obj_get(members, k) {
        None => Some(None),
        Some(JsonValue::Int(i)) => {
            if 0 <= *i && *i <= u32::MAX as i64 {
                Some(Some(*i as u32))
            } else {
                None
            }
        },
        Some(_) => None,
    }
}

pub fn get_opt_i32(members: &Vec<(String, JsonValue)>, k: &str) -> (r: Option<Option<i32>>)
    ensures
        r.deep_view() == spec_opt_i32(view_of_members(members@), k@),
{
    match obj_get(members, k) {
        None => Some(None),
        Some(JsonValue::Int(i)) => {
            if i32::MIN as i64 <= *i && *i <= i32::MAX as i64 {
                Some(Some(*i as i32))
            } else {
                None
            }
        },
        Some(_) => None,
    }
}

pub fn get_opt_i64(members: &Vec<(String, JsonValue)>, k: &str) -> (r: Option<Option<i64>>)
    ensures
        r.deep_view() == spec_opt_i64(view_of_members(members@), k@),
{
    match obj_get(members, k) {
        None => Some(None),
        Some(JsonValue::Int(i)) => Some(Some(*i)),
        Some(_) => None,
    }
}

proof fn lemma_strs_of_arr_bad(items: Seq<Json>, i: int)
    requires
        0 <= i < items.len(),
        !(items[i] is Str),
    ensures
        strs_of_arr(items) is None,
    decreases i,
{
    if i > 0 {
        if items[0] is Str {
            lemma_strs_of_arr_bad(items.skip(1), i - 1);
        }
    }
}

proof fn lemma_strs_of_arr_good(items: Seq<Json>, xs: Seq<Seq<char>>)
    requires
        xs.len() == items.len(),
        forall|j: int| 0 <= j < items.len() ==> (#[trigger] items[j] matches Json::Str(s) && xs[j] == s),
    ensures
        strs_of_arr(items) == Some(xs),
    decreases items.len(),
{
    if items.len() == 0 {
        assert(xs =~= Seq::<Seq<char>>::empty());
    } else {
        lemma_strs_of_arr_good(items.skip(1), xs.skip(1));
        assert(xs =~= seq![xs[0]] + xs.skip(1));
    }
}

/// The strings of an array value, when every element is a string.
pub fn strs_of_items(items: &Vec<JsonValue>) -> (r: Option<Vec<String>>)
    ensures
        r.deep_view() == strs_of_arr(view_of_items(items@)),
{
    proof {
        lemma_view_of_items(items@);
    }
    let ghost lv = view_of_items(items@);
    let n = items.len();
    let mut out: Vec<String> = Vec::new();
    let mut i: usize = 0;
    while i < n
        invariant
            i <= n,
            n == items.len(),
            lv == view_of_items(items@),
            lv.len() == items@.len(),
            forall|j: int| 0 <= j < items@.len() ==> lv[j] == items@[j]@,
            out@.len() == i,
            forall|j: int| 0 <= j < i ==> (#[trigger] lv[j] matches Json::Str(s) && out@[j]@ == s),
        decreases n - i,
    {
        match &items[i] {
            JsonValue::Str(s) => {
                out.push(s.clone());
            },
            _ => {
                proof {
                    lemma_strs_of_arr_bad(lv, i as int);
                }
                return None;
            },
        }
        i += 1;
    }
    proof {
        lemma_strs_of_arr_good(lv, out.deep_view());
    }
    Some(out)
}

pub fn get_opt_str_arr(members: &Vec<(String, JsonValue)>, k: &str) -> (r: Option<
    Option<Vec<String>>,
>)
    ensures
        r.deep_view() == spec_opt_str_arr(view_of_members(members@), k@),
{
    match obj_get(members, k) {
        None => Some(None),
        Some(JsonValue::Arr(items)) => match strs_of_items(items) {
            Some(xs) => Some(Some(xs)),
            None => None,
        },
        Some(_) => None,
    }
}

pub fn get_opt_json(members: &Vec<(String, JsonValue)>, k: &str) -> (r: Option<JsonValue>)
    ensures
        r.deep_view() == obj_lookup(view_of_members(members@), k@),
{
    match obj_get(members, k) {
        None => None,
        Some(v) => Some(v.clone()),
    }
}

/// Structural copy of an object member list.
pub fn clone_members(members: &Vec<(String, JsonValue)>) -> (r: Vec<(String, JsonValue)>)
    ensures
        view_of_members(r@) == view_of_members(members@),
{
    let n = members.len();
    let mut out: Vec<(String, JsonValue)> = Vec::new();
    let mut i: usize = 0;
    while i < n
        invariant
            i <= n,
            n == members.len(),
            out@.len() == i,
            forall|j: int| 0 <= j < i ==> (out@[j].0@, out@[j].1@) == (
                members@[j].0@,
                members@[j].1@,
            ),
        decreases n - i,
    {
        let m = &members[i];
        let c = m.1.clone();
        out.push((m.0.clone(), c));
        i += 1;
    }
    proof {
        lemma_view_of_members(out@);
        lemma_view_of_members(members@);
        assert(view_of_members(out@) =~= view_of_members(members@));
    }
    out
}

pub fn get_opt_obj(members: &Vec<(String, JsonValue)>, k: &str) -> (r: Option<
    Option<Vec<(String, JsonValue)>>,
>)
    ensures
        match r {
            None => spec_opt_obj(view_of_members(members@), k@) is None,
            Some(None) => spec_opt_obj(view_of_members(members@), k@) == Some(
                None::<Seq<(Seq<char>, Json)>>,
            ),
            Some(Some(inner)) => spec_opt_obj(view_of_members(members@), k@) == Some(
                Some(view_of_members(inner@)),
            ),
        },
{
    match obj_get(members, k) {
        None => Some(None),
        Some(JsonValue::Obj(inner)) => Some(Some(clone_members(inner))),
        Some(_) => None,
    }
}

// ------------------------------------------------------------------
// Distribution of `obj_lookup` over member-list concatenation. Encoders
// build objects as concatenations of small segments; these lemmas let a
// lookup be evaluated segment by segment.
// ------------------------------------------------------------------

/// A single mandatory member.
pub open spec fn member(k: Seq<char>, j: Json) -> Seq<(Seq<char>, Json)> {
    seq![(k, j)]
}

pub proof fn lemma_lookup_concat(a: Seq<(Seq<char>, Json)>, b: Seq<(Seq<char>, Json)>)
    ensures
        forall|k: Seq<char>| #[trigger] obj_lookup(a + b, k) == (match obj_lookup(a, k) {
            Some(v) => Some(v),
            None => obj_lookup(b, k),
        }),
    decreases a.len(),
{
    if a.len() == 0 {
        assert(a + b =~= b);
    } else {
        lemma_lookup_concat(a.skip(1), b);
        assert((a + b).skip(1) =~= a.skip(1) + b);
        assert forall|k: Seq<char>| #[trigger] obj_lookup(a + b, k) == (match obj_lookup(a, k) {
            Some(v) => Some(v),
            None => obj_lookup(b, k),
        }) by {
            assert((a + b)[0] == a[0]);
            assert(obj_lookup(a.skip(1) + b, k) == (match obj_lookup(a.skip(1), k) {
                Some(v) => Some(v),
                None => obj_lookup(b, k),
            }));
        }
    }
}

pub proof fn lemma_lookup_member(k1: Seq<char>, j: Json)
    ensures
        forall|k: Seq<char>| #[trigger] obj_lookup(member(k1, j), k) == (if k1 == k {
            Some(j)
        } else {
            None::<Json>
        }),
{
    assert forall|k: Seq<char>| #[trigger] obj_lookup(member(k1, j), k) == (if k1 == k {
        Some(j)
    } else {
        None::<Json>
    }) by {
        let m = member(k1, j);
        assert(m[0] == (k1, j));
        if k1 != k {
            assert(m.skip(1) =~= Seq::<(Seq<char>, Json)>::empty());
            lemma_obj_lookup_absent(m.skip(1), k);
            assert(obj_lookup(m, k) == obj_lookup(m.skip(1), k));
        }
    }
}

pub proof fn lemma_lookup_opt_str(k1: Seq<char>, ov: Option<Seq<char>>)
    ensures
        forall|k: Seq<char>| #[trigger] obj_lookup(opt_member_str(k1, ov), k) == (match ov {
            Some(s) => if k1 == k {
                Some(Json::Str(s))
            } else {
                None::<Json>
            },
            None => None::<Json>,
        }),
{
    match ov {
        Some(s) => {
            lemma_lookup_member(k1, Json::Str(s));
            assert(opt_member_str(k1, ov) == member(k1, Json::Str(s)));
        },
        None => {
        },
    }
}

pub proof fn lemma_lookup_opt_bool(k1: Seq<char>, ov: Option<bool>)
    ensures
        forall|k: Seq<char>| #[trigger] obj_lookup(opt_member_bool(k1, ov), k) == (match ov {
            Some(b) => if k1 == k {
                Some(Json::Bool(b))
            } else {
                None::<Json>
            },
            None => None::<Json>,
        }),
{
    match ov {
        Some(b) => {
            lemma_lookup_member(k1, Json::Bool(b));
            assert(opt_member_bool(k1, ov) == member(k1, Json::Bool(b)));
        },
        None => {
        },
    }
}

pub proof fn lemma_lookup_opt_u32(k1: Seq<char>, ov: Option<u32>)
    ensures
        forall|k: Seq<char>| #[trigger] obj_lookup(opt_member_u32(k1, ov), k) == (match ov {
            Some(i) => if k1 == k {
                Some(Json::Int(i as int))
            } else {
                None::<Json>
            },
            None => None::<Json>,
        }),
{
    match ov {
        Some(i) => {
            lemma_lookup_member(k1, Json::Int(i as int));
            assert(opt_member_u32(k1, ov) == member(k1, Json::Int(i as int)));
        },
        None => {
        },
    }
}

pub proof fn lemma_lookup_opt_i64(k1: Seq<char>, ov: Option<i64>)
    ensures
        forall|k: Seq<char>| #[trigger] obj_lookup(opt_member_i64(k1, ov), k) == (match ov {
            Some(i) => if k1 == k {
                Some(Json::Int(i as int))
            } else {
                None::<Json>
            },
            None => None::<Json>,
        }),
{
    match ov {
        Some(i) => {
            lemma_lookup_member(k1, Json::Int(i as int));
            assert(opt_member_i64(k1, ov) == member(k1, Json::Int(i as int)));
        },
        None => {
        },
    }
}

pub proof fn lemma_lookup_opt_json(k1: Seq<char>, ov: Option<Json>)
    ensures
        forall|k: Seq<char>| #[trigger] obj_lookup(opt_member_json(k1, ov), k) == (match ov {
            Some(j) => if k1 == k {
                Some(j)
            } else {
                None::<Json>
            },
            None => None::<Json>,
        }),
{
    match ov {
        Some(j) => {
            lemma_lookup_member(k1, j);
            assert(opt_member_json(k1, ov) == member(k1, j));
        },
        None => {
        },
    }
}

pub proof fn lemma_lookup_opt_str_arr(k1: Seq<char>, ov: Option<Seq<Seq<char>>>)
    ensures
        forall|k: Seq<char>| #[trigger] obj_lookup(opt_member_str_arr(k1, ov), k) == (match ov {
            Some(xs) => if k1 == k {
                Some(str_arr_json(xs))
            } else {
                None::<Json>
            },
            None => None::<Json>,
        }),
{
    match ov {
        Some(xs) => {
            lemma_lookup_member(k1, str_arr_json(xs));
            assert(opt_member_str_arr(k1, ov) == member(k1, str_arr_json(xs)));
        },
        None => {
        },
    }
}

/// Round trip for string arrays: reading back the strings of `str_arr_json`
/// yields the original strings.
pub proof fn lemma_strs_of_str_arr(xs: Seq<Seq<char>>)
    ensures
        strs_of_arr(str_arr_json(xs)->Arr_0) == Some(xs),
    decreases xs.len(),
{
    let items = xs.map_values(|s: Seq<char>| Json::Str(s));
    if xs.len() == 0 {
        assert(items.len() == 0);
    } else {
        lemma_strs_of_str_arr(xs.skip(1));
        assert(items.skip(1) =~= xs.skip(1).map_values(|s: Seq<char>| Json::Str(s)));
        assert(items[0] == Json::Str(xs[0]));
        assert(xs =~= seq![xs[0]] + xs.skip(1));
    }
}

pub open spec fn spec_req_i64(ms: Seq<(Seq<char>, Json)>, k: Seq<char>) -> Option<i64> {
    match obj_lookup(ms, k) {
        Some(Json::Int(i)) => Some(i as i64),
        _ => None,
    }
}

pub fn get_req_i64(members: &Vec<(String, JsonValue)>, k: &str) -> (r: Option<i64>)
    ensures
        r.deep_view() == spec_req_i64(view_of_members(members@), k@),
{
    match obj_get(members, k) {
        Some(JsonValue::Int(i)) => Some(*i),
        _ => None,
    }
}

/// A JSON array of byte values.
pub open spec fn bytes_json(s: Seq<u8>) -> Json {
    Json::Arr(s.map_values(|b: u8| Json::Int(b as int)))
}

/// The bytes of a JSON array, provided every element is a byte value.
pub open spec fn bytes_of_arr(items: Seq<Json>) -> Option<Seq<u8>>
    decreases items.len(),
{
    if items.len() == 0 {
        Some(Seq::empty())
    } else {
        match items[0] {
            Json::Int(i) => if 0 <= i <= 255 {
                match bytes_of_arr(items.skip(1)) {
                    Some(rest) => Some(seq![i as u8] + rest),
                    None => None,
                }
            } else {
                None
            },
            _ => None,
        }
    }
}

/// Turn raw bytes into a JSON array of byte values.
pub fn bytes_to_json(bytes: &Vec<u8>) -> (j: JsonValue)
    ensures
        j@ == bytes_json(bytes@),
{
    let n = bytes.len();
    let mut out: Vec<JsonValue> = Vec::new();
    let mut i: usize = 0;
    while i < n
        invariant
            i <= n,
            n == bytes.len(),
            out@.len() == i,
            forall|j: int| 0 <= j < i ==> out@[j]@ == Json::Int(bytes@[j] as int),
        decreases n - i,
    {
        out.push(JsonValue::Int(bytes[i] as i64));
        i += 1;
    }
    proof {
        lemma_view_of_items(out@);
        assert(view_of_items(out@) =~= bytes@.map_values(|b: u8| Json::Int(b as int)));
    }
    JsonValue::Arr(out)
}

proof fn lemma_bytes_of_arr_bad(items: Seq<Json>, i: int)
    requires
        0 <= i < items.len(),
        !(items[i] matches Json::Int(b) && 0 <= b <= 255),
    ensures
        bytes_of_arr(items) is None,
    decreases i,
{
    if i > 0 {
        if items[0] matches Json::Int(b) && 0 <= b <= 255 {
            lemma_bytes_of_arr_bad(items.skip(1), i - 1);
        }
    }
}

proof fn lemma_bytes_of_arr_good(items: Seq<Json>, xs: Seq<u8>)
    requires
        xs.len() == items.len(),
        forall|j: int| 0 <= j < items.len() ==> #[trigger] items[j] == Json::Int(xs[j] as int),
    ensures
        bytes_of_arr(items) == Some(xs),
    decreases items.len(),
{
    if items.len() == 0 {
        assert(xs =~= Seq::<u8>::empty());
    } else {
        lemma_bytes_of_arr_good(items.skip(1), xs.skip(1));
        assert(xs =~= seq![xs[0]] + xs.skip(1));
    }
}

/// The bytes of an array value, when every element is a byte value.
pub fn bytes_of_items(items: &Vec<JsonValue>) -> (r: Option<Vec<u8>>)
    ensures
        r.deep_view() == bytes_of_arr(view_of_items(items@)),
{
    proof {
        lemma_view_of_items(items@);
    }
    let ghost lv = view_of_items(items@);
    let n = items.len();
    let mut out: Vec<u8> = Vec::new();
    let mut i: usize = 0;
    while i < n
        invariant
            i <= n,
            n == items.len(),
            lv == view_of_items(items@),
            lv.len() == items@.len(),
            forall|j: int| 0 <= j < items@.len() ==> lv[j] == items@[j]@,
            out@.len() == i,
            forall|j: int| 0 <= j < i ==> #[trigger] lv[j] == Json::Int(out@[j] as int),
        decreases n - i,
    {
        match &items[i] {
            JsonValue::Int(b) => {
                if 0 <= *b && *b <= 255 {
                    out.push(*b as u8);
                } else {
                    proof {
                        lemma_bytes_of_arr_bad(lv, i as int);
                    }
                    return None;
                }
            },
            _ => {
                proof {
                    lemma_bytes_of_arr_bad(lv, i as int);
                }
                return None;
            },
        }
        i += 1;
    }
    proof {
        lemma_bytes_of_arr_good(lv, out@);
    }
    Some(out)
}

/// Round trip for byte arrays: reading back the bytes of `bytes_json` yields
/// the original bytes.
pub proof fn lemma_bytes_of_bytes_arr(s: Seq<u8>)
    ensures
        bytes_of_arr(bytes_json(s)->Arr_0) == Some(s),
{
    let items = s.map_values(|b: u8| Json::Int(b as int));
    lemma_bytes_of_arr_good(items, s);
}

/// A value found by `obj_lookup` is structurally smaller than the member
/// list; recursive decoders lean on this for termination.
pub proof fn lemma_lookup_smaller(ms: Seq<(Seq<char>, Json)>, k: Seq<char>)
    ensures
        match obj_lookup(ms, k) {
            Some(x) => decreases_to!(ms => x),
            None => true,
        },
    decreases ms.len(),
{
    if ms.len() == 0 {
    } else if ms[0].0 == k {
        assert(decreases_to!(ms => ms[0]));
        assert(decreases_to!(ms[0] => ms[0].1));
    } else {
        lemma_lookup_smaller(ms.skip(1), k);
        assert(decreases_to!(ms => ms.skip(1)));
    }
}

pub open spec fn opt_member_i32(k: Seq<char>, v: Option<i32>) -> Seq<(Seq<char>, Json)> {
    match v {
        Some(i) => seq![(k, Json::Int(i as int))],
        None => Seq::empty(),
    }
}

pub fn push_opt_i32(ms: &mut Vec<(String, JsonValue)>, k: &str, v: &Option<i32>)
    ensures
        view_of_members(final(ms)@) == view_of_members(old(ms)@) + opt_member_i32(
            k@,
            v.deep_view(),
        ),
{
    match v {
        Some(i) => push_member(ms, k, JsonValue::Int(*i as i64)),
        None => (),
    }
}

pub proof fn lemma_lookup_opt_i32(k1: Seq<char>, ov: Option<i32>)
    ensures
        forall|k: Seq<char>| #[trigger] obj_lookup(opt_member_i32(k1, ov), k) == (match ov {
            Some(i) => if k1 == k {
                Some(Json::Int(i as int))
            } else {
                None::<Json>
            },
            None => None::<Json>,
        }),
{
    match ov {
        Some(i) => {
            lemma_lookup_member(k1, Json::Int(i as int));
            assert(opt_member_i32(k1, ov) == member(k1, Json::Int(i as int)));
        },
        None => {
        },
    }
}

} // verus!
