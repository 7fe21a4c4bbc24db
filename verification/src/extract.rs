//! The action extractor: turns a model's raw completion text into a reply
//! plus the list of requested actions.
//!
//! The completion is expected to be a JSON object with a `message` field and
//! either an `actions` array or a single top-level `action`; the reserved
//! action kind `none` signals plain conversation. Text that is not valid JSON
//! never fails: it degrades to a plain reply with no actions.

use vstd::prelude::*;
use vstd::pervasive::unreached;
use crate::json::{
    JsonVal, JsonValue, json_parse, json_view, json_view_arr, json_view_obj, lookup_fields,
    obj_get, parse_json, str_of, lemma_json_view_arr, lemma_json_view_arr_push,
    lemma_json_view_obj,
};
use crate::text::{str_eq, trim, trim_spec};

verus! {

/// The action kind named by an envelope: its `action` string field, or
/// `none` where that field is absent or not a string.
pub open spec fn envelope_action(v: JsonVal) -> Seq<char> {
    match str_of(obj_get(v, "action"@)) {
        Some(a) => a,
        None => "none"@,
    }
}

/// Whether an envelope asks for no operation.
pub open spec fn is_noop(v: JsonVal) -> bool {
    envelope_action(v) == "none"@
}

/// The predicate that keeps an envelope in the extracted action list.
pub open spec fn keep_pred() -> spec_fn(JsonVal) -> bool {
    |e: JsonVal| !is_noop(e)
}

/// The actions requested by a parsed completion: the non-`none` entries of
/// its `actions` array in order; else the document itself where its own
/// `action` is not `none`; else nothing.
pub open spec fn actions_of(v: JsonVal) -> Seq<JsonVal> {
    match obj_get(v, "actions"@) {
        Some(JsonVal::Arr(items)) => items.filter(keep_pred()),
        _ => if !is_noop(v) {
            seq![v]
        } else {
            Seq::empty()
        },
    }
}

/// The reply text extracted from a raw completion: the parsed `message`
/// string, or the trimmed raw text where the completion is not a JSON
/// document with a string `message`.
pub open spec fn extracted_content(raw: Seq<char>) -> Seq<char> {
    let t = trim_spec(raw);
    match json_parse(t) {
        Some(v) => match str_of(obj_get(v, "message"@)) {
            Some(m) => m,
            None => t,
        },
        None => t,
    }
}

/// The actions extracted from a raw completion: empty where the trimmed text
/// is not valid JSON.
pub open spec fn extracted_actions(raw: Seq<char>) -> Seq<JsonVal> {
    match json_parse(trim_spec(raw)) {
        Some(v) => actions_of(v),
        None => Seq::empty(),
    }
}

/// A completion normalized for the caller: a human-readable reply and the
/// structured actions it carries.
pub struct ChatResponse {
    pub content: String,
    pub actions: Vec<JsonValue>,
}

/// Mathematical model of a [`ChatResponse`].
pub struct ChatResponseVal {
    pub content: Seq<char>,
    pub actions: Seq<JsonVal>,
}

impl View for ChatResponse {
    type V = ChatResponseVal;

    open spec fn view(&self) -> ChatResponseVal {
        ChatResponseVal { content: self.content@, actions: json_view_arr(self.actions@) }
    }
}

/// What [`extract`] returns on a given raw completion.
pub open spec fn extract_spec(raw: Seq<char>) -> ChatResponseVal {
    ChatResponseVal { content: extracted_content(raw), actions: extracted_actions(raw) }
}

proof fn lemma_filter_singleton(x: JsonVal, pred: spec_fn(JsonVal) -> bool)
    ensures
        seq![x].filter(pred) == if pred(x) {
            seq![x]
        } else {
            Seq::<JsonVal>::empty()
        },
{
    reveal(Seq::filter);
    assert(seq![x].drop_last() =~= Seq::<JsonVal>::empty());
    assert(Seq::<JsonVal>::empty().filter(pred) =~= Seq::<JsonVal>::empty());
    if pred(x) {
        assert(Seq::<JsonVal>::empty().push(x) =~= seq![x]);
    }
}

/// Whether an owned envelope asks for no operation.
fn is_noop_value(e: &JsonValue) -> (r: bool)
    ensures
        r == is_noop(e@),
{
    match e.get("action") {
        Some(a) => match a.as_str() {
            Some(s) => str_eq(s, "none"),
            None => true,
        },
        None => true,
    }
}

/// Drop every `none` envelope, keeping the others in order.
fn filter_noops(items: Vec<JsonValue>) -> (r: Vec<JsonValue>)
    ensures
        json_view_arr(r@) == json_view_arr(items@).filter(keep_pred()),
{
    let ghost orig = items@;
    let mut rest = items;
    let mut out: Vec<JsonValue> = Vec::new();
    proof {
        assert(json_view_arr(out@) =~= Seq::<JsonVal>::empty());
        assert(json_view_arr(out@) + json_view_arr(rest@).filter(keep_pred()) =~= json_view_arr(
            orig,
        ).filter(keep_pred()));
    }
    while rest.len() > 0
        invariant
            json_view_arr(orig).filter(keep_pred()) == json_view_arr(out@) + json_view_arr(
                rest@,
            ).filter(keep_pred()),
        decreases rest@.len(),
    {
        let ghost rest_before = rest@;
        let ghost out_before = out@;
        let e = rest.remove(0);
        proof {
            assert(rest@ =~= rest_before.drop_first());
            assert(json_view_arr(rest_before) == seq![json_view(e)] + json_view_arr(rest@));
            Seq::filter_distributes_over_add(
                seq![json_view(e)],
                json_view_arr(rest@),
                keep_pred(),
            );
            lemma_filter_singleton(json_view(e), keep_pred());
        }
        if !is_noop_value(&e) {
            out.push(e);
            proof {
                lemma_json_view_arr_push(out_before, e);
                assert(json_view_arr(orig).filter(keep_pred()) =~= json_view_arr(out@)
                    + json_view_arr(rest@).filter(keep_pred()));
            }
        } else {
            proof {
                assert(json_view_arr(orig).filter(keep_pred()) =~= json_view_arr(out@)
                    + json_view_arr(rest@).filter(keep_pred()));
            }
        }
    }
    proof {
        assert(json_view_arr(rest@).filter(keep_pred()) =~= Seq::<JsonVal>::empty());
        assert(json_view_arr(out@) =~= json_view_arr(orig).filter(keep_pred()));
    }
    out
}

/// The index of the first field named `key`, tied to what spec-level lookup
/// finds.
fn find_field(fields: &Vec<(String, JsonValue)>, key: &str) -> (r: Option<usize>)
    ensures
        match r {
            Some(i) => i < fields@.len() && lookup_fields(json_view_obj(fields@), key@) == Some(
                json_view(fields@[i as int].1),
            ) && fields@[i as int].0@ == key@,
            None => lookup_fields(json_view_obj(fields@), key@) is None,
        },
{
    proof {
        lemma_json_view_obj(fields@);
    }
    let ghost vfields = json_view_obj(fields@);
    let n = fields.len();
    proof {
        assert(vfields.subrange(0, n as int) =~= vfields);
    }
    let mut i: usize = 0;
    while i < n
        invariant
            i <= n,
            n == fields@.len(),
            vfields == json_view_obj(fields@),
            vfields.len() == n,
            forall|k: int|
                0 <= k < n ==> vfields[k] == (fields@[k].0@, json_view(fields@[k].1)),
            lookup_fields(vfields.subrange(i as int, n as int), key@) == lookup_fields(
                vfields,
                key@,
            ),
        decreases n - i,
    {
        if str_eq(fields[i].0.as_str(), key) {
            proof {
                assert(vfields.subrange(i as int, n as int)[0] == vfields[i as int]);
            }
            return Some(i);
        }
        proof {
            assert(vfields.subrange(i as int, n as int).drop_first() =~= vfields.subrange(
                i + 1,
                n as int,
            ));
        }
        i = i + 1;
    }
    proof {
        assert(vfields.subrange(n as int, n as int) =~= Seq::<(Seq<char>, JsonVal)>::empty());
    }
    None
}

/// Whether a value is a JSON array.
fn is_array(v: &JsonValue) -> (r: bool)
    ensures
        r == (v@ is Arr),
{
    match v {
        JsonValue::Arr(_) => true,
        _ => false,
    }
}

/// Parse a raw completion into the reply text and the list of requested
/// actions, degrading to a plain reply where the text is not valid JSON.
pub fn extract(raw: &str) -> (r: ChatResponse)
    ensures
        r@ == extract_spec(raw@),
{
    let t = trim(raw);
    match parse_json(t.as_str()) {
        None => {
            let r = ChatResponse { content: t, actions: Vec::new() };
            proof {
                assert(json_view_arr(r.actions@) =~= Seq::<JsonVal>::empty());
            }
            r
        },
        Some(parsed) => {
            let ghost pv = parsed@;
            let content: String = match parsed.get("message") {
                Some(m) => match m.as_str() {
                    Some(ms) => ms.to_owned(),
                    None => t.clone(),
                },
                None => t.clone(),
            };
            let actions: Vec<JsonValue> = match parsed {
                JsonValue::Obj(mut fields) => {
                    match find_field(&fields, "actions") {
                        Some(i) => {
                            if is_array(&fields[i].1) {
                                let pair = fields.remove(i);
                                match pair.1 {
                                    JsonValue::Arr(items) => filter_noops(items),
                                    _ => unreached(),
                                }
                            } else {
                                let whole = JsonValue::Obj(fields);
                                single_or_empty(whole)
                            }
                        },
                        None => {
                            let whole = JsonValue::Obj(fields);
                            single_or_empty(whole)
                        },
                    }
                },
                _ => {
                    proof {
                        assert(obj_get(pv, "actions"@) is None);
                        assert(is_noop(pv));
                    }
                    Vec::new()
                },
            };
            proof {
                if actions@.len() == 0 {
                    assert(json_view_arr(actions@) =~= Seq::<JsonVal>::empty());
                }
            }
            ChatResponse { content, actions }
        },
    }
}

proof fn lemma_filter_all_false(s: Seq<JsonVal>, pred: spec_fn(JsonVal) -> bool)
    requires
        forall|i: int| 0 <= i < s.len() ==> !pred(s[i]),
    ensures
        s.filter(pred) == Seq::<JsonVal>::empty(),
    decreases s.len(),
{
    reveal(Seq::filter);
    if s.len() > 0 {
        lemma_filter_all_false(s.drop_last(), pred);
    }
}

/// A completion that is not valid JSON yields no actions, and the trimmed
/// text itself as the reply.
pub proof fn lemma_extract_unparsed(raw: Seq<char>)
    requires
        json_parse(trim_spec(raw)) is None,
    ensures
        extracted_actions(raw) == Seq::<JsonVal>::empty(),
        extracted_content(raw) == trim_spec(raw),
{
}

/// A completion whose `actions` array holds only `none` envelopes yields no
/// actions.
pub proof fn lemma_extract_all_noops(v: JsonVal, items: Seq<JsonVal>)
    requires
        obj_get(v, "actions"@) == Some(JsonVal::Arr(items)),
        forall|i: int| 0 <= i < items.len() ==> is_noop(#[trigger] items[i]),
    ensures
        actions_of(v) == Seq::<JsonVal>::empty(),
{
    lemma_filter_all_false(items, keep_pred());
}

/// A completion with an `actions` array yields exactly its non-`none`
/// entries, in their original order, and nothing else.
pub proof fn lemma_extract_keeps_order(v: JsonVal, items: Seq<JsonVal>)
    requires
        obj_get(v, "actions"@) == Some(JsonVal::Arr(items)),
    ensures
        actions_of(v) == items.filter(keep_pred()),
        forall|i: int| 0 <= i < actions_of(v).len() ==> !is_noop(#[trigger] actions_of(v)[i]),
{
    assert forall|i: int| 0 <= i < actions_of(v).len() implies !is_noop(
        #[trigger] actions_of(v)[i],
    ) by {
        items.lemma_filter_pred(keep_pred(), i);
    }
}

/// A completion with no `actions` array and a top-level `action` other than
/// `none` is wrapped whole as the one extracted action.
pub proof fn lemma_extract_single(v: JsonVal)
    requires
        !(obj_get(v, "actions"@) matches Some(a) && a is Arr),
        !is_noop(v),
    ensures
        actions_of(v) == seq![v],
{
}

/// No extracted action list ever carries a `none` envelope.
pub proof fn lemma_no_noop_extracted(raw: Seq<char>)
    ensures
        forall|i: int|
            0 <= i < extracted_actions(raw).len() ==> !is_noop(
                #[trigger] extracted_actions(raw)[i],
            ),
{
    let acts = extracted_actions(raw);
    assert forall|i: int| 0 <= i < acts.len() implies !is_noop(#[trigger] acts[i]) by {
        match json_parse(trim_spec(raw)) {
            Some(v) => match obj_get(v, "actions"@) {
                Some(a) => if a is Arr {
                    a->Arr_0.lemma_filter_pred(keep_pred(), i);
                },
                None => {},
            },
            None => {},
        }
    }
}

/// Wrap a parsed completion as its own single action envelope, unless it is
/// a no-op.
fn single_or_empty(whole: JsonValue) -> (r: Vec<JsonValue>)
    requires
        !(obj_get(whole@, "actions"@) matches Some(a) && a is Arr),
    ensures
        json_view_arr(r@) == actions_of(whole@),
{
    let ghost wv = whole@;
    if !is_noop_value(&whole) {
        let r = vec![whole];
        proof {
            lemma_json_view_arr(r@);
            assert(json_view_arr(r@) =~= seq![wv]);
        }
        r
    } else {
        let r: Vec<JsonValue> = Vec::new();
        proof {
            assert(json_view_arr(r@) =~= Seq::<JsonVal>::empty());
        }
        r
    }
}

} // verus!
