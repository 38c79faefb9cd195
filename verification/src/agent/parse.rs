//! Reading an `Action:` / `Action Input:` step out of a model reply.
use vstd::prelude::*;
use crate::text::{
    to_lowercase, unicode_lowercase,
    chars_of, copy_range, find, is_ws, lead_ws, trail_ws, find_spec, lemma_find_from, push_all, starts_with,
    starts_with_spec, string_of, trim, trim_ch, trim_ch_spec, trim_spec, trim_start, trim_start_spec,
};

verus! {

/// `serde_json::Value`, read only by the conversion to `Json`.
#[verifier::external_type_specification]
#[verifier::external_body]
pub struct ExJsonValue(serde_json::Value);

/// A JSON value as the tools read it. Numbers keep their text; an object
/// keeps its members in the order the parser gives them.
#[derive(Debug)]
pub enum Json {
    Null,
    Bool(bool),
    Number(String),
    Str(String),
    Array(Vec<Json>),
    Object(Vec<(String, Json)>),
}

/// What the `regex` crate finds for the action-line pattern in `text`: the
/// captured tool name and the length, in characters, of the text up to the
/// end of the whole match.
pub uninterp spec fn action_line_match(text: Seq<char>) -> Option<(Seq<char>, nat)>;

/// What `serde_json` makes of `text` as one JSON document (as a
/// `serde_json::Value`, written as a `Json`), or the text of its error.
pub uninterp spec fn json_parse(text: Seq<char>) -> Result<Json, Seq<char>>;

/// Whether `serde_json` accepts `text`, or the text of its error.
pub open spec fn json_parse_outcome(text: Seq<char>) -> Result<(), Seq<char>> {
    match json_parse(text) {
        Ok(_) => Ok(()),
        Err(e) => Err(e),
    }
}

/// Whether `serde_json` accepts `text` as one JSON document.
pub open spec fn json_text_accepted(text: Seq<char>) -> bool {
    json_parse_outcome(text) is Ok
}

/// A character that the `regex` crate's Unicode class `\w` matches.
pub uninterp spec fn regex_word_char(c: char) -> bool;

/// Runs the `regex` crate's `Regex::captures` with the pattern
/// `(?i)(?m)^\s*Action:\s*(?P<action>[\w_]+)\s*$` on `text`. Claimed: the
/// first match is `action_line_match(text@)`; the result holds the capture,
/// the text up to the end of the match, and the text after it. The capture
/// is one or more characters of `[\w_]`, that is of `\w` (which holds
/// `_`), none of them whitespace (`\w` and `\s` are disjoint).
#[verifier::external_body]
fn match_action_line(text: &str) -> (r: Option<(String, String, String)>)
    ensures
        r is None <==> action_line_match(text@) is None,
        r matches Some((a, head, rest)) ==> action_line_match(text@) == Some((a@, head@.len()))
            && head@ + rest@ == text@,
        r matches Some((a, head, rest)) ==> a@.len() > 0 && (forall|i: int|
            0 <= i < a@.len() ==> regex_word_char(#[trigger] a@[i]) && !is_ws(a@[i])),
{
    let re = regex::Regex::new(r"(?i)(?m)^\s*Action:\s*(?P<action>[\w_]+)\s*$").unwrap();
    match re.captures(text) {
        Some(caps) => {
            let end = caps.get(0).unwrap().end();
            let action = caps.name("action").unwrap().as_str().to_string();
            Some((action, text[..end].to_string(), text[end..].to_string()))
        },
        None => None,
    }
}

/// A `serde_json::Value` written as a `Json`: one arm per variant, a
/// number by its `to_string`, an object's members in the map's order.
#[verifier::external_body]
fn json_of(v: &serde_json::Value) -> Json {
    match v {
        serde_json::Value::Null => Json::Null,
        serde_json::Value::Bool(b) => Json::Bool(*b),
        serde_json::Value::Number(n) => Json::Number(n.to_string()),
        serde_json::Value::String(t) => Json::Str(t.clone()),
        serde_json::Value::Array(a) => Json::Array(a.iter().map(json_of).collect()),
        serde_json::Value::Object(m) => Json::Object(m.iter().map(|(k, x)| (k.clone(), json_of(x))).collect()),
    }
}

/// `serde_json::from_str::<serde_json::Value>`, the value written as a
/// `Json` and the error as its text; claimed to give `json_parse(text@)`.
#[verifier::external_body]
pub(crate) fn parse_json_value(text: &str) -> (r: Result<Json, String>)
    ensures
        match r {
            Ok(v) => json_parse(text@) == Ok::<Json, Seq<char>>(v),
            Err(e) => json_parse(text@) == Err::<Json, Seq<char>>(e@),
        },
{
    serde_json::from_str::<serde_json::Value>(text).map(|v| json_of(&v)).map_err(|e| e.to_string())
}

/// The JSON document `text` as `serde_json` reads it (see `json_parse`),
/// or the text of its error.
pub fn parse_json(text: &str) -> (r: Result<Json, String>)
    ensures
        match r {
            Ok(v) => json_parse(text@) == Ok::<Json, Seq<char>>(v),
            Err(e) => json_parse(text@) == Err::<Json, Seq<char>>(e@),
        },
{
    parse_json_value(text)
}

/// The value of member `key` among the members `m`: the first with that name.
pub open spec fn member(m: Seq<(String, Json)>, key: Seq<char>) -> Option<Json>
    decreases m.len(),
{
    if m.len() == 0 {
        None
    } else if m[0].0@ == key {
        Some(m[0].1)
    } else {
        member(m.drop_first(), key)
    }
}

/// The member `key` of an object, as `serde_json`'s index reads it
/// (nothing for any other value).
pub open spec fn json_field(v: Json, key: Seq<char>) -> Option<Json> {
    match v {
        Json::Object(m) => member(m@, key),
        _ => None,
    }
}

/// The member `key` of the JSON object `v` (see `json_field`).
pub fn json_field_of<'a>(v: &'a Json, key: &str) -> (r: Option<&'a Json>)
    ensures
        r is Some <==> json_field(*v, key@) is Some,
        r matches Some(y) ==> json_field(*v, key@) == Some(*y),
{
    match v {
        Json::Object(m) => {
            assert(json_field(*v, key@) == member(m@, key@));
            let mut i: usize = 0;
            assert(m@.skip(0) =~= m@);
            while i < m.len()
                invariant
                    0 <= i <= m.len(),
                    json_field(*v, key@) == member(m@, key@),
                    member(m@, key@) == member(m@.skip(i as int), key@),
                decreases m.len() - i,
            {
                assert(m@.skip(i as int)[0] == m@[i as int]);
                assert(m@.skip(i as int).drop_first() =~= m@.skip(i + 1));
                let entry = &m[i];
                if crate::text::same_text(entry.0.as_str(), key) {
                    assert(entry.0@ == key@);
                    assert(member(m@.skip(i as int), key@) == Some(m@[i as int].1));
                    assert(entry.1 == m@[i as int].1);
                    return Some(&entry.1);
                }
                i = i + 1;
            }
            None
        },
        _ => None,
    }
}

/// The element `i` of a JSON array (nothing for any other value).
pub open spec fn json_item(v: Json, i: int) -> Option<Json> {
    match v {
        Json::Array(a) => if 0 <= i < a@.len() {
            Some(a@[i])
        } else {
            None
        },
        _ => None,
    }
}

/// The element `i` of the JSON array `v` (see `json_item`).
pub fn json_item_of<'a>(v: &'a Json, i: usize) -> (r: Option<&'a Json>)
    ensures
        r is Some <==> json_item(*v, i as int) is Some,
        r matches Some(y) ==> json_item(*v, i as int) == Some(*y),
{
    match v {
        Json::Array(a) => if i < a.len() {
            Some(&a[i])
        } else {
            None
        },
        _ => None,
    }
}

/// `e` lowered to a found keyword position `f`, if any.
pub open spec fn min_found(e: nat, f: Option<nat>) -> nat {
    match f {
        Some(k) => if k < e {
            k
        } else {
            e
        },
        None => e,
    }
}

/// Where the JSON argument ends: the first of the keywords `Action:`,
/// `Final Answer:`, `Thought:`, `Observation:`, `---`, or the end.
pub open spec fn keyword_end(s: Seq<char>) -> nat {
    let e1 = min_found(s.len(), find_spec(s, "Action:"@));
    let e2 = min_found(e1, find_spec(s, "Final Answer:"@));
    let e3 = min_found(e2, find_spec(s, "Thought:"@));
    let e4 = min_found(e3, find_spec(s, "Observation:"@));
    min_found(e4, find_spec(s, "---"@))
}

/// `pat` occurs in `s` starting at position `p`.
pub open spec fn occurs_at(s: Seq<char>, pat: Seq<char>, p: int) -> bool {
    0 <= p && p + pat.len() <= s.len() && s.subrange(p, p + pat.len()) == pat
}

proof fn lemma_end_before(s: Seq<char>, pat: Seq<char>, e: nat)
    requires
        e <= s.len(),
        pat.len() > 0,
        forall|p: int| occurs_at(s, pat, p) ==> e <= p,
    ensures
        forall|p: int| occurs_at(s.take(e as int), pat, p) ==> false,
{
    assert forall|p: int| occurs_at(s.take(e as int), pat, p) implies false by {
        assert(s.take(e as int).subrange(p, p + pat.len()) =~= s.subrange(p, p + pat.len()));
        assert(occurs_at(s, pat, p));
    }
}

/// The JSON argument of a step ends right before the first occurrence of
/// any of the keywords `Action:`, `Final Answer:`, `Thought:`,
/// `Observation:` and `---`, or at the end of the text when none occurs:
/// the end lies at or before every occurrence of each keyword, some keyword
/// starts there unless it is the end, and the argument before it holds
/// none of them.
pub proof fn law_argument_ends_at_first_keyword(s: Seq<char>)
    ensures
        keyword_end(s) <= s.len(),
        forall|p: int| occurs_at(s, "Action:"@, p) ==> keyword_end(s) <= p,
        forall|p: int| occurs_at(s, "Final Answer:"@, p) ==> keyword_end(s) <= p,
        forall|p: int| occurs_at(s, "Thought:"@, p) ==> keyword_end(s) <= p,
        forall|p: int| occurs_at(s, "Observation:"@, p) ==> keyword_end(s) <= p,
        forall|p: int| occurs_at(s, "---"@, p) ==> keyword_end(s) <= p,
        keyword_end(s) < s.len() ==> {
            let e = keyword_end(s) as int;
            occurs_at(s, "Action:"@, e) || occurs_at(s, "Final Answer:"@, e) || occurs_at(s, "Thought:"@, e)
                || occurs_at(s, "Observation:"@, e) || occurs_at(s, "---"@, e)
        },
        forall|p: int| !occurs_at(s.take(keyword_end(s) as int), "Action:"@, p),
        forall|p: int| !occurs_at(s.take(keyword_end(s) as int), "Final Answer:"@, p),
        forall|p: int| !occurs_at(s.take(keyword_end(s) as int), "Thought:"@, p),
        forall|p: int| !occurs_at(s.take(keyword_end(s) as int), "Observation:"@, p),
        forall|p: int| !occurs_at(s.take(keyword_end(s) as int), "---"@, p),
{
    lemma_find_from(s, "Action:"@, 0);
    lemma_find_from(s, "Final Answer:"@, 0);
    lemma_find_from(s, "Thought:"@, 0);
    lemma_find_from(s, "Observation:"@, 0);
    lemma_find_from(s, "---"@, 0);
    let e = keyword_end(s);
    assert forall|p: int| occurs_at(s, "Thought:"@, p) implies e <= p by {
        assert(s.subrange(p, p + "Thought:"@.len()) == "Thought:"@);
    }
    assert forall|p: int| occurs_at(s, "Action:"@, p) implies e <= p by {
        assert(s.subrange(p, p + "Action:"@.len()) == "Action:"@);
    }
    assert forall|p: int| occurs_at(s, "Final Answer:"@, p) implies e <= p by {
        assert(s.subrange(p, p + "Final Answer:"@.len()) == "Final Answer:"@);
    }
    assert forall|p: int| occurs_at(s, "Observation:"@, p) implies e <= p by {
        assert(s.subrange(p, p + "Observation:"@.len()) == "Observation:"@);
    }
    assert forall|p: int| occurs_at(s, "---"@, p) implies e <= p by {
        assert(s.subrange(p, p + "---"@.len()) == "---"@);
    }
    reveal_strlit("Action:");
    reveal_strlit("Final Answer:");
    reveal_strlit("Thought:");
    reveal_strlit("Observation:");
    reveal_strlit("---");
    lemma_end_before(s, "Action:"@, e);
    lemma_end_before(s, "Final Answer:"@, e);
    lemma_end_before(s, "Thought:"@, e);
    lemma_end_before(s, "Observation:"@, e);
    lemma_end_before(s, "---"@, e);
}

/// The argument text with code fences and a `json` tag removed.
pub open spec fn clean_json_input(js: Seq<char>) -> Seq<char> {
    let c1 = trim_spec(trim_ch_spec(js, '`'));
    let c2 = if starts_with_spec(c1, "json"@) {
        c1.skip("json"@.len() as int)
    } else {
        c1
    };
    trim_spec(c2)
}

/// Position of the `Action Input:` marker (or, failing that, its lowercase
/// form) in `rest`.
pub open spec fn input_marker_pos(rest: Seq<char>) -> Option<nat> {
    match find_spec(rest, "Action Input:"@) {
        Some(i) => Some(i),
        None => find_spec(rest, "action input:"@),
    }
}

/// The step that a model reply asks for: the lowercased tool name, the
/// cleaned argument text, and the reply cut right after the argument.
pub open spec fn action_parts(text: Seq<char>) -> Option<(Seq<char>, Seq<char>, Seq<char>)> {
    match action_line_match(text) {
        None => None,
        Some((raw, n)) => {
            let rest = text.skip(n as int);
            match input_marker_pos(rest) {
                None => None,
                Some(idx) => {
                    let json_start = idx + "Action Input:"@.len();
                    let cand = rest.skip(json_start as int);
                    let ct = trim_start_spec(cand);
                    let end = keyword_end(ct);
                    let off = cand.len() - ct.len();
                    Some(
                        (
                            unicode_lowercase(trim_spec(raw)),
                            clean_json_input(trim_spec(ct.take(end as int))),
                            text.take((n + json_start + off + end) as int),
                        ),
                    )
                },
            }
        },
    }
}

fn lower_to_found(e: usize, f: Option<usize>) -> (r: usize)
    ensures
        r == min_found(
            e as nat,
            match f {
                Some(k) => Some(k as nat),
                None => None,
            },
        ),
{
    match f {
        Some(k) => if k < e {
            k
        } else {
            e
        },
        None => e,
    }
}

/// Where the JSON argument in `s` ends (see `keyword_end`).
pub fn find_keyword_end(s: &Vec<char>) -> (r: usize)
    ensures
        r == keyword_end(s@),
        r <= s.len(),
{
    let f1 = find(s, &chars_of("Action:"));
    let e1 = lower_to_found(s.len(), f1);
    let f2 = find(s, &chars_of("Final Answer:"));
    let e2 = lower_to_found(e1, f2);
    let f3 = find(s, &chars_of("Thought:"));
    let e3 = lower_to_found(e2, f3);
    let f4 = find(s, &chars_of("Observation:"));
    let e4 = lower_to_found(e3, f4);
    let f5 = find(s, &chars_of("---"));
    lower_to_found(e4, f5)
}

/// Removes code fences, a leading `json` tag and surrounding whitespace.
pub fn clean_json_text(js: &Vec<char>) -> (r: Vec<char>)
    ensures
        r@ == clean_json_input(js@),
{
    let c0 = trim_ch(js, '`');
    let c1 = trim(&c0);
    let tag = chars_of("json");
    let c2 = if starts_with(&c1, &tag) {
        copy_range(&c1, tag.len(), c1.len())
    } else {
        copy_range(&c1, 0, c1.len())
    };
    assert(c1@.subrange(0, c1@.len() as int) =~= c1@);
    assert(c1@.subrange(tag@.len() as int, c1@.len() as int) =~= c1@.skip(tag@.len() as int));
    trim(&c2)
}

/// The shape of the tool name `name` read from `text`: the action line's
/// capture is one or more characters of `\w`, and `name` is that capture
/// lowercased, at least as long as it.
pub open spec fn action_name_shape(text: Seq<char>, name: Seq<char>) -> bool {
    action_line_match(text) matches Some((raw, n)) && raw.len() > 0 && (forall|i: int|
        0 <= i < raw.len() ==> regex_word_char(#[trigger] raw[i])) && name == unicode_lowercase(raw)
        && name.len() >= raw.len()
}

/// Text with no whitespace is its own trim.
proof fn lemma_trim_word(s: Seq<char>)
    requires
        forall|i: int| 0 <= i < s.len() ==> !is_ws(#[trigger] s[i]),
    ensures
        trim_spec(s) == s,
{
    if s.len() > 0 {
        assert(!is_ws(s[0]));
        assert(lead_ws(s) == 0);
        assert(s.skip(0) =~= s);
        assert(!is_ws(s.last()));
        assert(trail_ws(s) == 0);
        assert(s.take(s.len() as int) =~= s);
    } else {
        assert(lead_ws(s) == 0);
        assert(trail_ws(s) == 0);
        assert(s.skip(0) =~= s);
        assert(s.take(0) =~= s);
    }
}

/// The tool name, cleaned argument text and cut reply of the first step in
/// `response_text`, exactly as `action_parts` describes; `None` when there
/// is no action line or no argument marker after it.
pub fn agent_action_parts(response_text: &str) -> (r: Option<(String, String, String)>)
    ensures
        match action_parts(response_text@) {
            None => r is None,
            Some((a, j, p)) => r matches Some((ra, rj, rp)) && ra@ == a && rj@ == j && rp@ == p,
        },
        r matches Some((ra, rj, rp)) ==> action_name_shape(response_text@, ra@),
{
    let m = match_action_line(response_text);
    match m {
        None => None,
        Some((raw, head, rest)) => {
            let ghost text = response_text@;
            let ghost n = head@.len();
            assert(rest@ =~= text.skip(n as int));
            let rest_v = chars_of(rest.as_str());
            let m_up = chars_of("Action Input:");
            let m_low = chars_of("action input:");
            proof {
                reveal_strlit("Action Input:");
                reveal_strlit("action input:");
                assert(m_up@.len() == 13);
                assert(m_low@.len() == 13);
            }
            let f_up = find(&rest_v, &m_up);
            let f_low = find(&rest_v, &m_low);
            let idx_opt = match f_up {
                Some(i) => Some(i),
                None => f_low,
            };
            match idx_opt {
                None => None,
                Some(idx) => {
                    proof {
                        lemma_find_from(rest_v@, m_up@, 0);
                        lemma_find_from(rest_v@, m_low@, 0);
                        if f_up is Some {
                            assert(find_spec(rest_v@, m_up@) == Some(idx as nat));
                        } else {
                            assert(find_spec(rest_v@, m_low@) == Some(idx as nat));
                        }
                        assert(idx + m_up@.len() <= rest_v@.len());
                    }
                    assert(idx + m_up.len() <= rest_v.len());
                    let json_start = idx + m_up.len();
                    let cand = copy_range(&rest_v, json_start, rest_v.len());
                    assert(cand@ =~= rest@.skip(json_start as int));
                    let ct = trim_start(&cand);
                    let end = find_keyword_end(&ct);
                    let js0 = copy_range(&ct, 0, end);
                    assert(js0@ =~= ct@.take(end as int));
                    let js = trim(&js0);
                    let cleaned = clean_json_text(&js);
                    let raw_v = chars_of(raw.as_str());
                    proof {
                        lemma_trim_word(raw@);
                    }
                    let raw_t = string_of(&trim(&raw_v));
                    let action = to_lowercase(raw_t.as_str());
                    let off = cand.len() - ct.len();
                    let k = json_start + off + end;
                    let mut processed = chars_of(head.as_str());
                    let tail = copy_range(&rest_v, 0, k);
                    push_all(&mut processed, &tail);
                    assert(processed@ =~= text.take(n + k));
                    Some((action, string_of(&cleaned), string_of(&processed)))
                },
            }
        },
    }
}

/// Reads the first tool step out of a model reply: the lowercased tool name,
/// the JSON argument, and the reply cut right after the argument. `None`
/// when there is no step or its argument is not JSON.
pub fn parse_agent_response(response_text: &str) -> (r: Option<(String, Json, String)>)
    ensures
        r is Some <==> (action_parts(response_text@) matches Some((a, j, p))
            && json_text_accepted(j)),
        r matches Some((ra, v, rp)) ==> (action_parts(response_text@) matches Some((a, j, p))
            && ra@ == a && json_parse(j) == Ok::<Json, Seq<char>>(v) && rp@ == p),
        r matches Some((ra, v, rp)) ==> action_name_shape(response_text@, ra@),
{
    match agent_action_parts(response_text) {
        None => None,
        Some((action, json_text, processed)) => {
            match parse_json_value(json_text.as_str()) {
                Ok(val) => Some((action, val, processed)),
                Err(_) => None,
            }
        },
    }
}

} // verus!
