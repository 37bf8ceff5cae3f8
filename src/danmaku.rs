use std::collections::BTreeMap;
use vstd::prelude::*;

verus! {

/// One chat message: who sent it and what it says.
pub struct Danmaku {
    pub user: String,
    pub text: String,
}

impl View for Danmaku {
    type V = (Seq<char>, Seq<char>);

    open spec fn view(&self) -> (Seq<char>, Seq<char>) {
        (self.user@, self.text@)
    }
}

/// The entries, in increasing key order, of a JSON text that is an object
/// whose values are all strings; `None` for any other text.
pub uninterp spec fn string_object_of(raw: Seq<char>) -> Option<Seq<(Seq<char>, Seq<char>)>>;

pub open spec fn user_key() -> Seq<char> {
    seq!['u', 's', 'e', 'r']
}

pub open spec fn text_key() -> Seq<char> {
    seq!['t', 'e', 'x', 't']
}

/// The message that a list of string entries stands for: the list has exactly
/// the two keys `user` and `text`, in either order.
pub open spec fn danmaku_of_entries(e: Seq<(Seq<char>, Seq<char>)>) -> Option<(Seq<char>, Seq<char>)> {
    if e.len() == 2 && e[0].0 == user_key() && e[1].0 == text_key() {
        Some((e[0].1, e[1].1))
    } else if e.len() == 2 && e[0].0 == text_key() && e[1].0 == user_key() {
        Some((e[1].1, e[0].1))
    } else {
        None
    }
}

/// The message that an inbound text payload decodes to, if any.
pub open spec fn decoded(raw: Seq<char>) -> Option<(Seq<char>, Seq<char>)> {
    match string_object_of(raw) {
        Some(e) => danmaku_of_entries(e),
        None => None,
    }
}

pub open spec fn opt_view(d: Option<Danmaku>) -> Option<(Seq<char>, Seq<char>)> {
    match d {
        Some(d) => Some(d@),
        None => None,
    }
}

pub open spec fn entries_view(v: Vec<(String, String)>) -> Seq<(Seq<char>, Seq<char>)> {
    v@.map_values(|p: (String, String)| (p.0@, p.1@))
}

/// Relies on serde_json::from_str into a `BTreeMap<String, String>`: it
/// accepts exactly the JSON objects whose values are all strings, and the map
/// hands its entries out in increasing key order.
#[verifier::external_body]
fn parse_string_object(raw: &str) -> (r: Option<Vec<(String, String)>>)
    ensures
        match r {
            Some(v) => string_object_of(raw@) == Some(entries_view(v)),
            None => string_object_of(raw@).is_none(),
        },
{
    serde_json::from_str::<BTreeMap<String, String>>(raw).ok().map(|m| m.into_iter().collect())
}

/// Builds a message from the string entries of a JSON object: present only
/// when the keys are exactly `user` and `text`.
pub fn danmaku_from_entries(entries: Vec<(String, String)>) -> (r: Option<Danmaku>)
    ensures
        opt_view(r) == danmaku_of_entries(entries_view(entries)),
{
    let ghost ev = entries_view(entries);
    if entries.len() != 2 {
        return None;
    }
    let user_name = "user".to_owned();
    let text_name = "text".to_owned();
    proof {
        reveal_strlit("user");
        reveal_strlit("text");
        assert(user_name@ =~= user_key());
        assert(text_name@ =~= text_key());
    }
    let mut entries = entries;
    let (k1, v1) = entries.pop().unwrap();
    let (k0, v0) = entries.pop().unwrap();
    assert(ev[0] == (k0@, v0@));
    assert(ev[1] == (k1@, v1@));
    if k0 == user_name && k1 == text_name {
        Some(Danmaku { user: v0, text: v1 })
    } else if k0 == text_name && k1 == user_name {
        Some(Danmaku { user: v1, text: v0 })
    } else {
        None
    }
}

/// Decodes one inbound text payload. A payload that is not a JSON object
/// with exactly the string fields `user` and `text` gives `None`.
pub fn decode_danmaku(raw: &str) -> (r: Option<Danmaku>)
    ensures
        opt_view(r) == decoded(raw@),
{
    match parse_string_object(raw) {
        Some(entries) => danmaku_from_entries(entries),
        None => None,
    }
}

} // verus!
