use vstd::prelude::*;

verus! {

/// What `serde_json` gives for the member `key` of the JSON text `json`: the
/// compact JSON text of that member (`null` where the value is not an object
/// or has no such member), or `None` where the text is not valid JSON.
pub uninterp spec fn json_member(json: Seq<char>, key: Seq<char>) -> Option<Seq<char>>;

/// A character that may stand in a simple member name: an ASCII letter or digit.
pub open spec fn is_name_char(c: char) -> bool {
    ('a' <= c && c <= 'z') || ('A' <= c && c <= 'Z') || ('0' <= c && c <= '9')
}

/// A simple member name: one or more ASCII letters and digits.
pub open spec fn is_simple_name(k: Seq<char>) -> bool {
    &&& k.len() >= 1
    &&& forall|i: int| 0 <= i < k.len() ==> #[trigger] is_name_char(k[i])
}

/// A simple whole number in JSON: one to 19 decimal digits (so it fits an
/// unsigned 64-bit integer), with no leading zero unless it is `0` itself.
pub open spec fn is_simple_number(v: Seq<char>) -> bool {
    &&& 1 <= v.len() <= 19
    &&& forall|i: int| 0 <= i < v.len() ==> '0' <= #[trigger] v[i] && v[i] <= '9'
    &&& v.len() > 1 ==> v[0] != '0'
}

/// The compact JSON text of one member `"name":value`.
pub open spec fn member_text(m: (Seq<char>, Seq<char>)) -> Seq<char> {
    "\""@ + m.0 + "\":"@ + m.1
}

/// The members, in order, separated by commas.
pub open spec fn members_text(ms: Seq<(Seq<char>, Seq<char>)>) -> Seq<char>
    decreases ms.len(),
{
    if ms.len() == 0 {
        Seq::empty()
    } else if ms.len() == 1 {
        member_text(ms[0])
    } else {
        members_text(ms.drop_last()) + ","@ + member_text(ms.last())
    }
}

/// The compact JSON text of an object with the given members.
pub open spec fn object_text(ms: Seq<(Seq<char>, Seq<char>)>) -> Seq<char> {
    "{"@ + members_text(ms) + "}"@
}

/// Members with simple, pairwise distinct names and simple whole-number values.
pub open spec fn is_simple_object(ms: Seq<(Seq<char>, Seq<char>)>) -> bool {
    &&& forall|i: int| 0 <= i < ms.len() ==> is_simple_name(#[trigger] ms[i].0) && is_simple_number(ms[i].1)
    &&& forall|i: int, j: int| 0 <= i < ms.len() && 0 <= j < ms.len() && i != j ==> #[trigger] ms[i].0 != #[trigger] ms[j].0
}

/// Parses `json` with `serde_json::from_str` into a `serde_json::Value`,
/// takes `value[key]` (serde_json's `Index`, which yields `Null` for a missing
/// member or a non-object), and writes that back with its `Display`.
/// Trusted: the result is `None` on a parse error, else the text written;
/// both are named by `json_member`. Beyond that one fact is claimed, as
/// serde_json's parser (whole numbers of at most 19 digits stay `u64`), its
/// object lookup and its `Display` (a `u64` as its decimal digits, `Null` as
/// `null`) show it: on the compact text of an object with simple names and
/// whole-number values, the member named `key` comes back as its value's
/// text, whatever the other members are, and a missing member as `null`.
/// Nothing is claimed of other texts.
#[verifier::external_body]
pub(crate) fn json_member_text(json: &str, key: &str) -> (r: Option<String>)
    ensures
        r.deep_view() == json_member(json@, key@),
        forall|ms: Seq<(Seq<char>, Seq<char>)>, i: int|
            #![trigger object_text(ms), ms[i]]
            is_simple_object(ms) && json@ == object_text(ms) && 0 <= i < ms.len() && ms[i].0 == key@
                ==> r.deep_view() == Some(ms[i].1),
        forall|ms: Seq<(Seq<char>, Seq<char>)>|
            #![trigger object_text(ms)]
            is_simple_object(ms) && json@ == object_text(ms) && (forall|i: int|
                0 <= i < ms.len() ==> #[trigger] ms[i].0 != key@)
                ==> r.deep_view() == Some("null"@),
{
    match serde_json::from_str::<serde_json::Value>(json) {
        Ok(value) => Some(value[key].to_string()),
        Err(_) => None,
    }
}

} // verus!
