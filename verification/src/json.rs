//! JSON objects whose values are all strings, read with serde_json.

use std::collections::HashMap;
use vstd::prelude::*;

verus! {

/// What `serde_json::from_str::<HashMap<String, String>>` makes of `text`: the
/// object's members as a map, or `None` where the text is not a JSON object whose
/// values are all strings.
pub uninterp spec fn json_string_object(text: Seq<char>) -> Option<Map<Seq<char>, Seq<char>>>;

/// `pairs` lists exactly the members of `m`, each once.
pub open spec fn pairs_list_map(pairs: Seq<(String, String)>, m: Map<Seq<char>, Seq<char>>) -> bool {
    &&& forall|j: int|
        0 <= j < pairs.len() ==> m.dom().contains(#[trigger] pairs[j].0@) && m[pairs[j].0@]
            == pairs[j].1@
    &&& forall|k: Seq<char>| #[trigger]
        m.dom().contains(k) ==> exists|j: int| 0 <= j < pairs.len() && pairs[j].0@ == k
}

/// Parses `text` with `serde_json::from_str` into a `HashMap<String, String>` and
/// lists its members. The contract claims that the listing is `Some` exactly when
/// the named parse succeeds and then holds that map's members; the order of the
/// listing, which follows the hash map's, is left unsaid.
#[verifier::external_body]
pub(crate) fn parse_string_object(text: &str) -> (r: Option<Vec<(String, String)>>)
    ensures
        r is Some == json_string_object(text@) is Some,
        r matches Some(pairs) ==> pairs_list_map(pairs@, json_string_object(text@)->0),
{
    match serde_json::from_str::<HashMap<String, String>>(text) {
        Ok(m) => Some(m.into_iter().collect()),
        Err(_) => None,
    }
}

/// The value stored under `key` in a member listing that represents `m`.
pub(crate) fn member_value(pairs: &Vec<(String, String)>, key: &str, Ghost(m): Ghost<Map<Seq<char>, Seq<char>>>) -> (r: Option<String>)
    requires
        pairs_list_map(pairs@, m),
    ensures
        r is Some == m.dom().contains(key@),
        r matches Some(v) ==> v@ == m[key@],
{
    let mut i: usize = 0;
    while i < pairs.len()
        invariant
            pairs_list_map(pairs@, m),
            i <= pairs.len(),
            forall|j: int| 0 <= j < i ==> pairs@[j].0@ != key@,
        decreases pairs.len() - i,
    {
        if crate::text::str_equal(pairs[i].0.as_str(), key) {
            assert(m.dom().contains(pairs@[i as int].0@));
            return Some(pairs[i].1.clone());
        }
        i = i + 1;
    }
    proof {
        if m.dom().contains(key@) {
            let j = choose|j: int| 0 <= j < pairs@.len() && pairs@[j].0@ == key@;
            assert(pairs@[j].0@ != key@);
        }
    }
    None
}

} // verus!
