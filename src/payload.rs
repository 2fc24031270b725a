use vstd::prelude::*;

verus! {

#[verifier::external_type_specification]
#[verifier::external_body]
pub struct ExValue(serde_json::Value);

/// What a JSON value holds at its leaves: the strings, and the numbers that
/// are unsigned 64-bit integers.
pub type Leaves = (Map<Seq<Seq<char>>, Seq<char>>, Map<Seq<Seq<char>>, u64>);

/// The leaves that `v` holds, each under the member names that lead to it
/// from `v`: `v` itself under the empty path when it is a string or such a
/// number; for an object, the leaves of each member's value with the
/// member's name put in front; nothing for arrays, booleans, null and other
/// numbers.
pub uninterp spec fn json_leaves(v: serde_json::Value) -> Leaves;

/// The leaves of the JSON text `text`, as `json_leaves` gives them of its
/// value; `None` where serde_json rejects the text.
pub uninterp spec fn text_leaves(text: Seq<char>) -> Option<Leaves>;

/// The string leaves of `v`.
pub open spec fn string_leaves(v: serde_json::Value) -> Map<Seq<Seq<char>>, Seq<char>> {
    json_leaves(v).0
}

/// The unsigned integer leaves of `v`.
pub open spec fn count_leaves(v: serde_json::Value) -> Map<Seq<Seq<char>>, u64> {
    json_leaves(v).1
}

/// The leaves of `m` that lie under the member `key`, with `key` taken off their paths.
pub open spec fn under<V>(m: Map<Seq<Seq<char>>, V>, key: Seq<char>) -> Map<Seq<Seq<char>>, V> {
    Map::new(|p: Seq<Seq<char>>| m.contains_key(seq![key] + p), |p: Seq<Seq<char>>| m[seq![key] + p])
}

/// The string found in `m` at `path`, or the empty string.
pub open spec fn leaf_or_empty(m: Map<Seq<Seq<char>>, Seq<char>>, path: Seq<Seq<char>>) -> Seq<
    char,
> {
    if m.contains_key(path) {
        m[path]
    } else {
        Seq::empty()
    }
}

/// Relies on `serde_json::from_str` into a `serde_json::Value`; the error is dropped.
#[verifier::external_body]
pub(crate) fn parse_json(text: &str) -> (r: Option<serde_json::Value>)
    ensures
        r is Some <==> text_leaves(text@) is Some,
        r matches Some(v) ==> json_leaves(v) == text_leaves(text@).unwrap(),
{
    serde_json::from_str::<serde_json::Value>(text).ok()
}

/// Relies on `serde_json::Value::get` with a member name: the member's value
/// when `v` is an object that has it, else `None`.
#[verifier::external_body]
pub(crate) fn json_member<'a>(v: &'a serde_json::Value, key: &str) -> (r: Option<&'a serde_json::Value>)
    ensures
        r matches Some(m) ==> json_leaves(*m).0 == under(json_leaves(*v).0, key@) && json_leaves(
            *m,
        ).1 == under(json_leaves(*v).1, key@),
        r is None ==> under(json_leaves(*v).0, key@).is_empty() && under(
            json_leaves(*v).1,
            key@,
        ).is_empty(),
{
    v.get(key)
}

/// Relies on `serde_json::Value::as_str`: the text of a string value, else `None`.
#[verifier::external_body]
pub(crate) fn json_text(v: &serde_json::Value) -> (r: Option<String>)
    ensures
        r is Some <==> json_leaves(*v).0.contains_key(Seq::empty()),
        r matches Some(t) ==> t@ == json_leaves(*v).0[Seq::empty()],
{
    v.as_str().map(|t| t.to_string())
}

/// Relies on `serde_json::Value::as_u64`: the number where `v` is an unsigned
/// integer that fits in 64 bits, else `None`.
#[verifier::external_body]
pub(crate) fn json_count(v: &serde_json::Value) -> (r: Option<u64>)
    ensures
        r is Some <==> json_leaves(*v).1.contains_key(Seq::empty()),
        r matches Some(n) ==> n == json_leaves(*v).1[Seq::empty()],
{
    v.as_u64()
}

/// The string value of the member `key` of `v`, where `v` is an object that
/// has one.
pub fn text_member(v: &serde_json::Value, key: &str) -> (r: Option<String>)
    ensures
        r is Some <==> string_leaves(*v).contains_key(seq![key@]),
        r matches Some(t) ==> t@ == string_leaves(*v)[seq![key@]],
{
    assert(seq![key@] + Seq::<Seq<char>>::empty() =~= seq![key@]);
    assert(under(json_leaves(*v).0, key@).contains_key(Seq::empty()) == json_leaves(*v).0.contains_key(
        seq![key@],
    ));
    match json_member(v, key) {
        Some(m) => json_text(m),
        None => {
            assert(!under(json_leaves(*v).0, key@).dom().contains(Seq::empty()));
            None
        },
    }
}

/// The unsigned integer value of the member `key` of `v`, where `v` is an
/// object that has one.
pub fn count_member(v: &serde_json::Value, key: &str) -> (r: Option<u64>)
    ensures
        r is Some <==> count_leaves(*v).contains_key(seq![key@]),
        r matches Some(n) ==> n == count_leaves(*v)[seq![key@]],
{
    assert(seq![key@] + Seq::<Seq<char>>::empty() =~= seq![key@]);
    assert(under(json_leaves(*v).1, key@).contains_key(Seq::empty()) == json_leaves(*v).1.contains_key(
        seq![key@],
    ));
    match json_member(v, key) {
        Some(m) => json_count(m),
        None => {
            assert(!under(json_leaves(*v).1, key@).dom().contains(Seq::empty()));
            None
        },
    }
}

/// The text at `path` below `v`, or the empty string where some member on the
/// way is missing or the value there is not a string.
pub fn text_at_path(v: &serde_json::Value, path: &Vec<&str>) -> (r: String)
    ensures
        r@ == leaf_or_empty(string_leaves(*v), path@.map_values(|k: &str| k@)),
{
    let ghost keys = path@.map_values(|k: &str| k@);
    let mut cur: &serde_json::Value = v;
    let mut i: usize = 0;
    while i < path.len()
        invariant
            i <= path@.len(),
            keys == path@.map_values(|k: &str| k@),
            forall|p: Seq<Seq<char>>| #[trigger] string_leaves(*cur).contains_key(p)
                <==> string_leaves(*v).contains_key(keys.subrange(0, i as int) + p),
            forall|p: Seq<Seq<char>>| #[trigger] string_leaves(*cur).contains_key(p)
                ==> string_leaves(*cur)[p] == string_leaves(*v)[keys.subrange(0, i as int) + p],
        decreases path.len() - i,
    {
        let ghost pre = keys.subrange(0, i as int);
        assert forall|p: Seq<Seq<char>>| pre + (seq![keys[i as int]] + p) == keys.subrange(0, i + 1) + p by {
            assert(pre + (seq![keys[i as int]] + p) =~= keys.subrange(0, i + 1) + p);
        }
        match json_member(cur, path[i]) {
            Some(m) => {
                assert forall|p: Seq<Seq<char>>| #[trigger] string_leaves(*m).contains_key(p)
                    <==> string_leaves(*v).contains_key(keys.subrange(0, i + 1) + p) by {
                    assert(string_leaves(*cur).contains_key(seq![keys[i as int]] + p)
                        == string_leaves(*v).contains_key(pre + (seq![keys[i as int]] + p)));
                }
                assert forall|p: Seq<Seq<char>>| #[trigger] string_leaves(*m).contains_key(p)
                    implies string_leaves(*m)[p] == string_leaves(*v)[keys.subrange(0, i + 1) + p] by {
                    assert(string_leaves(*cur).contains_key(seq![keys[i as int]] + p));
                }
                cur = m;
            },
            None => {
                assert(!string_leaves(*v).contains_key(keys)) by {
                    let rest = keys.subrange(i + 1, keys.len() as int);
                    assert(keys.subrange(0, i + 1) + rest =~= keys);
                    assert(!under(string_leaves(*cur), keys[i as int]).contains_key(rest));
                    assert(!string_leaves(*cur).contains_key(seq![keys[i as int]] + rest));
                }
                return String::new();
            },
        }
        i += 1;
    }
    assert(keys.subrange(0, keys.len() as int) + Seq::<Seq<char>>::empty() =~= keys);
    assert(string_leaves(*cur).contains_key(Seq::empty()) == string_leaves(*v).contains_key(keys));
    match json_text(cur) {
        Some(t) => t,
        None => String::new(),
    }
}

} // verus!
