//! A JSON document as far as the library reads it, and the lookups of
//! values along a path of object keys and array positions.
use vstd::prelude::*;
use crate::sources::opt_view;

verus! {

/// A JSON value. Numbers, booleans and null are never read, so they are
/// all `Other`.
#[derive(Debug)]
pub enum Json {
    Str(String),
    Arr(Vec<Json>),
    /// The members of an object, in document order.
    Obj(Vec<(String, Json)>),
    Other,
}

/// One step of a path: a reference token of a JSON pointer (RFC 6901),
/// read as a member name in an object and as a position in an array.
#[derive(Debug, Clone, Copy)]
pub struct Step(pub &'static str);

/// The value of the first member named `key`.
pub open spec fn member_spec(members: Seq<(String, Json)>, key: Seq<char>) -> Option<Json>
    decreases members.len(),
{
    if members.len() == 0 {
        None
    } else if members[0].0@ == key {
        Some(members[0].1)
    } else {
        member_spec(members.drop_first(), key)
    }
}

pub open spec fn is_digit(c: char) -> bool {
    '0' <= c && c <= '9'
}

/// The number written by decimal digits.
pub open spec fn digits_value(t: Seq<char>) -> nat
    decreases t.len(),
{
    if t.len() == 0 {
        0
    } else {
        digits_value(t.drop_last()) * 10 + ((t.last() as u32) - 48) as nat
    }
}

/// A token read as an array position: decimal digits, no sign, no
/// leading zero (but `0` itself), within `usize`.
pub open spec fn index_token_spec(t: Seq<char>) -> Option<nat> {
    if t.len() > 0 && (forall|i: int| 0 <= i < t.len() ==> is_digit(#[trigger] t[i])) && !(t[0]
        == '0' && t.len() != 1) && digits_value(t) <= usize::MAX {
        Some(digits_value(t))
    } else {
        None
    }
}

/// The value one step below `j`, if there is one.
pub open spec fn step_spec(j: Json, s: Step) -> Option<Json> {
    match j {
        Json::Obj(ms) => member_spec(ms@, s.0@),
        Json::Arr(xs) => match index_token_spec(s.0@) {
            Some(i) => if i < xs@.len() {
                Some(xs@[i as int])
            } else {
                None
            },
            None => None,
        },
        _ => None,
    }
}

/// The value at the end of `path` from `j`, if every step exists.
pub open spec fn at_spec(j: Json, path: Seq<Step>) -> Option<Json>
    decreases path.len(),
{
    if path.len() == 0 {
        Some(j)
    } else {
        match step_spec(j, path[0]) {
            Some(c) => at_spec(c, path.drop_first()),
            None => None,
        }
    }
}

/// The text of a string value.
pub open spec fn str_of(o: Option<Json>) -> Option<Seq<char>> {
    match o {
        Some(Json::Str(s)) => Some(s@),
        _ => None,
    }
}

/// The items of an array value; nothing for anything else.
pub open spec fn items_of(o: Option<Json>) -> Seq<Json> {
    match o {
        Some(Json::Arr(xs)) => xs@,
        _ => seq![],
    }
}

/// The text at `path`, or the empty text when there is none.
pub open spec fn str_or_empty(j: Json, path: Seq<Step>) -> Seq<char> {
    match str_of(at_spec(j, path)) {
        Some(s) => s,
        None => seq![],
    }
}

fn member<'a>(members: &'a Vec<(String, Json)>, key: &str) -> (r: Option<&'a Json>)
    ensures
        match r {
            Some(x) => member_spec(members@, key@) == Some(*x),
            None => member_spec(members@, key@) is None,
        },
{
    let mut i: usize = 0;
    assert(members@.skip(0) == members@);
    while i < members.len()
        invariant
            i <= members.len(),
            member_spec(members@, key@) == member_spec(members@.skip(i as int), key@),
        decreases members.len() - i,
    {
        let ghost rest = members@.skip(i as int);
        assert(rest[0] == members@[i as int]);
        assert(rest.drop_first() == members@.skip(i + 1));
        if crate::text::str_eq(members[i].0.as_str(), key) {
            return Some(&members[i].1);
        }
        i += 1;
    }
    None
}

fn index_token(t: &str) -> (r: Option<usize>)
    ensures
        match r {
            Some(i) => index_token_spec(t@) == Some(i as nat),
            None => index_token_spec(t@) is None,
        },
{
    let v = crate::text::chars_of(t);
    if v.len() == 0 || (v[0] == '0' && v.len() != 1) {
        return None;
    }
    let mut n: usize = 0;
    let mut i: usize = 0;
    while i < v.len()
        invariant
            i <= v.len(),
            v@ == t@,
            n == digits_value(v@.take(i as int)),
            forall|k: int| 0 <= k < i ==> is_digit(#[trigger] v@[k]),
        decreases v.len() - i,
    {
        assert(v@.take(i + 1).drop_last() == v@.take(i as int));
        let c = v[i];
        if !('0' <= c && c <= '9') {
            assert(!is_digit(t@[i as int]));
            return None;
        }
        let d = (c as u32 - 48) as usize;
        let m = match n.checked_mul(10) {
            Some(m) => m,
            None => {
                proof {
                    if forall|k: int| 0 <= k < v@.len() ==> is_digit(#[trigger] v@[k]) {
                        lemma_digits_value_grows(v@, (i + 1) as int);
                    }
                }
                return None;
            },
        };
        match m.checked_add(d) {
            Some(x) => {
                n = x;
            },
            None => {
                proof {
                    if forall|k: int| 0 <= k < v@.len() ==> is_digit(#[trigger] v@[k]) {
                        lemma_digits_value_grows(v@, (i + 1) as int);
                    }
                }
                return None;
            },
        }
        i += 1;
    }
    assert(v@.take(v.len() as int) == v@);
    Some(n)
}

/// A longer digit string never has a smaller value.
proof fn lemma_digits_value_grows(t: Seq<char>, k: int)
    requires
        0 <= k <= t.len(),
        forall|i: int| 0 <= i < t.len() ==> is_digit(#[trigger] t[i]),
    ensures
        digits_value(t.take(k)) <= digits_value(t),
    decreases t.len() - k,
{
    if k < t.len() {
        lemma_digits_value_grows(t, k + 1);
        assert(t.take(k + 1).drop_last() == t.take(k));
        assert(is_digit(t[k]));
    } else {
        assert(t.take(k) == t);
    }
}

fn step<'a>(j: &'a Json, s: Step) -> (r: Option<&'a Json>)
    ensures
        match r {
            Some(x) => step_spec(*j, s) == Some(*x),
            None => step_spec(*j, s) is None,
        },
{
    match j {
        Json::Obj(ms) => member(ms, s.0),
        Json::Arr(xs) => match index_token(s.0) {
            Some(i) => if i < xs.len() {
                Some(&xs[i])
            } else {
                None
            },
            None => None,
        },
        _ => None,
    }
}

/// The value at the end of `path` from `j`.
pub fn at<'a>(j: &'a Json, path: &[Step]) -> (r: Option<&'a Json>)
    ensures
        match r {
            Some(x) => at_spec(*j, path@) == Some(*x),
            None => at_spec(*j, path@) is None,
        },
{
    let mut cur: &Json = j;
    let mut k: usize = 0;
    assert(path@.skip(0) == path@);
    while k < path.len()
        invariant
            k <= path@.len(),
            at_spec(*j, path@) == at_spec(*cur, path@.skip(k as int)),
        decreases path.len() - k,
    {
        let ghost rest = path@.skip(k as int);
        assert(rest[0] == path@[k as int]);
        assert(rest.drop_first() == path@.skip(k + 1));
        match step(cur, path[k]) {
            Some(next) => {
                cur = next;
            },
            None => {
                return None;
            },
        }
        k += 1;
    }
    assert(path@.skip(k as int).len() == 0);
    Some(cur)
}

/// The text at `path`, when the value there is a string.
pub fn str_at(j: &Json, path: &[Step]) -> (r: Option<String>)
    ensures
        opt_view(r) == str_of(at_spec(*j, path@)),
{
    match at(j, path) {
        Some(Json::Str(s)) => Some(s.clone()),
        _ => None,
    }
}

/// The text at `path`, or the empty text.
pub fn str_at_or_empty(j: &Json, path: &[Step]) -> (r: String)
    ensures
        r@ == str_or_empty(*j, path@),
{
    match str_at(j, path) {
        Some(s) => s,
        None => String::new(),
    }
}

/// The items of the array at `path`; none when there is no array there.
pub fn items_at<'a>(j: &'a Json, path: &[Step]) -> (r: Option<&'a Vec<Json>>)
    ensures
        items_of(at_spec(*j, path@)) == match r {
            Some(v) => v@,
            None => Seq::<Json>::empty(),
        },
{
    match at(j, path) {
        Some(Json::Arr(xs)) => Some(xs),
        _ => None,
    }
}

} // verus!
