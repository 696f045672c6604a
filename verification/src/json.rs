//! JSON objects, as `serde_json` holds and writes them.
//!
//! The items of `serde_json` that are used, and what is taken for granted of
//! each, are all in this file.

use crate::text::{decimal, digit, law_decimal_reads_back};
use serde_json::Value;
use vstd::prelude::*;

verus! {

/// `serde_json::Value`: a JSON value.
#[verifier::external_type_specification]
#[verifier::external_body]
pub struct ExValue(serde_json::Value);

/// `serde_json::Map`: the members of a JSON object.
#[verifier::external_type_specification]
#[verifier::external_body]
#[verifier::reject_recursive_types(K)]
#[verifier::reject_recursive_types(V)]
pub struct ExMap<K, V>(serde_json::Map<K, V>);

/// The compact JSON text of a value: what its `Display` writes under `{}`.
pub uninterp spec fn value_text(v: Value) -> Seq<char>;

/// Keys, and under each the text of its value.
pub type Entries = Map<Seq<char>, Seq<char>>;

/// What the members of an object hold: the compact text of the value under
/// each key.
pub uninterp spec fn entries(m: serde_json::Map<String, Value>) -> Entries;

/// The hexadecimal digit `d`, in lower case.
pub open spec fn hex_digit(d: int) -> char
    recommends
        0 <= d <= 15,
{
    if d < 10 {
        digit(d)
    } else {
        ('a' as int + d - 10) as char
    }
}

/// A character as it stands inside a JSON string. The quote, the backslash and
/// the control characters below the space are escaped; all others stand as they
/// are.
pub open spec fn escape(c: char) -> Seq<char> {
    if c == '"' || c == '\\' {
        seq!['\\', c]
    } else if c == '\u{8}' {
        seq!['\\', 'b']
    } else if c == '\t' {
        seq!['\\', 't']
    } else if c == '\n' {
        seq!['\\', 'n']
    } else if c == '\u{c}' {
        seq!['\\', 'f']
    } else if c == '\r' {
        seq!['\\', 'r']
    } else if (c as int) < ' ' as int {
        seq!['\\', 'u', '0', '0', hex_digit(c as int / 16), hex_digit(c as int % 16)]
    } else {
        seq![c]
    }
}

/// Characters as they stand inside a JSON string.
pub open spec fn escaped(s: Seq<char>) -> Seq<char>
    decreases s.len(),
{
    if s.len() == 0 {
        seq![]
    } else {
        escape(s[0]) + escaped(s.drop_first())
    }
}

/// The JSON text of a string.
pub open spec fn json_string(s: Seq<char>) -> Seq<char> {
    seq!['"'] + escaped(s) + seq!['"']
}

/// A member of an object: its key, and the text of its value.
pub type Member = (Seq<char>, Seq<char>);

/// Members one after the other, with commas between them.
pub open spec fn joined(members: Seq<Member>) -> Seq<char>
    decreases members.len(),
{
    if members.len() == 0 {
        seq![]
    } else {
        let last = json_string(members.last().0) + ":"@ + members.last().1;
        if members.len() == 1 {
            last
        } else {
            joined(members.drop_last()) + ","@ + last
        }
    }
}

/// The text of the object with these members, in this order.
pub open spec fn json_object(members: Seq<Member>) -> Seq<char> {
    "{"@ + joined(members) + "}"@
}

/// Whether `a` comes before `b` in the order of strings: they part at a
/// character that is smaller in `a`, or where `a` ends.
pub open spec fn precedes(a: Seq<char>, b: Seq<char>) -> bool {
    exists|k: int| #[trigger] parts_at(a, b, k)
}

/// Whether `a` and `b` are the same before `k` and `a` is the smaller one there.
pub open spec fn parts_at(a: Seq<char>, b: Seq<char>, k: int) -> bool {
    &&& 0 <= k <= a.len()
    &&& k < b.len()
    &&& forall|i: int| 0 <= i < k ==> a[i] == b[i]
    &&& k == a.len() || (a[k] as int) < b[k] as int
}

/// Whether the keys ascend, each one before the next.
pub open spec fn ascending(members: Seq<Member>) -> bool
    decreases members.len(),
{
    members.len() <= 1 || {
        &&& ascending(members.drop_last())
        &&& precedes(members[members.len() - 2].0, members.last().0)
    }
}

/// The members as a map.
pub open spec fn as_map(members: Seq<Member>) -> Entries
    decreases members.len(),
{
    if members.len() == 0 {
        Entries::empty()
    } else {
        as_map(members.drop_last()).insert(members.last().0, members.last().1)
    }
}

/// `serde_json::Map::new` gives an object without members.
pub assume_specification[ serde_json::Map::<String, Value>::new ]() -> (m: serde_json::Map<String, Value>)
    ensures
        entries(m) == Entries::empty(),
;

/// `serde_json::Map::insert` puts the value under the key, and hands back the
/// value that was there before.
pub assume_specification[ serde_json::Map::<String, Value>::insert ](
    m: &mut serde_json::Map<String, Value>,
    k: String,
    v: Value,
) -> (before: Option<Value>)
    ensures
        entries(*final(m)) == entries(*old(m)).insert(k@, value_text(v)),
        before is Some <==> entries(*old(m)).dom().contains(k@),
        before matches Some(b) ==> value_text(b) == entries(*old(m))[k@],
;

/// `serde_json::Value::String` is a JSON string. Its text is the string between
/// quotes, with the escapes that JSON asks for and no others.
#[verifier::external_body]
pub(crate) fn string_value(s: &str) -> (v: Value)
    ensures
        value_text(v) == json_string(s@),
{
    Value::String(s.to_string())
}

/// `serde_json::Value::from`, on a `u8`, is a JSON number, written in decimal.
#[verifier::external_body]
pub(crate) fn number_value(n: u8) -> (v: Value)
    ensures
        value_text(v) == decimal(n as nat),
{
    Value::from(n)
}

/// `serde_json::Value::Object` is a JSON object. Its text lists the members in
/// ascending order of their keys: without its feature `preserve_order` the map is
/// a `BTreeMap`, which is walked in that order.
#[verifier::external_body]
pub(crate) fn object_value(m: serde_json::Map<String, Value>) -> (v: Value)
    ensures
        forall|members: Seq<Member>|
            ascending(members) && #[trigger] as_map(members) == entries(m) ==> value_text(v)
                == json_object(members),
{
    Value::Object(m)
}

/// `ToString::to_string`, on a `serde_json::Value`, gives its compact text.
#[verifier::external_body]
pub(crate) fn value_to_string(v: &Value) -> (s: String)
    ensures
        s@ == value_text(*v),
{
    v.to_string()
}

proof fn lemma_precedes_is_strict(a: Seq<char>, b: Seq<char>)
    requires
        precedes(a, b),
    ensures
        a != b,
        !precedes(b, a),
{
    let k = choose|k: int| parts_at(a, b, k);
    if precedes(b, a) {
        let m = choose|m: int| parts_at(b, a, m);
        if k < m {
            assert(a[k] == b[k]);
        } else if m < k {
            assert(a[m] == b[m]);
        }
    }
}

proof fn lemma_precedes_is_transitive(a: Seq<char>, b: Seq<char>, c: Seq<char>)
    requires
        precedes(a, b),
        precedes(b, c),
    ensures
        precedes(a, c),
{
    let k = choose|k: int| parts_at(a, b, k);
    let m = choose|m: int| parts_at(b, c, m);
    if k <= m {
        assert(parts_at(a, c, k));
    } else {
        assert(a[m] == b[m]);
        assert(parts_at(a, c, m));
    }
}

proof fn lemma_keys_before_the_last(members: Seq<Member>, i: int)
    requires
        ascending(members),
        0 <= i < members.len() - 1,
    ensures
        precedes(members[i].0, members.last().0),
    decreases members.len(),
{
    let front = members.drop_last();
    if i < front.len() - 1 {
        lemma_keys_before_the_last(front, i);
        lemma_precedes_is_transitive(members[i].0, front.last().0, members.last().0);
    }
}

proof fn lemma_keys_of_map(members: Seq<Member>, key: Seq<char>)
    requires
        as_map(members).dom().contains(key),
    ensures
        exists|i: int| 0 <= i < members.len() && #[trigger] members[i].0 == key,
    decreases members.len(),
{
    if members.len() > 0 {
        if key == members.last().0 {
            assert(members[members.len() - 1].0 == key);
        } else {
            let front = members.drop_last();
            lemma_keys_of_map(front, key);
            let i = choose|i: int| 0 <= i < front.len() && #[trigger] front[i].0 == key;
            assert(members[i].0 == key);
        }
    }
}

proof fn lemma_key_is_last_or_before(members: Seq<Member>, key: Seq<char>)
    requires
        ascending(members),
        as_map(members).dom().contains(key),
    ensures
        members.len() > 0,
        key == members.last().0 || precedes(key, members.last().0),
{
    lemma_keys_of_map(members, key);
    let i = choose|i: int| 0 <= i < members.len() && #[trigger] members[i].0 == key;
    if i < members.len() - 1 {
        lemma_keys_before_the_last(members, i);
    }
}

proof fn lemma_front_lacks_the_last(members: Seq<Member>)
    requires
        ascending(members),
        members.len() > 0,
    ensures
        as_map(members.drop_last()) == as_map(members).remove(members.last().0),
{
    let front = members.drop_last();
    let last = members.last().0;
    if as_map(front).dom().contains(last) {
        lemma_keys_of_map(front, last);
        let i = choose|i: int| 0 <= i < front.len() && #[trigger] front[i].0 == last;
        lemma_keys_before_the_last(members, i);
        lemma_precedes_is_strict(members[i].0, last);
    }
    assert(as_map(front) =~= as_map(members).remove(last));
}

/// The members of an object can be listed in ascending order in one way only,
/// so the object has one text.
pub proof fn law_object_has_one_text(a: Seq<Member>, b: Seq<Member>)
    requires
        ascending(a),
        ascending(b),
        as_map(a) == as_map(b),
    ensures
        a == b,
        json_object(a) == json_object(b),
    decreases a.len(),
{
    if a.len() == 0 {
        if b.len() > 0 {
            assert(as_map(b).dom().contains(b.last().0));
        }
        assert(a =~= b);
    } else {
        lemma_key_is_last_or_before(b, a.last().0);
        lemma_key_is_last_or_before(a, b.last().0);
        if a.last().0 != b.last().0 {
            lemma_precedes_is_strict(a.last().0, b.last().0);
        }
        assert(as_map(a)[a.last().0] == a.last().1);
        assert(as_map(b)[b.last().0] == b.last().1);
        lemma_front_lacks_the_last(a);
        lemma_front_lacks_the_last(b);
        law_object_has_one_text(a.drop_last(), b.drop_last());
        assert(a =~= a.drop_last().push(a.last()));
        assert(b =~= b.drop_last().push(b.last()));
    }
}

/// A string without quotes, backslashes and control characters stands in JSON as
/// it is, between quotes.
pub proof fn law_ordinary_string_stands_as_it_is(s: Seq<char>)
    requires
        forall|i: int|
            0 <= i < s.len() ==> #[trigger] s[i] != '"' && s[i] != '\\' && s[i] as int >= 0x20,
    ensures
        json_string(s) == seq!['"'] + s + seq!['"'],
{
    lemma_escaped_of_ordinary(s);
}

proof fn lemma_escaped_of_ordinary(s: Seq<char>)
    requires
        forall|i: int|
            0 <= i < s.len() ==> #[trigger] s[i] != '"' && s[i] != '\\' && s[i] as int >= 0x20,
    ensures
        escaped(s) == s,
    decreases s.len(),
{
    if s.len() > 0 {
        lemma_escaped_of_ordinary(s.drop_first());
        assert(seq![s[0]] + s.drop_first() =~= s);
    } else {
        assert(escaped(s) =~= s);
    }
}

/// What stands between the quotes is put together as the strings are: the JSON
/// text of `s + t` is that of `s` up to its closing quote, and that of `t` from
/// behind its opening quote.
pub proof fn law_string_texts_are_put_together(s: Seq<char>, t: Seq<char>)
    ensures
        json_string(s + t) == json_string(s).drop_last() + json_string(t).drop_first(),
{
    lemma_escaped_of_sum(s, t);
    assert(json_string(s + t) =~= json_string(s).drop_last() + json_string(t).drop_first());
}

proof fn lemma_escaped_of_sum(s: Seq<char>, t: Seq<char>)
    ensures
        escaped(s + t) == escaped(s) + escaped(t),
    decreases s.len(),
{
    if s.len() == 0 {
        assert(s + t =~= t);
        assert(escaped(s) + escaped(t) =~= escaped(t));
    } else {
        assert((s + t).drop_first() =~= s.drop_first() + t);
        lemma_escaped_of_sum(s.drop_first(), t);
        assert(escaped(s + t) =~= escaped(s) + escaped(t));
    }
}

/// A character that cannot stand in JSON as it is stands there behind a
/// backslash: by itself, by a letter of its own, or by its code.
pub proof fn law_special_characters_are_escaped(c: char)
    ensures
        c == '"' || c == '\\' ==> json_string(seq![c]) == seq!['"', '\\', c, '"'],
        c == '\u{8}' ==> json_string(seq![c]) == seq!['"', '\\', 'b', '"'],
        c == '\t' ==> json_string(seq![c]) == seq!['"', '\\', 't', '"'],
        c == '\n' ==> json_string(seq![c]) == seq!['"', '\\', 'n', '"'],
        c == '\u{c}' ==> json_string(seq![c]) == seq!['"', '\\', 'f', '"'],
        c == '\r' ==> json_string(seq![c]) == seq!['"', '\\', 'r', '"'],
        (c as int) < 0x20 && c != '\u{8}' && c != '\t' && c != '\n' && c != '\u{c}' && c != '\r'
            ==> ({
            let text = json_string(seq![c]);
            let low = c as int % 16;
            &&& text.len() == 8
            &&& text.take(5) == seq!['"', '\\', 'u', '0', '0']
            &&& text[5] as int == '0' as int + c as int / 16
            &&& text[6] as int == if low < 10 {
                '0' as int + low
            } else {
                'a' as int + low - 10
            }
            &&& text[7] == '"'
        }),
{
    let s = seq![c];
    assert(s.drop_first() =~= Seq::<char>::empty());
    assert(escaped(s.drop_first()) =~= Seq::<char>::empty());
    assert(escaped(s) =~= escape(c));
}

/// An object without members is a pair of braces; a member behind the others
/// stands before the closing brace, behind a comma where it is not the first.
pub proof fn law_object_text_grows_by_its_members(a: Seq<Member>, key: Seq<char>, v: Seq<char>)
    ensures
        json_object(Seq::empty()) == seq!['{', '}'],
        json_object(a.push((key, v))) == json_object(a).drop_last() + (if a.len() == 0 {
            seq![]
        } else {
            seq![',']
        }) + json_string(key) + seq![':'] + v + seq!['}'],
{
    reveal_strlit("{");
    reveal_strlit("}");
    reveal_strlit(",");
    reveal_strlit(":");
    assert(json_object(Seq::empty()) =~= seq!['{', '}']);
    assert(a.push((key, v)).drop_last() =~= a);
    assert(json_object(a.push((key, v))) =~= json_object(a).drop_last() + (if a.len() == 0 {
        seq![]
    } else {
        seq![',']
    }) + json_string(key) + seq![':'] + v + seq!['}']);
}

/// Whether a text goes on as it does behind a value in an object: with a comma,
/// or with the closing brace.
pub open spec fn goes_on(rest: Seq<char>) -> bool {
    rest.len() > 0 && (rest[0] == ',' || rest[0] == '}')
}

/// Whether a reader can tell where these two values end, and whether they are the
/// same one: where the texts are the same, so are the values and what follows.
pub open spec fn told_apart(u: Seq<char>, v: Seq<char>) -> bool {
    forall|x: Seq<char>, y: Seq<char>|
        goes_on(x) && goes_on(y) && #[trigger] (u + x) == #[trigger] (v + y) ==> u == v && x == y
}

proof fn lemma_escape_ends_itself(c: char, x: Seq<char>, d: char, y: Seq<char>)
    requires
        escape(c) + x == escape(d) + y,
    ensures
        c == d,
        x == y,
{
    let a = escape(c) + x;
    let b = escape(d) + y;
    assert(a[0] == escape(c)[0]);
    assert(b[0] == escape(d)[0]);
    if escape(c).len() > 1 && escape(d).len() > 1 {
        assert(a[1] == escape(c)[1]);
        assert(b[1] == escape(d)[1]);
        if escape(c).len() == 6 && escape(d).len() == 6 {
            assert(a[4] == escape(c)[4]);
            assert(b[4] == escape(d)[4]);
            assert(a[5] == escape(c)[5]);
            assert(b[5] == escape(d)[5]);
        }
    }
    assert(c == d);
    assert(x =~= a.skip(escape(c).len() as int));
    assert(y =~= b.skip(escape(c).len() as int));
}

proof fn lemma_escaped_ends_at_the_quote(s: Seq<char>, x: Seq<char>, t: Seq<char>, y: Seq<char>)
    requires
        x.len() > 0,
        y.len() > 0,
        x[0] == '"',
        y[0] == '"',
        escaped(s) + x == escaped(t) + y,
    ensures
        s == t,
        x == y,
    decreases s.len(),
{
    let a = escaped(s) + x;
    let b = escaped(t) + y;
    if s.len() == 0 {
        assert(a =~= x);
        if t.len() > 0 {
            assert(b[0] == escape(t[0])[0]);
        }
        assert(s =~= t);
        assert(b =~= y);
    } else if t.len() == 0 {
        assert(b =~= y);
        assert(a[0] == escape(s[0])[0]);
    } else {
        let s1 = s.drop_first();
        let t1 = t.drop_first();
        assert(a =~= escape(s[0]) + (escaped(s1) + x));
        assert(b =~= escape(t[0]) + (escaped(t1) + y));
        lemma_escape_ends_itself(s[0], escaped(s1) + x, t[0], escaped(t1) + y);
        lemma_escaped_ends_at_the_quote(s1, x, t1, y);
        assert(s =~= seq![s[0]] + s1);
        assert(t =~= seq![t[0]] + t1);
    }
}

/// Strings can be told apart by their JSON texts, whatever they hold.
pub proof fn law_strings_are_told_apart(s: Seq<char>, t: Seq<char>)
    ensures
        json_string(s) == json_string(t) ==> s == t,
        told_apart(json_string(s), json_string(t)),
{
    let quote = seq!['"'];
    assert forall|x: Seq<char>, y: Seq<char>|
        #[trigger] (json_string(s) + x) == #[trigger] (json_string(t) + y) implies s == t && x
        == y by {
        let a = json_string(s) + x;
        let b = json_string(t) + y;
        assert(a.skip(1) =~= escaped(s) + (quote + x));
        assert(b.skip(1) =~= escaped(t) + (quote + y));
        lemma_escaped_ends_at_the_quote(s, quote + x, t, quote + y);
        assert((quote + x).skip(1) =~= x);
        assert((quote + y).skip(1) =~= y);
    }
    let none = Seq::<char>::empty();
    assert(json_string(s) + none =~= json_string(s));
    assert(json_string(t) + none =~= json_string(t));
}

/// Numbers can be told apart by their JSON texts.
pub proof fn law_numbers_are_told_apart(m: nat, n: nat)
    ensures
        decimal(m) == decimal(n) ==> m == n,
        told_apart(decimal(m), decimal(n)),
{
    law_decimal_reads_back(m);
    law_decimal_reads_back(n);
    assert forall|x: Seq<char>, y: Seq<char>|
        goes_on(x) && goes_on(y) && #[trigger] (decimal(m) + x) == #[trigger] (decimal(n)
            + y) implies decimal(m) == decimal(n) && x == y by {
        let a = decimal(m) + x;
        let b = decimal(n) + y;
        let i = decimal(m).len() as int;
        let j = decimal(n).len() as int;
        if i < j {
            assert(a[i] == x[0]);
            assert(b[i] == decimal(n)[i]);
        } else if j < i {
            assert(b[j] == y[0]);
            assert(a[j] == decimal(m)[j]);
        }
        assert(decimal(m) =~= a.take(i));
        assert(decimal(n) =~= b.take(i));
        assert(x =~= a.skip(i));
        assert(y =~= b.skip(i));
    }
}

/// Whether two objects have the same keys, and under each of them values that can
/// be told apart.
pub open spec fn alike(a: Seq<Member>, b: Seq<Member>) -> bool {
    &&& a.len() == b.len()
    &&& forall|i: int| 0 <= i < a.len() ==> (#[trigger] a[i]).0 == (#[trigger] b[i]).0
    &&& forall|i: int|
        #![trigger a[i], b[i]]
        0 <= i < a.len() ==> told_apart(a[i].1, b[i].1)
}

proof fn lemma_joined_ends_itself(a: Seq<Member>, x: Seq<char>, b: Seq<Member>, y: Seq<char>)
    requires
        alike(a, b),
        goes_on(x),
        goes_on(y),
        joined(a) + x == joined(b) + y,
    ensures
        a == b,
        x == y,
    decreases a.len(),
{
    reveal_strlit(",");
    if a.len() == 0 {
        assert(joined(a) + x =~= x);
        assert(joined(b) + y =~= y);
        assert(a =~= b);
    } else {
        let n = a.len() - 1;
        let u = a[n].1;
        let v = b[n].1;
        assert(a[n].0 == b[n].0);
        assert(told_apart(u, v));
        let key = json_string(a[n].0) + ":"@;
        if n == 0 {
            assert(joined(a) + x =~= key + (u + x));
            assert(joined(b) + y =~= key + (v + y));
            lemma_same_front(key, u + x, v + y);
            assert(a =~= seq![a[0]]);
            assert(b =~= seq![b[0]]);
        } else {
            let front = a.drop_last();
            let other = b.drop_last();
            assert(alike(front, other)) by {
                assert forall|i: int|
                    #![trigger front[i], other[i]]
                    0 <= i < front.len() implies front[i].0 == other[i].0 && told_apart(
                    front[i].1,
                    other[i].1,
                ) by {
                    assert(front[i] == a[i] && other[i] == b[i]);
                }
            }
            let rest = ","@ + key + (u + x);
            let other_rest = ","@ + key + (v + y);
            assert(joined(a) + x =~= joined(front) + rest);
            assert(joined(b) + y =~= joined(other) + other_rest);
            lemma_joined_ends_itself(front, rest, other, other_rest);
            lemma_same_front(","@ + key, u + x, v + y);
            assert(a =~= front.push(a[n]));
            assert(b =~= other.push(b[n]));
        }
    }
}

proof fn lemma_same_front(front: Seq<char>, x: Seq<char>, y: Seq<char>)
    requires
        front + x == front + y,
    ensures
        x == y,
{
    assert(x =~= (front + x).skip(front.len() as int));
    assert(y =~= (front + y).skip(front.len() as int));
}

/// The text of an object tells its members: two objects with the same keys, and
/// under each of them values that can be told apart, have the same text only
/// where they have the same members, and can themselves be told apart.
pub proof fn law_text_tells_the_members(a: Seq<Member>, b: Seq<Member>)
    requires
        alike(a, b),
    ensures
        json_object(a) == json_object(b) ==> a == b,
        told_apart(json_object(a), json_object(b)),
{
    reveal_strlit("}");
    assert forall|x: Seq<char>, y: Seq<char>|
        #[trigger] (json_object(a) + x) == #[trigger] (json_object(b) + y) implies a == b && x
        == y by {
        assert(json_object(a) + x =~= "{"@ + (joined(a) + ("}"@ + x)));
        assert(json_object(b) + y =~= "{"@ + (joined(b) + ("}"@ + y)));
        lemma_same_front("{"@, joined(a) + ("}"@ + x), joined(b) + ("}"@ + y));
        lemma_joined_ends_itself(a, "}"@ + x, b, "}"@ + y);
        lemma_same_front("}"@, x, y);
    }
    let none = Seq::<char>::empty();
    assert(json_object(a) + none =~= json_object(a));
    assert(json_object(b) + none =~= json_object(b));
}

/// A JSON object whose members are given in ascending order of their keys.
pub(crate) struct Object {
    map: serde_json::Map<String, Value>,
    members: Ghost<Seq<Member>>,
}

impl Object {
    /// The members so far.
    pub(crate) closed spec fn members(&self) -> Seq<Member> {
        self.members@
    }

    /// The map holds exactly the members, and their keys ascend.
    pub(crate) closed spec fn well_formed(&self) -> bool {
        &&& ascending(self.members@)
        &&& as_map(self.members@) == entries(self.map)
    }

    /// The object without members.
    pub(crate) fn new() -> (o: Object)
        ensures
            o.well_formed(),
            o.members() == Seq::<Member>::empty(),
    {
        Object { map: serde_json::Map::new(), members: Ghost(Seq::empty()) }
    }

    /// Adds a member behind the others.
    pub(crate) fn put(&mut self, key: &str, v: Value)
        requires
            old(self).well_formed(),
            old(self).members().len() > 0 ==> precedes(old(self).members().last().0, key@),
        ensures
            final(self).well_formed(),
            final(self).members() == old(self).members().push((key@, value_text(v))),
    {
        let ghost member = (key@, value_text(v));
        let ghost before = self.members@;
        let _replaced = self.map.insert(key.to_owned(), v);
        self.members = Ghost(before.push(member));
        assert(self.members@.drop_last() =~= before);
    }

    /// The finished object as a JSON value.
    pub(crate) fn into_value(self) -> (v: Value)
        requires
            self.well_formed(),
        ensures
            value_text(v) == json_object(self.members()),
    {
        object_value(self.map)
    }
}

} // verus!
