//! The wire format: the JSON rendering of records, a pure, total function
//! of the record's field set.
//!
//! A row is written as an object of its four fields, the instant as an
//! RFC 3339 string; a listing is the array of all rows in table order.

use crate::time::rfc3339_of;
use crate::user::{user_wf, User, UserV};
use vstd::prelude::*;
use vstd::string::StrSliceExecFns;

verus! {

/// The sixteen lowercase hexadecimal digits.
pub open spec fn hex_digit(n: int) -> char {
    if n == 0 {
        '0'
    } else if n == 1 {
        '1'
    } else if n == 2 {
        '2'
    } else if n == 3 {
        '3'
    } else if n == 4 {
        '4'
    } else if n == 5 {
        '5'
    } else if n == 6 {
        '6'
    } else if n == 7 {
        '7'
    } else if n == 8 {
        '8'
    } else if n == 9 {
        '9'
    } else if n == 10 {
        'a'
    } else if n == 11 {
        'b'
    } else if n == 12 {
        'c'
    } else if n == 13 {
        'd'
    } else if n == 14 {
        'e'
    } else {
        'f'
    }
}

/// How one character is written inside a JSON string literal: quote and
/// backslash get a backslash, a control character a `\u00..` escape, and
/// every other character stands as itself.
pub open spec fn esc_char(c: char) -> Seq<char> {
    if c == '"' {
        seq!['\\', '"']
    } else if c == '\\' {
        seq!['\\', '\\']
    } else if (c as u32) < 32 {
        seq![
            '\\',
            'u',
            '0',
            '0',
            hex_digit(c as u32 as int / 16),
            hex_digit(c as u32 as int % 16),
        ]
    } else {
        seq![c]
    }
}

/// A whole character sequence, escaped.
pub open spec fn json_escaped(s: Seq<char>) -> Seq<char>
    decreases s.len(),
{
    if s.len() == 0 {
        Seq::empty()
    } else {
        esc_char(s[0]) + json_escaped(s.drop_first())
    }
}

/// A JSON string literal: quoted and escaped.
pub open spec fn json_quoted(s: Seq<char>) -> Seq<char> {
    seq!['"'] + json_escaped(s) + seq!['"']
}

/// The JSON object for one row.
pub open spec fn user_json(u: UserV) -> Seq<char> {
    "{\"id\":"@ + json_quoted(u.id) + ",\"name\":"@ + json_quoted(u.name) + ",\"email\":"@
        + json_quoted(u.email) + ",\"created_at\":"@ + json_quoted(
        rfc3339_of(u.created_at.secs, u.created_at.nanos),
    ) + "}"@
}

/// The items of the array, comma-separated, in table order.
pub open spec fn users_json_items(us: Seq<UserV>) -> Seq<char>
    decreases us.len(),
{
    if us.len() == 0 {
        Seq::empty()
    } else if us.len() == 1 {
        user_json(us[0])
    } else {
        users_json_items(us.drop_last()) + ","@ + user_json(us.last())
    }
}

/// The JSON array of all rows.
pub open spec fn users_json(us: Seq<UserV>) -> Seq<char> {
    "["@ + users_json_items(us) + "]"@
}

/// Escaping a sequence one character longer appends that character's
/// escape.
proof fn lemma_escaped_snoc(s: Seq<char>)
    requires
        s.len() > 0,
    ensures
        json_escaped(s) == json_escaped(s.drop_last()) + esc_char(s.last()),
    decreases s.len(),
{
    if s.len() == 1 {
        reveal_with_fuel(json_escaped, 2);
        assert(s.drop_first() =~= Seq::<char>::empty());
        assert(s.drop_last() =~= Seq::<char>::empty());
        assert(json_escaped(s) =~= esc_char(s[0]));
        assert(json_escaped(s.drop_last()) + esc_char(s.last()) =~= esc_char(s[0]));
    } else {
        let t = s.drop_first();
        lemma_escaped_snoc(t);
        assert(s.drop_last().len() > 0);
        assert(s.drop_last()[0] == s[0]);
        assert(s.drop_last().drop_first() =~= t.drop_last());
        assert(json_escaped(s) =~= (esc_char(s[0]) + json_escaped(t.drop_last())) + esc_char(
            t.last(),
        ));
        assert(json_escaped(s.drop_last()) + esc_char(s.last()) =~= (esc_char(s[0])
            + json_escaped(t.drop_last())) + esc_char(t.last()));
    }
}

/// Relies on `String`'s `FromIterator`: collecting characters yields the
/// string of exactly those characters.
#[verifier::external_body]
fn string_from_chars(v: &Vec<char>) -> (r: String)
    ensures
        r@ == v@,
{
    v.iter().collect()
}

fn hex_char(n: u8) -> (c: char)
    requires
        n < 16,
    ensures
        c == hex_digit(n as int),
{
    if n == 0 {
        '0'
    } else if n == 1 {
        '1'
    } else if n == 2 {
        '2'
    } else if n == 3 {
        '3'
    } else if n == 4 {
        '4'
    } else if n == 5 {
        '5'
    } else if n == 6 {
        '6'
    } else if n == 7 {
        '7'
    } else if n == 8 {
        '8'
    } else if n == 9 {
        '9'
    } else if n == 10 {
        'a'
    } else if n == 11 {
        'b'
    } else if n == 12 {
        'c'
    } else if n == 13 {
        'd'
    } else if n == 14 {
        'e'
    } else {
        'f'
    }
}

/// Appends every character of `s` to `out`.
fn push_chars(out: &mut Vec<char>, s: &str)
    ensures
        final(out)@ == old(out)@ + s@,
{
    let n = s.unicode_len();
    let mut i: usize = 0;
    while i < n
        invariant
            n == s@.len(),
            i <= n,
            out@ == old(out)@ + s@.take(i as int),
        decreases n - i,
    {
        out.push(s.get_char(i));
        i += 1;
        proof {
            assert(old(out)@ + s@.take(i as int) =~= (old(out)@ + s@.take(i as int - 1)).push(
                s@[i as int - 1],
            ));
        }
    }
    proof {
        assert(s@.take(n as int) =~= s@);
        assert(out@ =~= old(out)@ + s@);
    }
}

/// Appends the escape of one character.
fn push_esc_char(out: &mut Vec<char>, c: char)
    ensures
        final(out)@ == old(out)@ + esc_char(c),
{
    if c == '"' {
        out.push('\\');
        out.push('"');
    } else if c == '\\' {
        out.push('\\');
        out.push('\\');
    } else if (c as u32) < 32 {
        let n = c as u32;
        out.push('\\');
        out.push('u');
        out.push('0');
        out.push('0');
        out.push(hex_char((n / 16) as u8));
        out.push(hex_char((n % 16) as u8));
    } else {
        out.push(c);
    }
    proof {
        assert(out@ =~= old(out)@ + esc_char(c));
    }
}

/// Appends `s` as a JSON string literal.
fn push_json_string(out: &mut Vec<char>, s: &str)
    ensures
        final(out)@ == old(out)@ + json_quoted(s@),
{
    out.push('"');
    let n = s.unicode_len();
    let mut i: usize = 0;
    while i < n
        invariant
            n == s@.len(),
            i <= n,
            out@ == old(out)@ + seq!['"'] + json_escaped(s@.take(i as int)),
        decreases n - i,
    {
        push_esc_char(out, s.get_char(i));
        i += 1;
        proof {
            let pre = s@.take(i as int);
            lemma_escaped_snoc(pre);
            assert(pre.drop_last() =~= s@.take(i as int - 1));
            assert(pre.last() == s@[i as int - 1]);
            assert(out@ =~= old(out)@ + seq!['"'] + json_escaped(pre));
        }
    }
    out.push('"');
    proof {
        assert(s@.take(n as int) =~= s@);
        assert(out@ =~= old(out)@ + json_quoted(s@));
    }
}

/// Appends the JSON object for one row.
fn push_user_json(out: &mut Vec<char>, u: &User)
    requires
        user_wf(u@),
    ensures
        final(out)@ == old(out)@ + user_json(u@),
{
    push_chars(out, "{\"id\":");
    push_json_string(out, u.id.as_str());
    push_chars(out, ",\"name\":");
    push_json_string(out, u.name.as_str());
    push_chars(out, ",\"email\":");
    push_json_string(out, u.email.as_str());
    push_chars(out, ",\"created_at\":");
    let ts = crate::time::fmt_rfc3339(u.created_at.secs, u.created_at.nanos);
    push_json_string(out, ts.as_str());
    push_chars(out, "}");
    proof {
        assert(out@ =~= old(out)@ + user_json(u@));
    }
}

/// The JSON object for one row, as a string. A pure, total function of the
/// row's fields: no partial object is ever emitted.
pub fn user_to_json(u: &User) -> (r: String)
    requires
        user_wf(u@),
    ensures
        r@ == user_json(u@),
{
    let mut out: Vec<char> = Vec::new();
    push_user_json(&mut out, u);
    proof {
        assert(Seq::<char>::empty() + user_json(u@) =~= user_json(u@));
    }
    string_from_chars(&out)
}

/// The JSON array of the given rows, in order.
pub fn users_to_json(us: &Vec<User>) -> (r: String)
    requires
        forall|i: int| 0 <= i < us.deep_view().len() ==> user_wf(#[trigger] us.deep_view()[i]),
    ensures
        r@ == users_json(us.deep_view()),
{
    let ghost dv = us.deep_view();
    let mut out: Vec<char> = Vec::new();
    push_chars(&mut out, "[");
    proof {
        assert(dv.take(0) =~= Seq::<UserV>::empty());
        assert(out@ =~= "["@ + users_json_items(dv.take(0)));
    }
    let n = us.len();
    let mut i: usize = 0;
    while i < n
        invariant
            dv == us.deep_view(),
            n == us@.len(),
            dv.len() == n,
            i <= n,
            forall|k: int| 0 <= k < dv.len() ==> user_wf(#[trigger] dv[k]),
            out@ == "["@ + users_json_items(dv.take(i as int)),
        decreases n - i,
    {
        if i > 0 {
            push_chars(&mut out, ",");
        }
        proof {
            assert(dv[i as int] == us@[i as int].deep_view());
        }
        push_user_json(&mut out, &us[i]);
        i += 1;
        proof {
            let pre = dv.take(i as int);
            assert(pre.last() == dv[i as int - 1]);
            assert(pre.drop_last() =~= dv.take(i as int - 1));
            assert(out@ =~= "["@ + users_json_items(pre));
        }
    }
    push_chars(&mut out, "]");
    proof {
        assert(dv.take(n as int) =~= dv);
        assert(out@ =~= users_json(dv));
    }
    string_from_chars(&out)
}

} // verus!
