//! The JSON encoding of the service's response bodies.
//!
//! The wire shape of a post is `{"id": <integer>, "title": <string>,
//! "content": <string>}`, and a listing is a JSON array of such
//! objects.  The spec functions below define that text character by
//! character; the exec functions produce it and are proved to match.

use vstd::prelude::*;
use vstd::string::StrSliceExecFns;
use vstd::string::StringExecFns;

use crate::models::{Post, PostView};

verus! {

/// The character for one base-16 digit (decimal digits are the first
/// ten of these).
pub open spec fn hex_char(d: int) -> char {
    if d == 0 {
        '0'
    } else if d == 1 {
        '1'
    } else if d == 2 {
        '2'
    } else if d == 3 {
        '3'
    } else if d == 4 {
        '4'
    } else if d == 5 {
        '5'
    } else if d == 6 {
        '6'
    } else if d == 7 {
        '7'
    } else if d == 8 {
        '8'
    } else if d == 9 {
        '9'
    } else if d == 10 {
        'a'
    } else if d == 11 {
        'b'
    } else if d == 12 {
        'c'
    } else if d == 13 {
        'd'
    } else if d == 14 {
        'e'
    } else {
        'f'
    }
}

/// The decimal digits of `n`, most significant first, with no sign and
/// no leading zero (except for `n == 0` itself).
pub open spec fn dec_rep(n: nat) -> Seq<char>
    decreases n,
{
    if n < 10 {
        seq![hex_char(n as int)]
    } else {
        dec_rep(n / 10).push(hex_char((n % 10) as int))
    }
}

/// The decimal representation of a signed integer: a minus sign where
/// negative, then the digits of the magnitude.
pub open spec fn int_rep(n: int) -> Seq<char> {
    if n < 0 {
        seq!['-'] + dec_rep((-n) as nat)
    } else {
        dec_rep(n as nat)
    }
}

/// How one character appears inside a JSON string literal: quote and
/// backslash are escaped, the common control characters get their
/// short escapes, the remaining control characters get `\u00XX`, and
/// everything else stands for itself.
pub open spec fn escape_char(c: char) -> Seq<char> {
    if c == '"' {
        seq!['\\', '"']
    } else if c == '\\' {
        seq!['\\', '\\']
    } else if c == '\n' {
        seq!['\\', 'n']
    } else if c == '\r' {
        seq!['\\', 'r']
    } else if c == '\t' {
        seq!['\\', 't']
    } else if (c as int) < 32 {
        seq!['\\', 'u', '0', '0', hex_char((c as int) / 16), hex_char((c as int) % 16)]
    } else {
        seq![c]
    }
}

/// A character sequence escaped for use inside a JSON string literal.
pub open spec fn escape_string(s: Seq<char>) -> Seq<char>
    decreases s.len(),
{
    if s.len() == 0 {
        Seq::empty()
    } else {
        escape_char(s[0]) + escape_string(s.drop_first())
    }
}

/// A JSON string literal: the escaped characters between quotes.
pub open spec fn json_string(s: Seq<char>) -> Seq<char> {
    seq!['"'] + escape_string(s) + seq!['"']
}

/// The JSON object for one post.
pub open spec fn post_json(p: PostView) -> Seq<char> {
    "{\"id\":"@ + int_rep(p.id) + ",\"title\":"@ + json_string(p.title) + ",\"content\":"@
        + json_string(p.content) + "}"@
}

/// The comma-separated object list inside a JSON array of posts.
pub open spec fn posts_json_items(rows: Seq<PostView>) -> Seq<char>
    decreases rows.len(),
{
    if rows.len() == 0 {
        Seq::empty()
    } else if rows.len() == 1 {
        post_json(rows[0])
    } else {
        posts_json_items(rows.drop_last()) + seq![','] + post_json(rows.last())
    }
}

/// The JSON array for a listing of posts, in the order given.
pub open spec fn posts_json(rows: Seq<PostView>) -> Seq<char> {
    seq!['['] + posts_json_items(rows) + seq![']']
}

/// Escaping a concatenation escapes the pieces in place.
proof fn lemma_escape_string_append(a: Seq<char>, b: Seq<char>)
    ensures
        escape_string(a + b) == escape_string(a) + escape_string(b),
    decreases a.len(),
{
    if a.len() == 0 {
        assert(a + b =~= b);
        assert(escape_string(a) + escape_string(b) =~= escape_string(b));
    } else {
        assert((a + b).drop_first() =~= a.drop_first() + b);
        lemma_escape_string_append(a.drop_first(), b);
        assert(escape_char(a[0]) + (escape_string(a.drop_first()) + escape_string(b)) =~= (
        escape_char(a[0]) + escape_string(a.drop_first())) + escape_string(b));
    }
}

/// Relies on `String::push` from std: it appends exactly the one given
/// character to the end of the string.
#[verifier::external_body]
fn push_char(out: &mut String, c: char)
    ensures
        final(out)@ == old(out)@.push(c),
{
    out.push(c);
}

/// Append the character for one base-16 digit.
fn push_hex_char(out: &mut String, d: u32)
    requires
        d < 16,
    ensures
        final(out)@ == old(out)@.push(hex_char(d as int)),
{
    let c: char = if d == 0 {
        '0'
    } else if d == 1 {
        '1'
    } else if d == 2 {
        '2'
    } else if d == 3 {
        '3'
    } else if d == 4 {
        '4'
    } else if d == 5 {
        '5'
    } else if d == 6 {
        '6'
    } else if d == 7 {
        '7'
    } else if d == 8 {
        '8'
    } else if d == 9 {
        '9'
    } else if d == 10 {
        'a'
    } else if d == 11 {
        'b'
    } else if d == 12 {
        'c'
    } else if d == 13 {
        'd'
    } else if d == 14 {
        'e'
    } else {
        'f'
    };
    push_char(out, c);
}

/// Append the decimal digits of `n`.
fn write_u64_dec(out: &mut String, n: u64)
    ensures
        final(out)@ == old(out)@ + dec_rep(n as nat),
{
    let mut digits: Vec<char> = Vec::new();
    let mut m: u64 = n;
    while m >= 10
        invariant
            dec_rep(n as nat) == dec_rep(m as nat) + digits@,
        decreases m,
    {
        let d: u64 = m % 10;
        let ghost digits0 = digits@;
        let mut c: char = '0';
        if d == 1 {
            c = '1';
        } else if d == 2 {
            c = '2';
        } else if d == 3 {
            c = '3';
        } else if d == 4 {
            c = '4';
        } else if d == 5 {
            c = '5';
        } else if d == 6 {
            c = '6';
        } else if d == 7 {
            c = '7';
        } else if d == 8 {
            c = '8';
        } else if d == 9 {
            c = '9';
        }
        digits.insert(0, c);
        m = m / 10;
        proof {
            assert(c == hex_char((m * 10 + d) % 10));
            assert(dec_rep((m * 10 + d) as nat) == dec_rep(m as nat).push(c));
            assert(dec_rep(m as nat).push(c) + digits0 =~= dec_rep(m as nat) + digits@);
        }
    }
    let ghost digits1 = digits@;
    let mut c: char = '0';
    if m == 1 {
        c = '1';
    } else if m == 2 {
        c = '2';
    } else if m == 3 {
        c = '3';
    } else if m == 4 {
        c = '4';
    } else if m == 5 {
        c = '5';
    } else if m == 6 {
        c = '6';
    } else if m == 7 {
        c = '7';
    } else if m == 8 {
        c = '8';
    } else if m == 9 {
        c = '9';
    }
    digits.insert(0, c);
    proof {
        assert(c == hex_char(m as int));
        assert(seq![c] + digits1 =~= digits@);
        assert(dec_rep(n as nat) =~= digits@);
    }
    let ghost out0 = out@;
    let k = digits.len();
    for i in 0..k
        invariant
            k == digits.len(),
            digits@ == dec_rep(n as nat),
            out@ == out0 + digits@.take(i as int),
    {
        push_char(out, digits[i]);
        proof {
            assert(out@ =~= out0 + digits@.take(i + 1));
        }
    }
    proof {
        assert(digits@.take(k as int) =~= digits@);
    }
}

/// Append the decimal representation of a signed integer.
fn write_i64_dec(out: &mut String, n: i64)
    ensures
        final(out)@ == old(out)@ + int_rep(n as int),
{
    if n < 0 {
        let ghost out0 = out@;
        push_char(out, '-');
        let wide: i128 = n as i128;
        let mag: u64 = (-wide) as u64;
        write_u64_dec(out, mag);
        proof {
            assert(out@ =~= out0 + int_rep(n as int));
        }
    } else {
        write_u64_dec(out, n as u64);
    }
}

/// Append one character in its escaped form.
fn write_escaped_char(out: &mut String, c: char)
    ensures
        final(out)@ == old(out)@ + escape_char(c),
{
    let ghost out0 = out@;
    if c == '"' {
        push_char(out, '\\');
        push_char(out, '"');
    } else if c == '\\' {
        push_char(out, '\\');
        push_char(out, '\\');
    } else if c == '\n' {
        push_char(out, '\\');
        push_char(out, 'n');
    } else if c == '\r' {
        push_char(out, '\\');
        push_char(out, 'r');
    } else if c == '\t' {
        push_char(out, '\\');
        push_char(out, 't');
    } else if (c as u32) < 32 {
        let v: u32 = c as u32;
        push_char(out, '\\');
        push_char(out, 'u');
        push_char(out, '0');
        push_char(out, '0');
        push_hex_char(out, v / 16);
        push_hex_char(out, v % 16);
    } else {
        push_char(out, c);
    }
    proof {
        assert(out@ =~= out0 + escape_char(c));
    }
}

/// Append a JSON string literal holding the given text.
fn write_json_string(out: &mut String, s: &String)
    ensures
        final(out)@ == old(out)@ + json_string(s@),
{
    let ghost out0 = out@;
    push_char(out, '"');
    let n = s.as_str().unicode_len();
    proof {
        assert(s@.take(0) =~= Seq::<char>::empty());
    }
    for i in 0..n
        invariant
            n == s@.len(),
            out@ == out0.push('"') + escape_string(s@.take(i as int)),
    {
        let c = s.as_str().get_char(i);
        write_escaped_char(out, c);
        proof {
            assert(s@.take(i + 1) =~= s@.take(i as int) + seq![c]);
            lemma_escape_string_append(s@.take(i as int), seq![c]);
            assert(seq![c].drop_first() =~= Seq::<char>::empty());
            assert(seq![c][0] == c);
            assert(escape_string(Seq::<char>::empty()) == Seq::<char>::empty());
            assert(escape_string(seq![c]) == escape_char(c) + escape_string(
                seq![c].drop_first(),
            ));
            assert(escape_char(c) + Seq::<char>::empty() =~= escape_char(c));
            assert(escape_string(seq![c]) =~= escape_char(c));
            assert(out@ =~= out0.push('"') + escape_string(s@.take(i + 1)));
        }
    }
    push_char(out, '"');
    proof {
        assert(s@.take(n as int) =~= s@);
        assert(out@ =~= out0 + json_string(s@));
    }
}

/// The JSON object for one post, as text.
pub fn post_json_string(p: &Post) -> (s: String)
    ensures
        s@ == post_json(p@),
{
    let mut out = String::new();
    out.append("{\"id\":");
    write_i64_dec(&mut out, p.id);
    out.append(",\"title\":");
    write_json_string(&mut out, &p.title);
    out.append(",\"content\":");
    write_json_string(&mut out, &p.content);
    out.append("}");
    proof {
        assert(out@ =~= post_json(p@));
    }
    out
}

/// The JSON array for a listing of posts, in the order of the vector.
pub fn posts_json_string(posts: &Vec<Post>) -> (s: String)
    ensures
        s@ == posts_json(posts@.map_values(|p: Post| p@)),
{
    let ghost views = posts@.map_values(|p: Post| p@);
    let mut out = String::new();
    push_char(&mut out, '[');
    let n = posts.len();
    proof {
        assert(out@ =~= seq!['['] + posts_json_items(views.take(0)));
    }
    for i in 0..n
        invariant
            n == posts@.len(),
            views == posts@.map_values(|p: Post| p@),
            out@ == seq!['['] + posts_json_items(views.take(i as int)),
    {
        let ghost out_before = out@;
        if i > 0 {
            push_char(&mut out, ',');
        }
        let item = post_json_string(&posts[i]);
        out.append(item.as_str());
        proof {
            let taken = views.take(i + 1);
            assert(taken.drop_last() =~= views.take(i as int));
            assert(taken.last() == views[i as int]);
            if i == 0 {
                assert(posts_json_items(views.take(1)) == post_json(views[0]));
                assert(out@ =~= seq!['['] + posts_json_items(views.take(1)));
            } else {
                assert(posts_json_items(taken) == posts_json_items(views.take(i as int))
                    + seq![','] + post_json(views[i as int]));
                assert(out@ =~= seq!['['] + posts_json_items(taken));
            }
        }
    }
    push_char(&mut out, ']');
    proof {
        assert(views.take(n as int) =~= views);
        assert(out@ =~= posts_json(views));
    }
    out
}

} // verus!
