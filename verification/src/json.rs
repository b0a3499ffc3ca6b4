//! The JSON wire representation of the feed: string escaping, one object per
//! post with fields `id`, `user`, `content`, `created_at` in that order, and
//! the feed as an array of those objects.

use vstd::prelude::*;
use crate::post::{Post, RowModel};
use crate::text::{chars_to_string, dec_of_int, push_dec_i64, push_str_chars};

verus! {

/// The hexadecimal digit character for `d` (`d < 16`).
pub open spec fn hex_digit(d: nat) -> char {
    if d < 10 {
        ((d + 48) as u8) as char
    } else {
        ((d + 87) as u8) as char
    }
}

/// The JSON escape of one character: the two-character escapes for quote,
/// backslash and the common control characters, `\u00XX` for the remaining
/// control characters, and the character itself otherwise.
pub open spec fn json_escape_char(c: char) -> Seq<char> {
    if c == '"' {
        seq!['\\', '"']
    } else if c == '\\' {
        seq!['\\', '\\']
    } else if c == '\n' {
        seq!['\\', 'n']
    } else if c == '\r' {
        seq!['\\', 'r']
    } else if c == '\t' {
        seq!['\\', 't']
    } else if c as u32 == 8 {
        seq!['\\', 'b']
    } else if c as u32 == 12 {
        seq!['\\', 'f']
    } else if (c as u32) < 32 {
        seq!['\\', 'u', '0', '0', hex_digit((c as u32 / 16) as nat), hex_digit(
            (c as u32 % 16) as nat,
        )]
    } else {
        seq![c]
    }
}

/// The JSON escape of a string, character by character.
pub open spec fn json_escape(s: Seq<char>) -> Seq<char>
    decreases s.len(),
{
    if s.len() == 0 {
        Seq::<char>::empty()
    } else {
        json_escape_char(s[0]) + json_escape(s.skip(1))
    }
}

pub proof fn lemma_json_escape_push(s: Seq<char>, c: char)
    ensures
        json_escape(s.push(c)) == json_escape(s) + json_escape_char(c),
    decreases s.len(),
{
    if s.len() == 0 {
        assert(s.push(c)[0] == c);
        assert(s.push(c).skip(1) =~= Seq::<char>::empty());
        assert(json_escape(s.push(c)) == json_escape_char(c) + json_escape(
            Seq::<char>::empty(),
        ));
        assert(json_escape(s.push(c)) =~= json_escape(s) + json_escape_char(c));
    } else {
        assert(s.push(c)[0] == s[0]);
        assert(s.push(c).skip(1) =~= s.skip(1).push(c));
        lemma_json_escape_push(s.skip(1), c);
        assert(json_escape(s.push(c)) =~= json_escape(s) + json_escape_char(c));
    }
}

/// A JSON string literal: the escaped characters between double quotes.
pub open spec fn json_string(s: Seq<char>) -> Seq<char> {
    seq!['"'] + json_escape(s) + seq!['"']
}

/// A JSON integer-or-null: `null` for `None`, the decimal digits otherwise.
pub open spec fn json_opt_int(o: Option<i64>) -> Seq<char> {
    match o {
        Option::None => "null"@,
        Option::Some(i) => dec_of_int(i as int),
    }
}

/// The JSON object of one post, fields in declaration order.
pub open spec fn post_json(id: Option<i64>, user: Seq<char>, content: Seq<char>, created_at: Option<
    i64,
>) -> Seq<char> {
    "{\"id\":"@ + json_opt_int(id) + ",\"user\":"@ + json_string(user) + ",\"content\":"@
        + json_string(content) + ",\"created_at\":"@ + json_opt_int(created_at) + seq!['}']
}

/// The JSON object of one persisted row.
pub open spec fn row_json(r: RowModel) -> Seq<char> {
    post_json(Some(r.id), r.user, r.content, Some(r.created_at))
}

/// The comma-separated bodies of a JSON array, one entry per row.
pub open spec fn json_rows_inner(rows: Seq<RowModel>) -> Seq<char>
    decreases rows.len(),
{
    if rows.len() == 0 {
        Seq::<char>::empty()
    } else if rows.len() == 1 {
        row_json(rows[0])
    } else {
        json_rows_inner(rows.drop_last()) + seq![','] + row_json(rows.last())
    }
}

/// The feed as a JSON array, in row order.
pub open spec fn json_list_body(rows: Seq<RowModel>) -> Seq<char> {
    seq!['['] + json_rows_inner(rows) + seq![']']
}

/// Appends the JSON escape of `s` to `out`.
pub fn push_json_escaped(s: &str, out: &mut Vec<char>)
    ensures
        final(out)@ == old(out)@ + json_escape(s@),
{
    let len = s.unicode_len();
    let mut i: usize = 0;
    while i < len
        invariant
            i <= len,
            len == s@.len(),
            out@ == old(out)@ + json_escape(s@.take(i as int)),
        decreases len - i,
    {
        let c = s.get_char(i);
        proof {
            lemma_json_escape_push(s@.take(i as int), c);
            assert(s@.take(i + 1) =~= s@.take(i as int).push(c));
        }
        if c == '"' {
            out.push('\\');
            out.push('"');
        } else if c == '\\' {
            out.push('\\');
            out.push('\\');
        } else if c == '\n' {
            out.push('\\');
            out.push('n');
        } else if c == '\r' {
            out.push('\\');
            out.push('r');
        } else if c == '\t' {
            out.push('\\');
            out.push('t');
        } else if c as u32 == 8 {
            out.push('\\');
            out.push('b');
        } else if c as u32 == 12 {
            out.push('\\');
            out.push('f');
        } else if (c as u32) < 32 {
            out.push('\\');
            out.push('u');
            out.push('0');
            out.push('0');
            let hi: u32 = c as u32 / 16;
            let lo: u32 = c as u32 % 16;
            out.push(if hi < 10 {
                ((hi + 48) as u8) as char
            } else {
                ((hi + 87) as u8) as char
            });
            out.push(if lo < 10 {
                ((lo + 48) as u8) as char
            } else {
                ((lo + 87) as u8) as char
            });
        } else {
            out.push(c);
        }
        assert(out@ =~= old(out)@ + json_escape(s@.take(i + 1)));
        i += 1;
    }
    assert(s@.take(len as int) =~= s@);
}

/// Appends `null` or the decimal digits of `o` to `out`.
fn push_json_opt_int(o: &Option<i64>, out: &mut Vec<char>)
    ensures
        final(out)@ == old(out)@ + json_opt_int(*o),
{
    match o {
        Option::None => push_str_chars("null", out),
        Option::Some(i) => push_dec_i64(*i, out),
    }
}

/// Appends the JSON object of `p` to `out`.
pub fn push_post_json(p: &Post, out: &mut Vec<char>)
    ensures
        final(out)@ == old(out)@ + post_json(p.id, p.user@, p.content@, p.created_at),
{
    push_str_chars("{\"id\":", out);
    push_json_opt_int(&p.id, out);
    push_str_chars(",\"user\":", out);
    out.push('"');
    push_json_escaped(p.user.as_str(), out);
    out.push('"');
    push_str_chars(",\"content\":", out);
    out.push('"');
    push_json_escaped(p.content.as_str(), out);
    out.push('"');
    push_str_chars(",\"created_at\":", out);
    push_json_opt_int(&p.created_at, out);
    out.push('}');
    assert(out@ =~= old(out)@ + post_json(p.id, p.user@, p.content@, p.created_at));
}

/// Serializes one post as its JSON object.
pub fn post_to_json(p: &Post) -> (r: String)
    ensures
        r@ == post_json(p.id, p.user@, p.content@, p.created_at),
{
    let mut out: Vec<char> = Vec::new();
    push_post_json(p, &mut out);
    chars_to_string(&out)
}

/// Serializes the feed as a JSON array, in the order the posts are given.
/// `rows` is the model of the rows the posts were read from.
pub fn posts_to_json(posts: &Vec<Post>, Ghost(rows): Ghost<Seq<RowModel>>) -> (r: String)
    requires
        posts@.len() == rows.len(),
        forall|i: int| 0 <= i < rows.len() ==> posts@[i].matches_row(rows[i]),
    ensures
        r@ == json_list_body(rows),
{
    let mut out: Vec<char> = Vec::new();
    out.push('[');
    let n = posts.len();
    let mut i: usize = 0;
    while i < n
        invariant
            i <= n,
            n == posts@.len(),
            n == rows.len(),
            forall|j: int| 0 <= j < rows.len() ==> posts@[j].matches_row(rows[j]),
            out@ == seq!['['] + json_rows_inner(rows.take(i as int)),
        decreases n - i,
    {
        if i > 0 {
            out.push(',');
        }
        push_post_json(&posts[i], &mut out);
        proof {
            assert(rows.take(i + 1).drop_last() =~= rows.take(i as int));
            assert(rows.take(i + 1).last() == rows[i as int]);
            assert(posts@[i as int].matches_row(rows[i as int]));
            assert(post_json(
                posts@[i as int].id,
                posts@[i as int].user@,
                posts@[i as int].content@,
                posts@[i as int].created_at,
            ) == row_json(rows[i as int]));
            assert(out@ =~= seq!['['] + json_rows_inner(rows.take(i + 1)));
        }
        i += 1;
    }
    out.push(']');
    proof {
        assert(rows.take(n as int) =~= rows);
        assert(out@ =~= json_list_body(rows));
    }
    chars_to_string(&out)
}

} // verus!
