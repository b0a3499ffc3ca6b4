//! The server-rendered HTML representation: character escaping, the index
//! page, and the feed as an HTML list. Rendering is a pure function of the
//! template inputs, so a page is determined by the rows it was rendered from.

use vstd::prelude::*;
use vstd::seq_lib::*;
use crate::post::{Post, RowModel};
use crate::json::{json_list_body, json_rows_inner, row_json};
use crate::text::{chars_to_string, push_str_chars};

verus! {

/// The HTML escape of one character: the five markup-significant characters become
/// entities, every other character stands for itself.
pub open spec fn html_escape_char(c: char) -> Seq<char> {
    if c == '&' {
        "&amp;"@
    } else if c == '<' {
        "&lt;"@
    } else if c == '>' {
        "&gt;"@
    } else if c == '"' {
        "&quot;"@
    } else if c == '\'' {
        "&#x27;"@
    } else {
        seq![c]
    }
}

/// The HTML escape of a string, character by character.
pub open spec fn html_escape(s: Seq<char>) -> Seq<char>
    decreases s.len(),
{
    if s.len() == 0 {
        Seq::<char>::empty()
    } else {
        html_escape_char(s[0]) + html_escape(s.skip(1))
    }
}

pub proof fn lemma_html_escape_push(s: Seq<char>, c: char)
    ensures
        html_escape(s.push(c)) == html_escape(s) + html_escape_char(c),
    decreases s.len(),
{
    if s.len() == 0 {
        assert(s.push(c)[0] == c);
        assert(s.push(c).skip(1) =~= Seq::<char>::empty());
        assert(html_escape(s.push(c)) == html_escape_char(c) + html_escape(
            Seq::<char>::empty(),
        ));
        assert(html_escape(s.push(c)) =~= html_escape(s) + html_escape_char(c));
    } else {
        assert(s.push(c)[0] == s[0]);
        assert(s.push(c).skip(1) =~= s.skip(1).push(c));
        lemma_html_escape_push(s.skip(1), c);
        assert(html_escape(s.push(c)) =~= html_escape(s) + html_escape_char(c));
    }
}

/// The index page for a title.
pub open spec fn index_page(title: Seq<char>) -> Seq<char> {
    "<html><head><title>"@ + html_escape(title) + "</title></head><body><h1>"@ + html_escape(title)
        + "</h1></body></html>"@
}

/// One feed entry as an HTML list item.
pub open spec fn row_html(r: RowModel) -> Seq<char> {
    "<li><b>"@ + html_escape(r.user) + "</b>: "@ + html_escape(r.content) + "</li>"@
}

/// The concatenated list items of the feed, one per row, in row order.
pub open spec fn html_rows_inner(rows: Seq<RowModel>) -> Seq<char>
    decreases rows.len(),
{
    if rows.len() == 0 {
        Seq::<char>::empty()
    } else {
        html_rows_inner(rows.drop_last()) + row_html(rows.last())
    }
}

/// The feed as a full HTML page.
pub open spec fn html_list_body(rows: Seq<RowModel>) -> Seq<char> {
    "<html><body><ul>"@ + html_rows_inner(rows) + "</ul></body></html>"@
}

/// Appends the HTML escape of `s` to `out`.
pub fn push_html_escaped(s: &str, out: &mut Vec<char>)
    ensures
        final(out)@ == old(out)@ + html_escape(s@),
{
    let len = s.unicode_len();
    let mut i: usize = 0;
    while i < len
        invariant
            i <= len,
            len == s@.len(),
            out@ == old(out)@ + html_escape(s@.take(i as int)),
        decreases len - i,
    {
        let c = s.get_char(i);
        proof {
            lemma_html_escape_push(s@.take(i as int), c);
            assert(s@.take(i + 1) =~= s@.take(i as int).push(c));
        }
        if c == '&' {
            push_str_chars("&amp;", out);
        } else if c == '<' {
            push_str_chars("&lt;", out);
        } else if c == '>' {
            push_str_chars("&gt;", out);
        } else if c == '"' {
            push_str_chars("&quot;", out);
        } else if c == '\'' {
            push_str_chars("&#x27;", out);
        } else {
            out.push(c);
        }
        assert(out@ =~= old(out)@ + html_escape(s@.take(i + 1)));
        i += 1;
    }
    assert(s@.take(len as int) =~= s@);
}

/// Renders the index page for `title`.
pub fn render_index(title: &str) -> (r: String)
    ensures
        r@ == index_page(title@),
{
    let mut out: Vec<char> = Vec::new();
    push_str_chars("<html><head><title>", &mut out);
    push_html_escaped(title, &mut out);
    push_str_chars("</title></head><body><h1>", &mut out);
    push_html_escaped(title, &mut out);
    push_str_chars("</h1></body></html>", &mut out);
    assert(out@ =~= index_page(title@));
    chars_to_string(&out)
}

/// Renders the feed as an HTML page, in the order the posts are given.
/// `rows` is the model of the rows the posts were read from.
pub fn render_post_list(posts: &Vec<Post>, Ghost(rows): Ghost<Seq<RowModel>>) -> (r: String)
    requires
        posts@.len() == rows.len(),
        forall|i: int| 0 <= i < rows.len() ==> posts@[i].matches_row(rows[i]),
    ensures
        r@ == html_list_body(rows),
{
    let mut out: Vec<char> = Vec::new();
    push_str_chars("<html><body><ul>", &mut out);
    let n = posts.len();
    let mut i: usize = 0;
    while i < n
        invariant
            i <= n,
            n == posts@.len(),
            n == rows.len(),
            forall|j: int| 0 <= j < rows.len() ==> posts@[j].matches_row(rows[j]),
            out@ == "<html><body><ul>"@ + html_rows_inner(rows.take(i as int)),
        decreases n - i,
    {
        let p = &posts[i];
        push_str_chars("<li><b>", &mut out);
        push_html_escaped(p.user.as_str(), &mut out);
        push_str_chars("</b>: ", &mut out);
        push_html_escaped(p.content.as_str(), &mut out);
        push_str_chars("</li>", &mut out);
        proof {
            assert(rows.take(i + 1).drop_last() =~= rows.take(i as int));
            assert(rows.take(i + 1).last() == rows[i as int]);
            assert(posts@[i as int].matches_row(rows[i as int]));
            assert(out@ =~= "<html><body><ul>"@ + html_rows_inner(rows.take(i + 1)));
        }
        i += 1;
    }
    push_str_chars("</ul></body></html>", &mut out);
    proof {
        assert(rows.take(n as int) =~= rows);
        assert(out@ =~= html_list_body(rows));
    }
    chars_to_string(&out)
}

/// The fragments a sequence of items joins into, separated by `sep`.
pub open spec fn joined(items: Seq<Seq<char>>, sep: Seq<char>) -> Seq<char>
    decreases items.len(),
{
    if items.len() == 0 {
        Seq::<char>::empty()
    } else if items.len() == 1 {
        items[0]
    } else {
        joined(items.drop_last(), sep) + sep + items.last()
    }
}

/// The JSON fragment of each row, in row order.
pub open spec fn json_fragments(rows: Seq<RowModel>) -> Seq<Seq<char>> {
    rows.map_values(|r: RowModel| row_json(r))
}

/// The HTML fragment of each row, in row order.
pub open spec fn html_fragments(rows: Seq<RowModel>) -> Seq<Seq<char>> {
    rows.map_values(|r: RowModel| row_html(r))
}

/// The JSON feed and the HTML feed rendered from the same rows reflect the
/// same underlying data: each body decomposes into exactly one fragment per
/// row — the same count on both sides — in the same order, and the fragment
/// at position `i` is derived from row `i` alone.
pub proof fn lemma_feed_views_consistent(rows: Seq<RowModel>)
    ensures
        json_fragments(rows).len() == rows.len(),
        html_fragments(rows).len() == rows.len(),
        forall|i: int| 0 <= i < rows.len() ==> json_fragments(rows)[i] == row_json(rows[i]),
        forall|i: int| 0 <= i < rows.len() ==> html_fragments(rows)[i] == row_html(rows[i]),
        json_rows_inner(rows) == joined(json_fragments(rows), seq![',']),
        html_rows_inner(rows) == joined(html_fragments(rows), Seq::<char>::empty()),
        json_list_body(rows) == seq!['['] + joined(json_fragments(rows), seq![',']) + seq![']'],
        html_list_body(rows) == "<html><body><ul>"@ + joined(
            html_fragments(rows),
            Seq::<char>::empty(),
        ) + "</ul></body></html>"@,
    decreases rows.len(),
{
    if rows.len() > 1 {
        lemma_feed_views_consistent(rows.drop_last());
        assert(json_fragments(rows).len() == rows.len());
        assert(html_fragments(rows).len() == rows.len());
        assert(json_fragments(rows).drop_last() =~= json_fragments(rows.drop_last()));
        assert(html_fragments(rows).drop_last() =~= html_fragments(rows.drop_last()));
        assert(json_fragments(rows).last() == row_json(rows.last()));
        assert(html_fragments(rows).last() == row_html(rows.last()));
        assert(joined(json_fragments(rows), seq![',']) == joined(
            json_fragments(rows).drop_last(),
            seq![','],
        ) + seq![','] + json_fragments(rows).last());
        assert(joined(json_fragments(rows).drop_last(), seq![',']) == joined(
            json_fragments(rows.drop_last()),
            seq![','],
        ));
        assert(json_rows_inner(rows) == json_rows_inner(rows.drop_last()) + seq![','] + row_json(
            rows.last(),
        ));
        assert(json_rows_inner(rows) =~= joined(json_fragments(rows), seq![',']));
        assert(joined(html_fragments(rows), Seq::<char>::empty()) == joined(
            html_fragments(rows).drop_last(),
            Seq::<char>::empty(),
        ) + Seq::<char>::empty() + html_fragments(rows).last());
        assert(joined(html_fragments(rows).drop_last(), Seq::<char>::empty()) == joined(
            html_fragments(rows.drop_last()),
            Seq::<char>::empty(),
        ));
        assert(html_rows_inner(rows) == html_rows_inner(rows.drop_last()) + row_html(rows.last()));
        assert(html_rows_inner(rows) =~= joined(html_fragments(rows), Seq::<char>::empty()));
    } else if rows.len() == 1 {
        assert(rows.drop_last() =~= Seq::<RowModel>::empty());
        assert(json_fragments(rows)[0] == row_json(rows[0]));
        assert(html_fragments(rows)[0] == row_html(rows[0]));
        assert(html_rows_inner(rows) == html_rows_inner(rows.drop_last()) + row_html(rows.last()));
        assert(html_rows_inner(rows) =~= joined(html_fragments(rows), Seq::<char>::empty()));
        assert(json_rows_inner(rows) =~= joined(json_fragments(rows), seq![',']));
    }
}

} // verus!
