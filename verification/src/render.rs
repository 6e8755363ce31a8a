//! The page renderer: HTML-escaping of user-originated text and the
//! deterministic construction of the home page document.

use vstd::prelude::*;

use crate::model::{RenderedView, RenderedViewModel};

verus! {

/// A character that could open markup or break out of a quoted attribute.
pub open spec fn is_markup_char(c: char) -> bool {
    c == '<' || c == '>' || c == '"'
}

/// How one character of user-originated text appears in the document:
/// the five HTML metacharacters become entities, every other character
/// stands for itself.
pub open spec fn escape_char(c: char) -> Seq<char> {
    if c == '<' {
        "&lt;"@
    } else if c == '>' {
        "&gt;"@
    } else if c == '&' {
        "&amp;"@
    } else if c == '"' {
        "&quot;"@
    } else if c == '\'' {
        "&#x27;"@
    } else {
        seq![c]
    }
}

/// The HTML-escaped form of a text: each character escaped in order.
pub open spec fn escape_text(s: Seq<char>) -> Seq<char>
    decreases s.len(),
{
    if s.len() == 0 {
        Seq::<char>::empty()
    } else {
        escape_char(s[0]) + escape_text(s.skip(1))
    }
}

/// Escaping distributes over concatenation.
pub proof fn lemma_escape_text_concat(a: Seq<char>, b: Seq<char>)
    ensures
        escape_text(a + b) == escape_text(a) + escape_text(b),
    decreases a.len(),
{
    if a.len() == 0 {
        assert(a + b =~= b);
        assert(escape_text(a) + escape_text(b) =~= escape_text(b));
    } else {
        assert((a + b).skip(1) =~= a.skip(1) + b);
        lemma_escape_text_concat(a.skip(1), b);
        assert((a + b)[0] == a[0]);
        assert(escape_char(a[0]) + (escape_text(a.skip(1)) + escape_text(b)) =~= (escape_char(
            a[0],
        ) + escape_text(a.skip(1))) + escape_text(b));
    }
}

/// Escaping one more character appends that character's escaped form.
pub proof fn lemma_escape_text_push(s: Seq<char>, c: char)
    ensures
        escape_text(s.push(c)) == escape_text(s) + escape_char(c),
{
    assert(s.push(c) =~= s + seq![c]);
    lemma_escape_text_concat(s, seq![c]);
    assert(seq![c].skip(1) =~= Seq::<char>::empty());
    assert(seq![c][0] == c);
    assert(escape_text(seq![c]) == escape_char(c) + escape_text(Seq::<char>::empty()));
    assert(escape_char(c) + Seq::<char>::empty() =~= escape_char(c));
}

/// No escaped character form contains a markup character.
proof fn lemma_escape_char_no_markup(c: char)
    ensures
        forall|i: int|
            0 <= i < escape_char(c).len() ==> !is_markup_char(#[trigger] escape_char(c)[i]),
{
    reveal_strlit("&lt;");
    reveal_strlit("&gt;");
    reveal_strlit("&amp;");
    reveal_strlit("&quot;");
    reveal_strlit("&#x27;");
}

/// Law: escaped text is free of markup characters. Whatever the
/// user-originated input, no `<`, `>` or `"` survives escaping, so escaped
/// text can neither open a tag nor break out of a quoted attribute.
pub proof fn lemma_escape_no_markup(s: Seq<char>)
    ensures
        forall|i: int|
            0 <= i < escape_text(s).len() ==> !is_markup_char(#[trigger] escape_text(s)[i]),
    decreases s.len(),
{
    if s.len() == 0 {
    } else {
        lemma_escape_char_no_markup(s[0]);
        lemma_escape_no_markup(s.skip(1));
        let head = escape_char(s[0]);
        let tail = escape_text(s.skip(1));
        assert(escape_text(s) == head + tail);
        assert forall|i: int| 0 <= i < escape_text(s).len() implies !is_markup_char(
            escape_text(s)[i],
        ) by {
            if i < head.len() {
                assert(escape_text(s)[i] == head[i]);
            } else {
                assert(escape_text(s)[i] == tail[i - head.len()]);
            }
        }
    }
}

/// HTML-escapes one text field: the result is exactly the escaped form of
/// the input, character for character.
pub fn escape_str(s: &str) -> (r: String)
    ensures
        r@ == escape_text(s@),
{
    let n: usize = s.unicode_len();
    let mut out = String::new();
    let mut i: usize = 0;
    while i < n
        invariant
            n == s@.len(),
            0 <= i <= n,
            out@ == escape_text(s@.take(i as int)),
        decreases n - i,
    {
        let c = s.get_char(i);
        proof {
            assert(s@.take(i as int + 1) =~= s@.take(i as int).push(s@[i as int]));
            lemma_escape_text_push(s@.take(i as int), s@[i as int]);
        }
        if c == '<' {
            out.append("&lt;");
        } else if c == '>' {
            out.append("&gt;");
        } else if c == '&' {
            out.append("&amp;");
        } else if c == '"' {
            out.append("&quot;");
        } else if c == '\'' {
            out.append("&#x27;");
        } else {
            let piece = s.substring_char(i, i + 1);
            proof {
                assert(piece@ =~= seq![s@[i as int]]);
            }
            out.append(piece);
        }
        i = i + 1;
    }
    proof {
        assert(s@.take(n as int) =~= s@);
    }
    out
}

/// The document fragment for one post: its title, author tag, tags and
/// content, every user-originated field escaped. The SEO fields
/// (description, keywords) are available to the renderer but carry no
/// body markup.
pub open spec fn spec_render_post(p: RenderedViewModel) -> Seq<char> {
    "<article><h2>"@ + escape_text(p.title) + "</h2><p>by "@ + escape_text(p.author_tag)
        + "</p><p>tags: "@ + escape_text(p.tags) + "</p><div>"@ + escape_text(p.content)
        + "</div></article>"@
}

/// The concatenated fragments of a sequence of posts, in input order.
pub open spec fn spec_render_posts(ps: Seq<RenderedViewModel>) -> Seq<char>
    decreases ps.len(),
{
    if ps.len() == 0 {
        Seq::<char>::empty()
    } else {
        spec_render_post(ps[0]) + spec_render_posts(ps.skip(1))
    }
}

/// The complete home page document: a fixed frame around the escaped page
/// title and the posts' fragments in input order.
pub open spec fn spec_render_index(title: Seq<char>, ps: Seq<RenderedViewModel>) -> Seq<char> {
    "<!DOCTYPE html><html><head><title>"@ + escape_text(title) + "</title></head><body><h1>"@
        + escape_text(title) + "</h1>"@ + spec_render_posts(ps) + "</body></html>"@
}

/// Law: the rendered post list preserves input order. Splitting the input
/// sequence anywhere splits the rendered output at the same point, so each
/// post's fragment appears after the fragments of every post before it and
/// before those of every post after it; the renderer never reorders.
pub proof fn lemma_render_posts_concat(a: Seq<RenderedViewModel>, b: Seq<RenderedViewModel>)
    ensures
        spec_render_posts(a + b) == spec_render_posts(a) + spec_render_posts(b),
    decreases a.len(),
{
    if a.len() == 0 {
        assert(a + b =~= b);
        assert(spec_render_posts(a) + spec_render_posts(b) =~= spec_render_posts(b));
    } else {
        assert((a + b).skip(1) =~= a.skip(1) + b);
        lemma_render_posts_concat(a.skip(1), b);
        assert((a + b)[0] == a[0]);
        assert(spec_render_post(a[0]) + (spec_render_posts(a.skip(1)) + spec_render_posts(b)) =~= (
        spec_render_post(a[0]) + spec_render_posts(a.skip(1))) + spec_render_posts(b));
    }
}

/// Rendering one more post appends exactly that post's fragment.
pub proof fn lemma_render_posts_push(ps: Seq<RenderedViewModel>, p: RenderedViewModel)
    ensures
        spec_render_posts(ps.push(p)) == spec_render_posts(ps) + spec_render_post(p),
{
    assert(ps.push(p) =~= ps + seq![p]);
    lemma_render_posts_concat(ps, seq![p]);
    assert(seq![p].skip(1) =~= Seq::<RenderedViewModel>::empty());
    assert(seq![p][0] == p);
    assert(spec_render_posts(seq![p]) == spec_render_post(p) + spec_render_posts(
        Seq::<RenderedViewModel>::empty(),
    ));
    assert(spec_render_post(p) + Seq::<char>::empty() =~= spec_render_post(p));
}

/// Renders the document fragment for one post.
pub fn render_post(p: &RenderedView) -> (r: String)
    ensures
        r@ == spec_render_post(p@),
{
    let mut out = String::from_str("<article><h2>");
    let title = escape_str(p.title.as_str());
    out.append(title.as_str());
    out.append("</h2><p>by ");
    let author = escape_str(p.author_tag.as_str());
    out.append(author.as_str());
    out.append("</p><p>tags: ");
    let tags = escape_str(p.tags.as_str());
    out.append(tags.as_str());
    out.append("</p><div>");
    let content = escape_str(p.content.as_str());
    out.append(content.as_str());
    out.append("</div></article>");
    proof {
        assert(out@ =~= spec_render_post(p@));
    }
    out
}

/// Renders the complete home page for a page title and an ordered sequence
/// of projected posts. Deterministic: the output is exactly the document
/// that `spec_render_index` describes, posts in input order.
pub fn render_index(title: &str, posts: &Vec<RenderedView>) -> (r: String)
    ensures
        r@ == spec_render_index(title@, posts.deep_view()),
{
    let mut out = String::from_str("<!DOCTYPE html><html><head><title>");
    let escaped_title = escape_str(title);
    out.append(escaped_title.as_str());
    out.append("</title></head><body><h1>");
    out.append(escaped_title.as_str());
    out.append("</h1>");
    let ghost prefix: Seq<char> = out@;
    let mut i: usize = 0;
    while i < posts.len()
        invariant
            0 <= i <= posts.len(),
            posts.deep_view().len() == posts@.len(),
            out@ == prefix + spec_render_posts(posts.deep_view().take(i as int)),
        decreases posts.len() - i,
    {
        let piece = render_post(&posts[i]);
        proof {
            assert(posts.deep_view().take(i as int + 1) =~= posts.deep_view().take(
                i as int,
            ).push(posts.deep_view()[i as int]));
            lemma_render_posts_push(posts.deep_view().take(i as int), posts.deep_view()[i as int]);
            assert(posts.deep_view()[i as int] == posts@[i as int]@);
        }
        out.append(piece.as_str());
        i = i + 1;
    }
    out.append("</body></html>");
    proof {
        assert(posts.deep_view().take(posts@.len() as int) =~= posts.deep_view());
        assert(out@ =~= spec_render_index(title@, posts.deep_view()));
    }
    out
}

/// The home page template data: the page title and the posts to list, in
/// order.
pub struct Index {
    pub title: String,
    pub blog_posts: Vec<RenderedView>,
}

impl Index {
    /// Renders the full home page document for this data.
    pub fn render(&self) -> (r: String)
        ensures
            r@ == spec_render_index(self.title@, self.blog_posts.deep_view()),
    {
        render_index(self.title.as_str(), &self.blog_posts)
    }
}

} // verus!
