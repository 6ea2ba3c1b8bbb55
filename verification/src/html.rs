//! Text that goes into HTML: escaping, as `maud` does it when it renders a
//! string into markup.
use vstd::prelude::*;
use maud::Render;

verus! {

/// What a character becomes in escaped HTML text: `&`, `<`, `>` and `"` are
/// written as entities, every other character as itself.
pub open spec fn escape_char(c: char) -> Seq<char> {
    if c == '&' {
        "&amp;"@
    } else if c == '<' {
        "&lt;"@
    } else if c == '>' {
        "&gt;"@
    } else if c == '"' {
        "&quot;"@
    } else {
        seq![c]
    }
}

/// `s` escaped for use as HTML text or as the value of a quoted attribute.
pub open spec fn html_escape(s: Seq<char>) -> Seq<char>
    decreases s.len(),
{
    if s.len() == 0 {
        Seq::empty()
    } else {
        html_escape(s.drop_last()) + escape_char(s.last())
    }
}

/// The text that a browser shows for escaped text `t`: the entities `&amp;`,
/// `&lt;`, `&gt;` and `&quot;` read back as the characters they stand for,
/// every other character as itself.
pub open spec fn html_unescape(t: Seq<char>) -> Seq<char>
    decreases t.len(),
{
    if t.len() == 0 {
        Seq::empty()
    } else if t.len() >= 5 && t.take(5) == "&amp;"@ {
        seq!['&'] + html_unescape(t.skip(5))
    } else if t.len() >= 4 && t.take(4) == "&lt;"@ {
        seq!['<'] + html_unescape(t.skip(4))
    } else if t.len() >= 4 && t.take(4) == "&gt;"@ {
        seq!['>'] + html_unescape(t.skip(4))
    } else if t.len() >= 6 && t.take(6) == "&quot;"@ {
        seq!['"'] + html_unescape(t.skip(6))
    } else {
        seq![t[0]] + html_unescape(t.skip(1))
    }
}

/// Whether `c` is one of the characters that escaping rewrites.
pub open spec fn is_markup_char(c: char) -> bool {
    c == '&' || c == '<' || c == '>' || c == '"'
}

/// `maud::Render::render_to` of a string: appends `text` to `out`, escaped.
/// The source (`escape::escape_to_string`) rewrites the bytes of `&`, `<`,
/// `>` and `"` as `&amp;`, `&lt;`, `&gt;`, `&quot;` and copies every other
/// byte; the bytes of other characters are never among those four, so this
/// is the escaping of each character in turn.
#[verifier::external_body]
pub(crate) fn push_escaped(out: &mut String, text: &str)
    ensures
        final(out)@ == old(out)@ + html_escape(text@),
{
    text.render_to(out);
}

/// Escaping distributes over concatenation.
pub proof fn lemma_escape_concat(a: Seq<char>, b: Seq<char>)
    ensures
        html_escape(a + b) == html_escape(a) + html_escape(b),
    decreases b.len(),
{
    if b.len() == 0 {
        assert(a + b =~= a);
    } else {
        lemma_escape_concat(a, b.drop_last());
        assert((a + b).drop_last() =~= a + b.drop_last());
        assert((a + b).last() == b.last());
    }
}

/// Escaping loses nothing: a browser shows escaped text as the text itself,
/// once, not an entity of it.
pub proof fn lemma_unescape_escape(s: Seq<char>)
    ensures
        html_unescape(html_escape(s)) == s,
    decreases s.len(),
{
    reveal_strlit("&amp;");
    reveal_strlit("&lt;");
    reveal_strlit("&gt;");
    reveal_strlit("&quot;");
    if s.len() > 0 {
        let c = s[0];
        let rest = s.skip(1);
        assert(s =~= seq![c] + rest);
        lemma_escape_concat(seq![c], rest);
        assert(seq![c].drop_last() =~= Seq::<char>::empty());
        assert(html_escape(Seq::<char>::empty()) == Seq::<char>::empty());
        assert(seq![c].last() == c);
        assert(html_escape(seq![c]) == html_escape(Seq::<char>::empty()) + escape_char(c));
        assert(html_escape(seq![c]) =~= escape_char(c));
        let e = escape_char(c);
        let r = html_escape(rest);
        let t = html_escape(s);
        assert(t == e + r);
        lemma_unescape_escape(rest);
        let k = e.len() as int;
        assert(t.skip(k) =~= r);
        assert(t.take(k) =~= e);
        if c == '&' {
            assert(html_unescape(t) == seq!['&'] + html_unescape(r));
        } else if c == '<' {
            assert(t[1] == 'l');
            if t.len() >= 5 {
                assert(t.take(5)[1] != "&amp;"@[1]);
            }
            assert(html_unescape(t) == seq!['<'] + html_unescape(r));
        } else if c == '>' {
            assert(t[1] == 'g');
            if t.len() >= 5 {
                assert(t.take(5)[1] != "&amp;"@[1]);
            }
            assert(t.take(4)[1] != "&lt;"@[1]);
            assert(html_unescape(t) == seq!['>'] + html_unescape(r));
        } else if c == '"' {
            assert(t[1] == 'q');
            assert(t.take(5)[1] != "&amp;"@[1]);
            assert(t.take(4)[1] != "&lt;"@[1]);
            assert(t.take(4)[1] != "&gt;"@[1]);
            assert(html_unescape(t) == seq!['"'] + html_unescape(r));
        } else {
            assert(t[0] == c);
            if t.len() >= 5 {
                assert(t.take(5)[0] != "&amp;"@[0]);
            }
            if t.len() >= 4 {
                assert(t.take(4)[0] != "&lt;"@[0]);
                assert(t.take(4)[0] != "&gt;"@[0]);
            }
            if t.len() >= 6 {
                assert(t.take(6)[0] != "&quot;"@[0]);
            }
            assert(html_unescape(t) == seq![c] + html_unescape(r));
        }
    }
}

/// Text without `&`, `<`, `>` and `"` is its own escaping.
pub proof fn lemma_escape_plain(s: Seq<char>)
    requires
        forall|i: int| 0 <= i < s.len() ==> !is_markup_char(#[trigger] s[i]),
    ensures
        html_escape(s) == s,
    decreases s.len(),
{
    if s.len() > 0 {
        lemma_escape_plain(s.drop_last());
        assert(!is_markup_char(s[s.len() - 1]));
        assert(s.drop_last() + seq![s.last()] =~= s);
    }
}

/// Escaped text holds no `<`, `>` or `"`: whatever the text, it cannot open
/// or close a tag, nor end the quoted value of an attribute.
pub proof fn lemma_escaped_text_is_inert(s: Seq<char>)
    ensures
        forall|i: int|
            0 <= i < html_escape(s).len() ==> {
                let c = #[trigger] html_escape(s)[i];
                c != '<' && c != '>' && c != '"'
            },
    decreases s.len(),
{
    reveal_strlit("&amp;");
    reveal_strlit("&lt;");
    reveal_strlit("&gt;");
    reveal_strlit("&quot;");
    if s.len() > 0 {
        lemma_escaped_text_is_inert(s.drop_last());
        let prefix = html_escape(s.drop_last());
        let tail = escape_char(s.last());
        assert forall|i: int| 0 <= i < html_escape(s).len() implies {
            let c = #[trigger] html_escape(s)[i];
            c != '<' && c != '>' && c != '"'
        } by {
            if i < prefix.len() {
                assert(html_escape(s)[i] == prefix[i]);
            } else {
                assert(html_escape(s)[i] == tail[i - prefix.len()]);
            }
        }
    }
}

} // verus!
