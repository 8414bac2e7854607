//! The HTML exporter, and the verified helpers that recover visible text
//! from an exported fragment.
//!
//! HTML generation is delegated to `pulldown_cmark::html`; the fragment a
//! given source text exports to is a pure function of the text and carries a
//! name here. Tag stripping and whitespace removal are verified.

use vstd::prelude::*;
use vstd::string::*;
use pulldown_cmark::Options;
use pulldown_cmark::Parser;

verus! {

/// The HTML fragment that the exporter derives from a markdown text with the
/// default construct set.
pub uninterp spec fn html_of(s: Seq<char>) -> Seq<char>;

/// The HTML fragment that the exporter derives with every extended construct
/// enabled (the standalone watch-and-export utility uses this).
pub uninterp spec fn html_ext_of(s: Seq<char>) -> Seq<char>;

/// Relies on pulldown_cmark::html::push_html over Parser::new: appended to an
/// empty buffer, the buffer holds the fragment, a pure function of the text.
#[verifier::external_body]
pub(crate) fn export_html(text: &str) -> (r: String)
    ensures
        r@ == html_of(text@),
{
    let mut out = String::new();
    pulldown_cmark::html::push_html(&mut out, Parser::new(text));
    out
}

/// Relies on pulldown_cmark::html::push_html over Parser::new_ext with all
/// options: as above, with the extended construct set.
#[verifier::external_body]
pub(crate) fn export_html_ext(text: &str) -> (r: String)
    ensures
        r@ == html_ext_of(text@),
{
    let mut out = String::new();
    pulldown_cmark::html::push_html(&mut out, Parser::new_ext(text, Options::all()));
    out
}

/// Derive the HTML artifact for a note body.
pub fn render_html(text: &str) -> (r: String)
    ensures
        r@ == html_of(text@),
{
    export_html(text)
}

/// Derive the HTML artifact with the extended construct set.
pub fn render_html_ext(text: &str) -> (r: String)
    ensures
        r@ == html_ext_of(text@),
{
    export_html_ext(text)
}

/// What stripping tags leaves of a character sequence: outside a tag every
/// character but an opening angle bracket is kept; from an opening bracket
/// to the next closing one everything is dropped.
pub open spec fn strip_tags_from(s: Seq<char>, in_tag: bool) -> Seq<char>
    decreases s.len(),
{
    if s.len() == 0 {
        Seq::empty()
    } else if in_tag {
        strip_tags_from(s.drop_first(), s[0] != '>')
    } else if s[0] == '<' {
        strip_tags_from(s.drop_first(), true)
    } else {
        seq![s[0]] + strip_tags_from(s.drop_first(), false)
    }
}

/// The visible text of an HTML fragment: the fragment with every tag removed.
pub open spec fn spec_strip_tags(s: Seq<char>) -> Seq<char> {
    strip_tags_from(s, false)
}

/// Remove every tag from an HTML fragment, keeping only its visible text.
pub fn strip_tags(html: &str) -> (r: String)
    ensures
        r@ == spec_strip_tags(html@),
{
    let n = html.unicode_len();
    let mut out = String::new();
    let mut in_tag = false;
    let mut i: usize = 0;
    proof {
        assert(html@.skip(0) =~= html@);
    }
    while i < n
        invariant
            i <= n,
            n == html@.len(),
            out@ + strip_tags_from(html@.skip(i as int), in_tag) == spec_strip_tags(html@),
        decreases n - i,
    {
        let c = html.get_char(i);
        proof {
            assert(html@.skip(i as int)[0] == html@[i as int]);
            assert(html@.skip(i as int).drop_first() =~= html@.skip(i + 1));
        }
        if in_tag {
            if c == '>' {
                in_tag = false;
            }
        } else if c == '<' {
            in_tag = true;
        } else {
            let ghost out0 = out@;
            crate::textutil::push_char(&mut out, c);
            proof {
                assert(out@ + strip_tags_from(html@.skip(i + 1), false) =~= out0 + (seq![c]
                    + strip_tags_from(html@.skip(i + 1), false)));
            }
        }
        i = i + 1;
    }
    proof {
        assert(html@.skip(n as int) =~= Seq::<char>::empty());
        assert(out@ =~= out@ + Seq::<char>::empty());
    }
    out
}

/// Stripping tags from text that holds no opening bracket leaves it
/// unchanged: visible text survives the strip intact.
pub proof fn lemma_strip_tags_plain(s: Seq<char>)
    requires
        forall|i: int| 0 <= i < s.len() ==> s[i] != '<',
    ensures
        spec_strip_tags(s) == s,
    decreases s.len(),
{
    if s.len() > 0 {
        assert forall|i: int| 0 <= i < s.drop_first().len() implies s.drop_first()[i] != '<' by {
            assert(s.drop_first()[i] == s[i + 1]);
        }
        lemma_strip_tags_plain(s.drop_first());
        assert(spec_strip_tags(s) =~= s);
    } else {
        assert(spec_strip_tags(s) =~= s);
    }
}

/// Whether a character counts as whitespace for visible-text comparison.
pub open spec fn is_ws(c: char) -> bool {
    c == ' ' || c == '\t' || c == '\n' || c == '\r'
}

/// A character sequence with all whitespace removed.
pub open spec fn spec_strip_ws(s: Seq<char>) -> Seq<char>
    decreases s.len(),
{
    if s.len() == 0 {
        Seq::empty()
    } else if is_ws(s[0]) {
        spec_strip_ws(s.drop_first())
    } else {
        seq![s[0]] + spec_strip_ws(s.drop_first())
    }
}

/// Normalize visible text by removing all whitespace, so that texts that
/// differ only in line breaking and indentation compare equal.
pub fn strip_whitespace(s: &str) -> (r: String)
    ensures
        r@ == spec_strip_ws(s@),
{
    let n = s.unicode_len();
    let mut out = String::new();
    let mut i: usize = 0;
    proof {
        assert(s@.skip(0) =~= s@);
    }
    while i < n
        invariant
            i <= n,
            n == s@.len(),
            out@ + spec_strip_ws(s@.skip(i as int)) == spec_strip_ws(s@),
        decreases n - i,
    {
        let c = s.get_char(i);
        proof {
            assert(s@.skip(i as int)[0] == s@[i as int]);
            assert(s@.skip(i as int).drop_first() =~= s@.skip(i + 1));
        }
        if !(c == ' ' || c == '\t' || c == '\n' || c == '\r') {
            let ghost out0 = out@;
            crate::textutil::push_char(&mut out, c);
            proof {
                assert(out@ + spec_strip_ws(s@.skip(i + 1)) =~= out0 + (seq![c] + spec_strip_ws(
                    s@.skip(i + 1),
                )));
            }
        }
        i = i + 1;
    }
    proof {
        assert(s@.skip(n as int) =~= Seq::<char>::empty());
        assert(out@ =~= out@ + Seq::<char>::empty());
    }
    out
}

} // verus!
