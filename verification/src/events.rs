//! The compiler's event alphabet, and the markdown parse that produces it.
//!
//! Parsing markdown is delegated to the `pulldown_cmark` crate; everything
//! downstream of the event stream is verified. The stream a given source text
//! parses to is named by the uninterpreted function [`events_of`].

use vstd::prelude::*;
use pulldown_cmark::Event as PdEvent;
use pulldown_cmark::Tag as PdTag;
use pulldown_cmark::Parser;

verus! {

/// One markdown event, as the styled-text compiler consumes it. Constructs
/// the compiler does not style (paragraphs, links, images, tables, rules)
/// arrive as [`MdEvent::Other`] and are treated as plain text flow.
#[derive(Clone, PartialEq, Eq, Debug)]
pub enum MdEvent {
    /// A heading opens; the payload is its level (1 to 6).
    HeadingStart(u8),
    HeadingEnd,
    EmphasisStart,
    EmphasisEnd,
    StrongStart,
    StrongEnd,
    ListStart,
    ListEnd,
    ItemStart,
    ItemEnd,
    /// A text node with its content.
    Text(String),
    /// An inline code node with its content.
    Code(String),
    /// A soft or hard line break.
    LineBreak,
    /// Any construct the compiler does not distinguish.
    Other,
}

#[verifier::external_type_specification]
#[verifier::external_body]
pub struct ExPdEvent<'a>(PdEvent<'a>);

#[verifier::external_type_specification]
#[verifier::external_body]
pub struct ExPdTag<'a>(PdTag<'a>);

/// The event stream that the markdown parser yields for a given source text.
/// It is a pure function of the text alone, so it carries a name rather than
/// a (pages-long) definition.
pub uninterp spec fn events_of(s: Seq<char>) -> Seq<MdEvent>;

/// Relies on pulldown_cmark::Tag's variants alone: tells the start tags the
/// compiler styles apart, one arm each, moving only the heading level.
#[verifier::external_body]
fn start_of(t: PdTag<'_>) -> MdEvent {
    match t {
        PdTag::Heading(l, _, _) => MdEvent::HeadingStart(l as u8),
        PdTag::Emphasis => MdEvent::EmphasisStart,
        PdTag::Strong => MdEvent::StrongStart,
        PdTag::List(_) => MdEvent::ListStart,
        PdTag::Item => MdEvent::ItemStart,
        _ => MdEvent::Other,
    }
}

/// Relies on pulldown_cmark::Tag's variants alone: tells the end tags the
/// compiler styles apart, one arm each.
#[verifier::external_body]
fn end_of(t: PdTag<'_>) -> MdEvent {
    match t {
        PdTag::Heading(..) => MdEvent::HeadingEnd,
        PdTag::Emphasis => MdEvent::EmphasisEnd,
        PdTag::Strong => MdEvent::StrongEnd,
        PdTag::List(_) => MdEvent::ListEnd,
        PdTag::Item => MdEvent::ItemEnd,
        _ => MdEvent::Other,
    }
}

/// Relies on pulldown_cmark::Parser::new: the event stream it yields is a
/// pure function of the source text, and parsing never fails, however
/// malformed the input.
#[verifier::external_body]
pub(crate) fn parse_markdown(text: &str) -> (evs: Vec<MdEvent>)
    ensures
        evs@ == events_of(text@),
{
    Parser::new(text).map(|e| match e {
        PdEvent::Start(t) => start_of(t),
        PdEvent::End(t) => end_of(t),
        PdEvent::Text(t) => MdEvent::Text(t.to_string()),
        PdEvent::Code(t) => MdEvent::Code(t.to_string()),
        PdEvent::SoftBreak | PdEvent::HardBreak => MdEvent::LineBreak,
        _ => MdEvent::Other,
    }).collect()
}

} // verus!
