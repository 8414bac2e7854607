//! The styled-text compiler: a pure fold of a markdown event stream into an
//! ordered sequence of styled runs.
//!
//! The fold keeps a current format, a stack of saved formats (one per open
//! span, so closing a span restores the exact prior format), and the current
//! list nesting depth. Malformed input never aborts: a close event with no
//! matching open keeps the current format unchanged.

use vstd::prelude::*;
use crate::events::MdEvent;
use crate::events::events_of;
use crate::events::parse_markdown;
use crate::style::RunStyle;
use crate::style::RunV;
use crate::style::StyleContext;
use crate::style::StyledRun;
use crate::style::runs_of;

verus! {

/// The compiler's whole state while folding an event stream: current format,
/// saved-format stack, list nesting depth, and the runs emitted so far.
#[verifier::ext_equal]
pub struct CompState {
    pub fmt: RunStyle,
    pub stack: Seq<RunStyle>,
    pub depth: nat,
    pub runs: Seq<RunV>,
}

/// The state the fold starts from: base format, empty stack, no nesting.
pub open spec fn init_state(ctx: StyleContext) -> CompState {
    CompState {
        fmt: ctx.spec_base_style(),
        stack: Seq::empty(),
        depth: 0,
        runs: Seq::empty(),
    }
}

/// The indent prefix of one list item at a given nesting depth: one
/// two-space run per level beyond the first.
pub open spec fn indent_runs(fmt: RunStyle, depth: nat) -> Seq<RunV> {
    Seq::new(if depth <= 1 { 0 } else { (depth - 1) as nat }, |i: int| RunV { text: "  "@, style: fmt })
}

/// The style of an inline code span: fixed-width font at the code size,
/// inheriting slant and color from the current format.
pub open spec fn code_style(ctx: StyleContext, fmt: RunStyle) -> RunStyle {
    RunStyle { size: ctx.mono_size, italic: fmt.italic, monospace: true, color: fmt.color }
}

/// How one event transforms the compiler state.
pub open spec fn step(ctx: StyleContext, st: CompState, ev: MdEvent) -> CompState {
    match ev {
        MdEvent::HeadingStart(level) => CompState {
            fmt: RunStyle { size: ctx.spec_heading_px(level), monospace: false, ..st.fmt },
            stack: st.stack.push(st.fmt),
            ..st
        },
        MdEvent::HeadingEnd => {
            let fmt2 = if st.stack.len() > 0 { st.stack.last() } else { st.fmt };
            let stack2 = if st.stack.len() > 0 { st.stack.drop_last() } else { st.stack };
            CompState {
                fmt: fmt2,
                stack: stack2,
                runs: st.runs.push(RunV { text: "\n"@, style: fmt2 }),
                ..st
            }
        },
        MdEvent::EmphasisStart => CompState {
            fmt: RunStyle { italic: true, ..st.fmt },
            stack: st.stack.push(st.fmt),
            ..st
        },
        MdEvent::StrongStart => CompState {
            fmt: RunStyle { color: ctx.strong_color, ..st.fmt },
            stack: st.stack.push(st.fmt),
            ..st
        },
        MdEvent::EmphasisEnd | MdEvent::StrongEnd => {
            let fmt2 = if st.stack.len() > 0 { st.stack.last() } else { st.fmt };
            let stack2 = if st.stack.len() > 0 { st.stack.drop_last() } else { st.stack };
            CompState { fmt: fmt2, stack: stack2, ..st }
        },
        MdEvent::ListStart => CompState { depth: st.depth + 1, ..st },
        MdEvent::ListEnd => CompState {
            depth: if st.depth > 0 { (st.depth - 1) as nat } else { 0 },
            runs: st.runs.push(RunV { text: "\n"@, style: st.fmt }),
            ..st
        },
        MdEvent::ItemStart => CompState {
            runs: st.runs + indent_runs(st.fmt, st.depth) + seq![RunV { text: "\u{2022} "@, style: st.fmt }],
            ..st
        },
        MdEvent::ItemEnd => CompState {
            runs: st.runs.push(RunV { text: "\n"@, style: st.fmt }),
            ..st
        },
        MdEvent::Text(s) => CompState {
            runs: st.runs.push(RunV { text: s@, style: st.fmt }),
            ..st
        },
        MdEvent::Code(s) => CompState {
            runs: st.runs.push(RunV { text: s@, style: code_style(ctx, st.fmt) }),
            ..st
        },
        MdEvent::LineBreak => CompState {
            runs: st.runs.push(RunV { text: "\n"@, style: st.fmt }),
            ..st
        },
        MdEvent::Other => st,
    }
}

/// The fold of a whole event stream, from the initial state.
pub open spec fn fold_events(ctx: StyleContext, evs: Seq<MdEvent>) -> CompState
    decreases evs.len(),
{
    if evs.len() == 0 {
        init_state(ctx)
    } else {
        step(ctx, fold_events(ctx, evs.drop_last()), evs.last())
    }
}

/// What the compiler produces for an event stream: the runs of the fold.
pub open spec fn spec_compile(ctx: StyleContext, evs: Seq<MdEvent>) -> Seq<RunV> {
    fold_events(ctx, evs).runs
}

proof fn lemma_runs_of_push(v: Seq<StyledRun>, r: StyledRun)
    ensures
        runs_of(v.push(r)) =~= runs_of(v).push(r@),
{
}

/// Compile an event stream into styled runs. Pure: the result is pinned to
/// the fold of the stream, so nothing carries over between calls.
pub fn compile_events(ctx: &StyleContext, events: &Vec<MdEvent>) -> (runs: Vec<StyledRun>)
    ensures
        runs_of(runs@) == spec_compile(*ctx, events@),
{
    let mut fmt = ctx.base_style();
    let mut stack: Vec<RunStyle> = Vec::new();
    let mut depth: usize = 0;
    let mut out: Vec<StyledRun> = Vec::new();
    let n = events.len();
    let mut i: usize = 0;
    proof {
        assert(events@.take(0) =~= Seq::<MdEvent>::empty());
    }
    while i < n
        invariant
            i <= n,
            n == events.len(),
            depth <= i,
            fmt == fold_events(*ctx, events@.take(i as int)).fmt,
            stack@ == fold_events(*ctx, events@.take(i as int)).stack,
            depth as nat == fold_events(*ctx, events@.take(i as int)).depth,
            runs_of(out@) == fold_events(*ctx, events@.take(i as int)).runs,
        decreases n - i,
    {
        let ghost pre = fold_events(*ctx, events@.take(i as int));
        proof {
            assert(events@.take(i + 1).drop_last() =~= events@.take(i as int));
            assert(events@.take(i + 1).last() == events@[i as int]);
        }
        match &events[i] {
            MdEvent::HeadingStart(level) => {
                stack.push(fmt);
                fmt = RunStyle { size: ctx.heading_px(*level), monospace: false, ..fmt };
            },
            MdEvent::HeadingEnd => {
                match stack.pop() {
                    Some(f) => { fmt = f; },
                    None => {},
                }
                out.push(StyledRun { text: nl_text(), style: fmt });
                proof {
                    lemma_runs_of_push(out@.drop_last(), out@.last());
                }
            },
            MdEvent::EmphasisStart => {
                stack.push(fmt);
                fmt = RunStyle { italic: true, ..fmt };
            },
            MdEvent::StrongStart => {
                stack.push(fmt);
                fmt = RunStyle { color: ctx.strong_color, ..fmt };
            },
            MdEvent::EmphasisEnd | MdEvent::StrongEnd => {
                match stack.pop() {
                    Some(f) => { fmt = f; },
                    None => {},
                }
            },
            MdEvent::ListStart => {
                depth = depth + 1;
            },
            MdEvent::ListEnd => {
                if depth > 0 {
                    depth = depth - 1;
                }
                out.push(StyledRun { text: nl_text(), style: fmt });
                proof {
                    lemma_runs_of_push(out@.drop_last(), out@.last());
                }
            },
            MdEvent::ItemStart => {
                let ind: usize = if depth <= 1 { 0 } else { depth - 1 };
                let mut j: usize = 0;
                while j < ind
                    invariant
                        j <= ind,
                        fmt == pre.fmt,
                        indent_runs(pre.fmt, pre.depth).len() == ind,
                        runs_of(out@) =~= pre.runs + indent_runs(pre.fmt, pre.depth).take(j as int),
                    decreases ind - j,
                {
                    let ghost out0 = out@;
                    out.push(StyledRun { text: indent_text(), style: fmt });
                    proof {
                        lemma_runs_of_push(out0, out@.last());
                        assert(out@ == out0.push(out@.last()));
                        assert(runs_of(out@) =~= runs_of(out0).push(
                            RunV { text: "  "@, style: pre.fmt },
                        ));
                        assert(pre.runs + indent_runs(pre.fmt, pre.depth).take(j + 1) =~= (pre.runs
                            + indent_runs(pre.fmt, pre.depth).take(j as int)).push(
                            RunV { text: "  "@, style: pre.fmt },
                        ));
                    }
                    j = j + 1;
                }
                out.push(StyledRun { text: bullet_text(), style: fmt });
                proof {
                    lemma_runs_of_push(out@.drop_last(), out@.last());
                    assert(indent_runs(pre.fmt, pre.depth).take(ind as int) =~= indent_runs(
                        pre.fmt,
                        pre.depth,
                    ));
                    assert(runs_of(out@) =~= pre.runs + indent_runs(pre.fmt, pre.depth) + seq![
                        RunV { text: "\u{2022} "@, style: pre.fmt },
                    ]);
                }
            },
            MdEvent::ItemEnd => {
                out.push(StyledRun { text: nl_text(), style: fmt });
                proof {
                    lemma_runs_of_push(out@.drop_last(), out@.last());
                }
            },
            MdEvent::Text(s) => {
                out.push(StyledRun { text: s.clone(), style: fmt });
                proof {
                    lemma_runs_of_push(out@.drop_last(), out@.last());
                }
            },
            MdEvent::Code(s) => {
                out.push(
                    StyledRun {
                        text: s.clone(),
                        style: RunStyle {
                            size: ctx.mono_size,
                            italic: fmt.italic,
                            monospace: true,
                            color: fmt.color,
                        },
                    },
                );
                proof {
                    lemma_runs_of_push(out@.drop_last(), out@.last());
                }
            },
            MdEvent::LineBreak => {
                out.push(StyledRun { text: nl_text(), style: fmt });
                proof {
                    lemma_runs_of_push(out@.drop_last(), out@.last());
                }
            },
            MdEvent::Other => {},
        }
        i = i + 1;
    }
    proof {
        assert(events@.take(n as int) =~= events@);
    }
    out
}

fn nl_text() -> (r: String)
    ensures
        r@ == "\n"@,
{
    "\n".to_owned()
}

fn indent_text() -> (r: String)
    ensures
        r@ == "  "@,
{
    "  ".to_owned()
}

fn bullet_text() -> (r: String)
    ensures
        r@ == "\u{2022} "@,
{
    "\u{2022} ".to_owned()
}

/// Compile markdown source text into styled runs for rendering. No side
/// effects and no retained state: the result is a pure function of the text
/// and the style context.
pub fn compile(ctx: &StyleContext, text: &str) -> (runs: Vec<StyledRun>)
    ensures
        runs_of(runs@) == spec_compile(*ctx, events_of(text@)),
{
    let evs = parse_markdown(text);
    compile_events(ctx, &evs)
}

/// An event stream with no markers: only text nodes and ignored constructs.
pub open spec fn plain_events(evs: Seq<MdEvent>) -> bool {
    forall|i: int| 0 <= i < evs.len() ==> (evs[i] is Text || evs[i] is Other)
}

/// The runs a marker-free stream compiles to: each text node's content in
/// the base style, in order.
pub open spec fn text_runs(ctx: StyleContext, evs: Seq<MdEvent>) -> Seq<RunV>
    decreases evs.len(),
{
    if evs.len() == 0 {
        Seq::empty()
    } else {
        text_runs(ctx, evs.drop_last()) + (match evs.last() {
            MdEvent::Text(s) => seq![RunV { text: s@, style: ctx.spec_base_style() }],
            _ => Seq::empty(),
        })
    }
}

/// Plain text keeps the base style: a stream with no markers compiles to
/// exactly its text nodes, every one in the base style, and leaves the
/// format, stack and nesting depth untouched.
pub proof fn lemma_plain_text_base_style(ctx: StyleContext, evs: Seq<MdEvent>)
    requires
        plain_events(evs),
    ensures
        fold_events(ctx, evs).fmt == ctx.spec_base_style(),
        fold_events(ctx, evs).stack.len() == 0,
        fold_events(ctx, evs).depth == 0,
        spec_compile(ctx, evs) == text_runs(ctx, evs),
    decreases evs.len(),
{
    if evs.len() > 0 {
        assert forall|i: int| 0 <= i < evs.drop_last().len() implies (evs.drop_last()[i] is Text
            || evs.drop_last()[i] is Other) by {
            assert(evs.drop_last()[i] == evs[i]);
        }
        lemma_plain_text_base_style(ctx, evs.drop_last());
        assert(evs.last() is Text || evs.last() is Other);
        match evs.last() {
            MdEvent::Text(s) => {
                assert(spec_compile(ctx, evs) =~= text_runs(ctx, evs));
            },
            _ => {
                assert(spec_compile(ctx, evs) =~= text_runs(ctx, evs));
            },
        }
    }
}

/// A single paragraph of plain text is a single run: wrapped in one ignored
/// opening and one ignored closing construct, one text node compiles to one
/// run carrying exactly that text in the base style.
pub proof fn lemma_paragraph_single_run(ctx: StyleContext, evs: Seq<MdEvent>, s: Seq<char>)
    requires
        evs.len() == 3,
        evs[0] is Other,
        evs[2] is Other,
        evs[1] matches MdEvent::Text(t) && t@ == s,
    ensures
        spec_compile(ctx, evs) =~= seq![RunV { text: s, style: ctx.spec_base_style() }],
{
    lemma_plain_text_base_style(ctx, evs);
    let base = ctx.spec_base_style();
    let d = evs.drop_last();
    let dd = d.drop_last();
    let ddd = dd.drop_last();
    assert(ddd =~= Seq::<MdEvent>::empty());
    assert(text_runs(ctx, ddd) =~= Seq::<RunV>::empty());
    assert(dd.last() == evs[0]);
    assert(text_runs(ctx, dd) =~= Seq::<RunV>::empty());
    assert(d.last() == evs[1]);
    assert(text_runs(ctx, d) =~= seq![RunV { text: s, style: base }]);
    assert(evs.last() == evs[2]);
    assert(text_runs(ctx, evs) =~= seq![RunV { text: s, style: base }]);
}

/// An event that only an emphasis or strong span yields.
pub open spec fn span_event(ev: MdEvent) -> bool {
    ||| ev is EmphasisStart
    ||| ev is EmphasisEnd
    ||| ev is StrongStart
    ||| ev is StrongEnd
    ||| ev is Text
    ||| ev is Code
    ||| ev is Other
}

pub open spec fn is_open(ev: MdEvent) -> bool {
    ev is EmphasisStart || ev is StrongStart
}

pub open spec fn is_close(ev: MdEvent) -> bool {
    ev is EmphasisEnd || ev is StrongEnd
}

/// How many spans a stream opens.
pub open spec fn opens(evs: Seq<MdEvent>) -> int
    decreases evs.len(),
{
    if evs.len() == 0 {
        0
    } else {
        opens(evs.drop_last()) + if is_open(evs.last()) {
            1int
        } else {
            0int
        }
    }
}

/// How many spans a stream closes.
pub open spec fn closes(evs: Seq<MdEvent>) -> int
    decreases evs.len(),
{
    if evs.len() == 0 {
        0
    } else {
        closes(evs.drop_last()) + if is_close(evs.last()) {
            1int
        } else {
            0int
        }
    }
}

/// A balanced sequence of spans: no prefix closes more spans than it has
/// opened, and overall every opened span is closed again.
pub open spec fn balanced_spans(evs: Seq<MdEvent>) -> bool {
    &&& forall|j: int| 0 <= j <= evs.len() ==> closes(#[trigger] evs.take(j)) <= opens(evs.take(j))
    &&& closes(evs) == opens(evs)
}

proof fn lemma_span_stack(ctx: StyleContext, evs: Seq<MdEvent>, i: int)
    requires
        0 <= i <= evs.len(),
        forall|k: int| 0 <= k < evs.len() ==> span_event(#[trigger] evs[k]),
        forall|j: int| 0 <= j <= i ==> closes(#[trigger] evs.take(j)) <= opens(evs.take(j)),
    ensures
        fold_events(ctx, evs.take(i)).stack.len() == opens(evs.take(i)) - closes(evs.take(i)),
        fold_events(ctx, evs.take(i)).stack.len() == 0 ==> fold_events(ctx, evs.take(i)).fmt
            == ctx.spec_base_style(),
        fold_events(ctx, evs.take(i)).stack.len() > 0 ==> fold_events(ctx, evs.take(i)).stack[0]
            == ctx.spec_base_style(),
    decreases i,
{
    if i == 0 {
        assert(evs.take(0) =~= Seq::<MdEvent>::empty());
    } else {
        lemma_span_stack(ctx, evs, i - 1);
        assert(evs.take(i).drop_last() =~= evs.take(i - 1));
        assert(evs.take(i).last() == evs[i - 1]);
        assert(span_event(evs[i - 1]));
        let prev = fold_events(ctx, evs.take(i - 1));
        if is_close(evs[i - 1]) {
            assert(closes(evs.take(i)) <= opens(evs.take(i)));
            assert(prev.stack.len() > 0);
        }
    }
}

/// Balanced spans restore the base style: after any balanced sequence of
/// emphasis and strong spans (with any text inside), the style stack depth
/// is back to zero and the final format equals the initial base style.
pub proof fn lemma_balanced_spans_restore(ctx: StyleContext, evs: Seq<MdEvent>)
    requires
        forall|k: int| 0 <= k < evs.len() ==> span_event(#[trigger] evs[k]),
        balanced_spans(evs),
    ensures
        fold_events(ctx, evs).stack.len() == 0,
        fold_events(ctx, evs).fmt == ctx.spec_base_style(),
{
    lemma_span_stack(ctx, evs, evs.len() as int);
    assert(evs.take(evs.len() as int) =~= evs);
}

/// Malformed input cannot corrupt the style: a close event that has no
/// matching open (the stack is empty) leaves the format, the stack, the
/// nesting depth and the emitted runs exactly as they were.
pub proof fn lemma_unmatched_close_keeps_format(ctx: StyleContext, st: CompState, ev: MdEvent)
    requires
        st.stack.len() == 0,
        ev is EmphasisEnd || ev is StrongEnd,
    ensures
        step(ctx, st, ev) == st,
{
    assert(step(ctx, st, ev) =~= st);
}

/// Compilation is deterministic: two compilations of the same event stream
/// under the same style context yield identical run sequences — the compiler
/// keeps no hidden mutable state.
pub proof fn lemma_compile_deterministic(
    ctx: StyleContext,
    evs: Seq<MdEvent>,
    r1: Seq<RunV>,
    r2: Seq<RunV>,
)
    requires
        r1 == spec_compile(ctx, evs),
        r2 == spec_compile(ctx, evs),
    ensures
        r1 == r2,
{
}

} // verus!
