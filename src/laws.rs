use vstd::prelude::*;

use crate::cause::CauseView;
use crate::source::SourceView;

verus! {

/// A cause with neither message nor source renders as its kind's text alone.
pub proof fn lemma_render_bare<T>(d: T, kind_text: Seq<char>)
    ensures
        CauseView::fresh(d).rendered(kind_text) == kind_text,
{
}

/// A cause with a message and no source renders as `<kind>: <message>`.
pub proof fn lemma_render_message<T>(d: T, m: Seq<char>, kind_text: Seq<char>)
    ensures
        CauseView::fresh(d).with_message(m).rendered(kind_text) == kind_text + ": "@ + m,
{
}

/// A cause with a source and no message renders as its kind's text followed
/// by a blank line, `Caused by:`, and the source's text indented by four
/// spaces on a line of its own.
pub proof fn lemma_render_source<T>(d: T, s: SourceView, kind_text: Seq<char>)
    ensures
        CauseView::fresh(d).with_source(s).rendered(kind_text) == kind_text
            + "\n\nCaused by:\n    "@ + s.text + "\n"@,
{
}

/// A cause with both a message and a source renders as `<kind>: <message>`
/// followed by the "Caused by:" block of the source, whichever of the two was
/// set first.
pub proof fn lemma_render_message_and_source<T>(
    d: T,
    m: Seq<char>,
    s: SourceView,
    kind_text: Seq<char>,
)
    ensures
        CauseView::fresh(d).with_message(m).with_source(s).rendered(kind_text) == kind_text
            + ": "@ + m + "\n\nCaused by:\n    "@ + s.text + "\n"@,
        CauseView::fresh(d).with_source(s).with_message(m) == CauseView::fresh(d).with_message(
            m,
        ).with_source(s),
{
}

/// Setting a message or a source never changes the kind: a cause made from
/// `d` always yields `d` back.
pub proof fn lemma_kind_kept<T>(d: T, c: CauseView<T>, m: Seq<char>, s: SourceView)
    ensures
        CauseView::fresh(d).kind == d,
        c.with_message(m).kind == c.kind,
        c.with_source(s).kind == c.kind,
{
}

/// A cause has a source exactly when one was set: a new cause has none,
/// setting a message leaves it as it was, and setting a source makes it that
/// source.
pub proof fn lemma_source_present<T>(d: T, c: CauseView<T>, m: Seq<char>, s: SourceView)
    ensures
        CauseView::fresh(d).source is None,
        c.with_message(m).source == c.source,
        c.with_source(s).source == Some(s),
{
}

/// A cause whose source is another cause renders with the inner cause's full
/// text, its own "Caused by:" block included, under the outer "Caused by:"
/// line.
pub proof fn lemma_render_nested<T, U>(
    d: T,
    inner: CauseView<U>,
    outer_text: Seq<char>,
    inner_text: Seq<char>,
)
    ensures
        CauseView::fresh(d).with_source(inner.as_source(inner_text)).rendered(outer_text)
            == outer_text + "\n\nCaused by:\n    "@ + inner.rendered(inner_text) + "\n"@,
{
}

/// Three causes chained one under another render as the outer kind, then the
/// middle kind under "Caused by:", then the inner kind under a second
/// "Caused by:".
pub proof fn lemma_render_nested_twice<T, U, V>(
    d: T,
    e: U,
    f: V,
    d_text: Seq<char>,
    e_text: Seq<char>,
    f_text: Seq<char>,
)
    ensures
        CauseView::fresh(d).with_source(
            CauseView::fresh(e).with_source(CauseView::fresh(f).as_source(f_text)).as_source(
                e_text,
            ),
        ).rendered(d_text) == d_text + "\n\nCaused by:\n    "@ + (e_text
            + "\n\nCaused by:\n    "@ + f_text + "\n"@) + "\n"@,
{
}

} // verus!
