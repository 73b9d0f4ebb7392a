use vstd::prelude::*;

use crate::location::{location_tag, location_text};
use crate::source::{Source, SourceView};

verus! {

/// The text of an error: its kind's text, then `": "` and the message if
/// there is one, then a "Caused by:" block around the source's text if there
/// is a source.
pub open spec fn rendering(
    kind: Seq<char>,
    message: Option<Seq<char>>,
    source: Option<Seq<char>>,
) -> Seq<char> {
    let head = match message {
        Some(m) => kind + ": "@ + m,
        None => kind,
    };
    match source {
        Some(s) => head + "\n\nCaused by:\n    "@ + s + "\n"@,
        None => head,
    }
}

/// What a `Cause` holds, as mathematical values.
pub struct CauseView<T> {
    pub kind: T,
    pub message: Option<Seq<char>>,
    pub source: Option<SourceView>,
}

impl<T> CauseView<T> {
    /// A cause of kind `kind` with neither message nor source.
    pub open spec fn fresh(kind: T) -> CauseView<T> {
        CauseView { kind, message: None, source: None }
    }

    /// This cause with its message replaced by `m`.
    pub open spec fn with_message(self, m: Seq<char>) -> CauseView<T> {
        CauseView { message: Some(m), ..self }
    }

    /// This cause with its source replaced by `s`.
    pub open spec fn with_source(self, s: SourceView) -> CauseView<T> {
        CauseView { source: Some(s), ..self }
    }

    /// The text of this cause, given the text of its kind.
    pub open spec fn rendered(self, kind_text: Seq<char>) -> Seq<char> {
        rendering(
            kind_text,
            self.message,
            match self.source {
                Some(s) => Some(s.text),
                None => None,
            },
        )
    }

    /// This cause seen as the source of another error, given the text of its kind.
    pub open spec fn as_source(self, kind_text: Seq<char>) -> SourceView {
        SourceView {
            text: self.rendered(kind_text),
            source: match self.source {
                Some(s) => Some(Box::new(s)),
                None => None,
            },
        }
    }
}

/// Relies on `format!("{:?}", ..)`, that is on `T`'s `Debug` impl, for the
/// text of an error kind; nothing is assumed of that text.
#[verifier::external_body]
fn debug_text<T: std::fmt::Debug>(kind: &T) -> (r: String) {
    format!("{:?}", kind)
}

/// An error of kind `T`, with an optional message and an optional
/// lower-level source.
pub struct Cause<T> {
    cause: T,
    msg: Option<String>,
    src: Option<Box<Source>>,
}

impl<T> View for Cause<T> {
    type V = CauseView<T>;

    closed spec fn view(&self) -> CauseView<T> {
        CauseView {
            kind: self.cause,
            message: match self.msg {
                Some(m) => Some(m@),
                None => None,
            },
            source: match self.src {
                Some(s) => Some(s@),
                None => None,
            },
        }
    }
}

impl<T> Cause<T> {
    /// A cause of kind `cause`, with neither message nor source.
    pub fn new(cause: T) -> (r: Self)
        ensures
            r@ == CauseView::fresh(cause),
    {
        Cause { cause, msg: None, src: None }
    }

    /// A cause of kind `cause` made at line `line` of `file`. In a debug
    /// build (`debug`) its message is `[<file>:<line>]`; otherwise it has no
    /// message. The caller gives the place, typically as `file!()` and
    /// `line!()` at the call site.
    pub fn located(cause: T, file: &str, line: u32, debug: bool) -> (r: Self)
        ensures
            r@ == if debug {
                CauseView::fresh(cause).with_message(location_tag(file@, line as nat))
            } else {
                CauseView::fresh(cause)
            },
    {
        if debug {
            let tag = location_text(file, line);
            Cause::new(cause).msg(tag.as_str())
        } else {
            Cause::new(cause)
        }
    }

    /// A cause of kind `cause` with message `msg`, made at line `line` of
    /// `file`. In a debug build (`debug`) the message is followed by a space
    /// and `[<file>:<line>]`; otherwise it is `msg` as given.
    pub fn located_msg(cause: T, msg: &str, file: &str, line: u32, debug: bool) -> (r: Self)
        ensures
            r@ == CauseView::fresh(cause).with_message(
                if debug {
                    msg@ + " "@ + location_tag(file@, line as nat)
                } else {
                    msg@
                },
            ),
    {
        if debug {
            let mut text = String::from_str(msg);
            text.append(" ");
            let tag = location_text(file, line);
            text.append(tag.as_str());
            Cause::new(cause).msg(text.as_str())
        } else {
            Cause::new(cause).msg(msg)
        }
    }

    /// This cause with its message set to `msg`; any earlier message is dropped.
    pub fn msg(self, msg: &str) -> (r: Self)
        ensures
            r@ == self@.with_message(msg@),
    {
        Cause { msg: Some(String::from_str(msg)), ..self }
    }

    /// This cause with its source set to `src`; any earlier source is dropped.
    pub fn src(self, src: Source) -> (r: Self)
        ensures
            r@ == self@.with_source(src@),
    {
        Cause { src: Some(Box::new(src)), ..self }
    }

    /// The kind of this cause.
    pub fn cause(&self) -> (r: &T)
        ensures
            *r == self@.kind,
    {
        &self.cause
    }

    /// The message of this cause, if one was set.
    pub fn message(&self) -> (r: Option<&String>)
        ensures
            r is None <==> self@.message is None,
            r is Some ==> self@.message == Some(r->0@),
    {
        match &self.msg {
            Some(m) => Some(m),
            None => None,
        }
    }

    /// The source of this cause, if one was set.
    pub fn source(&self) -> (r: Option<&Source>)
        ensures
            r is None <==> self@.source is None,
            r is Some ==> self@.source == Some(r->0@),
    {
        match &self.src {
            Some(s) => Some(&**s),
            None => None,
        }
    }

    /// The text of this cause, with `kind` standing for the text of its kind.
    pub fn render_with(&self, kind: &str) -> (r: String)
        ensures
            r@ == self@.rendered(kind@),
    {
        let mut text = String::from_str(kind);
        match &self.msg {
            Some(m) => {
                text.append(": ");
                text.append(m.as_str());
            },
            None => {},
        }
        match &self.src {
            Some(s) => {
                text.append("\n\nCaused by:\n    ");
                text.append(s.text().as_str());
                text.append("\n");
            },
            None => {},
        }
        text
    }

    /// This cause turned into the source of another error, with `kind`
    /// standing for the text of its kind.
    pub fn into_source_with(self, kind: &str) -> (r: Source)
        ensures
            r@ == self@.as_source(kind@),
    {
        let text = self.render_with(kind);
        Source::from_parts(text, self.src)
    }
}

impl<T: std::fmt::Debug> Cause<T> {
    /// The text of this cause, its kind written in its `Debug` form.
    pub fn to_string(&self) -> (r: String)
        ensures
            exists|kind_text: Seq<char>| r@ == self@.rendered(kind_text),
    {
        let kind = debug_text(&self.cause);
        self.render_with(kind.as_str())
    }

    /// This cause turned into the source of another error, its kind written
    /// in its `Debug` form.
    pub fn into_source(self) -> (r: Source)
        ensures
            exists|kind_text: Seq<char>| r@ == self@.as_source(kind_text),
    {
        let kind = debug_text(&self.cause);
        self.into_source_with(kind.as_str())
    }
}

impl<T> core::ops::Deref for Cause<T> {
    type Target = T;

    fn deref(&self) -> (r: &T)
        ensures
            *r == self@.kind,
    {
        &self.cause
    }
}

} // verus!
