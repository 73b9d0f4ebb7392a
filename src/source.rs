use vstd::prelude::*;

verus! {

/// What a `Source` holds, as mathematical values: its rendered text and,
/// recursively, its own source.
pub struct SourceView {
    pub text: Seq<char>,
    pub source: Option<Box<SourceView>>,
}

/// A lower-level error attached to a `Cause`: the text it renders as, and
/// the error that caused it in turn, if any.
pub struct Source {
    text: String,
    source: Option<Box<Source>>,
}

impl View for Source {
    type V = SourceView;

    closed spec fn view(&self) -> SourceView {
        self.model()
    }
}

impl Source {
    /// The view of this error and of its whole chain of sources.
    pub closed spec fn model(&self) -> SourceView
        decreases self,
    {
        SourceView {
            text: self.text@,
            source: match &self.source {
                Some(inner) => Some(Box::new(inner.model())),
                None => None,
            },
        }
    }

    /// An error that renders as `text` and has no source of its own.
    pub fn new(text: String) -> (r: Source)
        ensures
            r@ == (SourceView { text: text@, source: None }),
    {
        Source { text, source: None }
    }

    /// This error with `source` as the error that caused it; any earlier
    /// source is dropped.
    pub fn with_source(self, source: Source) -> (r: Source)
        ensures
            r@ == (SourceView { text: self@.text, source: Some(Box::new(source@)) }),
    {
        Source { text: self.text, source: Some(Box::new(source)) }
    }

    /// An error that renders as `text`, caused by `source` if that is present.
    pub(crate) fn from_parts(text: String, source: Option<Box<Source>>) -> (r: Source)
        ensures
            r@.text == text@,
            r@.source == match source {
                Some(inner) => Some(Box::new(inner@)),
                None => None::<Box<SourceView>>,
            },
    {
        Source { text, source }
    }

    /// The text this error renders as.
    pub fn text(&self) -> (r: &String)
        ensures
            r@ == self@.text,
    {
        &self.text
    }

    /// The error that caused this one, if any.
    pub fn source(&self) -> (r: Option<&Source>)
        ensures
            r is None <==> self@.source is None,
            r is Some ==> self@.source == Some(Box::new(r->0@)),
    {
        match &self.source {
            Some(inner) => Some(&**inner),
            None => None,
        }
    }
}

} // verus!
