//! A small generic error type: a `Cause<T>` carries an error kind of type `T`,
//! an optional message and an optional lower-level source, and renders all of
//! it as text in a fixed format.

mod cause;
mod laws;
mod location;
mod source;

pub use cause::{rendering, Cause, CauseView};
pub use laws::{
    lemma_kind_kept, lemma_render_bare, lemma_render_message, lemma_render_message_and_source,
    lemma_render_nested, lemma_render_nested_twice, lemma_render_source, lemma_source_present,
};
pub use location::{decimal, decimal_text, digit_char, location_tag, location_text};
pub use source::{Source, SourceView};
