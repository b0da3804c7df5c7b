//! Styled text storage: an immutable shared string paired with an ordered,
//! copy-on-write collection of style attributes over byte ranges of it.

pub mod attribute;
pub mod layout;
pub mod range;
pub mod spans;
pub mod storage;

pub use attribute::{
    Attribute, Env, FontStyle, KeyOrValue, TextAttribute, WEIGHT_BOLD, WEIGHT_NORMAL,
};
pub use layout::LayoutBuilder;
pub use range::{resolve_range, RangeBound, SpanRange, TextRange};
pub use spans::{AttributeSpans, Span};
pub use storage::{ArcStr, RichText, TextStorage};
