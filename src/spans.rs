//! The ordered collection of `(range, attribute)` pairs of a styled text.

use crate::attribute::{resolve_attribute, Attribute, Env, TextAttribute};
use crate::range::SpanRange;
use vstd::prelude::*;

verus! {

/// One attribute over one resolved byte range.
#[derive(Clone, Copy, Debug, PartialEq, Eq, Structural)]
pub struct Span {
    pub range: SpanRange,
    pub attr: Attribute,
}

/// Attributes in insertion order. Ranges may overlap; nothing is merged.
#[derive(Clone, Debug)]
pub struct AttributeSpans {
    spans: Vec<Span>,
}

/// Every range of `spans` is a slice of a buffer of `len` bytes.
pub open spec fn spans_valid_for(spans: Seq<Span>, len: nat) -> bool {
    forall|i: int| 0 <= i < spans.len() ==> (#[trigger] spans[i]).range.valid_for(len)
}

/// What a collection contributes to a layout: each range with its attribute
/// resolved in `env`, in insertion order.
pub open spec fn resolved_spans(spans: Seq<Span>, env: Seq<(u64, u32)>) -> Seq<(SpanRange, TextAttribute)> {
    spans.map_values(|s: Span| (s.range, resolve_attribute(s.attr, env)))
}

impl View for AttributeSpans {
    type V = Seq<Span>;

    closed spec fn view(&self) -> Seq<Span> {
        self.spans@
    }
}

impl AttributeSpans {
    pub fn new() -> (r: AttributeSpans)
        ensures
            r@ == Seq::<Span>::empty(),
    {
        AttributeSpans { spans: Vec::new() }
    }

    /// Appends `attr` over `range`, after every attribute already held.
    pub fn add(&mut self, range: SpanRange, attr: Attribute)
        ensures
            final(self)@ == old(self)@.push(Span { range, attr }),
    {
        self.spans.push(Span { range, attr });
    }

    pub fn len(&self) -> (r: usize)
        ensures
            r == self@.len(),
    {
        self.spans.len()
    }

    pub fn is_empty(&self) -> (r: bool)
        ensures
            r == (self@.len() == 0),
    {
        self.spans.len() == 0
    }

    /// The spans, in insertion order.
    pub fn as_slice(&self) -> (r: &[Span])
        ensures
            r@ == self@,
    {
        self.spans.as_slice()
    }

    /// A separate collection with the same spans.
    pub fn duplicate(&self) -> (r: AttributeSpans)
        ensures
            r@ == self@,
    {
        let mut spans: Vec<Span> = Vec::new();
        let mut i: usize = 0;
        while i < self.spans.len()
            invariant
                i <= self@.len(),
                spans@ == self@.subrange(0, i as int),
            decreases self@.len() - i,
        {
            spans.push(self.spans[i]);
            i = i + 1;
            proof {
                assert(spans@ =~= self@.subrange(0, i as int));
            }
        }
        proof {
            assert(self@.subrange(0, i as int) =~= self@);
        }
        AttributeSpans { spans }
    }

    /// Each range with its attribute resolved in `env`, in insertion order.
    pub fn to_layout_attrs(&self, env: &Env) -> (r: Vec<(SpanRange, TextAttribute)>)
        ensures
            r@ == resolved_spans(self@, env@),
    {
        let mut out: Vec<(SpanRange, TextAttribute)> = Vec::new();
        let mut i: usize = 0;
        while i < self.spans.len()
            invariant
                i <= self@.len(),
                out@ == resolved_spans(self@.subrange(0, i as int), env@),
            decreases self@.len() - i,
        {
            let span = self.spans[i];
            out.push((span.range, span.attr.resolve(env)));
            i = i + 1;
            proof {
                assert(out@ =~= resolved_spans(self@.subrange(0, i as int), env@));
            }
        }
        proof {
            assert(self@.subrange(0, i as int) =~= self@);
        }
        out
    }
}

} // verus!
