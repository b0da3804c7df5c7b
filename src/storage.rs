//! Displayable text: the capability a layout pipeline consumes, and the
//! styled-text value that provides it with attributes.

use std::sync::Arc;

use crate::attribute::{resolve_attribute, Attribute, Env, TextAttribute};
use crate::layout::LayoutBuilder;
use crate::range::{resolve_range, resolved_end, resolved_start, SpanRange, TextRange};
use crate::spans::{resolved_spans, spans_valid_for, AttributeSpans, Span};
use vstd::prelude::*;

verus! {

/// A reference-counted, immutable string slice: cheap to clone, never mutated.
pub type ArcStr = Arc<str>;

/// Relies on `From<&str> for Arc<str>`: a new shared allocation holding a
/// copy of the characters of `s`.
#[verifier::external_body]
fn share_str(s: &str) -> (r: ArcStr)
    ensures
        (*r)@ == s@,
{
    Arc::from(s)
}

/// Relies on `Arc::try_unwrap`: the value itself when this handle is its only
/// owner, otherwise the handle back unchanged.
#[verifier::external_body]
fn take_if_unique(a: Arc<AttributeSpans>) -> (r: Result<AttributeSpans, Arc<AttributeSpans>>)
    ensures
        match r {
            Ok(s) => s == *a,
            Err(e) => e == a,
        },
{
    Arc::try_unwrap(a)
}

/// Text that can be displayed.
pub trait TextStorage {
    /// The characters of the text.
    spec fn text(&self) -> Seq<char>;

    /// The attributes contributed to a layout, given an environment.
    spec fn contributed(&self, env: Seq<(u64, u32)>) -> Seq<(SpanRange, TextAttribute)>;

    fn as_str(&self) -> (r: &str)
        ensures
            r@ == self.text(),
    ;

    /// A shared handle on the text. By default a new shared copy.
    fn as_arc_str(&self) -> (r: ArcStr)
        ensures
            (*r)@ == self.text(),
    {
        share_str(self.as_str())
    }

    /// Applies this text's attributes onto `builder`, after what it holds.
    fn add_attributes(&self, builder: LayoutBuilder, env: &Env) -> (r: LayoutBuilder)
        ensures
            r@ == builder@ + self.contributed(env@),
    ;
}

/// A plain shared string is its own text and contributes no attributes.
impl TextStorage for ArcStr {
    open spec fn text(&self) -> Seq<char> {
        (**self)@
    }

    open spec fn contributed(&self, env: Seq<(u64, u32)>) -> Seq<(SpanRange, TextAttribute)> {
        Seq::empty()
    }

    fn as_str(&self) -> (r: &str) {
        &**self
    }

    /// The same allocation, with one more owner.
    fn as_arc_str(&self) -> (r: ArcStr) {
        self.clone()
    }

    fn add_attributes(&self, builder: LayoutBuilder, env: &Env) -> (r: LayoutBuilder) {
        proof {
            assert(builder@ + self.contributed(env@) =~= builder@);
        }
        builder
    }
}

/// The span that `add` records for `attr` over `range` on a buffer of `len` bytes.
pub open spec fn resolved_span(range: TextRange, len: usize, attr: Attribute) -> Span {
    Span {
        range: SpanRange {
            start: resolved_start(range, len as nat) as usize,
            end: resolved_end(range, len as nat) as usize,
        },
        attr,
    }
}

/// An owned string is its own text and contributes no attributes. It holds
/// no shared handle, so `as_arc_str` makes a new shared copy.
impl TextStorage for String {
    open spec fn text(&self) -> Seq<char> {
        self@
    }

    open spec fn contributed(&self, env: Seq<(u64, u32)>) -> Seq<(SpanRange, TextAttribute)> {
        Seq::empty()
    }

    fn as_str(&self) -> (r: &str) {
        String::as_str(self)
    }

    fn add_attributes(&self, builder: LayoutBuilder, env: &Env) -> (r: LayoutBuilder) {
        proof {
            assert(builder@ + self.contributed(env@) =~= builder@);
        }
        builder
    }
}

/// Text with style attributes over byte ranges of it. The attribute
/// collection is shared between clones until one of them adds to it.
#[derive(Debug)]
pub struct RichText {
    buffer: ArcStr,
    attrs: Arc<AttributeSpans>,
}

impl RichText {
    /// The length of the buffer in UTF-8 code units.
    pub closed spec fn byte_len(&self) -> usize {
        (*self.buffer).len()
    }

    /// The attributes, in insertion order.
    pub closed spec fn spans(&self) -> Seq<Span> {
        self.attrs@
    }

    /// Every attribute range lies within the buffer.
    #[verifier::type_invariant]
    spec fn ranges_in_buffer(&self) -> bool {
        spans_valid_for(self.attrs@, (*self.buffer).len() as nat)
    }

    /// Every attribute range lies within the buffer: what `add` keeps true.
    pub open spec fn wf(&self) -> bool {
        spans_valid_for(self.spans(), self.byte_len() as nat)
    }

    /// `self` holds `buffer` and no attributes, as `new` makes it.
    pub closed spec fn created_from(&self, buffer: ArcStr) -> bool {
        self.buffer == buffer && self.attrs@.len() == 0
    }

    /// `after` is `before` with `attr` recorded over `range`, as `add` leaves
    /// it: the same buffer, and one more span at the end.
    pub closed spec fn adds(before: RichText, after: RichText, range: TextRange, attr: Attribute) -> bool {
        after.buffer == before.buffer
            && after.attrs@ == before.attrs@.push(resolved_span(range, before.byte_len(), attr))
    }

    pub fn new(buffer: ArcStr) -> (r: RichText)
        ensures
            r.created_from(buffer),
            r.text() == (*buffer)@,
            r.byte_len() == (*buffer).len(),
            r.spans() == Seq::<Span>::empty(),
            r.wf(),
    {
        RichText { buffer, attrs: Arc::new(AttributeSpans::new()) }
    }

    /// The length of the buffer, in UTF-8 code units.
    pub fn len(&self) -> (r: usize)
        ensures
            r == self.byte_len(),
    {
        let s: &str = &*self.buffer;
        s.len()
    }

    pub fn is_empty(&self) -> (r: bool)
        ensures
            r == (self.byte_len() == 0),
    {
        self.len() == 0
    }

    /// Records `attr` over `range`, resolved against the buffer length, after
    /// every attribute already held. The collection is copied first if
    /// another value shares it, so that only this value sees the change.
    pub fn add(&mut self, range: TextRange, attr: Attribute)
        ensures
            RichText::adds(*old(self), *final(self), range, attr),
            final(self).wf(),
            final(self).text() == old(self).text(),
            final(self).byte_len() == old(self).byte_len(),
            final(self).spans() == old(self).spans().push(resolved_span(range, old(self).byte_len(), attr)),
    {
        proof {
            use_type_invariant(&*self);
        }
        let range = resolve_range(range, self.len());
        let mut held = Arc::new(AttributeSpans::new());
        std::mem::swap(&mut held, &mut self.attrs);
        let mut spans = match take_if_unique(held) {
            Ok(spans) => spans,
            Err(shared) => shared.duplicate(),
        };
        spans.add(range, attr);
        self.attrs = Arc::new(spans);
    }

    /// The attributes, in insertion order.
    pub fn attributes(&self) -> (r: &[Span])
        ensures
            r@ == self.spans(),
            self.wf(),
    {
        proof {
            use_type_invariant(self);
        }
        self.attrs.as_slice()
    }
}

impl Clone for RichText {
    /// Shares both the buffer and the attribute collection.
    fn clone(&self) -> (r: RichText)
        ensures
            r == *self,
    {
        proof {
            use_type_invariant(self);
        }
        RichText { buffer: self.buffer.clone(), attrs: self.attrs.clone() }
    }
}

impl TextStorage for RichText {
    closed spec fn text(&self) -> Seq<char> {
        (*self.buffer)@
    }

    open spec fn contributed(&self, env: Seq<(u64, u32)>) -> Seq<(SpanRange, TextAttribute)> {
        resolved_spans(self.spans(), env)
    }

    fn as_str(&self) -> (r: &str) {
        &*self.buffer
    }

    /// The buffer's own allocation, with one more owner.
    fn as_arc_str(&self) -> (r: ArcStr) {
        self.buffer.clone()
    }

    /// Applies each attribute, resolved in `env`, in insertion order.
    fn add_attributes(&self, builder: LayoutBuilder, env: &Env) -> (r: LayoutBuilder) {
        let attrs = self.attrs.to_layout_attrs(env);
        let mut builder = builder;
        let ghost start = builder@;
        let mut i: usize = 0;
        while i < attrs.len()
            invariant
                i <= attrs@.len(),
                attrs@ == self.contributed(env@),
                builder@ == start + attrs@.subrange(0, i as int),
            decreases attrs@.len() - i,
        {
            let (range, attr) = attrs[i];
            builder = builder.range_attribute(range, attr);
            i = i + 1;
            proof {
                assert(builder@ =~= start + attrs@.subrange(0, i as int));
            }
        }
        proof {
            assert(attrs@.subrange(0, i as int) =~= attrs@);
        }
        builder
    }
}

/// A value made from `buffer` presents `buffer`'s text as its plain text,
/// has `buffer`'s byte length, and holds no attributes.
pub proof fn lemma_new_presents_buffer(buffer: ArcStr, rt: RichText)
    requires
        rt.created_from(buffer),
    ensures
        rt.text() == (*buffer)@,
        rt.byte_len() == (*buffer).len(),
        rt.spans().len() == 0,
        rt.wf(),
{
}

/// Adding an attribute leaves the text and the length as they were.
pub proof fn lemma_add_keeps_text_and_len(
    before: RichText,
    after: RichText,
    range: TextRange,
    attr: Attribute,
)
    requires
        RichText::adds(before, after, range, attr),
    ensures
        after.text() == before.text(),
        after.byte_len() == before.byte_len(),
{
}

/// Adding to a clone leaves the source's attributes as they were: the
/// source holds exactly the clone's attributes from before the addition.
pub proof fn lemma_add_to_clone_isolated(
    source: RichText,
    copy: RichText,
    updated: RichText,
    range: TextRange,
    attr: Attribute,
)
    requires
        copy == source,
        RichText::adds(copy, updated, range, attr),
    ensures
        source.spans() == copy.spans(),
        updated.spans().drop_last() == source.spans(),
        updated.spans().len() == source.spans().len() + 1,
{
    assert(updated.spans().drop_last() =~= source.spans());
}

/// Adding `a` then `b` presents `a` before `b` to the builder, after whatever
/// was contributed before.
pub proof fn lemma_contribution_order(
    r0: RichText,
    r1: RichText,
    r2: RichText,
    range_a: TextRange,
    a: Attribute,
    range_b: TextRange,
    b: Attribute,
    env: Seq<(u64, u32)>,
)
    requires
        RichText::adds(r0, r1, range_a, a),
        RichText::adds(r1, r2, range_b, b),
    ensures
        r2.contributed(env) == r0.contributed(env) + seq![
            (resolved_span(range_a, r0.byte_len(), a).range, resolve_attribute(a, env)),
            (resolved_span(range_b, r0.byte_len(), b).range, resolve_attribute(b, env)),
        ],
{
    assert(r2.contributed(env) =~= r0.contributed(env) + seq![
        (resolved_span(range_a, r0.byte_len(), a).range, resolve_attribute(a, env)),
        (resolved_span(range_b, r0.byte_len(), b).range, resolve_attribute(b, env)),
    ]);
}

} // verus!
