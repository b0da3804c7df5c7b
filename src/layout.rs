//! A layout builder that records the attributes applied to it.

use crate::attribute::TextAttribute;
use crate::range::SpanRange;
use vstd::prelude::*;

verus! {

/// Receives attribute applications, builder style: each application takes
/// the builder and hands back the updated one.
#[derive(Clone, Debug)]
pub struct LayoutBuilder {
    applied: Vec<(SpanRange, TextAttribute)>,
}

impl View for LayoutBuilder {
    type V = Seq<(SpanRange, TextAttribute)>;

    closed spec fn view(&self) -> Seq<(SpanRange, TextAttribute)> {
        self.applied@
    }
}

impl LayoutBuilder {
    pub fn new() -> (r: LayoutBuilder)
        ensures
            r@ == Seq::<(SpanRange, TextAttribute)>::empty(),
    {
        LayoutBuilder { applied: Vec::new() }
    }

    /// Applies `attr` over `range`, after every earlier application.
    pub fn range_attribute(self, range: SpanRange, attr: TextAttribute) -> (r: LayoutBuilder)
        ensures
            r@ == self@.push((range, attr)),
    {
        let mut applied = self.applied;
        applied.push((range, attr));
        LayoutBuilder { applied }
    }

    /// The applications received, in order.
    pub fn applied(&self) -> (r: &[(SpanRange, TextAttribute)])
        ensures
            r@ == self@,
    {
        self.applied.as_slice()
    }
}

} // verus!
