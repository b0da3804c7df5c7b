//! Style attributes, the environment that resolves their named values, and
//! the concrete attributes a layout builder receives.

use vstd::prelude::*;

verus! {

/// The weight conventionally used for bold text.
pub const WEIGHT_BOLD: u16 = 700;

/// The weight conventionally used for regular text.
pub const WEIGHT_NORMAL: u16 = 400;

#[derive(Clone, Copy, Debug, PartialEq, Eq, Structural)]
pub enum FontStyle {
    Regular,
    Italic,
}

/// A value given directly, or named by an environment key. A key that the
/// environment does not hold resolves to `fallback`.
#[derive(Clone, Copy, Debug, PartialEq, Eq, Structural)]
pub enum KeyOrValue {
    Concrete(u32),
    Key { key: u64, fallback: u32 },
}

/// A style directive of the text model.
#[derive(Clone, Copy, Debug, PartialEq, Eq, Structural)]
pub enum Attribute {
    /// Font size in points.
    FontSize(KeyOrValue),
    Weight(u16),
    Style(FontStyle),
    Underline(bool),
    /// Colour as packed RGBA.
    TextColor(KeyOrValue),
}

/// A style directive as a layout builder receives it: every value concrete.
#[derive(Clone, Copy, Debug, PartialEq, Eq, Structural)]
pub enum TextAttribute {
    FontSize(u32),
    Weight(u16),
    Style(FontStyle),
    Underline(bool),
    TextColor(u32),
}

/// A read-only key-to-value resolver for named style values.
/// A later setting of a key shadows an earlier one.
#[derive(Clone, Debug)]
pub struct Env {
    entries: Vec<(u64, u32)>,
}

/// The value bound to `key` by the latest entry that names it.
pub open spec fn lookup(entries: Seq<(u64, u32)>, key: u64) -> Option<u32>
    decreases entries.len(),
{
    if entries.len() == 0 {
        None
    } else if entries.last().0 == key {
        Some(entries.last().1)
    } else {
        lookup(entries.drop_last(), key)
    }
}

pub open spec fn resolve_value(v: KeyOrValue, env: Seq<(u64, u32)>) -> u32 {
    match v {
        KeyOrValue::Concrete(x) => x,
        KeyOrValue::Key { key, fallback } => match lookup(env, key) {
            Some(x) => x,
            None => fallback,
        },
    }
}

pub open spec fn resolve_attribute(a: Attribute, env: Seq<(u64, u32)>) -> TextAttribute {
    match a {
        Attribute::FontSize(v) => TextAttribute::FontSize(resolve_value(v, env)),
        Attribute::Weight(w) => TextAttribute::Weight(w),
        Attribute::Style(s) => TextAttribute::Style(s),
        Attribute::Underline(u) => TextAttribute::Underline(u),
        Attribute::TextColor(v) => TextAttribute::TextColor(resolve_value(v, env)),
    }
}

impl View for Env {
    type V = Seq<(u64, u32)>;

    closed spec fn view(&self) -> Seq<(u64, u32)> {
        self.entries@
    }
}

impl Env {
    pub fn new() -> (r: Env)
        ensures
            r@ == Seq::<(u64, u32)>::empty(),
    {
        Env { entries: Vec::new() }
    }

    /// Binds `key` to `value`, shadowing any earlier binding.
    pub fn set(&mut self, key: u64, value: u32)
        ensures
            final(self)@ == old(self)@.push((key, value)),
            lookup(final(self)@, key) == Some(value),
    {
        self.entries.push((key, value));
        proof {
            assert(final(self)@.drop_last() == old(self)@);
        }
    }

    pub fn get(&self, key: u64) -> (r: Option<u32>)
        ensures
            r == lookup(self@, key),
    {
        let mut i: usize = self.entries.len();
        proof {
            assert(self@.subrange(0, i as int) =~= self@);
        }
        while i > 0
            invariant
                i <= self@.len(),
                lookup(self@, key) == lookup(self@.subrange(0, i as int), key),
            decreases i,
        {
            let entry = self.entries[i - 1];
            proof {
                let prefix = self@.subrange(0, i as int);
                assert(prefix.last() == entry);
                assert(prefix.drop_last() == self@.subrange(0, i - 1));
            }
            if entry.0 == key {
                return Some(entry.1);
            }
            i = i - 1;
        }
        proof {
            assert(self@.subrange(0, 0) =~= Seq::<(u64, u32)>::empty());
        }
        None
    }
}

impl KeyOrValue {
    pub fn resolve(&self, env: &Env) -> (r: u32)
        ensures
            r == resolve_value(*self, env@),
    {
        match self {
            KeyOrValue::Concrete(x) => *x,
            KeyOrValue::Key { key, fallback } => match env.get(*key) {
                Some(x) => x,
                None => *fallback,
            },
        }
    }
}

impl Attribute {
    /// The concrete attribute, with named values looked up in `env`.
    pub fn resolve(&self, env: &Env) -> (r: TextAttribute)
        ensures
            r == resolve_attribute(*self, env@),
    {
        match self {
            Attribute::FontSize(v) => TextAttribute::FontSize(v.resolve(env)),
            Attribute::Weight(w) => TextAttribute::Weight(*w),
            Attribute::Style(s) => TextAttribute::Style(*s),
            Attribute::Underline(u) => TextAttribute::Underline(*u),
            Attribute::TextColor(v) => TextAttribute::TextColor(v.resolve(env)),
        }
    }
}

} // verus!
