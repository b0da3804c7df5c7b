use std::sync::Arc;

use text_storage::{
    resolve_range, ArcStr, Attribute, AttributeSpans, Env, FontStyle, KeyOrValue, LayoutBuilder,
    RangeBound, RichText, Span, SpanRange, TextAttribute, TextRange, TextStorage, WEIGHT_BOLD,
};


fn arc(s: &str) -> ArcStr {
    Arc::from(s)
}

fn span(start: usize, end: usize) -> SpanRange {
    SpanRange { start, end }
}

#[test]
fn hello_world_bold_and_italic() {
    let mut text = RichText::new(arc("hello world"));
    text.add(TextRange::new(0, 5), Attribute::Weight(WEIGHT_BOLD));
    text.add(TextRange::new(6, 11), Attribute::Style(FontStyle::Italic));
    assert_eq!(text.len(), 11);
    assert!(!text.is_empty());
    let builder = text.add_attributes(LayoutBuilder::new(), &Env::new());
    assert_eq!(
        builder.applied(),
        &[
            (span(0, 5), TextAttribute::Weight(WEIGHT_BOLD)),
            (span(6, 11), TextAttribute::Style(FontStyle::Italic)),
        ][..]
    );
}

#[test]
fn empty_text_clamps_every_range() {
    let mut text = RichText::new(arc(""));
    assert!(text.is_empty());
    assert_eq!(text.len(), 0);
    text.add(TextRange::new(2, 7), Attribute::Underline(true));
    text.add(TextRange::full(), Attribute::Underline(true));
    text.add(TextRange::from(3), Attribute::Underline(true));
    text.add(TextRange::to(9), Attribute::Underline(true));
    text.add(TextRange::inclusive(0, 0), Attribute::Underline(true));
    assert_eq!(text.attributes().len(), 5);
    for s in text.attributes() {
        assert_eq!(s.range, span(0, 0));
    }
}

#[test]
fn unbounded_start_resolves_from_zero() {
    let mut text = RichText::new(arc("abcde"));
    text.add(TextRange::to(3), Attribute::Weight(WEIGHT_BOLD));
    text.add(TextRange::full(), Attribute::Underline(false));
    text.add(TextRange::to(8), Attribute::Underline(true));
    let ranges: Vec<SpanRange> = text.attributes().iter().map(|s| s.range).collect();
    assert_eq!(ranges, vec![span(0, 3), span(0, 5), span(0, 5)]);
}

#[test]
fn resolve_range_clamps_and_orders() {
    assert_eq!(resolve_range(TextRange::new(1, 3), 5), span(1, 3));
    assert_eq!(resolve_range(TextRange::new(4, 2), 5), span(4, 4));
    assert_eq!(resolve_range(TextRange::new(7, 9), 5), span(5, 5));
    assert_eq!(resolve_range(TextRange::inclusive(1, 2), 5), span(1, 3));
    assert_eq!(resolve_range(TextRange::inclusive(1, usize::MAX), 5), span(1, 5));
    assert_eq!(resolve_range(TextRange::from(2), 5), span(2, 5));
    let excluded = TextRange { start: RangeBound::Excluded(1), end: RangeBound::Unbounded };
    assert_eq!(resolve_range(excluded, 5), span(2, 5));
    let past = TextRange { start: RangeBound::Excluded(usize::MAX), end: RangeBound::Unbounded };
    assert_eq!(resolve_range(past, 5), span(5, 5));
    assert_eq!(resolve_range(TextRange::full(), usize::MAX), span(0, usize::MAX));
}

#[test]
fn plain_text_is_the_buffer() {
    for s in ["", "hello", "héllo wörld", "日本語"] {
        let text = RichText::new(arc(s));
        assert_eq!(text.as_str(), s);
        assert_eq!(&*text.as_arc_str(), s);
    }
}

#[test]
fn shared_text_reuses_the_buffer() {
    let buffer = arc("shared");
    let text = RichText::new(buffer.clone());
    assert!(Arc::ptr_eq(&text.as_arc_str(), &buffer));
    assert!(Arc::ptr_eq(&buffer.as_arc_str(), &buffer));
    assert_eq!(buffer.as_str(), "shared");
}

#[test]
fn add_to_clone_leaves_source() {
    let mut source = RichText::new(arc("hello world"));
    source.add(TextRange::new(0, 5), Attribute::Weight(WEIGHT_BOLD));
    let mut copy = source.clone();
    copy.add(TextRange::new(6, 11), Attribute::Style(FontStyle::Italic));
    let bold = Span { range: span(0, 5), attr: Attribute::Weight(WEIGHT_BOLD) };
    let italic = Span { range: span(6, 11), attr: Attribute::Style(FontStyle::Italic) };
    assert_eq!(source.attributes(), &[bold][..]);
    assert_eq!(copy.attributes(), &[bold, italic][..]);
    source.add(TextRange::full(), Attribute::Underline(true));
    let under = Span { range: span(0, 11), attr: Attribute::Underline(true) };
    assert_eq!(source.attributes(), &[bold, under][..]);
    assert_eq!(copy.attributes(), &[bold, italic][..]);
}

#[test]
fn add_to_unshared_value_keeps_earlier_spans() {
    let mut text = RichText::new(arc("abc"));
    text.add(TextRange::new(0, 1), Attribute::Underline(true));
    text.add(TextRange::new(1, 2), Attribute::Underline(false));
    text.add(TextRange::new(2, 3), Attribute::Weight(300));
    let expected = [
        Span { range: span(0, 1), attr: Attribute::Underline(true) },
        Span { range: span(1, 2), attr: Attribute::Underline(false) },
        Span { range: span(2, 3), attr: Attribute::Weight(300) },
    ];
    assert_eq!(text.attributes(), &expected[..]);
}

#[test]
fn length_is_byte_length_and_stable() {
    let mut text = RichText::new(arc("héllo"));
    assert_eq!(text.len(), 6);
    text.add(TextRange::full(), Attribute::Weight(WEIGHT_BOLD));
    text.add(TextRange::new(1, 3), Attribute::Underline(true));
    assert_eq!(text.len(), 6);
    assert_eq!(text.as_str(), "héllo");
    assert_eq!(text.attributes()[0].range, span(0, 6));
}

#[test]
fn contribution_keeps_insertion_order() {
    let mut text = RichText::new(arc("abcdef"));
    text.add(TextRange::new(2, 4), Attribute::Underline(true));
    text.add(TextRange::new(0, 6), Attribute::Weight(WEIGHT_BOLD));
    text.add(TextRange::new(1, 3), Attribute::Underline(false));
    let start = LayoutBuilder::new().range_attribute(span(0, 1), TextAttribute::FontSize(9));
    let builder = text.add_attributes(start, &Env::new());
    assert_eq!(
        builder.applied(),
        &[
            (span(0, 1), TextAttribute::FontSize(9)),
            (span(2, 4), TextAttribute::Underline(true)),
            (span(0, 6), TextAttribute::Weight(WEIGHT_BOLD)),
            (span(1, 3), TextAttribute::Underline(false)),
        ][..]
    );
}

#[test]
fn plain_string_contributes_nothing() {
    let buffer = arc("plain");
    let start = LayoutBuilder::new().range_attribute(span(0, 2), TextAttribute::Underline(true));
    let builder = buffer.add_attributes(start, &Env::new());
    assert_eq!(builder.applied(), &[(span(0, 2), TextAttribute::Underline(true))][..]);
}

#[test]
fn environment_resolves_named_values() {
    let mut env = Env::new();
    assert_eq!(env.get(1), None);
    env.set(1, 0xff0000ff);
    env.set(2, 14);
    env.set(1, 0x00ff00ff);
    assert_eq!(env.get(1), Some(0x00ff00ff));
    assert_eq!(env.get(2), Some(14));
    assert_eq!(env.get(3), None);
    assert_eq!(KeyOrValue::Concrete(5).resolve(&env), 5);
    assert_eq!(KeyOrValue::Key { key: 2, fallback: 12 }.resolve(&env), 14);
    assert_eq!(KeyOrValue::Key { key: 3, fallback: 12 }.resolve(&env), 12);
    let color = Attribute::TextColor(KeyOrValue::Key { key: 1, fallback: 0 });
    assert_eq!(color.resolve(&env), TextAttribute::TextColor(0x00ff00ff));
}

#[test]
fn contribution_resolves_in_environment() {
    let mut env = Env::new();
    env.set(7, 18);
    let mut text = RichText::new(arc("title"));
    text.add(TextRange::full(), Attribute::FontSize(KeyOrValue::Key { key: 7, fallback: 10 }));
    text.add(TextRange::to(1), Attribute::TextColor(KeyOrValue::Key { key: 8, fallback: 0x000000ff }));
    text.add(TextRange::from(1), Attribute::FontSize(KeyOrValue::Concrete(11)));
    let builder = text.add_attributes(LayoutBuilder::new(), &env);
    assert_eq!(
        builder.applied(),
        &[
            (span(0, 5), TextAttribute::FontSize(18)),
            (span(0, 1), TextAttribute::TextColor(0x000000ff)),
            (span(1, 5), TextAttribute::FontSize(11)),
        ][..]
    );
}

#[test]
fn attribute_collection_basics() {
    let mut spans = AttributeSpans::new();
    assert!(spans.is_empty());
    spans.add(span(0, 2), Attribute::Underline(true));
    spans.add(span(1, 2), Attribute::Weight(WEIGHT_BOLD));
    assert_eq!(spans.len(), 2);
    let copy = spans.duplicate();
    assert_eq!(copy.as_slice(), spans.as_slice());
    let mut env = Env::new();
    env.set(0, 1);
    assert_eq!(
        spans.to_layout_attrs(&env),
        vec![
            (span(0, 2), TextAttribute::Underline(true)),
            (span(1, 2), TextAttribute::Weight(WEIGHT_BOLD)),
        ]
    );
}

#[test]
fn default_shared_text_copies_the_characters() {
    let owned = String::from("owned text");
    let shared = TextStorage::as_arc_str(&owned);
    assert_eq!(&*shared, "owned text");
    assert_eq!(shared.len(), 10);
    assert_eq!(&*TextStorage::as_arc_str(&String::new()), "");
    let start = LayoutBuilder::new().range_attribute(span(1, 2), TextAttribute::Weight(100));
    let builder = owned.add_attributes(start, &Env::new());
    assert_eq!(builder.applied(), &[(span(1, 2), TextAttribute::Weight(100))][..]);
}
