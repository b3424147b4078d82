use malva::ast::{
    AtRule, AtRulePrelude, ColorProfilePrelude, CustomMedia, CustomMediaValue, DocumentPrelude,
    DocumentPreludeMatcher, FontFamilyName, FormatError, Ident, InterpolableIdent, KeyframeBlock,
    KeyframeSelector, KeyframesName, LayerName, ListNode, NamespacePrelude, NamespacePreludeUri,
    PageSelector, PageSelectorList, PseudoPage, Span, UnquotedFontFamilyName,
};
use malva::at_rule::DocGen;
use malva::config::{BlockSelectorLineBreak, Ctx};
use malva::doc::Doc;

fn span() -> Span {
    Span { start: 0, end: 0 }
}

fn ident(raw: &str) -> Ident {
    Ident { name: raw.to_string(), raw: raw.to_string(), span: span() }
}

fn lit(raw: &str) -> InterpolableIdent {
    InterpolableIdent::Literal(ident(raw))
}

fn text(s: &str) -> Doc {
    Doc::Text(s.to_string())
}

fn ctx(policy: BlockSelectorLineBreak) -> Ctx {
    Ctx { indent_width: 2, block_selector_linebreak: policy }
}

fn to_pretty(d: &Doc) -> tiny_pretty::Doc<'static> {
    match d {
        Doc::Text(s) => tiny_pretty::Doc::text(s.clone()),
        Doc::Space => tiny_pretty::Doc::space(),
        Doc::HardLine => tiny_pretty::Doc::hard_line(),
        Doc::LineOrSpace => tiny_pretty::Doc::line_or_space(),
        Doc::SoftLine => tiny_pretty::Doc::soft_line(),
        Doc::List(items) => tiny_pretty::Doc::list(items.iter().map(to_pretty).collect()),
        Doc::Group(inner) => to_pretty(inner).group(),
        Doc::Nest(width, inner) => to_pretty(inner).nest(*width),
    }
}

fn render(d: &Doc, width: usize) -> String {
    let options = tiny_pretty::PrintOptions { width, ..Default::default() };
    tiny_pretty::print(&to_pretty(d), &options)
}

fn page(name: &str) -> PageSelector {
    PageSelector { name: Some(lit(name)), pseudo: vec![] }
}

fn keyframe_ident(raw: &str) -> String {
    let d = KeyframeSelector::Ident(lit(raw)).doc(&ctx(BlockSelectorLineBreak::Consistent));
    render(&d, 80)
}

#[test]
fn keyframe_selector_from_any_case() {
    assert_eq!(keyframe_ident("From"), "from");
    assert_eq!(keyframe_ident("FROM"), "from");
    assert_eq!(keyframe_ident("from"), "from");
}

#[test]
fn keyframe_selector_to_any_case() {
    assert_eq!(keyframe_ident("To"), "to");
    assert_eq!(keyframe_ident("TO"), "to");
    assert_eq!(keyframe_ident("to"), "to");
}

#[test]
fn keyframe_selector_other_ident_unchanged() {
    assert_eq!(keyframe_ident("Middle"), "Middle");
    assert_eq!(keyframe_ident("fromage"), "fromage");
    assert_eq!(keyframe_ident("TOP"), "TOP");
}

#[test]
fn keyframe_selector_normalised_twice_is_same() {
    let once = keyframe_ident("FrOm");
    assert_eq!(keyframe_ident(&once), once);
}

#[test]
fn keyframe_selector_interpolated_and_percentage() {
    let c = ctx(BlockSelectorLineBreak::Consistent);
    let d = KeyframeSelector::Ident(InterpolableIdent::Interpolated(text("#{$From}"))).doc(&c);
    assert_eq!(render(&d, 80), "#{$From}");
    let d = KeyframeSelector::Percentage(text("50%")).doc(&c);
    assert_eq!(render(&d, 80), "50%");
}

#[test]
fn layer_name_joined_by_dots() {
    let l = LayerName { idents: vec![lit("a"), lit("b"), lit("c")], span: span() };
    let d = l.doc(&ctx(BlockSelectorLineBreak::Always)).unwrap();
    assert_eq!(render(&d, 1), "a.b.c");
}

#[test]
fn layer_name_empty_is_error() {
    let l = LayerName { idents: vec![], span: Span { start: 3, end: 3 } };
    match l.doc(&ctx(BlockSelectorLineBreak::Always)) {
        Err(FormatError::EmptyList { node, span }) => {
            assert_eq!(node, ListNode::LayerName);
            assert_eq!(span, Span { start: 3, end: 3 });
        }
        _ => panic!("expected an empty-list error"),
    }
}

#[test]
fn unquoted_font_family_joined_by_spaces() {
    let u = UnquotedFontFamilyName {
        idents: vec![lit("Times"), lit("New"), lit("Roman")],
        span: span(),
    };
    let d = u.doc(&ctx(BlockSelectorLineBreak::Always)).unwrap();
    assert_eq!(render(&d, 1), "Times New Roman");
}

#[test]
fn font_family_name_variants() {
    let c = ctx(BlockSelectorLineBreak::Wrap);
    let d = FontFamilyName::Str(text("\"Open Sans\"")).doc(&c).unwrap();
    assert_eq!(render(&d, 80), "\"Open Sans\"");
    let empty = FontFamilyName::Unquoted(UnquotedFontFamilyName { idents: vec![], span: span() });
    assert!(matches!(
        empty.doc(&c),
        Err(FormatError::EmptyList { node: ListNode::UnquotedFontFamilyName, .. })
    ));
}

#[test]
fn page_selector_list_always_one_per_line() {
    let list = PageSelectorList { selectors: vec![page("first"), page("second")], span: span() };
    let d = list.doc(&ctx(BlockSelectorLineBreak::Always)).unwrap();
    assert_eq!(render(&d, 80), "first,\n  second");
}

#[test]
fn page_selector_list_wrap_two_widths() {
    let make = || PageSelectorList {
        selectors: vec![page("first-page"), page("second-page")],
        span: span(),
    };
    let c = ctx(BlockSelectorLineBreak::Wrap);
    assert_eq!(render(&make().doc(&c).unwrap(), 80), "first-page, second-page");
    assert_eq!(render(&make().doc(&c).unwrap(), 15), "first-page,\n  second-page");
}

#[test]
fn page_selector_list_consistent_all_or_nothing() {
    let make = || PageSelectorList {
        selectors: vec![page("aaaa"), page("bbbb"), page("cccc")],
        span: span(),
    };
    let c = ctx(BlockSelectorLineBreak::Consistent);
    assert_eq!(render(&make().doc(&c).unwrap(), 80), "aaaa, bbbb, cccc");
    assert_eq!(render(&make().doc(&c).unwrap(), 12), "aaaa,\n  bbbb,\n  cccc");
}

#[test]
fn page_selector_list_empty_is_error() {
    let list = PageSelectorList { selectors: vec![], span: span() };
    assert!(matches!(
        list.doc(&ctx(BlockSelectorLineBreak::Wrap)),
        Err(FormatError::EmptyList { node: ListNode::PageSelectorList, .. })
    ));
}

#[test]
fn page_selector_with_pseudo_pages() {
    let c = ctx(BlockSelectorLineBreak::Always);
    let s = PageSelector {
        name: Some(lit("named")),
        pseudo: vec![PseudoPage { name: lit("first") }, PseudoPage { name: lit("left") }],
    };
    assert_eq!(render(&s.doc(&c), 80), "named:first:left");
    let s = PageSelector { name: None, pseudo: vec![PseudoPage { name: lit("right") }] };
    assert_eq!(render(&s.doc(&c), 80), ":right");
}

#[test]
fn namespace_with_prefix_two_widths() {
    let make = || NamespacePrelude {
        prefix: Some(lit("svg")),
        uri: NamespacePreludeUri::Str(text("\"http://www.w3.org/2000/svg\"")),
    };
    let c = ctx(BlockSelectorLineBreak::Consistent);
    assert_eq!(render(&make().doc(&c), 80), "svg \"http://www.w3.org/2000/svg\"");
    assert_eq!(render(&make().doc(&c), 10), "svg\n  \"http://www.w3.org/2000/svg\"");
}

#[test]
fn namespace_without_prefix_is_uri() {
    let n = NamespacePrelude {
        prefix: None,
        uri: NamespacePreludeUri::Url(text("url(http://example.com)")),
    };
    let d = n.doc(&ctx(BlockSelectorLineBreak::Consistent));
    assert_eq!(render(&d, 5), "url(http://example.com)");
}

#[test]
fn document_prelude_follows_policy() {
    let make = || DocumentPrelude {
        matchers: vec![
            DocumentPreludeMatcher::Url(text("url(aaaa)")),
            DocumentPreludeMatcher::Function(text("domain(bbbb)")),
        ],
        span: span(),
    };
    let c = ctx(BlockSelectorLineBreak::Consistent);
    assert_eq!(render(&make().doc(&c).unwrap(), 80), "url(aaaa), domain(bbbb)");
    assert_eq!(render(&make().doc(&c).unwrap(), 10), "url(aaaa),\n  domain(bbbb)");
    let a = ctx(BlockSelectorLineBreak::Always);
    assert_eq!(render(&make().doc(&a).unwrap(), 80), "url(aaaa),\n  domain(bbbb)");
    let empty = DocumentPrelude { matchers: vec![], span: span() };
    assert!(matches!(
        empty.doc(&c),
        Err(FormatError::EmptyList { node: ListNode::DocumentPrelude, .. })
    ));
}

#[test]
fn keyframe_block_selectors_then_block() {
    let b = KeyframeBlock {
        selectors: vec![KeyframeSelector::Ident(lit("FROM")), KeyframeSelector::Percentage(text("50%"))],
        block: text("{}"),
        span: span(),
    };
    let d = b.doc(&ctx(BlockSelectorLineBreak::Consistent)).unwrap();
    assert_eq!(render(&d, 80), "from, 50% {}");
    let empty = KeyframeBlock { selectors: vec![], block: text("{}"), span: span() };
    assert!(matches!(
        empty.doc(&ctx(BlockSelectorLineBreak::Consistent)),
        Err(FormatError::EmptyList { node: ListNode::KeyframeBlock, .. })
    ));
}

#[test]
fn custom_media_name_space_value() {
    let c = ctx(BlockSelectorLineBreak::Consistent);
    let m = CustomMedia {
        name: lit("--small"),
        value: CustomMediaValue::MediaQueryList(text("(max-width: 30em)")),
    };
    assert_eq!(render(&m.doc(&c), 80), "--small (max-width: 30em)");
    let t = CustomMedia { name: lit("--on"), value: CustomMediaValue::True };
    assert_eq!(render(&t.doc(&c), 80), "--on true");
    let f = CustomMedia { name: lit("--off"), value: CustomMediaValue::False };
    assert_eq!(render(&f.doc(&c), 80), "--off false");
}

#[test]
fn at_rule_name_lower_cased() {
    let rule = AtRule {
        name: ident("MEDIA"),
        prelude: Some(AtRulePrelude::Media(text("screen"))),
        block: Some(text("{}")),
        span: span(),
    };
    let d = rule.doc(&ctx(BlockSelectorLineBreak::Consistent)).unwrap();
    assert_eq!(render(&d, 80), "@media screen {}");
}

#[test]
fn at_rule_without_prelude_or_block() {
    let c = ctx(BlockSelectorLineBreak::Consistent);
    let rule = AtRule { name: ident("Font-Face"), prelude: None, block: None, span: span() };
    assert_eq!(render(&rule.doc(&c).unwrap(), 80), "@font-face");
    let rule = AtRule { name: ident("font-face"), prelude: None, block: Some(text("{}")), span: span() };
    assert_eq!(render(&rule.doc(&c).unwrap(), 80), "@font-face {}");
    let rule = AtRule {
        name: ident("Charset"),
        prelude: Some(AtRulePrelude::Charset(text("\"utf-8\""))),
        block: None,
        span: span(),
    };
    assert_eq!(render(&rule.doc(&c).unwrap(), 80), "@charset \"utf-8\"");
}

#[test]
fn at_rule_unsupported_prelude_is_error() {
    let rule = AtRule {
        name: ident("each"),
        prelude: Some(AtRulePrelude::Unsupported { kind: "sass-each".to_string(), span: Span { start: 6, end: 20 } }),
        block: Some(text("{}")),
        span: span(),
    };
    match rule.doc(&ctx(BlockSelectorLineBreak::Wrap)) {
        Err(FormatError::Unsupported { kind, span }) => {
            assert_eq!(kind, "sass-each");
            assert_eq!(span, Span { start: 6, end: 20 });
        }
        _ => panic!("expected an unsupported-construct error"),
    }
}

#[test]
fn at_rule_empty_layer_is_error() {
    let rule = AtRule {
        name: ident("layer"),
        prelude: Some(AtRulePrelude::Layer(LayerName { idents: vec![], span: span() })),
        block: None,
        span: span(),
    };
    assert!(matches!(
        rule.doc(&ctx(BlockSelectorLineBreak::Wrap)),
        Err(FormatError::EmptyList { node: ListNode::LayerName, .. })
    ));
}

#[test]
fn every_supported_prelude_formats() {
    let c = ctx(BlockSelectorLineBreak::Consistent);
    let cases: Vec<(AtRulePrelude, &str)> = vec![
        (AtRulePrelude::Media(text("screen")), "screen"),
        (AtRulePrelude::Charset(text("\"utf-8\"")), "\"utf-8\""),
        (AtRulePrelude::ColorProfile(ColorProfilePrelude::DashedIdent(text("--swop"))), "--swop"),
        (AtRulePrelude::ColorProfile(ColorProfilePrelude::DeviceCmyk(text("device-cmyk"))), "device-cmyk"),
        (AtRulePrelude::Container(text("(width > 1px)")), "(width > 1px)"),
        (AtRulePrelude::CounterStyle(lit("thumbs")), "thumbs"),
        (
            AtRulePrelude::CustomMedia(CustomMedia { name: lit("--on"), value: CustomMediaValue::True }),
            "--on true",
        ),
        (
            AtRulePrelude::Document(DocumentPrelude {
                matchers: vec![DocumentPreludeMatcher::Url(text("url(a)"))],
                span: span(),
            }),
            "url(a)",
        ),
        (
            AtRulePrelude::FontFeatureValues(FontFamilyName::Unquoted(UnquotedFontFamilyName {
                idents: vec![lit("Font"), lit("One")],
                span: span(),
            })),
            "Font One",
        ),
        (AtRulePrelude::FontPaletteValues(lit("--identifier")), "--identifier"),
        (AtRulePrelude::Import(text("url(a.css)")), "url(a.css)"),
        (AtRulePrelude::Keyframes(KeyframesName::Ident(lit("spin"))), "spin"),
        (AtRulePrelude::Keyframes(KeyframesName::Str(text("\"spin\""))), "\"spin\""),
        (AtRulePrelude::Keyframes(KeyframesName::LessVariable(text("@name"))), "@name"),
        (AtRulePrelude::Keyframes(KeyframesName::LessEscapedStr(text("~\"n\""))), "~\"n\""),
        (AtRulePrelude::Layer(LayerName { idents: vec![lit("base")], span: span() }), "base"),
        (
            AtRulePrelude::Namespace(NamespacePrelude {
                prefix: None,
                uri: NamespacePreludeUri::Str(text("\"x\"")),
            }),
            "\"x\"",
        ),
        (AtRulePrelude::Nest(text("& > .a")), "& > .a"),
        (
            AtRulePrelude::Page(PageSelectorList { selectors: vec![page("p")], span: span() }),
            "p",
        ),
        (AtRulePrelude::PositionFallback(lit("--fallback")), "--fallback"),
        (AtRulePrelude::Property(lit("--x")), "--x"),
        (AtRulePrelude::SassExpr(text("$a + 1")), "$a + 1"),
        (AtRulePrelude::ScrollTimeline(lit("--tl")), "--tl"),
        (AtRulePrelude::Supports(text("(display: grid)")), "(display: grid)"),
    ];
    for (prelude, expected) in cases {
        let d = prelude.doc(&c).unwrap();
        assert_eq!(render(&d, 80), expected);
    }
}

#[test]
fn at_rule_name_second_pass_same() {
    let c = ctx(BlockSelectorLineBreak::Consistent);
    let first = AtRule { name: ident("SUPPORTS"), prelude: None, block: None, span: span() };
    let once = render(&first.doc(&c).unwrap(), 80);
    assert_eq!(once, "@supports");
    let again = AtRule { name: ident(&once[1..]), prelude: None, block: None, span: span() };
    assert_eq!(render(&again.doc(&c).unwrap(), 80), once);
}
