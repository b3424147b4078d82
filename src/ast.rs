use vstd::prelude::*;
use crate::doc::Doc;

verus! {

/// Byte offsets of a node in its source.
#[derive(Clone, Copy, Debug, PartialEq, Eq)]
pub struct Span {
    pub start: usize,
    pub end: usize,
}

/// A plain identifier: `name` is its value with escapes resolved, `raw` its
/// text as written.
#[derive(Debug)]
pub struct Ident {
    pub name: String,
    pub raw: String,
    pub span: Span,
}

/// An identifier, either literal or built by interpolation. An interpolated
/// one carries the document that its own formatter made.
#[derive(Debug)]
pub enum InterpolableIdent {
    Literal(Ident),
    Interpolated(Doc),
}

/// Prelude of `@color-profile`. Each payload is the document of its leaf node.
#[derive(Debug)]
pub enum ColorProfilePrelude {
    DashedIdent(Doc),
    DeviceCmyk(Doc),
}

/// Value of a `@custom-media` rule.
#[derive(Debug)]
pub enum CustomMediaValue {
    MediaQueryList(Doc),
    True,
    False,
}

/// Prelude of `@custom-media`.
#[derive(Debug)]
pub struct CustomMedia {
    pub name: InterpolableIdent,
    pub value: CustomMediaValue,
}

/// One matcher of a `@document` prelude.
#[derive(Debug)]
pub enum DocumentPreludeMatcher {
    Function(Doc),
    Url(Doc),
}

/// Prelude of `@document`: one or more matchers.
#[derive(Debug)]
pub struct DocumentPrelude {
    pub matchers: Vec<DocumentPreludeMatcher>,
    pub span: Span,
}

/// A font family name, quoted or not.
#[derive(Debug)]
pub enum FontFamilyName {
    Str(Doc),
    Unquoted(UnquotedFontFamilyName),
}

/// An unquoted font family name: one or more identifiers.
#[derive(Debug)]
pub struct UnquotedFontFamilyName {
    pub idents: Vec<InterpolableIdent>,
    pub span: Span,
}

/// One block of a `@keyframes` rule: one or more selectors, then the block.
#[derive(Debug)]
pub struct KeyframeBlock {
    pub selectors: Vec<KeyframeSelector>,
    pub block: Doc,
    pub span: Span,
}

/// Name of a `@keyframes` rule.
#[derive(Debug)]
pub enum KeyframesName {
    Ident(InterpolableIdent),
    Str(Doc),
    LessVariable(Doc),
    LessEscapedStr(Doc),
}

/// A keyframe selector: a percentage or an identifier.
#[derive(Debug)]
pub enum KeyframeSelector {
    Percentage(Doc),
    Ident(InterpolableIdent),
}

/// A layer name: one or more identifiers.
#[derive(Debug)]
pub struct LayerName {
    pub idents: Vec<InterpolableIdent>,
    pub span: Span,
}

/// Prelude of `@namespace`.
#[derive(Debug)]
pub struct NamespacePrelude {
    pub prefix: Option<InterpolableIdent>,
    pub uri: NamespacePreludeUri,
}

/// The URI of a `@namespace` prelude.
#[derive(Debug)]
pub enum NamespacePreludeUri {
    Str(Doc),
    Url(Doc),
}

/// A page selector: an optional name, then pseudo pages.
#[derive(Debug)]
pub struct PageSelector {
    pub name: Option<InterpolableIdent>,
    pub pseudo: Vec<PseudoPage>,
}

/// Prelude of `@page`: one or more page selectors.
#[derive(Debug)]
pub struct PageSelectorList {
    pub selectors: Vec<PageSelector>,
    pub span: Span,
}

/// A pseudo page, written `:name`.
#[derive(Debug)]
pub struct PseudoPage {
    pub name: InterpolableIdent,
}

/// The prelude of an at-rule, one variant per kind of at-rule. Payloads of
/// kinds that this crate does not structure further are the documents that
/// their own formatters made.
#[derive(Debug)]
pub enum AtRulePrelude {
    Media(Doc),
    Charset(Doc),
    ColorProfile(ColorProfilePrelude),
    Container(Doc),
    CounterStyle(InterpolableIdent),
    CustomMedia(CustomMedia),
    Document(DocumentPrelude),
    FontFeatureValues(FontFamilyName),
    FontPaletteValues(InterpolableIdent),
    Import(Doc),
    Keyframes(KeyframesName),
    Layer(LayerName),
    Namespace(NamespacePrelude),
    Nest(Doc),
    Page(PageSelectorList),
    PositionFallback(InterpolableIdent),
    Property(InterpolableIdent),
    SassExpr(Doc),
    ScrollTimeline(InterpolableIdent),
    Supports(Doc),
    /// A prelude of a kind that no formatter covers, named by `kind`.
    Unsupported { kind: String, span: Span },
}

/// An at-rule: `@name`, an optional prelude and an optional block, the block
/// given as the document that its own formatter made.
#[derive(Debug)]
pub struct AtRule {
    pub name: Ident,
    pub prelude: Option<AtRulePrelude>,
    pub block: Option<Doc>,
    pub span: Span,
}

/// The kinds of node that must hold at least one item.
#[derive(Clone, Copy, Debug, PartialEq, Eq)]
pub enum ListNode {
    DocumentPrelude,
    KeyframeBlock,
    LayerName,
    PageSelectorList,
    UnquotedFontFamilyName,
}

/// Why a node could not be formatted.
#[derive(Debug)]
pub enum FormatError {
    /// A prelude of a kind that no formatter covers.
    Unsupported { kind: String, span: Span },
    /// A list node with no item: the parser broke the data model.
    EmptyList { node: ListNode, span: Span },
}

} // verus!
