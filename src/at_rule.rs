use vstd::prelude::*;
use vstd::string::StringExecFns;
use crate::ast::{
    AtRule, AtRulePrelude, ColorProfilePrelude, CustomMedia, CustomMediaValue, DocumentPrelude,
    DocumentPreludeMatcher, FontFamilyName, FormatError, InterpolableIdent, KeyframeBlock,
    KeyframeSelector, KeyframesName, LayerName, ListNode, NamespacePrelude, NamespacePreludeUri,
    PageSelector, PageSelectorList, PseudoPage, UnquotedFontFamilyName,
};
use crate::config::Ctx;
use crate::doc::{
    interleave, join, lemma_views_index, text, views, Doc, DocView, Separator,
};
use crate::text::{ascii_lower_seq, eq_ignore_ascii_case, to_ascii_lowercase};

verus! {

broadcast use vstd::std_specs::vec::group_vec_axioms, vstd::seq::group_seq_axioms;

/// The view of a formatting result: the document's view, or the error itself.
pub open spec fn result_view(r: Result<Doc, FormatError>) -> Result<DocView, FormatError> {
    match r {
        Ok(d) => Ok(d@),
        Err(e) => Err(e),
    }
}

/// `seq![a@, b@]` as a list document.
fn pair(a: Doc, b: Doc) -> (r: Doc)
    ensures
        r@ == DocView::List(seq![a@, b@]),
{
    let ghost (va, vb) = (a@, b@);
    let mut v: Vec<Doc> = Vec::new();
    v.push(a);
    v.push(b);
    proof {
        lemma_views_index(v@);
        assert(views(v@) =~= seq![va, vb]);
    }
    Doc::List(v)
}

/// `seq![a@, b@, c@]` as a list document.
fn triple(a: Doc, b: Doc, c: Doc) -> (r: Doc)
    ensures
        r@ == DocView::List(seq![a@, b@, c@]),
{
    let ghost (va, vb, vc) = (a@, b@, c@);
    let mut v: Vec<Doc> = Vec::new();
    v.push(a);
    v.push(b);
    v.push(c);
    proof {
        lemma_views_index(v@);
        assert(views(v@) =~= seq![va, vb, vc]);
    }
    Doc::List(v)
}

/// Items joined by a comma and the policy's break, grouped, and indented
/// one level.
pub open spec fn comma_list(items: Seq<DocView>, ctx: Ctx) -> DocView {
    DocView::Nest(
        ctx.indent_width,
        Box::new(
            DocView::Group(
                Box::new(
                    DocView::List(
                        interleave(items, Separator::Comma(ctx.block_selector_linebreak)@),
                    ),
                ),
            ),
        ),
    )
}

fn comma_list_doc(items: Vec<Doc>, ctx: &Ctx) -> (r: Doc)
    ensures
        r@ == comma_list(views(items@), *ctx),
{
    let sep = Separator::Comma(ctx.block_selector_linebreak);
    let joined = join(items, &sep);
    let ghost jv = joined@;
    let g = Doc::Group(Box::new(joined));
    assert(g@ == DocView::Group(Box::new(jv)));
    Doc::Nest(ctx.indent_width, Box::new(g))
}

/// The keyword `from`.
pub open spec fn kw_from() -> Seq<char> {
    seq!['f', 'r', 'o', 'm']
}

/// The keyword `to`.
pub open spec fn kw_to() -> Seq<char> {
    seq!['t', 'o']
}

/// Nodes that always format: each turns into one document.
pub trait DocGen: Sized {
    /// The document that the node turns into.
    spec fn spec_doc(self) -> DocView;

    fn doc(self, ctx: &Ctx) -> (r: Doc)
        ensures
            r@ == self.spec_doc(),
    ;
}

/// The documents of a sequence of nodes, in order.
pub open spec fn node_views<T: DocGen>(s: Seq<T>) -> Seq<DocView> {
    s.map_values(|x: T| x.spec_doc())
}

fn docs_of<T: DocGen>(items: Vec<T>, ctx: &Ctx) -> (r: Vec<Doc>)
    ensures
        views(r@) == node_views(items@),
{
    let ghost orig = items@;
    let mut rest = items;
    let mut out: Vec<Doc> = Vec::new();
    while rest.len() > 0
        invariant
            out@.len() + rest@.len() == orig.len(),
            rest@ == orig.subrange(out@.len() as int, orig.len() as int),
            forall|i: int| 0 <= i < out@.len() ==> (#[trigger] out@[i])@ == orig[i].spec_doc(),
        decreases rest@.len(),
    {
        let item = rest.remove(0);
        out.push(item.doc(ctx));
    }
    proof {
        lemma_views_index(out@);
        assert(views(out@) =~= node_views(orig));
    }
    out
}

impl DocGen for InterpolableIdent {
    open spec fn spec_doc(self) -> DocView {
        match self {
            InterpolableIdent::Literal(i) => DocView::Text(i.raw@),
            InterpolableIdent::Interpolated(d) => d@,
        }
    }

    /// A literal identifier as written; an interpolated one as its own document.
    fn doc(self, ctx: &Ctx) -> (r: Doc) {
        match self {
            InterpolableIdent::Literal(i) => Doc::Text(i.raw),
            InterpolableIdent::Interpolated(d) => d,
        }
    }
}

impl LayerName {
    pub open spec fn spec_doc(self) -> Result<DocView, FormatError> {
        if self.idents@.len() == 0 {
            Err(FormatError::EmptyList { node: ListNode::LayerName, span: self.span })
        } else {
            Ok(DocView::List(interleave(node_views(self.idents@), Separator::Dot@)))
        }
    }

    /// The identifiers joined by `.`, with no space and no break.
    pub fn doc(self, ctx: &Ctx) -> (r: Result<Doc, FormatError>)
        ensures
            result_view(r) == self.spec_doc(),
    {
        if self.idents.len() == 0 {
            return Err(FormatError::EmptyList { node: ListNode::LayerName, span: self.span });
        }
        let docs = docs_of(self.idents, ctx);
        Ok(join(docs, &Separator::Dot))
    }
}

impl UnquotedFontFamilyName {
    pub open spec fn spec_doc(self) -> Result<DocView, FormatError> {
        if self.idents@.len() == 0 {
            Err(FormatError::EmptyList { node: ListNode::UnquotedFontFamilyName, span: self.span })
        } else {
            Ok(DocView::List(interleave(node_views(self.idents@), Separator::Space@)))
        }
    }

    /// The identifiers joined by single spaces, with no break.
    pub fn doc(self, ctx: &Ctx) -> (r: Result<Doc, FormatError>)
        ensures
            result_view(r) == self.spec_doc(),
    {
        if self.idents.len() == 0 {
            return Err(
                FormatError::EmptyList { node: ListNode::UnquotedFontFamilyName, span: self.span },
            );
        }
        let docs = docs_of(self.idents, ctx);
        Ok(join(docs, &Separator::Space))
    }
}

impl FontFamilyName {
    pub open spec fn spec_doc(self) -> Result<DocView, FormatError> {
        match self {
            FontFamilyName::Str(d) => Ok(d@),
            FontFamilyName::Unquoted(u) => u.spec_doc(),
        }
    }

    pub fn doc(self, ctx: &Ctx) -> (r: Result<Doc, FormatError>)
        ensures
            result_view(r) == self.spec_doc(),
    {
        match self {
            FontFamilyName::Str(d) => Ok(d),
            FontFamilyName::Unquoted(u) => u.doc(ctx),
        }
    }
}

/// Whether an identifier's text is the keyword `kw` in some ASCII casing.
pub open spec fn is_keyword(raw: Seq<char>, kw: Seq<char>) -> bool {
    ascii_lower_seq(raw) == kw
}

impl DocGen for KeyframeSelector {
    open spec fn spec_doc(self) -> DocView {
        match self {
            KeyframeSelector::Percentage(d) => d@,
            KeyframeSelector::Ident(InterpolableIdent::Literal(i)) => {
                if is_keyword(i.raw@, kw_from()) {
                    DocView::Text(kw_from())
                } else if is_keyword(i.raw@, kw_to()) {
                    DocView::Text(kw_to())
                } else {
                    DocView::Text(i.raw@)
                }
            },
            KeyframeSelector::Ident(i) => i.spec_doc(),
        }
    }

    /// A percentage as its own document; the keywords `from` and `to` in
    /// lower case, whatever their casing; any other identifier as written.
    fn doc(self, ctx: &Ctx) -> (r: Doc) {
        proof {
            reveal_strlit("from");
            reveal_strlit("to");
            assert("from".view() =~= kw_from());
            assert("to".view() =~= kw_to());
            assert(ascii_lower_seq(kw_from()) =~= kw_from());
            assert(ascii_lower_seq(kw_to()) =~= kw_to());
        }
        match self {
            KeyframeSelector::Percentage(d) => d,
            KeyframeSelector::Ident(InterpolableIdent::Literal(i)) => {
                if eq_ignore_ascii_case(i.raw.as_str(), "from") {
                    text("from")
                } else if eq_ignore_ascii_case(i.raw.as_str(), "to") {
                    text("to")
                } else {
                    Doc::Text(i.raw)
                }
            },
            KeyframeSelector::Ident(i) => i.doc(ctx),
        }
    }
}


impl DocGen for ColorProfilePrelude {
    open spec fn spec_doc(self) -> DocView {
        match self {
            ColorProfilePrelude::DashedIdent(d) => d@,
            ColorProfilePrelude::DeviceCmyk(d) => d@,
        }
    }

    fn doc(self, ctx: &Ctx) -> (r: Doc) {
        match self {
            ColorProfilePrelude::DashedIdent(d) => d,
            ColorProfilePrelude::DeviceCmyk(d) => d,
        }
    }
}

/// The keyword `true`.
pub open spec fn kw_true() -> Seq<char> {
    seq!['t', 'r', 'u', 'e']
}

/// The keyword `false`.
pub open spec fn kw_false() -> Seq<char> {
    seq!['f', 'a', 'l', 's', 'e']
}

impl DocGen for CustomMediaValue {
    open spec fn spec_doc(self) -> DocView {
        match self {
            CustomMediaValue::MediaQueryList(d) => d@,
            CustomMediaValue::True => DocView::Text(kw_true()),
            CustomMediaValue::False => DocView::Text(kw_false()),
        }
    }

    fn doc(self, ctx: &Ctx) -> (r: Doc) {
        proof {
            reveal_strlit("true");
            reveal_strlit("false");
            assert("true".view() =~= kw_true());
            assert("false".view() =~= kw_false());
        }
        match self {
            CustomMediaValue::MediaQueryList(d) => d,
            CustomMediaValue::True => text("true"),
            CustomMediaValue::False => text("false"),
        }
    }
}

impl DocGen for CustomMedia {
    open spec fn spec_doc(self) -> DocView {
        DocView::List(seq![self.name.spec_doc(), DocView::Space, self.value.spec_doc()])
    }

    /// The name, a space, then the value.
    fn doc(self, ctx: &Ctx) -> (r: Doc) {
        let name = self.name.doc(ctx);
        let value = self.value.doc(ctx);
        triple(name, Doc::Space, value)
    }
}

impl DocGen for DocumentPreludeMatcher {
    open spec fn spec_doc(self) -> DocView {
        match self {
            DocumentPreludeMatcher::Function(d) => d@,
            DocumentPreludeMatcher::Url(d) => d@,
        }
    }

    fn doc(self, ctx: &Ctx) -> (r: Doc) {
        match self {
            DocumentPreludeMatcher::Function(d) => d,
            DocumentPreludeMatcher::Url(d) => d,
        }
    }
}

impl DocumentPrelude {
    pub open spec fn spec_doc(self, ctx: Ctx) -> Result<DocView, FormatError> {
        if self.matchers@.len() == 0 {
            Err(FormatError::EmptyList { node: ListNode::DocumentPrelude, span: self.span })
        } else {
            Ok(comma_list(node_views(self.matchers@), ctx))
        }
    }

    /// The matchers as a comma-separated list under the line-break policy,
    /// grouped and indented.
    pub fn doc(self, ctx: &Ctx) -> (r: Result<Doc, FormatError>)
        ensures
            result_view(r) == self.spec_doc(*ctx),
    {
        if self.matchers.len() == 0 {
            return Err(FormatError::EmptyList { node: ListNode::DocumentPrelude, span: self.span });
        }
        let docs = docs_of(self.matchers, ctx);
        Ok(comma_list_doc(docs, ctx))
    }
}

impl KeyframeBlock {
    pub open spec fn spec_doc(self, ctx: Ctx) -> Result<DocView, FormatError> {
        if self.selectors@.len() == 0 {
            Err(FormatError::EmptyList { node: ListNode::KeyframeBlock, span: self.span })
        } else {
            Ok(
                DocView::List(
                    seq![comma_list(node_views(self.selectors@), ctx), DocView::Space, self.block@],
                ),
            )
        }
    }

    /// The selectors as a comma-separated list under the line-break policy,
    /// grouped and indented; then a space and the block.
    pub fn doc(self, ctx: &Ctx) -> (r: Result<Doc, FormatError>)
        ensures
            result_view(r) == self.spec_doc(*ctx),
    {
        if self.selectors.len() == 0 {
            return Err(FormatError::EmptyList { node: ListNode::KeyframeBlock, span: self.span });
        }
        let docs = docs_of(self.selectors, ctx);
        let selectors = comma_list_doc(docs, ctx);
        Ok(triple(selectors, Doc::Space, self.block))
    }
}

impl DocGen for KeyframesName {
    open spec fn spec_doc(self) -> DocView {
        match self {
            KeyframesName::Ident(i) => i.spec_doc(),
            KeyframesName::Str(d) => d@,
            KeyframesName::LessVariable(d) => d@,
            KeyframesName::LessEscapedStr(d) => d@,
        }
    }

    fn doc(self, ctx: &Ctx) -> (r: Doc) {
        match self {
            KeyframesName::Ident(i) => i.doc(ctx),
            KeyframesName::Str(d) => d,
            KeyframesName::LessVariable(d) => d,
            KeyframesName::LessEscapedStr(d) => d,
        }
    }
}

impl DocGen for NamespacePreludeUri {
    open spec fn spec_doc(self) -> DocView {
        match self {
            NamespacePreludeUri::Str(d) => d@,
            NamespacePreludeUri::Url(d) => d@,
        }
    }

    fn doc(self, ctx: &Ctx) -> (r: Doc) {
        match self {
            NamespacePreludeUri::Str(d) => d,
            NamespacePreludeUri::Url(d) => d,
        }
    }
}

impl NamespacePrelude {
    pub open spec fn spec_doc(self, ctx: Ctx) -> DocView {
        match self.prefix {
            Some(p) => DocView::Nest(
                ctx.indent_width,
                Box::new(
                    DocView::Group(
                        Box::new(
                            DocView::List(
                                seq![p.spec_doc(), DocView::LineOrSpace, self.uri.spec_doc()],
                            ),
                        ),
                    ),
                ),
            ),
            None => self.uri.spec_doc(),
        }
    }

    /// With a prefix: the prefix, a line-or-space break and the URI, grouped
    /// and indented. Without: the URI alone.
    pub fn doc(self, ctx: &Ctx) -> (r: Doc)
        ensures
            r@ == self.spec_doc(*ctx),
    {
        match self.prefix {
            Some(p) => {
                let prefix = p.doc(ctx);
                let uri = self.uri.doc(ctx);
                let l = triple(prefix, Doc::LineOrSpace, uri);
                let ghost lv = l@;
                let g = Doc::Group(Box::new(l));
                assert(g@ == DocView::Group(Box::new(lv)));
                Doc::Nest(ctx.indent_width, Box::new(g))
            },
            None => self.uri.doc(ctx),
        }
    }
}

impl DocGen for PseudoPage {
    open spec fn spec_doc(self) -> DocView {
        DocView::List(seq![DocView::Text(seq![':']), self.name.spec_doc()])
    }

    /// A colon, then the name.
    fn doc(self, ctx: &Ctx) -> (r: Doc) {
        proof {
            reveal_strlit(":");
            assert(":".view() =~= seq![':']);
        }
        let colon = text(":");
        let name = self.name.doc(ctx);
        pair(colon, name)
    }
}

impl DocGen for PageSelector {
    open spec fn spec_doc(self) -> DocView {
        let pseudo = DocView::List(node_views(self.pseudo@));
        match self.name {
            Some(n) => DocView::List(seq![n.spec_doc(), pseudo]),
            None => pseudo,
        }
    }

    /// The name if there is one, then the pseudo pages with nothing between.
    fn doc(self, ctx: &Ctx) -> (r: Doc) {
        let pseudo = Doc::List(docs_of(self.pseudo, ctx));
        match self.name {
            Some(n) => {
                let name = n.doc(ctx);
                pair(name, pseudo)
            },
            None => pseudo,
        }
    }
}

impl PageSelectorList {
    pub open spec fn spec_doc(self, ctx: Ctx) -> Result<DocView, FormatError> {
        if self.selectors@.len() == 0 {
            Err(FormatError::EmptyList { node: ListNode::PageSelectorList, span: self.span })
        } else {
            Ok(comma_list(node_views(self.selectors@), ctx))
        }
    }

    /// The selectors as a comma-separated list under the line-break policy,
    /// grouped and indented.
    pub fn doc(self, ctx: &Ctx) -> (r: Result<Doc, FormatError>)
        ensures
            result_view(r) == self.spec_doc(*ctx),
    {
        if self.selectors.len() == 0 {
            return Err(FormatError::EmptyList { node: ListNode::PageSelectorList, span: self.span });
        }
        let docs = docs_of(self.selectors, ctx);
        Ok(comma_list_doc(docs, ctx))
    }
}


impl AtRulePrelude {
    /// Whether a formatter covers this kind of prelude.
    pub open spec fn is_supported(self) -> bool {
        !(self is Unsupported)
    }

    pub open spec fn spec_doc(self, ctx: Ctx) -> Result<DocView, FormatError> {
        match self {
            AtRulePrelude::Media(d) => Ok(d@),
            AtRulePrelude::Charset(d) => Ok(d@),
            AtRulePrelude::ColorProfile(c) => Ok(c.spec_doc()),
            AtRulePrelude::Container(d) => Ok(d@),
            AtRulePrelude::CounterStyle(i) => Ok(i.spec_doc()),
            AtRulePrelude::CustomMedia(c) => Ok(c.spec_doc()),
            AtRulePrelude::Document(d) => d.spec_doc(ctx),
            AtRulePrelude::FontFeatureValues(f) => f.spec_doc(),
            AtRulePrelude::FontPaletteValues(i) => Ok(i.spec_doc()),
            AtRulePrelude::Import(d) => Ok(d@),
            AtRulePrelude::Keyframes(k) => Ok(k.spec_doc()),
            AtRulePrelude::Layer(l) => l.spec_doc(),
            AtRulePrelude::Namespace(n) => Ok(n.spec_doc(ctx)),
            AtRulePrelude::Nest(d) => Ok(d@),
            AtRulePrelude::Page(p) => p.spec_doc(ctx),
            AtRulePrelude::PositionFallback(i) => Ok(i.spec_doc()),
            AtRulePrelude::Property(i) => Ok(i.spec_doc()),
            AtRulePrelude::SassExpr(d) => Ok(d@),
            AtRulePrelude::ScrollTimeline(i) => Ok(i.spec_doc()),
            AtRulePrelude::Supports(d) => Ok(d@),
            AtRulePrelude::Unsupported { kind, span } => Err(FormatError::Unsupported { kind, span }),
        }
    }

    /// The document of the variant's own formatter; an error for a kind that
    /// no formatter covers.
    pub fn doc(self, ctx: &Ctx) -> (r: Result<Doc, FormatError>)
        ensures
            result_view(r) == self.spec_doc(*ctx),
    {
        match self {
            AtRulePrelude::Media(d) => Ok(d),
            AtRulePrelude::Charset(d) => Ok(d),
            AtRulePrelude::ColorProfile(c) => Ok(c.doc(ctx)),
            AtRulePrelude::Container(d) => Ok(d),
            AtRulePrelude::CounterStyle(i) => Ok(i.doc(ctx)),
            AtRulePrelude::CustomMedia(c) => Ok(c.doc(ctx)),
            AtRulePrelude::Document(d) => d.doc(ctx),
            AtRulePrelude::FontFeatureValues(f) => f.doc(ctx),
            AtRulePrelude::FontPaletteValues(i) => Ok(i.doc(ctx)),
            AtRulePrelude::Import(d) => Ok(d),
            AtRulePrelude::Keyframes(k) => Ok(k.doc(ctx)),
            AtRulePrelude::Layer(l) => l.doc(ctx),
            AtRulePrelude::Namespace(n) => Ok(n.doc(ctx)),
            AtRulePrelude::Nest(d) => Ok(d),
            AtRulePrelude::Page(p) => p.doc(ctx),
            AtRulePrelude::PositionFallback(i) => Ok(i.doc(ctx)),
            AtRulePrelude::Property(i) => Ok(i.doc(ctx)),
            AtRulePrelude::SassExpr(d) => Ok(d),
            AtRulePrelude::ScrollTimeline(i) => Ok(i.doc(ctx)),
            AtRulePrelude::Supports(d) => Ok(d),
            AtRulePrelude::Unsupported { kind, span } => Err(FormatError::Unsupported { kind, span }),
        }
    }
}

/// The head of an at-rule: `@` and the name in ASCII lower case.
pub open spec fn at_name(raw: Seq<char>) -> Seq<char> {
    seq!['@'] + ascii_lower_seq(raw)
}

/// The at-rule head is stable under a second pass: lower-casing a name that
/// is already lower case changes nothing.
pub proof fn lemma_at_name_stable(raw: Seq<char>)
    ensures
        at_name(ascii_lower_seq(raw)) == at_name(raw),
{
    assert(ascii_lower_seq(ascii_lower_seq(raw)) =~= ascii_lower_seq(raw));
}

/// A present part as a space followed by its document; an absent one as nothing.
pub open spec fn spaced(part: Option<DocView>) -> Seq<DocView> {
    match part {
        Some(d) => seq![DocView::Space, d],
        None => Seq::empty(),
    }
}

impl AtRule {
    pub open spec fn spec_doc(self, ctx: Ctx) -> Result<DocView, FormatError> {
        let head = seq![DocView::Text(at_name(self.name.raw@))];
        let block = match self.block {
            Some(b) => Some(b@),
            None => None,
        };
        match self.prelude {
            Some(p) => match p.spec_doc(ctx) {
                Ok(d) => Ok(DocView::List(head + spaced(Some(d)) + spaced(block))),
                Err(e) => Err(e),
            },
            None => Ok(DocView::List(head + spaced(block))),
        }
    }

    /// `@` and the lower-cased name; then, if present, a space and the
    /// prelude; then, if present, a space and the block. No group.
    pub fn doc(self, ctx: &Ctx) -> (r: Result<Doc, FormatError>)
        ensures
            result_view(r) == self.spec_doc(*ctx),
    {
        let ghost this = self;
        let lower = to_ascii_lowercase(self.name.raw.as_str());
        let mut head = String::from_str("@");
        head.append(lower.as_str());
        proof {
            reveal_strlit("@");
            assert("@".view() =~= seq!['@']);
        }
        let mut docs: Vec<Doc> = Vec::new();
        docs.push(Doc::Text(head));
        let ghost mut expected: Seq<DocView> = seq![DocView::Text(at_name(this.name.raw@))];
        match self.prelude {
            Some(p) => {
                match p.doc(ctx) {
                    Ok(d) => {
                        proof {
                            expected = expected + seq![DocView::Space, d@];
                        }
                        docs.push(Doc::Space);
                        docs.push(d);
                    },
                    Err(e) => {
                        return Err(e);
                    },
                }
            },
            None => {},
        }
        match self.block {
            Some(b) => {
                proof {
                    expected = expected + seq![DocView::Space, b@];
                }
                docs.push(Doc::Space);
                docs.push(b);
            },
            None => {},
        }
        proof {
            lemma_views_index(docs@);
            assert(views(docs@) =~= expected);
        }
        Ok(Doc::List(docs))
    }
}


impl AtRulePrelude {
    /// Whether each list that the prelude holds has at least one item.
    pub open spec fn has_items(self) -> bool {
        match self {
            AtRulePrelude::Document(d) => d.matchers@.len() > 0,
            AtRulePrelude::FontFeatureValues(FontFamilyName::Unquoted(u)) => u.idents@.len() > 0,
            AtRulePrelude::Layer(l) => l.idents@.len() > 0,
            AtRulePrelude::Page(p) => p.selectors@.len() > 0,
            _ => true,
        }
    }
}

/// Whether a formatting result is the error for an uncovered kind of prelude.
pub open spec fn is_unsupported_error(r: Result<DocView, FormatError>) -> bool {
    match r {
        Err(FormatError::Unsupported { .. }) => true,
        _ => false,
    }
}

/// The dispatcher is exhaustive: a prelude of a covered kind never yields the
/// unsupported-construct error, and one whose lists are not empty always
/// yields a document.
pub proof fn lemma_supported_prelude_formats(p: AtRulePrelude, ctx: Ctx)
    requires
        p.is_supported(),
    ensures
        !is_unsupported_error(p.spec_doc(ctx)),
        p.has_items() ==> p.spec_doc(ctx) is Ok,
{
}

/// Only an uncovered kind of prelude yields the unsupported-construct error.
pub proof fn lemma_unsupported_error_only_for_uncovered(p: AtRulePrelude, ctx: Ctx)
    ensures
        is_unsupported_error(p.spec_doc(ctx)) <==> !p.is_supported(),
{
}

/// The text that a literal identifier keyframe selector formats to.
pub open spec fn keyframe_text(raw: Seq<char>) -> Seq<char> {
    if is_keyword(raw, kw_from()) {
        kw_from()
    } else if is_keyword(raw, kw_to()) {
        kw_to()
    } else {
        raw
    }
}

/// Keyframe selector normalisation: a literal identifier formats to `from`
/// exactly when it is `from` in some ASCII casing, to `to` exactly when it is
/// `to` in some ASCII casing, and to its own text otherwise; formatting that
/// text again gives the same text.
pub proof fn lemma_keyframe_selector_normalises(sel: KeyframeSelector, raw: Seq<char>)
    requires
        sel matches KeyframeSelector::Ident(InterpolableIdent::Literal(i)) && i.raw@ == raw,
    ensures
        sel.spec_doc() == DocView::Text(keyframe_text(raw)),
        (keyframe_text(raw) == kw_from()) <==> is_keyword(raw, kw_from()),
        (keyframe_text(raw) == kw_to()) <==> is_keyword(raw, kw_to()),
        keyframe_text(keyframe_text(raw)) == keyframe_text(raw),
{
    assert(ascii_lower_seq(kw_from()) =~= kw_from());
    assert(ascii_lower_seq(kw_to()) =~= kw_to());
    if !is_keyword(raw, kw_from()) && !is_keyword(raw, kw_to()) {
        if raw == kw_from() || raw == kw_to() {
            assert(false);
        }
    }
    assert(kw_from() != kw_to()) by {
        assert(kw_from().len() != kw_to().len());
    }
}

} // verus!
