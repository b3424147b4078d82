use vstd::prelude::*;
use vstd::string::StringExecFns;
use crate::config::BlockSelectorLineBreak;

verus! {

broadcast use vstd::std_specs::vec::group_vec_axioms, vstd::seq::group_seq_axioms;

/// A layout-agnostic document: the instructions that a rendering engine
/// later lays out as text.
#[derive(Debug)]
pub enum Doc {
    /// Literal text.
    Text(String),
    /// One mandatory space.
    Space,
    /// A line break that is always taken.
    HardLine,
    /// A break that its enclosing group takes or turns into a space, for all
    /// such breaks of the group at once.
    LineOrSpace,
    /// A break that the renderer takes or drops on its own, where the line is full.
    SoftLine,
    /// Sub-documents in order.
    List(Vec<Doc>),
    /// A layout decision boundary around a document.
    Group(Box<Doc>),
    /// A document whose line breaks are indented by the given width.
    Nest(usize, Box<Doc>),
}

/// The mathematical value of a [`Doc`].
pub enum DocView {
    Text(Seq<char>),
    Space,
    HardLine,
    LineOrSpace,
    SoftLine,
    List(Seq<DocView>),
    Group(Box<DocView>),
    Nest(usize, Box<DocView>),
}

/// The views of a sequence of documents, one for one.
pub open spec fn views(s: Seq<Doc>) -> Seq<DocView>
    decreases s, 1nat,
{
    if s.len() == 0 {
        Seq::empty()
    } else {
        views(s.drop_last()).push(doc_view(s.last()))
    }
}

pub open spec fn doc_view(d: Doc) -> DocView
    decreases d, 0nat,
{
    match d {
        Doc::Text(s) => DocView::Text(s@),
        Doc::Space => DocView::Space,
        Doc::HardLine => DocView::HardLine,
        Doc::LineOrSpace => DocView::LineOrSpace,
        Doc::SoftLine => DocView::SoftLine,
        Doc::List(v) => DocView::List(views(v@)),
        Doc::Group(b) => DocView::Group(Box::new(doc_view(*b))),
        Doc::Nest(n, b) => DocView::Nest(n, Box::new(doc_view(*b))),
    }
}

impl View for Doc {
    type V = DocView;

    open spec fn view(&self) -> DocView {
        doc_view(*self)
    }
}

} // verus!

verus! {

/// What a list is joined with.
#[derive(Clone, Copy, Debug)]
pub enum Separator {
    /// A literal `.`, with no break.
    Dot,
    /// One mandatory space.
    Space,
    /// A literal `,` followed by the break that the policy selects.
    Comma(BlockSelectorLineBreak),
}

/// The break flavour that a line-break policy puts after each comma.
pub open spec fn policy_break(p: BlockSelectorLineBreak) -> DocView {
    match p {
        BlockSelectorLineBreak::Always => DocView::HardLine,
        BlockSelectorLineBreak::Consistent => DocView::LineOrSpace,
        BlockSelectorLineBreak::Wrap => DocView::SoftLine,
    }
}

impl View for Separator {
    type V = DocView;

    open spec fn view(&self) -> DocView {
        match *self {
            Separator::Dot => DocView::Text(seq!['.']),
            Separator::Space => DocView::Space,
            Separator::Comma(p) => DocView::List(seq![DocView::Text(seq![',']), policy_break(p)]),
        }
    }
}

/// `items` with `sep` between each two neighbours, and nowhere else.
pub open spec fn interleave(items: Seq<DocView>, sep: DocView) -> Seq<DocView> {
    Seq::new(
        if items.len() == 0 { 0 } else { (2 * items.len() - 1) as nat },
        |j: int| if j % 2 == 0 { items[j / 2] } else { sep },
    )
}

pub proof fn lemma_views_index(s: Seq<Doc>)
    ensures
        views(s).len() == s.len(),
        forall|i: int| 0 <= i < s.len() ==> #[trigger] views(s)[i] == s[i]@,
    decreases s.len(),
{
    if s.len() > 0 {
        lemma_views_index(s.drop_last());
        assert forall|i: int| 0 <= i < s.len() implies #[trigger] views(s)[i] == s[i]@ by {
            if i < s.len() - 1 {
                assert(s.drop_last()[i] == s[i]);
            }
        }
    }
}

/// The break document of a line-break policy.
pub fn policy_break_doc(p: BlockSelectorLineBreak) -> (r: Doc)
    ensures
        r@ == policy_break(p),
{
    match p {
        BlockSelectorLineBreak::Always => Doc::HardLine,
        BlockSelectorLineBreak::Consistent => Doc::LineOrSpace,
        BlockSelectorLineBreak::Wrap => Doc::SoftLine,
    }
}

/// A literal text document.
pub fn text(s: &str) -> (r: Doc)
    ensures
        r@ == DocView::Text(s@),
{
    Doc::Text(String::from_str(s))
}

/// The document of a separator.
pub fn separator_doc(sep: &Separator) -> (r: Doc)
    ensures
        r@ == sep@,
{
    match *sep {
        Separator::Dot => {
            proof {
                reveal_strlit(".");
                assert(".".view() =~= seq!['.']);
            }
            text(".")
        },
        Separator::Space => Doc::Space,
        Separator::Comma(p) => {
            proof {
                reveal_strlit(",");
                assert(",".view() =~= seq![',']);
            }
            let c = text(",");
            let b = policy_break_doc(p);
            let mut v: Vec<Doc> = Vec::new();
            v.push(c);
            v.push(b);
            proof {
                lemma_views_index(v@);
                assert(views(v@) =~= seq![DocView::Text(seq![',']), policy_break(p)]);
            }
            Doc::List(v)
        },
    }
}

/// Relies on itertools::intersperse_with: the items come out in order, with one
/// separator, made afresh by the closure, between each two neighbours and none
/// at either end.
#[verifier::external_body]
fn intersperse_docs(items: Vec<Doc>, sep: &Separator) -> (r: Vec<Doc>)
    ensures
        r@.len() == (if items@.len() == 0 { 0 } else { 2 * items@.len() - 1 }),
        forall|i: int| 0 <= i < items@.len() ==> #[trigger] r@[2 * i] == items@[i],
        forall|i: int| 0 <= i < items@.len() - 1 ==> (#[trigger] r@[2 * i + 1])@ == sep@,
{
    itertools::intersperse_with(items.into_iter(), || separator_doc(sep)).collect()
}

/// The items joined by `sep`, as one flat list: no group, no indentation.
pub fn join(items: Vec<Doc>, sep: &Separator) -> (r: Doc)
    ensures
        r@ == DocView::List(interleave(views(items@), sep@)),
{
    let ghost old_items = items@;
    let v = intersperse_docs(items, sep);
    proof {
        lemma_views_index(v@);
        lemma_views_index(old_items);
        let n = old_items.len();
        assert forall|j: int| 0 <= j < v@.len() implies #[trigger] views(v@)[j] == interleave(
            views(old_items),
            sep@,
        )[j] by {
            if j % 2 == 0 {
                assert(v@[2 * (j / 2)] == old_items[j / 2]);
            } else {
                assert((v@[2 * (j / 2) + 1])@ == sep@);
            }
        }
        assert(views(v@) =~= interleave(views(old_items), sep@));
    }
    Doc::List(v)
}

} // verus!
