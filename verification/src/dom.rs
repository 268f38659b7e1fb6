//! The HTML parser behind the extraction. Documents, selectors and elements
//! are `scraper`'s own; nothing is known of what is inside them. What the
//! extraction reads of them comes through the functions of this module, each
//! of which makes one kind of call into `scraper` and hands back plain values.
//! What those calls return is not proved here: each result has a name, and the
//! functions only say that they return what the name stands for.

use vstd::prelude::*;

verus! {

/// `scraper::Html`, a parsed document.
#[verifier::external_type_specification]
#[verifier::external_body]
pub struct ExHtml(scraper::Html);

/// `scraper::Selector`, a parsed group of CSS selectors.
#[verifier::external_type_specification]
#[verifier::external_body]
pub struct ExSelector(scraper::Selector);

/// `scraper::ElementRef`, an element of a parsed document.
#[verifier::external_type_specification]
#[verifier::external_body]
pub struct ExElementRef<'a>(scraper::ElementRef<'a>);

/// A node that follows an element among the children of its parent, as far as
/// the extraction reads it.
#[derive(Debug, Clone)]
pub enum SiblingNode {
    /// A run of text, as it stands in the document.
    Text(String),
    /// An element, with the first run of text inside it, if it has any.
    Element(Option<String>),
    /// Anything else: a comment, a doctype, a processing instruction.
    Other,
}

/// The mathematical content of a [`SiblingNode`].
pub enum SiblingView {
    Text(Seq<char>),
    Element(Option<Seq<char>>),
    Other,
}

impl View for SiblingNode {
    type V = SiblingView;

    open spec fn view(&self) -> SiblingView {
        match self {
            SiblingNode::Text(t) => SiblingView::Text(t@),
            SiblingNode::Element(t) => SiblingView::Element(t.deep_view()),
            SiblingNode::Other => SiblingView::Other,
        }
    }
}

impl DeepView for SiblingNode {
    type V = SiblingView;

    open spec fn deep_view(&self) -> SiblingView {
        self@
    }
}

/// The tree that `scraper` builds from a document's text.
pub uninterp spec fn parsed_document(html: Seq<char>) -> scraper::Html;

/// The selector that `scraper` reads from `text`; none where `text` is no
/// selector.
pub uninterp spec fn parsed_selector(text: Seq<char>) -> Option<scraper::Selector>;

/// The elements of `document` that `selector` matches, in the order in which
/// `scraper` hands them out.
pub uninterp spec fn document_matches(
    document: &scraper::Html,
    selector: scraper::Selector,
) -> Seq<scraper::ElementRef<'_>>;

/// The elements below `element` that `selector` matches, in the order in
/// which `scraper` hands them out.
pub uninterp spec fn element_matches(
    element: scraper::ElementRef<'_>,
    selector: scraper::Selector,
) -> Seq<scraper::ElementRef<'_>>;

/// The value of the attribute `name` of `element`; none where it has no such
/// attribute.
pub uninterp spec fn attribute_of(element: scraper::ElementRef, name: Seq<char>) -> Option<
    Seq<char>,
>;

/// What stands inside `element`, written out as HTML again.
pub uninterp spec fn inner_html_of(element: scraper::ElementRef) -> Seq<char>;

/// The runs of text inside `element`, those of nested elements included, in
/// the order in which `scraper` hands them out.
pub uninterp spec fn texts_of(element: scraper::ElementRef) -> Seq<Seq<char>>;

/// The element that holds `element`; none where what holds it is no element.
pub uninterp spec fn parent_of(element: scraper::ElementRef<'_>) -> Option<
    scraper::ElementRef<'_>,
>;

/// The nodes that follow `element` under the same parent, in the order in
/// which `scraper` walks them.
pub uninterp spec fn siblings_after(element: scraper::ElementRef) -> Seq<SiblingView>;

/// `Html::parse_document`: the result is the tree named by
/// [`parsed_document`]. Parsing never fails: broken markup gives some tree.
#[verifier::external_body]
pub(crate) fn parse_document(html: &str) -> (document: scraper::Html)
    ensures
        document == parsed_document(html@),
{
    scraper::Html::parse_document(html)
}

/// `Selector::parse`, with the error dropped: the result is the selector
/// named by [`parsed_selector`].
#[verifier::external_body]
pub(crate) fn parse_selector(text: &str) -> (selector: Option<scraper::Selector>)
    ensures
        selector == parsed_selector(text@),
{
    scraper::Selector::parse(text).ok()
}

/// `Html::select`, run to its end: the elements named by
/// [`document_matches`], in the same order.
#[verifier::external_body]
pub(crate) fn select_in_document<'a>(
    document: &'a scraper::Html,
    selector: &scraper::Selector,
) -> (found: Vec<scraper::ElementRef<'a>>)
    ensures
        found@ == document_matches(document, *selector),
{
    document.select(selector).collect()
}

/// `ElementRef::select`, run to its end: the elements named by
/// [`element_matches`], in the same order.
#[verifier::external_body]
pub(crate) fn select_in_element<'a>(
    element: &scraper::ElementRef<'a>,
    selector: &scraper::Selector,
) -> (found: Vec<scraper::ElementRef<'a>>)
    ensures
        found@ == element_matches(*element, *selector),
{
    element.select(selector).collect()
}

/// `ElementRef::attr`, copied into a `String`: the value named by
/// [`attribute_of`].
#[verifier::external_body]
pub(crate) fn attribute(element: &scraper::ElementRef, name: &str) -> (value: Option<String>)
    ensures
        value.deep_view() == attribute_of(*element, name@),
{
    element.attr(name).map(|value| value.to_string())
}

/// `ElementRef::inner_html`: the text named by [`inner_html_of`].
#[verifier::external_body]
pub(crate) fn inner_html(element: &scraper::ElementRef) -> (html: String)
    ensures
        html@ == inner_html_of(*element),
{
    element.inner_html()
}

/// `ElementRef::text`, run to its end, each run copied into a `String`: the
/// runs named by [`texts_of`], in the same order.
#[verifier::external_body]
pub(crate) fn texts(element: &scraper::ElementRef) -> (runs: Vec<String>)
    ensures
        runs.deep_view() == texts_of(*element),
{
    element.text().map(|run| run.to_string()).collect()
}

/// The parent of the element's node, through `ElementRef::wrap`: the element
/// named by [`parent_of`].
#[verifier::external_body]
pub(crate) fn parent_element<'a>(element: &scraper::ElementRef<'a>) -> (parent: Option<
    scraper::ElementRef<'a>,
>)
    ensures
        parent == parent_of(*element),
{
    element.parent().and_then(scraper::ElementRef::wrap)
}

/// The nodes that `next_siblings` walks from the element's node, each turned
/// into a [`SiblingNode`]: text nodes keep their text, elements keep the first
/// run of `ElementRef::text`, every other kind of node becomes `Other`. They
/// are the nodes named by [`siblings_after`], in the same order.
#[verifier::external_body]
pub(crate) fn following_siblings(element: &scraper::ElementRef) -> (nodes: Vec<SiblingNode>)
    ensures
        nodes.deep_view() == siblings_after(*element),
{
    element.next_siblings().map(|node| match node.value() {
        scraper::Node::Text(text) => SiblingNode::Text(text.to_string()),
        scraper::Node::Element(_) => SiblingNode::Element(
            scraper::ElementRef::wrap(node).and_then(|inner| inner.text().next()).map(
                |run| run.to_string(),
            ),
        ),
        _ => SiblingNode::Other,
    }).collect()
}

} // verus!
