//! Rules of extraction that work on text alone: the identifier in a link, the
//! text of an element, and the value that follows a label.

use crate::dom::{SiblingNode, SiblingView};
use crate::text::{first_occurrence, str_eq, trim, trimmed};
use vstd::prelude::*;
use vstd::string::StringExecFns;

verus! {

/// The path segment that comes before a book's identifier in a link.
pub open spec fn subject_marker() -> Seq<char> {
    seq!['/', 's', 'u', 'b', 'j', 'e', 'c', 't', '/']
}

/// The separator that the source puts between a label and its value.
pub open spec fn bare_separator() -> Seq<char> {
    seq!['|']
}

/// The identifier in a link to a book: what follows the first
/// [`subject_marker`], up to the next `/` or to the end. A link without the
/// marker names no book.
pub open spec fn book_id_of(href: Seq<char>) -> Option<Seq<char>> {
    let at = first_occurrence(href, subject_marker(), 0);
    if at < href.len() {
        let rest = href.subrange(at + subject_marker().len(), href.len() as int);
        Some(rest.subrange(0, first_occurrence(rest, seq!['/'], 0)))
    } else {
        None
    }
}

/// The text of an element: its runs of text, each trimmed, one after the
/// other with nothing between them.
pub open spec fn joined_text(runs: Seq<Seq<char>>) -> Seq<char>
    decreases runs.len(),
{
    if runs.len() == 0 {
        Seq::empty()
    } else {
        joined_text(runs.drop_last()) + trimmed(runs.last())
    }
}

/// The value that follows a label: the first of the following nodes that
/// holds text, trimmed. Text nodes that are blank or hold only the separator
/// are passed over, and so is everything that is neither text nor element. An
/// element ends the walk: it gives its first run of text, trimmed, if that is
/// not blank, and nothing otherwise.
pub open spec fn tail_text(nodes: Seq<SiblingView>) -> Option<Seq<char>>
    decreases nodes.len(),
{
    if nodes.len() == 0 {
        None
    } else {
        match nodes.first() {
            SiblingView::Text(t) => if trimmed(t).len() > 0 && trimmed(t) != bare_separator() {
                Some(trimmed(t))
            } else {
                tail_text(nodes.drop_first())
            },
            SiblingView::Element(Some(t)) => if trimmed(t).len() > 0 {
                Some(trimmed(t))
            } else {
                None
            },
            SiblingView::Element(None) => None,
            SiblingView::Other => tail_text(nodes.drop_first()),
        }
    }
}

/// Joins runs of text, each trimmed, with nothing between them.
pub fn join_trimmed(runs: &Vec<String>) -> (text: String)
    ensures
        text@ == joined_text(runs.deep_view()),
{
    let mut text = String::new();
    let mut i: usize = 0;
    assert(runs.deep_view().subrange(0, 0) =~= Seq::empty());
    while i < runs.len()
        invariant
            i <= runs.len(),
            text@ == joined_text(runs.deep_view().subrange(0, i as int)),
        decreases runs.len() - i,
    {
        let ghost seen = runs.deep_view().subrange(0, i as int);
        let ghost next = runs.deep_view().subrange(0, i + 1);
        assert(next.drop_last() =~= seen);
        assert(next.last() == runs@[i as int]@);
        let piece = trim(runs[i].as_str());
        text.append(piece.as_str());
        i += 1;
    }
    assert(runs.deep_view().subrange(0, runs.len() as int) =~= runs.deep_view());
    text
}

/// The value that follows a label among `nodes`, the nodes after it.
pub fn tail_text_of(nodes: &Vec<SiblingNode>) -> (value: Option<String>)
    ensures
        value.deep_view() == tail_text(nodes.deep_view()),
{
    let separator = "|";
    proof {
        reveal_strlit("|");
        assert(separator@ =~= bare_separator());
    }
    let mut i: usize = 0;
    assert(nodes.deep_view().subrange(0, nodes.len() as int) =~= nodes.deep_view());
    while i < nodes.len()
        invariant
            i <= nodes.len(),
            separator@ == bare_separator(),
            tail_text(nodes.deep_view()) == tail_text(
                nodes.deep_view().subrange(i as int, nodes.len() as int),
            ),
        decreases nodes.len() - i,
    {
        let ghost here = nodes.deep_view().subrange(i as int, nodes.len() as int);
        assert(here.first() == nodes@[i as int]@);
        assert(here.drop_first() =~= nodes.deep_view().subrange(i + 1, nodes.len() as int));
        match &nodes[i] {
            SiblingNode::Text(t) => {
                let value = trim(t.as_str());
                if value.as_str().unicode_len() > 0 && !str_eq(value.as_str(), separator) {
                    return Some(value);
                }
            },
            SiblingNode::Element(first) => {
                match first {
                    Some(t) => {
                        let value = trim(t.as_str());
                        if value.as_str().unicode_len() > 0 {
                            return Some(value);
                        }
                        return None;
                    },
                    None => {
                        return None;
                    },
                }
            },
            SiblingNode::Other => {},
        }
        i += 1;
    }
    None
}

/// A separator between a label and its value is passed over: where the first
/// node after the label holds only the separator and the second holds text
/// that is neither blank nor the separator, the value is that text, trimmed.
pub proof fn lemma_tail_text_skips_separator(separator: Seq<char>, value: Seq<char>)
    requires
        trimmed(separator) == bare_separator(),
        trimmed(value).len() > 0,
        trimmed(value) != bare_separator(),
    ensures
        tail_text(seq![SiblingView::Text(separator), SiblingView::Text(value)]) == Some(
            trimmed(value),
        ),
{
    let nodes = seq![SiblingView::Text(separator), SiblingView::Text(value)];
    let rest = seq![SiblingView::Text(value)];
    assert(nodes.drop_first() =~= rest);
    assert(nodes.first() == SiblingView::Text(separator));
    assert(rest.first() == SiblingView::Text(value));
    assert(tail_text(rest) == Some(trimmed(value)));
    assert(tail_text(nodes) == tail_text(rest));
}

} // verus!
