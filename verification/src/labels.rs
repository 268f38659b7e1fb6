//! The labelled lines of a detail page's info block: what each label
//! announces, and what it sets in the entry that is being read.

use crate::dom::{SiblingNode, SiblingView};
use crate::extract::{join_trimmed, joined_text, tail_text, tail_text_of};
use crate::models::{DoubanBook, DoubanBookView};
use crate::text::{
    chars_of, contains, contains_text, parse_i32, parsed_i32, starts_with, trim, trimmed,
};
use vstd::prelude::*;
use vstd::string::StringExecFns;

verus! {

/// The most characters that an author's name may have: a longer text is
/// taken for something else.
pub const MAX_AUTHOR_NAME_LEN: usize = 100;

/// A link that stands in the same container as the author label.
#[derive(Debug, Clone)]
pub struct LinkCandidate {
    /// Where the link leads, if it says so.
    pub href: Option<String>,
    /// The runs of text inside the link.
    pub runs: Vec<String>,
}

/// The mathematical content of a [`LinkCandidate`].
pub struct LinkView {
    pub href: Option<Seq<char>>,
    pub runs: Seq<Seq<char>>,
}

impl View for LinkCandidate {
    type V = LinkView;

    open spec fn view(&self) -> LinkView {
        LinkView { href: self.href.deep_view(), runs: self.runs.deep_view() }
    }
}

impl DeepView for LinkCandidate {
    type V = LinkView;

    open spec fn deep_view(&self) -> LinkView {
        self@
    }
}

/// One labelled line of a detail page's info block, as the extraction reads
/// it.
#[derive(Debug, Clone)]
pub struct InfoLabel {
    /// The runs of text inside the label element.
    pub runs: Vec<String>,
    /// The nodes that follow the label under the same parent.
    pub siblings: Vec<SiblingNode>,
    /// The links inside the label's parent.
    pub links: Vec<LinkCandidate>,
}

/// The mathematical content of an [`InfoLabel`].
pub struct InfoLabelView {
    pub runs: Seq<Seq<char>>,
    pub siblings: Seq<SiblingView>,
    pub links: Seq<LinkView>,
}

impl View for InfoLabel {
    type V = InfoLabelView;

    open spec fn view(&self) -> InfoLabelView {
        InfoLabelView {
            runs: self.runs.deep_view(),
            siblings: self.siblings.deep_view(),
            links: self.links.deep_view(),
        }
    }
}

impl DeepView for InfoLabel {
    type V = InfoLabelView;

    open spec fn deep_view(&self) -> InfoLabelView {
        self@
    }
}

/// What a label announces.
#[derive(Debug, Clone, Copy, PartialEq, Eq, Structural)]
pub enum LabelKind {
    Author,
    Publisher,
    Subtitle,
    PublishDate,
    Pages,
    Other,
}

/// The word that the label of the authors begins with.
pub open spec fn author_word() -> Seq<char> {
    seq!['作', '者']
}

/// The word that the label of the publisher begins with.
pub open spec fn publisher_word() -> Seq<char> {
    seq!['出', '版', '社']
}

/// The word that the label of the subtitle begins with.
pub open spec fn subtitle_word() -> Seq<char> {
    seq!['副', '标', '题']
}

/// The word that the label of the date of publication begins with.
pub open spec fn publish_date_word() -> Seq<char> {
    seq!['出', '版', '年']
}

/// The word that the label of the page count begins with.
pub open spec fn pages_word() -> Seq<char> {
    seq!['页', '数']
}

/// What the label with the given text announces: it is told by the word that
/// the text begins with.
pub open spec fn label_kind(text: Seq<char>) -> LabelKind {
    if author_word().is_prefix_of(text) {
        LabelKind::Author
    } else if publisher_word().is_prefix_of(text) {
        LabelKind::Publisher
    } else if subtitle_word().is_prefix_of(text) {
        LabelKind::Subtitle
    } else if publish_date_word().is_prefix_of(text) {
        LabelKind::PublishDate
    } else if pages_word().is_prefix_of(text) {
        LabelKind::Pages
    } else {
        LabelKind::Other
    }
}

/// Where a link leads; nowhere where it does not say.
pub open spec fn link_target(link: LinkView) -> Seq<char> {
    match link.href {
        Some(h) => h,
        None => Seq::empty(),
    }
}

/// Whether a link's target is that of an author's page or of a search.
pub open spec fn is_author_target(href: Seq<char>) -> bool {
    contains_text(href, seq!['/', 'a', 'u', 't', 'h', 'o', 'r']) || contains_text(
        href,
        seq!['/', 's', 'e', 'a', 'r', 'c', 'h'],
    )
}

/// Whether a text can be an author's name: it is not empty and has no more
/// than [`MAX_AUTHOR_NAME_LEN`] characters.
pub open spec fn is_plausible_author(name: Seq<char>) -> bool {
    0 < name.len() <= MAX_AUTHOR_NAME_LEN
}

/// Whether a link beside the author label names an author.
pub open spec fn names_author(link: LinkView) -> bool {
    is_author_target(link_target(link)) && is_plausible_author(joined_text(link.runs))
}

/// The authors that the links beside the author label name, in the order of
/// the links.
pub open spec fn author_names(links: Seq<LinkView>) -> Seq<Seq<char>>
    decreases links.len(),
{
    if links.len() == 0 {
        Seq::empty()
    } else if names_author(links.last()) {
        author_names(links.drop_last()).push(joined_text(links.last().runs))
    } else {
        author_names(links.drop_last())
    }
}

/// The entry after one labelled line has been read into it. An author label
/// sets the authors if its links name any; a publisher or date label sets its
/// field to the value that follows it; a subtitle is added to the title after
/// a colon; a page count is set where the value is a number. A label without
/// a value, and any other label, leaves the entry as it was.
pub open spec fn with_label(book: DoubanBookView, label: InfoLabelView) -> DoubanBookView {
    let value = tail_text(label.siblings);
    match label_kind(joined_text(label.runs)) {
        LabelKind::Author => if author_names(label.links).len() > 0 {
            DoubanBookView { author: Some(author_names(label.links)), ..book }
        } else {
            book
        },
        LabelKind::Publisher => if value is Some {
            DoubanBookView { publisher: value, ..book }
        } else {
            book
        },
        LabelKind::Subtitle => if value is Some {
            DoubanBookView { title: book.title + seq![':'] + value->0, ..book }
        } else {
            book
        },
        LabelKind::PublishDate => if value is Some {
            DoubanBookView { pubdate: value, ..book }
        } else {
            book
        },
        LabelKind::Pages => if value is Some && parsed_i32(trimmed(value->0)) is Some {
            DoubanBookView { pages: parsed_i32(trimmed(value->0)), ..book }
        } else {
            book
        },
        LabelKind::Other => book,
    }
}

/// The entry after the labelled lines have been read into it, one after the
/// other.
pub open spec fn with_labels(book: DoubanBookView, labels: Seq<InfoLabelView>) -> DoubanBookView
    decreases labels.len(),
{
    if labels.len() == 0 {
        book
    } else {
        with_label(with_labels(book, labels.drop_last()), labels.last())
    }
}

/// Tells what the label with the given text announces.
pub fn classify_label(text: &str) -> (kind: LabelKind)
    ensures
        kind == label_kind(text@),
{
    proof {
        reveal_strlit("作者");
        reveal_strlit("出版社");
        reveal_strlit("副标题");
        reveal_strlit("出版年");
        reveal_strlit("页数");
        assert("作者"@ =~= author_word());
        assert("出版社"@ =~= publisher_word());
        assert("副标题"@ =~= subtitle_word());
        assert("出版年"@ =~= publish_date_word());
        assert("页数"@ =~= pages_word());
    }
    if starts_with(text, "作者") {
        LabelKind::Author
    } else if starts_with(text, "出版社") {
        LabelKind::Publisher
    } else if starts_with(text, "副标题") {
        LabelKind::Subtitle
    } else if starts_with(text, "出版年") {
        LabelKind::PublishDate
    } else if starts_with(text, "页数") {
        LabelKind::Pages
    } else {
        LabelKind::Other
    }
}

/// Whether `href` leads to an author's page or to a search.
pub fn is_author_link(href: &str) -> (b: bool)
    ensures
        b == is_author_target(href@),
{
    proof {
        reveal_strlit("/author");
        reveal_strlit("/search");
        assert("/author"@ =~= seq!['/', 'a', 'u', 't', 'h', 'o', 'r']);
        assert("/search"@ =~= seq!['/', 's', 'e', 'a', 'r', 'c', 'h']);
    }
    contains(href, "/author") || contains(href, "/search")
}

/// The authors that `links` name: the text of each link that leads to an
/// author's page or to a search, where that text can be a name.
pub fn author_names_from(links: &Vec<LinkCandidate>) -> (names: Vec<String>)
    ensures
        names.deep_view() == author_names(links.deep_view()),
{
    let mut names: Vec<String> = Vec::new();
    let mut i: usize = 0;
    assert(links.deep_view().subrange(0, 0) =~= Seq::empty());
    assert(names.deep_view() =~= Seq::empty());
    while i < links.len()
        invariant
            i <= links.len(),
            names.deep_view() == author_names(links.deep_view().subrange(0, i as int)),
        decreases links.len() - i,
    {
        let ghost before = names.deep_view();
        let ghost seen = links.deep_view().subrange(0, i as int);
        let ghost next = links.deep_view().subrange(0, i + 1);
        assert(next.drop_last() =~= seen);
        assert(next.last() == links@[i as int]@);
        let link = &links[i];
        let target_ok = match &link.href {
            Some(h) => is_author_link(h.as_str()),
            None => is_author_link(""),
        };
        proof {
            reveal_strlit("");
            assert(""@ =~= Seq::<char>::empty());
        }
        if target_ok {
            let name = join_trimmed(&link.runs);
            let len = chars_of(name.as_str()).len();
            if 0 < len && len <= MAX_AUTHOR_NAME_LEN {
                names.push(name);
                assert(names.deep_view() =~= before.push(joined_text(links@[i as int]@.runs)));
            }
        }
        i += 1;
    }
    assert(links.deep_view().subrange(0, links.len() as int) =~= links.deep_view());
    names
}

/// Reads one labelled line into the entry.
pub fn apply_label(book: &mut DoubanBook, label: &InfoLabel)
    ensures
        final(book)@ == with_label(old(book)@, label@),
{
    let text = join_trimmed(&label.runs);
    match classify_label(text.as_str()) {
        LabelKind::Author => {
            let names = author_names_from(&label.links);
            if names.len() > 0 {
                book.author = Some(names);
            }
        },
        LabelKind::Publisher => {
            if let Some(publisher) = tail_text_of(&label.siblings) {
                book.publisher = Some(publisher);
            }
        },
        LabelKind::Subtitle => {
            if let Some(subtitle) = tail_text_of(&label.siblings) {
                proof {
                    reveal_strlit(":");
                    assert(":"@ =~= seq![':']);
                }
                let mut title = String::from_str(book.title.as_str());
                title.append(":");
                title.append(subtitle.as_str());
                book.title = title;
            }
        },
        LabelKind::PublishDate => {
            if let Some(pubdate) = tail_text_of(&label.siblings) {
                book.pubdate = Some(pubdate);
            }
        },
        LabelKind::Pages => {
            if let Some(pages_str) = tail_text_of(&label.siblings) {
                let digits = trim(pages_str.as_str());
                if let Some(pages) = parse_i32(digits.as_str()) {
                    book.pages = Some(pages);
                }
            }
        },
        LabelKind::Other => {},
    }
}

/// A link that leads neither to an author's page nor to a search adds no
/// author, whatever its text; nor does one whose text is empty or has more
/// than [`MAX_AUTHOR_NAME_LEN`] characters.
pub proof fn lemma_rejected_link_adds_no_author(links: Seq<LinkView>, link: LinkView)
    requires
        !is_author_target(link_target(link)) || joined_text(link.runs).len() == 0 || joined_text(
            link.runs,
        ).len() > MAX_AUTHOR_NAME_LEN,
    ensures
        author_names(links.push(link)) == author_names(links),
{
    let all = links.push(link);
    assert(all.last() == link);
    assert(all.drop_last() =~= links);
}

/// Every author that is read is the text of a link that leads to an author's
/// page or to a search, and that text is neither empty nor longer than
/// [`MAX_AUTHOR_NAME_LEN`] characters.
pub proof fn lemma_authors_come_from_author_links(links: Seq<LinkView>, k: int)
    requires
        0 <= k < author_names(links).len(),
    ensures
        is_plausible_author(author_names(links)[k]),
        exists|i: int|
            0 <= i < links.len() && is_author_target(link_target(#[trigger] links[i]))
                && author_names(links)[k] == joined_text(links[i].runs),
    decreases links.len(),
{
    let before = links.drop_last();
    if names_author(links.last()) && k == author_names(before).len() {
        assert(author_names(links)[k] == joined_text(links[links.len() - 1].runs));
    } else {
        lemma_authors_come_from_author_links(before, k);
        let i = choose|i: int|
            0 <= i < before.len() && is_author_target(link_target(#[trigger] before[i]))
                && author_names(before)[k] == joined_text(before[i].runs);
        assert(links[i] == before[i]);
    }
}

} // verus!
