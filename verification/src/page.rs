//! A listing and a detail page as plain values, how they are read from a
//! parsed document, and the entries that they give.

use crate::dom::{
    attribute, attribute_of, document_matches, element_matches, following_siblings, inner_html,
    inner_html_of, parent_element, parent_of, parse_selector, parsed_selector, select_in_document,
    select_in_element, siblings_after, texts, texts_of,
};
use crate::extract::book_id_of;
use crate::labels::{apply_label, with_labels, InfoLabel, InfoLabelView, LinkCandidate, LinkView};
use crate::models::{DoubanBook, DoubanBookView};
use crate::normalize::{decode_entities, entities_decoded};
use crate::text::{trim, trimmed};
use vstd::prelude::*;
use vstd::string::StrSliceExecFns;

verus! {

/// The fewest characters that a summary may have: a shorter text is taken
/// for noise.
pub const MIN_SUMMARY_LEN: usize = 10;

/// In how many ways a title is looked for.
pub const TITLE_WAYS: usize = 2;

/// An image, as the extraction reads it.
#[derive(Debug, Clone)]
pub struct ImageFacts {
    /// The alternative text of the image, if it has one.
    pub alt: Option<String>,
    /// The address of the image, if it gives one.
    pub src: Option<String>,
}

/// The mathematical content of an [`ImageFacts`].
pub struct ImageView {
    pub alt: Option<Seq<char>>,
    pub src: Option<Seq<char>>,
}

impl View for ImageFacts {
    type V = ImageView;

    open spec fn view(&self) -> ImageView {
        ImageView { alt: self.alt.deep_view(), src: self.src.deep_view() }
    }
}

impl DeepView for ImageFacts {
    type V = ImageView;

    open spec fn deep_view(&self) -> ImageView {
        self@
    }
}

/// A link to a book in a listing, as the extraction reads it.
#[derive(Debug, Clone)]
pub struct SearchCandidate {
    /// Where the link leads, if it says so.
    pub href: Option<String>,
    /// The first image inside the link, if it holds one.
    pub image: Option<ImageFacts>,
}

/// The mathematical content of a [`SearchCandidate`].
pub struct SearchCandidateView {
    pub href: Option<Seq<char>>,
    pub image: Option<ImageView>,
}

impl View for SearchCandidate {
    type V = SearchCandidateView;

    open spec fn view(&self) -> SearchCandidateView {
        SearchCandidateView { href: self.href.deep_view(), image: self.image.deep_view() }
    }
}

impl DeepView for SearchCandidate {
    type V = SearchCandidateView;

    open spec fn deep_view(&self) -> SearchCandidateView {
        self@
    }
}

/// The title that a candidate's image gives: its alternative text, trimmed.
pub open spec fn candidate_title(candidate: SearchCandidateView) -> Seq<char> {
    match candidate.image {
        Some(ImageView { alt: Some(alt), .. }) => trimmed(alt),
        _ => Seq::empty(),
    }
}

/// The cover that a candidate's image gives: its address.
pub open spec fn candidate_cover(candidate: SearchCandidateView) -> Option<Seq<char>> {
    match candidate.image {
        Some(image) => image.src,
        None => None,
    }
}

/// The identifier that a candidate's link gives.
pub open spec fn candidate_id(candidate: SearchCandidateView) -> Option<Seq<char>> {
    match candidate.href {
        Some(href) => book_id_of(href),
        None => None,
    }
}

/// Whether a candidate makes an entry: its link names a book, and neither the
/// identifier nor the title is empty.
pub open spec fn is_valid_candidate(candidate: SearchCandidateView) -> bool {
    &&& candidate_id(candidate) is Some
    &&& candidate_id(candidate)->0.len() > 0
    &&& candidate_title(candidate).len() > 0
}

/// The entry that a valid candidate makes.
pub open spec fn book_of_candidate(candidate: SearchCandidateView) -> DoubanBookView {
    DoubanBookView {
        title: candidate_title(candidate),
        image: candidate_cover(candidate),
        ..DoubanBookView::blank(candidate_id(candidate)->0)
    }
}

/// The entries that the valid ones among `candidates` make, in their order.
pub open spec fn books_of(candidates: Seq<SearchCandidateView>) -> Seq<DoubanBookView>
    decreases candidates.len(),
{
    if candidates.len() == 0 {
        Seq::empty()
    } else if is_valid_candidate(candidates.last()) {
        books_of(candidates.drop_last()).push(book_of_candidate(candidates.last()))
    } else {
        books_of(candidates.drop_last())
    }
}

/// What the extraction reads of an image element.
pub open spec fn image_of(element: scraper::ElementRef) -> ImageView {
    ImageView { alt: attribute_of(element, "alt"@), src: attribute_of(element, "src"@) }
}

/// What the extraction reads of the first image inside `element`.
pub open spec fn first_image_of(element: scraper::ElementRef) -> Option<ImageView> {
    match parsed_selector("img"@) {
        Some(selector) => if element_matches(element, selector).len() > 0 {
            Some(image_of(element_matches(element, selector).first()))
        } else {
            None
        },
        None => None,
    }
}

/// What the extraction reads of a link of a listing.
pub open spec fn candidate_of(element: scraper::ElementRef) -> SearchCandidateView {
    SearchCandidateView { href: attribute_of(element, "href"@), image: first_image_of(element) }
}

/// The elements of `document` that the selector written as `selector` matches;
/// none where that is no selector.
pub open spec fn matches_of(document: &scraper::Html, selector: Seq<char>) -> Seq<
    scraper::ElementRef<'_>,
> {
    match parsed_selector(selector) {
        Some(s) => document_matches(document, s),
        None => Seq::empty(),
    }
}

/// The links to books in a listing.
pub open spec fn search_candidates(document: &scraper::Html) -> Seq<SearchCandidateView> {
    matches_of(document, "a.nbg"@).map_values(|e: scraper::ElementRef| candidate_of(e))
}

/// What the extraction reads of a link beside the author label.
pub open spec fn link_of(element: scraper::ElementRef) -> LinkView {
    LinkView { href: attribute_of(element, "href"@), runs: texts_of(element) }
}

/// The links inside the parent of `element`; none where it has no parent
/// element.
pub open spec fn links_beside(element: scraper::ElementRef) -> Seq<LinkView> {
    match (parent_of(element), parsed_selector("a"@)) {
        (Some(parent), Some(selector)) => element_matches(parent, selector).map_values(
            |e: scraper::ElementRef| link_of(e),
        ),
        _ => Seq::empty(),
    }
}

/// What the extraction reads of a label element.
pub open spec fn label_of(element: scraper::ElementRef) -> InfoLabelView {
    InfoLabelView {
        runs: texts_of(element),
        siblings: siblings_after(element),
        links: links_beside(element),
    }
}

/// The labelled lines of a detail page, in the order in which they are read.
pub open spec fn labels_of(document: &scraper::Html) -> Seq<InfoLabelView> {
    matches_of(document, "span.pl"@).map_values(|e: scraper::ElementRef| label_of(e))
}

/// What stands inside the first element that `selector` matches.
pub open spec fn first_inner_html(document: &scraper::Html, selector: Seq<char>) -> Option<
    Seq<char>,
> {
    if matches_of(document, selector).len() > 0 {
        Some(inner_html_of(matches_of(document, selector).first()))
    } else {
        None
    }
}

/// What stands inside the last element that `selector` matches.
pub open spec fn last_inner_html(document: &scraper::Html, selector: Seq<char>) -> Option<
    Seq<char>,
> {
    if matches_of(document, selector).len() > 0 {
        Some(inner_html_of(matches_of(document, selector).last()))
    } else {
        None
    }
}

/// The address of a detail page's cover: that of the first image in the first
/// cover link.
pub open spec fn cover_of(document: &scraper::Html) -> Option<Seq<char>> {
    if matches_of(document, "a.nbg"@).len() > 0 {
        candidate_cover(candidate_of(matches_of(document, "a.nbg"@).first()))
    } else {
        None
    }
}

/// A detail page, as the extraction reads it.
#[derive(Debug, Clone)]
pub struct DetailPage {
    /// The title: what the first way of finding it that succeeded gave, with
    /// character references decoded and trimmed, and the empty text where
    /// none did.
    pub title: String,
    /// The address of the cover.
    pub cover: Option<String>,
    /// The labelled lines of the info block.
    pub labels: Vec<InfoLabel>,
    /// The full description, with character references decoded.
    pub summary: Option<String>,
}

/// The mathematical content of a [`DetailPage`].
pub struct DetailPageView {
    pub title: Seq<char>,
    pub cover: Option<Seq<char>>,
    pub labels: Seq<InfoLabelView>,
    pub summary: Option<Seq<char>>,
}

impl View for DetailPage {
    type V = DetailPageView;

    open spec fn view(&self) -> DetailPageView {
        DetailPageView {
            title: self.title@,
            cover: self.cover.deep_view(),
            labels: self.labels.deep_view(),
            summary: self.summary.deep_view(),
        }
    }
}

/// The first of `candidates` that is there and not blank, trimmed; the empty
/// text where there is none.
pub open spec fn first_filled(candidates: Seq<Option<Seq<char>>>) -> Seq<char>
    decreases candidates.len(),
{
    if candidates.len() == 0 {
        Seq::empty()
    } else if candidates.first() is Some && trimmed(candidates.first()->0).len() > 0 {
        trimmed(candidates.first()->0)
    } else {
        first_filled(candidates.drop_first())
    }
}

/// The selector of the given way of finding a title. The ways are tried in
/// the order of their numbers: first the element that is marked as the name
/// of what the page reviews, then the heading.
pub open spec fn title_selector_text(way: int) -> Seq<char> {
    if way == 0 {
        "span[property='v:itemreviewed']"@
    } else {
        "h1 span"@
    }
}

/// What stands inside the first element that `selector` matches, with
/// character references decoded.
pub open spec fn first_text(document: &scraper::Html, selector: Seq<char>) -> Option<Seq<char>> {
    match first_inner_html(document, selector) {
        Some(html) => Some(entities_decoded(html)),
        None => None,
    }
}

/// What each way of finding a title gives for `document`, in the order in
/// which the ways are tried.
pub open spec fn title_candidates(document: &scraper::Html) -> Seq<Option<Seq<char>>> {
    Seq::new(TITLE_WAYS as nat, |way: int| first_text(document, title_selector_text(way)))
}

/// The summary that is kept: one of at least [`MIN_SUMMARY_LEN`] characters.
pub open spec fn kept_summary(summary: Option<Seq<char>>) -> Option<Seq<char>> {
    if summary is Some && summary->0.len() >= MIN_SUMMARY_LEN {
        summary
    } else {
        None
    }
}

/// The entry that a detail page gives for the book with the given identifier.
pub open spec fn book_of_page(page: DetailPageView, id: Seq<char>) -> DoubanBookView {
    let start = DoubanBookView {
        title: page.title,
        image: page.cover,
        ..DoubanBookView::blank(id)
    };
    DoubanBookView { summary: kept_summary(page.summary), ..with_labels(start, page.labels) }
}

/// What the extraction reads of a detail page.
pub open spec fn page_of(document: &scraper::Html) -> DetailPageView {
    DetailPageView {
        title: first_filled(title_candidates(document)),
        cover: cover_of(document),
        labels: labels_of(document),
        summary: match last_inner_html(document, "div#link-report div.intro"@) {
            Some(html) => Some(entities_decoded(html)),
            None => None,
        },
    }
}

/// The elements of `document` that the selector written as `selector`
/// matches.
fn select_all<'a>(document: &'a scraper::Html, selector: &str) -> (found: Vec<
    scraper::ElementRef<'a>,
>)
    ensures
        found@ == matches_of(document, selector@),
{
    match parse_selector(selector) {
        Some(s) => select_in_document(document, &s),
        None => Vec::new(),
    }
}

/// Reads a link of a listing.
fn read_candidate(element: &scraper::ElementRef) -> (candidate: SearchCandidate)
    ensures
        candidate@ == candidate_of(*element),
{
    let href = attribute(element, "href");
    let image = match parse_selector("img") {
        Some(s) => {
            let images = select_in_element(element, &s);
            if images.len() > 0 {
                Some(
                    ImageFacts {
                        alt: attribute(&images[0], "alt"),
                        src: attribute(&images[0], "src"),
                    },
                )
            } else {
                None
            }
        },
        None => None,
    };
    SearchCandidate { href, image }
}

/// Reads a link beside the author label.
fn read_link(element: &scraper::ElementRef) -> (link: LinkCandidate)
    ensures
        link@ == link_of(*element),
{
    LinkCandidate { href: attribute(element, "href"), runs: texts(element) }
}

/// Reads the links inside the parent of `element`.
fn read_links(element: &scraper::ElementRef) -> (links: Vec<LinkCandidate>)
    ensures
        links.deep_view() == links_beside(*element),
{
    let mut links: Vec<LinkCandidate> = Vec::new();
    assert(links.deep_view() =~= Seq::<LinkView>::empty());
    if let Some(parent) = parent_element(element) {
        if let Some(selector) = parse_selector("a") {
            let anchors = select_in_element(&parent, &selector);
            let ghost wanted = anchors@.map_values(|e: scraper::ElementRef| link_of(e));
            let mut i: usize = 0;
            while i < anchors.len()
                invariant
                    i <= anchors.len(),
                    wanted == anchors@.map_values(|e: scraper::ElementRef| link_of(e)),
                    links.deep_view() == wanted.subrange(0, i as int),
                decreases anchors.len() - i,
            {
                let ghost before = links.deep_view();
                let link = read_link(&anchors[i]);
                links.push(link);
                assert(links.deep_view() =~= before.push(link_of(anchors@[i as int])));
                assert(links.deep_view() =~= wanted.subrange(0, i + 1));
                i += 1;
            }
            assert(wanted.subrange(0, anchors.len() as int) =~= wanted);
        }
    }
    links
}

/// Reads a label element.
fn read_label(element: &scraper::ElementRef) -> (label: InfoLabel)
    ensures
        label@ == label_of(*element),
{
    InfoLabel {
        runs: texts(element),
        siblings: following_siblings(element),
        links: read_links(element),
    }
}

/// Reads the links to books in a listing.
pub fn read_candidates(document: &scraper::Html) -> (candidates: Vec<SearchCandidate>)
    ensures
        candidates.deep_view() == search_candidates(document),
{
    let found = select_all(document, "a.nbg");
    let ghost wanted = found@.map_values(|e: scraper::ElementRef| candidate_of(e));
    let mut candidates: Vec<SearchCandidate> = Vec::new();
    let mut i: usize = 0;
    assert(candidates.deep_view() =~= wanted.subrange(0, 0));
    while i < found.len()
        invariant
            i <= found.len(),
            wanted == found@.map_values(|e: scraper::ElementRef| candidate_of(e)),
            candidates.deep_view() == wanted.subrange(0, i as int),
        decreases found.len() - i,
    {
        let ghost before = candidates.deep_view();
        let candidate = read_candidate(&found[i]);
        candidates.push(candidate);
        assert(candidates.deep_view() =~= before.push(candidate_of(found@[i as int])));
        assert(candidates.deep_view() =~= wanted.subrange(0, i + 1));
        i += 1;
    }
    assert(wanted.subrange(0, found.len() as int) =~= wanted);
    candidates
}

/// Reads the labelled lines of a detail page.
pub fn read_labels(document: &scraper::Html) -> (labels: Vec<InfoLabel>)
    ensures
        labels.deep_view() == labels_of(document),
{
    let found = select_all(document, "span.pl");
    let ghost wanted = found@.map_values(|e: scraper::ElementRef| label_of(e));
    let mut labels: Vec<InfoLabel> = Vec::new();
    let mut i: usize = 0;
    assert(labels.deep_view() =~= wanted.subrange(0, 0));
    while i < found.len()
        invariant
            i <= found.len(),
            wanted == found@.map_values(|e: scraper::ElementRef| label_of(e)),
            labels.deep_view() == wanted.subrange(0, i as int),
        decreases found.len() - i,
    {
        let ghost before = labels.deep_view();
        let label = read_label(&found[i]);
        labels.push(label);
        assert(labels.deep_view() =~= before.push(label_of(found@[i as int])));
        assert(labels.deep_view() =~= wanted.subrange(0, i + 1));
        i += 1;
    }
    assert(wanted.subrange(0, found.len() as int) =~= wanted);
    labels
}

/// What stands inside the first element that `selector` matches.
fn read_first_inner_html(document: &scraper::Html, selector: &str) -> (html: Option<String>)
    ensures
        html.deep_view() == first_inner_html(document, selector@),
{
    let found = select_all(document, selector);
    if found.len() > 0 {
        Some(inner_html(&found[0]))
    } else {
        None
    }
}

/// What stands inside the last element that `selector` matches.
fn read_last_inner_html(document: &scraper::Html, selector: &str) -> (html: Option<String>)
    ensures
        html.deep_view() == last_inner_html(document, selector@),
{
    let found = select_all(document, selector);
    if found.len() > 0 {
        Some(inner_html(&found[found.len() - 1]))
    } else {
        None
    }
}

/// The selector of the given way of finding a title.
pub fn title_selector(way: usize) -> (selector: &'static str)
    requires
        way < TITLE_WAYS,
    ensures
        selector@ == title_selector_text(way as int),
{
    if way == 0 {
        "span[property='v:itemreviewed']"
    } else {
        "h1 span"
    }
}

/// Reads the title of a detail page: the ways of finding one are tried in
/// order, and the first that gives text that is not blank wins; the ways
/// after it are not tried.
pub fn read_title(document: &scraper::Html) -> (title: String)
    ensures
        title@ == first_filled(title_candidates(document)),
{
    let ghost all = title_candidates(document);
    let mut way: usize = 0;
    assert(all.subrange(0, all.len() as int) =~= all);
    while way < TITLE_WAYS
        invariant
            way <= TITLE_WAYS,
            all == title_candidates(document),
            first_filled(all) == first_filled(all.subrange(way as int, all.len() as int)),
        decreases TITLE_WAYS - way,
    {
        let ghost here = all.subrange(way as int, all.len() as int);
        assert(here.first() == all[way as int]);
        assert(here.drop_first() =~= all.subrange(way + 1, all.len() as int));
        if let Some(html) = read_first_inner_html(document, title_selector(way)) {
            let text = trim(decode_entities(html.as_str()).as_str());
            if text.as_str().unicode_len() > 0 {
                return text;
            }
        }
        way += 1;
    }
    String::new()
}

/// Reads a detail page.
pub fn read_page(document: &scraper::Html) -> (page: DetailPage)
    ensures
        page@ == page_of(document),
{
    let title = read_title(document);
    let covers = select_all(document, "a.nbg");
    let cover = if covers.len() > 0 {
        match read_candidate(&covers[0]).image {
            Some(image) => image.src,
            None => None,
        }
    } else {
        None
    };
    let labels = read_labels(document);
    let summary = match read_last_inner_html(document, "div#link-report div.intro") {
        Some(html) => Some(decode_entities(html.as_str())),
        None => None,
    };
    DetailPage { title, cover, labels, summary }
}

/// The first of `candidates` that is there and not blank, trimmed.
pub fn first_filled_of(candidates: &Vec<Option<String>>) -> (text: String)
    ensures
        text@ == first_filled(candidates.deep_view()),
{
    let mut i: usize = 0;
    assert(candidates.deep_view().subrange(0, candidates.len() as int) =~= candidates.deep_view());
    while i < candidates.len()
        invariant
            i <= candidates.len(),
            first_filled(candidates.deep_view()) == first_filled(
                candidates.deep_view().subrange(i as int, candidates.len() as int),
            ),
        decreases candidates.len() - i,
    {
        let ghost here = candidates.deep_view().subrange(i as int, candidates.len() as int);
        assert(here.first() == candidates@[i as int].deep_view());
        assert(here.drop_first() =~= candidates.deep_view().subrange(
            i + 1,
            candidates.len() as int,
        ));
        if let Some(t) = &candidates[i] {
            let text = trim(t.as_str());
            if text.as_str().unicode_len() > 0 {
                return text;
            }
        }
        i += 1;
    }
    String::new()
}

/// Reads labelled lines into the entry, one after the other.
pub fn apply_labels(book: &mut DoubanBook, labels: &Vec<InfoLabel>)
    ensures
        final(book)@ == with_labels(old(book)@, labels.deep_view()),
{
    let ghost start = book@;
    let mut i: usize = 0;
    assert(labels.deep_view().subrange(0, 0) =~= Seq::<InfoLabelView>::empty());
    while i < labels.len()
        invariant
            i <= labels.len(),
            book@ == with_labels(start, labels.deep_view().subrange(0, i as int)),
        decreases labels.len() - i,
    {
        let ghost seen = labels.deep_view().subrange(0, i as int);
        let ghost next = labels.deep_view().subrange(0, i + 1);
        assert(next.drop_last() =~= seen);
        assert(next.last() == labels@[i as int]@);
        apply_label(book, &labels[i]);
        i += 1;
    }
    assert(labels.deep_view().subrange(0, labels.len() as int) =~= labels.deep_view());
}

/// A listing without a valid candidate gives no entry.
pub proof fn lemma_no_valid_candidate_no_entry(candidates: Seq<SearchCandidateView>)
    requires
        forall|i: int| 0 <= i < candidates.len() ==> !is_valid_candidate(#[trigger] candidates[i]),
    ensures
        books_of(candidates).len() == 0,
    decreases candidates.len(),
{
    if candidates.len() > 0 {
        assert(!is_valid_candidate(candidates[candidates.len() - 1]));
        let before = candidates.drop_last();
        assert forall|i: int| 0 <= i < before.len() implies !is_valid_candidate(
            #[trigger] before[i],
        ) by {
            assert(before[i] == candidates[i]);
        }
        lemma_no_valid_candidate_no_entry(before);
    }
}

/// Every entry of a listing has an identifier and a title, neither of them
/// empty, and holds nothing that a listing does not show.
pub proof fn lemma_entries_are_complete(candidates: Seq<SearchCandidateView>, k: int)
    requires
        0 <= k < books_of(candidates).len(),
    ensures
        books_of(candidates)[k].id.len() > 0,
        books_of(candidates)[k].title.len() > 0,
        books_of(candidates)[k].author is None,
        books_of(candidates)[k].publisher is None,
        books_of(candidates)[k].pubdate is None,
        books_of(candidates)[k].pages is None,
        books_of(candidates)[k].summary is None,
    decreases candidates.len(),
{
    let before = candidates.drop_last();
    if !(is_valid_candidate(candidates.last()) && k == books_of(before).len()) {
        lemma_entries_are_complete(before, k);
    }
}

/// Reading labelled lines changes neither the identifier of the entry, nor
/// its cover, nor its summary.
pub proof fn lemma_labels_keep_what_they_do_not_name(
    book: DoubanBookView,
    labels: Seq<InfoLabelView>,
)
    ensures
        with_labels(book, labels).id == book.id,
        with_labels(book, labels).image == book.image,
        with_labels(book, labels).summary == book.summary,
    decreases labels.len(),
{
    if labels.len() > 0 {
        lemma_labels_keep_what_they_do_not_name(book, labels.drop_last());
    }
}

/// A page that lacks the labelled lines and the summary still gives an entry:
/// it has the identifier that was asked for and the title of the page, and
/// every other field but the cover is absent.
pub proof fn lemma_bare_page_gives_bare_entry(page: DetailPageView, id: Seq<char>)
    requires
        page.labels.len() == 0,
        page.summary is None,
    ensures
        book_of_page(page, id).id == id,
        book_of_page(page, id).title == page.title,
        book_of_page(page, id).image == page.cover,
        book_of_page(page, id).author is None,
        book_of_page(page, id).publisher is None,
        book_of_page(page, id).pubdate is None,
        book_of_page(page, id).pages is None,
        book_of_page(page, id).summary is None,
{
}

/// Whatever a page holds, the entry that it gives has the identifier that was
/// asked for.
pub proof fn lemma_entry_has_the_identifier_asked_for(page: DetailPageView, id: Seq<char>)
    ensures
        book_of_page(page, id).id == id,
{
    let start = DoubanBookView { title: page.title, image: page.cover, ..DoubanBookView::blank(id) };
    lemma_labels_keep_what_they_do_not_name(start, page.labels);
}

} // verus!
