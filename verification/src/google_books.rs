//! The provider that reads the catalog's pages: the addresses to ask for, and
//! what is made of the pages that come back.

use crate::dom::{
    following_siblings, parse_document, parsed_document, siblings_after, texts, texts_of,
};
use crate::errors::{FetchError, ProviderError};
use crate::extract::{
    book_id_of, join_trimmed, joined_text, subject_marker, tail_text, tail_text_of,
};
use crate::fetch::{FetchState, MAX_ATTEMPTS};
use crate::labels::with_labels;
use crate::mapper::{
    details_of, douban_book_to_metadata_details, search_item, search_item_of, source_url,
    source_url_of,
};
use crate::models::{
    DoubanBook, DoubanBookView, MetadataDetails, MetadataSearchItem, SearchItemView,
};
use crate::normalize::{percent_encoded, url_encode};
use crate::page::{
    apply_labels, book_of_candidate, book_of_page, books_of, is_valid_candidate, labels_of, page_of,
    read_candidates, read_labels, read_page, search_candidates, DetailPage, ImageFacts, SearchCandidate,
    SearchCandidateView, MIN_SUMMARY_LEN,
};
use crate::pagination::{
    next_page_of, page_offset, search_start, SearchDetails, SearchResults, PAGE_SIZE,
};
use crate::retry::{FetchAction, FetchEvent, FetchPhase, FetchRun};
use crate::text::{
    chars_of, decimal_text, find_from, format_decimal, lemma_first_occurrence, slice_chars, trim,
};
use vstd::prelude::*;
use vstd::string::{StrSliceExecFns, StringExecFns};
use vstd::utf8::encode_utf8;

verus! {

/// The provider that reads the catalog's pages.
#[derive(Debug, Clone, Copy)]
pub struct GoogleBooksService {
    /// What the fetcher remembers between requests.
    pub fetch_state: FetchState,
}

/// Whether nothing at all could be made of a detail page: it was asked for
/// without an identifier and gives no title.
pub open spec fn is_total_failure(identifier: Seq<char>, book: DoubanBookView) -> bool {
    identifier.len() == 0 && book.title.len() == 0
}

/// The address of the listing for `query`, at the page asked for: the query
/// percent-encoded, the offset of the page in base ten.
pub open spec fn search_url_of(page: u64, query: Seq<char>) -> Seq<char> {
    "https://search.douban.com/book/subject_search?search_text="@ + percent_encoded(
        encode_utf8(query),
    ) + "&start="@ + decimal_text(
        (page_offset(page as int, PAGE_SIZE as int) % 0x1_0000_0000) as nat,
    )
}

/// Whether `items` and `details` are the result of a search that was asked
/// for `page` and got the listing `html`: the items are the lines for the
/// entries of the listing, in their order; the total is their number; and a
/// next page is named exactly when the pages up to this one do not reach the
/// total.
pub open spec fn results_of_listing(
    page: u64,
    html: Seq<char>,
    items: Seq<SearchItemView>,
    details: SearchDetails,
) -> bool {
    &&& items == books_of(search_candidates(&parsed_document(html))).map_values(
        |book: DoubanBookView| search_item_of(book),
    )
    &&& details.total_items == items.len()
    &&& details.next_page == next_page_of(page, PAGE_SIZE, details.total_items)
}

/// The identifier of the first of `books`, if there is one.
pub open spec fn first_id(books: Seq<DoubanBookView>) -> Option<Seq<char>> {
    if books.len() > 0 {
        Some(books[0].id)
    } else {
        None
    }
}

/// The lines that a search shows for `books`.
pub fn search_items(books: &Vec<DoubanBook>) -> (items: Vec<MetadataSearchItem>)
    ensures
        items.len() == books.len(),
        items.deep_view() == books.deep_view().map_values(
            |book: DoubanBookView| search_item_of(book),
        ),
{
    let ghost wanted = books.deep_view().map_values(|book: DoubanBookView| search_item_of(book));
    let mut items: Vec<MetadataSearchItem> = Vec::new();
    let mut i: usize = 0;
    assert(items.deep_view() =~= wanted.subrange(0, 0));
    while i < books.len()
        invariant
            i <= books.len(),
            wanted == books.deep_view().map_values(|book: DoubanBookView| search_item_of(book)),
            items.deep_view() == wanted.subrange(0, i as int),
        decreases books.len() - i,
    {
        let ghost before = items.deep_view();
        let item = search_item(&books[i]);
        items.push(item);
        assert(items.deep_view() =~= before.push(search_item_of(books@[i as int]@)));
        assert(items.deep_view() =~= wanted.subrange(0, i + 1));
        i += 1;
    }
    assert(wanted.subrange(0, books.len() as int) =~= wanted);
    assert(items.deep_view().len() == items.len());
    items
}

impl GoogleBooksService {
    /// A provider whose fetcher is made at `now_ms` on the caller's clock.
    pub fn new(now_ms: u64) -> (service: GoogleBooksService)
        ensures
            service.fetch_state == FetchState::new_spec(now_ms),
    {
        GoogleBooksService { fetch_state: FetchState::new(now_ms) }
    }

    /// A fetch through this provider that has not begun: it may make
    /// [`MAX_ATTEMPTS`] attempts.
    pub fn begin_fetch(&self) -> (run: FetchRun)
        ensures
            run == (FetchRun {
                phase: FetchPhase::Idle,
                attempt: 0,
                max_attempts: MAX_ATTEMPTS,
                due_ms: 0,
            }),
    {
        FetchRun::new(MAX_ATTEMPTS)
    }

    /// Takes one step of a fetch through this provider: takes in what
    /// happened, says what to do next, and keeps the fetcher's state.
    pub fn fetch_step(&mut self, run: &mut FetchRun, event: FetchEvent) -> (action: FetchAction)
        ensures
            *final(run) == old(run).next(old(self).fetch_state, event).run,
            final(self).fetch_state == old(run).next(old(self).fetch_state, event).shared,
            action == old(run).next(old(self).fetch_state, event).action,
    {
        run.step(&mut self.fetch_state, event)
    }

    /// The identifier of the book that `href` links to, if it links to one.
    pub fn extract_book_id(&self, href: &str) -> (id: Option<String>)
        ensures
            id.deep_view() == book_id_of(href@),
    {
        let chars = chars_of(href);
        let marker = chars_of("/subject/");
        let slash = chars_of("/");
        proof {
            reveal_strlit("/subject/");
            reveal_strlit("/");
            assert(marker@ =~= subject_marker());
            assert(slash@ =~= seq!['/']);
            lemma_first_occurrence(href@, subject_marker(), 0);
        }
        let at = find_from(&chars, &marker, 0);
        if at >= chars.len() {
            return None;
        }
        let rest = slice_chars(href, at + marker.len(), chars.len());
        let rest_chars = chars_of(rest.as_str());
        let end = find_from(&rest_chars, &slash, 0);
        Some(slice_chars(rest.as_str(), 0, end))
    }
    /// The text of an element: its runs of text, each trimmed, joined.
    pub fn get_element_text(&self, element: &scraper::ElementRef) -> (text: String)
        ensures
            text@ == joined_text(texts_of(*element)),
    {
        let runs = texts(element);
        join_trimmed(&runs)
    }

    /// The value that follows a label element.
    pub fn get_tail_text(&self, element: &scraper::ElementRef) -> (value: Option<String>)
        ensures
            value.deep_view() == tail_text(siblings_after(*element)),
    {
        let nodes = following_siblings(element);
        tail_text_of(&nodes)
    }

    /// The entry that a link of a listing makes; none where the link names no
    /// book or the identifier or the title is empty.
    pub fn book_from_candidate(&self, candidate: &SearchCandidate) -> (book: Option<DoubanBook>)
        ensures
            book is Some <==> is_valid_candidate(candidate@),
            book is Some ==> book->0@ == book_of_candidate(candidate@),
    {
        let id = match &candidate.href {
            Some(href) => self.extract_book_id(href.as_str()),
            None => None,
        };
        match id {
            Some(id) => {
                let title = match &candidate.image {
                    Some(ImageFacts { alt: Some(alt), .. }) => trim(alt.as_str()),
                    _ => String::new(),
                };
                if id.as_str().unicode_len() > 0 && title.as_str().unicode_len() > 0 {
                    let mut book = DoubanBook::blank(id);
                    book.title = title;
                    book.image = match &candidate.image {
                        Some(image) => image.src.clone(),
                        None => None,
                    };
                    Some(book)
                } else {
                    None
                }
            },
            None => None,
        }
    }

    /// The entries that the valid ones among `candidates` make.
    pub fn books_from_candidates(&self, candidates: &Vec<SearchCandidate>) -> (books: Vec<
        DoubanBook,
    >)
        ensures
            books.deep_view() == books_of(candidates.deep_view()),
    {
        let mut books: Vec<DoubanBook> = Vec::new();
        let mut i: usize = 0;
        assert(candidates.deep_view().subrange(0, 0) =~= Seq::<SearchCandidateView>::empty());
        assert(books.deep_view() =~= Seq::<DoubanBookView>::empty());
        while i < candidates.len()
            invariant
                i <= candidates.len(),
                books.deep_view() == books_of(candidates.deep_view().subrange(0, i as int)),
            decreases candidates.len() - i,
        {
            let ghost before = books.deep_view();
            let ghost seen = candidates.deep_view().subrange(0, i as int);
            let ghost next = candidates.deep_view().subrange(0, i + 1);
            assert(next.drop_last() =~= seen);
            assert(next.last() == candidates@[i as int]@);
            if let Some(book) = self.book_from_candidate(&candidates[i]) {
                books.push(book);
                assert(books.deep_view() =~= before.push(book_of_candidate(candidates@[i as int]@)));
            }
            i += 1;
        }
        assert(candidates.deep_view().subrange(0, candidates.len() as int)
            =~= candidates.deep_view());
        books
    }

    /// The entries of a listing, with their number.
    pub fn parse_search_results(&self, html_content: &str) -> (found: (Vec<DoubanBook>, u64))
        ensures
            found.0.deep_view() == books_of(search_candidates(&parsed_document(html_content@))),
            found.1 == found.0.len(),
    {
        let document = parse_document(html_content);
        let candidates = read_candidates(&document);
        let books = self.books_from_candidates(&candidates);
        let count = books.len() as u64;
        (books, count)
    }

    /// Reads the labelled lines of a detail page into the entry.
    pub fn parse_book_info(&self, document: &scraper::Html, book: &mut DoubanBook)
        ensures
            final(book)@ == with_labels(old(book)@, labels_of(document)),
    {
        let labels = read_labels(document);
        apply_labels(book, &labels);
    }

    /// The entry that a detail page gives for the book with the given
    /// identifier.
    pub fn book_from_page(&self, page: &DetailPage, identifier: &str) -> (book: DoubanBook)
        ensures
            book@ == book_of_page(page@, identifier@),
    {
        let mut book = DoubanBook::blank(identifier.to_owned());
        book.title = page.title.clone();
        book.image = page.cover.clone();
        apply_labels(&mut book, &page.labels);
        book.summary = match &page.summary {
            Some(s) => if s.as_str().unicode_len() >= MIN_SUMMARY_LEN {
                Some(s.clone())
            } else {
                None
            },
            None => None,
        };
        book
    }

    /// The canonical record that a detail page gives for the book with the
    /// given identifier. Fields that the page lacks are absent from the
    /// record; only a page that gives no title, asked for without an
    /// identifier, is an error.
    pub fn parse_book_details(&self, html_content: &str, identifier: &str) -> (details: Result<
        MetadataDetails,
        ProviderError,
    >)
        ensures
            ({
                let book = book_of_page(page_of(&parsed_document(html_content@)), identifier@);
                match details {
                    Ok(d) => !is_total_failure(identifier@, book) && d@ == details_of(
                        book,
                        identifier@,
                    ),
                    Err(e) => is_total_failure(identifier@, book) && e == ProviderError::NotFound,
                }
            }),
    {
        let document = parse_document(html_content);
        let page = read_page(&document);
        let book = self.book_from_page(&page, identifier);
        if identifier.unicode_len() == 0 && book.title.as_str().unicode_len() == 0 {
            Err(ProviderError::NotFound)
        } else {
            Ok(douban_book_to_metadata_details(book, identifier.to_owned()))
        }
    }

    /// The address of the detail page for the book with the given identifier.
    pub fn metadata_details_url(&self, identifier: &str) -> (url: String)
        ensures
            url@ == source_url_of(identifier@),
    {
        source_url(identifier)
    }

    /// The canonical record for the book with the given identifier, from what
    /// the fetch of its detail page came to. A fetch that failed is reported
    /// as it is; a page that was fetched gives what
    /// [`GoogleBooksService::parse_book_details`] makes of it.
    pub fn metadata_details(&self, fetched: &Result<String, FetchError>, identifier: &str) -> (details:
        Result<MetadataDetails, ProviderError>)
        ensures
            match *fetched {
                Ok(html) => ({
                    let book = book_of_page(page_of(&parsed_document(html@)), identifier@);
                    match details {
                        Ok(d) => !is_total_failure(identifier@, book) && d@ == details_of(
                            book,
                            identifier@,
                        ),
                        Err(e) => is_total_failure(identifier@, book) && e
                            == ProviderError::NotFound,
                    }
                }),
                Err(failure) => details is Err && details->Err_0 == ProviderError::Fetch(failure),
            },
    {
        match fetched {
            Ok(html) => self.parse_book_details(html.as_str(), identifier),
            Err(failure) => Err(ProviderError::Fetch(*failure)),
        }
    }

    /// The address of the listing for `query`, at the page asked for.
    pub fn metadata_search_url(&self, page: u64, query: &str) -> (url: String)
        ensures
            url@ == search_url_of(page, query@),
    {
        let start = search_start(page);
        let mut url = String::from_str(
            "https://search.douban.com/book/subject_search?search_text=",
        );
        url.append(url_encode(query).as_str());
        url.append("&start=");
        url.append(format_decimal(start as u64).as_str());
        assert(url@ =~= search_url_of(page, query@));
        url
    }

    /// The lines of a search, from the listing as it was fetched, with the
    /// number of entries found and the page to ask for next. A listing
    /// without entries gives an empty result, not an error.
    pub fn search_results(&self, page: u64, html_content: &str) -> (results: SearchResults<
        MetadataSearchItem,
    >)
        ensures
            results_of_listing(page, html_content@, results.items.deep_view(), results.details),
    {
        let (books, total) = self.parse_search_results(html_content);
        let items = search_items(&books);
        SearchResults { items, details: SearchDetails::for_page(page, total) }
    }

    /// The result of a search, from what the fetch of the listing came to. A
    /// fetch that failed is reported as it is; a listing that was fetched
    /// gives what [`GoogleBooksService::search_results`] makes of it.
    pub fn metadata_search(&self, page: u64, fetched: &Result<String, FetchError>) -> (results:
        Result<SearchResults<MetadataSearchItem>, ProviderError>)
        ensures
            match *fetched {
                Ok(html) => results is Ok && results_of_listing(
                    page,
                    html@,
                    results->Ok_0.items.deep_view(),
                    results->Ok_0.details,
                ),
                Err(failure) => results is Err && results->Err_0 == ProviderError::Fetch(failure),
            },
    {
        match fetched {
            Ok(html) => Ok(self.search_results(page, html.as_str())),
            Err(failure) => Err(ProviderError::Fetch(*failure)),
        }
    }

    /// The address of the listing that is asked for a book by its ISBN.
    pub fn id_from_isbn_url(&self, isbn: &str) -> (url: String)
        ensures
            url@ == "https://search.douban.com/book/subject_search?search_text="@ + isbn@,
    {
        let mut url = String::from_str(
            "https://search.douban.com/book/subject_search?search_text=",
        );
        url.append(isbn);
        url
    }

    /// The identifier of the first entry of the listing that was fetched for
    /// an ISBN. A fetch that failed, and a listing without entries, give none.
    pub fn id_from_isbn(&self, fetched: &Result<String, FetchError>) -> (id: Option<String>)
        ensures
            id.deep_view() == match *fetched {
                Ok(html) => first_id(books_of(search_candidates(&parsed_document(html@)))),
                Err(_) => None,
            },
    {
        match fetched {
            Ok(html) => {
                let (books, _) = self.parse_search_results(html.as_str());
                if books.len() > 0 {
                    assert(books.deep_view()[0] == books@[0]@);
                    Some(books[0].id.clone())
                } else {
                    None
                }
            },
            Err(_) => None,
        }
    }
}

} // verus!
