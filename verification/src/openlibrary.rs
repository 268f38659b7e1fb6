//! The provider that asks the catalog's structured interface: the addresses
//! to ask for, and what is made of the answers once they are read.

use itertools::Itertools;
use crate::errors::ProviderError;
use crate::google_books::search_items;
use crate::mapper::{
    author_role, images_of, remote_images, search_item_of, source_url, source_url_of,
};
use crate::models::{
    DoubanBook, DoubanBookView, MetadataDetails, MetadataDetailsView, MetadataSearchItem,
    PartialMetadataPerson, PeopleItemView, PeopleSearchItem, PersonDetails, PersonDetailsView,
    PersonRefView,
};
use crate::normalize::{normalize_genres, normalized_genres, publish_year, year_of_optional};
use crate::pagination::{
    api_start, next_page_of, page_offset, SearchDetails, SearchResults, PAGE_SIZE,
};
use crate::text::{decimal_text, format_decimal};
use vstd::prelude::*;
use vstd::string::StringExecFns;

verus! {

/// Where the catalog's structured interface is found.
pub const URL: &'static str = "https://api.douban.com";

/// Where the catalog's images are found.
pub const IMAGE_BASE_URL: &'static str = "https://img1.doubanio.com";

/// The provider that asks the catalog's structured interface.
#[derive(Debug, Clone)]
pub struct OpenlibraryService {
    /// Where images are found.
    pub image_url: String,
    /// The size in which covers are wanted.
    pub image_size: String,
}

/// Whether one of `items` has the given identifier.
pub open spec fn identifier_seen(items: Seq<PeopleItemView>, identifier: Seq<char>) -> bool {
    exists|i: int| 0 <= i < items.len() && (#[trigger] items[i]).identifier == identifier
}

/// `items` without those whose identifier an earlier item has. What stays
/// keeps its order.
pub open spec fn first_by_identifier(items: Seq<PeopleItemView>) -> Seq<PeopleItemView>
    decreases items.len(),
{
    if items.len() == 0 {
        Seq::empty()
    } else if identifier_seen(items.drop_last(), items.last().identifier) {
        first_by_identifier(items.drop_last())
    } else {
        first_by_identifier(items.drop_last()).push(items.last())
    }
}

/// `Itertools::unique_by`, keyed by the identifier and run to its end: of the
/// items that share an identifier the first stays, and what stays keeps its
/// order.
#[verifier::external_body]
pub(crate) fn unique_people(items: Vec<PeopleSearchItem>) -> (kept: Vec<PeopleSearchItem>)
    ensures
        kept.deep_view() == first_by_identifier(items.deep_view()),
{
    items.into_iter().unique_by(|item| item.identifier.clone()).collect()
}

/// Whether a book names at least one author.
pub open spec fn has_author(book: DoubanBookView) -> bool {
    book.author is Some && book.author->0.len() > 0
}

/// The person that a book's first author is.
pub open spec fn first_author_of(book: DoubanBookView) -> PeopleItemView {
    PeopleItemView {
        identifier: book.author->0[0],
        name: book.author->0[0],
        birth_year: None,
    }
}

/// The first author of each of `books` that names one, in the order of the
/// books.
pub open spec fn first_authors(books: Seq<DoubanBookView>) -> Seq<PeopleItemView>
    decreases books.len(),
{
    if books.len() == 0 {
        Seq::empty()
    } else if has_author(books.last()) {
        first_authors(books.drop_last()).push(first_author_of(books.last()))
    } else {
        first_authors(books.drop_last())
    }
}

/// The people with the part of author, one for each name.
pub open spec fn authors_as_people(authors: Option<Seq<Seq<char>>>) -> Seq<PersonRefView> {
    match authors {
        Some(names) => names.map_values(
            |name: Seq<char>| PersonRefView { identifier: name, role: author_role() },
        ),
        None => Seq::empty(),
    }
}

/// The canonical record for a book that the structured interface described,
/// with the names of its tags.
pub open spec fn api_details_of(
    book: DoubanBookView,
    tags: Seq<Seq<char>>,
    identifier: Seq<char>,
) -> MetadataDetailsView {
    MetadataDetailsView {
        title: book.title,
        description: book.summary,
        genres: normalized_genres(tags),
        creators: Seq::empty(),
        people: authors_as_people(book.author),
        publish_year: year_of_optional(book.pubdate),
        pages: book.pages,
        remote_images: images_of(book.image),
        source_url: Some(source_url_of(identifier)),
    }
}

/// What the source tells about the author with the given name, taken from the
/// first of that author's books.
pub open spec fn person_of(book: DoubanBookView, identifier: Seq<char>) -> PersonDetailsView {
    PersonDetailsView {
        name: identifier,
        description: book.summary,
        remote_images: images_of(book.image),
        source_url: Some("https://book.douban.com/author/"@ + identifier + "/"@),
    }
}

/// The address that is asked for a book by its ISBN.
pub open spec fn isbn_url_of(isbn: Seq<char>) -> Seq<char> {
    "https://api.douban.com"@ + "/book/search?q="@ + isbn + "&count=1"@
}

/// The address that is asked for the books of an author.
pub open spec fn person_url_of(identifier: Seq<char>) -> Seq<char> {
    "https://api.douban.com"@ + "/book/search?q=author:"@ + identifier + "&count=1"@
}

/// The address that is asked for a book by its identifier.
pub open spec fn details_url_of(identifier: Seq<char>) -> Seq<char> {
    "https://api.douban.com"@ + "/book/"@ + identifier
}

/// What ends the address of a search: the number of entries wanted and the
/// offset of the page.
pub open spec fn paging_of(page: u64) -> Seq<char> {
    "&count="@ + decimal_text(PAGE_SIZE as nat) + "&start="@ + decimal_text(
        (page_offset(page as int, PAGE_SIZE as int) % 0x1_0000_0000_0000_0000) as nat,
    )
}

/// The address that is asked for the books that match `query`.
pub open spec fn search_url_of(page: u64, query: Seq<char>) -> Seq<char> {
    "https://api.douban.com"@ + "/book/search?q="@ + query + paging_of(page)
}

/// The address that is asked for the authors that match `query`.
pub open spec fn people_url_of(page: u64, query: Seq<char>) -> Seq<char> {
    "https://api.douban.com"@ + "/book/search?q=author:"@ + query + paging_of(page)
}

/// What ends the address of a search for the given page.
fn paging(page: u64) -> (text: String)
    ensures
        text@ == paging_of(page),
{
    let mut text = String::from_str("&count=");
    text.append(format_decimal(PAGE_SIZE).as_str());
    text.append("&start=");
    text.append(format_decimal(api_start(page)).as_str());
    assert(text@ =~= paging_of(page));
    text
}

/// The first author of each of `books` that names one.
pub fn first_authors_of(books: &Vec<DoubanBook>) -> (people: Vec<PeopleSearchItem>)
    ensures
        people.deep_view() == first_authors(books.deep_view()),
{
    let mut people: Vec<PeopleSearchItem> = Vec::new();
    let mut i: usize = 0;
    assert(books.deep_view().subrange(0, 0) =~= Seq::<DoubanBookView>::empty());
    assert(people.deep_view() =~= Seq::<PeopleItemView>::empty());
    while i < books.len()
        invariant
            i <= books.len(),
            people.deep_view() == first_authors(books.deep_view().subrange(0, i as int)),
        decreases books.len() - i,
    {
        let ghost before = people.deep_view();
        let ghost seen = books.deep_view().subrange(0, i as int);
        let ghost next = books.deep_view().subrange(0, i + 1);
        assert(next.drop_last() =~= seen);
        assert(next.last() == books@[i as int]@);
        if let Some(authors) = &books[i].author {
            if authors.len() > 0 {
                assert(authors.deep_view()[0] == authors@[0]@);
                let person = PeopleSearchItem {
                    identifier: authors[0].clone(),
                    name: authors[0].clone(),
                    birth_year: None,
                };
                people.push(person);
                assert(people.deep_view() =~= before.push(first_author_of(books@[i as int]@)));
            }
        }
        i += 1;
    }
    assert(books.deep_view().subrange(0, books.len() as int) =~= books.deep_view());
    people
}

/// The people with the part of author, one for each name.
pub fn people_from_authors(authors: &Option<Vec<String>>) -> (people: Vec<PartialMetadataPerson>)
    ensures
        people.deep_view() == authors_as_people(authors.deep_view()),
{
    proof {
        reveal_strlit("Author");
        assert("Author"@ =~= author_role());
    }
    let mut people: Vec<PartialMetadataPerson> = Vec::new();
    match authors {
        Some(names) => {
            let ghost wanted = names.deep_view().map_values(
                |name: Seq<char>| PersonRefView { identifier: name, role: author_role() },
            );
            let mut i: usize = 0;
            assert(people.deep_view() =~= wanted.subrange(0, 0));
            while i < names.len()
                invariant
                    i <= names.len(),
                    "Author"@ == author_role(),
                    wanted == names.deep_view().map_values(
                        |name: Seq<char>| PersonRefView { identifier: name, role: author_role() },
                    ),
                    people.deep_view() == wanted.subrange(0, i as int),
                decreases names.len() - i,
            {
                let ghost before = people.deep_view();
                people.push(
                    PartialMetadataPerson {
                        identifier: names[i].clone(),
                        role: String::from_str("Author"),
                    },
                );
                assert(people.deep_view() =~= before.push(
                    PersonRefView { identifier: names@[i as int]@, role: author_role() },
                ));
                assert(wanted[i as int] == PersonRefView {
                    identifier: names.deep_view()[i as int],
                    role: author_role(),
                });
                assert(people.deep_view() =~= wanted.subrange(0, i + 1));
                i += 1;
            }
            assert(wanted.subrange(0, names.len() as int) =~= wanted);
        },
        None => {
            assert(people.deep_view() =~= Seq::<PersonRefView>::empty());
        },
    }
    people
}

impl OpenlibraryService {
    /// A provider that wants covers in the given size.
    pub fn new(image_size: String) -> (service: OpenlibraryService)
        ensures
            service.image_url@ == IMAGE_BASE_URL@,
            service.image_size@ == image_size@,
    {
        OpenlibraryService { image_url: String::from_str(IMAGE_BASE_URL), image_size }
    }

    /// The address of a book's cover: the one that the source gave.
    pub fn get_book_cover_image_url(&self, image_url: &str) -> (url: String)
        ensures
            url@ == image_url@,
    {
        String::from_str(image_url)
    }

    /// The address of an author's picture: the one that the source gave.
    pub fn get_author_cover_image_url(&self, image_url: &str) -> (url: String)
        ensures
            url@ == image_url@,
    {
        String::from_str(image_url)
    }

    /// The address of a cover by kind and number: the source has none, so the
    /// empty text.
    pub fn get_cover_image_url(&self, _t: &str, _c: i64) -> (url: String)
        ensures
            url@ == Seq::<char>::empty(),
    {
        String::new()
    }

    /// The address that is asked for a book by its ISBN.
    pub fn id_from_isbn_url(&self, isbn: &str) -> (url: String)
        ensures
            url@ == isbn_url_of(isbn@),
    {
        let mut url = String::from_str(URL);
        url.append("/book/search?q=");
        url.append(isbn);
        url.append("&count=1");
        assert(url@ =~= isbn_url_of(isbn@));
        url
    }

    /// The identifier of the last of the books that were found for an ISBN.
    /// An answer that did not come, or came without books, gives none.
    pub fn id_from_isbn(&self, books: &Option<Vec<DoubanBook>>) -> (id: Option<String>)
        ensures
            id.deep_view() == match books.deep_view() {
                Some(found) => if found.len() > 0 {
                    Some(found.last().id)
                } else {
                    None
                },
                None => None,
            },
    {
        match books {
            Some(found) => if found.len() > 0 {
                assert(found.deep_view().last() == found@[found.len() - 1]@);
                Some(found[found.len() - 1].id.clone())
            } else {
                None
            },
            None => None,
        }
    }

    /// The address that is asked for the authors that match `query`.
    pub fn people_search_url(&self, page: u64, query: &str) -> (url: String)
        ensures
            url@ == people_url_of(page, query@),
    {
        let mut url = String::from_str(URL);
        url.append("/book/search?q=author:");
        url.append(query);
        url.append(paging(page).as_str());
        assert(url@ =~= people_url_of(page, query@));
        url
    }

    /// The authors of the books that a search found: the first author of each
    /// book, every name once, with the number of entries that the source
    /// reported and the page to ask for next.
    pub fn people_search(&self, page: u64, books: &Vec<DoubanBook>, total: u64) -> (results:
        SearchResults<PeopleSearchItem>)
        ensures
            results.items.deep_view() == first_by_identifier(first_authors(books.deep_view())),
            results.details == (SearchDetails {
                total_items: total,
                next_page: next_page_of(page, PAGE_SIZE, total),
            }),
    {
        let items = unique_people(first_authors_of(books));
        SearchResults { items, details: SearchDetails::for_page(page, total) }
    }

    /// The address that is asked for the books of an author.
    pub fn person_details_url(&self, identifier: &str) -> (url: String)
        ensures
            url@ == person_url_of(identifier@),
    {
        let mut url = String::from_str(URL);
        url.append("/book/search?q=author:");
        url.append(identifier);
        url.append("&count=1");
        assert(url@ =~= person_url_of(identifier@));
        url
    }

    /// What the source tells about an author, from the books that were found
    /// for the name. Where none was found the author is unknown.
    pub fn person_details(&self, identifier: &str, books: &Vec<DoubanBook>) -> (details: Result<
        PersonDetails,
        ProviderError,
    >)
        ensures
            match details {
                Ok(d) => books.len() > 0 && d@ == person_of(books@[0]@, identifier@),
                Err(e) => books.len() == 0 && e == ProviderError::NotFound,
            },
    {
        if books.len() == 0 {
            return Err(ProviderError::NotFound);
        }
        let book = &books[0];
        let mut url = String::from_str("https://book.douban.com/author/");
        url.append(identifier);
        url.append("/");
        Ok(
            PersonDetails {
                name: String::from_str(identifier),
                description: book.summary.clone(),
                remote_images: remote_images(&book.image),
                source_url: Some(url),
            },
        )
    }

    /// The address that is asked for a book by its identifier.
    pub fn metadata_details_url(&self, identifier: &str) -> (url: String)
        ensures
            url@ == details_url_of(identifier@),
    {
        let mut url = String::from_str(URL);
        url.append("/book/");
        url.append(identifier);
        assert(url@ =~= details_url_of(identifier@));
        url
    }

    /// The canonical record for a book that the structured interface
    /// described, with the names of its tags.
    pub fn metadata_details(&self, identifier: &str, book: &DoubanBook, tags: &Vec<String>) -> (details:
        MetadataDetails)
        ensures
            details@ == api_details_of(book@, tags.deep_view(), identifier@),
    {
        let creators: Vec<crate::models::MetadataFreeCreator> = Vec::new();
        assert(creators.deep_view() =~= Seq::<crate::models::CreatorView>::empty());
        MetadataDetails {
            title: book.title.clone(),
            description: book.summary.clone(),
            genres: normalize_genres(tags),
            creators,
            people: people_from_authors(&book.author),
            publish_year: publish_year(&book.pubdate),
            pages: book.pages,
            remote_images: remote_images(&book.image),
            source_url: Some(source_url(identifier)),
        }
    }

    /// The address that is asked for the books that match `query`.
    pub fn metadata_search_url(&self, page: u64, query: &str) -> (url: String)
        ensures
            url@ == search_url_of(page, query@),
    {
        let mut url = String::from_str(URL);
        url.append("/book/search?q=");
        url.append(query);
        url.append(paging(page).as_str());
        assert(url@ =~= search_url_of(page, query@));
        url
    }

    /// The lines that a search shows for the books that were found, with the
    /// number of entries that the source reported and the page to ask for
    /// next.
    pub fn metadata_search(&self, page: u64, books: &Vec<DoubanBook>, total: u64) -> (results:
        SearchResults<MetadataSearchItem>)
        ensures
            results.items.deep_view() == books.deep_view().map_values(
                |book: DoubanBookView| search_item_of(book),
            ),
            results.details == (SearchDetails {
                total_items: total,
                next_page: next_page_of(page, PAGE_SIZE, total),
            }),
    {
        SearchResults { items: search_items(books), details: SearchDetails::for_page(page, total) }
    }
}

} // verus!
