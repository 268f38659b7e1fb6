//! From an entry as it was read to the canonical record and to the line of a
//! search.

use crate::models::{
    CreatorView, DoubanBook, DoubanBookView, MetadataDetails, MetadataDetailsView,
    MetadataFreeCreator, MetadataSearchItem, SearchItemView,
};
use crate::normalize::{publish_year, year_of_optional};
use vstd::prelude::*;
use vstd::string::StringExecFns;

verus! {

/// The role of someone who wrote a book.
pub open spec fn author_role() -> Seq<char> {
    seq!['A', 'u', 't', 'h', 'o', 'r']
}

/// The role of the house that published a book.
pub open spec fn publisher_role() -> Seq<char> {
    seq!['P', 'u', 'b', 'l', 'i', 's', 'h', 'e', 'r']
}

/// The address of the catalog's page for the book with the given identifier.
pub open spec fn source_url_of(identifier: Seq<char>) -> Seq<char> {
    "https://book.douban.com/subject/"@ + identifier + "/"@
}

/// The creators of a book: each author in turn, then the publisher if there
/// is one.
pub open spec fn creators_of(
    authors: Option<Seq<Seq<char>>>,
    publisher: Option<Seq<char>>,
) -> Seq<CreatorView> {
    let names = match authors {
        Some(a) => a,
        None => Seq::empty(),
    };
    let written = names.map_values(|name: Seq<char>| CreatorView { name, role: author_role() });
    match publisher {
        Some(p) => written.push(CreatorView { name: p, role: publisher_role() }),
        None => written,
    }
}

/// The remote images of a book: its cover, where it has one.
pub open spec fn images_of(image: Option<Seq<char>>) -> Seq<Seq<char>> {
    match image {
        Some(i) => seq![i],
        None => Seq::empty(),
    }
}

/// The canonical record for an entry read from the catalog's pages.
pub open spec fn details_of(book: DoubanBookView, identifier: Seq<char>) -> MetadataDetailsView {
    MetadataDetailsView {
        title: book.title,
        description: book.summary,
        genres: Seq::empty(),
        creators: creators_of(book.author, book.publisher),
        people: Seq::empty(),
        publish_year: year_of_optional(book.pubdate),
        pages: book.pages,
        remote_images: images_of(book.image),
        source_url: Some(source_url_of(identifier)),
    }
}

/// The line that a listing shows for an entry.
pub open spec fn search_item_of(book: DoubanBookView) -> SearchItemView {
    SearchItemView {
        identifier: book.id,
        title: book.title,
        image: book.image,
        publish_year: year_of_optional(book.pubdate),
    }
}

/// The address of the catalog's page for the book with the given identifier.
pub fn source_url(identifier: &str) -> (url: String)
    ensures
        url@ == source_url_of(identifier@),
{
    let mut url = String::from_str("https://book.douban.com/subject/");
    url.append(identifier);
    url.append("/");
    assert(url@ =~= source_url_of(identifier@));
    url
}

/// The remote images of a book: its cover, where it has one.
pub fn remote_images(image: &Option<String>) -> (images: Vec<String>)
    ensures
        images.deep_view() == images_of(image.deep_view()),
{
    let mut images: Vec<String> = Vec::new();
    match image {
        Some(address) => {
            images.push(address.clone());
            assert(images.deep_view() =~= seq![address@]);
        },
        None => {
            assert(images.deep_view() =~= Seq::<Seq<char>>::empty());
        },
    }
    images
}

/// The creators of a book, authors first and the publisher last.
pub fn assemble_creators(authors: Option<Vec<String>>, publisher: Option<String>) -> (creators:
    Vec<MetadataFreeCreator>)
    ensures
        creators.deep_view() == creators_of(authors.deep_view(), publisher.deep_view()),
{
    proof {
        reveal_strlit("Author");
        reveal_strlit("Publisher");
        assert("Author"@ =~= author_role());
        assert("Publisher"@ =~= publisher_role());
    }
    let names: Vec<String> = match authors {
        Some(a) => a,
        None => Vec::new(),
    };
    let ghost wanted = names.deep_view().map_values(
        |name: Seq<char>| CreatorView { name, role: author_role() },
    );
    let mut creators: Vec<MetadataFreeCreator> = Vec::new();
    let mut i: usize = 0;
    assert(creators.deep_view() =~= wanted.subrange(0, 0));
    while i < names.len()
        invariant
            i <= names.len(),
            "Author"@ == author_role(),
            wanted == names.deep_view().map_values(
                |name: Seq<char>| CreatorView { name, role: author_role() },
            ),
            creators.deep_view() == wanted.subrange(0, i as int),
        decreases names.len() - i,
    {
        let ghost before = creators.deep_view();
        let creator = MetadataFreeCreator {
            name: names[i].clone(),
            role: String::from_str("Author"),
        };
        creators.push(creator);
        assert(creators.deep_view() =~= before.push(
            CreatorView { name: names@[i as int]@, role: author_role() },
        ));
        assert(wanted[i as int] == CreatorView {
            name: names.deep_view()[i as int],
            role: author_role(),
        });
        assert(creators.deep_view() =~= wanted.subrange(0, i + 1));
        i += 1;
    }
    assert(wanted.subrange(0, names.len() as int) =~= wanted);
    match publisher {
        Some(p) => {
            let ghost before = creators.deep_view();
            let ghost name = p@;
            creators.push(MetadataFreeCreator { name: p, role: String::from_str("Publisher") });
            assert(creators.deep_view() =~= before.push(
                CreatorView { name, role: publisher_role() },
            ));
        },
        None => {},
    }
    creators
}

/// Turns an entry read from the catalog's pages into its canonical record.
pub fn douban_book_to_metadata_details(book: DoubanBook, identifier: String) -> (details:
    MetadataDetails)
    ensures
        details@ == details_of(book@, identifier@),
{
    let year = publish_year(&book.pubdate);
    let remote_images = remote_images(&book.image);
    let creators = assemble_creators(book.author, book.publisher);
    let genres: Vec<String> = Vec::new();
    let people: Vec<crate::models::PartialMetadataPerson> = Vec::new();
    assert(genres.deep_view() =~= Seq::<Seq<char>>::empty());
    assert(people.deep_view() =~= Seq::<crate::models::PersonRefView>::empty());
    MetadataDetails {
        title: book.title,
        description: book.summary,
        genres,
        creators,
        people,
        publish_year: year,
        pages: book.pages,
        remote_images,
        source_url: Some(source_url(identifier.as_str())),
    }
}

/// Turns an entry read from a listing into the line that a search shows.
pub fn search_item(book: &DoubanBook) -> (item: MetadataSearchItem)
    ensures
        item@ == search_item_of(book@),
{
    MetadataSearchItem {
        identifier: book.id.clone(),
        title: book.title.clone(),
        image: book.image.clone(),
        publish_year: publish_year(&book.pubdate),
    }
}

/// The creators of a book are its authors, in their order and each with the
/// role of author, and after them its publisher, with the role of publisher,
/// if it has one.
pub proof fn lemma_creators_are_authors_then_publisher(
    authors: Seq<Seq<char>>,
    publisher: Option<Seq<char>>,
)
    ensures
        creators_of(Some(authors), publisher).len() == authors.len() + if publisher is Some {
            1int
        } else {
            0int
        },
        forall|i: int|
            0 <= i < authors.len() ==> (#[trigger] creators_of(Some(authors), publisher)[i])
                == (CreatorView { name: authors[i], role: author_role() }),
        publisher is Some ==> creators_of(Some(authors), publisher).last() == (CreatorView {
            name: publisher->0,
            role: publisher_role(),
        }),
        creators_of(None, publisher) == creators_of(Some(Seq::empty()), publisher),
{
    assert(Seq::<Seq<char>>::empty().map_values(
        |name: Seq<char>| CreatorView { name, role: author_role() },
    ) =~= Seq::<CreatorView>::empty());
}

} // verus!
