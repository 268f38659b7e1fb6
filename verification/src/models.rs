//! The entry as it is read from the source, the canonical record that callers
//! receive, and the mathematical content of each.

use vstd::prelude::*;

verus! {

/// One catalog entry as it is read from the source, field by field, before
/// anything is normalized.
#[derive(Debug, Clone)]
pub struct DoubanBook {
    pub id: String,
    pub title: String,
    pub image: Option<String>,
    pub author: Option<Vec<String>>,
    pub publisher: Option<String>,
    pub pubdate: Option<String>,
    pub pages: Option<i32>,
    pub summary: Option<String>,
}

/// The mathematical content of a [`DoubanBook`].
pub struct DoubanBookView {
    pub id: Seq<char>,
    pub title: Seq<char>,
    pub image: Option<Seq<char>>,
    pub author: Option<Seq<Seq<char>>>,
    pub publisher: Option<Seq<char>>,
    pub pubdate: Option<Seq<char>>,
    pub pages: Option<i32>,
    pub summary: Option<Seq<char>>,
}

impl View for DoubanBook {
    type V = DoubanBookView;

    open spec fn view(&self) -> DoubanBookView {
        DoubanBookView {
            id: self.id@,
            title: self.title@,
            image: self.image.deep_view(),
            author: self.author.deep_view(),
            publisher: self.publisher.deep_view(),
            pubdate: self.pubdate.deep_view(),
            pages: self.pages,
            summary: self.summary.deep_view(),
        }
    }
}

impl DeepView for DoubanBook {
    type V = DoubanBookView;

    open spec fn deep_view(&self) -> DoubanBookView {
        self@
    }
}

impl DoubanBookView {
    /// The entry that holds an identifier and nothing else.
    pub open spec fn blank(id: Seq<char>) -> DoubanBookView {
        DoubanBookView {
            id,
            title: Seq::empty(),
            image: None,
            author: None,
            publisher: None,
            pubdate: None,
            pages: None,
            summary: None,
        }
    }
}

impl DoubanBook {
    /// An entry with the given identifier and every other field absent.
    pub fn blank(id: String) -> (book: DoubanBook)
        ensures
            book@ == DoubanBookView::blank(id@),
    {
        DoubanBook {
            id,
            title: String::new(),
            image: None,
            author: None,
            publisher: None,
            pubdate: None,
            pages: None,
            summary: None,
        }
    }
}

/// Someone who took part in a work, by name, with the part they took.
#[derive(Debug, Clone)]
pub struct MetadataFreeCreator {
    pub name: String,
    pub role: String,
}

/// The mathematical content of a [`MetadataFreeCreator`].
pub struct CreatorView {
    pub name: Seq<char>,
    pub role: Seq<char>,
}

impl View for MetadataFreeCreator {
    type V = CreatorView;

    open spec fn view(&self) -> CreatorView {
        CreatorView { name: self.name@, role: self.role@ }
    }
}

impl DeepView for MetadataFreeCreator {
    type V = CreatorView;

    open spec fn deep_view(&self) -> CreatorView {
        self@
    }
}

/// A person known to the source by an identifier, with the part they took in
/// a work.
#[derive(Debug, Clone)]
pub struct PartialMetadataPerson {
    pub identifier: String,
    pub role: String,
}

/// The mathematical content of a [`PartialMetadataPerson`].
pub struct PersonRefView {
    pub identifier: Seq<char>,
    pub role: Seq<char>,
}

impl View for PartialMetadataPerson {
    type V = PersonRefView;

    open spec fn view(&self) -> PersonRefView {
        PersonRefView { identifier: self.identifier@, role: self.role@ }
    }
}

impl DeepView for PartialMetadataPerson {
    type V = PersonRefView;

    open spec fn deep_view(&self) -> PersonRefView {
        self@
    }
}

/// The canonical record of one book: what callers receive, whatever the
/// source page looked like.
#[derive(Debug, Clone)]
pub struct MetadataDetails {
    pub title: String,
    pub description: Option<String>,
    pub genres: Vec<String>,
    pub creators: Vec<MetadataFreeCreator>,
    pub people: Vec<PartialMetadataPerson>,
    pub publish_year: Option<i32>,
    pub pages: Option<i32>,
    pub remote_images: Vec<String>,
    pub source_url: Option<String>,
}

/// The mathematical content of a [`MetadataDetails`].
pub struct MetadataDetailsView {
    pub title: Seq<char>,
    pub description: Option<Seq<char>>,
    pub genres: Seq<Seq<char>>,
    pub creators: Seq<CreatorView>,
    pub people: Seq<PersonRefView>,
    pub publish_year: Option<i32>,
    pub pages: Option<i32>,
    pub remote_images: Seq<Seq<char>>,
    pub source_url: Option<Seq<char>>,
}

impl View for MetadataDetails {
    type V = MetadataDetailsView;

    open spec fn view(&self) -> MetadataDetailsView {
        MetadataDetailsView {
            title: self.title@,
            description: self.description.deep_view(),
            genres: self.genres.deep_view(),
            creators: self.creators.deep_view(),
            people: self.people.deep_view(),
            publish_year: self.publish_year,
            pages: self.pages,
            remote_images: self.remote_images.deep_view(),
            source_url: self.source_url.deep_view(),
        }
    }
}

/// One line of a search result: the part of a canonical record that a listing
/// shows.
#[derive(Debug, Clone)]
pub struct MetadataSearchItem {
    pub identifier: String,
    pub title: String,
    pub image: Option<String>,
    pub publish_year: Option<i32>,
}

/// The mathematical content of a [`MetadataSearchItem`].
pub struct SearchItemView {
    pub identifier: Seq<char>,
    pub title: Seq<char>,
    pub image: Option<Seq<char>>,
    pub publish_year: Option<i32>,
}

impl View for MetadataSearchItem {
    type V = SearchItemView;

    open spec fn view(&self) -> SearchItemView {
        SearchItemView {
            identifier: self.identifier@,
            title: self.title@,
            image: self.image.deep_view(),
            publish_year: self.publish_year,
        }
    }
}

impl DeepView for MetadataSearchItem {
    type V = SearchItemView;

    open spec fn deep_view(&self) -> SearchItemView {
        self@
    }
}

/// One line of a search for people.
#[derive(Debug, Clone)]
pub struct PeopleSearchItem {
    pub identifier: String,
    pub name: String,
    pub birth_year: Option<i32>,
}

/// The mathematical content of a [`PeopleSearchItem`].
pub struct PeopleItemView {
    pub identifier: Seq<char>,
    pub name: Seq<char>,
    pub birth_year: Option<i32>,
}

impl View for PeopleSearchItem {
    type V = PeopleItemView;

    open spec fn view(&self) -> PeopleItemView {
        PeopleItemView {
            identifier: self.identifier@,
            name: self.name@,
            birth_year: self.birth_year,
        }
    }
}

impl DeepView for PeopleSearchItem {
    type V = PeopleItemView;

    open spec fn deep_view(&self) -> PeopleItemView {
        self@
    }
}

/// What the source tells about a person.
#[derive(Debug, Clone)]
pub struct PersonDetails {
    pub name: String,
    pub description: Option<String>,
    pub remote_images: Vec<String>,
    pub source_url: Option<String>,
}

/// The mathematical content of a [`PersonDetails`].
pub struct PersonDetailsView {
    pub name: Seq<char>,
    pub description: Option<Seq<char>>,
    pub remote_images: Seq<Seq<char>>,
    pub source_url: Option<Seq<char>>,
}

impl View for PersonDetails {
    type V = PersonDetailsView;

    open spec fn view(&self) -> PersonDetailsView {
        PersonDetailsView {
            name: self.name@,
            description: self.description.deep_view(),
            remote_images: self.remote_images.deep_view(),
            source_url: self.source_url.deep_view(),
        }
    }
}

} // verus!
