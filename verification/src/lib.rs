//! Book metadata from the Douban catalog: fetching under a rate limit with
//! retries, extraction from pages whose markup varies, and normalization into
//! one canonical record.
//!
//! The library decides and computes; it sends nothing. A caller performs the
//! requests that [`retry::FetchRun`] asks for and hands the bodies to the
//! providers in [`google_books`] and [`openlibrary`].

pub mod dom;
pub mod errors;
pub mod extract;
pub mod fetch;
pub mod google_books;
pub mod labels;
pub mod mapper;
pub mod models;
pub mod normalize;
pub mod openlibrary;
pub mod page;
pub mod pagination;
pub mod retry;
pub mod text;
