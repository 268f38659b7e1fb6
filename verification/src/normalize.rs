//! Normalization of single fields: the year of a date, the genre list, and
//! the encodings that addresses and descriptions need.

use convert_case::Casing;
use crate::text::{
    chars_of, eq_ignoring_ascii_case, parse_i32, parsed_i32, same_ignoring_ascii_case, slice_chars,
};
use vstd::prelude::*;
use vstd::string::StringSliceAdditionalSpecFns;

verus! {

/// Whether a byte is written as it is in a percent-encoded text: ASCII letters
/// and digits, `-`, `.`, `_` and `~`.
pub open spec fn is_unreserved(b: u8) -> bool {
    (0x30 <= b <= 0x39) || (0x41 <= b <= 0x5A) || (0x61 <= b <= 0x7A) || b == 0x2D || b == 0x2E
        || b == 0x5F || b == 0x7E
}

/// The upper-case hexadecimal digit for `d`, for `d` below sixteen.
pub open spec fn hex_digit(d: int) -> char {
    if d < 10 {
        ((0x30 + d) as u8) as char
    } else {
        ((0x41 + d - 10) as u8) as char
    }
}

/// One byte, percent-encoded: itself where it is unreserved, else `%` and its
/// two hexadecimal digits.
pub open spec fn percent_encoded_byte(b: u8) -> Seq<char> {
    if is_unreserved(b) {
        seq![b as char]
    } else {
        seq!['%', hex_digit(b as int / 16), hex_digit(b as int % 16)]
    }
}

/// A run of bytes, percent-encoded byte by byte.
pub open spec fn percent_encoded(bytes: Seq<u8>) -> Seq<char>
    decreases bytes.len(),
{
    if bytes.len() == 0 {
        Seq::empty()
    } else {
        percent_encoded(bytes.drop_last()) + percent_encoded_byte(bytes.last())
    }
}

/// `text` with its HTML character references decoded, as `html_escape`
/// decodes them.
pub uninterp spec fn entities_decoded(text: Seq<char>) -> Seq<char>;

/// `text` in title case, as `convert_case` writes it.
pub uninterp spec fn title_cased(text: Seq<char>) -> Seq<char>;

/// `urlencoding::encode`: every byte of the UTF-8 form of `text` is kept if it
/// is an ASCII letter or digit or one of `-`, `.`, `_`, `~`, and written as `%`
/// with two upper-case hexadecimal digits otherwise.
#[verifier::external_body]
pub(crate) fn url_encode(text: &str) -> (encoded: String)
    ensures
        encoded@ == percent_encoded(text.spec_bytes()),
{
    urlencoding::encode(text).into_owned()
}

/// `html_escape::decode_html_entities`: the result is the text named by
/// [`entities_decoded`].
#[verifier::external_body]
pub(crate) fn decode_entities(text: &str) -> (decoded: String)
    ensures
        decoded@ == entities_decoded(text@),
{
    html_escape::decode_html_entities(text).into_owned()
}

/// `Casing::to_case` with `Case::Title`: the result is the text named by
/// [`title_cased`].
#[verifier::external_body]
pub(crate) fn title_case(text: &str) -> (titled: String)
    ensures
        titled@ == title_cased(text@),
{
    text.to_case(convert_case::Case::Title)
}

/// The year that a date in the source's own form begins with: its first four
/// characters read as a number. Dates of fewer than four characters, and those
/// that do not begin with a number, have none.
pub open spec fn year_of(date: Seq<char>) -> Option<i32> {
    if date.len() >= 4 {
        parsed_i32(date.subrange(0, 4))
    } else {
        None
    }
}

/// The year that `date_str` begins with, if it begins with one.
pub fn parse_date_to_year(date_str: &str) -> (year: Option<i32>)
    ensures
        year == year_of(date_str@),
{
    let chars = chars_of(date_str);
    if chars.len() >= 4 {
        let head = slice_chars(date_str, 0, 4);
        parse_i32(head.as_str())
    } else {
        None
    }
}

/// The year of an optional date.
pub open spec fn year_of_optional(date: Option<Seq<char>>) -> Option<i32> {
    match date {
        Some(d) => year_of(d),
        None => None,
    }
}

/// The year of an optional date: none where there is no date or it begins
/// with no year.
pub fn publish_year(date: &Option<String>) -> (year: Option<i32>)
    ensures
        year == year_of_optional(date.deep_view()),
{
    match date {
        Some(d) => parse_date_to_year(d.as_str()),
        None => None,
    }
}

/// Whether `name` is already among `kept`, the case of ASCII letters aside.
pub open spec fn genre_known(kept: Seq<Seq<char>>, name: Seq<char>) -> bool {
    exists|i: int| 0 <= i < kept.len() && same_ignoring_ascii_case(#[trigger] kept[i], name)
}

/// `names` with every name dropped that repeats an earlier one, the case of
/// ASCII letters aside. What stays keeps its order.
pub open spec fn distinct_genres(names: Seq<Seq<char>>) -> Seq<Seq<char>>
    decreases names.len(),
{
    if names.len() == 0 {
        Seq::empty()
    } else if genre_known(distinct_genres(names.drop_last()), names.last()) {
        distinct_genres(names.drop_last())
    } else {
        distinct_genres(names.drop_last()).push(names.last())
    }
}

/// The genre list for a list of tag names: each name in title case, repeats
/// dropped.
pub open spec fn normalized_genres(tags: Seq<Seq<char>>) -> Seq<Seq<char>> {
    distinct_genres(tags.map_values(|tag: Seq<char>| title_cased(tag)))
}

/// Whether `name` is already among `kept`, the case of ASCII letters aside.
fn is_known_genre(kept: &Vec<String>, name: &str) -> (known: bool)
    ensures
        known == genre_known(kept.deep_view(), name@),
{
    let mut i: usize = 0;
    while i < kept.len()
        invariant
            i <= kept.len(),
            forall|k: int| 0 <= k < i ==> !same_ignoring_ascii_case(kept.deep_view()[k], name@),
        decreases kept.len() - i,
    {
        if eq_ignoring_ascii_case(kept[i].as_str(), name) {
            assert(kept.deep_view()[i as int] == kept@[i as int]@);
            return true;
        }
        assert(kept.deep_view()[i as int] == kept@[i as int]@);
        i += 1;
    }
    false
}

/// Drops from `names` every name that repeats an earlier one, the case of
/// ASCII letters aside.
pub fn dedup_genres(names: Vec<String>) -> (kept: Vec<String>)
    ensures
        kept.deep_view() == distinct_genres(names.deep_view()),
{
    let mut kept: Vec<String> = Vec::new();
    let mut i: usize = 0;
    assert(names.deep_view().subrange(0, 0) =~= Seq::empty());
    assert(kept.deep_view() =~= Seq::empty());
    while i < names.len()
        invariant
            i <= names.len(),
            kept.deep_view() == distinct_genres(names.deep_view().subrange(0, i as int)),
        decreases names.len() - i,
    {
        let ghost before = kept.deep_view();
        let ghost seen = names.deep_view().subrange(0, i as int);
        let ghost next = names.deep_view().subrange(0, i + 1);
        assert(next.drop_last() =~= seen);
        assert(next.last() == names@[i as int]@);
        if !is_known_genre(&kept, names[i].as_str()) {
            kept.push(names[i].clone());
            assert(kept.deep_view() =~= before.push(names@[i as int]@));
        }
        i += 1;
    }
    assert(names.deep_view().subrange(0, names.len() as int) =~= names.deep_view());
    kept
}

/// The genre list for the given tag names: each in title case, then without
/// repeats.
pub fn normalize_genres(tags: &Vec<String>) -> (genres: Vec<String>)
    ensures
        genres.deep_view() == normalized_genres(tags.deep_view()),
{
    let mut titled: Vec<String> = Vec::new();
    let mut i: usize = 0;
    let ghost wanted = tags.deep_view().map_values(|tag: Seq<char>| title_cased(tag));
    while i < tags.len()
        invariant
            i <= tags.len(),
            wanted == tags.deep_view().map_values(|tag: Seq<char>| title_cased(tag)),
            titled.deep_view() == wanted.subrange(0, i as int),
        decreases tags.len() - i,
    {
        let ghost before = titled.deep_view();
        let name = title_case(tags[i].as_str());
        titled.push(name);
        assert(titled.deep_view() =~= before.push(title_cased(tags@[i as int]@)));
        assert(wanted[i as int] == title_cased(tags.deep_view()[i as int]));
        assert(titled.deep_view() =~= wanted.subrange(0, i + 1));
        i += 1;
    }
    assert(wanted.subrange(0, tags.len() as int) =~= wanted);
    dedup_genres(titled)
}

/// No genre stands twice in a genre list, the case of ASCII letters aside.
pub proof fn lemma_genres_are_distinct(names: Seq<Seq<char>>, i: int, j: int)
    requires
        0 <= i < j < distinct_genres(names).len(),
    ensures
        !same_ignoring_ascii_case(distinct_genres(names)[i], distinct_genres(names)[j]),
    decreases names.len(),
{
    let before = distinct_genres(names.drop_last());
    if genre_known(before, names.last()) || j < before.len() {
        lemma_genres_are_distinct(names.drop_last(), i, j);
    } else {
        assert(distinct_genres(names)[i] == before[i]);
    }
}

/// Every name is in the genre list, if not itself then as an earlier name
/// that is the same but for the case of ASCII letters.
pub proof fn lemma_genres_cover_every_name(names: Seq<Seq<char>>, k: int)
    requires
        0 <= k < names.len(),
    ensures
        genre_known(distinct_genres(names), names[k]),
    decreases names.len(),
{
    let before = distinct_genres(names.drop_last());
    let all = distinct_genres(names);
    if k < names.len() - 1 {
        lemma_genres_cover_every_name(names.drop_last(), k);
        let i = choose|i: int|
            0 <= i < before.len() && same_ignoring_ascii_case(
                #[trigger] before[i],
                names.drop_last()[k],
            );
        assert(all[i] == before[i]);
    } else if genre_known(before, names.last()) {
    } else {
        assert(all[all.len() - 1] == names[k]);
        assert(same_ignoring_ascii_case(all[all.len() - 1], names[k]));
    }
}

} // verus!
