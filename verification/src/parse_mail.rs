//! Finding the e-mail addresses in the text of a `From` header.

use crate::text::{in_order, is_slice_of, stand_at, texts_view};
use vstd::prelude::*;

verus! {

/// What counts as an address: a run of characters around an `@`, with
/// neither blanks nor `<` before it and neither blanks, `>` nor `,` after
/// it; or a part in double quotes, blanks allowed, then `@` and the same
/// kind of run.
pub const ADDRESS_PATTERN: &'static str = "(?:[^<@\\s]*@[^\\s>,]*)|(?:\"[^\"@]*\"@[^\\s>,]*)";

/// What the crate `regex` finds of `pattern` in `haystack`: the matches that
/// do not overlap, from left to right, each as the text that matched; `None`
/// for a pattern that the crate does not accept.
pub uninterp spec fn regex_matches(pattern: Seq<char>, haystack: Seq<char>) -> Option<
    Seq<Seq<char>>,
>;

/// Compiles `pattern` with `regex::Regex::new` and collects what
/// `Regex::find_iter` yields on `haystack`, each match by `Match::as_str`.
/// The contract names that list, and adds what the crate documents of it:
/// `as_str` gives the stretch of the haystack that matched, and `find_iter`
/// gives successive matches that do not overlap. A pattern that does not
/// compile gives `None`.
#[verifier::external_body]
fn find_matches(pattern: &str, haystack: &str) -> (found: Option<Vec<String>>)
    ensures
        match found {
            Some(pieces) => {
                &&& regex_matches(pattern@, haystack@) == Some(texts_view(pieces@))
                &&& in_order(texts_view(pieces@), haystack@)
            },
            None => regex_matches(pattern@, haystack@) is None,
        },
{
    let regex = regex::Regex::new(pattern).ok()?;
    Some(regex.find_iter(haystack).map(|found| found.as_str().to_string()).collect())
}

/// The addresses in the text of a `From` header: what the pattern for
/// addresses matches there, from left to right. Should the pattern ever be
/// refused, there are none.
pub open spec fn addresses_in(from_header: Seq<char>) -> Seq<Seq<char>> {
    match regex_matches(ADDRESS_PATTERN@, from_header) {
        Some(pieces) => pieces,
        None => Seq::empty(),
    }
}

/// The addresses to take from the outcome of a search: the matches, as they
/// are; none where the search could not be made.
pub fn addresses_found(found: Option<Vec<String>>) -> (addresses: Vec<String>)
    ensures
        match found {
            Some(pieces) => addresses == pieces,
            None => addresses@.len() == 0,
        },
{
    match found {
        Some(pieces) => pieces,
        None => Vec::new(),
    }
}

/// Extracts the addresses from the text of a `From` header, in the order in
/// which they stand there: they are stretches of the header that follow one
/// another from left to right without overlap.
pub fn get_addresses_in_from_header(from_header: &str) -> (addresses: Vec<String>)
    ensures
        texts_view(addresses@) == addresses_in(from_header@),
        in_order(texts_view(addresses@), from_header@),
        forall|i: int|
            0 <= i < addresses.len() ==> is_slice_of(#[trigger] addresses[i]@, from_header@),
{
    let addresses = addresses_found(find_matches(ADDRESS_PATTERN, from_header));
    proof {
        let pieces = texts_view(addresses@);
        assert(pieces =~= addresses_in(from_header@));
        if addresses@.len() == 0 {
            assert(stand_at(pieces, from_header@, Seq::<int>::empty()));
        }
        let starts = choose|starts: Seq<int>| stand_at(pieces, from_header@, starts);
        assert forall|i: int| 0 <= i < addresses.len() implies is_slice_of(
            #[trigger] addresses[i]@,
            from_header@,
        ) by {
            assert(pieces[i] == addresses[i]@);
            assert(from_header@.subrange(starts[i], starts[i] + pieces[i].len()) == pieces[i]);
        }
    }
    addresses
}

} // verus!
