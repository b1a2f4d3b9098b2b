//! The location as the framework hands it over: `seed::Url`, of which this
//! library reads and extends the hash path only.
//!
//! A `Url` holds its hash path as a list of parts and a cursor that says how
//! many of them were consumed. Verus does not look inside a `Url`; the two
//! names below stand for those two things, and the contracts in this file are
//! taken on trust from the framework's source.

use seed::Url;
use vstd::prelude::*;

verus! {

/// `seed::Url`, declared so that it can stand in signatures and fields.
/// Nothing is known of a value but what the two names below say of it.
#[verifier::external_type_specification]
#[verifier::external_body]
pub struct ExUrl(seed::Url);

/// The parts of the hash path that `url` holds, consumed or not, in order.
pub uninterp spec fn hash_path(url: Url) -> Seq<Seq<char>>;

/// How many parts of the hash path of `url` count as consumed.
pub uninterp spec fn hash_path_cursor(url: Url) -> nat;

/// What this library reads of a location.
pub struct UrlView {
    pub hash_path: Seq<Seq<char>>,
    pub cursor: nat,
}

/// The view of `url`: its hash path and the cursor in it.
pub open spec fn url_view(url: Url) -> UrlView {
    UrlView { hash_path: hash_path(url), cursor: hash_path_cursor(url) }
}

impl UrlView {
    /// The parts that are still to be consumed.
    pub open spec fn remaining(self) -> Seq<Seq<char>> {
        if self.cursor <= self.hash_path.len() {
            self.hash_path.subrange(self.cursor as int, self.hash_path.len() as int)
        } else {
            Seq::empty()
        }
    }
}

/// The parts of the hash path that are still to be consumed.
pub open spec fn remaining_hash_path(url: Url) -> Seq<Seq<char>> {
    url_view(url).remaining()
}

/// `Url::new`: a location with no hash path, nothing consumed.
pub assume_specification[ Url::new ]() -> (url: Url)
    ensures
        hash_path(url) == Seq::<Seq<char>>::empty(),
        hash_path_cursor(url) == 0,
;

/// `Url::to_base_url`: a copy that lost the unconsumed parts of its path. The
/// hash path and its cursor are those of `url`.
pub assume_specification[ Url::to_base_url ](url: &Url) -> (base: Url)
    ensures
        hash_path(base) == hash_path(*url),
        hash_path_cursor(base) == hash_path_cursor(*url),
;

/// `Url::clone`: a copy with the same hash path and the same cursor.
pub assume_specification[ <Url as Clone>::clone ](url: &Url) -> (copy: Url)
    ensures
        hash_path(copy) == hash_path(*url),
        hash_path_cursor(copy) == hash_path_cursor(*url),
;

/// `Url::add_hash_path_part`: the same location with `part` added at the end
/// of its hash path. The cursor stays where it was.
#[verifier::external_body]
pub(crate) fn add_hash_path_part(url: Url, part: &str) -> (longer: Url)
    ensures
        hash_path(longer) == hash_path(url).push(part@),
        hash_path_cursor(longer) == hash_path_cursor(url),
{
    url.add_hash_path_part(part)
}

/// `Url::remaining_hash_path_parts`: hands out the parts that were not yet
/// consumed, in order, and marks all of them as consumed.
#[verifier::external_body]
pub(crate) fn remaining_hash_path_parts(url: &mut Url) -> (parts: Vec<String>)
    ensures
        parts.deep_view() == remaining_hash_path(*old(url)),
        hash_path(*final(url)) == hash_path(*old(url)),
        hash_path_cursor(*final(url)) == hash_path(*old(url)).len(),
{
    url.remaining_hash_path_parts().into_iter().map(String::from).collect()
}

} // verus!
