//! What holds across requests, stated over the loader's contracts.

use crate::cache::{entry_set, map_total, Outcome};
use crate::loader::{completes, lookup_result, mime_rejects, BytesPoll, LoadResult, Lookup};
use crate::png::{png_header_ok, png_pixels_fit, png_rgba8, Picture};
use crate::uri::is_png_uri;
use vstd::prelude::*;
use vstd::utf8::encode_utf8;

verus! {

/// Once a request has come to an outcome, asking again for the same
/// identifier gives that same outcome from the cache: `lookup` answers it
/// without sending the caller to the byte-provider, and a `complete` that
/// raced with the first request answers it too and decodes nothing.
pub proof fn repeated_request_hits_cache<H, E>(
    m: Map<Seq<char>, Outcome>,
    uri: Seq<char>,
    poll: BytesPoll<H, E>,
    o: Outcome,
    m2: Map<Seq<char>, Outcome>,
)
    requires
        completes(m, uri, poll, LoadResult::Ready(o), m2),
    ensures
        lookup_result(m2, uri) == Lookup::Ready(o),
        forall|poll2: BytesPoll<H, E>, r3: LoadResult<H, E>, m3: Map<Seq<char>, Outcome>|
            #[trigger] completes(m2, uri, poll2, r3, m3) ==> r3 == LoadResult::<H, E>::Ready(o)
                && m3 == m2,
{
}

/// An identifier without the `png` extension is declined before the cache
/// or the byte-provider is consulted, and changes nothing.
pub proof fn foreign_extension_not_applicable<H, E>(
    m: Map<Seq<char>, Outcome>,
    uri: Seq<char>,
    poll: BytesPoll<H, E>,
    r: LoadResult<H, E>,
    m2: Map<Seq<char>, Outcome>,
)
    requires
        !is_png_uri(uri),
    ensures
        lookup_result(m, uri) is NotApplicable,
        completes(m, uri, poll, r, m2) ==> r is NotApplicable && m2 == m,
{
}

/// A decode failure is cached: the next request gives the same message,
/// and neither the provider nor the decoder is asked again.
pub proof fn decode_failure_is_cached<H, E>(
    m: Map<Seq<char>, Outcome>,
    uri: Seq<char>,
    poll: BytesPoll<H, E>,
    msg: String,
    m2: Map<Seq<char>, Outcome>,
)
    requires
        completes(m, uri, poll, LoadResult::Ready(Outcome::Failed(msg)), m2),
    ensures
        m2.contains_key(uri) && m2[uri] == Outcome::Failed(msg),
        lookup_result(m2, uri) == Lookup::Ready(Outcome::Failed(msg)),
{
    repeated_request_hits_cache(m, uri, poll, Outcome::Failed(msg), m2);
}

/// Pending bytes leave no trace: the cache is as before, the next request
/// fetches again, and once decodable bytes arrive the decoded image is
/// cached as if the pending answer had never happened.
pub proof fn pending_leaves_no_entry<H, E>(
    m: Map<Seq<char>, Outcome>,
    uri: Seq<char>,
    hint: H,
    r: LoadResult<H, E>,
    m2: Map<Seq<char>, Outcome>,
    bytes: &[u8],
    mime: Option<&str>,
    r3: LoadResult<H, E>,
    m3: Map<Seq<char>, Outcome>,
)
    requires
        is_png_uri(uri),
        !m.contains_key(uri),
        completes(m, uri, BytesPoll::Pending(hint), r, m2),
        completes(m2, uri, BytesPoll::Ready { bytes, mime }, r3, m3),
        !mime_rejects(mime),
        png_header_ok(bytes@),
        png_pixels_fit(bytes@),
    ensures
        r == LoadResult::<H, E>::Pending(hint),
        m2 == m,
        lookup_result(m2, uri) is FetchBytes,
        r3 matches LoadResult::Ready(Outcome::Decoded(p)) && m3 == m.insert(
            uri,
            Outcome::Decoded(p),
        ) && p.spec_width() == png_rgba8(bytes@).0 && p.spec_height() == png_rgba8(bytes@).1
            && p.spec_rgba() == png_rgba8(bytes@).2,
{
}

/// Bytes that decode are cached and answered as the decoded image: its
/// width, height and RGBA bytes are the decoder's.
pub proof fn decodable_bytes_give_image<H, E>(
    m: Map<Seq<char>, Outcome>,
    uri: Seq<char>,
    bytes: &[u8],
    mime: Option<&str>,
    r: LoadResult<H, E>,
    m2: Map<Seq<char>, Outcome>,
)
    requires
        is_png_uri(uri),
        !m.contains_key(uri),
        completes(m, uri, BytesPoll::Ready { bytes, mime }, r, m2),
        !mime_rejects(mime),
        png_header_ok(bytes@),
        png_pixels_fit(bytes@),
    ensures
        r matches LoadResult::Ready(Outcome::Decoded(p)) && m2 == m.insert(
            uri,
            Outcome::Decoded(p),
        ) && p.spec_width() == png_rgba8(bytes@).0 && p.spec_height() == png_rgba8(bytes@).1
            && p.spec_rgba() == png_rgba8(bytes@).2,
        lookup_result(m2, uri) == Lookup::Ready(r->Ready_0),
{
}

/// The same holds of a provider failure: it is passed on and cached
/// nowhere.
pub proof fn provider_failure_leaves_no_entry<H, E>(
    m: Map<Seq<char>, Outcome>,
    uri: Seq<char>,
    err: E,
    r: LoadResult<H, E>,
    m2: Map<Seq<char>, Outcome>,
)
    requires
        is_png_uri(uri),
        !m.contains_key(uri),
        completes(m, uri, BytesPoll::Failed(err), r, m2),
    ensures
        r == LoadResult::<H, E>::ProviderFailed(err),
        m2 == m,
        lookup_result(m2, uri) is FetchBytes,
{
}

/// After an entry is evicted the next request for it is a cache miss; after
/// everything is evicted every request is.
pub proof fn evicted_entry_misses(m: Map<Seq<char>, Outcome>, uri: Seq<char>)
    requires
        is_png_uri(uri),
    ensures
        lookup_result(m.remove(uri), uri) is FetchBytes,
        lookup_result(Map::empty(), uri) is FetchBytes,
{
}

/// Evicting an entry lowers the weight of the cache by exactly that
/// entry's size; an empty cache weighs nothing.
pub proof fn eviction_frees_entry_size(m: Map<Seq<char>, Outcome>, uri: Seq<char>)
    requires
        entry_set(m).finite(),
        m.contains_key(uri),
    ensures
        entry_set(m.remove(uri)).finite(),
        map_total(m.remove(uri)) + m[uri].spec_size() == map_total(m),
        map_total(Map::empty()) == 0,
{
    broadcast use vstd::set::fold::lemma_fold_insert, vstd::set::fold::lemma_fold_empty;

    let e = (uri, m[uri]);
    assert(entry_set(m.remove(uri)) =~= entry_set(m).remove(e));
    assert(entry_set(m) =~= entry_set(m.remove(uri)).insert(e));
    assert(vstd::set::fold::is_fun_commutative(crate::cache::add_size()));
    assert(entry_set(Map::<Seq<char>, Outcome>::empty()) =~= Set::empty());
}

/// Caching an outcome for a new identifier raises the weight of the cache
/// by exactly its size.
pub proof fn caching_adds_entry_size(m: Map<Seq<char>, Outcome>, uri: Seq<char>, o: Outcome)
    requires
        entry_set(m).finite(),
        !m.contains_key(uri),
    ensures
        entry_set(m.insert(uri, o)).finite(),
        map_total(m.insert(uri, o)) == map_total(m) + o.spec_size(),
{
    broadcast use vstd::set::fold::lemma_fold_insert;

    assert(entry_set(m.insert(uri, o)) =~= entry_set(m).insert((uri, o)));
    assert(!entry_set(m).contains((uri, o)));
    assert(vstd::set::fold::is_fun_commutative(crate::cache::add_size()));
}

/// An image weighs four bytes per pixel; a failure the length of its
/// message.
pub proof fn entry_weights(p: Picture, msg: String)
    ensures
        Outcome::Decoded(p).spec_size() == p.spec_width() * p.spec_height() * 4,
        Outcome::Failed(msg).spec_size() == encode_utf8(msg@).len(),
{
}

} // verus!
