//! The loader: routing, cache lookup, and turning fetched bytes into a
//! cached outcome.
//!
//! A request runs in two steps. `lookup` answers from the identifier and
//! the cache alone; only when it answers `FetchBytes` does the caller ask
//! the byte-provider, and hand what it reported to `complete`. `complete`
//! checks the cache again first, so a request that another one finished in
//! the meantime is answered from the cache without decoding twice.

use crate::cache::{entry_set, map_total, CacheStore, Outcome};
use crate::png::{decode_image, decoded_as, png_header_ok, Picture};
use crate::uri::{is_png_uri, is_supported_uri, is_unsupported_mime, mentions_png};
use vstd::prelude::*;

verus! {

/// What the byte-provider reported for an identifier.
pub enum BytesPoll<'b, H, E> {
    /// The encoded bytes, with the MIME type when the provider knows it.
    Ready { bytes: &'b [u8], mime: Option<&'b str> },
    /// The bytes are not there yet; the provider's size hint.
    Pending(H),
    /// The provider failed.
    Failed(E),
}

/// What `lookup` answers.
pub enum Lookup {
    /// Not an identifier this loader claims.
    NotApplicable,
    /// The cached outcome.
    Ready(Outcome),
    /// Not cached: fetch the bytes and call `complete`.
    FetchBytes,
}

/// What a request comes to.
pub enum LoadResult<H, E> {
    /// Not for this loader: the identifier, the MIME type or the header
    /// says another format.
    NotApplicable,
    /// The outcome of a finished decode.
    Ready(Outcome),
    /// Bytes still pending; the provider's size hint, passed on.
    Pending(H),
    /// The provider's own failure, passed on.
    ProviderFailed(E),
}

/// What `lookup` answers for `uri` on a cache holding `m`.
pub open spec fn lookup_result(m: Map<Seq<char>, Outcome>, uri: Seq<char>) -> Lookup {
    if !is_png_uri(uri) {
        Lookup::NotApplicable
    } else if m.contains_key(uri) {
        Lookup::Ready(m[uri])
    } else {
        Lookup::FetchBytes
    }
}

/// A MIME type reported with the bytes that names another format.
pub open spec fn mime_rejects(mime: Option<&str>) -> bool {
    match mime {
        Some(m) => !mentions_png(m@),
        None => false,
    }
}

/// The outcome that a decode result is cached as.
pub open spec fn outcome_of(decoded: Result<Picture, String>) -> Outcome {
    match decoded {
        Ok(p) => Outcome::Decoded(p),
        Err(msg) => Outcome::Failed(msg),
    }
}

/// Outcome `o` caches what decoding `bytes` comes to.
pub open spec fn outcome_decoded_as(bytes: Seq<u8>, o: Outcome) -> bool {
    match o {
        Outcome::Decoded(p) => decoded_as(bytes, Ok(p)),
        Outcome::Failed(msg) => decoded_as(bytes, Err(msg)),
    }
}

/// `complete` on a cache holding `m` answers `r` and leaves `m2`. Where the
/// bytes get as far as the decoder, the outcome is what decoding them comes
/// to (`outcome_decoded_as`), and it is cached.
pub open spec fn completes<H, E>(
    m: Map<Seq<char>, Outcome>,
    uri: Seq<char>,
    poll: BytesPoll<H, E>,
    r: LoadResult<H, E>,
    m2: Map<Seq<char>, Outcome>,
) -> bool {
    if !is_png_uri(uri) {
        r is NotApplicable && m2 == m
    } else if m.contains_key(uri) {
        r == LoadResult::<H, E>::Ready(m[uri]) && m2 == m
    } else {
        match poll {
            BytesPoll::Pending(h) => r == LoadResult::<H, E>::Pending(h) && m2 == m,
            BytesPoll::Failed(e) => r == LoadResult::<H, E>::ProviderFailed(e) && m2 == m,
            BytesPoll::Ready { bytes, mime } => {
                if mime_rejects(mime) || !png_header_ok(bytes@) {
                    r is NotApplicable && m2 == m
                } else {
                    r matches LoadResult::Ready(o) && m2 == m.insert(uri, o)
                        && outcome_decoded_as(bytes@, o)
                }
            },
        }
    }
}

/// The PNG loader and its cache.
pub struct PngLoader {
    cache: CacheStore,
}

impl Default for PngLoader {
    fn default() -> (r: PngLoader)
        ensures
            r.wf(),
            r@ == Map::<Seq<char>, Outcome>::empty(),
            r.total() == 0,
    {
        PngLoader::new()
    }
}

impl PngLoader {
    /// The name under which the host registers this loader.
    pub const ID: &'static str = "egui_minipng::PngLoader";

    pub closed spec fn wf(&self) -> bool {
        self.cache.wf()
    }

    /// Identifier to cached outcome.
    pub closed spec fn view(&self) -> Map<Seq<char>, Outcome> {
        self.cache@
    }

    /// What the cached entries weigh in all.
    pub closed spec fn total(&self) -> nat {
        self.cache.total()
    }

    /// The weight is the sum over the cached outcomes, of which there are
    /// finitely many.
    pub proof fn lemma_total(&self)
        requires
            self.wf(),
        ensures
            entry_set(self@).finite(),
            self.total() == map_total(self@),
    {
        self.cache.lemma_total();
    }

    pub fn new() -> (r: PngLoader)
        ensures
            r.wf(),
            r@ == Map::<Seq<char>, Outcome>::empty(),
            r.total() == 0,
    {
        PngLoader { cache: CacheStore::new() }
    }

    pub fn id(&self) -> (r: &'static str)
        ensures
            r == Self::ID,
    {
        Self::ID
    }

    /// The first step of a request: routing, then the cache. The byte-provider
    /// is to be asked only on `FetchBytes`.
    pub fn lookup(&self, uri: &str) -> (r: Lookup)
        requires
            self.wf(),
        ensures
            r == lookup_result(self@, uri@),
    {
        if !is_supported_uri(uri) {
            return Lookup::NotApplicable;
        }
        match self.cache.lookup(uri) {
            Some(o) => Lookup::Ready(o),
            None => Lookup::FetchBytes,
        }
    }

    /// Caches the result of decoding the bytes for `uri`, success or
    /// failure, and returns the outcome.
    pub fn settle(&mut self, uri: &str, decoded: Result<Picture, String>) -> (r: Outcome)
        requires
            old(self).wf(),
        ensures
            final(self).wf(),
            r == outcome_of(decoded),
            final(self)@ == old(self)@.insert(uri@, r),
            final(self).total() + (if old(self)@.contains_key(uri@) {
                old(self)@[uri@].spec_size()
            } else {
                0
            }) == old(self).total() + r.spec_size(),
    {
        let outcome = match decoded {
            Ok(p) => Outcome::Decoded(p),
            Err(msg) => Outcome::Failed(msg),
        };
        let r = outcome.share();
        self.cache.insert(uri, outcome);
        r
    }

    /// The second step of a request: what the byte-provider reported for
    /// `uri`. Pending and provider failures are passed on and cache
    /// nothing; a MIME type or a header of another format is not for this
    /// loader; otherwise the image is decoded and the outcome cached.
    pub fn complete<H, E>(&mut self, uri: &str, poll: BytesPoll<H, E>) -> (r: LoadResult<H, E>)
        requires
            old(self).wf(),
        ensures
            final(self).wf(),
            completes(old(self)@, uri@, poll, r, final(self)@),
            final(self)@ == old(self)@ ==> final(self).total() == old(self).total(),
            final(self)@ != old(self)@ ==> (r matches LoadResult::Ready(o) && final(self).total()
                == old(self).total() + o.spec_size()),
    {
        if !is_supported_uri(uri) {
            return LoadResult::NotApplicable;
        }
        match self.cache.lookup(uri) {
            Some(o) => {
                return LoadResult::Ready(o);
            },
            None => {},
        }
        match poll {
            BytesPoll::Pending(h) => LoadResult::Pending(h),
            BytesPoll::Failed(e) => LoadResult::ProviderFailed(e),
            BytesPoll::Ready { bytes, mime } => {
                match mime {
                    Some(m) => {
                        if is_unsupported_mime(m) {
                            return LoadResult::NotApplicable;
                        }
                    },
                    None => {},
                }
                if minipng::decode_png_header(bytes).is_err() {
                    return LoadResult::NotApplicable;
                }
                let decoded = decode_image(bytes);
                let o = self.settle(uri, decoded);
                LoadResult::Ready(o)
            },
        }
    }

    /// Evicts the entry for `uri`, if there is one.
    pub fn forget(&mut self, uri: &str)
        requires
            old(self).wf(),
        ensures
            final(self).wf(),
            final(self)@ == old(self)@.remove(uri@),
            old(self)@.contains_key(uri@) ==> final(self).total() + old(self)@[uri@].spec_size()
                == old(self).total(),
            !old(self)@.contains_key(uri@) ==> final(self).total() == old(self).total(),
    {
        self.cache.remove(uri);
    }

    /// Evicts every entry.
    pub fn forget_all(&mut self)
        ensures
            final(self).wf(),
            final(self)@ == Map::<Seq<char>, Outcome>::empty(),
            final(self).total() == 0,
    {
        self.cache.clear();
    }

    /// What the cached entries weigh: four bytes per pixel of each image,
    /// the message length of each failure; saturated at `usize::MAX`.
    pub fn byte_size(&self) -> (r: usize)
        requires
            self.wf(),
        ensures
            r == if map_total(self@) <= usize::MAX {
                map_total(self@)
            } else {
                usize::MAX as nat
            },
    {
        proof {
            self.cache.lemma_total();
        }
        self.cache.total_bytes()
    }
}

} // verus!
