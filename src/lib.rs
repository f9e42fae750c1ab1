//! An image loader that decodes PNG files with minipng and keeps every
//! finished decode, success or failure, in a cache keyed by identifier.

mod cache;
mod laws;
mod loader;
mod png;
mod uri;

pub use uri::{is_supported_uri, is_unsupported_mime};
pub use png::{png_decodes, png_error_text, png_header_ok, png_pixels_fit, png_rgba8, Picture};
pub use cache::{add_size, entry_set, map_total, CacheStore, Outcome};
pub use loader::{BytesPoll, LoadResult, Lookup, PngLoader};
pub use laws::{
    caching_adds_entry_size, decodable_bytes_give_image, decode_failure_is_cached, entry_weights,
    evicted_entry_misses, eviction_frees_entry_size, foreign_extension_not_applicable,
    pending_leaves_no_entry, provider_failure_leaves_no_entry, repeated_request_hits_cache,
};
