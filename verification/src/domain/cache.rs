//! Response cache domain: the cache key, cached entries, and the cache
//! configuration.

use sha2::Digest;
use vstd::prelude::*;
use vstd::string::*;
use vstd::utf8::*;

verus! {

/// The SHA-256 digest of `data` (as computed by the `sha2` crate).
pub uninterp spec fn sha256(data: Seq<u8>) -> Seq<u8>;

/// SHA-256 of `data`, through `sha2::Sha256::digest`.
///
/// Trusted: the result is the digest of exactly the bytes given, and a
/// SHA-256 digest is 32 bytes long.
#[verifier::external_body]
fn sha256_digest(data: &[u8]) -> (d: Vec<u8>)
    ensures
        d@ == sha256(data@),
        d@.len() == 32,
{
    sha2::Sha256::digest(data).to_vec()
}

/// Lowercase hexadecimal digit for `n` (0..=15).
pub open spec fn hex_digit_lower(n: nat) -> char {
    if n < 10 {
        crate::text::digit_char(n)
    } else if n == 10 {
        'a'
    } else if n == 11 {
        'b'
    } else if n == 12 {
        'c'
    } else if n == 13 {
        'd'
    } else if n == 14 {
        'e'
    } else {
        'f'
    }
}

/// Lowercase hexadecimal encoding: two digits per byte, high nibble first.
pub open spec fn hex_lower(data: Seq<u8>) -> Seq<char>
    decreases data.len(),
{
    if data.len() == 0 {
        Seq::empty()
    } else {
        hex_lower(data.drop_last()) + seq![
            hex_digit_lower((data.last() / 16) as nat),
            hex_digit_lower((data.last() % 16) as nat),
        ]
    }
}

/// Hex encoding through `hex::encode`.
///
/// Trusted: `hex::encode` writes each byte as two lowercase hexadecimal
/// digits, high nibble first, in the order of the bytes.
#[verifier::external_body]
fn hex_encode(data: &[u8]) -> (s: String)
    ensures
        s@ == hex_lower(data@),
{
    hex::encode(data)
}

/// The hex encoding is two ASCII characters per byte.
pub proof fn lemma_hex_lower_shape(data: Seq<u8>)
    ensures
        hex_lower(data).len() == 2 * data.len(),
        is_ascii_chars(hex_lower(data)),
    decreases data.len(),
{
    if data.len() > 0 {
        lemma_hex_lower_shape(data.drop_last());
        let h = hex_lower(data);
        let p = hex_lower(data.drop_last());
        assert forall|i: int| 0 <= i < h.len() implies '\0' <= #[trigger] h[i] <= '\u{7f}' by {
            if i >= p.len() {
                assert(h[i] == hex_digit_lower((data.last() / 16) as nat) || h[i]
                    == hex_digit_lower((data.last() % 16) as nat));
            } else {
                assert(h[i] == p[i]);
            }
        }
    }
}

/// The bytes a cache key is computed from: the UTF-8 bytes of the four
/// components, separated by `|`.
pub open spec fn cache_key_material(
    normalized_prompt: Seq<char>,
    relevant_context: Seq<char>,
    agent_id: Seq<char>,
    config_version: Seq<char>,
) -> Seq<u8> {
    encode_utf8(normalized_prompt) + seq![124u8] + encode_utf8(relevant_context) + seq![124u8]
        + encode_utf8(agent_id) + seq![124u8] + encode_utf8(config_version)
}

/// A cache key computed from the normalized prompt, context, agent id, and
/// config version: the hex-encoded SHA-256 of those components.
#[derive(Debug, Clone, PartialEq, Eq, Hash)]
pub struct CacheKey(String);

impl View for CacheKey {
    type V = Seq<char>;

    closed spec fn view(&self) -> Seq<char> {
        self.0@
    }
}

impl CacheKey {
    /// Compute a cache key by hashing all components.
    ///
    /// The key is 64 lowercase hexadecimal characters.
    pub fn compute(
        normalized_prompt: &str,
        relevant_context: &str,
        agent_id: &str,
        config_version: &str,
    ) -> (k: CacheKey)
        ensures
            k@ == hex_lower(
                sha256(
                    cache_key_material(
                        normalized_prompt@,
                        relevant_context@,
                        agent_id@,
                        config_version@,
                    ),
                ),
            ),
            k@.len() == 64,
            is_ascii_chars(k@),
    {
        let mut data: Vec<u8> = normalized_prompt.as_bytes_vec();
        data.push(124u8);
        let mut part = relevant_context.as_bytes_vec();
        data.append(&mut part);
        data.push(124u8);
        let mut part = agent_id.as_bytes_vec();
        data.append(&mut part);
        data.push(124u8);
        let mut part = config_version.as_bytes_vec();
        data.append(&mut part);
        assert(data@ =~= cache_key_material(
            normalized_prompt@,
            relevant_context@,
            agent_id@,
            config_version@,
        ));
        let digest = sha256_digest(data.as_slice());
        proof {
            lemma_hex_lower_shape(digest@);
        }
        CacheKey(hex_encode(digest.as_slice()))
    }

    /// The hex string representation.
    pub fn as_str(&self) -> (s: &str)
        ensures
            s@ == self@,
    {
        self.0.as_str()
    }
}

/// A cached entry storing the response and metadata.
#[derive(Debug, Clone)]
pub struct CacheEntry {
    /// The cached response (serialized).
    pub value: String,
    /// When this entry was created (Unix timestamp).
    pub created_at: i64,
    /// How many times this entry has been hit.
    pub hit_count: u64,
    /// Estimated byte size of the value.
    pub byte_size: usize,
}

/// Configuration for the cache.
#[derive(Debug, Clone, Copy)]
pub struct CacheConfig {
    /// Whether caching is enabled.
    pub enabled: bool,
    /// Maximum number of entries.
    pub max_entries: usize,
    /// Maximum total bytes across all entries.
    pub max_bytes: usize,
    /// TTL in seconds (0 = no expiration).
    pub ttl_seconds: u64,
}

impl Default for CacheConfig {
    fn default() -> (c: CacheConfig)
        ensures
            c.enabled,
            c.max_entries == 1000,
            c.max_bytes == 50 * 1024 * 1024,
            c.ttl_seconds == 3600,
    {
        CacheConfig {
            enabled: true,
            max_entries: 1000,
            max_bytes: 50 * 1024 * 1024,
            ttl_seconds: 3600,
        }
    }
}

} // verus!
