//! Stable identity of a check, used to address its baseline record.
//!
//! The identity is a pure function of the check's source location: the
//! storage prefix followed by the lowercase hex MD5 digest of the
//! location.  Re-running the pipeline over the same configuration
//! therefore resolves every check to the same baseline key.

use vstd::prelude::*;
use vstd::string::StringExecFns;

verus! {

/// The lowercase hex MD5 digest of a character sequence: thirty-two
/// hex digits, a function of the input alone.
pub uninterp spec fn md5_hex_of(s: Seq<char>) -> Seq<char>;

/// Relies on md5::compute and the LowerHex rendering of md5::Digest:
/// the digest of the input bytes, written as two lowercase hex digits
/// per digest byte, depends on the input alone.
#[verifier::external_body]
fn md5_hex(s: &str) -> (r: String)
    ensures
        r@ == md5_hex_of(s@),
        r@.len() == 32,
{
    format!("{:x}", md5::compute(s))
}

/// The baseline key for a source location under a storage prefix.
pub open spec fn key_of(prefix: Seq<char>, url: Seq<char>) -> Seq<char> {
    prefix + md5_hex_of(url)
}

/// The storage prefix used when the configuration supplies none.
pub open spec fn default_prefix() -> Seq<char> {
    ".last-"@
}

/// The baseline storage prefix chosen by a configuration: the
/// configured namespace when present, a fixed literal otherwise.
pub fn cache_prefix(configured: &Option<String>) -> (r: String)
    ensures
        r@ == match configured {
            Some(p) => p@,
            None => default_prefix(),
        },
{
    match configured {
        Some(p) => p.clone(),
        None => String::from_str(".last-"),
    }
}

/// The baseline key for one check: the prefix followed by the digest
/// of the source location.  The key is a function of the arguments
/// alone, so the same location resolves to the same key on every run.
pub fn baseline_key(prefix: &str, url: &str) -> (r: String)
    ensures
        r@ == key_of(prefix@, url@),
{
    let digest = md5_hex(url);
    let mut key = prefix.to_owned();
    key.append(digest.as_str());
    key
}

/// Identity derivation is deterministic: two runs that derive a key
/// from the same prefix and the same source location derive the same
/// key.
pub proof fn lemma_identity_deterministic(
    prefix1: Seq<char>,
    url1: Seq<char>,
    prefix2: Seq<char>,
    url2: Seq<char>,
)
    requires
        prefix1 == prefix2,
        url1 == url2,
    ensures
        key_of(prefix1, url1) == key_of(prefix2, url2),
{
}

} // verus!
