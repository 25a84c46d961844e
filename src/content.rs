//! The content a fetch produces: the bytes, and their integrity label.
use vstd::prelude::*;

use crate::config::UrlResourceHash;

verus! {

#[verifier::external_type_specification]
#[verifier::external_body]
pub struct ExBytes(bytes::Bytes);

/// The bytes that a `bytes::Bytes` buffer holds, in order.
pub uninterp spec fn bytes_contents(b: bytes::Bytes) -> Seq<u8>;

/// Relies on `Clone for bytes::Bytes`: the clone is a second handle on the
/// same bytes.
pub assume_specification[ <bytes::Bytes as Clone>::clone ](b: &bytes::Bytes) -> (r: bytes::Bytes)
    ensures
        bytes_contents(r) == bytes_contents(*b),
;

/// Relies on `From<Vec<u8>> for bytes::Bytes`: the buffer takes over the
/// vector's bytes, unchanged.
#[verifier::external_body]
fn bytes_from_vec(v: Vec<u8>) -> (r: bytes::Bytes)
    ensures
        bytes_contents(r) == v@,
{
    bytes::Bytes::from(v)
}

/// The SHA-256 digest of a byte sequence, written as lower-case hex.
pub uninterp spec fn sha256_hex(data: Seq<u8>) -> Seq<char>;

/// Relies on `sha256::digest`: the hex-encoded SHA-256 digest of the bytes,
/// which depends on the bytes alone.
#[verifier::external_body]
fn sha256_digest(data: &Vec<u8>) -> (r: String)
    ensures
        r@ == sha256_hex(data@),
{
    sha256::digest(data)
}

/// The integrity label of fetched bytes under a hashing mode: the mode's
/// name, a colon, and the digest.
pub open spec fn spec_hash_label(mode: UrlResourceHash, data: Seq<u8>) -> Seq<char> {
    match mode {
        UrlResourceHash::Sha256 => "sha256:"@ + sha256_hex(data),
    }
}

/// A fetched resource: its bytes and, where hashing was asked for, their
/// integrity label. It is never changed once made.
#[derive(Debug, PartialEq, Eq)]
pub struct UrlResourceContent {
    pub data: bytes::Bytes,
    pub hash: Option<String>,
}

/// Whether two contents hold the same bytes and the same label.
pub open spec fn same_content(a: UrlResourceContent, b: UrlResourceContent) -> bool {
    bytes_contents(a.data) == bytes_contents(b.data) && a.hash == b.hash
}

impl Clone for UrlResourceContent {
    /// A second handle on the same bytes, with the same label.
    fn clone(&self) -> (r: Self)
        ensures
            same_content(r, *self),
    {
        let hash = match &self.hash {
            Some(h) => Some(h.clone()),
            None => None,
        };
        UrlResourceContent { data: self.data.clone(), hash }
    }
}

impl UrlResourceContent {
    /// Holds fetched bytes, labelled with their digest where a hashing mode
    /// is given.
    pub fn from_fetched(data: Vec<u8>, hash: Option<UrlResourceHash>) -> (r: Self)
        ensures
            bytes_contents(r.data) == data@,
            hash is None ==> r.hash is None,
            hash matches Some(mode) ==> r.hash matches Some(h) && h@ == spec_hash_label(
                mode,
                data@,
            ),
    {
        let label = match hash {
            None => None,
            Some(UrlResourceHash::Sha256) => {
                let digest = sha256_digest(&data);
                Some(String::from_str("sha256:").concat(digest.as_str()))
            },
        };
        UrlResourceContent { data: bytes_from_vec(data), hash: label }
    }
}

} // verus!
