//! Streaming blob reader state.
//!
//! A [`Blob`] tracks one blob download: the optional total length and
//! content type taken from the response headers, the running byte count,
//! and — when verification is selected at construction — a running SHA-256
//! hash.  Each received chunk is folded into the hash and the count before
//! anything else sees it, so the verification state always reflects exactly
//! the bytes observed so far.  Only one chunk is held at a time; the reader
//! never buffers the blob.
//!
//! The transport pulls chunks from the open response body and hands each to
//! [`Blob::push_chunk`]; end of stream is reported with [`Blob::finish`],
//! after which [`Blob::digest`] may render the verified digest.

use crate::digest::{hex_of, Digest};
use crate::hashing::{absorbed, sha256_finalize, sha256_new, sha256_of, sha256_update};
use vstd::prelude::*;

verus! {

/// Downloaded content of an image registry, observed as a chunk stream.
pub struct Blob {
    pub len: Option<usize>,
    pub content_type: Option<String>,
    pub hasher: Option<sha2::Sha256>,
    pub received: Ghost<Seq<u8>>,
    pub downloaded: usize,
    pub done: bool,
}

impl Blob {
    /// Whether digest verification was selected at construction.
    pub open spec fn verifying(self) -> bool {
        self.hasher is Some
    }

    /// The byte count matches the bytes received, and the running hash —
    /// when present — has absorbed exactly those bytes.
    pub open spec fn well_formed(self) -> bool {
        &&& self.downloaded == self.received@.len()
        &&& (self.hasher matches Some(h) ==> absorbed(h) == self.received@)
    }

    /// A fresh reader for one blob: nothing received yet, end of stream not
    /// observed, with the total length and content type the response
    /// headers declared, and a running hash exactly when `verify` asks for
    /// one.
    pub fn new(len: Option<usize>, content_type: Option<String>, verify: bool) -> (b: Blob)
        ensures
            b.well_formed(),
            b.len == len,
            b.content_type == content_type,
            b.verifying() == verify,
            b.received@ == Seq::<u8>::empty(),
            b.downloaded == 0,
            !b.done,
    {
        let hasher = if verify {
            Some(sha256_new())
        } else {
            None
        };
        Blob {
            len,
            content_type,
            hasher,
            received: Ghost(Seq::empty()),
            downloaded: 0,
            done: false,
        }
    }

    /// The total length of the blob, when the response carried a
    /// content-length header.
    pub fn len(&self) -> (r: Option<usize>)
        ensures
            r == self.len,
    {
        self.len
    }

    /// The content type of the blob, when the response named one.
    pub fn content_type(&self) -> (r: &Option<String>)
        ensures
            r == &self.content_type,
    {
        &self.content_type
    }

    /// Observes one received chunk: folds it into the running hash (when
    /// verifying) and advances the byte count.  Chunks must be pushed in
    /// stream order, before end of stream is observed.
    pub fn push_chunk(&mut self, chunk: &[u8])
        requires
            old(self).well_formed(),
            !old(self).done,
            old(self).downloaded + chunk@.len() <= usize::MAX,
        ensures
            final(self).well_formed(),
            final(self).received@ == old(self).received@ + chunk@,
            final(self).downloaded == old(self).downloaded + chunk@.len(),
            final(self).len == old(self).len,
            final(self).content_type == old(self).content_type,
            final(self).done == old(self).done,
            final(self).verifying() == old(self).verifying(),
    {
        match &mut self.hasher {
            Some(h) => sha256_update(h, chunk),
            None => (),
        }
        self.downloaded = self.downloaded + chunk.len();
        proof {
            self.received@ = self.received@ + chunk@;
        }
    }

    /// Observes end of stream.  No further chunk may be pushed.
    pub fn finish(&mut self)
        requires
            old(self).well_formed(),
        ensures
            final(self).well_formed(),
            final(self).done,
            final(self).received@ == old(self).received@,
            final(self).downloaded == old(self).downloaded,
            final(self).len == old(self).len,
            final(self).content_type == old(self).content_type,
            final(self).verifying() == old(self).verifying(),
    {
        self.done = true;
    }

    /// The digest of the downloaded content: `sha256` paired with the
    /// lowercase hexadecimal SHA-256 of exactly the bytes received.  May
    /// only be called once end of stream has been observed, on a reader
    /// that verifies.
    pub fn digest(self) -> (d: Digest)
        requires
            self.well_formed(),
            self.done,
            self.verifying(),
        ensures
            d@.algorithm == "sha256"@,
            d@.hash == hex_of(sha256_of(self.received@)),
    {
        match self.hasher {
            Some(h) => {
                let out = sha256_finalize(h);
                Digest::from_sha256(&out)
            },
            None => vstd::pervasive::unreached(),
        }
    }
}

} // verus!
