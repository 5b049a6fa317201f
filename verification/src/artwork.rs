//! The content-addressed artwork cache.
//!
//! Cover artwork is keyed by the SHA-256 digest of its raw bytes, so
//! byte-identical blobs across any number of media items share one entry
//! for the life of the process; nothing is ever evicted. Decoding the bytes
//! into a bitmap is the caller's platform work: `probe` answers whether a
//! blob's digest is already cached, and only on a miss does the caller
//! decode and hand the bitmap to `insert_decoded` — so each distinct blob
//! is decoded at most once, and a decoded copy that lost a race is simply
//! discarded by the hit path.

use vstd::prelude::*;

use crate::hashing::hex_string;
use crate::hashing::sha256;
use crate::hashing::sha256_of;
use crate::hashing::spec_hex;
use crate::palette::Bitmap;
use crate::palette::Color;
use crate::palette::compute_palette;
use crate::palette::spec_palette_ok;
use crate::song::SongData;
use crate::song::SongDataView;

verus! {

/// One cached artwork: the digest that keys it, the digest string handed
/// to media items, the decoded bitmap, its palette, and the lazily
/// materialized on-disk copy.
pub struct Artwork {
    pub digest: Vec<u8>,
    pub uuid: String,
    pub bitmap: Bitmap,
    pub palette: Vec<Color>,
    pub disk_cache_path: Option<String>,
}

/// A coherent entry: the id string is the hex of the digest, the bitmap
/// holds at least one complete pixel — it is a decoded image ready for
/// display — and the palette is the bitmap's palette, therefore nonempty
/// with the primary accent color first.
pub open spec fn spec_entry_ok(a: Artwork) -> bool {
    &&& a.uuid@ == spec_hex(a.digest@)
    &&& a.bitmap.pixels@.len() >= 4
    &&& spec_palette_ok(a.palette@, a.bitmap.pixels@)
    &&& a.palette@.len() >= 1
}

/// The process-wide artwork store. One instance is constructed and handed
/// around explicitly; the caller guards it with its own lock when several
/// tasks share it.
pub struct ArtworkCache {
    pub entries: Vec<Artwork>,
}

impl ArtworkCache {
    /// Well-formed: at most one entry per digest, every entry coherent.
    pub open spec fn wf(&self) -> bool {
        &&& forall|i: int, j: int|
            0 <= i < j < self.entries@.len() ==> self.entries@[i].digest@
                != self.entries@[j].digest@
        &&& forall|i: int| 0 <= i < self.entries@.len() ==> spec_entry_ok(#[trigger] self.entries@[i])
    }

    /// Whether some entry is keyed by `d`.
    pub open spec fn spec_contains_digest(&self, d: Seq<u8>) -> bool {
        exists|i: int| 0 <= i < self.entries@.len() && self.entries@[i].digest@ == d
    }

    pub fn new() -> (r: Self)
        ensures
            r.wf(),
            r.entries@.len() == 0,
    {
        ArtworkCache { entries: Vec::new() }
    }

    pub fn len(&self) -> (r: usize)
        ensures
            r == self.entries@.len(),
    {
        self.entries.len()
    }

    pub fn artwork(&self, i: usize) -> (r: &Artwork)
        requires
            i < self.entries@.len(),
        ensures
            *r == self.entries@[i as int],
    {
        &self.entries[i]
    }

    /// Finds the entry keyed by a digest, if any.
    pub fn lookup_digest(&self, digest: &Vec<u8>) -> (r: Option<usize>)
        ensures
            (match r {
                Some(i) => i < self.entries@.len() && self.entries@[i as int].digest@ == digest@,
                None => !self.spec_contains_digest(digest@),
            }),
    {
        let n = self.entries.len();
        let mut i: usize = 0;
        while i < n
            invariant
                n == self.entries@.len(),
                i <= n,
                forall|j: int| 0 <= j < i ==> self.entries@[j].digest@ != digest@,
            decreases n - i,
        {
            if eq_bytes(&self.entries[i].digest, digest) {
                return Some(i);
            }
            i = i + 1;
        }
        None
    }

    /// The check-under-the-lock step: the artwork for a blob whose digest
    /// is already cached, together with its id string — no decode work is
    /// repeated for a hit. `None` means the digest is absent and the
    /// caller should decode the blob and call `insert_decoded`.
    pub fn probe(&self, picture: &Vec<u8>) -> (r: Option<(usize, String)>)
        requires
            self.wf(),
        ensures
            (match r {
                Some(p) => p.0 < self.entries@.len() && self.entries@[p.0 as int].digest@
                    == sha256_of(picture@) && p.1@ == spec_hex(sha256_of(picture@)),
                None => !self.spec_contains_digest(sha256_of(picture@)),
            }),
    {
        let digest = sha256(picture.as_slice());
        match self.lookup_digest(&digest) {
            Some(i) => {
                let u = self.entries[i].uuid.clone();
                Some((i, u))
            },
            None => None,
        }
    }

    /// The insert-if-absent step: files the decoded bitmap under the
    /// blob's digest, unless a racing caller already did — then the
    /// existing entry wins and the handed-in copy is dropped. Either way
    /// the returned handle points at the one entry for this digest, and
    /// the returned string is its id.
    pub fn insert_decoded(&mut self, picture: &Vec<u8>, bitmap: Bitmap) -> (r: (usize, String))
        requires
            old(self).wf(),
            bitmap.pixels@.len() >= 4,
        ensures
            final(self).wf(),
            r.0 < final(self).entries@.len(),
            final(self).entries@[r.0 as int].digest@ == sha256_of(picture@),
            r.1@ == spec_hex(sha256_of(picture@)),
            final(self).spec_contains_digest(sha256_of(picture@)),
            old(self).spec_contains_digest(sha256_of(picture@)) ==> final(self).entries@ == old(
                self,
            ).entries@,
            !old(self).spec_contains_digest(sha256_of(picture@)) ==> {
                &&& final(self).entries@.len() == old(self).entries@.len() + 1
                &&& final(self).entries@.subrange(0, old(self).entries@.len() as int) == old(
                    self,
                ).entries@
                &&& r.0 == old(self).entries@.len()
                &&& final(self).entries@.last().bitmap == bitmap
                &&& final(self).entries@.last().disk_cache_path is None
            },
    {
        let digest = sha256(picture.as_slice());
        match self.lookup_digest(&digest) {
            Some(i) => {
                let u = self.entries[i].uuid.clone();
                proof {
                    assert(self.spec_contains_digest(sha256_of(picture@)));
                }
                (i, u)
            },
            None => {
                let uuid = hex_string(digest.as_slice());
                let palette = compute_palette(&bitmap);
                proof {
                    crate::palette::lemma_palette_nonempty(palette@, bitmap.pixels@);
                }
                let uuid_out = uuid.clone();
                let entry = Artwork { digest, uuid, bitmap, palette, disk_cache_path: None };
                let i = self.entries.len();
                let ghost old_entries = self.entries@;
                self.entries.push(entry);
                proof {
                    assert(self.entries@.last().digest@ == sha256_of(picture@));
                    assert(self.entries@.subrange(0, old_entries.len() as int) =~= old_entries);
                    assert forall|a: int, b: int|
                        0 <= a < b < self.entries@.len() implies self.entries@[a].digest@
                        != self.entries@[b].digest@ by {
                        if b == self.entries@.len() - 1 {
                            assert(self.entries@[a] == old_entries[a]);
                        }
                    }
                }
                (i, uuid_out)
            },
        }
    }

    /// Records where a persisted copy of an entry's bytes was written.
    /// Only that entry's path changes.
    pub fn record_disk_cache(&mut self, i: usize, path: String) -> (r: bool)
        requires
            old(self).wf(),
        ensures
            final(self).wf(),
            r == (i < old(self).entries@.len()),
            final(self).entries@.len() == old(self).entries@.len(),
            forall|j: int|
                0 <= j < final(self).entries@.len() && j != i ==> final(self).entries@[j] == old(
                    self,
                ).entries@[j],
            i < old(self).entries@.len() ==> {
                &&& final(self).entries@[i as int].digest == old(self).entries@[i as int].digest
                &&& final(self).entries@[i as int].uuid == old(self).entries@[i as int].uuid
                &&& final(self).entries@[i as int].bitmap == old(self).entries@[i as int].bitmap
                &&& final(self).entries@[i as int].palette == old(self).entries@[i as int].palette
                &&& final(self).entries@[i as int].disk_cache_path.deep_view() == Some(path@)
            },
    {
        if i < self.entries.len() {
            let ghost old_entries = self.entries@;
            let e = self.entries.remove(i);
            let e2 = Artwork {
                digest: e.digest,
                uuid: e.uuid,
                bitmap: e.bitmap,
                palette: e.palette,
                disk_cache_path: Some(path),
            };
            self.entries.insert(i, e2);
            proof {
                assert forall|j: int|
                    0 <= j < self.entries@.len() && j != i implies self.entries@[j]
                    == old_entries[j] by {}
                assert forall|a: int, b: int|
                    0 <= a < b < self.entries@.len() implies self.entries@[a].digest@
                    != self.entries@[b].digest@ by {
                    assert(self.entries@[a].digest@ == old_entries[a].digest@);
                    assert(self.entries@[b].digest@ == old_entries[b].digest@);
                }
                assert forall|j: int|
                    0 <= j < self.entries@.len() implies spec_entry_ok(
                        #[trigger] self.entries@[j],
                    ) by {
                    assert(spec_entry_ok(old_entries[j]));
                }
            }
            true
        } else {
            false
        }
    }
}

fn eq_bytes(a: &Vec<u8>, b: &Vec<u8>) -> (r: bool)
    ensures
        r == (a@ == b@),
{
    if a.len() != b.len() {
        proof {
            assert(a@ != b@);
        }
        return false;
    }
    let n = a.len();
    let mut i: usize = 0;
    while i < n
        invariant
            n == a@.len(),
            n == b@.len(),
            i <= n,
            forall|j: int| 0 <= j < i ==> a@[j] == b@[j],
        decreases n - i,
    {
        if a[i] != b[i] {
            return false;
        }
        i = i + 1;
    }
    proof {
        assert(a@ =~= b@);
    }
    true
}

/// Attaches a cached cover to a resolved item: on a digest hit the item
/// gets the entry's handle and id string, on a miss it is left untouched —
/// the caller then decodes the blob, files it with `insert_decoded`, and
/// attaches the returned handle itself.
pub fn attach_cached_cover(data: &mut SongData, cache: &ArtworkCache, picture: &Vec<u8>) -> (r:
    bool)
    requires
        cache.wf(),
    ensures
        r == cache.spec_contains_digest(sha256_of(picture@)),
        !r ==> *final(data) == *old(data),
        r ==> (exists|i: int|
            {
                &&& 0 <= i < cache.entries@.len()
                &&& cache.entries@[i].digest@ == sha256_of(picture@)
                &&& final(data)@ == (SongDataView {
                    cover_art: Some(i as usize),
                    cover_uuid: Some(cache.entries@[i].uuid@),
                    ..old(data)@
                })
            }),
{
    match cache.probe(picture) {
        Some((idx, uuid)) => {
            proof {
                assert(cache.entries@[idx as int].uuid@ == spec_hex(
                    cache.entries@[idx as int].digest@,
                ));
            }
            data.attach_cover(idx, uuid);
            true
        },
        None => false,
    }
}

/// Dedup law: in a well-formed cache there is at most one artwork per
/// digest, so byte-identical blobs resolve to the same entry — decode
/// happens once however many items carry the same cover.
pub proof fn lemma_artwork_dedup(c: ArtworkCache, b1: Seq<u8>, b2: Seq<u8>, i: int, j: int)
    requires
        c.wf(),
        b1 == b2,
        0 <= i < c.entries@.len(),
        0 <= j < c.entries@.len(),
        c.entries@[i].digest@ == sha256_of(b1),
        c.entries@[j].digest@ == sha256_of(b2),
    ensures
        i == j,
{
}

/// Separation law: blobs whose digests differ occupy distinct entries
/// with distinct digest strings — distinct artwork never collapses onto
/// one cache slot or one id.
pub proof fn lemma_distinct_digests_distinct_entries(
    c: ArtworkCache,
    b1: Seq<u8>,
    b2: Seq<u8>,
    i: int,
    j: int,
)
    requires
        c.wf(),
        sha256_of(b1) != sha256_of(b2),
        0 <= i < c.entries@.len(),
        0 <= j < c.entries@.len(),
        c.entries@[i].digest@ == sha256_of(b1),
        c.entries@[j].digest@ == sha256_of(b2),
    ensures
        i != j,
        c.entries@[i].uuid@ != c.entries@[j].uuid@,
{
    if c.entries@[i].uuid@ == c.entries@[j].uuid@ {
        crate::hashing::lemma_hex_injective(c.entries@[i].digest@, c.entries@[j].digest@);
    }
}

} // verus!
