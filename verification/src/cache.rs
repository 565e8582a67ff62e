use vstd::prelude::*;

use crate::codec::{decode_palette, decode_spec, encode_palette, encode_spec};
use crate::palette::{Palette, PaletteView};

verus! {

/// Why persisting a palette to the cache failed. A write failure is
/// reported to the caller but never aborts color generation.
#[derive(Clone, Copy, Debug, PartialEq, Eq, Structural)]
pub enum CacheWriteError {
    /// The cache location could not be written.
    Unwritable,
}

/// The content-addressed color cache: one serialized palette per
/// fingerprint. Its value is the map from each fingerprint to the raw
/// bytes stored under it; entries are overwritten wholesale, never
/// mutated in place.
pub struct CacheStore {
    entries: Vec<(u64, Vec<u8>)>,
}

/// The raw bytes each fingerprint maps to: the first entry with the
/// fingerprint wins, so a newly stored entry shadows every older one.
spec fn find_spec(s: Seq<(u64, Vec<u8>)>, f: u64) -> Option<Seq<u8>>
    decreases s.len(),
{
    if s.len() == 0 {
        None
    } else if s[0].0 == f {
        Some(s[0].1@)
    } else {
        find_spec(s.drop_first(), f)
    }
}

impl View for CacheStore {
    type V = Map<u64, Seq<u8>>;

    closed spec fn view(&self) -> Map<u64, Seq<u8>> {
        Map::new(
            |f: u64| find_spec(self.entries@, f) is Some,
            |f: u64| find_spec(self.entries@, f).unwrap(),
        )
    }
}

impl CacheStore {
    /// An empty cache: no fingerprint has an entry.
    pub fn new() -> (r: CacheStore)
        ensures
            r@ == Map::<u64, Seq<u8>>::empty(),
    {
        let r = CacheStore { entries: Vec::new() };
        proof {
            assert(r@ =~= Map::<u64, Seq<u8>>::empty());
        }
        r
    }

    /// Store raw bytes under a fingerprint, replacing whatever entry was
    /// there. This is how the surrounding program hands the cache an
    /// entry read back from disk, whether or not it is intact.
    pub fn store_raw(&mut self, f: u64, bytes: Vec<u8>)
        ensures
            final(self)@ == old(self)@.insert(f, bytes@),
    {
        self.entries.insert(0, (f, bytes));
        proof {
            let s = self.entries@;
            assert(s.drop_first() =~= old(self).entries@);
            assert forall|k: u64| true implies find_spec(s, k) == (if k == f {
                Some(bytes@)
            } else {
                find_spec(old(self).entries@, k)
            }) by {
                assert(s[0] == (f, bytes));
            }
            assert(self@ =~= old(self)@.insert(f, bytes@));
        }
    }

    /// Whether an entry exists for the fingerprint, whatever it holds: a
    /// cheap existence check that lets extraction be skipped without
    /// reading the entry.
    pub fn is_present(&self, f: u64) -> (r: bool)
        ensures
            r == self@.contains_key(f),
    {
        let n = self.entries.len();
        proof {
            assert(self.entries@.skip(0) =~= self.entries@);
        }
        for i in 0..n
            invariant
                n == self.entries@.len(),
                find_spec(self.entries@.skip(i as int), f) == find_spec(self.entries@, f),
        {
            proof {
                assert(self.entries@.skip(i as int)[0] == self.entries@[i as int]);
                assert(self.entries@.skip(i as int).drop_first() =~= self.entries@.skip(i + 1));
            }
            if self.entries[i].0 == f {
                return true;
            }
        }
        proof {
            assert(self.entries@.skip(n as int) =~= Seq::<(u64, Vec<u8>)>::empty());
        }
        false
    }

    /// The raw bytes stored under a fingerprint, if any: what the
    /// surrounding program persists to disk after a store.
    pub fn raw_entry(&self, f: u64) -> (r: Option<&Vec<u8>>)
        ensures
            match r {
                Some(b) => self@.contains_key(f) && b@ == self@[f],
                None => !self@.contains_key(f),
            },
    {
        let n = self.entries.len();
        proof {
            assert(self.entries@.skip(0) =~= self.entries@);
        }
        for i in 0..n
            invariant
                n == self.entries@.len(),
                find_spec(self.entries@.skip(i as int), f) == find_spec(self.entries@, f),
        {
            proof {
                assert(self.entries@.skip(i as int)[0] == self.entries@[i as int]);
                assert(self.entries@.skip(i as int).drop_first() =~= self.entries@.skip(i + 1));
            }
            if self.entries[i].0 == f {
                return Some(&self.entries[i].1);
            }
        }
        proof {
            assert(self.entries@.skip(n as int) =~= Seq::<(u64, Vec<u8>)>::empty());
        }
        None
    }

    /// Look a fingerprint up: the palette stored under it, if the entry
    /// exists and decodes. A missing entry and a corrupt entry both give
    /// `None`, never an error: a corrupt cache degrades to a miss.
    pub fn lookup(&self, f: u64) -> (r: Option<Palette>)
        ensures
            match r {
                Some(p) => p.wf() && self@.contains_key(f) && decode_spec(self@[f]) == Some(p@),
                None => !self@.contains_key(f) || decode_spec(self@[f]) is None,
            },
    {
        match self.raw_entry(f) {
            Some(bytes) => decode_palette(bytes),
            None => None,
        }
    }

    /// Serialize a palette and store it under the fingerprint, replacing
    /// any entry there. The in-memory cache always has room, so the
    /// result is always `Ok`; the disk-backed layer around the library
    /// maps its write failures to `CacheWriteError`.
    pub fn store(&mut self, f: u64, p: &Palette) -> (r: Result<(), CacheWriteError>)
        requires
            p.wf(),
        ensures
            r is Ok,
            final(self)@ == old(self)@.insert(f, encode_spec(p@)),
    {
        let bytes = encode_palette(p);
        self.store_raw(f, bytes);
        Ok(())
    }
}

/// The cache round-trip law: after a palette is stored under a
/// fingerprint, looking that fingerprint up in the resulting cache value
/// yields exactly that palette.
pub proof fn lemma_store_lookup(m: Map<u64, Seq<u8>>, f: u64, p: PaletteView)
    requires
        p.wf(),
    ensures
        m.insert(f, encode_spec(p)).contains_key(f),
        decode_spec(m.insert(f, encode_spec(p))[f]) == Some(p),
{
    crate::codec::lemma_round_trip(p);
}

} // verus!
