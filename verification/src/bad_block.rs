//! The bad-block cache: a read-only mapping from block identifier to the
//! reason the block was once rejected.  The validators consult it and never
//! write it; entries are recorded by the cache's owner after a rejection.

use vstd::prelude::*;

verus! {

/// One recorded rejection: a block identifier and a human-readable reason.
#[derive(Clone, Debug)]
pub struct BadBlockEntry {
    pub cid: Vec<u8>,
    pub reason: String,
}

/// The recorded reason for `cid`, searching entries in insertion order from
/// position `i` on.
pub open spec fn cache_reason_from(entries: Seq<BadBlockEntry>, cid: Seq<u8>, i: int) -> Option<
    Seq<char>,
>
    decreases entries.len() - i,
{
    if i < 0 || i >= entries.len() {
        None
    } else if entries[i].cid@ == cid {
        Some(entries[i].reason@)
    } else {
        cache_reason_from(entries, cid, i + 1)
    }
}

/// The recorded reason for `cid`, if any: the first matching entry's reason.
pub open spec fn cache_reason(entries: Seq<BadBlockEntry>, cid: Seq<u8>) -> Option<Seq<char>> {
    cache_reason_from(entries, cid, 0)
}

/// A cache of blocks already proven bad, with the recorded reasons.
#[derive(Debug)]
pub struct BadBlockCache {
    pub entries: Vec<BadBlockEntry>,
}

impl BadBlockCache {
    /// An empty cache.
    pub fn new() -> (r: BadBlockCache)
        ensures
            r.entries@.len() == 0,
    {
        BadBlockCache { entries: Vec::new() }
    }

    /// Records a block as bad.  Only the cache's owner calls this; the
    /// validators read the cache and never write it.
    pub fn put(&mut self, cid: Vec<u8>, reason: String)
        ensures
            final(self).entries@ == old(self).entries@.push(BadBlockEntry { cid, reason }),
    {
        self.entries.push(BadBlockEntry { cid, reason });
    }

    /// Looks a block identifier up, returning the recorded reason verbatim.
    pub fn peek(&self, cid: &Vec<u8>) -> (r: Option<String>)
        ensures
            match r {
                Some(s) => cache_reason(self.entries@, cid@) == Some(s@),
                None => cache_reason(self.entries@, cid@) is None,
            },
    {
        let n = self.entries.len();
        let mut i: usize = 0;
        while i < n
            invariant
                n == self.entries@.len(),
                i <= n,
                cache_reason(self.entries@, cid@) == cache_reason_from(
                    self.entries@,
                    cid@,
                    i as int,
                ),
            decreases n - i,
        {
            if crate::bytes::bytes_eq(&self.entries[i].cid, cid) {
                return Some(self.entries[i].reason.clone());
            }
            i = i + 1;
        }
        None
    }
}

} // verus!
