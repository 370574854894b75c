//! The rule by which a cached parse result is still good: it must be at
//! least as recent as the file it was parsed from.

use vstd::prelude::*;

verus! {

/// A moment, as whole seconds since the Unix epoch (negative before it) and
/// the nanoseconds into that second.
#[derive(Debug, Clone, Copy, PartialEq, Eq, Structural)]
pub struct Timestamp {
    pub seconds: i64,
    pub nanos: u32,
}

impl Timestamp {
    /// The moment in nanoseconds since the epoch.
    pub open spec fn instant(self) -> int {
        self.seconds * 1_000_000_000 + self.nanos
    }

    /// Whether this moment is `other` or comes after it.
    pub fn at_or_after(&self, other: &Timestamp) -> (b: bool)
        ensures
            b == (self.instant() >= other.instant()),
    {
        let mine: i128 = self.seconds as i128 * 1_000_000_000 + self.nanos as i128;
        let theirs: i128 = other.seconds as i128 * 1_000_000_000 + other.nanos as i128;
        mine >= theirs
    }
}

/// A parse result as it is cached: the result, and the modification time of
/// the source file when it was parsed.
#[derive(Debug, Clone)]
pub struct CachedParseResult<R> {
    pub result: R,
    pub mtime: Timestamp,
}

/// The cache of parse results.
#[derive(Debug, Clone, Copy)]
pub struct CueCache;

impl CueCache {
    /// The cached result, if it is still good for a source file that was
    /// last modified at `source_mtime`: the entry must not be older than the
    /// file.
    pub fn fresh<R>(cached: CachedParseResult<R>, source_mtime: Timestamp) -> (r: Option<R>)
        ensures
            r == if cached.mtime.instant() >= source_mtime.instant() {
                Some(cached.result)
            } else {
                None
            },
    {
        if cached.mtime.at_or_after(&source_mtime) {
            Some(cached.result)
        } else {
            None
        }
    }

    /// The entry to store for `result`, parsed from a source file that was
    /// last modified at `source_mtime`.
    pub fn entry<R>(result: R, source_mtime: Timestamp) -> (e: CachedParseResult<R>)
        ensures
            e.result == result,
            e.mtime == source_mtime,
    {
        CachedParseResult { result, mtime: source_mtime }
    }
}

} // verus!
