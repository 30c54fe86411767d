//! Local persistence of encoded frames: where a cached file goes and what
//! it is called. Writing the bytes out is I/O and lives outside the
//! library.

use vstd::prelude::*;
use crate::timefmt::{dec_rep, u64_to_string};

verus! {

/// The `{timestampMillis}_{monitorId}.webp` file name a frame is cached
/// under.
pub open spec fn spec_cache_filename(millis: int, id: u32) -> Seq<char> {
    dec_rep(millis) + seq!['_'] + dec_rep(id as int) + ".webp"@
}

/// Build the cached file name for one frame.
pub fn cache_filename_of(millis: i64, id: u32) -> (r: String)
    requires
        millis >= 0,
    ensures
        r@ == spec_cache_filename(millis as int, id),
{
    let mut s = u64_to_string(millis as u64);
    s.append("_");
    s.append(u64_to_string(id as u64).as_str());
    s.append(".webp");
    proof {
        reveal_strlit("_");
        assert(s@ =~= spec_cache_filename(millis as int, id));
    }
    s
}

/// The local image cache: a base directory that file names are resolved
/// against.
pub struct LocalStorage {
    cache_dir: String,
}

impl LocalStorage {
    pub closed spec fn spec_cache_dir(&self) -> Seq<char> {
        self.cache_dir@
    }

    /// A cache rooted at the given directory.
    pub fn from_dir(cache_dir: String) -> (r: Self)
        ensures
            r.spec_cache_dir() == cache_dir@,
    {
        LocalStorage { cache_dir }
    }

    /// The full path a file of this cache lives under.
    pub fn target_path(&self, filename: &str) -> (r: String)
        ensures
            r@ == self.spec_cache_dir() + seq!['/'] + filename@,
    {
        let mut s = String::from_str(self.cache_dir.as_str());
        s.append("/");
        s.append(filename);
        proof {
            reveal_strlit("/");
            assert(s@ =~= self.spec_cache_dir() + seq!['/'] + filename@);
        }
        s
    }
}

/// The storage stage that chains local caching with packing and upload;
/// its wiring runs outside the library.
pub struct Storage {}

impl Storage {
    pub fn new() -> (r: Self) {
        Storage {}
    }
}

} // verus!
