//! Monitor identity: a sanitized display name, a CRC32 geometry
//! fingerprint, and the per-monitor dedup memory used by the loop that
//! captures each monitor in a task of its own.

use vstd::prelude::*;
use crate::event::MonitorImageEvent;
use crate::hash::{dhash, gray_of, popcount, hamming_distance, spec_dhash};
use crate::timefmt::{dec_rep, signed_dec_rep, u64_to_string, i64_to_string, MAX_TIMESTAMP_MS};

verus! {

/// Whether a character may stay in a sanitized monitor name.
pub open spec fn is_name_char(c: char) -> bool {
    ||| '0' as u32 <= c as u32 <= '9' as u32
    ||| 'a' as u32 <= c as u32 <= 'z' as u32
    ||| 'A' as u32 <= c as u32 <= 'Z' as u32
}

/// A name with everything but ASCII letters and digits removed.
pub open spec fn spec_sanitized(s: Seq<char>) -> Seq<char>
    decreases s.len(),
{
    if s.len() == 0 {
        Seq::empty()
    } else {
        spec_sanitized(s.drop_last()) + (if is_name_char(s.last()) {
            seq![s.last()]
        } else {
            Seq::empty()
        })
    }
}

/// Relies on String::push: appends exactly one character at the end.
#[verifier::external_body]
fn push_char(s: &mut String, c: char)
    ensures
        final(s)@ == old(s)@.push(c),
{
    s.push(c);
}

/// Strip a monitor name down to ASCII letters and digits.
pub fn sanitize_name(s: &str) -> (r: String)
    ensures
        r@ == spec_sanitized(s@),
{
    let mut out = String::new();
    let n = s.unicode_len();
    let mut i: usize = 0;
    while i < n
        invariant
            n == s@.len(),
            i <= n,
            out@ == spec_sanitized(s@.subrange(0, i as int)),
        decreases n - i,
    {
        let c = s.get_char(i);
        let code = c as u32;
        let keep = (code >= '0' as u32 && code <= '9' as u32) || (code >= 'a' as u32 && code
            <= 'z' as u32) || (code >= 'A' as u32 && code <= 'Z' as u32);
        let ghost out0 = out@;
        if keep {
            push_char(&mut out, c);
        }
        proof {
            let pre = s@.subrange(0, i as int);
            let nxt = s@.subrange(0, i + 1);
            assert(nxt.drop_last() =~= pre);
            assert(nxt.last() == s@[i as int]);
            assert(keep == is_name_char(s@[i as int]));
            if keep {
                assert(out@ =~= out0 + seq![s@[i as int]]);
            } else {
                assert(out@ =~= out0 + Seq::<char>::empty());
            }
        }
        i = i + 1;
    }
    proof {
        assert(s@.subrange(0, n as int) =~= s@);
    }
    out
}

/// The name a collection of outside bytes is hashed to.
pub uninterp spec fn crc32_of(s: Seq<char>) -> u32;

/// Relies on crc32fast::Hasher (new, update, finalize): the CRC32 checksum
/// of the string's bytes, a function of the string alone.
#[verifier::external_body]
fn crc32_str(s: &str) -> (r: u32)
    ensures
        r == crc32_of(s@),
{
    let mut hasher = crc32fast::Hasher::new();
    hasher.update(s.as_bytes());
    hasher.finalize()
}

/// The `{width}_{height}_{x}_{y}` geometry string a monitor is
/// fingerprinted from.
pub open spec fn spec_geometry(width: u32, height: u32, x: int, y: int) -> Seq<char> {
    dec_rep(width as int) + seq!['_'] + dec_rep(height as int) + seq!['_'] + signed_dec_rep(x)
        + seq!['_'] + signed_dec_rep(y)
}

/// The stable identity of a monitor: its sanitized name (or `Monitor`
/// when nothing is left of it) and the CRC32 of its geometry string.
pub open spec fn spec_fingerprint(name: Seq<char>, width: u32, height: u32, x: int, y: int)
    -> Seq<char> {
    (if spec_sanitized(name).len() > 0 {
        spec_sanitized(name)
    } else {
        "Monitor"@
    }) + seq!['_'] + dec_rep(crc32_of(spec_geometry(width, height, x, y)) as int)
}

/// Derive a monitor's fingerprint from its name and geometry.
pub fn monitor_fingerprint(name: &str, width: u32, height: u32, x: i32, y: i32) -> (r: String)
    ensures
        r@ == spec_fingerprint(name@, width, height, x as int, y as int),
{
    let mut geometry = u64_to_string(width as u64);
    geometry.append("_");
    geometry.append(u64_to_string(height as u64).as_str());
    geometry.append("_");
    geometry.append(i64_to_string(x as i64).as_str());
    geometry.append("_");
    geometry.append(i64_to_string(y as i64).as_str());
    proof {
        reveal_strlit("_");
        assert(geometry@ =~= spec_geometry(width, height, x as int, y as int));
    }
    let crc = crc32_str(geometry.as_str());
    let safe = sanitize_name(name);
    let mut out: String;
    if safe.as_str().unicode_len() > 0 {
        out = safe;
    } else {
        out = String::from_str("Monitor");
    }
    out.append("_");
    out.append(u64_to_string(crc as u64).as_str());
    proof {
        reveal_strlit("_");
        assert(out@ =~= spec_fingerprint(name@, width, height, x as int, y as int));
    }
    out
}

/// The `{name}_{width}_{height}_{x}_{y}` identity a capture task runs
/// under.
pub open spec fn spec_monitor_tag(name: Seq<char>, width: u32, height: u32, x: int, y: int)
    -> Seq<char> {
    name + seq!['_'] + dec_rep(width as int) + seq!['_'] + dec_rep(height as int) + seq!['_']
        + signed_dec_rep(x) + seq!['_'] + signed_dec_rep(y)
}

/// Whether a fresh frame deserves an event: anything goes through unless
/// the last one was both recent (under five seconds old) and similar
/// (fewer than ten differing hash bits).
pub open spec fn fresh_frame(
    last_time: Option<i64>,
    last_hash: Option<u64>,
    hash: u64,
    now: int,
) -> bool {
    !(last_time is Some && last_hash is Some && now - last_time->0 < 5000 && popcount(
        last_hash->0 ^ hash,
    ) < 10)
}

/// One monitor's capture identity and dedup memory, for the loop that
/// captures each monitor in a task of its own.
pub struct SafeMonitor {
    id: String,
    x: i32,
    y: i32,
    last_time: Option<i64>,
    last_hash: Option<u64>,
}

impl SafeMonitor {
    pub closed spec fn spec_id(&self) -> Seq<char> {
        self.id@
    }

    pub closed spec fn spec_x(&self) -> i32 {
        self.x
    }

    pub closed spec fn spec_y(&self) -> i32 {
        self.y
    }

    pub closed spec fn spec_last_time(&self) -> Option<i64> {
        self.last_time
    }

    pub closed spec fn spec_last_hash(&self) -> Option<u64> {
        self.last_hash
    }

    pub closed spec fn wf(&self) -> bool {
        match self.last_time {
            Some(t) => 0 <= t <= MAX_TIMESTAMP_MS,
            None => true,
        }
    }

    /// A monitor that has not produced any event yet.
    pub fn new(name: &str, width: u32, height: u32, x: i32, y: i32) -> (r: Self)
        ensures
            r.wf(),
            r.spec_id() == spec_monitor_tag(name@, width, height, x as int, y as int),
            r.spec_x() == x,
            r.spec_y() == y,
            r.spec_last_time() is None,
            r.spec_last_hash() is None,
    {
        let mut id = String::from_str(name);
        id.append("_");
        id.append(u64_to_string(width as u64).as_str());
        id.append("_");
        id.append(u64_to_string(height as u64).as_str());
        id.append("_");
        id.append(i64_to_string(x as i64).as_str());
        id.append("_");
        id.append(i64_to_string(y as i64).as_str());
        proof {
            reveal_strlit("_");
            assert(id@ =~= spec_monitor_tag(name@, width, height, x as int, y as int));
        }
        SafeMonitor { id, x, y, last_time: None, last_hash: None }
    }

    pub fn id(&self) -> (r: String)
        ensures
            r@ == self.spec_id(),
    {
        String::from_str(self.id.as_str())
    }

    /// Decide whether a frame with this hash deserves an event, refreshing
    /// the memory exactly when it does.
    pub fn decide(&mut self, hash: u64, now_ms: i64) -> (fresh: bool)
        requires
            old(self).wf(),
            0 <= now_ms <= MAX_TIMESTAMP_MS,
        ensures
            final(self).wf(),
            fresh == fresh_frame(
                old(self).spec_last_time(),
                old(self).spec_last_hash(),
                hash,
                now_ms as int,
            ),
            final(self).spec_id() == old(self).spec_id(),
            final(self).spec_x() == old(self).spec_x(),
            final(self).spec_y() == old(self).spec_y(),
            fresh ==> final(self).spec_last_time() == Some(now_ms) && final(self).spec_last_hash()
                == Some(hash),
            !fresh ==> *final(self) == *old(self),
    {
        if let (Some(lt), Some(lh)) = (self.last_time, self.last_hash) {
            if now_ms - lt < 5000 && hamming_distance(lh, hash) < 10 {
                return false;
            }
        }
        self.last_time = Some(now_ms);
        self.last_hash = Some(hash);
        true
    }

    /// Hash a captured image and build an event for it when it deserves
    /// one; a skipped frame leaves the memory untouched. The decision and
    /// the stored hash are both the difference hash of this image's
    /// downsampled grid.
    pub fn try_create_event(&mut self, image: image::DynamicImage, now_ms: i64) -> (r: Option<
        MonitorImageEvent,
    >)
        requires
            old(self).wf(),
            0 <= now_ms <= MAX_TIMESTAMP_MS,
        ensures
            final(self).wf(),
            final(self).spec_id() == old(self).spec_id(),
            final(self).spec_x() == old(self).spec_x(),
            final(self).spec_y() == old(self).spec_y(),
            (r is Some) == fresh_frame(
                old(self).spec_last_time(),
                old(self).spec_last_hash(),
                spec_dhash(gray_of(image)),
                now_ms as int,
            ),
            r matches Some(e) ==> {
                &&& e.spec_monitor_id() == old(self).spec_id()
                &&& e.spec_timestamp_ms() == now_ms
                &&& e.spec_image() == image
                &&& final(self).spec_last_time() == Some(now_ms)
                &&& final(self).spec_last_hash() == Some(spec_dhash(gray_of(image)))
            },
            r is None ==> *final(self) == *old(self),
    {
        let current_hash = dhash(&image);
        if self.decide(current_hash, now_ms) {
            Some(MonitorImageEvent::new(self.id(), image, now_ms))
        } else {
            None
        }
    }
}

} // verus!
