//! The uniform per-batch contract of a pipeline stage, and the passthrough
//! stage used in place of the upload stage when no object store is
//! configured. The channel plumbing that drives stages lives outside the
//! library.

use vstd::prelude::*;
use crate::error::WatcherError;
use crate::event::{AwEvent, CaptureEvent, ImageEvent};
use crate::gate::FilterProcessor;
use crate::idmap::keys_distinct;
use crate::timefmt::{clamp_timestamp, now_millis};

verus! {

/// A stage's per-batch logic: consume one input value, produce one output
/// value, under a stage invariant that set-up establishes and every batch
/// preserves.
pub trait TaskProcessor<I, O> {
    /// The stage's invariant.
    spec fn inv(&self) -> bool;

    /// What the stage asks of each input batch.
    spec fn input_ok(event: &I) -> bool;

    /// Consume one batch.
    fn process(&mut self, event: I) -> (r: Result<O, WatcherError>)
        requires
            old(self).inv(),
            Self::input_ok(&event),
        ensures
            final(self).inv(),
    ;

    /// One-time set-up before the first batch.
    fn init(&mut self) -> (r: Result<(), WatcherError>)
        requires
            old(self).inv(),
        ensures
            final(self).inv(),
    {
        Ok(())
    }
}

/// The upload stage's stand-in when the object store is disabled: turns an
/// encoded batch into a report batch with no destination, every record
/// carried over under its monitor.
pub struct PassthroughProcessor;

impl PassthroughProcessor {
    pub fn new() -> (r: Self) {
        PassthroughProcessor
    }

    /// Convert an encoded batch into a report batch: same instant, same
    /// cache directory, no object-store destination, one record per frame.
    pub fn pass(&self, event: ImageEvent) -> (r: AwEvent)
        requires
            event.wf(),
        ensures
            r.wf(),
            r.timestamp_ms == event.timestamp_ms,
            r.local_dir@ == event.local_dir@,
            r.s3_info is None,
            forall|k: u32|
                #[trigger] r.records().contains_key(k) == event.frames@.contains_key(k),
            forall|k: u32|
                event.frames@.contains_key(k) ==> r.records()[k] == (#[trigger] event.frames@[k]).info@,
    {
        let ImageEvent { timestamp_ms, local_dir, frames } = event;
        let ghost m0 = frames@;
        let mut rem = frames.into_entries();
        let mut out = AwEvent::new(timestamp_ms, local_dir, None);
        proof {
            assert forall|j: int| 0 <= j < rem@.len() implies m0.contains_key(
                #[trigger] rem@[j].0,
            ) && m0[rem@[j].0] == rem@[j].1 by {
                crate::idmap::lemma_entries_map_pair(rem@, j);
            }
            assert forall|k: u32| m0.contains_key(k) implies exists|j: int|
                0 <= j < rem@.len() && rem@[j].0 == k by {
                crate::idmap::lemma_entries_map_key(rem@, k);
            }
        }
        while rem.len() > 0
            invariant
                out.wf(),
                out.timestamp_ms == timestamp_ms,
                out.local_dir@ == event.local_dir@,
                out.s3_info is None,
                keys_distinct(rem@),
                forall|j: int|
                    0 <= j < rem@.len() ==> m0.contains_key(#[trigger] rem@[j].0) && m0[rem@[j].0]
                        == rem@[j].1,
                forall|k: u32|
                    #[trigger] out.records().contains_key(k) ==> m0.contains_key(k)
                        && out.records()[k] == m0[k].info@,
                forall|k: u32|
                    m0.contains_key(k) ==> out.records().contains_key(k) || exists|j: int|
                        0 <= j < rem@.len() && rem@[j].0 == k,
            decreases rem@.len(),
        {
            let ghost rem0 = rem@;
            let popped = rem.pop().unwrap();
            let id = popped.0;
            let frame = popped.1;
            proof {
                assert(rem0[rem0.len() - 1].0 == id);
            }
            out.add_data(id, frame.info);
            proof {
                assert forall|k: u32| m0.contains_key(k) implies out.records().contains_key(k)
                    || exists|j: int| 0 <= j < rem@.len() && rem@[j].0 == k by {
                    if !out.records().contains_key(k) {
                        let j = choose|j: int| 0 <= j < rem0.len() && rem0[j].0 == k;
                        assert(j < rem0.len() - 1);
                        assert(rem@[j].0 == k);
                    }
                }
            }
        }
        out
    }
}

impl Default for PassthroughProcessor {
    fn default() -> (r: Self) {
        PassthroughProcessor::new()
    }
}

impl TaskProcessor<ImageEvent, AwEvent> for PassthroughProcessor {
    open spec fn inv(&self) -> bool {
        true
    }

    open spec fn input_ok(event: &ImageEvent) -> bool {
        event.wf()
    }

    fn process(&mut self, event: ImageEvent) -> (r: Result<AwEvent, WatcherError>) {
        Ok(self.pass(event))
    }
}

impl TaskProcessor<CaptureEvent, CaptureEvent> for FilterProcessor {
    open spec fn inv(&self) -> bool {
        self.wf()
    }

    open spec fn input_ok(event: &CaptureEvent) -> bool {
        event.wf()
    }

    /// Stamp the batch with the wall clock and strip unchanged frames.
    fn process(&mut self, event: CaptureEvent) -> (r: Result<CaptureEvent, WatcherError>) {
        let now = clamp_timestamp(now_millis());
        Ok(self.filter_event(event, now))
    }
}

} // verus!
