//! Per-monitor deduplication: state that decides whether a captured frame
//! is worth emitting. The rules apply strictly in this order: force-interval
//! re-emit, debounce, hash similarity, then emit.

use vstd::prelude::*;
use crate::config::CaptureConfig;
use crate::event::CaptureEvent;
use crate::hash::{popcount, hamming_distance, dhash, spec_dhash, gray_of};
use crate::idmap::IdMap;
use crate::timefmt::MAX_TIMESTAMP_MS;

verus! {

/// Captures closer together than this are dropped outright, whatever the
/// frame shows.
pub const DEBOUNCE_MS: i64 = 100;

/// What the dedup filter remembers of one monitor: the hash of the frame
/// it last let through, and when that was.
#[derive(Clone, Copy)]
pub struct MonitorState {
    pub last_dhash: Option<u64>,
    pub last_time: Option<i64>,
}

impl MonitorState {
    pub open spec fn wf(self) -> bool {
        match self.last_time {
            Some(t) => 0 <= t <= MAX_TIMESTAMP_MS,
            None => true,
        }
    }

    /// The state of a monitor nothing has been emitted for yet.
    pub open spec fn initial() -> MonitorState {
        MonitorState { last_dhash: None, last_time: None }
    }

    pub fn new() -> (r: Self)
        ensures
            r == MonitorState::initial(),
    {
        MonitorState { last_dhash: None, last_time: None }
    }
}

/// The force interval must stay expressible in milliseconds.
pub open spec fn capture_config_wf(cfg: CaptureConfig) -> bool {
    cfg.force_interval_secs <= 9_000_000_000
}

/// Whether a frame with this hash, seen now, in this state, is skipped.
/// The force interval overrides similarity, and the debounce is checked
/// after the force interval but before similarity.
pub open spec fn gate_skips(st: MonitorState, hash: u64, now: int, cfg: CaptureConfig) -> bool {
    if st.last_time is Some && now - st.last_time->0 > cfg.force_interval_secs * 1000 {
        false
    } else if st.last_time is Some && now - st.last_time->0 < DEBOUNCE_MS {
        true
    } else if st.last_dhash is Some && popcount(hash ^ st.last_dhash->0) < cfg.dhash_threshold {
        true
    } else {
        false
    }
}

/// The state after the decision: refreshed exactly when the frame is
/// emitted.
pub open spec fn gate_next(st: MonitorState, hash: u64, now: int, cfg: CaptureConfig)
    -> MonitorState {
    if gate_skips(st, hash, now, cfg) {
        st
    } else {
        MonitorState { last_dhash: Some(hash), last_time: Some(now as i64) }
    }
}

/// A frame identical to the last emitted one is skipped whenever the
/// debounce has passed but the force interval has not.
pub proof fn lemma_gate_skips_identical(st: MonitorState, hash: u64, now: int, cfg: CaptureConfig)
    requires
        st.last_time is Some,
        st.last_dhash == Some(hash),
        cfg.dhash_threshold > 0,
        DEBOUNCE_MS <= now - st.last_time->0 <= cfg.force_interval_secs * 1000,
    ensures
        gate_skips(st, hash, now, cfg),
{
    crate::hash::lemma_hamming_self(hash);
}

/// A frame at or above the similarity threshold is emitted whenever the
/// debounce has passed.
pub proof fn lemma_gate_emits_changed(st: MonitorState, hash: u64, now: int, cfg: CaptureConfig)
    requires
        st.last_dhash is Some ==> popcount(hash ^ st.last_dhash->0) >= cfg.dhash_threshold,
        st.last_time is Some ==> now - st.last_time->0 >= DEBOUNCE_MS,
    ensures
        !gate_skips(st, hash, now, cfg),
{
}

/// The dedup state after judging one constant-hash frame at each instant
/// of a polling sequence, in order.
pub open spec fn gate_run_state(
    st: MonitorState,
    hash: u64,
    times: Seq<int>,
    cfg: CaptureConfig,
) -> MonitorState
    decreases times.len(),
{
    if times.len() == 0 {
        st
    } else {
        gate_run_state(
            gate_next(st, hash, times[0], cfg),
            hash,
            times.subrange(1, times.len() as int),
            cfg,
        )
    }
}

/// How many frames of a constant-hash polling sequence the dedup rules
/// emit.
pub open spec fn gate_run_emits(
    st: MonitorState,
    hash: u64,
    times: Seq<int>,
    cfg: CaptureConfig,
) -> nat
    decreases times.len(),
{
    if times.len() == 0 {
        0
    } else {
        (if gate_skips(st, hash, times[0], cfg) {
            0nat
        } else {
            1nat
        }) + gate_run_emits(
            gate_next(st, hash, times[0], cfg),
            hash,
            times.subrange(1, times.len() as int),
            cfg,
        )
    }
}

/// Once a frame has been emitted, identical frames polled at any instants
/// up to one force interval later are all skipped and leave the state
/// unchanged: a window admits no second emission, however often it is
/// polled.
pub proof fn lemma_gate_once_per_window(
    st: MonitorState,
    hash: u64,
    times: Seq<int>,
    cfg: CaptureConfig,
)
    requires
        st.last_time is Some,
        st.last_dhash == Some(hash),
        cfg.dhash_threshold > 0,
        forall|i: int|
            0 <= i < times.len() ==> #[trigger] times[i] - st.last_time->0
                <= cfg.force_interval_secs * 1000,
    ensures
        gate_run_emits(st, hash, times, cfg) == 0,
        gate_run_state(st, hash, times, cfg) == st,
    decreases times.len(),
{
    if times.len() > 0 {
        crate::hash::lemma_hamming_self(hash);
        assert(gate_skips(st, hash, times[0], cfg));
        let rest = times.subrange(1, times.len() as int);
        assert forall|i: int|
            0 <= i < rest.len() implies #[trigger] rest[i] - st.last_time->0
            <= cfg.force_interval_secs * 1000 by {
            assert(rest[i] == times[i + 1]);
        }
        lemma_gate_once_per_window(st, hash, rest, cfg);
    }
}

/// A poll strictly more than one force interval after the last emission
/// emits unconditionally and refreshes the state, whatever the frame
/// shows: together with the window lemma, identical frames emit exactly
/// once per force window.
pub proof fn lemma_gate_force_emit(st: MonitorState, hash: u64, now: int, cfg: CaptureConfig)
    requires
        st.last_time is Some,
        now - st.last_time->0 > cfg.force_interval_secs * 1000,
    ensures
        !gate_skips(st, hash, now, cfg),
        gate_next(st, hash, now, cfg) == (MonitorState {
            last_dhash: Some(hash),
            last_time: Some(now as i64),
        }),
{
}

/// Decide whether to skip a frame, refreshing the state on emit. Rules, in
/// order: after more than the force interval, emit unconditionally; within
/// the debounce, skip; within the similarity threshold of the last emitted
/// hash, skip; otherwise emit.
pub fn should_skip(cfg: &CaptureConfig, hash: u64, now_ms: i64, state: &mut MonitorState) -> (skip:
    bool)
    requires
        capture_config_wf(*cfg),
        old(state).wf(),
        0 <= now_ms <= MAX_TIMESTAMP_MS,
    ensures
        skip == gate_skips(*old(state), hash, now_ms as int, *cfg),
        *final(state) == gate_next(*old(state), hash, now_ms as int, *cfg),
        final(state).wf(),
{
    if let Some(t) = state.last_time {
        if now_ms - t > (cfg.force_interval_secs as i64) * 1000 {
            state.last_dhash = Some(hash);
            state.last_time = Some(now_ms);
            return false;
        }
        if now_ms - t < DEBOUNCE_MS {
            return true;
        }
    }
    if let Some(last_dhash) = state.last_dhash {
        if hamming_distance(hash, last_dhash) < cfg.dhash_threshold {
            return true;
        }
    }
    state.last_dhash = Some(hash);
    state.last_time = Some(now_ms);
    false
}

/// The filter stage: holds one dedup state per monitor and strips
/// unchanged frames from each batch.
pub struct FilterProcessor {
    config: CaptureConfig,
    monitor_states: IdMap<MonitorState>,
}

impl FilterProcessor {
    pub closed spec fn spec_config(&self) -> CaptureConfig {
        self.config
    }

    pub closed spec fn states(&self) -> Map<u32, MonitorState> {
        self.monitor_states@
    }

    pub closed spec fn wf(&self) -> bool {
        &&& self.monitor_states.wf()
        &&& capture_config_wf(self.config)
        &&& forall|k: u32|
            self.monitor_states@.contains_key(k) ==> (#[trigger] self.monitor_states@[k]).wf()
    }

    /// The dedup state of a monitor, counting an unseen monitor as fresh.
    pub open spec fn state_of(states: Map<u32, MonitorState>, id: u32) -> MonitorState {
        if states.contains_key(id) {
            states[id]
        } else {
            MonitorState::initial()
        }
    }

    pub fn new(config: CaptureConfig) -> (r: Self)
        requires
            capture_config_wf(config),
        ensures
            r.wf(),
            r.spec_config() == config,
            r.states() =~= Map::<u32, MonitorState>::empty(),
    {
        FilterProcessor { config, monitor_states: IdMap::new() }
    }

    /// Judge one monitor's frame hash; the monitor's state (created fresh
    /// on first sight) advances per the dedup rules, other monitors'
    /// states are untouched.
    pub fn check(&mut self, monitor_id: u32, hash: u64, now_ms: i64) -> (skip: bool)
        requires
            old(self).wf(),
            0 <= now_ms <= MAX_TIMESTAMP_MS,
        ensures
            final(self).wf(),
            final(self).spec_config() == old(self).spec_config(),
            skip == gate_skips(
                Self::state_of(old(self).states(), monitor_id),
                hash,
                now_ms as int,
                old(self).spec_config(),
            ),
            final(self).states() =~= old(self).states().insert(
                monitor_id,
                gate_next(
                    Self::state_of(old(self).states(), monitor_id),
                    hash,
                    now_ms as int,
                    old(self).spec_config(),
                ),
            ),
    {
        let mut st: MonitorState = match self.monitor_states.get(monitor_id) {
            Some(s) => *s,
            None => MonitorState::new(),
        };
        let skip = should_skip(&self.config, hash, now_ms, &mut st);
        self.monitor_states.insert(monitor_id, st);
        skip
    }

    /// Strip from a batch every frame judged unchanged: a frame survives
    /// exactly when the dedup rules emit its hash, survivors are carried
    /// unchanged, each batch monitor's state advances by its own frame's
    /// hash, and monitors outside the batch keep their state.
    pub fn filter_event(&mut self, event: CaptureEvent, now_ms: i64) -> (r: CaptureEvent)
        requires
            old(self).wf(),
            event.wf(),
            0 <= now_ms <= MAX_TIMESTAMP_MS,
        ensures
            final(self).wf(),
            final(self).spec_config() == old(self).spec_config(),
            r.wf(),
            r.timestamp_ms == event.timestamp_ms,
            forall|k: u32|
                #[trigger] r.frames@.contains_key(k) ==> event.frames@.contains_key(k)
                    && r.frames@[k] == event.frames@[k],
            forall|k: u32|
                #[trigger] event.frames@.contains_key(k) ==> {
                    &&& r.frames@.contains_key(k) == !gate_skips(
                        Self::state_of(old(self).states(), k),
                        spec_dhash(gray_of(event.frames@[k].image)),
                        now_ms as int,
                        old(self).spec_config(),
                    )
                    &&& final(self).states().contains_key(k)
                    &&& final(self).states()[k] == gate_next(
                        Self::state_of(old(self).states(), k),
                        spec_dhash(gray_of(event.frames@[k].image)),
                        now_ms as int,
                        old(self).spec_config(),
                    )
                },
            forall|k: u32|
                !event.frames@.contains_key(k) ==> {
                    &&& final(self).states().contains_key(k) == old(self).states().contains_key(k)
                    &&& old(self).states().contains_key(k) ==> final(self).states()[k] == old(
                        self,
                    ).states()[k]
                },
    {
        let CaptureEvent { timestamp_ms, frames } = event;
        let ghost m0 = frames@;
        let ghost cfg0 = old(self).spec_config();
        let mut rem = frames.into_entries();
        let mut out = CaptureEvent::new(timestamp_ms);
        proof {
            assert forall|j: int| 0 <= j < rem@.len() implies m0.contains_key(
                #[trigger] rem@[j].0,
            ) && m0[rem@[j].0] == rem@[j].1 by {
                crate::idmap::lemma_entries_map_pair(rem@, j);
            }
            assert forall|k: u32| m0.contains_key(k) implies exists|j: int|
                0 <= j < rem@.len() && rem@[j].0 == k by {
                crate::idmap::lemma_entries_map_key(rem@, k);
            }
        }
        while rem.len() > 0
            invariant
                self.wf(),
                self.spec_config() == cfg0,
                cfg0 == old(self).spec_config(),
                out.wf(),
                out.timestamp_ms == timestamp_ms,
                crate::idmap::keys_distinct(rem@),
                0 <= now_ms <= MAX_TIMESTAMP_MS,
                forall|j: int|
                    0 <= j < rem@.len() ==> m0.contains_key(#[trigger] rem@[j].0) && m0[rem@[j].0]
                        == rem@[j].1,
                forall|k: u32|
                    #[trigger] out.frames@.contains_key(k) ==> m0.contains_key(k) && out.frames@[k]
                        == m0[k] && !(exists|j: int| 0 <= j < rem@.len() && rem@[j].0 == k),
                forall|k: u32|
                    (!m0.contains_key(k) || exists|j: int| 0 <= j < rem@.len() && rem@[j].0 == k)
                        ==> {
                        &&& self.states().contains_key(k) == old(self).states().contains_key(k)
                        &&& old(self).states().contains_key(k) ==> self.states()[k] == old(
                            self,
                        ).states()[k]
                    },
                forall|k: u32|
                    #![trigger m0.contains_key(k)]
                    m0.contains_key(k) && !(exists|j: int| 0 <= j < rem@.len() && rem@[j].0 == k)
                        ==> {
                        &&& out.frames@.contains_key(k) == !gate_skips(
                            Self::state_of(old(self).states(), k),
                            spec_dhash(gray_of(m0[k].image)),
                            now_ms as int,
                            cfg0,
                        )
                        &&& self.states().contains_key(k)
                        &&& self.states()[k] == gate_next(
                            Self::state_of(old(self).states(), k),
                            spec_dhash(gray_of(m0[k].image)),
                            now_ms as int,
                            cfg0,
                        )
                    },
            decreases rem@.len(),
        {
            let ghost rem0 = rem@;
            let popped = rem.pop().unwrap();
            let id = popped.0;
            let frame = popped.1;
            proof {
                assert(rem0[rem0.len() - 1].0 == id);
                assert(m0[id] == frame);
                assert(Self::state_of(self.states(), id) == Self::state_of(
                    old(self).states(),
                    id,
                ));
            }
            let hash = dhash(&frame.image);
            let skip = self.check(id, hash, now_ms);
            if !skip {
                out.add_image(id, frame.image, frame.info);
            }
            proof {
                assert forall|j: int| 0 <= j < rem@.len() implies rem@[j] == rem0[j] by {}
                assert forall|k: u32|
                    (!m0.contains_key(k) || exists|j: int|
                        0 <= j < rem@.len() && rem@[j].0 == k) implies {
                    &&& self.states().contains_key(k) == old(self).states().contains_key(k)
                    &&& old(self).states().contains_key(k) ==> self.states()[k] == old(
                        self,
                    ).states()[k]
                } by {
                    if m0.contains_key(k) {
                        let j = choose|j: int| 0 <= j < rem@.len() && rem@[j].0 == k;
                        assert(rem0[j].0 == k);
                        assert(k != id);
                    }
                }
                assert forall|k: u32|
                    #![trigger m0.contains_key(k)]
                    m0.contains_key(k) && !(exists|j: int|
                        0 <= j < rem@.len() && rem@[j].0 == k) implies {
                    &&& out.frames@.contains_key(k) == !gate_skips(
                        Self::state_of(old(self).states(), k),
                        spec_dhash(gray_of(m0[k].image)),
                        now_ms as int,
                        cfg0,
                    )
                    &&& self.states().contains_key(k)
                    &&& self.states()[k] == gate_next(
                        Self::state_of(old(self).states(), k),
                        spec_dhash(gray_of(m0[k].image)),
                        now_ms as int,
                        cfg0,
                    )
                } by {
                    if k != id {
                        assert forall|j: int| 0 <= j < rem0.len() implies rem0[j].0 != k by {
                            if j < rem0.len() - 1 {
                                assert(rem@[j] == rem0[j]);
                                assert(rem@[j].0 != k);
                            } else {
                                assert(rem0[j].0 == id);
                            }
                        }
                        assert(!(exists|j: int| 0 <= j < rem0.len() && rem0[j].0 == k));
                    } else {
                        assert(frame == m0[id]);
                    }
                }
                assert forall|k: u32| #[trigger] out.frames@.contains_key(k) implies !(exists|
                    j: int,
                |
                    0 <= j < rem@.len() && rem@[j].0 == k) by {
                    if exists|j: int| 0 <= j < rem@.len() && rem@[j].0 == k {
                        let j = choose|j: int| 0 <= j < rem@.len() && rem@[j].0 == k;
                        assert(rem0[j].0 == k);
                        assert(k != id);
                    }
                }
            }
        }
        proof {
            assert forall|k: u32| #[trigger] m0.contains_key(k) implies !(exists|j: int|
                0 <= j < rem@.len() && rem@[j].0 == k) by {}
        }
        out
    }
}

} // verus!
