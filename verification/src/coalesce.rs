//! The heartbeat coalescer: turns the stream of per-monitor report batches
//! into correctly time-delimited activity events. A batch with no records
//! re-emits the previous content; a batch with records retains recently
//! vanished monitors, caps the previous activity with a closing heartbeat
//! a small epsilon earlier, and becomes the new baseline.

use vstd::prelude::*;
use crate::config::AwServerConfig;
use crate::error::WatcherError;
use crate::event::{AwEvent, UploadImageInfoView};
use crate::idmap::IdMap;
use crate::timefmt::MAX_TIMESTAMP_MS;

verus! {

/// One zero-duration activity report for the backend: when it happened and
/// which batch content it describes.
pub struct Heartbeat {
    pub timestamp_ms: i64,
    pub duration_ms: i64,
    pub event: AwEvent,
}

/// The records of the previous batch, an empty map before the first one.
pub open spec fn prev_records(o: Option<Map<u32, UploadImageInfoView>>) -> Map<
    u32,
    UploadImageInfoView,
> {
    match o {
        Some(m) => m,
        None => Map::empty(),
    }
}

/// Whether a monitor absent from the current batch is retained from the
/// previous one: it was reported before and was last seen recently enough.
pub open spec fn retained(
    last: Map<u32, UploadImageInfoView>,
    seen: Map<u32, i64>,
    cur: Map<u32, UploadImageInfoView>,
    timeout: int,
    now: int,
    k: u32,
) -> bool {
    &&& !cur.contains_key(k)
    &&& last.contains_key(k)
    &&& seen.contains_key(k)
    &&& now - seen[k] <= timeout
}

/// The extended batch: every fresh record, plus the previous record of
/// every retained monitor.
pub open spec fn extended(
    last: Map<u32, UploadImageInfoView>,
    seen: Map<u32, i64>,
    cur: Map<u32, UploadImageInfoView>,
    timeout: int,
    now: int,
) -> Map<u32, UploadImageInfoView> {
    Map::new(
        |k: u32| cur.contains_key(k) || retained(last, seen, cur, timeout, now, k),
        |k: u32| if cur.contains_key(k) { cur[k] } else { last[k] },
    )
}

/// When each monitor of the extended batch was last seen: now for the
/// fresh ones, unchanged for the retained ones; everything else is purged.
pub open spec fn next_seen(
    last: Map<u32, UploadImageInfoView>,
    seen: Map<u32, i64>,
    cur: Map<u32, UploadImageInfoView>,
    timeout: int,
    now: int,
) -> Map<u32, i64> {
    Map::new(
        |k: u32| extended(last, seen, cur, timeout, now).contains_key(k),
        |k: u32| if cur.contains_key(k) { now as i64 } else { seen[k] },
    )
}

/// The timeouts the report stage can hold: a retention timeout that fits
/// in millisecond arithmetic, and a closing epsilon of at most a second.
pub open spec fn aw_server_config_wf(cfg: AwServerConfig) -> bool {
    &&& match cfg.timeout_secs {
        Some(t) => t <= 9_000_000_000,
        None => true,
    }
    &&& cfg.closing_epsilon_ms <= 1000
}

/// The report stage: the only cross-batch memory in the pipeline. It keeps
/// the last reported batch and when each of its monitors was last seen.
pub struct AwServerProcessor {
    config: AwServerConfig,
    timeout_ms: i64,
    last_datas: Option<AwEvent>,
    last_timestamp: IdMap<i64>,
}

impl AwServerProcessor {
    pub closed spec fn spec_config(&self) -> AwServerConfig {
        self.config
    }

    pub closed spec fn spec_timeout_ms(&self) -> i64 {
        self.timeout_ms
    }

    pub closed spec fn last_event(&self) -> Option<AwEvent> {
        self.last_datas
    }

    /// The records of the batch last adopted, if any.
    pub open spec fn last_records(&self) -> Option<Map<u32, UploadImageInfoView>> {
        match self.last_event() {
            Some(e) => Some(e.records()),
            None => None,
        }
    }

    /// When each tracked monitor was last freshly reported.
    pub closed spec fn last_seen(&self) -> Map<u32, i64> {
        self.last_timestamp@
    }

    pub closed spec fn wf(&self) -> bool {
        &&& self.last_timestamp.wf()
        &&& self.config.closing_epsilon_ms <= 1000
        &&& 0 <= self.timeout_ms <= 9_000_000_000_000
        &&& forall|k: u32|
            self.last_timestamp@.contains_key(k) ==> 0 <= #[trigger] self.last_timestamp@[k]
                <= MAX_TIMESTAMP_MS
        &&& match self.last_datas {
            None => self.last_timestamp@.dom() =~= Set::<u32>::empty(),
            Some(e) => e.wf() && self.last_timestamp@.dom() =~= e.records().dom(),
        }
    }

    /// A report stage that has seen nothing yet. The retention timeout
    /// falls back to sixty seconds when the configuration names none.
    pub fn new(config: AwServerConfig) -> (r: Self)
        requires
            aw_server_config_wf(config),
        ensures
            r.wf(),
            r.spec_config() == config,
            r.last_event() is None,
            r.last_seen() =~= Map::<u32, i64>::empty(),
            r.spec_timeout_ms() == 1000 * (match config.timeout_secs {
                Some(t) => t as int,
                None => 60,
            }),
    {
        let timeout_secs: u64 = match config.timeout_secs {
            Some(t) => t,
            None => 60,
        };
        AwServerProcessor {
            config,
            timeout_ms: (timeout_secs as i64) * 1000,
            last_datas: None,
            last_timestamp: IdMap::new(),
        }
    }

    /// The backend merge window, in seconds, if configured.
    pub fn pulse_time_secs(&self) -> (r: Option<u64>)
        ensures
            r == self.spec_config().pulse_time_secs,
    {
        self.config.pulse_time_secs
    }

    /// The backend settings this stage reports to.
    pub fn config(&self) -> (r: &AwServerConfig)
        ensures
            *r == self.spec_config(),
    {
        &self.config
    }

    /// Consume one report batch and say which heartbeats to send. An empty
    /// batch re-emits the previous content at the new instant and changes
    /// nothing; a batch with records is extended with recently seen
    /// monitors, capped by a closing heartbeat the configured epsilon
    /// early, and adopted as the new baseline. State advances whether or not the
    /// caller manages to transmit the heartbeats.
    pub fn process(&mut self, event: AwEvent) -> (r: Result<Vec<Heartbeat>, WatcherError>)
        requires
            old(self).wf(),
            event.wf(),
        ensures
            final(self).wf(),
            old(self).spec_config().pulse_time_secs is None ==> {
                &&& r == Err::<Vec<Heartbeat>, WatcherError>(WatcherError::PulseTimeMissing)
                &&& *final(self) == *old(self)
            },
            old(self).spec_config().pulse_time_secs is Some ==> {
                let cur = event.records();
                let t = event.timestamp_ms as int;
                let lrec = prev_records(old(self).last_records());
                let seen0 = old(self).last_seen();
                let tmo = old(self).spec_timeout_ms() as int;
                let ext = extended(lrec, seen0, cur, tmo, t);
                if cur.dom().len() == 0 {
                    if old(self).last_event() is None {
                        &&& r == Err::<Vec<Heartbeat>, WatcherError>(WatcherError::EmptyFirstBatch)
                        &&& *final(self) == *old(self)
                    } else {
                        &&& *final(self) == *old(self)
                        &&& r matches Ok(hbs) && hbs@.len() == 1 && hbs@[0].timestamp_ms
                            == event.timestamp_ms && hbs@[0].duration_ms == 0
                            && hbs@[0].event.records() =~= lrec && hbs@[0].event.local_dir@
                            == old(self).last_event()->0.local_dir@
                    }
                } else {
                    &&& final(self).spec_config() == old(self).spec_config()
                    &&& final(self).spec_timeout_ms() == old(self).spec_timeout_ms()
                    &&& final(self).last_event() is Some
                    &&& final(self).last_event()->0.records() =~= ext
                    &&& final(self).last_event()->0.timestamp_ms == event.timestamp_ms
                    &&& final(self).last_event()->0.local_dir@ == event.local_dir@
                    &&& final(self).last_event()->0.s3_info == event.s3_info
                    &&& final(self).last_seen() =~= next_seen(lrec, seen0, cur, tmo, t)
                    &&& r matches Ok(hbs) && ({
                        if old(self).last_event() is Some {
                            &&& hbs@.len() == 2
                            &&& hbs@[0].timestamp_ms == event.timestamp_ms - old(
                                self,
                            ).spec_config().closing_epsilon_ms
                            &&& hbs@[0].duration_ms == 0
                            &&& hbs@[0].event == old(self).last_event()->0
                            &&& hbs@[1].timestamp_ms == event.timestamp_ms
                            &&& hbs@[1].duration_ms == 0
                            &&& hbs@[1].event.records() =~= ext
                        } else {
                            &&& hbs@.len() == 1
                            &&& hbs@[0].timestamp_ms == event.timestamp_ms
                            &&& hbs@[0].duration_ms == 0
                            &&& hbs@[0].event.records() =~= ext
                        }
                    })
                }
            },
    {
        if self.config.pulse_time_secs.is_none() {
            return Err(WatcherError::PulseTimeMissing);
        }
        let timestamp = event.timestamp_ms;
        let ghost cur = event.records();
        let ghost seen0 = self.last_timestamp@;
        let ghost t = timestamp as int;
        let ghost lrec = prev_records(old(self).last_records());
        let ghost tmo = self.timeout_ms as int;

        if event.datas.is_empty() {
            proof {
                event.datas.lemma_view();
                assert(cur.dom() =~= event.datas@.dom());
            }
            match &self.last_datas {
                None => Err(WatcherError::EmptyFirstBatch),
                Some(last) => {
                    let dup = last.duplicate();
                    let mut hbs: Vec<Heartbeat> = Vec::new();
                    hbs.push(Heartbeat { timestamp_ms: timestamp, duration_ms: 0, event: dup });
                    Ok(hbs)
                },
            }
        } else {
            proof {
                event.datas.lemma_view();
                assert(cur.dom() =~= event.datas@.dom());
            }
            let ghost ev0 = event;
            // Every fresh monitor was seen now.
            let n = event.datas.len();
            let mut i: usize = 0;
            while i < n
                invariant
                    event.wf(),
                    cur == event.records(),
                    cur.dom() == event.datas@.dom(),
                    n == event.datas.key_seq().len(),
                    i <= n,
                    0 <= timestamp <= MAX_TIMESTAMP_MS,
                    timestamp == event.timestamp_ms,
                    seen0 == old(self).last_seen(),
                    self.last_timestamp.wf(),
                    self.config == old(self).config,
                    self.timeout_ms == old(self).timeout_ms,
                    self.last_datas == old(self).last_datas,
                    forall|j: int|
                        #![trigger event.datas.key_seq()[j]]
                        0 <= j < i ==> {
                            &&& self.last_timestamp@.contains_key(event.datas.key_seq()[j])
                            &&& self.last_timestamp@[event.datas.key_seq()[j]] == timestamp
                        },
                    forall|k: u32|
                        #![trigger cur.contains_key(k)]
                        #![trigger seen0.contains_key(k)]
                        !cur.contains_key(k) ==> {
                            &&& self.last_timestamp@.contains_key(k) == seen0.contains_key(k)
                            &&& seen0.contains_key(k) ==> self.last_timestamp@[k] == seen0[k]
                        },
                    forall|k: u32|
                        self.last_timestamp@.contains_key(k) ==> 0
                            <= #[trigger] self.last_timestamp@[k] <= MAX_TIMESTAMP_MS,
                decreases n - i,
            {
                proof {
                    event.datas.lemma_view();
                }
                let k = event.datas.key_at(i);
                let ghost lt0 = self.last_timestamp@;
                self.last_timestamp.insert(k, timestamp);
                proof {
                    assert(event.datas@.contains_key(k));
                    assert(cur.contains_key(k));
                    assert forall|kk: u32| !cur.contains_key(kk) implies {
                        &&& self.last_timestamp@.contains_key(kk) == seen0.contains_key(kk)
                        &&& seen0.contains_key(kk) ==> self.last_timestamp@[kk] == seen0[kk]
                    } by {
                        assert(kk != k);
                        assert(lt0.contains_key(kk) == seen0.contains_key(kk));
                    }
                }
                i = i + 1;
            }
            proof {
                event.datas.lemma_view();
                assert forall|k: u32| #![trigger cur.contains_key(k)] cur.contains_key(
                    k,
                ) implies self.last_timestamp@.contains_key(k) && self.last_timestamp@[k]
                    == timestamp by {
                    let j = choose|j: int|
                        0 <= j < event.datas.key_seq().len() && event.datas.key_seq()[j] == k;
                    assert(self.last_timestamp@.contains_key(event.datas.key_seq()[j]));
                }
            }
            let ghost seen1 = self.last_timestamp@;

            // Retain recently seen monitors from the previous batch.
            let mut ext_event = event;
            match &self.last_datas {
                Some(last) => {
                    let m = last.datas.len();
                    let mut j: usize = 0;
                    while j < m
                        invariant
                            *last == old(self).last_event()->0,
                            old(self).last_event() is Some,
                            self.last_datas == old(self).last_datas,
                            self.config == old(self).config,
                            self.timeout_ms == old(self).timeout_ms,
                            seen1 == self.last_timestamp@,
                            self.last_timestamp.wf(),
                            tmo == self.timeout_ms as int,
                            0 <= self.timeout_ms <= 9_000_000_000_000,
                            last.wf(),
                            lrec == last.records(),
                            m == last.datas.key_seq().len(),
                            j <= m,
                            ext_event.wf(),
                            ext_event.timestamp_ms == timestamp,
                            ext_event.local_dir == ev0.local_dir,
                            ext_event.s3_info == ev0.s3_info,
                            0 <= timestamp <= MAX_TIMESTAMP_MS,
                            t == timestamp as int,
                            cur == ev0.records(),
                            forall|k: u32|
                                #![trigger cur.contains_key(k)]
                                cur.contains_key(k) ==> seen1.contains_key(k) && seen1[k]
                                    == timestamp,
                            forall|k: u32|
                                #![trigger cur.contains_key(k)]
                                #![trigger seen0.contains_key(k)]
                                !cur.contains_key(k) ==> {
                                    &&& seen1.contains_key(k) == seen0.contains_key(k)
                                    &&& seen0.contains_key(k) ==> seen1[k] == seen0[k]
                                },
                            forall|k: u32|
                                seen1.contains_key(k) ==> 0 <= #[trigger] seen1[k]
                                    <= MAX_TIMESTAMP_MS,
                            forall|k: u32|
                                #![trigger cur.contains_key(k)]
                                cur.contains_key(k) ==> ext_event.records().contains_key(k)
                                    && ext_event.records()[k] == cur[k],
                            forall|jj: int|
                                #![trigger last.datas.key_seq()[jj]]
                                0 <= jj < j ==> (retained(
                                    lrec,
                                    seen0,
                                    cur,
                                    tmo,
                                    t,
                                    last.datas.key_seq()[jj],
                                ) ==> ext_event.records().contains_key(last.datas.key_seq()[jj])
                                    && ext_event.records()[last.datas.key_seq()[jj]]
                                    == lrec[last.datas.key_seq()[jj]]),
                            forall|k: u32|
                                #![trigger ext_event.records().contains_key(k)]
                                ext_event.records().contains_key(k) && !cur.contains_key(k)
                                    ==> retained(lrec, seen0, cur, tmo, t, k) && exists|jj: int|
                                    0 <= jj < j && last.datas.key_seq()[jj] == k,
                        decreases m - j,
                    {
                        proof {
                            last.datas.lemma_view();
                        }
                        let k = last.datas.key_at(j);
                        let ghost recs0 = ext_event.records();
                        if !ext_event.datas.contains(k) {
                            proof {
                                assert(!recs0.contains_key(k));
                                assert(!cur.contains_key(k));
                            }
                            let within: bool = match self.last_timestamp.get(k) {
                                Some(ts) => timestamp - *ts <= self.timeout_ms,
                                None => false,
                            };
                            proof {
                                assert(lrec.contains_key(k));
                                assert(within == retained(lrec, seen0, cur, tmo, t, k));
                            }
                            if within {
                                let rec = last.datas.val_at(j);
                                let dup = rec.duplicate();
                                proof {
                                    assert(dup@ == lrec[k]);
                                }
                                ext_event.add_data(k, dup);
                            }
                        } else {
                            proof {
                                assert(recs0.contains_key(k));
                                if !cur.contains_key(k) {
                                    let jj = choose|jj: int|
                                        0 <= jj < j && last.datas.key_seq()[jj] == k;
                                    assert(last.datas.key_seq()[jj] == last.datas.key_seq()[
                                        j as int
                                    ]);
                                    assert(false);
                                }
                            }
                        }
                        let ghost jprev = j as int;
                        j = j + 1;
                        proof {
                            assert forall|k: u32|
                                #![trigger ext_event.records().contains_key(k)]
                                ext_event.records().contains_key(k) && !cur.contains_key(
                                    k,
                                ) implies retained(lrec, seen0, cur, tmo, t, k) && exists|jj: int|
                                0 <= jj < j && last.datas.key_seq()[jj] == k by {
                                if recs0.contains_key(k) {
                                    let jj = choose|jj: int|
                                        0 <= jj < jprev && last.datas.key_seq()[jj] == k;
                                    assert(0 <= jj < j && last.datas.key_seq()[jj] == k);
                                } else {
                                    assert(last.datas.key_seq()[jprev] == k);
                                }
                            }
                        }
                    }
                },
                None => {},
            }
            let ghost ext = extended(lrec, seen0, cur, tmo, t);
            proof {
                match &self.last_datas {
                    Some(l) => {
                        l.datas.lemma_view();
                        assert forall|k: u32| ext.contains_key(
                            k,
                        ) implies ext_event.records().contains_key(k) && ext_event.records()[k]
                            == ext[k] by {
                            if !cur.contains_key(k) {
                                assert(retained(lrec, seen0, cur, tmo, t, k));
                                assert(lrec.contains_key(k));
                                assert(l.datas@.contains_key(k));
                                let jj = choose|jj: int|
                                    0 <= jj < l.datas.key_seq().len() && l.datas.key_seq()[jj]
                                        == k;
                                assert(retained(lrec, seen0, cur, tmo, t, l.datas.key_seq()[jj]));
                            }
                        }
                    },
                    None => {
                        assert(lrec =~= Map::<u32, UploadImageInfoView>::empty());
                        assert forall|k: u32| ext.contains_key(
                            k,
                        ) implies ext_event.records().contains_key(k) && ext_event.records()[k]
                            == ext[k] by {
                            assert(cur.contains_key(k));
                        }
                    },
                }
                assert(ext_event.records() =~= ext);
            }

            // Purge the seen map down to the extended batch's monitors.
            let mut new_lt: IdMap<i64> = IdMap::new();
            let p = ext_event.datas.len();
            let mut q: usize = 0;
            while q < p
                invariant
                    ext_event.wf(),
                    ext == ext_event.records(),
                    ext == extended(lrec, seen0, cur, tmo, t),
                    seen1 == self.last_timestamp@,
                    self.last_timestamp.wf(),
                    self.config == old(self).config,
                    self.timeout_ms == old(self).timeout_ms,
                    self.last_datas == old(self).last_datas,
                    p == ext_event.datas.key_seq().len(),
                    q <= p,
                    new_lt.wf(),
                    0 <= timestamp <= MAX_TIMESTAMP_MS,
                    t == timestamp as int,
                    forall|k: u32|
                        #![trigger cur.contains_key(k)]
                        cur.contains_key(k) ==> seen1.contains_key(k) && seen1[k] == timestamp,
                    forall|k: u32|
                        #![trigger cur.contains_key(k)]
                        #![trigger seen0.contains_key(k)]
                        !cur.contains_key(k) ==> {
                            &&& seen1.contains_key(k) == seen0.contains_key(k)
                            &&& seen0.contains_key(k) ==> seen1[k] == seen0[k]
                        },
                    forall|k: u32|
                        seen1.contains_key(k) ==> 0 <= #[trigger] seen1[k] <= MAX_TIMESTAMP_MS,
                    forall|jj: int|
                        #![trigger ext_event.datas.key_seq()[jj]]
                        0 <= jj < q ==> {
                            &&& new_lt@.contains_key(ext_event.datas.key_seq()[jj])
                            &&& new_lt@[ext_event.datas.key_seq()[jj]] == seen1[ext_event.datas.key_seq()[jj]]
                        },
                    forall|k: u32|
                        #![trigger new_lt@.contains_key(k)]
                        new_lt@.contains_key(k) ==> ext.contains_key(k) && seen1.contains_key(k)
                            && new_lt@[k] == seen1[k],
                decreases p - q,
            {
                proof {
                    ext_event.datas.lemma_view();
                }
                let k = ext_event.datas.key_at(q);
                proof {
                    assert(ext_event.datas@.contains_key(k));
                    assert(ext.contains_key(k));
                    assert(ext.contains_key(k) == (cur.contains_key(k) || retained(
                        lrec,
                        seen0,
                        cur,
                        tmo,
                        t,
                        k,
                    )));
                    assert(seen1.contains_key(k));
                }
                let v: i64 = match self.last_timestamp.get(k) {
                    Some(ts) => *ts,
                    None => 0,
                };
                proof {
                    assert(v == seen1[k]);
                }
                new_lt.insert(k, v);
                q = q + 1;
            }
            proof {
                ext_event.datas.lemma_view();
                assert forall|k: u32| ext.contains_key(k) implies new_lt@.contains_key(k)
                    && new_lt@[k] == seen1[k] by {
                    assert(ext_event.datas@.contains_key(k));
                    let jj = choose|jj: int|
                        0 <= jj < ext_event.datas.key_seq().len() && ext_event.datas.key_seq()[jj]
                            == k;
                    assert(new_lt@.contains_key(ext_event.datas.key_seq()[jj]));
                }
                assert(new_lt@ =~= next_seen(lrec, seen0, cur, tmo, t));
            }
            self.last_timestamp = new_lt;

            // Cap the previous activity, emit the new one, adopt the batch.
            let mut hbs: Vec<Heartbeat> = Vec::new();
            let prev = self.last_datas.take();
            match prev {
                Some(prev_event) => {
                    let epsilon = self.config.closing_epsilon_ms as i64;
                    hbs.push(
                        Heartbeat {
                            timestamp_ms: timestamp - epsilon,
                            duration_ms: 0,
                            event: prev_event,
                        },
                    );
                },
                None => {},
            }
            let emit = ext_event.duplicate();
            hbs.push(Heartbeat { timestamp_ms: timestamp, duration_ms: 0, event: emit });
            self.last_datas = Some(ext_event);
            proof {
                assert(self.last_timestamp@.dom() =~= ext_event.records().dom());
                assert(self.wf());
            }
            Ok(hbs)
        }
    }
}

} // verus!
