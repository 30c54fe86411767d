//! The values that flow through the pipeline: captured frames, encoded
//! frames, and the per-monitor upload records reported to the backend.

use vstd::prelude::*;
use crate::idmap::IdMap;
use crate::timefmt::{
    MAX_TIMESTAMP_MS, dec_rep, signed_dec_rep, spec_path_subdir, spec_compact_timestamp,
    civil_of, civil_from_millis, path_subdir_of, compact_timestamp_of, u64_to_string,
    u128_to_string, i64_to_string,
};
use crate::error::WatcherError;

verus! {

/// A tick of the capture timer.
pub type CaptureCommand = bool;

/// Acknowledgement that a batch went through the last stage.
pub type CompleteCommand = bool;

/// An encoded image.
pub type WebpImage = Vec<u8>;

/// What a per-monitor upload record says.
pub struct UploadImageInfoView {
    pub monitor_name: Seq<char>,
    pub monitor_id: u32,
    pub object_key: Seq<char>,
}

/// The durable per-monitor fact the backend cares about: which monitor,
/// under which name, and under which object key its frame was stored.
pub struct UploadImageInfo {
    pub monitor_name: String,
    pub monitor_id: u32,
    pub object_key: String,
}

impl View for UploadImageInfo {
    type V = UploadImageInfoView;

    open spec fn view(&self) -> UploadImageInfoView {
        UploadImageInfoView {
            monitor_name: self.monitor_name@,
            monitor_id: self.monitor_id,
            object_key: self.object_key@,
        }
    }
}

impl UploadImageInfo {
    pub fn new(monitor_name: String, monitor_id: u32, object_key: String) -> (r: Self)
        ensures
            r@ == (UploadImageInfoView {
                monitor_name: monitor_name@,
                monitor_id,
                object_key: object_key@,
            }),
    {
        UploadImageInfo { monitor_name, monitor_id, object_key }
    }

    /// A fresh record that says the same.
    pub fn duplicate(&self) -> (r: Self)
        ensures
            r@ == self@,
    {
        UploadImageInfo {
            monitor_name: String::from_str(self.monitor_name.as_str()),
            monitor_id: self.monitor_id,
            object_key: String::from_str(self.object_key.as_str()),
        }
    }
}

/// What an object-store destination says.
pub struct UploadS3InfoView {
    pub endpoint: Seq<char>,
    pub bucket: Seq<char>,
    pub prefix: Seq<char>,
}

/// Where a batch's frames were shipped: endpoint, bucket and key prefix.
pub struct UploadS3Info {
    pub endpoint: String,
    pub bucket: String,
    pub prefix: String,
}

impl View for UploadS3Info {
    type V = UploadS3InfoView;

    open spec fn view(&self) -> UploadS3InfoView {
        UploadS3InfoView { endpoint: self.endpoint@, bucket: self.bucket@, prefix: self.prefix@ }
    }
}

impl UploadS3Info {
    pub fn new(endpoint: String, bucket: String, prefix: String) -> (r: Self)
        ensures
            r@ == (UploadS3InfoView { endpoint: endpoint@, bucket: bucket@, prefix: prefix@ }),
    {
        UploadS3Info { endpoint, bucket, prefix }
    }

    /// A fresh destination that says the same.
    pub fn duplicate(&self) -> (r: Self)
        ensures
            r@ == self@,
    {
        UploadS3Info {
            endpoint: String::from_str(self.endpoint.as_str()),
            bucket: String::from_str(self.bucket.as_str()),
            prefix: String::from_str(self.prefix.as_str()),
        }
    }
}

/// The `{name}_{width}_{height}_{x}_{y}` identity string of a monitor; an
/// unnamed monitor falls back to `Monitor_{id}`.
pub open spec fn spec_friendly_name(
    name: Seq<char>,
    id: u32,
    width: u32,
    height: u32,
    x: int,
    y: int,
) -> Seq<char> {
    (if name.len() > 0 {
        name
    } else {
        "Monitor_"@ + dec_rep(id as int)
    }) + seq!['_'] + dec_rep(width as int) + seq!['_'] + dec_rep(height as int) + seq!['_']
        + signed_dec_rep(x) + seq!['_'] + signed_dec_rep(y)
}

/// Identity and geometry of one monitor, optionally carrying a payload
/// produced for it (a raw image, an encoded image, or dedup state).
pub struct ImageInfo<P> {
    pub id: u32,
    pub name: String,
    pub x: i32,
    pub y: i32,
    pub width: u32,
    pub height: u32,
    pub payload: Option<P>,
}

impl<P> ImageInfo<P> {
    /// A monitor's identity from its enumerated properties; the display
    /// name is stripped down to ASCII letters and digits.
    pub fn new(id: u32, name: &str, x: i32, y: i32, width: u32, height: u32) -> (r: Self)
        ensures
            r.id == id,
            r.name@ == crate::monitor::spec_sanitized(name@),
            r.x == x,
            r.y == y,
            r.width == width,
            r.height == height,
            r.payload is None,
    {
        ImageInfo {
            id,
            name: crate::monitor::sanitize_name(name),
            x,
            y,
            width,
            height,
            payload: None,
        }
    }

    /// The same monitor identity without any payload.
    pub fn from_base_info<Q>(base_info: &ImageInfo<Q>) -> (r: Self)
        ensures
            r.id == base_info.id,
            r.name@ == base_info.name@,
            r.x == base_info.x,
            r.y == base_info.y,
            r.width == base_info.width,
            r.height == base_info.height,
            r.payload is None,
    {
        ImageInfo {
            id: base_info.id,
            name: String::from_str(base_info.name.as_str()),
            x: base_info.x,
            y: base_info.y,
            width: base_info.width,
            height: base_info.height,
            payload: None,
        }
    }

    pub fn set_payload(&mut self, payload: P)
        ensures
            final(self).id == old(self).id,
            final(self).name == old(self).name,
            final(self).x == old(self).x,
            final(self).y == old(self).y,
            final(self).width == old(self).width,
            final(self).height == old(self).height,
            final(self).payload == Some(payload),
    {
        self.payload = Some(payload);
    }

    /// The `{name}_{width}_{height}_{x}_{y}` identity string.
    pub fn get_friendly_name(&self) -> (r: String)
        ensures
            r@ == spec_friendly_name(
                self.name@,
                self.id,
                self.width,
                self.height,
                self.x as int,
                self.y as int,
            ),
    {
        let mut s: String;
        if self.name.as_str().unicode_len() > 0 {
            s = String::from_str(self.name.as_str());
        } else {
            s = String::from_str("Monitor_");
            s.append(u64_to_string(self.id as u64).as_str());
        }
        s.append("_");
        s.append(u64_to_string(self.width as u64).as_str());
        s.append("_");
        s.append(u64_to_string(self.height as u64).as_str());
        s.append("_");
        s.append(i64_to_string(self.x as i64).as_str());
        s.append("_");
        s.append(i64_to_string(self.y as i64).as_str());
        proof {
            reveal_strlit("_");
            assert(s@ =~= spec_friendly_name(
                self.name@,
                self.id,
                self.width,
                self.height,
                self.x as int,
                self.y as int,
            ));
        }
        s
    }
}

/// One raw image captured from one monitor, with that monitor's record.
pub struct CaptureFrame {
    pub image: image::DynamicImage,
    pub info: UploadImageInfo,
}

/// The batch a capture tick produces: at most one frame per monitor.
pub struct CaptureEvent {
    pub timestamp_ms: i64,
    pub frames: IdMap<CaptureFrame>,
}

impl CaptureEvent {
    pub open spec fn wf(&self) -> bool {
        &&& self.frames.wf()
        &&& 0 <= self.timestamp_ms <= MAX_TIMESTAMP_MS
    }

    /// An empty batch at the given instant.
    pub fn new(timestamp_ms: i64) -> (r: Self)
        requires
            0 <= timestamp_ms <= MAX_TIMESTAMP_MS,
        ensures
            r.wf(),
            r.timestamp_ms == timestamp_ms,
            r.frames@ =~= Map::<u32, CaptureFrame>::empty(),
    {
        CaptureEvent { timestamp_ms, frames: IdMap::new() }
    }

    /// Record one monitor's captured image.
    pub fn add_image(&mut self, id: u32, image: image::DynamicImage, info: UploadImageInfo)
        requires
            old(self).wf(),
        ensures
            final(self).wf(),
            final(self).timestamp_ms == old(self).timestamp_ms,
            final(self).frames@ =~= old(self).frames@.insert(id, CaptureFrame { image, info }),
    {
        self.frames.insert(id, CaptureFrame { image, info });
    }

    /// The `{yyyy}/{mm}/{dd}/{hh}` cache subdirectory of this batch's
    /// timestamp.
    pub fn get_path_subdir(&self) -> (r: String)
        requires
            self.wf(),
        ensures
            r@ == spec_subdir_of_millis(self.timestamp_ms),
    {
        let c = civil_from_millis(self.timestamp_ms);
        path_subdir_of(c.0, c.1, c.2, c.3)
    }
}

/// The cache subdirectory a timestamp resolves to.
pub open spec fn spec_subdir_of_millis(ms: i64) -> Seq<char> {
    spec_path_subdir(
        civil_of(ms).0 as int,
        civil_of(ms).1 as int,
        civil_of(ms).2 as int,
        civil_of(ms).3 as int,
    )
}

/// The compact file-name timestamp a timestamp resolves to.
pub open spec fn spec_compact_of_millis(ms: i64) -> Seq<char> {
    spec_compact_timestamp(
        civil_of(ms).0 as int,
        civil_of(ms).1 as int,
        civil_of(ms).2 as int,
        civil_of(ms).3 as int,
        civil_of(ms).4 as int,
        civil_of(ms).5 as int,
        civil_of(ms).6 as int,
    )
}

/// One monitor's encoded image together with its upload record.
pub struct EncodedFrame {
    pub info: UploadImageInfo,
    pub data: WebpImage,
}

/// The batch the encode stage produces: encoded bytes per monitor, plus
/// where they were cached locally.
pub struct ImageEvent {
    pub timestamp_ms: i64,
    pub local_dir: String,
    pub frames: IdMap<EncodedFrame>,
}

/// The object key under which one frame of a batch is stored:
/// `{keyPrefix}{yyyy}/{mm}/{dd}/{hh}/{timestampMillis}_{monitorId}.webp`.
pub open spec fn spec_object_key(prefix: Seq<char>, subdir: Seq<char>, millis: int, id: int)
    -> Seq<char> {
    prefix + subdir + seq!['/'] + dec_rep(millis) + seq!['_'] + dec_rep(id) + ".webp"@
}

/// Build the object key for one frame.
pub fn object_key_of(prefix: &str, subdir: &str, millis: i64, id: u32) -> (r: String)
    requires
        millis >= 0,
    ensures
        r@ == spec_object_key(prefix@, subdir@, millis as int, id as int),
{
    let mut s = String::from_str(prefix);
    s.append(subdir);
    s.append("/");
    s.append(u64_to_string(millis as u64).as_str());
    s.append("_");
    s.append(u64_to_string(id as u64).as_str());
    s.append(".webp");
    proof {
        reveal_strlit("/");
        reveal_strlit("_");
        assert(s@ =~= spec_object_key(prefix@, subdir@, millis as int, id as int));
    }
    s
}

impl ImageEvent {
    pub open spec fn wf(&self) -> bool {
        &&& self.frames.wf()
        &&& 0 <= self.timestamp_ms <= MAX_TIMESTAMP_MS
    }

    /// An empty encoded batch at the given instant, cached under the given
    /// directory.
    pub fn new(timestamp_ms: i64, local_dir: String) -> (r: Self)
        requires
            0 <= timestamp_ms <= MAX_TIMESTAMP_MS,
        ensures
            r.wf(),
            r.timestamp_ms == timestamp_ms,
            r.local_dir@ == local_dir@,
            r.frames@ =~= Map::<u32, EncodedFrame>::empty(),
    {
        ImageEvent { timestamp_ms, local_dir, frames: IdMap::new() }
    }

    /// Record one monitor's encoded bytes; the bytes are kept as given.
    pub fn add_data(&mut self, id: u32, frame: EncodedFrame)
        requires
            old(self).wf(),
        ensures
            final(self).wf(),
            final(self).timestamp_ms == old(self).timestamp_ms,
            final(self).local_dir == old(self).local_dir,
            final(self).frames@ =~= old(self).frames@.insert(id, frame),
            final(self).frames@[id].data@ == frame.data@,
    {
        self.frames.insert(id, frame);
    }

    /// The compact timestamp of this batch, as the original cached file
    /// names carried it.
    pub fn get_format_timestamp(&self) -> (r: String)
        requires
            self.wf(),
        ensures
            r@ == spec_compact_of_millis(self.timestamp_ms),
    {
        let c = civil_from_millis(self.timestamp_ms);
        compact_timestamp_of(c.0, c.1, c.2, c.3, c.4, c.5, c.6)
    }

    /// The `{yyyy}/{mm}/{dd}/{hh}` cache subdirectory of this batch's
    /// timestamp.
    pub fn get_path_subdir(&self) -> (r: String)
        requires
            self.wf(),
        ensures
            r@ == spec_subdir_of_millis(self.timestamp_ms),
    {
        let c = civil_from_millis(self.timestamp_ms);
        path_subdir_of(c.0, c.1, c.2, c.3)
    }
}

impl ImageEvent {
    /// Split an encoded batch into its report batch and its bytes: each
    /// frame becomes a record keyed by its monitor, named as the frame
    /// was, under the object key
    /// `{keyPrefix}{subdir}/{timestampMillis}_{monitorId}.webp`, the
    /// prefix taken from the destination.
    pub fn into_parts_with(self, s3_info: UploadS3Info, subdir: &str) -> (r: (
        AwEvent,
        IdMap<WebpImage>,
    ))
        requires
            self.wf(),
        ensures
            r.0.wf(),
            r.1.wf(),
            r.0.timestamp_ms == self.timestamp_ms,
            r.0.local_dir@ == self.local_dir@,
            r.0.s3_info == Some(s3_info),
            forall|k: u32|
                #[trigger] r.0.records().contains_key(k) == self.frames@.contains_key(k),
            forall|k: u32|
                self.frames@.contains_key(k) ==> r.0.records()[k] == (UploadImageInfoView {
                    monitor_name: (#[trigger] self.frames@[k]).info@.monitor_name,
                    monitor_id: k,
                    object_key: spec_object_key(
                        s3_info@.prefix,
                        subdir@,
                        self.timestamp_ms as int,
                        k as int,
                    ),
                }),
            forall|k: u32| #[trigger] r.1@.contains_key(k) == self.frames@.contains_key(k),
            forall|k: u32|
                self.frames@.contains_key(k) ==> r.1@[k] == (#[trigger] self.frames@[k]).data,
    {
        let ImageEvent { timestamp_ms, local_dir, frames } = self;
        let ghost m0 = frames@;
        let prefix = String::from_str(s3_info.prefix.as_str());
        let mut rem = frames.into_entries();
        let mut aw = AwEvent::new(timestamp_ms, local_dir, Some(s3_info));
        let mut datas: IdMap<WebpImage> = IdMap::new();
        proof {
            assert forall|j: int| 0 <= j < rem@.len() implies m0.contains_key(
                #[trigger] rem@[j].0,
            ) && m0[rem@[j].0] == rem@[j].1 by {
                crate::idmap::lemma_entries_map_pair(rem@, j);
            }
            assert forall|k: u32| m0.contains_key(k) implies exists|j: int|
                0 <= j < rem@.len() && rem@[j].0 == k by {
                crate::idmap::lemma_entries_map_key(rem@, k);
            }
        }
        while rem.len() > 0
            invariant
                aw.wf(),
                datas.wf(),
                aw.timestamp_ms == timestamp_ms,
                0 <= timestamp_ms <= crate::timefmt::MAX_TIMESTAMP_MS,
                aw.local_dir@ == self.local_dir@,
                aw.s3_info == Some(s3_info),
                prefix@ == s3_info@.prefix,
                crate::idmap::keys_distinct(rem@),
                forall|j: int|
                    0 <= j < rem@.len() ==> m0.contains_key(#[trigger] rem@[j].0) && m0[rem@[j].0]
                        == rem@[j].1,
                forall|k: u32|
                    #[trigger] aw.records().contains_key(k) ==> m0.contains_key(k) && aw.records()[k]
                        == (UploadImageInfoView {
                        monitor_name: m0[k].info@.monitor_name,
                        monitor_id: k,
                        object_key: spec_object_key(
                            s3_info@.prefix,
                            subdir@,
                            timestamp_ms as int,
                            k as int,
                        ),
                    }),
                forall|k: u32|
                    #[trigger] datas@.contains_key(k) ==> m0.contains_key(k) && datas@[k]
                        == m0[k].data,
                forall|k: u32|
                    m0.contains_key(k) ==> (aw.records().contains_key(k) && datas@.contains_key(k))
                        || exists|j: int| 0 <= j < rem@.len() && rem@[j].0 == k,
            decreases rem@.len(),
        {
            let ghost rem0 = rem@;
            let popped = rem.pop().unwrap();
            let id = popped.0;
            let frame = popped.1;
            proof {
                assert(rem0[rem0.len() - 1].0 == id);
            }
            let key = object_key_of(prefix.as_str(), subdir, timestamp_ms, id);
            let info = UploadImageInfo::new(frame.info.monitor_name, id, key);
            aw.add_data(id, info);
            datas.insert(id, frame.data);
            proof {
                assert forall|k: u32| m0.contains_key(k) implies (aw.records().contains_key(k)
                    && datas@.contains_key(k)) || exists|j: int|
                    0 <= j < rem@.len() && rem@[j].0 == k by {
                    if !(aw.records().contains_key(k) && datas@.contains_key(k)) {
                        let j = choose|j: int| 0 <= j < rem0.len() && rem0[j].0 == k;
                        assert(j < rem0.len() - 1);
                        assert(rem@[j].0 == k);
                    }
                }
            }
        }
        (aw, datas)
    }

    /// Split an encoded batch, deriving the object-key subdirectory from
    /// the batch's own timestamp.
    pub fn into_parts(self, s3_info: UploadS3Info) -> (r: (AwEvent, IdMap<WebpImage>))
        requires
            self.wf(),
        ensures
            r.0.wf(),
            r.1.wf(),
            r.0.timestamp_ms == self.timestamp_ms,
            r.0.local_dir@ == self.local_dir@,
            r.0.s3_info == Some(s3_info),
            forall|k: u32|
                #[trigger] r.0.records().contains_key(k) == self.frames@.contains_key(k),
            forall|k: u32|
                self.frames@.contains_key(k) ==> r.0.records()[k] == (UploadImageInfoView {
                    monitor_name: (#[trigger] self.frames@[k]).info@.monitor_name,
                    monitor_id: k,
                    object_key: spec_object_key(
                        s3_info@.prefix,
                        spec_subdir_of_millis(self.timestamp_ms),
                        self.timestamp_ms as int,
                        k as int,
                    ),
                }),
            forall|k: u32| #[trigger] r.1@.contains_key(k) == self.frames@.contains_key(k),
            forall|k: u32|
                self.frames@.contains_key(k) ==> r.1@[k] == (#[trigger] self.frames@[k]).data,
    {
        let subdir = self.get_path_subdir();
        self.into_parts_with(s3_info, subdir.as_str())
    }
}

/// The batch the report stage consumes: one upload record per monitor.
pub struct AwEvent {
    pub datas: IdMap<UploadImageInfo>,
    pub timestamp_ms: i64,
    pub local_dir: String,
    pub s3_info: Option<UploadS3Info>,
}

impl AwEvent {
    pub open spec fn wf(&self) -> bool {
        &&& self.datas.wf()
        &&& 0 <= self.timestamp_ms <= MAX_TIMESTAMP_MS
    }

    /// What the records of this batch say, per monitor.
    pub open spec fn records(&self) -> Map<u32, UploadImageInfoView> {
        self.datas@.map_values(|r: UploadImageInfo| r@)
    }

    pub fn new(timestamp_ms: i64, local_dir: String, s3_info: Option<UploadS3Info>) -> (r: Self)
        requires
            0 <= timestamp_ms <= MAX_TIMESTAMP_MS,
        ensures
            r.wf(),
            r.timestamp_ms == timestamp_ms,
            r.local_dir == local_dir,
            r.s3_info == s3_info,
            r.records() =~= Map::<u32, UploadImageInfoView>::empty(),
    {
        AwEvent { datas: IdMap::new(), timestamp_ms, local_dir, s3_info }
    }

    pub fn get_data(&self, key: u32) -> (r: Option<&UploadImageInfo>)
        requires
            self.wf(),
        ensures
            match r {
                Some(v) => self.records().contains_key(key) && v@ == self.records()[key],
                None => !self.records().contains_key(key),
            },
    {
        self.datas.get(key)
    }

    pub fn add_data(&mut self, key: u32, upload_info: UploadImageInfo)
        requires
            old(self).wf(),
        ensures
            final(self).wf(),
            final(self).timestamp_ms == old(self).timestamp_ms,
            final(self).local_dir == old(self).local_dir,
            final(self).s3_info == old(self).s3_info,
            final(self).records() =~= old(self).records().insert(key, upload_info@),
    {
        self.datas.insert(key, upload_info);
    }

    /// A batch that says the same: same instant, same directory, same
    /// destination, same records.
    pub fn duplicate(&self) -> (r: AwEvent)
        requires
            self.wf(),
        ensures
            r.wf(),
            r.timestamp_ms == self.timestamp_ms,
            r.local_dir@ == self.local_dir@,
            match (r.s3_info, self.s3_info) {
                (None, None) => true,
                (Some(a), Some(b)) => a@ == b@,
                _ => false,
            },
            r.records() =~= self.records(),
    {
        let s3 = match &self.s3_info {
            Some(s) => Some(s.duplicate()),
            None => None,
        };
        let mut datas: IdMap<UploadImageInfo> = IdMap::new();
        let n = self.datas.len();
        let mut i: usize = 0;
        while i < n
            invariant
                self.wf(),
                n == self.datas.key_seq().len(),
                i <= n,
                datas.wf(),
                forall|j: int|
                    0 <= j < i ==> {
                        &&& datas@.contains_key(#[trigger] self.datas.key_seq()[j])
                        &&& datas@[self.datas.key_seq()[j]]@ == self.datas@[self.datas.key_seq()[j]]@
                    },
                forall|k: u32|
                    #[trigger] datas@.contains_key(k) ==> exists|j: int|
                        0 <= j < i && self.datas.key_seq()[j] == k,
            decreases n - i,
        {
            proof {
                self.datas.lemma_view();
            }
            let k = self.datas.key_at(i);
            let v = self.datas.val_at(i);
            datas.insert(k, v.duplicate());
            i = i + 1;
        }
        let r = AwEvent {
            datas,
            timestamp_ms: self.timestamp_ms,
            local_dir: String::from_str(self.local_dir.as_str()),
            s3_info: s3,
        };
        proof {
            self.datas.lemma_view();
            assert forall|k: u32| r.records().contains_key(k) == self.records().contains_key(
                k,
            ) by {
                if self.datas@.contains_key(k) {
                    let j = choose|j: int|
                        0 <= j < self.datas.key_seq().len() && self.datas.key_seq()[j] == k;
                    assert(r.datas@.contains_key(self.datas.key_seq()[j]));
                }
            }
            assert(r.records() =~= self.records());
        }
        r
    }
}

/// Relies on uuid::Uuid::new_v7 and Uuid::to_u128_le: a fresh time-ordered
/// identifier. It contains random bits, so nothing is stated of the value.
#[verifier::external_body]
fn uuid_v7_u128(secs: u64, nanos: u32) -> u128 {
    uuid::Uuid::new_v7(uuid::Timestamp::from_unix(uuid::NoContext, secs, nanos)).to_u128_le()
}

/// The lossless WebP encoding of an image: a function of the pixel data
/// alone, computed by the image codec.
pub uninterp spec fn webp_of(img: image::DynamicImage) -> Seq<u8>;

/// Relies on image::DynamicImage::write_to with ImageFormat::WebP: encodes
/// the image losslessly as WebP — a function of the image alone — or
/// reports the encoder's refusal.
#[verifier::external_body]
fn encode_webp_bytes(img: &image::DynamicImage) -> (r: Result<Vec<u8>, ()>)
    ensures
        r matches Ok(b) ==> b@ == webp_of(*img),
{
    let mut buffer = Vec::new();
    let mut cursor = std::io::Cursor::new(&mut buffer);
    match img.write_to(&mut cursor, image::ImageFormat::WebP) {
        Ok(()) => Ok(buffer),
        Err(_) => Err(()),
    }
}

/// One raw image from one monitor at one instant, under a fresh identifier.
pub struct MonitorImageEvent {
    monitor_id: String,
    image: image::DynamicImage,
    timestamp_ms: i64,
    id: u128,
}

impl MonitorImageEvent {
    pub closed spec fn wf(&self) -> bool {
        0 <= self.timestamp_ms <= MAX_TIMESTAMP_MS
    }

    pub closed spec fn spec_monitor_id(&self) -> Seq<char> {
        self.monitor_id@
    }

    pub closed spec fn spec_timestamp_ms(&self) -> i64 {
        self.timestamp_ms
    }

    pub closed spec fn spec_id(&self) -> u128 {
        self.id
    }

    pub closed spec fn spec_image(&self) -> image::DynamicImage {
        self.image
    }

    pub fn new(monitor_id: String, image: image::DynamicImage, timestamp_ms: i64) -> (r: Self)
        requires
            0 <= timestamp_ms <= MAX_TIMESTAMP_MS,
        ensures
            r.wf(),
            r.spec_monitor_id() == monitor_id@,
            r.spec_image() == image,
            r.spec_timestamp_ms() == timestamp_ms,
    {
        let id = uuid_v7_u128((timestamp_ms / 1000) as u64, ((timestamp_ms % 1000) as u32) * 1000000);
        MonitorImageEvent { monitor_id, image, timestamp_ms, id }
    }

    pub fn image(&self) -> (r: &image::DynamicImage)
        ensures
            *r == self.spec_image(),
    {
        &self.image
    }

    pub fn timestamp(&self) -> (r: i64)
        ensures
            r == self.spec_timestamp_ms(),
    {
        self.timestamp_ms
    }

    /// The `{id}.jpg` file name this event is cached under.
    pub fn filename(&self) -> (r: String)
        ensures
            r@ == dec_rep(self.spec_id() as int) + ".jpg"@,
    {
        let mut s = u128_to_string(self.id);
        s.append(".jpg");
        s
    }

    /// Encode the image losslessly as WebP.
    pub fn to_webp(&self) -> (r: Result<Vec<u8>, WatcherError>)
        ensures
            r matches Ok(b) ==> b@ == webp_of(self.spec_image()),
            r is Err ==> r == Err::<Vec<u8>, WatcherError>(WatcherError::EncodeFailed),
    {
        match encode_webp_bytes(&self.image) {
            Ok(bytes) => Ok(bytes),
            Err(()) => Err(WatcherError::EncodeFailed),
        }
    }
}

/// Encoded bytes awaiting shipment, under the event's identifier.
pub struct UploadEvent {
    pub id: u128,
    pub data: Vec<u8>,
    pub timestamp_ms: i64,
}

impl UploadEvent {
    pub fn new(id: u128, data: Vec<u8>, timestamp_ms: i64) -> (r: Self)
        ensures
            r.id == id,
            r.data == data,
            r.timestamp_ms == timestamp_ms,
    {
        UploadEvent { id, data, timestamp_ms }
    }
}

} // verus!
