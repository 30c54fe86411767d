//! The upload stage's configuration side: which destination each batch's
//! frames are shipped to. The store client itself is an outside
//! collaborator driven from outside the library; a failed upload never
//! drops a record from the outgoing batch.

use vstd::prelude::*;
use crate::config::S3Config;
use crate::event::{UploadS3Info, UploadS3InfoView};

verus! {

/// The upload stage: holds the object-store settings and derives the
/// destination every shipped batch is annotated with.
pub struct S3Processor {
    config: S3Config,
}

impl S3Processor {
    pub closed spec fn spec_config(&self) -> S3Config {
        self.config
    }

    pub fn new(config: S3Config) -> (r: Self)
        ensures
            r.spec_config() == config,
    {
        S3Processor { config }
    }

    /// The destination records of this stage's batches: the configured
    /// endpoint, bucket, and key prefix (empty when none is set).
    pub fn destination(&self) -> (r: UploadS3Info)
        ensures
            r@ == (UploadS3InfoView {
                endpoint: self.spec_config().endpoint@,
                bucket: self.spec_config().bucket@,
                prefix: match self.spec_config().key_prefix {
                    Some(p) => p@,
                    None => Seq::<char>::empty(),
                },
            }),
    {
        let prefix: String = match &self.config.key_prefix {
            Some(p) => String::from_str(p.as_str()),
            None => String::new(),
        };
        UploadS3Info::new(
            String::from_str(self.config.endpoint.as_str()),
            String::from_str(self.config.bucket.as_str()),
            prefix,
        )
    }

    /// Whether uploading is switched on at all.
    pub fn enabled(&self) -> (r: bool)
        ensures
            r == self.spec_config().enabled,
    {
        self.config.enabled
    }

    /// The settings this stage was built with.
    pub fn config(&self) -> (r: &S3Config)
        ensures
            *r == self.spec_config(),
    {
        &self.config
    }
}

} // verus!
