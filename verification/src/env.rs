//! The configuration a handler reads: which bucket, and under which key prefix.

use vstd::prelude::*;

verus! {

/// The bucket that the gateway serves, and the prefix it puts before every key.
#[derive(Clone, Debug, PartialEq, Eq)]
pub struct S3Config {
    pub bucket: String,
    pub prefix: Option<String>,
}

/// The mathematical value of an `S3Config`.
pub struct S3ConfigView {
    pub bucket: Seq<char>,
    pub prefix: Option<Seq<char>>,
}

impl View for S3Config {
    type V = S3ConfigView;

    open spec fn view(&self) -> S3ConfigView {
        S3ConfigView {
            bucket: self.bucket@,
            prefix: match self.prefix {
                Some(p) => Some(p@),
                None => None,
            },
        }
    }
}

impl S3Config {
    /// A configuration for `bucket`, with an optional key prefix that is kept as given.
    pub fn new(bucket: String, prefix: Option<String>) -> (config: S3Config)
        ensures
            config.bucket == bucket,
            config.prefix == prefix,
    {
        S3Config { bucket, prefix }
    }
}

} // verus!
