//! The key resolver: from the configured bucket and prefix and a request path to the
//! bucket and object key that the request addresses.

use vstd::prelude::*;
use vstd::string::StringExecFns;
use crate::env::{S3Config, S3ConfigView};

verus! {

/// The path separator.
pub open spec fn separator() -> char {
    '/'
}

/// `path` without its leading separator: a path that starts with a separator loses that
/// one character, and any other path stays as it is. Nothing else is changed: a second
/// separator at the front, and separators further in, stay where they are.
pub open spec fn strip_leading_separator(path: Seq<char>) -> Seq<char> {
    if path.len() > 0 && path[0] == separator() {
        path.drop_first()
    } else {
        path
    }
}

/// The key that a request path addresses under an optional prefix: the prefix as
/// configured, then the path without its leading separator.
pub open spec fn resolve_key(prefix: Option<Seq<char>>, path: Seq<char>) -> Seq<char> {
    match prefix {
        Some(p) => p + strip_leading_separator(path),
        None => strip_leading_separator(path),
    }
}

/// The bucket and key that one request addresses.
#[derive(Clone, Debug, PartialEq, Eq)]
pub struct ResolvedTarget {
    pub bucket: String,
    pub key: String,
}

/// The mathematical value of a `ResolvedTarget`.
pub struct ResolvedTargetView {
    pub bucket: Seq<char>,
    pub key: Seq<char>,
}

impl View for ResolvedTarget {
    type V = ResolvedTargetView;

    open spec fn view(&self) -> ResolvedTargetView {
        ResolvedTargetView { bucket: self.bucket@, key: self.key@ }
    }
}

/// The target of a request for `path` under `config`.
pub open spec fn resolve_target(config: S3ConfigView, path: Seq<char>) -> ResolvedTargetView {
    ResolvedTargetView { bucket: config.bucket, key: resolve_key(config.prefix, path) }
}

/// `path` without its leading separator.
pub fn trim_leading_separator(path: &str) -> (trimmed: String)
    ensures
        trimmed@ == strip_leading_separator(path@),
{
    let len = path.unicode_len();
    if len > 0 && path.get_char(0) == '/' {
        proof {
            assert(path@.subrange(1, len as int) =~= path@.drop_first());
        }
        String::from_str(path.substring_char(1, len))
    } else {
        String::from_str(path)
    }
}

/// The bucket that `config` names.
pub fn extract_bucket(config: &S3Config) -> (bucket: String)
    ensures
        bucket@ == config@.bucket,
{
    config.bucket.clone()
}

/// The object key that `path` addresses under the prefix of `config`.
pub fn extract_object_key(config: &S3Config, path: &str) -> (key: String)
    ensures
        key@ == resolve_key(config@.prefix, path@),
{
    let suffix = trim_leading_separator(path);
    match &config.prefix {
        Some(prefix) => {
            let mut key = prefix.clone();
            key.append(suffix.as_str());
            key
        },
        None => suffix,
    }
}

/// The bucket and key that a request for `path` addresses under `config`.
pub fn resolve(config: &S3Config, path: &str) -> (target: ResolvedTarget)
    ensures
        target@ == resolve_target(config@, path@),
{
    ResolvedTarget { bucket: extract_bucket(config), key: extract_object_key(config, path) }
}

/// Stripping takes one separator off the front and no more: a separator followed by
/// anything strips to that anything, whatever it starts with, and a path that does not
/// start with a separator strips to itself.
pub proof fn law_strip_takes_one_separator(rest: Seq<char>, path: Seq<char>)
    ensures
        strip_leading_separator(seq![separator()] + rest) == rest,
        path.len() == 0 || path[0] != separator() ==> strip_leading_separator(path) == path,
        path.len() > 0 && path[0] == separator() ==> seq![separator()] + strip_leading_separator(
            path,
        ) == path,
{
    assert((seq![separator()] + rest).drop_first() =~= rest);
    if path.len() > 0 && path[0] == separator() {
        assert(seq![separator()] + path.drop_first() =~= path);
    }
}

/// The resolved key is the configured prefix followed by the path without its leading
/// separator. The prefix stands at the front as it was configured and the stripped path
/// behind it as it was: no character is put between them, and none of either is
/// changed or left out.
pub proof fn law_resolved_key_is_prefix_then_path(prefix: Seq<char>, path: Seq<char>)
    ensures
        resolve_key(Some(prefix), path) == prefix + strip_leading_separator(path),
        resolve_key(None, path) == strip_leading_separator(path),
        resolve_key(Some(prefix), path).len() == prefix.len() + strip_leading_separator(path).len(),
        resolve_key(Some(prefix), path).take(prefix.len() as int) == prefix,
        resolve_key(Some(prefix), path).skip(prefix.len() as int) == strip_leading_separator(path),
{
    let key = resolve_key(Some(prefix), path);
    assert(key.take(prefix.len() as int) =~= prefix);
    assert(key.skip(prefix.len() as int) =~= strip_leading_separator(path));
}

} // verus!
