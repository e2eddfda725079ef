use aws_s3_webdav::env::S3Config;
use aws_s3_webdav::key::{extract_bucket, extract_object_key, resolve, trim_leading_separator};

fn config(prefix: Option<&str>) -> S3Config {
    S3Config::new("bucket".to_string(), prefix.map(|p| p.to_string()))
}

#[test]
fn trim_removes_one_leading_separator() {
    assert_eq!(trim_leading_separator("/a/b.txt"), "a/b.txt");
}

#[test]
fn trim_removes_no_more_than_one_leading_separator() {
    assert_eq!(trim_leading_separator("///a//b/"), "//a//b/");
    assert_eq!(trim_leading_separator("//a"), "/a");
}

#[test]
fn trim_leaves_a_path_without_leading_separator() {
    assert_eq!(trim_leading_separator("a/b"), "a/b");
}

#[test]
fn trim_of_empty_path_is_empty() {
    assert_eq!(trim_leading_separator(""), "");
}

#[test]
fn trim_of_the_lone_separator_is_empty() {
    assert_eq!(trim_leading_separator("/"), "");
}

#[test]
fn trim_of_two_separators_is_one_separator() {
    assert_eq!(trim_leading_separator("//"), "/");
}

#[test]
fn trim_keeps_characters_beyond_ascii() {
    assert_eq!(trim_leading_separator("/käse/日本"), "käse/日本");
}

#[test]
fn key_without_prefix_is_the_stripped_path() {
    assert_eq!(extract_object_key(&config(None), "/photos/cat.jpg"), "photos/cat.jpg");
}

#[test]
fn key_with_prefix_is_prefix_then_stripped_path() {
    assert_eq!(extract_object_key(&config(Some("site/")), "/photos/cat.jpg"), "site/photos/cat.jpg");
}

#[test]
fn no_separator_is_put_between_prefix_and_path() {
    assert_eq!(extract_object_key(&config(Some("site")), "/photos/cat.jpg"), "sitephotos/cat.jpg");
}

#[test]
fn second_leading_separator_belongs_to_the_key() {
    assert_eq!(extract_object_key(&config(None), "//a"), "/a");
    assert_eq!(extract_object_key(&config(Some("p")), "//a"), "p/a");
    assert_eq!(extract_object_key(&config(Some("site/")), "//a"), "site//a");
}

#[test]
fn separators_of_the_prefix_are_kept() {
    assert_eq!(extract_object_key(&config(Some("/a//b/")), "/c"), "/a//b/c");
}

#[test]
fn empty_path_gives_the_prefix() {
    assert_eq!(extract_object_key(&config(Some("site/")), ""), "site/");
    assert_eq!(extract_object_key(&config(Some("site/")), "/"), "site/");
}

#[test]
fn empty_path_without_prefix_gives_the_empty_key() {
    assert_eq!(extract_object_key(&config(None), ""), "");
    assert_eq!(extract_object_key(&config(None), "/"), "");
}

#[test]
fn bucket_is_the_configured_bucket() {
    assert_eq!(extract_bucket(&config(Some("site/"))), "bucket");
}

#[test]
fn resolve_gives_bucket_and_key() {
    let target = resolve(&config(Some("site/")), "/index.html");
    assert_eq!(target.bucket, "bucket");
    assert_eq!(target.key, "site/index.html");
}

#[test]
fn config_keeps_what_it_is_given() {
    let config = S3Config::new("b".to_string(), Some("p".to_string()));
    assert_eq!(config.bucket, "b");
    assert_eq!(config.prefix, Some("p".to_string()));
    let bare = S3Config::new("b".to_string(), None);
    assert_eq!(bare.prefix, None);
}
