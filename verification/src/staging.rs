//! Where a run keeps its files: a scratch directory under `downloading/`,
//! named after a hash of the update URL.

use crate::text::{decimal, decimal_string, join_path, joined};
use std::collections::hash_map::DefaultHasher;
use std::hash::{BuildHasher, BuildHasherDefault};
use vstd::prelude::*;
use vstd::string::*;

verus! {

/// The scratch directory of the update URL whose hash is `url_hash`, under
/// the data directory `webapp_path`.
pub open spec fn staging_dir_of(webapp_path: Seq<char>, url_hash: u64) -> Seq<char> {
    joined(joined(webapp_path, "downloading"@), decimal(url_hash as nat))
}

/// Where a run stages the update manifest.
pub open spec fn update_manifest_path_of(staging_dir: Seq<char>) -> Seq<char> {
    joined(staging_dir, "update.webmanifest"@)
}

/// Where a run stages the package.
pub open spec fn package_path_of(staging_dir: Seq<char>) -> Seq<char> {
    joined(staging_dir, "application.zip"@)
}

/// Where a run stages the manifest of a progressive web app.
pub open spec fn pwa_manifest_path_of(staging_dir: Seq<char>) -> Seq<char> {
    joined(staging_dir, "manifest.webmanifest"@)
}

/// Where the applied application `name` lives.
pub open spec fn installed_dir_of(webapp_path: Seq<char>, name: Seq<char>) -> Seq<char> {
    joined(joined(webapp_path, "apps"@), name)
}

/// Where the cache of the progressive web app `name` lives.
pub open spec fn cached_dir_of(webapp_path: Seq<char>, name: Seq<char>) -> Seq<char> {
    joined(joined(webapp_path, "cached"@), name)
}

/// A move of staged content into its place: the whole content of the
/// directory `from` becomes the directory `to`.
#[derive(Debug, PartialEq, Eq)]
pub struct Placement {
    pub from: String,
    pub to: String,
}

/// The directory of the applied application `name`.
pub fn installed_dir(webapp_path: &str, name: &str) -> (dir: String)
    ensures
        dir@ == installed_dir_of(webapp_path@, name@),
{
    let base = join_path(webapp_path, "apps");
    join_path(base.as_str(), name)
}

/// The directory of the cache of the progressive web app `name`.
pub fn cached_dir(webapp_path: &str, name: &str) -> (dir: String)
    ensures
        dir@ == cached_dir_of(webapp_path@, name@),
{
    let base = join_path(webapp_path, "cached");
    join_path(base.as_str(), name)
}

/// Hashes `url` with `std::hash::BuildHasher::hash_one`, on the default
/// `std::collections::hash_map::DefaultHasher`. The standard library does
/// not say which number comes out, and neither does this contract.
#[verifier::external_body]
pub(crate) fn hash(url: &str) -> (url_hash: u64) {
    BuildHasherDefault::<DefaultHasher>::default().hash_one(url)
}

/// The scratch directory for the update URL whose hash is `url_hash`.
pub fn staging_dir(webapp_path: &str, url_hash: u64) -> (dir: String)
    ensures
        dir@ == staging_dir_of(webapp_path@, url_hash),
{
    let base = join_path(webapp_path, "downloading");
    let name = decimal_string(url_hash);
    join_path(base.as_str(), name.as_str())
}

/// The path of the staged update manifest.
pub fn update_manifest_path(staging_dir: &str) -> (path: String)
    ensures
        path@ == update_manifest_path_of(staging_dir@),
{
    join_path(staging_dir, "update.webmanifest")
}

/// The path of the staged package.
pub fn package_path(staging_dir: &str) -> (path: String)
    ensures
        path@ == package_path_of(staging_dir@),
{
    join_path(staging_dir, "application.zip")
}

/// The path of the staged manifest of a progressive web app.
pub fn pwa_manifest_path(staging_dir: &str) -> (path: String)
    ensures
        path@ == pwa_manifest_path_of(staging_dir@),
{
    join_path(staging_dir, "manifest.webmanifest")
}

} // verus!
