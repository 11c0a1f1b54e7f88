//! Is an update available? The decision compares versions where both sides
//! state one, and manifest hashes where they do not.

use crate::apps_item::{AppsItem, AppsItemView};
use crate::manifest::{UpdateManifest, UpdateManifestView};
use crate::text::{digit_char, same_text};
use crate::versions::{checked_order, version_compare, VersionOrder};
use hex_slice::AsHex;
use md5::{Digest, Md5};
use vstd::prelude::*;
use vstd::string::*;

verus! {

/// The MD5 digest of `data`, as the `md-5` crate computes it.
pub uninterp spec fn md5_digest(data: Seq<u8>) -> Seq<u8>;

/// The character that writes `n`, a number below 16, in lowercase
/// hexadecimal.
pub open spec fn hex_digit(n: nat) -> char {
    if n < 10 {
        digit_char(n)
    } else if n == 10 {
        'a'
    } else if n == 11 {
        'b'
    } else if n == 12 {
        'c'
    } else if n == 13 {
        'd'
    } else if n == 14 {
        'e'
    } else {
        'f'
    }
}

/// `bytes` in lowercase hexadecimal: two digits for each byte, the high half
/// first, and nothing between the bytes.
pub open spec fn lower_hex(bytes: Seq<u8>) -> Seq<char> {
    Seq::new(
        2 * bytes.len(),
        |i: int|
            if i % 2 == 0 {
                hex_digit((bytes[i / 2] / 16) as nat)
            } else {
                hex_digit((bytes[i / 2] % 16) as nat)
            },
    )
}

/// The hash that the registry keeps of an update manifest with the bytes
/// `content`: its MD5 digest in lowercase hexadecimal.
pub open spec fn manifest_hash_of(content: Seq<u8>) -> Seq<char> {
    lower_hex(md5_digest(content))
}

/// Feeds `data` to a fresh `md5::Md5` hasher and finalizes it.
///
/// The contract names the digest and states its length, 16 bytes, which is
/// the fixed output size of the hasher.
#[verifier::external_body]
fn md5_of(data: &[u8]) -> (digest: Vec<u8>)
    ensures
        digest@ == md5_digest(data@),
        digest@.len() == 16,
{
    let mut hasher = Md5::new();
    hasher.update(data);
    hasher.finalize().to_vec()
}

/// Formats `bytes` through `hex_slice::AsHex::plain_hex` without spaces,
/// with the format `{:02x}`.
///
/// `hex_slice` applies the format to each byte in turn, so each byte gives
/// its two lowercase hexadecimal digits: the contract states that text.
#[verifier::external_body]
fn plain_hex(bytes: &[u8]) -> (text: String)
    ensures
        text@ == lower_hex(bytes@),
{
    format!("{:02x}", bytes.plain_hex(false))
}

/// The hash of an update manifest with the bytes `content`.
pub fn compute_manifest_hash(content: &[u8]) -> (hash: String)
    ensures
        hash@ == manifest_hash_of(content@),
        hash@.len() == 32,
{
    let digest = md5_of(content);
    plain_hex(digest.as_slice())
}

/// The decision, given what the two sides state and what the comparison of
/// the manifest's version to the application's gave.
///
/// Where a version is missing on either side, an update is available if the
/// hash of the manifest differs from the one the application recorded.
/// Where both state a version, it is available if the manifest's is greater;
/// versions that could not be compared mean no update.
pub open spec fn update_available(
    app_version: Seq<char>,
    app_hash: Seq<char>,
    manifest_version: Seq<char>,
    manifest_hash: Seq<char>,
    order: Option<VersionOrder>,
) -> bool {
    if app_version.len() == 0 || manifest_version.len() == 0 {
        manifest_hash != app_hash
    } else {
        order == Some(VersionOrder::Greater)
    }
}

/// Decides from the recorded application and from what was computed of the
/// fetched update manifest: its version, its hash, and the order of its
/// version to the application's.
pub fn decide_update(
    app: &AppsItem,
    manifest_version: &str,
    manifest_hash: &str,
    order: Option<VersionOrder>,
) -> (available: bool)
    ensures
        available == update_available(
            app@.version,
            app@.manifest_hash,
            manifest_version@,
            manifest_hash@,
            order,
        ),
{
    let app_version = app.get_version();
    if app_version.as_str().is_empty() || manifest_version.is_empty() {
        let app_hash = app.get_manifest_hash();
        !same_text(manifest_hash, app_hash.as_str())
    } else {
        match order {
            Some(VersionOrder::Greater) => true,
            _ => false,
        }
    }
}

/// Whether the update manifest, with the bytes `content`, announces an
/// update of `app`. A manifest that did not parse announces none.
pub open spec fn update_announced(
    app: AppsItemView,
    manifest: Option<UpdateManifestView>,
    content: Seq<u8>,
) -> bool {
    match manifest {
        None => false,
        Some(m) => update_available(
            app.version,
            app.manifest_hash,
            m.version,
            manifest_hash_of(content),
            checked_order(m.version, app.version),
        ),
    }
}

/// Decides whether the fetched update manifest announces an update of `app`.
///
/// `update_manifest` is the parsed document, or nothing where it did not
/// parse; `content` holds the bytes it was read from.
pub fn compare_version_hash(
    app: &AppsItem,
    update_manifest: Option<&UpdateManifest>,
    content: &[u8],
) -> (available: bool)
    ensures
        available == update_announced(
            app@,
            match update_manifest {
                Some(m) => Some(m@),
                None => None,
            },
            content@,
        ),
{
    let manifest = match update_manifest {
        Some(manifest) => manifest,
        None => {
            return false;
        },
    };
    let app_version = app.get_version();
    if app_version.as_str().is_empty() || manifest.version.as_str().is_empty() {
        let hash = compute_manifest_hash(content);
        decide_update(app, manifest.version.as_str(), hash.as_str(), None)
    } else {
        let order = version_compare(manifest.version.as_str(), app_version.as_str());
        decide_update(app, manifest.version.as_str(), "", order)
    }
}

/// The decision does not depend on how the update manifest is laid out: two
/// documents that state the same version and have the same MD5 hash give
/// the same answer for every application.
pub proof fn lemma_decision_ignores_layout(
    app: AppsItemView,
    first: UpdateManifestView,
    first_content: Seq<u8>,
    second: UpdateManifestView,
    second_content: Seq<u8>,
)
    requires
        first.version == second.version,
        manifest_hash_of(first_content) == manifest_hash_of(second_content),
    ensures
        update_announced(app, Some(first), first_content) == update_announced(
            app,
            Some(second),
            second_content,
        ),
{
}

} // verus!
