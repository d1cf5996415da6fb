//! Picking the version and the distributable out of the latest release.

use vstd::prelude::*;
use crate::request::ADAPTER_NAME;
use crate::text::{ends_with, has_suffix, to_string};

verus! {

/// The file-name ending of the packaged adapter.
pub const PACKAGE_SUFFIX: &'static str = ".vsix";

/// A downloadable file of a release.
#[derive(Debug)]
pub struct Asset {
    pub name: String,
    pub download_url: String,
}

/// The version named by a release tag: the tag without one leading `v`.
pub open spec fn version_of_tag(tag: Seq<char>) -> Seq<char> {
    if tag.len() > 0 && tag[0] == 'v' {
        tag.drop_first()
    } else {
        tag
    }
}

/// The asset is the adapter's package.
pub open spec fn is_package(a: Asset) -> bool {
    has_suffix(a.name@, PACKAGE_SUFFIX@)
}

/// The message for a release without a package.
pub open spec fn no_package_message(version: Seq<char>) -> Seq<char> {
    "No .vsix asset found in release (expected "@ + ADAPTER_NAME@ + "-debug-"@ + version + ".vsix)"@
}

/// The version of a release tag.
pub fn version_from_tag(tag: &str) -> (r: String)
    ensures
        r@ == version_of_tag(tag@),
{
    let n = tag.unicode_len();
    if n > 0 && tag.get_char(0) == 'v' {
        assert(tag@.subrange(1, n as int) =~= tag@.drop_first());
        String::from_str(tag.substring_char(1, n))
    } else {
        String::from_str(tag)
    }
}

/// The version of the release tagged `tag`, with the first of `assets` that is
/// the adapter's package; an error naming the expected file when none is.
pub fn select_release(tag: &str, assets: Vec<Asset>) -> (r: Result<(Asset, String), String>)
    ensures
        r is Ok <==> exists|i: int| 0 <= i < assets@.len() && is_package(#[trigger] assets@[i]),
        r matches Ok((_, v)) ==> v@ == version_of_tag(tag@),
        r matches Ok((a, _)) ==> exists|i: int|
            0 <= i < assets@.len() && #[trigger] assets@[i] == a && is_package(a) && forall|j: int|
                0 <= j < i ==> !is_package(#[trigger] assets@[j]),
        r matches Err(m) ==> m@ == no_package_message(version_of_tag(tag@)),
{
    let version = version_from_tag(tag);
    let mut list = assets;
    let ghost original = list@;
    let mut i: usize = 0;
    while i < list.len()
        invariant
            list@ == original,
            original == assets@,
            version@ == version_of_tag(tag@),
            i <= list@.len(),
            forall|j: int| 0 <= j < i ==> !is_package(#[trigger] original[j]),
        decreases list@.len() - i,
    {
        if ends_with(list[i].name.as_str(), PACKAGE_SUFFIX) {
            assert(is_package(original[i as int]));
            let a = list.remove(i);
            assert(a == original[i as int]);
            return Ok((a, version));
        }
        i = i + 1;
    }
    let mut m = to_string("No .vsix asset found in release (expected ");
    m.append(ADAPTER_NAME);
    m.append("-debug-");
    m.append(version.as_str());
    m.append(".vsix)");
    Err(m)
}

} // verus!
