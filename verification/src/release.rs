use vstd::prelude::*;

use crate::platform::spec_arch_label;
use crate::platform::spec_os_label;
use crate::platform::arch_label;
use crate::platform::os_label;
use crate::platform::Arch;
use crate::platform::Os;

verus! {

/// One downloadable file attached to a release: its name and where to get it.
#[derive(Debug, PartialEq, Eq, Clone)]
pub struct ReleaseAsset {
    pub name: String,
    pub download_url: String,
}

/// A release as the feed reports it: a version identifier and its assets,
/// in the order the feed lists them.
#[derive(Debug, PartialEq, Eq, Clone)]
pub struct ReleaseInfo {
    pub version: String,
    pub assets: Vec<ReleaseAsset>,
}

/// The asset name a release is expected to carry for a version, an operating
/// system and an architecture:
/// `arduino-language-server_{version}_{os-label}_{arch-label}.tar.gz`.
pub open spec fn spec_asset_name(version: Seq<char>, os: Os, arch: Arch) -> Seq<char> {
    "arduino-language-server_"@ + version + "_"@ + spec_os_label(os) + "_"@ + spec_arch_label(
        arch,
    ) + ".tar.gz"@
}

/// Build the expected asset name for this version, operating system and
/// architecture. The name is a pure function of the three inputs.
pub fn asset_name(version: &String, os: Os, arch: Arch) -> (r: String)
    ensures
        r@ == spec_asset_name(version@, os, arch),
{
    let mut r = String::from_str("arduino-language-server_");
    r.append(version.as_str());
    r.append("_");
    r.append(os_label(os));
    r.append("_");
    r.append(arch_label(arch));
    r.append(".tar.gz");
    r
}

/// Whether some asset in the sequence carries exactly this name.
pub open spec fn has_asset(assets: Seq<ReleaseAsset>, name: Seq<char>) -> bool {
    exists|i: int| 0 <= i < assets.len() && assets[i].name@ == name
}

/// Find the first asset whose name equals `name` exactly; names are compared
/// whole, with no fuzzy match. Returns its index, or `None` when no asset
/// matches.
pub fn find_asset(assets: &Vec<ReleaseAsset>, name: &String) -> (r: Option<usize>)
    ensures
        match r {
            Some(i) => 0 <= i < assets@.len() && assets@[i as int].name@ == name@ && (forall|
                j: int,
            |
                0 <= j < i ==> assets@[j].name@ != name@),
            None => !has_asset(assets@, name@),
        },
{
    let mut i: usize = 0;
    while i < assets.len()
        invariant
            0 <= i <= assets@.len(),
            forall|j: int| 0 <= j < i ==> assets@[j].name@ != name@,
        decreases assets@.len() - i,
    {
        if assets[i].name.eq(name) {
            return Some(i);
        }
        i += 1;
    }
    None
}

} // verus!
