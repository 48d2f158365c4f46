//! The USB adapter product's update selection: which published release
//! to take and which of its assets is the firmware image.
//!
//! Enumerating USB devices and delivering the image over DFU is the
//! caller's work; the decisions on plain values are here.

use crate::strutil::str_eq;
use vstd::prelude::*;
use vstd::utf8::encode_utf8;

verus! {

/// USB vendor id of the adapter product.
pub const ADAPTER_VENDOR_ID: u16 = 0x1209;

/// USB product id of the adapter product.
pub const ADAPTER_PRODUCT_ID: u16 = 0x2323;

/// The manufacturer string adapter devices report.
pub fn adapter_manufacturer() -> (r: &'static str)
    ensures
        r@ == "Universal Machine Intelligence"@,
{
    "Universal Machine Intelligence"
}

/// True for the USB identity of an attached adapter device: the fixed
/// vendor and product ids together with the manufacturer string.
pub fn is_adapter_device(vendor_id: u16, product_id: u16, manufacturer: Option<&str>) -> (r: bool)
    ensures
        r == (vendor_id == ADAPTER_VENDOR_ID && product_id == ADAPTER_PRODUCT_ID && (manufacturer
            matches Some(m) && m@ == "Universal Machine Intelligence"@)),
{
    vendor_id == ADAPTER_VENDOR_ID && product_id == ADAPTER_PRODUCT_ID && match manufacturer {
        Some(m) => str_eq(m, adapter_manufacturer()),
        None => false,
    }
}

/// A published release of the adapter firmware, as the release service
/// lists it.
#[derive(Debug)]
pub struct Release {
    pub tag_name: String,
    pub draft: bool,
    pub prerelease: bool,
    pub assets: Vec<Asset>,
}

/// A downloadable file attached to a release.
#[derive(Debug)]
pub struct Asset {
    pub name: String,
    pub browser_download_url: String,
}

/// A release that is neither a draft nor a prerelease.
pub open spec fn spec_is_stable_release(r: Release) -> bool {
    !r.draft && !r.prerelease
}

/// The first stable release in the listed order, if any.
pub open spec fn spec_first_stable(rs: Seq<Release>) -> Option<Release>
    decreases rs.len(),
{
    if rs.len() == 0 {
        None
    } else if spec_is_stable_release(rs[0]) {
        Some(rs[0])
    } else {
        spec_first_stable(rs.drop_first())
    }
}

/// Passing over a prefix without a stable release leaves the selection
/// unchanged.
proof fn lemma_first_stable_skip(rs: Seq<Release>, i: int)
    requires
        0 <= i <= rs.len(),
        forall|j: int| 0 <= j < i ==> !spec_is_stable_release(rs[j]),
    ensures
        spec_first_stable(rs) == spec_first_stable(rs.skip(i)),
    decreases i,
{
    if i > 0 {
        lemma_first_stable_skip(rs, i - 1);
        assert(rs.skip(i - 1).drop_first() =~= rs.skip(i));
        assert(rs.skip(i - 1)[0] == rs[i - 1]);
    } else {
        assert(rs.skip(0) =~= rs);
    }
}

/// Picks the release to install: the first one that is neither a draft
/// nor a prerelease, in the order the service listed them.
pub fn find_stable_release(releases: &Vec<Release>) -> (r: Option<&Release>)
    ensures
        match r {
            Some(rel) => spec_first_stable(releases@) == Some(*rel),
            None => spec_first_stable(releases@) is None,
        },
{
    let n = releases.len();
    let mut i: usize = 0;
    while i < n
        invariant
            i <= n,
            n == releases@.len(),
            forall|j: int| 0 <= j < i ==> !spec_is_stable_release(releases@[j]),
        decreases n - i,
    {
        if !releases[i].draft && !releases[i].prerelease {
            proof {
                lemma_first_stable_skip(releases@, i as int);
                assert(releases@.skip(i as int)[0] == releases@[i as int]);
            }
            return Some(&releases[i]);
        }
        i += 1;
    }
    proof {
        lemma_first_stable_skip(releases@, n as int);
        assert(releases@.skip(n as int) =~= Seq::<Release>::empty());
    }
    None
}

/// Whether a byte sequence begins with the given prefix.
pub open spec fn spec_has_prefix(s: Seq<u8>, p: Seq<u8>) -> bool {
    p.len() <= s.len() && s.subrange(0, p.len() as int) == p
}

/// Whether a byte sequence ends with the given suffix.
pub open spec fn spec_has_suffix(s: Seq<u8>, p: Seq<u8>) -> bool {
    p.len() <= s.len() && s.subrange(s.len() - p.len(), s.len() as int) == p
}

/// True when `s` begins with `p`.
fn bytes_has_prefix(s: &[u8], p: &[u8]) -> (r: bool)
    ensures
        r == spec_has_prefix(s@, p@),
{
    if p.len() > s.len() {
        return false;
    }
    let n = p.len();
    let mut i: usize = 0;
    while i < n
        invariant
            i <= n,
            n == p@.len(),
            n <= s@.len(),
            forall|j: int| 0 <= j < i ==> s@[j] == p@[j],
        decreases n - i,
    {
        if s[i] != p[i] {
            proof {
                assert(s@.subrange(0, n as int)[i as int] != p@[i as int]);
            }
            return false;
        }
        i += 1;
    }
    proof {
        assert(s@.subrange(0, n as int) =~= p@);
    }
    true
}

/// True when `s` ends with `p`.
fn bytes_has_suffix(s: &[u8], p: &[u8]) -> (r: bool)
    ensures
        r == spec_has_suffix(s@, p@),
{
    if p.len() > s.len() {
        return false;
    }
    let n = p.len();
    let sl = s.len();
    let base = sl - n;
    let mut i: usize = 0;
    while i < n
        invariant
            i <= n,
            n == p@.len(),
            sl == s@.len(),
            base == s@.len() - n,
            forall|j: int| 0 <= j < i ==> s@[base + j] == p@[j],
        decreases n - i,
    {
        if s[base + i] != p[i] {
            proof {
                assert(s@.subrange(s@.len() - n, s@.len() as int)[i as int] != p@[i as int]);
            }
            return false;
        }
        i += 1;
    }
    proof {
        assert(s@.subrange(s@.len() - n, s@.len() as int) =~= p@);
    }
    true
}

/// An asset whose file name marks it as the adapter firmware image:
/// its UTF-8 name begins with the release file prefix and ends in the
/// firmware file extension.
pub open spec fn spec_is_firmware_asset(a: Asset) -> bool {
    &&& spec_has_prefix(encode_utf8(a.name@), encode_utf8("umi-adapter-v"@))
    &&& spec_has_suffix(encode_utf8(a.name@), encode_utf8(".bin"@))
}

/// True when the asset's file name marks it as the firmware image.
pub fn is_firmware_asset(a: &Asset) -> (r: bool)
    ensures
        r == spec_is_firmware_asset(*a),
{
    let bytes = a.name.as_str().as_bytes();
    bytes_has_prefix(bytes, "umi-adapter-v".as_bytes()) && bytes_has_suffix(
        bytes,
        ".bin".as_bytes(),
    )
}

/// The first firmware asset of a release, in the listed order.
pub open spec fn spec_first_firmware_asset(assets: Seq<Asset>) -> Option<Asset>
    decreases assets.len(),
{
    if assets.len() == 0 {
        None
    } else if spec_is_firmware_asset(assets[0]) {
        Some(assets[0])
    } else {
        spec_first_firmware_asset(assets.drop_first())
    }
}

/// Passing over a prefix without a firmware asset leaves the selection
/// unchanged.
proof fn lemma_first_firmware_asset_skip(assets: Seq<Asset>, i: int)
    requires
        0 <= i <= assets.len(),
        forall|j: int| 0 <= j < i ==> !spec_is_firmware_asset(assets[j]),
    ensures
        spec_first_firmware_asset(assets) == spec_first_firmware_asset(assets.skip(i)),
    decreases i,
{
    if i > 0 {
        lemma_first_firmware_asset_skip(assets, i - 1);
        assert(assets.skip(i - 1).drop_first() =~= assets.skip(i));
        assert(assets.skip(i - 1)[0] == assets[i - 1]);
    } else {
        assert(assets.skip(0) =~= assets);
    }
}

/// Finds the firmware image among a release's assets: the first one
/// whose name carries the firmware prefix and extension.
pub fn find_firmware_asset(release: &Release) -> (r: Option<&Asset>)
    ensures
        match r {
            Some(a) => spec_first_firmware_asset(release.assets@) == Some(*a),
            None => spec_first_firmware_asset(release.assets@) is None,
        },
{
    let n = release.assets.len();
    let mut i: usize = 0;
    while i < n
        invariant
            i <= n,
            n == release.assets@.len(),
            forall|j: int| 0 <= j < i ==> !spec_is_firmware_asset(release.assets@[j]),
        decreases n - i,
    {
        if is_firmware_asset(&release.assets[i]) {
            proof {
                lemma_first_firmware_asset_skip(release.assets@, i as int);
                assert(release.assets@.skip(i as int)[0] == release.assets@[i as int]);
            }
            return Some(&release.assets[i]);
        }
        i += 1;
    }
    proof {
        lemma_first_firmware_asset_skip(release.assets@, n as int);
        assert(release.assets@.skip(n as int) =~= Seq::<Asset>::empty());
    }
    None
}

} // verus!
