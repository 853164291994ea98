//! Application-icon extraction: choosing an icon from an ICNS container and
//! the entry built around the result.
//!
//! Reading the ICNS container format itself is the `tauri_icns` crate's
//! work, so its outcomes are carried by names: whether bytes parse as a
//! container, which four-character type codes the container holds, and the
//! PNG rendering of the icon under a given code.  All three are functions
//! of the bytes (and code) alone.  What this crate decides — the preference
//! order over codes and the first-hit selection — is verified against those
//! names.

use vstd::prelude::*;
use crate::encoding::{png_data_url, png_data_url_of};
use crate::text::is_prefix_of;

verus! {

/// Whether the bytes parse as an ICNS container.
pub uninterp spec fn icns_parses(data: Seq<u8>) -> bool;

/// The PNG rendering of the container's icon under one four-character type
/// code: present exactly where the bytes parse, the code names a type the
/// container holds, and that icon both decodes and re-encodes as PNG.
pub uninterp spec fn icns_png_of(data: Seq<u8>, code: Seq<char>) -> Option<Seq<u8>>;

/// The four-character codes of the icon types the container holds, in the
/// container's own order (empty where the bytes do not parse).
pub uninterp spec fn icns_available_codes(data: Seq<u8>) -> Seq<Seq<char>>;

/// The character sequences of a list of strings.
pub open spec fn code_views(codes: Seq<String>) -> Seq<Seq<char>> {
    codes.map_values(|c: String| c@)
}

/// The character sequences of a list of string slices.
pub open spec fn code_views_of_strs(codes: Seq<&str>) -> Seq<Seq<char>> {
    codes.map_values(|c: &str| c@)
}

/// Relies on `tauri_icns::IconFamily::read`, which decodes an ICNS
/// container from bytes; a failure is handed back as the error's own text.
#[verifier::external_body]
fn parse_icns(data: &Vec<u8>) -> (r: Result<(), String>)
    ensures
        r is Ok <==> icns_parses(data@),
{
    tauri_icns::IconFamily::read(&data[..]).map(|_| ()).map_err(|e| e.to_string())
}

/// Relies on `tauri_icns::IconFamily::read`,
/// `tauri_icns::IconType::from_ostype`,
/// `tauri_icns::IconFamily::get_icon_with_type` and
/// `tauri_icns::Image::write_png`: the PNG rendering of the icon under the
/// given code, a function of the bytes and the code alone.
#[verifier::external_body]
fn extract_png_for_code(data: &Vec<u8>, code: &str) -> (r: Option<Vec<u8>>)
    ensures
        (r matches Some(p) ==> icns_png_of(data@, code@) == Some(p@)),
        (r is None ==> icns_png_of(data@, code@) is None),
{
    let bytes: [u8; 4] = code.as_bytes().try_into().ok()?;
    let icon_type = tauri_icns::IconType::from_ostype(tauri_icns::OSType(bytes))?;
    let family = tauri_icns::IconFamily::read(&data[..]).ok()?;
    let image = family.get_icon_with_type(icon_type).ok()?;
    let mut buffer: Vec<u8> = Vec::new();
    image.write_png(&mut buffer).ok()?;
    Some(buffer)
}

/// Relies on `tauri_icns::IconFamily::read`,
/// `tauri_icns::IconFamily::available_icons` and
/// `tauri_icns::IconType::ostype`: the container's own code list, each type
/// mapped to its four-character code; empty where the bytes do not parse.
#[verifier::external_body]
fn available_icon_codes(data: &Vec<u8>) -> (r: Vec<String>)
    ensures
        code_views(r@) == icns_available_codes(data@),
{
    match tauri_icns::IconFamily::read(&data[..]) {
        Ok(family) => family
            .available_icons()
            .iter()
            .map(|t| String::from_utf8_lossy(&t.ostype().0).into_owned())
            .collect(),
        Err(_) => Vec::new(),
    }
}

/// The preferred type codes, best first: large RGBA sizes, the classic
/// 128-pixel RGB icon, then the retina and small RGBA sizes.
pub open spec fn preferred_code_texts() -> Seq<Seq<char>> {
    seq![
        "ic09"@,
        "ic08"@,
        "ic07"@,
        "it32"@,
        "ic10"@,
        "ic14"@,
        "ic13"@,
        "icp6"@,
        "icp5"@,
    ]
}

/// Every code the selection considers, in order: the preferred codes, then
/// the container's own list.
pub open spec fn candidate_codes(data: Seq<u8>) -> Seq<Seq<char>> {
    preferred_code_texts() + icns_available_codes(data)
}

/// The first present PNG along a code list.
pub open spec fn first_png(data: Seq<u8>, codes: Seq<Seq<char>>) -> Option<Seq<u8>>
    decreases codes.len(),
{
    if codes.len() == 0 {
        None
    } else {
        match icns_png_of(data, codes[0]) {
            Some(p) => Some(p),
            None => first_png(data, codes.drop_first()),
        }
    }
}

/// What the selection yields for a container's bytes.
pub open spec fn chosen_icon_png(data: Seq<u8>) -> Option<Seq<u8>> {
    first_png(data, candidate_codes(data))
}

proof fn lemma_first_png_skip(data: Seq<u8>, codes: Seq<Seq<char>>, k: int)
    requires
        0 <= k <= codes.len(),
        forall|j: int| 0 <= j < k ==> icns_png_of(data, codes[j]) is None,
    ensures
        first_png(data, codes) == first_png(data, codes.skip(k)),
    decreases k,
{
    if k > 0 {
        lemma_first_png_skip(data, codes, k - 1);
        let tail = codes.skip(k - 1);
        assert(tail[0] == codes[k - 1]);
        assert(icns_png_of(data, tail[0]) is None);
        assert(tail.drop_first() =~= codes.skip(k));
    } else {
        assert(codes.skip(0) =~= codes);
    }
}

fn preferred_codes() -> (r: Vec<&'static str>)
    ensures
        code_views_of_strs(r@) == preferred_code_texts(),
{
    let mut codes: Vec<&'static str> = Vec::new();
    codes.push("ic09");  // 512x512 RGBA
    codes.push("ic08");  // 256x256 RGBA
    codes.push("ic07");  // 128x128 RGBA
    codes.push("it32");  // 128x128 RGB
    codes.push("ic10");  // 512x512 RGBA retina
    codes.push("ic14");  // 256x256 RGBA retina
    codes.push("ic13");  // 128x128 RGBA retina
    codes.push("icp6");  // 64x64 RGBA
    codes.push("icp5");  // 32x32 RGBA
    proof {
        assert(code_views_of_strs(codes@) =~= preferred_code_texts());
    }
    codes
}

/// Chooses an icon from a container's bytes: the preferred codes are tried
/// in order, then every code the container offers; the first code whose
/// icon renders as PNG wins, and a container offering none yields nothing.
pub fn choose_icon_png(data: &Vec<u8>) -> (r: Option<Vec<u8>>)
    ensures
        (r matches Some(p) ==> chosen_icon_png(data@) == Some(p@)),
        (r is None ==> chosen_icon_png(data@) is None),
{
    let ghost all = candidate_codes(data@);
    let preferred = preferred_codes();
    let mut i: usize = 0;
    while i < preferred.len()
        invariant
            i <= preferred@.len(),
            code_views_of_strs(preferred@) == preferred_code_texts(),
            all == candidate_codes(data@),
            forall|j: int| 0 <= j < i ==> icns_png_of(data@, all[j]) is None,
        decreases preferred@.len() - i,
    {
        proof {
            assert(all[i as int] == preferred@[i as int]@);
        }
        if let Some(png) = extract_png_for_code(data, preferred[i]) {
            proof {
                lemma_first_png_skip(data@, all, i as int);
                assert(all.skip(i as int)[0] == all[i as int]);
            }
            return Some(png);
        }
        i += 1;
    }
    let fallback = available_icon_codes(data);
    let ghost base = preferred_code_texts().len() as int;
    let mut j: usize = 0;
    while j < fallback.len()
        invariant
            j <= fallback@.len(),
            code_views(fallback@) == icns_available_codes(data@),
            all == candidate_codes(data@),
            base == preferred_code_texts().len(),
            all.len() == base + fallback@.len(),
            forall|k: int| 0 <= k < base + j ==> icns_png_of(data@, all[k]) is None,
        decreases fallback@.len() - j,
    {
        proof {
            assert(all[base + j] == icns_available_codes(data@)[j as int]);
            assert(icns_available_codes(data@)[j as int] == fallback@[j as int]@);
        }
        if let Some(png) = extract_png_for_code(data, fallback[j].as_str()) {
            proof {
                lemma_first_png_skip(data@, all, base + j);
                assert(all.skip(base + j)[0] == all[base + j]);
            }
            return Some(png);
        }
        j += 1;
    }
    proof {
        lemma_first_png_skip(data@, all, all.len() as int);
        assert(all.skip(all.len() as int) =~= Seq::<Seq<char>>::empty());
    }
    None
}

/// Decodes ICNS bytes and chooses an icon: bytes that do not parse as a
/// container — and only those — are an error naming the parse failure, and
/// parsed bytes yield exactly what the selection chooses.
pub fn icon_png_from_icns_bytes(data: &Vec<u8>) -> (r: Result<Option<Vec<u8>>, String>)
    ensures
        r is Err <==> !icns_parses(data@),
        r matches Err(m) ==> is_prefix_of("Failed to parse ICNS data: "@, m@),
        r matches Ok(chosen) ==> (match chosen {
            Some(p) => chosen_icon_png(data@) == Some(p@),
            None => chosen_icon_png(data@) is None,
        }),
{
    match parse_icns(data) {
        Ok(()) => Ok(choose_icon_png(data)),
        Err(detail) => {
            let m = String::from_str("Failed to parse ICNS data: ").concat(detail.as_str());
            proof {
                assert(m@.subrange(0, "Failed to parse ICNS data: "@.len() as int)
                    =~= "Failed to parse ICNS data: "@);
            }
            Err(m)
        },
    }
}

/// One application entry, as handed over the RPC boundary.
#[allow(non_snake_case)]
#[derive(Debug, Clone)]
pub struct AppInfo {
    pub base64Image: String,
    pub localizedName: String,
}

/// Builds the entry for one application: an extracted icon becomes a PNG
/// data URL and anything else an empty image, and the localized name falls
/// back to the bundle-derived name.
pub fn app_info_for(png: Option<Vec<u8>>, localized_name: Option<String>, fallback_name: &str) -> (
    r: AppInfo)
    requires
        png matches Some(p) ==> p@.len() <= 0x1000_0000_0000_0000,
    ensures
        png matches Some(p) ==> r.base64Image@ == png_data_url_of(p@),
        png is None ==> r.base64Image@ == Seq::<char>::empty(),
        localized_name matches Some(n) ==> r.localizedName == n,
        localized_name is None ==> r.localizedName@ == fallback_name@,
{
    let base64Image = match png {
        Some(p) => png_data_url(&p),
        None => String::new(),
    };
    let localizedName = match localized_name {
        Some(n) => n,
        None => String::from_str(fallback_name),
    };
    AppInfo { base64Image, localizedName }
}

} // verus!
