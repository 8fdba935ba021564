//! Telling assets apart by their file names: which kind of asset a file
//! holds, and how an image's pixels are to be read.
//!
//! Names are compared as UTF-8 bytes, which is how string patterns match.

use vstd::prelude::*;
use vstd::string::StringSliceAdditionalSpecFns;
use vstd::utf8::encode_utf8;
use crate::format::ImageFormat;

verus! {

/// Whether `pattern` lies in `s` at offset `at`.
pub open spec fn occurs_at(s: Seq<u8>, pattern: Seq<u8>, at: int) -> bool {
    &&& 0 <= at
    &&& at + pattern.len() <= s.len()
    &&& s.subrange(at, at + pattern.len()) == pattern
}

/// Whether `s` ends with `suffix`.
pub open spec fn has_suffix(s: Seq<u8>, suffix: Seq<u8>) -> bool {
    occurs_at(s, suffix, s.len() - suffix.len())
}

/// Whether `pattern` lies somewhere in `s`.
pub open spec fn has_infix(s: Seq<u8>, pattern: Seq<u8>) -> bool {
    exists|at: int| occurs_at(s, pattern, at)
}

fn matches_at(s: &[u8], pattern: &[u8], at: usize) -> (found: bool)
    requires
        at + pattern.len() <= s.len(),
    ensures
        found == occurs_at(s@, pattern@, at as int),
{
    let mut i: usize = 0;
    while i < pattern.len()
        invariant
            at + pattern.len() <= s.len(),
            i <= pattern.len(),
            forall|j: int| 0 <= j < i ==> s[at + j] == pattern[j],
        decreases pattern.len() - i,
    {
        if s[at + i] != pattern[i] {
            assert(s@.subrange(at as int, at + pattern.len())[i as int] != pattern@[i as int]);
            return false;
        }
        i += 1;
    }
    assert(s@.subrange(at as int, at + pattern.len()) =~= pattern@);
    true
}

/// Whether the bytes of `s` end with those of `suffix`.
pub fn ends_with(s: &[u8], suffix: &[u8]) -> (found: bool)
    ensures
        found == has_suffix(s@, suffix@),
{
    if suffix.len() > s.len() {
        return false;
    }
    matches_at(s, suffix, s.len() - suffix.len())
}

/// Whether the bytes of `pattern` lie somewhere in those of `s`.
pub fn contains(s: &[u8], pattern: &[u8]) -> (found: bool)
    ensures
        found == has_infix(s@, pattern@),
{
    if pattern.len() > s.len() {
        return false;
    }
    let last: usize = s.len() - pattern.len();
    let mut at: usize = 0;
    loop
        invariant
            last == s.len() - pattern.len(),
            at <= last,
            forall|k: int| 0 <= k < at ==> !occurs_at(s@, pattern@, k),
        decreases last - at,
    {
        if matches_at(s, pattern, at) {
            return true;
        }
        if at == last {
            return false;
        }
        at += 1;
    }
}

/// The lowercase form that `str::to_lowercase` gives a string.
pub uninterp spec fn lowercase(s: Seq<char>) -> Seq<char>;

/// Calls `str::to_lowercase`, whose result depends on the string alone; the
/// contract gives it its name.
#[verifier::external_body]
pub(crate) fn to_lowercase(s: &str) -> (lowered: String)
    ensures
        lowered@ == lowercase(s@),
{
    s.to_lowercase()
}

/// What a file in the asset directory holds, as far as its name tells.
#[derive(Clone, Copy, Debug, PartialEq, Eq, Hash, Structural)]
pub enum AssetKind {
    /// A shader source (`.shader`).
    Shader,
    /// A font (`.ttf`, `.otf`).
    Font,
    /// A mesh with its materials (`.gltf`).
    Mesh,
    /// An image (`.png`, `.jpg`, `.hdr`) whose pixels are to be read as the
    /// given format.
    Image(ImageFormat),
    /// Nothing that is loaded.
    Other,
}

/// The format of the image at `path`, given the lowercase form of the path:
/// a Radiance file is high dynamic range; a name that mentions a normal or
/// metallic map holds linear data; anything else is sRGB colour.
pub open spec fn spec_image_format(path: Seq<u8>, lowered: Seq<u8>) -> ImageFormat {
    if has_suffix(path, ".hdr".spec_bytes()) {
        ImageFormat::HDR32
    } else if has_infix(lowered, "_normal".spec_bytes()) || has_infix(
        lowered,
        "metallic".spec_bytes(),
    ) {
        ImageFormat::RGB
    } else {
        ImageFormat::SRGB
    }
}

/// The kind of the file called `name`, given the lowercase form of the name.
pub open spec fn spec_classify(name: Seq<u8>, lowered: Seq<u8>) -> AssetKind {
    if has_suffix(name, ".shader".spec_bytes()) {
        AssetKind::Shader
    } else if has_suffix(name, ".ttf".spec_bytes()) || has_suffix(name, ".otf".spec_bytes()) {
        AssetKind::Font
    } else if has_suffix(name, ".gltf".spec_bytes()) {
        AssetKind::Mesh
    } else if has_suffix(name, ".png".spec_bytes()) || has_suffix(name, ".jpg".spec_bytes())
        || has_suffix(name, ".hdr".spec_bytes()) {
        AssetKind::Image(spec_image_format(name, lowered))
    } else {
        AssetKind::Other
    }
}

/// The format of the image at `path`, where `lowered` is the lowercase form
/// of `path`.
pub fn image_format_with(path: &str, lowered: &str) -> (format: ImageFormat)
    ensures
        format == spec_image_format(path.spec_bytes(), lowered.spec_bytes()),
{
    let low = lowered.as_bytes();
    if ends_with(path.as_bytes(), ".hdr".as_bytes()) {
        ImageFormat::HDR32
    } else if contains(low, "_normal".as_bytes()) || contains(low, "metallic".as_bytes()) {
        ImageFormat::RGB
    } else {
        ImageFormat::SRGB
    }
}

/// The format of the image at `path`.
pub fn image_format_of(path: &str) -> (format: ImageFormat)
    ensures
        format == spec_image_format(path.spec_bytes(), encode_utf8(lowercase(path@))),
{
    let lowered = to_lowercase(path);
    image_format_with(path, lowered.as_str())
}

/// The kind of the file called `name`, where `lowered` is the lowercase form
/// of `name`.
pub fn classify_with(name: &str, lowered: &str) -> (kind: AssetKind)
    ensures
        kind == spec_classify(name.spec_bytes(), lowered.spec_bytes()),
{
    let bytes = name.as_bytes();
    if ends_with(bytes, ".shader".as_bytes()) {
        AssetKind::Shader
    } else if ends_with(bytes, ".ttf".as_bytes()) || ends_with(bytes, ".otf".as_bytes()) {
        AssetKind::Font
    } else if ends_with(bytes, ".gltf".as_bytes()) {
        AssetKind::Mesh
    } else if ends_with(bytes, ".png".as_bytes()) || ends_with(bytes, ".jpg".as_bytes())
        || ends_with(bytes, ".hdr".as_bytes()) {
        AssetKind::Image(image_format_with(name, lowered))
    } else {
        AssetKind::Other
    }
}

/// The kind of the file called `name`.
pub fn classify(name: &str) -> (kind: AssetKind)
    ensures
        kind == spec_classify(name.spec_bytes(), encode_utf8(lowercase(name@))),
{
    let lowered = to_lowercase(name);
    classify_with(name, lowered.as_str())
}

} // verus!
