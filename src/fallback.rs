//! Where to look for a binary that cannot be opened at its recorded path:
//! the order of the places tried, and the build-id-prefixed file name used
//! in a binary cache directory.
use vstd::prelude::*;

verus! {

/// Number of build-id bytes that a cached file name spells out; shorter ids
/// are padded with zero bytes, longer ones cut.
pub const BUILD_ID_PREFIX_BYTES: usize = 20;

/// A place to try, in terms of the recorded path and the extra directory.
#[derive(Clone, Copy, Debug, PartialEq, Eq, Structural)]
pub enum FallbackCandidate {
    /// The recorded path itself.
    Primary,
    /// `<extra dir>/binary_cache/<build id in hex>-<file name>`.
    CacheWithBuildId,
    /// `<extra dir>/binary_cache/<recorded path without its leading "/">`.
    CacheRelative,
    /// `<extra dir>/<file name>`.
    ExtraDirFileName,
}

/// The places to try, in order, given whether there is an extra directory
/// and a build id, whether the recorded path has a file name, and whether
/// it is absolute.
pub open spec fn fallback_plan(
    has_extra_dir: bool,
    has_build_id: bool,
    has_file_name: bool,
    is_absolute: bool,
) -> Seq<FallbackCandidate> {
    let with_id = if has_build_id && has_file_name {
        seq![FallbackCandidate::CacheWithBuildId]
    } else {
        Seq::empty()
    };
    let relative = if is_absolute {
        seq![FallbackCandidate::CacheRelative]
    } else {
        Seq::empty()
    };
    let bare = if has_file_name {
        seq![FallbackCandidate::ExtraDirFileName]
    } else {
        Seq::empty()
    };
    if has_extra_dir {
        seq![FallbackCandidate::Primary] + with_id + relative + bare
    } else {
        seq![FallbackCandidate::Primary]
    }
}

/// Lower-case hex digit of `n`, for `n` below 16.
pub open spec fn hex_digit(n: int) -> u8 {
    if n < 10 {
        (0x30 + n) as u8
    } else {
        (0x61 + n - 10) as u8
    }
}

/// The build id cut or padded with zero bytes to `BUILD_ID_PREFIX_BYTES`.
pub open spec fn padded_build_id(b: Seq<u8>) -> Seq<u8> {
    Seq::new(BUILD_ID_PREFIX_BYTES as nat, |i: int| if i < b.len() { b[i] } else { 0u8 })
}

/// Two lower-case hex digits for each byte of `s`, high digit first.
pub open spec fn hex_of(s: Seq<u8>) -> Seq<u8> {
    Seq::new(
        2 * s.len(),
        |i: int|
            if i % 2 == 0 {
                hex_digit(s[i / 2] as int / 16)
            } else {
                hex_digit(s[i / 2] as int % 16)
            },
    )
}

/// The name under which a binary cache stores the file `file_name` with
/// build id `build_id`.
pub open spec fn cached_file_name(build_id: Seq<u8>, file_name: Seq<u8>) -> Seq<u8> {
    hex_of(padded_build_id(build_id)) + seq![0x2du8] + file_name
}

/// The places to try, in order.
pub fn fallback_candidates(
    has_extra_dir: bool,
    has_build_id: bool,
    has_file_name: bool,
    is_absolute: bool,
) -> (r: Vec<FallbackCandidate>)
    ensures
        r@ == fallback_plan(has_extra_dir, has_build_id, has_file_name, is_absolute),
{
    let mut r: Vec<FallbackCandidate> = Vec::new();
    r.push(FallbackCandidate::Primary);
    if has_extra_dir {
        if has_build_id && has_file_name {
            r.push(FallbackCandidate::CacheWithBuildId);
        }
        if is_absolute {
            r.push(FallbackCandidate::CacheRelative);
        }
        if has_file_name {
            r.push(FallbackCandidate::ExtraDirFileName);
        }
    }
    assert(r@ =~= fallback_plan(has_extra_dir, has_build_id, has_file_name, is_absolute));
    r
}

/// Name of the binary cache subdirectory of the extra directory.
pub fn binary_cache_dir() -> (r: &'static str)
    ensures
        r@ == "binary_cache"@,
{
    "binary_cache"
}

fn hex_digit_of(n: u8) -> (r: u8)
    requires
        n < 16,
    ensures
        r == hex_digit(n as int),
{
    if n < 10 {
        0x30 + n
    } else {
        0x61 + n - 10
    }
}

/// `<build id in hex>-<file name>`, the build id cut or padded to
/// `BUILD_ID_PREFIX_BYTES` bytes.
pub fn cached_file_name_for(build_id: &Vec<u8>, file_name: &Vec<u8>) -> (r: Vec<u8>)
    ensures
        r@ == cached_file_name(build_id@, file_name@),
{
    let ghost hex = hex_of(padded_build_id(build_id@));
    let mut r: Vec<u8> = Vec::new();
    let mut i: usize = 0;
    while i < BUILD_ID_PREFIX_BYTES
        invariant
            0 <= i <= BUILD_ID_PREFIX_BYTES,
            hex == hex_of(padded_build_id(build_id@)),
            r.len() == 2 * i,
            forall|j: int| 0 <= j < 2 * i ==> r@[j] == hex[j],
        decreases BUILD_ID_PREFIX_BYTES - i,
    {
        let b: u8 = if i < build_id.len() {
            build_id[i]
        } else {
            0
        };
        assert(b == padded_build_id(build_id@)[i as int]);
        r.push(hex_digit_of(b / 16));
        r.push(hex_digit_of(b % 16));
        assert((2 * i as int) / 2 == i && (2 * i as int) % 2 == 0);
        assert((2 * i as int + 1) / 2 == i && (2 * i as int + 1) % 2 == 1);
        i += 1;
    }
    r.push(0x2d);
    let mut k: usize = 0;
    while k < file_name.len()
        invariant
            0 <= k <= file_name.len(),
            hex == hex_of(padded_build_id(build_id@)),
            hex.len() == 2 * BUILD_ID_PREFIX_BYTES,
            r@ == hex + seq![0x2du8] + file_name@.subrange(0, k as int),
        decreases file_name.len() - k,
    {
        r.push(file_name[k]);
        k += 1;
        assert(r@ =~= hex + seq![0x2du8] + file_name@.subrange(0, k as int));
    }
    assert(file_name@.subrange(0, file_name.len() as int) =~= file_name@);
    r
}

} // verus!
