//! Binaural audio data: head-related impulse responses and interaural level difference
//! filters read from 3DTI data files, and the listener's effect switches.
//!
//! The files are little-endian; their floats are kept as the bits that the file holds.

use vstd::prelude::*;

use crate::audio::opus::le_u32;

pub mod hrtf;
pub mod ild;

verus! {

/// Which effects a listener applies to a source.
pub struct ListenerEffects {
    pub far_distance: bool,
    pub distance_attenuation: bool,
}

/// The little-endian `u32` at `at`.
pub open spec fn le_u32_at(d: Seq<u8>, at: int) -> u32 {
    le_u32(d[at], d[at + 1], d[at + 2], d[at + 3])
}

/// The little-endian `i32` at `at`.
pub open spec fn le_i32_at(d: Seq<u8>, at: int) -> i32 {
    le_u32_at(d, at) as i32
}

/// The little-endian `u64` at `at`.
pub open spec fn le_u64_at(d: Seq<u8>, at: int) -> u64 {
    (le_u32_at(d, at) as int + le_u32_at(d, at + 4) as int * 0x1_0000_0000) as u64
}

/// The `n` little-endian `u32`s from `at` on.
pub open spec fn u32s_at(d: Seq<u8>, at: int, n: nat) -> Seq<u32> {
    Seq::new(n, |i: int| le_u32_at(d, at + 4 * i))
}

/// The key under which the data of an orientation is kept: the azimuth in the high half,
/// the bits of the elevation in the low half.
pub open spec fn orientation_key(azimuth: i32, elevation: i32) -> i64 {
    (azimuth as int * 0x1_0000_0000 + (elevation as u32) as int) as i64
}

/// Two orientations have the same key only where they are the same: the data of one
/// orientation never stands under the key of another.
pub proof fn law_orientation_key_injective(a1: i32, e1: i32, a2: i32, e2: i32)
    requires
        orientation_key(a1, e1) == orientation_key(a2, e2),
    ensures
        a1 == a2,
        e1 == e2,
{
    let k1 = a1 as int * 0x1_0000_0000 + (e1 as u32) as int;
    let k2 = a2 as int * 0x1_0000_0000 + (e2 as u32) as int;
    assert(i64::MIN <= k1 <= i64::MAX);
    assert(i64::MIN <= k2 <= i64::MAX);
    assert(k1 == k2);
    assert((e1 as u32) == (e2 as u32));
    assert(e1 == e2) by (bit_vector)
        requires
            (e1 as u32) == (e2 as u32),
    ;
}

/// Computes `orientation_key`.
pub fn get_orientation_key(azimuth: i32, elevation: i32) -> (r: i64)
    ensures
        r == orientation_key(azimuth, elevation),
{
    (azimuth as i64) * 0x1_0000_0000 + ((elevation as u32) as i64)
}

pub(crate) fn read_u32_at(d: &[u8], at: usize) -> (r: u32)
    requires
        at + 4 <= d.len(),
    ensures
        r == le_u32_at(d@, at as int),
{
    (d[at] as u32) + (d[at + 1] as u32) * 0x100 + (d[at + 2] as u32) * 0x10000 + (d[at
        + 3] as u32) * 0x1000000
}

pub(crate) fn read_i32_at(d: &[u8], at: usize) -> (r: i32)
    requires
        at + 4 <= d.len(),
    ensures
        r == le_i32_at(d@, at as int),
{
    read_u32_at(d, at) as i32
}

pub(crate) fn read_u64_at(d: &[u8], at: usize) -> (r: u64)
    requires
        at + 8 <= d.len(),
    ensures
        r == le_u64_at(d@, at as int),
{
    (read_u32_at(d, at) as u64) + (read_u32_at(d, at + 4) as u64) * 0x1_0000_0000
}

/// Reads `n` little-endian `u32`s from `at` on.
pub(crate) fn read_u32s_at(d: &[u8], at: usize, n: usize) -> (r: Vec<u32>)
    requires
        at + 4 * n <= d.len(),
    ensures
        r@ == u32s_at(d@, at as int, n as nat),
{
    let mut r: Vec<u32> = Vec::new();
    let mut i: usize = 0;
    while i < n
        invariant
            i <= n,
            at + 4 * n <= d.len(),
            r@ == u32s_at(d@, at as int, i as nat),
        decreases n - i,
    {
        let x: u32 = read_u32_at(d, at + 4 * i);
        r.push(x);
        i += 1;
        assert(r@ =~= u32s_at(d@, at as int, i as nat));
    }
    r
}

/// Each sample of `mono` twice, as the two channels of interleaved stereo.
pub open spec fn duplicated<T>(mono: Seq<T>) -> Seq<T> {
    Seq::new(2 * mono.len(), |i: int| mono[i / 2])
}

/// The samples of a mono channel as interleaved stereo, each sample twice.
pub fn duplicate_samples<T: Copy>(mono: &Vec<T>) -> (r: Vec<T>)
    ensures
        r@ == duplicated(mono@),
{
    let mut r: Vec<T> = Vec::new();
    let mut i: usize = 0;
    while i < mono.len()
        invariant
            i <= mono@.len(),
            r@ == duplicated(mono@.take(i as int)),
        decreases mono@.len() - i,
    {
        let m: T = mono[i];
        r.push(m);
        r.push(m);
        i += 1;
        assert(r@ =~= duplicated(mono@.take(i as int)));
    }
    assert(mono@.take(i as int) =~= mono@);
    r
}

} // verus!
