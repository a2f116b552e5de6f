//! Head-related impulse responses for each orientation, read from 3DTI data.
//!
//! The data: a byte 1 (little-endian), the sampling rate (`u32`), the length `L` of each
//! response (`u32`), the distance of measurement (`f32`), the number of entries (`u64`),
//! then per entry the azimuth and the elevation (`i32`), the left and right delays
//! (`u64`), and the left and right responses, each a length (`u64`, which must be `L`)
//! followed by `L` samples (`f32`): 40 + 8 `L` bytes in all.

use vstd::prelude::*;
use std::collections::HashMap;

use super::{law_orientation_key_injective, le_i32_at, le_u32_at, le_u64_at, orientation_key, u32s_at};
use super::{get_orientation_key, read_i32_at, read_u32_at, read_u32s_at, read_u64_at};

verus! {

broadcast use vstd::std_specs::hash::group_hash_axioms;

/// A head-related impulse response: the delays and the samples of each ear, each sample
/// as the bits of its `f32`.
pub struct ImpulseResponse {
    left_delay: u64,
    right_delay: u64,
    left_data: Vec<u32>,
    right_data: Vec<u32>,
}

pub struct ImpulseResponseView {
    pub left_delay: u64,
    pub right_delay: u64,
    pub left_data: Seq<u32>,
    pub right_data: Seq<u32>,
}

impl ImpulseResponse {
    pub closed spec fn view(&self) -> ImpulseResponseView {
        ImpulseResponseView {
            left_delay: self.left_delay,
            right_delay: self.right_delay,
            left_data: self.left_data@,
            right_data: self.right_data@,
        }
    }

    pub fn left_delay(&self) -> (r: u64)
        ensures
            r == self.view().left_delay,
    {
        self.left_delay
    }

    pub fn right_delay(&self) -> (r: u64)
        ensures
            r == self.view().right_delay,
    {
        self.right_delay
    }

    pub fn left_data(&self) -> (r: &Vec<u32>)
        ensures
            r@ == self.view().left_data,
    {
        &self.left_data
    }

    pub fn right_data(&self) -> (r: &Vec<u32>)
        ensures
            r@ == self.view().right_data,
    {
        &self.right_data
    }
}

/// Where entry `i` starts, for responses of length `len`.
pub open spec fn hrtf_offset(i: int, len: int) -> int {
    21 + i * (40 + 8 * len)
}

/// Both lengths that the entry at `at` gives are `len`.
pub open spec fn hrtf_entry_ok(d: Seq<u8>, at: int, len: int) -> bool {
    le_u64_at(d, at + 24) == len && le_u64_at(d, at + 32 + 4 * len) == len
}

/// The entry that starts at `at`: its key and its response.
pub open spec fn hrtf_entry_at(d: Seq<u8>, at: int, len: nat) -> (i64, ImpulseResponseView) {
    (
        orientation_key(le_i32_at(d, at), le_i32_at(d, at + 4)),
        ImpulseResponseView {
            left_delay: le_u64_at(d, at + 8),
            right_delay: le_u64_at(d, at + 16),
            left_data: u32s_at(d, at + 32, len),
            right_data: u32s_at(d, at + 40 + 4 * len, len),
        },
    )
}

/// The responses of the first `n` entries, a later entry of a key replacing an earlier one.
pub open spec fn hrtf_map(d: Seq<u8>, len: nat, n: nat) -> Map<i64, ImpulseResponseView>
    decreases n,
{
    if n == 0 {
        Map::empty()
    } else {
        let e = hrtf_entry_at(d, hrtf_offset(n - 1, len as int), len);
        hrtf_map(d, len, (n - 1) as nat).insert(e.0, e.1)
    }
}

pub struct HrtfView {
    pub sampling_rate: u32,
    pub ir_data_len: u32,
    pub distance_of_measurement: u32,
    pub responses: Map<i64, ImpulseResponseView>,
}

/// Reading HRTF data: `None` where the size computation would overflow; `Some(None)` where
/// the data is refused (too short, not little-endian, or an entry whose lengths are not the
/// header's); else the responses.
pub open spec fn hrtf(d: Seq<u8>) -> Option<Option<HrtfView>> {
    if d.len() < 21 || d[0] != 1 {
        Some(None)
    } else {
        let len = le_u32_at(d, 5) as int;
        let n = le_u64_at(d, 13) as int;
        if 40 + 8 * len > usize::MAX || n * (40 + 8 * len) + 21 > usize::MAX {
            None
        } else if d.len() < n * (40 + 8 * len) + 21 {
            Some(None)
        } else if exists|i: int|
            0 <= i < n && !#[trigger] hrtf_entry_ok(d, hrtf_offset(i, len), len) {
            Some(None)
        } else {
            Some(
                Some(
                    HrtfView {
                        sampling_rate: le_u32_at(d, 1),
                        ir_data_len: len as u32,
                        distance_of_measurement: le_u32_at(d, 9),
                        responses: hrtf_map(d, len as nat, n as nat),
                    },
                ),
            )
        }
    }
}

proof fn lemma_hrtf_map_keeps_last(d: Seq<u8>, len: nat, i: int, m: nat)
    requires
        0 <= i < m,
        forall|j: int|
            i < j < m ==> (#[trigger] hrtf_entry_at(d, hrtf_offset(j, len as int), len)).0
                != hrtf_entry_at(d, hrtf_offset(i, len as int), len).0,
    ensures
        hrtf_map(d, len, m).contains_key(hrtf_entry_at(d, hrtf_offset(i, len as int), len).0),
        hrtf_map(d, len, m)[hrtf_entry_at(d, hrtf_offset(i, len as int), len).0]
            == hrtf_entry_at(d, hrtf_offset(i, len as int), len).1,
    decreases m,
{
    if m > i + 1 {
        lemma_hrtf_map_keeps_last(d, len, i, (m - 1) as nat);
        let e = hrtf_entry_at(d, hrtf_offset(m - 1, len as int), len);
        assert(e.0 != hrtf_entry_at(d, hrtf_offset(i, len as int), len).0);
    }
}

proof fn lemma_hrtf_map_keys(d: Seq<u8>, len: nat, m: nat, k: i64)
    ensures
        hrtf_map(d, len, m).contains_key(k) <==> exists|j: int|
            0 <= j < m && (#[trigger] hrtf_entry_at(d, hrtf_offset(j, len as int), len)).0 == k,
    decreases m,
{
    if m > 0 {
        lemma_hrtf_map_keys(d, len, (m - 1) as nat, k);
        let e = hrtf_entry_at(d, hrtf_offset(m - 1, len as int), len);
        if e.0 == k {
            assert(hrtf_entry_at(d, hrtf_offset(m - 1, len as int), len).0 == k);
        }
        if exists|j: int|
            0 <= j < m && (#[trigger] hrtf_entry_at(d, hrtf_offset(j, len as int), len)).0 == k {
            let j = choose|j: int|
                0 <= j < m && (#[trigger] hrtf_entry_at(d, hrtf_offset(j, len as int), len)).0 == k;
            if j < m - 1 {
                assert(exists|j2: int|
                    0 <= j2 < m - 1 && (#[trigger] hrtf_entry_at(d, hrtf_offset(j2, len as int), len)).0
                        == k);
            }
        }
    }
}

/// The azimuth and the elevation of the entry that starts at `at` are those of the entry
/// at `other`.
pub open spec fn same_orientation(d: Seq<u8>, at: int, other: int) -> bool {
    le_i32_at(d, at) == le_i32_at(d, other) && le_i32_at(d, at + 4) == le_i32_at(d, other + 4)
}

/// Of the entries of one orientation, the last is kept: where no later entry has the
/// orientation of entry `i`, the responses give that orientation the delays and samples
/// that entry `i` holds, read from its bytes (azimuth and elevation at its offset `o`, the
/// left and right delays at `o + 8` and `o + 16`, the left samples at `o + 32` and the
/// right ones after the right length at `o + 32 + 4 L`).
pub proof fn law_hrtf_last_entry_kept(d: Seq<u8>, i: int)
    requires
        hrtf(d) matches Some(Some(_)),
        0 <= i < le_u64_at(d, 13),
        forall|j: int|
            i < j < le_u64_at(d, 13) ==> !#[trigger] same_orientation(
                d,
                hrtf_offset(j, le_u32_at(d, 5) as int),
                hrtf_offset(i, le_u32_at(d, 5) as int),
            ),
    ensures
        ({
            let len = le_u32_at(d, 5) as int;
            let o = hrtf_offset(i, len);
            let responses = hrtf(d).unwrap().unwrap().responses;
            let key = orientation_key(le_i32_at(d, o), le_i32_at(d, o + 4));
            &&& responses.contains_key(key)
            &&& responses[key] == ImpulseResponseView {
                left_delay: le_u64_at(d, o + 8),
                right_delay: le_u64_at(d, o + 16),
                left_data: u32s_at(d, o + 32, len as nat),
                right_data: u32s_at(d, o + 40 + 4 * len, len as nat),
            }
        }),
{
    let len = le_u32_at(d, 5) as nat;
    let n = le_u64_at(d, 13) as nat;
    let ki = hrtf_entry_at(d, hrtf_offset(i, len as int), len).0;
    assert forall|j: int| i < j < n implies (#[trigger] hrtf_entry_at(d, hrtf_offset(j, len as int), len)).0
        != ki by {
        let oj = hrtf_offset(j, len as int);
        let oi = hrtf_offset(i, len as int);
        assert(!same_orientation(d, oj, oi));
        if hrtf_entry_at(d, oj, len).0 == ki {
            law_orientation_key_injective(
                le_i32_at(d, oj),
                le_i32_at(d, oj + 4),
                le_i32_at(d, oi),
                le_i32_at(d, oi + 4),
            );
        }
    }
    lemma_hrtf_map_keeps_last(d, len, i, n);
}

/// The responses hold exactly the orientations of the entries.
pub proof fn law_hrtf_orientations(d: Seq<u8>, azimuth: i32, elevation: i32)
    requires
        hrtf(d) matches Some(Some(_)),
    ensures
        hrtf(d).unwrap().unwrap().responses.contains_key(orientation_key(azimuth, elevation))
            <==> exists|j: int|
            0 <= j < le_u64_at(d, 13) && le_i32_at(d, #[trigger] hrtf_offset(j, le_u32_at(d, 5) as int))
                == azimuth && le_i32_at(d, hrtf_offset(j, le_u32_at(d, 5) as int) + 4) == elevation,
{
    let len = le_u32_at(d, 5) as nat;
    let n = le_u64_at(d, 13) as nat;
    let k = orientation_key(azimuth, elevation);
    lemma_hrtf_map_keys(d, len, n, k);
    if hrtf(d).unwrap().unwrap().responses.contains_key(k) {
        let j = choose|j: int|
            0 <= j < n && (#[trigger] hrtf_entry_at(d, hrtf_offset(j, len as int), len)).0 == k;
        let o = hrtf_offset(j, len as int);
        law_orientation_key_injective(le_i32_at(d, o), le_i32_at(d, o + 4), azimuth, elevation);
    }
    if exists|j: int|
        0 <= j < n && le_i32_at(d, #[trigger] hrtf_offset(j, len as int)) == azimuth && le_i32_at(
            d,
            hrtf_offset(j, len as int) + 4,
        ) == elevation {
        let j = choose|j: int|
            0 <= j < n && le_i32_at(d, #[trigger] hrtf_offset(j, len as int)) == azimuth && le_i32_at(
                d,
                hrtf_offset(j, len as int) + 4,
            ) == elevation;
        assert(hrtf_entry_at(d, hrtf_offset(j, len as int), len).0 == k);
    }
}

/// Head-related impulse responses by orientation.
pub struct Hrtf {
    sampling_rate: u32,
    ir_data_len: u32,
    distance_of_measurement: u32,
    map: HashMap<i64, ImpulseResponse>,
}

proof fn lemma_entry_step(i: int, n: int, len: int)
    requires
        0 <= i < n,
        0 <= len,
    ensures
        hrtf_offset(i, len) + 40 + 8 * len == hrtf_offset(i + 1, len),
        hrtf_offset(i + 1, len) <= hrtf_offset(n, len),
        21 <= hrtf_offset(i, len),
{
    assert(i * (40 + 8 * len) + (40 + 8 * len) == (i + 1) * (40 + 8 * len)) by (nonlinear_arith);
    assert((i + 1) * (40 + 8 * len) <= n * (40 + 8 * len)) by (nonlinear_arith)
        requires
            0 <= i < n,
            0 <= len,
    ;
    assert(0 <= i * (40 + 8 * len)) by (nonlinear_arith)
        requires
            0 <= i,
            0 <= len,
    ;
}

impl Hrtf {
    pub closed spec fn view(&self) -> HrtfView {
        HrtfView {
            sampling_rate: self.sampling_rate,
            ir_data_len: self.ir_data_len,
            distance_of_measurement: self.distance_of_measurement,
            responses: self.map@.map_values(|r: ImpulseResponse| r.view()),
        }
    }

    /// Reads HRTF data: `None` where the size computation would overflow; `Some(None)` for
    /// data that is refused; else the responses (see `hrtf`).
    pub fn try_new_from_3dti_data(d: &[u8]) -> (r: Option<Option<Self>>)
        ensures
            r is None <==> hrtf(d@) is None,
            r matches Some(x) ==> (x is None <==> hrtf(d@).unwrap() is None),
            r matches Some(x) ==> (x matches Some(h) ==> h.view() == hrtf(d@).unwrap().unwrap()),
    {
        if d.len() < 21 || d[0] != 1 {
            return Some(None);
        }
        let len: u128 = read_u32_at(d, 5) as u128;
        let n: u128 = read_u64_at(d, 13) as u128;
        let entry_size: u128 = 40 + 8 * len;
        assert(n * entry_size <= 0xFFFF_FFFF_FFFF_FFFFu128 * 0x8_0000_0028u128) by (nonlinear_arith)
            requires
                n <= 0xFFFF_FFFF_FFFF_FFFFu128,
                entry_size <= 0x8_0000_0028u128,
        ;
        if entry_size > usize::MAX as u128 || n * entry_size + 21 > usize::MAX as u128 {
            return None;
        }
        Some(Self::new_from_3dti_data(d))
    }

    /// Reads HRTF data; `None` for data that is refused (see `hrtf`, whose `None` cases,
    /// where the size computation overflows, are left out).
    pub fn new_from_3dti_data(d: &[u8]) -> (r: Option<Self>)
        requires
            hrtf(d@) is Some,
        ensures
            r is None <==> hrtf(d@).unwrap() is None,
            r matches Some(h) ==> h.view() == hrtf(d@).unwrap().unwrap(),
    {
        if d.len() < 21 {
            return None;
        }
        if d[0] != 1 {
            return None;
        }
        let sampling_rate: u32 = read_u32_at(d, 1);
        let ir_data_len: u32 = read_u32_at(d, 5);
        let distance_of_measurement: u32 = read_u32_at(d, 9);
        let entries: u64 = read_u64_at(d, 13);
        assert(entries <= usize::MAX) by {
            let e = 40 + 8 * ir_data_len as int;
            assert(entries as int <= entries as int * e) by (nonlinear_arith)
                requires
                    e >= 40,
            ;
        }
        let map_entries: usize = entries as usize;
        let len: usize = ir_data_len as usize;
        let entry_size: usize = 40 + len * 8;
        let map_data_size: usize = map_entries * entry_size;
        if d.len() < map_data_size + 21 {
            return None;
        }
        let ghost n = map_entries as int;
        let mut d_pos: usize = 21;
        let mut map: HashMap<i64, ImpulseResponse> = HashMap::with_capacity(map_entries);
        let mut i: usize = 0;
        assert(hrtf_offset(0, len as int) == 21);
        while i < map_entries
            invariant
                hrtf(d@) is Some,
                d@.len() >= 21,
                d@[0] == 1,
                ir_data_len == le_u32_at(d@, 5),
                map_entries == le_u64_at(d@, 13),
                sampling_rate == le_u32_at(d@, 1),
                distance_of_measurement == le_u32_at(d@, 9),
                map_entries * entry_size + 21 <= d@.len(),
                i <= map_entries,
                len == ir_data_len,
                entry_size == 40 + 8 * len,
                hrtf_offset(map_entries as int, len as int) <= d.len(),
                d_pos == hrtf_offset(i as int, len as int),
                forall|j: int|
                    0 <= j < i ==> #[trigger] hrtf_entry_ok(d@, hrtf_offset(j, len as int), len as int),
                map@.map_values(|r: ImpulseResponse| r.view()) == hrtf_map(d@, len as nat, i as nat),
            decreases map_entries - i,
        {
            proof {
                lemma_entry_step(i as int, map_entries as int, len as int);
            }
            let azimuth: i32 = read_i32_at(d, d_pos);
            let elevation: i32 = read_i32_at(d, d_pos + 4);
            let key: i64 = get_orientation_key(azimuth, elevation);
            let left_delay: u64 = read_u64_at(d, d_pos + 8);
            let right_delay: u64 = read_u64_at(d, d_pos + 16);
            let size_check: u64 = read_u64_at(d, d_pos + 24);
            if size_check != (len as u64) {
                assert(!hrtf_entry_ok(d@, hrtf_offset(i as int, len as int), len as int));
                return None;
            }
            let left_data: Vec<u32> = read_u32s_at(d, d_pos + 32, len);
            let size_check: u64 = read_u64_at(d, d_pos + 32 + 4 * len);
            if size_check != (len as u64) {
                assert(!hrtf_entry_ok(d@, hrtf_offset(i as int, len as int), len as int));
                return None;
            }
            let right_data: Vec<u32> = read_u32s_at(d, d_pos + 40 + 4 * len, len);
            let ir = ImpulseResponse { left_delay, right_delay, left_data, right_data };
            let ghost before = map@;
            map.insert(key, ir);
            proof {
                let e = hrtf_entry_at(d@, hrtf_offset(i as int, len as int), len as nat);
                assert(e.0 == key);
                assert(ir.view() == e.1);
                assert(map@.map_values(|r: ImpulseResponse| r.view()) =~= before.map_values(
                    |r: ImpulseResponse| r.view(),
                ).insert(key, e.1));
                assert(hrtf_entry_ok(d@, hrtf_offset(i as int, len as int), len as int));
            }
            d_pos = d_pos + entry_size;
            i = i + 1;
        }
        Some(Hrtf { sampling_rate, ir_data_len, distance_of_measurement, map })
    }

    /// The sampling rate of the data.
    pub fn sampling_rate(&self) -> (r: u32)
        ensures
            r == self.view().sampling_rate,
    {
        self.sampling_rate
    }

    /// The length of each response.
    pub fn ir_data_len(&self) -> (r: u32)
        ensures
            r == self.view().ir_data_len,
    {
        self.ir_data_len
    }

    /// The bits of the distance of measurement, an `f32`.
    pub fn distance_of_measurement(&self) -> (r: u32)
        ensures
            r == self.view().distance_of_measurement,
    {
        self.distance_of_measurement
    }

    /// The response of an orientation, if the data had one.
    pub fn get_response(&self, azimuth: i32, elevation: i32) -> (r: Option<&ImpulseResponse>)
        ensures
            r is Some <==> self.view().responses.contains_key(orientation_key(azimuth, elevation)),
            r matches Some(x) ==> x.view() == self.view().responses[orientation_key(
                azimuth,
                elevation,
            )],
    {
        let key: i64 = get_orientation_key(azimuth, elevation);
        self.map.get(&key)
    }
}

} // verus!
