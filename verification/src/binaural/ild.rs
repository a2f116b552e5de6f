//! Interaural level difference filters: two biquad filters of five coefficients for each
//! orientation, read from 3DTI data.
//!
//! The data: a byte 1 (little-endian), the sampling rate (`u32`), the number of entries
//! (`u64`), then per entry the azimuth and the elevation (`i32`) and ten coefficients
//! (`f32`), 48 bytes in all.

use vstd::prelude::*;
use std::collections::HashMap;

use super::{law_orientation_key_injective, le_i32_at, le_u32_at, le_u64_at, orientation_key, u32s_at};
use super::{get_orientation_key, read_i32_at, read_u32_at, read_u32s_at, read_u64_at};

verus! {

broadcast use vstd::std_specs::hash::group_hash_axioms;

/// The two filters of an orientation, each coefficient as the bits of its `f32`.
pub struct BiquadFilters {
    first: Vec<u32>,
    second: Vec<u32>,
}

pub struct BiquadView {
    pub first: Seq<u32>,
    pub second: Seq<u32>,
}

impl BiquadFilters {
    pub closed spec fn view(&self) -> BiquadView {
        BiquadView { first: self.first@, second: self.second@ }
    }

    /// The five coefficients of the first filter.
    pub fn first(&self) -> (r: &Vec<u32>)
        ensures
            r@ == self.view().first,
    {
        &self.first
    }

    /// The five coefficients of the second filter.
    pub fn second(&self) -> (r: &Vec<u32>)
        ensures
            r@ == self.view().second,
    {
        &self.second
    }
}

/// The entry that starts at `at`: its key and its filters.
pub open spec fn ild_entry_at(d: Seq<u8>, at: int) -> (i64, BiquadView) {
    (
        orientation_key(le_i32_at(d, at), le_i32_at(d, at + 4)),
        BiquadView { first: u32s_at(d, at + 8, 5), second: u32s_at(d, at + 28, 5) },
    )
}

/// The filters of the first `n` entries, a later entry of a key replacing an earlier one.
pub open spec fn ild_map(d: Seq<u8>, n: nat) -> Map<i64, BiquadView>
    decreases n,
{
    if n == 0 {
        Map::empty()
    } else {
        let e = ild_entry_at(d, 13 + 48 * (n - 1));
        ild_map(d, (n - 1) as nat).insert(e.0, e.1)
    }
}

pub struct IldView {
    pub sampling_rate: u32,
    pub filters: Map<i64, BiquadView>,
}

/// Reading ILD data: `None` where the size computation would overflow; `Some(None)` where
/// the data is refused (too short, or not little-endian); else the filters.
pub open spec fn ild(d: Seq<u8>) -> Option<Option<IldView>> {
    if d.len() < 13 || d[0] != 1 {
        Some(None)
    } else {
        let n = le_u64_at(d, 5) as int;
        if n * 48 + 13 > usize::MAX {
            None
        } else if d.len() < n * 48 + 13 {
            Some(None)
        } else {
            Some(Some(IldView { sampling_rate: le_u32_at(d, 1), filters: ild_map(d, n as nat) }))
        }
    }
}

proof fn lemma_ild_map_keeps_last(d: Seq<u8>, i: int, m: nat)
    requires
        0 <= i < m,
        forall|j: int|
            i < j < m ==> (#[trigger] ild_entry_at(d, 13 + 48 * j)).0 != ild_entry_at(d, 13 + 48 * i).0,
    ensures
        ild_map(d, m).contains_key(ild_entry_at(d, 13 + 48 * i).0),
        ild_map(d, m)[ild_entry_at(d, 13 + 48 * i).0] == ild_entry_at(d, 13 + 48 * i).1,
    decreases m,
{
    if m > i + 1 {
        lemma_ild_map_keeps_last(d, i, (m - 1) as nat);
        let e = ild_entry_at(d, 13 + 48 * (m - 1));
        assert(e.0 != ild_entry_at(d, 13 + 48 * i).0);
    }
}

/// Of the entries of one orientation, the last is kept: where no later entry has the
/// orientation of entry `i`, at offset `o = 13 + 48 i`, the filters give that orientation
/// the coefficients that entry `i` holds, read from its bytes (azimuth and elevation at
/// `o`, the first filter's five coefficients at `o + 8`, the second's at `o + 28`).
pub proof fn law_ild_last_entry_kept(d: Seq<u8>, i: int)
    requires
        ild(d) matches Some(Some(_)),
        0 <= i < le_u64_at(d, 5),
        forall|j: int|
            i < j < le_u64_at(d, 5) ==> !(#[trigger] le_i32_at(d, 13 + 48 * j) == le_i32_at(
                d,
                13 + 48 * i,
            ) && le_i32_at(d, 13 + 48 * j + 4) == le_i32_at(d, 13 + 48 * i + 4)),
    ensures
        ({
            let o = 13 + 48 * i;
            let filters = ild(d).unwrap().unwrap().filters;
            let key = orientation_key(le_i32_at(d, o), le_i32_at(d, o + 4));
            &&& filters.contains_key(key)
            &&& filters[key] == BiquadView { first: u32s_at(d, o + 8, 5), second: u32s_at(d, o + 28, 5) }
        }),
{
    let n = le_u64_at(d, 5) as nat;
    let ki = ild_entry_at(d, 13 + 48 * i).0;
    assert forall|j: int| i < j < n implies (#[trigger] ild_entry_at(d, 13 + 48 * j)).0 != ki by {
        let oj = 13 + 48 * j;
        let oi = 13 + 48 * i;
        if ild_entry_at(d, oj).0 == ki {
            law_orientation_key_injective(
                le_i32_at(d, oj),
                le_i32_at(d, oj + 4),
                le_i32_at(d, oi),
                le_i32_at(d, oi + 4),
            );
        }
    }
    lemma_ild_map_keeps_last(d, i, n);
}

/// Interaural level difference filters by orientation.
pub struct Ild {
    sampling_rate: u32,
    map: HashMap<i64, BiquadFilters>,
}

impl Ild {
    pub closed spec fn view(&self) -> IldView {
        IldView {
            sampling_rate: self.sampling_rate,
            filters: self.map@.map_values(|f: BiquadFilters| f.view()),
        }
    }

    /// Reads ILD data: `None` where the size computation would overflow; `Some(None)` for
    /// data that is refused; else the filters (see `ild`).
    pub fn try_new_from_3dti_data(d: &[u8]) -> (r: Option<Option<Self>>)
        ensures
            r is None <==> ild(d@) is None,
            r matches Some(x) ==> (x is None <==> ild(d@).unwrap() is None),
            r matches Some(x) ==> (x matches Some(i) ==> i.view() == ild(d@).unwrap().unwrap()),
    {
        if d.len() < 13 || d[0] != 1 {
            return Some(None);
        }
        let n: u128 = read_u64_at(d, 5) as u128;
        if n * 48 + 13 > usize::MAX as u128 {
            return None;
        }
        Some(Self::new_from_3dti_data(d))
    }

    /// Reads ILD data; `None` for data that is refused (see `ild`, whose `None` cases,
    /// where the size computation overflows, are left out).
    pub fn new_from_3dti_data(d: &[u8]) -> (r: Option<Self>)
        requires
            ild(d@) is Some,
        ensures
            r is None <==> ild(d@).unwrap() is None,
            r matches Some(i) ==> i.view() == ild(d@).unwrap().unwrap(),
    {
        if d.len() < 13 {
            return None;
        }
        if d[0] != 1 {
            return None;
        }
        let sampling_rate: u32 = read_u32_at(d, 1);
        let map_entries: usize = read_u64_at(d, 5) as usize;
        let map_data_size: usize = map_entries * 48;
        if d.len() < map_data_size + 13 {
            return None;
        }
        let mut d_pos: usize = 13;
        let mut map: HashMap<i64, BiquadFilters> = HashMap::with_capacity(map_entries);
        let mut i: usize = 0;
        while i < map_entries
            invariant
                i <= map_entries,
                map_entries * 48 + 13 <= d.len(),
                d_pos == 13 + 48 * i,
                map@.map_values(|f: BiquadFilters| f.view()) == ild_map(d@, i as nat),
            decreases map_entries - i,
        {
            let azimuth: i32 = read_i32_at(d, d_pos);
            let elevation: i32 = read_i32_at(d, d_pos + 4);
            let key: i64 = get_orientation_key(azimuth, elevation);
            let first: Vec<u32> = read_u32s_at(d, d_pos + 8, 5);
            let second: Vec<u32> = read_u32s_at(d, d_pos + 28, 5);
            let filters = BiquadFilters { first, second };
            let ghost before = map@;
            map.insert(key, filters);
            proof {
                let e = ild_entry_at(d@, 13 + 48 * i);
                assert(e.0 == key);
                assert(filters.view() == e.1);
                assert(map@.map_values(|f: BiquadFilters| f.view()) =~= before.map_values(
                    |f: BiquadFilters| f.view(),
                ).insert(key, e.1));
            }
            d_pos = d_pos + 48;
            i = i + 1;
        }
        let r = Ild { sampling_rate, map };
        Some(r)
    }

    /// The sampling rate of the data.
    pub fn sampling_rate(&self) -> (r: u32)
        ensures
            r == self.view().sampling_rate,
    {
        self.sampling_rate
    }

    /// The filters of an orientation, if the data had any.
    pub fn get_filters(&self, azimuth: i32, elevation: i32) -> (r: Option<&BiquadFilters>)
        ensures
            r is Some <==> self.view().filters.contains_key(orientation_key(azimuth, elevation)),
            r matches Some(f) ==> f.view() == self.view().filters[orientation_key(
                azimuth,
                elevation,
            )],
    {
        let key: i64 = get_orientation_key(azimuth, elevation);
        self.map.get(&key)
    }
}

} // verus!
