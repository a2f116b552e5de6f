use swiftlet::binaural::hrtf::Hrtf;
use swiftlet::binaural::ild::Ild;
use swiftlet::binaural::{duplicate_samples, get_orientation_key, ListenerEffects};

fn ild_entry(azimuth: i32, elevation: i32, first: u32) -> Vec<u8> {
    let mut e = Vec::new();
    e.extend_from_slice(&azimuth.to_le_bytes());
    e.extend_from_slice(&elevation.to_le_bytes());
    for k in 0..10u32 {
        e.extend_from_slice(&(first + k).to_le_bytes());
    }
    e
}

fn ild_data(entries: &[Vec<u8>]) -> Vec<u8> {
    let mut d = vec![1u8];
    d.extend_from_slice(&48000u32.to_le_bytes());
    d.extend_from_slice(&(entries.len() as u64).to_le_bytes());
    for e in entries {
        d.extend_from_slice(e);
    }
    d
}

#[test]
fn ild_filters_by_orientation() {
    let d = ild_data(&[ild_entry(10, -20, 100), ild_entry(0, 5, 200), ild_entry(10, -20, 300)]);
    let ild = Ild::new_from_3dti_data(&d).unwrap();
    assert_eq!(ild.sampling_rate(), 48000);
    let f = ild.get_filters(10, -20).unwrap();
    assert_eq!(f.first(), &vec![300, 301, 302, 303, 304]);
    assert_eq!(f.second(), &vec![305, 306, 307, 308, 309]);
    let g = ild.get_filters(0, 5).unwrap();
    assert_eq!(g.first()[0], 200);
    assert!(ild.get_filters(5, 0).is_none());
}

#[test]
fn ild_refusals() {
    let d = ild_data(&[ild_entry(1, 2, 3)]);
    assert!(Ild::new_from_3dti_data(&d[..d.len() - 1]).is_none());
    let mut big_endian = d.clone();
    big_endian[0] = 0;
    assert!(Ild::new_from_3dti_data(&big_endian).is_none());
    assert!(Ild::new_from_3dti_data(&d[..12]).is_none());
    let empty = ild_data(&[]);
    let ild = Ild::new_from_3dti_data(&empty).unwrap();
    assert!(ild.get_filters(1, 2).is_none());
}

fn hrtf_entry(azimuth: i32, elevation: i32, len: u64, sizes: (u64, u64), base: u32) -> Vec<u8> {
    let mut e = Vec::new();
    e.extend_from_slice(&azimuth.to_le_bytes());
    e.extend_from_slice(&elevation.to_le_bytes());
    e.extend_from_slice(&5u64.to_le_bytes());
    e.extend_from_slice(&7u64.to_le_bytes());
    e.extend_from_slice(&sizes.0.to_le_bytes());
    for k in 0..len as u32 {
        e.extend_from_slice(&(base + k).to_le_bytes());
    }
    e.extend_from_slice(&sizes.1.to_le_bytes());
    for k in 0..len as u32 {
        e.extend_from_slice(&(base + 100 + k).to_le_bytes());
    }
    e
}

fn hrtf_data(len: u32, entries: &[Vec<u8>]) -> Vec<u8> {
    let mut d = vec![1u8];
    d.extend_from_slice(&48000u32.to_le_bytes());
    d.extend_from_slice(&len.to_le_bytes());
    d.extend_from_slice(&1.5f32.to_bits().to_le_bytes());
    d.extend_from_slice(&(entries.len() as u64).to_le_bytes());
    for e in entries {
        d.extend_from_slice(e);
    }
    d
}

#[test]
fn hrtf_responses_by_orientation() {
    let d = hrtf_data(2, &[hrtf_entry(30, 0, 2, (2, 2), 1000), hrtf_entry(-30, 15, 2, (2, 2), 2000)]);
    let hrtf = Hrtf::new_from_3dti_data(&d).unwrap();
    assert_eq!(hrtf.sampling_rate(), 48000);
    assert_eq!(hrtf.ir_data_len(), 2);
    assert_eq!(f32::from_bits(hrtf.distance_of_measurement()), 1.5);
    let r = hrtf.get_response(30, 0).unwrap();
    assert_eq!(r.left_delay(), 5);
    assert_eq!(r.right_delay(), 7);
    assert_eq!(r.left_data(), &vec![1000, 1001]);
    assert_eq!(r.right_data(), &vec![1100, 1101]);
    let s = hrtf.get_response(-30, 15).unwrap();
    assert_eq!(s.left_data(), &vec![2000, 2001]);
    assert!(hrtf.get_response(0, 30).is_none());
}

#[test]
fn hrtf_refusals() {
    let mismatch_left = hrtf_data(2, &[hrtf_entry(1, 1, 2, (3, 2), 0)]);
    assert!(Hrtf::new_from_3dti_data(&mismatch_left).is_none());
    let mismatch_right =
        hrtf_data(2, &[hrtf_entry(1, 1, 2, (2, 2), 0), hrtf_entry(2, 2, 2, (2, 1), 0)]);
    assert!(Hrtf::new_from_3dti_data(&mismatch_right).is_none());
    let good = hrtf_data(2, &[hrtf_entry(1, 1, 2, (2, 2), 0)]);
    assert!(Hrtf::new_from_3dti_data(&good[..good.len() - 1]).is_none());
    assert!(Hrtf::new_from_3dti_data(&good[..20]).is_none());
    let mut big_endian = good.clone();
    big_endian[0] = 2;
    assert!(Hrtf::new_from_3dti_data(&big_endian).is_none());
}

#[test]
fn orientation_keys() {
    assert_eq!(get_orientation_key(1, -1), 0x1_FFFF_FFFF);
    assert_eq!(get_orientation_key(-1, 0), -0x1_0000_0000);
    assert_eq!(get_orientation_key(0, 7), 7);
    assert_ne!(get_orientation_key(1, 0), get_orientation_key(0, 1));
}

#[test]
fn mono_to_stereo_duplicates_samples() {
    assert_eq!(duplicate_samples(&vec![1.5f32, -2.0]), vec![1.5f32, 1.5, -2.0, -2.0]);
    assert_eq!(duplicate_samples(&Vec::<i16>::new()), Vec::<i16>::new());
}

#[test]
fn listener_effects_are_plain_switches() {
    let effects = ListenerEffects { far_distance: true, distance_attenuation: false };
    assert!(effects.far_distance);
    assert!(!effects.distance_attenuation);
}

#[test]
fn ild_sizes_that_overflow() {
    let mut huge = ild_data(&[]);
    huge[5..13].copy_from_slice(&u64::MAX.to_le_bytes());
    assert!(Ild::try_new_from_3dti_data(&huge).is_none());
    assert!(matches!(Ild::try_new_from_3dti_data(&huge[..12]), Some(None)));
    let one = ild_data(&[ild_entry(1, 2, 3)]);
    let Some(Some(ild)) = Ild::try_new_from_3dti_data(&one) else {
        panic!("readable ILD data was not read");
    };
    assert_eq!(ild.get_filters(1, 2).unwrap().first()[0], 3);
}

#[test]
fn hrtf_sizes_that_overflow() {
    let mut huge = hrtf_data(2, &[]);
    huge[13..21].copy_from_slice(&u64::MAX.to_le_bytes());
    assert!(Hrtf::try_new_from_3dti_data(&huge).is_none());
    let good = hrtf_data(2, &[hrtf_entry(1, 1, 2, (2, 2), 0)]);
    assert!(matches!(Hrtf::try_new_from_3dti_data(&good[..good.len() - 1]), Some(None)));
    let Some(Some(hrtf)) = Hrtf::try_new_from_3dti_data(&good) else {
        panic!("readable HRTF data was not read");
    };
    assert_eq!(hrtf.get_response(1, 1).unwrap().left_data(), &vec![0, 1]);
}
