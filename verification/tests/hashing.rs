use simdnoise::binary32::Binary32;
use simdnoise::hash::{hash_2d, hash_3d, low_byte_of, val_coord_2d, val_coord_3d};
use simdnoise::tables::{CELL_2D_X, CELL_2D_Y, CELL_3D_X, CELL_3D_Y, CELL_3D_Z, PERM};

fn f(v: Binary32) -> f32 {
    f32::from_bits(v.to_bits())
}

#[test]
fn hash_2d_known_values() {
    assert_eq!(hash_2d(1337, 0, 0), 143937226);
    assert_eq!(hash_2d(1337, 1, -1), 2052800986);
    assert_eq!(hash_2d(42, 12345, -6789), 550051752);
}

#[test]
fn hash_3d_known_values() {
    assert_eq!(hash_3d(1337, 0, 0, 0), 143937226);
    assert_eq!(hash_3d(7, 3, -4, 5), 703802741);
}

#[test]
fn hash_depends_on_seed_and_cell() {
    assert_ne!(hash_2d(1, 5, 6), hash_2d(2, 5, 6));
    assert_ne!(hash_2d(1, 5, 6), hash_2d(1, 6, 5));
    assert_ne!(hash_3d(1, 5, 6, 7), hash_3d(1, 5, 6, 8));
}

#[test]
fn val_coord_known_values() {
    assert_eq!(val_coord_2d(1337, 2, 3).to_bits(), 0x3e8a70a5);
    assert_eq!(val_coord_3d(1337, 2, 3, 4).to_bits(), 0x3f225014);
}

#[test]
fn val_coord_lies_between_minus_one_and_one() {
    for x in -20..20 {
        for y in -20..20 {
            let v = f(val_coord_2d(99, x, y));
            assert!(v >= -1.0 && v <= 1.0);
            let w = f(val_coord_3d(99, x, y, x * y));
            assert!(w >= -1.0 && w <= 1.0);
        }
    }
}

#[test]
fn low_byte_keeps_eight_bits() {
    assert_eq!(low_byte_of(0), 0);
    assert_eq!(low_byte_of(255), 255);
    assert_eq!(low_byte_of(256), 0);
    assert_eq!(low_byte_of(-1), 255);
    assert_eq!(low_byte_of(i32::MIN), 0);
    assert_eq!(low_byte_of(0x1234), 0x34);
}

#[test]
fn perm_holds_every_byte_once_and_repeats() {
    let mut seen = [false; 256];
    for i in 0..256 {
        assert!(!seen[PERM[i] as usize]);
        seen[PERM[i] as usize] = true;
        assert_eq!(PERM[i], PERM[i + 256]);
    }
    assert_eq!(PERM[0], 151);
    assert_eq!(PERM[255], 180);
}

#[test]
fn cell_offsets_are_unit_vectors() {
    for h in 0..256 {
        let x = f32::from_bits(CELL_2D_X[h] as u32);
        let y = f32::from_bits(CELL_2D_Y[h] as u32);
        assert!((x * x + y * y - 1.0).abs() < 1e-5);
        let x = f32::from_bits(CELL_3D_X[h] as u32);
        let y = f32::from_bits(CELL_3D_Y[h] as u32);
        let z = f32::from_bits(CELL_3D_Z[h] as u32);
        assert!((x * x + y * y + z * z - 1.0).abs() < 1e-5);
    }
}

#[test]
fn bits_round_trip() {
    for word in [0u32, 1, 0x3f80_0000, 0x7fff_ffff, 0x8000_0000, 0xbf80_0000, 0xffff_ffff] {
        assert_eq!(Binary32::from_bits(word).to_bits(), word);
    }
    assert_eq!(Binary32::from_bits(0x8000_0000).bits, i32::MIN);
    assert_eq!(Binary32::from_bits(0xffff_ffff).bits, -1);
    assert_eq!(Binary32::lit(-1).to_bits(), 0xffff_ffff);
    assert_eq!(f(Binary32::from_bits(1.5f32.to_bits())), 1.5);
}

#[test]
fn settled_replaces_every_nan_by_one() {
    for word in [0x7fc0_0000u32, 0x7f80_0001, 0x7fff_ffff, 0xffc0_0000, 0xff80_0001, 0xffff_ffff] {
        assert_eq!(Binary32::from_bits(word).settled().to_bits(), 0x7fc0_0000);
    }
    for word in [0u32, 0x8000_0000, 0x3f80_0000, 0x7f80_0000, 0xff80_0000, 0x7f7f_ffff, 1] {
        assert_eq!(Binary32::from_bits(word).settled().to_bits(), word);
    }
}
