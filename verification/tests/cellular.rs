use simdnoise::binary32::Binary32;
use simdnoise::cellular::{
    cellular_2d, cellular_3d, cellular_3d_seeded, new_cellular_2d, new_cellular_2d_seeded,
    CellDistanceFunction, CellReturnType, CELL_SEED,
};

fn v(x: f32) -> Binary32 {
    Binary32::from_bits(x.to_bits())
}

fn f(v: Binary32) -> f32 {
    f32::from_bits(v.to_bits())
}

const METRICS: [CellDistanceFunction; 4] = [
    CellDistanceFunction::Euclidean,
    CellDistanceFunction::Manhattan,
    CellDistanceFunction::Natural,
    CellDistanceFunction::ManhattanTwice,
];

#[test]
fn new_cellular_2d_known_values() {
    let expected = [0x3e99aca3u32, 0x3f2c3c96, 0x3f7912e8, 0x3fac3c96];
    for (metric, want) in METRICS.iter().zip(expected) {
        let d = new_cellular_2d(v(0.3), v(0.4), *metric, CellReturnType::Distance, v(0.45));
        assert_eq!(d.to_bits(), want);
        let c = new_cellular_2d(v(0.3), v(0.4), *metric, CellReturnType::CellValue, v(0.45));
        assert_eq!(c.to_bits(), 0xbec715c0);
    }
}

#[test]
fn cellular_3d_known_values() {
    let expected = [0x3e6cb85eu32, 0x3f531cb8, 0x3f872568, 0x3fd31cb8];
    for (metric, want) in METRICS.iter().zip(expected) {
        let d = cellular_3d(v(0.3), v(0.4), v(-1.2), *metric, CellReturnType::Distance, v(0.45));
        assert_eq!(d.to_bits(), want);
        let c = cellular_3d(v(0.3), v(0.4), v(-1.2), *metric, CellReturnType::CellValue, v(0.45));
        assert_eq!(c.to_bits(), 0xbee564ee);
    }
}

#[test]
fn cellular_2d_known_values() {
    let distances = [0x3f040811u32, 0x3f3fc7b2, 0x3fa414b6, 0x3fbfc7b2];
    let values = [0x3f387e1cu32, 0x3d8944ed, 0x3f387e1c, 0x3d8944ed];
    for i in 0..4 {
        let d = cellular_2d(v(0.3), v(0.4), METRICS[i], CellReturnType::Distance, v(0.45));
        assert_eq!(d.to_bits(), distances[i]);
        let c = cellular_2d(v(0.3), v(0.4), METRICS[i], CellReturnType::CellValue, v(0.45));
        assert_eq!(c.to_bits(), values[i]);
    }
}

#[test]
fn without_jitter_the_feature_points_are_the_lattice_points() {
    let (x, y, z) = (0.3f32, 0.4f32, -0.2f32);
    let zero = v(0.0);
    let (dx, dy, dz) = (0.0 - x, 0.0 - y, 0.0 - z);
    let run2 = |m| f(new_cellular_2d(v(x), v(y), m, CellReturnType::Distance, zero));
    assert_eq!(run2(CellDistanceFunction::Euclidean), dx * dx + dy * dy);
    assert_eq!(run2(CellDistanceFunction::Manhattan), dx.abs() + dy.abs());
    assert_eq!(
        run2(CellDistanceFunction::Natural),
        (dx.abs() + dy.abs()) + (dx * dx + dy * dy)
    );
    assert_eq!(
        run2(CellDistanceFunction::ManhattanTwice),
        (dx.abs() + dy.abs()) + (dx.abs() + dy.abs())
    );
    let run3 = |m| f(cellular_3d(v(x), v(y), v(z), m, CellReturnType::Distance, zero));
    assert_eq!(run3(CellDistanceFunction::Euclidean), dz * dz + (dx * dx + dy * dy));
    assert_eq!(run3(CellDistanceFunction::Manhattan), dz.abs() + (dx.abs() + dy.abs()));
    assert_eq!(
        run3(CellDistanceFunction::Natural),
        (dz.abs() + (dx.abs() + dy.abs())) + (dz * dz + (dx * dx + dy * dy))
    );
}

#[test]
fn distances_are_never_negative() {
    for i in 0..400 {
        let x = v((i as f32 * 0.173).sin() * 30.0);
        let y = v((i as f32 * 0.311).cos() * 30.0);
        let z = v((i as f32 * 0.057).sin() * 30.0);
        for metric in METRICS {
            let jitter = v(1.0);
            assert!(f(new_cellular_2d(x, y, metric, CellReturnType::Distance, jitter)) >= 0.0);
            assert!(f(cellular_3d(x, y, z, metric, CellReturnType::Distance, jitter)) >= 0.0);
            assert!(f(cellular_2d(x, y, metric, CellReturnType::Distance, jitter)) >= 0.0);
        }
    }
}

#[test]
fn cell_values_lie_between_minus_one_and_one() {
    for i in 0..400 {
        let x = v((i as f32 * 0.173).sin() * 30.0);
        let y = v((i as f32 * 0.311).cos() * 30.0);
        let z = v((i as f32 * 0.057).sin() * 30.0);
        let m = CellDistanceFunction::Euclidean;
        let a = f(new_cellular_2d(x, y, m, CellReturnType::CellValue, v(0.8)));
        let b = f(cellular_3d(x, y, z, m, CellReturnType::CellValue, v(0.8)));
        let c = f(cellular_2d(x, y, m, CellReturnType::CellValue, v(0.8)));
        assert!(a >= -1.0 && a <= 1.0);
        assert!(b >= -1.0 && b <= 1.0);
        assert!(c >= -1.0 && c <= 1.0);
    }
}

#[test]
fn unseeded_kernels_use_the_default_seed() {
    let m = CellDistanceFunction::Natural;
    let (x, y, z, j) = (v(4.3), v(-2.8), v(0.6), v(0.7));
    for ret in [CellReturnType::Distance, CellReturnType::CellValue] {
        assert_eq!(new_cellular_2d(x, y, m, ret, j), new_cellular_2d_seeded(CELL_SEED, x, y, m, ret, j));
        assert_eq!(cellular_3d(x, y, z, m, ret, j), cellular_3d_seeded(CELL_SEED, x, y, z, m, ret, j));
    }
    assert_eq!(CELL_SEED, 1337);
}

#[test]
fn seed_changes_the_cells() {
    let m = CellDistanceFunction::Euclidean;
    let mut differs2 = false;
    let mut differs3 = false;
    for i in 0..20 {
        let x = v(i as f32 * 0.7);
        let y = v(i as f32 * -0.3);
        let j = v(1.0);
        differs2 |= new_cellular_2d_seeded(1, x, y, m, CellReturnType::CellValue, j)
            != new_cellular_2d_seeded(2, x, y, m, CellReturnType::CellValue, j);
        differs3 |= cellular_3d_seeded(1, x, y, x, m, CellReturnType::Distance, j)
            != cellular_3d_seeded(2, x, y, x, m, CellReturnType::Distance, j);
    }
    assert!(differs2);
    assert!(differs3);
}

#[test]
fn jitter_moves_the_feature_points() {
    let m = CellDistanceFunction::Euclidean;
    let a = new_cellular_2d(v(0.3), v(0.4), m, CellReturnType::Distance, v(0.0));
    let b = new_cellular_2d(v(0.3), v(0.4), m, CellReturnType::Distance, v(1.0));
    assert_ne!(a, b);
    let c = cellular_2d(v(0.3), v(0.4), m, CellReturnType::Distance, v(0.1));
    let d = cellular_2d(v(0.3), v(0.4), m, CellReturnType::Distance, v(1.0));
    assert_ne!(c, d);
}

#[test]
fn halves_round_away_from_zero() {
    // 12.5 rounds to the lattice row 13; the block of cells around row 12
    // would give 0x3ec22b6f.
    let d = new_cellular_2d(
        v(-39.5),
        v(12.5),
        CellDistanceFunction::Euclidean,
        CellReturnType::Distance,
        v(1.0),
    );
    assert_eq!(d.to_bits(), 0x3ef73592);
}
