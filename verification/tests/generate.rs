use simdnoise::binary32::Binary32;
use simdnoise::cellular::{new_cellular_2d_seeded, CellDistanceFunction, CellReturnType};
use simdnoise::fractal::{ridge_3d, Dimension, Point, Weighting};
use simdnoise::generate::{
    generate, generate_scaled, is_supported, sample, validate, GenerateError, Kernel, Settings,
};
use simdnoise::simplex::{simplex_1d, simplex_2d, simplex_4d};

fn v(x: f32) -> Binary32 {
    Binary32::from_bits(x.to_bits())
}

fn f(v: Binary32) -> f32 {
    f32::from_bits(v.to_bits())
}

fn settings(dimension: Dimension, kernel: Kernel) -> Settings {
    Settings {
        dimension,
        kernel,
        width: 4,
        height: 4,
        depth: 1,
        steps: 1,
        offset: Point { x: v(0.0), y: v(0.0), z: v(0.0), w: v(0.0) },
        seed: 42,
        frequency: v(0.1),
        octaves: 3,
        lacunarity: v(2.0),
        gain: v(0.5),
        weighting: Weighting::AfterAbs,
        jitter: v(1.0),
        distance_function: CellDistanceFunction::Euclidean,
        return_type: CellReturnType::Distance,
    }
}

#[test]
fn fbm_2d_grid_is_repeatable() {
    let s = settings(Dimension::Two, Kernel::Fbm);
    let first = generate(&s).unwrap();
    let second = generate(&s).unwrap();
    assert_eq!(first.len(), 16);
    assert_eq!(first, second);
}

#[test]
fn fbm_2d_grid_known_values() {
    let s = settings(Dimension::Two, Kernel::Fbm);
    let words: Vec<u32> = generate(&s).unwrap().iter().map(|x| x.to_bits()).collect();
    assert_eq!(
        words,
        vec![
            0x0, 0xbc515849, 0xbc3b92c7, 0xbc0e175a, 0xbcaf0872, 0xbcc0eca3, 0xbc4600d8,
            0xbc0fcf4e, 0xbc7acbc4, 0xbcebf706, 0xbc9106c2, 0xbb85da5e, 0xbc161a30, 0xbc928b43,
            0xbcad28b7, 0xbb866f3f,
        ]
    );
}

#[test]
fn ridge_3d_grid_with_offsets_known_values() {
    let mut s = settings(Dimension::Three, Kernel::Ridge);
    s.width = 3;
    s.height = 2;
    s.depth = 2;
    s.offset = Point { x: v(1200.0), y: v(200.0), z: v(1.0), w: v(0.0) };
    s.frequency = v(0.02);
    s.seed = 8;
    let words: Vec<u32> = generate(&s).unwrap().iter().map(|x| x.to_bits()).collect();
    assert_eq!(
        words,
        vec![
            0x403efe90, 0x403f03a8, 0x403f0a5b, 0x403f0c6e, 0x403f0cfd, 0x403f0ac2, 0x403ec879,
            0x403eccea, 0x403ed676, 0x403eda6f, 0x403edb62, 0x403ee330,
        ]
    );
    let at = |x: f32, y: f32, z: f32| {
        ridge_3d(v(x * 0.02), v(y * 0.02), v(z * 0.02), v(2.0), v(0.5), 3, 8).to_bits()
    };
    assert_eq!(words[0], at(1200.0, 200.0, 1.0));
    assert_eq!(words[2], at(1202.0, 200.0, 1.0));
    assert_eq!(words[3], at(1200.0, 201.0, 1.0));
    assert_eq!(words[6], at(1200.0, 200.0, 2.0));
}

#[test]
fn grid_is_row_major_with_the_first_axis_fastest() {
    let mut s = settings(Dimension::Two, Kernel::Simplex);
    s.width = 5;
    s.height = 3;
    s.offset = Point { x: v(2.0), y: v(-7.0), z: v(0.0), w: v(0.0) };
    s.frequency = v(0.5);
    let b = generate(&s).unwrap();
    assert_eq!(b.len(), 15);
    for iy in 0..3 {
        for ix in 0..5 {
            let x = (2.0 + ix as f32) * 0.5;
            let y = (-7.0 + iy as f32) * 0.5;
            assert_eq!(b[iy * 5 + ix], simplex_2d(v(x), v(y), 42));
        }
    }
}

#[test]
fn four_axes_are_walked_in_order() {
    let mut s = settings(Dimension::Four, Kernel::Simplex);
    s.width = 2;
    s.height = 3;
    s.depth = 2;
    s.steps = 2;
    s.frequency = v(0.25);
    let b = generate(&s).unwrap();
    assert_eq!(b.len(), 24);
    let mut n = 0;
    for iw in 0..2 {
        for iz in 0..2 {
            for iy in 0..3 {
                for ix in 0..2 {
                    let p = [ix as f32 * 0.25, iy as f32 * 0.25, iz as f32 * 0.25, iw as f32 * 0.25];
                    assert_eq!(b[n], simplex_4d(v(p[0]), v(p[1]), v(p[2]), v(p[3]), 42));
                    n += 1;
                }
            }
        }
    }
}

#[test]
fn axes_beyond_the_dimension_are_not_read() {
    let mut s = settings(Dimension::One, Kernel::Simplex);
    s.width = 6;
    s.height = 0;
    s.depth = 77;
    s.steps = 0;
    s.frequency = v(0.3);
    let b = generate(&s).unwrap();
    assert_eq!(b.len(), 6);
    for ix in 0..6 {
        assert_eq!(b[ix], simplex_1d(v(ix as f32 * 0.3), 42));
    }
}

#[test]
fn output_length_is_the_product_of_the_extents() {
    for (w, h, d) in [(1, 1, 1), (3, 5, 2), (7, 1, 4), (2, 2, 2)] {
        let mut s = settings(Dimension::Three, Kernel::Turbulence);
        s.width = w;
        s.height = h;
        s.depth = d;
        assert_eq!(generate(&s).unwrap().len(), w * h * d);
        assert_eq!(generate_scaled(&s, v(0.0), v(1.0)).unwrap().len(), w * h * d);
    }
}

#[test]
fn zero_width_gives_an_empty_buffer() {
    let mut s = settings(Dimension::Two, Kernel::Fbm);
    s.width = 0;
    s.height = 5;
    assert_eq!(generate(&s), Ok(Vec::new()));
    assert_eq!(generate_scaled(&s, v(0.0), v(255.0)), Ok(Vec::new()));
    s.width = 5;
    s.height = 0;
    assert_eq!(generate(&s), Ok(Vec::new()));
    let mut s = settings(Dimension::Three, Kernel::Cellular);
    s.depth = 0;
    assert_eq!(generate(&s), Ok(Vec::new()));
    s.depth = usize::MAX;
    s.height = usize::MAX;
    s.width = 0;
    assert_eq!(generate(&s), Ok(Vec::new()));
}

#[test]
fn cellular_exists_in_two_and_three_dimensions_only() {
    assert!(!is_supported(Dimension::One, Kernel::Cellular));
    assert!(is_supported(Dimension::Two, Kernel::Cellular));
    assert!(is_supported(Dimension::Three, Kernel::Cellular));
    assert!(!is_supported(Dimension::Four, Kernel::Cellular));
    for kernel in [Kernel::Simplex, Kernel::Fbm, Kernel::Ridge, Kernel::Turbulence] {
        for dimension in [Dimension::One, Dimension::Two, Dimension::Three, Dimension::Four] {
            assert!(is_supported(dimension, kernel));
            assert!(generate(&settings(dimension, kernel)).is_ok());
        }
    }
    for dimension in [Dimension::One, Dimension::Four] {
        let s = settings(dimension, Kernel::Cellular);
        let e = GenerateError::Unsupported { dimension, kernel: Kernel::Cellular };
        assert_eq!(generate(&s), Err(e));
        assert_eq!(generate_scaled(&s, v(0.0), v(1.0)), Err(e));
        assert_eq!(validate(&s), Err(e));
    }
}

#[test]
fn fractals_need_an_octave() {
    for kernel in [Kernel::Fbm, Kernel::Ridge, Kernel::Turbulence] {
        let mut s = settings(Dimension::Two, kernel);
        s.octaves = 0;
        assert_eq!(generate(&s), Err(GenerateError::Octaves));
        s.octaves = 1;
        assert!(generate(&s).is_ok());
    }
    for kernel in [Kernel::Simplex, Kernel::Cellular] {
        let mut s = settings(Dimension::Two, kernel);
        s.octaves = 0;
        assert!(generate(&s).is_ok());
    }
}

#[test]
fn frequency_must_be_finite_and_not_zero() {
    for bad in [0.0f32, -0.0, f32::INFINITY, f32::NEG_INFINITY, f32::NAN, -f32::NAN] {
        let mut s = settings(Dimension::Two, Kernel::Simplex);
        s.frequency = v(bad);
        assert_eq!(generate(&s), Err(GenerateError::Frequency));
        assert_eq!(validate(&s), Err(GenerateError::Frequency));
    }
    for good in [0.1f32, -0.1, f32::MAX, f32::MIN, f32::MIN_POSITIVE, 1.0e-45] {
        let mut s = settings(Dimension::Two, Kernel::Simplex);
        s.frequency = v(good);
        assert_eq!(validate(&s), Ok(()));
    }
}

#[test]
fn errors_are_reported_in_order() {
    let mut s = settings(Dimension::One, Kernel::Cellular);
    s.octaves = 0;
    s.frequency = v(0.0);
    assert_eq!(
        validate(&s),
        Err(GenerateError::Unsupported { dimension: Dimension::One, kernel: Kernel::Cellular })
    );
    let mut s = settings(Dimension::One, Kernel::Ridge);
    s.octaves = 0;
    s.frequency = v(0.0);
    assert_eq!(validate(&s), Err(GenerateError::Octaves));
    s.octaves = 2;
    assert_eq!(validate(&s), Err(GenerateError::Frequency));
    s.width = 0;
    assert_eq!(generate(&s), Err(GenerateError::Frequency));
}

#[test]
fn cellular_grid_scaled_to_bytes() {
    let mut s = settings(Dimension::Two, Kernel::Cellular);
    s.width = 8;
    s.height = 8;
    s.seed = 1;
    s.frequency = v(1.2);
    let raw = generate(&s).unwrap();
    let first: Vec<u32> = raw.iter().take(4).map(|x| x.to_bits()).collect();
    assert_eq!(first, vec![0x3e983658, 0x3ef01a5a, 0x3f050a2b, 0x3e0b793f]);
    let b = generate_scaled(&s, v(0.0), v(255.0)).unwrap();
    assert_eq!(b.len(), 64);
    let first: Vec<u32> = b.iter().take(4).map(|x| x.to_bits()).collect();
    assert_eq!(first, vec![0x42869cd3, 0x42d8d8c5, 0x42f126c5, 0x41e5c7c9]);
    assert!(b.iter().all(|x| f(*x) >= 0.0 && f(*x) <= 255.0));
    assert!(b.iter().any(|x| f(*x) == 0.0 || f(*x) == 255.0));
    assert_eq!(b.iter().filter(|x| f(**x) == 0.0).count(), 1);
    assert_eq!(b.iter().filter(|x| f(**x) == 255.0).count(), 1);
}

#[test]
fn cellular_grid_uses_the_seed() {
    let mut s = settings(Dimension::Two, Kernel::Cellular);
    s.return_type = CellReturnType::CellValue;
    s.frequency = v(0.9);
    s.seed = 5;
    let a = generate(&s).unwrap();
    assert_eq!(
        a[5],
        new_cellular_2d_seeded(
            5,
            v(1.0 * 0.9),
            v(1.0 * 0.9),
            CellDistanceFunction::Euclidean,
            CellReturnType::CellValue,
            v(1.0)
        )
    );
    s.seed = 6;
    assert_ne!(generate(&s).unwrap(), a);
}

#[test]
fn scaled_grid_stays_in_the_target_range() {
    for kernel in [Kernel::Simplex, Kernel::Fbm, Kernel::Ridge, Kernel::Turbulence, Kernel::Cellular] {
        let mut s = settings(Dimension::Three, kernel);
        s.width = 6;
        s.height = 5;
        s.depth = 3;
        let b = generate_scaled(&s, v(-1.0), v(1.0)).unwrap();
        assert!(b.iter().all(|x| f(*x) >= -1.0 && f(*x) <= 1.0));
        assert!(b.iter().any(|x| f(*x) == -1.0));
        assert!(b.iter().any(|x| f(*x) == 1.0));
    }
}

#[test]
fn sample_reads_the_kernel_of_the_settings() {
    let p = Point { x: v(0.3), y: v(0.4), z: v(0.5), w: v(0.6) };
    let s = settings(Dimension::Two, Kernel::Simplex);
    assert_eq!(sample(&s, p), simplex_2d(p.x, p.y, 42));
    let mut s = settings(Dimension::Three, Kernel::Ridge);
    s.weighting = Weighting::AfterAbs;
    assert_eq!(sample(&s, p), ridge_3d(p.x, p.y, p.z, v(2.0), v(0.5), 3, 42));
}
