use simdnoise::dispatch::{lane_width, select_backend, Backend, CpuFeatures, Dispatcher};

fn none() -> CpuFeatures {
    CpuFeatures {
        sse2: false,
        sse41: false,
        avx2: false,
        fma: false,
        avx512f: false,
        avx512bw: false,
        avx512dq: false,
    }
}

fn all() -> CpuFeatures {
    CpuFeatures {
        sse2: true,
        sse41: true,
        avx2: true,
        fma: true,
        avx512f: true,
        avx512bw: true,
        avx512dq: true,
    }
}

#[test]
fn widest_backend_wins() {
    assert_eq!(select_backend(all()), Backend::Avx512);
    assert_eq!(select_backend(CpuFeatures { avx512dq: false, ..all() }), Backend::Avx2);
    assert_eq!(select_backend(CpuFeatures { avx512f: false, fma: false, ..all() }), Backend::Sse41);
    assert_eq!(
        select_backend(CpuFeatures { sse2: true, sse41: true, ..none() }),
        Backend::Sse41
    );
    assert_eq!(select_backend(CpuFeatures { sse2: true, ..none() }), Backend::Sse2);
}

#[test]
fn scalar_is_the_fallback() {
    assert_eq!(select_backend(none()), Backend::Scalar);
    assert_eq!(select_backend(CpuFeatures { avx2: true, ..none() }), Backend::Scalar);
    assert_eq!(select_backend(CpuFeatures { fma: true, avx512f: true, ..none() }), Backend::Scalar);
}

#[test]
fn lane_widths() {
    assert_eq!(lane_width(Backend::Scalar), 1);
    assert_eq!(lane_width(Backend::Sse2), 4);
    assert_eq!(lane_width(Backend::Sse41), 4);
    assert_eq!(lane_width(Backend::Avx2), 8);
    assert_eq!(lane_width(Backend::Avx512), 16);
}

#[test]
fn dispatcher_chooses_once() {
    let mut d = Dispatcher::new();
    assert!(d.needs_probe());
    assert_eq!(d.resolve(CpuFeatures { sse2: true, ..none() }), Backend::Sse2);
    assert!(!d.needs_probe());
    assert_eq!(d.resolve(all()), Backend::Sse2);
    assert_eq!(d.resolve(none()), Backend::Sse2);
    assert_eq!(d.chosen, Some(Backend::Sse2));
}
