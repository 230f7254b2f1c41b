//! Choice of the vector backend for a host.
//!
//! The capabilities of the processor are probed by the caller, once; from
//! them the widest backend that the processor can run is chosen, and the
//! choice is kept for as long as the dispatcher lives.
use vstd::prelude::*;

verus! {

/// What the processor reported about its vector instruction sets.
#[derive(Clone, Copy, Debug, PartialEq, Eq, Structural)]
pub struct CpuFeatures {
    pub sse2: bool,
    pub sse41: bool,
    pub avx2: bool,
    pub fma: bool,
    pub avx512f: bool,
    pub avx512bw: bool,
    pub avx512dq: bool,
}

/// A vector backend, named after the instruction set it is built on.
#[derive(Clone, Copy, Debug, PartialEq, Eq, Structural)]
pub enum Backend {
    /// One lane, plain scalar instructions: runs everywhere.
    Scalar,
    /// Four lanes.
    Sse2,
    /// Four lanes.
    Sse41,
    /// Eight lanes, with fused multiply-add.
    Avx2,
    /// Sixteen lanes.
    Avx512,
}

/// Whether a processor with the given features can run the backend.
pub open spec fn qualifies(features: CpuFeatures, backend: Backend) -> bool {
    match backend {
        Backend::Scalar => true,
        Backend::Sse2 => features.sse2,
        Backend::Sse41 => features.sse41,
        Backend::Avx2 => features.avx2 && features.fma,
        Backend::Avx512 => features.avx512f && features.avx512bw && features.avx512dq,
    }
}

/// Place of the backend in the order of preference: the higher, the more
/// preferred.
pub open spec fn preference(backend: Backend) -> nat {
    match backend {
        Backend::Scalar => 0,
        Backend::Sse2 => 1,
        Backend::Sse41 => 2,
        Backend::Avx2 => 3,
        Backend::Avx512 => 4,
    }
}

/// Number of single-precision lanes that the backend works on at once.
pub open spec fn lane_width_spec(backend: Backend) -> nat {
    match backend {
        Backend::Scalar => 1,
        Backend::Sse2 => 4,
        Backend::Sse41 => 4,
        Backend::Avx2 => 8,
        Backend::Avx512 => 16,
    }
}

/// The backend chosen for a processor: the most preferred one that it can
/// run.
pub open spec fn selected(features: CpuFeatures) -> Backend {
    if qualifies(features, Backend::Avx512) {
        Backend::Avx512
    } else if qualifies(features, Backend::Avx2) {
        Backend::Avx2
    } else if qualifies(features, Backend::Sse41) {
        Backend::Sse41
    } else if qualifies(features, Backend::Sse2) {
        Backend::Sse2
    } else {
        Backend::Scalar
    }
}

/// A more preferred backend never has fewer lanes.
pub proof fn lemma_preference_follows_width(a: Backend, b: Backend)
    requires
        preference(a) <= preference(b),
    ensures
        lane_width_spec(a) <= lane_width_spec(b),
{
}

/// Number of single-precision lanes of the backend.
pub fn lane_width(backend: Backend) -> (r: usize)
    ensures
        r == lane_width_spec(backend),
{
    match backend {
        Backend::Scalar => 1,
        Backend::Sse2 => 4,
        Backend::Sse41 => 4,
        Backend::Avx2 => 8,
        Backend::Avx512 => 16,
    }
}

/// Chooses the backend for a processor with the given features: one that the
/// processor can run, and that no backend it can run is preferred to. The
/// scalar backend is chosen exactly where no other qualifies.
pub fn select_backend(features: CpuFeatures) -> (backend: Backend)
    ensures
        backend == selected(features),
        qualifies(features, backend),
        forall|other: Backend|
            qualifies(features, other) ==> preference(other) <= preference(backend),
        backend == Backend::Scalar <==> forall|other: Backend|
            qualifies(features, other) ==> other == Backend::Scalar,
{
    let backend = if features.avx512f && features.avx512bw && features.avx512dq {
        Backend::Avx512
    } else if features.avx2 && features.fma {
        Backend::Avx2
    } else if features.sse41 {
        Backend::Sse41
    } else if features.sse2 {
        Backend::Sse2
    } else {
        Backend::Scalar
    };
    assert(qualifies(features, backend));
    backend
}

/// Remembers the backend chosen at first need.
#[derive(Clone, Copy, Debug, PartialEq, Eq, Structural)]
pub struct Dispatcher {
    pub chosen: Option<Backend>,
}

impl Dispatcher {
    /// A dispatcher that has not chosen yet.
    pub fn new() -> (d: Dispatcher)
        ensures
            d.chosen is None,
    {
        Dispatcher { chosen: None }
    }

    /// Whether the processor still has to be probed: true until the first
    /// call of `resolve`.
    pub fn needs_probe(&self) -> (r: bool)
        ensures
            r == (self.chosen is None),
    {
        self.chosen.is_none()
    }

    /// The backend to use. The first call chooses it from the features that
    /// were probed and remembers it; every later call returns the remembered
    /// backend, whatever features it is handed.
    pub fn resolve(&mut self, features: CpuFeatures) -> (backend: Backend)
        ensures
            final(self).chosen == Some(backend),
            old(self).chosen is None ==> backend == selected(features),
            old(self).chosen is Some ==> *final(self) == *old(self),
    {
        match self.chosen {
            Some(backend) => backend,
            None => {
                let backend = select_backend(features);
                self.chosen = Some(backend);
                backend
            },
        }
    }
}

} // verus!
