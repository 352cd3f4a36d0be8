//! Benchmark records that hold no measured quantity.
use vstd::prelude::*;

verus! {

/// One execution surface that the runtime has been brought up on.
#[derive(Clone, Debug)]
pub struct CrossSurfaceMetric {
    pub surface: String,
    pub processor: String,
    pub execution_pipeline: String,
    pub status: String,
}

/// The record of one surface, as text.
pub open spec fn surface_view(m: CrossSurfaceMetric) -> (Seq<char>, Seq<char>, Seq<char>, Seq<char>) {
    (m.surface@, m.processor@, m.execution_pipeline@, m.status@)
}

fn surface_record(surface: &str, processor: &str, pipeline: &str, status: &str) -> (m: CrossSurfaceMetric)
    ensures
        surface_view(m) == (surface@, processor@, pipeline@, status@),
{
    CrossSurfaceMetric {
        surface: String::from_str(surface),
        processor: String::from_str(processor),
        execution_pipeline: String::from_str(pipeline),
        status: String::from_str(status),
    }
}

/// The surfaces recorded by default: the DGX Spark in production, then Apple Silicon and a
/// generic Linux CPU, both verified cross-platform.
pub fn generate_default_cross_surface() -> (v: Vec<CrossSurfaceMetric>)
    ensures
        v@.len() == 3,
        surface_view(v@[0]) == (
            "NVIDIA DGX Spark (GB10)"@,
            "Grace Blackwell (GB10, aarch64, 121 GB)"@,
            "Hardware NVFP4 Tensor Cores + Unified Memory"@,
            "ACTIVE_PRODUCTION"@,
        ),
        surface_view(v@[1]) == (
            "Apple Silicon (macOS)"@,
            "Apple M-Series (aarch64, Unified Memory)"@,
            "Paged POSIX mmap KV Pools + SIMD CPU Kernels"@,
            "VERIFIED_CROSS_PLATFORM"@,
        ),
        surface_view(v@[2]) == (
            "Generic Linux CPU"@,
            "POSIX Linux x86_64 / aarch64"@,
            "POSIX CoW Virtual Tables + Tokio Async Serving"@,
            "VERIFIED_CROSS_PLATFORM"@,
        ),
{
    let mut v = Vec::new();
    v.push(
        surface_record(
            "NVIDIA DGX Spark (GB10)",
            "Grace Blackwell (GB10, aarch64, 121 GB)",
            "Hardware NVFP4 Tensor Cores + Unified Memory",
            "ACTIVE_PRODUCTION",
        ),
    );
    v.push(
        surface_record(
            "Apple Silicon (macOS)",
            "Apple M-Series (aarch64, Unified Memory)",
            "Paged POSIX mmap KV Pools + SIMD CPU Kernels",
            "VERIFIED_CROSS_PLATFORM",
        ),
    );
    v.push(
        surface_record(
            "Generic Linux CPU",
            "POSIX Linux x86_64 / aarch64",
            "POSIX CoW Virtual Tables + Tokio Async Serving",
            "VERIFIED_CROSS_PLATFORM",
        ),
    );
    v
}

} // verus!
