//! Per-subprocess resource summary reported after an MCP call.

use vstd::prelude::*;

verus! {

/// Peak memory, CPU time and wall-clock runtime of one subprocess.
#[derive(Debug, Clone, Copy, PartialEq, Eq)]
pub struct ResourceMetrics {
    /// Peak resident set size in kilobytes.
    pub peak_rss_kb: Option<u64>,
    /// User + system CPU time in milliseconds.
    pub cpu_time_ms: Option<u64>,
    /// Wall-clock runtime in milliseconds.
    pub runtime_ms: Option<u64>,
}

impl Default for ResourceMetrics {
    fn default() -> (r: Self)
        ensures
            r.peak_rss_kb is None,
            r.cpu_time_ms is None,
            r.runtime_ms is None,
    {
        ResourceMetrics { peak_rss_kb: None, cpu_time_ms: None, runtime_ms: None }
    }
}

impl ResourceMetrics {
    pub fn with_runtime(self, ms: u64) -> (r: Self)
        ensures
            r == (ResourceMetrics { runtime_ms: Some(ms), ..self }),
    {
        let mut s = self;
        s.runtime_ms = Some(ms);
        s
    }

    pub fn has_usage(&self) -> (r: bool)
        ensures
            r == (self.peak_rss_kb is Some || self.cpu_time_ms is Some),
    {
        self.peak_rss_kb.is_some() || self.cpu_time_ms.is_some()
    }
}

/// `ru_maxrss` is reported in kilobytes by the Linux kernel.
pub fn normalize_maxrss(raw: u64) -> (r: u64)
    ensures
        r == raw,
{
    raw
}

/// Milliseconds of a `timeval` whose fields are non-negative: seconds are
/// scaled with a saturating multiply, microseconds are divided down.
pub fn timeval_to_ms(sec: u64, usec: u64) -> (r: u64)
    requires
        (if sec * 1000 > u64::MAX { u64::MAX as int } else { sec * 1000 }) + usec / 1000
            <= u64::MAX,
    ensures
        r == (if sec * 1000 > u64::MAX { u64::MAX as int } else { sec * 1000 }) + usec / 1000,
{
    let scaled = if sec > u64::MAX / 1000 { u64::MAX } else { sec * 1000 };
    scaled + usec / 1000
}

/// What `wait4` reports becomes metrics: a failed wait gives no data, and a
/// zero counter is reported as absent.
pub fn metrics_from_wait(waited: i32, cpu_ms: u64, maxrss_raw: u64) -> (r: ResourceMetrics)
    ensures
        waited < 0 ==> r == (ResourceMetrics { peak_rss_kb: None, cpu_time_ms: None, runtime_ms: None }),
        waited >= 0 ==> r == (ResourceMetrics {
            peak_rss_kb: if maxrss_raw > 0 { Some(maxrss_raw) } else { None },
            cpu_time_ms: if cpu_ms > 0 { Some(cpu_ms) } else { None },
            runtime_ms: None,
        }),
{
    if waited < 0 {
        return ResourceMetrics::default();
    }
    let peak = normalize_maxrss(maxrss_raw);
    ResourceMetrics {
        peak_rss_kb: if peak > 0 { Some(peak) } else { None },
        cpu_time_ms: if cpu_ms > 0 { Some(cpu_ms) } else { None },
        runtime_ms: None,
    }
}

} // verus!
