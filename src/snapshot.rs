use vstd::prelude::*;

verus! {

/// The difference `l - r` of two byte counts, or zero where `r` exceeds `l`.
pub open spec fn saturating_diff(l: int, r: int) -> int {
    if l > r {
        l - r
    } else {
        0
    }
}

/// Subtracts `r` from `l`, stopping at zero: a free count above the total
/// (a platform anomaly) gives zero bytes used, never a wrapped value.
pub fn saturating_sub_bytes(l: u64, r: u64) -> (d: u64)
    ensures
        d == saturating_diff(l as int, r as int),
{
    if l > r {
        l - r
    } else {
        0
    }
}

/// What the host reports of memory or swap: total and free bytes.
#[derive(Clone, Copy, Debug, PartialEq, Eq, Structural)]
pub struct Reading {
    pub total: u64,
    pub free: u64,
}

/// Bytes in use out of a total, for memory or swap.
#[derive(Clone, Copy, Debug, PartialEq, Eq, Structural)]
pub struct Usage {
    pub used: u64,
    pub total: u64,
}

/// The usage that a reading stands for: `used = total - free`, saturating at zero.
pub open spec fn usage_of(reading: Reading) -> Usage {
    Usage {
        used: saturating_diff(reading.total as int, reading.free as int) as u64,
        total: reading.total,
    }
}

impl Usage {
    /// Never more bytes in use than there are in all.
    pub open spec fn wf(self) -> bool {
        self.used <= self.total
    }

    /// No bytes in use out of none.
    pub fn zero() -> (r: Usage)
        ensures
            r.used == 0,
            r.total == 0,
    {
        Usage { used: 0, total: 0 }
    }

    pub fn from_reading(reading: Reading) -> (r: Usage)
        ensures
            r == usage_of(reading),
            r.wf(),
    {
        Usage { used: saturating_sub_bytes(reading.total, reading.free), total: reading.total }
    }
}

/// The last-known resource usage of the host and the second it was captured.
///
/// `C` is the CPU load breakdown, which this library carries through unread.
#[derive(Clone, Copy, Debug, PartialEq)]
pub struct ResourceSnapshot<C> {
    pub cpu: C,
    pub memory: Usage,
    pub swap: Usage,
    /// Seconds since the epoch.
    pub last_updated: i64,
}

impl<C> ResourceSnapshot<C> {
    pub open spec fn wf(self) -> bool {
        self.memory.wf() && self.swap.wf()
    }
}

/// The snapshot held before any sampling: all zero, captured at second zero.
pub open spec fn initial_snapshot<C>(idle_cpu: C) -> ResourceSnapshot<C> {
    ResourceSnapshot {
        cpu: idle_cpu,
        memory: Usage { used: 0, total: 0 },
        swap: Usage { used: 0, total: 0 },
        last_updated: 0,
    }
}

/// One sampling pass: each of the three readings, or `None` where it failed.
#[derive(Clone, Copy, Debug, PartialEq)]
pub struct Sample<C> {
    pub memory: Option<Reading>,
    pub swap: Option<Reading>,
    pub cpu: Option<C>,
}

/// Which reading of a sampling pass failed.
#[derive(Clone, Copy, Debug, PartialEq, Eq, Structural)]
pub enum SampleError {
    MemoryUnavailable,
    SwapUnavailable,
    CpuUnavailable,
}

impl SampleError {
    pub open spec fn message_spec(self) -> Seq<char> {
        match self {
            SampleError::MemoryUnavailable => "failed to get memory usage"@,
            SampleError::SwapUnavailable => "failed to get swap usage"@,
            SampleError::CpuUnavailable => "failed to get cpu usage"@,
        }
    }

    /// The text reported to a client for this failure.
    pub fn message(&self) -> (r: &'static str)
        ensures
            r@ == self.message_spec(),
    {
        match self {
            SampleError::MemoryUnavailable => "failed to get memory usage",
            SampleError::SwapUnavailable => "failed to get swap usage",
            SampleError::CpuUnavailable => "failed to get cpu usage",
        }
    }
}

/// What a sampling pass at second `now` yields. The readings are judged in a
/// fixed order, memory, then swap, then CPU, and the first failure is the
/// error; where all three succeeded, the snapshot built from them.
pub open spec fn sample_outcome<C>(sample: Sample<C>, now: i64) -> Result<
    ResourceSnapshot<C>,
    SampleError,
> {
    match (sample.memory, sample.swap, sample.cpu) {
        (None, _, _) => Err(SampleError::MemoryUnavailable),
        (Some(_), None, _) => Err(SampleError::SwapUnavailable),
        (Some(_), Some(_), None) => Err(SampleError::CpuUnavailable),
        (Some(m), Some(s), Some(c)) => Ok(
            ResourceSnapshot { cpu: c, memory: usage_of(m), swap: usage_of(s), last_updated: now },
        ),
    }
}

/// Turns a sampling pass at second `now` into a snapshot, or names the first
/// reading that failed.
pub fn build_snapshot<C: Copy>(sample: &Sample<C>, now: i64) -> (r: Result<
    ResourceSnapshot<C>,
    SampleError,
>)
    ensures
        r == sample_outcome(*sample, now),
        r matches Ok(s) ==> s.wf(),
{
    let memory = match sample.memory {
        Some(m) => m,
        None => return Err(SampleError::MemoryUnavailable),
    };
    let swap = match sample.swap {
        Some(s) => s,
        None => return Err(SampleError::SwapUnavailable),
    };
    let cpu = match sample.cpu {
        Some(c) => c,
        None => return Err(SampleError::CpuUnavailable),
    };
    Ok(
        ResourceSnapshot {
            cpu,
            memory: Usage::from_reading(memory),
            swap: Usage::from_reading(swap),
            last_updated: now,
        },
    )
}

} // verus!
