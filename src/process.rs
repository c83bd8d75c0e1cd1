//! The conversions around process calls: resource limits, where
//! `RLIM_INFINITY` stands for "no limit", and the result of `waitpid`.
use vstd::prelude::*;

verus! {

/// `RLIM_INFINITY`: the raw value of "no limit".
pub const RLIM_INFINITY: u64 = 0xffff_ffff_ffff_ffff;

/// A resource limit: the current (soft) and the maximum (hard) limit, each
/// `None` where there is no limit.
#[derive(Clone, Copy, Debug, PartialEq, Eq, Structural)]
pub struct Rlimit {
    /// The soft limit.
    pub current: Option<u64>,
    /// The hard limit.
    pub maximum: Option<u64>,
}

/// The limit that a raw value stands for.
pub open spec fn limit_of(raw: u64) -> Option<u64> {
    if raw == RLIM_INFINITY {
        None
    } else {
        Some(raw)
    }
}

/// The raw value that a limit is written with.
pub open spec fn raw_of(limit: Option<u64>) -> u64 {
    match limit {
        Some(v) => v,
        None => RLIM_INFINITY,
    }
}

/// Reads a raw `struct rlimit`.
pub fn rlimit_from_raw(rlim_cur: u64, rlim_max: u64) -> (r: Rlimit)
    ensures
        r.current == limit_of(rlim_cur),
        r.maximum == limit_of(rlim_max),
{
    let current = if rlim_cur == RLIM_INFINITY {
        None
    } else {
        Some(rlim_cur)
    };
    let maximum = if rlim_max == RLIM_INFINITY {
        None
    } else {
        Some(rlim_max)
    };
    Rlimit { current, maximum }
}

/// Writes a limit as a raw `struct rlimit`, soft limit first. A limit equal
/// to `RLIM_INFINITY` is the same as no limit.
pub fn rlimit_to_raw(limit: Rlimit) -> (r: (u64, u64))
    ensures
        r == (raw_of(limit.current), raw_of(limit.maximum)),
        limit.current != Some(RLIM_INFINITY) && limit.maximum != Some(RLIM_INFINITY) ==> (
        rlimit_view(r.0, r.1) == limit),
{
    let cur = match limit.current {
        Some(v) => v,
        None => RLIM_INFINITY,
    };
    let max = match limit.maximum {
        Some(v) => v,
        None => RLIM_INFINITY,
    };
    (cur, max)
}

/// The limit that a raw `struct rlimit` stands for.
pub open spec fn rlimit_view(rlim_cur: u64, rlim_max: u64) -> Rlimit {
    Rlimit { current: limit_of(rlim_cur), maximum: limit_of(rlim_max) }
}

/// The result of `waitpid` that returned `pid` and wrote `status`: no child
/// where the process id is zero (nothing changed state under `WNOHANG`),
/// else the child and its raw status.
pub fn wait_result(pid: i32, status: i32) -> (r: Option<(i32, i32)>)
    ensures
        r == if pid == 0 {
            None::<(i32, i32)>
        } else {
            Some((pid, status))
        },
{
    if pid == 0 {
        None
    } else {
        Some((pid, status))
    }
}

} // verus!
