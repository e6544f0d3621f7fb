use vstd::prelude::*;

verus! {

/// Progress is counted in parts of `PROGRESS_ONE`: `0` is empty,
/// `PROGRESS_ONE` is complete.
pub const PROGRESS_ONE: u64 = 1_000_000_000;

/// The integer scale of the Windows taskbar value (`0..=TASKBAR_MAX`).
pub const TASKBAR_MAX: u64 = 100_000;

/// Parts of `PROGRESS_ONE` in one taskbar quantum.
pub const PARTS_PER_QUANTUM: u64 = 10_000;

/// `raw` clamped to `[0, PROGRESS_ONE]`.
pub open spec fn clamp_spec(raw: int) -> int {
    if raw < 0 {
        0
    } else if raw > PROGRESS_ONE {
        PROGRESS_ONE as int
    } else {
        raw
    }
}

/// The taskbar quantum of a stored progress value, rounded to the nearest
/// (halves round up).
pub open spec fn quantum_spec(parts: int) -> int {
    (parts + (PARTS_PER_QUANTUM as int) / 2) / (PARTS_PER_QUANTUM as int)
}

/// Clamps a requested progress (in parts of `PROGRESS_ONE`) into range.
pub fn clamp_progress(raw: i64) -> (r: u64)
    ensures
        r as int == clamp_spec(raw as int),
        r <= PROGRESS_ONE,
{
    if raw < 0 {
        0
    } else if raw as u64 > PROGRESS_ONE {
        PROGRESS_ONE
    } else {
        raw as u64
    }
}

/// The value on the taskbar's `0..=TASKBAR_MAX` scale for a stored progress,
/// rounded to the nearest quantum.
pub fn quantize(parts: u64) -> (r: u64)
    requires
        parts <= PROGRESS_ONE,
    ensures
        r as int == quantum_spec(parts as int),
        r <= TASKBAR_MAX,
{
    (parts + PARTS_PER_QUANTUM / 2) / PARTS_PER_QUANTUM
}

} // verus!
