use vstd::prelude::*;

verus! {

pub const NANOS_PER_SEC: u32 = 1_000_000_000;

pub const NANOS_PER_MILLI: u32 = 1_000_000;

/// Delays below this many milliseconds may starve the idle tasks of a
/// cooperative runtime; they are allowed, but flagged.
pub const SHORT_DELAY_MILLIS: u64 = 10;

/// The pause between two polls: whole seconds plus a sub-second part in
/// nanoseconds.
#[derive(Clone, Copy, Debug, PartialEq, Eq, Structural)]
pub struct MeasurementDelay {
    pub secs: u64,
    pub nanos: u32,
}

impl MeasurementDelay {
    /// The sub-second part is below one second.
    pub open spec fn wf(self) -> bool {
        self.nanos < NANOS_PER_SEC
    }

    /// The whole delay in nanoseconds.
    pub open spec fn total_nanos(self) -> nat {
        self.secs as nat * NANOS_PER_SEC as nat + self.nanos as nat
    }

    /// The whole delay in milliseconds, rounded down.
    pub open spec fn spec_millis(self) -> nat {
        self.secs as nat * 1000 + (self.nanos / NANOS_PER_MILLI) as nat
    }

    /// A delay of `secs` seconds and `nanos` nanoseconds, where `nanos` may
    /// exceed one second and is carried into the seconds. `None` when the
    /// seconds do not fit in a `u64`.
    pub fn new(secs: u64, nanos: u32) -> (r: Option<MeasurementDelay>)
        ensures
            r is Some <==> secs as nat + (nanos / NANOS_PER_SEC) as nat <= u64::MAX as nat,
            r matches Some(d) ==> d.wf() && d.total_nanos() == secs as nat * NANOS_PER_SEC as nat
                + nanos as nat,
    {
        let carry: u64 = (nanos / NANOS_PER_SEC) as u64;
        match secs.checked_add(carry) {
            Some(s) => Some(MeasurementDelay { secs: s, nanos: nanos % NANOS_PER_SEC }),
            None => None,
        }
    }

    /// A delay of a whole number of milliseconds.
    pub fn from_millis(millis: u64) -> (r: MeasurementDelay)
        ensures
            r.wf(),
            r.spec_millis() == millis as nat,
            r.total_nanos() == millis as nat * NANOS_PER_MILLI as nat,
    {
        let secs: u64 = millis / 1000;
        let rest: u32 = (millis % 1000) as u32;
        MeasurementDelay { secs, nanos: rest * NANOS_PER_MILLI }
    }

    /// The delay in whole milliseconds, rounded down.
    pub fn as_millis(&self) -> (r: u128)
        ensures
            r as nat == self.spec_millis(),
    {
        self.secs as u128 * 1000 + (self.nanos / NANOS_PER_MILLI) as u128
    }

    /// The delay in whole milliseconds as a `u32`, for timers that count in
    /// that type; a longer delay gives `u32::MAX`.
    pub fn sleep_millis(&self) -> (r: u32)
        ensures
            self.spec_millis() <= u32::MAX as nat ==> r as nat == self.spec_millis(),
            self.spec_millis() > u32::MAX as nat ==> r == u32::MAX,
    {
        let ms = self.as_millis();
        if ms > u32::MAX as u128 {
            u32::MAX
        } else {
            ms as u32
        }
    }

    /// Below the threshold under which a delay is flagged.
    pub open spec fn is_short_spec(self) -> bool {
        self.spec_millis() < SHORT_DELAY_MILLIS as nat
    }

    /// Whether the delay is short enough to deserve a warning.
    pub fn is_short(&self) -> (r: bool)
        ensures
            r == self.is_short_spec(),
    {
        self.as_millis() < SHORT_DELAY_MILLIS as u128
    }
}

} // verus!
