use vstd::prelude::*;

use crate::stats::TransferStats;

verus! {

/// A non-negative quantity shown with two decimals: `whole` units and
/// `hundredths` hundredths of a unit.
#[derive(PartialEq, Eq, Structural, Clone, Copy, Debug)]
pub struct Hundredths {
    pub whole: u128,
    pub hundredths: u8,
}

impl Hundredths {
    /// The quantity counted in hundredths.
    pub open spec fn value(self) -> nat {
        (self.whole * 100 + self.hundredths) as nat
    }

    pub open spec fn well_formed(self) -> bool {
        self.hundredths < 100
    }

    /// Splits a count of hundredths into units and hundredths.
    pub fn from_hundredths(v: u128) -> (r: Hundredths)
        ensures
            r.well_formed(),
            r.value() == v,
            r.whole == v / 100,
            r.hundredths == v % 100,
    {
        Hundredths { whole: v / 100, hundredths: (v % 100) as u8 }
    }
}

/// Transfer speed in bytes per second, rounded down; zero while no time has
/// elapsed.
pub open spec fn speed_of(downloaded: nat, elapsed_millis: nat) -> nat {
    if elapsed_millis == 0 {
        0
    } else {
        downloaded * 1000 / elapsed_millis
    }
}

/// Share of the expected total that has arrived, in hundredths of a percent.
/// Up to the total it is rounded down, so it never reads complete early;
/// past the total it is rounded up, so every overshoot reads above one
/// hundred percent.
pub open spec fn percent_hundredths_of(downloaded: nat, total: nat) -> nat
    recommends
        total > 0,
{
    if downloaded > total && (downloaded * 10000) % total != 0 {
        downloaded * 10000 / total + 1
    } else {
        downloaded * 10000 / total
    }
}

/// Bytes per second after `elapsed_millis` milliseconds, zero when no time
/// has elapsed.
pub fn speed_bytes_per_sec(downloaded: u64, elapsed_millis: u64) -> (r: u128)
    ensures
        r == speed_of(downloaded as nat, elapsed_millis as nat),
        elapsed_millis == 0 ==> r == 0,
        r >= 0,
{
    if elapsed_millis == 0 {
        0
    } else {
        (downloaded as u128) * 1000 / (elapsed_millis as u128)
    }
}

/// Percent complete in hundredths of a percent; none when nothing is
/// expected. It exceeds one hundred percent exactly when more bytes arrived
/// than were declared, and is never clamped.
pub fn percent_complete(downloaded: u64, total: u64) -> (r: Option<u128>)
    ensures
        total == 0 ==> r is None,
        total > 0 ==> r == Some(percent_hundredths_of(downloaded as nat, total as nat) as u128),
        r matches Some(p) ==> (p > 10000 <==> downloaded > total),
{
    if total == 0 {
        None
    } else {
        let scaled = (downloaded as u128) * 10000;
        let q = scaled / (total as u128);
        let p = if downloaded > total && scaled % (total as u128) != 0 {
            q + 1
        } else {
            q
        };
        proof {
            let d = downloaded as int;
            let t = total as int;
            assert(d <= t ==> d * 10000 / t <= 10000) by (nonlinear_arith)
                requires
                    t > 0,
            ;
            assert(d > t ==> d * 10000 / t >= 10000) by (nonlinear_arith)
                requires
                    t > 0,
            ;
            assert(d > t && (d * 10000) % t == 0 ==> d * 10000 / t > 10000) by (nonlinear_arith)
                requires
                    t > 0,
            ;
        }
        Some(p)
    }
}

/// One tick's reading of the shared counters, ready to display.
#[derive(Clone, Copy, Debug)]
pub struct Report {
    /// Percent complete, when anything is expected.
    pub percent: Option<Hundredths>,
    /// Bytes per second.
    pub speed: u128,
    /// Megabytes (10^6 bytes) per second.
    pub speed_mb: Hundredths,
}

/// Reads the counters `elapsed_millis` milliseconds after the run started.
pub fn report(stats: &TransferStats, elapsed_millis: u64) -> (r: Report)
    ensures
        r.speed == speed_of(stats@.downloaded, elapsed_millis as nat),
        r.speed_mb.well_formed(),
        r.speed_mb.value() == r.speed / 10000,
        stats@.total == 0 ==> r.percent is None,
        stats@.total > 0 ==> (r.percent matches Some(p) && p.well_formed() && p.value()
            == percent_hundredths_of(stats@.downloaded, stats@.total)),
{
    let speed = speed_bytes_per_sec(stats.bytes_downloaded, elapsed_millis);
    let speed_mb = Hundredths::from_hundredths(speed / 10000);
    let percent = match percent_complete(stats.bytes_downloaded, stats.total_bytes) {
        Some(p) => Some(Hundredths::from_hundredths(p)),
        None => None,
    };
    Report { percent, speed, speed_mb }
}

} // verus!
