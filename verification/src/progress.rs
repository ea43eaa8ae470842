//! Progress notifications: what the engine tells an observer while it works,
//! and when a download is worth a new notification.

use vstd::prelude::*;
use vstd::string::StringExecFns;

verus! {

/// How far the work is, between nothing and all of it.
#[derive(Clone, Copy, Debug, PartialEq, Eq, Structural)]
pub enum Percentage {
    /// A whole number of percent.
    Fixed(u8),
    /// `received` of `total` bytes.
    Ratio { received: u64, total: u64 },
}

impl Percentage {
    /// Whether this percentage lies between 0 and 100.
    pub open spec fn in_range(self) -> bool {
        match self {
            Percentage::Fixed(p) => p <= 100,
            Percentage::Ratio { received, total } => received <= total && total > 0,
        }
    }

    /// This percentage in hundredths of a percent, rounded down.
    pub open spec fn hundredths(self) -> int {
        match self {
            Percentage::Fixed(p) => p * 100,
            Percentage::Ratio { received, total } => if total == 0 {
                0
            } else {
                received * 10000 / (total as int)
            },
        }
    }
}

/// A notification for the observer. It is handed out and forgotten: no answer
/// to it changes what the engine does.
#[derive(Debug)]
pub struct DownloadProgress {
    pub tool: String,
    pub percentage: Percentage,
    pub status: String,
}

/// A notification as a value of the model.
pub ghost struct Progress {
    pub tool: Seq<char>,
    pub percentage: Percentage,
    pub status: Seq<char>,
}

impl View for DownloadProgress {
    type V = Progress;

    open spec fn view(&self) -> Progress {
        Progress { tool: self.tool@, percentage: self.percentage, status: self.status@ }
    }
}

/// The sum of `received` and `len`, held at the largest number a counter takes.
pub open spec fn counted(received: u64, len: nat) -> u64 {
    if received + len > u64::MAX {
        u64::MAX
    } else {
        (received + len) as u64
    }
}

/// Whether a download of `total` bytes that has `received` bytes, and stood
/// at `last` when it was last reported, is worth a new notification: it has
/// advanced by at least one percent of the total, or it is complete. A
/// download of unknown size (`total` 0) is never reported.
pub open spec fn worth_reporting(total: u64, last: u64, received: u64) -> bool {
    total > 0 && last <= received && ((received - last) * 100 >= total || received >= total)
}

/// The percentage of a download of `total` bytes that has `received` bytes.
pub open spec fn download_percentage(total: u64, received: u64) -> Percentage {
    Percentage::Ratio {
        received: if received <= total {
            received
        } else {
            total
        },
        total,
    }
}

/// The notification of a download under way.
pub open spec fn downloading(tool: Seq<char>, total: u64, received: u64) -> Progress {
    Progress {
        tool,
        percentage: download_percentage(total, received),
        status: "Downloading..."@,
    }
}

/// Adds `len` to `received`, holding the counter at its largest number.
pub fn count(received: u64, len: usize) -> (sum: u64)
    ensures
        sum == counted(received, len as nat),
{
    let room: u64 = u64::MAX - received;
    if len as u64 > room {
        u64::MAX
    } else {
        received + len as u64
    }
}

/// Whether a download is worth a new notification.
pub fn is_worth_reporting(total: u64, last: u64, received: u64) -> (r: bool)
    ensures
        r == worth_reporting(total, last, received),
{
    if total == 0 || last > received {
        false
    } else if received >= total {
        true
    } else {
        let step: u64 = received - last;
        // received < total, so neither product leaves the counter's range
        // once the step is known to be below the hundredth of its largest
        // number; a larger step is at least a percent of any total.
        if step > u64::MAX / 100 {
            assert(step * 100 >= total) by (nonlinear_arith)
                requires
                    step > u64::MAX / 100,
                    total <= u64::MAX,
            ;
            true
        } else {
            assert(step * 100 <= u64::MAX) by (nonlinear_arith)
                requires
                    step <= u64::MAX / 100,
            ;
            step * 100 >= total
        }
    }
}

/// The notification of a download of `total` bytes that has `received` bytes.
pub fn downloading_event(tool: &str, total: u64, received: u64) -> (event: DownloadProgress)
    requires
        total > 0,
    ensures
        event@ == downloading(tool@, total, received),
        event@.percentage.in_range(),
{
    let shown: u64 = if received <= total {
        received
    } else {
        total
    };
    DownloadProgress {
        tool: String::from_str(tool),
        percentage: Percentage::Ratio { received: shown, total },
        status: String::from_str("Downloading..."),
    }
}

/// A notification at a whole number of percent; a number above 100 is taken
/// as 100.
pub fn emit_progress(tool: &str, percent: u8, status: &str) -> (event: DownloadProgress)
    ensures
        event@ == (Progress {
            tool: tool@,
            percentage: Percentage::Fixed(
                if percent <= 100 {
                    percent
                } else {
                    100
                },
            ),
            status: status@,
        }),
        event@.percentage.in_range(),
{
    let shown: u8 = if percent <= 100 {
        percent
    } else {
        100
    };
    DownloadProgress {
        tool: String::from_str(tool),
        percentage: Percentage::Fixed(shown),
        status: String::from_str(status),
    }
}

/// A download is reported at the latest when it is complete.
pub proof fn law_complete_download_is_reported(total: u64, last: u64, received: u64)
    requires
        total > 0,
        last <= received,
        received >= total,
    ensures
        worth_reporting(total, last, received),
{
}

/// Between two notifications a download advances by at least one percent of
/// its size, unless the second reports that it is complete.
pub proof fn law_reports_are_a_percent_apart(total: u64, last: u64, received: u64)
    requires
        worth_reporting(total, last, received),
        received < total,
    ensures
        download_percentage(total, received).hundredths() - download_percentage(
            total,
            last,
        ).hundredths() >= 99,
{
    let a = received as int;
    let b = last as int;
    let t = total as int;
    assert((a - b) * 100 >= t);
    assert(a * 10000 - b * 10000 >= 100 * t) by (nonlinear_arith)
        requires
            (a - b) * 100 >= t,
    ;
    let qa = a * 10000 / t;
    let qb = b * 10000 / t;
    assert(qa * t > a * 10000 - t && qb * t <= b * 10000) by (nonlinear_arith)
        requires
            t > 0,
            qa == a * 10000 / t,
            qb == b * 10000 / t,
            a >= 0,
            b >= 0,
    ;
    assert(qa - qb >= 99) by (nonlinear_arith)
        requires
            qa * t > a * 10000 - t,
            qb * t <= b * 10000,
            a * 10000 - b * 10000 >= 100 * t,
            t > 0,
    ;
}

} // verus!
