use vstd::prelude::*;
use crate::text::{append_repeated, decimal, decimal_text, repeat_char};

verus! {

/// Width of the progress bar, in characters.
pub const BAR_LENGTH: usize = 40;

/// Least time between two progress updates, in milliseconds.
pub const PROGRESS_INTERVAL_MS: u64 = 4000;

pub open spec fn filled_of(progress: nat, total: nat) -> nat {
    progress * 40 / total
}

/// `[`, the filled part, the empty part, `] `, the percentage rounded down, `%`.
pub open spec fn progress_bar_text(progress: nat, total: nat) -> Seq<char> {
    "["@ + repeat_char('=', filled_of(progress, total)) + repeat_char(' ', (40 - filled_of(progress, total)) as nat)
        + "] "@ + decimal_text(progress * 100 / total) + "%"@
}

/// Renders a fixed-width bar for `progress` out of `total`.
pub fn create_progress_bar(progress: usize, total: usize) -> (r: String)
    requires
        total > 0,
        progress <= total,
        progress * 100 <= usize::MAX,
    ensures
        r@ == progress_bar_text(progress as nat, total as nat),
{
    proof {
        let p = progress as int;
        let t = total as int;
        assert(p * 40 <= t * 40) by (nonlinear_arith)
            requires p <= t;
        assert(p * 40 / t <= 40) by (nonlinear_arith)
            requires p * 40 <= t * 40, t > 0;
        reveal_strlit("=");
        reveal_strlit(" ");
    }
    let filled = (progress * BAR_LENGTH) / total;
    let empty = BAR_LENGTH - filled;
    let mut s = String::from_str("[");
    append_repeated(&mut s, "=", filled);
    append_repeated(&mut s, " ", empty);
    s.append("] ");
    let pct = decimal(((progress * 100) / total) as u64);
    s.append(pct.as_str());
    s.append("%");
    s
}

/// `Moving <current + 1>/<total>:` on one line and the bar on the next.
pub open spec fn progress_text(current: nat, total: nat) -> Seq<char> {
    "Moving "@ + decimal_text(current + 1) + "/"@ + decimal_text(total) + ":\n"@ + progress_bar_text(current, total)
}

/// The status line shown while message `current` of `total` is relocated.
pub fn progress_message(current: usize, total: usize) -> (r: String)
    requires
        current < total,
        total * 100 <= usize::MAX,
    ensures
        r@ == progress_text(current as nat, total as nat),
{
    let mut s = String::from_str("Moving ");
    let c = decimal((current + 1) as u64);
    s.append(c.as_str());
    s.append("/");
    let t = decimal(total as u64);
    s.append(t.as_str());
    s.append(":\n");
    let bar = create_progress_bar(current, total);
    s.append(bar.as_str());
    s
}

/// Whether a progress update is due at message `idx` of `total`: after the
/// interval has passed since the last one, and always on the last message.
pub fn progress_due(elapsed_ms: u64, idx: usize, total: usize) -> (r: bool)
    ensures
        r == (elapsed_ms >= PROGRESS_INTERVAL_MS || idx as int == total as int - 1),
{
    elapsed_ms >= PROGRESS_INTERVAL_MS || (total > 0 && idx == total - 1)
}

/// The opening status for a relocation of `count` messages, by size.
pub fn starting_message(count: usize) -> (r: &'static str)
    ensures
        count <= 10 ==> r@ == "starting up the car :red_car:"@,
        10 < count <= 20 ==> r@ == "starting up the truck :pickup_truck:"@,
        20 < count <= 30 ==> r@ == "starting up the truck :truck:"@,
        30 < count <= 40 ==> r@ == "starting up the lorry :articulated_lorry:"@,
        40 < count ==> r@ == "starting up the ship :ship: "@,
{
    if count <= 10 {
        "starting up the car :red_car:"
    } else if count <= 20 {
        "starting up the truck :pickup_truck:"
    } else if count <= 30 {
        "starting up the truck :truck:"
    } else if count <= 40 {
        "starting up the lorry :articulated_lorry:"
    } else {
        "starting up the ship :ship: "
    }
}

} // verus!
