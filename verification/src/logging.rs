//! The log: how its lines look, how many may wait, and when its file is put aside.
use crate::text::{dec, decimal, pad_left, pad_right, padded_left, padded_right};
use vstd::prelude::*;
use vstd::string::*;

verus! {

/// How many lines may wait to be written.
pub const QUEUE_CAP: u64 = 4096;

/// The size in bytes above which a log file is put aside.
pub const ROTATE_ABOVE: u64 = 5_000_000;

/// A number with leading zeros, of at least `width` digits.
pub open spec fn zeroed(n: nat, width: nat) -> Seq<char> {
    padded_left(dec(n), '0', width)
}

/// A time in milliseconds as minutes, seconds and milliseconds.
pub open spec fn stamped(ms: nat) -> Seq<char> {
    zeroed(ms / 60_000, 2) + ":"@ + zeroed((ms / 1000) % 60, 2) + "."@ + zeroed(ms % 1000, 3)
}

fn zero_padded(n: u128, width: usize) -> (r: String)
    ensures
        r@ == zeroed(n as nat, width as nat),
{
    proof {
        reveal_strlit("0");
    }
    pad_left(decimal(n).as_str(), "0", width)
}

/// A time in milliseconds as minutes, seconds and milliseconds.
pub fn stamp(ms: u128) -> (r: String)
    ensures
        r@ == stamped(ms as nat),
{
    let mut r = zero_padded(ms / 60_000, 2);
    r.append(":");
    r.append(zero_padded((ms / 1000) % 60, 2).as_str());
    r.append(".");
    r.append(zero_padded(ms % 1000, 3).as_str());
    r
}

/// A line of the log.
pub open spec fn logged(ms: nat, level: Seq<char>, message: Seq<char>) -> Seq<char> {
    "["@ + stamped(ms) + "] ["@ + padded_right(level, ' ', 5) + "] "@ + message + "\n"@
}

/// A line of the log: when, how grave and what.
pub fn log_line(ms: u128, level: &str, message: &str) -> (r: String)
    ensures
        r@ == logged(ms as nat, level@, message@),
{
    proof {
        reveal_strlit(" ");
    }
    let mut r = "[".to_owned();
    r.append(stamp(ms).as_str());
    r.append("] [");
    r.append(pad_right(level, " ", 5).as_str());
    r.append("] ");
    r.append(message);
    r.append("\n");
    r
}

/// Whether there is room for one more line behind so many.
pub open spec fn room_behind(queued: u64) -> bool {
    queued < QUEUE_CAP
}

/// Whether one more line may wait behind so many.
pub fn accepts(queued: u64) -> (r: bool)
    ensures
        r == room_behind(queued),
{
    queued < QUEUE_CAP
}

/// Whether a log file has grown too large.
pub open spec fn outgrown(len: u64) -> bool {
    len > ROTATE_ABOVE
}

/// Whether a log file of this size is put aside before more is written.
pub fn rotates(len: u64) -> (r: bool)
    ensures
        r == outgrown(len),
{
    len > ROTATE_ABOVE
}

} // verus!
