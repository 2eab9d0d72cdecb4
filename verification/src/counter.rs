//! The process-wide visit counter and the text of its reply.  The
//! caller guards the counter with a lock; each call below is one
//! read-modify-write step, so serialized calls observe strictly
//! increasing, pairwise distinct counts.

use vstd::prelude::*;
use vstd::string::StringExecFns;

verus! {

/// The decimal digit character for one digit value.
pub open spec fn digit_char(d: int) -> char
    recommends
        0 <= d <= 9,
{
    ((48 + d) as u8) as char
}

/// The decimal rendering of a number, most significant digit first,
/// with no sign and no leading zero (`0` renders as "0").
pub open spec fn decimal(n: nat) -> Seq<char>
    decreases n,
{
    if n < 10 {
        seq![digit_char(n as int)]
    } else {
        decimal(n / 10).push(digit_char((n % 10) as int))
    }
}

/// The one-character text of a decimal digit.
fn digit_str(d: u128) -> (s: &'static str)
    requires
        d <= 9,
    ensures
        s@ == seq![digit_char(d as int)],
{
    proof {
        reveal_strlit("0");
        reveal_strlit("1");
        reveal_strlit("2");
        reveal_strlit("3");
        reveal_strlit("4");
        reveal_strlit("5");
        reveal_strlit("6");
        reveal_strlit("7");
        reveal_strlit("8");
        reveal_strlit("9");
    }
    match d {
        0 => "0",
        1 => "1",
        2 => "2",
        3 => "3",
        4 => "4",
        5 => "5",
        6 => "6",
        7 => "7",
        8 => "8",
        _ => "9",
    }
}

/// Renders a number in decimal: the executable counterpart of `decimal`.
pub fn u128_to_decimal(n: u128) -> (s: String)
    ensures
        s@ == decimal(n as nat),
    decreases n,
{
    if n < 10 {
        String::from_str(digit_str(n))
    } else {
        let mut s = u128_to_decimal(n / 10);
        s.append(digit_str(n % 10));
        proof {
            assert(s@ =~= decimal(n as nat));
        }
        s
    }
}

/// The in-memory visit counter: process lifetime only, starting at zero.
pub struct VisitCounter {
    pub count: u128,
}

impl VisitCounter {
    /// A fresh counter, as the process starts with.
    pub fn new() -> (c: VisitCounter)
        ensures
            c.count == 0,
    {
        VisitCounter { count: 0 }
    }

    /// One visit: the counter rises by exactly one and the reply text
    /// reports the new value.
    pub fn increment_count(&mut self) -> (msg: String)
        requires
            old(self).count < u128::MAX,
        ensures
            final(self).count == old(self).count + 1,
            msg@ == "Visit count: "@ + decimal(final(self).count as nat),
    {
        self.count = self.count + 1;
        let mut msg = String::from_str("Visit count: ");
        let num = u128_to_decimal(self.count);
        msg.append(num.as_str());
        msg
    }
}

/// The count observed by the k-th serialized call (1-based) when the
/// counter started at `start`.
pub open spec fn count_after(start: int, k: nat) -> int
    decreases k,
{
    if k == 0 {
        start
    } else {
        count_after(start, (k - 1) as nat) + 1
    }
}

/// After k increments the counter holds exactly `start + k`.
pub proof fn lemma_count_after(start: int, k: nat)
    ensures
        count_after(start, k) == start + k,
    decreases k,
{
    if k > 0 {
        lemma_count_after(start, (k - 1) as nat);
    }
}

/// Of N calls serialized by the counter's lock, no two observe the same
/// value: the observations rise strictly with the call's position.
pub proof fn lemma_counter_observations_distinct(start: int, k1: nat, k2: nat)
    requires
        k1 < k2,
    ensures
        count_after(start, k1) < count_after(start, k2),
{
    lemma_count_after(start, k1);
    lemma_count_after(start, k2);
}

} // verus!
