//! Verified string helpers: equality of string slices, decimal rendering of
//! counters, and composition of the alert text.

use vstd::prelude::*;

verus! {

/// Whether two string slices hold the same characters.
pub fn str_eq(a: &str, b: &str) -> (r: bool)
    ensures
        r == (a@ == b@),
{
    let a_len = a.unicode_len();
    let b_len = b.unicode_len();
    if a_len != b_len {
        return false;
    }
    let mut i: usize = 0;
    while i < a_len
        invariant
            i <= a_len,
            a_len == a@.len(),
            a_len == b@.len(),
            forall|j: int| 0 <= j < i ==> a@[j] == b@[j],
        decreases a_len - i,
    {
        if a.get_char(i) != b.get_char(i) {
            return false;
        }
        i = i + 1;
    }
    proof {
        assert(a@ =~= b@);
    }
    true
}

/// The character for one decimal digit.
pub open spec fn dec_digit(d: int) -> char
    recommends
        0 <= d < 10,
{
    if d == 0 {
        '0'
    } else if d == 1 {
        '1'
    } else if d == 2 {
        '2'
    } else if d == 3 {
        '3'
    } else if d == 4 {
        '4'
    } else if d == 5 {
        '5'
    } else if d == 6 {
        '6'
    } else if d == 7 {
        '7'
    } else if d == 8 {
        '8'
    } else {
        '9'
    }
}

/// The decimal representation of a non-negative integer, most significant
/// digit first, with no leading zero except for zero itself.
pub open spec fn dec_rep(n: int) -> Seq<char>
    recommends
        n >= 0,
    decreases n,
{
    if n < 10 {
        seq![dec_digit(n)]
    } else {
        dec_rep(n / 10).push(dec_digit(n % 10))
    }
}

/// The one-character string for one decimal digit.
fn digit_str(d: u64) -> (r: &'static str)
    requires
        d < 10,
    ensures
        r@ == seq![dec_digit(d as int)],
{
    if d == 0 {
        proof { reveal_strlit("0"); assert("0"@ =~= seq![dec_digit(0)]); }
        "0"
    } else if d == 1 {
        proof { reveal_strlit("1"); assert("1"@ =~= seq![dec_digit(1)]); }
        "1"
    } else if d == 2 {
        proof { reveal_strlit("2"); assert("2"@ =~= seq![dec_digit(2)]); }
        "2"
    } else if d == 3 {
        proof { reveal_strlit("3"); assert("3"@ =~= seq![dec_digit(3)]); }
        "3"
    } else if d == 4 {
        proof { reveal_strlit("4"); assert("4"@ =~= seq![dec_digit(4)]); }
        "4"
    } else if d == 5 {
        proof { reveal_strlit("5"); assert("5"@ =~= seq![dec_digit(5)]); }
        "5"
    } else if d == 6 {
        proof { reveal_strlit("6"); assert("6"@ =~= seq![dec_digit(6)]); }
        "6"
    } else if d == 7 {
        proof { reveal_strlit("7"); assert("7"@ =~= seq![dec_digit(7)]); }
        "7"
    } else if d == 8 {
        proof { reveal_strlit("8"); assert("8"@ =~= seq![dec_digit(8)]); }
        "8"
    } else {
        proof { reveal_strlit("9"); assert("9"@ =~= seq![dec_digit(9)]); }
        "9"
    }
}

/// Renders a counter in decimal, exactly as the alert text needs it.
pub fn u64_to_dec(n: u64) -> (s: String)
    ensures
        s@ == dec_rep(n as int),
    decreases n,
{
    if n < 10 {
        String::from_str(digit_str(n))
    } else {
        let mut s = u64_to_dec(n / 10);
        s.append(digit_str(n % 10));
        proof {
            assert(s@ =~= dec_rep(n as int));
        }
        s
    }
}

/// The alert text for one firing trigger, exactly as delivered: queue name,
/// threshold, display name and observed value in a fixed sentence.
pub open spec fn spec_alert_text(
    queue_name: Seq<char>,
    threshold: u64,
    display_name: Seq<char>,
    value: u64,
) -> Seq<char> {
    "Queue "@ + queue_name + " has passed a threshold of "@ + dec_rep(threshold as int) + " "@
        + display_name + ". Currently at "@ + dec_rep(value as int) + "."@
}

/// Builds the alert text for one firing trigger.
pub fn build_alert_text(queue_name: &str, threshold: u64, display_name: &str, value: u64) -> (s:
    String)
    ensures
        s@ == spec_alert_text(queue_name@, threshold, display_name@, value),
{
    let mut s = String::from_str("Queue ");
    s.append(queue_name);
    s.append(" has passed a threshold of ");
    let threshold_dec = u64_to_dec(threshold);
    s.append(threshold_dec.as_str());
    s.append(" ");
    s.append(display_name);
    s.append(". Currently at ");
    let value_dec = u64_to_dec(value);
    s.append(value_dec.as_str());
    s.append(".");
    proof {
        assert(s@ =~= spec_alert_text(queue_name@, threshold, display_name@, value));
    }
    s
}

} // verus!
