//! Decimal rendering of ids and the human-readable status messages built from it.

use vstd::prelude::*;

verus! {

/// The character that displays a single decimal digit.
pub open spec fn digit_char(d: nat) -> char {
    if d == 0 {
        '0'
    } else if d == 1 {
        '1'
    } else if d == 2 {
        '2'
    } else if d == 3 {
        '3'
    } else if d == 4 {
        '4'
    } else if d == 5 {
        '5'
    } else if d == 6 {
        '6'
    } else if d == 7 {
        '7'
    } else if d == 8 {
        '8'
    } else {
        '9'
    }
}

/// The decimal notation of `n`: most significant digit first, no leading zeros,
/// and the single digit `0` for zero.
pub open spec fn decimal(n: nat) -> Seq<char>
    decreases n,
{
    if n < 10 {
        seq![digit_char(n)]
    } else {
        decimal(n / 10).push(digit_char(n % 10))
    }
}

/// The status message stored in a record at creation.
pub open spec fn created_message(id: nat) -> Seq<char> {
    "User "@ + decimal(id) + " created successfully!"@
}

/// The reply to a delete request that removed a record.
pub open spec fn deleted_message(id: nat) -> Seq<char> {
    "User "@ + decimal(id) + " deleted."@
}

/// The reply to a delete request that matched no record.
pub open spec fn not_found_message(id: nat) -> Seq<char> {
    "User "@ + decimal(id) + " not found."@
}

fn digit_str(d: u64) -> (s: &'static str)
    requires
        d < 10,
    ensures
        s@ == seq![digit_char(d as nat)],
{
    proof {
        reveal_strlit("0");
        reveal_strlit("1");
        reveal_strlit("2");
        reveal_strlit("3");
        reveal_strlit("4");
        reveal_strlit("5");
        reveal_strlit("6");
        reveal_strlit("7");
        reveal_strlit("8");
        reveal_strlit("9");
    }
    let s = if d == 0 {
        "0"
    } else if d == 1 {
        "1"
    } else if d == 2 {
        "2"
    } else if d == 3 {
        "3"
    } else if d == 4 {
        "4"
    } else if d == 5 {
        "5"
    } else if d == 6 {
        "6"
    } else if d == 7 {
        "7"
    } else if d == 8 {
        "8"
    } else {
        "9"
    };
    assert(s@ =~= seq![digit_char(d as nat)]);
    s
}

/// Appends the decimal notation of `n` to `out`.
pub fn push_decimal(out: &mut String, n: u64)
    ensures
        final(out)@ == old(out)@ + decimal(n as nat),
    decreases n,
{
    if n >= 10 {
        push_decimal(out, n / 10);
    }
    out.append(digit_str(n % 10));
    assert(out@ =~= old(out)@ + decimal(n as nat));
}

/// The decimal notation of `n` as an owned string.
pub fn render_decimal(n: u64) -> (s: String)
    ensures
        s@ == decimal(n as nat),
{
    let mut s = String::new();
    push_decimal(&mut s, n);
    assert(s@ =~= decimal(n as nat));
    s
}

/// Builds the status message stored in the record created under `id`.
pub fn created_text(id: u64) -> (s: String)
    ensures
        s@ == created_message(id as nat),
{
    let mut s = String::from_str("User ");
    push_decimal(&mut s, id);
    s.append(" created successfully!");
    s
}

/// Builds the reply to a delete request that removed the record `id`.
pub fn deleted_text(id: u64) -> (s: String)
    ensures
        s@ == deleted_message(id as nat),
{
    let mut s = String::from_str("User ");
    push_decimal(&mut s, id);
    s.append(" deleted.");
    s
}

/// Builds the reply to a delete request for an `id` that no record has.
pub fn not_found_text(id: u64) -> (s: String)
    ensures
        s@ == not_found_message(id as nat),
{
    let mut s = String::from_str("User ");
    push_decimal(&mut s, id);
    s.append(" not found.");
    s
}

} // verus!
