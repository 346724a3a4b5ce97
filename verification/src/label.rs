//! The labels from which the adapter derives its identifiers.
//!
//! A controller is labelled by its home id, a value by its packed id and
//! the name the device gives it; both numbers are written in decimal.

use vstd::prelude::*;

verus! {

/// The character that stands for the digit `d`, for `d` below ten.
pub open spec fn digit_char(d: nat) -> char {
    if d == 0 {
        '0'
    } else if d == 1 {
        '1'
    } else if d == 2 {
        '2'
    } else if d == 3 {
        '3'
    } else if d == 4 {
        '4'
    } else if d == 5 {
        '5'
    } else if d == 6 {
        '6'
    } else if d == 7 {
        '7'
    } else if d == 8 {
        '8'
    } else {
        '9'
    }
}

/// The decimal notation of `n`, most significant digit first, without
/// leading zeros.
pub open spec fn decimal(n: nat) -> Seq<char>
    decreases n,
{
    if n < 10 {
        seq![digit_char(n)]
    } else {
        decimal(n / 10).push(digit_char(n % 10))
    }
}

/// What every label of this adapter starts with.
pub open spec fn label_prefix() -> Seq<char> {
    "OpenZWave/"@
}

/// The label of the controller of the network `home_id`.
pub open spec fn service_label_of(home_id: u32) -> Seq<char> {
    label_prefix() + decimal(home_id as nat)
}

/// The label of the value with the packed id `id` that the device names
/// `name`.
pub open spec fn value_label_of(id: u64, name: Seq<char>) -> Seq<char> {
    label_prefix() + decimal(id as nat) + " ("@ + name + ")"@
}

/// The decimal notation of a number ends in its last digit, and what
/// stands before is the notation of the tenth of the number.
proof fn lemma_decimal_unfolds(n: nat)
    ensures
        decimal(n).len() >= 1,
        decimal(n).last() == digit_char(n % 10),
        n < 10 <==> decimal(n).len() == 1,
        n >= 10 ==> decimal(n).drop_last() == decimal(n / 10),
    decreases n,
{
    if n >= 10 {
        lemma_decimal_unfolds(n / 10);
        assert(decimal(n).drop_last() =~= decimal(n / 10));
    }
}

/// Two numbers that are written alike in decimal are one number.
pub proof fn decimal_is_one_to_one(a: nat, b: nat)
    requires
        decimal(a) == decimal(b),
    ensures
        a == b,
    decreases a,
{
    lemma_decimal_unfolds(a);
    lemma_decimal_unfolds(b);
    if a >= 10 {
        decimal_is_one_to_one(a / 10, b / 10);
    }
}

/// Two networks whose controllers have one label are one network.
pub proof fn service_label_is_one_to_one(a: u32, b: u32)
    requires
        service_label_of(a) == service_label_of(b),
    ensures
        a == b,
{
    let prefix = label_prefix();
    let left = decimal(a as nat);
    let right = decimal(b as nat);
    assert(left =~= (prefix + left).subrange(prefix.len() as int, (prefix + left).len() as int));
    assert(right =~= (prefix + right).subrange(
        prefix.len() as int,
        (prefix + right).len() as int,
    ));
    decimal_is_one_to_one(a as nat, b as nat);
}

/// The decimal notation of a number holds no blank.
proof fn lemma_decimal_has_no_blank(n: nat, at: int)
    requires
        0 <= at < decimal(n).len(),
    ensures
        decimal(n)[at] != ' ',
    decreases n,
{
    if n >= 10 && at < decimal(n).len() - 1 {
        lemma_decimal_has_no_blank(n / 10, at);
    }
}

/// Two values that have one label have one packed id and one name.
pub proof fn value_label_is_one_to_one(a: u64, name: Seq<char>, b: u64, other: Seq<char>)
    requires
        value_label_of(a, name) == value_label_of(b, other),
    ensures
        a == b,
        name == other,
{
    reveal_strlit(" (");
    reveal_strlit(")");
    let start = label_prefix().len() as int;
    let left = decimal(a as nat);
    let right = decimal(b as nat);
    let whole = value_label_of(a, name);
    let again = value_label_of(b, other);
    // The digits end before the first blank, which stands at one place in
    // both labels.
    assert(whole[start + left.len()] == ' ');
    assert(again[start + right.len()] == ' ');
    if left.len() < right.len() {
        lemma_decimal_has_no_blank(b as nat, left.len() as int);
        assert(again[start + left.len()] == right[left.len() as int]);
    } else if right.len() < left.len() {
        lemma_decimal_has_no_blank(a as nat, right.len() as int);
        assert(whole[start + right.len()] == left[right.len() as int]);
    }
    assert(left =~= whole.subrange(start, start + left.len()));
    assert(right =~= again.subrange(start, start + right.len()));
    decimal_is_one_to_one(a as nat, b as nat);
    // What stands between the two brackets is the name.
    let from = start + left.len() + 2;
    assert(name =~= whole.subrange(from, whole.len() - 1));
    assert(other =~= again.subrange(from, again.len() - 1));
}

fn digit_str(d: u64) -> (text: &'static str)
    requires
        d < 10,
    ensures
        text@ == seq![digit_char(d as nat)],
{
    proof {
        reveal_strlit("0");
        reveal_strlit("1");
        reveal_strlit("2");
        reveal_strlit("3");
        reveal_strlit("4");
        reveal_strlit("5");
        reveal_strlit("6");
        reveal_strlit("7");
        reveal_strlit("8");
        reveal_strlit("9");
    }
    if d == 0 {
        "0"
    } else if d == 1 {
        "1"
    } else if d == 2 {
        "2"
    } else if d == 3 {
        "3"
    } else if d == 4 {
        "4"
    } else if d == 5 {
        "5"
    } else if d == 6 {
        "6"
    } else if d == 7 {
        "7"
    } else if d == 8 {
        "8"
    } else {
        "9"
    }
}

/// Writes `n` in decimal.
pub fn decimal_string(n: u64) -> (text: String)
    ensures
        text@ == decimal(n as nat),
    decreases n,
{
    if n < 10 {
        String::from_str(digit_str(n))
    } else {
        let mut text = decimal_string(n / 10);
        text.append(digit_str(n % 10));
        text
    }
}

/// The label of the controller of the network `home_id`.
pub fn service_label(home_id: u32) -> (text: String)
    ensures
        text@ == service_label_of(home_id),
{
    let mut text = String::from_str("OpenZWave/");
    let digits = decimal_string(home_id as u64);
    text.append(digits.as_str());
    text
}

/// The label of the value with the packed id `id` that the device names
/// `name`.
pub fn value_label(id: u64, name: &str) -> (text: String)
    ensures
        text@ == value_label_of(id, name@),
{
    let mut text = String::from_str("OpenZWave/");
    let digits = decimal_string(id);
    text.append(digits.as_str());
    text.append(" (");
    text.append(name);
    text.append(")");
    text
}

} // verus!
