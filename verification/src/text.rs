//! Building the texts the client shows and sends.

use vstd::prelude::*;

verus! {

/// The decimal digit that stands for `d`, for `d` below ten.
pub open spec fn digit_char(d: nat) -> char {
    if d == 0 {
        '0'
    } else if d == 1 {
        '1'
    } else if d == 2 {
        '2'
    } else if d == 3 {
        '3'
    } else if d == 4 {
        '4'
    } else if d == 5 {
        '5'
    } else if d == 6 {
        '6'
    } else if d == 7 {
        '7'
    } else if d == 8 {
        '8'
    } else {
        '9'
    }
}

/// The decimal numeral of `n`: no sign, no leading zero but for zero itself.
pub open spec fn decimal_digits(n: nat) -> Seq<char>
    decreases n,
{
    if n < 10 {
        seq![digit_char(n)]
    } else {
        decimal_digits(n / 10).push(digit_char(n % 10))
    }
}

/// The digits still to be written in front of what `decimal` has so far.
spec fn pending_digits(m: nat) -> Seq<char> {
    if m == 0 {
        Seq::empty()
    } else {
        decimal_digits(m)
    }
}

fn digit_text(d: usize) -> (res: &'static str)
    requires
        d < 10,
    ensures
        res@ == seq![digit_char(d as nat)],
{
    proof {
        reveal_strlit("0");
        reveal_strlit("1");
        reveal_strlit("2");
        reveal_strlit("3");
        reveal_strlit("4");
        reveal_strlit("5");
        reveal_strlit("6");
        reveal_strlit("7");
        reveal_strlit("8");
        reveal_strlit("9");
    }
    let res = if d == 0 {
        "0"
    } else if d == 1 {
        "1"
    } else if d == 2 {
        "2"
    } else if d == 3 {
        "3"
    } else if d == 4 {
        "4"
    } else if d == 5 {
        "5"
    } else if d == 6 {
        "6"
    } else if d == 7 {
        "7"
    } else if d == 8 {
        "8"
    } else {
        "9"
    };
    assert(res@ =~= seq![digit_char(d as nat)]);
    res
}

/// The decimal numeral of `n`.
pub fn decimal(n: usize) -> (res: String)
    ensures
        res@ == decimal_digits(n as nat),
{
    let mut text = String::from_str(digit_text(n % 10));
    let mut rest: usize = n / 10;
    assert(decimal_digits(n as nat) =~= pending_digits(rest as nat) + text@);
    while rest > 0
        invariant
            decimal_digits(n as nat) == pending_digits(rest as nat) + text@,
        decreases rest,
    {
        let mut longer = String::from_str(digit_text(rest % 10));
        longer.append(text.as_str());
        assert(pending_digits(rest as nat) + text@ =~= pending_digits((rest / 10) as nat)
            + longer@);
        text = longer;
        rest = rest / 10;
    }
    assert(pending_digits(0) + text@ =~= text@);
    text
}

/// `a` followed by `b`.
pub fn concat2(a: &str, b: &str) -> (res: String)
    ensures
        res@ == a@ + b@,
{
    let mut text = String::from_str(a);
    text.append(b);
    text
}

/// `a`, `b` and `c` in a row.
pub fn concat3(a: &str, b: &str, c: &str) -> (res: String)
    ensures
        res@ == a@ + b@ + c@,
{
    let mut text = String::from_str(a);
    text.append(b);
    text.append(c);
    text
}

/// A person's name as the client shows it: first name, a space, last name.
pub open spec fn spec_full_name(first_name: Seq<char>, last_name: Seq<char>) -> Seq<char> {
    first_name + " "@ + last_name
}

/// A person's name as the client shows it: first name, a space, last name.
pub fn full_name(first_name: &str, last_name: &str) -> (res: String)
    ensures
        res@ == spec_full_name(first_name@, last_name@),
{
    concat3(first_name, " ", last_name)
}

/// The text, or `fallback` where there is none.
pub open spec fn spec_or_text(text: Option<Seq<char>>, fallback: Seq<char>) -> Seq<char> {
    match text {
        Some(t) => t,
        None => fallback,
    }
}

/// The text, or `fallback` where there is none.
pub fn or_text(text: Option<String>, fallback: &str) -> (res: String)
    ensures
        res@ == spec_or_text(text.deep_view(), fallback@),
{
    match text {
        Some(t) => t,
        None => String::from_str(fallback),
    }
}

/// Appends `item` to `list`.
pub fn push_view<T: DeepView>(list: &mut Vec<T>, item: T)
    ensures
        final(list).deep_view() == old(list).deep_view().push(item.deep_view()),
{
    let ghost before = list.deep_view();
    list.push(item);
    assert(list.deep_view() =~= before.push(item.deep_view()));
}

} // verus!
