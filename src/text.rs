use vstd::prelude::*;
use vstd::string::StringExecFns;

verus! {

/// The decimal digit `d` as text.
pub open spec fn digit(d: nat) -> Seq<char> {
    if d == 0 {
        "0"@
    } else if d == 1 {
        "1"@
    } else if d == 2 {
        "2"@
    } else if d == 3 {
        "3"@
    } else if d == 4 {
        "4"@
    } else if d == 5 {
        "5"@
    } else if d == 6 {
        "6"@
    } else if d == 7 {
        "7"@
    } else if d == 8 {
        "8"@
    } else {
        "9"@
    }
}

/// `n` in decimal notation, without leading zeros.
pub open spec fn decimal(n: nat) -> Seq<char>
    decreases n,
{
    if n < 10 {
        digit(n)
    } else {
        decimal(n / 10) + digit(n % 10)
    }
}

fn digit_text(d: usize) -> (r: &'static str)
    requires
        d < 10,
    ensures
        r@ == digit(d as nat),
{
    if d == 0 {
        "0"
    } else if d == 1 {
        "1"
    } else if d == 2 {
        "2"
    } else if d == 3 {
        "3"
    } else if d == 4 {
        "4"
    } else if d == 5 {
        "5"
    } else if d == 6 {
        "6"
    } else if d == 7 {
        "7"
    } else if d == 8 {
        "8"
    } else {
        "9"
    }
}

/// Appends `n` in decimal notation to `s`.
pub fn append_decimal(s: &mut String, n: usize)
    ensures
        final(s)@ == old(s)@ + decimal(n as nat),
    decreases n,
{
    if n >= 10 {
        append_decimal(s, n / 10);
    }
    s.append(digit_text(n % 10));
    proof {
        if n >= 10 {
            assert(s@ =~= old(s)@ + decimal(n as nat));
        }
    }
}

/// The text of a not-null flag.
pub open spec fn nullability(flag: bool) -> Seq<char> {
    if flag {
        "not null"@
    } else {
        "nullable"@
    }
}

/// The text of an eager-loading flag.
pub open spec fn loading(flag: bool) -> Seq<char> {
    if flag {
        "eager loading"@
    } else {
        "lazy loading"@
    }
}

pub fn nullability_text(flag: bool) -> (r: &'static str)
    ensures
        r@ == nullability(flag),
{
    if flag {
        "not null"
    } else {
        "nullable"
    }
}

pub fn loading_text(flag: bool) -> (r: &'static str)
    ensures
        r@ == loading(flag),
{
    if flag {
        "eager loading"
    } else {
        "lazy loading"
    }
}

/// The parts with `sep` between each two.
pub open spec fn joined(parts: Seq<Seq<char>>, sep: Seq<char>) -> Seq<char>
    decreases parts.len(),
{
    if parts.len() == 0 {
        Seq::empty()
    } else if parts.len() == 1 {
        parts[0]
    } else {
        joined(parts.drop_last(), sep) + sep + parts.last()
    }
}

} // verus!
