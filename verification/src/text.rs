//! Building of messages: numbers as decimal text and paths joined by dots.

use vstd::prelude::*;
use vstd::string::StringExecFns;

verus! {

/// The character of the decimal digit `d`.
pub open spec fn digit_char(d: int) -> char {
    if d == 0 {
        '0'
    } else if d == 1 {
        '1'
    } else if d == 2 {
        '2'
    } else if d == 3 {
        '3'
    } else if d == 4 {
        '4'
    } else if d == 5 {
        '5'
    } else if d == 6 {
        '6'
    } else if d == 7 {
        '7'
    } else if d == 8 {
        '8'
    } else {
        '9'
    }
}

/// The decimal digits of `n`, without leading zeros.
pub open spec fn digits(n: int) -> Seq<char>
    decreases n,
{
    if n < 10 {
        seq![digit_char(n)]
    } else {
        digits(n / 10).push(digit_char(n % 10))
    }
}

/// The decimal digits of the fraction `f` of `unit`, a power of ten, without
/// trailing zeros.
pub open spec fn fraction_digits(f: int, unit: int) -> Seq<char>
    decreases unit,
{
    if f <= 0 || unit <= 1 {
        Seq::empty()
    } else {
        seq![digit_char(f / (unit / 10))] + fraction_digits(f % (unit / 10), unit / 10)
    }
}

/// The fixed-point number `v` in decimal: a minus sign if it is negative, the
/// digits of its whole part and, if it has a fraction, a point and the digits of
/// the fraction.
pub open spec fn fixed_text(v: int) -> Seq<char> {
    let size = if v < 0 {
        -v
    } else {
        v
    };
    let sign = if v < 0 {
        seq!['-']
    } else {
        Seq::empty()
    };
    let point = if size % 1_000_000 != 0 {
        seq!['.']
    } else {
        Seq::empty()
    };
    sign + digits(size / 1_000_000) + point + fraction_digits(size % 1_000_000, 1_000_000)
}

/// The keys of `path` from index `from` on, with a dot between neighbours.
pub open spec fn dotted(path: Seq<Seq<char>>, from: int) -> Seq<char>
    decreases path.len() - from,
{
    if from < 0 || from >= path.len() {
        Seq::empty()
    } else if from == path.len() - 1 {
        path[from]
    } else {
        path[from] + seq!['.'] + dotted(path, from + 1)
    }
}

fn digit_str(d: u64) -> (r: &'static str)
    requires
        d < 10,
    ensures
        r@ == seq![digit_char(d as int)],
{
    proof {
        reveal_strlit("0");
        reveal_strlit("1");
        reveal_strlit("2");
        reveal_strlit("3");
        reveal_strlit("4");
        reveal_strlit("5");
        reveal_strlit("6");
        reveal_strlit("7");
        reveal_strlit("8");
        reveal_strlit("9");
    }
    let r = if d == 0 {
        "0"
    } else if d == 1 {
        "1"
    } else if d == 2 {
        "2"
    } else if d == 3 {
        "3"
    } else if d == 4 {
        "4"
    } else if d == 5 {
        "5"
    } else if d == 6 {
        "6"
    } else if d == 7 {
        "7"
    } else if d == 8 {
        "8"
    } else {
        "9"
    };
    assert(r@ =~= seq![digit_char(d as int)]);
    r
}

/// `n` in decimal.
pub fn decimal(n: u64) -> (r: String)
    ensures
        r@ == digits(n as int),
    decreases n,
{
    if n < 10 {
        String::from_str(digit_str(n))
    } else {
        let mut r = decimal(n / 10);
        r.append(digit_str(n % 10));
        r
    }
}

/// Whether `unit` is a power of ten.
pub open spec fn power_of_ten(unit: int) -> bool
    decreases unit,
{
    unit == 1 || (unit > 1 && unit % 10 == 0 && power_of_ten(unit / 10))
}

fn fraction(f: u64, unit: u64) -> (r: String)
    requires
        f < unit,
        power_of_ten(unit as int),
    ensures
        r@ == fraction_digits(f as int, unit as int),
    decreases unit,
{
    if f == 0 || unit <= 1 {
        String::new()
    } else {
        let step = unit / 10;
        assert(f / step < 10) by (nonlinear_arith)
            requires
                f < step * 10,
                step > 0,
        ;
        let mut r = String::from_str(digit_str(f / step));
        let rest = fraction(f % step, step);
        r.append(rest.as_str());
        r
    }
}

/// The fixed-point number `v` in decimal.
pub fn fixed_to_text(v: i64) -> (r: String)
    ensures
        r@ == fixed_text(v as int),
{
    proof {
        reveal_strlit("-");
        reveal_strlit(".");
        reveal_strlit("");
        reveal_with_fuel(power_of_ten, 8);
    }
    let size: u64 = if v < 0 {
        (-(v as i128)) as u64
    } else {
        v as u64
    };
    let mut r = String::from_str(if v < 0 { "-" } else { "" });
    let whole = decimal(size / 1_000_000);
    r.append(whole.as_str());
    if size % 1_000_000 != 0 {
        r.append(".");
    }
    let part = fraction(size % 1_000_000, 1_000_000);
    r.append(part.as_str());
    assert(r@ =~= fixed_text(v as int));
    r
}

/// The keys of `path` with a dot between neighbours.
pub fn join(path: &Vec<String>) -> (r: String)
    ensures
        r@ == dotted(path@.map_values(|s: String| s@), 0),
{
    let ghost keys = path@.map_values(|s: String| s@);
    let mut r = String::new();
    let mut i: usize = path.len();
    while i > 0
        invariant
            i <= path.len(),
            keys == path@.map_values(|s: String| s@),
            r@ == dotted(keys, i as int),
        decreases i,
    {
        proof {
            reveal_strlit(".");
        }
        i = i - 1;
        let mut head = path[i].clone();
        if i + 1 < path.len() {
            head.append(".");
        }
        head.append(r.as_str());
        assert(keys[i as int] == path@[i as int]@);
        assert(head@ =~= dotted(keys, i as int));
        r = head;
    }
    r
}

} // verus!
