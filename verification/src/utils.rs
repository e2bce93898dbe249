//! Small stateless helpers: timestamp sanity and display formatting.

use vstd::prelude::*;
use vstd::string::StringExecFns;

verus! {

/// The timestamps of a new stream are sane: it starts in the future, ends
/// after it starts, and an optional cliff (0 = none) lies inside the stream.
pub open spec fn duration_sanity_spec(now: u64, start: u64, end: u64, cliff: u64) -> bool {
    &&& now < start
    &&& start < end
    &&& (cliff == 0 || (start <= cliff && cliff <= end))
}

pub fn duration_sanity(now: u64, start: u64, end: u64, cliff: u64) -> (r: bool)
    ensures
        r == duration_sanity_spec(now, start, end, cliff),
{
    let cliff_cond = if cliff == 0 {
        true
    } else {
        start <= cliff && cliff <= end
    };

    now < start && start < end && cliff_cond
}

/// The symbol alphabet of the formatters: the values 0 to 9 stand for their
/// digits, 10 for the decimal point.
pub open spec fn sym_char(d: u8) -> char {
    if d == 0 {
        '0'
    } else if d == 1 {
        '1'
    } else if d == 2 {
        '2'
    } else if d == 3 {
        '3'
    } else if d == 4 {
        '4'
    } else if d == 5 {
        '5'
    } else if d == 6 {
        '6'
    } else if d == 7 {
        '7'
    } else if d == 8 {
        '8'
    } else if d == 9 {
        '9'
    } else {
        '.'
    }
}

pub open spec fn syms_to_chars(s: Seq<u8>) -> Seq<char> {
    s.map_values(|d: u8| sym_char(d))
}

/// The decimal digits of `n`, most significant first, no leading zeros
/// (a single zero for zero).
pub open spec fn spec_digits(n: nat) -> Seq<u8>
    decreases n,
{
    if n < 10 {
        seq![n as u8]
    } else {
        spec_digits(n / 10) + seq![(n % 10) as u8]
    }
}

/// A single symbol as a string slice.
fn sym_str(d: u8) -> (r: &'static str)
    ensures
        r@ =~= seq![sym_char(d)],
{
    if d == 0 {
        let s = "0";
        proof {
            reveal_strlit("0");
        }
        s
    } else if d == 1 {
        let s = "1";
        proof {
            reveal_strlit("1");
        }
        s
    } else if d == 2 {
        let s = "2";
        proof {
            reveal_strlit("2");
        }
        s
    } else if d == 3 {
        let s = "3";
        proof {
            reveal_strlit("3");
        }
        s
    } else if d == 4 {
        let s = "4";
        proof {
            reveal_strlit("4");
        }
        s
    } else if d == 5 {
        let s = "5";
        proof {
            reveal_strlit("5");
        }
        s
    } else if d == 6 {
        let s = "6";
        proof {
            reveal_strlit("6");
        }
        s
    } else if d == 7 {
        let s = "7";
        proof {
            reveal_strlit("7");
        }
        s
    } else if d == 8 {
        let s = "8";
        proof {
            reveal_strlit("8");
        }
        s
    } else if d == 9 {
        let s = "9";
        proof {
            reveal_strlit("9");
        }
        s
    } else {
        let s = ".";
        proof {
            reveal_strlit(".");
        }
        s
    }
}

/// The decimal digits of `n` as symbol values, most significant first.
pub fn decimal_digits(n: u64) -> (v: Vec<u8>)
    ensures
        v@ == spec_digits(n as nat),
    decreases n,
{
    if n < 10 {
        let mut v: Vec<u8> = Vec::new();
        v.push(n as u8);
        proof {
            assert(v@ =~= spec_digits(n as nat));
        }
        v
    } else {
        let mut v = decimal_digits(n / 10);
        v.push((n % 10) as u8);
        proof {
            assert(v@ =~= spec_digits(n as nat));
        }
        v
    }
}

/// Render a symbol sequence as text.
pub fn syms_to_string(v: &Vec<u8>) -> (s: String)
    ensures
        s@ == syms_to_chars(v@),
{
    let mut s = String::new();
    let mut i: usize = 0;
    while i < v.len()
        invariant
            i <= v@.len(),
            s@ == syms_to_chars(v@.take(i as int)),
        decreases v@.len() - i,
    {
        s.append(sym_str(v[i]));
        i += 1;
        proof {
            assert(syms_to_chars(v@.take(i as int)) =~= syms_to_chars(
                v@.take(i - 1),
            ) + seq![sym_char(v@[i - 1])]);
        }
    }
    proof {
        assert(v@.take(v@.len() as int) =~= v@);
    }
    s
}

/// `n` in decimal.
pub fn u64_to_decimal(n: u64) -> (s: String)
    ensures
        s@ == syms_to_chars(spec_digits(n as nat)),
{
    let digits = decimal_digits(n);
    syms_to_string(&digits)
}

/// A duration rendered as days, hours, minutes and seconds.
pub open spec fn spec_pretty_time(t: u64) -> Seq<char> {
    syms_to_chars(spec_digits((t / 86400) as nat)) + " days, "@ + syms_to_chars(
        spec_digits(((t / 3600) % 24) as nat),
    ) + " hours, "@ + syms_to_chars(spec_digits(((t / 60) % 60) as nat)) + " minutes, "@
        + syms_to_chars(spec_digits((t % 60) as nat)) + " seconds"@
}

pub fn pretty_time(t: u64) -> (s: String)
    ensures
        s@ == spec_pretty_time(t),
{
    let seconds = t % 60;
    let minutes = (t / 60) % 60;
    let hours = (t / (60 * 60)) % 24;
    let days = t / (60 * 60 * 24);

    let mut s = u64_to_decimal(days);
    s.append(" days, ");
    let hours_s = u64_to_decimal(hours);
    s.append(hours_s.as_str());
    s.append(" hours, ");
    let minutes_s = u64_to_decimal(minutes);
    s.append(minutes_s.as_str());
    s.append(" minutes, ");
    let seconds_s = u64_to_decimal(seconds);
    s.append(seconds_s.as_str());
    s.append(" seconds");
    s
}

/// Trailing zero digits removed.
pub open spec fn spec_trim_zeros(s: Seq<u8>) -> Seq<u8>
    decreases s.len(),
{
    if s.len() > 0 && s.last() == 0 {
        spec_trim_zeros(s.drop_last())
    } else {
        s
    }
}

/// A trailing decimal point removed.
pub open spec fn spec_trim_point(s: Seq<u8>) -> Seq<u8> {
    if s.len() > 0 && s.last() == 10 {
        s.drop_last()
    } else {
        s
    }
}

/// The symbols of `amount` scaled down by `decimal_places` digits: the
/// decimal digits padded with leading zeros to at least one integer digit, a
/// point inserted before the last `decimal_places` digits, and trailing
/// zeros and a trailing point removed.
pub open spec fn spec_base10_syms(amount: u64, decimal_places: nat) -> Seq<u8> {
    let digits = spec_digits(amount as nat);
    let padded = if digits.len() < 1 + decimal_places {
        Seq::<u8>::new((1 + decimal_places - digits.len()) as nat, |i: int| 0u8) + digits
    } else {
        digits
    };
    let dotted = padded.take(padded.len() - decimal_places) + seq![10u8] + padded.skip(
        padded.len() - decimal_places,
    );
    spec_trim_point(spec_trim_zeros(dotted))
}

/// `amount` rendered with its last `decimal_places` digits behind a decimal
/// point, trailing zeros and a bare point trimmed: token amounts are stored
/// in the mint's smallest unit.
pub fn encode_base10(amount: u64, decimal_places: usize) -> (s: String)
    requires
        decimal_places < usize::MAX,
    ensures
        s@ == syms_to_chars(spec_base10_syms(amount, decimal_places as nat)),
{
    let digits = decimal_digits(amount);
    let mut padded: Vec<u8> = Vec::new();
    if digits.len() < 1 + decimal_places {
        let zeros: usize = 1 + decimal_places - digits.len();
        let mut k: usize = 0;
        while k < zeros
            invariant
                k <= zeros,
                padded@ =~= Seq::<u8>::new(k as nat, |i: int| 0u8),
            decreases zeros - k,
        {
            padded.push(0);
            proof {
                assert(padded@ =~= Seq::<u8>::new((k + 1) as nat, |i: int| 0u8));
            }
            k += 1;
        }
    }
    let mut digits_tail = digits;
    padded.append(&mut digits_tail);
    let ghost padded0 = padded@;
    let dot_at: usize = padded.len() - decimal_places;
    padded.insert(dot_at, 10);
    proof {
        assert(padded@ =~= padded0.take(dot_at as int) + seq![10u8] + padded0.skip(
            dot_at as int,
        ));
    }
    let ghost dotted = padded@;
    loop
        invariant
            spec_trim_zeros(padded@) == spec_trim_zeros(dotted),
        ensures
            padded@ == spec_trim_zeros(dotted),
        decreases padded@.len(),
    {
        let n = padded.len();
        if n == 0 {
            break ;
        }
        if padded[n - 1] != 0 {
            break ;
        }
        proof {
            assert(padded@.last() == 0);
        }
        padded.pop();
    }
    let n = padded.len();
    if n > 0 && padded[n - 1] == 10 {
        padded.pop();
    }
    proof {
        assert(padded@ == spec_trim_point(spec_trim_zeros(dotted)));
    }
    syms_to_string(&padded)
}

} // verus!
