//! Numbers and lists as text.

use vstd::prelude::*;
use vstd::string::StringExecFns;

verus! {

/// The character of a decimal digit.
pub open spec fn digit(d: int) -> char {
    if d == 0 {
        '0'
    } else if d == 1 {
        '1'
    } else if d == 2 {
        '2'
    } else if d == 3 {
        '3'
    } else if d == 4 {
        '4'
    } else if d == 5 {
        '5'
    } else if d == 6 {
        '6'
    } else if d == 7 {
        '7'
    } else if d == 8 {
        '8'
    } else {
        '9'
    }
}

/// A natural number in decimal digits, without leading zeros.
pub open spec fn decimal(n: nat) -> Seq<char>
    decreases n,
{
    if n < 10 {
        seq![digit(n as int)]
    } else {
        decimal(n / 10).push(digit((n % 10) as int))
    }
}

/// An integer in decimal digits, with a minus sign before a negative one.
pub open spec fn signed_decimal(n: int) -> Seq<char> {
    if n < 0 {
        seq!['-'] + decimal((-n) as nat)
    } else {
        decimal(n as nat)
    }
}

/// `i128`'s `Display` of the standard library, through `format!`: the
/// number in decimal digits, with a minus sign before a negative one.
#[verifier::external_body]
pub(crate) fn decimal_string(n: i128) -> (r: String)
    ensures
        r@ == signed_decimal(n as int),
{
    format!("{}", n)
}

/// The parts in their order, with `separator` between each two.
pub open spec fn join(parts: Seq<Seq<char>>, separator: Seq<char>) -> Seq<char>
    decreases parts.len(),
{
    if parts.len() == 0 {
        Seq::<char>::empty()
    } else if parts.len() == 1 {
        parts[0]
    } else {
        join(parts.drop_last(), separator) + separator + parts.last()
    }
}

/// Joining one part more appends the separator and the part, but for the
/// first part, which stands alone.
pub proof fn lemma_join_push(parts: Seq<Seq<char>>, separator: Seq<char>, part: Seq<char>)
    ensures
        join(parts.push(part), separator) == (if parts.len() == 0 {
            part
        } else {
            join(parts, separator) + separator + part
        }),
{
    assert(parts.push(part).drop_last() == parts);
}

/// The parts that are there, in their order.
pub open spec fn present(parts: Seq<Option<Seq<char>>>) -> Seq<Seq<char>>
    decreases parts.len(),
{
    if parts.len() == 0 {
        Seq::<Seq<char>>::empty()
    } else {
        match parts.last() {
            Some(part) => present(parts.drop_last()).push(part),
            None => present(parts.drop_last()),
        }
    }
}

/// What the texts say, where they are there.
pub open spec fn texts_of(parts: Seq<Option<String>>) -> Seq<Option<Seq<char>>> {
    parts.map_values(
        |p: Option<String>|
            match p {
                Some(text) => Some(text@),
                None => None,
            },
    )
}

/// The parts that are there, in their order, with `separator` between each
/// two.
pub fn join_present(parts: &Vec<Option<String>>, separator: &str) -> (r: String)
    ensures
        r@ == join(present(texts_of(parts@)), separator@),
{
    let ghost texts = texts_of(parts@);
    let mut out = String::new();
    let mut any = false;
    let mut i: usize = 0;
    assert(texts.take(0) == Seq::<Option<Seq<char>>>::empty());
    while i < parts.len()
        invariant
            i <= parts.len(),
            texts == texts_of(parts@),
            any == (present(texts.take(i as int)).len() > 0),
            out@ == join(present(texts.take(i as int)), separator@),
        decreases parts.len() - i,
    {
        let ghost before = present(texts.take(i as int));
        proof {
            assert(texts.take(i + 1).drop_last() == texts.take(i as int));
            assert(texts.take(i + 1).last() == texts[i as int]);
        }
        if let Some(part) = &parts[i] {
            if any {
                out.append(separator);
            }
            out.append(part.as_str());
            any = true;
            proof {
                lemma_join_push(before, separator@, part@);
            }
        }
        i = i + 1;
    }
    assert(texts.take(parts.len() as int) == texts);
    out
}

/// A count of four digits, with leading zeros.
pub open spec fn four_digits(n: int) -> Seq<char> {
    seq![digit(n / 1000), digit(n / 100 % 10), digit(n / 10 % 10), digit(n % 10)]
}

/// A count of two digits, with a leading zero.
pub open spec fn two_digits(n: int) -> Seq<char> {
    seq![digit(n / 10), digit(n % 10)]
}

/// A count of two digits, with a leading zero.
pub fn two_digit_string(n: u32) -> (r: String)
    requires
        n <= 99,
    ensures
        r@ == two_digits(n as int),
{
    let mut out = decimal_string((n / 10) as i128);
    out.append(decimal_string((n % 10) as i128).as_str());
    proof {
        let p = n as int;
        assert(decimal((p / 10) as nat) == seq![digit(p / 10)]);
        assert(decimal((p % 10) as nat) == seq![digit(p % 10)]);
        assert(seq![digit(p / 10)] + seq![digit(p % 10)] == two_digits(p));
    }
    out
}

/// A count of four digits, with leading zeros.
pub fn four_digit_string(n: u32) -> (r: String)
    requires
        n <= 9999,
    ensures
        r@ == four_digits(n as int),
{
    let mut out = decimal_string((n / 1000) as i128);
    out.append(decimal_string((n / 100 % 10) as i128).as_str());
    out.append(decimal_string((n / 10 % 10) as i128).as_str());
    out.append(decimal_string((n % 10) as i128).as_str());
    proof {
        let p = n as int;
        assert(decimal((p / 1000) as nat) == seq![digit(p / 1000)]);
        assert(decimal((p / 100 % 10) as nat) == seq![digit(p / 100 % 10)]);
        assert(decimal((p / 10 % 10) as nat) == seq![digit(p / 10 % 10)]);
        assert(decimal((p % 10) as nat) == seq![digit(p % 10)]);
        assert(seq![digit(p / 1000)] + seq![digit(p / 100 % 10)] + seq![digit(p / 10 % 10)]
            + seq![digit(p % 10)] == four_digits(p));
    }
    out
}

/// A number of millionths as a decimal fraction with four places: the
/// fifth place is rounded, a half away from zero, and a negative number
/// keeps its sign where it rounds to zero.
pub open spec fn four_places(millionths: int) -> Seq<char> {
    let magnitude = if millionths < 0 {
        -millionths
    } else {
        millionths
    };
    let rounded = (magnitude + 50) / 100;
    let sign = if millionths < 0 {
        seq!['-']
    } else {
        Seq::<char>::empty()
    };
    sign + decimal((rounded / 10000) as nat) + seq!['.'] + four_digits(rounded % 10000)
}

/// A number of millionths as a decimal fraction with four places.
pub fn format_four_places(millionths: i32) -> (r: String)
    ensures
        r@ == four_places(millionths as int),
{
    let magnitude: i64 = if millionths < 0 {
        -(millionths as i64)
    } else {
        millionths as i64
    };
    let rounded: i64 = (magnitude + 50) / 100;
    let whole: i64 = rounded / 10000;
    let part: i64 = rounded % 10000;
    let mut out = String::new();
    if millionths < 0 {
        out.append("-");
    }
    out.append(decimal_string(whole as i128).as_str());
    out.append(".");
    out.append(decimal_string((part / 1000) as i128).as_str());
    out.append(decimal_string((part / 100 % 10) as i128).as_str());
    out.append(decimal_string((part / 10 % 10) as i128).as_str());
    out.append(decimal_string((part % 10) as i128).as_str());
    proof {
        reveal_strlit("-");
        reveal_strlit(".");
        assert("-"@ == seq!['-']);
        assert("."@ == seq!['.']);
        let p = part as int;
        assert(decimal((p / 1000) as nat) == seq![digit(p / 1000)]);
        assert(decimal((p / 100 % 10) as nat) == seq![digit(p / 100 % 10)]);
        assert(decimal((p / 10 % 10) as nat) == seq![digit(p / 10 % 10)]);
        assert(decimal((p % 10) as nat) == seq![digit(p % 10)]);
        assert(seq![digit(p / 1000)] + seq![digit(p / 100 % 10)] + seq![digit(p / 10 % 10)]
            + seq![digit(p % 10)] == four_digits(p));
    }
    out
}

} // verus!
