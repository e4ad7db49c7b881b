use vstd::prelude::*;

verus! {

/// The character of a decimal digit `d` (meant for `0 <= d < 10`).
pub open spec fn digit_char(d: int) -> char {
    if d == 0 {
        '0'
    } else if d == 1 {
        '1'
    } else if d == 2 {
        '2'
    } else if d == 3 {
        '3'
    } else if d == 4 {
        '4'
    } else if d == 5 {
        '5'
    } else if d == 6 {
        '6'
    } else if d == 7 {
        '7'
    } else if d == 8 {
        '8'
    } else {
        '9'
    }
}

/// The shortest decimal rendering of `n`, without sign or padding.
pub open spec fn decimal_digits(n: nat) -> Seq<char>
    decreases n,
{
    if n < 10 {
        seq![digit_char(n as int)]
    } else {
        decimal_digits(n / 10).push(digit_char((n % 10) as int))
    }
}

/// The last `width` decimal digits of `n`, padded with leading zeros.
pub open spec fn fixed_digits(n: nat, width: nat) -> Seq<char>
    decreases width,
{
    if width == 0 {
        Seq::empty()
    } else {
        fixed_digits(n / 10, (width - 1) as nat).push(digit_char((n % 10) as int))
    }
}

/// The decimal rendering of an integer, with a leading `-` when it is negative.
pub open spec fn signed_decimal(i: int) -> Seq<char> {
    if i < 0 {
        seq!['-'] + decimal_digits((-i) as nat)
    } else {
        decimal_digits(i as nat)
    }
}

/// Appends the character of the digit `d`.
pub fn push_digit(s: &mut String, d: u64)
    requires
        d < 10,
    ensures
        final(s)@ == old(s)@.push(digit_char(d as int)),
{
    let ghost before = s@;
    let lit: &str = if d == 0 {
        proof {
            reveal_strlit("0");
        }
        "0"
    } else if d == 1 {
        proof {
            reveal_strlit("1");
        }
        "1"
    } else if d == 2 {
        proof {
            reveal_strlit("2");
        }
        "2"
    } else if d == 3 {
        proof {
            reveal_strlit("3");
        }
        "3"
    } else if d == 4 {
        proof {
            reveal_strlit("4");
        }
        "4"
    } else if d == 5 {
        proof {
            reveal_strlit("5");
        }
        "5"
    } else if d == 6 {
        proof {
            reveal_strlit("6");
        }
        "6"
    } else if d == 7 {
        proof {
            reveal_strlit("7");
        }
        "7"
    } else if d == 8 {
        proof {
            reveal_strlit("8");
        }
        "8"
    } else {
        proof {
            reveal_strlit("9");
        }
        "9"
    };
    assert(lit@ =~= seq![digit_char(d as int)]);
    s.append(lit);
    assert(s@ =~= before.push(digit_char(d as int)));
}

/// Appends the shortest decimal rendering of `n`.
pub fn push_decimal(s: &mut String, n: u64)
    ensures
        final(s)@ == old(s)@ + decimal_digits(n as nat),
    decreases n,
{
    let ghost before = s@;
    if n < 10 {
        push_digit(s, n);
        assert(s@ =~= before + decimal_digits(n as nat));
    } else {
        push_decimal(s, n / 10);
        push_digit(s, n % 10);
        assert(s@ =~= before + decimal_digits(n as nat));
    }
}

/// Appends the last `width` decimal digits of `n`, zero-padded.
pub fn push_fixed(s: &mut String, n: u64, width: u64)
    ensures
        final(s)@ == old(s)@ + fixed_digits(n as nat, width as nat),
    decreases width,
{
    let ghost before = s@;
    if width == 0 {
        assert(s@ =~= before + fixed_digits(n as nat, width as nat));
    } else {
        push_fixed(s, n / 10, width - 1);
        push_digit(s, n % 10);
        assert(s@ =~= before + fixed_digits(n as nat, width as nat));
    }
}

/// Appends the decimal rendering of a signed integer, as `Display` writes it.
pub fn push_signed_decimal(s: &mut String, i: i64)
    ensures
        final(s)@ == old(s)@ + signed_decimal(i as int),
{
    let ghost before = s@;
    if i < 0 {
        proof {
            reveal_strlit("-");
        }
        s.append("-");
        let wide: i128 = i as i128;
        let magnitude: u64 = (0i128 - wide) as u64;
        push_decimal(s, magnitude);
        assert(s@ =~= before + signed_decimal(i as int));
    } else {
        push_decimal(s, i as u64);
    }
}

} // verus!

verus! {

/// `s` without the leading run of the character `c`.
pub open spec fn trim_leading(s: Seq<char>, c: char) -> Seq<char>
    decreases s.len(),
{
    if s.len() > 0 && s[0] == c {
        trim_leading(s.drop_first(), c)
    } else {
        s
    }
}

/// Calls `str::trim_start_matches` with a character pattern.
/// Trusted: the result is `s` with every leading `c` removed, as std documents.
#[verifier::external_body]
pub fn trim_start_char(s: &str, c: char) -> (r: &str)
    ensures
        r@ == trim_leading(s@, c),
{
    s.trim_start_matches(c)
}

/// What `str::to_lowercase` gives for `s` (Unicode lowercase mapping).
pub uninterp spec fn lowercase(s: Seq<char>) -> Seq<char>;

/// Calls `str::to_lowercase`.
/// Trusted: the result is the value that `lowercase` names for `s`.
#[verifier::external_body]
pub fn to_lowercase(s: &str) -> (r: String)
    ensures
        r@ == lowercase(s@),
{
    s.to_lowercase()
}

} // verus!
