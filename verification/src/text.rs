use vstd::prelude::*;

verus! {

/// The lower-case hexadecimal digit for `n` (0 to 15).
pub open spec fn hex_digit(n: int) -> Seq<char> {
    if n == 0 {
        "0"@
    } else if n == 1 {
        "1"@
    } else if n == 2 {
        "2"@
    } else if n == 3 {
        "3"@
    } else if n == 4 {
        "4"@
    } else if n == 5 {
        "5"@
    } else if n == 6 {
        "6"@
    } else if n == 7 {
        "7"@
    } else if n == 8 {
        "8"@
    } else if n == 9 {
        "9"@
    } else if n == 10 {
        "a"@
    } else if n == 11 {
        "b"@
    } else if n == 12 {
        "c"@
    } else if n == 13 {
        "d"@
    } else if n == 14 {
        "e"@
    } else {
        "f"@
    }
}

/// `v` as four lower-case hexadecimal digits, most significant first
/// (what `format!("{v:04x}")` writes for a `u16`).
pub open spec fn hex4(v: u16) -> Seq<char> {
    hex_digit((v as int / 4096) % 16) + hex_digit((v as int / 256) % 16) + hex_digit(
        (v as int / 16) % 16,
    ) + hex_digit(v as int % 16)
}

/// The decimal notation of `n`, without leading zeros.
pub open spec fn decimal(n: nat) -> Seq<char>
    decreases n,
{
    if n < 10 {
        hex_digit(n as int)
    } else {
        decimal(n / 10) + hex_digit((n % 10) as int)
    }
}

/// Appends the hexadecimal digit of `n` to `s`.
pub fn push_hex_digit(s: &mut String, n: u16)
    requires
        n < 16,
    ensures
        final(s)@ == old(s)@ + hex_digit(n as int),
{
    let d: &str = match n {
        0 => "0",
        1 => "1",
        2 => "2",
        3 => "3",
        4 => "4",
        5 => "5",
        6 => "6",
        7 => "7",
        8 => "8",
        9 => "9",
        10 => "a",
        11 => "b",
        12 => "c",
        13 => "d",
        14 => "e",
        _ => "f",
    };
    s.append(d);
}

/// Appends `v` as four lower-case hexadecimal digits to `s`.
pub fn push_hex4(s: &mut String, v: u16)
    ensures
        final(s)@ == old(s)@ + hex4(v),
{
    let ghost s0 = s@;
    push_hex_digit(s, (v / 4096) % 16);
    push_hex_digit(s, (v / 256) % 16);
    push_hex_digit(s, (v / 16) % 16);
    push_hex_digit(s, v % 16);
    assert(s@ =~= s0 + hex4(v));
}

/// Appends the decimal notation of `n` to `s`.
pub fn push_decimal(s: &mut String, n: u8)
    ensures
        final(s)@ == old(s)@ + decimal(n as nat),
{
    let ghost s0 = s@;
    if n >= 100 {
        push_hex_digit(s, (n / 100) as u16);
        push_hex_digit(s, ((n / 10) % 10) as u16);
        push_hex_digit(s, (n % 10) as u16);
        proof {
            let m = n as nat;
            assert(decimal(m / 100) == hex_digit((m / 100) as int));
            assert(decimal(m / 10) == decimal((m / 10) / 10) + hex_digit(((m / 10) % 10) as int));
            assert((m / 10) / 10 == m / 100);
            assert(decimal(m) == decimal(m / 10) + hex_digit((m % 10) as int));
            assert(s@ =~= s0 + decimal(m));
        }
    } else if n >= 10 {
        push_hex_digit(s, (n / 10) as u16);
        push_hex_digit(s, (n % 10) as u16);
        proof {
            let m = n as nat;
            assert(decimal(m / 10) == hex_digit((m / 10) as int));
            assert(decimal(m) == decimal(m / 10) + hex_digit((m % 10) as int));
            assert(s@ =~= s0 + decimal(m));
        }
    } else {
        push_hex_digit(s, n as u16);
    }
}

} // verus!
