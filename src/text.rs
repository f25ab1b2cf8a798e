//! Decimal rendering and column padding, stated over character sequences.
use vstd::prelude::*;

verus! {

/// The character of a decimal digit.
pub open spec fn digit_char(d: int) -> char {
    if d == 0 {
        '0'
    } else if d == 1 {
        '1'
    } else if d == 2 {
        '2'
    } else if d == 3 {
        '3'
    } else if d == 4 {
        '4'
    } else if d == 5 {
        '5'
    } else if d == 6 {
        '6'
    } else if d == 7 {
        '7'
    } else if d == 8 {
        '8'
    } else {
        '9'
    }
}

/// The decimal digits of `n`, most significant first, without leading zeros.
pub open spec fn decimal(n: nat) -> Seq<char>
    decreases n,
{
    if n < 10 {
        seq![digit_char(n as int)]
    } else {
        decimal(n / 10).push(digit_char((n % 10) as int))
    }
}

/// `n` space characters.
pub open spec fn spaces(n: nat) -> Seq<char>
    decreases n,
{
    if n == 0 {
        Seq::empty()
    } else {
        spaces((n - 1) as nat).push(' ')
    }
}

/// `s` followed by spaces up to `width` characters (the `{:<width}` layout).
pub open spec fn pad_right(s: Seq<char>, width: nat) -> Seq<char> {
    if s.len() >= width {
        s
    } else {
        s + spaces((width - s.len()) as nat)
    }
}

/// `s` preceded by spaces up to `width` characters (the `{:>width}` layout).
pub open spec fn pad_left(s: Seq<char>, width: nat) -> Seq<char> {
    if s.len() >= width {
        s
    } else {
        spaces((width - s.len()) as nat) + s
    }
}

fn digit_str(d: u128) -> (r: &'static str)
    requires
        d < 10,
    ensures
        r@ == seq![digit_char(d as int)],
{
    proof {
        reveal_strlit("0");
        reveal_strlit("1");
        reveal_strlit("2");
        reveal_strlit("3");
        reveal_strlit("4");
        reveal_strlit("5");
        reveal_strlit("6");
        reveal_strlit("7");
        reveal_strlit("8");
        reveal_strlit("9");
    }
    let r = if d == 0 {
        "0"
    } else if d == 1 {
        "1"
    } else if d == 2 {
        "2"
    } else if d == 3 {
        "3"
    } else if d == 4 {
        "4"
    } else if d == 5 {
        "5"
    } else if d == 6 {
        "6"
    } else if d == 7 {
        "7"
    } else if d == 8 {
        "8"
    } else {
        "9"
    };
    assert(r@ =~= seq![digit_char(d as int)]);
    r
}

/// Renders a number in decimal.
pub fn decimal_string(n: u128) -> (r: String)
    ensures
        r@ == decimal(n as nat),
    decreases n,
{
    if n < 10 {
        String::from_str(digit_str(n))
    } else {
        let mut s = decimal_string(n / 10);
        s.append(digit_str(n % 10));
        s
    }
}

/// Appends `n` spaces to `s`.
fn append_spaces(s: &mut String, n: usize)
    ensures
        final(s)@ == old(s)@ + spaces(n as nat),
{
    let mut i: usize = 0;
    while i < n
        invariant
            i <= n,
            s@ == old(s)@ + spaces(i as nat),
        decreases n - i,
    {
        proof {
            reveal_strlit(" ");
        }
        s.append(" ");
        i = i + 1;
        assert(s@ =~= old(s)@ + spaces(i as nat));
    }
}

/// `s` padded with spaces on the right to at least `width` characters.
pub fn padded_right(s: &str, width: usize) -> (r: String)
    ensures
        r@ == pad_right(s@, width as nat),
{
    let len = s.unicode_len();
    let mut r = String::from_str(s);
    if len < width {
        append_spaces(&mut r, width - len);
    }
    r
}

/// `s` padded with spaces on the left to at least `width` characters.
pub fn padded_left(s: &str, width: usize) -> (r: String)
    ensures
        r@ == pad_left(s@, width as nat),
{
    let len = s.unicode_len();
    let mut r = String::new();
    if len < width {
        append_spaces(&mut r, width - len);
    }
    r.append(s);
    assert(r@ =~= pad_left(s@, width as nat));
    r
}

/// Whether two texts hold the same characters.
pub fn same_text(a: &str, b: &str) -> (r: bool)
    ensures
        r == (a@ == b@),
{
    let n = a.unicode_len();
    let m = b.unicode_len();
    if n != m {
        return false;
    }
    let mut i: usize = 0;
    while i < n
        invariant
            n == a@.len(),
            n == b@.len(),
            i <= n,
            a@.subrange(0, i as int) =~= b@.subrange(0, i as int),
        decreases n - i,
    {
        if a.get_char(i) != b.get_char(i) {
            return false;
        }
        i = i + 1;
        assert(a@.subrange(0, i as int) =~= b@.subrange(0, i as int));
    }
    assert(a@ =~= a@.subrange(0, n as int));
    assert(b@ =~= b@.subrange(0, n as int));
    true
}

} // verus!
