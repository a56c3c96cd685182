use vstd::prelude::*;

verus! {

pub open spec fn digit_char(d: nat) -> char {
    seq!['0', '1', '2', '3', '4', '5', '6', '7', '8', '9'][d as int]
}

/// The decimal digits of `n`, most significant first, without leading zeros.
pub open spec fn decimal_text(n: nat) -> Seq<char>
    decreases n,
{
    if n < 10 {
        seq![digit_char(n)]
    } else {
        decimal_text(n / 10).push(digit_char(n % 10))
    }
}

/// The decimal digit `d` as text.
fn digit_text(d: u64) -> (r: &'static str)
    requires
        d < 10,
    ensures
        r@ == seq![digit_char(d as nat)],
{
    proof {
        reveal_strlit("0");
        reveal_strlit("1");
        reveal_strlit("2");
        reveal_strlit("3");
        reveal_strlit("4");
        reveal_strlit("5");
        reveal_strlit("6");
        reveal_strlit("7");
        reveal_strlit("8");
        reveal_strlit("9");
    }
    if d == 0 {
        "0"
    } else if d == 1 {
        "1"
    } else if d == 2 {
        "2"
    } else if d == 3 {
        "3"
    } else if d == 4 {
        "4"
    } else if d == 5 {
        "5"
    } else if d == 6 {
        "6"
    } else if d == 7 {
        "7"
    } else if d == 8 {
        "8"
    } else {
        "9"
    }
}

/// Writes `n` in decimal.
pub(crate) fn decimal(n: u64) -> (r: String)
    ensures
        r@ == decimal_text(n as nat),
    decreases n,
{
    if n < 10 {
        String::from_str(digit_text(n))
    } else {
        let mut s = decimal(n / 10);
        s.append(digit_text(n % 10));
        assert(s@ =~= decimal_text((n / 10) as nat).push(digit_char((n % 10) as nat)));
        s
    }
}

pub open spec fn repeat_char(c: char, n: nat) -> Seq<char> {
    Seq::new(n, |i: int| c)
}

/// Appends `piece`, a single character, `n` times.
pub(crate) fn append_repeated(s: &mut String, piece: &str, n: usize)
    requires
        piece@.len() == 1,
    ensures
        final(s)@ == old(s)@ + repeat_char(piece@[0], n as nat),
{
    let mut i: usize = 0;
    while i < n
        invariant
            piece@.len() == 1,
            0 <= i <= n,
            s@ == old(s)@ + repeat_char(piece@[0], i as nat),
        decreases n - i,
    {
        s.append(piece);
        i = i + 1;
        assert(s@ =~= old(s)@ + repeat_char(piece@[0], i as nat));
    }
}

} // verus!
