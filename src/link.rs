use vstd::prelude::*;
use crate::error::MoveError;

verus! {

pub open spec fn is_ascii_digit(c: char) -> bool {
    '0' <= c && c <= '9'
}

pub open spec fn digit_value(c: char) -> nat {
    ((c as u32) - ('0' as u32)) as nat
}

/// The number that a string of decimal digits denotes.
pub open spec fn digits_value(s: Seq<char>) -> nat
    decreases s.len(),
{
    if s.len() == 0 {
        0
    } else {
        digits_value(s.drop_last()) * 10 + digit_value(s.last())
    }
}

pub open spec fn all_digits(s: Seq<char>) -> bool {
    forall|i: int| 0 <= i < s.len() ==> is_ascii_digit(#[trigger] s[i])
}

/// A non-empty string of ASCII digits whose value fits in a `u64`.
pub open spec fn decimal_u64(s: Seq<char>) -> Option<u64> {
    if s.len() > 0 && all_digits(s) && digits_value(s) <= u64::MAX {
        Some(digits_value(s) as u64)
    } else {
        None
    }
}

/// A positive identifier written in decimal.
pub open spec fn identifier_of(s: Seq<char>) -> Option<u64> {
    match decimal_u64(s) {
        Some(v) => if v > 0 { Some(v) } else { None },
        None => None,
    }
}

/// Guild, channel and message identifiers of a link whose three captured parts are given.
pub open spec fn link_from_parts(g: Seq<char>, c: Seq<char>, m: Seq<char>) -> Result<(u64, u64, u64), MoveError> {
    match (identifier_of(g), identifier_of(c), identifier_of(m)) {
        (Some(gi), Some(ci), Some(mi)) => Ok((gi, ci, mi)),
        _ => Err(MoveError::UnresolvedLinkBoundary),
    }
}

pub open spec fn link_of(captures: Option<(Seq<char>, Seq<char>, Seq<char>)>) -> Result<(u64, u64, u64), MoveError> {
    match captures {
        Some((g, c, m)) => link_from_parts(g, c, m),
        None => Err(MoveError::UnresolvedLinkBoundary),
    }
}

/// The first match of `pattern` in `text`, as its three capture groups, or none
/// when the pattern does not compile, does not match, or a group is absent.
pub uninterp spec fn captures3_of(pattern: Seq<char>, text: Seq<char>) -> Option<(Seq<char>, Seq<char>, Seq<char>)>;

/// Relies on regex::Regex::new and Regex::captures: the leftmost-first match of
/// the pattern in the text, with groups 1 to 3 read by Captures::get.
#[verifier::external_body]
fn captures3(pattern: &str, text: &str) -> (r: Option<(String, String, String)>)
    ensures
        match r {
            Some((g, c, m)) => captures3_of(pattern@, text@) == Some((g@, c@, m@)),
            None => captures3_of(pattern@, text@) is None,
        },
{
    let re = regex::Regex::new(pattern).ok()?;
    let caps = re.captures(text)?;
    let g = caps.get(1)?.as_str().to_string();
    let c = caps.get(2)?.as_str().to_string();
    let m = caps.get(3)?.as_str().to_string();
    Some((g, c, m))
}

proof fn lemma_digits_value_grows(s: Seq<char>, k: int)
    requires
        0 <= k <= s.len(),
    ensures
        digits_value(s.subrange(0, k)) <= digits_value(s),
    decreases s.len() - k,
{
    if k < s.len() {
        lemma_digits_value_grows(s, k + 1);
        assert(s.subrange(0, k + 1).drop_last() =~= s.subrange(0, k));
    } else {
        assert(s.subrange(0, k) =~= s);
    }
}

/// Reads a decimal `u64`; `None` unless the text is a non-empty run of ASCII
/// digits whose value fits.
pub fn parse_decimal(s: &str) -> (r: Option<u64>)
    ensures
        r == decimal_u64(s@),
{
    let n = s.unicode_len();
    if n == 0 {
        return None;
    }
    let mut value: u64 = 0;
    let mut i: usize = 0;
    while i < n
        invariant
            n == s@.len(),
            0 <= i <= n,
            all_digits(s@.subrange(0, i as int)),
            value as nat == digits_value(s@.subrange(0, i as int)),
        decreases n - i,
    {
        let c = s.get_char(i);
        assert(s@.subrange(0, i + 1).drop_last() =~= s@.subrange(0, i as int));
        if !('0' <= c && c <= '9') {
            assert(!all_digits(s@));
            return None;
        }
        let d = ((c as u32) - ('0' as u32)) as u64;
        if value > (u64::MAX - d) / 10 {
            proof {
                assert(digits_value(s@.subrange(0, i + 1)) > u64::MAX) by (nonlinear_arith)
                    requires
                        value > (u64::MAX - d) / 10,
                        d <= 9,
                        digits_value(s@.subrange(0, i + 1)) == value * 10 + d,
                ;
                lemma_digits_value_grows(s@, i + 1);
            }
            return None;
        }
        proof {
            assert(value * 10 + d <= u64::MAX) by (nonlinear_arith)
                requires
                    value <= (u64::MAX - d) / 10,
                    d <= 9,
            ;
        }
        value = value * 10 + d;
        i = i + 1;
        assert(all_digits(s@.subrange(0, i as int)));
    }
    assert(s@.subrange(0, n as int) =~= s@);
    Some(value)
}

/// Reads a positive decimal identifier.
pub fn parse_identifier(s: &str) -> (r: Option<u64>)
    ensures
        r == identifier_of(s@),
{
    match parse_decimal(s) {
        Some(v) => if v > 0 { Some(v) } else { None },
        None => None,
    }
}

/// Builds a message link from its three captured parts: each must be a positive
/// decimal identifier that fits in a `u64`.
pub fn message_link_from_parts(g: &str, c: &str, m: &str) -> (r: Result<(u64, u64, u64), MoveError>)
    ensures
        r == link_from_parts(g@, c@, m@),
{
    match (parse_identifier(g), parse_identifier(c), parse_identifier(m)) {
        (Some(gi), Some(ci), Some(mi)) => Ok((gi, ci, mi)),
        _ => Err(MoveError::UnresolvedLinkBoundary),
    }
}

/// The pattern of a message link: `discord.com/channels/<guild>/<channel>/<message>`.
pub open spec fn link_pattern() -> Seq<char> {
    "discord\\.com/channels/(\\d+)/(\\d+)/(\\d+)"@
}

/// Reads the guild, channel and message identifiers of a message link.
pub fn parse_message_link(link: &str) -> (r: Result<(u64, u64, u64), MoveError>)
    ensures
        r == link_of(captures3_of(link_pattern(), link@)),
{
    match captures3("discord\\.com/channels/(\\d+)/(\\d+)/(\\d+)", link) {
        Some((g, c, m)) => message_link_from_parts(g.as_str(), c.as_str(), m.as_str()),
        None => Err(MoveError::UnresolvedLinkBoundary),
    }
}

} // verus!
