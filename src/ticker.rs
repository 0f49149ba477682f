use vstd::prelude::*;

verus! {

/// The longest instrument code that is kept, in characters.
pub const MAX_TICKER_LEN: usize = 20;

/// An ASCII letter, an ASCII digit, `-` or `_`.
pub open spec fn ticker_char(c: char) -> bool {
    ||| ('a' <= c && c <= 'z')
    ||| ('A' <= c && c <= 'Z')
    ||| ('0' <= c && c <= '9')
    ||| c == '-'
    ||| c == '_'
}

/// The lower-case form of an ASCII upper-case letter; any other character is kept.
pub open spec fn ascii_lower(c: char) -> char {
    if 'A' <= c && c <= 'Z' {
        ((c as u32 + 32) as u8) as char
    } else {
        c
    }
}

/// The allowed characters of `s`, in order, lower-cased.
pub open spec fn kept_ticker_chars(s: Seq<char>) -> Seq<char>
    decreases s.len(),
{
    if s.len() == 0 {
        Seq::empty()
    } else if ticker_char(s.last()) {
        kept_ticker_chars(s.drop_last()).push(ascii_lower(s.last()))
    } else {
        kept_ticker_chars(s.drop_last())
    }
}

/// An instrument code as it is looked up: its first 20 characters, of which
/// the allowed ones are kept and lower-cased.
pub open spec fn sanitized(s: Seq<char>) -> Seq<char> {
    if s.len() <= MAX_TICKER_LEN {
        kept_ticker_chars(s)
    } else {
        kept_ticker_chars(s.take(MAX_TICKER_LEN as int))
    }
}

fn is_ticker_char(c: char) -> (r: bool)
    ensures
        r == ticker_char(c),
{
    (c >= 'a' && c <= 'z') || (c >= 'A' && c <= 'Z') || (c >= '0' && c <= '9') || c == '-' || c == '_'
}

fn to_ascii_lower(c: char) -> (r: char)
    ensures
        r == ascii_lower(c),
{
    if c >= 'A' && c <= 'Z' {
        ((c as u32 + 32) as u8) as char
    } else {
        c
    }
}

/// Truncates an instrument code to 20 characters, keeps only ASCII letters,
/// digits, `-` and `_`, and lower-cases it.
pub fn sanitize_ticker(ticker: String) -> (r: String)
    ensures
        r@ == sanitized(ticker@),
{
    let s = ticker.as_str();
    let n = s.unicode_len();
    let end: usize = if n < MAX_TICKER_LEN { n } else { MAX_TICKER_LEN };
    let ghost prefix = if ticker@.len() <= MAX_TICKER_LEN { ticker@ } else { ticker@.take(MAX_TICKER_LEN as int) };
    assert(prefix =~= ticker@.take(end as int));
    let mut out = String::new();
    let mut i: usize = 0;
    while i < end
        invariant
            end <= n,
            n == ticker@.len(),
            s@ == ticker@,
            i <= end,
            out@ == kept_ticker_chars(ticker@.take(i as int)),
        decreases end - i,
    {
        let c = s.get_char(i);
        assert(ticker@.take(i + 1).drop_last() =~= ticker@.take(i as int));
        if is_ticker_char(c) {
            out.push(to_ascii_lower(c));
        }
        i += 1;
    }
    out
}

} // verus!
