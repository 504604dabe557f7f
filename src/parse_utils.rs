use vstd::prelude::*;
use vstd::string::StringSliceAdditionalSpecFns;
use vstd::utf8::{decode_utf8, encode_utf8_decode_utf8, valid_utf8};

use crate::components;

verus! {

/// What went wrong while reading input.
#[derive(Debug, Clone, Copy, PartialEq, Eq)]
pub enum ParseError<'a> {
    /// The input ended; `needed` bytes were asked for.
    UnexpectedEof { needed: usize },
    /// The bytes of a number are not UTF-8.
    Utf8Error,
    /// The text of a number is not a decimal integer.
    InvalidNumber,
    /// A value lies outside its range.
    RangeError,
    /// A negative all-zero offset where the grammar forbids it.
    NegativeZero,
    /// The input at this point does not match.
    Fail(&'a [u8]),
}

/// View of a [`ParseError`], with the unmatched input as a sequence.
pub enum Failure {
    UnexpectedEof { needed: nat },
    Utf8Error,
    InvalidNumber,
    RangeError,
    NegativeZero,
    Fail(Seq<u8>),
}

impl<'a> View for ParseError<'a> {
    type V = Failure;

    open spec fn view(&self) -> Failure {
        match self {
            ParseError::UnexpectedEof { needed } => Failure::UnexpectedEof { needed: *needed as nat },
            ParseError::Utf8Error => Failure::Utf8Error,
            ParseError::InvalidNumber => Failure::InvalidNumber,
            ParseError::RangeError => Failure::RangeError,
            ParseError::NegativeZero => Failure::NegativeZero,
            ParseError::Fail(x) => Failure::Fail(x@),
        }
    }
}

impl ParseError<'static> {
    /// The parse error that a component error stands for.
    pub fn from_component_error(value: components::Error) -> (r: Self)
        ensures
            r@ == match value {
                components::Error::RangeError => Failure::RangeError,
                components::Error::ParseIntError => Failure::InvalidNumber,
                components::Error::ParseError => Failure::Fail(Seq::empty()),
            },
    {
        match value {
            components::Error::RangeError => ParseError::RangeError,
            components::Error::ParseIntError => ParseError::InvalidNumber,
            components::Error::ParseError => {
                let none: &'static [u8] = &[];
                proof {
                    assert(none@ =~= Seq::<u8>::empty());
                }
                ParseError::Fail(none)
            },
        }
    }
}

impl<'a> From<components::Error> for ParseError<'a> {
    fn from(value: components::Error) -> (r: Self) {
        ParseError::from_component_error(value)
    }
}

impl<'a> vstd::std_specs::convert::FromSpecImpl<components::Error> for ParseError<'a> {
    open spec fn obeys_from_spec() -> bool {
        false
    }

    open spec fn from_spec(v: components::Error) -> Self {
        ParseError::RangeError
    }
}

/// A parsed value and the input after it, or the error.
pub type ParseResult<'a, T> = Result<(T, &'a [u8]), ParseError<'a>>;

/// The rest of the input after a step, or the failure, as sequences.
pub open spec fn rest_view<'a>(r: Result<&'a [u8], ParseError<'a>>) -> Result<Seq<u8>, Failure> {
    match r {
        Ok(rest) => Ok(rest@),
        Err(e) => Err(e@),
    }
}

/// Model of [`take_n`]: the first `n` bytes and the rest.
pub open spec fn take_n_model(n: nat, s: Seq<u8>) -> Result<(Seq<u8>, Seq<u8>), Failure> {
    if s.len() < n {
        Err(Failure::UnexpectedEof { needed: n })
    } else {
        Ok((s.take(n as int), s.skip(n as int)))
    }
}

/// Whether `s` begins with `t`.
pub open spec fn starts_with(s: Seq<u8>, t: Seq<u8>) -> bool {
    t.len() <= s.len() && s.take(t.len() as int) == t
}

/// Model of [`tag`]: the input after the literal `t`.
pub open spec fn tag_model(t: Seq<u8>, s: Seq<u8>) -> Result<Seq<u8>, Failure> {
    if s.len() < t.len() {
        Err(Failure::UnexpectedEof { needed: t.len() })
    } else if s.take(t.len() as int) != t {
        Err(Failure::Fail(s))
    } else {
        Ok(s.skip(t.len() as int))
    }
}

/// Index of the first of `tags` at or after `k` that `s` begins with.
pub open spec fn first_tag(tags: Seq<Seq<u8>>, s: Seq<u8>, k: nat) -> Option<nat>
    decreases tags.len() - k,
{
    if k >= tags.len() {
        None
    } else if starts_with(s, tags[k as int]) {
        Some(k)
    } else {
        first_tag(tags, s, k + 1)
    }
}

/// Model of [`any_of`]: the index of the first tag that matches, and the input after it.
pub open spec fn any_of_model(tags: Seq<Seq<u8>>, s: Seq<u8>) -> Result<(nat, Seq<u8>), Failure> {
    match first_tag(tags, s, 0) {
        Some(k) => Ok((k, s.skip(tags[k as int].len() as int))),
        None => Err(Failure::Fail(s)),
    }
}

/// Whether a byte is an ASCII decimal digit.
pub open spec fn is_digit_byte(b: u8) -> bool {
    48 <= b <= 57
}

/// Whether a character is an ASCII decimal digit.
pub open spec fn is_digit_char(c: char) -> bool {
    '0' <= c <= '9'
}

/// Value of a run of ASCII digit characters.
pub open spec fn chars_value(s: Seq<char>) -> nat
    decreases s.len(),
{
    if s.len() == 0 {
        0
    } else {
        chars_value(s.drop_last()) * 10 + ((s.last() as u32 - 48) as nat)
    }
}

/// Value of a run of ASCII digit bytes.
pub open spec fn bytes_value(s: Seq<u8>) -> nat
    decreases s.len(),
{
    if s.len() == 0 {
        0
    } else {
        bytes_value(s.drop_last()) * 10 + ((s.last() - 48) as nat)
    }
}

/// The characters after an optional leading '+'.
pub open spec fn unsigned_part(s: Seq<char>) -> Seq<char> {
    if s.len() > 0 && s[0] == '+' {
        s.drop_first()
    } else {
        s
    }
}

/// Whether `s` is the text of a `u64`: an optional '+' and at least one ASCII digit,
/// with a value that fits.
pub open spec fn is_u64_text(s: Seq<char>) -> bool {
    let d = unsigned_part(s);
    &&& d.len() > 0
    &&& forall|i: int| 0 <= i < d.len() ==> is_digit_char(#[trigger] d[i])
    &&& chars_value(d) <= u64::MAX
}

/// Model of [`parse_n_digits`]: `n` bytes read as UTF-8 text of a decimal number.
pub open spec fn digits_model(n: nat, s: Seq<u8>) -> Result<(u64, Seq<u8>), Failure> {
    if s.len() < n {
        Err(Failure::UnexpectedEof { needed: n })
    } else if !valid_utf8(s.take(n as int)) {
        Err(Failure::Utf8Error)
    } else if !is_u64_text(decode_utf8(s.take(n as int))) {
        Err(Failure::InvalidNumber)
    } else {
        Ok((chars_value(unsigned_part(decode_utf8(s.take(n as int)))) as u64, s.skip(n as int)))
    }
}

/// Length of the run of ASCII digits at the start of `s`.
pub open spec fn digit_run(s: Seq<u8>) -> nat
    decreases s.len(),
{
    if s.len() > 0 && is_digit_byte(s[0]) {
        1 + digit_run(s.drop_first())
    } else {
        0
    }
}

/// Relies on `core::str::from_utf8`: it succeeds exactly on valid UTF-8, and the
/// text holds the same bytes.
#[verifier::external_body]
fn str_from_utf8(b: &[u8]) -> (r: Option<&str>)
    ensures
        r is Some <==> valid_utf8(b@),
        r matches Some(s) ==> s.spec_bytes() == b@,
{
    core::str::from_utf8(b).ok()
}

/// Relies on `str::parse::<u64>` (`u64::from_str_radix` in base 10): it accepts an
/// optional '+' and then ASCII digits only, at least one, and fails on overflow.
#[verifier::external_body]
pub(crate) fn str_parse_u64(s: &str) -> (r: Option<u64>)
    ensures
        r is Some <==> is_u64_text(s@),
        r matches Some(v) ==> v == chars_value(unsigned_part(s@)),
{
    s.parse::<u64>().ok()
}

/// The first `n` bytes of `i` and the bytes after them.
pub fn take_n<'a>(n: usize, i: &'a [u8]) -> (r: ParseResult<'a, &'a [u8]>)
    ensures
        match r {
            Ok((a, b)) => take_n_model(n as nat, i@) == Ok::<_, Failure>((a@, b@)),
            Err(e) => take_n_model(n as nat, i@) == Err::<(Seq<u8>, Seq<u8>), _>(e@),
        },
{
    if i.len() < n {
        return Err(ParseError::UnexpectedEof { needed: n });
    }
    let (a, b) = i.split_at(n);
    proof {
        assert(a@ =~= i@.take(n as int));
        assert(b@ =~= i@.skip(n as int));
    }
    Ok((a, b))
}

/// The input after the literal `t`; `Fail` with the input if it does not begin with `t`.
pub fn tag<'a>(t: &[u8], i: &'a [u8]) -> (r: ParseResult<'a, ()>)
    ensures
        match r {
            Ok((_, rest)) => tag_model(t@, i@) == Ok::<_, Failure>(rest@),
            Err(e) => tag_model(t@, i@) == Err::<Seq<u8>, _>(e@),
        },
{
    if i.len() < t.len() {
        return Err(ParseError::UnexpectedEof { needed: t.len() });
    }
    let (head, rest) = i.split_at(t.len());
    if !bytes_equal(head, t) {
        return Err(ParseError::Fail(i));
    }
    proof {
        assert(head@ =~= i@.take(t@.len() as int));
        assert(rest@ =~= i@.skip(t@.len() as int));
    }
    Ok(((), rest))
}

/// Whether two byte slices hold the same bytes.
fn bytes_equal(a: &[u8], b: &[u8]) -> (r: bool)
    ensures
        r == (a@ == b@),
{
    if a.len() != b.len() {
        return false;
    }
    let mut k: usize = 0;
    while k < a.len()
        invariant
            a@.len() == b@.len(),
            0 <= k <= a@.len(),
            forall|j: int| 0 <= j < k ==> a@[j] == b@[j],
        decreases a@.len() - k,
    {
        if a[k] != b[k] {
            return false;
        }
        k = k + 1;
    }
    proof {
        assert(a@ =~= b@);
    }
    true
}

/// The index of the first of `tags` that `i` begins with, and the input after it;
/// `Fail` with the input if none does.
pub fn any_of<'a>(tags: &[&[u8]], i: &'a [u8]) -> (r: ParseResult<'a, usize>)
    ensures
        match r {
            Ok((k, rest)) => any_of_model(tags@.map_values(|t: &[u8]| t@), i@) == Ok::<_, Failure>(
                (k as nat, rest@),
            ),
            Err(e) => any_of_model(tags@.map_values(|t: &[u8]| t@), i@) == Err::<(nat, Seq<u8>), _>(
                e@,
            ),
        },
{
    let ghost ts = tags@.map_values(|t: &[u8]| t@);
    let mut idx: usize = 0;
    while idx < tags.len()
        invariant
            0 <= idx <= tags@.len(),
            ts == tags@.map_values(|t: &[u8]| t@),
            first_tag(ts, i@, 0) == first_tag(ts, i@, idx as nat),
        decreases tags@.len() - idx,
    {
        let t = tags[idx];
        if t.len() <= i.len() {
            let (head, rest) = i.split_at(t.len());
            if bytes_equal(head, t) {
                proof {
                    assert(head@ =~= i@.take(t@.len() as int));
                    assert(rest@ =~= i@.skip(t@.len() as int));
                    assert(ts[idx as int] == t@);
                }
                return Ok((idx, rest));
            }
            proof {
                assert(head@ =~= i@.take(t@.len() as int));
            }
        }
        proof {
            assert(ts[idx as int] == t@);
        }
        idx = idx + 1;
    }
    Err(ParseError::Fail(i))
}

/// Whether `n` is an ASCII decimal digit.
pub fn is_digit(n: u8) -> (r: bool)
    ensures
        r == is_digit_byte(n),
{
    48 <= n && n <= 57
}

/// The longest prefix of `i` whose bytes satisfy `cond`, and the rest; the input must
/// not be empty, though the prefix may be.
pub fn take_while<'a, F: Fn(u8) -> bool>(cond: F, i: &'a [u8]) -> (r: ParseResult<'a, &'a [u8]>)
    requires
        forall|b: u8| cond.requires((b,)),
    ensures
        i@.len() == 0 <==> (r is Err),
        r matches Err(e) ==> (e == ParseError::UnexpectedEof { needed: 1 }),
        r matches Ok((a, b)) ==> (i@ == a@ + b@),
        r matches Ok((a, b)) ==> (forall|k: int|
            0 <= k < a@.len() ==> cond.ensures((a@[k],), true)),
        r matches Ok((a, b)) ==> (b@.len() > 0 ==> cond.ensures((b@[0],), false)),
{
    if i.len() == 0 {
        return Err(ParseError::UnexpectedEof { needed: 1 });
    }
    let mut idx: usize = 0;
    loop
        invariant
            0 <= idx <= i@.len(),
            forall|b: u8| cond.requires((b,)),
            forall|k: int| 0 <= k < idx ==> cond.ensures((i@[k],), true),
        ensures
            0 <= idx <= i@.len(),
            forall|k: int| 0 <= k < idx ==> cond.ensures((i@[k],), true),
            idx < i@.len() ==> cond.ensures((i@[idx as int],), false),
        decreases i@.len() - idx,
    {
        if idx >= i.len() {
            break;
        }
        if !cond(i[idx]) {
            break;
        }
        idx = idx + 1;
    }
    let (a, b) = i.split_at(idx);
    proof {
        assert(i@ =~= a@ + b@);
    }
    Ok((a, b))
}

/// A run of ASCII digits is as long as `digit_run` says, when a non-digit or the end
/// follows it.
pub proof fn lemma_digit_run(a: Seq<u8>, b: Seq<u8>)
    requires
        forall|k: int| 0 <= k < a.len() ==> is_digit_byte(#[trigger] a[k]),
        b.len() > 0 ==> !is_digit_byte(b[0]),
    ensures
        digit_run(a + b) == a.len(),
    decreases a.len(),
{
    if a.len() == 0 {
        assert(a + b =~= b);
    } else {
        assert((a + b).drop_first() =~= a.drop_first() + b);
        lemma_digit_run(a.drop_first(), b);
    }
}

/// `n` bytes read as the decimal text of a number.
pub fn parse_n_digits<'a>(n: usize, input: &'a [u8]) -> (r: ParseResult<'a, u64>)
    ensures
        match r {
            Ok((v, rest)) => digits_model(n as nat, input@) == Ok::<_, Failure>((v, rest@)),
            Err(e) => digits_model(n as nat, input@) == Err::<(u64, Seq<u8>), _>(e@),
        },
{
    let (digits, rest) = take_n(n, input)?;
    let text = match str_from_utf8(digits) {
        Some(t) => t,
        None => return Err(ParseError::Utf8Error),
    };
    proof {
        encode_utf8_decode_utf8(text@);
    }
    match str_parse_u64(text) {
        Some(v) => Ok((v, rest)),
        None => Err(ParseError::InvalidNumber),
    }
}

} // verus!
