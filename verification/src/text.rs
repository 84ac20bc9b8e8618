//! Texts as they cross the boundary: a buffer of bytes that ends at its first
//! zero byte and has to be valid UTF-8 before anything reads it.

use crate::error::{failure, BoundaryError, ErrorKind, ErrorView};
use vstd::prelude::*;
use vstd::slice::slice_subrange;
use vstd::utf8::{decode_utf8, valid_utf8};

verus! {

/// Whether the text in `buffer` ends at index `i`: no byte before `i` is zero,
/// and `i` is the index of a zero byte or the end of the buffer.
pub open spec fn terminator_at(buffer: Seq<u8>, i: int) -> bool {
    &&& 0 <= i <= buffer.len()
    &&& forall|j: int| 0 <= j < i ==> buffer[j] != 0
    &&& i < buffer.len() ==> buffer[i] == 0
}

/// The index at which the text in `buffer` ends.
pub open spec fn content_length(buffer: Seq<u8>) -> int {
    choose|i: int| terminator_at(buffer, i)
}

/// The bytes of the text in `buffer`: those before its first zero byte, all of
/// them where there is none.
pub open spec fn content(buffer: Seq<u8>) -> Seq<u8> {
    buffer.take(content_length(buffer))
}

/// The text in `buffer`, where its bytes are valid UTF-8.
pub open spec fn text_of(buffer: Seq<u8>) -> Option<Seq<char>> {
    if valid_utf8(content(buffer)) {
        Some(decode_utf8(content(buffer)))
    } else {
        None
    }
}

/// The character of a decimal digit.
pub open spec fn digit_char(d: nat) -> char {
    if d == 0 {
        '0'
    } else if d == 1 {
        '1'
    } else if d == 2 {
        '2'
    } else if d == 3 {
        '3'
    } else if d == 4 {
        '4'
    } else if d == 5 {
        '5'
    } else if d == 6 {
        '6'
    } else if d == 7 {
        '7'
    } else if d == 8 {
        '8'
    } else {
        '9'
    }
}

/// The decimal numeral of `n`, without leading zeros.
pub open spec fn decimal(n: nat) -> Seq<char>
    decreases n,
{
    if n < 10 {
        seq![digit_char(n)]
    } else {
        decimal(n / 10).push(digit_char(n % 10))
    }
}

/// A text ends at one index only.
pub proof fn lemma_terminator_unique(buffer: Seq<u8>, i: int, j: int)
    requires
        terminator_at(buffer, i),
        terminator_at(buffer, j),
    ensures
        i == j,
{
    if i < j {
        assert(buffer[i] != 0);
    } else if j < i {
        assert(buffer[j] != 0);
    }
}

/// The text of a buffer ends where `content_length` says, and nowhere else.
pub proof fn lemma_content_length(buffer: Seq<u8>, i: int)
    requires
        terminator_at(buffer, i),
    ensures
        content_length(buffer) == i,
        content(buffer) == buffer.take(i),
{
    lemma_terminator_unique(buffer, i, content_length(buffer));
}

/// The bytes of `buffer` before its first zero byte.
pub fn content_of<'a>(buffer: &'a [u8]) -> (bytes: &'a [u8])
    ensures
        bytes@ == content(buffer@),
{
    let mut i: usize = 0;
    while i < buffer.len() && buffer[i] != 0
        invariant
            i <= buffer@.len(),
            forall|j: int| 0 <= j < i ==> buffer@[j] != 0,
        decreases buffer@.len() - i,
    {
        i = i + 1;
    }
    proof {
        lemma_content_length(buffer@, i as int);
    }
    slice_subrange(buffer, 0, i)
}

/// `core::str::from_utf8`: the bytes as a text. The call succeeds exactly on
/// valid UTF-8 and then gives the characters that the bytes encode; the error
/// it gives otherwise is dropped.
#[verifier::external_body]
fn from_utf8<'a>(bytes: &'a [u8]) -> (text: Option<&'a str>)
    ensures
        text is Some <==> valid_utf8(bytes@),
        text matches Some(s) ==> s@ == decode_utf8(bytes@),
{
    core::str::from_utf8(bytes).ok()
}

/// The text in `buffer`, or `None` where its bytes are not valid UTF-8.
pub fn read_text<'a>(buffer: &'a [u8]) -> (text: Option<&'a str>)
    ensures
        text is Some <==> text_of(buffer@) is Some,
        text matches Some(s) ==> text_of(buffer@) == Some(s@),
{
    from_utf8(content_of(buffer))
}

/// The text of one decimal digit.
fn digit_text(d: u8) -> (text: &'static str)
    requires
        d < 10,
    ensures
        text@ == seq![digit_char(d as nat)],
{
    proof {
        reveal_strlit("0");
        reveal_strlit("1");
        reveal_strlit("2");
        reveal_strlit("3");
        reveal_strlit("4");
        reveal_strlit("5");
        reveal_strlit("6");
        reveal_strlit("7");
        reveal_strlit("8");
        reveal_strlit("9");
    }
    let text = if d == 0 {
        "0"
    } else if d == 1 {
        "1"
    } else if d == 2 {
        "2"
    } else if d == 3 {
        "3"
    } else if d == 4 {
        "4"
    } else if d == 5 {
        "5"
    } else if d == 6 {
        "6"
    } else if d == 7 {
        "7"
    } else if d == 8 {
        "8"
    } else {
        "9"
    };
    assert(text@ =~= seq![digit_char(d as nat)]);
    text
}

/// Appends the decimal numeral of `n` to `out`.
pub fn append_decimal(out: &mut String, n: u16)
    ensures
        final(out)@ == old(out)@ + decimal(n as nat),
    decreases n,
{
    if n >= 10 {
        append_decimal(out, n / 10);
    }
    out.append(digit_text((n % 10) as u8));
    assert(out@ =~= old(out)@ + decimal(n as nat));
}

/// The text `first` followed by the text `second`.
pub fn joined(first: &str, second: &str) -> (text: String)
    ensures
        text@ == first@ + second@,
{
    let mut text = String::from_str(first);
    text.append(second);
    text
}

/// A buffer that may be absent, by the bytes it holds.
pub open spec fn buffer_view(buffer: Option<&[u8]>) -> Option<Seq<u8>> {
    match buffer {
        None => None,
        Some(bytes) => Some(bytes@),
    }
}

/// A text that the caller has to supply: the text in the buffer, or an
/// invalid argument with the message `absent` where there is no buffer and
/// with the message `malformed` where the buffer holds no valid text.
pub open spec fn required_text(buffer: Option<Seq<u8>>, absent: Seq<char>, malformed: Seq<char>)
    -> Result<Seq<char>, ErrorView> {
    match buffer {
        None => Err(failure(ErrorKind::InvalidArgument, absent)),
        Some(bytes) => match text_of(bytes) {
            None => Err(failure(ErrorKind::InvalidArgument, malformed)),
            Some(text) => Ok(text),
        },
    }
}

/// The result of reading a required text, by its views.
pub open spec fn required_view(result: Result<&str, BoundaryError>) -> Result<
    Seq<char>,
    ErrorView,
> {
    match result {
        Ok(text) => Ok(text@),
        Err(e) => Err(e@),
    }
}

/// Reads a text that the caller has to supply.
pub fn require_text<'a>(buffer: Option<&'a [u8]>, absent: &str, malformed: &str) -> (result: Result<
    &'a str,
    BoundaryError,
>)
    ensures
        required_view(result) == required_text(buffer_view(buffer), absent@, malformed@),
{
    match buffer {
        None => Err(BoundaryError::new(ErrorKind::InvalidArgument, absent)),
        Some(bytes) => match read_text(bytes) {
            None => Err(BoundaryError::new(ErrorKind::InvalidArgument, malformed)),
            Some(text) => Ok(text),
        },
    }
}

} // verus!
