//! The header block in front of each frame.
//!
//! `httparse` reads the block and `atoi` reads the length that it names;
//! finding the length header among the lines is done here.

use crate::json::{decimal, same_text};
use vstd::prelude::*;

verus! {

/// `httparse::Error`, carried as it comes: nothing is known of its inside.
#[verifier::external_type_specification]
#[verifier::external_body]
pub struct ExHeaderError(httparse::Error);

/// How many header lines a block may have.
pub const MAX_HEADERS: usize = 4;

/// One header line: its name and its value without surrounding blanks.
#[derive(Debug, Clone, PartialEq, Eq)]
pub struct Header {
    pub name: String,
    pub value: Vec<u8>,
}

impl View for Header {
    type V = (Seq<char>, Seq<u8>);

    open spec fn view(&self) -> (Seq<char>, Seq<u8>) {
        (self.name@, self.value@)
    }
}

/// The names and values of a list of header lines.
pub open spec fn headers_value(headers: Seq<Header>) -> Seq<(Seq<char>, Seq<u8>)> {
    headers.map_values(|h: Header| h@)
}

/// What `httparse` makes of the front of a buffer.
pub enum HeaderBlock {
    /// The bytes are no header block.
    Malformed(httparse::Error),
    /// The block does not end within the buffer.
    Partial,
    /// The block takes the first `0` bytes and holds the lines `1`.
    Complete(usize, Seq<(Seq<char>, Seq<u8>)>),
}

/// What `httparse::parse_headers` returns for `buffer` when it is given room
/// for `capacity` header lines.
pub uninterp spec fn header_block(buffer: Seq<u8>, capacity: usize) -> HeaderBlock;

/// Reads the header block at the front of `buffer`.
///
/// Calls `httparse::parse_headers` with `capacity` empty header slots and
/// copies the lines that it filled. The contract names the outcome and adds
/// what the source shows of a complete block: the count of bytes it takes is
/// a position inside the buffer.
#[verifier::external_body]
pub(crate) fn read_header_block(buffer: &[u8], capacity: usize) -> (r: Result<
    Option<(usize, Vec<Header>)>,
    httparse::Error,
>)
    requires
        capacity <= 1024,
    ensures
        r matches Err(e) ==> header_block(buffer@, capacity) == HeaderBlock::Malformed(e),
        r matches Ok(None) ==> header_block(buffer@, capacity) == HeaderBlock::Partial,
        r matches Ok(Some((n, headers))) ==> header_block(buffer@, capacity)
            == HeaderBlock::Complete(n, headers_value(headers@)) && n <= buffer.len(),
{
    let mut slots = vec![httparse::EMPTY_HEADER; capacity];
    match httparse::parse_headers(buffer, &mut slots)? {
        httparse::Status::Partial => Ok(None),
        httparse::Status::Complete((n, lines)) => {
            let copy = |h: &httparse::Header| Header { name: h.name.to_owned(), value: h.value.to_vec() };
            Ok(Some((n, lines.iter().map(copy).collect())))
        },
    }
}

/// What is wrong with a header block, in the kinds that `httparse` tells
/// apart.
#[derive(Debug, Clone, Copy, PartialEq, Eq, Structural)]
pub enum HeaderFault {
    /// A byte that no header name holds.
    HeaderName,
    /// A byte that no header value holds.
    HeaderValue,
    /// A line that does not end as a line must.
    NewLine,
    /// A byte that no response status holds.
    Status,
    /// A byte where a token must stand.
    Token,
    /// More header lines than there is room for.
    TooManyHeaders,
    /// A byte that no HTTP version holds.
    Version,
}

impl HeaderFault {
    /// The fault as `httparse` words it.
    pub open spec fn words(self) -> Seq<char> {
        match self {
            HeaderFault::HeaderName => "invalid header name"@,
            HeaderFault::HeaderValue => "invalid header value"@,
            HeaderFault::NewLine => "invalid new line"@,
            HeaderFault::Status => "invalid response status"@,
            HeaderFault::Token => "invalid token"@,
            HeaderFault::TooManyHeaders => "too many headers"@,
            HeaderFault::Version => "invalid HTTP version"@,
        }
    }
}

/// The kind of fault that an error of `httparse` stands for: the variant of
/// the same name.
pub uninterp spec fn header_fault_of(error: httparse::Error) -> HeaderFault;

/// What `httparse` says of a malformed header block: the words of the
/// fault's kind.
pub open spec fn header_fault_words(error: httparse::Error) -> Seq<char> {
    header_fault_of(error).words()
}

/// Tells the kind of a fault.
///
/// Matches on the variants of `httparse::Error`, one for one. The contract
/// only names the outcome.
#[verifier::external_body]
pub(crate) fn header_fault_kind(error: &httparse::Error) -> (r: HeaderFault)
    ensures
        r == header_fault_of(*error),
{
    match error {
        httparse::Error::HeaderName => HeaderFault::HeaderName,
        httparse::Error::HeaderValue => HeaderFault::HeaderValue,
        httparse::Error::NewLine => HeaderFault::NewLine,
        httparse::Error::Status => HeaderFault::Status,
        httparse::Error::Token => HeaderFault::Token,
        httparse::Error::TooManyHeaders => HeaderFault::TooManyHeaders,
        httparse::Error::Version => HeaderFault::Version,
    }
}

/// What `httparse` says of a malformed header block.
///
/// Calls `to_string` on the error, which writes one fixed string for each
/// variant: the contract states them, by the fault's kind.
#[verifier::external_body]
pub(crate) fn header_error_text(error: &httparse::Error) -> (r: String)
    ensures
        r@ == header_fault_of(*error).words(),
{
    error.to_string()
}

/// Whether a byte is an ASCII digit.
pub open spec fn is_digit(b: u8) -> bool {
    48 <= b <= 57
}

/// How many ASCII digits `text` starts with.
pub open spec fn digit_run(text: Seq<u8>) -> nat
    decreases text.len(),
{
    if text.len() > 0 && is_digit(text[0]) {
        1 + digit_run(text.skip(1))
    } else {
        0
    }
}

/// The number that a run of ASCII digits writes in base ten.
pub open spec fn digits_value(digits: Seq<u8>) -> nat
    decreases digits.len(),
{
    if digits.len() == 0 {
        0
    } else {
        10 * digits_value(digits.drop_last()) + (digits.last() - 48) as nat
    }
}

/// The number that `text` starts with.
///
/// A sign may come first, then as many digits as there are; what follows
/// them is ignored. There is no number where the text starts with neither,
/// where the value does not fit `usize`, and where a minus sign stands in
/// front of anything but zeros.
pub open spec fn leading_number(text: Seq<u8>) -> Option<usize> {
    let signed = text.len() > 0 && (text[0] == 43 || text[0] == 45);
    let rest = if signed {
        text.skip(1)
    } else {
        text
    };
    let run = digit_run(rest);
    let value = digits_value(rest.take(run as int));
    if !signed && run == 0 {
        None
    } else if signed && text[0] == 45 {
        if value == 0 {
            Some(0usize)
        } else {
            None
        }
    } else if value <= usize::MAX {
        Some(value as usize)
    } else {
        None
    }
}

/// Reads the number that `text` starts with.
///
/// Calls `atoi::atoi` for a `usize`: an optional sign, then digits with
/// checked arithmetic, `None` where no byte was used or the value left the
/// range.
#[verifier::external_body]
pub(crate) fn read_leading_number(text: &[u8]) -> (r: Option<usize>)
    ensures
        r == leading_number(text@),
{
    atoi::atoi::<usize>(text)
}

/// The value of the first header line named `Content-Length`.
pub open spec fn content_length_value(headers: Seq<(Seq<char>, Seq<u8>)>) -> Option<Seq<u8>>
    decreases headers.len(),
{
    if headers.len() == 0 {
        None
    } else if headers[0].0 == "Content-Length"@ {
        Some(headers[0].1)
    } else {
        content_length_value(headers.skip(1))
    }
}

/// Finds the value of the first header line named `Content-Length`; the
/// name is matched letter for letter.
pub fn find_content_length(headers: &Vec<Header>) -> (r: Option<usize>)
    ensures
        r matches Some(i) ==> i < headers.len() && content_length_value(headers_value(headers@))
            == Some(headers[i as int].value@),
        r is None ==> content_length_value(headers_value(headers@)) is None,
{
    let ghost all = headers_value(headers@);
    let mut k: usize = 0;
    assert(all.skip(0) =~= all);
    while k < headers.len()
        invariant
            k <= headers.len(),
            all == headers_value(headers@),
            content_length_value(all) == content_length_value(all.skip(k as int)),
        decreases headers.len() - k,
    {
        assert(all.skip(k as int).skip(1) =~= all.skip(k + 1));
        assert(all.skip(k as int)[0] == headers[k as int]@);
        if same_text(headers[k].name.as_str(), "Content-Length") {
            return Some(k);
        }
        k += 1;
    }
    None
}

proof fn lemma_decimal_is_digits(n: nat)
    ensures
        decimal(n).len() >= 1,
        forall|i: int| 0 <= i < decimal(n).len() ==> is_digit(#[trigger] decimal(n)[i]),
        digits_value(decimal(n)) == n,
    decreases n,
{
    if n >= 10 {
        lemma_decimal_is_digits(n / 10);
        assert(decimal(n).drop_last() =~= decimal(n / 10));
        assert(decimal(n).last() == (48 + n % 10) as u8);
        assert(10 * (n / 10) + n % 10 == n);
    } else {
        assert(decimal(n).drop_last() =~= Seq::<u8>::empty());
        assert(digits_value(Seq::<u8>::empty()) == 0);
        assert(decimal(n).last() == (48 + n) as u8);
    }
}

proof fn lemma_run_of_digits(text: Seq<u8>)
    requires
        forall|i: int| 0 <= i < text.len() ==> is_digit(#[trigger] text[i]),
    ensures
        digit_run(text) == text.len(),
    decreases text.len(),
{
    if text.len() > 0 {
        assert forall|i: int| 0 <= i < text.skip(1).len() implies is_digit(
            #[trigger] text.skip(1)[i],
        ) by {
            assert(text.skip(1)[i] == text[i + 1]);
        }
        lemma_run_of_digits(text.skip(1));
    }
}

/// A length that is written in decimal digits is read back as written.
pub proof fn written_length_is_read(n: usize)
    ensures
        leading_number(decimal(n as nat)) == Some(n),
{
    let text = decimal(n as nat);
    lemma_decimal_is_digits(n as nat);
    lemma_run_of_digits(text);
    assert(is_digit(text[0]));
    assert(text.take(text.len() as int) =~= text);
}

} // verus!
