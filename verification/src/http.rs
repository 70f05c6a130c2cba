use vstd::prelude::*;

use crate::receive::ReceiveState;
use crate::status::{STATUS_INVALID_MESSAGE, STATUS_INVALID_PARAMETER, STATUS_NOT_FOUND};

verus! {

/// How many headers a response may carry before it is refused.
pub const MAX_RESPONSE_HEADERS: usize = 16;

/// A header of a parsed response.
pub struct HttpHeader {
    pub name: String,
    pub value: Vec<u8>,
}

/// The ghost image of an [`HttpHeader`].
pub struct HttpHeaderView {
    pub name: Seq<char>,
    pub value: Seq<u8>,
}

impl View for HttpHeader {
    type V = HttpHeaderView;

    open spec fn view(&self) -> HttpHeaderView {
        HttpHeaderView { name: self.name@, value: self.value@ }
    }
}

/// What parsing the head of an HTTP response gave.
pub enum ParsedResponse {
    /// The head is complete: its length in bytes and its headers, in order.
    Complete { header_len: usize, headers: Vec<HttpHeader> },
    /// More bytes are needed to finish the head.
    Partial,
    /// The bytes are not a valid response head.
    Invalid,
}

/// The ghost image of a [`ParsedResponse`].
pub enum ParsedResponseView {
    Complete { header_len: usize, headers: Seq<HttpHeaderView> },
    Partial,
    Invalid,
}

impl View for ParsedResponse {
    type V = ParsedResponseView;

    open spec fn view(&self) -> ParsedResponseView {
        match self {
            ParsedResponse::Complete { header_len, headers } => ParsedResponseView::Complete {
                header_len: *header_len,
                headers: headers@.map_values(|h: HttpHeader| h@),
            },
            ParsedResponse::Partial => ParsedResponseView::Partial,
            ParsedResponse::Invalid => ParsedResponseView::Invalid,
        }
    }
}

/// What `httparse::Response::parse` makes of `buffer` with room for
/// `max_headers` headers.
pub uninterp spec fn parsed_response(buffer: Seq<u8>, max_headers: usize) -> ParsedResponseView;

/// Parses the head of an HTTP response with `httparse::Response::parse`,
/// given room for `max_headers` headers. The contract claims only that the
/// outcome is the one that function gives on these bytes: complete with the
/// head's length and the headers in order, partial, or an error (an invalid
/// byte, or more headers than there is room for).
#[verifier::external_body]
fn parse_response(buffer: &[u8], max_headers: usize) -> (r: ParsedResponse)
    ensures
        r@ == parsed_response(buffer@, max_headers),
{
    let mut headers = vec![httparse::EMPTY_HEADER; max_headers];
    let mut response = httparse::Response::new(&mut headers);
    match response.parse(buffer) {
        Ok(httparse::Status::Complete(header_len)) => ParsedResponse::Complete {
            header_len,
            headers: response.headers.iter().map(|h| HttpHeader {
                name: h.name.to_string(),
                value: h.value.to_vec(),
            }).collect(),
        },
        Ok(httparse::Status::Partial) => ParsedResponse::Partial,
        Err(_) => ParsedResponse::Invalid,
    }
}

/// Whether `b` is an ASCII decimal digit.
pub open spec fn is_digit(b: u8) -> bool {
    48 <= b <= 57
}

/// The value of a string of decimal digits.
pub open spec fn digits_value(digits: Seq<u8>) -> nat
    decreases digits.len(),
{
    if digits.len() == 0 {
        0
    } else {
        digits_value(digits.drop_last()) * 10 + (digits.last() - 48) as nat
    }
}

/// The digits of an unsigned number: a leading `+` is dropped.
pub open spec fn unsigned_digits(text: Seq<u8>) -> Seq<u8> {
    if text.len() > 0 && text[0] == 43 {
        text.drop_first()
    } else {
        text
    }
}

/// The `usize` that `text` reads as, as `str::from_utf8` then
/// `usize::from_str` read it: an optional `+`, then at least one decimal
/// digit and nothing else, with a value that fits.
pub open spec fn parsed_usize(text: Seq<u8>) -> Option<usize> {
    let digits = unsigned_digits(text);
    if digits.len() > 0 && (forall|i: int| 0 <= i < digits.len() ==> is_digit(#[trigger] digits[i]))
        && digits_value(digits) <= usize::MAX {
        Some(digits_value(digits) as usize)
    } else {
        None
    }
}

/// A string of digits is worth at least any of its prefixes.
proof fn lemma_digits_value_grows(digits: Seq<u8>, k: int)
    requires
        0 <= k <= digits.len(),
        forall|i: int| 0 <= i < digits.len() ==> is_digit(#[trigger] digits[i]),
    ensures
        digits_value(digits.take(k)) <= digits_value(digits),
    decreases digits.len(),
{
    if k < digits.len() {
        let rest = digits.drop_last();
        assert(rest.take(k) =~= digits.take(k));
        lemma_digits_value_grows(rest, k);
        let v = digits_value(rest);
        assert(v <= v * 10) by (nonlinear_arith);
    } else {
        assert(digits.take(k) =~= digits);
    }
}

/// A value reads as a number only when it is one or more decimal digits,
/// with at most a `+` before them: nothing, a lone `+`, or any other byte
/// (a sign other than a leading `+`, a space, a second `+`) reads as none.
/// A leading `+` does not change the value, and a string of digits reads
/// as its decimal value, each further digit multiplying the value before
/// it by ten.
pub proof fn lemma_parsed_usize_reads_decimal(text: Seq<u8>, d: u8)
    ensures
        parsed_usize(Seq::empty()) is None,
        parsed_usize(seq![43u8]) is None,
        (exists|i: int| 0 <= i < text.len() && !is_digit(#[trigger] text[i]) && !(i == 0 && text[i] == 43))
            ==> parsed_usize(text) is None,
        text.len() > 0 && !(text[0] == 43) ==> parsed_usize(seq![43u8] + text) == parsed_usize(text),
        is_digit(d) ==> parsed_usize(seq![d]) == Some((d - 48) as usize),
        is_digit(d) && (forall|i: int| 0 <= i < text.len() ==> is_digit(#[trigger] text[i])) ==> digits_value(
            text + seq![d],
        ) == digits_value(text) * 10 + (d - 48),
{
    assert(unsigned_digits(seq![43u8]) =~= Seq::<u8>::empty());
    if exists|i: int| 0 <= i < text.len() && !is_digit(#[trigger] text[i]) && !(i == 0 && text[i] == 43) {
        let i = choose|i: int| 0 <= i < text.len() && !is_digit(#[trigger] text[i]) && !(i == 0 && text[i] == 43);
        let digits = unsigned_digits(text);
        if text.len() > 0 && text[0] == 43 {
            assert(digits[i - 1] == text[i]);
        } else {
            assert(digits[i] == text[i]);
        }
    }
    if text.len() > 0 && !(text[0] == 43) {
        assert((seq![43u8] + text).drop_first() =~= text);
    }
    if is_digit(d) {
        let one = seq![d];
        assert(unsigned_digits(one) == one);
        assert(one.drop_last() =~= Seq::<u8>::empty());
        assert(digits_value(Seq::<u8>::empty()) == 0);
        assert(digits_value(one) == (d - 48) as nat);
        assert(forall|i: int| 0 <= i < one.len() ==> is_digit(#[trigger] one[i]));
    }
    assert((text + seq![d]).drop_last() =~= text);
    assert((text + seq![d]).last() == d);
}

/// Reads a header value as a `usize`, as `str::from_utf8` then
/// `usize::from_str` read it; `None` where either of them fails.
pub fn parse_usize(text: &[u8]) -> (r: Option<usize>)
    ensures
        r == parsed_usize(text@),
{
    let n = text.len();
    let mut start: usize = 0;
    if n > 0 && text[0] == 43 {
        start = 1;
    }
    let ghost digits = unsigned_digits(text@);
    assert(digits =~= text@.skip(start as int));
    if start == n {
        return None;
    }
    let mut value: usize = 0;
    let mut i: usize = start;
    while i < n
        invariant
            start <= 1,
            digits == unsigned_digits(text@),
            start <= i <= n,
            n == text@.len(),
            digits =~= text@.skip(start as int),
            forall|j: int| 0 <= j < i - start ==> is_digit(#[trigger] digits[j]),
            value == digits_value(digits.take(i - start)),
        decreases n - i,
    {
        let b = text[i];
        assert(digits[i - start] == b);
        if b < 48 || b > 57 {
            assert(!is_digit(digits[i - start]));
            return None;
        }
        let ghost prefix = digits.take(i - start + 1);
        assert(prefix.drop_last() =~= digits.take(i - start));
        match value.checked_mul(10) {
            Some(m) => match m.checked_add((b - 48) as usize) {
                Some(next) => {
                    value = next;
                },
                None => {
                    proof {
                        overflow_means_none(text@, start as int, i - start + 1);
                    }
                    return None;
                },
            },
            None => {
                proof {
                    assert(digits_value(prefix) >= value * 10) by (nonlinear_arith)
                        requires
                            digits_value(prefix) == value * 10 + (b - 48) as nat,
                    ;
                    overflow_means_none(text@, start as int, i - start + 1);
                }
                return None;
            },
        }
        i = i + 1;
    }
    assert(digits.take(n - start) =~= digits);
    Some(value)
}

/// Once a prefix of the digits is worth more than a `usize` holds, the text
/// reads as no `usize`.
proof fn overflow_means_none(text: Seq<u8>, start: int, k: int)
    requires
        start == 0 || start == 1,
        unsigned_digits(text) =~= text.skip(start),
        0 < k <= text.len() - start,
        forall|j: int| 0 <= j < k ==> is_digit(#[trigger] text.skip(start)[j]),
        digits_value(text.skip(start).take(k)) > usize::MAX,
    ensures
        parsed_usize(text) is None,
{
    let digits = unsigned_digits(text);
    if forall|i: int| 0 <= i < digits.len() ==> is_digit(#[trigger] digits[i]) {
        lemma_digits_value_grows(digits, k);
    }
}

/// The first header with this name, if any.
pub open spec fn first_header_named(headers: Seq<HttpHeaderView>, name: Seq<char>) -> Option<HttpHeaderView>
    decreases headers.len(),
{
    if headers.len() == 0 {
        None
    } else if headers[0].name == name {
        Some(headers[0])
    } else {
        first_header_named(headers.drop_first(), name)
    }
}

/// The decision on `len` bytes of a response whose head parsed as `parsed`:
/// a bad head fails as an invalid message; a head still incomplete keeps all
/// bytes; a complete head needs a `Content-Length` header (else "not found")
/// whose value reads as a number (else "invalid parameter"), and the
/// response is complete once the bytes are exactly the head and that many
/// bytes of body, else all bytes are kept.
pub open spec fn response_decision(len: usize, parsed: ParsedResponseView) -> ReceiveState<()> {
    match parsed {
        ParsedResponseView::Invalid => ReceiveState::Failure(STATUS_INVALID_MESSAGE),
        ParsedResponseView::Partial => ReceiveState::Partial(len),
        ParsedResponseView::Complete { header_len, headers } => match first_header_named(
            headers,
            "Content-Length"@,
        ) {
            None => ReceiveState::Failure(STATUS_NOT_FOUND),
            Some(header) => match parsed_usize(header.value) {
                None => ReceiveState::Failure(STATUS_INVALID_PARAMETER),
                Some(content_length) => if len == header_len + content_length {
                    ReceiveState::Complete(())
                } else {
                    ReceiveState::Partial(len)
                },
            },
        },
    }
}

/// The first header with a name is the one at the first position that
/// carries it; there is none when no position carries it.
proof fn lemma_first_header_named_at(headers: Seq<HttpHeaderView>, name: Seq<char>)
    ensures
        (forall|k: int| 0 <= k < headers.len() ==> headers[k].name != name) ==> first_header_named(
            headers,
            name,
        ) is None,
        forall|j: int|
            0 <= j < headers.len() && headers[j].name == name && (forall|k: int|
                0 <= k < j ==> headers[k].name != name) ==> first_header_named(headers, name) == Some(
                #[trigger] headers[j],
            ),
        first_header_named(headers, name) is None ==> forall|k: int|
            0 <= k < headers.len() ==> #[trigger] headers[k].name != name,
    decreases headers.len(),
{
    if headers.len() > 0 {
        let rest = headers.drop_first();
        lemma_first_header_named_at(rest, name);
        if first_header_named(headers, name) is None {
            assert forall|k: int| 0 <= k < headers.len() implies headers[k].name != name by {
                if k > 0 {
                    assert(rest[k - 1] == headers[k]);
                }
            }
        }
        if forall|k: int| 0 <= k < headers.len() ==> headers[k].name != name {
            assert(headers[0].name != name);
            assert forall|k: int| 0 <= k < rest.len() implies rest[k].name != name by {
                assert(rest[k] == headers[k + 1]);
            }
        }
        assert forall|j: int|
            0 <= j < headers.len() && headers[j].name == name && (forall|k: int|
                0 <= k < j ==> headers[k].name != name) implies first_header_named(headers, name) == Some(
            #[trigger] headers[j],
        ) by {
            if j > 0 {
                assert(headers[0].name != name);
                assert(rest[j - 1] == headers[j]);
                assert forall|k: int| 0 <= k < j - 1 implies rest[k].name != name by {
                    assert(rest[k] == headers[k + 1]);
                }
            }
        }
    }
}

/// How a complete head is decided on, whatever the order of its headers:
/// with no header named exactly `Content-Length` at any position, the
/// length is not found; otherwise the first header of that name decides:
/// a value that reads as no number is an invalid parameter, and the
/// response is complete exactly when the bytes are the head and that many
/// bytes of body, all bytes being kept otherwise.
pub proof fn lemma_decision_on_content_length(len: usize, header_len: usize, headers: Seq<HttpHeaderView>)
    ensures
        ({
            let d = response_decision(len, ParsedResponseView::Complete { header_len, headers });
            &&& (forall|k: int| 0 <= k < headers.len() ==> headers[k].name != "Content-Length"@) ==> d
                == ReceiveState::<()>::Failure(STATUS_NOT_FOUND)
            &&& forall|j: int|
                0 <= j < headers.len() && #[trigger] headers[j].name == "Content-Length"@ && (forall|k: int|
                    0 <= k < j ==> headers[k].name != "Content-Length"@) ==> d == match parsed_usize(
                    headers[j].value,
                ) {
                    None => ReceiveState::<()>::Failure(STATUS_INVALID_PARAMETER),
                    Some(n) => if len == header_len + n {
                        ReceiveState::<()>::Complete(())
                    } else {
                        ReceiveState::<()>::Partial(len)
                    },
                }
            &&& d == ReceiveState::<()>::Failure(STATUS_NOT_FOUND) ==> forall|k: int|
                0 <= k < headers.len() ==> headers[k].name != "Content-Length"@
        }),
{
    lemma_first_header_named_at(headers, "Content-Length"@);
}

/// A head that is not a valid response head fails as an invalid message,
/// and one still incomplete keeps all bytes received.
pub proof fn lemma_decision_before_complete_head(len: usize)
    ensures
        response_decision(len, ParsedResponseView::Invalid) == ReceiveState::<()>::Failure(
            STATUS_INVALID_MESSAGE,
        ),
        response_decision(len, ParsedResponseView::Partial) == ReceiveState::<()>::Partial(len),
{
}

/// Decides on `len` received bytes from what parsing their head gave.
pub fn decide_response(len: usize, parsed: &ParsedResponse) -> (r: ReceiveState<()>)
    ensures
        r == response_decision(len, parsed@),
{
    match parsed {
        ParsedResponse::Invalid => ReceiveState::Failure(STATUS_INVALID_MESSAGE),
        ParsedResponse::Partial => ReceiveState::Partial(len),
        ParsedResponse::Complete { header_len, headers } => {
            let name = String::from_str("Content-Length");
            let ghost target = "Content-Length"@;
            let mut i: usize = 0;
            let ghost hs = headers@.map_values(|h: HttpHeader| h@);
            assert(hs.skip(0) =~= hs);
            while i < headers.len()
                invariant
                    i <= headers@.len(),
                    hs == headers@.map_values(|h: HttpHeader| h@),
                    parsed@ == (ParsedResponseView::Complete { header_len: *header_len, headers: hs }),
                    name@ == target,
                    target == "Content-Length"@,
                    first_header_named(hs, target) == first_header_named(hs.skip(i as int), target),
                decreases headers.len() - i,
            {
                assert(hs.skip(i as int).drop_first() =~= hs.skip(i + 1));
                if headers[i].name == name {
                    let found = &headers[i];
                    assert(hs.skip(i as int)[0] == found@);

                    match parse_usize(found.value.as_slice()) {
                        None => return ReceiveState::Failure(STATUS_INVALID_PARAMETER),
                        Some(content_length) => {
                            if *header_len <= len && len - *header_len == content_length {
                                return ReceiveState::Complete(());
                            } else {
                                return ReceiveState::Partial(len);
                            }
                        },
                    }
                }
                i = i + 1;
            }
            assert(hs.skip(i as int).len() == 0);
            ReceiveState::Failure(STATUS_NOT_FOUND)
        },
    }
}

/// The decision on the bytes of an HTTP response received so far, made on
/// what `httparse` parses of them with room for
/// [`MAX_RESPONSE_HEADERS`] headers.
pub fn http_response_state(buffer: &[u8]) -> (r: Option<ReceiveState<()>>)
    ensures
        r == Some(response_decision(buffer@.len() as usize, parsed_response(buffer@, MAX_RESPONSE_HEADERS))),
{
    let parsed = parse_response(buffer, MAX_RESPONSE_HEADERS);
    Some(decide_response(buffer.len(), &parsed))
}

} // verus!
