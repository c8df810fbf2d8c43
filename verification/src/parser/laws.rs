//! What holds of the checks on the headers and of the parsing of requests.

use vstd::prelude::*;
use vstd::string::is_ascii_spec_bytes;
use vstd::utf8::*;

use crate::error::{Error, ErrorKind};
use crate::events::{Event, EventKind, EventView};
use crate::json::{json_from_text, Json};
use crate::parser::{
    bot_event_header, bot_event_outcome, bot_token_failure, bot_token_header,
    content_type_failure, content_type_header, header_value, headers_outcome, is_event_outcome,
    is_header_value_byte, is_outcome, request_outcome, spec_valid_header_value, ParseRequest,
    RequestParser,
};
use crate::text::{
    ascii_lowercase, eq_ignore_ascii_case, is_ascii_bytes, lemma_ascii_is_utf8,
    lemma_eq_ignore_ascii_case_keeps_ascii,
};

verus! {

/// Two lists of headers that differ at most in the case of the ASCII letters
/// of their names.
pub open spec fn same_up_to_name_case(
    a: Seq<(Seq<u8>, Seq<u8>)>,
    b: Seq<(Seq<u8>, Seq<u8>)>,
) -> bool {
    &&& a.len() == b.len()
    &&& forall|i: int|
        0 <= i < a.len() ==> eq_ignore_ascii_case(#[trigger] a[i].0, b[i].0) && a[i].1 == b[i].1
}

/// The value found for a name is that of the last header with that name, and
/// no value is found exactly where no header has the name.
pub proof fn lemma_header_value_is_last_match(headers: Seq<(Seq<u8>, Seq<u8>)>, name: Seq<u8>)
    ensures
        header_value(headers, name) is None <==> forall|i: int|
            0 <= i < headers.len() ==> !eq_ignore_ascii_case(#[trigger] headers[i].0, name),
        header_value(headers, name) matches Some(value) ==> exists|i: int|
            {
                &&& 0 <= i < headers.len()
                &&& eq_ignore_ascii_case(#[trigger] headers[i].0, name)
                &&& headers[i].1 == value
                &&& forall|j: int|
                    i < j < headers.len() ==> !eq_ignore_ascii_case(#[trigger] headers[j].0, name)
            },
    decreases headers.len(),
{
    if headers.len() > 0 {
        let rest = headers.drop_last();
        let last = headers.len() - 1;
        lemma_header_value_is_last_match(rest, name);
        assert forall|i: int| 0 <= i < rest.len() implies rest[i] == headers[i] by {}
        if eq_ignore_ascii_case(headers.last().0, name) {
            assert(eq_ignore_ascii_case(headers[last].0, name));
        } else {
            if header_value(rest, name) is Some {
                let i = choose|i: int|
                    {
                        &&& 0 <= i < rest.len()
                        &&& eq_ignore_ascii_case(#[trigger] rest[i].0, name)
                        &&& rest[i].1 == header_value(rest, name)->0
                        &&& forall|j: int|
                            i < j < rest.len() ==> !eq_ignore_ascii_case(#[trigger] rest[j].0, name)
                    };
                assert(eq_ignore_ascii_case(headers[i].0, name));
                assert forall|j: int| i < j < headers.len() implies !eq_ignore_ascii_case(
                    #[trigger] headers[j].0,
                    name,
                ) by {
                    if j < rest.len() {
                        assert(rest[j] == headers[j]);
                    }
                }
            } else {
                assert forall|i: int| 0 <= i < headers.len() implies !eq_ignore_ascii_case(
                    #[trigger] headers[i].0,
                    name,
                ) by {
                    if i < rest.len() {
                        assert(rest[i] == headers[i]);
                    }
                }
            }
        }
    }
}

/// Names that differ only in the case of ASCII letters find the same header.
pub proof fn lemma_header_value_ignores_name_case(
    a: Seq<(Seq<u8>, Seq<u8>)>,
    b: Seq<(Seq<u8>, Seq<u8>)>,
    name: Seq<u8>,
)
    requires
        same_up_to_name_case(a, b),
    ensures
        header_value(a, name) == header_value(b, name),
    decreases a.len(),
{
    if a.len() > 0 {
        let last = a.len() - 1;
        assert(eq_ignore_ascii_case(a[last].0, b[last].0) && a[last].1 == b[last].1);
        let x = a.last().0;
        let y = b.last().0;
        assert(eq_ignore_ascii_case(x, name) == eq_ignore_ascii_case(y, name)) by {
            if eq_ignore_ascii_case(x, name) {
                assert forall|i: int| 0 <= i < y.len() implies ascii_lowercase(#[trigger] y[i])
                    == ascii_lowercase(name[i]) by {
                    assert(ascii_lowercase(x[i]) == ascii_lowercase(y[i]));
                }
            }
            if eq_ignore_ascii_case(y, name) {
                assert forall|i: int| 0 <= i < x.len() implies ascii_lowercase(#[trigger] x[i])
                    == ascii_lowercase(name[i]) by {
                    assert(ascii_lowercase(y[i]) == ascii_lowercase(name[i]));
                }
            }
        }
        assert(same_up_to_name_case(a.drop_last(), b.drop_last())) by {
            assert forall|i: int| 0 <= i < a.drop_last().len() implies eq_ignore_ascii_case(
                #[trigger] a.drop_last()[i].0,
                b.drop_last()[i].0,
            ) && a.drop_last()[i].1 == b.drop_last()[i].1 by {
                assert(eq_ignore_ascii_case(a[i].0, b[i].0) && a[i].1 == b[i].1);
            }
        }
        lemma_header_value_ignores_name_case(a.drop_last(), b.drop_last(), name);
    }
}

/// Header names are recognised whatever the case of their ASCII letters:
/// writing the names of a request in another case does not change the outcome
/// of the checks.
pub proof fn lemma_header_names_case_insensitive(
    a: Seq<(Seq<u8>, Seq<u8>)>,
    b: Seq<(Seq<u8>, Seq<u8>)>,
    token: Seq<u8>,
)
    requires
        same_up_to_name_case(a, b),
    ensures
        headers_outcome(a, token) == headers_outcome(b, token),
{
    lemma_header_value_ignores_name_case(a, b, content_type_header());
    lemma_header_value_ignores_name_case(a, b, bot_token_header());
    lemma_header_value_ignores_name_case(a, b, bot_event_header());
}

/// The checks are ordered. A failure of the content type is reported whatever
/// the token and event headers hold; a failure of the token is reported
/// whatever the event header holds, once the content type has passed.
pub proof fn lemma_checks_are_ordered(headers: Seq<(Seq<u8>, Seq<u8>)>, token: Seq<u8>)
    ensures
        match content_type_failure(headers) {
            Some(kind) => headers_outcome(headers, token) == Err::<EventKind, ErrorKind>(kind),
            None => match bot_token_failure(headers, token) {
                Some(kind) => headers_outcome(headers, token) == Err::<EventKind, ErrorKind>(kind),
                None => headers_outcome(headers, token) == bot_event_outcome(headers),
            },
        },
        headers_outcome(headers, token) is Ok ==> content_type_failure(headers) is None
            && bot_token_failure(headers, token) is None && bot_event_outcome(headers) is Ok,
{
}

/// A request without a content type header fails with `ContentTypeNotFound`,
/// also where the token or the event header is missing or wrong.
pub proof fn lemma_missing_content_type_comes_first(
    headers: Seq<(Seq<u8>, Seq<u8>)>,
    token: Seq<u8>,
)
    requires
        header_value(headers, content_type_header()) is None,
    ensures
        headers_outcome(headers, token) == Err::<EventKind, ErrorKind>(
            ErrorKind::ContentTypeNotFound,
        ),
{
}

/// The checks keep no state: two parsers with the same verification token
/// come to the same outcome on the same headers, as does one parser asked
/// twice.
pub proof fn lemma_validation_is_repeatable(
    first: RequestParser,
    second: RequestParser,
    headers: Seq<(Seq<u8>, Seq<u8>)>,
    first_result: Result<EventKind, Error>,
    second_result: Result<EventKind, Error>,
)
    requires
        first.verification_token() == second.verification_token(),
        is_outcome(first_result, headers_outcome(headers, encode_utf8(first.verification_token()))),
        is_outcome(
            second_result,
            headers_outcome(headers, encode_utf8(second.verification_token())),
        ),
    ensures
        first_result is Ok <==> second_result is Ok,
        first_result matches Ok(kind) ==> second_result == Ok::<EventKind, Error>(kind),
        first_result matches Err(error) ==> second_result->Err_0@ == error@,
{
}

/// An event that is decoded has the kind that it was decoded for.
pub proof fn lemma_decoded_event_has_kind(kind: EventKind, json: Json)
    ensures
        Event::from_json(kind, json) matches Some(event) ==> event.kind() == kind,
{
}

/// A request whose headers fail fails with their error, whatever its body
/// holds; and an event that a request is parsed to has the kind that the
/// headers name.
pub proof fn lemma_headers_come_before_body(
    headers: Seq<(Seq<u8>, Seq<u8>)>,
    token: Seq<u8>,
    body: Seq<u8>,
)
    ensures
        headers_outcome(headers, token) matches Err(kind) ==> request_outcome(headers, token, body)
            == Err::<EventView, ErrorKind>(kind),
        request_outcome(headers, token, body) matches Ok(event) ==> headers_outcome(headers, token)
            == Ok::<EventKind, ErrorKind>(event.kind()),
        request_outcome(headers, token, body) matches Err(kind) ==> (headers_outcome(
            headers,
            token,
        ) is Ok <==> (kind == ErrorKind::ReadBodyFailed || kind == ErrorKind::ParseBodyFailed)),
{
    if headers_outcome(headers, token) is Ok && valid_utf8(body) {
        lemma_decoded_event_has_kind(
            headers_outcome(headers, token)->Ok_0,
            json_from_text(decode_utf8(body))->0,
        );
    }
    lemma_header_errors(headers, token);
}

/// The checks on the headers end in one of their own nine errors, never in
/// an error of the body.
pub proof fn lemma_header_errors(headers: Seq<(Seq<u8>, Seq<u8>)>, token: Seq<u8>)
    ensures
        headers_outcome(headers, token) matches Err(kind) ==> kind != ErrorKind::ReadBodyFailed
            && kind != ErrorKind::ParseBodyFailed,
{
}

/// Parsing a request step by step comes to the same as parsing it in one go:
/// where the steps start from the outcome of the checks on the headers and
/// the body arrives complete, their result is the outcome of the request.
pub proof fn lemma_steps_agree_with_parse(
    headers: Seq<(Seq<u8>, Seq<u8>)>,
    token: Seq<u8>,
    body: Seq<u8>,
    kind: Result<EventKind, Error>,
    result: Result<Event, Error>,
)
    requires
        is_outcome(kind, headers_outcome(headers, token)),
        (ParseRequest::ParseEventKind { outcome: kind }).outcome_with(body, result),
    ensures
        is_event_outcome(result, request_outcome(headers, token, body)),
{
}

/// The names of the three headers are ASCII.
pub proof fn lemma_header_names_are_ascii()
    ensures
        is_ascii_bytes(content_type_header()),
        is_ascii_bytes(bot_token_header()),
        is_ascii_bytes(bot_event_header()),
{
    reveal_strlit("content-type");
    reveal_strlit("x-traq-bot-token");
    reveal_strlit("x-traq-bot-event");
    is_ascii_spec_bytes("content-type");
    is_ascii_spec_bytes("x-traq-bot-token");
    is_ascii_spec_bytes("x-traq-bot-event");
}

/// A header whose name is no header's name up to case is not looked at:
/// without it the same value is found.
pub proof fn lemma_other_header_is_skipped(headers: Seq<(Seq<u8>, Seq<u8>)>, i: int, name: Seq<u8>)
    requires
        0 <= i < headers.len(),
        !eq_ignore_ascii_case(headers[i].0, name),
    ensures
        header_value(headers.remove(i), name) == header_value(headers, name),
    decreases headers.len(),
{
    let last = headers.len() - 1;
    if i == last {
        assert(headers.remove(i) =~= headers.drop_last());
    } else {
        assert(headers.remove(i).last() == headers.last());
        assert(headers.remove(i).drop_last() =~= headers.drop_last().remove(i));
        if !eq_ignore_ascii_case(headers.last().0, name) {
            lemma_other_header_is_skipped(headers.drop_last(), i, name);
        }
    }
}

/// A header whose name is not UTF-8 is passed over: the outcome of the
/// checks is the same without it.
pub proof fn lemma_name_that_is_not_utf8_is_skipped(
    headers: Seq<(Seq<u8>, Seq<u8>)>,
    i: int,
    token: Seq<u8>,
)
    requires
        0 <= i < headers.len(),
        !valid_utf8(headers[i].0),
    ensures
        headers_outcome(headers.remove(i), token) == headers_outcome(headers, token),
{
    lemma_header_names_are_ascii();
    let name = headers[i].0;
    if eq_ignore_ascii_case(name, content_type_header()) {
        lemma_eq_ignore_ascii_case_keeps_ascii(name, content_type_header());
    }
    if eq_ignore_ascii_case(name, bot_token_header()) {
        lemma_eq_ignore_ascii_case_keeps_ascii(name, bot_token_header());
    }
    if eq_ignore_ascii_case(name, bot_event_header()) {
        lemma_eq_ignore_ascii_case_keeps_ascii(name, bot_event_header());
    }
    lemma_other_header_is_skipped(headers, i, content_type_header());
    lemma_other_header_is_skipped(headers, i, bot_token_header());
    lemma_other_header_is_skipped(headers, i, bot_event_header());
}

/// A value that holds only bytes that a header value may hold is UTF-8: for
/// the token and the event, the check on the bytes decides alone whether the
/// value is read.
pub proof fn lemma_valid_header_value_is_utf8(value: Seq<u8>)
    requires
        spec_valid_header_value(value),
    ensures
        valid_utf8(value),
{
    assert forall|i: int| 0 <= i < value.len() implies #[trigger] value[i] < 0x80 by {
        assert(is_header_value_byte(value[i]));
    }
    lemma_ascii_is_utf8(value);
}

} // verus!
