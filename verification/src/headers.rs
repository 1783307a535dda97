//! The headers of the upgrade request, and the Host header among them.

use http::header::HeaderValue;
use http::header::InvalidHeaderValue;
use vstd::prelude::*;
use vstd::string::StrSliceExecFns;
use vstd::string::StringExecFns;
use vstd::utf8::encode_utf8;
use crate::error::ConfigError;
use crate::text::{decimal, push_decimal};

verus! {

/// One header of the upgrade request. The value is kept as bytes: a header
/// value need not be text.
#[derive(Clone, Debug, PartialEq, Eq)]
pub struct Header {
    pub name: String,
    pub value: Vec<u8>,
}

/// The name is that of the Host header, in whatever case it is written.
pub open spec fn is_host_name(name: Seq<char>) -> bool {
    &&& name.len() == 4
    &&& (name[0] == 'h' || name[0] == 'H')
    &&& (name[1] == 'o' || name[1] == 'O')
    &&& (name[2] == 's' || name[2] == 'S')
    &&& (name[3] == 't' || name[3] == 'T')
}

/// Tells whether a header name is that of the Host header.
pub fn is_host(name: &str) -> (r: bool)
    ensures
        r == is_host_name(name@),
{
    if name.unicode_len() != 4 {
        return false;
    }
    let h = name.get_char(0);
    let o = name.get_char(1);
    let s = name.get_char(2);
    let t = name.get_char(3);
    (h == 'h' || h == 'H') && (o == 'o' || o == 'O') && (s == 's' || s == 'S') && (t == 't' || t
        == 'T')
}

/// The first Host header of a list, if it has one.
pub open spec fn first_host(headers: Seq<Header>) -> Option<Header>
    decreases headers.len(),
{
    if headers.len() == 0 {
        None
    } else {
        match first_host(headers.drop_last()) {
            Some(header) => Some(header),
            None => if is_host_name(headers.last().name@) {
                Some(headers.last())
            } else {
                None
            },
        }
    }
}

/// A list without its Host headers, the others in their order.
pub open spec fn without_host(headers: Seq<Header>) -> Seq<Header> {
    headers.filter(|header: Header| !is_host_name(header.name@))
}

/// Takes the Host header out of a list of headers. The value of the first
/// one is returned, and every header of that name leaves the list, so that
/// the request names its host once.
pub fn split_host(headers: Vec<Header>) -> (r: (Option<Vec<u8>>, Vec<Header>))
    ensures
        match first_host(headers@) {
            Some(header) => r.0 == Some(header.value),
            None => r.0 is None,
        },
        r.1@ == without_host(headers@),
{
    let mut host: Option<Vec<u8>> = None;
    let mut others: Vec<Header> = Vec::new();
    for header in it: headers
        invariant
            it.seq() == headers@,
            others@ == without_host(headers@.take(it.index())),
            match first_host(headers@.take(it.index())) {
                Some(first) => host == Some(first.value),
                None => host is None,
            },
    {
        proof {
            let next = headers@.take(it.index() + 1);
            assert(next.drop_last() == headers@.take(it.index()));
            reveal_with_fuel(Seq::filter, 2);
        }
        let Header { name, value } = header;
        if is_host(name.as_str()) {
            if host.is_none() {
                host = Some(value);
            }
        } else {
            others.push(Header { name, value });
        }
    }
    assert(headers@.take(headers@.len() as int) == headers@);
    (host, others)
}

/// The host as the Host header names it: with its port, unless that is the
/// port of plain or of secure HTTP.
pub open spec fn host_text(host: Seq<char>, port: u16) -> Seq<char> {
    if port == 80 || port == 443 {
        host
    } else {
        host + seq![':'] + decimal(port as nat)
    }
}

/// Writes out the host as the Host header names it.
pub fn host_with_port(host: &str, port: u16) -> (r: String)
    ensures
        r@ == host_text(host@, port),
{
    let mut text = String::from_str(host);
    if port != 80 && port != 443 {
        proof {
            reveal_strlit(":");
        }
        text.append(":");
        push_decimal(&mut text, port);
    }
    text
}

/// A byte that can stand in a header value: any but a control character,
/// the tab excepted.
pub open spec fn is_value_byte(byte: u8) -> bool {
    (byte >= 32 && byte != 127) || byte == 9
}

/// Every byte can stand in a header value.
pub open spec fn is_header_value(bytes: Seq<u8>) -> bool {
    forall|i: int| 0 <= i < bytes.len() ==> is_value_byte(#[trigger] bytes[i])
}

#[verifier::external_type_specification]
#[verifier::external_body]
pub struct ExInvalidHeaderValue(http::header::InvalidHeaderValue);

/// Makes a header value of a text, by `http::HeaderValue::from_str`, and
/// hands out its bytes.
///
/// Trusted, not proved: the call succeeds exactly when no byte of the text,
/// as UTF-8, is a control character other than the tab, and the value then
/// holds those very bytes.
#[verifier::external_body]
fn header_value_from_str(text: &str) -> (r: Result<Vec<u8>, InvalidHeaderValue>)
    ensures
        r is Ok <==> is_header_value(encode_utf8(text@)),
        r matches Ok(value) ==> value@ == encode_utf8(text@),
{
    match HeaderValue::from_str(text) {
        Ok(value) => Ok(value.as_bytes().to_vec()),
        Err(error) => Err(error),
    }
}

/// The value of the Host header that a request carries: the one that the
/// configuration gives, else the host of the server with its port, if that
/// can stand in a header at all.
pub open spec fn host_header_of(explicit: Option<Seq<u8>>, host: Seq<char>, port: u16) -> Result<
    Seq<u8>,
    ConfigError,
> {
    match explicit {
        Some(value) => Ok(value),
        None => {
            let bytes = encode_utf8(host_text(host, port));
            if is_header_value(bytes) {
                Ok(bytes)
            } else {
                Err(ConfigError::InvalidHostHeader)
            }
        },
    }
}

/// Settles the value of the Host header. A value that the configuration
/// gives is taken as it is; only a value made of the server address is
/// checked.
pub fn host_header(explicit: Option<Vec<u8>>, host: &str, port: u16) -> (r: Result<
    Vec<u8>,
    ConfigError,
>)
    ensures
        match host_header_of(
            match explicit {
                Some(value) => Some(value@),
                None => None,
            },
            host@,
            port,
        ) {
            Ok(bytes) => r matches Ok(value) && value@ == bytes,
            Err(error) => r matches Err(e) && e == error,
        },
{
    match explicit {
        Some(value) => Ok(value),
        None => {
            let text = host_with_port(host, port);
            match header_value_from_str(text.as_str()) {
                Ok(value) => Ok(value),
                Err(_) => Err(ConfigError::InvalidHostHeader),
            }
        },
    }
}

/// The headers that go out with a request: the Host header first, then the
/// others.
pub open spec fn outgoing(host: Seq<u8>, others: Seq<Header>) -> Seq<(Seq<char>, Seq<u8>)> {
    seq![(seq!['h', 'o', 's', 't'], host)] + others.map_values(
        |header: Header| (header.name@, header.value@),
    )
}

/// The header at this place is named Host, and none before it is.
pub open spec fn is_first_host_at(headers: Seq<Header>, at: int) -> bool {
    &&& 0 <= at < headers.len()
    &&& is_host_name(headers[at].name@)
    &&& forall|j: int| 0 <= j < at ==> !is_host_name((#[trigger] headers[j]).name@)
}

/// The first Host header of a list is the header named Host that stands
/// before every other of that name. A list that has no header of that name
/// has no first one, and loses nothing when its Host headers are taken out.
pub proof fn lemma_first_host(headers: Seq<Header>)
    ensures
        match first_host(headers) {
            Some(header) => exists|at: int|
                #[trigger] is_first_host_at(headers, at) && headers[at] == header,
            None => {
                &&& forall|j: int|
                    0 <= j < headers.len() ==> !is_host_name((#[trigger] headers[j]).name@)
                &&& without_host(headers) == headers
            },
        },
    decreases headers.len(),
{
    reveal_with_fuel(Seq::filter, 2);
    if headers.len() > 0 {
        let earlier = headers.drop_last();
        lemma_first_host(earlier);
        assert forall|j: int| 0 <= j < earlier.len() implies earlier[j] == headers[j] by {}
        match first_host(earlier) {
            Some(header) => {
                let at = choose|at: int|
                    #[trigger] is_first_host_at(earlier, at) && earlier[at] == header;
                assert(is_first_host_at(headers, at));
            },
            None => {
                if is_host_name(headers.last().name@) {
                    assert(is_first_host_at(headers, headers.len() - 1));
                }
            },
        }
    }
}

/// However often the configuration names the Host header, the request
/// carries it once: with the value of the first one given, where one is
/// given, and with no other header of that name beside it.
pub proof fn lemma_host_header_once(headers: Seq<Header>, host: Seq<char>, port: u16)
    ensures
        forall|i: int|
            0 <= i < without_host(headers).len() ==> !is_host_name(
                (#[trigger] without_host(headers)[i]).name@,
            ),
        first_host(headers) matches Some(header) ==> host_header_of(
            Some(header.value@),
            host,
            port,
        ) == Ok::<Seq<u8>, ConfigError>(header.value@),
        ({
            let sent = outgoing(
                match first_host(headers) {
                    Some(header) => header.value@,
                    None => encode_utf8(host_text(host, port)),
                },
                without_host(headers),
            );
            &&& is_host_name(sent[0].0)
            &&& forall|i: int| 1 <= i < sent.len() ==> !is_host_name((#[trigger] sent[i]).0)
        }),
{
    let keep = |header: Header| !is_host_name(header.name@);
    let others = without_host(headers);
    assert forall|i: int| 0 <= i < others.len() implies !is_host_name(
        (#[trigger] others[i]).name@,
    ) by {
        headers.lemma_filter_pred(keep, i);
    }
}

} // verus!
