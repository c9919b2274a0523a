//! The handshake that opens a connection: a fixed set of headers, which the
//! gateway expects to the letter, and a fixed session configuration.

use crate::error::WsError;
use async_tungstenite::tungstenite::handshake::client::generate_key;
use async_tungstenite::tungstenite::http::request::Builder;
use async_tungstenite::tungstenite::http::Request;
use vstd::multiset::Multiset;
use vstd::prelude::*;

verus! {

/// `http::request::Builder`, a handshake request in the making.
#[verifier::external_type_specification]
#[verifier::external_body]
pub struct ExBuilder(async_tungstenite::tungstenite::http::request::Builder);

/// `http::Request`, the finished handshake request.
#[verifier::external_type_specification]
#[verifier::external_body]
#[verifier::reject_recursive_types(T)]
pub struct ExRequest<T>(async_tungstenite::tungstenite::http::Request<T>);

/// `http::Error`, why a request could not be built.
#[verifier::external_type_specification]
#[verifier::external_body]
pub struct ExHttpError(async_tungstenite::tungstenite::http::Error);

/// Whether a builder has met a malformed address or header: `headers_ref`
/// of such a builder gives nothing.
pub uninterp spec fn builder_failed(builder: Builder) -> bool;

/// The headers that a builder holds, as `headers_ref` shows them: one entry
/// for each value, made of the name as `http` keeps it and the bytes of the
/// value read as UTF-8.
pub uninterp spec fn builder_headers(builder: Builder) -> Multiset<(Seq<char>, Seq<char>)>;

/// The headers that a finished request holds, as `headers` shows them: one
/// entry for each value, made of the name as `http` keeps it and the bytes
/// of the value read as UTF-8.
pub uninterp spec fn request_headers(request: Request<()>) -> Multiset<(Seq<char>, Seq<char>)>;

/// The address that a builder holds, as `uri_ref` shows it, printed as
/// text.
pub uninterp spec fn builder_address(builder: Builder) -> Seq<char>;

/// The address that a finished request holds, as `uri` shows it, printed
/// as text.
pub uninterp spec fn request_address(request: Request<()>) -> Seq<char>;

/// An address as `http::Uri` prints it once it has taken the address.
pub uninterp spec fn stored_address(url: Seq<char>) -> Seq<char>;

/// The method that a builder holds, as `method_ref` shows it, printed as
/// text.
pub uninterp spec fn builder_method(builder: Builder) -> Seq<char>;

/// The method that a finished request holds, as `method` shows it, printed
/// as text.
pub uninterp spec fn request_method(request: Request<()>) -> Seq<char>;

/// Whether `http::Uri` takes `url` as an address.
pub uninterp spec fn address_taken(url: Seq<char>) -> bool;

/// Whether `http::request::Builder::header` takes a name and a value as a
/// header: whether `http::HeaderName` takes the name and `http::HeaderValue`
/// the value.
pub uninterp spec fn header_taken(name: Seq<char>, value: Seq<char>) -> bool;

/// Number of headers up to which a builder that takes each of them is
/// known to hold them all: well below the size at which the header map of
/// `http` starts to refuse entries.
pub const HEADER_BOUND: usize = 128;

/// A character with an upper-case letter of ASCII lowered.
pub open spec fn lower_case(c: char) -> char {
    if 'A' <= c && c <= 'Z' {
        ((c as int) + 32) as char
    } else {
        c
    }
}

/// A header name as `http::HeaderName` keeps a name that it takes: with
/// the upper-case letters of ASCII lowered.
pub open spec fn stored_name(name: Seq<char>) -> Seq<char> {
    name.map_values(|c: char| lower_case(c))
}

/// Whether a character is a digit of base64.
pub open spec fn is_base64_digit(c: char) -> bool {
    ('A' <= c && c <= 'Z') || ('a' <= c && c <= 'z') || ('0' <= c && c <= '9') || c == '+' || c
        == '/'
}

/// The shape of a handshake key: sixteen bytes in base64, which is 22
/// digits and two signs of padding.
pub open spec fn key_shape(key: Seq<char>) -> bool {
    &&& key.len() == 24
    &&& forall|i: int| 0 <= i < 22 ==> is_base64_digit(#[trigger] key[i])
    &&& key[22] == '='
    &&& key[23] == '='
}

/// Whether `http` takes every header of a list.
pub open spec fn headers_taken(headers: Seq<(Seq<char>, Seq<char>)>) -> bool {
    forall|i: int| 0 <= i < headers.len() ==> header_taken((#[trigger] headers[i]).0, headers[i].1)
}

/// No header at all.
pub open spec fn no_entries() -> Multiset<(Seq<char>, Seq<char>)> {
    Multiset::empty()
}

/// One header of the handshake request.
#[derive(Clone, Debug, PartialEq, Eq)]
pub struct Header {
    pub name: String,
    pub value: String,
}

impl View for Header {
    type V = (Seq<char>, Seq<char>);

    open spec fn view(&self) -> (Seq<char>, Seq<char>) {
        (self.name@, self.value@)
    }
}

/// Limits of a session. `None` is no limit.
#[derive(Clone, Copy, Debug, PartialEq, Eq)]
pub struct SessionConfig {
    pub max_send_queue: Option<usize>,
    pub max_message_size: Option<usize>,
    pub max_frame_size: Option<usize>,
    pub accept_unmasked_frames: bool,
}

/// The session configuration of every connection: no limit on the size of
/// a message or of a frame, none on the depth of the outbound queue, and
/// unmasked frames are not accepted.
pub fn session_config() -> (config: SessionConfig)
    ensures
        config.max_send_queue is None,
        config.max_message_size is None,
        config.max_frame_size is None,
        !config.accept_unmasked_frames,
{
    SessionConfig {
        max_send_queue: None,
        max_message_size: None,
        max_frame_size: None,
        accept_unmasked_frames: false,
    }
}

/// Place of the handshake key in the header table.
pub const KEY_INDEX: usize = 8;

/// The headers of the handshake request, in the order in which they are
/// sent, for a given handshake key.
pub open spec fn header_table(key: Seq<char>) -> Seq<(Seq<char>, Seq<char>)> {
    seq![
        ("Host"@, "gateway.discord.gg"@),
        (
            "User-Agent"@,
            "Mozilla/5.0 (Windows NT 10.0; Win64; x64) AppleWebKit/537.36 (KHTML, like Gecko) Chrome/108.0.0.0 Safari/537.36"@,
        ),
        ("Accept"@, "*/*"@),
        ("Accept-Language"@, "en-US,en;q=0.5"@),
        ("Accept-Encoding"@, "gzip, deflate, br"@),
        ("Sec-WebSocket-Version"@, "13"@),
        ("Origin"@, "https://discord.com"@),
        ("Sec-WebSocket-Extensions"@, "permessage-deflate"@),
        ("Sec-WebSocket-Key"@, key),
        ("Connection"@, "keep-alive, Upgrade"@),
        ("Sec-Fetch-Dest"@, "websocket"@),
        ("Sec-Fetch-Mode"@, "websocket"@),
        ("Sec-Fetch-Site"@, "cross-site"@),
        ("Pragma"@, "no-cache"@),
        ("Cache-Control"@, "no-cache"@),
        ("Upgrade"@, "websocket"@),
    ]
}

/// The views of a list of headers.
pub open spec fn headers_view(headers: Seq<Header>) -> Seq<(Seq<char>, Seq<char>)> {
    headers.map_values(|header: Header| header@)
}

fn header(name: &str, value: &str) -> (header: Header)
    ensures
        header@ == (name@, value@),
{
    Header { name: name.to_owned(), value: value.to_owned() }
}

/// Builds the header table for a handshake key.
pub fn handshake_headers(key: String) -> (headers: Vec<Header>)
    ensures
        headers@.len() == 16,
        headers_view(headers@) == header_table(key@),
{
    let mut headers: Vec<Header> = Vec::new();
    headers.push(header("Host", "gateway.discord.gg"));
    headers.push(
        header(
            "User-Agent",
            "Mozilla/5.0 (Windows NT 10.0; Win64; x64) AppleWebKit/537.36 (KHTML, like Gecko) Chrome/108.0.0.0 Safari/537.36",
        ),
    );
    headers.push(header("Accept", "*/*"));
    headers.push(header("Accept-Language", "en-US,en;q=0.5"));
    headers.push(header("Accept-Encoding", "gzip, deflate, br"));
    headers.push(header("Sec-WebSocket-Version", "13"));
    headers.push(header("Origin", "https://discord.com"));
    headers.push(header("Sec-WebSocket-Extensions", "permessage-deflate"));
    headers.push(header("Sec-WebSocket-Key", key.as_str()));
    headers.push(header("Connection", "keep-alive, Upgrade"));
    headers.push(header("Sec-Fetch-Dest", "websocket"));
    headers.push(header("Sec-Fetch-Mode", "websocket"));
    headers.push(header("Sec-Fetch-Site", "cross-site"));
    headers.push(header("Pragma", "no-cache"));
    headers.push(header("Cache-Control", "no-cache"));
    headers.push(header("Upgrade", "websocket"));
    assert(headers_view(headers@) =~= header_table(key@));
    headers
}

/// Calls tungstenite's `generate_key`, which draws sixteen bytes at random
/// and prints them in base64. Trusted: the key has the shape of such a
/// text. Nothing is claimed of which key it is.
#[verifier::external_body]
fn fresh_key() -> (key: String)
    ensures
        key_shape(key@),
{
    generate_key()
}

/// The header table with a handshake key drawn for this connection.
pub fn fresh_handshake_headers() -> (headers: Vec<Header>)
    ensures
        headers@.len() == 16,
        key_shape(headers@[KEY_INDEX as int].value@),
        headers_view(headers@) == header_table(headers@[KEY_INDEX as int].value@),
{
    let headers = handshake_headers(fresh_key());
    assert(headers_view(headers@)[KEY_INDEX as int] == headers@[KEY_INDEX as int]@);
    headers
}

/// Calls `http::Request::get`: a builder of a GET request to `url`.
/// Trusted: the builder has failed exactly where `http` does not take the
/// address; else it holds the method GET, the stored address and no header
/// yet.
#[verifier::external_body]
fn request_get(url: &str) -> (builder: Builder)
    ensures
        builder_failed(builder) <==> !address_taken(url@),
        !builder_failed(builder) ==> builder_method(builder) == "GET"@,
        !builder_failed(builder) ==> builder_headers(builder) == no_entries(),
        !builder_failed(builder) ==> builder_address(builder) == stored_address(url@),
{
    Request::get(url)
}

/// Calls `http::request::Builder::header`. Trusted: a builder that has
/// failed stays so, and one fails where `http` does not take the header. A
/// builder that holds fewer than `HEADER_BOUND` headers does not fail on a
/// header that `http` takes. One that has not failed afterwards holds the
/// method and the address that it held before, the headers that it held
/// before and one entry more, of the stored name and the value.
#[verifier::external_body]
fn request_header(builder: Builder, name: &str, value: &str) -> (extended: Builder)
    ensures
        !builder_failed(extended) ==> header_taken(name@, value@),
        !builder_failed(builder) && header_taken(name@, value@) && builder_headers(builder).len()
            < HEADER_BOUND ==> !builder_failed(extended),
        !builder_failed(extended) ==> builder_method(extended) == builder_method(builder),
        !builder_failed(extended) ==> !builder_failed(builder) && builder_headers(extended)
            == builder_headers(builder).insert((stored_name(name@), value@)),
        !builder_failed(extended) ==> builder_address(extended) == builder_address(builder),
{
    builder.header(name, value)
}

/// Calls `http::request::Builder::body` with an empty body. Trusted: a
/// request comes back exactly where the builder has not failed, and it
/// holds the builder's method, address and headers.
#[verifier::external_body]
fn request_body(builder: Builder) -> (built: Result<
    Request<()>,
    async_tungstenite::tungstenite::http::Error,
>)
    ensures
        built is Ok <==> !builder_failed(builder),
        built is Ok ==> request_headers(built->Ok_0) == builder_headers(builder),
        built is Ok ==> request_address(built->Ok_0) == builder_address(builder),
        built is Ok ==> request_method(built->Ok_0) == builder_method(builder),
{
    builder.body(())
}

/// The entry that `http` keeps for a header.
pub open spec fn stored_entry(header: (Seq<char>, Seq<char>)) -> (Seq<char>, Seq<char>) {
    (stored_name(header.0), header.1)
}

/// The entries that a request holds once it has taken every header of a
/// list.
pub open spec fn stored_entries(headers: Seq<(Seq<char>, Seq<char>)>) -> Multiset<
    (Seq<char>, Seq<char>),
> {
    headers.map_values(|header: (Seq<char>, Seq<char>)| stored_entry(header)).to_multiset()
}

/// A list of headers makes as many entries as it is long.
proof fn lemma_entries_len(headers: Seq<(Seq<char>, Seq<char>)>)
    ensures
        stored_entries(headers).len() == headers.len(),
{
    vstd::seq_lib::to_multiset_len(
        headers.map_values(|header: (Seq<char>, Seq<char>)| stored_entry(header)),
    );
}

/// Taking one more header of a list adds its entry.
proof fn lemma_entries_step(headers: Seq<(Seq<char>, Seq<char>)>, i: int)
    requires
        0 <= i < headers.len(),
    ensures
        stored_entries(headers.take(i + 1)) == stored_entries(headers.take(i)).insert(
            stored_entry(headers[i]),
        ),
{
    let keep = |header: (Seq<char>, Seq<char>)| stored_entry(header);
    assert(headers.take(i + 1).map_values(keep) =~= headers.take(i).map_values(keep).push(
        stored_entry(headers[i]),
    ));
    vstd::seq_lib::to_multiset_build(headers.take(i).map_values(keep), stored_entry(headers[i]));
}

/// Turns what the builder made of the request into the result of the
/// handshake's preparation.
pub fn finish_request(
    built: Result<Request<()>, async_tungstenite::tungstenite::http::Error>,
) -> (r: Result<Request<()>, WsError>)
    ensures
        r == match built {
            Ok(request) => Ok::<Request<()>, WsError>(request),
            Err(why) => Err(WsError::Handshake(why)),
        },
{
    match built {
        Ok(request) => Ok(request),
        Err(why) => Err(WsError::Handshake(why)),
    }
}

/// What a finished request holds when it was built for `url` from a list
/// of headers.
pub open spec fn request_holds(
    request: Request<()>,
    url: Seq<char>,
    headers: Seq<(Seq<char>, Seq<char>)>,
) -> bool {
    &&& request_method(request) == "GET"@
    &&& request_address(request) == stored_address(url)
    &&& request_headers(request) == stored_entries(headers)
}

/// Builds the handshake request to `url` from a list of headers, which it
/// adds in their order. A request comes back only where `http` takes the
/// address and every header, and for a list of no more than `HEADER_BOUND`
/// headers exactly there. It is a GET request that holds the address as
/// `http` keeps it, one entry for each header of the list and no other.
/// An error is a handshake error.
pub fn request_with_headers(url: &str, headers: &Vec<Header>) -> (r: Result<Request<()>, WsError>)
    ensures
        r is Ok ==> address_taken(url@) && headers_taken(headers_view(headers@)),
        headers@.len() <= HEADER_BOUND && address_taken(url@) && headers_taken(
            headers_view(headers@),
        ) ==> r is Ok,
        match r {
            Ok(request) => request_holds(request, url@, headers_view(headers@)),
            Err(why) => why is Handshake,
        },
{
    let mut builder = request_get(url);
    let mut i: usize = 0;
    let ghost table = headers_view(headers@);
    assert(stored_entries(table.take(0)) == no_entries()) by {
        assert(table.take(0).map_values(|header: (Seq<char>, Seq<char>)| stored_entry(header))
            =~= Seq::<(Seq<char>, Seq<char>)>::empty());
        vstd::seq_lib::to_multiset_len(Seq::<(Seq<char>, Seq<char>)>::empty());
        vstd::multiset::lemma_multiset_empty_len(
            Seq::<(Seq<char>, Seq<char>)>::empty().to_multiset(),
        );
    }
    while i < headers.len()
        invariant
            i <= headers.len(),
            table == headers_view(headers@),
            !builder_failed(builder) ==> address_taken(url@) && headers_taken(table.take(i as int)),
            headers@.len() <= HEADER_BOUND && address_taken(url@) && headers_taken(
                table.take(i as int),
            ) ==> !builder_failed(builder),
            !builder_failed(builder) ==> builder_method(builder) == "GET"@,
            !builder_failed(builder) ==> builder_address(builder) == stored_address(url@),
            !builder_failed(builder) ==> builder_headers(builder) == stored_entries(
                table.take(i as int),
            ),
        decreases headers.len() - i,
    {
        proof {
            lemma_entries_step(table, i as int);
            lemma_entries_len(table.take(i as int));
            assert(table[i as int] == headers@[i as int]@);
            assert(table.take(i + 1).drop_last() =~= table.take(i as int));
            assert(headers_taken(table.take(i + 1)) ==> headers_taken(table.take(i as int))) by {
                if headers_taken(table.take(i + 1)) {
                    assert forall|j: int| 0 <= j < i implies header_taken(
                        (#[trigger] table.take(i as int)[j]).0,
                        table.take(i as int)[j].1,
                    ) by {
                        assert(table.take(i + 1)[j] == table.take(i as int)[j]);
                    }
                }
            }
            assert(headers_taken(table.take(i + 1)) ==> header_taken(table[i as int].0, table[i as int].1)) by {
                if headers_taken(table.take(i + 1)) {
                    assert(table.take(i + 1)[i as int] == table[i as int]);
                }
            }
            assert(headers_taken(table.take(i as int)) && header_taken(
                table[i as int].0,
                table[i as int].1,
            ) ==> headers_taken(table.take(i + 1))) by {
                if headers_taken(table.take(i as int)) && header_taken(
                    table[i as int].0,
                    table[i as int].1,
                ) {
                    assert forall|j: int| 0 <= j < i + 1 implies header_taken(
                        (#[trigger] table.take(i + 1)[j]).0,
                        table.take(i + 1)[j].1,
                    ) by {
                        if j < i {
                            assert(table.take(i as int)[j] == table.take(i + 1)[j]);
                        }
                    }
                }
            }
        }
        builder = request_header(builder, headers[i].name.as_str(), headers[i].value.as_str());
        i += 1;
    }
    assert(table.take(i as int) =~= table);
    finish_request(request_body(builder))
}

/// Builds the handshake request to `url`, with a key drawn for this
/// connection. There is a key of the shape of a handshake key for which a
/// request comes back exactly where `http` takes the address and every
/// header of the table, and that request is a GET request that holds the
/// address as `http` keeps it, the table and no other header. An error is
/// a handshake error.
pub fn create_request(url: &str) -> (r: Result<Request<()>, WsError>)
    ensures
        exists|key: Seq<char>|
            {
                &&& key_shape(key)
                &&& r is Ok <==> address_taken(url@) && headers_taken(#[trigger] header_table(key))
                &&& r is Ok ==> request_holds(r->Ok_0, url@, header_table(key))
            },
        r is Err ==> r->Err_0 is Handshake,
{
    let headers = fresh_handshake_headers();
    let r = request_with_headers(url, &headers);
    proof {
        let key = headers@[KEY_INDEX as int].value@;
        assert(headers_view(headers@) == header_table(key));
        assert(key_shape(key));
    }
    r
}

} // verus!
