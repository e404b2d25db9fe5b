//! What a file server answers: which requests are served, which file a
//! request names, and the reply for each result of the lookup.
//!
//! The transport is the caller's.  It hands in the method and the path of a
//! request, performs the lookup that [`DataSourceService::call`] names, and
//! sends the [`Reply`] that [`DataSourceService::respond`] builds.

use vstd::prelude::*;
use vstd::string::*;
use crate::error::FetchError;
use crate::source::{Content, DataSource, Lookup};

verus! {

/// The prefix that is stripped from the path of a request.
pub open spec fn route_prefix() -> Seq<char> {
    "/files/"@
}

/// `s` begins with `prefix`.
pub open spec fn starts_with(s: Seq<char>, prefix: Seq<char>) -> bool {
    s.len() >= prefix.len() && s.subrange(0, prefix.len() as int) == prefix
}

/// `s` without every leading repetition of `prefix`.
pub open spec fn trimmed(s: Seq<char>, prefix: Seq<char>) -> Seq<char>
    decreases s.len(),
{
    if prefix.len() > 0 && starts_with(s, prefix) {
        trimmed(s.subrange(prefix.len() as int, s.len() as int), prefix)
    } else {
        s
    }
}

/// Strips every leading repetition of `prefix` from `s`.
pub fn trim_start(s: &str, prefix: &str) -> (r: String)
    ensures
        r@ == trimmed(s@, prefix@),
{
    let n = s.unicode_len();
    let m = prefix.unicode_len();
    if m == 0 {
        return String::from_str(s);
    }
    let mut pos: usize = 0;
    let mut more = true;
    assert(s@.subrange(0, n as int) =~= s@);
    while more
        invariant
            pos <= n,
            n == s@.len(),
            m == prefix@.len(),
            m > 0,
            trimmed(s@, prefix@) == trimmed(s@.subrange(pos as int, n as int), prefix@),
            !more ==> !starts_with(s@.subrange(pos as int, n as int), prefix@),
        decreases
                n - pos + if more {
                    1int
                } else {
                    0int
                },
    {
        let ghost rest = s@.subrange(pos as int, n as int);
        if n - pos >= m && s.substring_char(pos, pos + m).eq(prefix) {
            assert(rest.subrange(0, m as int) =~= s@.subrange(pos as int, pos + m));
            assert(rest.subrange(m as int, rest.len() as int) =~= s@.subrange(pos + m, n as int));
            pos += m;
        } else {
            assert(n - pos >= m ==> rest.subrange(0, m as int) =~= s@.subrange(
                pos as int,
                pos + m,
            ));
            more = false;
        }
    }
    String::from_str(s.substring_char(pos, n))
}

/// The status of the reply to a failed lookup: 404 where there is nothing to
/// read, 413 where the size ceiling was broken, 500 for every other failure.
pub open spec fn status_of(error: FetchError) -> u16 {
    match error {
        FetchError::NF | FetchError::NFD(_) => 404,
        FetchError::S => 413,
        _ => 500,
    }
}

/// The status line for the codes that this server sends.  It sends no other
/// code; one handed in all the same reads as the internal error.
pub open spec fn status_text(status: u16) -> Seq<char> {
    if status == 404 {
        "404 Not Found"@
    } else if status == 405 {
        "405 Method Not Allowed"@
    } else if status == 413 {
        "413 Payload Too Large"@
    } else if status == 200 {
        "200 OK"@
    } else {
        "500 Internal Server Error"@
    }
}

/// The media type that `mime_guess` gives for a path.
pub uninterp spec fn guessed_mime(path: Seq<char>) -> Seq<char>;

/// `mime_guess::from_path` with `first_or_octet_stream`, printed as text:
/// the guess goes by the path's extension alone and reads no file.  The
/// result is a function of the path; nothing more is claimed of it.
#[verifier::external_body]
fn guess_mime(path: &str) -> (r: String)
    ensures
        r@ == guessed_mime(path@),
{
    mime_guess::from_path(path).first_or_octet_stream().to_string()
}

/// What is sent back to the client.
#[derive(Debug, Clone)]
pub struct Reply {
    pub status: u16,
    pub content_type: Option<String>,
    pub body: Vec<u8>,
}

/// A reply as plain values.
pub ghost struct ReplyView {
    pub status: u16,
    pub content_type: Option<Seq<char>>,
    pub body: Seq<u8>,
}

impl View for Reply {
    type V = ReplyView;

    open spec fn view(&self) -> ReplyView {
        ReplyView {
            status: self.status,
            content_type: self.content_type.deep_view(),
            body: self.body@,
        }
    }
}

/// What the transport does with a request.
pub enum Served<'a> {
    /// Send this reply; no file is looked up.
    Refused(Reply),
    /// Perform the lookup of `path` and answer with the reply for its result.
    Resolve { path: String, lookup: Lookup<'a> },
}

/// A file server over one data source.
pub struct DataSourceService {
    pub data_source: DataSource,
}

/// Only reading methods are served.
pub open spec fn is_served(method: Seq<char>) -> bool {
    method == "GET"@ || method == "HEAD"@
}

/// The reply to a method that is not served.
pub open spec fn refusal() -> ReplyView {
    ReplyView { status: 405, content_type: None, body: "Method not allowed".spec_bytes() }
}

/// The text of the reply to a failed lookup: the status line, the requested
/// path and the error, each separated from the next by an empty line.
pub open spec fn failure_text(path: Seq<char>, error: FetchError) -> Seq<char> {
    status_text(status_of(error)) + "\n\n"@ + path + "\n\n"@ + error.message_text()
}

/// The reply for the result of looking `path` up.
pub open spec fn reply_for(path: Seq<char>, content: Content) -> ReplyView {
    match content {
        Ok((bytes, _)) => ReplyView {
            status: 200,
            content_type: Some(guessed_mime(path)),
            body: bytes@,
        },
        Err(error) => ReplyView {
            status: status_of(error),
            content_type: None,
            body: vstd::utf8::encode_utf8(failure_text(path, error)),
        },
    }
}

/// The status of the reply to a failed lookup.
pub fn error_status(error: &FetchError) -> (r: u16)
    ensures
        r == status_of(*error),
{
    match error {
        FetchError::NF => 404,
        FetchError::NFD(_) => 404,
        FetchError::S => 413,
        _ => 500,
    }
}

/// The status line of a status that this server sends.
pub fn status_line(status: u16) -> (r: String)
    ensures
        r@ == status_text(status),
{
    if status == 404 {
        String::from_str("404 Not Found")
    } else if status == 405 {
        String::from_str("405 Method Not Allowed")
    } else if status == 413 {
        String::from_str("413 Payload Too Large")
    } else if status == 200 {
        String::from_str("200 OK")
    } else {
        String::from_str("500 Internal Server Error")
    }
}

/// Decides whether a request is served and which file it names.  Any method
/// but `GET` and `HEAD` is refused with status 405.  The file is named by the
/// path without the leading `/files/`.
pub fn route(method: &str, uri_path: &str) -> (r: Result<String, Reply>)
    ensures
        is_served(method@) ==> (r matches Ok(path) && path@ == trimmed(
            uri_path@,
            route_prefix(),
        )),
        !is_served(method@) ==> (r matches Err(reply) && reply@ == refusal()),
{
    if method.eq("GET") || method.eq("HEAD") {
        Ok(trim_start(uri_path, "/files/"))
    } else {
        Err(
            Reply {
                status: 405,
                content_type: None,
                body: "Method not allowed".as_bytes_vec(),
            },
        )
    }
}

impl DataSourceService {
    pub fn new(data_source: DataSource) -> (r: Self)
        ensures
            r.data_source == data_source,
    {
        DataSourceService { data_source }
    }

    /// `served` is the answer to a request with this method and path.
    pub open spec fn serves(self, method: Seq<char>, uri_path: Seq<char>, served: Served) -> bool {
        if is_served(method) {
            served matches Served::Resolve { path, lookup } && path@ == trimmed(
                uri_path,
                route_prefix(),
            ) && self.data_source.resolved_by(path@, lookup)
        } else {
            served matches Served::Refused(reply) && reply@ == refusal()
        }
    }

    /// Takes a request: a request that is served begins the lookup of the
    /// file it names in the data source.
    pub fn call(&self, method: &str, uri_path: &str) -> (r: Served<'_>)
        ensures
            self.serves(method@, uri_path@, r),
    {
        match route(method, uri_path) {
            Ok(path) => {
                let lookup = self.data_source.get_file_content(path.as_str());
                Served::Resolve { path, lookup }
            },
            Err(reply) => Served::Refused(reply),
        }
    }

    /// The reply for the result of a lookup.  Content is sent with status
    /// 200 and the media type guessed from the path.  A failure is sent with
    /// the status of its kind and a text that names the path and the error.
    pub fn respond(path: &str, content: Content) -> (r: Reply)
        ensures
            r@ == reply_for(path@, content),
    {
        match content {
            Ok((bytes, _)) => Reply {
                status: 200,
                content_type: Some(guess_mime(path)),
                body: bytes,
            },
            Err(error) => {
                let status = error_status(&error);
                let mut text = status_line(status);
                text.append("\n\n");
                text.append(path);
                text.append("\n\n");
                text.append(error.message().as_str());
                Reply { status, content_type: None, body: text.as_str().as_bytes_vec() }
            },
        }
    }
}

/// Takes a request for `path` as a route hands it over: the request is a
/// `GET` for the path behind a single `/`.
pub fn handle_file_request<'a>(path: &str, service: &'a DataSourceService) -> (r: Served<'a>)
    ensures
        service.serves("GET"@, seq!['/'] + path@, r),
{
    let mut uri = String::from_str("/");
    uri.append(path);
    proof {
        reveal_strlit("/");
        assert("/"@ =~= seq!['/']);
    }
    service.call("GET", uri.as_str())
}

} // verus!
