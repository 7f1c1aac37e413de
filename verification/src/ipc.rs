//! The wire protocol between daemon and client.
//!
//! One message per line. Each side first sends a [`Hello`]; every later line
//! is a [`ClientRequest`] or a [`ServerEvent`]. Both carry the id of the
//! request that they belong to, so that no client takes the answer to another
//! client's request for its own.

use vstd::prelude::*;

use crate::event::Event;
use crate::paths;
use crate::text;
use crate::worker::Request;

verus! {

pub const PROTOCOL_VERSION: u32 = 3;

/// A request and the id that its answers will carry.
#[derive(Debug)]
pub struct ClientRequest {
    pub id: u64,
    pub request: Request,
}

/// An event and the request that it answers; none where nobody asked.
#[derive(Debug)]
pub struct ServerEvent {
    pub request_id: Option<u64>,
    pub event: Event,
}

impl ServerEvent {
    /// An event that no client asked for.
    pub fn unsolicited(event: Event) -> (r: Self)
        ensures
            r == (ServerEvent { request_id: None, event }),
    {
        ServerEvent { request_id: None, event }
    }
}

/// The first line of either side.
#[derive(Debug)]
pub struct Hello {
    pub version: u32,
    pub build: String,
}

impl Hello {
    /// The greeting of this build.
    pub fn of_build(build: &str) -> (r: Self)
        ensures
            server_hello_error(Some(r)) is None && client_hello_error(Some(r)) is None,
            !differs(r.build@, build@),
            r.version == PROTOCOL_VERSION,
            r.build@ == build@,
    {
        Hello { version: PROTOCOL_VERSION, build: build.to_owned() }
    }
}

/// The path of the daemon's socket: the one that was asked for, or else
/// `macwifi/daemon.sock` in the directory of application data.
pub open spec fn socket_at(asked: Option<Seq<char>>, data_dir: Seq<char>) -> Seq<char> {
    match asked {
        Some(path) => path,
        None => paths::joined(paths::joined(data_dir, "macwifi"@), "daemon.sock"@),
    }
}

/// The path of the daemon's socket.
pub fn socket_path(asked: Option<&str>, data_dir: &str) -> (r: String)
    ensures
        r@ == socket_at(text::opt_str(asked), data_dir@),
{
    match asked {
        Some(path) => path.to_owned(),
        None => {
            let directory = paths::join(data_dir, "macwifi");
            paths::join(directory.as_str(), "daemon.sock")
        },
    }
}

/// A message as it is written: the text and a line feed.
pub open spec fn framed(message: Seq<char>) -> Seq<char> {
    message.push('\n')
}

/// The message of a line, or none where the connection is at its end.
pub open spec fn unframed(line: Seq<char>) -> Option<Seq<char>> {
    if line.len() == 0 {
        None
    } else {
        Some(text::trim_end_of(line))
    }
}

/// A message as it is written.
pub fn write_line(message: &str) -> (r: String)
    ensures
        r@ == framed(message@),
{
    let mut line = message.to_owned();
    line.push('\n');
    line
}

/// The message of a line that was read; an empty read is the end of the
/// connection.
pub fn read_line(line: &str) -> (r: Option<String>)
    ensures
        text::opt_text(r) == unframed(line@),
{
    if line.is_empty() {
        None
    } else {
        Some(text::trim_end(line))
    }
}

/// Whatever message is written, the other side reads it back unchanged, as
/// long as it does not end in white space.
pub proof fn a_written_message_is_read_back(message: Seq<char>)
    requires
        message.len() > 0 ==> !text::is_space(message.last()),
    ensures
        unframed(framed(message)) == Some(message),
{
    assert(framed(message).drop_last() =~= message);
    assert(text::trim_end_of(framed(message)) == text::trim_end_of(message));
}

/// What is written for some messages, one after the other.
pub open spec fn written(messages: Seq<Seq<char>>) -> Seq<char>
    decreases messages.len(),
{
    if messages.len() == 0 {
        seq![]
    } else {
        framed(messages[0]) + written(messages.skip(1))
    }
}

/// How long the first line of a stream is, its line feed included.
pub open spec fn first_line(stream: Seq<char>) -> nat {
    if text::line_len(stream) < stream.len() {
        text::line_len(stream) + 1
    } else {
        stream.len()
    }
}

/// The messages that are read from a stream, line by line, until its end.
pub open spec fn messages_in(stream: Seq<char>) -> Seq<Seq<char>>
    decreases stream.len(),
{
    if stream.len() == 0 {
        seq![]
    } else {
        let n = first_line(stream) as int;
        seq![text::trim_end_of(stream.take(n))] + messages_in(stream.skip(n))
    }
}

/// Whatever messages are written, the other side reads exactly those, in
/// order, as long as none holds a line feed or ends in white space.
pub proof fn a_stream_falls_apart_into_its_messages(messages: Seq<Seq<char>>)
    requires
        forall|i: int|
            0 <= i < messages.len() ==> !(#[trigger] messages[i]).contains('\n') && (
            messages[i].len() > 0 ==> !text::is_space(messages[i].last())),
    ensures
        messages_in(written(messages)) == messages,
    decreases messages.len(),
{
    if messages.len() > 0 {
        let message = messages[0];
        let rest = written(messages.skip(1));
        let stream = framed(message) + rest;
        let n = message.len() as int + 1;
        assert forall|i: int| 0 <= i < messages.skip(1).len() implies !(
        #[trigger] messages.skip(1)[i]).contains('\n') && (messages.skip(1)[i].len() > 0
            ==> !text::is_space(messages.skip(1)[i].last())) by {
            assert(messages.skip(1)[i] == messages[i + 1]);
        }
        a_stream_falls_apart_into_its_messages(messages.skip(1));
        lemma_line_len(message, rest);
        assert(stream.take(n) =~= framed(message));
        assert(stream.skip(n) =~= rest);
        a_written_message_is_read_back(message);
        assert(messages_in(stream) =~= seq![message] + messages.skip(1));
        assert(seq![message] + messages.skip(1) =~= messages);
    }
}

proof fn lemma_line_len(message: Seq<char>, rest: Seq<char>)
    requires
        !message.contains('\n'),
    ensures
        text::line_len(framed(message) + rest) == message.len(),
    decreases message.len(),
{
    let s = framed(message) + rest;
    if message.len() > 0 {
        let tail = message.skip(1);
        assert(message.contains(message[0]));
        assert forall|i: int| 0 <= i < tail.len() implies tail[i] != '\n' by {
            assert(message.contains(message[i + 1]));
        }
        lemma_line_len(tail, rest);
        assert(s.skip(1) =~= framed(tail) + rest);
    }
}

/// What a client says of the daemon's greeting.
pub open spec fn server_hello_error(hello: Option<Hello>) -> Option<Seq<char>> {
    match hello {
        None => Some("daemon closed before hello"@),
        Some(h) => if h.version != PROTOCOL_VERSION {
            Some(
                "protocol version mismatch (server "@ + text::decimal(h.version as nat)
                    + ", client "@ + text::decimal(PROTOCOL_VERSION as nat) + ")"@,
            )
        } else {
            None
        },
    }
}

/// What the daemon says of a client's greeting.
pub open spec fn client_hello_error(hello: Option<Hello>) -> Option<Seq<char>> {
    match hello {
        None => Some("client closed before hello"@),
        Some(h) => if h.version != PROTOCOL_VERSION {
            Some(
                "protocol version mismatch (client "@ + text::decimal(h.version as nat)
                    + ", server "@ + text::decimal(PROTOCOL_VERSION as nat) + ")"@,
            )
        } else {
            None
        },
    }
}

/// A client accepts the daemon's greeting, or says why not.
pub fn check_server_hello(hello: &Option<Hello>) -> (r: Result<(), String>)
    ensures
        match r {
            Ok(_) => server_hello_error(*hello) is None,
            Err(e) => server_hello_error(*hello) == Some(e@),
        },
{
    match hello {
        None => Err("daemon closed before hello".to_owned()),
        Some(h) => {
            if h.version != PROTOCOL_VERSION {
                let theirs = text::decimal_text(h.version as u128);
                let ours = text::decimal_text(PROTOCOL_VERSION as u128);
                Err(
                    text::cat5(
                        "protocol version mismatch (server ",
                        theirs.as_str(),
                        ", client ",
                        ours.as_str(),
                        ")",
                    ),
                )
            } else {
                Ok(())
            }
        },
    }
}

/// The daemon accepts a client's greeting, or says why not.
pub fn check_client_hello(hello: &Option<Hello>) -> (r: Result<(), String>)
    ensures
        match r {
            Ok(_) => client_hello_error(*hello) is None,
            Err(e) => client_hello_error(*hello) == Some(e@),
        },
{
    match hello {
        None => Err("client closed before hello".to_owned()),
        Some(h) => {
            if h.version != PROTOCOL_VERSION {
                let theirs = text::decimal_text(h.version as u128);
                let ours = text::decimal_text(PROTOCOL_VERSION as u128);
                Err(
                    text::cat5(
                        "protocol version mismatch (client ",
                        theirs.as_str(),
                        ", server ",
                        ours.as_str(),
                        ")",
                    ),
                )
            } else {
                Ok(())
            }
        },
    }
}

/// The builds are not the same.
pub open spec fn differs(theirs: Seq<char>, ours: Seq<char>) -> bool {
    theirs != ours
}

/// Whether the other side runs another build, as a daemon does that was left
/// running when the program was replaced.
pub fn other_build(hello: &Hello, build: &str) -> (r: bool)
    ensures
        r == differs(hello.build@, build@),
        r == (hello.build@ != build@),
{
    !text::same_text(hello.build.as_str(), build)
}

/// Both sides accept each other exactly where they speak the same version, and
/// neither accepts a connection that is closed before the greeting.
pub proof fn only_equal_versions_connect(hello: Option<Hello>)
    ensures
        server_hello_error(hello) is None <==> client_hello_error(hello) is None,
        client_hello_error(hello) is None <==> (hello matches Some(h) && h.version
            == PROTOCOL_VERSION),
{
}

/// A mismatch of versions is told with both versions, each under the side that
/// speaks it; a connection that closes early is told as that.
pub proof fn a_mismatch_names_both_versions(hello: Hello)
    requires
        hello.version != 3,
    ensures
        server_hello_error(Some(hello)) == Some(
            "protocol version mismatch (server "@ + text::decimal(hello.version as nat)
                + ", client "@ + text::decimal(3) + ")"@,
        ),
        client_hello_error(Some(hello)) == Some(
            "protocol version mismatch (client "@ + text::decimal(hello.version as nat)
                + ", server "@ + text::decimal(3) + ")"@,
        ),
        server_hello_error(None) == Some("daemon closed before hello"@),
        client_hello_error(None) == Some("client closed before hello"@),
        PROTOCOL_VERSION == 3,
{
}

/// A build differs from every other build, and not from itself.
pub proof fn only_another_build_differs(a: Seq<char>, b: Seq<char>)
    ensures
        !differs(a, a),
        a != b ==> differs(a, b),
{
}

/// A socket that is asked for is the one that is used, wherever the data lies;
/// otherwise it lies with the data.
pub proof fn a_socket_that_is_asked_for_is_used(
    path: Seq<char>,
    data_dir: Seq<char>,
)
    requires
        data_dir.len() > 0,
        data_dir.last() != '/',
    ensures
        socket_at(Some(path), data_dir) == path,
        socket_at(None, data_dir) == data_dir + "/macwifi/daemon.sock"@,
{
    reveal_strlit("/");
    reveal_strlit("macwifi");
    reveal_strlit("daemon.sock");
    reveal_strlit("/macwifi/daemon.sock");
    let inner = data_dir + "/"@ + "macwifi"@;
    assert(inner.last() == 'i');
    assert(inner + "/"@ + "daemon.sock"@ =~= data_dir + "/macwifi/daemon.sock"@);
}

} // verus!
