//! One request, one reply: what came back from the socket, and its decoding
//! into text frames.

use vstd::prelude::*;
use vstd::string::StringExecFns;
use vstd::utf8::{decode_utf8, valid_utf8};
use crate::error::{Failure, RcError};
use crate::json::{parse_json, parse_result, JsonValue};

verus! {

/// How long a reply is waited for, in milliseconds.
pub const REPLY_TIMEOUT_MS: i64 = 2000;

/// Where the multiplexer listens: one address for the remote control, one
/// for the statistics.
#[derive(Debug, Clone, PartialEq, Eq)]
pub struct Endpoints {
    pub rc_endpoint: String,
    pub stats_endpoint: String,
}

impl Endpoints {
    /// The addresses of a multiplexer on this machine with its usual ports.
    pub fn new() -> (r: Self)
        ensures
            r.rc_endpoint@ == "tcp://127.0.0.1:12722"@,
            r.stats_endpoint@ == "tcp://127.0.0.1:12720"@,
    {
        Endpoints {
            rc_endpoint: String::from_str("tcp://127.0.0.1:12722"),
            stats_endpoint: String::from_str("tcp://127.0.0.1:12720"),
        }
    }
}

/// The outcome of waiting for the reply to one request.
#[derive(Debug, Clone, PartialEq, Eq)]
pub enum Reply {
    /// The frames of the reply, as raw bytes.
    Frames(Vec<Vec<u8>>),
    /// Nothing arrived within [`REPLY_TIMEOUT_MS`].
    TimedOut,
}

/// The character sequences of a list of strings.
pub open spec fn texts(frames: Seq<String>) -> Seq<Seq<char>> {
    frames.map_values(|s: String| s@)
}

/// Every frame is valid UTF-8.
pub open spec fn all_text(frames: Seq<Vec<u8>>) -> bool {
    forall|i: int| 0 <= i < frames.len() ==> valid_utf8(#[trigger] frames[i]@)
}

/// The frames of a reply as text: a timeout for a reply that never came,
/// a malformed response where a frame is not valid UTF-8.
pub open spec fn decoded(reply: Reply) -> Result<Seq<Seq<char>>, Failure> {
    match reply {
        Reply::TimedOut => Err(Failure::Timeout),
        Reply::Frames(frames) => if all_text(frames@) {
            Ok(frames@.map_values(|f: Vec<u8>| decode_utf8(f@)))
        } else {
            Err(Failure::MalformedResponse("UTF-8"@))
        },
    }
}

/// The one frame of a single-frame reply; any other number of frames is
/// unexpected framing.
pub open spec fn single_frame_of(frames: Seq<Seq<char>>) -> Result<Seq<char>, Failure> {
    if frames.len() == 1 {
        Ok(frames[0])
    } else {
        Err(Failure::UnexpectedFraming)
    }
}

/// `String::from_utf8` on a copy of the bytes: a string exactly when the
/// bytes are valid UTF-8, and then the text that they encode.
#[verifier::external_body]
fn text_of_bytes(bytes: &Vec<u8>) -> (r: Option<String>)
    ensures
        r is Some <==> valid_utf8(bytes@),
        r matches Some(s) ==> s@ == decode_utf8(bytes@),
{
    String::from_utf8(bytes.clone()).ok()
}

/// Decodes what came back from the socket into text frames.
pub fn decode_reply(reply: Reply) -> (r: Result<Vec<String>, RcError>)
    ensures
        match r {
            Ok(frames) => decoded(reply) == Ok::<Seq<Seq<char>>, Failure>(texts(frames@)),
            Err(e) => decoded(reply) == Err::<Seq<Seq<char>>, Failure>(e@),
        },
{
    match &reply {
        Reply::TimedOut => Err(RcError::Timeout),
        Reply::Frames(frames) => {
            let mut parts: Vec<String> = Vec::new();
            let mut i: usize = 0;
            while i < frames.len()
                invariant
                    i <= frames.len(),
                    reply == Reply::Frames(*frames),
                    parts@.len() == i,
                    forall|k: int| 0 <= k < i ==> valid_utf8(#[trigger] frames@[k]@),
                    forall|k: int| 0 <= k < i ==> (#[trigger] parts@[k])@ == decode_utf8(frames@[k]@),
                decreases frames.len() - i,
            {
                match text_of_bytes(&frames[i]) {
                    Some(s) => {
                        parts.push(s);
                    },
                    None => {
                        assert(!valid_utf8(frames@[i as int]@));
                        return Err(RcError::MalformedResponse(String::from_str("UTF-8")));
                    },
                }
                i += 1;
            }
            assert(texts(parts@) =~= frames@.map_values(|f: Vec<u8>| decode_utf8(f@)));
            Ok(parts)
        },
    }
}

/// Takes the one frame out of a single-frame reply.
pub fn single_frame(frames: Vec<String>) -> (r: Result<String, RcError>)
    ensures
        match r {
            Ok(text) => single_frame_of(texts(frames@)) == Ok::<Seq<char>, Failure>(text@),
            Err(e) => single_frame_of(texts(frames@)) == Err::<Seq<char>, Failure>(e@),
        },
{
    if frames.len() == 1 {
        Ok(frames[0].clone())
    } else {
        Err(RcError::UnexpectedFraming)
    }
}

/// The JSON document of a single-frame reply: the reply must arrive, be
/// text, have exactly one frame, and that frame must be JSON.
pub open spec fn document_of(reply: Reply) -> Result<JsonValue, Failure> {
    match decoded(reply) {
        Err(e) => Err(e),
        Ok(frames) => match single_frame_of(frames) {
            Err(e) => Err(e),
            Ok(text) => parse_result(text),
        },
    }
}

/// Reads a single-frame reply as a JSON document.
pub fn document_from_reply(reply: Reply) -> (r: Result<JsonValue, RcError>)
    ensures
        match r {
            Ok(tree) => document_of(reply) == Ok::<JsonValue, Failure>(tree),
            Err(e) => document_of(reply) == Err::<JsonValue, Failure>(e@),
        },
        reply is TimedOut ==> r matches Err(RcError::Timeout),
{
    let frames = match decode_reply(reply) {
        Ok(frames) => frames,
        Err(e) => {
            return Err(e);
        },
    };
    let text = match single_frame(frames) {
        Ok(text) => text,
        Err(e) => {
            return Err(e);
        },
    };
    parse_json(text.as_str())
}

} // verus!
