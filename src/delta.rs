use vstd::prelude::*;
use vstd::string::StringExecFns;
use crate::json::{find_member, json_parse, member, parse_json, Json};
use crate::message::Role;

verus! {

/// The shape of the `delta` member of a streamed choice.
#[derive(Debug)]
pub enum Delta {
    Role { role: Role },
    Content { content: String },
    NoData {},
}

/// One decoded step of a streamed reply.
#[derive(Debug)]
pub enum MessageDelta {
    /// A fragment of the reply's text.
    Delta(String),
    /// The role of the reply's author.
    Role(Role),
    /// A frame that carries no content.
    NoData,
    /// The end of the reply: nothing more is read.
    Done,
}

/// Why a frame could not be decoded. Each of these ends the stream.
#[derive(Debug)]
pub enum StreamError {
    /// The transport failed; the text describes how.
    StreamReadFailed(String),
    /// The frame's payload is not JSON of the expected shape.
    InvalidJson,
    /// The payload holds no choice.
    InvalidEvent,
}

/// One record of a server-sent event stream, as the transport hands it over.
#[derive(Debug)]
pub enum SseRecord {
    /// The connection was opened.
    Open,
    /// A message frame with its data payload.
    Message(String),
    /// The transport failed; the text describes how.
    Failed(String),
}

/// The role that a role name stands for.
pub open spec fn role_named(s: Seq<char>) -> Option<Role> {
    if s == "user"@ {
        Some(Role::User)
    } else if s == "system"@ {
        Some(Role::System)
    } else if s == "assistant"@ {
        Some(Role::Assistant)
    } else {
        None
    }
}

/// The role named by the member `role` of a delta object, if it names one.
pub open spec fn role_member(m: Seq<(String, Json)>) -> Option<Role> {
    match member(m, "role"@) {
        Some(Json::Str(s)) => role_named(s@),
        _ => None,
    }
}

/// The text of the member `content` of a delta object, if it is a string.
pub open spec fn content_member(m: Seq<(String, Json)>) -> Option<String> {
    match member(m, "content"@) {
        Some(Json::Str(s)) => Some(s),
        _ => None,
    }
}

/// The shape of a delta: a role first, else a content, else neither. Only an
/// object is a delta.
pub open spec fn delta_of(d: Json) -> Option<Delta> {
    match d {
        Json::Object(m) => Some(
            if role_member(m@) is Some {
                Delta::Role { role: role_member(m@)->0 }
            } else if content_member(m@) is Some {
                Delta::Content { content: content_member(m@)->0 }
            } else {
                Delta::NoData {  }
            },
        ),
        _ => None,
    }
}

/// The step that a delta stands for.
pub open spec fn step_of(d: Delta) -> MessageDelta {
    match d {
        Delta::Role { role } => MessageDelta::Role(role),
        Delta::Content { content } => MessageDelta::Delta(content),
        Delta::NoData {  } => MessageDelta::NoData,
    }
}

/// The delta of the first choice of a choice list.
pub open spec fn first_choice_delta(choices: Seq<Json>) -> Result<MessageDelta, StreamError> {
    if choices.len() == 0 {
        Err(StreamError::InvalidEvent)
    } else {
        match choices[0] {
            Json::Object(c) => match member(c@, "delta"@) {
                Some(d) => match delta_of(d) {
                    Some(x) => Ok(step_of(x)),
                    None => Err(StreamError::InvalidJson),
                },
                None => Err(StreamError::InvalidJson),
            },
            _ => Err(StreamError::InvalidJson),
        }
    }
}

/// The step that a parsed payload stands for: an object whose `choices`
/// member is a list, the first of which carries the delta.
pub open spec fn payload_step(j: Json) -> Result<MessageDelta, StreamError> {
    match j {
        Json::Object(top) => match member(top@, "choices"@) {
            Some(Json::Array(choices)) => first_choice_delta(choices@),
            _ => Err(StreamError::InvalidJson),
        },
        _ => Err(StreamError::InvalidJson),
    }
}

/// The step that a data payload stands for: the sentinel `[DONE]` ends the
/// reply; anything else must be JSON.
pub open spec fn data_step(data: Seq<char>) -> Result<MessageDelta, StreamError> {
    if data == "[DONE]"@ {
        Ok(MessageDelta::Done)
    } else {
        match json_parse(data) {
            Some(j) => payload_step(j),
            None => Err(StreamError::InvalidJson),
        }
    }
}

/// The step that a stream record stands for.
pub open spec fn record_step(rec: SseRecord) -> Result<MessageDelta, StreamError> {
    match rec {
        SseRecord::Open => Ok(MessageDelta::NoData),
        SseRecord::Message(data) => data_step(data@),
        SseRecord::Failed(why) => Err(StreamError::StreamReadFailed(why)),
    }
}

/// The role that a role name stands for.
pub fn role_from_name(s: &String) -> (r: Option<Role>)
    ensures
        r == role_named(s@),
{
    if *s == String::from_str("user") {
        Some(Role::User)
    } else if *s == String::from_str("system") {
        Some(Role::System)
    } else if *s == String::from_str("assistant") {
        Some(Role::Assistant)
    } else {
        None
    }
}

impl Delta {
    /// The shape of a delta object; `None` where `d` is no object.
    pub fn from_json(d: &Json) -> (r: Option<Delta>)
        ensures
            r == delta_of(*d),
    {
        match d {
            Json::Object(m) => {
                let role_at = find_member(m, &String::from_str("role"));
                if let Some(i) = role_at {
                    if let Json::Str(s) = &m[i].1 {
                        if let Some(role) = role_from_name(s) {
                            return Some(Delta::Role { role });
                        }
                    }
                }
                let content_at = find_member(m, &String::from_str("content"));
                if let Some(i) = content_at {
                    if let Json::Str(s) = &m[i].1 {
                        return Some(Delta::Content { content: s.clone() });
                    }
                }
                Some(Delta::NoData {  })
            },
            _ => None,
        }
    }

    /// The step that this delta stands for.
    pub fn into_step(self) -> (r: MessageDelta)
        ensures
            r == step_of(self),
    {
        match self {
            Delta::Role { role } => MessageDelta::Role(role),
            Delta::Content { content } => MessageDelta::Delta(content),
            Delta::NoData {  } => MessageDelta::NoData,
        }
    }
}

/// The step that a parsed payload stands for.
pub fn decode_payload(j: &Json) -> (r: Result<MessageDelta, StreamError>)
    ensures
        r == payload_step(*j),
{
    match j {
        Json::Object(top) => {
            let at = find_member(top, &String::from_str("choices"));
            match at {
                Some(i) => match &top[i].1 {
                    Json::Array(choices) => {
                        if choices.len() == 0 {
                            return Err(StreamError::InvalidEvent);
                        }
                        match &choices[0] {
                            Json::Object(c) => {
                                let d = find_member(c, &String::from_str("delta"));
                                match d {
                                    Some(k) => match Delta::from_json(&c[k].1) {
                                        Some(x) => Ok(x.into_step()),
                                        None => Err(StreamError::InvalidJson),
                                    },
                                    None => Err(StreamError::InvalidJson),
                                }
                            },
                            _ => Err(StreamError::InvalidJson),
                        }
                    },
                    _ => Err(StreamError::InvalidJson),
                },
                None => Err(StreamError::InvalidJson),
            }
        },
        _ => Err(StreamError::InvalidJson),
    }
}

/// The step that a message frame's data payload stands for.
pub fn process_event(data: &String) -> (r: Result<MessageDelta, StreamError>)
    ensures
        r == data_step(data@),
{
    if *data == String::from_str("[DONE]") {
        return Ok(MessageDelta::Done);
    }
    match parse_json(data.as_str()) {
        Ok(j) => decode_payload(&j),
        Err(_) => Err(StreamError::InvalidJson),
    }
}

/// The step that one stream record stands for: an opened connection carries
/// no data, a failed transport ends the stream.
pub fn handle_eventsource_event(rec: SseRecord) -> (r: Result<MessageDelta, StreamError>)
    ensures
        r == record_step(rec),
{
    match rec {
        SseRecord::Open => Ok(MessageDelta::NoData),
        SseRecord::Message(data) => process_event(&data),
        SseRecord::Failed(why) => Err(StreamError::StreamReadFailed(why)),
    }
}

/// Whether `rec` is a message frame whose payload is the sentinel `[DONE]`.
pub open spec fn is_sentinel(rec: SseRecord) -> bool {
    rec matches SseRecord::Message(d) && d@ == "[DONE]"@
}

/// Decoding never ends a reply early: of any sequence of records, exactly
/// those that are the sentinel `[DONE]` decode to `Done`, each to one `Done`.
pub proof fn lemma_done_only_from_sentinel(records: Seq<SseRecord>)
    ensures
        forall|i: int|
            0 <= i < records.len() ==> (record_step(#[trigger] records[i]) == Ok::<
                MessageDelta,
                StreamError,
            >(MessageDelta::Done) <==> is_sentinel(records[i])),
{
    assert forall|i: int| 0 <= i < records.len() implies (record_step(#[trigger] records[i])
        == Ok::<MessageDelta, StreamError>(MessageDelta::Done) <==> is_sentinel(records[i])) by {
        let rec = records[i];
        if let SseRecord::Message(d) = rec {
            if d@ != "[DONE]"@ {
                if let Some(j) = json_parse(d@) {
                    lemma_payload_never_done(j);
                }
            }
        }
    }
}

/// A parsed payload never stands for the end of a reply.
pub proof fn lemma_payload_never_done(j: Json)
    ensures
        payload_step(j) != Ok::<MessageDelta, StreamError>(MessageDelta::Done),
{
    match j {
        Json::Object(top) => match member(top@, "choices"@) {
            Some(Json::Array(choices)) => {
                if choices@.len() > 0 {
                    if let Json::Object(c) = choices@[0] {
                        if let Some(d) = member(c@, "delta"@) {
                            if let Some(x) = delta_of(d) {
                                assert(step_of(x) != MessageDelta::Done);
                            }
                        }
                    }
                }
            },
            _ => {},
        },
        _ => {},
    }
}

} // verus!
