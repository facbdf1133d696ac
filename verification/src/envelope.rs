use vstd::prelude::*;
use crate::errors::SyncError;

verus! {

/// One logged event, tagged with its author.
///
/// The payload's type is erased: `event` carries the payload as structured
/// text, and each reader re-interprets it into the schema it expects.
#[derive(Clone, Debug)]
pub struct Envelope {
    pub peer_id: String,
    pub event: String,
}

/// Whether `text` is a structured document the codec accepts as a payload:
/// it parses, and the envelope built around it can be read back (the parser
/// admits only bounded nesting, and the envelope adds one level). Decided by
/// the codec below; nothing else is assumed of it.
pub uninterp spec fn json_valid(text: Seq<char>) -> bool;

/// The commit message that encodes an envelope with the given author and
/// payload text. The encoding depends on these two values alone.
pub uninterp spec fn message_of(peer: Seq<char>, event: Seq<char>) -> Seq<char>;

/// What decoding a commit message yields: the author and the payload in its
/// canonical text form, or nothing if the message is not a well-formed
/// envelope. The result depends on the message bytes alone.
pub uninterp spec fn decoded_of(message: Seq<u8>) -> Option<(Seq<char>, Seq<char>)>;

/// The canonical rendering of a well-formed payload text: what decoding
/// gives back for the payload a message was encoded from. A function of the
/// text alone.
pub uninterp spec fn canonical_json(text: Seq<char>) -> Seq<char>;

/// Relies on serde_json::from_str, serde_json::Map::insert and
/// serde_json::to_string: parses the payload text, wraps it in a two-field
/// document beside the author, serialises the document, and reads the
/// result back before returning it. The read-back makes the wrapper enforce
/// the last clause itself: a payload nested right at the parser's depth
/// limit — whose envelope would lie one level deeper than the parser reads
/// — is rejected here rather than committed as an unreadable message. So a
/// message is produced exactly when the payload parses and its envelope
/// re-parses, and such a message's bytes decode to the author and the
/// payload's canonical rendering (serde_json reads back the two fields of a
/// document it just serialised); the outcome is a function of the inputs.
#[verifier::external_body]
fn encode_message(peer: &str, event_json: &str) -> (r: Option<String>)
    ensures
        r matches Some(m) ==> m@ == message_of(peer@, event_json@),
        r is Some <==> json_valid(event_json@),
        r matches Some(m) ==> decoded_of(vstd::utf8::encode_utf8(m@)) == Some(
            (peer@, canonical_json(event_json@)),
        ),
{
    let event: serde_json::Value = serde_json::from_str(event_json).ok()?;
    let mut fields = serde_json::Map::new();
    fields.insert("peer_id".to_owned(), serde_json::Value::String(peer.to_owned()));
    fields.insert("event".to_owned(), event);
    let message = serde_json::to_string(&serde_json::Value::Object(fields)).ok()?;
    serde_json::from_str::<serde_json::Value>(&message).ok()?;
    Some(message)
}

/// Relies on serde_json::from_slice, serde_json::Value::get,
/// serde_json::Value::as_str and serde_json::to_string: parses the message,
/// reads its `peer_id` and `event` fields, and renders the payload back to
/// its canonical text. Fails exactly when the bytes are not a document with
/// those fields; the result is a function of the message bytes alone.
#[verifier::external_body]
fn decode_message(message: &[u8]) -> (r: Option<Envelope>)
    ensures
        match r {
            Some(env) => decoded_of(message@) == Some((env.peer_id@, env.event@)),
            None => decoded_of(message@) is None,
        },
{
    let value: serde_json::Value = serde_json::from_slice(message).ok()?;
    let peer_id = value.get("peer_id")?.as_str()?.to_owned();
    let event = serde_json::to_string(value.get("event")?).ok()?;
    Some(Envelope { peer_id, event })
}

/// Serialise an author and a payload into a commit message.
///
/// Fails with `MalformedEnvelope` exactly when the codec does not accept
/// the payload text: it does not parse, or it is nested so deeply that the
/// envelope around it could not be read back.
pub fn encode(author: &str, payload_json: &str) -> (r: Result<String, SyncError>)
    ensures
        r matches Ok(m) ==> m@ == message_of(author@, payload_json@),
        r is Ok <==> json_valid(payload_json@),
        r is Err ==> r == Err::<String, SyncError>(SyncError::MalformedEnvelope),
        r matches Ok(m) ==> decoded_of(vstd::utf8::encode_utf8(m@)) == Some(
            (author@, canonical_json(payload_json@)),
        ),
{
    match encode_message(author, payload_json) {
        Some(m) => Ok(m),
        None => Err(SyncError::MalformedEnvelope),
    }
}

/// Decode a commit message back into an envelope.
///
/// Fails with `MalformedEnvelope` exactly when the bytes do not decode.
pub fn decode(message: &[u8]) -> (r: Result<Envelope, SyncError>)
    ensures
        r matches Ok(env) ==> decoded_of(message@) == Some((env.peer_id@, env.event@)),
        r is Ok <==> decoded_of(message@) is Some,
        r is Err ==> r == Err::<Envelope, SyncError>(SyncError::MalformedEnvelope),
{
    match decode_message(message) {
        Some(env) => Ok(env),
        None => Err(SyncError::MalformedEnvelope),
    }
}

/// Law: decoding inverts encoding. For every author and every well-formed
/// payload, the message `encode` produces decodes back to that author and
/// the payload's canonical rendering; for a payload that is not
/// well-formed, nothing is produced — exactly when `encode` rejects it.
pub fn codec_round_trip(author: &str, payload_json: &str) -> (r: Option<Envelope>)
    ensures
        r matches Some(env) ==> env.peer_id@ == author@ && env.event@ == canonical_json(
            payload_json@,
        ),
        r is Some <==> json_valid(payload_json@),
{
    let message = match encode(author, payload_json) {
        Ok(m) => m,
        Err(_) => {
            return None;
        },
    };
    let bytes = message.as_str().as_bytes();
    proof {
        assert(bytes@ == vstd::utf8::encode_utf8(message@));
    }
    match decode(bytes) {
        Ok(env) => Some(env),
        Err(_) => {
            proof {
                assert(false);
            }
            None
        },
    }
}

/// Decode a walk's worth of commit messages, in the order given.
///
/// Returns one envelope per message, in the same order; the first message
/// that does not decode aborts the whole read with `MalformedEnvelope`. An
/// empty walk yields an empty log, never an error.
pub fn decode_messages(messages: &Vec<Vec<u8>>) -> (r: Result<Vec<Envelope>, SyncError>)
    ensures
        r matches Ok(envs) ==> envs@.len() == messages@.len() && forall|i: int|
            0 <= i < envs@.len() ==> decoded_of(messages@[i]@) == Some(
                (#[trigger] envs@[i].peer_id@, envs@[i].event@),
            ),
        r is Ok <==> (forall|i: int|
            0 <= i < messages@.len() ==> #[trigger] decoded_of(messages@[i]@) is Some),
        r is Err ==> r == Err::<Vec<Envelope>, SyncError>(SyncError::MalformedEnvelope),
{
    let mut envs: Vec<Envelope> = Vec::new();
    let mut i: usize = 0;
    while i < messages.len()
        invariant
            0 <= i <= messages@.len(),
            envs@.len() == i,
            forall|j: int|
                0 <= j < i ==> decoded_of(messages@[j]@) == Some(
                    (#[trigger] envs@[j].peer_id@, envs@[j].event@),
                ),
            forall|j: int| 0 <= j < i ==> #[trigger] decoded_of(messages@[j]@) is Some,
        decreases messages@.len() - i,
    {
        match decode(messages[i].as_slice()) {
            Ok(env) => {
                envs.push(env);
            },
            Err(e) => {
                return Err(e);
            },
        }
        i = i + 1;
    }
    Ok(envs)
}

} // verus!
