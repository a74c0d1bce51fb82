//! The encoded form of an envelope: an object of up to four keys.
//!
//! A [`Record`] says, key by key, what such an object holds. Encoding an
//! envelope gives the record to write; decoding reads a record that was found
//! and gives the envelope back, or says what is wrong with it. What the values
//! under the keys look like as text or bytes is left to the format in use.

use vstd::prelude::*;
use vstd::string::*;
use crate::envelope::JSendResponse;
use crate::status::Status;

verus! {

/// The keys of an encoded envelope.
#[derive(Debug, Clone, Copy, PartialEq, Eq, Hash)]
pub enum Key {
    /// Holds the tag of the kind.
    Status,
    /// Holds the message of an error.
    Message,
    /// Holds the code of an error.
    Code,
    /// Holds the payload.
    Data,
}

impl Key {
    /// The key as it is spelled in the encoded object.
    pub open spec fn spec_name(self) -> Seq<char> {
        match self {
            Key::Status => "status"@,
            Key::Message => "message"@,
            Key::Code => "code"@,
            Key::Data => "data"@,
        }
    }

    /// The four keys in the order in which an object is written: the status
    /// first, the data last.
    pub fn ordered() -> (r: [Key; 4])
        ensures
            r@ == seq![Key::Status, Key::Message, Key::Code, Key::Data],
    {
        [Key::Status, Key::Message, Key::Code, Key::Data]
    }

    /// The key as it is spelled in the encoded object.
    pub fn name(self) -> (r: &'static str)
        ensures
            r@ == self.spec_name(),
    {
        match self {
            Key::Status => "status",
            Key::Message => "message",
            Key::Code => "code",
            Key::Data => "data",
        }
    }
}

/// Why a record is not the encoding of any envelope.
#[derive(Debug, Clone, PartialEq)]
pub enum MalformedEnvelope {
    /// A key that the envelope cannot do without is not there.
    Missing(Key),
    /// A key holds something that does not have the shape asked of it.
    Invalid(Key),
    /// The status is a text, but none of the three tags.
    UnknownStatus(String),
}

impl MalformedEnvelope {
    /// The sentence that says what is wrong.
    pub open spec fn spec_describe(self) -> Seq<char> {
        match self {
            MalformedEnvelope::Missing(key) => "missing field `"@ + key.spec_name() + "`"@,
            MalformedEnvelope::Invalid(key) => "invalid value for field `"@ + key.spec_name()
                + "`"@,
            MalformedEnvelope::UnknownStatus(tag) => "unknown status `"@ + tag@
                + "`, expected one of `success`, `fail`, `error`"@,
        }
    }

    /// Says what is wrong, in a sentence that names the key or the tag.
    pub fn describe(&self) -> (r: String)
        ensures
            r@ == self.spec_describe(),
    {
        match self {
            MalformedEnvelope::Missing(key) => {
                let mut text = String::from_str("missing field `");
                text.append(key.name());
                text.append("`");
                text
            },
            MalformedEnvelope::Invalid(key) => {
                let mut text = String::from_str("invalid value for field `");
                text.append(key.name());
                text.append("`");
                text
            },
            MalformedEnvelope::UnknownStatus(tag) => {
                let mut text = String::from_str("unknown status `");
                text.append(tag.as_str());
                text.append("`, expected one of `success`, `fail`, `error`");
                text
            },
        }
    }
}

/// What stands under one key of an encoded object, read as a `V`.
#[derive(Debug, Clone, PartialEq)]
pub enum Slot<V> {
    /// The object has no such key.
    Absent,
    /// The key holds null. Where `V` has a value that null stands for, this
    /// is `Some` of it; most types have none.
    Null(Option<V>),
    /// The key holds something other than null, which reads as a `V`.
    Value(V),
    /// The key holds something other than null, which does not read as a `V`.
    Invalid,
}

impl<V> Slot<V> {
    /// The slot read as a field that has to be there.
    pub open spec fn spec_required(self, key: Key) -> Result<V, MalformedEnvelope> {
        match self {
            Slot::Absent => Err(MalformedEnvelope::Missing(key)),
            Slot::Null(Some(v)) => Ok(v),
            Slot::Null(None) => Err(MalformedEnvelope::Invalid(key)),
            Slot::Value(v) => Ok(v),
            Slot::Invalid => Err(MalformedEnvelope::Invalid(key)),
        }
    }

    /// The slot read as a field that may be left out.
    pub open spec fn spec_optional(self, key: Key) -> Result<Option<V>, MalformedEnvelope> {
        match self {
            Slot::Absent => Ok(None),
            Slot::Null(_) => Ok(None),
            Slot::Value(v) => Ok(Some(v)),
            Slot::Invalid => Err(MalformedEnvelope::Invalid(key)),
        }
    }

    /// Reads the slot as a field that has to be there: the value under the
    /// key, null included where `V` takes it. A key that is not there is
    /// missing; anything that does not read as a `V` is invalid.
    pub fn required(self, key: Key) -> (r: Result<V, MalformedEnvelope>)
        ensures
            r == self.spec_required(key),
    {
        match self {
            Slot::Absent => Err(MalformedEnvelope::Missing(key)),
            Slot::Null(Some(v)) => Ok(v),
            Slot::Null(None) => Err(MalformedEnvelope::Invalid(key)),
            Slot::Value(v) => Ok(v),
            Slot::Invalid => Err(MalformedEnvelope::Invalid(key)),
        }
    }

    /// Reads the slot as a field that may be left out: a key that is not
    /// there and a key that holds null both give `None`, whatever `V` would
    /// make of null. Anything else has to read as a `V`.
    pub fn optional(self, key: Key) -> (r: Result<Option<V>, MalformedEnvelope>)
        ensures
            r == self.spec_optional(key),
    {
        match self {
            Slot::Absent => Ok(None),
            Slot::Null(_) => Ok(None),
            Slot::Value(v) => Ok(Some(v)),
            Slot::Invalid => Err(MalformedEnvelope::Invalid(key)),
        }
    }
}

/// An encoded envelope, key by key.
#[derive(Debug, Clone, PartialEq)]
pub struct Record<T> {
    /// What stands under `status`.
    pub status: Slot<String>,
    /// What stands under `message`.
    pub message: Slot<String>,
    /// What stands under `code`.
    pub code: Slot<i64>,
    /// What stands under `data`.
    pub data: Slot<T>,
}

impl<T> Record<T> {
    /// Whether this record is the encoding of `envelope`.
    ///
    /// The status holds the tag of the kind. A `Success` writes its data
    /// always, as null where it has none. A `Fail` writes its data. An
    /// `Error` writes its message, and its code and data only where it has
    /// them. No other key is written.
    pub open spec fn encodes(self, envelope: JSendResponse<T>) -> bool {
        &&& self.status matches Slot::Value(tag) && tag@ == envelope.status().spec_tag()
        &&& match envelope {
            JSendResponse::Success { data } => {
                &&& self.message is Absent
                &&& self.code is Absent
                &&& self.data == match data {
                    Some(d) => Slot::Value(d),
                    None => Slot::Null(None),
                }
            },
            JSendResponse::Fail { data } => {
                &&& self.message is Absent
                &&& self.code is Absent
                &&& self.data == Slot::Value(data)
            },
            JSendResponse::Error { message, code, data } => {
                &&& self.message == Slot::Value(message)
                &&& self.code == match code {
                    Some(c) => Slot::Value(c),
                    None => Slot::Absent,
                }
                &&& self.data == match data {
                    Some(d) => Slot::Value(d),
                    None => Slot::Absent,
                }
            },
        }
    }
}

impl<T> JSendResponse<T> {
    /// What the keys of `record` give under a status that is already known.
    ///
    /// Only the keys of that kind are looked at. Of an `Error` the message is
    /// read first, then the code, then the data, and the first that fails
    /// decides which error comes back.
    pub open spec fn spec_assemble(status: Status, record: Record<T>) -> Result<
        JSendResponse<T>,
        MalformedEnvelope,
    > {
        match status {
            Status::Success => match record.data.spec_optional(Key::Data) {
                Ok(data) => Ok(JSendResponse::Success { data }),
                Err(e) => Err(e),
            },
            Status::Fail => match record.data.spec_required(Key::Data) {
                Ok(data) => Ok(JSendResponse::Fail { data }),
                Err(e) => Err(e),
            },
            Status::Error => match (
                record.message.spec_required(Key::Message),
                record.code.spec_optional(Key::Code),
                record.data.spec_optional(Key::Data),
            ) {
                (Err(e), _, _) => Err(e),
                (Ok(_), Err(e), _) => Err(e),
                (Ok(_), Ok(_), Err(e)) => Err(e),
                (Ok(message), Ok(code), Ok(data)) => Ok(
                    JSendResponse::Error { message, code, data },
                ),
            },
        }
    }

    /// The envelope that `record` encodes, or what is wrong with the record.
    ///
    /// The status has to be there and to be one of the three tags; the rest
    /// is read as that kind asks.
    pub open spec fn spec_decode(record: Record<T>) -> Result<JSendResponse<T>, MalformedEnvelope> {
        match record.status.spec_required(Key::Status) {
            Err(e) => Err(e),
            Ok(tag) => match Status::spec_from_tag(tag@) {
                None => Err(MalformedEnvelope::UnknownStatus(tag)),
                Some(status) => Self::spec_assemble(status, record),
            },
        }
    }

    /// Encodes the envelope: the record that a writer puts out.
    pub fn encode(self) -> (record: Record<T>)
        ensures
            record.encodes(self),
    {
        match self {
            JSendResponse::Success { data } => Record {
                status: Slot::Value(Status::Success.tag().to_owned()),
                message: Slot::Absent,
                code: Slot::Absent,
                data: match data {
                    Some(d) => Slot::Value(d),
                    None => Slot::Null(None),
                },
            },
            JSendResponse::Fail { data } => Record {
                status: Slot::Value(Status::Fail.tag().to_owned()),
                message: Slot::Absent,
                code: Slot::Absent,
                data: Slot::Value(data),
            },
            JSendResponse::Error { message, code, data } => Record {
                status: Slot::Value(Status::Error.tag().to_owned()),
                message: Slot::Value(message),
                code: match code {
                    Some(c) => Slot::Value(c),
                    None => Slot::Absent,
                },
                data: match data {
                    Some(d) => Slot::Value(d),
                    None => Slot::Absent,
                },
            },
        }
    }

    /// Decodes a record that a reader found: the envelope, or the first thing
    /// that is wrong with the record.
    pub fn decode(record: Record<T>) -> (r: Result<JSendResponse<T>, MalformedEnvelope>)
        ensures
            r == Self::spec_decode(record),
    {
        let Record { status, message, code, data } = record;
        let tag = match status.required(Key::Status) {
            Ok(tag) => tag,
            Err(e) => return Err(e),
        };
        match Status::from_tag(tag.as_str()) {
            None => Err(MalformedEnvelope::UnknownStatus(tag)),
            Some(Status::Success) => match data.optional(Key::Data) {
                Ok(data) => Ok(JSendResponse::Success { data }),
                Err(e) => Err(e),
            },
            Some(Status::Fail) => match data.required(Key::Data) {
                Ok(data) => Ok(JSendResponse::Fail { data }),
                Err(e) => Err(e),
            },
            Some(Status::Error) => {
                let message = match message.required(Key::Message) {
                    Ok(message) => message,
                    Err(e) => return Err(e),
                };
                let code = match code.optional(Key::Code) {
                    Ok(code) => code,
                    Err(e) => return Err(e),
                };
                match data.optional(Key::Data) {
                    Ok(data) => Ok(JSendResponse::Error { message, code, data }),
                    Err(e) => Err(e),
                }
            },
        }
    }
}

} // verus!
