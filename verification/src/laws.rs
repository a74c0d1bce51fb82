//! What holds of every envelope and of every record.

use vstd::prelude::*;
use crate::envelope::JSendResponse;
use crate::status::Status;
use crate::wire::{Key, MalformedEnvelope, Record, Slot};

verus! {

/// No two kinds share a tag: the three tags have seven, four and five
/// letters.
pub proof fn lemma_tags_differ(first: Status, second: Status)
    ensures
        first.spec_tag() == second.spec_tag() <==> first == second,
{
    reveal_strlit("success");
    reveal_strlit("fail");
    reveal_strlit("error");
    assert(Status::Success.spec_tag().len() == 7);
    assert(Status::Fail.spec_tag().len() == 4);
    assert(Status::Error.spec_tag().len() == 5);
}

/// Each kind is read back from its own tag.
pub proof fn lemma_tag_round_trip(status: Status)
    ensures
        Status::spec_from_tag(status.spec_tag()) == Some(status),
{
    lemma_tags_differ(status, Status::Success);
    lemma_tags_differ(status, Status::Fail);
    lemma_tags_differ(status, Status::Error);
}

/// A text is read as a kind only if it is the tag of that kind.
pub proof fn lemma_from_tag_is_exact(tag: Seq<char>)
    ensures
        Status::spec_from_tag(tag) matches Some(status) ==> tag == status.spec_tag(),
        Status::spec_from_tag(tag) is None ==> forall|status: Status| tag != status.spec_tag(),
{
}

/// Only an `Error` has a message or a code: of a `Success` and of a `Fail`
/// both read as absent.
pub proof fn lemma_message_and_code_are_of_errors<T>(envelope: JSendResponse<T>)
    ensures
        !(envelope is Error) ==> envelope.message() is None && envelope.code() is None,
        envelope is Error ==> envelope.message() is Some,
{
}

/// A `Fail` always has its data: what `fail` was given is what `data` reads,
/// whatever value of `T` that is.
pub proof fn lemma_fail_keeps_data<T>(data: T)
    ensures
        JSendResponse::fail(data).data() == Some(&data),
        JSendResponse::fail(data).status() == Status::Fail,
{
}

/// No `Fail` at all reads as having no data.
pub proof fn lemma_fail_has_data<T>(envelope: JSendResponse<T>)
    requires
        envelope is Fail,
    ensures
        envelope.data() is Some,
{
}

/// The constructors keep what they are given, and the accessors read it back.
pub proof fn lemma_accessors_read_constructors<T>(
    message: String,
    code: Option<i64>,
    data: Option<T>,
)
    ensures
        JSendResponse::success(data).data() == match data {
            Some(d) => Some(&d),
            None => None,
        },
        JSendResponse::error(message, code, data).message() == Some(&message),
        JSendResponse::error(message, code, data).code() == match code {
            Some(c) => Some(&c),
            None => None,
        },
        JSendResponse::error(message, code, data).data() == match data {
            Some(d) => Some(&d),
            None => None,
        },
{
}

/// Decoding the encoding of an envelope gives that envelope back.
pub proof fn lemma_round_trip<T>(envelope: JSendResponse<T>, record: Record<T>)
    requires
        record.encodes(envelope),
    ensures
        JSendResponse::spec_decode(record) == Ok::<JSendResponse<T>, MalformedEnvelope>(envelope),
{
    lemma_tag_round_trip(envelope.status());
}

/// Two envelopes with the same encoding are the same envelope.
pub proof fn lemma_encoding_is_injective<T>(
    first: JSendResponse<T>,
    second: JSendResponse<T>,
    record: Record<T>,
)
    requires
        record.encodes(first),
        record.encodes(second),
    ensures
        first == second,
{
    lemma_round_trip(first, record);
    lemma_round_trip(second, record);
}

/// Which keys an encoding holds. The status is always there, and is the tag.
/// The message is there for an `Error` and for nothing else. The code is
/// there where there is a code, and is left out otherwise. The data is left
/// out by an `Error` without data, is null in a `Success` without data, and
/// holds the payload otherwise. Nothing is ever written that would not read
/// back.
pub proof fn lemma_keys_written<T>(envelope: JSendResponse<T>, record: Record<T>)
    requires
        record.encodes(envelope),
    ensures
        record.status matches Slot::Value(tag) && tag@ == envelope.status().spec_tag(),
        record.message is Value <==> envelope is Error,
        record.message is Value || record.message is Absent,
        record.code is Value <==> envelope.code() is Some,
        record.code is Value || record.code is Absent,
        record.data is Value <==> envelope.data() is Some,
        record.data is Null <==> envelope is Success && envelope.data() is None,
        record.data is Absent <==> envelope is Error && envelope.data() is None,
        !(record.data is Invalid),
{
}

/// An `Error` of a message alone is written without a `code` key and without
/// a `data` key.
pub proof fn lemma_bare_error_omits_code_and_data<T>(message: String, record: Record<T>)
    requires
        record.encodes(JSendResponse::error(message, None, None)),
    ensures
        record.code is Absent,
        record.data is Absent,
        record.message == Slot::Value(message),
{
}

/// A `Success` without data is written with a `data` key that holds null:
/// the key is never left out.
pub proof fn lemma_empty_success_writes_null<T>(record: Record<T>)
    requires
        record.encodes(JSendResponse::success(None)),
    ensures
        record.data is Null,
        !(record.data is Absent),
{
}

/// A record without a status, or with a status that is none of the three
/// tags, decodes to no envelope.
pub proof fn lemma_status_is_needed<T>(record: Record<T>)
    ensures
        record.status is Absent ==> JSendResponse::spec_decode(record) == Err::<
            JSendResponse<T>,
            MalformedEnvelope,
        >(MalformedEnvelope::Missing(Key::Status)),
        record.status is Invalid ==> JSendResponse::spec_decode(record) == Err::<
            JSendResponse<T>,
            MalformedEnvelope,
        >(MalformedEnvelope::Invalid(Key::Status)),
        record.status matches Slot::Value(tag) ==> Status::spec_from_tag(tag@) is None
            ==> JSendResponse::spec_decode(record) == Err::<JSendResponse<T>, MalformedEnvelope>(
            MalformedEnvelope::UnknownStatus(tag),
        ),
{
}

/// Under the tag of an `Error` a record without a message decodes to no
/// envelope, and under the tag of a `Fail` a record without data does not
/// either.
pub proof fn lemma_required_fields_are_needed<T>(record: Record<T>, tag: String)
    requires
        record.status == Slot::Value(tag),
    ensures
        tag@ == Status::Error.spec_tag() && record.message is Absent
            ==> JSendResponse::spec_decode(record) == Err::<JSendResponse<T>, MalformedEnvelope>(
            MalformedEnvelope::Missing(Key::Message),
        ),
        tag@ == Status::Fail.spec_tag() && record.data is Absent ==> JSendResponse::spec_decode(
            record,
        ) == Err::<JSendResponse<T>, MalformedEnvelope>(MalformedEnvelope::Missing(Key::Data)),
{
    lemma_tag_round_trip(Status::Error);
    lemma_tag_round_trip(Status::Fail);
}

/// Whatever decodes has the kind that its status names.
pub proof fn lemma_decoded_kind_is_the_tag<T>(record: Record<T>, envelope: JSendResponse<T>)
    requires
        JSendResponse::spec_decode(record) == Ok::<JSendResponse<T>, MalformedEnvelope>(envelope),
    ensures
        record.status.spec_required(Key::Status) matches Ok(tag) && tag@
            == envelope.status().spec_tag(),
{
}

/// When a record decodes. Its status reads as one of the three tags, and
/// the keys of that kind read: the data of a `Success` is not invalid, the
/// data of a `Fail` reads as a value, the message of an `Error` reads as a
/// value and neither its code nor its data is invalid. Every other record is
/// refused.
pub proof fn lemma_decodes_exactly_when<T>(record: Record<T>)
    ensures
        JSendResponse::spec_decode(record) is Ok <==> {
            &&& record.status.spec_required(Key::Status) matches Ok(tag)
            &&& Status::spec_from_tag(tag@) matches Some(status)
            &&& match status {
                Status::Success => !(record.data is Invalid),
                Status::Fail => record.data.spec_required(Key::Data) is Ok,
                Status::Error => {
                    &&& record.message.spec_required(Key::Message) is Ok
                    &&& !(record.code is Invalid)
                    &&& !(record.data is Invalid)
                },
            }
        },
{
}

/// Keys that the kind of a record does not have are not looked at: unless
/// the status is the tag of an `Error`, a record decodes alike whatever
/// stands under `message` and `code`.
pub proof fn lemma_keys_of_other_kinds_are_ignored<T>(
    record: Record<T>,
    message: Slot<String>,
    code: Slot<i64>,
)
    requires
        !(record.status.spec_required(Key::Status) matches Ok(tag) && Status::spec_from_tag(tag@)
            == Some(Status::Error)),
    ensures
        JSendResponse::spec_decode(
            Record { status: record.status, message, code, data: record.data },
        ) == JSendResponse::spec_decode(record),
{
}

} // verus!
