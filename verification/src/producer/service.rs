use vstd::prelude::*;

use rdkafka::message::OwnedHeaders;
use vstd::string::StringSliceAdditionalSpecFns;
use vstd::utf8::encode_utf8;

use crate::producer::headers::{
    all_text, injected, owned_headers_count, owned_headers_entries, owned_headers_get,
    owned_headers_insert, owned_headers_new,
};
use crate::http::Reply;
use crate::utils::text::utf8_text;

verus! {

/// A lower-case hexadecimal digit.
pub open spec fn is_lower_hex(c: char) -> bool {
    ('0' <= c <= '9') || ('a' <= c <= 'f')
}

/// The hyphenated lower-case text of a version 7 UUID of the RFC 4122
/// variant, such as `017f22e2-79b0-7cc3-98c4-dc0c0c07398f`.
pub open spec fn is_v7_uuid_text(text: Seq<char>) -> bool {
    &&& text.len() == 36
    &&& forall|i: int| 0 <= i < 36 ==> {
        if i == 8 || i == 13 || i == 18 || i == 23 {
            #[trigger] text[i] == '-'
        } else if i == 14 {
            text[i] == '7'
        } else if i == 19 {
            text[i] == '8' || text[i] == '9' || text[i] == 'a' || text[i] == 'b'
        } else {
            is_lower_hex(text[i])
        }
    }
}

/// `uuid::Uuid::new_v7` at `uuid::Timestamp::now`, displayed: a fresh
/// version 7 UUID in its hyphenated lower-case form. Which UUID comes out
/// depends on the clock and on a random number; only its form is stated.
#[verifier::external_body]
fn new_v7_uuid_text() -> (text: String)
    ensures
        is_v7_uuid_text(text@),
{
    uuid::Uuid::new_v7(uuid::Timestamp::now(uuid::NoContext)).to_string()
}

/// The body of `POST /publish`: the text to publish.
pub struct Message {
    pub text: String,
}

/// The Kafka record that `POST /publish` sends.
pub struct PublishRecord {
    pub topic: String,
    pub payload: String,
    pub key: String,
    pub headers: OwnedHeaders,
}

/// The topic that published messages go to.
pub open spec fn publish_topic() -> Seq<char> {
    "actixweb_demo"@
}

/// The payload of a published message.
pub open spec fn publish_payload(text: Seq<char>) -> Seq<char> {
    "Message "@ + text
}

/// The headers that every published record starts with, before the trace
/// context is injected.
pub open spec fn initial_publish_headers() -> Seq<(Seq<u8>, Option<Seq<u8>>)> {
    seq![(encode_utf8("header_key"@), Some(encode_utf8("header_value"@)))]
}

/// The record for `message` under `key`: the topic, the payload with the
/// message text, and a first demo header.
pub fn publish_record(message: &Message, key: String) -> (record: PublishRecord)
    ensures
        record.topic@ == publish_topic(),
        record.payload@ == publish_payload(message.text@),
        record.key == key,
        owned_headers_entries(record.headers) == initial_publish_headers(),
        all_text(owned_headers_entries(record.headers)),
{
    let mut payload = String::from_str("Message ");
    payload.append(message.text.as_str());
    proof {
        reveal_strlit("header_key");
        assert(!"header_key"@.contains('\0'));
    }
    let headers = owned_headers_insert(owned_headers_new(), "header_key", Some("header_value"));
    proof {
        assert(owned_headers_entries(headers) =~= initial_publish_headers());
        vstd::utf8::encode_utf8_valid_utf8("header_key"@);
        vstd::utf8::encode_utf8_valid_utf8("header_value"@);
    }
    PublishRecord { topic: String::from_str("actixweb_demo"), payload, key, headers }
}

/// The record that `POST /publish` sends for `message`, keyed by a fresh
/// version 7 UUID.
pub fn publish(message: &Message) -> (record: PublishRecord)
    ensures
        record.topic@ == publish_topic(),
        record.payload@ == publish_payload(message.text@),
        is_v7_uuid_text(record.key@),
        owned_headers_entries(record.headers) == initial_publish_headers(),
        all_text(owned_headers_entries(record.headers)),
{
    publish_record(message, new_v7_uuid_text())
}

/// The answer to `POST /publish` once the delivery is known: `OK` with
/// status 200 when the record was delivered (to a partition, at an offset),
/// `OK` with status 500 when the delivery failed.
pub fn publish_reply(delivery: Result<(i32, i64), String>) -> (reply: Reply)
    ensures
        reply.status == (if delivery is Ok { 200u16 } else { 500u16 }),
        reply.headers@.len() == 0,
        reply.body@ == "OK"@,
{
    let status: u16 = match delivery {
        Ok(_) => 200,
        Err(_) => 500,
    };
    Reply { status, headers: Vec::new(), body: String::from_str("OK") }
}

/// Writes trace-context fields into the headers of a Kafka record.
pub struct HeaderInjector<'a>(pub &'a mut OwnedHeaders);

impl<'a> HeaderInjector<'a> {
    /// Sets `key` to `value`: the headers are rebuilt with the new header
    /// first and every earlier header after it, in order. The earlier
    /// headers are read back as text, which panics on a missing or non-UTF-8
    /// value, so such headers are left out.
    pub fn set(&mut self, key: &str, value: String)
        requires
            !key@.contains('\0'),
            all_text(owned_headers_entries(*old(self).0)),
        ensures
            owned_headers_entries(*final(self).0) == injected(
                owned_headers_entries(*old(self).0),
                key.spec_bytes(),
                encode_utf8(value@),
            ),
    {
        let mut new = owned_headers_new();
        new = owned_headers_insert(new, key, Some(value.as_str()));
        let ghost old_entries = owned_headers_entries(*self.0);
        let n = owned_headers_count(self.0);
        let mut i: usize = 0;
        while i < n
            invariant
                n == old_entries.len(),
                owned_headers_entries(*self.0) == old_entries,
                all_text(old_entries),
                0 <= i <= n,
                owned_headers_entries(new) == seq![(key.spec_bytes(), Some(encode_utf8(value@)))] + old_entries.take(i as int),
            decreases n - i,
        {
            let (k, v) = owned_headers_get(self.0, i);
            let text = utf8_text(v.unwrap()).unwrap();
            new = owned_headers_insert(new, k, Some(text));
            assert(old_entries.take(i + 1) =~= old_entries.take(i as int).push(old_entries[i as int]));
            i = i + 1;
        }
        assert(old_entries.take(n as int) =~= old_entries);
        *self.0 = new;
    }
}

} // verus!
