use vstd::prelude::*;

use rdkafka::message::{BorrowedHeaders, OwnedHeaders};
use vstd::string::StringSliceAdditionalSpecFns;
use vstd::utf8::valid_utf8;

use crate::producer::headers::{
    borrowed_headers_count, borrowed_headers_entries, borrowed_headers_get,
    borrowed_headers_get_text, extracted_value, owned_headers_as_borrowed, owned_headers_entries, extraction_defined, header_matches, header_names,
    value_bytes,
};
use crate::utils::text::{same_text, utf8_text};
use vstd::utf8::{decode_utf8, encode_utf8};

use crate::producer::service::publish_payload;

verus! {

/// The client context of the Kafka consumer. Its rebalance and commit
/// callbacks only log.
pub struct CustomContext;

/// The text of a consumed payload: the payload decoded as UTF-8, or empty
/// where there is no payload or it is not UTF-8.
pub open spec fn payload_text_of(payload: Option<Seq<u8>>) -> Seq<char> {
    match payload {
        Some(bytes) => if valid_utf8(bytes) { decode_utf8(bytes) } else { Seq::empty() },
        None => Seq::empty(),
    }
}

/// The payload of a consumed record as text, as `payload_text_of` says.
pub fn payload_text(payload: Option<&[u8]>) -> (text: String)
    ensures
        text@ == payload_text_of(payload_bytes(payload)),
{
    match payload {
        None => String::new(),
        Some(bytes) => match utf8_text(bytes) {
            Some(t) => {
                proof {
                    vstd::utf8::encode_utf8_decode_utf8(t@);
                }
                String::from_str(t)
            },
            None => String::new(),
        },
    }
}

/// The bytes of an optional payload.
pub open spec fn payload_bytes(payload: Option<&[u8]>) -> Option<Seq<u8>> {
    match payload {
        Some(b) => Some(b@),
        None => None,
    }
}

/// The span that records a consumed payload under the trace context that
/// came with the record.
pub struct PayloadSpan {
    pub tracer: String,
    pub name: String,
    pub attribute_key: String,
    pub attribute_value: String,
}

/// What to do with a consumed record: log its payload text, record a span
/// when the record carries headers, then commit it.
pub struct ConsumeAction {
    pub payload: String,
    pub span: Option<PayloadSpan>,
}

/// The handling of one consumed record with this payload: its text, and,
/// where the record has headers, a span `consume_payload` of the tracer
/// `consumer` whose attribute `payload` holds that text.
pub fn consume_record(payload: Option<&[u8]>, has_headers: bool) -> (action: ConsumeAction)
    ensures
        action.payload@ == payload_text_of(payload_bytes(payload)),
        action.span is Some <==> has_headers,
        action.span matches Some(span) ==> {
            &&& span.tracer@ == "consumer"@
            &&& span.name@ == "consume_payload"@
            &&& span.attribute_key@ == "payload"@
            &&& span.attribute_value@ == action.payload@
        },
{
    let text = payload_text(payload);
    let span = if has_headers {
        Some(PayloadSpan {
            tracer: String::from_str("consumer"),
            name: String::from_str("consume_payload"),
            attribute_key: String::from_str("payload"),
            attribute_value: text.clone(),
        })
    } else {
        None
    };
    ConsumeAction { payload: text, span }
}

/// Reads trace-context fields out of the headers of a consumed Kafka record.
pub struct HeaderExtractor<'a>(pub &'a BorrowedHeaders);

impl<'a> HeaderExtractor<'a> {
    pub open spec fn entries(&self) -> Seq<(Seq<u8>, Option<Seq<u8>>)> {
        borrowed_headers_entries(*self.0)
    }

    /// An extractor over owned headers, such as those a record is published
    /// with: it reads the same headers.
    pub fn from_owned(headers: &'a OwnedHeaders) -> (extractor: HeaderExtractor<'a>)
        ensures
            extractor.entries() == owned_headers_entries(*headers),
    {
        HeaderExtractor(owned_headers_as_borrowed(headers))
    }

    /// The value of the first header named `key` whose value is absent or
    /// UTF-8; `None` where that header has no value or no header matches.
    /// Headers are read in order, and reading a name that is not UTF-8
    /// panics, so the names up to the first match must be UTF-8.
    pub fn get(&self, key: &str) -> (found: Option<&'a str>)
        requires
            extraction_defined(self.entries(), key.spec_bytes()),
        ensures
            value_bytes(found) == extracted_value(self.entries(), key.spec_bytes()),
    {
        let n = borrowed_headers_count(self.0);
        let ghost entries = self.entries();
        let mut i: usize = 0;
        assert(entries.skip(0) =~= entries);
        while i < n
            invariant
                n == entries.len(),
                entries == self.entries(),
                0 <= i <= n,
                extraction_defined(entries.skip(i as int), key.spec_bytes()),
                extracted_value(entries.skip(i as int), key.spec_bytes())
                    == extracted_value(entries, key.spec_bytes()),
            decreases n - i,
        {
            assert(entries.skip(i as int)[0] == entries[i as int]);
            assert(entries.skip(i as int).drop_first() =~= entries.skip(i + 1));
            if let Some((name, value)) = borrowed_headers_get_text(self.0, i) {
                if same_text(name, key) {
                    return value;
                }
            }
            i = i + 1;
        }
        assert(entries.skip(n as int).len() == 0);
        None
    }

    /// The names of all headers, in order. Reading a name that is not
    /// UTF-8 panics, so all names must be UTF-8.
    pub fn keys(&self) -> (names: Vec<&'a str>)
        requires
            forall|i: int| 0 <= i < self.entries().len() ==> valid_utf8(#[trigger] self.entries()[i].0),
        ensures
            names@.len() == self.entries().len(),
            forall|i: int| 0 <= i < names@.len() ==> #[trigger] names@[i].spec_bytes() == header_names(self.entries())[i],
    {
        let n = borrowed_headers_count(self.0);
        let mut names: Vec<&'a str> = Vec::new();
        let mut i: usize = 0;
        while i < n
            invariant
                n == self.entries().len(),
                forall|j: int| 0 <= j < self.entries().len() ==> valid_utf8(#[trigger] self.entries()[j].0),
                0 <= i <= n,
                names@.len() == i,
                forall|j: int| 0 <= j < i ==> #[trigger] names@[j].spec_bytes() == self.entries()[j].0,
            decreases n - i,
        {
            let (name, _value) = borrowed_headers_get(self.0, i);
            names.push(name);
            i = i + 1;
        }
        names
    }
}

/// Every UTF-8 payload is read as the text it encodes: its decoding, whose
/// encoding gives back exactly the payload bytes; a payload that is not
/// UTF-8, and a missing one, read as empty text.
pub proof fn lemma_payload_text_decodes(bytes: Seq<u8>)
    ensures
        valid_utf8(bytes) ==> payload_text_of(Some(bytes)) == decode_utf8(bytes),
        valid_utf8(bytes) ==> encode_utf8(payload_text_of(Some(bytes))) == bytes,
        !valid_utf8(bytes) ==> payload_text_of(Some(bytes)).len() == 0,
        payload_text_of(None).len() == 0,
{
    if valid_utf8(bytes) {
        vstd::utf8::decode_utf8_encode_utf8(bytes);
    }
}

/// The consumer reads back as text exactly the payload that `publish`
/// sends, since that payload is sent as its UTF-8 bytes.
pub proof fn lemma_published_payload_read_back(text: Seq<char>)
    ensures
        payload_text_of(Some(encode_utf8(publish_payload(text)))) == publish_payload(text),
{
    vstd::utf8::encode_utf8_valid_utf8(publish_payload(text));
    vstd::utf8::encode_utf8_decode_utf8(publish_payload(text));
}

} // verus!
