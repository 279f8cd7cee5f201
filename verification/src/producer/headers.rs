use vstd::prelude::*;

use rdkafka::message::{BorrowedHeaders, Header, Headers, OwnedHeaders};
use vstd::string::StringSliceAdditionalSpecFns;
use vstd::utf8::valid_utf8;

verus! {

#[verifier::external_type_specification]
#[verifier::external_body]
pub struct ExOwnedHeaders(OwnedHeaders);

#[verifier::external_type_specification]
#[verifier::external_body]
pub struct ExBorrowedHeaders(BorrowedHeaders);

/// The headers that a set of owned Kafka headers holds, in order: for each,
/// the bytes of its name as librdkafka reads it back and the bytes of its
/// value, if it has one.
pub uninterp spec fn owned_headers_entries(headers: OwnedHeaders) -> Seq<(Seq<u8>, Option<Seq<u8>>)>;

/// The headers of a borrowed set of Kafka headers, in order, as for
/// [`owned_headers_entries`].
pub uninterp spec fn borrowed_headers_entries(headers: BorrowedHeaders) -> Seq<(Seq<u8>, Option<Seq<u8>>)>;

/// The bytes of an optional text value.
pub open spec fn value_bytes(value: Option<&str>) -> Option<Seq<u8>> {
    match value {
        Some(v) => Some(v.spec_bytes()),
        None => None,
    }
}

/// The bytes of an optional byte value.
pub open spec fn slice_bytes(value: Option<&[u8]>) -> Option<Seq<u8>> {
    match value {
        Some(v) => Some(v@),
        None => None,
    }
}

/// `rdkafka::message::OwnedHeaders::new`: a new set holds no header.
#[verifier::external_body]
pub(crate) fn owned_headers_new() -> (fresh: OwnedHeaders)
    ensures
        owned_headers_entries(fresh) == Seq::<(Seq<u8>, Option<Seq<u8>>)>::empty(),
{
    OwnedHeaders::new()
}

/// `rdkafka::message::OwnedHeaders::insert` with a text value: appends the
/// header after the ones already there. The name is turned into a C string,
/// which panics on a NUL character: such names are left out.
#[verifier::external_body]
pub(crate) fn owned_headers_insert(headers: OwnedHeaders, key: &str, value: Option<&str>) -> (extended: OwnedHeaders)
    requires
        !key@.contains('\0'),
    ensures
        owned_headers_entries(extended) == owned_headers_entries(headers).push((key.spec_bytes(), value_bytes(value))),
{
    headers.insert(Header { key, value })
}

/// `rdkafka::message::Headers::count` on owned headers: the number of headers.
#[verifier::external_body]
pub(crate) fn owned_headers_count(headers: &OwnedHeaders) -> (n: usize)
    ensures
        n == owned_headers_entries(*headers).len(),
{
    headers.count()
}

/// `rdkafka::message::Headers::get` on owned headers: the header at `idx`.
/// Its name is read as a C string and decoded as UTF-8 with a panic on
/// failure, so names that are not UTF-8 are left out; a name read back as a
/// C string holds no NUL character.
#[verifier::external_body]
pub(crate) fn owned_headers_get(headers: &OwnedHeaders, idx: usize) -> (header: (&str, Option<&[u8]>))
    requires
        idx < owned_headers_entries(*headers).len(),
        valid_utf8(owned_headers_entries(*headers)[idx as int].0),
    ensures
        header.0.spec_bytes() == owned_headers_entries(*headers)[idx as int].0,
        !header.0@.contains('\0'),
        slice_bytes(header.1) == owned_headers_entries(*headers)[idx as int].1,
{
    let h = headers.get(idx);
    (h.key, h.value)
}

/// `rdkafka::message::OwnedHeaders::as_borrowed`: a read-only view of the
/// same native header list, so it holds the same headers.
#[verifier::external_body]
pub(crate) fn owned_headers_as_borrowed(headers: &OwnedHeaders) -> (view: &BorrowedHeaders)
    ensures
        borrowed_headers_entries(*view) == owned_headers_entries(*headers),
{
    headers.as_borrowed()
}

/// `rdkafka::message::Headers::count` on borrowed headers.
#[verifier::external_body]
pub(crate) fn borrowed_headers_count(headers: &BorrowedHeaders) -> (n: usize)
    ensures
        n == borrowed_headers_entries(*headers).len(),
{
    headers.count()
}

/// `rdkafka::message::Headers::get` on borrowed headers: the header at
/// `idx`, as for [`owned_headers_get`].
#[verifier::external_body]
pub(crate) fn borrowed_headers_get(headers: &BorrowedHeaders, idx: usize) -> (header: (&str, Option<&[u8]>))
    requires
        idx < borrowed_headers_entries(*headers).len(),
        valid_utf8(borrowed_headers_entries(*headers)[idx as int].0),
    ensures
        header.0.spec_bytes() == borrowed_headers_entries(*headers)[idx as int].0,
        !header.0@.contains('\0'),
        slice_bytes(header.1) == borrowed_headers_entries(*headers)[idx as int].1,
{
    let h = headers.get(idx);
    (h.key, h.value)
}

/// `rdkafka::message::Headers::get_as::<str>` on borrowed headers: the
/// header at `idx` with its value decoded as UTF-8, or `None` where the
/// value is not UTF-8 (the error of `get_as`). The name is read as by
/// [`borrowed_headers_get`].
#[verifier::external_body]
pub(crate) fn borrowed_headers_get_text(headers: &BorrowedHeaders, idx: usize) -> (header: Option<(&str, Option<&str>)>)
    requires
        idx < borrowed_headers_entries(*headers).len(),
        valid_utf8(borrowed_headers_entries(*headers)[idx as int].0),
    ensures
        header is Some <==> value_is_text(borrowed_headers_entries(*headers)[idx as int]),
        header matches Some(h) ==> h.0.spec_bytes() == borrowed_headers_entries(*headers)[idx as int].0,
        header matches Some(h) ==> value_bytes(h.1) == borrowed_headers_entries(*headers)[idx as int].1,
{
    match headers.get_as::<str>(idx) {
        Ok(h) => Some((h.key, h.value)),
        Err(_) => None,
    }
}

/// A header whose value is absent or valid UTF-8.
pub open spec fn value_is_text(entry: (Seq<u8>, Option<Seq<u8>>)) -> bool {
    match entry.1 {
        Some(v) => valid_utf8(v),
        None => true,
    }
}

/// A header whose name is `key` and whose value is absent or valid UTF-8:
/// the first such header is the one that extraction answers with.
pub open spec fn header_matches(entry: (Seq<u8>, Option<Seq<u8>>), key: Seq<u8>) -> bool {
    entry.0 == key && value_is_text(entry)
}

/// Whether looking `key` up returns without a panic: every name read
/// before the first matching header is valid UTF-8.
pub open spec fn extraction_defined(entries: Seq<(Seq<u8>, Option<Seq<u8>>)>, key: Seq<u8>) -> bool
    decreases entries.len(),
{
    if entries.len() == 0 {
        true
    } else if !valid_utf8(entries[0].0) {
        false
    } else if header_matches(entries[0], key) {
        true
    } else {
        extraction_defined(entries.drop_first(), key)
    }
}

/// The value that looking `key` up gives: the value of the first matching
/// header, `None` where that header has no value or where none matches.
pub open spec fn extracted_value(entries: Seq<(Seq<u8>, Option<Seq<u8>>)>, key: Seq<u8>) -> Option<Seq<u8>>
    decreases entries.len(),
{
    if entries.len() == 0 {
        None
    } else if header_matches(entries[0], key) {
        entries[0].1
    } else {
        extracted_value(entries.drop_first(), key)
    }
}

/// The names of the headers, in order.
pub open spec fn header_names(entries: Seq<(Seq<u8>, Option<Seq<u8>>)>) -> Seq<Seq<u8>> {
    entries.map_values(|entry: (Seq<u8>, Option<Seq<u8>>)| entry.0)
}

/// Headers that can all be read back as text: UTF-8 names and present
/// UTF-8 values.
pub open spec fn all_text(entries: Seq<(Seq<u8>, Option<Seq<u8>>)>) -> bool {
    forall|i: int| 0 <= i < entries.len() ==> {
        &&& valid_utf8(#[trigger] entries[i].0)
        &&& entries[i].1 is Some
        &&& valid_utf8(entries[i].1.unwrap())
    }
}

/// The headers after injecting `key` with `value`: the new header first,
/// then all the earlier ones in their order.
pub open spec fn injected(entries: Seq<(Seq<u8>, Option<Seq<u8>>)>, key: Seq<u8>, value: Seq<u8>) -> Seq<(Seq<u8>, Option<Seq<u8>>)> {
    seq![(key, Some(value))] + entries
}

/// Looking a key up right after it was injected gives the injected value
/// back, whatever headers were there before.
pub proof fn lemma_extract_after_inject(entries: Seq<(Seq<u8>, Option<Seq<u8>>)>, key: Seq<u8>, value: Seq<u8>)
    requires
        valid_utf8(key),
        valid_utf8(value),
    ensures
        extraction_defined(injected(entries, key, value), key),
        extracted_value(injected(entries, key, value), key) == Some(value),
{
    let e = injected(entries, key, value);
    assert(e[0] == (key, Some(value)));
}

/// On real headers: once `key` was injected into owned headers with
/// `value`, a read-only view of those headers gives `value` back for `key`,
/// also where the headers held `key` before.
pub proof fn lemma_view_extracts_injected(
    before: OwnedHeaders,
    after: OwnedHeaders,
    view: BorrowedHeaders,
    key: Seq<u8>,
    value: Seq<u8>,
)
    requires
        owned_headers_entries(after) == injected(owned_headers_entries(before), key, value),
        borrowed_headers_entries(view) == owned_headers_entries(after),
        valid_utf8(key),
        valid_utf8(value),
    ensures
        extraction_defined(borrowed_headers_entries(view), key),
        extracted_value(borrowed_headers_entries(view), key) == Some(value),
{
    lemma_extract_after_inject(owned_headers_entries(before), key, value);
}

/// When a key is injected twice, looking it up gives the later value.
pub proof fn lemma_latest_injection_wins(
    entries: Seq<(Seq<u8>, Option<Seq<u8>>)>,
    key: Seq<u8>,
    first: Seq<u8>,
    second: Seq<u8>,
)
    requires
        valid_utf8(key),
        valid_utf8(first),
        valid_utf8(second),
    ensures
        extracted_value(injected(injected(entries, key, first), key, second), key) == Some(second),
{
    lemma_extract_after_inject(injected(entries, key, first), key, second);
}

/// Injecting text into headers that are all text leaves them all text, so
/// the injector can be used again on its own result.
pub proof fn lemma_injected_all_text(entries: Seq<(Seq<u8>, Option<Seq<u8>>)>, key: Seq<u8>, value: Seq<u8>)
    requires
        all_text(entries),
        valid_utf8(key),
        valid_utf8(value),
    ensures
        all_text(injected(entries, key, value)),
{
    let e = injected(entries, key, value);
    assert forall|i: int| 0 <= i < e.len() implies {
        &&& valid_utf8(#[trigger] e[i].0)
        &&& e[i].1 is Some
        &&& valid_utf8(e[i].1.unwrap())
    } by {
        if i > 0 {
            assert(e[i] == entries[i - 1]);
        }
    }
}

/// After an injection the header names are the injected key followed by
/// the earlier names in their order.
pub proof fn lemma_injected_names(entries: Seq<(Seq<u8>, Option<Seq<u8>>)>, key: Seq<u8>, value: Seq<u8>)
    ensures
        header_names(injected(entries, key, value)) == seq![key] + header_names(entries),
{
    assert(header_names(injected(entries, key, value)) =~= seq![key] + header_names(entries));
}

} // verus!
