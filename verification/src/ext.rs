//! The calls this library makes into `bytes`, `uuid`, `chrono`,
//! `serde_json`, `k8s-openapi` and std, each with the contract it is
//! trusted to meet.
use vstd::prelude::*;

verus! {

// ---------------------------------------------------------------- bytes

/// `bytes::Bytes`, an immutable shared byte buffer.
#[verifier::external_type_specification]
#[verifier::external_body]
pub struct ExBytes(bytes::Bytes);

/// The bytes a `bytes::Bytes` holds, in order.
pub uninterp spec fn bytes_seq(b: bytes::Bytes) -> Seq<u8>;

/// `Bytes::len`: the number of bytes held.
#[verifier::external_body]
pub(crate) fn bytes_len(b: &bytes::Bytes) -> (r: usize)
    ensures
        r == bytes_seq(*b).len(),
{
    b.len()
}

/// `Bytes::clone`: a handle on the same bytes.
#[verifier::external_body]
pub(crate) fn bytes_clone(b: &bytes::Bytes) -> (r: bytes::Bytes)
    ensures
        bytes_seq(r) == bytes_seq(*b),
{
    b.clone()
}

/// `Bytes::from(Vec<u8>)`: takes over the vector's bytes.
#[verifier::external_body]
pub(crate) fn bytes_from_vec(v: Vec<u8>) -> (r: bytes::Bytes)
    ensures
        bytes_seq(r) == v@,
{
    bytes::Bytes::from(v)
}

/// `Bytes::to_vec` (through its slice): a copy of the bytes.
#[verifier::external_body]
pub(crate) fn bytes_to_vec(b: &bytes::Bytes) -> (r: Vec<u8>)
    ensures
        r@ == bytes_seq(*b),
{
    b.to_vec()
}

// ---------------------------------------------------------------- uuid

/// A lower-case hexadecimal digit for `d < 16`.
pub open spec fn hex_char(d: nat) -> char {
    if d < 10 {
        crate::text::digit_char(d)
    } else if d == 10 {
        'a'
    } else if d == 11 {
        'b'
    } else if d == 12 {
        'c'
    } else if d == 13 {
        'd'
    } else if d == 14 {
        'e'
    } else {
        'f'
    }
}

/// The lowest `width` hexadecimal digits of `v`, most significant first.
pub open spec fn hex_fixed(v: nat, width: nat) -> Seq<char>
    decreases width,
{
    if width == 0 {
        Seq::empty()
    } else {
        hex_fixed(v / 16, (width - 1) as nat).push(hex_char(v % 16))
    }
}

/// The hyphenated lower-case form in which a UUID displays:
/// 8-4-4-4-12 hexadecimal digits of its 128-bit value.
pub open spec fn uuid_text(v: u128) -> Seq<char> {
    let h = hex_fixed(v as nat, 32);
    h.subrange(0, 8) + seq!['-'] + h.subrange(8, 12) + seq!['-'] + h.subrange(12, 16) + seq!['-']
        + h.subrange(16, 20) + seq!['-'] + h.subrange(20, 32)
}

proof fn lemma_hex_fixed_len(v: nat, width: nat)
    ensures
        hex_fixed(v, width).len() == width,
    decreases width,
{
    if width > 0 {
        lemma_hex_fixed_len(v / 16, (width - 1) as nat);
    }
}

/// A UUID's text is 36 characters long: 32 digits and 4 hyphens.
pub proof fn lemma_uuid_text_len(v: u128)
    ensures
        uuid_text(v).len() == 36,
{
    lemma_hex_fixed_len(v as nat, 32);
}

/// What `uuid::Uuid::parse_str` accepts, as the 128-bit value it denotes
/// (the simple, hyphenated, braced and URN forms, in either case).
pub uninterp spec fn uuid_parse_spec(s: Seq<char>) -> Option<u128>;

/// A version-4 UUID of the RFC 4122 variant, as its big-endian 128-bit
/// value: version nibble 4 at bits 76 to 79, variant bits `10` at bits 62
/// and 63.
pub open spec fn is_uuid_v4(v: u128) -> bool {
    &&& (v / 0x1000_0000_0000_0000_000) % 16 == 4
    &&& (v / 0x4000_0000_0000_0000) % 4 == 2
}

/// `Uuid::new_v4().as_u128()`: a random version-4 UUID. Its value is chance;
/// the crate fixes the version nibble to 4 and the variant bits to `10`.
/// The crate panics when the operating system's random source fails; that
/// depends on the machine, not on an argument, so no `requires` can rule it
/// out.
#[verifier::external_body]
pub(crate) fn new_uuid_v4() -> (r: u128)
    ensures
        is_uuid_v4(r),
{
    uuid::Uuid::new_v4().as_u128()
}

/// `Uuid::from_u128(v).to_string()`: the hyphenated lower-case form, which
/// `Uuid::parse_str` reads back as `v`.
#[verifier::external_body]
pub(crate) fn uuid_to_string(v: u128) -> (r: String)
    ensures
        r@ == uuid_text(v),
        uuid_parse_spec(r@) == Some(v),
{
    uuid::Uuid::from_u128(v).to_string()
}

/// `Uuid::parse_str(s)`, as the parsed 128-bit value when it succeeds; the
/// hyphenated lower-case form of a value parses as that value.
#[verifier::external_body]
pub(crate) fn uuid_parse(s: &str) -> (r: Option<u128>)
    ensures
        r == uuid_parse_spec(s@),
        forall|v: u128| #[trigger] uuid_text(v) == s@ ==> r == Some(v),
{
    uuid::Uuid::parse_str(s).ok().map(|u| u.as_u128())
}

// ---------------------------------------------------------------- chrono

/// `chrono::Utc::now().timestamp_millis()`: the current time in milliseconds
/// since the Unix epoch. It depends on the clock, so nothing is stated of it.
#[verifier::external_body]
pub(crate) fn now_millis() -> (r: i64) {
    chrono::Utc::now().timestamp_millis()
}

// ---------------------------------------------------------------- serde_json

/// `serde_json::Error`.
#[verifier::external_type_specification]
#[verifier::external_body]
pub struct ExJsonError(serde_json::Error);

/// What `serde_json::from_slice::<serde_json::Value>` makes of `doc`,
/// written back with `serde_json::to_vec`; `None` when `doc` is not JSON.
pub uninterp spec fn json_normalized_spec(doc: Seq<u8>) -> Option<Seq<u8>>;

/// Parses `doc` as a JSON value and serializes that value again.
#[verifier::external_body]
pub(crate) fn json_normalize(doc: &[u8]) -> (r: Option<Vec<u8>>)
    ensures
        match r {
            Some(v) => json_normalized_spec(doc@) == Some(v@),
            None => json_normalized_spec(doc@) is None,
        },
{
    serde_json::from_slice::<serde_json::Value>(doc).ok().map(|v| serde_json::to_vec(&v).unwrap())
}

/// The JSON text `serde_json::to_vec` writes for an object whose one member
/// is `key` with the string `text`.
pub uninterp spec fn json_object_spec(key: Seq<char>, text: Seq<char>) -> Seq<u8>;

/// Serializes the object `{key: text}` with `serde_json::to_vec`.
#[verifier::external_body]
pub(crate) fn json_object_of(key: &str, text: &str) -> (r: Vec<u8>)
    ensures
        r@ == json_object_spec(key@, text@),
{
    let mut object = serde_json::Map::new();
    object.insert(key.to_string(), serde_json::Value::String(text.to_string()));
    serde_json::to_vec(&serde_json::Value::Object(object)).unwrap()
}

/// The message `serde_json::from_slice::<serde_json::Value>` fails with on
/// `doc`; `None` when `doc` is JSON.
pub uninterp spec fn json_parse_error_spec(doc: Seq<u8>) -> Option<Seq<char>>;

/// What `Value::pointer(pointer)` finds in the JSON value of `doc`: `None`
/// when nothing is there, `Some(Some(s))` for a string `s`, and `Some(None)`
/// for another value.
pub uninterp spec fn json_pointer_spec(doc: Seq<u8>, pointer: Seq<char>) -> Option<
    Option<Seq<char>>,
>;

/// The view of an optional, optionally-string JSON field.
pub open spec fn field_view(f: Option<Option<String>>) -> Option<Option<Seq<char>>> {
    match f {
        Some(Some(s)) => Some(Some(s@)),
        Some(None) => Some(None),
        None => None,
    }
}

/// Parses `doc` with `serde_json::from_slice` into a `serde_json::Value` and
/// reads what `Value::pointer(pointer)` finds there, as a string if it is
/// one; `Err` with the parser's message when `doc` is not JSON.
#[verifier::external_body]
pub(crate) fn json_pointer_text(doc: &[u8], pointer: &str) -> (r: Result<Option<Option<String>>, String>)
    ensures
        match r {
            Ok(f) => json_parse_error_spec(doc@) is None && json_pointer_spec(doc@, pointer@)
                == field_view(f),
            Err(m) => json_parse_error_spec(doc@) == Some(m@),
        },
{
    let v: serde_json::Value = serde_json::from_slice(doc).map_err(|e| e.to_string())?;
    Ok(v.pointer(pointer).map(|x| x.as_str().map(|s| s.to_string())))
}

/// `serde_json::Error`'s message (`to_string`). Nothing is stated of its text.
#[verifier::external_body]
pub(crate) fn json_error_message(e: &serde_json::Error) -> (r: String) {
    e.to_string()
}

// ---------------------------------------------------------------- k8s-openapi

/// `k8s_openapi::api::apps::v1::Deployment`.
#[verifier::external_type_specification]
#[verifier::external_body]
pub struct ExDeployment(k8s_openapi::api::apps::v1::Deployment);

/// What `serde_json::from_slice::<Deployment>` makes of `doc`: the
/// manifest's `metadata.namespace` and `metadata.name`, or the parser's
/// message when `doc` is not a Deployment manifest.
pub uninterp spec fn manifest_target_spec(doc: Seq<u8>) -> Result<
    (Option<Seq<char>>, Option<Seq<char>>),
    Seq<char>,
>;

/// The view of an optional string.
pub open spec fn opt_text(s: Option<String>) -> Option<Seq<char>> {
    match s {
        Some(t) => Some(t@),
        None => None,
    }
}

/// Parses `doc` as a Deployment manifest with `serde_json::from_slice`,
/// giving the Deployment with its `metadata.namespace` and `metadata.name`,
/// or the parser's message.
#[verifier::external_body]
pub(crate) fn parse_deployment(doc: &[u8]) -> (r: Result<
    (k8s_openapi::api::apps::v1::Deployment, Option<String>, Option<String>),
    String,
>)
    ensures
        match r {
            Ok((_, ns, name)) => manifest_target_spec(doc@) == Ok::<_, Seq<char>>(
                (opt_text(ns), opt_text(name)),
            ),
            Err(m) => manifest_target_spec(doc@) == Err::<(Option<Seq<char>>, Option<Seq<char>>), _>(
                m@,
            ),
        },
{
    let d: k8s_openapi::api::apps::v1::Deployment = serde_json::from_slice(doc).map_err(
        |e| e.to_string(),
    )?;
    let namespace = d.metadata.namespace.clone();
    let name = d.metadata.name.clone();
    Ok((d, namespace, name))
}

// ---------------------------------------------------------------- std

/// `std::io::Error`.
#[verifier::external_type_specification]
#[verifier::external_body]
pub struct ExIoError(std::io::Error);

/// `std::io::Error`'s message (`to_string`). Nothing is stated of its text.
#[verifier::external_body]
pub(crate) fn io_error_message(e: &std::io::Error) -> (r: String) {
    e.to_string()
}

/// What `String::from_utf8_lossy` makes of `b`: its text, with each
/// invalid sequence replaced by U+FFFD.
pub uninterp spec fn utf8_lossy_spec(b: Seq<u8>) -> Seq<char>;

/// `String::from_utf8_lossy(b).to_string()`: valid UTF-8 decodes as it is.
#[verifier::external_body]
pub(crate) fn utf8_lossy(b: &[u8]) -> (r: String)
    ensures
        r@ == utf8_lossy_spec(b@),
        vstd::utf8::valid_utf8(b@) ==> r@ == vstd::utf8::decode_utf8(b@),
{
    String::from_utf8_lossy(b).to_string()
}

/// `String::from_utf8(v).ok()`: the text `v` encodes when it is valid UTF-8.
#[verifier::external_body]
pub(crate) fn utf8_to_string(v: Vec<u8>) -> (r: Option<String>)
    ensures
        r is Some <==> vstd::utf8::valid_utf8(v@),
        r matches Some(s) ==> s@ == vstd::utf8::decode_utf8(v@),
{
    String::from_utf8(v).ok()
}

/// The number of whole milliseconds a `Duration` spans (`Duration::as_millis`).
pub uninterp spec fn duration_millis_spec(d: std::time::Duration) -> u128;

/// `Duration::as_millis`.
#[verifier::external_body]
pub(crate) fn duration_millis(d: std::time::Duration) -> (r: u128)
    ensures
        r == duration_millis_spec(d),
{
    d.as_millis()
}

/// `Duration::from_millis(m)`: a span of exactly `m` milliseconds.
#[verifier::external_body]
pub(crate) fn duration_from_millis(m: u64) -> (r: std::time::Duration)
    ensures
        duration_millis_spec(r) == m,
{
    std::time::Duration::from_millis(m)
}

} // verus!
