//! Fixed-capacity storage for the texts and bytes that a client keeps for itself.

use vstd::prelude::*;

verus! {

/// Most bytes that a stored username has.
pub const MAX_USERNAME_LEN: usize = 32;

/// Most bytes that a stored password has.
pub const MAX_PASSWORD_LEN: usize = 64;

/// Maximum topic length for runtime-provided Last Will messages.
pub const MAX_WILL_TOPIC_LEN: usize = 128;

/// Maximum payload length for runtime-provided Last Will messages.
pub const MAX_WILL_PAYLOAD_LEN: usize = 256;

/// Number of bytes that a text takes.
pub open spec fn byte_len(text: Seq<char>) -> nat {
    vstd::utf8::encode_utf8(text).len()
}

/// `heapless::String`, a text of at most `N` bytes.
#[verifier::external_type_specification]
#[verifier::external_body]
pub struct ExString<const N: usize>(heapless::String<N>);

/// `heapless::Vec`, a sequence of at most `N` items.
#[verifier::external_type_specification]
#[verifier::external_body]
#[verifier::reject_recursive_types(T)]
pub struct ExVec<T, const N: usize>(heapless::Vec<T, N>);

/// The text that a stored username holds.
pub uninterp spec fn username_text(text: heapless::String<MAX_USERNAME_LEN>) -> Seq<char>;

/// The text that a stored password holds.
pub uninterp spec fn password_text(text: heapless::String<MAX_PASSWORD_LEN>) -> Seq<char>;

/// The text that a stored will topic holds.
pub uninterp spec fn topic_text(text: heapless::String<MAX_WILL_TOPIC_LEN>) -> Seq<char>;

/// The bytes that a stored will payload holds.
pub uninterp spec fn payload_bytes(bytes: heapless::Vec<u8, MAX_WILL_PAYLOAD_LEN>) -> Seq<u8>;

/// `heapless::String::try_from` a `&str`, at the capacity of a username: a copy
/// of the text where its bytes fit, an error where they do not.
#[verifier::external_body]
pub(crate) fn store_username(text: &str) -> (stored: Option<heapless::String<MAX_USERNAME_LEN>>)
    ensures
        match stored {
            Some(copy) => byte_len(text@) <= MAX_USERNAME_LEN && username_text(copy) == text@,
            None => byte_len(text@) > MAX_USERNAME_LEN,
        },
{
    heapless::String::try_from(text).ok()
}

/// `heapless::String::try_from` a `&str`, at the capacity of a password: a copy
/// of the text where its bytes fit, an error where they do not.
#[verifier::external_body]
pub(crate) fn store_password(text: &str) -> (stored: Option<heapless::String<MAX_PASSWORD_LEN>>)
    ensures
        match stored {
            Some(copy) => byte_len(text@) <= MAX_PASSWORD_LEN && password_text(copy) == text@,
            None => byte_len(text@) > MAX_PASSWORD_LEN,
        },
{
    heapless::String::try_from(text).ok()
}

/// `heapless::String::as_str` of a username: the text held.
#[verifier::external_body]
pub(crate) fn username_str<'s>(text: &'s heapless::String<MAX_USERNAME_LEN>) -> (held: &'s str)
    ensures
        held@ == username_text(*text),
{
    text.as_str()
}

/// `heapless::String::as_str` of a password: the text held.
#[verifier::external_body]
pub(crate) fn password_str<'s>(text: &'s heapless::String<MAX_PASSWORD_LEN>) -> (held: &'s str)
    ensures
        held@ == password_text(*text),
{
    text.as_str()
}

/// `heapless::String::new` at the capacity of a will topic: the empty text.
#[verifier::external_body]
pub(crate) fn empty_topic() -> (text: heapless::String<MAX_WILL_TOPIC_LEN>)
    ensures
        topic_text(text) == Seq::<char>::empty(),
{
    heapless::String::new()
}

/// `heapless::String::push_str` on a will topic: appends where the bytes of both
/// fit together, and otherwise fails and changes nothing.
#[verifier::external_body]
pub(crate) fn push_topic(
    text: &mut heapless::String<MAX_WILL_TOPIC_LEN>,
    more: &str,
) -> (pushed: Result<(), ()>)
    ensures
        pushed is Ok <==> byte_len(topic_text(*old(text))) + byte_len(more@) <= MAX_WILL_TOPIC_LEN,
        pushed is Ok ==> topic_text(*final(text)) == topic_text(*old(text)) + more@,
        pushed is Err ==> topic_text(*final(text)) == topic_text(*old(text)),
{
    text.push_str(more)
}

/// `heapless::String::as_str` of a will topic: the text held.
#[verifier::external_body]
pub(crate) fn topic_str<'s>(text: &'s heapless::String<MAX_WILL_TOPIC_LEN>) -> (held: &'s str)
    ensures
        held@ == topic_text(*text),
{
    text.as_str()
}

/// `heapless::Vec::new` at the capacity of a will payload: no bytes.
#[verifier::external_body]
pub(crate) fn empty_payload() -> (bytes: heapless::Vec<u8, MAX_WILL_PAYLOAD_LEN>)
    ensures
        payload_bytes(bytes) == Seq::<u8>::empty(),
{
    heapless::Vec::new()
}

/// `heapless::Vec::extend_from_slice` on a will payload: appends where all bytes
/// fit together, and otherwise fails and changes nothing.
#[verifier::external_body]
pub(crate) fn extend_payload(
    bytes: &mut heapless::Vec<u8, MAX_WILL_PAYLOAD_LEN>,
    more: &[u8],
) -> (extended: Result<(), ()>)
    ensures
        extended is Ok <==> payload_bytes(*old(bytes)).len() + more@.len() <= MAX_WILL_PAYLOAD_LEN,
        extended is Ok ==> payload_bytes(*final(bytes)) == payload_bytes(*old(bytes)) + more@,
        extended is Err ==> payload_bytes(*final(bytes)) == payload_bytes(*old(bytes)),
{
    bytes.extend_from_slice(more)
}

/// `heapless::Vec::as_slice` of a will payload: the bytes held.
#[verifier::external_body]
pub(crate) fn payload_slice<'s>(bytes: &'s heapless::Vec<u8, MAX_WILL_PAYLOAD_LEN>) -> (held: &'s [u8])
    ensures
        held@ == payload_bytes(*bytes),
{
    bytes.as_slice()
}

} // verus!
