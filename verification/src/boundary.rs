//! The boundary to tokio's channels, warp's messages, random identifiers
//! and two string functions of the standard library that vstd does not
//! specify.
//!
//! Nothing in this file is proved: each item states what the library
//! believes of a foreign type or function.

use vstd::prelude::*;
use vstd::utf8::{decode_utf8, valid_utf8};

verus! {

/// The sending half of tokio's unbounded channel, carried as an opaque value.
#[verifier::external_type_specification]
#[verifier::external_body]
#[verifier::reject_recursive_types(T)]
pub struct ExUnboundedSender<T>(tokio::sync::mpsc::UnboundedSender<T>);

/// The receiving half of tokio's unbounded channel, carried as an opaque value.
#[verifier::external_type_specification]
#[verifier::external_body]
#[verifier::reject_recursive_types(T)]
pub struct ExUnboundedReceiver<T>(tokio::sync::mpsc::UnboundedReceiver<T>);

/// The error of a send on a closed channel; it hands the message back.
#[verifier::external_type_specification]
#[verifier::external_body]
#[verifier::reject_recursive_types(T)]
pub struct ExSendError<T>(tokio::sync::mpsc::error::SendError<T>);

/// A websocket message of warp, carried as an opaque value.
#[verifier::external_type_specification]
#[verifier::external_body]
pub struct ExMessage(warp::ws::Message);

/// `tokio::sync::mpsc::unbounded_channel` makes a fresh channel and returns
/// its two halves. Nothing is claimed of them.
pub assume_specification<T>[ tokio::sync::mpsc::unbounded_channel::<T> ]() -> (halves: (
    tokio::sync::mpsc::UnboundedSender<T>,
    tokio::sync::mpsc::UnboundedReceiver<T>,
));

/// `UnboundedSender::send` queues the message without waiting, or fails when
/// the receiving half is closed or dropped. Which of the two happens depends
/// on the other half, so nothing is claimed of the result. (It ends the
/// process rather than return where half of `usize::MAX` messages are
/// queued already, which no memory holds.)
pub assume_specification<T>[ tokio::sync::mpsc::UnboundedSender::<T>::send ](
    sender: &tokio::sync::mpsc::UnboundedSender<T>,
    message: T,
) -> (sent: Result<(), tokio::sync::mpsc::error::SendError<T>>);

/// `Clone::clone` of an `UnboundedSender` gives another handle on the same
/// channel. Nothing is claimed of the handle.
#[verifier::external_body]
pub(crate) fn second_handle(
    sender: &tokio::sync::mpsc::UnboundedSender<warp::ws::Message>,
) -> (handle: tokio::sync::mpsc::UnboundedSender<warp::ws::Message>) {
    sender.clone()
}

/// `Message::text` builds a text frame from a string. Nothing is claimed of
/// the frame.
#[verifier::external_body]
pub(crate) fn text_frame(text: &str) -> (frame: warp::ws::Message) {
    warp::ws::Message::text(text)
}

/// `Uuid::new_v4` draws a random version-4 identifier and `Uuid::as_u128`
/// gives its 128 bits as one integer. The value is random, so nothing is
/// claimed of it.
#[verifier::external_body]
pub(crate) fn random_id() -> (id: u128) {
    uuid::Uuid::new_v4().as_u128()
}

/// The text that `String::from_utf8_lossy` gives for a sequence of bytes.
pub uninterp spec fn lossy_text(bytes: Seq<u8>) -> Seq<char>;

/// `String::from_utf8_lossy` turns bytes into text and puts U+FFFD in the
/// place of whatever is not UTF-8. The result depends on the bytes alone;
/// bytes that are valid UTF-8 give the text they encode.
#[verifier::external_body]
pub(crate) fn text_of(bytes: &[u8]) -> (text: String)
    ensures
        text@ == lossy_text(bytes@),
        valid_utf8(bytes@) ==> text@ == decode_utf8(bytes@),
{
    String::from_utf8_lossy(bytes).into_owned()
}

/// The text that `str::replace` gives: `text` with every match of `from`
/// replaced by `to`.
pub uninterp spec fn replaced(text: Seq<char>, from: Seq<char>, to: Seq<char>) -> Seq<char>;

/// `str::replace` copies `text` and puts `to` in the place of every match of
/// `from`. The result depends on the three texts alone.
#[verifier::external_body]
pub(crate) fn replace_all(text: &str, from: &str, to: &str) -> (out: String)
    ensures
        out@ == replaced(text@, from@, to@),
{
    text.replace(from, to)
}

} // verus!
