//! The invoke bridge: messages sent by the page's scripts to the host.
//!
//! A page calls `external.invoke(text)`. The adapter receives the text in
//! the engine's own form and hands its bytes to the host, which gives them
//! to `WebView::receive`. That decodes them and hands out the invoke
//! handler with the message; the host calls the handler and reports what it
//! returned with `WebView::finish_invoke`. The handler is out of the view
//! for the length of the call. A message that arrives meanwhile waits, and
//! `WebView::finish_invoke` hands the handler out again for it, so that
//! messages reach the handler one at a time, in the order in which they
//! arrived, and none is lost.

use vstd::prelude::*;
use vstd::utf8::{decode_utf8, valid_utf8};
use crate::strings::{lossy_text, text_from_utf8_lossy};

verus! {

/// Copies a message out of the bytes the engine delivered. Decoding never
/// fails: bytes that are not UTF-8 are decoded lossily.
pub fn decode_message(raw: &[u8]) -> (r: String)
    ensures
        r@ == lossy_text(raw@),
        valid_utf8(raw@) ==> r@ == decode_utf8(raw@),
{
    text_from_utf8_lossy(raw)
}

/// What the host needs to deliver one message: the handler, taken out of
/// the view for the length of the call, and the message.
pub struct Invocation<I> {
    pub handler: I,
    pub message: String,
}

} // verus!
