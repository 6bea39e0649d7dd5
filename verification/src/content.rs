//! Page content and the URL it is handed to the engine as.

use vstd::prelude::*;
use vstd::slice::slice_subrange;
use vstd::string::{StringExecFns, StringSliceAdditionalSpecFns};
use vstd::utf8::{
    decode_utf8, decode_utf8_encode_utf8, encode_scalar, encode_utf8, encode_utf8_decode_utf8,
    encode_utf8_valid_utf8, is_leading_byte_width_1, partial_valid_utf8,
    partial_valid_utf8_extend_ascii_block, utf8_byte_ranges_bitwise, valid_utf8,
};
use crate::percent::{
    decode_bytes, encode_text, lemma_decode_inverts_encode, lemma_encoded_is_plain,
    percent_decoded, percent_encoded,
};
use crate::strings::text_from_utf8;

verus! {

/// What inline HTML is prefixed with to make a URL of it.
pub const DATA_URL_PREFIX: &'static str = "data:text/html,";

/// A value that holds text: an owned string or a borrowed one.
pub trait Text {
    /// The characters held.
    spec fn text(&self) -> Seq<char>;

    /// The text as a string slice.
    fn as_text(&self) -> (r: &str)
        ensures
            r@ == self.text(),
    ;
}

impl Text for String {
    open spec fn text(&self) -> Seq<char> {
        self@
    }

    fn as_text(&self) -> (r: &str) {
        self.as_str()
    }
}

impl<'a> Text for &'a str {
    open spec fn text(&self) -> Seq<char> {
        (*self)@
    }

    fn as_text(&self) -> (r: &str) {
        *self
    }
}

/// Content displayable inside a web view.
#[derive(Debug, PartialEq, Eq)]
pub enum Content<T> {
    /// Content to be fetched from a URL.
    Url(T),
    /// A string of literal HTML.
    Html(T),
}

/// The URL that stands for a page of literal HTML: the data prefix, then
/// the text whose UTF-8 bytes are the percent-encoding of the HTML's bytes.
pub open spec fn html_url(html: Seq<char>) -> Seq<char> {
    DATA_URL_PREFIX@ + decode_utf8(percent_encoded(encode_utf8(html)))
}

/// The bytes that follow the data prefix in `url`, percent-decoded, if
/// `url` begins with that prefix.
pub open spec fn inline_payload(url: Seq<u8>) -> Option<Seq<u8>> {
    let prefix = encode_utf8(DATA_URL_PREFIX@);
    if url.len() >= prefix.len() && url.subrange(0, prefix.len() as int) == prefix {
        Some(percent_decoded(url.skip(prefix.len() as int)))
    } else {
        None
    }
}

/// What a URL carries inline.
#[derive(Debug, PartialEq, Eq)]
pub enum Inline {
    /// Nothing: the URL does not begin with the data prefix, and names a
    /// page to load.
    Remote,
    /// The HTML that follows the data prefix, percent-decoded.
    Html(String),
    /// Nothing that can be shown: the URL begins with the data prefix, but
    /// what follows it, percent-decoded, is not well-formed UTF-8.
    Malformed,
}

/// The mathematical value of an [`Inline`].
pub ghost enum InlineView {
    Remote,
    Html(Seq<char>),
    Malformed,
}

impl View for Inline {
    type V = InlineView;

    open spec fn view(&self) -> InlineView {
        match self {
            Inline::Remote => InlineView::Remote,
            Inline::Html(html) => InlineView::Html(html@),
            Inline::Malformed => InlineView::Malformed,
        }
    }
}

/// What `url` carries inline: the percent-decoded rest of a URL that begins
/// with the data prefix, as text where that is well-formed UTF-8.
pub open spec fn inline_html_of(url: Seq<char>) -> InlineView {
    match inline_payload(encode_utf8(url)) {
        Some(bytes) => if valid_utf8(bytes) {
            InlineView::Html(decode_utf8(bytes))
        } else {
            InlineView::Malformed
        },
        None => InlineView::Remote,
    }
}

impl<C: Text> Content<C> {
    /// The URL that the content is handed to the engine as: a URL as it
    /// is, literal HTML as a data URL.
    pub open spec fn url(&self) -> Seq<char> {
        match self {
            Content::Url(url) => url.text(),
            Content::Html(html) => html_url(html.text()),
        }
    }

    /// Resolves the content to the URL that the engine is to load.
    pub fn to_url(&self) -> (r: String)
        ensures
            r@ == self.url(),
    {
        match self {
            Content::Url(url) => String::from_str(url.as_text()),
            Content::Html(html) => {
                let encoded = encode_text(html.as_text());
                proof {
                    encode_utf8_decode_utf8(encoded@);
                }
                String::from_str(DATA_URL_PREFIX).concat(encoded.as_str())
            },
        }
    }
}

/// Recovers the HTML that a data URL carries inline, and tells a URL that
/// carries none from one whose payload cannot be read as text.
pub fn inline_html(url: &str) -> (r: Inline)
    ensures
        r@ == inline_html_of(url@),
{
    let bytes = url.as_bytes();
    let prefix = DATA_URL_PREFIX.as_bytes();
    let n = prefix.len();
    if bytes.len() < n {
        return Inline::Remote;
    }
    let mut i: usize = 0;
    while i < n
        invariant
            i <= n,
            n == prefix@.len(),
            n <= bytes@.len(),
            prefix@ == DATA_URL_PREFIX.spec_bytes(),
            bytes@ == url.spec_bytes(),
            forall|j: int| 0 <= j < i ==> bytes@[j] == prefix@[j],
        decreases n - i,
    {
        if bytes[i] != prefix[i] {
            proof {
                let expected = encode_utf8(DATA_URL_PREFIX@);
                let given = encode_utf8(url@);
                assert(prefix@ == expected);
                assert(bytes@ == given);
                assert(given.subrange(0, expected.len() as int)[i as int] != expected[i as int]);
            }
            return Inline::Remote;
        }
        i += 1;
    }
    assert(bytes@.subrange(0, n as int) =~= prefix@);
    let rest = slice_subrange(bytes, n, bytes.len());
    assert(rest@ =~= bytes@.skip(n as int));
    let decoded = decode_bytes(rest);
    match text_from_utf8(decoded) {
        Some(html) => {
            proof {
                encode_utf8_decode_utf8(html@);
            }
            Inline::Html(html)
        },
        None => Inline::Malformed,
    }
}

/// The UTF-8 encoding of two texts joined is their encodings joined.
pub proof fn lemma_encode_utf8_concat(a: Seq<char>, b: Seq<char>)
    ensures
        encode_utf8(a + b) == encode_utf8(a) + encode_utf8(b),
    decreases a.len(),
{
    if a.len() == 0 {
        assert(a + b =~= b);
        assert(encode_utf8(a) + encode_utf8(b) =~= encode_utf8(b));
    } else {
        lemma_encode_utf8_concat(a.drop_first(), b);
        assert((a + b).drop_first() =~= a.drop_first() + b);
        assert((a + b)[0] == a[0]);
        assert(encode_utf8(a + b) =~= encode_scalar(a[0] as u32) + (encode_utf8(a.drop_first())
            + encode_utf8(b)));
    }
}

/// Bytes below 0x80 are well-formed UTF-8.
pub proof fn lemma_ascii_bytes_are_utf8(bytes: Seq<u8>)
    requires
        forall|i: int| 0 <= i < bytes.len() ==> bytes[i] < 0x80,
    ensures
        valid_utf8(bytes),
{
    assert forall|i: int| 0 <= i < bytes.len() implies #[trigger] is_leading_byte_width_1(
        bytes[i],
    ) by {
        utf8_byte_ranges_bitwise(bytes[i]);
    }
    assert(bytes.subrange(0, 0) =~= Seq::<u8>::empty());
    assert(partial_valid_utf8(bytes, 0));
    partial_valid_utf8_extend_ascii_block(bytes, 0, bytes.len() as int);
    assert(bytes.subrange(0, bytes.len() as int) =~= bytes);
}

/// The bytes of the URL of literal HTML are those of the data prefix and,
/// behind them, the percent-encoding of the HTML's bytes.
pub proof fn lemma_html_url_bytes(html: Seq<char>)
    ensures
        encode_utf8(html_url(html)) == encode_utf8(DATA_URL_PREFIX@) + percent_encoded(
            encode_utf8(html),
        ),
{
    let encoded = percent_encoded(encode_utf8(html));
    lemma_encoded_is_plain(encode_utf8(html));
    lemma_ascii_bytes_are_utf8(encoded);
    decode_utf8_encode_utf8(encoded);
    lemma_encode_utf8_concat(DATA_URL_PREFIX@, decode_utf8(encoded));
}

/// Inline HTML survives the trip through its URL: resolving literal HTML
/// to a data URL and reversing the percent-encoding of that URL yields the
/// same HTML, byte for byte.
pub proof fn lemma_inline_html_round_trip(html: Seq<char>)
    ensures
        inline_payload(encode_utf8(html_url(html))) == Some(encode_utf8(html)),
        inline_html_of(html_url(html)) == InlineView::Html(html),
{
    let source = encode_utf8(html);
    let encoded = percent_encoded(source);
    let prefix = encode_utf8(DATA_URL_PREFIX@);
    let url = encode_utf8(html_url(html));
    lemma_html_url_bytes(html);
    assert(url.subrange(0, prefix.len() as int) =~= prefix);
    assert(url.skip(prefix.len() as int) =~= encoded);
    lemma_decode_inverts_encode(source);
    encode_utf8_valid_utf8(html);
    encode_utf8_decode_utf8(html);
}

} // verus!
