//! Character encodings: detecting the encoding of a file, decoding and
//! encoding text.

use vstd::prelude::*;
use chardetng::EncodingDetector;
use encoding_rs::Encoding;
use crate::text::same_text;

verus! {

/// An encoding of the encoding crate, carried as an opaque value.
#[verifier::external_type_specification]
#[verifier::external_body]
pub struct ExEncoding(Encoding);

/// The name of a character encoding, by which it is told from every other.
pub uninterp spec fn encoding_name(encoding: Encoding) -> Seq<char>;

/// The name of the encoding that a label stands for; `None` for a label
/// that stands for none.
pub uninterp spec fn label_encoding(label: Seq<u8>) -> Option<Seq<char>>;

/// The name of the encoding that the detector guesses for a byte stream.
pub uninterp spec fn guessed_encoding(bytes: Seq<u8>) -> Seq<char>;

/// The text that bytes decode to under the encoding of the given name, and
/// the name of the encoding that was used in the end (a byte order mark
/// overrides the encoding asked for).
pub uninterp spec fn decoded(name: Seq<char>, bytes: Seq<u8>) -> (Seq<char>, Seq<char>);

/// The bytes that a text encodes to under the encoding of the given name.
pub uninterp spec fn encoded(name: Seq<char>, text: Seq<char>) -> Seq<u8>;

/// The text that bytes stand for as UTF-8, with a replacement character for
/// each sequence that is not UTF-8.
pub uninterp spec fn lossy_text(bytes: Seq<u8>) -> Seq<char>;

/// The largest input, in bytes, that the codecs are given. They allocate a
/// buffer of up to ten times the size of their input, rounded up to a power
/// of two: up to here its size fits in `isize`.
pub const MAX_CODEC_INPUT: usize = usize::MAX / 64;

/// The name of UTF-8.
pub open spec fn utf8_name() -> Seq<char> {
    seq!['U', 'T', 'F', '-', '8']
}

/// Whether one of the bytes is outside ASCII.
pub open spec fn has_non_ascii(bytes: Seq<u8>) -> bool {
    exists|i: int| 0 <= i < bytes.len() && #[trigger] bytes[i] >= 0x80
}

/// Calls `Encoding::for_label`. Believed: which encoding comes back, if any,
/// is a function of the label.
#[verifier::external_body]
fn encoding_for_label(label: &[u8]) -> (found: Option<&'static Encoding>)
    ensures
        found.is_some() == label_encoding(label@).is_some(),
        found matches Some(encoding) ==> label_encoding(label@) == Some(encoding_name(*encoding)),
{
    Encoding::for_label(label)
}

/// Feeds a new `EncodingDetector` the whole stream and calls its `guess`,
/// with no domain hint and UTF-8 allowed. Believed: `feed` says whether the
/// stream held a byte outside ASCII, and the guess is a function of the
/// bytes.
#[verifier::external_body]
fn detector_guess(bytes: &[u8]) -> (out: (bool, &'static Encoding))
    ensures
        out.0 == has_non_ascii(bytes@),
        encoding_name(*out.1) == guessed_encoding(bytes@),
{
    let mut detector = EncodingDetector::new();
    let seen = detector.feed(bytes, true);
    (seen, detector.guess(None, true))
}

/// Calls `Encoding::name`. Believed: it is the name by which the encoding is
/// known.
#[verifier::external_body]
fn encoding_label(encoding: &'static Encoding) -> (name: String)
    ensures
        name@ == encoding_name(*encoding),
{
    encoding.name().to_string()
}

/// Calls `Encoding::decode`. Believed: the text and the encoding used are a
/// function of the encoding and the bytes.
#[verifier::external_body]
fn encoding_decode(encoding: &'static Encoding, bytes: &[u8]) -> (out: (String, &'static Encoding))
    requires
        bytes@.len() <= MAX_CODEC_INPUT,
    ensures
        (out.0@, encoding_name(*out.1)) == decoded(encoding_name(*encoding), bytes@),
{
    let (text, used, _) = encoding.decode(bytes);
    (text.into_owned(), used)
}

/// Calls `Encoding::encode`. Believed: the bytes are a function of the
/// encoding and the text.
#[verifier::external_body]
fn encoding_encode(encoding: &'static Encoding, text: &str) -> (bytes: Vec<u8>)
    requires
        vstd::utf8::encode_utf8(text@).len() <= MAX_CODEC_INPUT,
    ensures
        bytes@ == encoded(encoding_name(*encoding), text@),
{
    encoding.encode(text).0.into_owned()
}

/// Calls `String::from_utf8_lossy`. Believed: the text is a function of the
/// bytes, and bytes that are UTF-8 give the text they encode.
#[verifier::external_body]
fn utf8_lossy(bytes: &[u8]) -> (text: String)
    ensures
        text@ == lossy_text(bytes@),
        vstd::utf8::valid_utf8(bytes@) ==> text@ == vstd::utf8::decode_utf8(bytes@),
{
    String::from_utf8_lossy(bytes).into_owned()
}

/// The text that ASCII bytes stand for: each byte is one character.
pub open spec fn ascii_text(bytes: Seq<u8>) -> Seq<char> {
    Seq::new(bytes.len(), |i: int| bytes[i] as char)
}

/// Bytes that are all ASCII are UTF-8, and the text they encode has one
/// character for each byte.
pub proof fn lemma_ascii_is_utf8(bytes: Seq<u8>)
    requires
        !has_non_ascii(bytes),
    ensures
        vstd::utf8::valid_utf8(bytes),
        vstd::utf8::decode_utf8(bytes) == ascii_text(bytes),
{
    let text = ascii_text(bytes);
    assert(vstd::utf8::is_ascii_chars(text)) by {
        assert forall|i: int| 0 <= i < text.len() implies '\0' <= #[trigger] text[i] <= '\u{7f}' by {
            assert(bytes[i] < 0x80);
        }
    }
    vstd::utf8::is_ascii_chars_encode_utf8(text);
    assert(vstd::utf8::encode_utf8(text) =~= bytes) by {
        assert forall|i: int| 0 <= i < bytes.len() implies vstd::utf8::encode_utf8(text)[i] == bytes[i] by {
            assert(bytes[i] < 0x80);
            assert(text[i] as u8 == bytes[i]);
        }
    }
    vstd::utf8::encode_utf8_valid_utf8(text);
    vstd::utf8::encode_utf8_decode_utf8(text);
}

/// The string `UTF-8`.
pub fn utf8_label() -> (name: String)
    ensures
        name@ == utf8_name(),
{
    let name = "UTF-8";
    proof {
        reveal_strlit("UTF-8");
        assert(name@ =~= utf8_name());
    }
    name.to_owned()
}

/// A character encoding.
#[derive(Clone, Copy)]
pub struct TextEncoding {
    inner: &'static Encoding,
}

impl TextEncoding {
    /// The name of the encoding.
    pub closed spec fn name(&self) -> Seq<char> {
        encoding_name(*self.inner)
    }

    /// The encoding that a label stands for, if it stands for one.
    pub fn for_label(label: &str) -> (found: Option<TextEncoding>)
        ensures
            found.is_some() == label_encoding(vstd::utf8::encode_utf8(label@)).is_some(),
            found matches Some(encoding) ==> label_encoding(vstd::utf8::encode_utf8(label@)) == Some(
                encoding.name(),
            ),
    {
        match encoding_for_label(label.as_bytes()) {
            Some(inner) => Some(TextEncoding { inner }),
            None => None,
        }
    }

    /// Looks at the bytes of a file: whether one of them is outside ASCII,
    /// and the encoding that the bytes seem to be in.
    pub fn detect(bytes: &[u8]) -> (out: (bool, TextEncoding))
        ensures
            out.0 == has_non_ascii(bytes@),
            out.1.name() == guessed_encoding(bytes@),
    {
        let (seen, inner) = detector_guess(bytes);
        (seen, TextEncoding { inner })
    }

    /// The name of the encoding, as a string.
    pub fn label(&self) -> (name: String)
        ensures
            name@ == self.name(),
    {
        encoding_label(self.inner)
    }

    /// Whether the encoding is UTF-8.
    pub fn is_utf8(&self) -> (yes: bool)
        ensures
            yes == (self.name() == utf8_name()),
    {
        let name = self.label();
        let utf8 = utf8_label();
        same_text(name.as_str(), utf8.as_str())
    }

    /// Decodes bytes to text; gives the encoding that was used as well,
    /// which is another one where the bytes begin with a byte order mark.
    pub fn decode(&self, bytes: &[u8]) -> (out: (String, TextEncoding))
        requires
            bytes@.len() <= MAX_CODEC_INPUT,
        ensures
            (out.0@, out.1.name()) == decoded(self.name(), bytes@),
    {
        let (text, used) = encoding_decode(self.inner, bytes);
        (text, TextEncoding { inner: used })
    }

    /// Encodes text to bytes.
    pub fn encode(&self, text: &str) -> (bytes: Vec<u8>)
        requires
            vstd::utf8::encode_utf8(text@).len() <= MAX_CODEC_INPUT,
        ensures
            bytes@ == encoded(self.name(), text@),
    {
        encoding_encode(self.inner, text)
    }
}

/// The text of a file and the name of the encoding it was found to be in.
#[derive(Debug, Clone)]
pub struct ReadResult {
    pub content: String,
    pub encoding: String,
}

impl Default for ReadResult {
    /// No text, no encoding named.
    fn default() -> (read: ReadResult)
        ensures
            read.content@.len() == 0,
            read.encoding@.len() == 0,
    {
        ReadResult { content: String::new(), encoding: String::new() }
    }
}

/// What the bytes of a file are read as. An empty file is empty UTF-8 text.
/// Bytes that are all ASCII are UTF-8 text. Otherwise the encoding is
/// guessed and the bytes are decoded under the guess.
pub open spec fn text_of_file(bytes: Seq<u8>) -> (Seq<char>, Seq<char>) {
    if bytes.len() == 0 {
        (Seq::empty(), utf8_name())
    } else if has_non_ascii(bytes) {
        decoded(guessed_encoding(bytes), bytes)
    } else {
        (ascii_text(bytes), utf8_name())
    }
}

/// The text that the bytes of a file stand for, and the name of the encoding
/// where one was detected. Bytes that are all ASCII are text as they are,
/// with no encoding detected. Otherwise the encoding is guessed and the bytes
/// are decoded under the guess.
pub open spec fn detected_text(bytes: Seq<u8>) -> (Seq<char>, Option<Seq<char>>) {
    if has_non_ascii(bytes) {
        (decoded(guessed_encoding(bytes), bytes).0, Some(decoded(guessed_encoding(bytes), bytes).1))
    } else {
        (ascii_text(bytes), None)
    }
}

/// Turns bytes into text and names the encoding, where one had to be
/// detected.
pub fn detect_text(bytes: &[u8]) -> (out: (String, Option<String>))
    requires
        bytes@.len() <= MAX_CODEC_INPUT,
    ensures
        out.0@ == detected_text(bytes@).0,
        match out.1 {
            Some(name) => detected_text(bytes@).1 == Some(name@),
            None => detected_text(bytes@).1 is None,
        },
{
    let (seen, guess) = TextEncoding::detect(bytes);
    if seen {
        let (content, used) = guess.decode(bytes);
        (content, Some(used.label()))
    } else {
        proof {
            lemma_ascii_is_utf8(bytes@);
        }
        (utf8_lossy(bytes), None)
    }
}

/// Turns the bytes of a file into text, detecting the encoding.
pub fn read_to_string(bytes: &[u8]) -> (read: ReadResult)
    requires
        bytes@.len() <= MAX_CODEC_INPUT,
    ensures
        (read.content@, read.encoding@) == text_of_file(bytes@),
{
    if bytes.len() == 0 {
        ReadResult { content: String::new(), encoding: utf8_label() }
    } else {
        match detect_text(bytes) {
            (content, Some(encoding)) => ReadResult { content, encoding },
            (content, None) => ReadResult { content, encoding: utf8_label() },
        }
    }
}

/// A request to read a file again under a named encoding.
#[derive(Debug, Clone)]
pub struct EncodeArg {
    pub file_path: String,
    pub encoding: String,
}

impl Default for EncodeArg {
    /// No path, no encoding named.
    fn default() -> (arg: EncodeArg)
        ensures
            arg.file_path@.len() == 0,
            arg.encoding@.len() == 0,
    {
        EncodeArg { file_path: String::new(), encoding: String::new() }
    }
}

/// The message for a label that stands for no encoding.
pub open spec fn invalid_encoding_message() -> Seq<char> {
    "Requested encoding is invalid"@
}

/// The encoding that a request names. Fails, with the message for an
/// invalid encoding, where the label stands for none.
pub fn requested_encoding(arg: &EncodeArg) -> (found: Result<TextEncoding, String>)
    ensures
        found.is_ok() == label_encoding(vstd::utf8::encode_utf8(arg.encoding@)).is_some(),
        found matches Ok(encoding) ==> label_encoding(vstd::utf8::encode_utf8(arg.encoding@)) == Some(
            encoding.name(),
        ),
        found matches Err(message) ==> message@ == invalid_encoding_message(),
{
    match TextEncoding::for_label(arg.encoding.as_str()) {
        Some(encoding) => Ok(encoding),
        None => Err("Requested encoding is invalid".to_owned()),
    }
}

/// The text of a file under a given encoding: empty for an empty file,
/// else the bytes decoded.
pub open spec fn text_under(name: Seq<char>, bytes: Seq<u8>) -> Seq<char> {
    if bytes.len() == 0 {
        Seq::empty()
    } else {
        decoded(name, bytes).0
    }
}

/// Reads the bytes of a file under the encoding that the request names.
/// Fails, whatever the bytes are, where the label stands for no encoding.
pub fn encode(arg: &EncodeArg, bytes: &[u8]) -> (text: Result<String, String>)
    requires
        bytes@.len() <= MAX_CODEC_INPUT,
    ensures
        match label_encoding(vstd::utf8::encode_utf8(arg.encoding@)) {
            Some(name) => text matches Ok(content) && content@ == text_under(name, bytes@),
            None => text matches Err(message) && message@ == invalid_encoding_message(),
        },
{
    match requested_encoding(arg) {
        Ok(encoding) => {
            if bytes.len() == 0 {
                Ok(String::new())
            } else {
                Ok(encoding.decode(bytes).0)
            }
        },
        Err(message) => Err(message),
    }
}

/// The bytes to write for a text. With no encoding named, with a label that
/// stands for none, or with one that stands for UTF-8, they are the UTF-8
/// bytes of the text; else the text encoded under the encoding named.
pub open spec fn bytes_of_text(data: Seq<char>, encoding: Option<Seq<char>>) -> Seq<u8> {
    match encoding {
        Some(label) => match label_encoding(vstd::utf8::encode_utf8(label)) {
            Some(name) => if name == utf8_name() {
                vstd::utf8::encode_utf8(data)
            } else {
                encoded(name, data)
            },
            None => vstd::utf8::encode_utf8(data),
        },
        None => vstd::utf8::encode_utf8(data),
    }
}

/// The bytes to write to a file for a text and the encoding asked for.
pub fn write_to_file(data: &str, encoding: Option<&str>) -> (bytes: Vec<u8>)
    requires
        vstd::utf8::encode_utf8(data@).len() <= MAX_CODEC_INPUT,
    ensures
        bytes@ == bytes_of_text(
            data@,
            match encoding {
                Some(label) => Some(label@),
                None => None,
            },
        ),
{
    match encoding {
        Some(label) => match TextEncoding::for_label(label) {
            Some(found) => {
                if found.is_utf8() {
                    data.as_bytes_vec()
                } else {
                    found.encode(data)
                }
            },
            None => data.as_bytes_vec(),
        },
        None => data.as_bytes_vec(),
    }
}

} // verus!
