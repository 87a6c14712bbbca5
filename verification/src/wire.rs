//! Messages exchanged with the Xenstore daemon.
//!
//! A message has a type, the identifier of the request it belongs to, the
//! identifier of a transaction, and a payload. Payloads that hold several
//! strings hold them as UTF-8, each one ended by a zero byte.

use crate::error::XsError;
use crate::text::utf8_text;
use vstd::prelude::*;
use vstd::slice::slice_subrange;
use vstd::utf8::{decode_utf8, encode_utf8, valid_utf8};

verus! {

/// Type of a Xenstore message.
///
/// The types that the multiplexer tells apart have a name of their own.
#[derive(Clone, Copy, Debug, PartialEq, Eq, Structural)]
pub enum XsMessageType {
    /// Register a watch, and the confirmation of that.
    Watch,
    /// Remove a watch, and the confirmation of that.
    Unwatch,
    /// A watched path has changed. Not an answer to any request.
    WatchEvent,
    /// A request failed.
    Error,
    /// Any other type, by its number.
    Other(u32),
}

/// Number of [`XsMessageType::Watch`].
pub const WATCH: u32 = 4;

/// Number of [`XsMessageType::Unwatch`].
pub const UNWATCH: u32 = 5;

/// Number of [`XsMessageType::WatchEvent`].
pub const WATCH_EVENT: u32 = 15;

/// Number of [`XsMessageType::Error`].
pub const ERROR: u32 = 16;

/// The number of a canonical type stands for that type alone.
pub proof fn lemma_code_tells_types_apart(a: XsMessageType, b: XsMessageType)
    requires
        a.canonical(),
        b.canonical(),
        a.spec_code() == b.spec_code(),
    ensures
        a == b,
{
}

impl XsMessageType {
    /// The number that stands for a type in a message header.
    pub open spec fn spec_code(self) -> u32 {
        match self {
            XsMessageType::Watch => WATCH,
            XsMessageType::Unwatch => UNWATCH,
            XsMessageType::WatchEvent => WATCH_EVENT,
            XsMessageType::Error => ERROR,
            XsMessageType::Other(code) => code,
        }
    }

    /// A type is canonical when it uses the name of its own wherever there is one.
    pub open spec fn canonical(self) -> bool {
        self matches XsMessageType::Other(code) ==> code != WATCH && code != UNWATCH && code
            != WATCH_EVENT && code != ERROR
    }

    /// The number that stands for this type in a message header.
    pub fn code(self) -> (code: u32)
        ensures
            code == self.spec_code(),
    {
        match self {
            XsMessageType::Watch => WATCH,
            XsMessageType::Unwatch => UNWATCH,
            XsMessageType::WatchEvent => WATCH_EVENT,
            XsMessageType::Error => ERROR,
            XsMessageType::Other(code) => code,
        }
    }

    /// The canonical type that a number in a message header stands for.
    pub fn from_code(code: u32) -> (msg_type: Self)
        ensures
            msg_type.canonical(),
            msg_type.spec_code() == code,
    {
        if code == WATCH {
            XsMessageType::Watch
        } else if code == UNWATCH {
            XsMessageType::Unwatch
        } else if code == WATCH_EVENT {
            XsMessageType::WatchEvent
        } else if code == ERROR {
            XsMessageType::Error
        } else {
            XsMessageType::Other(code)
        }
    }
}

/// A message to or from the Xenstore daemon.
#[derive(Debug, PartialEq, Eq)]
pub struct XsMessage {
    pub msg_type: XsMessageType,
    pub request_id: u32,
    pub transaction_id: u32,
    pub payload: Vec<u8>,
}

/// Mathematical content of an [`XsMessage`].
#[verifier::ext_equal]
pub struct XsMessageView {
    pub msg_type: XsMessageType,
    pub request_id: u32,
    pub transaction_id: u32,
    pub payload: Seq<u8>,
}

impl View for XsMessage {
    type V = XsMessageView;

    open spec fn view(&self) -> XsMessageView {
        XsMessageView {
            msg_type: self.msg_type,
            request_id: self.request_id,
            transaction_id: self.transaction_id,
            payload: self.payload@,
        }
    }
}

/// The texts of some string slices.
pub open spec fn texts_of(strings: Seq<&str>) -> Seq<Seq<char>> {
    strings.map_values(|s: &str| s@)
}

/// A payload that holds the given texts: each as UTF-8, ended by a zero byte.
pub open spec fn joined(texts: Seq<Seq<char>>) -> Seq<u8>
    decreases texts.len(),
{
    if texts.len() == 0 {
        Seq::empty()
    } else {
        encode_utf8(texts[0]) + seq![0u8] + joined(texts.skip(1))
    }
}

/// How many bytes stand before the first zero byte, or before the end.
pub open spec fn field_len(bytes: Seq<u8>) -> nat
    decreases bytes.len(),
{
    if bytes.len() == 0 || bytes[0] == 0 {
        0
    } else {
        1 + field_len(bytes.skip(1))
    }
}

/// The pieces of a payload: what stands before each zero byte, and what stands
/// behind the last one unless that is nothing.
pub open spec fn fields(bytes: Seq<u8>) -> Seq<Seq<u8>>
    decreases bytes.len(),
{
    if bytes.len() == 0 {
        Seq::empty()
    } else {
        let n = field_len(bytes) as int;
        if n >= bytes.len() {
            seq![bytes]
        } else {
            seq![bytes.take(n)] + fields(bytes.skip(n + 1))
        }
    }
}

/// Every one of these byte strings is UTF-8.
pub open spec fn all_utf8(pieces: Seq<Seq<u8>>) -> bool {
    forall|i: int| 0 <= i < pieces.len() ==> valid_utf8(#[trigger] pieces[i])
}

/// The texts that some pieces of UTF-8 stand for.
pub open spec fn decoded(pieces: Seq<Seq<u8>>) -> Seq<Seq<char>> {
    pieces.map_values(|piece: Seq<u8>| decode_utf8(piece))
}

/// The texts that a payload holds, unless one of its pieces is not UTF-8.
pub open spec fn payload_texts(bytes: Seq<u8>) -> Option<Seq<Seq<char>>> {
    if all_utf8(fields(bytes)) {
        Some(decoded(fields(bytes)))
    } else {
        None
    }
}

/// The number of bytes before the first zero byte is where that byte stands.
proof fn lemma_field_len(bytes: Seq<u8>, n: int)
    requires
        0 <= n <= bytes.len(),
        forall|i: int| 0 <= i < n ==> bytes[i] != 0,
        n == bytes.len() || bytes[n] == 0,
    ensures
        field_len(bytes) == n,
    decreases n,
{
    if n > 0 {
        let rest = bytes.skip(1);
        assert forall|i: int| 0 <= i < n - 1 implies rest[i] != 0 by {
            assert(rest[i] == bytes[i + 1]);
        }
        lemma_field_len(rest, n - 1);
    }
}

/// One more string on one side is one more piece on the other.
proof fn lemma_push_text(strings: Seq<&str>, pieces: Seq<Seq<u8>>, text: &str, piece: Seq<u8>)
    requires
        texts_of(strings) == decoded(pieces),
        all_utf8(pieces),
        valid_utf8(piece),
        encode_utf8(text@) == piece,
    ensures
        texts_of(strings.push(text)) == decoded(pieces.push(piece)),
        all_utf8(pieces.push(piece)),
{
    vstd::utf8::encode_utf8_decode_utf8(text@);
    assert(texts_of(strings.push(text)) =~= texts_of(strings).push(text@));
    assert(decoded(pieces.push(piece)) =~= decoded(pieces).push(text@));
}

/// A text in which the character that ends strings on the wire does not occur.
pub open spec fn nul_free(text: Seq<char>) -> bool {
    forall|i: int| 0 <= i < text.len() ==> #[trigger] text[i] != '\0'
}

/// The encoding of a character other than NUL holds no zero byte.
proof fn lemma_encode_scalar(c: char)
    requires
        c != '\0',
    ensures
        forall|i: int|
            0 <= i < vstd::utf8::encode_scalar(c as u32).len() ==> #[trigger]
                vstd::utf8::encode_scalar(c as u32)[i] != 0,
{
    let v = c as u32;
    assert(v != 0);
    if vstd::utf8::has_width_1_encoding(v) {
        assert((v & 0x7F) as u8 != 0) by (bit_vector)
            requires
                v != 0,
                v <= 0x7F,
        ;
    } else {
        assert((0xC0 | ((v >> 6) & 0x1F) as u8) != 0) by (bit_vector);
        assert((0xE0 | ((v >> 12) & 0x0F) as u8) != 0) by (bit_vector);
        assert((0xF0 | ((v >> 18) & 0x7) as u8) != 0) by (bit_vector);
        assert((0x80 | (v & 0x3F) as u8) != 0) by (bit_vector);
        assert((0x80 | ((v >> 6) & 0x3F) as u8) != 0) by (bit_vector);
        assert((0x80 | ((v >> 12) & 0x3F) as u8) != 0) by (bit_vector);
    }
}

/// The encoding of a text without NUL holds no zero byte.
proof fn lemma_encode_nul_free(text: Seq<char>)
    requires
        nul_free(text),
    ensures
        forall|i: int|
            0 <= i < encode_utf8(text).len() ==> #[trigger] encode_utf8(text)[i] != 0,
    decreases text.len(),
{
    if text.len() > 0 {
        let head = vstd::utf8::encode_scalar(text[0] as u32);
        let rest = text.drop_first();
        assert forall|i: int| 0 <= i < rest.len() implies #[trigger] rest[i] != '\0' by {
            assert(rest[i] == text[i + 1]);
        }
        lemma_encode_scalar(text[0]);
        lemma_encode_nul_free(rest);
        let all = encode_utf8(text);
        assert forall|i: int| 0 <= i < all.len() implies #[trigger] all[i] != 0 by {
            if i < head.len() {
                assert(all[i] == head[i]);
            } else {
                assert(all[i] == encode_utf8(rest)[i - head.len()]);
            }
        }
    }
}

/// Reading a payload gives back the texts that it was made of, as long as none of
/// them holds a NUL.
pub proof fn lemma_payload_gives_back_texts(texts: Seq<Seq<char>>)
    requires
        forall|i: int| 0 <= i < texts.len() ==> #[trigger] nul_free(texts[i]),
    ensures
        payload_texts(joined(texts)) == Some(texts),
    decreases texts.len(),
{
    if texts.len() == 0 {
        assert(decoded(fields(joined(texts))) =~= texts);
    } else {
        let first = encode_utf8(texts[0]);
        let rest = texts.skip(1);
        let bytes = joined(texts);
        assert(nul_free(texts[0]));
        assert forall|i: int| 0 <= i < rest.len() implies #[trigger] nul_free(rest[i]) by {
            assert(rest[i] == texts[i + 1]);
        }
        lemma_payload_gives_back_texts(rest);
        lemma_encode_nul_free(texts[0]);
        assert forall|i: int| 0 <= i < first.len() implies bytes[i] != 0 by {
            assert(bytes[i] == first[i]);
        }
        lemma_field_len(bytes, first.len() as int);
        assert(bytes.take(first.len() as int) =~= first);
        assert(bytes.skip(first.len() as int + 1) =~= joined(rest));
        assert(fields(bytes) =~= seq![first] + fields(joined(rest)));
        vstd::utf8::encode_utf8_valid_utf8(texts[0]);
        vstd::utf8::encode_utf8_decode_utf8(texts[0]);
        assert forall|i: int| 0 <= i < fields(bytes).len() implies valid_utf8(
            #[trigger] fields(bytes)[i],
        ) by {
            if i > 0 {
                assert(fields(bytes)[i] == fields(joined(rest))[i - 1]);
            }
        }
        let decoded_rest = decoded(fields(joined(rest)));
        assert(decoded(fields(bytes)) =~= seq![texts[0]] + decoded_rest);
        assert(decoded(fields(bytes)) =~= texts);
    }
}

/// A payload that holds two texts is made of one after the other, each ended by a zero
/// byte.
pub(crate) proof fn lemma_joined_pair(a: Seq<char>, b: Seq<char>)
    ensures
        joined(seq![a, b]) == encode_utf8(a) + seq![0u8] + encode_utf8(b) + seq![0u8],
{
    let texts = seq![a, b];
    assert(texts.skip(1) =~= seq![b]);
    assert(seq![b].skip(1) =~= Seq::<Seq<char>>::empty());
    assert(joined(Seq::<Seq<char>>::empty()) =~= Seq::<u8>::empty());
    assert(joined(seq![b]) =~= encode_utf8(b) + seq![0u8]);
    assert(joined(texts) =~= encode_utf8(a) + seq![0u8] + encode_utf8(b) + seq![0u8]);
}

/// A payload that holds two texts without NUL gives back these two.
pub(crate) proof fn lemma_pair_gives_back_texts(a: Seq<char>, b: Seq<char>)
    requires
        nul_free(a),
        nul_free(b),
    ensures
        payload_texts(encode_utf8(a) + seq![0u8] + encode_utf8(b) + seq![0u8]) == Some(seq![a, b]),
{
    let texts = seq![a, b];
    assert forall|i: int| 0 <= i < texts.len() implies #[trigger] nul_free(texts[i]) by {
        assert(texts[i] == a || texts[i] == b);
    }
    lemma_payload_gives_back_texts(texts);
    lemma_joined_pair(a, b);
}

impl XsMessage {
    /// Makes a message outside any transaction whose payload holds `strings`.
    pub fn from_string_slice(
        msg_type: XsMessageType,
        request_id: u32,
        strings: &[&str],
    ) -> (message: XsMessage)
        ensures
            message@ == (XsMessageView {
                msg_type,
                request_id,
                transaction_id: 0,
                payload: joined(texts_of(strings@)),
            }),
    {
        let mut payload: Vec<u8> = Vec::new();
        let ghost texts = texts_of(strings@);
        let mut i: usize = 0;
        assert(texts.skip(0) =~= texts);
        while i < strings.len()
            invariant
                i <= strings.len(),
                texts == texts_of(strings@),
                payload@ + joined(texts.skip(i as int)) == joined(texts),
            decreases strings.len() - i,
        {
            let ghost before = payload@;
            let bytes = strings[i].as_bytes();
            payload.extend_from_slice(bytes);
            payload.push(0);
            proof {
                let rest = texts.skip(i as int);
                assert(rest[0] == strings@[i as int]@);
                assert(rest.skip(1) =~= texts.skip(i + 1));
                assert(payload@ =~= before + encode_utf8(rest[0]) + seq![0u8]);
                assert(before + joined(rest) =~= payload@ + joined(texts.skip(i + 1)));
            }
            i += 1;
        }
        assert(texts.skip(i as int).len() == 0);
        assert(payload@ =~= joined(texts));
        XsMessage { msg_type, request_id, transaction_id: 0, payload }
    }

    /// The numbers that stand before the payload on the wire: type, request,
    /// transaction, and length of the payload. A payload whose length does not fit
    /// cannot be sent.
    pub fn header(&self) -> (header: Option<[u32; 4]>)
        ensures
            match header {
                Some(words) => words@ == seq![
                    self.msg_type.spec_code(),
                    self.request_id,
                    self.transaction_id,
                    self@.payload.len() as u32,
                ] && self@.payload.len() <= u32::MAX,
                None => self@.payload.len() > u32::MAX,
            },
    {
        let len = self.payload.len();
        if len as u64 <= u32::MAX as u64 {
            let words: [u32; 4] = [
                self.msg_type.code(),
                self.request_id,
                self.transaction_id,
                len as u32,
            ];
            assert(words@ =~= seq![
                self.msg_type.spec_code(),
                self.request_id,
                self.transaction_id,
                self@.payload.len() as u32,
            ]);
            Some(words)
        } else {
            None
        }
    }

    /// The message with this header and this payload.
    pub fn from_header(header: [u32; 4], payload: Vec<u8>) -> (message: XsMessage)
        ensures
            message.msg_type.canonical(),
            message.msg_type.spec_code() == header@[0],
            message.request_id == header@[1],
            message.transaction_id == header@[2],
            message@.payload == payload@,
    {
        XsMessage {
            msg_type: XsMessageType::from_code(header[0]),
            request_id: header[1],
            transaction_id: header[2],
            payload,
        }
    }

    /// The strings that the payload holds.
    pub fn parse_payload_list(&self) -> (list: Result<Vec<&str>, XsError>)
        ensures
            match list {
                Ok(strings) => payload_texts(self@.payload) == Some(texts_of(strings@)),
                Err(e) => payload_texts(self@.payload) is None && e == XsError::InvalidText,
            },
    {
        let bytes = self.payload.as_slice();
        let ghost all = bytes@;
        let mut strings: Vec<&str> = Vec::new();
        let ghost mut done: Seq<Seq<u8>> = Seq::empty();
        let mut start: usize = 0;
        let mut i: usize = 0;
        assert(all.skip(0) =~= all);
        assert(done + fields(all) =~= fields(all));
        while i < bytes.len()
            invariant
                start <= i <= bytes.len(),
                all == bytes@,
                bytes@ == self.payload@,
                forall|j: int| start <= j < i ==> all[j] != 0,
                done + fields(all.skip(start as int)) == fields(all),
                all_utf8(done),
                texts_of(strings@) == decoded(done),
            decreases bytes.len() - i,
        {
            if bytes[i] == 0 {
                let piece = slice_subrange(bytes, start, i);
                proof {
                    let rest = all.skip(start as int);
                    lemma_field_len(rest, i - start);
                    assert(rest.take(i - start) =~= piece@);
                    assert(rest.skip(i - start + 1) =~= all.skip(i + 1));
                    assert(done.push(piece@) + fields(all.skip(i + 1)) =~= fields(all));
                    assert(fields(all)[done.len() as int] == piece@);
                }
                match utf8_text(piece) {
                    Some(text) => {
                        proof {
                            lemma_push_text(strings@, done, text, piece@);
                            done = done.push(piece@);
                        }
                        strings.push(text);
                    },
                    None => {
                        return Err(XsError::InvalidText);
                    },
                }
                start = i + 1;
            }
            i += 1;
        }
        if start < bytes.len() {
            let piece = slice_subrange(bytes, start, bytes.len());
            proof {
                let rest = all.skip(start as int);
                lemma_field_len(rest, bytes.len() - start);
                assert(rest =~= piece@);
                assert(done.push(piece@) =~= fields(all));
                assert(fields(all)[done.len() as int] == piece@);
            }
            match utf8_text(piece) {
                Some(text) => {
                    proof {
                        lemma_push_text(strings@, done, text, piece@);
                        done = done.push(piece@);
                    }
                    strings.push(text);
                },
                None => {
                    return Err(XsError::InvalidText);
                },
            }
        }
        assert(done =~= fields(all));
        Ok(strings)
    }
}

/// The types have the numbers of the Xenstore protocol, and every other number stands
/// for itself.
pub proof fn law_types_have_the_numbers_of_the_protocol(
    msg_type: XsMessageType,
    code: u32,
    number: u32,
    read: XsMessageType,
)
    requires
        call_ensures(XsMessageType::code, (msg_type,), code),
        call_ensures(XsMessageType::from_code, (number,), read),
    ensures
        msg_type == XsMessageType::Watch ==> code == 4,
        msg_type == XsMessageType::Unwatch ==> code == 5,
        msg_type == XsMessageType::WatchEvent ==> code == 15,
        msg_type == XsMessageType::Error ==> code == 16,
        msg_type matches XsMessageType::Other(other) ==> code == other,
        read == XsMessageType::Watch <==> number == 4,
        read == XsMessageType::Unwatch <==> number == 5,
        read == XsMessageType::WatchEvent <==> number == 15,
        read == XsMessageType::Error <==> number == 16,
        read matches XsMessageType::Other(other) ==> other == number,
{
}

/// Before the payload stand the number of the type, the identifiers of request and
/// transaction, and the length of the whole payload.
pub proof fn law_header_describes_the_message(
    message: XsMessage,
    header: Option<[u32; 4]>,
    code: u32,
)
    requires
        call_ensures(XsMessage::header, (&message,), header),
        call_ensures(XsMessageType::code, (message.msg_type,), code),
    ensures
        header is Some <==> message.payload@.len() <= 0xffff_ffff,
        header matches Some(words) ==> {
            &&& words@.len() == 4
            &&& words@[0] == code
            &&& words@[1] == message.request_id
            &&& words@[2] == message.transaction_id
            &&& words@[3] as nat == message.payload@.len()
        },
{
}

/// A header and a payload make the message that they describe.
pub proof fn law_header_makes_the_message(
    header: [u32; 4],
    payload: Vec<u8>,
    message: XsMessage,
    read: XsMessageType,
)
    requires
        call_ensures(XsMessage::from_header, (header, payload), message),
        call_ensures(XsMessageType::from_code, (header@[0],), read),
    ensures
        message.msg_type == read,
        message.request_id == header@[1],
        message.transaction_id == header@[2],
        message.payload@ == payload@,
{
    lemma_code_tells_types_apart(message.msg_type, read);
}

/// One more text is one more piece at the end.
proof fn lemma_joined_push(texts: Seq<Seq<char>>, last: Seq<char>)
    ensures
        joined(texts.push(last)) == joined(texts) + encode_utf8(last) + seq![0u8],
    decreases texts.len(),
{
    let more = texts.push(last);
    if texts.len() == 0 {
        assert(more.skip(1) =~= texts);
        assert(joined(more) =~= joined(texts) + encode_utf8(last) + seq![0u8]);
    } else {
        assert(more.skip(1) =~= texts.skip(1).push(last));
        lemma_joined_push(texts.skip(1), last);
        assert(joined(more) =~= joined(texts) + encode_utf8(last) + seq![0u8]);
    }
}

/// Strings are written one behind the other, each whole and ended by a zero byte: no
/// strings make an empty payload, and one more string adds its bytes and a zero byte at
/// the end.
pub proof fn law_strings_are_written_one_behind_the_other(
    msg_type: XsMessageType,
    request_id: u32,
    strings: &[&str],
    more: &[&str],
    last: &str,
    message: XsMessage,
    longer: XsMessage,
)
    requires
        more@ == strings@.push(last),
        call_ensures(XsMessage::from_string_slice, (msg_type, request_id, strings), message),
        call_ensures(XsMessage::from_string_slice, (msg_type, request_id, more), longer),
    ensures
        message.msg_type == msg_type,
        message.request_id == request_id,
        message.transaction_id == 0,
        strings@.len() == 0 ==> message.payload@.len() == 0,
        longer.payload@ == message.payload@ + encode_utf8(last@) + seq![0u8],
{
    assert(texts_of(more@) =~= texts_of(strings@).push(last@));
    lemma_joined_push(texts_of(strings@), last@);
}

/// A payload is read piece by piece: what stands before its first zero byte is its first
/// string, and what stands behind that byte is read in the same way. One piece that is
/// not UTF-8 spoils the whole.
pub proof fn law_payload_is_read_piece_by_piece(
    message: XsMessage,
    first: Seq<u8>,
    rest: XsMessage,
    list: Result<Vec<&str>, XsError>,
    rest_list: Result<Vec<&str>, XsError>,
)
    requires
        forall|i: int| 0 <= i < first.len() ==> #[trigger] first[i] != 0,
        message.payload@ == first + seq![0u8] + rest.payload@,
        call_ensures(XsMessage::parse_payload_list, (&message,), list),
        call_ensures(XsMessage::parse_payload_list, (&rest,), rest_list),
    ensures
        list is Ok <==> valid_utf8(first) && rest_list is Ok,
        list matches Err(e) ==> e == XsError::InvalidText,
        list matches Ok(strings) ==> (rest_list matches Ok(others) && {
            &&& strings@.len() == others@.len() + 1
            &&& encode_utf8(strings@[0]@) == first
            &&& forall|i: int| 0 <= i < others@.len() ==> strings@[i + 1]@ == #[trigger] others@[i]@
        }),
{
    let bytes = message.payload@;
    let n = first.len() as int;
    assert forall|i: int| 0 <= i < n implies bytes[i] != 0 by {
        assert(bytes[i] == first[i]);
    }
    lemma_field_len(bytes, n);
    assert(bytes.take(n) =~= first);
    assert(bytes.skip(n + 1) =~= rest.payload@);
    let pieces = fields(bytes);
    let others = fields(rest.payload@);
    assert(pieces =~= seq![first] + others);
    assert(pieces[0] == first);
    assert forall|i: int| 0 <= i < others.len() implies pieces[i + 1] == #[trigger] others[i] by {}
    if valid_utf8(first) && all_utf8(others) {
        assert forall|i: int| 0 <= i < pieces.len() implies valid_utf8(#[trigger] pieces[i]) by {
            if i > 0 {
                assert(valid_utf8(others[i - 1]));
            }
        }
    }
    if all_utf8(pieces) {
        assert(valid_utf8(pieces[0]));
        assert forall|i: int| 0 <= i < others.len() implies valid_utf8(#[trigger] others[i]) by {
            assert(valid_utf8(pieces[i + 1]));
        }
    }
    if let Ok(strings) = list {
        if let Ok(more) = rest_list {
            assert(texts_of(strings@) == decoded(pieces));
            assert(texts_of(more@) == decoded(others));
            assert(texts_of(strings@).len() == strings@.len());
            assert(texts_of(more@).len() == more@.len());
            assert(texts_of(strings@)[0] == strings@[0]@);
            vstd::utf8::decode_utf8_encode_utf8(first);
            assert forall|i: int| 0 <= i < more@.len() implies strings@[i + 1]@ == #[trigger] more@[i]@ by {
                assert(texts_of(strings@)[i + 1] == strings@[i + 1]@);
                assert(texts_of(more@)[i] == more@[i]@);
                assert(decoded(pieces)[i + 1] == decode_utf8(pieces[i + 1]));
            }
        }
    }
}

/// A payload without a zero byte holds one string, which is the whole of it, or none if
/// it is empty.
pub proof fn law_last_piece_needs_no_end(message: XsMessage, list: Result<Vec<&str>, XsError>)
    requires
        forall|i: int| 0 <= i < message.payload@.len() ==> #[trigger] message.payload@[i] != 0,
        call_ensures(XsMessage::parse_payload_list, (&message,), list),
    ensures
        message.payload@.len() == 0 ==> (list matches Ok(strings) && strings@.len() == 0),
        message.payload@.len() > 0 ==> {
            &&& list is Ok <==> valid_utf8(message.payload@)
            &&& list matches Ok(strings) ==> strings@.len() == 1 && encode_utf8(strings@[0]@)
                == message.payload@
        },
        list matches Err(e) ==> e == XsError::InvalidText,
{
    let bytes = message.payload@;
    lemma_field_len(bytes, bytes.len() as int);
    let pieces = fields(bytes);
    if bytes.len() > 0 {
        assert(pieces =~= seq![bytes]);
        assert(pieces[0] == bytes);
        if let Ok(strings) = list {
            assert(valid_utf8(pieces[0]));
            assert(texts_of(strings@).len() == strings@.len());
            assert(texts_of(strings@)[0] == strings@[0]@);
            assert(decoded(pieces)[0] == decode_utf8(bytes));
            vstd::utf8::decode_utf8_encode_utf8(bytes);
        }
    } else if let Ok(strings) = list {
        assert(texts_of(strings@).len() == strings@.len());
    }
}

/// Reading a message gives back the strings that it was made of, as long as none of them
/// holds a NUL.
pub proof fn law_reading_gives_back_the_strings(
    msg_type: XsMessageType,
    request_id: u32,
    strings: &[&str],
    message: XsMessage,
    list: Result<Vec<&str>, XsError>,
)
    requires
        forall|i: int| 0 <= i < strings@.len() ==> nul_free((#[trigger] strings@[i])@),
        call_ensures(XsMessage::from_string_slice, (msg_type, request_id, strings), message),
        call_ensures(XsMessage::parse_payload_list, (&message,), list),
    ensures
        list matches Ok(read) && {
            &&& read@.len() == strings@.len()
            &&& forall|i: int| 0 <= i < read@.len() ==> (#[trigger] read@[i])@ == strings@[i]@
        },
{
    let texts = texts_of(strings@);
    assert forall|i: int| 0 <= i < texts.len() implies #[trigger] nul_free(texts[i]) by {
        assert(nul_free(strings@[i]@));
    }
    lemma_payload_gives_back_texts(texts);
    if let Ok(read) = list {
        assert(texts_of(read@) == texts);
        assert(texts_of(read@).len() == read@.len());
        assert forall|i: int| 0 <= i < read@.len() implies (#[trigger] read@[i])@ == strings@[i]@ by {
            assert(texts_of(read@)[i] == read@[i]@);
            assert(texts[i] == strings@[i]@);
        }
    }
}

} // verus!
