//! Tokens that tell the watches of one connection apart.

use crate::wire::nul_free;
use vstd::prelude::*;
use vstd::utf8::encode_utf8;

verus! {

/// Identifies a watch. On the wire it is the text of a UUID.
#[derive(Clone, Copy, Debug, PartialEq, Eq, Structural)]
pub struct XsWatchToken(u128);

impl View for XsWatchToken {
    type V = u128;

    closed spec fn view(&self) -> u128 {
        self.0
    }
}

/// A lower-case hexadecimal digit.
pub open spec fn hex_digit(n: u128) -> char {
    if n < 10 {
        (48 + n) as char
    } else {
        (87 + n) as char
    }
}

/// The hexadecimal digits of a 128-bit number, from the most significant one on.
pub open spec fn nibble(value: u128, i: int) -> u128 {
    (value >> ((124 - 4 * i) as u128)) & 0xf
}

/// Where a hyphen stands in the text of a UUID.
pub open spec fn is_hyphen(k: int) -> bool {
    k == 8 || k == 13 || k == 18 || k == 23
}

/// Which digit stands at a place of the text of a UUID that holds no hyphen.
pub open spec fn digit_at(k: int) -> int {
    if k < 8 {
        k
    } else if k < 13 {
        k - 1
    } else if k < 18 {
        k - 2
    } else if k < 23 {
        k - 3
    } else {
        k - 4
    }
}

/// The text of a UUID: 32 lower-case hexadecimal digits in groups of 8, 4, 4, 4
/// and 12, with hyphens between the groups.
pub open spec fn uuid_text(value: u128) -> Seq<char> {
    Seq::new(
        36,
        |k: int|
            if is_hyphen(k) {
                '-'
            } else {
                hex_digit(nibble(value, digit_at(k)))
            },
    )
}

/// The bits that a random UUID does not leave to chance are as they must be.
pub open spec fn is_random_uuid(value: u128) -> bool {
    value & 0xF000_C000_0000_0000_0000 == 0x4000_8000_0000_0000_0000
}

/// The value of a hexadecimal digit in ASCII, in lower or upper case.
pub open spec fn hex_value(byte: u8) -> Option<u128> {
    if 48 <= byte <= 57 {
        Some((byte - 48) as u128)
    } else if 97 <= byte <= 102 {
        Some((byte - 87) as u128)
    } else if 65 <= byte <= 70 {
        Some((byte - 55) as u128)
    } else {
        None
    }
}

/// These are the 32 digits of a UUID.
pub open spec fn spells_simple(bytes: Seq<u8>, value: u128) -> bool {
    &&& bytes.len() == 32
    &&& forall|i: int|
        0 <= i < 32 ==> hex_value(#[trigger] bytes[i]) == Some(nibble(value, i))
}

/// These are the digits of a UUID with hyphens between the groups.
pub open spec fn spells_hyphenated(bytes: Seq<u8>, value: u128) -> bool {
    &&& bytes.len() == 36
    &&& forall|k: int|
        0 <= k < 36 ==> if is_hyphen(k) {
            #[trigger] bytes[k] == 45
        } else {
            hex_value(bytes[k]) == Some(nibble(value, digit_at(k)))
        }
}

/// A letter in lower case. Any other byte stays as it is.
pub open spec fn ascii_lower(byte: u8) -> u8 {
    if 65 <= byte <= 90 {
        (byte + 32) as u8
    } else {
        byte
    }
}

/// What stands before a UUID that is written as a URN: `urn:uuid:`.
pub open spec fn urn_prefix() -> Seq<u8> {
    seq![117u8, 114, 110, 58, 117, 117, 105, 100, 58]
}

/// A text stands for a UUID: its digits alone, with hyphens, with braces around
/// that, or with the prefix of a URN in any case before it.
pub open spec fn spells(text: Seq<char>, value: u128) -> bool {
    let bytes = encode_utf8(text);
    ||| spells_simple(bytes, value)
    ||| spells_hyphenated(bytes, value)
    ||| {
        &&& bytes.len() == 38
        &&& bytes[0] == 123
        &&& bytes[37] == 125
        &&& spells_hyphenated(bytes.subrange(1, 37), value)
    }
    ||| {
        &&& bytes.len() == 45
        &&& forall|i: int| 0 <= i < 9 ==> ascii_lower(#[trigger] bytes[i]) == urn_prefix()[i]
        &&& spells_hyphenated(bytes.subrange(9, 45), value)
    }
}

/// The UUID that a text stands for, if it stands for one.
pub open spec fn token_of(text: Seq<char>) -> Option<u128> {
    if exists|value: u128| spells(text, value) {
        Some(choose|value: u128| spells(text, value))
    } else {
        None
    }
}

/// Calls `uuid::Uuid::new_v4`, which draws a random number and sets its version
/// to 4 and its variant to the one of RFC 9562. The other bits are left to chance.
/// It panics where the operating system has no random numbers to give.
#[verifier::external_body]
fn random_uuid() -> (value: u128)
    ensures
        is_random_uuid(value),
{
    uuid::Uuid::new_v4().as_u128()
}

/// Calls `to_string` on a `uuid::Uuid`: the hyphenated lower-case form.
#[verifier::external_body]
fn format_uuid(value: u128) -> (text: String)
    ensures
        text@ == uuid_text(value),
{
    uuid::Uuid::from_u128(value).to_string()
}

/// Calls `uuid::Uuid::try_parse`, which reads a UUID without hyphens, with
/// hyphens, with braces around that, or as a URN, and nothing else.
#[verifier::external_body]
fn parse_uuid(text: &str) -> (value: Option<u128>)
    ensures
        match value {
            Some(v) => spells(text@, v),
            None => forall|v: u128| !spells(text@, v),
        },
{
    match uuid::Uuid::try_parse(text) {
        Ok(uuid) => Some(uuid.as_u128()),
        Err(_) => None,
    }
}

/// Where a digit stands in the text of a UUID.
spec fn place_of(i: int) -> int {
    if i < 8 {
        i
    } else if i < 12 {
        i + 1
    } else if i < 16 {
        i + 2
    } else if i < 20 {
        i + 3
    } else {
        i + 4
    }
}

/// Digits with hyphens stand for one UUID only.
proof fn lemma_hyphenated_is_unique(bytes: Seq<u8>, a: u128, b: u128)
    requires
        spells_hyphenated(bytes, a),
        spells_hyphenated(bytes, b),
    ensures
        a == b,
{
    assert forall|i: int| 0 <= i < 32 implies nibble(a, i) == nibble(b, i) by {
        let k = place_of(i);
        assert(digit_at(k) == i && !is_hyphen(k));
        assert(hex_value(bytes[k]) == Some(nibble(a, digit_at(k))));
        assert(hex_value(bytes[k]) == Some(nibble(b, digit_at(k))));
    }
    lemma_equal_nibbles(a, b);
}

/// A text stands for one UUID at most.
pub proof fn lemma_text_stands_for_one_token(text: Seq<char>, a: u128, b: u128)
    requires
        spells(text, a),
        spells(text, b),
    ensures
        a == b,
{
    let bytes = encode_utf8(text);
    if bytes.len() == 32 {
        assert forall|i: int| 0 <= i < 32 implies nibble(a, i) == nibble(b, i) by {
            assert(hex_value(bytes[i]) == Some(nibble(a, i)));
        }
        lemma_equal_nibbles(a, b);
    } else if bytes.len() == 36 {
        lemma_hyphenated_is_unique(bytes, a, b);
    } else if bytes.len() == 38 {
        lemma_hyphenated_is_unique(bytes.subrange(1, 37), a, b);
    } else {
        lemma_hyphenated_is_unique(bytes.subrange(9, 45), a, b);
    }
}

/// The characters of a token's text are those of its digits and hyphens.
proof fn lemma_text_chars(value: u128, k: int)
    requires
        0 <= k < 36,
    ensures
        is_hyphen(k) ==> uuid_text(value)[k] == '-',
        !is_hyphen(k) ==> hex_value(uuid_text(value)[k] as u8) == Some(nibble(value, digit_at(k))),
        1 <= uuid_text(value)[k] as int <= 127,
{
    if !is_hyphen(k) {
        let x = value >> ((124 - 4 * digit_at(k)) as u128);
        assert(x & 0xf < 16) by (bit_vector);
        let d = nibble(value, digit_at(k));
        assert(uuid_text(value)[k] == hex_digit(d));
        assert(hex_digit(d) as int == if d < 10 {
            48 + d
        } else {
            87 + d
        });
    }
}

/// Reading the text of a token gives back that token.
pub proof fn lemma_text_gives_back_token(value: u128)
    ensures
        spells(uuid_text(value), value),
        token_of(uuid_text(value)) == Some(value),
{
    let text = uuid_text(value);
    assert forall|k: int| 0 <= k < text.len() implies 0 <= (#[trigger] text[k]) as int <= 127 by {
        lemma_text_chars(value, k);
    }
    vstd::utf8::is_ascii_chars_encode_utf8(text);
    let bytes = encode_utf8(text);
    assert forall|k: int| 0 <= k < 36 implies if is_hyphen(k) {
        #[trigger] bytes[k] == 45
    } else {
        hex_value(bytes[k]) == Some(nibble(value, digit_at(k)))
    } by {
        lemma_text_chars(value, k);
        assert(bytes[k] == text[k] as u8);
    }
    assert(spells_hyphenated(bytes, value));
    assert(spells(text, value));
    let read = choose|v: u128| spells(text, v);
    lemma_text_stands_for_one_token(text, read, value);
}

/// Different tokens have different texts.
pub proof fn lemma_text_tells_tokens_apart(a: u128, b: u128)
    requires
        uuid_text(a) == uuid_text(b),
    ensures
        a == b,
{
    lemma_text_gives_back_token(a);
    lemma_text_gives_back_token(b);
}

/// No NUL occurs in the text of a token.
pub proof fn lemma_text_is_nul_free(value: u128)
    ensures
        nul_free(uuid_text(value)),
{
    let text = uuid_text(value);
    assert forall|k: int| 0 <= k < text.len() implies #[trigger] text[k] != '\0' by {
        lemma_text_chars(value, k);
    }
}

/// A number is known by its hexadecimal digits.
proof fn lemma_equal_nibbles(a: u128, b: u128)
    requires
        forall|i: int| 0 <= i < 32 ==> nibble(a, i) == nibble(b, i),
    ensures
        a == b,
{
    lemma_equal_leading_nibbles(a, b, 31);
    assert(a >> 0u128 == a) by (bit_vector);
    assert(b >> 0u128 == b) by (bit_vector);
}

/// Numbers with the same digits are the same down to any of these digits.
proof fn lemma_equal_leading_nibbles(a: u128, b: u128, i: int)
    requires
        0 <= i < 32,
        forall|j: int| 0 <= j < 32 ==> nibble(a, j) == nibble(b, j),
    ensures
        a >> ((124 - 4 * i) as u128) == b >> ((124 - 4 * i) as u128),
    decreases i,
{
    let shift = (124 - 4 * i) as u128;
    let (x, y) = (a >> shift, b >> shift);
    if i == 0 {
        assert((a >> 124u128) >> 4u128 == 0) by (bit_vector);
        assert((b >> 124u128) >> 4u128 == 0) by (bit_vector);
    } else {
        lemma_equal_leading_nibbles(a, b, i - 1);
        let wider = (124 - 4 * (i - 1)) as u128;
        assert((a >> shift) >> 4u128 == a >> wider) by (bit_vector)
            requires
                shift <= 120,
                wider == shift + 4,
        ;
        assert((b >> shift) >> 4u128 == b >> wider) by (bit_vector)
            requires
                shift <= 120,
                wider == shift + 4,
        ;
    }
    assert(nibble(a, i) == nibble(b, i));
    assert(x == y) by (bit_vector)
        requires
            x >> 4u128 == y >> 4u128,
            x & 0xf == y & 0xf,
    ;
}

/// The version 4 UUID with this number in the bits that the version leaves free.
pub open spec fn numbered_uuid(n: u128) -> u128 {
    0x4000_8000_0000_0000_0000 | (n & 0x3FFF_FFFF_FFFF_FFFF) | ((n >> 62u128) << 80u128)
}

/// Numbered UUIDs are version 4 UUIDs, and differ where their numbers do.
pub(crate) proof fn lemma_numbered_uuid(m: u128, n: u128)
    requires
        m <= u64::MAX,
        n <= u64::MAX,
    ensures
        is_random_uuid(numbered_uuid(m)),
        numbered_uuid(m) == numbered_uuid(n) ==> m == n,
{
    let (a, b) = (numbered_uuid(m), numbered_uuid(n));
    assert(a & 0xF000_C000_0000_0000_0000 == 0x4000_8000_0000_0000_0000) by (bit_vector)
        requires
            m <= 0xFFFF_FFFF_FFFF_FFFF,
            a == 0x4000_8000_0000_0000_0000 | (m & 0x3FFF_FFFF_FFFF_FFFF) | ((m >> 62u128)
                << 80u128),
    ;
    assert(a == b ==> m == n) by (bit_vector)
        requires
            m <= 0xFFFF_FFFF_FFFF_FFFF,
            n <= 0xFFFF_FFFF_FFFF_FFFF,
            a == 0x4000_8000_0000_0000_0000 | (m & 0x3FFF_FFFF_FFFF_FFFF) | ((m >> 62u128)
                << 80u128),
            b == 0x4000_8000_0000_0000_0000 | (n & 0x3FFF_FFFF_FFFF_FFFF) | ((n >> 62u128)
                << 80u128),
    ;
}

impl XsWatchToken {
    /// A draw of a random UUID came out so.
    pub closed spec fn is_drawn(value: u128) -> bool {
        call_ensures(random_uuid, (), value)
    }

    /// Draws a random token.
    pub fn random() -> (token: XsWatchToken)
        ensures
            XsWatchToken::is_drawn(token@),
            is_random_uuid(token@),
    {
        XsWatchToken(random_uuid())
    }

    /// The token with this number, which is not drawn.
    pub(crate) fn numbered(n: u128) -> (token: XsWatchToken)
        ensures
            token@ == numbered_uuid(n),
    {
        XsWatchToken(
            0x4000_8000_0000_0000_0000 | (n & 0x3FFF_FFFF_FFFF_FFFF) | ((n >> 62u128) << 80u128),
        )
    }

    /// The token that a text stands for.
    pub fn parse(text: &str) -> (token: Option<XsWatchToken>)
        ensures
            match token {
                Some(t) => token_of(text@) == Some(t@) && spells(text@, t@),
                None => token_of(text@) is None,
            },
            forall|value: u128| #[trigger]
                uuid_text(value) == text@ ==> (token matches Some(t) && t@ == value),
    {
        proof {
            assert forall|value: u128| #[trigger] uuid_text(value) == text@ implies token_of(text@)
                == Some(value) by {
                lemma_text_gives_back_token(value);
            }
        }
        match parse_uuid(text) {
            Some(value) => {
                proof {
                    let read = choose|v: u128| spells(text@, v);
                    lemma_text_stands_for_one_token(text@, read, value);
                }
                Some(XsWatchToken(value))
            },
            None => None,
        }
    }

    /// The text of this token.
    pub fn text(&self) -> (text: String)
        ensures
            text@ == uuid_text(self@),
    {
        format_uuid(self.0)
    }

    /// The number that stands for this token where one is looked up.
    pub(crate) fn key(&self) -> (key: u128)
        ensures
            key == self@,
    {
        self.0
    }
}

/// The bytes of a token's text are its characters.
proof fn lemma_text_bytes(value: u128)
    ensures
        encode_utf8(uuid_text(value)).len() == 36,
        forall|k: int|
            0 <= k < 36 ==> #[trigger] encode_utf8(uuid_text(value))[k] == if is_hyphen(k) {
                45u8
            } else {
                hex_digit(nibble(value, digit_at(k))) as u8
            },
{
    let text = uuid_text(value);
    assert forall|k: int| 0 <= k < text.len() implies 0 <= (#[trigger] text[k]) as int <= 127 by {
        lemma_text_chars(value, k);
    }
    vstd::utf8::is_ascii_chars_encode_utf8(text);
    assert forall|k: int| 0 <= k < 36 implies #[trigger] encode_utf8(text)[k] == if is_hyphen(k) {
        45u8
    } else {
        hex_digit(nibble(value, digit_at(k))) as u8
    } by {
        assert(encode_utf8(text)[k] == text[k] as u8);
    }
}

/// A digit is written in lower or in upper case.
proof fn lemma_digit_forms(byte: u8, value: u128, i: int)
    ensures
        nibble(value, i) < 16,
        hex_value(byte) == Some(nibble(value, i)) <==> {
            let own = hex_digit(nibble(value, i)) as u8;
            byte == own || (97 <= own <= 102 && byte == own - 32)
        },
{
    let x = value >> ((124 - 4 * i) as u128);
    assert(x & 0xf < 16) by (bit_vector);
    let d = nibble(value, i);
    assert(hex_digit(d) as int == if d < 10 {
        48 + d
    } else {
        87 + d
    });
}

/// The hyphenated form of a token is its text up to the case of its digits.
proof fn lemma_hyphenated_forms(bytes: Seq<u8>, value: u128)
    ensures
        spells_hyphenated(bytes, value) <==> {
            let own = encode_utf8(uuid_text(value));
            &&& bytes.len() == 36
            &&& forall|k: int|
                0 <= k < 36 ==> #[trigger] bytes[k] == own[k] || (97 <= own[k] <= 102 && bytes[k]
                    == own[k] - 32)
        },
{
    let own = encode_utf8(uuid_text(value));
    lemma_text_bytes(value);
    if bytes.len() == 36 {
        assert forall|k: int| 0 <= k < 36 implies ((#[trigger] bytes[k] == own[k] || (97 <= own[k]
            <= 102 && bytes[k] == own[k] - 32)) <==> (if is_hyphen(k) {
            bytes[k] == 45
        } else {
            hex_value(bytes[k]) == Some(nibble(value, digit_at(k)))
        })) by {
            if !is_hyphen(k) {
                lemma_digit_forms(bytes[k], value, digit_at(k));
            }
            assert(own[k] == if is_hyphen(k) {
                45u8
            } else {
                hex_digit(nibble(value, digit_at(k))) as u8
            });
        }
    }
}

/// The text of a token is that of its number as a UUID: 32 hexadecimal digits from the
/// most significant one on, in lower case, with hyphens behind the digits 8, 12, 16 and
/// 20.
pub proof fn law_text_writes_the_number(token: XsWatchToken, text: String)
    requires
        call_ensures(XsWatchToken::text, (&token,), text),
    ensures
        text@.len() == 36,
        forall|k: int|
            0 <= k < 36 ==> #[trigger] text@[k] == if k == 8 || k == 13 || k == 18 || k == 23 {
                '-'
            } else {
                let before: int = if k < 8 {
                    0
                } else if k < 13 {
                    1
                } else if k < 18 {
                    2
                } else if k < 23 {
                    3
                } else {
                    4
                };
                let digit = (token@ >> ((124 - 4 * (k - before)) as u128)) & 0xf;
                if digit < 10 {
                    (48 + digit) as char
                } else {
                    (87 + digit) as char
                }
            },
{
}

/// A text is read as a token exactly when it is that token's own text up to form: with
/// its digits in any case, without the hyphens, in braces, or behind `urn:uuid:` in any
/// case.
pub proof fn law_token_is_read_from_its_text_in_any_form(
    token: XsWatchToken,
    text: String,
    other: &str,
    read: Option<XsWatchToken>,
)
    requires
        call_ensures(XsWatchToken::text, (&token,), text),
        call_ensures(XsWatchToken::parse, (other,), read),
    ensures
        (read matches Some(t) && t@ == token@) <==> {
            let own = encode_utf8(text@);
            let bytes = encode_utf8(other@);
            let urn = seq![117u8, 114, 110, 58, 117, 117, 105, 100, 58];
            ||| {
                &&& bytes.len() == 36
                &&& forall|k: int|
                    0 <= k < 36 ==> #[trigger] bytes[k] == own[k] || (97 <= own[k] <= 102
                        && bytes[k] == own[k] - 32)
            }
            ||| {
                &&& bytes.len() == 38
                &&& bytes[0] == 123
                &&& bytes[37] == 125
                &&& forall|k: int|
                    0 <= k < 36 ==> #[trigger] bytes.subrange(1, 37)[k] == own[k] || (97 <= own[k]
                        <= 102 && bytes.subrange(1, 37)[k] == own[k] - 32)
            }
            ||| {
                &&& bytes.len() == 45
                &&& forall|k: int|
                    0 <= k < 9 ==> #[trigger] bytes[k] == urn[k] || (97 <= urn[k] <= 122
                        && bytes[k] == urn[k] - 32)
                &&& forall|k: int|
                    0 <= k < 36 ==> #[trigger] bytes.subrange(9, 45)[k] == own[k] || (97 <= own[k]
                        <= 102 && bytes.subrange(9, 45)[k] == own[k] - 32)
            }
            ||| {
                let bare = own.subrange(0, 8) + own.subrange(9, 13) + own.subrange(14, 18)
                    + own.subrange(19, 23) + own.subrange(24, 36);
                &&& bytes.len() == 32
                &&& forall|k: int|
                    0 <= k < 32 ==> #[trigger] bytes[k] == bare[k] || (97 <= bare[k] <= 102
                        && bytes[k] == bare[k] - 32)
            }
        },
{
    let value = token@;
    let own = encode_utf8(text@);
    let bytes = encode_utf8(other@);
    let urn = seq![117u8, 114, 110, 58, 117, 117, 105, 100, 58];
    lemma_text_bytes(value);
    if bytes.len() == 36 {
        lemma_hyphenated_forms(bytes, value);
    } else if bytes.len() == 38 {
        lemma_hyphenated_forms(bytes.subrange(1, 37), value);
    } else if bytes.len() == 45 {
        lemma_hyphenated_forms(bytes.subrange(9, 45), value);
        assert forall|k: int| 0 <= k < 9 implies ((#[trigger] bytes[k] == urn[k] || (97 <= urn[k]
            <= 122 && bytes[k] == urn[k] - 32)) <==> ascii_lower(bytes[k]) == urn_prefix()[k]) by {
            assert(urn[k] == urn_prefix()[k]);
            assert(97 <= urn[k] <= 122 || urn[k] == 58);
        }
    } else if bytes.len() == 32 {
        let bare = own.subrange(0, 8) + own.subrange(9, 13) + own.subrange(14, 18) + own.subrange(
            19,
            23,
        ) + own.subrange(24, 36);
        assert forall|i: int| 0 <= i < 32 implies ((#[trigger] bytes[i] == bare[i] || (97 <= bare[i]
            <= 102 && bytes[i] == bare[i] - 32)) <==> hex_value(bytes[i]) == Some(
            nibble(value, i),
        )) by {
            let k = place_of(i);
            assert(bare[i] == own[k]);
            assert(digit_at(k) == i && !is_hyphen(k));
            assert(own[k] == hex_digit(nibble(value, digit_at(k))) as u8);
            lemma_digit_forms(bytes[i], value, i);
        }
    }
    if spells(other@, value) {
        let found = choose|v: u128| spells(other@, v);
        lemma_text_stands_for_one_token(other@, found, value);
    }
}

/// A text of any other length is no token.
pub proof fn law_no_token_has_another_length(other: &str, read: Option<XsWatchToken>)
    requires
        call_ensures(XsWatchToken::parse, (other,), read),
    ensures
        read is Some ==> {
            let length = encode_utf8(other@).len();
            length == 32 || length == 36 || length == 38 || length == 45
        },
{
}

/// A random token is drawn, and is a UUID of version 4 and the usual variant.
pub proof fn law_random_token_is_of_version_4(token: XsWatchToken)
    requires
        call_ensures(XsWatchToken::random, (), token),
    ensures
        XsWatchToken::is_drawn(token@),
        (token@ >> 76) & 0xf == 4,
        (token@ >> 62) & 0x3 == 2,
{
    let value = token@;
    assert((value >> 76) & 0xf == 4 && (value >> 62) & 0x3 == 2) by (bit_vector)
        requires
            value & 0xF000_C000_0000_0000_0000 == 0x4000_8000_0000_0000_0000,
    ;
}

} // verus!
