//! How a challenge and its response travel to and from the token's
//! command-line tool: as lowercase hexadecimal text, the response on one line.
use vstd::prelude::*;

verus! {

/// The lowercase hexadecimal digits, by value.
pub open spec fn hex_alphabet() -> Seq<char> {
    seq!['0', '1', '2', '3', '4', '5', '6', '7', '8', '9', 'a', 'b', 'c', 'd', 'e', 'f']
}

/// `bytes` written as lowercase hexadecimal, two digits a byte, high nibble first.
pub open spec fn hex_chars(bytes: Seq<u8>) -> Seq<char>
    decreases bytes.len(),
{
    if bytes.len() == 0 {
        Seq::empty()
    } else {
        seq![hex_alphabet()[bytes[0] as int / 16], hex_alphabet()[bytes[0] as int % 16]] + hex_chars(bytes.drop_first())
    }
}

/// Every character of `s` is a lowercase hexadecimal digit.
pub open spec fn is_lower_hex(s: Seq<char>) -> bool {
    forall|i: int| 0 <= i < s.len() ==> hex_alphabet().contains(#[trigger] s[i])
}

/// Relies on hex_string's `HexString::from_bytes` and `HexString::as_string`:
/// two lowercase digits a byte, high nibble first.
#[verifier::external_body]
fn hex_encode(bytes: &Vec<u8>) -> (r: String)
    ensures
        r@ == hex_chars(bytes@),
{
    hex_string::HexString::from_bytes(bytes).as_string()
}

/// Relies on hex_string's `HexString::from_string` and `HexString::as_bytes`:
/// the first accepts exactly the strings of an even number of digits `0-9a-f`,
/// the second decodes each pair of digits into a byte.
#[verifier::external_body]
fn hex_decode(s: &str) -> (r: Option<Vec<u8>>)
    ensures
        r is Some <==> (is_lower_hex(s@) && s@.len() % 2 == 0),
        r is Some ==> hex_chars(r->Some_0@) == s@,
{
    let hex = hex_string::HexString::from_string(s).ok()?;
    Some(hex.as_bytes())
}

/// Relies on std's `str::strip_suffix` with the pattern `"\n"`.
#[verifier::external_body]
fn strip_newline(s: &str) -> (r: Option<&str>)
    ensures
        r is Some <==> (s@.len() > 0 && s@.last() == '\n'),
        r is Some ==> r->Some_0@ == s@.drop_last(),
{
    s.strip_suffix("\n")
}

proof fn lemma_hex_chars_len(bytes: Seq<u8>)
    ensures
        hex_chars(bytes).len() == 2 * bytes.len(),
    decreases bytes.len(),
{
    if bytes.len() > 0 {
        lemma_hex_chars_len(bytes.drop_first());
    }
}

proof fn lemma_hex_chars_is_lower_hex(bytes: Seq<u8>)
    ensures
        is_lower_hex(hex_chars(bytes)),
    decreases bytes.len(),
{
    if bytes.len() > 0 {
        let rest = bytes.drop_first();
        lemma_hex_chars_is_lower_hex(rest);
        let head = seq![hex_alphabet()[bytes[0] as int / 16], hex_alphabet()[bytes[0] as int % 16]];
        assert(hex_alphabet().contains(head[0]));
        assert(hex_alphabet().contains(head[1]));
        let s = hex_chars(bytes);
        assert(s == head + hex_chars(rest));
        assert forall|i: int| 0 <= i < s.len() implies hex_alphabet().contains(#[trigger] s[i]) by {
            if i >= 2 {
                assert(s[i] == hex_chars(rest)[i - 2]);
            }
        }
    }
}

/// The argument that carries `challenge` to the token's tool.
pub fn challenge_argument(challenge: &[u8; 32]) -> (r: String)
    ensures
        r@ == hex_chars(challenge@),
{
    let bytes = vstd::slice::slice_to_vec(challenge.as_slice());
    hex_encode(&bytes)
}

/// Reads the token's response from what its tool printed: exactly 20 bytes in
/// lowercase hexadecimal, followed by one newline. Anything else is no
/// response.
pub fn parse_response(output: &str) -> (r: Option<[u8; 20]>)
    ensures
        r is Some <==> exists|b: Seq<u8>| b.len() == 20 && output@ == #[trigger] hex_chars(b).push('\n'),
        r is Some ==> output@ == hex_chars(r->Some_0@).push('\n'),
{
    let line = match strip_newline(output) {
        Some(l) => l,
        None => {
            assert forall|b: Seq<u8>| b.len() == 20 implies output@ != #[trigger] hex_chars(b).push('\n') by {
                if output@ == hex_chars(b).push('\n') {
                    assert(output@.last() == '\n');
                }
            }
            return None;
        },
    };
    assert forall|b: Seq<u8>| b.len() == 20 && output@ == #[trigger] hex_chars(b).push('\n') implies line@ == hex_chars(
        b,
    ) by {
        assert(hex_chars(b).push('\n').drop_last() =~= hex_chars(b));
    }
    let decoded = match hex_decode(line) {
        Some(d) => d,
        None => {
            assert forall|b: Seq<u8>| b.len() == 20 implies output@ != #[trigger] hex_chars(b).push('\n') by {
                if output@ == hex_chars(b).push('\n') {
                    lemma_hex_chars_len(b);
                    lemma_hex_chars_is_lower_hex(b);
                }
            }
            return None;
        },
    };
    proof {
        lemma_hex_chars_len(decoded@);
    }
    if decoded.len() != 20 {
        assert forall|b: Seq<u8>| b.len() == 20 implies output@ != #[trigger] hex_chars(b).push('\n') by {
            if output@ == hex_chars(b).push('\n') {
                lemma_hex_chars_len(b);
            }
        }
        return None;
    }
    assert(output@ =~= line@.push('\n'));
    Some(crate::keyfile::to_array::<20>(decoded.as_slice()))
}

} // verus!
