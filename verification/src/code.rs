//! Short codes: eight lower-case hexadecimal characters cut from the text of
//! a random UUID.

use vstd::prelude::*;
use vstd::string::*;

verus! {

/// Number of characters in a short code.
pub const CODE_LEN: usize = 8;

/// A digit `0`-`9` or a letter `a`-`f`.
pub open spec fn is_lower_hex(c: char) -> bool {
    ('0' <= c && c <= '9') || ('a' <= c && c <= 'f')
}

/// The four positions at which the hyphenated text of a UUID has a hyphen.
pub open spec fn is_hyphen_position(i: int) -> bool {
    i == 8 || i == 13 || i == 18 || i == 23
}

/// The shape `xxxxxxxx-xxxx-xxxx-xxxx-xxxxxxxxxxxx` with lower-case
/// hexadecimal digits for every `x`.
pub open spec fn is_hyphenated_uuid(text: Seq<char>) -> bool {
    &&& text.len() == 36
    &&& forall|i: int|
        0 <= i < 36 ==> if is_hyphen_position(i) {
            #[trigger] text[i] == '-'
        } else {
            is_lower_hex(text[i])
        }
}

/// The text of a random (version 4) UUID: hyphenated, with the version
/// digit `4` and a variant digit out of `8`, `9`, `a`, `b`.
pub open spec fn is_random_uuid_text(text: Seq<char>) -> bool {
    &&& is_hyphenated_uuid(text)
    &&& text[14] == '4'
    &&& (text[19] == '8' || text[19] == '9' || text[19] == 'a' || text[19] == 'b')
}

/// A well-formed short code: exactly `CODE_LEN` lower-case hexadecimal digits.
pub open spec fn is_short_code(code: Seq<char>) -> bool {
    &&& code.len() == CODE_LEN
    &&& forall|i: int| 0 <= i < code.len() ==> is_lower_hex(#[trigger] code[i])
}

/// The first `CODE_LEN` characters of `text`, or all of it where it is shorter.
pub open spec fn code_prefix(text: Seq<char>) -> Seq<char> {
    if text.len() <= CODE_LEN {
        text
    } else {
        text.subrange(0, CODE_LEN as int)
    }
}

/// Trusted: `uuid::Uuid::new_v4` followed by the UUID's `to_string`.
///
/// The identifier is random, so nothing is claimed about which one comes
/// back. What is claimed is the shape of its text: `uuid` formats a UUID in
/// its hyphenated lower-case form, 32 hexadecimal digits in groups of
/// 8-4-4-4-12, and `new_v4` fixes the version and variant bits, which show
/// as the first digit of the third and of the fourth group. `new_v4` aborts
/// only if the operating system cannot supply random bytes.
#[verifier::external_body]
fn random_uuid_text() -> (text: String)
    ensures
        is_random_uuid_text(text@),
{
    uuid::Uuid::new_v4().to_string()
}

/// Cuts a short code out of a longer text: its first `CODE_LEN` characters.
pub fn code_from_text(text: &str) -> (code: String)
    ensures
        code@ == code_prefix(text@),
{
    let n: usize = text.unicode_len();
    if n <= CODE_LEN {
        String::from_str(text)
    } else {
        String::from_str(text.substring_char(0, CODE_LEN))
    }
}

/// The first `CODE_LEN` characters of a hyphenated UUID are a short code.
pub proof fn lemma_uuid_prefix_is_code(text: Seq<char>)
    requires
        is_hyphenated_uuid(text),
    ensures
        is_short_code(code_prefix(text)),
{
    let code = code_prefix(text);
    assert forall|i: int| 0 <= i < code.len() implies is_lower_hex(#[trigger] code[i]) by {
        assert(code[i] == text[i]);
        assert(!is_hyphen_position(i));
    }
}

/// Generates a fresh random short code.
///
/// Which code comes back is a matter of chance; every outcome is a
/// well-formed short code.
pub fn generate_code() -> (code: String)
    ensures
        is_short_code(code@),
{
    let text = random_uuid_text();
    proof {
        lemma_uuid_prefix_is_code(text@);
    }
    code_from_text(text.as_str())
}

} // verus!
