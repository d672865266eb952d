//! Identifiers and addresses, computed by the `uuid` and `url` crates.
//!
//! Ids are held as the 128-bit value of a `uuid::Uuid`; addresses as the
//! serialization of a `url::Url`.
use vstd::prelude::*;
use vstd::arithmetic::power2::pow2;

verus! {

/// The all-zero id (`Uuid::nil()`), which stands for "not set".
pub const NIL_ID: u128 = 0;

/// The id that `uuid::Uuid::parse_str` reads from `text`, if it reads one.
pub uninterp spec fn uuid_from_text(text: Seq<char>) -> Option<u128>;

/// The lowercase hexadecimal digit for `n`, from 0 to 15.
pub open spec fn hex_digit(n: int) -> char {
    if n < 10 {
        (48 + n) as char
    } else {
        (87 + n) as char
    }
}

/// The `i`-th of the 32 hexadecimal digits of `id`, most significant first.
pub open spec fn nibble(id: u128, i: int) -> int {
    (id as int / pow2((4 * (31 - i)) as nat) as int) % 16
}

/// The text that `uuid::Uuid`'s `Display` writes for an id, its hyphenated
/// form: the 32 hexadecimal digits of the id, most significant first and in
/// lower case, in groups of 8, 4, 4, 4 and 12 joined by hyphens.
pub open spec fn uuid_text(id: u128) -> Seq<char> {
    let digits = Seq::new(32, |i: int| hex_digit(nibble(id, i)));
    digits.subrange(0, 8) + "-"@ + digits.subrange(8, 12) + "-"@ + digits.subrange(12, 16) + "-"@
        + digits.subrange(16, 20) + "-"@ + digits.subrange(20, 32)
}

/// What `url::Url::parse` makes of `input`: the serialization of the parsed
/// address, or the text of the parse error.
pub uninterp spec fn url_parse(input: Seq<char>) -> Result<Seq<char>, Seq<char>>;

/// Calls `uuid::Uuid::parse_str`; the claim is only that the result is the
/// one named by `uuid_from_text` for this text.
#[verifier::external_body]
pub(crate) fn parse_uuid(text: &str) -> (id: Option<u128>)
    ensures
        id == uuid_from_text(text@),
{
    match uuid::Uuid::parse_str(text) {
        Ok(parsed) => Some(parsed.as_u128()),
        Err(_) => None,
    }
}

/// Calls `Display` of `uuid::Uuid` through `to_string`; the claim is that the
/// text is the hyphenated form `uuid_text` of the id, as the crate documents
/// it.
#[verifier::external_body]
pub(crate) fn format_uuid(id: u128) -> (text: String)
    ensures
        text@ == uuid_text(id),
{
    uuid::Uuid::from_u128(id).to_string()
}

/// Calls `uuid::Uuid::now_v7`. The id depends on the clock and on chance;
/// the claim is only what holds of every outcome: it is a version 7 UUID, so
/// its version digit is 7 and it is not nil.
#[verifier::external_body]
pub(crate) fn fresh_uuid() -> (id: u128)
    ensures
        nibble(id, 12) == 7,
        id != NIL_ID,
{
    uuid::Uuid::now_v7().as_u128()
}

/// Calls `url::Url::parse` and hands back the serialization of the address
/// (`String::from(Url)`) or the error's text. The claim is that the result is
/// the one named by `url_parse`, and, as the crate's documentation shows by
/// example, that `"https://example.net"` parses.
#[verifier::external_body]
pub(crate) fn parse_url(input: &str) -> (parsed: Result<String, String>)
    ensures
        match parsed {
            Ok(address) => url_parse(input@) == Ok::<Seq<char>, Seq<char>>(address@),
            Err(message) => url_parse(input@) == Err::<Seq<char>, Seq<char>>(message@),
        },
        input@ == "https://example.net"@ ==> parsed is Ok,
{
    match url::Url::parse(input) {
        Ok(address) => Ok(String::from(address)),
        Err(err) => Err(err.to_string()),
    }
}

} // verus!
