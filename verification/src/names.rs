//! Names for resources that a caller creates to try the API out.

use vstd::prelude::*;
use vstd::string::*;

use crate::apis::encoding::{is_plain, is_plain_char, lemma_urlencoded_plain, urlencoded};

verus! {

/// An ASCII letter or digit.
pub open spec fn is_alphanumeric(byte: u8) -> bool {
    ||| 0x30 <= byte <= 0x39
    ||| 0x41 <= byte <= 0x5A
    ||| 0x61 <= byte <= 0x7A
}

/// Text of ASCII letters and digits.
pub open spec fn is_alphanumeric_text(text: Seq<char>) -> bool {
    forall|i: int|
        0 <= i < text.len() ==> '\0' <= #[trigger] text[i] <= '\u{7f}' && is_alphanumeric(
            text[i] as u8,
        )
}

/// Draws one byte from `rand`'s `Alphanumeric` distribution on the
/// thread's generator, by `Rng::sample`. The distribution yields ASCII
/// letters and digits; which one is left open.
#[verifier::external_body]
fn sample_alphanumeric() -> (byte: u8)
    ensures
        is_alphanumeric(byte),
{
    rand::Rng::sample(&mut rand::thread_rng(), rand::distributions::Alphanumeric)
}

/// Text of ASCII letters and digits is its own percent-encoding.
pub proof fn lemma_alphanumeric_text_is_plain(text: Seq<char>)
    requires
        is_alphanumeric_text(text),
    ensures
        is_plain(text),
        urlencoded(text) == text,
{
    assert forall|i: int| 0 <= i < text.len() implies is_plain_char(#[trigger] text[i]) by {}
    lemma_urlencoded_plain(text);
}

/// A fresh name of seven random ASCII letters and digits. Such a name
/// goes into a path or a form as it is.
pub fn random_health_check_name() -> (name: String)
    ensures
        name@.len() == 7,
        is_alphanumeric_text(name@),
        urlencoded(name@) == name@,
{
    let mut name = String::new();
    let mut drawn: usize = 0;
    while drawn < 7
        invariant
            drawn <= 7,
            name@.len() == drawn,
            is_alphanumeric_text(name@),
        decreases 7 - drawn,
    {
        let byte = sample_alphanumeric();
        name.push(byte as char);
        drawn += 1;
    }
    proof {
        lemma_alphanumeric_text_is_plain(name@);
    }
    name
}

} // verus!
