//! Fresh identifiers for new rows.

use vstd::prelude::*;

use super::system::{random_bytes, unix_time_millis};

verus! {

/// The hyphenated text of the version 7 UUID with Unix time `millis` (in
/// milliseconds) and counter and random bits `counter_random`.
pub uninterp spec fn uuid_v7_text(millis: u64, counter_random: Seq<u8>) -> Seq<char>;

/// The lower-case hexadecimal digit of `n < 16`.
pub open spec fn hex_digit(n: nat) -> char {
    if n == 0 { '0' } else if n == 1 { '1' } else if n == 2 { '2' } else if n == 3 { '3' }
    else if n == 4 { '4' } else if n == 5 { '5' } else if n == 6 { '6' } else if n == 7 { '7' }
    else if n == 8 { '8' } else if n == 9 { '9' } else if n == 10 { 'a' } else if n == 11 { 'b' }
    else if n == 12 { 'c' } else if n == 13 { 'd' } else if n == 14 { 'e' } else { 'f' }
}

/// The version 7 UUID made of `millis` and `counter_random`, as text.
///
/// Trusted: `uuid::Builder::from_unix_timestamp_millis` followed by the
/// `Display` of `Uuid`, the hyphenated lower-case form of 36 characters.
/// The text is named by [`uuid_v7_text`].  The builder copies the last of
/// the ten bytes unchanged into the last byte of the UUID, whose low
/// nibble the display writes as the last character.
#[verifier::external_body]
fn uuid_v7(millis: u64, counter_random: &[u8; 10]) -> (s: String)
    ensures
        s@ == uuid_v7_text(millis, counter_random@),
        s@.len() == 36,
        s@[35] == hex_digit((counter_random@[9] % 16) as nat),
{
    uuid::Builder::from_unix_timestamp_millis(millis, counter_random).into_uuid().to_string()
}

fn draw_bytes() -> (r: Option<[u8; 10]>) {
    let random = match random_bytes(10) {
        Some(v) => v,
        None => return None,
    };
    let mut bytes: [u8; 10] = [0u8; 10];
    let mut i: usize = 0;
    while i < 10
        invariant
            random@.len() == 10,
            bytes@.len() == 10,
            i <= 10,
        decreases 10 - i,
    {
        bytes[i] = random[i];
        i = i + 1;
    }
    Some(bytes)
}

/// The identifier a row gets: a version 7 UUID from the current time and
/// fresh random bits.  `None` when the clock reads before the Unix epoch or
/// randomness is not available.
pub(crate) fn new_id() -> (r: Option<String>)
    ensures
        r matches Some(id) ==> id@.len() == 36,
{
    let millis = match unix_time_millis() {
        Some(m) => m,
        None => return None,
    };
    match draw_bytes() {
        Some(bytes) => Some(uuid_v7(millis, &bytes)),
        None => None,
    }
}

proof fn lemma_hex_digit_injective(a: nat, b: nat)
    requires
        a < 16,
        b < 16,
        a != b,
    ensures
        hex_digit(a) != hex_digit(b),
{
}

/// Two identifiers for rows made together: version 7 UUIDs of the same
/// time with fresh random bits, the last hexadecimal digit of the second
/// one following that of the first, so that they differ.  `None` when the
/// clock reads before the Unix epoch or randomness is not available.
pub(crate) fn new_id_pair() -> (r: Option<(String, String)>)
    ensures
        r matches Some((a, b)) ==> a@.len() == 36 && b@.len() == 36 && a@ != b@,
{
    let millis = match unix_time_millis() {
        Some(m) => m,
        None => return None,
    };
    let first = match draw_bytes() {
        Some(b) => b,
        None => return None,
    };
    let mut second = match draw_bytes() {
        Some(b) => b,
        None => return None,
    };
    let low: u8 = (first[9] % 16 + 1) % 16;
    second[9] = (second[9] / 16) * 16 + low;
    assert(second@[9] % 16 == low) by (nonlinear_arith)
        requires
            second@[9] == (second@[9] / 16) * 16 + low,
            low < 16;
    let a = uuid_v7(millis, &first);
    let b = uuid_v7(millis, &second);
    proof {
        lemma_hex_digit_injective((first@[9] % 16) as nat, (second@[9] % 16) as nat);
        assert(a@[35] != b@[35]);
    }
    Some((a, b))
}

} // verus!
