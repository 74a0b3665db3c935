//! Startup parsing of the gateway auth token: its first dot-separated part
//! carries the application's numeric identifier, base64-encoded.
use vstd::prelude::*;
use vstd::string::*;

verus! {

/// The index of the first `.` in the string, or its length when it has none.
pub open spec fn first_dot(s: Seq<char>) -> int
    decreases s.len(),
{
    if s.len() == 0 {
        0
    } else if s[0] == '.' {
        0
    } else {
        1 + first_dot(s.drop_first())
    }
}

pub proof fn lemma_first_dot(s: Seq<char>)
    ensures
        0 <= first_dot(s) <= s.len(),
        first_dot(s) < s.len() ==> s[first_dot(s)] == '.',
        forall|k: int| 0 <= k < first_dot(s) ==> s[k] != '.',
    decreases s.len(),
{
    if s.len() == 0 {
    } else if s[0] == '.' {
    } else {
        lemma_first_dot(s.drop_first());
        assert forall|k: int| 0 <= k < first_dot(s) implies s[k] != '.' by {
            if k > 0 {
                assert(s.drop_first()[k - 1] != '.');
            }
        }
    }
}

/// What base64 decoding (the standard alphabet, padding required) yields for
/// a string, or nothing where the string is no valid encoding. The alphabet
/// and padding rules are not restated here; the result is a function of the
/// input alone.
pub uninterp spec fn base64_of(s: Seq<char>) -> Option<Seq<u8>>;

/// Relies on base64's `decode` with the `STANDARD` configuration: the decoded
/// octets of a valid encoding, an error otherwise.
#[verifier::external_body]
fn base64_decode(s: &str) -> (r: Option<Vec<u8>>)
    ensures
        match r {
            Some(v) => base64_of(s@) == Some(v@),
            None => base64_of(s@) is None,
        },
{
    base64::decode(s).ok()
}

/// Whether every byte is an ASCII decimal digit.
pub open spec fn all_digits(s: Seq<u8>) -> bool {
    forall|i: int| 0 <= i < s.len() ==> 0x30 <= #[trigger] s[i] <= 0x39
}

/// The number the digit bytes spell, most significant first.
pub open spec fn dec_value(s: Seq<u8>) -> int
    decreases s.len(),
{
    if s.len() == 0 {
        0
    } else {
        dec_value(s.drop_last()) * 10 + (s.last() - 0x30)
    }
}

pub proof fn lemma_dec_value_bounds(s: Seq<u8>)
    requires
        all_digits(s),
    ensures
        dec_value(s) >= 0,
        forall|k: int| 0 <= k <= s.len() ==> dec_value(#[trigger] s.take(k)) <= dec_value(s),
    decreases s.len(),
{
    if s.len() == 0 {
        assert(s.take(0) =~= s);
    } else {
        assert(all_digits(s.drop_last()));
        lemma_dec_value_bounds(s.drop_last());
        assert(dec_value(s) >= dec_value(s.drop_last())) by {
            assert(s.last() >= 0x30);
        }
        assert forall|k: int| 0 <= k <= s.len() implies dec_value(#[trigger] s.take(k))
            <= dec_value(s) by {
            if k < s.len() {
                assert(s.drop_last().take(k) =~= s.take(k));
            } else {
                assert(s.take(k) =~= s);
            }
        }
    }
}

/// Parses an all-digit byte string as a number, as `dec_value` states:
/// something comes back exactly for a non-empty digit string whose value
/// fits.
pub fn parse_u64_dec(s: &Vec<u8>) -> (r: Option<u64>)
    ensures
        match r {
            Some(v) => s@.len() > 0 && all_digits(s@) && v == dec_value(s@),
            None => s@.len() == 0 || !all_digits(s@) || dec_value(s@) > u64::MAX,
        },
{
    let n = s.len();
    if n == 0 {
        return None;
    }
    let mut acc: u64 = 0;
    let mut i: usize = 0;
    while i < n
        invariant
            0 <= i <= n,
            n == s.len(),
            all_digits(s@.take(i as int)),
            acc == dec_value(s@.take(i as int)),
        decreases n - i,
    {
        let b = s[i];
        if b < 0x30 || b > 0x39 {
            proof {
                assert(!all_digits(s@));
            }
            return None;
        }
        let d = b - 0x30;
        proof {
            assert(s@.take(i + 1).drop_last() =~= s@.take(i as int));
            assert(s@.take(i + 1).last() == s@[i as int]);
            assert(all_digits(s@.take(i + 1)));
        }
        if acc > (u64::MAX - (d as u64)) / 10 {
            proof {
                if all_digits(s@) {
                    lemma_dec_value_bounds(s@);
                    assert(s@.take(n as int) =~= s@);
                    assert(dec_value(s@.take(i + 1)) <= dec_value(s@));
                    assert(dec_value(s@.take(i + 1)) > u64::MAX);
                }
            }
            return None;
        }
        acc = acc * 10 + (d as u64);
        i = i + 1;
    }
    proof {
        assert(s@.take(n as int) =~= s@);
    }
    Some(acc)
}

/// Derives the application's numeric identifier from the auth token: the
/// part before the first dot, base64-decoded, read as a decimal number.
/// Nothing comes back where that part is no valid encoding or the decoded
/// octets are not a number's digits.
pub fn application_id_from_token(token: &str) -> (r: Option<u64>)
    ensures
        ({
            let head = token@.take(first_dot(token@));
            match r {
                Some(v) => match base64_of(head) {
                    Some(octets) => octets.len() > 0 && all_digits(octets) && v == dec_value(
                        octets,
                    ),
                    None => false,
                },
                None => match base64_of(head) {
                    Some(octets) => octets.len() == 0 || !all_digits(octets) || dec_value(octets)
                        > u64::MAX,
                    None => true,
                },
            }
        }),
{
    let n = token.unicode_len();
    let mut i: usize = 0;
    while i < n && token.get_char(i) != '.'
        invariant
            0 <= i <= n,
            n == token@.len(),
            forall|k: int| 0 <= k < i ==> token@[k] != '.',
        decreases n - i,
    {
        i = i + 1;
    }
    proof {
        lemma_first_dot(token@);
        assert(i == first_dot(token@));
    }
    let head = token.substring_char(0, i);
    proof {
        assert(head@ =~= token@.take(first_dot(token@)));
    }
    match base64_decode(head) {
        None => None,
        Some(octets) => parse_u64_dec(&octets),
    }
}

} // verus!
