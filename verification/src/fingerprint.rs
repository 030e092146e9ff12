//! The fingerprint function: a block's four fields are rendered as text,
//! concatenated in a fixed order, and hashed with SHA-256; the digest is
//! rendered as lowercase hexadecimal.

use vstd::prelude::*;
use vstd::string::StringExecFns;
use crypto::digest::Digest;

verus! {

/// The lowercase hexadecimal SHA-256 digest of a character sequence.
/// The digest is a fixed function of the input characters alone; its value
/// is not stated here, only named.
pub uninterp spec fn sha256_hex_of(s: Seq<char>) -> Seq<char>;

/// Relies on crypto::sha2::Sha256 through crypto::digest::Digest::input_str
/// and result_str: the digest depends on the input characters alone, and
/// result_str renders the 256-bit digest as 64 hexadecimal characters.
#[verifier::external_body]
fn sha256_hex(s: &str) -> (r: String)
    ensures
        r@ == sha256_hex_of(s@),
        r@.len() == 64,
{
    let mut hasher = crypto::sha2::Sha256::new();
    hasher.input_str(s);
    hasher.result_str()
}

/// The character for a single decimal digit.
pub open spec fn spec_digit_char(d: nat) -> char
    recommends
        d < 10,
{
    if d == 0 {
        '0'
    } else if d == 1 {
        '1'
    } else if d == 2 {
        '2'
    } else if d == 3 {
        '3'
    } else if d == 4 {
        '4'
    } else if d == 5 {
        '5'
    } else if d == 6 {
        '6'
    } else if d == 7 {
        '7'
    } else if d == 8 {
        '8'
    } else {
        '9'
    }
}

/// The canonical decimal rendering of a natural number: most significant
/// digit first, no leading zeroes (a single '0' for zero).
pub open spec fn spec_decimal(n: nat) -> Seq<char>
    decreases n,
{
    if n < 10 {
        seq![spec_digit_char(n)]
    } else {
        spec_decimal(n / 10) + seq![spec_digit_char(n % 10)]
    }
}

fn digit_str(d: u32) -> (r: &'static str)
    requires
        d < 10,
    ensures
        r@ == seq![spec_digit_char(d as nat)],
{
    if d == 0 {
        let r = "0";
        proof {
            reveal_strlit("0");
            assert(r@ =~= seq![spec_digit_char(d as nat)]);
        }
        r
    } else if d == 1 {
        let r = "1";
        proof {
            reveal_strlit("1");
            assert(r@ =~= seq![spec_digit_char(d as nat)]);
        }
        r
    } else if d == 2 {
        let r = "2";
        proof {
            reveal_strlit("2");
            assert(r@ =~= seq![spec_digit_char(d as nat)]);
        }
        r
    } else if d == 3 {
        let r = "3";
        proof {
            reveal_strlit("3");
            assert(r@ =~= seq![spec_digit_char(d as nat)]);
        }
        r
    } else if d == 4 {
        let r = "4";
        proof {
            reveal_strlit("4");
            assert(r@ =~= seq![spec_digit_char(d as nat)]);
        }
        r
    } else if d == 5 {
        let r = "5";
        proof {
            reveal_strlit("5");
            assert(r@ =~= seq![spec_digit_char(d as nat)]);
        }
        r
    } else if d == 6 {
        let r = "6";
        proof {
            reveal_strlit("6");
            assert(r@ =~= seq![spec_digit_char(d as nat)]);
        }
        r
    } else if d == 7 {
        let r = "7";
        proof {
            reveal_strlit("7");
            assert(r@ =~= seq![spec_digit_char(d as nat)]);
        }
        r
    } else if d == 8 {
        let r = "8";
        proof {
            reveal_strlit("8");
            assert(r@ =~= seq![spec_digit_char(d as nat)]);
        }
        r
    } else {
        let r = "9";
        proof {
            reveal_strlit("9");
            assert(r@ =~= seq![spec_digit_char(d as nat)]);
        }
        r
    }
}

/// Renders `n` in decimal, matching `spec_decimal`.
pub fn u32_decimal(n: u32) -> (r: String)
    ensures
        r@ == spec_decimal(n as nat),
    decreases n,
{
    if n < 10 {
        digit_str(n).to_owned()
    } else {
        let mut prefix = u32_decimal(n / 10);
        prefix.append(digit_str(n % 10));
        prefix
    }
}

/// The text that is hashed: the decimal renderings of position and
/// timestamp, then the previous fingerprint, then the payload, with no
/// separators.
pub open spec fn spec_record(
    index: u32,
    timestamp: u32,
    prev_hash: Seq<char>,
    payload: Seq<char>,
) -> Seq<char> {
    spec_decimal(index as nat) + spec_decimal(timestamp as nat) + prev_hash + payload
}

/// A block's fingerprint: the SHA-256 hex digest of its record text.
pub open spec fn spec_fingerprint(
    index: u32,
    timestamp: u32,
    prev_hash: Seq<char>,
    payload: Seq<char>,
) -> Seq<char> {
    sha256_hex_of(spec_record(index, timestamp, prev_hash, payload))
}

/// Computes the fingerprint of a block's four fields. Deterministic: the
/// result is a fixed function of the arguments.
pub fn calc_hash(index: &u32, timestamp: &u32, prev_hash: &str, payload: &str) -> (r: String)
    ensures
        r@ == spec_fingerprint(*index, *timestamp, prev_hash@, payload@),
        r@.len() == 64,
{
    let mut record = u32_decimal(*index);
    let ts = u32_decimal(*timestamp);
    record.append(ts.as_str());
    record.append(prev_hash);
    record.append(payload);
    sha256_hex(record.as_str())
}

} // verus!
