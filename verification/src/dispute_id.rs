//! Deterministic short dispute ids: two uppercase letters and four decimal
//! digits, each drawn from one of the first six bytes of a one-way hash of
//! (contract id, milestone index, timestamp). Identical inputs always yield
//! the identical id; ids are not guaranteed globally unique.

use vstd::prelude::*;

use vstd::bytes::{spec_u64_to_le_bytes, u64_to_le_bytes};

verus! {

/// What SHA-256 returns on the given bytes: a function of the input alone.
pub uninterp spec fn sha256_of(data: Seq<u8>) -> Seq<u8>;

/// Relies on anchor_lang::solana_program::hash::hash: the SHA-256 digest of
/// the input, always 32 bytes, a function of the input bytes alone.
#[verifier::external_body]
fn sha256(data: &Vec<u8>) -> (r: Vec<u8>)
    ensures
        r@ == sha256_of(data@),
        r@.len() == 32,
{
    let digest = anchor_lang::solana_program::hash::hash(data.as_slice());
    digest.to_bytes().to_vec()
}

/// Relies on String::push: appends one character at the end.
#[verifier::external_body]
fn push_char(s: &mut String, c: char)
    ensures
        final(s)@ == old(s)@.push(c),
{
    s.push(c);
}

/// The uppercase letter drawn from one hash byte: 'A' plus the byte modulo 26.
pub open spec fn letter_for(b: u8) -> char {
    (((b % 26) + 65) as u8) as char
}

/// The decimal digit drawn from one hash byte: '0' plus the byte modulo 10.
pub open spec fn digit_for(b: u8) -> char {
    (((b % 10) + 48) as u8) as char
}

/// The bytes hashed for a dispute id: contract id, milestone index and
/// timestamp, in order, integers in little-endian byte order.
pub open spec fn dispute_seed(contract_id: u64, milestone_index: u8, timestamp: i64) -> Seq<u8> {
    spec_u64_to_le_bytes(contract_id) + seq![milestone_index] + spec_u64_to_le_bytes(
        timestamp as u64,
    )
}

/// The six-character code drawn from the first six bytes of a hash.
pub open spec fn dispute_code(h: Seq<u8>) -> Seq<char> {
    seq![
        letter_for(h[0]),
        letter_for(h[1]),
        digit_for(h[2]),
        digit_for(h[3]),
        digit_for(h[4]),
        digit_for(h[5]),
    ]
}

/// The dispute id owed to (contract, milestone, time).
pub open spec fn dispute_id_of(contract_id: u64, milestone_index: u8, timestamp: i64) -> Seq<
    char,
> {
    dispute_code(sha256_of(dispute_seed(contract_id, milestone_index, timestamp)))
}

/// Derives the dispute id for one milestone of one contract at one moment.
pub fn generate_dispute_id(contract_id: u64, milestone_index: u8, timestamp: i64) -> (r: String)
    requires
        0 <= timestamp,
    ensures
        r@ == dispute_id_of(contract_id, milestone_index, timestamp),
        r@.len() == 6,
{
    let mut seed: Vec<u8> = u64_to_le_bytes(contract_id);
    seed.push(milestone_index);
    let mut ts_bytes = u64_to_le_bytes(timestamp as u64);
    seed.append(&mut ts_bytes);
    proof {
        assert(seed@ =~= dispute_seed(contract_id, milestone_index, timestamp));
    }
    let h = sha256(&seed);
    let mut id = String::new();
    push_char(&mut id, ((h[0] % 26) + 65) as char);
    push_char(&mut id, ((h[1] % 26) + 65) as char);
    push_char(&mut id, ((h[2] % 10) + 48) as char);
    push_char(&mut id, ((h[3] % 10) + 48) as char);
    push_char(&mut id, ((h[4] % 10) + 48) as char);
    push_char(&mut id, ((h[5] % 10) + 48) as char);
    proof {
        assert(id@ =~= dispute_id_of(contract_id, milestone_index, timestamp));
    }
    id
}

/// Dispute id determinism: the id is a function of (contract id, milestone
/// index, timestamp) alone, so identical inputs always yield the identical id.
pub proof fn lemma_dispute_id_deterministic(
    contract_id_a: u64,
    milestone_index_a: u8,
    timestamp_a: i64,
    contract_id_b: u64,
    milestone_index_b: u8,
    timestamp_b: i64,
)
    requires
        contract_id_a == contract_id_b,
        milestone_index_a == milestone_index_b,
        timestamp_a == timestamp_b,
    ensures
        dispute_id_of(contract_id_a, milestone_index_a, timestamp_a) == dispute_id_of(
            contract_id_b,
            milestone_index_b,
            timestamp_b,
        ),
{
}

/// Every dispute id is two uppercase letters followed by four decimal digits.
pub proof fn lemma_dispute_id_shape(contract_id: u64, milestone_index: u8, timestamp: i64)
    ensures
        dispute_id_of(contract_id, milestone_index, timestamp).len() == 6,
        forall|k: int|
            0 <= k < 2 ==> 65 <= #[trigger] dispute_id_of(contract_id, milestone_index, timestamp)[k]
                as u32 <= 90,
        forall|k: int|
            2 <= k < 6 ==> 48 <= #[trigger] dispute_id_of(contract_id, milestone_index, timestamp)[k]
                as u32 <= 57,
{
}

} // verus!
