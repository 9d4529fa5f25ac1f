//! Values derived from results of the key-management service.

use vstd::prelude::*;

verus! {

/// The lowercase hexadecimal digit for `n`.
pub open spec fn hex_digit(n: u8) -> char
    recommends
        n < 16,
{
    seq!['0', '1', '2', '3', '4', '5', '6', '7', '8', '9', 'a', 'b', 'c', 'd', 'e', 'f'][n as int]
}

/// Bytes written as lowercase hexadecimal, two digits per byte, high half first.
pub open spec fn hex_of(b: Seq<u8>) -> Seq<char>
    decreases b.len(),
{
    if b.len() == 0 {
        Seq::empty()
    } else {
        hex_of(b.drop_last()) + seq![hex_digit(b.last() / 16), hex_digit(b.last() % 16)]
    }
}

/// Relies on hex::encode: lowercase hexadecimal, two digits per byte, high half first.
#[verifier::external_body]
fn encode_hex(bytes: &Vec<u8>) -> (r: String)
    ensures
        r@ == hex_of(bytes@),
{
    hex::encode(bytes)
}

/// The seed of the data-availability client, from the plaintext that the key service decrypted:
/// the plaintext in hexadecimal.
pub fn seed_from_plaintext(plaintext: &Vec<u8>) -> (r: String)
    ensures
        r@ == hex_of(plaintext@),
{
    encode_hex(plaintext)
}

/// Whether a transaction of this type is signed with the chain id folded into `v`: a legacy
/// transaction, of type 0 or of no stated type.
pub open spec fn folds_chain_id(transaction_type: Option<u64>) -> bool {
    transaction_type is None || transaction_type == Some(0u64)
}

/// The `v` of a transaction signature from the recovery id `v` that the key service returned:
/// `v + 2 * chain_id + 35` for a legacy transaction, `v` itself otherwise. None if the sum
/// does not fit in 64 bits.
pub fn transaction_signature_v(v: u64, chain_id: u64, transaction_type: Option<u64>) -> (r: Option<u64>)
    ensures
        folds_chain_id(transaction_type) ==> r == if v + 2 * chain_id + 35 <= u64::MAX {
            Some((v + 2 * chain_id + 35) as u64)
        } else {
            None::<u64>
        },
        !folds_chain_id(transaction_type) ==> r == Some(v),
{
    let legacy = match transaction_type {
        Some(t) => t == 0,
        None => true,
    };
    if !legacy {
        return Some(v);
    }
    if chain_id > (u64::MAX - 35) / 2 {
        return None;
    }
    let folded = 2 * chain_id + 35;
    if v > u64::MAX - folded {
        return None;
    }
    Some(v + folded)
}

/// The `v` byte of a typed-data signature from the recovery id `v` that the key service
/// returned; none if it does not fit in a byte.
pub fn typed_data_signature_v(v: u64) -> (r: Option<u8>)
    ensures
        r == if v <= u8::MAX {
            Some(v as u8)
        } else {
            None::<u8>
        },
{
    if v <= u8::MAX as u64 {
        Some(v as u8)
    } else {
        None
    }
}

} // verus!
