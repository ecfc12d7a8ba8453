//! What the operator enters at the prompts: the network identifier and the
//! start nonce, each as a line of text holding a decimal number.
//!
//! The network identifier is asked for only where the source configures no
//! chain identifier, and an entry that is no number stops the run. The start
//! nonce is always asked for, and an entry that is no number leaves the
//! accounts without a nonce.

use vstd::prelude::*;
use crate::error::TranslationError;
use crate::geth::GethSpec;
use crate::number::{number_u64, parse_u64, push_upper_hex, upper_hex};
use crate::text::{opt_text, trim, trimmed};

verus! {

/// The number that a line stands for: the line without the white space
/// around it, read as a decimal number of 64 bits.
pub open spec fn entry_number(entry: Seq<char>) -> Option<u64> {
    number_u64(trimmed(entry), 10)
}

/// The network identifier that a line stands for.
pub open spec fn network_id_of(entry: Seq<char>) -> Result<u64, TranslationError> {
    match entry_number(entry) {
        Some(id) => Ok(id),
        None => Err(TranslationError::InputConversion),
    }
}

/// The start nonce that a line stands for: the number in upper-case
/// hexadecimal behind `0x`, or none where the line holds no number.
pub open spec fn start_nonce_of(entry: Seq<char>) -> Option<Seq<char>> {
    match entry_number(entry) {
        Some(nonce) => Some("0x"@ + upper_hex(nonce as nat)),
        None => None,
    }
}

/// The chain identifier that the source configures, if it configures one.
/// Where it does, the operator is not asked for a network identifier.
pub fn configured_chain_id(geth_spec: &GethSpec) -> (id: Option<u64>)
    ensures
        id == match geth_spec.config {
            Some(config) => config.chainId,
            None => None,
        },
{
    match &geth_spec.config {
        Some(config) => config.chainId,
        None => None,
    }
}

/// Reads the operator's entry for the network identifier. An entry that is
/// not an unsigned decimal number of 64 bits is an error.
pub fn network_id_from_entry(entry: &str) -> (id: Result<u64, TranslationError>)
    ensures
        id == network_id_of(entry@),
{
    match parse_u64(trim(entry), 10) {
        Some(id) => Ok(id),
        None => Err(TranslationError::InputConversion),
    }
}

/// Reads the operator's entry for the start nonce and writes it the way the
/// chain description holds it. An entry that is not an unsigned decimal
/// number of 64 bits gives no nonce.
pub fn start_nonce_from_entry(entry: &str) -> (nonce: Option<String>)
    ensures
        opt_text(nonce) == start_nonce_of(entry@),
{
    match parse_u64(trim(entry), 10) {
        Some(number) => {
            let mut text = "0x".to_owned();
            push_upper_hex(&mut text, number);
            Some(text)
        },
        None => None,
    }
}

} // verus!
