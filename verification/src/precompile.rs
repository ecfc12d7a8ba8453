//! Which addresses hold a precompiled contract.

use vstd::prelude::*;
use vstd::string::*;
use crate::number::{number, parse_u64};
use crate::parity::{
    linear_pricing, linear_pricing_view, opt_builtin, ParityBuiltin, ParityBuiltinView,
};

verus! {

/// `address` without a leading `0x`.
pub open spec fn without_prefix(address: Seq<char>) -> Seq<char> {
    if address.len() >= 2 && address[0] == '0' && address[1] == 'x' {
        address.subrange(2, address.len() as int)
    } else {
        address
    }
}

/// The number that `address` denotes: what follows an optional `0x`, read as
/// hexadecimal digits.
pub open spec fn address_number(address: Seq<char>) -> Option<nat> {
    number(without_prefix(address), 16)
}

/// A precompiled contract with a linear cost.
pub open spec fn linear_builtin(name: Seq<char>, base: u64, word: u64) -> ParityBuiltinView {
    ParityBuiltinView { name, pricing: linear_pricing_view(base, word) }
}

/// The precompiled contract that stands at the address with the given
/// number: the numbers 1 to 4 hold one each, no other number does.
pub open spec fn precompile_at(n: Option<nat>) -> Option<ParityBuiltinView> {
    if n == Some(1nat) {
        Some(linear_builtin("ecrecover"@, 3000, 0))
    } else if n == Some(2nat) {
        Some(linear_builtin("sha256"@, 60, 12))
    } else if n == Some(3nat) {
        Some(linear_builtin("ripemd160"@, 600, 120))
    } else if n == Some(4nat) {
        Some(linear_builtin("identity"@, 15, 3))
    } else {
        None
    }
}

/// The precompiled contract with the given name and linear cost.
fn builtin(name: &str, base: u64, word: u64) -> (b: ParityBuiltin)
    ensures
        b@ == linear_builtin(name@, base, word),
{
    ParityBuiltin { name: name.to_owned(), pricing: linear_pricing(base, word) }
}

/// The precompiled contract that stands at `address`, if there is one: the
/// addresses that denote 1, 2, 3 and 4 hold `ecrecover`, `sha256`,
/// `ripemd160` and `identity`; an address that denotes another number, or
/// none, holds nothing.
pub fn builtin_from_address(address: String) -> (found: Option<ParityBuiltin>)
    ensures
        opt_builtin(found) == precompile_at(address_number(address@)),
{
    let text = address.as_str();
    let n: usize = text.unicode_len();
    let digits = if n >= 2 && text.get_char(0) == '0' && text.get_char(1) == 'x' {
        text.substring_char(2, n)
    } else {
        text
    };
    match parse_u64(digits, 16) {
        Some(1) => Some(builtin("ecrecover", 3000, 0)),
        Some(2) => Some(builtin("sha256", 60, 12)),
        Some(3) => Some(builtin("ripemd160", 600, 120)),
        Some(4) => Some(builtin("identity", 15, 3)),
        _ => None,
    }
}

} // verus!
