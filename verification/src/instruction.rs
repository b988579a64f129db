//! Decoding of the ledger's wire commands.
//!
//! A command arrives as an opaque byte string: one selector byte
//! followed by a little-endian `u64` operand.  The boundary layer that
//! owns the transport hands the bytes in and dispatches on the decoded
//! instruction; bytes that do not form a command (too short, or an
//! unassigned selector) decode to `None` and are the boundary layer's
//! to report.

use vstd::prelude::*;
use vstd::bytes::{spec_u64_from_le_bytes, u64_from_le_bytes};
use vstd::slice::{slice_index_get, slice_subrange};

verus! {

/// One decoded command: the ledger transition to perform and its
/// operand.
#[derive(Clone, Copy, Debug, PartialEq, Eq, Structural)]
pub enum LedgerInstruction {
    /// Deposit the given number of tokens.
    Deposit(u64),
    /// Redeem the given number of shares.
    Withdraw(u64),
    /// Add the given number of tokens as yield.
    Reward(u64),
    /// Remove the given number of tokens to cover a loss.
    Slash(u64),
}

/// The command a byte string encodes: byte 0 selects the transition,
/// bytes 1 through 8 carry the operand in little-endian order, and any
/// trailing bytes are ignored.
pub open spec fn spec_parse_instruction(data: Seq<u8>) -> Option<LedgerInstruction> {
    if data.len() < 9 {
        None
    } else {
        let operand = spec_u64_from_le_bytes(data.subrange(1, 9));
        if data[0] == 0 {
            Some(LedgerInstruction::Deposit(operand))
        } else if data[0] == 1 {
            Some(LedgerInstruction::Withdraw(operand))
        } else if data[0] == 2 {
            Some(LedgerInstruction::Reward(operand))
        } else if data[0] == 3 {
            Some(LedgerInstruction::Slash(operand))
        } else {
            None
        }
    }
}

/// Decodes a command from its byte string, or reports `None` where the
/// bytes form no command.
pub fn parse_instruction(data: &[u8]) -> (r: Option<LedgerInstruction>)
    ensures
        r == spec_parse_instruction(data@),
{
    if data.len() < 9 {
        return None;
    }
    let selector: u8 = *slice_index_get(data, 0);
    let operand: u64 = u64_from_le_bytes(slice_subrange(data, 1, 9));
    if selector == 0 {
        Some(LedgerInstruction::Deposit(operand))
    } else if selector == 1 {
        Some(LedgerInstruction::Withdraw(operand))
    } else if selector == 2 {
        Some(LedgerInstruction::Reward(operand))
    } else if selector == 3 {
        Some(LedgerInstruction::Slash(operand))
    } else {
        None
    }
}

} // verus!
