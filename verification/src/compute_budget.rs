//! The byte format of the compute-budget program's instructions.
//!
//! An instruction's data is one tag byte followed by little-endian fields;
//! trailing bytes are ignored, as the on-chain program does. Two encodings
//! matter to fee derivation: the current "set unit limit" / "set unit price"
//! pair, and the legacy "request units" form that bundles a unit count with
//! a flat additional fee.

use vstd::prelude::*;

verus! {

/// One decoded instruction of the compute-budget program.
#[derive(Clone, Copy, Debug, PartialEq, Eq, Structural)]
pub enum ComputeBudgetInstruction {
    /// Legacy form: a unit count and a flat additional fee.
    RequestUnitsDeprecated { units: u32, additional_fee: u32 },
    RequestHeapFrame(u32),
    SetComputeUnitLimit(u32),
    SetComputeUnitPrice(u64),
}

/// The little-endian 32-bit value at offset `off`.
pub open spec fn le_u32_at(b: Seq<u8>, off: int) -> u32
    recommends
        0 <= off,
        off + 4 <= b.len(),
{
    (b[off] + b[off + 1] * 0x100 + b[off + 2] * 0x1_0000 + b[off + 3] * 0x100_0000) as u32
}

/// The little-endian 64-bit value at offset `off`.
pub open spec fn le_u64_at(b: Seq<u8>, off: int) -> u64
    recommends
        0 <= off,
        off + 8 <= b.len(),
{
    (b[off] + b[off + 1] * 0x100 + b[off + 2] * 0x1_0000 + b[off + 3] * 0x100_0000 + b[off + 4]
        * 0x1_0000_0000 + b[off + 5] * 0x100_0000_0000 + b[off + 6] * 0x1_0000_0000_0000 + b[off
        + 7] * 0x100_0000_0000_0000) as u64
}

/// What instruction data decodes to: a tag byte picks the variant, the
/// fields follow little-endian, and anything short, unknown or absent
/// decodes to nothing.
pub open spec fn parse_compute_budget_spec(data: Seq<u8>) -> Option<ComputeBudgetInstruction> {
    if data.len() < 1 {
        None
    } else if data[0] == 0 {
        if data.len() >= 9 {
            Some(
                ComputeBudgetInstruction::RequestUnitsDeprecated {
                    units: le_u32_at(data, 1),
                    additional_fee: le_u32_at(data, 5),
                },
            )
        } else {
            None
        }
    } else if data[0] == 1 {
        if data.len() >= 5 {
            Some(ComputeBudgetInstruction::RequestHeapFrame(le_u32_at(data, 1)))
        } else {
            None
        }
    } else if data[0] == 2 {
        if data.len() >= 5 {
            Some(ComputeBudgetInstruction::SetComputeUnitLimit(le_u32_at(data, 1)))
        } else {
            None
        }
    } else if data[0] == 3 {
        if data.len() >= 9 {
            Some(ComputeBudgetInstruction::SetComputeUnitPrice(le_u64_at(data, 1)))
        } else {
            None
        }
    } else {
        None
    }
}

/// The little-endian 32-bit value at offset `off`.
fn read_u32_le(data: &Vec<u8>, off: usize) -> (r: u32)
    requires
        off + 4 <= data@.len(),
    ensures
        r == le_u32_at(data@, off as int),
{
    proof {
        vstd::std_specs::vec::axiom_spec_len(data);
    }
    (data[off] as u32) + (data[off + 1] as u32) * 0x100 + (data[off + 2] as u32) * 0x1_0000 + (
    data[off + 3] as u32) * 0x100_0000
}

/// The little-endian 64-bit value at offset `off`.
fn read_u64_le(data: &Vec<u8>, off: usize) -> (r: u64)
    requires
        off + 8 <= data@.len(),
    ensures
        r == le_u64_at(data@, off as int),
{
    proof {
        vstd::std_specs::vec::axiom_spec_len(data);
    }
    (data[off] as u64) + (data[off + 1] as u64) * 0x100 + (data[off + 2] as u64) * 0x1_0000 + (
    data[off + 3] as u64) * 0x100_0000 + (data[off + 4] as u64) * 0x1_0000_0000 + (data[off
        + 5] as u64) * 0x100_0000_0000 + (data[off + 6] as u64) * 0x1_0000_0000_0000 + (data[off
        + 7] as u64) * 0x100_0000_0000_0000
}

/// Decodes one instruction of the compute-budget program.
pub fn parse_compute_budget_instruction(data: &Vec<u8>) -> (r: Option<ComputeBudgetInstruction>)
    ensures
        r == parse_compute_budget_spec(data@),
{
    if data.len() == 0 {
        return None;
    }
    let tag = data[0];
    if tag == 0 {
        if data.len() >= 9 {
            Some(
                ComputeBudgetInstruction::RequestUnitsDeprecated {
                    units: read_u32_le(data, 1),
                    additional_fee: read_u32_le(data, 5),
                },
            )
        } else {
            None
        }
    } else if tag == 1 {
        if data.len() >= 5 {
            Some(ComputeBudgetInstruction::RequestHeapFrame(read_u32_le(data, 1)))
        } else {
            None
        }
    } else if tag == 2 {
        if data.len() >= 5 {
            Some(ComputeBudgetInstruction::SetComputeUnitLimit(read_u32_le(data, 1)))
        } else {
            None
        }
    } else if tag == 3 {
        if data.len() >= 9 {
            Some(ComputeBudgetInstruction::SetComputeUnitPrice(read_u64_le(data, 1)))
        } else {
            None
        }
    } else {
        None
    }
}

} // verus!
