use vstd::prelude::*;

verus! {

/// T-states of each opcode of the base page. A conditional jump, call or return that
/// is taken adds to its entry; the entries of the prefix bytes count the prefix alone.
pub const CYCLES: [u8; 256] = [
     4, 10,  7,  6,  4,  4,  7,  4,  4, 11,  7,  6,  4,  4,  7,  4,
     8, 10,  7,  6,  4,  4,  7,  4, 12, 11,  7,  6,  4,  4,  7,  4,
     7, 10, 16,  6,  4,  4,  7,  4,  7, 11, 16,  6,  4,  4,  7,  4,
     7, 10, 13,  6, 11, 11, 10,  4,  7, 11, 13,  6,  4,  4,  7,  4,
     4,  4,  4,  4,  4,  4,  7,  4,  4,  4,  4,  4,  4,  4,  7,  4,
     4,  4,  4,  4,  4,  4,  7,  4,  4,  4,  4,  4,  4,  4,  7,  4,
     4,  4,  4,  4,  4,  4,  7,  4,  4,  4,  4,  4,  4,  4,  7,  4,
     7,  7,  7,  7,  7,  7,  4,  7,  4,  4,  4,  4,  4,  4,  7,  4,
     4,  4,  4,  4,  4,  4,  7,  4,  4,  4,  4,  4,  4,  4,  7,  4,
     4,  4,  4,  4,  4,  4,  7,  4,  4,  4,  4,  4,  4,  4,  7,  4,
     4,  4,  4,  4,  4,  4,  7,  4,  4,  4,  4,  4,  4,  4,  7,  4,
     4,  4,  4,  4,  4,  4,  7,  4,  4,  4,  4,  4,  4,  4,  7,  4,
     5, 10, 10, 10, 10, 11,  7, 11,  5, 10, 10,  0, 10, 17,  7, 11,
     5, 10, 10, 11, 10, 11,  7, 11,  5,  4, 10, 11, 10,  4,  7, 11,
     5, 10, 10, 19, 10, 11,  7, 11,  5,  4, 10,  4, 10,  4,  7, 11,
     5, 10, 10,  4, 10, 11,  7, 11,  5,  6, 10,  4, 10,  4,  7, 11,
];

/// T-states of each opcode of the CB page, prefix included.
pub const CYCLES_CB: [u8; 256] = [
    8, 8, 8, 8, 8, 8, 15, 8, 8, 8, 8, 8, 8, 8, 15, 8,
    8, 8, 8, 8, 8, 8, 15, 8, 8, 8, 8, 8, 8, 8, 15, 8,
    8, 8, 8, 8, 8, 8, 15, 8, 8, 8, 8, 8, 8, 8, 15, 8,
    8, 8, 8, 8, 8, 8, 15, 8, 8, 8, 8, 8, 8, 8, 15, 8,
    8, 8, 8, 8, 8, 8, 12, 8, 8, 8, 8, 8, 8, 8, 12, 8,
    8, 8, 8, 8, 8, 8, 12, 8, 8, 8, 8, 8, 8, 8, 12, 8,
    8, 8, 8, 8, 8, 8, 12, 8, 8, 8, 8, 8, 8, 8, 12, 8,
    8, 8, 8, 8, 8, 8, 12, 8, 8, 8, 8, 8, 8, 8, 12, 8,
    8, 8, 8, 8, 8, 8, 15, 8, 8, 8, 8, 8, 8, 8, 15, 8,
    8, 8, 8, 8, 8, 8, 15, 8, 8, 8, 8, 8, 8, 8, 15, 8,
    8, 8, 8, 8, 8, 8, 15, 8, 8, 8, 8, 8, 8, 8, 15, 8,
    8, 8, 8, 8, 8, 8, 15, 8, 8, 8, 8, 8, 8, 8, 15, 8,
    8, 8, 8, 8, 8, 8, 15, 8, 8, 8, 8, 8, 8, 8, 15, 8,
    8, 8, 8, 8, 8, 8, 15, 8, 8, 8, 8, 8, 8, 8, 15, 8,
    8, 8, 8, 8, 8, 8, 15, 8, 8, 8, 8, 8, 8, 8, 15, 8,
    8, 8, 8, 8, 8, 8, 15, 8, 8, 8, 8, 8, 8, 8, 15, 8,
];

/// T-states of each opcode of the ED page, on top of the entry of the ED prefix in
/// `CYCLES`. Opcodes that the processor ignores have the entry 0.
pub const CYCLES_ED: [u8; 256] = [
     0,  0,  0,  0, 0,  0,  0,  0,  0,  0,  0,  0,  0,  0,  0,  0,
     0,  0,  0,  0, 0,  0,  0,  0,  0,  0,  0,  0,  0,  0,  0,  0,
     0,  0,  0,  0, 0,  0,  0,  0,  0,  0,  0,  0,  0,  0,  0,  0,
     0,  0,  0,  0, 0,  0,  0,  0,  0,  0,  0,  0,  0,  0,  0,  0,
     8,  8, 11, 16, 4, 10,  4,  5,  8,  8, 11, 16,  4, 10,  4,  5,
     8,  8, 11, 16, 4, 10,  4,  5,  8,  8, 11, 16,  4, 10,  4,  5,
     8,  8, 11, 16, 4, 10,  4, 14,  8,  8, 11, 16,  4, 10,  4, 14,
     8,  8, 11, 16, 4, 10,  4,  4,  8,  8, 11, 16,  4, 10,  4,  4,
     0,  0,  0,  0, 0,  0,  0,  0,  0,  0,  0,  0,  0,  0,  0,  0,
     0,  0,  0,  0, 0,  0,  0,  0,  0,  0,  0,  0,  0,  0,  0,  0,
    12, 12, 12, 12, 0,  0,  0,  0, 12, 12, 12, 12,  0,  0,  0,  0,
    12, 12, 12, 12, 0,  0,  0,  0, 12, 12, 12, 12,  0,  0,  0,  0,
     0,  0,  0,  0, 0,  0,  0,  0,  0,  0,  0,  0,  0,  0,  0,  0,
     0,  0,  0,  0, 0,  0,  0,  0,  0,  0,  0,  0,  0,  0,  0,  0,
     0,  0,  0,  0, 0,  0,  0,  0,  0,  0,  0,  0,  0,  0,  0,  0,
     0,  0,  0,  0, 0,  0,  0,  0,  0,  0,  0,  0,  0,  0,  0,  0,
];

/// T-states that a DD or FD prefix adds to the base-page entry of the opcode it
/// prefixes.
pub const CYCLES_DD_FD: [u8; 256] = [
     4,  4,  4,  4,  4,  4,  4,  4,  4,  4,  4,  4,  4,  4,  4,  4,
     4,  4,  4,  4,  4,  4,  4,  4,  4,  4,  4,  4,  4,  4,  4,  4,
     4,  4,  4,  4,  4,  4,  4,  4,  4,  4,  4,  4,  4,  4,  4,  4,
     4,  4,  4,  4, 12, 12,  9,  4,  4,  4,  4,  4,  4,  4,  4,  4,
     4,  4,  4,  4,  4,  4, 12,  4,  4,  4,  4,  4,  4,  4, 12,  4,
     4,  4,  4,  4,  4,  4, 12,  4,  4,  4,  4,  4,  4,  4, 12,  4,
     4,  4,  4,  4,  4,  4, 12,  4,  4,  4,  4,  4,  4,  4, 12,  4,
    12, 12, 12, 12, 12, 12,  4, 12,  4,  4,  4,  4,  4,  4, 12,  4,
     4,  4,  4,  4,  4,  4, 12,  4,  4,  4,  4,  4,  4,  4, 12,  4,
     4,  4,  4,  4,  4,  4, 12,  4,  4,  4,  4,  4,  4,  4, 12,  4,
     4,  4,  4,  4,  4,  4, 12,  4,  4,  4,  4,  4,  4,  4, 12,  4,
     4,  4,  4,  4,  4,  4, 12,  4,  4,  4,  4,  4,  4,  4, 12,  4,
     4,  4,  4,  4,  4,  4,  4,  4,  4,  4,  4,  0,  4,  4,  4,  4,
     4,  4,  4,  4,  4,  4,  4,  4,  4,  4,  4,  4,  4,  4,  4,  4,
     4,  4,  4,  4,  4,  4,  4,  4,  4,  4,  4,  4,  4,  4,  4,  4,
     4,  4,  4,  4,  4,  4,  4,  4,  4,  4,  4,  4,  4,  4,  4,  4,
];

/// T-states that a DD or FD prefix adds to the CB-page entry of an indexed bit
/// operation.
pub const CYCLES_DD_FD_CB: [u8; 256] = [
    15, 15, 15, 15, 15, 15,  8, 15, 15, 15, 15, 15, 15, 15,  8, 15,
    15, 15, 15, 15, 15, 15,  8, 15, 15, 15, 15, 15, 15, 15,  8, 15,
    15, 15, 15, 15, 15, 15,  8, 15, 15, 15, 15, 15, 15, 15,  8, 15,
    15, 15, 15, 15, 15, 15,  8, 15, 15, 15, 15, 15, 15, 15,  8, 15,
    12, 12, 12, 12, 12, 12,  8, 12, 12, 12, 12, 12, 12, 12,  8, 12,
    12, 12, 12, 12, 12, 12,  8, 12, 12, 12, 12, 12, 12, 12,  8, 12,
    12, 12, 12, 12, 12, 12,  8, 12, 12, 12, 12, 12, 12, 12,  8, 12,
    12, 12, 12, 12, 12, 12,  8, 12, 12, 12, 12, 12, 12, 12,  8, 12,
    15, 15, 15, 15, 15, 15,  8, 15, 15, 15, 15, 15, 15, 15,  8, 15,
    15, 15, 15, 15, 15, 15,  8, 15, 15, 15, 15, 15, 15, 15,  8, 15,
    15, 15, 15, 15, 15, 15,  8, 15, 15, 15, 15, 15, 15, 15,  8, 15,
    15, 15, 15, 15, 15, 15,  8, 15, 15, 15, 15, 15, 15, 15,  8, 15,
    15, 15, 15, 15, 15, 15,  8, 15, 15, 15, 15, 15, 15, 15,  8, 15,
    15, 15, 15, 15, 15, 15,  8, 15, 15, 15, 15, 15, 15, 15,  8, 15,
    15, 15, 15, 15, 15, 15,  8, 15, 15, 15, 15, 15, 15, 15,  8, 15,
    15, 15, 15, 15, 15, 15,  8, 15, 15, 15, 15, 15, 15, 15,  8, 15,
];

/// The base-page entry of `op`.
#[verifier::opaque]
pub open spec fn base_entry(op: u8) -> int {
    CYCLES[op as int] as int
}

/// What a DD or FD prefix adds to the base-page entry of `op`.
#[verifier::opaque]
pub open spec fn index_entry(op: u8) -> int {
    CYCLES_DD_FD[op as int] as int
}

/// The CB-page entry of `op`.
#[verifier::opaque]
pub open spec fn cb_entry(op: u8) -> int {
    CYCLES_CB[op as int] as int
}

/// What a DD or FD prefix adds to the CB-page entry of `op`.
#[verifier::opaque]
pub open spec fn index_cb_entry(op: u8) -> int {
    CYCLES_DD_FD_CB[op as int] as int
}

/// The ED-page entry of `op`.
#[verifier::opaque]
pub open spec fn ed_entry(op: u8) -> int {
    CYCLES_ED[op as int] as int
}

/// Looks up the base-page entry of `op`.
pub fn base_cycles(op: u8) -> (cycles: u8)
    ensures
        cycles == base_entry(op),
        cycles <= 19,
{
    reveal(base_entry);
    CYCLES[op as usize]
}

/// Looks up what a DD or FD prefix adds to the base-page entry of `op`.
pub fn index_cycles(op: u8) -> (cycles: u8)
    ensures
        cycles == index_entry(op),
        cycles <= 12,
{
    reveal(index_entry);
    CYCLES_DD_FD[op as usize]
}

/// Looks up the CB-page entry of `op`.
pub fn cb_cycles(op: u8) -> (cycles: u8)
    ensures
        cycles == cb_entry(op),
        cycles <= 15,
{
    reveal(cb_entry);
    CYCLES_CB[op as usize]
}

/// Looks up what a DD or FD prefix adds to the CB-page entry of `op`.
pub fn index_cb_cycles(op: u8) -> (cycles: u8)
    ensures
        cycles == index_cb_entry(op),
        cycles <= 15,
{
    reveal(index_cb_entry);
    CYCLES_DD_FD_CB[op as usize]
}

/// Looks up the ED-page entry of `op`.
pub fn ed_cycles(op: u8) -> (cycles: u8)
    ensures
        cycles == ed_entry(op),
        cycles <= 16,
{
    reveal(ed_entry);
    CYCLES_ED[op as usize]
}

} // verus!
