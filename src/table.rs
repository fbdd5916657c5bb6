use vstd::prelude::*;

verus! {

/// A test on one status byte.
#[derive(Clone, Copy, Debug, PartialEq, Eq, Structural)]
pub enum BytePattern {
    /// The byte holds exactly this value.
    Is(u8),
    /// Any value.
    Any,
}

impl BytePattern {
    pub open spec fn accepts(self, b: u8) -> bool {
        match self {
            BytePattern::Is(v) => v == b,
            BytePattern::Any => true,
        }
    }

    pub fn test(&self, b: u8) -> (r: bool)
        ensures
            r == self.accepts(b),
    {
        match self {
            BytePattern::Is(v) => *v == b,
            BytePattern::Any => true,
        }
    }
}

/// One row of the diagnostic table: a pattern on each status byte and the
/// defect that a pair matching both stands for.
#[derive(Clone, Copy, Debug)]
pub struct DiagnosticEntry {
    pub first: BytePattern,
    pub second: BytePattern,
    pub text: &'static str,
}

impl DiagnosticEntry {
    pub open spec fn matches(self, b1: u8, b2: u8) -> bool {
        self.first.accepts(b1) && self.second.accepts(b2)
    }

    pub fn test(&self, b1: u8, b2: u8) -> (r: bool)
        ensures
            r == self.matches(b1, b2),
    {
        self.first.test(b1) && self.second.test(b2)
    }
}

/// The entry for a code recorded in the first status byte.
pub open spec fn spec_on_first(code: u8, text: &'static str) -> DiagnosticEntry {
    DiagnosticEntry { first: BytePattern::Is(code), second: BytePattern::Any, text }
}

/// The entry for a code recorded in the second status byte.
pub open spec fn spec_on_second(code: u8, text: &'static str) -> DiagnosticEntry {
    DiagnosticEntry { first: BytePattern::Any, second: BytePattern::Is(code), text }
}

#[verifier::when_used_as_spec(spec_on_first)]
pub fn on_first(code: u8, text: &'static str) -> (e: DiagnosticEntry)
    ensures
        e == spec_on_first(code, text),
{
    DiagnosticEntry { first: BytePattern::Is(code), second: BytePattern::Any, text }
}

#[verifier::when_used_as_spec(spec_on_second)]
pub fn on_second(code: u8, text: &'static str) -> (e: DiagnosticEntry)
    ensures
        e == spec_on_second(code, text),
{
    DiagnosticEntry { first: BytePattern::Any, second: BytePattern::Is(code), text }
}

/// Branch instructions: taken and not taken.
pub open spec fn branch_tests() -> Seq<DiagnosticEntry> {
    seq![
        on_first(0x01, "BCS failed to branch"),
        on_first(0x02, "BCS branched when it shouldn't have"),
        on_first(0x03, "BCC branched when it shouldn't have"),
        on_first(0x04, "BCC failed to branch"),
        on_first(0x05, "BEQ failed to branch"),
        on_first(0x06, "BEQ branched when it shouldn't have"),
        on_first(0x07, "BNE failed to branch"),
        on_first(0x08, "BNE branched when it shouldn't have"),
        on_first(0x09, "BVS failed to branch"),
        on_first(0x0A, "BVC branched when it shouldn't have"),
        on_first(0x0B, "BVC failed to branch"),
        on_first(0x0C, "BVS branched when it shouldn't have"),
        on_first(0x0D, "BPL failed to branch"),
        on_first(0x0E, "BPL branched when it shouldn't have"),
        on_first(0x0F, "BMI failed to branch"),
        on_first(0x10, "BMI branched when it shouldn't have"),
    ]
}

fn branch_tests_exec() -> (v: Vec<DiagnosticEntry>)
    ensures
        v@ == branch_tests(),
{
    vec![
        on_first(0x01, "BCS failed to branch"),
        on_first(0x02, "BCS branched when it shouldn't have"),
        on_first(0x03, "BCC branched when it shouldn't have"),
        on_first(0x04, "BCC failed to branch"),
        on_first(0x05, "BEQ failed to branch"),
        on_first(0x06, "BEQ branched when it shouldn't have"),
        on_first(0x07, "BNE failed to branch"),
        on_first(0x08, "BNE branched when it shouldn't have"),
        on_first(0x09, "BVS failed to branch"),
        on_first(0x0A, "BVC branched when it shouldn't have"),
        on_first(0x0B, "BVC failed to branch"),
        on_first(0x0C, "BVS branched when it shouldn't have"),
        on_first(0x0D, "BPL failed to branch"),
        on_first(0x0E, "BPL branched when it shouldn't have"),
        on_first(0x0F, "BMI failed to branch"),
        on_first(0x10, "BMI branched when it shouldn't have"),
    ]
}

/// Pushing and pulling the status flags.
pub open spec fn flag_tests() -> Seq<DiagnosticEntry> {
    seq![
        on_first(0x11, "PHP/flags failure (bits set)"),
        on_first(0x12, "PHP/flags failure (bits clear)"),
        on_first(0x13, "PHP/flags failure (misc bit states)"),
        on_first(0x14, "PLP/flags failure (misc bit states)"),
        on_first(0x15, "PLP/flags failure (misc bit states)"),
        on_first(0x16, "PHA/PLA failure (PLA didn't affect Z and N properly)"),
        on_first(0x17, "PHA/PLA failure (PLA didn't affect Z and N properly)"),
    ]
}

fn flag_tests_exec() -> (v: Vec<DiagnosticEntry>)
    ensures
        v@ == flag_tests(),
{
    vec![
        on_first(0x11, "PHP/flags failure (bits set)"),
        on_first(0x12, "PHP/flags failure (bits clear)"),
        on_first(0x13, "PHP/flags failure (misc bit states)"),
        on_first(0x14, "PLP/flags failure (misc bit states)"),
        on_first(0x15, "PLP/flags failure (misc bit states)"),
        on_first(0x16, "PHA/PLA failure (PLA didn't affect Z and N properly)"),
        on_first(0x17, "PHA/PLA failure (PLA didn't affect Z and N properly)"),
    ]
}

/// Immediate-mode arithmetic, compare and load instructions.
pub open spec fn immediate_tests() -> Seq<DiagnosticEntry> {
    seq![
        on_first(0x18, "ORA # failure"),
        on_first(0x19, "ORA # failure"),
        on_first(0x1A, "AND # failure"),
        on_first(0x1B, "AND # failure"),
        on_first(0x1C, "EOR # failure"),
        on_first(0x1D, "EOR # failure"),
        on_first(0x1E, "ADC # failure (overflow/carry problems)"),
        on_first(0x1F, "ADC # failure (decimal mode was turned on)"),
        on_first(0x20, "ADC # failure"),
        on_first(0x21, "ADC # failure"),
        on_first(0x22, "ADC # failure"),
        on_first(0x23, "LDA # failure (didn't set N and Z correctly)"),
        on_first(0x24, "LDA # failure (didn't set N and Z correctly)"),
        on_first(0x25, "CMP # failure (messed up flags)"),
        on_first(0x26, "CMP # failure (messed up flags)"),
        on_first(0x27, "CMP # failure (messed up flags)"),
        on_first(0x28, "CMP # failure (messed up flags)"),
        on_first(0x29, "CMP # failure (messed up flags)"),
        on_first(0x2A, "CMP # failure (messed up flags)"),
        on_first(0x2B, "CPY # failure (messed up flags)"),
        on_first(0x2C, "CPY # failure (messed up flags)"),
        on_first(0x2D, "CPY # failure (messed up flags)"),
        on_first(0x2E, "CPY # failure (messed up flags)"),
        on_first(0x2F, "CPY # failure (messed up flags)"),
        on_first(0x30, "CPY # failure (messed up flags)"),
        on_first(0x31, "CPY # failure (messed up flags)"),
        on_first(0x32, "CPX # failure (messed up flags)"),
        on_first(0x33, "CPX # failure (messed up flags)"),
        on_first(0x34, "CPX # failure (messed up flags)"),
        on_first(0x35, "CPX # failure (messed up flags)"),
        on_first(0x36, "CPX # failure (messed up flags)"),
        on_first(0x37, "CPX # failure (messed up flags)"),
        on_first(0x38, "CPX # failure (messed up flags)"),
        on_first(0x39, "LDX # failure (didn't set N and Z correctly)"),
        on_first(0x3A, "LDX # failure (didn't set N and Z correctly)"),
        on_first(0x3B, "LDY # failure (didn't set N and Z correctly)"),
        on_first(0x3C, "LDY # failure (didn't set N and Z correctly)"),
        on_first(0x3D, "compare(s) stored the result in a register (whoops!)"),
        on_first(0x71, "SBC # failure"),
        on_first(0x72, "SBC # failure"),
        on_first(0x73, "SBC # failure"),
        on_first(0x74, "SBC # failure"),
        on_first(0x75, "SBC # failure"),
    ]
}

fn immediate_tests_exec() -> (v: Vec<DiagnosticEntry>)
    ensures
        v@ == immediate_tests(),
{
    vec![
        on_first(0x18, "ORA # failure"),
        on_first(0x19, "ORA # failure"),
        on_first(0x1A, "AND # failure"),
        on_first(0x1B, "AND # failure"),
        on_first(0x1C, "EOR # failure"),
        on_first(0x1D, "EOR # failure"),
        on_first(0x1E, "ADC # failure (overflow/carry problems)"),
        on_first(0x1F, "ADC # failure (decimal mode was turned on)"),
        on_first(0x20, "ADC # failure"),
        on_first(0x21, "ADC # failure"),
        on_first(0x22, "ADC # failure"),
        on_first(0x23, "LDA # failure (didn't set N and Z correctly)"),
        on_first(0x24, "LDA # failure (didn't set N and Z correctly)"),
        on_first(0x25, "CMP # failure (messed up flags)"),
        on_first(0x26, "CMP # failure (messed up flags)"),
        on_first(0x27, "CMP # failure (messed up flags)"),
        on_first(0x28, "CMP # failure (messed up flags)"),
        on_first(0x29, "CMP # failure (messed up flags)"),
        on_first(0x2A, "CMP # failure (messed up flags)"),
        on_first(0x2B, "CPY # failure (messed up flags)"),
        on_first(0x2C, "CPY # failure (messed up flags)"),
        on_first(0x2D, "CPY # failure (messed up flags)"),
        on_first(0x2E, "CPY # failure (messed up flags)"),
        on_first(0x2F, "CPY # failure (messed up flags)"),
        on_first(0x30, "CPY # failure (messed up flags)"),
        on_first(0x31, "CPY # failure (messed up flags)"),
        on_first(0x32, "CPX # failure (messed up flags)"),
        on_first(0x33, "CPX # failure (messed up flags)"),
        on_first(0x34, "CPX # failure (messed up flags)"),
        on_first(0x35, "CPX # failure (messed up flags)"),
        on_first(0x36, "CPX # failure (messed up flags)"),
        on_first(0x37, "CPX # failure (messed up flags)"),
        on_first(0x38, "CPX # failure (messed up flags)"),
        on_first(0x39, "LDX # failure (didn't set N and Z correctly)"),
        on_first(0x3A, "LDX # failure (didn't set N and Z correctly)"),
        on_first(0x3B, "LDY # failure (didn't set N and Z correctly)"),
        on_first(0x3C, "LDY # failure (didn't set N and Z correctly)"),
        on_first(0x3D, "compare(s) stored the result in a register (whoops!)"),
        on_first(0x71, "SBC # failure"),
        on_first(0x72, "SBC # failure"),
        on_first(0x73, "SBC # failure"),
        on_first(0x74, "SBC # failure"),
        on_first(0x75, "SBC # failure"),
    ]
}

/// Implied-mode increments, decrements and register transfers.
pub open spec fn implied_tests() -> Seq<DiagnosticEntry> {
    seq![
        on_first(0x3E, "INX/DEX/INY/DEY did something bad"),
        on_first(0x3F, "INY/DEY messed up overflow or carry"),
        on_first(0x40, "INX/DEX messed up overflow or carry"),
        on_first(0x41, "TAY did something bad (changed wrong regs, messed up flags)"),
        on_first(0x42, "TAX did something bad (changed wrong regs, messed up flags)"),
        on_first(0x43, "TYA did something bad (changed wrong regs, messed up flags)"),
        on_first(0x44, "TXA did something bad (changed wrong regs, messed up flags)"),
        on_first(0x45, "TXS didn't set flags right, or TSX touched flags and it shouldn't have"),
    ]
}

fn implied_tests_exec() -> (v: Vec<DiagnosticEntry>)
    ensures
        v@ == implied_tests(),
{
    vec![
        on_first(0x3E, "INX/DEX/INY/DEY did something bad"),
        on_first(0x3F, "INY/DEY messed up overflow or carry"),
        on_first(0x40, "INX/DEX messed up overflow or carry"),
        on_first(0x41, "TAY did something bad (changed wrong regs, messed up flags)"),
        on_first(0x42, "TAX did something bad (changed wrong regs, messed up flags)"),
        on_first(0x43, "TYA did something bad (changed wrong regs, messed up flags)"),
        on_first(0x44, "TXA did something bad (changed wrong regs, messed up flags)"),
        on_first(0x45, "TXS didn't set flags right, or TSX touched flags and it shouldn't have"),
    ]
}

/// Stack operations, subroutine calls and returns.
pub open spec fn stack_tests() -> Seq<DiagnosticEntry> {
    seq![
        on_first(0x46, "wrong data popped, or data not in right location on stack"),
        on_first(0x47, "JSR didn't work as expected"),
        on_first(0x48, "RTS/JSR shouldn't have affected flags"),
        on_first(0x49, "RTI/RTS didn't work right when return addys/data were manually pushed"),
    ]
}

fn stack_tests_exec() -> (v: Vec<DiagnosticEntry>)
    ensures
        v@ == stack_tests(),
{
    vec![
        on_first(0x46, "wrong data popped, or data not in right location on stack"),
        on_first(0x47, "JSR didn't work as expected"),
        on_first(0x48, "RTS/JSR shouldn't have affected flags"),
        on_first(0x49, "RTI/RTS didn't work right when return addys/data were manually pushed"),
    ]
}

/// Shifts and rotates of the accumulator.
pub open spec fn accumulator_tests() -> Seq<DiagnosticEntry> {
    seq![
        on_first(0x4A, "LSR A  failed"),
        on_first(0x4B, "ASL A  failed"),
        on_first(0x4C, "ROR A  failed"),
        on_first(0x4D, "ROL A  failed"),
    ]
}

fn accumulator_tests_exec() -> (v: Vec<DiagnosticEntry>)
    ensures
        v@ == accumulator_tests(),
{
    vec![
        on_first(0x4A, "LSR A  failed"),
        on_first(0x4B, "ASL A  failed"),
        on_first(0x4C, "ROR A  failed"),
        on_first(0x4D, "ROL A  failed"),
    ]
}

/// The (indirect,x) addressing mode.
pub open spec fn indirect_x_tests() -> Seq<DiagnosticEntry> {
    seq![
        on_first(0x58, "LDA didn't load the data it expected to load"),
        on_first(0x59, "STA didn't store the data where it was supposed to"),
        on_first(0x5A, "ORA failure"),
        on_first(0x5B, "ORA failure"),
        on_first(0x5C, "AND failure"),
        on_first(0x5D, "AND failure"),
        on_first(0x5E, "EOR failure"),
        on_first(0x5F, "EOR failure"),
        on_first(0x60, "ADC failure"),
        on_first(0x61, "ADC failure"),
        on_first(0x62, "ADC failure"),
        on_first(0x63, "ADC failure"),
        on_first(0x64, "ADC failure"),
        on_first(0x65, "CMP failure"),
        on_first(0x66, "CMP failure"),
        on_first(0x67, "CMP failure"),
        on_first(0x68, "CMP failure"),
        on_first(0x69, "CMP failure"),
        on_first(0x6A, "CMP failure"),
        on_first(0x6B, "CMP failure"),
        on_first(0x6C, "SBC failure"),
        on_first(0x6D, "SBC failure"),
        on_first(0x6E, "SBC failure"),
        on_first(0x6F, "SBC failure"),
        on_first(0x70, "SBC failure"),
    ]
}

fn indirect_x_tests_exec() -> (v: Vec<DiagnosticEntry>)
    ensures
        v@ == indirect_x_tests(),
{
    vec![
        on_first(0x58, "LDA didn't load the data it expected to load"),
        on_first(0x59, "STA didn't store the data where it was supposed to"),
        on_first(0x5A, "ORA failure"),
        on_first(0x5B, "ORA failure"),
        on_first(0x5C, "AND failure"),
        on_first(0x5D, "AND failure"),
        on_first(0x5E, "EOR failure"),
        on_first(0x5F, "EOR failure"),
        on_first(0x60, "ADC failure"),
        on_first(0x61, "ADC failure"),
        on_first(0x62, "ADC failure"),
        on_first(0x63, "ADC failure"),
        on_first(0x64, "ADC failure"),
        on_first(0x65, "CMP failure"),
        on_first(0x66, "CMP failure"),
        on_first(0x67, "CMP failure"),
        on_first(0x68, "CMP failure"),
        on_first(0x69, "CMP failure"),
        on_first(0x6A, "CMP failure"),
        on_first(0x6B, "CMP failure"),
        on_first(0x6C, "SBC failure"),
        on_first(0x6D, "SBC failure"),
        on_first(0x6E, "SBC failure"),
        on_first(0x6F, "SBC failure"),
        on_first(0x70, "SBC failure"),
    ]
}

/// The zero-page addressing mode.
pub open spec fn zeropage_tests() -> Seq<DiagnosticEntry> {
    seq![
        on_first(0x76, "LDA didn't set the flags properly"),
        on_first(0x77, "STA affected flags it shouldn't"),
        on_first(0x78, "LDY didn't set the flags properly"),
        on_first(0x79, "STY affected flags it shouldn't"),
        on_first(0x7A, "LDX didn't set the flags properly"),
        on_first(0x7B, "STX affected flags it shouldn't"),
        on_first(0x7C, "BIT failure"),
        on_first(0x7D, "BIT failure"),
        on_first(0x7E, "ORA failure"),
        on_first(0x7F, "ORA failure"),
        on_first(0x80, "AND failure"),
        on_first(0x81, "AND failure"),
        on_first(0x82, "EOR failure"),
        on_first(0x83, "EOR failure"),
        on_first(0x84, "ADC failure"),
        on_first(0x85, "ADC failure"),
        on_first(0x86, "ADC failure"),
        on_first(0x87, "ADC failure"),
        on_first(0x88, "ADC failure"),
        on_first(0x89, "CMP failure"),
        on_first(0x8A, "CMP failure"),
        on_first(0x8B, "CMP failure"),
        on_first(0x8C, "CMP failure"),
        on_first(0x8D, "CMP failure"),
        on_first(0x8E, "CMP failure"),
        on_first(0x8F, "CMP failure"),
        on_first(0x90, "SBC failure"),
        on_first(0x91, "SBC failure"),
        on_first(0x92, "SBC failure"),
        on_first(0x93, "SBC failure"),
        on_first(0x94, "SBC failure"),
        on_first(0x95, "CPX failure"),
        on_first(0x96, "CPX failure"),
        on_first(0x97, "CPX failure"),
        on_first(0x98, "CPX failure"),
        on_first(0x99, "CPX failure"),
        on_first(0x9A, "CPX failure"),
        on_first(0x9B, "CPX failure"),
        on_first(0x9C, "CPY failure"),
        on_first(0x9D, "CPY failure"),
        on_first(0x9E, "CPY failure"),
        on_first(0x9F, "CPY failure"),
        on_first(0xA0, "CPY failure"),
        on_first(0xA1, "CPY failure"),
        on_first(0xA2, "CPY failure"),
        on_first(0xA3, "LSR failure"),
        on_first(0xA4, "LSR failure"),
        on_first(0xA5, "ASL failure"),
        on_first(0xA6, "ASL failure"),
        on_first(0xA7, "ROL failure"),
        on_first(0xA8, "ROL failure"),
        on_first(0xA9, "ROR failure"),
        on_first(0xAA, "ROR failure"),
        on_first(0xAB, "INC failure"),
        on_first(0xAC, "INC failure"),
        on_first(0xAD, "DEC failure"),
        on_first(0xAE, "DEC failure"),
        on_first(0xAF, "DEC failure"),
    ]
}

fn zeropage_tests_exec() -> (v: Vec<DiagnosticEntry>)
    ensures
        v@ == zeropage_tests(),
{
    vec![
        on_first(0x76, "LDA didn't set the flags properly"),
        on_first(0x77, "STA affected flags it shouldn't"),
        on_first(0x78, "LDY didn't set the flags properly"),
        on_first(0x79, "STY affected flags it shouldn't"),
        on_first(0x7A, "LDX didn't set the flags properly"),
        on_first(0x7B, "STX affected flags it shouldn't"),
        on_first(0x7C, "BIT failure"),
        on_first(0x7D, "BIT failure"),
        on_first(0x7E, "ORA failure"),
        on_first(0x7F, "ORA failure"),
        on_first(0x80, "AND failure"),
        on_first(0x81, "AND failure"),
        on_first(0x82, "EOR failure"),
        on_first(0x83, "EOR failure"),
        on_first(0x84, "ADC failure"),
        on_first(0x85, "ADC failure"),
        on_first(0x86, "ADC failure"),
        on_first(0x87, "ADC failure"),
        on_first(0x88, "ADC failure"),
        on_first(0x89, "CMP failure"),
        on_first(0x8A, "CMP failure"),
        on_first(0x8B, "CMP failure"),
        on_first(0x8C, "CMP failure"),
        on_first(0x8D, "CMP failure"),
        on_first(0x8E, "CMP failure"),
        on_first(0x8F, "CMP failure"),
        on_first(0x90, "SBC failure"),
        on_first(0x91, "SBC failure"),
        on_first(0x92, "SBC failure"),
        on_first(0x93, "SBC failure"),
        on_first(0x94, "SBC failure"),
        on_first(0x95, "CPX failure"),
        on_first(0x96, "CPX failure"),
        on_first(0x97, "CPX failure"),
        on_first(0x98, "CPX failure"),
        on_first(0x99, "CPX failure"),
        on_first(0x9A, "CPX failure"),
        on_first(0x9B, "CPX failure"),
        on_first(0x9C, "CPY failure"),
        on_first(0x9D, "CPY failure"),
        on_first(0x9E, "CPY failure"),
        on_first(0x9F, "CPY failure"),
        on_first(0xA0, "CPY failure"),
        on_first(0xA1, "CPY failure"),
        on_first(0xA2, "CPY failure"),
        on_first(0xA3, "LSR failure"),
        on_first(0xA4, "LSR failure"),
        on_first(0xA5, "ASL failure"),
        on_first(0xA6, "ASL failure"),
        on_first(0xA7, "ROL failure"),
        on_first(0xA8, "ROL failure"),
        on_first(0xA9, "ROR failure"),
        on_first(0xAA, "ROR failure"),
        on_first(0xAB, "INC failure"),
        on_first(0xAC, "INC failure"),
        on_first(0xAD, "DEC failure"),
        on_first(0xAE, "DEC failure"),
        on_first(0xAF, "DEC failure"),
    ]
}

/// The absolute addressing mode.
pub open spec fn absolute_tests() -> Seq<DiagnosticEntry> {
    seq![
        on_first(0xB0, "LDA didn't set the flags properly"),
        on_first(0xB1, "STA affected flags it shouldn't"),
        on_first(0xB2, "LDY didn't set the flags properly"),
        on_first(0xB3, "STY affected flags it shouldn't"),
        on_first(0xB4, "LDX didn't set the flags properly"),
        on_first(0xB5, "STX affected flags it shouldn't"),
        on_first(0xB6, "BIT failure"),
        on_first(0xB7, "BIT failure"),
        on_first(0xB8, "ORA failure"),
        on_first(0xB9, "ORA failure"),
        on_first(0xBA, "AND failure"),
        on_first(0xBB, "AND failure"),
        on_first(0xBC, "EOR failure"),
        on_first(0xBD, "EOR failure"),
        on_first(0xBE, "ADC failure"),
        on_first(0xBF, "ADC failure"),
        on_first(0xC0, "ADC failure"),
        on_first(0xC1, "ADC failure"),
        on_first(0xC2, "ADC failure"),
        on_first(0xC3, "CMP failure"),
        on_first(0xC4, "CMP failure"),
        on_first(0xC5, "CMP failure"),
        on_first(0xC6, "CMP failure"),
        on_first(0xC7, "CMP failure"),
        on_first(0xC8, "CMP failure"),
        on_first(0xC9, "CMP failure"),
        on_first(0xCA, "SBC failure"),
        on_first(0xCB, "SBC failure"),
        on_first(0xCC, "SBC failure"),
        on_first(0xCD, "SBC failure"),
        on_first(0xCE, "SBC failure"),
        on_first(0xCF, "CPX failure"),
        on_first(0xD0, "CPX failure"),
        on_first(0xD1, "CPX failure"),
        on_first(0xD2, "CPX failure"),
        on_first(0xD3, "CPX failure"),
        on_first(0xD4, "CPX failure"),
        on_first(0xD5, "CPX failure"),
        on_first(0xD6, "CPY failure"),
        on_first(0xD7, "CPY failure"),
        on_first(0xD8, "CPY failure"),
        on_first(0xD9, "CPY failure"),
        on_first(0xDA, "CPY failure"),
        on_first(0xDB, "CPY failure"),
        on_first(0xDC, "CPY failure"),
        on_first(0xDD, "LSR failure"),
        on_first(0xDE, "LSR failure"),
        on_first(0xDF, "ASL failure"),
        on_first(0xE0, "ASL failure"),
        on_first(0xE1, "ROR failure"),
        on_first(0xE2, "ROR failure"),
        on_first(0xE3, "ROL failure"),
        on_first(0xE4, "ROL failure"),
        on_first(0xE5, "INC failure"),
        on_first(0xE6, "INC failure"),
        on_first(0xE7, "DEC failure"),
        on_first(0xE8, "DEC failure"),
        on_first(0xE9, "DEC failure"),
    ]
}

fn absolute_tests_exec() -> (v: Vec<DiagnosticEntry>)
    ensures
        v@ == absolute_tests(),
{
    vec![
        on_first(0xB0, "LDA didn't set the flags properly"),
        on_first(0xB1, "STA affected flags it shouldn't"),
        on_first(0xB2, "LDY didn't set the flags properly"),
        on_first(0xB3, "STY affected flags it shouldn't"),
        on_first(0xB4, "LDX didn't set the flags properly"),
        on_first(0xB5, "STX affected flags it shouldn't"),
        on_first(0xB6, "BIT failure"),
        on_first(0xB7, "BIT failure"),
        on_first(0xB8, "ORA failure"),
        on_first(0xB9, "ORA failure"),
        on_first(0xBA, "AND failure"),
        on_first(0xBB, "AND failure"),
        on_first(0xBC, "EOR failure"),
        on_first(0xBD, "EOR failure"),
        on_first(0xBE, "ADC failure"),
        on_first(0xBF, "ADC failure"),
        on_first(0xC0, "ADC failure"),
        on_first(0xC1, "ADC failure"),
        on_first(0xC2, "ADC failure"),
        on_first(0xC3, "CMP failure"),
        on_first(0xC4, "CMP failure"),
        on_first(0xC5, "CMP failure"),
        on_first(0xC6, "CMP failure"),
        on_first(0xC7, "CMP failure"),
        on_first(0xC8, "CMP failure"),
        on_first(0xC9, "CMP failure"),
        on_first(0xCA, "SBC failure"),
        on_first(0xCB, "SBC failure"),
        on_first(0xCC, "SBC failure"),
        on_first(0xCD, "SBC failure"),
        on_first(0xCE, "SBC failure"),
        on_first(0xCF, "CPX failure"),
        on_first(0xD0, "CPX failure"),
        on_first(0xD1, "CPX failure"),
        on_first(0xD2, "CPX failure"),
        on_first(0xD3, "CPX failure"),
        on_first(0xD4, "CPX failure"),
        on_first(0xD5, "CPX failure"),
        on_first(0xD6, "CPY failure"),
        on_first(0xD7, "CPY failure"),
        on_first(0xD8, "CPY failure"),
        on_first(0xD9, "CPY failure"),
        on_first(0xDA, "CPY failure"),
        on_first(0xDB, "CPY failure"),
        on_first(0xDC, "CPY failure"),
        on_first(0xDD, "LSR failure"),
        on_first(0xDE, "LSR failure"),
        on_first(0xDF, "ASL failure"),
        on_first(0xE0, "ASL failure"),
        on_first(0xE1, "ROR failure"),
        on_first(0xE2, "ROR failure"),
        on_first(0xE3, "ROL failure"),
        on_first(0xE4, "ROL failure"),
        on_first(0xE5, "INC failure"),
        on_first(0xE6, "INC failure"),
        on_first(0xE7, "DEC failure"),
        on_first(0xE8, "DEC failure"),
        on_first(0xE9, "DEC failure"),
    ]
}

/// The (indirect),y addressing mode and indirect jumps; from here on most
/// codes are in the second status byte.
pub open spec fn indirect_y_tests() -> Seq<DiagnosticEntry> {
    seq![
        on_first(0xEA, "LDA didn't load what it was supposed to"),
        on_first(0xEB, "read location should've wrapped around ffffh to 0000h"),
        on_first(0xEC, "should've wrapped zeropage address"),
        on_first(0xED, "ORA failure"),
        on_first(0xEE, "ORA failure"),
        on_first(0xEF, "AND failure"),
        on_first(0xF0, "AND failure"),
        on_first(0xF1, "EOR failure"),
        on_first(0xF2, "EOR failure"),
        on_first(0xF3, "ADC failure"),
        on_first(0xF4, "ADC failure"),
        on_first(0xF5, "ADC failure"),
        on_first(0xF6, "ADC failure"),
        on_first(0xF7, "ADC failure"),
        on_first(0xF8, "CMP failure"),
        on_first(0xF9, "CMP failure"),
        on_first(0xFA, "CMP failure"),
        on_first(0xFB, "CMP failure"),
        on_first(0xFC, "CMP failure"),
        on_first(0xFD, "CMP failure"),
        on_first(0xFE, "CMP failure"),
        on_second(0x01, "SBC failure"),
        on_second(0x02, "SBC failure"),
        on_second(0x03, "SBC failure"),
        on_second(0x04, "SBC failure"),
        on_second(0x05, "SBC failure"),
        on_second(0x06, "STA failure"),
        on_second(0x07, "JMP () data reading didn't wrap properly (this fails on a 65C02)"),
    ]
}

fn indirect_y_tests_exec() -> (v: Vec<DiagnosticEntry>)
    ensures
        v@ == indirect_y_tests(),
{
    vec![
        on_first(0xEA, "LDA didn't load what it was supposed to"),
        on_first(0xEB, "read location should've wrapped around ffffh to 0000h"),
        on_first(0xEC, "should've wrapped zeropage address"),
        on_first(0xED, "ORA failure"),
        on_first(0xEE, "ORA failure"),
        on_first(0xEF, "AND failure"),
        on_first(0xF0, "AND failure"),
        on_first(0xF1, "EOR failure"),
        on_first(0xF2, "EOR failure"),
        on_first(0xF3, "ADC failure"),
        on_first(0xF4, "ADC failure"),
        on_first(0xF5, "ADC failure"),
        on_first(0xF6, "ADC failure"),
        on_first(0xF7, "ADC failure"),
        on_first(0xF8, "CMP failure"),
        on_first(0xF9, "CMP failure"),
        on_first(0xFA, "CMP failure"),
        on_first(0xFB, "CMP failure"),
        on_first(0xFC, "CMP failure"),
        on_first(0xFD, "CMP failure"),
        on_first(0xFE, "CMP failure"),
        on_second(0x01, "SBC failure"),
        on_second(0x02, "SBC failure"),
        on_second(0x03, "SBC failure"),
        on_second(0x04, "SBC failure"),
        on_second(0x05, "SBC failure"),
        on_second(0x06, "STA failure"),
        on_second(0x07, "JMP () data reading didn't wrap properly (this fails on a 65C02)"),
    ]
}

/// The zero-page,x and zero-page,y addressing modes.
pub open spec fn zeropage_x_tests() -> Seq<DiagnosticEntry> {
    seq![
        on_second(0x08, "LDY,X failure"),
        on_second(0x09, "LDY,X failure"),
        on_second(0x0A, "STY,X failure"),
        on_second(0x0B, "ORA failure"),
        on_second(0x0C, "ORA failure"),
        on_second(0x0D, "AND failure"),
        on_second(0x0E, "AND failure"),
        on_second(0x0F, "EOR failure"),
        on_second(0x10, "EOR failure"),
        on_second(0x11, "ADC failure"),
        on_second(0x12, "ADC failure"),
        on_second(0x13, "ADC failure"),
        on_second(0x14, "ADC failure"),
        on_second(0x15, "ADC failure"),
        on_second(0x16, "CMP failure"),
        on_second(0x17, "CMP failure"),
        on_second(0x18, "CMP failure"),
        on_second(0x19, "CMP failure"),
        on_second(0x1A, "CMP failure"),
        on_second(0x1B, "CMP failure"),
        on_second(0x1C, "CMP failure"),
        on_second(0x1D, "SBC failure"),
        on_second(0x1E, "SBC failure"),
        on_second(0x1F, "SBC failure"),
        on_second(0x20, "SBC failure"),
        on_second(0x21, "SBC failure"),
        on_second(0x22, "LDA failure"),
        on_second(0x23, "LDA failure"),
        on_second(0x24, "STA failure"),
        on_second(0x25, "LSR failure"),
        on_second(0x26, "LSR failure"),
        on_second(0x27, "ASL failure"),
        on_second(0x28, "ASL failure"),
        on_second(0x29, "ROR failure"),
        on_second(0x2A, "ROR failure"),
        on_second(0x2B, "ROL failure"),
        on_second(0x2C, "ROL failure"),
        on_second(0x2D, "INC failure"),
        on_second(0x2E, "INC failure"),
        on_second(0x2F, "DEC failure"),
        on_second(0x30, "DEC failure"),
        on_second(0x31, "DEC failure"),
        on_second(0x32, "LDX,Y failure"),
        on_second(0x33, "LDX,Y failure"),
        on_second(0x34, "STX,Y failure"),
        on_second(0x35, "STX,Y failure"),
    ]
}

fn zeropage_x_tests_exec() -> (v: Vec<DiagnosticEntry>)
    ensures
        v@ == zeropage_x_tests(),
{
    vec![
        on_second(0x08, "LDY,X failure"),
        on_second(0x09, "LDY,X failure"),
        on_second(0x0A, "STY,X failure"),
        on_second(0x0B, "ORA failure"),
        on_second(0x0C, "ORA failure"),
        on_second(0x0D, "AND failure"),
        on_second(0x0E, "AND failure"),
        on_second(0x0F, "EOR failure"),
        on_second(0x10, "EOR failure"),
        on_second(0x11, "ADC failure"),
        on_second(0x12, "ADC failure"),
        on_second(0x13, "ADC failure"),
        on_second(0x14, "ADC failure"),
        on_second(0x15, "ADC failure"),
        on_second(0x16, "CMP failure"),
        on_second(0x17, "CMP failure"),
        on_second(0x18, "CMP failure"),
        on_second(0x19, "CMP failure"),
        on_second(0x1A, "CMP failure"),
        on_second(0x1B, "CMP failure"),
        on_second(0x1C, "CMP failure"),
        on_second(0x1D, "SBC failure"),
        on_second(0x1E, "SBC failure"),
        on_second(0x1F, "SBC failure"),
        on_second(0x20, "SBC failure"),
        on_second(0x21, "SBC failure"),
        on_second(0x22, "LDA failure"),
        on_second(0x23, "LDA failure"),
        on_second(0x24, "STA failure"),
        on_second(0x25, "LSR failure"),
        on_second(0x26, "LSR failure"),
        on_second(0x27, "ASL failure"),
        on_second(0x28, "ASL failure"),
        on_second(0x29, "ROR failure"),
        on_second(0x2A, "ROR failure"),
        on_second(0x2B, "ROL failure"),
        on_second(0x2C, "ROL failure"),
        on_second(0x2D, "INC failure"),
        on_second(0x2E, "INC failure"),
        on_second(0x2F, "DEC failure"),
        on_second(0x30, "DEC failure"),
        on_second(0x31, "DEC failure"),
        on_second(0x32, "LDX,Y failure"),
        on_second(0x33, "LDX,Y failure"),
        on_second(0x34, "STX,Y failure"),
        on_second(0x35, "STX,Y failure"),
    ]
}

/// The absolute,y addressing mode, with wraparound and page crossing.
pub open spec fn absolute_y_tests() -> Seq<DiagnosticEntry> {
    seq![
        on_second(0x36, "LDA failure"),
        on_second(0x37, "LDA failure to wrap properly from ffffh to 0000h"),
        on_second(0x38, "LDA failure, page cross"),
        on_second(0x39, "ORA failure"),
        on_second(0x3A, "ORA failure"),
        on_second(0x3B, "AND failure"),
        on_second(0x3C, "AND failure"),
        on_second(0x3D, "EOR failure"),
        on_second(0x3E, "EOR failure"),
        on_second(0x3F, "ADC failure"),
        on_second(0x40, "ADC failure"),
        on_second(0x41, "ADC failure"),
        on_second(0x42, "ADC failure"),
        on_second(0x43, "ADC failure"),
        on_second(0x44, "CMP failure"),
        on_second(0x45, "CMP failure"),
        on_second(0x46, "CMP failure"),
        on_second(0x47, "CMP failure"),
        on_second(0x48, "CMP failure"),
        on_second(0x49, "CMP failure"),
        on_second(0x4A, "CMP failure"),
        on_second(0x4B, "SBC failure"),
        on_second(0x4C, "SBC failure"),
        on_second(0x4D, "SBC failure"),
        on_second(0x4E, "SBC failure"),
        on_second(0x4F, "SBC failure"),
        on_second(0x50, "STA failure"),
    ]
}

fn absolute_y_tests_exec() -> (v: Vec<DiagnosticEntry>)
    ensures
        v@ == absolute_y_tests(),
{
    vec![
        on_second(0x36, "LDA failure"),
        on_second(0x37, "LDA failure to wrap properly from ffffh to 0000h"),
        on_second(0x38, "LDA failure, page cross"),
        on_second(0x39, "ORA failure"),
        on_second(0x3A, "ORA failure"),
        on_second(0x3B, "AND failure"),
        on_second(0x3C, "AND failure"),
        on_second(0x3D, "EOR failure"),
        on_second(0x3E, "EOR failure"),
        on_second(0x3F, "ADC failure"),
        on_second(0x40, "ADC failure"),
        on_second(0x41, "ADC failure"),
        on_second(0x42, "ADC failure"),
        on_second(0x43, "ADC failure"),
        on_second(0x44, "CMP failure"),
        on_second(0x45, "CMP failure"),
        on_second(0x46, "CMP failure"),
        on_second(0x47, "CMP failure"),
        on_second(0x48, "CMP failure"),
        on_second(0x49, "CMP failure"),
        on_second(0x4A, "CMP failure"),
        on_second(0x4B, "SBC failure"),
        on_second(0x4C, "SBC failure"),
        on_second(0x4D, "SBC failure"),
        on_second(0x4E, "SBC failure"),
        on_second(0x4F, "SBC failure"),
        on_second(0x50, "STA failure"),
    ]
}

/// The absolute,x addressing mode, with page crossing.
pub open spec fn absolute_x_tests() -> Seq<DiagnosticEntry> {
    seq![
        on_second(0x51, "LDY,X failure"),
        on_second(0x52, "LDY,X failure (didn't page cross)"),
        on_second(0x53, "ORA failure"),
        on_second(0x54, "ORA failure"),
        on_second(0x55, "AND failure"),
        on_second(0x56, "AND failure"),
        on_second(0x57, "EOR failure"),
        on_second(0x58, "EOR failure"),
        on_second(0x59, "ADC failure"),
        on_second(0x5A, "ADC failure"),
        on_second(0x5B, "ADC failure"),
        on_second(0x5C, "ADC failure"),
        on_second(0x5D, "ADC failure"),
        on_second(0x5E, "CMP failure"),
        on_second(0x5F, "CMP failure"),
        on_second(0x60, "CMP failure"),
        on_second(0x61, "CMP failure"),
        on_second(0x62, "CMP failure"),
        on_second(0x63, "CMP failure"),
        on_second(0x64, "CMP failure"),
        on_second(0x65, "SBC failure"),
        on_second(0x66, "SBC failure"),
        on_second(0x67, "SBC failure"),
        on_second(0x68, "SBC failure"),
        on_second(0x69, "SBC failure"),
        on_second(0x6A, "LDA failure"),
        on_second(0x6B, "LDA failure (didn't page cross)"),
        on_second(0x6C, "STA failure"),
        on_second(0x6D, "LSR failure"),
        on_second(0x6E, "LSR failure"),
        on_second(0x6F, "ASL failure"),
        on_second(0x70, "ASL failure"),
        on_second(0x71, "ROR failure"),
        on_second(0x72, "ROR failure"),
        on_second(0x73, "ROL failure"),
        on_second(0x74, "ROL failure"),
        on_second(0x75, "INC failure"),
        on_second(0x76, "INC failure"),
        on_second(0x77, "DEC failure"),
        on_second(0x78, "DEC failure"),
        on_second(0x79, "DEC failure"),
        on_second(0x7A, "LDX,Y failure"),
        on_second(0x7B, "LDX,Y failure"),
    ]
}

fn absolute_x_tests_exec() -> (v: Vec<DiagnosticEntry>)
    ensures
        v@ == absolute_x_tests(),
{
    vec![
        on_second(0x51, "LDY,X failure"),
        on_second(0x52, "LDY,X failure (didn't page cross)"),
        on_second(0x53, "ORA failure"),
        on_second(0x54, "ORA failure"),
        on_second(0x55, "AND failure"),
        on_second(0x56, "AND failure"),
        on_second(0x57, "EOR failure"),
        on_second(0x58, "EOR failure"),
        on_second(0x59, "ADC failure"),
        on_second(0x5A, "ADC failure"),
        on_second(0x5B, "ADC failure"),
        on_second(0x5C, "ADC failure"),
        on_second(0x5D, "ADC failure"),
        on_second(0x5E, "CMP failure"),
        on_second(0x5F, "CMP failure"),
        on_second(0x60, "CMP failure"),
        on_second(0x61, "CMP failure"),
        on_second(0x62, "CMP failure"),
        on_second(0x63, "CMP failure"),
        on_second(0x64, "CMP failure"),
        on_second(0x65, "SBC failure"),
        on_second(0x66, "SBC failure"),
        on_second(0x67, "SBC failure"),
        on_second(0x68, "SBC failure"),
        on_second(0x69, "SBC failure"),
        on_second(0x6A, "LDA failure"),
        on_second(0x6B, "LDA failure (didn't page cross)"),
        on_second(0x6C, "STA failure"),
        on_second(0x6D, "LSR failure"),
        on_second(0x6E, "LSR failure"),
        on_second(0x6F, "ASL failure"),
        on_second(0x70, "ASL failure"),
        on_second(0x71, "ROR failure"),
        on_second(0x72, "ROR failure"),
        on_second(0x73, "ROL failure"),
        on_second(0x74, "ROL failure"),
        on_second(0x75, "INC failure"),
        on_second(0x76, "INC failure"),
        on_second(0x77, "DEC failure"),
        on_second(0x78, "DEC failure"),
        on_second(0x79, "DEC failure"),
        on_second(0x7A, "LDX,Y failure"),
        on_second(0x7B, "LDX,Y failure"),
    ]
}

/// Undocumented NOP opcodes; these report in the first status byte.
pub open spec fn nop_tests() -> Seq<DiagnosticEntry> {
    seq![
        on_first(0x4E, "absolute,X NOPs less than 3 bytes long"),
        on_first(0x4F, "implied NOPs affects regs/flags"),
        on_first(0x50, "ZP,X NOPs less than 2 bytes long"),
        on_first(0x51, "absolute NOP less than 3 bytes long"),
        on_first(0x52, "ZP NOPs less than 2 bytes long"),
        on_first(0x53, "absolute,X NOPs less than 3 bytes long"),
        on_first(0x54, "implied NOPs affects regs/flags"),
        on_first(0x55, "ZP,X NOPs less than 2 bytes long"),
        on_first(0x56, "absolute NOP less than 3 bytes long"),
        on_first(0x57, "ZP NOPs less than 2 bytes long"),
    ]
}

fn nop_tests_exec() -> (v: Vec<DiagnosticEntry>)
    ensures
        v@ == nop_tests(),
{
    vec![
        on_first(0x4E, "absolute,X NOPs less than 3 bytes long"),
        on_first(0x4F, "implied NOPs affects regs/flags"),
        on_first(0x50, "ZP,X NOPs less than 2 bytes long"),
        on_first(0x51, "absolute NOP less than 3 bytes long"),
        on_first(0x52, "ZP NOPs less than 2 bytes long"),
        on_first(0x53, "absolute,X NOPs less than 3 bytes long"),
        on_first(0x54, "implied NOPs affects regs/flags"),
        on_first(0x55, "ZP,X NOPs less than 2 bytes long"),
        on_first(0x56, "absolute NOP less than 3 bytes long"),
        on_first(0x57, "ZP NOPs less than 2 bytes long"),
    ]
}

/// The undocumented LAX opcode.
pub open spec fn lax_tests() -> Seq<DiagnosticEntry> {
    seq![
        on_second(0x7C, "LAX (indr,x) failure"),
        on_second(0x7D, "LAX (indr,x) failure"),
        on_second(0x7E, "LAX zeropage failure"),
        on_second(0x7F, "LAX zeropage failure"),
        on_second(0x80, "LAX absolute failure"),
        on_second(0x81, "LAX absolute failure"),
        on_second(0x82, "LAX (indr),y failure"),
        on_second(0x83, "LAX (indr),y failure"),
        on_second(0x84, "LAX zp,y failure"),
        on_second(0x85, "LAX zp,y failure"),
        on_second(0x86, "LAX abs,y failure"),
        on_second(0x87, "LAX abs,y failure"),
    ]
}

fn lax_tests_exec() -> (v: Vec<DiagnosticEntry>)
    ensures
        v@ == lax_tests(),
{
    vec![
        on_second(0x7C, "LAX (indr,x) failure"),
        on_second(0x7D, "LAX (indr,x) failure"),
        on_second(0x7E, "LAX zeropage failure"),
        on_second(0x7F, "LAX zeropage failure"),
        on_second(0x80, "LAX absolute failure"),
        on_second(0x81, "LAX absolute failure"),
        on_second(0x82, "LAX (indr),y failure"),
        on_second(0x83, "LAX (indr),y failure"),
        on_second(0x84, "LAX zp,y failure"),
        on_second(0x85, "LAX zp,y failure"),
        on_second(0x86, "LAX abs,y failure"),
        on_second(0x87, "LAX abs,y failure"),
    ]
}

/// The undocumented SAX opcode.
pub open spec fn sax_tests() -> Seq<DiagnosticEntry> {
    seq![
        on_second(0x88, "SAX (indr,x) failure"),
        on_second(0x89, "SAX (indr,x) failure"),
        on_second(0x8A, "SAX zeropage failure"),
        on_second(0x8B, "SAX zeropage failure"),
        on_second(0x8C, "SAX absolute failure"),
        on_second(0x8D, "SAX absolute failure"),
        on_second(0x8E, "SAX zp,y failure"),
        on_second(0x8F, "SAX zp,y failure"),
    ]
}

fn sax_tests_exec() -> (v: Vec<DiagnosticEntry>)
    ensures
        v@ == sax_tests(),
{
    vec![
        on_second(0x88, "SAX (indr,x) failure"),
        on_second(0x89, "SAX (indr,x) failure"),
        on_second(0x8A, "SAX zeropage failure"),
        on_second(0x8B, "SAX zeropage failure"),
        on_second(0x8C, "SAX absolute failure"),
        on_second(0x8D, "SAX absolute failure"),
        on_second(0x8E, "SAX zp,y failure"),
        on_second(0x8F, "SAX zp,y failure"),
    ]
}

/// The undocumented SBC opcode.
pub open spec fn sbc_opcode_tests() -> Seq<DiagnosticEntry> {
    seq![
        on_second(0x90, "SBC failure"),
        on_second(0x91, "SBC failure"),
        on_second(0x92, "SBC failure"),
        on_second(0x93, "SBC failure"),
        on_second(0x94, "SBC failure"),
    ]
}

fn sbc_opcode_tests_exec() -> (v: Vec<DiagnosticEntry>)
    ensures
        v@ == sbc_opcode_tests(),
{
    vec![
        on_second(0x90, "SBC failure"),
        on_second(0x91, "SBC failure"),
        on_second(0x92, "SBC failure"),
        on_second(0x93, "SBC failure"),
        on_second(0x94, "SBC failure"),
    ]
}

/// The undocumented DCP opcode.
pub open spec fn dcp_tests() -> Seq<DiagnosticEntry> {
    seq![
        on_second(0x95, "DCP (indr,x) failure"),
        on_second(0x96, "DCP (indr,x) failure"),
        on_second(0x97, "DCP (indr,x) failure"),
        on_second(0x98, "DCP zeropage failure"),
        on_second(0x99, "DCP zeropage failure"),
        on_second(0x9A, "DCP zeropage failure"),
        on_second(0x9B, "DCP absolute failure"),
        on_second(0x9C, "DCP absolute failure"),
        on_second(0x9D, "DCP absolute failure"),
        on_second(0x9E, "DCP (indr),y failure"),
        on_second(0x9F, "DCP (indr),y failure"),
        on_second(0xA0, "DCP (indr),y failure"),
        on_second(0xA1, "DCP zp,x failure"),
        on_second(0xA2, "DCP zp,x failure"),
        on_second(0xA3, "DCP zp,x failure"),
        on_second(0xA4, "DCP abs,y failure"),
        on_second(0xA5, "DCP abs,y failure"),
        on_second(0xA6, "DCP abs,y failure"),
        on_second(0xA7, "DCP abs,x failure"),
        on_second(0xA8, "DCP abs,x failure"),
        on_second(0xA9, "DCP abs,x failure"),
    ]
}

fn dcp_tests_exec() -> (v: Vec<DiagnosticEntry>)
    ensures
        v@ == dcp_tests(),
{
    vec![
        on_second(0x95, "DCP (indr,x) failure"),
        on_second(0x96, "DCP (indr,x) failure"),
        on_second(0x97, "DCP (indr,x) failure"),
        on_second(0x98, "DCP zeropage failure"),
        on_second(0x99, "DCP zeropage failure"),
        on_second(0x9A, "DCP zeropage failure"),
        on_second(0x9B, "DCP absolute failure"),
        on_second(0x9C, "DCP absolute failure"),
        on_second(0x9D, "DCP absolute failure"),
        on_second(0x9E, "DCP (indr),y failure"),
        on_second(0x9F, "DCP (indr),y failure"),
        on_second(0xA0, "DCP (indr),y failure"),
        on_second(0xA1, "DCP zp,x failure"),
        on_second(0xA2, "DCP zp,x failure"),
        on_second(0xA3, "DCP zp,x failure"),
        on_second(0xA4, "DCP abs,y failure"),
        on_second(0xA5, "DCP abs,y failure"),
        on_second(0xA6, "DCP abs,y failure"),
        on_second(0xA7, "DCP abs,x failure"),
        on_second(0xA8, "DCP abs,x failure"),
        on_second(0xA9, "DCP abs,x failure"),
    ]
}

/// The undocumented ISB opcode; its codes carry the DCP texts.
pub open spec fn isb_tests() -> Seq<DiagnosticEntry> {
    seq![
        on_second(0xAA, "DCP (indr,x) failure"),
        on_second(0xAB, "DCP (indr,x) failure"),
        on_second(0xAC, "DCP (indr,x) failure"),
        on_second(0xAD, "DCP zeropage failure"),
        on_second(0xAE, "DCP zeropage failure"),
        on_second(0xAF, "DCP zeropage failure"),
        on_second(0xB0, "DCP absolute failure"),
        on_second(0xB1, "DCP absolute failure"),
        on_second(0xB2, "DCP absolute failure"),
        on_second(0xB3, "DCP (indr),y failure"),
        on_second(0xB4, "DCP (indr),y failure"),
        on_second(0xB5, "DCP (indr),y failure"),
        on_second(0xB6, "DCP zp,x failure"),
        on_second(0xB7, "DCP zp,x failure"),
        on_second(0xB8, "DCP zp,x failure"),
        on_second(0xB9, "DCP abs,y failure"),
        on_second(0xBA, "DCP abs,y failure"),
        on_second(0xBB, "DCP abs,y failure"),
        on_second(0xBC, "DCP abs,x failure"),
        on_second(0xBD, "DCP abs,x failure"),
        on_second(0xBE, "DCP abs,x failure"),
    ]
}

fn isb_tests_exec() -> (v: Vec<DiagnosticEntry>)
    ensures
        v@ == isb_tests(),
{
    vec![
        on_second(0xAA, "DCP (indr,x) failure"),
        on_second(0xAB, "DCP (indr,x) failure"),
        on_second(0xAC, "DCP (indr,x) failure"),
        on_second(0xAD, "DCP zeropage failure"),
        on_second(0xAE, "DCP zeropage failure"),
        on_second(0xAF, "DCP zeropage failure"),
        on_second(0xB0, "DCP absolute failure"),
        on_second(0xB1, "DCP absolute failure"),
        on_second(0xB2, "DCP absolute failure"),
        on_second(0xB3, "DCP (indr),y failure"),
        on_second(0xB4, "DCP (indr),y failure"),
        on_second(0xB5, "DCP (indr),y failure"),
        on_second(0xB6, "DCP zp,x failure"),
        on_second(0xB7, "DCP zp,x failure"),
        on_second(0xB8, "DCP zp,x failure"),
        on_second(0xB9, "DCP abs,y failure"),
        on_second(0xBA, "DCP abs,y failure"),
        on_second(0xBB, "DCP abs,y failure"),
        on_second(0xBC, "DCP abs,x failure"),
        on_second(0xBD, "DCP abs,x failure"),
        on_second(0xBE, "DCP abs,x failure"),
    ]
}

/// The undocumented SLO opcode.
pub open spec fn slo_tests() -> Seq<DiagnosticEntry> {
    seq![
        on_second(0xBF, "SLO (indr,x) failure"),
        on_second(0xC0, "SLO (indr,x) failure"),
        on_second(0xC1, "SLO (indr,x) failure"),
        on_second(0xC2, "SLO zeropage failure"),
        on_second(0xC3, "SLO zeropage failure"),
        on_second(0xC4, "SLO zeropage failure"),
        on_second(0xC5, "SLO absolute failure"),
        on_second(0xC6, "SLO absolute failure"),
        on_second(0xC7, "SLO absolute failure"),
        on_second(0xC8, "SLO (indr),y failure"),
        on_second(0xC9, "SLO (indr),y failure"),
        on_second(0xCA, "SLO (indr),y failure"),
        on_second(0xCB, "SLO zp,x failure"),
        on_second(0xCC, "SLO zp,x failure"),
        on_second(0xCD, "SLO zp,x failure"),
        on_second(0xCE, "SLO abs,y failure"),
        on_second(0xCF, "SLO abs,y failure"),
        on_second(0xD0, "SLO abs,y failure"),
        on_second(0xD1, "SLO abs,x failure"),
        on_second(0xD2, "SLO abs,x failure"),
        on_second(0xD3, "SLO abs,x failure"),
    ]
}

fn slo_tests_exec() -> (v: Vec<DiagnosticEntry>)
    ensures
        v@ == slo_tests(),
{
    vec![
        on_second(0xBF, "SLO (indr,x) failure"),
        on_second(0xC0, "SLO (indr,x) failure"),
        on_second(0xC1, "SLO (indr,x) failure"),
        on_second(0xC2, "SLO zeropage failure"),
        on_second(0xC3, "SLO zeropage failure"),
        on_second(0xC4, "SLO zeropage failure"),
        on_second(0xC5, "SLO absolute failure"),
        on_second(0xC6, "SLO absolute failure"),
        on_second(0xC7, "SLO absolute failure"),
        on_second(0xC8, "SLO (indr),y failure"),
        on_second(0xC9, "SLO (indr),y failure"),
        on_second(0xCA, "SLO (indr),y failure"),
        on_second(0xCB, "SLO zp,x failure"),
        on_second(0xCC, "SLO zp,x failure"),
        on_second(0xCD, "SLO zp,x failure"),
        on_second(0xCE, "SLO abs,y failure"),
        on_second(0xCF, "SLO abs,y failure"),
        on_second(0xD0, "SLO abs,y failure"),
        on_second(0xD1, "SLO abs,x failure"),
        on_second(0xD2, "SLO abs,x failure"),
        on_second(0xD3, "SLO abs,x failure"),
    ]
}

/// The undocumented RLA opcode.
pub open spec fn rla_tests() -> Seq<DiagnosticEntry> {
    seq![
        on_second(0xD4, "RLA (indr,x) failure"),
        on_second(0xD5, "RLA (indr,x) failure"),
        on_second(0xD6, "RLA (indr,x) failure"),
        on_second(0xD7, "RLA zeropage failure"),
        on_second(0xD8, "RLA zeropage failure"),
        on_second(0xD9, "RLA zeropage failure"),
        on_second(0xDA, "RLA absolute failure"),
        on_second(0xDB, "RLA absolute failure"),
        on_second(0xDC, "RLA absolute failure"),
        on_second(0xDD, "RLA (indr),y failure"),
        on_second(0xDE, "RLA (indr),y failure"),
        on_second(0xDF, "RLA (indr),y failure"),
        on_second(0xE0, "RLA zp,x failure"),
        on_second(0xE1, "RLA zp,x failure"),
        on_second(0xE2, "RLA zp,x failure"),
        on_second(0xE3, "RLA abs,y failure"),
        on_second(0xE4, "RLA abs,y failure"),
        on_second(0xE5, "RLA abs,y failure"),
        on_second(0xE6, "RLA abs,x failure"),
        on_second(0xE7, "RLA abs,x failure"),
        on_second(0xE8, "RLA abs,x failure"),
    ]
}

fn rla_tests_exec() -> (v: Vec<DiagnosticEntry>)
    ensures
        v@ == rla_tests(),
{
    vec![
        on_second(0xD4, "RLA (indr,x) failure"),
        on_second(0xD5, "RLA (indr,x) failure"),
        on_second(0xD6, "RLA (indr,x) failure"),
        on_second(0xD7, "RLA zeropage failure"),
        on_second(0xD8, "RLA zeropage failure"),
        on_second(0xD9, "RLA zeropage failure"),
        on_second(0xDA, "RLA absolute failure"),
        on_second(0xDB, "RLA absolute failure"),
        on_second(0xDC, "RLA absolute failure"),
        on_second(0xDD, "RLA (indr),y failure"),
        on_second(0xDE, "RLA (indr),y failure"),
        on_second(0xDF, "RLA (indr),y failure"),
        on_second(0xE0, "RLA zp,x failure"),
        on_second(0xE1, "RLA zp,x failure"),
        on_second(0xE2, "RLA zp,x failure"),
        on_second(0xE3, "RLA abs,y failure"),
        on_second(0xE4, "RLA abs,y failure"),
        on_second(0xE5, "RLA abs,y failure"),
        on_second(0xE6, "RLA abs,x failure"),
        on_second(0xE7, "RLA abs,x failure"),
        on_second(0xE8, "RLA abs,x failure"),
    ]
}

/// The undocumented SRE opcode.
pub open spec fn sre_tests() -> Seq<DiagnosticEntry> {
    seq![
        on_second(0xE9, "SRE (indr,x) failure"),
        on_second(0xEA, "SRE (indr,x) failure"),
        on_second(0xEB, "SRE (indr,x) failure"),
        on_second(0xEC, "SRE zeropage failure"),
        on_second(0xED, "SRE zeropage failure"),
        on_second(0xEE, "SRE zeropage failure"),
        on_second(0xEF, "SRE absolute failure"),
        on_second(0xF0, "SRE absolute failure"),
        on_second(0xF1, "SRE absolute failure"),
        on_second(0xF2, "SRE (indr),y failure"),
        on_second(0xF3, "SRE (indr),y failure"),
        on_second(0xF4, "SRE (indr),y failure"),
        on_second(0xF5, "SRE zp,x failure"),
        on_second(0xF6, "SRE zp,x failure"),
        on_second(0xF7, "SRE zp,x failure"),
        on_second(0xF8, "SRE abs,y failure"),
        on_second(0xF9, "SRE abs,y failure"),
        on_second(0xFA, "SRE abs,y failure"),
        on_second(0xFB, "SRE abs,x failure"),
        on_second(0xFC, "SRE abs,x failure"),
        on_second(0xFD, "SRE abs,x failure"),
    ]
}

fn sre_tests_exec() -> (v: Vec<DiagnosticEntry>)
    ensures
        v@ == sre_tests(),
{
    vec![
        on_second(0xE9, "SRE (indr,x) failure"),
        on_second(0xEA, "SRE (indr,x) failure"),
        on_second(0xEB, "SRE (indr,x) failure"),
        on_second(0xEC, "SRE zeropage failure"),
        on_second(0xED, "SRE zeropage failure"),
        on_second(0xEE, "SRE zeropage failure"),
        on_second(0xEF, "SRE absolute failure"),
        on_second(0xF0, "SRE absolute failure"),
        on_second(0xF1, "SRE absolute failure"),
        on_second(0xF2, "SRE (indr),y failure"),
        on_second(0xF3, "SRE (indr),y failure"),
        on_second(0xF4, "SRE (indr),y failure"),
        on_second(0xF5, "SRE zp,x failure"),
        on_second(0xF6, "SRE zp,x failure"),
        on_second(0xF7, "SRE zp,x failure"),
        on_second(0xF8, "SRE abs,y failure"),
        on_second(0xF9, "SRE abs,y failure"),
        on_second(0xFA, "SRE abs,y failure"),
        on_second(0xFB, "SRE abs,x failure"),
        on_second(0xFC, "SRE abs,x failure"),
        on_second(0xFD, "SRE abs,x failure"),
    ]
}

/// The diagnostic table, in the order in which its entries are tried.
///
/// The undocumented RRA opcode has no entries: the second-byte codes that its
/// tests would report are already taken by the (indirect),y and zero-page,x
/// entries.
#[verifier::opaque]
pub open spec fn diagnostic_table() -> Seq<DiagnosticEntry> {
    branch_tests()
        + flag_tests()
        + immediate_tests()
        + implied_tests()
        + stack_tests()
        + accumulator_tests()
        + indirect_x_tests()
        + zeropage_tests()
        + absolute_tests()
        + indirect_y_tests()
        + zeropage_x_tests()
        + absolute_y_tests()
        + absolute_x_tests()
        + nop_tests()
        + lax_tests()
        + sax_tests()
        + sbc_opcode_tests()
        + dcp_tests()
        + isb_tests()
        + slo_tests()
        + rla_tests()
        + sre_tests()
}

/// Builds the diagnostic table.
pub fn diagnostic_entries() -> (t: Vec<DiagnosticEntry>)
    ensures
        t@ == diagnostic_table(),
{
    reveal(diagnostic_table);
    let mut t = branch_tests_exec();
    let mut more = flag_tests_exec();
    t.append(&mut more);
    let mut more = immediate_tests_exec();
    t.append(&mut more);
    let mut more = implied_tests_exec();
    t.append(&mut more);
    let mut more = stack_tests_exec();
    t.append(&mut more);
    let mut more = accumulator_tests_exec();
    t.append(&mut more);
    let mut more = indirect_x_tests_exec();
    t.append(&mut more);
    let mut more = zeropage_tests_exec();
    t.append(&mut more);
    let mut more = absolute_tests_exec();
    t.append(&mut more);
    let mut more = indirect_y_tests_exec();
    t.append(&mut more);
    let mut more = zeropage_x_tests_exec();
    t.append(&mut more);
    let mut more = absolute_y_tests_exec();
    t.append(&mut more);
    let mut more = absolute_x_tests_exec();
    t.append(&mut more);
    let mut more = nop_tests_exec();
    t.append(&mut more);
    let mut more = lax_tests_exec();
    t.append(&mut more);
    let mut more = sax_tests_exec();
    t.append(&mut more);
    let mut more = sbc_opcode_tests_exec();
    t.append(&mut more);
    let mut more = dcp_tests_exec();
    t.append(&mut more);
    let mut more = isb_tests_exec();
    t.append(&mut more);
    let mut more = slo_tests_exec();
    t.append(&mut more);
    let mut more = rla_tests_exec();
    t.append(&mut more);
    let mut more = sre_tests_exec();
    t.append(&mut more);
    t
}

/// Whether entry `e` tests the first byte (when `first` holds) or the second
/// byte for the literal `code`, and lets the other byte be anything.
pub open spec fn tests_code(e: DiagnosticEntry, first: bool, code: int) -> bool {
    0 <= code <= 255 && if first {
        e.first == BytePattern::Is(code as u8) && e.second == BytePattern::Any
    } else {
        e.first == BytePattern::Any && e.second == BytePattern::Is(code as u8)
    }
}

/// Whether the entries of `t` from `lo` up to `hi` test one byte for the
/// consecutive codes `code`, `code + 1`, and so on.
pub open spec fn run_of_codes(t: Seq<DiagnosticEntry>, lo: int, hi: int, first: bool, code: int) -> bool {
    forall|k: int| lo <= k < hi ==> tests_code(#[trigger] t[k], first, code + (k - lo))
}

/// The same run, checked one entry after the other.
spec fn codes_run(t: Seq<DiagnosticEntry>, lo: int, hi: int, first: bool, code: int) -> bool
    decreases hi - lo,
{
    lo >= hi || (tests_code(t[lo], first, code) && codes_run(t, lo + 1, hi, first, code + 1))
}

proof fn lemma_codes_run(t: Seq<DiagnosticEntry>, lo: int, hi: int, first: bool, code: int)
    requires
        codes_run(t, lo, hi, first, code),
    ensures
        run_of_codes(t, lo, hi, first, code),
    decreases hi - lo,
{
    if lo < hi {
        lemma_codes_run(t, lo + 1, hi, first, code + 1);
    }
}

/// The layout of the diagnostic table: the first 244 entries test the first
/// byte for the codes 0x01 to 0x4D and 0x58 to 0xFE; then come the
/// second-byte codes 0x01 to 0x7B, the first-byte codes 0x4E to 0x57 of the
/// NOP tests, and the second-byte codes 0x7C to 0xFD.
pub proof fn lemma_table_layout()
    ensures
        diagnostic_table().len() == 507,
        run_of_codes(diagnostic_table(), 0, 61, true, 0x01),
        run_of_codes(diagnostic_table(), 61, 66, true, 0x71),
        run_of_codes(diagnostic_table(), 66, 82, true, 0x3E),
        run_of_codes(diagnostic_table(), 82, 107, true, 0x58),
        run_of_codes(diagnostic_table(), 107, 244, true, 0x76),
        run_of_codes(diagnostic_table(), 244, 367, false, 0x01),
        run_of_codes(diagnostic_table(), 367, 377, true, 0x4E),
        run_of_codes(diagnostic_table(), 377, 507, false, 0x7C),
{
    assert(run_of_codes(branch_tests(), 0, 16, true, 0x01)) by {
        reveal_with_fuel(codes_run, 17);
        lemma_codes_run(branch_tests(), 0, 16, true, 0x01);
    }
    assert(run_of_codes(flag_tests(), 0, 7, true, 0x11)) by {
        reveal_with_fuel(codes_run, 8);
        lemma_codes_run(flag_tests(), 0, 7, true, 0x11);
    }
    assert(run_of_codes(immediate_tests(), 0, 38, true, 0x18)) by {
        reveal_with_fuel(codes_run, 39);
        lemma_codes_run(immediate_tests(), 0, 38, true, 0x18);
    }
    assert(run_of_codes(immediate_tests(), 38, 43, true, 0x71)) by {
        reveal_with_fuel(codes_run, 6);
        lemma_codes_run(immediate_tests(), 38, 43, true, 0x71);
    }
    assert(run_of_codes(implied_tests(), 0, 8, true, 0x3E)) by {
        reveal_with_fuel(codes_run, 9);
        lemma_codes_run(implied_tests(), 0, 8, true, 0x3E);
    }
    assert(run_of_codes(stack_tests(), 0, 4, true, 0x46)) by {
        reveal_with_fuel(codes_run, 5);
        lemma_codes_run(stack_tests(), 0, 4, true, 0x46);
    }
    assert(run_of_codes(accumulator_tests(), 0, 4, true, 0x4A)) by {
        reveal_with_fuel(codes_run, 5);
        lemma_codes_run(accumulator_tests(), 0, 4, true, 0x4A);
    }
    assert(run_of_codes(indirect_x_tests(), 0, 25, true, 0x58)) by {
        reveal_with_fuel(codes_run, 26);
        lemma_codes_run(indirect_x_tests(), 0, 25, true, 0x58);
    }
    assert(run_of_codes(zeropage_tests(), 0, 58, true, 0x76)) by {
        reveal_with_fuel(codes_run, 59);
        lemma_codes_run(zeropage_tests(), 0, 58, true, 0x76);
    }
    assert(run_of_codes(absolute_tests(), 0, 58, true, 0xB0)) by {
        reveal_with_fuel(codes_run, 59);
        lemma_codes_run(absolute_tests(), 0, 58, true, 0xB0);
    }
    assert(run_of_codes(indirect_y_tests(), 0, 21, true, 0xEA)) by {
        reveal_with_fuel(codes_run, 22);
        lemma_codes_run(indirect_y_tests(), 0, 21, true, 0xEA);
    }
    assert(run_of_codes(indirect_y_tests(), 21, 28, false, 0x01)) by {
        reveal_with_fuel(codes_run, 8);
        lemma_codes_run(indirect_y_tests(), 21, 28, false, 0x01);
    }
    assert(run_of_codes(zeropage_x_tests(), 0, 46, false, 0x08)) by {
        reveal_with_fuel(codes_run, 47);
        lemma_codes_run(zeropage_x_tests(), 0, 46, false, 0x08);
    }
    assert(run_of_codes(absolute_y_tests(), 0, 27, false, 0x36)) by {
        reveal_with_fuel(codes_run, 28);
        lemma_codes_run(absolute_y_tests(), 0, 27, false, 0x36);
    }
    assert(run_of_codes(absolute_x_tests(), 0, 43, false, 0x51)) by {
        reveal_with_fuel(codes_run, 44);
        lemma_codes_run(absolute_x_tests(), 0, 43, false, 0x51);
    }
    assert(run_of_codes(nop_tests(), 0, 10, true, 0x4E)) by {
        reveal_with_fuel(codes_run, 11);
        lemma_codes_run(nop_tests(), 0, 10, true, 0x4E);
    }
    assert(run_of_codes(lax_tests(), 0, 12, false, 0x7C)) by {
        reveal_with_fuel(codes_run, 13);
        lemma_codes_run(lax_tests(), 0, 12, false, 0x7C);
    }
    assert(run_of_codes(sax_tests(), 0, 8, false, 0x88)) by {
        reveal_with_fuel(codes_run, 9);
        lemma_codes_run(sax_tests(), 0, 8, false, 0x88);
    }
    assert(run_of_codes(sbc_opcode_tests(), 0, 5, false, 0x90)) by {
        reveal_with_fuel(codes_run, 6);
        lemma_codes_run(sbc_opcode_tests(), 0, 5, false, 0x90);
    }
    assert(run_of_codes(dcp_tests(), 0, 21, false, 0x95)) by {
        reveal_with_fuel(codes_run, 22);
        lemma_codes_run(dcp_tests(), 0, 21, false, 0x95);
    }
    assert(run_of_codes(isb_tests(), 0, 21, false, 0xAA)) by {
        reveal_with_fuel(codes_run, 22);
        lemma_codes_run(isb_tests(), 0, 21, false, 0xAA);
    }
    assert(run_of_codes(slo_tests(), 0, 21, false, 0xBF)) by {
        reveal_with_fuel(codes_run, 22);
        lemma_codes_run(slo_tests(), 0, 21, false, 0xBF);
    }
    assert(run_of_codes(rla_tests(), 0, 21, false, 0xD4)) by {
        reveal_with_fuel(codes_run, 22);
        lemma_codes_run(rla_tests(), 0, 21, false, 0xD4);
    }
    assert(run_of_codes(sre_tests(), 0, 21, false, 0xE9)) by {
        reveal_with_fuel(codes_run, 22);
        lemma_codes_run(sre_tests(), 0, 21, false, 0xE9);
    }
    reveal(diagnostic_table);
}

} // verus!
