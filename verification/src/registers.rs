//! The PowerPC register file and the flag bits of XER and CR.
use vstd::prelude::*;
use crate::altivec::types::Vector128;
use crate::config::CpuModel;

verus! {

/// XER summary overflow.
pub const XER_SO: u32 = 0x8000_0000;
/// XER overflow.
pub const XER_OV: u32 = 0x4000_0000;
/// XER carry.
pub const XER_CA: u32 = 0x2000_0000;

/// MSR external interrupt enable.
pub const MSR_EE: u32 = 0x8000;
/// MSR problem (user) state.
pub const MSR_PR: u32 = 0x4000;
/// MSR floating-point available.
pub const MSR_FP: u32 = 0x2000;
/// MSR machine check enable.
pub const MSR_ME: u32 = 0x1000;
/// MSR floating-point exception mode 0.
pub const MSR_FE0: u32 = 0x0800;
/// MSR single-step trace enable.
pub const MSR_SE: u32 = 0x0400;
/// MSR branch trace enable.
pub const MSR_BE: u32 = 0x0200;
/// MSR floating-point exception mode 1.
pub const MSR_FE1: u32 = 0x0100;
/// MSR exception prefix: vectors at 0xFFF0_0000 rather than 0.
pub const MSR_IP: u32 = 0x0040;
/// MSR instruction address translation.
pub const MSR_IR: u32 = 0x0020;
/// MSR data address translation.
pub const MSR_DR: u32 = 0x0010;

/// The PowerPC processor generation being emulated.
#[derive(Debug, Clone, Copy, PartialEq, Eq, Structural)]
pub enum PpcModel {
    /// PowerPC 750
    G3,
    /// PowerPC 7400
    G4,
    /// PowerPC 970
    G5,
}

/// The processor model a configured CPU model stands for.
pub open spec fn model_of(m: CpuModel) -> PpcModel {
    match m {
        CpuModel::G3 => PpcModel::G3,
        CpuModel::G4 => PpcModel::G4,
        CpuModel::G5 => PpcModel::G5,
    }
}

impl From<CpuModel> for PpcModel {
    fn from(model: CpuModel) -> (r: Self) {
        match model {
            CpuModel::G3 => PpcModel::G3,
            CpuModel::G4 => PpcModel::G4,
            CpuModel::G5 => PpcModel::G5,
        }
    }
}

impl vstd::std_specs::convert::FromSpecImpl<CpuModel> for PpcModel {
    open spec fn obeys_from_spec() -> bool {
        true
    }

    open spec fn from_spec(model: CpuModel) -> PpcModel {
        model_of(model)
    }
}

/// One block address translation register pair.
#[derive(Debug, Clone, Copy, PartialEq, Eq, Structural)]
pub struct BatEntry {
    /// BATU: block effective page index, block length and valid bits
    pub upper: u32,
    /// BATL: block real page number, storage attributes and protection
    pub lower: u32,
}

/// The architected registers of one PowerPC processor.
///
/// Floating-point registers hold the raw IEEE-754 bits of their doubles.
#[derive(Clone, Copy)]
pub struct Registers {
    /// General-purpose registers
    pub gpr: [u32; 32],
    /// Floating-point registers, as bit patterns
    pub fpr: [u64; 32],
    /// AltiVec vector registers
    pub vr: [Vector128; 32],
    /// Condition register
    pub cr: u32,
    /// Fixed-point exception register
    pub xer: u32,
    /// Link register
    pub lr: u32,
    /// Count register
    pub ctr: u32,
    /// Program counter
    pub pc: u32,
    /// Machine state register
    pub msr: u32,
    /// Segment registers
    pub sr: [u32; 16],
    /// Special-purpose registers, by number
    pub spr: [u32; 1024],
    /// The processor model
    pub model: PpcModel,
    /// Instruction block address translation registers
    pub ibat: [BatEntry; 4],
    /// Data block address translation registers
    pub dbat: [BatEntry; 4],
}

/// Whether `flag` is set in `x`.
pub open spec fn has_flag(x: u32, flag: u32) -> bool {
    x & flag != 0
}

/// XER after an instruction that records overflow: an overflow sets SO and OV,
/// otherwise OV is cleared and SO stays as it was.
pub open spec fn xer_after_overflow(xer: u32, overflow: bool) -> u32 {
    if overflow { xer | (XER_SO | XER_OV) } else { xer & !XER_OV }
}

/// XER with the carry bit set to `carry`.
pub open spec fn xer_with_carry(xer: u32, carry: bool) -> u32 {
    if carry { xer | XER_CA } else { xer & !XER_CA }
}

/// The four bits LT, GT, EQ, SO of a condition register field.
pub open spec fn cr_nibble(lt: bool, gt: bool, eq: bool, so: bool) -> u32 {
    ((if lt { 8int } else { 0int }) + (if gt { 4int } else { 0int }) + (if eq { 2int } else { 0int }) + (if so { 1int } else { 0int })) as u32
}

/// `cr` with its field `field` (0 is the most significant) replaced by `nibble`.
pub open spec fn with_cr_field(cr: u32, field: u32, nibble: u32) -> u32 {
    (cr & !(0xFu32 << ((28 - field * 4) as u32))) | (nibble << ((28 - field * 4) as u32))
}

/// Field `field` of `cr`.
pub open spec fn cr_field(cr: u32, field: u32) -> u32 {
    (cr >> ((28 - field * 4) as u32)) & 0xFu32
}

/// CR after recording `result` in field 0, with summary overflow `so`.
pub open spec fn cr0_after(cr: u32, result: u32, so: bool) -> u32 {
    with_cr_field(cr, 0, cr_nibble((result as i32) < 0, (result as i32) > 0, result == 0, so))
}

/// Bit `bit` of `cr`, bit 0 being the most significant.
pub open spec fn cr_bit(cr: u32, bit: u32) -> bool {
    cr & (1u32 << ((31 - bit) as u32)) != 0
}

/// `cr` with bit `bit` set to `value`.
pub open spec fn with_cr_bit(cr: u32, bit: u32, value: bool) -> u32 {
    if value { cr | (1u32 << ((31 - bit) as u32)) } else { cr & !(1u32 << ((31 - bit) as u32)) }
}

/// Setting field `f` of the condition register and reading field `g` back
/// gives the new bits where `g` is `f` and the old ones elsewhere.
pub proof fn law_cr_field_read_back(cr: u32, f: u32, g: u32, nibble: u32)
    requires
        f < 8,
        g < 8,
        nibble < 16,
    ensures
        cr_field(with_cr_field(cr, f, nibble), g) == if g == f { nibble } else { cr_field(cr, g) },
{
    assert(cr_field(with_cr_field(cr, f, nibble), g) == if g == f { nibble } else { cr_field(cr, g) }) by (bit_vector)
        requires
            f < 8,
            g < 8,
            nibble < 16,
    ;
}

/// Setting bit `b` of the condition register and reading bit `c` back
/// gives the new value where `c` is `b` and the old one elsewhere.
pub proof fn law_cr_bit_read_back(cr: u32, b: u32, c: u32, value: bool)
    requires
        b < 32,
        c < 32,
    ensures
        cr_bit(with_cr_bit(cr, b, value), c) == if c == b { value } else { cr_bit(cr, c) },
{
    assert(cr_bit(with_cr_bit(cr, b, value), c) == if c == b { value } else { cr_bit(cr, c) }) by (bit_vector)
        requires
            b < 32,
            c < 32,
    ;
}

impl Registers {
    /// Every register of `self` is zero and the model is `model`.
    pub open spec fn is_zeroed(self, model: PpcModel) -> bool {
        &&& forall|i: int| 0 <= i < 32 ==> self.gpr@[i] == 0 && self.fpr@[i] == 0 && self.vr@[i].words@ == seq![0u32, 0u32, 0u32, 0u32]
        &&& forall|i: int| 0 <= i < 16 ==> self.sr@[i] == 0
        &&& forall|i: int| 0 <= i < 1024 ==> self.spr@[i] == 0
        &&& self.cr == 0 && self.xer == 0 && self.lr == 0 && self.ctr == 0 && self.pc == 0 && self.msr == 0
        &&& self.model == model
        &&& forall|i: int| 0 <= i < 4 ==> self.ibat@[i] == BatEntry { upper: 0, lower: 0 } && self.dbat@[i] == BatEntry { upper: 0, lower: 0 }
    }

    /// A register file with every register zero.
    pub fn new(model: PpcModel) -> (r: Self)
        ensures
            r.is_zeroed(model),
    {
        let z = Vector128::zero();
        let no_bat = BatEntry { upper: 0, lower: 0 };
        Registers {
            gpr: [0u32; 32],
            fpr: [0u64; 32],
            vr: [z; 32],
            cr: 0,
            xer: 0,
            lr: 0,
            ctr: 0,
            pc: 0,
            msr: 0,
            sr: [0u32; 16],
            spr: [0u32; 1024],
            model,
            ibat: [no_bat; 4],
            dbat: [no_bat; 4],
        }
    }

    /// General-purpose register `i`.
    pub fn gpr_at(&self, i: u8) -> (r: u32)
        requires
            i < 32,
        ensures
            r == self.gpr[i as int],
    {
        self.gpr[i as usize]
    }

    /// Everything but the GPRs, XER and CR agrees in `self` and `other`.
    pub open spec fn same_except_gpr_xer_cr(self, other: Registers) -> bool {
        &&& self.fpr == other.fpr
        &&& self.vr == other.vr
        &&& self.lr == other.lr
        &&& self.ctr == other.ctr
        &&& self.pc == other.pc
        &&& self.msr == other.msr
        &&& self.sr == other.sr
        &&& self.spr == other.spr
        &&& self.model == other.model
        &&& self.ibat == other.ibat
        &&& self.dbat == other.dbat
    }

    /// `new` is `self` with only the condition register changed, to `cr`.
    pub open spec fn cr_result(self, new: Registers, cr: u32) -> bool {
        &&& self.same_except_gpr_xer_cr(new)
        &&& new.gpr == self.gpr
        &&& new.xer == self.xer
        &&& new.cr == cr
    }

    /// Everything but the program counter, link and count registers agrees
    /// in `self` and `other`.
    pub open spec fn same_except_branch(self, other: Registers) -> bool {
        &&& self.gpr == other.gpr
        &&& self.fpr == other.fpr
        &&& self.vr == other.vr
        &&& self.cr == other.cr
        &&& self.xer == other.xer
        &&& self.msr == other.msr
        &&& self.sr == other.sr
        &&& self.spr == other.spr
        &&& self.model == other.model
        &&& self.ibat == other.ibat
        &&& self.dbat == other.dbat
    }

    /// `new` is `self` after an integer instruction that wrote `v` to GPR
    /// `rt`, left XER as `xer` and, when `rc`, recorded `v` in CR0.
    pub open spec fn int_result(self, new: Registers, rt: int, v: u32, xer: u32, rc: bool) -> bool {
        &&& self.same_except_gpr_xer_cr(new)
        &&& new.gpr@ == self.gpr@.update(rt, v)
        &&& new.xer == xer
        &&& new.cr == if rc { cr0_after(self.cr, v, has_flag(xer, XER_SO)) } else { self.cr }
    }
}

} // verus!
