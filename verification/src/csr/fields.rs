//! Typed views of the control and status registers: each holds the raw
//! 64-bit value, masked to the bits that its fields cover.
use vstd::prelude::*;

verus! {

/// Bit `n` of `x`.
pub open spec fn bit_of(x: u64, n: u64) -> bool {
    (x >> n) & 1 != 0
}

/// `x` with bit `n` set to `b`.
pub open spec fn with_bit(x: u64, n: u64, b: bool) -> u64 {
    if b {
        x | (1u64 << n)
    } else {
        x & !(1u64 << n)
    }
}

/// The `w`-bit field of `x` starting at bit `lo`.
pub open spec fn field_of(x: u64, lo: u64, w: u64) -> u64 {
    (x >> lo) & (u64::MAX >> (64 - w) as u64)
}

/// `x` with its `w`-bit field at bit `lo` replaced by the low `w` bits of `v`.
pub open spec fn with_field(x: u64, lo: u64, w: u64, v: u64) -> u64 {
    (x & !((u64::MAX >> (64 - w) as u64) << lo)) | ((v & (u64::MAX >> (64 - w) as u64)) << lo)
}

fn get_bit(x: u64, n: u64) -> (r: bool)
    requires
        n < 64,
    ensures
        r == bit_of(x, n),
{
    (x >> n) & 1 != 0
}

fn put_bit(x: u64, n: u64, b: bool) -> (r: u64)
    requires
        n < 64,
    ensures
        r == with_bit(x, n, b),
{
    if b {
        x | (1u64 << n)
    } else {
        x & !(1u64 << n)
    }
}

fn get_field(x: u64, lo: u64, w: u64) -> (r: u64)
    requires
        lo < 64,
        0 < w <= 64,
    ensures
        r == field_of(x, lo, w),
{
    (x >> lo) & (u64::MAX >> (64 - w))
}

fn put_field(x: u64, lo: u64, w: u64, v: u64) -> (r: u64)
    requires
        lo < 64,
        0 < w <= 64,
    ensures
        r == with_field(x, lo, w, v),
{
    let mask = u64::MAX >> (64 - w);
    (x & !(mask << lo)) | ((v & mask) << lo)
}

/// Supervisor status: the view of `mstatus` that S-mode sees.
#[derive(Clone, Copy, Debug)]
pub struct SStatus(u64);

impl SStatus {
    /// The bits that some field of the register covers.
    pub const VALID_MASK: u64 = 0x80000003018de762;

    pub closed spec fn bits(self) -> u64 {
        self.0
    }

    pub closed spec fn spec_from_bits(bits: u64) -> SStatus {
        SStatus(bits & Self::VALID_MASK)
    }

    pub broadcast proof fn lemma_from_bits(bits: u64)
        ensures
            #[trigger] Self::spec_from_bits(bits).bits() == bits & Self::VALID_MASK,
    {
    }

    pub fn from_bits(bits: u64) -> (r: Self)
        ensures
            r == Self::spec_from_bits(bits),
            r.bits() == bits & Self::VALID_MASK,
    {
        SStatus(bits & Self::VALID_MASK)
    }

    pub fn as_bits(&self) -> (r: u64)
        ensures
            r == self.bits(),
    {
        self.0
    }

    #[verifier::allow_in_spec]
    pub fn sie(&self) -> bool
        returns
            bit_of(self.bits(), 1),
    {
        get_bit(self.0, 1)
    }

    pub fn set_sie(&mut self, val: bool)
        ensures
            final(self).bits() == with_bit(old(self).bits(), 1, val),
    {
        self.0 = put_bit(self.0, 1, val);
    }

    #[verifier::allow_in_spec]
    pub fn spie(&self) -> bool
        returns
            bit_of(self.bits(), 5),
    {
        get_bit(self.0, 5)
    }

    pub fn set_spie(&mut self, val: bool)
        ensures
            final(self).bits() == with_bit(old(self).bits(), 5, val),
    {
        self.0 = put_bit(self.0, 5, val);
    }

    #[verifier::allow_in_spec]
    pub fn spp(&self) -> bool
        returns
            bit_of(self.bits(), 8),
    {
        get_bit(self.0, 8)
    }

    pub fn set_spp(&mut self, val: bool)
        ensures
            final(self).bits() == with_bit(old(self).bits(), 8, val),
    {
        self.0 = put_bit(self.0, 8, val);
    }
}

/// Supervisor address translation and protection (`satp`).
#[derive(Clone, Copy, Debug)]
pub struct STranslationAndProtection(u64);

impl STranslationAndProtection {
    /// The bits that some field of the register covers.
    pub const VALID_MASK: u64 = 0xffffffffffffffff;

    pub closed spec fn bits(self) -> u64 {
        self.0
    }

    pub closed spec fn spec_from_bits(bits: u64) -> STranslationAndProtection {
        STranslationAndProtection(bits & Self::VALID_MASK)
    }

    pub broadcast proof fn lemma_from_bits(bits: u64)
        ensures
            #[trigger] Self::spec_from_bits(bits).bits() == bits & Self::VALID_MASK,
    {
    }

    pub fn from_bits(bits: u64) -> (r: Self)
        ensures
            r == Self::spec_from_bits(bits),
            r.bits() == bits & Self::VALID_MASK,
    {
        STranslationAndProtection(bits & Self::VALID_MASK)
    }

    pub fn as_bits(&self) -> (r: u64)
        ensures
            r == self.bits(),
    {
        self.0
    }

    #[verifier::allow_in_spec]
    pub fn ppn(&self) -> u64
        returns
            field_of(self.bits(), 0, 44),
    {
        get_field(self.0, 0, 44)
    }

    #[verifier::allow_in_spec]
    pub fn mode(&self) -> u64
        returns
            field_of(self.bits(), 60, 4),
    {
        get_field(self.0, 60, 4)
    }
}

/// Supervisor trap-handler base address and mode (`stvec`).
#[derive(Clone, Copy, Debug)]
pub struct STrapHandlerVector(u64);

impl STrapHandlerVector {
    /// The bits that some field of the register covers.
    pub const VALID_MASK: u64 = 0xffffffffffffffff;

    pub closed spec fn bits(self) -> u64 {
        self.0
    }

    pub closed spec fn spec_from_bits(bits: u64) -> STrapHandlerVector {
        STrapHandlerVector(bits & Self::VALID_MASK)
    }

    pub broadcast proof fn lemma_from_bits(bits: u64)
        ensures
            #[trigger] Self::spec_from_bits(bits).bits() == bits & Self::VALID_MASK,
    {
    }

    pub fn from_bits(bits: u64) -> (r: Self)
        ensures
            r == Self::spec_from_bits(bits),
            r.bits() == bits & Self::VALID_MASK,
    {
        STrapHandlerVector(bits & Self::VALID_MASK)
    }

    pub fn as_bits(&self) -> (r: u64)
        ensures
            r == self.bits(),
    {
        self.0
    }

    #[verifier::allow_in_spec]
    pub fn mode(&self) -> u64
        returns
            field_of(self.bits(), 0, 2),
    {
        get_field(self.0, 0, 2)
    }

    #[verifier::allow_in_spec]
    pub fn base(&self) -> u64
        returns
            field_of(self.bits(), 2, 62),
    {
        get_field(self.0, 2, 62)
    }
}

/// Supervisor trap cause (`scause`).
#[derive(Clone, Copy, Debug)]
pub struct STrapCause(u64);

impl STrapCause {
    /// The bits that some field of the register covers.
    pub const VALID_MASK: u64 = 0xffffffffffffffff;

    pub closed spec fn bits(self) -> u64 {
        self.0
    }

    pub closed spec fn spec_from_bits(bits: u64) -> STrapCause {
        STrapCause(bits & Self::VALID_MASK)
    }

    pub broadcast proof fn lemma_from_bits(bits: u64)
        ensures
            #[trigger] Self::spec_from_bits(bits).bits() == bits & Self::VALID_MASK,
    {
    }

    pub fn from_bits(bits: u64) -> (r: Self)
        ensures
            r == Self::spec_from_bits(bits),
            r.bits() == bits & Self::VALID_MASK,
    {
        STrapCause(bits & Self::VALID_MASK)
    }

    pub fn as_bits(&self) -> (r: u64)
        ensures
            r == self.bits(),
    {
        self.0
    }

    pub fn set_exception_code(&mut self, val: u64)
        ensures
            final(self).bits() == with_field(old(self).bits(), 0, 63, val),
    {
        self.0 = put_field(self.0, 0, 63, val);
    }

    pub fn set_interrupt(&mut self, val: bool)
        ensures
            final(self).bits() == with_bit(old(self).bits(), 63, val),
    {
        self.0 = put_bit(self.0, 63, val);
    }
}

/// Machine ISA register (`misa`).
#[derive(Clone, Copy, Debug)]
pub struct MIsaAndExtensions(u64);

impl MIsaAndExtensions {
    /// The bits that some field of the register covers.
    pub const VALID_MASK: u64 = 0xc0000000001411bf;

    pub closed spec fn bits(self) -> u64 {
        self.0
    }

    pub closed spec fn spec_from_bits(bits: u64) -> MIsaAndExtensions {
        MIsaAndExtensions(bits & Self::VALID_MASK)
    }

    pub broadcast proof fn lemma_from_bits(bits: u64)
        ensures
            #[trigger] Self::spec_from_bits(bits).bits() == bits & Self::VALID_MASK,
    {
    }

    pub fn from_bits(bits: u64) -> (r: Self)
        ensures
            r == Self::spec_from_bits(bits),
            r.bits() == bits & Self::VALID_MASK,
    {
        MIsaAndExtensions(bits & Self::VALID_MASK)
    }

    pub fn as_bits(&self) -> (r: u64)
        ensures
            r == self.bits(),
    {
        self.0
    }

    pub fn set_a_ext(&mut self, val: bool)
        ensures
            final(self).bits() == with_bit(old(self).bits(), 0, val),
    {
        self.0 = put_bit(self.0, 0, val);
    }

    pub fn set_c_ext(&mut self, val: bool)
        ensures
            final(self).bits() == with_bit(old(self).bits(), 2, val),
    {
        self.0 = put_bit(self.0, 2, val);
    }

    pub fn set_i_ext(&mut self, val: bool)
        ensures
            final(self).bits() == with_bit(old(self).bits(), 8, val),
    {
        self.0 = put_bit(self.0, 8, val);
    }

    pub fn set_m_ext(&mut self, val: bool)
        ensures
            final(self).bits() == with_bit(old(self).bits(), 12, val),
    {
        self.0 = put_bit(self.0, 12, val);
    }

    pub fn set_s_mode(&mut self, val: bool)
        ensures
            final(self).bits() == with_bit(old(self).bits(), 18, val),
    {
        self.0 = put_bit(self.0, 18, val);
    }

    pub fn set_u_mode(&mut self, val: bool)
        ensures
            final(self).bits() == with_bit(old(self).bits(), 20, val),
    {
        self.0 = put_bit(self.0, 20, val);
    }

    pub fn set_mxlen(&mut self, val: u64)
        ensures
            final(self).bits() == with_field(old(self).bits(), 62, 2, val),
    {
        self.0 = put_field(self.0, 62, 2, val);
    }
}

/// Machine status (`mstatus`).
#[derive(Clone, Copy, Debug)]
pub struct MStatus(u64);

impl MStatus {
    /// The bits that some field of the register covers.
    pub const VALID_MASK: u64 = 0x800006ff01ffffea;

    pub closed spec fn bits(self) -> u64 {
        self.0
    }

    pub closed spec fn spec_from_bits(bits: u64) -> MStatus {
        MStatus(bits & Self::VALID_MASK)
    }

    pub broadcast proof fn lemma_from_bits(bits: u64)
        ensures
            #[trigger] Self::spec_from_bits(bits).bits() == bits & Self::VALID_MASK,
    {
    }

    pub fn from_bits(bits: u64) -> (r: Self)
        ensures
            r == Self::spec_from_bits(bits),
            r.bits() == bits & Self::VALID_MASK,
    {
        MStatus(bits & Self::VALID_MASK)
    }

    pub fn as_bits(&self) -> (r: u64)
        ensures
            r == self.bits(),
    {
        self.0
    }

    #[verifier::allow_in_spec]
    pub fn sie(&self) -> bool
        returns
            bit_of(self.bits(), 1),
    {
        get_bit(self.0, 1)
    }

    #[verifier::allow_in_spec]
    pub fn mie(&self) -> bool
        returns
            bit_of(self.bits(), 3),
    {
        get_bit(self.0, 3)
    }

    pub fn set_mie(&mut self, val: bool)
        ensures
            final(self).bits() == with_bit(old(self).bits(), 3, val),
    {
        self.0 = put_bit(self.0, 3, val);
    }

    #[verifier::allow_in_spec]
    pub fn spie(&self) -> bool
        returns
            bit_of(self.bits(), 5),
    {
        get_bit(self.0, 5)
    }

    #[verifier::allow_in_spec]
    pub fn mpie(&self) -> bool
        returns
            bit_of(self.bits(), 7),
    {
        get_bit(self.0, 7)
    }

    pub fn set_mpie(&mut self, val: bool)
        ensures
            final(self).bits() == with_bit(old(self).bits(), 7, val),
    {
        self.0 = put_bit(self.0, 7, val);
    }

    #[verifier::allow_in_spec]
    pub fn spp(&self) -> bool
        returns
            bit_of(self.bits(), 8),
    {
        get_bit(self.0, 8)
    }

    #[verifier::allow_in_spec]
    pub fn vs(&self) -> u64
        returns
            field_of(self.bits(), 9, 2),
    {
        get_field(self.0, 9, 2)
    }

    #[verifier::allow_in_spec]
    pub fn mpp(&self) -> u64
        returns
            field_of(self.bits(), 11, 2),
    {
        get_field(self.0, 11, 2)
    }

    pub fn set_mpp(&mut self, val: u64)
        ensures
            final(self).bits() == with_field(old(self).bits(), 11, 2, val),
    {
        self.0 = put_field(self.0, 11, 2, val);
    }

    #[verifier::allow_in_spec]
    pub fn fs(&self) -> u64
        returns
            field_of(self.bits(), 13, 2),
    {
        get_field(self.0, 13, 2)
    }

    #[verifier::allow_in_spec]
    pub fn xs(&self) -> u64
        returns
            field_of(self.bits(), 15, 2),
    {
        get_field(self.0, 15, 2)
    }

    #[verifier::allow_in_spec]
    pub fn mprv(&self) -> bool
        returns
            bit_of(self.bits(), 17),
    {
        get_bit(self.0, 17)
    }

    pub fn set_mprv(&mut self, val: bool)
        ensures
            final(self).bits() == with_bit(old(self).bits(), 17, val),
    {
        self.0 = put_bit(self.0, 17, val);
    }

    #[verifier::allow_in_spec]
    pub fn sum(&self) -> bool
        returns
            bit_of(self.bits(), 18),
    {
        get_bit(self.0, 18)
    }

    #[verifier::allow_in_spec]
    pub fn mxr(&self) -> bool
        returns
            bit_of(self.bits(), 19),
    {
        get_bit(self.0, 19)
    }

    #[verifier::allow_in_spec]
    pub fn tsr(&self) -> bool
        returns
            bit_of(self.bits(), 22),
    {
        get_bit(self.0, 22)
    }

    #[verifier::allow_in_spec]
    pub fn uxl(&self) -> u64
        returns
            field_of(self.bits(), 32, 2),
    {
        get_field(self.0, 32, 2)
    }

    pub fn set_uxl(&mut self, val: u64)
        ensures
            final(self).bits() == with_field(old(self).bits(), 32, 2, val),
    {
        self.0 = put_field(self.0, 32, 2, val);
    }

    #[verifier::allow_in_spec]
    pub fn sxl(&self) -> u64
        returns
            field_of(self.bits(), 34, 2),
    {
        get_field(self.0, 34, 2)
    }

    pub fn set_sxl(&mut self, val: u64)
        ensures
            final(self).bits() == with_field(old(self).bits(), 34, 2, val),
    {
        self.0 = put_field(self.0, 34, 2, val);
    }

    #[verifier::allow_in_spec]
    pub fn sd(&self) -> bool
        returns
            bit_of(self.bits(), 63),
    {
        get_bit(self.0, 63)
    }

    pub fn set_sd(&mut self, val: bool)
        ensures
            final(self).bits() == with_bit(old(self).bits(), 63, val),
    {
        self.0 = put_bit(self.0, 63, val);
    }
}

/// Machine interrupt enable (`mie`).
#[derive(Clone, Copy, Debug)]
pub struct MInterruptEnable(u64);

impl MInterruptEnable {
    /// The bits that some field of the register covers.
    pub const VALID_MASK: u64 = 0x2aaa;

    pub closed spec fn bits(self) -> u64 {
        self.0
    }

    pub closed spec fn spec_from_bits(bits: u64) -> MInterruptEnable {
        MInterruptEnable(bits & Self::VALID_MASK)
    }

    pub broadcast proof fn lemma_from_bits(bits: u64)
        ensures
            #[trigger] Self::spec_from_bits(bits).bits() == bits & Self::VALID_MASK,
    {
    }

    pub fn from_bits(bits: u64) -> (r: Self)
        ensures
            r == Self::spec_from_bits(bits),
            r.bits() == bits & Self::VALID_MASK,
    {
        MInterruptEnable(bits & Self::VALID_MASK)
    }

    pub fn as_bits(&self) -> (r: u64)
        ensures
            r == self.bits(),
    {
        self.0
    }

    #[verifier::allow_in_spec]
    pub fn ssie(&self) -> bool
        returns
            bit_of(self.bits(), 1),
    {
        get_bit(self.0, 1)
    }

    #[verifier::allow_in_spec]
    pub fn msie(&self) -> bool
        returns
            bit_of(self.bits(), 3),
    {
        get_bit(self.0, 3)
    }

    #[verifier::allow_in_spec]
    pub fn stie(&self) -> bool
        returns
            bit_of(self.bits(), 5),
    {
        get_bit(self.0, 5)
    }

    #[verifier::allow_in_spec]
    pub fn mtie(&self) -> bool
        returns
            bit_of(self.bits(), 7),
    {
        get_bit(self.0, 7)
    }

    #[verifier::allow_in_spec]
    pub fn seie(&self) -> bool
        returns
            bit_of(self.bits(), 9),
    {
        get_bit(self.0, 9)
    }

    #[verifier::allow_in_spec]
    pub fn meie(&self) -> bool
        returns
            bit_of(self.bits(), 11),
    {
        get_bit(self.0, 11)
    }
}

/// Machine interrupt pending (`mip`).
#[derive(Clone, Copy, Debug)]
pub struct MInterruptPending(u64);

impl MInterruptPending {
    /// The bits that some field of the register covers.
    pub const VALID_MASK: u64 = 0x2aaa;

    pub closed spec fn bits(self) -> u64 {
        self.0
    }

    pub closed spec fn spec_from_bits(bits: u64) -> MInterruptPending {
        MInterruptPending(bits & Self::VALID_MASK)
    }

    pub broadcast proof fn lemma_from_bits(bits: u64)
        ensures
            #[trigger] Self::spec_from_bits(bits).bits() == bits & Self::VALID_MASK,
    {
    }

    pub fn from_bits(bits: u64) -> (r: Self)
        ensures
            r == Self::spec_from_bits(bits),
            r.bits() == bits & Self::VALID_MASK,
    {
        MInterruptPending(bits & Self::VALID_MASK)
    }

    pub fn as_bits(&self) -> (r: u64)
        ensures
            r == self.bits(),
    {
        self.0
    }

    #[verifier::allow_in_spec]
    pub fn ssip(&self) -> bool
        returns
            bit_of(self.bits(), 1),
    {
        get_bit(self.0, 1)
    }

    #[verifier::allow_in_spec]
    pub fn msip(&self) -> bool
        returns
            bit_of(self.bits(), 3),
    {
        get_bit(self.0, 3)
    }

    pub fn set_msip(&mut self, val: bool)
        ensures
            final(self).bits() == with_bit(old(self).bits(), 3, val),
    {
        self.0 = put_bit(self.0, 3, val);
    }

    #[verifier::allow_in_spec]
    pub fn stip(&self) -> bool
        returns
            bit_of(self.bits(), 5),
    {
        get_bit(self.0, 5)
    }

    #[verifier::allow_in_spec]
    pub fn mtip(&self) -> bool
        returns
            bit_of(self.bits(), 7),
    {
        get_bit(self.0, 7)
    }

    pub fn set_mtip(&mut self, val: bool)
        ensures
            final(self).bits() == with_bit(old(self).bits(), 7, val),
    {
        self.0 = put_bit(self.0, 7, val);
    }

    #[verifier::allow_in_spec]
    pub fn seip(&self) -> bool
        returns
            bit_of(self.bits(), 9),
    {
        get_bit(self.0, 9)
    }

    pub fn set_seip(&mut self, val: bool)
        ensures
            final(self).bits() == with_bit(old(self).bits(), 9, val),
    {
        self.0 = put_bit(self.0, 9, val);
    }

    #[verifier::allow_in_spec]
    pub fn meip(&self) -> bool
        returns
            bit_of(self.bits(), 11),
    {
        get_bit(self.0, 11)
    }

    pub fn set_meip(&mut self, val: bool)
        ensures
            final(self).bits() == with_bit(old(self).bits(), 11, val),
    {
        self.0 = put_bit(self.0, 11, val);
    }
}

/// Machine interrupt delegation (`mideleg`).
#[derive(Clone, Copy, Debug)]
pub struct MInterruptDelegation(u64);

impl MInterruptDelegation {
    /// The bits that some field of the register covers.
    pub const VALID_MASK: u64 = 0x2aaa;

    pub closed spec fn bits(self) -> u64 {
        self.0
    }

    pub closed spec fn spec_from_bits(bits: u64) -> MInterruptDelegation {
        MInterruptDelegation(bits & Self::VALID_MASK)
    }

    pub broadcast proof fn lemma_from_bits(bits: u64)
        ensures
            #[trigger] Self::spec_from_bits(bits).bits() == bits & Self::VALID_MASK,
    {
    }

    pub fn from_bits(bits: u64) -> (r: Self)
        ensures
            r == Self::spec_from_bits(bits),
            r.bits() == bits & Self::VALID_MASK,
    {
        MInterruptDelegation(bits & Self::VALID_MASK)
    }

    pub fn as_bits(&self) -> (r: u64)
        ensures
            r == self.bits(),
    {
        self.0
    }

    #[verifier::allow_in_spec]
    pub fn ss(&self) -> bool
        returns
            bit_of(self.bits(), 1),
    {
        get_bit(self.0, 1)
    }

    #[verifier::allow_in_spec]
    pub fn ms(&self) -> bool
        returns
            bit_of(self.bits(), 3),
    {
        get_bit(self.0, 3)
    }

    #[verifier::allow_in_spec]
    pub fn st(&self) -> bool
        returns
            bit_of(self.bits(), 5),
    {
        get_bit(self.0, 5)
    }

    #[verifier::allow_in_spec]
    pub fn mt(&self) -> bool
        returns
            bit_of(self.bits(), 7),
    {
        get_bit(self.0, 7)
    }

    #[verifier::allow_in_spec]
    pub fn se(&self) -> bool
        returns
            bit_of(self.bits(), 9),
    {
        get_bit(self.0, 9)
    }

    #[verifier::allow_in_spec]
    pub fn me(&self) -> bool
        returns
            bit_of(self.bits(), 11),
    {
        get_bit(self.0, 11)
    }
}

/// Machine exception delegation (`medeleg`).
#[derive(Clone, Copy, Debug)]
pub struct MExceptionDelegation(u64);

impl MExceptionDelegation {
    /// The bits that some field of the register covers.
    pub const VALID_MASK: u64 = 0xffffffffffffffff;

    pub closed spec fn bits(self) -> u64 {
        self.0
    }

    pub closed spec fn spec_from_bits(bits: u64) -> MExceptionDelegation {
        MExceptionDelegation(bits & Self::VALID_MASK)
    }

    pub broadcast proof fn lemma_from_bits(bits: u64)
        ensures
            #[trigger] Self::spec_from_bits(bits).bits() == bits & Self::VALID_MASK,
    {
    }

    pub fn from_bits(bits: u64) -> (r: Self)
        ensures
            r == Self::spec_from_bits(bits),
            r.bits() == bits & Self::VALID_MASK,
    {
        MExceptionDelegation(bits & Self::VALID_MASK)
    }

    pub fn as_bits(&self) -> (r: u64)
        ensures
            r == self.bits(),
    {
        self.0
    }

    #[verifier::allow_in_spec]
    pub fn instr_access_fault(&self) -> bool
        returns
            bit_of(self.bits(), 1),
    {
        get_bit(self.0, 1)
    }

    #[verifier::allow_in_spec]
    pub fn illegal_instruction(&self) -> bool
        returns
            bit_of(self.bits(), 2),
    {
        get_bit(self.0, 2)
    }

    #[verifier::allow_in_spec]
    pub fn breakpoint(&self) -> bool
        returns
            bit_of(self.bits(), 3),
    {
        get_bit(self.0, 3)
    }

    #[verifier::allow_in_spec]
    pub fn load_addr_misaligned(&self) -> bool
        returns
            bit_of(self.bits(), 4),
    {
        get_bit(self.0, 4)
    }

    #[verifier::allow_in_spec]
    pub fn store_addr_misaligned(&self) -> bool
        returns
            bit_of(self.bits(), 6),
    {
        get_bit(self.0, 6)
    }

    #[verifier::allow_in_spec]
    pub fn env_call_u_mode(&self) -> bool
        returns
            bit_of(self.bits(), 8),
    {
        get_bit(self.0, 8)
    }

    #[verifier::allow_in_spec]
    pub fn env_call_s_mode(&self) -> bool
        returns
            bit_of(self.bits(), 9),
    {
        get_bit(self.0, 9)
    }

    #[verifier::allow_in_spec]
    pub fn instr_page_fault(&self) -> bool
        returns
            bit_of(self.bits(), 12),
    {
        get_bit(self.0, 12)
    }

    #[verifier::allow_in_spec]
    pub fn load_page_fault(&self) -> bool
        returns
            bit_of(self.bits(), 13),
    {
        get_bit(self.0, 13)
    }

    #[verifier::allow_in_spec]
    pub fn store_page_fault(&self) -> bool
        returns
            bit_of(self.bits(), 15),
    {
        get_bit(self.0, 15)
    }
}

/// Machine trap-handler base address and mode (`mtvec`).
#[derive(Clone, Copy, Debug)]
pub struct MTrapHandlerVector(u64);

impl MTrapHandlerVector {
    /// The bits that some field of the register covers.
    pub const VALID_MASK: u64 = 0xffffffffffffffff;

    pub closed spec fn bits(self) -> u64 {
        self.0
    }

    pub closed spec fn spec_from_bits(bits: u64) -> MTrapHandlerVector {
        MTrapHandlerVector(bits & Self::VALID_MASK)
    }

    pub broadcast proof fn lemma_from_bits(bits: u64)
        ensures
            #[trigger] Self::spec_from_bits(bits).bits() == bits & Self::VALID_MASK,
    {
    }

    pub fn from_bits(bits: u64) -> (r: Self)
        ensures
            r == Self::spec_from_bits(bits),
            r.bits() == bits & Self::VALID_MASK,
    {
        MTrapHandlerVector(bits & Self::VALID_MASK)
    }

    pub fn as_bits(&self) -> (r: u64)
        ensures
            r == self.bits(),
    {
        self.0
    }

    #[verifier::allow_in_spec]
    pub fn mode(&self) -> u64
        returns
            field_of(self.bits(), 0, 2),
    {
        get_field(self.0, 0, 2)
    }

    #[verifier::allow_in_spec]
    pub fn base(&self) -> u64
        returns
            field_of(self.bits(), 2, 62),
    {
        get_field(self.0, 2, 62)
    }
}

/// Machine trap cause (`mcause`).
#[derive(Clone, Copy, Debug)]
pub struct MTrapCause(u64);

impl MTrapCause {
    /// The bits that some field of the register covers.
    pub const VALID_MASK: u64 = 0xffffffffffffffff;

    pub closed spec fn bits(self) -> u64 {
        self.0
    }

    pub closed spec fn spec_from_bits(bits: u64) -> MTrapCause {
        MTrapCause(bits & Self::VALID_MASK)
    }

    pub broadcast proof fn lemma_from_bits(bits: u64)
        ensures
            #[trigger] Self::spec_from_bits(bits).bits() == bits & Self::VALID_MASK,
    {
    }

    pub fn from_bits(bits: u64) -> (r: Self)
        ensures
            r == Self::spec_from_bits(bits),
            r.bits() == bits & Self::VALID_MASK,
    {
        MTrapCause(bits & Self::VALID_MASK)
    }

    pub fn as_bits(&self) -> (r: u64)
        ensures
            r == self.bits(),
    {
        self.0
    }

    pub fn set_exception_code(&mut self, val: u64)
        ensures
            final(self).bits() == with_field(old(self).bits(), 0, 63, val),
    {
        self.0 = put_field(self.0, 0, 63, val);
    }

    pub fn set_interrupt(&mut self, val: bool)
        ensures
            final(self).bits() == with_bit(old(self).bits(), 63, val),
    {
        self.0 = put_bit(self.0, 63, val);
    }
}

pub broadcast group group_from_bits {
    SStatus::lemma_from_bits,
    STranslationAndProtection::lemma_from_bits,
    STrapHandlerVector::lemma_from_bits,
    STrapCause::lemma_from_bits,
    MIsaAndExtensions::lemma_from_bits,
    MStatus::lemma_from_bits,
    MInterruptEnable::lemma_from_bits,
    MInterruptPending::lemma_from_bits,
    MInterruptDelegation::lemma_from_bits,
    MExceptionDelegation::lemma_from_bits,
    MTrapHandlerVector::lemma_from_bits,
    MTrapCause::lemma_from_bits,
}

} // verus!
