//! Main memory: 512 MiB of byte-addressed RAM at 0x8000_0000.
use std::ops::Range;

use vstd::prelude::*;

use crate::bus::BusTxSize;

verus! {

/// The little-endian value of the `n` bytes of `s` from index `start`.
pub open spec fn le_value(s: Seq<u8>, start: int, n: nat) -> nat
    decreases n,
{
    if n == 0 {
        0
    } else {
        s[start] as nat + 0x100 * le_value(s, start + 1, (n - 1) as nat)
    }
}

/// `s` with the `n` low bytes of `val` written little-endian from index `start`.
pub open spec fn le_write(s: Seq<u8>, start: int, val: nat, n: nat) -> Seq<u8>
    decreases n,
{
    if n == 0 {
        s
    } else {
        le_write(s.update(start, (val % 0x100) as u8), start + 1, val / 0x100, (n - 1) as nat)
    }
}

pub struct Ram(pub Vec<u8>);

impl View for Ram {
    type V = Seq<u8>;

    open spec fn view(&self) -> Seq<u8> {
        self.0@
    }
}

impl Ram {
    pub const BASE_ADDR: u64 = 0x8000_0000;

    pub const SIZE: u64 = 512 * 0x100000;

    pub const ADDR_RANGE: Range<u64> = 0x8000_0000..0xA000_0000;

    /// Whether an access of `size` at `addr` lies inside the memory.
    pub open spec fn access_ok(addr: u64, size: BusTxSize) -> bool {
        Self::BASE_ADDR <= addr && addr - Self::BASE_ADDR + size.bytes() <= Self::SIZE
    }

    pub fn new() -> (r: Self)
        ensures
            r@ == Seq::new(Self::SIZE as nat, |i: int| 0u8),
    {
        let r = Ram(vec![0u8; Self::SIZE as usize]);
        assert(r@ =~= Seq::new(Self::SIZE as nat, |i: int| 0u8));
        r
    }

    pub fn load(&self, addr: u64, size: BusTxSize) -> (r: u64)
        requires
            Self::access_ok(addr, size),
            self@.len() == Self::SIZE,
        ensures
            r == le_value(self@, addr - Self::BASE_ADDR, size.bytes()),
    {
        let addr = (addr - Self::BASE_ADDR) as usize;
        let m = &self.0;
        proof {
            reveal_with_fuel(le_value, 9);
        }
        match size {
            BusTxSize::Bits8 => m[addr] as u64,
            BusTxSize::Bits16 => m[addr] as u64 + 0x100 * (m[addr + 1] as u64),
            BusTxSize::Bits32 => m[addr] as u64 + 0x100 * (m[addr + 1] as u64 + 0x100 * (m[addr + 2] as u64
                + 0x100 * (m[addr + 3] as u64))),
            BusTxSize::Bits64 => m[addr] as u64 + 0x100 * (m[addr + 1] as u64 + 0x100 * (m[addr + 2] as u64
                + 0x100 * (m[addr + 3] as u64 + 0x100 * (m[addr + 4] as u64 + 0x100 * (m[addr + 5] as u64
                + 0x100 * (m[addr + 6] as u64 + 0x100 * (m[addr + 7] as u64))))))),
        }
    }

    pub fn store(&mut self, addr: u64, val: u64, size: BusTxSize)
        requires
            Self::access_ok(addr, size),
            old(self)@.len() == Self::SIZE,
        ensures
            final(self)@ == le_write(old(self)@, addr - Self::BASE_ADDR, val as nat, size.bytes()),
    {
        let addr = (addr - Self::BASE_ADDR) as usize;
        let n: usize = match size {
            BusTxSize::Bits8 => 1,
            BusTxSize::Bits16 => 2,
            BusTxSize::Bits32 => 4,
            BusTxSize::Bits64 => 8,
        };
        let mut i: usize = 0;
        let mut v = val;
        while i < n
            invariant
                n == size.bytes(),
                addr + n <= self@.len(),
                i <= n,
                le_write(old(self)@, addr as int, val as nat, n as nat)
                    == le_write(self@, addr + i, v as nat, (n - i) as nat),
                self@.len() == Self::SIZE,
            decreases n - i,
        {
            self.0.set(addr + i, (v % 0x100) as u8);
            v = v / 0x100;
            i = i + 1;
        }
    }
}

/// A little-endian write touches only the `n` bytes from `start` and keeps the length.
pub proof fn lemma_le_write_frame(s: Seq<u8>, start: int, val: nat, n: nat, i: int)
    requires
        0 <= start,
        start + n <= s.len(),
    ensures
        le_write(s, start, val, n).len() == s.len(),
        0 <= i < s.len() && !(start <= i < start + n) ==> le_write(s, start, val, n)[i] == s[i],
    decreases n,
{
    if n > 0 {
        lemma_le_write_frame(s.update(start, (val % 0x100) as u8), start + 1, val / 0x100, (n - 1) as nat, i);
    }
}

/// Reading back the bytes just written gives the written value cut to `n` bytes.
pub proof fn lemma_le_write_read(s: Seq<u8>, start: int, val: nat, n: nat)
    requires
        0 <= start,
        start + n <= s.len(),
    ensures
        le_value(le_write(s, start, val, n), start, n) == val % vstd::arithmetic::power2::pow2(8 * n),
    decreases n,
{
    vstd::arithmetic::power2::lemma2_to64();
    if n == 0 {
    } else {
        let s1 = s.update(start, (val % 0x100) as u8);
        lemma_le_write_read(s1, start + 1, val / 0x100, (n - 1) as nat);
        lemma_le_write_frame(s1, start + 1, val / 0x100, (n - 1) as nat, start);
        let w = le_write(s1, start + 1, val / 0x100, (n - 1) as nat);
        assert(le_write(s, start, val, n) == w);
        assert(w[start] == val % 0x100);
        let p = vstd::arithmetic::power2::pow2(8 * (n - 1) as nat);
        vstd::arithmetic::power2::lemma_pow2_adds(8 * (n - 1) as nat, 8);
        assert(8 * (n - 1) as nat + 8 == 8 * n);
        vstd::arithmetic::power2::lemma_pow2_pos(8 * (n - 1) as nat);
        vstd::arithmetic::div_mod::lemma_mod_breakdown(val as int, 0x100, p as int);
        vstd::arithmetic::mul::lemma_mul_is_commutative(p as int, 0x100);
    }
}

/// A little-endian read sees only the `n` bytes it covers.
pub proof fn lemma_le_value_local(s: Seq<u8>, t: Seq<u8>, start: int, n: nat)
    requires
        forall|i: int| start <= i < start + n ==> s[i] == t[i],
    ensures
        le_value(s, start, n) == le_value(t, start, n),
    decreases n,
{
    if n > 0 {
        lemma_le_value_local(s, t, start + 1, (n - 1) as nat);
    }
}

/// Law: a store keeps the memory's length and changes only the bytes it
/// covers; a load of the size of a store, at its address, returns the
/// stored value cut to that size; a load of bytes that the store does not
/// cover is unaffected by it.
pub proof fn lemma_ram_store_load(
    ram: Seq<u8>,
    addr: u64,
    val: u64,
    size: BusTxSize,
    other: u64,
    other_size: BusTxSize,
)
    requires
        ram.len() == Ram::SIZE,
        Ram::access_ok(addr, size),
        Ram::access_ok(other, other_size),
    ensures
        le_write(ram, addr - Ram::BASE_ADDR, val as nat, size.bytes()).len() == ram.len(),
        le_value(le_write(ram, addr - Ram::BASE_ADDR, val as nat, size.bytes()), addr - Ram::BASE_ADDR, size.bytes())
            == size.truncate(val),
        forall|i: int| 0 <= i < ram.len() && !(addr - Ram::BASE_ADDR <= i < addr - Ram::BASE_ADDR + size.bytes())
            ==> #[trigger] le_write(ram, addr - Ram::BASE_ADDR, val as nat, size.bytes())[i] == ram[i],
        other + other_size.bytes() <= addr || addr + size.bytes() <= other ==> le_value(
            le_write(ram, addr - Ram::BASE_ADDR, val as nat, size.bytes()),
            other - Ram::BASE_ADDR,
            other_size.bytes(),
        ) == le_value(ram, other - Ram::BASE_ADDR, other_size.bytes()),
{
    let a = addr - Ram::BASE_ADDR;
    lemma_le_write_frame(ram, a, val as nat, size.bytes(), 0);
    assert forall|i: int| 0 <= i < ram.len() && !(a <= i < a + size.bytes())
        implies #[trigger] le_write(ram, a, val as nat, size.bytes())[i] == ram[i] by {
        lemma_le_write_frame(ram, a, val as nat, size.bytes(), i);
    }
    lemma_le_write_read(ram, a, val as nat, size.bytes());
    vstd::arithmetic::power2::lemma2_to64();
    vstd::arithmetic::power2::lemma2_to64_rest();
    assert(8 * size.bytes() == match size {
        BusTxSize::Bits8 => 8nat,
        BusTxSize::Bits16 => 16nat,
        BusTxSize::Bits32 => 32nat,
        BusTxSize::Bits64 => 64nat,
    });
    let lhs = le_value(le_write(ram, a, val as nat, size.bytes()), a, size.bytes());
    assert(lhs == val as nat % vstd::arithmetic::power2::pow2(8 * size.bytes()));
    match size {
        BusTxSize::Bits8 => assert(lhs == val % 0x100),
        BusTxSize::Bits16 => assert(lhs == val % 0x1_0000),
        BusTxSize::Bits32 => assert(lhs == val % 0x1_0000_0000),
        BusTxSize::Bits64 => {
            assert(vstd::arithmetic::power2::pow2(64) == 0x1_0000_0000_0000_0000nat);
            vstd::arithmetic::div_mod::lemma_small_mod(val as nat, 0x1_0000_0000_0000_0000nat);
            assert(lhs == val);
        },
    }
    let w = le_write(ram, a, val as nat, size.bytes());
    if other + other_size.bytes() <= addr || addr + size.bytes() <= other {
        assert forall|i: int| other - Ram::BASE_ADDR <= i < other - Ram::BASE_ADDR + other_size.bytes() implies w[i] == ram[i] by {
            lemma_le_write_frame(ram, a, val as nat, size.bytes(), i);
        }
        lemma_le_value_local(w, ram, other - Ram::BASE_ADDR, other_size.bytes());
    }
}

} // verus!
