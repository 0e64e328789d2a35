//! Boot images: places the firmware (with the kernel), the device tree and
//! the initial ramdisk in RAM, and patches the device tree with the ramdisk
//! bounds and the memory size.
use vstd::prelude::*;

use crate::devices::ram::Ram;
use crate::{Cpu, CpuState};

verus! {

/// Where the hart starts: the first byte of RAM, where the firmware lies.
pub const BOOT_VECTOR: u64 = 0x8000_0000;

/// Placeholder in the device tree for the ramdisk's first address.
pub const INITRD_START_MAGIC: u32 = 0xDEADBEEF;

/// Placeholder in the device tree for the address just past the ramdisk.
pub const INITRD_END_MAGIC: u32 = 0xFEE1DEAD;

/// Placeholder in the device tree for the memory size.
pub const MEMORY_SIZE_MAGIC: u32 = 0xBADC0DE;

/// The address of the device tree: just after the firmware image.
pub open spec fn spec_device_tree_addr(payload_len: nat) -> int {
    Ram::BASE_ADDR + payload_len
}

pub fn device_tree_addr(payload_len: usize) -> (r: u64)
    requires
        payload_len <= Ram::SIZE,
    ensures
        r == spec_device_tree_addr(payload_len as nat),
{
    Ram::BASE_ADDR + payload_len as u64
}

/// The big-endian bytes of `v`.
pub open spec fn be_bytes(v: u32) -> Seq<u8> {
    seq![
        (v / 0x100_0000) as u8,
        ((v / 0x1_0000) % 0x100) as u8,
        ((v / 0x100) % 0x100) as u8,
        (v % 0x100) as u8,
    ]
}

/// Whether the four bytes of `buf` from offset `k` are the pattern `m`.
pub open spec fn matches_at(buf: Seq<u8>, m: Seq<u8>, k: int) -> bool {
    &&& 0 <= k
    &&& k + 4 <= buf.len()
    &&& buf[k] == m[0] && buf[k + 1] == m[1] && buf[k + 2] == m[2] && buf[k + 3] == m[3]
}

/// The offsets below `n` at which the pattern `m` occurs in `buf`, in
/// increasing order (overlapping occurrences included).
pub open spec fn occurrences(buf: Seq<u8>, m: Seq<u8>, n: nat) -> Seq<int>
    decreases n,
{
    if n == 0 {
        Seq::empty()
    } else {
        let k = n - 1;
        occurrences(buf, m, (n - 1) as nat) + if matches_at(buf, m, k) { seq![k] } else { Seq::empty() }
    }
}

/// Every offset of `buf` at which the big-endian bytes of `magic` occur.
pub open spec fn magic_offsets(buf: Seq<u8>, magic: u32) -> Seq<int> {
    occurrences(buf, be_bytes(magic), buf.len())
}

/// `buf` with the four bytes at `off` replaced by `replacement`, big-endian.
pub open spec fn patched(buf: Seq<u8>, off: int, replacement: u32) -> Seq<u8> {
    buf.subrange(0, off) + be_bytes(replacement) + buf.subrange(off + 4, buf.len() as int)
}

/// Every reported offset is one where the pattern occurs, below `n`.
proof fn lemma_occurrences(buf: Seq<u8>, m: Seq<u8>, n: nat)
    ensures
        forall|k: int| 0 <= k < occurrences(buf, m, n).len() ==> matches_at(buf, m, #[trigger] occurrences(buf, m, n)[k])
            && occurrences(buf, m, n)[k] < n,
        forall|j: int| 0 <= j < n && #[trigger] matches_at(buf, m, j) ==> occurrences(buf, m, n).contains(j),
        occurrences(buf, m, n).len() <= n,
    decreases n,
{
    if n > 0 {
        lemma_occurrences(buf, m, (n - 1) as nat);
        let prev = occurrences(buf, m, (n - 1) as nat);
        let k = n - 1;
        let cur = occurrences(buf, m, n);
        assert forall|j: int| 0 <= j < n && #[trigger] matches_at(buf, m, j) implies cur.contains(j) by {
            if j < n - 1 {
                let w = choose|w: int| 0 <= w < prev.len() && prev[w] == j;
                assert(cur[w] == j);
            } else {
                assert(cur[cur.len() - 1] == j);
            }
        }
    }
}

/// The scan itself: the number of occurrences and the offset of the first.
fn scan_magic(buf: &[u8], magic: u32) -> (r: (usize, usize))
    ensures
        r.0 == magic_offsets(buf@, magic).len(),
        r.0 > 0 ==> r.1 == magic_offsets(buf@, magic)[0],
{
    let magic_bytes: [u8; 4] = [
        (magic / 0x100_0000) as u8,
        ((magic / 0x1_0000) % 0x100) as u8,
        ((magic / 0x100) % 0x100) as u8,
        (magic % 0x100) as u8,
    ];
    let ghost m = be_bytes(magic);
    assert(magic_bytes@ =~= m);
    let mut count: usize = 0;
    let mut first: usize = 0;
    let mut i: usize = 0;
    while i < buf.len()
        invariant
            i <= buf@.len(),
            magic_bytes@ == m,
            m == be_bytes(magic),
            count as nat == occurrences(buf@, m, i as nat).len(),
            count <= i,
            count > 0 ==> first == occurrences(buf@, m, i as nat)[0],
        decreases buf@.len() - i,
    {
        let found = buf.len() >= 4 && i <= buf.len() - 4 && buf[i] == magic_bytes[0] && buf[i + 1] == magic_bytes[1]
            && buf[i + 2] == magic_bytes[2] && buf[i + 3] == magic_bytes[3];
        assert(found == matches_at(buf@, m, i as int));
        if found {
            if count == 0 {
                first = i;
            }
            count = count + 1;
        }
        i = i + 1;
    }
    (count, first)
}

/// The number of times the big-endian bytes of `magic` occur in `buf`.
pub fn magic_occurrences(buf: &[u8], magic: u32) -> (r: usize)
    ensures
        r == magic_offsets(buf@, magic).len(),
{
    scan_magic(buf, magic).0
}

/// Replaces the one occurrence of `magic` (big-endian) in `buf` by
/// `replacement`.
pub fn patch(buf: &mut [u8], magic: u32, replacement: u32)
    requires
        magic_offsets(old(buf)@, magic).len() == 1,
    ensures
        final(buf)@ == patched(old(buf)@, magic_offsets(old(buf)@, magic)[0], replacement),
{
    let (_, off) = scan_magic(buf, magic);
    proof {
        lemma_occurrences(buf@, be_bytes(magic), buf@.len());
    }
    buf[off] = (replacement / 0x100_0000) as u8;
    buf[off + 1] = ((replacement / 0x1_0000) % 0x100) as u8;
    buf[off + 2] = ((replacement / 0x100) % 0x100) as u8;
    buf[off + 3] = (replacement % 0x100) as u8;
    assert(buf@ =~= patched(old(buf)@, off as int, replacement));
}

/// Where the ramdisk goes: at the end of RAM.
pub open spec fn initrd_offset(initrd_len: nat) -> int {
    Ram::SIZE - initrd_len
}

/// RAM after the images are copied: the firmware and the device tree from
/// the start, the ramdisk at the end (over them, should they meet).
pub open spec fn loaded_ram(ram: Seq<u8>, payload: Seq<u8>, dt: Seq<u8>, initrd: Seq<u8>) -> Seq<u8> {
    let image = payload + dt;
    let off = initrd_offset(initrd.len());
    Seq::new(ram.len(), |i: int| if i >= off { initrd[i - off] } else if i < image.len() { image[i] } else { ram[i] })
}

/// The device tree as it lies in RAM before it is patched.
pub open spec fn dt_region(payload: Seq<u8>, dt: Seq<u8>, initrd: Seq<u8>) -> Seq<u8> {
    let p = payload.len();
    let off = initrd_offset(initrd.len());
    Seq::new(dt.len(), |j: int| if p + j >= off { initrd[p + j - off] } else { dt[j] })
}

/// The values the device tree is patched with: the ramdisk's bounds and the
/// memory size.
pub open spec fn initrd_start_value(initrd_len: nat) -> u32 {
    (Ram::BASE_ADDR + initrd_offset(initrd_len)) as u32
}

pub open spec fn initrd_end_value(initrd_len: nat) -> u32 {
    (Ram::BASE_ADDR + initrd_offset(initrd_len) + initrd_len) as u32
}

pub open spec fn memory_size_value() -> u32 {
    Ram::SIZE as u32
}

/// The three patches in turn; `None` where a magic value is not found
/// exactly once.
pub open spec fn patch_device_tree(region: Seq<u8>, initrd_len: nat) -> Option<Seq<u8>> {
    let o1 = magic_offsets(region, INITRD_START_MAGIC);
    if o1.len() != 1 {
        None
    } else {
        let r1 = patched(region, o1[0], initrd_start_value(initrd_len));
        let o2 = magic_offsets(r1, INITRD_END_MAGIC);
        if o2.len() != 1 {
            None
        } else {
            let r2 = patched(r1, o2[0], initrd_end_value(initrd_len));
            let o3 = magic_offsets(r2, MEMORY_SIZE_MAGIC);
            if o3.len() != 1 {
                None
            } else {
                Some(patched(r2, o3[0], memory_size_value()))
            }
        }
    }
}

proof fn lemma_patched_len(buf: Seq<u8>, magic: u32, replacement: u32)
    requires
        magic_offsets(buf, magic).len() == 1,
    ensures
        patched(buf, magic_offsets(buf, magic)[0], replacement).len() == buf.len(),
{
    lemma_occurrences(buf, be_bytes(magic), buf.len());
}

proof fn lemma_patch_device_tree_len(region: Seq<u8>, initrd_len: nat)
    requires
        patch_device_tree(region, initrd_len) is Some,
    ensures
        patch_device_tree(region, initrd_len).unwrap().len() == region.len(),
{
    let o1 = magic_offsets(region, INITRD_START_MAGIC);
    lemma_patched_len(region, INITRD_START_MAGIC, initrd_start_value(initrd_len));
    let r1 = patched(region, o1[0], initrd_start_value(initrd_len));
    let o2 = magic_offsets(r1, INITRD_END_MAGIC);
    lemma_patched_len(r1, INITRD_END_MAGIC, initrd_end_value(initrd_len));
    let r2 = patched(r1, o2[0], initrd_end_value(initrd_len));
    lemma_patched_len(r2, MEMORY_SIZE_MAGIC, memory_size_value());
}

/// The images fit and the device tree holds each magic value once.
pub open spec fn install_ok(payload: Seq<u8>, dt: Seq<u8>, initrd: Seq<u8>) -> bool {
    &&& payload.len() + dt.len() <= Ram::SIZE
    &&& initrd.len() <= Ram::SIZE
    &&& patch_device_tree(dt_region(payload, dt, initrd), initrd.len()) is Some
}

/// The machine after installation: the images in RAM with the patched
/// device tree, `a1` pointing at the device tree and the pc at the boot
/// vector.
pub open spec fn installed(s: CpuState, payload: Seq<u8>, dt: Seq<u8>, initrd: Seq<u8>) -> CpuState {
    let loaded = loaded_ram(s.bus.ram, payload, dt, initrd);
    let p = payload.len() as int;
    let d = dt.len() as int;
    let region = patch_device_tree(dt_region(payload, dt, initrd), initrd.len()).unwrap();
    CpuState {
        regs: s.regs.update(11, spec_device_tree_addr(payload.len()) as u64),
        pc: BOOT_VECTOR,
        bus: crate::bus::BusState {
            ram: loaded.subrange(0, p) + region + loaded.subrange(p + d, loaded.len() as int),
            ..s.bus
        },
        ..s
    }
}

/// The device tree's bytes as they will lie in RAM.
fn device_tree_region(payload_len: usize, device_tree: &[u8], initrd: &[u8]) -> (r: Vec<u8>)
    requires
        payload_len + device_tree@.len() <= Ram::SIZE,
        initrd@.len() <= Ram::SIZE,
    ensures
        r@ == dt_region(Seq::new(payload_len as nat, |i: int| 0u8), device_tree@, initrd@),
{
    let off = Ram::SIZE as usize - initrd.len();
    let mut r: Vec<u8> = Vec::new();
    let mut j: usize = 0;
    while j < device_tree.len()
        invariant
            j <= device_tree@.len(),
            payload_len + device_tree@.len() <= Ram::SIZE,
            off == initrd_offset(initrd@.len()),
            r@.len() == j,
            forall|k: int| 0 <= k < j ==> r@[k] == dt_region(Seq::new(payload_len as nat, |i: int| 0u8), device_tree@, initrd@)[k],
        decreases device_tree@.len() - j,
    {
        let v = if payload_len + j >= off { initrd[payload_len + j - off] } else { device_tree[j] };
        r.push(v);
        j = j + 1;
    }
    assert(r@ =~= dt_region(Seq::new(payload_len as nat, |i: int| 0u8), device_tree@, initrd@));
    r
}

proof fn lemma_dt_region_payload_len(payload: Seq<u8>, dt: Seq<u8>, initrd: Seq<u8>)
    ensures
        dt_region(payload, dt, initrd) == dt_region(Seq::new(payload.len(), |i: int| 0u8), dt, initrd),
{
    assert(dt_region(payload, dt, initrd) =~= dt_region(Seq::new(payload.len(), |i: int| 0u8), dt, initrd));
}

/// Applies the three device-tree patches, checking each magic value first;
/// false (with `region` partly patched) where one is not found exactly once.
fn apply_patches(region: &mut Vec<u8>, initrd_len: usize) -> (ok: bool)
    requires
        initrd_len <= Ram::SIZE,
    ensures
        ok == patch_device_tree(old(region)@, initrd_len as nat) is Some,
        ok ==> final(region)@ == patch_device_tree(old(region)@, initrd_len as nat).unwrap(),
{
    let off = Ram::SIZE - initrd_len as u64;
    let start = (Ram::BASE_ADDR + off) as u32;
    let end = (Ram::BASE_ADDR + off + initrd_len as u64) as u32;
    let size = Ram::SIZE as u32;
    if magic_occurrences(region.as_slice(), INITRD_START_MAGIC) != 1 {
        return false;
    }
    patch(region.as_mut_slice(), INITRD_START_MAGIC, start);
    if magic_occurrences(region.as_slice(), INITRD_END_MAGIC) != 1 {
        return false;
    }
    patch(region.as_mut_slice(), INITRD_END_MAGIC, end);
    if magic_occurrences(region.as_slice(), MEMORY_SIZE_MAGIC) != 1 {
        return false;
    }
    patch(region.as_mut_slice(), MEMORY_SIZE_MAGIC, size);
    true
}

/// Whether `install` takes these images (rather than aborting).
pub fn installable(open_sbi_payload: &[u8], device_tree: &[u8], initrd: &[u8]) -> (r: bool)
    ensures
        r == install_ok(open_sbi_payload@, device_tree@, initrd@),
{
    if open_sbi_payload.len() as u64 > Ram::SIZE || device_tree.len() as u64 > Ram::SIZE
        || (open_sbi_payload.len() + device_tree.len()) as u64 > Ram::SIZE || initrd.len() as u64 > Ram::SIZE {
        return false;
    }
    let mut region = device_tree_region(open_sbi_payload.len(), device_tree, initrd);
    proof {
        lemma_dt_region_payload_len(open_sbi_payload@, device_tree@, initrd@);
    }
    apply_patches(&mut region, initrd.len())
}

/// Copies the three images into `ram`.
fn load_images(ram: &mut Vec<u8>, open_sbi_payload: &[u8], device_tree: &[u8], initrd: &[u8])
    requires
        old(ram)@.len() == Ram::SIZE,
        open_sbi_payload@.len() + device_tree@.len() <= Ram::SIZE,
        initrd@.len() <= Ram::SIZE,
    ensures
        final(ram)@ == loaded_ram(old(ram)@, open_sbi_payload@, device_tree@, initrd@),
{
    let p = open_sbi_payload.len();
    let d = device_tree.len();
    let n = initrd.len();
    let ram_len = Ram::SIZE as usize;
    let off = ram_len - n;
    let ghost old_ram = ram@;
    let mut i: usize = 0;
    while i < p
        invariant
            i <= p,
            p == open_sbi_payload@.len(),
            p + d <= ram_len,
            ram_len == Ram::SIZE,
            ram@.len() == ram_len,
            old_ram.len() == ram_len,
            forall|k: int| 0 <= k < i ==> ram@[k] == open_sbi_payload@[k],
            forall|k: int| i <= k < ram_len ==> ram@[k] == old_ram[k],
        decreases p - i,
    {
        ram.set(i, open_sbi_payload[i]);
        i = i + 1;
    }
    let mut j: usize = 0;
    while j < d
        invariant
            j <= d,
            p == open_sbi_payload@.len(),
            d == device_tree@.len(),
            p + d <= ram_len,
            ram_len == Ram::SIZE,
            ram@.len() == ram_len,
            old_ram.len() == ram_len,
            forall|k: int| 0 <= k < p ==> ram@[k] == open_sbi_payload@[k],
            forall|k: int| p <= k < p + j ==> ram@[k] == device_tree@[k - p],
            forall|k: int| p + j <= k < ram_len ==> ram@[k] == old_ram[k],
        decreases d - j,
    {
        ram.set(p + j, device_tree[j]);
        j = j + 1;
    }
    let mut k: usize = 0;
    while k < n
        invariant
            k <= n,
            n == initrd@.len(),
            off == ram_len - n,
            p == open_sbi_payload@.len(),
            d == device_tree@.len(),
            p + d <= ram_len,
            ram_len == Ram::SIZE,
            ram@.len() == ram_len,
            old_ram.len() == ram_len,
            forall|x: int| 0 <= x < off ==> ram@[x] == (if x < p { open_sbi_payload@[x] } else if x < p + d { device_tree@[x - p] } else { old_ram[x] }),
            forall|x: int| off <= x < off + k ==> ram@[x] == initrd@[x - off],
            forall|x: int| off + k <= x < ram_len ==> ram@[x] == (if x < p { open_sbi_payload@[x] } else if x < p + d { device_tree@[x - p] } else { old_ram[x] }),
        decreases n - k,
    {
        ram.set(off + k, initrd[k]);
        k = k + 1;
    }
    assert(ram@ =~= loaded_ram(old_ram, open_sbi_payload@, device_tree@, initrd@));
}

/// Writes `region` into `ram` from offset `p`.
fn write_region(ram: &mut Vec<u8>, p: usize, region: &Vec<u8>)
    requires
        p + region@.len() <= old(ram)@.len(),
    ensures
        final(ram)@ == old(ram)@.subrange(0, p as int) + region@ + old(ram)@.subrange(p + region@.len(), old(ram)@.len() as int),
{
    let ghost old_ram = ram@;
    let d = region.len();
    let len = ram.len();
    let mut q: usize = 0;
    while q < d
        invariant
            q <= d,
            len == old_ram.len(),
            d == region@.len(),
            p + d <= old_ram.len(),
            ram@.len() == old_ram.len(),
            forall|x: int| 0 <= x < p ==> ram@[x] == old_ram[x],
            forall|x: int| p <= x < p + q ==> ram@[x] == region@[x - p],
            forall|x: int| p + q <= x < old_ram.len() ==> ram@[x] == old_ram[x],
        decreases d - q,
    {
        ram.set(p + q, region[q]);
        q = q + 1;
    }
    assert(ram@ =~= old_ram.subrange(0, p as int) + region@ + old_ram.subrange(p + d, old_ram.len() as int));
}

/// Places the firmware image (with the kernel) and the device tree at the
/// start of RAM and the ramdisk at its end, patches the device tree with
/// the ramdisk bounds and the memory size, points `a1` at the device tree
/// and sets the pc to the boot vector.
pub fn install(cpu: &mut Cpu, open_sbi_payload: &[u8], device_tree: &[u8], initrd: &[u8])
    requires
        old(cpu)@.wf(),
        install_ok(open_sbi_payload@, device_tree@, initrd@),
    ensures
        final(cpu)@ == installed(old(cpu)@, open_sbi_payload@, device_tree@, initrd@),
        final(cpu)@.wf(),
{
    let p = open_sbi_payload.len();
    let d = device_tree.len();
    let n = initrd.len();
    let ghost loaded = loaded_ram(cpu.bus.ram@, open_sbi_payload@, device_tree@, initrd@);
    load_images(&mut cpu.bus.ram.0, open_sbi_payload, device_tree, initrd);
    let mut region = device_tree_region(p, device_tree, initrd);
    proof {
        lemma_dt_region_payload_len(open_sbi_payload@, device_tree@, initrd@);
    }
    let ok = apply_patches(&mut region, n);
    proof {
        lemma_patch_device_tree_len(dt_region(open_sbi_payload@, device_tree@, initrd@), n as nat);
    }
    write_region(&mut cpu.bus.ram.0, p, &region);
    cpu.regs[11] = device_tree_addr(p);
    cpu.pc = BOOT_VECTOR;
}


/// Law: installing images that do not overlap (firmware and device tree
/// below the ramdisk), with each magic value once in the device tree, puts
/// the firmware at the start of RAM, the device tree with the three magic
/// values replaced by the ramdisk's start and end addresses and the memory
/// size right after it, the ramdisk at the end of RAM, and leaves every other
/// byte as it was; `a1` points at the device tree, the pc is at the boot
/// vector, and nothing else of the hart changes.
pub proof fn lemma_install_image(s: CpuState, payload: Seq<u8>, dt: Seq<u8>, initrd: Seq<u8>)
    requires
        s.wf(),
        payload.len() + dt.len() + initrd.len() <= Ram::SIZE,
        patch_device_tree(dt, initrd.len()) is Some,
    ensures
        install_ok(payload, dt, initrd),
        ({
            let t = installed(s, payload, dt, initrd);
            let p = payload.len() as int;
            let d = dt.len() as int;
            let off = initrd_offset(initrd.len());
            &&& t.pc == BOOT_VECTOR
            &&& t.regs == s.regs.update(11, (Ram::BASE_ADDR + payload.len()) as u64)
            &&& t.mode == s.mode && t.csr == s.csr && t.exception == s.exception
            &&& t.bus.ram == payload + patch_device_tree(dt, initrd.len()).unwrap()
                + s.bus.ram.subrange(p + d, off) + initrd
            &&& initrd_start_value(initrd.len()) == Ram::BASE_ADDR + Ram::SIZE - initrd.len()
            &&& initrd_end_value(initrd.len()) == Ram::BASE_ADDR + Ram::SIZE
            &&& memory_size_value() == Ram::SIZE
        }),
{
    let p = payload.len() as int;
    let d = dt.len() as int;
    let off = initrd_offset(initrd.len());
    assert(dt_region(payload, dt, initrd) =~= dt);
    lemma_patch_device_tree_len(dt, initrd.len() as nat);
    let region = patch_device_tree(dt, initrd.len()).unwrap();
    let loaded = loaded_ram(s.bus.ram, payload, dt, initrd);
    let t = installed(s, payload, dt, initrd);
    assert(t.bus.ram =~= payload + region + s.bus.ram.subrange(p + d, off) + initrd);
}

} // verus!
