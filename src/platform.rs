//! Register values and sizes that the runtime computes for the platform.
use vstd::prelude::*;
use crate::abi::{
    HV_X64_REGISTER_CR0, HV_X64_REGISTER_CR3, HV_X64_REGISTER_CR4, HV_X64_REGISTER_CS,
    HV_X64_REGISTER_DS, HV_X64_REGISTER_EFER, HV_X64_REGISTER_ES, HV_X64_REGISTER_FS,
    HV_X64_REGISTER_GDTR, HV_X64_REGISTER_GS, HV_X64_REGISTER_IDTR, HV_X64_REGISTER_LDTR,
    HV_X64_REGISTER_PAT, HV_X64_REGISTER_RFLAGS, HV_X64_REGISTER_RIP, HV_X64_REGISTER_RSP,
    HV_X64_REGISTER_SS, HV_X64_REGISTER_TR,
};

verus! {

pub const SIZE_1MB: u64 = 1024 * 1024;
pub const PAGE_SIZE: u64 = 4096;

/// The SINT bit that masks the interrupt source.
pub const SINT_MASKED: u64 = 0x1_0000;

/// The SINT bit that ends the interrupt without an explicit EOI.
pub const SINT_AUTO_EOI: u64 = 0x2_0000;

/// The bit of `OsLoaderIndications` that opts the image into VTL protection.
pub const OS_LOADER_VTL_PROTECTION: u32 = 0x1;

/// The logical processor count that CPUID leaf 1 reports in bits 16..24 of EBX.
pub fn vp_count_from_cpuid(ebx: u32) -> (r: u32)
    ensures
        r == (ebx / 0x1_0000) % 0x100,
{
    let r = (ebx >> 16u32) & 0xff;
    assert(((ebx >> 16u32) & 0xff) == (ebx / 0x1_0000) % 0x100) by (bit_vector);
    r
}

/// The SIMP register value that enables the message page at `page_addr`:
/// its page number in bits 12 and up, and the enable bit.
pub fn simp_value(page_addr: u64) -> (r: u64)
    ensures
        r == (page_addr / PAGE_SIZE) * PAGE_SIZE + 1,
{
    let gpn = page_addr >> 12u64;
    let r = (gpn << 12u64) | 0x1;
    assert(((page_addr >> 12u64) << 12u64) | 0x1 == (page_addr / 4096) * 4096 + 1) by (bit_vector);
    r
}

/// The SINT register value derived from `old` that delivers `vector`, unmasked,
/// with automatic end of interrupt; every other bit is kept.
pub fn sint_value(old: u64, vector: u8) -> (r: u64)
    ensures
        r & 0xff == vector as u64,
        r & SINT_MASKED == 0,
        r & SINT_AUTO_EOI == SINT_AUTO_EOI,
        r & !0x3_00ffu64 == old & !0x3_00ffu64,
{
    let v = vector as u64;
    let r = ((old & !0xffu64) | v) & !SINT_MASKED | SINT_AUTO_EOI;
    assert(v <= 0xff ==> {
        let r = ((old & !0xffu64) | v) & !0x1_0000u64 | 0x2_0000u64;
        &&& r & 0xff == v
        &&& r & 0x1_0000 == 0
        &&& r & 0x2_0000 == 0x2_0000
        &&& r & !0x3_00ffu64 == old & !0x3_00ffu64
    }) by (bit_vector);
    r
}

/// The pages that a heap of `mib` MiB claims: its size in pages and one more.
pub open spec fn heap_page_count(mib: nat) -> nat {
    mib * SIZE_1MB as nat / PAGE_SIZE as nat + 1
}

/// Pages to claim for a heap of `mib` MiB, or `None` where the byte size of
/// those pages does not fit in a `u64`.
pub fn heap_pages(mib: u64) -> (r: Option<u64>)
    ensures
        r is Some <==> heap_page_count(mib as nat) * PAGE_SIZE <= u64::MAX,
        r is Some ==> r->0 == heap_page_count(mib as nat),
{
    if mib > 0xfff_ffff_ffff {
        assert(heap_page_count(mib as nat) == mib * 256 + 1);
        assert(heap_page_count(mib as nat) * PAGE_SIZE > u64::MAX) by (nonlinear_arith)
            requires
                heap_page_count(mib as nat) == mib * 256 + 1,
                mib > 0xfff_ffff_ffff,
        ;
        return None;
    }
    assert(heap_page_count(mib as nat) == mib * 256 + 1);
    assert(heap_page_count(mib as nat) * PAGE_SIZE <= u64::MAX) by (nonlinear_arith)
        requires
            heap_page_count(mib as nat) == mib * 256 + 1,
            mib <= 0xfff_ffff_ffff,
    ;
    Some(mib * 256 + 1)
}

/// The little-endian value of four bytes.
pub open spec fn le_u32(b0: u8, b1: u8, b2: u8, b3: u8) -> u32 {
    (b0 as u32) | ((b1 as u32) << 8u32) | ((b2 as u32) << 16u32) | ((b3 as u32) << 24u32)
}

/// The `OsLoaderIndications` variable with the VTL protection bit set, from its
/// current bytes: `None` when it holds fewer than four.
pub fn os_loader_indications_with_vtl_protection(current: &Vec<u8>) -> (r: Option<Vec<u8>>)
    ensures
        current@.len() < 4 ==> r is None,
        current@.len() >= 4 ==> r is Some && r->0@.len() == 4 && le_u32(
            r->0@[0],
            r->0@[1],
            r->0@[2],
            r->0@[3],
        ) == le_u32(current@[0], current@[1], current@[2], current@[3]) | OS_LOADER_VTL_PROTECTION,
{
    if current.len() < 4 {
        return None;
    }
    let b0 = current[0];
    let b1 = current[1];
    let b2 = current[2];
    let b3 = current[3];
    let nb0 = b0 | 1;
    assert(((b0 as u32) | ((b1 as u32) << 8u32) | ((b2 as u32) << 16u32) | ((b3 as u32) << 24u32))
        | 1u32 == ((b0 | 1u8) as u32) | ((b1 as u32) << 8u32) | ((b2 as u32) << 16u32) | ((
    b3 as u32) << 24u32)) by (bit_vector);
    Some(vec![nb0, b1, b2, b3])
}

/// A segment register as a processor context carries it.
#[derive(Clone, Copy, Debug, PartialEq, Eq, Structural)]
pub struct SegmentRegister {
    pub base: u64,
    pub limit: u32,
    pub selector: u16,
    pub attributes: u16,
}

/// A descriptor-table register as a processor context carries it.
#[derive(Clone, Copy, Debug, PartialEq, Eq, Structural)]
pub struct TableRegister {
    pub limit: u16,
    pub base: u64,
}

/// The architectural state that a processor starts or re-enters a trust level with.
#[derive(Clone, Copy, Debug, PartialEq, Eq, Structural)]
pub struct InitialVpContext {
    pub rip: u64,
    pub rsp: u64,
    pub rflags: u64,
    pub cs: SegmentRegister,
    pub ds: SegmentRegister,
    pub es: SegmentRegister,
    pub fs: SegmentRegister,
    pub gs: SegmentRegister,
    pub ss: SegmentRegister,
    pub tr: SegmentRegister,
    pub ldtr: SegmentRegister,
    pub idtr: TableRegister,
    pub gdtr: TableRegister,
    pub efer: u64,
    pub cr0: u64,
    pub cr3: u64,
    pub cr4: u64,
    pub msr_cr_pat: u64,
}

/// A segment register from the two halves of its register value: the base in
/// the low half; limit, selector and attributes from the bottom of the high half.
pub fn segment_from_value(low: u64, high: u64) -> (r: SegmentRegister)
    ensures
        r.base == low,
        r.limit == high % 0x1_0000_0000,
        r.selector == (high / 0x1_0000_0000) % 0x1_0000,
        r.attributes == high / 0x1_0000_0000_0000,
{
    let limit = (high & 0xffff_ffff) as u32;
    let selector = ((high >> 32u64) & 0xffff) as u16;
    let attributes = (high >> 48u64) as u16;
    assert((high & 0xffff_ffff) == high % 0x1_0000_0000 && ((high >> 32u64) & 0xffff) == (high
        / 0x1_0000_0000) % 0x1_0000 && (high >> 48u64) == high / 0x1_0000_0000_0000)
        by (bit_vector);
    SegmentRegister { base: low, limit, selector, attributes }
}

/// A descriptor-table register from the two halves of its register value: the
/// limit in the top two bytes of the low half, the base in the high half.
pub fn table_from_value(low: u64, high: u64) -> (r: TableRegister)
    ensures
        r.limit == low / 0x1_0000_0000_0000,
        r.base == high,
{
    let limit = (low >> 48u64) as u16;
    assert((low >> 48u64) == low / 0x1_0000_0000_0000) by (bit_vector);
    TableRegister { limit, base: high }
}

/// The high half of a segment register's value: limit, selector, attributes.
pub open spec fn segment_high(s: SegmentRegister) -> u64 {
    (s.limit as u64) | ((s.selector as u64) << 32u64) | ((s.attributes as u64) << 48u64)
}

/// The low half of a descriptor-table register's value: the limit in its top two bytes.
pub open spec fn table_low(t: TableRegister) -> u64 {
    (t.limit as u64) << 48u64
}

fn segment_value(s: SegmentRegister) -> (r: (u64, u64))
    ensures
        r.0 == s.base,
        r.1 == segment_high(s),
{
    (s.base, (s.limit as u64) | ((s.selector as u64) << 32u64) | ((s.attributes as u64) << 48u64))
}

/// The registers, as (name, low half, high half), that load `c` into a processor.
pub open spec fn context_register_list(c: InitialVpContext) -> Seq<(u32, u64, u64)> {
    seq![
        (HV_X64_REGISTER_RIP, c.rip, 0u64),
        (HV_X64_REGISTER_RSP, c.rsp, 0u64),
        (HV_X64_REGISTER_RFLAGS, c.rflags, 0u64),
        (HV_X64_REGISTER_CS, c.cs.base, segment_high(c.cs)),
        (HV_X64_REGISTER_DS, c.ds.base, segment_high(c.ds)),
        (HV_X64_REGISTER_ES, c.es.base, segment_high(c.es)),
        (HV_X64_REGISTER_FS, c.fs.base, segment_high(c.fs)),
        (HV_X64_REGISTER_GS, c.gs.base, segment_high(c.gs)),
        (HV_X64_REGISTER_SS, c.ss.base, segment_high(c.ss)),
        (HV_X64_REGISTER_TR, c.tr.base, segment_high(c.tr)),
        (HV_X64_REGISTER_LDTR, c.ldtr.base, segment_high(c.ldtr)),
        (HV_X64_REGISTER_IDTR, table_low(c.idtr), c.idtr.base),
        (HV_X64_REGISTER_GDTR, table_low(c.gdtr), c.gdtr.base),
        (HV_X64_REGISTER_EFER, c.efer, 0u64),
        (HV_X64_REGISTER_CR0, c.cr0, 0u64),
        (HV_X64_REGISTER_CR3, c.cr3, 0u64),
        (HV_X64_REGISTER_CR4, c.cr4, 0u64),
        (HV_X64_REGISTER_PAT, c.msr_cr_pat, 0u64),
    ]
}

/// The registers that load `c` into a processor, in the order they are written.
pub fn context_registers(c: &InitialVpContext) -> (r: Vec<(u32, u64, u64)>)
    ensures
        r@ == context_register_list(*c),
{
    let s = [c.cs, c.ds, c.es, c.fs, c.gs, c.ss, c.tr, c.ldtr];
    let names = [
        HV_X64_REGISTER_CS,
        HV_X64_REGISTER_DS,
        HV_X64_REGISTER_ES,
        HV_X64_REGISTER_FS,
        HV_X64_REGISTER_GS,
        HV_X64_REGISTER_SS,
        HV_X64_REGISTER_TR,
        HV_X64_REGISTER_LDTR,
    ];
    let mut out: Vec<(u32, u64, u64)> = vec![
        (HV_X64_REGISTER_RIP, c.rip, 0u64),
        (HV_X64_REGISTER_RSP, c.rsp, 0u64),
        (HV_X64_REGISTER_RFLAGS, c.rflags, 0u64),
    ];
    let mut i: usize = 0;
    while i < 8
        invariant
            i <= 8,
            s@ == seq![c.cs, c.ds, c.es, c.fs, c.gs, c.ss, c.tr, c.ldtr],
            names@ == seq![
                HV_X64_REGISTER_CS,
                HV_X64_REGISTER_DS,
                HV_X64_REGISTER_ES,
                HV_X64_REGISTER_FS,
                HV_X64_REGISTER_GS,
                HV_X64_REGISTER_SS,
                HV_X64_REGISTER_TR,
                HV_X64_REGISTER_LDTR,
            ],
            out@ == context_register_list(*c).subrange(0, 3 + i),
        decreases 8 - i,
    {
        let v = segment_value(s[i]);
        out.push((names[i], v.0, v.1));
        assert(context_register_list(*c).subrange(0, 3 + i + 1) =~= context_register_list(
            *c,
        ).subrange(0, 3 + i).push((names@[i as int], v.0, v.1)));
        i = i + 1;
    }
    out.push((HV_X64_REGISTER_IDTR, (c.idtr.limit as u64) << 48u64, c.idtr.base));
    out.push((HV_X64_REGISTER_GDTR, (c.gdtr.limit as u64) << 48u64, c.gdtr.base));
    out.push((HV_X64_REGISTER_EFER, c.efer, 0u64));
    out.push((HV_X64_REGISTER_CR0, c.cr0, 0u64));
    out.push((HV_X64_REGISTER_CR3, c.cr3, 0u64));
    out.push((HV_X64_REGISTER_CR4, c.cr4, 0u64));
    out.push((HV_X64_REGISTER_PAT, c.msr_cr_pat, 0u64));
    assert(out@ =~= context_register_list(*c));
    out
}

/// The stack size of a processor's default context.
pub const DEFAULT_STACK_SIZE: u64 = SIZE_1MB;

/// `ctx` redirected to start at `entry` on the stack `[stack_base, stack_base +
/// stack_size)`, which grows down from its top; every other register is kept.
/// `None` where the stack's top does not fit in an address.
pub fn retarget_context(ctx: InitialVpContext, entry: u64, stack_base: u64, stack_size: u64) -> (r:
    Option<InitialVpContext>)
    ensures
        stack_base + stack_size > u64::MAX ==> r is None,
        stack_base + stack_size <= u64::MAX ==> r == Some(
            InitialVpContext { rip: entry, rsp: (stack_base + stack_size) as u64, ..ctx },
        ),
{
    if stack_base > u64::MAX - stack_size {
        return None;
    }
    let mut c = ctx;
    c.rip = entry;
    c.rsp = stack_base + stack_size;
    Some(c)
}

} // verus!
