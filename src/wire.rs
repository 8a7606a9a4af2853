//! The byte layout of hypercall input pages: little-endian fields in the order
//! the hypervisor reads them.
use vstd::prelude::*;
use crate::abi::{HV_MAP_GPA_PERMISSIONS_NONE, HV_PARTITION_ID_SELF, HV_VP_INDEX_SELF};
use crate::platform::{InitialVpContext, SegmentRegister, TableRegister};
use crate::vtl::{Vtl, CURRENT_VTL};

verus! {

/// The `n` low bytes of `x`, least significant first.
pub open spec fn le_bytes(x: nat, n: nat) -> Seq<u8>
    decreases n,
{
    if n == 0 {
        Seq::empty()
    } else {
        seq![(x % 256) as u8] + le_bytes(x / 256, (n - 1) as nat)
    }
}

/// Appends the `n` low bytes of `x`, least significant first.
pub fn push_le(out: &mut Vec<u8>, x: u64, n: usize)
    ensures
        final(out)@ == old(out)@ + le_bytes(x as nat, n as nat),
{
    let mut v: u64 = x;
    let mut i: usize = 0;
    while i < n
        invariant
            i <= n,
            old(out)@ + le_bytes(x as nat, n as nat) == out@ + le_bytes(v as nat, (n - i) as nat),
        decreases n - i,
    {
        let ghost before = out@;
        out.push((v % 256) as u8);
        assert(le_bytes(v as nat, (n - i) as nat) == seq![(v % 256) as u8] + le_bytes(
            (v / 256) as nat,
            (n - i - 1) as nat,
        ));
        assert(out@ + le_bytes((v / 256) as nat, (n - i - 1) as nat) =~= before + le_bytes(
            v as nat,
            (n - i) as nat,
        ));
        v = v / 256;
        i = i + 1;
    }
    assert(out@ + le_bytes(v as nat, 0) =~= out@);
}

/// The page numbers `first .. first + count`, eight bytes each.
pub open spec fn page_list(first: nat, count: nat) -> Seq<u8>
    decreases count,
{
    if count == 0 {
        Seq::empty()
    } else {
        page_list(first, (count - 1) as nat) + le_bytes((first + count - 1) as nat, 8)
    }
}

/// The header shared by register reads and writes of the calling processor.
pub open spec fn vp_registers_header() -> Seq<u8> {
    le_bytes(HV_PARTITION_ID_SELF as nat, 8) + le_bytes(HV_VP_INDEX_SELF as nat, 4) + le_bytes(
        CURRENT_VTL as nat,
        1,
    ) + le_bytes(0, 3)
}

/// The input of a protection-mask change over the pages `first .. first + count`.
pub open spec fn protection_input_bytes(first: nat, count: nat) -> Seq<u8> {
    le_bytes(HV_PARTITION_ID_SELF as nat, 8) + le_bytes(HV_MAP_GPA_PERMISSIONS_NONE as nat, 4)
        + le_bytes(CURRENT_VTL as nat, 1) + le_bytes(0, 3) + page_list(first, count)
}

/// The input of a register read.
pub open spec fn get_register_input_bytes(name: u32) -> Seq<u8> {
    vp_registers_header() + le_bytes(name as nat, 4)
}

/// The input of a register write: the header, then the name, twelve bytes of
/// padding and the sixteen-byte value.
pub open spec fn set_register_input_bytes(name: u32, value_low: u64, value_high: u64) -> Seq<u8> {
    vp_registers_header() + le_bytes(name as nat, 4) + le_bytes(0, 12) + le_bytes(
        value_low as nat,
        8,
    ) + le_bytes(value_high as nat, 8)
}

/// The input of a register write on processor `vp` at the level that the
/// target-VTL byte `input_vtl` selects.
pub open spec fn set_vp_register_input_bytes(
    vp: u32,
    input_vtl: u8,
    name: u32,
    value_low: u64,
    value_high: u64,
) -> Seq<u8> {
    le_bytes(HV_PARTITION_ID_SELF as nat, 8) + le_bytes(vp as nat, 4) + le_bytes(
        input_vtl as nat,
        1,
    ) + le_bytes(0, 3) + le_bytes(name as nat, 4) + le_bytes(0, 12) + le_bytes(value_low as nat, 8)
        + le_bytes(value_high as nat, 8)
}

/// The attributes of a page acceptance: the memory type in bits 0..6, private
/// host visibility (zero) in bits 6..8, and level 2 alone in the level set
/// (bits 8..11).
pub open spec fn accept_attributes(memory_type: u32) -> u32 {
    ((memory_type % 64) + 0x400) as u32
}

/// The input that accepts the pages from `first_gpn` on with the given memory type.
pub open spec fn accept_input_bytes(first_gpn: u64, memory_type: u32) -> Seq<u8> {
    le_bytes(HV_PARTITION_ID_SELF as nat, 8) + le_bytes(accept_attributes(memory_type) as nat, 4)
        + le_bytes(0, 4) + le_bytes(first_gpn as nat, 8)
}

/// The input that enables `vtl` on a partition, with no optional features.
pub open spec fn enable_partition_vtl_input_bytes(partition_id: u64, vtl: Vtl) -> Seq<u8> {
    le_bytes(partition_id as nat, 8) + le_bytes(vtl.level() as nat, 1) + le_bytes(0, 1)
        + le_bytes(0, 2) + le_bytes(0, 4)
}

pub open spec fn segment_bytes(s: SegmentRegister) -> Seq<u8> {
    le_bytes(s.base as nat, 8) + le_bytes(s.limit as nat, 4) + le_bytes(s.selector as nat, 2)
        + le_bytes(s.attributes as nat, 2)
}

pub open spec fn table_bytes(t: TableRegister) -> Seq<u8> {
    le_bytes(0, 6) + le_bytes(t.limit as nat, 2) + le_bytes(t.base as nat, 8)
}

/// A processor context as the hypervisor reads it.
pub open spec fn context_bytes(c: InitialVpContext) -> Seq<u8> {
    le_bytes(c.rip as nat, 8) + le_bytes(c.rsp as nat, 8) + le_bytes(c.rflags as nat, 8)
        + segment_bytes(c.cs) + segment_bytes(c.ds) + segment_bytes(c.es) + segment_bytes(c.fs)
        + segment_bytes(c.gs) + segment_bytes(c.ss) + segment_bytes(c.tr) + segment_bytes(c.ldtr)
        + table_bytes(c.idtr) + table_bytes(c.gdtr) + le_bytes(c.efer as nat, 8) + le_bytes(
        c.cr0 as nat,
        8,
    ) + le_bytes(c.cr3 as nat, 8) + le_bytes(c.cr4 as nat, 8) + le_bytes(c.msr_cr_pat as nat, 8)
}

/// The input that enables `vtl` on processor `vp` of this partition.
pub open spec fn enable_vp_vtl_input_bytes(vp: u32, vtl: Vtl, ctx: InitialVpContext) -> Seq<u8> {
    le_bytes(HV_PARTITION_ID_SELF as nat, 8) + le_bytes(vp as nat, 4) + le_bytes(
        vtl.level() as nat,
        1,
    ) + le_bytes(0, 3) + context_bytes(ctx)
}

/// The input that starts processor `vp` of this partition at `vtl`.
pub open spec fn start_vp_input_bytes(vp: u32, vtl: Vtl, ctx: InitialVpContext) -> Seq<u8> {
    le_bytes(HV_PARTITION_ID_SELF as nat, 8) + le_bytes(vp as nat, 4) + le_bytes(
        vtl.level() as nat,
        1,
    ) + le_bytes(0, 1) + le_bytes(0, 2) + context_bytes(ctx)
}

/// The hardware ids, four bytes each.
pub open spec fn id_list(ids: Seq<u32>) -> Seq<u8>
    decreases ids.len(),
{
    if ids.len() == 0 {
        Seq::empty()
    } else {
        id_list(ids.drop_last()) + le_bytes(ids.last() as nat, 4)
    }
}

/// The input that looks up the processor indices of `ids`, asked of level 0.
pub open spec fn vp_index_input_bytes(ids: Seq<u32>) -> Seq<u8> {
    le_bytes(HV_PARTITION_ID_SELF as nat, 8) + le_bytes(0, 1) + le_bytes(0, 7) + id_list(ids)
}

fn push_vp_registers_header(out: &mut Vec<u8>)
    ensures
        final(out)@ == old(out)@ + vp_registers_header(),
{
    push_le(out, HV_PARTITION_ID_SELF, 8);
    push_le(out, HV_VP_INDEX_SELF as u64, 4);
    push_le(out, CURRENT_VTL as u64, 1);
    push_le(out, 0, 3);
    assert(out@ =~= old(out)@ + vp_registers_header());
}

/// The input page of a protection-mask change over `first .. first + count`.
pub fn protection_input(first: u64, count: u64) -> (r: Vec<u8>)
    requires
        first + count <= u64::MAX,
    ensures
        r@ == protection_input_bytes(first as nat, count as nat),
{
    let mut out: Vec<u8> = Vec::new();
    push_le(&mut out, HV_PARTITION_ID_SELF, 8);
    push_le(&mut out, HV_MAP_GPA_PERMISSIONS_NONE as u64, 4);
    push_le(&mut out, CURRENT_VTL as u64, 1);
    push_le(&mut out, 0, 3);
    let ghost header = out@;
    let mut i: u64 = 0;
    while i < count
        invariant
            i <= count,
            first + count <= u64::MAX,
            out@ == header + page_list(first as nat, i as nat),
        decreases count - i,
    {
        push_le(&mut out, first + i, 8);
        assert(page_list(first as nat, (i + 1) as nat) == page_list(first as nat, i as nat)
            + le_bytes((first + i) as nat, 8));
        assert(out@ =~= header + page_list(first as nat, (i + 1) as nat));
        i = i + 1;
    }
    assert(out@ =~= protection_input_bytes(first as nat, count as nat));
    out
}

/// The input page of a register read on the calling processor.
pub fn get_register_input(name: u32) -> (r: Vec<u8>)
    ensures
        r@ == get_register_input_bytes(name),
{
    let mut out: Vec<u8> = Vec::new();
    push_vp_registers_header(&mut out);
    push_le(&mut out, name as u64, 4);
    assert(out@ =~= get_register_input_bytes(name));
    out
}

/// The input page of a register write on the calling processor; the value is
/// given as its low and high eight bytes.
pub fn set_register_input(name: u32, value_low: u64, value_high: u64) -> (r: Vec<u8>)
    ensures
        r@ == set_register_input_bytes(name, value_low, value_high),
{
    let mut out: Vec<u8> = Vec::new();
    push_vp_registers_header(&mut out);
    push_le(&mut out, name as u64, 4);
    push_le(&mut out, 0, 12);
    push_le(&mut out, value_low, 8);
    push_le(&mut out, value_high, 8);
    assert(out@ =~= set_register_input_bytes(name, value_low, value_high));
    out
}

/// The input page of a register write on processor `vp` at the level that
/// `input_vtl` selects.
pub fn set_vp_register_input(
    vp: u32,
    input_vtl: u8,
    name: u32,
    value_low: u64,
    value_high: u64,
) -> (r: Vec<u8>)
    ensures
        r@ == set_vp_register_input_bytes(vp, input_vtl, name, value_low, value_high),
{
    let mut out: Vec<u8> = Vec::new();
    push_le(&mut out, HV_PARTITION_ID_SELF, 8);
    push_le(&mut out, vp as u64, 4);
    push_le(&mut out, input_vtl as u64, 1);
    push_le(&mut out, 0, 3);
    push_le(&mut out, name as u64, 4);
    push_le(&mut out, 0, 12);
    push_le(&mut out, value_low, 8);
    push_le(&mut out, value_high, 8);
    assert(out@ =~= set_vp_register_input_bytes(vp, input_vtl, name, value_low, value_high));
    out
}

/// The input page of a page acceptance starting at `first_gpn`; the call's
/// repetition count says how many pages.
pub fn accept_input(first_gpn: u64, memory_type: u32) -> (r: Vec<u8>)
    ensures
        r@ == accept_input_bytes(first_gpn, memory_type),
{
    let attributes = (memory_type & 0x3f) | 0x400;
    assert((memory_type & 0x3f) | 0x400 == ((memory_type % 64) + 0x400) as u32) by (bit_vector);
    let mut out: Vec<u8> = Vec::new();
    push_le(&mut out, HV_PARTITION_ID_SELF, 8);
    push_le(&mut out, attributes as u64, 4);
    push_le(&mut out, 0, 4);
    push_le(&mut out, first_gpn, 8);
    assert(out@ =~= accept_input_bytes(first_gpn, memory_type));
    out
}

/// The input page that enables `vtl` on a partition.
pub fn enable_partition_vtl_input(partition_id: u64, vtl: Vtl) -> (r: Vec<u8>)
    ensures
        r@ == enable_partition_vtl_input_bytes(partition_id, vtl),
{
    let mut out: Vec<u8> = Vec::new();
    push_le(&mut out, partition_id, 8);
    push_le(&mut out, vtl.as_u8() as u64, 1);
    push_le(&mut out, 0, 1);
    push_le(&mut out, 0, 2);
    push_le(&mut out, 0, 4);
    assert(out@ =~= enable_partition_vtl_input_bytes(partition_id, vtl));
    out
}

fn push_segment(out: &mut Vec<u8>, s: SegmentRegister)
    ensures
        final(out)@ == old(out)@ + segment_bytes(s),
{
    push_le(out, s.base, 8);
    push_le(out, s.limit as u64, 4);
    push_le(out, s.selector as u64, 2);
    push_le(out, s.attributes as u64, 2);
    assert(out@ =~= old(out)@ + segment_bytes(s));
}

fn push_table(out: &mut Vec<u8>, t: TableRegister)
    ensures
        final(out)@ == old(out)@ + table_bytes(t),
{
    push_le(out, 0, 6);
    push_le(out, t.limit as u64, 2);
    push_le(out, t.base, 8);
    assert(out@ =~= old(out)@ + table_bytes(t));
}

/// Appends a processor context in the hypervisor's layout.
pub fn push_context(out: &mut Vec<u8>, c: &InitialVpContext)
    ensures
        final(out)@ == old(out)@ + context_bytes(*c),
{
    push_le(out, c.rip, 8);
    push_le(out, c.rsp, 8);
    push_le(out, c.rflags, 8);
    push_segment(out, c.cs);
    push_segment(out, c.ds);
    push_segment(out, c.es);
    push_segment(out, c.fs);
    push_segment(out, c.gs);
    push_segment(out, c.ss);
    push_segment(out, c.tr);
    push_segment(out, c.ldtr);
    push_table(out, c.idtr);
    push_table(out, c.gdtr);
    push_le(out, c.efer, 8);
    push_le(out, c.cr0, 8);
    push_le(out, c.cr3, 8);
    push_le(out, c.cr4, 8);
    push_le(out, c.msr_cr_pat, 8);
    assert(out@ =~= old(out)@ + context_bytes(*c));
}

/// The input page that enables `vtl` on processor `vp`, entering at `ctx`.
pub fn enable_vp_vtl_input(vp: u32, vtl: Vtl, ctx: &InitialVpContext) -> (r: Vec<u8>)
    ensures
        r@ == enable_vp_vtl_input_bytes(vp, vtl, *ctx),
{
    let mut out: Vec<u8> = Vec::new();
    push_le(&mut out, HV_PARTITION_ID_SELF, 8);
    push_le(&mut out, vp as u64, 4);
    push_le(&mut out, vtl.as_u8() as u64, 1);
    push_le(&mut out, 0, 3);
    push_context(&mut out, ctx);
    assert(out@ =~= enable_vp_vtl_input_bytes(vp, vtl, *ctx));
    out
}

/// The input page that starts processor `vp` at `vtl`, entering at `ctx`.
pub fn start_vp_input(vp: u32, vtl: Vtl, ctx: &InitialVpContext) -> (r: Vec<u8>)
    ensures
        r@ == start_vp_input_bytes(vp, vtl, *ctx),
{
    let mut out: Vec<u8> = Vec::new();
    push_le(&mut out, HV_PARTITION_ID_SELF, 8);
    push_le(&mut out, vp as u64, 4);
    push_le(&mut out, vtl.as_u8() as u64, 1);
    push_le(&mut out, 0, 1);
    push_le(&mut out, 0, 2);
    push_context(&mut out, ctx);
    assert(out@ =~= start_vp_input_bytes(vp, vtl, *ctx));
    out
}

/// The input page that looks up the hardware ids `ids`.
pub fn vp_index_input(ids: &[u32]) -> (r: Vec<u8>)
    ensures
        r@ == vp_index_input_bytes(ids@),
{
    let mut out: Vec<u8> = Vec::new();
    push_le(&mut out, HV_PARTITION_ID_SELF, 8);
    push_le(&mut out, 0, 1);
    push_le(&mut out, 0, 7);
    let ghost header = out@;
    let mut i: usize = 0;
    while i < ids.len()
        invariant
            i <= ids@.len(),
            out@ == header + id_list(ids@.subrange(0, i as int)),
        decreases ids@.len() - i,
    {
        push_le(&mut out, ids[i] as u64, 4);
        let ghost next = ids@.subrange(0, i + 1);
        assert(next.drop_last() =~= ids@.subrange(0, i as int));
        assert(out@ =~= header + id_list(next));
        i = i + 1;
    }
    assert(ids@.subrange(0, ids@.len() as int) =~= ids@);
    assert(out@ =~= vp_index_input_bytes(ids@));
    out
}

} // verus!
