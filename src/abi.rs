//! Hypercall interface definitions: status codes, call codes, the control and
//! result words, and guest physical ranges.
use vstd::prelude::*;

verus! {

pub const HV_PAGE_SIZE: u64 = 4096;

/// The partition id that names the caller's own partition.
pub const HV_PARTITION_ID_SELF: u64 = 0xffff_ffff_ffff_ffff;

/// The virtual processor index that names the calling processor.
pub const HV_VP_INDEX_SELF: u32 = 0xffff_fffe;

/// No access for lower trust levels.
pub const HV_MAP_GPA_PERMISSIONS_NONE: u32 = 0;

/// The guest identity that the framework registers: a Microsoft-family OS with
/// OS id 1 in bits 40..48.
pub const GUEST_OS_ID: u64 = 1 << 40;

pub const HV_STATUS_SUCCESS: u16 = 0;
pub const HV_STATUS_INVALID_HYPERCALL_INPUT: u16 = 0x0003;
pub const HV_STATUS_INVALID_PARAMETER: u16 = 0x0005;
pub const HV_STATUS_ACCESS_DENIED: u16 = 0x0006;
pub const HV_STATUS_INVALID_VP_INDEX: u16 = 0x000e;
pub const HV_STATUS_INVALID_VTL_STATE: u16 = 0x0051;
pub const HV_STATUS_VTL_ALREADY_ENABLED: u16 = 0x0086;

pub const HV_CALL_MODIFY_VTL_PROTECTION_MASK: u16 = 0x000c;
pub const HV_CALL_ENABLE_PARTITION_VTL: u16 = 0x000d;
pub const HV_CALL_ENABLE_VP_VTL: u16 = 0x000f;
pub const HV_CALL_VTL_CALL: u16 = 0x0011;
pub const HV_CALL_VTL_RETURN: u16 = 0x0012;
pub const HV_CALL_GET_VP_REGISTERS: u16 = 0x0050;
pub const HV_CALL_SET_VP_REGISTERS: u16 = 0x0051;
pub const HV_CALL_ACCEPT_GPA_PAGES: u16 = 0x0083;
pub const HV_CALL_START_VIRTUAL_PROCESSOR: u16 = 0x0099;
pub const HV_CALL_GET_VP_INDEX_FROM_APIC_ID: u16 = 0x009a;

pub const HV_X64_REGISTER_RSP: u32 = 0x0002_0004;
pub const HV_X64_REGISTER_RIP: u32 = 0x0002_0010;
pub const HV_X64_REGISTER_RFLAGS: u32 = 0x0002_0011;
pub const HV_X64_REGISTER_CR0: u32 = 0x0004_0000;
pub const HV_X64_REGISTER_CR3: u32 = 0x0004_0002;
pub const HV_X64_REGISTER_CR4: u32 = 0x0004_0003;
pub const HV_X64_REGISTER_ES: u32 = 0x0006_0000;
pub const HV_X64_REGISTER_CS: u32 = 0x0006_0001;
pub const HV_X64_REGISTER_SS: u32 = 0x0006_0002;
pub const HV_X64_REGISTER_DS: u32 = 0x0006_0003;
pub const HV_X64_REGISTER_FS: u32 = 0x0006_0004;
pub const HV_X64_REGISTER_GS: u32 = 0x0006_0005;
pub const HV_X64_REGISTER_LDTR: u32 = 0x0006_0006;
pub const HV_X64_REGISTER_TR: u32 = 0x0006_0007;
pub const HV_X64_REGISTER_IDTR: u32 = 0x0007_0000;
pub const HV_X64_REGISTER_GDTR: u32 = 0x0007_0001;
pub const HV_X64_REGISTER_EFER: u32 = 0x0008_0001;
pub const HV_X64_REGISTER_PAT: u32 = 0x0008_0004;
pub const HV_REGISTER_VP_INDEX: u32 = 0x0009_0003;
pub const HV_REGISTER_VSM_VP_STATUS: u32 = 0x000d_0003;
pub const HV_REGISTER_VSM_PARTITION_STATUS: u32 = 0x000d_0004;

pub const HV_X64_MSR_GUEST_OS_ID: u32 = 0x4000_0000;
pub const HV_X64_MSR_SIMP: u32 = 0x4000_0083;
pub const HV_X64_MSR_SINT0: u32 = 0x4000_0090;

/// The largest repetition count that a control word can carry.
pub const MAX_REP_COUNT: u64 = 0xfff;

/// A failure status returned by the hypervisor; the code is never zero.
#[derive(Clone, Copy, Debug, PartialEq, Eq, Structural)]
pub struct HvError(pub u16);

/// The control word of a hypercall: the call code in bits 0..16 and the
/// repetition count in bits 32..44.
pub open spec fn control_value(code: u16, rep_count: u64) -> u64 {
    (code as u64 + rep_count * 0x1_0000_0000) as u64
}

pub fn control_word(code: u16, rep_count: u64) -> (r: u64)
    requires
        rep_count <= MAX_REP_COUNT,
    ensures
        r == control_value(code, rep_count),
{
    let c = code as u64;
    let r = c | (rep_count << 32u64);
    assert(c <= 0xffff && rep_count <= 0xfff ==> (c | (rep_count << 32u64)) == c + rep_count
        * 0x1_0000_0000) by (bit_vector);
    r
}

/// The status code in bits 0..16 of a hypercall result word.
pub open spec fn status_of(output: u64) -> u16 {
    (output % 0x1_0000) as u16
}

/// The count of processed repetitions in bits 32..44 of a hypercall result word.
pub open spec fn processed_of(output: u64) -> u64 {
    (output / 0x1_0000_0000) % 0x1000
}

/// The outcome that a hypercall result word reports.
pub open spec fn result_of(output: u64) -> Result<(), HvError> {
    if status_of(output) == HV_STATUS_SUCCESS {
        Ok(())
    } else {
        Err(HvError(status_of(output)))
    }
}

pub fn output_status(output: u64) -> (r: u16)
    ensures
        r == status_of(output),
{
    let r = (output & 0xffff) as u16;
    assert((output & 0xffff) == output % 0x1_0000) by (bit_vector);
    r
}

pub fn output_result(output: u64) -> (r: Result<(), HvError>)
    ensures
        r == result_of(output),
{
    let s = output_status(output);
    if s == HV_STATUS_SUCCESS {
        Ok(())
    } else {
        Err(HvError(s))
    }
}

pub fn elements_processed(output: u64) -> (r: u64)
    ensures
        r == processed_of(output),
        r <= MAX_REP_COUNT,
{
    let r = (output >> 32u64) & 0xfff;
    assert(((output >> 32u64) & 0xfff) == (output / 0x1_0000_0000) % 0x1000) by (bit_vector);
    r
}

/// A range `[start, end)` of guest physical addresses on 4 KiB page boundaries.
#[derive(Clone, Copy, Debug, PartialEq, Eq, Structural)]
pub struct MemoryRange {
    start: u64,
    end: u64,
}

impl MemoryRange {
    pub closed spec fn start(&self) -> int {
        self.start as int
    }

    pub closed spec fn end(&self) -> int {
        self.end as int
    }

    pub open spec fn wf(&self) -> bool {
        &&& self.start() <= self.end()
        &&& self.start() % HV_PAGE_SIZE as int == 0
        &&& self.end() % HV_PAGE_SIZE as int == 0
    }

    /// The first page number of the range.
    pub open spec fn first_gpn(&self) -> int {
        self.start() / HV_PAGE_SIZE as int
    }

    /// The page number just past the range.
    pub open spec fn end_gpn(&self) -> int {
        self.end() / HV_PAGE_SIZE as int
    }

    /// The range `[start, end)`, or `None` where it is reversed or not on page boundaries.
    pub fn new(start: u64, end: u64) -> (r: Option<MemoryRange>)
        ensures
            (start <= end && start % 4096 == 0 && end % 4096 == 0) <==> r is Some,
            r is Some ==> r->0.start() == start && r->0.end() == end && r->0.wf(),
    {
        if start <= end && start % 4096 == 0 && end % 4096 == 0 {
            Some(MemoryRange { start, end })
        } else {
            None
        }
    }

    pub fn start_addr(&self) -> (r: u64)
        ensures
            r == self.start(),
    {
        self.start
    }

    pub fn end_addr(&self) -> (r: u64)
        ensures
            r == self.end(),
    {
        self.end
    }

    pub fn start_4k_gpn(&self) -> (r: u64)
        ensures
            r == self.first_gpn(),
    {
        self.start / 4096
    }

    pub fn end_4k_gpn(&self) -> (r: u64)
        ensures
            r == self.end_gpn(),
    {
        self.end / 4096
    }
}

} // verus!
