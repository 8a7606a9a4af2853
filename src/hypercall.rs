//! The decisions around hypercalls: how a request is split into calls that each
//! fit one input page, and what each result word means for the caller.
use vstd::prelude::*;
use crate::abi::{
    elements_processed, output_result, output_status, processed_of, result_of, status_of, HvError,
    MemoryRange, HV_PAGE_SIZE, HV_STATUS_SUCCESS, HV_STATUS_VTL_ALREADY_ENABLED,
};
use crate::vtl::Vtl;

verus! {

/// Bytes in the header of a protection-mask change: partition id, map flags,
/// target level and three reserved bytes.
pub const MODIFY_VTL_PROTECTION_HEADER_SIZE: u64 = 16;

/// Bytes in the header of a page acceptance: partition id, page attributes,
/// permission set and the first page number.
pub const ACCEPT_GPA_PAGES_HEADER_SIZE: u64 = 24;

/// Page numbers that fit one protection-mask change after its header.
pub const MAX_PROTECTION_BATCH: u64 = (HV_PAGE_SIZE - MODIFY_VTL_PROTECTION_HEADER_SIZE) / 8;

/// Pages that one acceptance call may cover.
pub const MAX_ACCEPT_BATCH: u64 = (HV_PAGE_SIZE - ACCEPT_GPA_PAGES_HEADER_SIZE) / 8;

/// Hardware ids looked up by one call.
pub const MAX_HW_IDS_PER_CALL: u64 = 512;

/// The hypercall handle's state: whether this processor has registered its guest
/// identity, and the trust level it runs at.
pub struct HvCall {
    initialized: bool,
    vtl: Vtl,
}

/// Whether a VSM status read lets the handle learn its level: a failed read
/// counts as level 0, and a status must name a level.
pub open spec fn readable_vp_status(vp_status: Result<u64, HvError>) -> bool {
    vp_status is Ok ==> vp_status->Ok_0 % 16 <= 2
}

impl HvCall {
    pub closed spec fn is_initialized(&self) -> bool {
        self.initialized
    }

    pub closed spec fn level(&self) -> Vtl {
        self.vtl
    }

    pub fn new() -> (r: Self)
        ensures
            !r.is_initialized(),
            r.level() == Vtl::Vtl0,
    {
        HvCall { initialized: false, vtl: Vtl::Vtl0 }
    }

    pub fn initialized(&self) -> (r: bool)
        ensures
            r == self.is_initialized(),
    {
        self.initialized
    }

    /// Records that the guest identity is registered, and the level that the
    /// processor's VSM status reports (level 0 where the read failed).
    pub fn initialize(&mut self, vp_status: Result<u64, HvError>)
        requires
            readable_vp_status(vp_status),
        ensures
            final(self).is_initialized(),
            vp_status is Err ==> final(self).level() == Vtl::Vtl0,
            vp_status is Ok ==> final(self).level().level() == vp_status->Ok_0 % 16,
    {
        self.initialized = true;
        self.vtl = match vp_status {
            Err(_) => Vtl::Vtl0,
            Ok(s) => match active_vtl(s) {
                Some(v) => v,
                None => Vtl::Vtl0,
            },
        };
    }

    /// Forgets the registration; says whether the guest identity must be
    /// cleared, which is so only when it was registered.
    pub fn uninitialize(&mut self) -> (r: bool)
        ensures
            r == old(self).is_initialized(),
            !final(self).is_initialized(),
            final(self).level() == old(self).level(),
    {
        let was = self.initialized;
        self.initialized = false;
        was
    }

    /// The trust level that this processor runs at.
    pub fn vtl(&self) -> (r: Vtl)
        requires
            self.is_initialized(),
        ensures
            r == self.level(),
    {
        self.vtl
    }
}

/// A run of `count` consecutive items starting at `first`.
#[derive(Clone, Copy, Debug, PartialEq, Eq, Structural)]
pub struct Batch {
    pub first: u64,
    pub count: u64,
}

/// The runs that cover `[first, end)` from the front, each `max` long but the last.
pub open spec fn batches(first: int, end: int, max: int) -> Seq<(int, int)>
    decreases (if first < end {
        end - first
    } else {
        0
    }),
{
    if first >= end || max <= 0 {
        Seq::empty()
    } else {
        let c = if end - first < max {
            end - first
        } else {
            max
        };
        seq![(first, c)] + batches(first + c, end, max)
    }
}

pub open spec fn batch_pairs(bs: Seq<Batch>) -> Seq<(int, int)> {
    bs.map_values(|b: Batch| (b.first as int, b.count as int))
}

/// Splits `[first, end)` into runs of at most `max` items, in order.
pub fn plan_batches(first: u64, end: u64, max: u64) -> (r: Vec<Batch>)
    requires
        max > 0,
    ensures
        batch_pairs(r@) == batches(first as int, end as int, max as int),
{
    let mut out: Vec<Batch> = Vec::new();
    if first >= end {
        assert(batch_pairs(out@) =~= batches(first as int, end as int, max as int));
        return out;
    }
    let mut cur: u64 = first;
    while cur < end
        invariant
            first <= cur <= end,
            max > 0,
            batch_pairs(out@) + batches(cur as int, end as int, max as int) == batches(
                first as int,
                end as int,
                max as int,
            ),
        decreases end - cur,
    {
        let c: u64 = if end - cur < max {
            end - cur
        } else {
            max
        };
        let ghost before = out@;
        out.push(Batch { first: cur, count: c });
        assert(batch_pairs(out@) =~= batch_pairs(before).push((cur as int, c as int)));
        assert(batches(cur as int, end as int, max as int) == seq![(cur as int, c as int)]
            + batches(cur + c, end as int, max as int));
        assert(batch_pairs(out@) + batches(cur + c, end as int, max as int) =~= batch_pairs(before)
            + batches(cur as int, end as int, max as int));
        cur = cur + c;
    }
    assert(batch_pairs(out@) =~= batch_pairs(out@) + batches(cur as int, end as int, max as int));
    out
}

/// The protection-mask changes that cover `range`, each filling at most one input page.
pub fn protection_batches(range: &MemoryRange) -> (r: Vec<Batch>)
    requires
        range.wf(),
    ensures
        batch_pairs(r@) == batches(range.first_gpn(), range.end_gpn(), MAX_PROTECTION_BATCH as int),
{
    plan_batches(range.start_4k_gpn(), range.end_4k_gpn(), MAX_PROTECTION_BATCH)
}

/// The acceptance calls that cover `range`.
pub fn accept_batches(range: &MemoryRange) -> (r: Vec<Batch>)
    requires
        range.wf(),
    ensures
        batch_pairs(r@) == batches(range.first_gpn(), range.end_gpn(), MAX_ACCEPT_BATCH as int),
{
    plan_batches(range.start_4k_gpn(), range.end_4k_gpn(), MAX_ACCEPT_BATCH)
}

/// The calls that look up `count` hardware ids, as runs of positions in the id list.
pub fn hw_id_chunks(count: u64) -> (r: Vec<Batch>)
    ensures
        batch_pairs(r@) == batches(0, count as int, MAX_HW_IDS_PER_CALL as int),
{
    plan_batches(0, count, MAX_HW_IDS_PER_CALL)
}

/// What enabling a trust level reports: a level that was already enabled counts
/// as enabled.
pub open spec fn enable_result_of(output: u64) -> Result<(), HvError> {
    if status_of(output) == HV_STATUS_SUCCESS || status_of(output) == HV_STATUS_VTL_ALREADY_ENABLED {
        Ok(())
    } else {
        Err(HvError(status_of(output)))
    }
}

/// The outcome of enabling a trust level on the partition or on a processor.
pub fn enable_vtl_result(output: u64) -> (r: Result<(), HvError>)
    ensures
        r == enable_result_of(output),
{
    let s = output_status(output);
    if s == HV_STATUS_SUCCESS || s == HV_STATUS_VTL_ALREADY_ENABLED {
        Ok(())
    } else {
        Err(HvError(s))
    }
}

/// The outcome of starting a processor; starting one twice is a failure.
pub fn start_vp_result(output: u64) -> (r: Result<(), HvError>)
    ensures
        r == result_of(output),
{
    output_result(output)
}

/// Why a hardware-id lookup failed.
#[derive(Clone, Copy, Debug, PartialEq, Eq, Structural)]
pub enum VpIndexError {
    /// The hypervisor reported a failure status.
    Hypervisor(HvError),
    /// The call reported more entries than the output page holds, or fewer than asked for.
    Incomplete { expected: u64, processed: u64 },
}

/// Takes in the result of one lookup call: appends the `processed` indices
/// that the output page starts with, then checks the status and the count.
pub fn collect_vp_indices(
    indices: &mut Vec<u32>,
    page: &Vec<u32>,
    output: u64,
    expected: u64,
) -> (r: Result<(), VpIndexError>)
    ensures
        processed_of(output) > page@.len() ==> final(indices)@ == old(indices)@ && r == Err::<
            (),
            VpIndexError,
        >(VpIndexError::Incomplete { expected, processed: processed_of(output) }),
        processed_of(output) <= page@.len() ==> final(indices)@ == old(indices)@ + page@.subrange(
            0,
            processed_of(output) as int,
        ),
        processed_of(output) <= page@.len() ==> r == (if status_of(output) != HV_STATUS_SUCCESS {
            Err(VpIndexError::Hypervisor(HvError(status_of(output))))
        } else if processed_of(output) != expected {
            Err(VpIndexError::Incomplete { expected, processed: processed_of(output) })
        } else {
            Ok(())
        }),
{
    let n = elements_processed(output);
    if n > page.len() as u64 {
        return Err(VpIndexError::Incomplete { expected, processed: n });
    }
    let mut i: usize = 0;
    while i < n as usize
        invariant
            n <= page@.len(),
            i <= n,
            indices@ == old(indices)@ + page@.subrange(0, i as int),
        decreases n - i,
    {
        indices.push(page[i]);
        assert(page@.subrange(0, i + 1) =~= page@.subrange(0, i as int).push(page@[i as int]));
        i = i + 1;
    }
    match output_result(output) {
        Err(e) => Err(VpIndexError::Hypervisor(e)),
        Ok(()) => {
            if n != expected {
                Err(VpIndexError::Incomplete { expected, processed: n })
            } else {
                Ok(())
            }
        },
    }
}

/// The trust level that a processor's VSM status register reports as active
/// (bits 0..4), if it names one.
pub fn active_vtl(vp_status: u64) -> (r: Option<Vtl>)
    ensures
        vp_status % 16 <= 2 ==> r is Some && r->0.level() == vp_status % 16,
        vp_status % 16 > 2 ==> r is None,
{
    let low = vp_status & 0xf;
    assert((vp_status & 0xf) == vp_status % 16) by (bit_vector);
    Vtl::from_u8(low as u8)
}

/// Whether the partition's VSM status register (enabled set in bits 0..16)
/// lists `vtl` as enabled.
pub fn partition_vtl_enabled(partition_status: u64, vtl: Vtl) -> (r: bool)
    ensures
        r == ((partition_status >> (vtl.level() as u64)) & 1 == 1),
{
    let l = vtl.as_u8() as u64;
    (partition_status >> l) & 1 == 1
}

/// The total length of a list of runs.
pub open spec fn total_count(bs: Seq<(int, int)>) -> int
    decreases bs.len(),
{
    if bs.len() == 0 {
        0
    } else {
        bs[0].1 + total_count(bs.drop_first())
    }
}

/// A plan for `[first, end)` with runs of at most `max`: every run is non-empty
/// and at most `max` long, each run starts where the one before it ended, the
/// first starts at `first`, the last ends at `end`, and the lengths add up to
/// the size of the range. A range longer than `max` takes more than one run.
pub proof fn lemma_batches_cover(first: int, end: int, max: int)
    requires
        max > 0,
        first <= end,
    ensures
        ({
            let bs = batches(first, end, max);
            &&& forall|i: int| 0 <= i < bs.len() ==> 0 < #[trigger] bs[i].1 <= max
            &&& forall|i: int|
                0 <= i < bs.len() - 1 ==> #[trigger] bs[i + 1].0 == bs[i].0 + bs[i].1
            &&& (bs.len() == 0 <==> first == end)
            &&& bs.len() > 0 ==> bs[0].0 == first && bs.last().0 + bs.last().1 == end
            &&& total_count(bs) == end - first
            &&& end - first > max ==> bs.len() > 1
        }),
    decreases end - first,
{
    let bs = batches(first, end, max);
    if first < end {
        let c = if end - first < max {
            end - first
        } else {
            max
        };
        let rest = batches(first + c, end, max);
        lemma_batches_cover(first + c, end, max);
        assert(bs == seq![(first, c)] + rest);
        assert(bs.drop_first() =~= rest);
        assert forall|i: int| 0 <= i < bs.len() implies 0 < #[trigger] bs[i].1 <= max by {
            if i > 0 {
                assert(bs[i] == rest[i - 1]);
            }
        }
        assert forall|i: int| 0 <= i < bs.len() - 1 implies #[trigger] bs[i + 1].0 == bs[i].0
            + bs[i].1 by {
            assert(bs[i + 1] == rest[i]);
            if i > 0 {
                assert(bs[i] == rest[i - 1]);
            }
        }
        if rest.len() > 0 {
            assert(bs.last() == rest.last());
        }
    }
}

/// Enabling a trust level a second time succeeds: the hypervisor answers the
/// repeated request with "already enabled", which reads as success, and a
/// request that succeeds reads as success too.
pub proof fn lemma_enable_twice_succeeds(first_output: u64, second_output: u64)
    requires
        status_of(first_output) == HV_STATUS_SUCCESS,
        status_of(second_output) == HV_STATUS_VTL_ALREADY_ENABLED,
    ensures
        enable_result_of(first_output) == Ok::<(), HvError>(()),
        enable_result_of(second_output) == Ok::<(), HvError>(()),
        result_of(second_output) != Ok::<(), HvError>(()),
{
}

} // verus!
