//! The test context: which processors have been brought up, and the steps that
//! running a command on a processor at a trust level takes.
use vstd::prelude::*;
use crate::vtl::Vtl;

verus! {

/// A command that the framework itself queues on a processor.
#[derive(Clone, Copy, Debug, PartialEq, Eq, Structural)]
pub enum Task {
    /// Return to the lower trust level, handing the processor back.
    ReturnToLowVtl,
    /// From the higher trust level, bring processor `vp` up: enable and start
    /// it at level 1, give its level 0 a valid entry, and return.
    BringUpAp { vp: u32 },
    /// Load a fresh default context into level `vtl` of processor `vp`.
    SetDefaultContext { vp: u32, vtl: Vtl },
}

/// One step for the runtime to perform, in order.
#[derive(Clone, Copy, Debug, PartialEq, Eq, Structural)]
pub enum Action {
    /// Enable `vtl` on processor `vp` with a fresh default context.
    EnableVpVtl { vp: u32, vtl: Vtl },
    /// Start processor `vp` at `vtl` with a fresh default context.
    StartVp { vp: u32, vtl: Vtl },
    /// Load a fresh default context into level `vtl` of processor `vp`.
    SetDefaultContext { vp: u32, vtl: Vtl },
    /// Queue `task` on processor `vp`, to run at `vtl`.
    Enqueue { vp: u32, vtl: Vtl, task: Task },
    /// Queue the caller's command on processor `vp`, to run at `vtl`.
    EnqueueBody { vp: u32, vtl: Vtl },
    /// Call into the next higher trust level.
    SwitchToHigh,
    /// Return to the next lower trust level.
    SwitchToLow,
}

/// Why a command cannot be run where it was asked to run.
#[derive(Clone, Copy, Debug, PartialEq, Eq, Structural)]
pub enum StartError {
    /// Guest code does not run at level 2.
    Vtl2NotSupported,
}

/// The switch that heads for `target` from the other guest level.
pub open spec fn switch_toward(target: Vtl) -> Action {
    if target == Vtl::Vtl0 {
        Action::SwitchToLow
    } else {
        Action::SwitchToHigh
    }
}

/// The steps that bring processor `vp` up at level 1, taken from processor `my_vp`.
pub open spec fn bring_up_plan(my_vp: u32, vp: u32) -> Seq<Action> {
    if vp == my_vp {
        seq![
            Action::EnableVpVtl { vp, vtl: Vtl::Vtl1 },
            Action::Enqueue { vp, vtl: Vtl::Vtl1, task: Task::ReturnToLowVtl },
            Action::SwitchToHigh,
        ]
    } else {
        seq![Action::Enqueue { vp: my_vp, vtl: Vtl::Vtl1, task: Task::BringUpAp { vp } }, Action::SwitchToHigh]
    }
}

/// The steps that run a command on `vp` at `vtl`, asked from `my_vp` running at
/// `current`: bring `vp` up unless that was done, queue the command, and switch
/// levels when the command is for this processor at the other level.
pub open spec fn start_plan(brought_up: bool, my_vp: u32, current: Vtl, vp: u32, vtl: Vtl) -> Seq<
    Action,
> {
    (if brought_up {
        Seq::empty()
    } else {
        bring_up_plan(my_vp, vp)
    }) + seq![Action::EnqueueBody { vp, vtl }] + (if vp == my_vp && vtl != current {
        seq![switch_toward(vtl)]
    } else {
        Seq::empty()
    })
}

/// The steps that a framework task takes when it runs.
pub open spec fn task_plan(t: Task) -> Seq<Action> {
    match t {
        Task::ReturnToLowVtl => seq![Action::SwitchToLow],
        Task::BringUpAp { vp } => seq![
            Action::EnableVpVtl { vp, vtl: Vtl::Vtl1 },
            Action::StartVp { vp, vtl: Vtl::Vtl1 },
            Action::Enqueue { vp, vtl: Vtl::Vtl1, task: Task::SetDefaultContext { vp, vtl: Vtl::Vtl0 } },
            Action::SwitchToLow,
        ],
        Task::SetDefaultContext { vp, vtl } => seq![Action::SetDefaultContext { vp, vtl }],
    }
}

/// The trust level that a switch from `from` enters.
pub open spec fn entered_by(a: Action, from: Vtl) -> Vtl {
    match a {
        Action::SwitchToHigh => if from == Vtl::Vtl0 {
            Vtl::Vtl1
        } else {
            Vtl::Vtl2
        },
        Action::SwitchToLow => if from == Vtl::Vtl2 {
            Vtl::Vtl1
        } else {
            Vtl::Vtl0
        },
        _ => from,
    }
}

/// The framework's view of one processor at one trust level.
pub struct TestCtx {
    my_vp_idx: u32,
    vtl: Vtl,
    vp_running: Vec<u32>,
}

fn push_all(out: &mut Vec<Action>, items: &Vec<Action>)
    ensures
        final(out)@ == old(out)@ + items@,
{
    let mut i: usize = 0;
    while i < items.len()
        invariant
            i <= items@.len(),
            out@ == old(out)@ + items@.subrange(0, i as int),
        decreases items@.len() - i,
    {
        out.push(items[i]);
        assert(items@.subrange(0, i + 1) =~= items@.subrange(0, i as int).push(items@[i as int]));
        i = i + 1;
    }
    assert(items@.subrange(0, items@.len() as int) =~= items@);
}

/// The switch toward `target`.
pub fn switch_for(target: Vtl) -> (r: Action)
    ensures
        r == switch_toward(target),
{
    if target == Vtl::Vtl0 {
        Action::SwitchToLow
    } else {
        Action::SwitchToHigh
    }
}

/// The steps of bringing `vp` up from `my_vp`.
pub fn bring_up_actions(my_vp: u32, vp: u32) -> (r: Vec<Action>)
    ensures
        r@ == bring_up_plan(my_vp, vp),
{
    if vp == my_vp {
        let r = vec![
            Action::EnableVpVtl { vp, vtl: Vtl::Vtl1 },
            Action::Enqueue { vp, vtl: Vtl::Vtl1, task: Task::ReturnToLowVtl },
            Action::SwitchToHigh,
        ];
        assert(r@ =~= bring_up_plan(my_vp, vp));
        r
    } else {
        let r = vec![
            Action::Enqueue { vp: my_vp, vtl: Vtl::Vtl1, task: Task::BringUpAp { vp } },
            Action::SwitchToHigh,
        ];
        assert(r@ =~= bring_up_plan(my_vp, vp));
        r
    }
}

/// The steps of running a framework task.
pub fn task_actions(t: Task) -> (r: Vec<Action>)
    ensures
        r@ == task_plan(t),
{
    let r = match t {
        Task::ReturnToLowVtl => vec![Action::SwitchToLow],
        Task::BringUpAp { vp } => vec![
            Action::EnableVpVtl { vp, vtl: Vtl::Vtl1 },
            Action::StartVp { vp, vtl: Vtl::Vtl1 },
            Action::Enqueue {
                vp,
                vtl: Vtl::Vtl1,
                task: Task::SetDefaultContext { vp, vtl: Vtl::Vtl0 },
            },
            Action::SwitchToLow,
        ],
        Task::SetDefaultContext { vp, vtl } => vec![Action::SetDefaultContext { vp, vtl }],
    };
    assert(r@ =~= task_plan(t));
    r
}

impl TestCtx {
    pub closed spec fn vp(&self) -> u32 {
        self.my_vp_idx
    }

    pub closed spec fn vtl(&self) -> Vtl {
        self.vtl
    }

    /// The processors brought up so far, in the order they were brought up.
    pub closed spec fn running(&self) -> Seq<u32> {
        self.vp_running@
    }

    /// A context for processor `my_vp_idx` running at `vtl`, with no processor brought up.
    pub fn new(my_vp_idx: u32, vtl: Vtl) -> (r: Self)
        ensures
            r.vp() == my_vp_idx,
            r.vtl() == vtl,
            r.running() == Seq::<u32>::empty(),
    {
        TestCtx { my_vp_idx, vtl, vp_running: Vec::new() }
    }

    pub fn get_current_vp(&self) -> (r: u32)
        ensures
            r == self.vp(),
    {
        self.my_vp_idx
    }

    pub fn get_current_vtl(&self) -> (r: Vtl)
        ensures
            r == self.vtl(),
    {
        self.vtl
    }

    pub fn is_brought_up(&self, vp: u32) -> (r: bool)
        ensures
            r == self.running().contains(vp),
    {
        let mut i: usize = 0;
        while i < self.vp_running.len()
            invariant
                i <= self.vp_running@.len(),
                forall|j: int| 0 <= j < i ==> self.vp_running@[j] != vp,
            decreases self.vp_running@.len() - i,
        {
            if self.vp_running[i] == vp {
                return true;
            }
            i = i + 1;
        }
        false
    }

    /// The steps that run a command on `vp` at `vtl`; `vp` counts as brought up
    /// afterwards. Level 2 is refused and changes nothing.
    pub fn start_on_vp(&mut self, vp: u32, vtl: Vtl) -> (r: Result<Vec<Action>, StartError>)
        ensures
            vtl == Vtl::Vtl2 ==> r == Err::<Vec<Action>, StartError>(StartError::Vtl2NotSupported)
                && *final(self) == *old(self),
            vtl != Vtl::Vtl2 ==> r is Ok && r->Ok_0@ == start_plan(
                old(self).running().contains(vp),
                old(self).vp(),
                old(self).vtl(),
                vp,
                vtl,
            ),
            vtl != Vtl::Vtl2 ==> final(self).vp() == old(self).vp() && final(self).vtl() == old(self).vtl() && final(self).running().contains(vp),
            vtl != Vtl::Vtl2 ==> forall|v: u32|
                #![trigger final(self).running().contains(v)]
                v != vp ==> (final(self).running().contains(v) <==> old(self).running().contains(v)),
    {
        if vtl == Vtl::Vtl2 {
            return Err(StartError::Vtl2NotSupported);
        }
        let mut plan: Vec<Action> = Vec::new();
        if !self.is_brought_up(vp) {
            let up = bring_up_actions(self.my_vp_idx, vp);
            push_all(&mut plan, &up);
            self.vp_running.push(vp);
            assert(self.vp_running@.last() == vp);
        }
        plan.push(Action::EnqueueBody { vp, vtl });
        if vp == self.my_vp_idx && vtl != self.vtl {
            plan.push(switch_for(vtl));
        }
        proof {
            let s = start_plan(old(self).running().contains(vp), old(self).vp(), old(self).vtl(), vp, vtl);
            assert(plan@ =~= s);
            assert forall|v: u32| v != vp implies (self.running().contains(v) <==> old(self).running().contains(v)) by {
                if self.running().contains(v) {
                    let j = choose|j: int| 0 <= j < self.running().len() && self.running()[j] == v;
                    assert(j < old(self).running().len());
                    assert(old(self).running()[j] == v);
                }
                if old(self).running().contains(v) {
                    let j = choose|j: int| 0 <= j < old(self).running().len() && old(self).running()[j] == v;
                    assert(self.running()[j] == v);
                }
            }
        }
        Ok(plan)
    }

    /// The step that queues a command on `vp` at `vtl`, with no bring-up and no switch.
    pub fn queue_command_vp(&self, vp: u32, vtl: Vtl) -> (r: Action)
        ensures
            r == (Action::EnqueueBody { vp, vtl }),
    {
        Action::EnqueueBody { vp, vtl }
    }

    /// The call into the higher level. The context is unchanged: when the call
    /// returns, this processor runs at this context's level again.
    pub fn switch_to_high_vtl(&self) -> (r: Action)
        ensures
            r == Action::SwitchToHigh,
    {
        Action::SwitchToHigh
    }

    /// The return to the lower level; the context is unchanged as for the call.
    pub fn switch_to_low_vtl(&self) -> (r: Action)
        ensures
            r == Action::SwitchToLow,
    {
        Action::SwitchToLow
    }
}

/// A command for a processor that has not been brought up is queued only after
/// level 1 of that processor is enabled: on the asking processor the enable is the
/// first step; for another processor the first step queues the bring-up task,
/// whose first steps enable and then start it.
pub proof fn lemma_enable_before_first_command(my_vp: u32, current: Vtl, vp: u32, vtl: Vtl)
    ensures
        ({
            let p = start_plan(false, my_vp, current, vp, vtl);
            &&& vp == my_vp ==> p[0] == (Action::EnableVpVtl { vp, vtl: Vtl::Vtl1 }) && p[3] == (
            Action::EnqueueBody { vp, vtl })
            &&& vp != my_vp ==> p[0] == (Action::Enqueue {
                vp: my_vp,
                vtl: Vtl::Vtl1,
                task: Task::BringUpAp { vp },
            }) && p[2] == (Action::EnqueueBody { vp, vtl })
            &&& task_plan(Task::BringUpAp { vp })[0] == (Action::EnableVpVtl { vp, vtl: Vtl::Vtl1 })
            &&& task_plan(Task::BringUpAp { vp })[1] == (Action::StartVp { vp, vtl: Vtl::Vtl1 })
        }),
{
    let p = start_plan(false, my_vp, current, vp, vtl);
    if vp == my_vp {
        assert(p[3] == (Action::EnqueueBody { vp, vtl }));
    } else {
        assert(p[2] == (Action::EnqueueBody { vp, vtl }));
    }
}

/// A call into the higher level followed by the matching return comes back to
/// the level that made the call.
pub proof fn lemma_call_then_return(v: Vtl)
    requires
        v != Vtl::Vtl2,
    ensures
        entered_by(Action::SwitchToLow, entered_by(Action::SwitchToHigh, v)) == v,
{
}

} // verus!
