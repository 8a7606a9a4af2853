use opentmk::abi::{
    control_word, elements_processed, output_result, output_status, HvError, MemoryRange,
    HV_CALL_ENABLE_VP_VTL, HV_CALL_MODIFY_VTL_PROTECTION_MASK, HV_STATUS_INVALID_PARAMETER,
    HV_STATUS_VTL_ALREADY_ENABLED,
};
use opentmk::cmdbus::{CommandTable, QueueError, WorkerStep};
use opentmk::hypercall::{
    accept_batches, active_vtl, collect_vp_indices, enable_vtl_result, hw_id_chunks,
    partition_vtl_enabled, plan_batches, protection_batches, start_vp_result, Batch,
    VpIndexError, MAX_ACCEPT_BATCH, MAX_HW_IDS_PER_CALL, MAX_PROTECTION_BATCH,
};
use opentmk::orchestrator::{
    bring_up_actions, switch_for, task_actions, Action, StartError, Task, TestCtx,
};
use opentmk::vtl::Vtl;

fn step_name<C>(s: &WorkerStep<C>) -> String {
    match s {
        WorkerStep::Idle => "idle".to_string(),
        WorkerStep::Run(_) => "run".to_string(),
        WorkerStep::SwitchTo(v) => format!("switch {:?}", v),
    }
}

#[test]
fn control_word_places_code_and_rep_count() {
    assert_eq!(control_word(HV_CALL_ENABLE_VP_VTL, 0), 0x0f);
    assert_eq!(
        control_word(HV_CALL_MODIFY_VTL_PROTECTION_MASK, 510),
        0x0c | (510u64 << 32)
    );
}

#[test]
fn output_word_decoding() {
    assert_eq!(output_result(0), Ok(()));
    assert_eq!(output_result(0x5_0000_0000), Ok(()));
    assert_eq!(output_result(0x86), Err(HvError(HV_STATUS_VTL_ALREADY_ENABLED)));
    assert_eq!(output_status(0x3_0000_0005), HV_STATUS_INVALID_PARAMETER);
    assert_eq!(elements_processed(0x3_0000_0005), 3);
    assert_eq!(elements_processed(0xffff_f000_0000_0000), 0);
}

#[test]
fn memory_range_requires_page_alignment() {
    assert!(MemoryRange::new(0x1000, 0x3000).is_some());
    assert!(MemoryRange::new(0x1001, 0x3000).is_none());
    assert!(MemoryRange::new(0x3000, 0x1000).is_none());
    let r = MemoryRange::new(0x2000, 0x5000).unwrap();
    assert_eq!(r.start_4k_gpn(), 2);
    assert_eq!(r.end_4k_gpn(), 5);
}

#[test]
fn protection_batches_split_large_ranges() {
    assert_eq!(MAX_PROTECTION_BATCH, 510);
    // 1 MiB plus 600 pages, starting at page 0x100.
    let start = 0x100u64 * 4096;
    let end = start + (256 + 600) * 4096;
    let r = MemoryRange::new(start, end).unwrap();
    let b = protection_batches(&r);
    assert_eq!(
        b,
        vec![
            Batch { first: 0x100, count: 510 },
            Batch { first: 0x100 + 510, count: 346 },
        ]
    );
    let total: u64 = b.iter().map(|x| x.count).sum();
    assert_eq!(total, 856);
}

#[test]
fn protection_batches_of_empty_range() {
    let r = MemoryRange::new(0x4000, 0x4000).unwrap();
    assert!(protection_batches(&r).is_empty());
}

#[test]
fn accept_batches_use_their_own_limit() {
    assert_eq!(MAX_ACCEPT_BATCH, 509);
    let r = MemoryRange::new(0, 1020 * 4096).unwrap();
    assert_eq!(
        accept_batches(&r),
        vec![
            Batch { first: 0, count: 509 },
            Batch { first: 509, count: 509 },
            Batch { first: 1018, count: 2 },
        ]
    );
}

#[test]
fn hw_id_chunks_split_at_512() {
    assert_eq!(MAX_HW_IDS_PER_CALL, 512);
    assert_eq!(
        hw_id_chunks(1100),
        vec![
            Batch { first: 0, count: 512 },
            Batch { first: 512, count: 512 },
            Batch { first: 1024, count: 76 },
        ]
    );
    assert_eq!(hw_id_chunks(512), vec![Batch { first: 0, count: 512 }]);
    assert!(hw_id_chunks(0).is_empty());
}

#[test]
fn plan_batches_exact_multiple() {
    assert_eq!(
        plan_batches(10, 16, 3),
        vec![Batch { first: 10, count: 3 }, Batch { first: 13, count: 3 }]
    );
}

#[test]
fn enabling_twice_is_success() {
    assert_eq!(enable_vtl_result(0), Ok(()));
    assert_eq!(enable_vtl_result(HV_STATUS_VTL_ALREADY_ENABLED as u64), Ok(()));
    assert_eq!(
        enable_vtl_result(HV_STATUS_INVALID_PARAMETER as u64),
        Err(HvError(HV_STATUS_INVALID_PARAMETER))
    );
}

#[test]
fn starting_twice_is_failure() {
    assert_eq!(start_vp_result(0), Ok(()));
    assert_eq!(
        start_vp_result(HV_STATUS_VTL_ALREADY_ENABLED as u64),
        Err(HvError(HV_STATUS_VTL_ALREADY_ENABLED))
    );
}

#[test]
fn vp_indices_are_collected_per_chunk() {
    let page: Vec<u32> = vec![4, 5, 6, 7];
    let mut out: Vec<u32> = vec![1];
    assert_eq!(collect_vp_indices(&mut out, &page, 3u64 << 32, 3), Ok(()));
    assert_eq!(out, vec![1, 4, 5, 6]);

    let mut out: Vec<u32> = Vec::new();
    assert_eq!(
        collect_vp_indices(&mut out, &page, (2u64 << 32) | 0x0e, 3),
        Err(VpIndexError::Hypervisor(HvError(0x0e)))
    );
    assert_eq!(out, vec![4, 5]);

    let mut out: Vec<u32> = Vec::new();
    assert_eq!(
        collect_vp_indices(&mut out, &page, 2u64 << 32, 3),
        Err(VpIndexError::Incomplete { expected: 3, processed: 2 })
    );

    let mut out: Vec<u32> = Vec::new();
    assert_eq!(
        collect_vp_indices(&mut out, &page, 9u64 << 32, 9),
        Err(VpIndexError::Incomplete { expected: 9, processed: 9 })
    );
    assert!(out.is_empty());
}

#[test]
fn active_vtl_from_status_register() {
    assert_eq!(active_vtl(0), Some(Vtl::Vtl0));
    assert_eq!(active_vtl(0x31), Some(Vtl::Vtl1));
    assert_eq!(active_vtl(0x2), Some(Vtl::Vtl2));
    assert_eq!(active_vtl(0x5), None);
}

#[test]
fn partition_status_shows_vtl1_enabled() {
    // enabled set {0, 1}
    let status = 0b11u64;
    assert!(partition_vtl_enabled(status, Vtl::Vtl0));
    assert!(partition_vtl_enabled(status, Vtl::Vtl1));
    assert!(!partition_vtl_enabled(status, Vtl::Vtl2));
    assert!(!partition_vtl_enabled(0b01, Vtl::Vtl1));
}

#[test]
fn vtl_numbers_and_input_bytes() {
    assert_eq!(Vtl::Vtl1.as_u8(), 1);
    assert_eq!(Vtl::from_u8(2), Some(Vtl::Vtl2));
    assert_eq!(Vtl::from_u8(3), None);
    assert_eq!(Vtl::Vtl0.input_vtl(), 0x10);
    assert_eq!(Vtl::Vtl1.input_vtl(), 0x11);
}

#[test]
fn command_table_requires_registration() {
    let mut t: CommandTable<u32> = CommandTable::new(4);
    assert!(matches!(t.send(3, 1, Vtl::Vtl0), Err(QueueError::NotRegistered(1))));
    assert_eq!(t.send_priority(3, 2, Vtl::Vtl0), Err(2));
    assert!(!t.is_registered(3));
    t.register(3);
    assert!(t.is_registered(3));
    assert!(t.send(3, 1, Vtl::Vtl0).is_ok());
    t.register(3);
    match t.next_command(3, Vtl::Vtl0) {
        WorkerStep::Run(c) => assert_eq!(c, 1),
        other => panic!("unexpected {}", step_name(&other)),
    }
    assert_eq!(step_name(&t.next_command(9, Vtl::Vtl0)), "idle");
}

#[test]
fn worker_runs_only_at_the_target_vtl() {
    let mut t: CommandTable<&'static str> = CommandTable::new(10);
    t.register_all(8);
    assert!(t.is_registered(7));
    assert!(!t.is_registered(8));
    assert!(t.send(0, "a", Vtl::Vtl1).is_ok());
    assert!(t.send(0, "b", Vtl::Vtl0).is_ok());
    // Running at level 0, the front command wants level 1: switch, keep it queued.
    assert_eq!(step_name(&t.next_command(0, Vtl::Vtl0)), "switch Vtl1");
    assert_eq!(step_name(&t.next_command(0, Vtl::Vtl0)), "switch Vtl1");
    match t.next_command(0, Vtl::Vtl1) {
        WorkerStep::Run(c) => assert_eq!(c, "a"),
        other => panic!("unexpected {}", step_name(&other)),
    }
    assert_eq!(step_name(&t.next_command(0, Vtl::Vtl1)), "switch Vtl0");
    match t.next_command(0, Vtl::Vtl0) {
        WorkerStep::Run(c) => assert_eq!(c, "b"),
        other => panic!("unexpected {}", step_name(&other)),
    }
    assert_eq!(step_name(&t.next_command(0, Vtl::Vtl0)), "idle");
}

#[test]
fn commands_of_one_vtl_run_in_queue_order() {
    let mut t: CommandTable<u32> = CommandTable::new(5);
    t.register(2);
    for i in 0..5u32 {
        assert!(t.send(2, i, Vtl::Vtl0).is_ok());
    }
    assert!(matches!(t.send(2, 5, Vtl::Vtl0), Err(QueueError::Full(5))));
    assert_eq!(t.send_priority(2, 99, Vtl::Vtl0), Ok(()));
    let mut seen = Vec::new();
    while let WorkerStep::Run(c) = t.next_command(2, Vtl::Vtl0) {
        seen.push(c);
    }
    assert_eq!(seen, vec![99, 0, 1, 2, 3, 4]);
}

#[test]
fn bsp_vtl1_start_plan() {
    let mut ctx = TestCtx::new(0, Vtl::Vtl0);
    let plan = ctx.start_on_vp(0, Vtl::Vtl1).unwrap();
    assert_eq!(
        plan,
        vec![
            Action::EnableVpVtl { vp: 0, vtl: Vtl::Vtl1 },
            Action::Enqueue { vp: 0, vtl: Vtl::Vtl1, task: Task::ReturnToLowVtl },
            Action::SwitchToHigh,
            Action::EnqueueBody { vp: 0, vtl: Vtl::Vtl1 },
            Action::SwitchToHigh,
        ]
    );
    assert!(ctx.is_brought_up(0));
    // A second command for the same processor needs no bring-up.
    assert_eq!(
        ctx.start_on_vp(0, Vtl::Vtl0).unwrap(),
        vec![Action::EnqueueBody { vp: 0, vtl: Vtl::Vtl0 }]
    );
    assert_eq!(
        ctx.start_on_vp(0, Vtl::Vtl1).unwrap(),
        vec![Action::EnqueueBody { vp: 0, vtl: Vtl::Vtl1 }, Action::SwitchToHigh]
    );
}

#[test]
fn ap_bring_up_with_nested_dispatch() {
    let mut vp0 = TestCtx::new(0, Vtl::Vtl0);
    assert_eq!(
        vp0.start_on_vp(2, Vtl::Vtl0).unwrap(),
        vec![
            Action::Enqueue { vp: 0, vtl: Vtl::Vtl1, task: Task::BringUpAp { vp: 2 } },
            Action::SwitchToHigh,
            Action::EnqueueBody { vp: 2, vtl: Vtl::Vtl0 },
        ]
    );
    assert_eq!(
        vp0.start_on_vp(2, Vtl::Vtl1).unwrap(),
        vec![Action::EnqueueBody { vp: 2, vtl: Vtl::Vtl1 }]
    );
    // The command running on processor 2 at level 0 starts more work.
    let mut vp2 = TestCtx::new(2, Vtl::Vtl0);
    let p1 = vp2.start_on_vp(1, Vtl::Vtl0).unwrap();
    assert_eq!(p1[0], Action::Enqueue { vp: 2, vtl: Vtl::Vtl1, task: Task::BringUpAp { vp: 1 } });
    assert_eq!(
        vp2.start_on_vp(1, Vtl::Vtl1).unwrap(),
        vec![Action::EnqueueBody { vp: 1, vtl: Vtl::Vtl1 }]
    );
    assert_eq!(vp2.start_on_vp(7, Vtl::Vtl1).unwrap().len(), 3);
    assert_eq!(vp2.start_on_vp(6, Vtl::Vtl0).unwrap().len(), 3);
    assert!(vp2.is_brought_up(1) && vp2.is_brought_up(6) && vp2.is_brought_up(7));
    assert!(!vp2.is_brought_up(3));
    assert_eq!(
        task_actions(Task::BringUpAp { vp: 1 }),
        vec![
            Action::EnableVpVtl { vp: 1, vtl: Vtl::Vtl1 },
            Action::StartVp { vp: 1, vtl: Vtl::Vtl1 },
            Action::Enqueue {
                vp: 1,
                vtl: Vtl::Vtl1,
                task: Task::SetDefaultContext { vp: 1, vtl: Vtl::Vtl0 },
            },
            Action::SwitchToLow,
        ]
    );
}

#[test]
fn vtl2_is_refused() {
    let mut ctx = TestCtx::new(0, Vtl::Vtl0);
    assert_eq!(ctx.start_on_vp(1, Vtl::Vtl2), Err(StartError::Vtl2NotSupported));
    assert!(!ctx.is_brought_up(1));
}

#[test]
fn context_accessors_and_switches() {
    let ctx = TestCtx::new(4, Vtl::Vtl1);
    assert_eq!(ctx.get_current_vp(), 4);
    assert_eq!(ctx.get_current_vtl(), Vtl::Vtl1);
    assert_eq!(ctx.switch_to_low_vtl(), Action::SwitchToLow);
    assert_eq!(ctx.switch_to_high_vtl(), Action::SwitchToHigh);
    assert_eq!(ctx.queue_command_vp(3, Vtl::Vtl0), Action::EnqueueBody { vp: 3, vtl: Vtl::Vtl0 });
    assert_eq!(switch_for(Vtl::Vtl0), Action::SwitchToLow);
    assert_eq!(switch_for(Vtl::Vtl1), Action::SwitchToHigh);
    assert_eq!(task_actions(Task::ReturnToLowVtl), vec![Action::SwitchToLow]);
    assert_eq!(bring_up_actions(4, 4).len(), 3);
}

#[test]
fn call_then_return_keeps_the_level() {
    let ctx = TestCtx::new(0, Vtl::Vtl0);
    assert_eq!(ctx.switch_to_high_vtl(), Action::SwitchToHigh);
    assert_eq!(ctx.switch_to_low_vtl(), Action::SwitchToLow);
    assert_eq!(ctx.get_current_vtl(), Vtl::Vtl0);
    assert_eq!(ctx.get_current_vp(), 0);
}
