use opentmk::platform::{
    heap_pages, os_loader_indications_with_vtl_protection, retarget_context, simp_value,
    sint_value, vp_count_from_cpuid, InitialVpContext, SegmentRegister, TableRegister,
    DEFAULT_STACK_SIZE,
};
use opentmk::slog::{
    format_log_string_to_json, get_json_string, get_json_test_assertion_string, Level, LogEntry,
    TmkLogger,
};

#[test]
fn vp_count_is_read_from_cpuid() {
    // Eight logical processors, with other fields set around them.
    assert_eq!(vp_count_from_cpuid(0x0108_0800), 8);
    assert_eq!(vp_count_from_cpuid(0x00ff_0000), 255);
    assert_eq!(vp_count_from_cpuid(0x0000_ffff), 0);
}

#[test]
fn vp_count_assertion_record() {
    let n = vp_count_from_cpuid(0x0008_0000);
    assert_eq!(n, 8);
    let rec = get_json_test_assertion_string(
        "vp count should be 8",
        true,
        "tests.rs:12".to_string(),
        n == 8,
    );
    assert_eq!(
        rec,
        "{\"type\":\"assertion\",\"message\":\"vp count should be 8\",\"level\":\"CRITICAL\",\"line\":\"tests.rs:12\",\"assertion_result\":true}\n"
    );
}

#[test]
fn partition_vtl1_assertion_record() {
    let rec = get_json_test_assertion_string("VTL1 enabled", false, "main.rs:7".to_string(), true);
    assert_eq!(
        rec,
        "{\"type\":\"assertion\",\"message\":\"VTL1 enabled\",\"level\":\"CRITICAL\",\"line\":\"main.rs:7\",\"assertion_result\":true}"
    );
}

#[test]
fn memory_protection_assertion_record() {
    let val: u8 = 0;
    let rec = get_json_test_assertion_string("val != 0xAA", true, "main.rs:40".to_string(), val != 0xAA);
    let parsed: serde_json::Value = serde_json::from_str(rec.trim_end()).unwrap();
    assert_eq!(parsed["message"], "val != 0xAA");
    assert_eq!(parsed["assertion_result"], true);
    assert_eq!(parsed["type"], "assertion");
    let failed = get_json_test_assertion_string("x", false, "l".to_string(), false);
    assert!(failed.ends_with(",\"assertion_result\":false}"));
}

#[test]
fn bsp_vtl1_log_record() {
    let rec = format_log_string_to_json(
        &"hi from vtl1 vp0".to_string(),
        &"main.rs:20".to_string(),
        true,
        Level::INFO,
    );
    assert_eq!(
        rec,
        "{\"type\":\"log\",\"level\":\"INFO\",\"message\":\"hi from vtl1 vp0\",\"line\":\"main.rs:20\"}\n"
    );
}

#[test]
fn log_record_escapes_message() {
    let rec = format_log_string_to_json(
        &"say \"hi\"\n".to_string(),
        &"a.rs:1".to_string(),
        false,
        Level::ERROR,
    );
    assert_eq!(
        rec,
        "{\"type\":\"log\",\"level\":\"ERROR\",\"message\":\"say \\\"hi\\\"\\n\",\"line\":\"a.rs:1\"}"
    );
    let parsed: serde_json::Value = serde_json::from_str(&rec).unwrap();
    assert_eq!(parsed["message"], "say \"hi\"\n");
}

#[test]
fn plain_log_record() {
    let rec = get_json_string(&"x".to_string(), false, Level::WARNING);
    assert_eq!(rec, "{\"type\":\"log\",\"level\":\"WARNING\",\"message\":\"x\"}");
    let rec = get_json_string(&String::new(), true, Level::DEBUG);
    assert_eq!(rec, "{\"type\":\"log\",\"level\":\"DEBUG\",\"message\":\"\"}\n");
}

#[test]
fn level_threshold() {
    assert!(Level::ERROR.enabled(Level::INFO));
    assert!(Level::INFO.enabled(Level::INFO));
    assert!(!Level::DEBUG.enabled(Level::INFO));
    assert!(Level::CRITICAL.enabled(Level::CRITICAL));
    assert_eq!(Level::CRITICAL.as_str(), "CRITICAL");
}

#[test]
fn log_entry_fields() {
    let e = LogEntry::new(Level::INFO, &"m".to_string(), &"f.rs:3".to_string());
    assert_eq!(e.log_type, "log");
    assert_eq!(e.level, "INFO");
    assert_eq!(e.message, "m");
    assert_eq!(e.line, "f.rs:3");
}

#[test]
fn logger_lock_round_trip() {
    let logger = TmkLogger::new(String::new());
    let mut g = logger.get_writter();
    g.deref_mut().push_str("line");
    logger.writter.unlock(g);
    let g = logger.get_writter();
    assert_eq!(g.deref(), "line");
    logger.writter.unlock(g);
}

#[test]
fn secure_intercept_registers() {
    assert_eq!(simp_value(0x1234_5678), 0x1234_5001);
    assert_eq!(simp_value(0x2000), 0x2001);
    // A masked source with another vector becomes unmasked, auto-EOI, vector 0x30.
    assert_eq!(sint_value(0x1_00ff, 0x30), 0x2_0030);
    assert_eq!(sint_value(0xff00_0000_0000_0000, 0x30), 0xff00_0000_0002_0030);
}

#[test]
fn heap_page_count() {
    assert_eq!(heap_pages(1024), Some(262_145));
    assert_eq!(heap_pages(0), Some(1));
    assert_eq!(heap_pages(u64::MAX), None);
}

#[test]
fn os_loader_indications_bit() {
    assert_eq!(
        os_loader_indications_with_vtl_protection(&vec![0x40, 0, 0, 0, 9]),
        Some(vec![0x41, 0, 0, 0])
    );
    assert_eq!(
        os_loader_indications_with_vtl_protection(&vec![0x41, 2, 3, 4]),
        Some(vec![0x41, 2, 3, 4])
    );
    assert_eq!(os_loader_indications_with_vtl_protection(&vec![1, 2]), None);
}

#[test]
fn context_retargets_entry_and_stack() {
    let seg = SegmentRegister { base: 0, limit: 0xffff_ffff, selector: 8, attributes: 0xa09b };
    let tab = TableRegister { limit: 0xfff, base: 0x5000 };
    let ctx = InitialVpContext {
        rip: 1,
        rsp: 2,
        rflags: 0x202,
        cs: seg,
        ds: seg,
        es: seg,
        fs: seg,
        gs: seg,
        ss: seg,
        tr: seg,
        ldtr: seg,
        idtr: tab,
        gdtr: tab,
        efer: 0xd01,
        cr0: 0x8000_0011,
        cr3: 0x10_0000,
        cr4: 0x20,
        msr_cr_pat: 7,
    };
    let out = retarget_context(ctx, 0xdead_0000, 0x40_0000, DEFAULT_STACK_SIZE).unwrap();
    assert_eq!(out.rip, 0xdead_0000);
    assert_eq!(out.rsp, 0x50_0000);
    assert_eq!(out.cr3, ctx.cr3);
    assert_eq!(out.gdtr, ctx.gdtr);
    assert_eq!(retarget_context(ctx, 0, u64::MAX, 1), None);
}
