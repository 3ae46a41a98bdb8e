use prepo::command::{find_command, get_command_id, make_command_table};
use prepo::report::{from_application, from_process};
use prepo::service_name::trim_nul_chars;
use prepo::{
    get_non_null_service_name, get_service_name, Command, IPrepoService, MitmProcessInfo,
    PrepoService, ProcessId, ReportContext, ReportKind, SERVICE_TYPE_ADMIN, SERVICE_TYPE_ADMIN2,
    SERVICE_TYPE_MANAGER, SERVICE_TYPE_SYSTEM, SERVICE_TYPE_USER, SYSTEM_SESSION_ID,
    TRANSMISSION_STATUS_IDLE,
};

fn service() -> PrepoService {
    PrepoService::new(
        SERVICE_TYPE_USER,
        MitmProcessInfo { process_id: 0x51, program_id: 0x0100_0000_0000_1000 },
    )
}

fn assert_single_origin(ctx: &ReportContext) {
    assert!(ctx.process_id.is_some() != ctx.application_id.is_some());
    match ctx.kind {
        ReportKind::Normal => assert!(ctx.process_id.is_some()),
        ReportKind::System => assert!(ctx.application_id.is_some()),
    }
}

#[test]
fn plain_process_commands_normalize_alike() {
    let mut s = service();
    let payload = [1u8, 2, 3];
    let pid = ProcessId { process_id: 0x77 };
    let all = [
        s.save_report_old(pid, "room", &payload),
        s.save_report_old_2(pid, "room", &payload),
        s.save_report(pid, "room", &payload),
    ];
    for ctx in all.iter() {
        assert_eq!(ctx.kind, ReportKind::Normal);
        assert_eq!(ctx.process_id, Some(0x77));
        assert_eq!(ctx.application_id, None);
        assert_eq!(ctx.user_id, None);
        assert_eq!(ctx.room_str_buf, "room");
        assert_eq!(ctx.report_msgpack_buf, &payload[..]);
    }
}

#[test]
fn user_process_commands_add_only_the_user() {
    let mut s = service();
    let payload = [9u8; 5];
    let pid = ProcessId { process_id: 0x99 };
    let user: u128 = 0x0123_4567_89ab_cdef_0011_2233_4455_6677;
    let plain = s.save_report(pid, "r", &payload);
    let all = [
        s.save_report_with_user_old(user, pid, "r", &payload),
        s.save_report_with_user_old_2(user, pid, "r", &payload),
        s.save_report_with_user(user, pid, "r", &payload),
    ];
    for ctx in all.iter() {
        assert_eq!(ctx.user_id, Some(user));
        assert_eq!(ctx.kind, plain.kind);
        assert_eq!(ctx.process_id, plain.process_id);
        assert_eq!(ctx.application_id, plain.application_id);
        assert_eq!(ctx.room_str_buf, plain.room_str_buf);
        assert_eq!(ctx.report_msgpack_buf, plain.report_msgpack_buf);
    }
}

#[test]
fn system_commands_carry_the_application() {
    let mut s = service();
    let payload = [4u8, 5];
    let plain = s.save_system_report(0x0100_0000_0000_2000, "sys", &payload);
    assert_eq!(plain.kind, ReportKind::System);
    assert_eq!(plain.application_id, Some(0x0100_0000_0000_2000));
    assert_eq!(plain.process_id, None);
    assert_eq!(plain.user_id, None);
    let with_user = s.save_system_report_with_user(42, 0x0100_0000_0000_2000, "sys", &payload);
    assert_eq!(with_user.kind, ReportKind::System);
    assert_eq!(with_user.application_id, Some(0x0100_0000_0000_2000));
    assert_eq!(with_user.process_id, None);
    assert_eq!(with_user.user_id, Some(42));
    assert_eq!(with_user.room_str_buf, "sys");
    assert_eq!(with_user.report_msgpack_buf, &payload[..]);
}

#[test]
fn every_context_has_one_origin() {
    let mut s = service();
    let payload: [u8; 0] = [];
    let pid = ProcessId { process_id: 0 };
    let all = [
        s.save_report_old(pid, "", &payload),
        s.save_report_with_user_old(0, pid, "", &payload),
        s.save_report_old_2(pid, "", &payload),
        s.save_report_with_user_old_2(0, pid, "", &payload),
        s.save_report(pid, "", &payload),
        s.save_report_with_user(0, pid, "", &payload),
        s.save_system_report(0, "", &payload),
        s.save_system_report_with_user(0, 0, "", &payload),
        from_process(u64::MAX, "x", &payload),
        from_application(u64::MAX, "x", &payload),
    ];
    for ctx in all.iter() {
        assert_single_origin(ctx);
    }
}

#[test]
fn tier_names() {
    assert_eq!(get_service_name(SERVICE_TYPE_ADMIN), "prepo:a\0");
    assert_eq!(get_service_name(SERVICE_TYPE_ADMIN2), "prepo:a2\0");
    assert_eq!(get_service_name(SERVICE_TYPE_MANAGER), "prepo:m\0");
    assert_eq!(get_service_name(SERVICE_TYPE_USER), "prepo:u\0");
    assert_eq!(get_service_name(SERVICE_TYPE_SYSTEM), "prepo:s\0");
    assert_eq!(get_non_null_service_name(SERVICE_TYPE_ADMIN), "prepo:a");
    assert_eq!(get_non_null_service_name(SERVICE_TYPE_ADMIN2), "prepo:a2");
    assert_eq!(get_non_null_service_name(SERVICE_TYPE_MANAGER), "prepo:m");
    assert_eq!(get_non_null_service_name(SERVICE_TYPE_USER), "prepo:u");
    assert_eq!(get_non_null_service_name(SERVICE_TYPE_SYSTEM), "prepo:s");
    assert_eq!(PrepoService::get_name(SERVICE_TYPE_SYSTEM), "prepo:s\0");
}

#[test]
fn tier_names_are_distinct() {
    let tiers = [
        SERVICE_TYPE_ADMIN,
        SERVICE_TYPE_ADMIN2,
        SERVICE_TYPE_MANAGER,
        SERVICE_TYPE_USER,
        SERVICE_TYPE_SYSTEM,
    ];
    for a in tiers.iter() {
        assert!(!get_non_null_service_name(*a).is_empty());
        for b in tiers.iter() {
            assert_eq!(a == b, get_service_name(*a) == get_service_name(*b));
        }
    }
}

#[test]
fn undefined_tier_has_empty_name() {
    for t in [0u32, 6, 100, u32::MAX].iter() {
        assert_eq!(get_service_name(*t), "\0");
        assert_eq!(get_non_null_service_name(*t), "");
    }
}

#[test]
fn trimming_removes_only_outer_nuls() {
    assert_eq!(trim_nul_chars("\0\0ab\0c\0\0"), "ab\0c");
    assert_eq!(trim_nul_chars(""), "");
    assert_eq!(trim_nul_chars("\0\0\0"), "");
    assert_eq!(trim_nul_chars("plain"), "plain");
}

#[test]
fn every_program_is_intercepted() {
    for (pid, prog) in [(0u64, 0u64), (1, 0x0100_0000_0000_1000), (u64::MAX, u64::MAX)].iter() {
        assert!(PrepoService::should_mitm(MitmProcessInfo { process_id: *pid, program_id: *prog }));
    }
}

#[test]
fn save_report_scenario() {
    let mut s = service();
    let table = s.get_command_table();
    assert_eq!(find_command(10104), Some(Command::SaveReport));
    assert!(table.iter().any(|m| m.rq_id == 10104 && m.command == Command::SaveReport));
    let payload = vec![0xAAu8; 42];
    let ctx = s.save_report(ProcessId { process_id: 0x1234 }, "lobby", &payload);
    assert_eq!(ctx.kind, ReportKind::Normal);
    assert_eq!(ctx.process_id, Some(0x1234));
    assert_eq!(ctx.application_id, None);
    assert_eq!(ctx.room_str_buf, "lobby");
    assert_eq!(ctx.report_msgpack_buf.len(), 42);
    assert_eq!(ctx.user_id, None);
}

#[test]
fn save_system_report_with_user_scenario() {
    let mut s = service();
    assert_eq!(find_command(20101), Some(Command::SaveSystemReportWithUser));
    let user: u128 = 0xFEDC_BA98_7654_3210_FEDC_BA98_7654_3210;
    let payload: Vec<u8> = Vec::new();
    let ctx = s.save_system_report_with_user(user, 0xA1, "shop", &payload);
    assert_eq!(ctx.kind, ReportKind::System);
    assert_eq!(ctx.application_id, Some(0xA1));
    assert_eq!(ctx.process_id, None);
    assert_eq!(ctx.user_id, Some(user));
    assert_eq!(ctx.room_str_buf, "shop");
    assert_eq!(ctx.report_msgpack_buf.len(), 0);
}

#[test]
fn placeholder_queries() {
    let mut s = service();
    s.request_immediate_transmission();
    assert_eq!(s.get_transmission_status(), 0);
    assert_eq!(TRANSMISSION_STATUS_IDLE, 0);
    assert_eq!(s.get_system_session_id(), 0xBABABEBE);
    assert_eq!(SYSTEM_SESSION_ID, 0xBABABEBE);
}

#[test]
fn command_table_rows() {
    let s = service();
    let table = s.get_command_table();
    let expected: [(u32, Command); 11] = [
        (10100, Command::SaveReportOld),
        (10101, Command::SaveReportWithUserOld),
        (10102, Command::SaveReportOld2),
        (10103, Command::SaveReportWithUserOld2),
        (10104, Command::SaveReport),
        (10105, Command::SaveReportWithUser),
        (10200, Command::RequestImmediateTransmission),
        (10300, Command::GetTransmissionStatus),
        (10400, Command::GetSystemSessionId),
        (20100, Command::SaveSystemReport),
        (20101, Command::SaveSystemReportWithUser),
    ];
    assert_eq!(table.len(), expected.len());
    for (row, (id, cmd)) in table.iter().zip(expected.iter()) {
        assert_eq!(row.rq_id, *id);
        assert_eq!(row.command, *cmd);
        assert_eq!(get_command_id(*cmd), *id);
        assert_eq!(find_command(*id), Some(*cmd));
    }
    assert_eq!(make_command_table(), table);
}

#[test]
fn command_ids_are_unique() {
    let table = make_command_table();
    for (i, a) in table.iter().enumerate() {
        for (j, b) in table.iter().enumerate() {
            assert_eq!(i == j, a.rq_id == b.rq_id);
        }
    }
}

#[test]
fn unknown_command_ids_select_nothing() {
    for id in [0u32, 10099, 10106, 10201, 20102, u32::MAX].iter() {
        assert_eq!(find_command(*id), None);
    }
}

#[test]
fn service_keeps_its_identity() {
    let info = MitmProcessInfo { process_id: 3, program_id: 0x0100_0000_0000_3000 };
    let mut s = PrepoService::new(SERVICE_TYPE_ADMIN2, info);
    let _ = s.save_report(ProcessId { process_id: 1 }, "a", &[]);
    assert_eq!(s.service_type(), SERVICE_TYPE_ADMIN2);
    assert_eq!(s.info(), info);
}
