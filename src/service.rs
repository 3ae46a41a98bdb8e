//! The service object bound to one client connection, and the wire interface
//! it answers.

use vstd::prelude::*;

use crate::command::{command_table, make_command_table, CommandMeta};
use crate::report::{
    from_application, from_application_with_user, from_process, from_process_with_user,
    process_report_view, system_report_view, ReportContext,
};
use crate::service_name::{get_service_name, service_name};

verus! {

/// Status reported while no transmission is in progress.
pub const TRANSMISSION_STATUS_IDLE: u32 = 0;

/// Placeholder identifier returned for the system session.
pub const SYSTEM_SESSION_ID: u64 = 0xBABABEBE;

/// Identifier of the process that sends a report.
#[derive(Debug, Clone, Copy, PartialEq, Eq, Structural)]
pub struct ProcessId {
    pub process_id: u64,
}

/// The program that opened a connection to the service.
#[derive(Debug, Clone, Copy, PartialEq, Eq, Structural)]
pub struct MitmProcessInfo {
    pub process_id: u64,
    pub program_id: u64,
}

/// The operations of the play-report interface, one per wire command. Each
/// only adapts its arguments: the service is left as it was.
pub trait IPrepoService: Sized {
    /// Submits a report of a process (first legacy numbering).
    fn save_report_old<'a>(
        &mut self,
        process_id: ProcessId,
        room_str_buf: &'a str,
        report_msgpack_buf: &'a [u8],
    ) -> (r: ReportContext<'a>)
        ensures
            r@ == process_report_view(
                None,
                process_id.process_id,
                room_str_buf@,
                report_msgpack_buf@,
            ),
            r@.wf(),
            *final(self) == *old(self),
    ;

    /// Submits a report of a process for a user (first legacy numbering).
    fn save_report_with_user_old<'a>(
        &mut self,
        user_id: u128,
        process_id: ProcessId,
        room_str_buf: &'a str,
        report_msgpack_buf: &'a [u8],
    ) -> (r: ReportContext<'a>)
        ensures
            r@ == process_report_view(
                Some(user_id),
                process_id.process_id,
                room_str_buf@,
                report_msgpack_buf@,
            ),
            r@.wf(),
            *final(self) == *old(self),
    ;

    /// Submits a report of a process (second legacy numbering).
    fn save_report_old_2<'a>(
        &mut self,
        process_id: ProcessId,
        room_str_buf: &'a str,
        report_msgpack_buf: &'a [u8],
    ) -> (r: ReportContext<'a>)
        ensures
            r@ == process_report_view(
                None,
                process_id.process_id,
                room_str_buf@,
                report_msgpack_buf@,
            ),
            r@.wf(),
            *final(self) == *old(self),
    ;

    /// Submits a report of a process for a user (second legacy numbering).
    fn save_report_with_user_old_2<'a>(
        &mut self,
        user_id: u128,
        process_id: ProcessId,
        room_str_buf: &'a str,
        report_msgpack_buf: &'a [u8],
    ) -> (r: ReportContext<'a>)
        ensures
            r@ == process_report_view(
                Some(user_id),
                process_id.process_id,
                room_str_buf@,
                report_msgpack_buf@,
            ),
            r@.wf(),
            *final(self) == *old(self),
    ;

    /// Submits a report of a process.
    fn save_report<'a>(
        &mut self,
        process_id: ProcessId,
        room_str_buf: &'a str,
        report_msgpack_buf: &'a [u8],
    ) -> (r: ReportContext<'a>)
        ensures
            r@ == process_report_view(
                None,
                process_id.process_id,
                room_str_buf@,
                report_msgpack_buf@,
            ),
            r@.wf(),
            *final(self) == *old(self),
    ;

    /// Submits a report of a process for a user.
    fn save_report_with_user<'a>(
        &mut self,
        user_id: u128,
        process_id: ProcessId,
        room_str_buf: &'a str,
        report_msgpack_buf: &'a [u8],
    ) -> (r: ReportContext<'a>)
        ensures
            r@ == process_report_view(
                Some(user_id),
                process_id.process_id,
                room_str_buf@,
                report_msgpack_buf@,
            ),
            r@.wf(),
            *final(self) == *old(self),
    ;

    /// Asks for the pending reports to be sent now.
    fn request_immediate_transmission(&mut self)
        ensures
            *final(self) == *old(self),
    ;

    /// Status of the report transmission: always idle here.
    fn get_transmission_status(&mut self) -> (r: u32)
        ensures
            r == TRANSMISSION_STATUS_IDLE,
            *final(self) == *old(self),
    ;

    /// Identifier of the system session: a fixed placeholder here.
    fn get_system_session_id(&mut self) -> (r: u64)
        ensures
            r == SYSTEM_SESSION_ID,
            *final(self) == *old(self),
    ;

    /// Submits a report of an application.
    fn save_system_report<'a>(
        &mut self,
        application_id: u64,
        room_str_buf: &'a str,
        report_msgpack_buf: &'a [u8],
    ) -> (r: ReportContext<'a>)
        ensures
            r@ == system_report_view(
                None,
                application_id,
                room_str_buf@,
                report_msgpack_buf@,
            ),
            r@.wf(),
            *final(self) == *old(self),
    ;

    /// Submits a report of an application for a user.
    fn save_system_report_with_user<'a>(
        &mut self,
        user_id: u128,
        application_id: u64,
        room_str_buf: &'a str,
        report_msgpack_buf: &'a [u8],
    ) -> (r: ReportContext<'a>)
        ensures
            r@ == system_report_view(
                Some(user_id),
                application_id,
                room_str_buf@,
                report_msgpack_buf@,
            ),
            r@.wf(),
            *final(self) == *old(self),
    ;
}

/// The service as seen by one connection: the tier it was published under and
/// the program on the other end. Neither changes after creation.
pub struct PrepoService {
    service_type: u32,
    info: MitmProcessInfo,
}

impl PrepoService {
    /// The tier selector the service was created for.
    pub closed spec fn spec_service_type(&self) -> u32 {
        self.service_type
    }

    /// The program the connection belongs to.
    pub closed spec fn spec_info(&self) -> MitmProcessInfo {
        self.info
    }

    /// A service object for a new connection of the program `info`, under the
    /// tier `service_type`.
    pub fn new(service_type: u32, info: MitmProcessInfo) -> (r: Self)
        ensures
            r.spec_service_type() == service_type,
            r.spec_info() == info,
    {
        PrepoService { service_type, info }
    }

    pub fn service_type(&self) -> (r: u32)
        ensures
            r == self.spec_service_type(),
    {
        self.service_type
    }

    pub fn info(&self) -> (r: MitmProcessInfo)
        ensures
            r == self.spec_info(),
    {
        self.info
    }

    /// The name to register the tier `service_type` under.
    pub fn get_name(service_type: u32) -> (r: &'static str)
        ensures
            r@ == service_name(service_type),
    {
        get_service_name(service_type)
    }

    /// Whether a program that reaches for the real service is intercepted:
    /// every one is.
    pub fn should_mitm(info: MitmProcessInfo) -> (r: bool)
        ensures
            r,
    {
        true
    }

    /// The command table of the interface.
    pub fn get_command_table(&self) -> (r: Vec<CommandMeta>)
        ensures
            r@ == command_table(),
    {
        make_command_table()
    }
}

impl IPrepoService for PrepoService {
    fn save_report_old<'a>(
        &mut self,
        process_id: ProcessId,
        room_str_buf: &'a str,
        report_msgpack_buf: &'a [u8],
    ) -> (r: ReportContext<'a>) {
        from_process(process_id.process_id, room_str_buf, report_msgpack_buf)
    }

    fn save_report_with_user_old<'a>(
        &mut self,
        user_id: u128,
        process_id: ProcessId,
        room_str_buf: &'a str,
        report_msgpack_buf: &'a [u8],
    ) -> (r: ReportContext<'a>) {
        from_process_with_user(user_id, process_id.process_id, room_str_buf, report_msgpack_buf)
    }

    fn save_report_old_2<'a>(
        &mut self,
        process_id: ProcessId,
        room_str_buf: &'a str,
        report_msgpack_buf: &'a [u8],
    ) -> (r: ReportContext<'a>) {
        from_process(process_id.process_id, room_str_buf, report_msgpack_buf)
    }

    fn save_report_with_user_old_2<'a>(
        &mut self,
        user_id: u128,
        process_id: ProcessId,
        room_str_buf: &'a str,
        report_msgpack_buf: &'a [u8],
    ) -> (r: ReportContext<'a>) {
        from_process_with_user(user_id, process_id.process_id, room_str_buf, report_msgpack_buf)
    }

    fn save_report<'a>(
        &mut self,
        process_id: ProcessId,
        room_str_buf: &'a str,
        report_msgpack_buf: &'a [u8],
    ) -> (r: ReportContext<'a>) {
        from_process(process_id.process_id, room_str_buf, report_msgpack_buf)
    }

    fn save_report_with_user<'a>(
        &mut self,
        user_id: u128,
        process_id: ProcessId,
        room_str_buf: &'a str,
        report_msgpack_buf: &'a [u8],
    ) -> (r: ReportContext<'a>) {
        from_process_with_user(user_id, process_id.process_id, room_str_buf, report_msgpack_buf)
    }

    fn request_immediate_transmission(&mut self) {
    }

    fn get_transmission_status(&mut self) -> (r: u32) {
        TRANSMISSION_STATUS_IDLE
    }

    fn get_system_session_id(&mut self) -> (r: u64) {
        SYSTEM_SESSION_ID
    }

    fn save_system_report<'a>(
        &mut self,
        application_id: u64,
        room_str_buf: &'a str,
        report_msgpack_buf: &'a [u8],
    ) -> (r: ReportContext<'a>) {
        from_application(application_id, room_str_buf, report_msgpack_buf)
    }

    fn save_system_report_with_user<'a>(
        &mut self,
        user_id: u128,
        application_id: u64,
        room_str_buf: &'a str,
        report_msgpack_buf: &'a [u8],
    ) -> (r: ReportContext<'a>) {
        from_application_with_user(user_id, application_id, room_str_buf, report_msgpack_buf)
    }
}

} // verus!
