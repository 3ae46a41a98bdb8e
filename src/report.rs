//! The canonical report record that every submission command is normalized to.

use vstd::prelude::*;

verus! {

/// Whether a report is attributed to a running process or to an installed
/// application as a whole.
#[derive(Debug, Clone, Copy, PartialEq, Eq, Structural)]
pub enum ReportKind {
    Normal,
    System,
}

/// One submission event, independent of the command and the tier that
/// produced it. The room label and the payload are borrowed from the call.
pub struct ReportContext<'a> {
    pub kind: ReportKind,
    pub process_id: Option<u64>,
    pub application_id: Option<u64>,
    pub room_str_buf: &'a str,
    pub report_msgpack_buf: &'a [u8],
    pub user_id: Option<u128>,
}

/// Mathematical model of a [`ReportContext`].
pub struct ReportContextView {
    pub kind: ReportKind,
    pub process_id: Option<u64>,
    pub application_id: Option<u64>,
    pub room: Seq<char>,
    pub payload: Seq<u8>,
    pub user_id: Option<u128>,
}

impl<'a> View for ReportContext<'a> {
    type V = ReportContextView;

    open spec fn view(&self) -> ReportContextView {
        ReportContextView {
            kind: self.kind,
            process_id: self.process_id,
            application_id: self.application_id,
            room: self.room_str_buf@,
            payload: self.report_msgpack_buf@,
            user_id: self.user_id,
        }
    }
}

impl ReportContextView {
    /// The origin identifier matches the kind: a process for a normal report,
    /// an application for a system report, never both.
    pub open spec fn wf(self) -> bool {
        match self.kind {
            ReportKind::Normal => self.process_id.is_some() && self.application_id.is_none(),
            ReportKind::System => self.process_id.is_none() && self.application_id.is_some(),
        }
    }

    /// Exactly one of the two origin identifiers is present.
    pub open spec fn has_single_origin(self) -> bool {
        self.process_id.is_some() != self.application_id.is_some()
    }
}

/// The context of a report sent by the process `process_id`, on behalf of
/// `user_id` when one is given.
pub open spec fn process_report_view(
    user_id: Option<u128>,
    process_id: u64,
    room: Seq<char>,
    payload: Seq<u8>,
) -> ReportContextView {
    ReportContextView {
        kind: ReportKind::Normal,
        process_id: Some(process_id),
        application_id: None,
        room,
        payload,
        user_id,
    }
}

/// The context of a report sent for the application `application_id`, on
/// behalf of `user_id` when one is given.
pub open spec fn system_report_view(
    user_id: Option<u128>,
    application_id: u64,
    room: Seq<char>,
    payload: Seq<u8>,
) -> ReportContextView {
    ReportContextView {
        kind: ReportKind::System,
        process_id: None,
        application_id: Some(application_id),
        room,
        payload,
        user_id,
    }
}

/// Normalizes a report sent by a process.
pub fn from_process<'a>(process_id: u64, room_str_buf: &'a str, report_msgpack_buf: &'a [u8]) -> (r:
    ReportContext<'a>)
    ensures
        r@ == process_report_view(None, process_id, room_str_buf@, report_msgpack_buf@),
        r@.wf(),
{
    ReportContext {
        kind: ReportKind::Normal,
        process_id: Some(process_id),
        application_id: None,
        room_str_buf,
        report_msgpack_buf,
        user_id: None,
    }
}

/// Normalizes a report sent by a process on behalf of a user.
pub fn from_process_with_user<'a>(
    user_id: u128,
    process_id: u64,
    room_str_buf: &'a str,
    report_msgpack_buf: &'a [u8],
) -> (r: ReportContext<'a>)
    ensures
        r@ == process_report_view(Some(user_id), process_id, room_str_buf@, report_msgpack_buf@),
        r@.wf(),
{
    ReportContext {
        kind: ReportKind::Normal,
        process_id: Some(process_id),
        application_id: None,
        room_str_buf,
        report_msgpack_buf,
        user_id: Some(user_id),
    }
}

/// Normalizes a report sent for an application.
pub fn from_application<'a>(
    application_id: u64,
    room_str_buf: &'a str,
    report_msgpack_buf: &'a [u8],
) -> (r: ReportContext<'a>)
    ensures
        r@ == system_report_view(None, application_id, room_str_buf@, report_msgpack_buf@),
        r@.wf(),
{
    ReportContext {
        kind: ReportKind::System,
        process_id: None,
        application_id: Some(application_id),
        room_str_buf,
        report_msgpack_buf,
        user_id: None,
    }
}

/// Normalizes a report sent for an application on behalf of a user.
pub fn from_application_with_user<'a>(
    user_id: u128,
    application_id: u64,
    room_str_buf: &'a str,
    report_msgpack_buf: &'a [u8],
) -> (r: ReportContext<'a>)
    ensures
        r@ == system_report_view(
            Some(user_id),
            application_id,
            room_str_buf@,
            report_msgpack_buf@,
        ),
        r@.wf(),
{
    ReportContext {
        kind: ReportKind::System,
        process_id: None,
        application_id: Some(application_id),
        room_str_buf,
        report_msgpack_buf,
        user_id: Some(user_id),
    }
}

/// A user-tagged report differs from the untagged report with the same
/// arguments in the acting user alone, for processes and applications alike.
pub proof fn lemma_with_user_only_adds_user(
    user_id: u128,
    origin_id: u64,
    room: Seq<char>,
    payload: Seq<u8>,
)
    ensures
        process_report_view(Some(user_id), origin_id, room, payload) == (ReportContextView {
            user_id: Some(user_id),
            ..process_report_view(None, origin_id, room, payload)
        }),
        system_report_view(Some(user_id), origin_id, room, payload) == (ReportContextView {
            user_id: Some(user_id),
            ..system_report_view(None, origin_id, room, payload)
        }),
{
}

/// Every context that normalization builds, with or without a user, is
/// well formed and carries exactly one of a process and an application id.
pub proof fn lemma_exactly_one_origin(
    user_id: Option<u128>,
    origin_id: u64,
    room: Seq<char>,
    payload: Seq<u8>,
)
    ensures
        process_report_view(user_id, origin_id, room, payload).wf(),
        process_report_view(user_id, origin_id, room, payload).has_single_origin(),
        system_report_view(user_id, origin_id, room, payload).wf(),
        system_report_view(user_id, origin_id, room, payload).has_single_origin(),
{
}

/// A well-formed context carries exactly one origin identifier.
pub proof fn lemma_wf_single_origin(ctx: ReportContextView)
    requires
        ctx.wf(),
    ensures
        ctx.has_single_origin(),
{
}

} // verus!
