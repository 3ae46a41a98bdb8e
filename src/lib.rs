//! Routing and normalization core of an interposing play-report service.
//!
//! The service can be published under one of five privilege tiers, accepts a
//! fixed table of numbered wire commands, and turns every report-submission
//! command into one canonical [`ReportContext`].

pub mod command;
pub mod report;
pub mod service;
pub mod service_name;

pub use command::{Command, CommandMeta};
pub use report::{ReportContext, ReportKind};
pub use service::{
    IPrepoService, MitmProcessInfo, PrepoService, ProcessId, SYSTEM_SESSION_ID,
    TRANSMISSION_STATUS_IDLE,
};
pub use service_name::{
    get_non_null_service_name, get_service_name, SERVICE_TYPE_ADMIN, SERVICE_TYPE_ADMIN2,
    SERVICE_TYPE_MANAGER, SERVICE_TYPE_SYSTEM, SERVICE_TYPE_USER,
};
