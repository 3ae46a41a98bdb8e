//! The wire command table: the stable numeric id of every operation.

use vstd::prelude::*;

verus! {

/// Every operation that a client can invoke on the service.
#[derive(Debug, Clone, Copy, PartialEq, Eq, Structural)]
pub enum Command {
    SaveReportOld,
    SaveReportWithUserOld,
    SaveReportOld2,
    SaveReportWithUserOld2,
    SaveReport,
    SaveReportWithUser,
    RequestImmediateTransmission,
    GetTransmissionStatus,
    GetSystemSessionId,
    SaveSystemReport,
    SaveSystemReportWithUser,
}

/// One row of the command table: a numeric id and the operation it selects.
#[derive(Debug, Clone, Copy, PartialEq, Eq, Structural)]
pub struct CommandMeta {
    pub rq_id: u32,
    pub command: Command,
}

/// The wire id of each command.
pub open spec fn command_id(command: Command) -> u32 {
    match command {
        Command::SaveReportOld => 10100,
        Command::SaveReportWithUserOld => 10101,
        Command::SaveReportOld2 => 10102,
        Command::SaveReportWithUserOld2 => 10103,
        Command::SaveReport => 10104,
        Command::SaveReportWithUser => 10105,
        Command::RequestImmediateTransmission => 10200,
        Command::GetTransmissionStatus => 10300,
        Command::GetSystemSessionId => 10400,
        Command::SaveSystemReport => 20100,
        Command::SaveSystemReportWithUser => 20101,
    }
}

/// Every command, in the order of the table.
pub open spec fn all_commands() -> Seq<Command> {
    seq![
        Command::SaveReportOld,
        Command::SaveReportWithUserOld,
        Command::SaveReportOld2,
        Command::SaveReportWithUserOld2,
        Command::SaveReport,
        Command::SaveReportWithUser,
        Command::RequestImmediateTransmission,
        Command::GetTransmissionStatus,
        Command::GetSystemSessionId,
        Command::SaveSystemReport,
        Command::SaveSystemReportWithUser,
    ]
}

/// The command table: one row per command, each under its own id.
pub open spec fn command_table() -> Seq<CommandMeta> {
    all_commands().map_values(|c: Command| CommandMeta { rq_id: command_id(c), command: c })
}

/// The command that a wire id selects, if any.
pub open spec fn command_of_id(rq_id: u32) -> Option<Command> {
    if rq_id == 10100 {
        Some(Command::SaveReportOld)
    } else if rq_id == 10101 {
        Some(Command::SaveReportWithUserOld)
    } else if rq_id == 10102 {
        Some(Command::SaveReportOld2)
    } else if rq_id == 10103 {
        Some(Command::SaveReportWithUserOld2)
    } else if rq_id == 10104 {
        Some(Command::SaveReport)
    } else if rq_id == 10105 {
        Some(Command::SaveReportWithUser)
    } else if rq_id == 10200 {
        Some(Command::RequestImmediateTransmission)
    } else if rq_id == 10300 {
        Some(Command::GetTransmissionStatus)
    } else if rq_id == 10400 {
        Some(Command::GetSystemSessionId)
    } else if rq_id == 20100 {
        Some(Command::SaveSystemReport)
    } else if rq_id == 20101 {
        Some(Command::SaveSystemReportWithUser)
    } else {
        None
    }
}

/// The wire id of `command`.
pub fn get_command_id(command: Command) -> (r: u32)
    ensures
        r == command_id(command),
{
    match command {
        Command::SaveReportOld => 10100,
        Command::SaveReportWithUserOld => 10101,
        Command::SaveReportOld2 => 10102,
        Command::SaveReportWithUserOld2 => 10103,
        Command::SaveReport => 10104,
        Command::SaveReportWithUser => 10105,
        Command::RequestImmediateTransmission => 10200,
        Command::GetTransmissionStatus => 10300,
        Command::GetSystemSessionId => 10400,
        Command::SaveSystemReport => 20100,
        Command::SaveSystemReportWithUser => 20101,
    }
}

/// Builds the command table.
pub fn make_command_table() -> (r: Vec<CommandMeta>)
    ensures
        r@ == command_table(),
{
    let r = vec![
        CommandMeta { rq_id: 10100, command: Command::SaveReportOld },
        CommandMeta { rq_id: 10101, command: Command::SaveReportWithUserOld },
        CommandMeta { rq_id: 10102, command: Command::SaveReportOld2 },
        CommandMeta { rq_id: 10103, command: Command::SaveReportWithUserOld2 },
        CommandMeta { rq_id: 10104, command: Command::SaveReport },
        CommandMeta { rq_id: 10105, command: Command::SaveReportWithUser },
        CommandMeta { rq_id: 10200, command: Command::RequestImmediateTransmission },
        CommandMeta { rq_id: 10300, command: Command::GetTransmissionStatus },
        CommandMeta { rq_id: 10400, command: Command::GetSystemSessionId },
        CommandMeta { rq_id: 20100, command: Command::SaveSystemReport },
        CommandMeta { rq_id: 20101, command: Command::SaveSystemReportWithUser },
    ];
    assert(r@ =~= command_table());
    r
}

/// Selects the command that the wire id `rq_id` stands for.
pub fn find_command(rq_id: u32) -> (r: Option<Command>)
    ensures
        r == command_of_id(rq_id),
        forall|c: Command| r == Some(c) <==> command_id(c) == rq_id,
{
    let table = make_command_table();
    let mut i: usize = 0;
    while i < table.len()
        invariant
            table@ == command_table(),
            i <= table@.len(),
            forall|k: int| 0 <= k < i ==> table@[k].rq_id != rq_id,
        decreases table@.len() - i,
    {
        if table[i].rq_id == rq_id {
            proof {
                let c = table@[i as int].command;
                lemma_command_of_id(rq_id, c);
                assert forall|d: Command| command_id(d) == rq_id implies d == c by {
                    lemma_command_of_id(rq_id, d);
                }
            }
            return Some(table[i].command);
        }
        i = i + 1;
    }
    proof {
        assert forall|c: Command| command_id(c) != rq_id by {
            lemma_every_command_listed(c);
        }
        if let Some(d) = command_of_id(rq_id) {
            lemma_command_of_id(rq_id, d);
        }
    }
    None
}

/// The dispatcher selects a command by a wire id exactly when that id is the
/// command's own.
pub proof fn lemma_command_of_id(rq_id: u32, command: Command)
    ensures
        command_of_id(rq_id) == Some(command) <==> command_id(command) == rq_id,
{
}

/// Every command has a row in the table.
pub proof fn lemma_every_command_listed(command: Command)
    ensures
        exists|k: int|
            0 <= k < command_table().len() && (#[trigger] command_table()[k]).command == command,
{
    let t = command_table();
    let k: int = match command {
        Command::SaveReportOld => 0,
        Command::SaveReportWithUserOld => 1,
        Command::SaveReportOld2 => 2,
        Command::SaveReportWithUserOld2 => 3,
        Command::SaveReport => 4,
        Command::SaveReportWithUser => 5,
        Command::RequestImmediateTransmission => 6,
        Command::GetTransmissionStatus => 7,
        Command::GetSystemSessionId => 8,
        Command::SaveSystemReport => 9,
        Command::SaveSystemReportWithUser => 10,
    };
    assert(t[k].command == command);
}

/// No two commands share a wire id, so every row of the table is reached by
/// its id alone.
pub proof fn lemma_command_ids_unique()
    ensures
        forall|a: Command, b: Command| command_id(a) == command_id(b) ==> a == b,
        forall|i: int, j: int|
            0 <= i < command_table().len() && 0 <= j < command_table().len()
                && (#[trigger] command_table()[i]).rq_id == (#[trigger] command_table()[j]).rq_id
                ==> i == j,
{
}

} // verus!
