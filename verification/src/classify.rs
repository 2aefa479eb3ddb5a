//! Classification of a decoded trace record into a closed set of semantic
//! event kinds, driven by the packed bitfields of the action word.
//!
//! Precedence, first match wins: a record with the NOTIFY category flag is a
//! notification; otherwise, when the PC (packet-command) category flag is
//! absent, the primary action-code table applies; otherwise the cgroup
//! action-code table applies.  The dispatch on the absence of the PC flag
//! preserves the observed behaviour of the tracing pipeline verbatim.
//! Unrecognized action codes classify as `Unknown`; classification never
//! fails on a structurally valid record.

use vstd::prelude::*;

use crate::record::TraceRecordHeader;

verus! {

/// Category flags, as bit positions before the category shift.
pub const BLK_TC_READ: u32 = 1;
pub const BLK_TC_WRITE: u32 = 2;
pub const BLK_TC_PC: u32 = 0x200;
pub const BLK_TC_NOTIFY: u32 = 0x400;

/// Number of bits the category flags are shifted left within the action word.
pub const BLK_TC_SHIFT: u32 = 16;

/// Action codes, stored in the low 16 bits of the action word.
pub const BLK_TA_QUEUE: u32 = 1;
pub const BLK_TA_BACKMERGE: u32 = 2;
pub const BLK_TA_FRONTMERGE: u32 = 3;
pub const BLK_TA_GETRQ: u32 = 4;
pub const BLK_TA_SLEEPRQ: u32 = 5;
pub const BLK_TA_REQUEUE: u32 = 6;
pub const BLK_TA_ISSUE: u32 = 7;
pub const BLK_TA_COMPLETE: u32 = 8;
pub const BLK_TA_INSERT: u32 = 12;

/// The cgroup attribution flag, inside the 16-bit action code space.
pub const BLK_TA_CGROUP: u32 = 0x100;

/// Notification sub-codes, in the low bits of the action word.
pub const BLK_TN_PROCESS: u32 = 0;
pub const BLK_TN_TIMESTAMP: u32 = 1;
pub const BLK_TN_MESSAGE: u32 = 2;

/// The sub-kind of a notification record.
#[derive(Clone, Copy, Debug, PartialEq, Eq, Structural)]
pub enum NotifyKind {
    Process,
    Timestamp,
    Message,
    Unknown,
}

/// The semantic code of a block-layer action record.
#[derive(Clone, Copy, Debug, PartialEq, Eq, Structural)]
pub enum ActionCode {
    Queue,
    GetRequest,
    SleepOnRequest,
    Requeue,
    Issue,
    Complete,
    Insert,
    BackMerge,
    FrontMerge,
    Unknown,
}

/// The classification of one decoded trace record.
#[derive(Clone, Copy, Debug, PartialEq, Eq, Structural)]
pub enum ClassifiedEvent {
    /// The NOTIFY category flag was set.
    Notification { kind: NotifyKind },
    /// Any other record is a block-layer action; `cgroup_attributed` is the
    /// cgroup flag of the action code space, `is_write` the WRITE category
    /// flag, both recorded independently of the chosen code table.
    BlockAction { code: ActionCode, cgroup_attributed: bool, is_write: bool },
}

/// A category flag moved to its place in the action word.
pub open spec fn spec_blk_tc_act(act: u32) -> u32 {
    act << BLK_TC_SHIFT
}

/// Moves a category flag to its place in the action word.
pub fn blk_tc_act(act: u32) -> (r: u32)
    ensures
        r == spec_blk_tc_act(act),
{
    act << BLK_TC_SHIFT
}

/// The action code: the low 16 bits with the cgroup flag masked off.
pub open spec fn spec_action_code(action: u32) -> u32 {
    (action & 0xffff) & !BLK_TA_CGROUP
}

/// Whether the cgroup attribution flag is set in the action code space.
pub open spec fn spec_cgroup_attributed(action: u32) -> bool {
    action & BLK_TA_CGROUP != 0
}

/// Whether the WRITE category flag is set.
pub open spec fn spec_is_write(action: u32) -> bool {
    action & spec_blk_tc_act(BLK_TC_WRITE) != 0
}

/// Whether the NOTIFY category flag is set, the cgroup flag of that space
/// masked off first.
pub open spec fn spec_is_notify(action: u32) -> bool {
    (action & !BLK_TA_CGROUP) & spec_blk_tc_act(BLK_TC_NOTIFY) != 0
}

/// Whether the PC category flag is absent, which selects the primary
/// action-code table.
pub open spec fn spec_is_primary(action: u32) -> bool {
    action & spec_blk_tc_act(BLK_TC_PC) == 0
}

/// The notification sub-kind for an action word.
pub open spec fn spec_notify_kind(action: u32) -> NotifyKind {
    let code = spec_action_code(action);
    if code == BLK_TN_PROCESS {
        NotifyKind::Process
    } else if code == BLK_TN_TIMESTAMP {
        NotifyKind::Timestamp
    } else if code == BLK_TN_MESSAGE {
        NotifyKind::Message
    } else {
        NotifyKind::Unknown
    }
}

/// The primary action-code table.
pub open spec fn spec_primary_code(code: u32) -> ActionCode {
    if code == BLK_TA_QUEUE {
        ActionCode::Queue
    } else if code == BLK_TA_GETRQ {
        ActionCode::GetRequest
    } else if code == BLK_TA_SLEEPRQ {
        ActionCode::SleepOnRequest
    } else if code == BLK_TA_REQUEUE {
        ActionCode::Requeue
    } else if code == BLK_TA_ISSUE {
        ActionCode::Issue
    } else if code == BLK_TA_COMPLETE {
        ActionCode::Complete
    } else if code == BLK_TA_INSERT {
        ActionCode::Insert
    } else {
        ActionCode::Unknown
    }
}

/// The cgroup action-code table.
pub open spec fn spec_cgroup_code(code: u32) -> ActionCode {
    if code == BLK_TA_QUEUE {
        ActionCode::Queue
    } else if code == BLK_TA_INSERT {
        ActionCode::Insert
    } else if code == BLK_TA_BACKMERGE {
        ActionCode::BackMerge
    } else if code == BLK_TA_FRONTMERGE {
        ActionCode::FrontMerge
    } else if code == BLK_TA_GETRQ {
        ActionCode::GetRequest
    } else if code == BLK_TA_SLEEPRQ {
        ActionCode::SleepOnRequest
    } else if code == BLK_TA_REQUEUE {
        ActionCode::Requeue
    } else {
        ActionCode::Unknown
    }
}

/// The classification of an action word: notifications first, then the
/// primary table when the PC flag is absent, else the cgroup table.
pub open spec fn spec_classify(action: u32) -> ClassifiedEvent {
    if spec_is_notify(action) {
        ClassifiedEvent::Notification { kind: spec_notify_kind(action) }
    } else if spec_is_primary(action) {
        ClassifiedEvent::BlockAction {
            code: spec_primary_code(spec_action_code(action)),
            cgroup_attributed: spec_cgroup_attributed(action),
            is_write: spec_is_write(action),
        }
    } else {
        ClassifiedEvent::BlockAction {
            code: spec_cgroup_code(spec_action_code(action)),
            cgroup_attributed: spec_cgroup_attributed(action),
            is_write: spec_is_write(action),
        }
    }
}

/// Classifies a decoded record.  Classification is total: every
/// structurally valid record maps to exactly one event, unrecognized codes
/// to an `Unknown` kind, never to an error.
pub fn classify(record: &TraceRecordHeader) -> (e: ClassifiedEvent)
    ensures
        e == spec_classify(record.action),
{
    let action = record.action;
    let code = (action & 0xffff) & !BLK_TA_CGROUP;
    let cgroup_attributed = action & BLK_TA_CGROUP != 0;
    let is_write = action & blk_tc_act(BLK_TC_WRITE) != 0;
    if (action & !BLK_TA_CGROUP) & blk_tc_act(BLK_TC_NOTIFY) != 0 {
        let kind = if code == BLK_TN_PROCESS {
            NotifyKind::Process
        } else if code == BLK_TN_TIMESTAMP {
            NotifyKind::Timestamp
        } else if code == BLK_TN_MESSAGE {
            NotifyKind::Message
        } else {
            NotifyKind::Unknown
        };
        ClassifiedEvent::Notification { kind }
    } else if action & blk_tc_act(BLK_TC_PC) == 0 {
        let code = if code == BLK_TA_QUEUE {
            ActionCode::Queue
        } else if code == BLK_TA_GETRQ {
            ActionCode::GetRequest
        } else if code == BLK_TA_SLEEPRQ {
            ActionCode::SleepOnRequest
        } else if code == BLK_TA_REQUEUE {
            ActionCode::Requeue
        } else if code == BLK_TA_ISSUE {
            ActionCode::Issue
        } else if code == BLK_TA_COMPLETE {
            ActionCode::Complete
        } else if code == BLK_TA_INSERT {
            ActionCode::Insert
        } else {
            ActionCode::Unknown
        };
        ClassifiedEvent::BlockAction { code, cgroup_attributed, is_write }
    } else {
        let code = if code == BLK_TA_QUEUE {
            ActionCode::Queue
        } else if code == BLK_TA_INSERT {
            ActionCode::Insert
        } else if code == BLK_TA_BACKMERGE {
            ActionCode::BackMerge
        } else if code == BLK_TA_FRONTMERGE {
            ActionCode::FrontMerge
        } else if code == BLK_TA_GETRQ {
            ActionCode::GetRequest
        } else if code == BLK_TA_SLEEPRQ {
            ActionCode::SleepOnRequest
        } else if code == BLK_TA_REQUEUE {
            ActionCode::Requeue
        } else {
            ActionCode::Unknown
        };
        ClassifiedEvent::BlockAction { code, cgroup_attributed, is_write }
    }
}

/// A short stable label for the kind of a classified event, for keying
/// metrics by event kind.
pub fn event_kind_label(e: &ClassifiedEvent) -> (s: &'static str)
    ensures
        s@ == spec_event_kind_label(*e),
{
    match e {
        ClassifiedEvent::Notification { kind: NotifyKind::Process } => "notify_process",
        ClassifiedEvent::Notification { kind: NotifyKind::Timestamp } => "notify_timestamp",
        ClassifiedEvent::Notification { kind: NotifyKind::Message } => "notify_message",
        ClassifiedEvent::Notification { kind: NotifyKind::Unknown } => "notify_unknown",
        ClassifiedEvent::BlockAction { code: ActionCode::Queue, .. } => "action_queue",
        ClassifiedEvent::BlockAction { code: ActionCode::GetRequest, .. } => "action_get_request",
        ClassifiedEvent::BlockAction { code: ActionCode::SleepOnRequest, .. } => "action_sleep_on_request",
        ClassifiedEvent::BlockAction { code: ActionCode::Requeue, .. } => "action_requeue",
        ClassifiedEvent::BlockAction { code: ActionCode::Issue, .. } => "action_issue",
        ClassifiedEvent::BlockAction { code: ActionCode::Complete, .. } => "action_complete",
        ClassifiedEvent::BlockAction { code: ActionCode::Insert, .. } => "action_insert",
        ClassifiedEvent::BlockAction { code: ActionCode::BackMerge, .. } => "action_back_merge",
        ClassifiedEvent::BlockAction { code: ActionCode::FrontMerge, .. } => "action_front_merge",
        ClassifiedEvent::BlockAction { code: ActionCode::Unknown, .. } => "action_unknown",
    }
}

/// The label `event_kind_label` returns for each kind of event.
pub open spec fn spec_event_kind_label(e: ClassifiedEvent) -> Seq<char> {
    match e {
        ClassifiedEvent::Notification { kind: NotifyKind::Process } => "notify_process"@,
        ClassifiedEvent::Notification { kind: NotifyKind::Timestamp } => "notify_timestamp"@,
        ClassifiedEvent::Notification { kind: NotifyKind::Message } => "notify_message"@,
        ClassifiedEvent::Notification { kind: NotifyKind::Unknown } => "notify_unknown"@,
        ClassifiedEvent::BlockAction { code: ActionCode::Queue, .. } => "action_queue"@,
        ClassifiedEvent::BlockAction { code: ActionCode::GetRequest, .. } => "action_get_request"@,
        ClassifiedEvent::BlockAction { code: ActionCode::SleepOnRequest, .. } => "action_sleep_on_request"@,
        ClassifiedEvent::BlockAction { code: ActionCode::Requeue, .. } => "action_requeue"@,
        ClassifiedEvent::BlockAction { code: ActionCode::Issue, .. } => "action_issue"@,
        ClassifiedEvent::BlockAction { code: ActionCode::Complete, .. } => "action_complete"@,
        ClassifiedEvent::BlockAction { code: ActionCode::Insert, .. } => "action_insert"@,
        ClassifiedEvent::BlockAction { code: ActionCode::BackMerge, .. } => "action_back_merge"@,
        ClassifiedEvent::BlockAction { code: ActionCode::FrontMerge, .. } => "action_front_merge"@,
        ClassifiedEvent::BlockAction { code: ActionCode::Unknown, .. } => "action_unknown"@,
    }
}

} // verus!
