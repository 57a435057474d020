//! The ways in which a synchronisation run fails.

use vstd::prelude::*;
use crate::codec::Stage;

verus! {

/// Why no interface was selected.
#[derive(Clone, Copy, Debug, PartialEq, Eq, Structural)]
pub enum NotFoundReason {
    /// No interface of the enumeration has the vendor and product ids.
    Absent,
    /// The device is there, but none of its interfaces has the interface
    /// number asked for.
    WrongInterface,
    /// More than one interface has all three identifying fields.
    Ambiguous,
}

/// The first failure of a run. A run reports one error and stops.
#[derive(Clone, Copy, Debug, PartialEq, Eq, Structural)]
pub enum SyncError {
    /// No single interface matches the identity asked for.
    DeviceNotFound(NotFoundReason),
    /// The matching interface could not be opened.
    DeviceOpenError,
    /// A SET or GET feature-report transfer failed at the given stage.
    TransferError { stage: Stage },
}

impl SyncError {
    /// The text of the error, with what the operator can do about it.
    pub open spec fn spec_message(self) -> Seq<char> {
        match self {
            SyncError::DeviceNotFound(NotFoundReason::Absent) =>
                "device not found: no interface has the vendor and product ids; check that the device is connected and that the ids are correct"@,
            SyncError::DeviceNotFound(NotFoundReason::WrongInterface) =>
                "device not found: the vendor and product ids are present, but not on the interface number asked for; check the interface number"@,
            SyncError::DeviceNotFound(NotFoundReason::Ambiguous) =>
                "device not found: more than one interface matches the identity; disconnect the duplicate device"@,
            SyncError::DeviceOpenError =>
                "device could not be opened: access was denied or another process holds the interface; run with elevated privileges or fix the device permissions"@,
            SyncError::TransferError { stage: Stage::First } =>
                "feature-report transfer failed at handshake stage 0"@,
            SyncError::TransferError { stage: Stage::Second } =>
                "feature-report transfer failed at handshake stage 1"@,
            SyncError::TransferError { stage: Stage::TimeSet } =>
                "feature-report transfer failed at handshake stage 2 (time-set)"@,
            SyncError::TransferError { stage: Stage::Last } =>
                "feature-report transfer failed at handshake stage 3"@,
        }
    }

    /// The index of the stage at which a transfer failed, for a transfer
    /// error.
    pub open spec fn spec_stage_index(self) -> Option<nat> {
        match self {
            SyncError::TransferError { stage } => Some(stage.spec_index()),
            _ => None,
        }
    }

    /// The text of the error, with what the operator can do about it.
    pub fn message(&self) -> (text: &'static str)
        ensures
            text@ == self.spec_message(),
    {
        match self {
            SyncError::DeviceNotFound(NotFoundReason::Absent) =>
                "device not found: no interface has the vendor and product ids; check that the device is connected and that the ids are correct",
            SyncError::DeviceNotFound(NotFoundReason::WrongInterface) =>
                "device not found: the vendor and product ids are present, but not on the interface number asked for; check the interface number",
            SyncError::DeviceNotFound(NotFoundReason::Ambiguous) =>
                "device not found: more than one interface matches the identity; disconnect the duplicate device",
            SyncError::DeviceOpenError =>
                "device could not be opened: access was denied or another process holds the interface; run with elevated privileges or fix the device permissions",
            SyncError::TransferError { stage: Stage::First } =>
                "feature-report transfer failed at handshake stage 0",
            SyncError::TransferError { stage: Stage::Second } =>
                "feature-report transfer failed at handshake stage 1",
            SyncError::TransferError { stage: Stage::TimeSet } =>
                "feature-report transfer failed at handshake stage 2 (time-set)",
            SyncError::TransferError { stage: Stage::Last } =>
                "feature-report transfer failed at handshake stage 3",
        }
    }

    /// The index of the stage at which a transfer failed, for a transfer
    /// error.
    pub fn stage_index(&self) -> (index: Option<usize>)
        ensures
            index.is_some() == self.spec_stage_index().is_some(),
            index matches Some(i) ==> self.spec_stage_index() == Some(i as nat),
    {
        match self {
            SyncError::TransferError { stage } => Some(stage.index()),
            _ => None,
        }
    }
}

} // verus!
