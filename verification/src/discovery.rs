//! Device discovery as a state machine.
//!
//! A discovery lists the adapters, starts a scan, and then looks at the
//! visible peripherals once per poll interval until one carries the name of
//! a target or the scan has lasted as long as the timeout. It then stops the
//! scan and, with a target found, connects and discovers its services.
//!
//! The machine holds the decisions only. At every stage it names one action;
//! the driver performs it and reports the result as an event, which moves
//! the machine on.

use vstd::prelude::*;
use crate::ble::{
    find_target,
    first_target,
    BleDevice,
    NANOS_PER_SEC,
    SCAN_POLL_INTERVAL_MILLIS,
};
use crate::error::BridgeError;

verus! {

/// Where a discovery stands. Each stage but the last two waits for the
/// result of one action.
#[derive(Clone, Copy, Debug, PartialEq, Eq)]
pub enum DiscoveryStage {
    /// Waiting for the number of Bluetooth adapters.
    ListingAdapters,
    /// Waiting for the scan to start.
    StartingScan,
    /// Waiting for the time that the scan has lasted.
    ReadingClock,
    /// Waiting for the names of the visible peripherals.
    ListingPeripherals,
    /// Waiting for the poll interval to pass.
    Sleeping,
    /// Waiting for the scan to stop; `found` is the target's index in the
    /// last list of peripherals, if one was seen.
    StoppingScan { found: Option<usize> },
    /// Waiting for the connection to the target.
    Connecting { index: usize },
    /// Waiting for the service discovery on the target.
    DiscoveringServices { index: usize },
    /// The target is connected and its services are known.
    Ready { index: usize },
    /// The discovery has failed.
    Failed { error: BridgeError },
}

/// What the driver reports back.
#[derive(Clone, Debug, PartialEq, Eq)]
pub enum DiscoveryEvent {
    /// The host has `count` Bluetooth adapters.
    Adapters { count: usize },
    /// The scan has lasted `nanos` nanoseconds.
    Elapsed { nanos: u128 },
    /// The advertised names of the visible peripherals, in the order in
    /// which the adapter lists them; `None` for one without a name.
    Peripherals { names: Vec<Option<String>> },
    /// The action that was asked for is done and has nothing to report.
    Completed,
    /// The action that was asked for failed on the transport.
    Failed,
}

/// What the driver is to do next.
#[derive(Clone, Copy, Debug, PartialEq, Eq)]
pub enum DiscoveryAction {
    ListAdapters,
    StartScan,
    ReadClock,
    ListPeripherals,
    Sleep { millis: u64 },
    StopScan,
    /// Connect to the peripheral at `index` of the last list.
    Connect { index: usize },
    /// Discover the services of that peripheral.
    DiscoverServices { index: usize },
    /// Take that peripheral as the session's device.
    Finish { index: usize },
    /// Give up with `error`.
    Fail { error: BridgeError },
}

/// A discovery in progress.
#[derive(Clone, Copy, Debug, PartialEq, Eq)]
pub struct Discovery {
    /// How long the scan may last, in nanoseconds.
    pub timeout_nanos: u128,
    pub stage: DiscoveryStage,
}

/// The action that a stage waits for, or ends with.
pub open spec fn action_of(stage: DiscoveryStage) -> DiscoveryAction {
    match stage {
        DiscoveryStage::ListingAdapters => DiscoveryAction::ListAdapters,
        DiscoveryStage::StartingScan => DiscoveryAction::StartScan,
        DiscoveryStage::ReadingClock => DiscoveryAction::ReadClock,
        DiscoveryStage::ListingPeripherals => DiscoveryAction::ListPeripherals,
        DiscoveryStage::Sleeping => DiscoveryAction::Sleep { millis: SCAN_POLL_INTERVAL_MILLIS },
        DiscoveryStage::StoppingScan { found } => DiscoveryAction::StopScan,
        DiscoveryStage::Connecting { index } => DiscoveryAction::Connect { index },
        DiscoveryStage::DiscoveringServices { index } => DiscoveryAction::DiscoverServices {
            index,
        },
        DiscoveryStage::Ready { index } => DiscoveryAction::Finish { index },
        DiscoveryStage::Failed { error } => DiscoveryAction::Fail { error },
    }
}

impl DiscoveryStage {
    /// The discovery is over, well or badly.
    pub open spec fn is_final(self) -> bool {
        self is Ready || self is Failed
    }
}

impl Discovery {
    /// The timeout in whole seconds, as a failed discovery reports it.
    pub open spec fn timeout_secs(self) -> u128 {
        self.timeout_nanos / NANOS_PER_SEC
    }

    /// The stage that `event` leads to.
    ///
    /// A finished discovery stays as it is. A transport failure ends any
    /// other stage. Otherwise the event moves the stage on where it is the
    /// result that the stage waits for, and is passed over where it is not.
    pub open spec fn next_stage(self, event: DiscoveryEvent) -> DiscoveryStage {
        if self.stage.is_final() {
            self.stage
        } else if event is Failed {
            DiscoveryStage::Failed { error: BridgeError::TransportError { code: None } }
        } else {
            match (self.stage, event) {
                (DiscoveryStage::ListingAdapters, DiscoveryEvent::Adapters { count }) => {
                    if count == 0 {
                        DiscoveryStage::Failed { error: BridgeError::NoAdapter }
                    } else {
                        DiscoveryStage::StartingScan
                    }
                },
                (DiscoveryStage::StartingScan, DiscoveryEvent::Completed) => {
                    DiscoveryStage::ReadingClock
                },
                (DiscoveryStage::ReadingClock, DiscoveryEvent::Elapsed { nanos }) => {
                    if nanos < self.timeout_nanos {
                        DiscoveryStage::ListingPeripherals
                    } else {
                        DiscoveryStage::StoppingScan { found: None }
                    }
                },
                (DiscoveryStage::ListingPeripherals, DiscoveryEvent::Peripherals { names }) => {
                    match first_target(names@) {
                        Some(index) => DiscoveryStage::StoppingScan { found: Some(index) },
                        None => DiscoveryStage::Sleeping,
                    }
                },
                (DiscoveryStage::Sleeping, DiscoveryEvent::Completed) => {
                    DiscoveryStage::ReadingClock
                },
                (DiscoveryStage::StoppingScan { found }, DiscoveryEvent::Completed) => {
                    match found {
                        Some(index) => DiscoveryStage::Connecting { index },
                        None => DiscoveryStage::Failed {
                            error: BridgeError::DeviceNotFound {
                                timeout_secs: self.timeout_secs(),
                            },
                        },
                    }
                },
                (DiscoveryStage::Connecting { index }, DiscoveryEvent::Completed) => {
                    DiscoveryStage::DiscoveringServices { index }
                },
                (DiscoveryStage::DiscoveringServices { index }, DiscoveryEvent::Completed) => {
                    DiscoveryStage::Ready { index }
                },
                _ => self.stage,
            }
        }
    }

    /// The action that the discovery now asks for.
    pub fn action(&self) -> (action: DiscoveryAction)
        ensures
            action == action_of(self.stage),
    {
        match self.stage {
            DiscoveryStage::ListingAdapters => DiscoveryAction::ListAdapters,
            DiscoveryStage::StartingScan => DiscoveryAction::StartScan,
            DiscoveryStage::ReadingClock => DiscoveryAction::ReadClock,
            DiscoveryStage::ListingPeripherals => DiscoveryAction::ListPeripherals,
            DiscoveryStage::Sleeping => DiscoveryAction::Sleep {
                millis: SCAN_POLL_INTERVAL_MILLIS,
            },
            DiscoveryStage::StoppingScan { found: _ } => DiscoveryAction::StopScan,
            DiscoveryStage::Connecting { index } => DiscoveryAction::Connect { index },
            DiscoveryStage::DiscoveringServices { index } => DiscoveryAction::DiscoverServices {
                index,
            },
            DiscoveryStage::Ready { index } => DiscoveryAction::Finish { index },
            DiscoveryStage::Failed { error } => DiscoveryAction::Fail { error },
        }
    }

    /// Whether the discovery is over.
    pub fn is_finished(&self) -> (finished: bool)
        ensures
            finished == self.stage.is_final(),
    {
        match self.stage {
            DiscoveryStage::Ready { index: _ } => true,
            DiscoveryStage::Failed { error: _ } => true,
            _ => false,
        }
    }

    /// Takes the result of the last action and returns the next one.
    pub fn step(&mut self, event: &DiscoveryEvent) -> (action: DiscoveryAction)
        ensures
            final(self).timeout_nanos == old(self).timeout_nanos,
            final(self).stage == old(self).next_stage(*event),
            action == action_of(final(self).stage),
    {
        if self.is_finished() {
            return self.action();
        }
        let next = match event {
            DiscoveryEvent::Failed => DiscoveryStage::Failed {
                error: BridgeError::TransportError { code: None },
            },
            DiscoveryEvent::Adapters { count } => match self.stage {
                DiscoveryStage::ListingAdapters => if *count == 0 {
                    DiscoveryStage::Failed { error: BridgeError::NoAdapter }
                } else {
                    DiscoveryStage::StartingScan
                },
                stage => stage,
            },
            DiscoveryEvent::Elapsed { nanos } => match self.stage {
                DiscoveryStage::ReadingClock => if *nanos < self.timeout_nanos {
                    DiscoveryStage::ListingPeripherals
                } else {
                    DiscoveryStage::StoppingScan { found: None }
                },
                stage => stage,
            },
            DiscoveryEvent::Peripherals { names } => match self.stage {
                DiscoveryStage::ListingPeripherals => match find_target(names) {
                    Some(index) => DiscoveryStage::StoppingScan { found: Some(index) },
                    None => DiscoveryStage::Sleeping,
                },
                stage => stage,
            },
            DiscoveryEvent::Completed => match self.stage {
                DiscoveryStage::StartingScan => DiscoveryStage::ReadingClock,
                DiscoveryStage::Sleeping => DiscoveryStage::ReadingClock,
                DiscoveryStage::StoppingScan { found: Some(index) } => DiscoveryStage::Connecting {
                    index,
                },
                DiscoveryStage::StoppingScan { found: None } => DiscoveryStage::Failed {
                    error: BridgeError::DeviceNotFound {
                        timeout_secs: self.timeout_nanos / NANOS_PER_SEC,
                    },
                },
                DiscoveryStage::Connecting { index } => DiscoveryStage::DiscoveringServices {
                    index,
                },
                DiscoveryStage::DiscoveringServices { index } => DiscoveryStage::Ready { index },
                stage => stage,
            },
        };
        self.stage = next;
        self.action()
    }
}

impl BleDevice {
    /// Begins the discovery of a target device. The scan may last
    /// `scan_timeout_nanos` nanoseconds; the first action is to list the
    /// host's adapters.
    pub fn discover(scan_timeout_nanos: u128) -> (discovery: Discovery)
        ensures
            discovery.timeout_nanos == scan_timeout_nanos,
            discovery.stage == DiscoveryStage::ListingAdapters,
    {
        Discovery { timeout_nanos: scan_timeout_nanos, stage: DiscoveryStage::ListingAdapters }
    }
}

} // verus!
