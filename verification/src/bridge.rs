//! The bridge session: its configuration, its construction, and the event
//! loop as a state machine.
//!
//! The loop takes the notifications of the peripheral and the results of
//! the periodic liveness check. A notification of the BLE-MIDI
//! characteristic is decoded and transposed, and the event it carries is
//! handed out for sending; the device's status for it comes back as an
//! event of its own. Failures of single packets are counted and tolerated
//! up to a limit in a row; a lost connection ends the session at once.

use std::time::Duration;
use vstd::prelude::*;
use crate::ble::{
    resolves_to,
    BleDevice,
    CharacteristicRef,
    BLE_MIDI_CHARACTERISTIC_UUID,
    BLE_MIDI_SERVICE_UUID,
};
use crate::error::{BridgeError, PacketError};
use crate::output::{is_first_port, names_port, sent, MidiOutput};
use crate::midi::MidiMessage;
use crate::packet::{process_ble_midi_packet, processed, transposed};

verus! {

/// The failures in a row that a session tolerates; one more ends it.
pub const MAX_CONSECUTIVE_ERRORS: u32 = 10;

/// The least and the greatest octave offset of a configuration.
pub const MIN_OCTAVE_OFFSET: i8 = -11;

pub const MAX_OCTAVE_OFFSET: i8 = 11;

/// The settings of a session. They do not change while it lasts.
#[derive(Debug)]
pub struct Config {
    /// The text that the name of the output port contains.
    pub virtual_midi_port_name: String,
    /// How long the scan for the peripheral may last.
    pub ble_scan_timeout: Duration,
    /// The time between two keep-alive reads.
    pub ble_keepalive_interval: Duration,
    /// The time between two liveness checks.
    pub ble_status_check_interval: Duration,
    /// By how many octaves notes are moved, from -11 to 11.
    pub octave_offset: i8,
}

impl Clone for Config {
    fn clone(&self) -> (copy: Self)
        ensures
            copy == *self,
    {
        Config {
            virtual_midi_port_name: self.virtual_midi_port_name.clone(),
            ble_scan_timeout: self.ble_scan_timeout,
            ble_keepalive_interval: self.ble_keepalive_interval,
            ble_status_check_interval: self.ble_status_check_interval,
            octave_offset: self.octave_offset,
        }
    }
}

impl Config {
    /// Whether the octave offset lies in the range from -11 to 11.
    pub fn octave_offset_in_range(&self) -> (in_range: bool)
        ensures
            in_range == (MIN_OCTAVE_OFFSET <= self.octave_offset <= MAX_OCTAVE_OFFSET),
    {
        MIN_OCTAVE_OFFSET <= self.octave_offset && self.octave_offset <= MAX_OCTAVE_OFFSET
    }
}

/// What the driver reports to the event loop.
#[derive(Clone, Debug, PartialEq, Eq)]
pub enum BridgeEvent {
    /// A notification arrived from the characteristic with `uuid`.
    Notification { uuid: u128, value: Vec<u8> },
    /// The output device returned `code` for the message last handed out.
    Sent { code: u32 },
    /// The liveness check came back.
    StatusChecked { connected: bool },
    /// An operation on the wireless link failed.
    LinkFailed,
}

/// What the driver is to do after an event.
#[derive(Clone, Copy, Debug, PartialEq, Eq)]
pub enum BridgeAction {
    /// Wait for the next event.
    Continue,
    /// Send `word` to the output device and report its status.
    Send { word: u32 },
    /// End the session with `error`.
    Stop { error: BridgeError },
}

/// The state of an event loop, as contracts see it.
pub struct LoopState {
    /// The characteristic whose notifications the loop is subscribed to.
    pub characteristic: CharacteristicRef,
    /// By how many octaves notes are moved.
    pub octave_offset: i8,
    /// The packets that have failed since the last one that succeeded.
    pub consecutive_errors: nat,
    /// Why the loop has ended, if it has.
    pub failure: Option<BridgeError>,
}

impl LoopState {
    /// The loop has not ended.
    pub open spec fn running(self) -> bool {
        self.failure is None
    }

    /// The state after one more packet has failed with `cause`: the loop
    /// ends where that exceeds the tolerated number in a row.
    pub open spec fn after_failure(self, cause: PacketError) -> LoopState {
        let count = self.consecutive_errors + 1;
        LoopState {
            consecutive_errors: count,
            failure: if count > MAX_CONSECUTIVE_ERRORS {
                Some(BridgeError::TooManyConsecutiveErrors { last: cause })
            } else {
                None
            },
            ..self
        }
    }

    /// The state after a packet has been processed well.
    pub open spec fn after_success(self) -> LoopState {
        LoopState { consecutive_errors: 0, ..self }
    }

    /// The state after the loop has ended with `error`.
    pub open spec fn stopped(self, error: BridgeError) -> LoopState {
        LoopState { failure: Some(error), ..self }
    }
}

/// The failure that `event` completes the processing of a packet with, if
/// it does: a notification of the BLE-MIDI characteristic that does not
/// decode, or a device status other than success.
pub open spec fn packet_failure(event: BridgeEvent) -> Option<PacketError> {
    match event {
        BridgeEvent::Notification { uuid, value } => {
            if uuid == BLE_MIDI_CHARACTERISTIC_UUID && value@.len() < 2 {
                Some(PacketError::PacketTooShort)
            } else {
                None
            }
        },
        BridgeEvent::Sent { code } => {
            if code != 0 {
                Some(PacketError::TransportError { code })
            } else {
                None
            }
        },
        _ => None,
    }
}

/// `event` completes the processing of a packet well: a notification of the
/// BLE-MIDI characteristic that holds framing and no event, or the device's
/// success status for a message.
pub open spec fn packet_success(event: BridgeEvent) -> bool {
    match event {
        BridgeEvent::Notification { uuid, value } => {
            uuid == BLE_MIDI_CHARACTERISTIC_UUID && 2 <= value@.len() < 5
        },
        BridgeEvent::Sent { code } => code == 0,
        _ => false,
    }
}

/// The state that `event` leads to. An ended loop stays as it is.
pub open spec fn step_state(state: LoopState, event: BridgeEvent) -> LoopState {
    if !state.running() {
        state
    } else {
        match event {
            BridgeEvent::Notification { uuid, value } => {
                if uuid != BLE_MIDI_CHARACTERISTIC_UUID {
                    state
                } else {
                    match processed(value@, state.octave_offset) {
                        Ok(Some(message)) => state,
                        Ok(None) => state.after_success(),
                        Err(cause) => state.after_failure(cause),
                    }
                }
            },
            BridgeEvent::Sent { code } => {
                match sent(code) {
                    Ok(_) => state.after_success(),
                    Err(cause) => state.after_failure(cause),
                }
            },
            BridgeEvent::StatusChecked { connected } => {
                if connected {
                    state
                } else {
                    state.stopped(BridgeError::UnexpectedDisconnect)
                }
            },
            BridgeEvent::LinkFailed => state.stopped(BridgeError::TransportError { code: None }),
        }
    }
}

/// The action that `event` calls for: to stop where the loop has ended, to
/// send where a notification of the BLE-MIDI characteristic carries an
/// event, else to go on.
pub open spec fn step_action(state: LoopState, event: BridgeEvent) -> BridgeAction {
    match step_state(state, event).failure {
        Some(error) => BridgeAction::Stop { error },
        None => match event {
            BridgeEvent::Notification { uuid, value } => {
                if uuid != BLE_MIDI_CHARACTERISTIC_UUID {
                    BridgeAction::Continue
                } else {
                    match processed(value@, state.octave_offset) {
                        Ok(Some(message)) => BridgeAction::Send { word: message.spec_midi_word() },
                        _ => BridgeAction::Continue,
                    }
                }
            },
            _ => BridgeAction::Continue,
        },
    }
}

/// The state after a whole sequence of events.
pub open spec fn run(state: LoopState, events: Seq<BridgeEvent>) -> LoopState
    decreases events.len(),
{
    if events.len() == 0 {
        state
    } else {
        step_state(run(state, events.drop_last()), events.last())
    }
}

/// What a running loop does with a notification of the BLE-MIDI
/// characteristic, by the length of its payload: below two bytes the packet
/// fails; from two to four bytes it succeeds and nothing is sent; from five
/// bytes on exactly the event at offsets 2, 3 and 4 is sent, transposed, and
/// the count waits for the device's status.
pub proof fn lemma_packet_forwarding(state: LoopState, value: Vec<u8>)
    requires
        state.running(),
    ensures
        ({
            let event = BridgeEvent::Notification { uuid: BLE_MIDI_CHARACTERISTIC_UUID, value };
            let carried = MidiMessage { status: value@[2], data1: value@[3], data2: value@[4] };
            let word = transposed(carried, state.octave_offset).spec_midi_word();
            if value@.len() < 2 {
                step_state(state, event) == state.after_failure(PacketError::PacketTooShort)
            } else if value@.len() < 5 {
                &&& step_state(state, event) == state.after_success()
                &&& step_action(state, event) == BridgeAction::Continue
            } else {
                &&& step_state(state, event) == state
                &&& step_action(state, event) == (BridgeAction::Send { word })
            }
        }),
{
}

/// An ended loop takes no notice of further events.
pub proof fn lemma_ended_loop_stays(state: LoopState, events: Seq<BridgeEvent>)
    requires
        !state.running(),
    ensures
        run(state, events) == state,
    decreases events.len(),
{
    if events.len() > 0 {
        lemma_ended_loop_stays(state, events.drop_last());
    }
}

/// A packet that is processed well sets the count of failures in a row back
/// to zero, whatever it was, and the loop goes on.
pub proof fn lemma_success_resets_count(state: LoopState, event: BridgeEvent)
    requires
        state.running(),
        packet_success(event),
    ensures
        step_state(state, event).consecutive_errors == 0,
        step_state(state, event).running(),
        step_action(state, event) == BridgeAction::Continue,
{
}

/// `event` leaves a running loop as it is: a notification of another
/// characteristic, a notification that carries an event and so waits for
/// the device's status, or a liveness check that passed.
pub open spec fn passes_by(event: BridgeEvent) -> bool {
    match event {
        BridgeEvent::Notification { uuid, value } => {
            uuid != BLE_MIDI_CHARACTERISTIC_UUID || value@.len() >= 5
        },
        BridgeEvent::StatusChecked { connected } => connected,
        _ => false,
    }
}

/// No event of the sequence completes a packet well or ends the loop by
/// itself: each is a failed packet or leaves the loop as it is.
pub open spec fn without_success(events: Seq<BridgeEvent>) -> bool {
    forall|i: int|
        0 <= i < events.len() ==> packet_failure(#[trigger] events[i]) is Some || passes_by(
            events[i],
        )
}

/// The number of failed packets in the sequence.
pub open spec fn failures_in(events: Seq<BridgeEvent>) -> nat
    decreases events.len(),
{
    if events.len() == 0 {
        0
    } else if packet_failure(events.last()) is Some {
        failures_in(events.drop_last()) + 1
    } else {
        failures_in(events.drop_last())
    }
}

/// The failure of the last failed packet in the sequence, if there is one.
pub open spec fn last_failure(events: Seq<BridgeEvent>) -> Option<PacketError>
    decreases events.len(),
{
    if events.len() == 0 {
        None
    } else if packet_failure(events.last()) is Some {
        packet_failure(events.last())
    } else {
        last_failure(events.drop_last())
    }
}

/// An event that passes by leaves the loop as it is, running or ended, and
/// a running loop goes on after it or waits for the status of a send.
pub proof fn lemma_passing_event(state: LoopState, event: BridgeEvent)
    requires
        passes_by(event),
    ensures
        step_state(state, event) == state,
        state.running() ==> !(step_action(state, event) is Stop),
{
}

/// Failures in a row add up, one for each failed packet, whatever events
/// that leave the loop as it is lie between them: notifications that wait
/// for the status of their send, notifications of other characteristics,
/// liveness checks that passed. The loop goes on while the count is at most
/// the tolerated number, and has ended with the failure of the last failed
/// packet attached once the count exceeds it.
pub proof fn lemma_failures_in_a_row(state: LoopState, events: Seq<BridgeEvent>)
    requires
        state.running(),
        state.consecutive_errors <= MAX_CONSECUTIVE_ERRORS,
        without_success(events),
        state.consecutive_errors + failures_in(events) <= MAX_CONSECUTIVE_ERRORS + 1,
    ensures
        run(state, events).consecutive_errors == state.consecutive_errors + failures_in(events),
        run(state, events).octave_offset == state.octave_offset,
        run(state, events).characteristic == state.characteristic,
        state.consecutive_errors + failures_in(events) <= MAX_CONSECUTIVE_ERRORS ==> run(
            state,
            events,
        ).running(),
        state.consecutive_errors + failures_in(events) == MAX_CONSECUTIVE_ERRORS + 1 ==> run(
            state,
            events,
        ).failure == Some(
            BridgeError::TooManyConsecutiveErrors { last: last_failure(events)->0 },
        ) && last_failure(events) is Some,
    decreases events.len(),
{
    if events.len() > 0 {
        let front = events.drop_last();
        assert(run(state, events) == step_state(run(state, front), events.last()));
        assert forall|i: int| 0 <= i < front.len() implies packet_failure(
            #[trigger] front[i],
        ) is Some || passes_by(front[i]) by {
            assert(front[i] == events[i]);
        }
        lemma_failures_in_a_row(state, front);
        if packet_failure(events.last()) is None {
            lemma_passing_event(run(state, front), events.last());
        }
    }
}

/// From a count of zero, the eleventh failed packet ends the loop with its
/// failure attached, and no fewer do, whatever events that leave the loop
/// as it is lie between the failures.
pub proof fn lemma_eleven_failures_end_loop(state: LoopState, events: Seq<BridgeEvent>)
    requires
        state.running(),
        state.consecutive_errors == 0,
        without_success(events),
        failures_in(events) == MAX_CONSECUTIVE_ERRORS + 1,
    ensures
        run(state, events).failure == Some(
            BridgeError::TooManyConsecutiveErrors { last: last_failure(events)->0 },
        ),
        last_failure(events) is Some,
        forall|n: int|
            0 <= n <= events.len() && failures_in(events.take(n)) <= MAX_CONSECUTIVE_ERRORS ==> (
            #[trigger] run(state, events.take(n))).running(),
{
    lemma_failures_in_a_row(state, events);
    assert forall|n: int|
        0 <= n <= events.len() && failures_in(events.take(n))
            <= MAX_CONSECUTIVE_ERRORS implies (#[trigger] run(state, events.take(n))).running() by {
        let prefix = events.take(n);
        assert forall|i: int| 0 <= i < prefix.len() implies packet_failure(
            #[trigger] prefix[i],
        ) is Some || passes_by(prefix[i]) by {
            assert(prefix[i] == events[i]);
        }
        lemma_failures_in_a_row(state, prefix);
    }
}

/// A failed liveness check ends the loop at once with an unexpected
/// disconnect, whatever events came before it and however many packets had
/// failed, as long as the loop was still running.
pub proof fn lemma_disconnect_ends_loop(state: LoopState, events: Seq<BridgeEvent>)
    requires
        run(state, events).running(),
    ensures
        step_state(run(state, events), BridgeEvent::StatusChecked { connected: false }).failure
            == Some(BridgeError::UnexpectedDisconnect),
        step_action(run(state, events), BridgeEvent::StatusChecked { connected: false })
            == (BridgeAction::Stop { error: BridgeError::UnexpectedDisconnect }),
        run(state, events.push(BridgeEvent::StatusChecked { connected: false })).failure == Some(
            BridgeError::UnexpectedDisconnect,
        ),
{
    let all = events.push(BridgeEvent::StatusChecked { connected: false });
    assert(all.drop_last() =~= events);
}

/// The event loop of a started session.
#[derive(Debug)]
pub struct BridgeLoop {
    characteristic: CharacteristicRef,
    octave_offset: i8,
    consecutive_errors: u32,
    failure: Option<BridgeError>,
}

impl View for BridgeLoop {
    type V = LoopState;

    closed spec fn view(&self) -> LoopState {
        LoopState {
            characteristic: self.characteristic,
            octave_offset: self.octave_offset,
            consecutive_errors: self.consecutive_errors as nat,
            failure: self.failure,
        }
    }
}

impl BridgeLoop {
    #[verifier::type_invariant]
    spec fn counter_bounded(self) -> bool {
        &&& self.consecutive_errors <= MAX_CONSECUTIVE_ERRORS + 1
        &&& self.failure is None ==> self.consecutive_errors <= MAX_CONSECUTIVE_ERRORS
    }

    /// The characteristic whose notifications the loop takes.
    pub fn characteristic(&self) -> (at: CharacteristicRef)
        ensures
            at == self@.characteristic,
    {
        self.characteristic
    }

    /// The packets that have failed since the last one that succeeded. In a
    /// running loop that is never more than the tolerated number.
    pub fn consecutive_errors(&self) -> (count: u32)
        ensures
            count == self@.consecutive_errors,
            count <= MAX_CONSECUTIVE_ERRORS + 1,
            self@.running() ==> count <= MAX_CONSECUTIVE_ERRORS,
    {
        proof {
            use_type_invariant(self);
        }
        self.consecutive_errors
    }

    /// Why the loop has ended, if it has.
    pub fn failure(&self) -> (failure: Option<BridgeError>)
        ensures
            failure == self@.failure,
    {
        self.failure
    }

    /// Takes one event and says what to do next.
    pub fn step(&mut self, event: &BridgeEvent) -> (action: BridgeAction)
        ensures
            final(self)@ == step_state(old(self)@, *event),
            action == step_action(old(self)@, *event),
    {
        proof {
            use_type_invariant(&*self);
        }
        if let Some(error) = self.failure {
            return BridgeAction::Stop { error };
        }
        match event {
            BridgeEvent::Notification { uuid, value } => {
                if *uuid != BLE_MIDI_CHARACTERISTIC_UUID {
                    return BridgeAction::Continue;
                }
                match process_ble_midi_packet(value.as_slice(), self.octave_offset) {
                    Ok(Some(message)) => BridgeAction::Send { word: message.to_midi_word() },
                    Ok(None) => self.succeed(),
                    Err(cause) => self.fail(cause),
                }
            },
            BridgeEvent::Sent { code } => {
                match MidiOutput::send_result(*code) {
                    Ok(_) => self.succeed(),
                    Err(cause) => self.fail(cause),
                }
            },
            BridgeEvent::StatusChecked { connected } => {
                if *connected {
                    BridgeAction::Continue
                } else {
                    self.stop(BridgeError::UnexpectedDisconnect)
                }
            },
            BridgeEvent::LinkFailed => self.stop(BridgeError::TransportError { code: None }),
        }
    }

    fn succeed(&mut self) -> (action: BridgeAction)
        requires
            old(self)@.running(),
        ensures
            final(self)@ == old(self)@.after_success(),
            action == BridgeAction::Continue,
    {
        *self = BridgeLoop {
            characteristic: self.characteristic,
            octave_offset: self.octave_offset,
            consecutive_errors: 0,
            failure: None,
        };
        BridgeAction::Continue
    }

    fn fail(&mut self, cause: PacketError) -> (action: BridgeAction)
        requires
            old(self)@.running(),
        ensures
            final(self)@ == old(self)@.after_failure(cause),
            action == (match final(self)@.failure {
                Some(error) => BridgeAction::Stop { error },
                None => BridgeAction::Continue,
            }),
    {
        proof {
            use_type_invariant(&*self);
        }
        let count: u32 = self.consecutive_errors + 1;
        if count > MAX_CONSECUTIVE_ERRORS {
            let error = BridgeError::TooManyConsecutiveErrors { last: cause };
            *self = BridgeLoop {
                characteristic: self.characteristic,
                octave_offset: self.octave_offset,
                consecutive_errors: count,
                failure: Some(error),
            };
            BridgeAction::Stop { error }
        } else {
            *self = BridgeLoop {
                characteristic: self.characteristic,
                octave_offset: self.octave_offset,
                consecutive_errors: count,
                failure: None,
            };
            BridgeAction::Continue
        }
    }

    fn stop(&mut self, error: BridgeError) -> (action: BridgeAction)
        requires
            old(self)@.running(),
        ensures
            final(self)@ == old(self)@.stopped(error),
            action == (BridgeAction::Stop { error }),
    {
        proof {
            use_type_invariant(&*self);
        }
        *self = BridgeLoop {
            characteristic: self.characteristic,
            octave_offset: self.octave_offset,
            consecutive_errors: self.consecutive_errors,
            failure: Some(error),
        };
        BridgeAction::Stop { error }
    }
}

/// A session before its loop runs: the connected device, the chosen output
/// and the settings.
#[derive(Debug)]
pub struct BleMidiBridge {
    ble_device: BleDevice,
    midi_output: MidiOutput,
    config: Config,
}

impl BleMidiBridge {
    /// The connected device.
    pub closed spec fn spec_ble_device(&self) -> BleDevice {
        self.ble_device
    }

    /// The chosen output.
    pub closed spec fn spec_midi_output(&self) -> MidiOutput {
        self.midi_output
    }

    /// The settings.
    pub closed spec fn spec_config(&self) -> Config {
        self.config
    }

    /// The connected device.
    pub fn ble_device(&self) -> (device: &BleDevice)
        ensures
            *device == self.spec_ble_device(),
    {
        &self.ble_device
    }

    /// The chosen output.
    pub fn midi_output(&self) -> (output: MidiOutput)
        ensures
            output == self.spec_midi_output(),
    {
        self.midi_output
    }

    /// The settings.
    pub fn config(&self) -> (config: &Config)
        ensures
            *config == self.spec_config(),
    {
        &self.config
    }

    /// Puts a session together from the discovered device and the host's
    /// output devices, each an id with its name. The output is the first
    /// device whose name contains the configured port name; the port counts
    /// as not found exactly where no name contains it. The chosen device is
    /// not opened here: the status of the open is read by
    /// `MidiOutput::open_result`, which makes a failure a transport error.
    pub fn new(
        config: &Config,
        ble_device: BleDevice,
        output_devices: &Vec<(usize, String)>,
    ) -> (result: Result<BleMidiBridge, BridgeError>)
        ensures
            match result {
                Ok(bridge) => {
                    &&& bridge.spec_config() == *config
                    &&& bridge.spec_ble_device() == ble_device
                    &&& exists|index: int|
                        is_first_port(output_devices@, config.virtual_midi_port_name@, index)
                            && bridge.spec_midi_output().device_id == output_devices@[index].0
                },
                Err(e) => {
                    &&& e == BridgeError::MidiPortNotFound
                    &&& forall|k: int|
                        !names_port(output_devices@, config.virtual_midi_port_name@, k)
                },
            },
    {
        let midi_output = match MidiOutput::new_with_device_name(
            output_devices,
            config.virtual_midi_port_name.as_str(),
        ) {
            Ok(output) => output,
            Err(_) => {
                return Err(BridgeError::MidiPortNotFound);
            },
        };
        Ok(
            BleMidiBridge {
                ble_device,
                midi_output,
                config: config.clone(),
            },
        )
    }

    /// Starts the session: resolves the BLE-MIDI characteristic under the
    /// BLE-MIDI service and returns the event loop, which has seen no
    /// failure yet. Without the service or the characteristic the session
    /// does not start.
    pub fn start(&self) -> (result: Result<BridgeLoop, BridgeError>)
        ensures
            match result {
                Ok(events) => {
                    &&& resolves_to(
                        self.spec_ble_device().services@,
                        BLE_MIDI_SERVICE_UUID,
                        BLE_MIDI_CHARACTERISTIC_UUID,
                        Ok(events@.characteristic),
                    )
                    &&& events@.octave_offset == self.spec_config().octave_offset
                    &&& events@.consecutive_errors == 0
                    &&& events@.running()
                },
                Err(e) => resolves_to(
                    self.spec_ble_device().services@,
                    BLE_MIDI_SERVICE_UUID,
                    BLE_MIDI_CHARACTERISTIC_UUID,
                    Err(e),
                ),
            },
    {
        match self.ble_device.resolve(BLE_MIDI_SERVICE_UUID, BLE_MIDI_CHARACTERISTIC_UUID) {
            Ok(characteristic) => Ok(
                BridgeLoop {
                    characteristic,
                    octave_offset: self.config.octave_offset,
                    consecutive_errors: 0,
                    failure: None,
                },
            ),
            Err(e) => Err(e),
        }
    }
}

} // verus!
