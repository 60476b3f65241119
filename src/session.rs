//! The scan session: its states, and the decisions of `start`, `next_sensor`
//! and `stop` for each answer of the transport.
//!
//! The transport's device handle, characteristic handle and error are the
//! type parameters `D`, `C` and `E`. The caller performs each request that a
//! step names and hands the transport's answer back as the next event.
use vstd::prelude::*;
use crate::error::{Error, lift, lift_spec};
use crate::filter::DeviceFilterPolicy;

verus! {

/// A discovered device together with its resolved heart-rate characteristic.
/// Copies refer to the same device; they hold no connection of their own.
#[derive(Clone, Debug, PartialEq, Eq)]
pub struct Sensor<D, C> {
    pub device: D,
    pub characteristic: C,
}

impl<D, C> Sensor<D, C> {
    pub fn new(device: D, characteristic: C) -> (r: Self)
        ensures
            r == (Sensor { device, characteristic }),
    {
        Sensor { device, characteristic }
    }
}

/// Lifecycle of a scan session.
#[derive(Clone, Copy, Debug, PartialEq, Eq, Structural)]
pub enum ScanState {
    Idle,
    Scanning,
    Stopped,
}

/// An answer of the transport during `next_sensor`.
pub enum SensorEvent<D, C, E> {
    /// `next_sensor` was called.
    Begin,
    /// The discovery sequence gave its next device, or ended.
    Discovered(Option<D>),
    /// The characteristic lookup on the device answered.
    Resolved(D, Result<Option<C>, E>),
}

/// What `next_sensor` does next.
pub enum SensorStep<D, C, E> {
    /// Take the next item of the transport's discovery sequence.
    PullDevice,
    /// Look up the heart-rate characteristic on this device.
    Resolve(D),
    /// `next_sensor` returns this.
    Done(Result<Option<Sensor<D, C>>, Error<E>>),
}

/// The transition table of `next_sensor`.
pub open spec fn next_sensor_spec<D, C, E>(state: ScanState, event: SensorEvent<D, C, E>) -> SensorStep<
    D,
    C,
    E,
> {
    match event {
        SensorEvent::Begin => if state == ScanState::Scanning {
            SensorStep::PullDevice
        } else {
            SensorStep::Done(Ok(None))
        },
        SensorEvent::Discovered(None) => SensorStep::Done(Ok(None)),
        SensorEvent::Discovered(Some(device)) => SensorStep::Resolve(device),
        SensorEvent::Resolved(_, Err(e)) => SensorStep::Done(Err(Error::BleError(e))),
        SensorEvent::Resolved(_, Ok(None)) => SensorStep::Done(Err(Error::CharacteristicNotFound)),
        SensorEvent::Resolved(device, Ok(Some(characteristic))) => SensorStep::Done(
            Ok(Some(Sensor { device, characteristic })),
        ),
    }
}

/// The state after `stop`: a scanning session is stopped, any other is left
/// as it is.
pub open spec fn stopped_state(state: ScanState) -> ScanState {
    if state == ScanState::Scanning {
        ScanState::Stopped
    } else {
        state
    }
}

/// What `stop` returns: success where the transport was not asked or agreed.
pub open spec fn stop_result_spec<E>(answer: Option<Result<(), E>>) -> Result<(), Error<E>> {
    match answer {
        None => Ok(()),
        Some(a) => lift_spec(a),
    }
}

/// One scan session, from creation to the end of its owner.
pub struct ScanSession {
    state: ScanState,
}

impl View for ScanSession {
    type V = ScanState;

    closed spec fn view(&self) -> ScanState {
        self.state
    }
}

impl ScanSession {
    /// A new session; no scan runs yet.
    pub fn new() -> (r: ScanSession)
        ensures
            r@ == ScanState::Idle,
    {
        ScanSession { state: ScanState::Idle }
    }

    pub fn state(&self) -> (r: ScanState)
        ensures
            r == self@,
    {
        self.state
    }

    /// The filter to hand to the transport when a scan starts. Starting is
    /// allowed from every state; from `Scanning` it restarts the filtering.
    pub fn start_policy(&self) -> (r: DeviceFilterPolicy)
        ensures
            r == DeviceFilterPolicy::heart_rate_spec(),
    {
        DeviceFilterPolicy::heart_rate()
    }

    /// Records the transport's answer to the start request: on success the
    /// session is scanning, on failure it keeps its state and the error is
    /// returned.
    pub fn finish_start<E>(&mut self, answer: Result<(), E>) -> (r: Result<(), Error<E>>)
        ensures
            r == lift_spec(answer),
            final(self)@ == (if answer is Ok {
                ScanState::Scanning
            } else {
                old(self)@
            }),
    {
        if answer.is_ok() {
            self.state = ScanState::Scanning;
        }
        lift(answer)
    }

    /// One step of `next_sensor`. Outside `Scanning` the discovery sequence
    /// counts as ended, so the first step already returns `Ok(None)`.
    pub fn next_sensor_step<D, C, E>(&self, event: SensorEvent<D, C, E>) -> (r: SensorStep<D, C, E>)
        ensures
            r == next_sensor_spec(self@, event),
    {
        match event {
            SensorEvent::Begin => if self.state == ScanState::Scanning {
                SensorStep::PullDevice
            } else {
                SensorStep::Done(Ok(None))
            },
            SensorEvent::Discovered(None) => SensorStep::Done(Ok(None)),
            SensorEvent::Discovered(Some(device)) => SensorStep::Resolve(device),
            SensorEvent::Resolved(_, Err(e)) => SensorStep::Done(Err(Error::BleError(e))),
            SensorEvent::Resolved(_, Ok(None)) => SensorStep::Done(
                Err(Error::CharacteristicNotFound),
            ),
            SensorEvent::Resolved(device, Ok(Some(characteristic))) => SensorStep::Done(
                Ok(Some(Sensor::new(device, characteristic))),
            ),
        }
    }

    /// Begins `stop`: returns whether the transport's scan must be stopped,
    /// which is so only while scanning. The session is stopped afterwards
    /// whatever the transport answers, so a second `stop` asks nothing.
    pub fn begin_stop(&mut self) -> (r: bool)
        ensures
            r == (old(self)@ == ScanState::Scanning),
            final(self)@ == stopped_state(old(self)@),
    {
        if self.state == ScanState::Scanning {
            self.state = ScanState::Stopped;
            true
        } else {
            false
        }
    }
}

/// What `stop` returns, given the transport's answer, or `None` where
/// `begin_stop` asked for no request.
pub fn stop_result<E>(answer: Option<Result<(), E>>) -> (r: Result<(), Error<E>>)
    ensures
        r == stop_result_spec(answer),
{
    match answer {
        None => Ok(()),
        Some(a) => lift(a),
    }
}

/// Once a session has been stopped, `next_sensor` returns `Ok(None)` without
/// asking the transport; and in any state, a discovery sequence that ends
/// before yielding a device makes `next_sensor` return `Ok(None)`.
pub proof fn lemma_stopped_session_yields_none<D, C, E>(state: ScanState)
    ensures
        next_sensor_spec(stopped_state(state), SensorEvent::<D, C, E>::Begin) == SensorStep::<
            D,
            C,
            E,
        >::Done(Ok(None)),
        next_sensor_spec(state, SensorEvent::<D, C, E>::Discovered(None)) == SensorStep::<
            D,
            C,
            E,
        >::Done(Ok(None)),
{
}

/// A device on which the characteristic lookup finds nothing makes
/// `next_sensor` fail with `CharacteristicNotFound`; it is never reported as
/// an absence of devices.
pub proof fn lemma_missing_characteristic_is_error<D, C, E>(state: ScanState, device: D)
    ensures
        next_sensor_spec(state, SensorEvent::<D, C, E>::Resolved(device, Ok(None)))
            == SensorStep::<D, C, E>::Done(Err(Error::CharacteristicNotFound)),
        next_sensor_spec(state, SensorEvent::<D, C, E>::Resolved(device, Ok(None)))
            != SensorStep::<D, C, E>::Done(Ok(None)),
{
}

/// `stop` is idempotent: after one `stop`, whatever the transport answered,
/// a second `stop` makes no request, leaves the state as it is and succeeds.
pub proof fn lemma_stop_idempotent<E>(state: ScanState)
    ensures
        stopped_state(state) != ScanState::Scanning,
        stopped_state(stopped_state(state)) == stopped_state(state),
        stop_result_spec::<E>(None) == Ok::<(), Error<E>>(()),
{
}

} // verus!
