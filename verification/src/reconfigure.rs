//! The protocol that changes the sample rate or the physical format of a
//! device.
//!
//! A change is not done when the platform has accepted it: the device
//! confirms it later, through a notification. One change is therefore a
//! conversation with the platform:
//!
//! 1. read the current value; if the device already has the setting, succeed
//!    without touching it;
//! 2. for a rate, read the supported ranges and refuse a rate that none of
//!    them is exactly;
//! 3. register a listener for the property;
//! 4. write the new value;
//! 5. wait for the listener to deliver a confirming value, in short attempts,
//!    until an overall deadline has passed;
//! 6. remove the listener, on success and on failure alike.
//!
//! `Reconfiguration` holds the state of one such conversation. It names the
//! call to make next (`pending`) and takes the answer (`step`); the driver
//! performs the calls.

use crate::address::{AudioDeviceID, AudioObject, PropertyAddress, Selector};
use crate::error::{Error, NO_ERROR};
use crate::format::StreamFormat;
use crate::layout::{decode_ranges, ranges_of};
use crate::listener::Binding;
use crate::platform::{Reply, Request, Setting};
use crate::range::{find_rate_range, first_exact_range, supports_rate, SampleRateRange};
use crate::rate::SampleRate;
use vstd::prelude::*;

verus! {

/// The longest that one attempt to receive a confirmation waits: 100 ms.
pub const ATTEMPT_TIMEOUT_NS: u64 = 100_000_000;

/// The time after which a change that was not confirmed has failed: 1 s,
/// counted from the return of the write.
pub const DEADLINE_NS: u64 = 1_000_000_000;

/// The time from `started_ns` to `now_ns`; zero if the clock reads less than
/// it did at the start.
pub open spec fn elapsed_ns(started_ns: u64, now_ns: u64) -> nat {
    if now_ns >= started_ns {
        (now_ns - started_ns) as nat
    } else {
        0
    }
}

/// Where a reconfiguration stands: the call whose answer it waits for.
#[derive(Clone, Copy, Debug, PartialEq, Eq)]
pub enum Phase {
    /// The current value was asked for.
    ReadingCurrent,
    /// The size of the list of supported rate ranges was asked for.
    SizingRanges,
    /// The list of supported rate ranges, of `bytes` bytes, was asked for.
    ReadingRanges { bytes: u32 },
    /// The listener is being registered; `value` is what will be written.
    AddingListener { value: Setting },
    /// `value` is being written; the listener is registered.
    Writing { value: Setting },
    /// The write returned at `started_ns`; a confirmation is awaited.
    Waiting { started_ns: u64 },
    /// The listener is being removed; `outcome` is how the change ended.
    RemovingListener { outcome: Result<(), Error> },
    /// The change has ended with `outcome`; no listener is registered.
    Finished { outcome: Result<(), Error> },
}

/// What the driver does next.
#[derive(Clone, Copy, Debug, PartialEq, Eq)]
pub enum Step {
    /// Perform the call and hand its answer to `step`.
    Ask(Request),
    /// The change has ended with this result.
    Done(Result<(), Error>),
}

/// One change of a device setting in flight.
#[derive(Clone, Copy, Debug, PartialEq, Eq)]
pub struct Reconfiguration {
    /// The device that is reconfigured.
    pub device_id: AudioDeviceID,
    /// The setting that the device is to have.
    pub target: Setting,
    /// Where the conversation stands.
    pub phase: Phase,
}

/// The address of the list of rate ranges that a device supports.
pub open spec fn ranges_address() -> PropertyAddress {
    PropertyAddress::global(Selector::AvailableNominalSampleRates)
}

/// What a rate change does once the supported ranges are known: it refuses a
/// rate that no range is exactly, and otherwise goes on to register the
/// listener, with the device's own value of the rate as the value to write.
pub open spec fn phase_for_ranges(ranges: Seq<SampleRateRange>, rate: SampleRate) -> Phase {
    if supports_rate(ranges, rate) {
        Phase::AddingListener {
            value: Setting::Rate(ranges[first_exact_range(ranges, rate)].minimum),
        }
    } else {
        Phase::Finished { outcome: Err(Error::UnsupportedSampleRate) }
    }
}

/// What a change does with one answer to an attempt to receive: a confirming
/// value ends the wait with success, the deadline ends it with failure, and
/// anything else leaves it waiting.
pub open spec fn phase_after_wait(
    target: Setting,
    started_ns: u64,
    delivered: Option<Setting>,
    now_ns: u64,
) -> Phase {
    if delivered is Some && target.confirmed_by(delivered->Some_0) {
        Phase::RemovingListener { outcome: Ok(()) }
    } else if elapsed_ns(started_ns, now_ns) > DEADLINE_NS {
        Phase::RemovingListener { outcome: Err(Error::UnsupportedSampleRate) }
    } else {
        Phase::Waiting { started_ns }
    }
}

impl Reconfiguration {
    /// A change of `device_id` to `target` of which nothing has happened yet
    /// but that the current value is asked for.
    pub open spec fn start(device_id: AudioDeviceID, target: Setting) -> Reconfiguration {
        Reconfiguration { device_id, target, phase: Phase::ReadingCurrent }
    }

    /// The device as the object of a property.
    pub open spec fn object(self) -> AudioObject {
        AudioObject::Device(self.device_id)
    }

    /// What the listener of this change is bound to.
    pub open spec fn binding(self) -> Binding {
        Binding { device_id: self.device_id, property_address: self.target.address() }
    }

    /// Whether the platform holds the registration of the listener.
    pub open spec fn listening(self) -> bool {
        self.phase is Writing || self.phase is Waiting || self.phase is RemovingListener
    }

    /// What the driver does next: the call that the phase waits for, or the
    /// result.
    pub open spec fn pending(self) -> Step {
        match self.phase {
            Phase::ReadingCurrent => Step::Ask(
                Request::Read { object: self.object(), address: self.target.address() },
            ),
            Phase::SizingRanges => Step::Ask(
                Request::ReadSize { object: self.object(), address: ranges_address() },
            ),
            Phase::ReadingRanges { bytes } => Step::Ask(
                Request::ReadList { object: self.object(), address: ranges_address(), bytes },
            ),
            Phase::AddingListener { value } => Step::Ask(
                Request::AddListener { binding: self.binding() },
            ),
            Phase::Writing { value } => Step::Ask(
                Request::Write { object: self.object(), address: self.target.address(), value },
            ),
            Phase::Waiting { started_ns } => Step::Ask(
                Request::Receive { timeout_ns: ATTEMPT_TIMEOUT_NS },
            ),
            Phase::RemovingListener { outcome } => Step::Ask(
                Request::RemoveListener { binding: self.binding() },
            ),
            Phase::Finished { outcome } => Step::Done(outcome),
        }
    }

    /// Whether `reply` answers the call that the phase waits for.
    pub open spec fn expects(self, reply: Reply) -> bool {
        match self.phase {
            Phase::ReadingCurrent => reply is Value,
            Phase::SizingRanges => reply is Size,
            Phase::ReadingRanges { bytes } => reply is List,
            Phase::AddingListener { value } => reply is ListenerAdded,
            Phase::Writing { value } => reply is Written,
            Phase::Waiting { started_ns } => reply is Received,
            Phase::RemovingListener { outcome } => reply is ListenerRemoved,
            Phase::Finished { outcome } => false,
        }
    }

    /// The phase that follows when `reply` answers the pending call. A reply
    /// that does not answer it leaves the phase as it is.
    pub open spec fn next_phase(self, reply: Reply) -> Phase {
        match (self.phase, reply) {
            (Phase::ReadingCurrent, Reply::Value { status, value }) => {
                if status != NO_ERROR {
                    Phase::Finished { outcome: Err(Error::Unknown(status)) }
                } else if self.target.already_set(value) {
                    Phase::Finished { outcome: Ok(()) }
                } else if self.target is Rate {
                    Phase::SizingRanges
                } else {
                    Phase::AddingListener { value: self.target }
                }
            },
            (Phase::SizingRanges, Reply::Size { status, bytes }) => {
                if status != NO_ERROR {
                    Phase::Finished { outcome: Err(Error::Unknown(status)) }
                } else {
                    Phase::ReadingRanges { bytes }
                }
            },
            (Phase::ReadingRanges { bytes }, Reply::List { status, data }) => {
                if status != NO_ERROR {
                    Phase::Finished { outcome: Err(Error::Unknown(status)) }
                } else {
                    match self.target {
                        Setting::Rate(rate) => phase_for_ranges(ranges_of(data@), rate),
                        Setting::Format(_) => Phase::AddingListener { value: self.target },
                    }
                }
            },
            (Phase::AddingListener { value }, Reply::ListenerAdded { status }) => {
                if status != NO_ERROR {
                    Phase::Finished { outcome: Err(Error::Unknown(status)) }
                } else {
                    Phase::Writing { value }
                }
            },
            (Phase::Writing { value }, Reply::Written { status, now_ns }) => {
                if status != NO_ERROR {
                    Phase::RemovingListener { outcome: Err(Error::Unknown(status)) }
                } else {
                    Phase::Waiting { started_ns: now_ns }
                }
            },
            (Phase::Waiting { started_ns }, Reply::Received { delivered, now_ns }) => {
                phase_after_wait(self.target, started_ns, delivered, now_ns)
            },
            (Phase::RemovingListener { outcome }, Reply::ListenerRemoved { status }) => {
                Phase::Finished { outcome }
            },
            _ => self.phase,
        }
    }

    /// The reconfiguration after `reply`.
    pub open spec fn after(self, reply: Reply) -> Reconfiguration {
        Reconfiguration { phase: self.next_phase(reply), ..self }
    }

    /// The reconfiguration after each of `replies`, in order.
    pub open spec fn run(self, replies: Seq<Reply>) -> Reconfiguration
        decreases replies.len(),
    {
        if replies.len() == 0 {
            self
        } else {
            self.run(replies.drop_last()).after(replies.last())
        }
    }

    /// The calls that the driver was asked for on the way through `replies`:
    /// the one that was pending at the start, and one more after each reply
    /// that answered the pending call and did not end the change.
    pub open spec fn asked(self, replies: Seq<Reply>) -> Seq<Request>
        decreases replies.len(),
    {
        if replies.len() == 0 {
            match self.pending() {
                Step::Ask(request) => seq![request],
                Step::Done(_) => Seq::empty(),
            }
        } else {
            let before = self.run(replies.drop_last());
            let so_far = self.asked(replies.drop_last());
            match before.after(replies.last()).pending() {
                Step::Ask(request) if before.expects(replies.last()) => so_far.push(request),
                _ => so_far,
            }
        }
    }

    /// Begins a change of `device_id` to `target`.
    pub fn begin(device_id: AudioDeviceID, target: Setting) -> (change: Reconfiguration)
        ensures
            change == Reconfiguration::start(device_id, target),
    {
        Reconfiguration { device_id, target, phase: Phase::ReadingCurrent }
    }

    /// The binding of the listener of this change.
    pub fn listener_binding(&self) -> (binding: Binding)
        ensures
            binding == self.binding(),
    {
        Binding { device_id: self.device_id, property_address: self.target.property_address() }
    }

    /// Whether the change has ended.
    pub fn is_finished(&self) -> (finished: bool)
        ensures
            finished == (self.phase is Finished),
            finished == (self.pending() is Done),
    {
        match self.phase {
            Phase::Finished { .. } => true,
            _ => false,
        }
    }

    /// Whether the platform holds the registration of the listener of this
    /// change.
    pub fn is_listening(&self) -> (listening: bool)
        ensures
            listening == self.listening(),
    {
        match self.phase {
            Phase::Writing { .. } | Phase::Waiting { .. } | Phase::RemovingListener { .. } => true,
            _ => false,
        }
    }

    /// Whether `reply` answers the pending call.
    pub fn accepts(&self, reply: &Reply) -> (expected: bool)
        ensures
            expected == self.expects(*reply),
    {
        match (self.phase, reply) {
            (Phase::ReadingCurrent, Reply::Value { .. }) => true,
            (Phase::SizingRanges, Reply::Size { .. }) => true,
            (Phase::ReadingRanges { .. }, Reply::List { .. }) => true,
            (Phase::AddingListener { .. }, Reply::ListenerAdded { .. }) => true,
            (Phase::Writing { .. }, Reply::Written { .. }) => true,
            (Phase::Waiting { .. }, Reply::Received { .. }) => true,
            (Phase::RemovingListener { .. }, Reply::ListenerRemoved { .. }) => true,
            _ => false,
        }
    }

    /// What the driver does next.
    pub fn current(&self) -> (step: Step)
        ensures
            step == self.pending(),
    {
        let object = AudioObject::Device(self.device_id);
        match self.phase {
            Phase::ReadingCurrent => Step::Ask(
                Request::Read { object, address: self.target.property_address() },
            ),
            Phase::SizingRanges => Step::Ask(
                Request::ReadSize {
                    object,
                    address: PropertyAddress::new_global(Selector::AvailableNominalSampleRates),
                },
            ),
            Phase::ReadingRanges { bytes } => Step::Ask(
                Request::ReadList {
                    object,
                    address: PropertyAddress::new_global(Selector::AvailableNominalSampleRates),
                    bytes,
                },
            ),
            Phase::AddingListener { .. } => Step::Ask(
                Request::AddListener { binding: self.listener_binding() },
            ),
            Phase::Writing { value } => Step::Ask(
                Request::Write { object, address: self.target.property_address(), value },
            ),
            Phase::Waiting { .. } => Step::Ask(Request::Receive { timeout_ns: ATTEMPT_TIMEOUT_NS }),
            Phase::RemovingListener { .. } => Step::Ask(
                Request::RemoveListener { binding: self.listener_binding() },
            ),
            Phase::Finished { outcome } => Step::Done(outcome),
        }
    }

    /// Takes the answer of the platform and says what to do next. A reply
    /// that does not answer the pending call changes nothing: the same call
    /// stays pending.
    pub fn step(&mut self, reply: &Reply) -> (step: Step)
        ensures
            *final(self) == old(self).after(*reply),
            step == final(self).pending(),
    {
        let next: Phase = match (self.phase, reply) {
            (Phase::ReadingCurrent, Reply::Value { status, value }) => {
                match Error::from_os_status(*status) {
                    Err(e) => Phase::Finished { outcome: Err(e) },
                    Ok(()) => {
                        if self.target.is_already_set(value) {
                            Phase::Finished { outcome: Ok(()) }
                        } else {
                            match self.target {
                                Setting::Rate(_) => Phase::SizingRanges,
                                Setting::Format(_) => Phase::AddingListener { value: self.target },
                            }
                        }
                    },
                }
            },
            (Phase::SizingRanges, Reply::Size { status, bytes }) => {
                match Error::from_os_status(*status) {
                    Err(e) => Phase::Finished { outcome: Err(e) },
                    Ok(()) => Phase::ReadingRanges { bytes: *bytes },
                }
            },
            (Phase::ReadingRanges { .. }, Reply::List { status, data }) => {
                match Error::from_os_status(*status) {
                    Err(e) => Phase::Finished { outcome: Err(e) },
                    Ok(()) => match self.target {
                        Setting::Rate(rate) => choose_range(data.as_slice(), &rate),
                        Setting::Format(_) => Phase::AddingListener { value: self.target },
                    },
                }
            },
            (Phase::AddingListener { value }, Reply::ListenerAdded { status }) => {
                match Error::from_os_status(*status) {
                    Err(e) => Phase::Finished { outcome: Err(e) },
                    Ok(()) => Phase::Writing { value },
                }
            },
            (Phase::Writing { .. }, Reply::Written { status, now_ns }) => {
                match Error::from_os_status(*status) {
                    Err(e) => Phase::RemovingListener { outcome: Err(e) },
                    Ok(()) => Phase::Waiting { started_ns: *now_ns },
                }
            },
            (Phase::Waiting { started_ns }, Reply::Received { delivered, now_ns }) => {
                await_confirmation(&self.target, started_ns, delivered, *now_ns)
            },
            (Phase::RemovingListener { outcome }, Reply::ListenerRemoved { .. }) => {
                Phase::Finished { outcome }
            },
            _ => self.phase,
        };
        self.phase = next;
        self.current()
    }
}

/// Takes a recorded conversation: hands each of `replies` to `change` in
/// order, and returns the calls that the driver was asked for on the way, the
/// pending one at the start first.
pub fn replay(change: &mut Reconfiguration, replies: &Vec<Reply>) -> (asked: Vec<Request>)
    ensures
        *final(change) == old(change).run(replies@),
        asked@ == old(change).asked(replies@),
{
    let ghost start = *change;
    let mut asked: Vec<Request> = Vec::new();
    match change.current() {
        Step::Ask(request) => {
            asked.push(request);
        },
        Step::Done(_) => {},
    }
    proof {
        assert(replies@.take(0) == Seq::<Reply>::empty());
        assert(asked@ == start.asked(replies@.take(0)));
    }
    let mut i: usize = 0;
    while i < replies.len()
        invariant
            i <= replies.len(),
            *change == start.run(replies@.take(i as int)),
            asked@ == start.asked(replies@.take(i as int)),
        decreases replies.len() - i,
    {
        let expected: bool = change.accepts(&replies[i]);
        let step: Step = change.step(&replies[i]);
        proof {
            let upto = replies@.take(i + 1);
            assert(upto.drop_last() == replies@.take(i as int));
            assert(upto.last() == replies@[i as int]);
        }
        match step {
            Step::Ask(request) => {
                if expected {
                    asked.push(request);
                }
            },
            Step::Done(_) => {},
        }
        i = i + 1;
    }
    proof {
        assert(replies@.take(replies.len() as int) == replies@);
    }
    asked
}

/// Decides from the list of supported ranges, as the platform wrote it into
/// `data`, whether a change to `rate` goes on.
pub fn choose_range(data: &[u8], rate: &SampleRate) -> (phase: Phase)
    ensures
        phase == phase_for_ranges(ranges_of(data@), *rate),
{
    let ranges: Vec<SampleRateRange> = decode_ranges(data);
    match find_rate_range(&ranges, rate) {
        None => Phase::Finished { outcome: Err(Error::UnsupportedSampleRate) },
        Some(i) => Phase::AddingListener { value: Setting::Rate(ranges[i].minimum) },
    }
}

/// Decides after one attempt to receive whether the wait for `target` goes
/// on: `delivered` is what the listener handed on, if anything, and `now_ns` the
/// time at which the attempt ended.
pub fn await_confirmation(
    target: &Setting,
    started_ns: u64,
    delivered: &Option<Setting>,
    now_ns: u64,
) -> (phase: Phase)
    ensures
        phase == phase_after_wait(*target, started_ns, *delivered, now_ns),
{
    let confirmed: bool = match delivered {
        Some(reported) => target.is_confirmed_by(reported),
        None => false,
    };
    if confirmed {
        Phase::RemovingListener { outcome: Ok(()) }
    } else {
        let elapsed: u64 = if now_ns >= started_ns {
            now_ns - started_ns
        } else {
            0
        };
        if elapsed > DEADLINE_NS {
            Phase::RemovingListener { outcome: Err(Error::UnsupportedSampleRate) }
        } else {
            Phase::Waiting { started_ns }
        }
    }
}

/// Begins a change of the nominal sample rate of `device_id` to `new_rate`.
pub fn set_device_sample_rate(device_id: AudioDeviceID, new_rate: SampleRate) -> (change:
    Reconfiguration)
    ensures
        change == Reconfiguration::start(device_id, Setting::Rate(new_rate)),
{
    Reconfiguration::begin(device_id, Setting::Rate(new_rate))
}

/// Begins a change of the physical stream format of `device_id` to
/// `new_asbd`.
pub fn set_device_sample_format(device_id: AudioDeviceID, new_asbd: StreamFormat) -> (change:
    Reconfiguration)
    ensures
        change == Reconfiguration::start(device_id, Setting::Format(new_asbd)),
{
    Reconfiguration::begin(device_id, Setting::Format(new_asbd))
}

/// The kinds of call that touch the device or the listener.
#[derive(Clone, Copy, Debug, PartialEq, Eq, Structural)]
pub enum Touch {
    /// Registering the listener.
    AddListener,
    /// Writing the new value.
    Write,
    /// Removing the listener.
    RemoveListener,
}

/// Whether `request` is a call of kind `touch`.
pub open spec fn is_touch(request: Request, touch: Touch) -> bool {
    match touch {
        Touch::AddListener => request is AddListener,
        Touch::Write => request is Write,
        Touch::RemoveListener => request is RemoveListener,
    }
}

/// The number of calls of kind `touch` among `requests`.
pub open spec fn touches(requests: Seq<Request>, touch: Touch) -> nat
    decreases requests.len(),
{
    if requests.len() == 0 {
        0
    } else {
        touches(requests.drop_last(), touch) + if is_touch(requests.last(), touch) {
            1nat
        } else {
            0nat
        }
    }
}

impl Reconfiguration {
    /// The number of registrations that the platform accepted on the way
    /// through `replies`.
    pub open spec fn registrations(self, replies: Seq<Reply>) -> nat
        decreases replies.len(),
    {
        if replies.len() == 0 {
            0
        } else {
            let before = self.run(replies.drop_last());
            self.registrations(replies.drop_last()) + if before.phase is AddingListener
                && replies.last() == (Reply::ListenerAdded { status: NO_ERROR }) {
                1nat
            } else {
                0nat
            }
        }
    }

    /// How the calls that were asked for relate to the phase that a change
    /// is in, whatever the platform answered: the listener is asked for once
    /// at most, the value is written only behind an accepted registration,
    /// and a change is finished only when every accepted registration has
    /// had its removal asked for.
    pub open spec fn accounted(self, replies: Seq<Reply>) -> bool {
        let end = self.run(replies);
        let asked = self.asked(replies);
        let added = touches(asked, Touch::AddListener);
        let written = touches(asked, Touch::Write);
        let removed = touches(asked, Touch::RemoveListener);
        let registered = self.registrations(replies);
        match end.phase {
            Phase::ReadingCurrent | Phase::SizingRanges | Phase::ReadingRanges { .. } => added == 0
                && written == 0 && removed == 0 && registered == 0,
            Phase::AddingListener { .. } => added == 1 && written == 0 && removed == 0 && registered
                == 0,
            Phase::Writing { .. } | Phase::Waiting { .. } => added == 1 && written == 1 && removed
                == 0 && registered == 1,
            Phase::RemovingListener { .. } => added == 1 && written == 1 && removed == 1
                && registered == 1,
            Phase::Finished { .. } => added <= 1 && written == registered && removed == registered
                && registered <= added,
        }
    }
}

/// Counting the calls of one kind goes call by call.
proof fn lemma_touches_push(requests: Seq<Request>, request: Request, touch: Touch)
    ensures
        touches(requests.push(request), touch) == touches(requests, touch) + if is_touch(
            request,
            touch,
        ) {
            1nat
        } else {
            0nat
        },
{
    assert(requests.push(request).drop_last() == requests);
}

/// A device that already has the setting is left alone: the change succeeds
/// on the answer to the first read, and that read is the only call that was
/// asked for. No listener is registered and nothing is written.
pub proof fn lemma_current_setting_is_left_alone(
    device_id: AudioDeviceID,
    target: Setting,
    current: Setting,
)
    requires
        target.already_set(current),
    ensures
        ({
            let change = Reconfiguration::start(device_id, target);
            let replies = seq![Reply::Value { status: NO_ERROR, value: current }];
            &&& change.run(replies).pending() == Step::Done(Ok(()))
            &&& change.asked(replies) == seq![
                Request::Read { object: change.object(), address: target.address() },
            ]
        }),
{
    let change = Reconfiguration::start(device_id, target);
    let replies = seq![Reply::Value { status: NO_ERROR, value: current }];
    assert(replies.drop_last() == Seq::<Reply>::empty());
    assert(change.run(replies.drop_last()) == change);
    assert(change.run(replies) == change.after(replies.last()));
    assert(change.asked(replies.drop_last()) == seq![
        Request::Read { object: change.object(), address: target.address() },
    ]);
}

/// A rate that no supported range is exactly is refused before the device is
/// touched: the change fails with `UnsupportedSampleRate` on the answer that
/// brings the ranges, and the three reads are the only calls that were asked
/// for. No listener is registered and nothing is written.
pub proof fn lemma_unsupported_rate_is_refused_untouched(
    device_id: AudioDeviceID,
    rate: SampleRate,
    current: Setting,
    bytes: u32,
    data: Vec<u8>,
)
    requires
        !Setting::Rate(rate).already_set(current),
        !supports_rate(ranges_of(data@), rate),
    ensures
        ({
            let change = Reconfiguration::start(device_id, Setting::Rate(rate));
            let replies = seq![
                Reply::Value { status: NO_ERROR, value: current },
                Reply::Size { status: NO_ERROR, bytes },
                Reply::List { status: NO_ERROR, data },
            ];
            &&& change.run(replies).pending() == Step::Done(Err(Error::UnsupportedSampleRate))
            &&& change.asked(replies) == seq![
                Request::Read { object: change.object(), address: Setting::Rate(rate).address() },
                Request::ReadSize { object: change.object(), address: ranges_address() },
                Request::ReadList { object: change.object(), address: ranges_address(), bytes },
            ]
        }),
{
    let change = Reconfiguration::start(device_id, Setting::Rate(rate));
    let r0 = Reply::Value { status: NO_ERROR, value: current };
    let r1 = Reply::Size { status: NO_ERROR, bytes };
    let r2 = Reply::List { status: NO_ERROR, data };
    let replies = seq![r0, r1, r2];
    let two = seq![r0, r1];
    let one = seq![r0];
    assert(replies.drop_last() == two);
    assert(two.drop_last() == one);
    assert(one.drop_last() == Seq::<Reply>::empty());
    assert(change.run(one.drop_last()) == change);
    assert(change.run(one) == change.after(r0));
    assert(change.run(two) == change.after(r0).after(r1));
    assert(change.run(replies) == change.after(r0).after(r1).after(r2));
    let q0 = Request::Read { object: change.object(), address: Setting::Rate(rate).address() };
    let q1 = Request::ReadSize { object: change.object(), address: ranges_address() };
    let q2 = Request::ReadList { object: change.object(), address: ranges_address(), bytes };
    assert(change.asked(one.drop_last()) == seq![q0]);
    assert(change.asked(one) == seq![q0, q1]);
    assert(change.asked(two) == seq![q0, q1, q2]);
}

/// While the deadline has not passed, a wait that receives nothing, or only
/// values that do not confirm the setting, goes on: after any number of such
/// attempts the change still waits, as it did before them.
pub proof fn lemma_wait_goes_on_within_deadline(change: Reconfiguration, replies: Seq<Reply>)
    requires
        change.phase is Waiting,
        forall|i: int|
            0 <= i < replies.len() ==> (#[trigger] replies[i] matches Reply::Received {
                delivered,
                now_ns,
            } && !(delivered is Some && change.target.confirmed_by(delivered->Some_0))
                && elapsed_ns(change.phase->started_ns, now_ns) <= DEADLINE_NS),
    ensures
        change.run(replies) == change,
        change.run(replies).pending() == Step::Ask(
            Request::Receive { timeout_ns: ATTEMPT_TIMEOUT_NS },
        ),
    decreases replies.len(),
{
    if replies.len() > 0 {
        let earlier = replies.drop_last();
        assert forall|i: int| 0 <= i < earlier.len() implies (#[trigger] earlier[i] matches Reply::Received {
            delivered,
            now_ns,
        } && !(delivered is Some && change.target.confirmed_by(delivered->Some_0)) && elapsed_ns(
            change.phase->started_ns,
            now_ns,
        ) <= DEADLINE_NS) by {
            assert(earlier[i] == replies[i]);
        }
        lemma_wait_goes_on_within_deadline(change, earlier);
        assert(replies.last() == replies[replies.len() - 1]);
    }
}

/// Once the deadline has passed, a wait that is not confirmed ends: the first
/// attempt that ends later than the deadline, without a confirming value,
/// makes the change ask for the removal of the listener, and whatever the
/// removal answers the change then fails with `UnsupportedSampleRate`.
pub proof fn lemma_wait_fails_past_deadline(
    change: Reconfiguration,
    delivered: Option<Setting>,
    now_ns: u64,
    removal_status: crate::error::OSStatus,
)
    requires
        change.phase is Waiting,
        !(delivered is Some && change.target.confirmed_by(delivered->Some_0)),
        elapsed_ns(change.phase->started_ns, now_ns) > DEADLINE_NS,
    ensures
        change.after(Reply::Received { delivered, now_ns }).pending() == Step::Ask(
            Request::RemoveListener { binding: change.binding() },
        ),
        change.after(Reply::Received { delivered, now_ns }).after(
            Reply::ListenerRemoved { status: removal_status },
        ).pending() == Step::Done(Err(Error::UnsupportedSampleRate)),
{
}

/// A confirming value ends the wait at once, whatever the clock reads: the
/// change asks for the removal of the listener, and whatever the removal
/// answers the change then succeeds.
pub proof fn lemma_confirmation_ends_wait(
    change: Reconfiguration,
    reported: Setting,
    now_ns: u64,
    removal_status: crate::error::OSStatus,
)
    requires
        change.phase is Waiting,
        change.target.confirmed_by(reported),
    ensures
        change.after(Reply::Received { delivered: Some(reported), now_ns }).pending() == Step::Ask(
            Request::RemoveListener { binding: change.binding() },
        ),
        change.after(Reply::Received { delivered: Some(reported), now_ns }).after(
            Reply::ListenerRemoved { status: removal_status },
        ).pending() == Step::Done(Ok(())),
{
}

/// When the driver honours the timeout of each attempt, the attempt that
/// ends the wait is over no later than one timeout after the deadline: if the
/// attempt before it ended within the deadline and this one took no longer
/// than its timeout, the time it reports is within deadline plus timeout.
pub proof fn lemma_wait_is_bounded(started_ns: u64, previous_ns: u64, now_ns: u64)
    requires
        started_ns <= previous_ns <= now_ns,
        elapsed_ns(started_ns, previous_ns) <= DEADLINE_NS,
        now_ns - previous_ns <= ATTEMPT_TIMEOUT_NS,
    ensures
        elapsed_ns(started_ns, now_ns) <= DEADLINE_NS + ATTEMPT_TIMEOUT_NS,
{
}

/// The number of calls that a change in this phase can still ask for, the
/// attempts to receive aside.
pub open spec fn calls_ahead(phase: Phase) -> nat {
    match phase {
        Phase::ReadingCurrent => 7,
        Phase::SizingRanges => 6,
        Phase::ReadingRanges { .. } => 5,
        Phase::AddingListener { .. } => 4,
        Phase::Writing { .. } => 3,
        Phase::Waiting { .. } => 2,
        Phase::RemovingListener { .. } => 1,
        Phase::Finished { .. } => 0,
    }
}

/// Every answer brings a change nearer to its end, but for the attempts to
/// receive that neither confirm nor pass the deadline: the wait is the only
/// place where a change can stay, and there it stays as it is.
pub proof fn lemma_every_answer_advances(change: Reconfiguration, reply: Reply)
    requires
        change.expects(reply),
    ensures
        calls_ahead(change.after(reply).phase) < calls_ahead(change.phase) || (change.phase
            is Waiting && change.after(reply) == change),
        change.after(reply).device_id == change.device_id,
        change.after(reply).target == change.target,
{
}

/// Whatever the platform answers, and however many answers it gives, the
/// calls of a change stay accounted for.
pub proof fn lemma_calls_are_accounted(
    device_id: AudioDeviceID,
    target: Setting,
    replies: Seq<Reply>,
)
    ensures
        Reconfiguration::start(device_id, target).accounted(replies),
    decreases replies.len(),
{
    let change = Reconfiguration::start(device_id, target);
    if replies.len() == 0 {
        let asked = change.asked(replies);
        assert(asked.drop_last() == Seq::<Request>::empty());
        assert(touches(asked.drop_last(), Touch::AddListener) == 0);
        assert(touches(asked.drop_last(), Touch::Write) == 0);
        assert(touches(asked.drop_last(), Touch::RemoveListener) == 0);
    } else {
        let earlier = replies.drop_last();
        let reply = replies.last();
        lemma_calls_are_accounted(device_id, target, earlier);
        let before = change.run(earlier);
        let so_far = change.asked(earlier);
        let end = before.after(reply);
        assert(change.run(replies) == end);
        if before.expects(reply) {
            match end.pending() {
                Step::Ask(request) => {
                    assert(change.asked(replies) == so_far.push(request));
                    lemma_touches_push(so_far, request, Touch::AddListener);
                    lemma_touches_push(so_far, request, Touch::Write);
                    lemma_touches_push(so_far, request, Touch::RemoveListener);
                },
                Step::Done(_) => {
                    assert(change.asked(replies) == so_far);
                },
            }
        } else {
            assert(change.asked(replies) == so_far);
            assert(end == before);
        }
    }
}

/// The listener is removed exactly as often as it was registered, on every
/// way through the protocol: a change that has ended, with success or with
/// any failure, has asked for one removal if the platform accepted its
/// registration and for none if there was no registration. No change
/// registers twice, and while no registration was accepted nothing is
/// written.
pub proof fn lemma_listener_is_removed_once(
    device_id: AudioDeviceID,
    target: Setting,
    replies: Seq<Reply>,
)
    ensures
        ({
            let change = Reconfiguration::start(device_id, target);
            let asked = change.asked(replies);
            &&& touches(asked, Touch::AddListener) <= 1
            &&& change.registrations(replies) <= touches(asked, Touch::AddListener)
            &&& touches(asked, Touch::Write) <= change.registrations(replies)
            &&& touches(asked, Touch::RemoveListener) <= change.registrations(replies)
            &&& change.run(replies).pending() is Done ==> touches(asked, Touch::RemoveListener)
                == change.registrations(replies)
            &&& change.run(replies).pending() is Done ==> !change.run(replies).listening()
        }),
{
    lemma_calls_are_accounted(device_id, target, replies);
}

} // verus!
