//! Change listeners: objects that the platform notifies when the sample rate
//! of a device changes.
//!
//! A listener is either registered with the platform or not. While it is
//! registered the platform invokes it, on a thread of its own, whenever the
//! property changes; the driver re-reads the property and hands the value to
//! `notify`, which either asks for it to be sent on to the one waiting
//! receiver or appends it to the queue of the listener.
//!
//! The platform calls themselves are the driver's: `register` and `unregister`
//! take the status that the platform returned. The driver owns the guard that
//! unregisters a listener which goes out of scope while registered; `removal`
//! tells it whether there is anything to remove.

use crate::address::{AudioDeviceID, PropertyAddress, Selector};
use crate::error::{Error, OSStatus, NO_ERROR};
use crate::rate::SampleRate;
use std::collections::VecDeque;
use vstd::prelude::*;

verus! {

/// The device and property that a listener is bound to: what the platform is
/// given when the listener is added or removed.
#[derive(Clone, Copy, Debug, PartialEq, Eq, Structural)]
pub struct Binding {
    pub device_id: AudioDeviceID,
    pub property_address: PropertyAddress,
}

/// The abstract state of a listener.
pub struct ListenerState {
    /// The values received and not yet drained, oldest first.
    pub values: Seq<SampleRate>,
    /// Whether received values are sent on to a waiting receiver and not
    /// kept.
    pub forwards: bool,
    /// What the listener is bound to.
    pub binding: Binding,
    /// Whether the platform currently holds the registration.
    pub registered: bool,
}

impl ListenerState {
    /// A listener that was just made: nothing received, not registered.
    pub open spec fn fresh(binding: Binding, forwards: bool) -> ListenerState {
        ListenerState { values: Seq::empty(), forwards, binding, registered: false }
    }

    /// The state after the platform answered a registration with `status`.
    pub open spec fn after_register(self, status: OSStatus) -> ListenerState {
        if status == NO_ERROR {
            ListenerState { registered: true, ..self }
        } else {
            self
        }
    }

    /// The removal that unregistering needs from the platform: none when
    /// nothing is registered.
    pub open spec fn removal(self) -> Option<Binding> {
        if self.registered {
            Some(self.binding)
        } else {
            None
        }
    }

    /// What unregistering returns when the platform answered the removal
    /// with `status`. Where nothing was registered no removal is made and the
    /// status does not count.
    pub open spec fn unregister_result(self, status: OSStatus) -> Result<(), Error> {
        if self.registered && status != NO_ERROR {
            Err(Error::Unknown(status))
        } else {
            Ok(())
        }
    }

    /// The state after unregistering. A failed removal leaves the listener
    /// registered, so that it can be tried again.
    pub open spec fn after_unregister(self, status: OSStatus) -> ListenerState {
        if self.registered && status == NO_ERROR {
            ListenerState { registered: false, ..self }
        } else {
            self
        }
    }

    /// The value to send on after a notification, if the listener forwards.
    pub open spec fn forwarded(self, rate: SampleRate) -> Option<SampleRate> {
        if self.forwards {
            Some(rate)
        } else {
            None
        }
    }

    /// The state after a notification that found the property at `rate`.
    pub open spec fn after_notify(self, rate: SampleRate) -> ListenerState {
        if self.forwards {
            self
        } else {
            ListenerState { values: self.values.push(rate), ..self }
        }
    }

    /// The state after one notification for each of `rates`, in order.
    pub open spec fn after_notifications(self, rates: Seq<SampleRate>) -> ListenerState
        decreases rates.len(),
    {
        if rates.len() == 0 {
            self
        } else {
            self.after_notifications(rates.drop_last()).after_notify(rates.last())
        }
    }

    /// The state after the queue was drained.
    pub open spec fn drained(self) -> ListenerState {
        ListenerState { values: Seq::empty(), ..self }
    }
}

/// A listener for changes of the sample rate of one device.
pub struct RateListener {
    /// The values received while no receiver was supplied, oldest first.
    pub queue: VecDeque<SampleRate>,
    sync_channel: bool,
    device_id: AudioDeviceID,
    property_address: PropertyAddress,
    registered: bool,
}

impl View for RateListener {
    type V = ListenerState;

    closed spec fn view(&self) -> ListenerState {
        ListenerState {
            values: self.queue@,
            forwards: self.sync_channel,
            binding: Binding {
                device_id: self.device_id,
                property_address: self.property_address,
            },
            registered: self.registered,
        }
    }
}

impl RateListener {
    /// The address that rate listeners are bound to.
    pub open spec fn rate_address() -> PropertyAddress {
        PropertyAddress::global(Selector::NominalSampleRate)
    }

    /// Makes a listener for the nominal sample rate of `device_id`. It is not
    /// registered and the platform is not touched. With `sync_channel` the
    /// listener forwards what it receives to a waiting receiver; without, it
    /// keeps the values in its queue until they are polled.
    pub fn new(device_id: AudioDeviceID, sync_channel: bool) -> (made: Result<RateListener, Error>)
        ensures
            made matches Ok(listener) && listener@ == ListenerState::fresh(
                Binding { device_id, property_address: Self::rate_address() },
                sync_channel,
            ),
    {
        Ok(
            RateListener::for_property(
                Binding {
                    device_id,
                    property_address: PropertyAddress::new_global(Selector::NominalSampleRate),
                },
                sync_channel,
            ),
        )
    }

    /// Makes a listener for the property that `binding` names. It is not
    /// registered and the platform is not touched.
    pub fn for_property(binding: Binding, sync_channel: bool) -> (listener: RateListener)
        ensures
            listener@ == ListenerState::fresh(binding, sync_channel),
    {
        RateListener {
            queue: VecDeque::new(),
            sync_channel,
            device_id: binding.device_id,
            property_address: binding.property_address,
            registered: false,
        }
    }

    /// What the listener is bound to: the arguments of the platform call that
    /// adds it.
    pub fn binding(&self) -> (binding: Binding)
        ensures
            binding == self@.binding,
    {
        Binding { device_id: self.device_id, property_address: self.property_address }
    }

    /// Whether the platform holds the registration.
    pub fn is_registered(&self) -> (registered: bool)
        ensures
            registered == self@.registered,
    {
        self.registered
    }

    /// Whether received values are forwarded to a waiting receiver.
    pub fn has_sync_channel(&self) -> (forwards: bool)
        ensures
            forwards == self@.forwards,
    {
        self.sync_channel
    }

    /// Records the answer of the platform to the call that adds the listener.
    /// On success the listener is registered; on any other status it stays
    /// unregistered and the status is returned as the error.
    ///
    /// The listener must not be registered already: the platform would hold a
    /// second registration that one removal does not take away.
    pub fn register(&mut self, status: OSStatus) -> (result: Result<(), Error>)
        requires
            !old(self)@.registered,
        ensures
            result == crate::error::status_result(status),
            final(self)@ == old(self)@.after_register(status),
    {
        match Error::from_os_status(status) {
            Ok(()) => {
                self.registered = true;
                Ok(())
            },
            Err(e) => Err(e),
        }
    }

    /// The removal that the platform must be asked for before `unregister`:
    /// the binding while the listener is registered, nothing otherwise.
    pub fn removal(&self) -> (call: Option<Binding>)
        ensures
            call == self@.removal(),
    {
        if self.registered {
            Some(self.binding())
        } else {
            None
        }
    }

    /// Records the answer of the platform to the removal of the listener.
    /// Where nothing is registered nothing changes and the result is success,
    /// whatever `status` holds. Otherwise success unregisters the listener,
    /// and any other status is returned as the error and leaves it
    /// registered.
    pub fn unregister(&mut self, status: OSStatus) -> (result: Result<(), Error>)
        ensures
            result == old(self)@.unregister_result(status),
            final(self)@ == old(self)@.after_unregister(status),
    {
        if self.registered {
            match Error::from_os_status(status) {
                Ok(()) => {
                    self.registered = false;
                },
                Err(e) => {
                    return Err(e);
                },
            }
        }
        Ok(())
    }

    /// Unregisters as `unregister` does and drops the error: the form for the
    /// end of the listener's life, where a failure has nowhere to go.
    pub fn release(&mut self, status: OSStatus)
        ensures
            final(self)@ == old(self)@.after_unregister(status),
    {
        let _ = self.unregister(status);
    }

    /// Takes the value that the property was found at after a change. A
    /// forwarding listener hands it back to be sent to the receiver and keeps
    /// nothing; any other appends it to its queue.
    pub fn notify(&mut self, rate: SampleRate) -> (send: Option<SampleRate>)
        ensures
            send == old(self)@.forwarded(rate),
            final(self)@ == old(self)@.after_notify(rate),
    {
        if self.sync_channel {
            Some(rate)
        } else {
            self.queue.push_back(rate);
            None
        }
    }

    /// The number of values in the queue.
    pub fn get_nbr_values(&self) -> (count: usize)
        ensures
            count == self@.values.len(),
    {
        proof {
            vstd::std_specs::vecdeque::axiom_spec_len(&self.queue);
        }
        self.queue.len()
    }

    /// A copy of the queued values, oldest first. The queue is kept.
    pub fn copy_values(&self) -> (values: Vec<SampleRate>)
        ensures
            values@ == self@.values,
    {
        proof {
            vstd::std_specs::vecdeque::axiom_spec_len(&self.queue);
        }
        let count: usize = self.queue.len();
        let mut values: Vec<SampleRate> = Vec::new();
        let mut i: usize = 0;
        while i < count
            invariant
                count == self.queue@.len(),
                i <= count,
                values@ == self.queue@.take(i as int),
            decreases count - i,
        {
            values.push(self.queue[i]);
            proof {
                assert(self.queue@.take(i + 1) == self.queue@.take(i as int).push(
                    self.queue@[i as int],
                ));
            }
            i = i + 1;
        }
        proof {
            assert(self.queue@.take(count as int) == self.queue@);
        }
        values
    }

    /// The queued values, oldest first. The queue is left empty.
    pub fn drain_values(&mut self) -> (values: Vec<SampleRate>)
        ensures
            values@ == old(self)@.values,
            final(self)@ == old(self)@.drained(),
    {
        let values: Vec<SampleRate> = self.copy_values();
        self.queue.clear();
        values
    }
}

/// A queueing listener keeps every notification, in the order of arrival,
/// behind what it held before; nothing else about it changes.
pub proof fn lemma_notifications_are_queued_in_order(
    listener: ListenerState,
    rates: Seq<SampleRate>,
)
    requires
        !listener.forwards,
    ensures
        listener.after_notifications(rates) == (ListenerState {
            values: listener.values + rates,
            ..listener
        }),
    decreases rates.len(),
{
    if rates.len() == 0 {
        assert(listener.values + rates == listener.values);
    } else {
        lemma_notifications_are_queued_in_order(listener, rates.drop_last());
        assert((listener.values + rates.drop_last()).push(rates.last()) == listener.values
            + rates);
    }
}

/// After any number of notifications to a fresh queueing listener, copying
/// shows all of them in the order of arrival and keeps them, while draining
/// leaves none.
pub proof fn lemma_copy_keeps_and_drain_empties(
    binding: Binding,
    rates: Seq<SampleRate>,
)
    ensures
        ListenerState::fresh(binding, false).after_notifications(rates).values == rates,
        ListenerState::fresh(binding, false).after_notifications(rates).drained().values.len()
            == 0,
{
    let fresh = ListenerState::fresh(binding, false);
    lemma_notifications_are_queued_in_order(fresh, rates);
    assert(fresh.values + rates == rates);
}

/// A forwarding listener keeps nothing: every notification is handed on and
/// the queue stays as it was.
pub proof fn lemma_forwarding_keeps_nothing(listener: ListenerState, rates: Seq<SampleRate>)
    requires
        listener.forwards,
    ensures
        listener.after_notifications(rates) == listener,
    decreases rates.len(),
{
    if rates.len() > 0 {
        lemma_forwarding_keeps_nothing(listener, rates.drop_last());
    }
}

/// A listener that was made, registered and then released needs exactly one
/// removal: while registered it names its binding as the removal to make, and
/// once the removal succeeded it names none, however often it is released
/// after that.
pub proof fn lemma_release_removes_once(
    binding: Binding,
    forwards: bool,
    later_status: OSStatus,
)
    ensures
        ListenerState::fresh(binding, forwards).removal() is None,
        ListenerState::fresh(binding, forwards).after_register(NO_ERROR).removal() == Some(
            binding,
        ),
        ListenerState::fresh(binding, forwards).after_register(NO_ERROR).after_unregister(
            NO_ERROR,
        ).removal() is None,
        ListenerState::fresh(binding, forwards).after_register(NO_ERROR).after_unregister(
            NO_ERROR,
        ).after_unregister(later_status) == ListenerState::fresh(binding, forwards),
{
}

/// Unregistering is safe to repeat: on a listener that is not registered it
/// succeeds and changes nothing, and a failed removal leaves the listener as
/// it was, to be tried again.
pub proof fn lemma_unregister_is_repeatable(listener: ListenerState, status: OSStatus)
    ensures
        !listener.registered ==> listener.after_unregister(status) == listener
            && listener.unregister_result(status) is Ok,
        status != NO_ERROR ==> listener.after_unregister(status) == listener,
        !listener.after_unregister(NO_ERROR).registered,
{
}

} // verus!
