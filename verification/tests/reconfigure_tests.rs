use audio_device::address::{AudioObject, Element, PropertyAddress, Scope, Selector};
use audio_device::error::{Error, NO_ERROR};
use audio_device::format::StreamFormat;
use audio_device::listener::Binding;
use audio_device::platform::{Reply, Request, Setting};
use audio_device::rate::SampleRate;
use audio_device::reconfigure::{
    await_confirmation, choose_range, replay, set_device_sample_format, set_device_sample_rate,
    Phase, Reconfiguration, Step, ATTEMPT_TIMEOUT_NS, DEADLINE_NS,
};

fn rate(hz: f64) -> SampleRate {
    SampleRate::from_bits(hz.to_bits())
}

fn format(hz: f64, channels: u32) -> StreamFormat {
    StreamFormat {
        sample_rate: rate(hz),
        format_id: 0x6c70_636d,
        format_flags: 9,
        bytes_per_packet: 4 * channels,
        frames_per_packet: 1,
        bytes_per_frame: 4 * channels,
        channels_per_frame: channels,
        bits_per_channel: 32,
    }
}

fn global(selector: Selector) -> PropertyAddress {
    PropertyAddress { selector, scope: Scope::Global, element: Element::Output }
}

fn range_bytes(ranges: &[(f64, f64)]) -> Vec<u8> {
    let mut data: Vec<u8> = Vec::new();
    for (min, max) in ranges.iter() {
        data.extend_from_slice(&min.to_le_bytes());
        data.extend_from_slice(&max.to_le_bytes());
    }
    data
}

/// A simulated device. It answers every call at once, except that an attempt
/// to receive takes its whole timeout unless a notification is due.
struct FakeDevice {
    current: Setting,
    ranges: Vec<(f64, f64)>,
    /// The notifications that arrive, one per attempt to receive; `None` is
    /// an attempt that times out. When they are used up nothing arrives.
    notifications: Vec<Option<Setting>>,
    clock_ns: u64,
    read_status: i32,
    size_status: i32,
    list_status: i32,
    add_status: i32,
    write_status: i32,
    remove_status: i32,
    log: Vec<Request>,
    registered: i64,
    written: Vec<Setting>,
}

impl FakeDevice {
    fn new(current: Setting) -> FakeDevice {
        FakeDevice {
            current,
            ranges: vec![(44100.0, 44100.0), (48000.0, 48000.0), (88200.0, 96000.0)],
            notifications: Vec::new(),
            clock_ns: 5_000_000_000,
            read_status: NO_ERROR,
            size_status: NO_ERROR,
            list_status: NO_ERROR,
            add_status: NO_ERROR,
            write_status: NO_ERROR,
            remove_status: NO_ERROR,
            log: Vec::new(),
            registered: 0,
            written: Vec::new(),
        }
    }

    fn perform(&mut self, request: Request) -> Reply {
        self.log.push(request);
        match request {
            Request::Read { .. } => Reply::Value { status: self.read_status, value: self.current },
            Request::ReadSize { .. } => {
                Reply::Size { status: self.size_status, bytes: 16 * self.ranges.len() as u32 }
            }
            Request::ReadList { bytes, .. } => {
                let data = range_bytes(&self.ranges);
                assert_eq!(data.len(), bytes as usize);
                Reply::List { status: self.list_status, data }
            }
            Request::AddListener { .. } => {
                if self.add_status == NO_ERROR {
                    self.registered += 1;
                }
                Reply::ListenerAdded { status: self.add_status }
            }
            Request::Write { value, .. } => {
                self.clock_ns += 1_000;
                if self.write_status == NO_ERROR {
                    self.written.push(value);
                }
                Reply::Written { status: self.write_status, now_ns: self.clock_ns }
            }
            Request::Receive { timeout_ns } => {
                let delivered =
                    if self.notifications.is_empty() { None } else { self.notifications.remove(0) };
                self.clock_ns += if delivered.is_some() { 2_000_000 } else { timeout_ns };
                Reply::Received { delivered, now_ns: self.clock_ns }
            }
            Request::RemoveListener { .. } => {
                self.registered -= 1;
                Reply::ListenerRemoved { status: self.remove_status }
            }
        }
    }

    fn run(&mut self, mut change: Reconfiguration) -> Result<(), Error> {
        let mut step = change.current();
        let mut calls: usize = 0;
        loop {
            match step {
                Step::Done(result) => return result,
                Step::Ask(request) => {
                    calls += 1;
                    assert!(calls < 1000, "the change does not end");
                    let reply = self.perform(request);
                    assert!(change.accepts(&reply));
                    step = change.step(&reply);
                }
            }
        }
    }

    fn count(&self, wanted: fn(&Request) -> bool) -> usize {
        self.log.iter().filter(|r| wanted(r)).count()
    }

    fn adds(&self) -> usize {
        self.count(|r| matches!(r, Request::AddListener { .. }))
    }

    fn writes(&self) -> usize {
        self.count(|r| matches!(r, Request::Write { .. }))
    }

    fn removes(&self) -> usize {
        self.count(|r| matches!(r, Request::RemoveListener { .. }))
    }

    fn receives(&self) -> usize {
        self.count(|r| matches!(r, Request::Receive { .. }))
    }
}

#[test]
fn protocol_constants() {
    assert_eq!(ATTEMPT_TIMEOUT_NS, 100_000_000);
    assert_eq!(DEADLINE_NS, 1_000_000_000);
}

#[test]
fn rate_change_starts_by_reading_the_current_rate() {
    let change = set_device_sample_rate(4, rate(48000.0));
    assert_eq!(change, Reconfiguration::begin(4, Setting::Rate(rate(48000.0))));
    assert_eq!(change.phase, Phase::ReadingCurrent);
    assert!(!change.is_finished());
    assert!(!change.is_listening());
    assert_eq!(
        change.current(),
        Step::Ask(Request::Read {
            object: AudioObject::Device(4),
            address: global(Selector::NominalSampleRate),
        })
    );
}

#[test]
fn format_change_starts_by_reading_the_current_format() {
    let change = set_device_sample_format(4, format(48000.0, 2));
    assert_eq!(
        change.current(),
        Step::Ask(Request::Read {
            object: AudioObject::Device(4),
            address: global(Selector::PhysicalFormat),
        })
    );
}

#[test]
fn setting_addresses() {
    assert_eq!(Setting::Rate(rate(1.0)).property_address(), global(Selector::NominalSampleRate));
    assert_eq!(
        Setting::Format(format(1.0, 1)).property_address(),
        global(Selector::PhysicalFormat)
    );
}

#[test]
fn rate_that_is_current_needs_no_change() {
    let mut device = FakeDevice::new(Setting::Rate(rate(48000.3)));
    assert_eq!(device.run(set_device_sample_rate(4, rate(48000.0))), Ok(()));
    assert_eq!(
        device.log,
        vec![Request::Read {
            object: AudioObject::Device(4),
            address: global(Selector::NominalSampleRate),
        }]
    );
    assert_eq!(device.adds(), 0);
    assert_eq!(device.writes(), 0);
}

#[test]
fn format_that_is_current_needs_no_change() {
    let mut device = FakeDevice::new(Setting::Format(format(44100.2, 2)));
    assert_eq!(device.run(set_device_sample_format(4, format(44100.0, 2))), Ok(()));
    assert_eq!(device.log.len(), 1);
    assert_eq!(device.adds(), 0);
    assert_eq!(device.writes(), 0);
}

#[test]
fn unsupported_rate_is_refused_before_anything_changes() {
    let mut device = FakeDevice::new(Setting::Rate(rate(44100.0)));
    assert_eq!(
        device.run(set_device_sample_rate(4, rate(32000.0))),
        Err(Error::UnsupportedSampleRate)
    );
    assert_eq!(
        device.log,
        vec![
            Request::Read {
                object: AudioObject::Device(4),
                address: global(Selector::NominalSampleRate),
            },
            Request::ReadSize {
                object: AudioObject::Device(4),
                address: global(Selector::AvailableNominalSampleRates),
            },
            Request::ReadList {
                object: AudioObject::Device(4),
                address: global(Selector::AvailableNominalSampleRates),
                bytes: 48,
            },
        ]
    );
    assert_eq!(device.adds(), 0);
    assert_eq!(device.writes(), 0);
    assert_eq!(device.removes(), 0);
}

#[test]
fn rate_inside_a_continuous_range_is_refused() {
    let mut device = FakeDevice::new(Setting::Rate(rate(44100.0)));
    assert_eq!(
        device.run(set_device_sample_rate(4, rate(90000.0))),
        Err(Error::UnsupportedSampleRate)
    );
    assert_eq!(
        device.run(set_device_sample_rate(4, rate(88200.0))),
        Err(Error::UnsupportedSampleRate)
    );
    assert_eq!(device.writes(), 0);
}

#[test]
fn rate_change_is_confirmed() {
    let mut device = FakeDevice::new(Setting::Rate(rate(44100.0)));
    device.notifications = vec![Some(Setting::Rate(rate(48000.0)))];
    assert_eq!(device.run(set_device_sample_rate(4, rate(48000.0))), Ok(()));
    let binding =
        Binding { device_id: 4, property_address: global(Selector::NominalSampleRate) };
    assert_eq!(
        device.log[3..],
        [
            Request::AddListener { binding },
            Request::Write {
                object: AudioObject::Device(4),
                address: global(Selector::NominalSampleRate),
                value: Setting::Rate(rate(48000.0)),
            },
            Request::Receive { timeout_ns: ATTEMPT_TIMEOUT_NS },
            Request::RemoveListener { binding },
        ]
    );
    assert_eq!(device.registered, 0);
}

#[test]
fn rate_change_writes_the_rate_as_the_device_spells_it() {
    let mut device = FakeDevice::new(Setting::Rate(rate(44100.0)));
    device.ranges = vec![(44100.0, 44100.0), (48000.25, 48000.75)];
    device.notifications = vec![Some(Setting::Rate(rate(48000.25)))];
    assert_eq!(device.run(set_device_sample_rate(4, rate(48000.0))), Ok(()));
    assert_eq!(device.written, vec![Setting::Rate(rate(48000.25))]);
}

#[test]
fn rate_change_passes_over_notifications_that_do_not_confirm() {
    let mut device = FakeDevice::new(Setting::Rate(rate(44100.0)));
    device.notifications = vec![
        Some(Setting::Rate(rate(44100.0))),
        None,
        Some(Setting::Format(format(48000.0, 2))),
        Some(Setting::Rate(rate(47999.9))),
        Some(Setting::Rate(rate(48000.9))),
    ];
    assert_eq!(device.run(set_device_sample_rate(4, rate(48000.0))), Ok(()));
    assert_eq!(device.receives(), 5);
    assert_eq!(device.removes(), 1);
}

#[test]
fn rate_change_times_out_when_nothing_confirms() {
    let mut device = FakeDevice::new(Setting::Rate(rate(44100.0)));
    let before = device.clock_ns;
    assert_eq!(
        device.run(set_device_sample_rate(4, rate(48000.0))),
        Err(Error::UnsupportedSampleRate)
    );
    // Ten attempts end at or before the deadline; the eleventh ends after it.
    assert_eq!(device.receives(), 11);
    let waited = device.clock_ns - before - 1_000;
    assert_eq!(waited, DEADLINE_NS + ATTEMPT_TIMEOUT_NS);
    assert_eq!(device.adds(), 1);
    assert_eq!(device.writes(), 1);
    assert_eq!(device.removes(), 1);
    assert_eq!(device.registered, 0);
}

#[test]
fn rate_change_times_out_among_notifications_that_do_not_confirm() {
    let mut device = FakeDevice::new(Setting::Rate(rate(44100.0)));
    device.notifications = vec![Some(Setting::Rate(rate(44100.0))); 600];
    assert_eq!(
        device.run(set_device_sample_rate(4, rate(48000.0))),
        Err(Error::UnsupportedSampleRate)
    );
    // Each notification comes after 2 ms: the first attempt past one second is the 501st.
    assert_eq!(device.receives(), 501);
    assert_eq!(device.removes(), 1);
}

#[test]
fn confirmation_counts_even_after_the_deadline() {
    let mut device = FakeDevice::new(Setting::Rate(rate(44100.0)));
    let mut change = set_device_sample_rate(4, rate(48000.0));
    change.phase = Phase::Waiting { started_ns: 10 };
    let late = Reply::Received {
        delivered: Some(Setting::Rate(rate(48000.0))),
        now_ns: 10 + 5 * DEADLINE_NS,
    };
    assert!(matches!(change.step(&late), Step::Ask(Request::RemoveListener { .. })));
    assert_eq!(device.run(change), Ok(()));
}

#[test]
fn deadline_is_strict() {
    let target = Setting::Rate(rate(48000.0));
    assert_eq!(
        await_confirmation(&target, 1_000, &None, 1_000 + DEADLINE_NS),
        Phase::Waiting { started_ns: 1_000 }
    );
    assert_eq!(
        await_confirmation(&target, 1_000, &None, 1_001 + DEADLINE_NS),
        Phase::RemovingListener { outcome: Err(Error::UnsupportedSampleRate) }
    );
    assert_eq!(
        await_confirmation(&target, 1_000, &Some(Setting::Rate(rate(48000.5))), 1_001 + DEADLINE_NS),
        Phase::RemovingListener { outcome: Ok(()) }
    );
}

#[test]
fn clock_that_reads_less_than_at_the_start_counts_as_no_time() {
    let target = Setting::Rate(rate(48000.0));
    assert_eq!(
        await_confirmation(&target, u64::MAX, &None, 0),
        Phase::Waiting { started_ns: u64::MAX }
    );
}

#[test]
fn confirmation_of_a_rate_is_compared_at_64_bits() {
    let target = Setting::Rate(rate(5.0e9));
    assert_eq!(
        await_confirmation(&target, 0, &Some(Setting::Rate(rate(6.0e9))), 1),
        Phase::Waiting { started_ns: 0 }
    );
    assert_eq!(
        await_confirmation(&target, 0, &Some(Setting::Rate(rate(5.0e9))), 1),
        Phase::RemovingListener { outcome: Ok(()) }
    );
    assert!(target.is_already_set(&Setting::Rate(rate(6.0e9))));
    assert!(!target.is_confirmed_by(&Setting::Rate(rate(6.0e9))));
}

#[test]
fn choose_range_decides_from_the_buffer() {
    let data = range_bytes(&[(44100.0, 44100.0), (48000.5, 48000.5)]);
    assert_eq!(
        choose_range(&data, &rate(48000.0)),
        Phase::AddingListener { value: Setting::Rate(rate(48000.5)) }
    );
    assert_eq!(
        choose_range(&data, &rate(96000.0)),
        Phase::Finished { outcome: Err(Error::UnsupportedSampleRate) }
    );
    assert_eq!(
        choose_range(&[], &rate(44100.0)),
        Phase::Finished { outcome: Err(Error::UnsupportedSampleRate) }
    );
}

#[test]
fn format_change_is_confirmed() {
    let mut device = FakeDevice::new(Setting::Format(format(44100.0, 2)));
    device.notifications = vec![None, Some(Setting::Format(format(96000.1, 2)))];
    assert_eq!(device.run(set_device_sample_format(4, format(96000.0, 2))), Ok(()));
    let binding = Binding { device_id: 4, property_address: global(Selector::PhysicalFormat) };
    assert_eq!(
        device.log,
        vec![
            Request::Read {
                object: AudioObject::Device(4),
                address: global(Selector::PhysicalFormat),
            },
            Request::AddListener { binding },
            Request::Write {
                object: AudioObject::Device(4),
                address: global(Selector::PhysicalFormat),
                value: Setting::Format(format(96000.0, 2)),
            },
            Request::Receive { timeout_ns: ATTEMPT_TIMEOUT_NS },
            Request::Receive { timeout_ns: ATTEMPT_TIMEOUT_NS },
            Request::RemoveListener { binding },
        ]
    );
}

#[test]
fn format_change_times_out_when_the_layout_never_matches() {
    let mut device = FakeDevice::new(Setting::Format(format(44100.0, 2)));
    device.notifications = vec![Some(Setting::Format(format(96000.0, 1))); 3];
    assert_eq!(
        device.run(set_device_sample_format(4, format(96000.0, 2))),
        Err(Error::UnsupportedSampleRate)
    );
    assert_eq!(device.removes(), 1);
    assert_eq!(device.registered, 0);
}

#[test]
fn failed_read_ends_the_change() {
    let mut device = FakeDevice::new(Setting::Rate(rate(44100.0)));
    device.read_status = -11;
    assert_eq!(device.run(set_device_sample_rate(4, rate(48000.0))), Err(Error::Unknown(-11)));
    assert_eq!(device.log.len(), 1);
}

#[test]
fn failed_size_query_ends_the_change() {
    let mut device = FakeDevice::new(Setting::Rate(rate(44100.0)));
    device.size_status = -12;
    assert_eq!(device.run(set_device_sample_rate(4, rate(48000.0))), Err(Error::Unknown(-12)));
    assert_eq!(device.log.len(), 2);
}

#[test]
fn failed_read_of_the_ranges_ends_the_change() {
    let mut device = FakeDevice::new(Setting::Rate(rate(44100.0)));
    device.list_status = -13;
    assert_eq!(device.run(set_device_sample_rate(4, rate(48000.0))), Err(Error::Unknown(-13)));
    assert_eq!(device.log.len(), 3);
    assert_eq!(device.adds(), 0);
}

#[test]
fn refused_listener_ends_the_change_without_a_removal() {
    let mut device = FakeDevice::new(Setting::Rate(rate(44100.0)));
    device.add_status = -14;
    assert_eq!(device.run(set_device_sample_rate(4, rate(48000.0))), Err(Error::Unknown(-14)));
    assert_eq!(device.adds(), 1);
    assert_eq!(device.writes(), 0);
    assert_eq!(device.removes(), 0);
    assert_eq!(device.registered, 0);
}

#[test]
fn refused_write_removes_the_listener_and_fails() {
    let mut device = FakeDevice::new(Setting::Rate(rate(44100.0)));
    device.write_status = -15;
    assert_eq!(device.run(set_device_sample_rate(4, rate(48000.0))), Err(Error::Unknown(-15)));
    assert_eq!(device.receives(), 0);
    assert_eq!(device.removes(), 1);
    assert_eq!(device.registered, 0);
}

#[test]
fn failed_removal_does_not_change_the_result() {
    let mut device = FakeDevice::new(Setting::Rate(rate(44100.0)));
    device.remove_status = -16;
    device.notifications = vec![Some(Setting::Rate(rate(48000.0)))];
    assert_eq!(device.run(set_device_sample_rate(4, rate(48000.0))), Ok(()));

    let mut device = FakeDevice::new(Setting::Rate(rate(44100.0)));
    device.remove_status = -16;
    assert_eq!(
        device.run(set_device_sample_rate(4, rate(48000.0))),
        Err(Error::UnsupportedSampleRate)
    );
}

#[test]
fn listener_is_removed_as_often_as_it_was_added() {
    let statuses: [i32; 2] = [NO_ERROR, -1];
    for read in statuses {
        for add in statuses {
            for write in statuses {
                for confirm in [false, true] {
                    let mut device = FakeDevice::new(Setting::Rate(rate(44100.0)));
                    device.read_status = read;
                    device.add_status = add;
                    device.write_status = write;
                    if confirm {
                        device.notifications = vec![Some(Setting::Rate(rate(48000.0)))];
                    }
                    let _ = device.run(set_device_sample_rate(4, rate(48000.0)));
                    assert_eq!(device.registered, 0);
                    assert!(device.adds() <= 1);
                    let accepted = if device.adds() == 1 && add == NO_ERROR { 1 } else { 0 };
                    assert_eq!(device.removes(), accepted);
                    assert!(device.writes() <= accepted);
                }
            }
        }
    }
}

#[test]
fn reply_that_was_not_asked_for_changes_nothing() {
    let mut change = set_device_sample_rate(4, rate(48000.0));
    let before = change;
    let stray = Reply::ListenerRemoved { status: NO_ERROR };
    assert!(!change.accepts(&stray));
    assert_eq!(change.step(&stray), before.current());
    assert_eq!(change, before);
    let stray = Reply::Received { delivered: Some(Setting::Rate(rate(48000.0))), now_ns: 0 };
    assert_eq!(change.step(&stray), before.current());
    assert_eq!(change, before);
}

#[test]
fn finished_change_stays_finished() {
    let mut change = set_device_sample_rate(4, rate(48000.0));
    let done = change.step(&Reply::Value { status: NO_ERROR, value: Setting::Rate(rate(48000.0)) });
    assert_eq!(done, Step::Done(Ok(())));
    assert!(change.is_finished());
    let again = change.step(&Reply::Value { status: -1, value: Setting::Rate(rate(1.0)) });
    assert_eq!(again, Step::Done(Ok(())));
}

#[test]
fn listening_spans_write_wait_and_removal() {
    let mut change = set_device_sample_format(4, format(96000.0, 2));
    change.step(&Reply::Value { status: NO_ERROR, value: Setting::Format(format(44100.0, 2)) });
    assert!(!change.is_listening());
    change.step(&Reply::ListenerAdded { status: NO_ERROR });
    assert!(change.is_listening());
    change.step(&Reply::Written { status: NO_ERROR, now_ns: 77 });
    assert_eq!(change.phase, Phase::Waiting { started_ns: 77 });
    assert!(change.is_listening());
    change.step(&Reply::Received { delivered: Some(Setting::Format(format(96000.0, 2))), now_ns: 78 });
    assert!(change.is_listening());
    assert_eq!(
        change.listener_binding(),
        Binding { device_id: 4, property_address: global(Selector::PhysicalFormat) }
    );
    change.step(&Reply::ListenerRemoved { status: NO_ERROR });
    assert!(!change.is_listening());
    assert_eq!(change.current(), Step::Done(Ok(())));
}

#[test]
fn replayed_conversation_of_a_current_rate() {
    let mut change = set_device_sample_rate(4, rate(44100.0));
    let replies = vec![Reply::Value { status: NO_ERROR, value: Setting::Rate(rate(44100.6)) }];
    let asked = replay(&mut change, &replies);
    assert_eq!(
        asked,
        vec![Request::Read {
            object: AudioObject::Device(4),
            address: global(Selector::NominalSampleRate),
        }]
    );
    assert_eq!(change.current(), Step::Done(Ok(())));
}

#[test]
fn replayed_conversation_of_an_unsupported_rate() {
    let mut change = set_device_sample_rate(4, rate(12345.0));
    let replies = vec![
        Reply::Value { status: NO_ERROR, value: Setting::Rate(rate(44100.0)) },
        Reply::Size { status: NO_ERROR, bytes: 32 },
        Reply::List {
            status: NO_ERROR,
            data: range_bytes(&[(44100.0, 44100.0), (8000.0, 48000.0)]),
        },
    ];
    let asked = replay(&mut change, &replies);
    assert_eq!(asked.len(), 3);
    assert!(asked
        .iter()
        .all(|r| !matches!(r, Request::AddListener { .. } | Request::Write { .. })));
    assert_eq!(change.current(), Step::Done(Err(Error::UnsupportedSampleRate)));
}

#[test]
fn replayed_conversation_skips_stray_replies() {
    let mut change = set_device_sample_format(4, format(48000.0, 2));
    let replies = vec![
        Reply::Size { status: NO_ERROR, bytes: 1 },
        Reply::Value { status: NO_ERROR, value: Setting::Format(format(44100.0, 2)) },
        Reply::Written { status: NO_ERROR, now_ns: 1 },
        Reply::ListenerAdded { status: NO_ERROR },
        Reply::Written { status: NO_ERROR, now_ns: 50 },
        Reply::Received { delivered: None, now_ns: 60 },
        Reply::Received { delivered: Some(Setting::Format(format(48000.0, 2))), now_ns: 70 },
        Reply::ListenerRemoved { status: -1 },
        Reply::ListenerRemoved { status: NO_ERROR },
    ];
    let asked = replay(&mut change, &replies);
    assert_eq!(asked.len(), 6);
    assert!(matches!(asked[1], Request::AddListener { .. }));
    assert!(matches!(asked[2], Request::Write { .. }));
    assert!(matches!(asked[3], Request::Receive { .. }));
    assert!(matches!(asked[4], Request::Receive { .. }));
    assert!(matches!(asked[5], Request::RemoveListener { .. }));
    assert_eq!(change.current(), Step::Done(Ok(())));
}

#[test]
fn replay_of_nothing_names_the_first_call() {
    let mut change = set_device_sample_rate(4, rate(44100.0));
    let asked = replay(&mut change, &Vec::new());
    assert_eq!(asked.len(), 1);
    assert_eq!(change, set_device_sample_rate(4, rate(44100.0)));
}
