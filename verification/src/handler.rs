//! The per-sensor worker: it keeps the latest voltage reading and pairs every
//! meteorological reading with it.

use vstd::prelude::*;
use crate::address::SensorAddress;
use crate::clock::{utc_now, Timestamp};
use crate::element::Element;
use crate::record::{paired, point_of, InfluxPoint, InfluxPointView, Sample, SampleView};
use crate::sample::{classification, BtHomeV2Sample, MeteoSample, VoltageSample};

verus! {

/// Where completed records go.
#[derive(Clone, Copy, Debug, PartialEq, Eq, Structural)]
pub enum SinkMode {
    /// Records are written to the time series.
    Live,
    /// Nothing is written.
    DryRun,
}

/// What a classified sample does to a worker.
#[derive(Clone, Copy, Debug, PartialEq, Eq, Structural)]
pub enum Step {
    /// A voltage reading: it replaces the one kept so far.
    Latched(VoltageSample),
    /// A meteorological reading that found a voltage reading to go with.
    Paired(MeteoSample, VoltageSample),
    /// A meteorological reading that came before any voltage reading.
    Dropped(MeteoSample),
    /// Nothing of interest.
    Unrecognized,
}

/// What the worker's owner has to do after one message.
#[derive(Clone, Debug, PartialEq, Eq)]
pub enum Action {
    /// Nothing: a voltage reading was stored.
    Latched(VoltageSample),
    /// Nothing: a meteorological reading was dropped for want of a voltage.
    Dropped(MeteoSample),
    /// Nothing: the message was of no interest.
    Unrecognized,
    /// Write `point` to the series named `measurement`.
    Send { sample: Sample, point: InfluxPoint, measurement: String },
    /// Write nothing; the record is complete all the same.
    DryRun { sample: Sample },
}

/// The mathematical content of an [`Action`].
pub enum ActionView {
    Latched(VoltageSample),
    Dropped(MeteoSample),
    Unrecognized,
    Send { sample: SampleView, point: InfluxPointView, measurement: Seq<char> },
    DryRun { sample: SampleView },
}

impl View for Action {
    type V = ActionView;

    open spec fn view(&self) -> ActionView {
        match *self {
            Action::Latched(voltage) => ActionView::Latched(voltage),
            Action::Dropped(meteo) => ActionView::Dropped(meteo),
            Action::Unrecognized => ActionView::Unrecognized,
            Action::Send { sample, point, measurement } => ActionView::Send {
                sample: sample@,
                point: point@,
                measurement: measurement@,
            },
            Action::DryRun { sample } => ActionView::DryRun { sample: sample@ },
        }
    }
}

impl ActionView {
    /// The completed record that the action carries, if it carries one.
    pub open spec fn record(self) -> Option<SampleView> {
        match self {
            ActionView::Send { sample, .. } => Some(sample),
            ActionView::DryRun { sample } => Some(sample),
            _ => None,
        }
    }
}

/// One worker per sensor.
pub struct SensorHandler {
    sensor_addr: SensorAddress,
    room: String,
    sink: SinkMode,
    influx_measurement: String,
    be_verbose: bool,
    last_voltage: Option<VoltageSample>,
}

/// The mathematical content of a [`SensorHandler`].
pub struct SensorHandlerView {
    pub sensor_addr: SensorAddress,
    pub room: Seq<char>,
    pub sink: SinkMode,
    pub influx_measurement: Seq<char>,
    pub be_verbose: bool,
    /// The latest voltage reading, if one has come yet.
    pub last_voltage: Option<VoltageSample>,
}

impl SensorHandlerView {
    /// The same worker with another voltage reading kept.
    pub open spec fn with_voltage(self, last_voltage: Option<VoltageSample>) -> SensorHandlerView {
        SensorHandlerView { last_voltage, ..self }
    }
}

/// The voltage reading kept after a sample: a voltage reading replaces the
/// old one, anything else leaves it.
pub open spec fn latch(last_voltage: Option<VoltageSample>, sample: BtHomeV2Sample) -> Option<
    VoltageSample,
> {
    match sample {
        BtHomeV2Sample::Voltage(voltage) => Some(voltage),
        _ => last_voltage,
    }
}

/// What a sample does, given the voltage reading kept so far.
pub open spec fn step(last_voltage: Option<VoltageSample>, sample: BtHomeV2Sample) -> Step {
    match sample {
        BtHomeV2Sample::Voltage(voltage) => Step::Latched(voltage),
        BtHomeV2Sample::Meteo(meteo) => match last_voltage {
            Some(voltage) => Step::Paired(meteo, voltage),
            None => Step::Dropped(meteo),
        },
        BtHomeV2Sample::Unrecognized => Step::Unrecognized,
    }
}

/// The record that a worker completes from a pair at a given time, as an
/// action: sent where the sink is live, held back in a dry run.
pub open spec fn emission(
    handler: SensorHandlerView,
    meteo: MeteoSample,
    voltage: VoltageSample,
    now: Timestamp,
) -> ActionView {
    let sample = paired(meteo, voltage, now, handler.sensor_addr, handler.room);
    match handler.sink {
        SinkMode::Live => ActionView::Send {
            sample,
            point: point_of(sample),
            measurement: handler.influx_measurement,
        },
        SinkMode::DryRun => ActionView::DryRun { sample },
    }
}

/// The action that follows a step taken at a given time.
pub open spec fn reaction(handler: SensorHandlerView, step: Step, now: Timestamp) -> ActionView {
    match step {
        Step::Latched(voltage) => ActionView::Latched(voltage),
        Step::Dropped(meteo) => ActionView::Dropped(meteo),
        Step::Unrecognized => ActionView::Unrecognized,
        Step::Paired(meteo, voltage) => emission(handler, meteo, voltage, now),
    }
}

/// Whether `action` is what a worker that keeps `last_voltage` answers to the
/// message `elements`, at some time of its own choosing.
pub open spec fn answers(
    handler: SensorHandlerView,
    last_voltage: Option<VoltageSample>,
    elements: Seq<Element>,
    action: ActionView,
) -> bool {
    exists|now: Timestamp|
        action == #[trigger] reaction(
            handler,
            step(last_voltage, classification(elements)),
            now,
        )
}

/// The voltage reading kept after a run of messages.
pub open spec fn latched_after(
    last_voltage: Option<VoltageSample>,
    messages: Seq<Seq<Element>>,
) -> Option<VoltageSample>
    decreases messages.len(),
{
    if messages.len() == 0 {
        last_voltage
    } else {
        latch(
            latched_after(last_voltage, messages.drop_last()),
            classification(messages.last()),
        )
    }
}

/// The element lists that a batch of messages holds.
pub open spec fn payloads(messages: Seq<Vec<Element>>) -> Seq<Seq<Element>> {
    messages.map_values(|message: Vec<Element>| message@)
}

/// A worker that has seen no voltage reading completes no record: until the
/// first voltage reading has come, every message is answered without one,
/// at whatever time.
pub proof fn lemma_no_record_before_first_voltage(
    handler: SensorHandlerView,
    messages: Seq<Seq<Element>>,
    i: int,
)
    requires
        0 <= i < messages.len(),
        forall|j: int| 0 <= j < i ==> !(classification(#[trigger] messages[j]) is Voltage),
    ensures
        latched_after(None, messages.take(i)) is None,
        forall|action: ActionView| #[trigger]
            answers(handler, latched_after(None, messages.take(i)), messages[i], action)
                ==> action.record() is None,
    decreases i,
{
    if i > 0 {
        lemma_no_record_before_first_voltage(handler, messages, i - 1);
        assert(messages.take(i).drop_last() =~= messages.take(i - 1));
    }
}

/// A meteorological reading that comes after a voltage reading completes a
/// record with the voltage that came last before it.
pub proof fn lemma_record_has_latest_voltage(
    handler: SensorHandlerView,
    messages: Seq<Seq<Element>>,
    i: int,
    k: int,
    now: Timestamp,
)
    requires
        0 <= k < i < messages.len(),
        classification(messages[k]) is Voltage,
        forall|j: int| k < j < i ==> !(classification(#[trigger] messages[j]) is Voltage),
        classification(messages[i]) is Meteo,
    ensures
        latched_after(handler.last_voltage, messages.take(i)) == Some(
            classification(messages[k])->Voltage_0,
        ),
        reaction(
            handler,
            step(latched_after(handler.last_voltage, messages.take(i)), classification(messages[i])),
            now,
        ).record() == Some(
            paired(
                classification(messages[i])->Meteo_0,
                classification(messages[k])->Voltage_0,
                now,
                handler.sensor_addr,
                handler.room,
            ),
        ),
{
    lemma_latched_step(handler.last_voltage, messages, k, i);
}

/// The voltage reading kept does not change over messages that are no
/// voltage readings.
proof fn lemma_latched_step(
    last_voltage: Option<VoltageSample>,
    messages: Seq<Seq<Element>>,
    k: int,
    i: int,
)
    requires
        0 <= k < i <= messages.len(),
        classification(messages[k]) is Voltage,
        forall|j: int| k < j < i ==> !(classification(#[trigger] messages[j]) is Voltage),
    ensures
        latched_after(last_voltage, messages.take(i)) == Some(
            classification(messages[k])->Voltage_0,
        ),
    decreases i,
{
    assert(messages.take(i).drop_last() =~= messages.take(i - 1));
    if k < i - 1 {
        lemma_latched_step(last_voltage, messages, k, i - 1);
    }
}

/// Messages handled one batch after another leave the worker as the same
/// messages handled in one batch do.
pub proof fn lemma_latched_after_in_parts(
    last_voltage: Option<VoltageSample>,
    first: Seq<Seq<Element>>,
    second: Seq<Seq<Element>>,
)
    ensures
        latched_after(last_voltage, first + second) == latched_after(
            latched_after(last_voltage, first),
            second,
        ),
    decreases second.len(),
{
    if second.len() > 0 {
        lemma_latched_after_in_parts(last_voltage, first, second.drop_last());
        assert((first + second).drop_last() =~= first + second.drop_last());
    }
}

impl View for SensorHandler {
    type V = SensorHandlerView;

    closed spec fn view(&self) -> SensorHandlerView {
        SensorHandlerView {
            sensor_addr: self.sensor_addr,
            room: self.room@,
            sink: self.sink,
            influx_measurement: self.influx_measurement@,
            be_verbose: self.be_verbose,
            last_voltage: self.last_voltage,
        }
    }
}

impl SensorHandler {
    /// A worker that has seen no voltage reading yet.
    pub fn new(
        sensor_addr: SensorAddress,
        room: String,
        sink: SinkMode,
        influx_measurement: String,
        be_verbose: bool,
    ) -> (handler: SensorHandler)
        ensures
            handler@ == (SensorHandlerView {
                sensor_addr,
                room: room@,
                sink,
                influx_measurement: influx_measurement@,
                be_verbose,
                last_voltage: None,
            }),
    {
        SensorHandler { sensor_addr, room, sink, influx_measurement, be_verbose, last_voltage: None }
    }

    /// The address of the sensor that this worker is for.
    pub fn sensor_addr(&self) -> (addr: SensorAddress)
        ensures
            addr == self@.sensor_addr,
    {
        self.sensor_addr
    }

    /// The room in which the sensor stands.
    pub fn room(&self) -> (room: &String)
        ensures
            room@ == self@.room,
    {
        &self.room
    }

    /// Where completed records go.
    pub fn sink(&self) -> (sink: SinkMode)
        ensures
            sink == self@.sink,
    {
        self.sink
    }

    /// The name of the series that records are written to.
    pub fn influx_measurement(&self) -> (name: &String)
        ensures
            name@ == self@.influx_measurement,
    {
        &self.influx_measurement
    }

    /// Whether the owner wants every step reported.
    pub fn be_verbose(&self) -> (verbose: bool)
        ensures
            verbose == self@.be_verbose,
    {
        self.be_verbose
    }

    /// The latest voltage reading, if one has come yet.
    pub fn last_voltage(&self) -> (voltage: Option<VoltageSample>)
        ensures
            voltage == self@.last_voltage,
    {
        self.last_voltage
    }

    /// Takes one classified sample in: a voltage reading is kept, a
    /// meteorological reading is paired with the one kept, if there is one.
    pub fn absorb(&mut self, sample: BtHomeV2Sample) -> (taken: Step)
        ensures
            taken == step(old(self)@.last_voltage, sample),
            final(self)@ == old(self)@.with_voltage(latch(old(self)@.last_voltage, sample)),
    {
        match sample {
            BtHomeV2Sample::Meteo(meteo) => match self.last_voltage {
                Some(voltage) => Step::Paired(meteo, voltage),
                None => Step::Dropped(meteo),
            },
            BtHomeV2Sample::Voltage(voltage) => {
                self.last_voltage = Some(voltage);
                Step::Latched(voltage)
            },
            BtHomeV2Sample::Unrecognized => Step::Unrecognized,
        }
    }

    /// Completes the record of a pair, stamped with `now`.
    pub fn emit(&self, meteo: MeteoSample, voltage: VoltageSample, now: Timestamp) -> (action:
        Action)
        ensures
            action@ == emission(self@, meteo, voltage, now),
    {
        let sample = Sample::from(meteo, voltage, now, self.sensor_addr, self.room.clone());
        match self.sink {
            SinkMode::Live => {
                let point = InfluxPoint::from(&sample);
                Action::Send { sample, point, measurement: self.influx_measurement.clone() }
            },
            SinkMode::DryRun => Action::DryRun { sample },
        }
    }

    /// Handles one message. A record that gets completed is stamped with the
    /// time at which the clock is read here.
    pub fn handle(&mut self, message: &[Element]) -> (action: Action)
        ensures
            answers(old(self)@, old(self)@.last_voltage, message@, action@),
            final(self)@ == old(self)@.with_voltage(
                latch(old(self)@.last_voltage, classification(message@)),
            ),
    {
        let ghost before = self@;
        let sample = BtHomeV2Sample::try_from(message);
        let action = match self.absorb(sample) {
            Step::Latched(voltage) => Action::Latched(voltage),
            Step::Dropped(meteo) => Action::Dropped(meteo),
            Step::Unrecognized => Action::Unrecognized,
            Step::Paired(meteo, voltage) => {
                let now = utc_now();
                let action = self.emit(meteo, voltage, now);
                assert(action@ == reaction(
                    before,
                    step(before.last_voltage, classification(message@)),
                    now,
                ));
                action
            },
        };
        proof {
            if !(step(before.last_voltage, classification(message@)) is Paired) {
                let any = Timestamp { secs: 0, nanos: 0 };
                assert(action@ == reaction(
                    before,
                    step(before.last_voltage, classification(message@)),
                    any,
                ));
            }
        }
        action
    }

    /// Handles a batch of messages in the order given, and returns one action
    /// for each.
    pub fn run(&mut self, messages: &Vec<Vec<Element>>) -> (actions: Vec<Action>)
        ensures
            actions@.len() == messages@.len(),
            forall|i: int|
                0 <= i < messages@.len() ==> answers(
                    old(self)@,
                    latched_after(old(self)@.last_voltage, payloads(messages@).take(i)),
                    messages@[i]@,
                    #[trigger] actions@[i]@,
                ),
            final(self)@ == old(self)@.with_voltage(
                latched_after(old(self)@.last_voltage, payloads(messages@)),
            ),
    {
        let ghost before = self@;
        let mut actions: Vec<Action> = Vec::new();
        let mut n: usize = 0;
        while n < messages.len()
            invariant
                n <= messages@.len(),
                actions@.len() == n,
                self@ == before.with_voltage(
                    latched_after(before.last_voltage, payloads(messages@).take(n as int)),
                ),
                forall|i: int|
                    0 <= i < n ==> answers(
                        before,
                        latched_after(before.last_voltage, payloads(messages@).take(i)),
                        messages@[i]@,
                        #[trigger] actions@[i]@,
                    ),
            decreases messages@.len() - n,
        {
            let ghost kept = self@.last_voltage;
            let action = self.handle(messages[n].as_slice());
            proof {
                let next = payloads(messages@).take(n + 1);
                assert(next.drop_last() =~= payloads(messages@).take(n as int));
                assert(answers(before, kept, messages@[n as int]@, action@)) by {
                    let now = choose|now: Timestamp|
                        action@ == #[trigger] reaction(
                            self@.with_voltage(kept),
                            step(kept, classification(messages@[n as int]@)),
                            now,
                        );
                    assert(action@ == reaction(
                        before,
                        step(kept, classification(messages@[n as int]@)),
                        now,
                    ));
                }
            }
            actions.push(action);
            n += 1;
        }
        proof {
            assert(payloads(messages@).take(n as int) =~= payloads(messages@));
        }
        actions
    }
}

} // verus!
