//! The decisions of the event loop: what to do about an event of the
//! adapter or of a device.

use vstd::prelude::*;
use crate::address::SensorAddress;
use crate::config::{sink_mode, AppConfig};
use crate::handler::{SensorHandler, SensorHandlerView};
use crate::registry::SensorRegistry;
use crate::router::{
    delivered, handle_dev_changed_prop_evt, property_outcomes, Delivery, DeviceProperty, Outcome,
};

verus! {

/// An event of the adapter.
#[derive(Clone, Copy, Debug, PartialEq, Eq)]
pub enum AdapterEvent {
    /// A device with this address has appeared.
    DeviceAdded(SensorAddress),
    /// The device with this address has gone.
    DeviceRemoved(SensorAddress),
    /// A property of the adapter itself has changed.
    PropertyChanged,
}

/// An event of one device.
#[derive(Clone, Debug, PartialEq, Eq)]
pub enum DeviceEvent {
    PropertyChanged(DeviceProperty),
}

/// What to do about an event of the adapter.
#[derive(Clone, Debug, PartialEq, Eq)]
pub enum AdapterAction {
    /// A configured sensor has appeared: listen to its events from now on.
    Subscribe { addr: SensorAddress, room: String },
    /// A configured sensor has gone: report it, and go on listening.
    ReportRemoval { addr: SensorAddress, room: String },
    /// Nothing.
    Ignore,
}

/// The mathematical content of an [`AdapterAction`].
pub enum AdapterActionView {
    Subscribe { addr: SensorAddress, room: Seq<char> },
    ReportRemoval { addr: SensorAddress, room: Seq<char> },
    Ignore,
}

impl View for AdapterAction {
    type V = AdapterActionView;

    open spec fn view(&self) -> AdapterActionView {
        match *self {
            AdapterAction::Subscribe { addr, room } => AdapterActionView::Subscribe {
                addr,
                room: room@,
            },
            AdapterAction::ReportRemoval { addr, room } => AdapterActionView::ReportRemoval {
                addr,
                room: room@,
            },
            AdapterAction::Ignore => AdapterActionView::Ignore,
        }
    }
}

/// What an event of the adapter calls for, given the configured sensors:
/// only the coming and going of a configured sensor calls for anything.
pub open spec fn adapter_action(
    event: AdapterEvent,
    rooms: Map<SensorAddress, Seq<char>>,
) -> AdapterActionView {
    match event {
        AdapterEvent::DeviceAdded(addr) => if rooms.contains_key(addr) {
            AdapterActionView::Subscribe { addr, room: rooms[addr] }
        } else {
            AdapterActionView::Ignore
        },
        AdapterEvent::DeviceRemoved(addr) => if rooms.contains_key(addr) {
            AdapterActionView::ReportRemoval { addr, room: rooms[addr] }
        } else {
            AdapterActionView::Ignore
        },
        AdapterEvent::PropertyChanged => AdapterActionView::Ignore,
    }
}

/// Handles an event of the adapter.
pub fn handle_adapter_evt(adapter_event: AdapterEvent, registry: &SensorRegistry) -> (action:
    AdapterAction)
    ensures
        action@ == adapter_action(adapter_event, registry@),
{
    match adapter_event {
        AdapterEvent::DeviceAdded(addr) => match registry.room_of(&addr) {
            Some(room) => AdapterAction::Subscribe { addr, room: room.clone() },
            None => AdapterAction::Ignore,
        },
        AdapterEvent::DeviceRemoved(addr) => match registry.room_of(&addr) {
            Some(room) => AdapterAction::ReportRemoval { addr, room: room.clone() },
            None => AdapterAction::Ignore,
        },
        AdapterEvent::PropertyChanged => AdapterAction::Ignore,
    }
}

/// What an event of a device leads to: the outcomes of its weather entries
/// where the device is a configured sensor, nothing where it is not.
pub open spec fn routed(
    event: DeviceEvent,
    addr: SensorAddress,
    rooms: Map<SensorAddress, Seq<char>>,
) -> Seq<Outcome> {
    if rooms.contains_key(addr) {
        match event {
            DeviceEvent::PropertyChanged(property) => property_outcomes(property),
        }
    } else {
        Seq::empty()
    }
}

/// Routes an event of a device: what is to be handed to the worker of the
/// sensor with this address, in order.
pub fn route(event: &DeviceEvent, addr: &SensorAddress, registry: &SensorRegistry) -> (deliveries:
    Vec<Delivery>)
    ensures
        delivered(deliveries@) == routed(*event, *addr, registry@),
{
    if registry.room_of(addr).is_none() {
        let deliveries: Vec<Delivery> = Vec::new();
        return deliveries;
    }
    match event {
        DeviceEvent::PropertyChanged(property) => handle_dev_changed_prop_evt(property),
    }
}

/// The worker of the `i`-th configured sensor as it starts: it has seen no
/// voltage reading.
pub open spec fn worker_of(app_config: AppConfig, i: int) -> SensorHandlerView
    recommends
        0 <= i < app_config.sensors_names.sensors().len(),
{
    SensorHandlerView {
        sensor_addr: app_config.sensors_names.sensors()[i].0,
        room: app_config.sensors_names.sensors()[i].1,
        sink: sink_mode(app_config.dry_run),
        influx_measurement: app_config.influx_measurement@,
        be_verbose: app_config.be_verbose,
        last_voltage: None,
    }
}

/// What the event loop waits for.
#[derive(Clone, Debug, PartialEq, Eq)]
pub enum LoopEvent {
    /// The adapter has an event.
    Adapter(AdapterEvent),
    /// The device with this address has an event.
    Device(DeviceEvent, SensorAddress),
    /// Neither the adapter nor any device will have another event.
    Exhausted,
}

/// What the event loop does next.
#[derive(Debug, PartialEq, Eq)]
pub enum LoopAction {
    Adapter(AdapterAction),
    /// Hand these to the worker of the sensor, in order.
    Deliver { addr: SensorAddress, deliveries: Vec<Delivery> },
    /// Leave the loop.
    Stop,
}

/// The mathematical content of a [`LoopAction`].
pub enum LoopActionView {
    Adapter(AdapterActionView),
    Deliver { addr: SensorAddress, outcomes: Seq<Outcome> },
    Stop,
}

impl View for LoopAction {
    type V = LoopActionView;

    open spec fn view(&self) -> LoopActionView {
        match *self {
            LoopAction::Adapter(action) => LoopActionView::Adapter(action@),
            LoopAction::Deliver { addr, deliveries } => LoopActionView::Deliver {
                addr,
                outcomes: delivered(deliveries@),
            },
            LoopAction::Stop => LoopActionView::Stop,
        }
    }
}

/// What the event loop does about an event.
pub open spec fn loop_action(event: LoopEvent, rooms: Map<SensorAddress, Seq<char>>) -> LoopActionView {
    match event {
        LoopEvent::Adapter(adapter_event) => LoopActionView::Adapter(
            adapter_action(adapter_event, rooms),
        ),
        LoopEvent::Device(device_event, addr) => LoopActionView::Deliver {
            addr,
            outcomes: routed(device_event, addr, rooms),
        },
        LoopEvent::Exhausted => LoopActionView::Stop,
    }
}

/// One turn of the event loop.
pub fn dispatch(event: &LoopEvent, registry: &SensorRegistry) -> (action: LoopAction)
    ensures
        action@ == loop_action(*event, registry@),
{
    match event {
        LoopEvent::Adapter(adapter_event) => LoopAction::Adapter(
            handle_adapter_evt(*adapter_event, registry),
        ),
        LoopEvent::Device(device_event, addr) => LoopAction::Deliver {
            addr: *addr,
            deliveries: route(device_event, addr, registry),
        },
        LoopEvent::Exhausted => LoopAction::Stop,
    }
}

/// One worker for each configured sensor, in the order of the registry, none
/// of which has seen a voltage reading yet.
pub fn spawn_handlers(app_config: &AppConfig) -> (handlers: Vec<SensorHandler>)
    ensures
        handlers@.len() == app_config.sensors_names.sensors().len(),
        forall|i: int|
            0 <= i < handlers@.len() ==> (#[trigger] handlers@[i])@ == worker_of(*app_config, i),
{
    let registry = &app_config.sensors_names;
    let sink = app_config.sink();
    let mut handlers: Vec<SensorHandler> = Vec::new();
    let n: usize = registry.len();
    let mut i: usize = 0;
    while i < n
        invariant
            i <= n,
            n == registry.sensors().len(),
            registry == &app_config.sensors_names,
            sink == sink_mode(app_config.dry_run),
            handlers@.len() == i,
            forall|k: int| 0 <= k < i ==> (#[trigger] handlers@[k])@ == worker_of(*app_config, k),
        decreases n - i,
    {
        let entry = registry.entry(i);
        handlers.push(
            SensorHandler::new(
                entry.addr,
                entry.room.clone(),
                sink,
                app_config.influx_measurement.clone(),
                app_config.be_verbose,
            ),
        );
        i += 1;
    }
    handlers
}

} // verus!
