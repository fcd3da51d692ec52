//! Completed records and the points written to the sink.

use vstd::prelude::*;
use crate::address::{colon_hex, SensorAddress};
use crate::clock::Timestamp;
use crate::sample::{MeteoSample, VoltageSample};

verus! {

/// Battery data.
#[derive(Clone, Copy, Debug, PartialEq, Eq, Structural)]
pub struct Battery {
    /// Millivolts.
    pub voltage: u16,
    /// Percent.
    pub level: u8,
}

/// A completed record: one meteorological reading paired with a voltage
/// reading, with the time of pairing and the sensor it came from.
#[derive(Clone, Debug, PartialEq, Eq)]
pub struct Sample {
    pub timestamp: Timestamp,
    pub sensor_addr: SensorAddress,
    pub room: String,
    /// Hundredths of a degree Celsius.
    pub temperature: i16,
    /// Hundredths of a percent.
    pub humidity: u16,
    pub battery: Battery,
}

/// The mathematical content of a [`Sample`].
pub struct SampleView {
    pub timestamp: Timestamp,
    pub sensor_addr: SensorAddress,
    pub room: Seq<char>,
    pub temperature: i16,
    pub humidity: u16,
    pub battery: Battery,
}

impl View for Sample {
    type V = SampleView;

    open spec fn view(&self) -> SampleView {
        SampleView {
            timestamp: self.timestamp,
            sensor_addr: self.sensor_addr,
            room: self.room@,
            temperature: self.temperature,
            humidity: self.humidity,
            battery: self.battery,
        }
    }
}

/// The record that pairing a meteorological reading with a voltage reading
/// gives: every measured value is taken over unchanged.
pub open spec fn paired(
    meteo: MeteoSample,
    voltage: VoltageSample,
    timestamp: Timestamp,
    sensor_addr: SensorAddress,
    room: Seq<char>,
) -> SampleView {
    SampleView {
        timestamp,
        sensor_addr,
        room,
        temperature: meteo.temperature,
        humidity: meteo.humidity,
        battery: Battery { voltage: voltage.battery_voltage, level: meteo.battery_level },
    }
}

impl Sample {
    /// Pairs a meteorological reading with a voltage reading.
    pub fn from(
        meteo: MeteoSample,
        voltage: VoltageSample,
        timestamp: Timestamp,
        sensor_addr: SensorAddress,
        room: String,
    ) -> (sample: Sample)
        ensures
            sample@ == paired(meteo, voltage, timestamp, sensor_addr, room@),
    {
        Sample {
            timestamp,
            sensor_addr,
            room,
            temperature: meteo.temperature,
            humidity: meteo.humidity,
            battery: Battery { voltage: voltage.battery_voltage, level: meteo.battery_level },
        }
    }
}

/// A new point of the time series: one record in the shape that the sink
/// takes, with the sensor and the room as tags.
#[derive(Clone, Debug, PartialEq, Eq)]
pub struct InfluxPoint {
    pub time: Timestamp,
    pub sensor: String,
    pub room: String,
    /// Hundredths of a degree Celsius.
    pub temperature: i16,
    /// Hundredths of a percent.
    pub humidity: u16,
    /// Millivolts.
    pub battery_voltage: u16,
    /// Percent.
    pub battery_level: i32,
}

/// The mathematical content of an [`InfluxPoint`].
pub struct InfluxPointView {
    pub time: Timestamp,
    pub sensor: Seq<char>,
    pub room: Seq<char>,
    pub temperature: i16,
    pub humidity: u16,
    pub battery_voltage: u16,
    pub battery_level: i32,
}

impl View for InfluxPoint {
    type V = InfluxPointView;

    open spec fn view(&self) -> InfluxPointView {
        InfluxPointView {
            time: self.time,
            sensor: self.sensor@,
            room: self.room@,
            temperature: self.temperature,
            humidity: self.humidity,
            battery_voltage: self.battery_voltage,
            battery_level: self.battery_level,
        }
    }
}

/// The point that stands for a record: the sensor's address in
/// colon-hexadecimal notation, everything else carried over.
pub open spec fn point_of(sample: SampleView) -> InfluxPointView {
    InfluxPointView {
        time: sample.timestamp,
        sensor: colon_hex(sample.sensor_addr.octets@),
        room: sample.room,
        temperature: sample.temperature,
        humidity: sample.humidity,
        battery_voltage: sample.battery.voltage,
        battery_level: sample.battery.level as i32,
    }
}

impl InfluxPoint {
    /// The point for a completed record.
    pub fn from(measurement: &Sample) -> (point: InfluxPoint)
        ensures
            point@ == point_of(measurement@),
    {
        InfluxPoint {
            time: measurement.timestamp,
            sensor: measurement.sensor_addr.to_text(),
            room: measurement.room.clone(),
            temperature: measurement.temperature,
            humidity: measurement.humidity,
            battery_voltage: measurement.battery.voltage,
            battery_level: measurement.battery.level as i32,
        }
    }
}

} // verus!
