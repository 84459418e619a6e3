//! The measurement model: one reading of a sensor, in one of four shapes.

use vstd::prelude::*;
use crate::number::Double;

verus! {

/// The unit of a temperature reading. There is no third unit.
#[derive(Clone, Copy, Debug, PartialEq, Eq, Structural)]
pub enum MeasurementTemperatureUnit {
    Celsius,
    Fahrenheit,
}

/// A temperature reading. `value` is absent when the sensor has taken no new
/// sample since its last report.
#[derive(Clone, Copy, Debug, PartialEq)]
pub struct MeasurementTemperature {
    pub value: Option<Double>,
    pub count: u64,
    pub max: Double,
    pub min: Double,
    pub average: Double,
    pub last: Double,
    pub unit: MeasurementTemperatureUnit,
    pub overtemp: bool,
}

/// A humidity reading: a temperature reading without unit and alarm.
#[derive(Clone, Copy, Debug, PartialEq)]
pub struct MeasurementHumidity {
    pub value: Option<Double>,
    pub count: u64,
    pub max: Double,
    pub min: Double,
    pub average: Double,
    pub last: Double,
}

/// The result of an object detection.
#[derive(Debug, PartialEq)]
pub struct MeasurementObject {
    pub result: String,
}

/// A batch of readings, each kind in the order in which it was reported.
#[derive(Debug, PartialEq)]
pub struct MeasurementSensorData {
    pub temperature: Vec<MeasurementTemperature>,
    pub humidity: Vec<MeasurementHumidity>,
    pub object: Vec<MeasurementObject>,
}

/// One reading: exactly one of the four shapes.
#[derive(Debug, PartialEq)]
pub enum Measurement {
    Temperature(MeasurementTemperature),
    Humidity(MeasurementHumidity),
    Object(MeasurementObject),
    SensorData(MeasurementSensorData),
}

/// What a [`MeasurementObject`] holds.
pub struct ObjectView {
    pub result: Seq<char>,
}

/// What a [`MeasurementSensorData`] holds: three independent sequences.
pub struct SensorDataView {
    pub temperature: Seq<MeasurementTemperature>,
    pub humidity: Seq<MeasurementHumidity>,
    pub object: Seq<ObjectView>,
}

/// What a [`Measurement`] holds.
pub enum MeasurementView {
    Temperature(MeasurementTemperature),
    Humidity(MeasurementHumidity),
    Object(ObjectView),
    SensorData(SensorDataView),
}

impl View for MeasurementObject {
    type V = ObjectView;

    open spec fn view(&self) -> ObjectView {
        ObjectView { result: self.result@ }
    }
}

/// What a sequence of object results holds, in its order.
pub open spec fn objects_view(objects: Seq<MeasurementObject>) -> Seq<ObjectView> {
    Seq::new(objects.len(), |i: int| objects[i]@)
}

impl View for MeasurementSensorData {
    type V = SensorDataView;

    open spec fn view(&self) -> SensorDataView {
        SensorDataView {
            temperature: self.temperature@,
            humidity: self.humidity@,
            object: objects_view(self.object@),
        }
    }
}

impl View for Measurement {
    type V = MeasurementView;

    open spec fn view(&self) -> MeasurementView {
        match self {
            Measurement::Temperature(t) => MeasurementView::Temperature(*t),
            Measurement::Humidity(h) => MeasurementView::Humidity(*h),
            Measurement::Object(o) => MeasurementView::Object(o@),
            Measurement::SensorData(s) => MeasurementView::SensorData(s@),
        }
    }
}

impl MeasurementSensorData {
    /// An empty batch.
    pub fn new() -> (r: Self)
        ensures
            r.temperature@.len() == 0,
            r.humidity@.len() == 0,
            r.object@.len() == 0,
    {
        Self { temperature: Vec::new(), humidity: Vec::new(), object: Vec::new() }
    }

    /// The temperature readings, open to change in place: what the caller
    /// leaves in the slice is what the batch then holds. The other two
    /// sequences are untouched.
    pub fn temperature(&mut self) -> (r: &mut [MeasurementTemperature])
        ensures
            r@ == old(self).temperature@,
            final(self).temperature@ == final(r)@,
            final(self).humidity == old(self).humidity,
            final(self).object == old(self).object,
    {
        self.temperature.as_mut_slice()
    }

    /// The humidity readings, open to change in place.
    pub fn humidity(&mut self) -> (r: &mut [MeasurementHumidity])
        ensures
            r@ == old(self).humidity@,
            final(self).humidity@ == final(r)@,
            final(self).temperature == old(self).temperature,
            final(self).object == old(self).object,
    {
        self.humidity.as_mut_slice()
    }

    /// The object results, open to change in place.
    pub fn object(&mut self) -> (r: &mut [MeasurementObject])
        ensures
            r@ == old(self).object@,
            final(self).object@ == final(r)@,
            final(self).temperature == old(self).temperature,
            final(self).humidity == old(self).humidity,
    {
        self.object.as_mut_slice()
    }
}

impl Default for MeasurementSensorData {
    fn default() -> (r: Self)
        ensures
            r.temperature@.len() == 0,
            r.humidity@.len() == 0,
            r.object@.len() == 0,
    {
        Self::new()
    }
}

} // verus!
