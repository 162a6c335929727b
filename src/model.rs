//! The records carried over the bus and served to callers.
use vstd::prelude::*;

verus! {

/// The fields shared by a command and a status report, as mathematical values.
pub struct SensorFields {
    pub sensor_type: Seq<char>,
    pub frequency: u32,
    pub power: u32,
    pub squelti: u32,
}

/// The zero-valued record: empty type, all numbers zero.
pub open spec fn zero_fields() -> SensorFields {
    SensorFields { sensor_type: Seq::empty(), frequency: 0, power: 0, squelti: 0 }
}

/// A configuration command sent to the sensor; its type is its key on the bus.
#[derive(Debug, PartialEq, Eq)]
pub struct SensorConfig {
    pub sensor_type: String,
    pub frequency: u32,
    pub power: u32,
    pub squelti: u32,
}

/// A status report received from the sensor; its type is its key on the bus.
#[derive(Debug, PartialEq, Eq)]
pub struct SensorStatus {
    pub sensor_type: String,
    pub frequency: u32,
    pub power: u32,
    pub squelti: u32,
}

impl View for SensorConfig {
    type V = SensorFields;

    open spec fn view(&self) -> SensorFields {
        SensorFields {
            sensor_type: self.sensor_type@,
            frequency: self.frequency,
            power: self.power,
            squelti: self.squelti,
        }
    }
}

impl View for SensorStatus {
    type V = SensorFields;

    open spec fn view(&self) -> SensorFields {
        SensorFields {
            sensor_type: self.sensor_type@,
            frequency: self.frequency,
            power: self.power,
            squelti: self.squelti,
        }
    }
}

impl Clone for SensorConfig {
    fn clone(&self) -> (r: Self)
        ensures
            r@ == self@,
    {
        SensorConfig {
            sensor_type: self.sensor_type.clone(),
            frequency: self.frequency,
            power: self.power,
            squelti: self.squelti,
        }
    }
}

impl Clone for SensorStatus {
    fn clone(&self) -> (r: Self)
        ensures
            r@ == self@,
    {
        SensorStatus {
            sensor_type: self.sensor_type.clone(),
            frequency: self.frequency,
            power: self.power,
            squelti: self.squelti,
        }
    }
}

impl Default for SensorConfig {
    fn default() -> (r: Self)
        ensures
            r@ == zero_fields(),
    {
        SensorConfig { sensor_type: String::new(), frequency: 0, power: 0, squelti: 0 }
    }
}

impl Default for SensorStatus {
    fn default() -> (r: Self)
        ensures
            r@ == zero_fields(),
    {
        SensorStatus { sensor_type: String::new(), frequency: 0, power: 0, squelti: 0 }
    }
}

impl SensorConfig {
    /// The key under which the command travels on the bus: its sensor type.
    pub fn key(&self) -> (r: String)
        ensures
            r@ == self@.sensor_type,
    {
        self.sensor_type.clone()
    }
}

impl SensorStatus {
    /// The key under which the report travels and is cached: its sensor type.
    pub fn key(&self) -> (r: String)
        ensures
            r@ == self@.sensor_type,
    {
        self.sensor_type.clone()
    }

    /// The report as a record of the command's shape, as the status reply carries it.
    pub fn into_config(self) -> (r: SensorConfig)
        ensures
            r@ == self@,
    {
        SensorConfig {
            sensor_type: self.sensor_type,
            frequency: self.frequency,
            power: self.power,
            squelti: self.squelti,
        }
    }
}

/// One addressable sensor module: its name and the path that reaches it.
#[derive(Debug, PartialEq, Eq)]
pub struct SensorList {
    pub name: String,
    pub path: String,
}

impl Clone for SensorList {
    fn clone(&self) -> (r: Self)
        ensures
            r.name@ == self.name@,
            r.path@ == self.path@,
    {
        SensorList { name: self.name.clone(), path: self.path.clone() }
    }
}

} // verus!
