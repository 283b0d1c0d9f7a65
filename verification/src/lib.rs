//! Sampling-and-validation pipeline for a temperature/humidity sensor.
//!
//! Raw sensor readings are filtered through a three-point outlier check and
//! committed into a bounded, time-ordered store of validated readings.
//! Measured quantities are carried as fixed-point integers in thousandths of
//! a unit (milli-degrees Celsius, milli-percent relative humidity,
//! milli-grams per cubic metre), which keeps every rule of the pipeline in
//! exact integer arithmetic.
//!
//! [`data`] holds the reading type and the outlier window, [`util`] the
//! derivation of absolute humidity, [`store`] the bounded history, and
//! [`sampler`] the decision core of the polling loop.

pub mod data;
pub mod sampler;
pub mod store;
pub mod util;
