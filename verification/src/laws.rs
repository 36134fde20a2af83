//! What the library is for, stated of its operations from the outside: how
//! results follow from inputs, how calls relate, and what reads back.

pub mod air;
pub mod bus;
pub mod card;
pub mod charge;
pub mod log_text;
pub mod main_loop;
pub mod modbus;
pub mod position;
pub mod sensor_values;
pub mod serial;
pub mod settings;
pub mod station;
pub mod update;
