//! Decision logic of a remote-controlled robot car: motor commands with
//! obstacle stops, obstacle detection from distance sensors, the proximity
//! buzzer, wheel pulse counting and the text command protocol.
pub mod buzzer;
pub mod movement;
pub mod sensors;
pub mod pulses;
pub mod protocol;
pub mod safety;
