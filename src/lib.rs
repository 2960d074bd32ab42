//! A kernel timer descriptor as a pollable event source: validated time values,
//! the timer's arm/disarm state machine, the expiration-counter drain protocol
//! and a token registry through which a reactor reaches its sources.
#![allow(non_camel_case_types)]

pub mod error;
pub mod source;
pub mod time;
pub mod timer;
