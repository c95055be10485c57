//! Control core of a filament-extrusion and winding workstation.
//!
//! The library keeps the extruded filament's diameter on target by
//! coordinating an extruder screw, a puller and a take-up spool from
//! laser-micrometer feedback.  Every physical quantity is carried as a
//! signed fixed-point integer: a value counts millionths of its base unit
//! (millimetres for lengths, metres per second for line speeds, cubic
//! centimetres per second for volumetric flow, revolutions per minute for
//! screw speed, radians per second for shaft speed, and microseconds for
//! time).  All arithmetic is integer arithmetic with explicit truncation,
//! so every function body is verified.

pub mod units;
pub mod sliding_window;
pub mod pid;
pub mod converter;
pub mod motion;
pub mod puller;
pub mod laser;
pub mod regulator;
