//! The simulation core of a small platformer with a rent economy.
//!
//! Every quantity is an integer in a fixed unit, chosen so that integrating
//! an acceleration over a tick, and a velocity over a tick, is exact:
//!
//! | quantity                 | unit                         | type  |
//! |--------------------------|------------------------------|-------|
//! | time                     | microseconds                 | `u32` per tick, `u64` in timers |
//! | acceleration             | world units per second²      | `i64` |
//! | velocity                 | micro-units per second       | `i64` |
//! | position, displacement   | pico-units                   | `i64` |
//! | direction                | parts per million of a unit vector | `i64` |
//! | health                   | points                       | `i64` |
//! | money                    | dollars                      | `i32` |
//!
//! Arithmetic that would leave the range of its type stops at the end of that
//! range; the contracts say so through [`numeric::clamp_i64`] and
//! [`numeric::clamp_i32`].

pub mod collision;
pub mod components;
pub mod economy;
pub mod enemy;
pub mod laws;
pub mod motion;
pub mod numeric;
pub mod projectile;
pub mod sequences;
pub mod text;
pub mod timer;
pub mod vector;
pub mod world;
