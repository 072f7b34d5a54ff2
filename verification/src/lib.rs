//! Camera-follow controller for a side-scrolling game, in fixed-point arithmetic.
//!
//! A camera steers horizontally toward a target with bounded acceleration and a
//! hard stop inside a dead zone, keeps a fixed span of the world visible whatever
//! the window's width, and returns to the origin when a level is loaded.
//!
//! Every length, speed, scale and duration is an integer count of millionths:
//! of a world unit, of a world unit per second, of one, and of a second.

pub mod camera;
pub mod fixed;
pub mod motion;
pub mod plugin;
pub mod zoom;
