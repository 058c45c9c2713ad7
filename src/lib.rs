//! Exact-valued core of a mobile-robot simulator that estimates its pose with an
//! extended Kalman filter and plans its inputs with a dynamic window.
//!
//! The numeric work (trigonometry, matrices, noise) is carried out in floating
//! point by the program around this library. What is stated and proved here is
//! everything that can be held exactly: the trajectory tables, the kinematic
//! envelopes and cost weights, the waypoint cursor, the tick clock, the
//! candidate selection rule, the output layout of matrices and the choice of
//! agent by name.
pub mod agent;
pub mod layout;
pub mod limits;
pub mod planner;
pub mod schedule;
pub mod square;
pub mod waypoints;
