//! Drive a single asynchronous task from a callback-driven windowing loop.
//!
//! The loop hands each of its events to a [`driver::Driver`], which forwards
//! them, in order, into an unbounded queue read by the task through
//! [`queue::Events`], and decides when the task is polled and when the loop
//! must exit. A [`wake::WakeCoordinator`] decides when a wake request from any
//! thread must inject a synthetic event into the loop.

pub mod driver;
pub mod queue;
pub mod wake;
