//! Composable control-loop stages.
//!
//! A control application describes, on every tick, which stages run and in
//! what order. The description is rebuilt from scratch each tick; the state of
//! every stage lives on in a tree that mirrors the description. [`Task`] is the
//! contract of one stage, [`Then`] runs two stages in sequence, [`from_fn`]
//! makes a stage without state of a function, and [`Stopwatch`] keeps the time
//! between two ticks of a stage. What holds of every composition is proved in
//! [`laws`].

pub mod from_fn;
pub mod laws;
pub mod shape;
pub mod stopwatch;
pub mod task;
pub mod then;

pub use from_fn::{from_fn, FromFn};
pub use shape::Shape;
pub use stopwatch::{elapsed_millis, Stopwatch};
pub use task::Task;
pub use then::Then;
