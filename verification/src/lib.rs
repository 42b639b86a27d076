//! Decision logic of the experiment-control dashboard: the queue of pending
//! records, the rules that turn dashboard messages into state changes and
//! effects, and the small text and routing rules of its workers.

pub mod text;
pub mod types;
pub mod camera;
pub mod vibration;
pub mod save;
pub mod dashboard;
pub mod laws;
