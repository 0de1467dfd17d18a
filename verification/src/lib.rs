//! Single-instance coordination between processes, and the small data
//! types that travel with it.

pub mod coordinator;
pub mod laws;
pub mod liveness;
pub mod names;
pub mod refusal;
pub mod scroll;
pub mod signal;
pub mod single_process;
pub mod static_path;
pub mod subscriber_loop;
pub mod sweep;
pub mod theme;
pub mod timing;
pub mod traits;
