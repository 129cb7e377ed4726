//! The values that the client and the application exchange.

pub mod executor;
pub mod executor_data;
pub mod executor_range;

pub use executor::{ButtonExecutor, Executor, ExecutorType, FaderExecutor};
pub use executor_data::{ButtonData, ButtonState, FaderData, Ma2Data};
pub use executor_range::{ButtonRange, FaderRange};
