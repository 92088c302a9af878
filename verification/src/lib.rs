//! An asynchronous result-sink bridge.
//!
//! A foreign query engine pushes results through a callback protocol
//! (`indicate` delivers a batch of borrowed object references, `set_status`
//! reports completion); this library republishes them as one ordered stream
//! of owned items that a single consumer pulls from an unbounded channel.

pub mod channel;
pub mod query_sink;
pub mod result_value;

pub use channel::drain_ready;
pub use channel::poll_delivery;
pub use channel::Delivery;
pub use channel::TakeOutcome;
pub use query_sink::QuerySink;
pub use result_value::DeliveryError;
pub use result_value::Item;
pub use result_value::ObjectRef;
pub use result_value::E_POINTER;
pub use result_value::WBEM_NO_ERROR;
pub use result_value::WBEM_STATUS_COMPLETE;
