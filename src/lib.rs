//! A bridge between a keyed publish/subscribe bus and a request/response
//! interface: the records it carries, the decisions of the command publisher
//! and of the status subscriber, and the replies of the request surface.
pub mod model;
pub mod bridge;
pub mod publisher;
pub mod subscriber;
