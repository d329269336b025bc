//! Typed messaging for ROS 2 on top of a DDS transport.
//!
//! The crate holds the parts of a ROS 2 client that compute: the marshalling of
//! parameter values to and from their fixed wire record, and the bookkeeping
//! that turns a sample taken from the transport into a message with its
//! metadata. Every function states what it returns in its contract.
pub mod parameters;
pub mod pubsub;
pub mod transport;
