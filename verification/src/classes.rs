//! The classes, each with the trait of the methods that its instances and
//! those of its subclasses answer to.

pub mod ns_event;
pub mod ns_object;
pub mod ns_responder;
