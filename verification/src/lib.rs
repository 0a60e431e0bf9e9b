//! The messages that Cocoa's root class and its responders are sent.
//!
//! An object of the foreign runtime is known here by its address, a class by
//! the instance of its superclass that it embeds. Each method of a class builds
//! the message that asks the runtime for what the method is named after: which
//! object receives it, which selector it carries, and which machine words are
//! its arguments. Sending the message, and keeping the objects alive while it is
//! under way, is the caller's part.

pub mod classes;
pub mod message;
pub mod object;

pub use crate::classes::ns_event::NSEvent;
pub use crate::classes::ns_object::{IsNSObject, NSObject, SubNSObject};
pub use crate::classes::ns_responder::{IsNSResponder, NSResponder, SubNSResponder};
pub use crate::message::{
    colons, colons_among, into_bool, Message, MessageView, Reply, Selector,
};
pub use crate::object::{
    address_or_nil, address_or_nil_spec, AnyObject, AsAnyObject, Class, Object, Sel, NIL,
};
