//! The class of the events that responders are told of.

use crate::classes::ns_object::{IsNSObject, NSObject};
use crate::object::{AnyObject, AsAnyObject, Object, NIL};
use vstd::prelude::*;

verus! {

/// An event: a click, a drag, a move of the mouse.
#[derive(Clone, Copy, Debug, PartialEq, Eq, Structural)]
pub struct NSEvent {
    super_: NSObject,
}

impl View for NSEvent {
    type V = usize;

    /// The address of the event: that of the instance of the root class which
    /// it embeds.
    open spec fn view(&self) -> usize {
        self.super_view()@
    }
}

impl Object for NSEvent {
    type Super = NSObject;

    closed spec fn super_view(&self) -> NSObject {
        self.super_
    }

    fn super_ref(&self) -> (sup: &NSObject) {
        &self.super_
    }

    fn super_mut(&mut self) -> (sup: &mut NSObject) {
        &mut self.super_
    }
}

impl AsAnyObject for NSEvent {
    open spec fn any_view(&self) -> AnyObject {
        self.super_view().any_view()
    }

    fn any_ref(&self) -> (any: &AnyObject) {
        self.super_.any_ref()
    }

    fn any_mut(&mut self) -> (any: &mut AnyObject) {
        self.super_.any_mut()
    }
}

impl NSEvent {
    /// Two events with one address are one event.
    pub proof fn lemma_address_identifies(self, other: NSEvent)
        requires
            self@ == other@,
        ensures
            self == other,
    {
        self.super_.lemma_address_identifies(other.super_);
    }

    /// The event at `address`, or `None` where `address` is nil.
    pub fn from_address(address: usize) -> (event: Option<NSEvent>)
        ensures
            event is None <==> address == NIL,
            event matches Some(e) ==> e@ == address,
    {
        match NSObject::from_address(address) {
            Some(object) => Some(NSEvent { super_: object }),
            None => None,
        }
    }

    /// The address of the event.
    pub fn address(&self) -> (address: usize)
        ensures
            address == self@,
            address != NIL,
    {
        self.super_.address()
    }
}

/// An event receives itself what is sent through it: it inherits the methods
/// of the root class.
pub proof fn lemma_event_receives_its_messages(event: NSEvent)
    ensures
        event.receiver() == event@,
        event.any_view()@ == event@,
{
}

} // verus!
