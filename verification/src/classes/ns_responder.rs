//! The class of what can respond to events, and the methods that responders
//! answer to.

use crate::classes::ns_event::NSEvent;
use crate::classes::ns_object::{IsNSObject, NSObject};
use crate::message::{Message, MessageView, Selector};
use crate::object::{address_or_nil, address_or_nil_spec, AnyObject, AsAnyObject, Object, NIL};
use vstd::prelude::*;

verus! {

/// A responder.
#[derive(Clone, Copy, Debug, PartialEq, Eq, Structural)]
pub struct NSResponder {
    super_: NSObject,
}

impl View for NSResponder {
    type V = usize;

    /// The address of the responder: that of the instance of the root class
    /// which it embeds.
    open spec fn view(&self) -> usize {
        self.super_view()@
    }
}

impl Object for NSResponder {
    type Super = NSObject;

    closed spec fn super_view(&self) -> NSObject {
        self.super_
    }

    fn super_ref(&self) -> (sup: &NSObject) {
        &self.super_
    }

    fn super_mut(&mut self) -> (sup: &mut NSObject) {
        &mut self.super_
    }
}

impl AsAnyObject for NSResponder {
    open spec fn any_view(&self) -> AnyObject {
        self.super_view().any_view()
    }

    fn any_ref(&self) -> (any: &AnyObject) {
        self.super_.any_ref()
    }

    fn any_mut(&mut self) -> (any: &mut AnyObject) {
        self.super_.any_mut()
    }
}

impl NSResponder {
    /// Two responders with one address are one responder.
    pub proof fn lemma_address_identifies(self, other: NSResponder)
        requires
            self@ == other@,
        ensures
            self == other,
    {
        self.super_.lemma_address_identifies(other.super_);
    }

    /// The responder at `address`, or `None` where `address` is nil: the last
    /// responder of a chain has none after it.
    pub fn from_address(address: usize) -> (responder: Option<NSResponder>)
        ensures
            responder is None <==> address == NIL,
            responder matches Some(r) ==> r@ == address,
    {
        match NSObject::from_address(address) {
            Some(object) => Some(NSResponder { super_: object }),
            None => None,
        }
    }

    /// The address of the responder.
    pub fn address(&self) -> (address: usize)
        ensures
            address == self@,
            address != NIL,
    {
        self.super_.address()
    }
}

/// A responder receives itself what is sent through it, whether the method is
/// its own or one that it inherits from the root class.
pub proof fn lemma_responder_receives_its_messages(responder: NSResponder)
    ensures
        responder.responder() == responder@,
        responder.receiver() == responder@,
        responder.any_view()@ == responder@,
{
}

/// What is sent to a responder through an instance of a subclass goes where
/// the instance of the superclass that it embeds would send it.
pub proof fn lemma_inherited_responder<T>(instance: T)
    where
        T: Object + IsNSObject,
        T::Super: IsNSResponder,
    ensures
        instance.responder() == instance.super_view().responder(),
{
}

/// The methods of a responder. Each builds the message that asks the
/// responder for what the method is named after.
pub trait IsNSResponder: IsNSObject {
    /// The address of the responder that receives what is sent through `self`.
    spec fn responder(&self) -> usize;

    /// Asks whether the responder agrees to become the first responder. The
    /// reply is a boolean.
    fn accepts_first_responder(&self) -> (message: Message)
        ensures
            message@ == MessageView::nullary(self.responder(), Selector::AcceptsFirstResponder),
            message@.well_formed(),
    ;

    /// Tells the responder that it is about to become the first responder. The
    /// reply is a boolean: whether it accepts.
    fn become_first_responder(&self) -> (message: Message)
        ensures
            message@ == MessageView::nullary(self.responder(), Selector::BecomeFirstResponder),
            message@.well_formed(),
    ;

    /// Tells the responder that it is about to stop being the first responder.
    /// The reply is a boolean: whether it agrees.
    fn resign_first_responder(&self) -> (message: Message)
        ensures
            message@ == MessageView::nullary(self.responder(), Selector::ResignFirstResponder),
            message@.well_formed(),
    ;

    /// Asks whether `responder` may become the first responder for `event`,
    /// which may be absent. The reply is a boolean.
    fn validates_proposed_first_responder_for_event(
        &self,
        responder: &NSResponder,
        event: Option<&NSEvent>,
    ) -> (message: Message)
        ensures
            message@ == MessageView::binary(
                self.responder(),
                Selector::ValidateProposedFirstResponderForEvent,
                responder@,
                address_or_nil_spec(event),
            ),
            message@.well_formed(),
    ;

    /// Asks for the responder that comes next in the chain. The reply is the
    /// address of a responder, or nil at the end of the chain.
    fn next_responder(&self) -> (message: Message)
        ensures
            message@ == MessageView::nullary(self.responder(), Selector::NextResponder),
            message@.well_formed(),
    ;

    /// Makes `next_responder` the responder that comes next in the chain, or
    /// ends the chain here where there is none.
    fn set_next_responder(&self, next_responder: Option<&NSResponder>) -> (message: Message)
        ensures
            message@ == MessageView::unary(
                self.responder(),
                Selector::SetNextResponder,
                address_or_nil_spec(next_responder),
            ),
            message@.well_formed(),
    ;

    /// Tells the responder that the left button went down.
    fn mouse_down(&self, event: &NSEvent) -> (message: Message)
        ensures
            message@ == MessageView::unary(self.responder(), Selector::MouseDown, event@),
            message@.well_formed(),
    ;

    /// Tells the responder that the mouse moved with the left button down.
    fn mouse_dragged(&self, event: &NSEvent) -> (message: Message)
        ensures
            message@ == MessageView::unary(self.responder(), Selector::MouseDragged, event@),
            message@.well_formed(),
    ;

    /// Tells the responder that the left button went up.
    fn mouse_up(&self, event: &NSEvent) -> (message: Message)
        ensures
            message@ == MessageView::unary(self.responder(), Selector::MouseUp, event@),
            message@.well_formed(),
    ;

    /// Tells the responder that the mouse moved.
    fn mouse_moved(&self, event: &NSEvent) -> (message: Message)
        ensures
            message@ == MessageView::unary(self.responder(), Selector::MouseMoved, event@),
            message@.well_formed(),
    ;

    /// Tells the responder that the mouse came into its tracking area.
    fn mouse_entered(&self, event: &NSEvent) -> (message: Message)
        ensures
            message@ == MessageView::unary(self.responder(), Selector::MouseEntered, event@),
            message@.well_formed(),
    ;

    /// Tells the responder that the mouse left its tracking area.
    fn mouse_exited(&self, event: &NSEvent) -> (message: Message)
        ensures
            message@ == MessageView::unary(self.responder(), Selector::MouseExited, event@),
            message@.well_formed(),
    ;

    /// Tells the responder that the right button went down.
    fn right_mouse_down(&self, event: &NSEvent) -> (message: Message)
        ensures
            message@ == MessageView::unary(self.responder(), Selector::RightMouseDown, event@),
            message@.well_formed(),
    ;

    /// Tells the responder that the mouse moved with the right button down.
    fn right_mouse_dragged(&self, event: &NSEvent) -> (message: Message)
        ensures
            message@ == MessageView::unary(self.responder(), Selector::RightMouseDragged, event@),
            message@.well_formed(),
    ;

    /// Tells the responder that the right button went up.
    fn right_mouse_up(&self, event: &NSEvent) -> (message: Message)
        ensures
            message@ == MessageView::unary(self.responder(), Selector::RightMouseUp, event@),
            message@.well_formed(),
    ;

    /// Tells the responder that a button other than left and right went down.
    fn other_mouse_down(&self, event: &NSEvent) -> (message: Message)
        ensures
            message@ == MessageView::unary(self.responder(), Selector::OtherMouseDown, event@),
            message@.well_formed(),
    ;

    /// Tells the responder that the mouse moved with a button other than left
    /// and right down.
    fn other_mouse_dragged(&self, event: &NSEvent) -> (message: Message)
        ensures
            message@ == MessageView::unary(self.responder(), Selector::OtherMouseDragged, event@),
            message@.well_formed(),
    ;

    /// Tells the responder that a button other than left and right went up.
    fn other_mouse_up(&self, event: &NSEvent) -> (message: Message)
        ensures
            message@ == MessageView::unary(self.responder(), Selector::OtherMouseUp, event@),
            message@.well_formed(),
    ;
}

/// A class that inherits the methods of a responder from the instance of its
/// superclass that it embeds.
pub trait SubNSResponder {
    /// The superclass.
    type SuperNSResponder: IsNSResponder;

    /// The embedded instance of the superclass.
    spec fn super_ns_responder_view(&self) -> Self::SuperNSResponder;

    /// The embedded instance of the superclass.
    fn super_ns_responder_ref(&self) -> (sup: &Self::SuperNSResponder)
        ensures
            *sup == self.super_ns_responder_view(),
    ;

    /// The embedded instance of the superclass, to be changed in place.
    fn super_ns_responder_mut(&mut self) -> (sup: &mut Self::SuperNSResponder)
        ensures
            *sup == old(self).super_ns_responder_view(),
            final(self).super_ns_responder_view() == *final(sup),
    ;
}

impl<T> SubNSResponder for T where T: Object, T::Super: IsNSResponder {
    type SuperNSResponder = T::Super;

    open spec fn super_ns_responder_view(&self) -> T::Super {
        self.super_view()
    }

    fn super_ns_responder_ref(&self) -> (sup: &T::Super) {
        self.super_ref()
    }

    fn super_ns_responder_mut(&mut self) -> (sup: &mut T::Super) {
        self.super_mut()
    }
}

impl IsNSResponder for NSResponder {
    open spec fn responder(&self) -> usize {
        self@
    }

    fn accepts_first_responder(&self) -> (message: Message) {
        Message::nullary(self.address(), Selector::AcceptsFirstResponder)
    }

    fn become_first_responder(&self) -> (message: Message) {
        Message::nullary(self.address(), Selector::BecomeFirstResponder)
    }

    fn resign_first_responder(&self) -> (message: Message) {
        Message::nullary(self.address(), Selector::ResignFirstResponder)
    }

    fn validates_proposed_first_responder_for_event(
        &self,
        responder: &NSResponder,
        event: Option<&NSEvent>,
    ) -> (message: Message) {
        Message::binary(
            self.address(),
            Selector::ValidateProposedFirstResponderForEvent,
            responder.address(),
            address_or_nil(event),
        )
    }

    fn next_responder(&self) -> (message: Message) {
        Message::nullary(self.address(), Selector::NextResponder)
    }

    fn set_next_responder(&self, next_responder: Option<&NSResponder>) -> (message: Message) {
        Message::unary(self.address(), Selector::SetNextResponder, address_or_nil(next_responder))
    }

    fn mouse_down(&self, event: &NSEvent) -> (message: Message) {
        Message::unary(self.address(), Selector::MouseDown, event.address())
    }

    fn mouse_dragged(&self, event: &NSEvent) -> (message: Message) {
        Message::unary(self.address(), Selector::MouseDragged, event.address())
    }

    fn mouse_up(&self, event: &NSEvent) -> (message: Message) {
        Message::unary(self.address(), Selector::MouseUp, event.address())
    }

    fn mouse_moved(&self, event: &NSEvent) -> (message: Message) {
        Message::unary(self.address(), Selector::MouseMoved, event.address())
    }

    fn mouse_entered(&self, event: &NSEvent) -> (message: Message) {
        Message::unary(self.address(), Selector::MouseEntered, event.address())
    }

    fn mouse_exited(&self, event: &NSEvent) -> (message: Message) {
        Message::unary(self.address(), Selector::MouseExited, event.address())
    }

    fn right_mouse_down(&self, event: &NSEvent) -> (message: Message) {
        Message::unary(self.address(), Selector::RightMouseDown, event.address())
    }

    fn right_mouse_dragged(&self, event: &NSEvent) -> (message: Message) {
        Message::unary(self.address(), Selector::RightMouseDragged, event.address())
    }

    fn right_mouse_up(&self, event: &NSEvent) -> (message: Message) {
        Message::unary(self.address(), Selector::RightMouseUp, event.address())
    }

    fn other_mouse_down(&self, event: &NSEvent) -> (message: Message) {
        Message::unary(self.address(), Selector::OtherMouseDown, event.address())
    }

    fn other_mouse_dragged(&self, event: &NSEvent) -> (message: Message) {
        Message::unary(self.address(), Selector::OtherMouseDragged, event.address())
    }

    fn other_mouse_up(&self, event: &NSEvent) -> (message: Message) {
        Message::unary(self.address(), Selector::OtherMouseUp, event.address())
    }
}

/// What a subclass inherits goes to the responder that it embeds.
impl<T> IsNSResponder for T where T: SubNSResponder + IsNSObject {
    open spec fn responder(&self) -> usize {
        self.super_ns_responder_view().responder()
    }

    fn accepts_first_responder(&self) -> (message: Message) {
        self.super_ns_responder_ref().accepts_first_responder()
    }

    fn become_first_responder(&self) -> (message: Message) {
        self.super_ns_responder_ref().become_first_responder()
    }

    fn resign_first_responder(&self) -> (message: Message) {
        self.super_ns_responder_ref().resign_first_responder()
    }

    fn validates_proposed_first_responder_for_event(
        &self,
        responder: &NSResponder,
        event: Option<&NSEvent>,
    ) -> (message: Message) {
        self.super_ns_responder_ref().validates_proposed_first_responder_for_event(responder, event)
    }

    fn next_responder(&self) -> (message: Message) {
        self.super_ns_responder_ref().next_responder()
    }

    fn set_next_responder(&self, next_responder: Option<&NSResponder>) -> (message: Message) {
        self.super_ns_responder_ref().set_next_responder(next_responder)
    }

    fn mouse_down(&self, event: &NSEvent) -> (message: Message) {
        self.super_ns_responder_ref().mouse_down(event)
    }

    fn mouse_dragged(&self, event: &NSEvent) -> (message: Message) {
        self.super_ns_responder_ref().mouse_dragged(event)
    }

    fn mouse_up(&self, event: &NSEvent) -> (message: Message) {
        self.super_ns_responder_ref().mouse_up(event)
    }

    fn mouse_moved(&self, event: &NSEvent) -> (message: Message) {
        self.super_ns_responder_ref().mouse_moved(event)
    }

    fn mouse_entered(&self, event: &NSEvent) -> (message: Message) {
        self.super_ns_responder_ref().mouse_entered(event)
    }

    fn mouse_exited(&self, event: &NSEvent) -> (message: Message) {
        self.super_ns_responder_ref().mouse_exited(event)
    }

    fn right_mouse_down(&self, event: &NSEvent) -> (message: Message) {
        self.super_ns_responder_ref().right_mouse_down(event)
    }

    fn right_mouse_dragged(&self, event: &NSEvent) -> (message: Message) {
        self.super_ns_responder_ref().right_mouse_dragged(event)
    }

    fn right_mouse_up(&self, event: &NSEvent) -> (message: Message) {
        self.super_ns_responder_ref().right_mouse_up(event)
    }

    fn other_mouse_down(&self, event: &NSEvent) -> (message: Message) {
        self.super_ns_responder_ref().other_mouse_down(event)
    }

    fn other_mouse_dragged(&self, event: &NSEvent) -> (message: Message) {
        self.super_ns_responder_ref().other_mouse_dragged(event)
    }

    fn other_mouse_up(&self, event: &NSEvent) -> (message: Message) {
        self.super_ns_responder_ref().other_mouse_up(event)
    }
}

} // verus!
