//! The root class, and the methods that every object answers to.

use crate::message::{Message, MessageView, Selector};
use crate::object::{
    address_or_nil, address_or_nil_spec, AnyObject, AsAnyObject, Class, Object, Sel, NIL,
};
use vstd::prelude::*;

verus! {

/// An instance of the root class.
#[derive(Clone, Copy, Debug, PartialEq, Eq, Structural)]
pub struct NSObject {
    super_: AnyObject,
}

impl View for NSObject {
    type V = usize;

    /// The address of the instance: that of the object it embeds.
    open spec fn view(&self) -> usize {
        self.super_view()@
    }
}

impl Object for NSObject {
    type Super = AnyObject;

    closed spec fn super_view(&self) -> AnyObject {
        self.super_
    }

    fn super_ref(&self) -> (sup: &AnyObject) {
        &self.super_
    }

    fn super_mut(&mut self) -> (sup: &mut AnyObject) {
        &mut self.super_
    }
}

impl AsAnyObject for NSObject {
    open spec fn any_view(&self) -> AnyObject {
        self.super_view()
    }

    fn any_ref(&self) -> (any: &AnyObject) {
        &self.super_
    }

    fn any_mut(&mut self) -> (any: &mut AnyObject) {
        &mut self.super_
    }
}

impl NSObject {
    /// Two instances with one address are one instance.
    pub proof fn lemma_address_identifies(self, other: NSObject)
        requires
            self@ == other@,
        ensures
            self == other,
    {
        self.super_.lemma_address_identifies(other.super_);
    }

    /// The instance at `address`, or `None` where `address` is nil.
    pub fn from_address(address: usize) -> (object: Option<NSObject>)
        ensures
            object is None <==> address == NIL,
            object matches Some(o) ==> o@ == address,
    {
        match AnyObject::from_address(address) {
            Some(any) => Some(NSObject { super_: any }),
            None => None,
        }
    }

    /// The address of the instance.
    pub fn address(&self) -> (address: usize)
        ensures
            address == self@,
            address != NIL,
    {
        self.super_.address()
    }
}

/// An instance of the root class receives itself what is sent through it.
pub proof fn lemma_object_receives_its_messages(object: NSObject)
    ensures
        object.receiver() == object@,
        object.any_view()@ == object@,
{
}

/// What is sent through an instance of a subclass goes where the instance of
/// the superclass that it embeds would send it.
pub proof fn lemma_inherited_receiver<T>(instance: T)
    where
        T: Object,
        T::Super: IsNSObject,
    ensures
        instance.receiver() == instance.super_view().receiver(),
{
}

/// The methods of the root class. Each builds the message that asks the
/// receiver for what the method is named after.
pub trait IsNSObject {
    /// The address of the object that receives what is sent through `self`.
    spec fn receiver(&self) -> usize;

    /// Asks for the class of the receiver. The reply is the address of a class.
    fn instance_class(&self) -> (message: Message)
        ensures
            message@ == MessageView::nullary(self.receiver(), Selector::Class),
            message@.well_formed(),
    ;

    /// Asks for the superclass of the receiver's class. The reply is the
    /// address of a class, or nil.
    fn instance_superclass(&self) -> (message: Message)
        ensures
            message@ == MessageView::nullary(self.receiver(), Selector::Superclass),
            message@.well_formed(),
    ;

    /// Asks whether the receiver equals `other`, which may be absent. The
    /// reply is a boolean.
    fn is_equal(&self, other: Option<&AnyObject>) -> (message: Message)
        ensures
            message@ == MessageView::unary(self.receiver(), Selector::IsEqual, address_or_nil_spec(other)),
            message@.well_formed(),
    ;

    /// Asks for the receiver's hash. The reply is a machine word.
    fn hash(&self) -> (message: Message)
        ensures
            message@ == MessageView::nullary(self.receiver(), Selector::Hash),
            message@.well_formed(),
    ;

    /// Asks whether the receiver is an instance of `class` or of a class that
    /// inherits from it. The reply is a boolean.
    fn is_kind_of_class(&self, class: &Class) -> (message: Message)
        ensures
            message@ == MessageView::unary(self.receiver(), Selector::IsKindOfClass, class@),
            message@.well_formed(),
    ;

    /// Asks whether the receiver is an instance of `class` itself. The reply is
    /// a boolean.
    fn is_member_of_class(&self, class: &Class) -> (message: Message)
        ensures
            message@ == MessageView::unary(self.receiver(), Selector::IsMemberOfClass, class@),
            message@.well_formed(),
    ;

    /// Asks whether the receiver answers to `sel`. The reply is a boolean.
    fn responds_to_selector(&self, sel: Sel) -> (message: Message)
        ensures
            message@ == MessageView::unary(self.receiver(), Selector::RespondsToSelector, sel@),
            message@.well_formed(),
    ;

    /// Asks for a description of the receiver. The reply is the address of a
    /// string object.
    fn description(&self) -> (message: Message)
        ensures
            message@ == MessageView::nullary(self.receiver(), Selector::Description),
            message@.well_formed(),
    ;

    /// Asks for a description of the receiver for a debugger. The reply is the
    /// address of a string object.
    fn debug_description(&self) -> (message: Message)
        ensures
            message@ == MessageView::nullary(self.receiver(), Selector::DebugDescription),
            message@.well_formed(),
    ;
}

/// A class that inherits the methods of the root class from the instance of
/// its superclass that it embeds.
pub trait SubNSObject {
    /// The superclass.
    type SuperNSObject: IsNSObject;

    /// The embedded instance of the superclass.
    spec fn super_ns_object_view(&self) -> Self::SuperNSObject;

    /// The embedded instance of the superclass.
    fn super_ns_object_ref(&self) -> (sup: &Self::SuperNSObject)
        ensures
            *sup == self.super_ns_object_view(),
    ;

    /// The embedded instance of the superclass, to be changed in place.
    fn super_ns_object_mut(&mut self) -> (sup: &mut Self::SuperNSObject)
        ensures
            *sup == old(self).super_ns_object_view(),
            final(self).super_ns_object_view() == *final(sup),
    ;
}

impl<T> SubNSObject for T where T: Object, T::Super: IsNSObject {
    type SuperNSObject = T::Super;

    open spec fn super_ns_object_view(&self) -> T::Super {
        self.super_view()
    }

    fn super_ns_object_ref(&self) -> (sup: &T::Super) {
        self.super_ref()
    }

    fn super_ns_object_mut(&mut self) -> (sup: &mut T::Super) {
        self.super_mut()
    }
}

impl IsNSObject for NSObject {
    open spec fn receiver(&self) -> usize {
        self@
    }

    fn instance_class(&self) -> (message: Message) {
        Message::nullary(self.address(), Selector::Class)
    }

    fn instance_superclass(&self) -> (message: Message) {
        Message::nullary(self.address(), Selector::Superclass)
    }

    fn is_equal(&self, other: Option<&AnyObject>) -> (message: Message) {
        Message::unary(self.address(), Selector::IsEqual, address_or_nil(other))
    }

    fn hash(&self) -> (message: Message) {
        Message::nullary(self.address(), Selector::Hash)
    }

    fn is_kind_of_class(&self, class: &Class) -> (message: Message) {
        Message::unary(self.address(), Selector::IsKindOfClass, class.address())
    }

    fn is_member_of_class(&self, class: &Class) -> (message: Message) {
        Message::unary(self.address(), Selector::IsMemberOfClass, class.address())
    }

    fn responds_to_selector(&self, sel: Sel) -> (message: Message) {
        Message::unary(self.address(), Selector::RespondsToSelector, sel.address())
    }

    fn description(&self) -> (message: Message) {
        Message::nullary(self.address(), Selector::Description)
    }

    fn debug_description(&self) -> (message: Message) {
        Message::nullary(self.address(), Selector::DebugDescription)
    }
}

/// What a subclass inherits goes to the instance of the superclass that it
/// embeds.
impl<T> IsNSObject for T where T: SubNSObject {
    open spec fn receiver(&self) -> usize {
        self.super_ns_object_view().receiver()
    }

    fn instance_class(&self) -> (message: Message) {
        self.super_ns_object_ref().instance_class()
    }

    fn instance_superclass(&self) -> (message: Message) {
        self.super_ns_object_ref().instance_superclass()
    }

    fn is_equal(&self, other: Option<&AnyObject>) -> (message: Message) {
        self.super_ns_object_ref().is_equal(other)
    }

    fn hash(&self) -> (message: Message) {
        self.super_ns_object_ref().hash()
    }

    fn is_kind_of_class(&self, class: &Class) -> (message: Message) {
        self.super_ns_object_ref().is_kind_of_class(class)
    }

    fn is_member_of_class(&self, class: &Class) -> (message: Message) {
        self.super_ns_object_ref().is_member_of_class(class)
    }

    fn responds_to_selector(&self, sel: Sel) -> (message: Message) {
        self.super_ns_object_ref().responds_to_selector(sel)
    }

    fn description(&self) -> (message: Message) {
        self.super_ns_object_ref().description()
    }

    fn debug_description(&self) -> (message: Message) {
        self.super_ns_object_ref().debug_description()
    }
}

} // verus!
