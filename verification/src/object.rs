//! What every class rests on: objects, classes and selectors of the foreign
//! runtime, each known by its address, and the two traits that tie a class to
//! the instance of its superclass that it embeds.

use vstd::prelude::*;

verus! {

/// The address that stands for no object.
pub const NIL: usize = 0;

/// An object of the foreign runtime, of whatever class, known by its address.
/// The address of an object is never nil.
#[derive(Clone, Copy, Debug, PartialEq, Eq, Structural)]
pub struct AnyObject {
    address: usize,
}

impl View for AnyObject {
    type V = usize;

    closed spec fn view(&self) -> usize {
        self.address
    }
}

impl AnyObject {
    #[verifier::type_invariant]
    spec fn non_nil(self) -> bool {
        self.address != NIL
    }

    /// Two objects with one address are one object.
    pub proof fn lemma_address_identifies(self, other: AnyObject)
        requires
            self@ == other@,
        ensures
            self == other,
    {
    }

    /// The object at `address`, or `None` where `address` is nil.
    pub fn from_address(address: usize) -> (object: Option<AnyObject>)
        ensures
            object is None <==> address == NIL,
            object matches Some(o) ==> o@ == address,
    {
        if address == NIL {
            None
        } else {
            Some(AnyObject { address })
        }
    }

    /// The address of the object.
    pub fn address(&self) -> (address: usize)
        ensures
            address == self@,
            address != NIL,
    {
        proof {
            use_type_invariant(self);
        }
        self.address
    }
}

impl AsAnyObject for AnyObject {
    open spec fn any_view(&self) -> AnyObject {
        *self
    }

    fn any_ref(&self) -> (any: &AnyObject) {
        self
    }

    fn any_mut(&mut self) -> (any: &mut AnyObject) {
        self
    }
}

/// A class of the foreign runtime, known by its address, which is never nil.
#[derive(Clone, Copy, Debug, PartialEq, Eq, Structural)]
pub struct Class {
    address: usize,
}

impl View for Class {
    type V = usize;

    closed spec fn view(&self) -> usize {
        self.address
    }
}

impl Class {
    #[verifier::type_invariant]
    spec fn non_nil(self) -> bool {
        self.address != NIL
    }

    /// Two classes with one address are one class.
    pub proof fn lemma_address_identifies(self, other: Class)
        requires
            self@ == other@,
        ensures
            self == other,
    {
    }

    /// The class at `address`, or `None` where `address` is nil: an object of a
    /// root class has no superclass.
    pub fn from_address(address: usize) -> (class: Option<Class>)
        ensures
            class is None <==> address == NIL,
            class matches Some(c) ==> c@ == address,
    {
        if address == NIL {
            None
        } else {
            Some(Class { address })
        }
    }

    /// The address of the class.
    pub fn address(&self) -> (address: usize)
        ensures
            address == self@,
            address != NIL,
    {
        proof {
            use_type_invariant(self);
        }
        self.address
    }
}

/// A selector as the foreign runtime registered it, known by its address.
#[derive(Clone, Copy, Debug, PartialEq, Eq, Structural)]
pub struct Sel {
    address: usize,
}

impl View for Sel {
    type V = usize;

    closed spec fn view(&self) -> usize {
        self.address
    }
}

impl Sel {
    /// Two selectors with one address are one selector.
    pub proof fn lemma_address_identifies(self, other: Sel)
        requires
            self@ == other@,
        ensures
            self == other,
    {
    }

    /// The selector that the runtime keeps at `address`.
    pub fn from_address(address: usize) -> (sel: Sel)
        ensures
            sel@ == address,
    {
        Sel { address }
    }

    /// The address of the selector.
    pub fn address(&self) -> (address: usize)
        ensures
            address == self@,
    {
        self.address
    }
}

/// A class that embeds an instance of its superclass.
pub trait Object {
    /// The superclass.
    type Super;

    /// The embedded instance of the superclass.
    spec fn super_view(&self) -> Self::Super;

    /// The embedded instance of the superclass.
    fn super_ref(&self) -> (sup: &Self::Super)
        ensures
            *sup == self.super_view(),
    ;

    /// The embedded instance of the superclass, to be changed in place.
    fn super_mut(&mut self) -> (sup: &mut Self::Super)
        ensures
            *sup == old(self).super_view(),
            final(self).super_view() == *final(sup),
    ;
}

/// A class whose instances can be handed on as objects of no particular class.
pub trait AsAnyObject {
    /// The instance, seen as an object of no particular class.
    spec fn any_view(&self) -> AnyObject;

    /// The instance, seen as an object of no particular class.
    fn any_ref(&self) -> (any: &AnyObject)
        ensures
            *any == self.any_view(),
    ;

    /// The instance, seen as an object of no particular class, to be changed
    /// in place.
    fn any_mut(&mut self) -> (any: &mut AnyObject)
        ensures
            *any == old(self).any_view(),
            final(self).any_view() == *final(any),
    ;
}

/// The word that stands for an object that may be absent.
pub open spec fn address_or_nil_spec<T: AsAnyObject>(object: Option<&T>) -> usize {
    match object {
        Some(o) => o.any_view()@,
        None => NIL,
    }
}

/// The word that a message carries for `object`: its address, or nil where
/// there is none.
pub fn address_or_nil<T: AsAnyObject>(object: Option<&T>) -> (address: usize)
    ensures
        address == address_or_nil_spec(object),
        address == NIL <==> object is None,
{
    match object {
        Some(o) => o.any_ref().address(),
        None => NIL,
    }
}

} // verus!
