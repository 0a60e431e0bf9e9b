use sorbet_cocoa::{
    address_or_nil, into_bool, AnyObject, AsAnyObject, Class, NSEvent, NSObject, NSResponder,
    Object, Sel, SubNSObject, SubNSResponder, NIL,
};

#[test]
fn nil_is_zero() {
    assert_eq!(NIL, 0);
}

#[test]
fn nil_is_no_object() {
    assert_eq!(AnyObject::from_address(NIL), None);
    assert_eq!(NSObject::from_address(NIL), None);
    assert_eq!(NSResponder::from_address(NIL), None);
    assert_eq!(NSEvent::from_address(NIL), None);
    assert_eq!(Class::from_address(NIL), None);
}

#[test]
fn an_address_is_an_object() {
    assert_eq!(AnyObject::from_address(1).unwrap().address(), 1);
    assert_eq!(NSObject::from_address(0x7f00_1000).unwrap().address(), 0x7f00_1000);
    assert_eq!(NSResponder::from_address(usize::MAX).unwrap().address(), usize::MAX);
    assert_eq!(NSEvent::from_address(8).unwrap().address(), 8);
    assert_eq!(Class::from_address(24).unwrap().address(), 24);
}

#[test]
fn a_selector_keeps_its_address() {
    assert_eq!(Sel::from_address(0x40).address(), 0x40);
    assert_eq!(Sel::from_address(0).address(), 0);
}

#[test]
fn objects_are_equal_by_address() {
    assert_eq!(NSResponder::from_address(16), NSResponder::from_address(16));
    assert_ne!(NSResponder::from_address(16), NSResponder::from_address(32));
}

#[test]
fn into_bool_takes_every_value_but_zero_for_yes() {
    assert!(!into_bool(0));
    assert!(into_bool(1));
    assert!(into_bool(2));
    assert!(into_bool(-1));
    assert!(into_bool(i8::MIN));
    assert!(into_bool(i8::MAX));
}

#[test]
fn address_or_nil_of_an_absent_object_is_nil() {
    assert_eq!(address_or_nil::<NSEvent>(None), NIL);
    assert_eq!(address_or_nil::<NSResponder>(None), NIL);
    assert_eq!(address_or_nil::<AnyObject>(None), NIL);
}

#[test]
fn address_or_nil_of_an_object_is_its_address() {
    let event = NSEvent::from_address(0x10).unwrap();
    let responder = NSResponder::from_address(0x20).unwrap();
    let any = AnyObject::from_address(0x30).unwrap();
    assert_eq!(address_or_nil(Some(&event)), 0x10);
    assert_eq!(address_or_nil(Some(&responder)), 0x20);
    assert_eq!(address_or_nil(Some(&any)), 0x30);
}

#[test]
fn address_round_trip() {
    for address in [0usize, 1, 0x1000, usize::MAX] {
        let responder = NSResponder::from_address(address);
        assert_eq!(address_or_nil(responder.as_ref()), address);
    }
}

#[test]
fn an_instance_has_the_address_of_what_it_embeds() {
    let responder = NSResponder::from_address(0x500).unwrap();
    assert_eq!(responder.super_ref().address(), 0x500);
    assert_eq!(responder.super_ref().super_ref().address(), 0x500);
    assert_eq!(responder.any_ref().address(), 0x500);
    assert_eq!(responder.super_ns_object_ref().address(), 0x500);
    let event = NSEvent::from_address(0x600).unwrap();
    assert_eq!(event.super_ref().address(), 0x600);
    assert_eq!(event.any_ref().address(), 0x600);
    assert_eq!(event.super_ns_object_ref().any_ref().address(), 0x600);
    let any = AnyObject::from_address(0x700).unwrap();
    assert_eq!(any.any_ref().address(), 0x700);
}

#[test]
fn super_mut_reaches_the_embedded_instance() {
    let mut responder = NSResponder::from_address(0x500).unwrap();
    *responder.super_mut() = NSObject::from_address(0x900).unwrap();
    assert_eq!(responder.address(), 0x900);
    *responder.super_mut().super_mut() = AnyObject::from_address(0xa00).unwrap();
    assert_eq!(responder.address(), 0xa00);
    *responder.super_ns_object_mut() = NSObject::from_address(0xb00).unwrap();
    assert_eq!(responder.address(), 0xb00);
}

#[test]
fn any_mut_reaches_the_object() {
    let mut object = NSObject::from_address(0x500).unwrap();
    *object.any_mut() = AnyObject::from_address(0x900).unwrap();
    assert_eq!(object.address(), 0x900);
    let mut responder = NSResponder::from_address(0x100).unwrap();
    *responder.any_mut() = AnyObject::from_address(0x200).unwrap();
    assert_eq!(responder.address(), 0x200);
    let mut event = NSEvent::from_address(0x300).unwrap();
    *event.any_mut() = AnyObject::from_address(0x400).unwrap();
    assert_eq!(event.address(), 0x400);
    *event.super_mut() = NSObject::from_address(0x450).unwrap();
    assert_eq!(event.address(), 0x450);
    let mut any = AnyObject::from_address(0x1).unwrap();
    *any.any_mut() = AnyObject::from_address(0x2).unwrap();
    assert_eq!(any.address(), 0x2);
}

/// A class of the caller's own that embeds a responder.
#[derive(Clone, Copy)]
struct Panel {
    super_: NSResponder,
}

impl Object for Panel {
    type Super = NSResponder;

    fn super_view(&self) -> NSResponder {
        self.super_
    }

    fn super_ref(&self) -> &NSResponder {
        &self.super_
    }

    fn super_mut(&mut self) -> &mut NSResponder {
        &mut self.super_
    }
}

#[test]
fn super_ns_responder_is_the_embedded_instance() {
    let mut panel = Panel { super_: NSResponder::from_address(0x77).unwrap() };
    assert_eq!(panel.super_ns_responder_ref().address(), 0x77);
    *panel.super_ns_responder_mut() = NSResponder::from_address(0x88).unwrap();
    assert_eq!(panel.super_ref().address(), 0x88);
    assert_eq!(panel.super_ns_object_ref().address(), 0x88);
}
