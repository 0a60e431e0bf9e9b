use sorbet_cocoa::{
    AnyObject, Class, IsNSObject, Message, NSEvent, NSObject, NSResponder, Sel, Selector,
};

fn object() -> NSObject {
    NSObject::from_address(0xab00).unwrap()
}

fn nullary(selector: Selector) -> Message {
    Message { receiver: 0xab00, selector, arguments: vec![] }
}

fn unary(selector: Selector, argument: usize) -> Message {
    Message { receiver: 0xab00, selector, arguments: vec![argument] }
}

#[test]
fn instance_class_message() {
    assert_eq!(object().instance_class(), nullary(Selector::Class));
}

#[test]
fn instance_superclass_message() {
    assert_eq!(object().instance_superclass(), nullary(Selector::Superclass));
}

#[test]
fn is_equal_message() {
    let other = AnyObject::from_address(0xcd00).unwrap();
    assert_eq!(object().is_equal(Some(&other)), unary(Selector::IsEqual, 0xcd00));
}

#[test]
fn is_equal_to_nothing_carries_nil() {
    assert_eq!(object().is_equal(None), unary(Selector::IsEqual, 0));
}

#[test]
fn hash_message() {
    assert_eq!(object().hash(), nullary(Selector::Hash));
}

#[test]
fn is_kind_of_class_message() {
    let class = Class::from_address(0x3300).unwrap();
    assert_eq!(object().is_kind_of_class(&class), unary(Selector::IsKindOfClass, 0x3300));
}

#[test]
fn is_member_of_class_message() {
    let class = Class::from_address(0x3300).unwrap();
    assert_eq!(object().is_member_of_class(&class), unary(Selector::IsMemberOfClass, 0x3300));
}

#[test]
fn responds_to_selector_message() {
    let sel = Sel::from_address(0x4400);
    assert_eq!(
        object().responds_to_selector(sel),
        unary(Selector::RespondsToSelector, 0x4400)
    );
}

#[test]
fn description_message() {
    assert_eq!(object().description(), nullary(Selector::Description));
}

#[test]
fn debug_description_message() {
    assert_eq!(object().debug_description(), nullary(Selector::DebugDescription));
}

#[test]
fn messages_of_the_root_class_are_well_formed() {
    let other = AnyObject::from_address(0xcd00).unwrap();
    let class = Class::from_address(0x3300).unwrap();
    let messages = vec![
        object().instance_class(),
        object().instance_superclass(),
        object().is_equal(Some(&other)),
        object().is_equal(None),
        object().hash(),
        object().is_kind_of_class(&class),
        object().is_member_of_class(&class),
        object().responds_to_selector(Sel::from_address(0)),
        object().description(),
        object().debug_description(),
    ];
    for message in messages {
        assert!(message.is_well_formed(), "{:?}", message);
        assert_eq!(message.receiver, 0xab00);
    }
}

#[test]
fn a_responder_inherits_every_method_of_the_root_class() {
    let responder = NSResponder::from_address(0xab00).unwrap();
    let other = AnyObject::from_address(0xcd00).unwrap();
    let class = Class::from_address(0x3300).unwrap();
    let sel = Sel::from_address(0x4400);
    assert_eq!(responder.instance_class(), object().instance_class());
    assert_eq!(responder.instance_superclass(), object().instance_superclass());
    assert_eq!(responder.is_equal(Some(&other)), object().is_equal(Some(&other)));
    assert_eq!(responder.is_equal(None), object().is_equal(None));
    assert_eq!(responder.hash(), object().hash());
    assert_eq!(responder.is_kind_of_class(&class), object().is_kind_of_class(&class));
    assert_eq!(responder.is_member_of_class(&class), object().is_member_of_class(&class));
    assert_eq!(responder.responds_to_selector(sel), object().responds_to_selector(sel));
    assert_eq!(responder.description(), object().description());
    assert_eq!(responder.debug_description(), object().debug_description());
}

#[test]
fn an_event_inherits_the_methods_of_the_root_class() {
    let event = NSEvent::from_address(0xab00).unwrap();
    assert_eq!(event.hash(), object().hash());
    assert_eq!(event.description(), object().description());
}
