use sorbet_cocoa::{Message, Selector};

#[test]
fn nullary_has_no_argument() {
    assert_eq!(
        Message::nullary(7, Selector::Hash),
        Message { receiver: 7, selector: Selector::Hash, arguments: vec![] }
    );
}

#[test]
fn unary_has_one_argument() {
    assert_eq!(
        Message::unary(7, Selector::MouseUp, 9),
        Message { receiver: 7, selector: Selector::MouseUp, arguments: vec![9] }
    );
}

#[test]
fn binary_keeps_the_order_of_its_arguments() {
    assert_eq!(
        Message::binary(7, Selector::ValidateProposedFirstResponderForEvent, 9, 11),
        Message {
            receiver: 7,
            selector: Selector::ValidateProposedFirstResponderForEvent,
            arguments: vec![9, 11],
        }
    );
}

#[test]
fn a_message_to_nil_is_not_well_formed() {
    assert!(!Message::nullary(0, Selector::Hash).is_well_formed());
    assert!(Message::nullary(1, Selector::Hash).is_well_formed());
}

#[test]
fn a_message_with_too_few_or_too_many_arguments_is_not_well_formed() {
    assert!(!Message::nullary(1, Selector::MouseDown).is_well_formed());
    assert!(Message::unary(1, Selector::MouseDown, 2).is_well_formed());
    assert!(!Message::binary(1, Selector::MouseDown, 2, 3).is_well_formed());
    assert!(!Message::unary(1, Selector::Hash, 2).is_well_formed());
    assert!(!Message::unary(1, Selector::ValidateProposedFirstResponderForEvent, 2).is_well_formed());
    assert!(Message::binary(1, Selector::ValidateProposedFirstResponderForEvent, 2, 0)
        .is_well_formed());
}
