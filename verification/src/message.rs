//! Messages: a receiver, a selector, and one machine word for each argument.

use crate::object::NIL;
use vstd::prelude::*;

verus! {

/// Whether a reply of the runtime's boolean type is a yes: every value but
/// zero is.
pub fn into_bool(value: i8) -> (yes: bool)
    ensures
        yes == (value != 0),
{
    value != 0
}

/// The selectors that the classes of this library send, each with the name
/// under which the runtime registers it.
#[derive(Clone, Copy, Debug, PartialEq, Eq, Structural)]
pub enum Selector {
    /// `class`
    Class,
    /// `superclass`
    Superclass,
    /// `isEqual:`
    IsEqual,
    /// `hash`
    Hash,
    /// `isKindOfClass:`
    IsKindOfClass,
    /// `isMemberOfClass:`
    IsMemberOfClass,
    /// `respondsToSelector:`
    RespondsToSelector,
    /// `description`
    Description,
    /// `debugDescription`
    DebugDescription,
    /// `acceptsFirstResponder`
    AcceptsFirstResponder,
    /// `becomeFirstResponder`
    BecomeFirstResponder,
    /// `resignFirstResponder`
    ResignFirstResponder,
    /// `validateProposedFirstResponder:forEvent:`
    ValidateProposedFirstResponderForEvent,
    /// `nextResponder`
    NextResponder,
    /// `setNextResponder:`
    SetNextResponder,
    /// `mouseDown:`
    MouseDown,
    /// `mouseDragged:`
    MouseDragged,
    /// `mouseUp:`
    MouseUp,
    /// `mouseMoved:`
    MouseMoved,
    /// `mouseEntered:`
    MouseEntered,
    /// `mouseExited:`
    MouseExited,
    /// `rightMouseDown:`
    RightMouseDown,
    /// `rightMouseDragged:`
    RightMouseDragged,
    /// `rightMouseUp:`
    RightMouseUp,
    /// `otherMouseDown:`
    OtherMouseDown,
    /// `otherMouseDragged:`
    OtherMouseDragged,
    /// `otherMouseUp:`
    OtherMouseUp,
}

/// What the runtime answers to a message, by kind.
#[derive(Clone, Copy, Debug, PartialEq, Eq, Structural)]
pub enum Reply {
    /// Nothing to read.
    Nothing,
    /// A value of the runtime's boolean type, which `into_bool` reads.
    Boolean,
    /// A machine word.
    Word,
    /// The address of an object, or nil.
    Object,
    /// The address of a class, or nil.
    Class,
}

/// How many of the first `n` characters of `name` are colons.
pub open spec fn colons_among(name: Seq<char>, n: int) -> nat
    decreases n,
{
    if n <= 0 {
        0
    } else {
        colons_among(name, n - 1) + if name[n - 1] == ':' {
            1nat
        } else {
            0nat
        }
    }
}

/// How many colons `name` holds: the runtime takes one argument for each.
pub open spec fn colons(name: Seq<char>) -> nat {
    colons_among(name, name.len() as int)
}

impl Selector {
    /// The name under which the runtime registers the selector.
    pub open spec fn name_spec(self) -> Seq<char> {
        match self {
            Selector::Class => "class"@,
            Selector::Superclass => "superclass"@,
            Selector::IsEqual => "isEqual:"@,
            Selector::Hash => "hash"@,
            Selector::IsKindOfClass => "isKindOfClass:"@,
            Selector::IsMemberOfClass => "isMemberOfClass:"@,
            Selector::RespondsToSelector => "respondsToSelector:"@,
            Selector::Description => "description"@,
            Selector::DebugDescription => "debugDescription"@,
            Selector::AcceptsFirstResponder => "acceptsFirstResponder"@,
            Selector::BecomeFirstResponder => "becomeFirstResponder"@,
            Selector::ResignFirstResponder => "resignFirstResponder"@,
            Selector::ValidateProposedFirstResponderForEvent => "validateProposedFirstResponder:forEvent:"@,
            Selector::NextResponder => "nextResponder"@,
            Selector::SetNextResponder => "setNextResponder:"@,
            Selector::MouseDown => "mouseDown:"@,
            Selector::MouseDragged => "mouseDragged:"@,
            Selector::MouseUp => "mouseUp:"@,
            Selector::MouseMoved => "mouseMoved:"@,
            Selector::MouseEntered => "mouseEntered:"@,
            Selector::MouseExited => "mouseExited:"@,
            Selector::RightMouseDown => "rightMouseDown:"@,
            Selector::RightMouseDragged => "rightMouseDragged:"@,
            Selector::RightMouseUp => "rightMouseUp:"@,
            Selector::OtherMouseDown => "otherMouseDown:"@,
            Selector::OtherMouseDragged => "otherMouseDragged:"@,
            Selector::OtherMouseUp => "otherMouseUp:"@,
        }
    }

    /// The number of arguments that a message with the selector carries.
    pub open spec fn arity_spec(self) -> nat {
        match self {
            Selector::Class
            | Selector::Superclass
            | Selector::Hash
            | Selector::Description
            | Selector::DebugDescription
            | Selector::AcceptsFirstResponder
            | Selector::BecomeFirstResponder
            | Selector::ResignFirstResponder
            | Selector::NextResponder => 0,
            Selector::ValidateProposedFirstResponderForEvent => 2,
            _ => 1,
        }
    }

    /// The kind of reply that the runtime gives to a message with the selector.
    pub open spec fn reply_spec(self) -> Reply {
        match self {
            Selector::Class | Selector::Superclass => Reply::Class,
            Selector::Hash => Reply::Word,
            Selector::Description | Selector::DebugDescription | Selector::NextResponder => {
                Reply::Object
            },
            Selector::IsEqual
            | Selector::IsKindOfClass
            | Selector::IsMemberOfClass
            | Selector::RespondsToSelector
            | Selector::AcceptsFirstResponder
            | Selector::BecomeFirstResponder
            | Selector::ResignFirstResponder
            | Selector::ValidateProposedFirstResponderForEvent => Reply::Boolean,
            _ => Reply::Nothing,
        }
    }

    /// The name under which the runtime registers the selector.
    pub fn name(&self) -> (name: &'static str)
        ensures
            name@ == self.name_spec(),
    {
        match self {
            Selector::Class => "class",
            Selector::Superclass => "superclass",
            Selector::IsEqual => "isEqual:",
            Selector::Hash => "hash",
            Selector::IsKindOfClass => "isKindOfClass:",
            Selector::IsMemberOfClass => "isMemberOfClass:",
            Selector::RespondsToSelector => "respondsToSelector:",
            Selector::Description => "description",
            Selector::DebugDescription => "debugDescription",
            Selector::AcceptsFirstResponder => "acceptsFirstResponder",
            Selector::BecomeFirstResponder => "becomeFirstResponder",
            Selector::ResignFirstResponder => "resignFirstResponder",
            Selector::ValidateProposedFirstResponderForEvent => "validateProposedFirstResponder:forEvent:",
            Selector::NextResponder => "nextResponder",
            Selector::SetNextResponder => "setNextResponder:",
            Selector::MouseDown => "mouseDown:",
            Selector::MouseDragged => "mouseDragged:",
            Selector::MouseUp => "mouseUp:",
            Selector::MouseMoved => "mouseMoved:",
            Selector::MouseEntered => "mouseEntered:",
            Selector::MouseExited => "mouseExited:",
            Selector::RightMouseDown => "rightMouseDown:",
            Selector::RightMouseDragged => "rightMouseDragged:",
            Selector::RightMouseUp => "rightMouseUp:",
            Selector::OtherMouseDown => "otherMouseDown:",
            Selector::OtherMouseDragged => "otherMouseDragged:",
            Selector::OtherMouseUp => "otherMouseUp:",
        }
    }

    /// The number of arguments that a message with the selector carries.
    pub fn arity(&self) -> (arity: usize)
        ensures
            arity == self.arity_spec(),
    {
        match self {
            Selector::Class
            | Selector::Superclass
            | Selector::Hash
            | Selector::Description
            | Selector::DebugDescription
            | Selector::AcceptsFirstResponder
            | Selector::BecomeFirstResponder
            | Selector::ResignFirstResponder
            | Selector::NextResponder => 0,
            Selector::ValidateProposedFirstResponderForEvent => 2,
            _ => 1,
        }
    }

    /// The kind of reply that the runtime gives to a message with the selector.
    pub fn reply(&self) -> (reply: Reply)
        ensures
            reply == self.reply_spec(),
    {
        match self {
            Selector::Class | Selector::Superclass => Reply::Class,
            Selector::Hash => Reply::Word,
            Selector::Description | Selector::DebugDescription | Selector::NextResponder => {
                Reply::Object
            },
            Selector::IsEqual
            | Selector::IsKindOfClass
            | Selector::IsMemberOfClass
            | Selector::RespondsToSelector
            | Selector::AcceptsFirstResponder
            | Selector::BecomeFirstResponder
            | Selector::ResignFirstResponder
            | Selector::ValidateProposedFirstResponderForEvent => Reply::Boolean,
            _ => Reply::Nothing,
        }
    }

    /// No two selectors share a name.
    pub proof fn lemma_name_identifies(self, other: Selector)
        requires
            self.name_spec() == other.name_spec(),
        ensures
            self == other,
    {
        reveal_strlit("class");
        reveal_strlit("superclass");
        reveal_strlit("isEqual:");
        reveal_strlit("hash");
        reveal_strlit("isKindOfClass:");
        reveal_strlit("isMemberOfClass:");
        reveal_strlit("respondsToSelector:");
        reveal_strlit("description");
        reveal_strlit("debugDescription");
        reveal_strlit("acceptsFirstResponder");
        reveal_strlit("becomeFirstResponder");
        reveal_strlit("resignFirstResponder");
        reveal_strlit("validateProposedFirstResponder:forEvent:");
        reveal_strlit("nextResponder");
        reveal_strlit("setNextResponder:");
        reveal_strlit("mouseDown:");
        reveal_strlit("mouseDragged:");
        reveal_strlit("mouseUp:");
        reveal_strlit("mouseMoved:");
        reveal_strlit("mouseEntered:");
        reveal_strlit("mouseExited:");
        reveal_strlit("rightMouseDown:");
        reveal_strlit("rightMouseDragged:");
        reveal_strlit("rightMouseUp:");
        reveal_strlit("otherMouseDown:");
        reveal_strlit("otherMouseDragged:");
        reveal_strlit("otherMouseUp:");
        // The length of a name with its first and its sixth character tells it
        // from every other.
        let name = self.name_spec();
        let same = other.name_spec();
        assert(name.len() == same.len() && name[0] == same[0] && name[5] == same[5]);
    }

    /// A selector takes as many arguments as its name has colons.
    pub proof fn lemma_arity_counts_colons(self)
        ensures
            colons(self.name_spec()) == self.arity_spec(),
    {
        reveal_with_fuel(colons_among, 44);
        match self {
            Selector::Class => reveal_strlit("class"),
            Selector::Superclass => reveal_strlit("superclass"),
            Selector::IsEqual => reveal_strlit("isEqual:"),
            Selector::Hash => reveal_strlit("hash"),
            Selector::IsKindOfClass => reveal_strlit("isKindOfClass:"),
            Selector::IsMemberOfClass => reveal_strlit("isMemberOfClass:"),
            Selector::RespondsToSelector => reveal_strlit("respondsToSelector:"),
            Selector::Description => reveal_strlit("description"),
            Selector::DebugDescription => reveal_strlit("debugDescription"),
            Selector::AcceptsFirstResponder => reveal_strlit("acceptsFirstResponder"),
            Selector::BecomeFirstResponder => reveal_strlit("becomeFirstResponder"),
            Selector::ResignFirstResponder => reveal_strlit("resignFirstResponder"),
            Selector::ValidateProposedFirstResponderForEvent => reveal_strlit(
                "validateProposedFirstResponder:forEvent:",
            ),
            Selector::NextResponder => reveal_strlit("nextResponder"),
            Selector::SetNextResponder => reveal_strlit("setNextResponder:"),
            Selector::MouseDown => reveal_strlit("mouseDown:"),
            Selector::MouseDragged => reveal_strlit("mouseDragged:"),
            Selector::MouseUp => reveal_strlit("mouseUp:"),
            Selector::MouseMoved => reveal_strlit("mouseMoved:"),
            Selector::MouseEntered => reveal_strlit("mouseEntered:"),
            Selector::MouseExited => reveal_strlit("mouseExited:"),
            Selector::RightMouseDown => reveal_strlit("rightMouseDown:"),
            Selector::RightMouseDragged => reveal_strlit("rightMouseDragged:"),
            Selector::RightMouseUp => reveal_strlit("rightMouseUp:"),
            Selector::OtherMouseDown => reveal_strlit("otherMouseDown:"),
            Selector::OtherMouseDragged => reveal_strlit("otherMouseDragged:"),
            Selector::OtherMouseUp => reveal_strlit("otherMouseUp:"),
        }
    }
}

/// A message to an object: who receives it, what it asks, and with which
/// arguments, each a machine word.
#[derive(Debug, PartialEq, Eq)]
pub struct Message {
    pub receiver: usize,
    pub selector: Selector,
    pub arguments: Vec<usize>,
}

/// What a message says.
pub struct MessageView {
    pub receiver: usize,
    pub selector: Selector,
    pub arguments: Seq<usize>,
}

impl MessageView {
    /// A message without arguments.
    pub open spec fn nullary(receiver: usize, selector: Selector) -> MessageView {
        MessageView { receiver, selector, arguments: seq![] }
    }

    /// A message with one argument.
    pub open spec fn unary(receiver: usize, selector: Selector, argument: usize) -> MessageView {
        MessageView { receiver, selector, arguments: seq![argument] }
    }

    /// A message with two arguments.
    pub open spec fn binary(
        receiver: usize,
        selector: Selector,
        first: usize,
        second: usize,
    ) -> MessageView {
        MessageView { receiver, selector, arguments: seq![first, second] }
    }

    /// A message that the runtime can deliver: it has a receiver, and as many
    /// arguments as its selector takes.
    pub open spec fn well_formed(self) -> bool {
        &&& self.receiver != NIL
        &&& self.arguments.len() == self.selector.arity_spec()
    }
}

impl Message {
    /// A message without arguments.
    pub fn nullary(receiver: usize, selector: Selector) -> (message: Message)
        ensures
            message@ == MessageView::nullary(receiver, selector),
    {
        let arguments: Vec<usize> = Vec::new();
        assert(arguments@ =~= seq![]);
        Message { receiver, selector, arguments }
    }

    /// A message with one argument.
    pub fn unary(receiver: usize, selector: Selector, argument: usize) -> (message: Message)
        ensures
            message@ == MessageView::unary(receiver, selector, argument),
    {
        let mut arguments: Vec<usize> = Vec::new();
        arguments.push(argument);
        assert(arguments@ =~= seq![argument]);
        Message { receiver, selector, arguments }
    }

    /// A message with two arguments.
    pub fn binary(
        receiver: usize,
        selector: Selector,
        first: usize,
        second: usize,
    ) -> (message: Message)
        ensures
            message@ == MessageView::binary(receiver, selector, first, second),
    {
        let mut arguments: Vec<usize> = Vec::new();
        arguments.push(first);
        arguments.push(second);
        assert(arguments@ =~= seq![first, second]);
        Message { receiver, selector, arguments }
    }

    /// Whether the runtime can deliver the message: it has a receiver, and as
    /// many arguments as its selector takes.
    pub fn is_well_formed(&self) -> (well_formed: bool)
        ensures
            well_formed == self@.well_formed(),
    {
        self.receiver != NIL && self.arguments.len() == self.selector.arity()
    }
}

impl View for Message {
    type V = MessageView;

    open spec fn view(&self) -> MessageView {
        MessageView {
            receiver: self.receiver,
            selector: self.selector,
            arguments: self.arguments@,
        }
    }
}

} // verus!
