//! What a command hands to the printer, and what the printer writes for it.

pub mod printer;

use vstd::prelude::*;

verus! {

/// The two ways in which a command speaks: a log tells how the work goes on,
/// the output is the result of the command.
#[derive(Clone, Copy, Debug, PartialEq, Eq, Structural)]
pub enum Channel {
    Log,
    Out,
}

/// One item handed to the printer.
#[derive(Clone, Debug, PartialEq, Eq)]
pub struct Message {
    pub channel: Channel,
    pub text: String,
}

impl View for Message {
    type V = (Channel, Seq<char>);

    open spec fn view(&self) -> (Channel, Seq<char>) {
        (self.channel, self.text@)
    }
}

/// A log item with the given text.
pub open spec fn log(text: Seq<char>) -> (Channel, Seq<char>) {
    (Channel::Log, text)
}

/// An output item with the given text.
pub open spec fn out(text: Seq<char>) -> (Channel, Seq<char>) {
    (Channel::Out, text)
}

/// A list of items as a mathematical value.
pub open spec fn messages_view(v: Seq<Message>) -> Seq<(Channel, Seq<char>)> {
    Seq::new(v.len(), |i: int| v[i]@)
}

impl Message {
    pub fn log(text: String) -> (r: Message)
        ensures
            r@ == log(text@),
    {
        Message { channel: Channel::Log, text }
    }

    pub fn out(text: String) -> (r: Message)
        ensures
            r@ == out(text@),
    {
        Message { channel: Channel::Out, text }
    }
}

/// Appends one item to a list.
pub fn push_message(list: &mut Vec<Message>, message: Message)
    ensures
        messages_view(final(list)@) == messages_view(old(list)@).push(message@),
{
    list.push(message);
}

} // verus!
