//! Messages as they come off the bus.
use crate::dyn_map::DynMap;
use vstd::prelude::*;

verus! {

/// The kind of a bus message.
#[derive(Debug, Clone, Copy, PartialEq, Eq, Structural)]
pub enum MessageType {
    MethodCall,
    MethodReturn,
    Error,
    Signal,
}

/// One argument of a message, as far as it can be read: as text, as an unsigned number, and as a
/// container of further arguments. A variant is a container of one, and a dictionary has its keys
/// and values in turn.
#[derive(Debug)]
pub struct Arg {
    pub text: Option<String>,
    pub number: Option<u64>,
    pub items: Option<Vec<Arg>>,
}

/// A message taken off the bus.
#[derive(Debug)]
pub struct Message<P> {
    pub msg_type: MessageType,
    /// The serial of the message that this one answers.
    pub reply_serial: Option<u32>,
    pub sender: Option<String>,
    pub path: Option<String>,
    pub interface: Option<String>,
    pub member: Option<String>,
    /// The first argument, where it is an object path.
    pub path_arg: Option<String>,
    /// The first two arguments, where they are a number and a dictionary from text to variants;
    /// otherwise what is wrong with them.
    pub response: Result<(u32, DynMap<Arg>), String>,
    /// What the message was converted from.
    pub payload: P,
}

} // verus!
