//! Classification of a method's receiver.
use vstd::prelude::*;
use crate::ast::Receiver;
use crate::diagnostic::Reason;

verus! {

#[derive(Clone, Copy, Debug, PartialEq, Eq, Structural)]
pub enum ReceiverMode {
    Static,
    RefImmutable,
    RefMutable,
    RefWithLifetime,
    ByValue,
    Explicit,
}

/// The mode of a receiver, read off its syntax alone.
pub open spec fn receiver_mode(r: Receiver) -> ReceiverMode {
    match r {
        Receiver::Absent => ReceiverMode::Static,
        Receiver::Ref { lifetime, mutable } => {
            if lifetime is Some {
                ReceiverMode::RefWithLifetime
            } else if mutable {
                ReceiverMode::RefMutable
            } else {
                ReceiverMode::RefImmutable
            }
        },
        Receiver::Value => ReceiverMode::ByValue,
        Receiver::Explicit => ReceiverMode::Explicit,
    }
}

/// For an accepted mode, the number of leading receiver arguments the
/// wrapper supplies; for a rejected one, why it is rejected.
pub open spec fn mode_skip(m: ReceiverMode) -> Result<usize, Reason> {
    match m {
        ReceiverMode::Static => Ok(0),
        ReceiverMode::RefImmutable | ReceiverMode::RefMutable => Ok(1),
        ReceiverMode::RefWithLifetime => Err(Reason::ReceiverLifetime),
        ReceiverMode::ByValue => Err(Reason::ReceiverByValue),
        ReceiverMode::Explicit => Err(Reason::ReceiverExplicit),
    }
}

pub fn classify_receiver(r: &Receiver) -> (m: ReceiverMode)
    ensures
        m == receiver_mode(*r),
{
    match r {
        Receiver::Absent => ReceiverMode::Static,
        Receiver::Ref { lifetime, mutable } => {
            if lifetime.is_some() {
                ReceiverMode::RefWithLifetime
            } else if *mutable {
                ReceiverMode::RefMutable
            } else {
                ReceiverMode::RefImmutable
            }
        },
        Receiver::Value => ReceiverMode::ByValue,
        Receiver::Explicit => ReceiverMode::Explicit,
    }
}

pub fn receiver_skip(m: ReceiverMode) -> (r: Result<usize, Reason>)
    ensures
        r == mode_skip(m),
{
    match m {
        ReceiverMode::Static => Ok(0),
        ReceiverMode::RefImmutable | ReceiverMode::RefMutable => Ok(1),
        ReceiverMode::RefWithLifetime => Err(Reason::ReceiverLifetime),
        ReceiverMode::ByValue => Err(Reason::ReceiverByValue),
        ReceiverMode::Explicit => Err(Reason::ReceiverExplicit),
    }
}

} // verus!
