//! What an application tells the engine of itself.
use vstd::prelude::*;
use crate::wire::message::{answers, spec_answers};

verus! {

/// An application that runs over the engine.
///
/// An implementation that is verified says what `spec_matches` is. One that
/// is not need not define it: it is then left unspecified, and what is
/// proved of an engine for it holds as far as `matches` is a function of its
/// arguments.
pub trait Application {
    /// Identifier that the application's data objects carry.
    const APPLICATION_ID: u16;

    /// Whether a service that describes itself by `info` answers the
    /// discovery query `req`.
    open spec fn spec_matches(info: Seq<u8>, req: Seq<u8>) -> bool {
        arbitrary()
    }

    /// Whether a service that describes itself by `info` answers the
    /// discovery query `req`.
    fn matches(info: &[u8], req: &[u8]) -> (r: bool)
        ensures
            r == Self::spec_matches(info@, req@),
    ;
}

/// The application without a name: the empty query asks for every service,
/// any other for the services with exactly that description.
pub struct Generic;

impl Application for Generic {
    const APPLICATION_ID: u16 = 0;

    open spec fn spec_matches(info: Seq<u8>, req: Seq<u8>) -> bool {
        spec_answers(info, req)
    }

    fn matches(info: &[u8], req: &[u8]) -> (r: bool) {
        answers(info, req)
    }
}

} // verus!
