//! The data handed to user handlers: each extractor pulls one typed value
//! out of the literal inbound message or out of the ambient state.

use vstd::prelude::*;

use crate::packet::{Publish, QoS};

verus! {

/// A handler argument drawn from the user's shared state.
pub struct State<S>(pub S);

/// How a handler argument of one type is produced from shared state of
/// another: the identity for the state type itself, custom impls let one
/// outer state yield many inner ones.
pub trait FromState<S>: Sized {
    fn from_state(state: &S) -> Self;
}

impl<S: Clone> FromState<S> for S {
    fn from_state(state: &S) -> S {
        state.clone()
    }
}

/// A handler argument holding the message's topic.
pub struct Topic(pub String);

impl Topic {
    /// The topic of the literal message being dispatched.
    pub fn from_publish(publish: &Publish) -> (r: Topic)
        ensures
            r.0@ == publish@.topic,
    {
        Topic(publish.topic.clone())
    }
}

/// A handler argument holding the payload deserialized as JSON; the
/// deserializing itself is the caller's collaborator.
pub struct Json<T>(pub T);

/// The delivery level of the literal message being dispatched.
pub fn qos_of(publish: &Publish) -> (r: QoS)
    ensures
        r == publish@.qos,
{
    publish.qos
}

/// The raw payload of the literal message being dispatched.
pub fn payload_of(publish: &Publish) -> (r: Vec<u8>)
    ensures
        r@ == publish@.payload,
{
    let payload = publish.payload.clone();
    proof {
        assert(payload@ =~= publish.payload@);
    }
    payload
}

} // verus!
