//! A handle for running work in the background and getting its result back
//! as a message on a channel.

use vstd::prelude::*;

verus! {

/// The sending end of a channel.
#[verifier::external_type_specification]
#[verifier::external_body]
#[verifier::reject_recursive_types(T)]
pub struct ExSender<T>(std::sync::mpsc::Sender<T>);

/// Background work whose results are sent on `sender`.
#[verifier::reject_recursive_types(T)]
pub struct Task<T> {
    sender: std::sync::mpsc::Sender<T>,
}

impl<T: Send + 'static> Task<T> {
    /// The channel that results are sent on.
    pub closed spec fn channel(&self) -> std::sync::mpsc::Sender<T> {
        self.sender
    }

    /// A task handle that sends its results on `sender`.
    pub fn new(sender: std::sync::mpsc::Sender<T>) -> (r: Self)
        ensures
            r.channel() == sender,
    {
        Task { sender }
    }

    /// The channel that results are sent on.
    pub fn sender(&self) -> (r: &std::sync::mpsc::Sender<T>)
        ensures
            *r == self.channel(),
    {
        &self.sender
    }
}

} // verus!
