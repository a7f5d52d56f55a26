use vstd::prelude::*;

verus! {

/// One job of a command request: the job class to run and its arguments.
pub struct SendJob<T> {
    pub class_name: String,
    pub args: T,
}

/// A command request: the jobs to run, and the message that describes the
/// command.
pub struct SendCmd<T> {
    pub jobs: Vec<SendJob<T>>,
    pub message: String,
}

} // verus!
