//! Control signals exchanged between the threads, and the error that a
//! closed channel turns into.

use vstd::prelude::*;

verus! {

/// The error `Updater::update` of single_value_channel returns when the
/// receiving half is gone. Opaque here: only its presence is read.
#[verifier::external_type_specification]
#[verifier::external_body]
#[verifier::reject_recursive_types(T)]
pub struct ExNoReceiverError<T>(single_value_channel::NoReceiverError<T>);

/// The error `Sender::send` of std's mpsc returns when the receiving half
/// is gone. Opaque here: only its presence is read.
#[verifier::external_type_specification]
#[verifier::external_body]
#[verifier::reject_recursive_types(T)]
pub struct ExSendError<T>(std::sync::mpsc::SendError<T>);

/// Control signal from the window thread to the engine thread.
#[derive(Clone, Copy, Debug, PartialEq, Eq, Structural)]
pub enum EngineCommand {
    Run,
    Quit,
}

/// Control signal from the engine thread to the render thread.
#[derive(Clone, Copy, Debug, PartialEq, Eq, Structural)]
pub enum RenderThreadCommand {
    RenderFrame,
    Quit,
}

/// What stops the engine.
#[derive(Clone, Copy, Debug, PartialEq, Eq, Structural)]
pub enum EngineError {
    /// A channel to the render thread was found closed: the thread is gone.
    RenderThreadClosedPrematurely,
}

impl EngineError {
    /// The text shown for this error.
    pub fn message(&self) -> (text: String)
        ensures
            text@ == "render thread was closed prematurely"@,
    {
        match self {
            EngineError::RenderThreadClosedPrematurely => {
                "render thread was closed prematurely".to_owned()
            },
        }
    }
}

/// Turns the outcome of publishing on a value channel into the engine's
/// own result: a closed channel means the render thread is gone.
pub fn check_channel_updater_result<T>(
    thread_send_res: Result<(), single_value_channel::NoReceiverError<T>>,
) -> (checked: Result<(), EngineError>)
    ensures
        thread_send_res is Ok ==> checked == Ok::<(), EngineError>(()),
        thread_send_res is Err ==> checked == Err::<(), EngineError>(
            EngineError::RenderThreadClosedPrematurely,
        ),
{
    match thread_send_res {
        Ok(_) => Ok(()),
        Err(_) => Err(EngineError::RenderThreadClosedPrematurely),
    }
}

/// Turns the outcome of sending on a queue channel into the engine's own
/// result: a closed channel means the render thread is gone.
pub fn check_channel_sender_result<T>(
    thread_send_res: Result<(), std::sync::mpsc::SendError<T>>,
) -> (checked: Result<(), EngineError>)
    ensures
        thread_send_res is Ok ==> checked == Ok::<(), EngineError>(()),
        thread_send_res is Err ==> checked == Err::<(), EngineError>(
            EngineError::RenderThreadClosedPrematurely,
        ),
{
    match thread_send_res {
        Ok(_) => Ok(()),
        Err(_) => Err(EngineError::RenderThreadClosedPrematurely),
    }
}

} // verus!
