//! Errors of the playback pipeline, and how they reach the user.

use crate::entity::EventMessage;
use crossbeam::channel::SendError;
use vstd::prelude::*;

verus! {

/// Why a command failed.
#[derive(Clone, Copy, Debug, PartialEq, Eq, Structural)]
pub enum PlayerError {
    /// The container could not be opened or parsed
    OpenFailed,
    /// The container holds no audio or video stream with frames
    NoPlayableStream,
    /// No decoder exists for the primary stream
    NoDecoder,
    /// A previous task did not terminate cleanly before a new one started
    JoinFailed,
    /// Reading the container failed during playback
    ReadFailed,
}

#[verifier::external_type_specification]
#[verifier::external_body]
#[verifier::reject_recursive_types(T)]
pub struct ExSendError<T>(SendError<T>);

impl PlayerError {
    pub open spec fn message_of(self) -> Seq<char> {
        match self {
            PlayerError::OpenFailed => "the media file could not be opened"@,
            PlayerError::NoPlayableStream => "the media file holds no audio or video"@,
            PlayerError::NoDecoder => "no decoder is available for this media"@,
            PlayerError::JoinFailed => "the previous playback did not stop cleanly"@,
            PlayerError::ReadFailed => "the media file could not be read"@,
        }
    }

    /// The text shown to the user.
    pub fn message(&self) -> (r: String)
        ensures
            r@ == self.message_of(),
    {
        match self {
            PlayerError::OpenFailed => "the media file could not be opened".to_owned(),
            PlayerError::NoPlayableStream => "the media file holds no audio or video".to_owned(),
            PlayerError::NoDecoder => "no decoder is available for this media".to_owned(),
            PlayerError::JoinFailed => "the previous playback did not stop cleanly".to_owned(),
            PlayerError::ReadFailed => "the media file could not be read".to_owned(),
        }
    }
}

/// Takes the value of a result; an error instead becomes the message that
/// shows it to the user, for the caller to send.
pub fn handle_result<T>(result: Result<T, PlayerError>) -> (r: (Option<T>, Option<EventMessage>))
    ensures
        match result {
            Ok(t) => r.0 == Some(t) && r.1 is None,
            Err(e) => r.0 is None && (r.1 matches Some(EventMessage::ShowError(s)) && s@
                == e.message_of()),
        },
{
    match result {
        Ok(t) => (Some(t), None),
        Err(e) => (None, Some(EventMessage::ShowError(e.message()))),
    }
}

/// Whether an event reached its receiver. An undelivered event is not an
/// error of playback, which goes on.
pub fn handle_send_result<T>(result: Result<(), SendError<T>>) -> (delivered: bool)
    ensures
        delivered == result is Ok,
{
    match result {
        Ok(()) => true,
        Err(_) => false,
    }
}

} // verus!
