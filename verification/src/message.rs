//! Messages between the host and the audio thread.
use vstd::prelude::*;

verus! {

/// A message together with the identifier under which its sender waits for the answer.
#[derive(Debug, Clone)]
pub struct AudioThreadEventMessage<T> {
    pub callback_id: String,
    pub data: Option<T>,
}

impl<T> AudioThreadEventMessage<T> {
    /// Makes a message.
    pub fn new(callback_id: String, data: Option<T>) -> (message: Self)
        ensures
            message.callback_id == callback_id,
            message.data == data,
    {
        Self { callback_id, data }
    }

    /// Makes the answer to this message that carries `new_data`.
    pub fn to<D>(self, new_data: D) -> (answer: AudioThreadEventMessage<D>)
        ensures
            answer.callback_id == self.callback_id,
            answer.data == Some(new_data),
    {
        AudioThreadEventMessage { callback_id: self.callback_id, data: Some(new_data) }
    }

    /// Makes the answer to this message that carries nothing.
    pub fn to_none<D>(self) -> (answer: AudioThreadEventMessage<D>)
        ensures
            answer.callback_id == self.callback_id,
            answer.data == None::<D>,
    {
        AudioThreadEventMessage { callback_id: self.callback_id, data: None }
    }
}

} // verus!
