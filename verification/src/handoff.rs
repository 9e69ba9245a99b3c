//! Handing values back from the audio callback to the editor thread over a
//! lock-free ring buffer, without blocking and without losing a value when the
//! buffer is full.
use rtrb::{Producer, PushError};
use vstd::prelude::*;

verus! {

#[verifier::external_type_specification]
#[verifier::external_body]
#[verifier::reject_recursive_types(T)]
pub struct ExProducer<T>(Producer<T>);

/// `rtrb::Producer::push`: when the ring buffer has a free slot the value is
/// moved into it and nothing comes back; when it is full the very same value is
/// handed back. Whether a slot is free depends on the consuming thread, so the
/// contract does not say which of the two happens, nor what the buffer holds.
#[verifier::external_body]
fn push_or_return<T>(queue: &mut Producer<T>, value: T) -> (back: Option<T>)
    ensures
        back matches Some(v) ==> v == value,
{
    match queue.push(value) {
        Ok(()) => None,
        Err(PushError::Full(v)) => Some(v),
    }
}

/// The producing end of a queue that hands values to another thread, with
/// the values the queue has accepted through it so far.
#[verifier::reject_recursive_types(T)]
pub struct Handoff<T> {
    producer: Producer<T>,
    accepted: Ghost<Seq<T>>,
}

impl<T> Handoff<T> {
    /// The values the queue has accepted through this end, oldest first.
    pub closed spec fn accepted(&self) -> Seq<T> {
        self.accepted@
    }

    /// The producing end of a queue, before anything was offered to it.
    pub fn new(producer: Producer<T>) -> (r: Self)
        ensures
            r.accepted() == Seq::<T>::empty(),
    {
        Handoff { producer, accepted: Ghost(Seq::empty()) }
    }

    /// Offers a value to the queue: either it is accepted, and nothing comes
    /// back, or the queue is full and the very same value comes back.
    pub fn offer(&mut self, value: T) -> (back: Option<T>)
        ensures
            back is None ==> final(self).accepted() == old(self).accepted().push(value),
            back matches Some(v) ==> v == value && final(self).accepted() == old(self).accepted(),
    {
        let ghost v = value;
        let back = push_or_return(&mut self.producer, value);
        if back.is_none() {
            proof {
                self.accepted@ = self.accepted@.push(v);
            }
        }
        back
    }
}

/// Offers a held retired value to the return queue. Either the queue takes it
/// and nothing is held any more, or the queue is full and the same value stays
/// held for the next callback. Nothing is done when no value is held.
pub fn return_retired_track<T>(retired_output: &mut Handoff<T>, retired: &mut Option<T>)
    ensures
        *old(retired) is None ==> *final(retired) is None && final(retired_output).accepted() == old(retired_output).accepted(),
        *old(retired) matches Some(v) ==> if *final(retired) is None {
            final(retired_output).accepted() == old(retired_output).accepted().push(v)
        } else {
            *final(retired) == *old(retired) && final(retired_output).accepted() == old(retired_output).accepted()
        },
{
    if retired.is_some() {
        let track = retired.take().unwrap();
        let back = retired_output.offer(track);
        *retired = back;
    }
}

/// A command for the audio thread was dropped because its queue was full.
#[derive(Clone, Copy, Debug, PartialEq, Eq, Structural)]
pub struct AudioCommandRejected;

/// Asks the audio thread to start or stop playback: the command is accepted
/// by the queue, or refused, and dropped, when the queue is full; whether it
/// is depends on how far the audio thread has read.
pub fn set_playing(play_pending: &mut Handoff<bool>, playing: bool) -> (r: Result<(), AudioCommandRejected>)
    ensures
        r is Ok ==> final(play_pending).accepted() == old(play_pending).accepted().push(playing),
        r is Err ==> final(play_pending).accepted() == old(play_pending).accepted(),
{
    match play_pending.offer(playing) {
        None => Ok(()),
        Some(_) => Err(AudioCommandRejected),
    }
}

} // verus!
