//! The outbound leg of the recording round trip.
//!
//! While a recording is active, every chunk of captured bytes becomes
//! exactly one outbound "record" stream message, with the bytes
//! unchanged, in the order captured; once recording stops, chunks
//! produce nothing.

use vstd::prelude::*;

use crate::protocol::StreamMsg;

verus! {

/// The tag of every outbound recording stream message.
pub const RECORD_STREAM_TAG: &'static str = "record";

/// Whether captured audio is currently flowing outward.
pub struct RecorderState {
    pub active: bool,
}

impl RecorderState {
    /// A fresh recorder: not recording.
    pub fn new() -> (r: RecorderState)
        ensures
            !r.active,
    {
        RecorderState { active: false }
    }

    /// A `start_recording` request took effect.
    pub fn start(&mut self)
        ensures
            final(self).active,
    {
        self.active = true;
    }

    /// A `stop_recording` request took effect: chunks arriving after
    /// this produce no messages.
    pub fn stop(&mut self)
        ensures
            !final(self).active,
    {
        self.active = false;
    }

    /// Turn one captured chunk into its outbound message: exactly one,
    /// tagged "record", bytes unchanged — or none at all when recording
    /// has stopped.
    pub fn on_chunk(&self, bytes: Vec<u8>) -> (r: Option<StreamMsg>)
        ensures
            self.active ==> (r matches Some(m) && m.tag@ == RECORD_STREAM_TAG@ && m.bytes@
                == bytes@),
            !self.active ==> r is None,
    {
        if self.active {
            Some(StreamMsg { tag: RECORD_STREAM_TAG.to_owned(), bytes })
        } else {
            None
        }
    }
}

/// The outbound messages of one recording session, as (tag, bytes)
/// pairs: one per captured chunk, in capture order.
pub open spec fn spec_record_messages(chunks: Seq<Seq<u8>>) -> Seq<(Seq<char>, Seq<u8>)> {
    chunks.map_values(|b: Seq<u8>| (RECORD_STREAM_TAG@, b))
}

/// Round trip of a recording session: the chunks captured between
/// `start_recording` and `stop_recording` produce exactly one outbound
/// stream message each, all tagged identically with "record", carrying
/// the captured bytes unchanged and in capture order.
pub proof fn lemma_record_round_trip(chunks: Seq<Seq<u8>>)
    ensures
        spec_record_messages(chunks).len() == chunks.len(),
        forall|i: int|
            0 <= i < chunks.len() ==> #[trigger] spec_record_messages(chunks)[i] == (
            RECORD_STREAM_TAG@,
            chunks[i],
            ),
{
}

} // verus!
