//! The transcript builder: assembling a domain-separated hash
//! transcript from caller-supplied labels and messages.
//!
//! A transcript is semantically the ordered sequence of byte strings
//! absorbed into it — the domain label first, then each (label,
//! message) pair in caller order. Two transcripts built from the same
//! sequence have the same hash state, which is all the signing and
//! verifying engines depend on.

use vstd::prelude::*;

use crate::backend::{transcript_append, transcript_entries, transcript_new};
use crate::error::Error;

verus! {

/// An externally supplied description of a transcript: a list holding
/// the domain-separation label (its first element; the list must be
/// non-empty), and parallel lists of entry labels and messages.
pub struct TranscriptData {
    /// The domain-separation label, as the first element.
    pub domain_separation_label: Vec<Vec<u8>>,
    /// The label of each appended entry, in order.
    pub labels: Vec<Vec<u8>>,
    /// The message of each appended entry, in order.
    pub messages: Vec<Vec<u8>>,
}

/// A sequence of byte vectors, viewed as a sequence of byte sequences.
pub open spec fn byte_seqs(v: Seq<Vec<u8>>) -> Seq<Seq<u8>> {
    Seq::new(v.len(), |i: int| v[i]@)
}

/// The first `n` (label, message) pairs, flattened in append order.
pub open spec fn interleaved(labels: Seq<Seq<u8>>, messages: Seq<Seq<u8>>, n: nat) -> Seq<Seq<u8>> {
    Seq::new(2 * n, |i: int| if i % 2 == 0 { labels[i / 2] } else { messages[i / 2] })
}

/// How many entries of the data are appended: pairs are taken while
/// both a label and a message remain.
pub open spec fn entry_count(data: TranscriptData) -> nat {
    if data.labels@.len() <= data.messages@.len() {
        data.labels@.len()
    } else {
        data.messages@.len()
    }
}

/// The full sequence a transcript built from the data absorbs: the
/// domain label, then the interleaved entry labels and messages.
pub open spec fn transcript_view(data: TranscriptData) -> Seq<Seq<u8>> {
    seq![data.domain_separation_label@[0]@] + interleaved(
        byte_seqs(data.labels@),
        byte_seqs(data.messages@),
        entry_count(data),
    )
}

/// Builds the hash transcript the data describes.
///
/// The domain-separation label must be present: an empty list is an
/// input error (`InvalidLength`), not a silent default. On success the
/// transcript's absorbed sequence is exactly `transcript_view`.
pub fn build_transcript(data: &TranscriptData) -> (r: Result<merlin::Transcript, Error>)
    ensures
        r is Ok <==> data.domain_separation_label@.len() > 0,
        r matches Ok(t) ==> transcript_entries(t) == transcript_view(*data),
        r matches Err(e) ==> e == Error::InvalidLength,
{
    if data.domain_separation_label.len() == 0 {
        return Err(Error::InvalidLength);
    }
    let mut t = transcript_new(data.domain_separation_label[0].as_slice());
    let n = if data.labels.len() <= data.messages.len() {
        data.labels.len()
    } else {
        data.messages.len()
    };
    proof {
        assert(transcript_entries(t) =~= seq![data.domain_separation_label@[0]@] + interleaved(
            byte_seqs(data.labels@),
            byte_seqs(data.messages@),
            0,
        ));
    }
    for i in 0..n
        invariant
            n == entry_count(*data),
            n <= data.labels@.len(),
            n <= data.messages@.len(),
            transcript_entries(t) == seq![data.domain_separation_label@[0]@] + interleaved(
                byte_seqs(data.labels@),
                byte_seqs(data.messages@),
                i as nat,
            ),
    {
        transcript_append(&mut t, data.labels[i].as_slice(), data.messages[i].as_slice());
        proof {
            assert(transcript_entries(t) =~= seq![data.domain_separation_label@[0]@]
                + interleaved(
                byte_seqs(data.labels@),
                byte_seqs(data.messages@),
                (i + 1) as nat,
            ));
        }
    }
    Ok(t)
}

} // verus!
