//! Properties of runs of several calls on one sink.
use crate::file_sink::{widened, FileSinkView};
use vstd::prelude::*;

verus! {

/// The widened samples of successive packets, one packet after the other.
pub open spec fn concat_widened(ps: Seq<Seq<i16>>) -> Seq<i32>
    decreases ps.len(),
{
    if ps.len() == 0 {
        Seq::empty()
    } else {
        concat_widened(ps.drop_last()) + widened(ps.last())
    }
}

/// The number of samples in all packets together.
pub open spec fn total_len(ps: Seq<Seq<i16>>) -> int
    decreases ps.len(),
{
    if ps.len() == 0 {
        0
    } else {
        total_len(ps.drop_last()) + ps.last().len()
    }
}

/// What an accepted `write` of packet `p` does to a sink: the buffer gains
/// the packet's widened samples at its end, and nothing else changes.
pub open spec fn write_step(before: FileSinkView, p: Seq<i16>, after: FileSinkView) -> bool {
    after == (FileSinkView { samples: before.samples + widened(p), ..before })
}

/// Writes keep arrival order: after a run of accepted writes, the buffer
/// holds what it held before, followed by each packet's widened samples in
/// the order of the calls.
pub proof fn lemma_writes_keep_order(states: Seq<FileSinkView>, packets: Seq<Seq<i16>>)
    requires
        states.len() == packets.len() + 1,
        forall|k: int| 0 <= k < packets.len() ==> write_step(states[k], #[trigger] packets[k], states[k + 1]),
    ensures
        states.last().samples == states[0].samples + concat_widened(packets),
    decreases packets.len(),
{
    if packets.len() == 0 {
        assert(states[0].samples + concat_widened(packets) =~= states[0].samples);
    } else {
        let n = packets.len() - 1;
        let ps = packets.drop_last();
        let ss = states.drop_last();
        assert forall|k: int| 0 <= k < ps.len() implies write_step(ss[k], #[trigger] ps[k], ss[k + 1]) by {
            assert(ps[k] == packets[k]);
        }
        lemma_writes_keep_order(ss, ps);
        assert(write_step(states[n], packets[n], states[n + 1]));
        assert(states[0].samples + concat_widened(packets) =~= (states[0].samples + concat_widened(ps))
            + widened(packets.last()));
    }
}

/// From a fresh sink, a run of accepted writes of whole-frame packets leaves
/// a buffer whose length is the total number of samples in the packets, and
/// that length is even.
pub proof fn lemma_writes_length(states: Seq<FileSinkView>, packets: Seq<Seq<i16>>)
    requires
        states.len() == packets.len() + 1,
        states[0].samples.len() == 0,
        forall|k: int| 0 <= k < packets.len() ==> (#[trigger] packets[k]).len() % 2 == 0,
        forall|k: int| 0 <= k < packets.len() ==> write_step(states[k], #[trigger] packets[k], states[k + 1]),
    ensures
        states.last().samples.len() == total_len(packets),
        states.last().samples.len() % 2 == 0,
    decreases packets.len(),
{
    if packets.len() > 0 {
        let n = packets.len() - 1;
        let ps = packets.drop_last();
        let ss = states.drop_last();
        assert forall|k: int| 0 <= k < ps.len() implies write_step(ss[k], #[trigger] ps[k], ss[k + 1])
            && ps[k].len() % 2 == 0 by {
            assert(ps[k] == packets[k]);
        }
        lemma_writes_length(ss, ps);
        assert(write_step(states[n], packets[n], states[n + 1]));
        assert(packets[n].len() % 2 == 0);
    }
}

} // verus!
