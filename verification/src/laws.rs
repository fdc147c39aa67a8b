//! Laws of the retrieval protocol that span several calls.
//!
//! The contracts in [`crate::capture`] describe one call at a time through
//! the spec-level step functions [`read_result`] and [`read_step`].  The
//! proofs here chain those steps: reading a file-backed source walks its
//! records in order, end of input is a terminal, idempotent state, and a
//! save file written packet by packet reads back exactly as written.

use vstd::prelude::*;

use crate::capture::CaptureFileModel;
use crate::capture::EngineModel;
use crate::capture::EventModel;
use crate::capture::Precision;
use crate::capture::offline_engine;
use crate::capture::read_result;
use crate::capture::read_step;
use crate::capture::write_step;
use crate::error::ErrorModel;
use crate::link::Linktype;
use crate::packet::PacketModel;

verus! {

/// The engine state after `k` retrieval calls.
pub open spec fn read_steps(e: EngineModel, k: nat) -> EngineModel
    decreases k,
{
    if k == 0 {
        e
    } else {
        read_step(read_steps(e, (k - 1) as nat))
    }
}

/// Retrieval calls only consume the queue from the front: after `k` calls
/// on an engine with at least `k` queued events, the first `k` events are
/// gone and everything else stands as before.
pub proof fn lemma_read_steps_pending(e: EngineModel, k: nat)
    requires
        k <= e.pending.len(),
    ensures
        read_steps(e, k) == (EngineModel { pending: e.pending.skip(k as int), ..e }),
    decreases k,
{
    if k == 0 {
        assert(e.pending.skip(0) =~= e.pending);
        assert(read_steps(e, k) =~= (EngineModel { pending: e.pending.skip(k as int), ..e }));
    } else {
        lemma_read_steps_pending(e, (k - 1) as nat);
        assert(e.pending.skip(k as int - 1).drop_first() =~= e.pending.skip(k as int));
        assert(read_steps(e, k) =~= (EngineModel { pending: e.pending.skip(k as int), ..e }));
    }
}

/// Reading a file-backed source returns the records in file order: the
/// `k`-th retrieval call on a freshly opened offline handle returns exactly
/// the `k`-th record of the file, so no record is skipped or re-read.
pub proof fn lemma_file_order(f: CaptureFileModel, precision: Precision, k: nat)
    requires
        k < f.records.len(),
    ensures
        read_result(read_steps(offline_engine(f, precision), k)) == Ok::<
            PacketModel,
            ErrorModel,
        >(f.records[k as int]),
{
    let e = offline_engine(f, precision);
    lemma_read_steps_pending(e, k);
    assert(e.pending.skip(k as int)[0] == e.pending[k as int]);
    assert(e.pending[k as int] == EventModel::Packet(f.records[k as int]));
}

/// End of input is a terminal, idempotent state: once a file-backed source
/// has handed out all its records, every further retrieval call reports
/// end of input and leaves the engine state exactly as it is.
pub proof fn lemma_end_of_input(f: CaptureFileModel, precision: Precision, k: nat)
    requires
        k >= f.records.len(),
    ensures
        read_steps(offline_engine(f, precision), k) == read_steps(
            offline_engine(f, precision),
            f.records.len(),
        ),
        read_result(read_steps(offline_engine(f, precision), k)) == Err::<
            PacketModel,
            ErrorModel,
        >(ErrorModel::NoMorePackets),
    decreases k,
{
    let e = offline_engine(f, precision);
    lemma_read_steps_pending(e, f.records.len());
    assert(e.pending.skip(f.records.len() as int).len() == 0);
    if k == f.records.len() {
    } else {
        lemma_end_of_input(f, precision, (k - 1) as nat);
    }
}

/// The save file contents derived from a dead handle for the given link
/// type, before anything has been written: the link type, the default
/// 65535-byte snapshot length, and no records.
pub open spec fn dead_savefile(linktype: Linktype) -> CaptureFileModel {
    CaptureFileModel {
        linktype,
        snaplen: 65535,
        precision: Precision::Micro,
        records: Seq::empty(),
    }
}

/// The file contents after writing each packet of `ps`, in order.
pub open spec fn write_all(f: CaptureFileModel, ps: Seq<PacketModel>) -> CaptureFileModel
    decreases ps.len(),
{
    if ps.len() == 0 {
        f
    } else {
        write_step(write_all(f, ps.drop_last()), ps.last())
    }
}

/// Writing a sequence of packets appends exactly those records, in write
/// order, and touches nothing else in the file.
pub proof fn lemma_write_all(f: CaptureFileModel, ps: Seq<PacketModel>)
    ensures
        write_all(f, ps) == (CaptureFileModel { records: f.records + ps, ..f }),
    decreases ps.len(),
{
    if ps.len() == 0 {
        assert(f.records + ps =~= f.records);
        assert(write_all(f, ps) =~= (CaptureFileModel { records: f.records + ps, ..f }));
    } else {
        lemma_write_all(f, ps.drop_last());
        assert((f.records + ps.drop_last()).push(ps.last()) =~= f.records + ps);
        assert(write_all(f, ps) =~= (CaptureFileModel { records: f.records + ps, ..f }));
    }
}

/// Round trip: take a save file derived from a dead handle with a chosen
/// link type, write any packets to it in order, and reopen the contents as
/// an offline capture.  Reading it back returns exactly the written
/// packets — same headers, same bytes — in the same order, and afterwards
/// reports end of input.
pub proof fn lemma_round_trip(linktype: Linktype, ps: Seq<PacketModel>, k: nat)
    ensures
        k < ps.len() ==> read_result(
            read_steps(
                offline_engine(
                    write_all(dead_savefile(linktype), ps),
                    write_all(dead_savefile(linktype), ps).precision,
                ),
                k,
            ),
        ) == Ok::<PacketModel, ErrorModel>(ps[k as int]),
        k >= ps.len() ==> read_result(
            read_steps(
                offline_engine(
                    write_all(dead_savefile(linktype), ps),
                    write_all(dead_savefile(linktype), ps).precision,
                ),
                k,
            ),
        ) == Err::<PacketModel, ErrorModel>(ErrorModel::NoMorePackets),
{
    let f = write_all(dead_savefile(linktype), ps);
    lemma_write_all(dead_savefile(linktype), ps);
    assert(f.records =~= ps);
    if k < ps.len() {
        lemma_file_order(f, f.precision, k);
    } else {
        lemma_end_of_input(f, f.precision, k);
    }
}

} // verus!
