//! Command facade: intention-revealing operations mapped to wire requests.
//!
//! Each operation wraps one transport send per request, discards the reply
//! payload, and passes any supervisor or transport error straight through.
//! This module holds the verified mapping from operations to the ordered
//! wire requests they issue; the embedding application sends each request
//! in turn and stops at the first failure.

use vstd::prelude::*;
use crate::wire::{ReqV, Request};

verus! {

/// One operation of the application command surface.
pub enum Op {
    /// Load the file at `path` and start playback deterministically: a
    /// freshly loaded file may start paused depending on player defaults,
    /// so the load is followed by an explicit unpause.
    Play { path: String },
    Pause,
    Resume,
    Stop,
    /// Set the volume; the caller is responsible for the 0-100 range.
    SetVolume { volume: u32 },
    /// Seek by a signed number of seconds; negative seeks backward.
    Seek { seconds: i64 },
}

/// The mathematical value of an [`Op`].
pub enum OpV {
    Play { path: Seq<char> },
    Pause,
    Resume,
    Stop,
    SetVolume { volume: u32 },
    Seek { seconds: int },
}

impl View for Op {
    type V = OpV;

    open spec fn view(&self) -> OpV {
        match self {
            Op::Play { path } => OpV::Play { path: path@ },
            Op::Pause => OpV::Pause,
            Op::Resume => OpV::Resume,
            Op::Stop => OpV::Stop,
            Op::SetVolume { volume } => OpV::SetVolume { volume: *volume },
            Op::Seek { seconds } => OpV::Seek { seconds: *seconds as int },
        }
    }
}

/// The ordered wire requests one operation issues.
pub open spec fn spec_requests_for(op: OpV) -> Seq<ReqV> {
    match op {
        OpV::Play { path } => seq![
            ReqV::LoadFile { path },
            ReqV::SetPause { paused: false },
        ],
        OpV::Pause => seq![ReqV::SetPause { paused: true }],
        OpV::Resume => seq![ReqV::SetPause { paused: false }],
        OpV::Stop => seq![ReqV::Stop],
        OpV::SetVolume { volume } => seq![ReqV::SetVolume { volume }],
        OpV::Seek { seconds } => seq![ReqV::Seek { seconds }],
    }
}

/// The wire requests of a whole sequence of operations, in program order.
pub open spec fn spec_requests_for_ops(ops: Seq<OpV>) -> Seq<ReqV>
    decreases ops.len(),
{
    if ops.len() == 0 {
        Seq::empty()
    } else {
        spec_requests_for(ops[0]) + spec_requests_for_ops(ops.drop_first())
    }
}

/// Builds the ordered wire requests of one operation.
pub fn requests_for(op: &Op) -> (reqs: Vec<Request>)
    ensures
        reqs@.map_values(|r: Request| r@) == spec_requests_for(op@),
{
    let mut reqs: Vec<Request> = Vec::new();
    match op {
        Op::Play { path } => {
            reqs.push(Request::LoadFile { path: path.clone() });
            reqs.push(Request::SetPause { paused: false });
        },
        Op::Pause => {
            reqs.push(Request::SetPause { paused: true });
        },
        Op::Resume => {
            reqs.push(Request::SetPause { paused: false });
        },
        Op::Stop => {
            reqs.push(Request::Stop);
        },
        Op::SetVolume { volume } => {
            reqs.push(Request::SetVolume { volume: *volume });
        },
        Op::Seek { seconds } => {
            reqs.push(Request::Seek { seconds: *seconds });
        },
    }
    proof {
        assert(reqs@.map_values(|r: Request| r@) =~= spec_requests_for(op@));
    }
    reqs
}

/// Builds the wire requests of a whole sequence of operations, in program
/// order: the requests of the first operation come first, then those of the
/// second, and so on.
pub fn requests_for_ops(ops: &Vec<Op>) -> (reqs: Vec<Request>)
    ensures
        reqs@.map_values(|r: Request| r@) == spec_requests_for_ops(ops@.map_values(|o: Op| o@)),
{
    let mut reqs: Vec<Request> = Vec::new();
    let mut i: usize = 0;
    while i < ops.len()
        invariant
            i <= ops@.len(),
            reqs@.map_values(|r: Request| r@) == spec_requests_for_ops(
                ops@.take(i as int).map_values(|o: Op| o@),
            ),
        decreases ops@.len() - i,
    {
        let mut next = requests_for(&ops[i]);
        let ghost reqs_before = reqs@;
        let ghost next_view = next@;
        reqs.append(&mut next);
        proof {
            assert(reqs@.map_values(|r: Request| r@) =~= reqs_before.map_values(|r: Request| r@)
                + next_view.map_values(|r: Request| r@));
            lemma_requests_for_ops_snoc(ops@.take(i as int).map_values(|o: Op| o@), ops@[i as int]@);
            assert(ops@.take(i + 1).map_values(|o: Op| o@) =~= ops@.take(i as int).map_values(
                |o: Op| o@,
            ).push(ops@[i as int]@));
        }
        i = i + 1;
    }
    proof {
        assert(ops@.take(ops@.len() as int) =~= ops@);
    }
    reqs
}

/// Appending one operation appends exactly its requests at the end.
pub proof fn lemma_requests_for_ops_snoc(ops: Seq<OpV>, op: OpV)
    ensures
        spec_requests_for_ops(ops.push(op)) == spec_requests_for_ops(ops) + spec_requests_for(op),
    decreases ops.len(),
{
    if ops.len() == 0 {
        assert(ops.push(op).drop_first() =~= Seq::<OpV>::empty());
        assert(ops.push(op)[0] == op);
        assert(spec_requests_for_ops(ops.push(op)) == spec_requests_for(op)
            + spec_requests_for_ops(Seq::<OpV>::empty()));
        assert(spec_requests_for_ops(ops.push(op)) =~= spec_requests_for_ops(ops)
            + spec_requests_for(op));
    } else {
        assert(ops.push(op).drop_first() =~= ops.drop_first().push(op));
        lemma_requests_for_ops_snoc(ops.drop_first(), op);
        assert(spec_requests_for_ops(ops.push(op)) =~= spec_requests_for_ops(ops)
            + spec_requests_for(op));
    }
}

/// Commands are issued in program order: the wire requests of two command
/// batches run one after the other are the requests of the first batch
/// followed by those of the second, with no interleaving.
pub proof fn lemma_program_order(ops1: Seq<OpV>, ops2: Seq<OpV>)
    ensures
        spec_requests_for_ops(ops1 + ops2) == spec_requests_for_ops(ops1) + spec_requests_for_ops(
            ops2,
        ),
    decreases ops1.len(),
{
    if ops1.len() == 0 {
        assert(ops1 + ops2 =~= ops2);
    } else {
        assert((ops1 + ops2).drop_first() =~= ops1.drop_first() + ops2);
        lemma_program_order(ops1.drop_first(), ops2);
        assert(spec_requests_for_ops(ops1 + ops2) =~= spec_requests_for_ops(ops1)
            + spec_requests_for_ops(ops2));
    }
}

/// `play` always issues exactly two wire commands, in order: the load
/// (replacing any current playback) followed by the explicit unpause.
pub proof fn lemma_play_two_commands(path: Seq<char>)
    ensures
        spec_requests_for(OpV::Play { path }) == seq![
            ReqV::LoadFile { path },
            ReqV::SetPause { paused: false },
        ],
{
}

} // verus!
