use vstd::prelude::*;
use crate::api::{ApiFunction, Arg, call_failed, is_handle};
use crate::error::Error;
use crate::pcm::interleave;

verus! {

/// The session slot that every render uses.
pub const SLOT: u32 = 1;

/// Where a render stands in the emulator's call protocol.
#[derive(Debug, Clone, Copy, PartialEq, Eq, Structural)]
pub enum Stage {
    EmuInitialize,
    Initialize,
    Create,
    Load,
    Open,
    Standby,
    Start,
    Generate,
    Teardown,
    Done,
}

/// One call issued to the DLL, with the code it returned.
pub struct Entry {
    pub function: ApiFunction,
    pub code: u32,
}

/// Everything a render knows: the process-wide initialisation flags, the
/// session's progress and resources, the PCM so far, the first failure, and
/// the transcript of calls issued.
pub struct RenderState {
    pub emu_initialized: bool,
    pub initialized: bool,
    /// Whether the runtime was initialised when the render began.
    pub initialized_at_start: bool,
    pub stage: Stage,
    pub sample_rate: u32,
    pub frames: u64,
    /// Frames per generate call, at least 1.
    pub chunk_frames: u64,
    pub mmf_len: u32,
    /// The handle that `Load` returned.
    pub handle: u32,
    pub created: bool,
    pub loaded: bool,
    pub opened: bool,
    pub started: bool,
    pub rendered: u64,
    /// Frames requested by the generate call in progress.
    pub pending: u32,
    pub samples: Seq<i16>,
    pub failure: Option<Error>,
    pub history: Seq<Entry>,
    /// How many entries of `history` belong to the setup sequence.
    pub setup_calls: nat,
    /// How many generate calls follow them.
    pub generate_calls: nat,
}

/// What the DLL hands back for one call: a return code, and for a generate
/// call the two channel buffers it filled.
pub struct Reply {
    pub code: u32,
    pub left: Seq<i16>,
    pub right: Seq<i16>,
}

// ----------------------------------------------------------------------------
// The setup sequence and the releases it owes
// ----------------------------------------------------------------------------

/// The calls that set a render up, in order; the first two only when the
/// runtime is not initialised yet.
pub open spec fn setup_sequence(initialized: bool) -> Seq<ApiFunction> {
    if initialized {
        seq![ApiFunction::Create, ApiFunction::Load, ApiFunction::Open, ApiFunction::Standby, ApiFunction::Start]
    } else {
        seq![
            ApiFunction::EmuInitialize,
            ApiFunction::Initialize,
            ApiFunction::Create,
            ApiFunction::Load,
            ApiFunction::Open,
            ApiFunction::Standby,
            ApiFunction::Start,
        ]
    }
}

/// Whether a call returned a code that means success.
pub open spec fn succeeded(e: Entry) -> bool {
    match e.function {
        ApiFunction::Create | ApiFunction::Load => is_handle(e.code),
        ApiFunction::Generate => true,
        _ => e.code == 0,
    }
}

/// Whether a successful call of `f` leaves a session resource to release.
pub open spec fn acquires(f: ApiFunction) -> bool {
    match f {
        ApiFunction::Create | ApiFunction::Load | ApiFunction::Open | ApiFunction::Start => true,
        _ => false,
    }
}

/// The call that releases what `f` acquired.
pub open spec fn releaser(f: ApiFunction) -> ApiFunction {
    match f {
        ApiFunction::Create => ApiFunction::Delete,
        ApiFunction::Load => ApiFunction::Unload,
        ApiFunction::Open => ApiFunction::Close,
        ApiFunction::Start => ApiFunction::Stop,
        _ => f,
    }
}

/// The releases owed after the calls `setup`: one for each successful
/// acquiring call, newest first.
pub open spec fn cleanup_for(setup: Seq<Entry>) -> Seq<ApiFunction>
    decreases setup.len(),
{
    if setup.len() == 0 {
        seq![]
    } else {
        let e = setup.last();
        let rest = cleanup_for(setup.drop_last());
        if acquires(e.function) && succeeded(e) {
            seq![releaser(e.function)] + rest
        } else {
            rest
        }
    }
}

/// The functions called in a transcript, in order.
pub open spec fn functions(h: Seq<Entry>) -> Seq<ApiFunction> {
    h.map_values(|e: Entry| e.function)
}

/// The shape of the transcript of a finished render: a prefix of the setup
/// sequence in which only the last call may have failed; then generate calls,
/// only if the whole setup succeeded; then the release of every resource the
/// setup acquired, newest first.
pub open spec fn lifecycle_shape(h: Seq<Entry>, initialized: bool) -> bool {
    exists|k: int, m: int|
        0 <= k && 0 <= m && k + m <= h.len() && #[trigger] shape_at(h, initialized, k, m)
}

/// `lifecycle_shape` with the setup of length `k` and `m` generate calls.
pub open spec fn shape_at(h: Seq<Entry>, initialized: bool, k: int, m: int) -> bool {
    let setup = h.take(k);
    &&& k <= setup_sequence(initialized).len()
    &&& functions(setup) == setup_sequence(initialized).take(k)
    &&& forall|i: int| 0 <= i < k - 1 ==> succeeded(#[trigger] setup[i])
    &&& forall|i: int| k <= i < k + m ==> (#[trigger] h[i]).function == ApiFunction::Generate
    &&& m > 0 ==> k == setup_sequence(initialized).len() && succeeded(setup[k - 1])
    &&& functions(h.skip(k + m)) == cleanup_for(setup)
}

// ----------------------------------------------------------------------------
// The transitions
// ----------------------------------------------------------------------------

/// The releases that `s` still owes, newest resource first.
pub open spec fn held_releases(s: RenderState) -> Seq<ApiFunction> {
    (if s.started { seq![ApiFunction::Stop] } else { seq![] })
        + (if s.opened { seq![ApiFunction::Close] } else { seq![] })
        + (if s.loaded { seq![ApiFunction::Unload] } else { seq![] })
        + (if s.created { seq![ApiFunction::Delete] } else { seq![] })
}

pub open spec fn holds_any(s: RenderState) -> bool {
    s.created || s.loaded || s.opened || s.started
}

/// The render as it begins: `MmfTooLarge` at once when the image length does
/// not fit in 32 bits; else at `Create` when the runtime is initialised, at
/// `EmuInitialize` when it is not. A chunk size of 0 counts as 1.
pub open spec fn initial_state(
    emu_initialized: bool,
    initialized: bool,
    mmf_len: usize,
    sample_rate: u32,
    frames: u64,
    chunk_frames: usize,
) -> RenderState {
    RenderState {
        emu_initialized,
        initialized,
        initialized_at_start: initialized,
        stage: if mmf_len > u32::MAX {
            Stage::Done
        } else if initialized {
            Stage::Create
        } else {
            Stage::EmuInitialize
        },
        sample_rate,
        frames,
        chunk_frames: if chunk_frames == 0 { 1 } else { chunk_frames as u64 },
        mmf_len: if mmf_len > u32::MAX { 0 } else { mmf_len as u32 },
        handle: 0,
        created: false,
        loaded: false,
        opened: false,
        started: false,
        rendered: 0,
        pending: 0,
        samples: seq![],
        failure: if mmf_len > u32::MAX { Some(Error::MmfTooLarge(mmf_len)) } else { None },
        history: seq![],
        setup_calls: 0,
        generate_calls: 0,
    }
}

/// Leaves the session: to `Teardown` while a resource is held, else `Done`.
pub open spec fn settle(s: RenderState) -> RenderState {
    RenderState { stage: if holds_any(s) { Stage::Teardown } else { Stage::Done }, ..s }
}

/// Records the failure `e` and leaves the session.
pub open spec fn fail(s: RenderState, e: Error) -> RenderState {
    settle(RenderState { failure: Some(e), ..s })
}

/// The frames of the next generate call: what is left, at most one chunk.
pub open spec fn next_chunk(s: RenderState) -> u64 {
    if s.frames - s.rendered < s.chunk_frames {
        (s.frames - s.rendered) as u64
    } else {
        s.chunk_frames
    }
}

/// After the session started and after each chunk: leave when all frames are
/// rendered, fail when the next chunk does not fit in 32 bits, else generate it.
pub open spec fn schedule(s: RenderState) -> RenderState {
    if s.rendered >= s.frames {
        settle(s)
    } else if next_chunk(s) > u32::MAX {
        fail(s, Error::FrameCountTooLarge(next_chunk(s) as usize))
    } else {
        RenderState { stage: Stage::Generate, pending: next_chunk(s) as u32, ..s }
    }
}

/// The export that the render calls next.
pub open spec fn current_function(s: RenderState) -> ApiFunction {
    match s.stage {
        Stage::EmuInitialize => ApiFunction::EmuInitialize,
        Stage::Initialize => ApiFunction::Initialize,
        Stage::Create => ApiFunction::Create,
        Stage::Load => ApiFunction::Load,
        Stage::Open => ApiFunction::Open,
        Stage::Standby => ApiFunction::Standby,
        Stage::Start => ApiFunction::Start,
        Stage::Generate => ApiFunction::Generate,
        _ => if s.started {
            ApiFunction::Stop
        } else if s.opened {
            ApiFunction::Close
        } else if s.loaded {
            ApiFunction::Unload
        } else {
            ApiFunction::Delete
        },
    }
}

pub open spec fn word(v: u32) -> Arg {
    Arg::Word(v)
}

/// The six argument words of the next call.
pub open spec fn current_args(s: RenderState) -> Seq<Arg> {
    match current_function(s) {
        ApiFunction::EmuInitialize => seq![word(s.sample_rate), word(0), word(0), word(0), word(0), word(0)],
        ApiFunction::Initialize => seq![Arg::CallbackA, Arg::CallbackB, word(0), word(0), word(0), word(0)],
        ApiFunction::Create | ApiFunction::Delete => seq![word(SLOT), word(0), word(0), word(0), word(0), word(0)],
        ApiFunction::Load => seq![word(SLOT), Arg::MmfAddress, word(s.mmf_len), word(1), word(0), word(0)],
        ApiFunction::Start => seq![word(SLOT), word(s.handle), word(1), word(0), word(0), word(0)],
        ApiFunction::Generate => seq![Arg::LeftBuffer, Arg::RightBuffer, word(s.pending), word(0), word(0), word(0)],
        _ => seq![word(SLOT), word(s.handle), word(0), word(0), word(0), word(0)],
    }
}

/// Appends the call just answered to the transcript.
pub open spec fn record(s: RenderState, code: u32) -> RenderState {
    RenderState { history: s.history.push(Entry { function: current_function(s), code }), ..s }
}

/// The render after the call it asked for returned `code` (any stage but
/// `Generate` and `Done`).
pub open spec fn after_return(s0: RenderState, code: u32) -> RenderState {
    let s = record(s0, code);
    let next = RenderState { setup_calls: s.setup_calls + 1, ..s };
    match s0.stage {
        Stage::EmuInitialize => if code == 0 {
            RenderState { emu_initialized: true, stage: Stage::Initialize, ..next }
        } else {
            fail(next, call_failed(ApiFunction::EmuInitialize, code))
        },
        Stage::Initialize => if code == 0 {
            RenderState { initialized: true, stage: Stage::Create, ..next }
        } else {
            fail(next, call_failed(ApiFunction::Initialize, code))
        },
        Stage::Create => if is_handle(code) {
            RenderState { created: true, stage: Stage::Load, ..next }
        } else {
            fail(next, call_failed(ApiFunction::Create, code))
        },
        Stage::Load => if is_handle(code) {
            RenderState { loaded: true, handle: code, stage: Stage::Open, ..next }
        } else {
            fail(next, call_failed(ApiFunction::Load, code))
        },
        Stage::Open => if code == 0 {
            RenderState { opened: true, stage: Stage::Standby, ..next }
        } else {
            fail(next, call_failed(ApiFunction::Open, code))
        },
        Stage::Standby => if code == 0 {
            RenderState { stage: Stage::Start, ..next }
        } else {
            fail(next, call_failed(ApiFunction::Standby, code))
        },
        Stage::Start => if code == 0 {
            schedule(RenderState { started: true, ..next })
        } else {
            fail(next, call_failed(ApiFunction::Start, code))
        },
        Stage::Teardown => settle(
            if s0.started {
                RenderState { started: false, ..s }
            } else if s0.opened {
                RenderState { opened: false, ..s }
            } else if s0.loaded {
                RenderState { loaded: false, ..s }
            } else {
                RenderState { created: false, ..s }
            },
        ),
        _ => s0,
    }
}

/// The render after a generate call returned `code` and filled `left` and
/// `right`: buffers of the requested length are interleaved onto the PCM;
/// others are refused.
pub open spec fn after_generate(s0: RenderState, code: u32, left: Seq<i16>, right: Seq<i16>) -> RenderState {
    let s = RenderState { generate_calls: s0.generate_calls + 1, ..record(s0, code) };
    if left.len() == s0.pending && right.len() == s0.pending {
        schedule(
            RenderState {
                samples: s.samples + interleave(left, right),
                rendered: (s.rendered + s0.pending) as u64,
                ..s
            },
        )
    } else {
        fail(s, Error::InvalidBufferLengths { left: left.len() as usize, right: right.len() as usize })
    }
}

/// One step of the protocol on a reply.
pub open spec fn step(s: RenderState, r: Reply) -> RenderState {
    match s.stage {
        Stage::Done => s,
        Stage::Generate => after_generate(s, r.code, r.left, r.right),
        _ => after_return(s, r.code),
    }
}

// ----------------------------------------------------------------------------
// The invariant
// ----------------------------------------------------------------------------

/// Position of a setup stage in the setup sequence.
pub open spec fn setup_index(stage: Stage, initialized: bool) -> int {
    let base: int = if initialized { -2 } else { 0 };
    match stage {
        Stage::EmuInitialize => base,
        Stage::Initialize => base + 1,
        Stage::Create => base + 2,
        Stage::Load => base + 3,
        Stage::Open => base + 4,
        Stage::Standby => base + 5,
        Stage::Start => base + 6,
        _ => base + 7,
    }
}

pub open spec fn in_setup(stage: Stage) -> bool {
    match stage {
        Stage::Generate | Stage::Teardown | Stage::Done => false,
        _ => true,
    }
}

/// What holds of every state a render passes through.
pub open spec fn protocol_invariant(s: RenderState) -> bool {
    let k = s.setup_calls as int;
    let m = s.generate_calls as int;
    let setup = s.history.take(k);
    &&& s.initialized ==> s.emu_initialized
    &&& s.started ==> s.opened
    &&& s.opened ==> s.loaded
    &&& s.loaded ==> s.created
    &&& s.chunk_frames >= 1
    &&& s.chunk_frames <= usize::MAX
    &&& s.rendered <= s.frames
    &&& s.samples.len() == 2 * s.rendered
    &&& (s.stage == Stage::Teardown <==> holds_any(s) && !in_setup(s.stage) && s.stage != Stage::Generate)
    &&& s.stage == Stage::Done ==> !holds_any(s)
    &&& s.initialized_at_start ==> s.initialized
    &&& (in_setup(s.stage) || s.stage == Stage::Generate) ==> s.failure is None
    &&& (s.stage == Stage::Teardown || s.stage == Stage::Done) && s.failure is None ==> s.rendered == s.frames
    &&& in_setup(s.stage) ==> {
        &&& k == setup_index(s.stage, s.initialized_at_start)
        &&& 0 <= k
        &&& s.rendered == 0
        &&& !s.started
        &&& (s.initialized_at_start ==> s.stage != Stage::EmuInitialize && s.stage != Stage::Initialize)
        &&& (s.stage == Stage::Create ==> s.initialized)
        &&& (s.stage == Stage::Initialize ==> s.emu_initialized)
        &&& (s.stage == Stage::EmuInitialize || s.stage == Stage::Initialize || s.stage == Stage::Create
            ==> !s.created)
        &&& (s.stage == Stage::Load ==> s.created && !s.loaded)
        &&& (s.stage == Stage::Open ==> s.loaded && !s.opened)
        &&& (s.stage == Stage::Standby || s.stage == Stage::Start ==> s.opened)
    }
    &&& s.stage == Stage::Generate ==> {
        &&& s.started
        &&& s.rendered < s.frames
        &&& s.pending == next_chunk(s)
        &&& s.pending >= 1
    }
    // the transcript
    &&& k + m <= s.history.len()
    &&& k <= setup_sequence(s.initialized_at_start).len()
    &&& functions(setup) == setup_sequence(s.initialized_at_start).take(k)
    &&& (forall|i: int| 0 <= i < k - 1 ==> succeeded(#[trigger] setup[i]))
    &&& (forall|i: int| k <= i < k + m ==> (#[trigger] s.history[i]).function == ApiFunction::Generate)
    &&& (m > 0 ==> k == setup_sequence(s.initialized_at_start).len() && succeeded(setup[k - 1]))
    &&& (in_setup(s.stage) || s.stage == Stage::Generate) ==> {
        &&& s.history.len() == k + m
        &&& forall|i: int| 0 <= i < k ==> succeeded(#[trigger] setup[i])
    }
    &&& s.stage == Stage::Generate ==> k == setup_sequence(s.initialized_at_start).len()
    &&& cleanup_for(setup) == functions(s.history.skip(k + m)) + held_releases(s)
}

// ----------------------------------------------------------------------------
// Proofs
// ----------------------------------------------------------------------------

proof fn lemma_cleanup_push(h: Seq<Entry>, e: Entry)
    ensures
        cleanup_for(h.push(e)) == if acquires(e.function) && succeeded(e) {
            seq![releaser(e.function)] + cleanup_for(h)
        } else {
            cleanup_for(h)
        },
{
    assert(h.push(e).drop_last() =~= h);
    assert(h.push(e).last() == e);
}

proof fn lemma_functions_push(h: Seq<Entry>, e: Entry)
    ensures
        functions(h.push(e)) == functions(h).push(e.function),
{
    assert(functions(h.push(e)) =~= functions(h).push(e.function));
}

/// A render starts in a state that satisfies the invariant.
pub proof fn lemma_initial_invariant(
    emu_initialized: bool,
    initialized: bool,
    mmf_len: usize,
    sample_rate: u32,
    frames: u64,
    chunk_frames: usize,
)
    requires
        initialized ==> emu_initialized,
    ensures
        protocol_invariant(initial_state(emu_initialized, initialized, mmf_len, sample_rate, frames, chunk_frames)),
{
    let s = initial_state(emu_initialized, initialized, mmf_len, sample_rate, frames, chunk_frames);
    assert(s.history.take(0) =~= seq![]);
    assert(functions(seq![]) =~= seq![]);
    assert(setup_sequence(initialized).take(0) =~= seq![]);
    assert(s.history.skip(0) =~= seq![]);
    assert(held_releases(s) =~= seq![]);
}

/// Every step keeps the invariant.
pub proof fn lemma_step_invariant(s: RenderState, r: Reply)
    requires
        protocol_invariant(s),
    ensures
        protocol_invariant(step(s, r)),
{
    let t = step(s, r);
    let k = s.setup_calls as int;
    let m = s.generate_calls as int;
    let e = Entry { function: current_function(s), code: r.code };
    let h2 = s.history.push(e);
    lemma_cleanup_push(s.history.take(k), e);
    lemma_functions_push(s.history.take(k), e);
    if s.stage == Stage::Done {
    } else if s.stage == Stage::Generate {
        assert(s.history.len() == k + m);
        assert(h2.take(k) =~= s.history.take(k));
        assert(h2.skip(k + m + 1) =~= seq![]);
        assert(s.history.skip(k + m) =~= seq![]);
        assert forall|i: int| k <= i < k + m + 1 implies (#[trigger] h2[i]).function == ApiFunction::Generate by {
            if i < k + m {
                assert(h2[i] == s.history[i]);
            }
        }
        assert(held_releases(t) == held_releases(s));
        assert(functions(h2.skip(k + m + 1)) =~= seq![]);
        assert(cleanup_for(h2.take(k)) =~= functions(h2.skip(k + m + 1)) + held_releases(t));
    } else if s.stage == Stage::Teardown {
        assert(h2.take(k) =~= s.history.take(k));
        assert(h2.skip(k + m) =~= s.history.skip(k + m).push(e));
        lemma_functions_push(s.history.skip(k + m), e);
        assert forall|i: int| k <= i < k + m implies (#[trigger] h2[i]).function == ApiFunction::Generate by {
            assert(h2[i] == s.history[i]);
        }
        assert(held_releases(s) =~= seq![e.function] + held_releases(t));
        assert(cleanup_for(h2.take(k)) =~= functions(h2.skip(k + m)) + held_releases(t));
    } else {
        // a setup call
        assert(s.history.len() == k);
        assert(m == 0);
        assert(h2.take(k + 1) =~= s.history.take(k).push(e));
        assert(s.history.take(k) =~= s.history);
        assert(h2.skip(k + 1) =~= seq![]);
        assert(s.history.skip(k) =~= seq![]);
        assert(functions(seq![]) =~= seq![]);
        let seqn = setup_sequence(s.initialized_at_start);
        assert(seqn.take(k + 1) =~= seqn.take(k).push(seqn[k]));
        assert(seqn[k] == e.function);
        assert forall|i: int| 0 <= i < k implies succeeded(#[trigger] h2.take(k + 1)[i]) by {
            assert(h2.take(k + 1)[i] == s.history.take(k)[i]);
        }
        if succeeded(e) && acquires(e.function) {
            assert(held_releases(t) =~= seq![releaser(e.function)] + held_releases(s));
        } else {
            assert(held_releases(t) =~= held_releases(s));
        }
        assert(cleanup_for(h2.take(k + 1)) =~= functions(h2.skip(k + 1)) + held_releases(t));
    }
}

/// A finished render's transcript has the shape of the lifecycle.
pub proof fn lemma_done_shape(s: RenderState)
    requires
        protocol_invariant(s),
        s.stage == Stage::Done,
    ensures
        lifecycle_shape(s.history, s.initialized_at_start),
{
    let k = s.setup_calls as int;
    let m = s.generate_calls as int;
    assert(held_releases(s) =~= seq![]);
    assert(functions(s.history.skip(k + m)) + held_releases(s) =~= functions(s.history.skip(k + m)));
    assert(shape_at(s.history, s.initialized_at_start, k, m));
}

/// How many session resources `s` holds.
pub open spec fn held_count(s: RenderState) -> nat {
    (if s.started { 1nat } else { 0nat }) + (if s.opened { 1nat } else { 0nat }) + (if s.loaded {
        1nat
    } else {
        0nat
    }) + (if s.created { 1nat } else { 0nat })
}

/// A bound on the calls a render still makes: its place in the setup, the
/// resources left to release, and the frames left to generate.
pub open spec fn remaining_work(s: RenderState) -> nat {
    let rank: nat = match s.stage {
        Stage::Done => 0,
        Stage::Teardown => held_count(s),
        Stage::Generate => 5,
        Stage::Start => 6,
        Stage::Standby => 7,
        Stage::Open => 8,
        Stage::Load => 9,
        Stage::Create => 10,
        Stage::Initialize => 11,
        Stage::EmuInitialize => 12,
    };
    rank + 16 * ((s.frames - s.rendered) as nat)
}

/// Whatever the DLL answers, every step of an unfinished render lowers
/// `remaining_work`: a render ends after finitely many calls. A step never
/// undoes the runtime's initialisation.
pub proof fn lemma_step_progress(s: RenderState, r: Reply)
    requires
        protocol_invariant(s),
        s.stage != Stage::Done,
    ensures
        remaining_work(step(s, r)) < remaining_work(s),
        s.emu_initialized ==> step(s, r).emu_initialized,
        s.initialized ==> step(s, r).initialized,
{
    let t = step(s, r);
    assert(held_count(s) <= 4);
    if s.stage == Stage::Teardown {
        assert(held_count(t) + 1 == held_count(s));
    }
    if s.stage == Stage::Generate {
        assert(s.pending >= 1);
    }
}

/// The functions in a cleanup are releases.
proof fn lemma_cleanup_releases(h: Seq<Entry>)
    ensures
        forall|j: int| 0 <= j < cleanup_for(h).len() ==> {
            let f = #[trigger] cleanup_for(h)[j];
            f == ApiFunction::Stop || f == ApiFunction::Close || f == ApiFunction::Unload || f
                == ApiFunction::Delete
        },
    decreases h.len(),
{
    if h.len() > 0 {
        lemma_cleanup_releases(h.drop_last());
        let e = h.last();
        let rest = cleanup_for(h.drop_last());
        if acquires(e.function) && succeeded(e) {
            assert forall|j: int| 1 <= j < cleanup_for(h).len() implies cleanup_for(h)[j] == rest[j - 1] by {}
        }
    }
}

/// Initialisation happens once per runtime: a render that begins on an
/// initialised runtime calls neither `EmuInitialize` nor `Initialize`.
pub proof fn lemma_initialized_runtime_skips_initialization(s: RenderState, i: int)
    requires
        protocol_invariant(s),
        s.initialized_at_start,
        0 <= i < s.history.len(),
    ensures
        s.history[i].function != ApiFunction::EmuInitialize,
        s.history[i].function != ApiFunction::Initialize,
{
    let k = s.setup_calls as int;
    let m = s.generate_calls as int;
    if i < k {
        assert(functions(s.history.take(k))[i] == s.history[i].function);
        assert(setup_sequence(true).take(k)[i] == setup_sequence(true)[i]);
    } else if i < k + m {
        assert(s.history[i].function == ApiFunction::Generate);
    } else {
        lemma_cleanup_releases(s.history.take(k));
        let tail = functions(s.history.skip(k + m));
        assert(tail[i - k - m] == s.history[i].function);
        assert((tail + held_releases(s))[i - k - m] == tail[i - k - m]);
        assert(cleanup_for(s.history.take(k))[i - k - m] == s.history[i].function);
    }
}

/// The render after the replies `replies`, one per call it asked for.
pub open spec fn run(s: RenderState, replies: Seq<Reply>) -> RenderState
    decreases replies.len(),
{
    if replies.len() == 0 {
        s
    } else {
        run(step(s, replies[0]), replies.drop_first())
    }
}

/// Whatever the DLL replies: a render keeps its invariant, is finished after
/// at most `remaining_work` replies, and once finished its transcript has the
/// shape of the lifecycle (`lifecycle_shape`).
pub proof fn lemma_run(s: RenderState, replies: Seq<Reply>)
    requires
        protocol_invariant(s),
    ensures
        protocol_invariant(run(s, replies)),
        run(s, replies).initialized_at_start == s.initialized_at_start,
        s.stage == Stage::Done ==> run(s, replies) == s,
        replies.len() >= remaining_work(s) ==> run(s, replies).stage == Stage::Done,
        run(s, replies).stage == Stage::Done ==> lifecycle_shape(
            run(s, replies).history,
            s.initialized_at_start,
        ),
    decreases replies.len(),
{
    if replies.len() > 0 {
        let t = step(s, replies[0]);
        lemma_step_invariant(s, replies[0]);
        if s.stage != Stage::Done {
            lemma_step_progress(s, replies[0]);
        }
        lemma_run(t, replies.drop_first());
    } else if s.stage != Stage::Done {
        assert(held_count(s) >= 1 || s.stage != Stage::Teardown);
        assert(remaining_work(s) >= 1);
    }
    if run(s, replies).stage == Stage::Done {
        lemma_done_shape(run(s, replies));
    }
}

/// A render begun with `initial_state` ends, whatever the DLL replies, after
/// at most 12 + 16 * `frames` replies, with a transcript that has the shape of
/// the lifecycle.
pub proof fn lemma_render_ends(
    emu_initialized: bool,
    initialized: bool,
    mmf_len: usize,
    sample_rate: u32,
    frames: u64,
    chunk_frames: usize,
    replies: Seq<Reply>,
)
    requires
        initialized ==> emu_initialized,
        replies.len() >= 12 + 16 * frames,
    ensures
        ({
            let end = run(initial_state(emu_initialized, initialized, mmf_len, sample_rate, frames, chunk_frames), replies);
            &&& end.stage == Stage::Done
            &&& lifecycle_shape(end.history, initialized)
        }),
{
    let s = initial_state(emu_initialized, initialized, mmf_len, sample_rate, frames, chunk_frames);
    lemma_initial_invariant(emu_initialized, initialized, mmf_len, sample_rate, frames, chunk_frames);
    assert(remaining_work(s) <= 12 + 16 * frames);
    lemma_run(s, replies);
}

/// A step never changes the inputs the render was begun with.
proof fn lemma_step_keeps_inputs(s: RenderState, r: Reply)
    ensures
        step(s, r).sample_rate == s.sample_rate,
        step(s, r).frames == s.frames,
        step(s, r).chunk_frames == s.chunk_frames,
        step(s, r).mmf_len == s.mmf_len,
{
}

proof fn lemma_run_keeps_inputs(s: RenderState, replies: Seq<Reply>)
    ensures
        run(s, replies).sample_rate == s.sample_rate,
        run(s, replies).frames == s.frames,
        run(s, replies).chunk_frames == s.chunk_frames,
        run(s, replies).mmf_len == s.mmf_len,
    decreases replies.len(),
{
    if replies.len() > 0 {
        lemma_step_keeps_inputs(s, replies[0]);
        lemma_run_keeps_inputs(step(s, replies[0]), replies.drop_first());
    }
}

/// A render works with the inputs it was begun with, whatever the DLL
/// replies: the sample rate, the frame count, the chunk size (0 counting as
/// 1) and the image length stay as given; on an uninitialised runtime the
/// first call is `EmuInitialize` with the sample rate as its first word, on an
/// initialised one it is `Create`.
pub proof fn lemma_render_inputs(
    emu_initialized: bool,
    initialized: bool,
    mmf_len: usize,
    sample_rate: u32,
    frames: u64,
    chunk_frames: usize,
    replies: Seq<Reply>,
)
    ensures
        ({
            let s0 = initial_state(emu_initialized, initialized, mmf_len, sample_rate, frames, chunk_frames);
            let end = run(s0, replies);
            &&& s0.sample_rate == sample_rate
            &&& end.sample_rate == sample_rate
            &&& end.frames == frames
            &&& end.chunk_frames == (if chunk_frames == 0 { 1 } else { chunk_frames as int })
            &&& (mmf_len <= u32::MAX ==> end.mmf_len == mmf_len)
            &&& (mmf_len <= u32::MAX && !initialized ==> {
                &&& current_function(s0) == ApiFunction::EmuInitialize
                &&& current_args(s0) == seq![
                    Arg::Word(sample_rate),
                    Arg::Word(0),
                    Arg::Word(0),
                    Arg::Word(0),
                    Arg::Word(0),
                    Arg::Word(0),
                ]
            })
            &&& (mmf_len <= u32::MAX && initialized ==> current_function(s0) == ApiFunction::Create)
        }),
{
    let s0 = initial_state(emu_initialized, initialized, mmf_len, sample_rate, frames, chunk_frames);
    lemma_run_keeps_inputs(s0, replies);
}

/// The words of every call: the session calls after `Load` (`Open`,
/// `Standby`, `Start`, `Stop`, `Close`, `Unload`) name slot 1 and the handle
/// that `Load` returned, then zeros (`Start` passes 1 as its third word);
/// `Create` and `Delete` name slot 1 alone; `Load` passes slot 1, the image,
/// its length and 1; `Generate` passes the two buffers and the frame count.
pub proof fn lemma_call_words(s: RenderState)
    ensures
        ({
            let f = current_function(s);
            let a = current_args(s);
            &&& a.len() == 6
            &&& (f == ApiFunction::Open || f == ApiFunction::Standby || f == ApiFunction::Stop
                || f == ApiFunction::Close || f == ApiFunction::Unload) ==> a == seq![
                Arg::Word(1),
                Arg::Word(s.handle),
                Arg::Word(0),
                Arg::Word(0),
                Arg::Word(0),
                Arg::Word(0),
            ]
            &&& f == ApiFunction::Start ==> a == seq![
                Arg::Word(1),
                Arg::Word(s.handle),
                Arg::Word(1),
                Arg::Word(0),
                Arg::Word(0),
                Arg::Word(0),
            ]
            &&& (f == ApiFunction::Create || f == ApiFunction::Delete) ==> a == seq![
                Arg::Word(1),
                Arg::Word(0),
                Arg::Word(0),
                Arg::Word(0),
                Arg::Word(0),
                Arg::Word(0),
            ]
            &&& f == ApiFunction::Load ==> a == seq![
                Arg::Word(1),
                Arg::MmfAddress,
                Arg::Word(s.mmf_len),
                Arg::Word(1),
                Arg::Word(0),
                Arg::Word(0),
            ]
            &&& f == ApiFunction::Generate ==> a == seq![
                Arg::LeftBuffer,
                Arg::RightBuffer,
                Arg::Word(s.pending),
                Arg::Word(0),
                Arg::Word(0),
                Arg::Word(0),
            ]
        }),
{
}

/// The handle that the session calls name is the one `Load` returned: a
/// successful `Load` records the code it returned, and no other step changes
/// the handle.
pub proof fn lemma_handle_from_load(s: RenderState, r: Reply)
    ensures
        s.stage == Stage::Load && is_handle(r.code) ==> step(s, r).handle == r.code,
        s.stage != Stage::Load ==> step(s, r).handle == s.handle,
{
}

} // verus!
