use vstd::prelude::*;
use crate::api::{ApiCall, ApiFunction, Arg, buffer_frames, check_handle, check_zero, words};
use crate::error::Error;
use crate::pcm::{RenderedPcm, append_interleaved};
use crate::protocol::{
    Entry, Reply, RenderState, Stage, SLOT, after_generate, after_return, current_args, current_function,
    fail, initial_state, lemma_done_shape, lemma_initial_invariant, lemma_step_invariant,
    lifecycle_shape, protocol_invariant, schedule, settle, word,
};

verus! {

/// The process-wide initialisation of the emulator: whether
/// `MaSound_EmuInitialize` and `MaSound_Initialize` have succeeded.
pub struct Runtime {
    emu_initialized: bool,
    initialized: bool,
}

/// The view of a [`Runtime`].
pub struct RuntimeFlags {
    pub emu_initialized: bool,
    pub initialized: bool,
}

impl View for Runtime {
    type V = RuntimeFlags;

    closed spec fn view(&self) -> RuntimeFlags {
        RuntimeFlags { emu_initialized: self.emu_initialized, initialized: self.initialized }
    }
}

/// The calls that shut an emulator runtime down: `Terminate` when it was
/// initialised, then `EmuTerminate` when the emulator was.
pub open spec fn shutdown_sequence(f: RuntimeFlags) -> Seq<ApiFunction> {
    (if f.initialized { seq![ApiFunction::Terminate] } else { seq![] })
        + (if f.emu_initialized { seq![ApiFunction::EmuTerminate] } else { seq![] })
}

/// Six zero words.
pub open spec fn zero_args() -> Seq<Arg> {
    seq![word(0), word(0), word(0), word(0), word(0), word(0)]
}

impl Runtime {
    #[verifier::type_invariant]
    spec fn flags_ordered(self) -> bool {
        self.initialized ==> self.emu_initialized
    }

    /// A runtime on which nothing has been initialised yet.
    pub fn new() -> (r: Runtime)
        ensures
            !r@.emu_initialized,
            !r@.initialized,
    {
        Runtime { emu_initialized: false, initialized: false }
    }

    pub fn is_emu_initialized(&self) -> (b: bool)
        ensures
            b == self@.emu_initialized,
    {
        self.emu_initialized
    }

    pub fn is_initialized(&self) -> (b: bool)
        ensures
            b == self@.initialized,
            b ==> self@.emu_initialized,
    {
        proof {
            use_type_invariant(self);
        }
        self.initialized
    }

    /// The calls to make when the runtime is dropped, in order.
    pub fn shutdown_calls(&self) -> (calls: Vec<ApiCall>)
        ensures
            calls@.len() == shutdown_sequence(self@).len(),
            forall|i: int| 0 <= i < calls@.len() ==> {
                &&& (#[trigger] calls@[i]).function == shutdown_sequence(self@)[i]
                &&& calls@[i].args@ == zero_args()
            },
    {
        let mut calls: Vec<ApiCall> = Vec::new();
        if self.initialized {
            calls.push(ApiCall { function: ApiFunction::Terminate, args: zero_words() });
        }
        if self.emu_initialized {
            calls.push(ApiCall { function: ApiFunction::EmuTerminate, args: zero_words() });
        }
        calls
    }
}

fn zero_words() -> (args: [Arg; 6])
    ensures
        args@ == zero_args(),
{
    words(Arg::Word(0), Arg::Word(0), Arg::Word(0), Arg::Word(0), Arg::Word(0), Arg::Word(0))
}

/// What a render asks of the program that drives the DLL.
pub enum Action {
    /// Make this call and hand its return code to [`Render::returned`].
    Call(ApiCall),
    /// Make this generate call on two fresh buffers of `frames` samples each,
    /// and hand its return code and the buffers to [`Render::generated`].
    Generate { call: ApiCall, frames: usize },
    /// The render is over; collect it with [`Render::finish`].
    Finished,
}

/// Whether `a` is what a render in state `s` asks for.
pub open spec fn action_matches(a: Action, s: RenderState) -> bool {
    match a {
        Action::Finished => s.stage == Stage::Done,
        Action::Generate { call, frames } => {
            &&& s.stage == Stage::Generate
            &&& call.function == ApiFunction::Generate
            &&& call.args@ == current_args(s)
            &&& frames == s.pending
        },
        Action::Call(call) => {
            &&& s.stage != Stage::Done
            &&& s.stage != Stage::Generate
            &&& call.function == current_function(s)
            &&& call.args@ == current_args(s)
        },
    }
}

/// One render of an MMF image: the decisions of the emulator's call
/// protocol, from initialisation through the generate calls to the release
/// of every session resource.
pub struct Render {
    emu_initialized: bool,
    initialized: bool,
    initialized_at_start: Ghost<bool>,
    stage: Stage,
    sample_rate: u32,
    frames: u64,
    chunk_frames: u64,
    mmf_len: u32,
    handle: u32,
    created: bool,
    loaded: bool,
    opened: bool,
    started: bool,
    rendered: u64,
    pending: u32,
    samples: Vec<i16>,
    failure: Option<Error>,
    history: Ghost<Seq<Entry>>,
    setup_calls: Ghost<nat>,
    generate_calls: Ghost<nat>,
}

impl View for Render {
    type V = RenderState;

    closed spec fn view(&self) -> RenderState {
        RenderState {
            emu_initialized: self.emu_initialized,
            initialized: self.initialized,
            initialized_at_start: self.initialized_at_start@,
            stage: self.stage,
            sample_rate: self.sample_rate,
            frames: self.frames,
            chunk_frames: self.chunk_frames,
            mmf_len: self.mmf_len,
            handle: self.handle,
            created: self.created,
            loaded: self.loaded,
            opened: self.opened,
            started: self.started,
            rendered: self.rendered,
            pending: self.pending,
            samples: self.samples@,
            failure: self.failure,
            history: self.history@,
            setup_calls: self.setup_calls@,
            generate_calls: self.generate_calls@,
        }
    }
}

impl Render {
    /// The render's state satisfies the protocol invariant.
    pub closed spec fn wf(&self) -> bool {
        protocol_invariant(self@)
    }

    /// What `wf` states: the render's view satisfies the protocol invariant, so
    /// the laws of `protocol` apply to it.
    pub proof fn lemma_wf(&self)
        requires
            self.wf(),
        ensures
            protocol_invariant(self@),
    {
    }

    /// Begins a render of an MMF image of `mmf_len` bytes into `frames`
    /// stereo frames at `sample_rate`, generated `chunk_frames` at a time
    /// (0 counts as 1).
    pub fn new(runtime: Runtime, mmf_len: usize, sample_rate: u32, frames: u64, chunk_frames: usize) -> (r: Render)
        ensures
            r.wf(),
            r@ == initial_state(runtime@.emu_initialized, runtime@.initialized, mmf_len, sample_rate, frames, chunk_frames),
            r@.sample_rate == sample_rate,
            r@.frames == frames,
    {
        proof {
            use_type_invariant(&runtime);
        }
        let too_large = mmf_len > u32::MAX as usize;
        let stage = if too_large {
            Stage::Done
        } else if runtime.initialized {
            Stage::Create
        } else {
            Stage::EmuInitialize
        };
        let r = Render {
            emu_initialized: runtime.emu_initialized,
            initialized: runtime.initialized,
            initialized_at_start: Ghost(runtime.initialized),
            stage,
            sample_rate,
            frames,
            chunk_frames: if chunk_frames == 0 { 1 } else { chunk_frames as u64 },
            mmf_len: if too_large { 0 } else { mmf_len as u32 },
            handle: 0,
            created: false,
            loaded: false,
            opened: false,
            started: false,
            rendered: 0,
            pending: 0,
            samples: Vec::new(),
            failure: if too_large { Some(Error::MmfTooLarge(mmf_len)) } else { None },
            history: Ghost(Seq::empty()),
            setup_calls: Ghost(0),
            generate_calls: Ghost(0),
        };
        proof {
            lemma_initial_invariant(
                runtime@.emu_initialized,
                runtime@.initialized,
                mmf_len,
                sample_rate,
                frames,
                chunk_frames,
            );
            assert(r@ =~= initial_state(runtime@.emu_initialized, runtime@.initialized, mmf_len, sample_rate, frames, chunk_frames));
        }
        r
    }

    /// Whether the render is over.
    pub fn is_finished(&self) -> (b: bool)
        ensures
            b == (self@.stage == Stage::Done),
    {
        self.stage == Stage::Done
    }

    fn current_function(&self) -> (f: ApiFunction)
        ensures
            f == current_function(self@),
    {
        match self.stage {
            Stage::EmuInitialize => ApiFunction::EmuInitialize,
            Stage::Initialize => ApiFunction::Initialize,
            Stage::Create => ApiFunction::Create,
            Stage::Load => ApiFunction::Load,
            Stage::Open => ApiFunction::Open,
            Stage::Standby => ApiFunction::Standby,
            Stage::Start => ApiFunction::Start,
            Stage::Generate => ApiFunction::Generate,
            _ => if self.started {
                ApiFunction::Stop
            } else if self.opened {
                ApiFunction::Close
            } else if self.loaded {
                ApiFunction::Unload
            } else {
                ApiFunction::Delete
            },
        }
    }

    fn current_call(&self) -> (call: ApiCall)
        ensures
            call.function == current_function(self@),
            call.args@ == current_args(self@),
    {
        let function = self.current_function();
        let zero = Arg::Word(0);
        let slot = Arg::Word(SLOT);
        let args = match function {
            ApiFunction::EmuInitialize => words(Arg::Word(self.sample_rate), zero, zero, zero, zero, zero),
            ApiFunction::Initialize => words(Arg::CallbackA, Arg::CallbackB, zero, zero, zero, zero),
            ApiFunction::Create | ApiFunction::Delete => words(slot, zero, zero, zero, zero, zero),
            ApiFunction::Load => words(slot, Arg::MmfAddress, Arg::Word(self.mmf_len), Arg::Word(1), zero, zero),
            ApiFunction::Start => words(slot, Arg::Word(self.handle), Arg::Word(1), zero, zero, zero),
            ApiFunction::Generate => words(Arg::LeftBuffer, Arg::RightBuffer, Arg::Word(self.pending), zero, zero, zero),
            _ => words(slot, Arg::Word(self.handle), zero, zero, zero, zero),
        };
        ApiCall { function, args }
    }

    /// What the render asks for next.
    pub fn next_action(&self) -> (a: Action)
        ensures
            action_matches(a, self@),
    {
        match self.stage {
            Stage::Done => Action::Finished,
            Stage::Generate => Action::Generate { call: self.current_call(), frames: self.pending as usize },
            _ => Action::Call(self.current_call()),
        }
    }

    fn settle(&mut self)
        ensures
            final(self)@ == settle(old(self)@),
    {
        if self.created || self.loaded || self.opened || self.started {
            self.stage = Stage::Teardown;
        } else {
            self.stage = Stage::Done;
        }
    }

    fn fail(&mut self, e: Error)
        ensures
            final(self)@ == fail(old(self)@, e),
    {
        self.failure = Some(e);
        self.settle();
    }

    fn schedule(&mut self)
        requires
            old(self).chunk_frames <= usize::MAX,
        ensures
            final(self)@ == schedule(old(self)@),
    {
        if self.rendered >= self.frames {
            self.settle();
        } else {
            let left = self.frames - self.rendered;
            let count = if left < self.chunk_frames { left } else { self.chunk_frames };
            // both channel buffers of the next generate call hold `count` samples
            match buffer_frames(count as usize, count as usize) {
                Ok(frames) => {
                    self.stage = Stage::Generate;
                    self.pending = frames;
                },
                Err(e) => self.fail(e),
            }
        }
    }

    /// Hands over the code returned by the call that [`Render::next_action`]
    /// asked for.
    pub fn returned(&mut self, code: u32)
        requires
            old(self).wf(),
            old(self)@.stage != Stage::Generate,
            old(self)@.stage != Stage::Done,
        ensures
            final(self).wf(),
            final(self)@ == after_return(old(self)@, code),
    {
        let function = self.current_function();
        self.history = Ghost(self.history@.push(Entry { function, code }));
        match self.stage {
            Stage::Teardown => {
                if self.started {
                    self.started = false;
                } else if self.opened {
                    self.opened = false;
                } else if self.loaded {
                    self.loaded = false;
                } else {
                    self.created = false;
                }
                self.settle();
            },
            Stage::EmuInitialize => {
                self.setup_calls = Ghost(self.setup_calls@ + 1);
                match check_zero(ApiFunction::EmuInitialize, code) {
                    Ok(()) => {
                        self.emu_initialized = true;
                        self.stage = Stage::Initialize;
                    },
                    Err(e) => self.fail(e),
                }
            },
            Stage::Initialize => {
                self.setup_calls = Ghost(self.setup_calls@ + 1);
                match check_zero(ApiFunction::Initialize, code) {
                    Ok(()) => {
                        self.initialized = true;
                        self.stage = Stage::Create;
                    },
                    Err(e) => self.fail(e),
                }
            },
            Stage::Create => {
                self.setup_calls = Ghost(self.setup_calls@ + 1);
                match check_handle(ApiFunction::Create, code) {
                    Ok(_) => {
                        self.created = true;
                        self.stage = Stage::Load;
                    },
                    Err(e) => self.fail(e),
                }
            },
            Stage::Load => {
                self.setup_calls = Ghost(self.setup_calls@ + 1);
                match check_handle(ApiFunction::Load, code) {
                    Ok(handle) => {
                        self.loaded = true;
                        self.handle = handle;
                        self.stage = Stage::Open;
                    },
                    Err(e) => self.fail(e),
                }
            },
            Stage::Open => {
                self.setup_calls = Ghost(self.setup_calls@ + 1);
                match check_zero(ApiFunction::Open, code) {
                    Ok(()) => {
                        self.opened = true;
                        self.stage = Stage::Standby;
                    },
                    Err(e) => self.fail(e),
                }
            },
            Stage::Standby => {
                self.setup_calls = Ghost(self.setup_calls@ + 1);
                match check_zero(ApiFunction::Standby, code) {
                    Ok(()) => {
                        self.stage = Stage::Start;
                    },
                    Err(e) => self.fail(e),
                }
            },
            _ => {
                self.setup_calls = Ghost(self.setup_calls@ + 1);
                match check_zero(ApiFunction::Start, code) {
                    Ok(()) => {
                        self.started = true;
                        self.schedule();
                    },
                    Err(e) => self.fail(e),
                }
            },
        }
        proof {
            lemma_step_invariant(old(self)@, Reply { code, left: Seq::empty(), right: Seq::empty() });
        }
    }

    /// Hands over the code returned by the generate call that
    /// [`Render::next_action`] asked for, and the two buffers it filled.
    pub fn generated(&mut self, code: u32, left: Vec<i16>, right: Vec<i16>)
        requires
            old(self).wf(),
            old(self)@.stage == Stage::Generate,
        ensures
            final(self).wf(),
            final(self)@ == after_generate(old(self)@, code, left@, right@),
    {
        self.history = Ghost(self.history@.push(Entry { function: ApiFunction::Generate, code }));
        self.generate_calls = Ghost(self.generate_calls@ + 1);
        let pending = self.pending as usize;
        if left.len() == pending && right.len() == pending {
            append_interleaved(&mut self.samples, &left, &right);
            self.rendered = self.rendered + self.pending as u64;
            self.schedule();
        } else {
            self.fail(Error::InvalidBufferLengths { left: left.len(), right: right.len() });
        }
        proof {
            lemma_step_invariant(old(self)@, Reply { code, left: left@, right: right@ });
        }
    }

    /// Ends a finished render: gives back the runtime, and the PCM or the
    /// first failure.
    pub fn finish(self) -> (out: (Runtime, Result<RenderedPcm, Error>))
        requires
            self.wf(),
            self@.stage == Stage::Done,
        ensures
            out.0@.emu_initialized == self@.emu_initialized,
            out.0@.initialized == self@.initialized,
            self@.failure matches Some(e) ==> out.1 == Err::<RenderedPcm, Error>(e),
            self@.failure is None ==> out.1 is Ok,
            out.1 matches Ok(pcm) ==> {
                &&& pcm.sample_rate == self@.sample_rate
                &&& pcm.samples@ == self@.samples
                &&& pcm.samples@.len() == 2 * self@.frames
                &&& pcm.samples@.len() == (pcm.samples@.len() / 2) * 2
            },
            lifecycle_shape(self@.history, self@.initialized_at_start),
    {
        proof {
            lemma_done_shape(self@);
        }
        let runtime = Runtime { emu_initialized: self.emu_initialized, initialized: self.initialized };
        let result = match self.failure {
            Some(e) => Err(e),
            None => Ok(RenderedPcm { sample_rate: self.sample_rate, samples: self.samples }),
        };
        (runtime, result)
    }
}

} // verus!
