use ma5_native::{Action, ApiCall, ApiFunction, Arg, Error, Render, RenderedPcm, Runtime};

/// A stand-in for the emulator DLL: answers every call with success except the
/// one it is told to fail, and fills generate buffers with a counter.
struct FakeDll {
    fail: Option<(ApiFunction, u32)>,
    handle: u32,
    calls: Vec<ApiCall>,
    counter: i16,
    short_buffers: bool,
}

impl FakeDll {
    fn new() -> FakeDll {
        FakeDll { fail: None, handle: 77, calls: Vec::new(), counter: 0, short_buffers: false }
    }

    fn failing(function: ApiFunction, code: u32) -> FakeDll {
        FakeDll { fail: Some((function, code)), ..FakeDll::new() }
    }

    fn answer(&self, function: ApiFunction) -> u32 {
        if let Some((f, code)) = self.fail {
            if f == function {
                return code;
            }
        }
        match function {
            ApiFunction::Create => 1,
            ApiFunction::Load => self.handle,
            _ => 0,
        }
    }

    fn functions(&self) -> Vec<ApiFunction> {
        self.calls.iter().map(|c| c.function).collect()
    }

    fn drive(&mut self, mut render: Render) -> (Runtime, Result<RenderedPcm, Error>) {
        loop {
            match render.next_action() {
                Action::Call(call) => {
                    self.calls.push(call);
                    let code = self.answer(call.function);
                    render.returned(code);
                }
                Action::Generate { call, frames } => {
                    self.calls.push(call);
                    let mut left = Vec::new();
                    let mut right = Vec::new();
                    for _ in 0..frames {
                        self.counter = self.counter.wrapping_add(1);
                        left.push(self.counter);
                        right.push(-self.counter);
                    }
                    if self.short_buffers {
                        left.pop();
                    }
                    render.generated(0, left, right);
                }
                Action::Finished => break,
            }
        }
        render.finish()
    }
}

fn w(v: u32) -> Arg {
    Arg::Word(v)
}

const SETUP: [ApiFunction; 7] = [ApiFunction::EmuInitialize, ApiFunction::Initialize, ApiFunction::Create, ApiFunction::Load, ApiFunction::Open, ApiFunction::Standby, ApiFunction::Start];
const CLEANUP: [ApiFunction; 4] = [ApiFunction::Stop, ApiFunction::Close, ApiFunction::Unload, ApiFunction::Delete];

fn seq(parts: &[&[ApiFunction]]) -> Vec<ApiFunction> {
    parts.iter().flat_map(|p| p.iter().copied()).collect()
}

#[test]
fn full_render_follows_the_lifecycle() {
    let mut dll = FakeDll::new();
    let render = Render::new(Runtime::new(), 1234, 48_000, 2500, 960);
    let (runtime, result) = dll.drive(render);
    let pcm = result.ok().expect("render succeeds");
    assert_eq!(
        dll.functions(),
        seq(&[&SETUP, &[ApiFunction::Generate, ApiFunction::Generate, ApiFunction::Generate], &CLEANUP])
    );
    let c = &dll.calls;
    assert_eq!(c[0].args, [w(48_000), w(0), w(0), w(0), w(0), w(0)]);
    assert_eq!(c[1].args, [Arg::CallbackA, Arg::CallbackB, w(0), w(0), w(0), w(0)]);
    assert_eq!(c[2].args, [w(1), w(0), w(0), w(0), w(0), w(0)]);
    assert_eq!(c[3].args, [w(1), Arg::MmfAddress, w(1234), w(1), w(0), w(0)]);
    assert_eq!(c[4].args, [w(1), w(77), w(0), w(0), w(0), w(0)]);
    assert_eq!(c[5].args, [w(1), w(77), w(0), w(0), w(0), w(0)]);
    assert_eq!(c[6].args, [w(1), w(77), w(1), w(0), w(0), w(0)]);
    assert_eq!(c[7].args, [Arg::LeftBuffer, Arg::RightBuffer, w(960), w(0), w(0), w(0)]);
    assert_eq!(c[8].args[2], w(960));
    assert_eq!(c[9].args[2], w(580));
    assert_eq!(c[10].args, [w(1), w(77), w(0), w(0), w(0), w(0)]);
    assert_eq!(c[13].args, [w(1), w(0), w(0), w(0), w(0), w(0)]);
    assert_eq!(pcm.sample_rate, 48_000);
    assert_eq!(pcm.samples.len(), 5000);
    assert_eq!(pcm.samples.len(), pcm.frames() * 2);
    assert_eq!(pcm.frames(), 2500);
    assert_eq!(&pcm.samples[0..6], &[1, -1, 2, -2, 3, -3]);
    assert_eq!(pcm.peak(), 2500);
    assert!(runtime.is_emu_initialized());
    assert!(runtime.is_initialized());
}

#[test]
fn initialized_runtime_skips_initialization() {
    let mut first = FakeDll::new();
    let (runtime, result) = first.drive(Render::new(Runtime::new(), 10, 44_100, 10, 960));
    assert!(result.is_ok());
    let mut second = FakeDll::new();
    let (runtime, result) = second.drive(Render::new(runtime, 10, 44_100, 10, 960));
    assert!(result.is_ok());
    assert_eq!(second.functions(), seq(&[&SETUP[2..], &[ApiFunction::Generate], &CLEANUP]));
    let names: Vec<ApiFunction> = runtime.shutdown_calls().iter().map(|c| c.function).collect();
    assert_eq!(names, vec![ApiFunction::Terminate, ApiFunction::EmuTerminate]);
    for call in runtime.shutdown_calls() {
        assert_eq!(call.args, [w(0); 6]);
    }
}

#[test]
fn fresh_runtime_needs_no_shutdown() {
    assert!(Runtime::new().shutdown_calls().is_empty());
    assert!(!Runtime::new().is_initialized());
}

fn expect_api_failure(result: Result<RenderedPcm, Error>, name: &str, code: u32) {
    match result {
        Err(Error::ApiCallFailed { name: n, code: c }) => {
            assert_eq!(n, name);
            assert_eq!(c, code);
        }
        _ => panic!("expected {name} to fail"),
    }
}

#[test]
fn emu_initialize_failure_stops_at_once() {
    let mut dll = FakeDll::failing(ApiFunction::EmuInitialize, 5);
    let (runtime, result) = dll.drive(Render::new(Runtime::new(), 10, 48_000, 10, 960));
    expect_api_failure(result, "MaSound_EmuInitialize", 5);
    assert_eq!(dll.functions(), vec![ApiFunction::EmuInitialize]);
    assert!(!runtime.is_emu_initialized());
    assert!(runtime.shutdown_calls().is_empty());
}

#[test]
fn initialize_failure_keeps_emulator_initialized() {
    let mut dll = FakeDll::failing(ApiFunction::Initialize, 9);
    let (runtime, result) = dll.drive(Render::new(Runtime::new(), 10, 48_000, 10, 960));
    expect_api_failure(result, "MaSound_Initialize", 9);
    assert_eq!(dll.functions(), vec![ApiFunction::EmuInitialize, ApiFunction::Initialize]);
    assert!(runtime.is_emu_initialized());
    assert!(!runtime.is_initialized());
    let names: Vec<ApiFunction> = runtime.shutdown_calls().iter().map(|c| c.function).collect();
    assert_eq!(names, vec![ApiFunction::EmuTerminate]);
    // the next render initialises again
    let mut again = FakeDll::new();
    let (_, result) = again.drive(Render::new(runtime, 10, 48_000, 10, 960));
    assert!(result.is_ok());
    assert_eq!(again.functions()[0], ApiFunction::EmuInitialize);
}

#[test]
fn create_failure_releases_nothing() {
    for code in [0, u32::MAX] {
        let mut dll = FakeDll::failing(ApiFunction::Create, code);
        let (_, result) = dll.drive(Render::new(Runtime::new(), 10, 48_000, 10, 960));
        expect_api_failure(result, "MaSound_Create", code);
        assert_eq!(dll.functions(), SETUP[..3].to_vec());
    }
}

#[test]
fn load_failure_deletes_the_slot() {
    for code in [0, u32::MAX] {
        let mut dll = FakeDll::failing(ApiFunction::Load, code);
        let (_, result) = dll.drive(Render::new(Runtime::new(), 10, 48_000, 10, 960));
        expect_api_failure(result, "MaSound_Load", code);
        assert_eq!(dll.functions(), seq(&[&SETUP[..4], &[ApiFunction::Delete]]));
    }
}

#[test]
fn open_failure_unloads_and_deletes() {
    let mut dll = FakeDll::failing(ApiFunction::Open, 2);
    let (_, result) = dll.drive(Render::new(Runtime::new(), 10, 48_000, 10, 960));
    expect_api_failure(result, "MaSound_Open", 2);
    assert_eq!(dll.functions(), seq(&[&SETUP[..5], &[ApiFunction::Unload, ApiFunction::Delete]]));
}

#[test]
fn standby_and_start_failures_close_unload_and_delete() {
    let mut dll = FakeDll::failing(ApiFunction::Standby, 4);
    let (_, result) = dll.drive(Render::new(Runtime::new(), 10, 48_000, 10, 960));
    expect_api_failure(result, "MaSound_Standby", 4);
    assert_eq!(dll.functions(), seq(&[&SETUP[..6], &[ApiFunction::Close, ApiFunction::Unload, ApiFunction::Delete]]));

    let mut dll = FakeDll::failing(ApiFunction::Start, 6);
    let (_, result) = dll.drive(Render::new(Runtime::new(), 10, 48_000, 10, 960));
    expect_api_failure(result, "MaSound_Start", 6);
    assert_eq!(dll.functions(), seq(&[&SETUP, &[ApiFunction::Close, ApiFunction::Unload, ApiFunction::Delete]]));
}

#[test]
fn cleanup_codes_are_ignored() {
    let mut dll = FakeDll::failing(ApiFunction::Stop, 99);
    let (_, result) = dll.drive(Render::new(Runtime::new(), 10, 48_000, 4, 960));
    assert!(result.is_ok());
    assert_eq!(dll.functions(), seq(&[&SETUP, &[ApiFunction::Generate], &CLEANUP]));
}

#[test]
fn generate_codes_are_ignored() {
    let mut dll = FakeDll::failing(ApiFunction::Generate, 1);
    let (_, result) = dll.drive(Render::new(Runtime::new(), 10, 48_000, 4, 960));
    assert_eq!(result.ok().map(|p| p.samples.len()), Some(8));
}

#[test]
fn zero_frames_render_nothing() {
    let mut dll = FakeDll::new();
    let (_, result) = dll.drive(Render::new(Runtime::new(), 10, 48_000, 0, 960));
    let pcm = result.ok().expect("render succeeds");
    assert!(pcm.samples.is_empty());
    assert_eq!(dll.functions(), seq(&[&SETUP, &CLEANUP]));
}

#[test]
fn zero_chunk_counts_as_one() {
    let mut dll = FakeDll::new();
    let (_, result) = dll.drive(Render::new(Runtime::new(), 10, 48_000, 3, 0));
    assert_eq!(result.ok().map(|p| p.samples), Some(vec![1, -1, 2, -2, 3, -3]));
    assert_eq!(dll.functions(), seq(&[&SETUP, &[ApiFunction::Generate, ApiFunction::Generate, ApiFunction::Generate], &CLEANUP]));
    for call in &dll.calls[7..10] {
        assert_eq!(call.args[2], w(1));
    }
}

#[test]
fn oversized_mmf_is_refused_before_any_call() {
    let too_long = u32::MAX as u64 + 1;
    if let Ok(len) = usize::try_from(too_long) {
        let render = Render::new(Runtime::new(), len, 48_000, 10, 960);
        assert!(render.is_finished());
        let mut dll = FakeDll::new();
        let (runtime, result) = dll.drive(render);
        assert!(matches!(result, Err(Error::MmfTooLarge(n)) if n == len));
        assert!(dll.calls.is_empty());
        assert!(!runtime.is_emu_initialized());
    }
}

#[test]
fn largest_mmf_is_accepted() {
    let render = Render::new(Runtime::new(), u32::MAX as usize, 48_000, 1, 960);
    assert!(!render.is_finished());
    match render.next_action() {
        Action::Call(call) => assert_eq!(call.function, ApiFunction::EmuInitialize),
        _ => panic!("expected a call"),
    }
}

#[test]
fn oversized_chunk_fails_after_start() {
    if let Ok(chunk) = usize::try_from(u32::MAX as u64 + 1) {
        let mut dll = FakeDll::new();
        let (_, result) = dll.drive(Render::new(Runtime::new(), 10, 48_000, u64::MAX, chunk));
        assert!(matches!(result, Err(Error::FrameCountTooLarge(n)) if n == chunk));
        assert_eq!(dll.functions(), seq(&[&SETUP, &CLEANUP]));
    }
}

#[test]
fn short_buffers_are_refused_and_cleaned_up() {
    let mut dll = FakeDll::new();
    dll.short_buffers = true;
    let (_, result) = dll.drive(Render::new(Runtime::new(), 10, 48_000, 5, 960));
    assert!(matches!(result, Err(Error::InvalidBufferLengths { left: 4, right: 5 })));
    assert_eq!(dll.functions(), seq(&[&SETUP, &[ApiFunction::Generate], &CLEANUP]));
}

#[test]
fn call_count_stays_within_bound() {
    for (frames, chunk) in [(0u64, 1usize), (3, 1), (10, 3), (7, 960)] {
        let mut dll = FakeDll::new();
        let (_, result) = dll.drive(Render::new(Runtime::new(), 10, 48_000, frames, chunk));
        assert!(result.is_ok());
        assert!((dll.calls.len() as u64) <= 12 + 16 * frames);
    }
}
