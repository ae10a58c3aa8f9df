use vstd::prelude::*;
use crate::error::Error;

verus! {

/// The exports of the emulator DLL that the render protocol calls.
#[derive(Debug, Clone, Copy, PartialEq, Eq, Structural)]
pub enum ApiFunction {
    EmuInitialize,
    EmuTerminate,
    Initialize,
    Terminate,
    Create,
    Delete,
    Load,
    Unload,
    Open,
    Close,
    Standby,
    Start,
    Stop,
    Generate,
}

impl ApiFunction {
    /// The name under which the DLL exports this function.
    pub open spec fn export_name(self) -> &'static str {
        match self {
            ApiFunction::EmuInitialize => "MaSound_EmuInitialize",
            ApiFunction::EmuTerminate => "MaSound_EmuTerminate",
            ApiFunction::Initialize => "MaSound_Initialize",
            ApiFunction::Terminate => "MaSound_Terminate",
            ApiFunction::Create => "MaSound_Create",
            ApiFunction::Delete => "MaSound_Delete",
            ApiFunction::Load => "MaSound_Load",
            ApiFunction::Unload => "MaSound_Unload",
            ApiFunction::Open => "MaSound_Open",
            ApiFunction::Close => "MaSound_Close",
            ApiFunction::Standby => "MaSound_Standby",
            ApiFunction::Start => "MaSound_Start",
            ApiFunction::Stop => "MaSound_Stop",
            ApiFunction::Generate => "MaSound_Generate",
        }
    }

    /// The name under which the DLL exports this function.
    pub fn symbol(&self) -> (name: &'static str)
        ensures
            name == self.export_name(),
    {
        match self {
            ApiFunction::EmuInitialize => "MaSound_EmuInitialize",
            ApiFunction::EmuTerminate => "MaSound_EmuTerminate",
            ApiFunction::Initialize => "MaSound_Initialize",
            ApiFunction::Terminate => "MaSound_Terminate",
            ApiFunction::Create => "MaSound_Create",
            ApiFunction::Delete => "MaSound_Delete",
            ApiFunction::Load => "MaSound_Load",
            ApiFunction::Unload => "MaSound_Unload",
            ApiFunction::Open => "MaSound_Open",
            ApiFunction::Close => "MaSound_Close",
            ApiFunction::Standby => "MaSound_Standby",
            ApiFunction::Start => "MaSound_Start",
            ApiFunction::Stop => "MaSound_Stop",
            ApiFunction::Generate => "MaSound_Generate",
        }
    }
}

/// Every export that the protocol calls, in the order in which they are
/// looked up when the DLL is loaded.
pub open spec fn export_order() -> Seq<ApiFunction> {
    seq![
        ApiFunction::EmuInitialize,
        ApiFunction::EmuTerminate,
        ApiFunction::Initialize,
        ApiFunction::Terminate,
        ApiFunction::Create,
        ApiFunction::Delete,
        ApiFunction::Load,
        ApiFunction::Unload,
        ApiFunction::Open,
        ApiFunction::Close,
        ApiFunction::Standby,
        ApiFunction::Start,
        ApiFunction::Stop,
        ApiFunction::Generate,
    ]
}

/// Every export that the protocol calls, in lookup order.
pub fn exports() -> (all: Vec<ApiFunction>)
    ensures
        all@ == export_order(),
{
    let mut all: Vec<ApiFunction> = Vec::new();
    all.push(ApiFunction::EmuInitialize);
    all.push(ApiFunction::EmuTerminate);
    all.push(ApiFunction::Initialize);
    all.push(ApiFunction::Terminate);
    all.push(ApiFunction::Create);
    all.push(ApiFunction::Delete);
    all.push(ApiFunction::Load);
    all.push(ApiFunction::Unload);
    all.push(ApiFunction::Open);
    all.push(ApiFunction::Close);
    all.push(ApiFunction::Standby);
    all.push(ApiFunction::Start);
    all.push(ApiFunction::Stop);
    all.push(ApiFunction::Generate);
    assert(all@ =~= export_order());
    all
}

impl ApiFunction {
    /// The position of this export in the lookup order.
    pub fn position(&self) -> (i: usize)
        ensures
            i < export_order().len(),
            export_order()[i as int] == *self,
    {
        match self {
            ApiFunction::EmuInitialize => 0,
            ApiFunction::EmuTerminate => 1,
            ApiFunction::Initialize => 2,
            ApiFunction::Terminate => 3,
            ApiFunction::Create => 4,
            ApiFunction::Delete => 5,
            ApiFunction::Load => 6,
            ApiFunction::Unload => 7,
            ApiFunction::Open => 8,
            ApiFunction::Close => 9,
            ApiFunction::Standby => 10,
            ApiFunction::Start => 11,
            ApiFunction::Stop => 12,
            ApiFunction::Generate => 13,
        }
    }
}

/// One of the six 32-bit words passed to an export.
///
/// Most words are plain values; the others stand for addresses that only the
/// caller of the DLL knows: the MMF image, the two channel buffers of a
/// generate call, and the two callbacks handed over at initialisation.
#[derive(Debug, Clone, Copy, PartialEq, Eq, Structural)]
pub enum Arg {
    Word(u32),
    MmfAddress,
    LeftBuffer,
    RightBuffer,
    CallbackA,
    CallbackB,
}

/// A call of one export with its six argument words.
#[derive(Debug, Clone, Copy)]
pub struct ApiCall {
    pub function: ApiFunction,
    pub args: [Arg; 6],
}

/// The argument words of a call, in order.
pub fn words(a0: Arg, a1: Arg, a2: Arg, a3: Arg, a4: Arg, a5: Arg) -> (args: [Arg; 6])
    ensures
        args@ == seq![a0, a1, a2, a3, a4, a5],
{
    let args = [a0, a1, a2, a3, a4, a5];
    assert(args@ =~= seq![a0, a1, a2, a3, a4, a5]);
    args
}

/// The error that reports a failing call of `function` with its code.
pub open spec fn call_failed(function: ApiFunction, code: u32) -> Error {
    Error::ApiCallFailed { name: function.export_name(), code }
}

/// Judges a call whose success is a zero return code.
pub fn check_zero(function: ApiFunction, code: u32) -> (r: Result<(), Error>)
    ensures
        code == 0 ==> r is Ok,
        code != 0 ==> r == Err::<(), Error>(call_failed(function, code)),
{
    if code == 0 {
        Ok(())
    } else {
        Err(Error::ApiCallFailed { name: function.symbol(), code })
    }
}

/// Whether a code returned by `Create` or `Load` names a usable object:
/// both exports report failure with 0 or with all bits set.
pub open spec fn is_handle(code: u32) -> bool {
    code != 0 && code != u32::MAX
}

/// Judges a call that returns a handle, failing on 0 and on all bits set.
pub fn check_handle(function: ApiFunction, code: u32) -> (r: Result<u32, Error>)
    ensures
        is_handle(code) ==> r == Ok::<u32, Error>(code),
        !is_handle(code) ==> r == Err::<u32, Error>(call_failed(function, code)),
{
    if code == 0 || code == u32::MAX {
        Err(Error::ApiCallFailed { name: function.symbol(), code })
    } else {
        Ok(code)
    }
}

/// The frame count that a generate call passes for channel buffers of the
/// given lengths: the buffers must be equally long, and that length must fit
/// in a 32-bit word.
pub fn buffer_frames(left: usize, right: usize) -> (r: Result<u32, Error>)
    ensures
        left != right ==> r == Err::<u32, Error>(Error::InvalidBufferLengths { left, right }),
        left == right && left > u32::MAX ==> r == Err::<u32, Error>(Error::FrameCountTooLarge(left)),
        left == right && left <= u32::MAX ==> r == Ok::<u32, Error>(left as u32),
{
    if left != right {
        return Err(Error::InvalidBufferLengths { left, right });
    }
    if left > u32::MAX as usize {
        return Err(Error::FrameCountTooLarge(left));
    }
    Ok(left as u32)
}

} // verus!
