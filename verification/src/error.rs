use vstd::prelude::*;
use vstd::string::*;
use libloading::Error as LoadError;
use crate::text::{decimal, hex_digits, push_decimal, push_hex_digits, text};

verus! {

/// Everything that can go wrong while loading the emulator or rendering with it.
#[derive(Debug)]
pub enum Error {
    /// The host cannot load the 32-bit Windows DLL.
    UnsupportedPlatform,
    /// The DLL itself could not be loaded.
    LoadLibrary(libloading::Error),
    /// The DLL lacks one of the exports the protocol needs.
    MissingExport { name: &'static str, source: libloading::Error },
    /// An export answered with a code that means failure.
    ApiCallFailed { name: &'static str, code: u32 },
    /// The MMF image is longer than a 32-bit length can say.
    MmfTooLarge(usize),
    /// The two channel buffers of one generate call differ in length.
    InvalidBufferLengths { left: usize, right: usize },
    /// A chunk of frames is longer than a 32-bit count can say.
    FrameCountTooLarge(usize),
}

/// The text that `libloading`'s `Display` gives for an error: a fixed
/// sentence for most variants, the loader's stored description for the rest;
/// a function of the error value alone.
pub uninterp spec fn load_error_display(e: LoadError) -> Seq<char>;

/// The text that `libloading` gives for one of its errors
/// (`<libloading::Error as Display>::fmt`, through `to_string`).
#[verifier::external_body]
fn load_error_text(error: &LoadError) -> (text: String)
    ensures
        text@ == load_error_display(*error),
{
    error.to_string()
}

impl Error {
    /// The message that describes the error to a person.
    pub fn message(&self) -> (m: String)
        ensures
            self is UnsupportedPlatform ==> m@
                == "the vendor DLL is a 32-bit Windows library; use an i686-pc-windows target"@,
            self matches Error::LoadLibrary(error) ==> m@ == "failed to load DLL: "@ + load_error_display(*error),
            self matches Error::MissingExport { name, source } ==> m@ == "DLL export "@ + name@
                + " is unavailable: "@ + load_error_display(*source),
            self matches Error::ApiCallFailed { name, code } ==> m@ == name@ + " failed with code 0x"@
                + hex_digits(code as nat, 8),
            self matches Error::MmfTooLarge(len) ==> m@ == "MMF length "@ + decimal(len as nat)
                + " exceeds the 32-bit API limit"@,
            self matches Error::InvalidBufferLengths { left, right } ==> m@
                == "left and right output buffers differ in length ("@ + decimal(left as nat) + " != "@
                + decimal(right as nat) + ")"@,
            self matches Error::FrameCountTooLarge(frames) ==> m@ == "frame count "@ + decimal(
                frames as nat,
            ) + " cannot be represented by the DLL ABI"@,
    {
        match self {
            Error::UnsupportedPlatform => text(
                "the vendor DLL is a 32-bit Windows library; use an i686-pc-windows target",
            ),
            Error::LoadLibrary(error) => {
                let mut m = text("failed to load DLL: ");
                let detail = load_error_text(error);
                m.append(detail.as_str());
                m
            },
            Error::MissingExport { name, source } => {
                let mut m = text("DLL export ");
                m.append(name);
                m.append(" is unavailable: ");
                let detail = load_error_text(source);
                m.append(detail.as_str());
                m
            },
            Error::ApiCallFailed { name, code } => {
                let mut m = text(name);
                m.append(" failed with code 0x");
                push_hex_digits(&mut m, *code, 8);
                m
            },
            Error::MmfTooLarge(len) => {
                let mut m = text("MMF length ");
                push_decimal(&mut m, *len as u64);
                m.append(" exceeds the 32-bit API limit");
                m
            },
            Error::InvalidBufferLengths { left, right } => {
                let mut m = text("left and right output buffers differ in length (");
                push_decimal(&mut m, *left as u64);
                m.append(" != ");
                push_decimal(&mut m, *right as u64);
                m.append(")");
                m
            },
            Error::FrameCountTooLarge(frames) => {
                let mut m = text("frame count ");
                push_decimal(&mut m, *frames as u64);
                m.append(" cannot be represented by the DLL ABI");
                m
            },
        }
    }
}

/// Result of the library's fallible operations.
pub type Result<T> = std::result::Result<T, Error>;

} // verus!
