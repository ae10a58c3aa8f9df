use ma5_native::Error;
use ma5_native::ApiFunction;
use ma5_native::api::{buffer_frames, check_handle, check_zero, exports};

#[test]
fn api_failure_message_has_eight_hex_digits() {
    let e = Error::ApiCallFailed { name: "MaSound_Open", code: 0x1f };
    assert_eq!(e.message(), "MaSound_Open failed with code 0x0000001f");
    let e = Error::ApiCallFailed { name: "MaSound_Create", code: u32::MAX };
    assert_eq!(e.message(), "MaSound_Create failed with code 0xffffffff");
    let e = Error::ApiCallFailed { name: "MaSound_Start", code: 0xdeadbeef };
    assert_eq!(e.message(), format!("MaSound_Start failed with code 0x{:08x}", 0xdeadbeefu32));
}

#[test]
fn size_messages() {
    assert_eq!(
        Error::MmfTooLarge(4_294_967_296).message(),
        "MMF length 4294967296 exceeds the 32-bit API limit"
    );
    assert_eq!(
        Error::InvalidBufferLengths { left: 10, right: 0 }.message(),
        "left and right output buffers differ in length (10 != 0)"
    );
    assert_eq!(
        Error::FrameCountTooLarge(5_000_000_000).message(),
        "frame count 5000000000 cannot be represented by the DLL ABI"
    );
}

#[test]
fn platform_message() {
    assert_eq!(
        Error::UnsupportedPlatform.message(),
        "the vendor DLL is a 32-bit Windows library; use an i686-pc-windows target"
    );
}

#[test]
fn export_symbols() {
    assert_eq!(ApiFunction::EmuInitialize.symbol(), "MaSound_EmuInitialize");
    assert_eq!(ApiFunction::Generate.symbol(), "MaSound_Generate");
    let all = exports();
    assert_eq!(all.len(), 14);
    let names: Vec<&str> = all.iter().map(|f| f.symbol()).collect();
    assert_eq!(
        names,
        vec![
            "MaSound_EmuInitialize",
            "MaSound_EmuTerminate",
            "MaSound_Initialize",
            "MaSound_Terminate",
            "MaSound_Create",
            "MaSound_Delete",
            "MaSound_Load",
            "MaSound_Unload",
            "MaSound_Open",
            "MaSound_Close",
            "MaSound_Standby",
            "MaSound_Start",
            "MaSound_Stop",
            "MaSound_Generate",
        ]
    );
    for (i, f) in all.iter().enumerate() {
        assert_eq!(f.position(), i);
    }
}

#[test]
fn zero_means_success() {
    assert!(check_zero(ApiFunction::Open, 0).is_ok());
    match check_zero(ApiFunction::Open, 3) {
        Err(Error::ApiCallFailed { name, code }) => {
            assert_eq!(name, "MaSound_Open");
            assert_eq!(code, 3);
        }
        _ => panic!("expected a failure"),
    }
}

#[test]
fn handles_exclude_zero_and_all_ones() {
    assert_eq!(check_handle(ApiFunction::Load, 5).ok(), Some(5));
    assert!(matches!(
        check_handle(ApiFunction::Load, 0),
        Err(Error::ApiCallFailed { name: "MaSound_Load", code: 0 })
    ));
    assert!(matches!(
        check_handle(ApiFunction::Create, u32::MAX),
        Err(Error::ApiCallFailed { name: "MaSound_Create", code: u32::MAX })
    ));
}

#[test]
fn buffer_frame_checks() {
    assert_eq!(buffer_frames(960, 960).ok(), Some(960));
    assert!(matches!(
        buffer_frames(3, 4),
        Err(Error::InvalidBufferLengths { left: 3, right: 4 })
    ));
    if let Some(too_many) = (u32::MAX as usize).checked_add(1) {
        assert!(matches!(
            buffer_frames(too_many, too_many),
            Err(Error::FrameCountTooLarge(n)) if n == too_many
        ));
    }
}

#[test]
fn load_failure_messages_carry_libloading_text() {
    let text = libloading::Error::DlOpenUnknown.to_string();
    assert_eq!(
        Error::LoadLibrary(libloading::Error::DlOpenUnknown).message(),
        format!("failed to load DLL: {text}")
    );
    let text = libloading::Error::DlSymUnknown.to_string();
    assert_eq!(
        Error::MissingExport { name: "MaSound_Stop", source: libloading::Error::DlSymUnknown }.message(),
        format!("DLL export MaSound_Stop is unavailable: {text}")
    );
    assert_eq!(text, "dlsym failed, but system did not report the error");
}
