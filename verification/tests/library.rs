use phidget::errors::ReturnCode;
use phidget::handle::Context;
use phidget::native::{NativeCall, TextCall};
use phidget::net::{
    add_server, disable_server, disable_server_discovery, enable_server,
    enable_server_discovery, remove_all_servers, remove_server, set_on_server_added_handler,
    set_on_server_removed_handler, set_server_passward, settle_server_handler, ServerType,
};
use phidget::text::text_reply;
use phidget::{library_version, library_version_number, reset_library};

/// A native layer that knows its version and a few descriptions.
fn perform(call: NativeCall) -> (u32, Option<&'static [u8]>) {
    match call {
        NativeCall::GetLibraryVersion => (
            0,
            Some(b"Phidget22 - Version 1.14 - Built Mar 31 2023 22:44:59".as_slice()),
        ),
        NativeCall::GetLibraryVersionNumber => (0, Some(b"1.14".as_slice())),
        NativeCall::GetErrorDescription { code: 3 } => (0, Some(b"Timed Out".as_slice())),
        NativeCall::GetErrorDescription { code: 28 } => (0, None),
        NativeCall::GetErrorDescription { .. } => (13, None),
        _ => (20, None),
    }
}

fn query(call: NativeCall) -> Result<String, ReturnCode> {
    let (code, text) = perform(call);
    text_reply(code, text)
}

fn show(kind: ReturnCode) -> String {
    match kind.description_call() {
        None => kind.describe(0, None),
        Some(call) => {
            let (code, text) = perform(call);
            kind.describe(code, text)
        }
    }
}

#[test]
fn test_library_queries() {
    assert!(query(library_version()).is_ok());
    assert!(query(library_version_number()).is_ok());
}

#[test]
fn the_library_tells_its_version() {
    assert_eq!(library_version(), NativeCall::GetLibraryVersion);
    assert_eq!(library_version_number(), NativeCall::GetLibraryVersionNumber);
    assert_eq!(reset_library(), NativeCall::ResetLibrary);
    assert_eq!(query(library_version_number()), Ok(String::from("1.14")));
    assert_eq!(query(reset_library()), Err(ReturnCode::Unsupported));
}

#[test]
fn kinds_are_shown_by_the_native_description() {
    assert_eq!(show(ReturnCode::Success), "OK");
    assert_eq!(show(ReturnCode::Timeout), "Timed Out");
    assert_eq!(show(ReturnCode::Unexpected), "Unknown");
    assert_eq!(show(ReturnCode::Busy), "Unknown");
}

#[test]
fn the_description_call_names_the_code() {
    assert_eq!(ReturnCode::Success.description_call(), None);
    assert_eq!(
        ReturnCode::Timeout.description_call(),
        Some(NativeCall::GetErrorDescription { code: 3 })
    );
    assert_eq!(
        ReturnCode::Nack.description_call(),
        Some(NativeCall::GetErrorDescription { code: 67 })
    );
    assert_eq!(ReturnCode::Success.describe(0, Some(b"anything")), "OK");
    assert_eq!(ReturnCode::Io.describe(0, Some(b"I/O Issue")), "I/O Issue");
    assert_eq!(ReturnCode::Io.describe(0, Some(b"I/O \xff")), "I/O \u{fffd}");
    assert_eq!(ReturnCode::Io.describe(13, Some(b"I/O Issue")), "Unknown");
    assert_eq!(ReturnCode::Io.describe(0, None), "Unknown");
}

#[test]
fn the_server_calls() {
    let texts = |all: &[&str]| all.iter().map(|t| t.to_string()).collect::<Vec<String>>();
    assert_eq!(
        add_server("bench", "192.168.1.7", 5661, ""),
        TextCall {
            call: NativeCall::AddServer { port: 5661 },
            texts: texts(&["bench", "192.168.1.7", ""])
        }
    );
    assert_eq!(
        remove_server("bench"),
        TextCall { call: NativeCall::RemoveServer, texts: texts(&["bench"]) }
    );
    assert_eq!(remove_all_servers(), NativeCall::RemoveAllServers);
    assert_eq!(
        enable_server("bench"),
        TextCall { call: NativeCall::EnableServer, texts: texts(&["bench"]) }
    );
    assert_eq!(
        disable_server("bench"),
        TextCall { call: NativeCall::DisableServer, texts: texts(&["bench"]) }
    );
    assert_eq!(
        set_server_passward("bench", "secret"),
        TextCall { call: NativeCall::SetServerPassword, texts: texts(&["bench", "secret"]) }
    );
    assert_eq!(
        enable_server_discovery(ServerType::DeviceRemote),
        NativeCall::EnableServerDiscovery { server_type: 3 }
    );
    assert_eq!(
        disable_server_discovery(ServerType::Sbc),
        NativeCall::DisableServerDiscovery { server_type: 7 }
    );
}

#[test]
fn a_server_handler_is_released_only_when_its_registration_fails() {
    let context = Context::from_addr(0x800);
    assert_eq!(
        set_on_server_added_handler(context),
        NativeCall::SetOnServerAddedHandler { context }
    );
    assert_eq!(
        set_on_server_removed_handler(context),
        NativeCall::SetOnServerRemovedHandler { context }
    );
    let kept = settle_server_handler(context, 0);
    assert_eq!(kept.result, Ok(()));
    assert_eq!(kept.release, None);
    let failed = settle_server_handler(context, 6);
    assert_eq!(failed.result, Err(ReturnCode::NoMemory));
    assert_eq!(failed.release, Some(context));
}
