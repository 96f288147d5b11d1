use dalamud_boot::boot::{Action, Boot, Event, Outcome, Phase, HOST_API_BUFFER_TOO_SMALL};
use dalamud_boot::error::{Error, Export};
use dalamud_boot::payload::Param;
use dalamud_boot::status::Status;

const PAYLOAD: &str = r#"{"dalamud_root":"/opt/dalamud","profile_root":"/opt/profiles"}"#;

fn started(payload: &str) -> Boot {
    let param = Param::decode(payload).unwrap();
    let (boot, action) = Boot::new(param, payload.to_string());
    assert_eq!(action, Action::ProbePathLength);
    boot
}

fn resolver_path_units() -> Vec<u16> {
    let mut units: Vec<u16> = "/usr/lib/dotnet/hostfxr.so".encode_utf16().collect();
    units.push(0);
    units
}

/// Drive a freshly started machine up to a successfully bound host library.
fn drive_to_bound(boot: &mut Boot) {
    let units = resolver_path_units();
    let action = boot.step(Event::ProbeDone {
        status: Status(HOST_API_BUFFER_TOO_SMALL),
        required: units.len(),
    });
    assert_eq!(action, Action::ReadPath { len: units.len() });
    let action = boot.step(Event::ReadDone { status: Status(0), units });
    assert!(matches!(action, Action::BindHostLibrary { .. }));
    let action = boot.step(Event::BindDone {
        close_found: true,
        init_found: true,
        delegate_found: true,
    });
    assert!(matches!(action, Action::InitializeRuntime { .. }));
}

#[test]
fn locator_buffer_too_small_then_success_yields_terminated_path() {
    let mut boot = started(PAYLOAD);
    let units = resolver_path_units();
    let reported_len = units.len(); // L: path of L-1 units plus terminator

    let action = boot.step(Event::ProbeDone {
        status: Status(HOST_API_BUFFER_TOO_SMALL),
        required: reported_len,
    });
    assert_eq!(action, Action::ReadPath { len: reported_len });

    let action = boot.step(Event::ReadDone { status: Status(0), units: units.clone() });
    match action {
        Action::BindHostLibrary { path } => {
            assert_eq!(path.len(), reported_len);
            assert_eq!(path.len(), reported_len - 1 + 1);
            assert_eq!(*path.last().unwrap(), 0u16);
            assert_eq!(path, units);
        }
        other => panic!("expected a bind action, got {:?}", other),
    }
}

#[test]
fn locator_probe_failure_stops_discovery() {
    let mut boot = started(PAYLOAD);
    let action = boot.step(Event::ProbeDone { status: Status(0x8000_8093), required: 77 });
    assert_eq!(
        action,
        Action::Finish { outcome: Outcome::Failure(Error::DiscoveryFailure(Status(0x8000_8093))) }
    );
    // the run is over: the machine never asks for the second discovery call
    assert!(matches!(boot.phase, Phase::Done { .. }));
}

#[test]
fn locator_second_call_failure_is_fatal() {
    let mut boot = started(PAYLOAD);
    let action = boot.step(Event::ProbeDone {
        status: Status(HOST_API_BUFFER_TOO_SMALL),
        required: 4,
    });
    assert_eq!(action, Action::ReadPath { len: 4 });
    let action = boot.step(Event::ReadDone { status: Status(0x8000_8098), units: vec![0; 4] });
    assert_eq!(
        action,
        Action::Finish { outcome: Outcome::Failure(Error::DiscoveryFailure(Status(0x8000_8098))) }
    );
}

fn missing_export_case(close_found: bool, init_found: bool, delegate_found: bool, who: Export) {
    let mut boot = started(PAYLOAD);
    let units = resolver_path_units();
    boot.step(Event::ProbeDone { status: Status(HOST_API_BUFFER_TOO_SMALL), required: units.len() });
    boot.step(Event::ReadDone { status: Status(0), units });
    let action = boot.step(Event::BindDone { close_found, init_found, delegate_found });
    assert_eq!(
        action,
        Action::Finish { outcome: Outcome::Failure(Error::SymbolResolutionFailure(who)) }
    );
}

#[test]
fn binding_missing_close_is_named() {
    missing_export_case(false, true, true, Export::Close);
}

#[test]
fn binding_missing_initialize_is_named() {
    missing_export_case(true, false, true, Export::InitializeForRuntimeConfig);
}

#[test]
fn binding_missing_delegate_is_named() {
    missing_export_case(true, true, false, Export::GetRuntimeDelegate);
}

#[test]
fn create_with_top_bit_clear_opens_a_context() {
    let mut boot = started(PAYLOAD);
    drive_to_bound(&mut boot);
    let action = boot.step(Event::InitDone { status: Status(0x0000_0001) });
    assert_eq!(action, Action::GetRuntimeDelegate);
    assert!(boot.created);
}

#[test]
fn create_with_top_bit_set_produces_no_context() {
    let mut boot = started(PAYLOAD);
    drive_to_bound(&mut boot);
    let action = boot.step(Event::InitDone { status: Status(0x8000_0005) });
    assert_eq!(
        action,
        Action::Finish {
            outcome: Outcome::Failure(Error::RuntimeInitializationFailure(Status(0x8000_0005)))
        }
    );
    assert!(!boot.created);
    assert_eq!(boot.closes, 0);
}

#[test]
fn close_is_demanded_exactly_once_when_load_fails_partway() {
    let mut boot = started(PAYLOAD);
    drive_to_bound(&mut boot);
    boot.step(Event::InitDone { status: Status(0) });
    let mut close_actions = 0;
    let action = boot.step(Event::DelegateDone { status: Status(0) });
    assert!(matches!(action, Action::LoadEntryPoint { .. }));
    // fault injected after context creation: loading the assembly fails
    let action = boot.step(Event::LoadDone { status: Status(0x8013_1500) });
    if action == Action::CloseContext {
        close_actions += 1;
    }
    let action = boot.step(Event::CloseDone { status: Status(0) });
    assert_eq!(
        action,
        Action::Finish {
            outcome: Outcome::Failure(Error::EntryPointResolutionFailure(Status(0x8013_1500)))
        }
    );
    assert_eq!(close_actions, 1);
    assert_eq!(boot.closes, 1);
    assert!(boot.created);
}

#[test]
fn delegate_failure_still_closes_the_context() {
    let mut boot = started(PAYLOAD);
    drive_to_bound(&mut boot);
    boot.step(Event::InitDone { status: Status(0) });
    let action = boot.step(Event::DelegateDone { status: Status(0x8000_000E) });
    assert_eq!(action, Action::CloseContext);
    let action = boot.step(Event::CloseDone { status: Status(0) });
    assert_eq!(
        action,
        Action::Finish {
            outcome: Outcome::Failure(Error::EntryPointResolutionFailure(Status(0x8000_000E)))
        }
    );
    assert_eq!(boot.closes, 1);
}

fn drive_to_invoke(payload: &str) -> (Boot, Vec<u8>) {
    let mut boot = started(payload);
    drive_to_bound(&mut boot);
    boot.step(Event::InitDone { status: Status(0) });
    boot.step(Event::DelegateDone { status: Status(0) });
    let action = boot.step(Event::LoadDone { status: Status(0) });
    match action {
        Action::InvokeEntryPoint { buffer } => (boot, buffer),
        other => panic!("expected the entry invocation, got {:?}", other),
    }
}

#[test]
fn parameter_with_multibyte_character_round_trips_byte_for_byte() {
    let payload = r#"{"dalamud_root":"/opt/dalamud","profile_root":"/opt/prøfilé — 🎉"}"#;
    let (_boot, buffer) = drive_to_invoke(payload);
    let mut expected = payload.as_bytes().to_vec();
    expected.push(0);
    assert_eq!(buffer, expected);
    assert_eq!(buffer.len(), payload.as_bytes().len() + 1);
    assert_eq!(*buffer.last().unwrap(), 0u8);
}

#[test]
fn entry_returning_zero_is_success() {
    let (mut boot, _buffer) = drive_to_invoke(PAYLOAD);
    let action = boot.step(Event::EntryReturned { code: 0 });
    assert_eq!(action, Action::CloseContext);
    let action = boot.step(Event::CloseDone { status: Status(0) });
    assert_eq!(action, Action::Finish { outcome: Outcome::Success });
    assert_eq!(boot.closes, 1);
}

#[test]
fn entry_returning_five_surfaces_the_code_unchanged() {
    let (mut boot, _buffer) = drive_to_invoke(PAYLOAD);
    let action = boot.step(Event::EntryReturned { code: 5 });
    assert_eq!(action, Action::CloseContext);
    let action = boot.step(Event::CloseDone { status: Status(0) });
    assert_eq!(
        action,
        Action::Finish { outcome: Outcome::Failure(Error::ManagedEntryPointFailure(5)) }
    );
}

#[test]
fn failing_close_is_an_unrecoverable_fault() {
    let (mut boot, _buffer) = drive_to_invoke(PAYLOAD);
    boot.step(Event::EntryReturned { code: 0 });
    let action = boot.step(Event::CloseDone { status: Status(0x8000_4005) });
    assert_eq!(action, Action::Finish { outcome: Outcome::Fault });
    assert_eq!(boot.phase, Phase::Done { outcome: Outcome::Fault });
}

#[test]
fn derived_wide_paths_match_the_standard_encoding() {
    let payload = r#"{"dalamud_root":"/opt/dälamud 🎉","profile_root":"/opt/profiles"}"#;
    let mut boot = started(payload);
    let units = resolver_path_units();
    boot.step(Event::ProbeDone { status: Status(HOST_API_BUFFER_TOO_SMALL), required: units.len() });
    boot.step(Event::ReadDone { status: Status(0), units });
    let action = boot.step(Event::BindDone {
        close_found: true,
        init_found: true,
        delegate_found: true,
    });
    let mut expected_config: Vec<u16> =
        "/opt/dälamud 🎉/Dalamud.runtimeconfig.json".encode_utf16().collect();
    expected_config.push(0);
    match action {
        Action::InitializeRuntime { config_path } => assert_eq!(config_path, expected_config),
        other => panic!("expected runtime initialization, got {:?}", other),
    }
    boot.step(Event::InitDone { status: Status(0) });
    let action = boot.step(Event::DelegateDone { status: Status(0) });
    let mut expected_assembly: Vec<u16> = "/opt/dälamud 🎉/Dalamud.dll".encode_utf16().collect();
    expected_assembly.push(0);
    let mut expected_type: Vec<u16> =
        "Dalamud.Boot.EntryPoint, Dalamud".encode_utf16().collect();
    expected_type.push(0);
    let mut expected_method: Vec<u16> = "Initialize".encode_utf16().collect();
    expected_method.push(0);
    match action {
        Action::LoadEntryPoint { assembly_path, entry_type, entry_method } => {
            assert_eq!(assembly_path, expected_assembly);
            assert_eq!(entry_type, expected_type);
            assert_eq!(entry_method, expected_method);
        }
        other => panic!("expected the entry point load, got {:?}", other),
    }
}

#[test]
fn root_with_embedded_terminator_is_rejected_before_initialization() {
    let payload = "{\"dalamud_root\":\"/opt/da\\u0000lamud\",\"profile_root\":\"/opt/p\"}";
    let mut boot = started(payload);
    let units = resolver_path_units();
    boot.step(Event::ProbeDone { status: Status(HOST_API_BUFFER_TOO_SMALL), required: units.len() });
    boot.step(Event::ReadDone { status: Status(0), units });
    let action = boot.step(Event::BindDone {
        close_found: true,
        init_found: true,
        delegate_found: true,
    });
    assert_eq!(
        action,
        Action::Finish { outcome: Outcome::Failure(Error::InvalidParameterEncoding) }
    );
    assert_eq!(boot.closes, 0);
}
