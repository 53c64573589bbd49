use lpd8_sysex::codec::Pad;
use lpd8_sysex::codec::Program;
use lpd8_sysex::codec::encode_program_response;
use lpd8_sysex::codec::encode_program_upload;
use lpd8_sysex::discovery::check_info;
use lpd8_sysex::discovery::discover_candidates;
use lpd8_sysex::discovery::identity_filter;
use lpd8_sysex::registry::resolve_port;
use lpd8_sysex::session::DevicePortPair;
use lpd8_sysex::session::DeviceSession;
use lpd8_sysex::session::EndpointRef;
use lpd8_sysex::session::TransactFailure;

fn identity_reply() -> Vec<u8> {
    let (tmpl, _) = identity_filter();
    tmpl
}

fn edited_program() -> Program {
    let mut p = Program::default();
    p.channel = 5;
    p.pads[3] = Pad { note: 0x30, program_change: 1, control_change: 2, toggle: true };
    p
}

#[test]
fn a_fresh_session_has_no_device_and_default_slots() {
    let session = DeviceSession::new();
    assert!(session.device.is_none());
    assert_eq!(session.programs.len(), 4);
    assert!(session.programs.iter().all(|p| *p == Program::default()));
}

#[test]
fn select_device_replaces_the_pair_wholesale() {
    let mut session = DeviceSession::new();
    let pair = DevicePortPair {
        input: EndpointRef { index: 0, name: String::from("LPD8 in") },
        output: EndpointRef { index: 2, name: String::from("LPD8 out") },
    };
    session.select_device(pair);
    let held = session.device.as_ref().unwrap();
    assert_eq!(held.input.name, "LPD8 in");
    assert_eq!(held.output.index, 2);
}

#[test]
fn set_program_overwrites_only_its_slot() {
    let mut session = DeviceSession::new();
    session.set_program(2, edited_program());
    assert_eq!(*session.program(2), edited_program());
    assert_eq!(*session.program(1), Program::default());
    assert_eq!(*session.program(3), Program::default());
    assert_eq!(*session.program(4), Program::default());
}

#[test]
fn push_payload_serializes_the_slot_snapshot() {
    let mut session = DeviceSession::new();
    session.set_program(3, edited_program());
    assert_eq!(session.push_payload(3), encode_program_upload(3, &edited_program()));
}

#[test]
fn fetch_overwrites_the_slot_on_success() {
    let mut session = DeviceSession::new();
    let response = encode_program_response(2, &edited_program());
    let fetched = session.apply_fetch(2, Some(response)).unwrap();
    assert_eq!(fetched, edited_program());
    assert_eq!(*session.program(2), edited_program());
    assert_eq!(*session.program(1), Program::default());
}

#[test]
fn fetch_timeout_leaves_the_slots_untouched() {
    let mut session = DeviceSession::new();
    session.set_program(1, edited_program());
    let r = session.apply_fetch(1, None);
    assert_eq!(r, Err(TransactFailure::Timeout));
    assert_eq!(*session.program(1), edited_program());
}

#[test]
fn fetch_of_a_malformed_response_leaves_the_slots_untouched() {
    let mut session = DeviceSession::new();
    session.set_program(4, edited_program());
    let r = session.apply_fetch(4, Some(vec![0xF0, 0x47, 0xF7]));
    assert_eq!(r, Err(TransactFailure::MalformedResponse));
    assert_eq!(*session.program(4), edited_program());
}

#[test]
fn current_active_reads_the_slot_byte() {
    let response = vec![0xF0, 0x47, 0x7F, 0x75, 0x64, 0x00, 0x01, 0x03, 0xF7];
    assert_eq!(DeviceSession::complete_current_active(Some(response)), Ok(3));
}

#[test]
fn current_active_times_out_without_a_response() {
    assert_eq!(
        DeviceSession::complete_current_active(None),
        Err(TransactFailure::Timeout)
    );
}

#[test]
fn current_active_rejects_a_deviating_header() {
    let response = vec![0xF0, 0x47, 0x7F, 0x75, 0x63, 0x00, 0x01, 0x03, 0xF7];
    assert_eq!(
        DeviceSession::complete_current_active(Some(response)),
        Err(TransactFailure::MalformedResponse)
    );
}

#[test]
fn identity_template_identifies_the_device() {
    assert!(check_info(&identity_reply()));
}

#[test]
fn identity_check_rejects_altered_model_bytes() {
    let mut impostor = identity_reply();
    impostor[5] = 0x12;
    impostor[6] = 0x34;
    assert_eq!(impostor.len(), 35);
    assert!(!check_info(&impostor));
}

#[test]
fn identity_check_rejects_a_short_reply() {
    let mut short = identity_reply();
    short.pop();
    assert!(!check_info(&short));
}

#[test]
fn identity_check_leaves_unchecked_offsets_free() {
    // offsets 2 and 13 carry bytes the device may vary
    let mut reply = identity_reply();
    reply[2] = 0x0A;
    reply[13] = 0x00;
    assert!(check_info(&reply));
}

#[test]
fn discovery_keeps_the_candidates_in_enumeration_order() {
    let mut impostor = identity_reply();
    impostor[5] = 0x12;
    let replies = vec![
        None,
        Some(identity_reply()),
        Some(impostor),
        Some(identity_reply()),
    ];
    assert_eq!(discover_candidates(&replies), vec![1, 3]);
}

#[test]
fn discovery_without_replies_finds_nothing() {
    let replies: Vec<Option<Vec<u8>>> = vec![None, None];
    assert_eq!(discover_candidates(&replies), Vec::<usize>::new());
    assert_eq!(discover_candidates(&Vec::new()), Vec::<usize>::new());
}

#[test]
fn resolve_port_finds_the_first_bearer_of_the_name() {
    let names = vec![
        String::from("Midi Through"),
        String::from("LPD8"),
        String::from("LPD8"),
    ];
    assert_eq!(resolve_port(&names, &String::from("LPD8")), Some(1));
    assert_eq!(resolve_port(&names, &String::from("Midi Through")), Some(0));
}

#[test]
fn resolve_port_reports_a_vanished_endpoint() {
    let names = vec![String::from("Midi Through")];
    assert_eq!(resolve_port(&names, &String::from("LPD8")), None);
    assert_eq!(resolve_port(&Vec::new(), &String::from("LPD8")), None);
}
