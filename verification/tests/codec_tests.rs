use lpd8_sysex::codec::LPD8Message;
use lpd8_sysex::codec::Knob;
use lpd8_sysex::codec::Pad;
use lpd8_sysex::codec::Program;
use lpd8_sysex::codec::WireError;
use lpd8_sysex::codec::decode_active;
use lpd8_sysex::codec::decode_program;
use lpd8_sysex::codec::encode_get_active;
use lpd8_sysex::codec::encode_identify_request;
use lpd8_sysex::codec::encode_program_request;
use lpd8_sysex::codec::encode_program_response;
use lpd8_sysex::codec::encode_program_upload;
use lpd8_sysex::codec::encode_set_active;

fn sample_program() -> Program {
    let mut pads = Vec::new();
    let mut knobs = Vec::new();
    for i in 0..8u8 {
        pads.push(Pad {
            note: 0x20 + i,
            program_change: i,
            control_change: 0x10 + i,
            toggle: i % 2 == 0,
        });
        knobs.push(Knob { control_change: i, low: 0, high: 0x7F - i });
    }
    Program { channel: 9, pads, knobs }
}

#[test]
fn fixed_requests_have_the_documented_bytes() {
    assert_eq!(
        encode_program_request(2),
        vec![0xF0, 0x47, 0x7F, 0x75, 0x63, 0x00, 0x01, 0x02, 0xF7]
    );
    assert_eq!(
        encode_set_active(4),
        vec![0xF0, 0x47, 0x7F, 0x75, 0x62, 0x00, 0x01, 0x04, 0xF7]
    );
    assert_eq!(
        encode_get_active(),
        vec![0xF0, 0x47, 0x7F, 0x75, 0x64, 0x00, 0x00, 0xF7]
    );
    assert_eq!(encode_identify_request(), vec![0xF0, 0x7E, 0x00, 0x06, 0x01, 0xF7]);
}

#[test]
fn message_kinds_map_to_their_opcodes() {
    assert_eq!(LPD8Message::UploadProgram.to_pattern(), 0x61);
    assert_eq!(LPD8Message::SetActiveProgram.to_pattern(), 0x62);
    assert_eq!(LPD8Message::DownloadProgram.to_pattern(), 0x63);
    assert_eq!(LPD8Message::GetActiveProgram.to_pattern(), 0x64);
}

#[test]
fn default_program_serializes_to_66_bytes() {
    let encoded = encode_program_upload(1, &Program::default());
    assert_eq!(encoded.len(), 66);
    assert_eq!(&encoded[0..8], &[0xF0, 0x47, 0x7F, 0x75, 0x61, 0x00, 0x3A, 0x01]);
    assert_eq!(encoded[8], 0x00);
    assert!(encoded[9..65].iter().all(|b| *b == 0x00));
    assert_eq!(encoded[65], 0xF7);
}

#[test]
fn upload_lays_fields_out_positionally() {
    let p = sample_program();
    let encoded = encode_program_upload(3, &p);
    assert_eq!(encoded.len(), 66);
    assert_eq!(encoded[7], 3);
    assert_eq!(encoded[8], 9);
    // pad 2: note, program change, control change, toggle flag
    assert_eq!(&encoded[9 + 8..9 + 12], &[0x22, 0x02, 0x12, 0x01]);
    // knob 5: control change, low, high
    assert_eq!(&encoded[41 + 15..41 + 18], &[0x05, 0x00, 0x7A]);
    assert_eq!(encoded[65], 0xF7);
}

#[test]
fn program_round_trips_through_the_response_layout() {
    let p = sample_program();
    let response = encode_program_response(2, &p);
    assert_eq!(response.len(), 67);
    let decoded = decode_program(&response).unwrap();
    assert_eq!(decoded, p);
}

#[test]
fn default_program_round_trips() {
    let response = encode_program_response(1, &Program::default());
    let decoded = decode_program(&response).unwrap();
    assert_eq!(decoded, Program::default());
}

#[test]
fn short_program_responses_are_malformed() {
    assert_eq!(decode_program(&Vec::new()), Err(WireError::MalformedResponse));
    assert_eq!(decode_program(&vec![0xF0, 0xF7]), Err(WireError::MalformedResponse));
    let mut almost = encode_program_response(1, &Program::default());
    almost.pop();
    assert_eq!(almost.len(), 66);
    assert_eq!(decode_program(&almost), Err(WireError::MalformedResponse));
}

#[test]
fn overlong_program_responses_are_malformed() {
    let mut too_long = encode_program_response(1, &Program::default());
    too_long.push(0x00);
    assert_eq!(decode_program(&too_long), Err(WireError::MalformedResponse));
}

#[test]
fn pad_toggle_comes_from_the_fourth_group_byte() {
    let mut response = encode_program_response(1, &Program::default());
    // first pad group at offsets 9..13: [05, 00, 00, 01]
    response[9] = 0x05;
    response[12] = 0x01;
    let decoded = decode_program(&response).unwrap();
    assert_eq!(
        decoded.pads[0],
        Pad { note: 5, program_change: 0, control_change: 0, toggle: true }
    );
}

#[test]
fn pad_toggle_ignores_the_note_byte() {
    let mut response = encode_program_response(1, &Program::default());
    // a pad group [01, 00, 00, 00]: note 1, toggle flag clear
    response[9] = 0x01;
    let decoded = decode_program(&response).unwrap();
    assert_eq!(
        decoded.pads[0],
        Pad { note: 1, program_change: 0, control_change: 0, toggle: false }
    );
}

#[test]
fn active_response_yields_its_slot_byte() {
    let response = vec![0xF0, 0x47, 0x7F, 0x75, 0x64, 0x00, 0x01, 0x03, 0xF7];
    assert_eq!(decode_active(&response), Ok(3));
}

#[test]
fn short_active_responses_are_malformed() {
    assert_eq!(decode_active(&Vec::new()), Err(WireError::MalformedResponse));
    let short = vec![0xF0, 0x47, 0x7F, 0x75, 0x64, 0x00, 0x01, 0x03];
    assert_eq!(decode_active(&short), Err(WireError::MalformedResponse));
}

#[test]
fn active_responses_with_a_deviating_header_are_malformed() {
    for offset in 0..7 {
        let mut response = vec![0xF0, 0x47, 0x7F, 0x75, 0x64, 0x00, 0x01, 0x03, 0xF7];
        response[offset] ^= 0x01;
        assert_eq!(decode_active(&response), Err(WireError::MalformedResponse));
    }
}

#[test]
fn defaults_are_all_zero() {
    let p = Pad::default();
    assert_eq!(p, Pad { note: 0, program_change: 0, control_change: 0, toggle: false });
    let k = Knob::default();
    assert_eq!(k, Knob { control_change: 0, low: 0, high: 0 });
    let prog = Program::default();
    assert_eq!(prog.channel, 0);
    assert_eq!(prog.pads.len(), 8);
    assert_eq!(prog.knobs.len(), 8);
    assert!(prog.pads.iter().all(|pad| *pad == Pad::default()));
    assert!(prog.knobs.iter().all(|knob| *knob == Knob::default()));
}

#[test]
fn cloned_programs_are_equal() {
    let p = sample_program();
    assert_eq!(p.clone(), p);
}
