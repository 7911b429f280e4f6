use kilo::input::{decoder_start, decoder_step, editor_read_key, DecoderState, DecoderStep, EditorKey, KeyRead, ESCAPE};

fn bytes(raw: &[u8]) -> Vec<Option<u8>> {
    raw.iter().map(|b| Some(*b)).collect()
}

fn key_of(raw: &[u8]) -> Option<EditorKey> {
    editor_read_key(&bytes(raw)).key
}

/// Drives the state machine by hand over a recorded run of reads.
fn drive(reads: &[Option<u8>]) -> KeyRead {
    let mut state = decoder_start();
    let mut pos = 0;
    loop {
        let read = if pos < reads.len() { reads[pos] } else { None };
        pos += 1;
        match decoder_step(state, read) {
            DecoderStep::Done(key) => return KeyRead { key, consumed: pos },
            DecoderStep::More(next) => state = next,
        }
    }
}

#[test]
fn timeout_gives_no_key() {
    let slot = editor_read_key(&vec![]);
    assert_eq!(slot, KeyRead { key: None, consumed: 1 });
    let slot = editor_read_key(&vec![None, Some(b'a')]);
    assert_eq!(slot, KeyRead { key: None, consumed: 1 });
}

#[test]
fn plain_byte_is_a_character() {
    let slot = editor_read_key(&bytes(b"ab"));
    assert_eq!(slot, KeyRead { key: Some(EditorKey::Char(b'a')), consumed: 1 });
    assert_eq!(key_of(&[0x11]), Some(EditorKey::Char(0x11)));
    assert_eq!(key_of(&[0xff]), Some(EditorKey::Char(0xff)));
    assert_eq!(key_of(b"["), Some(EditorKey::Char(b'[')));
}

#[test]
fn page_up_sequence() {
    let slot = editor_read_key(&bytes(b"\x1b[5~"));
    assert_eq!(slot, KeyRead { key: Some(EditorKey::PageUp), consumed: 4 });
}

#[test]
fn arrow_up_sequence() {
    let slot = editor_read_key(&bytes(b"\x1b[A"));
    assert_eq!(slot, KeyRead { key: Some(EditorKey::ArrowUp), consumed: 3 });
}

#[test]
fn application_home_sequence() {
    let slot = editor_read_key(&bytes(b"\x1bOH"));
    assert_eq!(slot, KeyRead { key: Some(EditorKey::Home), consumed: 3 });
}

#[test]
fn lone_escape_is_an_escape_character() {
    let slot = editor_read_key(&vec![Some(0x1b)]);
    assert_eq!(slot, KeyRead { key: Some(EditorKey::Char(0x1b)), consumed: 3 });
    assert_eq!(ESCAPE, 0x1b);
}

#[test]
fn escape_with_one_late_byte_is_an_escape_character() {
    let slot = editor_read_key(&vec![Some(0x1b), Some(b'['), None, Some(b'A')]);
    assert_eq!(slot, KeyRead { key: Some(EditorKey::Char(0x1b)), consumed: 3 });
    let slot = editor_read_key(&vec![Some(0x1b), None, Some(b'A')]);
    assert_eq!(slot, KeyRead { key: Some(EditorKey::Char(0x1b)), consumed: 3 });
}

#[test]
fn numbered_sequences() {
    assert_eq!(key_of(b"\x1b[1~"), Some(EditorKey::Home));
    assert_eq!(key_of(b"\x1b[3~"), Some(EditorKey::Delete));
    assert_eq!(key_of(b"\x1b[4~"), Some(EditorKey::End));
    assert_eq!(key_of(b"\x1b[5~"), Some(EditorKey::PageUp));
    assert_eq!(key_of(b"\x1b[6~"), Some(EditorKey::PageDown));
    assert_eq!(key_of(b"\x1b[7~"), Some(EditorKey::Home));
    assert_eq!(key_of(b"\x1b[8~"), Some(EditorKey::End));
}

#[test]
fn unknown_digits_fall_back_to_escape() {
    for digit in [b'0', b'2', b'9'] {
        let slot = editor_read_key(&bytes(&[0x1b, b'[', digit, b'~']));
        assert_eq!(slot, KeyRead { key: Some(EditorKey::Char(0x1b)), consumed: 4 });
    }
}

#[test]
fn digit_without_tilde_falls_back_to_escape() {
    let slot = editor_read_key(&bytes(b"\x1b[5x"));
    assert_eq!(slot, KeyRead { key: Some(EditorKey::Char(0x1b)), consumed: 4 });
    let slot = editor_read_key(&vec![Some(0x1b), Some(b'['), Some(b'5'), None]);
    assert_eq!(slot, KeyRead { key: Some(EditorKey::Char(0x1b)), consumed: 4 });
    let slot = editor_read_key(&bytes(b"\x1b[5"));
    assert_eq!(slot, KeyRead { key: Some(EditorKey::Char(0x1b)), consumed: 4 });
}

#[test]
fn bracket_letters() {
    assert_eq!(key_of(b"\x1b[A"), Some(EditorKey::ArrowUp));
    assert_eq!(key_of(b"\x1b[B"), Some(EditorKey::ArrowDown));
    assert_eq!(key_of(b"\x1b[C"), Some(EditorKey::ArrowRight));
    assert_eq!(key_of(b"\x1b[D"), Some(EditorKey::ArrowLeft));
    assert_eq!(key_of(b"\x1b[F"), Some(EditorKey::End));
    assert_eq!(key_of(b"\x1b[H"), Some(EditorKey::Home));
    assert_eq!(key_of(b"\x1b[E"), Some(EditorKey::Char(0x1b)));
    assert_eq!(key_of(b"\x1b[~"), Some(EditorKey::Char(0x1b)));
}

#[test]
fn application_letters() {
    assert_eq!(key_of(b"\x1bOF"), Some(EditorKey::End));
    assert_eq!(key_of(b"\x1bOH"), Some(EditorKey::Home));
    assert_eq!(key_of(b"\x1bOA"), Some(EditorKey::Char(0x1b)));
    let slot = editor_read_key(&bytes(b"\x1bO5~"));
    assert_eq!(slot, KeyRead { key: Some(EditorKey::Char(0x1b)), consumed: 3 });
}

#[test]
fn other_introducers_fall_back_to_escape() {
    let slot = editor_read_key(&bytes(b"\x1bxy"));
    assert_eq!(slot, KeyRead { key: Some(EditorKey::Char(0x1b)), consumed: 3 });
    let slot = editor_read_key(&bytes(b"\x1b\x1b[A"));
    assert_eq!(slot, KeyRead { key: Some(EditorKey::Char(0x1b)), consumed: 3 });
}

#[test]
fn steps_of_a_page_down() {
    let s0 = decoder_start();
    assert_eq!(s0, DecoderState::Start);
    assert_eq!(decoder_step(s0, Some(0x1b)), DecoderStep::More(DecoderState::Escaped));
    assert_eq!(
        decoder_step(DecoderState::Escaped, Some(b'[')),
        DecoderStep::More(DecoderState::Introduced(Some(b'[')))
    );
    assert_eq!(
        decoder_step(DecoderState::Introduced(Some(b'[')), Some(b'6')),
        DecoderStep::More(DecoderState::Numbered(b'6'))
    );
    assert_eq!(
        decoder_step(DecoderState::Numbered(b'6'), Some(b'~')),
        DecoderStep::Done(Some(EditorKey::PageDown))
    );
}

#[test]
fn steps_on_timeouts() {
    assert_eq!(decoder_step(DecoderState::Start, None), DecoderStep::Done(None));
    assert_eq!(
        decoder_step(DecoderState::Escaped, None),
        DecoderStep::More(DecoderState::Introduced(None))
    );
    assert_eq!(
        decoder_step(DecoderState::Introduced(None), Some(b'A')),
        DecoderStep::Done(Some(EditorKey::Char(0x1b)))
    );
    assert_eq!(
        decoder_step(DecoderState::Introduced(Some(b'[')), None),
        DecoderStep::Done(Some(EditorKey::Char(0x1b)))
    );
    assert_eq!(
        decoder_step(DecoderState::Numbered(b'5'), None),
        DecoderStep::Done(Some(EditorKey::Char(0x1b)))
    );
}

#[test]
fn every_short_run_of_reads_ends_in_one_slot() {
    let alphabet: [Option<u8>; 9] = [
        None,
        Some(0x1b),
        Some(b'['),
        Some(b'O'),
        Some(b'5'),
        Some(b'2'),
        Some(b'~'),
        Some(b'A'),
        Some(b'H'),
    ];
    let n = alphabet.len();
    for code in 0..(n * n * n * n) {
        let reads = vec![
            alphabet[code % n],
            alphabet[(code / n) % n],
            alphabet[(code / (n * n)) % n],
            alphabet[(code / (n * n * n)) % n],
        ];
        for len in 0..=4 {
            let prefix = reads[..len].to_vec();
            let slot = editor_read_key(&prefix);
            assert_eq!(slot, drive(&prefix));
            assert!(1 <= slot.consumed && slot.consumed <= 4);
            assert_eq!(slot.key.is_some(), len > 0 && prefix[0].is_some());
        }
    }
}
