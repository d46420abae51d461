use rip_media::label::{
    ensure_vol_label, parse_volume_header, resolve_start, resolved_label,
    volume_label_from_stream, LabelEvent, ResolveState, LABEL_LEN, LABEL_OFFSET,
    SIGNATURE_OFFSET,
};

/// Build an in-memory byte stream shaped like a header-bearing image: the
/// signature bytes at their fixed offset and a label field padded out with
/// the given filler.
fn stream_with(sig: &[u8], label: &[u8], pad: u8) -> Vec<u8> {
    let mut stream = vec![0u8; LABEL_OFFSET + LABEL_LEN];
    stream[SIGNATURE_OFFSET..SIGNATURE_OFFSET + sig.len()].copy_from_slice(sig);
    stream[LABEL_OFFSET..LABEL_OFFSET + label.len()].copy_from_slice(label);
    for b in stream[LABEL_OFFSET + label.len()..LABEL_OFFSET + LABEL_LEN].iter_mut() {
        *b = pad;
    }
    stream
}

#[test]
fn volume_label_basic_function() {
    let stream = stream_with(b"CD", b"CDROM", 0);
    assert_eq!(volume_label_from_stream(&stream), Some(b"CDROM".to_vec()));
}

#[test]
fn volume_label_space_and_nul_padding_is_trimmed() {
    // Space padding around the label, NUL padding after it, and stray bytes
    // behind the first NUL: only the label itself comes back.
    let mut label = b"  CDROM  ".to_vec();
    label.push(0);
    label.extend_from_slice(b"junk");
    assert!(label.len() <= LABEL_LEN);
    let stream = stream_with(b"CD", &label, 0);
    assert_eq!(volume_label_from_stream(&stream), Some(b"CDROM".to_vec()));

    // Space padding alone, with no NUL at all, is trimmed as well.
    let stream = stream_with(b"CD", b"CDROM", b' ');
    assert_eq!(volume_label_from_stream(&stream), Some(b"CDROM".to_vec()));
}

#[test]
fn volume_label_bad_magic_yields_no_label() {
    // A stream whose bytes at the signature offset are not the marker gives
    // "no label", not an error.
    let stream = stream_with(b"XX", b"CDROM", 0);
    assert_eq!(volume_label_from_stream(&stream), None);
}

#[test]
fn volume_label_short_stream_yields_no_label() {
    assert_eq!(volume_label_from_stream(&vec![0u8; 100]), None);
    assert_eq!(volume_label_from_stream(&Vec::new()), None);
}

#[test]
fn parse_header_trims_and_cuts_at_nul() {
    let sig = b"CD".to_vec();
    let mut field = b" A B \t".to_vec();
    field.push(0);
    field.extend_from_slice(b"tail");
    assert_eq!(parse_volume_header(&sig, &field), Some(b"A B".to_vec()));
    assert_eq!(parse_volume_header(&b"cd".to_vec(), &field), None);
}

#[test]
fn resolver_returns_override_exactly_without_device_probes() {
    // A non-blank override resolves at once; no metadata query, header read
    // or prompt is pending.
    let state = resolve_start(Some(b"My Disc ".to_vec()));
    assert_eq!(state, ResolveState::Done(b"My Disc ".to_vec()));
}

#[test]
fn resolver_blank_override_falls_through_to_probes() {
    let state = resolve_start(Some(b"   ".to_vec()));
    assert_eq!(state, ResolveState::QueryMetadata);
}

#[test]
fn resolver_uses_trimmed_metadata_label() {
    let events = vec![LabelEvent::Metadata(Some(b" FOO \n".to_vec()))];
    let state = ensure_vol_label(None, &events);
    assert_eq!(state, ResolveState::Done(b"FOO".to_vec()));
}

#[test]
fn resolver_falls_back_to_header_then_prompt() {
    // Failed metadata query, unreadable header: the prompt is pending.
    let events = vec![LabelEvent::Metadata(None), LabelEvent::Header(None)];
    let state = ensure_vol_label(None, &events);
    assert_eq!(state, ResolveState::Prompt);

    // A header with the right marker resolves without prompting.
    let events = vec![
        LabelEvent::Metadata(Some(b" \t".to_vec())),
        LabelEvent::Header(Some((b"CD".to_vec(), b"GAME_DISC\0\0\0".to_vec()))),
    ];
    let state = ensure_vol_label(None, &events);
    assert_eq!(state, ResolveState::Done(b"GAME_DISC".to_vec()));
}

#[test]
fn resolver_blank_prompt_line_loops_back_to_probes() {
    let events = vec![
        LabelEvent::Metadata(None),
        LabelEvent::Header(None),
        LabelEvent::Line(b"  ".to_vec()),
        LabelEvent::Metadata(Some(b"LATE_LABEL".to_vec())),
    ];
    let state = ensure_vol_label(None, &events);
    assert_eq!(state, ResolveState::Done(b"LATE_LABEL".to_vec()));
}

#[test]
fn resolver_never_settles_on_blank_input() {
    // Blank answers everywhere: the resolver keeps asking rather than
    // settling on a blank label.
    let events = vec![
        LabelEvent::Metadata(Some(b"  ".to_vec())),
        LabelEvent::Header(Some((b"CD".to_vec(), vec![0u8; 32]))),
        LabelEvent::Line(b" \t ".to_vec()),
    ];
    let state = ensure_vol_label(None, &events);
    assert_eq!(state, ResolveState::QueryMetadata);
    assert_eq!(resolved_label(state), None);

    let done = ensure_vol_label(None, &vec![LabelEvent::Line(b" X ".to_vec()),
        LabelEvent::Metadata(Some(b"REAL".to_vec()))]);
    // The pending probe is the metadata query, so the stray line changes
    // nothing and the metadata answer resolves.
    assert_eq!(resolved_label(done), Some(b"REAL".to_vec()));
}
