use serviceos_runtime::setup_wizard::{
    build_summary, feed_line_byte, path_segments, push_byte, split_parent, FieldText, pack_hostname, unpack_hostname, Feed, StepId, WizardState, DEFAULT_ADMIN_NAME,
    DEFAULT_ADMIN_SECRET, DEFAULT_HOSTNAME, DEFAULT_TIMEZONE, MARKER_PATH, TIMEZONE_PATH,
    WIZARD_DIR,
};

#[test]
fn default_flow_reaches_done_with_documented_defaults() {
    let mut state = WizardState::new();
    assert_eq!(state.step(), StepId::Hostname);
    assert_eq!(state.feed(""), Feed::Advance);
    assert_eq!(state.hostname(), DEFAULT_HOSTNAME);
    assert_eq!(state.feed(""), Feed::Advance);
    assert_eq!(state.timezone(), DEFAULT_TIMEZONE);
    assert_eq!(state.feed(""), Feed::Advance);
    assert_eq!(state.admin_name(), DEFAULT_ADMIN_NAME);
    assert_eq!(state.feed(""), Feed::Advance);
    assert_eq!(state.admin_secret(), DEFAULT_ADMIN_SECRET);
    assert_eq!(state.step(), StepId::Confirm);
    assert_eq!(state.feed("y"), Feed::Complete);
    assert_eq!(state.step(), StepId::Done);
    assert_eq!(state.feed("anything"), Feed::Complete);
}

#[test]
fn custom_values_flow_through_all_steps() {
    let mut state = WizardState::new();
    assert_eq!(state.feed("box-1"), Feed::Advance);
    assert_eq!(state.hostname(), "box-1");
    assert_eq!(state.feed("Europe/Berlin"), Feed::Advance);
    assert_eq!(state.timezone(), "Europe/Berlin");
    assert_eq!(state.feed("paul"), Feed::Advance);
    assert_eq!(state.admin_name(), "paul");
    assert_eq!(state.feed("s3cret!"), Feed::Advance);
    assert_eq!(state.feed("y"), Feed::Complete);
}

#[test]
fn invalid_input_retries_same_step() {
    let mut state = WizardState::new();
    assert_eq!(
        state.feed("way-too-long-hostname"),
        Feed::Retry("hostname must be 1-8 letters/digits/hyphen")
    );
    assert_eq!(
        state.feed("-bad"),
        Feed::Retry("hostname must be 1-8 letters/digits/hyphen")
    );
    assert_eq!(state.feed("ok-9"), Feed::Advance);

    assert_eq!(
        state.feed("has space"),
        Feed::Retry("timezone must be 1-24 printable characters")
    );
    assert_eq!(state.feed(""), Feed::Advance);

    assert_eq!(
        state.feed("bad name"),
        Feed::Retry("account name must be 1-32 letters/digits/-/_")
    );
    assert_eq!(state.feed("root_2"), Feed::Advance);

    assert_eq!(
        state.feed("\u{7f}"),
        Feed::Retry("secret must be 1-64 non-control characters")
    );
    assert_eq!(state.feed(""), Feed::Advance);
    assert_eq!(state.feed("maybe"), Feed::Retry("answer y or n"));
    assert_eq!(state.feed("y"), Feed::Complete);
}

#[test]
fn confirm_no_restarts_from_first_step() {
    let mut state = WizardState::new();
    for _ in 0..4 {
        assert_eq!(state.feed(""), Feed::Advance);
    }
    assert_eq!(state.feed("n"), Feed::Restart);
    assert_eq!(state.step(), StepId::Hostname);
    // Restarted wizard keeps no stale values.
    assert_eq!(state.hostname(), "");
    assert_eq!(state.timezone(), "");
    assert_eq!(state.admin_name(), "");
}

#[test]
fn hostname_packing_roundtrips_and_validates() {
    assert_eq!(pack_hostname("svc-os"), Some(0x73_76_63_2d_6f_73_00_00u64));
    let restored = unpack_hostname(0x73_76_63_2d_6f_73_00_00u64).expect("roundtrip");
    assert_eq!(restored.as_str(), "svc-os");
    assert!(pack_hostname("").is_none());
    assert!(pack_hostname("nine-char").is_none());
    assert!(pack_hostname("-lead").is_none());
    assert!(pack_hostname("has space").is_none());
    assert!(unpack_hostname(u64::MAX).is_none());
}

#[test]
fn marker_and_state_paths_stay_under_wizard_tree() {
    assert!(MARKER_PATH.starts_with(WIZARD_DIR));
    assert!(TIMEZONE_PATH.starts_with(WIZARD_DIR));
    assert!(!MARKER_PATH.ends_with("/"));
}

#[test]
fn feed_trims_surrounding_whitespace() {
    let mut state = WizardState::new();
    assert_eq!(state.feed("  node7 \t"), Feed::Advance);
    assert_eq!(state.hostname(), "node7");
    assert_eq!(state.feed("   "), Feed::Advance);
    assert_eq!(state.timezone(), "UTC");
}

#[test]
fn confirm_accepts_yes_and_no_words() {
    let mut state = WizardState::new();
    for _ in 0..4 {
        state.feed("");
    }
    assert_eq!(state.feed(" yes "), Feed::Complete);
    let mut other = WizardState::new();
    for _ in 0..4 {
        other.feed("");
    }
    assert_eq!(other.feed("no"), Feed::Restart);
    assert_eq!(other.step(), StepId::Hostname);
}

#[test]
fn unpack_rejects_gaps_and_invalid_labels() {
    // A zero byte followed by a nonzero byte is not a packed label.
    assert!(unpack_hostname(0x61_00_62_00_00_00_00_00u64).is_none());
    // A leading hyphen is not a label.
    assert!(unpack_hostname(0x2d_61_00_00_00_00_00_00u64).is_none());
    assert!(unpack_hostname(0).is_none());
    let full = pack_hostname("abcdefgh").expect("eight bytes fit");
    assert_eq!(full, 0x61_62_63_64_65_66_67_68u64);
    assert_eq!(unpack_hostname(full).expect("full label").as_str(), "abcdefgh");
}

#[test]
fn prompts_name_each_step() {
    assert_eq!(StepId::Hostname.prompt(), "setup: hostname label (1-8 chars, Enter = svc-os): ");
    assert_eq!(StepId::Done.prompt(), "");
}

#[test]
fn summary_records_the_chosen_values() {
    let mut state = WizardState::new();
    let _ = state.feed("box-1");
    let _ = state.feed("");
    let _ = state.feed("");
    let _ = state.feed("");
    let _ = state.feed("y");
    assert_eq!(state.step(), StepId::Done);
    assert_eq!(build_summary(&state), b"hostname=box-1 timezone=UTC admin=admin".to_vec());
}

#[test]
fn serial_line_takes_printable_bytes_until_enter() {
    let mut line = FieldText::<96>::empty();
    assert!(!feed_line_byte(&mut line, b'a'));
    assert!(!feed_line_byte(&mut line, 0x07));
    assert!(!feed_line_byte(&mut line, b' '));
    assert!(!feed_line_byte(&mut line, 0x7f));
    assert_eq!(line.as_str(), "a ");
    assert!(feed_line_byte(&mut line, b'\r'));
    assert!(feed_line_byte(&mut line, b'\n'));
    assert_eq!(line.as_str(), "a ");
    for _ in 0..200 {
        let _ = feed_line_byte(&mut line, b'x');
    }
    assert_eq!(line.as_bytes().len(), 96);
}

#[test]
fn push_byte_keeps_the_text_valid() {
    let mut line = FieldText::<4>::empty();
    assert!(push_byte(&mut line, b'o'));
    assert!(!push_byte(&mut line, 0xff));
    assert!(push_byte(&mut line, b'k'));
    assert_eq!(line.as_str(), "ok");
}

#[test]
fn paths_split_at_their_last_slash() {
    assert_eq!(split_parent(MARKER_PATH), Some(18));
    assert_eq!(&MARKER_PATH[..19], "state/setup-wizard/");
    assert_eq!(split_parent("name"), None);
    assert_eq!(split_parent("a/b/"), Some(3));
}

#[test]
fn path_segments_skip_empty_segments() {
    assert_eq!(path_segments(b"state/setup-wizard/"), vec![(0, 5), (6, 18)]);
    assert_eq!(path_segments(b"/a//bc/"), vec![(1, 2), (4, 6)]);
    assert_eq!(path_segments(b""), vec![]);
    assert_eq!(path_segments(b"///"), vec![]);
    assert_eq!(path_segments(b"x"), vec![(0, 1)]);
}
