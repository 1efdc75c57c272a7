use hdr::hid::{
    cmif_request, does_hid_hdr_exist, enable_stick_control_request, hid_hdr_name, hid_step,
    is_service_installed, must_unregister_probe, query_installed_request, HidAction, HidEvent,
    HidSetupState, HidWarning, SFCI_MAGIC,
};

#[test]
fn request_words() {
    assert_eq!(query_installed_request(), vec![4, 8, 0, 0, 0x49434653, 1, 0, 0, 0, 0]);
    assert_eq!(enable_stick_control_request(), vec![4, 9, 0, 0, 0x49434653, 1, 1, 0, 1, 0, 0]);
    assert_eq!(
        cmif_request(7, &vec![5, 6]),
        vec![4, 10, 0, 0, SFCI_MAGIC, 1, 7, 0, 5, 6, 0, 0]
    );
}

#[test]
fn law_size_word_counts_the_words_after_the_header() {
    for n in 0..5usize {
        let m = cmif_request(3, &vec![9; n]);
        assert_eq!(m[1] as usize, m.len() - 2);
    }
}

#[test]
fn service_name_bytes() {
    assert_eq!(hid_hdr_name(), b"hid:hdr\0".to_vec());
}

#[test]
fn probe_results() {
    assert!(must_unregister_probe(0));
    assert!(!must_unregister_probe(0x815));
    assert!(does_hid_hdr_exist(0x815));
    assert!(!does_hid_hdr_exist(0));
    assert!(!does_hid_hdr_exist(1));
}

#[test]
fn installed_reply_word() {
    let mut reply = vec![0u32; 16];
    assert!(!is_service_installed(&reply));
    reply[8] = 1;
    assert!(is_service_installed(&reply));
}

#[test]
fn handshake_full_run() {
    let (s, a) = hid_step(HidSetupState::Start, &HidEvent::Started { on_ryujinx: false });
    assert_eq!((s, a), (HidSetupState::AwaitProbe, vec![HidAction::RegisterProbe]));
    let (s, a) = hid_step(s, &HidEvent::Registered { result: 0x815 });
    assert_eq!((s, a), (HidSetupState::AwaitHandle, vec![HidAction::RequestHandle]));
    let (s, a) = hid_step(s, &HidEvent::HandleObtained { result: 0 });
    assert_eq!((s, a), (HidSetupState::AwaitInstalledReply, vec![HidAction::SendQueryInstalled]));
    let mut reply = vec![0u32; 16];
    reply[8] = 1;
    let (s, a) = hid_step(s, &HidEvent::Replied { reply });
    assert_eq!((s, a), (HidSetupState::Done, vec![HidAction::SendEnableStickControl]));
}

#[test]
fn handshake_missing_service() {
    let (s, a) = hid_step(HidSetupState::AwaitProbe, &HidEvent::Registered { result: 0 });
    assert_eq!(s, HidSetupState::Done);
    assert_eq!(
        a,
        vec![HidAction::UnregisterProbe, HidAction::Warn(HidWarning::ServiceUnavailable)]
    );
    let (s, a) = hid_step(HidSetupState::AwaitProbe, &HidEvent::Registered { result: 5 });
    assert_eq!(s, HidSetupState::Done);
    assert_eq!(a, vec![HidAction::Warn(HidWarning::ServiceUnavailable)]);
}

#[test]
fn handshake_no_handle_and_not_set_up() {
    let (s, a) = hid_step(HidSetupState::AwaitHandle, &HidEvent::HandleObtained { result: 3 });
    assert_eq!((s, a), (HidSetupState::Done, vec![HidAction::Warn(HidWarning::NoHandle)]));
    let (s, a) = hid_step(
        HidSetupState::AwaitInstalledReply,
        &HidEvent::Replied { reply: vec![0u32; 16] },
    );
    assert_eq!((s, a), (HidSetupState::Failed, vec![HidAction::Abort]));
}

#[test]
fn law_ryujinx_skips_handshake() {
    let (s, a) = hid_step(HidSetupState::Start, &HidEvent::Started { on_ryujinx: true });
    assert_eq!(s, HidSetupState::Done);
    assert!(a.is_empty());
    let (s2, a2) = hid_step(s, &HidEvent::Registered { result: 0x815 });
    assert_eq!(s2, HidSetupState::Done);
    assert!(a2.is_empty());
}

#[test]
fn unexpected_events_change_nothing() {
    let (s, a) = hid_step(HidSetupState::AwaitHandle, &HidEvent::Registered { result: 0 });
    assert_eq!(s, HidSetupState::AwaitHandle);
    assert!(a.is_empty());
}
