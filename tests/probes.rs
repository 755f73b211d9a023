use connlib::ssh::{SshAction, SshStage, StageOutcome};
use connlib::{TeamSpeak, HTTP, SSH};

#[test]
fn http_status_range() {
    assert!(HTTP::status_is_healthy(204));
    assert!(HTTP::status_is_healthy(200));
    assert!(HTTP::status_is_healthy(299));
    assert!(!HTTP::status_is_healthy(404));
    assert!(!HTTP::status_is_healthy(301));
    assert!(!HTTP::status_is_healthy(300));
    assert!(!HTTP::status_is_healthy(199));
    assert!(!HTTP::status_is_healthy(0));
}

#[test]
fn http_keeps_url() {
    assert_eq!(HTTP::new("https://example.org/").remote_address(), "https://example.org/");
}

#[test]
fn ssh_banner_bytes() {
    assert_eq!(SSH::banner(), b"SSH-2.0-OpenSSH_8.7\r\n".to_vec());
}

#[test]
fn ssh_reply_check() {
    assert!(SSH::reply_is_ssh(b"SSH-2.0-OpenSSH_9.0\r\n"));
    assert!(SSH::reply_is_ssh(b"xxSSH"));
    assert!(!SSH::reply_is_ssh(b""));
    assert!(!SSH::reply_is_ssh(&[0u8; 64]));
    assert!(!SSH::reply_is_ssh(b"SS"));
    assert!(!SSH::reply_is_ssh(b"ssh-2.0"));
    assert!(SSH::reply_is_ssh(&[0xffu8, 0xfe, b'S', b'S', b'H', 0x80]));
}

#[test]
fn ssh_closed_connection_is_down() {
    assert_eq!(SSH::first_stage(), SshStage::Connect);
    assert_eq!(
        SSH::next_action(SshStage::Connect, &StageOutcome::Completed(Vec::new())),
        SshAction::Run(SshStage::SendBanner)
    );
    assert_eq!(
        SSH::next_action(SshStage::SendBanner, &StageOutcome::Completed(Vec::new())),
        SshAction::Run(SshStage::ReadReply)
    );
    assert_eq!(
        SSH::next_action(SshStage::ReadReply, &StageOutcome::Completed(Vec::new())),
        SshAction::Finish(false)
    );
    assert_eq!(
        SSH::next_action(SshStage::SendBanner, &StageOutcome::Failed),
        SshAction::Finish(false)
    );
}

#[test]
fn ssh_banner_reply_is_up() {
    let reply = b"SSH-2.0-OpenSSH_8.7\r\n".to_vec();
    assert_eq!(
        SSH::next_action(SshStage::ReadReply, &StageOutcome::Completed(reply)),
        SshAction::Finish(true)
    );
}

#[test]
fn ssh_silence_is_down() {
    assert_eq!(
        SSH::next_action(SshStage::ReadReply, &StageOutcome::TimedOut),
        SshAction::Finish(false)
    );
    assert_eq!(
        SSH::next_action(SshStage::Connect, &StageOutcome::TimedOut),
        SshAction::Finish(false)
    );
    assert_eq!(
        SSH::next_action(SshStage::Connect, &StageOutcome::Failed),
        SshAction::Finish(false)
    );
}

#[test]
fn teamspeak_packet_bytes() {
    let expected: [u8; 34] = [
        0x54, 0x53, 0x33, 0x49, 0x4e, 0x49, 0x54, 0x31, 0x00, 0x65, 0x00, 0x00, 0x88, 0x0e, 0xf9,
        0x67, 0xa5, 0x00, 0x61, 0x3f, 0x9e, 0x69, 0x66, 0x78, 0x8d, 0x48, 0x00, 0x00, 0x00, 0x00,
        0x00, 0x00, 0x00, 0x00,
    ];
    assert_eq!(TeamSpeak::init_packet(), expected.to_vec());
}

#[test]
fn teamspeak_reply_verdict() {
    assert!(TeamSpeak::reply_verdict(Some(1)));
    assert!(TeamSpeak::reply_verdict(Some(64)));
    assert!(!TeamSpeak::reply_verdict(Some(0)));
    assert!(!TeamSpeak::reply_verdict(None));
}

#[test]
fn teamspeak_keeps_address() {
    assert_eq!(TeamSpeak::new("10.0.0.1:9987").remote_address(), "10.0.0.1:9987");
}

#[test]
fn same_text_compares_characters() {
    assert!(connlib::text::same_text("ts", "ts"));
    assert!(!connlib::text::same_text("ts", "tS"));
    assert!(!connlib::text::same_text("ts", "tss"));
    assert!(connlib::text::same_text("", ""));
}
