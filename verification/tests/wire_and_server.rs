use smush_discord::packet::{frame_packet, take_last_packet, take_packet, PACKET_DELIMITER};
use smush_discord::server::{
    call_result, follow_up_send, should_restart, socket_failed, SendFollowUp, ADDRESS_IN_USE,
    BROKEN_PIPE,
};

#[test]
fn framing_appends_a_newline() {
    let mut data = b"{\"stage\":0}".to_vec();
    frame_packet(&mut data);
    assert_eq!(data, b"{\"stage\":0}\n".to_vec());
    assert_eq!(PACKET_DELIMITER, b'\n');
}

#[test]
fn framed_packets_read_back_in_order() {
    let mut first = b"one".to_vec();
    let mut second = b"two".to_vec();
    frame_packet(&mut first);
    frame_packet(&mut second);
    let mut buffer = first;
    buffer.extend_from_slice(&second);
    assert_eq!(take_packet(&mut buffer), Some(b"one".to_vec()));
    assert_eq!(take_packet(&mut buffer), Some(b"two".to_vec()));
    assert_eq!(take_packet(&mut buffer), None);
    assert!(buffer.is_empty());
    assert_eq!(take_last_packet(buffer), None);
}

#[test]
fn incomplete_packet_waits() {
    let mut buffer = b"par".to_vec();
    assert_eq!(take_packet(&mut buffer), None);
    assert_eq!(buffer, b"par".to_vec());
    buffer.extend_from_slice(b"tial\nnext");
    assert_eq!(take_packet(&mut buffer), Some(b"partial".to_vec()));
    assert_eq!(buffer, b"next".to_vec());
    assert_eq!(take_last_packet(buffer), Some(b"next".to_vec()));
}

#[test]
fn empty_packets_are_kept() {
    let mut buffer = b"\n\nx\n".to_vec();
    assert_eq!(take_packet(&mut buffer), Some(Vec::new()));
    assert_eq!(take_packet(&mut buffer), Some(Vec::new()));
    assert_eq!(take_packet(&mut buffer), Some(b"x".to_vec()));
    assert_eq!(take_packet(&mut buffer), None);
}

#[test]
fn call_result_follows_the_sign() {
    assert_eq!(call_result(-1, 9), Err(9));
    assert_eq!(call_result(0, 9), Ok(()));
    assert_eq!(call_result(17, 9), Ok(()));
}

#[test]
fn socket_failure_is_the_sign_bit() {
    assert!(socket_failed(-1));
    assert!(socket_failed(i32::MIN));
    assert!(!socket_failed(0));
    assert!(!socket_failed(3));
    assert!(!socket_failed(i32::MAX));
}

#[test]
fn send_follow_up() {
    assert_eq!(follow_up_send(Ok(())), SendFollowUp::Continue);
    assert_eq!(BROKEN_PIPE, 32);
    assert_eq!(follow_up_send(Err(32)), SendFollowUp::AcceptAgain);
    assert_eq!(follow_up_send(Err(104)), SendFollowUp::Report(104));
}

#[test]
fn restart_unless_address_in_use() {
    assert_eq!(ADDRESS_IN_USE, 98);
    assert!(!should_restart(Err(98)));
    assert!(should_restart(Err(32)));
    assert!(should_restart(Ok(())));
}

use smush_discord::server::{after_setup_call, installs_fighter_hooks, SetupAction, SetupStep};

#[test]
fn fighter_hooks_only_for_common() {
    assert!(installs_fighter_hooks("common"));
    assert!(!installs_fighter_hooks("commo"));
    assert!(!installs_fighter_hooks("commons"));
    assert!(!installs_fighter_hooks("Common"));
    assert!(!installs_fighter_hooks(""));
    assert!(!installs_fighter_hooks("item"));
}

#[test]
fn setup_steps_in_order() {
    assert_eq!(SetupStep::Socket.next(), Some(SetupStep::SetOption));
    assert_eq!(SetupStep::SetOption.next(), Some(SetupStep::Bind));
    assert_eq!(SetupStep::Bind.next(), Some(SetupStep::Listen));
    assert_eq!(SetupStep::Listen.next(), None);
}

#[test]
fn setup_failures() {
    assert_eq!(after_setup_call(SetupStep::Socket, -1, 24), SetupAction::Fail(24));
    assert_eq!(after_setup_call(SetupStep::Socket, 3, 24), SetupAction::Proceed);
    assert_eq!(after_setup_call(SetupStep::SetOption, -1, 22), SetupAction::CloseAndFail(22));
    assert_eq!(after_setup_call(SetupStep::Bind, -1, 98), SetupAction::CloseAndFail(98));
    assert_eq!(after_setup_call(SetupStep::Listen, 0, 5), SetupAction::Proceed);
}

use smush_discord::server::{server_step, start_server_state, ServerAction, ServerEvent, ServerState};

#[test]
fn server_sets_up_then_serves() {
    let (mut state, action) = start_server_state();
    assert_eq!(action, ServerAction::Call(SetupStep::Socket));
    let expected = [
        ServerAction::Call(SetupStep::SetOption),
        ServerAction::Call(SetupStep::Bind),
        ServerAction::Call(SetupStep::Listen),
        ServerAction::Accept,
    ];
    for want in expected {
        let (next, action) = server_step(state, ServerEvent::CallReturned(0, 0));
        assert_eq!(action, want);
        state = next;
    }
    assert_eq!(state, ServerState::Accepting);
    let (state, action) = server_step(state, ServerEvent::Accepted);
    assert_eq!((state, action), (ServerState::Publishing, ServerAction::Publish));
    let (state, action) = server_step(state, ServerEvent::SendFinished(Ok(())));
    assert_eq!((state, action), (ServerState::Publishing, ServerAction::Publish));
    let (state, action) = server_step(state, ServerEvent::SendFinished(Err(104)));
    assert_eq!((state, action), (ServerState::Publishing, ServerAction::ReportAndPublish(104)));
    let (state, action) = server_step(state, ServerEvent::SendFinished(Err(32)));
    assert_eq!((state, action), (ServerState::Accepting, ServerAction::Accept));
}

#[test]
fn server_stops_on_setup_failure() {
    let (state, _) = start_server_state();
    assert_eq!(
        server_step(state, ServerEvent::CallReturned(-1, 24)),
        (ServerState::Stopped(24), ServerAction::Stop(24))
    );
    let bind = ServerState::SettingUp(SetupStep::Bind);
    assert_eq!(
        server_step(bind, ServerEvent::CallReturned(-1, 98)),
        (ServerState::Stopped(98), ServerAction::CloseAndStop(98))
    );
    assert_eq!(
        server_step(ServerState::Stopped(98), ServerEvent::Accepted),
        (ServerState::Stopped(98), ServerAction::Ignore)
    );
}

#[test]
fn server_ignores_events_of_other_states() {
    assert_eq!(
        server_step(ServerState::Accepting, ServerEvent::SendFinished(Ok(()))),
        (ServerState::Accepting, ServerAction::Ignore)
    );
    assert_eq!(
        server_step(ServerState::Publishing, ServerEvent::CallReturned(0, 0)),
        (ServerState::Publishing, ServerAction::Ignore)
    );
}
