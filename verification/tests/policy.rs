use relaxed_channel::RecvAction;
use relaxed_channel::RecvError;
use relaxed_channel::SendAction;
use relaxed_channel::SendError;
use relaxed_channel::TryRecvOutcome;
use relaxed_channel::TrySendOutcome;
use relaxed_channel::WaitRecvOutcome;
use relaxed_channel::WaitSendOutcome;
use relaxed_channel::recv_on_try;
use relaxed_channel::recv_on_wait;
use relaxed_channel::send_on_try;
use relaxed_channel::send_on_wait;
use relaxed_channel::stream_next;

#[test]
fn recv_policy_delivers_available_message_at_once() {
    assert_eq!(recv_on_try(TryRecvOutcome::Msg(41u32)), RecvAction::Deliver(41));
}

#[test]
fn recv_policy_relaxes_on_empty() {
    assert_eq!(recv_on_try(TryRecvOutcome::<u32>::Empty), RecvAction::RelaxThenWait);
}

#[test]
fn recv_policy_fails_closed_without_relaxing() {
    assert_eq!(recv_on_try(TryRecvOutcome::<u32>::Closed), RecvAction::FailClosed);
}

#[test]
fn recv_wait_path_returns_message() {
    assert_eq!(recv_on_wait(WaitRecvOutcome::Msg(7u8)), Ok(7));
}

#[test]
fn recv_wait_path_reports_closed() {
    assert_eq!(recv_on_wait(WaitRecvOutcome::<u8>::Closed), Err(RecvError));
}

#[test]
fn send_policy_reports_enqueued_message() {
    assert_eq!(send_on_try(TrySendOutcome::<u32>::Sent), SendAction::Done);
}

#[test]
fn send_policy_relaxes_on_full_keeping_message() {
    assert_eq!(send_on_try(TrySendOutcome::Full(9u32)), SendAction::RelaxThenWait(9));
}

#[test]
fn send_policy_fails_closed_returning_message() {
    assert_eq!(send_on_try(TrySendOutcome::Closed(3u32)), SendAction::FailClosed(3));
}

#[test]
fn send_wait_path_reports_success() {
    assert_eq!(send_on_wait(WaitSendOutcome::<u32>::Sent), Ok(()));
}

#[test]
fn send_wait_path_returns_message_on_closed() {
    assert_eq!(send_on_wait(WaitSendOutcome::Closed(12u32)), Err(SendError(12)));
}

#[test]
fn stream_yields_received_message() {
    assert_eq!(stream_next(Ok::<u32, RecvError>(5)), Some(5));
}

#[test]
fn stream_ends_on_closed() {
    assert_eq!(stream_next(Err::<u32, RecvError>(RecvError)), None);
}
