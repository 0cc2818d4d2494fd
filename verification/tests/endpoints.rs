use std::time::Duration;
use std::time::Instant;

use relaxed_channel::RecvAction;
use relaxed_channel::RecvError;
use relaxed_channel::RelaxedReceiver;
use relaxed_channel::RelaxedSender;
use relaxed_channel::SendAction;
use relaxed_channel::SendError;
use relaxed_channel::WaitRecvOutcome;
use relaxed_channel::WaitSendOutcome;
use relaxed_channel::recv_on_wait;
use relaxed_channel::send_on_wait;
use relaxed_channel::stream_next;

fn rt() -> tokio::runtime::Runtime {
    tokio::runtime::Builder::new_current_thread()
        .enable_time()
        .build()
        .unwrap()
}

/// Drives one receive call through its phases: the verified fast path, then,
/// if the policy ordered it, the blind sleep and the channel's real waiting
/// receive, whose outcome the verified wait-path function turns into the
/// result.
async fn drive_recv<T>(r: &RelaxedReceiver<T>) -> Result<T, RecvError> {
    match r.fast_path() {
        RecvAction::Deliver(m) => Ok(m),
        RecvAction::FailClosed => Err(RecvError),
        RecvAction::RelaxThenWait => {
            tokio::time::sleep(Duration::from_millis(r.relaxes_for())).await;
            let w = match r.inner().recv().await {
                Ok(m) => WaitRecvOutcome::Msg(m),
                Err(_) => WaitRecvOutcome::Closed,
            };
            recv_on_wait(w)
        }
    }
}

/// Drives one send call through its phases, mirroring drive_recv.
async fn drive_send<T>(s: &RelaxedSender<T>, msg: T) -> Result<(), SendError<T>> {
    match s.fast_path(msg) {
        SendAction::Done => Ok(()),
        SendAction::FailClosed(m) => Err(SendError(m)),
        SendAction::RelaxThenWait(m) => {
            tokio::time::sleep(Duration::from_millis(s.relaxes_for())).await;
            let w = match s.inner().send(m).await {
                Ok(()) => WaitSendOutcome::Sent,
                Err(async_channel::SendError(back)) => WaitSendOutcome::Closed(back),
            };
            send_on_wait(w)
        }
    }
}

#[test]
fn bounded_reports_configured_capacity() {
    let (s, r) = relaxed_channel::bounded::<u32>(2);
    assert_eq!(s.capacity(), Some(2));
    assert_eq!(r.capacity(), Some(2));
    assert_eq!(s.relaxes_for(), 100);
    assert_eq!(r.relaxes_for(), 100);
}

#[test]
fn unbounded_reports_absent_capacity() {
    let (s, r) = relaxed_channel::unbounded::<u32>();
    assert_eq!(r.capacity(), None);
    assert_eq!(r.relaxes_for(), 100);
    assert_eq!(s.capacity(), None);
}

#[test]
fn chosen_relaxation_is_kept() {
    let (s, r) = relaxed_channel::bounded_relaxing_for::<u32>(4, 50);
    assert_eq!(s.relaxes_for(), 50);
    assert_eq!(r.relaxes_for(), 50);
    let (_s, r2) = relaxed_channel::unbounded_relaxing_for::<u32>(7);
    assert_eq!(r2.relaxes_for(), 7);
}

#[test]
fn wrapping_raw_endpoints_reads_their_capacity() {
    let (s, r) = async_channel::bounded::<u32>(3);
    let rs = RelaxedSender::relaxing_for(s, 250);
    let rr = RelaxedReceiver::new(r);
    assert_eq!(rs.relaxes_for(), 250);
    assert_eq!(rr.relaxes_for(), 100);
    assert_eq!(rs.capacity(), Some(3));
    assert_eq!(rr.capacity(), Some(3));

    let (s2, r2) = async_channel::unbounded::<u32>();
    let rs2 = RelaxedSender::new(s2);
    let rr2 = RelaxedReceiver::relaxing_for(r2, 30);
    assert_eq!(rs2.relaxes_for(), 100);
    assert_eq!(rs2.capacity(), None);
    assert_eq!(rr2.capacity(), None);
    assert_eq!(rr2.relaxes_for(), 30);
}

#[test]
fn len_tracks_buffered_messages() {
    let (s, r) = relaxed_channel::bounded::<u32>(5);
    assert_eq!(s.len(), 0);
    assert_eq!(r.len(), 0);
    assert!(matches!(s.fast_path(1), SendAction::Done));
    assert!(matches!(s.fast_path(2), SendAction::Done));
    assert_eq!(s.len(), 2);
    assert_eq!(r.len(), 2);
    assert!(matches!(r.fast_path(), RecvAction::Deliver(1)));
    assert_eq!(r.len(), 1);
}

#[test]
fn fifo_order_is_preserved() {
    let (s, r) = relaxed_channel::bounded_relaxing_for::<u32>(10, 1);
    let run = rt();
    run.block_on(async {
        for i in 0..5u32 {
            assert_eq!(drive_send(&s, i).await, Ok(()));
        }
        for i in 0..5u32 {
            assert_eq!(drive_recv(&r).await, Ok(i));
        }
    });
}

#[test]
fn competing_duplicates_each_message_delivered_once() {
    let (s, r) = relaxed_channel::bounded_relaxing_for::<u32>(10, 1);
    let r2 = r.clone();
    assert_eq!(r2.relaxes_for(), r.relaxes_for());
    assert_eq!(r2.capacity(), r.capacity());
    let run = rt();
    let mut got = run.block_on(async {
        for i in 0..6u32 {
            assert_eq!(drive_send(&s, i).await, Ok(()));
        }
        let mut got = Vec::new();
        for k in 0..6u32 {
            let m = if k % 2 == 0 { drive_recv(&r).await } else { drive_recv(&r2).await };
            got.push(m.unwrap());
        }
        got
    });
    got.sort();
    assert_eq!(got, vec![0, 1, 2, 3, 4, 5]);
}

#[test]
fn closed_drained_channel_fails_without_the_relaxation_sleep() {
    let (s, r) = relaxed_channel::bounded_relaxing_for::<u32>(1, 5_000);
    drop(s);
    let start = Instant::now();
    let res = rt().block_on(async { drive_recv(&r).await });
    assert_eq!(res, Err(RecvError));
    assert!(start.elapsed() < Duration::from_millis(1_000));
}

#[test]
fn closed_channel_send_fails_fast_returning_message() {
    let (s, r) = relaxed_channel::bounded_relaxing_for::<u32>(1, 5_000);
    drop(r);
    let start = Instant::now();
    let res = rt().block_on(async { drive_send(&s, 42).await });
    assert_eq!(res, Err(SendError(42)));
    assert!(start.elapsed() < Duration::from_millis(1_000));
}

#[test]
fn recv_after_empty_waits_out_the_relaxation() {
    let (s, r) = relaxed_channel::bounded_relaxing_for::<u32>(4, 100);
    let run = rt();
    let (res, elapsed) = run.block_on(async {
        let raw = s.inner().clone();
        tokio::spawn(async move {
            tokio::time::sleep(Duration::from_millis(30)).await;
            raw.try_send(11).unwrap();
        });
        let start = Instant::now();
        let res = drive_recv(&r).await;
        (res, start.elapsed())
    });
    assert_eq!(res, Ok(11));
    assert!(elapsed >= Duration::from_millis(100));
}

#[test]
fn send_after_full_waits_out_the_relaxation() {
    let (s, r) = relaxed_channel::bounded_relaxing_for::<u32>(2, 50);
    let run = rt();
    let (res, elapsed) = run.block_on(async {
        assert_eq!(drive_send(&s, 1).await, Ok(()));
        assert_eq!(drive_send(&s, 2).await, Ok(()));
        let raw = r.inner().clone();
        tokio::spawn(async move {
            tokio::time::sleep(Duration::from_millis(10)).await;
            raw.try_recv().unwrap();
        });
        let start = Instant::now();
        let res = drive_send(&s, 3).await;
        (res, start.elapsed())
    });
    assert_eq!(res, Ok(()));
    assert!(elapsed >= Duration::from_millis(50));
}

#[test]
fn stream_view_yields_messages_then_ends_for_good() {
    let (s, r) = relaxed_channel::bounded_relaxing_for::<u32>(5, 1);
    let run = rt();
    run.block_on(async {
        for i in 1..=3u32 {
            assert_eq!(drive_send(&s, i).await, Ok(()));
        }
        drop(s);
        let mut items = Vec::new();
        while let Some(m) = stream_next(drive_recv(&r).await) {
            items.push(m);
        }
        assert_eq!(items, vec![1, 2, 3]);
        assert_eq!(stream_next(drive_recv(&r).await), None);
        assert_eq!(stream_next(drive_recv(&r).await), None);
    });
}

#[test]
fn inner_and_into_inner_expose_the_raw_endpoint() {
    let (s, r) = relaxed_channel::bounded::<u32>(3);
    assert_eq!(s.inner().capacity(), Some(3));
    assert_eq!(r.inner().capacity(), Some(3));
    let raw_s = s.into_inner();
    raw_s.try_send(8).unwrap();
    let raw_r = r.into_inner();
    assert_eq!(raw_r.try_recv(), Ok(8));
}

#[test]
fn sender_duplicates_feed_the_same_channel() {
    let (s, r) = relaxed_channel::bounded::<u32>(4);
    let s2 = s.clone();
    assert_eq!(s2.relaxes_for(), s.relaxes_for());
    assert_eq!(s2.capacity(), s.capacity());
    assert!(matches!(s.fast_path(1), SendAction::Done));
    assert!(matches!(s2.fast_path(2), SendAction::Done));
    assert!(matches!(r.fast_path(), RecvAction::Deliver(1)));
    assert!(matches!(r.fast_path(), RecvAction::Deliver(2)));
}
