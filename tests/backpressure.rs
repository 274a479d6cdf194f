use nostrgraph_pow_service::connection::{send_failure_reported, SendOutcome};
use nostrgraph_pow_service::session::{notice_frame, OUTBOUND_QUEUE_CAPACITY, SEND_TIMEOUT_MS};
use tokio::sync::mpsc;
use tokio::sync::mpsc::error::SendTimeoutError;
use tokio::time::Duration;

fn classify<T>(r: Result<(), SendTimeoutError<T>>) -> SendOutcome {
    match r {
        Ok(()) => SendOutcome::Queued,
        Err(SendTimeoutError::Timeout(_)) => SendOutcome::TimedOut,
        Err(SendTimeoutError::Closed(_)) => SendOutcome::Closed,
    }
}

#[test]
fn overflow_is_dropped_silently_and_closed_queue_is_reported() {
    let rt = tokio::runtime::Builder::new_current_thread().enable_time().build().unwrap();
    rt.block_on(async {
        let (tx, mut rx) = mpsc::channel::<String>(OUTBOUND_QUEUE_CAPACITY);
        let timeout = Duration::from_millis(SEND_TIMEOUT_MS);
        for i in 0..OUTBOUND_QUEUE_CAPACITY {
            let outcome = classify(tx.send_timeout(notice_frame(&i.to_string()), timeout).await);
            assert_eq!(outcome, SendOutcome::Queued);
        }
        for i in 0..5 {
            let outcome = classify(tx.send_timeout(notice_frame(&format!("extra {i}")), timeout).await);
            assert_eq!(outcome, SendOutcome::TimedOut);
            assert!(!send_failure_reported(outcome));
        }
        assert_eq!(rx.recv().await.unwrap(), r#"["NOTICE","0"]"#);
        rx.close();
        while rx.recv().await.is_some() {}
        drop(rx);
        let outcome = classify(tx.send_timeout(notice_frame("late"), timeout).await);
        assert_eq!(outcome, SendOutcome::Closed);
        assert!(send_failure_reported(outcome));
    });
}
