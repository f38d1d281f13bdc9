use rquickjs_test::adapter::{received, send_outcome, AdapterError, OneshotAdapter, TxAdapter};
use tokio::sync::{mpsc, oneshot};

fn runtime() -> tokio::runtime::Runtime {
    tokio::runtime::Builder::new_current_thread().build().unwrap()
}

#[test]
fn send_adapter_delivers_string_unmodified() {
    let (tx, mut rx) = mpsc::unbounded_channel::<String>();
    let adapter = TxAdapter::new(tx);
    assert_eq!(adapter.send("Hello from JS".to_string()), Ok(()));
    assert_eq!(rx.try_recv().unwrap(), "Hello from JS");
}

#[test]
fn receive_adapter_yields_values_in_order() {
    let (tx, mut rx) = mpsc::unbounded_channel::<u32>();
    let adapter = TxAdapter::new(tx);
    for v in [3u32, 1, 4, 1, 5] {
        assert_eq!(adapter.send(v), Ok(()));
    }
    drop(adapter);
    let rt = runtime();
    let mut got = Vec::new();
    loop {
        match received(rt.block_on(rx.recv())) {
            Ok(v) => got.push(v),
            Err(e) => {
                assert_eq!(e, AdapterError::RxChannelClosed);
                break;
            }
        }
    }
    assert_eq!(got, vec![3, 1, 4, 1, 5]);
}

#[test]
fn receive_after_sender_dropped_is_closed() {
    let (tx, mut rx) = mpsc::unbounded_channel::<String>();
    drop(tx);
    let rt = runtime();
    assert_eq!(received(rt.block_on(rx.recv())), Err(AdapterError::RxChannelClosed));
    assert_eq!(received(rt.block_on(rx.recv())), Err(AdapterError::RxChannelClosed));
}

#[test]
fn send_after_receiver_dropped_is_closed() {
    let (tx, rx) = mpsc::unbounded_channel::<String>();
    drop(rx);
    let adapter = TxAdapter::new(tx);
    assert_eq!(adapter.send("lost".to_string()), Err(AdapterError::TxChannelClosed));
}

#[test]
fn oneshot_fires_once() {
    let (tx, mut rx) = oneshot::channel::<String>();
    let mut adapter = OneshotAdapter::new(tx);
    assert!(!adapter.is_resolved());
    assert_eq!(adapter.fire("done".to_string()), Ok(()));
    assert!(adapter.is_resolved());
    assert_eq!(rx.try_recv().unwrap(), "done");
    assert_eq!(adapter.fire("again".to_string()), Err(AdapterError::AlreadyResolved));
    assert_eq!(adapter.fire("more".to_string()), Err(AdapterError::AlreadyResolved));
}

#[test]
fn oneshot_with_dropped_receiver() {
    let (tx, rx) = oneshot::channel::<u8>();
    drop(rx);
    let mut adapter = OneshotAdapter::new(tx);
    assert_eq!(adapter.fire(1), Err(AdapterError::TxChannelClosed));
    assert_eq!(adapter.fire(2), Err(AdapterError::AlreadyResolved));
}

#[test]
fn send_outcome_maps_undelivered_value() {
    assert_eq!(send_outcome::<u8>(Ok(())), Ok(()));
    assert_eq!(send_outcome(Err(7u8)), Err(AdapterError::TxChannelClosed));
}

#[test]
fn received_passes_value_through() {
    assert_eq!(received(Some(42i32)), Ok(42));
    assert_eq!(received::<i32>(None), Err(AdapterError::RxChannelClosed));
}

#[test]
fn adapter_error_messages() {
    assert_eq!(AdapterError::LockPoisoned.message(), "Mutex Error");
    assert_eq!(AdapterError::TxChannelClosed.message(), "TX Channel Closed");
    assert_eq!(AdapterError::RxChannelClosed.message(), "RX Channel Closed");
    assert_eq!(AdapterError::AlreadyResolved.message(), "Already Resolved");
}
