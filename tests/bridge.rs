use lazy_promise::{BufVec, DataState, LazyValuePromise, Message, Promise, Sliceable, Value};
use std::sync::atomic::{AtomicUsize, Ordering};
use std::sync::Arc;
use std::time::Duration;
use tokio::runtime::Runtime;
use tokio::sync::mpsc::Sender;

#[test]
fn value_test_func() {
    let string_maker = |tx: Sender<Message<String>>| async move {
        for i in 0..2 {
            tx.send(Message::NewData(i.to_string())).await.unwrap();
            tokio::time::sleep(Duration::from_millis(20)).await;
        }
        tx.send(Message::StateChange(DataState::UpToDate))
            .await
            .unwrap();
    };

    Runtime::new().unwrap().block_on(async {
        let mut delayed_value = LazyValuePromise::new(string_maker, 6);
        assert_eq!(*delayed_value.poll_state(), DataState::Updating);
        assert!(delayed_value.value().is_none());
        tokio::time::sleep(Duration::from_millis(150)).await;
        assert_eq!(*delayed_value.poll_state(), DataState::UpToDate);
        assert_eq!(delayed_value.value().unwrap(), "1");
    });
}

#[test]
fn vec_test_func() {
    let string_maker = |tx: Sender<Message<String>>| async move {
        for i in 0..5 {
            tx.send(Message::NewData(i.to_string())).await.unwrap();
            tokio::time::sleep(Duration::from_millis(20)).await;
        }
        tx.send(Message::StateChange(DataState::UpToDate))
            .await
            .unwrap();
    };

    Runtime::new().unwrap().block_on(async {
        let mut delayed_vec = BufVec::new(string_maker, 6);
        assert_eq!(*delayed_vec.poll_state(), DataState::Updating);
        assert!(delayed_vec.to_vec().is_empty());
        tokio::time::sleep(Duration::from_millis(150)).await;
        assert_eq!(*delayed_vec.poll_state(), DataState::UpToDate);
        assert_eq!(delayed_vec.to_vec().len(), 5);
    });
}

#[test]
fn value_scenario_last_value_wins() {
    let maker = |tx: Sender<Message<String>>| async move {
        tokio::time::sleep(Duration::from_millis(20)).await;
        tx.send(Message::NewData("0".to_string())).await.unwrap();
        tokio::time::sleep(Duration::from_millis(20)).await;
        tx.send(Message::NewData("1".to_string())).await.unwrap();
        tx.send(Message::StateChange(DataState::UpToDate)).await.unwrap();
    };
    Runtime::new().unwrap().block_on(async {
        let mut bridge = LazyValuePromise::new(maker, 6);
        assert_eq!(*bridge.poll_state(), DataState::Updating);
        assert_eq!(bridge.value(), None);
        tokio::time::sleep(Duration::from_millis(150)).await;
        assert_eq!(*bridge.poll_state(), DataState::UpToDate);
        assert_eq!(bridge.value(), Some(&"1".to_string()));
    });
}

#[test]
fn vec_scenario_five_items() {
    let maker = |tx: Sender<Message<String>>| async move {
        for i in 0..5 {
            tx.send(Message::NewData(i.to_string())).await.unwrap();
            tokio::time::sleep(Duration::from_millis(20)).await;
        }
        tx.send(Message::StateChange(DataState::UpToDate)).await.unwrap();
    };
    Runtime::new().unwrap().block_on(async {
        let mut bridge = BufVec::new(maker, 6);
        assert_eq!(*bridge.poll_state(), DataState::Updating);
        assert_eq!(bridge.as_slice().len(), 0);
        tokio::time::sleep(Duration::from_millis(150)).await;
        assert_eq!(*bridge.poll_state(), DataState::UpToDate);
        assert_eq!(bridge.as_slice(), &["0", "1", "2", "3", "4"]);
    });
}

#[test]
fn fresh_bridge_starts_nothing_until_polled() {
    let runs = Arc::new(AtomicUsize::new(0));
    let counter = runs.clone();
    let maker = move |tx: Sender<Message<u32>>| {
        counter.fetch_add(1, Ordering::SeqCst);
        async move {
            tokio::time::sleep(Duration::from_millis(50)).await;
            tx.send(Message::StateChange(DataState::UpToDate)).await.unwrap();
        }
    };
    Runtime::new().unwrap().block_on(async {
        let mut bridge = LazyValuePromise::new(maker, 4);
        tokio::time::sleep(Duration::from_millis(20)).await;
        assert_eq!(runs.load(Ordering::SeqCst), 0);
        assert_eq!(*bridge.poll_state(), DataState::Updating);
        assert_eq!(runs.load(Ordering::SeqCst), 1);
        assert_eq!(*bridge.poll_state(), DataState::Updating);
        assert_eq!(runs.load(Ordering::SeqCst), 1);
    });
}

#[test]
fn update_twice_starts_one_run() {
    let runs = Arc::new(AtomicUsize::new(0));
    let counter = runs.clone();
    let maker = move |tx: Sender<Message<u32>>| {
        counter.fetch_add(1, Ordering::SeqCst);
        async move {
            tokio::time::sleep(Duration::from_millis(50)).await;
            tx.send(Message::StateChange(DataState::UpToDate)).await.unwrap();
        }
    };
    Runtime::new().unwrap().block_on(async {
        let mut bridge = BufVec::new(maker, 4);
        bridge.update();
        bridge.update();
        assert_eq!(runs.load(Ordering::SeqCst), 1);
        assert_eq!(*bridge.poll_state(), DataState::Updating);
        assert_eq!(runs.load(Ordering::SeqCst), 1);
        tokio::time::sleep(Duration::from_millis(150)).await;
        assert_eq!(*bridge.poll_state(), DataState::UpToDate);
        bridge.update();
        bridge.update();
        assert_eq!(runs.load(Ordering::SeqCst), 2);
    });
}

#[test]
fn polls_keep_the_order_sent() {
    let maker = |tx: Sender<Message<i32>>| async move {
        for i in 1..=3 {
            tx.send(Message::NewData(i)).await.unwrap();
            tokio::time::sleep(Duration::from_millis(5)).await;
        }
        tx.send(Message::StateChange(DataState::UpToDate)).await.unwrap();
    };
    Runtime::new().unwrap().block_on(async {
        let mut bridge = BufVec::new(maker, 1);
        let mut seen: Vec<Vec<i32>> = Vec::new();
        for _ in 0..200 {
            let state = bridge.poll_state().clone();
            seen.push(bridge.as_slice().to_vec());
            if state == DataState::UpToDate {
                break;
            }
            tokio::time::sleep(Duration::from_millis(2)).await;
        }
        assert_eq!(*bridge.poll_state(), DataState::UpToDate);
        assert_eq!(bridge.as_slice(), &[1, 2, 3]);
        for view in &seen {
            assert_eq!(view.as_slice(), &[1, 2, 3][..view.len()]);
        }
    });
}

#[test]
fn value_update_clears_at_once() {
    let maker = |tx: Sender<Message<String>>| async move {
        tokio::time::sleep(Duration::from_millis(30)).await;
        tx.send(Message::NewData("A".to_string())).await.unwrap();
        tx.send(Message::StateChange(DataState::UpToDate)).await.unwrap();
    };
    Runtime::new().unwrap().block_on(async {
        let mut bridge = LazyValuePromise::new(maker, 4);
        bridge.poll_state();
        tokio::time::sleep(Duration::from_millis(120)).await;
        assert_eq!(*bridge.poll_state(), DataState::UpToDate);
        assert_eq!(bridge.value(), Some(&"A".to_string()));
        bridge.update();
        assert_eq!(*bridge.poll_state(), DataState::Updating);
        assert_eq!(bridge.value(), None);
    });
}

#[test]
fn vec_update_clears_at_once() {
    let maker = |tx: Sender<Message<String>>| async move {
        tokio::time::sleep(Duration::from_millis(30)).await;
        tx.send(Message::NewData("A".to_string())).await.unwrap();
        tx.send(Message::StateChange(DataState::UpToDate)).await.unwrap();
    };
    Runtime::new().unwrap().block_on(async {
        let mut bridge = BufVec::new(maker, 4);
        bridge.poll_state();
        tokio::time::sleep(Duration::from_millis(120)).await;
        assert_eq!(*bridge.poll_state(), DataState::UpToDate);
        assert_eq!(bridge.to_vec(), &vec!["A".to_string()]);
        bridge.update();
        assert_eq!(*bridge.poll_state(), DataState::Updating);
        assert!(bridge.as_slice().is_empty());
    });
}

#[test]
fn error_is_terminal_until_update() {
    let maker = |tx: Sender<Message<String>>| async move {
        tx.send(Message::StateChange(DataState::Error("boom".to_string())))
            .await
            .unwrap();
    };
    Runtime::new().unwrap().block_on(async {
        let mut bridge = LazyValuePromise::new(maker, 4);
        bridge.poll_state();
        tokio::time::sleep(Duration::from_millis(100)).await;
        assert_eq!(*bridge.poll_state(), DataState::Error("boom".to_string()));
        assert_eq!(bridge.value(), None);
        tokio::time::sleep(Duration::from_millis(20)).await;
        assert_eq!(*bridge.poll_state(), DataState::Error("boom".to_string()));
        bridge.update();
        assert_eq!(bridge.value(), None);
        assert_ne!(*bridge.poll_state(), DataState::Error("boom".to_string()));
    });
}

#[test]
fn vec_keeps_items_that_came_before_an_error() {
    let maker = |tx: Sender<Message<u8>>| async move {
        tx.send(Message::NewData(7)).await.unwrap();
        tx.send(Message::StateChange(DataState::Error("lost".to_string())))
            .await
            .unwrap();
    };
    Runtime::new().unwrap().block_on(async {
        let mut bridge = BufVec::new(maker, 4);
        bridge.poll_state();
        tokio::time::sleep(Duration::from_millis(100)).await;
        assert_eq!(*bridge.poll_state(), DataState::Error("lost".to_string()));
        assert_eq!(bridge.as_slice(), &[7]);
    });
}

#[test]
fn poll_without_runtime_reports_error() {
    let runs = Arc::new(AtomicUsize::new(0));
    let counter = runs.clone();
    let maker = move |tx: Sender<Message<u8>>| {
        counter.fetch_add(1, Ordering::SeqCst);
        async move {
            let _ = tx.send(Message::StateChange(DataState::UpToDate)).await;
        }
    };
    let mut bridge = LazyValuePromise::new(maker, 2);
    assert_eq!(
        *bridge.poll_state(),
        DataState::Error(lazy_promise::state::NO_RUNTIME.to_string())
    );
    assert_eq!(runs.load(Ordering::SeqCst), 0);
    assert_eq!(bridge.value(), None);
}

#[test]
fn one_poll_takes_at_most_capacity_messages() {
    let maker = |tx: Sender<Message<u8>>| async move {
        for i in 0..4 {
            tx.send(Message::NewData(i)).await.unwrap();
        }
        tx.send(Message::StateChange(DataState::UpToDate)).await.unwrap();
    };
    Runtime::new().unwrap().block_on(async {
        let mut bridge = BufVec::new(maker, 2);
        bridge.poll_state();
        tokio::time::sleep(Duration::from_millis(100)).await;
        bridge.poll_state();
        assert!(bridge.as_slice().len() <= 2);
        for _ in 0..50 {
            if *bridge.poll_state() == DataState::UpToDate {
                break;
            }
            tokio::time::sleep(Duration::from_millis(5)).await;
        }
        assert_eq!(*bridge.poll_state(), DataState::UpToDate);
        assert_eq!(bridge.as_slice(), &[0, 1, 2, 3]);
    });
}

#[test]
fn value_fold_replaces_value_and_state() {
    let maker = |tx: Sender<Message<u32>>| async move {
        tokio::time::sleep(Duration::from_millis(200)).await;
        let _ = tx.send(Message::StateChange(DataState::UpToDate)).await;
    };
    Runtime::new().unwrap().block_on(async {
        let mut bridge = LazyValuePromise::new(maker, 4);
        assert_eq!(*bridge.poll_state(), DataState::Updating);
        bridge.fold(Message::NewData(1));
        bridge.fold(Message::NewData(2));
        assert_eq!(bridge.value(), Some(&2));
        bridge.fold(Message::StateChange(DataState::Error("e".to_string())));
        assert_eq!(*bridge.poll_state(), DataState::Error("e".to_string()));
        assert_eq!(bridge.value(), Some(&2));
    });
}

#[test]
fn vec_fold_appends_in_order() {
    let maker = |tx: Sender<Message<u32>>| async move {
        tokio::time::sleep(Duration::from_millis(200)).await;
        let _ = tx.send(Message::StateChange(DataState::UpToDate)).await;
    };
    Runtime::new().unwrap().block_on(async {
        let mut bridge = BufVec::new(maker, 4);
        assert_eq!(*bridge.poll_state(), DataState::Updating);
        bridge.fold(Message::NewData(5));
        bridge.fold(Message::NewData(3));
        bridge.fold(Message::StateChange(DataState::UpToDate));
        assert_eq!(bridge.as_slice(), &[5, 3]);
        assert_eq!(*bridge.poll_state(), DataState::UpToDate);
    });
}
