use tokio_sync2async::{make_runtime, sync_await};

use std::time::Duration;
use std::time::Instant;

async fn async_fn() -> i32 {
    42
}

// Equivalent to `async_fn().await` but inside a sync `fn`.
fn sync_fn() -> i32 {
    sync_await(async_fn())
}

#[test]
fn test_sync_await() {
    let rt = make_runtime().unwrap();
    rt.block_on(async { assert_eq!(sync_fn(), 42) });
}

async fn delayed_done() -> &'static str {
    tokio::time::sleep(Duration::from_millis(50)).await;
    "done"
}

fn sync_done() -> &'static str {
    sync_await(delayed_done())
}

#[test]
fn timer_resolves_then_value_returns() {
    let rt = make_runtime().unwrap();
    rt.block_on(async {
        let start = Instant::now();
        assert_eq!(sync_done(), "done");
        assert!(start.elapsed() >= Duration::from_millis(50));
    });
}

fn inner_sync() -> i32 {
    sync_await(async { 21 })
}

async fn outer_computation() -> i32 {
    let inner = tokio::task::spawn_blocking(inner_sync).await.unwrap();
    inner * 2
}

fn outer_sync() -> i32 {
    sync_await(outer_computation())
}

#[test]
fn nested_bridge_calls_complete() {
    let rt = make_runtime().unwrap();
    let v = rt.block_on(async { tokio::task::spawn_blocking(outer_sync).await.unwrap() });
    assert_eq!(v, 42);
}

fn bridge_value(i: i64) -> i64 {
    sync_await(async move { i * 10 + 1 })
}

#[test]
fn concurrent_bridge_calls_are_independent() {
    let rt = make_runtime().unwrap();
    rt.block_on(async {
        let mut handles = Vec::new();
        let mut i: i64 = 0;
        while i < 8 {
            handles.push(tokio::task::spawn_blocking(move || bridge_value(i)));
            i += 1;
        }
        let mut expected: i64 = 0;
        for handle in handles {
            assert_eq!(handle.await.unwrap(), expected * 10 + 1);
            expected += 1;
        }
    });
}

#[test]
fn two_worker_runtime_returns_42() {
    let rt = tokio::runtime::Builder::new_multi_thread()
        .worker_threads(2)
        .enable_all()
        .build()
        .unwrap();
    rt.block_on(async { assert_eq!(sync_fn(), 42) });
}

#[test]
fn runtimes_built_twice_are_independent() {
    let rt1 = make_runtime().unwrap();
    let rt2 = make_runtime().unwrap();
    let a = rt1.block_on(async { sync_fn() });
    let b = rt2.block_on(async { sync_done() });
    assert_eq!(a, 42);
    assert_eq!(b, "done");
    drop(rt2);
    let c = rt1.block_on(async { sync_fn() });
    assert_eq!(c, 42);
}
