use std::sync::{Arc, Mutex};
use std::time::Duration;

use async_flow::coroutine::AsyncCoroutine;
use async_flow::flow::Generator;
use async_flow::future::AsyncFuture;
use async_flow::host::StepHost;
use async_flow::kernel::AsyncKernel;

const MS: u64 = 1_000_000;

struct IdleHost;

impl StepHost<i32> for IdleHost {
    fn timer_elapsed(&mut self, _id: u128) {}
    fn periodic_elapsed(&mut self, _id: u128) {}
    fn trigger_condition(&mut self, _id: u128) -> bool {
        false
    }
    fn trigger_fired(&mut self, _id: u128) {}
    fn coroutine_step(&mut self, _id: u128) -> Option<i32> {
        None
    }
}

#[test]
fn test_async_coroutine_completes_after_task_finishes() {
    let rt = tokio::runtime::Runtime::new().unwrap();
    let flag = Arc::new(Mutex::new(false));
    let task_flag = flag.clone();
    let handle = rt.spawn(async move {
        tokio::time::sleep(Duration::from_millis(120)).await;
        *task_flag.lock().unwrap() = true;
    });
    let mut co = AsyncCoroutine::new(handle);
    assert!(!co.base.is_completed());
    // the work is still running: an early poll must observe it unfinished
    assert!(!co.step());
    assert!(!co.base.is_completed());
    assert!(co.handle.is_some());
    rt.block_on(async { tokio::time::sleep(Duration::from_millis(200)).await });
    let mut polls = 0;
    while !co.step() && polls < 1000 {
        rt.block_on(async { tokio::time::sleep(Duration::from_millis(5)).await });
        polls += 1;
    }
    assert!(co.base.is_completed());
    assert!(!co.base.is_running());
    assert!(co.handle.is_none());
    assert!(*flag.lock().unwrap());
    // completed: further polls are no-ops
    assert!(!co.step());
}

#[test]
fn test_async_coroutine_runs_before_being_stepped() {
    let rt = tokio::runtime::Runtime::new().unwrap();
    let counter = Arc::new(Mutex::new(0u32));
    let task_counter = counter.clone();
    let handle = rt.spawn(async move {
        *task_counter.lock().unwrap() += 1;
    });
    // work starts at spawn time, decoupled from polling
    rt.block_on(async { tokio::time::sleep(Duration::from_millis(100)).await });
    assert_eq!(*counter.lock().unwrap(), 1);
    let mut co = AsyncCoroutine::new(handle);
    assert!(co.step());
    assert!(co.base.is_completed());
}

#[test]
fn test_async_coroutine_under_kernel() {
    let rt = tokio::runtime::Runtime::new().unwrap();
    let handle = rt.spawn(async {
        tokio::time::sleep(Duration::from_millis(20)).await;
    });
    let mut kernel: AsyncKernel<i32> = AsyncKernel::new();
    kernel.add_child(Generator::Coroutine(AsyncCoroutine::new(handle)));
    let mut host = IdleHost;
    let mut cycles = 0;
    while kernel.child_count() > 0 && cycles < 1000 {
        rt.block_on(async { tokio::time::sleep(Duration::from_millis(5)).await });
        kernel.update(5 * MS, &mut host);
        cycles += 1;
    }
    assert_eq!(kernel.child_count(), 0);
}

#[test]
fn test_future_broadcasts_to_concurrent_waiters() {
    let rt = tokio::runtime::Runtime::new().unwrap();
    let cell: Arc<Mutex<AsyncFuture<i32>>> = Arc::new(Mutex::new(AsyncFuture::new()));
    let mut waiters = Vec::new();
    for _ in 0..5 {
        let cell = cell.clone();
        waiters.push(rt.spawn(async move {
            loop {
                if let Some(v) = cell.lock().unwrap().get_value() {
                    return v;
                }
                tokio::time::sleep(Duration::from_millis(2)).await;
            }
        }));
    }
    rt.block_on(async { tokio::time::sleep(Duration::from_millis(40)).await });
    cell.lock().unwrap().set_value(42);
    assert!(cell.lock().unwrap().is_ready());
    for w in waiters {
        let got = rt.block_on(w).unwrap();
        assert_eq!(got, 42);
    }
}
