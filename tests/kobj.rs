use rtt_rust::mutex::Mutex;
use rtt_rust::queue::Queue;
use rtt_rust::sem::Semaphore;
use rtt_rust::thread::{startup_result, Thread, DEFAULT_PRIORITY, DEFAULT_STACK_SIZE, DEFAULT_TICK};
use rtt_rust::time::{panic_on_atomic_context, Wait, WaitAction, WAITING_FOREVER, WAITING_NO};
use rtt_rust::RTTError;

#[test]
fn queue_is_fifo() {
    let mut q: Queue<u32> = Queue::new(3);
    assert_eq!(q.send(1, 0), Ok(()));
    assert_eq!(q.send(2, 0), Ok(()));
    assert_eq!(q.send(3, 0), Ok(()));
    assert_eq!(q.recv(0), Ok(1));
    assert_eq!(q.recv(0), Ok(2));
    assert_eq!(q.recv(0), Ok(3));
}

#[test]
fn full_queue_send_fails_without_blocking() {
    let mut q: Queue<u32> = Queue::new(2);
    assert_eq!(q.try_send(1), Ok(()));
    assert_eq!(q.try_send(2), Ok(()));
    assert_eq!(q.try_send(3), Err(RTTError::QueueSendTimeout));
    assert_eq!(q.send(4, 5), Err(RTTError::QueueSendTimeout));
    assert_eq!(q.len(), 2);
    assert_eq!(q.try_recv(), Ok(1));
    assert_eq!(q.try_recv(), Ok(2));
}

#[test]
fn empty_queue_recv_fails_without_blocking() {
    let mut q: Queue<String> = Queue::new(1);
    assert_eq!(q.try_recv(), Err(RTTError::QueueReceiveTimeout));
    assert_eq!(q.recv(10), Err(RTTError::QueueReceiveTimeout));
    assert_eq!(q.send(String::from("msg"), WAITING_FOREVER), Ok(()));
    assert_eq!(q.recv_wait_forever(), Ok(String::from("msg")));
    assert_eq!(q.capacity(), 1);
}

#[test]
fn queue_of_one_slot_alternates() {
    let mut q: Queue<u8> = Queue::new(1);
    for i in 0..5u8 {
        assert_eq!(q.try_send(i), Ok(()));
        assert_eq!(q.try_send(i), Err(RTTError::QueueSendTimeout));
        assert_eq!(q.try_recv(), Ok(i));
    }
}

#[test]
fn semaphore_counts_releases() {
    let n = 4;
    let mut s = Semaphore::new();
    for _ in 0..n {
        s.release();
    }
    assert_eq!(s.value(), 4);
    for _ in 0..n {
        assert_eq!(s.take(0), Ok(()));
    }
    assert_eq!(s.take(0), Err(RTTError::SemaphoreTakeTimeout));
    assert_eq!(s.try_take(), Err(RTTError::SemaphoreTakeTimeout));
}

#[test]
fn semaphore_wait_forever_takes_a_unit() {
    let mut s = Semaphore::new();
    s.release();
    assert_eq!(s.take_wait_forever(), Ok(()));
    assert_eq!(s.value(), 0);
    assert_eq!(s.take(3), Err(RTTError::SemaphoreTakeTimeout));
}

#[test]
fn mutex_guards_its_value() {
    let mut m = Mutex::new(0u32);
    assert_eq!(m.lock(), Ok(()));
    assert_eq!(m.try_lock(0), Err(RTTError::MutexTakeTimeout));
    assert_eq!(m.try_lock(7), Err(RTTError::MutexTakeTimeout));
    let v = *m.get();
    m.set(v + 1);
    m.unlock();
    assert_eq!(m.try_lock(0), Ok(()));
    assert_eq!(*m.get(), 1);
    m.unlock();
}

#[test]
fn mutex_counter_loses_no_update() {
    let mut m = Mutex::new(0u64);
    let threads = 3;
    let n = 100;
    for _ in 0..threads {
        for _ in 0..n {
            assert_eq!(m.lock(), Ok(()));
            let v = *m.get();
            m.set(v + 1);
            m.unlock();
        }
    }
    assert_eq!(m.try_lock(0), Ok(()));
    assert_eq!(*m.get(), 300);
}

#[test]
fn wait_times_out_after_its_ticks() {
    let mut w = Wait::new(3);
    let mut actions = Vec::new();
    for _ in 0..4 {
        actions.push(w.step(false));
    }
    assert_eq!(
        actions,
        vec![WaitAction::Block, WaitAction::Block, WaitAction::Block, WaitAction::TimedOut]
    );
}

#[test]
fn zero_timeout_never_blocks() {
    let mut w = Wait::new(WAITING_NO);
    assert_eq!(w.step(false), WaitAction::TimedOut);
    let mut w = Wait::new(WAITING_NO);
    assert_eq!(w.step(true), WaitAction::Acquire);
}

#[test]
fn forever_wait_blocks_until_available() {
    let mut w = Wait::new(WAITING_FOREVER);
    for _ in 0..1000 {
        assert_eq!(w.step(false), WaitAction::Block);
    }
    assert_eq!(w.step(true), WaitAction::Acquire);
}

#[test]
fn wait_acquires_when_resource_comes_in_time() {
    let mut w = Wait::new(5);
    assert_eq!(w.step(false), WaitAction::Block);
    assert_eq!(w.step(false), WaitAction::Block);
    assert_eq!(w.step(true), WaitAction::Acquire);
}

#[test]
fn blocking_in_interrupt_context_aborts() {
    assert!(panic_on_atomic_context(1));
    assert!(panic_on_atomic_context(3));
    assert!(!panic_on_atomic_context(0));
}

#[test]
fn thread_builder_defaults_and_settings() {
    let t = Thread::new();
    assert_eq!(t.get_name(), "uname");
    assert_eq!(t.get_stack_size(), DEFAULT_STACK_SIZE);
    assert_eq!(t.get_priority(), DEFAULT_PRIORITY);
    assert_eq!(t.get_tick(), DEFAULT_TICK);
    let t = t.name("thread 1").stack_size(1024).priority(20).tick(5);
    assert_eq!(t.get_name(), "thread 1");
    assert_eq!(t.get_stack_size(), 1024);
    assert_eq!(t.get_priority(), 20);
    assert_eq!(t.get_tick(), 5);
}

#[test]
fn thread_startup_failures() {
    assert_eq!(startup_result(0, 0).err(), Some(RTTError::ThreadStartupErr));
    assert_eq!(startup_result(0x1000, -1).err(), Some(RTTError::ThreadStartupErr));
    assert_eq!(startup_result(0x1000, 0).ok().map(|h| h.raw()), Some(0x1000));
}
