use std::cell::Cell;
use std::collections::HashSet;
use std::sync::Mutex;
use crossbeam_utils::thread;

use allocator_api2::alloc::{AllocError, Global};
use treiber_queue::{Allocator, Queue};

#[test]
fn push_pop() {
    let mut queue = Queue::new_in(Global);

    queue.push(1);
    queue.push(2);
    queue.push(3);
    assert_eq!(queue.pop(), Some(3));
    assert_eq!(queue.pop(), Some(2));
    queue.push(4);
    assert_eq!(queue.pop(), Some(4));
    assert_eq!(queue.pop(), Some(1));
    assert_eq!(queue.pop(), None);
}

struct DetectDrop<'a>(&'a Cell<i32>);

impl Drop for DetectDrop<'_> {
    fn drop(&mut self) {
        self.0.set(self.0.get() + 1);
    }
}

#[test]
fn drops() {
    let mut queue = Queue::new_in(Global);
    let drops = Cell::new(0);

    queue.push(DetectDrop(&drops));
    queue.push(DetectDrop(&drops));
    queue.push(DetectDrop(&drops));
    queue.push(DetectDrop(&drops));
    queue.push(DetectDrop(&drops));
    drop(queue);

    assert_eq!(drops.get(), 5);
}

fn threads_impl(push_threads: usize, push_count: usize, pop_count: usize) {
    let mut queue = Queue::new_in(Global);
    let (tx, mut rx) = queue.split();

    thread::scope(|s| {
        for _ in 0..push_threads {
            let mut tx = tx.clone();
            s.spawn(move |_| {
                for i in 0..push_count {
                    tx.push(i);
                }
            });
        }

        s.spawn(move |_| {
            for _ in 0..pop_count {
                while rx.pop().is_none() {}
            }
        });
    })
    .unwrap();

    let mut len = 0;
    while let Some(_) = queue.pop() {
        len += 1;
    }
    assert_eq!(len, push_threads * push_count - pop_count);
}

#[test]
fn lib_threads() {
    threads_impl(8, 4096, 1024);
}

#[test]
fn lib_threads_small() {
    threads_impl(4, 128, 64);
}

#[test]
fn retrieval_reverses_publish_order() {
    let mut queue = Queue::new();
    queue.push('a');
    queue.push('b');
    queue.push('c');
    assert_eq!(queue.pop(), Some('c'));
    assert_eq!(queue.pop(), Some('b'));
    assert_eq!(queue.pop(), Some('a'));
    assert_eq!(queue.pop(), None);
}

#[test]
fn concurrent_publishes_are_all_kept() {
    let threads = 6;
    let per_thread = 2000;
    let mut queue: Queue<usize> = Queue::default();
    {
        let (tx, _rx) = queue.split();
        thread::scope(|s| {
            for t in 0..threads {
                let mut tx = tx.clone();
                s.spawn(move |_| {
                    for i in 0..per_thread {
                        tx.push(t * per_thread + i);
                    }
                });
            }
        })
        .unwrap();
    }
    let mut seen = vec![false; threads * per_thread];
    let mut count = 0;
    while let Some(v) = queue.pop() {
        assert!(!seen[v], "value {} came out twice", v);
        seen[v] = true;
        count += 1;
    }
    assert_eq!(count, threads * per_thread);
    assert!(seen.iter().all(|&b| b));
}

#[test]
fn consumer_runs_alongside_producers() {
    let threads = 4;
    let per_thread = 3000;
    let mut queue: Queue<usize> = Queue::new();
    let taken = Mutex::new(Vec::new());
    {
        let (tx, mut rx) = queue.split();
        let taken = &taken;
        thread::scope(|s| {
            for t in 0..threads {
                let mut tx = tx.clone();
                s.spawn(move |_| {
                    for i in 0..per_thread {
                        tx.push(t * per_thread + i);
                    }
                });
            }
            s.spawn(move |_| {
                let mut got = Vec::new();
                for _ in 0..2000 {
                    while let Some(v) = rx.pop() {
                        got.push(v);
                    }
                    std::hint::spin_loop();
                }
                taken.lock().unwrap().extend(got);
            });
        })
        .unwrap();
    }
    let mut all = taken.into_inner().unwrap();
    while let Some(v) = queue.pop() {
        all.push(v);
    }
    let distinct: HashSet<usize> = all.iter().copied().collect();
    assert_eq!(distinct.len(), all.len());
    assert_eq!(all.len(), threads * per_thread);
    assert!(all.iter().all(|&v| v < threads * per_thread));
}

/// Counts the rooms it has granted and not yet got back, and refuses the
/// request numbered `fail_on` (counting from one), if any.
struct Counting {
    calls: Cell<usize>,
    outstanding: Cell<i64>,
    fail_on: usize,
}

impl Counting {
    fn new(fail_on: usize) -> Self {
        Counting { calls: Cell::new(0), outstanding: Cell::new(0), fail_on }
    }
}

struct Room<'a>(&'a Cell<i64>);

impl Drop for Room<'_> {
    fn drop(&mut self) {
        self.0.set(self.0.get() - 1);
    }
}

impl<'a> Allocator for &'a Counting {
    type Grant = Room<'a>;

    fn infallible(&self) -> bool {
        self.fail_on == 0
    }

    fn allocate(&self) -> Result<Room<'a>, AllocError> {
        let c: &'a Counting = *self;
        c.calls.set(c.calls.get() + 1);
        if c.calls.get() == c.fail_on {
            return Err(AllocError);
        }
        c.outstanding.set(c.outstanding.get() + 1);
        Ok(Room(&c.outstanding))
    }
}

#[test]
fn teardown_releases_everything() {
    let alloc = Counting::new(0);
    let drops = Cell::new(0);
    {
        let mut queue = Queue::new_in(&alloc);
        for _ in 0..7 {
            queue.push(DetectDrop(&drops));
        }
        assert_eq!(alloc.outstanding.get(), 7);
        assert_eq!(drops.get(), 0);
    }
    assert_eq!(drops.get(), 7);
    assert_eq!(alloc.outstanding.get(), 0);
}

#[test]
fn retire_gives_room_back() {
    let alloc = Counting::new(0);
    let mut queue = Queue::new_in(&alloc);
    queue.push(10u32);
    queue.push(20u32);
    assert_eq!(alloc.outstanding.get(), 2);
    assert_eq!(queue.pop(), Some(20));
    assert_eq!(alloc.outstanding.get(), 1);
    assert_eq!(queue.pop(), Some(10));
    assert_eq!(alloc.outstanding.get(), 0);
}

#[test]
fn failed_allocation_returns_payload() {
    let alloc = Counting::new(3);
    let mut queue = Queue::new_in(&alloc);
    assert!(queue.try_push(String::from("one")).is_ok());
    assert!(queue.try_push(String::from("two")).is_ok());
    let r = queue.try_push(String::from("three"));
    assert_eq!(r, Err((String::from("three"), AllocError)));
    assert!(!queue.is_empty());
    assert!(queue.try_push(String::from("four")).is_ok());
    assert_eq!(queue.pop(), Some(String::from("four")));
    assert_eq!(queue.pop(), Some(String::from("two")));
    assert_eq!(queue.pop(), Some(String::from("one")));
    assert_eq!(queue.pop(), None);
    assert_eq!(alloc.outstanding.get(), 0);
}

#[test]
fn failed_allocation_on_empty_queue_keeps_it_empty() {
    let alloc = Counting::new(1);
    let mut queue = Queue::new_in(&alloc);
    assert_eq!(queue.try_push(5u8), Err((5u8, AllocError)));
    assert!(queue.is_empty());
    assert_eq!(queue.pop(), None);
}

#[test]
fn failed_allocation_through_producer() {
    let alloc = Counting::new(2);
    let mut queue = Queue::new_in(&alloc);
    {
        let (mut tx, mut rx) = queue.split();
        assert_eq!(tx.try_push(1i64), Ok(()));
        assert_eq!(tx.try_push(2i64), Err((2i64, AllocError)));
        assert_eq!(rx.pop(), Some(1));
        assert_eq!(rx.pop(), None);
    }
    assert!(queue.is_empty());
}

#[test]
fn emptiness_agrees_with_retire() {
    let mut queue = Queue::new();
    let script = [true, true, false, true, false, false, false, true, false, false];
    let mut next = 0u32;
    for &publish in script.iter() {
        if publish {
            queue.push(next);
            next += 1;
        } else {
            let empty = queue.is_empty();
            let got = queue.pop();
            assert_eq!(empty, got.is_none());
        }
        let empty = queue.is_empty();
        let got = queue.pop();
        assert_eq!(empty, got.is_none());
        if let Some(v) = got {
            queue.push(v);
        }
    }
}

#[test]
fn producer_and_consumer_share_the_queue() {
    let mut queue = Queue::new();
    queue.push(1u16);
    {
        let (tx, mut rx) = queue.split();
        let mut tx2 = tx.clone();
        tx2.push(2);
        assert!(std::ptr::eq(tx.queue(), rx.queue()));
        assert!(!rx.queue().is_empty());
        assert_eq!(rx.pop(), Some(2));
        assert_eq!(rx.pop(), Some(1));
        assert_eq!(rx.pop(), None);
        assert!(tx.queue().is_empty());
    }
    queue.push(3);
    assert_eq!(queue.pop(), Some(3));
}

#[test]
fn slots_are_reused_after_retire() {
    let mut queue = Queue::new();
    for round in 0..5u64 {
        for i in 0..100u64 {
            queue.push(round * 1000 + i);
        }
        for i in (0..100u64).rev() {
            assert_eq!(queue.pop(), Some(round * 1000 + i));
        }
        assert!(queue.is_empty());
    }
}

#[test]
fn split_publishes_what_the_queue_held() {
    let mut queue = Queue::new();
    queue.push(1u8);
    queue.push(2u8);
    {
        let (mut tx, mut rx) = queue.split();
        assert!(!rx.queue().is_empty());
        tx.push(3);
        assert_eq!(rx.pop(), Some(3));
        assert_eq!(rx.pop(), Some(2));
    }
    queue.push(4);
    assert_eq!(queue.pop(), Some(4));
    assert_eq!(queue.pop(), Some(1));
    assert!(queue.is_empty());
    assert_eq!(queue.pop(), None);
}

#[test]
fn publish_granted_follows_the_answer() {
    let mut queue: Queue<u32> = Queue::new();
    assert_eq!(queue.publish_granted(7, Err(AllocError)), Err((7, AllocError)));
    assert!(queue.is_empty());
    assert_eq!(queue.publish_granted(8, Ok(())), Ok(()));
    assert!(!queue.is_empty());
    assert_eq!(queue.pop(), Some(8));
}
