use std::cell::RefCell;
use std::rc::Rc;

use vstd::prelude::*;

use taskio::io::{Read, ReadTask};
use taskio::stream::{from_vec, ForEach};
use taskio::task::{delayed, from_generator, ready, Generator, GeneratorState};
use taskio::{Poll, Stream, Task};

#[test]
fn ready_completes_on_first_poll() {
    let mut t = ready(41);
    let r = t.poll();
    assert_eq!(r, Poll::Ready(41));
    assert!(t.value.is_none());
}

#[test]
fn ready_unit_value() {
    let t = ready(());
    assert_eq!(t.block_on(), ());
}

#[test]
fn is_ready_queries_the_variant() {
    assert!(Poll::Ready(7).is_ready());
    assert!(!Poll::<u8>::Pending.is_ready());
}

#[test]
fn map_transforms_the_ready_value() {
    let p = Poll::Ready(21);
    assert_eq!(p.map(|x: i32| x * 2), Poll::Ready(42));
}

#[test]
fn map_passes_pending_through() {
    let p: Poll<i32> = Poll::Pending;
    assert_eq!(p.map(|x: i32| x * 2), Poll::Pending);
}

#[test]
fn from_nb_ok_is_ready_ok() {
    let v: nb::Result<u32, &str> = Ok(3);
    assert_eq!(Poll::from(v), Poll::Ready(Ok(3)));
}

#[test]
fn from_nb_other_is_ready_err() {
    let v: nb::Result<u32, &str> = Err(nb::Error::Other("overrun"));
    assert_eq!(Poll::from(v), Poll::Ready(Err("overrun")));
}

#[test]
fn from_nb_would_block_is_pending() {
    let v: nb::Result<u32, &str> = Err(nb::Error::WouldBlock);
    assert_eq!(Poll::from(v), Poll::Pending);
}

#[test]
fn delayed_pends_n_times_then_completes() {
    let mut t = delayed(3, 42);
    assert_eq!(t.poll(), Poll::Pending);
    assert_eq!(t.poll(), Poll::Pending);
    assert_eq!(t.poll(), Poll::Pending);
    assert_eq!(t.poll(), Poll::Ready(42));
}

#[test]
fn block_on_busy_waits_to_the_value() {
    assert_eq!(delayed(5, 7).block_on(), 7);
}

#[test]
fn poll_unpin_takes_one_step() {
    assert_eq!(ready(9).poll_unpin(), Poll::Ready(9));
    assert_eq!(delayed(1, 9).poll_unpin(), Poll::<i32>::Pending);
}

/// A per-item sub-computation that records its identity when it completes
/// and may lag first.
struct Recording {
    id: i32,
    lag: u32,
    log: Rc<RefCell<Vec<i32>>>,
}

impl Task for Recording {
    type Output = ();

    fn inv(&self) -> bool {
        true
    }

    fn done(&self) -> bool {
        false
    }

    fn plan(&self) -> Option<(nat, ())> {
        None
    }

    fn poll(&mut self) -> Poll<()> {
        if self.lag > 0 {
            self.lag -= 1;
            Poll::Pending
        } else {
            self.log.borrow_mut().push(self.id);
            Poll::Ready(())
        }
    }
}

#[test]
fn for_each_applies_in_order_in_one_call() {
    let log: Rc<RefCell<Vec<i32>>> = Rc::new(RefCell::new(Vec::new()));
    let stream = from_vec(vec![1, 2, 3]);
    let inner = log.clone();
    let mut driver = ForEach::new(stream, move |i: i32| Recording {
        id: i,
        lag: 0,
        log: inner.clone(),
    });
    assert_eq!(driver.poll(), Poll::Ready(()));
    assert_eq!(*log.borrow(), vec![1, 2, 3]);
    assert!(driver.task.is_none());
    assert!(driver.stream.items.is_empty());
}

#[test]
fn for_each_pends_while_a_sub_computation_pends() {
    let log: Rc<RefCell<Vec<i32>>> = Rc::new(RefCell::new(Vec::new()));
    let stream = from_vec(vec![1, 2, 3]);
    let inner = log.clone();
    let mut driver = ForEach::new(stream, move |i: i32| Recording {
        id: i,
        lag: if i == 2 { 2 } else { 0 },
        log: inner.clone(),
    });
    // the driver gets through item 1 immediately, then blocks on item 2
    assert_eq!(driver.poll(), Poll::Pending);
    assert_eq!(*log.borrow(), vec![1]);
    // item 2 still lags one more step; item 3 is not pulled yet
    assert_eq!(driver.poll(), Poll::Pending);
    assert_eq!(*log.borrow(), vec![1]);
    // item 2 completes, then item 3 runs immediately and the stream ends
    assert_eq!(driver.poll(), Poll::Ready(()));
    assert_eq!(*log.borrow(), vec![1, 2, 3]);
}

#[test]
fn for_each_of_an_empty_stream_completes_at_once() {
    let stream = from_vec(Vec::<i32>::new());
    let mut driver = ForEach::new(stream, |_i: i32| ready(()));
    assert_eq!(driver.poll(), Poll::Ready(()));
}

#[test]
fn map_may_change_the_carried_type() {
    let p = Poll::Ready(3);
    assert_eq!(p.map(|x: i32| x > 0), Poll::Ready(true));
}

#[test]
fn vec_stream_yields_each_item_then_ends() {
    let mut s = from_vec(vec![4, 5]);
    assert_eq!(s.poll_next(), Poll::Ready(Some(4)));
    assert_eq!(s.poll_next(), Poll::Ready(Some(5)));
    assert_eq!(s.poll_next(), Poll::Ready(None));
    assert!(s.finished);
}

/// A byte source that writes a scripted prefix into the destination once.
struct ScriptedSource {
    data: Vec<u8>,
}

impl Read for ScriptedSource {
    type Error = &'static str;

    fn inv(&self) -> bool {
        true
    }

    fn read_step(
        _: &Self,
        _: &Self,
        _: Seq<u8>,
        _: Seq<u8>,
        _: Poll<Result<usize, &'static str>>,
    ) -> bool {
        true
    }

    fn poll_read(&mut self, buf: &mut Vec<u8>) -> Poll<Result<usize, &'static str>> {
        let n = self.data.len().min(buf.len());
        for (i, b) in self.data.iter().take(n).enumerate() {
            buf[i] = *b;
        }
        Poll::Ready(Ok(n))
    }
}

/// A byte source that always reports a framing failure.
struct FailingSource;

impl Read for FailingSource {
    type Error = &'static str;

    fn inv(&self) -> bool {
        true
    }

    fn read_step(
        _: &Self,
        _: &Self,
        _: Seq<u8>,
        _: Seq<u8>,
        _: Poll<Result<usize, &'static str>>,
    ) -> bool {
        true
    }

    fn poll_read(&mut self, _buf: &mut Vec<u8>) -> Poll<Result<usize, &'static str>> {
        Poll::Ready(Err("overrun"))
    }
}

#[test]
fn read_task_fills_the_buffer_prefix() {
    let source = ScriptedSource { data: vec![10, 20, 30] };
    let mut task = ReadTask::new(source, vec![0, 0, 0]);
    assert_eq!(task.poll(), Poll::Ready(Ok(3)));
    assert_eq!(task.buf, vec![10, 20, 30]);
}

#[test]
fn read_task_forwards_an_error_unchanged() {
    let mut task = ReadTask::new(FailingSource, vec![0, 0]);
    assert_eq!(task.poll(), Poll::Ready(Err("overrun")));
    assert_eq!(task.buf, vec![0, 0]);
}

/// A routine that suspends a fixed number of times before returning.
struct Suspending {
    left: u32,
    value: Option<i32>,
}

impl Generator for Suspending {
    type Return = i32;

    fn inv(&self) -> bool {
        true
    }

    fn done(&self) -> bool {
        false
    }

    fn plan(&self) -> Option<(nat, i32)> {
        None
    }

    fn resume(&mut self) -> GeneratorState<i32> {
        if self.left > 0 {
            self.left -= 1;
            GeneratorState::Yielded
        } else {
            GeneratorState::Complete(self.value.take().expect("resumed after completion"))
        }
    }
}

#[test]
fn from_generator_maps_suspensions_to_pending() {
    let mut task = from_generator(Suspending { left: 2, value: Some(11) });
    assert_eq!(task.poll(), Poll::Pending);
    assert_eq!(task.poll(), Poll::Pending);
    assert_eq!(task.poll(), Poll::Ready(11));
}

#[test]
fn from_generator_blocks_on_to_the_return_value() {
    let task = from_generator(Suspending { left: 4, value: Some(-3) });
    assert_eq!(task.block_on(), -3);
}
