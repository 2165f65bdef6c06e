use std::cell::Cell;
use std::rc::Rc;

use tundev::error::TunError;
use tundev::posix::send_result;
use tundev::wintun::{recv_result, Phase, ReadResult, Wintun};

struct CountedSession {
    id: u32,
    releases: Rc<Cell<u32>>,
}

impl Drop for CountedSession {
    fn drop(&mut self) {
        self.releases.set(self.releases.get() + 1);
    }
}

fn started() -> Wintun {
    let mut wintun = Wintun::create([192, 168, 50, 1], [255, 255, 0, 0]);
    for _ in 0..5 {
        wintun.step(Ok(()));
    }
    assert_eq!(wintun.phase(), Phase::SessionStarted);
    wintun
}

#[test]
fn split_shares_one_session_released_once() {
    let releases = Rc::new(Cell::new(0));
    let session = CountedSession { id: 7, releases: releases.clone() };
    let (tx, rx) = match started().split(session) {
        Ok(halves) => halves,
        Err(_) => panic!("a started device splits"),
    };
    assert_eq!(tx.session().id, 7);
    assert_eq!(rx.session().id, 7);
    assert!(std::ptr::eq(tx.session(), rx.session()));
    assert_eq!(releases.get(), 0);
    drop(tx);
    assert_eq!(releases.get(), 0);
    assert_eq!(rx.session().id, 7);
    drop(rx);
    assert_eq!(releases.get(), 1);
}

#[test]
fn split_releases_once_in_the_other_order() {
    let releases = Rc::new(Cell::new(0));
    let session = CountedSession { id: 1, releases: releases.clone() };
    let (tx, rx) = match started().split(session) {
        Ok(halves) => halves,
        Err(_) => panic!("a started device splits"),
    };
    drop(rx);
    assert_eq!(releases.get(), 0);
    assert_eq!(tx.session().id, 1);
    drop(tx);
    assert_eq!(releases.get(), 1);
}

fn movable<T: Send>(value: T) -> T {
    value
}

#[test]
fn halves_are_independently_movable() {
    let (tx, rx) = match started().split(41u64) {
        Ok(halves) => halves,
        Err(_) => panic!("a started device splits"),
    };
    let tx = movable(tx);
    let rx = movable(rx);
    assert_eq!(*tx.session() + 1, 42);
    drop(tx);
    assert_eq!(*rx.session() + 2, 43);
}

#[test]
fn a_device_that_is_not_up_gives_the_session_back() {
    let releases = Rc::new(Cell::new(0));
    let fresh = Wintun::create([10, 0, 0, 1], [255, 0, 0, 0]);
    let session = CountedSession { id: 3, releases: releases.clone() };
    match fresh.split(session) {
        Ok(_) => panic!("nothing was brought up"),
        Err(returned) => {
            assert_eq!(returned.id, 3);
            assert_eq!(releases.get(), 0);
        }
    }
    assert_eq!(releases.get(), 1);

    let mut failed = Wintun::create([10, 0, 0, 1], [255, 0, 0, 0]);
    failed.step(Ok(()));
    failed.step(Err(TunError::Os(2)));
    failed.step(Err(TunError::Os(5)));
    assert_eq!(failed.phase(), Phase::Failed);
    assert!(failed.split(9u8).is_err());
}

#[test]
fn undersized_buffer_is_a_read_of_zero_bytes() {
    assert_eq!(recv_result(Ok(ReadResult::NotEnoughSize(1500))), Ok(0));
    assert_eq!(recv_result(Ok(ReadResult::NotEnoughSize(0))), Ok(0));
    assert_eq!(recv_result(Ok(ReadResult::NotEnoughSize(usize::MAX))), Ok(0));
}

#[test]
fn successful_read_gives_its_length() {
    assert_eq!(recv_result(Ok(ReadResult::Success(60))), Ok(60));
    assert_eq!(recv_result(Ok(ReadResult::Success(0))), Ok(0));
    assert_eq!(recv_result(Ok(ReadResult::Success(1450))), Ok(1450));
}

#[test]
fn read_errors_pass_through() {
    assert_eq!(recv_result(Err(TunError::Os(6))), Err(TunError::Os(6)));
    let other = TunError::Other("session closed".to_string());
    assert_eq!(recv_result(Err(other.clone())), Err(other));
}

#[test]
fn send_result_drops_the_count() {
    assert_eq!(send_result(Ok(0)), Ok(()));
    assert_eq!(send_result(Ok(1450)), Ok(()));
    assert_eq!(send_result(Err(TunError::Os(5))), Err(TunError::Os(5)));
    let other = TunError::Other("closed".to_string());
    assert_eq!(send_result(Err(other.clone())), Err(other));
}
