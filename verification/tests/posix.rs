use std::io::Write;

use tundev::posix::{Linuxtun, Mactun};

fn open() -> Option<tun::platform::Device> {
    tun::create(&tun::Configuration::default()).ok()
}

#[test]
fn linux_split_gives_two_halves_that_outlive_each_other() {
    let device = match open() {
        Some(device) => device,
        None => return,
    };
    let (mut tx, rx) = Linuxtun::new(device).split();
    assert!(tx.tx.flush().is_ok());
    drop(rx);
    assert!(tx.tx.flush().is_ok());
    let _ = tx.tx.write(&[0u8; 20]);
}

#[test]
fn mac_split_gives_two_halves_that_outlive_each_other() {
    let device = match open() {
        Some(device) => device,
        None => return,
    };
    let (mut tx, rx) = Mactun::new(device).split();
    assert!(tx.tx.flush().is_ok());
    drop(tx);
    drop(rx);
}

#[test]
fn wrap_puts_the_writer_in_the_send_half() {
    let first = match open() {
        Some(device) => device,
        None => return,
    };
    let (reader, writer) = first.split();
    let (mut tx, rx) = Linuxtun::wrap((reader, writer));
    assert!(tx.tx.flush().is_ok());
    drop(rx);
    let second = match open() {
        Some(device) => device,
        None => return,
    };
    let (mut tx, rx) = Mactun::wrap(second.split());
    assert!(tx.tx.flush().is_ok());
    drop(rx);
}
