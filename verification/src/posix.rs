//! The backends whose driver hands out a read half and a write half of its
//! own: Linux and macOS.

use crate::error::TunError;
use tun::platform::posix::{Reader, Writer};
use tun::platform::Device;
use vstd::prelude::*;

verus! {

/// The `tun` crate's handle on an open, configured interface. Nothing of
/// what it holds is visible here.
#[verifier::external_type_specification]
#[verifier::external_body]
pub struct ExDevice(Device);

/// The `tun` crate's read half of a descriptor. Nothing of what it holds is
/// visible here.
#[verifier::external_type_specification]
#[verifier::external_body]
pub struct ExReader(Reader);

/// The `tun` crate's write half of a descriptor. Nothing of what it holds is
/// visible here.
#[verifier::external_type_specification]
#[verifier::external_body]
pub struct ExWriter(Writer);

/// The reader and the writer that the `tun` crate's `Device::split` makes of
/// a device: the two ends of the descriptor of its first queue.
pub uninterp spec fn split_halves(fd: Device) -> (Reader, Writer);

/// `Device::split` of the `tun` crate: gives up the device for a reader and a
/// writer that share the descriptor of its first queue, which is closed when
/// both are gone. The crate opens no device with fewer than one queue, so the
/// call returns for every device. The two values depend on the device alone;
/// all that is claimed is that they are `split_halves` of it.
#[verifier::external_body]
fn device_split(fd: Device) -> (halves: (Reader, Writer))
    ensures
        halves == split_halves(fd),
{
    fd.split()
}

/// A configured Linux device that has not been split.
pub struct Linuxtun {
    fd: Device,
}

/// The send half of a Linux device.
pub struct LinuxtunTx {
    pub tx: Writer,
}

/// The receive half of a Linux device.
pub struct LinuxtunRx {
    pub rx: Reader,
}

impl Linuxtun {
    /// The device that the driver opened and configured.
    pub closed spec fn device(self) -> Device {
        self.fd
    }

    /// Takes charge of a device that the driver opened and configured.
    pub fn new(fd: Device) -> (linuxtun: Linuxtun)
        ensures
            linuxtun.device() == fd,
    {
        Linuxtun { fd }
    }

    /// Consumes the device and wraps the driver's two halves: the send half
    /// holds the writer that the driver split off this device, the receive
    /// half the reader.
    pub fn split(self) -> (halves: (LinuxtunTx, LinuxtunRx))
        ensures
            halves.0.tx == split_halves(self.device()).1,
            halves.1.rx == split_halves(self.device()).0,
    {
        Linuxtun::wrap(device_split(self.fd))
    }

    /// Wraps a reader and a writer, as the driver hands them out, in the
    /// receive half and the send half.
    pub fn wrap(driver_halves: (Reader, Writer)) -> (halves: (LinuxtunTx, LinuxtunRx))
        ensures
            halves.0.tx == driver_halves.1,
            halves.1.rx == driver_halves.0,
    {
        let (rx, tx) = driver_halves;
        (LinuxtunTx { tx }, LinuxtunRx { rx })
    }
}

/// A configured macOS device that has not been split.
pub struct Mactun {
    fd: Device,
}

/// The send half of a macOS device.
pub struct MactunTx {
    pub tx: Writer,
}

/// The receive half of a macOS device.
pub struct MactunRx {
    pub rx: Reader,
}

impl Mactun {
    /// The device that the driver opened and configured.
    pub closed spec fn device(self) -> Device {
        self.fd
    }

    /// Takes charge of a device that the driver opened and configured.
    pub fn new(fd: Device) -> (mactun: Mactun)
        ensures
            mactun.device() == fd,
    {
        Mactun { fd }
    }

    /// Consumes the device and wraps the driver's two halves: the send half
    /// holds the writer that the driver split off this device, the receive
    /// half the reader.
    pub fn split(self) -> (halves: (MactunTx, MactunRx))
        ensures
            halves.0.tx == split_halves(self.device()).1,
            halves.1.rx == split_halves(self.device()).0,
    {
        Mactun::wrap(device_split(self.fd))
    }

    /// Wraps a reader and a writer, as the driver hands them out, in the
    /// receive half and the send half.
    pub fn wrap(driver_halves: (Reader, Writer)) -> (halves: (MactunTx, MactunRx))
        ensures
            halves.0.tx == driver_halves.1,
            halves.1.rx == driver_halves.0,
    {
        let (rx, tx) = driver_halves;
        (MactunTx { tx }, MactunRx { rx })
    }
}

/// The result of sending a packet, from what the write on the descriptor
/// returned: the number of bytes written is dropped, an error passes
/// through.
pub fn send_result(written: Result<usize, TunError>) -> (sent: Result<(), TunError>)
    ensures
        match written {
            Ok(_) => sent is Ok,
            Err(error) => sent == Err::<(), TunError>(error),
        },
{
    match written {
        Ok(_) => Ok(()),
        Err(error) => Err(error),
    }
}

} // verus!
