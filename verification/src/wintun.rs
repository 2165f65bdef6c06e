//! The single-session backend: the fixed sequence that brings an adapter up,
//! and the split of its one session into a send half and a receive half.

use crate::error::{ErrorView, TunError};
use crate::netmask::{get_netmask_bit_count, prefix_length};
use crate::proto::MTU;
use std::sync::Arc;
use vstd::prelude::*;

verus! {

/// The name under which the adapter is opened or created.
pub const ADAPTER_NAME: &'static str = "Wintun";

/// The tunnel-type tag given to a newly created adapter.
pub const TUNNEL_TYPE: &'static str = "proxy";

/// The identifier given to a newly created adapter.
pub const ADAPTER_GUID: &'static str = "{248B1B2B-94FA-0E20-150F-5C2D2FB4FBF9}";

/// The size in bytes of the session's internal ring buffer.
pub const ADAPTER_BUFF_SIZE: u32 = 1048576;

/// How long to let a driver installation settle before an adapter is
/// created, in milliseconds.
pub const SETTLE_MILLIS: u64 = 100;

/// The text of the error reported when the command that sets the MTU ends
/// with a non-zero status.
pub const MTU_FAILURE: &'static str = "Failed to set tun mtu";

/// How far bring-up has come. Each phase but the first and the last two
/// names the attempt whose outcome is awaited.
#[derive(Clone, Copy, Debug, PartialEq, Eq, Structural)]
pub enum Phase {
    /// Nothing has been attempted.
    Absent,
    /// Opening the existing adapter is in flight.
    OpenAttempted,
    /// The open failed; creating a new adapter is in flight.
    CreateAttempted,
    /// An adapter is held; assigning its address is in flight.
    Open,
    /// The address is assigned; setting the MTU is in flight.
    ConfiguredIp,
    /// The MTU is set; starting the session is in flight.
    ConfiguredMtu,
    /// The session runs: the device is ready to be split.
    SessionStarted,
    /// An attempt other than the open failed; nothing more is attempted.
    Failed,
}

/// What the caller is to do next on the machine's behalf.
#[derive(Clone, Debug, PartialEq, Eq)]
pub enum Action {
    /// Open the existing adapter by its name.
    OpenAdapter,
    /// Wait `settle_millis`, then create an adapter with the name, tunnel
    /// type and identifier.
    CreateAdapter { settle_millis: u64 },
    /// Assign the address with the given prefix length to the adapter.
    AssignAddress { address: [u8; 4], prefix: u8 },
    /// Set the adapter's MTU persistently.
    SetMtu { mtu: usize },
    /// Start a session with a ring buffer of `capacity` bytes.
    StartSession { capacity: u32 },
    /// Nothing is left to do: the session runs.
    Ready,
    /// Give up and report the error.
    Abort(TunError),
}

/// An `Action` over mathematical values.
pub enum ActionView {
    OpenAdapter,
    CreateAdapter { settle_millis: u64 },
    AssignAddress { address: Seq<u8>, prefix: u8 },
    SetMtu { mtu: usize },
    StartSession { capacity: u32 },
    Ready,
    Abort(ErrorView),
}

impl View for Action {
    type V = ActionView;

    open spec fn view(&self) -> ActionView {
        match *self {
            Action::OpenAdapter => ActionView::OpenAdapter,
            Action::CreateAdapter { settle_millis } => ActionView::CreateAdapter { settle_millis },
            Action::AssignAddress { address, prefix } => ActionView::AssignAddress {
                address: address@,
                prefix,
            },
            Action::SetMtu { mtu } => ActionView::SetMtu { mtu },
            Action::StartSession { capacity } => ActionView::StartSession { capacity },
            Action::Ready => ActionView::Ready,
            Action::Abort(error) => ActionView::Abort(error@),
        }
    }
}

/// The state of a bring-up over mathematical values.
pub struct WintunView {
    pub address: Seq<u8>,
    pub netmask_count: u8,
    pub phase: Phase,
    pub failure: Option<ErrorView>,
}

/// The failure that a report carries, if any.
pub open spec fn failure_of(report: Result<(), TunError>) -> Option<ErrorView> {
    match report {
        Ok(_) => None,
        Err(error) => Some(error@),
    }
}

/// The phase that follows `phase` when the attempt in flight succeeded
/// (`ok`) or failed. Only a failed open falls through to another attempt;
/// the first phase starts whatever is reported, and the last two stay.
pub open spec fn next_phase(phase: Phase, ok: bool) -> Phase {
    match phase {
        Phase::Absent => Phase::OpenAttempted,
        Phase::OpenAttempted => if ok {
            Phase::Open
        } else {
            Phase::CreateAttempted
        },
        Phase::CreateAttempted => if ok {
            Phase::Open
        } else {
            Phase::Failed
        },
        Phase::Open => if ok {
            Phase::ConfiguredIp
        } else {
            Phase::Failed
        },
        Phase::ConfiguredIp => if ok {
            Phase::ConfiguredMtu
        } else {
            Phase::Failed
        },
        Phase::ConfiguredMtu => if ok {
            Phase::SessionStarted
        } else {
            Phase::Failed
        },
        Phase::SessionStarted => Phase::SessionStarted,
        Phase::Failed => Phase::Failed,
    }
}

/// The action issued on entering a state: the attempt that its phase names,
/// or the end of the sequence. `Absent` is never entered and stands with the
/// states that call for nothing.
pub open spec fn pending_action(w: WintunView) -> ActionView {
    match w.phase {
        Phase::Absent => ActionView::Ready,
        Phase::OpenAttempted => ActionView::OpenAdapter,
        Phase::CreateAttempted => ActionView::CreateAdapter { settle_millis: SETTLE_MILLIS },
        Phase::Open => ActionView::AssignAddress { address: w.address, prefix: w.netmask_count },
        Phase::ConfiguredIp => ActionView::SetMtu { mtu: MTU },
        Phase::ConfiguredMtu => ActionView::StartSession { capacity: ADAPTER_BUFF_SIZE },
        Phase::SessionStarted => ActionView::Ready,
        Phase::Failed => ActionView::Abort(w.failure->0),
    }
}

/// The state after `report` arrived in state `w`. The failure is recorded
/// when the machine enters `Failed`, and kept from then on.
pub open spec fn spec_step(w: WintunView, failure: Option<ErrorView>) -> WintunView {
    let phase = next_phase(w.phase, failure is None);
    WintunView {
        address: w.address,
        netmask_count: w.netmask_count,
        phase,
        failure: if w.phase != Phase::Failed && phase == Phase::Failed {
            failure
        } else {
            w.failure
        },
    }
}

/// A state that the machine can be in: the prefix length is one of a mask,
/// and a failure is on record exactly in phase `Failed`.
pub open spec fn valid(w: WintunView) -> bool {
    &&& w.address.len() == 4
    &&& w.netmask_count <= 32
    &&& (w.phase == Phase::Failed <==> w.failure is Some)
}

/// A device of the single-session backend on its way up.
pub struct Wintun {
    address: [u8; 4],
    netmask_count: u8,
    phase: Phase,
    failure: Option<TunError>,
}

impl View for Wintun {
    type V = WintunView;

    closed spec fn view(&self) -> WintunView {
        WintunView {
            address: self.address@,
            netmask_count: self.netmask_count,
            phase: self.phase,
            failure: match self.failure {
                Some(error) => Some(error@),
                None => None,
            },
        }
    }
}

impl Wintun {
    #[verifier::type_invariant]
    spec fn well_formed(self) -> bool {
        valid(self@)
    }

    /// A device for `address` under `netmask` of which nothing has been
    /// attempted yet. The prefix length that will be assigned is the mask's
    /// count of leading one-bits.
    pub fn create(address: [u8; 4], netmask: [u8; 4]) -> (wintun: Wintun)
        ensures
            wintun@.address == address@,
            wintun@.netmask_count == prefix_length(netmask@),
            wintun@.phase == Phase::Absent,
            wintun@.failure is None,
            valid(wintun@),
    {
        let netmask_count = get_netmask_bit_count(netmask);
        Wintun { address, netmask_count, phase: Phase::Absent, failure: None }
    }

    /// Takes the outcome of the attempt in flight and says what to do next.
    ///
    /// A failed open leads to one attempt to create the adapter; any other
    /// failure ends the sequence with that error. In `Absent` no attempt is
    /// in flight: the report is not looked at and the open is attempted.
    pub fn step(&mut self, report: Result<(), TunError>) -> (action: Action)
        ensures
            final(self)@ == spec_step(old(self)@, failure_of(report)),
            action@ == pending_action(final(self)@),
            valid(final(self)@),
    {
        proof {
            use_type_invariant(&*self);
        }
        match self.phase {
            Phase::Absent => {
                self.phase = Phase::OpenAttempted;
                Action::OpenAdapter
            },
            Phase::SessionStarted => Action::Ready,
            Phase::Failed => match &self.failure {
                Some(error) => Action::Abort(error.duplicate()),
                None => Action::Ready,
            },
            Phase::OpenAttempted => match report {
                Ok(_) => {
                    self.phase = Phase::Open;
                    Action::AssignAddress { address: self.address, prefix: self.netmask_count }
                },
                Err(_) => {
                    self.phase = Phase::CreateAttempted;
                    Action::CreateAdapter { settle_millis: SETTLE_MILLIS }
                },
            },
            Phase::CreateAttempted => match report {
                Ok(_) => {
                    self.phase = Phase::Open;
                    Action::AssignAddress { address: self.address, prefix: self.netmask_count }
                },
                Err(error) => self.fail(error),
            },
            Phase::Open => match report {
                Ok(_) => {
                    self.phase = Phase::ConfiguredIp;
                    Action::SetMtu { mtu: MTU }
                },
                Err(error) => self.fail(error),
            },
            Phase::ConfiguredIp => match report {
                Ok(_) => {
                    self.phase = Phase::ConfiguredMtu;
                    Action::StartSession { capacity: ADAPTER_BUFF_SIZE }
                },
                Err(error) => self.fail(error),
            },
            Phase::ConfiguredMtu => match report {
                Ok(_) => {
                    self.phase = Phase::SessionStarted;
                    Action::Ready
                },
                Err(error) => self.fail(error),
            },
        }
    }

    fn fail(&mut self, error: TunError) -> (action: Action)
        requires
            old(self)@.phase != Phase::Failed,
        ensures
            final(self)@ == (WintunView {
                phase: Phase::Failed,
                failure: Some(error@),
                ..old(self)@
            }),
            action@ == ActionView::Abort(error@),
    {
        proof {
            use_type_invariant(&*self);
        }
        let action = Action::Abort(error.duplicate());
        *self = Wintun {
            address: self.address,
            netmask_count: self.netmask_count,
            phase: Phase::Failed,
            failure: Some(error),
        };
        action
    }

    /// How far bring-up has come.
    pub fn phase(&self) -> (phase: Phase)
        ensures
            phase == self@.phase,
    {
        self.phase
    }

    /// The address that is assigned to the adapter.
    pub fn address(&self) -> (address: [u8; 4])
        ensures
            address@ == self@.address,
    {
        self.address
    }

    /// The prefix length that is assigned with the address.
    pub fn netmask_count(&self) -> (count: u8)
        ensures
            count == self@.netmask_count,
            count <= 32,
    {
        proof {
            use_type_invariant(self);
        }
        self.netmask_count
    }

    /// The error that ended bring-up, if it has failed.
    pub fn failure(&self) -> (failure: Option<TunError>)
        ensures
            failure is Some <==> self@.phase == Phase::Failed,
            failure matches Some(error) ==> self@.failure == Some(error@),
    {
        proof {
            use_type_invariant(self);
        }
        match &self.failure {
            Some(error) => Some(error.duplicate()),
            None => None,
        }
    }

    /// Splits a device whose session runs into a send half and a receive
    /// half that share `session`; the session lives until both halves are
    /// gone. A device in any other phase is not split: it gives the session
    /// back.
    pub fn split<S>(self, session: S) -> (halves: Result<(WintunTx<S>, WintunRx<S>), S>)
        ensures
            match halves {
                Ok((tx, rx)) => self@.phase == Phase::SessionStarted && tx@ == session && rx@
                    == session,
                Err(returned) => self@.phase != Phase::SessionStarted && returned == session,
            },
    {
        match self.phase {
            Phase::SessionStarted => {
                let wintun = Arc::new(session);
                let wintun_tx = WintunTx { wintun: wintun.clone() };
                let wintun_rx = WintunRx { wintun };
                Ok((wintun_tx, wintun_rx))
            },
            _ => Err(session),
        }
    }
}

/// The send half of a split device.
pub struct WintunTx<S> {
    wintun: Arc<S>,
}

/// The receive half of a split device.
pub struct WintunRx<S> {
    wintun: Arc<S>,
}

impl<S> View for WintunTx<S> {
    type V = S;

    closed spec fn view(&self) -> S {
        *self.wintun
    }
}

impl<S> View for WintunRx<S> {
    type V = S;

    closed spec fn view(&self) -> S {
        *self.wintun
    }
}

impl<S> WintunTx<S> {
    /// The session that this half sends on.
    pub fn session(&self) -> (session: &S)
        ensures
            *session == self@,
    {
        &*self.wintun
    }
}

impl<S> WintunRx<S> {
    /// The session that this half receives from.
    pub fn session(&self) -> (session: &S)
        ensures
            *session == self@,
    {
        &*self.wintun
    }
}

/// What the driver says of one read: a packet of that many bytes was put in
/// the buffer, or the pending packet needs that many and the buffer is
/// smaller.
#[derive(Clone, Copy, Debug, PartialEq, Eq)]
pub enum ReadResult {
    Success(usize),
    NotEnoughSize(usize),
}

/// The number of bytes received, from what the driver said of the read. A
/// buffer too small for the pending packet counts as a read of no bytes, not
/// as an error; the driver's own errors pass through.
pub fn recv_result(read: Result<ReadResult, TunError>) -> (received: Result<usize, TunError>)
    ensures
        match read {
            Ok(ReadResult::Success(len)) => received == Ok::<usize, TunError>(len),
            Ok(ReadResult::NotEnoughSize(_)) => received == Ok::<usize, TunError>(0),
            Err(error) => received == Err::<usize, TunError>(error),
        },
{
    match read {
        Ok(ReadResult::Success(len)) => Ok(len),
        Ok(ReadResult::NotEnoughSize(_)) => Ok(0),
        Err(error) => Err(error),
    }
}

/// The report on the command that sets the MTU, from how it ended: `Ok` of
/// whether its exit status was zero, or the error that kept it from running.
/// A non-zero status is the fixed error `MTU_FAILURE`.
pub fn mtu_command_report(ended: Result<bool, TunError>) -> (report: Result<(), TunError>)
    ensures
        match ended {
            Ok(true) => report is Ok,
            Ok(false) => failure_of(report) == Some(ErrorView::Other(MTU_FAILURE@)),
            Err(error) => report == Err::<(), TunError>(error),
        },
{
    match ended {
        Ok(true) => Ok(()),
        Ok(false) => Err(TunError::Other(MTU_FAILURE.to_owned())),
        Err(error) => Err(error),
    }
}

} // verus!
