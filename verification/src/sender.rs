//! The state of the connection to the server: whether it is usable, where
//! it leads, and when it was last probed. The stream itself is driven by the
//! caller, who reports how each write, probe and connection attempt ended.

use vstd::prelude::*;
use crate::error::{write_error, ComsError, ComsErrorView};
use crate::model::age;
use crate::transport::WriteOutcome;

verus! {

/// Time, in milliseconds, between two probes of the connection.
pub const HEARTBEAT_INTERVAL: u64 = 5000;

/// What is known of the connection to the server.
#[derive(Debug)]
pub struct ServerSender {
    connected: bool,
    last_probe: u64,
    address: String,
}

/// Mathematical value of a [`ServerSender`].
pub struct SenderView {
    /// Whether the stream was usable when last looked at.
    pub connected: bool,
    /// The time of the last probe.
    pub last_probe: u64,
    /// The address that the last successful connection attempt led to.
    pub address: Seq<char>,
}

impl SenderView {
    /// Before any connection attempt.
    pub open spec fn initial() -> SenderView {
        SenderView { connected: false, last_probe: 0, address: Seq::empty() }
    }

    /// Whether the connection is to be probed at `now`: a full interval has
    /// passed since the last probe.
    pub open spec fn probe_due(self, now: u64) -> bool {
        age(self.last_probe, now) >= HEARTBEAT_INTERVAL
    }

    /// The state after an attempt to connect to `address`: success makes
    /// the connection usable and remembers the address; failure leaves
    /// everything as it was.
    pub open spec fn after_connect(self, address: Seq<char>, established: bool) -> SenderView {
        if established {
            SenderView { connected: true, address, ..self }
        } else {
            self
        }
    }

    /// The state after a write: a failed write loses the connection.
    pub open spec fn after_write(self, outcome: WriteOutcome) -> SenderView {
        match outcome {
            WriteOutcome::Failed => SenderView { connected: false, ..self },
            _ => self,
        }
    }

    /// The state after the heartbeat at `now`. Where no probe is due,
    /// nothing changes. Where one is, the interval starts anew, and the
    /// probe's answer, if there was a stream to probe, says whether the
    /// connection is usable.
    pub open spec fn after_heartbeat(self, now: u64, reachable: Option<bool>) -> SenderView {
        if self.probe_due(now) {
            SenderView {
                connected: match reachable {
                    Some(answer) => answer,
                    None => self.connected,
                },
                last_probe: now,
                ..self
            }
        } else {
            self
        }
    }

    /// Whether the heartbeat at `now` asks for a new connection attempt: a
    /// probe was due and has left the connection unusable.
    pub open spec fn wants_reconnect(self, now: u64, reachable: Option<bool>) -> bool {
        self.probe_due(now) && !self.after_heartbeat(now, reachable).connected
    }
}

impl View for ServerSender {
    type V = SenderView;

    closed spec fn view(&self) -> SenderView {
        SenderView {
            connected: self.connected,
            last_probe: self.last_probe,
            address: self.address@,
        }
    }
}

impl ServerSender {
    /// The state before any connection attempt.
    pub fn new() -> (sender: ServerSender)
        ensures
            sender@ == SenderView::initial(),
    {
        ServerSender { connected: false, last_probe: 0, address: String::new() }
    }

    /// Whether the stream was usable when last looked at.
    pub fn connected(&self) -> (connected: bool)
        ensures
            connected == self@.connected,
    {
        self.connected
    }

    /// The address that the last successful connection attempt led to.
    pub fn server_ip(&self) -> (address: &String)
        ensures
            address@ == self@.address,
    {
        &self.address
    }

    /// Whether the connection is to be probed at `now`.
    pub fn probe_due(&self, now: u64) -> (due: bool)
        ensures
            due == self@.probe_due(now),
    {
        if now >= self.last_probe {
            now - self.last_probe >= HEARTBEAT_INTERVAL
        } else {
            false
        }
    }

    /// Records an attempt to connect to `ip`; fails if the attempt did, and
    /// then changes nothing.
    pub fn try_connect(&mut self, ip: String, established: bool) -> (result: Result<
        (),
        ComsError,
    >)
        ensures
            final(self)@ == old(self)@.after_connect(ip@, established),
            match result {
                Ok(_) => established,
                Err(error) => !established && error@ == ComsErrorView::Connection,
            },
    {
        if established {
            self.address = ip;
            self.connected = true;
            Ok(())
        } else {
            Err(ComsError::Connection)
        }
    }

    /// Records how a write ended; fails unless the frame reached the wire.
    pub fn send(&mut self, outcome: WriteOutcome) -> (result: Result<(), ComsError>)
        ensures
            final(self)@ == old(self)@.after_write(outcome),
            match result {
                Ok(_) => write_error(outcome).is_none(),
                Err(error) => write_error(outcome) == Some(error@),
            },
    {
        match outcome {
            WriteOutcome::Written => Ok(()),
            WriteOutcome::Failed => {
                self.connected = false;
                Err(ComsError::Send)
            },
            WriteOutcome::NoConnection => Err(ComsError::NotConnected),
        }
    }

    /// The heartbeat at `now`, with the answer of the probe of the stream's
    /// peer address where there is a stream. Says whether a new connection
    /// is to be attempted.
    pub fn heartbeat(&mut self, now: u64, reachable: Option<bool>) -> (reconnect: bool)
        ensures
            final(self)@ == old(self)@.after_heartbeat(now, reachable),
            reconnect == old(self)@.wants_reconnect(now, reachable),
    {
        if self.probe_due(now) {
            self.last_probe = now;
            match reachable {
                Some(answer) => {
                    self.connected = answer;
                },
                None => {},
            }
            !self.connected
        } else {
            false
        }
    }
}

impl Default for ServerSender {
    fn default() -> (sender: ServerSender)
        ensures
            sender@ == SenderView::initial(),
    {
        ServerSender::new()
    }
}

impl Clone for ServerSender {
    fn clone(&self) -> (copy: ServerSender)
        ensures
            copy@ == self@,
    {
        ServerSender {
            connected: self.connected,
            last_probe: self.last_probe,
            address: self.address.clone(),
        }
    }
}

} // verus!
