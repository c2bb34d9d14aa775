//! The keep-alive job of a connection: a heartbeat that is written at a
//! fixed interval for as long as the connection that started it stands.
//!
//! The job itself runs in the driver. On every tick it asks whether it may
//! still write, and names the connection it was started for by its epoch. A
//! job that was stopped, that failed, or that belongs to an earlier
//! connection is told to end.

use vstd::prelude::*;
use crate::protocol::Heartbeat;

verus! {

/// How the job of the current connection is doing.
#[derive(Clone, Copy, Debug, PartialEq, Eq, Structural)]
pub enum KeepAliveStatus {
    /// No job is running.
    Idle,
    /// The job is ticking.
    Running,
    /// A heartbeat could not be written. The job has ended and the
    /// connection is degraded.
    Failed,
}

/// The keep-alive state of one device.
#[derive(Clone, Copy, Debug, PartialEq, Eq, Structural)]
pub struct KeepAlive {
    /// Seconds between two heartbeats.
    pub interval_secs: u64,
    /// Counts the jobs started so far; the latest job carries this number.
    pub epoch: u64,
    pub status: KeepAliveStatus,
}

impl KeepAlive {
    /// The keep-alive of a device that never ran a job.
    pub open spec fn new_spec(interval_secs: u64) -> KeepAlive {
        KeepAlive { interval_secs, epoch: 0, status: KeepAliveStatus::Idle }
    }

    /// The state after a job was started, and what the driver needs to run it.
    pub open spec fn run_spec(self) -> (KeepAlive, Heartbeat) {
        let epoch = if self.epoch == u64::MAX {
            0
        } else {
            (self.epoch + 1) as u64
        };
        (
            KeepAlive { epoch, status: KeepAliveStatus::Running, ..self },
            Heartbeat { epoch, interval_secs: self.interval_secs },
        )
    }

    /// The state after the job was stopped.
    pub open spec fn stop_spec(self) -> KeepAlive {
        KeepAlive { status: KeepAliveStatus::Idle, ..self }
    }

    /// Whether the job started with `epoch` may write a heartbeat.
    pub open spec fn may_write(self, epoch: u64) -> bool {
        self.status is Running && epoch == self.epoch
    }

    /// The state after the job started with `epoch` reported a failed write.
    pub open spec fn write_failed_spec(self, epoch: u64) -> KeepAlive {
        if self.may_write(epoch) {
            KeepAlive { status: KeepAliveStatus::Failed, ..self }
        } else {
            self
        }
    }

    /// A keep-alive that beats every `interval_secs` seconds once it runs.
    pub fn new(interval_secs: u64) -> (keep_alive: KeepAlive)
        ensures
            keep_alive == KeepAlive::new_spec(interval_secs),
    {
        KeepAlive { interval_secs, epoch: 0, status: KeepAliveStatus::Idle }
    }

    /// Starts the job of a new connection. Any job started before is stale
    /// from now on.
    pub fn run(&mut self) -> (heartbeat: Heartbeat)
        ensures
            (*final(self), heartbeat) == old(self).run_spec(),
    {
        self.epoch = self.epoch.wrapping_add(1);
        self.status = KeepAliveStatus::Running;
        Heartbeat { epoch: self.epoch, interval_secs: self.interval_secs }
    }

    /// Stops the job.
    pub fn stop(&mut self)
        ensures
            *final(self) == old(self).stop_spec(),
    {
        self.status = KeepAliveStatus::Idle;
    }

    /// One tick of the job started with `epoch`: whether it writes a
    /// heartbeat now. A job that is told not to write ends.
    pub fn tick(&self, epoch: u64) -> (write: bool)
        ensures
            write == self.may_write(epoch),
    {
        match self.status {
            KeepAliveStatus::Running => epoch == self.epoch,
            _ => false,
        }
    }

    /// Takes note that the job started with `epoch` could not write its
    /// heartbeat. If that job is the running one it has failed; a report
    /// from any other job changes nothing.
    pub fn write_failed(&mut self, epoch: u64)
        ensures
            *final(self) == old(self).write_failed_spec(epoch),
    {
        if self.tick(epoch) {
            self.status = KeepAliveStatus::Failed;
        }
    }

    /// Whether a job is ticking.
    pub fn is_running(&self) -> (running: bool)
        ensures
            running == (self.status is Running),
    {
        match self.status {
            KeepAliveStatus::Running => true,
            _ => false,
        }
    }

    /// Whether the job ended on a failed write.
    pub fn is_degraded(&self) -> (degraded: bool)
        ensures
            degraded == (self.status is Failed),
    {
        match self.status {
            KeepAliveStatus::Failed => true,
            _ => false,
        }
    }
}

/// Once the job is stopped no tick writes, whichever job it comes from.
pub proof fn lemma_stopped_job_is_silent(keep_alive: KeepAlive, epoch: u64)
    ensures
        !keep_alive.stop_spec().may_write(epoch),
{
}

/// A failed write ends the job: the job that reported it does not write again.
pub proof fn lemma_failed_job_is_silent(keep_alive: KeepAlive, failed: u64, epoch: u64)
    requires
        keep_alive.may_write(failed),
    ensures
        !keep_alive.write_failed_spec(failed).may_write(epoch),
        keep_alive.write_failed_spec(failed).status is Failed,
{
}

/// At most one job writes: starting a job makes the one before it stale,
/// and of all epochs only that of the new job may write.
pub proof fn lemma_one_live_job(keep_alive: KeepAlive, epoch: u64)
    ensures
        ({
            let (started, heartbeat) = keep_alive.run_spec();
            &&& !started.may_write(keep_alive.epoch)
            &&& started.may_write(epoch) <==> epoch == heartbeat.epoch
        }),
{
}

} // verus!
