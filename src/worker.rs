use vstd::prelude::*;

use crate::materialize::{outcome_of, Action, Event, Materializer, Phase};
use crate::status::{done_status, status_of, DownloadDoneStatus};
use crate::target::DownloadTarget;

verus! {

/// The sending end of an `async_channel` channel, carried through unopened.
#[verifier::external_type_specification]
#[verifier::external_body]
#[verifier::reject_recursive_types(T)]
pub struct ExSender<T>(async_channel::Sender<T>);

/// One request: a target, and the channel its status goes back on.
pub struct DownloadTargetMessage {
    pub download_target: DownloadTarget,
    pub tx: async_channel::Sender<DownloadDoneStatus>,
}

/// What the caller hands a worker after doing what it asked.
pub enum WorkerEvent {
    /// A message came off the queue.
    Received(DownloadTargetMessage),
    /// The queue is closed: no message will come.
    ReceiveClosed,
    /// The report on the last materialization action.
    Step(Event),
    /// The status went out on the reply channel.
    ReplySent,
}

/// What a worker asks the caller to do next.
pub enum WorkerAction {
    /// Wait for the next message on the queue.
    Receive,
    /// Perform one step of the current materialization.
    Perform(Action),
    /// Send `status` on `tx`, the reply channel of the message just handled.
    Reply { tx: async_channel::Sender<DownloadDoneStatus>, status: DownloadDoneStatus },
    /// End this worker's loop.
    Stop,
}

/// A worker of the pool: it takes one message at a time off the queue,
/// materializes its target, and replies on the message's own channel.
pub struct Worker {
    id: usize,
    uid: u32,
    stopped: bool,
    job: Option<(Materializer, async_channel::Sender<DownloadDoneStatus>)>,
    received: Ghost<nat>,
    replied: Ghost<nat>,
}

impl Worker {
    pub closed spec fn id_spec(&self) -> usize {
        self.id
    }

    pub closed spec fn uid_spec(&self) -> u32 {
        self.uid
    }

    pub closed spec fn is_stopped(&self) -> bool {
        self.stopped
    }

    /// Whether a message is being handled.
    pub closed spec fn is_busy(&self) -> bool {
        self.job.is_some()
    }

    /// The materialization under way, while busy.
    pub closed spec fn current(&self) -> Materializer {
        self.job.unwrap().0
    }

    /// The reply channel of the message under way, while busy.
    pub closed spec fn reply_to(&self) -> async_channel::Sender<DownloadDoneStatus> {
        self.job.unwrap().1
    }

    /// How many messages this worker has taken off the queue.
    pub closed spec fn received(&self) -> nat {
        self.received@
    }

    /// How many replies this worker has asked to send.
    pub closed spec fn replied(&self) -> nat {
        self.replied@
    }

    pub open spec fn inv(&self) -> bool {
        &&& self.received() == self.replied() + if self.is_busy() {
            1nat
        } else {
            0nat
        }
        &&& self.is_busy() ==> self.current().inv() && outcome_of(
            self.current().phase_spec(),
        ).is_none()
        &&& self.is_stopped() ==> !self.is_busy()
    }

    /// A worker with identifier `id` that hands created entries to `uid`.
    pub fn new(id: usize, uid: u32) -> (w: Worker)
        ensures
            w.id_spec() == id,
            w.uid_spec() == uid,
            !w.is_stopped(),
            !w.is_busy(),
            w.received() == 0,
            w.replied() == 0,
            w.inv(),
    {
        Worker { id, uid, stopped: false, job: None, received: Ghost(0), replied: Ghost(0) }
    }

    pub fn id(&self) -> (r: usize)
        ensures
            r == self.id_spec(),
    {
        self.id
    }

    /// Takes the report on the last action and says what to do next.
    pub fn step(&mut self, event: WorkerEvent) -> (a: WorkerAction)
        requires
            old(self).inv(),
        ensures
            final(self).inv(),
            final(self).id_spec() == old(self).id_spec(),
            final(self).uid_spec() == old(self).uid_spec(),
            old(self).is_stopped() ==> final(self).is_stopped() && a is Stop,
            !old(self).is_stopped() ==> match event {
                WorkerEvent::Received(msg) => if old(self).is_busy() {
                    *final(self) == *old(self) && a is Perform
                } else {
                    &&& final(self).received() == old(self).received() + 1
                    &&& final(self).replied() == old(self).replied()
                    &&& final(self).is_busy()
                    &&& final(self).reply_to() == msg.tx
                    &&& final(self).current().target_spec() == msg.download_target
                    &&& final(self).current().job().uid == old(self).uid_spec()
                    &&& final(self).current().phase_spec() == Phase::CheckExists
                    &&& a matches WorkerAction::Perform(act) && act@
                        == final(self).current().job().action(Phase::CheckExists)
                },
                WorkerEvent::ReceiveClosed => if old(self).is_busy() {
                    *final(self) == *old(self) && a is Perform
                } else {
                    final(self).is_stopped() && a is Stop
                },
                WorkerEvent::Step(e) => if old(self).is_busy() {
                    let m = old(self).current();
                    let p = m.job().next(m.phase_spec(), e);
                    &&& final(self).received() == old(self).received()
                    &&& !final(self).is_stopped()
                    &&& match outcome_of(p) {
                        Some(res) => {
                            &&& !final(self).is_busy()
                            &&& final(self).replied() == old(self).replied() + 1
                            &&& a == WorkerAction::Reply {
                                tx: old(self).reply_to(),
                                status: status_of(res),
                            }
                        },
                        None => {
                            &&& final(self).is_busy()
                            &&& final(self).replied() == old(self).replied()
                            &&& final(self).reply_to() == old(self).reply_to()
                            &&& final(self).current().target_spec() == m.target_spec()
                            &&& final(self).current().job() == m.job()
                            &&& final(self).current().phase_spec() == p
                            &&& a matches WorkerAction::Perform(act) && act@ == m.job().action(p)
                        },
                    }
                } else {
                    *final(self) == *old(self) && a is Receive
                },
                WorkerEvent::ReplySent => if old(self).is_busy() {
                    *final(self) == *old(self) && a is Perform
                } else {
                    *final(self) == *old(self) && a is Receive
                },
            },
    {
        if self.stopped {
            return WorkerAction::Stop;
        }
        match event {
            WorkerEvent::Received(msg) => {
                if self.job.is_some() {
                    return self.current_action();
                }
                let m = Materializer::new(msg.download_target, self.uid);
                let act = m.action();
                self.job = Some((m, msg.tx));
                self.received = Ghost(self.received@ + 1);
                WorkerAction::Perform(act)
            },
            WorkerEvent::ReceiveClosed => {
                if self.job.is_some() {
                    return self.current_action();
                }
                self.stopped = true;
                WorkerAction::Stop
            },
            WorkerEvent::Step(e) => {
                let job = self.job.take();
                match job {
                    None => WorkerAction::Receive,
                    Some((mut m, tx)) => {
                        m.step(e);
                        match m.outcome() {
                            Some(res) => {
                                self.replied = Ghost(self.replied@ + 1);
                                WorkerAction::Reply { tx, status: done_status(&res) }
                            },
                            None => {
                                let act = m.action();
                                self.job = Some((m, tx));
                                WorkerAction::Perform(act)
                            },
                        }
                    },
                }
            },
            WorkerEvent::ReplySent => {
                if self.job.is_some() {
                    return self.current_action();
                }
                WorkerAction::Receive
            },
        }
    }

    fn current_action(&self) -> (a: WorkerAction)
        requires
            self.inv(),
            self.is_busy(),
        ensures
            a matches WorkerAction::Perform(act) && act@ == self.current().job().action(
                self.current().phase_spec(),
            ),
    {
        match &self.job {
            Some((m, _)) => WorkerAction::Perform(m.action()),
            None => WorkerAction::Receive,
        }
    }
}

} // verus!
