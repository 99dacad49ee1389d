//! The broker: the registry of per-client workers, the state of the listener
//! on the common access pipe, the handling of control messages, and the
//! routing of data messages to subscribed workers.
//!
//! Everything here is pure state and decision: the runtime around the library
//! creates the FIFOs, runs the reader threads, writes the reply frames that
//! these functions hand back, and deletes the FIFOs of stopped workers.

use vstd::prelude::*;

use crate::cap;
use crate::message::{bytes_as_chars, bytes_to_string, chars_as_bytes, clone_bytes, string_to_bytes, MessageView, OctopipesMessage};
use crate::options::OctopipesOptions;
use crate::serializer;
use crate::{
    OctopipesCapError, OctopipesCapMessage, OctopipesProtocolVersion, OctopipesServerError,
    OctopipesServerState,
};

verus! {

/// One client's subscription: its group names and the time it subscribed,
/// in milliseconds of the runtime's monotonic clock.
pub struct Subscription {
    /// When the worker was created, in milliseconds of a monotonic clock.
    pub subscription_time: u64,
    /// The group names the client subscribed to, the client's own id last.
    pub groups: Vec<String>,
}

impl Subscription {
    /// Builds a subscription record.
    pub fn new(subscriptions: Vec<String>, subscription_time: u64) -> (r: Subscription)
        ensures
            r.groups == subscriptions,
            r.subscription_time == subscription_time,
    {
        Subscription { groups: subscriptions, subscription_time }
    }

    /// Whether the group names contain `name`.
    pub open spec fn spec_subscribed(&self, name: Seq<char>) -> bool {
        exists|j: int| 0 <= j < self.groups@.len() && self.groups@[j]@ == name
    }

    /// Whether the group names contain `to_find`.
    pub fn is_subscribed(&self, to_find: &String) -> (r: bool)
        ensures
            r == self.spec_subscribed(to_find@),
    {
        let mut j: usize = 0;
        while j < self.groups.len()
            invariant
                j <= self.groups@.len(),
                forall|t: int| 0 <= t < j ==> (#[trigger] self.groups@[t])@ != to_find@,
            decreases self.groups@.len() - j,
        {
            if self.groups[j].eq(to_find) {
                return true;
            }
            j = j + 1;
        }
        false
    }
}

/// The broker-side record of one connected client: its id, its subscription,
/// and its two FIFO paths. The broker reads from the client's transmit pipe
/// and writes to the client's receive pipe.
pub struct OctopipesServerWorker {
    /// The client's id, unique among live workers.
    pub client_id: String,
    /// The client's groups and subscription time.
    pub subscription: Subscription,
    /// The path the broker reads from: the client's transmit pipe.
    pub pipe_read: String,
    /// The path the broker writes to: the client's receive pipe.
    pub pipe_write: String,
}

/// Live workers carry pairwise distinct client ids.
pub open spec fn workers_unique(ws: Seq<OctopipesServerWorker>) -> bool {
    forall|i: int, j: int|
        0 <= i < j < ws.len() ==> (#[trigger] ws[i].client_id)@ != (#[trigger] ws[j].client_id)@
}

/// Whether some live worker carries the client id `name`.
pub open spec fn spec_worker_exists(ws: Seq<OctopipesServerWorker>, name: Seq<char>) -> bool {
    exists|i: int| 0 <= i < ws.len() && (#[trigger] ws[i].client_id)@ == name
}

/// The broker's state: the listener state, the pipe paths it was built with,
/// and the registry of live workers.
pub struct OctopipesServer {
    /// The protocol version the broker speaks.
    pub version: OctopipesProtocolVersion,
    /// The state of the listener on the common access pipe.
    pub state: OctopipesServerState,
    /// The path of the common access pipe.
    pub cap_pipe: String,
    /// The directory the per-client FIFOs are allocated in.
    pub client_folder: String,
    /// The live workers, one per subscribed client.
    pub workers: Vec<OctopipesServerWorker>,
}

impl OctopipesServer {
    /// The broker invariant: live workers carry pairwise distinct ids.
    pub open spec fn wf(&self) -> bool {
        workers_unique(self.workers@)
    }

    /// Builds a broker for the given common access pipe and client directory.
    pub fn new(
        version: OctopipesProtocolVersion,
        cap_pipe: String,
        client_folder: String,
    ) -> (r: OctopipesServer)
        ensures
            r.version == version,
            r.state == OctopipesServerState::Initialized,
            r.cap_pipe == cap_pipe,
            r.client_folder == client_folder,
            r.workers@.len() == 0,
            r.wf(),
    {
        OctopipesServer {
            version,
            state: OctopipesServerState::Initialized,
            cap_pipe,
            client_folder,
            workers: Vec::new(),
        }
    }

    /// Marks the listener on the common access pipe as running. The runtime
    /// creates the FIFO and spawns the listener thread after this succeeds.
    pub fn start_cap_listener(&mut self) -> (r: Result<(), OctopipesServerError>)
        ensures
            final(self).version == old(self).version,
            final(self).cap_pipe == old(self).cap_pipe,
            final(self).client_folder == old(self).client_folder,
            final(self).workers == old(self).workers,
            (old(self).state == OctopipesServerState::Running || old(self).state
                == OctopipesServerState::Block) ==> r == Err::<(), OctopipesServerError>(
                OctopipesServerError::ThreadAlreadyRunning,
            ) && final(self).state == old(self).state,
            (old(self).state == OctopipesServerState::Initialized || old(self).state
                == OctopipesServerState::Stopped) ==> r == Ok::<(), OctopipesServerError>(())
                && final(self).state == OctopipesServerState::Running,
    {
        match self.state {
            OctopipesServerState::Running => Err(OctopipesServerError::ThreadAlreadyRunning),
            OctopipesServerState::Block => Err(OctopipesServerError::ThreadAlreadyRunning),
            _ => {
                self.state = OctopipesServerState::Running;
                Ok(())
            },
        }
    }

    /// Marks the listener as stopped, when it runs. The runtime joins the
    /// listener thread and deletes the FIFO after this returns.
    pub fn stop_cap_listener(&mut self) -> (r: Result<(), OctopipesServerError>)
        ensures
            r == Ok::<(), OctopipesServerError>(()),
            final(self).version == old(self).version,
            final(self).cap_pipe == old(self).cap_pipe,
            final(self).client_folder == old(self).client_folder,
            final(self).workers == old(self).workers,
            old(self).state == OctopipesServerState::Running ==> final(self).state
                == OctopipesServerState::Stopped,
            old(self).state != OctopipesServerState::Running ==> final(self).state == old(self).state,
    {
        match self.state {
            OctopipesServerState::Running => {
                self.state = OctopipesServerState::Stopped;
                Ok(())
            },
            _ => Ok(()),
        }
    }

    /// Moves the listener into the blocked state, so that the broker may
    /// write on the common access pipe without racing its own reader. The
    /// runtime pauses briefly after this so the listener observes the state.
    pub fn lock_cap(&mut self)
        ensures
            final(self).state == OctopipesServerState::Block,
            final(self).version == old(self).version,
            final(self).cap_pipe == old(self).cap_pipe,
            final(self).client_folder == old(self).client_folder,
            final(self).workers == old(self).workers,
    {
        self.state = OctopipesServerState::Block;
    }

    /// Moves the listener back to running after a broker-side write.
    pub fn unlock_cap(&mut self)
        ensures
            final(self).state == OctopipesServerState::Running,
            final(self).version == old(self).version,
            final(self).cap_pipe == old(self).cap_pipe,
            final(self).client_folder == old(self).client_folder,
            final(self).workers == old(self).workers,
    {
        self.state = OctopipesServerState::Running;
    }

    /// Whether a live worker carries the id `worker_name`.
    pub fn worker_exists(&self, worker_name: &String) -> (r: bool)
        ensures
            r == spec_worker_exists(self.workers@, worker_name@),
    {
        let mut i: usize = 0;
        while i < self.workers.len()
            invariant
                i <= self.workers@.len(),
                forall|t: int| 0 <= t < i ==> (#[trigger] self.workers@[t].client_id)@
                    != worker_name@,
            decreases self.workers@.len() - i,
        {
            if self.workers[i].client_id.eq(worker_name) {
                return true;
            }
            i = i + 1;
        }
        false
    }

    /// Registers a worker for a new client. The subscription is refused with
    /// `WorkerExists` when the id is already taken, and with `Uninitialized`
    /// when the broker is not running. The runtime creates the two FIFOs and
    /// spawns the reader thread once this succeeds.
    pub fn start_worker(
        &mut self,
        client: String,
        subscriptions: Vec<String>,
        cli_tx_pipe: String,
        cli_rx_pipe: String,
        subscription_time: u64,
    ) -> (r: Result<(), OctopipesServerError>)
        requires
            old(self).wf(),
        ensures
            final(self).wf(),
            final(self).version == old(self).version,
            final(self).state == old(self).state,
            final(self).cap_pipe == old(self).cap_pipe,
            final(self).client_folder == old(self).client_folder,
            old(self).state != OctopipesServerState::Running ==> r == Err::<
                (),
                OctopipesServerError,
            >(OctopipesServerError::Uninitialized) && final(self).workers == old(self).workers,
            old(self).state == OctopipesServerState::Running && spec_worker_exists(
                old(self).workers@,
                client@,
            ) ==> r == Err::<(), OctopipesServerError>(OctopipesServerError::WorkerExists)
                && final(self).workers == old(self).workers,
            old(self).state == OctopipesServerState::Running && !spec_worker_exists(
                old(self).workers@,
                client@,
            ) ==> r == Ok::<(), OctopipesServerError>(()) && final(self).workers@ == old(self).workers@.push(
                OctopipesServerWorker {
                    client_id: client,
                    subscription: Subscription { subscription_time, groups: subscriptions },
                    pipe_read: cli_tx_pipe,
                    pipe_write: cli_rx_pipe,
                },
            ),
    {
        match self.state {
            OctopipesServerState::Running => {
                if self.worker_exists(&client) {
                    return Err(OctopipesServerError::WorkerExists);
                }
                let worker = OctopipesServerWorker {
                    client_id: client,
                    subscription: Subscription::new(subscriptions, subscription_time),
                    pipe_read: cli_tx_pipe,
                    pipe_write: cli_rx_pipe,
                };
                self.workers.push(worker);
                Ok(())
            },
            _ => Err(OctopipesServerError::Uninitialized),
        }
    }

    /// Removes the worker of `client`, or reports `WorkerNotFound`. The
    /// runtime joins the worker's thread and deletes its FIFOs; their paths
    /// can be read with `get_worker_pipes` before the call.
    pub fn stop_worker(&mut self, client: &String) -> (r: Result<(), OctopipesServerError>)
        requires
            old(self).wf(),
        ensures
            final(self).wf(),
            final(self).version == old(self).version,
            final(self).state == old(self).state,
            final(self).cap_pipe == old(self).cap_pipe,
            final(self).client_folder == old(self).client_folder,
            !spec_worker_exists(old(self).workers@, client@) ==> r == Err::<
                (),
                OctopipesServerError,
            >(OctopipesServerError::WorkerNotFound) && final(self).workers == old(self).workers,
            spec_worker_exists(old(self).workers@, client@) ==> r == Ok::<
                (),
                OctopipesServerError,
            >(()) && (exists|i: int|
                0 <= i < old(self).workers@.len() && (#[trigger] old(self).workers@[i].client_id)@ == client@ && final(self).workers@ == old(self).workers@.remove(i)),
    {
        let mut i: usize = 0;
        while i < self.workers.len()
            invariant
                *self == *old(self),
                old(self).wf(),
                i <= self.workers@.len(),
                forall|t: int| 0 <= t < i ==> (#[trigger] self.workers@[t].client_id)@ != client@,
            decreases self.workers@.len() - i,
        {
            if self.workers[i].client_id.eq(client) {
                self.workers.remove(i);
                return Ok(());
            }
            i = i + 1;
        }
        Err(OctopipesServerError::WorkerNotFound)
    }

    /// The subscription time of the worker of `client`, when one lives.
    pub fn is_subscribed(&self, client: String) -> (r: Option<u64>)
        ensures
            r is Some <==> spec_worker_exists(self.workers@, client@),
            r matches Some(t) ==> exists|i: int|
                0 <= i < self.workers@.len() && (#[trigger] self.workers@[i].client_id)@ == client@
                    && self.workers@[i].subscription.subscription_time == t,
    {
        let mut i: usize = 0;
        while i < self.workers.len()
            invariant
                i <= self.workers@.len(),
                forall|t: int| 0 <= t < i ==> (#[trigger] self.workers@[t].client_id)@ != client@,
            decreases self.workers@.len() - i,
        {
            if self.workers[i].client_id.eq(&client) {
                return Some(self.workers[i].subscription.subscription_time);
            }
            i = i + 1;
        }
        None
    }

    /// The group names of the worker of `client`, when one lives.
    pub fn get_subscriptions(&self, client: String) -> (r: Option<Vec<String>>)
        ensures
            r is Some <==> spec_worker_exists(self.workers@, client@),
            r matches Some(g) ==> exists|i: int|
                0 <= i < self.workers@.len() && (#[trigger] self.workers@[i].client_id)@ == client@
                    && g@.len() == self.workers@[i].subscription.groups@.len() && (forall|j: int|
                    0 <= j < g@.len() ==> (#[trigger] g@[j])@
                        == self.workers@[i].subscription.groups@[j]@),
    {
        let mut i: usize = 0;
        while i < self.workers.len()
            invariant
                i <= self.workers@.len(),
                forall|t: int| 0 <= t < i ==> (#[trigger] self.workers@[t].client_id)@ != client@,
            decreases self.workers@.len() - i,
        {
            if self.workers[i].client_id.eq(&client) {
                let src = &self.workers[i].subscription.groups;
                let mut out: Vec<String> = Vec::new();
                let mut j: usize = 0;
                while j < src.len()
                    invariant
                        j <= src@.len(),
                        out@.len() == j,
                        forall|t: int| 0 <= t < j ==> (#[trigger] out@[t])@ == src@[t]@,
                    decreases src@.len() - j,
                {
                    out.push(src[j].clone());
                    j = j + 1;
                }
                return Some(out);
            }
            i = i + 1;
        }
        None
    }

    /// The two FIFO paths of the worker of `client`: first the path the
    /// broker reads from, then the path it writes to.
    pub fn get_worker_pipes(&self, client: &String) -> (r: Option<(String, String)>)
        ensures
            r is Some <==> spec_worker_exists(self.workers@, client@),
            r matches Some(p) ==> exists|i: int|
                0 <= i < self.workers@.len() && (#[trigger] self.workers@[i].client_id)@ == client@
                    && p.0@ == self.workers@[i].pipe_read@ && p.1@
                    == self.workers@[i].pipe_write@,
    {
        let mut i: usize = 0;
        while i < self.workers.len()
            invariant
                i <= self.workers@.len(),
                forall|t: int| 0 <= t < i ==> (#[trigger] self.workers@[t].client_id)@ != client@,
            decreases self.workers@.len() - i,
        {
            if self.workers[i].client_id.eq(client) {
                return Some(
                    (self.workers[i].pipe_read.clone(), self.workers[i].pipe_write.clone()),
                );
            }
            i = i + 1;
        }
        None
    }

    /// The ids of all subscribed clients, in registry order.
    pub fn get_clients(&self) -> (r: Vec<String>)
        ensures
            r@.len() == self.workers@.len(),
            forall|i: int| 0 <= i < r@.len() ==> (#[trigger] r@[i])@ == self.workers@[i].client_id@,
    {
        let mut clients: Vec<String> = Vec::new();
        let mut i: usize = 0;
        while i < self.workers.len()
            invariant
                i <= self.workers@.len(),
                clients@.len() == i,
                forall|t: int| 0 <= t < i ==> (#[trigger] clients@[t])@
                    == self.workers@[t].client_id@,
            decreases self.workers@.len() - i,
        {
            clients.push(self.workers[i].client_id.clone());
            i = i + 1;
        }
        clients
    }

    /// Stops the broker: empties the worker registry and stops the listener.
    /// Nothing changes when the broker is not running. The runtime joins the
    /// worker threads and unlinks every FIFO, the common access pipe last.
    pub fn stop_server(&mut self) -> (r: Result<(), OctopipesServerError>)
        requires
            old(self).wf(),
        ensures
            final(self).wf(),
            r == Ok::<(), OctopipesServerError>(()),
            final(self).version == old(self).version,
            final(self).cap_pipe == old(self).cap_pipe,
            final(self).client_folder == old(self).client_folder,
            old(self).state != OctopipesServerState::Running ==> final(self).state == old(self).state && final(self).workers == old(self).workers,
            old(self).state == OctopipesServerState::Running ==> final(self).state
                == OctopipesServerState::Stopped && final(self).workers@.len() == 0,
    {
        match self.state {
            OctopipesServerState::Running => {
                self.workers.clear();
                self.state = OctopipesServerState::Stopped;
                Ok(())
            },
            _ => Ok(()),
        }
    }
}

/// One delivery that the broker owes after routing a message: which worker,
/// the pipe to write, the encoded frame, and the write deadline in
/// milliseconds (the message's ttl in seconds).
pub struct DispatchOrder {
    /// The position of the recipient in the worker registry.
    pub worker_index: usize,
    /// The recipient's client id.
    pub client_id: String,
    /// The path of the recipient's receive pipe, which the broker writes.
    pub pipe_write: String,
    /// The encoded frame to write.
    pub data: Vec<u8>,
    /// The write deadline: the message's ttl in seconds, in milliseconds.
    pub timeout_millis: u64,
}

/// What a correct routing of `v` through the workers `ws` looks like: every
/// order goes to a subscribed worker with that worker's pipe and the frame of
/// `v`; the orders name strictly increasing worker positions, so no worker is
/// named twice; and every subscribed worker is named.
pub open spec fn dispatch_orders_ok(
    ws: Seq<OctopipesServerWorker>,
    v: MessageView,
    orders: Seq<DispatchOrder>,
) -> bool {
    &&& forall|t: int|
        0 <= t < orders.len() ==> {
            let o = #[trigger] orders[t];
            &&& 0 <= o.worker_index < ws.len()
            &&& ws[o.worker_index as int].subscription.spec_subscribed(bytes_as_chars(v.remote))
            &&& o.client_id@ == ws[o.worker_index as int].client_id@
            &&& o.pipe_write@ == ws[o.worker_index as int].pipe_write@
            &&& o.data@ == serializer::frame_bytes(v)
            &&& o.timeout_millis == v.ttl as u64 * 1000
        }
    &&& forall|t1: int, t2: int|
        0 <= t1 < t2 < orders.len() ==> (#[trigger] orders[t1]).worker_index < (
        #[trigger] orders[t2]).worker_index
    &&& forall|i: int|
        0 <= i < ws.len() && (#[trigger] ws[i]).subscription.spec_subscribed(
            bytes_as_chars(v.remote),
        ) ==> exists|t: int| 0 <= t < orders.len() && (#[trigger] orders[t]).worker_index == i
}

impl OctopipesServer {
    /// The positions of the workers whose group set contains `subscription`,
    /// in increasing order.
    pub fn match_subscription(&self, subscription: &String) -> (r: Vec<usize>)
        ensures
            forall|t: int|
                0 <= t < r@.len() ==> (#[trigger] r@[t]) < self.workers@.len()
                    && self.workers@[r@[t] as int].subscription.spec_subscribed(subscription@),
            forall|t1: int, t2: int| 0 <= t1 < t2 < r@.len() ==> r@[t1] < r@[t2],
            forall|i: int|
                0 <= i < self.workers@.len() && (
                #[trigger] self.workers@[i]).subscription.spec_subscribed(subscription@)
                    ==> exists|t: int| 0 <= t < r@.len() && (#[trigger] r@[t]) == i,
    {
        let mut subject_workers: Vec<usize> = Vec::new();
        let mut i: usize = 0;
        while i < self.workers.len()
            invariant
                i <= self.workers@.len(),
                forall|t: int|
                    0 <= t < subject_workers@.len() ==> (#[trigger] subject_workers@[t]) < i
                        && self.workers@[subject_workers@[t] as int].subscription.spec_subscribed(
                        subscription@,
                    ),
                forall|t1: int, t2: int|
                    0 <= t1 < t2 < subject_workers@.len() ==> subject_workers@[t1]
                        < subject_workers@[t2],
                forall|j: int|
                    0 <= j < i && (#[trigger] self.workers@[j]).subscription.spec_subscribed(
                        subscription@,
                    ) ==> exists|t: int|
                        0 <= t < subject_workers@.len() && (#[trigger] subject_workers@[t]) == j,
            decreases self.workers@.len() - i,
        {
            let ghost prev = subject_workers@;
            if self.workers[i].subscription.is_subscribed(subscription) {
                subject_workers.push(i);
            }
            proof {
                let sw = subject_workers@;
                assert forall|j: int|
                    0 <= j < i + 1 && (#[trigger] self.workers@[j]).subscription.spec_subscribed(
                        subscription@,
                    ) implies exists|t: int|
                    0 <= t < sw.len() && (#[trigger] sw[t]) == j by {
                    if j < i {
                        let t = choose|t: int| 0 <= t < prev.len() && (#[trigger] prev[t]) == j;
                        assert(sw[t] == j);
                    } else {
                        assert(sw[sw.len() - 1] == i);
                    }
                }
            }
            i = i + 1;
        }
        subject_workers
    }

    /// Routes a message: yields one delivery order for each worker whose
    /// group set contains the message's remote name, each exactly once, or
    /// `NoRecipient` when the message names no remote.
    pub fn dispatch_message(&self, message: &OctopipesMessage) -> (r: Result<
        Vec<DispatchOrder>,
        OctopipesServerError,
    >)
        requires
            serializer::msg_wf(message@),
        ensures
            message@.remote.len() == 0 ==> r == Err::<Vec<DispatchOrder>, OctopipesServerError>(
                OctopipesServerError::NoRecipient,
            ),
            message@.remote.len() > 0 ==> (r matches Ok(orders) && dispatch_orders_ok(
                self.workers@,
                message@,
                orders@,
            )),
    {
        let ghost v = message@;
        if message.get_remote_bytes().len() == 0 {
            return Err(OctopipesServerError::NoRecipient);
        }
        let recipient: String = bytes_to_string(message.get_remote_bytes());
        let frame: Vec<u8> = match serializer::encode_message(message) {
            Ok(d) => d,
            Err(_) => vstd::pervasive::unreached(),
        };
        let timeout: u64 = (message.get_ttl() as u64) * 1000;
        let mut orders: Vec<DispatchOrder> = Vec::new();
        let mut i: usize = 0;
        while i < self.workers.len()
            invariant
                i <= self.workers@.len(),
                recipient@ == bytes_as_chars(v.remote),
                frame@ == serializer::frame_bytes(v),
                timeout == v.ttl as u64 * 1000,
                message@ == v,
                forall|t: int|
                    0 <= t < orders@.len() ==> {
                        let o = #[trigger] orders@[t];
                        &&& o.worker_index < i
                        &&& self.workers@[o.worker_index as int].subscription.spec_subscribed(
                            bytes_as_chars(v.remote),
                        )
                        &&& o.client_id@ == self.workers@[o.worker_index as int].client_id@
                        &&& o.pipe_write@ == self.workers@[o.worker_index as int].pipe_write@
                        &&& o.data@ == serializer::frame_bytes(v)
                        &&& o.timeout_millis == v.ttl as u64 * 1000
                    },
                forall|t1: int, t2: int|
                    0 <= t1 < t2 < orders@.len() ==> (#[trigger] orders@[t1]).worker_index < (
                    #[trigger] orders@[t2]).worker_index,
                forall|j: int|
                    0 <= j < i && (#[trigger] self.workers@[j]).subscription.spec_subscribed(
                        bytes_as_chars(v.remote),
                    ) ==> exists|t: int|
                        0 <= t < orders@.len() && (#[trigger] orders@[t]).worker_index == j,
            decreases self.workers@.len() - i,
        {
            let ghost prev = orders@;
            if self.workers[i].subscription.is_subscribed(&recipient) {
                let order = DispatchOrder {
                    worker_index: i,
                    client_id: self.workers[i].client_id.clone(),
                    pipe_write: self.workers[i].pipe_write.clone(),
                    data: clone_bytes(&frame),
                    timeout_millis: timeout,
                };
                orders.push(order);
            }
            proof {
                let os = orders@;
                assert forall|j: int|
                    0 <= j < i + 1 && (#[trigger] self.workers@[j]).subscription.spec_subscribed(
                        bytes_as_chars(v.remote),
                    ) implies exists|t: int|
                    0 <= t < os.len() && (#[trigger] os[t]).worker_index == j by {
                    if j < i {
                        let t = choose|t: int|
                            0 <= t < prev.len() && (#[trigger] prev[t]).worker_index == j;
                        assert(os[t].worker_index == j);
                    } else {
                        assert(os[os.len() - 1].worker_index == i);
                    }
                }
            }
            i = i + 1;
        }
        Ok(orders)
    }
}

/// The characters of the transmit-pipe path allocated for a client id.
pub open spec fn tx_pipe_chars(folder: Seq<char>, id: Seq<char>) -> Seq<char> {
    folder + "/"@ + id + "_tx.fifo"@
}

/// The characters of the receive-pipe path allocated for a client id.
pub open spec fn rx_pipe_chars(folder: Seq<char>, id: Seq<char>) -> Seq<char> {
    folder + "/"@ + id + "_rx.fifo"@
}

/// Whether both allocated pipe paths fit the 255-byte name fields of an
/// Assignment payload.
pub open spec fn pipes_fit(folder: Seq<char>, id: Seq<char>) -> bool {
    chars_as_bytes(tx_pipe_chars(folder, id)).len() <= 255 && chars_as_bytes(
        rx_pipe_chars(folder, id),
    ).len() <= 255
}

/// The message that carries a broker reply on the common access pipe: no
/// origin, the client as remote, a ttl of 60, no options, and the control
/// payload as data.
pub open spec fn cap_reply_view(client: Seq<u8>, payload: Seq<u8>) -> MessageView {
    MessageView {
        origin: Seq::<u8>::empty(),
        remote: client,
        ttl: 60,
        options: 0,
        data: payload,
    }
}

/// The groups a worker is registered with after a subscribe: the requested
/// names, read as characters, and the client's own id appended, so that
/// addressing a client by id routes to it.
pub open spec fn groups_with_id(gs: Seq<Seq<u8>>, id: Seq<char>) -> Seq<Seq<char>> {
    gs.map_values(|g: Seq<u8>| bytes_as_chars(g)).push(id)
}

impl OctopipesServer {
    /// Encodes a broker reply frame for the common access pipe.
    fn cap_reply_frame(&self, client_bytes: Vec<u8>, payload: Vec<u8>) -> (r: Vec<u8>)
        requires
            client_bytes@.len() <= 255,
            payload@.len() + client_bytes@.len() + 17 <= usize::MAX,
        ensures
            r@ == serializer::frame_bytes(cap_reply_view(client_bytes@, payload@)),
    {
        let message = OctopipesMessage::from_bytes(
            self.version,
            Vec::new(),
            client_bytes,
            60,
            OctopipesOptions::empty(),
            payload,
        );
        match serializer::encode_message(&message) {
            Ok(d) => d,
            Err(_) => vstd::pervasive::unreached(),
        }
    }

    /// The Assignment frame that refuses a subscribe for a file-system
    /// reason, for the runtime to write when it could not create the
    /// client's FIFOs.
    pub fn assignment_error_reply(&self, client_id: &String) -> (r: Vec<u8>)
        requires
            chars_as_bytes(client_id@).len() <= 255,
        ensures
            r@ == serializer::frame_bytes(
                cap_reply_view(
                    chars_as_bytes(client_id@),
                    cap::assignment_payload(2, None, None),
                ),
            ),
    {
        let payload = cap::encode_assignment(OctopipesCapError::FileSystemError, None, None);
        self.cap_reply_frame(string_to_bytes(client_id.as_str()), payload)
    }

    /// Handles a subscribe request for `client_id` with the given groups (the
    /// id itself already appended by the caller). Yields the outcome and the
    /// Assignment frame to write back on the common access pipe:
    /// `NameAlreadyTaken` when a worker with this id lives, a file-system
    /// error when the broker is not running or the allocated pipe paths do
    /// not fit a 255-byte name field, and otherwise `NoError` with the two
    /// paths, with the worker registered.
    pub fn manage_subscription(
        &mut self,
        client_id: &String,
        groups: Vec<String>,
        subscription_time: u64,
    ) -> (r: (Result<OctopipesCapMessage, OctopipesServerError>, Option<Vec<u8>>))
        requires
            old(self).wf(),
            chars_as_bytes(client_id@).len() <= 255,
        ensures
            final(self).wf(),
            final(self).version == old(self).version,
            final(self).state == old(self).state,
            final(self).cap_pipe == old(self).cap_pipe,
            final(self).client_folder == old(self).client_folder,
            spec_worker_exists(old(self).workers@, client_id@) ==> r.0 == Err::<
                OctopipesCapMessage,
                OctopipesServerError,
            >(OctopipesServerError::WorkerExists) && final(self).workers == old(self).workers && (
            r.1 matches Some(reply) && reply@ == serializer::frame_bytes(
                cap_reply_view(
                    chars_as_bytes(client_id@),
                    cap::assignment_payload(1, None, None),
                ),
            )),
            !spec_worker_exists(old(self).workers@, client_id@) && old(self).state
                != OctopipesServerState::Running ==> r.0 == Err::<
                OctopipesCapMessage,
                OctopipesServerError,
            >(OctopipesServerError::Uninitialized) && final(self).workers == old(self).workers && (
            r.1 matches Some(reply) && reply@ == serializer::frame_bytes(
                cap_reply_view(
                    chars_as_bytes(client_id@),
                    cap::assignment_payload(2, None, None),
                ),
            )),
            !spec_worker_exists(old(self).workers@, client_id@) && old(self).state
                == OctopipesServerState::Running && !pipes_fit(
                old(self).client_folder@,
                client_id@,
            ) ==> r.0 == Err::<OctopipesCapMessage, OctopipesServerError>(
                OctopipesServerError::BadClientDir,
            ) && final(self).workers == old(self).workers && (r.1 matches Some(reply) && reply@
                == serializer::frame_bytes(
                cap_reply_view(
                    chars_as_bytes(client_id@),
                    cap::assignment_payload(2, None, None),
                ),
            )),
            !spec_worker_exists(old(self).workers@, client_id@) && old(self).state
                == OctopipesServerState::Running && pipes_fit(
                old(self).client_folder@,
                client_id@,
            ) ==> r.0 == Ok::<OctopipesCapMessage, OctopipesServerError>(
                OctopipesCapMessage::Subscription,
            ) && final(self).workers@.len() == old(self).workers@.len() + 1 && final(self).workers@.take(old(self).workers@.len() as int) == old(self).workers@ && ({
                let w = final(self).workers@.last();
                &&& w.client_id@ == client_id@
                &&& w.subscription.groups == groups
                &&& w.subscription.subscription_time == subscription_time
                &&& w.pipe_read@ == tx_pipe_chars(old(self).client_folder@, client_id@)
                &&& w.pipe_write@ == rx_pipe_chars(old(self).client_folder@, client_id@)
            }) && (r.1 matches Some(reply) && reply@ == serializer::frame_bytes(
                cap_reply_view(
                    chars_as_bytes(client_id@),
                    cap::assignment_payload(
                        0,
                        Some(chars_as_bytes(tx_pipe_chars(old(self).client_folder@, client_id@))),
                        Some(chars_as_bytes(rx_pipe_chars(old(self).client_folder@, client_id@))),
                    ),
                ),
            )),
    {
        if self.worker_exists(client_id) {
            let payload = cap::encode_assignment(OctopipesCapError::NameAlreadyTaken, None, None);
            let reply = self.cap_reply_frame(string_to_bytes(client_id.as_str()), payload);
            return (Err(OctopipesServerError::WorkerExists), Some(reply));
        }
        match self.state {
            OctopipesServerState::Running => {},
            _ => {
                let payload = cap::encode_assignment(OctopipesCapError::FileSystemError, None, None);
                let reply = self.cap_reply_frame(string_to_bytes(client_id.as_str()), payload);
                return (Err(OctopipesServerError::Uninitialized), Some(reply));
            },
        }
        let tx_pipe: String = self.client_folder.clone().concat("/").concat(
            client_id.as_str(),
        ).concat("_tx.fifo");
        let rx_pipe: String = self.client_folder.clone().concat("/").concat(
            client_id.as_str(),
        ).concat("_rx.fifo");
        let tx_bytes = string_to_bytes(tx_pipe.as_str());
        let rx_bytes = string_to_bytes(rx_pipe.as_str());
        if tx_bytes.len() > 255 || rx_bytes.len() > 255 {
            let payload = cap::encode_assignment(OctopipesCapError::FileSystemError, None, None);
            let reply = self.cap_reply_frame(string_to_bytes(client_id.as_str()), payload);
            return (Err(OctopipesServerError::BadClientDir), Some(reply));
        }
        let payload = cap::encode_assignment(
            OctopipesCapError::NoError,
            Some(tx_pipe.clone()),
            Some(rx_pipe.clone()),
        );
        let reply = self.cap_reply_frame(string_to_bytes(client_id.as_str()), payload);
        match self.start_worker(
            client_id.clone(),
            groups,
            tx_pipe,
            rx_pipe,
            subscription_time,
        ) {
            Ok(_) => (Ok(OctopipesCapMessage::Subscription), Some(reply)),
            Err(_) => vstd::pervasive::unreached(),
        }
    }

    /// Handles an unsubscribe request: removes the client's worker, or
    /// reports `WorkerNotFound`. No reply travels on the common access pipe.
    pub fn manage_unsubscription(&mut self, client_id: &String) -> (r: Result<
        OctopipesCapMessage,
        OctopipesServerError,
    >)
        requires
            old(self).wf(),
        ensures
            final(self).wf(),
            final(self).version == old(self).version,
            final(self).state == old(self).state,
            final(self).cap_pipe == old(self).cap_pipe,
            final(self).client_folder == old(self).client_folder,
            !spec_worker_exists(old(self).workers@, client_id@) ==> r == Err::<
                OctopipesCapMessage,
                OctopipesServerError,
            >(OctopipesServerError::WorkerNotFound) && final(self).workers == old(self).workers,
            spec_worker_exists(old(self).workers@, client_id@) ==> r == Ok::<
                OctopipesCapMessage,
                OctopipesServerError,
            >(OctopipesCapMessage::Unsubscription) && (exists|i: int|
                0 <= i < old(self).workers@.len() && (#[trigger] old(self).workers@[i].client_id)@ == client_id@ && final(self).workers@ == old(self).workers@.remove(i)),
    {
        if !self.worker_exists(client_id) {
            return Err(OctopipesServerError::WorkerNotFound);
        }
        match self.stop_worker(client_id) {
            Ok(_) => Ok(OctopipesCapMessage::Unsubscription),
            Err(_) => vstd::pervasive::unreached(),
        }
    }

    /// Takes one decoded message from the common access pipe and performs the
    /// control action it asks for. Yields the action taken, or the error the
    /// request earns, and the Assignment frame to write back, when one is
    /// owed. A message without an origin earns `NoRecipient`; an unknown or
    /// misplaced control type earns `BadPacket`, as does an origin whose
    /// bytes cannot be carried back in a 255-byte name field.
    pub fn manage_cap_message(&mut self, message: &OctopipesMessage, subscription_time: u64) -> (r:
        (Result<OctopipesCapMessage, OctopipesServerError>, Option<Vec<u8>>))
        requires
            old(self).wf(),
            serializer::msg_wf(message@),
        ensures
            final(self).wf(),
            final(self).version == old(self).version,
            final(self).state == old(self).state,
            final(self).cap_pipe == old(self).cap_pipe,
            final(self).client_folder == old(self).client_folder,
            ({
                let v = message@;
                let cc = bytes_as_chars(v.origin);
                if v.origin.len() == 0 {
                    r.0 == Err::<OctopipesCapMessage, OctopipesServerError>(
                        OctopipesServerError::NoRecipient,
                    ) && r.1 is None && final(self).workers == old(self).workers
                } else if v.data.len() == 0 || OctopipesCapMessage::spec_from_u8(v.data[0]) is None
                    || OctopipesCapMessage::spec_from_u8(v.data[0]) == Some(
                    OctopipesCapMessage::Assignment,
                ) {
                    r.0 == Err::<OctopipesCapMessage, OctopipesServerError>(
                        OctopipesServerError::BadPacket,
                    ) && r.1 is None && final(self).workers == old(self).workers
                } else if OctopipesCapMessage::spec_from_u8(v.data[0]) == Some(
                    OctopipesCapMessage::Subscription,
                ) {
                    match cap::decode_subscribe_spec(v.data) {
                        Err(_) => r.0 == Err::<OctopipesCapMessage, OctopipesServerError>(
                            OctopipesServerError::BadPacket,
                        ) && r.1 is None && final(self).workers == old(self).workers,
                        Ok(gs) => {
                            if chars_as_bytes(cc).len() > 255 {
                                r.0 == Err::<OctopipesCapMessage, OctopipesServerError>(
                                    OctopipesServerError::BadPacket,
                                ) && r.1 is None && final(self).workers == old(self).workers
                            } else if spec_worker_exists(old(self).workers@, cc) {
                                r.0 == Err::<OctopipesCapMessage, OctopipesServerError>(
                                    OctopipesServerError::WorkerExists,
                                ) && final(self).workers == old(self).workers && (
                                r.1 matches Some(reply) && reply@ == serializer::frame_bytes(
                                    cap_reply_view(
                                        chars_as_bytes(cc),
                                        cap::assignment_payload(1, None, None),
                                    ),
                                ))
                            } else if old(self).state != OctopipesServerState::Running {
                                r.0 == Err::<OctopipesCapMessage, OctopipesServerError>(
                                    OctopipesServerError::Uninitialized,
                                ) && final(self).workers == old(self).workers && (
                                r.1 matches Some(reply) && reply@ == serializer::frame_bytes(
                                    cap_reply_view(
                                        chars_as_bytes(cc),
                                        cap::assignment_payload(2, None, None),
                                    ),
                                ))
                            } else if !pipes_fit(old(self).client_folder@, cc) {
                                r.0 == Err::<OctopipesCapMessage, OctopipesServerError>(
                                    OctopipesServerError::BadClientDir,
                                ) && final(self).workers == old(self).workers && (
                                r.1 matches Some(reply) && reply@ == serializer::frame_bytes(
                                    cap_reply_view(
                                        chars_as_bytes(cc),
                                        cap::assignment_payload(2, None, None),
                                    ),
                                ))
                            } else {
                                r.0 == Ok::<OctopipesCapMessage, OctopipesServerError>(
                                    OctopipesCapMessage::Subscription,
                                ) && final(self).workers@.len() == old(self).workers@.len() + 1
                                    && final(self).workers@.take(old(self).workers@.len() as int)
                                    == old(self).workers@ && ({
                                    let w = final(self).workers@.last();
                                    &&& w.client_id@ == cc
                                    &&& w.subscription.groups@.len() == gs.len() + 1
                                    &&& (forall|j: int|
                                        0 <= j < gs.len() ==> (
                                        #[trigger] w.subscription.groups@[j])@ == bytes_as_chars(
                                            gs[j],
                                        ))
                                    &&& w.subscription.groups@.last()@ == cc
                                    &&& w.subscription.subscription_time == subscription_time
                                    &&& w.pipe_read@ == tx_pipe_chars(
                                        old(self).client_folder@,
                                        cc,
                                    )
                                    &&& w.pipe_write@ == rx_pipe_chars(
                                        old(self).client_folder@,
                                        cc,
                                    )
                                }) && (r.1 matches Some(reply) && reply@
                                    == serializer::frame_bytes(
                                    cap_reply_view(
                                        chars_as_bytes(cc),
                                        cap::assignment_payload(
                                            0,
                                            Some(
                                                chars_as_bytes(
                                                    tx_pipe_chars(old(self).client_folder@, cc),
                                                ),
                                            ),
                                            Some(
                                                chars_as_bytes(
                                                    rx_pipe_chars(old(self).client_folder@, cc),
                                                ),
                                            ),
                                        ),
                                    ),
                                ))
                            }
                        },
                    }
                } else {
                    if !spec_worker_exists(old(self).workers@, cc) {
                        r.0 == Err::<OctopipesCapMessage, OctopipesServerError>(
                            OctopipesServerError::WorkerNotFound,
                        ) && r.1 is None && final(self).workers == old(self).workers
                    } else {
                        r.0 == Ok::<OctopipesCapMessage, OctopipesServerError>(
                            OctopipesCapMessage::Unsubscription,
                        ) && r.1 is None && (exists|i: int|
                            0 <= i < old(self).workers@.len() && (#[trigger] old(self).workers@[i].client_id)@ == cc && final(self).workers@ == old(self).workers@.remove(i))
                    }
                }
            }),
    {
        if message.get_origin_bytes().len() == 0 {
            return (Err(OctopipesServerError::NoRecipient), None);
        }
        let data = message.get_data();
        match cap::get_cap_message_type(data) {
            Err(err) => (Err(err.to_server_error()), None),
            Ok(cap_message) => match cap_message {
                OctopipesCapMessage::Subscription => {
                    match cap::decode_subscribe(data) {
                        Err(err) => (Err(err.to_server_error()), None),
                        Ok(mut groups) => {
                            let cid = bytes_to_string(message.get_origin_bytes());
                            let cid_bytes = string_to_bytes(cid.as_str());
                            if cid_bytes.len() > 255 {
                                return (Err(OctopipesServerError::BadPacket), None);
                            }
                            groups.push(cid.clone());
                            self.manage_subscription(&cid, groups, subscription_time)
                        },
                    }
                },
                OctopipesCapMessage::Unsubscription => {
                    match cap::decode_unsubscribe(data) {
                        Err(err) => (Err(err.to_server_error()), None),
                        Ok(_) => {
                            let cid = bytes_to_string(message.get_origin_bytes());
                            match self.manage_unsubscription(&cid) {
                                Ok(t) => (Ok(t), None),
                                Err(e) => (Err(e), None),
                            }
                        },
                    }
                },
                OctopipesCapMessage::Assignment => (Err(OctopipesServerError::BadPacket), None),
            },
        }
    }
}

/// Routing fan-out: under a correct routing of `v`, every worker whose group
/// set contains the remote name is named by exactly one delivery order, and
/// that order carries the frame of `v` to that worker's receive pipe.
pub proof fn lemma_routing_fanout(
    ws: Seq<OctopipesServerWorker>,
    v: MessageView,
    orders: Seq<DispatchOrder>,
    i: int,
)
    requires
        dispatch_orders_ok(ws, v, orders),
        0 <= i < ws.len(),
        ws[i].subscription.spec_subscribed(bytes_as_chars(v.remote)),
    ensures
        exists|t: int| 0 <= t < orders.len() && (#[trigger] orders[t]).worker_index == i,
        forall|t1: int, t2: int|
            0 <= t1 < orders.len() && 0 <= t2 < orders.len() && (
            #[trigger] orders[t1]).worker_index == i && (#[trigger] orders[t2]).worker_index == i
                ==> t1 == t2,
        forall|t: int|
            0 <= t < orders.len() && (#[trigger] orders[t]).worker_index == i ==> orders[t].data@
                == serializer::frame_bytes(v) && orders[t].client_id@ == ws[i].client_id@
                && orders[t].pipe_write@ == ws[i].pipe_write@,
{
    assert forall|t1: int, t2: int|
        0 <= t1 < orders.len() && 0 <= t2 < orders.len() && (#[trigger] orders[t1]).worker_index
            == i && (#[trigger] orders[t2]).worker_index == i implies t1 == t2 by {
        if t1 < t2 {
            assert(orders[t1].worker_index < orders[t2].worker_index);
        }
        if t2 < t1 {
            assert(orders[t2].worker_index < orders[t1].worker_index);
        }
    }
}

/// Implicit self-address: when a message is addressed to the id of one worker
/// and no other worker has that id in its group set, the routing yields
/// exactly one delivery order, to that worker.
pub proof fn lemma_self_address(
    ws: Seq<OctopipesServerWorker>,
    v: MessageView,
    orders: Seq<DispatchOrder>,
    i: int,
)
    requires
        dispatch_orders_ok(ws, v, orders),
        0 <= i < ws.len(),
        ws[i].subscription.spec_subscribed(bytes_as_chars(v.remote)),
        forall|j: int|
            0 <= j < ws.len() && j != i ==> !(#[trigger] ws[j]).subscription.spec_subscribed(
                bytes_as_chars(v.remote),
            ),
    ensures
        orders.len() == 1,
        orders[0].worker_index == i,
        orders[0].client_id@ == ws[i].client_id@,
        orders[0].pipe_write@ == ws[i].pipe_write@,
        orders[0].data@ == serializer::frame_bytes(v),
{
    assert(exists|t: int| 0 <= t < orders.len() && (#[trigger] orders[t]).worker_index == i);
    assert forall|t: int| 0 <= t < orders.len() implies (#[trigger] orders[t]).worker_index
        == i by {
        let w = orders[t].worker_index as int;
        assert(ws[w].subscription.spec_subscribed(bytes_as_chars(v.remote)));
    }
    if orders.len() > 1 {
        assert(orders[0].worker_index < orders[1].worker_index);
        assert(false);
    }
}

} // verus!
