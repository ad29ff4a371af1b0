//! Events and the broker/launcher coordination core. Clients report
//! events; the broker aggregates statistics, relays new test cases for
//! cross-pollination, and decides when the whole run is over. The
//! launcher plans one client per requested core and decides which exited
//! clients to restart. All transports and process spawning belong to the
//! caller; the decisions live here.

use vstd::prelude::*;

verus! {

/// Exact total of the executions every client last reported.
pub open spec fn sum_executions(clients: Seq<ClientStats>) -> int
    decreases clients.len(),
{
    if clients.len() == 0 {
        0
    } else {
        sum_executions(clients.drop_last()) + clients.last().executions
    }
}

/// Unfolding of `sum_executions` along a prefix.
pub proof fn lemma_sum_executions_step(clients: Seq<ClientStats>, i: int)
    requires
        0 <= i < clients.len(),
    ensures
        sum_executions(clients.subrange(0, i + 1)) == sum_executions(clients.subrange(0, i))
            + clients[i].executions,
{
    assert(clients.subrange(0, i + 1).drop_last() =~= clients.subrange(0, i));
    assert(clients.subrange(0, i + 1).last() == clients[i]);
}

/// A message from a client to the broker; ownership transfers on send.
pub enum Event {
    /// A new interesting input was retained; other clients may import it.
    NewTestcase { input: Vec<u8>, corpus_count: u64 },
    /// Periodic progress counters.
    Stats { executions: u64, corpus_count: u64, solutions: u64 },
    /// The client stopped, cleanly or not.
    ClientStopped,
}

/// What the broker asks its caller to do with one received event.
pub enum BrokerAction {
    /// Forward these input bytes to every other client.
    Relay(Vec<u8>),
    /// Nothing to forward.
    Quiet,
    /// Every client has stopped: flush persisted state and exit.
    Finished,
}

/// The broker's last knowledge of one client.
pub struct ClientStats {
    pub executions: u64,
    pub corpus_count: u64,
    pub solutions: u64,
    pub stopped: bool,
}

/// True iff every known client has reported that it stopped.
pub open spec fn all_stopped(clients: Seq<ClientStats>) -> bool {
    forall|i: int| 0 <= i < clients.len() ==> clients[i].stopped
}

/// Aggregates events from all clients of one run.
pub struct Broker {
    pub clients: Vec<ClientStats>,
    /// Set once an external stop signal reached the broker.
    pub shutting_down: bool,
}

impl View for Broker {
    type V = Seq<ClientStats>;

    closed spec fn view(&self) -> Seq<ClientStats> {
        self.clients@
    }
}

impl Broker {
    /// A broker expecting `n_clients` clients, none heard from yet.
    pub fn new(n_clients: usize) -> (r: Self)
        ensures
            r@.len() == n_clients,
            forall|i: int| 0 <= i < n_clients ==> {
                &&& r@[i].executions == 0u64
                &&& r@[i].corpus_count == 0u64
                &&& r@[i].solutions == 0u64
                &&& r@[i].stopped == false
            },
            r.shutting_down == false,
    {
        let mut clients: Vec<ClientStats> = Vec::new();
        let mut i: usize = 0;
        while i < n_clients
            invariant
                i <= n_clients,
                clients@.len() == i,
                forall|j: int| 0 <= j < i ==> {
                    &&& clients@[j].executions == 0u64
                    &&& clients@[j].corpus_count == 0u64
                    &&& clients@[j].solutions == 0u64
                    &&& clients@[j].stopped == false
                },
            decreases n_clients - i,
        {
            clients.push(ClientStats { executions: 0, corpus_count: 0, solutions: 0, stopped: false });
            i = i + 1;
        }
        Broker { clients, shutting_down: false }
    }

    /// An external stop signal arrived: remember it, so the caller can
    /// signal every client to stop and flush.
    pub fn on_interrupt(&mut self)
        ensures
            final(self)@ == old(self)@,
            final(self).shutting_down == true,
    {
        self.shutting_down = true;
    }

    /// Receive one event from `client`: record what it says, and answer
    /// with what to do — relay a new test case to the other clients,
    /// finish once every client has stopped, otherwise stay quiet.
    pub fn on_event(&mut self, client: usize, e: Event) -> (a: BrokerAction)
        requires
            client < old(self)@.len(),
        ensures
            final(self)@.len() == old(self)@.len(),
            final(self).shutting_down == old(self).shutting_down,
            forall|i: int| 0 <= i < old(self)@.len() && i != client
                ==> final(self)@[i] == old(self)@[i],
            match e {
                Event::NewTestcase { input, corpus_count } => {
                    &&& final(self)@[client as int] == (ClientStats {
                        corpus_count,
                        ..old(self)@[client as int]
                    })
                    &&& (a matches BrokerAction::Relay(bytes) && bytes@ == input@)
                },
                Event::Stats { executions, corpus_count, solutions } => {
                    &&& final(self)@[client as int] == (ClientStats {
                        executions,
                        corpus_count,
                        solutions,
                        ..old(self)@[client as int]
                    })
                    &&& a is Quiet
                },
                Event::ClientStopped => {
                    &&& final(self)@[client as int] == (ClientStats {
                        stopped: true,
                        ..old(self)@[client as int]
                    })
                    &&& (a is Finished <==> all_stopped(final(self)@))
                },
            },
    {
        match e {
            Event::NewTestcase { input, corpus_count } => {
                let c = &mut self.clients[client];
                c.corpus_count = corpus_count;
                BrokerAction::Relay(input)
            },
            Event::Stats { executions, corpus_count, solutions } => {
                let c = &mut self.clients[client];
                c.executions = executions;
                c.corpus_count = corpus_count;
                c.solutions = solutions;
                BrokerAction::Quiet
            },
            Event::ClientStopped => {
                let c = &mut self.clients[client];
                c.stopped = true;
                if self.all_clients_stopped() {
                    BrokerAction::Finished
                } else {
                    BrokerAction::Quiet
                }
            },
        }
    }

    /// Aggregate executions across all clients, saturating: exact
    /// whenever the true total fits in the counter.
    pub fn total_executions(&self) -> (r: u64)
        ensures
            r == if sum_executions(self@) <= u64::MAX {
                sum_executions(self@)
            } else {
                u64::MAX as int
            },
    {
        let n = self.clients.len();
        let mut total: u64 = 0;
        let mut i: usize = 0;
        while i < n
            invariant
                i <= n,
                n == self@.len(),
                total == if sum_executions(self@.subrange(0, i as int)) <= u64::MAX {
                    sum_executions(self@.subrange(0, i as int))
                } else {
                    u64::MAX as int
                },
            decreases n - i,
        {
            proof {
                lemma_sum_executions_step(self@, i as int);
            }
            let e = self.clients[i].executions;
            if total <= u64::MAX - e {
                total = total + e;
            } else {
                total = u64::MAX;
            }
            i = i + 1;
        }
        proof {
            assert(self@.subrange(0, n as int) =~= self@);
        }
        total
    }

    /// Whether every client has reported that it stopped.
    pub fn all_clients_stopped(&self) -> (r: bool)
        ensures
            r == all_stopped(self@),
    {
        let n = self.clients.len();
        let mut i: usize = 0;
        while i < n
            invariant
                i <= n,
                n == self@.len(),
                forall|j: int| 0 <= j < i ==> self@[j].stopped,
            decreases n - i,
        {
            if !self.clients[i].stopped {
                return false;
            }
            i = i + 1;
        }
        true
    }
}

/// One planned client process: which core it is pinned to and its id.
pub struct ClientPlan {
    pub core: u64,
    pub client_id: u64,
}

/// Plan one client per requested core, in order, with ids following the
/// core list; the broker itself is planned separately by the caller.
pub fn spawn_plan(cores: &Vec<u64>) -> (r: Vec<ClientPlan>)
    requires
        cores@.len() <= u64::MAX,
    ensures
        r@.len() == cores@.len(),
        forall|i: int| 0 <= i < cores@.len() ==> r@[i].core == cores@[i]
            && r@[i].client_id == i as u64,
{
    let n = cores.len();
    let mut r: Vec<ClientPlan> = Vec::new();
    let mut i: usize = 0;
    while i < n
        invariant
            i <= n,
            n == cores@.len(),
            n <= u64::MAX,
            r@.len() == i,
            forall|j: int| 0 <= j < i ==> r@[j].core == cores@[j] && r@[j].client_id == j as u64,
        decreases n - i,
    {
        let core = cores[i];
        r.push(ClientPlan { core, client_id: i as u64 });
        proof {
            assert(r@[i as int].core == cores@[i as int]);
        }
        i = i + 1;
    }
    r
}

/// Restart policy: a client is restarted exactly when it exited
/// abnormally (a crash that escaped the in-process fault handler, or a
/// forkserver desync) and the run is not shutting down.
pub fn should_restart(exit_clean: bool, shutting_down: bool) -> (r: bool)
    ensures
        r == (!exit_clean && !shutting_down),
{
    !exit_clean && !shutting_down
}

} // verus!
