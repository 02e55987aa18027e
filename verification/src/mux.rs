//! UART multiplexer: fan-out of one physical peripheral across several
//! logical clients.
//!
//! The mux owns one pending-transmission queue per client.  When the
//! peripheral becomes free it polls the clients in a fixed round-robin
//! order, starting just after the client served last, and arms the first
//! pending request it finds.  Within one client, requests leave in the
//! order they were queued; across clients no order is promised beyond the
//! round robin.

use vstd::prelude::*;

use crate::uart_req::TxRequest;

verus! {

/// The round-robin transmit scheduler of one shared peripheral.
pub struct UartMux {
    /// One pending-request queue per client, front first.
    pub clients: Vec<Vec<TxRequest>>,
    /// Completed requests handed back to their owning client, oldest
    /// first, until the client collects them.
    pub finished: Vec<Vec<TxRequest>>,
    /// The client polled first on the next arming.
    pub next_index: usize,
}

impl UartMux {
    /// Number of clients.
    pub open spec fn n(self) -> int {
        self.clients@.len() as int
    }

    /// The poll cursor stays inside the client list, and every client
    /// has a hand-back queue.
    pub open spec fn wf(self) -> bool {
        self.n() > 0 && self.next_index < self.n() && self.finished@.len() == self.clients@.len()
    }

    /// True when client `i` has a pending request.
    pub open spec fn ready(self, i: int) -> bool {
        self.clients@[i]@.len() > 0
    }

    /// The position `k` steps past the poll cursor, in cyclic order.
    pub open spec fn spec_slot(self, k: int) -> int {
        if self.next_index + k < self.n() {
            self.next_index + k
        } else {
            self.next_index + k - self.n()
        }
    }

    /// The client the round-robin scan settles on, starting `k` steps
    /// after the poll cursor: the first one, in cyclic order, with a
    /// pending request.
    pub open spec fn spec_scan(self, k: int) -> Option<int>
        decreases self.n() - k,
    {
        if !(0 <= k < self.n()) {
            None
        } else {
            let i = self.spec_slot(k);
            if self.ready(i) {
                Some(i)
            } else {
                self.spec_scan(k + 1)
            }
        }
    }

    /// A mux over `n` clients, none of them pending.
    pub fn new(n: usize) -> (m: UartMux)
        requires
            n > 0,
        ensures
            m.n() == n,
            m.next_index == 0,
            forall|i: int| 0 <= i < n ==> !m.ready(i),
            forall|i: int| 0 <= i < n ==> m.finished@[i]@.len() == 0,
            m.wf(),
    {
        let mut clients: Vec<Vec<TxRequest>> = Vec::new();
        let mut finished: Vec<Vec<TxRequest>> = Vec::new();
        let mut k: usize = 0;
        while k < n
            invariant
                k <= n,
                clients@.len() == k,
                finished@.len() == k,
                forall|i: int| 0 <= i < k ==> clients@[i]@.len() == 0,
                forall|i: int| 0 <= i < k ==> finished@[i]@.len() == 0,
            decreases n - k,
        {
            clients.push(Vec::new());
            finished.push(Vec::new());
            k = k + 1;
        }
        UartMux { clients, finished, next_index: 0 }
    }

    /// Queue a transmission for one client; it leaves after everything the
    /// client queued before it.
    pub fn queue_tx(&mut self, client: usize, req: TxRequest)
        requires
            client < old(self).n(),
        ensures
            final(self).n() == old(self).n(),
            final(self).next_index == old(self).next_index,
            final(self).clients@[client as int]@ == old(self).clients@[client as int]@.push(req),
            final(self).finished == old(self).finished,
            forall|i: int|
                0 <= i < old(self).n() && i != client ==> final(self).clients@[i]
                    == old(self).clients@[i],
    {
        let mut q = self.clients.remove(client);
        q.push(req);
        self.clients.insert(client, q);
        proof {
            assert(self.clients@[client as int]@ =~= old(self).clients@[
                client as int
            ]@.push(req));
            assert forall|i: int| 0 <= i < old(self).n() && i != client implies self.clients@[i]
                == old(self).clients@[i] by {}
        }
    }

    /// True when client `client` has a pending request; free of side
    /// effects, so the scheduler may poll it repeatedly.
    pub fn has_tx_request(&self, client: usize) -> (r: bool)
        requires
            client < self.n(),
        ensures
            r == self.ready(client as int),
    {
        self.clients[client].len() > 0
    }

    /// Poll the clients round robin from the cursor and take the first
    /// pending request; the cursor moves just past the served client, so
    /// a client that keeps the peripheral busy cannot starve the others.
    pub fn get_tx(&mut self) -> (r: Option<(usize, TxRequest)>)
        requires
            old(self).wf(),
        ensures
            final(self).wf(),
            final(self).n() == old(self).n(),
            match old(self).spec_scan(0) {
                None => { &&& r is None &&& *final(self) == *old(self) },
                Some(i) => {
                    &&& (r matches Some(pair) && pair.0 == i && pair.1 == old(self).clients@[i]@[0])
                    &&& final(self).finished == old(self).finished
                    &&& final(self).clients@[i]@ == old(self).clients@[i]@.drop_first()
                    &&& forall|j: int|
                        0 <= j < old(self).n() && j != i ==> final(self).clients@[j]
                            == old(self).clients@[j]
                    &&& final(self).next_index == (if i + 1 < old(self).n() {
                        i + 1
                    } else {
                        0
                    })
                },
            },
    {
        let n = self.clients.len();
        let mut k: usize = 0;
        while k < n
            invariant
                self.wf(),
                *self == *old(self),
                n == self.n(),
                k <= n,
                old(self).spec_scan(0) == self.spec_scan(k as int),
            decreases n - k,
        {
            let i = if k < n - self.next_index {
                self.next_index + k
            } else {
                k - (n - self.next_index)
            };
            proof {
                assert(i == self.spec_slot(k as int));
            }
            if self.clients[i].len() > 0 {
                let mut q = self.clients.remove(i);
                let req = q.remove(0);
                proof {
                    assert(q@ =~= old(self).clients@[i as int]@.drop_first());
                }
                self.clients.insert(i, q);
                self.next_index = if i + 1 < n {
                    i + 1
                } else {
                    0
                };
                proof {
                    assert(final(self).clients@[i as int]@ =~= old(self).clients@[
                        i as int
                    ]@.drop_first());
                }
                return Some((i, req));
            }
            k = k + 1;
        }
        None
    }
}

impl UartMux {
    /// Hand a completed request back to its owning client; it waits in
    /// the client's hand-back queue until collected.  An out-of-range
    /// owner drops the request.
    pub fn hand_back(&mut self, client: usize, req: TxRequest)
        ensures
            final(self).clients == old(self).clients,
            final(self).next_index == old(self).next_index,
            final(self).finished@.len() == old(self).finished@.len(),
            client < old(self).finished@.len() ==> final(self).finished@[client as int]@ == old(
                self,
            ).finished@[client as int]@.push(req),
            forall|i: int|
                0 <= i < old(self).finished@.len() && i != client ==> final(self).finished@[i]
                    == old(self).finished@[i],
            client >= old(self).finished@.len() ==> final(self).finished == old(self).finished,
    {
        if client < self.finished.len() {
            let mut q = self.finished.remove(client);
            q.push(req);
            self.finished.insert(client, q);
            proof {
                assert(self.finished@[client as int]@ =~= old(self).finished@[
                    client as int
                ]@.push(req));
                assert forall|i: int|
                    0 <= i < old(self).finished@.len() && i != client implies self.finished@[i]
                    == old(self).finished@[i] by {}
            }
        }
    }

    /// Collect the completed requests handed back to one client, oldest
    /// first.
    pub fn take_finished(&mut self, client: usize) -> (r: Vec<TxRequest>)
        requires
            client < old(self).finished@.len(),
        ensures
            final(self).clients == old(self).clients,
            final(self).next_index == old(self).next_index,
            final(self).finished@.len() == old(self).finished@.len(),
            r == old(self).finished@[client as int],
            final(self).finished@[client as int]@.len() == 0,
            forall|i: int|
                0 <= i < old(self).finished@.len() && i != client ==> final(self).finished@[i]
                    == old(self).finished@[i],
    {
        let q = self.finished.remove(client);
        self.finished.insert(client, Vec::new());
        proof {
            assert forall|i: int|
                0 <= i < old(self).finished@.len() && i != client implies self.finished@[i]
                == old(self).finished@[i] by {}
        }
        q
    }
}

/// UART mux fairness: when two clients are both always ready, the
/// round-robin scan serves the cursor's client and moves the cursor, so
/// two successive polls serve the two clients alternately.
pub proof fn lemma_mux_two_ready_alternates(m1: UartMux, m2: UartMux)
    requires
        m1.wf(),
        m1.n() == 2,
        m1.ready(0),
        m1.ready(1),
        m2.wf(),
        m2.n() == 2,
        m2.ready(0),
        m2.ready(1),
        m2.next_index == (if m1.next_index + 1 < 2 {
            m1.next_index + 1
        } else {
            0
        }),
    ensures
        m1.spec_scan(0) == Some(m1.next_index as int),
        m2.spec_scan(0) == Some(m2.next_index as int),
        m1.spec_scan(0) != m2.spec_scan(0),
{
    assert(m1.spec_slot(0) == m1.next_index as int);
    assert(m2.spec_slot(0) == m2.next_index as int);
}

/// A minimal mux client used to exercise the shared peripheral: it owns
/// one request and re-queues it each time the mux hands it back.
pub struct TestClient {
    /// How many transmissions have completed.
    pub state: usize,
    /// The request this client hands out when polled.
    pub tx: Option<TxRequest>,
}

/// The greeting the test client transmits.
pub open spec fn spec_test_message() -> Seq<u8> {
    seq![72u8, 101u8, 108u8, 108u8, 111u8, 44u8, 32u8, 87u8, 111u8, 114u8, 108u8, 100u8, 33u8, 13u8, 10u8]
}

impl TestClient {
    /// Wrap a caller-provided request, arming it with the greeting.
    pub fn new(space: TxRequest) -> (c: TestClient)
        ensures
            c.state == 0,
            (c.tx matches Some(t) && t.buf@ == spec_test_message() && t.index == 0),
    {
        let mut space = space;
        let mut msg: Vec<u8> = Vec::new();
        msg.push(72);
        msg.push(101);
        msg.push(108);
        msg.push(108);
        msg.push(111);
        msg.push(44);
        msg.push(32);
        msg.push(87);
        msg.push(111);
        msg.push(114);
        msg.push(108);
        msg.push(100);
        msg.push(33);
        msg.push(13);
        msg.push(10);
        proof {
            assert(msg@ =~= spec_test_message());
        }
        space.set(msg);
        TestClient { state: 0, tx: Some(space) }
    }

    /// This client always has something to send while it holds its request.
    pub fn has_tx_request(&self) -> (r: bool)
        ensures
            r == (self.tx is Some),
    {
        self.tx.is_some()
    }

    /// Hand the request to the mux.
    pub fn get_tx_request(&mut self) -> (r: Option<TxRequest>)
        ensures
            r == old(self).tx,
            final(self).tx is None,
            final(self).state == old(self).state,
    {
        self.tx.take()
    }

    /// Take the completed request back, rewound for the next round.
    pub fn tx_request_complete(&mut self, returned_buffer: TxRequest)
        ensures
            (final(self).tx matches Some(t) && t.buf@ == returned_buffer.buf@ && t.index == 0),
            final(self).state == old(self).state + 1 || final(self).state == old(self).state,
    {
        let mut returned_buffer = returned_buffer;
        returned_buffer.index = 0;
        if self.state < usize::MAX {
            self.state = self.state + 1;
        }
        self.tx = Some(returned_buffer);
    }
}

} // verus!
