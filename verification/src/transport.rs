//! [`FakeTransport`]: a deterministic in-memory transport for exercising exchanges.
//!
//! `enqueue_response` scripts a reply that is delivered when the next application request
//! (a frame starting with `STX`) is sent; control frames (`ACK`/`NAK`) are only recorded.
//! This scripts "ACK + result", "NAK then ACK + result", progress / receipt streams,
//! mid-exchange drops, or no reply at all.
use vstd::prelude::*;
use crate::error::Ecr17Error;

verus! {

/// The byte contents of a list of frames.
pub open spec fn frames(v: Seq<Vec<u8>>) -> Seq<Seq<u8>> {
    v.map_values(|f: Vec<u8>| f@)
}

/// A frame is an application request when it starts with `STX`.
pub open spec fn is_application_request(f: Seq<u8>) -> bool {
    f.len() > 0 && f[0] == 0x02
}

/// How many of `fs` are application requests.
pub open spec fn count_application_requests(fs: Seq<Seq<u8>>) -> nat
    decreases fs.len(),
{
    if fs.len() == 0 {
        0
    } else {
        count_application_requests(fs.drop_last()) + if is_application_request(fs.last()) { 1nat } else { 0nat }
    }
}

/// The plain-value state of a [`FakeTransport`].
pub struct FakeTransportView {
    pub connected: bool,
    pub disconnect_on_request: bool,
    pub sent: Seq<Seq<u8>>,
    pub responses: Seq<Seq<u8>>,
    pub pending: Seq<Seq<u8>>,
}

/// In-memory transport with scripted replies.
#[derive(Debug)]
pub struct FakeTransport {
    connected: bool,
    disconnect_on_request: bool,
    sent: Vec<Vec<u8>>,
    responses: Vec<Vec<u8>>,
    pending: Vec<Vec<u8>>,
}

impl View for FakeTransport {
    type V = FakeTransportView;

    closed spec fn view(&self) -> FakeTransportView {
        FakeTransportView {
            connected: self.connected,
            disconnect_on_request: self.disconnect_on_request,
            sent: frames(self.sent@),
            responses: frames(self.responses@),
            pending: frames(self.pending@),
        }
    }
}

impl FakeTransport {
    /// Start of an application frame.
    pub const STX: u8 = 0x02;

    /// A connected fake with nothing scripted.
    pub fn new() -> (t: Self)
        ensures
            t@ == (FakeTransportView {
                connected: true,
                disconnect_on_request: false,
                sent: Seq::empty(),
                responses: Seq::empty(),
                pending: Seq::empty(),
            }),
    {
        let t = FakeTransport {
            connected: true,
            disconnect_on_request: false,
            sent: Vec::new(),
            responses: Vec::new(),
            pending: Vec::new(),
        };
        proof {
            assert(frames(t.sent@) =~= Seq::empty());
            assert(frames(t.responses@) =~= Seq::empty());
            assert(frames(t.pending@) =~= Seq::empty());
        }
        t
    }

    /// Queues a scripted terminal reply, delivered on the next application request.
    pub fn enqueue_response(&mut self, bytes: Vec<u8>)
        ensures
            final(self)@ == (FakeTransportView { responses: old(self)@.responses.push(bytes@), ..old(self)@ }),
    {
        self.responses.push(bytes);
        proof {
            assert(frames(self.responses@) =~= frames(old(self).responses@).push(bytes@));
        }
    }

    /// Makes the next application request drop the connection instead of replying.
    pub fn disconnect_on_next_request(&mut self)
        ensures
            final(self)@ == (FakeTransportView { disconnect_on_request: true, ..old(self)@ }),
    {
        self.disconnect_on_request = true;
    }

    /// Simulates a successful reconnect: clears the drop flag and marks connected.
    pub fn rearm(&mut self)
        ensures
            final(self)@ == (FakeTransportView { disconnect_on_request: false, connected: true, ..old(self)@ }),
    {
        self.disconnect_on_request = false;
        self.connected = true;
    }

    /// All frames sent so far, in order.
    pub fn sent_frames(&self) -> (r: &[Vec<u8>])
        ensures
            frames(r@) == self@.sent,
    {
        self.sent.as_slice()
    }

    /// How many application requests (frames starting with `STX`) were sent.
    pub fn application_request_count(&self) -> (n: usize)
        ensures
            n == count_application_requests(self@.sent),
    {
        let ghost fs = frames(self.sent@);
        let mut n: usize = 0;
        let mut i: usize = 0;
        while i < self.sent.len()
            invariant
                0 <= i <= self.sent@.len(),
                fs == frames(self.sent@),
                n == count_application_requests(fs.subrange(0, i as int)),
                n <= i,
            decreases self.sent@.len() - i,
        {
            proof {
                assert(fs.subrange(0, i + 1).drop_last() =~= fs.subrange(0, i as int));
                assert(fs[i as int] == self.sent@[i as int]@);
            }
            let f = &self.sent[i];
            if f.len() > 0 && f[0] == Self::STX {
                n = n + 1;
            }
            i = i + 1;
        }
        proof {
            assert(fs.subrange(0, i as int) =~= fs);
        }
        n
    }

    /// Connects (a reconnect also clears a scripted drop).
    pub fn connect(&mut self) -> (r: Result<(), Ecr17Error>)
        ensures
            r is Ok,
            final(self)@ == (FakeTransportView { connected: true, disconnect_on_request: false, ..old(self)@ }),
    {
        self.connected = true;
        self.disconnect_on_request = false;
        Ok(())
    }

    /// Closes the connection.
    pub fn disconnect(&mut self)
        ensures
            final(self)@ == (FakeTransportView { connected: false, ..old(self)@ }),
    {
        self.connected = false;
    }

    /// Whether the fake is connected.
    pub fn is_connected(&self) -> (b: bool)
        ensures
            b == self@.connected,
    {
        self.connected
    }

    /// Sends a frame: refused when disconnected; otherwise recorded, and an application
    /// request either drops the connection (when a drop is scripted) or releases the next
    /// scripted reply.
    pub fn send(&mut self, bytes: &[u8]) -> (r: Result<(), Ecr17Error>)
        ensures
            !old(self)@.connected ==> (r matches Err(Ecr17Error::Disconnected) && final(self)@ == old(self)@),
            old(self)@.connected ==> r is Ok && final(self)@.sent == old(self)@.sent.push(bytes@)
                && if !is_application_request(bytes@) {
                    final(self)@ == (FakeTransportView { sent: final(self)@.sent, ..old(self)@ })
                } else if old(self)@.disconnect_on_request {
                    final(self)@ == (FakeTransportView { sent: final(self)@.sent, connected: false, ..old(self)@ })
                } else if old(self)@.responses.len() > 0 {
                    final(self)@ == (FakeTransportView {
                        sent: final(self)@.sent,
                        responses: old(self)@.responses.drop_first(),
                        pending: old(self)@.pending.push(old(self)@.responses[0]),
                        ..old(self)@
                    })
                } else {
                    final(self)@ == (FakeTransportView { sent: final(self)@.sent, ..old(self)@ })
                },
    {
        if !self.connected {
            return Err(Ecr17Error::Disconnected);
        }
        self.sent.push(vstd::slice::slice_to_vec(bytes));
        proof {
            assert(frames(self.sent@) =~= frames(old(self).sent@).push(bytes@));
        }
        let is_application_request = bytes.len() > 0 && bytes[0] == Self::STX;
        if is_application_request {
            if self.disconnect_on_request {
                self.connected = false;
            } else if self.responses.len() > 0 {
                let next = self.responses.remove(0);
                self.pending.push(next);
                proof {
                    assert(frames(self.responses@) =~= frames(old(self).responses@).drop_first());
                    assert(frames(self.pending@) =~= frames(old(self).pending@).push(frames(old(self).responses@)[0]));
                }
            }
        }
        Ok(())
    }

    /// Takes the next delivered chunk: the next released reply, else `Disconnected` when
    /// the connection is down, else nothing yet (a real receive would block until a timeout).
    pub fn try_recv(&mut self) -> (r: Option<Result<Vec<u8>, Ecr17Error>>)
        ensures
            old(self)@.pending.len() > 0 ==> (r matches Some(Ok(b)) && b@ == old(self)@.pending[0]
                && final(self)@ == (FakeTransportView { pending: old(self)@.pending.drop_first(), ..old(self)@ })),
            old(self)@.pending.len() == 0 && !old(self)@.connected ==> (r matches Some(Err(Ecr17Error::Disconnected))
                && final(self)@ == old(self)@),
            old(self)@.pending.len() == 0 && old(self)@.connected ==> r is None && final(self)@ == old(self)@,
    {
        if self.pending.len() > 0 {
            let b = self.pending.remove(0);
            proof {
                assert(frames(self.pending@) =~= frames(old(self).pending@).drop_first());
            }
            return Some(Ok(b));
        }
        if !self.connected {
            return Some(Err(Ecr17Error::Disconnected));
        }
        None
    }
}

} // verus!
