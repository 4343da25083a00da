//! The two halves of a running engine.
//!
//! [`NativeEngine`] is the half the control surface holds. It decides what
//! each command means in the current state and tells its caller what to ask
//! of the audio backend; it performs no backend work itself. [`Renderer`] is
//! the half the backend's callback holds: it empties the queue and renders
//! the next block.

use crate::channel::total;
use crate::channel::Channel;
use crate::message::ChannelParams;
use crate::message::Message;
use crate::processor::acceptable;
use crate::processor::applied_all;
use crate::processor::produced;
use crate::processor::Processor;
use crate::processor::Step;
use crate::transport::open;
use crate::transport::poll;
use crate::transport::Polled;
use crate::transport::publish;
use crate::transport::published;
use crate::transport::send;
use std::sync::atomic::AtomicU32;
use std::sync::mpsc::Receiver;
use std::sync::mpsc::SyncSender;
use std::sync::Arc;
use vstd::prelude::*;

verus! {

/// How many messages the queue holds, and how many the render side takes
/// from it before a block at most.
pub const QUEUE_CAPACITY: usize = 16;

/// The sample rate reported while no block has been rendered yet, in hertz.
pub const DEFAULT_SAMPLE_RATE: u32 = 48000;

/// Where the engine stands between the control surface and the backend.
#[derive(Clone, Copy, Debug, PartialEq, Eq, Structural)]
pub enum EngineState {
    /// The stream is inactive.
    Stopped,
    /// The backend has been asked to activate the stream.
    Starting,
    /// The stream is active and the render callback is being called.
    Running,
    /// The backend has been asked to deactivate the stream.
    Stopping,
}

impl EngineState {
    /// `run` starts a stopped engine and changes nothing else.
    pub open spec fn after_run(self) -> EngineState {
        if self is Stopped {
            EngineState::Starting
        } else {
            self
        }
    }

    /// `stop` winds a running engine down and changes nothing else.
    pub open spec fn after_stop(self) -> EngineState {
        if self is Running {
            EngineState::Stopping
        } else {
            self
        }
    }

    /// The backend's answer to a start: the engine runs if the stream was
    /// activated and is stopped again if it was not.
    pub open spec fn after_started(self, activated: bool) -> EngineState {
        if self is Starting {
            if activated {
                EngineState::Running
            } else {
                EngineState::Stopped
            }
        } else {
            self
        }
    }

    /// The backend's answer to a stop.
    pub open spec fn after_stopped(self) -> EngineState {
        if self is Stopping {
            EngineState::Stopped
        } else {
            self
        }
    }
}

/// Asking twice is asking once: a second `run` or `stop` in a row changes
/// nothing, and neither does an answer from the backend that was not asked
/// for.
pub proof fn lemma_commands_are_idempotent(state: EngineState, activated: bool)
    ensures
        state.after_run().after_run() == state.after_run(),
        state.after_stop().after_stop() == state.after_stop(),
        state.after_started(activated).after_started(activated) == state.after_started(
            activated,
        ),
        state.after_stopped().after_stopped() == state.after_stopped(),
{
}

/// The sample rate to report for a published value: zero stands for "none
/// published yet".
pub open spec fn spec_rate_or_default(published: u32) -> u32 {
    if published == 0 {
        DEFAULT_SAMPLE_RATE
    } else {
        published
    }
}

/// The sample rate to report for a published value.
pub fn rate_or_default(published: u32) -> (rate: u32)
    ensures
        rate == spec_rate_or_default(published),
{
    if published == 0 {
        DEFAULT_SAMPLE_RATE
    } else {
        published
    }
}

/// What became of a signalled message.
#[derive(Clone, Copy, Debug, PartialEq, Eq, Structural)]
pub enum Delivery {
    /// It is in the queue.
    Delivered,
    /// The engine is not running; the message was discarded.
    Dropped,
    /// The render side is gone; the message was discarded and the engine is
    /// now stopped.
    Disconnected,
}

/// What the caller has to ask of the audio backend after a command.
#[derive(Debug)]
pub enum Request {
    /// Nothing.
    Nothing,
    /// Open a stream and drive it with this renderer.
    Open(Renderer),
    /// Activate the stream that is already open.
    Resume,
    /// Deactivate the stream and keep it open.
    Suspend,
}

/// The render half: the receiving end of the queue, the cell the sample rate
/// is published in, and the processor.
#[derive(Debug)]
pub struct Renderer {
    port: Receiver<Message>,
    rate: Arc<AtomicU32>,
    processor: Processor,
}

impl View for Renderer {
    type V = Seq<Channel>;

    closed spec fn view(&self) -> Seq<Channel> {
        self.processor@
    }
}

impl Renderer {
    /// The channels, in index order.
    pub fn channels(&self) -> (r: &[Channel])
        ensures
            r@ == self@,
    {
        self.processor.channels()
    }

    /// Renders the next block, after taking what waits in the queue.
    ///
    /// Up to [`QUEUE_CAPACITY`] messages are taken, oldest first, and applied
    /// in that order; a message that cannot be applied is passed over. The
    /// sample rate is then published and the block rendered. If the control
    /// surface turns out to be gone the result is `None` and no block is
    /// rendered. Which messages are found is not for this function to say:
    /// the contract holds for whatever the queue gave.
    pub fn process<K: Fn(&ChannelParams, u32, u32) -> u32>(
        &mut self,
        n_channels: usize,
        n_samples: usize,
        rate: u32,
        kernel: &K,
    ) -> (out: Option<&[u32]>)
        requires
            total(kernel),
            n_channels * n_samples <= usize::MAX,
        ensures
            exists|taken: Seq<Message>|
                {
                    &&& taken.len() <= QUEUE_CAPACITY
                    &&& forall|i: int| 0 <= i < taken.len() ==> acceptable(#[trigger] taken[i])
                    &&& match out {
                        Some(block) => produced(
                            kernel,
                            applied_all(old(self)@, taken),
                            n_channels,
                            n_samples,
                            rate,
                            block@,
                            final(self)@,
                        ),
                        None => final(self)@ == applied_all(old(self)@, taken),
                    }
                },
    {
        let ghost mut taken: Seq<Message> = Seq::empty();
        let mut budget: usize = QUEUE_CAPACITY;
        while budget > 0
            invariant
                budget <= QUEUE_CAPACITY,
                taken.len() <= QUEUE_CAPACITY - budget,
                forall|i: int| 0 <= i < taken.len() ==> acceptable(#[trigger] taken[i]),
                self.processor@ == applied_all(old(self)@, taken),
            decreases budget,
        {
            let found = poll(&self.port);
            match self.processor.absorb(found) {
                Step::More => {
                    proof {
                        if let Polled::Message(message) = found {
                            if acceptable(message) {
                                let longer = taken.push(message);
                                assert(longer.drop_last() == taken);
                                assert(longer.last() == message);
                                taken = longer;
                            }
                        }
                    }
                },
                Step::Ready => {
                    break ;
                },
                Step::Closed => {
                    return None;
                },
            }
            budget = budget - 1;
        }
        publish(&self.rate, rate);
        let out = self.processor.process(n_channels, n_samples, rate, kernel);
        Some(out)
    }
}

/// The control half: the state of the stream, the sending end of the queue,
/// and the cell the render side publishes the sample rate in.
///
/// While the engine is not stopped it holds a queue. A stopped engine may
/// hold one too: stopping deactivates the stream and keeps the renderer and
/// its channels, so that the next `run` resumes them. The cell comes into
/// being with the first stream and stays for the life of the engine: every
/// renderer the engine hands out publishes into it.
#[derive(Debug)]
pub struct NativeEngine {
    state: EngineState,
    port: Option<SyncSender<Message>>,
    rate: Option<Arc<AtomicU32>>,
}

impl NativeEngine {
    #[verifier::type_invariant]
    spec fn well_formed(self) -> bool {
        &&& !(self.state is Stopped) ==> self.port is Some
        &&& self.port is Some ==> self.rate is Some
    }

    /// Where the engine stands.
    pub closed spec fn spec_state(&self) -> EngineState {
        self.state
    }

    /// The engine holds the sending end of a queue.
    pub closed spec fn spec_connected(&self) -> bool {
        self.port is Some
    }

    /// A stream has been asked for at some time in the life of the engine, so
    /// that a render side may have published a sample rate.
    pub closed spec fn spec_established(&self) -> bool {
        self.rate is Some
    }

    /// A stopped engine without a queue, for which no stream has been
    /// established yet.
    pub fn new() -> (r: NativeEngine)
        ensures
            r.state() is Stopped,
            !r.connected(),
            !r.established(),
    {
        NativeEngine { state: EngineState::Stopped, port: None, rate: None }
    }

    /// Where the engine stands.
    #[verifier::when_used_as_spec(spec_state)]
    pub fn state(&self) -> (r: EngineState)
        ensures
            r == self.state(),
    {
        self.state
    }

    /// Whether the engine holds a queue, which it does at least while it is
    /// not stopped.
    #[verifier::when_used_as_spec(spec_connected)]
    pub fn connected(&self) -> (r: bool)
        ensures
            r == self.connected(),
            !(self.state() is Stopped) ==> r,
    {
        proof {
            use_type_invariant(self);
        }
        self.port.is_some()
    }

    /// Whether a stream has ever been asked for, which is so at least while
    /// the engine holds a queue.
    #[verifier::when_used_as_spec(spec_established)]
    pub fn established(&self) -> (r: bool)
        ensures
            r == self.established(),
            self.connected() ==> r,
    {
        proof {
            use_type_invariant(self);
        }
        self.rate.is_some()
    }

    /// Whether the stream is active.
    pub fn is_running(&self) -> (r: bool)
        ensures
            r == (self.state() is Running),
    {
        match self.state {
            EngineState::Running => true,
            _ => false,
        }
    }

    /// The sample rate to show, in hertz.
    ///
    /// Before any stream has been established this is
    /// [`DEFAULT_SAMPLE_RATE`]. Afterwards it is the rate of the last block
    /// rendered, or the default again while no block has been rendered. That
    /// rate is read from a cell which the render side writes on its own
    /// thread, so of an established engine only this holds of every outcome:
    /// the rate is not zero.
    pub fn sample_rate(&self) -> (r: u32)
        ensures
            !self.established() ==> r == DEFAULT_SAMPLE_RATE,
            r != 0,
    {
        match &self.rate {
            None => DEFAULT_SAMPLE_RATE,
            Some(cell) => rate_or_default(published(cell)),
        }
    }

    /// Hands a message to the render side.
    ///
    /// Only a running engine delivers; in every other state the message is
    /// discarded and nothing changes. A running engine puts the message into
    /// the queue, waiting while the queue is full. Whether the render side is
    /// still there is found out by trying: see [`NativeEngine::settle`].
    pub fn signal(&mut self, message: Message) -> (r: Delivery)
        ensures
            final(self).established() == old(self).established(),
            !(old(self).state() is Running) ==> {
                &&& r == Delivery::Dropped
                &&& final(self).state() == old(self).state()
                &&& final(self).connected() == old(self).connected()
            },
            old(self).state() is Running ==> {
                ||| {
                    &&& r == Delivery::Delivered
                    &&& final(self).state() is Running
                    &&& final(self).connected()
                }
                ||| {
                    &&& r == Delivery::Disconnected
                    &&& final(self).state() is Stopped
                    &&& !final(self).connected()
                }
            },
    {
        let delivered = match (&self.state, &self.port) {
            (EngineState::Running, Some(port)) => send(port, message),
            _ => false,
        };
        self.settle(delivered)
    }

    /// Takes note of how an attempt to deliver ended.
    ///
    /// An engine that is not running made no attempt and discarded the
    /// message. For a running engine a failed attempt means that the render
    /// side is gone: the engine lets go of the queue and is stopped.
    pub fn settle(&mut self, delivered: bool) -> (r: Delivery)
        ensures
            r == (if !(old(self).state() is Running) {
                Delivery::Dropped
            } else if delivered {
                Delivery::Delivered
            } else {
                Delivery::Disconnected
            }),
            final(self).state() == (if r == Delivery::Disconnected {
                EngineState::Stopped
            } else {
                old(self).state()
            }),
            final(self).connected() == (r != Delivery::Disconnected && old(self).connected()),
            final(self).established() == old(self).established(),
    {
        proof {
            use_type_invariant(&*self);
        }
        match self.state {
            EngineState::Running => {
                if delivered {
                    Delivery::Delivered
                } else {
                    self.state = EngineState::Stopped;
                    self.port = None;
                    Delivery::Disconnected
                }
            },
            _ => Delivery::Dropped,
        }
    }

    /// Starts a stopped engine; in every other state nothing happens.
    ///
    /// An engine without a queue makes one and asks for a stream to be
    /// opened, handing out the renderer that is to drive it, which has no
    /// channels yet. An engine that holds a queue asks for its stream to be
    /// resumed. Either way a stream is established from then on. The answer
    /// is reported with [`NativeEngine::started`].
    pub fn run(&mut self) -> (r: Request)
        ensures
            final(self).state() == old(self).state().after_run(),
            final(self).established() == (old(self).established() || old(self).state() is Stopped),
            old(self).state() is Stopped ==> final(self).connected(),
            old(self).state() is Stopped && old(self).connected() ==> r is Resume,
            old(self).state() is Stopped && !old(self).connected() ==> {
                &&& r is Open
                &&& r->Open_0@ == Seq::<Channel>::empty()
            },
            !(old(self).state() is Stopped) ==> {
                &&& r is Nothing
                &&& final(self).connected() == old(self).connected()
            },
    {
        proof {
            use_type_invariant(&*self);
        }
        match self.state {
            EngineState::Stopped => {
                if self.port.is_some() {
                    self.state = EngineState::Starting;
                    Request::Resume
                } else {
                    let cell = match &self.rate {
                        Some(cell) => cell.clone(),
                        None => Arc::new(AtomicU32::new(0)),
                    };
                    let (sender, receiver) = open(QUEUE_CAPACITY);
                    let renderer = Renderer {
                        port: receiver,
                        rate: cell.clone(),
                        processor: Processor::new(),
                    };
                    self.rate = Some(cell);
                    self.port = Some(sender);
                    self.state = EngineState::Starting;
                    Request::Open(renderer)
                }
            },
            _ => Request::Nothing,
        }
    }

    /// Takes note of the backend's answer to a start. If the stream could not
    /// be activated the engine is stopped again and lets go of the queue, so
    /// that the next `run` starts afresh.
    pub fn started(&mut self, activated: bool)
        ensures
            final(self).state() == old(self).state().after_started(activated),
            final(self).connected() == {
                &&& old(self).connected()
                &&& !(old(self).state() is Starting && !activated)
            },
            final(self).established() == old(self).established(),
    {
        proof {
            use_type_invariant(&*self);
        }
        match self.state {
            EngineState::Starting => {
                if activated {
                    self.state = EngineState::Running;
                } else {
                    self.state = EngineState::Stopped;
                    self.port = None;
                }
            },
            _ => {},
        }
    }

    /// Winds a running engine down; in every other state nothing happens.
    /// The queue, the renderer and its channels are kept.
    pub fn stop(&mut self) -> (r: Request)
        ensures
            final(self).state() == old(self).state().after_stop(),
            final(self).connected() == old(self).connected(),
            final(self).established() == old(self).established(),
            old(self).state() is Running ==> r is Suspend,
            !(old(self).state() is Running) ==> r is Nothing,
    {
        proof {
            use_type_invariant(&*self);
        }
        match self.state {
            EngineState::Running => {
                self.state = EngineState::Stopping;
                Request::Suspend
            },
            _ => Request::Nothing,
        }
    }

    /// Takes note that the backend has deactivated the stream.
    pub fn stopped(&mut self)
        ensures
            final(self).state() == old(self).state().after_stopped(),
            final(self).connected() == old(self).connected(),
            final(self).established() == old(self).established(),
    {
        proof {
            use_type_invariant(&*self);
        }
        match self.state {
            EngineState::Stopping => {
                self.state = EngineState::Stopped;
            },
            _ => {},
        }
    }
}

impl Default for NativeEngine {
    fn default() -> (r: Self)
        ensures
            r.state() is Stopped,
            !r.connected(),
            !r.established(),
    {
        NativeEngine::new()
    }
}

} // verus!
