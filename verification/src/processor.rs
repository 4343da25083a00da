//! The render-side engine: an ordered list of channels and the scratch block
//! they are synthesised into.

use crate::channel::deterministic;
use crate::channel::rendered;
use crate::channel::tick;
use crate::channel::total;
use crate::channel::Channel;
use crate::message::ChannelParams;
use crate::message::Message;
use crate::transport::Polled;
use crate::wire::decode;
use crate::wire::parsed;
use crate::wire::DecodeError;
use vstd::prelude::*;

verus! {

/// The channel list brought to `count` entries: channels that exist are kept,
/// missing ones are created with the default configuration.
pub open spec fn resized(channels: Seq<Channel>, count: nat) -> Seq<Channel> {
    Seq::new(
        count,
        |k: int|
            if k < channels.len() {
                channels[k]
            } else {
                Channel::fresh(ChannelParams::spec_default())
            },
    )
}

/// Every channel moved `count` samples on.
pub open spec fn advanced(channels: Seq<Channel>, count: int) -> Seq<Channel> {
    Seq::new(channels.len(), |k: int| channels[k].advanced(count))
}

/// The channel list after one message.
///
/// `SetParams(i, params)` makes sure that index `i` exists, creating default
/// channels below it where needed, and puts a channel there that plays
/// `params` from its first sample. `Reset` rewinds every channel and keeps
/// each configuration.
pub open spec fn applied(channels: Seq<Channel>, message: Message) -> Seq<Channel> {
    match message {
        Message::SetParams(i, params) => {
            let count = if i < channels.len() {
                channels.len()
            } else {
                (i + 1) as nat
            };
            resized(channels, count).update(i as int, Channel::fresh(params))
        },
        Message::Reset => Seq::new(channels.len(), |k: int| Channel::fresh(channels[k].params)),
    }
}

/// The channel list after a run of messages, applied first to last.
pub open spec fn applied_all(channels: Seq<Channel>, messages: Seq<Message>) -> Seq<Channel>
    decreases messages.len(),
{
    if messages.len() == 0 {
        channels
    } else {
        applied(applied_all(channels, messages.drop_last()), messages.last())
    }
}

/// A message that can be applied: the list must be able to end at the index
/// it addresses.
pub open spec fn acceptable(message: Message) -> bool {
    message matches Message::SetParams(i, _) ==> i < usize::MAX
}

/// The channel list after a look into the queue: a message found there is
/// applied if it can be, and is passed over if it cannot.
pub open spec fn absorbed(channels: Seq<Channel>, found: Polled) -> Seq<Channel> {
    match found {
        Polled::Message(message) => if acceptable(message) {
            applied(channels, message)
        } else {
            channels
        },
        Polled::Empty => channels,
        Polled::Disconnected => channels,
    }
}

/// The channel list after bytes have arrived: the message they start with is
/// applied if it can be; bytes that are no message change nothing.
pub open spec fn received(channels: Seq<Channel>, bytes: Seq<u8>) -> Seq<Channel> {
    match parsed(bytes) {
        Ok(message) => absorbed(channels, Polled::Message(message)),
        Err(_) => channels,
    }
}

/// What to do after a look into the queue.
#[derive(Clone, Copy, Debug, PartialEq, Eq, Structural)]
pub enum Step {
    /// A message was taken; look again.
    More,
    /// The queue is empty; render the block.
    Ready,
    /// The control surface is gone; render nothing more.
    Closed,
}

impl Step {
    pub open spec fn after(found: Polled) -> Step {
        match found {
            Polled::Message(_) => Step::More,
            Polled::Empty => Step::Ready,
            Polled::Disconnected => Step::Closed,
        }
    }
}

/// One block in planar layout, and the channel list it leaves behind.
///
/// Starting from the list `before`, a request for `n_channels` channels of
/// `n_samples` samples at `rate` first brings the list to `n_channels`
/// entries. `block` then holds one run of `n_samples` samples per channel,
/// channel after channel in index order, each run being what the kernel gives
/// for that channel from where its counter stood. In `after` every channel
/// has moved `n_samples` on.
pub open spec fn produced<K: Fn(&ChannelParams, u32, u32) -> u32>(
    kernel: &K,
    before: Seq<Channel>,
    n_channels: usize,
    n_samples: usize,
    rate: u32,
    block: Seq<u32>,
    after: Seq<Channel>,
) -> bool {
    &&& after.len() == n_channels
    &&& after == advanced(resized(before, n_channels as nat), n_samples as int)
    &&& block.len() == n_channels * n_samples
    &&& forall|k: int|
        0 <= k < n_channels ==> rendered(
            kernel,
            (#[trigger] resized(before, n_channels as nat)[k]).params,
            rate,
            resized(before, n_channels as nat)[k].state.t,
            block.subrange(k * n_samples, k * n_samples + n_samples),
        )
}

/// The channels of an engine and the block they are rendered into.
///
/// The view of a processor is its channel list: the index of a channel is its
/// number, and stays the same from call to call.
#[derive(Debug)]
pub struct Processor {
    channels: Vec<Channel>,
    buffer: Vec<u32>,
}

impl View for Processor {
    type V = Seq<Channel>;

    closed spec fn view(&self) -> Seq<Channel> {
        self.channels@
    }
}

impl Processor {
    /// The scratch block, including what lies beyond the last block returned.
    pub closed spec fn scratch(&self) -> Seq<u32> {
        self.buffer@
    }

    /// A processor without channels.
    pub fn new() -> (r: Processor)
        ensures
            r@.len() == 0,
            r.scratch().len() == 0,
    {
        Processor { channels: Vec::new(), buffer: Vec::new() }
    }

    /// The channels, in index order.
    pub fn channels(&self) -> (r: &[Channel])
        ensures
            r@ == self@,
    {
        self.channels.as_slice()
    }

    /// The length of the scratch block, which never shrinks.
    pub fn scratch_len(&self) -> (r: usize)
        ensures
            r == self.scratch().len(),
    {
        self.buffer.len()
    }

    /// Applies one control message.
    ///
    /// A channel addressed by `SetParams` starts again from its first sample,
    /// also where it existed before: the update replaces the channel as a
    /// whole. The index must leave room for the list to end at it; where a
    /// message comes from outside, [`Processor::absorb`] makes that test.
    pub fn message(&mut self, message: Message)
        requires
            acceptable(message),
        ensures
            final(self)@ == applied(old(self)@, message),
            final(self).scratch() == old(self).scratch(),
    {
        match message {
            Message::SetParams(i, params) => {
                while self.channels.len() <= i
                    invariant
                        i < usize::MAX,
                        old(self)@.len() <= self.channels@.len(),
                        self.channels@.len() <= old(self)@.len() || self.channels@.len() <= i
                            + 1,
                        self.channels@ == resized(old(self)@, self.channels@.len()),
                        self.buffer@ == old(self).buffer@,
                    decreases i + 1 - self.channels@.len(),
                {
                    self.channels.push(Channel::default());
                    assert(self.channels@ =~= resized(old(self)@, self.channels@.len()));
                }
                self.channels[i] = Channel::from(params);
                assert(self.channels@ =~= applied(old(self)@, message));
            },
            Message::Reset => {
                let n: usize = self.channels.len();
                let mut k: usize = 0;
                while k < n
                    invariant
                        k <= n,
                        n == old(self)@.len(),
                        self.channels@.len() == n,
                        forall|j: int|
                            0 <= j < k ==> self.channels@[j] == Channel::fresh(
                                (#[trigger] old(self)@[j]).params,
                            ),
                        forall|j: int| k <= j < n ==> self.channels@[j] == #[trigger] old(self)@[j],
                        self.buffer@ == old(self).buffer@,
                    decreases n - k,
                {
                    self.channels[k].reset();
                    k = k + 1;
                }
                assert(self.channels@ =~= applied(old(self)@, message));
            },
        }
    }

    /// Acts on one look into the queue and says how to go on.
    pub fn absorb(&mut self, found: Polled) -> (step: Step)
        ensures
            final(self)@ == absorbed(old(self)@, found),
            final(self).scratch() == old(self).scratch(),
            step == Step::after(found),
    {
        match found {
            Polled::Message(message) => {
                let fits = match message {
                    Message::SetParams(i, _) => i < usize::MAX,
                    Message::Reset => true,
                };
                if fits {
                    self.message(message);
                }
                Step::More
            },
            Polled::Empty => Step::Ready,
            Polled::Disconnected => Step::Closed,
        }
    }

    /// Takes a message in its byte form.
    ///
    /// Bytes that are no message are reported and discarded: the channels
    /// stay as they are.
    pub fn receive(&mut self, bytes: &[u8]) -> (r: Result<(), DecodeError>)
        ensures
            r == match parsed(bytes@) {
                Ok(_) => Ok::<(), DecodeError>(()),
                Err(e) => Err::<(), DecodeError>(e),
            },
            final(self)@ == received(old(self)@, bytes@),
            final(self).scratch() == old(self).scratch(),
    {
        match decode(bytes) {
            Ok(message) => {
                self.absorb(Polled::Message(message));
                Ok(())
            },
            Err(e) => Err(e),
        }
    }

    /// Produces the next block.
    ///
    /// The channel list is first brought to `n_channels` entries, by dropping
    /// channels from the end or by adding default channels. The block is
    /// planar: channel `k` owns the samples from `k * n_samples` up to
    /// `(k + 1) * n_samples`. The result is the front of the scratch block,
    /// which grows when it must and never shrinks.
    pub fn process<K: Fn(&ChannelParams, u32, u32) -> u32>(
        &mut self,
        n_channels: usize,
        n_samples: usize,
        rate: u32,
        kernel: &K,
    ) -> (out: &[u32])
        requires
            total(kernel),
            n_channels * n_samples <= usize::MAX,
        ensures
            produced(kernel, old(self)@, n_channels, n_samples, rate, out@, final(self)@),
            final(self).scratch() == if old(self).scratch().len() <= n_channels * n_samples {
                out@
            } else {
                out@ + old(self).scratch().subrange(
                    n_channels * n_samples,
                    old(self).scratch().len() as int,
                )
            },
    {
        self.channels.truncate(n_channels);
        while self.channels.len() < n_channels
            invariant
                self.channels@.len() <= n_channels,
                self.channels@.len() < n_channels ==> old(self)@.len() <= self.channels@.len(),
                self.channels@ == resized(old(self)@, self.channels@.len()),
                self.buffer@ == old(self).buffer@,
            decreases n_channels - self.channels@.len(),
        {
            self.channels.push(Channel::default());
            assert(self.channels@ =~= resized(old(self)@, self.channels@.len()));
        }
        let len: usize = n_channels * n_samples;
        while self.buffer.len() < len
            invariant
                self.channels@ == resized(old(self)@, n_channels as nat),
                self.buffer@.len() >= old(self).buffer@.len(),
                self.buffer@.len() > old(self).buffer@.len() ==> self.buffer@.len() <= len,
                self.buffer@.take(old(self).buffer@.len() as int) == old(self).buffer@,
            decreases len - self.buffer@.len(),
        {
            self.buffer.push(0);
            assert(self.buffer@.take(old(self).buffer@.len() as int) =~= old(self).buffer@);
        }
        let ghost base = self.channels@;
        let mut k: usize = 0;
        while k < n_channels
            invariant
                total(kernel),
                k <= n_channels,
                len == n_channels * n_samples,
                base == resized(old(self)@, n_channels as nat),
                self.channels@.len() == n_channels,
                self.buffer@.len() >= len,
                self.buffer@.len() == if old(self).buffer@.len() < len {
                    len as int
                } else {
                    old(self).buffer@.len() as int
                },
                forall|i: int|
                    0 <= i < k ==> self.channels@[i] == (#[trigger] base[i]).advanced(
                        n_samples as int,
                    ),
                forall|i: int| k <= i < n_channels ==> self.channels@[i] == #[trigger] base[i],
                forall|i: int|
                    len <= i < old(self).buffer@.len() ==> #[trigger] self.buffer@[i]
                        == old(self).buffer@[i],
                forall|i: int|
                    0 <= i < k ==> rendered(
                        kernel,
                        (#[trigger] base[i]).params,
                        rate,
                        base[i].state.t,
                        self.buffer@.subrange(i * n_samples, i * n_samples + n_samples),
                    ),
            decreases n_channels - k,
        {
            assert(k * n_samples + n_samples <= n_channels * n_samples) by (nonlinear_arith)
                requires
                    k < n_channels,
            ;
            let start: usize = k * n_samples;
            let ghost before = self.buffer@;
            let (head, tail) = self.buffer.as_mut_slice().split_at_mut(start);
            let (chunk, rest) = tail.split_at_mut(n_samples);
            self.channels[k].process(chunk, rate, kernel);
            proof {
                assert(self.buffer@.subrange(start as int, start + n_samples) == chunk@);
                assert forall|i: int| 0 <= i < k implies rendered(
                    kernel,
                    (#[trigger] base[i]).params,
                    rate,
                    base[i].state.t,
                    self.buffer@.subrange(i * n_samples, i * n_samples + n_samples),
                ) by {
                    assert(i * n_samples + n_samples <= k * n_samples) by (nonlinear_arith)
                        requires
                            0 <= i < k,
                    ;
                    assert(self.buffer@.subrange(i * n_samples, i * n_samples + n_samples)
                        == before.subrange(i * n_samples, i * n_samples + n_samples));
                }
            }
            k = k + 1;
        }
        assert(self.channels@ == advanced(base, n_samples as int));
        let out = vstd::slice::slice_subrange(self.buffer.as_slice(), 0, len);
        proof {
            if old(self).buffer@.len() <= len {
                assert(self.buffer@ =~= out@);
            } else {
                assert(self.buffer@ =~= out@ + old(self).buffer@.subrange(
                    len as int,
                    old(self).buffer@.len() as int,
                ));
            }
            assert forall|i: int| 0 <= i < n_channels implies rendered(
                kernel,
                (#[trigger] base[i]).params,
                rate,
                base[i].state.t,
                out@.subrange(i * n_samples, i * n_samples + n_samples),
            ) by {
                assert(0 <= i * n_samples && i * n_samples + n_samples <= n_channels * n_samples)
                    by (nonlinear_arith)
                    requires
                        0 <= i < n_channels,
                        0 <= n_samples,
                ;
                assert(out@.subrange(i * n_samples, i * n_samples + n_samples)
                    == self.buffer@.subrange(i * n_samples, i * n_samples + n_samples));
            }
        }
        out
    }
}

impl Default for Processor {
    fn default() -> (r: Self)
        ensures
            r@.len() == 0,
            r.scratch().len() == 0,
    {
        Processor::new()
    }
}

/// A message addressed beyond the end of the list grows it: the list then
/// ends at the addressed index, the channels it had are untouched, the new
/// ones below the index are default channels, and the one at the index plays
/// the given configuration from its first sample.
pub proof fn lemma_set_params_grows(channels: Seq<Channel>, i: usize, params: ChannelParams)
    requires
        i >= channels.len(),
    ensures
        applied(channels, Message::SetParams(i, params)).len() == i + 1,
        forall|k: int|
            0 <= k < channels.len() ==> applied(channels, Message::SetParams(i, params))[k]
                == channels[k],
        forall|k: int|
            channels.len() <= k < i ==> applied(channels, Message::SetParams(i, params))[k]
                == Channel::fresh(ChannelParams::spec_default()),
        applied(channels, Message::SetParams(i, params))[i as int] == Channel::fresh(params),
{
}

/// A message addressed inside the list replaces that one channel and leaves
/// the length and every other channel as they were.
pub proof fn lemma_set_params_replaces(channels: Seq<Channel>, i: usize, params: ChannelParams)
    requires
        i < channels.len(),
    ensures
        applied(channels, Message::SetParams(i, params)) == channels.update(
            i as int,
            Channel::fresh(params),
        ),
{
    assert(resized(channels, channels.len()) =~= channels);
}

/// After `Reset` every channel is the channel that would be built anew from
/// its configuration, so what it renders next is what a new channel with the
/// same configuration renders first.
pub proof fn lemma_reset_replays<K: Fn(&ChannelParams, u32, u32) -> u32>(
    kernel: &K,
    channels: Seq<Channel>,
    k: int,
    rate: u32,
    block: Seq<u32>,
)
    requires
        0 <= k < channels.len(),
    ensures
        applied(channels, Message::Reset).len() == channels.len(),
        applied(channels, Message::Reset)[k] == Channel::fresh(channels[k].params),
        rendered(
            kernel,
            applied(channels, Message::Reset)[k].params,
            rate,
            applied(channels, Message::Reset)[k].state.t,
            block,
        ) <==> rendered(kernel, channels[k].params, rate, 0, block),
{
}

/// A block is settled by what came before it.
///
/// With a kernel that is a function of its arguments, the channel list, the
/// request and the rate leave one block and one channel list as the outcome:
/// rendering is a function of the history of messages and requests.
pub proof fn lemma_block_is_determined<K: Fn(&ChannelParams, u32, u32) -> u32>(
    kernel: &K,
    before: Seq<Channel>,
    n_channels: usize,
    n_samples: usize,
    rate: u32,
    block: Seq<u32>,
    after: Seq<Channel>,
    other_block: Seq<u32>,
    other_after: Seq<Channel>,
)
    requires
        deterministic(kernel),
        produced(kernel, before, n_channels, n_samples, rate, block, after),
        produced(kernel, before, n_channels, n_samples, rate, other_block, other_after),
    ensures
        block == other_block,
        after == other_after,
{
    let list = resized(before, n_channels as nat);
    assert forall|i: int| 0 <= i < block.len() implies block[i] == other_block[i] by {
        let n = n_samples as int;
        assert(n > 0) by (nonlinear_arith)
            requires
                0 <= i < n_channels * n,
                0 <= n,
                0 <= n_channels,
        ;
        let k = i / n;
        let j = i % n;
        vstd::arithmetic::div_mod::lemma_fundamental_div_mod(i, n);
        vstd::arithmetic::div_mod::lemma_mod_bound(i, n);
        assert(0 <= k < n_channels) by (nonlinear_arith)
            requires
                0 <= i < n_channels * n,
                n > 0,
                i == n * k + j,
                0 <= j < n,
        ;
        assert(k * n == n * k) by (nonlinear_arith);
        let run = block.subrange(k * n, k * n + n);
        let other_run = other_block.subrange(k * n, k * n + n);
        assert(0 <= k * n && k * n + n <= n_channels * n) by (nonlinear_arith)
            requires
                0 <= k < n_channels,
                0 <= n,
        ;
        assert(rendered(kernel, list[k].params, rate, list[k].state.t, run));
        assert(rendered(kernel, list[k].params, rate, list[k].state.t, other_run));
        assert(run[j] == block[i]);
        assert(other_run[j] == other_block[i]);
        assert(call_ensures(kernel, (&list[k].params, rate, tick(list[k].state.t, j)), run[j]));
        assert(call_ensures(
            kernel,
            (&list[k].params, rate, tick(list[k].state.t, j)),
            other_run[j],
        ));
    }
    assert(block =~= other_block);
}

} // verus!
