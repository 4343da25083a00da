//! One oscillator: its configuration and its position in time.
//!
//! A channel counts the samples it has emitted. The value of a sample is
//! computed by a *kernel*, a function supplied by the caller that maps a
//! configuration, a sample rate in hertz and a sample position to the bit
//! pattern of a binary32 sample. The counter is the only source of time, so a
//! block of samples depends on nothing but the channel and the kernel.

use crate::message::ChannelParams;
use vstd::prelude::*;

verus! {

/// The position `offset` samples after `start`. Positions are what the kernel
/// is handed as time; they wrap at 2^32.
pub open spec fn tick(start: u32, offset: int) -> u32 {
    ((start as int + offset) % 0x1_0000_0000) as u32
}

/// The kernel accepts every configuration, rate and position.
pub open spec fn total<K: Fn(&ChannelParams, u32, u32) -> u32>(kernel: &K) -> bool {
    forall|params: &ChannelParams, rate: u32, t: u32| call_requires(kernel, (params, rate, t))
}

/// `block` holds, in order, what the kernel gives for `params` at `rate` on
/// the consecutive positions that begin at `start`.
pub open spec fn rendered<K: Fn(&ChannelParams, u32, u32) -> u32>(
    kernel: &K,
    params: ChannelParams,
    rate: u32,
    start: u32,
    block: Seq<u32>,
) -> bool {
    forall|j: int|
        0 <= j < block.len() ==> call_ensures(
            kernel,
            (&params, rate, tick(start, j)),
            #[trigger] block[j],
        )
}

/// The kernel is a function of its arguments: no call has two outcomes.
pub open spec fn deterministic<K: Fn(&ChannelParams, u32, u32) -> u32>(kernel: &K) -> bool {
    forall|params: &ChannelParams, rate: u32, t: u32, a: u32, b: u32|
        call_ensures(kernel, (params, rate, t), a) && call_ensures(kernel, (params, rate, t), b)
            ==> a == b
}

/// The running sample counter of a channel.
#[derive(Clone, Copy, Debug, PartialEq, Eq, Structural)]
pub struct ChannelState {
    /// The position of the next sample.
    pub t: u32,
}

impl ChannelState {
    /// Fills `buf` with the next `buf.len()` samples of `params` and moves the
    /// counter past them.
    pub fn process<K: Fn(&ChannelParams, u32, u32) -> u32>(
        &mut self,
        buf: &mut [u32],
        params: &ChannelParams,
        rate: u32,
        kernel: &K,
    )
        requires
            total(kernel),
        ensures
            final(buf)@.len() == old(buf)@.len(),
            rendered(kernel, *params, rate, old(self).t, final(buf)@),
            final(self).t == tick(old(self).t, old(buf)@.len() as int),
    {
        let n: usize = buf.len();
        let mut i: usize = 0;
        while i < n
            invariant
                total(kernel),
                i <= n,
                n == buf@.len(),
                n == old(buf)@.len(),
                self.t == tick(old(self).t, i as int),
                rendered(kernel, *params, rate, old(self).t, buf@.take(i as int)),
            decreases n - i,
        {
            let ghost before = buf@.take(i as int);
            let sample: u32 = kernel(params, rate, self.t);
            buf[i] = sample;
            self.t = self.t.wrapping_add(1);
            i = i + 1;
            proof {
                let now = buf@.take(i as int);
                assert forall|j: int| 0 <= j < now.len() implies call_ensures(
                    kernel,
                    (params, rate, tick(old(self).t, j)),
                    #[trigger] now[j],
                ) by {
                    if j < i - 1 {
                        assert(now[j] == before[j]);
                    }
                }
            }
        }
        assert(buf@.take(n as int) == buf@);
    }
}

impl Default for ChannelState {
    fn default() -> (r: Self)
        ensures
            r.t == 0,
    {
        ChannelState { t: 0 }
    }
}

/// A configuration together with the counter that plays it.
#[derive(Clone, Copy, Debug, PartialEq, Eq, Structural)]
pub struct Channel {
    pub params: ChannelParams,
    pub state: ChannelState,
}

impl Channel {
    /// A channel that plays `params` from its first sample.
    pub open spec fn fresh(params: ChannelParams) -> Channel {
        Channel { params, state: ChannelState { t: 0 } }
    }

    /// The channel after it has emitted `count` more samples.
    pub open spec fn advanced(self, count: int) -> Channel {
        Channel { params: self.params, state: ChannelState { t: tick(self.state.t, count) } }
    }

    /// Fills `buf` with the next `buf.len()` samples and moves past them. The
    /// configuration is not touched.
    pub fn process<K: Fn(&ChannelParams, u32, u32) -> u32>(
        &mut self,
        buf: &mut [u32],
        rate: u32,
        kernel: &K,
    )
        requires
            total(kernel),
        ensures
            final(buf)@.len() == old(buf)@.len(),
            rendered(kernel, old(self).params, rate, old(self).state.t, final(buf)@),
            *final(self) == old(self).advanced(old(buf)@.len() as int),
    {
        self.state.process(buf, &self.params, rate, kernel)
    }

    /// Rewinds the counter to the first sample and keeps the configuration.
    pub fn reset(&mut self)
        ensures
            *final(self) == Channel::fresh(old(self).params),
    {
        self.state = ChannelState::default();
    }
}

impl Default for Channel {
    fn default() -> (r: Self)
        ensures
            r == Channel::fresh(ChannelParams::spec_default()),
    {
        Channel { params: ChannelParams::default(), state: ChannelState::default() }
    }
}

impl From<ChannelParams> for Channel {
    fn from(params: ChannelParams) -> (r: Channel) {
        Channel { params, state: ChannelState::default() }
    }
}

impl vstd::std_specs::convert::FromSpecImpl<ChannelParams> for Channel {
    open spec fn obeys_from_spec() -> bool {
        true
    }

    open spec fn from_spec(params: ChannelParams) -> Channel {
        Channel::fresh(params)
    }
}

/// Moving `a` samples on and then `b` more is moving `a + b` samples on.
pub proof fn lemma_tick_adds(start: u32, a: nat, b: nat)
    ensures
        tick(tick(start, a as int), b as int) == tick(start, (a + b) as int),
{
    let m = 0x1_0000_0000int;
    let x = start as int + a;
    assert(((x % m) + b) % m == (x + b) % m) by {
        vstd::arithmetic::div_mod::lemma_add_mod_noop(x, b as int, m);
        vstd::arithmetic::div_mod::lemma_add_mod_noop(x % m, b as int, m);
        vstd::arithmetic::div_mod::lemma_mod_twice(x, m);
    }
}

/// Two consecutive blocks make one block: what is rendered from `start`, and
/// what is rendered from where that block ends, together are a rendering from
/// `start` of the combined length. This holds for every kernel.
pub proof fn lemma_blocks_join<K: Fn(&ChannelParams, u32, u32) -> u32>(
    kernel: &K,
    params: ChannelParams,
    rate: u32,
    start: u32,
    first: Seq<u32>,
    second: Seq<u32>,
)
    requires
        rendered(kernel, params, rate, start, first),
        rendered(kernel, params, rate, tick(start, first.len() as int), second),
    ensures
        rendered(kernel, params, rate, start, first + second),
{
    let whole = first + second;
    assert forall|j: int| 0 <= j < whole.len() implies call_ensures(
        kernel,
        (&params, rate, tick(start, j)),
        #[trigger] whole[j],
    ) by {
        if j < first.len() {
            assert(whole[j] == first[j]);
        } else {
            let i = j - first.len();
            assert(whole[j] == second[i]);
            lemma_tick_adds(start, first.len(), i as nat);
        }
    }
}

/// Rendering does not depend on how a run of samples is cut into blocks.
///
/// With a kernel that is a function of its arguments, the block rendered in
/// one call from `start` equals, sample for sample, the blocks of two calls
/// that render `first.len()` and then `second.len()` samples, and the counter
/// ends in the same place either way.
pub proof fn lemma_chunking<K: Fn(&ChannelParams, u32, u32) -> u32>(
    kernel: &K,
    params: ChannelParams,
    rate: u32,
    start: u32,
    whole: Seq<u32>,
    first: Seq<u32>,
    second: Seq<u32>,
)
    requires
        deterministic(kernel),
        whole.len() == first.len() + second.len(),
        rendered(kernel, params, rate, start, whole),
        rendered(kernel, params, rate, start, first),
        rendered(kernel, params, rate, tick(start, first.len() as int), second),
    ensures
        whole == first + second,
        tick(tick(start, first.len() as int), second.len() as int) == tick(
            start,
            whole.len() as int,
        ),
{
    lemma_blocks_join(kernel, params, rate, start, first, second);
    lemma_tick_adds(start, first.len(), second.len());
    let joined = first + second;
    assert forall|j: int| 0 <= j < whole.len() implies whole[j] == joined[j] by {
        assert(call_ensures(kernel, (&params, rate, tick(start, j)), whole[j]));
        assert(call_ensures(kernel, (&params, rate, tick(start, j)), joined[j]));
    }
    assert(whole =~= joined);
}

} // verus!
