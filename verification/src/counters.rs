use vstd::prelude::*;

verus! {

/// Instantaneous network throughput: bytes received and transmitted over
/// the last completed sampling cycle, aggregated over real interfaces.
#[derive(Clone, Copy, PartialEq, Eq, Structural, Debug, Default)]
pub struct NetSpeed {
    pub net_rx: u64,
    pub net_tx: u64,
}

/// The value a counter holds after one refresh cycle: a successful read
/// publishes the whole new value, a failed read keeps the previous one.
pub open spec fn cycle_value<V>(prev: V, reading: Option<V>) -> V {
    match reading {
        Some(v) => v,
        None => prev,
    }
}

/// The value a counter holds after a whole sequence of refresh cycles.
pub open spec fn after_cycles<V>(init: V, readings: Seq<Option<V>>) -> V
    decreases readings.len(),
{
    if readings.len() == 0 {
        init
    } else {
        cycle_value(after_cycles(init, readings.drop_last()), readings.last())
    }
}

/// Torn-value freedom: after any sequence of refresh cycles a counter
/// holds, whole, either its initial value or the exact value published by
/// one single cycle — never pieces of two different cycles.
pub proof fn lemma_counter_holds_single_cycle<V>(init: V, readings: Seq<Option<V>>)
    ensures
        after_cycles(init, readings) == init || exists|i: int|
            0 <= i < readings.len() && readings[i] == Some(after_cycles(init, readings)),
    decreases readings.len(),
{
    if readings.len() > 0 {
        let v = after_cycles(init, readings);
        match readings.last() {
            Some(x) => {
                assert(readings[readings.len() - 1] == Some(v));
            }
            None => {
                lemma_counter_holds_single_cycle(init, readings.drop_last());
                assert(after_cycles(init, readings) == after_cycles(init, readings.drop_last()));
                if after_cycles(init, readings.drop_last()) != init {
                    let i = choose|i: int|
                        0 <= i < readings.drop_last().len() && readings.drop_last()[i] == Some(
                            after_cycles(init, readings.drop_last()),
                        );
                    assert(readings[i] == Some(v));
                }
            }
        }
    }
}

/// Latest fully published CPU utilisation, in whole percent. Written only
/// by its owning sampler cycle; any reader sees the whole last value.
pub struct CpuCounter {
    pub value: u64,
}

impl CpuCounter {
    pub fn new() -> (c: CpuCounter)
        ensures
            c.value == 0,
    {
        CpuCounter { value: 0 }
    }

    /// One sampler refresh cycle: publish the whole new reading, or keep
    /// the previous value if this cycle's read failed.
    pub fn cycle(&mut self, reading: Option<u64>)
        ensures
            final(self).value == cycle_value(old(self).value, reading),
    {
        if let Some(v) = reading {
            self.value = v;
        }
    }

    pub fn read(&self) -> (v: u64)
        ensures
            v == self.value,
    {
        self.value
    }
}

/// Latest fully published network throughput pair. The two fields are
/// always replaced together, as one `NetSpeed` value.
pub struct NetCounter {
    pub value: NetSpeed,
}

impl NetCounter {
    pub fn new() -> (c: NetCounter)
        ensures
            c.value == (NetSpeed { net_rx: 0, net_tx: 0 }),
    {
        NetCounter { value: NetSpeed { net_rx: 0, net_tx: 0 } }
    }

    /// One sampler refresh cycle: publish the whole new pair, or keep the
    /// previous pair if this cycle's read failed.
    pub fn cycle(&mut self, reading: Option<NetSpeed>)
        ensures
            final(self).value == cycle_value(old(self).value, reading),
    {
        if let Some(v) = reading {
            self.value = v;
        }
    }

    pub fn read(&self) -> (v: NetSpeed)
        ensures
            v == self.value,
    {
        self.value
    }
}

} // verus!
