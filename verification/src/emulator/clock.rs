//! The master clock: drives components that each report how many master
//! cycles their step took, always stepping the one that is due earliest.
use vstd::prelude::*;

verus! {

/// A component driven by the master clock.
pub trait Ticker {
    /// Whether the component can take its next step without a fault.
    spec fn ready(&self) -> bool;

    /// How many master clock cycles the component's next step takes.
    spec fn step_cycles(&self) -> u32;

    /// Whether `next` is what the component becomes by one step from `self`.
    spec fn ticked(&self, next: &Self) -> bool;

    /// Steps the component; returns how many master clock cycles the step took.
    fn tick(&mut self) -> (cycles: u32)
        requires
            old(self).ready(),
        ensures
            cycles == old(self).step_cycles(),
            old(self).ticked(final(self)),
    ;
}

/// A ticker whose cycle counts are multiplied by a fixed factor.
pub struct ScaledTicker<T> {
    pub delegate: T,
    pub factor: u32,
}

impl<T: Ticker> ScaledTicker<T> {
    pub fn new(delegate: T, factor: u32) -> (t: ScaledTicker<T>)
        ensures
            t.delegate == delegate,
            t.factor == factor,
    {
        ScaledTicker { delegate, factor }
    }
}

impl<T: Ticker> Ticker for ScaledTicker<T> {
    open spec fn ready(&self) -> bool {
        self.delegate.ready()
    }

    /// The delegate's cycles times the factor, modulo 2^32.
    open spec fn step_cycles(&self) -> u32 {
        ((self.delegate.step_cycles() as int * self.factor as int) % 0x1_0000_0000) as u32
    }

    /// The delegate steps; the factor stays.
    open spec fn ticked(&self, next: &Self) -> bool {
        &&& self.delegate.ticked(&next.delegate)
        &&& next.factor == self.factor
    }

    fn tick(&mut self) -> (cycles: u32) {
        self.delegate.tick().wrapping_mul(self.factor)
    }
}

pub struct Clock<T> {
    // Timing.
    elapsed_cycles: u64,
    // Tickers, and the cycle at which each is next due.
    tickers: Vec<ScaledTicker<T>>,
    next_tick_cycles: Vec<u64>,
}

/// The cycle at which a ticker due at `due` is next due once its step of
/// `cycles` cycles has passed; it stops at the end of the 64-bit count.
pub open spec fn next_due(due: u64, cycles: u32) -> u64 {
    if due as int + cycles as int > u64::MAX as int {
        u64::MAX
    } else {
        (due + cycles) as u64
    }
}

/// Whether `i` is the first of the earliest due entries of `due`.
pub open spec fn is_earliest(due: Seq<u64>, i: int) -> bool {
    &&& 0 <= i < due.len()
    &&& forall|j: int| 0 <= j < due.len() ==> due[i] <= #[trigger] due[j]
    &&& forall|j: int| 0 <= j < i ==> due[i] < #[trigger] due[j]
}

impl<T> Clock<T> {
    /// Master cycles elapsed so far.
    pub closed spec fn elapsed(&self) -> u64 {
        self.elapsed_cycles
    }

    /// The managed tickers, in the order they were added.
    pub closed spec fn tickers(&self) -> Seq<ScaledTicker<T>> {
        self.tickers@
    }

    /// The master cycle at which each ticker is next due.
    pub closed spec fn due(&self) -> Seq<u64> {
        self.next_tick_cycles@
    }

    /// The invariant the clock keeps: one due time per ticker, none in the past.
    pub open spec fn on_schedule(&self) -> bool {
        &&& self.tickers().len() == self.due().len()
        &&& forall|i: int| 0 <= i < self.due().len() ==> self.elapsed() <= #[trigger] self.due()[i]
    }
}

impl<T: Ticker> Clock<T> {
    pub fn new() -> (clock: Clock<T>)
        ensures
            clock.elapsed() == 0,
            clock.tickers() == Seq::<ScaledTicker<T>>::empty(),
            clock.due() == Seq::<u64>::empty(),
            clock.on_schedule(),
    {
        Clock { elapsed_cycles: 0, tickers: Vec::new(), next_tick_cycles: Vec::new() }
    }

    /// Steps the ticker that is due earliest (the first added among equals):
    /// the clock advances to its due cycle, it ticks, and it is next due once
    /// the cycles it reports have passed. Returns how many cycles the clock
    /// advanced; with no tickers nothing happens.
    pub fn tick(&mut self) -> (cycles_waited: u64)
        requires
            old(self).on_schedule(),
            forall|i: int| 0 <= i < old(self).tickers().len() ==> (#[trigger] old(self).tickers()[i]).ready(),
        ensures
            final(self).on_schedule(),
            final(self).elapsed() >= old(self).elapsed(),
            old(self).tickers().len() == 0 ==> cycles_waited == 0 && final(self).elapsed() == old(
                self,
            ).elapsed() && final(self).due() == old(self).due() && final(self).tickers() == old(
                self,
            ).tickers(),
            old(self).tickers().len() > 0 ==> exists|i: int|
                {
                    &&& is_earliest(old(self).due(), i)
                    &&& final(self).elapsed() == old(self).due()[i]
                    &&& cycles_waited == old(self).due()[i] - old(self).elapsed()
                    &&& final(self).due().len() == old(self).due().len()
                    &&& final(self).tickers().len() == old(self).tickers().len()
                    &&& final(self).due()[i] == next_due(
                        old(self).due()[i],
                        old(self).tickers()[i].step_cycles(),
                    )
                    &&& old(self).tickers()[i].ticked(&final(self).tickers()[i])
                    &&& forall|j: int|
                        0 <= j < old(self).due().len() && j != i ==> #[trigger] final(self).due()[j]
                            == old(self).due()[j] && final(self).tickers()[j] == old(
                            self,
                        ).tickers()[j]
                },
    {
        let n = self.next_tick_cycles.len();
        if n == 0 {
            return 0;
        }
        // Find the earliest due ticker.

        let mut best: usize = 0;
        let mut k: usize = 1;
        while k < n
            invariant
                n == self.next_tick_cycles@.len(),
                1 <= k <= n,
                best < k,
                forall|j: int| 0 <= j < k ==> self.next_tick_cycles@[best as int] <= #[trigger] self.next_tick_cycles@[j],
                forall|j: int| 0 <= j < best ==> self.next_tick_cycles@[best as int] < #[trigger] self.next_tick_cycles@[j],
            decreases n - k,
        {
            if self.next_tick_cycles[k] < self.next_tick_cycles[best] {
                best = k;
            }
            k = k + 1;
        }
        let due = self.next_tick_cycles[best];
        let cycles_waited = due - self.elapsed_cycles;
        let ghost old_due = self.next_tick_cycles@;
        let ghost old_tickers = self.tickers@;

        let mut tickers: Vec<ScaledTicker<T>> = Vec::new();
        std::mem::swap(&mut tickers, &mut self.tickers);
        let mut next_tick_cycles: Vec<u64> = Vec::new();
        std::mem::swap(&mut next_tick_cycles, &mut self.next_tick_cycles);

        let mut ticker = tickers.remove(best);
        let cycles = ticker.tick();
        tickers.insert(best, ticker);
        next_tick_cycles.set(best, due.saturating_add(cycles as u64));

        self.elapsed_cycles = due;
        self.tickers = tickers;
        self.next_tick_cycles = next_tick_cycles;
        assert(is_earliest(old_due, best as int));
        cycles_waited
    }

    /// Adds a ticker, due at once.
    pub fn manage(&mut self, ticker: ScaledTicker<T>)
        requires
            old(self).on_schedule(),
        ensures
            final(self).elapsed() == old(self).elapsed(),
            final(self).tickers() == old(self).tickers().push(ticker),
            final(self).due() == old(self).due().push(old(self).elapsed()),
            final(self).on_schedule(),
    {
        let mut tickers: Vec<ScaledTicker<T>> = Vec::new();
        std::mem::swap(&mut tickers, &mut self.tickers);
        let mut next_tick_cycles: Vec<u64> = Vec::new();
        std::mem::swap(&mut next_tick_cycles, &mut self.next_tick_cycles);
        tickers.push(ticker);
        next_tick_cycles.push(self.elapsed_cycles);
        self.tickers = tickers;
        self.next_tick_cycles = next_tick_cycles;
    }
}

} // verus!
