//! Delays for a caller that retries: each delay is the one before it times a
//! multiplier, up to a ceiling, and what is handed out is that delay times a
//! random factor near one.
//!
//! Delays are whole nanoseconds, and factors are whole millionths, so a
//! product of a delay and a factor is rounded down to a nanosecond.

use vstd::prelude::*;
use crate::chance::uniform_inclusive;

verus! {

/// The factor one, in millionths.
pub const SCALE: u64 = 1_000_000;

/// `delay` times `factor` millionths, rounded down.
pub open spec fn scaled(delay: u64, factor: u64) -> nat {
    (delay * factor / (SCALE as int)) as nat
}

/// How delays grow and how far they are spread.
#[derive(Debug, Clone, Copy, PartialEq, Eq, Structural)]
pub struct Config {
    /// The first delay, in nanoseconds.
    pub initial_delay: u64,
    /// The ceiling of the delays before jitter, in nanoseconds.
    pub max_delay: u64,
    /// Growth from one delay to the next, in millionths.
    pub multiplier: u64,
    /// Greatest relative distance of a delay handed out from the delay
    /// before jitter, in millionths.
    pub jitter: u64,
}

impl Config {
    /// Delays do not shrink, jitter stays below one, the first delay does not
    /// exceed the ceiling, and the ceiling stretched by the jitter is still a
    /// delay that 64 bits can hold.
    pub open spec fn valid(&self) -> bool {
        &&& self.multiplier >= SCALE
        &&& self.jitter < SCALE
        &&& self.initial_delay <= self.max_delay
        &&& scaled(self.max_delay, (SCALE + self.jitter) as u64) <= u64::MAX
    }

    /// The least factor that jitter applies.
    pub open spec fn least_factor(&self) -> u64 {
        (SCALE - self.jitter) as u64
    }

    /// The greatest factor that jitter applies.
    pub open spec fn greatest_factor(&self) -> u64 {
        (SCALE + self.jitter) as u64
    }

    /// Whether jitter may hand out `delay` for the delay `raw`: it lies
    /// between `raw` times the least factor and `raw` times the greatest,
    /// each rounded down.
    pub open spec fn spreads(&self, raw: u64, delay: u64) -> bool {
        scaled(raw, self.least_factor()) <= delay <= scaled(raw, self.greatest_factor())
    }

    /// Whether `delay` lies within the jitter of `raw` to the nanosecond: it
    /// is at most `raw` times one plus the jitter, and less than a nanosecond
    /// short of `raw` times one less the jitter.
    pub open spec fn within_jitter(&self, raw: u64, delay: u64) -> bool {
        raw * (SCALE - self.jitter) - SCALE < delay * SCALE <= raw * (SCALE + self.jitter)
    }

    /// The delay before jitter that follows `raw`.
    pub open spec fn next_raw(&self, raw: u64) -> u64 {
        if scaled(raw, self.multiplier) <= self.max_delay {
            scaled(raw, self.multiplier) as u64
        } else {
            self.max_delay
        }
    }

    /// Delays from one second to two minutes that grow by six tenths and are
    /// spread by two tenths.
    pub open spec fn standard() -> Config {
        Config {
            initial_delay: 1_000_000_000,
            max_delay: 120_000_000_000,
            multiplier: 1_600_000,
            jitter: 200_000,
        }
    }

    /// Tells whether the configuration is valid.
    pub fn is_valid(&self) -> (valid: bool)
        ensures
            valid == self.valid(),
    {
        self.multiplier >= SCALE && self.jitter < SCALE && self.initial_delay <= self.max_delay
            && scale(self.max_delay, SCALE + self.jitter) <= u64::MAX as u128
    }
}

impl Default for Config {
    /// The standard configuration.
    fn default() -> (config: Self)
        ensures
            config == Config::standard(),
            config.valid(),
    {
        Config {
            initial_delay: 1_000_000_000,
            max_delay: 120_000_000_000,
            multiplier: 1_600_000,
            jitter: 200_000,
        }
    }
}

/// A greater factor gives no lesser product.
proof fn lemma_scaled_grows(delay: u64, low: u64, high: u64)
    requires
        low <= high,
    ensures
        scaled(delay, low) <= scaled(delay, high),
{
    assert(delay * low <= delay * high) by (nonlinear_arith)
        requires
            low <= high,
            0 <= delay,
    ;
}

/// A greater delay gives no lesser product.
proof fn lemma_scaled_grows_with_delay(low: u64, high: u64, factor: u64)
    requires
        low <= high,
    ensures
        scaled(low, factor) <= scaled(high, factor),
{
    assert(low * factor <= high * factor) by (nonlinear_arith)
        requires
            low <= high,
            0 <= factor,
    ;
}

/// A delay that jitter may hand out lies within the jitter of the delay
/// before jitter, to the nanosecond.
pub proof fn lemma_spread_is_within_jitter(config: Config, raw: u64, delay: u64)
    requires
        config.jitter < SCALE,
        config.spreads(raw, delay),
    ensures
        config.within_jitter(raw, delay),
{
    let low = raw * (SCALE - config.jitter);
    let high = raw * (SCALE + config.jitter);
    assert(0 <= low) by (nonlinear_arith)
        requires
            low == raw * (SCALE - config.jitter),
            config.jitter < SCALE,
    ;
    assert(0 <= high) by (nonlinear_arith)
        requires
            high == raw * (SCALE + config.jitter),
    ;
    assert(low / (SCALE as int) * SCALE > low - SCALE);
    assert(high / (SCALE as int) * SCALE <= high);
}

/// `delay` times `factor` millionths, rounded down.
fn scale(delay: u64, factor: u64) -> (product: u128)
    ensures
        product == scaled(delay, factor),
{
    assert(delay * factor <= u64::MAX * u64::MAX) by (nonlinear_arith)
        requires
            0 <= delay <= u64::MAX,
            0 <= factor <= u64::MAX,
    ;
    (delay as u128) * (factor as u128) / (SCALE as u128)
}

/// A sequence of delays that can be started over.
pub struct Backoff {
    config: Config,
    without_jitter: u64,
    with_jitter: u64,
}

impl Backoff {
    #[verifier::type_invariant]
    spec fn inv(self) -> bool {
        &&& self.config.valid()
        &&& self.config.initial_delay <= self.without_jitter <= self.config.max_delay
        &&& self.config.spreads(self.without_jitter, self.with_jitter)
    }

    /// The configuration that the sequence was made with.
    pub closed spec fn config(&self) -> Config {
        self.config
    }

    /// The current delay before jitter.
    pub closed spec fn raw(&self) -> u64 {
        self.without_jitter
    }

    /// The current delay, as `current_backoff` hands it out.
    pub closed spec fn current(&self) -> u64 {
        self.with_jitter
    }

    /// A sequence that stands at its first delay.
    pub fn new(config: Config) -> (backoff: Self)
        requires
            config.valid(),
        ensures
            backoff.config() == config,
            backoff.raw() == config.initial_delay,
            backoff.current() == config.initial_delay,
    {
        proof {
            lemma_scaled_grows(config.initial_delay, config.least_factor(), SCALE);
            lemma_scaled_grows(config.initial_delay, SCALE, config.greatest_factor());
        }
        Self { without_jitter: config.initial_delay, with_jitter: config.initial_delay, config }
    }

    /// The current delay. It lies within the jitter of the current delay
    /// before jitter, which in turn lies between the first delay and the
    /// ceiling.
    pub fn current_backoff(&self) -> (delay: u64)
        ensures
            delay == self.current(),
            self.config().spreads(self.raw(), delay),
            self.config().within_jitter(self.raw(), delay),
            self.config().initial_delay <= self.raw() <= self.config().max_delay,
            self.config().valid(),
    {
        proof {
            use_type_invariant(self);
            lemma_spread_is_within_jitter(self.config, self.without_jitter, self.with_jitter);
        }
        self.with_jitter
    }

    /// Moves to the next delay, with `factor` in the place of the random
    /// factor, and returns it.
    pub fn next_backoff_by(&mut self, factor: u64) -> (delay: u64)
        requires
            old(self).config().least_factor() <= factor <= old(self).config().greatest_factor(),
        ensures
            final(self).config() == old(self).config(),
            final(self).raw() == old(self).config().next_raw(old(self).raw()),
            old(self).raw() <= final(self).raw() <= old(self).config().max_delay,
            final(self).current() == delay,
            delay == scaled(final(self).raw(), factor),
    {
        proof {
            use_type_invariant(&*self);
        }
        let config = self.config;
        let grown = scale(self.without_jitter, config.multiplier);
        let without_jitter: u64 = if grown <= config.max_delay as u128 {
            grown as u64
        } else {
            config.max_delay
        };
        proof {
            lemma_scaled_grows(self.without_jitter, SCALE, config.multiplier);
            lemma_scaled_grows(without_jitter, config.least_factor(), factor);
            lemma_scaled_grows(without_jitter, factor, config.greatest_factor());
            lemma_scaled_grows_with_delay(
                without_jitter,
                config.max_delay,
                config.greatest_factor(),
            );
        }
        let with_jitter = scale(without_jitter, factor) as u64;
        *self = Backoff { config, without_jitter, with_jitter };
        with_jitter
    }

    /// Moves to the next delay and returns it. The delay before jitter
    /// grows by the multiplier up to the ceiling, and never shrinks. The
    /// delay returned is that delay times a factor drawn between one less
    /// the jitter and one plus the jitter.
    pub fn next_backoff(&mut self) -> (delay: u64)
        ensures
            final(self).config() == old(self).config(),
            final(self).raw() == old(self).config().next_raw(old(self).raw()),
            old(self).raw() <= final(self).raw() <= old(self).config().max_delay,
            final(self).current() == delay,
            old(self).config().spreads(final(self).raw(), delay),
            old(self).config().within_jitter(final(self).raw(), delay),
            old(self).config().jitter == 0 ==> delay == final(self).raw(),
    {
        proof {
            use_type_invariant(&*self);
        }
        let factor = uniform_inclusive(SCALE - self.config.jitter, SCALE + self.config.jitter);
        let ghost before = self.without_jitter;
        let delay = self.next_backoff_by(factor);
        proof {
            let config = self.config;
            lemma_scaled_grows(before, SCALE, config.multiplier);
            lemma_scaled_grows(self.without_jitter, config.least_factor(), factor);
            lemma_scaled_grows(self.without_jitter, factor, config.greatest_factor());
            lemma_spread_is_within_jitter(config, self.without_jitter, delay);
            if config.jitter == 0 {
                assert(scaled(self.without_jitter, SCALE) == self.without_jitter);
            }
        }
        delay
    }

    /// Starts the sequence over: the delay before jitter and the current
    /// delay are the first delay again.
    pub fn reset(&mut self)
        ensures
            final(self).config() == old(self).config(),
            final(self).raw() == old(self).config().initial_delay,
            final(self).current() == old(self).config().initial_delay,
    {
        proof {
            use_type_invariant(&*self);
            lemma_scaled_grows(self.config.initial_delay, self.config.least_factor(), SCALE);
            lemma_scaled_grows(self.config.initial_delay, SCALE, self.config.greatest_factor());
        }
        *self = Backoff {
            config: self.config,
            without_jitter: self.config.initial_delay,
            with_jitter: self.config.initial_delay,
        };
    }

    /// Starts the sequence over, as `reset` does.
    pub fn rest(&mut self)
        ensures
            final(self).config() == old(self).config(),
            final(self).raw() == old(self).config().initial_delay,
            final(self).current() == old(self).config().initial_delay,
    {
        self.reset()
    }
}

impl Default for Backoff {
    /// A sequence with the standard configuration, at its first delay.
    fn default() -> (backoff: Self)
        ensures
            backoff.config() == Config::standard(),
            backoff.raw() == Config::standard().initial_delay,
            backoff.current() == Config::standard().initial_delay,
    {
        Self::new(Config::default())
    }
}

} // verus!
