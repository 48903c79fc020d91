//! A fixed-origin, fixed-length epoch grid over Unix time.
//!
//! A [`Config`] names an origin instant (seconds since the Unix epoch)
//! and a period length in seconds; epoch 0 starts at the origin, epoch 1
//! one period later, and so on.  A [`Clock`] wraps such a configuration
//! and answers: which epoch holds a given instant, how far that instant
//! is into its epoch, and how long remains until the next one.  All
//! arithmetic wraps modulo 2^64, so an instant before the origin yields
//! large degenerate values rather than an error.

use vstd::prelude::*;

verus! {

/// A snapshot of an instant relative to the epoch grid: the epoch index,
/// the seconds elapsed since that epoch began, and the seconds remaining
/// until the next epoch begins.
#[derive(Clone, Copy, Debug, PartialEq, Eq, Structural)]
pub struct Time {
    pub epoch: u64,
    pub elapsed: u64,
    pub till: u64,
}

/// The grid's configuration: `epoch` is the origin instant in seconds
/// since the Unix epoch, and `period` is the length of each epoch in
/// seconds.  A `period` of zero admits no queries by [`Clock::now`] or
/// [`Clock::get_epoch`], which divide by it.
#[derive(Clone, Copy, Debug, PartialEq, Eq, Structural)]
pub struct Config {
    pub epoch: u64,
    pub period: u64,
}

/// An immutable clock over one epoch grid configuration.
#[derive(Clone, Copy, Debug, PartialEq, Eq, Structural)]
pub struct Clock {
    cfg: Config,
}

/// The wrapped distance from the configured origin to `t`: large when
/// `t` precedes the origin.
pub open spec fn epoch_delta(cfg: Config, t: u64) -> u64 {
    t.wrapping_sub(cfg.epoch)
}

/// The epoch index holding `t`: the wrapped distance from the origin,
/// divided by the period.
pub open spec fn epoch_index(cfg: Config, t: u64) -> u64 {
    epoch_delta(cfg, t) / cfg.period
}

/// The instant at which epoch `e` begins, with all arithmetic wrapping
/// modulo 2^64.
pub open spec fn epoch_start(cfg: Config, e: u64) -> u64 {
    cfg.epoch.wrapping_add(e.wrapping_mul(cfg.period))
}

/// The instant at which epoch `e` ends, i.e. at which epoch `e + 1`
/// begins, with all arithmetic wrapping modulo 2^64.
pub open spec fn epoch_end(cfg: Config, e: u64) -> u64 {
    cfg.epoch.wrapping_add(e.wrapping_add(1).wrapping_mul(cfg.period))
}

/// Whether instant `t` lies in epoch `e`: at its start, or strictly
/// between its start and its end in plain `u64` order.  The end itself
/// belongs to the next epoch.
pub open spec fn in_epoch(cfg: Config, e: u64, t: u64) -> bool {
    let start = epoch_start(cfg, e);
    let end = epoch_end(cfg, e);
    t == start || (start < t && t < end)
}

/// The snapshot describing instant `t`: its epoch index, the wrapped
/// distance from that epoch's start to `t`, and the wrapped distance
/// from `t` to the epoch's end.
pub open spec fn snapshot_at(cfg: Config, t: u64) -> Time {
    let e = epoch_index(cfg, t);
    let base = epoch_start(cfg, e);
    Time {
        epoch: e,
        elapsed: t.wrapping_sub(base),
        till: base.wrapping_add(cfg.period).wrapping_sub(t),
    }
}

impl Default for Time {
    /// The all-zero snapshot.
    fn default() -> (r: Time)
        ensures
            r == (Time { epoch: 0, elapsed: 0, till: 0 }),
    {
        Time { epoch: 0, elapsed: 0, till: 0 }
    }
}

impl Default for Config {
    /// The configuration with origin zero and, being zero, an unusable
    /// period: queries that divide demand a nonzero one.
    fn default() -> (r: Config)
        ensures
            r == (Config { epoch: 0, period: 0 }),
    {
        Config { epoch: 0, period: 0 }
    }
}

impl Default for Clock {
    /// The clock over the default configuration.
    fn default() -> (r: Clock)
        ensures
            r.config() == (Config { epoch: 0, period: 0 }),
    {
        Clock { cfg: Config { epoch: 0, period: 0 } }
    }
}

/// Relies on `std::time::SystemTime::now`, `SystemTime::duration_since`
/// (against `UNIX_EPOCH`) and `Duration::as_secs`: the current wall-clock
/// time as whole seconds since the Unix epoch.  Aborts if the system
/// clock reads before the Unix epoch, which is treated as an environment
/// invariant violation.  Nothing is promised of the value returned.
#[verifier::external_body]
fn unix_now() -> u64 {
    std::time::SystemTime::now()
        .duration_since(std::time::UNIX_EPOCH)
        .expect("SystemTime is before the Unix epoch")
        .as_secs()
}

/// Relies on chrono's proleptic-Gregorian calendar arithmetic:
/// `NaiveDate::from_ymd_opt`, `NaiveDate::and_hms_opt` and the
/// subtraction of two `NaiveDateTime`s, whose `TimeDelta::num_seconds`
/// is the whole-second difference.  From 1970-01-01T00:00:00Z to
/// 2017-06-01T00:00:00Z that is 17318 days, i.e. 1_496_275_200 seconds.
#[verifier::external_body]
fn midnight_unix_seconds(year: i32, month: u32, day: u32) -> (r: u64)
    requires
        year == 2017,
        month == 6,
        day == 1,
    ensures
        r == 1496275200u64,
{
    let date = chrono::NaiveDate::from_ymd_opt(year, month, day)
        .unwrap()
        .and_hms_opt(0, 0, 0)
        .unwrap();
    let unix_epoch = chrono::NaiveDate::from_ymd_opt(1970, 1, 1)
        .unwrap()
        .and_hms_opt(0, 0, 0)
        .unwrap();
    (date - unix_epoch).num_seconds() as u64
}

impl Clock {
    /// The configuration this clock was built over.
    pub closed spec fn config(&self) -> Config {
        self.cfg
    }

    /// Builds a clock over the given configuration, unchecked: a zero
    /// period is accepted here and rejected only by the queries that
    /// divide by it.
    pub fn new(cfg: Config) -> (r: Self)
        ensures
            r.config() == cfg,
    {
        Clock { cfg: cfg }
    }

    /// The configured period length in seconds.
    pub fn period(&self) -> (r: u64)
        ensures
            r == self.config().period,
    {
        self.cfg.period
    }

    /// Builds the clock of the Katzenpost deployment: its grid starts
    /// at 2017-06-01T00:00:00Z and its epochs last three hours.  The
    /// origin is computed from the calendar dates rather than written
    /// as a literal.
    pub fn new_katzenpost() -> (r: Self)
        ensures
            r.config().epoch == 1496275200u64,
            r.config().period == 10800u64,
    {
        Clock {
            cfg: Config {
                epoch: midnight_unix_seconds(2017, 6, 1),
                period: 3 * 60 * 60,
            },
        }
    }

    /// The snapshot describing the given instant, in seconds since the
    /// Unix epoch: the epoch index holding it, the seconds elapsed
    /// since that epoch began, and the seconds until the next one.
    /// All arithmetic wraps modulo 2^64, so an instant before the
    /// origin yields large degenerate values.
    pub fn get_epoch(&self, now_secs: u64) -> (r: Time)
        requires
            self.config().period != 0,
        ensures
            r == snapshot_at(self.config(), now_secs),
    {
        let from_epoch = now_secs.wrapping_sub(self.cfg.epoch);
        let current: u64 = from_epoch / self.cfg.period;
        let base = self.cfg.epoch.wrapping_add(current.wrapping_mul(self.cfg.period));
        let elapsed = now_secs.wrapping_sub(base);
        let till = base.wrapping_add(self.cfg.period).wrapping_sub(now_secs);
        Time { epoch: current, elapsed: elapsed, till: till }
    }

    /// The snapshot describing the current wall-clock instant.  Reads
    /// the system clock once; everything after the reading is a pure
    /// function of the configuration and the seconds read, so the
    /// result is some instant's snapshot whatever the clock returned.
    pub fn now(&self) -> (r: Time)
        requires
            self.config().period != 0,
        ensures
            exists|t: u64| r == snapshot_at(self.config(), t),
    {
        let t = unix_now();
        let r = self.get_epoch(t);
        proof {
            assert(r == snapshot_at(self.config(), t));
        }
        r
    }

    /// Whether instant `t` lies in epoch `e` of this clock's grid:
    /// true at the epoch's start and strictly inside it, false at its
    /// end, which opens the next epoch.  Never divides, so a zero
    /// period is acceptable here.
    pub fn is_in_epoch(&self, e: u64, t: u64) -> (r: bool)
        ensures
            r == in_epoch(self.config(), e, t),
    {
        let delta_start = e.wrapping_mul(self.cfg.period);
        let delta_end = e.wrapping_add(1).wrapping_mul(self.cfg.period);
        let start_time = self.cfg.epoch.wrapping_add(delta_start);
        let end_time = self.cfg.epoch.wrapping_add(delta_end);
        if t == start_time {
            return true;
        }
        if t > start_time && t < end_time {
            return true;
        }
        false
    }
}

/// Partition law: at every instant, with a nonzero period, the seconds
/// elapsed in the current epoch and the seconds remaining until the
/// next one together make up exactly one period, and the elapsed part
/// lies strictly inside it.  This holds even for the degenerate
/// wrapped-around snapshots of instants before the origin.
pub proof fn lemma_partition(cfg: Config, t: u64)
    requires
        cfg.period != 0,
    ensures
        snapshot_at(cfg, t).elapsed + snapshot_at(cfg, t).till == cfg.period,
        snapshot_at(cfg, t).elapsed < cfg.period,
{
    let o = cfg.epoch;
    let p = cfg.period;
    let d: u64 = t.wrapping_sub(o);
    let e: u64 = d / p;
    let em: u64 = e.wrapping_mul(p);
    let base: u64 = o.wrapping_add(em);
    let elapsed: u64 = t.wrapping_sub(base);
    let till: u64 = base.wrapping_add(p).wrapping_sub(t);
    assert(snapshot_at(cfg, t) == (Time { epoch: e, elapsed: elapsed, till: till }));
    let m: int = 0x1_0000_0000_0000_0000;
    vstd::arithmetic::div_mod::lemma_fundamental_div_mod(d as int, p as int);
    vstd::arithmetic::div_mod::lemma_mod_bound(d as int, p as int);
    let r: int = d as int % p as int;
    assert(e as int == d as int / p as int);
    assert(p as int * (e as int) == d - r);
    assert((e as int) * (p as int) == (p as int) * (e as int)) by (nonlinear_arith);
    assert((e as nat) * (p as nat) < m as nat);
    vstd::arithmetic::div_mod::lemma_small_mod((e as nat) * (p as nat), m as nat);
    assert(em as int == d - r);
    assert(elapsed == r);
    assert(till == p - r);
}

/// The end of epoch `e` is one period past its start, in wrapping
/// arithmetic, whatever the configuration.
proof fn lemma_end_is_start_plus_period(cfg: Config, e: u64)
    ensures
        epoch_end(cfg, e) == epoch_start(cfg, e).wrapping_add(cfg.period),
{
    let o = cfg.epoch;
    let p = cfg.period;
    let m: int = 0x1_0000_0000_0000_0000;
    let e1: u64 = e.wrapping_add(1);
    let a: u64 = e.wrapping_mul(p);
    let b: u64 = e1.wrapping_mul(p);
    if e == u64::MAX {
        vstd::arithmetic::div_mod::lemma_mod_multiples_basic(1, m);
        assert(e1 as int == (e as int + 1) % m);
    } else {
        vstd::arithmetic::div_mod::lemma_small_mod((e + 1) as nat, m as nat);
        assert(e1 as int == (e as int + 1) % m);
    }
    vstd::arithmetic::div_mod::lemma_mul_mod_noop_left(e as int + 1, p as int, m);
    assert(b as int == ((e as int + 1) * (p as int)) % m);
    assert((e as int + 1) * (p as int) == (e as int) * (p as int) + p as int) by (nonlinear_arith);
    vstd::arithmetic::div_mod::lemma_add_mod_noop((e as int) * (p as int), p as int, m);
    vstd::arithmetic::div_mod::lemma_small_mod(p as nat, m as nat);
    vstd::arithmetic::div_mod::lemma_mod_bound((e as int) * (p as int), m);
    assert(b as int == ((a as int) + (p as int)) % m);
    if (a as int + p as int) < m {
        vstd::arithmetic::div_mod::lemma_small_mod((a as nat) + (p as nat), m as nat);
        assert(b as int == a as int + p as int);
    } else {
        vstd::arithmetic::div_mod::lemma_mod_sub_multiples_vanish(a as int + p as int, m);
        vstd::arithmetic::div_mod::lemma_small_mod((a as int + p as int - m) as nat, m as nat);
        assert(b as int == a as int + p as int - m);
    }
    assert(o.wrapping_add(b) == o.wrapping_add(a).wrapping_add(p));
}

/// Epoch boundary law: with a nonzero period, every epoch's start lies
/// in that epoch, while its end does not: the end is exactly the start
/// of the next epoch and belongs to it.
pub proof fn lemma_epoch_boundary(cfg: Config, e: u64)
    requires
        cfg.period != 0,
    ensures
        in_epoch(cfg, e, epoch_start(cfg, e)),
        !in_epoch(cfg, e, epoch_end(cfg, e)),
        in_epoch(cfg, e.wrapping_add(1), epoch_end(cfg, e)),
{
    lemma_end_is_start_plus_period(cfg, e);
    assert(epoch_end(cfg, e) != epoch_start(cfg, e));
}

/// Membership consistency: the snapshot of an instant names an epoch
/// that holds that instant, whenever the epoch's span does not wrap
/// around the 64-bit range there.  The provisos are exact: they fail
/// only for instants whose wrapped epoch straddles 2^64, where the
/// membership predicate's plain ordering comparisons cannot see the
/// wrap.
pub proof fn lemma_membership(cfg: Config, t: u64)
    requires
        cfg.period != 0,
        snapshot_at(cfg, t).elapsed == 0 || (snapshot_at(cfg, t).elapsed <= t
            && snapshot_at(cfg, t).till <= u64::MAX - t),
    ensures
        in_epoch(cfg, snapshot_at(cfg, t).epoch, t),
{
    lemma_partition(cfg, t);
    let s = snapshot_at(cfg, t);
    lemma_end_is_start_plus_period(cfg, s.epoch);
    let base = epoch_start(cfg, s.epoch);
    assert(s.elapsed == t.wrapping_sub(base));
    assert(s.till == base.wrapping_add(cfg.period).wrapping_sub(t));
}

/// Monotonicity: of two instants on the same side of the origin, the
/// later one never lies in an earlier epoch.  An instant before the
/// origin wraps to a very large epoch index, so the law cannot cross
/// the origin.
pub proof fn lemma_monotonic(cfg: Config, t1: u64, t2: u64)
    requires
        cfg.period != 0,
        t1 < t2,
        cfg.epoch <= t1 || t2 < cfg.epoch,
    ensures
        snapshot_at(cfg, t1).epoch <= snapshot_at(cfg, t2).epoch,
{
    let d1: u64 = t1.wrapping_sub(cfg.epoch);
    let d2: u64 = t2.wrapping_sub(cfg.epoch);
    assert(d1 < d2);
    vstd::arithmetic::div_mod::lemma_div_is_ordered(d1 as int, d2 as int, cfg.period as int);
}

/// Determinism: two clocks over equal configurations describe every
/// instant identically.
pub proof fn lemma_deterministic(a: Clock, b: Clock, t: u64)
    requires
        a.config() == b.config(),
    ensures
        snapshot_at(a.config(), t) == snapshot_at(b.config(), t),
{
}

} // verus!
