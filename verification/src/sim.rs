use crate::arith::{div_floor, lemma_div_mag};
use vstd::arithmetic::div_mod::{
    lemma_div_denominator, lemma_div_is_ordered, lemma_div_multiples_vanish,
};
use vstd::prelude::*;

verus! {

pub const YEARS: u64 = 20;

pub const REDELEGATIONS_PER_YEAR: u64 = 1;

pub const TOTAL_STEPS: u64 = YEARS * REDELEGATIONS_PER_YEAR;

/// Rates are held in parts per million.
pub const PPM: i128 = 1_000_000;

/// Token amounts are held in micro-tokens.
pub const MICRO_PER_TOKEN: i128 = 1_000_000;

/// Fraction of the supply assumed to be staked: 0.7.
pub const STAKING_RATE_PPM: i128 = 700_000;

/// The nominal inflation rate decays by one percentage point per step-year.
pub const DECAY_PPM_PER_YEAR: i128 = 10_000;

pub const INITIAL_TOTAL_TOKENS_MICRO: i128 = 10_000_000 * 1_000_000;

pub const INITIAL_INFLATION_RATE_PPM: i128 = 150_000;

pub const INITIAL_DEV_SLICE_RATE_PPM: i128 = 200_000;

/// Machine-limit bounds: within them every intermediate product of the
/// transition fits in an `i128`.
pub const STEP_LIMIT: u64 = 1_000_000;

pub const RATE_LIMIT: i128 = 1_000_000_000;

pub const EFF_LIMIT: i128 = 11_000_000_000;

pub const AMOUNT_LIMIT: i128 = 1_000_000_000_000_000_000_000;

pub const REWARD_LIMIT: i128 = 20_000_000_000_000_000_000_000_000;

/// Bounds on the initial snapshot under which the fixed 20-step run provably
/// stays within `AMOUNT_LIMIT` at every step.
pub const SIM_INIT_AMOUNT_LIMIT: i128 = 100_000_000_000_000;

pub const SIM_RATE_LIMIT: i128 = 200_000;

/// One snapshot of the simulation state, in fixed-point units:
/// token amounts in micro-tokens, rates in parts per million.
#[derive(Clone, Copy, Debug, PartialEq, Eq, Structural)]
pub struct Period {
    pub total_tokens: i128,
    pub inflation_rate: i128,
    pub dev_slice_rate: i128,
    pub total_tokens_created: i128,
    pub total_tokens_created_dev_slice: i128,
    pub total_tokens_created_from_delegated_dev_slice: i128,
}

/// The mathematical value of a snapshot: the same six fields over `int`.
pub ghost struct PeriodModel {
    pub total_tokens: int,
    pub inflation_rate: int,
    pub dev_slice_rate: int,
    pub total_tokens_created: int,
    pub total_tokens_created_dev_slice: int,
    pub total_tokens_created_from_delegated_dev_slice: int,
}

impl View for Period {
    type V = PeriodModel;

    open spec fn view(&self) -> PeriodModel {
        PeriodModel {
            total_tokens: self.total_tokens as int,
            inflation_rate: self.inflation_rate as int,
            dev_slice_rate: self.dev_slice_rate as int,
            total_tokens_created: self.total_tokens_created as int,
            total_tokens_created_dev_slice: self.total_tokens_created_dev_slice as int,
            total_tokens_created_from_delegated_dev_slice:
                self.total_tokens_created_from_delegated_dev_slice as int,
        }
    }
}

pub open spec fn initial_model() -> PeriodModel {
    PeriodModel {
        total_tokens: INITIAL_TOTAL_TOKENS_MICRO as int,
        inflation_rate: INITIAL_INFLATION_RATE_PPM as int,
        dev_slice_rate: INITIAL_DEV_SLICE_RATE_PPM as int,
        total_tokens_created: 0,
        total_tokens_created_dev_slice: 0,
        total_tokens_created_from_delegated_dev_slice: 0,
    }
}

/// The per-step rate actually applied: the nominal rate, decayed linearly
/// with the step index and annualized to one redelegation period.
pub open spec fn effective_inflation_spec(i: int, inflation_rate: int) -> int {
    (inflation_rate - (i * DECAY_PPM_PER_YEAR) / (REDELEGATIONS_PER_YEAR as int))
        / (REDELEGATIONS_PER_YEAR as int)
}

/// `amount * (rate_ppm / 10^6) * (eff_ppm / 10^6)`, floored.
pub open spec fn reward_spec(amount: int, rate_ppm: int, eff_ppm: int) -> int {
    (amount * rate_ppm * eff_ppm) / (PPM * PPM)
}

/// `amount * (rate_ppm / 10^6)`, floored.
pub open spec fn slice_spec(amount: int, rate_ppm: int) -> int {
    (amount * rate_ppm) / (PPM as int)
}

pub open spec fn staking_rewards_spec(i: int, m: PeriodModel) -> int {
    reward_spec(
        m.total_tokens,
        STAKING_RATE_PPM as int,
        effective_inflation_spec(i, m.inflation_rate),
    )
}

pub open spec fn delegated_dev_rewards_spec(i: int, m: PeriodModel) -> int {
    reward_spec(
        m.total_tokens_created_from_delegated_dev_slice + m.total_tokens_created_dev_slice,
        STAKING_RATE_PPM as int,
        effective_inflation_spec(i, m.inflation_rate),
    )
}

/// The pure state transition for one step.
pub open spec fn redelegate_spec(i: int, m: PeriodModel) -> PeriodModel {
    let staking_rewards = staking_rewards_spec(i, m);
    let delegated_rewards = delegated_dev_rewards_spec(i, m);
    PeriodModel {
        total_tokens: m.total_tokens + staking_rewards,
        inflation_rate: m.inflation_rate,
        dev_slice_rate: m.dev_slice_rate,
        total_tokens_created: m.total_tokens_created + staking_rewards,
        total_tokens_created_dev_slice: m.total_tokens_created_dev_slice
            + slice_spec(staking_rewards, m.dev_slice_rate),
        total_tokens_created_from_delegated_dev_slice:
            m.total_tokens_created_from_delegated_dev_slice + delegated_rewards,
    }
}

/// The state after `n` steps from `init`.
pub open spec fn run_spec(init: PeriodModel, n: nat) -> PeriodModel
    decreases n,
{
    if n == 0 {
        init
    } else {
        redelegate_spec(n - 1, run_spec(init, (n - 1) as nat))
    }
}

pub fn effective_inflation(i: u64, inflation_rate: i128) -> (eff: i128)
    requires
        i <= STEP_LIMIT,
        -RATE_LIMIT <= inflation_rate <= RATE_LIMIT,
    ensures
        eff == effective_inflation_spec(i as int, inflation_rate as int),
        -EFF_LIMIT <= eff <= EFF_LIMIT,
{
    let r: i128 = REDELEGATIONS_PER_YEAR as i128;
    let decay: i128 = div_floor((i as i128) * DECAY_PPM_PER_YEAR, r);
    div_floor(inflation_rate - decay, r)
}

fn scaled_reward(amount: i128, eff: i128) -> (s: i128)
    requires
        -2 * AMOUNT_LIMIT <= amount <= 2 * AMOUNT_LIMIT,
        -EFF_LIMIT <= eff <= EFF_LIMIT,
    ensures
        s == reward_spec(amount as int, STAKING_RATE_PPM as int, eff as int),
        -REWARD_LIMIT <= s <= REWARD_LIMIT,
{
    let p1: i128 = amount * STAKING_RATE_PPM;
    proof {
        assert(-2 * AMOUNT_LIMIT * STAKING_RATE_PPM * EFF_LIMIT <= p1 * eff
            <= 2 * AMOUNT_LIMIT * STAKING_RATE_PPM * EFF_LIMIT) by (nonlinear_arith)
            requires
                -2 * AMOUNT_LIMIT * STAKING_RATE_PPM <= p1 <= 2 * AMOUNT_LIMIT * STAKING_RATE_PPM,
                -EFF_LIMIT <= eff <= EFF_LIMIT;
    }
    let p2: i128 = p1 * eff;
    let q: i128 = div_floor(p2, PPM * PPM);
    proof {
        lemma_div_mag(
            p2 as int,
            (PPM * PPM) as int,
            2 * AMOUNT_LIMIT * STAKING_RATE_PPM * EFF_LIMIT,
        );
    }
    q
}

fn scaled_slice(amount: i128, rate_ppm: i128) -> (s: i128)
    requires
        -REWARD_LIMIT <= amount <= REWARD_LIMIT,
        -PPM <= rate_ppm <= PPM,
    ensures
        s == slice_spec(amount as int, rate_ppm as int),
        -REWARD_LIMIT * PPM <= s <= REWARD_LIMIT * PPM,
{
    proof {
        assert(-REWARD_LIMIT * PPM <= amount * rate_ppm <= REWARD_LIMIT * PPM)
            by (nonlinear_arith)
            requires
                -REWARD_LIMIT <= amount <= REWARD_LIMIT,
                -PPM <= rate_ppm <= PPM;
    }
    let p: i128 = amount * rate_ppm;
    div_floor(p, PPM)
}

/// One simulation step: mint staking rewards at the effective inflation
/// rate, credit the dev slice with its fraction of them, and compound the
/// rewards earned by previously minted dev-slice tokens.
pub fn redelegate(i: u64, last_period: Period) -> (next: Period)
    requires
        i <= STEP_LIMIT,
        -RATE_LIMIT <= last_period.inflation_rate <= RATE_LIMIT,
        0 <= last_period.dev_slice_rate <= PPM,
        -AMOUNT_LIMIT <= last_period.total_tokens <= AMOUNT_LIMIT,
        -AMOUNT_LIMIT <= last_period.total_tokens_created <= AMOUNT_LIMIT,
        -AMOUNT_LIMIT <= last_period.total_tokens_created_dev_slice <= AMOUNT_LIMIT,
        -AMOUNT_LIMIT <= last_period.total_tokens_created_from_delegated_dev_slice
            <= AMOUNT_LIMIT,
    ensures
        next@ == redelegate_spec(i as int, last_period@),
{
    let eff: i128 = effective_inflation(i, last_period.inflation_rate);
    let staking_rewards: i128 = scaled_reward(last_period.total_tokens, eff);
    let staking_rewards_delegated_dev_slice: i128 = scaled_reward(
        last_period.total_tokens_created_from_delegated_dev_slice
            + last_period.total_tokens_created_dev_slice,
        eff,
    );
    let dev_slice_increment: i128 = scaled_slice(staking_rewards, last_period.dev_slice_rate);
    Period {
        total_tokens: last_period.total_tokens + staking_rewards,
        inflation_rate: last_period.inflation_rate,
        dev_slice_rate: last_period.dev_slice_rate,
        total_tokens_created: last_period.total_tokens_created + staking_rewards,
        total_tokens_created_dev_slice: last_period.total_tokens_created_dev_slice
            + dev_slice_increment,
        total_tokens_created_from_delegated_dev_slice:
            last_period.total_tokens_created_from_delegated_dev_slice
                + staking_rewards_delegated_dev_slice,
    }
}

/// How far one step can move any token amount: starting within `b`, every
/// amount field of the next snapshot stays within `2 * b`.
pub proof fn lemma_redelegate_spec_mag(i: int, m: PeriodModel, b: int)
    requires
        0 <= i < TOTAL_STEPS,
        -SIM_RATE_LIMIT <= m.inflation_rate <= SIM_RATE_LIMIT,
        0 <= m.dev_slice_rate <= PPM,
        10 <= b,
        -b <= m.total_tokens <= b,
        -b <= m.total_tokens_created <= b,
        -b <= m.total_tokens_created_dev_slice <= b,
        -b <= m.total_tokens_created_from_delegated_dev_slice <= b,
    ensures
        redelegate_spec(i, m).inflation_rate == m.inflation_rate,
        redelegate_spec(i, m).dev_slice_rate == m.dev_slice_rate,
        -2 * b <= redelegate_spec(i, m).total_tokens <= 2 * b,
        -2 * b <= redelegate_spec(i, m).total_tokens_created <= 2 * b,
        -2 * b <= redelegate_spec(i, m).total_tokens_created_dev_slice <= 2 * b,
        -2 * b <= redelegate_spec(i, m).total_tokens_created_from_delegated_dev_slice <= 2 * b,
{
    let t = (i * DECAY_PPM_PER_YEAR) / (REDELEGATIONS_PER_YEAR as int);
    lemma_div_multiples_vanish(i * DECAY_PPM_PER_YEAR, 1);
    assert(t == i * DECAY_PPM_PER_YEAR);
    let eff = effective_inflation_spec(i, m.inflation_rate);
    lemma_div_multiples_vanish(m.inflation_rate - t, 1);
    assert(eff == m.inflation_rate - t);
    assert(-390_000 <= eff <= 390_000);

    // staking rewards stay within b / 2 + 1
    let s = staking_rewards_spec(i, m);
    let p1 = m.total_tokens * (STAKING_RATE_PPM as int);
    assert(-(b * 500_000_000_000) <= p1 * eff <= b * 500_000_000_000) by (nonlinear_arith)
        requires
            -(b * 700_000) <= p1 <= b * 700_000,
            -390_000 <= eff <= 390_000,
            0 <= b;
    lemma_div_mag(p1 * eff, 1_000_000_000_000, b * 500_000_000_000);
    lemma_div_denominator(b * 500_000_000_000, 500_000_000_000, 2);
    lemma_div_multiples_vanish(b, 500_000_000_000);
    assert((b * 500_000_000_000) / 1_000_000_000_000 == b / 2);
    assert(-(b / 2) - 1 <= s <= b / 2 + 1);
    lemma_div_is_ordered(b, 2 * (b - 1), 2);
    lemma_div_multiples_vanish(b - 1, 2);
    assert(b / 2 + 1 <= b);

    // the dev-slice increment stays within b / 2 + 2
    let inc = slice_spec(s, m.dev_slice_rate);
    assert(-((b / 2 + 1) * (PPM as int)) <= s * m.dev_slice_rate
        <= (b / 2 + 1) * (PPM as int)) by (nonlinear_arith)
        requires
            -(b / 2) - 1 <= s <= b / 2 + 1,
            0 <= m.dev_slice_rate <= PPM,
            0 <= b / 2;
    lemma_div_mag(s * m.dev_slice_rate, PPM as int, (b / 2 + 1) * (PPM as int));
    lemma_div_multiples_vanish(b / 2 + 1, PPM as int);
    assert(((b / 2 + 1) * (PPM as int)) / (PPM as int) == b / 2 + 1);
    assert(-(b / 2) - 3 <= inc <= b / 2 + 2);
    lemma_div_is_ordered(b, 2 * (b - 3), 2);
    lemma_div_multiples_vanish(b - 3, 2);
    assert(b / 2 + 3 <= b);

    // rewards on the previously minted dev-slice tokens stay within (6b)/10 + 1
    let sd = delegated_dev_rewards_spec(i, m);
    let amount2 = m.total_tokens_created_from_delegated_dev_slice
        + m.total_tokens_created_dev_slice;
    let p2 = amount2 * (STAKING_RATE_PPM as int);
    assert(-(b * 600_000_000_000) <= p2 * eff <= b * 600_000_000_000) by (nonlinear_arith)
        requires
            -(b * 1_400_000) <= p2 <= b * 1_400_000,
            -390_000 <= eff <= 390_000,
            0 <= b;
    lemma_div_mag(p2 * eff, 1_000_000_000_000, b * 600_000_000_000);
    lemma_div_denominator(b * 600_000_000_000, 100_000_000_000, 10);
    lemma_div_multiples_vanish(6 * b, 100_000_000_000);
    assert((b * 600_000_000_000) / 1_000_000_000_000 == (6 * b) / 10);
    assert(-((6 * b) / 10) - 1 <= sd <= (6 * b) / 10 + 1);
    lemma_div_is_ordered(6 * b, 10 * (b - 1), 10);
    lemma_div_multiples_vanish(b - 1, 10);
    assert((6 * b) / 10 + 1 <= b);
}

/// The amount bound that the fixed-horizon run provably keeps: it doubles
/// once per step from the bound on the initial snapshot.
pub open spec fn sim_mag_bound(n: nat) -> int
    decreases n,
{
    if n == 0 {
        SIM_INIT_AMOUNT_LIMIT as int
    } else {
        2 * sim_mag_bound((n - 1) as nat)
    }
}

pub proof fn lemma_sim_mag_bound_pos(n: nat)
    ensures
        sim_mag_bound(n) >= SIM_INIT_AMOUNT_LIMIT,
    decreases n,
{
    if n > 0 {
        lemma_sim_mag_bound_pos((n - 1) as nat);
    }
}

pub proof fn lemma_sim_mag_bound_le(n: nat)
    requires
        n <= TOTAL_STEPS,
    ensures
        sim_mag_bound(n) <= AMOUNT_LIMIT,
    decreases TOTAL_STEPS - n,
{
    if n < TOTAL_STEPS {
        lemma_sim_mag_bound_pos(n);
        lemma_sim_mag_bound_le((n + 1) as nat);
        assert(sim_mag_bound((n + 1) as nat) == 2 * sim_mag_bound(n));
    } else {
        assert(sim_mag_bound(TOTAL_STEPS as nat) == 104_857_600_000_000_000_000) by {
            reveal_with_fuel(sim_mag_bound, 21);
        }
    }
}

/// Every snapshot of a run from a bounded initial snapshot keeps its rates
/// and stays within the doubling amount bound.
pub proof fn lemma_run_spec_mag(init: PeriodModel, n: nat)
    requires
        n <= TOTAL_STEPS,
        -SIM_RATE_LIMIT <= init.inflation_rate <= SIM_RATE_LIMIT,
        0 <= init.dev_slice_rate <= PPM,
        -SIM_INIT_AMOUNT_LIMIT <= init.total_tokens <= SIM_INIT_AMOUNT_LIMIT,
        -SIM_INIT_AMOUNT_LIMIT <= init.total_tokens_created <= SIM_INIT_AMOUNT_LIMIT,
        -SIM_INIT_AMOUNT_LIMIT <= init.total_tokens_created_dev_slice <= SIM_INIT_AMOUNT_LIMIT,
        -SIM_INIT_AMOUNT_LIMIT <= init.total_tokens_created_from_delegated_dev_slice
            <= SIM_INIT_AMOUNT_LIMIT,
    ensures
        run_spec(init, n).inflation_rate == init.inflation_rate,
        run_spec(init, n).dev_slice_rate == init.dev_slice_rate,
        -sim_mag_bound(n) <= run_spec(init, n).total_tokens <= sim_mag_bound(n),
        -sim_mag_bound(n) <= run_spec(init, n).total_tokens_created <= sim_mag_bound(n),
        -sim_mag_bound(n) <= run_spec(init, n).total_tokens_created_dev_slice
            <= sim_mag_bound(n),
        -sim_mag_bound(n) <= run_spec(init, n).total_tokens_created_from_delegated_dev_slice
            <= sim_mag_bound(n),
    decreases n,
{
    if n > 0 {
        lemma_run_spec_mag(init, (n - 1) as nat);
        lemma_sim_mag_bound_pos((n - 1) as nat);
        lemma_redelegate_spec_mag(
            n - 1,
            run_spec(init, (n - 1) as nat),
            sim_mag_bound((n - 1) as nat),
        );
    }
}

/// The initial snapshot: ten million tokens in circulation, a nominal
/// inflation rate of 0.15, a dev-slice fraction of 0.2, nothing minted yet.
pub fn initial_period() -> (p: Period)
    ensures
        p@ == initial_model(),
{
    Period {
        total_tokens: INITIAL_TOTAL_TOKENS_MICRO,
        inflation_rate: INITIAL_INFLATION_RATE_PPM,
        dev_slice_rate: INITIAL_DEV_SLICE_RATE_PPM,
        total_tokens_created: 0,
        total_tokens_created_dev_slice: 0,
        total_tokens_created_from_delegated_dev_slice: 0,
    }
}

/// Run the full fixed-horizon simulation: the snapshot after each of the
/// `TOTAL_STEPS` steps, in order.
pub fn simulate(init: Period) -> (history: Vec<Period>)
    requires
        -SIM_RATE_LIMIT <= init.inflation_rate <= SIM_RATE_LIMIT,
        0 <= init.dev_slice_rate <= PPM,
        -SIM_INIT_AMOUNT_LIMIT <= init.total_tokens <= SIM_INIT_AMOUNT_LIMIT,
        -SIM_INIT_AMOUNT_LIMIT <= init.total_tokens_created <= SIM_INIT_AMOUNT_LIMIT,
        -SIM_INIT_AMOUNT_LIMIT <= init.total_tokens_created_dev_slice <= SIM_INIT_AMOUNT_LIMIT,
        -SIM_INIT_AMOUNT_LIMIT <= init.total_tokens_created_from_delegated_dev_slice
            <= SIM_INIT_AMOUNT_LIMIT,
    ensures
        history@.len() == TOTAL_STEPS,
        forall|k: int|
            0 <= k < TOTAL_STEPS ==> (#[trigger] history@[k])@ == run_spec(
                init@,
                (k + 1) as nat,
            ),
{
    let mut history: Vec<Period> = Vec::new();
    let mut period: Period = init;
    let mut i: u64 = 0;
    while i < TOTAL_STEPS
        invariant
            i <= TOTAL_STEPS,
            period@ == run_spec(init@, i as nat),
            history@.len() == i as int,
            forall|k: int|
                0 <= k < i ==> (#[trigger] history@[k])@ == run_spec(init@, (k + 1) as nat),
            -SIM_RATE_LIMIT <= init.inflation_rate <= SIM_RATE_LIMIT,
            0 <= init.dev_slice_rate <= PPM,
            -SIM_INIT_AMOUNT_LIMIT <= init.total_tokens <= SIM_INIT_AMOUNT_LIMIT,
            -SIM_INIT_AMOUNT_LIMIT <= init.total_tokens_created <= SIM_INIT_AMOUNT_LIMIT,
            -SIM_INIT_AMOUNT_LIMIT <= init.total_tokens_created_dev_slice
                <= SIM_INIT_AMOUNT_LIMIT,
            -SIM_INIT_AMOUNT_LIMIT <= init.total_tokens_created_from_delegated_dev_slice
                <= SIM_INIT_AMOUNT_LIMIT,
        decreases TOTAL_STEPS - i,
    {
        proof {
            lemma_run_spec_mag(init@, i as nat);
            lemma_sim_mag_bound_le(i as nat);
            lemma_sim_mag_bound_pos(i as nat);
        }
        period = redelegate(i, period);
        proof {
            assert(run_spec(init@, (i + 1) as nat) == redelegate_spec(
                i as int,
                run_spec(init@, i as nat),
            ));
        }
        history.push(period);
        i = i + 1;
    }
    history
}

/// The `(step, total_tokens)` sequence of a run, for charting.
pub fn total_tokens_series(history: &Vec<Period>) -> (s: Vec<(u64, i128)>)
    ensures
        s@.len() == history@.len(),
        forall|k: int|
            0 <= k < history@.len() ==> #[trigger] s@[k] == (k as u64, history@[k].total_tokens),
{
    let mut s: Vec<(u64, i128)> = Vec::new();
    let mut idx: usize = 0;
    while idx < history.len()
        invariant
            idx <= history@.len(),
            s@.len() == idx as int,
            forall|k: int|
                0 <= k < idx ==> #[trigger] s@[k] == (k as u64, history@[k].total_tokens),
        decreases history@.len() - idx,
    {
        s.push((idx as u64, history[idx].total_tokens));
        idx = idx + 1;
    }
    s
}

/// The `(step, total_tokens_created)` sequence of a run.
pub fn total_tokens_created_series(history: &Vec<Period>) -> (s: Vec<(u64, i128)>)
    ensures
        s@.len() == history@.len(),
        forall|k: int|
            0 <= k < history@.len() ==> #[trigger] s@[k] == (
                k as u64,
                history@[k].total_tokens_created,
            ),
{
    let mut s: Vec<(u64, i128)> = Vec::new();
    let mut idx: usize = 0;
    while idx < history.len()
        invariant
            idx <= history@.len(),
            s@.len() == idx as int,
            forall|k: int|
                0 <= k < idx ==> #[trigger] s@[k] == (k as u64, history@[k].total_tokens_created),
        decreases history@.len() - idx,
    {
        s.push((idx as u64, history[idx].total_tokens_created));
        idx = idx + 1;
    }
    s
}

/// The `(step, total_tokens_created_dev_slice)` sequence of a run.
pub fn total_tokens_created_dev_slice_series(history: &Vec<Period>) -> (s: Vec<(u64, i128)>)
    ensures
        s@.len() == history@.len(),
        forall|k: int|
            0 <= k < history@.len() ==> #[trigger] s@[k] == (
                k as u64,
                history@[k].total_tokens_created_dev_slice,
            ),
{
    let mut s: Vec<(u64, i128)> = Vec::new();
    let mut idx: usize = 0;
    while idx < history.len()
        invariant
            idx <= history@.len(),
            s@.len() == idx as int,
            forall|k: int|
                0 <= k < idx ==> #[trigger] s@[k] == (
                    k as u64,
                    history@[k].total_tokens_created_dev_slice,
                ),
        decreases history@.len() - idx,
    {
        s.push((idx as u64, history[idx].total_tokens_created_dev_slice));
        idx = idx + 1;
    }
    s
}

/// The `(step, total_tokens_created_from_delegated_dev_slice)` sequence of a run.
pub fn total_tokens_created_from_delegated_dev_slice_series(
    history: &Vec<Period>,
) -> (s: Vec<(u64, i128)>)
    ensures
        s@.len() == history@.len(),
        forall|k: int|
            0 <= k < history@.len() ==> #[trigger] s@[k] == (
                k as u64,
                history@[k].total_tokens_created_from_delegated_dev_slice,
            ),
{
    let mut s: Vec<(u64, i128)> = Vec::new();
    let mut idx: usize = 0;
    while idx < history.len()
        invariant
            idx <= history@.len(),
            s@.len() == idx as int,
            forall|k: int|
                0 <= k < idx ==> #[trigger] s@[k] == (
                    k as u64,
                    history@[k].total_tokens_created_from_delegated_dev_slice,
                ),
        decreases history@.len() - idx,
    {
        s.push((idx as u64, history[idx].total_tokens_created_from_delegated_dev_slice));
        idx = idx + 1;
    }
    s
}

/// The full run from the fixed initial snapshot.
pub fn simulate_default() -> (history: Vec<Period>)
    ensures
        history@.len() == TOTAL_STEPS,
        forall|k: int|
            0 <= k < TOTAL_STEPS ==> (#[trigger] history@[k])@ == run_spec(
                initial_model(),
                (k + 1) as nat,
            ),
{
    let init: Period = initial_period();
    simulate(init)
}

} // verus!
