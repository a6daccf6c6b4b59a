use crate::arith::lemma_div_concrete;
use crate::sim::{
    delegated_dev_rewards_spec, effective_inflation_spec, initial_model, redelegate_spec,
    run_spec, slice_spec, staking_rewards_spec, PeriodModel, DECAY_PPM_PER_YEAR,
    INITIAL_INFLATION_RATE_PPM, PPM, STAKING_RATE_PPM, TOTAL_STEPS,
};
use vstd::arithmetic::div_mod::{
    lemma_div_multiples_vanish, lemma_div_pos_is_pos, lemma_fundamental_div_mod,
    lemma_mod_division_less_than_divisor,
};
use vstd::arithmetic::mul::{
    lemma_mul_inequality, lemma_mul_is_distributive_add, lemma_mul_nonnegative,
};
use vstd::prelude::*;

verus! {

/// The effective inflation rate is the nominal rate minus one percentage
/// point per step: with one redelegation per year both divisions are exact.
pub proof fn lemma_effective_inflation_linear(i: int, inflation_rate: int)
    ensures
        effective_inflation_spec(i, inflation_rate) == inflation_rate - i * DECAY_PPM_PER_YEAR,
{
    lemma_div_multiples_vanish(i * DECAY_PPM_PER_YEAR, 1);
    lemma_div_multiples_vanish(inflation_rate - i * DECAY_PPM_PER_YEAR, 1);
}

/// Under the fixed nominal rate of 0.15 the effective rate decays linearly,
/// stays nonnegative through step 15, and is negative from step 16 on.
pub proof fn lemma_effective_inflation_decays(i: int)
    requires
        0 <= i,
    ensures
        effective_inflation_spec(i, INITIAL_INFLATION_RATE_PPM as int)
            == INITIAL_INFLATION_RATE_PPM - i * DECAY_PPM_PER_YEAR,
        effective_inflation_spec(i + 1, INITIAL_INFLATION_RATE_PPM as int)
            == effective_inflation_spec(i, INITIAL_INFLATION_RATE_PPM as int)
                - DECAY_PPM_PER_YEAR,
        i <= 15 ==> effective_inflation_spec(i, INITIAL_INFLATION_RATE_PPM as int) >= 0,
        i >= 16 ==> effective_inflation_spec(i, INITIAL_INFLATION_RATE_PPM as int) < 0,
{
    lemma_effective_inflation_linear(i, INITIAL_INFLATION_RATE_PPM as int);
    lemma_effective_inflation_linear(i + 1, INITIAL_INFLATION_RATE_PPM as int);
}

/// `total_tokens` and `total_tokens_created` accumulate the same per-step
/// increments, so after any number of steps they have moved by the same
/// amount from their initial values.
pub proof fn lemma_created_tracks_total_tokens(init: PeriodModel, n: nat)
    ensures
        run_spec(init, n).total_tokens - init.total_tokens
            == run_spec(init, n).total_tokens_created - init.total_tokens_created,
    decreases n,
{
    if n > 0 {
        lemma_created_tracks_total_tokens(init, (n - 1) as nat);
    }
}

/// One step keeps the dev slice at no more than its fraction of total
/// creation: scaled by the fixed-point unit, the dev-slice total never
/// exceeds `dev_slice_rate` times the creation total.
pub proof fn lemma_dev_slice_share_step(i: int, m: PeriodModel)
    requires
        0 <= m.dev_slice_rate <= PPM,
        PPM * m.total_tokens_created_dev_slice
            <= m.dev_slice_rate * m.total_tokens_created,
    ensures
        PPM * redelegate_spec(i, m).total_tokens_created_dev_slice
            <= redelegate_spec(i, m).dev_slice_rate
                * redelegate_spec(i, m).total_tokens_created,
{
    let s = staking_rewards_spec(i, m);
    let r = m.dev_slice_rate;
    let inc = slice_spec(s, r);
    lemma_fundamental_div_mod(s * r, PPM as int);
    lemma_mod_division_less_than_divisor(s * r, PPM as int);
    assert((PPM as int) * inc <= s * r);
    lemma_mul_is_distributive_add(r, m.total_tokens_created, s);
}

/// After any number of steps the dev slice is still at most its fraction of
/// total creation; whenever the creation total is nonnegative this gives
/// `total_tokens_created_dev_slice <= total_tokens_created`.
pub proof fn lemma_dev_slice_share_run(init: PeriodModel, n: nat)
    requires
        0 <= init.dev_slice_rate <= PPM,
        PPM * init.total_tokens_created_dev_slice
            <= init.dev_slice_rate * init.total_tokens_created,
    ensures
        run_spec(init, n).dev_slice_rate == init.dev_slice_rate,
        PPM * run_spec(init, n).total_tokens_created_dev_slice
            <= run_spec(init, n).dev_slice_rate * run_spec(init, n).total_tokens_created,
        run_spec(init, n).total_tokens_created >= 0
            ==> run_spec(init, n).total_tokens_created_dev_slice
                <= run_spec(init, n).total_tokens_created,
    decreases n,
{
    if n > 0 {
        lemma_dev_slice_share_run(init, (n - 1) as nat);
        lemma_dev_slice_share_step(n - 1, run_spec(init, (n - 1) as nat));
    }
    let c = run_spec(init, n).total_tokens_created;
    let d = run_spec(init, n).total_tokens_created_dev_slice;
    let r = run_spec(init, n).dev_slice_rate;
    if c >= 0 {
        lemma_mul_inequality(r, PPM as int, c);
        assert((PPM as int) * d <= (PPM as int) * c);
    }
}

/// While the effective inflation rate is nonnegative, a step from a
/// nonnegative state moves every token amount up, never down.
pub proof fn lemma_step_monotone(i: int, m: PeriodModel)
    requires
        effective_inflation_spec(i, m.inflation_rate) >= 0,
        0 <= m.dev_slice_rate,
        m.total_tokens >= 0,
        m.total_tokens_created >= 0,
        m.total_tokens_created_dev_slice >= 0,
        m.total_tokens_created_from_delegated_dev_slice >= 0,
    ensures
        redelegate_spec(i, m).total_tokens >= m.total_tokens,
        redelegate_spec(i, m).total_tokens_created >= m.total_tokens_created,
        redelegate_spec(i, m).total_tokens_created_dev_slice
            >= m.total_tokens_created_dev_slice,
        redelegate_spec(i, m).total_tokens_created_from_delegated_dev_slice
            >= m.total_tokens_created_from_delegated_dev_slice,
        staking_rewards_spec(i, m) >= 0,
        delegated_dev_rewards_spec(i, m) >= 0,
{
    let eff = effective_inflation_spec(i, m.inflation_rate);
    lemma_mul_nonnegative(m.total_tokens * (STAKING_RATE_PPM as int), eff);
    lemma_div_pos_is_pos(m.total_tokens * (STAKING_RATE_PPM as int) * eff, (PPM * PPM) as int);
    let s = staking_rewards_spec(i, m);
    let amount2 = m.total_tokens_created_from_delegated_dev_slice
        + m.total_tokens_created_dev_slice;
    lemma_mul_nonnegative(amount2 * (STAKING_RATE_PPM as int), eff);
    lemma_div_pos_is_pos(amount2 * (STAKING_RATE_PPM as int) * eff, (PPM * PPM) as int);
    lemma_mul_nonnegative(s, m.dev_slice_rate);
    lemma_div_pos_is_pos(s * m.dev_slice_rate, PPM as int);
}

/// As long as every step taken so far had a nonnegative effective inflation
/// rate, all four cumulative series are nonnegative and nondecreasing.
pub proof fn lemma_run_monotone(init: PeriodModel, n: nat)
    requires
        forall|j: int|
            0 <= j < n ==> effective_inflation_spec(j, init.inflation_rate) >= 0,
        0 <= init.dev_slice_rate,
        init.total_tokens >= 0,
        init.total_tokens_created >= 0,
        init.total_tokens_created_dev_slice >= 0,
        init.total_tokens_created_from_delegated_dev_slice >= 0,
    ensures
        run_spec(init, n).inflation_rate == init.inflation_rate,
        run_spec(init, n).dev_slice_rate == init.dev_slice_rate,
        run_spec(init, n).total_tokens >= 0,
        run_spec(init, n).total_tokens_created >= 0,
        run_spec(init, n).total_tokens_created_dev_slice >= 0,
        run_spec(init, n).total_tokens_created_from_delegated_dev_slice >= 0,
        n > 0 ==> run_spec(init, n).total_tokens >= run_spec(init, (n - 1) as nat).total_tokens,
        n > 0 ==> run_spec(init, n).total_tokens_created
            >= run_spec(init, (n - 1) as nat).total_tokens_created,
        n > 0 ==> run_spec(init, n).total_tokens_created_dev_slice
            >= run_spec(init, (n - 1) as nat).total_tokens_created_dev_slice,
        n > 0 ==> run_spec(init, n).total_tokens_created_from_delegated_dev_slice
            >= run_spec(init, (n - 1) as nat).total_tokens_created_from_delegated_dev_slice,
    decreases n,
{
    if n > 0 {
        lemma_run_monotone(init, (n - 1) as nat);
        lemma_step_monotone(n - 1, run_spec(init, (n - 1) as nat));
    }
}

/// The two laws above, for the run the program actually makes: from the
/// fixed initial snapshot the dev slice stays within its 0.2 share of total
/// creation, and through step 15 every cumulative series is nonnegative and
/// nondecreasing.
pub proof fn lemma_default_run(n: nat)
    ensures
        PPM * run_spec(initial_model(), n).total_tokens_created_dev_slice
            <= run_spec(initial_model(), n).dev_slice_rate
                * run_spec(initial_model(), n).total_tokens_created,
        n <= 16 ==> run_spec(initial_model(), n).total_tokens_created_dev_slice
            <= run_spec(initial_model(), n).total_tokens_created,
        n <= 16 ==> run_spec(initial_model(), n).total_tokens_created >= 0,
        1 <= n <= 16 ==> run_spec(initial_model(), n).total_tokens_created
            >= run_spec(initial_model(), (n - 1) as nat).total_tokens_created,
        1 <= n <= 16 ==> run_spec(initial_model(), n).total_tokens_created_dev_slice
            >= run_spec(initial_model(), (n - 1) as nat).total_tokens_created_dev_slice,
        1 <= n <= 16 ==> run_spec(initial_model(), n).total_tokens_created_from_delegated_dev_slice
            >= run_spec(
                initial_model(),
                (n - 1) as nat,
            ).total_tokens_created_from_delegated_dev_slice,
        1 <= n <= 16 ==> run_spec(initial_model(), n).total_tokens
            >= run_spec(initial_model(), (n - 1) as nat).total_tokens,
{
    lemma_dev_slice_share_run(initial_model(), n);
    if n <= 16 {
        assert forall|j: int|
            0 <= j < n implies effective_inflation_spec(
            j,
            initial_model().inflation_rate,
        ) >= 0 by {
            lemma_effective_inflation_decays(j);
        }
        lemma_run_monotone(initial_model(), n);
    }
}

proof fn lemma_default_run_value_1()
    ensures
        run_spec(initial_model(), 1) == (PeriodModel {
        total_tokens: 11050000000000,
        inflation_rate: 150_000,
        dev_slice_rate: 200_000,
        total_tokens_created: 1050000000000,
        total_tokens_created_dev_slice: 210000000000,
        total_tokens_created_from_delegated_dev_slice: 0,
    }),
{
    lemma_effective_inflation_linear(0, 150_000);
    let m = run_spec(initial_model(), 0);
    let eff = effective_inflation_spec(0, 150_000);
    assert(eff == 150000);
    assert(m.total_tokens * (STAKING_RATE_PPM as int) * eff == 1050000000000000000000000);
    lemma_div_concrete(1050000000000000000000000, 1_000_000_000_000, 1050000000000, 0);
    assert(staking_rewards_spec(0, m) == 1050000000000);
    assert((m.total_tokens_created_from_delegated_dev_slice
        + m.total_tokens_created_dev_slice) * (STAKING_RATE_PPM as int) * eff == 0);
    lemma_div_concrete(0, 1_000_000_000_000, 0, 0);
    assert(delegated_dev_rewards_spec(0, m) == 0);
    lemma_div_concrete(210000000000000000, 1_000_000, 210000000000, 0);
    assert(slice_spec(1050000000000, 200_000) == 210000000000);
    assert(run_spec(initial_model(), 1) == redelegate_spec(0, m));
}

proof fn lemma_default_run_value_2()
    ensures
        run_spec(initial_model(), 2) == (PeriodModel {
        total_tokens: 12132900000000,
        inflation_rate: 150_000,
        dev_slice_rate: 200_000,
        total_tokens_created: 2132900000000,
        total_tokens_created_dev_slice: 426580000000,
        total_tokens_created_from_delegated_dev_slice: 20580000000,
    }),
{
    lemma_default_run_value_1();
    lemma_effective_inflation_linear(1, 150_000);
    let m = run_spec(initial_model(), 1);
    let eff = effective_inflation_spec(1, 150_000);
    assert(eff == 140000);
    assert(m.total_tokens * (STAKING_RATE_PPM as int) * eff == 1082900000000000000000000);
    lemma_div_concrete(1082900000000000000000000, 1_000_000_000_000, 1082900000000, 0);
    assert(staking_rewards_spec(1, m) == 1082900000000);
    assert((m.total_tokens_created_from_delegated_dev_slice
        + m.total_tokens_created_dev_slice) * (STAKING_RATE_PPM as int) * eff == 20580000000000000000000);
    lemma_div_concrete(20580000000000000000000, 1_000_000_000_000, 20580000000, 0);
    assert(delegated_dev_rewards_spec(1, m) == 20580000000);
    lemma_div_concrete(216580000000000000, 1_000_000, 216580000000, 0);
    assert(slice_spec(1082900000000, 200_000) == 216580000000);
    assert(run_spec(initial_model(), 2) == redelegate_spec(1, m));
}

proof fn lemma_default_run_value_3()
    ensures
        run_spec(initial_model(), 3) == (PeriodModel {
        total_tokens: 13236993900000,
        inflation_rate: 150_000,
        dev_slice_rate: 200_000,
        total_tokens_created: 3236993900000,
        total_tokens_created_dev_slice: 647398780000,
        total_tokens_created_from_delegated_dev_slice: 61271560000,
    }),
{
    lemma_default_run_value_2();
    lemma_effective_inflation_linear(2, 150_000);
    let m = run_spec(initial_model(), 2);
    let eff = effective_inflation_spec(2, 150_000);
    assert(eff == 130000);
    assert(m.total_tokens * (STAKING_RATE_PPM as int) * eff == 1104093900000000000000000);
    lemma_div_concrete(1104093900000000000000000, 1_000_000_000_000, 1104093900000, 0);
    assert(staking_rewards_spec(2, m) == 1104093900000);
    assert((m.total_tokens_created_from_delegated_dev_slice
        + m.total_tokens_created_dev_slice) * (STAKING_RATE_PPM as int) * eff == 40691560000000000000000);
    lemma_div_concrete(40691560000000000000000, 1_000_000_000_000, 40691560000, 0);
    assert(delegated_dev_rewards_spec(2, m) == 40691560000);
    lemma_div_concrete(220818780000000000, 1_000_000, 220818780000, 0);
    assert(slice_spec(1104093900000, 200_000) == 220818780000);
    assert(run_spec(initial_model(), 3) == redelegate_spec(2, m));
}

proof fn lemma_default_run_value_4()
    ensures
        run_spec(initial_model(), 4) == (PeriodModel {
        total_tokens: 14348901387600,
        inflation_rate: 150_000,
        dev_slice_rate: 200_000,
        total_tokens_created: 4348901387600,
        total_tokens_created_dev_slice: 869780277520,
        total_tokens_created_from_delegated_dev_slice: 120799868560,
    }),
{
    lemma_default_run_value_3();
    lemma_effective_inflation_linear(3, 150_000);
    let m = run_spec(initial_model(), 3);
    let eff = effective_inflation_spec(3, 150_000);
    assert(eff == 120000);
    assert(m.total_tokens * (STAKING_RATE_PPM as int) * eff == 1111907487600000000000000);
    lemma_div_concrete(1111907487600000000000000, 1_000_000_000_000, 1111907487600, 0);
    assert(staking_rewards_spec(3, m) == 1111907487600);
    assert((m.total_tokens_created_from_delegated_dev_slice
        + m.total_tokens_created_dev_slice) * (STAKING_RATE_PPM as int) * eff == 59528308560000000000000);
    lemma_div_concrete(59528308560000000000000, 1_000_000_000_000, 59528308560, 0);
    assert(delegated_dev_rewards_spec(3, m) == 59528308560);
    lemma_div_concrete(222381497520000000, 1_000_000, 222381497520, 0);
    assert(slice_spec(1111907487600, 200_000) == 222381497520);
    assert(run_spec(initial_model(), 4) == redelegate_spec(3, m));
}

proof fn lemma_default_run_value_5()
    ensures
        run_spec(initial_model(), 5) == (PeriodModel {
        total_tokens: 15453766794445,
        inflation_rate: 150_000,
        dev_slice_rate: 200_000,
        total_tokens_created: 5453766794445,
        total_tokens_created_dev_slice: 1090753358889,
        total_tokens_created_from_delegated_dev_slice: 197074539808,
    }),
{
    lemma_default_run_value_4();
    lemma_effective_inflation_linear(4, 150_000);
    let m = run_spec(initial_model(), 4);
    let eff = effective_inflation_spec(4, 150_000);
    assert(eff == 110000);
    assert(m.total_tokens * (STAKING_RATE_PPM as int) * eff == 1104865406845200000000000);
    lemma_div_concrete(1104865406845200000000000, 1_000_000_000_000, 1104865406845, 200000000000);
    assert(staking_rewards_spec(4, m) == 1104865406845);
    assert((m.total_tokens_created_from_delegated_dev_slice
        + m.total_tokens_created_dev_slice) * (STAKING_RATE_PPM as int) * eff == 76274671248160000000000);
    lemma_div_concrete(76274671248160000000000, 1_000_000_000_000, 76274671248, 160000000000);
    assert(delegated_dev_rewards_spec(4, m) == 76274671248);
    lemma_div_concrete(220973081369000000, 1_000_000, 220973081369, 0);
    assert(slice_spec(1104865406845, 200_000) == 220973081369);
    assert(run_spec(initial_model(), 5) == redelegate_spec(4, m));
}

proof fn lemma_default_run_value_6()
    ensures
        run_spec(initial_model(), 6) == (PeriodModel {
        total_tokens: 16535530470056,
        inflation_rate: 150_000,
        dev_slice_rate: 200_000,
        total_tokens_created: 6535530470056,
        total_tokens_created_dev_slice: 1307106094011,
        total_tokens_created_from_delegated_dev_slice: 287222492716,
    }),
{
    lemma_default_run_value_5();
    lemma_effective_inflation_linear(5, 150_000);
    let m = run_spec(initial_model(), 5);
    let eff = effective_inflation_spec(5, 150_000);
    assert(eff == 100000);
    assert(m.total_tokens * (STAKING_RATE_PPM as int) * eff == 1081763675611150000000000);
    lemma_div_concrete(1081763675611150000000000, 1_000_000_000_000, 1081763675611, 150000000000);
    assert(staking_rewards_spec(5, m) == 1081763675611);
    assert((m.total_tokens_created_from_delegated_dev_slice
        + m.total_tokens_created_dev_slice) * (STAKING_RATE_PPM as int) * eff == 90147952908790000000000);
    lemma_div_concrete(90147952908790000000000, 1_000_000_000_000, 90147952908, 790000000000);
    assert(delegated_dev_rewards_spec(5, m) == 90147952908);
    lemma_div_concrete(216352735122200000, 1_000_000, 216352735122, 200000);
    assert(slice_spec(1081763675611, 200_000) == 216352735122);
    assert(run_spec(initial_model(), 6) == redelegate_spec(5, m));
}

proof fn lemma_default_run_value_7()
    ensures
        run_spec(initial_model(), 7) == (PeriodModel {
        total_tokens: 17577268889669,
        inflation_rate: 150_000,
        dev_slice_rate: 200_000,
        total_tokens_created: 7577268889669,
        total_tokens_created_dev_slice: 1515453777933,
        total_tokens_created_from_delegated_dev_slice: 387665193679,
    }),
{
    lemma_default_run_value_6();
    lemma_effective_inflation_linear(6, 150_000);
    let m = run_spec(initial_model(), 6);
    let eff = effective_inflation_spec(6, 150_000);
    assert(eff == 90000);
    assert(m.total_tokens * (STAKING_RATE_PPM as int) * eff == 1041738419613528000000000);
    lemma_div_concrete(1041738419613528000000000, 1_000_000_000_000, 1041738419613, 528000000000);
    assert(staking_rewards_spec(6, m) == 1041738419613);
    assert((m.total_tokens_created_from_delegated_dev_slice
        + m.total_tokens_created_dev_slice) * (STAKING_RATE_PPM as int) * eff == 100442700963801000000000);
    lemma_div_concrete(100442700963801000000000, 1_000_000_000_000, 100442700963, 801000000000);
    assert(delegated_dev_rewards_spec(6, m) == 100442700963);
    lemma_div_concrete(208347683922600000, 1_000_000, 208347683922, 600000);
    assert(slice_spec(1041738419613, 200_000) == 208347683922);
    assert(run_spec(initial_model(), 7) == redelegate_spec(6, m));
}

proof fn lemma_default_run_value_8()
    ensures
        run_spec(initial_model(), 8) == (PeriodModel {
        total_tokens: 18561595947490,
        inflation_rate: 150_000,
        dev_slice_rate: 200_000,
        total_tokens_created: 8561595947490,
        total_tokens_created_dev_slice: 1712319189497,
        total_tokens_created_from_delegated_dev_slice: 494239856089,
    }),
{
    lemma_default_run_value_7();
    lemma_effective_inflation_linear(7, 150_000);
    let m = run_spec(initial_model(), 7);
    let eff = effective_inflation_spec(7, 150_000);
    assert(eff == 80000);
    assert(m.total_tokens * (STAKING_RATE_PPM as int) * eff == 984327057821464000000000);
    lemma_div_concrete(984327057821464000000000, 1_000_000_000_000, 984327057821, 464000000000);
    assert(staking_rewards_spec(7, m) == 984327057821);
    assert((m.total_tokens_created_from_delegated_dev_slice
        + m.total_tokens_created_dev_slice) * (STAKING_RATE_PPM as int) * eff == 106574662410272000000000);
    lemma_div_concrete(106574662410272000000000, 1_000_000_000_000, 106574662410, 272000000000);
    assert(delegated_dev_rewards_spec(7, m) == 106574662410);
    lemma_div_concrete(196865411564200000, 1_000_000, 196865411564, 200000);
    assert(slice_spec(984327057821, 200_000) == 196865411564);
    assert(run_spec(initial_model(), 8) == redelegate_spec(7, m));
}

proof fn lemma_default_run_value_9()
    ensures
        run_spec(initial_model(), 9) == (PeriodModel {
        total_tokens: 19471114148917,
        inflation_rate: 150_000,
        dev_slice_rate: 200_000,
        total_tokens_created: 9471114148917,
        total_tokens_created_dev_slice: 1894222829782,
        total_tokens_created_from_delegated_dev_slice: 602361249322,
    }),
{
    lemma_default_run_value_8();
    lemma_effective_inflation_linear(8, 150_000);
    let m = run_spec(initial_model(), 8);
    let eff = effective_inflation_spec(8, 150_000);
    assert(eff == 70000);
    assert(m.total_tokens * (STAKING_RATE_PPM as int) * eff == 909518201427010000000000);
    lemma_div_concrete(909518201427010000000000, 1_000_000_000_000, 909518201427, 10000000000);
    assert(staking_rewards_spec(8, m) == 909518201427);
    assert((m.total_tokens_created_from_delegated_dev_slice
        + m.total_tokens_created_dev_slice) * (STAKING_RATE_PPM as int) * eff == 108121393233714000000000);
    lemma_div_concrete(108121393233714000000000, 1_000_000_000_000, 108121393233, 714000000000);
    assert(delegated_dev_rewards_spec(8, m) == 108121393233);
    lemma_div_concrete(181903640285400000, 1_000_000, 181903640285, 400000);
    assert(slice_spec(909518201427, 200_000) == 181903640285);
    assert(run_spec(initial_model(), 9) == redelegate_spec(8, m));
}

proof fn lemma_default_run_value_10()
    ensures
        run_spec(initial_model(), 10) == (PeriodModel {
        total_tokens: 20288900943171,
        inflation_rate: 150_000,
        dev_slice_rate: 200_000,
        total_tokens_created: 10288900943171,
        total_tokens_created_dev_slice: 2057780188632,
        total_tokens_created_from_delegated_dev_slice: 707217780644,
    }),
{
    lemma_default_run_value_9();
    lemma_effective_inflation_linear(9, 150_000);
    let m = run_spec(initial_model(), 9);
    let eff = effective_inflation_spec(9, 150_000);
    assert(eff == 60000);
    assert(m.total_tokens * (STAKING_RATE_PPM as int) * eff == 817786794254514000000000);
    lemma_div_concrete(817786794254514000000000, 1_000_000_000_000, 817786794254, 514000000000);
    assert(staking_rewards_spec(9, m) == 817786794254);
    assert((m.total_tokens_created_from_delegated_dev_slice
        + m.total_tokens_created_dev_slice) * (STAKING_RATE_PPM as int) * eff == 104856531322368000000000);
    lemma_div_concrete(104856531322368000000000, 1_000_000_000_000, 104856531322, 368000000000);
    assert(delegated_dev_rewards_spec(9, m) == 104856531322);
    lemma_div_concrete(163557358850800000, 1_000_000, 163557358850, 800000);
    assert(slice_spec(817786794254, 200_000) == 163557358850);
    assert(run_spec(initial_model(), 10) == redelegate_spec(9, m));
}

proof fn lemma_default_run_value_11()
    ensures
        run_spec(initial_model(), 11) == (PeriodModel {
        total_tokens: 20999012476181,
        inflation_rate: 150_000,
        dev_slice_rate: 200_000,
        total_tokens_created: 10999012476181,
        total_tokens_created_dev_slice: 2199802495234,
        total_tokens_created_from_delegated_dev_slice: 803992709568,
    }),
{
    lemma_default_run_value_10();
    lemma_effective_inflation_linear(10, 150_000);
    let m = run_spec(initial_model(), 10);
    let eff = effective_inflation_spec(10, 150_000);
    assert(eff == 50000);
    assert(m.total_tokens * (STAKING_RATE_PPM as int) * eff == 710111533010985000000000);
    lemma_div_concrete(710111533010985000000000, 1_000_000_000_000, 710111533010, 985000000000);
    assert(staking_rewards_spec(10, m) == 710111533010);
    assert((m.total_tokens_created_from_delegated_dev_slice
        + m.total_tokens_created_dev_slice) * (STAKING_RATE_PPM as int) * eff == 96774928924660000000000);
    lemma_div_concrete(96774928924660000000000, 1_000_000_000_000, 96774928924, 660000000000);
    assert(delegated_dev_rewards_spec(10, m) == 96774928924);
    lemma_div_concrete(142022306602000000, 1_000_000, 142022306602, 0);
    assert(slice_spec(710111533010, 200_000) == 142022306602);
    assert(run_spec(initial_model(), 11) == redelegate_spec(10, m));
}

proof fn lemma_default_run_value_12()
    ensures
        run_spec(initial_model(), 12) == (PeriodModel {
        total_tokens: 21586984825514,
        inflation_rate: 150_000,
        dev_slice_rate: 200_000,
        total_tokens_created: 11586984825514,
        total_tokens_created_dev_slice: 2317396965100,
        total_tokens_created_from_delegated_dev_slice: 888098975302,
    }),
{
    lemma_default_run_value_11();
    lemma_effective_inflation_linear(11, 150_000);
    let m = run_spec(initial_model(), 11);
    let eff = effective_inflation_spec(11, 150_000);
    assert(eff == 40000);
    assert(m.total_tokens * (STAKING_RATE_PPM as int) * eff == 587972349333068000000000);
    lemma_div_concrete(587972349333068000000000, 1_000_000_000_000, 587972349333, 68000000000);
    assert(staking_rewards_spec(11, m) == 587972349333);
    assert((m.total_tokens_created_from_delegated_dev_slice
        + m.total_tokens_created_dev_slice) * (STAKING_RATE_PPM as int) * eff == 84106265734456000000000);
    lemma_div_concrete(84106265734456000000000, 1_000_000_000_000, 84106265734, 456000000000);
    assert(delegated_dev_rewards_spec(11, m) == 84106265734);
    lemma_div_concrete(117594469866600000, 1_000_000, 117594469866, 600000);
    assert(slice_spec(587972349333, 200_000) == 117594469866);
    assert(run_spec(initial_model(), 12) == redelegate_spec(11, m));
}

proof fn lemma_default_run_value_13()
    ensures
        run_spec(initial_model(), 13) == (PeriodModel {
        total_tokens: 22040311506849,
        inflation_rate: 150_000,
        dev_slice_rate: 200_000,
        total_tokens_created: 12040311506849,
        total_tokens_created_dev_slice: 2408062301367,
        total_tokens_created_from_delegated_dev_slice: 955414390050,
    }),
{
    lemma_default_run_value_12();
    lemma_effective_inflation_linear(12, 150_000);
    let m = run_spec(initial_model(), 12);
    let eff = effective_inflation_spec(12, 150_000);
    assert(eff == 30000);
    assert(m.total_tokens * (STAKING_RATE_PPM as int) * eff == 453326681335794000000000);
    lemma_div_concrete(453326681335794000000000, 1_000_000_000_000, 453326681335, 794000000000);
    assert(staking_rewards_spec(12, m) == 453326681335);
    assert((m.total_tokens_created_from_delegated_dev_slice
        + m.total_tokens_created_dev_slice) * (STAKING_RATE_PPM as int) * eff == 67315414748442000000000);
    lemma_div_concrete(67315414748442000000000, 1_000_000_000_000, 67315414748, 442000000000);
    assert(delegated_dev_rewards_spec(12, m) == 67315414748);
    lemma_div_concrete(90665336267000000, 1_000_000, 90665336267, 0);
    assert(slice_spec(453326681335, 200_000) == 90665336267);
    assert(run_spec(initial_model(), 13) == redelegate_spec(12, m));
}

proof fn lemma_default_run_value_14()
    ensures
        run_spec(initial_model(), 14) == (PeriodModel {
        total_tokens: 22348875867944,
        inflation_rate: 150_000,
        dev_slice_rate: 200_000,
        total_tokens_created: 12348875867944,
        total_tokens_created_dev_slice: 2469775173586,
        total_tokens_created_from_delegated_dev_slice: 1002503063729,
    }),
{
    lemma_default_run_value_13();
    lemma_effective_inflation_linear(13, 150_000);
    let m = run_spec(initial_model(), 13);
    let eff = effective_inflation_spec(13, 150_000);
    assert(eff == 20000);
    assert(m.total_tokens * (STAKING_RATE_PPM as int) * eff == 308564361095886000000000);
    lemma_div_concrete(308564361095886000000000, 1_000_000_000_000, 308564361095, 886000000000);
    assert(staking_rewards_spec(13, m) == 308564361095);
    assert((m.total_tokens_created_from_delegated_dev_slice
        + m.total_tokens_created_dev_slice) * (STAKING_RATE_PPM as int) * eff == 47088673679838000000000);
    lemma_div_concrete(47088673679838000000000, 1_000_000_000_000, 47088673679, 838000000000);
    assert(delegated_dev_rewards_spec(13, m) == 47088673679);
    lemma_div_concrete(61712872219000000, 1_000_000, 61712872219, 0);
    assert(slice_spec(308564361095, 200_000) == 61712872219);
    assert(run_spec(initial_model(), 14) == redelegate_spec(13, m));
}

proof fn lemma_default_run_value_15()
    ensures
        run_spec(initial_model(), 15) == (PeriodModel {
        total_tokens: 22505317999019,
        inflation_rate: 150_000,
        dev_slice_rate: 200_000,
        total_tokens_created: 12505317999019,
        total_tokens_created_dev_slice: 2501063599801,
        total_tokens_created_from_delegated_dev_slice: 1026809011390,
    }),
{
    lemma_default_run_value_14();
    lemma_effective_inflation_linear(14, 150_000);
    let m = run_spec(initial_model(), 14);
    let eff = effective_inflation_spec(14, 150_000);
    assert(eff == 10000);
    assert(m.total_tokens * (STAKING_RATE_PPM as int) * eff == 156442131075608000000000);
    lemma_div_concrete(156442131075608000000000, 1_000_000_000_000, 156442131075, 608000000000);
    assert(staking_rewards_spec(14, m) == 156442131075);
    assert((m.total_tokens_created_from_delegated_dev_slice
        + m.total_tokens_created_dev_slice) * (STAKING_RATE_PPM as int) * eff == 24305947661205000000000);
    lemma_div_concrete(24305947661205000000000, 1_000_000_000_000, 24305947661, 205000000000);
    assert(delegated_dev_rewards_spec(14, m) == 24305947661);
    lemma_div_concrete(31288426215000000, 1_000_000, 31288426215, 0);
    assert(slice_spec(156442131075, 200_000) == 31288426215);
    assert(run_spec(initial_model(), 15) == redelegate_spec(14, m));
}

proof fn lemma_default_run_value_16()
    ensures
        run_spec(initial_model(), 16) == (PeriodModel {
        total_tokens: 22505317999019,
        inflation_rate: 150_000,
        dev_slice_rate: 200_000,
        total_tokens_created: 12505317999019,
        total_tokens_created_dev_slice: 2501063599801,
        total_tokens_created_from_delegated_dev_slice: 1026809011390,
    }),
{
    lemma_default_run_value_15();
    lemma_effective_inflation_linear(15, 150_000);
    let m = run_spec(initial_model(), 15);
    let eff = effective_inflation_spec(15, 150_000);
    assert(eff == 0);
    assert(m.total_tokens * (STAKING_RATE_PPM as int) * eff == 0);
    lemma_div_concrete(0, 1_000_000_000_000, 0, 0);
    assert(staking_rewards_spec(15, m) == 0);
    assert((m.total_tokens_created_from_delegated_dev_slice
        + m.total_tokens_created_dev_slice) * (STAKING_RATE_PPM as int) * eff == 0);
    lemma_div_concrete(0, 1_000_000_000_000, 0, 0);
    assert(delegated_dev_rewards_spec(15, m) == 0);
    lemma_div_concrete(0, 1_000_000, 0, 0);
    assert(slice_spec(0, 200_000) == 0);
    assert(run_spec(initial_model(), 16) == redelegate_spec(15, m));
}

proof fn lemma_default_run_value_17()
    ensures
        run_spec(initial_model(), 17) == (PeriodModel {
        total_tokens: 22347780773025,
        inflation_rate: 150_000,
        dev_slice_rate: 200_000,
        total_tokens_created: 12347780773025,
        total_tokens_created_dev_slice: 2469556154602,
        total_tokens_created_from_delegated_dev_slice: 1002113903111,
    }),
{
    lemma_default_run_value_16();
    lemma_effective_inflation_linear(16, 150_000);
    let m = run_spec(initial_model(), 16);
    let eff = effective_inflation_spec(16, 150_000);
    assert(eff == -10000);
    assert(m.total_tokens * (STAKING_RATE_PPM as int) * eff == -157537225993133000000000);
    lemma_div_concrete(-157537225993133000000000, 1_000_000_000_000, -157537225994, 867000000000);
    assert(staking_rewards_spec(16, m) == -157537225994);
    assert((m.total_tokens_created_from_delegated_dev_slice
        + m.total_tokens_created_dev_slice) * (STAKING_RATE_PPM as int) * eff == -24695108278337000000000);
    lemma_div_concrete(-24695108278337000000000, 1_000_000_000_000, -24695108279, 663000000000);
    assert(delegated_dev_rewards_spec(16, m) == -24695108279);
    lemma_div_concrete(-31507445198800000, 1_000_000, -31507445199, 200000);
    assert(slice_spec(-157537225994, 200_000) == -31507445199);
    assert(run_spec(initial_model(), 17) == redelegate_spec(16, m));
}

proof fn lemma_default_run_value_18()
    ensures
        run_spec(initial_model(), 18) == (PeriodModel {
        total_tokens: 22034911842202,
        inflation_rate: 150_000,
        dev_slice_rate: 200_000,
        total_tokens_created: 12034911842202,
        total_tokens_created_dev_slice: 2406982368437,
        total_tokens_created_from_delegated_dev_slice: 953510522303,
    }),
{
    lemma_default_run_value_17();
    lemma_effective_inflation_linear(17, 150_000);
    let m = run_spec(initial_model(), 17);
    let eff = effective_inflation_spec(17, 150_000);
    assert(eff == -20000);
    assert(m.total_tokens * (STAKING_RATE_PPM as int) * eff == -312868930822350000000000);
    lemma_div_concrete(-312868930822350000000000, 1_000_000_000_000, -312868930823, 650000000000);
    assert(staking_rewards_spec(17, m) == -312868930823);
    assert((m.total_tokens_created_from_delegated_dev_slice
        + m.total_tokens_created_dev_slice) * (STAKING_RATE_PPM as int) * eff == -48603380807982000000000);
    lemma_div_concrete(-48603380807982000000000, 1_000_000_000_000, -48603380808, 18000000000);
    assert(delegated_dev_rewards_spec(17, m) == -48603380808);
    lemma_div_concrete(-62573786164600000, 1_000_000, -62573786165, 400000);
    assert(slice_spec(-312868930823, 200_000) == -62573786165);
    assert(run_spec(initial_model(), 18) == redelegate_spec(17, m));
}

proof fn lemma_default_run_value_19()
    ensures
        run_spec(initial_model(), 19) == (PeriodModel {
        total_tokens: 21572178693515,
        inflation_rate: 150_000,
        dev_slice_rate: 200_000,
        total_tokens_created: 11572178693515,
        total_tokens_created_dev_slice: 2314435738699,
        total_tokens_created_from_delegated_dev_slice: 882940171597,
    }),
{
    lemma_default_run_value_18();
    lemma_effective_inflation_linear(18, 150_000);
    let m = run_spec(initial_model(), 18);
    let eff = effective_inflation_spec(18, 150_000);
    assert(eff == -30000);
    assert(m.total_tokens * (STAKING_RATE_PPM as int) * eff == -462733148686242000000000);
    lemma_div_concrete(-462733148686242000000000, 1_000_000_000_000, -462733148687, 758000000000);
    assert(staking_rewards_spec(18, m) == -462733148687);
    assert((m.total_tokens_created_from_delegated_dev_slice
        + m.total_tokens_created_dev_slice) * (STAKING_RATE_PPM as int) * eff == -70570350705540000000000);
    lemma_div_concrete(-70570350705540000000000, 1_000_000_000_000, -70570350706, 460000000000);
    assert(delegated_dev_rewards_spec(18, m) == -70570350706);
    lemma_div_concrete(-92546629737400000, 1_000_000, -92546629738, 600000);
    assert(slice_spec(-462733148687, 200_000) == -92546629738);
    assert(run_spec(initial_model(), 19) == redelegate_spec(18, m));
}

proof fn lemma_default_run_value_20()
    ensures
        run_spec(initial_model(), 20) == (PeriodModel {
        total_tokens: 20968157690096,
        inflation_rate: 150_000,
        dev_slice_rate: 200_000,
        total_tokens_created: 10968157690096,
        total_tokens_created_dev_slice: 2193631538015,
        total_tokens_created_from_delegated_dev_slice: 793413646108,
    }),
{
    lemma_default_run_value_19();
    lemma_effective_inflation_linear(19, 150_000);
    let m = run_spec(initial_model(), 19);
    let eff = effective_inflation_spec(19, 150_000);
    assert(eff == -40000);
    assert(m.total_tokens * (STAKING_RATE_PPM as int) * eff == -604021003418420000000000);
    lemma_div_concrete(-604021003418420000000000, 1_000_000_000_000, -604021003419, 580000000000);
    assert(staking_rewards_spec(19, m) == -604021003419);
    assert((m.total_tokens_created_from_delegated_dev_slice
        + m.total_tokens_created_dev_slice) * (STAKING_RATE_PPM as int) * eff == -89526525488288000000000);
    lemma_div_concrete(-89526525488288000000000, 1_000_000_000_000, -89526525489, 712000000000);
    assert(delegated_dev_rewards_spec(19, m) == -89526525489);
    lemma_div_concrete(-120804200683800000, 1_000_000, -120804200684, 200000);
    assert(slice_spec(-604021003419, 200_000) == -120804200684);
    assert(run_spec(initial_model(), 20) == redelegate_spec(19, m));
}

/// The run the program actually makes, evaluated step by step: every
/// snapshot of the default 20-step run keeps all four token amounts
/// nonnegative and the dev slice within total creation, and the final
/// snapshot is pinned exactly.
pub proof fn lemma_default_run_trajectory()
    ensures
        forall|n: nat|
            n <= TOTAL_STEPS ==> (#[trigger] run_spec(initial_model(), n)).total_tokens >= 0,
        forall|n: nat|
            n <= TOTAL_STEPS ==> (#[trigger] run_spec(
                initial_model(),
                n,
            )).total_tokens_created >= 0,
        forall|n: nat|
            n <= TOTAL_STEPS ==> (#[trigger] run_spec(
                initial_model(),
                n,
            )).total_tokens_created_dev_slice >= 0,
        forall|n: nat|
            n <= TOTAL_STEPS ==> (#[trigger] run_spec(
                initial_model(),
                n,
            )).total_tokens_created_from_delegated_dev_slice >= 0,
        forall|n: nat|
            n <= TOTAL_STEPS ==> (#[trigger] run_spec(
                initial_model(),
                n,
            )).total_tokens_created_dev_slice <= run_spec(
                initial_model(),
                n,
            ).total_tokens_created,
        run_spec(initial_model(), TOTAL_STEPS as nat).total_tokens == 20968157690096,
        run_spec(initial_model(), TOTAL_STEPS as nat).total_tokens_created == 10968157690096,
        run_spec(initial_model(), TOTAL_STEPS as nat).total_tokens_created_dev_slice == 2193631538015,
        run_spec(
            initial_model(),
            TOTAL_STEPS as nat,
        ).total_tokens_created_from_delegated_dev_slice == 793413646108,
{
    lemma_default_run_value_1();
    lemma_default_run_value_2();
    lemma_default_run_value_3();
    lemma_default_run_value_4();
    lemma_default_run_value_5();
    lemma_default_run_value_6();
    lemma_default_run_value_7();
    lemma_default_run_value_8();
    lemma_default_run_value_9();
    lemma_default_run_value_10();
    lemma_default_run_value_11();
    lemma_default_run_value_12();
    lemma_default_run_value_13();
    lemma_default_run_value_14();
    lemma_default_run_value_15();
    lemma_default_run_value_16();
    lemma_default_run_value_17();
    lemma_default_run_value_18();
    lemma_default_run_value_19();
    lemma_default_run_value_20();
    assert forall|n: nat| #![trigger run_spec(initial_model(), n)] n <= TOTAL_STEPS implies {
        let m = run_spec(initial_model(), n);
        m.total_tokens >= 0 && m.total_tokens_created >= 0
            && m.total_tokens_created_dev_slice >= 0
            && m.total_tokens_created_from_delegated_dev_slice >= 0
            && m.total_tokens_created_dev_slice <= m.total_tokens_created
    } by {
        if n == 0 {
        } else if n == 1 {
        } else if n == 2 {
        } else if n == 3 {
        } else if n == 4 {
        } else if n == 5 {
        } else if n == 6 {
        } else if n == 7 {
        } else if n == 8 {
        } else if n == 9 {
        } else if n == 10 {
        } else if n == 11 {
        } else if n == 12 {
        } else if n == 13 {
        } else if n == 14 {
        } else if n == 15 {
        } else if n == 16 {
        } else if n == 17 {
        } else if n == 18 {
        } else if n == 19 {
        } else if n == 20 {
        }
    }
}

} // verus!

