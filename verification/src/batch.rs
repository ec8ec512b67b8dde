//! The batch layer: run many independent matches, reduce their outcomes
//! into totals, and plan a partitioned run.

use vstd::prelude::*;
use vstd::arithmetic::div_mod::lemma_fundamental_div_mod;
use crate::player::Player;
use crate::runner::{PointSource, SimError};
use crate::scoring::{PointRecord, SetStats, TennisMatch};

verus! {

/// Aggregate outcome of a group of matches: wins per player, shots played,
/// and ace and double-fault totals per player.
#[derive(Clone, Copy, PartialEq, Eq, Structural, Debug)]
pub struct BatchTotals {
    pub wins_p1: u64,
    pub wins_p2: u64,
    pub total_shots: u64,
    pub aces_p1: u64,
    pub aces_p2: u64,
    pub double_faults_p1: u64,
    pub double_faults_p2: u64,
}

/// Totals of an empty group.
pub open spec fn spec_zero_totals() -> BatchTotals {
    BatchTotals {
        wins_p1: 0,
        wins_p2: 0,
        total_shots: 0,
        aces_p1: 0,
        aces_p2: 0,
        double_faults_p1: 0,
        double_faults_p2: 0,
    }
}

/// No counter overflows when the two totals are added.
pub open spec fn spec_combine_ok(a: BatchTotals, b: BatchTotals) -> bool {
    &&& a.wins_p1 + b.wins_p1 <= u64::MAX
    &&& a.wins_p2 + b.wins_p2 <= u64::MAX
    &&& a.total_shots + b.total_shots <= u64::MAX
    &&& a.aces_p1 + b.aces_p1 <= u64::MAX
    &&& a.aces_p2 + b.aces_p2 <= u64::MAX
    &&& a.double_faults_p1 + b.double_faults_p1 <= u64::MAX
    &&& a.double_faults_p2 + b.double_faults_p2 <= u64::MAX
}

/// The field-wise sum of two totals.
pub open spec fn spec_combined(a: BatchTotals, b: BatchTotals) -> BatchTotals {
    BatchTotals {
        wins_p1: (a.wins_p1 + b.wins_p1) as u64,
        wins_p2: (a.wins_p2 + b.wins_p2) as u64,
        total_shots: (a.total_shots + b.total_shots) as u64,
        aces_p1: (a.aces_p1 + b.aces_p1) as u64,
        aces_p2: (a.aces_p2 + b.aces_p2) as u64,
        double_faults_p1: (a.double_faults_p1 + b.double_faults_p1) as u64,
        double_faults_p2: (a.double_faults_p2 + b.double_faults_p2) as u64,
    }
}

/// Reduction is commutative: batches may finish in any order.
pub proof fn lemma_combine_commutative(a: BatchTotals, b: BatchTotals)
    ensures
        spec_combined(a, b) == spec_combined(b, a),
{
}

/// Reduction is associative: batches may be grouped in any way, as long
/// as the counters fit.
pub proof fn lemma_combine_associative(a: BatchTotals, b: BatchTotals, c: BatchTotals)
    requires
        spec_combine_ok(a, b),
        spec_combine_ok(b, c),
        spec_combine_ok(spec_combined(a, b), c),
    ensures
        spec_combined(a, spec_combined(b, c)) == spec_combined(spec_combined(a, b), c),
{
}

/// The empty group is the identity of the reduction.
pub proof fn lemma_combine_identity(a: BatchTotals)
    ensures
        spec_combined(a, spec_zero_totals()) == a,
        spec_combined(spec_zero_totals(), a) == a,
{
}

/// What one stub match contributes: one win for the chosen player, the
/// minimum number of shots, no aces, no double faults.
pub open spec fn spec_fixed_match_totals(best_of: u32, w: bool) -> BatchTotals {
    BatchTotals {
        wins_p1: if w {
            1
        } else {
            0
        },
        wins_p2: if w {
            0
        } else {
            1
        },
        total_shots: (24 * (best_of / 2 + 1)) as u64,
        aces_p1: 0,
        aces_p2: 0,
        double_faults_p1: 0,
        double_faults_p2: 0,
    }
}

/// What a batch of `n` stub matches reduces to.
pub open spec fn spec_fixed_batch_totals(best_of: u32, w: bool, n: int) -> BatchTotals
    decreases n,
{
    if n <= 0 {
        spec_zero_totals()
    } else {
        spec_combined(spec_fixed_batch_totals(best_of, w, n - 1), spec_fixed_match_totals(best_of, w))
    }
}

/// Two stub batches reduce to the same totals as one stub batch of their
/// combined size: splitting work into batches does not change the result.
pub proof fn lemma_fixed_batch_split(best_of: u32, w: bool, m: int, n: int)
    requires
        m >= 0,
        n >= 0,
        m + n <= 0x100000000,
        best_of <= 1001,
    ensures
        spec_combined(spec_fixed_batch_totals(best_of, w, m), spec_fixed_batch_totals(best_of, w, n))
            == spec_fixed_batch_totals(best_of, w, m + n),
    decreases n,
{
    if n <= 0 {
        lemma_combine_identity(spec_fixed_batch_totals(best_of, w, m));
    } else {
        lemma_fixed_batch_split(best_of, w, m, n - 1);
        lemma_fixed_batch_values(best_of, w, m);
        lemma_fixed_batch_values(best_of, w, n - 1);
        lemma_fixed_batch_values(best_of, w, m + n - 1);
        assert(m * (24 * (best_of / 2 + 1)) <= 0x100000000 * 12024) by (nonlinear_arith)
            requires
                0 <= m <= 0x100000000,
                0 <= 24 * (best_of / 2 + 1) <= 12024,
        ;
        assert((n - 1) * (24 * (best_of / 2 + 1)) <= 0x100000000 * 12024) by (nonlinear_arith)
            requires
                0 <= n - 1 <= 0x100000000,
                0 <= 24 * (best_of / 2 + 1) <= 12024,
        ;
        assert((m + n - 1) * (24 * (best_of / 2 + 1)) <= 0x100000000 * 12024) by (nonlinear_arith)
            requires
                0 <= m + n - 1 <= 0x100000000,
                0 <= 24 * (best_of / 2 + 1) <= 12024,
        ;
        lemma_combine_associative(
            spec_fixed_batch_totals(best_of, w, m),
            spec_fixed_batch_totals(best_of, w, n - 1),
            spec_fixed_match_totals(best_of, w),
        );
    }
}

/// Concrete values of a stub batch, for modest sizes: `n` wins for the
/// chosen player and exactly `n` matches' worth of shots.
pub proof fn lemma_fixed_batch_values(best_of: u32, w: bool, n: int)
    requires
        0 <= n <= 0x100000000,
        best_of <= 1001,
    ensures
        (if w {
            spec_fixed_batch_totals(best_of, w, n).wins_p1
        } else {
            spec_fixed_batch_totals(best_of, w, n).wins_p2
        }) == n,
        (if w {
            spec_fixed_batch_totals(best_of, w, n).wins_p2
        } else {
            spec_fixed_batch_totals(best_of, w, n).wins_p1
        }) == 0,
        spec_fixed_batch_totals(best_of, w, n).total_shots == n * (24 * (best_of / 2 + 1)),
        spec_fixed_batch_totals(best_of, w, n).aces_p1 == 0,
        spec_fixed_batch_totals(best_of, w, n).aces_p2 == 0,
        spec_fixed_batch_totals(best_of, w, n).double_faults_p1 == 0,
        spec_fixed_batch_totals(best_of, w, n).double_faults_p2 == 0,
    decreases n,
{
    if n > 0 {
        lemma_fixed_batch_values(best_of, w, n - 1);
        assert(n * (24 * (best_of / 2 + 1)) == (n - 1) * (24 * (best_of / 2 + 1)) + 24 * (best_of
            / 2 + 1)) by (nonlinear_arith);
        assert(n * (24 * (best_of / 2 + 1)) <= 0x100000000 * 12024) by (nonlinear_arith)
            requires
                0 <= n <= 0x100000000,
                0 <= 24 * (best_of / 2 + 1) <= 12024,
        ;
    }
}

/// Sum of the ace counts credited to player 1 across a set history.
pub open spec fn spec_history_aces_p1(h: Seq<SetStats>) -> int
    decreases h.len(),
{
    if h.len() == 0 {
        0
    } else {
        spec_history_aces_p1(h.drop_last()) + h.last().aces_p1
    }
}

/// Sum of the ace counts credited to player 2 across a set history.
pub open spec fn spec_history_aces_p2(h: Seq<SetStats>) -> int
    decreases h.len(),
{
    if h.len() == 0 {
        0
    } else {
        spec_history_aces_p2(h.drop_last()) + h.last().aces_p2
    }
}

/// Sum of the double faults credited to player 1 across a set history.
pub open spec fn spec_history_dfs_p1(h: Seq<SetStats>) -> int
    decreases h.len(),
{
    if h.len() == 0 {
        0
    } else {
        spec_history_dfs_p1(h.drop_last()) + h.last().double_faults_p1
    }
}

/// Sum of the double faults credited to player 2 across a set history.
pub open spec fn spec_history_dfs_p2(h: Seq<SetStats>) -> int
    decreases h.len(),
{
    if h.len() == 0 {
        0
    } else {
        spec_history_dfs_p2(h.drop_last()) + h.last().double_faults_p2
    }
}

/// A history of all-zero snapshots sums to zero everywhere.
proof fn lemma_zero_history_sums(h: Seq<SetStats>)
    requires
        forall|i: int|
            0 <= i < h.len() ==> #[trigger] h[i] == crate::runner::spec_zero_set_stats(),
    ensures
        spec_history_aces_p1(h) == 0,
        spec_history_aces_p2(h) == 0,
        spec_history_dfs_p1(h) == 0,
        spec_history_dfs_p2(h) == 0,
    decreases h.len(),
{
    if h.len() > 0 {
        lemma_zero_history_sums(h.drop_last());
    }
}

/// A prefix of a history never sums to more than the whole: every term is
/// non-negative.
proof fn lemma_history_prefix_sums(h: Seq<SetStats>, j: int)
    requires
        0 <= j <= h.len(),
    ensures
        spec_history_aces_p1(h.take(j)) <= spec_history_aces_p1(h),
        spec_history_aces_p2(h.take(j)) <= spec_history_aces_p2(h),
        spec_history_dfs_p1(h.take(j)) <= spec_history_dfs_p1(h),
        spec_history_dfs_p2(h.take(j)) <= spec_history_dfs_p2(h),
    decreases h.len(),
{
    if j == h.len() {
        assert(h.take(j) =~= h);
    } else {
        lemma_history_prefix_sums(h.drop_last(), j);
        assert(h.drop_last().take(j) =~= h.take(j));
    }
}

/// Sum one match's set history into per-player ace and double-fault
/// totals. Fails exactly when one of the four totals would not fit.
fn sum_history(h: &Vec<SetStats>) -> (res: Result<(u64, u64, u64, u64), SimError>)
    ensures
        (match res {
            Ok(t) => {
                &&& t.0 == spec_history_aces_p1(h@)
                &&& t.1 == spec_history_aces_p2(h@)
                &&& t.2 == spec_history_dfs_p1(h@)
                &&& t.3 == spec_history_dfs_p2(h@)
            },
            Err(e) => {
                &&& e == SimError::TotalsOverflow
                &&& (spec_history_aces_p1(h@) > u64::MAX || spec_history_aces_p2(h@) > u64::MAX
                    || spec_history_dfs_p1(h@) > u64::MAX || spec_history_dfs_p2(h@) > u64::MAX)
            },
        }),
{
    let mut aces_p1: u64 = 0;
    let mut aces_p2: u64 = 0;
    let mut dfs_p1: u64 = 0;
    let mut dfs_p2: u64 = 0;
    let mut j: usize = 0;
    while j < h.len()
        invariant
            j <= h.len(),
            aces_p1 == spec_history_aces_p1(h@.take(j as int)),
            aces_p2 == spec_history_aces_p2(h@.take(j as int)),
            dfs_p1 == spec_history_dfs_p1(h@.take(j as int)),
            dfs_p2 == spec_history_dfs_p2(h@.take(j as int)),
        decreases h.len() - j,
    {
        let s = h[j];
        if aces_p1 > u64::MAX - s.aces_p1 as u64 || aces_p2 > u64::MAX - s.aces_p2 as u64
            || dfs_p1 > u64::MAX - s.double_faults_p1 as u64 || dfs_p2 > u64::MAX
            - s.double_faults_p2 as u64 {
            proof {
                assert(h@.take(j as int + 1).drop_last() =~= h@.take(j as int));
                assert(h@.take(j as int + 1).last() == h@[j as int]);
                lemma_history_prefix_sums(h@, j as int + 1);
            }
            return Err(SimError::TotalsOverflow);
        }
        aces_p1 = aces_p1 + s.aces_p1 as u64;
        aces_p2 = aces_p2 + s.aces_p2 as u64;
        dfs_p1 = dfs_p1 + s.double_faults_p1 as u64;
        dfs_p2 = dfs_p2 + s.double_faults_p2 as u64;
        j = j + 1;
        proof {
            assert(h@.take(j as int).drop_last() =~= h@.take(j as int - 1));
            assert(h@.take(j as int).last() == h@[j as int - 1]);
        }
    }
    proof {
        assert(h@.take(h@.len() as int) =~= h@);
    }
    Ok((aces_p1, aces_p2, dfs_p1, dfs_p2))
}

/// Add two batch totals. Fails exactly when a counter would not fit.
pub fn combine_totals(a: &BatchTotals, b: &BatchTotals) -> (res: Result<BatchTotals, SimError>)
    ensures
        (match res {
            Ok(c) => spec_combine_ok(*a, *b) && c == spec_combined(*a, *b),
            Err(e) => e == SimError::TotalsOverflow && !spec_combine_ok(*a, *b),
        }),
{
    if a.wins_p1 > u64::MAX - b.wins_p1 || a.wins_p2 > u64::MAX - b.wins_p2 || a.total_shots
        > u64::MAX - b.total_shots || a.aces_p1 > u64::MAX - b.aces_p1 || a.aces_p2 > u64::MAX
        - b.aces_p2 || a.double_faults_p1 > u64::MAX - b.double_faults_p1 || a.double_faults_p2
        > u64::MAX - b.double_faults_p2 {
        return Err(SimError::TotalsOverflow);
    }
    Ok(
        BatchTotals {
            wins_p1: a.wins_p1 + b.wins_p1,
            wins_p2: a.wins_p2 + b.wins_p2,
            total_shots: a.total_shots + b.total_shots,
            aces_p1: a.aces_p1 + b.aces_p1,
            aces_p2: a.aces_p2 + b.aces_p2,
            double_faults_p1: a.double_faults_p1 + b.double_faults_p1,
            double_faults_p2: a.double_faults_p2 + b.double_faults_p2,
        },
    )
}

/// Run a batch of independent matches and reduce their outcomes. Every
/// match contributes exactly one win, and one point record per shot, so
/// the records returned are exactly the batch's shots. Under the stub the
/// totals are the predictable stub totals.
pub fn simulate_batch(
    player1: &Player,
    player2: &Player,
    best_of: u32,
    grand_slam: bool,
    batch_size: u64,
    src: &PointSource,
) -> (res: Result<(BatchTotals, Vec<PointRecord>), SimError>)
    requires
        player1.wf(),
        player2.wf(),
        player1.name@ != player2.name@,
        best_of >= 1,
    ensures
        (match res {
            Ok(r) => {
                &&& r.0.wins_p1 + r.0.wins_p2 == batch_size
                &&& r.1@.len() == r.0.total_shots
                &&& (match *src {
                    PointSource::FixedWinner { p1_wins } => (best_of <= 1001 && batch_size
                        <= 0x100000000) ==> r.0 == spec_fixed_batch_totals(
                        best_of,
                        p1_wins,
                        batch_size as int,
                    ),
                    PointSource::Random => true,
                })
            },
            Err(e) => {
                &&& (e == SimError::ScoreLimitExceeded || e == SimError::TotalsOverflow)
                &&& (match *src {
                    PointSource::FixedWinner { p1_wins } => !(best_of <= 1001 && batch_size
                        <= 0x100000000),
                    PointSource::Random => true,
                })
            },
        }),
{
    let mut totals = BatchTotals {
        wins_p1: 0,
        wins_p2: 0,
        total_shots: 0,
        aces_p1: 0,
        aces_p2: 0,
        double_faults_p1: 0,
        double_faults_p2: 0,
    };
    let mut records: Vec<PointRecord> = Vec::new();
    let mut i: u64 = 0;
    while i < batch_size
        invariant
            player1.wf(),
            player2.wf(),
            player1.name@ != player2.name@,
            best_of >= 1,
            i <= batch_size,
            totals.wins_p1 + totals.wins_p2 == i,
            records@.len() == totals.total_shots,
            (match *src {
                PointSource::FixedWinner { p1_wins } => (best_of <= 1001 && batch_size
                    <= 0x100000000) ==> totals == spec_fixed_batch_totals(
                    best_of,
                    p1_wins,
                    i as int,
                ),
                PointSource::Random => true,
            }),
        decreases batch_size - i,
    {
        let mut game = TennisMatch::new(player1.clone(), player2.clone(), best_of, grand_slam);
        let winner_is_p1 = match game.play_match(src) {
            Err(e) => {
                proof {
                    if let PointSource::FixedWinner { p1_wins } = *src {
                        assert(best_of > 1001);
                    }
                }
                return Err(e);
            },
            Ok(w) => w,
        };
        let sums = match sum_history(&game.set_history) {
            Err(e) => {
                proof {
                    if let PointSource::FixedWinner { p1_wins } = *src {
                        if best_of <= 1001 {
                            lemma_zero_history_sums(game.set_history@);
                        }
                    }
                }
                return Err(e);
            },
            Ok(t) => t,
        };
        if totals.total_shots > u64::MAX - game.total_shots || totals.aces_p1 > u64::MAX - sums.0
            || totals.aces_p2 > u64::MAX - sums.1 || totals.double_faults_p1 > u64::MAX - sums.2
            || totals.double_faults_p2 > u64::MAX - sums.3 {
            proof {
                if let PointSource::FixedWinner { p1_wins } = *src {
                    if best_of <= 1001 && batch_size <= 0x100000000 {
                        lemma_fixed_batch_values(best_of, p1_wins, i as int);
                        lemma_zero_history_sums(game.set_history@);
                        assert(i as int * (24 * (best_of / 2 + 1)) <= 0x100000000 * 12024)
                            by (nonlinear_arith)
                            requires
                                0 <= i as int <= 0x100000000,
                                0 <= 24 * (best_of / 2 + 1) <= 12024,
                        ;
                    }
                }
            }
            return Err(SimError::TotalsOverflow);
        }
        if winner_is_p1 {
            totals.wins_p1 = totals.wins_p1 + 1;
        } else {
            totals.wins_p2 = totals.wins_p2 + 1;
        }
        totals.total_shots = totals.total_shots + game.total_shots;
        totals.aces_p1 = totals.aces_p1 + sums.0;
        totals.aces_p2 = totals.aces_p2 + sums.1;
        totals.double_faults_p1 = totals.double_faults_p1 + sums.2;
        totals.double_faults_p2 = totals.double_faults_p2 + sums.3;
        records.append(&mut game.point_log);
        proof {
            if let PointSource::FixedWinner { p1_wins } = *src {
                if best_of <= 1001 && batch_size <= 0x100000000 {
                    lemma_zero_history_sums(game.set_history@);
                }
            }
        }
        i = i + 1;
    }
    Ok((totals, records))
}

/// Why a run configuration was rejected.
#[derive(Clone, Copy, PartialEq, Eq, Structural, Debug)]
pub enum ConfigError {
    /// The number of simulations must be positive.
    NonPositiveSimulations,
    /// The batch size must be positive.
    NonPositiveBatchSize,
    /// The batch size must divide the number of simulations.
    IndivisibleBatchSize,
    /// The log interval must be positive.
    NonPositiveLogInterval,
    /// The number of sets to play must be odd.
    EvenBestOf,
}

/// Validate a run configuration and return how many batches to run. The
/// checks are made in the order the fields are listed, and the run is
/// accepted exactly when all of them pass.
pub fn plan_run(num_simulations: u64, batch_size: u64, log_interval: u64, best_of: u32) -> (res:
    Result<u64, ConfigError>)
    ensures
        (match res {
            Ok(n) => {
                &&& num_simulations > 0
                &&& batch_size > 0
                &&& num_simulations % batch_size == 0
                &&& log_interval > 0
                &&& best_of % 2 == 1
                &&& n == num_simulations / batch_size
                &&& n * batch_size == num_simulations
                &&& n >= 1
            },
            Err(e) => {
                &&& (e == ConfigError::NonPositiveSimulations <==> num_simulations == 0)
                &&& (e == ConfigError::NonPositiveBatchSize <==> (num_simulations > 0 && batch_size
                    == 0))
                &&& (e == ConfigError::IndivisibleBatchSize <==> (num_simulations > 0 && batch_size
                    > 0 && num_simulations % batch_size != 0))
                &&& (e == ConfigError::NonPositiveLogInterval <==> (num_simulations > 0
                    && batch_size > 0 && num_simulations % batch_size == 0 && log_interval == 0))
                &&& (e == ConfigError::EvenBestOf <==> (num_simulations > 0 && batch_size > 0
                    && num_simulations % batch_size == 0 && log_interval > 0 && best_of % 2 != 1))
            },
        }),
{
    if num_simulations == 0 {
        return Err(ConfigError::NonPositiveSimulations);
    }
    if batch_size == 0 {
        return Err(ConfigError::NonPositiveBatchSize);
    }
    if num_simulations % batch_size != 0 {
        return Err(ConfigError::IndivisibleBatchSize);
    }
    if log_interval == 0 {
        return Err(ConfigError::NonPositiveLogInterval);
    }
    if best_of % 2 != 1 {
        return Err(ConfigError::EvenBestOf);
    }
    let n = num_simulations / batch_size;
    proof {
        lemma_fundamental_div_mod(num_simulations as int, batch_size as int);
        assert(n * batch_size == num_simulations) by (nonlinear_arith)
            requires
                batch_size > 0,
                num_simulations % batch_size == 0,
                n == num_simulations / batch_size,
        ;
        assert(n >= 1) by (nonlinear_arith)
            requires
                n * batch_size == num_simulations,
                num_simulations > 0,
                batch_size > 0,
                n >= 0,
        ;
    }
    Ok(n)
}

/// Whether the batch at this index completes a multiple of the log
/// interval, and so should flush its records to the sink.
pub fn should_flush(batch_index: u64, batch_size: u64, log_interval: u64) -> (r: bool)
    requires
        batch_size > 0,
        log_interval > 0,
        (batch_index + 1) * batch_size <= u64::MAX,
    ensures
        r == (((batch_index + 1) * batch_size) % (log_interval as int) == 0),
{
    proof {
        assert(batch_index + 1 <= (batch_index + 1) * batch_size) by (nonlinear_arith)
            requires
                batch_size >= 1,
                batch_index >= 0,
        ;
    }
    ((batch_index + 1) * batch_size) % log_interval == 0
}

} // verus!
