use vstd::prelude::*;
use vstd::arithmetic::div_mod::lemma_fundamental_div_mod;

use crate::difficulty::Difficulty;
use crate::operation::Operation;
use crate::operation::divisor_nonzero;
use crate::operation::op_result;
use crate::operation::wins;
use crate::rng::rng_from_entropy;
use crate::rng::rng_from_seed;
use crate::rng::rng_range;

verus! {

/// The largest opposing force under which operation generation is proved free
/// of overflow: every generated operation keeps the player's force within
/// twelve times this bound, well inside the machine integer range.
pub const FORCE_LIMIT: i32 = 100_000_000;

/// The forces a generator works on are valid when the player's force is at
/// least one and does not exceed the opposing force, and the opposing force
/// is within the supported bound.
pub open spec fn forces_valid(own: int, opp: int) -> bool {
    1 <= own <= opp <= FORCE_LIMIT as int
}

/// Applying a generated operation to a valid force pair keeps the result
/// within a fixed multiple of the bound, so that applying it and resolving
/// the battle stays within the machine integer range.
pub open spec fn result_bounded(op: Operation, own: int) -> bool {
    -9 * (FORCE_LIMIT as int) <= op_result(op, own) <= 12 * (FORCE_LIMIT as int)
}

/// The opposing force divided by the player's force, rounded up: the smallest
/// factor that lifts the player's force to at least the opposing force.
pub open spec fn ceil_ratio(own: int, opp: int) -> int {
    (opp + own - 1) / own
}

/// The operand of a generated operation lies in the drawing range of its
/// kind, for the force pair (own, opp) and the classification it was
/// generated under. When the forces are equal the Add and Subtract ranges
/// degenerate and the single smallest valid operand stands in their place.
pub open spec fn operand_in_range(op: Operation, own: int, opp: int, should_win: bool) -> bool {
    let diff = opp - own;
    let ratio = ceil_ratio(own, opp);
    match op {
        Operation::Add(v) => if should_win {
            if diff == 0 {
                v == 1
            } else {
                diff + 1 <= (v as int) <= 5 * diff
            }
        } else {
            if diff == 0 {
                v == 0
            } else {
                -5 * diff <= (v as int) < diff
            }
        },
        Operation::Subtract(v) => if should_win {
            if diff == 0 {
                v as int == -1
            } else {
                -5 * diff <= (v as int) <= -diff - 1
            }
        } else {
            if diff == 0 {
                v == 0
            } else {
                -diff <= (v as int) < 5 * diff
            }
        },
        Operation::Multiply(v) => if should_win {
            ratio + 1 <= (v as int) <= ratio + 10
        } else {
            ratio - 10 <= (v as int) < ratio
        },
        Operation::Divide(v) => !should_win && ratio + 1 <= (v as int) <= ratio + 10,
    }
}

/// A sequence of candidate paths contains exactly one winning operation for
/// the force pair (own, opp).
pub open spec fn exactly_one_winning(paths: Seq<Operation>, own: int, opp: int) -> bool {
    exists|w: int|
        0 <= w < paths.len() && wins(paths[w], own, opp) && (forall|j: int|
            0 <= j < paths.len() && j != w ==> !wins(paths[j], own, opp))
}

/// The mutable session state: the player's force, the current opposing
/// force, the difficulty chosen at session start, and the random source the
/// generators draw from.
pub struct Engine {
    pub soldiers: i32,
    pub bad_soldiers: i32,
    pub difficulty: Difficulty,
    pub rng: rand::rngs::StdRng,
}

impl Engine {
    /// Starts a session from the given random source: the player's force is
    /// drawn from [10, 20) and the opposing force strictly between it and its
    /// double.
    fn from_rng(difficulty: Difficulty, rng: rand::rngs::StdRng) -> (e: Engine)
        ensures
            10 <= e.soldiers < 20,
            e.soldiers < e.bad_soldiers < 2 * e.soldiers,
            e.difficulty == difficulty,
    {
        let mut rng = rng;
        let soldiers = rng_range(&mut rng, 10, 20);
        let bad_soldiers = rng_range(&mut rng, soldiers + 1, soldiers * 2);
        Engine { soldiers, bad_soldiers, difficulty, rng }
    }

    /// Starts a session with randomized initial forces.
    pub fn new(difficulty: Difficulty) -> (e: Engine)
        ensures
            10 <= e.soldiers < 20,
            e.soldiers < e.bad_soldiers < 2 * e.soldiers,
            e.difficulty == difficulty,
    {
        Engine::from_rng(difficulty, rng_from_entropy())
    }

    /// Starts a session whose every random draw is a function of the seed
    /// alone, for reproducible runs.
    pub fn new_seeded(difficulty: Difficulty, seed: u64) -> (e: Engine)
        ensures
            10 <= e.soldiers < 20,
            e.soldiers < e.bad_soldiers < 2 * e.soldiers,
            e.difficulty == difficulty,
    {
        Engine::from_rng(difficulty, rng_from_seed(seed))
    }

    /// Starts a session from chosen forces and a seed, for reproducible runs
    /// over a fixed starting position.
    pub fn with_forces(difficulty: Difficulty, soldiers: i32, bad_soldiers: i32, seed: u64) -> (e:
        Engine)
        ensures
            e.soldiers == soldiers,
            e.bad_soldiers == bad_soldiers,
            e.difficulty == difficulty,
    {
        Engine { soldiers, bad_soldiers, difficulty, rng: rng_from_seed(seed) }
    }

    /// Generates an Add operation classified by `should_win`: its operand is
    /// drawn so that adding it to the player's force lands strictly above the
    /// opposing force exactly when `should_win` holds. When the forces are
    /// equal the drawing ranges degenerate, and the single smallest valid
    /// operand is used instead.
    pub fn add(&mut self, should_win: bool) -> (op: Operation)
        requires
            forces_valid(old(self).soldiers as int, old(self).bad_soldiers as int),
        ensures
            final(self).soldiers == old(self).soldiers,
            final(self).bad_soldiers == old(self).bad_soldiers,
            final(self).difficulty == old(self).difficulty,
            op is Add,
            wins(op, old(self).soldiers as int, old(self).bad_soldiers as int) == should_win,
            operand_in_range(
                op,
                old(self).soldiers as int,
                old(self).bad_soldiers as int,
                should_win,
            ),
            divisor_nonzero(op),
            result_bounded(op, old(self).soldiers as int),
    {
        let test = self.bad_soldiers - self.soldiers;
        let value = if should_win {
            if test == 0 {
                1
            } else {
                rng_range(&mut self.rng, test + 1, 5 * test + 1)
            }
        } else {
            if test == 0 {
                0
            } else {
                let neg: i32 = 5 * test;
                rng_range(&mut self.rng, -neg, test)
            }
        };
        Operation::Add(value)
    }

    /// Generates a Subtract operation classified by `should_win`, the mirror
    /// image of Add: subtracting the operand lands strictly above the
    /// opposing force exactly when `should_win` holds.
    pub fn subtract(&mut self, should_win: bool) -> (op: Operation)
        requires
            forces_valid(old(self).soldiers as int, old(self).bad_soldiers as int),
        ensures
            final(self).soldiers == old(self).soldiers,
            final(self).bad_soldiers == old(self).bad_soldiers,
            final(self).difficulty == old(self).difficulty,
            op is Subtract,
            wins(op, old(self).soldiers as int, old(self).bad_soldiers as int) == should_win,
            operand_in_range(
                op,
                old(self).soldiers as int,
                old(self).bad_soldiers as int,
                should_win,
            ),
            divisor_nonzero(op),
            result_bounded(op, old(self).soldiers as int),
    {
        let test = self.soldiers - self.bad_soldiers;
        let value = if should_win {
            if test == 0 {
                -1
            } else {
                rng_range(&mut self.rng, 5 * test, test)
            }
        } else {
            if test == 0 {
                0
            } else {
                let neg: i32 = 5 * test;
                rng_range(&mut self.rng, test, -neg)
            }
        };
        Operation::Subtract(value)
    }

    /// The smallest factor that lifts the player's force to at least the
    /// opposing force: the opposing force divided by the player's force,
    /// rounded up.
    fn ratio(&self) -> (r: i32)
        requires
            forces_valid(self.soldiers as int, self.bad_soldiers as int),
        ensures
            r as int == ceil_ratio(self.soldiers as int, self.bad_soldiers as int),
            1 <= r <= self.bad_soldiers,
            self.soldiers as int * r as int >= self.bad_soldiers as int,
            self.soldiers as int * (r as int - 1) <= self.bad_soldiers as int - 1,
    {
        let own = self.soldiers;
        let opp = self.bad_soldiers;
        let num = opp + own - 1;
        let r = num / own;
        proof {
            let o = own as int;
            let p = opp as int;
            let n = num as int;
            lemma_fundamental_div_mod(n, o);
            let q = n / o;
            let m = n % o;
            assert(1 <= q <= p && o * q >= p && o * (q - 1) <= p - 1) by (nonlinear_arith)
                requires
                    n == o * q + m,
                    0 <= m < o,
                    n == p + o - 1,
                    1 <= o <= p,
            ;
        }
        r
    }

    /// Generates a Multiply operation classified by `should_win`: a winning
    /// factor exceeds the rounded-up force ratio, a losing factor stays below
    /// it.
    pub fn multiply(&mut self, should_win: bool) -> (op: Operation)
        requires
            forces_valid(old(self).soldiers as int, old(self).bad_soldiers as int),
        ensures
            final(self).soldiers == old(self).soldiers,
            final(self).bad_soldiers == old(self).bad_soldiers,
            final(self).difficulty == old(self).difficulty,
            op is Multiply,
            wins(op, old(self).soldiers as int, old(self).bad_soldiers as int) == should_win,
            operand_in_range(
                op,
                old(self).soldiers as int,
                old(self).bad_soldiers as int,
                should_win,
            ),
            divisor_nonzero(op),
            result_bounded(op, old(self).soldiers as int),
    {
        let test = self.ratio();
        let value = if should_win {
            rng_range(&mut self.rng, test + 1, test + 11)
        } else {
            rng_range(&mut self.rng, test - 10, test)
        };
        proof {
            let o = old(self).soldiers as int;
            let p = old(self).bad_soldiers as int;
            let t = test as int;
            let v = value as int;
            if should_win {
                assert(o * v >= p + 1 && o * v <= 12 * (FORCE_LIMIT as int)) by (nonlinear_arith)
                    requires
                        1 <= o <= p <= FORCE_LIMIT as int,
                        o * t >= p,
                        o * (t - 1) <= p - 1,
                        t + 1 <= v <= t + 10,
                ;
            } else {
                assert(o * v <= p - 1 && o * v >= -9 * (FORCE_LIMIT as int)) by (nonlinear_arith)
                    requires
                        1 <= o <= p <= FORCE_LIMIT as int,
                        o * t >= p,
                        o * (t - 1) <= p - 1,
                        t - 10 <= v <= t - 1,
                ;
            }
        }
        Operation::Multiply(value)
    }

    /// Generates a Divide operation, which is only ever offered as a losing
    /// path: the divisor exceeds the rounded-up force ratio, so the division
    /// always drops the player's force to the opposing force or below. The
    /// divisor is always at least two, never zero.
    pub fn divide(&mut self, _should_win: bool) -> (op: Operation)
        requires
            forces_valid(old(self).soldiers as int, old(self).bad_soldiers as int),
        ensures
            final(self).soldiers == old(self).soldiers,
            final(self).bad_soldiers == old(self).bad_soldiers,
            final(self).difficulty == old(self).difficulty,
            op is Divide,
            !wins(op, old(self).soldiers as int, old(self).bad_soldiers as int),
            operand_in_range(
                op,
                old(self).soldiers as int,
                old(self).bad_soldiers as int,
                false,
            ),
            op matches Operation::Divide(v) ==> v >= 2,
            divisor_nonzero(op),
            result_bounded(op, old(self).soldiers as int),
    {
        let test = self.ratio();
        let value = rng_range(&mut self.rng, test + 1, test + 11);
        proof {
            let o = old(self).soldiers as int;
            let v = value as int;
            lemma_fundamental_div_mod(o, v);
            let q = o / v;
            let m = o % v;
            assert(0 <= q < o) by (nonlinear_arith)
                requires
                    o == v * q + m,
                    0 <= m < v,
                    v >= 2,
                    o >= 1,
            ;
        }
        Operation::Divide(value)
    }

    /// Generates one operation classified by `should_win`, drawing its kind
    /// uniformly: a winning operation is Add, Subtract or Multiply (a
    /// division can never lift the player's force past a larger opponent), a
    /// losing one may also be Divide.
    pub fn operation(&mut self, should_win: bool) -> (op: Operation)
        requires
            forces_valid(old(self).soldiers as int, old(self).bad_soldiers as int),
        ensures
            final(self).soldiers == old(self).soldiers,
            final(self).bad_soldiers == old(self).bad_soldiers,
            final(self).difficulty == old(self).difficulty,
            wins(op, old(self).soldiers as int, old(self).bad_soldiers as int) == should_win,
            operand_in_range(
                op,
                old(self).soldiers as int,
                old(self).bad_soldiers as int,
                should_win,
            ),
            divisor_nonzero(op),
            result_bounded(op, old(self).soldiers as int),
    {
        let kinds: i32 = if should_win {
            3
        } else {
            4
        };
        let index = rng_range(&mut self.rng, 0, kinds);
        if index == 0 {
            self.add(should_win)
        } else if index == 1 {
            self.subtract(should_win)
        } else if index == 2 {
            self.multiply(should_win)
        } else {
            self.divide(should_win)
        }
    }

    /// Builds the candidate paths for one turn: as many operations as the
    /// difficulty's branching factor, exactly one of them winning, placed at
    /// an index drawn from the whole range.
    pub fn build_paths(&mut self) -> (paths: Vec<Operation>)
        requires
            forces_valid(old(self).soldiers as int, old(self).bad_soldiers as int),
        ensures
            final(self).soldiers == old(self).soldiers,
            final(self).bad_soldiers == old(self).bad_soldiers,
            final(self).difficulty == old(self).difficulty,
            paths@.len() == old(self).difficulty.branch_factor(),
            exactly_one_winning(
                paths@,
                old(self).soldiers as int,
                old(self).bad_soldiers as int,
            ),
            forall|j: int|
                0 <= j < paths@.len() ==> #[trigger] divisor_nonzero(paths@[j]) && result_bounded(
                    paths@[j],
                    old(self).soldiers as int,
                ),
    {
        let ghost own = old(self).soldiers as int;
        let ghost opp = old(self).bad_soldiers as int;
        let n = self.difficulty.to_usize();
        let mut paths: Vec<Operation> = Vec::new();
        let mut i: usize = 1;
        while i < n
            invariant
                1 <= i <= n,
                paths@.len() == i - 1,
                self.soldiers == old(self).soldiers,
                self.bad_soldiers == old(self).bad_soldiers,
                self.difficulty == old(self).difficulty,
                forces_valid(own, opp),
                own == old(self).soldiers as int,
                opp == old(self).bad_soldiers as int,
                forall|j: int|
                    0 <= j < paths@.len() ==> !wins(#[trigger] paths@[j], own, opp)
                        && divisor_nonzero(paths@[j]) && result_bounded(paths@[j], own),
            decreases n - i,
        {
            let op = self.operation(false);
            paths.push(op);
            i += 1;
        }
        let w = rng_range(&mut self.rng, 0, n as i32);
        let win_op = self.operation(true);
        let ghost before = paths@;
        paths.insert(w as usize, win_op);
        proof {
            let wi = w as int;
            assert(paths@[wi] == win_op);
            assert(forall|j: int|
                0 <= j < paths@.len() && j != wi ==> !wins(#[trigger] paths@[j], own, opp)
                    && divisor_nonzero(paths@[j]) && result_bounded(paths@[j], own)) by {
                assert forall|j: int| 0 <= j < paths@.len() && j != wi implies !wins(
                    #[trigger] paths@[j],
                    own,
                    opp,
                ) && divisor_nonzero(paths@[j]) && result_bounded(paths@[j], own) by {
                    if j < wi {
                        assert(paths@[j] == before[j]);
                    } else {
                        assert(paths@[j] == before[j - 1]);
                    }
                }
            }
        }
        paths
    }

    /// Applies an operation to the player's force; the opposing force and the
    /// difficulty are untouched. The caller rules out a zero divisor and a
    /// result outside the machine integer range.
    pub fn apply_operation(&mut self, operation: Operation)
        requires
            divisor_nonzero(operation),
            i32::MIN <= op_result(operation, old(self).soldiers as int) <= i32::MAX,
        ensures
            final(self).soldiers as int == op_result(operation, old(self).soldiers as int),
            final(self).bad_soldiers == old(self).bad_soldiers,
            final(self).difficulty == old(self).difficulty,
    {
        match operation {
            Operation::Add(val) => {
                self.soldiers = self.soldiers + val;
            },
            Operation::Subtract(val) => {
                self.soldiers = self.soldiers - val;
            },
            Operation::Multiply(val) => {
                self.soldiers = self.soldiers * val;
            },
            Operation::Divide(val) => {
                let q = self.soldiers.checked_div(val);
                proof {
                    if self.soldiers as int == 0 {
                        vstd::arithmetic::div_mod::lemma_div_of0(val as int);
                        vstd::arithmetic::div_mod::lemma_div_of0(-(val as int));
                    }
                }
                self.soldiers = q.unwrap();
            },
        }
    }

    /// Resolves the battle: the opposing force is subtracted from the
    /// player's force, permanently, and the session is lost exactly when the
    /// remainder is not positive.
    pub fn fight_war(&mut self) -> (did_lose: bool)
        requires
            i32::MIN <= old(self).soldiers as int - old(self).bad_soldiers as int <= i32::MAX,
        ensures
            final(self).soldiers as int == old(self).soldiers as int - old(
                self,
            ).bad_soldiers as int,
            final(self).bad_soldiers == old(self).bad_soldiers,
            final(self).difficulty == old(self).difficulty,
            did_lose <==> final(self).soldiers <= 0,
    {
        self.soldiers = self.soldiers - self.bad_soldiers;
        self.soldiers <= 0
    }

    /// Starts the next encounter after a victory: a fresh opposing force is
    /// drawn strictly above the player's force and strictly below twice the
    /// player's force plus two; the player's force is unchanged.
    pub fn new_encounter(&mut self)
        requires
            1 <= old(self).soldiers <= FORCE_LIMIT,
        ensures
            final(self).soldiers == old(self).soldiers,
            final(self).difficulty == old(self).difficulty,
            old(self).soldiers < final(self).bad_soldiers,
            (final(self).bad_soldiers as int) < 2 * (old(self).soldiers as int + 1),
    {
        let lo = self.soldiers + 1;
        let hi = 2 * (self.soldiers + 1);
        self.bad_soldiers = rng_range(&mut self.rng, lo, hi);
    }
}

} // verus!
