//! Counting the divisors of a number, on one thread or split into ranges
//! that several threads count.
//!
//! [`factors_sp`] counts the divisors of `num` in `1..=num` directly. The
//! multi-threaded count cuts `1..` into `num_thread` ranges of
//! `num / num_thread` candidates ([`fact_tasks`]), has one thread count each
//! range ([`FactTask::factor`]), and adds the counts together with the
//! candidates left over from the division ([`factors_mp_combine`]); the
//! threads themselves are started by the caller.
//! [`lemma_split_count_is_count`] proves that the split count equals the
//! direct one.
use vstd::prelude::*;

verus! {

/// The absolute value of `n`.
pub open spec fn abs(n: int) -> int {
    if n < 0 {
        -n
    } else {
        n
    }
}

/// `i` is a nonzero divisor of `n`.
pub open spec fn divides(i: int, n: int) -> bool {
    i != 0 && abs(n) % abs(i) == 0
}

/// The number of divisors of `num` in `from..to`.
pub open spec fn count_divisors(num: int, from: int, to: int) -> nat
    decreases to - from,
{
    if to <= from {
        0
    } else {
        count_divisors(num, from, to - 1) + if divides(to - 1, num) {
            1nat
        } else {
            0nat
        }
    }
}

/// Division rounding towards zero, as Rust's `/` on integers does.
pub open spec fn trunc_div(a: int, b: int) -> int {
    if a >= 0 {
        a / b
    } else {
        -((-a) / b)
    }
}

/// The remainder that goes with [`trunc_div`], as Rust's `%` on integers.
pub open spec fn trunc_rem(a: int, b: int) -> int {
    a - b * trunc_div(a, b)
}

/// A count over an empty range is zero.
pub proof fn lemma_count_empty(num: int, from: int, to: int)
    requires
        to <= from,
    ensures
        count_divisors(num, from, to) == 0,
{
}

/// A range holds at most as many divisors as candidates.
pub proof fn lemma_count_bound(num: int, from: int, to: int)
    ensures
        count_divisors(num, from, to) <= if to <= from {
            0
        } else {
            to - from
        },
    decreases to - from,
{
    if to > from {
        lemma_count_bound(num, from, to - 1);
    }
}

/// Counting two adjacent ranges separately and adding gives the count of
/// their union.
pub proof fn lemma_count_split(num: int, a: int, b: int, c: int)
    requires
        a <= b <= c,
    ensures
        count_divisors(num, a, c) == count_divisors(num, a, b) + count_divisors(num, b, c),
    decreases c - b,
{
    if c > b {
        lemma_count_split(num, a, b, c - 1);
    }
}

/// Tells whether `i` divides `num`, as `num % i == 0` does in Rust.
pub fn is_divisor(num: i64, i: i64) -> (r: bool)
    requires
        i != 0,
    ensures
        r == divides(i as int, num as int),
{
    let n: i128 = if num < 0 {
        -(num as i128)
    } else {
        num as i128
    };
    let d: i128 = if i < 0 {
        -(i as i128)
    } else {
        i as i128
    };
    n % d == 0
}

/// Counts the divisors of `num` in `1..=num` on one thread.
pub fn factors_sp(num: i64) -> (result: i64)
    ensures
        result == count_divisors(num as int, 1, num + 1),
{
    if num < 1 {
        return 0;
    }
    let mut result: i64 = 0;
    let mut i: i64 = 1;
    loop
        invariant
            1 <= i <= num,
            result == count_divisors(num as int, 1, i as int),
        decreases num - i,
    {
        proof {
            lemma_count_bound(num as int, 1, i as int);
        }
        if is_divisor(num, i) {
            result = result + 1;
        }
        if i == num {
            return result;
        }
        i = i + 1;
    }
}

/// A range of candidates `from..to` for the divisors of `num`, counted by
/// one thread.
pub struct FactTask {
    num: i64,
    from: i64,
    to: i64,
}

/// A task can be counted: its range does not hold zero, nor `-1` when `num`
/// is `i64::MIN` (Rust's `%` fails on both), and its count fits in an
/// `i64`.
pub open spec fn can_factor(num: int, from: int, to: int) -> bool {
    &&& !(from <= 0 < to)
    &&& !(num == i64::MIN && from <= -1 < to)
    &&& count_divisors(num, from, to) <= i64::MAX
}

impl FactTask {
    /// The number whose divisors the task counts.
    pub closed spec fn num(&self) -> int {
        self.num as int
    }

    /// The first candidate.
    pub closed spec fn from(&self) -> int {
        self.from as int
    }

    /// The end of the range (excluded).
    pub closed spec fn to(&self) -> int {
        self.to as int
    }

    /// The task of counting the divisors of `num` in `from..to`.
    pub fn new(num: i64, from: i64, to: i64) -> (t: Self)
        ensures
            t.num() == num,
            t.from() == from,
            t.to() == to,
    {
        FactTask { num, from, to }
    }

    /// Counts the divisors of the task's number in its range.
    pub fn factor(&self) -> (result: i64)
        requires
            can_factor(self.num(), self.from(), self.to()),
        ensures
            result == count_divisors(self.num(), self.from(), self.to()),
    {
        let mut result: i64 = 0;
        let mut i: i64 = self.from;
        if self.to <= self.from {
            return 0;
        }
        while i < self.to
            invariant
                self.from <= i <= self.to,
                can_factor(self.num(), self.from(), self.to()),
                result == count_divisors(self.num(), self.from(), i as int),
            decreases self.to - i,
        {
            proof {
                lemma_count_split(self.num(), self.from(), i + 1, self.to());
                lemma_count_split(self.num(), self.from(), i as int, i + 1);
            }
            if is_divisor(self.num, i) {
                result = result + 1;
            }
            i = i + 1;
        }
        result
    }
}

/// The candidates per thread: `num / num_thread`, rounded towards zero.
pub open spec fn plan_step(num: int, num_thread: int) -> int {
    trunc_div(num, num_thread)
}

/// The first candidate of thread `j`'s range.
pub open spec fn task_from(num: int, num_thread: int, j: int) -> int {
    1 + j * plan_step(num, num_thread)
}

/// The end of thread `j`'s range: the first candidate of the next one.
pub open spec fn task_to(num: int, num_thread: int, j: int) -> int {
    1 + (j + 1) * plan_step(num, num_thread)
}

/// The ranges end before `i64::MAX` would be passed: the last range ends
/// at `num + 1`, past `i64::MAX`, only when `num_thread` divides
/// `i64::MAX` exactly.
pub open spec fn plan_fits(num: int, num_thread: int) -> bool {
    !(num == i64::MAX && trunc_rem(num, num_thread) == 0)
}

/// The quotient and remainder of `num / num_thread`, rounded towards zero.
fn divide(num: i64, num_thread: i64) -> (r: (i64, i64))
    requires
        num_thread >= 1,
    ensures
        r.0 == trunc_div(num as int, num_thread as int),
        r.1 == trunc_rem(num as int, num_thread as int),
        num >= 0 ==> 0 <= r.1 < num_thread && r.0 >= 0,
        num < 0 ==> -num_thread < r.1 <= 0 && r.0 <= 0,
{
    let n: i128 = num as i128;
    let k: i128 = num_thread as i128;
    let a: i128 = if n >= 0 {
        n
    } else {
        -n
    };
    let q: i128 = a / k;
    let rem: i128 = a % k;
    proof {
        vstd::arithmetic::div_mod::lemma_fundamental_div_mod(a as int, k as int);
        vstd::arithmetic::div_mod::lemma_mod_bound(a as int, k as int);
        assert(0 <= q <= a) by (nonlinear_arith)
            requires
                a == k * q + rem,
                0 <= rem < k,
                k >= 1,
                a >= 0,
        ;
    }
    if n >= 0 {
        (q as i64, rem as i64)
    } else {
        proof {
            assert(n - k * (-q) == -rem) by (nonlinear_arith)
                requires
                    a == k * q + rem,
                    a == -n,
            ;
        }
        ((-q) as i64, (-rem) as i64)
    }
}

/// Facts about the plan: thread `j`'s range follows thread `j - 1`'s, the
/// ranges stay within `1..=num + 1` (or are empty when `num` is below one),
/// and the candidates after the last range are those left over from the
/// division.
proof fn lemma_plan_shape(num: int, num_thread: int, j: int)
    requires
        num_thread >= 1,
        0 <= j <= num_thread,
        i64::MIN <= num <= i64::MAX,
    ensures
        num >= 0 ==> 1 <= task_from(num, num_thread, j) <= 1 + num - trunc_rem(num, num_thread),
        num < 0 ==> 1 + num - trunc_rem(num, num_thread) <= task_from(num, num_thread, j) <= 1,
        task_from(num, num_thread, num_thread) == 1 + num - trunc_rem(num, num_thread),
        task_to(num, num_thread, j) == task_from(num, num_thread, j) + plan_step(num, num_thread),
        num >= 0 ==> 0 <= trunc_rem(num, num_thread) < num_thread,
        num < 0 ==> -num_thread < trunc_rem(num, num_thread) <= 0,
        num >= 0 ==> plan_step(num, num_thread) >= 0,
        num < 0 ==> plan_step(num, num_thread) <= 0,
{
    let k = num_thread;
    let s = plan_step(num, k);
    let a = abs(num);
    vstd::arithmetic::div_mod::lemma_fundamental_div_mod(a, k);
    vstd::arithmetic::div_mod::lemma_mod_bound(a, k);
    assert(a / k >= 0) by (nonlinear_arith)
        requires
            a == k * (a / k) + a % k,
            0 <= a % k < k,
            a >= 0,
            k >= 1,
    ;
    assert((j + 1) * s == j * s + s) by (nonlinear_arith);
    if num >= 0 {
        assert(0 <= j * s <= k * s) by (nonlinear_arith)
            requires
                0 <= j <= k,
                s >= 0,
        ;
    } else {
        assert(num - k * s == -(a % k)) by (nonlinear_arith)
            requires
                s == -(a / k),
                a == k * (a / k) + a % k,
                a == -num,
        ;
        assert(k * s <= j * s <= 0) by (nonlinear_arith)
            requires
                0 <= j <= k,
                s <= 0,
        ;
    }
}

/// Splits the count of `num`'s divisors into `num_thread` ranges of
/// candidates, one per thread: range `j` is `task_from..task_to`. Every
/// task returned can be counted. A thread count below one gives no task.
pub fn fact_tasks(num: i64, num_thread: i64) -> (tasks: Vec<FactTask>)
    requires
        num_thread != 0,
        !(num == i64::MIN && num_thread == -1),
        num_thread >= 1 ==> plan_fits(num as int, num_thread as int),
    ensures
        tasks@.len() == if num_thread >= 1 {
            num_thread as int
        } else {
            0
        },
        forall|j: int|
            0 <= j < num_thread ==> {
                &&& (#[trigger] tasks@[j]).num() == num
                &&& tasks@[j].from() == task_from(num as int, num_thread as int, j)
                &&& tasks@[j].to() == task_to(num as int, num_thread as int, j)
                &&& can_factor(tasks@[j].num(), tasks@[j].from(), tasks@[j].to())
            },
{
    let mut tasks: Vec<FactTask> = Vec::new();
    if num_thread < 1 {
        return tasks;
    }
    let (step, _residual) = divide(num, num_thread);
    let mut start: i64 = 1;
    let mut j: i64 = 0;
    while j < num_thread
        invariant
            0 <= j <= num_thread,
            num_thread >= 1,
            plan_fits(num as int, num_thread as int),
            step == plan_step(num as int, num_thread as int),
            start == task_from(num as int, num_thread as int, j as int),
            tasks@.len() == j,
            forall|i: int|
                0 <= i < j ==> {
                    &&& (#[trigger] tasks@[i]).num() == num
                    &&& tasks@[i].from() == task_from(num as int, num_thread as int, i)
                    &&& tasks@[i].to() == task_to(num as int, num_thread as int, i)
                    &&& can_factor(tasks@[i].num(), tasks@[i].from(), tasks@[i].to())
                },
        decreases num_thread - j,
    {
        proof {
            lemma_plan_shape(num as int, num_thread as int, j as int);
            lemma_plan_shape(num as int, num_thread as int, j + 1);
            let from = start as int;
            let to = start + step;
            lemma_count_bound(num as int, from, to);
            if num < 0 {
                lemma_count_empty(num as int, from, to);
            }
        }
        let to = start + step;
        tasks.push(FactTask::new(num, start, to));
        start = to;
        j = j + 1;
    }
    tasks
}

/// What the multi-threaded count returns: the number of divisors of `num`
/// in `1..=num`. With a thread count below one no thread runs, and the
/// candidates are only counted when `num_thread` does not divide `num`;
/// otherwise the result is zero.
pub open spec fn spec_factors_mp(num: int, num_thread: int) -> int {
    if num_thread >= 1 || abs(num) % abs(num_thread) != 0 {
        count_divisors(num, 1, num + 1) as int
    } else {
        0
    }
}

/// Tells whether `num_thread` does not divide `num`.
fn leaves_remainder(num: i64, num_thread: i64) -> (r: bool)
    requires
        num_thread != 0,
    ensures
        r == (abs(num as int) % abs(num_thread as int) != 0),
{
    !is_divisor(num, num_thread)
}

/// Adds the threads' counts of the ranges of [`fact_tasks`], then counts the
/// candidates left over after the last range (`start..=num`, when the
/// division left a remainder). The total is [`spec_factors_mp`]: the number
/// of divisors of `num` in `1..=num` for a thread count of at least one.
pub fn factors_mp_combine(num: i64, num_thread: i64, results: &Vec<i64>) -> (total: i64)
    requires
        num_thread != 0,
        !(num == i64::MIN && num_thread == -1),
        num_thread >= 1 ==> plan_fits(num as int, num_thread as int),
        results@.len() == if num_thread >= 1 {
            num_thread as int
        } else {
            0
        },
        forall|j: int|
            0 <= j < num_thread ==> #[trigger] results@[j] == count_divisors(
                num as int,
                task_from(num as int, num_thread as int, j),
                task_to(num as int, num_thread as int, j),
            ),
    ensures
        total == spec_factors_mp(num as int, num_thread as int),
{
    if num_thread < 1 {
        if leaves_remainder(num, num_thread) {
            return factors_sp(num);
        } else {
            return 0;
        }
    }
    let (step, residual) = divide(num, num_thread);
    let mut result: i64 = 0;
    let mut start: i64 = 1;
    let mut j: usize = 0;
    let n_threads: usize = results.len();
    while j < n_threads
        invariant
            num_thread >= 1,
            n_threads == results@.len() == num_thread,
            0 <= j <= n_threads,
            plan_fits(num as int, num_thread as int),
            step == plan_step(num as int, num_thread as int),
            residual == trunc_rem(num as int, num_thread as int),
            start == task_from(num as int, num_thread as int, j as int),
            result == count_divisors(num as int, 1, start as int),
            forall|i: int|
                0 <= i < num_thread ==> #[trigger] results@[i] == count_divisors(
                    num as int,
                    task_from(num as int, num_thread as int, i),
                    task_to(num as int, num_thread as int, i),
                ),
        decreases n_threads - j,
    {
        proof {
            lemma_plan_shape(num as int, num_thread as int, j as int);
            lemma_plan_shape(num as int, num_thread as int, j + 1);
            let next = start + step;
            if num >= 0 {
                lemma_count_split(num as int, 1, start as int, next);
                lemma_count_bound(num as int, 1, next);
            } else {
                lemma_count_empty(num as int, 1, next);
                lemma_count_empty(num as int, 1, start as int);
                lemma_count_empty(num as int, start as int, next);
            }
        }
        result = result + results[j];
        start = start + step;
        j = j + 1;
    }
    proof {
        lemma_plan_shape(num as int, num_thread as int, num_thread as int);
    }
    if residual != 0 && start <= num {
        let mut i: i64 = start;
        loop
            invariant
                num_thread >= 1,
                1 <= start <= i <= num,
                result == count_divisors(num as int, 1, i as int),
            decreases num - i,
        {
            proof {
                lemma_count_bound(num as int, 1, i as int);
                lemma_count_split(num as int, 1, i as int, i + 1);
            }
            if is_divisor(num, i) {
                result = result + 1;
            }
            if i == num {
                return result;
            }
            i = i + 1;
        }
    }
    proof {
        if num < 0 {
            lemma_count_empty(num as int, 1, num + 1);
        }
    }
    result
}

/// The split count is the count: counting the ranges of [`fact_tasks`]
/// separately, plus the candidates left over after the last range, gives
/// the number of divisors of `num` in `1..=num`, as [`factors_sp`] counts
/// them.
pub proof fn lemma_split_count_is_count(num: int, num_thread: int, j: int)
    requires
        num_thread >= 1,
        i64::MIN <= num <= i64::MAX,
        0 <= j <= num_thread,
    ensures
        num >= 0 ==> count_divisors(num, 1, task_from(num, num_thread, j)) + count_divisors(
            num,
            task_from(num, num_thread, j),
            task_to(num, num_thread, j),
        ) == count_divisors(num, 1, task_to(num, num_thread, j)),
        count_divisors(num, 1, task_from(num, num_thread, num_thread)) + count_divisors(
            num,
            task_from(num, num_thread, num_thread),
            num + 1,
        ) == count_divisors(num, 1, num + 1),
{
    lemma_plan_shape(num, num_thread, j);
    lemma_plan_shape(num, num_thread, num_thread);
    if num >= 0 {
        lemma_count_split(num, 1, task_from(num, num_thread, j), task_to(num, num_thread, j));
        lemma_count_split(num, 1, task_from(num, num_thread, num_thread), num + 1);
    } else {
        lemma_count_empty(num, 1, num + 1);
        lemma_count_empty(num, 1, task_from(num, num_thread, num_thread));
        lemma_count_empty(num, task_from(num, num_thread, num_thread), num + 1);
    }
}

} // verus!
