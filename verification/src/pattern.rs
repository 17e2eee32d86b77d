//! Sequence-pattern recognition and extrapolation.
//!
//! A run of integers is matched against a fixed list of rules, tried in
//! order; the first rule that holds over the entire run decides how the run
//! is continued. Recognition is done in exact integer arithmetic. Continued
//! values are reduced into the 64-bit range two's-complement style, so every
//! run has a continuation.
//!
//! The ratio rule compares quotients within a tolerance and is evaluated
//! outside this module; its outcome is handed in as a value.

use vstd::prelude::*;

verus! {

/// A run of given values and the number of values to predict after it.
#[derive(Debug)]
pub struct PatternSequence {
    pub given: Vec<i64>,
    pub predict_count: usize,
}

/// The rule that decides how a run is continued.
#[derive(Clone, Copy, Debug, PartialEq, Eq, Structural)]
pub enum PatternRule {
    /// Fewer than two values: nothing to infer.
    TooShort,
    /// Constant first difference.
    Arithmetic,
    /// Constant second difference.
    Quadratic,
    /// Constant ratio, as judged by the ratio test.
    Geometric,
    /// Every value is the sum of the two before it.
    Fibonacci,
    /// No rule holds: the last first difference is repeated.
    LastDifference,
}

/// Two to the power 64.
pub open spec fn range64() -> int {
    0x1_0000_0000_0000_0000
}

/// The 64-bit two's-complement value congruent to `x`.
pub open spec fn wrap64(x: int) -> int {
    let m = x % range64();
    if m > i64::MAX {
        m - range64()
    } else {
        m
    }
}

/// The first difference of `s` at `i`.
pub open spec fn diff_at(s: Seq<i64>, i: int) -> int {
    s[i + 1] - s[i]
}

/// The second difference of `s` at `i`.
pub open spec fn second_diff_at(s: Seq<i64>, i: int) -> int {
    diff_at(s, i + 1) - diff_at(s, i)
}

/// All first differences of `s` are equal.
pub open spec fn is_arithmetic(s: Seq<i64>) -> bool {
    forall|i: int| 0 <= i < s.len() - 1 ==> #[trigger] diff_at(s, i) == diff_at(s, 0)
}

/// All second differences of `s` are equal.
pub open spec fn is_quadratic(s: Seq<i64>) -> bool {
    forall|i: int| 0 <= i < s.len() - 2 ==> #[trigger] second_diff_at(s, i) == second_diff_at(s, 0)
}

/// No value of `s` is zero.
pub open spec fn all_nonzero(s: Seq<i64>) -> bool {
    forall|i: int| 0 <= i < s.len() ==> #[trigger] s[i] != 0
}

/// `s` has at least three values and each value from the third on is the sum
/// of the two before it.
pub open spec fn is_fibonacci(s: Seq<i64>) -> bool {
    &&& s.len() >= 3
    &&& forall|i: int| 0 <= i < s.len() - 2 ==> #[trigger] s[i + 2] == s[i] + s[i + 1]
}

/// The ratio test is consulted exactly for runs of at least two non-zero
/// values that are neither arithmetic nor quadratic.
pub open spec fn ratio_test_applies(s: Seq<i64>) -> bool {
    &&& s.len() >= 2
    &&& !is_arithmetic(s)
    &&& !is_quadratic(s)
    &&& all_nonzero(s)
}

/// The rule that continues `s`, where `ratio_matched` tells whether the
/// ratio test accepted the run.
pub open spec fn rule_of(s: Seq<i64>, ratio_matched: bool) -> PatternRule {
    if s.len() < 2 {
        PatternRule::TooShort
    } else if is_arithmetic(s) {
        PatternRule::Arithmetic
    } else if is_quadratic(s) {
        PatternRule::Quadratic
    } else if all_nonzero(s) && ratio_matched {
        PatternRule::Geometric
    } else if is_fibonacci(s) {
        PatternRule::Fibonacci
    } else {
        PatternRule::LastDifference
    }
}

/// The `k`-th value (from 0) after `last` when `d` is added at every step.
pub open spec fn arithmetic_term(last: int, d: int, k: int) -> int {
    wrap64(last + (k + 1) * d)
}

/// The `k`-th value (from 0) after `last` when the running difference, which
/// starts at `last_diff`, grows by `d2` before every step.
pub open spec fn quadratic_term(last: int, last_diff: int, d2: int, k: int) -> int {
    wrap64(last + (k + 1) * last_diff + d2 * (((k + 1) * (k + 2)) / 2))
}

/// The `k`-th value of the additive sequence that starts `a`, `b`.
pub open spec fn additive(a: int, b: int, k: nat) -> int
    decreases k,
{
    if k == 0 {
        a
    } else if k == 1 {
        b
    } else {
        additive(a, b, (k - 2) as nat) + additive(a, b, (k - 1) as nat)
    }
}

/// The `k`-th predicted value (from 0) for the run `s` under `rule`. For the
/// geometric rule the values come from the ratio test and are not given here.
pub open spec fn predicted_term(s: Seq<i64>, rule: PatternRule, k: int) -> int {
    let n = s.len() as int;
    match rule {
        PatternRule::TooShort => 0,
        PatternRule::Arithmetic => arithmetic_term(s[n - 1] as int, diff_at(s, 0), k),
        PatternRule::Quadratic => quadratic_term(
            s[n - 1] as int,
            diff_at(s, n - 2),
            second_diff_at(s, 0),
            k,
        ),
        PatternRule::Geometric => 0,
        PatternRule::Fibonacci => wrap64(
            additive(s[n - 2] as int, s[n - 1] as int, (k + 2) as nat),
        ),
        PatternRule::LastDifference => arithmetic_term(s[n - 1] as int, diff_at(s, n - 2), k),
    }
}

/// The ratio test accepted the run: it handed in as many values as are to
/// be predicted.
pub open spec fn ratio_accepted(count: nat, ratio: Option<Seq<i64>>) -> bool {
    ratio is Some && ratio->0.len() == count
}

/// The predictions for the run `s`: `count` values under the rule that
/// continues `s`, or what the ratio test handed in where that test decides.
pub open spec fn predicted(s: Seq<i64>, count: nat, ratio: Option<Seq<i64>>) -> Seq<i64> {
    let rule = rule_of(s, ratio_accepted(count, ratio));
    if rule == PatternRule::Geometric {
        ratio->0
    } else {
        Seq::new(count, |k: int| predicted_term(s, rule, k) as i64)
    }
}

/// `wrap64` lands in the 64-bit range and leaves values of that range alone.
pub proof fn lemma_wrap64_range(x: int)
    ensures
        i64::MIN <= wrap64(x) <= i64::MAX,
        i64::MIN <= x <= i64::MAX ==> wrap64(x) == x,
{
}

/// Reducing a summand first does not change the reduced sum.
pub proof fn lemma_wrap64_add(a: int, b: int)
    ensures
        wrap64(wrap64(a) + b) == wrap64(a + b),
        wrap64(a + wrap64(b)) == wrap64(a + b),
        wrap64(wrap64(a) + wrap64(b)) == wrap64(a + b),
{
    let r = range64();
    let wa = wrap64(a);
    let wb = wrap64(b);
    assert(wa == a % r || wa == a % r - r);
    assert(wb == b % r || wb == b % r - r);
    vstd::arithmetic::div_mod::lemma_fundamental_div_mod(a, r);
    vstd::arithmetic::div_mod::lemma_fundamental_div_mod(b, r);
    let qa = if wa == a % r { a / r } else { a / r + 1 };
    let qb = if wb == b % r { b / r } else { b / r + 1 };
    assert(a == wa + r * qa) by (nonlinear_arith)
        requires
            a == r * (a / r) + a % r,
            qa == (if wa == a % r { a / r } else { a / r + 1 }),
            wa == a % r || wa == a % r - r,
    ;
    assert(b == wb + r * qb) by (nonlinear_arith)
        requires
            b == r * (b / r) + b % r,
            qb == (if wb == b % r { b / r } else { b / r + 1 }),
            wb == b % r || wb == b % r - r,
    ;
    lemma_mod_shift(wa + b, qa, r);
    assert(wa + b + qa * r == a + b) by (nonlinear_arith)
        requires
            a == wa + r * qa,
    ;
    lemma_mod_shift(a + wb, qb, r);
    assert(a + wb + qb * r == a + b) by (nonlinear_arith)
        requires
            b == wb + r * qb,
    ;
    lemma_mod_shift(wa + wb, qa + qb, r);
    assert(wa + wb + (qa + qb) * r == a + b) by (nonlinear_arith)
        requires
            a == wa + r * qa,
            b == wb + r * qb,
    ;
}

/// Adding a multiple of the modulus leaves the remainder unchanged.
proof fn lemma_mod_shift(x: int, q: int, r: int)
    requires
        r > 0,
    ensures
        (x + q * r) % r == x % r,
{
    vstd::arithmetic::div_mod::lemma_mod_multiples_vanish(q, x, r);
    assert(r * q + x == x + q * r) by (nonlinear_arith);
}

/// Wrapping 64-bit addition is addition followed by `wrap64`.
pub proof fn lemma_wrapping_add_is_wrap64(x: i64, y: i64)
    ensures
        x.wrapping_add(y) == wrap64(x + y),
{
}

/// Reduces a value of fewer than 67 bits into the 64-bit range.
fn wrap_wide(x: i128) -> (r: i64)
    requires
        -4 * range64() <= x < 4 * range64(),
    ensures
        r == wrap64(x as int),
{
    let shifted: i128 = x + 0x4_0000_0000_0000_0000i128;
    let m: i128 = shifted % 0x1_0000_0000_0000_0000i128;
    proof {
        lemma_mod_shift(x as int, 4, range64());
    }
    if m > i64::MAX as i128 {
        (m - 0x1_0000_0000_0000_0000i128) as i64
    } else {
        m as i64
    }
}

/// Tells whether the whole run has one first difference.
pub fn check_arithmetic(given: &Vec<i64>) -> (r: bool)
    ensures
        r == is_arithmetic(given@),
{
    if given.len() < 2 {
        return true;
    }
    let d: i128 = given[1] as i128 - given[0] as i128;
    let mut i: usize = 0;
    while i + 1 < given.len()
        invariant
            given.len() >= 2,
            i + 1 <= given.len(),
            d == diff_at(given@, 0),
            forall|j: int| 0 <= j < i ==> #[trigger] diff_at(given@, j) == d,
        decreases given.len() - i,
    {
        let e: i128 = given[i + 1] as i128 - given[i] as i128;
        if e != d {
            assert(diff_at(given@, i as int) != diff_at(given@, 0));
            return false;
        }
        i = i + 1;
    }
    true
}

/// Tells whether the whole run has one second difference.
pub fn check_quadratic(given: &Vec<i64>) -> (r: bool)
    ensures
        r == is_quadratic(given@),
{
    if given.len() < 3 {
        return true;
    }
    let d2: i128 = (given[2] as i128 - given[1] as i128) - (given[1] as i128 - given[0] as i128);
    let mut i: usize = 0;
    while i + 2 < given.len()
        invariant
            given.len() >= 3,
            i + 2 <= given.len(),
            d2 == second_diff_at(given@, 0),
            forall|j: int| 0 <= j < i ==> #[trigger] second_diff_at(given@, j) == d2,
        decreases given.len() - i,
    {
        let e: i128 = (given[i + 2] as i128 - given[i + 1] as i128) - (given[i + 1] as i128
            - given[i] as i128);
        if e != d2 {
            assert(second_diff_at(given@, i as int) != second_diff_at(given@, 0));
            return false;
        }
        i = i + 1;
    }
    true
}

/// Tells whether no value of the run is zero.
pub fn check_all_nonzero(given: &Vec<i64>) -> (r: bool)
    ensures
        r == all_nonzero(given@),
{
    let mut i: usize = 0;
    while i < given.len()
        invariant
            i <= given.len(),
            forall|j: int| 0 <= j < i ==> #[trigger] given@[j] != 0,
        decreases given.len() - i,
    {
        if given[i] == 0 {
            return false;
        }
        i = i + 1;
    }
    true
}

/// Tells whether the run is additive: each value the sum of the two before.
pub fn check_fibonacci(given: &Vec<i64>) -> (r: bool)
    ensures
        r == is_fibonacci(given@),
{
    if given.len() < 3 {
        return false;
    }
    let mut i: usize = 0;
    while i + 2 < given.len()
        invariant
            given.len() >= 3,
            i + 2 <= given.len(),
            forall|j: int| 0 <= j < i ==> #[trigger] given@[j + 2] == given@[j] + given@[j + 1],
        decreases given.len() - i,
    {
        if given[i + 2] as i128 != given[i] as i128 + given[i + 1] as i128 {
            return false;
        }
        i = i + 1;
    }
    true
}

/// The view of what the ratio test handed in.
pub open spec fn ratio_view(ratio: Option<Vec<i64>>) -> Option<Seq<i64>> {
    match ratio {
        Some(v) => Some(v@),
        None => None,
    }
}

/// Half of a product of two neighbouring integers grows by the larger one.
proof fn lemma_triangle_step(k: int)
    ensures
        ((k + 1) * (k + 2)) / 2 == (k * (k + 1)) / 2 + k + 1,
{
    assert((k + 1) * (k + 2) == k * (k + 1) + 2 * (k + 1)) by (nonlinear_arith);
}

/// `count` values after `last`, each `d` more than the one before.
fn continue_by_difference(last: i64, d: i64, count: usize, Ghost(exact): Ghost<int>) -> (out: Vec<
    i64,
>)
    requires
        d == wrap64(exact),
    ensures
        out@.len() == count,
        forall|k: int| 0 <= k < count ==> #[trigger] out@[k] == arithmetic_term(last as int, exact, k),
{
    let mut out: Vec<i64> = Vec::new();
    let mut cur: i64 = last;
    let mut k: usize = 0;
    proof {
        lemma_wrap64_range(last as int);
        assert(last + 0 * exact == last) by (nonlinear_arith);
    }
    while k < count
        invariant
            k <= count,
            d == wrap64(exact),
            out@.len() == k,
            cur == wrap64(last + k * exact),
            forall|j: int| 0 <= j < k ==> #[trigger] out@[j] == arithmetic_term(last as int, exact, j),
        decreases count - k,
    {
        proof {
            lemma_wrapping_add_is_wrap64(cur, d);
            lemma_wrap64_add(last + k * exact, exact);
            assert(last + k * exact + exact == last + (k + 1) * exact) by (nonlinear_arith);
        }
        cur = cur.wrapping_add(d);
        out.push(cur);
        k = k + 1;
    }
    out
}

/// `count` values after `last`, where the running difference starts at
/// `last_diff` and grows by `d2` before every step.
fn continue_by_second_difference(
    last: i64,
    last_diff: i64,
    d2: i64,
    count: usize,
    Ghost(exact_diff): Ghost<int>,
    Ghost(exact_d2): Ghost<int>,
) -> (out: Vec<i64>)
    requires
        last_diff == wrap64(exact_diff),
        d2 == wrap64(exact_d2),
    ensures
        out@.len() == count,
        forall|k: int|
            0 <= k < count ==> #[trigger] out@[k] == quadratic_term(
                last as int,
                exact_diff,
                exact_d2,
                k,
            ),
{
    let mut out: Vec<i64> = Vec::new();
    let mut cur: i64 = last;
    let mut step: i64 = last_diff;
    let mut k: usize = 0;
    proof {
        lemma_wrap64_range(last as int);
        assert(last + 0 * exact_diff + exact_d2 * ((0 * (0 + 1)) / 2) == last) by (nonlinear_arith);
        assert(exact_diff + 0 * exact_d2 == exact_diff) by (nonlinear_arith);
    }
    while k < count
        invariant
            k <= count,
            d2 == wrap64(exact_d2),
            out@.len() == k,
            step == wrap64(exact_diff + k * exact_d2),
            cur == wrap64(last + k * exact_diff + exact_d2 * ((k * (k + 1)) / 2)),
            forall|j: int|
                0 <= j < k ==> #[trigger] out@[j] == quadratic_term(
                    last as int,
                    exact_diff,
                    exact_d2,
                    j,
                ),
        decreases count - k,
    {
        proof {
            let t = (k * (k + 1)) / 2;
            let t1 = ((k + 1) * (k + 2)) / 2;
            lemma_triangle_step(k as int);
            lemma_wrapping_add_is_wrap64(step, d2);
            lemma_wrap64_add(exact_diff + k * exact_d2, exact_d2);
            assert(exact_diff + k * exact_d2 + exact_d2 == exact_diff + (k + 1) * exact_d2)
                by (nonlinear_arith);
            let new_step = step.wrapping_add(d2);
            lemma_wrapping_add_is_wrap64(cur, new_step);
            lemma_wrap64_add(
                last + k * exact_diff + exact_d2 * t,
                exact_diff + (k + 1) * exact_d2,
            );
            assert(last + k * exact_diff + exact_d2 * t + (exact_diff + (k + 1) * exact_d2) == last
                + (k + 1) * exact_diff + exact_d2 * t1) by (nonlinear_arith)
                requires
                    t1 == t + k + 1,
            ;
        }
        step = step.wrapping_add(d2);
        cur = cur.wrapping_add(step);
        out.push(cur);
        k = k + 1;
    }
    out
}

/// `count` values after the pair `a`, `b`, each the sum of the two before.
fn continue_by_sum(a: i64, b: i64, count: usize) -> (out: Vec<i64>)
    ensures
        out@.len() == count,
        forall|k: int|
            0 <= k < count ==> #[trigger] out@[k] == wrap64(
                additive(a as int, b as int, (k + 2) as nat),
            ),
{
    let mut out: Vec<i64> = Vec::new();
    let mut prev: i64 = a;
    let mut cur: i64 = b;
    let mut k: usize = 0;
    proof {
        lemma_wrap64_range(a as int);
        lemma_wrap64_range(b as int);
    }
    while k < count
        invariant
            k <= count,
            out@.len() == k,
            prev == wrap64(additive(a as int, b as int, k as nat)),
            cur == wrap64(additive(a as int, b as int, (k + 1) as nat)),
            forall|j: int|
                0 <= j < k ==> #[trigger] out@[j] == wrap64(
                    additive(a as int, b as int, (j + 2) as nat),
                ),
        decreases count - k,
    {
        proof {
            lemma_wrapping_add_is_wrap64(prev, cur);
            lemma_wrap64_add(
                additive(a as int, b as int, k as nat),
                additive(a as int, b as int, (k + 1) as nat),
            );
        }
        let next: i64 = prev.wrapping_add(cur);
        prev = cur;
        cur = next;
        out.push(next);
        k = k + 1;
    }
    out
}

/// `count` zeros.
fn zeros(count: usize) -> (out: Vec<i64>)
    ensures
        out@.len() == count,
        forall|k: int| 0 <= k < count ==> #[trigger] out@[k] == 0,
{
    let mut out: Vec<i64> = Vec::new();
    let mut k: usize = 0;
    while k < count
        invariant
            k <= count,
            out@.len() == k,
            forall|j: int| 0 <= j < k ==> #[trigger] out@[j] == 0,
        decreases count - k,
    {
        out.push(0);
        k = k + 1;
    }
    out
}

/// A copy of the given values.
pub fn copy_of(values: &Vec<i64>) -> (out: Vec<i64>)
    ensures
        out@ == values@,
{
    let mut out: Vec<i64> = Vec::new();
    let mut k: usize = 0;
    while k < values.len()
        invariant
            k <= values.len(),
            out@ == values@.take(k as int),
        decreases values.len() - k,
    {
        out.push(values[k]);
        assert(values@.take(k + 1) =~= values@.take(k as int).push(values@[k as int]));
        k = k + 1;
    }
    assert(values@.take(values.len() as int) =~= values@);
    out
}

/// Tells whether the ratio test has to be run for this run of values: it is
/// consulted only after the difference rules have failed, and never on a run
/// that holds a zero.
pub fn needs_ratio_test(seq: &PatternSequence) -> (r: bool)
    ensures
        r == ratio_test_applies(seq.given@),
{
    let given = &seq.given;
    if given.len() < 2 {
        return false;
    }
    if check_arithmetic(given) {
        return false;
    }
    assert(given.len() >= 3) by {
        if given.len() == 2 {
            assert(is_arithmetic(given@));
        }
    }
    if check_quadratic(given) {
        return false;
    }
    check_all_nonzero(given)
}

/// Names the rule that continues this run, given whether the ratio test
/// accepted it.
pub fn pattern_rule(seq: &PatternSequence, ratio_matched: bool) -> (r: PatternRule)
    ensures
        r == rule_of(seq.given@, ratio_matched),
{
    let given = &seq.given;
    if given.len() < 2 {
        return PatternRule::TooShort;
    }
    if check_arithmetic(given) {
        return PatternRule::Arithmetic;
    }
    assert(given.len() >= 3) by {
        if given.len() == 2 {
            assert(is_arithmetic(given@));
        }
    }
    if check_quadratic(given) {
        return PatternRule::Quadratic;
    }
    if ratio_matched && check_all_nonzero(given) {
        return PatternRule::Geometric;
    }
    if check_fibonacci(given) {
        PatternRule::Fibonacci
    } else {
        PatternRule::LastDifference
    }
}

/// Predicts the values that follow a run.
///
/// `ratio` is the outcome of the ratio test on this run: the values it
/// predicts where it accepted the run, `None` where it did not or was not
/// run. It is looked at only where `needs_ratio_test` says so, and counts as
/// an acceptance only where it holds as many values as are to be predicted.
pub fn solve_pattern(seq: &PatternSequence, ratio: &Option<Vec<i64>>) -> (out: Vec<i64>)
    ensures
        out@ == predicted(seq.given@, seq.predict_count as nat, ratio_view(*ratio)),
{
    let given = &seq.given;
    let count = seq.predict_count;
    let n = given.len();
    let accepted = match ratio {
        Some(values) => values.len() == count,
        None => false,
    };
    let rule = pattern_rule(seq, accepted);
    let ghost want = predicted(seq.given@, count as nat, ratio_view(*ratio));
    match rule {
        PatternRule::TooShort => {
            let out = zeros(count);
            assert(out@ =~= want);
            out
        },
        PatternRule::Arithmetic => {
            let d = wrap_wide(given[1] as i128 - given[0] as i128);
            let out = continue_by_difference(given[n - 1], d, count, Ghost(diff_at(given@, 0)));
            assert(out@ =~= want);
            out
        },
        PatternRule::Quadratic => {
            assert(n >= 3) by {
                if n == 2 {
                    assert(is_arithmetic(given@));
                }
            }
            let step = wrap_wide(given[n - 1] as i128 - given[n - 2] as i128);
            let d2 = wrap_wide(
                (given[2] as i128 - given[1] as i128) - (given[1] as i128 - given[0] as i128),
            );
            let out = continue_by_second_difference(
                given[n - 1],
                step,
                d2,
                count,
                Ghost(diff_at(given@, n - 2)),
                Ghost(second_diff_at(given@, 0)),
            );
            assert(out@ =~= want);
            out
        },
        PatternRule::Geometric => {
            match ratio {
                Some(values) => copy_of(values),
                None => Vec::new(),
            }
        },
        PatternRule::Fibonacci => {
            let out = continue_by_sum(given[n - 2], given[n - 1], count);
            assert(out@ =~= want);
            out
        },
        PatternRule::LastDifference => {
            let d = wrap_wide(given[n - 1] as i128 - given[n - 2] as i128);
            let out = continue_by_difference(given[n - 1], d, count, Ghost(diff_at(given@, n - 2)));
            assert(out@ =~= want);
            out
        },
    }
}

/// A run of fewer than two values is continued with zeros, as many as are
/// asked for, whatever the ratio test said.
pub proof fn law_short_run_predicts_zeros(s: Seq<i64>, count: nat, ratio: Option<Seq<i64>>)
    requires
        s.len() < 2,
    ensures
        predicted(s, count, ratio) == Seq::new(count, |k: int| 0i64),
{
    assert(predicted(s, count, ratio) =~= Seq::new(count, |k: int| 0i64));
}

/// As many values are predicted as are asked for.
pub proof fn law_prediction_count(s: Seq<i64>, count: nat, ratio: Option<Seq<i64>>)
    ensures
        predicted(s, count, ratio).len() == count,
{
}

/// An arithmetic run is continued by adding its difference again and again:
/// where the `k`-th value after the run is a 64-bit integer, it is the last
/// value plus `k + 1` times the difference.
pub proof fn law_arithmetic_run_continues(s: Seq<i64>, count: nat, ratio: Option<Seq<i64>>, k: int)
    requires
        s.len() >= 2,
        is_arithmetic(s),
        0 <= k < count,
        i64::MIN <= s.last() + (k + 1) * diff_at(s, 0) <= i64::MAX,
    ensures
        predicted(s, count, ratio).len() == count,
        predicted(s, count, ratio)[k] == s.last() + (k + 1) * diff_at(s, 0),
{
    lemma_wrap64_range(s.last() + (k + 1) * diff_at(s, 0));
}

/// The rules exclude each other by their order: a run that an earlier rule
/// matches is never continued by a later one.
pub proof fn law_first_matching_rule_wins(s: Seq<i64>, ratio_matched: bool)
    ensures
        rule_of(s, ratio_matched) == PatternRule::Quadratic ==> !is_arithmetic(s),
        rule_of(s, ratio_matched) == PatternRule::Geometric ==> !is_arithmetic(s) && !is_quadratic(
            s,
        ),
        rule_of(s, ratio_matched) == PatternRule::Fibonacci ==> !is_arithmetic(s) && !is_quadratic(
            s,
        ) && !(all_nonzero(s) && ratio_matched),
        rule_of(s, ratio_matched) == PatternRule::LastDifference ==> !is_arithmetic(s)
            && !is_quadratic(s) && !(all_nonzero(s) && ratio_matched) && !is_fibonacci(s),
        rule_of(s, ratio_matched) == PatternRule::Geometric ==> ratio_test_applies(s),
{
}

} // verus!
