//! Short-question answering: two-operand arithmetic first, then a small
//! table of facts, then the literal `unknown`.

use crate::text::{
    contains, contains_seq, decimal, decimal_chars, find_char, from_chars, lowercased, parse_i64,
    position, remove_all, slice_of, to_chars, to_lowercase, trim, trimmed, without, written_i64,
};
use vstd::prelude::*;

verus! {

/// The binary operators a question may hold, in the order they are tried.
#[derive(Clone, Copy, Debug, PartialEq, Eq, Structural)]
pub enum Operator {
    /// `*`
    Times,
    /// The multiplication sign, U+00D7.
    Cross,
    /// `/`
    Divide,
    /// `+`
    Plus,
    /// `-`
    Minus,
}

/// The character that writes an operator.
pub open spec fn symbol(op: Operator) -> char {
    match op {
        Operator::Times => '*',
        Operator::Cross => '\u{d7}',
        Operator::Divide => '/',
        Operator::Plus => '+',
        Operator::Minus => '-',
    }
}

/// `v` as a 64-bit integer, where it is one.
pub open spec fn in_i64(v: int) -> Option<i64> {
    if i64::MIN <= v <= i64::MAX {
        Some(v as i64)
    } else {
        None
    }
}

/// The quotient of `a` by a non-zero `b`, rounded toward zero.
pub open spec fn truncated_quotient(a: int, b: int) -> int {
    if a >= 0 && b > 0 {
        a / b
    } else if a < 0 && b < 0 {
        (-a) / (-b)
    } else if a < 0 {
        -((-a) / b)
    } else {
        -(a / (-b))
    }
}

/// The exact result of an operator on two operands: `None` where the
/// divisor is zero or the result is not a 64-bit integer.
pub open spec fn evaluated(op: Operator, a: i64, b: i64) -> Option<i64> {
    match op {
        Operator::Times => in_i64(a * b),
        Operator::Cross => in_i64(a * b),
        Operator::Divide => if b == 0 {
            None
        } else {
            in_i64(truncated_quotient(a as int, b as int))
        },
        Operator::Plus => in_i64(a + b),
        Operator::Minus => in_i64(a - b),
    }
}

/// The two integers around the first `c` of `e`, each with the white space
/// around it stripped: `None` where `e` has no `c` or a side is no integer.
pub open spec fn operands(e: Seq<char>, c: char) -> Option<(i64, i64)> {
    let p = position(e, c);
    if p < e.len() {
        match (written_i64(trimmed(e.take(p))), written_i64(trimmed(e.skip(p + 1)))) {
            (Some(a), Some(b)) => Some((a, b)),
            _ => None,
        }
    } else {
        None
    }
}

/// What reading `e` as two operands around `op` and evaluating gives.
pub open spec fn attempted(e: Seq<char>, op: Operator) -> Option<i64> {
    match operands(e, symbol(op)) {
        Some((a, b)) => evaluated(op, a, b),
        None => None,
    }
}

/// The expression of a lower-case question: the question without the words
/// `what is`, without question marks, and without white space around it.
pub open spec fn expression_of(q: Seq<char>) -> Seq<char> {
    trimmed(without(without(q, "what is"@), "?"@))
}

/// The numeric answer to a lower-case question: the first of the operators,
/// in their order, under which the expression evaluates.
pub open spec fn arithmetic_answer(q: Seq<char>) -> Option<i64> {
    let e = expression_of(q);
    if attempted(e, Operator::Times) is Some {
        attempted(e, Operator::Times)
    } else if attempted(e, Operator::Cross) is Some {
        attempted(e, Operator::Cross)
    } else if attempted(e, Operator::Divide) is Some {
        attempted(e, Operator::Divide)
    } else if attempted(e, Operator::Plus) is Some {
        attempted(e, Operator::Plus)
    } else {
        attempted(e, Operator::Minus)
    }
}

/// The answer the fact table gives to a lower-case question, `unknown` where
/// no entry matches.
pub open spec fn fact_answer(q: Seq<char>) -> Seq<char> {
    if contains_seq(q, "capital of france"@) {
        "Paris"@
    } else if contains_seq(q, "capital of germany"@) {
        "Berlin"@
    } else if contains_seq(q, "capital of japan"@) {
        "Tokyo"@
    } else if contains_seq(q, "hexagon"@) && contains_seq(q, "sides"@) {
        "6"@
    } else if contains_seq(q, "pentagon"@) && contains_seq(q, "sides"@) {
        "5"@
    } else if contains_seq(q, "octagon"@) && contains_seq(q, "sides"@) {
        "8"@
    } else if contains_seq(q, "chemical symbol"@) && contains_seq(q, "gold"@) {
        "Au"@
    } else if contains_seq(q, "chemical symbol"@) && contains_seq(q, "silver"@) {
        "Ag"@
    } else if contains_seq(q, "chemical symbol"@) && contains_seq(q, "iron"@) {
        "Fe"@
    } else {
        "unknown"@
    }
}

/// The answer to a lower-case question.
pub open spec fn answer_for(q: Seq<char>) -> Seq<char> {
    match arithmetic_answer(q) {
        Some(v) => decimal(v as int),
        None => fact_answer(q),
    }
}

/// The character that writes an operator.
pub fn symbol_of(op: Operator) -> (c: char)
    ensures
        c == symbol(op),
{
    match op {
        Operator::Times => '*',
        Operator::Cross => '\u{d7}',
        Operator::Divide => '/',
        Operator::Plus => '+',
        Operator::Minus => '-',
    }
}

/// Applies an operator to two operands.
pub fn evaluate(op: Operator, a: i64, b: i64) -> (r: Option<i64>)
    ensures
        r == evaluated(op, a, b),
{
    match op {
        Operator::Times => a.checked_mul(b),
        Operator::Cross => a.checked_mul(b),
        Operator::Divide => a.checked_div(b),
        Operator::Plus => a.checked_add(b),
        Operator::Minus => a.checked_sub(b),
    }
}

/// Reads an expression as two integers around the first `op` and evaluates.
pub fn attempt(e: &Vec<char>, op: Operator) -> (r: Option<i64>)
    ensures
        r == attempted(e@, op),
{
    let p = find_char(e, symbol_of(op));
    if p >= e.len() {
        return None;
    }
    let left = trim(&slice_of(e, 0, p));
    let right = trim(&slice_of(e, p + 1, e.len()));
    assert(e@.subrange(0, p as int) =~= e@.take(p as int));
    assert(e@.subrange(p + 1, e.len() as int) =~= e@.skip(p + 1));
    match (parse_i64(&left), parse_i64(&right)) {
        (Some(a), Some(b)) => evaluate(op, a, b),
        _ => None,
    }
}

/// Evaluates a lower-case question as two integers around one operator.
///
/// The words `what is` and question marks are taken out first. The operators
/// are tried in the order `*`, the multiplication sign, `/`, `+`, `-`; an
/// operator whose exact result does not exist as a 64-bit integer (a zero
/// divisor, an overflow) gives no answer and the next one is tried.
pub fn try_arithmetic(q: &str) -> (r: Option<i64>)
    ensures
        r == arithmetic_answer(q@),
{
    let chars = to_chars(q);
    let what_is = to_chars("what is");
    let mark = to_chars("?");
    let e = trim(&remove_all(&remove_all(&chars, &what_is), &mark));
    let times = attempt(&e, Operator::Times);
    if times.is_some() {
        return times;
    }
    let cross = attempt(&e, Operator::Cross);
    if cross.is_some() {
        return cross;
    }
    let quotient = attempt(&e, Operator::Divide);
    if quotient.is_some() {
        return quotient;
    }
    let sum = attempt(&e, Operator::Plus);
    if sum.is_some() {
        return sum;
    }
    attempt(&e, Operator::Minus)
}

/// Tells whether a question holds the given words.
fn mentions(q: &Vec<char>, words: &str) -> (r: bool)
    ensures
        r == contains_seq(q@, words@),
{
    let needle = to_chars(words);
    contains(q, &needle)
}

/// Looks a lower-case question up in the fact table.
pub fn lookup_fact(q: &str) -> (r: String)
    ensures
        r@ == fact_answer(q@),
{
    let chars = to_chars(q);
    if mentions(&chars, "capital of france") {
        "Paris".to_owned()
    } else if mentions(&chars, "capital of germany") {
        "Berlin".to_owned()
    } else if mentions(&chars, "capital of japan") {
        "Tokyo".to_owned()
    } else if mentions(&chars, "hexagon") && mentions(&chars, "sides") {
        "6".to_owned()
    } else if mentions(&chars, "pentagon") && mentions(&chars, "sides") {
        "5".to_owned()
    } else if mentions(&chars, "octagon") && mentions(&chars, "sides") {
        "8".to_owned()
    } else if mentions(&chars, "chemical symbol") && mentions(&chars, "gold") {
        "Au".to_owned()
    } else if mentions(&chars, "chemical symbol") && mentions(&chars, "silver") {
        "Ag".to_owned()
    } else if mentions(&chars, "chemical symbol") && mentions(&chars, "iron") {
        "Fe".to_owned()
    } else {
        "unknown".to_owned()
    }
}

/// Answers a question that is already in lower case.
pub fn answer_lowercased(q: &str) -> (r: String)
    ensures
        r@ == answer_for(q@),
{
    match try_arithmetic(q) {
        Some(v) => from_chars(&decimal_chars(v)),
        None => lookup_fact(q),
    }
}

/// Answers a question: the question is put into lower case, then read as
/// arithmetic, then looked up in the fact table.
pub fn answer_question(q: &str) -> (r: String)
    ensures
        r@ == answer_for(lowercased(q@)),
{
    let lower = to_lowercase(q);
    answer_lowercased(lower.as_str())
}

/// A division by zero never gives a number: the operator gives no answer,
/// whatever the dividend.
pub proof fn law_division_by_zero_gives_no_number(e: Seq<char>, a: i64)
    ensures
        evaluated(Operator::Divide, a, 0) is None,
        operands(e, '/') == Some((a, 0i64)) ==> attempted(e, Operator::Divide) is None,
{
}

/// A question without a numeric answer is answered from the fact table, and
/// with `unknown` where no entry of the table matches.
pub proof fn law_no_number_falls_through(q: Seq<char>)
    requires
        arithmetic_answer(q) is None,
    ensures
        answer_for(q) == fact_answer(q),
{
}

} // verus!
