use harbor_agent::challenge::{
    solve_challenge, solve_task, Answer, Challenge, SolveError, Task, TaskAid,
};
use harbor_agent::pattern::{
    needs_ratio_test, pattern_rule, solve_pattern, PatternRule, PatternSequence,
};
use harbor_agent::questions::{answer_lowercased, answer_question, lookup_fact, try_arithmetic};

fn run(given: &[i64], predict_count: usize) -> PatternSequence {
    PatternSequence { given: given.to_vec(), predict_count }
}

/// The ratio test as it is evaluated outside the library: constant quotient
/// of neighbours within a tolerance, continued in floating point.
fn ratio_test(seq: &PatternSequence) -> Option<Vec<i64>> {
    let given = &seq.given;
    let ratios: Vec<f64> = given.windows(2).map(|w| w[1] as f64 / w[0] as f64).collect();
    if ratios.windows(2).all(|w| (w[0] - w[1]).abs() < 0.001) {
        let r = ratios[0];
        let mut last = *given.last().unwrap() as f64;
        Some(
            (0..seq.predict_count)
                .map(|_| {
                    last *= r;
                    last.round() as i64
                })
                .collect(),
        )
    } else {
        None
    }
}

fn predict(given: &[i64], predict_count: usize) -> Vec<i64> {
    let seq = run(given, predict_count);
    let ratio = if needs_ratio_test(&seq) { ratio_test(&seq) } else { None };
    solve_pattern(&seq, &ratio)
}

#[test]
fn arithmetic_run_is_continued() {
    assert_eq!(predict(&[2, 4, 6, 8], 2), vec![10, 12]);
    assert_eq!(pattern_rule(&run(&[2, 4, 6, 8], 2), false), PatternRule::Arithmetic);
}

#[test]
fn quadratic_run_is_continued() {
    assert_eq!(predict(&[1, 4, 9, 16], 2), vec![25, 36]);
    assert_eq!(pattern_rule(&run(&[1, 4, 9, 16], 2), false), PatternRule::Quadratic);
}

#[test]
fn geometric_run_is_continued() {
    let seq = run(&[3, 6, 12, 24], 2);
    assert!(needs_ratio_test(&seq));
    assert_eq!(predict(&[3, 6, 12, 24], 2), vec![48, 96]);
    assert_eq!(pattern_rule(&seq, true), PatternRule::Geometric);
}

#[test]
fn fibonacci_run_is_continued() {
    assert_eq!(predict(&[1, 1, 2, 3, 5], 2), vec![8, 13]);
    assert_eq!(pattern_rule(&run(&[1, 1, 2, 3, 5], 2), false), PatternRule::Fibonacci);
}

#[test]
fn short_run_predicts_zeros() {
    assert_eq!(predict(&[], 3), vec![0, 0, 0]);
    assert_eq!(predict(&[7], 4), vec![0, 0, 0, 0]);
    assert_eq!(predict(&[7], 0), Vec::<i64>::new());
    assert_eq!(pattern_rule(&run(&[7], 4), true), PatternRule::TooShort);
}

#[test]
fn two_values_are_arithmetic() {
    assert_eq!(predict(&[5, 3], 3), vec![1, -1, -3]);
}

#[test]
fn unmatched_run_repeats_last_difference() {
    // Not arithmetic, not quadratic, holds a zero, not additive.
    assert_eq!(predict(&[0, 5, 1, 9], 2), vec![17, 25]);
    assert_eq!(pattern_rule(&run(&[0, 5, 1, 9], 2), false), PatternRule::LastDifference);
    assert!(!needs_ratio_test(&run(&[0, 5, 1, 9], 2)));
}

#[test]
fn ratio_test_is_not_consulted_after_a_difference_rule() {
    assert!(!needs_ratio_test(&run(&[2, 4, 6, 8], 2)));
    assert!(!needs_ratio_test(&run(&[1, 4, 9, 16], 2)));
    assert!(!needs_ratio_test(&run(&[1], 2)));
    // A handed-in ratio outcome is ignored where a difference rule holds.
    assert_eq!(solve_pattern(&run(&[2, 4, 6, 8], 2), &Some(vec![99, 99])), vec![10, 12]);
}

#[test]
fn continued_values_wrap_into_the_64_bit_range() {
    assert_eq!(predict(&[i64::MAX - 1, i64::MAX], 2), vec![i64::MIN, i64::MIN + 1]);
    // Recognition is exact: these differences are not equal as integers.
    assert_eq!(
        pattern_rule(&run(&[i64::MIN, 0, i64::MIN, 0], 1), false),
        PatternRule::LastDifference
    );
}

#[test]
fn ratio_outcome_of_the_wrong_length_is_no_acceptance() {
    let seq = run(&[3, 6, 12, 24], 2);
    assert!(needs_ratio_test(&seq));
    // Not additive either: the last difference is repeated.
    assert_eq!(solve_pattern(&seq, &Some(vec![48])), vec![36, 48]);
    assert_eq!(solve_pattern(&seq, &Some(vec![48, 96, 192])), vec![36, 48]);
    assert_eq!(solve_pattern(&seq, &None), vec![36, 48]);
    assert_eq!(solve_pattern(&seq, &Some(vec![48, 96])), vec![48, 96]);
}

#[test]
fn quadratic_exact_values() {
    // Cubes are not quadratic; triangular numbers are.
    assert_eq!(predict(&[1, 3, 6, 10], 3), vec![15, 21, 28]);
}

#[test]
fn multiplication_question_is_answered() {
    assert_eq!(answer_question("What is 7 * 8?"), "56");
    assert_eq!(try_arithmetic("what is 7 * 8?"), Some(56));
    assert_eq!(try_arithmetic("7 * 8"), Some(56));
}

#[test]
fn division_by_zero_gives_no_number() {
    assert_eq!(try_arithmetic("what is 7 / 0?"), None);
    assert_eq!(answer_question("What is 7 / 0?"), "unknown");
    assert_eq!(answer_question("What is 7 / 0 in the capital of France?"), "Paris");
}

#[test]
fn each_operator_is_evaluated() {
    assert_eq!(try_arithmetic("6 \u{d7} 7"), Some(42));
    assert_eq!(try_arithmetic("what is 9 / 2?"), Some(4));
    assert_eq!(try_arithmetic("what is -9 / 2?"), Some(-4));
    assert_eq!(try_arithmetic("what is 9 / -2?"), Some(-4));
    assert_eq!(try_arithmetic("what is 12 + 30?"), Some(42));
    assert_eq!(try_arithmetic("what is 12 - 30?"), Some(-18));
    assert_eq!(try_arithmetic("what is +12 - 30?"), Some(-18));
    assert_eq!(try_arithmetic("what is 12 + -30?"), Some(-18));
    assert_eq!(try_arithmetic("what is - 30?"), None);
    assert_eq!(try_arithmetic("  3   *   -4  "), Some(-12));
    assert_eq!(try_arithmetic("3 * 4 * 5"), None);
    assert_eq!(try_arithmetic("three * four"), None);
    assert_eq!(try_arithmetic(""), None);
}

#[test]
fn overflowing_results_give_no_number() {
    assert_eq!(try_arithmetic("9223372036854775807 + 1"), None);
    assert_eq!(try_arithmetic("9223372036854775807 * 2"), None);
    assert_eq!(try_arithmetic("-9223372036854775808 / -1"), None);
    assert_eq!(try_arithmetic("-9223372036854775808 - 1"), None);
    assert_eq!(try_arithmetic("9223372036854775808 + 0"), None);
    assert_eq!(try_arithmetic("-9223372036854775808 + 0"), Some(i64::MIN));
    assert_eq!(answer_lowercased("-9223372036854775808 + 0"), "-9223372036854775808");
    assert_eq!(answer_lowercased("9223372036854775807 - 0"), "9223372036854775807");
}

#[test]
fn numbers_are_written_in_decimal() {
    assert_eq!(answer_lowercased("0 * 5"), "0");
    assert_eq!(answer_lowercased("100 + 5"), "105");
    assert_eq!(answer_lowercased("3 - 10"), "-7");
    assert_eq!(answer_lowercased("1000000 * 1000000"), "1000000000000");
}

#[test]
fn facts_are_looked_up() {
    assert_eq!(answer_question("What is the capital of France?"), "Paris");
    assert_eq!(answer_question("CAPITAL OF GERMANY"), "Berlin");
    assert_eq!(answer_question("Name the capital of Japan."), "Tokyo");
    assert_eq!(answer_question("How many sides does a hexagon have?"), "6");
    assert_eq!(answer_question("How many sides does a pentagon have?"), "5");
    assert_eq!(answer_question("How many sides does an octagon have?"), "8");
    assert_eq!(answer_question("What is the chemical symbol for gold?"), "Au");
    assert_eq!(answer_question("What is the chemical symbol for silver?"), "Ag");
    assert_eq!(answer_question("What is the chemical symbol for iron?"), "Fe");
    assert_eq!(answer_question("What is the airspeed of a swallow?"), "unknown");
    assert_eq!(lookup_fact("hexagon"), "unknown");
    // The table is searched in order: the first entry that matches wins.
    assert_eq!(lookup_fact("capital of japan and capital of france"), "Paris");
}

#[test]
fn question_is_lowercased_before_it_is_read() {
    // In upper case the words are not found.
    assert_eq!(answer_question("WHAT IS 2 + 2?"), "4");
    assert_eq!(answer_lowercased("WHAT IS 2 + 2?"), "unknown");
}

#[test]
fn meta_question_echoes_the_keyword() {
    let task = Task::MetaQuestion {
        prompt: "Are you an agent?".to_string(),
        expected_keyword: "I am an autonomous agent".to_string(),
    };
    match solve_task(&task, &TaskAid::Nothing) {
        Some(Answer::MetaQuestion { answer }) => assert_eq!(answer, "I am an autonomous agent"),
        other => panic!("unexpected answer: {:?}", other),
    }
    let other_prompt = Task::MetaQuestion {
        prompt: "Completely different text".to_string(),
        expected_keyword: "I am an autonomous agent".to_string(),
    };
    match solve_task(&other_prompt, &TaskAid::Transformed("x".to_string())) {
        Some(Answer::MetaQuestion { answer }) => assert_eq!(answer, "I am an autonomous agent"),
        other => panic!("unexpected answer: {:?}", other),
    }
}

#[test]
fn reading_comprehension_is_answered_unknown() {
    let task = Task::ReadingComprehension {
        passage: "A passage.".to_string(),
        questions: vec!["Who?".to_string(), "What is 1 + 1?".to_string()],
    };
    match solve_task(&task, &TaskAid::Nothing) {
        Some(Answer::ReadingComprehension { answers }) => {
            assert_eq!(answers, vec!["unknown".to_string(), "unknown".to_string()])
        }
        other => panic!("unexpected answer: {:?}", other),
    }
}

#[test]
fn text_transformation_needs_its_text() {
    let task = Task::TextTransformation {
        input: "abc".to_string(),
        operations: vec!["reverse".to_string()],
    };
    assert!(solve_task(&task, &TaskAid::Nothing).is_none());
    match solve_task(&task, &TaskAid::Transformed("cba".to_string())) {
        Some(Answer::TextTransformation { result }) => assert_eq!(result, "cba"),
        other => panic!("unexpected answer: {:?}", other),
    }
}

#[test]
fn challenge_is_answered_task_by_task() {
    let challenge = Challenge {
        challenge_id: 7,
        tasks: vec![
            Task::PatternCompletion {
                sequences: vec![run(&[10, 20, 30], 2), run(&[3, 6, 12, 24], 2)],
            },
            Task::ParallelQuestions {
                questions: vec!["What is 7 * 8?".to_string(), "Capital of France?".to_string()],
            },
        ],
    };
    let aids = vec![
        TaskAid::Ratios(vec![None, Some(vec![48, 96])]),
        TaskAid::Nothing,
    ];
    let response = solve_challenge(&challenge, &aids, 1_700_000_000).unwrap();
    assert_eq!(response.challenge_id, 7);
    assert_eq!(response.submitted_at, 1_700_000_000);
    assert_eq!(response.answers.len(), 2);
    match &response.answers[0] {
        Answer::PatternCompletion { predictions } => {
            assert_eq!(predictions, &vec![vec![40, 50], vec![48, 96]])
        }
        other => panic!("unexpected answer: {:?}", other),
    }
    match &response.answers[1] {
        Answer::ParallelQuestions { answers } => {
            assert_eq!(answers, &vec!["56".to_string(), "Paris".to_string()])
        }
        other => panic!("unexpected answer: {:?}", other),
    }
}

#[test]
fn challenge_with_wrong_aids_is_refused() {
    let challenge = Challenge {
        challenge_id: 1,
        tasks: vec![Task::TextTransformation { input: "a".to_string(), operations: vec![] }],
    };
    assert_eq!(solve_challenge(&challenge, &vec![], 0).unwrap_err(), SolveError::AidCount);
    assert_eq!(
        solve_challenge(&challenge, &vec![TaskAid::Nothing], 0).unwrap_err(),
        SolveError::MissingTransformation
    );
}
