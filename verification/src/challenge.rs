//! Challenges, responses, and the solver that maps each task to its answer.

use crate::pattern::{predicted, ratio_view, solve_pattern, PatternSequence};
use crate::questions::{answer_for, answer_question};
use crate::text::lowercased;
use vstd::prelude::*;

verus! {

/// One task of a challenge.
#[derive(Debug)]
pub enum Task {
    /// Continue each of the given runs of integers.
    PatternCompletion { sequences: Vec<PatternSequence> },
    /// Pass a text through a list of operations, in order. An operation is
    /// carried in its wire form and applied outside this library.
    TextTransformation { input: String, operations: Vec<String> },
    /// Answer each question on its own.
    ParallelQuestions { questions: Vec<String> },
    /// Answer questions about a passage.
    ReadingComprehension { passage: String, questions: Vec<String> },
    /// State the recognition phrase that the task carries.
    MetaQuestion { prompt: String, expected_keyword: String },
}

/// The answer to one task; its variant mirrors the task's.
#[derive(Debug)]
pub enum Answer {
    PatternCompletion { predictions: Vec<Vec<i64>> },
    TextTransformation { result: String },
    ParallelQuestions { answers: Vec<String> },
    ReadingComprehension { answers: Vec<String> },
    MetaQuestion { answer: String },
}

/// What an answer holds, as mathematical values.
pub enum AnswerModel {
    PatternCompletion { predictions: Seq<Seq<i64>> },
    TextTransformation { result: Seq<char> },
    ParallelQuestions { answers: Seq<Seq<char>> },
    ReadingComprehension { answers: Seq<Seq<char>> },
    MetaQuestion { answer: Seq<char> },
}

impl View for Answer {
    type V = AnswerModel;

    open spec fn view(&self) -> AnswerModel {
        match *self {
            Answer::PatternCompletion { predictions } => AnswerModel::PatternCompletion {
                predictions: Seq::new(predictions@.len(), |i: int| predictions@[i]@),
            },
            Answer::TextTransformation { result } => AnswerModel::TextTransformation {
                result: result@,
            },
            Answer::ParallelQuestions { answers } => AnswerModel::ParallelQuestions {
                answers: Seq::new(answers@.len(), |i: int| answers@[i]@),
            },
            Answer::ReadingComprehension { answers } => AnswerModel::ReadingComprehension {
                answers: Seq::new(answers@.len(), |i: int| answers@[i]@),
            },
            Answer::MetaQuestion { answer } => AnswerModel::MetaQuestion { answer: answer@ },
        }
    }
}

/// A challenge: an identifier and an ordered list of tasks.
#[derive(Debug)]
pub struct Challenge {
    pub challenge_id: u128,
    pub tasks: Vec<Task>,
}

/// A response: the answers to a challenge's tasks, in the tasks' order, and
/// the time of submission in Unix seconds.
#[derive(Debug)]
pub struct Response {
    pub challenge_id: u128,
    pub submitted_at: i64,
    pub answers: Vec<Answer>,
}

/// What was computed outside this library for one task.
#[derive(Debug)]
pub enum TaskAid {
    /// Nothing.
    Nothing,
    /// For a pattern task: the outcome of the ratio test for each run, in
    /// the runs' order; `None` where the test rejected the run or was not run.
    Ratios(Vec<Option<Vec<i64>>>),
    /// For a text transformation: the input after all operations.
    Transformed(String),
}

/// Why a challenge could not be solved with the aids given.
#[derive(Clone, Copy, Debug, PartialEq, Eq, Structural)]
pub enum SolveError {
    /// The number of aids differs from the number of tasks.
    AidCount,
    /// A text transformation came without its transformed text.
    MissingTransformation,
}

/// The outcome of the ratio test for run `i` of a pattern task.
pub open spec fn ratio_for(aid: TaskAid, i: int) -> Option<Seq<i64>> {
    match aid {
        TaskAid::Ratios(ratios) => if 0 <= i < ratios@.len() {
            ratio_view(ratios@[i])
        } else {
            None
        },
        _ => None,
    }
}

/// The answer to a task, given its aid: `None` exactly for a text
/// transformation whose transformed text is missing.
pub open spec fn solved(task: Task, aid: TaskAid) -> Option<AnswerModel> {
    match task {
        Task::PatternCompletion { sequences } => Some(
            AnswerModel::PatternCompletion {
                predictions: Seq::new(
                    sequences@.len(),
                    |i: int|
                        predicted(
                            sequences@[i].given@,
                            sequences@[i].predict_count as nat,
                            ratio_for(aid, i),
                        ),
                ),
            },
        ),
        Task::TextTransformation { input, operations } => match aid {
            TaskAid::Transformed(text) => Some(AnswerModel::TextTransformation { result: text@ }),
            _ => None,
        },
        Task::ParallelQuestions { questions } => Some(
            AnswerModel::ParallelQuestions {
                answers: Seq::new(
                    questions@.len(),
                    |i: int| answer_for(lowercased(questions@[i]@)),
                ),
            },
        ),
        Task::ReadingComprehension { passage, questions } => Some(
            AnswerModel::ReadingComprehension {
                answers: Seq::new(questions@.len(), |i: int| "unknown"@),
            },
        ),
        Task::MetaQuestion { prompt, expected_keyword } => Some(
            AnswerModel::MetaQuestion { answer: expected_keyword@ },
        ),
    }
}

/// A copy of a string.
pub fn copy_string(s: &String) -> (r: String)
    ensures
        r@ == s@,
{
    s.as_str().to_owned()
}

/// Continues every run of a pattern task.
fn solve_sequences(sequences: &Vec<PatternSequence>, aid: &TaskAid) -> (out: Vec<Vec<i64>>)
    ensures
        out@.len() == sequences@.len(),
        forall|i: int|
            0 <= i < out@.len() ==> (#[trigger] out@[i])@ == predicted(
                sequences@[i].given@,
                sequences@[i].predict_count as nat,
                ratio_for(*aid, i),
            ),
{
    let mut out: Vec<Vec<i64>> = Vec::new();
    let none: Option<Vec<i64>> = None;
    let mut i: usize = 0;
    while i < sequences.len()
        invariant
            i <= sequences.len(),
            none is None,
            out@.len() == i,
            forall|j: int|
                0 <= j < i ==> (#[trigger] out@[j])@ == predicted(
                    sequences@[j].given@,
                    sequences@[j].predict_count as nat,
                    ratio_for(*aid, j),
                ),
        decreases sequences.len() - i,
    {
        let predictions = match aid {
            TaskAid::Ratios(ratios) => {
                if i < ratios.len() {
                    solve_pattern(&sequences[i], &ratios[i])
                } else {
                    solve_pattern(&sequences[i], &none)
                }
            },
            _ => solve_pattern(&sequences[i], &none),
        };
        out.push(predictions);
        i = i + 1;
    }
    out
}

/// Answers every question of a list on its own.
fn answer_questions(questions: &Vec<String>) -> (out: Vec<String>)
    ensures
        out@.len() == questions@.len(),
        forall|i: int|
            0 <= i < out@.len() ==> (#[trigger] out@[i])@ == answer_for(
                lowercased(questions@[i]@),
            ),
{
    let mut out: Vec<String> = Vec::new();
    let mut i: usize = 0;
    while i < questions.len()
        invariant
            i <= questions.len(),
            out@.len() == i,
            forall|j: int|
                0 <= j < i ==> (#[trigger] out@[j])@ == answer_for(lowercased(questions@[j]@)),
        decreases questions.len() - i,
    {
        out.push(answer_question(questions[i].as_str()));
        i = i + 1;
    }
    out
}

/// `count` answers that all say `unknown`.
fn unknown_answers(count: usize) -> (out: Vec<String>)
    ensures
        out@.len() == count,
        forall|i: int| 0 <= i < count ==> (#[trigger] out@[i])@ == "unknown"@,
{
    let mut out: Vec<String> = Vec::new();
    let mut i: usize = 0;
    while i < count
        invariant
            i <= count,
            out@.len() == i,
            forall|j: int| 0 <= j < i ==> (#[trigger] out@[j])@ == "unknown"@,
        decreases count - i,
    {
        out.push("unknown".to_owned());
        i = i + 1;
    }
    out
}

/// Answers one task.
///
/// A pattern task is answered run by run; a run whose ratio outcome is not
/// among the aids is treated as rejected by the ratio test. A text
/// transformation is answered with the transformed text of its aid, and
/// cannot be answered without it. Questions are answered one by one.
/// Questions about a passage are each answered `unknown`. A meta question is
/// answered with its own recognition phrase.
pub fn solve_task(task: &Task, aid: &TaskAid) -> (r: Option<Answer>)
    ensures
        match solved(*task, *aid) {
            Some(model) => r is Some && r->0@ == model,
            None => r is None,
        },
{
    match task {
        Task::PatternCompletion { sequences } => {
            let predictions = solve_sequences(sequences, aid);
            let answer = Answer::PatternCompletion { predictions };
            assert(answer@->PatternCompletion_predictions =~= solved(
                *task,
                *aid,
            )->0->PatternCompletion_predictions);
            Some(answer)
        },
        Task::TextTransformation { input, operations } => match aid {
            TaskAid::Transformed(text) => Some(
                Answer::TextTransformation { result: copy_string(text) },
            ),
            _ => None,
        },
        Task::ParallelQuestions { questions } => {
            let answers = answer_questions(questions);
            let answer = Answer::ParallelQuestions { answers };
            assert(answer@->ParallelQuestions_answers =~= solved(
                *task,
                *aid,
            )->0->ParallelQuestions_answers);
            Some(answer)
        },
        Task::ReadingComprehension { passage, questions } => {
            let answers = unknown_answers(questions.len());
            let answer = Answer::ReadingComprehension { answers };
            assert(answer@->ReadingComprehension_answers =~= solved(
                *task,
                *aid,
            )->0->ReadingComprehension_answers);
            Some(answer)
        },
        Task::MetaQuestion { prompt, expected_keyword } => Some(
            Answer::MetaQuestion { answer: copy_string(expected_keyword) },
        ),
    }
}

/// The answers to the first `n` tasks, where all of them can be answered.
pub open spec fn all_solved(tasks: Seq<Task>, aids: Seq<TaskAid>, n: int) -> bool {
    forall|i: int| 0 <= i < n ==> (#[trigger] solved(tasks[i], aids[i])) is Some
}

/// `response` answers `challenge` with the given aids at time `now`: it
/// carries the challenge's identifier and the time, and one answer per task,
/// in the tasks' order, each the answer to its task.
pub open spec fn is_solution(
    challenge: Challenge,
    aids: Seq<TaskAid>,
    now: i64,
    response: Response,
) -> bool {
    &&& response.challenge_id == challenge.challenge_id
    &&& response.submitted_at == now
    &&& response.answers@.len() == challenge.tasks@.len()
    &&& forall|i: int|
        0 <= i < challenge.tasks@.len() ==> Some((#[trigger] response.answers@[i])@) == solved(
            challenge.tasks@[i],
            aids[i],
        )
}

/// Why a challenge cannot be solved with the given aids, if it cannot.
pub open spec fn solve_error(challenge: Challenge, aids: Seq<TaskAid>) -> Option<SolveError> {
    if aids.len() != challenge.tasks@.len() {
        Some(SolveError::AidCount)
    } else if !all_solved(challenge.tasks@, aids, aids.len() as int) {
        Some(SolveError::MissingTransformation)
    } else {
        None
    }
}

/// Builds the response to a challenge: one answer per task, in the tasks'
/// order, under the challenge's identifier and the given submission time.
///
/// Fails with `AidCount` where the aids are not one per task, and otherwise
/// with `MissingTransformation` where some text transformation has no
/// transformed text.
pub fn solve_challenge(challenge: &Challenge, aids: &Vec<TaskAid>, now: i64) -> (r: Result<
    Response,
    SolveError,
>)
    ensures
        match solve_error(*challenge, aids@) {
            Some(e) => r == Err::<Response, SolveError>(e),
            None => r is Ok && is_solution(*challenge, aids@, now, r->Ok_0),
        },
{
    if aids.len() != challenge.tasks.len() {
        return Err(SolveError::AidCount);
    }
    let mut answers: Vec<Answer> = Vec::new();
    let mut i: usize = 0;
    while i < challenge.tasks.len()
        invariant
            i <= challenge.tasks.len(),
            aids@.len() == challenge.tasks@.len(),
            answers@.len() == i,
            all_solved(challenge.tasks@, aids@, i as int),
            forall|j: int|
                0 <= j < i ==> Some((#[trigger] answers@[j])@) == solved(
                    challenge.tasks@[j],
                    aids@[j],
                ),
        decreases challenge.tasks.len() - i,
    {
        match solve_task(&challenge.tasks[i], &aids[i]) {
            Some(answer) => {
                answers.push(answer);
            },
            None => {
                assert(solved(challenge.tasks@[i as int], aids@[i as int]) is None);
                return Err(SolveError::MissingTransformation);
            },
        }
        i = i + 1;
    }
    Ok(Response { challenge_id: challenge.challenge_id, submitted_at: now, answers })
}

/// The answer to a meta question is its recognition phrase, verbatim,
/// whatever the prompt says and whatever aid came with the task.
pub proof fn law_meta_question_echoes_keyword(
    prompt: String,
    other_prompt: String,
    expected_keyword: String,
    aid: TaskAid,
    other_aid: TaskAid,
)
    ensures
        solved(Task::MetaQuestion { prompt, expected_keyword }, aid) == Some(
            AnswerModel::MetaQuestion { answer: expected_keyword@ },
        ),
        solved(Task::MetaQuestion { prompt, expected_keyword }, aid) == solved(
            Task::MetaQuestion { prompt: other_prompt, expected_keyword },
            other_aid,
        ),
{
}

/// A solved task is answered in its own variant.
pub proof fn law_answer_mirrors_task(task: Task, aid: TaskAid)
    requires
        solved(task, aid) is Some,
    ensures
        match task {
            Task::PatternCompletion { .. } => solved(task, aid)->0 is PatternCompletion,
            Task::TextTransformation { .. } => solved(task, aid)->0 is TextTransformation,
            Task::ParallelQuestions { .. } => solved(task, aid)->0 is ParallelQuestions,
            Task::ReadingComprehension { .. } => solved(task, aid)->0 is ReadingComprehension,
            Task::MetaQuestion { .. } => solved(task, aid)->0 is MetaQuestion,
        },
{
}

} // verus!
