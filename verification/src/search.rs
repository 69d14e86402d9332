//! The search itself: what it makes of the answers that the walk gives, one
//! commit after another.

use vstd::prelude::*;
use vstd::std_specs::convert::FromSpec;
use git2::Oid;
use crate::error::{Error, ErrorKind, GitFailure, RegexFailure};
use crate::matcher::{found, pcre2_match};

verus! {

/// What the backend and the engine returned in one step of the walk.
#[derive(Debug)]
pub enum Step {
    /// The walker could not give its next commit.
    WalkFailed(GitFailure),
    /// The walker gave a commit, and the commit could not be loaded.
    LoadFailed(GitFailure),
    /// The commit `id` was loaded and its message was put to the matcher,
    /// which returned `result`.
    Tested { id: Oid, result: Result<bool, RegexFailure> },
}

/// What one step of the walk comes to for the search.
#[derive(Debug)]
pub enum Answer {
    /// The commit `id` was loaded and its message was tested: `matched`
    /// tells whether the pattern matched it.
    Examined { id: Oid, matched: bool },
    /// The step failed, in the walker, in loading the commit or in the
    /// matcher. `error` is the failure as the search reports it.
    Failed { error: Error },
}

/// Where a search stands.
#[derive(Debug)]
pub enum Search {
    /// No commit examined so far has matched, and nothing has failed.
    Open,
    /// The commit `id` matched. The search is over.
    Found { id: Oid },
    /// A step failed with `error`. The search is over.
    Failed { error: Error },
}

/// The failure with which a search ends when the walker or the loading of a
/// commit has failed: a failure to read the repository, whatever the backend
/// says of its cause, with the backend's text.
pub open spec fn unreadable(failure: GitFailure) -> Error {
    Error { kind: ErrorKind::GitError, internal: Some(failure.text) }
}

/// What a step comes to. A commit whose message was tested is examined, with
/// the matcher's verdict. Every failure makes a failed step: no commit that
/// could not be fetched, loaded or tested is passed over.
pub open spec fn answer_of(step: Step) -> Answer {
    match step {
        Step::WalkFailed(failure) => Answer::Failed { error: unreadable(failure) },
        Step::LoadFailed(failure) => Answer::Failed { error: unreadable(failure) },
        Step::Tested { id, result } => match result {
            Ok(matched) => Answer::Examined { id, matched },
            Err(failure) => Answer::Failed { error: Error::from_spec(failure) },
        },
    }
}

/// What a step comes to.
pub fn answer(step: Step) -> (given: Answer)
    ensures
        given == answer_of(step),
{
    match step {
        Step::WalkFailed(failure) => Answer::Failed {
            error: Error::new(ErrorKind::GitError, Some(failure.text)),
        },
        Step::LoadFailed(failure) => Answer::Failed {
            error: Error::new(ErrorKind::GitError, Some(failure.text)),
        },
        Step::Tested { id, result } => match result {
            Ok(matched) => Answer::Examined { id, matched },
            Err(failure) => Answer::Failed { error: Error::from(failure) },
        },
    }
}

/// Whether what the matcher returned in `step`, if the step came to the
/// matcher, is what PCRE2 finds for `expression` in some message.
pub open spec fn tested_with(expression: Seq<char>, step: Step) -> bool {
    step matches Step::Tested { result, .. } ==> exists|message: Seq<u8>|
        #[trigger] pcre2_match(expression, message) == found(result)
}

/// Whether `answer` is what some step comes to in a search for `expression`.
pub open spec fn answers_for(expression: Seq<char>, answer: Answer) -> bool {
    exists|step: Step| #[trigger] answer_of(step) == answer && tested_with(expression, step)
}

/// The failure that reports that no revision was found.
pub open spec fn no_such_revision() -> Error {
    Error { kind: ErrorKind::NoSuchRevision, internal: None }
}

/// Whether `answer` tells of a commit whose message did not match.
pub open spec fn passed_over(answer: Answer) -> bool {
    answer matches Answer::Examined { matched, .. } && !matched
}

/// Whether `answer` tells of a commit whose message matched.
pub open spec fn hit(answer: Answer) -> bool {
    answer matches Answer::Examined { matched, .. } && matched
}

impl Search {
    /// Where the search stands once it has been given `answer`. An open
    /// search ends with the first match and with the first failure; a search
    /// that is over stays as it is.
    pub open spec fn step(self, answer: Answer) -> Search {
        match self {
            Search::Open => match answer {
                Answer::Examined { id, matched } => if matched {
                    Search::Found { id }
                } else {
                    Search::Open
                },
                Answer::Failed { error } => Search::Failed { error },
            },
            _ => self,
        }
    }

    /// Where a search stands that began open and was given `answers`, first
    /// to last.
    pub open spec fn after(answers: Seq<Answer>) -> Search
        decreases answers.len(),
    {
        if answers.len() == 0 {
            Search::Open
        } else {
            Search::after(answers.drop_last()).step(answers.last())
        }
    }

    /// What the search comes to if the walk has nothing more to give: the
    /// commit found, the failure that ended it, or, if it is still open, that
    /// there is no such revision.
    pub open spec fn verdict(self) -> Result<Oid, Error> {
        match self {
            Search::Open => Err(no_such_revision()),
            Search::Found { id } => Ok(id),
            Search::Failed { error } => Err(error),
        }
    }

    /// A search that has examined nothing yet.
    pub fn begin() -> (search: Search)
        ensures
            search == Search::Open,
            search == Search::after(Seq::empty()),
    {
        Search::Open
    }

    /// Whether the search still wants answers.
    pub fn is_open(&self) -> (open: bool)
        ensures
            open == (*self is Open),
    {
        match self {
            Search::Open => true,
            _ => false,
        }
    }

    /// Takes the answer of the next step of the walk.
    pub fn observe(self, answer: Answer) -> (next: Search)
        ensures
            next == self.step(answer),
    {
        match self {
            Search::Open => match answer {
                Answer::Examined { id, matched } => if matched {
                    Search::Found { id }
                } else {
                    Search::Open
                },
                Answer::Failed { error } => Search::Failed { error },
            },
            other => other,
        }
    }

    /// Ends the search: the walk has nothing more to give, or the search
    /// wants nothing more.
    pub fn conclude(self) -> (result: Result<Oid, Error>)
        ensures
            result == self.verdict(),
    {
        match self {
            Search::Open => Err(Error::new(ErrorKind::NoSuchRevision, None)),
            Search::Found { id } => Ok(id),
            Search::Failed { error } => Err(error),
        }
    }
}

/// The course of one run of the search: how far it came, and what it was
/// told on the way by the repository and by the regular expression engine.
pub enum Course {
    /// The start revision did not resolve to a commit: `error` tells why.
    NoStart { error: Error },
    /// The start revision resolved to `start`, and then the pattern did not
    /// compile.
    NoPattern { start: Oid, error: Error },
    /// The pattern compiled, and then no walk from `start` could be begun.
    NoWalk { start: Oid, error: Error },
    /// The walk from `start` began and gave `answers`, first to last, until it
    /// had no more to give or the search no longer asked.
    Walked { start: Oid, answers: Seq<Answer> },
    /// The walk from `start` began and gave `answers`, none of which ended
    /// the search, and then the search gave up with `error`: it asks only so
    /// many times.
    GaveUp { start: Oid, answers: Seq<Answer>, error: Error },
}

/// What a run of the search returns, given its course. The start revision is
/// resolved first and the pattern compiled next, once; each of the two may
/// end the run with its failure. After that the walk decides.
pub open spec fn outcome(course: Course) -> Result<Oid, Error> {
    match course {
        Course::NoStart { error } => Err(error),
        Course::NoPattern { error, .. } => Err(error),
        Course::NoWalk { error, .. } => Err(error),
        Course::Walked { answers, .. } => Search::after(answers).verdict(),
        Course::GaveUp { error, .. } => Err(error),
    }
}

/// A search that was only ever told of commits that did not match is still
/// open.
pub proof fn lemma_open_while_passed_over(answers: Seq<Answer>)
    requires
        forall|i: int| 0 <= i < answers.len() ==> passed_over(#[trigger] answers[i]),
    ensures
        Search::after(answers) == Search::Open,
    decreases answers.len(),
{
    if answers.len() > 0 {
        let before = answers.drop_last();
        lemma_open_while_passed_over(before);
    }
}

/// Once an answer has ended the search, nothing that follows changes where
/// it stands: the search is decided by the answers up to and with the first
/// that is not a commit passed over.
pub proof fn lemma_decided_at(answers: Seq<Answer>, at: int)
    requires
        0 <= at < answers.len(),
        !passed_over(answers[at]),
        forall|i: int| 0 <= i < at ==> passed_over(#[trigger] answers[i]),
    ensures
        Search::after(answers) == Search::Open.step(answers[at]),
        !(Search::after(answers) is Open),
    decreases answers.len(),
{
    let before = answers.drop_last();
    if at == answers.len() - 1 {
        lemma_open_while_passed_over(before);
    } else {
        lemma_decided_at(before, at);
    }
}

/// The first match wins: if the walk gives a commit whose message matches,
/// and before it only commits whose messages do not, the search finds that
/// commit, whatever the walk would have given after it.
pub proof fn law_first_match_wins(answers: Seq<Answer>, first: int)
    requires
        0 <= first < answers.len(),
        hit(answers[first]),
        forall|i: int| 0 <= i < first ==> passed_over(#[trigger] answers[i]),
    ensures
        Search::after(answers).verdict() == Ok::<Oid, Error>(answers[first]->id),
{
    lemma_decided_at(answers, first);
}

/// A walk that ends without a match ends in "no such revision".
pub proof fn law_no_match_is_no_such_revision(answers: Seq<Answer>)
    requires
        forall|i: int| 0 <= i < answers.len() ==> passed_over(#[trigger] answers[i]),
    ensures
        Search::after(answers).verdict() == Err::<Oid, Error>(no_such_revision()),
{
    lemma_open_while_passed_over(answers);
}

/// A failure ends the search at once and is its result: no commit that the
/// walk gives after it is looked at, and none is returned in its place.
pub proof fn law_failure_ends_search(answers: Seq<Answer>, at: int)
    requires
        0 <= at < answers.len(),
        answers[at] is Failed,
        forall|i: int| 0 <= i < at ==> passed_over(#[trigger] answers[i]),
    ensures
        Search::after(answers).verdict() == Err::<Oid, Error>(answers[at]->error),
{
    lemma_decided_at(answers, at);
}

/// A commit that cannot be fetched or loaded ends the search with a fatal
/// failure to read the repository, whatever the backend says of the cause:
/// the commit is not passed over, and it is not reported as a revision that
/// was not found.
pub proof fn law_unreadable_commit_is_fatal(answers: Seq<Answer>, at: int, failure: GitFailure)
    requires
        0 <= at < answers.len(),
        answers[at] == answer_of(Step::WalkFailed(failure)) || answers[at] == answer_of(
            Step::LoadFailed(failure),
        ),
        forall|i: int| 0 <= i < at ==> passed_over(#[trigger] answers[i]),
    ensures
        Search::after(answers).verdict() == Err::<Oid, Error>(unreadable(failure)),
        unreadable(failure).kind == ErrorKind::GitError,
        unreadable(failure)@.fatal(),
{
    lemma_decided_at(answers, at);
}

/// The place of the first answer, among the first `bound` of `answers`, that
/// ends a search: a match or a failure. If none of them does, `bound`.
pub open spec fn first_decisive(answers: Seq<Answer>, bound: int) -> int
    decreases bound,
{
    if bound <= 0 {
        0
    } else {
        let before = first_decisive(answers, bound - 1);
        if before < bound - 1 || !passed_over(answers[bound - 1]) {
            before
        } else {
            bound
        }
    }
}

/// [`first_decisive`] is what its name says: the answer at that place ends a
/// search, and no answer before it does.
pub proof fn lemma_first_decisive(answers: Seq<Answer>, bound: int)
    requires
        0 <= bound <= answers.len(),
    ensures
        0 <= first_decisive(answers, bound) <= bound,
        first_decisive(answers, bound) < bound ==> !passed_over(
            answers[first_decisive(answers, bound)],
        ),
        forall|i: int| 0 <= i < first_decisive(answers, bound) ==> passed_over(#[trigger] answers[i]),
    decreases bound,
{
    if bound > 0 {
        lemma_first_decisive(answers, bound - 1);
    }
}

/// Whether a run that was given `answers` has asked the walk that gives
/// `walk` as far as it had to: the answers are those of the walk, from its
/// first on, and they end where the search is over or the walk is.
pub open spec fn asked_of(answers: Seq<Answer>, walk: Seq<Answer>) -> bool {
    &&& answers.len() <= walk.len()
    &&& forall|i: int| 0 <= i < answers.len() ==> #[trigger] answers[i] == walk[i]
    &&& Search::after(answers) is Open ==> answers.len() == walk.len()
}

/// To stop at the first match or failure loses nothing, and a search can be
/// repeated: as long as the repository gives the same walk, every run
/// returns the same, which is what a search through the whole walk comes to.
pub proof fn law_same_walk_same_outcome(
    start: Oid,
    walk: Seq<Answer>,
    first: Seq<Answer>,
    second: Seq<Answer>,
)
    requires
        asked_of(first, walk),
        asked_of(second, walk),
    ensures
        outcome(Course::Walked { start, answers: first }) == Search::after(walk).verdict(),
        outcome(Course::Walked { start, answers: first }) == outcome(
            Course::Walked { start, answers: second },
        ),
{
    lemma_asked_as_far_as_needed(walk, first);
    lemma_asked_as_far_as_needed(walk, second);
}

/// A run that asked the walk as far as it had to stands where a run stands
/// that was given the whole walk.
pub proof fn lemma_asked_as_far_as_needed(walk: Seq<Answer>, answers: Seq<Answer>)
    requires
        asked_of(answers, walk),
    ensures
        Search::after(answers) == Search::after(walk),
{
    let decisive = first_decisive(walk, walk.len() as int);
    lemma_first_decisive(walk, walk.len() as int);
    if decisive < answers.len() {
        lemma_decided_at(answers, decisive);
        lemma_decided_at(walk, decisive);
    } else {
        lemma_open_while_passed_over(answers);
        assert(answers =~= walk);
    }
}

/// The answers of a walk that gives the commits `walk` in that order and
/// fails nowhere, for a pattern that matches exactly the messages of which
/// `matches` holds.
pub open spec fn examined(
    walk: Seq<Oid>,
    message: spec_fn(Oid) -> Seq<u8>,
    matches: spec_fn(Seq<u8>) -> bool,
) -> Seq<Answer> {
    Seq::new(walk.len(), |i: int| Answer::Examined { id: walk[i], matched: matches(message(walk[i])) })
}

/// The search finds the most recent commit that matches. Let `walk` be the
/// commits that can be reached from the start, in the order in which the
/// backend gives them, which is by commit time, latest first. Then the
/// search returns a commit of the walk whose message matches, the first such
/// in the walk, and no matching commit of the walk is younger; or it returns
/// "no such revision", and then no commit of the walk matches.
pub proof fn law_most_recent_match(
    walk: Seq<Oid>,
    time: spec_fn(Oid) -> int,
    message: spec_fn(Oid) -> Seq<u8>,
    matches: spec_fn(Seq<u8>) -> bool,
)
    requires
        forall|i: int, j: int| 0 <= i <= j < walk.len() ==> time(walk[i]) >= time(walk[j]),
    ensures
        match Search::after(examined(walk, message, matches)).verdict() {
            Ok(id) => exists|at: int|
                {
                    &&& 0 <= at < walk.len()
                    &&& #[trigger] walk[at] == id
                    &&& matches(message(id))
                    &&& forall|i: int| 0 <= i < at ==> !matches(message(#[trigger] walk[i]))
                    &&& forall|i: int|
                        0 <= i < walk.len() && matches(message(#[trigger] walk[i])) ==> time(walk[i])
                            <= time(id)
                },
            Err(error) => {
                &&& error == no_such_revision()
                &&& forall|i: int| 0 <= i < walk.len() ==> !matches(message(#[trigger] walk[i]))
            },
        },
{
    let answers = examined(walk, message, matches);
    let first = first_decisive(answers, answers.len() as int);
    lemma_first_decisive(answers, answers.len() as int);
    if first < answers.len() {
        law_first_match_wins(answers, first);
        assert forall|i: int| 0 <= i < first implies !matches(message(#[trigger] walk[i])) by {
            assert(passed_over(answers[i]));
        }
    } else {
        law_no_match_is_no_such_revision(answers);
        assert forall|i: int| 0 <= i < walk.len() implies !matches(message(#[trigger] walk[i])) by {
            assert(passed_over(answers[i]));
        }
    }
}

} // verus!
