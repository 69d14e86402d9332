//! The program: a request for a search, the run that answers it, and what is
//! to be done with the answer.

use vstd::prelude::*;
use vstd::std_specs::cmp::PartialEqSpec;
use vstd::std_specs::convert::FromSpec;
use git2::{Oid, Repository};
use crate::backend::{
    find_commit, message_bytes, new_walker, next_commit, push_start, resolve_revision, set_sorting,
    walker_sorting, walker_starts, Walker,
};
use crate::error::{Error, ErrorKind, GitFailure};
use crate::matcher::{compile, is_match, matcher_expression, pcre2_accepts, Matcher};
use crate::pattern::{effective, effective_pattern};
use crate::search::{
    answer, answers_for, law_no_match_is_no_such_revision, outcome, passed_over, tested_with, Answer,
    Course, Search, Step,
};
use crate::status::ExitStatus;

verus! {

/// The sort mode of the backend that gives commits by commit time, latest
/// first.
pub const SORT_TIME: u32 = 2;

/// How many times one search asks the walk at most, before it gives up. No
/// history is that long: the walk gives no commit twice.
pub const WALK_LIMIT: u64 = 0xffff_ffff_ffff_ffff;

/// A request for a search, as the command line states it.
pub struct Program<'a> {
    /// The repository to search.
    pub repo: &'a Repository,
    /// Whether the pattern is to match in the first line of a message only.
    pub summary: bool,
    /// Whether the commit found is to be shown by the viewer, not printed.
    pub show: bool,
    /// Whether to say nothing if no commit is found.
    pub quiet: bool,
    /// The revision from which the search sets out.
    pub head: &'a str,
    /// The pattern, a regular expression in the syntax of PCRE2.
    pub text: &'a str,
}

/// What is to be done with the result of a run.
#[derive(Debug)]
pub enum Action {
    /// Write the identifier of the commit, in hexadecimal, and a line end to
    /// the output stream. The process exits with [`ExitStatus::Success`].
    Print { id: Oid },
    /// Hand the commit to the viewer. The process exits as
    /// [`viewer_status`] says.
    Show { id: Oid },
    /// Write `text` and a line end to the error stream, if there is a text.
    /// The process exits with `status`.
    Report { text: Option<String>, status: ExitStatus },
}

/// The exit code of the process after the viewer has run: the viewer's own
/// exit code `code`, or, if it left none, that of
/// [`ExitStatus::ExternalProgramFailed`].
pub fn viewer_status(code: Option<i32>) -> (status: i32)
    ensures
        status == (match code {
            Some(own) => own as int,
            None => ExitStatus::ExternalProgramFailed.spec_code(),
        }),
{
    match code {
        Some(own) => own,
        None => ExitStatus::ExternalProgramFailed.code(),
    }
}

/// A failure of the backend while the start of the search was looked up.
pub open spec fn lookup_failure(error: Error) -> bool {
    &&& error.kind == ErrorKind::NoSuchRevision || error.kind == ErrorKind::GitError
    &&& error.internal is Some
}

/// The failure with which a search gives up a walk that does not end: a
/// failure to read the repository.
pub open spec fn gave_up(error: Error) -> bool {
    &&& error.kind == ErrorKind::GitError
    &&& error@.cause == Some("revision walk did not end"@)
}

impl<'a> Program<'a> {
    /// The request that the arguments state. Without a revision the search
    /// sets out from `HEAD`.
    pub fn new(
        repo: &'a Repository,
        summary: bool,
        show: bool,
        quiet: bool,
        head: Option<&'a str>,
        text: &'a str,
    ) -> (program: Self)
        ensures
            program.repo == repo,
            program.summary == summary,
            program.show == show,
            program.quiet == quiet,
            program.head@ == (match head {
                Some(revision) => revision@,
                None => "HEAD"@,
            }),
            program.text == text,
    {
        Program {
            repo,
            summary,
            show,
            quiet,
            head: match head {
                Some(revision) => revision,
                None => "HEAD",
            },
            text,
        }
    }

    /// The regular expression pattern of this request.
    pub open spec fn expression(&self) -> Seq<char> {
        effective_pattern(self.text@, self.summary)
    }

    /// Whether PCRE2 takes the pattern of this request for a regular
    /// expression, by itself and as this request wants it matched.
    pub open spec fn acceptable(&self) -> bool {
        pcre2_accepts(self.text@) && pcre2_accepts(self.expression())
    }

    /// Whether `answers` can be what a search of this request hears from a
    /// walk: each is what a step comes to when the matcher is asked for the
    /// expression of this request, and the walk is asked no more once an
    /// answer has ended the search.
    pub open spec fn heard(&self, answers: Seq<Answer>) -> bool {
        &&& forall|i: int| 0 <= i < answers.len() - 1 ==> passed_over(#[trigger] answers[i])
        &&& forall|i: int|
            0 <= i < answers.len() ==> answers_for(self.expression(), #[trigger] answers[i])
    }

    /// Whether `course` is a course that the walk from `start` can take for
    /// this request: the search hears the walk until it is over, or it gives
    /// up after [`WALK_LIMIT`] answers that did not end it.
    pub open spec fn walks(&self, start: Oid, course: Course) -> bool {
        match course {
            Course::Walked { start: from, answers } => from == start && self.heard(answers),
            Course::GaveUp { start: from, answers, error } => {
                &&& from == start
                &&& self.heard(answers)
                &&& forall|i: int| 0 <= i < answers.len() ==> passed_over(#[trigger] answers[i])
                &&& answers.len() == WALK_LIMIT
                &&& gave_up(error)
            },
            _ => false,
        }
    }

    /// Whether a run of this request can take the course `course`: the
    /// pattern compiles if and only if PCRE2 accepts it, each failure is of a
    /// kind that its place in the run allows, and the walk is one that
    /// [`Program::walks`] allows.
    pub open spec fn admits(&self, course: Course) -> bool {
        match course {
            Course::NoStart { error } => lookup_failure(error),
            Course::NoPattern { error, .. } => {
                &&& !self.acceptable()
                &&& error.kind == ErrorKind::PCREError
                &&& error.internal is Some
            },
            Course::NoWalk { error, .. } => {
                &&& self.acceptable()
                &&& lookup_failure(error)
            },
            Course::Walked { start, .. } => self.acceptable() && self.walks(start, course),
            Course::GaveUp { start, .. } => self.acceptable() && self.walks(start, course),
        }
    }

    /// Whether the text of `error` is written to the error stream: always if
    /// the failure is fatal, and else unless the request asks for quiet.
    pub open spec fn reports(&self, error: Error) -> bool {
        error@.fatal() || !self.quiet
    }

    /// What is to be done with the result of a run: a commit is shown or
    /// printed, a failure is reported.
    pub fn present(&self, result: Result<Oid, Error>) -> (action: Action)
        ensures
            match result {
                Ok(id) => action == (if self.show {
                    Action::Show { id }
                } else {
                    Action::Print { id }
                }),
                Err(error) => {
                    &&& action matches Action::Report { text, status }
                    &&& status == error@.exit_status()
                    &&& match text {
                        Some(line) => self.reports(error) && line@ == error@.message(),
                        None => !self.reports(error),
                    }
                },
            },
    {
        match result {
            Ok(id) => if self.show {
                Action::Show { id }
            } else {
                Action::Print { id }
            },
            Err(error) => {
                let text = if error.fatal() || !self.quiet {
                    Some(error.message())
                } else {
                    None
                };
                Action::Report { text, status: error.exit_status() }
            },
        }
    }

    /// Compiles `pattern` as this request wants it matched: anywhere in a
    /// message, or in its first line only.
    ///
    /// In summary mode the pattern is compiled by itself first, and then
    /// behind the anchor: what is no expression by itself is none in a group.
    pub fn pattern(&self, pattern: &str) -> (compiled: Result<Matcher, Error>)
        ensures
            compiled is Ok <==> pcre2_accepts(pattern@) && pcre2_accepts(
                effective_pattern(pattern@, self.summary),
            ),
            compiled matches Ok(matcher) ==> matcher_expression(matcher) == effective_pattern(
                pattern@,
                self.summary,
            ),
            compiled matches Err(error) ==> error.kind == ErrorKind::PCREError && error.internal is Some,
    {
        if self.summary {
            match compile(pattern) {
                Ok(_) => {},
                Err(failure) => return Err(Error::from(failure)),
            }
        }
        let expression = effective(pattern, self.summary);
        match compile(expression.as_str()) {
            Ok(matcher) => Ok(matcher),
            Err(failure) => Err(Error::from(failure)),
        }
    }

    /// Asks the walk for its next step: the next commit is fetched and
    /// loaded, and its message is tested. `None` if the walk is over.
    ///
    /// Whether there is a next commit, and what comes of it, depends on the
    /// repository. The answer is what [`answer`] makes of the step, and where
    /// the step came to the matcher, the matcher's part of it is what PCRE2
    /// finds for the matcher's expression in the message of the commit.
    /// Unless the walk is over the walker is left in its order and with its
    /// starts.
    fn examine_next(&self, walker: &mut Walker<'a>, matcher: &Matcher) -> (answer: Option<Answer>)
        ensures
            answer matches Some(given) ==> answers_for(matcher_expression(*matcher), given),
            answer is Some ==> walker_sorting(*final(walker)) == walker_sorting(*old(walker)),
            answer is Some ==> walker_starts(*final(walker)) == walker_starts(*old(walker)),
    {
        let step = match next_commit(walker) {
            None => return None,
            Some(Err(failure)) => Step::WalkFailed(failure),
            Some(Ok(id)) => match find_commit(self.repo, id) {
                Err(failure) => Step::LoadFailed(failure),
                Ok(commit) => Step::Tested { id, result: is_match(matcher, message_bytes(&commit)) },
            },
        };
        assert(tested_with(matcher_expression(*matcher), step));
        Some(answer(step))
    }

    /// A walker that gives the commits reachable from `start` by commit time,
    /// latest first.
    ///
    /// Whether the backend makes one depends on the repository. If it does,
    /// the walker sets out from `start` and is in the order [`SORT_TIME`]; if
    /// it does not, the failure is one of looking up the start.
    pub fn walk_from(&self, start: Oid) -> (walker: Result<Walker<'a>, Error>)
        ensures
            walker matches Ok(made) ==> walker_sorting(made) == SORT_TIME && walker_starts(
                made,
            ).contains(start),
            walker matches Err(error) ==> lookup_failure(error),
    {
        let mut walker = match new_walker(self.repo) {
            Ok(walker) => walker,
            Err(failure) => return Err(Error::from(failure)),
        };
        match set_sorting(&mut walker, SORT_TIME) {
            Ok(()) => {},
            Err(failure) => return Err(Error::from(failure)),
        }
        match push_start(&mut walker, start) {
            Ok(()) => Ok(walker),
            Err(failure) => Err(Error::from(failure)),
        }
    }

    /// Searches the walk of `walker`: asks it step by step and returns the
    /// first commit whose message `matcher` matches.
    ///
    /// The walker is one that sets out from `start` by commit time, latest
    /// first, as [`Program::walk_from`] makes it, and the matcher is one of
    /// the expression of this request, as [`Program::pattern`] makes it.
    /// What the walk gives depends on the repository. Whatever that is, the
    /// search takes a course that [`Program::walks`] allows and returns what
    /// [`outcome`] makes of it: it stops at the first match and at the first
    /// failure, every failure is fatal, and a walk that ends without a match
    /// ends in "no such revision".
    pub fn search_from(&self, start: Oid, walker: &mut Walker<'a>, matcher: &Matcher) -> (result: Result<
        Oid,
        Error,
    >)
        requires
            walker_sorting(*old(walker)) == SORT_TIME,
            walker_starts(*old(walker)).contains(start),
            matcher_expression(*matcher) == self.expression(),
        ensures
            exists|course: Course| #[trigger] self.walks(start, course) && result == outcome(course),
            result matches Err(error) ==> error.kind != ErrorKind::IOError,
    {
        let mut search = Search::begin();
        let mut left: u64 = WALK_LIMIT;
        let ghost mut answers: Seq<Answer> = Seq::empty();
        while left > 0
            invariant
                walker_sorting(*walker) == SORT_TIME,
                walker_starts(*walker).contains(start),
                matcher_expression(*matcher) == self.expression(),
                search == Search::after(answers),
                search is Open,
                forall|i: int| 0 <= i < answers.len() ==> passed_over(#[trigger] answers[i]),
                self.heard(answers),
                answers.len() + left == WALK_LIMIT,
            decreases left,
        {
            let answer = match self.examine_next(walker, matcher) {
                Some(answer) => answer,
                None => {
                    assert(self.walks(start, Course::Walked { start, answers }));
                    return search.conclude();
                },
            };
            proof {
                let told = answers.push(answer);
                assert(told.drop_last() == answers);
                answers = told;
                assert(self.heard(answers));
            }
            search = search.observe(answer);
            if !search.is_open() {
                assert(self.walks(start, Course::Walked { start, answers }));
                return search.conclude();
            }
            left = left - 1;
        }
        let error = Error::new(ErrorKind::GitError, Some("revision walk did not end".to_owned()));
        assert(self.walks(start, Course::GaveUp { start, answers, error }));
        Err(error)
    }

    /// Runs the search: the most recent commit, among the start and what can
    /// be reached from it, whose message matches the pattern.
    ///
    /// The start revision is resolved, the pattern is compiled, a walker is
    /// made with [`Program::walk_from`], and its walk is searched with
    /// [`Program::search_from`]. What is returned depends on what the
    /// repository holds. Whatever that is, the run takes a course that the
    /// request admits, and returns what [`outcome`] makes of that course. So
    /// a commit is returned only if the pattern is a regular expression, and
    /// no run fails for want of output.
    pub fn run(&self) -> (result: Result<Oid, Error>)
        ensures
            exists|course: Course| #[trigger] self.admits(course) && result == outcome(course),
            result is Ok ==> self.acceptable(),
            result matches Err(error) ==> error.kind != ErrorKind::IOError,
    {
        let start = match resolve_revision(self.repo, self.head) {
            Ok(id) => id,
            Err(failure) => {
                let error = Error::from(failure);
                assert(self.admits(Course::NoStart { error }));
                return Err(error);
            },
        };
        let matcher = match self.pattern(self.text) {
            Ok(matcher) => matcher,
            Err(error) => {
                assert(self.admits(Course::NoPattern { start, error }));
                return Err(error);
            },
        };
        let mut walker = match self.walk_from(start) {
            Ok(walker) => walker,
            Err(error) => {
                assert(self.admits(Course::NoWalk { start, error }));
                return Err(error);
            },
        };
        let result = self.search_from(start, &mut walker, &matcher);
        proof {
            let course = choose|course: Course| #[trigger]
                self.walks(start, course) && result == outcome(course);
            assert(self.admits(course));
        }
        result
    }
}

/// A start revision that names nothing is reported as a search that found
/// nothing is: both fail with "no such revision", which is not fatal, and
/// the two failures are equal, are reported by the same line, and end the
/// process with the same status.
pub proof fn law_unknown_start_is_no_match(failure: GitFailure, start: Oid, answers: Seq<Answer>)
    requires
        failure.not_found,
        forall|i: int| 0 <= i < answers.len() ==> passed_over(#[trigger] answers[i]),
    ensures
        ({
            let unknown = outcome(Course::NoStart { error: Error::from_spec(failure) });
            let exhausted = outcome(Course::Walked { start, answers });
            &&& unknown matches Err(a) && exhausted matches Err(b) && {
                &&& a.kind == ErrorKind::NoSuchRevision
                &&& b.kind == ErrorKind::NoSuchRevision
                &&& a.eq_spec(&b)
                &&& !a@.fatal() && !b@.fatal()
                &&& a@.exit_status() == ExitStatus::NonFatal
                &&& b@.exit_status() == ExitStatus::NonFatal
                &&& a@.message() == b@.message()
            }
        }),
{
    law_no_match_is_no_such_revision(answers);
}

/// A pattern that is no regular expression, by itself or as the request
/// wants it matched, makes every run fail whose start revision resolves, with
/// a failure of the pattern's kind. That failure is fatal, and it is reported
/// whether or not the request asks for quiet.
pub proof fn law_invalid_pattern_is_fatal(program: Program, course: Course)
    requires
        program.admits(course),
        !(course is NoStart),
        !program.acceptable(),
    ensures
        outcome(course) matches Err(error) && {
            &&& error.kind == ErrorKind::PCREError
            &&& error@.fatal()
            &&& error@.exit_status() == ExitStatus::Fatal
            &&& program.reports(error)
        },
{
}

} // verus!
