//! Searches in a real repository, made afresh for each test.

use git2::{Oid, Repository, Signature, Time};
use git_at::error::{Error, ErrorKind};
use git_at::program::{Action, Program};
use git_at::status::ExitStatus;
use tempfile::TempDir;

/// A repository with three commits on `master`, each the child of the one
/// before and a minute younger, and a branch `branch` that ends where
/// `master` does.
struct TestRepository {
    _dir: TempDir,
    repo: Repository,
    first: Oid,
    second: Oid,
    third: Oid,
}

const FIRST_MESSAGE: &str = "Add bar content\n";
const SECOND_MESSAGE: &str = "Update: maximum fooness\n";
const THIRD_MESSAGE: &str = "Update: maximum barness\n\nbar content: Add more of it.\n";

const FIRST: &str = "fbb36547f408dfa9e1d204e19c5a407674a03329";
const SECOND: &str = "9f6ae6bf71c5ce6d1b0088ec47b4bcc55d4683c3";
const THIRD: &str = "18a3a192d77691f498734cf3609ea022e01f2432";

fn commit(repo: &Repository, name: &str, seconds: i64, message: &str, content: &str, parents: &[Oid]) -> Oid {
    let who = Signature::new("A U Thor", "author@example.com", &Time::new(seconds, 0)).unwrap();
    let blob = repo.blob(content.as_bytes()).unwrap();
    let mut builder = repo.treebuilder(None).unwrap();
    builder.insert("bar", blob, 0o100644).unwrap();
    let tree = repo.find_tree(builder.write().unwrap()).unwrap();
    let parents: Vec<git2::Commit> = parents.iter().map(|id| repo.find_commit(*id).unwrap()).collect();
    let parents: Vec<&git2::Commit> = parents.iter().collect();
    repo.commit(Some(name), &who, &who, message, &tree, &parents).unwrap()
}

impl TestRepository {
    fn new() -> TestRepository {
        let dir = tempfile::tempdir().unwrap();
        let repo = Repository::init(dir.path()).unwrap();
        let first = commit(&repo, "refs/heads/master", 1_500_000_000, FIRST_MESSAGE, "bar\n", &[]);
        let second = commit(&repo, "refs/heads/master", 1_500_000_060, SECOND_MESSAGE, "bar foo\n", &[first]);
        let third = commit(&repo, "refs/heads/master", 1_500_000_120, THIRD_MESSAGE, "bar bar\n", &[second]);
        repo.reference("refs/heads/branch", third, true, "branch").unwrap();
        repo.set_head("refs/heads/master").unwrap();
        TestRepository { _dir: dir, repo, first, second, third }
    }
}

fn run(fixtures: &TestRepository, summary: bool, revision: Option<&str>, pattern: &str) -> Result<Oid, Error> {
    Program::new(&fixtures.repo, summary, false, false, revision, pattern).run()
}

fn oid(hex: &str) -> Oid {
    Oid::from_str(hex).unwrap()
}

fn error(kind: ErrorKind) -> Error {
    Error::new(kind, None)
}

#[test]
fn fixture_commits_have_the_expected_identifiers() {
    let fixtures = TestRepository::new();

    assert_eq!(fixtures.first, oid(FIRST));
    assert_eq!(fixtures.second, oid(SECOND));
    assert_eq!(fixtures.third, oid(THIRD));
}

#[test]
fn simple_results() {
    let fixtures = TestRepository::new();

    assert_eq!(
        run(&fixtures, false, None, "maximum fooness").unwrap(),
        oid("9f6ae6bf71c5ce6d1b0088ec47b4bcc55d4683c3")
    );
    assert_eq!(
        run(&fixtures, false, None, "maximum barness").unwrap(),
        oid("18a3a192d77691f498734cf3609ea022e01f2432")
    );
    assert_eq!(
        run(&fixtures, false, None, "max.+\\s+bar.*content").unwrap(),
        oid("18a3a192d77691f498734cf3609ea022e01f2432")
    );
}

#[test]
fn rev_results() {
    let fixtures = TestRepository::new();

    assert_eq!(
        run(&fixtures, false, Some("master~1"), "maximum fooness").unwrap(),
        oid("9f6ae6bf71c5ce6d1b0088ec47b4bcc55d4683c3")
    );
    assert_eq!(
        run(&fixtures, false, Some("master~1"), "maximum barness").unwrap_err(),
        error(ErrorKind::NoSuchRevision)
    );
    assert_eq!(
        run(&fixtures, false, Some("branch"), "maximum").unwrap(),
        oid("18a3a192d77691f498734cf3609ea022e01f2432")
    );
}

#[test]
fn youngest_results() {
    let fixtures = TestRepository::new();

    assert_eq!(
        run(&fixtures, true, None, "Update").unwrap(),
        oid("18a3a192d77691f498734cf3609ea022e01f2432")
    );
    assert_eq!(
        run(&fixtures, false, None, "content").unwrap(),
        oid("18a3a192d77691f498734cf3609ea022e01f2432")
    );
    assert_eq!(
        run(&fixtures, false, None, "bar").unwrap(),
        oid("18a3a192d77691f498734cf3609ea022e01f2432")
    );
    assert_eq!(
        run(&fixtures, true, None, "Add").unwrap(),
        oid("fbb36547f408dfa9e1d204e19c5a407674a03329")
    );
}

#[test]
fn search_starts_at_head_when_no_revision_is_given() {
    let fixtures = TestRepository::new();
    fixtures.repo.set_head_detached(fixtures.second).unwrap();

    assert_eq!(run(&fixtures, false, None, "maximum").unwrap(), fixtures.second);
    assert_eq!(
        run(&fixtures, false, None, "maximum barness").unwrap_err(),
        error(ErrorKind::NoSuchRevision)
    );
}

#[test]
fn the_start_commit_itself_is_examined() {
    let fixtures = TestRepository::new();

    assert_eq!(run(&fixtures, false, Some("master~2"), "Add").unwrap(), fixtures.first);
    assert_eq!(run(&fixtures, false, Some(SECOND), "fooness").unwrap(), fixtures.second);
}

#[test]
fn pattern_matches_anywhere_in_the_message() {
    let fixtures = TestRepository::new();

    assert_eq!(run(&fixtures, false, None, "more of it").unwrap(), fixtures.third);
    assert_eq!(run(&fixtures, false, None, "fooness$").unwrap(), fixtures.second);
    assert_eq!(run(&fixtures, false, None, "^Add").unwrap(), fixtures.first);
}

#[test]
fn summary_mode_sees_the_first_line_only() {
    let fixtures = TestRepository::new();

    // "Add" stands in the body of the third commit and in the summary of the first.
    assert_eq!(run(&fixtures, false, None, "Add").unwrap(), fixtures.third);
    assert_eq!(run(&fixtures, true, None, "Add").unwrap(), fixtures.first);
    // "more of it" stands in a body only.
    assert_eq!(run(&fixtures, false, None, "more of it").unwrap(), fixtures.third);
    assert_eq!(
        run(&fixtures, true, None, "more of it").unwrap_err(),
        error(ErrorKind::NoSuchRevision)
    );
    // In the summary the pattern may match anywhere, not at its start only.
    assert_eq!(run(&fixtures, true, None, "fooness").unwrap(), fixtures.second);
    assert_eq!(run(&fixtures, true, None, "content").unwrap(), fixtures.first);
}

#[test]
fn unknown_revision_is_no_such_revision() {
    let fixtures = TestRepository::new();

    let unknown = run(&fixtures, false, Some("no-such-branch"), "maximum").unwrap_err();
    let unmatched = run(&fixtures, false, None, "nothing like this").unwrap_err();
    assert_eq!(unknown, error(ErrorKind::NoSuchRevision));
    assert_eq!(unmatched, error(ErrorKind::NoSuchRevision));
    assert_eq!(unknown, unmatched);
    assert!(!unknown.fatal());
    assert!(!unmatched.fatal());
    assert_eq!(unknown.exit_status(), ExitStatus::NonFatal);
    assert_eq!(unmatched.exit_status(), ExitStatus::NonFatal);
    assert_eq!(unknown.message(), "fatal: needed a single revision");
    assert_eq!(unknown.message(), unmatched.message());
}

#[test]
fn unknown_revision_is_reported_before_the_pattern_is_compiled() {
    let fixtures = TestRepository::new();

    assert_eq!(
        run(&fixtures, false, Some("no-such-branch"), "(").unwrap_err(),
        error(ErrorKind::NoSuchRevision)
    );
}

#[test]
fn revision_that_cannot_be_read_is_a_fatal_error() {
    let fixtures = TestRepository::new();

    let failure = run(&fixtures, false, Some("master..branch"), "maximum").unwrap_err();
    assert_eq!(failure, error(ErrorKind::GitError));
    assert!(failure.fatal());
    assert!(failure.message().starts_with("fatal: "));
    assert!(failure.message().len() > "fatal: ".len());
}

#[test]
fn start_that_is_no_commit_is_a_fatal_error() {
    let fixtures = TestRepository::new();

    let failure = run(&fixtures, false, Some("master^{tree}"), "maximum").unwrap_err();
    assert_eq!(failure, error(ErrorKind::GitError));
    assert_eq!(failure.exit_status(), ExitStatus::Fatal);
}

#[test]
fn invalid_pattern_is_fatal() {
    let fixtures = TestRepository::new();

    for summary in [false, true] {
        let failure = run(&fixtures, summary, None, "(").unwrap_err();
        assert_eq!(failure, error(ErrorKind::PCREError));
        assert!(failure.fatal());
        assert_eq!(failure.exit_status(), ExitStatus::Fatal);
        assert_eq!(failure.exit_status().code(), 2);
        assert!(failure.message().starts_with("fatal: invalid regular expression: "));
    }
}

#[test]
fn invalid_pattern_is_reported_even_when_quiet() {
    let fixtures = TestRepository::new();

    for quiet in [false, true] {
        let program = Program::new(&fixtures.repo, false, false, quiet, None, "[a-");
        let result = program.run();
        assert_eq!(result.as_ref().unwrap_err(), &error(ErrorKind::PCREError));
        match program.present(result) {
            Action::Report { text: Some(text), status } => {
                assert!(text.starts_with("fatal: invalid regular expression: "));
                assert_eq!(status, ExitStatus::Fatal);
            }
            other => panic!("unexpected action {:?}", other),
        }
    }
}

#[test]
fn pattern_compiles_when_it_is_an_expression() {
    let fixtures = TestRepository::new();

    for summary in [false, true] {
        let program = Program::new(&fixtures.repo, summary, false, false, None, "ignored");
        assert!(program.pattern("b.r").is_ok());
        assert!(program.pattern("").is_ok());
        assert!(program.pattern("fooness|more of it").is_ok());

        let failure = program.pattern("b(r").err().unwrap();
        assert_eq!(failure, error(ErrorKind::PCREError));
        assert!(failure.message().starts_with("fatal: invalid regular expression: "));
        assert!(failure.message().len() > "fatal: invalid regular expression: ".len());
    }
}

#[test]
fn pattern_that_is_an_expression_only_in_a_group_is_invalid() {
    let fixtures = TestRepository::new();

    for summary in [false, true] {
        let program = Program::new(&fixtures.repo, summary, false, false, None, "ignored");
        let failure = program.pattern("a)(b").err().unwrap();
        assert_eq!(failure, error(ErrorKind::PCREError));
        assert!(failure.fatal());

        let failure = run(&fixtures, summary, None, "a)(b").unwrap_err();
        assert_eq!(failure, error(ErrorKind::PCREError));
    }
}

#[test]
fn search_in_steps_gives_what_a_run_gives() {
    let fixtures = TestRepository::new();

    for (summary, pattern) in [(false, "fooness"), (true, "Add"), (true, "more of it"), (false, "more of it")] {
        let program = Program::new(&fixtures.repo, summary, false, false, Some("master"), pattern);
        let matcher = program.pattern(pattern).unwrap();
        let mut walker = program.walk_from(fixtures.third).unwrap();
        let stepwise = program.search_from(fixtures.third, &mut walker, &matcher);
        let whole = program.run();
        match (stepwise, whole) {
            (Ok(left), Ok(right)) => assert_eq!(left, right),
            (Err(left), Err(right)) => assert_eq!(left, right),
            other => panic!("the two searches differ: {:?}", other),
        }
    }
}

#[test]
fn walk_sets_out_from_the_commit_that_it_was_given() {
    let fixtures = TestRepository::new();

    let program = Program::new(&fixtures.repo, false, false, false, None, "Update");
    let matcher = program.pattern("Update").unwrap();
    let mut walker = program.walk_from(fixtures.second).unwrap();
    assert_eq!(program.search_from(fixtures.second, &mut walker, &matcher).unwrap(), fixtures.second);
    let mut walker = program.walk_from(fixtures.first).unwrap();
    assert_eq!(
        program.search_from(fixtures.first, &mut walker, &matcher).unwrap_err(),
        error(ErrorKind::NoSuchRevision)
    );
    // What is no commit cannot be walked from.
    let tree = fixtures.repo.find_commit(fixtures.first).unwrap().tree_id();
    let failure = program.walk_from(tree).err().unwrap();
    assert_eq!(failure, error(ErrorKind::GitError));
}

#[test]
fn search_can_be_repeated() {
    let fixtures = TestRepository::new();

    let program = Program::new(&fixtures.repo, false, false, false, None, "fooness");
    assert_eq!(program.run().unwrap(), fixtures.second);
    assert_eq!(program.run().unwrap(), fixtures.second);

    let program = Program::new(&fixtures.repo, true, false, false, Some("master~1"), "barness");
    let once = program.run().unwrap_err();
    let again = program.run().unwrap_err();
    assert_eq!(once, again);
    assert_eq!(once.kind, ErrorKind::NoSuchRevision);
    assert_eq!(once.message(), again.message());
}

#[test]
fn commits_that_cannot_be_reached_are_not_found() {
    let fixtures = TestRepository::new();
    let side = commit(&fixtures.repo, "refs/heads/side", 1_500_000_500, "Side: only here\n", "side\n", &[fixtures.first]);

    assert_eq!(run(&fixtures, false, Some("side"), "only here").unwrap(), side);
    assert_eq!(
        run(&fixtures, false, Some("master"), "only here").unwrap_err(),
        error(ErrorKind::NoSuchRevision)
    );
    assert_eq!(
        run(&fixtures, false, Some("side"), "maximum").unwrap_err(),
        error(ErrorKind::NoSuchRevision)
    );
    assert_eq!(run(&fixtures, false, Some("side"), "Add").unwrap(), fixtures.first);
}

#[test]
fn commit_time_decides_not_the_place_in_the_history() {
    let fixtures = TestRepository::new();
    // A commit whose clock ran behind: it is older than its own parent.
    let skewed = commit(&fixtures.repo, "refs/heads/skewed", 1_400_000_000, "Skewed: maximum\n", "skewed\n", &[fixtures.third]);

    assert_eq!(run(&fixtures, false, Some("skewed"), "maximum").unwrap(), fixtures.third);
    assert_eq!(run(&fixtures, false, Some("skewed"), "Skewed").unwrap(), skewed);
}

#[test]
fn younger_side_of_a_merge_is_found_first() {
    let fixtures = TestRepository::new();
    let left = commit(&fixtures.repo, "refs/heads/left", 1_500_000_300, "Left: side\n", "left\n", &[fixtures.third]);
    let right = commit(&fixtures.repo, "refs/heads/right", 1_500_000_200, "Right: side\n", "right\n", &[fixtures.third]);
    let merged = commit(&fixtures.repo, "refs/heads/merged", 1_500_000_400, "Merge\n", "merged\n", &[right, left]);

    assert_eq!(run(&fixtures, false, Some("merged"), "side").unwrap(), left);
    assert_eq!(run(&fixtures, false, Some("merged"), "Right").unwrap(), right);
    assert_eq!(run(&fixtures, false, Some("merged"), "Merge").unwrap(), merged);
    // Both sides lead to the third commit: it is still found, once.
    assert_eq!(run(&fixtures, false, Some("merged"), "barness").unwrap(), fixtures.third);
}

#[test]
fn found_commit_is_printed_or_shown() {
    let fixtures = TestRepository::new();

    let print = Program::new(&fixtures.repo, false, false, false, None, "fooness");
    match print.present(print.run()) {
        Action::Print { id } => assert_eq!(id.to_string(), SECOND),
        other => panic!("unexpected action {:?}", other),
    }
    let show = Program::new(&fixtures.repo, false, true, true, None, "fooness");
    match show.present(show.run()) {
        Action::Show { id } => assert_eq!(id, fixtures.second),
        other => panic!("unexpected action {:?}", other),
    }
}

#[test]
fn missing_match_is_silent_only_when_quiet() {
    let fixtures = TestRepository::new();

    let loud = Program::new(&fixtures.repo, false, false, false, None, "nothing like this");
    match loud.present(loud.run()) {
        Action::Report { text: Some(text), status } => {
            assert_eq!(text, "fatal: needed a single revision");
            assert_eq!(status.code(), 1);
        }
        other => panic!("unexpected action {:?}", other),
    }
    let quiet = Program::new(&fixtures.repo, false, false, true, None, "nothing like this");
    match quiet.present(quiet.run()) {
        Action::Report { text: None, status } => assert_eq!(status.code(), 1),
        other => panic!("unexpected action {:?}", other),
    }
}

#[test]
fn new_states_the_request() {
    let fixtures = TestRepository::new();

    let program = Program::new(&fixtures.repo, true, false, true, None, "pattern");
    assert!(program.summary);
    assert!(!program.show);
    assert!(program.quiet);
    assert_eq!(program.head, "HEAD");
    assert_eq!(program.text, "pattern");

    let program = Program::new(&fixtures.repo, false, true, false, Some("master~1"), "a.c");
    assert!(!program.summary);
    assert!(program.show);
    assert!(!program.quiet);
    assert_eq!(program.head, "master~1");
    assert_eq!(program.text, "a.c");
}

#[test]
fn empty_pattern_matches_the_start() {
    let fixtures = TestRepository::new();

    assert_eq!(run(&fixtures, false, None, "").unwrap(), fixtures.third);
    assert_eq!(run(&fixtures, true, None, "").unwrap(), fixtures.third);
    assert_eq!(run(&fixtures, true, Some("master~2"), "").unwrap(), fixtures.first);
}

#[test]
fn summary_pattern_that_names_the_line_end_reaches_past_it() {
    let fixtures = TestRepository::new();

    // The pattern stands behind "any run of characters but a newline": what
    // it matches itself may hold a newline.
    assert_eq!(run(&fixtures, true, None, "barness\\n\\nbar").unwrap(), fixtures.third);
    assert_eq!(
        run(&fixtures, true, None, "^bar content").unwrap_err(),
        error(ErrorKind::NoSuchRevision)
    );
}

#[test]
fn summary_mode_holds_every_alternative_to_the_first_line() {
    let fixtures = TestRepository::new();

    // "more of it" stands in the body of the third commit only, "fooness" in
    // the summary of the second.
    assert_eq!(run(&fixtures, false, None, "fooness|more of it").unwrap(), fixtures.third);
    assert_eq!(run(&fixtures, true, None, "fooness|more of it").unwrap(), fixtures.second);
    assert_eq!(run(&fixtures, true, None, "more of it|fooness").unwrap(), fixtures.second);
    assert_eq!(run(&fixtures, true, None, "(?:more of it|fooness)").unwrap(), fixtures.second);
    assert_eq!(
        run(&fixtures, true, None, "more of it|no such text").unwrap_err(),
        error(ErrorKind::NoSuchRevision)
    );
}

#[test]
fn repository_without_commits_has_no_such_revision() {
    let dir = tempfile::tempdir().unwrap();
    let repo = Repository::init(dir.path()).unwrap();

    let failure = Program::new(&repo, false, false, false, None, "maximum").run().unwrap_err();
    assert_eq!(failure, error(ErrorKind::NoSuchRevision));
    assert!(!failure.fatal());
}

#[test]
fn empty_revision_is_a_fatal_error() {
    let fixtures = TestRepository::new();

    let failure = run(&fixtures, false, Some(""), "maximum").unwrap_err();
    assert_eq!(failure, error(ErrorKind::GitError));
    assert!(failure.fatal());
}

#[test]
fn revisions_in_their_several_forms() {
    let fixtures = TestRepository::new();

    assert_eq!(run(&fixtures, false, Some("HEAD"), "Update").unwrap(), fixtures.third);
    assert_eq!(run(&fixtures, false, Some("HEAD^"), "Update").unwrap(), fixtures.second);
    assert_eq!(run(&fixtures, false, Some("refs/heads/branch"), "Update").unwrap(), fixtures.third);
    assert_eq!(run(&fixtures, false, Some(&SECOND[..12]), "Update").unwrap(), fixtures.second);
    assert_eq!(run(&fixtures, false, Some(FIRST), "Add").unwrap(), fixtures.first);
}

#[test]
fn history_that_cannot_be_read_is_a_fatal_error() {
    let fixtures = TestRepository::new();
    // A commit whose parent is not in the repository.
    let tree = fixtures.repo.find_commit(fixtures.first).unwrap().tree_id();
    let raw = format!(
        "tree {}\nparent {}\nauthor A U Thor <author@example.com> 1500000600 +0000\ncommitter A U Thor <author@example.com> 1500000600 +0000\n\nOrphan: the parent is missing\n",
        tree, "1111111111111111111111111111111111111111"
    );
    let orphan = fixtures.repo.odb().unwrap().write(git2::ObjectType::Commit, raw.as_bytes()).unwrap();
    fixtures.repo.reference("refs/heads/broken", orphan, true, "broken").unwrap();

    for pattern in ["Orphan", "nothing like this"] {
        let failure = run(&fixtures, false, Some("broken"), pattern).unwrap_err();
        assert_eq!(failure, error(ErrorKind::GitError));
        assert!(failure.fatal());
        assert_eq!(failure.exit_status().code(), 2);
        assert!(failure.message().starts_with("fatal: "));
        assert!(failure.internal.is_some());
    }
}
