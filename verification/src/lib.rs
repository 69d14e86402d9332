//! Finds the most recent commit whose message matches a pattern.
//!
//! A search sets out from a revision and walks back through the history,
//! latest commit first. It returns the first commit whose message the pattern
//! matches, anywhere or in its first line only, and fails with "no such
//! revision" if the start names nothing or no commit matches.
//!
//! The repository is read through `git2` and patterns are matched by `pcre2`.
//! What the search makes of their answers is verified for every answer that
//! they can give; the answers themselves are taken as they come.
//!
//! - [`program`]: a request, the run that answers it, and what to do with
//!   the result;
//! - [`search`]: how a search proceeds from answer to answer, and what holds
//!   of its result;
//! - [`pattern`]: from the user's pattern to the regular expression;
//! - [`error`], [`status`]: failures, their texts and exit statuses;
//! - [`backend`], [`matcher`]: the calls into `git2` and into `pcre2`.

pub mod backend;
pub mod error;
pub mod matcher;
pub mod pattern;
pub mod program;
pub mod search;
pub mod status;
