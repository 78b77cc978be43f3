//! Drive a remote host over SSH: run commands, answer their prompts, and
//! elevate privileges through `sudo`.
//!
//! The library holds the decisions of that work and proves them: which
//! command line reaches the remote shell, which responses each chunk of
//! output calls for, how `sudo` options fall back to their defaults, and how
//! the captured output is put together. Reading and writing the channel is
//! left to the caller.
mod connection;
mod engine;
mod options;
mod sudo;
mod text;

pub use options::{Auth, RunOptions, SudoOptions, WatchRule, Watcher};
pub use engine::{
    answer, case_insensitive_folds_to_upper, command_line, fired, fires, joined,
    no_watchers_no_responses, responses, responses_follow_watcher_order, responses_for_text,
    rules_of, run_line, stdout_is_reads_then_drained, strings_view, Exchange, ExchangeView,
};
pub use text::{lossy_text, occurs_in, upper_text};
pub use sudo::{
    chosen_password, chosen_pattern, chosen_user, default_sudo_answers_with_password, or_default,
    password_of, sudo_line, sudo_request, sudo_rules,
};
pub use connection::{
    opened_values_read_back, timeout_reads_back, Connection, ConnectionView, DEFAULT_TIMEOUT_MS,
};
