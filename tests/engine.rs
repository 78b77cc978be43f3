use rustssh::{command_line, responses_for_text, sudo_request, Auth, Exchange, RunOptions, SudoOptions};

fn drive(ex: &mut Exchange, chunks: &[&[u8]]) -> Vec<String> {
    let mut written = Vec::new();
    for c in chunks {
        written.extend(ex.on_chunk(c));
    }
    written
}

#[test]
fn plain_command_without_watchers() {
    assert_eq!(command_line("echo hi"), "PATH=$PATH:/usr/bin:/usr/sbin echo hi");
    let ex = Exchange::new(None);
    assert!(!ex.is_active());
    let r = ex.finish("hi\n", String::new(), 0);
    assert_eq!(r, ("hi\n".to_string(), String::new(), 0));
}

#[test]
fn empty_command_still_runs() {
    assert_eq!(command_line(""), "PATH=$PATH:/usr/bin:/usr/sbin ");
}

#[test]
fn empty_watcher_list_does_not_loop() {
    let ex = Exchange::new(Some(RunOptions::new()));
    assert!(!ex.is_active());
}

#[test]
fn default_sudo_with_password_auth() {
    let (line, opts) = sudo_request("id", None, &Auth::Password("pw".to_string()));
    assert_eq!(
        command_line(&line),
        "PATH=$PATH:/usr/bin:/usr/sbin sudo -S -p '[sudo] password:' -H -u root /bin/bash -l -c \"cd; id\""
    );
    let mut ex = Exchange::new(Some(opts));
    assert!(ex.is_active());
    let written = drive(&mut ex, &[b"[sudo] password:", b"uid=0(root)\n"]);
    assert_eq!(written, vec!["pw\n".to_string()]);
    assert!(ex.on_chunk(b"").is_empty());
    assert!(!ex.is_active());
    let r = ex.finish("", String::new(), 0);
    assert_eq!(r, ("[sudo] password:uid=0(root)\n".to_string(), String::new(), 0));
}

#[test]
fn sudo_defaults_for_empty_fields() {
    let opts = SudoOptions::new("", "", "");
    let (line, run) = sudo_request("ls", Some(opts), &Auth::Password("secret".to_string()));
    assert_eq!(line, "sudo -S -p '[sudo] password:' -H -u root /bin/bash -l -c \"cd; ls\"");
    assert_eq!(run.watchers.len(), 1);
    assert_eq!(run.watchers[0].pattern, "[sudo] password:");
    assert_eq!(run.watchers[0].response, "secret");
    assert!(run.watchers[0].case_sensitive);
}

#[test]
fn sudo_keeps_given_fields_and_caller_watchers_first() {
    let mut opts = SudoOptions::new("user01", "pass01", "Password?");
    opts.set_watcher("continue", "y", false);
    let (line, run) = sudo_request("whoami", Some(opts), &Auth::Password("other".to_string()));
    assert_eq!(line, "sudo -S -p 'Password?' -H -u user01 /bin/bash -l -c \"cd; whoami\"");
    assert_eq!(run.watchers.len(), 2);
    assert_eq!(run.watchers[0].pattern, "continue");
    assert_eq!(run.watchers[0].response, "y");
    assert!(!run.watchers[0].case_sensitive);
    assert_eq!(run.watchers[1].pattern, "Password?");
    assert_eq!(run.watchers[1].response, "pass01");
}

#[test]
fn sudo_with_key_auth_answers_empty() {
    let (_, run) = sudo_request("id", None, &Auth::Privatekey("PEM".to_string()));
    assert_eq!(run.watchers[0].response, "");
    let (_, run) = sudo_request("id", None, &Auth::Privatekeyfile("/k".to_string()));
    assert_eq!(run.watchers[0].response, "");
}

#[test]
fn custom_watcher_case_insensitive() {
    let mut opts = RunOptions::new();
    opts.set_watcher("Are you sure?", "yes", false);
    let mut ex = Exchange::new(Some(opts));
    let written = drive(&mut ex, &[b"ARE YOU SURE?", b"done\n", b""]);
    assert_eq!(written, vec!["yes\n".to_string()]);
    let (out, err, status) = ex.finish("", String::new(), 0);
    assert_eq!(out, "ARE YOU SURE?done\n");
    assert_eq!(err, "");
    assert_eq!(status, 0);
}

#[test]
fn case_sensitive_watcher_ignores_other_case() {
    let mut opts = RunOptions::new();
    opts.set_watcher("Are you sure?", "yes", true);
    let mut ex = Exchange::new(Some(opts));
    assert!(ex.on_chunk(b"ARE YOU SURE?").is_empty());
    assert_eq!(ex.on_chunk(b"Are you sure?"), vec!["yes\n".to_string()]);
}

#[test]
fn two_watchers_in_registration_order() {
    let mut opts = RunOptions::new();
    opts.set_watcher("A", "1", true);
    opts.set_watcher("B", "2", true);
    let mut ex = Exchange::new(Some(opts));
    assert_eq!(ex.on_chunk(b"B then A"), vec!["1\n".to_string(), "2\n".to_string()]);
}

#[test]
fn watcher_fires_once_per_chunk() {
    let mut opts = RunOptions::new();
    opts.set_watcher("ok?", "y", true);
    let mut ex = Exchange::new(Some(opts));
    assert_eq!(ex.on_chunk(b"ok? ok? ok?"), vec!["y\n".to_string()]);
    assert_eq!(ex.on_chunk(b"ok?"), vec!["y\n".to_string()]);
}

#[test]
fn pattern_split_over_chunks_may_miss() {
    let mut opts = RunOptions::new();
    opts.set_watcher("password:", "pw", true);
    let mut ex = Exchange::new(Some(opts));
    assert!(ex.on_chunk(b"pass").is_empty());
    assert!(ex.on_chunk(b"word:").is_empty());
    let (out, _, _) = ex.finish("", String::new(), 0);
    assert_eq!(out, "password:");
}

#[test]
fn nonzero_exit_is_a_status() {
    let ex = Exchange::new(None);
    assert_eq!(ex.finish("x", String::new(), 7), ("x".to_string(), String::new(), 7));
}

#[test]
fn stdout_is_loop_bytes_then_drained() {
    let mut opts = RunOptions::new();
    opts.set_watcher("zzz", "n", true);
    let mut ex = Exchange::new(Some(opts));
    drive(&mut ex, &[b"first ", b"second ", b""]);
    let (out, err, status) = ex.finish("third", "warn".to_string(), 3);
    assert_eq!(out, "first second third");
    assert_eq!(err, "warn");
    assert_eq!(status, 3);
}

#[test]
fn invalid_utf8_is_replaced_in_stdout() {
    let mut opts = RunOptions::new();
    opts.set_watcher("x", "n", true);
    let mut ex = Exchange::new(Some(opts));
    assert_eq!(ex.on_chunk(&[b'x', 0xff]), vec!["n\n".to_string()]);
    let (out, _, _) = ex.finish("", String::new(), 0);
    assert_eq!(out, "x\u{FFFD}");
}

#[test]
fn responses_for_decoded_text() {
    let mut opts = RunOptions::new();
    opts.set_watcher("straße", "a", false);
    opts.set_watcher("none", "b", true);
    opts.set_watcher("", "c", true);
    assert_eq!(
        responses_for_text(&opts, "STRASSE here"),
        vec!["a\n".to_string(), "c\n".to_string()]
    );
}

#[test]
fn response_with_newline_is_kept() {
    let mut opts = RunOptions::new();
    opts.set_watcher("?", "a\nb", true);
    assert_eq!(responses_for_text(&opts, "?"), vec!["a\nb\n".to_string()]);
}

#[test]
fn auth_clone_is_equal() {
    let a = Auth::Privatekeyfile("/root/.ssh/id".to_string());
    match a.clone() {
        Auth::Privatekeyfile(p) => assert_eq!(p, "/root/.ssh/id"),
        _ => panic!("variant changed"),
    }
}
