use vstd::prelude::*;

use crate::options::{Auth, RunOptions, SudoOptions, WatchRule};

verus! {

/// The `sudo` command line that runs `cmd` as `user` in a login shell placed
/// in that user's home, with `pattern` as the password prompt.
pub open spec fn sudo_line(pattern: Seq<char>, user: Seq<char>, cmd: Seq<char>) -> Seq<char> {
    "sudo -S -p '"@ + pattern + "' -H -u "@ + user + " /bin/bash -l -c \"cd; "@ + cmd + "\""@
}

pub open spec fn or_default(s: Seq<char>, default: Seq<char>) -> Seq<char> {
    if s.len() == 0 {
        default
    } else {
        s
    }
}

/// The password of a connection that authenticates by password; empty for
/// the key-based ones.
pub open spec fn password_of(auth: Auth) -> Seq<char> {
    match auth {
        Auth::Password(p) => p@,
        _ => Seq::empty(),
    }
}

pub open spec fn chosen_user(o: Option<SudoOptions>) -> Seq<char> {
    match o {
        Some(x) => or_default(x.sudo_user@, "root"@),
        None => "root"@,
    }
}

pub open spec fn chosen_pattern(o: Option<SudoOptions>) -> Seq<char> {
    match o {
        Some(x) => or_default(x.sudo_pattern@, "[sudo] password:"@),
        None => "[sudo] password:"@,
    }
}

pub open spec fn chosen_password(o: Option<SudoOptions>, auth: Auth) -> Seq<char> {
    match o {
        Some(x) => or_default(x.sudo_password@, password_of(auth)),
        None => password_of(auth),
    }
}

/// The caller's watchers followed by the one that answers the password prompt.
pub open spec fn sudo_rules(o: Option<SudoOptions>, auth: Auth) -> Seq<WatchRule> {
    let caller = match o {
        Some(x) => x.run@,
        None => Seq::empty(),
    };
    caller.push(
        WatchRule {
            pattern: chosen_pattern(o),
            response: chosen_password(o, auth),
            case_sensitive: true,
        },
    )
}

/// Where the caller leaves the prompt and the password to their defaults and
/// the connection authenticated by password, the last watcher answers the
/// prompt `[sudo] password:` with that password, matching case.
pub proof fn default_sudo_answers_with_password(options: Option<SudoOptions>, password: String)
    requires
        options matches Some(o) ==> o.sudo_pattern@.len() == 0 && o.sudo_password@.len() == 0,
    ensures
        sudo_rules(options, Auth::Password(password)).last() == (WatchRule {
            pattern: "[sudo] password:"@,
            response: password@,
            case_sensitive: true,
        }),
{
}

/// The command line and the watchers with which `cmd` runs through `sudo`,
/// for the options given and a connection that authenticated with `auth`.
pub fn sudo_request(cmd: &str, options: Option<SudoOptions>, auth: &Auth) -> (r: (
    String,
    RunOptions,
))
    ensures
        r.0@ == sudo_line(chosen_pattern(options), chosen_user(options), cmd@),
        r.1@ == sudo_rules(options, *auth),
{
    proof {
        reveal_strlit("");
    }
    let mut opt = match options {
        Some(o) => o,
        None => SudoOptions::new("root", "", "[sudo] password:"),
    };
    if opt.sudo_user.as_str().is_empty() {
        opt.sudo_user = "root".to_owned();
    }
    if opt.sudo_password.as_str().is_empty() {
        match auth {
            Auth::Password(p) => {
                opt.sudo_password = p.clone();
            },
            Auth::Privatekey(_) => {},
            Auth::Privatekeyfile(_) => {},
        }
        assert(opt.sudo_password@ =~= password_of(*auth));
    }
    if opt.sudo_pattern.as_str().is_empty() {
        opt.sudo_pattern = "[sudo] password:".to_owned();
    }
    opt.run.set_watcher(opt.sudo_pattern.as_str(), opt.sudo_password.as_str(), true);

    let mut line = "sudo -S -p '".to_owned();
    line.append(opt.sudo_pattern.as_str());
    line.append("' -H -u ");
    line.append(opt.sudo_user.as_str());
    line.append(" /bin/bash -l -c \"cd; ");
    line.append(cmd);
    line.append("\"");
    (line, opt.run)
}

} // verus!
