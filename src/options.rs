use vstd::prelude::*;

verus! {

/// What a `Watcher` is, as plain values.
pub struct WatchRule {
    pub pattern: Seq<char>,
    pub response: Seq<char>,
    pub case_sensitive: bool,
}

/// A rule that answers a prompt: when `pattern` shows up in a chunk of the
/// output, `response` followed by a newline is written back.
pub struct Watcher {
    pub pattern: String,
    pub response: String,
    pub case_sensitive: bool,
}

impl View for Watcher {
    type V = WatchRule;

    open spec fn view(&self) -> WatchRule {
        WatchRule {
            pattern: self.pattern@,
            response: self.response@,
            case_sensitive: self.case_sensitive,
        }
    }
}

impl Watcher {
    pub fn new(pattern: &str, response: &str, case_sensitive: bool) -> (r: Watcher)
        ensures
            r@ == (WatchRule { pattern: pattern@, response: response@, case_sensitive }),
    {
        Watcher { pattern: pattern.to_owned(), response: response.to_owned(), case_sensitive }
    }
}

/// The watchers of one command, in the order in which they were added; that
/// order is the order in which they are tried on each chunk.
pub struct RunOptions {
    pub watchers: Vec<Watcher>,
}

impl View for RunOptions {
    type V = Seq<WatchRule>;

    open spec fn view(&self) -> Seq<WatchRule> {
        self.watchers@.map_values(|w: Watcher| w@)
    }
}

impl RunOptions {
    pub fn new() -> (r: RunOptions)
        ensures
            r@ == Seq::<WatchRule>::empty(),
    {
        RunOptions { watchers: Vec::new() }
    }

    /// Adds a watcher after those already registered.
    pub fn set_watcher(&mut self, pattern: &str, response: &str, case_sensitive: bool)
        ensures
            final(self)@ == old(self)@.push(
                WatchRule { pattern: pattern@, response: response@, case_sensitive },
            ),
    {
        let w = Watcher::new(pattern, response, case_sensitive);
        self.watchers.push(w);
        assert(self@ =~= old(self)@.push(w@));
    }
}

/// Options of a command run through `sudo`. An empty field stands for its
/// default: the user `root`, the connection's own password, the prompt
/// `[sudo] password:`.
pub struct SudoOptions {
    pub sudo_user: String,
    pub sudo_password: String,
    pub sudo_pattern: String,
    pub run: RunOptions,
}

impl SudoOptions {
    pub fn new(sudo_user: &str, sudo_password: &str, sudo_pattern: &str) -> (r: SudoOptions)
        ensures
            r.sudo_user@ == sudo_user@,
            r.sudo_password@ == sudo_password@,
            r.sudo_pattern@ == sudo_pattern@,
            r.run@ == Seq::<WatchRule>::empty(),
    {
        SudoOptions {
            sudo_user: sudo_user.to_owned(),
            sudo_password: sudo_password.to_owned(),
            sudo_pattern: sudo_pattern.to_owned(),
            run: RunOptions::new(),
        }
    }

    /// Adds a watcher after those already registered.
    pub fn set_watcher(&mut self, pattern: &str, response: &str, case_sensitive: bool)
        ensures
            final(self).sudo_user == old(self).sudo_user,
            final(self).sudo_password == old(self).sudo_password,
            final(self).sudo_pattern == old(self).sudo_pattern,
            final(self).run@ == old(self).run@.push(
                WatchRule { pattern: pattern@, response: response@, case_sensitive },
            ),
    {
        self.run.set_watcher(pattern, response, case_sensitive);
    }
}

/// The credential presented when the session authenticates.
pub enum Auth {
    Password(String),
    Privatekey(String),
    Privatekeyfile(String),
}

impl Clone for Auth {
    fn clone(&self) -> (r: Self)
        ensures
            r == *self,
    {
        match self {
            Auth::Password(p) => Auth::Password(p.clone()),
            Auth::Privatekey(k) => Auth::Privatekey(k.clone()),
            Auth::Privatekeyfile(f) => Auth::Privatekeyfile(f.clone()),
        }
    }
}

} // verus!
