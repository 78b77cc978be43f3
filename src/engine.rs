use vstd::prelude::*;

use crate::options::{RunOptions, WatchRule, Watcher};
use crate::text::{decode_lossy, has_substring, lossy_text, occurs_in, upper_text, uppercase};

verus! {

/// The text put in front of every command so that administrative binaries
/// are found by a non-interactive shell.
pub open spec fn run_line(cmd: Seq<char>) -> Seq<char> {
    "PATH=$PATH:/usr/bin:/usr/sbin "@ + cmd
}

/// Whether a watcher matches a chunk of text: directly when it is case
/// sensitive, else after both sides are put in upper case.
pub open spec fn fires(w: WatchRule, text: Seq<char>) -> bool {
    if w.case_sensitive {
        occurs_in(text, w.pattern)
    } else {
        occurs_in(upper_text(text), upper_text(w.pattern))
    }
}

/// The line written back when a watcher fires.
pub open spec fn answer(w: WatchRule) -> Seq<char> {
    w.response.push('\n')
}

/// The lines written back for one chunk of text, in watcher order.
pub open spec fn responses(rules: Seq<WatchRule>, text: Seq<char>) -> Seq<Seq<char>>
    decreases rules.len(),
{
    if rules.len() == 0 {
        Seq::empty()
    } else {
        let earlier = responses(rules.drop_last(), text);
        if fires(rules.last(), text) {
            earlier.push(answer(rules.last()))
        } else {
            earlier
        }
    }
}

/// The positions of the watchers that fire on a chunk of text, in order.
pub open spec fn fired(rules: Seq<WatchRule>, text: Seq<char>) -> Seq<int>
    decreases rules.len(),
{
    if rules.len() == 0 {
        Seq::empty()
    } else {
        let earlier = fired(rules.drop_last(), text);
        if fires(rules.last(), text) {
            earlier.push(rules.len() - 1)
        } else {
            earlier
        }
    }
}

/// Each watcher answers a chunk at most once, and the answers come in the
/// order in which the watchers were registered: the `a`-th answer is that of
/// the `a`-th watcher to match, positions only increase, and every watcher
/// that matches is answered.
pub proof fn responses_follow_watcher_order(rules: Seq<WatchRule>, text: Seq<char>)
    ensures
        responses(rules, text).len() == fired(rules, text).len(),
        fired(rules, text).len() <= rules.len(),
        forall|a: int|
            0 <= a < fired(rules, text).len() ==> {
                let j = #[trigger] fired(rules, text)[a];
                &&& 0 <= j < rules.len()
                &&& fires(rules[j], text)
                &&& responses(rules, text)[a] == answer(rules[j])
            },
        forall|a: int, b: int|
            0 <= a < b < fired(rules, text).len() ==> #[trigger] fired(rules, text)[a]
                < #[trigger] fired(rules, text)[b],
        forall|j: int|
            0 <= j < rules.len() && #[trigger] fires(rules[j], text) ==> fired(
                rules,
                text,
            ).contains(j),
    decreases rules.len(),
{
    if rules.len() > 0 {
        let init = rules.drop_last();
        responses_follow_watcher_order(init, text);
        assert forall|j: int| 0 <= j < init.len() implies init[j] == rules[j] by {}
        let f = fired(rules, text);
        let g = fired(init, text);
        assert forall|j: int| 0 <= j < rules.len() && #[trigger] fires(rules[j], text) implies f.contains(j) by {
            if j < init.len() {
                assert(fires(init[j], text));
                let a = choose|a: int| 0 <= a < g.len() && g[a] == j;
                assert(f[a] == j);
            } else {
                assert(f[f.len() - 1] == j);
            }
        }
    }
}

/// Without watchers nothing is ever written back.
pub proof fn no_watchers_no_responses(text: Seq<char>)
    ensures
        responses(Seq::empty(), text) == Seq::<Seq<char>>::empty(),
{
}

/// A watcher that ignores case matches when the upper-case form of its
/// pattern occurs in the upper-case form of the chunk.
pub proof fn case_insensitive_folds_to_upper(w: WatchRule, text: Seq<char>)
    requires
        !w.case_sensitive,
    ensures
        fires(w, text) == occurs_in(upper_text(text), upper_text(w.pattern)),
{
}

/// The bytes of a run of reads, joined in the order in which they arrived.
pub open spec fn joined(chunks: Seq<Seq<u8>>) -> Seq<u8>
    decreases chunks.len(),
{
    if chunks.len() == 0 {
        Seq::empty()
    } else {
        joined(chunks.drop_last()) + chunks.last()
    }
}

/// Over a run of reads, each of which keeps its bytes after those already
/// kept (as `Exchange::on_chunk` does, an empty read keeping none), the
/// exchange ends up holding exactly the reads joined in arrival order; the
/// output of `Exchange::finish` is that, decoded, followed by what was
/// drained.
pub proof fn stdout_is_reads_then_drained(
    states: Seq<ExchangeView>,
    chunks: Seq<Seq<u8>>,
    drained: Seq<char>,
)
    requires
        states.len() == chunks.len() + 1,
        states[0].observed == Seq::<u8>::empty(),
        forall|i: int|
            0 <= i < chunks.len() ==> #[trigger] states[i + 1].observed == states[i].observed
                + chunks[i],
    ensures
        states.last().observed == joined(chunks),
        lossy_text(states.last().observed) + drained == lossy_text(joined(chunks)) + drained,
    decreases chunks.len(),
{
    if chunks.len() == 0 {
    } else {
        let n = chunks.len() - 1;
        stdout_is_reads_then_drained(states.take(n + 1), chunks.take(n), drained);
        assert(chunks.take(n) =~= chunks.drop_last());
        assert(states[n + 1].observed == states[n].observed + chunks[n]);
    }
}

pub open spec fn strings_view(v: Seq<String>) -> Seq<Seq<char>> {
    v.map_values(|s: String| s@)
}

/// The command line that reaches the remote shell for `cmd`.
pub fn command_line(cmd: &str) -> (r: String)
    ensures
        r@ == run_line(cmd@),
{
    let mut line = "PATH=$PATH:/usr/bin:/usr/sbin ".to_owned();
    line.append(cmd);
    line
}

fn watcher_fires(w: &Watcher, text: &str) -> (r: bool)
    ensures
        r == fires(w@, text@),
{
    if w.case_sensitive {
        has_substring(text, w.pattern.as_str())
    } else {
        let upper = uppercase(text);
        let pattern = uppercase(w.pattern.as_str());
        has_substring(upper.as_str(), pattern.as_str())
    }
}

/// The lines to write back for one decoded chunk of output: one for each
/// watcher that matches, in the order of registration.
pub fn responses_for_text(options: &RunOptions, text: &str) -> (r: Vec<String>)
    ensures
        strings_view(r@) == responses(options@, text@),
{
    let mut out: Vec<String> = Vec::new();
    let mut i: usize = 0;
    while i < options.watchers.len()
        invariant
            i <= options.watchers.len(),
            strings_view(out@) == responses(options@.take(i as int), text@),
        decreases options.watchers.len() - i,
    {
        let w = &options.watchers[i];
        let fire = watcher_fires(w, text);
        proof {
            assert(options@.take(i + 1).drop_last() =~= options@.take(i as int));
            assert(options@.take(i + 1).last() == w@);
        }
        if fire {
            let mut line = w.response.clone();
            line.append("\n");
            proof {
                reveal_strlit("\n");
                assert(line@ =~= answer(w@));
            }
            let ghost before = out@;
            out.push(line);
            assert(strings_view(out@) =~= strings_view(before).push(line@));
        }
        i += 1;
    }
    assert(options@.take(i as int) =~= options@);
    out
}

/// The state of one command's output loop: its watchers, the bytes seen so
/// far, and whether the stream has ended.
pub struct Exchange {
    options: RunOptions,
    stdout: Vec<u8>,
    ended: bool,
}

pub struct ExchangeView {
    pub rules: Seq<WatchRule>,
    pub observed: Seq<u8>,
    pub ended: bool,
}

impl View for Exchange {
    type V = ExchangeView;

    closed spec fn view(&self) -> ExchangeView {
        ExchangeView { rules: self.options@, observed: self.stdout@, ended: self.ended }
    }
}

pub open spec fn rules_of(options: Option<RunOptions>) -> Seq<WatchRule> {
    match options {
        Some(o) => o@,
        None => Seq::empty(),
    }
}

impl Exchange {
    pub fn new(options: Option<RunOptions>) -> (r: Exchange)
        ensures
            r@ == (ExchangeView { rules: rules_of(options), observed: Seq::empty(), ended: false }),
    {
        let options = match options {
            Some(o) => o,
            None => RunOptions::new(),
        };
        Exchange { options, stdout: Vec::new(), ended: false }
    }

    /// Whether the output loop has to read on: only while watchers are
    /// registered and the stream has not ended.
    pub fn is_active(&self) -> (r: bool)
        ensures
            r == (self@.rules.len() > 0 && !self@.ended),
    {
        self.options.watchers.len() > 0 && !self.ended
    }

    /// Takes one read from the channel. An empty read ends the stream;
    /// otherwise the bytes are kept and the lines to write back are returned.
    pub fn on_chunk(&mut self, chunk: &[u8]) -> (r: Vec<String>)
        ensures
            chunk@.len() == 0 ==> final(self)@ == (ExchangeView { ended: true, ..old(self)@ })
                && r@.len() == 0,
            chunk@.len() > 0 ==> final(self)@ == (ExchangeView {
                observed: old(self)@.observed + chunk@,
                ..old(self)@
            }) && strings_view(r@) == responses(old(self)@.rules, lossy_text(chunk@)),
    {
        if chunk.len() == 0 {
            self.ended = true;
            return Vec::new();
        }
        let ghost before = self.stdout@;
        self.stdout.extend_from_slice(chunk);
        assert(self.stdout@ =~= before + chunk@);
        let text = decode_lossy(chunk);
        responses_for_text(&self.options, text.as_str())
    }

    /// The result of the command: the bytes seen by the loop, decoded, then
    /// what was read after it; the error stream; the exit status as the
    /// remote process gave it.
    pub fn finish(self, drained: &str, stderr: String, status: i32) -> (r: (String, String, i32))
        ensures
            r.0@ == lossy_text(self@.observed) + drained@,
            r.1 == stderr,
            r.2 == status,
    {
        let mut out = decode_lossy(self.stdout.as_slice());
        out.append(drained);
        (out, stderr, status)
    }
}

} // verus!
