//! The local language-model server: when to reuse, restart or stop it, how
//! it is started, how a leftover one is recognized, and how its streamed
//! chat answer is collected.  Spawning the server, polling it and reading
//! the stream happen in the app.
use vstd::prelude::*;

use crate::input_devices::{all_digits, digits_value, parse_u32, parse_u32_spec};
use crate::models::PostprocessProviderMode;
use crate::text::{
    contains_spec, contains_str, decimal, digit_char, is_digit, push_decimal, split_on, starts_with_spec, starts_with_str,
    str_eq, trim, trim_spec,
};

verus! {

// ---------------------------------------------------------------------------
// Lifecycle decisions
// ---------------------------------------------------------------------------

/// What to do about the server when a model is needed.
#[derive(Debug, Clone, PartialEq, Eq)]
pub enum ServerAction {
    /// The running server serves the model and answers: use its port.
    Reuse(u16),
    /// Start a new server, stopping the running one first when there is one.
    Start { stop_running: bool },
}

/// A running server (its port and model) is reused when it serves the
/// requested model and is healthy; otherwise a new one is started.
pub fn plan_server(running: Option<(u16, &str)>, model_id: &str, healthy: bool) -> (r: ServerAction)
    ensures
        (running matches Some(s) && s.1@ == model_id@) && healthy ==> r == ServerAction::Reuse(
            running->Some_0.0,
        ),
        !(running matches Some(s) && s.1@ == model_id@ && healthy) ==> r == (ServerAction::Start {
            stop_running: running is Some,
        }),
{
    match running {
        Some((port, serving)) => {
            if str_eq(serving, model_id) && healthy {
                ServerAction::Reuse(port)
            } else {
                ServerAction::Start { stop_running: true }
            }
        },
        None => ServerAction::Start { stop_running: false },
    }
}

/// The server is stopped before a model is deleted only when it serves
/// that model.
pub fn should_stop_server_for_model(running_model: Option<&str>, model_id: &str) -> (r: bool)
    ensures
        r == (running_model matches Some(m) && m@ == model_id@),
{
    match running_model {
        Some(m) => str_eq(m, model_id),
        None => false,
    }
}

/// The server is started at launch when post-processing uses the local
/// model and its file is already there.
pub fn should_preload_server(mode: PostprocessProviderMode, model_file_exists: bool) -> (r: bool)
    ensures
        r == (mode == PostprocessProviderMode::LocalLlm && model_file_exists),
{
    mode == PostprocessProviderMode::LocalLlm && model_file_exists
}

/// The arguments the server is started with.
pub open spec fn server_args_spec(model_path: Seq<char>, port: u16) -> Seq<Seq<char>> {
    seq![
        "-m"@,
        model_path,
        "--port"@,
        decimal(port as nat),
        "--host"@,
        "127.0.0.1"@,
        "-ngl"@,
        "99"@,
        "--jinja"@,
        "--log-disable"@,
    ]
}

/// The arguments the server is started with: the model, the port on the
/// loopback host, all layers on the GPU, full chat templates, no logging.
pub fn server_args(model_path: &str, port: u16) -> (r: Vec<String>)
    ensures
        r@.map_values(|s: String| s@) == server_args_spec(model_path@, port),
{
    let mut port_text = String::new();
    push_decimal(&mut port_text, port as u64);
    let r = vec![
        String::from_str("-m"),
        model_path.to_owned(),
        String::from_str("--port"),
        port_text,
        String::from_str("--host"),
        String::from_str("127.0.0.1"),
        String::from_str("-ngl"),
        String::from_str("99"),
        String::from_str("--jinja"),
        String::from_str("--log-disable"),
    ];
    assert(r@.map_values(|s: String| s@) =~= server_args_spec(model_path@, port));
    r
}

/// `http://127.0.0.1:<port>` followed by `path`.
pub open spec fn local_url_spec(port: u16, path: Seq<char>) -> Seq<char> {
    "http://127.0.0.1:"@ + decimal(port as nat) + path
}

/// A URL on the server.
pub fn local_url(port: u16, path: &str) -> (r: String)
    ensures
        r@ == local_url_spec(port, path@),
{
    let mut r = String::from_str("http://127.0.0.1:");
    push_decimal(&mut r, port as u64);
    r.append(path);
    proof {
        reveal_strlit("http://127.0.0.1:");
    }
    r
}

/// One step of waiting for the server to become ready.
#[derive(Debug, Clone, Copy, PartialEq, Eq, Structural)]
pub enum HealthPoll {
    Ready,
    TimedOut,
    Wait,
}

/// Past the deadline the wait fails; a healthy answer ends it; otherwise
/// wait and ask again.
pub fn health_poll_step(now_ms: u64, deadline_ms: u64, healthy: bool) -> (r: HealthPoll)
    ensures
        now_ms > deadline_ms ==> r == HealthPoll::TimedOut,
        now_ms <= deadline_ms && healthy ==> r == HealthPoll::Ready,
        now_ms <= deadline_ms && !healthy ==> r == HealthPoll::Wait,
{
    if now_ms > deadline_ms {
        HealthPoll::TimedOut
    } else if healthy {
        HealthPoll::Ready
    } else {
        HealthPoll::Wait
    }
}

/// The pid recorded by an earlier run, when the file holds one.
pub fn recorded_server_pid(file_contents: &str) -> (r: Option<u32>)
    ensures
        r == parse_u32_spec(trim_spec(file_contents@)),
{
    parse_u32(trim(file_contents).as_str())
}

/// A number written in decimal reads back as itself: `str::parse::<u32>`
/// of `n.to_string()` gives `n` (the pid file of the language-model
/// server is written and read this way).
pub proof fn law_decimal_parses_back(n: u32)
    ensures
        parse_u32_spec(decimal(n as nat)) == Some(n),
{
    lemma_decimal_digits(n as nat);
}

proof fn lemma_decimal_digits(n: nat)
    ensures
        decimal(n).len() > 0,
        all_digits(decimal(n)),
        digits_value(decimal(n)) == n,
    decreases n,
{
    let d = decimal(n);
    if n < 10 {
        assert(d =~= seq![digit_char(n as int)]);
        assert(digit_char(n as int) as int == n + 48);
        assert(d.drop_last() =~= Seq::<char>::empty());
        assert(digits_value(d) == digits_value(d.drop_last()) * 10 + (d.last() as int - 48));
    } else {
        lemma_decimal_digits(n / 10);
        let p = decimal(n / 10);
        assert(d == p.push(digit_char((n % 10) as int)));
        assert(d.drop_last() =~= p);
        assert(digit_char((n % 10) as int) as int == n % 10 + 48);
        assert(n / 10 * 10 + n % 10 == n);
        assert(d.last() == digit_char((n % 10) as int));
        assert(digits_value(d) == digits_value(d.drop_last()) * 10 + (d.last() as int - 48));
        assert forall|i: int| 0 <= i < d.len() implies is_digit(#[trigger] d[i]) by {
            if i < p.len() {
                assert(d[i] == p[i]);
            }
        }
    }
}

/// Whether a process listing line (`ps -o comm=` or `tasklist`) names the
/// server, so that a reused pid of another program is left alone.
pub fn names_server_process(listing: &str) -> (r: bool)
    ensures
        r == contains_spec(trim_spec(listing@), "llama-server"@),
{
    contains_str(trim(listing).as_str(), "llama-server")
}

// ---------------------------------------------------------------------------
// The streamed answer
// ---------------------------------------------------------------------------

/// Name for the `content` text of `choices[0].delta` in a streamed JSON
/// event, as `serde_json` reads it.
pub uninterp spec fn json_delta_content(data: Seq<char>) -> Option<Seq<char>>;

/// Reads `choices[0].delta.content` of a JSON event with `serde_json`
/// (`None` when the text is not JSON or holds no such string).  The result
/// is only named.
#[verifier::external_body]
fn delta_content(data: &str) -> (r: Option<String>)
    ensures
        r matches Some(c) ==> json_delta_content(data@) == Some(c@),
        r is None ==> json_delta_content(data@) is None,
{
    match serde_json::from_str::<serde_json::Value>(data) {
        Ok(json) => json["choices"][0]["delta"]["content"].as_str().map(|c| c.to_string()),
        Err(_) => None,
    }
}

/// The complete lines of a stream so far (the text after the last newline
/// is still incomplete).
pub open spec fn complete_lines(text: Seq<char>) -> Seq<Seq<char>> {
    split_on(text, '\n').drop_last()
}

/// What one line adds to the answer, and whether it ends the stream: a
/// `data: ` line carries an event, `data: [DONE]` ends the stream, other
/// lines are skipped.
pub open spec fn sse_step(acc: Seq<char>, line: Seq<char>) -> (Seq<char>, bool) {
    let t = trim_spec(line);
    if starts_with_spec(t, "data: "@) {
        let data = t.subrange(6, t.len() as int);
        if data == "[DONE]"@ {
            (acc, true)
        } else {
            match json_delta_content(data) {
                Some(c) => (acc + c, false),
                None => (acc, false),
            }
        }
    } else {
        (acc, false)
    }
}

/// The answer collected from the lines, and whether the stream ended.
pub open spec fn sse_outcome(lines: Seq<Seq<char>>) -> (Seq<char>, bool)
    decreases lines.len(),
{
    if lines.len() == 0 {
        (Seq::empty(), false)
    } else {
        let prev = sse_outcome(lines.drop_last());
        if prev.1 {
            prev
        } else {
            sse_step(prev.0, lines.last())
        }
    }
}

proof fn lemma_split_on_append(p: Seq<char>, r: Seq<char>, c: char)
    requires
        split_on(p, c).last() == Seq::<char>::empty(),
    ensures
        split_on(p + r, c) == split_on(p, c).drop_last() + split_on(r, c),
    decreases r.len(),
{
    crate::text::lemma_split_on_nonempty(p, c);
    if r.len() == 0 {
        assert(p + r =~= p);
        assert(split_on(r, c) =~= seq![Seq::<char>::empty()]);
        assert(split_on(p, c) =~= split_on(p, c).drop_last().push(Seq::<char>::empty()));
        assert(split_on(p, c).drop_last().push(Seq::<char>::empty()) =~= split_on(p, c).drop_last()
            + seq![Seq::<char>::empty()]);
    } else {
        let r2 = r.drop_last();
        lemma_split_on_append(p, r2, c);
        crate::text::lemma_split_on_nonempty(r2, c);
        assert((p + r).drop_last() =~= p + r2);
        assert((p + r).last() == r.last());
        let a = split_on(p, c).drop_last();
        let b = split_on(r2, c);
        if r.last() == c {
            assert((a + b).push(Seq::<char>::empty()) =~= a + b.push(Seq::<char>::empty()));
        } else {
            assert((a + b).update((a + b).len() - 1, (a + b).last().push(r.last())) =~= a
                + b.update(b.len() - 1, b.last().push(r.last())));
        }
    }
}

/// Once a line has ended the stream, the lines after it change neither the
/// answer nor the end.
pub proof fn law_lines_after_done_ignored(x: Seq<Seq<char>>, y: Seq<Seq<char>>)
    requires
        sse_outcome(x).1,
    ensures
        sse_outcome(x + y) == sse_outcome(x),
    decreases y.len(),
{
    if y.len() == 0 {
        assert(x + y =~= x);
    } else {
        law_lines_after_done_ignored(x, y.drop_last());
        assert((x + y).drop_last() =~= x + y.drop_last());
    }
}

/// Collects a streamed chat answer chunk by chunk.
pub struct SseCollector {
    buffer: String,
    result: String,
    received: Ghost<Seq<char>>,
}

impl SseCollector {
    /// What the collector holds: the answer of the complete lines received
    /// so far (none of which ended the stream), and the incomplete line.
    pub closed spec fn wf(&self) -> bool {
        &&& self.result@ == sse_outcome(complete_lines(self.received@)).0
        &&& !sse_outcome(complete_lines(self.received@)).1
        &&& self.buffer@ == split_on(self.received@, '\n').last()
    }

    /// The text received so far.
    pub closed spec fn received(&self) -> Seq<char> {
        self.received@
    }

    /// Nothing received yet.
    pub fn new() -> (r: Self)
        ensures
            r.wf(),
            r.received() == Seq::<char>::empty(),
    {
        let r = SseCollector { buffer: String::new(), result: String::new(), received: Ghost(Seq::empty()) };
        proof {
            assert(split_on(Seq::<char>::empty(), '\n') =~= seq![Seq::<char>::empty()]);
            assert(complete_lines(Seq::<char>::empty()) =~= Seq::<Seq<char>>::empty());
        }
        r
    }

    /// Takes the next chunk of the stream; once `data: [DONE]` arrives, the
    /// trimmed answer is returned and the collector is done.
    pub fn feed(&mut self, chunk: &str) -> (r: Option<String>)
        requires
            old(self).wf(),
        ensures
            ({
                let outcome = sse_outcome(complete_lines(old(self).received() + chunk@));
                &&& r matches Some(answer) ==> outcome.1 && answer@ == trim_spec(outcome.0)
                &&& r is None ==> !outcome.1 && final(self).wf() && final(self).received() == old(
                    self,
                ).received() + chunk@
            }),
    {
        let v = crate::text::chars_of(chunk);
        let ghost start = self.received@;
        let mut i: usize = 0;
        assert(v@.subrange(0, 0) =~= Seq::<char>::empty());
        assert(start + v@.subrange(0, 0) =~= start);
        while i < v.len()
            invariant
                i <= v@.len(),
                v@ == chunk@,
                self.received@ == start + v@.subrange(0, i as int),
                start == old(self).received(),
                self.wf(),
            decreases v@.len() - i,
        {
            let c = v[i];
            let ghost before = self.received@;
            proof {
                self.received = Ghost(before.push(c));
                assert(start + v@.subrange(0, i + 1) =~= before.push(c));
                assert(before.push(c).drop_last() =~= before);
                assert(before.push(c).last() == c);
            }
            if c == '\n' {
                let line = trim(self.buffer.as_str());
                let ghost lines_before = complete_lines(before);
                proof {
                    crate::text::lemma_split_on_nonempty(before, '\n');
                    assert(complete_lines(before.push(c)) =~= lines_before.push(
                        split_on(before, '\n').last(),
                    ));
                    assert(complete_lines(before.push(c)).drop_last() =~= lines_before);
                }
                proof {
                    reveal_strlit("data: ");
                    assert("data: "@.len() == 6);
                }
                if starts_with_str(line.as_str(), "data: ") {
                    let lv = crate::text::chars_of(line.as_str());
                    let data = crate::text::substring(&lv, 6, lv.len());
                    if str_eq(data.as_str(), "[DONE]") {
                        proof {
                            let lines_b = complete_lines(before);
                            let l = split_on(before, '\n').last();
                            assert(l == self.buffer@);
                            assert(trim_spec(l) == line@);
                            assert(data@ == line@.subrange(6, line@.len() as int));
                            assert(data@ == "[DONE]"@);
                            assert(complete_lines(before.push(c)) == lines_b.push(l));
                            assert(lines_b.push(l).drop_last() =~= lines_b);
                            assert(lines_b.push(l).last() == l);
                            assert(sse_outcome(lines_b) == (self.result@, false));
                            assert(sse_step(self.result@, l) == (self.result@, true));
                            assert(sse_outcome(complete_lines(before.push(c))) == (self.result@, true));
                            let full = start + chunk@;
                            let rest = v@.subrange(i + 1, v@.len() as int);
                            assert(full =~= before.push(c) + rest);
                            assert(split_on(before.push(c), '\n').last() =~= Seq::<char>::empty());
                            lemma_split_on_append(before.push(c), rest, '\n');
                            crate::text::lemma_split_on_nonempty(rest, '\n');
                            assert(complete_lines(full) =~= complete_lines(before.push(c))
                                + complete_lines(rest));
                            law_lines_after_done_ignored(
                                complete_lines(before.push(c)),
                                complete_lines(rest),
                            );
                            assert(sse_outcome(complete_lines(full)) == (self.result@, true));
                            assert(full == old(self).received() + chunk@);
                        }
                        return Some(trim(self.result.as_str()));
                    }
                    match delta_content(data.as_str()) {
                        Some(content) => self.result.append(content.as_str()),
                        None => {},
                    }
                }
                self.buffer = String::new();
            } else {
                self.buffer.push(c);
                proof {
                    crate::text::lemma_split_on_nonempty(before, '\n');
                    assert(complete_lines(before.push(c)) =~= complete_lines(before));
                }
            }
            i = i + 1;
        }
        assert(v@.subrange(0, v@.len() as int) =~= v@);
        None
    }

    /// The stream ended without `[DONE]`: the trimmed answer so far.
    pub fn finish(&self) -> (r: String)
        requires
            self.wf(),
        ensures
            r@ == trim_spec(sse_outcome(complete_lines(self.received())).0),
    {
        trim(self.result.as_str())
    }
}

} // verus!
