//! Starting the runtime: what its output lines mean, when waiting for it ends,
//! and what is kept of its error output.

use std::collections::VecDeque;

use vstd::prelude::*;

use crate::text::{
    after_prefix, begins_with, cat2, cat3, chars_of, contains, has_text, join, joined, text_of,
};
use crate::trim::{
    decimal, decimal_text, first_word, strip_leading, white_space, word, word_length, CharClass,
};

verus! {

/// What a line begins with that tells where the runtime listens.
pub const READY_PREFIX: &'static str = "dsh web: ";

/// What the address of a local server begins with.
pub const LOOPBACK_PREFIX: &'static str = "http://127.0.0.1:";

/// How many lines of error output are kept.
pub const ERROR_TAIL_LINES: usize = 20;

/// How many characters of a line of error output are kept.
pub const ERROR_TAIL_LINE_CHARS: usize = 1000;

/// The argument that keeps the runtime from opening a browser.
pub const NO_OPEN_ARGUMENT: &'static str = "--no-open";

/// The address that a line of output announces: the first word behind the
/// prefix, where it is the address of a local server.
pub open spec fn ready_url(line: Seq<char>) -> Option<Seq<char>> {
    if !READY_PREFIX@.is_prefix_of(line) {
        None
    } else {
        match first_word(line.skip(READY_PREFIX@.len() as int)) {
            Some(url) if LOOPBACK_PREFIX@.is_prefix_of(url) => Some(url),
            _ => None,
        }
    }
}

/// Reads the address that a line of output announces.
pub fn parse_ready_url(line: &str) -> (url: Option<String>)
    ensures
        url.deep_view() == ready_url(line@),
{
    match after_prefix(line, READY_PREFIX) {
        Some(rest) => match word(rest.as_str()) {
            Some(url) => if begins_with(url.as_str(), LOOPBACK_PREFIX) {
                Some(url)
            } else {
                None
            },
            None => None,
        },
        None => None,
    }
}

/// Every address that is accepted is one on this computer, and holds no white
/// space.
pub proof fn law_ready_url_is_local(line: Seq<char>)
    ensures
        ready_url(line) matches Some(url) ==> {
            &&& READY_PREFIX@.is_prefix_of(line)
            &&& LOOPBACK_PREFIX@.is_prefix_of(url)
            &&& forall|i: int| 0 <= i < url.len() ==> !white_space(#[trigger] url[i])
        },
{
    let rest = strip_leading(line.skip(READY_PREFIX@.len() as int), CharClass::WhiteSpace);
    crate::trim::lemma_word_length(rest);
}

/// The error of a runtime that does not know the argument which keeps it from
/// opening a browser.
pub open spec fn no_open_refused(error: Seq<char>) -> bool {
    has_text(error, "unknown option '--no-open'"@)
}

/// Whether the runtime refused the argument that keeps it from opening a
/// browser.
pub fn no_open_is_unsupported(error: &str) -> (yes: bool)
    ensures
        yes == no_open_refused(error@),
{
    contains(error, "unknown option '--no-open'")
}

/// The arguments that start the local server.
pub open spec fn web_arguments(suppress_browser: bool) -> Seq<Seq<char>> {
    if suppress_browser {
        seq!["web"@, "--port"@, "0"@, NO_OPEN_ARGUMENT@]
    } else {
        seq!["web"@, "--port"@, "0"@]
    }
}

/// The arguments that start the local server on a free port.
pub fn web_command_args(suppress_browser: bool) -> (arguments: Vec<String>)
    ensures
        arguments.deep_view() == web_arguments(suppress_browser),
{
    let mut arguments: Vec<String> = Vec::new();
    arguments.push("web".to_string());
    arguments.push("--port".to_string());
    arguments.push("0".to_string());
    if suppress_browser {
        arguments.push(NO_OPEN_ARGUMENT.to_string());
    }
    assert(arguments.deep_view() =~= web_arguments(suppress_browser));
    arguments
}

/// A launch of the runtime, which may be tried a second time for a runtime that
/// does not know how to keep the browser closed.
pub struct LaunchAttempt {
    pub suppress_browser: bool,
}

impl LaunchAttempt {
    /// The first try asks the runtime to keep the browser closed.
    pub fn first() -> (attempt: LaunchAttempt)
        ensures
            attempt.suppress_browser,
    {
        LaunchAttempt { suppress_browser: true }
    }

    /// Takes note that the try failed. Where the runtime refused the argument
    /// that keeps the browser closed, a second try without it follows.
    pub fn failed(&mut self, error: &str) -> (again: bool)
        ensures
            again == (old(self).suppress_browser && no_open_refused(error@)),
            final(self).suppress_browser == (old(self).suppress_browser && !again),
    {
        if self.suppress_browser && no_open_is_unsupported(error) {
            self.suppress_browser = false;
            true
        } else {
            false
        }
    }
}

/// What is known of the process that was started.
pub enum ProcessState {
    Running,
    /// It ended, with this description of how.
    Exited(String),
    /// Its state could not be read, for this reason.
    Unreadable(String),
}

/// What follows a look at a process that was started.
pub enum LaunchStep {
    /// The runtime listens at this address.
    Ready(String),
    /// The start failed. The process is ended first where `terminate` is set,
    /// and the error output is read to its end where `drain` is set.
    Failed { reason: String, terminate: bool, drain: bool },
    /// Nothing is decided yet.
    Wait,
}

/// The contents of a [`LaunchStep`].
pub enum LaunchStepView {
    Ready(Seq<char>),
    Failed { reason: Seq<char>, terminate: bool, drain: bool },
    Wait,
}

impl View for LaunchStep {
    type V = LaunchStepView;

    open spec fn view(&self) -> LaunchStepView {
        match self {
            LaunchStep::Ready(url) => LaunchStepView::Ready(url@),
            LaunchStep::Failed { reason, terminate, drain } => LaunchStepView::Failed {
                reason: reason@,
                terminate: *terminate,
                drain: *drain,
            },
            LaunchStep::Wait => LaunchStepView::Wait,
        }
    }
}

/// An announced address wins; then an ended or unreadable process; then the
/// time limit.
pub open spec fn launch_step(
    ready: Option<Seq<char>>,
    process: ProcessState,
    timed_out: bool,
    timeout: Seq<char>,
) -> LaunchStepView {
    match (ready, process) {
        (Some(url), _) => LaunchStepView::Ready(url),
        (None, ProcessState::Exited(status)) => LaunchStepView::Failed {
            reason: "进程在就绪前退出（"@ + status@ + "）"@,
            terminate: false,
            drain: true,
        },
        (None, ProcessState::Unreadable(error)) => LaunchStepView::Failed {
            reason: "无法读取进程状态："@ + error@,
            terminate: false,
            drain: false,
        },
        (None, ProcessState::Running) => if timed_out {
            LaunchStepView::Failed {
                reason: timeout + " 内没有收到就绪信号"@,
                terminate: true,
                drain: true,
            }
        } else {
            LaunchStepView::Wait
        },
    }
}

/// Decides what follows a look at a process that was started. `timeout` is the
/// time limit in words.
pub fn poll_launch(
    ready: Option<String>,
    process: ProcessState,
    timed_out: bool,
    timeout: &str,
) -> (step: LaunchStep)
    ensures
        step@ == launch_step(ready.deep_view(), process, timed_out, timeout@),
{
    if let Some(url) = ready {
        return LaunchStep::Ready(url);
    }
    match process {
        ProcessState::Exited(status) => LaunchStep::Failed {
            reason: cat3("进程在就绪前退出（", status.as_str(), "）"),
            terminate: false,
            drain: true,
        },
        ProcessState::Unreadable(error) => LaunchStep::Failed {
            reason: cat2("无法读取进程状态：", error.as_str()),
            terminate: false,
            drain: false,
        },
        ProcessState::Running => if timed_out {
            LaunchStep::Failed {
                reason: cat2(timeout, " 内没有收到就绪信号"),
                terminate: true,
                drain: true,
            }
        } else {
            LaunchStep::Wait
        },
    }
}

/// What is kept of a line of error output: its first characters, and an
/// ellipsis where there were more.
pub open spec fn kept_line(line: Seq<char>) -> Seq<char> {
    if line.len() > ERROR_TAIL_LINE_CHARS {
        line.take(ERROR_TAIL_LINE_CHARS as int).push('…')
    } else {
        line
    }
}

/// The kept lines after one more: a full list first loses its oldest line.
pub open spec fn tail_with(tail: Seq<Seq<char>>, line: Seq<char>) -> Seq<Seq<char>> {
    (if tail.len() == ERROR_TAIL_LINES {
        tail.drop_first()
    } else {
        tail
    }).push(kept_line(line))
}

/// Keeps a line of error output.
pub fn remember_stderr_line(tail: &mut VecDeque<String>, line: &str)
    ensures
        final(tail).deep_view() == tail_with(old(tail).deep_view(), line@),
{
    let chars = chars_of(line);
    let captured = if chars.len() > ERROR_TAIL_LINE_CHARS {
        let mut first = text_of(&chars, 0, ERROR_TAIL_LINE_CHARS);
        assert(first@ =~= line@.take(ERROR_TAIL_LINE_CHARS as int));
        first.push('…');
        first
    } else {
        line.to_string()
    };
    if tail.len() == ERROR_TAIL_LINES {
        tail.pop_front();
    }
    tail.push_back(captured);
    assert(tail.deep_view() =~= tail_with(old(tail).deep_view(), line@));
}

/// The message with the kept lines of error output below it.
pub open spec fn message_with_tail(message: Seq<char>, tail: Seq<Seq<char>>) -> Seq<char> {
    if tail.len() == 0 {
        message
    } else {
        message + "\n\n关键日志：\n"@ + joined(tail, "\n"@)
    }
}

/// Puts the kept lines of error output below a message.
pub fn with_stderr_tail(message: String, tail: &VecDeque<String>) -> (text: String)
    ensures
        text@ == message_with_tail(message@, tail.deep_view()),
{
    if tail.len() == 0 {
        return message;
    }
    let mut lines: Vec<String> = Vec::new();
    let mut i: usize = 0;
    while i < tail.len()
        invariant
            i <= tail@.len(),
            lines.deep_view() == tail.deep_view().take(i as int),
        decreases tail@.len() - i,
    {
        let ghost before = lines.deep_view();
        lines.push(tail[i].clone());
        assert(lines.deep_view() =~= before.push(tail@[i as int]@));
        i = i + 1;
        assert(lines.deep_view() =~= tail.deep_view().take(i as int));
    }
    assert(tail.deep_view().take(i as int) =~= tail.deep_view());
    cat3(message.as_str(), "\n\n关键日志：\n", join(&lines, "\n").as_str())
}

/// All lines of a run, kept one after another.
pub open spec fn tail_of(lines: Seq<Seq<char>>) -> Seq<Seq<char>>
    decreases lines.len(),
{
    if lines.len() == 0 {
        Seq::empty()
    } else {
        tail_with(tail_of(lines.drop_last()), lines.last())
    }
}

/// What is kept of a run are its last lines, in order, each shortened; there
/// are never more than the limit.
pub proof fn law_tail_keeps_the_last_lines(lines: Seq<Seq<char>>)
    ensures
        tail_of(lines).len() == if lines.len() < ERROR_TAIL_LINES {
            lines.len()
        } else {
            ERROR_TAIL_LINES as nat
        },
        tail_of(lines) == lines.skip(lines.len() - tail_of(lines).len()).map_values(
            |line: Seq<char>| kept_line(line),
        ),
    decreases lines.len(),
{
    if lines.len() == 0 {
        assert(tail_of(lines) =~= lines.skip(0).map_values(|line: Seq<char>| kept_line(line)));
    } else {
        let before = lines.drop_last();
        law_tail_keeps_the_last_lines(before);
        let kept = tail_of(before);
        let shorten = |line: Seq<char>| kept_line(line);
        let last = before.skip(before.len() - kept.len());
        assert forall|i: int| 0 <= i < kept.len() implies kept[i] == kept_line(
            lines[lines.len() - 1 - kept.len() + i],
        ) by {
            assert(last.map_values(shorten)[i] == kept_line(last[i]));
        }
        assert(tail_of(lines).last() == kept_line(lines.last()));
        assert(tail_of(lines) =~= lines.skip(lines.len() - tail_of(lines).len()).map_values(
            |line: Seq<char>| kept_line(line),
        ));
    }
}

/// No kept line is longer than the limit and its ellipsis.
pub proof fn law_kept_lines_are_short(line: Seq<char>)
    ensures
        kept_line(line).len() <= ERROR_TAIL_LINE_CHARS + 1,
        line.len() <= ERROR_TAIL_LINE_CHARS ==> kept_line(line) == line,
{
}

/// The milliseconds that a process has to end by itself.
pub const TERMINATION_GRACE_MILLIS: u64 = 5000;

/// What to do about a process that was asked to end.
#[derive(Clone, Copy, Debug, PartialEq, Eq, Structural)]
pub enum TerminationStep {
    /// It ended.
    Done,
    /// It may still end by itself.
    Wait,
    /// It is to be ended by force.
    Force,
}

/// What to do about a process that was asked to end so many milliseconds ago.
pub fn termination_step(exited: bool, waited: u64) -> (step: TerminationStep)
    ensures
        step == if waited >= TERMINATION_GRACE_MILLIS {
            TerminationStep::Force
        } else if exited {
            TerminationStep::Done
        } else {
            TerminationStep::Wait
        },
{
    if waited >= TERMINATION_GRACE_MILLIS {
        TerminationStep::Force
    } else if exited {
        TerminationStep::Done
    } else {
        TerminationStep::Wait
    }
}

/// The arguments with which Windows ends a process and those that it started.
pub open spec fn taskkill_query(process_id: u32, force: bool) -> Seq<Seq<char>> {
    if force {
        seq!["/F"@, "/PID"@, decimal(process_id as nat), "/T"@]
    } else {
        seq!["/PID"@, decimal(process_id as nat), "/T"@]
    }
}

/// The arguments with which Windows ends a process and those that it started.
pub fn taskkill_arguments(process_id: u32, force: bool) -> (arguments: Vec<String>)
    ensures
        arguments.deep_view() == taskkill_query(process_id, force),
{
    let mut arguments: Vec<String> = Vec::new();
    if force {
        arguments.push("/F".to_string());
    }
    arguments.push("/PID".to_string());
    arguments.push(decimal_text(process_id as u64));
    arguments.push("/T".to_string());
    assert(arguments.deep_view() =~= taskkill_query(process_id, force));
    arguments
}

/// Whatever line begins with the prefix and goes on with an address on this computer
/// announces that address, up to the first white space; no other line announces any.
pub proof fn law_announced_address_is_read(address: Seq<char>, rest: Seq<char>)
    requires
        "http://127.0.0.1:"@.is_prefix_of(address),
        forall|i: int| 0 <= i < address.len() ==> !white_space(#[trigger] address[i]),
        rest.len() == 0 || white_space(rest[0]),
    ensures
        ready_url("dsh web: "@ + address + rest) == Some(address),
{
    reveal_strlit("http://127.0.0.1:");
    let line = "dsh web: "@ + address + rest;
    assert(line.take("dsh web: "@.len() as int) =~= "dsh web: "@);
    let text = line.skip(READY_PREFIX@.len() as int);
    assert(text =~= address + rest);
    assert(address.len() > 0);
    assert(text[0] == address[0]);
    assert(strip_leading(text, CharClass::WhiteSpace) == text);
    lemma_word_before(address, rest);
    assert(text.take(address.len() as int) =~= address);
}

proof fn lemma_word_before(address: Seq<char>, rest: Seq<char>)
    requires
        forall|i: int| 0 <= i < address.len() ==> !white_space(#[trigger] address[i]),
        rest.len() == 0 || white_space(rest[0]),
    ensures
        word_length(address + rest) == address.len(),
    decreases address.len(),
{
    if address.len() == 0 {
        assert(address + rest =~= rest);
    } else {
        let next = address.drop_first();
        assert((address + rest).drop_first() =~= next + rest);
        assert((address + rest)[0] == address[0]);
        assert forall|i: int| 0 <= i < next.len() implies !white_space(#[trigger] next[i]) by {
            assert(next[i] == address[i + 1]);
        }
        lemma_word_before(next, rest);
    }
}

/// A line that does not begin with the prefix announces nothing, and neither does one
/// whose first word behind it is not an address on this computer.
pub proof fn law_other_lines_announce_nothing(line: Seq<char>)
    ensures
        !"dsh web: "@.is_prefix_of(line) ==> ready_url(line) is None,
        ready_url(line) matches Some(url) ==> "dsh web: "@.is_prefix_of(line)
            && "http://127.0.0.1:"@.is_prefix_of(url) && first_word(
            line.skip("dsh web: "@.len() as int),
        ) == Some(url),
{
}

/// The local server is started on a free port, and told to keep the browser closed
/// exactly where that is asked for.
pub proof fn law_server_gets_a_free_port(suppress_browser: bool)
    ensures
        seq!["web"@, "--port"@, "0"@].is_prefix_of(web_arguments(suppress_browser)),
        suppress_browser ==> web_arguments(suppress_browser) == seq![
            "web"@,
            "--port"@,
            "0"@,
            "--no-open"@,
        ],
        !suppress_browser ==> web_arguments(suppress_browser).len() == 3,
{
    assert(web_arguments(suppress_browser).take(3) =~= seq!["web"@, "--port"@, "0"@]);
}

/// An old runtime is told by its own words that it does not know the argument.
pub proof fn law_old_runtime_is_recognised(error: Seq<char>, before: Seq<char>, after: Seq<char>)
    ensures
        no_open_refused(before + "unknown option '--no-open'"@ + after),
        no_open_refused(error) ==> has_text(error, "unknown option '--no-open'"@),
{
    let words = "unknown option '--no-open'"@;
    assert(words.subrange(0, words.len() as int) =~= words);
    assert(crate::text::occurs_at(words, words, 0));
    crate::text::lemma_part_of(before, words, after, words);
}

/// A runtime that announced its address is ready, whatever else is known of it. One
/// that ended or cannot be read has failed, and so has one whose time is over; only
/// that one is still to be ended. Any other is waited for.
pub proof fn law_start_is_decided_by_what_is_known(
    url: Seq<char>,
    process: ProcessState,
    timed_out: bool,
    timeout: Seq<char>,
)
    ensures
        launch_step(Some(url), process, timed_out, timeout) == LaunchStepView::Ready(url),
        process matches ProcessState::Exited(status) ==> launch_step(
            None,
            process,
            timed_out,
            timeout,
        ) == (LaunchStepView::Failed {
            reason: "进程在就绪前退出（"@ + status@ + "）"@,
            terminate: false,
            drain: true,
        }),
        process matches ProcessState::Unreadable(error) ==> launch_step(
            None,
            process,
            timed_out,
            timeout,
        ) == (LaunchStepView::Failed {
            reason: "无法读取进程状态："@ + error@,
            terminate: false,
            drain: false,
        }),
        process is Running && timed_out ==> launch_step(None, process, timed_out, timeout) == (
        LaunchStepView::Failed {
            reason: timeout + " 内没有收到就绪信号"@,
            terminate: true,
            drain: true,
        }),
        process is Running && !timed_out ==> launch_step(None, process, timed_out, timeout) is Wait,
{
}

/// A line of a thousand characters or fewer is kept as it is; of a longer one the first
/// thousand are, and a mark that there was more.
pub proof fn law_long_line_keeps_its_beginning(line: Seq<char>)
    ensures
        line.len() <= 1000 ==> kept_line(line) == line,
        line.len() > 1000 ==> kept_line(line) == line.take(1000).push('…'),
{
}

/// Twenty lines are kept: a further one takes the place of the oldest.
pub proof fn law_newest_lines_are_kept(tail: Seq<Seq<char>>, line: Seq<char>)
    ensures
        tail_with(tail, line).last() == kept_line(line),
        tail.len() < 20 ==> tail_with(tail, line).drop_last() == tail,
        tail.len() == 20 ==> tail_with(tail, line).drop_last() == tail.drop_first(),
{
    assert(tail.len() < 20 ==> tail_with(tail, line).drop_last() =~= tail);
    assert(tail.len() == 20 ==> tail_with(tail, line).drop_last() =~= tail.drop_first());
}

/// The message comes first and every kept line below it; without any it stands alone.
pub proof fn law_message_shows_the_kept_lines(
    message: Seq<char>,
    tail: Seq<Seq<char>>,
    at: int,
)
    ensures
        message.is_prefix_of(message_with_tail(message, tail)),
        tail.len() == 0 ==> message_with_tail(message, tail) == message,
        0 <= at < tail.len() ==> has_text(message_with_tail(message, tail), tail[at]),
        tail.len() > 0 ==> message_with_tail(message, tail) == message + "\n\n关键日志：\n"@ + joined(
            tail,
            "\n"@,
        ),
{
    let whole = message_with_tail(message, tail);
    assert(whole.take(message.len() as int) =~= message);
    if 0 <= at < tail.len() {
        crate::text::lemma_joined_holds(tail, "\n"@, at);
        let front = message + "\n\n关键日志：\n"@;
        crate::text::lemma_part_of(front, joined(tail, "\n"@), Seq::empty(), tail[at]);
        assert(front + joined(tail, "\n"@) + Seq::<char>::empty() =~= whole);
    }
}

/// A process is named by its number and ended with all that it started, and by force
/// exactly where that is asked for.
pub proof fn law_process_is_ended_with_its_children(process_id: u32, force: bool)
    ensures
        ({
            let query = taskkill_query(process_id, force);
            let named = seq!["/PID"@, decimal(process_id as nat), "/T"@];
            &&& force ==> query == seq!["/F"@] + named
            &&& !force ==> query == named
        }),
{
    assert(taskkill_query(process_id, true) =~= seq!["/F"@] + seq![
        "/PID"@,
        decimal(process_id as nat),
        "/T"@,
    ]);
}

} // verus!
