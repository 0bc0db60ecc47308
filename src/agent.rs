//! Configuration of one interpreter child and the stdio protocol spoken
//! with it.
//!
//! The host writes the code, a newline, the marker line `__END__` and a
//! newline, then flushes. The child answers with its output followed by a
//! line holding exactly `__END__`. The host reads stdout line by line and
//! hands each line to a [`ResponseReader`].

use vstd::prelude::*;
use crate::process::ProcessType;
use crate::sandbox::SandboxConfig;
use std::time::Instant;

verus! {

/// The line that ends a code block and a response.
pub const END_MARKER: &'static str = "__END__";

/// Configuration of one agent runtime.
#[derive(Debug, Clone)]
pub struct AgentRuntimeConfig {
    pub process_type: ProcessType,
    /// Execution timeout in seconds.
    pub timeout_secs: u64,
    pub sandbox: SandboxConfig,
    pub work_dir: Option<String>,
    pub env_vars: Vec<(String, String)>,
}

impl Default for AgentRuntimeConfig {
    fn default() -> (r: Self)
        ensures
            r.process_type == ProcessType::Python,
            r.timeout_secs == 300,
            r.work_dir is None,
            r.env_vars@.len() == 0,
    {
        AgentRuntimeConfig {
            process_type: ProcessType::Python,
            timeout_secs: 300,
            sandbox: SandboxConfig::default(),
            work_dir: None,
            env_vars: Vec::new(),
        }
    }
}

/// Handle to a running child.
#[derive(Debug, Clone, Copy)]
pub struct RuntimeHandle {
    pub pid: u32,
    pub process_type: ProcessType,
    pub started_at: Instant,
}

/// What the host writes to the child's stdin for `code`.
pub open spec fn framed(code: Seq<char>) -> Seq<char> {
    code + "\n"@ + END_MARKER@ + "\n"@
}

/// The bytes to write for `code`.
pub fn frame_code(code: &str) -> (r: String)
    ensures
        r@ == framed(code@),
{
    let mut out = code.to_string();
    out.append("\n");
    out.append(END_MARKER);
    out.append("\n");
    out
}

/// `line` with its line ending (`\n` or `\r\n`) removed.
pub open spec fn line_body(line: Seq<char>) -> Seq<char> {
    if line.len() >= 2 && line[line.len() - 2] == '\r' && line[line.len() - 1] == '\n' {
        line.subrange(0, line.len() - 2)
    } else if line.len() >= 1 && line[line.len() - 1] == '\n' {
        line.subrange(0, line.len() - 1)
    } else {
        line
    }
}

/// `line` ends a response.
pub open spec fn is_end_line(line: Seq<char>) -> bool {
    line_body(line) == END_MARKER@
}

/// The response carried by the lines read so far: every line before the
/// first end line, with its line ending.
pub open spec fn response_of(lines: Seq<Seq<char>>) -> Seq<char>
    decreases lines.len(),
{
    if lines.len() == 0 {
        Seq::empty()
    } else if is_end_line(lines[0]) {
        Seq::empty()
    } else {
        lines[0] + response_of(lines.drop_first())
    }
}

/// Some line read so far ends the response.
pub open spec fn has_end(lines: Seq<Seq<char>>) -> bool {
    exists|i: int| 0 <= i < lines.len() && is_end_line(#[trigger] lines[i])
}

/// Whether `line` ends a response.
pub fn is_end(line: &str) -> (r: bool)
    ensures
        r == is_end_line(line@),
{
    let n = line.unicode_len();
    let body_len = if n >= 2 && line.get_char(n - 2) == '\r' && line.get_char(n - 1) == '\n' {
        n - 2
    } else if n >= 1 && line.get_char(n - 1) == '\n' {
        n - 1
    } else {
        n
    };
    let body = line.substring_char(0, body_len);
    proof {
        assert(line@.subrange(0, n as int) =~= line@);
    }
    crate::text::same_text(body, END_MARKER)
}

/// Collects a response from the child's stdout, one line at a time.
pub struct ResponseReader {
    output: String,
    done: bool,
    lines: Ghost<Seq<Seq<char>>>,
}

impl ResponseReader {
    /// The lines fed so far.
    pub closed spec fn lines(&self) -> Seq<Seq<char>> {
        self.lines@
    }

    pub closed spec fn wf(&self) -> bool {
        &&& self.output@ == response_of(self.lines@)
        &&& self.done == has_end(self.lines@)
    }

    pub fn new() -> (r: Self)
        ensures
            r.wf(),
            r.lines().len() == 0,
    {
        ResponseReader { output: String::new(), done: false, lines: Ghost(Seq::empty()) }
    }

    /// Feeds the next line read from stdout; true once the end line has
    /// been seen.
    pub fn feed(&mut self, line: &str) -> (r: bool)
        requires
            old(self).wf(),
        ensures
            final(self).wf(),
            final(self).lines() == old(self).lines().push(line@),
            r == has_end(final(self).lines()),
    {
        let ghost old_lines = self.lines@;
        proof {
            self.lines@ = self.lines@.push(line@);
            lemma_response_push(old_lines, line@);
            if has_end(old_lines) {
                let i = choose|i: int| 0 <= i < old_lines.len() && is_end_line(#[trigger] old_lines[i]);
                assert(self.lines@[i] == old_lines[i]);
            }
            if !has_end(old_lines) && !is_end_line(line@) {
                assert forall|i: int| 0 <= i < self.lines@.len() implies !is_end_line(#[trigger] self.lines@[i]) by {
                    if i < old_lines.len() {
                        assert(self.lines@[i] == old_lines[i]);
                    }
                }
            }
            if is_end_line(line@) {
                assert(is_end_line(self.lines@[old_lines.len() as int]));
            }
        }
        if !self.done {
            if is_end(line) {
                self.done = true;
            } else {
                self.output.append(line);
            }
        }
        self.done
    }

    /// The response collected so far.
    pub fn output(&self) -> (r: &str)
        requires
            self.wf(),
        ensures
            r@ == response_of(self.lines()),
    {
        self.output.as_str()
    }

    pub fn is_done(&self) -> (r: bool)
        requires
            self.wf(),
        ensures
            r == has_end(self.lines()),
    {
        self.done
    }
}

proof fn lemma_response_push(lines: Seq<Seq<char>>, line: Seq<char>)
    ensures
        has_end(lines) ==> response_of(lines.push(line)) == response_of(lines),
        !has_end(lines) && is_end_line(line) ==> response_of(lines.push(line)) == response_of(lines),
        !has_end(lines) && !is_end_line(line) ==> response_of(lines.push(line)) == response_of(lines) + line,
    decreases lines.len(),
{
    if lines.len() == 0 {
        assert(lines.push(line).drop_first() =~= Seq::<Seq<char>>::empty());
        assert(response_of(lines.push(line).drop_first()) == Seq::<char>::empty());
        assert(response_of(lines.push(line)) =~= if is_end_line(line) { Seq::<char>::empty() } else { line });
    } else {
        assert(lines.push(line).drop_first() =~= lines.drop_first().push(line));
        assert(lines.push(line)[0] == lines[0]);
        if is_end_line(lines[0]) {
            assert(has_end(lines));
        } else {
            if has_end(lines) {
                let i = choose|i: int| 0 <= i < lines.len() && is_end_line(#[trigger] lines[i]);
                assert(i > 0);
                assert(lines.drop_first()[i - 1] == lines[i]);
                assert(has_end(lines.drop_first()));
            } else {
                assert forall|i: int| 0 <= i < lines.drop_first().len() implies !is_end_line(#[trigger] lines.drop_first()[i]) by {
                    assert(lines.drop_first()[i] == lines[i + 1]);
                }
            }
            lemma_response_push(lines.drop_first(), line);
            if !has_end(lines) && !is_end_line(line) {
                assert(response_of(lines.push(line)) =~= response_of(lines) + line);
            }
        }
    }
}

} // verus!
