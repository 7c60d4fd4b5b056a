//! The kernel's line shell: it echoes what is typed and, at the end of a
//! line, runs the command the line names.
use vstd::prelude::*;

verus! {

/// Number of shell commands.
pub const SHELL_NUM: usize = 3;
/// Stack size of the shell process.
pub const SHELL_PROCESS_SIZE: usize = 100 * 1024;

/// The name of command `i`: `cmd` lists the commands, `mem` shows the heap,
/// `lsof` the scheduler.
pub open spec fn command_name(i: int) -> Seq<char> {
    if i == 0 {
        seq!['c', 'm', 'd']
    } else if i == 1 {
        seq!['m', 'e', 'm']
    } else {
        seq!['l', 's', 'o', 'f']
    }
}

/// The name of command `i`.
pub fn shell_command(i: usize) -> (r: Vec<char>)
    requires
        i < SHELL_NUM,
    ensures
        r@ == command_name(i as int),
{
    if i == 0 {
        vec!['c', 'm', 'd']
    } else if i == 1 {
        vec!['m', 'e', 'm']
    } else {
        vec!['l', 's', 'o', 'f']
    }
}

/// What the shell does with a typed character.
#[derive(Debug, PartialEq, Eq)]
pub enum ShellAction {
    /// Echo the character: it joined the line.
    Echo(char),
    /// The line named command `i`: run it.
    Run(usize),
    /// The line named no command: report it.
    NotFound(Vec<char>),
    /// The line was empty.
    Blank,
}

/// The first command whose name is `line`, or `SHELL_NUM` when none is.
pub open spec fn command_index(line: Seq<char>) -> int {
    if line == command_name(0) {
        0
    } else if line == command_name(1) {
        1
    } else if line == command_name(2) {
        2
    } else {
        SHELL_NUM as int
    }
}

/// The shell's state: the line typed so far.
pub struct Shell {
    pub input: Vec<char>,
}

/// Whether two character vectors hold the same characters.
fn same_chars(a: &Vec<char>, b: &Vec<char>) -> (r: bool)
    ensures
        r == (a@ == b@),
{
    if a.len() != b.len() {
        return false;
    }
    let mut i: usize = 0;
    while i < a.len()
        invariant
            a@.len() == b@.len(),
            i <= a@.len(),
            forall|j: int| 0 <= j < i ==> a@[j] == b@[j],
        decreases a.len() - i,
    {
        if a[i] != b[i] {
            return false;
        }
        i = i + 1;
    }
    assert(a@ =~= b@);
    true
}

/// What one typed character `ch` does to the line `input`: `next` is the
/// line afterwards and `r` the shell's answer. A newline empties the line
/// and runs the command the line names, reports the line when it names
/// none and is not empty, or answers `Blank` for an empty line; any other
/// character joins the line and is echoed.
pub open spec fn step_spec(input: Seq<char>, ch: char, next: Seq<char>, r: ShellAction) -> bool {
    if ch == '\n' {
        &&& next == Seq::<char>::empty()
        &&& command_index(input) < SHELL_NUM ==> r == ShellAction::Run(command_index(input) as usize)
        &&& command_index(input) == SHELL_NUM && input.len() > 0 ==> (r matches ShellAction::NotFound(
            line,
        ) && line@ == input)
        &&& input.len() == 0 ==> r == ShellAction::Blank
    } else {
        &&& next == input.push(ch)
        &&& r == ShellAction::Echo(ch)
    }
}

impl Shell {
    /// A shell with an empty line.
    pub fn new() -> (r: Shell)
        ensures
            r.input@ == Seq::<char>::empty(),
    {
        Shell { input: Vec::new() }
    }

    /// Take a typed character. A newline ends the line: the command it
    /// names runs, or the line is reported as no command unless it is
    /// empty; the line starts over. Any other character joins the line and
    /// is echoed.
    pub fn step(&mut self, ch: char) -> (r: ShellAction)
        ensures
            step_spec(old(self).input@, ch, final(self).input@, r),
    {
        if ch == '\n' {
            let mut found: usize = SHELL_NUM;
            let mut i: usize = 0;
            while i < SHELL_NUM
                invariant
                    i <= SHELL_NUM,
                    found == SHELL_NUM ==> forall|j: int| 0 <= j < i ==> self.input@ != command_name(j),
                    found < SHELL_NUM ==> found == command_index(self.input@),
                    found < SHELL_NUM || found == SHELL_NUM,
                ensures
                    found == SHELL_NUM ==> forall|j: int| 0 <= j < SHELL_NUM ==> self.input@ != command_name(j),
                    found < SHELL_NUM ==> found == command_index(self.input@),
                    found < SHELL_NUM || found == SHELL_NUM,
                decreases SHELL_NUM - i,
            {
                let name = shell_command(i);
                if same_chars(&self.input, &name) {
                    found = i;
                    break;
                }
                i = i + 1;
            }
            proof {
                if found == SHELL_NUM {
                    assert(self.input@ != command_name(0));
                    assert(self.input@ != command_name(1));
                    assert(self.input@ != command_name(2));
                }
            }
            let mut line: Vec<char> = Vec::new();
            std::mem::swap(&mut line, &mut self.input);
            if found < SHELL_NUM {
                ShellAction::Run(found)
            } else if line.len() > 0 {
                ShellAction::NotFound(line)
            } else {
                ShellAction::Blank
            }
        } else {
            self.input.push(ch);
            ShellAction::Echo(ch)
        }
    }
}

/// The characters of `line` followed by a newline, with `inputs[i]` the
/// line before character `i` is typed and `actions[i]` the answer to it.
pub open spec fn typed_line(line: Seq<char>, inputs: Seq<Seq<char>>, actions: Seq<ShellAction>) -> bool {
    &&& inputs.len() == line.len() + 2
    &&& actions.len() == line.len() + 1
    &&& forall|i: int|
        #![trigger actions[i]]
        0 <= i <= line.len() ==> step_spec(inputs[i], line.push('\n')[i], inputs[i + 1], actions[i])
}

proof fn lemma_typed_prefix(line: Seq<char>, inputs: Seq<Seq<char>>, actions: Seq<ShellAction>, k: int)
    requires
        forall|i: int| 0 <= i < line.len() ==> line[i] != '\n',
        typed_line(line, inputs, actions),
        inputs[0] == Seq::<char>::empty(),
        0 <= k <= line.len(),
    ensures
        inputs[k] == line.take(k),
        forall|i: int| 0 <= i < k ==> actions[i] == ShellAction::Echo(line[i]),
    decreases k,
{
    if k > 0 {
        lemma_typed_prefix(line, inputs, actions, k - 1);
        assert(line.push('\n')[k - 1] == line[k - 1]);
        assert(step_spec(inputs[k - 1], line.push('\n')[k - 1], inputs[k], actions[k - 1]));
        assert(line.take(k) =~= line.take(k - 1).push(line[k - 1]));
    } else {
        assert(line.take(0) =~= Seq::<char>::empty());
    }
}

/// Typing a line without a newline in it, then a newline, into a shell
/// whose line is empty: each character of the line is echoed in turn; the
/// newline runs the command the line names, reports the line when it names
/// no command and is not empty, or answers `Blank` when it is empty; and
/// the shell's line is empty again afterwards.
pub proof fn lemma_typed_line(line: Seq<char>, inputs: Seq<Seq<char>>, actions: Seq<ShellAction>)
    requires
        forall|i: int| 0 <= i < line.len() ==> line[i] != '\n',
        typed_line(line, inputs, actions),
        inputs[0] == Seq::<char>::empty(),
    ensures
        forall|i: int| 0 <= i < line.len() ==> actions[i] == ShellAction::Echo(line[i]),
        inputs[line.len() as int] == line,
        command_index(line) < SHELL_NUM ==> actions[line.len() as int] == ShellAction::Run(
            command_index(line) as usize,
        ),
        command_index(line) == SHELL_NUM && line.len() > 0 ==> (actions[line.len() as int] matches ShellAction::NotFound(
            l,
        ) && l@ == line),
        line.len() == 0 ==> actions[line.len() as int] == ShellAction::Blank,
        inputs[line.len() + 1int] == Seq::<char>::empty(),
{
    let n = line.len() as int;
    lemma_typed_prefix(line, inputs, actions, n);
    assert(line.take(n) =~= line);
    assert(line.push('\n')[n] == '\n');
    assert(step_spec(inputs[n], line.push('\n')[n], inputs[n + 1], actions[n]));
}

/// The text that lists the commands: a newline, then each name followed by
/// a space.
pub open spec fn commands_text() -> Seq<char> {
    seq!['\n'] + command_name(0) + seq![' '] + command_name(1) + seq![' '] + command_name(2) + seq![' ']
}

/// The text of the `cmd` command.
pub fn shell_show_commands() -> (r: Vec<char>)
    ensures
        r@ == commands_text(),
{
    let mut r: Vec<char> = Vec::new();
    r.push('\n');
    let mut i: usize = 0;
    while i < SHELL_NUM
        invariant
            i <= SHELL_NUM,
            r@ == (if i == 0 {
                seq!['\n']
            } else if i == 1 {
                seq!['\n'] + command_name(0) + seq![' ']
            } else if i == 2 {
                seq!['\n'] + command_name(0) + seq![' '] + command_name(1) + seq![' ']
            } else {
                commands_text()
            }),
        decreases SHELL_NUM - i,
    {
        let mut name = shell_command(i);
        r.append(&mut name);
        r.push(' ');
        i = i + 1;
    }
    r
}

} // verus!
