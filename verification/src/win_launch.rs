//! The command line that starts the runtime where a process is created
//! from one string: quoting, joining, and the reading of such a line.

use vstd::prelude::*;
use crate::os_string_ext::{replaced, OsStringExt};
use crate::text::{concat, lemma_texts_empty, lemma_texts_push, push_text, texts};

verus! {

/// The file name of the Java command that runs in a console.
pub const JAVA_NAME: &'static str = "java.exe";

/// The file name of the Java command that runs without a console.
pub const JAVAW_NAME: &'static str = "javaw.exe";

/// `\`
pub const BACKSLASH: u16 = 92;

/// `"`
pub const DOUBLE_QUOTE: u16 = 34;

/// `[`
pub const LEFT_BRACKET: u16 = 91;

/// `{`
pub const LEFT_CURLY: u16 = 123;

/// The line feed.
pub const NEWLINE: u16 = 10;

/// `?`
pub const QUESTION: u16 = 63;

/// `'`
pub const SINGLE_QUOTE: u16 = 39;

/// The space.
pub const SPACE: u16 = 32;

/// `*`
pub const STAR: u16 = 42;

/// The tabulator.
pub const TAB: u16 = 9;

/// The first `count` of `items` with `delimiter` between each two.
pub open spec fn delimited(items: Seq<Seq<char>>, delimiter: Seq<char>, count: int) -> Seq<char>
    decreases count,
{
    if count <= 0 || count > items.len() {
        Seq::empty()
    } else if count == 1 {
        items[0]
    } else {
        delimited(items, delimiter, count - 1) + delimiter + items[count - 1]
    }
}

/// `s` between two double quotes.
pub open spec fn quoted(s: Seq<char>) -> Seq<char> {
    "\""@ + s + "\""@
}

/// Each of `items` between two double quotes.
pub open spec fn all_quoted(items: Seq<Seq<char>>) -> Seq<Seq<char>> {
    items.map_values(|s: Seq<char>| quoted(s))
}

/// The command as it is started: without a console the windowed Java
/// command takes the place of the console one.
pub open spec fn command_for(command: Seq<char>, console_attached: bool) -> Seq<char> {
    if console_attached {
        command
    } else {
        replaced(command, JAVA_NAME@, JAVAW_NAME@)
    }
}

/// The line that starts `command` with `args`: each of them quoted, one
/// space between each two.
pub open spec fn process_line(command: Seq<char>, args: Seq<Seq<char>>, console_attached: bool)
    -> Seq<char> {
    let all = seq![command_for(command, console_attached)] + args;
    delimited(all_quoted(all), " "@, all.len() as int)
}

/// What the reading of a command line remembers from one unit to the
/// next.
pub struct LineState {
    /// Whether the unit before was a backslash that counts.
    pub slashes: bool,
    /// The quote that is open, or zero.
    pub quote: u16,
}

/// Whether `c` is a blank: a space, a tab or a line feed.
pub open spec fn is_blank(c: u16) -> bool {
    c == SPACE || c == TAB || c == NEWLINE
}

/// Whether `c` is a character that file name patterns are made of.
pub open spec fn is_glob(c: u16) -> bool {
    c == LEFT_BRACKET || c == LEFT_CURLY || c == STAR || c == QUESTION
}

/// The state after the unit `c`.
///
/// A backslash counts outside single quotes. A quote that does not follow
/// such a backslash opens a quotation or closes the one of its own kind. A
/// blank changes nothing.
pub open spec fn state_step(state: LineState, c: u16) -> LineState {
    if c == BACKSLASH {
        LineState { slashes: state.slashes || state.quote != SINGLE_QUOTE, quote: state.quote }
    } else if is_blank(c) {
        state
    } else if is_glob(c) {
        LineState { slashes: false, quote: state.quote }
    } else if c == SINGLE_QUOTE || c == DOUBLE_QUOTE {
        LineState {
            slashes: false,
            quote: if state.slashes {
                state.quote
            } else if state.quote == 0 {
                c
            } else if state.quote == c {
                0
            } else {
                state.quote
            },
        }
    } else {
        LineState { slashes: false, quote: state.quote }
    }
}

/// The state after the first `count` units of `line`.
pub open spec fn state_after(line: Seq<u16>, count: int) -> LineState
    decreases count,
{
    if count <= 0 || count > line.len() {
        LineState { slashes: false, quote: 0 }
    } else {
        state_step(state_after(line, count - 1), line[count - 1])
    }
}

/// What is read from the first `count` units of `line`: for each blank
/// outside a quotation, the line up to that blank.
pub open spec fn read_until(line: Seq<u16>, count: int) -> Seq<Seq<u16>>
    decreases count,
{
    if count <= 0 || count > line.len() {
        Seq::empty()
    } else if is_blank(line[count - 1]) && state_after(line, count - 1).quote == 0 {
        read_until(line, count - 1).push(line.take(count - 1))
    } else {
        read_until(line, count - 1)
    }
}

/// The unit sequences of a list of unit strings.
pub open spec fn wide_texts(list: Seq<Vec<u16>>) -> Seq<Seq<u16>> {
    list.map_values(|v: Vec<u16>| v@)
}

/// What is read from a command line given in 16-bit units: for each blank
/// outside a quotation, the line up to that blank.
#[allow(non_snake_case)]
pub fn commandLine(line: Vec<u16>) -> (r: Vec<Vec<u16>>)
    ensures
        wide_texts(r@) == read_until(line@, line.len() as int),
{
    let mut slashes = false;
    let mut quote: u16 = 0;
    let mut args: Vec<Vec<u16>> = Vec::new();
    let mut i: usize = 0;
    assert(wide_texts(args@) =~= Seq::<Seq<u16>>::empty());
    while i < line.len()
        invariant
            i <= line.len(),
            state_after(line@, i as int) == (LineState { slashes, quote }),
            wide_texts(args@) == read_until(line@, i as int),
        decreases line.len() - i,
    {
        let c = line[i];
        if c == BACKSLASH {
            if quote != SINGLE_QUOTE {
                slashes = true;
            }
        } else if c == SPACE || c == TAB || c == NEWLINE {
            if quote == 0 {
                let mut arg: Vec<u16> = Vec::new();
                let mut k: usize = 0;
                while k < i
                    invariant
                        k <= i <= line.len(),
                        arg@ == line@.take(k as int),
                    decreases i - k,
                {
                    arg.push(line[k]);
                    assert(line@.take(k + 1) =~= line@.take(k as int).push(line@[k as int]));
                    k += 1;
                }
                assert(wide_texts(args@.push(arg)) =~= wide_texts(args@).push(arg@));
                args.push(arg);
            }
        } else if c == LEFT_BRACKET || c == LEFT_CURLY || c == STAR || c == QUESTION {
            slashes = false;
        } else if c == SINGLE_QUOTE || c == DOUBLE_QUOTE {
            if !slashes {
                if quote == 0 {
                    quote = c;
                } else if quote == c {
                    quote = 0;
                }
            }
            slashes = false;
        } else {
            slashes = false;
        }
        i += 1;
    }
    args
}

/// The items of `vector` with `delimeter` between each two.
pub fn join(vector: Vec<String>, delimeter: &str) -> (r: String)
    ensures
        r@ == delimited(texts(vector@), delimeter@, vector.len() as int),
{
    let mut new_string = String::new();
    let mut i: usize = 0;
    while i < vector.len()
        invariant
            i <= vector.len(),
            new_string@ == delimited(texts(vector@), delimeter@, i as int),
        decreases vector.len() - i,
    {
        if i != 0 {
            new_string.append(delimeter);
        } else {
            assert(Seq::<char>::empty() + vector@[0]@ =~= vector@[0]@);
        }
        new_string.append(vector[i].as_str());
        i += 1;
    }
    new_string
}

/// `string` between two double quotes.
pub fn quote_os_string(string: String) -> (r: String)
    ensures
        r@ == quoted(string@),
{
    let mut new_string = concat("\"", string.as_str());
    new_string.append("\"");
    new_string
}

/// The items of `vector`, each between two double quotes, with one space
/// between each two.
pub fn quote_vec(vector: Vec<String>) -> (r: String)
    ensures
        r@ == delimited(all_quoted(texts(vector@)), " "@, vector.len() as int),
{
    let mut command_line: Vec<String> = Vec::new();
    let mut i: usize = 0;
    proof {
        lemma_texts_empty();
        assert(all_quoted(texts(vector@).take(0)) =~= Seq::<Seq<char>>::empty());
    }
    while i < vector.len()
        invariant
            i <= vector.len(),
            texts(command_line@) == all_quoted(texts(vector@).take(i as int)),
        decreases vector.len() - i,
    {
        let item = quote_os_string(vector[i].as_str().to_owned());
        proof {
            lemma_texts_push(command_line@, item);
            assert(texts(vector@).take(i + 1) =~= texts(vector@).take(i as int).push(
                vector@[i as int]@,
            ));
            assert(all_quoted(texts(vector@).take(i as int).push(vector@[i as int]@))
                =~= all_quoted(texts(vector@).take(i as int)).push(quoted(vector@[i as int]@)));
        }
        command_line.push(item);
        i += 1;
    }
    assert(texts(vector@).take(vector.len() as int) =~= texts(vector@));
    assert(all_quoted(texts(vector@)).len() == vector.len());
    join(command_line, " ")
}

/// The line that starts `command` with `args`. Without a console the
/// windowed Java command is started in place of the console one.
pub fn process_command_line(command: String, args: Vec<String>, console_attached: bool) -> (r:
    String)
    ensures
        r@ == process_line(command@, texts(args@), console_attached),
{
    let command = if console_attached {
        command
    } else {
        command.replace_str(&JAVA_NAME.to_owned(), &JAVAW_NAME.to_owned())
    };
    let mut all: Vec<String> = Vec::new();
    proof {
        lemma_texts_empty();
    }
    push_text(&mut all, command.as_str());
    crate::text::extend_texts(&mut all, &args);
    assert(texts(all@) =~= seq![command@] + texts(args@));
    quote_vec(all)
}

/// How far the start of a child process has come.
#[derive(Debug, Clone, Copy, PartialEq, Eq, Structural)]
pub enum ChildState {
    /// Nothing was done yet.
    Start,
    /// The child is about to be created.
    Creating,
    /// The child exists and does not run yet.
    Suspended,
    /// The handler for control signals is in place; the child does not run
    /// yet.
    Guarded,
    /// The child runs.
    Running,
    /// The child has ended.
    Ended,
    /// The exit status of the child is known.
    Done,
    /// The child could not be created.
    Failed,
}

/// What happened since the last step.
#[derive(Debug, Clone, Copy, PartialEq, Eq, Structural)]
pub enum ChildEvent {
    /// The launch was asked for.
    Begin,
    /// The child was created, or could not be.
    Created(bool),
    /// The handler for control signals was installed, or could not be.
    HandlerInstalled(bool),
    /// The child was let run.
    Resumed,
    /// The child ended.
    Exited,
    /// The exit status of the child was read.
    ExitCode(u32),
}

/// What is to be done next.
#[derive(Debug, Clone, Copy, PartialEq, Eq, Structural)]
pub enum ChildAction {
    /// Create the child, suspended.
    Create,
    /// Install the handler that keeps control signals from ending the
    /// launcher.
    InstallHandler,
    /// Let the child run. `guarded` tells whether the handler is in place;
    /// where it is not, the caller reports that.
    Resume { guarded: bool },
    /// Wait for the child to end, however long it takes.
    Wait,
    /// Read the exit status of the child.
    ReadExitCode,
    /// Release the child and end with its exit status.
    Finish(u32),
    /// Give up: there is no child.
    Abort,
    /// Nothing: the event does not belong here.
    Ignore,
}

/// The step that follows the event `event` in the state `state`.
///
/// The child is created suspended, the handler for control signals is
/// installed, and only then the child is let run; the launcher waits for it
/// and ends with its exit status. An event that does not belong to the
/// state changes nothing.
pub open spec fn child_step(state: ChildState, event: ChildEvent) -> (ChildState, ChildAction) {
    match (state, event) {
        (ChildState::Start, ChildEvent::Begin) => (ChildState::Creating, ChildAction::Create),
        (ChildState::Creating, ChildEvent::Created(true)) => (
            ChildState::Suspended,
            ChildAction::InstallHandler,
        ),
        (ChildState::Creating, ChildEvent::Created(false)) => (
            ChildState::Failed,
            ChildAction::Abort,
        ),
        (ChildState::Suspended, ChildEvent::HandlerInstalled(guarded)) => (
            ChildState::Guarded,
            ChildAction::Resume { guarded },
        ),
        (ChildState::Guarded, ChildEvent::Resumed) => (ChildState::Running, ChildAction::Wait),
        (ChildState::Running, ChildEvent::Exited) => (
            ChildState::Ended,
            ChildAction::ReadExitCode,
        ),
        (ChildState::Ended, ChildEvent::ExitCode(code)) => (
            ChildState::Done,
            ChildAction::Finish(code),
        ),
        _ => (state, ChildAction::Ignore),
    }
}

/// The state after the events `events[..count]`, from the start.
pub open spec fn child_state_after(events: Seq<ChildEvent>, count: int) -> ChildState
    decreases count,
{
    if count <= 0 || count > events.len() {
        ChildState::Start
    } else {
        child_step(child_state_after(events, count - 1), events[count - 1]).0
    }
}

/// The action that the event `events[at]` leads to, from the start.
pub open spec fn child_action_at(events: Seq<ChildEvent>, at: int) -> ChildAction {
    child_step(child_state_after(events, at), events[at]).1
}

/// The step that follows `event` in `state`.
pub fn next_child_step(state: ChildState, event: ChildEvent) -> (r: (ChildState, ChildAction))
    ensures
        r == child_step(state, event),
{
    match (state, event) {
        (ChildState::Start, ChildEvent::Begin) => (ChildState::Creating, ChildAction::Create),
        (ChildState::Creating, ChildEvent::Created(true)) => (
            ChildState::Suspended,
            ChildAction::InstallHandler,
        ),
        (ChildState::Creating, ChildEvent::Created(false)) => (
            ChildState::Failed,
            ChildAction::Abort,
        ),
        (ChildState::Suspended, ChildEvent::HandlerInstalled(guarded)) => (
            ChildState::Guarded,
            ChildAction::Resume { guarded },
        ),
        (ChildState::Guarded, ChildEvent::Resumed) => (ChildState::Running, ChildAction::Wait),
        (ChildState::Running, ChildEvent::Exited) => (
            ChildState::Ended,
            ChildAction::ReadExitCode,
        ),
        (ChildState::Ended, ChildEvent::ExitCode(code)) => (
            ChildState::Done,
            ChildAction::Finish(code),
        ),
        _ => (state, ChildAction::Ignore),
    }
}

/// The child is suspended only after the action that installs the handler
/// was given.
proof fn lemma_child_history(events: Seq<ChildEvent>, count: int)
    requires
        0 <= count <= events.len(),
    ensures
        child_state_after(events, count) is Suspended ==> exists|j: int|
            0 <= j < count && #[trigger] child_action_at(events, j) is InstallHandler,
    decreases count,
{
    if count > 0 {
        let before = child_state_after(events, count - 1);
        if child_state_after(events, count) is Suspended {
            if before is Suspended {
                lemma_child_history(events, count - 1);
                let j = choose|j: int|
                    0 <= j < count - 1 && #[trigger] child_action_at(events, j) is InstallHandler;
                assert(0 <= j < count);
            } else {
                assert(child_action_at(events, count - 1) is InstallHandler);
            }
        }
    }
}

/// Whatever happens, the child is let run only after the handler for
/// control signals was asked to be installed: in every course of events, an
/// action that resumes the child comes later than one that installs the
/// handler, and it is the answer to the report on that handler.
pub proof fn law_handler_before_resume(events: Seq<ChildEvent>, at: int)
    requires
        0 <= at < events.len(),
        child_action_at(events, at) is Resume,
    ensures
        events[at] is HandlerInstalled,
        exists|j: int| 0 <= j < at && #[trigger] child_action_at(events, j) is InstallHandler,
{
    lemma_child_history(events, at);
}

/// The launcher ends with the exit status of the child, exactly: the
/// status that is read is the one that the last action carries.
pub proof fn law_exit_code_is_kept(state: ChildState, code: u32)
    ensures
        child_step(state, ChildEvent::ExitCode(code)).1 is Finish ==> child_step(
            state,
            ChildEvent::ExitCode(code),
        ).1 == ChildAction::Finish(code),
{
}

} // verus!
