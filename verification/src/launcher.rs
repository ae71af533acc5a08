//! The last step of a launch: what is done with the resolved options.
//! Printing, starting the runtime and reporting are left to the caller.

use vstd::prelude::*;
use crate::disk::{agrees, askable, Disk, Listing};
use crate::environment::Environment;
use crate::launch_options::{
    new, new_outcome, outcome_of, resolve, resolve_outcome, resolved, resolved_from, LaunchError,
    LaunchErrorKind, LaunchOptions, LaunchOptionsView,
};
use crate::assembly::command_line_of;
use crate::text::{extend_texts, lemma_texts_empty, opt_text, push_text, texts};

verus! {

/// The class that stands between the launcher and a Nailgun server.
pub const NAILGUN_CLIENT_CLASS: &'static str = "org.jruby.util.NailMain";

/// The exit status of a launch that only printed its command.
pub const EXIT_PRINTED: u32 = 0;

/// The exit status of a launch that was given up before the runtime was
/// started.
pub const EXIT_FAILED: u32 = 1;

/// What the launcher does once the options are resolved.
#[derive(Debug)]
pub enum LaunchAction {
    /// Print the command, the Java command first, and start nothing.
    Print(Vec<String>),
    /// Start the Java command with the arguments.
    Execute(String, Vec<String>),
    /// Report the error and give up.
    ReportError(LaunchError),
}

/// What a `LaunchAction` holds, as plain mathematical values.
pub enum LaunchActionView {
    Print(Seq<Seq<char>>),
    Execute(Seq<char>, Seq<Seq<char>>),
    ReportError(LaunchErrorKind),
}

impl View for LaunchAction {
    type V = LaunchActionView;

    open spec fn view(&self) -> LaunchActionView {
        match self {
            LaunchAction::Print(command) => LaunchActionView::Print(texts(command@)),
            LaunchAction::Execute(java, arguments) => LaunchActionView::Execute(
                java@,
                texts(arguments@),
            ),
            LaunchAction::ReportError(error) => LaunchActionView::ReportError(error.kind),
        }
    }
}

/// The options as they are handed to the runtime: in Nailgun client mode
/// the client class comes before the arguments of the program.
pub open spec fn with_client(o: LaunchOptionsView) -> LaunchOptionsView {
    if o.nailgun_client {
        LaunchOptionsView { program_args: seq![NAILGUN_CLIENT_CLASS@] + o.program_args, ..o }
    } else {
        o
    }
}

/// What is done with the resolved options `o`: without a Java command the
/// launch is given up; in command-only mode the whole command is printed;
/// else the Java command is started.
pub open spec fn action_for(o: LaunchOptionsView) -> LaunchActionView {
    match o.runtime.java_location {
        None => LaunchActionView::ReportError(LaunchErrorKind::RuntimeVersionUnresolvable),
        Some(java) => if o.command_only {
            LaunchActionView::Print(seq![java] + command_line_of(with_client(o)))
        } else {
            LaunchActionView::Execute(java, command_line_of(with_client(o)))
        },
    }
}

/// What is done after a resolution: with its options what `action_for`
/// says, with its error the report of it.
pub open spec fn action_of(outcome: Result<LaunchOptionsView, LaunchErrorKind>)
    -> LaunchActionView {
    match outcome {
        Ok(options) => action_for(options),
        Err(kind) => LaunchActionView::ReportError(kind),
    }
}

/// What a launch in the environment `env` on `disk` does.
pub open spec fn launched(env: Environment, disk: Disk) -> LaunchActionView {
    action_of(resolved(env, disk))
}

/// The resolution of the classified options `o` may have ended with
/// `outcome`, told by the answers of the four functions alone, and `action`
/// is what is done after it.
pub open spec fn proceeded<
    E: Fn(&String) -> bool,
    R: Fn(&String) -> Option<String>,
    L: Fn(&String) -> Listing,
    N: Fn(&String, &String) -> bool,
>(
    exist_test: E,
    read: R,
    list: L,
    newer: N,
    o: LaunchOptionsView,
    env: Environment,
    outcome: Result<LaunchOptionsView, LaunchErrorKind>,
    action: LaunchActionView,
) -> bool {
    resolve_outcome(exist_test, read, list, newer, o, env, outcome) && action == action_of(
        outcome,
    )
}

/// The launch may have ended with `outcome`, told by the answers of the
/// four functions alone, and `action` is what is done after it.
pub open spec fn launch_outcome<
    E: Fn(&String) -> bool,
    R: Fn(&String) -> Option<String>,
    L: Fn(&String) -> Listing,
    N: Fn(&String, &String) -> bool,
>(
    exist_test: E,
    read: R,
    list: L,
    newer: N,
    env: Environment,
    outcome: Result<LaunchOptionsView, LaunchErrorKind>,
    action: LaunchActionView,
) -> bool {
    new_outcome(exist_test, read, list, newer, env, outcome) && action == action_of(outcome)
}

/// The exit status of the launcher after `action`, where `child` is the
/// status that the started runtime ended with.
pub open spec fn exit_status(action: LaunchActionView, child: u32) -> u32 {
    match action {
        LaunchActionView::Print(_) => EXIT_PRINTED,
        LaunchActionView::Execute(_, _) => child,
        LaunchActionView::ReportError(_) => EXIT_FAILED,
    }
}

/// What is done with the resolved `options`.
pub fn plan(options: LaunchOptions) -> (r: LaunchAction)
    ensures
        r@ == action_for(options@),
{
    let mut options = options;
    let java = match &options.runtime.java_location {
        Some(java) => java.as_str().to_owned(),
        None => {
            return LaunchAction::ReportError(
                LaunchError::new(LaunchErrorKind::RuntimeVersionUnresolvable),
            );
        },
    };
    if options.nailgun_client {
        let mut arguments: Vec<String> = Vec::new();
        proof {
            lemma_texts_empty();
        }
        push_text(&mut arguments, NAILGUN_CLIENT_CLASS);
        extend_texts(&mut arguments, &options.program_args);
        assert(texts(arguments@) =~= seq![NAILGUN_CLIENT_CLASS@] + texts(options.program_args@));
        options.program_args = arguments;
    }
    let arguments = options.command_line();
    if options.command_only {
        let mut command: Vec<String> = Vec::new();
        proof {
            lemma_texts_empty();
        }
        push_text(&mut command, java.as_str());
        extend_texts(&mut command, &arguments);
        assert(texts(command@) =~= seq![java@] + texts(arguments@));
        LaunchAction::Print(command)
    } else {
        LaunchAction::Execute(java, arguments)
    }
}

/// What is done after a resolution.
fn act(resolution: Result<LaunchOptions, LaunchError>) -> (r: LaunchAction)
    ensures
        r@ == action_of(outcome_of(resolution)),
{
    match resolution {
        Ok(options) => plan(options),
        Err(e) => LaunchAction::ReportError(e),
    }
}

/// Resolves a launch whose command line was classified into `options`, and
/// says what is to be done.
pub fn proceed<
    E: Fn(&String) -> bool + Copy,
    R: Fn(&String) -> Option<String>,
    L: Fn(&String) -> Listing + Copy,
    N: Fn(&String, &String) -> bool,
>(options: LaunchOptions, env: &Environment, exist_test: E, read: R, list: L, newer: N) -> (r:
    LaunchAction)
    requires
        askable(exist_test, read, list, newer),
    ensures
        exists|outcome: Result<LaunchOptionsView, LaunchErrorKind>| #[trigger]
            proceeded(exist_test, read, list, newer, options@, *env, outcome, r@),
        forall|disk: Disk| #[trigger]
            agrees(exist_test, read, list, newer, disk) ==> r@ == action_of(
                resolved_from(options@, *env, disk),
            ),
{
    let ghost classified = options@;
    let resolution = resolve(options, env, exist_test, read, list, newer);
    let ghost outcome = outcome_of(resolution);
    let r = act(resolution);
    assert(proceeded(exist_test, read, list, newer, classified, *env, outcome, r@));
    r
}

/// Resolves a launch and says what is to be done.
pub fn launch<
    E: Fn(&String) -> bool + Copy,
    R: Fn(&String) -> Option<String>,
    L: Fn(&String) -> Listing + Copy,
    N: Fn(&String, &String) -> bool,
>(env: &Environment, exist_test: E, read: R, list: L, newer: N) -> (r: LaunchAction)
    requires
        askable(exist_test, read, list, newer),
    ensures
        exists|outcome: Result<LaunchOptionsView, LaunchErrorKind>| #[trigger]
            launch_outcome(exist_test, read, list, newer, *env, outcome, r@),
        forall|disk: Disk| #[trigger]
            agrees(exist_test, read, list, newer, disk) ==> r@ == launched(*env, disk),
{
    let resolution = new(env, exist_test, read, list, newer);
    let ghost outcome = outcome_of(resolution);
    let r = act(resolution);
    assert(launch_outcome(exist_test, read, list, newer, *env, outcome, r@));
    r
}

/// The exit status of the launcher after `action`, where `child` is the
/// status that the started runtime ended with.
pub fn exit_code(action: &LaunchAction, child: u32) -> (r: u32)
    ensures
        r == exit_status(action@, child),
{
    match action {
        LaunchAction::Print(_) => EXIT_PRINTED,
        LaunchAction::Execute(_, _) => child,
        LaunchAction::ReportError(_) => EXIT_FAILED,
    }
}

} // verus!
