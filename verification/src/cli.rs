use vstd::prelude::*;

use crate::text::str_eq;

verus! {

/// `-s` or `--screenshot`: take a screenshot.
pub open spec fn is_screenshot_flag(arg: Seq<char>) -> bool {
    arg == seq!['-', 's'] || arg == seq!['-', '-', 's', 'c', 'r', 'e', 'e', 'n', 's', 'h', 'o', 't']
}

/// `-n` or `--no-window`: show no window.
pub open spec fn is_no_window_flag(arg: Seq<char>) -> bool {
    arg == seq!['-', 'n'] || arg == seq!['-', '-', 'n', 'o', '-', 'w', 'i', 'n', 'd', 'o', 'w']
}

/// `-h` or `--help`.
pub open spec fn is_help_flag(arg: Seq<char>) -> bool {
    arg == seq!['-', 'h'] || arg == seq!['-', '-', 'h', 'e', 'l', 'p']
}

/// Some argument asks for help.
pub open spec fn asks_for_help(args: Seq<String>) -> bool {
    exists|i: int| 0 <= i < args.len() && is_help_flag(#[trigger] args[i]@)
}

/// Some argument asks for a screenshot.
pub open spec fn asks_for_screenshot(args: Seq<String>) -> bool {
    exists|i: int| 0 <= i < args.len() && is_screenshot_flag(#[trigger] args[i]@)
}

/// Some argument asks for no window.
pub open spec fn asks_for_no_window(args: Seq<String>) -> bool {
    exists|i: int| 0 <= i < args.len() && is_no_window_flag(#[trigger] args[i]@)
}

/// What a remote instance does with its command line before handing it on.
#[derive(Clone, Copy, Debug, PartialEq, Eq, Structural)]
pub enum LocalCommandLine {
    /// Print the usage and exit successfully.
    ShowHelp,
    /// `--screenshot` and `--no-window` were both given: print the usage and fail.
    MutuallyExclusive,
    /// Hand the command line on to the primary instance.
    Proceed,
}

/// What the arguments ask of the application.
#[derive(Clone, Copy, Debug, PartialEq, Eq, Structural)]
pub struct Launch {
    pub show_main_window: bool,
    pub take_screenshot: bool,
}

/// What the application does once activated.
#[derive(Clone, Copy, Debug, PartialEq, Eq, Structural)]
pub enum Activation {
    /// Open the editor on a new screenshot.
    OpenEditor,
    /// Present the main window.
    PresentMainWindow,
    Nothing,
}

/// The launch that `args` ask for when the application was already set to take a
/// screenshot or not: each `--no-window` drops both the window and the screenshot, each
/// `--screenshot` asks for a screenshot without the window, the last flag winning.
pub open spec fn launch_for(args: Seq<String>, take_screenshot: bool) -> Launch
    decreases args.len(),
{
    if args.len() == 0 {
        Launch { show_main_window: true, take_screenshot }
    } else {
        let before = launch_for(args.drop_last(), take_screenshot);
        let arg = args.last()@;
        if is_no_window_flag(arg) {
            Launch { show_main_window: false, take_screenshot: false }
        } else if is_screenshot_flag(arg) {
            Launch { show_main_window: false, take_screenshot: true }
        } else {
            before
        }
    }
}

fn screenshot_flag(arg: &str) -> (flag: bool)
    ensures
        flag == is_screenshot_flag(arg@),
{
    proof {
        reveal_strlit("-s");
        reveal_strlit("--screenshot");
        assert("-s"@ =~= seq!['-', 's']);
        assert("--screenshot"@ =~= seq!['-', '-', 's', 'c', 'r', 'e', 'e', 'n', 's', 'h', 'o', 't']);
    }
    str_eq(arg, "-s") || str_eq(arg, "--screenshot")
}

fn no_window_flag(arg: &str) -> (flag: bool)
    ensures
        flag == is_no_window_flag(arg@),
{
    proof {
        reveal_strlit("-n");
        reveal_strlit("--no-window");
        assert("-n"@ =~= seq!['-', 'n']);
        assert("--no-window"@ =~= seq!['-', '-', 'n', 'o', '-', 'w', 'i', 'n', 'd', 'o', 'w']);
    }
    str_eq(arg, "-n") || str_eq(arg, "--no-window")
}

fn help_flag(arg: &str) -> (flag: bool)
    ensures
        flag == is_help_flag(arg@),
{
    proof {
        reveal_strlit("-h");
        reveal_strlit("--help");
        assert("-h"@ =~= seq!['-', 'h']);
        assert("--help"@ =~= seq!['-', '-', 'h', 'e', 'l', 'p']);
    }
    str_eq(arg, "-h") || str_eq(arg, "--help")
}

/// Decides, in a remote instance, what to do with `arguments`: help comes first, and
/// `--screenshot` and `--no-window` are mutually exclusive.
pub fn local_command_line(arguments: &Vec<String>) -> (decision: LocalCommandLine)
    ensures
        decision == if asks_for_help(arguments@) {
            LocalCommandLine::ShowHelp
        } else if asks_for_screenshot(arguments@) && asks_for_no_window(arguments@) {
            LocalCommandLine::MutuallyExclusive
        } else {
            LocalCommandLine::Proceed
        },
{
    let mut help = false;
    let mut screenshot = false;
    let mut no_window = false;
    let mut i: usize = 0;
    while i < arguments.len()
        invariant
            i <= arguments@.len(),
            help == exists|j: int| 0 <= j < i && is_help_flag(#[trigger] arguments@[j]@),
            screenshot == exists|j: int| 0 <= j < i && is_screenshot_flag(#[trigger] arguments@[j]@),
            no_window == exists|j: int| 0 <= j < i && is_no_window_flag(#[trigger] arguments@[j]@),
        decreases arguments.len() - i,
    {
        let arg = arguments[i].as_str();
        if help_flag(arg) {
            help = true;
        }
        if screenshot_flag(arg) {
            screenshot = true;
        }
        if no_window_flag(arg) {
            no_window = true;
        }
        i = i + 1;
    }
    if help {
        LocalCommandLine::ShowHelp
    } else if screenshot && no_window {
        LocalCommandLine::MutuallyExclusive
    } else {
        LocalCommandLine::Proceed
    }
}

/// Reads, in the primary instance, what `arguments` ask for; `take_screenshot` is
/// whether a screenshot was already asked for.
pub fn command_line(arguments: &Vec<String>, take_screenshot: bool) -> (launch: Launch)
    ensures
        launch == launch_for(arguments@, take_screenshot),
{
    let mut launch = Launch { show_main_window: true, take_screenshot };
    let mut i: usize = 0;
    while i < arguments.len()
        invariant
            i <= arguments@.len(),
            launch == launch_for(arguments@.subrange(0, i as int), take_screenshot),
        decreases arguments.len() - i,
    {
        proof {
            assert(arguments@.subrange(0, i + 1).drop_last() =~= arguments@.subrange(0, i as int));
        }
        let arg = arguments[i].as_str();
        if no_window_flag(arg) {
            launch = Launch { show_main_window: false, take_screenshot: false };
        } else if screenshot_flag(arg) {
            launch = Launch { show_main_window: false, take_screenshot: true };
        }
        i = i + 1;
    }
    assert(arguments@.subrange(0, arguments@.len() as int) =~= arguments@);
    launch
}

/// Acts on an activation: a pending screenshot opens the editor, else a pending main
/// window is presented; what was done is no longer pending.
pub fn activate(launch: &mut Launch) -> (activation: Activation)
    ensures
        old(launch).take_screenshot ==> activation == Activation::OpenEditor && *final(launch)
            == (Launch { take_screenshot: false, ..*old(launch) }),
        !old(launch).take_screenshot && old(launch).show_main_window ==> activation
            == Activation::PresentMainWindow && *final(launch) == (Launch {
            show_main_window: false,
            ..*old(launch)
        }),
        !old(launch).take_screenshot && !old(launch).show_main_window ==> activation
            == Activation::Nothing && *final(launch) == *old(launch),
{
    if launch.take_screenshot {
        launch.take_screenshot = false;
        Activation::OpenEditor
    } else if launch.show_main_window {
        launch.show_main_window = false;
        Activation::PresentMainWindow
    } else {
        Activation::Nothing
    }
}

/// A screenshot flag is never a no-window flag.
proof fn lemma_screenshot_flag_is_not_no_window(arg: Seq<char>)
    requires
        is_screenshot_flag(arg),
    ensures
        !is_no_window_flag(arg),
{
    if arg == seq!['-', 's'] {
        assert(arg[1] == 's');
        assert(seq!['-', 'n'][1] == 'n');
        assert(arg.len() == 2);
        assert(seq!['-', '-', 'n', 'o', '-', 'w', 'i', 'n', 'd', 'o', 'w'].len() == 11);
    } else {
        assert(arg.len() == 12);
        assert(seq!['-', 'n'].len() == 2);
        assert(seq!['-', '-', 'n', 'o', '-', 'w', 'i', 'n', 'd', 'o', 'w'].len() == 11);
    }
}

/// Whatever came before, arguments that end in `-s` or `--screenshot` ask for a screenshot
/// and no main window.
pub proof fn lemma_last_screenshot_flag_wins(args: Seq<String>, arg: String, take_screenshot: bool)
    requires
        arg@ == seq!['-', 's'] || arg@ == seq!['-', '-', 's', 'c', 'r', 'e', 'e', 'n', 's', 'h', 'o', 't'],
    ensures
        launch_for(args.push(arg), take_screenshot) == (Launch {
            show_main_window: false,
            take_screenshot: true,
        }),
{
    lemma_screenshot_flag_is_not_no_window(arg@);
    assert(args.push(arg).last() == arg);
}

/// Whatever came before, arguments that end in `-n` or `--no-window` ask for neither a
/// screenshot nor the main window.
pub proof fn lemma_last_no_window_flag_wins(args: Seq<String>, arg: String, take_screenshot: bool)
    requires
        arg@ == seq!['-', 'n'] || arg@ == seq!['-', '-', 'n', 'o', '-', 'w', 'i', 'n', 'd', 'o', 'w'],
    ensures
        launch_for(args.push(arg), take_screenshot) == (Launch {
            show_main_window: false,
            take_screenshot: false,
        }),
{
    assert(args.push(arg).last() == arg);
}

/// An argument that is no flag changes nothing.
pub proof fn lemma_other_arguments_are_ignored(args: Seq<String>, arg: String, take_screenshot: bool)
    requires
        !is_screenshot_flag(arg@),
        !is_no_window_flag(arg@),
    ensures
        launch_for(args.push(arg), take_screenshot) == launch_for(args, take_screenshot),
{
    assert(args.push(arg).last() == arg);
    assert(args.push(arg).drop_last() =~= args);
}

/// Without arguments the main window opens, and a screenshot is taken only if one was
/// already asked for.
pub proof fn lemma_no_arguments(take_screenshot: bool)
    ensures
        launch_for(Seq::<String>::empty(), take_screenshot) == (Launch {
            show_main_window: true,
            take_screenshot,
        }),
{
}

/// The two spellings of the screenshot flag mean the same: replacing one by the other
/// (`-s` by `--screenshot`, or back) anywhere in the arguments gives the same launch.
pub proof fn lemma_screenshot_spellings_agree(
    args: Seq<String>,
    i: int,
    other: String,
    take_screenshot: bool,
)
    requires
        0 <= i < args.len(),
        is_screenshot_flag(args[i]@),
        is_screenshot_flag(other@),
    ensures
        launch_for(args.update(i, other), take_screenshot) == launch_for(args, take_screenshot),
    decreases args.len(),
{
    let u = args.update(i, other);
    lemma_screenshot_flag_is_not_no_window(other@);
    lemma_screenshot_flag_is_not_no_window(args[i]@);
    if i == args.len() - 1 {
        assert(u.last() == other);
        assert(args.last() == args[i]);
    } else {
        assert(u.drop_last() =~= args.drop_last().update(i, other));
        assert(u.last() == args.last());
        lemma_screenshot_spellings_agree(args.drop_last(), i, other, take_screenshot);
    }
}

/// The two spellings of the no-window flag mean the same: replacing one by the other
/// anywhere in the arguments gives the same launch.
pub proof fn lemma_no_window_spellings_agree(
    args: Seq<String>,
    i: int,
    other: String,
    take_screenshot: bool,
)
    requires
        0 <= i < args.len(),
        is_no_window_flag(args[i]@),
        is_no_window_flag(other@),
    ensures
        launch_for(args.update(i, other), take_screenshot) == launch_for(args, take_screenshot),
    decreases args.len(),
{
    let u = args.update(i, other);
    if i == args.len() - 1 {
        assert(u.last() == other);
        assert(args.last() == args[i]);
    } else {
        assert(u.drop_last() =~= args.drop_last().update(i, other));
        assert(u.last() == args.last());
        lemma_no_window_spellings_agree(args.drop_last(), i, other, take_screenshot);
    }
}

} // verus!
