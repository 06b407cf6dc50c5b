use vstd::prelude::*;

use crate::text::str_eq;
use crate::window::WindowCommand;

verus! {

/// Actions that can be triggered from the command line. On GNOME Wayland
/// the in-app global shortcuts are unavailable, so users bind a system
/// keyboard shortcut to `saladict --selection-translate` or another flag.
#[derive(Debug, Clone, Copy, PartialEq, Eq, Structural)]
pub enum CliAction {
    SelectionTranslate,
    InputTranslate,
    OcrRecognize,
    OcrTranslate,
    Config,
    NoAction,
}

/// The command-line arguments as texts.
pub open spec fn args_view(args: Seq<String>) -> Seq<Seq<char>> {
    args.map_values(|a: String| a@)
}

/// Whether some argument is the long or the short form of a flag.
pub open spec fn has_flag(args: Seq<Seq<char>>, long: Seq<char>, short: Seq<char>) -> bool {
    exists|i: int| 0 <= i < args.len() && (args[i] == long || args[i] == short)
}

/// The action that a list of arguments asks for: the first flag of the
/// list `--selection-translate`/`-s`, `--input-translate`/`-i`,
/// `--ocr-recognize`/`-r`, `--ocr-translate`/`-t`, `--config`/`-c` that
/// occurs anywhere among the arguments. Without any flag (a click on the
/// desktop launcher) the default action opens the input translation window,
/// so that the launcher brings up the translate popup.
pub open spec fn cli_action_of(args: Seq<Seq<char>>) -> CliAction {
    if has_flag(args, "--selection-translate"@, "-s"@) {
        CliAction::SelectionTranslate
    } else if has_flag(args, "--input-translate"@, "-i"@) {
        CliAction::InputTranslate
    } else if has_flag(args, "--ocr-recognize"@, "-r"@) {
        CliAction::OcrRecognize
    } else if has_flag(args, "--ocr-translate"@, "-t"@) {
        CliAction::OcrTranslate
    } else if has_flag(args, "--config"@, "-c"@) {
        CliAction::Config
    } else {
        CliAction::InputTranslate
    }
}

/// Whether some argument equals `long` or `short`.
fn any_arg_is(args: &[String], long: &str, short: &str) -> (r: bool)
    ensures
        r == has_flag(args_view(args@), long@, short@),
{
    let n = args.len();
    for i in 0..n
        invariant
            n == args@.len(),
            forall|j: int|
                0 <= j < i ==> !(#[trigger] args@[j]@ == long@ || args@[j]@ == short@),
    {
        let a = args[i].as_str();
        if str_eq(a, long) || str_eq(a, short) {
            assert(args_view(args@)[i as int] == args@[i as int]@);
            return true;
        }
    }
    assert forall|j: int| 0 <= j < args_view(args@).len() implies !(args_view(args@)[j] == long@
        || args_view(args@)[j] == short@) by {
        assert(args_view(args@)[j] == args@[j]@);
    }
    false
}

/// Parses the command-line arguments (program name included) into the action
/// they ask for.
pub fn parse_from(args: &[String]) -> (r: CliAction)
    ensures
        r == cli_action_of(args_view(args@)),
        has_flag(args_view(args@), "--selection-translate"@, "-s"@) ==> r
            == CliAction::SelectionTranslate,
{
    if any_arg_is(args, "--selection-translate", "-s") {
        return CliAction::SelectionTranslate;
    }
    if any_arg_is(args, "--input-translate", "-i") {
        return CliAction::InputTranslate;
    }
    if any_arg_is(args, "--ocr-recognize", "-r") {
        return CliAction::OcrRecognize;
    }
    if any_arg_is(args, "--ocr-translate", "-t") {
        return CliAction::OcrTranslate;
    }
    if any_arg_is(args, "--config", "-c") {
        return CliAction::Config;
    }
    CliAction::InputTranslate
}

/// The window that a command-line action opens once the application runs;
/// `NoAction` opens nothing.
pub open spec fn cli_window_of(action: CliAction) -> Option<WindowCommand> {
    match action {
        CliAction::SelectionTranslate => Some(WindowCommand::SelectionTranslate),
        CliAction::InputTranslate => Some(WindowCommand::InputTranslate),
        CliAction::OcrRecognize => Some(WindowCommand::OcrRecognize),
        CliAction::OcrTranslate => Some(WindowCommand::OcrTranslate),
        CliAction::Config => Some(WindowCommand::Config),
        CliAction::NoAction => None,
    }
}

/// The window that running a command-line action opens.
pub fn cli_window(action: CliAction) -> (r: Option<WindowCommand>)
    ensures
        r == cli_window_of(action),
        action == CliAction::SelectionTranslate ==> r == Some(WindowCommand::SelectionTranslate),
        action == CliAction::InputTranslate ==> r == Some(WindowCommand::InputTranslate),
        action == CliAction::OcrRecognize ==> r == Some(WindowCommand::OcrRecognize),
        action == CliAction::OcrTranslate ==> r == Some(WindowCommand::OcrTranslate),
        action == CliAction::Config ==> r == Some(WindowCommand::Config),
        action == CliAction::NoAction ==> r is None,
{
    match action {
        CliAction::SelectionTranslate => Some(WindowCommand::SelectionTranslate),
        CliAction::InputTranslate => Some(WindowCommand::InputTranslate),
        CliAction::OcrRecognize => Some(WindowCommand::OcrRecognize),
        CliAction::OcrTranslate => Some(WindowCommand::OcrTranslate),
        CliAction::Config => Some(WindowCommand::Config),
        CliAction::NoAction => None,
    }
}

/// The action only depends on which arguments occur, not on their order or
/// repetition: two argument lists with the same members ask for the same
/// action.
pub proof fn law_parse_ignores_order(a: Seq<Seq<char>>, b: Seq<Seq<char>>)
    requires
        forall|x: Seq<char>| a.contains(x) <==> b.contains(x),
    ensures
        cli_action_of(a) == cli_action_of(b),
{
    assert forall|long: Seq<char>, short: Seq<char>| has_flag(a, long, short) == has_flag(b, long, short) by {
        if has_flag(a, long, short) {
            let i = choose|i: int| 0 <= i < a.len() && (a[i] == long || a[i] == short);
            assert(a.contains(a[i]));
            assert(b.contains(a[i]));
        }
        if has_flag(b, long, short) {
            let i = choose|i: int| 0 <= i < b.len() && (b[i] == long || b[i] == short);
            assert(b.contains(b[i]));
            assert(a.contains(b[i]));
        }
    }
}

/// The position, in the priority list, of the first flag that occurs among
/// the arguments; 5 when none occurs.
pub open spec fn flag_rank(args: Seq<Seq<char>>) -> int {
    if has_flag(args, "--selection-translate"@, "-s"@) {
        0
    } else if has_flag(args, "--input-translate"@, "-i"@) {
        1
    } else if has_flag(args, "--ocr-recognize"@, "-r"@) {
        2
    } else if has_flag(args, "--ocr-translate"@, "-t"@) {
        3
    } else if has_flag(args, "--config"@, "-c"@) {
        4
    } else {
        5
    }
}

/// Adding arguments never moves the deciding flag further down the priority
/// list: the flag that decides for `a + extra` is `a`'s or one that wins over
/// it.
pub proof fn law_extra_args_never_lower_priority(a: Seq<Seq<char>>, extra: Seq<Seq<char>>)
    ensures
        flag_rank(a + extra) <= flag_rank(a),
{
    let b = a + extra;
    assert forall|long: Seq<char>, short: Seq<char>| has_flag(a, long, short) implies has_flag(
        b,
        long,
        short,
    ) by {
        let i = choose|i: int| 0 <= i < a.len() && (a[i] == long || a[i] == short);
        assert(b[i] == a[i]);
    }
}

/// A launch without any flag (the desktop launcher) opens the input
/// translation window.
pub proof fn law_no_flag_opens_input_translate(args: Seq<Seq<char>>)
    requires
        flag_rank(args) == 5,
    ensures
        cli_action_of(args) == CliAction::InputTranslate,
        cli_window_of(cli_action_of(args)) == Some(WindowCommand::InputTranslate),
{
}

/// Whether an argument is one of the ten flags.
pub open spec fn is_flag(x: Seq<char>) -> bool {
    ||| x == "--selection-translate"@
    ||| x == "-s"@
    ||| x == "--input-translate"@
    ||| x == "-i"@
    ||| x == "--ocr-recognize"@
    ||| x == "-r"@
    ||| x == "--ocr-translate"@
    ||| x == "-t"@
    ||| x == "--config"@
    ||| x == "-c"@
}

/// The flags decide the action, in priority order, whatever else the
/// arguments hold: a selection flag always gives `SelectionTranslate`; else an
/// input flag `InputTranslate`; else a recognize flag `OcrRecognize`; else a
/// screenshot-translate flag `OcrTranslate`; else a config flag `Config`;
/// and with no flag at all the action is `InputTranslate`.
pub proof fn law_flags_decide_the_action(args: Seq<Seq<char>>)
    ensures
        has_flag(args, "--selection-translate"@, "-s"@) ==> cli_action_of(args)
            == CliAction::SelectionTranslate,
        !has_flag(args, "--selection-translate"@, "-s"@) && has_flag(args, "--input-translate"@, "-i"@)
            ==> cli_action_of(args) == CliAction::InputTranslate,
        !has_flag(args, "--selection-translate"@, "-s"@) && !has_flag(args, "--input-translate"@, "-i"@)
            && has_flag(args, "--ocr-recognize"@, "-r"@) ==> cli_action_of(args)
            == CliAction::OcrRecognize,
        !has_flag(args, "--selection-translate"@, "-s"@) && !has_flag(args, "--input-translate"@, "-i"@)
            && !has_flag(args, "--ocr-recognize"@, "-r"@) && has_flag(args, "--ocr-translate"@, "-t"@)
            ==> cli_action_of(args) == CliAction::OcrTranslate,
        !has_flag(args, "--selection-translate"@, "-s"@) && !has_flag(args, "--input-translate"@, "-i"@)
            && !has_flag(args, "--ocr-recognize"@, "-r"@) && !has_flag(args, "--ocr-translate"@, "-t"@)
            && has_flag(args, "--config"@, "-c"@) ==> cli_action_of(args) == CliAction::Config,
        (forall|i: int| 0 <= i < args.len() ==> !is_flag(#[trigger] args[i])) ==> cli_action_of(args)
            == CliAction::InputTranslate,
{
    if forall|i: int| 0 <= i < args.len() ==> !is_flag(#[trigger] args[i]) {
        assert(!has_flag(args, "--selection-translate"@, "-s"@));
        assert(!has_flag(args, "--input-translate"@, "-i"@));
        assert(!has_flag(args, "--ocr-recognize"@, "-r"@));
        assert(!has_flag(args, "--ocr-translate"@, "-t"@));
        assert(!has_flag(args, "--config"@, "-c"@));
    }
}

/// An argument that is not a flag (the program path, a file name, anything
/// else) never changes the action.
pub proof fn law_non_flag_argument_ignored(args: Seq<Seq<char>>, x: Seq<char>)
    requires
        !is_flag(x),
    ensures
        cli_action_of(args.push(x)) == cli_action_of(args),
        cli_action_of(seq![x] + args) == cli_action_of(args),
{
    let b = args.push(x);
    let c = seq![x] + args;
    assert forall|long: Seq<char>, short: Seq<char>|
        is_flag(long) && is_flag(short) implies has_flag(b, long, short) == has_flag(args, long, short)
        && has_flag(c, long, short) == has_flag(args, long, short) by {
        if has_flag(args, long, short) {
            let i = choose|i: int| 0 <= i < args.len() && (args[i] == long || args[i] == short);
            assert(b[i] == args[i]);
            assert(c[i + 1] == args[i]);
        }
        if has_flag(b, long, short) {
            let i = choose|i: int| 0 <= i < b.len() && (b[i] == long || b[i] == short);
            if i < args.len() {
                assert(b[i] == args[i]);
            }
        }
        if has_flag(c, long, short) {
            let i = choose|i: int| 0 <= i < c.len() && (c[i] == long || c[i] == short);
            if i > 0 {
                assert(c[i] == args[i - 1]);
            }
        }
    }
}

/// A single argument has a flag exactly when it is its long or short form.
proof fn lemma_single_argument(x: Seq<char>, long: Seq<char>, short: Seq<char>)
    ensures
        has_flag(seq![x], long, short) == (x == long || x == short),
{
    if x == long || x == short {
        assert(seq![x][0] == x);
    }
}

/// Each short flag on its own selects its action.
pub proof fn lemma_short_flag_alone()
    ensures
        cli_action_of(seq!["-i"@]) == CliAction::InputTranslate,
        cli_action_of(seq!["-r"@]) == CliAction::OcrRecognize,
        cli_action_of(seq!["-t"@]) == CliAction::OcrTranslate,
        cli_action_of(seq!["-c"@]) == CliAction::Config,
{
    reveal_strlit("-s");
    reveal_strlit("-i");
    reveal_strlit("-r");
    reveal_strlit("-t");
    reveal_strlit("-c");
    reveal_strlit("--selection-translate");
    reveal_strlit("--input-translate");
    reveal_strlit("--ocr-recognize");
    reveal_strlit("--ocr-translate");
    reveal_strlit("--config");
    let shorts = seq!["-s"@, "-i"@, "-r"@, "-t"@, "-c"@];
    let longs = seq!["--selection-translate"@, "--input-translate"@, "--ocr-recognize"@, "--ocr-translate"@];
    assert forall|a: int, b: int| 0 <= a < 5 && 0 <= b < 5 && a != b implies shorts[a] != shorts[b] by {
        assert(shorts[a][1] != shorts[b][1]);
    }
    assert forall|a: int, b: int| 0 <= a < 5 && 0 <= b < 4 implies shorts[a] != longs[b] by {
        assert(shorts[a].len() != longs[b].len());
    }
    let xs = seq!["-i"@, "-r"@, "-t"@, "-c"@];
    assert forall|k: int| 0 <= k < 4 implies {
        &&& has_flag(seq![xs[k]], "--selection-translate"@, "-s"@) == false
        &&& has_flag(seq![xs[k]], "--input-translate"@, "-i"@) == (k == 0)
        &&& has_flag(seq![xs[k]], "--ocr-recognize"@, "-r"@) == (k == 1)
        &&& has_flag(seq![xs[k]], "--ocr-translate"@, "-t"@) == (k == 2)
        &&& has_flag(seq![xs[k]], "--config"@, "-c"@) == (k == 3)
    } by {
        assert(xs[k] == shorts[k + 1]);
        assert(shorts[0] == "-s"@);
        assert(shorts[1] == "-i"@);
        assert(shorts[2] == "-r"@);
        assert(shorts[3] == "-t"@);
        assert(shorts[4] == "-c"@);
        assert(longs[0] == "--selection-translate"@);
        assert(longs[1] == "--input-translate"@);
        assert(longs[2] == "--ocr-recognize"@);
        assert(longs[3] == "--ocr-translate"@);
        assert(xs[k].len() != "--config"@.len());
        lemma_single_argument(xs[k], "--selection-translate"@, "-s"@);
        lemma_single_argument(xs[k], "--input-translate"@, "-i"@);
        lemma_single_argument(xs[k], "--ocr-recognize"@, "-r"@);
        lemma_single_argument(xs[k], "--ocr-translate"@, "-t"@);
        lemma_single_argument(xs[k], "--config"@, "-c"@);
    }
    assert(xs[0] == "-i"@);
    assert(xs[1] == "-r"@);
    assert(xs[2] == "-t"@);
    assert(xs[3] == "-c"@);
}

} // verus!
