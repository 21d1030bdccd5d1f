//! The actions, and the command line that selects them.
use vstd::prelude::*;
use crate::text::same;

verus! {

/// What to do with the strip.
#[derive(Clone, Copy, PartialEq, Eq, Debug, Structural)]
pub enum Action {
    Status,
    Color,
    Warm,
    Toggle,
    Brighter,
    Dimmer,
}

impl Action {
    /// The word that selects the action.
    pub open spec fn word(self) -> Seq<char> {
        match self {
            Action::Status => "status"@,
            Action::Color => "color"@,
            Action::Warm => "warm"@,
            Action::Toggle => "toggle"@,
            Action::Brighter => "brighter"@,
            Action::Dimmer => "dimmer"@,
        }
    }

    /// The action that a word selects, if any.
    pub open spec fn selected(word: Seq<char>) -> Option<Action> {
        if word == "status"@ {
            Some(Action::Status)
        } else if word == "color"@ {
            Some(Action::Color)
        } else if word == "warm"@ {
            Some(Action::Warm)
        } else if word == "toggle"@ {
            Some(Action::Toggle)
        } else if word == "brighter"@ {
            Some(Action::Brighter)
        } else if word == "dimmer"@ {
            Some(Action::Dimmer)
        } else {
            None
        }
    }

    /// Finds the action that a word selects.
    pub fn parse(s: &str) -> (r: Option<Self>)
        ensures
            r == Action::selected(s@),
    {
        if same(s, "status") {
            Some(Action::Status)
        } else if same(s, "color") {
            Some(Action::Color)
        } else if same(s, "warm") {
            Some(Action::Warm)
        } else if same(s, "toggle") {
            Some(Action::Toggle)
        } else if same(s, "brighter") {
            Some(Action::Brighter)
        } else if same(s, "dimmer") {
            Some(Action::Dimmer)
        } else {
            None
        }
    }
}

/// A word selects an action exactly when it is the action's own word.
pub proof fn word_selects_its_action(word: Seq<char>, action: Action)
    ensures
        Action::selected(word) == Some(action) <==> word == action.word(),
{
    reveal_strlit("status");
    reveal_strlit("color");
    reveal_strlit("warm");
    reveal_strlit("toggle");
    reveal_strlit("brighter");
    reveal_strlit("dimmer");
    assert("status"@[0] == 's');
    assert("color"@[0] == 'c');
    assert("warm"@[0] == 'w');
    assert("toggle"@[0] == 't');
    assert("brighter"@[0] == 'b');
    assert("dimmer"@[0] == 'd');
}

/// The usage text.
pub const USAGE: &'static str = "waybar-tapo [status|color|warm|toggle|brighter|dimmer]\nwaybar-tapo --import-config PATH\nwaybar-tapo --set-ip ADDRESS";

/// The message for a command line that selects nothing.
pub const UNKNOWN_ACTION: &'static str = "Unknown action. Use --help.";

/// What a command line asks for.
#[derive(Debug)]
pub enum Command {
    /// Import the configuration file at a path.
    ImportConfig(String),
    /// Change the address of the strip.
    SetIp(String),
    /// Print the usage text.
    Help,
    /// Perform an action.
    Run(Action),
    /// Nothing that is known.
    Unknown,
}

/// The model of a [`Command`].
pub enum CommandView {
    ImportConfig(Seq<char>),
    SetIp(Seq<char>),
    Help,
    Run(Action),
    Unknown,
}

impl View for Command {
    type V = CommandView;

    open spec fn view(&self) -> CommandView {
        match self {
            Command::ImportConfig(path) => CommandView::ImportConfig(path@),
            Command::SetIp(value) => CommandView::SetIp(value@),
            Command::Help => CommandView::Help,
            Command::Run(action) => CommandView::Run(*action),
            Command::Unknown => CommandView::Unknown,
        }
    }
}

/// What the arguments after the program name ask for. Without arguments it is the status.
pub open spec fn command(args: Seq<Seq<char>>) -> CommandView {
    if args.len() == 0 {
        CommandView::Run(Action::Status)
    } else if args.len() == 2 && args[0] == "--import-config"@ {
        CommandView::ImportConfig(args[1])
    } else if args.len() == 2 && args[0] == "--set-ip"@ {
        CommandView::SetIp(args[1])
    } else if args[0] == "--help"@ {
        CommandView::Help
    } else if args.len() == 1 && Action::selected(args[0]) is Some {
        CommandView::Run(Action::selected(args[0])->0)
    } else {
        CommandView::Unknown
    }
}

/// The texts of some strings.
pub open spec fn texts(args: Seq<String>) -> Seq<Seq<char>> {
    args.map_values(|arg: String| arg@)
}

impl Command {
    /// Reads the arguments after the program name.
    pub fn parse(args: &Vec<String>) -> (r: Command)
        ensures
            r@ == command(texts(args@)),
            r matches Command::ImportConfig(path) ==> args@.len() == 2 && path@ == args@[1]@,
            r matches Command::SetIp(value) ==> args@.len() == 2 && value@ == args@[1]@,
    {
        if args.len() == 0 {
            return Command::Run(Action::Status);
        }
        let first: &str = args[0].as_str();
        if args.len() == 2 && same(first, "--import-config") {
            return Command::ImportConfig(args[1].clone());
        }
        if args.len() == 2 && same(first, "--set-ip") {
            return Command::SetIp(args[1].clone());
        }
        if same(first, "--help") {
            return Command::Help;
        }
        match Action::parse(first) {
            Some(action) => if args.len() == 1 {
                Command::Run(action)
            } else {
                Command::Unknown
            },
            None => Command::Unknown,
        }
    }
}

/// A command line whose only argument is the word of an action runs just that action.
pub proof fn a_word_alone_runs_its_action(action: Action)
    ensures
        command(seq![action.word()]) == CommandView::Run(action),
        action.word() == match action {
            Action::Status => "status"@,
            Action::Color => "color"@,
            Action::Warm => "warm"@,
            Action::Toggle => "toggle"@,
            Action::Brighter => "brighter"@,
            Action::Dimmer => "dimmer"@,
        },
{
    commands_are_what_was_typed(seq![action.word()], action, seq![]);
}

/// A command line asks for an action, an import, a change of address or the usage text only in
/// its own form, and what it names is taken verbatim: an action runs for its own word alone, or
/// for no argument at all if it is the status.
pub proof fn commands_are_what_was_typed(args: Seq<Seq<char>>, action: Action, text: Seq<char>)
    ensures
        command(args) == CommandView::Run(action) <==> (args.len() == 0 && action
            == Action::Status) || (args.len() == 1 && args[0] == action.word()),
        command(args) == CommandView::ImportConfig(text) <==> args.len() == 2 && args[0]
            == "--import-config"@ && args[1] == text,
        command(args) == CommandView::SetIp(text) <==> args.len() == 2 && args[0] == "--set-ip"@
            && args[1] == text,
        command(args) == CommandView::Help <==> args.len() > 0 && args[0] == "--help"@,
        command(args) == CommandView::Unknown <==> {
            &&& args.len() > 0
            &&& args[0] != "--help"@
            &&& args.len() == 2 ==> args[0] != "--import-config"@ && args[0] != "--set-ip"@
            &&& args.len() == 1 ==> forall|a: Action| args[0] != #[trigger] a.word()
        },
{
    reveal_strlit("--import-config");
    reveal_strlit("--set-ip");
    reveal_strlit("--help");
    assert("--import-config"@[2] == 'i');
    assert("--set-ip"@[2] == 's');
    assert("--help"@[2] == 'h');
    assert("--help"@[0] == '-');
    assert("--help"@.len() == 6);
    assert forall|a: Action| args.len() == 1 implies (Action::selected(args[0]) == Some(a)
        <==> args[0] == #[trigger] a.word()) by {
        word_selects_its_action(args[0], a);
    }
    assert forall|a: Action| #[trigger] a.word() != "--help"@ by {
        words_are_letters(a);
    }
    if args.len() == 1 {
        if let Some(a) = Action::selected(args[0]) {
            assert(args[0] == a.word());
        }
    }
}

proof fn words_are_letters(action: Action)
    ensures
        action.word().len() > 0,
        action.word()[0] != '-',
{
    reveal_strlit("status");
    reveal_strlit("color");
    reveal_strlit("warm");
    reveal_strlit("toggle");
    reveal_strlit("brighter");
    reveal_strlit("dimmer");
    assert("status"@[0] == 's');
    assert("color"@[0] == 'c');
    assert("warm"@[0] == 'w');
    assert("toggle"@[0] == 't');
    assert("brighter"@[0] == 'b');
    assert("dimmer"@[0] == 'd');
}

/// The texts of the arguments are those of the strings, one by one.
pub proof fn arguments_are_taken_verbatim(args: Seq<String>, i: int)
    requires
        0 <= i < args.len(),
    ensures
        texts(args).len() == args.len(),
        texts(args)[i] == args[i]@,
{
}

/// The models of commands are those of what they hold.
pub proof fn commands_are_what_they_hold(text: String, action: Action)
    ensures
        Command::ImportConfig(text)@ == CommandView::ImportConfig(text@),
        Command::SetIp(text)@ == CommandView::SetIp(text@),
        Command::Help@ == CommandView::Help,
        Command::Run(action)@ == CommandView::Run(action),
        Command::Unknown@ == CommandView::Unknown,
{
}

} // verus!
