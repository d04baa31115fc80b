//! The console's commands, parsed.
//!
//! A console line, already split into lower-case words, becomes a command:
//! `discover [save]`, `list [clear]`, `save`, `load`, `send <node_name>
//! request|set <option> [args...]`, and the console's own `help`, `clear`
//! and `exit`.

use vstd::prelude::*;
use crate::commands::texts_of;
use crate::error::Error;
use crate::manager::{position_of_name, ModuleCommands, ModuleManager};
use crate::modules::ModuleView;
use crate::text::{ascii_upper, same_text};

verus! {

/// A console line: the command word and what follows it.
#[derive(Debug, Clone, PartialEq, Eq)]
pub struct Args {
    pub main_arg: String,
    pub sub_args: Vec<String>,
}

/// The characters of each word of a list.
pub open spec fn words_of(cmds: Seq<&str>) -> Seq<Seq<char>> {
    Seq::new(cmds.len(), |i: int| cmds[i]@)
}

impl Args {
    /// Splits the words of a line into the command word and the rest. A
    /// line without words has an empty command word.
    pub fn new(cmds: Vec<&str>) -> (args: Self)
        ensures
            args.main_arg@ == if cmds@.len() == 0 {
                Seq::<char>::empty()
            } else {
                cmds@[0]@
            },
            texts_of(args.sub_args@) == if cmds@.len() == 0 {
                Seq::<Seq<char>>::empty()
            } else {
                words_of(cmds@).skip(1)
            },
    {
        let mut subcmds: Vec<String> = Vec::new();
        if cmds.len() == 0 {
            return Self { main_arg: String::new(), sub_args: subcmds };
        }
        let mut i: usize = 1;
        while i < cmds.len()
            invariant
                1 <= i <= cmds@.len(),
                subcmds@.len() == i - 1,
                forall|k: int| 0 <= k < i - 1 ==> (#[trigger] subcmds@[k])@ == cmds@[k + 1]@,
            decreases cmds@.len() - i,
        {
            subcmds.push(cmds[i].to_owned());
            i = i + 1;
        }
        Self { main_arg: cmds[0].to_owned(), sub_args: subcmds }
    }
}

/// Whether one of the words is the given one.
pub open spec fn has_word(words: Seq<Seq<char>>, word: Seq<char>) -> bool {
    exists|i: int| 0 <= i < words.len() && #[trigger] words[i] == word
}

/// Whether one of the strings is the given word.
pub fn contains_word(words: &Vec<String>, word: &str) -> (r: bool)
    ensures
        r == has_word(texts_of(words@), word@),
{
    let mut i: usize = 0;
    while i < words.len()
        invariant
            i <= words@.len(),
            forall|k: int| 0 <= k < i ==> #[trigger] texts_of(words@)[k] != word@,
        decreases words@.len() - i,
    {
        if same_text(words[i].as_str(), word) {
            assert(texts_of(words@)[i as int] == word@);
            return true;
        }
        i = i + 1;
    }
    false
}

/// What a `send` line asks for.
#[derive(Debug, Clone, PartialEq, Eq)]
pub enum SendPlan {
    /// The option is not one the console knows: nothing is sent.
    Nothing,
    /// The commands are requested from the module, one after the other.
    Request { module_idx: usize, commands: Vec<ModuleCommands> },
    /// The module is told to set what the command names. `with_args` says
    /// whether the words of the line go along as arguments.
    SetValue { module_idx: usize, command: ModuleCommands, with_args: bool },
}

/// A `send` plan as a mathematical value.
pub enum SendPlanView {
    Nothing,
    Request { module_idx: usize, commands: Seq<ModuleCommands> },
    SetValue { module_idx: usize, command: ModuleCommands, with_args: bool },
}

impl View for SendPlan {
    type V = SendPlanView;

    open spec fn view(&self) -> SendPlanView {
        match *self {
            SendPlan::Nothing => SendPlanView::Nothing,
            SendPlan::Request { module_idx, commands } => SendPlanView::Request {
                module_idx,
                commands: commands@,
            },
            SendPlan::SetValue { module_idx, command, with_args } => SendPlanView::SetValue {
                module_idx,
                command,
                with_args,
            },
        }
    }
}

/// The commands that a request option stands for. `all` asks for
/// temperature and humidity, the clock and the distance, in this order; an
/// option the console does not know stands for none.
pub open spec fn request_commands(option: Seq<char>) -> Seq<ModuleCommands> {
    if option == "th"@ {
        seq![ModuleCommands::RequestTH]
    } else if option == "time"@ {
        seq![ModuleCommands::RequestTime]
    } else if option == "dist"@ {
        seq![ModuleCommands::RequestDist]
    } else if option == "motor"@ {
        seq![ModuleCommands::RequestMotor]
    } else if option == "all"@ {
        seq![ModuleCommands::RequestTH, ModuleCommands::RequestTime, ModuleCommands::RequestDist]
    } else if option == "invalid"@ {
        seq![ModuleCommands::InvalidCmd]
    } else {
        Seq::<ModuleCommands>::empty()
    }
}

/// The command that a set option stands for, if the console knows it.
pub open spec fn set_command(option: Seq<char>) -> Option<ModuleCommands> {
    if option == "time"@ {
        Some(ModuleCommands::SetTime)
    } else if option == "schedule"@ {
        Some(ModuleCommands::SetSchedule)
    } else if option == "motor"@ {
        Some(ModuleCommands::SetMotorTime)
    } else {
        None
    }
}

/// The index at which the module named by a `send` line stands, if any: the
/// first word after `send`, in ASCII upper case, is looked up.
pub open spec fn send_target(mods: Seq<ModuleView>, sub_args: Seq<Seq<char>>) -> Option<usize> {
    if sub_args.len() == 0 {
        None
    } else {
        position_of_name(mods, ascii_upper(sub_args[0]))
    }
}

/// What a `send` line asks for, given the index the node name was found
/// at. In order: fewer than three words after `send` are invalid arguments;
/// a name that no module has is `NoSuchModule`; an action that is neither
/// `request` nor `set` is invalid arguments; then the option decides. The
/// words go along with a set command exactly when there are more than three
/// of them.
pub open spec fn send_plan(sub_args: Seq<Seq<char>>, found: Option<usize>) -> Result<
    SendPlanView,
    Error,
> {
    if sub_args.len() < 3 {
        Err(Error::InvalidSubArgs)
    } else if found is None {
        Err(Error::NoSuchModule)
    } else if sub_args[1] != "request"@ && sub_args[1] != "set"@ {
        Err(Error::InvalidSubArgs)
    } else if sub_args[1] == "request"@ {
        if request_commands(sub_args[2]).len() == 0 {
            Ok(SendPlanView::Nothing)
        } else {
            Ok(
                SendPlanView::Request {
                    module_idx: found->0,
                    commands: request_commands(sub_args[2]),
                },
            )
        }
    } else {
        match set_command(sub_args[2]) {
            Some(command) => Ok(
                SendPlanView::SetValue { module_idx: found->0, command, with_args: sub_args.len() > 3 },
            ),
            None => Ok(SendPlanView::Nothing),
        }
    }
}

/// What a planner returns when the model says `expected`.
pub open spec fn planned_as(expected: Result<SendPlanView, Error>, r: Result<SendPlan, Error>) -> bool {
    match r {
        Ok(plan) => expected == Ok::<SendPlanView, Error>(plan@),
        Err(e) => expected == Err::<SendPlanView, Error>(e),
    }
}

/// Reads a request option.
fn parse_request_option(option: &str) -> (commands: Vec<ModuleCommands>)
    ensures
        commands@ == request_commands(option@),
{
    let mut commands: Vec<ModuleCommands> = Vec::new();
    if same_text(option, "th") {
        commands.push(ModuleCommands::RequestTH);
    } else if same_text(option, "time") {
        commands.push(ModuleCommands::RequestTime);
    } else if same_text(option, "dist") {
        commands.push(ModuleCommands::RequestDist);
    } else if same_text(option, "motor") {
        commands.push(ModuleCommands::RequestMotor);
    } else if same_text(option, "all") {
        commands.push(ModuleCommands::RequestTH);
        commands.push(ModuleCommands::RequestTime);
        commands.push(ModuleCommands::RequestDist);
    } else if same_text(option, "invalid") {
        commands.push(ModuleCommands::InvalidCmd);
    }
    commands
}

/// Reads a set option.
fn parse_set_option(option: &str) -> (command: Option<ModuleCommands>)
    ensures
        command == set_command(option@),
{
    if same_text(option, "time") {
        Some(ModuleCommands::SetTime)
    } else if same_text(option, "schedule") {
        Some(ModuleCommands::SetSchedule)
    } else if same_text(option, "motor") {
        Some(ModuleCommands::SetMotorTime)
    } else {
        None
    }
}

/// Works out what a `send` line asks of which module.
pub fn plan_send(manager: &ModuleManager, args: &Args) -> (r: Result<SendPlan, Error>)
    ensures
        planned_as(
            send_plan(texts_of(args.sub_args@), send_target(manager@, texts_of(args.sub_args@))),
            r,
        ),
{
    if args.sub_args.len() < 3 {
        return Err(Error::InvalidSubArgs);
    }
    let module_idx = match manager.get_module(args.sub_args[0].as_str()) {
        Some(module_idx) => module_idx,
        None => {
            return Err(Error::NoSuchModule);
        },
    };
    let action = args.sub_args[1].as_str();
    let option = args.sub_args[2].as_str();
    if same_text(action, "request") {
        let commands = parse_request_option(option);
        if commands.len() == 0 {
            Ok(SendPlan::Nothing)
        } else {
            Ok(SendPlan::Request { module_idx, commands })
        }
    } else if same_text(action, "set") {
        match parse_set_option(option) {
            Some(command) => Ok(
                SendPlan::SetValue { module_idx, command, with_args: args.sub_args.len() > 3 },
            ),
            None => Ok(SendPlan::Nothing),
        }
    } else {
        Err(Error::InvalidSubArgs)
    }
}

/// A console command.
#[derive(Debug, Clone, Copy, PartialEq, Eq, Structural)]
pub enum Command {
    /// Leave the console.
    Exit,
    /// Show the commands.
    Help,
    /// List the known modules, or forget them all.
    List { clear: bool },
    /// Clear the screen.
    Clear,
    /// Discover the modules in range, and save the registry afterwards if
    /// asked to.
    Discover { save: bool },
    /// Load the saved registry.
    Load,
    /// Save the registry.
    Save,
    /// Send a command to a module: see `plan_send`.
    Send,
}

/// The command that a line stands for: the command word decides, `list`
/// looks for `clear` and `discover` for `save` among the other words. A
/// line without a command word is empty input, an unknown word an invalid
/// command.
pub open spec fn command_of(main_arg: Seq<char>, sub_args: Seq<Seq<char>>) -> Result<Command, Error> {
    if main_arg.len() == 0 {
        Err(Error::EmptyInput)
    } else if main_arg == "exit"@ {
        Ok(Command::Exit)
    } else if main_arg == "help"@ {
        Ok(Command::Help)
    } else if main_arg == "list"@ {
        Ok(Command::List { clear: has_word(sub_args, "clear"@) })
    } else if main_arg == "clear"@ {
        Ok(Command::Clear)
    } else if main_arg == "discover"@ {
        Ok(Command::Discover { save: has_word(sub_args, "save"@) })
    } else if main_arg == "load"@ {
        Ok(Command::Load)
    } else if main_arg == "save"@ {
        Ok(Command::Save)
    } else if main_arg == "send"@ {
        Ok(Command::Send)
    } else {
        Err(Error::InvalidCommand)
    }
}

/// Tells which command a line stands for.
pub fn parse_command(args: &Args) -> (r: Result<Command, Error>)
    ensures
        r == command_of(args.main_arg@, texts_of(args.sub_args@)),
{
    let word = args.main_arg.as_str();
    if word.unicode_len() == 0 {
        Err(Error::EmptyInput)
    } else if same_text(word, "exit") {
        Ok(Command::Exit)
    } else if same_text(word, "help") {
        Ok(Command::Help)
    } else if same_text(word, "list") {
        Ok(Command::List { clear: contains_word(&args.sub_args, "clear") })
    } else if same_text(word, "clear") {
        Ok(Command::Clear)
    } else if same_text(word, "discover") {
        Ok(Command::Discover { save: contains_word(&args.sub_args, "save") })
    } else if same_text(word, "load") {
        Ok(Command::Load)
    } else if same_text(word, "save") {
        Ok(Command::Save)
    } else if same_text(word, "send") {
        Ok(Command::Send)
    } else {
        Err(Error::InvalidCommand)
    }
}

} // verus!
