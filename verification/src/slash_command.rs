//! The command handler: data model and the two entry points the host
//! editor calls, `complete_slash_command_argument` and `run_slash_command`.

use vstd::prelude::*;
use vstd::utf8::encode_utf8;

verus! {

/// A slash command as the host editor hands it over; the handler reads
/// only its name.
pub struct SlashCommand {
    pub name: String,
}

/// A candidate value for completing a command argument.
#[derive(Debug)]
pub struct SlashCommandArgumentCompletion {
    pub label: String,
    pub new_text: String,
    pub run_command: bool,
}

/// A labeled half-open byte range into the text of a command's output.
#[derive(Debug)]
pub struct SlashCommandOutputSection {
    pub range_start: usize,
    pub range_end: usize,
    pub label: String,
}

/// The output of a successful command: a text together with its labeled
/// sections.
#[derive(Debug)]
pub struct SlashCommandOutput {
    pub text: String,
    pub sections: Vec<SlashCommandOutputSection>,
}

/// The mathematical value of an output section.
pub struct SectionModel {
    pub range_start: int,
    pub range_end: int,
    pub label: Seq<char>,
}

/// The mathematical value of a command output.
pub struct OutputModel {
    pub text: Seq<char>,
    pub sections: Seq<SectionModel>,
}

impl View for SlashCommandOutputSection {
    type V = SectionModel;

    open spec fn view(&self) -> SectionModel {
        SectionModel {
            range_start: self.range_start as int,
            range_end: self.range_end as int,
            label: self.label@,
        }
    }
}

impl View for SlashCommandOutput {
    type V = OutputModel;

    open spec fn view(&self) -> OutputModel {
        OutputModel {
            text: self.text@,
            sections: self.sections@.map_values(|s: SlashCommandOutputSection| s@),
        }
    }
}

/// The number of bytes a string with the given characters occupies, as the
/// byte-length operation on an executable string reports it.
pub open spec fn byte_length(text: Seq<char>) -> int {
    (encode_utf8(text).len() as usize) as int
}

impl OutputModel {
    /// Every section's byte range lies within the bounds of the output
    /// text.
    pub open spec fn wf(self) -> bool {
        forall|i: int|
            0 <= i < self.sections.len() ==> {
                &&& 0 <= (#[trigger] self.sections[i]).range_start
                &&& self.sections[i].range_start <= self.sections[i].range_end
                &&& self.sections[i].range_end <= byte_length(self.text)
            }
    }
}

/// The one command name this handler recognizes.
pub open spec fn recognized_name() -> Seq<char> {
    "jake"@
}

/// The invocation text built for a recipe: the command name, a space, and
/// the recipe name.
pub open spec fn invocation_text(recipe: Seq<char>) -> Seq<char> {
    "jake "@ + recipe
}

/// The label of the one output section: "Run: " followed by the
/// invocation text.
pub open spec fn section_label(recipe: Seq<char>) -> Seq<char> {
    "Run: "@ + invocation_text(recipe)
}

/// The error message when the recognized command is invoked without a
/// recipe name.
pub open spec fn missing_recipe_message() -> Seq<char> {
    "Please specify a recipe name"@
}

/// The error message naming an unrecognized command.
pub open spec fn unknown_command_message(name: Seq<char>) -> Seq<char> {
    "Unknown command: "@ + name
}

/// The one output the recognized command produces for a recipe: the
/// invocation text, with a single section that spans all of it.
pub open spec fn expected_output(recipe: Seq<char>) -> OutputModel {
    OutputModel {
        text: invocation_text(recipe),
        sections: seq![
            SectionModel {
                range_start: 0,
                range_end: byte_length(invocation_text(recipe)),
                label: section_label(recipe),
            },
        ],
    }
}

/// What running a command produces, as a function of the command name and
/// the argument list alone.
pub open spec fn run_result(name: Seq<char>, args: Seq<Seq<char>>) -> Result<
    OutputModel,
    Seq<char>,
> {
    if name == recognized_name() {
        if args.len() > 0 {
            Ok(expected_output(args[0]))
        } else {
            Err(missing_recipe_message())
        }
    } else {
        Err(unknown_command_message(name))
    }
}

/// The mathematical value of a run result.
pub open spec fn result_model(r: Result<SlashCommandOutput, String>) -> Result<
    OutputModel,
    Seq<char>,
> {
    match r {
        Ok(out) => Ok(out@),
        Err(msg) => Err(msg@),
    }
}

/// The handler of the `jake` slash command. It holds no state: every call
/// is answered from its arguments alone.
pub struct JakeExtension;

impl JakeExtension {
    pub fn new() -> (r: JakeExtension) {
        JakeExtension {}
    }

    /// Candidate completions for a command argument. No recipe discovery
    /// is implemented, so the list is empty for every command and every
    /// argument list, and the call never fails.
    pub fn complete_slash_command_argument(
        &self,
        _command: SlashCommand,
        _args: Vec<String>,
    ) -> (r: Result<Vec<SlashCommandArgumentCompletion>, String>)
        ensures
            r is Ok,
            r->Ok_0@.len() == 0,
    {
        Ok(Vec::new())
    }

    /// Runs a slash command. For the recognized command with at least one
    /// argument, the output is the invocation text for the first argument
    /// (further arguments are ignored), carrying one section that spans
    /// the whole text. The recognized command without arguments, and any
    /// other command, yield an error message.
    pub fn run_slash_command(
        &self,
        command: SlashCommand,
        args: Vec<String>,
    ) -> (r: Result<SlashCommandOutput, String>)
        ensures
            result_model(r) == run_result(command.name@, args.deep_view()),
            r is Ok ==> r->Ok_0@.wf(),
    {
        let recognized = String::from_str("jake");
        if command.name == recognized {
            if args.len() == 0 {
                Err(String::from_str("Please specify a recipe name"))
            } else {
                let recipe: &String = &args[0];
                let mut text = String::from_str("jake ");
                text.append(recipe.as_str());
                let end: usize = text.as_str().len();
                let mut label = String::from_str("Run: ");
                label.append(text.as_str());
                let section = SlashCommandOutputSection { range_start: 0, range_end: end, label };
                let mut sections: Vec<SlashCommandOutputSection> = Vec::new();
                sections.push(section);
                let out = SlashCommandOutput { text, sections };
                proof {
                    let recipe_model = args.deep_view()[0];
                    assert(out@.sections =~= expected_output(recipe_model).sections);
                }
                Ok(out)
            }
        } else {
            let mut message = String::from_str("Unknown command: ");
            message.append(command.name.as_str());
            Err(message)
        }
    }
}

/// Running a command is a pure function of its inputs: two runs with the
/// same command name and the same argument list produce equal results.
pub proof fn lemma_run_deterministic(
    name: Seq<char>,
    args: Seq<Seq<char>>,
    r1: Result<OutputModel, Seq<char>>,
    r2: Result<OutputModel, Seq<char>>,
)
    requires
        r1 == run_result(name, args),
        r2 == run_result(name, args),
    ensures
        r1 == r2,
{
}

/// The unrecognized-command error names the offending command: the message
/// is the fixed prefix "Unknown command: " followed by the command name
/// itself.
pub proof fn lemma_unknown_command_message_names_command(name: Seq<char>)
    ensures
        unknown_command_message(name).skip("Unknown command: "@.len() as int) =~= name,
        unknown_command_message(name).take("Unknown command: "@.len() as int) =~= (
        "Unknown command: "@),
{
}

} // verus!
