//! The command lines that the bridge issues, and the settings they are built
//! from.
//!
//! The order of the inference program's arguments is fixed here and nowhere
//! else: the script's path, then the model's path if one is set, then the
//! character set's path if one is set, then the image argument with the white
//! space around it removed.

use crate::text::trim_text;
use crate::text::trimmed;
use vstd::prelude::*;
use vstd::string::StringExecFns;

verus! {

/// The texts that a sequence of strings holds.
pub open spec fn texts(strings: Seq<String>) -> Seq<Seq<char>> {
    strings.map_values(|s: String| s@)
}

/// A program and the arguments it is started with.
#[derive(Debug, Clone, PartialEq, Eq)]
pub struct CommandLine {
    pub program: String,
    pub arguments: Vec<String>,
}

pub struct CommandLineView {
    pub program: Seq<char>,
    pub arguments: Seq<Seq<char>>,
}

impl View for CommandLine {
    type V = CommandLineView;

    open spec fn view(&self) -> CommandLineView {
        CommandLineView { program: self.program@, arguments: texts(self.arguments@) }
    }
}

/// What the bridge has to know of the machine it runs on.
#[derive(Debug, Clone, PartialEq, Eq)]
pub struct BridgeConfig {
    /// The interpreter's executable.
    pub interpreter: String,
    /// The version that the interpreter's answer must mention.
    pub required_version: String,
    /// The directory of the isolated dependency environment.
    pub environment_dir: String,
    /// The program that installs dependencies.
    pub installer: String,
    /// The file that lists the dependencies.
    pub requirements: String,
}

pub struct BridgeConfigView {
    pub interpreter: Seq<char>,
    pub required_version: Seq<char>,
    pub environment_dir: Seq<char>,
    pub installer: Seq<char>,
    pub requirements: Seq<char>,
}

impl View for BridgeConfig {
    type V = BridgeConfigView;

    open spec fn view(&self) -> BridgeConfigView {
        BridgeConfigView {
            interpreter: self.interpreter@,
            required_version: self.required_version@,
            environment_dir: self.environment_dir@,
            installer: self.installer@,
            requirements: self.requirements@,
        }
    }
}

/// Where the files of the inference program lie.
#[derive(Debug, Clone, PartialEq, Eq)]
pub struct ResourcePaths {
    pub script_path: String,
    pub model_path: Option<String>,
    pub charset_path: Option<String>,
}

pub struct ResourcePathsView {
    pub script_path: Seq<char>,
    pub model_path: Option<Seq<char>>,
    pub charset_path: Option<Seq<char>>,
}

/// The text of an optional string.
pub open spec fn optional_text(path: Option<String>) -> Option<Seq<char>> {
    match path {
        Some(p) => Some(p@),
        None => None,
    }
}

impl View for ResourcePaths {
    type V = ResourcePathsView;

    open spec fn view(&self) -> ResourcePathsView {
        ResourcePathsView {
            script_path: self.script_path@,
            model_path: optional_text(self.model_path),
            charset_path: optional_text(self.charset_path),
        }
    }
}

/// One request of the front end: the image, as a path or as data.
#[derive(Debug, Clone, PartialEq, Eq)]
pub struct InferenceRequest {
    pub image_payload: String,
}

impl View for InferenceRequest {
    type V = Seq<char>;

    open spec fn view(&self) -> Seq<char> {
        self.image_payload@
    }
}

/// The argument that an optional path contributes: itself, or nothing.
pub open spec fn optional_argument(path: Option<Seq<char>>) -> Seq<Seq<char>> {
    match path {
        Some(p) => seq![p],
        None => Seq::<Seq<char>>::empty(),
    }
}

/// The settings of a stock installation.
pub open spec fn stock_config() -> BridgeConfigView {
    BridgeConfigView {
        interpreter: "python3"@,
        required_version: "3.10.13"@,
        environment_dir: "../src-py/venv"@,
        installer: "pip"@,
        requirements: "requirements.txt"@,
    }
}

impl BridgeConfigView {
    /// `<interpreter> --version`
    pub open spec fn version_query(self) -> CommandLineView {
        CommandLineView { program: self.interpreter, arguments: seq!["--version"@] }
    }

    /// `<interpreter> -m venv <environment_dir>`
    pub open spec fn creation_command(self) -> CommandLineView {
        CommandLineView {
            program: self.interpreter,
            arguments: seq!["-m"@, "venv"@, self.environment_dir],
        }
    }

    /// `<installer> install -r <requirements>`
    pub open spec fn installation_command(self) -> CommandLineView {
        CommandLineView {
            program: self.installer,
            arguments: seq!["install"@, "-r"@, self.requirements],
        }
    }

    /// `<interpreter> <script> [<model>] [<charset>] <image>`
    pub open spec fn inference_command(
        self,
        paths: ResourcePathsView,
        image: Seq<char>,
    ) -> CommandLineView {
        CommandLineView {
            program: self.interpreter,
            arguments: seq![paths.script_path] + optional_argument(paths.model_path)
                + optional_argument(paths.charset_path) + seq![image],
        }
    }

    /// The inference command for a request: its image argument is the
    /// request's payload without the white space around it.
    pub open spec fn request_command(
        self,
        paths: ResourcePathsView,
        request: Seq<char>,
    ) -> CommandLineView {
        self.inference_command(paths, trimmed(request))
    }
}

impl Default for BridgeConfig {
    fn default() -> (config: BridgeConfig)
        ensures
            config@ == stock_config(),
    {
        BridgeConfig {
            interpreter: String::from_str("python3"),
            required_version: String::from_str("3.10.13"),
            environment_dir: String::from_str("../src-py/venv"),
            installer: String::from_str("pip"),
            requirements: String::from_str("requirements.txt"),
        }
    }
}

/// Appends the path to the arguments, if there is one.
fn push_optional(arguments: &mut Vec<String>, path: &Option<String>)
    ensures
        texts(final(arguments)@) == texts(old(arguments)@) + optional_argument(
            optional_text(*path),
        ),
{
    match path {
        Some(p) => {
            arguments.push(p.clone());
            assert(texts(arguments@) =~= texts(old(arguments)@) + seq![p@]);
        },
        None => {
            assert(texts(arguments@) =~= texts(old(arguments)@) + Seq::<Seq<char>>::empty());
        },
    }
}

impl BridgeConfig {
    /// The command that asks the interpreter for its version.
    pub fn version_query(&self) -> (command: CommandLine)
        ensures
            command@ == self@.version_query(),
    {
        let mut arguments: Vec<String> = Vec::new();
        arguments.push(String::from_str("--version"));
        assert(texts(arguments@) =~= seq!["--version"@]);
        CommandLine { program: self.interpreter.clone(), arguments }
    }

    /// The command that creates the isolated dependency environment.
    pub fn creation_command(&self) -> (command: CommandLine)
        ensures
            command@ == self@.creation_command(),
    {
        let mut arguments: Vec<String> = Vec::new();
        arguments.push(String::from_str("-m"));
        arguments.push(String::from_str("venv"));
        arguments.push(self.environment_dir.clone());
        assert(texts(arguments@) =~= seq!["-m"@, "venv"@, self.environment_dir@]);
        CommandLine { program: self.interpreter.clone(), arguments }
    }

    /// The command that installs the declared dependencies.
    pub fn installation_command(&self) -> (command: CommandLine)
        ensures
            command@ == self@.installation_command(),
    {
        let mut arguments: Vec<String> = Vec::new();
        arguments.push(String::from_str("install"));
        arguments.push(String::from_str("-r"));
        arguments.push(self.requirements.clone());
        assert(texts(arguments@) =~= seq!["install"@, "-r"@, self.requirements@]);
        CommandLine { program: self.installer.clone(), arguments }
    }

    /// The command that runs the inference program on `image`, which is
    /// passed on as it is.
    pub fn inference_command(&self, paths: &ResourcePaths, image: &str) -> (command: CommandLine)
        ensures
            command@ == self@.inference_command(paths@, image@),
    {
        let mut arguments: Vec<String> = Vec::new();
        arguments.push(paths.script_path.clone());
        assert(texts(arguments@) =~= seq![paths.script_path@]);
        push_optional(&mut arguments, &paths.model_path);
        push_optional(&mut arguments, &paths.charset_path);
        let ghost before = arguments@;
        arguments.push(String::from_str(image));
        assert(texts(arguments@) =~= texts(before) + seq![image@]);
        CommandLine { program: self.interpreter.clone(), arguments }
    }

    /// The command that runs the inference program for `request`.
    pub fn request_command(&self, paths: &ResourcePaths, request: &InferenceRequest) -> (command:
        CommandLine)
        ensures
            command@ == self@.request_command(paths@, request@),
    {
        self.inference_command(paths, trim_text(request.image_payload.as_str()))
    }
}

} // verus!
