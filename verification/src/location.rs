//! Where the files of a submission lie, and the toolchain invocations made
//! on them.
//!
//! Every path is the uploads root, the submission's folder, a slash, a base
//! name and a suffix, joined as text.

use vstd::prelude::*;
use vstd::string::*;

verus! {

/// Names the working files of one submission.
#[derive(Clone, Debug, PartialEq, Eq)]
pub struct FilesToRun {
    /// Folder below the uploads root.
    pub folder: String,
    /// Base name of the assembly file and of what is made from it.
    pub name: String,
    /// Base name of the reference input and answer.
    pub name_without_suffix: String,
}

/// The mathematical content of a [`FilesToRun`].
pub struct FilesToRunView {
    pub folder: Seq<char>,
    pub name: Seq<char>,
    pub name_without_suffix: Seq<char>,
}

impl View for FilesToRun {
    type V = FilesToRunView;

    open spec fn view(&self) -> FilesToRunView {
        FilesToRunView {
            folder: self.folder@,
            name: self.name@,
            name_without_suffix: self.name_without_suffix@,
        }
    }
}

/// A program to start, with its arguments and the directory to start it in.
#[derive(Clone, Debug, PartialEq, Eq)]
pub struct CommandLine {
    pub command: String,
    pub args: Vec<String>,
    pub current_dir: String,
}

/// The mathematical content of a [`CommandLine`].
pub struct CommandLineView {
    pub command: Seq<char>,
    pub args: Seq<Seq<char>>,
    pub current_dir: Seq<char>,
}

impl View for CommandLine {
    type V = CommandLineView;

    open spec fn view(&self) -> CommandLineView {
        CommandLineView {
            command: self.command@,
            args: self.args.deep_view(),
            current_dir: self.current_dir@,
        }
    }
}

/// The path of `folder`/`name` below the uploads root, without a suffix.
pub open spec fn base_path(folder: Seq<char>, name: Seq<char>) -> Seq<char> {
    "uploaded_files/"@ + folder + "/"@ + name
}

impl FilesToRunView {
    /// The assembly file that is linked.
    pub open spec fn assembly(self) -> Seq<char> {
        base_path(self.folder, self.name) + ".s"@
    }

    /// The executable that linking produces.
    pub open spec fn executable(self) -> Seq<char> {
        base_path(self.folder, self.name) + ".exec"@
    }

    /// The file that captures the program's standard output.
    pub open spec fn output(self) -> Seq<char> {
        base_path(self.folder, self.name) + ".stdout"@
    }

    /// The file that captures the program's standard error.
    pub open spec fn outerr(self) -> Seq<char> {
        base_path(self.folder, self.name) + ".stderr"@
    }

    /// The reference answer.
    pub open spec fn answer(self) -> Seq<char> {
        base_path(self.folder, self.name_without_suffix) + ".out"@
    }

    /// The reference input.
    pub open spec fn input(self) -> Seq<char> {
        base_path(self.folder, self.name_without_suffix) + ".in"@
    }

    /// The source file that is compiled.
    pub open spec fn source(self) -> Seq<char> {
        base_path(self.folder, self.name) + ".sy"@
    }

    /// The assembly file that compiling produces.
    pub open spec fn compiled_assembly(self) -> Seq<char> {
        base_path(self.folder, self.name) + "-gcc.s"@
    }

    /// The linker invocation: the assembly file and the runtime library
    /// into the executable.
    pub open spec fn link_command(self) -> CommandLineView {
        CommandLineView {
            command: "gcc"@,
            args: seq![
                "-march=rv64gc"@,
                "-mabi=lp64d"@,
                self.assembly(),
                "runtime/libsysy.a"@,
                "-o"@,
                self.executable(),
            ],
            current_dir: "."@,
        }
    }

    /// The compiler invocation: the source file, read as C++ with the
    /// runtime header, into assembly.
    pub open spec fn compile_command(self) -> CommandLineView {
        CommandLineView {
            command: "gcc"@,
            args: seq![
                "-xc++"@,
                "-O2"@,
                "-S"@,
                "-march=rv64gc"@,
                "-mabi=lp64d"@,
                "-include"@,
                "runtime/sylib.h"@,
                self.source(),
                "-o"@,
                self.compiled_assembly(),
            ],
            current_dir: "."@,
        }
    }
}

/// The invocation of the test script on a branch and commit of a repository.
pub open spec fn test_command_of(
    repo: Seq<char>,
    branch: Seq<char>,
    commit_id: Seq<char>,
) -> CommandLineView {
    CommandLineView { command: "./test.sh"@, args: seq![repo, branch, commit_id], current_dir: "."@ }
}

/// `folder`/`name` below the uploads root, followed by `suffix`.
fn suffixed_path(folder: &str, name: &str, suffix: &str) -> (path: String)
    ensures
        path@ == base_path(folder@, name@) + suffix@,
{
    "uploaded_files/".to_owned().concat(folder).concat("/").concat(name).concat(suffix)
}

impl FilesToRun {
    /// The assembly file that is linked.
    pub fn assembly(&self) -> (path: String)
        ensures
            path@ == self@.assembly(),
    {
        suffixed_path(self.folder.as_str(), self.name.as_str(), ".s")
    }

    /// The executable that linking produces.
    pub fn executable(&self) -> (path: String)
        ensures
            path@ == self@.executable(),
    {
        suffixed_path(self.folder.as_str(), self.name.as_str(), ".exec")
    }

    /// The file that captures the program's standard output.
    pub fn output(&self) -> (path: String)
        ensures
            path@ == self@.output(),
    {
        suffixed_path(self.folder.as_str(), self.name.as_str(), ".stdout")
    }

    /// The file that captures the program's standard error.
    pub fn outerr(&self) -> (path: String)
        ensures
            path@ == self@.outerr(),
    {
        suffixed_path(self.folder.as_str(), self.name.as_str(), ".stderr")
    }

    /// The reference answer.
    pub fn answer(&self) -> (path: String)
        ensures
            path@ == self@.answer(),
    {
        suffixed_path(self.folder.as_str(), self.name_without_suffix.as_str(), ".out")
    }

    /// The reference input.
    pub fn input(&self) -> (path: String)
        ensures
            path@ == self@.input(),
    {
        suffixed_path(self.folder.as_str(), self.name_without_suffix.as_str(), ".in")
    }

    /// The source file that is compiled.
    pub fn source(&self) -> (path: String)
        ensures
            path@ == self@.source(),
    {
        suffixed_path(self.folder.as_str(), self.name.as_str(), ".sy")
    }

    /// The assembly file that compiling produces.
    pub fn compiled_assembly(&self) -> (path: String)
        ensures
            path@ == self@.compiled_assembly(),
    {
        suffixed_path(self.folder.as_str(), self.name.as_str(), "-gcc.s")
    }

    /// The linker invocation for this submission.
    pub fn link_command(&self) -> (line: CommandLine)
        ensures
            line@ == self@.link_command(),
    {
        let mut args: Vec<String> = Vec::new();
        args.push("-march=rv64gc".to_owned());
        args.push("-mabi=lp64d".to_owned());
        args.push(self.assembly());
        args.push("runtime/libsysy.a".to_owned());
        args.push("-o".to_owned());
        args.push(self.executable());
        assert(args.deep_view() =~= self@.link_command().args);
        CommandLine { command: "gcc".to_owned(), args, current_dir: ".".to_owned() }
    }

    /// The compiler invocation for this submission.
    pub fn compile_command(&self) -> (line: CommandLine)
        ensures
            line@ == self@.compile_command(),
    {
        let mut args: Vec<String> = Vec::new();
        args.push("-xc++".to_owned());
        args.push("-O2".to_owned());
        args.push("-S".to_owned());
        args.push("-march=rv64gc".to_owned());
        args.push("-mabi=lp64d".to_owned());
        args.push("-include".to_owned());
        args.push("runtime/sylib.h".to_owned());
        args.push(self.source());
        args.push("-o".to_owned());
        args.push(self.compiled_assembly());
        assert(args.deep_view() =~= self@.compile_command().args);
        CommandLine { command: "gcc".to_owned(), args, current_dir: ".".to_owned() }
    }
}

/// The invocation of the test script: the repository, the branch and the
/// commit are its three arguments, in this order.
pub fn test_command(repo: &str, branch: &str, commit_id: &str) -> (line: CommandLine)
    ensures
        line@ == test_command_of(repo@, branch@, commit_id@),
{
    let mut args: Vec<String> = Vec::new();
    args.push(repo.to_owned());
    args.push(branch.to_owned());
    args.push(commit_id.to_owned());
    assert(args.deep_view() =~= seq![repo@, branch@, commit_id@]);
    CommandLine { command: "./test.sh".to_owned(), args, current_dir: ".".to_owned() }
}

} // verus!
