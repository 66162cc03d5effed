//! How the graphical interface is built: the shared library is built with cargo
//! and put where Godot finds it, then Godot imports the project and exports the
//! program. Here is what the build tool decides; running the steps is left to it.
use crate::text::{concat2, concat3, contains, has_substring, is_whitespace, is_ws, join, join_strings, owned,
    push_str, str_eq, views};
use vstd::prelude::*;

verus! {

/// Where the Godot project lives.
pub const GODOT_BASE_DIR: &'static str = "../godot";

/// Where the programs that Godot exports are put.
pub const GODOT_BUILD_BASE_DIR: &'static str = "../godot/build";

/// Where Godot keeps its cache.
pub const GODOT_CACHE_DIR: &'static str = "../godot/.godot";

/// The file name of the shared library that the interface is made of.
pub const GODOT_CDYLIB_NAME: &'static str = "libdecktricks_godot_gui.so";

/// What the build tool is asked to do.
#[derive(Debug, Clone, Copy, PartialEq, Eq, Structural)]
pub enum BuildAction {
    BuildAndExport,
    BuildLibOnly,
    ExportOnly,
    PrintBinaryPath,
}

/// A request to the build tool: what to do, and whether to remove earlier builds first.
#[derive(Debug, Clone, Copy, PartialEq, Eq, Structural)]
pub struct BuildRequest {
    pub action: BuildAction,
    pub clean: bool,
}

/// The words of the command line other than `--clean`.
pub open spec fn without_clean(args: Seq<Seq<char>>) -> Seq<Seq<char>> {
    args.filter(|a: Seq<char>| a != "--clean"@)
}

/// The action that a subcommand names; none names building and exporting.
pub open spec fn spec_build_action(first: Option<Seq<char>>) -> Option<BuildAction> {
    match first {
        None => Some(BuildAction::BuildAndExport),
        Some(w) => if w == "build-and-export"@ || w == "build"@ {
            Some(BuildAction::BuildAndExport)
        } else if w == "build-lib"@ {
            Some(BuildAction::BuildLibOnly)
        } else if w == "export"@ {
            Some(BuildAction::ExportOnly)
        } else if w == "print-binary-path"@ {
            Some(BuildAction::PrintBinaryPath)
        } else {
            None
        },
    }
}

/// The message for a subcommand that the tool does not know.
pub open spec fn spec_unknown_subcommand(w: Seq<char>) -> Seq<char> {
    "Unknown subcommand: "@ + w
        + "\nUsage: gui-tool [--clean] [build-and-export|build-lib|export|print-binary-path]"@
}

/// Reads the build tool's command line (without the program's name): `--clean`
/// anywhere asks for a clean build, and the first other word names the action.
pub fn parse_build_args(args: &Vec<String>) -> (r: Result<BuildRequest, String>)
    ensures
        ({
            let rest = without_clean(views(args@));
            let first = if rest.len() > 0 {
                Some(rest[0])
            } else {
                None
            };
            match spec_build_action(first) {
                Some(a) => r == Ok::<BuildRequest, String>(
                    BuildRequest { action: a, clean: views(args@).contains("--clean"@) },
                ),
                None => r matches Err(m) && m@ == spec_unknown_subcommand(first->0),
            }
        }),
{
    let ghost pred = |a: Seq<char>| a != "--clean"@;
    let mut rest: Vec<String> = Vec::new();
    let mut clean = false;
    let mut i: usize = 0;
    while i < args.len()
        invariant
            i <= args@.len(),
            pred == (|a: Seq<char>| a != "--clean"@),
            views(rest@) == views(args@).subrange(0, i as int).filter(pred),
            clean == views(args@).subrange(0, i as int).contains("--clean"@),
        decreases args@.len() - i,
    {
        proof {
            let sub = views(args@).subrange(0, i + 1);
            assert(sub.drop_last() =~= views(args@).subrange(0, i as int));
            assert(sub.last() == args@[i as int]@);
            reveal(Seq::filter);
            assert(sub.contains("--clean"@) == (views(args@).subrange(0, i as int).contains("--clean"@)
                || args@[i as int]@ == "--clean"@)) by {
                if sub.contains("--clean"@) {
                    let k = choose|k: int| 0 <= k < sub.len() && sub[k] == "--clean"@;
                    if k < i {
                        assert(views(args@).subrange(0, i as int)[k] == "--clean"@);
                    }
                }
                if views(args@).subrange(0, i as int).contains("--clean"@) {
                    let k = choose|k: int| 0 <= k < i && views(args@).subrange(0, i as int)[k] == "--clean"@;
                    assert(sub[k] == "--clean"@);
                }
                if args@[i as int]@ == "--clean"@ {
                    assert(sub[i as int] == "--clean"@);
                }
            }
        }
        if str_eq(args[i].as_str(), "--clean") {
            clean = true;
        } else {
            rest.push(args[i].clone());
            proof {
                assert(views(rest@) =~= views(rest@.drop_last()).push(rest@.last()@));
            }
        }
        i = i + 1;
    }
    assert(views(args@).subrange(0, args@.len() as int) =~= views(args@));
    assert(views(rest@) == without_clean(views(args@)));
    if rest.len() == 0 {
        return Ok(BuildRequest { action: BuildAction::BuildAndExport, clean });
    }
    assert(views(rest@)[0] == rest@[0]@);
    let w = rest[0].as_str();
    let action = if str_eq(w, "build-and-export") || str_eq(w, "build") {
        BuildAction::BuildAndExport
    } else if str_eq(w, "build-lib") {
        BuildAction::BuildLibOnly
    } else if str_eq(w, "export") {
        BuildAction::ExportOnly
    } else if str_eq(w, "print-binary-path") {
        BuildAction::PrintBinaryPath
    } else {
        let m = concat3(
            "Unknown subcommand: ",
            w,
            "\nUsage: gui-tool [--clean] [build-and-export|build-lib|export|print-binary-path]",
        );
        return Err(m);
    };
    Ok(BuildRequest { action, clean })
}

/// One step of a build.
#[derive(Debug, Clone, Copy, PartialEq, Eq, Structural)]
pub enum BuildStep {
    /// Remove the exported programs and Godot's cache.
    CleanBuildDirs,
    /// Create the directory of exported programs.
    EnsureBuildDir,
    /// Build the shared library with cargo.
    CargoBuild,
    /// Put the shared library where Godot finds it.
    CopyCdylib,
    /// Have Godot import the project.
    GodotImport,
    /// Have Godot export the program.
    GodotExport,
    /// Print where the exported program is.
    PrintBinaryPath,
}

/// The steps of a build, in order.
pub open spec fn spec_build_steps(req: BuildRequest) -> Seq<BuildStep> {
    let main = match req.action {
        BuildAction::BuildAndExport => seq![
            BuildStep::EnsureBuildDir,
            BuildStep::CargoBuild,
            BuildStep::CopyCdylib,
            BuildStep::GodotImport,
            BuildStep::GodotExport,
            BuildStep::PrintBinaryPath,
        ],
        BuildAction::BuildLibOnly => seq![BuildStep::EnsureBuildDir, BuildStep::CargoBuild, BuildStep::CopyCdylib],
        BuildAction::ExportOnly => seq![
            BuildStep::EnsureBuildDir,
            BuildStep::GodotImport,
            BuildStep::GodotExport,
            BuildStep::PrintBinaryPath,
        ],
        BuildAction::PrintBinaryPath => seq![BuildStep::PrintBinaryPath],
    };
    if req.clean {
        seq![BuildStep::CleanBuildDirs] + main
    } else {
        main
    }
}

/// The steps of a build, in order.
pub fn build_steps(req: BuildRequest) -> (r: Vec<BuildStep>)
    ensures
        r@ == spec_build_steps(req),
{
    let mut r: Vec<BuildStep> = Vec::new();
    if req.clean {
        r.push(BuildStep::CleanBuildDirs);
    }
    match req.action {
        BuildAction::BuildAndExport => {
            r.push(BuildStep::EnsureBuildDir);
            r.push(BuildStep::CargoBuild);
            r.push(BuildStep::CopyCdylib);
            r.push(BuildStep::GodotImport);
            r.push(BuildStep::GodotExport);
            r.push(BuildStep::PrintBinaryPath);
        },
        BuildAction::BuildLibOnly => {
            r.push(BuildStep::EnsureBuildDir);
            r.push(BuildStep::CargoBuild);
            r.push(BuildStep::CopyCdylib);
        },
        BuildAction::ExportOnly => {
            r.push(BuildStep::EnsureBuildDir);
            r.push(BuildStep::GodotImport);
            r.push(BuildStep::GodotExport);
            r.push(BuildStep::PrintBinaryPath);
        },
        BuildAction::PrintBinaryPath => {
            r.push(BuildStep::PrintBinaryPath);
        },
    }
    assert(r@ =~= spec_build_steps(req));
    r
}

/// The directory of the exported programs of a debug or a release build.
pub fn get_build_dir(is_debug_build: bool) -> (r: String)
    ensures
        r@ == GODOT_BUILD_BASE_DIR@ + if is_debug_build {
            "/debug"@
        } else {
            "/release"@
        },
{
    if is_debug_build {
        concat2(GODOT_BUILD_BASE_DIR, "/debug")
    } else {
        concat2(GODOT_BUILD_BASE_DIR, "/release")
    }
}

/// Where the exported program is.
pub fn get_exported_binary_path(is_debug_build: bool) -> (r: String)
    ensures
        r@ == GODOT_BUILD_BASE_DIR@ + (if is_debug_build {
            "/debug"@
        } else {
            "/release"@
        }) + "/decktricks-gui"@,
{
    let mut r = get_build_dir(is_debug_build);
    push_str(&mut r, "/decktricks-gui");
    r
}

/// Where cargo puts the shared library.
pub fn cdylib_path(is_debug_build: bool) -> (r: String)
    ensures
        r@ == (if is_debug_build {
            "target/debug/"@
        } else {
            "target/release/"@
        }) + GODOT_CDYLIB_NAME@,
{
    if is_debug_build {
        concat2("target/debug/", GODOT_CDYLIB_NAME)
    } else {
        concat2("target/release/", GODOT_CDYLIB_NAME)
    }
}

/// The arguments of `cargo` that build the shared library, with how the step is
/// named in messages.
pub fn cargo_build_args(is_debug_build: bool) -> (r: (Vec<String>, String))
    ensures
        views(r.0@) == if is_debug_build {
            seq!["build"@, "--lib"@]
        } else {
            seq!["build"@, "--lib"@, "--release"@]
        },
        r.1@ == if is_debug_build {
            "cargo build (debug)"@
        } else {
            "cargo build --release"@
        },
{
    let mut args: Vec<String> = Vec::new();
    args.push(owned("build"));
    args.push(owned("--lib"));
    if !is_debug_build {
        args.push(owned("--release"));
    }
    let human = if is_debug_build {
        owned("cargo build (debug)")
    } else {
        owned("cargo build --release")
    };
    proof {
        if is_debug_build {
            assert(views(args@) =~= seq!["build"@, "--lib"@]);
        } else {
            assert(views(args@) =~= seq!["build"@, "--lib"@, "--release"@]);
        }
    }
    (args, human)
}

/// The arguments of Godot that import the project (run in `GODOT_BASE_DIR`),
/// with how the step is named in messages.
pub fn godot_import_args(godot_bin: &str) -> (r: (Vec<String>, String))
    ensures
        views(r.0@) == seq!["--import"@, "--headless"@],
        r.1@ == godot_bin@ + " --import --headless"@,
{
    let mut args: Vec<String> = Vec::new();
    args.push(owned("--import"));
    args.push(owned("--headless"));
    assert(views(args@) =~= seq!["--import"@, "--headless"@]);
    (args, concat2(godot_bin, " --import --headless"))
}

/// The arguments of Godot that export the program to `output_path` (run in
/// `GODOT_BASE_DIR`), with how the step is named in messages.
pub fn godot_export_args(godot_bin: &str, is_debug_build: bool, output_path: &str) -> (r: (Vec<String>, String))
    ensures
        views(r.0@) == if is_debug_build {
            seq!["--headless"@, "--export-debug"@, "linux-debug"@, output_path@]
        } else {
            seq!["--headless"@, "--export-release"@, "linux-release"@, output_path@]
        },
        r.1@ == godot_bin@ + if is_debug_build {
            " --headless --export-debug linux-debug"@
        } else {
            " --headless --export-release linux-release"@
        },
{
    let mut args: Vec<String> = Vec::new();
    args.push(owned("--headless"));
    if is_debug_build {
        args.push(owned("--export-debug"));
        args.push(owned("linux-debug"));
    } else {
        args.push(owned("--export-release"));
        args.push(owned("linux-release"));
    }
    args.push(owned(output_path));
    let human = if is_debug_build {
        concat2(godot_bin, " --headless --export-debug linux-debug")
    } else {
        concat2(godot_bin, " --headless --export-release linux-release")
    };
    proof {
        if is_debug_build {
            assert(views(args@) =~= seq!["--headless"@, "--export-debug"@, "linux-debug"@, output_path@]);
        } else {
            assert(views(args@) =~= seq!["--headless"@, "--export-release"@, "linux-release"@, output_path@]);
        }
    }
    (args, human)
}

/// Godot does not always exit with an error when an export fails, so an export
/// counts as failed when either output mentions `ERROR`.
pub fn export_failed(stdout: &str, stderr: &str) -> (r: bool)
    ensures
        r == (has_substring(stdout@, "ERROR"@) || has_substring(stderr@, "ERROR"@)),
{
    contains(stdout, "ERROR") || contains(stderr, "ERROR")
}

/// The text holds a character that is not whitespace.
pub open spec fn not_blank(s: Seq<char>) -> bool {
    exists|i: int| 0 <= i < s.len() && !is_ws(#[trigger] s[i])
}

/// The Godot program to run: the one that `$GODOT_BIN` names when it is set and
/// not blank, else `godot4` when it can be run, else `godot`.
pub fn choose_godot_bin(godot_bin_env: Option<String>, godot4_runs: bool) -> (r: String)
    ensures
        r@ == match godot_bin_env {
            Some(b) => if not_blank(b@) {
                b@
            } else if godot4_runs {
                "godot4"@
            } else {
                "godot"@
            },
            None => if godot4_runs {
                "godot4"@
            } else {
                "godot"@
            },
        },
{
    let ghost env = godot_bin_env;
    match godot_bin_env {
        Some(b) => {
            let n = b.unicode_len();
            let mut i: usize = 0;
            while i < n
                invariant
                    i <= n,
                    env == Some(b),
                    env == godot_bin_env,
                    n == b@.len(),
                    forall|j: int| 0 <= j < i ==> is_ws(#[trigger] b@[j]),
                decreases n - i,
            {
                let c = b.get_char(i);
                if !is_whitespace(c) {
                    assert(!is_ws(b@[i as int]));
                    assert(not_blank(b@));
                    return b;
                }
                i = i + 1;
            }
        },
        None => {},
    }
    if godot4_runs {
        owned("godot4")
    } else {
        owned("godot")
    }
}

/// A command line as shown in messages: the program, a space, and the arguments
/// with spaces between them.
pub fn command_line_text(program: &str, args: &Vec<String>) -> (r: String)
    ensures
        r@ == program@ + " "@ + join(views(args@), " "@),
{
    let joined = join_strings(args, " ");
    concat3(program, " ", joined.as_str())
}

} // verus!
