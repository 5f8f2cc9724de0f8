//! Planning of the release builds: which command lines to run, with which
//! compiler flags, for the web and native targets.
use vstd::prelude::*;
use vstd::string::*;

use std::path::PathBuf;

verus! {

/// `std::path::PathBuf`, declared so that the configuration guard can hold
/// one; nothing is assumed of its contents.
#[verifier::external_type_specification]
#[verifier::external_body]
pub struct ExPathBuf(PathBuf);

/// Options of the release helper.
pub struct Args {
    /// Build for the web target.
    pub wasm: bool,
    /// Build the web target with threads (needs `wasm`).
    pub wasm_rayon: bool,
    /// Target triple of a native build.
    pub target: Option<String>,
    /// Optimise a native build for the building machine (needs `target`).
    pub native: bool,
    /// Public URL the web build is served under.
    pub public_url: Option<String>,
    /// Use the trunk binary at the project root.
    pub ci: bool,
}

/// Why a set of options is refused.
#[derive(Debug, Clone, Copy, PartialEq, Eq, Structural)]
pub enum ArgsError {
    TargetOrWasmRequired,
    WasmRayonRequiresWasm,
    NativeRequiresTarget,
}

impl ArgsError {
    pub fn message(&self) -> (r: &'static str)
        ensures
            *self == ArgsError::TargetOrWasmRequired ==> r@
                == "Error: At least --target=<triple> or --wasm flag is required."@,
            *self == ArgsError::WasmRayonRequiresWasm ==> r@ == "Error: --wasm-rayon requires --wasm"@,
            *self == ArgsError::NativeRequiresTarget ==> r@ == "Error: --native requires --target"@,
    {
        match self {
            ArgsError::TargetOrWasmRequired => "Error: At least --target=<triple> or --wasm flag is required.",
            ArgsError::WasmRayonRequiresWasm => "Error: --wasm-rayon requires --wasm",
            ArgsError::NativeRequiresTarget => "Error: --native requires --target",
        }
    }
}

/// The first rule a set of options breaks, if any: some target is needed,
/// threads only apply to the web build, CPU tuning only to a native one.
pub open spec fn args_check(wasm: bool, wasm_rayon: bool, has_target: bool, native: bool) -> Result<(), ArgsError> {
    if !has_target && !wasm {
        Err(ArgsError::TargetOrWasmRequired)
    } else if wasm_rayon && !wasm {
        Err(ArgsError::WasmRayonRequiresWasm)
    } else if native && !has_target {
        Err(ArgsError::NativeRequiresTarget)
    } else {
        Ok(())
    }
}

pub fn validate_args(args: &Args) -> (r: Result<(), ArgsError>)
    ensures
        r == args_check(args.wasm, args.wasm_rayon, args.target.is_some(), args.native),
{
    let has_target = args.target.is_some();
    if !has_target && !args.wasm {
        Err(ArgsError::TargetOrWasmRequired)
    } else if args.wasm_rayon && !args.wasm {
        Err(ArgsError::WasmRayonRequiresWasm)
    } else if args.native && !has_target {
        Err(ArgsError::NativeRequiresTarget)
    } else {
        Ok(())
    }
}

/// Compiler flags every release build starts with.
pub const BASE_RUSTFLAGS: &'static str = "-Csymbol-mangling-version=v0 -Zlocation-detail=none ";

/// Flags the web build adds.
pub const WASM_RUSTFLAGS: &'static str = " -C target-feature=-nontrapping-fptoint -Zunstable-options -Cpanic=immediate-abort";

/// Flags a threaded web build adds: atomics and a shared, imported memory.
pub const WASM_THREAD_RUSTFLAGS: &'static str = " -Ctarget-feature=+atomics,+bulk-memory -Clink-arg=--shared-memory -Clink-arg=--max-memory=1073741824 -Clink-arg=--import-memory -Clink-arg=--export=__wasm_init_tls -Clink-arg=--export=__tls_size -Clink-arg=--export=__tls_align -Clink-arg=--export=__tls_base";

/// Flags a native build adds.
pub const NATIVE_RUSTFLAGS: &'static str = " -Zfmt-debug=none -Clink-args=-fuse-ld=lld -Clink-args=-Wl,--icf=all";

/// Flag that tunes a native build for the building machine.
pub const TARGET_CPU_NATIVE: &'static str = " -C target-cpu=native";

/// Build configuration written while the builds run.
pub const BUILD_TIME_CONFIG: &'static str = "[alias]\nrelease = \"run --manifest-path ./release/Cargo.toml --\"\n\n[unstable]\nbuild-std = [\"std\", \"panic_abort\"]\nbuild-std-features = [\"\"]\ntrim-paths = true\n";

/// Configuration left behind afterwards: the alias alone.
pub const FINAL_CONFIG: &'static str = "[alias]\nrelease = \"run --manifest-path ./release/Cargo.toml --\"\n";

/// The program a build step runs.
#[derive(Debug, Clone, Copy, PartialEq, Eq, Structural)]
pub enum Program {
    /// `trunk` from the search path.
    Trunk,
    /// The `trunk` binary at the project root.
    LocalTrunk,
    /// `cargo` from the search path.
    Cargo,
}

/// One build: the program, its arguments and the `RUSTFLAGS` it runs with.
pub struct BuildCommand {
    pub program: Program,
    pub args: Vec<String>,
    pub rustflags: String,
}

pub open spec fn string_views(v: Seq<String>) -> Seq<Seq<char>> {
    v.map_values(|s: String| s@)
}

pub open spec fn opt_view(o: Option<String>) -> Option<Seq<char>> {
    match o {
        Some(s) => Some(s@),
        None => None,
    }
}

pub open spec fn wasm_args_spec(wasm_rayon: bool, public_url: Option<Seq<char>>) -> Seq<Seq<char>> {
    let base = seq!["build"@, "--release"@];
    let threaded = if wasm_rayon { base + seq!["--features"@, "wasm-rayon"@] } else { base };
    match public_url {
        Some(u) => threaded + seq!["--public-url"@, u],
        None => threaded,
    }
}

pub open spec fn wasm_rustflags_spec(base: Seq<char>, wasm_rayon: bool) -> Seq<char> {
    let flags = base + WASM_RUSTFLAGS@;
    if wasm_rayon {
        flags + WASM_THREAD_RUSTFLAGS@
    } else {
        flags
    }
}

pub open spec fn native_args_spec(target: Seq<char>) -> Seq<Seq<char>> {
    seq!["+nightly"@, "build"@, "--target"@, target, "--release"@]
}

pub open spec fn native_rustflags_spec(base: Seq<char>, native: bool) -> Seq<char> {
    let flags = base + NATIVE_RUSTFLAGS@;
    if native {
        flags + TARGET_CPU_NATIVE@
    } else {
        flags
    }
}

fn push_str(v: &mut Vec<String>, s: &str)
    ensures
        string_views(final(v)@) == string_views(old(v)@).push(s@),
{
    let ghost before = v@;
    v.push(String::from_str(s));
    assert(string_views(v@) =~= string_views(before).push(s@));
}

/// The web build: `trunk build --release`, with the thread feature and the
/// public URL where asked for, from the project's own trunk in CI mode.
pub fn wasm_build(args: &Args, base_rustflags: &str) -> (r: BuildCommand)
    ensures
        r.program == if args.ci { Program::LocalTrunk } else { Program::Trunk },
        string_views(r.args@) == wasm_args_spec(args.wasm_rayon, opt_view(args.public_url)),
        r.rustflags@ == wasm_rustflags_spec(base_rustflags@, args.wasm_rayon),
{
    let mut rustflags = String::from_str(base_rustflags);
    rustflags.append(WASM_RUSTFLAGS);
    let mut trunk_args: Vec<String> = Vec::new();
    push_str(&mut trunk_args, "build");
    push_str(&mut trunk_args, "--release");
    if args.wasm_rayon {
        rustflags.append(WASM_THREAD_RUSTFLAGS);
        push_str(&mut trunk_args, "--features");
        push_str(&mut trunk_args, "wasm-rayon");
    }
    match &args.public_url {
        Some(url) => {
            push_str(&mut trunk_args, "--public-url");
            push_str(&mut trunk_args, url.as_str());
        },
        None => {},
    }
    let program = if args.ci { Program::LocalTrunk } else { Program::Trunk };
    assert(string_views(trunk_args@) =~= wasm_args_spec(args.wasm_rayon, opt_view(args.public_url)));
    BuildCommand { program, args: trunk_args, rustflags }
}

/// The native build: `cargo +nightly build --target <target> --release`,
/// tuned for the building machine where asked for.
pub fn native_build(target: &str, native: bool, base_rustflags: &str) -> (r: BuildCommand)
    ensures
        r.program == Program::Cargo,
        string_views(r.args@) == native_args_spec(target@),
        r.rustflags@ == native_rustflags_spec(base_rustflags@, native),
{
    let mut rustflags = String::from_str(base_rustflags);
    rustflags.append(NATIVE_RUSTFLAGS);
    if native {
        rustflags.append(TARGET_CPU_NATIVE);
    }
    let mut cargo_args: Vec<String> = Vec::new();
    push_str(&mut cargo_args, "+nightly");
    push_str(&mut cargo_args, "build");
    push_str(&mut cargo_args, "--target");
    push_str(&mut cargo_args, target);
    push_str(&mut cargo_args, "--release");
    assert(string_views(cargo_args@) =~= native_args_spec(target@));
    BuildCommand { program: Program::Cargo, args: cargo_args, rustflags }
}

/// The builds the options ask for, in the order they run: the web build
/// first, then the native one. Refused options give their error.
pub fn plan_builds(args: &Args) -> (r: Result<Vec<BuildCommand>, ArgsError>)
    ensures
        args_check(args.wasm, args.wasm_rayon, args.target.is_some(), args.native) is Err ==> r
            is Err && r->Err_0 == args_check(
            args.wasm,
            args.wasm_rayon,
            args.target.is_some(),
            args.native,
        )->Err_0,
        args_check(args.wasm, args.wasm_rayon, args.target.is_some(), args.native) is Ok ==> r is Ok
            && r->Ok_0.len() == (if args.wasm { 1int } else { 0int }) + (if args.target.is_some() {
            1int
        } else {
            0int
        }),
        r is Ok && args.wasm ==> ({
            let first = r->Ok_0[0];
            &&& first.program == if args.ci { Program::LocalTrunk } else { Program::Trunk }
            &&& string_views(first.args@) == wasm_args_spec(args.wasm_rayon, opt_view(args.public_url))
            &&& first.rustflags@ == wasm_rustflags_spec(BASE_RUSTFLAGS@, args.wasm_rayon)
        }),
        r is Ok && args.target.is_some() ==> ({
            let last = r->Ok_0[r->Ok_0.len() - 1];
            &&& last.program == Program::Cargo
            &&& string_views(last.args@) == native_args_spec(args.target->Some_0@)
            &&& last.rustflags@ == native_rustflags_spec(BASE_RUSTFLAGS@, args.native)
        }),
{
    match validate_args(args) {
        Err(e) => Err(e),
        Ok(()) => {
            let mut builds: Vec<BuildCommand> = Vec::new();
            if args.wasm {
                builds.push(wasm_build(args, BASE_RUSTFLAGS));
            }
            match &args.target {
                Some(t) => {
                    builds.push(native_build(t.as_str(), args.native, BASE_RUSTFLAGS));
                },
                None => {},
            }
            Ok(builds)
        },
    }
}

/// `parts` joined with `sep` between neighbours.
pub open spec fn joined(parts: Seq<Seq<char>>, sep: Seq<char>) -> Seq<char>
    decreases parts.len(),
{
    if parts.len() == 0 {
        Seq::empty()
    } else if parts.len() == 1 {
        parts[0]
    } else {
        joined(parts.drop_last(), sep) + sep + parts.last()
    }
}

/// The command line as it is echoed: the program, a space, and the
/// arguments separated by spaces.
pub fn command_line(program: &str, args: &Vec<String>) -> (r: String)
    ensures
        r@ == program@ + " "@ + joined(string_views(args@), " "@),
{
    let mut line = String::from_str(program);
    line.append(" ");
    let ghost head = line@;
    let mut i: usize = 0;
    while i < args.len()
        invariant
            i <= args.len(),
            line@ == head + joined(string_views(args@).take(i as int), " "@),
        decreases args.len() - i,
    {
        let ghost parts = string_views(args@);
        assert(parts.take(i + 1).drop_last() =~= parts.take(i as int));
        if i > 0 {
            line.append(" ");
        }
        line.append(args[i].as_str());
        proof {
            assert(parts.take(i + 1).last() == args@[i as int]@);
            if i == 0 {
                assert(parts.take(0) =~= Seq::<Seq<char>>::empty());
                assert(joined(parts.take(1), " "@) == parts.take(1)[0]);
            }
            assert(line@ =~= head + joined(parts.take(i + 1), " "@));
        }
        i = i + 1;
    }
    assert(string_views(args@).take(args.len() as int) =~= string_views(args@));
    line
}

/// Owns the path of the build configuration; the helper rewrites that file
/// to `FINAL_CONFIG` when the guard goes away.
pub struct ConfigGuard {
    path: PathBuf,
}

impl ConfigGuard {
    pub closed spec fn path_view(&self) -> PathBuf {
        self.path
    }

    pub fn new(path: PathBuf) -> (r: Self)
        ensures
            r.path_view() == path,
    {
        ConfigGuard { path }
    }

    pub fn path(&self) -> (r: &PathBuf)
        ensures
            *r == self.path_view(),
    {
        &self.path
    }
}

} // verus!
