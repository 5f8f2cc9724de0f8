use std::path::PathBuf;

use particle_simulation::build_plan::{
    command_line, native_build, plan_builds, validate_args, wasm_build, Args, ArgsError,
    ConfigGuard, Program, BASE_RUSTFLAGS,
};

fn args() -> Args {
    Args { wasm: false, wasm_rayon: false, target: None, native: false, public_url: None, ci: false }
}

#[test]
fn refused_options() {
    assert_eq!(validate_args(&args()), Err(ArgsError::TargetOrWasmRequired));
    let a = Args { target: Some("x86_64-unknown-linux-gnu".to_string()), wasm_rayon: true, ..args() };
    assert_eq!(validate_args(&a), Err(ArgsError::WasmRayonRequiresWasm));
    let a = Args { wasm: true, native: true, ..args() };
    assert_eq!(validate_args(&a), Err(ArgsError::NativeRequiresTarget));
    assert_eq!(validate_args(&Args { wasm: true, ..args() }), Ok(()));
    assert_eq!(ArgsError::NativeRequiresTarget.message(), "Error: --native requires --target");
    assert!(plan_builds(&args()).is_err());
}

#[test]
fn web_build_flags() {
    let a = Args { wasm: true, ..args() };
    let b = wasm_build(&a, BASE_RUSTFLAGS);
    assert_eq!(b.program, Program::Trunk);
    assert_eq!(b.args, vec!["build", "--release"]);
    assert_eq!(
        b.rustflags,
        "-Csymbol-mangling-version=v0 -Zlocation-detail=none  -C target-feature=-nontrapping-fptoint -Zunstable-options -Cpanic=immediate-abort"
    );
    let a = Args {
        wasm: true,
        wasm_rayon: true,
        ci: true,
        public_url: Some("/particles/".to_string()),
        ..args()
    };
    let b = wasm_build(&a, "");
    assert_eq!(b.program, Program::LocalTrunk);
    assert_eq!(
        b.args,
        vec!["build", "--release", "--features", "wasm-rayon", "--public-url", "/particles/"]
    );
    assert!(b.rustflags.contains(" -Ctarget-feature=+atomics,+bulk-memory -Clink-arg=--shared-memory"));
    assert!(b.rustflags.ends_with("-Clink-arg=--export=__tls_base"));
}

#[test]
fn native_build_flags() {
    let b = native_build("aarch64-apple-darwin", true, "X");
    assert_eq!(b.program, Program::Cargo);
    assert_eq!(b.args, vec!["+nightly", "build", "--target", "aarch64-apple-darwin", "--release"]);
    assert_eq!(
        b.rustflags,
        "X -Zfmt-debug=none -Clink-args=-fuse-ld=lld -Clink-args=-Wl,--icf=all -C target-cpu=native"
    );
    let b = native_build("t", false, "");
    assert!(!b.rustflags.contains("target-cpu"));
}

#[test]
fn builds_run_web_first() {
    let a = Args { wasm: true, target: Some("t".to_string()), ..args() };
    let plan = plan_builds(&a).unwrap_or_else(|_| panic!("options are valid"));
    assert_eq!(plan.len(), 2);
    assert_eq!(plan[0].program, Program::Trunk);
    assert_eq!(plan[1].program, Program::Cargo);
    let a = Args { target: Some("t".to_string()), ..args() };
    assert_eq!(plan_builds(&a).map(|p| p.len()).unwrap_or(0), 1);
}

#[test]
fn echoed_command_line() {
    let parts = vec!["build".to_string(), "--release".to_string()];
    assert_eq!(command_line("trunk", &parts), "trunk build --release");
    assert_eq!(command_line("cargo", &vec![]), "cargo ");
    assert_eq!(command_line("c", &vec!["x".to_string()]), "c x");
}

#[test]
fn guard_keeps_its_path() {
    let g = ConfigGuard::new(PathBuf::from(".cargo/config.toml"));
    assert_eq!(g.path(), &PathBuf::from(".cargo/config.toml"));
}
