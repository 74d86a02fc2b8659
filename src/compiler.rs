use vstd::prelude::*;

use crate::path::texts;

verus! {

/// The toolchain family, chosen once from the platform the tool runs on.
#[derive(Debug, Clone, Copy, PartialEq, Eq, Structural)]
pub enum Platform {
    /// clang++ is called directly.
    Unix,
    /// MSVC's `cl` is called through `cmd`.
    Windows,
}

/// A program to launch and the arguments to hand it.
#[derive(Debug)]
pub struct Invocation {
    pub program: String,
    pub args: Vec<String>,
}

/// Where the compiled builder lives, relative to the project root.
pub open spec fn builder_artifact_text(platform: Platform) -> Seq<char> {
    match platform {
        Platform::Unix => ".talon/talon_build"@,
        Platform::Windows => ".talon\\talon_build.exe"@,
    }
}

/// Where the cache record lives, relative to the project root.
pub open spec fn cache_record_text(platform: Platform) -> Seq<char> {
    match platform {
        Platform::Unix => ".talon/build_cache.txt"@,
        Platform::Windows => ".talon\\build_cache.txt"@,
    }
}

/// The path of the compiled builder, relative to the project root.
pub fn builder_artifact_path(platform: Platform) -> (r: String)
    ensures
        r@ == builder_artifact_text(platform),
{
    match platform {
        Platform::Unix => String::from_str(".talon/talon_build"),
        Platform::Windows => String::from_str(".talon\\talon_build.exe"),
    }
}

/// The path of the cache record, relative to the project root.
pub fn cache_record_path(platform: Platform) -> (r: String)
    ensures
        r@ == cache_record_text(platform),
{
    match platform {
        Platform::Unix => String::from_str(".talon/build_cache.txt"),
        Platform::Windows => String::from_str(".talon\\build_cache.txt"),
    }
}

/// The compiler command line: clang++ with debug symbols, no optimisation, C++23 and an
/// explicit output; or `cl` through `cmd`, whose output goes to the fixed builder path.
pub open spec fn invocation_texts(platform: Platform, script: Seq<char>, output: Seq<char>) -> (
    Seq<char>,
    Seq<Seq<char>>,
) {
    match platform {
        Platform::Unix => ("clang++"@, seq!["-g"@, "-O0"@, "-o"@, output, script, "-std=c++23"@]),
        Platform::Windows => (
            "cmd"@,
            seq![
                "/C"@,
                "cl"@,
                "/std:c++latest"@,
                "/EHsc"@,
                script,
                "/link"@,
                "/out:.talon/talon_build.exe"@,
            ],
        ),
    }
}

/// Builds the command that compiles the build script `script` into the builder at `output`.
pub fn compiler_invocation(platform: Platform, script: &str, output: &str) -> (r: Invocation)
    ensures
        (r.program@, texts(r.args@)) == invocation_texts(platform, script@, output@),
{
    let mut args: Vec<String> = Vec::new();
    match platform {
        Platform::Unix => {
            args.push(String::from_str("-g"));
            args.push(String::from_str("-O0"));
            args.push(String::from_str("-o"));
            args.push(String::from_str(output));
            args.push(String::from_str(script));
            args.push(String::from_str("-std=c++23"));
            let r = Invocation { program: String::from_str("clang++"), args };
            assert(texts(r.args@) =~= invocation_texts(platform, script@, output@).1);
            r
        },
        Platform::Windows => {
            args.push(String::from_str("/C"));
            args.push(String::from_str("cl"));
            args.push(String::from_str("/std:c++latest"));
            args.push(String::from_str("/EHsc"));
            args.push(String::from_str(script));
            args.push(String::from_str("/link"));
            args.push(String::from_str("/out:.talon/talon_build.exe"));
            let r = Invocation { program: String::from_str("cmd"), args };
            assert(texts(r.args@) =~= invocation_texts(platform, script@, output@).1);
            r
        },
    }
}

} // verus!
