use vstd::prelude::*;

use crate::paths::{output_path, output_path_of};
use crate::profile::{entry_name, profile_token, Profile, Stage};

verus! {

/// The compiler that turns HLSL into SPIR-V.
pub const COMPILER: &'static str = "dxc";

/// The texts of a list of strings.
pub open spec fn texts(v: Seq<String>) -> Seq<Seq<char>> {
    v.map_values(|a: String| a@)
}

/// The arguments the compiler is started with for source `src`, profile token
/// `token` and stage `st`: the source, the target profile, SPIR-V output in the
/// GL memory layout, the output path, and the entry-point name where the stage
/// has one.
pub open spec fn compile_args_of(src: Seq<char>, token: Seq<char>, st: Stage) -> Seq<Seq<char>> {
    let base = seq![
        src,
        "-T"@,
        token,
        "-spirv"@,
        "-fvk-use-gl-layout"@,
        "-Fo"@,
        output_path_of(src),
    ];
    match entry_name(st) {
        Some(n) => base.push("-fspv-entrypoint-name="@ + n),
        None => base,
    }
}

fn push_text(v: &mut Vec<String>, a: String)
    ensures
        texts(final(v)@) == texts(old(v)@).push(a@),
{
    let ghost t = a@;
    v.push(a);
    proof {
        assert(texts(v@) =~= texts(old(v)@).push(t));
    }
}

fn text(s: &str) -> (r: String)
    ensures
        r@ == s@,
{
    String::from_str(s)
}

/// The arguments for compiling `source_path` under `profile`.
pub fn compile_args(source_path: &str, profile: &Profile) -> (r: Vec<String>)
    requires
        profile.is_valid(),
    ensures
        texts(r@) == compile_args_of(
            source_path@,
            profile_token(profile.stage, profile.minor as int),
            profile.stage,
        ),
{
    let mut args: Vec<String> = Vec::new();
    push_text(&mut args, text(source_path));
    push_text(&mut args, text("-T"));
    push_text(&mut args, profile.token());
    push_text(&mut args, text("-spirv"));
    push_text(&mut args, text("-fvk-use-gl-layout"));
    push_text(&mut args, text("-Fo"));
    push_text(&mut args, output_path(source_path));
    let ghost base = texts(args@);
    match profile.entry_point() {
        Some(n) => {
            let mut flag = text("-fspv-entrypoint-name=");
            flag.append(n);
            push_text(&mut args, flag);
        },
        None => {},
    }
    proof {
        let src = source_path@;
        let want = seq![
            src,
            "-T"@,
            profile_token(profile.stage, profile.minor as int),
            "-spirv"@,
            "-fvk-use-gl-layout"@,
            "-Fo"@,
            output_path_of(src),
        ];
        assert(base =~= want);
    }
    args
}

} // verus!
