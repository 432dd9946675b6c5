//! Artifact naming for the build/install tool: a script's produced
//! artifact is named after its directory with hyphens mapped to
//! underscores, plus the `.wasm` extension; the installer copies exactly
//! the files bearing one of those expected names.

use vstd::prelude::*;

verus! {

/// Hyphens mapped to underscores; every other character kept.
pub open spec fn dash_to_underscore(s: Seq<char>) -> Seq<char> {
    s.map_values(
        |c: char|
            if c == '-' {
                '_'
            } else {
                c
            },
    )
}

/// The artifact filename a script directory named `name` produces.
pub open spec fn artifact_name_of(name: Seq<char>) -> Seq<char> {
    dash_to_underscore(name) + ".wasm"@
}

/// Whether `filename` is the artifact of one of the given script names.
pub open spec fn is_expected(filename: Seq<char>, names: Seq<Seq<char>>) -> bool {
    exists|i: int| 0 <= i < names.len() && filename == artifact_name_of(#[trigger] names[i])
}

/// Map hyphens to underscores, exactly [`dash_to_underscore`].
pub fn map_dashes(name: &str) -> (r: String)
    ensures
        r@ == dash_to_underscore(name@),
{
    let n = name.unicode_len();
    let mut out = String::new();
    let mut i: usize = 0;
    while i < n
        invariant
            n == name@.len(),
            i <= n,
            out@ == dash_to_underscore(name@.subrange(0, i as int)),
        decreases n - i,
    {
        let c = name.get_char(i);
        if c == '-' {
            out.append("_");
            proof {
                reveal_strlit("_");
            }
        } else {
            let piece = name.substring_char(i, i + 1);
            out.append(piece);
        }
        proof {
            assert(out@ =~= dash_to_underscore(name@.subrange(0, i + 1)));
        }
        i += 1;
    }
    proof {
        assert(name@.subrange(0, n as int) =~= name@);
    }
    out
}

/// Build the artifact filename, exactly [`artifact_name_of`].
pub fn wasm_artifact_name(name: &str) -> (r: String)
    ensures
        r@ == artifact_name_of(name@),
{
    let mut out = map_dashes(name);
    out.append(".wasm");
    out
}

/// Decide whether `filename` is one of the artifacts the given script
/// directories produce — the installer copies it exactly in that case.
pub fn is_expected_artifact(filename: &str, script_names: &Vec<String>) -> (b: bool)
    ensures
        b == is_expected(filename@, script_names.deep_view()),
{
    let owned = String::from_str(filename);
    let n = script_names.len();
    let mut i: usize = 0;
    while i < n
        invariant
            n == script_names@.len(),
            i <= n,
            owned@ == filename@,
            forall|j: int|
                0 <= j < i ==> filename@ != artifact_name_of(
                    #[trigger] script_names.deep_view()[j],
                ),
        decreases n - i,
    {
        proof {
            assert(script_names.deep_view()[i as int] == script_names@[i as int]@);
        }
        let expected = wasm_artifact_name(script_names[i].as_str());
        if owned.eq(&expected) {
            return true;
        }
        i += 1;
    }
    false
}

} // verus!
