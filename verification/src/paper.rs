//! Argument building for a paper (or plain jar) minecraft server: JVM
//! arguments, then `-jar` with the chosen server jar, then `nogui`.

use crate::install::{InstallDir, LaunchError};
use vstd::prelude::*;

verus! {

/// A jar file name that begins with `paper`.
pub open spec fn is_paper_name(s: Seq<char>) -> bool {
    s.len() >= 5 && s[0] == 'p' && s[1] == 'a' && s[2] == 'p' && s[3] == 'e' && s[4] == 'r'
}

/// The name of the first jar at or past `i` that begins with `paper`.
pub open spec fn first_paper_from(jars: Seq<String>, i: int) -> Option<Seq<char>>
    decreases jars.len() - i,
{
    if i < 0 || i >= jars.len() {
        None
    } else if is_paper_name(jars[i]@) {
        Some(jars[i]@)
    } else {
        first_paper_from(jars, i + 1)
    }
}

/// Which jar is launched: `server.jar` when it exists; otherwise the first
/// jar named like paper; otherwise the first jar found at all — when several
/// candidates exist the first is picked rather than failing; none at all is
/// a failure.
pub open spec fn spec_chosen_jar(d: InstallDir) -> Option<Seq<char>> {
    if d.has_server_jar {
        Some("server.jar"@)
    } else {
        match first_paper_from(d.jar_files@, 0) {
            Some(n) => Some(n),
            None => if d.jar_files@.len() > 0 {
                Some(d.jar_files@[0]@)
            } else {
                None
            },
        }
    }
}

/// Arguments can be built exactly when some jar can be chosen.
pub open spec fn spec_paper_ok(d: InstallDir) -> bool {
    spec_chosen_jar(d) is Some
}

/// The complete paper argument list: the user JVM arguments file when it
/// exists, else the configured extra JVM arguments; then `-jar`, the chosen
/// jar, and `nogui`.
pub open spec fn spec_paper_args(d: InstallDir, extra: Seq<Seq<char>>) -> Seq<Seq<char>>
    recommends
        spec_paper_ok(d),
{
    let base: Seq<Seq<char>> = if d.has_user_jvm_args {
        seq!["@user_jvm_args.txt"@]
    } else {
        extra
    };
    base + seq!["-jar"@, spec_chosen_jar(d).unwrap(), "nogui"@]
}

/// Whether this jar name begins with `paper`.
fn has_paper_prefix(name: &String) -> (r: bool)
    ensures
        r == is_paper_name(name@),
{
    let s = name.as_str();
    let n = s.unicode_len();
    if n < 5 {
        return false;
    }
    s.get_char(0) == 'p' && s.get_char(1) == 'a' && s.get_char(2) == 'p' && s.get_char(3) == 'e'
        && s.get_char(4) == 'r'
}

/// Picks the jar to launch, as [`spec_chosen_jar`] says.
fn choose_jar(d: &InstallDir) -> (r: Option<String>)
    ensures
        r is Some <==> spec_chosen_jar(*d) is Some,
        r matches Some(j) ==> spec_chosen_jar(*d) == Some(j@),
{
    if d.has_server_jar {
        return Some("server.jar".to_owned());
    }
    let mut i: usize = 0;
    while i < d.jar_files.len()
        invariant
            !d.has_server_jar,
            i <= d.jar_files@.len(),
            first_paper_from(d.jar_files@, 0) == first_paper_from(d.jar_files@, i as int),
        decreases d.jar_files@.len() - i,
    {
        if has_paper_prefix(&d.jar_files[i]) {
            proof {
                assert(first_paper_from(d.jar_files@, i as int) == Some(d.jar_files@[i as int]@));
            }
            return Some(d.jar_files[i].clone());
        }
        i = i + 1;
    }
    if d.jar_files.len() > 0 {
        Some(d.jar_files[0].clone())
    } else {
        None
    }
}

/// The paper argument list: JVM arguments, `-jar`, the chosen jar, `nogui`.
/// `extra_jvm_args` is the configured JVM argument list used when no
/// `user_jvm_args.txt` exists; it may be empty.
pub fn args(d: &InstallDir, extra_jvm_args: &Vec<String>) -> (r: Result<Vec<String>, LaunchError>)
    ensures
        r is Ok <==> spec_paper_ok(*d),
        r matches Err(e) ==> e == LaunchError::NoArtifact,
        r matches Ok(v) ==> v.deep_view() == spec_paper_args(*d, extra_jvm_args.deep_view()),
{
    let jar = match choose_jar(d) {
        Some(j) => j,
        None => {
            return Err(LaunchError::NoArtifact);
        },
    };
    let mut out: Vec<String> = Vec::new();
    if d.has_user_jvm_args {
        out.push("@user_jvm_args.txt".to_owned());
    } else {
        let mut i: usize = 0;
        while i < extra_jvm_args.len()
            invariant
                i <= extra_jvm_args@.len(),
                out@.len() == i,
                forall|j: int| 0 <= j < i ==> out@[j] == extra_jvm_args@[j],
            decreases extra_jvm_args@.len() - i,
        {
            out.push(extra_jvm_args[i].clone());
            i = i + 1;
        }
    }
    out.push("-jar".to_owned());
    out.push(jar);
    out.push("nogui".to_owned());
    proof {
        assert(out.deep_view() =~= spec_paper_args(*d, extra_jvm_args.deep_view()));
    }
    Ok(out)
}

} // verus!
