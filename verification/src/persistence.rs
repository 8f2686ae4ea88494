//! Where a conversation that no provider answered is saved.

use vstd::prelude::*;
use vstd::string::StringExecFns;

use crate::config::{expand_tilde, expand_tilde_spec, join_path, path_join};
use crate::text::chars_of;

verus! {

/// The file name of a failed conversation: the cascade name, `_`, the local
/// time stamp (`YYYYmmdd_HHMMSS`), `.json`.
pub open spec fn failed_file_name_spec(cascade_name: Seq<char>, stamp: Seq<char>) -> Seq<char> {
    cascade_name + "_"@ + stamp + ".json"@
}

/// The file name of a failed conversation.
pub fn failed_file_name(cascade_name: &str, stamp: &str) -> (r: String)
    ensures
        r@ == failed_file_name_spec(cascade_name@, stamp@),
{
    let mut r = String::from_str(cascade_name);
    r.append("_");
    r.append(stamp);
    r.append(".json");
    r
}

/// Whether a Unix path is absolute (begins with `/`).
pub open spec fn is_absolute(path: Seq<char>) -> bool {
    path.len() > 0 && path[0] == '/'
}

/// The absolute path of a failed conversation: the file name inside the
/// configured directory, a leading `~/` expanded to the home directory, and a
/// path that is still relative taken from the working directory `cwd`.
pub open spec fn failed_path_spec(
    dir: Seq<char>,
    home: Option<Seq<char>>,
    cwd: Seq<char>,
    cascade_name: Seq<char>,
    stamp: Seq<char>,
) -> Seq<char> {
    let p = path_join(expand_tilde_spec(dir, home), failed_file_name_spec(cascade_name, stamp));
    if is_absolute(p) {
        p
    } else {
        path_join(cwd, p)
    }
}

/// The absolute path of a failed conversation, given the home directory (the
/// value of `HOME`, when set) and the working directory.
pub fn failed_path(dir: &str, home: Option<&str>, cwd: &str, cascade_name: &str, stamp: &str) -> (r:
    String)
    ensures
        r@ == failed_path_spec(
            dir@,
            match home {
                Some(h) => Some(h@),
                None => None,
            },
            cwd@,
            cascade_name@,
            stamp@,
        ),
        is_absolute(cwd@) ==> is_absolute(r@),
{
    let d = expand_tilde(dir, home);
    let f = failed_file_name(cascade_name, stamp);
    let p = join_path(d.as_str(), f.as_str());
    let v = chars_of(p.as_str());
    if v.len() > 0 && v[0] == '/' {
        return p;
    }
    let r = join_path(cwd, p.as_str());
    proof {
        let c = cwd@;
        if c.len() > 0 {
            let pv = p@;
            if pv.len() > 0 && pv[0] == '/' {
            } else if c.last() == '/' {
                assert((c + pv)[0] == c[0]);
            } else {
                assert((c + seq!['/'] + pv)[0] == c[0]);
            }
        }
    }
    r
}

} // verus!
