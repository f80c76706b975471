//! Expansion of the daemon's socket path: a leading `~/` is replaced by the
//! caller's home directory when one is known.

use vstd::prelude::*;
use vstd::string::StringExecFns;

verus! {

/// Relies on `dirs_next::home_dir`: the caller's home directory, if the
/// platform reports one. The value depends on the environment, so nothing
/// is promised about it.
#[verifier::external_body]
fn home_dir_string() -> (r: Option<String>)
{
    dirs_next::home_dir().map(|p| p.to_string_lossy().to_string())
}

/// `path` with a leading `~/` replaced by `home` and a path separator;
/// any other path, or no known home, comes back unchanged.
pub open spec fn spec_expand_tilde(path: Seq<char>, home: Option<Seq<char>>) -> Seq<char> {
    if path.len() >= 2 && path[0] == '~' && path[1] == '/' && home is Some {
        home->0 + "/"@ + path.skip(2)
    } else {
        path
    }
}

/// Expands a leading `~/` against the given home directory.
pub fn expand_tilde_with(path: &str, home: Option<&String>) -> (r: String)
    ensures
        r@ == spec_expand_tilde(
            path@,
            match home {
                Some(h) => Some(h@),
                None => None,
            },
        ),
{
    let len = path.unicode_len();
    if len >= 2 && path.get_char(0) == '~' && path.get_char(1) == '/' {
        if let Some(h) = home {
            let mut out = h.clone();
            out.append("/");
            let rest = path.substring_char(2, len);
            out.append(rest);
            return out;
        }
    }
    path.to_owned()
}

/// Expands a leading `~/` in a socket path against the caller's home
/// directory. The home directory comes from the environment, so the result
/// is pinned only relative to it: there is some home report under which
/// this is exactly `spec_expand_tilde`.
pub fn expand_tilde(path: &str) -> (r: String)
    ensures
        exists|home: Option<Seq<char>>| r@ == spec_expand_tilde(path@, home),
{
    let home = home_dir_string();
    let r = expand_tilde_with(path, home.as_ref());
    proof {
        let h = match home {
            Some(hs) => Some(hs@),
            None => None,
        };
        assert(r@ == spec_expand_tilde(path@, h));
    }
    r
}

} // verus!
