//! Path layout of a resource directory.
use vstd::prelude::*;

verus! {

/// The operating-system family the application runs on.
#[derive(Clone, Copy, Debug, PartialEq, Eq, Structural)]
pub enum Platform {
    Windows,
    Unix,
}

/// Is `c` a path separator on `platform`?
pub open spec fn is_separator(platform: Platform, c: char) -> bool {
    match platform {
        Platform::Windows => c == '/' || c == '\\',
        Platform::Unix => c == '/',
    }
}

/// The separator inserted between two path components.
pub open spec fn separator(platform: Platform) -> Seq<char> {
    match platform {
        Platform::Windows => seq!['\\'],
        Platform::Unix => seq!['/'],
    }
}

/// `dir` followed by the relative component `name`, with one separator between them.
pub open spec fn joined(platform: Platform, dir: Seq<char>, name: Seq<char>) -> Seq<char> {
    if dir.len() == 0 || is_separator(platform, dir.last()) {
        dir + name
    } else {
        dir + separator(platform) + name
    }
}

/// Appends the relative component `name` to the directory `dir`.
pub fn join(platform: Platform, dir: &str, name: &str) -> (r: String)
    ensures
        r@ == joined(platform, dir@, name@),
{
    let n = dir.unicode_len();
    let needs_separator = if n == 0 {
        false
    } else {
        let c = dir.get_char(n - 1);
        match platform {
            Platform::Windows => !(c == '/' || c == '\\'),
            Platform::Unix => c != '/',
        }
    };
    let mut r = String::from_str(dir);
    if needs_separator {
        match platform {
            Platform::Windows => {
                let s = "\\";
                proof {
                    reveal_strlit("\\");
                }
                r.append(s);
            },
            Platform::Unix => {
                let s = "/";
                proof {
                    reveal_strlit("/");
                }
                r.append(s);
            },
        }
    }
    r.append(name);
    r
}

} // verus!
