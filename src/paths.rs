//! Where the configuration files are looked for, in order of preference.

use vstd::prelude::*;
use vstd::string::StringExecFns;

verus! {

#[derive(Clone, Copy, Debug, PartialEq, Eq, Structural)]
pub enum PathError {
    /// Neither `XDG_CONFIG_HOME` nor `HOME` is set.
    NoHome,
}

pub open spec fn opt_str(s: Option<String>) -> Option<Seq<char>> {
    match s {
        Some(t) => Some(t@),
        None => None,
    }
}

/// The user's configuration directory: `XDG_CONFIG_HOME`, else `HOME/.config`.
pub open spec fn user_config_dir(xdg_config_home: Option<Seq<char>>, home: Option<Seq<char>>) -> Option<Seq<char>> {
    match xdg_config_home {
        Some(x) => Some(x),
        None => match home {
            Some(h) => Some(h + "/.config"@),
            None => None,
        },
    }
}

/// The paths to try for `file`, in order: the one given explicitly, the
/// user's own, then the system-wide ones.
pub open spec fn candidates_for(
    file: Seq<char>,
    explicit: Option<Seq<char>>,
    xdg_config_home: Option<Seq<char>>,
    home: Option<Seq<char>>,
) -> Result<Seq<Seq<char>>, PathError> {
    match user_config_dir(xdg_config_home, home) {
        None => Err(PathError::NoHome),
        Some(dir) => {
            let fixed = seq![
                dir + "/rlogout/"@ + file,
                "/etc/rlogout/"@ + file,
                "/usr/local/etc/rlogout/"@ + file,
            ];
            match explicit {
                Some(p) => Ok(seq![p] + fixed),
                None => Ok(fixed),
            }
        },
    }
}

pub open spec fn strings_view(v: Seq<String>) -> Seq<Seq<char>> {
    v.map_values(|s: String| s@)
}

fn join(a: &str, b: &str) -> (r: String)
    ensures
        r@ == a@ + b@,
{
    let mut s = a.to_owned();
    s.append(b);
    s
}

/// The paths to try for the configuration file `file`.
pub fn config_candidates(
    file: &str,
    explicit: &Option<String>,
    xdg_config_home: &Option<String>,
    home: &Option<String>,
) -> (r: Result<Vec<String>, PathError>)
    ensures
        match r {
            Ok(v) => candidates_for(file@, opt_str(*explicit), opt_str(*xdg_config_home), opt_str(*home))
                == Ok::<Seq<Seq<char>>, PathError>(strings_view(v@)),
            Err(e) => candidates_for(file@, opt_str(*explicit), opt_str(*xdg_config_home), opt_str(*home))
                == Err::<Seq<Seq<char>>, PathError>(e),
        },
{
    let dir = match xdg_config_home {
        Some(x) => x.clone(),
        None => match home {
            Some(h) => join(h.as_str(), "/.config"),
            None => return Err(PathError::NoHome),
        },
    };
    let mut v: Vec<String> = Vec::new();
    if let Some(p) = explicit {
        v.push(p.clone());
    }
    let user = join(join(dir.as_str(), "/rlogout/").as_str(), file);
    v.push(user);
    v.push(join("/etc/rlogout/", file));
    v.push(join("/usr/local/etc/rlogout/", file));
    let ghost want = candidates_for(file@, opt_str(*explicit), opt_str(*xdg_config_home), opt_str(*home));
    assert(want matches Ok(w) && w =~= strings_view(v@));
    Ok(v)
}

/// The paths to try for the layout.
pub fn layout_candidates(
    explicit: &Option<String>,
    xdg_config_home: &Option<String>,
    home: &Option<String>,
) -> (r: Result<Vec<String>, PathError>)
    ensures
        match r {
            Ok(v) => candidates_for("layout.json"@, opt_str(*explicit), opt_str(*xdg_config_home), opt_str(*home))
                == Ok::<Seq<Seq<char>>, PathError>(strings_view(v@)),
            Err(e) => candidates_for("layout.json"@, opt_str(*explicit), opt_str(*xdg_config_home), opt_str(*home))
                == Err::<Seq<Seq<char>>, PathError>(e),
        },
{
    config_candidates("layout.json", explicit, xdg_config_home, home)
}

/// The paths to try for the stylesheet.
pub fn stylesheet_candidates(
    explicit: &Option<String>,
    xdg_config_home: &Option<String>,
    home: &Option<String>,
) -> (r: Result<Vec<String>, PathError>)
    ensures
        match r {
            Ok(v) => candidates_for("style.css"@, opt_str(*explicit), opt_str(*xdg_config_home), opt_str(*home))
                == Ok::<Seq<Seq<char>>, PathError>(strings_view(v@)),
            Err(e) => candidates_for("style.css"@, opt_str(*explicit), opt_str(*xdg_config_home), opt_str(*home))
                == Err::<Seq<Seq<char>>, PathError>(e),
        },
{
    config_candidates("style.css", explicit, xdg_config_home, home)
}

/// Position of the first candidate that exists.
pub fn first_existing(exists: &Vec<bool>) -> (r: Option<usize>)
    ensures
        match r {
            Some(i) => i < exists@.len() && exists@[i as int] && forall|k: int| 0 <= k < i ==> !exists@[k],
            None => forall|k: int| 0 <= k < exists@.len() ==> !exists@[k],
        },
{
    let mut i: usize = 0;
    while i < exists.len()
        invariant
            i <= exists@.len(),
            forall|k: int| 0 <= k < i ==> !exists@[k],
        decreases exists@.len() - i,
    {
        if exists[i] {
            return Some(i);
        }
        i = i + 1;
    }
    None
}

} // verus!
