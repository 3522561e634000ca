use vstd::prelude::*;

use crate::status::opt_str_view;

verus! {

/// What `Path::join` gives for a base and a relative part.
pub uninterp spec fn path_joined(base: Seq<char>, rest: Seq<char>) -> Seq<char>;

/// What `Path::parent` gives for a path.
pub uninterp spec fn path_parent(p: Seq<char>) -> Option<Seq<char>>;

/// Relies on std's `Path::join`: the result depends on the two parts alone.
#[verifier::external_body]
pub(crate) fn join_path(base: &str, rest: &str) -> (r: String)
    ensures
        r@ == path_joined(base@, rest@),
{
    std::path::Path::new(base).join(rest).to_string_lossy().into_owned()
}

/// Relies on std's `Path::parent`: the path without its final component, which
/// is a proper prefix of it; `None` for a root or an empty path.
#[verifier::external_body]
pub(crate) fn parent_path(p: &str) -> (r: Option<String>)
    ensures
        opt_str_view(r) == path_parent(p@),
        r.is_some() ==> r.unwrap()@.len() < p@.len(),
{
    std::path::Path::new(p).parent().map(|q| q.to_string_lossy().into_owned())
}

/// What `Path::is_absolute` gives for a path on the target platform.
pub uninterp spec fn path_absolute(p: Seq<char>) -> bool;

/// Relies on std's `Path::is_absolute`: the result depends on the path alone
/// (and on the platform, which is fixed for a build).
#[verifier::external_body]
pub(crate) fn is_absolute_path(p: &str) -> (r: bool)
    ensures
        r == path_absolute(p@),
{
    std::path::Path::new(p).is_absolute()
}

/// Relies on std's `Path::exists`: whether something is on disk at the path now.
#[verifier::external_body]
pub(crate) fn path_exists(p: &str) -> (r: bool) {
    std::path::Path::new(p).exists()
}

/// Relies on std's `Path::is_file`: whether a regular file is on disk at the path now.
#[verifier::external_body]
pub(crate) fn path_is_file(p: &str) -> (r: bool) {
    std::path::Path::new(p).is_file()
}

/// Relies on `dirs::home_dir`: the user's home directory, read from the
/// environment, if one is known.
#[verifier::external_body]
pub(crate) fn home_dir() -> (r: Option<String>) {
    dirs::home_dir().map(|h| h.to_string_lossy().into_owned())
}

/// The files whose presence marks a directory as the worker's repository root.
pub open spec fn asset_files() -> Seq<Seq<char>> {
    seq!["desktop/proxy-daemon.js"@, "src/index.js"@, "package.json"@]
}

/// The directories searched for an interpreter when the search path has none,
/// before those under the home directory.
pub open spec fn system_dirs() -> Seq<Seq<char>> {
    seq![
        "/usr/local/bin"@,
        "/usr/local/sbin"@,
        "/usr/bin"@,
        "/bin"@,
        "/opt/homebrew/bin"@,
        "/opt/homebrew/sbin"@,
        "/opt/local/bin"@,
        "/opt/local/sbin"@,
    ]
}

pub open spec fn fallback_dirs_for(home: Option<Seq<char>>) -> Seq<Seq<char>> {
    match home {
        Some(h) => system_dirs() + seq![path_joined(h, ".volta/bin"@), path_joined(h, ".asdf/shims"@)],
        None => system_dirs(),
    }
}

pub open spec fn grandparent_or_current_spec(p: Seq<char>) -> Seq<char> {
    match path_parent(p) {
        Some(q) => match path_parent(q) {
            Some(g) => g,
            None => "."@,
        },
        None => "."@,
    }
}

pub open spec fn views_of(v: Seq<String>) -> Seq<Seq<char>> {
    v.map_values(|s: String| s@)
}

/// Whether `a` comes strictly before `b` in the order of their characters.
pub open spec fn text_less(a: Seq<char>, b: Seq<char>) -> bool
    decreases a.len(),
{
    if b.len() == 0 {
        false
    } else if a.len() == 0 {
        true
    } else if a[0] != b[0] {
        (a[0] as u32) < (b[0] as u32)
    } else {
        text_less(a.skip(1), b.skip(1))
    }
}

pub open spec fn starts_with_tilde(p: Seq<char>) -> bool {
    p.len() >= 2 && p[0] == '~' && p[1] == '/'
}

/// A path with a leading `~/` replaced by the home directory, when one is known.
pub open spec fn tilde_expanded(path: Seq<char>, home: Option<Seq<char>>) -> Seq<char> {
    if starts_with_tilde(path) && home.is_some() {
        path_joined(home.unwrap(), path.skip(2))
    } else {
        path
    }
}

/// `name` under each directory, in order.
pub open spec fn joined_all(dirs: Seq<Seq<char>>, name: Seq<char>) -> Seq<Seq<char>> {
    dirs.map_values(|d: Seq<char>| path_joined(d, name))
}

/// The first candidate whose probe succeeded.
pub open spec fn first_hit(cands: Seq<Seq<char>>, found: Seq<bool>) -> Option<Seq<char>>
    decreases cands.len(),
{
    if cands.len() == 0 || found.len() == 0 {
        None
    } else if found[0] {
        Some(cands[0])
    } else {
        first_hit(cands.skip(1), found.skip(1))
    }
}

/// `r` is `bin/node` under the greatest version (in the order of `text_less`)
/// whose probe succeeded, or `None` when no probe did.
pub open spec fn newest_hit(versions: Seq<Seq<char>>, found: Seq<bool>, r: Option<Seq<char>>) -> bool {
    match r {
        None => forall|i: int| 0 <= i < found.len() ==> !#[trigger] found[i],
        Some(p) => exists|i: int|
            0 <= i < versions.len() && #[trigger] found[i] && p == path_joined(versions[i], "bin/node"@)
                && forall|j: int|
                0 <= j < versions.len() && #[trigger] found[j] ==> !text_less(versions[i], versions[j]),
    }
}

proof fn lemma_text_less_irreflexive(a: Seq<char>)
    ensures
        !text_less(a, a),
    decreases a.len(),
{
    if a.len() > 0 {
        lemma_text_less_irreflexive(a.skip(1));
    }
}

proof fn lemma_text_less_transitive(a: Seq<char>, b: Seq<char>, c: Seq<char>)
    requires
        text_less(a, b),
        text_less(b, c),
    ensures
        text_less(a, c),
    decreases a.len(),
{
    if a.len() > 0 && b.len() > 0 && c.len() > 0 && a[0] == b[0] && b[0] == c[0] {
        lemma_text_less_transitive(a.skip(1), b.skip(1), c.skip(1));
    }
}

/// Whether a regular file `command` is in `dir`: its path if so.
pub fn candidate_in_dir(dir: &str, command: &str) -> (r: Option<String>)
    ensures
        r.is_some() ==> r.unwrap()@ == path_joined(dir@, command@),
{
    let candidate = join_path(dir, command);
    if path_is_file(candidate.as_str()) {
        Some(candidate)
    } else {
        None
    }
}

/// The marker files of a repository root under `path`.
pub fn asset_paths(path: &str) -> (r: Vec<String>)
    ensures
        views_of(r@) == asset_files().map_values(|f: Seq<char>| path_joined(path@, f)),
{
    let mut r: Vec<String> = Vec::new();
    r.push(join_path(path, "desktop/proxy-daemon.js"));
    r.push(join_path(path, "src/index.js"));
    r.push(join_path(path, "package.json"));
    assert(views_of(r@) =~= asset_files().map_values(|f: Seq<char>| path_joined(path@, f)));
    r
}

/// Whether the worker script, the worker's entry point and its package
/// manifest are all on disk under `path`: the three probes of `asset_paths`
/// taken together.
pub fn repo_assets_present(path: &str) -> (r: bool)
    ensures
        exists|found: Seq<bool>| found.len() == 3 && r == (found[0] && found[1] && found[2]),
{
    let files = asset_paths(path);
    assert(views_of(files@).len() == 3);
    let a = path_exists(files[0].as_str());
    let b = path_exists(files[1].as_str());
    let c = path_exists(files[2].as_str());
    let ghost found = seq![a, b, c];
    assert(found.len() == 3 && (a && b && c) == (found[0] && found[1] && found[2]));
    a && b && c
}

/// Expands a leading `~/` to the home directory `home`, when one is known.
pub fn expand_tilde(path: &str, home: &Option<String>) -> (r: String)
    ensures
        r@ == tilde_expanded(path@, opt_str_view(*home)),
{
    let n = path.unicode_len();
    if n >= 2 && path.get_char(0) == '~' && path.get_char(1) == '/' {
        match home {
            Some(h) => {
                let rest = path.substring_char(2, n);
                assert(rest@ =~= path@.skip(2));
                return join_path(h.as_str(), rest);
            },
            None => {},
        }
    }
    String::from_str(path)
}

/// The first candidate whose probe in `found` succeeded.
pub fn first_found(candidates: &Vec<String>, found: &Vec<bool>) -> (r: Option<String>)
    requires
        candidates@.len() == found@.len(),
    ensures
        opt_str_view(r) == first_hit(views_of(candidates@), found@),
{
    let ghost c = views_of(candidates@);
    let mut i: usize = 0;
    assert(c.skip(0) =~= c);
    assert(found@.skip(0) =~= found@);
    while i < candidates.len()
        invariant
            c == views_of(candidates@),
            candidates@.len() == found@.len(),
            i <= candidates@.len(),
            first_hit(c, found@) == first_hit(c.skip(i as int), found@.skip(i as int)),
        decreases candidates@.len() - i,
    {
        if found[i] {
            assert(c.skip(i as int)[0] == candidates@[i as int]@);
            return Some(candidates[i].clone());
        }
        assert(c.skip(i as int).skip(1) =~= c.skip(i as int + 1));
        assert(found@.skip(i as int).skip(1) =~= found@.skip(i as int + 1));
        i = i + 1;
    }
    None
}

/// The first non-empty directory of the search path that holds `command`,
/// as a path: the first hit among the probes of every `dir/command`.
pub fn search_in_path(command: &str, dirs: &Vec<String>) -> (r: Option<String>)
    ensures
        exists|found: Seq<bool>|
            found.len() == dirs@.len() && (forall|i: int|
                0 <= i < found.len() && #[trigger] found[i] ==> dirs@[i]@.len() > 0) && opt_str_view(r)
                == first_hit(joined_all(views_of(dirs@), command@), found),
{
    let mut candidates: Vec<String> = Vec::new();
    let mut found: Vec<bool> = Vec::new();
    let mut i: usize = 0;
    while i < dirs.len()
        invariant
            i <= dirs@.len(),
            candidates@.len() == i,
            found@.len() == i,
            forall|k: int| 0 <= k < i ==> #[trigger] candidates@[k]@ == path_joined(dirs@[k]@, command@),
            forall|k: int| 0 <= k < i && #[trigger] found@[k] ==> dirs@[k]@.len() > 0,
        decreases dirs@.len() - i,
    {
        let candidate = join_path(dirs[i].as_str(), command);
        let hit = dirs[i].unicode_len() > 0 && path_is_file(candidate.as_str());
        candidates.push(candidate);
        found.push(hit);
        i = i + 1;
    }
    assert(views_of(candidates@) =~= joined_all(views_of(dirs@), command@));
    first_found(&candidates, &found)
}

/// The standard installation directories, then those of version managers
/// under the home directory when one is known.
pub fn fallback_dirs(home: &Option<String>) -> (r: Vec<String>)
    ensures
        views_of(r@) == fallback_dirs_for(opt_str_view(*home)),
{
    let mut r: Vec<String> = Vec::new();
    r.push(String::from_str("/usr/local/bin"));
    r.push(String::from_str("/usr/local/sbin"));
    r.push(String::from_str("/usr/bin"));
    r.push(String::from_str("/bin"));
    r.push(String::from_str("/opt/homebrew/bin"));
    r.push(String::from_str("/opt/homebrew/sbin"));
    r.push(String::from_str("/opt/local/bin"));
    r.push(String::from_str("/opt/local/sbin"));
    match home {
        Some(h) => {
            r.push(join_path(h.as_str(), ".volta/bin"));
            r.push(join_path(h.as_str(), ".asdf/shims"));
        },
        None => {},
    }
    assert(views_of(r@) =~= fallback_dirs_for(opt_str_view(*home)));
    r
}

/// The first fallback directory, for the home directory `home`, that holds
/// `command`: the first hit among the probes of every `dir/command`.
pub fn search_in_fallback_dirs(command: &str, home: &Option<String>) -> (r: Option<String>)
    ensures
        exists|found: Seq<bool>|
            found.len() == fallback_dirs_for(opt_str_view(*home)).len() && opt_str_view(r) == first_hit(
                joined_all(fallback_dirs_for(opt_str_view(*home)), command@),
                found,
            ),
{
    let dirs = fallback_dirs(home);
    let mut candidates: Vec<String> = Vec::new();
    let mut found: Vec<bool> = Vec::new();
    let mut i: usize = 0;
    while i < dirs.len()
        invariant
            i <= dirs@.len(),
            candidates@.len() == i,
            found@.len() == i,
            forall|k: int| 0 <= k < i ==> #[trigger] candidates@[k]@ == path_joined(dirs@[k]@, command@),
        decreases dirs@.len() - i,
    {
        let candidate = join_path(dirs[i].as_str(), command);
        let hit = path_is_file(candidate.as_str());
        candidates.push(candidate);
        found.push(hit);
        i = i + 1;
    }
    assert(views_of(candidates@) =~= joined_all(views_of(dirs@), command@));
    first_found(&candidates, &found)
}

/// Whether `a` comes strictly before `b` in the order of their characters.
pub fn text_before(a: &str, b: &str) -> (r: bool)
    ensures
        r == text_less(a@, b@),
{
    let n = a.unicode_len();
    let m = b.unicode_len();
    let mut i: usize = 0;
    assert(a@.skip(0) =~= a@);
    assert(b@.skip(0) =~= b@);
    while i < n && i < m
        invariant
            n == a@.len(),
            m == b@.len(),
            i <= n,
            i <= m,
            text_less(a@, b@) == text_less(a@.skip(i as int), b@.skip(i as int)),
        decreases n - i,
    {
        let x = a.get_char(i);
        let y = b.get_char(i);
        if x != y {
            return (x as u32) < (y as u32);
        }
        assert(a@.skip(i as int).skip(1) =~= a@.skip(i as int + 1));
        assert(b@.skip(i as int).skip(1) =~= b@.skip(i as int + 1));
        i = i + 1;
    }
    i < m
}

/// `bin/node` under the greatest version, in the order of `text_less`, whose
/// probe in `found` succeeded.
pub fn newest_found(versions: &Vec<String>, found: &Vec<bool>) -> (r: Option<String>)
    requires
        versions@.len() == found@.len(),
    ensures
        newest_hit(views_of(versions@), found@, opt_str_view(r)),
{
    let ghost v = views_of(versions@);
    let mut best: Option<usize> = None;
    let mut i: usize = 0;
    while i < versions.len()
        invariant
            v == views_of(versions@),
            versions@.len() == found@.len(),
            i <= versions@.len(),
            best.is_none() ==> forall|j: int| 0 <= j < i ==> !#[trigger] found@[j],
            best.is_some() ==> best.unwrap() < i && found@[best.unwrap() as int] && forall|j: int|
                0 <= j < i && #[trigger] found@[j] ==> !text_less(v[best.unwrap() as int], v[j]),
        decreases versions@.len() - i,
    {
        if found[i] {
            proof {
                lemma_text_less_irreflexive(v[i as int]);
            }
            match best {
                None => {
                    best = Some(i);
                },
                Some(b) => {
                    if text_before(versions[b].as_str(), versions[i].as_str()) {
                        proof {
                            assert forall|j: int| 0 <= j < i + 1 && #[trigger] found@[j] implies !text_less(
                                v[i as int],
                                v[j],
                            ) by {
                                if j < i && text_less(v[i as int], v[j]) {
                                    lemma_text_less_transitive(v[b as int], v[i as int], v[j]);
                                }
                            }
                        }
                        best = Some(i);
                    }
                },
            }
        }
        i = i + 1;
    }
    match best {
        Some(b) => {
            let p = join_path(versions[b].as_str(), "bin/node");
            assert(found@[b as int]);
            Some(p)
        },
        None => None,
    }
}

/// Among installed interpreter versions (directories of a version manager),
/// the greatest, in the order of their paths, that holds `bin/node`.
pub fn latest_nvm_node_bin(versions: &Vec<String>) -> (r: Option<String>)
    ensures
        exists|found: Seq<bool>|
            found.len() == versions@.len() && newest_hit(views_of(versions@), found, opt_str_view(r)),
{
    let mut found: Vec<bool> = Vec::new();
    let mut i: usize = 0;
    while i < versions.len()
        invariant
            i <= versions@.len(),
            found@.len() == i,
        decreases versions@.len() - i,
    {
        let candidate = join_path(versions[i].as_str(), "bin/node");
        found.push(path_is_file(candidate.as_str()));
        i = i + 1;
    }
    newest_found(versions, &found)
}

/// The error when no interpreter can be found anywhere.
pub open spec fn node_missing() -> Seq<char> {
    "Unable to locate a Node.js binary. Install Node or set NODE_BINARY to an absolute path."@
}

pub open spec fn override_missing(path: Seq<char>) -> Seq<char> {
    "NODE_BINARY points to '"@ + path + "' but it does not exist"@
}

pub open spec fn override_not_on_path(name: Seq<char>) -> Seq<char> {
    "NODE_BINARY is set to '"@ + name + "' but it was not found on PATH"@
}

pub open spec fn result_view(r: Result<String, String>) -> Result<Seq<char>, Seq<char>> {
    match r {
        Ok(p) => Ok(p@),
        Err(e) => Err(e@),
    }
}

/// Which interpreter is used, from the outcome of each lookup. With an
/// override: its expansion when absolute and a file, an error when absolute
/// and missing, else its lookup on the search path. Without one: the search
/// path, then the fallback directories, then the newest version-manager install.
pub open spec fn node_choice(
    override_bin: Option<Seq<char>>,
    expanded: Seq<char>,
    expanded_absolute: bool,
    expanded_is_file: bool,
    on_path: Option<Seq<char>>,
    in_fallback: Option<Seq<char>>,
    in_nvm: Option<Seq<char>>,
) -> Result<Seq<char>, Seq<char>> {
    match override_bin {
        Some(o) => if expanded_absolute {
            if expanded_is_file {
                Ok(expanded)
            } else {
                Err(override_missing(expanded))
            }
        } else {
            match on_path {
                Some(p) => Ok(p),
                None => Err(override_not_on_path(o)),
            }
        },
        None => match on_path {
            Some(p) => Ok(p),
            None => match in_fallback {
                Some(p) => Ok(p),
                None => match in_nvm {
                    Some(p) => Ok(p),
                    None => Err(node_missing()),
                },
            },
        },
    }
}

/// `node_choice` with the override expanded against the home directory `home`,
/// and its absoluteness as `Path::is_absolute` gives it.
pub open spec fn node_resolution(
    override_bin: Option<Seq<char>>,
    home: Option<Seq<char>>,
    is_file: bool,
    on_path: Option<Seq<char>>,
    in_fallback: Option<Seq<char>>,
    in_nvm: Option<Seq<char>>,
) -> Result<Seq<char>, Seq<char>> {
    let expanded = match override_bin {
        Some(o) => tilde_expanded(o, home),
        None => Seq::empty(),
    };
    node_choice(override_bin, expanded, path_absolute(expanded), is_file, on_path, in_fallback, in_nvm)
}

/// Picks the interpreter from the outcome of each lookup, as `node_choice` says.
pub fn choose_node_binary(
    override_bin: Option<String>,
    expanded: String,
    expanded_absolute: bool,
    expanded_is_file: bool,
    on_path: Option<String>,
    in_fallback: Option<String>,
    in_nvm: Option<String>,
) -> (r: Result<String, String>)
    ensures
        result_view(r) == node_choice(
            opt_str_view(override_bin),
            expanded@,
            expanded_absolute,
            expanded_is_file,
            opt_str_view(on_path),
            opt_str_view(in_fallback),
            opt_str_view(in_nvm),
        ),
{
    match override_bin {
        Some(o) => {
            if expanded_absolute {
                if expanded_is_file {
                    Ok(expanded)
                } else {
                    let mut e = String::from_str("NODE_BINARY points to '");
                    e.append(expanded.as_str());
                    e.append("' but it does not exist");
                    Err(e)
                }
            } else {
                match on_path {
                    Some(p) => Ok(p),
                    None => {
                        let mut e = String::from_str("NODE_BINARY is set to '");
                        e.append(o.as_str());
                        e.append("' but it was not found on PATH");
                        Err(e)
                    },
                }
            }
        },
        None => match on_path {
            Some(p) => Ok(p),
            None => match in_fallback {
                Some(p) => Ok(p),
                None => match in_nvm {
                    Some(p) => Ok(p),
                    None => Err(String::from_str(
                        "Unable to locate a Node.js binary. Install Node or set NODE_BINARY to an absolute path.",
                    )),
                },
            },
        },
    }
}

/// Finds the interpreter that runs the worker, given the override
/// (`NODE_BINARY`), the search path's directories and the installed versions
/// of the version manager. The home directory is read once; the lookups
/// are made only as far as `node_choice` needs them.
pub fn resolve_node_binary(
    override_bin: Option<String>,
    path_dirs: &Vec<String>,
    nvm_versions: &Vec<String>,
) -> (r: Result<String, String>)
    ensures
        exists|
            home: Option<Seq<char>>,
            is_file: bool,
            on_path: Option<Seq<char>>,
            in_fallback: Option<Seq<char>>,
            in_nvm: Option<Seq<char>>,
        |
            result_view(r) == #[trigger] node_resolution(
                opt_str_view(override_bin),
                home,
                is_file,
                on_path,
                in_fallback,
                in_nvm,
            ),
{
    let home = home_dir();
    let ghost h = opt_str_view(home);
    match override_bin {
        Some(o) => {
            let expanded = expand_tilde(o.as_str(), &home);
            let absolute = is_absolute_path(expanded.as_str());
            let is_file = if absolute {
                path_is_file(expanded.as_str())
            } else {
                false
            };
            let on_path = if absolute {
                None
            } else {
                search_in_path(o.as_str(), path_dirs)
            };
            let ghost ov = opt_str_view(on_path);
            let r = choose_node_binary(Some(o), expanded, absolute, is_file, on_path, None, None);
            assert(result_view(r) == node_resolution(Some(o@), h, is_file, ov, None, None));
            r
        },
        None => {
            let on_path = search_in_path("node", path_dirs);
            let in_fallback = if on_path.is_some() {
                None
            } else {
                search_in_fallback_dirs("node", &home)
            };
            let in_nvm = if on_path.is_some() || in_fallback.is_some() {
                None
            } else {
                latest_nvm_node_bin(nvm_versions)
            };
            let ghost (a, b, c) = (opt_str_view(on_path), opt_str_view(in_fallback), opt_str_view(in_nvm));
            let r = choose_node_binary(None, String::new(), false, false, on_path, in_fallback, in_nvm);
            assert(result_view(r) == node_resolution(None, h, false, a, b, c));
            r
        },
    }
}

/// The directory two levels above `p`, or `.` when there is none.
pub fn grandparent_or_current(p: &str) -> (r: String)
    ensures
        r@ == grandparent_or_current_spec(p@),
{
    match parent_path(p) {
        Some(q) => match parent_path(q.as_str()) {
            Some(g) => g,
            None => String::from_str("."),
        },
        None => String::from_str("."),
    }
}

/// The places in an application bundle where the worker may be shipped:
/// `Resources/resources/app`, `Resources/app` and `Resources`, beside the
/// directory that holds the executable.
pub open spec fn bundle_dirs(exe: Seq<char>) -> Seq<Seq<char>> {
    match path_parent(exe) {
        Some(m) => match path_parent(m) {
            Some(c) => {
                let res = path_joined(c, "Resources"@);
                seq![path_joined(res, "resources/app"@), path_joined(res, "app"@), res]
            },
            None => seq![],
        },
        None => seq![],
    }
}

/// Whether taking the parent of `p` `n` times gives `a`.
pub open spec fn nth_parent_is(p: Seq<char>, a: Seq<char>, n: nat) -> bool
    decreases n,
{
    if n == 0 {
        p == a
    } else {
        match path_parent(p) {
            Some(q) => nth_parent_is(q, a, (n - 1) as nat),
            None => false,
        }
    }
}

proof fn lemma_one_more_parent(p: Seq<char>, c: Seq<char>, q: Seq<char>, k: nat)
    requires
        nth_parent_is(p, c, k),
        path_parent(c) == Some(q),
    ensures
        nth_parent_is(p, q, k + 1),
    decreases k,
{
    if k > 0 {
        lemma_one_more_parent(path_parent(p).unwrap(), c, q, (k - 1) as nat);
    } else {
        assert(nth_parent_is(q, q, 0));
    }
}

/// `anc` lists every directory above `e`, nearest first.
pub open spec fn parent_chain(e: Seq<char>, anc: Seq<Seq<char>>) -> bool {
    &&& forall|k: int| 0 <= k < anc.len() ==> #[trigger] nth_parent_is(e, anc[k], (k + 1) as nat)
    &&& path_parent(if anc.len() == 0 { e } else { anc.last() }).is_none()
}

/// The places searched for the repository root, in order: the override, the
/// bundle directories of the executable, then each directory above the
/// executable, nearest first.
pub open spec fn root_candidates(
    explicit: Option<Seq<char>>,
    exe: Option<Seq<char>>,
    cands: Seq<Seq<char>>,
) -> bool {
    match exe {
        None => cands == explicit_candidate(explicit),
        Some(e) => {
            let head = explicit_candidate(explicit) + bundle_dirs(e);
            &&& head.len() <= cands.len()
            &&& cands.take(head.len() as int) == head
            &&& parent_chain(e, cands.skip(head.len() as int))
        },
    }
}

proof fn lemma_root_candidates(
    explicit: Option<Seq<char>>,
    e: Seq<char>,
    anc: Seq<Seq<char>>,
    cands: Seq<Seq<char>>,
)
    requires
        parent_chain(e, anc),
        cands == explicit_candidate(explicit) + bundle_dirs(e) + anc,
    ensures
        root_candidates(explicit, Some(e), cands),
{
    let head = explicit_candidate(explicit) + bundle_dirs(e);
    assert(cands.take(head.len() as int) =~= head);
    assert(cands.skip(head.len() as int) =~= anc);
}

pub open spec fn explicit_candidate(explicit: Option<Seq<char>>) -> Seq<Seq<char>> {
    match explicit {
        Some(x) => seq![x],
        None => Seq::empty(),
    }
}

/// The first candidate whose assets were found, else the fallback.
pub open spec fn root_choice(cands: Seq<Seq<char>>, found: Seq<bool>, fallback: Seq<char>) -> Seq<char> {
    match first_hit(cands, found) {
        Some(c) => c,
        None => fallback,
    }
}

/// The places searched for the repository root, as `root_candidates` lists them.
pub fn repo_root_candidates(explicit: &Option<String>, exe_path: &Option<String>) -> (r: Vec<String>)
    ensures
        root_candidates(opt_str_view(*explicit), opt_str_view(*exe_path), views_of(r@)),
{
    let mut c: Vec<String> = Vec::new();
    match explicit {
        Some(x) => c.push(x.clone()),
        None => {},
    }
    let ghost first = views_of(c@);
    assert(first =~= explicit_candidate(opt_str_view(*explicit)));
    match exe_path {
        Some(e) => {
            match parent_path(e.as_str()) {
                Some(m) => match parent_path(m.as_str()) {
                    Some(cd) => {
                        let res = join_path(cd.as_str(), "Resources");
                        c.push(join_path(res.as_str(), "resources/app"));
                        c.push(join_path(res.as_str(), "app"));
                        c.push(res);
                    },
                    None => {},
                },
                None => {},
            }
            assert(views_of(c@) =~= first + bundle_dirs(e@));
            let ghost base = views_of(c@);
            let mut cursor = e.clone();
            let ghost mut anc: Seq<Seq<char>> = Seq::empty();
            assert(views_of(c@) =~= base + anc);
            loop
                invariant
                    views_of(c@) == base + anc,
                    forall|k: int| 0 <= k < anc.len() ==> #[trigger] nth_parent_is(e@, anc[k], (k + 1) as nat),
                    cursor@ == (if anc.len() == 0 { e@ } else { anc.last() }),
                    nth_parent_is(e@, cursor@, anc.len()),
                ensures
                    views_of(c@) == base + anc,
                    parent_chain(e@, anc),
                decreases cursor@.len(),
            {
                match parent_path(cursor.as_str()) {
                    Some(p) => {
                        proof {
                            lemma_one_more_parent(e@, cursor@, p@, anc.len());
                        }
                        let ghost prev = c@;
                        c.push(p.clone());
                        assert(c@ == prev.push(p));
                        assert(views_of(c@) =~= views_of(prev).push(p@));
                        proof {
                            anc = anc.push(p@);
                        }
                        assert(views_of(c@) =~= base + anc);
                        cursor = p;
                    },
                    None => {
                        break;
                    },
                }
            }
            assert(views_of(c@) =~= first + bundle_dirs(e@) + anc);
            assert(parent_chain(e@, anc) && views_of(c@) == first + bundle_dirs(e@) + anc);
            assert(opt_str_view(*exe_path) == Some(e@));
            proof {
                lemma_root_candidates(opt_str_view(*explicit), e@, anc, views_of(c@));
            }
            assert(root_candidates(opt_str_view(*explicit), opt_str_view(*exe_path), views_of(c@)));
        },
        None => {
            assert(root_candidates(opt_str_view(*explicit), opt_str_view(*exe_path), views_of(c@)));
        },
    }
    c
}

/// The first candidate whose probe in `found` succeeded, else the directory
/// two levels above `source_dir`.
pub fn choose_repo_root(candidates: &Vec<String>, found: &Vec<bool>, source_dir: &str) -> (r: String)
    requires
        candidates@.len() == found@.len(),
    ensures
        r@ == root_choice(views_of(candidates@), found@, grandparent_or_current_spec(source_dir@)),
{
    match first_found(candidates, found) {
        Some(c) => c,
        None => grandparent_or_current(source_dir),
    }
}

/// Finds the worker's repository root: the first of `repo_root_candidates`
/// whose assets are present, else the directory two levels above `source_dir`.
pub fn detect_repo_root(explicit: Option<String>, exe_path: Option<String>, source_dir: &str) -> (r: String)
    ensures
        exists|cands: Seq<Seq<char>>, found: Seq<bool>|
            root_candidates(opt_str_view(explicit), opt_str_view(exe_path), cands) && found.len()
                == cands.len() && r@ == root_choice(cands, found, grandparent_or_current_spec(source_dir@)),
{
    let candidates = repo_root_candidates(&explicit, &exe_path);
    let mut found: Vec<bool> = Vec::new();
    let mut i: usize = 0;
    while i < candidates.len()
        invariant
            i <= candidates@.len(),
            found@.len() == i,
        decreases candidates@.len() - i,
    {
        found.push(repo_assets_present(candidates[i].as_str()));
        i = i + 1;
    }
    choose_repo_root(&candidates, &found, source_dir)
}

} // verus!
