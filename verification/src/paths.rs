use vstd::prelude::*;

use crate::error::Error;
use crate::text::views;

verus! {

/// Which of the two configuration tiers a profile or setting lives in.
#[derive(Copy, Clone, Debug, PartialEq, Eq, Structural)]
pub enum Tier {
    User,
    System,
}

/// The label of a tier as shown to the user.
pub open spec fn tier_label(tier: Tier) -> Seq<char> {
    match tier {
        Tier::User => "user"@,
        Tier::System => "system"@,
    }
}

impl Tier {
    /// The label of the tier ("user" or "system").
    pub fn label(self) -> (s: &'static str)
        ensures
            s@ == tier_label(self),
    {
        match self {
            Tier::User => "user",
            Tier::System => "system",
        }
    }
}

/// The operating system, which decides where the tiers live.
#[derive(Copy, Clone, Debug, PartialEq, Eq, Structural)]
pub enum Platform {
    Windows,
    MacOs,
    /// Linux and the other Unix-like systems, which follow XDG.
    Other,
}

/// What the tier locations depend on: the platform and the environment
/// variables that name base directories (`None` where a variable is unset).
#[derive(Debug, Clone, PartialEq, Eq)]
pub struct Environment {
    pub platform: Platform,
    pub appdata: Option<String>,
    pub home: Option<String>,
    pub xdg_config_home: Option<String>,
    pub programdata: Option<String>,
    pub allusersprofile: Option<String>,
}

/// A file-system path as a base followed by the components joined onto it.
#[derive(Debug, Clone, PartialEq, Eq)]
pub struct FsPath {
    pub parts: Vec<String>,
}

impl View for FsPath {
    type V = Seq<Seq<char>>;

    open spec fn view(&self) -> Seq<Seq<char>> {
        views(self.parts@)
    }
}

impl FsPath {
    /// This path with `component` joined onto its end.
    pub fn child(self, component: &str) -> (p: FsPath)
        ensures
            p@ == self@.push(component@),
    {
        let mut parts = self.parts;
        let ghost before = parts@;
        parts.push(String::from_str(component));
        proof {
            assert(views(parts@) =~= views(before).push(component@));
        }
        FsPath { parts }
    }

    /// A second path equal to this one.
    pub fn duplicate(&self) -> (p: FsPath)
        ensures
            p@ == self@,
    {
        let mut parts: Vec<String> = Vec::new();
        let mut i: usize = 0;
        while i < self.parts.len()
            invariant
                i <= self.parts.len(),
                views(parts@) == views(self.parts@.take(i as int)),
            decreases self.parts.len() - i,
        {
            let ghost before = parts@;
            parts.push(self.parts[i].clone());
            assert(views(parts@) =~= views(before).push(self.parts@[i as int]@));
            assert(self.parts@.take(i + 1) =~= self.parts@.take(i as int).push(self.parts@[i as int]));
            i = i + 1;
        }
        assert(self.parts@.take(self.parts.len() as int) =~= self.parts@);
        FsPath { parts }
    }

    fn rooted(base: &str) -> (p: FsPath)
        ensures
            p@ == seq![base@],
    {
        let mut parts: Vec<String> = Vec::new();
        parts.push(String::from_str(base));
        proof {
            assert(views(parts@) =~= seq![base@]);
        }
        FsPath { parts }
    }
}

/// The name of the directory that holds the tool's files in each tier root.
pub open spec fn app_dir() -> Seq<char> {
    "pushit"@
}

/// The base directory under which the user tier's root lies, if any.
pub open spec fn user_base(env: Environment) -> Option<Seq<Seq<char>>> {
    match env.platform {
        Platform::Windows => match env.appdata {
            Some(a) => Some(seq![a@]),
            None => None,
        },
        Platform::MacOs => match env.home {
            Some(h) => Some(seq![h@, "Library"@, "Application Support"@]),
            None => None,
        },
        Platform::Other => match env.xdg_config_home {
            Some(x) => Some(seq![x@]),
            None => match env.home {
                Some(h) => Some(seq![h@, ".config"@]),
                None => None,
            },
        },
    }
}

/// The user tier's root, or `None` where the environment names no base for it.
pub open spec fn user_root(env: Environment) -> Option<Seq<Seq<char>>> {
    match user_base(env) {
        Some(b) => Some(b.push(app_dir())),
        None => None,
    }
}

/// The system tier's root.
pub open spec fn system_root(env: Environment) -> Seq<Seq<char>> {
    let base: Seq<char> = match env.platform {
        Platform::Windows => match env.programdata {
            Some(p) => p@,
            None => match env.allusersprofile {
                Some(a) => a@,
                None => "C:\\ProgramData"@,
            },
        },
        Platform::MacOs => "/Library/Application Support"@,
        Platform::Other => "/etc/xdg"@,
    };
    seq![base, app_dir()]
}

/// The root of a tier, or `None` where it cannot be determined.
pub open spec fn tier_root(env: Environment, tier: Tier) -> Option<Seq<Seq<char>>> {
    match tier {
        Tier::User => user_root(env),
        Tier::System => Some(system_root(env)),
    }
}

/// The outcome of computing a path inside a tier root: the root extended
/// by `tail`, or `NoConfigHome` where the root is unknown.
pub open spec fn under_root(env: Environment, tier: Tier, tail: Seq<Seq<char>>, r: Result<FsPath, Error>) -> bool {
    match tier_root(env, tier) {
        Some(root) => r matches Ok(p) && p@ == root + tail,
        None => r == Err::<FsPath, Error>(Error::NoConfigHome),
    }
}

/// A character allowed in a profile name: an ASCII letter or digit, `_` or `-`.
pub open spec fn name_char(c: char) -> bool {
    ||| 'A' as int <= c as int <= 'Z' as int
    ||| 'a' as int <= c as int <= 'z' as int
    ||| '0' as int <= c as int <= '9' as int
    ||| c == '_'
    ||| c == '-'
}

/// A valid profile name: non-empty, of allowed characters only.
pub open spec fn valid_profile_name(name: Seq<char>) -> bool {
    name.len() > 0 && forall|i: int| 0 <= i < name.len() ==> name_char(#[trigger] name[i])
}

/// The file name under which a profile is stored.
pub open spec fn profile_file_name(name: Seq<char>) -> Seq<char> {
    name + ".ron"@
}

fn user_config_dir(env: &Environment) -> (r: Result<FsPath, Error>)
    ensures
        under_root(*env, Tier::User, Seq::empty(), r),
{
    let base = match env.platform {
        Platform::Windows => match &env.appdata {
            Some(a) => Some(FsPath::rooted(a.as_str())),
            None => None,
        },
        Platform::MacOs => match &env.home {
            Some(h) => Some(FsPath::rooted(h.as_str()).child("Library").child("Application Support")),
            None => None,
        },
        Platform::Other => match &env.xdg_config_home {
            Some(x) => Some(FsPath::rooted(x.as_str())),
            None => match &env.home {
                Some(h) => Some(FsPath::rooted(h.as_str()).child(".config")),
                None => None,
            },
        },
    };
    proof {
        let ghost spec_base = user_base(*env);
        assert(base is Some <==> spec_base is Some);
        if base is Some {
            assert(base.unwrap()@ =~= spec_base.unwrap());
        }
    }
    match base {
        Some(b) => {
            let p = b.child("pushit");
            assert(user_root(*env).unwrap() + Seq::empty() =~= user_root(*env).unwrap());
            Ok(p)
        },
        None => Err(Error::NoConfigHome),
    }
}

fn system_config_dir(env: &Environment) -> (p: FsPath)
    ensures
        p@ == system_root(*env),
{
    let base = match env.platform {
        Platform::Windows => match &env.programdata {
            Some(d) => FsPath::rooted(d.as_str()),
            None => match &env.allusersprofile {
                Some(a) => FsPath::rooted(a.as_str()),
                None => FsPath::rooted("C:\\ProgramData"),
            },
        },
        Platform::MacOs => FsPath::rooted("/Library/Application Support"),
        Platform::Other => FsPath::rooted("/etc/xdg"),
    };
    base.child("pushit")
}

/// The root directory of a tier.
pub fn config_dir(tier: Tier, env: &Environment) -> (r: Result<FsPath, Error>)
    ensures
        under_root(*env, tier, Seq::empty(), r),
{
    match tier {
        Tier::User => user_config_dir(env),
        Tier::System => {
            let p = system_config_dir(env);
            assert(system_root(*env) + Seq::empty() =~= system_root(*env));
            Ok(p)
        },
    }
}

/// The directory that holds a tier's profiles: `<root>/profiles`.
pub fn profiles_dir(tier: Tier, env: &Environment) -> (r: Result<FsPath, Error>)
    ensures
        under_root(*env, tier, seq!["profiles"@], r),
{
    match config_dir(tier, env) {
        Ok(root) => {
            let p = root.child("profiles");
            proof {
                let ghost full = tier_root(*env, tier).unwrap();
                assert(full + Seq::empty() =~= full);
                assert(full + seq!["profiles"@] =~= full.push("profiles"@));
            }
            Ok(p)
        },
        Err(e) => Err(e),
    }
}

/// The file that holds a tier's settings: `<root>/config.ron`.
pub fn config_file(tier: Tier, env: &Environment) -> (r: Result<FsPath, Error>)
    ensures
        under_root(*env, tier, seq!["config.ron"@], r),
{
    match config_dir(tier, env) {
        Ok(root) => {
            let p = root.child("config.ron");
            proof {
                let ghost full = tier_root(*env, tier).unwrap();
                assert(full + Seq::empty() =~= full);
                assert(full + seq!["config.ron"@] =~= full.push("config.ron"@));
            }
            Ok(p)
        },
        Err(e) => Err(e),
    }
}

/// Checks that `name` is a valid profile name: non-empty, and made of
/// ASCII letters, digits, `_` and `-` only.
pub fn validate_profile_name(name: &str) -> (r: Result<(), Error>)
    ensures
        valid_profile_name(name@) ==> r is Ok,
        !valid_profile_name(name@) ==> (r matches Err(Error::InvalidProfileName(n)) && n@ == name@),
{
    let len: usize = name.unicode_len();
    let mut ok = len > 0;
    let mut i: usize = 0;
    while i < len
        invariant
            len == name@.len(),
            i <= len,
            ok == (len > 0 && forall|k: int| 0 <= k < i ==> name_char(#[trigger] name@[k])),
        decreases len - i,
    {
        let c: char = name.get_char(i);
        let code: u32 = c as u32;
        let allowed: bool = (65 <= code && code <= 90) || (97 <= code && code <= 122) || (48 <= code
            && code <= 57) || c == '_' || c == '-';
        proof {
            if !allowed {
                assert(!name_char(name@[i as int]));
            }
        }
        ok = ok && allowed;
        i = i + 1;
    }
    if ok {
        Ok(())
    } else {
        Err(Error::InvalidProfileName(String::from_str(name)))
    }
}

/// The file that holds profile `name` in a tier: `<root>/profiles/<name>.ron`.
/// The name is checked first.
pub fn profile_file(tier: Tier, name: &str, env: &Environment) -> (r: Result<FsPath, Error>)
    ensures
        !valid_profile_name(name@) ==> (r matches Err(Error::InvalidProfileName(n)) && n@ == name@),
        valid_profile_name(name@) ==> under_root(
            *env,
            tier,
            seq!["profiles"@, profile_file_name(name@)],
            r,
        ),
{
    match validate_profile_name(name) {
        Err(e) => Err(e),
        Ok(()) => match profiles_dir(tier, env) {
            Ok(dir) => {
                let file = String::from_str(name).concat(".ron");
                let p = dir.child(file.as_str());
                proof {
                    let ghost full = tier_root(*env, tier).unwrap();
                    assert(full + seq!["profiles"@, profile_file_name(name@)] =~= (full
                        + seq!["profiles"@]).push(profile_file_name(name@)));
                }
                Ok(p)
            },
            Err(e) => Err(e),
        },
    }
}

/// Where profile `name` is stored in a tier, where the tier has a root.
pub open spec fn profile_location(env: Environment, tier: Tier, name: Seq<char>) -> Option<
    Seq<Seq<char>>,
> {
    match tier_root(env, tier) {
        Some(root) => Some(root + seq!["profiles"@, profile_file_name(name)]),
        None => None,
    }
}

/// Where a tier's settings are stored, where the tier has a root.
pub open spec fn config_location(env: Environment, tier: Tier) -> Option<Seq<Seq<char>>> {
    match tier_root(env, tier) {
        Some(root) => Some(root + seq!["config.ron"@]),
        None => None,
    }
}

/// Where a tier's profiles are stored, where the tier has a root.
pub open spec fn profiles_location(env: Environment, tier: Tier) -> Option<Seq<Seq<char>>> {
    match tier_root(env, tier) {
        Some(root) => Some(root + seq!["profiles"@]),
        None => None,
    }
}

/// Whether profile `name` can be located in a tier: a valid name and a
/// tier with a root.
pub open spec fn locatable(env: Environment, tier: Tier, name: Seq<char>) -> bool {
    valid_profile_name(name) && tier_root(env, tier) is Some
}

/// `e` is the error of locating profile `name` in a tier where that fails:
/// an invalid name is reported first, a missing root after it.
pub open spec fn location_error(env: Environment, tier: Tier, name: Seq<char>, e: Error) -> bool {
    if !valid_profile_name(name) {
        e matches Error::InvalidProfileName(n) && n@ == name
    } else {
        e == Error::NoConfigHome
    }
}

/// A search for the file of a profile, tier by tier: the user tier first,
/// then the system tier. `path` is the file probed in `tier`.
#[derive(Debug)]
pub struct ProfileSearch {
    pub name: String,
    pub env: Environment,
    pub tier: Tier,
    pub path: FsPath,
}

impl ProfileSearch {
    /// The probed path is the profile's file in the probed tier.
    pub open spec fn wf(self) -> bool {
        &&& valid_profile_name(self.name@)
        &&& profile_location(self.env, self.tier, self.name@) == Some(self.path@)
    }
}

/// What a search does after learning whether the probed file exists.
#[derive(Debug)]
pub enum SearchStep {
    /// The profile is stored at the probed path of the search.
    Found(ProfileSearch),
    /// The search goes on: probe the given path, which is that of the search.
    Probe(ProfileSearch, FsPath),
    /// No tier holds the profile.
    Missing(ProfileSearch),
}

/// `next` continues `s` in the system tier.
pub open spec fn system_fallback(s: ProfileSearch, next: ProfileSearch) -> bool {
    &&& next.name == s.name
    &&& next.env == s.env
    &&& next.tier == Tier::System
    &&& next.wf()
}

/// The tier a search for a profile starts in: the user tier, or the
/// system tier where the user tier cannot be located, since the user has
/// then set nothing that could win.
pub open spec fn first_search_tier(env: Environment) -> Tier {
    if tier_root(env, Tier::User) is Some {
        Tier::User
    } else {
        Tier::System
    }
}

/// Starts looking for the file of profile `name`, the user tier first
/// where it can be located: the search and the path to probe, or the
/// error for an invalid name.
pub fn find_profile_file(name: String, env: Environment) -> (r: Result<(ProfileSearch, FsPath), Error>)
    ensures
        valid_profile_name(name@) ==> (r matches Ok((s, p)) && s.wf() && s.name == name && s.env
            == env && s.tier == first_search_tier(env) && p@ == s.path@),
        !valid_profile_name(name@) ==> (r matches Err(Error::InvalidProfileName(n)) && n@ == name@),
{
    match profile_file(Tier::User, name.as_str(), &env) {
        Ok(path) => {
            let probe = path.duplicate();
            Ok((ProfileSearch { name, env, tier: Tier::User, path }, probe))
        },
        Err(Error::NoConfigHome) => match profile_file(Tier::System, name.as_str(), &env) {
            Ok(path) => {
                let probe = path.duplicate();
                Ok((ProfileSearch { name, env, tier: Tier::System, path }, probe))
            },
            Err(e) => Err(e),
        },
        Err(e) => Err(e),
    }
}

impl ProfileSearch {
    /// The next step once it is known whether the probed file exists: found
    /// where it does; else the system tier after the user tier; else missing.
    pub fn resume(self, exists: bool) -> (step: SearchStep)
        requires
            self.wf(),
        ensures
            exists ==> step == SearchStep::Found(self),
            !exists && self.tier == Tier::User ==> (step matches SearchStep::Probe(t, p)
                && system_fallback(self, t) && p@ == t.path@),
            !exists && self.tier == Tier::System ==> step == SearchStep::Missing(self),
    {
        if exists {
            return SearchStep::Found(self);
        }
        match self.tier {
            Tier::System => SearchStep::Missing(self),
            Tier::User => {
                let ProfileSearch { name, env, tier: _, path: _ } = self;
                match profile_file(Tier::System, name.as_str(), &env) {
                    Ok(path) => {
                        let probe = path.duplicate();
                        SearchStep::Probe(ProfileSearch { name, env, tier: Tier::System, path }, probe)
                    },
                    Err(_) => {
                        // Unreachable: the system tier always has a root and the name was checked.
                        SearchStep::Missing(ProfileSearch { name, env, tier: Tier::User, path: FsPath { parts: Vec::new() } })
                    },
                }
            },
        }
    }
}

} // verus!
