//! The `profile` subcommands.
use vstd::prelude::*;

use crate::cli::{ProfileAddArgs, ProfileCmd, ServiceKind};
use crate::commands::{answer_to, kind_of, loaded_default, search_begun, Action, Awaiting, Event};
use crate::config::Config;
use crate::error::Error;
use crate::paths::{config_file, find_profile_file, profile_file, profiles_dir};
use crate::paths::{config_location, location_error, locatable, profile_location};
use crate::paths::{profiles_location, system_fallback, tier_label, valid_profile_name};
use crate::paths::{Environment, FsPath, ProfileSearch, SearchStep, Tier};
use crate::profile::{listed_names, MessageDefaults, Profile, ServiceConfig};
use crate::service::pushover::PushoverConfig;
use crate::text::{join, join_strings, sorted, views};

verus! {

/// The view of an optional string.
pub open spec fn opt_view(o: Option<String>) -> Option<Seq<char>> {
    match o {
        Some(s) => Some(s@),
        None => None,
    }
}

/// The line that lists a profile with its tags.
pub open spec fn entry_line(name: Seq<char>, tags: Seq<Seq<char>>) -> Seq<char> {
    if tags.len() == 0 {
        "  "@ + name + "\n"@
    } else {
        "  "@ + name + " ("@ + join(tags, ", "@) + ")\n"@
    }
}

/// The tags of a user profile: whether it is the user tier's default.
pub open spec fn user_tags(name: Seq<char>, user_default: Option<Seq<char>>) -> Seq<Seq<char>> {
    if user_default == Some(name) {
        seq!["default"@]
    } else {
        Seq::empty()
    }
}

/// The tags of a system profile: whether it is the system tier's default,
/// and whether a user profile of the same name shadows it.
pub open spec fn system_tags(
    name: Seq<char>,
    system_default: Option<Seq<char>>,
    user: Seq<Seq<char>>,
) -> Seq<Seq<char>> {
    (if system_default == Some(name) {
        seq!["system default"@]
    } else {
        Seq::empty()
    }) + (if user.contains(name) {
        seq!["shadowed"@]
    } else {
        Seq::empty()
    })
}

/// The lines that list the user profiles `names`.
pub open spec fn user_lines(names: Seq<Seq<char>>, user_default: Option<Seq<char>>) -> Seq<char>
    decreases names.len(),
{
    if names.len() == 0 {
        Seq::empty()
    } else {
        user_lines(names.drop_last(), user_default) + entry_line(
            names.last(),
            user_tags(names.last(), user_default),
        )
    }
}

/// The lines that list the system profiles `names`.
pub open spec fn system_lines(
    names: Seq<Seq<char>>,
    system_default: Option<Seq<char>>,
    user: Seq<Seq<char>>,
) -> Seq<char>
    decreases names.len(),
{
    if names.len() == 0 {
        Seq::empty()
    } else {
        system_lines(names.drop_last(), system_default, user) + entry_line(
            names.last(),
            system_tags(names.last(), system_default, user),
        )
    }
}

/// The listing of both tiers: a section per tier, each profile on a line
/// with its tags, and "(none)" for a tier without profiles.
pub open spec fn listing_text(
    user_default: Option<Seq<char>>,
    system_default: Option<Seq<char>>,
    user: Seq<Seq<char>>,
    system: Seq<Seq<char>>,
) -> Seq<char> {
    "user:\n"@ + (if user.len() == 0 {
        "  (none)\n"@
    } else {
        user_lines(user, user_default)
    }) + "system:\n"@ + (if system.len() == 0 {
        "  (none)\n"@
    } else {
        system_lines(system, system_default, user)
    })
}

fn same_text(a: &Option<String>, b: &String) -> (r: bool)
    ensures
        r == (opt_view(*a) == Some(b@)),
{
    match a {
        Some(s) => *s == *b,
        None => false,
    }
}

fn holds_name(names: &Vec<String>, name: &String) -> (r: bool)
    ensures
        r == views(names@).contains(name@),
{
    let mut i: usize = 0;
    while i < names.len()
        invariant
            i <= names.len(),
            forall|k: int| 0 <= k < i ==> names@[k]@ != name@,
        decreases names.len() - i,
    {
        if names[i] == *name {
            assert(views(names@)[i as int] == name@);
            return true;
        }
        i = i + 1;
    }
    proof {
        if views(names@).contains(name@) {
            let k = choose|k: int| 0 <= k < views(names@).len() && views(names@)[k] == name@;
            assert(names@[k]@ == name@);
        }
    }
    false
}

/// The line that lists profile `name` with `tags`.
fn entry_text(name: &String, tags: &Vec<String>) -> (s: String)
    ensures
        s@ == entry_line(name@, views(tags@)),
{
    let line = String::from_str("  ").concat(name.as_str());
    if tags.len() == 0 {
        line.concat("\n")
    } else {
        let joined = join_strings(tags, ", ");
        line.concat(" (").concat(joined.as_str()).concat(")\n")
    }
}

/// The listing of both tiers' profiles, with the user tier's default
/// marked "default", the system tier's marked "system default", and each
/// system profile that a user profile of the same name shadows marked
/// "shadowed".
pub fn list_text(
    user_default: &Option<String>,
    system_default: &Option<String>,
    user: &Vec<String>,
    system: &Vec<String>,
) -> (s: String)
    ensures
        s@ == listing_text(opt_view(*user_default), opt_view(*system_default), views(user@), views(system@)),
{
    let ghost ud = opt_view(*user_default);
    let ghost sd = opt_view(*system_default);
    let mut out = String::from_str("user:\n");
    if user.len() == 0 {
        out.append("  (none)\n");
    } else {
        let ghost start = out@;
        let mut i: usize = 0;
        while i < user.len()
            invariant
                i <= user.len(),
                ud == opt_view(*user_default),
                out@ == start + user_lines(views(user@.take(i as int)), ud),
            decreases user.len() - i,
        {
            let mut tags: Vec<String> = Vec::new();
            if same_text(user_default, &user[i]) {
                tags.push(String::from_str("default"));
            }
            let line = entry_text(&user[i], &tags);
            proof {
                assert(views(user@.take(i + 1)).drop_last() =~= views(user@.take(i as int)));
                assert(views(user@.take(i + 1)).last() == user@[i as int]@);
                assert(views(tags@) =~= user_tags(user@[i as int]@, ud));
            }
            out.append(line.as_str());
            i = i + 1;
        }
        assert(user@.take(user.len() as int) =~= user@);
    }
    out.append("system:\n");
    if system.len() == 0 {
        out.append("  (none)\n");
    } else {
        let ghost start = out@;
        let mut i: usize = 0;
        while i < system.len()
            invariant
                i <= system.len(),
                sd == opt_view(*system_default),
                out@ == start + system_lines(views(system@.take(i as int)), sd, views(user@)),
            decreases system.len() - i,
        {
            let mut tags: Vec<String> = Vec::new();
            let is_default: bool = same_text(system_default, &system[i]);
            if is_default {
                tags.push(String::from_str("system default"));
            }
            let shadowed: bool = holds_name(user, &system[i]);
            if shadowed {
                tags.push(String::from_str("shadowed"));
            }
            let line = entry_text(&system[i], &tags);
            proof {
                assert(views(system@.take(i + 1)).drop_last() =~= views(system@.take(i as int)));
                assert(views(system@.take(i + 1)).last() == system@[i as int]@);
                assert(views(tags@) =~= system_tags(system@[i as int]@, sd, views(user@)));
            }
            out.append(line.as_str());
            i = i + 1;
        }
        assert(system@.take(system.len() as int) =~= system@);
    }
    out
}

/// The tier that the `--system` flag selects.
pub open spec fn tier_of(system: bool) -> Tier {
    if system {
        Tier::System
    } else {
        Tier::User
    }
}

/// The tier that the `--system` flag selects: the system tier where it is
/// given, the user tier otherwise.
pub fn tier_from(system: bool) -> (t: Tier)
    ensures
        t == tier_of(system),
{
    if system {
        Tier::System
    } else {
        Tier::User
    }
}

/// The profile that `profile add` creates from its arguments.
pub open spec fn new_profile(args: ProfileAddArgs) -> Profile {
    Profile {
        name: args.name,
        service: ServiceConfig::Pushover(
            PushoverConfig { token: args.token.unwrap(), user_key: args.user_key.unwrap() },
        ),
        defaults: MessageDefaults {
            title: args.title,
            priority: args.priority,
            sound: args.sound,
            device: args.device,
            url: args.url,
            url_title: args.url_title,
        },
    }
}

/// Reported when a profile has been created.
pub open spec fn created_text(name: Seq<char>, tier: Tier) -> Seq<char> {
    "created profile '"@ + name + "' ("@ + tier_label(tier) + ")\n"@
}

/// Reported when a new system profile is shadowed by a user profile.
pub open spec fn shadow_warning(name: Seq<char>) -> Seq<char> {
    "warning: user profile '"@ + name + "' shadows this system profile\n"@
}

/// Reported when a profile has been removed.
pub open spec fn removed_text(name: Seq<char>, tier: Tier) -> Seq<char> {
    "removed profile '"@ + name + "' ("@ + tier_label(tier) + ")\n"@
}

/// Reported when removing a user profile uncovers a system profile.
pub open spec fn now_active_text(name: Seq<char>) -> Seq<char> {
    "system profile '"@ + name + "' is now active\n"@
}

/// Reported when a tier's default profile has been set.
pub open spec fn default_set_text(name: Seq<char>, tier: Tier) -> Seq<char> {
    tier_label(tier) + " default profile is now '"@ + name + "'\n"@
}

/// A profile file as shown: its text, ending in a newline.
pub open spec fn shown_text(body: Seq<char>) -> Seq<char> {
    if body.len() > 0 && body.last() == '\n' {
        body
    } else {
        body + "\n"@
    }
}

/// The profile names that a directory listing holds; none where the
/// directory does not exist.
pub open spec fn listing_names(l: Option<Vec<Option<String>>>) -> Seq<Seq<char>> {
    match l {
        Some(entries) => listed_names(entries@),
        None => Seq::empty(),
    }
}

/// `names` are the names that listing `l` holds, in ascending order.
pub open spec fn sorted_names_of(l: Option<Vec<Option<String>>>, names: Seq<Seq<char>>) -> bool {
    sorted(names) && names.to_multiset() == listing_names(l).to_multiset()
}

/// The steps of a `profile` subcommand.
#[derive(Debug)]
pub enum ProfileSession {
    /// The command is over.
    Finished,
    /// A last output was written; the command succeeds.
    Closing,
    /// Waiting to learn whether the new profile's file exists.
    AddChecking { profile: Profile, tier: Tier, path: FsPath, env: Environment },
    /// Waiting for the new profile to be written.
    AddStoring { name: String, tier: Tier, env: Environment },
    /// Waiting for the creation to be reported.
    AddAnnounced { name: String, tier: Tier, env: Environment },
    /// Waiting to learn whether a user profile shadows the new system profile.
    AddShadowChecking { name: String },
    /// Waiting for the user tier's settings.
    ListUserConfig { env: Environment },
    /// Waiting for the system tier's settings.
    ListSystemConfig { env: Environment, user_default: Option<String> },
    /// Waiting for the user tier's profiles directory.
    ListUserProfiles { env: Environment, user_default: Option<String>, system_default: Option<String> },
    /// Waiting for the system tier's profiles directory.
    ListSystemProfiles { user_default: Option<String>, system_default: Option<String>, user: Vec<String> },
    /// Looking for the profile to show, tier by tier.
    ShowSearching { search: ProfileSearch },
    /// Waiting for the text of the profile to show.
    ShowReading { name: String },
    /// Waiting for the profile file to be deleted.
    RemoveDeleting { name: String, tier: Tier, env: Environment },
    /// Waiting for the settings of the tier a profile was removed from.
    RemoveConfigLoading { name: String, tier: Tier, env: Environment, path: FsPath },
    /// Waiting for the settings without the removed default to be written.
    RemoveConfigStoring { name: String, tier: Tier, env: Environment },
    /// Waiting for the removal to be reported.
    RemoveAnnounced { name: String, tier: Tier, env: Environment },
    /// Waiting to learn whether a system profile takes over the removed one.
    RemoveFallbackChecking { name: String },
    /// Looking for the profile to make the default, tier by tier.
    UseSearching { search: ProfileSearch, tier: Tier },
    /// Waiting for the profile to make the default to be read.
    UseLoading { name: String, tier: Tier, env: Environment },
    /// Waiting for the settings of the tier whose default is set.
    UseConfigLoading { name: String, tier: Tier, path: FsPath },
    /// Waiting for the settings with the new default to be written.
    UseConfigStoring { name: String, tier: Tier },
}

impl ProfileSession {
    /// The searches that a session holds are well formed.
    pub open spec fn wf(self) -> bool {
        match self {
            ProfileSession::ShowSearching { search } => search.wf(),
            ProfileSession::UseSearching { search, .. } => search.wf(),
            _ => true,
        }
    }
}

/// The kind of event that a session waits for.
pub open spec fn awaits(s: ProfileSession) -> Awaiting {
    match s {
        ProfileSession::Finished => Awaiting::Nothing,
        ProfileSession::Closing => Awaiting::Done,
        ProfileSession::AddChecking { .. } => Awaiting::Existence,
        ProfileSession::AddStoring { .. } => Awaiting::Done,
        ProfileSession::AddAnnounced { .. } => Awaiting::Done,
        ProfileSession::AddShadowChecking { .. } => Awaiting::Existence,
        ProfileSession::ListUserConfig { .. } => Awaiting::Config,
        ProfileSession::ListSystemConfig { .. } => Awaiting::Config,
        ProfileSession::ListUserProfiles { .. } => Awaiting::Listing,
        ProfileSession::ListSystemProfiles { .. } => Awaiting::Listing,
        ProfileSession::ShowSearching { .. } => Awaiting::Existence,
        ProfileSession::ShowReading { .. } => Awaiting::Text,
        ProfileSession::RemoveDeleting { .. } => Awaiting::Deletion,
        ProfileSession::RemoveConfigLoading { .. } => Awaiting::Config,
        ProfileSession::RemoveConfigStoring { .. } => Awaiting::Done,
        ProfileSession::RemoveAnnounced { .. } => Awaiting::Done,
        ProfileSession::RemoveFallbackChecking { .. } => Awaiting::Existence,
        ProfileSession::UseSearching { .. } => Awaiting::Existence,
        ProfileSession::UseLoading { .. } => Awaiting::Profile,
        ProfileSession::UseConfigLoading { .. } => Awaiting::Config,
        ProfileSession::UseConfigStoring { .. } => Awaiting::Done,
    }
}

/// A bound on the number of steps left before the command ends; each step
/// lowers it, so every subcommand ends.
pub open spec fn steps_left(s: ProfileSession) -> nat {
    match s {
        ProfileSession::Finished => 0,
        ProfileSession::Closing => 1,
        ProfileSession::AddChecking { .. } => 5,
        ProfileSession::AddStoring { .. } => 4,
        ProfileSession::AddAnnounced { .. } => 3,
        ProfileSession::AddShadowChecking { .. } => 2,
        ProfileSession::ListUserConfig { .. } => 5,
        ProfileSession::ListSystemConfig { .. } => 4,
        ProfileSession::ListUserProfiles { .. } => 3,
        ProfileSession::ListSystemProfiles { .. } => 2,
        ProfileSession::ShowSearching { search } => if search.tier == Tier::User {
            4
        } else {
            3
        },
        ProfileSession::ShowReading { .. } => 2,
        ProfileSession::RemoveDeleting { .. } => 6,
        ProfileSession::RemoveConfigLoading { .. } => 5,
        ProfileSession::RemoveConfigStoring { .. } => 4,
        ProfileSession::RemoveAnnounced { .. } => 3,
        ProfileSession::RemoveFallbackChecking { .. } => 2,
        ProfileSession::UseSearching { search, .. } => if search.tier == Tier::User {
            6
        } else {
            5
        },
        ProfileSession::UseLoading { .. } => 4,
        ProfileSession::UseConfigLoading { .. } => 3,
        ProfileSession::UseConfigStoring { .. } => 2,
    }
}

/// The command ends successfully.
pub open spec fn finishes_ok(next: ProfileSession, act: Action) -> bool {
    next is Finished && act == Action::Finish(Ok(()))
}

/// The command ends with error `e`.
pub open spec fn finishes_with(next: ProfileSession, act: Action, e: Error) -> bool {
    next is Finished && act == Action::Finish(Err(e))
}

/// The command ends with the error of locating profile `name` in a tier.
pub open spec fn fails_to_locate(
    next: ProfileSession,
    act: Action,
    env: Environment,
    tier: Tier,
    name: Seq<char>,
) -> bool {
    &&& next is Finished
    &&& act matches Action::Finish(Err(e))
    &&& location_error(env, tier, name, e)
}

/// `act` probes the file of profile `name` in a tier.
pub open spec fn probes_profile(act: Action, env: Environment, tier: Tier, name: Seq<char>) -> bool {
    act matches Action::Probe(q) && Some(q@) == profile_location(env, tier, name)
}

/// How a subcommand begins in environment `env`.
pub open spec fn profile_start(cmd: ProfileCmd, env: Environment, next: ProfileSession, act: Action) -> bool {
    match cmd {
        ProfileCmd::Add(args) => {
            let tier = tier_of(args.system);
            if locatable(env, tier, args.name@) {
                &&& probes_profile(act, env, tier, args.name@)
                &&& act matches Action::Probe(q)
                &&& next matches ProfileSession::AddChecking { profile, tier: t, path, env: e }
                &&& profile == new_profile(args)
                &&& t == tier
                &&& e == env
                &&& path@ == q@
            } else {
                fails_to_locate(next, act, env, tier, args.name@)
            }
        },
        ProfileCmd::List => {
            if config_location(env, Tier::User) is Some {
                &&& act matches Action::LoadConfig(q)
                &&& Some(q@) == config_location(env, Tier::User)
                &&& next == ProfileSession::ListUserConfig { env }
            } else {
                &&& act matches Action::LoadConfig(q)
                &&& Some(q@) == config_location(env, Tier::System)
                &&& next == ProfileSession::ListSystemConfig { env, user_default: None }
            }
        },
        ProfileCmd::Show { name, system } => {
            if system {
                if locatable(env, Tier::System, name@) {
                    &&& act matches Action::ReadText(q)
                    &&& Some(q@) == profile_location(env, Tier::System, name@)
                    &&& next == ProfileSession::ShowReading { name }
                } else {
                    fails_to_locate(next, act, env, Tier::System, name@)
                }
            } else {
                if valid_profile_name(name@) {
                    &&& next matches ProfileSession::ShowSearching { search }
                    &&& search_begun(search, act, name, env)
                } else {
                    fails_to_locate(next, act, env, Tier::User, name@)
                }
            }
        },
        ProfileCmd::Remove { name, system } => {
            let tier = tier_of(system);
            if locatable(env, tier, name@) {
                &&& act matches Action::Delete(q)
                &&& Some(q@) == profile_location(env, tier, name@)
                &&& next == ProfileSession::RemoveDeleting { name, tier, env }
            } else {
                fails_to_locate(next, act, env, tier, name@)
            }
        },
        ProfileCmd::Use { name, system } => {
            if valid_profile_name(name@) {
                &&& next matches ProfileSession::UseSearching { search, tier }
                &&& tier == tier_of(system)
                &&& search_begun(search, act, name, env)
            } else {
                fails_to_locate(next, act, env, Tier::User, name@)
            }
        },
        ProfileCmd::Path { name, system } => {
            let tier = tier_of(system);
            match name {
                Some(n) => if locatable(env, tier, n@) {
                    &&& act matches Action::ShowPath(q)
                    &&& Some(q@) == profile_location(env, tier, n@)
                    &&& next is Closing
                } else {
                    fails_to_locate(next, act, env, tier, n@)
                },
                None => if profiles_location(env, tier) is Some {
                    &&& act matches Action::ShowPath(q)
                    &&& Some(q@) == profiles_location(env, tier)
                    &&& next is Closing
                } else {
                    finishes_with(next, act, Error::NoConfigHome)
                },
            }
        },
    }
}

/// How a search for a profile goes on once it is known whether the probed
/// file exists: `found` where it does, the system tier after the user tier,
/// and "not found" when both were probed.
pub open spec fn search_continues(
    search: ProfileSearch,
    exists: bool,
    next: ProfileSession,
    act: Action,
    found: bool,
    fallback: spec_fn(ProfileSearch) -> ProfileSession,
) -> bool {
    if exists {
        found
    } else if search.tier == Tier::User {
        exists|t: ProfileSearch|
            #![trigger fallback(t)]
            system_fallback(search, t) && next == fallback(t) && (act matches Action::Probe(q) && q@
                == t.path@)
    } else {
        finishes_with(next, act, Error::ProfileNotFound(search.name))
    }
}

/// One step of a `profile` subcommand: from session `s` and the event
/// `e` that answers its last action, to session `next` and action `act`.
pub open spec fn profile_step(s: ProfileSession, e: Event, next: ProfileSession, act: Action) -> bool {
    match s {
        ProfileSession::Finished => true,
        ProfileSession::Closing => finishes_ok(next, act),
        ProfileSession::AddChecking { profile, tier, path, env } => match e {
            Event::Exists(true) => finishes_with(next, act, Error::ProfileExists(profile.name)),
            Event::Exists(false) => {
                &&& act == Action::StoreProfile(path, profile)
                &&& next == ProfileSession::AddStoring { name: profile.name, tier, env }
            },
            _ => true,
        },
        ProfileSession::AddStoring { name, tier, env } => {
            &&& act matches Action::Print(t) && t@ == created_text(name@, tier)
            &&& next == ProfileSession::AddAnnounced { name, tier, env }
        },
        ProfileSession::AddAnnounced { name, tier, env } => {
            if tier == Tier::System && locatable(env, Tier::User, name@) {
                &&& probes_profile(act, env, Tier::User, name@)
                &&& next == ProfileSession::AddShadowChecking { name }
            } else {
                finishes_ok(next, act)
            }
        },
        ProfileSession::AddShadowChecking { name } => match e {
            Event::Exists(true) => {
                &&& act matches Action::Warn(t) && t@ == shadow_warning(name@)
                &&& next is Closing
            },
            _ => finishes_ok(next, act),
        },
        ProfileSession::ListUserConfig { env } => match e {
            Event::ConfigLoaded(c) => {
                &&& act matches Action::LoadConfig(q)
                &&& Some(q@) == config_location(env, Tier::System)
                &&& next == ProfileSession::ListSystemConfig { env, user_default: loaded_default(c) }
            },
            _ => true,
        },
        ProfileSession::ListSystemConfig { env, user_default } => match e {
            Event::ConfigLoaded(c) => if profiles_location(env, Tier::User) is Some {
                &&& act matches Action::ListDir(q)
                &&& Some(q@) == profiles_location(env, Tier::User)
                &&& next == ProfileSession::ListUserProfiles {
                    env,
                    user_default,
                    system_default: loaded_default(c),
                }
            } else {
                &&& act matches Action::ListDir(q)
                &&& Some(q@) == profiles_location(env, Tier::System)
                &&& next matches ProfileSession::ListSystemProfiles {
                    user_default: u,
                    system_default: d,
                    user,
                }
                &&& u == user_default
                &&& d == loaded_default(c)
                &&& user@.len() == 0
            },
            _ => true,
        },
        ProfileSession::ListUserProfiles { env, user_default, system_default } => match e {
            Event::Listing(l) => {
                &&& act matches Action::ListDir(q)
                &&& Some(q@) == profiles_location(env, Tier::System)
                &&& next matches ProfileSession::ListSystemProfiles {
                    user_default: u,
                    system_default: d,
                    user,
                }
                &&& u == user_default
                &&& d == system_default
                &&& sorted_names_of(l, views(user@))
            },
            _ => true,
        },
        ProfileSession::ListSystemProfiles { user_default, system_default, user } => match e {
            Event::Listing(l) => {
                &&& next is Closing
                &&& act matches Action::Print(t)
                &&& exists|system: Seq<Seq<char>>|
                    #![trigger sorted(system)]
                    sorted_names_of(l, system) && t@ == listing_text(
                        opt_view(user_default),
                        opt_view(system_default),
                        views(user@),
                        system,
                    )
            },
            _ => true,
        },
        ProfileSession::ShowSearching { search } => match e {
            Event::Exists(b) => search_continues(
                search,
                b,
                next,
                act,
                act == Action::ReadText(search.path) && next == ProfileSession::ShowReading {
                    name: search.name,
                },
                |t: ProfileSearch| ProfileSession::ShowSearching { search: t },
            ),
            _ => true,
        },
        ProfileSession::ShowReading { name } => match e {
            Event::Text(Some(body)) => {
                &&& act matches Action::Print(t) && t@ == shown_text(body@)
                &&& next is Closing
            },
            _ => finishes_with(next, act, Error::ProfileNotFound(name)),
        },
        ProfileSession::RemoveDeleting { name, tier, env } => match e {
            Event::Deleted(true) => if config_location(env, tier) is Some {
                &&& act matches Action::LoadConfig(q)
                &&& Some(q@) == config_location(env, tier)
                &&& next matches ProfileSession::RemoveConfigLoading { name: n, tier: t, env: v, path }
                &&& n == name
                &&& t == tier
                &&& v == env
                &&& path@ == q@
            } else {
                finishes_with(next, act, Error::NoConfigHome)
            },
            _ => finishes_with(next, act, Error::ProfileNotFound(name)),
        },
        ProfileSession::RemoveConfigLoading { name, tier, env, path } => match e {
            Event::ConfigLoaded(c) => if opt_view(loaded_default(c)) == Some(name@) {
                &&& act == Action::StoreConfig(path, Config { default_profile: None })
                &&& next == ProfileSession::RemoveConfigStoring { name, tier, env }
            } else {
                &&& act matches Action::Print(t) && t@ == removed_text(name@, tier)
                &&& next == ProfileSession::RemoveAnnounced { name, tier, env }
            },
            _ => true,
        },
        ProfileSession::RemoveConfigStoring { name, tier, env } => {
            &&& act matches Action::Print(t) && t@ == removed_text(name@, tier)
            &&& next == ProfileSession::RemoveAnnounced { name, tier, env }
        },
        ProfileSession::RemoveAnnounced { name, tier, env } => {
            if tier == Tier::User {
                if locatable(env, Tier::System, name@) {
                    &&& probes_profile(act, env, Tier::System, name@)
                    &&& next == ProfileSession::RemoveFallbackChecking { name }
                } else {
                    fails_to_locate(next, act, env, Tier::System, name@)
                }
            } else {
                finishes_ok(next, act)
            }
        },
        ProfileSession::RemoveFallbackChecking { name } => match e {
            Event::Exists(true) => {
                &&& act matches Action::Print(t) && t@ == now_active_text(name@)
                &&& next is Closing
            },
            _ => finishes_ok(next, act),
        },
        ProfileSession::UseSearching { search, tier } => match e {
            Event::Exists(b) => search_continues(
                search,
                b,
                next,
                act,
                act == Action::LoadProfile(search.path) && next == ProfileSession::UseLoading {
                    name: search.name,
                    tier,
                    env: search.env,
                },
                |t: ProfileSearch| ProfileSession::UseSearching { search: t, tier },
            ),
            _ => true,
        },
        ProfileSession::UseLoading { name, tier, env } => if config_location(env, tier) is Some {
            &&& act matches Action::LoadConfig(q)
            &&& Some(q@) == config_location(env, tier)
            &&& next matches ProfileSession::UseConfigLoading { name: n, tier: t, path }
            &&& n == name
            &&& t == tier
            &&& path@ == q@
        } else {
            finishes_with(next, act, Error::NoConfigHome)
        },
        ProfileSession::UseConfigLoading { name, tier, path } => {
            &&& act == Action::StoreConfig(path, Config { default_profile: Some(name) })
            &&& next == ProfileSession::UseConfigStoring { name, tier }
        },
        ProfileSession::UseConfigStoring { name, tier } => {
            &&& act matches Action::Print(t) && t@ == default_set_text(name@, tier)
            &&& next is Closing
        },
    }
}

fn created_message(name: &String, tier: Tier) -> (s: String)
    ensures
        s@ == created_text(name@, tier),
{
    String::from_str("created profile '").concat(name.as_str()).concat("' (").concat(
        tier.label(),
    ).concat(")\n")
}

fn shadow_message(name: &String) -> (s: String)
    ensures
        s@ == shadow_warning(name@),
{
    String::from_str("warning: user profile '").concat(name.as_str()).concat(
        "' shadows this system profile\n",
    )
}

fn removed_message(name: &String, tier: Tier) -> (s: String)
    ensures
        s@ == removed_text(name@, tier),
{
    String::from_str("removed profile '").concat(name.as_str()).concat("' (").concat(
        tier.label(),
    ).concat(")\n")
}

fn now_active_message(name: &String) -> (s: String)
    ensures
        s@ == now_active_text(name@),
{
    String::from_str("system profile '").concat(name.as_str()).concat("' is now active\n")
}

fn default_set_message(name: &String, tier: Tier) -> (s: String)
    ensures
        s@ == default_set_text(name@, tier),
{
    String::from_str(tier.label()).concat(" default profile is now '").concat(name.as_str()).concat(
        "'\n",
    )
}

fn shown(body: String) -> (s: String)
    ensures
        s@ == shown_text(body@),
{
    let len: usize = body.as_str().unicode_len();
    if len > 0 && body.as_str().get_char(len - 1) == '\n' {
        body
    } else {
        body.concat("\n")
    }
}

fn names_from(l: Option<Vec<Option<String>>>) -> (names: Vec<String>)
    ensures
        sorted_names_of(l, views(names@)),
{
    match l {
        Some(entries) => Profile::names_in_listing(&entries),
        None => {
            let names: Vec<String> = Vec::new();
            assert(views(names@) =~= Seq::empty());
            names
        },
    }
}

fn default_of(c: Option<Config>) -> (d: Option<String>)
    ensures
        d == loaded_default(c),
{
    match c {
        Some(cfg) => cfg.default_profile,
        None => None,
    }
}

/// Begins a `profile` subcommand in environment `env`.
pub fn run(cmd: ProfileCmd, env: Environment) -> (res: (ProfileSession, Action))
    requires
        cmd matches ProfileCmd::Add(args) ==> (args.token is Some && args.user_key is Some),
    ensures
        profile_start(cmd, env, res.0, res.1),
        awaits(res.0) == answer_to(res.1),
        res.0.wf(),
{
    match cmd {
        ProfileCmd::Add(args) => {
            let tier = tier_from(args.system);
            match profile_file(tier, args.name.as_str(), &env) {
                Err(e) => (ProfileSession::Finished, Action::Finish(Err(e))),
                Ok(path) => {
                    let ProfileAddArgs {
                        name,
                        service,
                        token,
                        user_key,
                        title,
                        priority,
                        sound,
                        device,
                        url,
                        url_title,
                        system: _,
                    } = args;
                    let backend = match service {
                        ServiceKind::Pushover => ServiceConfig::Pushover(
                            PushoverConfig { token: token.unwrap(), user_key: user_key.unwrap() },
                        ),
                    };
                    let profile = Profile {
                        name,
                        service: backend,
                        defaults: MessageDefaults { title, priority, sound, device, url, url_title },
                    };
                    let probe = path.duplicate();
                    (ProfileSession::AddChecking { profile, tier, path, env }, Action::Probe(probe))
                },
            }
        },
        ProfileCmd::List => match config_file(Tier::User, &env) {
            Ok(p) => (ProfileSession::ListUserConfig { env }, Action::LoadConfig(p)),
            Err(_) => match config_file(Tier::System, &env) {
                Ok(p) => (ProfileSession::ListSystemConfig { env, user_default: None }, Action::LoadConfig(p)),
                Err(e) => (ProfileSession::Finished, Action::Finish(Err(e))),
            },
        },
        ProfileCmd::Show { name, system } => {
            if system {
                match profile_file(Tier::System, name.as_str(), &env) {
                    Ok(p) => (ProfileSession::ShowReading { name }, Action::ReadText(p)),
                    Err(e) => (ProfileSession::Finished, Action::Finish(Err(e))),
                }
            } else {
                match find_profile_file(name, env) {
                    Ok((search, probe)) => (ProfileSession::ShowSearching { search }, Action::Probe(probe)),
                    Err(e) => (ProfileSession::Finished, Action::Finish(Err(e))),
                }
            }
        },
        ProfileCmd::Remove { name, system } => {
            let tier = tier_from(system);
            match profile_file(tier, name.as_str(), &env) {
                Ok(p) => (ProfileSession::RemoveDeleting { name, tier, env }, Action::Delete(p)),
                Err(e) => (ProfileSession::Finished, Action::Finish(Err(e))),
            }
        },
        ProfileCmd::Use { name, system } => {
            let tier = tier_from(system);
            match find_profile_file(name, env) {
                Ok((search, probe)) => (ProfileSession::UseSearching { search, tier }, Action::Probe(probe)),
                Err(e) => (ProfileSession::Finished, Action::Finish(Err(e))),
            }
        },
        ProfileCmd::Path { name, system } => {
            let tier = tier_from(system);
            let located = match name {
                Some(n) => Profile::path_for(tier, n.as_str(), &env),
                None => profiles_dir(tier, &env),
            };
            match located {
                Ok(p) => (ProfileSession::Closing, Action::ShowPath(p)),
                Err(e) => (ProfileSession::Finished, Action::Finish(Err(e))),
            }
        },
    }
}

impl ProfileSession {
    /// The kind of event that this session waits for.
    pub fn awaiting(&self) -> (k: Awaiting)
        ensures
            k == awaits(*self),
    {
        match self {
            ProfileSession::Finished => Awaiting::Nothing,
            ProfileSession::Closing => Awaiting::Done,
            ProfileSession::AddChecking { .. } => Awaiting::Existence,
            ProfileSession::AddStoring { .. } => Awaiting::Done,
            ProfileSession::AddAnnounced { .. } => Awaiting::Done,
            ProfileSession::AddShadowChecking { .. } => Awaiting::Existence,
            ProfileSession::ListUserConfig { .. } => Awaiting::Config,
            ProfileSession::ListSystemConfig { .. } => Awaiting::Config,
            ProfileSession::ListUserProfiles { .. } => Awaiting::Listing,
            ProfileSession::ListSystemProfiles { .. } => Awaiting::Listing,
            ProfileSession::ShowSearching { .. } => Awaiting::Existence,
            ProfileSession::ShowReading { .. } => Awaiting::Text,
            ProfileSession::RemoveDeleting { .. } => Awaiting::Deletion,
            ProfileSession::RemoveConfigLoading { .. } => Awaiting::Config,
            ProfileSession::RemoveConfigStoring { .. } => Awaiting::Done,
            ProfileSession::RemoveAnnounced { .. } => Awaiting::Done,
            ProfileSession::RemoveFallbackChecking { .. } => Awaiting::Existence,
            ProfileSession::UseSearching { .. } => Awaiting::Existence,
            ProfileSession::UseLoading { .. } => Awaiting::Profile,
            ProfileSession::UseConfigLoading { .. } => Awaiting::Config,
            ProfileSession::UseConfigStoring { .. } => Awaiting::Done,
        }
    }

    /// Takes the event that answers the session's last action and decides
    /// what comes next.
    pub fn resume(self, event: Event) -> (res: (ProfileSession, Action))
        requires
            self.wf(),
            kind_of(event) == awaits(self),
        ensures
            profile_step(self, event, res.0, res.1),
            awaits(res.0) == answer_to(res.1),
            res.0.wf(),
            steps_left(res.0) < steps_left(self),
    {
        let exists: bool = match &event {
            Event::Exists(b) => *b,
            _ => false,
        };
        match self {
            ProfileSession::Finished => (ProfileSession::Finished, Action::Finish(Ok(()))),
            ProfileSession::Closing => (ProfileSession::Finished, Action::Finish(Ok(()))),
            ProfileSession::AddChecking { profile, tier, path, env } => {
                if exists {
                    (ProfileSession::Finished, Action::Finish(Err(Error::ProfileExists(profile.name))))
                } else {
                    let name = profile.name.clone();
                    (ProfileSession::AddStoring { name, tier, env }, Action::StoreProfile(path, profile))
                }
            },
            ProfileSession::AddStoring { name, tier, env } => {
                let text = created_message(&name, tier);
                (ProfileSession::AddAnnounced { name, tier, env }, Action::Print(text))
            },
            ProfileSession::AddAnnounced { name, tier, env } => {
                if tier == Tier::System {
                    match profile_file(Tier::User, name.as_str(), &env) {
                        Ok(p) => (ProfileSession::AddShadowChecking { name }, Action::Probe(p)),
                        Err(_) => (ProfileSession::Finished, Action::Finish(Ok(()))),
                    }
                } else {
                    (ProfileSession::Finished, Action::Finish(Ok(())))
                }
            },
            ProfileSession::AddShadowChecking { name } => {
                if exists {
                    (ProfileSession::Closing, Action::Warn(shadow_message(&name)))
                } else {
                    (ProfileSession::Finished, Action::Finish(Ok(())))
                }
            },
            ProfileSession::ListUserConfig { env } => {
                let loaded = match event {
                    Event::ConfigLoaded(c) => c,
                    _ => None,
                };
                let user_default = default_of(loaded);
                match config_file(Tier::System, &env) {
                    Ok(p) => (ProfileSession::ListSystemConfig { env, user_default }, Action::LoadConfig(p)),
                    Err(e) => (ProfileSession::Finished, Action::Finish(Err(e))),
                }
            },
            ProfileSession::ListSystemConfig { env, user_default } => {
                let loaded = match event {
                    Event::ConfigLoaded(c) => c,
                    _ => None,
                };
                let system_default = default_of(loaded);
                match profiles_dir(Tier::User, &env) {
                    Ok(p) => (
                        ProfileSession::ListUserProfiles { env, user_default, system_default },
                        Action::ListDir(p),
                    ),
                    Err(_) => match profiles_dir(Tier::System, &env) {
                        Ok(p) => (
                            ProfileSession::ListSystemProfiles { user_default, system_default, user: Vec::new() },
                            Action::ListDir(p),
                        ),
                        Err(e) => (ProfileSession::Finished, Action::Finish(Err(e))),
                    },
                }
            },
            ProfileSession::ListUserProfiles { env, user_default, system_default } => {
                let listing = match event {
                    Event::Listing(l) => l,
                    _ => None,
                };
                let user = names_from(listing);
                match profiles_dir(Tier::System, &env) {
                    Ok(p) => (
                        ProfileSession::ListSystemProfiles { user_default, system_default, user },
                        Action::ListDir(p),
                    ),
                    Err(e) => (ProfileSession::Finished, Action::Finish(Err(e))),
                }
            },
            ProfileSession::ListSystemProfiles { user_default, system_default, user } => {
                let listing = match event {
                    Event::Listing(l) => l,
                    _ => None,
                };
                let ghost l = listing;
                let system = names_from(listing);
                let text = list_text(&user_default, &system_default, &user, &system);
                assert(sorted(views(system@)));
                (ProfileSession::Closing, Action::Print(text))
            },
            ProfileSession::ShowSearching { search } => {
                match search.resume(exists) {
                    SearchStep::Found(s) => (ProfileSession::ShowReading { name: s.name }, Action::ReadText(s.path)),
                    SearchStep::Probe(s, p) => {
                        let ghost t = s;
                        let next = ProfileSession::ShowSearching { search: s };
                        assert(next == (|t: ProfileSearch| ProfileSession::ShowSearching { search: t })(t));
                        (next, Action::Probe(p))
                    },
                    SearchStep::Missing(s) => (
                        ProfileSession::Finished,
                        Action::Finish(Err(Error::ProfileNotFound(s.name))),
                    ),
                }
            },
            ProfileSession::ShowReading { name } => {
                match event {
                    Event::Text(Some(body)) => (ProfileSession::Closing, Action::Print(shown(body))),
                    _ => (ProfileSession::Finished, Action::Finish(Err(Error::ProfileNotFound(name)))),
                }
            },
            ProfileSession::RemoveDeleting { name, tier, env } => {
                match event {
                    Event::Deleted(true) => match config_file(tier, &env) {
                        Ok(path) => {
                            let probe = path.duplicate();
                            (
                                ProfileSession::RemoveConfigLoading { name, tier, env, path },
                                Action::LoadConfig(probe),
                            )
                        },
                        Err(e) => (ProfileSession::Finished, Action::Finish(Err(e))),
                    },
                    _ => (ProfileSession::Finished, Action::Finish(Err(Error::ProfileNotFound(name)))),
                }
            },
            ProfileSession::RemoveConfigLoading { name, tier, env, path } => {
                let loaded = match event {
                    Event::ConfigLoaded(c) => c,
                    _ => None,
                };
                let current = default_of(loaded);
                if same_text(&current, &name) {
                    (
                        ProfileSession::RemoveConfigStoring { name, tier, env },
                        Action::StoreConfig(path, Config { default_profile: None }),
                    )
                } else {
                    let text = removed_message(&name, tier);
                    (ProfileSession::RemoveAnnounced { name, tier, env }, Action::Print(text))
                }
            },
            ProfileSession::RemoveConfigStoring { name, tier, env } => {
                let text = removed_message(&name, tier);
                (ProfileSession::RemoveAnnounced { name, tier, env }, Action::Print(text))
            },
            ProfileSession::RemoveAnnounced { name, tier, env } => {
                if tier == Tier::User {
                    match profile_file(Tier::System, name.as_str(), &env) {
                        Ok(p) => (ProfileSession::RemoveFallbackChecking { name }, Action::Probe(p)),
                        Err(e) => (ProfileSession::Finished, Action::Finish(Err(e))),
                    }
                } else {
                    (ProfileSession::Finished, Action::Finish(Ok(())))
                }
            },
            ProfileSession::RemoveFallbackChecking { name } => {
                if exists {
                    (ProfileSession::Closing, Action::Print(now_active_message(&name)))
                } else {
                    (ProfileSession::Finished, Action::Finish(Ok(())))
                }
            },
            ProfileSession::UseSearching { search, tier } => {
                match search.resume(exists) {
                    SearchStep::Found(s) => (
                        ProfileSession::UseLoading { name: s.name, tier, env: s.env },
                        Action::LoadProfile(s.path),
                    ),
                    SearchStep::Probe(s, p) => {
                        let ghost t = s;
                        let next = ProfileSession::UseSearching { search: s, tier };
                        assert(next == (|t: ProfileSearch| ProfileSession::UseSearching { search: t, tier })(t));
                        (next, Action::Probe(p))
                    },
                    SearchStep::Missing(s) => (
                        ProfileSession::Finished,
                        Action::Finish(Err(Error::ProfileNotFound(s.name))),
                    ),
                }
            },
            ProfileSession::UseLoading { name, tier, env } => {
                match config_file(tier, &env) {
                    Ok(path) => {
                        let probe = path.duplicate();
                        (ProfileSession::UseConfigLoading { name, tier, path }, Action::LoadConfig(probe))
                    },
                    Err(e) => (ProfileSession::Finished, Action::Finish(Err(e))),
                }
            },
            ProfileSession::UseConfigLoading { name, tier, path } => {
                let chosen = name.clone();
                (
                    ProfileSession::UseConfigStoring { name, tier },
                    Action::StoreConfig(path, Config { default_profile: Some(chosen) }),
                )
            },
            ProfileSession::UseConfigStoring { name, tier } => {
                let text = default_set_message(&name, tier);
                (ProfileSession::Closing, Action::Print(text))
            },
        }
    }
}

} // verus!
