//! Properties of the library that span several functions or several
//! steps of a command.
use vstd::prelude::*;

use crate::cli::{ProfileCmd, SendArgs};
use crate::commands::profile::{profile_start, profile_step, system_tags, tier_of, user_tags};
use crate::commands::profile::ProfileSession;
use crate::commands::send::{account_of, composed_message, overrides_of, send_awaits, send_start};
use crate::commands::send::{send_step, SendSession};
use crate::commands::{kind_of, search_begun, Action, Event};
use crate::config::Config;
use crate::error::Error;
use crate::paths::{config_location, locatable, profile_file_name, profile_location};
use crate::paths::{first_search_tier, profiles_location, tier_root, valid_profile_name};
use crate::paths::{Environment, ProfileSearch, Tier};
use crate::profile::Profile;
use crate::service::form_view;
use crate::service::pushover::{endpoint, failure_text, pushover_form, success_status};

verus! {

/// Within a tier, a profile's file lies in the profiles directory under
/// its name with `.ron` appended, and the settings file lies beside that
/// directory, in the tier root.
pub proof fn law_tier_layout(env: Environment, tier: Tier, name: Seq<char>)
    requires
        tier_root(env, tier) is Some,
    ensures
        profile_location(env, tier, name) == Some(
            profiles_location(env, tier).unwrap().push(profile_file_name(name)),
        ),
        profiles_location(env, tier).unwrap().drop_last() == tier_root(env, tier).unwrap(),
        config_location(env, tier).unwrap().drop_last() == tier_root(env, tier).unwrap(),
        profiles_location(env, tier).unwrap().last() == "profiles"@,
        config_location(env, tier).unwrap().last() == "config.ron"@,
{
    let root = tier_root(env, tier).unwrap();
    assert(root + seq!["profiles"@, profile_file_name(name)] =~= (root + seq!["profiles"@]).push(
        profile_file_name(name),
    ));
    assert((root + seq!["profiles"@]).drop_last() =~= root);
    assert((root + seq!["config.ron"@]).drop_last() =~= root);
}

/// In a listing, a system profile is marked "shadowed" exactly when a user
/// profile has the same name, and "system default" exactly when it is the
/// system tier's default; a user profile is marked "default" exactly when
/// it is the user tier's default.
pub proof fn law_listing_marks(
    name: Seq<char>,
    user_default: Option<Seq<char>>,
    system_default: Option<Seq<char>>,
    user: Seq<Seq<char>>,
)
    ensures
        system_tags(name, system_default, user).contains("shadowed"@) <==> user.contains(name),
        system_tags(name, system_default, user).contains("system default"@) <==> system_default
            == Some(name),
        user_tags(name, user_default).contains("default"@) <==> user_default == Some(name),
{
    reveal_strlit("shadowed");
    reveal_strlit("system default");
    reveal_strlit("default");
    let tags = system_tags(name, system_default, user);
    assert("shadowed"@.len() != "system default"@.len());
    if user.contains(name) {
        assert(tags[tags.len() - 1] == "shadowed"@);
    }
    if system_default == Some(name) {
        assert(tags[0] == "system default"@);
    }
    let utags = user_tags(name, user_default);
    if user_default == Some(name) {
        assert(utags[0] == "default"@);
    }
}

/// The system tier can always be located; only the user tier depends on
/// the environment.
pub proof fn law_system_tier_always_located(env: Environment)
    ensures
        tier_root(env, Tier::System) is Some,
{
}

/// `profile add` never overwrites: where the new profile's file already
/// exists, the command ends with `ProfileExists` and writes nothing.
pub proof fn law_add_refuses_existing(
    cmd: ProfileCmd,
    env: Environment,
    s1: ProfileSession,
    a1: Action,
    s2: ProfileSession,
    a2: Action,
)
    requires
        cmd is Add,
        locatable(env, tier_of(cmd->Add_0.system), cmd->Add_0.name@),
        profile_start(cmd, env, s1, a1),
        profile_step(s1, Event::Exists(true), s2, a2),
    ensures
        s2 is Finished,
        a2 == Action::Finish(Err(Error::ProfileExists(cmd->Add_0.name))),
{
}

/// `profile show NAME` without `--system` shows the user tier's copy where
/// the user tier has one: the file it reads is the user tier's.
pub proof fn law_show_prefers_user_copy(
    name: String,
    env: Environment,
    s1: ProfileSession,
    a1: Action,
    s2: ProfileSession,
    a2: Action,
)
    requires
        locatable(env, Tier::User, name@),
        profile_start(ProfileCmd::Show { name, system: false }, env, s1, a1),
        profile_step(s1, Event::Exists(true), s2, a2),
    ensures
        a2 matches Action::ReadText(p) && Some(p@) == profile_location(env, Tier::User, name@),
{
}

/// `profile use NAME [--system]` writes NAME as the default profile of the
/// chosen tier, into that tier's settings file.
pub proof fn law_use_sets_default_of_chosen_tier(
    name: String,
    system: bool,
    env: Environment,
    found: bool,
    profile: Profile,
    current: Option<Config>,
    s1: ProfileSession,
    a1: Action,
    s2: ProfileSession,
    a2: Action,
    s3: ProfileSession,
    a3: Action,
    s4: ProfileSession,
    a4: Action,
)
    requires
        valid_profile_name(name@),
        tier_root(env, tier_of(system)) is Some,
        profile_start(ProfileCmd::Use { name, system }, env, s1, a1),
        profile_step(s1, Event::Exists(true), s2, a2),
        profile_step(s2, Event::ProfileLoaded(profile), s3, a3),
        profile_step(s3, Event::ConfigLoaded(current), s4, a4),
    ensures
        a4 matches Action::StoreConfig(p, c) && Some(p@) == config_location(env, tier_of(system))
            && c.default_profile == Some(name),
{
}

/// `profile remove` clears the tier's default exactly when the default
/// named the removed profile; the settings it writes are that tier's.
pub proof fn law_remove_clears_named_default(
    name: String,
    system: bool,
    env: Environment,
    current: Option<Config>,
    s1: ProfileSession,
    a1: Action,
    s2: ProfileSession,
    a2: Action,
    s3: ProfileSession,
    a3: Action,
)
    requires
        locatable(env, tier_of(system), name@),
        profile_start(ProfileCmd::Remove { name, system }, env, s1, a1),
        profile_step(s1, Event::Deleted(true), s2, a2),
        profile_step(s2, Event::ConfigLoaded(current), s3, a3),
    ensures
        (a3 is StoreConfig) <==> (current matches Some(c) && c.default_profile matches Some(d) && d@
            == name@),
        a3 matches Action::StoreConfig(p, c) ==> Some(p@) == config_location(env, tier_of(system))
            && c.default_profile is None,
{
}

/// `send` without `--profile` uses the user tier's default where it sets
/// one, without reading the system tier's settings.
pub proof fn law_send_prefers_user_default(
    args: SendArgs,
    env: Environment,
    user_default: String,
    s1: SendSession,
    a1: Action,
    s2: SendSession,
    a2: Action,
)
    requires
        args.profile is None,
        tier_root(env, Tier::User) is Some,
        valid_name_of(user_default),
        send_start(args, env, s1, a1),
        send_step(
            s1,
            Event::ConfigLoaded(Some(Config { default_profile: Some(user_default) })),
            s2,
            a2,
        ),
    ensures
        a2 matches Action::Probe(p) && Some(p@) == profile_location(env, Tier::User, user_default@),
        s2 matches SendSession::Searching { search, .. } && search.name == user_default,
{
}

/// `send` without `--profile`, where the user tier sets no default, uses
/// the system tier's default, and fails with `NoDefaultProfile` where that
/// tier sets none either.
pub proof fn law_send_falls_back_to_system_default(
    args: SendArgs,
    env: Environment,
    user: Option<Config>,
    system: Option<Config>,
    s1: SendSession,
    a1: Action,
    s2: SendSession,
    a2: Action,
    s3: SendSession,
    a3: Action,
)
    requires
        args.profile is None,
        tier_root(env, Tier::User) is Some,
        user matches Some(c) ==> c.default_profile is None,
        send_start(args, env, s1, a1),
        send_step(s1, Event::ConfigLoaded(user), s2, a2),
        send_step(s2, Event::ConfigLoaded(system), s3, a3),
    ensures
        a2 matches Action::LoadConfig(p) && Some(p@) == config_location(env, Tier::System),
        system matches Some(c) ==> (c.default_profile matches Some(d) ==> (valid_name_of(d) ==> (
        s3 matches SendSession::Searching { search, .. } && search.name == d))),
        !(system matches Some(c) && c.default_profile is Some) ==> a3 == Action::Finish(
            Err(Error::NoDefaultProfile),
        ),
{
}

/// Where the user tier cannot be located, the user has set nothing, so a
/// profile is looked up in the system tier: `profile show NAME` probes and
/// then shows the system tier's copy.
pub proof fn law_show_without_user_tier_uses_system_copy(
    name: String,
    env: Environment,
    s1: ProfileSession,
    a1: Action,
    s2: ProfileSession,
    a2: Action,
)
    requires
        tier_root(env, Tier::User) is None,
        valid_profile_name(name@),
        profile_start(ProfileCmd::Show { name, system: false }, env, s1, a1),
        profile_step(s1, Event::Exists(true), s2, a2),
    ensures
        a1 matches Action::Probe(p) && Some(p@) == profile_location(env, Tier::System, name@),
        a2 matches Action::ReadText(p) && Some(p@) == profile_location(env, Tier::System, name@),
{
}

/// Where the user tier cannot be located, `send` looks a named profile up
/// in the system tier, and without a named profile it reads the system
/// tier's settings for the default.
pub proof fn law_send_without_user_tier_uses_system_tier(
    args: SendArgs,
    env: Environment,
    s1: SendSession,
    a1: Action,
)
    requires
        tier_root(env, Tier::User) is None,
        send_start(args, env, s1, a1),
    ensures
        args.profile matches Some(n) ==> (valid_profile_name(n@) ==> (a1 matches Action::Probe(p)
            && Some(p@) == profile_location(env, Tier::System, n@))),
        args.profile is None ==> (a1 matches Action::LoadConfig(p) && Some(p@) == config_location(
            env,
            Tier::System,
        )),
{
}

/// `profile add --system` needs nothing of the user tier: where the user
/// tier cannot be located it stores the profile, reports it and succeeds.
pub proof fn law_system_add_without_user_tier_succeeds(
    cmd: ProfileCmd,
    env: Environment,
    s1: ProfileSession,
    a1: Action,
    s2: ProfileSession,
    a2: Action,
    s3: ProfileSession,
    a3: Action,
    s4: ProfileSession,
    a4: Action,
)
    requires
        cmd matches ProfileCmd::Add(args) && args.system && valid_profile_name(args.name@),
        tier_root(env, Tier::User) is None,
        profile_start(cmd, env, s1, a1),
        profile_step(s1, Event::Exists(false), s2, a2),
        profile_step(s2, Event::Done, s3, a3),
        profile_step(s3, Event::Done, s4, a4),
    ensures
        a2 matches Action::StoreProfile(p, _) && Some(p@) == profile_location(
            env,
            Tier::System,
            cmd->Add_0.name@,
        ),
        a3 is Print,
        a4 == Action::Finish(Ok(())),
{
}

/// An added profile is found again: `profile add` stores it at its file in
/// the chosen tier, and where that tier is the one a lookup starts in, a
/// lookup of the same name probes exactly that file first.
pub proof fn law_added_profile_is_found(
    cmd: ProfileCmd,
    env: Environment,
    s1: ProfileSession,
    a1: Action,
    s2: ProfileSession,
    a2: Action,
    search: ProfileSearch,
    probe: Action,
)
    requires
        cmd is Add,
        locatable(env, tier_of(cmd->Add_0.system), cmd->Add_0.name@),
        profile_start(cmd, env, s1, a1),
        profile_step(s1, Event::Exists(false), s2, a2),
        search_begun(search, probe, cmd->Add_0.name, env),
    ensures
        a2 matches Action::StoreProfile(p, profile) && Some(p@) == profile_location(
            env,
            tier_of(cmd->Add_0.system),
            cmd->Add_0.name@,
        ) && profile.name == cmd->Add_0.name,
        tier_of(cmd->Add_0.system) == first_search_tier(env) ==> (a2 matches Action::StoreProfile(
            p,
            _,
        ) && probe matches Action::Probe(q) && q@ == p@ && search.path@ == p@),
{
}

/// The message and account that `send` carries: before delivery the body
/// and the attributes are those of the command line.
pub open spec fn send_carries(s: SendSession, args: SendArgs) -> bool {
    match s {
        SendSession::ResolvingUser { body, overrides, .. } => body == args.message && overrides
            == overrides_of(args),
        SendSession::ResolvingSystem { body, overrides, .. } => body == args.message && overrides
            == overrides_of(args),
        SendSession::Searching { body, overrides, .. } => body == args.message && overrides
            == overrides_of(args),
        SendSession::Loading { body, overrides } => body == args.message && overrides
            == overrides_of(args),
        _ => true,
    }
}

/// A run of `send`: its sessions, the events that answered them and the
/// actions they asked for, each step as `send_step` states it.
pub open spec fn send_run(
    args: SendArgs,
    env: Environment,
    sessions: Seq<SendSession>,
    events: Seq<Event>,
    actions: Seq<Action>,
) -> bool {
    &&& sessions.len() == events.len() + 1
    &&& actions.len() == events.len() + 1
    &&& send_start(args, env, sessions[0], actions[0])
    &&& forall|i: int|
        0 <= i < events.len() ==> kind_of(#[trigger] events[i]) == send_awaits(sessions[i])
            && send_step(sessions[i], events[i], sessions[i + 1], actions[i + 1])
}

proof fn lemma_send_carries(
    args: SendArgs,
    env: Environment,
    sessions: Seq<SendSession>,
    events: Seq<Event>,
    actions: Seq<Action>,
    k: int,
)
    requires
        send_run(args, env, sessions, events, actions),
        0 <= k < sessions.len(),
    ensures
        send_carries(sessions[k], args),
    decreases k,
{
    if k > 0 {
        lemma_send_carries(args, env, sessions, events, actions, k - 1);
        assert(kind_of(events[k - 1]) == send_awaits(sessions[k - 1]));
    }
}

/// Whatever way `send` finds its profile, what it delivers is that
/// profile's account with the message composed from the command line over
/// the profile's defaults, to Pushover's endpoint; and it ends with success
/// exactly on a 2xx reply, else with the error the reply reports.
pub proof fn law_send_delivers_composed_message(
    args: SendArgs,
    env: Environment,
    sessions: Seq<SendSession>,
    events: Seq<Event>,
    actions: Seq<Action>,
)
    requires
        send_run(args, env, sessions, events, actions),
    ensures
        forall|i: int|
            1 <= i < actions.len() && #[trigger] actions[i] is Deliver ==> (events[i - 1] matches Event::ProfileLoaded(p)
                && actions[i] matches Action::Deliver(d) && d.endpoint@ == endpoint() && form_view(
                d.form@,
            ) == pushover_form(
                account_of(p),
                composed_message(p, args.message, overrides_of(args)),
            )),
        forall|i: int|
            0 <= i < events.len() && #[trigger] events[i] is Replied ==> (events[i] matches Event::Replied(reply) && actions[i + 1] matches Action::Finish(r)
                && (success_status(reply.status) ==> r is Ok) && (!success_status(reply.status)
                ==> (r matches Err(Error::Service(m)) && m@ == failure_text(reply)))),
{
    assert forall|i: int| 1 <= i < actions.len() && #[trigger] actions[i] is Deliver implies (
    events[i - 1] matches Event::ProfileLoaded(p) && actions[i] matches Action::Deliver(d)
        && d.endpoint@ == endpoint() && form_view(d.form@) == pushover_form(
        account_of(p),
        composed_message(p, args.message, overrides_of(args)),
    )) by {
        lemma_send_carries(args, env, sessions, events, actions, i - 1);
        assert(kind_of(events[i - 1]) == send_awaits(sessions[i - 1]));
    }
    assert forall|i: int| 0 <= i < events.len() && #[trigger] events[i] is Replied implies (
    events[i] matches Event::Replied(reply) && actions[i + 1] matches Action::Finish(r) && (
    success_status(reply.status) ==> r is Ok) && (!success_status(reply.status) ==> (r matches Err(
        Error::Service(m),
    ) && m@ == failure_text(reply)))) by {
        assert(kind_of(events[i]) == send_awaits(sessions[i]));
    }
}

/// A name that locates in the user tier of every environment that has one.
pub open spec fn valid_name_of(name: String) -> bool {
    crate::paths::valid_profile_name(name@)
}

} // verus!
