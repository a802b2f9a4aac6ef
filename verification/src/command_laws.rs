//! Laws over whole runs of the commands: what each command does with its
//! inputs, stated directly over the arguments and the actions it asks for.
use vstd::prelude::*;

use crate::cli::{ProfileAddArgs, ProfileCmd};
use crate::commands::profile::{awaits, profile_start, profile_step, tier_of};
use crate::commands::profile::{entry_line, listing_text, system_lines, system_tags, user_lines};
use crate::commands::profile::user_tags;
use crate::text::{join, signed_decimal};
use crate::cli::SendArgs;
use crate::commands::send::{account_of, composed_message, overrides_of};
use crate::laws::{law_send_delivers_composed_message, send_run};
use crate::service::form_view;
use crate::service::pushover::{optional_field, pushover_form, PushoverConfig};
use crate::service::Message;
use crate::commands::{kind_of, Action, Event};
use crate::paths::{config_location, locatable, profile_location, tier_label, Environment, Tier};
use crate::profile::ServiceConfig;
use crate::commands::profile::ProfileSession;
use crate::commands::send::SendSession;

verus! {

/// `profile add` stores exactly the settings it was given: the name, the
/// `--token` as the account's token, the `--user-key` as its user key, and
/// each of `--title` to `--url-title` as the profile's default.
pub proof fn law_add_stores_given_settings(
    args: ProfileAddArgs,
    env: Environment,
    s1: ProfileSession,
    a1: Action,
    s2: ProfileSession,
    a2: Action,
)
    requires
        args.token is Some,
        args.user_key is Some,
        locatable(env, tier_of(args.system), args.name@),
        profile_start(ProfileCmd::Add(args), env, s1, a1),
        profile_step(s1, Event::Exists(false), s2, a2),
    ensures
        a2 matches Action::StoreProfile(_, profile) && {
            &&& profile.name == args.name
            &&& profile.service matches ServiceConfig::Pushover(account)
            &&& args.token == Some(account.token)
            &&& args.user_key == Some(account.user_key)
            &&& profile.defaults.title == args.title
            &&& profile.defaults.priority == args.priority
            &&& profile.defaults.sound == args.sound
            &&& profile.defaults.device == args.device
            &&& profile.defaults.url == args.url
            &&& profile.defaults.url_title == args.url_title
        },
{
}

/// A run of a `profile` subcommand: its sessions, the events that answered
/// them and the actions they asked for, each step as `profile_step` states.
pub open spec fn profile_run(
    cmd: ProfileCmd,
    env: Environment,
    sessions: Seq<ProfileSession>,
    events: Seq<Event>,
    actions: Seq<Action>,
) -> bool {
    &&& sessions.len() == events.len() + 1
    &&& actions.len() == events.len() + 1
    &&& profile_start(cmd, env, sessions[0], actions[0])
    &&& forall|i: int|
        0 <= i < events.len() ==> kind_of(#[trigger] events[i]) == awaits(sessions[i])
            && profile_step(sessions[i], events[i], sessions[i + 1], actions[i + 1])
}

/// What a session of `profile remove NAME` holds: the name and the tier it
/// was started with; while it waits to learn whether the system tier has
/// the profile, its last action probed the system tier's file.
pub open spec fn removing(s: ProfileSession, a: Action, name: String, tier: Tier, env: Environment) -> bool {
    match s {
        ProfileSession::RemoveDeleting { name: n, tier: t, env: v } => n == name && t == tier && v
            == env,
        ProfileSession::RemoveConfigLoading { name: n, tier: t, env: v, .. } => n == name && t
            == tier && v == env,
        ProfileSession::RemoveConfigStoring { name: n, tier: t, env: v } => n == name && t == tier
            && v == env,
        ProfileSession::RemoveAnnounced { name: n, tier: t, env: v } => n == name && t == tier && v
            == env,
        ProfileSession::RemoveFallbackChecking { name: n } => n == name && tier == Tier::User && (
        a matches Action::Probe(p) && Some(p@) == profile_location(env, Tier::System, name@)),
        ProfileSession::Closing => true,
        ProfileSession::Finished => true,
        _ => false,
    }
}

proof fn lemma_removing(
    name: String,
    system: bool,
    env: Environment,
    sessions: Seq<ProfileSession>,
    events: Seq<Event>,
    actions: Seq<Action>,
    k: int,
)
    requires
        profile_run(ProfileCmd::Remove { name, system }, env, sessions, events, actions),
        0 <= k < sessions.len(),
    ensures
        removing(sessions[k], actions[k], name, tier_of(system), env),
    decreases k,
{
    if k > 0 {
        lemma_removing(name, system, env, sessions, events, actions, k - 1);
        assert(kind_of(events[k - 1]) == awaits(sessions[k - 1]));
    }
}

/// `profile remove NAME` says that a system profile is now active only
/// after removing a user profile, and only when the probe of the system
/// tier's file for NAME answered that it exists; when that probe answers
/// that it does not, the command succeeds with no further output.
pub proof fn law_remove_announces_only_existing_system_profile(
    name: String,
    system: bool,
    env: Environment,
    sessions: Seq<ProfileSession>,
    events: Seq<Event>,
    actions: Seq<Action>,
)
    requires
        profile_run(ProfileCmd::Remove { name, system }, env, sessions, events, actions),
    ensures
        forall|i: int|
            0 <= i < events.len() && (#[trigger] actions[i + 1] matches Action::Print(t) && t@
                == "system profile '"@ + name@ + "' is now active\n"@) ==> {
                &&& !system
                &&& events[i] == Event::Exists(true)
                &&& actions[i] matches Action::Probe(p) && Some(p@) == profile_location(
                    env,
                    Tier::System,
                    name@,
                )
            },
        forall|i: int|
            0 <= i < events.len() && #[trigger] sessions[i] is RemoveFallbackChecking && events[i]
                == Event::Exists(false) ==> actions[i + 1] == Action::Finish(Ok(())),
{
    reveal_strlit("system profile '");
    reveal_strlit("removed profile '");
    assert forall|i: int|
        0 <= i < events.len() && (#[trigger] actions[i + 1] matches Action::Print(t) && t@
            == "system profile '"@ + name@ + "' is now active\n"@) implies {
        &&& !system
        &&& events[i] == Event::Exists(true)
        &&& actions[i] matches Action::Probe(p) && Some(p@) == profile_location(
            env,
            Tier::System,
            name@,
        )
    } by {
        lemma_removing(name, system, env, sessions, events, actions, i);
        assert(kind_of(events[i]) == awaits(sessions[i]));
        let t = actions[i + 1]->Print_0;
        assert(t@[0] == 's');
    }
    assert forall|i: int|
        0 <= i < events.len() && #[trigger] sessions[i] is RemoveFallbackChecking && events[i]
            == Event::Exists(false) implies actions[i + 1] == Action::Finish(Ok(())) by {
        assert(kind_of(events[i]) == awaits(sessions[i]));
    }
}

/// What a session of `profile use NAME [--system]` holds: the name and the
/// tier chosen by `--system`, whichever tier the profile is found in; once
/// the settings are read, the path is that tier's settings file.
pub open spec fn using(s: ProfileSession, name: String, tier: Tier, env: Environment) -> bool {
    match s {
        ProfileSession::UseSearching { search, tier: t } => search.name == name && search.env
            == env && t == tier,
        ProfileSession::UseLoading { name: n, tier: t, env: v } => n == name && t == tier && v
            == env,
        ProfileSession::UseConfigLoading { name: n, tier: t, path } => n == name && t == tier
            && Some(path@) == config_location(env, tier),
        ProfileSession::UseConfigStoring { name: n, tier: t } => n == name && t == tier,
        ProfileSession::Closing => true,
        ProfileSession::Finished => true,
        _ => false,
    }
}

proof fn lemma_using(
    name: String,
    system: bool,
    env: Environment,
    sessions: Seq<ProfileSession>,
    events: Seq<Event>,
    actions: Seq<Action>,
    k: int,
)
    requires
        profile_run(ProfileCmd::Use { name, system }, env, sessions, events, actions),
        0 <= k < sessions.len(),
    ensures
        using(sessions[k], name, tier_of(system), env),
    decreases k,
{
    if k > 0 {
        lemma_using(name, system, env, sessions, events, actions, k - 1);
        assert(kind_of(events[k - 1]) == awaits(sessions[k - 1]));
    }
}

/// `profile use NAME [--system]` sets NAME as the default of the tier that
/// `--system` chooses, whichever tier NAME was found in: every settings
/// file it writes is that tier's and names NAME, and what it reports names
/// that tier.
pub proof fn law_use_writes_chosen_tier_in_every_run(
    name: String,
    system: bool,
    env: Environment,
    sessions: Seq<ProfileSession>,
    events: Seq<Event>,
    actions: Seq<Action>,
)
    requires
        profile_run(ProfileCmd::Use { name, system }, env, sessions, events, actions),
    ensures
        forall|i: int|
            0 <= i < actions.len() && (#[trigger] actions[i] matches Action::StoreConfig(p, c))
                ==> Some(actions[i]->StoreConfig_0@) == config_location(env, tier_of(system))
                && actions[i]->StoreConfig_1.default_profile == Some(name),
        forall|i: int|
            0 <= i < actions.len() && (#[trigger] actions[i] matches Action::Print(t)) ==> actions[i]->Print_0@
                == tier_label(tier_of(system)) + " default profile is now '"@ + name@ + "'\n"@,
{
    assert forall|i: int|
        0 <= i < actions.len() && (#[trigger] actions[i] matches Action::StoreConfig(p, c))
            implies Some(actions[i]->StoreConfig_0@) == config_location(env, tier_of(system))
            && actions[i]->StoreConfig_1.default_profile == Some(name) by {
        if i > 0 {
            lemma_using(name, system, env, sessions, events, actions, i - 1);
            assert(kind_of(events[i - 1]) == awaits(sessions[i - 1]));
        }
    }
    assert forall|i: int|
        0 <= i < actions.len() && (#[trigger] actions[i] matches Action::Print(t)) implies actions[i]->Print_0@
            == tier_label(tier_of(system)) + " default profile is now '"@ + name@ + "'\n"@ by {
        if i > 0 {
            lemma_using(name, system, env, sessions, events, actions, i - 1);
            assert(kind_of(events[i - 1]) == awaits(sessions[i - 1]));
        }
    }
}

/// `small` occurs in `big`.
pub open spec fn is_infix(small: Seq<char>, big: Seq<char>) -> bool {
    exists|k: int|
        0 <= k && k + small.len() <= big.len() && #[trigger] big.subrange(k, k + small.len())
            == small
}

proof fn lemma_infix_extend(x: Seq<char>, a: Seq<char>, b: Seq<char>)
    requires
        is_infix(x, a),
    ensures
        is_infix(x, a + b),
        is_infix(x, b + a),
{
    let k = choose|k: int|
        0 <= k && k + x.len() <= a.len() && #[trigger] a.subrange(k, k + x.len()) == x;
    assert((a + b).subrange(k, k + x.len()) =~= x);
    assert((b + a).subrange(k + b.len(), k + b.len() + x.len()) =~= x);
}

proof fn lemma_infix_end(a: Seq<char>, b: Seq<char>)
    ensures
        is_infix(b, a + b),
{
    assert((a + b).subrange(a.len() as int, (a.len() + b.len()) as int) =~= b);
}

proof fn lemma_user_line_in_lines(names: Seq<Seq<char>>, d: Option<Seq<char>>, i: int)
    requires
        0 <= i < names.len(),
    ensures
        is_infix(entry_line(names[i], user_tags(names[i], d)), user_lines(names, d)),
    decreases names.len(),
{
    let rest = names.drop_last();
    if i == names.len() - 1 {
        lemma_infix_end(user_lines(rest, d), entry_line(names[i], user_tags(names[i], d)));
    } else {
        lemma_user_line_in_lines(rest, d, i);
        assert(rest[i] == names[i]);
        lemma_infix_extend(
            entry_line(names[i], user_tags(names[i], d)),
            user_lines(rest, d),
            entry_line(names.last(), user_tags(names.last(), d)),
        );
    }
}

proof fn lemma_system_line_in_lines(
    names: Seq<Seq<char>>,
    d: Option<Seq<char>>,
    user: Seq<Seq<char>>,
    i: int,
)
    requires
        0 <= i < names.len(),
    ensures
        is_infix(entry_line(names[i], system_tags(names[i], d, user)), system_lines(names, d, user)),
    decreases names.len(),
{
    let rest = names.drop_last();
    if i == names.len() - 1 {
        lemma_infix_end(system_lines(rest, d, user), entry_line(names[i], system_tags(names[i], d, user)));
    } else {
        lemma_system_line_in_lines(rest, d, user, i);
        assert(rest[i] == names[i]);
        lemma_infix_extend(
            entry_line(names[i], system_tags(names[i], d, user)),
            system_lines(rest, d, user),
            entry_line(names.last(), system_tags(names.last(), d, user)),
        );
    }
}

/// In the listing, every user profile, wherever it stands, has its line:
/// marked "(default)" exactly when it is the user tier's default.
pub proof fn law_listing_user_lines(
    user_default: Option<Seq<char>>,
    system_default: Option<Seq<char>>,
    user: Seq<Seq<char>>,
    system: Seq<Seq<char>>,
    i: int,
)
    requires
        0 <= i < user.len(),
    ensures
        user_default == Some(user[i]) ==> is_infix(
            "  "@ + user[i] + " (default)\n"@,
            listing_text(user_default, system_default, user, system),
        ),
        user_default != Some(user[i]) ==> is_infix(
            "  "@ + user[i] + "\n"@,
            listing_text(user_default, system_default, user, system),
        ),
{
    reveal_strlit(" (default)\n");
    reveal_strlit(" (");
    reveal_strlit(")\n");
    reveal_strlit("default");
    let n = user[i];
    lemma_user_line_in_lines(user, user_default, i);
    let line = entry_line(n, user_tags(n, user_default));
    if user_default == Some(n) {
        assert(join(seq!["default"@], ", "@) == "default"@);
        assert(line =~= "  "@ + n + " (default)\n"@);
    } else {
        assert(line =~= "  "@ + n + "\n"@);
    }
    let head = "user:\n"@;
    let tail = "system:\n"@ + (if system.len() == 0 {
        "  (none)\n"@
    } else {
        system_lines(system, system_default, user)
    });
    lemma_infix_extend(line, user_lines(user, user_default), head);
    lemma_infix_extend(line, head + user_lines(user, user_default), tail);
    assert(listing_text(user_default, system_default, user, system) =~= head + user_lines(
        user,
        user_default,
    ) + tail);
}

proof fn lemma_two_tags(n: Seq<char>)
    ensures
        entry_line(n, seq!["system default"@, "shadowed"@]) == "  "@ + n
            + " (system default, shadowed)\n"@,
{
    reveal_strlit(" (system default, shadowed)\n");
    reveal_strlit(" (");
    reveal_strlit(")\n");
    reveal_strlit(", ");
    reveal_strlit("system default");
    reveal_strlit("shadowed");
    let tags = seq!["system default"@, "shadowed"@];
    assert(tags.drop_last() =~= seq!["system default"@]);
    assert(join(tags.drop_last(), ", "@) == "system default"@);
    assert(tags.last() == "shadowed"@);
    assert(join(tags, ", "@) =~= "system default"@ + ", "@ + "shadowed"@);
    assert(entry_line(n, tags) =~= "  "@ + n + " (system default, shadowed)\n"@);
}

proof fn lemma_one_tag(n: Seq<char>, tag: Seq<char>, marked: Seq<char>)
    requires
        marked == " ("@ + tag + ")\n"@,
    ensures
        entry_line(n, seq![tag]) == "  "@ + n + marked,
{
    assert(entry_line(n, seq![tag]) =~= "  "@ + n + marked);
}

proof fn lemma_system_entry(n: Seq<char>, d: Option<Seq<char>>, user: Seq<Seq<char>>)
    ensures
        d != Some(n) && !user.contains(n) ==> entry_line(n, system_tags(n, d, user)) == "  "@ + n
            + "\n"@,
        d == Some(n) && !user.contains(n) ==> entry_line(n, system_tags(n, d, user)) == "  "@ + n
            + " (system default)\n"@,
        d != Some(n) && user.contains(n) ==> entry_line(n, system_tags(n, d, user)) == "  "@ + n
            + " (shadowed)\n"@,
        d == Some(n) && user.contains(n) ==> entry_line(n, system_tags(n, d, user)) == "  "@ + n
            + " (system default, shadowed)\n"@,
{
    let tags = system_tags(n, d, user);
    if d == Some(n) && user.contains(n) {
        assert(tags =~= seq!["system default"@, "shadowed"@]);
        lemma_two_tags(n);
    } else if d == Some(n) {
        reveal_strlit(" (system default)\n");
        reveal_strlit(" (");
        reveal_strlit(")\n");
        reveal_strlit("system default");
        assert(tags =~= seq!["system default"@]);
        assert(" (system default)\n"@ =~= " ("@ + "system default"@ + ")\n"@);
        lemma_one_tag(n, "system default"@, " (system default)\n"@);
    } else if user.contains(n) {
        reveal_strlit(" (shadowed)\n");
        reveal_strlit(" (");
        reveal_strlit(")\n");
        reveal_strlit("shadowed");
        assert(tags =~= seq!["shadowed"@]);
        assert(" (shadowed)\n"@ =~= " ("@ + "shadowed"@ + ")\n"@);
        lemma_one_tag(n, "shadowed"@, " (shadowed)\n"@);
    } else {
        assert(tags =~= Seq::<Seq<char>>::empty());
    }
}

/// In the listing, every system profile has its line, marked "(system
/// default)" exactly when it is the system tier's default and "(shadowed)"
/// exactly when a user profile has its name, both marks in that order.
pub proof fn law_listing_system_lines(
    user_default: Option<Seq<char>>,
    system_default: Option<Seq<char>>,
    user: Seq<Seq<char>>,
    system: Seq<Seq<char>>,
    i: int,
)
    requires
        0 <= i < system.len(),
    ensures
        system_default != Some(system[i]) && !user.contains(system[i]) ==> is_infix(
            "  "@ + system[i] + "\n"@,
            listing_text(user_default, system_default, user, system),
        ),
        system_default == Some(system[i]) && !user.contains(system[i]) ==> is_infix(
            "  "@ + system[i] + " (system default)\n"@,
            listing_text(user_default, system_default, user, system),
        ),
        system_default != Some(system[i]) && user.contains(system[i]) ==> is_infix(
            "  "@ + system[i] + " (shadowed)\n"@,
            listing_text(user_default, system_default, user, system),
        ),
        system_default == Some(system[i]) && user.contains(system[i]) ==> is_infix(
            "  "@ + system[i] + " (system default, shadowed)\n"@,
            listing_text(user_default, system_default, user, system),
        ),
{
    let n = system[i];
    lemma_system_line_in_lines(system, system_default, user, i);
    lemma_system_entry(n, system_default, user);
    let line = entry_line(n, system_tags(n, system_default, user));
    let head = "user:\n"@ + (if user.len() == 0 {
        "  (none)\n"@
    } else {
        user_lines(user, user_default)
    }) + "system:\n"@;
    lemma_infix_extend(line, system_lines(system, system_default, user), head);
    assert(listing_text(user_default, system_default, user, system) =~= head + system_lines(
        system,
        system_default,
        user,
    ));
}

/// `form` has no field named `key` where `value` is `None`, and exactly one,
/// with that value, where it is `Some`.
pub open spec fn field_is(form: Seq<(Seq<char>, Seq<char>)>, key: Seq<char>, value: Option<Seq<char>>) -> bool {
    match value {
        None => forall|j: int| 0 <= j < form.len() ==> (#[trigger] form[j]).0 != key,
        Some(v) => exists|k: int|
            0 <= k < form.len() && #[trigger] form[k] == (key, v) && forall|j: int|
                0 <= j < form.len() && (#[trigger] form[j]).0 == key ==> j == k,
    }
}

/// The value that the command line gives where it sets one, else the
/// profile's.
pub open spec fn chosen(cli: Option<String>, profile: Option<String>) -> Option<Seq<char>> {
    match cli {
        Some(v) => Some(v@),
        None => match profile {
            Some(v) => Some(v@),
            None => None,
        },
    }
}

/// The rendered priority that the command line gives where it sets one,
/// else the profile's.
pub open spec fn chosen_priority(cli: Option<i8>, profile: Option<i8>) -> Option<Seq<char>> {
    match cli {
        Some(v) => Some(signed_decimal(v as int)),
        None => match profile {
            Some(v) => Some(signed_decimal(v as int)),
            None => None,
        },
    }
}

proof fn lemma_field_concat(
    a: Seq<(Seq<char>, Seq<char>)>,
    b: Seq<(Seq<char>, Seq<char>)>,
    key: Seq<char>,
    va: Option<Seq<char>>,
    vb: Option<Seq<char>>,
)
    requires
        field_is(a, key, va),
        field_is(b, key, vb),
        va is None || vb is None,
    ensures
        field_is(a + b, key, if va is Some { va } else { vb }),
{
    let c = a + b;
    if va is Some {
        let k = choose|k: int|
            0 <= k < a.len() && #[trigger] a[k] == (key, va.unwrap()) && forall|j: int|
                0 <= j < a.len() && (#[trigger] a[j]).0 == key ==> j == k;
        assert(c[k] == a[k]);
        assert forall|j: int| 0 <= j < c.len() && (#[trigger] c[j]).0 == key implies j == k by {
            if j >= a.len() {
                assert(c[j] == b[j - a.len()]);
            } else {
                assert(c[j] == a[j]);
            }
        }
    } else if vb is Some {
        let k = choose|k: int|
            0 <= k < b.len() && #[trigger] b[k] == (key, vb.unwrap()) && forall|j: int|
                0 <= j < b.len() && (#[trigger] b[j]).0 == key ==> j == k;
        assert(c[k + a.len()] == b[k]);
        assert forall|j: int| 0 <= j < c.len() && (#[trigger] c[j]).0 == key implies j == k
            + a.len() by {
            if j >= a.len() {
                assert(c[j] == b[j - a.len()]);
            } else {
                assert(c[j] == a[j]);
            }
        }
    } else {
        assert forall|j: int| 0 <= j < c.len() implies (#[trigger] c[j]).0 != key by {
            if j >= a.len() {
                assert(c[j] == b[j - a.len()]);
            } else {
                assert(c[j] == a[j]);
            }
        }
    }
}

proof fn lemma_optional_field(name: Seq<char>, value: Option<String>, key: Seq<char>)
    ensures
        field_is(
            optional_field(name, value),
            key,
            if name == key {
                match value {
                    Some(v) => Some(v@),
                    None => None,
                }
            } else {
                None
            },
        ),
{
    let f = optional_field(name, value);
    if name == key && value is Some {
        assert(f[0] == (key, value.unwrap()@));
    }
}

proof fn lemma_priority_field(p: Option<i8>, key: Seq<char>)
    ensures
        field_is(
            match p {
                Some(v) => seq![("priority"@, signed_decimal(v as int))],
                None => Seq::<(Seq<char>, Seq<char>)>::empty(),
            },
            key,
            if "priority"@ == key {
                match p {
                    Some(v) => Some(signed_decimal(v as int)),
                    None => None,
                }
            } else {
                None
            },
        ),
{
    if p is Some && "priority"@ == key {
        let f = seq![("priority"@, signed_decimal(p.unwrap() as int))];
        assert(f[0] == (key, signed_decimal(p.unwrap() as int)));
    }
}

/// The optional fields' keys differ from each other and from the fixed ones.
proof fn lemma_keys_differ()
    ensures
        "title"@ != "token"@,
        "title"@ != "user"@,
        "title"@ != "message"@,
        "title"@ != "priority"@,
        "title"@ != "sound"@,
        "title"@ != "device"@,
        "title"@ != "url"@,
        "title"@ != "url_title"@,
        "sound"@ != "token"@,
        "sound"@ != "user"@,
        "sound"@ != "message"@,
        "sound"@ != "priority"@,
        "sound"@ != "device"@,
        "sound"@ != "url"@,
        "sound"@ != "url_title"@,
        "device"@ != "token"@,
        "device"@ != "user"@,
        "device"@ != "message"@,
        "device"@ != "priority"@,
        "device"@ != "url"@,
        "device"@ != "url_title"@,
        "url"@ != "token"@,
        "url"@ != "user"@,
        "url"@ != "message"@,
        "url"@ != "priority"@,
        "url"@ != "url_title"@,
        "url_title"@ != "token"@,
        "url_title"@ != "user"@,
        "url_title"@ != "message"@,
        "url_title"@ != "priority"@,
        "priority"@ != "token"@,
        "priority"@ != "user"@,
        "priority"@ != "message"@,
{
    reveal_strlit("title");
    reveal_strlit("token");
    reveal_strlit("user");
    reveal_strlit("message");
    reveal_strlit("priority");
    reveal_strlit("sound");
    reveal_strlit("device");
    reveal_strlit("url");
    reveal_strlit("url_title");
    assert("title"@[1] != "token"@[1]);
    assert("title"@[0] != "user"@[0]);
    assert("title"@[0] != "message"@[0]);
    assert("title"@[0] != "priority"@[0]);
    assert("title"@[0] != "sound"@[0]);
    assert("title"@[0] != "device"@[0]);
    assert("title"@[0] != "url"@[0]);
    assert("title"@[0] != "url_title"@[0]);
    assert("sound"@[0] != "token"@[0]);
    assert("sound"@[0] != "user"@[0]);
    assert("sound"@[0] != "message"@[0]);
    assert("sound"@[0] != "priority"@[0]);
    assert("sound"@[0] != "device"@[0]);
    assert("sound"@[0] != "url"@[0]);
    assert("sound"@[0] != "url_title"@[0]);
    assert("device"@[0] != "token"@[0]);
    assert("device"@[0] != "user"@[0]);
    assert("device"@[0] != "message"@[0]);
    assert("device"@[0] != "priority"@[0]);
    assert("device"@[0] != "url"@[0]);
    assert("device"@[0] != "url_title"@[0]);
    assert("url"@[0] != "token"@[0]);
    assert("url"@[1] != "user"@[1]);
    assert("url"@[0] != "message"@[0]);
    assert("url"@[0] != "priority"@[0]);
    assert("url"@.len() != "url_title"@.len());
    assert("url_title"@[0] != "token"@[0]);
    assert("url_title"@[1] != "user"@[1]);
    assert("url_title"@[0] != "message"@[0]);
    assert("url_title"@[0] != "priority"@[0]);
    assert("priority"@[0] != "token"@[0]);
    assert("priority"@[0] != "user"@[0]);
    assert("priority"@[0] != "message"@[0]);
}

/// The field `key` (one of the optional ones) of the form for `msg` holds
/// the message's value for it.
proof fn lemma_form_field(cfg: PushoverConfig, msg: Message, key: Seq<char>, value: Option<Seq<char>>)
    requires
        key == "title"@ || key == "priority"@ || key == "sound"@ || key == "device"@ || key
            == "url"@ || key == "url_title"@,
        key == "title"@ ==> value == chosen(msg.title, None),
        key == "priority"@ ==> value == chosen_priority(msg.priority, None),
        key == "sound"@ ==> value == chosen(msg.sound, None),
        key == "device"@ ==> value == chosen(msg.device, None),
        key == "url"@ ==> value == chosen(msg.url, None),
        key == "url_title"@ ==> value == chosen(msg.url_title, None),
    ensures
        field_is(pushover_form(cfg, msg), key, value),
{
    lemma_keys_differ();
    let base = seq![("token"@, cfg.token@), ("user"@, cfg.user_key@), ("message"@, msg.body@)];
    assert(field_is(base, key, None)) by {
        assert forall|j: int| 0 <= j < base.len() implies (#[trigger] base[j]).0 != key by {
        }
    }
    let p1 = optional_field("title"@, msg.title);
    let p2 = match msg.priority {
        Some(p) => seq![("priority"@, signed_decimal(p as int))],
        None => Seq::<(Seq<char>, Seq<char>)>::empty(),
    };
    let p3 = optional_field("sound"@, msg.sound);
    let p4 = optional_field("device"@, msg.device);
    let p5 = optional_field("url"@, msg.url);
    let p6 = optional_field("url_title"@, msg.url_title);
    lemma_optional_field("title"@, msg.title, key);
    lemma_priority_field(msg.priority, key);
    lemma_optional_field("sound"@, msg.sound, key);
    lemma_optional_field("device"@, msg.device, key);
    lemma_optional_field("url"@, msg.url, key);
    lemma_optional_field("url_title"@, msg.url_title, key);
    let v1: Option<Seq<char>> = if key == "title"@ { value } else { None };
    let v2: Option<Seq<char>> = if key == "priority"@ { value } else { None };
    let v3: Option<Seq<char>> = if key == "sound"@ { value } else { None };
    let v4: Option<Seq<char>> = if key == "device"@ { value } else { None };
    let v5: Option<Seq<char>> = if key == "url"@ { value } else { None };
    let v6: Option<Seq<char>> = if key == "url_title"@ { value } else { None };
    assert(field_is(p1, key, v1));
    assert(field_is(p2, key, v2));
    assert(field_is(p3, key, v3));
    assert(field_is(p4, key, v4));
    assert(field_is(p5, key, v5));
    assert(field_is(p6, key, v6));
    lemma_field_concat(base, p1, key, None, v1);
    lemma_field_concat(base + p1, p2, key, v1, v2);
    let w2 = if v1 is Some { v1 } else { v2 };
    lemma_field_concat(base + p1 + p2, p3, key, w2, v3);
    let w3 = if w2 is Some { w2 } else { v3 };
    lemma_field_concat(base + p1 + p2 + p3, p4, key, w3, v4);
    let w4 = if w3 is Some { w3 } else { v4 };
    lemma_field_concat(base + p1 + p2 + p3 + p4, p5, key, w4, v5);
    let w5 = if w4 is Some { w4 } else { v5 };
    lemma_field_concat(base + p1 + p2 + p3 + p4 + p5, p6, key, w5, v6);
    assert(pushover_form(cfg, msg) == base + p1 + p2 + p3 + p4 + p5 + p6);
}

/// Whichever way `send` finds its profile, the form it posts carries the
/// profile's credentials and the command line's body, and each optional
/// attribute (title, priority, sound, device, url, url title) exactly once
/// with the command line's value where the command line sets it, else
/// exactly once with the profile's default, and not at all where neither
/// sets it.
pub proof fn law_send_message_follows_command_line(
    args: SendArgs,
    env: Environment,
    sessions: Seq<SendSession>,
    events: Seq<Event>,
    actions: Seq<Action>,
    i: int,
)
    requires
        send_run(args, env, sessions, events, actions),
        1 <= i < actions.len(),
        actions[i] is Deliver,
    ensures
        events[i - 1] matches Event::ProfileLoaded(p) && actions[i] matches Action::Deliver(d) && {
            let f = form_view(d.form@);
            &&& p.service matches ServiceConfig::Pushover(account) && f.len() >= 3 && f[0] == (
            "token"@, account.token@) && f[1] == ("user"@, account.user_key@)
            &&& f[2] == ("message"@, args.message@)
            &&& field_is(f, "title"@, chosen(args.title, p.defaults.title))
            &&& field_is(f, "priority"@, chosen_priority(args.priority, p.defaults.priority))
            &&& field_is(f, "sound"@, chosen(args.sound, p.defaults.sound))
            &&& field_is(f, "device"@, chosen(args.device, p.defaults.device))
            &&& field_is(f, "url"@, chosen(args.url, p.defaults.url))
            &&& field_is(f, "url_title"@, chosen(args.url_title, p.defaults.url_title))
        },
{
    law_send_delivers_composed_message(args, env, sessions, events, actions);
    assert(actions[i] is Deliver);
    let p = events[i - 1]->ProfileLoaded_0;
    let d = actions[i]->Deliver_0;
    let msg = composed_message(p, args.message, overrides_of(args));
    let cfg = account_of(p);
    assert(form_view(d.form@) == pushover_form(cfg, msg));
    lemma_keys_differ();
    lemma_form_field(cfg, msg, "title"@, chosen(args.title, p.defaults.title));
    lemma_form_field(cfg, msg, "priority"@, chosen_priority(args.priority, p.defaults.priority));
    lemma_form_field(cfg, msg, "sound"@, chosen(args.sound, p.defaults.sound));
    lemma_form_field(cfg, msg, "device"@, chosen(args.device, p.defaults.device));
    lemma_form_field(cfg, msg, "url"@, chosen(args.url, p.defaults.url));
    lemma_form_field(cfg, msg, "url_title"@, chosen(args.url_title, p.defaults.url_title));
    let f = pushover_form(cfg, msg);
    assert(f[0] == ("token"@, cfg.token@));
    assert(f[1] == ("user"@, cfg.user_key@));
    assert(f[2] == ("message"@, msg.body@));
}

} // verus!
