//! The `send` command.
use vstd::prelude::*;

use crate::cli::SendArgs;
use crate::commands::{answer_to, kind_of, loaded_default, search_begun, Action, Awaiting, Event};
use crate::config::Config;
use crate::error::Error;
use crate::paths::{config_file, find_profile_file, config_location, location_error, valid_profile_name};
use crate::paths::{system_fallback, Environment, ProfileSearch, SearchStep, Tier};
use crate::profile::{first_set, MessageDefaults, Profile, ServiceConfig};
use crate::service::pushover::{endpoint, failure_text, pushover_form, success_status, PushoverConfig};
use crate::service::{form_view, Message, Service};

verus! {

/// The message attributes that the command line sets.
pub open spec fn overrides_of(args: SendArgs) -> MessageDefaults {
    MessageDefaults {
        title: args.title,
        priority: args.priority,
        sound: args.sound,
        device: args.device,
        url: args.url,
        url_title: args.url_title,
    }
}

/// The message that profile `p` sends with `body`: each attribute from
/// `overrides` where set, else from the profile's defaults.
pub open spec fn composed_message(p: Profile, body: String, overrides: MessageDefaults) -> Message {
    Message {
        body,
        title: first_set(overrides.title, p.defaults.title),
        priority: first_set(overrides.priority, p.defaults.priority),
        sound: first_set(overrides.sound, p.defaults.sound),
        device: first_set(overrides.device, p.defaults.device),
        url: first_set(overrides.url, p.defaults.url),
        url_title: first_set(overrides.url_title, p.defaults.url_title),
    }
}

/// The Pushover account of a profile.
pub open spec fn account_of(p: Profile) -> PushoverConfig {
    match p.service {
        ServiceConfig::Pushover(cfg) => cfg,
    }
}

/// The steps of `send`.
#[derive(Debug)]
pub enum SendSession {
    /// The command is over.
    Finished,
    /// Waiting for the user tier's settings, to find the default profile.
    ResolvingUser { body: String, overrides: MessageDefaults, env: Environment },
    /// Waiting for the system tier's settings, the user tier setting no default.
    ResolvingSystem { body: String, overrides: MessageDefaults, env: Environment, user: Config },
    /// Looking for the profile to send through, tier by tier.
    Searching { search: ProfileSearch, body: String, overrides: MessageDefaults },
    /// Waiting for the profile to be read.
    Loading { body: String, overrides: MessageDefaults },
    /// Waiting for the service's reply.
    Delivering { service: PushoverConfig },
}

impl SendSession {
    /// The search that a session holds is well formed.
    pub open spec fn wf(self) -> bool {
        match self {
            SendSession::Searching { search, .. } => search.wf(),
            _ => true,
        }
    }
}

/// The kind of event that a session waits for.
pub open spec fn send_awaits(s: SendSession) -> Awaiting {
    match s {
        SendSession::Finished => Awaiting::Nothing,
        SendSession::ResolvingUser { .. } => Awaiting::Config,
        SendSession::ResolvingSystem { .. } => Awaiting::Config,
        SendSession::Searching { .. } => Awaiting::Existence,
        SendSession::Loading { .. } => Awaiting::Profile,
        SendSession::Delivering { .. } => Awaiting::Reply,
    }
}

/// A bound on the number of steps left before `send` ends; each step
/// lowers it, so the command ends.
pub open spec fn send_steps_left(s: SendSession) -> nat {
    match s {
        SendSession::Finished => 0,
        SendSession::ResolvingUser { .. } => 6,
        SendSession::ResolvingSystem { .. } => 5,
        SendSession::Searching { search, .. } => if search.tier == Tier::User {
            4
        } else {
            3
        },
        SendSession::Loading { .. } => 2,
        SendSession::Delivering { .. } => 1,
    }
}

/// The command ends with error `e`.
pub open spec fn send_fails_with(next: SendSession, act: Action, e: Error) -> bool {
    next is Finished && act == Action::Finish(Err(e))
}

/// The session looks for profile `name`, or ends where the name is invalid.
pub open spec fn looks_for(
    name: String,
    env: Environment,
    body: String,
    overrides: MessageDefaults,
    next: SendSession,
    act: Action,
) -> bool {
    if valid_profile_name(name@) {
        &&& next matches SendSession::Searching { search, body: b, overrides: o }
        &&& b == body
        &&& o == overrides
        &&& search_begun(search, act, name, env)
    } else {
        &&& next is Finished
        &&& act matches Action::Finish(Err(e))
        &&& location_error(env, Tier::User, name@, e)
    }
}

/// How `send` begins in environment `env`: with the named profile, or
/// else by reading the user tier's settings for its default profile, or the
/// system tier's where the user tier cannot be located.
pub open spec fn send_start(args: SendArgs, env: Environment, next: SendSession, act: Action) -> bool {
    match args.profile {
        Some(name) => looks_for(name, env, args.message, overrides_of(args), next, act),
        None => if config_location(env, Tier::User) is Some {
            &&& act matches Action::LoadConfig(q)
            &&& Some(q@) == config_location(env, Tier::User)
            &&& next == SendSession::ResolvingUser { body: args.message, overrides: overrides_of(args), env }
        } else {
            &&& act matches Action::LoadConfig(q)
            &&& Some(q@) == config_location(env, Tier::System)
            &&& next matches SendSession::ResolvingSystem { body: b, overrides: o, env: v, user }
            &&& b == args.message
            &&& o == overrides_of(args)
            &&& v == env
            &&& user.default_profile is None
        },
    }
}

/// One step of `send`: from session `s` and the event `e` that answers its
/// last action, to session `next` and action `act`.
pub open spec fn send_step(s: SendSession, e: Event, next: SendSession, act: Action) -> bool {
    match s {
        SendSession::Finished => true,
        SendSession::ResolvingUser { body, overrides, env } => match e {
            Event::ConfigLoaded(c) => match loaded_default(c) {
                Some(name) => looks_for(name, env, body, overrides, next, act),
                None => {
                    &&& act matches Action::LoadConfig(q)
                    &&& Some(q@) == config_location(env, Tier::System)
                    &&& next matches SendSession::ResolvingSystem { body: b, overrides: o, env: v, user }
                    &&& b == body
                    &&& o == overrides
                    &&& v == env
                    &&& user.default_profile is None
                },
            },
            _ => true,
        },
        SendSession::ResolvingSystem { body, overrides, env, user } => match e {
            Event::ConfigLoaded(c) => match first_set(user.default_profile, loaded_default(c)) {
                Some(name) => looks_for(name, env, body, overrides, next, act),
                None => send_fails_with(next, act, Error::NoDefaultProfile),
            },
            _ => true,
        },
        SendSession::Searching { search, body, overrides } => match e {
            Event::Exists(true) => {
                &&& act == Action::LoadProfile(search.path)
                &&& next == SendSession::Loading { body, overrides }
            },
            Event::Exists(false) => if search.tier == Tier::User {
                &&& act matches Action::Probe(q)
                &&& next matches SendSession::Searching { search: t, body: b, overrides: o }
                &&& system_fallback(search, t)
                &&& q@ == t.path@
                &&& b == body
                &&& o == overrides
            } else {
                send_fails_with(next, act, Error::ProfileNotFound(search.name))
            },
            _ => true,
        },
        SendSession::Loading { body, overrides } => match e {
            Event::ProfileLoaded(p) => {
                &&& act matches Action::Deliver(d)
                &&& d.endpoint@ == endpoint()
                &&& form_view(d.form@) == pushover_form(account_of(p), composed_message(p, body, overrides))
                &&& next == SendSession::Delivering { service: account_of(p) }
            },
            _ => true,
        },
        SendSession::Delivering { service } => match e {
            Event::Replied(reply) => {
                &&& next is Finished
                &&& act matches Action::Finish(r)
                &&& success_status(reply.status) ==> r is Ok
                &&& !success_status(reply.status) ==> (r matches Err(Error::Service(m)) && m@
                    == failure_text(reply))
            },
            _ => true,
        },
    }
}

fn begin_search(name: String, env: Environment, body: String, overrides: MessageDefaults) -> (res: (SendSession, Action))
    ensures
        looks_for(name, env, body, overrides, res.0, res.1),
        send_awaits(res.0) == answer_to(res.1),
        res.0.wf(),
{
    match find_profile_file(name, env) {
        Ok((search, probe)) => (SendSession::Searching { search, body, overrides }, Action::Probe(probe)),
        Err(e) => (SendSession::Finished, Action::Finish(Err(e))),
    }
}

/// Begins `send` in environment `env`.
pub fn run(args: SendArgs, env: Environment) -> (res: (SendSession, Action))
    ensures
        send_start(args, env, res.0, res.1),
        send_awaits(res.0) == answer_to(res.1),
        res.0.wf(),
{
    let SendArgs { profile, title, priority, sound, device, url, url_title, message } = args;
    let overrides = MessageDefaults { title, priority, sound, device, url, url_title };
    match profile {
        Some(name) => begin_search(name, env, message, overrides),
        None => match config_file(Tier::User, &env) {
            Ok(p) => (SendSession::ResolvingUser { body: message, overrides, env }, Action::LoadConfig(p)),
            Err(_) => match config_file(Tier::System, &env) {
                Ok(p) => (
                    SendSession::ResolvingSystem { body: message, overrides, env, user: Config { default_profile: None } },
                    Action::LoadConfig(p),
                ),
                Err(e) => (SendSession::Finished, Action::Finish(Err(e))),
            },
        },
    }
}

impl SendSession {
    /// The kind of event that this session waits for.
    pub fn awaiting(&self) -> (k: Awaiting)
        ensures
            k == send_awaits(*self),
    {
        match self {
            SendSession::Finished => Awaiting::Nothing,
            SendSession::ResolvingUser { .. } => Awaiting::Config,
            SendSession::ResolvingSystem { .. } => Awaiting::Config,
            SendSession::Searching { .. } => Awaiting::Existence,
            SendSession::Loading { .. } => Awaiting::Profile,
            SendSession::Delivering { .. } => Awaiting::Reply,
        }
    }

    /// Takes the event that answers the session's last action and decides
    /// what comes next.
    pub fn resume(self, event: Event) -> (res: (SendSession, Action))
        requires
            self.wf(),
            kind_of(event) == send_awaits(self),
        ensures
            send_step(self, event, res.0, res.1),
            send_awaits(res.0) == answer_to(res.1),
            res.0.wf(),
            send_steps_left(res.0) < send_steps_left(self),
    {
        match self {
            SendSession::Finished => (SendSession::Finished, Action::Finish(Ok(()))),
            SendSession::ResolvingUser { body, overrides, env } => {
                let loaded = match event {
                    Event::ConfigLoaded(c) => c,
                    _ => None,
                };
                let user = match loaded {
                    Some(cfg) => cfg,
                    None => Config::default(),
                };
                match user.default_profile {
                    Some(name) => begin_search(name, env, body, overrides),
                    None => match config_file(Tier::System, &env) {
                        Ok(p) => (
                            SendSession::ResolvingSystem { body, overrides, env, user: Config { default_profile: None } },
                            Action::LoadConfig(p),
                        ),
                        Err(e) => (SendSession::Finished, Action::Finish(Err(e))),
                    },
                }
            },
            SendSession::ResolvingSystem { body, overrides, env, user } => {
                let loaded = match event {
                    Event::ConfigLoaded(c) => c,
                    _ => None,
                };
                let system = match loaded {
                    Some(cfg) => cfg,
                    None => Config::default(),
                };
                match Config::resolve_default_profile(user, system) {
                    Some(name) => begin_search(name, env, body, overrides),
                    None => (SendSession::Finished, Action::Finish(Err(Error::NoDefaultProfile))),
                }
            },
            SendSession::Searching { search, body, overrides } => {
                let exists: bool = match event {
                    Event::Exists(b) => b,
                    _ => false,
                };
                match search.resume(exists) {
                    SearchStep::Found(s) => (SendSession::Loading { body, overrides }, Action::LoadProfile(s.path)),
                    SearchStep::Probe(s, p) => (SendSession::Searching { search: s, body, overrides }, Action::Probe(p)),
                    SearchStep::Missing(s) => (
                        SendSession::Finished,
                        Action::Finish(Err(Error::ProfileNotFound(s.name))),
                    ),
                }
            },
            SendSession::Loading { body, overrides } => {
                match event {
                    Event::ProfileLoaded(profile) => {
                        let message = profile.message_with_overrides(body, overrides);
                        let service = profile.build_service();
                        let delivery = service.delivery(&message);
                        (SendSession::Delivering { service }, Action::Deliver(delivery))
                    },
                    _ => (SendSession::Finished, Action::Finish(Ok(()))),
                }
            },
            SendSession::Delivering { service } => {
                match event {
                    Event::Replied(reply) => (SendSession::Finished, Action::Finish(service.outcome(&reply))),
                    _ => (SendSession::Finished, Action::Finish(Ok(()))),
                }
            },
        }
    }
}

} // verus!
