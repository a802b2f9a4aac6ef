//! Profiles: a named service account with default message attributes.
use vstd::prelude::*;

use crate::error::Error;
use crate::paths::{profile_file, Environment, FsPath, Tier};
use crate::paths::{profile_file_name, tier_root, under_root, valid_profile_name};
use crate::service::pushover::PushoverConfig;
use crate::service::Message;
use crate::text::{sort_strings, sorted, views};

verus! {

/// The service a profile sends through, with its credentials.
#[derive(Debug)]
pub enum ServiceConfig {
    Pushover(PushoverConfig),
}

/// Message attributes; in a profile they are its defaults, on the command
/// line they override those defaults.
#[derive(Debug)]
pub struct MessageDefaults {
    pub title: Option<String>,
    pub priority: Option<i8>,
    pub sound: Option<String>,
    pub device: Option<String>,
    pub url: Option<String>,
    pub url_title: Option<String>,
}

impl Default for MessageDefaults {
    fn default() -> (d: Self)
        ensures
            d.title is None,
            d.priority is None,
            d.sound is None,
            d.device is None,
            d.url is None,
            d.url_title is None,
    {
        MessageDefaults {
            title: None,
            priority: None,
            sound: None,
            device: None,
            url: None,
            url_title: None,
        }
    }
}

/// Everything needed to send through one account of one service.
#[derive(Debug)]
pub struct Profile {
    pub name: String,
    pub service: ServiceConfig,
    pub defaults: MessageDefaults,
}

/// `first` where it is set, else `second`.
pub open spec fn first_set<T>(first: Option<T>, second: Option<T>) -> Option<T> {
    match first {
        Some(v) => Some(v),
        None => second,
    }
}

/// The name of a profile stored in a directory entry of file name `file`:
/// the file name without its `.ron` extension, where it has that extension
/// and something before it.
pub open spec fn ron_stem(file: Seq<char>) -> Option<Seq<char>> {
    if file.len() > 4 && file.skip(file.len() - 4) == ".ron"@ {
        Some(file.take(file.len() - 4))
    } else {
        None
    }
}

/// The profile names that a directory listing holds, in listing order;
/// entries whose name is not valid Unicode (`None`) hold none.
pub open spec fn listed_names(entries: Seq<Option<String>>) -> Seq<Seq<char>>
    decreases entries.len(),
{
    if entries.len() == 0 {
        Seq::empty()
    } else {
        let rest = listed_names(entries.drop_last());
        match entries.last() {
            Some(f) => match ron_stem(f@) {
                Some(stem) => rest.push(stem),
                None => rest,
            },
            None => rest,
        }
    }
}

fn clone_text(s: &Option<String>) -> (c: Option<String>)
    ensures
        c == *s,
{
    match s {
        Some(v) => Some(v.clone()),
        None => None,
    }
}

/// The profile name held by a file of name `file`, if any.
pub fn ron_file_stem(file: &str) -> (r: Option<String>)
    ensures
        r is Some == ron_stem(file@) is Some,
        r is Some ==> r.unwrap()@ == ron_stem(file@).unwrap(),
{
    proof {
        reveal_strlit(".ron");
    }
    let len: usize = file.unicode_len();
    if len <= 4 {
        return None;
    }
    let tail = file.substring_char(len - 4, len);
    let matches: bool = tail.get_char(0) == '.' && tail.get_char(1) == 'r' && tail.get_char(2) == 'o'
        && tail.get_char(3) == 'n';
    assert(file@.skip(len - 4) =~= tail@);
    if matches {
        assert(tail@ =~= ".ron"@);
        let stem = file.substring_char(0, len - 4);
        assert(stem@ =~= file@.take(len - 4));
        Some(String::from_str(stem))
    } else {
        None
    }
}

impl Profile {
    /// The file that holds profile `name` in `tier`.
    pub fn path_for(tier: Tier, name: &str, env: &Environment) -> (r: Result<FsPath, Error>)
        ensures
            !valid_profile_name(name@) ==> (r matches Err(Error::InvalidProfileName(n)) && n@
                == name@),
            valid_profile_name(name@) ==> under_root(
                *env,
                tier,
                seq!["profiles"@, profile_file_name(name@)],
                r,
            ),
    {
        profile_file(tier, name, env)
    }

    /// The service that the profile sends through.
    pub fn build_service(&self) -> (s: PushoverConfig)
        ensures
            self.service == ServiceConfig::Pushover(s),
    {
        match &self.service {
            ServiceConfig::Pushover(cfg) => PushoverConfig {
                token: cfg.token.clone(),
                user_key: cfg.user_key.clone(),
            },
        }
    }

    /// The message with `body` whose attributes are those of `overrides`
    /// where set, and the profile's defaults otherwise.
    pub fn message_with_overrides(&self, body: String, overrides: MessageDefaults) -> (m: Message)
        ensures
            m.body == body,
            m.title == first_set(overrides.title, self.defaults.title),
            m.priority == first_set(overrides.priority, self.defaults.priority),
            m.sound == first_set(overrides.sound, self.defaults.sound),
            m.device == first_set(overrides.device, self.defaults.device),
            m.url == first_set(overrides.url, self.defaults.url),
            m.url_title == first_set(overrides.url_title, self.defaults.url_title),
    {
        Message {
            body,
            title: if overrides.title.is_some() { overrides.title } else { clone_text(&self.defaults.title) },
            priority: if overrides.priority.is_some() { overrides.priority } else { self.defaults.priority },
            sound: if overrides.sound.is_some() { overrides.sound } else { clone_text(&self.defaults.sound) },
            device: if overrides.device.is_some() { overrides.device } else { clone_text(&self.defaults.device) },
            url: if overrides.url.is_some() { overrides.url } else { clone_text(&self.defaults.url) },
            url_title: if overrides.url_title.is_some() { overrides.url_title } else { clone_text(&self.defaults.url_title) },
        }
    }

    /// The names of the profiles in a tier's profiles directory, given the
    /// file names of its entries (`None` for one that is not valid Unicode):
    /// the `.ron` files, named without the extension, in ascending order.
    pub fn names_in_listing(entries: &Vec<Option<String>>) -> (names: Vec<String>)
        ensures
            sorted(views(names@)),
            views(names@).to_multiset() == listed_names(entries@).to_multiset(),
    {
        let mut found: Vec<String> = Vec::new();
        let mut i: usize = 0;
        while i < entries.len()
            invariant
                i <= entries.len(),
                views(found@) == listed_names(entries@.take(i as int)),
            decreases entries.len() - i,
        {
            let ghost before = found@;
            assert(entries@.take(i + 1).drop_last() =~= entries@.take(i as int));
            match &entries[i] {
                Some(f) => match ron_file_stem(f.as_str()) {
                    Some(stem) => {
                        found.push(stem);
                        assert(views(found@) =~= views(before).push(found@.last()@));
                    },
                    None => {},
                },
                None => {},
            }
            i = i + 1;
        }
        assert(entries@.take(entries.len() as int) =~= entries@);
        sort_strings(found)
    }
}

} // verus!
