//! The Pushover service.
use vstd::prelude::*;

use crate::error::Error;
use crate::service::{form_view, Delivery, Message, Reply, Service};
use crate::text::{decimal, join, signed_decimal, views};
use crate::text::{decimal_string, join_strings, signed_decimal_string};

verus! {

/// Where Pushover accepts messages.
pub open spec fn endpoint() -> Seq<char> {
    "https://api.pushover.net/1/messages.json"@
}

/// The credentials of a Pushover application and its recipient.
#[derive(Debug)]
pub struct PushoverConfig {
    pub token: String,
    pub user_key: String,
}

/// A form field for an optional value: present only where the value is.
pub open spec fn optional_field(key: Seq<char>, value: Option<String>) -> Seq<(Seq<char>, Seq<char>)> {
    match value {
        Some(v) => seq![(key, v@)],
        None => Seq::empty(),
    }
}

/// The form posted to Pushover for `msg`: the credentials and the body,
/// then each optional attribute that is set, in a fixed order.
pub open spec fn pushover_form(cfg: PushoverConfig, msg: Message) -> Seq<(Seq<char>, Seq<char>)> {
    seq![("token"@, cfg.token@), ("user"@, cfg.user_key@), ("message"@, msg.body@)]
        + optional_field("title"@, msg.title)
        + match msg.priority {
            Some(p) => seq![("priority"@, signed_decimal(p as int))],
            None => Seq::empty(),
        }
        + optional_field("sound"@, msg.sound)
        + optional_field("device"@, msg.device)
        + optional_field("url"@, msg.url)
        + optional_field("url_title"@, msg.url_title)
}

/// A status in the 2xx range.
pub open spec fn success_status(status: u16) -> bool {
    200 <= status < 300
}

/// The text of the error for a failed reply: the errors that Pushover
/// listed, joined with "; ", or else the status and the raw body.
pub open spec fn failure_text(reply: Reply) -> Seq<char> {
    match reply.reported_errors {
        Some(errors) if errors.len() > 0 => join(views(errors@), "; "@),
        _ => "pushover returned HTTP "@ + decimal(reply.status as nat) + ": "@ + reply.body@,
    }
}

fn push_optional(form: &mut Vec<(String, String)>, key: &str, value: &Option<String>)
    ensures
        form_view(final(form)@) == form_view(old(form)@) + optional_field(key@, *value),
{
    let ghost before = form@;
    match value {
        Some(v) => {
            form.push((String::from_str(key), v.clone()));
            assert(form_view(form@) =~= form_view(before) + optional_field(key@, *value));
        },
        None => {
            assert(form_view(form@) =~= form_view(before) + optional_field(key@, *value));
        },
    }
}

impl PushoverConfig {
    /// The form posted to Pushover for `msg`.
    pub fn form(&self, msg: &Message) -> (form: Vec<(String, String)>)
        ensures
            form_view(form@) == pushover_form(*self, *msg),
    {
        let mut form: Vec<(String, String)> = Vec::new();
        form.push((String::from_str("token"), self.token.clone()));
        form.push((String::from_str("user"), self.user_key.clone()));
        form.push((String::from_str("message"), msg.body.clone()));
        assert(form_view(form@) =~= seq![
            ("token"@, self.token@),
            ("user"@, self.user_key@),
            ("message"@, msg.body@),
        ]);
        push_optional(&mut form, "title", &msg.title);
        let ghost before = form@;
        match msg.priority {
            Some(p) => {
                form.push((String::from_str("priority"), signed_decimal_string(p)));
            },
            None => {},
        }
        assert(form_view(form@) =~= form_view(before) + match msg.priority {
            Some(p) => seq![("priority"@, signed_decimal(p as int))],
            None => Seq::<(Seq<char>, Seq<char>)>::empty(),
        });
        push_optional(&mut form, "sound", &msg.sound);
        push_optional(&mut form, "device", &msg.device);
        push_optional(&mut form, "url", &msg.url);
        push_optional(&mut form, "url_title", &msg.url_title);
        form
    }

    /// The error text for a reply whose status is not a success.
    pub fn failure_message(reply: &Reply) -> (s: String)
        ensures
            s@ == failure_text(*reply),
    {
        match &reply.reported_errors {
            Some(errors) => {
                if errors.len() > 0 {
                    return join_strings(errors, "; ");
                }
            },
            None => {},
        }
        String::from_str("pushover returned HTTP ").concat(
            decimal_string(reply.status as u32).as_str(),
        ).concat(": ").concat(reply.body.as_str())
    }
}

impl Service for PushoverConfig {
    /// A form post to the Pushover endpoint.
    fn delivery(&self, msg: &Message) -> (d: Delivery)
        ensures
            d.endpoint@ == endpoint(),
            form_view(d.form@) == pushover_form(*self, *msg),
    {
        Delivery { endpoint: String::from_str("https://api.pushover.net/1/messages.json"), form: self.form(msg) }
    }

    /// Success for a 2xx status; otherwise a service error whose text is
    /// the reported errors, or the status and body.
    fn outcome(&self, reply: &Reply) -> (r: Result<(), Error>)
        ensures
            success_status(reply.status) ==> r is Ok,
            !success_status(reply.status) ==> (r matches Err(Error::Service(m)) && m@ == failure_text(*reply)),
    {
        if 200 <= reply.status && reply.status < 300 {
            Ok(())
        } else {
            Err(Error::Service(Self::failure_message(reply)))
        }
    }
}

} // verus!
