//! Notifications and the services that deliver them.
use vstd::prelude::*;

use crate::error::Error;

pub mod pushover;

verus! {

/// A notification to deliver.
#[derive(Debug)]
pub struct Message {
    pub body: String,
    pub title: Option<String>,
    pub priority: Option<i8>,
    pub sound: Option<String>,
    pub device: Option<String>,
    pub url: Option<String>,
    pub url_title: Option<String>,
}

/// An HTTP request that hands a notification to a service: a form posted
/// to an endpoint.
#[derive(Debug)]
pub struct Delivery {
    pub endpoint: String,
    pub form: Vec<(String, String)>,
}

/// What a service answered to a delivery: the HTTP status, the body, and
/// the `errors` list of the body where it is a JSON object that has one.
#[derive(Debug)]
pub struct Reply {
    pub status: u16,
    pub body: String,
    pub reported_errors: Option<Vec<String>>,
}

/// A notification service: it says how to deliver a message and what a
/// reply to that delivery means.
pub trait Service {
    /// The request that delivers `msg`.
    fn delivery(&self, msg: &Message) -> Delivery;

    /// Whether the reply reports success, or the error it reports.
    fn outcome(&self, reply: &Reply) -> Result<(), Error>;
}

/// The views of the pairs of a form.
pub open spec fn form_view(form: Seq<(String, String)>) -> Seq<(Seq<char>, Seq<char>)> {
    form.map_values(|p: (String, String)| (p.0@, p.1@))
}

} // verus!
