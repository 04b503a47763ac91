//! Connected task-tracker providers and the client chosen for each.
use vstd::prelude::*;

use crate::kaneo::client::KaneoClient;
use crate::providers::model::IntegrationType;

verus! {

/// A task-tracker connection configured by a team.
#[derive(Clone, Debug)]
pub struct IntegrationProvider {
    pub id: u128,
    pub team_id: u128,
    pub name: String,
    pub provider_type: IntegrationType,
    pub instance_url: String,
    pub api_key: String,
}

/// The client that talks to one provider.
#[derive(Clone, Debug)]
pub enum IntegrationClient {
    Kaneo(KaneoClient),
}

impl IntegrationClient {
    /// The client for a configured provider: its kind, instance and key.
    pub fn from_provider(provider: &IntegrationProvider) -> (r: Self)
        ensures
            match provider.provider_type {
                IntegrationType::Kaneo => r matches IntegrationClient::Kaneo(c) && c.instance
                    == provider.instance_url && c.api_key == provider.api_key,
            },
    {
        match provider.provider_type {
            IntegrationType::Kaneo => Self::new_kaneo(provider.instance_url.clone(), provider.api_key.clone()),
        }
    }

    /// A Kaneo client for `instance` using `api_key`.
    pub fn new_kaneo(instance: String, api_key: String) -> (r: Self)
        ensures
            r matches IntegrationClient::Kaneo(c) && c.instance == instance && c.api_key == api_key,
    {
        IntegrationClient::Kaneo(KaneoClient::new(instance, api_key))
    }

    /// The instance and key the client uses.
    pub fn instance_and_key(&self) -> (r: (&str, &str))
        ensures
            match *self {
                IntegrationClient::Kaneo(c) => r.0@ == c.instance@ && r.1@ == c.api_key@,
            },
    {
        match self {
            IntegrationClient::Kaneo(client) => (client.instance.as_str(), client.api_key.as_str()),
        }
    }
}

} // verus!
