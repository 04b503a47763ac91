//! Validation of team names and settings.
use vstd::prelude::*;

use crate::teams::access::invalid_operation;
use crate::teams::errors::TeamsError;
use crate::teams::model::{AgentBackend, Team, UpdateTeamRequest};
use crate::text::{clone_opt, owned, push_str, str_eq, string_of, trim_str, trim_ws};

verus! {

/// A team name, trimmed; refused when nothing but white space is left.
pub fn validate_team_name(name: &str) -> (r: Result<&str, TeamsError>)
    ensures
        trim_ws(name@).len() == 0 ==> invalid_operation(r, "Team name is required"@),
        trim_ws(name@).len() > 0 ==> (r matches Ok(t) && t@ == trim_ws(name@)),
{
    let trimmed = trim_str(name);
    if trimmed.is_empty() {
        return Err(TeamsError::InvalidOperation(owned("Team name is required")));
    }
    Ok(trimmed)
}

/// A model is configured by a provider and a model id together: either both
/// are set or neither.
pub fn validate_pair(provider_key: Option<&str>, model_id: Option<&str>, label: &str) -> (r: Result<(), TeamsError>)
    ensures
        provider_key.is_some() == model_id.is_some() ==> r is Ok,
        provider_key.is_some() != model_id.is_some() ==> invalid_operation(
            r,
            label@ + " provider and model must be configured together"@,
        ),
{
    if provider_key.is_some() == model_id.is_some() {
        return Ok(());
    }
    let mut out: Vec<char> = Vec::new();
    push_str(&mut out, label);
    push_str(&mut out, " provider and model must be configured together");
    Err(TeamsError::InvalidOperation(string_of(&out)))
}

/// Whether a field is set once an update is applied: the update's value
/// when it has one, else the current value.
pub open spec fn set_after(field: Option<Option<String>>, current: Option<String>) -> bool {
    match field {
        Some(v) => v is Some,
        None => current is Some,
    }
}

/// The value of a field once an update is applied.
pub open spec fn value_after(field: Option<Option<String>>, current: Option<String>) -> Option<String> {
    match field {
        Some(v) => v,
        None => current,
    }
}

fn field_after<'a>(field: &'a Option<Option<String>>, current: &'a Option<String>) -> (r: Option<&'a str>)
    ensures
        match value_after(*field, *current) {
            Some(s) => r matches Some(t) && t@ == s@,
            None => r is None,
        },
{
    match field {
        Some(Some(v)) => Some(v.as_str()),
        Some(None) => None,
        None => match current {
            Some(v) => Some(v.as_str()),
            None => None,
        },
    }
}

/// The review models of a team, as an update would leave them, must each
/// be configured as a complete pair: the primary one first, then the small
/// one.
pub fn validate_review_model_pairs(team: &Team, params: &UpdateTeamRequest) -> (r: Result<(), TeamsError>)
    ensures
        ({
            let pk = set_after(params.review_primary_model_provider_key, team.review_primary_model_provider_key);
            let pm = set_after(params.review_primary_model_id, team.review_primary_model_id);
            let sk = set_after(params.review_small_model_provider_key, team.review_small_model_provider_key);
            let sm = set_after(params.review_small_model_id, team.review_small_model_id);
            &&& pk != pm ==> invalid_operation(
                r,
                "Review primary model"@ + " provider and model must be configured together"@,
            )
            &&& pk == pm && sk != sm ==> invalid_operation(
                r,
                "Review small model"@ + " provider and model must be configured together"@,
            )
            &&& pk == pm && sk == sm ==> r is Ok
        }),
{
    let primary = validate_pair(
        field_after(&params.review_primary_model_provider_key, &team.review_primary_model_provider_key),
        field_after(&params.review_primary_model_id, &team.review_primary_model_id),
        "Review primary model",
    );
    if primary.is_err() {
        return primary;
    }
    validate_pair(
        field_after(&params.review_small_model_provider_key, &team.review_small_model_provider_key),
        field_after(&params.review_small_model_id, &team.review_small_model_id),
        "Review small model",
    )
}

/// The model provider configuration an update leaves: the update's value
/// when it has one, else the current one.
pub fn resolve_model_provider_config_id(field: Option<Option<u128>>, existing: Option<u128>) -> (r: Option<u128>)
    ensures
        r == match field {
            Some(value) => value,
            None => existing,
        },
{
    match field {
        Some(value) => value,
        None => existing,
    }
}

/// The model id an update leaves: the update's value when it has one, else
/// the current one.
pub fn resolve_model_id<'a>(field: &'a Option<Option<String>>, existing: Option<&'a str>) -> (r: Option<&'a str>)
    ensures
        match *field {
            Some(Some(v)) => r matches Some(t) && t@ == v@,
            Some(None) => r is None,
            None => r == existing,
        },
{
    match field {
        Some(value) => match value {
            Some(v) => Some(v.as_str()),
            None => None,
        },
        None => existing,
    }
}

/// The name of the personal team created for a user at first sign-in.
pub fn personal_team_name(login: &str) -> (r: String)
    ensures
        r@ == login@ + "'s team"@,
{
    let mut out: Vec<char> = Vec::new();
    push_str(&mut out, login);
    push_str(&mut out, "'s team");
    string_of(&out)
}

/// The name under which an agent backend is stored.
pub open spec fn agent_backend_name(b: AgentBackend) -> Seq<char> {
    match b {
        AgentBackend::OpenCode => "opencode"@,
        AgentBackend::OmpRpc => "omp_rpc"@,
    }
}

impl AgentBackend {
    /// The name under which the backend is stored.
    pub fn as_str(&self) -> (r: &'static str)
        ensures
            r@ == agent_backend_name(*self),
    {
        match self {
            AgentBackend::OpenCode => "opencode",
            AgentBackend::OmpRpc => "omp_rpc",
        }
    }
}

/// The backend a stored name names; `None` when it names none.
pub fn parse_agent_backend(name: &str) -> (r: Option<AgentBackend>)
    ensures
        match r {
            Some(b) => agent_backend_name(b) == name@,
            None => forall|b: AgentBackend| agent_backend_name(b) != name@,
        },
{
    if str_eq(name, "opencode") {
        Some(AgentBackend::OpenCode)
    } else if str_eq(name, "omp_rpc") {
        Some(AgentBackend::OmpRpc)
    } else {
        proof {
            assert forall|b: AgentBackend| agent_backend_name(b) != name@ by {
                match b {
                    AgentBackend::OpenCode => {},
                    AgentBackend::OmpRpc => {},
                }
            }
        }
        None
    }
}

/// A set value, or the current one when the field is absent.
pub open spec fn set_or<T>(field: Option<T>, current: T) -> T {
    match field {
        Some(v) => v,
        None => current,
    }
}

fn string_or(field: &Option<String>, current: &String) -> (r: String)
    ensures
        r == set_or(*field, *current),
{
    match field {
        Some(v) => v.clone(),
        None => current.clone(),
    }
}

fn opt_or(field: &Option<Option<String>>, current: &Option<String>) -> (r: Option<String>)
    ensures
        r == set_or(*field, *current),
{
    match field {
        Some(v) => clone_opt(v),
        None => clone_opt(current),
    }
}

/// The team after an update: each field the update gives replaces the
/// current one (`Some(None)` clears an optional one), the name is the
/// checked `name` when given, the agent backend is stored by its name, and
/// everything else stays.
pub fn updated_team(current: &Team, name: Option<&str>, params: &UpdateTeamRequest) -> (r: Team)
    ensures
        r.id == current.id,
        r.personal_user_id == current.personal_user_id,
        r.name@ == match name {
            Some(n) => n@,
            None => current.name@,
        },
        r.prompt_template == set_or(params.prompt_template, current.prompt_template),
        r.agents_md == set_or(params.agents_md, current.agents_md),
        r.primary_model_provider_key == set_or(params.primary_model_provider_key, current.primary_model_provider_key),
        r.primary_model_id == set_or(params.primary_model_id, current.primary_model_id),
        r.small_model_provider_key == set_or(params.small_model_provider_key, current.small_model_provider_key),
        r.small_model_id == set_or(params.small_model_id, current.small_model_id),
        r.review_primary_model_provider_key == set_or(
            params.review_primary_model_provider_key,
            current.review_primary_model_provider_key,
        ),
        r.review_primary_model_id == set_or(params.review_primary_model_id, current.review_primary_model_id),
        r.review_small_model_provider_key == set_or(
            params.review_small_model_provider_key,
            current.review_small_model_provider_key,
        ),
        r.review_small_model_id == set_or(params.review_small_model_id, current.review_small_model_id),
        r.review_enabled == set_or(params.review_enabled, current.review_enabled),
        r.review_pickup_column == set_or(params.review_pickup_column, current.review_pickup_column),
        r.review_max_turns == set_or(params.review_max_turns, current.review_max_turns),
        r.review_prompt_template == set_or(params.review_prompt_template, current.review_prompt_template),
        r.max_in_progress_tasks == set_or(params.max_in_progress_tasks, current.max_in_progress_tasks),
        r.agent_backend@ == match params.agent_backend {
            Some(b) => agent_backend_name(b),
            None => current.agent_backend@,
        },
{
    Team {
        id: current.id,
        name: match name {
            Some(n) => owned(n),
            None => current.name.clone(),
        },
        personal_user_id: clone_opt(&current.personal_user_id),
        prompt_template: string_or(&params.prompt_template, &current.prompt_template),
        agents_md: string_or(&params.agents_md, &current.agents_md),
        primary_model_provider_key: opt_or(&params.primary_model_provider_key, &current.primary_model_provider_key),
        primary_model_id: opt_or(&params.primary_model_id, &current.primary_model_id),
        small_model_provider_key: opt_or(&params.small_model_provider_key, &current.small_model_provider_key),
        small_model_id: opt_or(&params.small_model_id, &current.small_model_id),
        review_primary_model_provider_key: opt_or(
            &params.review_primary_model_provider_key,
            &current.review_primary_model_provider_key,
        ),
        review_primary_model_id: opt_or(&params.review_primary_model_id, &current.review_primary_model_id),
        review_small_model_provider_key: opt_or(
            &params.review_small_model_provider_key,
            &current.review_small_model_provider_key,
        ),
        review_small_model_id: opt_or(&params.review_small_model_id, &current.review_small_model_id),
        review_enabled: match params.review_enabled {
            Some(v) => v,
            None => current.review_enabled,
        },
        review_pickup_column: string_or(&params.review_pickup_column, &current.review_pickup_column),
        review_max_turns: match params.review_max_turns {
            Some(v) => v,
            None => current.review_max_turns,
        },
        review_prompt_template: string_or(&params.review_prompt_template, &current.review_prompt_template),
        max_in_progress_tasks: match params.max_in_progress_tasks {
            Some(v) => v,
            None => current.max_in_progress_tasks,
        },
        agent_backend: match params.agent_backend {
            Some(b) => owned(b.as_str()),
            None => current.agent_backend.clone(),
        },
    }
}

} // verus!
