//! Who may read, own, list, create and delete teams, and how the team a
//! request acts on is found.
use vstd::prelude::*;

use crate::teams::errors::TeamsError;
use crate::teams::model::{Team, TeamPrincipal};
use crate::text::{owned, str_eq};

verus! {

/// How the team of a request is found.
#[derive(Clone, Debug)]
pub enum TeamLookup {
    /// This team, which must exist.
    Existing(u128),
    /// The oldest team of the instance.
    Default,
    /// This team, of which the user must be a member.
    Membership { team_id: u128, user_id: String },
    /// The oldest team the user belongs to.
    FirstOf(String),
}

/// What must hold before a team is read or owned.
#[derive(Clone, Debug)]
pub enum TeamCheck {
    /// The team must exist.
    Exists(u128),
    /// The user must be a member of the team.
    Member { team_id: u128, user_id: String },
    /// The user's role in the team must be owner.
    Owner { team_id: u128, user_id: String },
}

/// Which teams a principal may list.
#[derive(Clone, Debug)]
pub enum TeamListing {
    All,
    OfUser(String),
}

/// How the team of a request is found: the instance may act only in
/// single-user mode, on the named team or else the default one; a user acts
/// on a named team of which they are a member, or else their first team.
pub fn resolve_team_lookup(principal: &TeamPrincipal, single_user: bool) -> (r: Result<TeamLookup, TeamsError>)
    ensures
        match *principal {
            TeamPrincipal::Instance { team_id } => if !single_user {
                r matches Err(TeamsError::AccessDenied)
            } else {
                match team_id {
                    Some(t) => r matches Ok(TeamLookup::Existing(x)) && x == t,
                    None => r matches Ok(TeamLookup::Default),
                }
            },
            TeamPrincipal::User { user_id, team_id } => match team_id {
                Some(t) => r matches Ok(TeamLookup::Membership { team_id: x, user_id: u }) && x == t && u == user_id,
                None => r matches Ok(TeamLookup::FirstOf(u)) && u == user_id,
            },
        },
{
    match principal {
        TeamPrincipal::Instance { team_id } => {
            if !single_user {
                return Err(TeamsError::AccessDenied);
            }
            match team_id {
                Some(t) => Ok(TeamLookup::Existing(*t)),
                None => Ok(TeamLookup::Default),
            }
        },
        TeamPrincipal::User { user_id, team_id } => match team_id {
            Some(t) => Ok(TeamLookup::Membership { team_id: *t, user_id: user_id.clone() }),
            None => Ok(TeamLookup::FirstOf(user_id.clone())),
        },
    }
}

/// What must hold before `team_id` is read: in single-user mode the
/// instance may read any existing team and is denied otherwise; a user must
/// be a member.
pub fn read_check(team_id: u128, principal: &TeamPrincipal, single_user: bool) -> (r: Result<TeamCheck, TeamsError>)
    ensures
        match *principal {
            TeamPrincipal::Instance { .. } => if single_user {
                r matches Ok(TeamCheck::Exists(t)) && t == team_id
            } else {
                r matches Err(TeamsError::AccessDenied)
            },
            TeamPrincipal::User { user_id, .. } => r matches Ok(TeamCheck::Member { team_id: t, user_id: u })
                && t == team_id && u == user_id,
        },
{
    match principal {
        TeamPrincipal::Instance { .. } => if single_user {
            Ok(TeamCheck::Exists(team_id))
        } else {
            Err(TeamsError::AccessDenied)
        },
        TeamPrincipal::User { user_id, .. } => Ok(TeamCheck::Member { team_id, user_id: user_id.clone() }),
    }
}

/// What must hold before `team_id` is changed as its owner: as for reading,
/// but a user must be an owner.
pub fn owner_check(team_id: u128, principal: &TeamPrincipal, single_user: bool) -> (r: Result<TeamCheck, TeamsError>)
    ensures
        match *principal {
            TeamPrincipal::Instance { .. } => if single_user {
                r matches Ok(TeamCheck::Exists(t)) && t == team_id
            } else {
                r matches Err(TeamsError::AccessDenied)
            },
            TeamPrincipal::User { user_id, .. } => r matches Ok(TeamCheck::Owner { team_id: t, user_id: u })
                && t == team_id && u == user_id,
        },
{
    match principal {
        TeamPrincipal::Instance { .. } => if single_user {
            Ok(TeamCheck::Exists(team_id))
        } else {
            Err(TeamsError::AccessDenied)
        },
        TeamPrincipal::User { user_id, .. } => Ok(TeamCheck::Owner { team_id, user_id: user_id.clone() }),
    }
}

/// A member's role allows owner operations only when it is `owner`.
pub fn require_owner_role(role: &str) -> (r: Result<(), TeamsError>)
    ensures
        r is Ok <==> role@ == "owner"@,
        r is Err ==> r matches Err(TeamsError::AccessDenied),
{
    if str_eq(role, "owner") {
        Ok(())
    } else {
        Err(TeamsError::AccessDenied)
    }
}

/// Which teams a principal may list: all of them for the instance in
/// single-user mode, none otherwise; a user's own teams.
pub fn team_listing(principal: &TeamPrincipal, single_user: bool) -> (r: Result<TeamListing, TeamsError>)
    ensures
        match *principal {
            TeamPrincipal::Instance { .. } => if single_user {
                r matches Ok(TeamListing::All)
            } else {
                r matches Err(TeamsError::AccessDenied)
            },
            TeamPrincipal::User { user_id, .. } => r matches Ok(TeamListing::OfUser(u)) && u == user_id,
        },
{
    match principal {
        TeamPrincipal::Instance { .. } => if single_user {
            Ok(TeamListing::All)
        } else {
            Err(TeamsError::AccessDenied)
        },
        TeamPrincipal::User { user_id, .. } => Ok(TeamListing::OfUser(user_id.clone())),
    }
}

/// Who becomes the owner of a new team: the creating user; nobody when the
/// instance creates it in single-user mode; outside it the instance may not
/// create teams.
pub fn new_team_owner(principal: &TeamPrincipal, single_user: bool) -> (r: Result<Option<String>, TeamsError>)
    ensures
        match *principal {
            TeamPrincipal::Instance { .. } => if single_user {
                r == Ok::<Option<String>, TeamsError>(None)
            } else {
                r matches Err(TeamsError::AccessDenied)
            },
            TeamPrincipal::User { user_id, .. } => r == Ok::<Option<String>, TeamsError>(Some(user_id)),
        },
{
    match principal {
        TeamPrincipal::Instance { .. } => if single_user {
            Ok(None)
        } else {
            Err(TeamsError::AccessDenied)
        },
        TeamPrincipal::User { user_id, .. } => Ok(Some(user_id.clone())),
    }
}

/// `r` refuses the operation with the message `msg`.
pub open spec fn invalid_operation<T>(r: Result<T, TeamsError>, msg: Seq<char>) -> bool {
    r matches Err(TeamsError::InvalidOperation(m)) && m@ == msg
}

/// Why a team may not be deleted: personal teams never, and never the last
/// team of the instance (for the instance) or of the user (for a user);
/// `team_count` counts those teams.
pub fn check_team_deletion(team: &Team, principal: &TeamPrincipal, team_count: i64) -> (r: Result<(), TeamsError>)
    ensures
        team.personal_user_id is Some ==> invalid_operation(r, "Personal teams cannot be deleted"@),
        team.personal_user_id is None && team_count <= 1 ==> match *principal {
            TeamPrincipal::Instance { .. } => invalid_operation(r, "Cannot delete the last team"@),
            TeamPrincipal::User { .. } => invalid_operation(r, "Cannot delete your last team"@),
        },
        team.personal_user_id is None && team_count > 1 ==> r is Ok,
{
    if team.personal_user_id.is_some() {
        return Err(TeamsError::InvalidOperation(owned("Personal teams cannot be deleted")));
    }
    if team_count <= 1 {
        return match principal {
            TeamPrincipal::Instance { .. } => Err(TeamsError::InvalidOperation(owned("Cannot delete the last team"))),
            TeamPrincipal::User { .. } => Err(TeamsError::InvalidOperation(owned("Cannot delete your last team"))),
        };
    }
    Ok(())
}

/// Which teams are counted before a team is deleted.
#[derive(Clone, Debug)]
pub enum DeletionCount {
    /// None: a personal team is never deleted, whatever the count.
    Nothing,
    /// All teams of the instance.
    AllTeams,
    /// The teams this user belongs to.
    TeamsOf(String),
}

/// Which count `check_team_deletion` needs: none for a personal team, all
/// teams when the instance deletes, the user's own teams when a user does.
pub fn deletion_count_scope(team: &Team, principal: &TeamPrincipal) -> (r: DeletionCount)
    ensures
        team.personal_user_id is Some ==> r is Nothing,
        team.personal_user_id is None ==> match *principal {
            TeamPrincipal::Instance { .. } => r is AllTeams,
            TeamPrincipal::User { user_id, .. } => r matches DeletionCount::TeamsOf(u) && u == user_id,
        },
{
    if team.personal_user_id.is_some() {
        return DeletionCount::Nothing;
    }
    match principal {
        TeamPrincipal::Instance { .. } => DeletionCount::AllTeams,
        TeamPrincipal::User { user_id, .. } => DeletionCount::TeamsOf(user_id.clone()),
    }
}

/// The team a user acts on when naming none: the first of the user's teams,
/// listed oldest first; a user without teams has none.
pub fn first_team(teams: &Vec<Team>) -> (r: Result<u128, TeamsError>)
    ensures
        teams@.len() == 0 ==> r matches Err(TeamsError::NotFound),
        teams@.len() > 0 ==> r == Ok::<u128, TeamsError>(teams@[0].id),
{
    if teams.len() == 0 {
        Err(TeamsError::NotFound)
    } else {
        Ok(teams[0].id)
    }
}

} // verus!
