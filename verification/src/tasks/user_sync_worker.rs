//! What the user sync worker does with an event.
use vstd::prelude::*;

use crate::services::sync::UserSyncEvent;

verus! {

/// The work that an event asks for.
#[derive(Debug, PartialEq)]
pub enum UserSyncJob {
    /// Bring the user's roles in line with the rules.
    SyncRoles { discord_id: String },
    /// Take all roles from a user who is not linked any more.
    RemoveAll { discord_id: String },
}

/// The work that an event asks for.
pub open spec fn job_of(event: UserSyncEvent) -> UserSyncJob {
    match event {
        UserSyncEvent::UserUpdated { discord_id } => UserSyncJob::SyncRoles { discord_id },
        UserSyncEvent::AccountLinked { discord_id } => UserSyncJob::SyncRoles { discord_id },
        UserSyncEvent::AccountUnlinked { discord_id } => UserSyncJob::RemoveAll { discord_id },
    }
}

/// Roles are taken from a user only when their account was unlinked; every other
/// event has that user's roles synced.
pub proof fn law_only_the_unlinked_lose_everything(discord_id: String)
    ensures
        job_of(UserSyncEvent::AccountUnlinked { discord_id }) == (UserSyncJob::RemoveAll {
            discord_id,
        }),
        job_of(UserSyncEvent::AccountLinked { discord_id }) == (UserSyncJob::SyncRoles {
            discord_id,
        }),
        job_of(UserSyncEvent::UserUpdated { discord_id }) == (UserSyncJob::SyncRoles {
            discord_id,
        }),
{
}

/// The work that an event asks for.
pub fn job_for(event: UserSyncEvent) -> (r: UserSyncJob)
    ensures
        r == job_of(event),
{
    match event {
        UserSyncEvent::UserUpdated { discord_id } => UserSyncJob::SyncRoles { discord_id },
        UserSyncEvent::AccountLinked { discord_id } => UserSyncJob::SyncRoles { discord_id },
        UserSyncEvent::AccountUnlinked { discord_id } => UserSyncJob::RemoveAll { discord_id },
    }
}

} // verus!
