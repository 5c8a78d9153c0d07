//! Users, as the service describes them.

use vstd::prelude::*;

verus! {

/// Whether a user is around.
#[derive(Debug, Clone, Copy, PartialEq, Eq, Structural)]
pub enum StatusType {
    Offline,
    Online,
    InGame,
}

/// The status of a user whose record names none.
pub fn default_status_type() -> (status: StatusType)
    ensures
        status == StatusType::Offline,
{
    StatusType::Offline
}

/// The account that a session is signed in as.
#[derive(Debug, PartialEq, Eq)]
pub struct FullUser {
    pub id: String,
    pub name: String,
    pub role: String,
    pub reputation: i32,
    pub platform: String,
    pub status_type: StatusType,
    pub banned: Option<bool>,
    pub unread_messages: i32,
}

impl Clone for FullUser {
    fn clone(&self) -> (copy: Self)
        ensures
            copy == *self,
    {
        FullUser {
            id: self.id.clone(),
            name: self.name.clone(),
            role: self.role.clone(),
            reputation: self.reputation,
            platform: self.platform.clone(),
            status_type: self.status_type,
            banned: self.banned,
            unread_messages: self.unread_messages,
        }
    }
}

/// The author of an order or of a transaction.
#[derive(Debug, PartialEq, Eq)]
pub struct MinimalUser {
    pub id: String,
    pub name: String,
    pub role: String,
    pub reputation: i32,
    /// Whether the author is around; offline where the record names no status.
    pub status_type: StatusType,
}

} // verus!
