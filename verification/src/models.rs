//! Plain records of the lobby.

use vstd::prelude::*;

verus! {

/// A player as the lobby's persistent storage records one. The registry
/// itself identifies players by their bare user names.
pub struct User {
    pub id: String,
    pub user_name: String,
    pub points_game: String,
    pub points_total: String,
}

} // verus!
