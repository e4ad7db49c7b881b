use vstd::prelude::*;

use crate::time::{epoch, DateTime};

verus! {

/// A clan taking part in matches.
pub struct User {
    pub id: i64,
    pub tag: String,
    pub name: Option<String>,
    pub score: i64,
    pub reverse_count: i64,
    pub league_id: i64,
    pub is_global: bool,
    pub create_time: DateTime,
    pub update_time: DateTime,
}

impl User {
    /// The value that stands for a clan that could not be found or stored:
    /// id 0, empty tag, no name, score 0, league 0, times at the epoch.
    pub open spec fn is_blank(self) -> bool {
        &&& self.id == 0
        &&& self.tag@ == Seq::<char>::empty()
        &&& self.name is None
        &&& self.score == 0
        &&& self.reverse_count == 0
        &&& self.league_id == 0
        &&& !self.is_global
        &&& self.create_time == epoch()
        &&& self.update_time == epoch()
    }

    /// A clan that could not be found or stored (see `is_blank`).
    pub fn blank() -> (r: User)
        ensures
            r.is_blank(),
    {
        User {
            id: 0,
            tag: String::new(),
            name: None,
            score: 0,
            reverse_count: 0,
            league_id: 0,
            is_global: false,
            create_time: DateTime::epoch(),
            update_time: DateTime::epoch(),
        }
    }

    /// The clan that was found, or the blank clan.
    pub fn or_blank(found: Option<User>) -> (r: User)
        ensures
            found matches Some(u) ==> r == u,
            found is None ==> r.is_blank(),
    {
        match found {
            Some(u) => u,
            None => User::blank(),
        }
    }
}

impl Default for User {
    fn default() -> (r: User)
        ensures
            r.is_blank(),
    {
        User::blank()
    }
}

} // verus!
