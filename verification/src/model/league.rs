use vstd::prelude::*;

use crate::time::{epoch, DateTime};

verus! {

/// A league: an alliance of clans, known by its key.
pub struct League {
    pub id: i64,
    pub name: String,
    pub api_key: String,
    pub create_time: DateTime,
}

impl League {
    /// The value that stands for a league that could not be found: id 0, empty texts,
    /// created at the epoch.
    pub open spec fn is_blank(self) -> bool {
        &&& self.id == 0
        &&& self.name@ == Seq::<char>::empty()
        &&& self.api_key@ == Seq::<char>::empty()
        &&& self.create_time == epoch()
    }

    /// A league that could not be found (see `is_blank`).
    pub fn blank() -> (r: League)
        ensures
            r.is_blank(),
    {
        League { id: 0, name: String::new(), api_key: String::new(), create_time: DateTime::epoch() }
    }

    /// The league that was found, or the blank league.
    pub fn or_blank(found: Option<League>) -> (r: League)
        ensures
            found matches Some(l) ==> r == l,
            found is None ==> r.is_blank(),
    {
        match found {
            Some(l) => l,
            None => League::blank(),
        }
    }
}

impl Default for League {
    fn default() -> (r: League)
        ensures
            r.is_blank(),
    {
        League::blank()
    }
}

} // verus!
