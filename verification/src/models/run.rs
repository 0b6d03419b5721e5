use vstd::prelude::*;
use vstd::string::StringExecFns;
use crate::models::generic::{Paginable, QueryView, SquadMember};

verus! {

/// The night that a run belongs to.
#[derive(Debug)]
pub struct NightInRun {
    pub uuid: String,
    pub scope: String,
    pub verified: bool,
    pub season: usize,
    pub squad_size: usize,
    pub created_at: String,
    pub users: Vec<SquadMember>,
}

impl Clone for NightInRun {
    /// The copy has the same players in the same order.
    fn clone(&self) -> (copy: Self)
        ensures
            copy.uuid == self.uuid,
            copy.scope == self.scope,
            copy.verified == self.verified,
            copy.season == self.season,
            copy.squad_size == self.squad_size,
            copy.created_at == self.created_at,
            copy.users@ == self.users@,
    {
        NightInRun {
            uuid: self.uuid.clone(),
            scope: self.scope.clone(),
            verified: self.verified,
            season: self.season,
            squad_size: self.squad_size,
            created_at: self.created_at.clone(),
            users: self.users.clone(),
        }
    }
}

/// The address of the listing of runs.
pub fn resource_url() -> (url: String)
    ensures
        url@ == "https://api.idalon.com/v2/runs"@,
{
    String::from_str("https://api.idalon.com/v2/runs")
}

/// The filters of a listing of runs.
#[derive(Debug)]
pub struct RunFilters {
    pub offset: usize,
    pub limit: usize,
    pub verified_only: Option<bool>,
    pub season: Option<usize>,
    pub order_by: String,
    pub order_direction: String,
}

impl View for RunFilters {
    type V = QueryView;

    open spec fn view(&self) -> QueryView {
        QueryView {
            offset: self.offset as nat,
            limit: self.limit as nat,
            verified_only: self.verified_only,
            season: match self.season {
                Some(season) => Some(season as nat),
                None => None,
            },
            order_by: self.order_by@,
            order_direction: self.order_direction@,
        }
    }
}

impl Clone for RunFilters {
    fn clone(&self) -> (copy: Self)
        ensures
            copy == *self,
    {
        RunFilters {
            offset: self.offset,
            limit: self.limit,
            verified_only: self.verified_only,
            season: self.season,
            order_by: self.order_by.clone(),
            order_direction: self.order_direction.clone(),
        }
    }
}

impl Default for RunFilters {
    /// The newest runs first, ten to a page, from the start.
    fn default() -> (filters: Self)
        ensures
            filters@ == (QueryView {
                offset: 0,
                limit: 10,
                verified_only: None,
                season: None,
                order_by: "createdAt"@,
                order_direction: "desc"@,
            }),
    {
        RunFilters {
            offset: 0,
            limit: 10,
            verified_only: None,
            season: None,
            order_by: String::from_str("createdAt"),
            order_direction: String::from_str("desc"),
        }
    }
}

impl RunFilters {
    /// The ranking of the third season: verified runs only, the shortest
    /// time first, fifty to a page, from the start.
    pub fn leaderboard() -> (filters: Self)
        ensures
            filters@ == (QueryView {
                offset: 0,
                limit: 50,
                verified_only: Some(true),
                season: Some(3nat),
                order_by: "realTime"@,
                order_direction: "asc"@,
            }),
    {
        RunFilters {
            offset: 0,
            limit: 50,
            season: Some(3),
            verified_only: Some(true),
            order_by: String::from_str("realTime"),
            order_direction: String::from_str("asc"),
        }
    }
}

impl Paginable for RunFilters {
    open spec fn spec_offset(&self) -> nat {
        self.offset as nat
    }

    open spec fn spec_page_size(&self) -> nat {
        self.limit as nat
    }

    open spec fn at_page(&self, page: nat) -> Self {
        RunFilters {
            offset: (page * self.limit) as usize,
            limit: self.limit,
            verified_only: self.verified_only,
            season: self.season,
            order_by: self.order_by,
            order_direction: self.order_direction,
        }
    }

    proof fn lemma_at_page(&self, page: nat) {
    }

    proof fn lemma_clone(&self, copy: &Self) {
    }

    fn set_page(&mut self, page: usize) {
        self.offset = page * self.limit
    }

    fn get_page(&self) -> (page: usize) {
        self.offset / self.limit
    }

    fn get_page_size(&self) -> (size: usize) {
        self.limit
    }
}

} // verus!
