use vstd::prelude::*;
use vstd::string::StringExecFns;
use crate::models::generic::{Paginable, QueryView};

verus! {

/// The state of a night's verification, with the recording it rests on.
#[derive(Debug)]
pub struct VerificationInNight {
    pub uuid: String,
    pub status: String,
    pub video_url: String,
    pub created_at: String,
    pub updated_at: String,
}

impl Clone for VerificationInNight {
    fn clone(&self) -> (copy: Self)
        ensures
            copy == *self,
    {
        VerificationInNight {
            uuid: self.uuid.clone(),
            status: self.status.clone(),
            video_url: self.video_url.clone(),
            created_at: self.created_at.clone(),
            updated_at: self.updated_at.clone(),
        }
    }
}

/// The address of the listing of nights.
pub fn resource_url() -> (url: String)
    ensures
        url@ == "https://api.idalon.com/v2/nights"@,
{
    String::from_str("https://api.idalon.com/v2/nights")
}

/// The filters of a listing of nights.
#[derive(Debug)]
pub struct NightFilters {
    pub offset: usize,
    pub limit: usize,
    pub verified_only: Option<bool>,
    pub season: Option<usize>,
    pub order_by: String,
    pub order_direction: String,
}

impl View for NightFilters {
    type V = QueryView;

    open spec fn view(&self) -> QueryView {
        QueryView {
            offset: self.offset as nat,
            limit: self.limit as nat,
            verified_only: self.verified_only,
            season: match self.season {
                Some(season) => Some(season as nat),
                None => None,
            },
            order_by: self.order_by@,
            order_direction: self.order_direction@,
        }
    }
}

impl Clone for NightFilters {
    fn clone(&self) -> (copy: Self)
        ensures
            copy == *self,
    {
        NightFilters {
            offset: self.offset,
            limit: self.limit,
            verified_only: self.verified_only,
            season: self.season,
            order_by: self.order_by.clone(),
            order_direction: self.order_direction.clone(),
        }
    }
}

impl Default for NightFilters {
    /// The newest nights first, ten to a page, from the start.
    fn default() -> (filters: Self)
        ensures
            filters@ == (QueryView {
                offset: 0,
                limit: 10,
                verified_only: None,
                season: None,
                order_by: "createdAt"@,
                order_direction: "desc"@,
            }),
    {
        NightFilters {
            offset: 0,
            limit: 10,
            verified_only: None,
            season: None,
            order_by: String::from_str("createdAt"),
            order_direction: String::from_str("desc"),
        }
    }
}

impl NightFilters {
    /// The ranking of the third season: verified nights only, the shortest
    /// average time first, twenty-five to a page, from the start.
    pub fn leaderboard() -> (filters: Self)
        ensures
            filters@ == (QueryView {
                offset: 0,
                limit: 25,
                verified_only: Some(true),
                season: Some(3nat),
                order_by: "averageRealTime"@,
                order_direction: "asc"@,
            }),
    {
        NightFilters {
            offset: 0,
            limit: 25,
            season: Some(3),
            verified_only: Some(true),
            order_by: String::from_str("averageRealTime"),
            order_direction: String::from_str("asc"),
        }
    }
}

impl Paginable for NightFilters {
    open spec fn spec_offset(&self) -> nat {
        self.offset as nat
    }

    open spec fn spec_page_size(&self) -> nat {
        self.limit as nat
    }

    open spec fn at_page(&self, page: nat) -> Self {
        NightFilters {
            offset: (page * self.limit) as usize,
            limit: self.limit,
            verified_only: self.verified_only,
            season: self.season,
            order_by: self.order_by,
            order_direction: self.order_direction,
        }
    }

    proof fn lemma_at_page(&self, page: nat) {
    }

    proof fn lemma_clone(&self, copy: &Self) {
    }

    fn set_page(&mut self, page: usize) {
        self.offset = page * self.limit
    }

    fn get_page(&self) -> (page: usize) {
        self.offset / self.limit
    }

    fn get_page_size(&self) -> (size: usize) {
        self.limit
    }
}

} // verus!
