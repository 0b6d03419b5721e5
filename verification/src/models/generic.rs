use vstd::prelude::*;
use crate::models::paginator::{Paginator, Phase};

verus! {

/// One page of a listing: the number of records that the server holds in
/// all, and the records of this page in the server's order.
#[derive(Debug)]
pub struct Collection<T> {
    pub total: usize,
    pub items: Vec<T>,
}

/// A page cursor: an offset into the listing and a page size.
pub struct Cursor {
    pub offset: nat,
    pub limit: nat,
}

impl Cursor {
    /// The page that the cursor is on.
    pub open spec fn page(self) -> nat {
        self.offset / self.limit
    }

    /// The cursor at the start of the page after this one.
    pub open spec fn next(self) -> Cursor {
        Cursor { offset: (self.page() + 1) * self.limit, limit: self.limit }
    }

    /// The page size is positive and the start of the next page fits the
    /// machine's word.
    pub open spec fn can_advance(self) -> bool {
        self.limit > 0 && (self.page() + 1) * self.limit <= usize::MAX
    }
}

/// The mathematical content of the filters of a listing.
pub struct QueryView {
    pub offset: nat,
    pub limit: nat,
    pub verified_only: Option<bool>,
    pub season: Option<nat>,
    pub order_by: Seq<char>,
    pub order_direction: Seq<char>,
}

/// Query filters that carry a page cursor.
pub trait Paginable: Clone {
    /// The offset into the listing.
    spec fn spec_offset(&self) -> nat;

    /// The page size.
    spec fn spec_page_size(&self) -> nat;

    /// These filters with the cursor moved to the start of page `page`.
    spec fn at_page(&self, page: nat) -> Self;

    /// Moving the cursor sets the offset and leaves the page size.
    proof fn lemma_at_page(&self, page: nat)
        requires
            page * self.spec_page_size() <= usize::MAX,
        ensures
            self.at_page(page).spec_offset() == page * self.spec_page_size(),
            self.at_page(page).spec_page_size() == self.spec_page_size(),
    ;

    /// A clone is equal to what it was made from.
    proof fn lemma_clone(&self, copy: &Self)
        requires
            cloned(*self, *copy),
        ensures
            *copy == *self,
    ;

    /// Moves the cursor to the start of page `page`.
    fn set_page(&mut self, page: usize)
        requires
            page * old(self).spec_page_size() <= usize::MAX,
        ensures
            *final(self) == old(self).at_page(page as nat),
    ;

    /// The page that the cursor is on.
    fn get_page(&self) -> (page: usize)
        requires
            self.spec_page_size() > 0,
        ensures
            page == self.spec_offset() / self.spec_page_size(),
    ;

    /// The page size.
    fn get_page_size(&self) -> (size: usize)
        ensures
            size == self.spec_page_size(),
    ;
}

/// The cursor that filters carry.
pub open spec fn cursor_of<F: Paginable>(filters: F) -> Cursor {
    Cursor { offset: filters.spec_offset(), limit: filters.spec_page_size() }
}

/// Filters that were moved to page `page` are on page `page`, whatever
/// their cursor was before: the offset is `page` times the page size, which
/// stays.
pub proof fn lemma_page_round_trip<F: Paginable>(filters: F, page: nat)
    requires
        filters.spec_page_size() > 0,
        page * filters.spec_page_size() <= usize::MAX,
    ensures
        cursor_of(filters.at_page(page)).page() == page,
        cursor_of(filters.at_page(page)).offset == page * cursor_of(filters).limit,
        cursor_of(filters.at_page(page)).limit == cursor_of(filters).limit,
{
    filters.lemma_at_page(page);
    let size = filters.spec_page_size();
    assert((page * size) / size == page) by (nonlinear_arith)
        requires
            size > 0,
    ;
}

/// A kind of record that the server lists page by page.
pub trait Model: Sized {
    /// The filters of a listing of such records.
    type Filters: Paginable;

    /// The address of the listing.
    fn resource_url() -> String;

    /// A paginator that starts from the cursor of `filters`.
    fn paginate(filters: Self::Filters) -> (paginator: Paginator<Self::Filters>)
        ensures
            paginator.wf(),
            paginator@.phase == Phase::Idle,
            paginator.spec_filters() == filters,
    {
        Paginator::new(filters)
    }
}

/// One player of a squad.
#[derive(Debug)]
pub struct SquadMember {
    pub uuid: Option<String>,
    pub ign: Option<String>,
    pub role: Option<String>,
    pub scope: String,
}

impl Clone for SquadMember {
    fn clone(&self) -> (copy: Self)
        ensures
            copy == *self,
    {
        SquadMember {
            uuid: self.uuid.clone(),
            ign: self.ign.clone(),
            role: self.role.clone(),
            scope: self.scope.clone(),
        }
    }
}

} // verus!
