//! Pagination of the profile listing and the listing reply.
use vstd::prelude::*;
use crate::profile::{ProfileRow, Profile, to_proto, message_of};
use crate::status::{Code, Status, StoreError, status_is};

verus! {

/// The page used when a request asks for none (or a non-positive one).
pub const FIRST_PAGE: i32 = 1;

/// The page size used when a request asks for none (or a non-positive one).
pub const DEFAULT_PAGE_SIZE: i32 = 20;

/// The largest page size served.
pub const MAX_PAGE_SIZE: i32 = 100;

/// The page a request is served: pages count from one.
pub open spec fn served_page(page: i32) -> i32 {
    if page < FIRST_PAGE { FIRST_PAGE } else { page }
}

/// The page size a request is served: the default below one, capped above.
pub open spec fn served_page_size(page_size: i32) -> i32 {
    if page_size < 1 {
        DEFAULT_PAGE_SIZE
    } else if page_size > MAX_PAGE_SIZE {
        MAX_PAGE_SIZE
    } else {
        page_size
    }
}

/// How many rows precede the served page.
pub open spec fn served_offset(page: i32, page_size: i32) -> int {
    (served_page(page) - 1) * served_page_size(page_size)
}

/// The slice of the listing that one request is served.
#[derive(Debug, Clone, Copy)]
pub struct PageWindow {
    pub page: i32,
    pub page_size: i32,
    pub limit: i64,
    pub offset: i64,
}

/// Normalizes the requested page and page size and computes the rows to skip
/// and to return. The offset is computed in 32 bits, so it must fit there.
pub fn page_window(page: i32, page_size: i32) -> (w: PageWindow)
    requires
        served_offset(page, page_size) <= i32::MAX,
    ensures
        w.page == served_page(page),
        w.page_size == served_page_size(page_size),
        w.limit == w.page_size,
        w.offset == served_offset(page, page_size),
        page >= 1 ==> w.page == page,
        page < 1 ==> w.page == 1,
        1 <= page_size <= 100 ==> w.page_size == page_size && w.limit == page_size as i64,
        page_size < 1 ==> w.page_size == 20 && w.limit == 20,
        page_size > 100 ==> w.page_size == 100 && w.limit == 100,
        w.offset == (w.page - 1) * w.page_size,
        w.offset >= 0,
{
    let page: i32 = if page < FIRST_PAGE { FIRST_PAGE } else { page };
    let size: i32 = if page_size < 1 {
        DEFAULT_PAGE_SIZE
    } else if page_size > MAX_PAGE_SIZE {
        MAX_PAGE_SIZE
    } else {
        page_size
    };
    assert((page - 1) * size >= 0) by (nonlinear_arith)
        requires
            page >= 1,
            size >= 1,
    ;
    let offset: i32 = (page - 1) * size;
    PageWindow { page, page_size: size, limit: size as i64, offset: offset as i64 }
}

/// Whether the window of a request can be computed: its offset fits in 32 bits.
pub fn offset_fits(page: i32, page_size: i32) -> (r: bool)
    ensures
        r == (served_offset(page, page_size) <= i32::MAX),
        page >= 1 && 1 <= page_size <= 100 ==> r == ((page - 1) * page_size <= i32::MAX),
{
    let p: i64 = if page < FIRST_PAGE { FIRST_PAGE as i64 } else { page as i64 };
    let s: i64 = if page_size < 1 {
        DEFAULT_PAGE_SIZE as i64
    } else if page_size > MAX_PAGE_SIZE {
        MAX_PAGE_SIZE as i64
    } else {
        page_size as i64
    };
    assert(0 <= (p - 1) * s <= (i32::MAX as i64) * 100) by (nonlinear_arith)
        requires
            1 <= p <= i32::MAX,
            1 <= s <= 100,
    ;
    (p - 1) * s <= i32::MAX as i64
}

/// A request already within the served ranges is served exactly as asked: a page
/// of one or more is kept, a page size from one to a hundred is kept, and such a
/// page starts after exactly the rows of the pages before it. Only a page size
/// below one gets the default of twenty, and only one above a hundred is capped.
pub proof fn requests_in_range_are_served_as_asked(page: i32, page_size: i32)
    ensures
        page >= 1 ==> served_page(page) == page,
        page < 1 ==> served_page(page) == 1,
        1 <= page_size <= 100 ==> served_page_size(page_size) == page_size,
        page_size < 1 ==> served_page_size(page_size) == 20,
        page_size > 100 ==> served_page_size(page_size) == 100,
        page >= 1 && 1 <= page_size <= 100 ==> served_offset(page, page_size) == (page - 1) * page_size,
{
}

/// Pages of a fixed in-range size tile the listing from its first row: page `n`
/// starts after `n - 1` full pages of exactly the requested size.
pub proof fn page_offsets_count_whole_pages(page: i32, page_size: i32)
    requires
        page >= 1,
        1 <= page_size <= 100,
    ensures
        served_offset(page, page_size) == (page - 1) * page_size,
        served_offset(1, page_size) == 0,
        page < i32::MAX ==> served_offset((page + 1) as i32, page_size) - served_offset(page, page_size) == page_size,
{
    assert((page + 1 - 1) * page_size == (page - 1) * page_size + page_size) by (nonlinear_arith);
    assert((1 - 1) * page_size == 0) by (nonlinear_arith);
}

/// Every served window starts on the first page or later, holds between one and
/// the maximum number of rows, and skips no negative number of rows.
pub proof fn served_windows_are_bounded(page: i32, page_size: i32)
    ensures
        served_page(page) >= FIRST_PAGE,
        1 <= served_page_size(page_size) <= MAX_PAGE_SIZE,
        served_offset(page, page_size) >= 0,
{
    let p: i32 = served_page(page);
    let s: i32 = served_page_size(page_size);
    assert((p - 1) * s >= 0) by (nonlinear_arith)
        requires
            p >= 1,
            s >= 1,
    ;
}

/// Normalizing is stable: a window's own page and page size are served unchanged.
pub proof fn serving_is_stable(page: i32, page_size: i32)
    ensures
        served_page(served_page(page)) == served_page(page),
        served_page_size(served_page_size(page_size)) == served_page_size(page_size),
        served_offset(served_page(page), served_page_size(page_size)) == served_offset(page, page_size),
{
}

/// Consecutive pages tile the listing: each next page starts where the previous one ends.
pub proof fn consecutive_pages_are_adjacent(page: i32, page_size: i32)
    requires
        page >= FIRST_PAGE,
        page < i32::MAX,
    ensures
        served_offset((page + 1) as i32, page_size) == served_offset(page, page_size) + served_page_size(page_size),
{
    let s: i32 = served_page_size(page_size);
    assert(((page + 1) - 1) * s == (page - 1) * s + s) by (nonlinear_arith);
}

/// The reply to a listing request.
#[derive(Debug)]
pub struct ListProfilesResponse {
    pub profiles: Vec<Profile>,
    pub total: i32,
    pub page: i32,
    pub page_size: i32,
}

/// Builds the listing reply from the store's page of rows and its count of
/// matching profiles. The count is reported truncated to 32 bits.
pub fn list_profiles_reply(
    window: &PageWindow,
    rows: Result<Vec<ProfileRow>, StoreError>,
    total: Result<i64, StoreError>,
) -> (r: Result<ListProfilesResponse, Status>)
    requires
        rows is Ok ==> forall|i: int| 0 <= i < rows->Ok_0@.len() ==> (#[trigger] rows->Ok_0@[i]).wf(),
    ensures
        rows is Err ==> r is Err && status_is(r->Err_0, Code::Internal, "failed to list profiles"@),
        rows is Ok && total is Err ==> r is Err && status_is(
            r->Err_0,
            Code::Internal,
            "failed to count profiles"@,
        ),
        rows is Ok && total is Ok ==> {
            &&& r is Ok
            &&& r->Ok_0.profiles@.len() == rows->Ok_0@.len()
            &&& forall|i: int|
                0 <= i < rows->Ok_0@.len() ==> message_of(#[trigger] r->Ok_0.profiles@[i], rows->Ok_0@[i])
            &&& r->Ok_0.total == total->Ok_0 as i32
            &&& r->Ok_0.page == window.page
            &&& r->Ok_0.page_size == window.page_size
        },
{
    let mut rows = match rows {
        Ok(rows) => rows,
        Err(_) => {
            return Err(Status::new(Code::Internal, "failed to list profiles"));
        },
    };
    let total: i64 = match total {
        Ok(t) => t,
        Err(_) => {
            return Err(Status::new(Code::Internal, "failed to count profiles"));
        },
    };
    let ghost all = rows@;
    let mut profiles: Vec<Profile> = Vec::new();
    while rows.len() > 0
        invariant
            profiles@.len() + rows@.len() == all.len(),
            rows@ == all.skip(profiles@.len() as int),
            forall|i: int| 0 <= i < all.len() ==> (#[trigger] all[i]).wf(),
            forall|j: int| 0 <= j < profiles@.len() ==> message_of(#[trigger] profiles@[j], all[j]),
        decreases rows@.len(),
    {
        let ghost k: int = profiles@.len() as int;
        let row = rows.remove(0);
        assert(row == all[k]);
        assert(rows@ =~= all.skip(k + 1));
        profiles.push(to_proto(row));
    }
    let total32: i32 = #[verifier::truncate] (total as i32);
    Ok(ListProfilesResponse { profiles, total: total32, page: window.page, page_size: window.page_size })
}

} // verus!
