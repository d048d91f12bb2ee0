//! Records exchanged with clients and read from the database, and the
//! paging of listings.
use vstd::prelude::*;

verus! {

pub struct CarWithTracker {
    pub car_id: i32,
    pub name: String,
    pub police_number: String,
    pub active: bool,
    pub car_type_id: i32,
    pub car_type_name: String,
    pub tracker_id: Option<i32>,
    pub tracker_name: Option<String>,
}

/// The car listing: the cars of the page asked for, and how many there are.
pub struct GetCarsResponse {
    pub cars: Vec<CarWithTracker>,
    pub car_count: usize,
}

pub struct CarType {
    pub car_type_id: i32,
    pub name: String,
}

pub struct CarTypeWithCount {
    pub car_type_id: i32,
    pub name: String,
    pub car_count: i64,
}

pub struct GetCarTypesResponse {
    pub car_types: Vec<CarTypeWithCount>,
    pub car_type_count: usize,
}

pub struct CarTypeBody {
    pub name: String,
}

pub struct TrackerWithDetails {
    pub tracker_id: i32,
    pub name: String,
    pub car_id: Option<i32>,
    pub car_name: Option<String>,
    pub car_type_id: Option<i32>,
    pub car_type_name: Option<String>,
}

pub struct TrackerBody {
    pub name: String,
}

pub struct ContactType {
    pub contact_type_id: i32,
    pub name: String,
}

pub struct ContactTypeWithCount {
    pub contact_type_id: i32,
    pub name: String,
    pub contact_count: i64,
}

pub struct ContactTypeBody {
    pub name: String,
}

pub struct GetContactTypesResponse {
    pub contact_types: Vec<ContactTypeWithCount>,
    pub contact_type_count: usize,
}

pub struct ActivityWithCount {
    pub activity_id: i32,
    pub name: String,
    pub activity_count: i64,
}

pub struct ActivityTypeBody {
    pub name: String,
}

pub struct User {
    pub user_id: i32,
    pub username: String,
    pub email: String,
    pub full_name: String,
    pub user_role_id: i32,
}

pub struct UserBody {
    pub username: String,
    pub password: Option<String>,
    pub email: String,
    pub full_name: String,
    pub user_role_id: i32,
}

pub struct UserRole {
    pub user_role_id: i32,
    pub name: String,
}

pub struct UserRoleWithDetails {
    pub user_role_id: i32,
    pub name: String,
    pub user_count: Option<i64>,
}

pub struct UserRoleBody {
    pub name: String,
}

pub struct GetUserRolesResponse {
    pub user_roles: Vec<UserRoleWithDetails>,
    pub user_role_count: usize,
}

pub struct GoogleMapSearchParams {
    pub name: String,
}

pub struct PlaceDisplayName {
    pub text: String,
    pub language_code: String,
}

pub struct AuditQueryParams {
    pub date: Option<String>,
    pub car_id: Option<i32>,
    pub tracker_id: Option<i32>,
}

pub struct DeleteActivity {
    pub activity_id: u8,
}

pub struct TrackerConnection {
    pub interval: u32,
    pub retries: u32,
    pub sequence_id: u32,
    pub iteration_id: u32,
    pub strength: u32,
}

pub struct TrackerDateTime {
    pub iso8601: Option<String>,
    pub year: Option<u32>,
    pub month: Option<u8>,
    pub day: Option<u8>,
    pub hour: Option<u8>,
    pub minute: Option<u8>,
    pub second: Option<u8>,
    pub millisecond: Option<u32>,
    pub valid: bool,
}

pub struct TrackerSatellites {
    pub count: Option<u8>,
    pub age: Option<u32>,
    pub valid: bool,
}

pub struct TrackerStats {
    pub chars_processed: Option<u32>,
    pub sentences_with_fix: Option<u32>,
    pub failed_checksum: Option<u32>,
    pub passed_checksum: Option<u32>,
}

pub struct PayloadConnection {
    pub interval: u32,
    pub retries: u32,
    pub sequence_id: u32,
    pub iteration_id: u32,
}

pub struct PayloadDateTime {
    pub iso8601: Option<String>,
    pub year: Option<u32>,
    pub month: Option<u8>,
    pub day: Option<u8>,
    pub hour: Option<u8>,
    pub minute: Option<u8>,
    pub second: Option<u8>,
    pub centisecond: Option<u32>,
    pub age: Option<u32>,
    pub valid: bool,
}

pub struct PayloadSatellites {
    pub visible: Option<u8>,
    pub used: Option<u8>,
    pub carrier_to_noise: Option<u8>,
    pub age: Option<u32>,
    pub valid: bool,
}

pub struct PayloadStats {
    pub chars_processed: Option<u32>,
    pub sentences_with_fix: Option<u32>,
    pub failed_checksum: Option<u32>,
    pub passed_checksum: Option<u32>,
}

pub struct PayloadNetwork {
    pub rssi: Option<u32>,
    pub lac: Option<String>,
    pub ci: Option<String>,
}

impl GetCarsResponse {
    /// A listing response: the cars and how many there are.
    pub fn new(cars: Vec<CarWithTracker>) -> (r: Self)
        ensures
            r.cars@ == cars@,
            r.car_count == cars@.len(),
    {
        let car_count = cars.len();
        GetCarsResponse { cars, car_count }
    }
}

impl GetCarTypesResponse {
    /// A listing response: the car types and how many there are.
    pub fn new(car_types: Vec<CarTypeWithCount>) -> (r: Self)
        ensures
            r.car_types@ == car_types@,
            r.car_type_count == car_types@.len(),
    {
        let car_type_count = car_types.len();
        GetCarTypesResponse { car_types, car_type_count }
    }
}

impl GetContactTypesResponse {
    /// A listing response: the contact types and how many there are.
    pub fn new(contact_types: Vec<ContactTypeWithCount>) -> (r: Self)
        ensures
            r.contact_types@ == contact_types@,
            r.contact_type_count == contact_types@.len(),
    {
        let contact_type_count = contact_types.len();
        GetContactTypesResponse { contact_types, contact_type_count }
    }
}

impl GetUserRolesResponse {
    /// A listing response: the user roles and how many there are.
    pub fn new(user_roles: Vec<UserRoleWithDetails>) -> (r: Self)
        ensures
            r.user_roles@ == user_roles@,
            r.user_role_count == user_roles@.len(),
    {
        let user_role_count = user_roles.len();
        GetUserRolesResponse { user_roles, user_role_count }
    }
}

/// Listings show this many rows per page.
pub const PAGE_SIZE: u32 = 5;

/// The page a listing request asks for: the first page when absent or zero.
pub open spec fn effective_page(p: &PaginationParams) -> int {
    match p.page {
        Some(n) => if n < 1 {
            1
        } else {
            n as int
        },
        None => 1,
    }
}

/// The row limit a listing request asks for: five when absent, at least one.
pub open spec fn effective_limit(p: &PaginationParams) -> int {
    match p.limit {
        Some(n) => if n < 1 {
            1
        } else {
            n as int
        },
        None => PAGE_SIZE as int,
    }
}

pub struct PaginationParams {
    pub page: Option<u32>,
    pub limit: Option<u32>,
}

impl PaginationParams {
    /// The `LIMIT` and `OFFSET` of a listing query. The offset steps by the
    /// page size of five rows, whatever limit is asked for.
    pub fn limit_offset(&self) -> (r: (u32, u32))
        requires
            (effective_page(self) - 1) * 5 <= u32::MAX,
        ensures
            r.0 == effective_limit(self),
            r.1 == (effective_page(self) - 1) * 5,
            r.0 >= 1,
            self.limit matches Some(n) ==> (n >= 1 ==> r.0 == n),
            self.limit is None ==> r.0 == 5,
            self.limit == Some(0u32) ==> r.0 == 1,
            self.page matches Some(n) ==> (n >= 1 ==> r.1 == (n - 1) * 5),
            (self.page is None || self.page == Some(0u32)) ==> r.1 == 0,
    {
        let page = match self.page {
            Some(n) => n,
            None => 1,
        };
        let limit = match self.limit {
            Some(n) => n,
            None => 5,
        };
        let page = if page < 1 {
            1
        } else {
            page
        };
        let limit = if limit < 1 {
            1
        } else {
            limit
        };
        (limit, (page - 1) * PAGE_SIZE)
    }
}

/// Where a paged listing stands: the page shown, how many pages there are,
/// the zero-based page to fetch, and the page numbers to link.
pub struct PageWindow {
    pub current_page: u64,
    pub total_pages: u64,
    pub fetch_index: u64,
    pub pages: Vec<u64>,
}

/// The page shown: the one asked for (the first when absent), at most the last.
pub open spec fn shown_page(page: Option<u64>, total_pages: int) -> int {
    let asked = match page {
        Some(p) => p as int,
        None => 1,
    };
    if asked < total_pages {
        asked
    } else {
        total_pages
    }
}

/// Places a request for `page` among `raw_total_pages` pages of a listing:
/// there is always at least one page, a page past the end shows the last,
/// and the pages are numbered from one.
pub fn page_window(page: Option<u64>, raw_total_pages: u64) -> (w: PageWindow)
    requires
        raw_total_pages < usize::MAX,
    ensures
        w.total_pages == if raw_total_pages < 1 {
            1
        } else {
            raw_total_pages
        },
        w.current_page == shown_page(page, w.total_pages as int),
        w.fetch_index == if w.current_page == 0 {
            0
        } else {
            w.current_page - 1
        },
        w.pages@.len() == w.total_pages,
        forall|i: int| 0 <= i < w.pages@.len() ==> w.pages@[i] == i + 1,
        w.total_pages >= 1,
        raw_total_pages >= 1 ==> w.total_pages == raw_total_pages,
        page is None ==> w.current_page == 1 && w.fetch_index == 0,
        page matches Some(p) ==> (1 <= p <= w.total_pages ==> w.current_page == p
            && w.fetch_index == p - 1),
        page matches Some(p) ==> (p > w.total_pages ==> w.current_page == w.total_pages
            && w.fetch_index == w.total_pages - 1),
        w.current_page <= w.total_pages,
{
    let current = match page {
        Some(p) => p,
        None => 1,
    };
    let total_pages = if raw_total_pages < 1 {
        1
    } else {
        raw_total_pages
    };
    let target_page = if current < total_pages {
        current
    } else {
        total_pages
    };
    let fetch_index = if target_page == 0 {
        0
    } else {
        target_page - 1
    };
    let mut pages: Vec<u64> = Vec::new();
    let mut k: u64 = 1;
    while k <= total_pages
        invariant
            1 <= k <= total_pages + 1,
            total_pages < usize::MAX,
            pages@.len() == k - 1,
            forall|i: int| 0 <= i < pages@.len() ==> pages@[i] == i + 1,
        decreases total_pages + 1 - k,
    {
        pages.push(k);
        k = k + 1;
    }
    PageWindow { current_page: target_page, total_pages, fetch_index, pages }
}


/// A paged listing always shows an existing page: past the end it shows
/// the last one, and only an explicit page zero falls below the first.
pub proof fn law_shown_page_exists(page: Option<u64>, total_pages: int)
    requires
        total_pages >= 1,
    ensures
        shown_page(page, total_pages) <= total_pages,
        page != Some(0u64) ==> 1 <= shown_page(page, total_pages),
        page matches Some(p) ==> (1 <= p <= total_pages ==> shown_page(page, total_pages) == p),
{
}


/// A listing request that names no page shows the first page, one that
/// names an existing page shows that page, and one past the end shows the
/// last page.
pub proof fn law_page_shown_for_request(page: Option<u64>, total_pages: int)
    requires
        total_pages >= 1,
    ensures
        page is None ==> shown_page(page, total_pages) == 1,
        page matches Some(p) ==> (1 <= p <= total_pages ==> shown_page(page, total_pages) == p),
        page matches Some(p) ==> (p > total_pages ==> shown_page(page, total_pages) == total_pages),
{
}

/// A positive row limit is used as given, an absent one is five rows and a
/// zero one is a single row; the offset skips five rows per page before the
/// one asked for, whatever the limit.
pub proof fn law_listing_limit_and_offset(page: Option<u32>, limit: Option<u32>)
    ensures
        limit matches Some(n) ==> (n >= 1 ==> effective_limit(&(PaginationParams { page, limit }))
            == n),
        limit is None ==> effective_limit(&(PaginationParams { page, limit })) == 5,
        limit == Some(0u32) ==> effective_limit(&(PaginationParams { page, limit })) == 1,
        page matches Some(n) ==> (n >= 1 ==> effective_page(&(PaginationParams { page, limit }))
            == n),
        (page is None || page == Some(0u32)) ==> effective_page(
            &(PaginationParams { page, limit }),
        ) == 1,
{
}

} // verus!
