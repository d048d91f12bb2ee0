//! The server-rendered pages: who may open them, how their forms read, and
//! what each page shows once its rows are fetched.
use vstd::prelude::*;
use vstd::string::*;
use crate::auth::{role_name, AuthenticatedUser, UserRoleKind};
use crate::models::PageWindow;
use crate::csv_export::{wib_field, AuditRecord};
use crate::text::{signed_decimal, i64_text, text_eq};
use crate::time::{
    clock_pattern, formatted_utc, parsed_date_midnight, wib_clock_text, wib_date_bounds,
    wib_date_window, wib_datetime_text, WIB_OFFSET,
};

verus! {

broadcast use vstd::string::group_string_axioms;

/// Why a page was refused.
#[derive(PartialEq, Eq, Structural, Clone, Copy, Debug)]
pub enum PageError {
    Forbidden,
    InternalServerError,
}

/// The HTTP status of a refused page.
pub open spec fn page_status_of(e: PageError) -> u16 {
    match e {
        PageError::Forbidden => 403,
        PageError::InternalServerError => 500,
    }
}

impl PageError {
    /// The HTTP status of this refusal.
    pub fn status(&self) -> (s: u16)
        ensures
            s == page_status_of(*self),
    {
        match self {
            PageError::Forbidden => 403,
            PageError::InternalServerError => 500,
        }
    }
}

/// Whether a role may open the administration pages (lists and forms).
pub open spec fn admin_pages_allowed(role: Seq<char>) -> bool {
    role == "Admin"@
}

/// Whether a role may open the monitoring pages (live map and audit):
/// everyone but security staff.
pub open spec fn monitoring_pages_allowed(role: Seq<char>) -> bool {
    role != "Security"@
}

/// Lets only administrators through to an administration page.
pub fn admin_page_guard(user: &AuthenticatedUser) -> (r: Result<(), PageError>)
    ensures
        admin_pages_allowed(user.role@) ==> r is Ok,
        !admin_pages_allowed(user.role@) ==> r == Err::<(), PageError>(PageError::Forbidden),
{
    if text_eq(user.role.as_str(), "Admin") {
        Ok(())
    } else {
        Err(PageError::Forbidden)
    }
}

/// Keeps security staff away from a monitoring page.
pub fn monitoring_page_guard(user: &AuthenticatedUser) -> (r: Result<(), PageError>)
    ensures
        monitoring_pages_allowed(user.role@) ==> r is Ok,
        !monitoring_pages_allowed(user.role@) ==> r == Err::<(), PageError>(
            PageError::Forbidden,
        ),
{
    if text_eq(user.role.as_str(), "Security") {
        Err(PageError::Forbidden)
    } else {
        Ok(())
    }
}

/// Only administrators open the administration pages; everyone but
/// security staff opens the monitoring pages, a name of no role included.
pub proof fn law_pages_by_role(k: UserRoleKind, other: Seq<char>)
    requires
        other != role_name(UserRoleKind::Admin),
        other != role_name(UserRoleKind::Security),
        other != role_name(UserRoleKind::Employee),
    ensures
        admin_pages_allowed(role_name(k)) <==> k == UserRoleKind::Admin,
        monitoring_pages_allowed(role_name(k)) <==> k != UserRoleKind::Security,
        !admin_pages_allowed(other) && monitoring_pages_allowed(other),
{
    reveal_strlit("Admin");
    reveal_strlit("Security");
    reveal_strlit("Employee");
    assert("Admin"@.len() != "Security"@.len());
    assert("Admin"@.len() != "Employee"@.len());
    assert("Security"@[0] != "Employee"@[0]);
}

/// The kinds of car.
#[derive(PartialEq, Eq, Structural, Clone, Copy, Debug)]
pub enum CarKind {
    Passenger,
    Delivery,
}

/// The kinds of contact.
#[derive(PartialEq, Eq, Structural, Clone, Copy, Debug)]
pub enum ContactKind {
    Consumer,
    Supplier,
}

/// The kinds of car status record.
#[derive(PartialEq, Eq, Structural, Clone, Copy, Debug)]
pub enum StatusKind {
    Departure,
    Return,
}

/// The car kind a form's choice names: `Delivery`, else a passenger car.
pub open spec fn car_kind_of(choice: Seq<char>) -> CarKind {
    if choice == "Delivery"@ {
        CarKind::Delivery
    } else {
        CarKind::Passenger
    }
}

/// The contact kind a form's choice names: `Supplier`, else a consumer.
pub open spec fn contact_kind_of(choice: Seq<char>) -> ContactKind {
    if choice == "Supplier"@ {
        ContactKind::Supplier
    } else {
        ContactKind::Consumer
    }
}

/// The status kind a form's choice names: `Departure`, else a return.
pub open spec fn status_kind_of(choice: Seq<char>) -> StatusKind {
    if choice == "Departure"@ {
        StatusKind::Departure
    } else {
        StatusKind::Return
    }
}

/// Reads the car kind of a form.
pub fn car_kind_from_form(choice: &str) -> (k: CarKind)
    ensures
        k == car_kind_of(choice@),
{
    if text_eq(choice, "Delivery") {
        CarKind::Delivery
    } else {
        CarKind::Passenger
    }
}

/// Reads the contact kind of a form.
pub fn contact_kind_from_form(choice: &str) -> (k: ContactKind)
    ensures
        k == contact_kind_of(choice@),
{
    if text_eq(choice, "Supplier") {
        ContactKind::Supplier
    } else {
        ContactKind::Consumer
    }
}

/// Reads the status kind of a form.
pub fn status_kind_from_form(choice: &str) -> (k: StatusKind)
    ensures
        k == status_kind_of(choice@),
{
    if text_eq(choice, "Departure") {
        StatusKind::Departure
    } else {
        StatusKind::Return
    }
}

/// A tracker row; times are Unix seconds.
pub struct TrackerRecord {
    pub tracker_id: i32,
    pub name: String,
    pub created_at: i64,
    pub updated_at: i64,
    pub deleted_at: Option<i64>,
}

impl Clone for TrackerRecord {
    fn clone(&self) -> (r: Self)
        ensures
            r == *self,
    {
        TrackerRecord {
            tracker_id: self.tracker_id,
            name: self.name.clone(),
            created_at: self.created_at,
            updated_at: self.updated_at,
            deleted_at: self.deleted_at,
        }
    }
}

/// A car row; times are Unix seconds.
pub struct CarRecord {
    pub car_id: i32,
    pub name: String,
    pub police_number: String,
    pub active: i8,
    pub car_type: CarKind,
    pub tracker_id: Option<i32>,
    pub created_at: i64,
    pub updated_at: i64,
    pub deleted_at: Option<i64>,
}

/// A car with the tracker fitted to it.
pub struct CarWithTracker {
    pub car: CarRecord,
    pub tracker: Option<TrackerRecord>,
}

/// A tracker with the car it is fitted to.
pub struct TrackerWithCar {
    pub tracker: TrackerRecord,
    pub car: Option<CarRecord>,
}

/// The car list page.
pub struct CarsTemplate {
    pub username: String,
    pub role: String,
    pub cars: Vec<CarWithTracker>,
    pub available_trackers: Vec<TrackerRecord>,
    pub editing_car: Option<CarRecord>,
}

/// The car form.
pub struct CarForm {
    pub name: String,
    pub police_number: String,
    pub car_type: String,
    pub tracker_id: Option<i32>,
}

/// The values a car form stores: a new or edited car is active, of the
/// chosen kind, fitted with the chosen tracker, and stamped with `now`.
pub struct CarValues {
    pub name: String,
    pub police_number: String,
    pub active: i8,
    pub car_type: CarKind,
    pub tracker_id: Option<i32>,
    pub stamped_at: i64,
}

/// The values a car form stores.
pub fn car_values(form: &CarForm, now: i64) -> (v: CarValues)
    ensures
        v.name@ == form.name@,
        v.police_number@ == form.police_number@,
        v.active == 1,
        v.car_type == car_kind_of(form.car_type@),
        v.tracker_id == form.tracker_id,
        v.stamped_at == now,
{
    CarValues {
        name: form.name.clone(),
        police_number: form.police_number.clone(),
        active: 1,
        car_type: car_kind_from_form(form.car_type.as_str()),
        tracker_id: form.tracker_id,
        stamped_at: now,
    }
}

/// The tracker of the car being edited, if any.
pub open spec fn editing_tracker_of(editing_car: Option<CarRecord>) -> Option<i32> {
    match editing_car {
        Some(c) => c.tracker_id,
        None => None,
    }
}

/// Whether a tracker is fitted to some car other than the one being edited.
pub open spec fn fitted_elsewhere(cars: Seq<CarRecord>, editing: Option<i32>, tracker_id: i32) -> bool {
    &&& editing != Some(tracker_id)
    &&& exists|i: int| 0 <= i < cars.len() && #[trigger] cars[i].tracker_id == Some(tracker_id)
}

/// The trackers a car form may offer: those fitted to no car, and the one
/// fitted to the car being edited; in their listed order.
pub open spec fn offered_trackers(
    cars: Seq<CarRecord>,
    editing: Option<i32>,
    trackers: Seq<TrackerRecord>,
) -> Seq<TrackerRecord> {
    trackers.filter(|t: TrackerRecord| !fitted_elsewhere(cars, editing, t.tracker_id))
}

/// The trackers fitted to cars, other than the one the edited car carries.
fn fitted_tracker_ids(cars: &Vec<CarRecord>, editing: Option<i32>) -> (ids: Vec<i32>)
    ensures
        forall|t: i32| ids@.contains(t) <==> fitted_elsewhere(cars@, editing, t),
{
    let mut ids: Vec<i32> = Vec::new();
    let mut i: usize = 0;
    while i < cars.len()
        invariant
            i <= cars.len(),
            forall|t: i32|
                ids@.contains(t) <==> (editing != Some(t) && exists|j: int|
                    0 <= j < i && #[trigger] cars@[j].tracker_id == Some(t)),
        decreases cars.len() - i,
    {
        let fitted = cars[i].tracker_id;
        let ghost before = ids@;
        match fitted {
            Some(t) => {
                let skip = match editing {
                    Some(e) => e == t,
                    None => false,
                };
                if !skip {
                    ids.push(t);
                }
            },
            None => {},
        }
        proof {
            assert forall|t: i32|
                ids@.contains(t) <==> (editing != Some(t) && exists|j: int|
                    0 <= j < i + 1 && #[trigger] cars@[j].tracker_id == Some(t)) by {
                if ids@.contains(t) && !before.contains(t) {
                    assert(cars@[i as int].tracker_id == Some(t));
                }
                if editing != Some(t) && exists|j: int|
                    0 <= j < i + 1 && #[trigger] cars@[j].tracker_id == Some(t) {
                    let j = choose|j: int| 0 <= j < i + 1 && #[trigger] cars@[j].tracker_id == Some(t);
                    if j == i {
                        assert(ids@[ids@.len() - 1] == t);
                    } else {
                        assert(before.contains(t));
                        let k = choose|k: int| 0 <= k < before.len() && before[k] == t;
                        assert(ids@[k] == t);
                    }
                }
            }
        }
        i = i + 1;
    }
    ids
}

/// Whether a list of numbers holds one.
fn holds(ids: &Vec<i32>, t: i32) -> (b: bool)
    ensures
        b == ids@.contains(t),
{
    let mut k: usize = 0;
    while k < ids.len()
        invariant
            k <= ids.len(),
            forall|j: int| 0 <= j < k ==> ids@[j] != t,
        decreases ids.len() - k,
    {
        if ids[k] == t {
            assert(ids@[k as int] == t);
            return true;
        }
        k = k + 1;
    }
    false
}

/// The trackers the car form offers: every listed tracker not fitted to a
/// car, plus the one fitted to the car being edited.
pub fn available_trackers(
    cars: &Vec<CarRecord>,
    editing_car: &Option<CarRecord>,
    trackers: &Vec<TrackerRecord>,
) -> (r: Vec<TrackerRecord>)
    ensures
        r@ == offered_trackers(cars@, editing_tracker_of(*editing_car), trackers@),
{
    let editing = match editing_car {
        Some(c) => c.tracker_id,
        None => None,
    };
    let fitted = fitted_tracker_ids(cars, editing);
    let ghost keep = |t: TrackerRecord| !fitted_elsewhere(cars@, editing, t.tracker_id);
    let mut r: Vec<TrackerRecord> = Vec::new();
    let mut i: usize = 0;
    while i < trackers.len()
        invariant
            i <= trackers.len(),
            keep == (|t: TrackerRecord| !fitted_elsewhere(cars@, editing, t.tracker_id)),
            forall|t: i32| fitted@.contains(t) <==> fitted_elsewhere(cars@, editing, t),
            r@ == trackers@.subrange(0, i as int).filter(keep),
        decreases trackers.len() - i,
    {
        proof {
            assert(trackers@.subrange(0, i + 1) =~= trackers@.subrange(0, i as int).push(
                trackers@[i as int],
            ));
            trackers@.subrange(0, i as int).lemma_filter_push(trackers@[i as int], keep);
        }
        if !holds(&fitted, trackers[i].tracker_id) {
            r.push(trackers[i].clone());
        }
        i = i + 1;
    }
    assert(trackers@.subrange(0, trackers@.len() as int) =~= trackers@);
    r
}

/// The car list page for a user.
pub fn cars_page(
    user: &AuthenticatedUser,
    cars: Vec<CarWithTracker>,
    available_trackers: Vec<TrackerRecord>,
    editing_car: Option<CarRecord>,
) -> (t: CarsTemplate)
    ensures
        t.username@ == user.username@,
        t.role@ == user.role@,
        t.cars == cars,
        t.available_trackers == available_trackers,
        t.editing_car == editing_car,
{
    CarsTemplate {
        username: user.username.clone(),
        role: user.role.clone(),
        cars,
        available_trackers,
        editing_car,
    }
}


/// The tracker list page.
pub struct TrackersTemplate {
    pub username: String,
    pub role: String,
    pub trackers: Vec<TrackerWithCar>,
    pub editing_tracker: Option<TrackerRecord>,
    pub current_page: u64,
    pub total_pages: u64,
    pub pages: Vec<u64>,
}

/// The tracker form.
pub struct TrackerForm {
    pub name: String,
}

/// The tracker list page for a user, showing the page `window` places.
pub fn trackers_page(
    user: &AuthenticatedUser,
    trackers: Vec<TrackerWithCar>,
    editing_tracker: Option<TrackerRecord>,
    window: PageWindow,
) -> (t: TrackersTemplate)
    ensures
        t.username@ == user.username@,
        t.role@ == user.role@,
        t.trackers == trackers,
        t.editing_tracker == editing_tracker,
        t.current_page == window.current_page,
        t.total_pages == window.total_pages,
        t.pages@ == window.pages@,
{
    TrackersTemplate {
        username: user.username.clone(),
        role: user.role.clone(),
        trackers,
        editing_tracker,
        current_page: window.current_page,
        total_pages: window.total_pages,
        pages: window.pages,
    }
}

/// A contact row; its coordinates as the page prints them, times as Unix
/// seconds.
pub struct ContactRecord {
    pub contact_id: i32,
    pub name: String,
    pub latitude: String,
    pub longitude: String,
    pub contact_type: ContactKind,
    pub created_at: i64,
    pub updated_at: i64,
    pub deleted_at: Option<i64>,
}

/// The contact list page.
pub struct ContactsTemplate {
    pub username: String,
    pub role: String,
    pub contacts: Vec<ContactRecord>,
    pub editing_contact: Option<ContactRecord>,
    pub current_page: u64,
    pub total_pages: u64,
    pub pages: Vec<u64>,
}

/// The contact list page for a user, showing the page `window` places.
pub fn contacts_page(
    user: &AuthenticatedUser,
    contacts: Vec<ContactRecord>,
    editing_contact: Option<ContactRecord>,
    window: PageWindow,
) -> (t: ContactsTemplate)
    ensures
        t.username@ == user.username@,
        t.role@ == user.role@,
        t.contacts == contacts,
        t.editing_contact == editing_contact,
        t.current_page == window.current_page,
        t.total_pages == window.total_pages,
        t.pages@ == window.pages@,
{
    ContactsTemplate {
        username: user.username.clone(),
        role: user.role.clone(),
        contacts,
        editing_contact,
        current_page: window.current_page,
        total_pages: window.total_pages,
        pages: window.pages,
    }
}

/// A car status row; its gas level and kilometres as the page prints them,
/// times as Unix seconds.
pub struct StatusRecord {
    pub car_status_id: i32,
    pub car_id: i32,
    pub gas_level: String,
    pub kilometres: String,
    pub status_type: StatusKind,
    pub recorded_at: i64,
    pub created_at: i64,
    pub updated_at: i64,
    pub deleted_at: Option<i64>,
}

/// A status record with the car it is about.
pub struct StatusWithCar {
    pub status: StatusRecord,
    pub car: Option<CarRecord>,
}

/// The car history page.
pub struct CarHistoryTemplate {
    pub username: String,
    pub role: String,
    pub history: Vec<StatusWithCar>,
    pub cars: Vec<CarRecord>,
    pub editing_status: Option<StatusRecord>,
    pub current_page: u64,
    pub total_pages: u64,
    pub pages: Vec<u64>,
    pub error: Option<String>,
}

/// How the car history page is to be shown again after a form: the record
/// to edit, the page, and the error to show.
pub struct HistoryView {
    pub edit: Option<i32>,
    pub page: Option<u64>,
    pub error: Option<String>,
}

/// The error shown when a status form's time cannot be read.
pub open spec fn invalid_recorded_at_text() -> Seq<char> {
    "Invalid Recorded At date/time format."@
}

/// The error shown when the status record to update does not exist.
pub open spec fn status_not_found_text(id: int) -> Seq<char> {
    "Status record with ID "@ + signed_decimal(id) + " not found."@
}

/// The view after a status form whose time could not be read.
pub fn invalid_recorded_at(edit: Option<i32>, page: Option<u64>) -> (v: HistoryView)
    ensures
        v.edit == edit,
        v.page == page,
        v.error matches Some(e) && e@ == invalid_recorded_at_text(),
{
    HistoryView {
        edit,
        page,
        error: Some(String::from_str("Invalid Recorded At date/time format.")),
    }
}

/// The view after updating a status record that does not exist: the
/// record stays selected for editing.
pub fn status_not_found(id: i32, page: Option<u64>) -> (v: HistoryView)
    ensures
        v.edit == Some(id),
        v.page == page,
        v.error matches Some(e) && e@ == status_not_found_text(id as int),
{
    let mut msg = String::from_str("Status record with ID ");
    msg.append(i64_text(id as i64).as_str());
    msg.append(" not found.");
    HistoryView { edit: Some(id), page, error: Some(msg) }
}

/// The view after a store into the status table: on success the listing,
/// on failure the error, with the record still selected when it was an
/// update.
pub fn history_after_store(
    edit: Option<i32>,
    page: Option<u64>,
    stored: Result<(), String>,
) -> (v: HistoryView)
    ensures
        v.page == page,
        match stored {
            Ok(()) => v.edit is None && v.error is None,
            Err(e) => v.edit == edit && v.error == Some(e),
        },
{
    match stored {
        Ok(()) => HistoryView { edit: None, page, error: None },
        Err(e) => HistoryView { edit, page, error: Some(e) },
    }
}

/// The status form, with its gas level and kilometres as the form sent them.
pub struct CarStatusForm {
    pub car_id: i32,
    pub gas_level: String,
    pub kilometres: String,
    pub status_type: String,
    pub recorded_at: String,
}

/// The values a status form stores: the time read from the form, and
/// `now` as the time of the change.
pub struct StatusValues {
    pub car_id: i32,
    pub status_type: StatusKind,
    pub recorded_at: i64,
    pub stamped_at: i64,
}

/// Reads a status form: `None` when its time is not `YYYY-MM-DDTHH:MM`.
pub fn status_values(form: &CarStatusForm, now: i64) -> (r: Option<StatusValues>)
    ensures
        match crate::time::parsed_form_datetime(form.recorded_at@) {
            Some(t) => r matches Some(v) && v.car_id == form.car_id && v.status_type
                == status_kind_of(form.status_type@) && v.recorded_at == t && v.stamped_at == now,
            None => r is None,
        },
{
    let recorded_at = match crate::time::parse_form_datetime(form.recorded_at.as_str()) {
        Some(t) => t,
        None => return None,
    };
    Some(
        StatusValues {
            car_id: form.car_id,
            status_type: status_kind_from_form(form.status_type.as_str()),
            recorded_at,
            stamped_at: now,
        },
    )
}

/// The car history page for a user.
pub fn history_page(
    user: &AuthenticatedUser,
    history: Vec<StatusWithCar>,
    cars: Vec<CarRecord>,
    editing_status: Option<StatusRecord>,
    window: PageWindow,
    error: Option<String>,
) -> (t: CarHistoryTemplate)
    ensures
        t.username@ == user.username@,
        t.role@ == user.role@,
        t.history == history,
        t.cars == cars,
        t.editing_status == editing_status,
        t.current_page == window.current_page,
        t.total_pages == window.total_pages,
        t.pages@ == window.pages@,
        t.error == error,
{
    CarHistoryTemplate {
        username: user.username.clone(),
        role: user.role.clone(),
        history,
        cars,
        editing_status,
        current_page: window.current_page,
        total_pages: window.total_pages,
        pages: window.pages,
        error,
    }
}


/// Whose audit trail the audit page lists.
#[derive(PartialEq, Eq, Structural, Clone, Copy, Debug)]
pub enum AuditTarget {
    Tracker(i32),
    Car(i32),
    All,
}

/// The audit query of a request: whose trail, and the UTC bounds of the
/// WIB day asked for, when one was asked for and could be read.
pub struct AuditQuery {
    pub target: AuditTarget,
    pub window: Option<(i64, i64)>,
}

/// The target a choice names: `tracker` or `car` with the given number,
/// anything else everyone.
pub open spec fn audit_target_of(choice: Seq<char>, target: i32) -> AuditTarget {
    if choice == "tracker"@ {
        AuditTarget::Tracker(target)
    } else if choice == "car"@ {
        AuditTarget::Car(target)
    } else {
        AuditTarget::All
    }
}

/// Whether `w` is the window a date text gives: the WIB day of the date
/// when it reads as `YYYY-MM-DD`, else no window at all.
pub open spec fn window_of_date(w: Option<(i64, i64)>, date: Seq<char>) -> bool {
    match parsed_date_midnight(date) {
        Some(m) => w matches Some(b) && b.0 == wib_date_window(m).0 && b.1 == wib_date_window(
            m,
        ).1,
        None => w is None,
    }
}

/// Whether an audit record is among those a query selects: of the target,
/// and recorded within the window, both bounds included.
pub open spec fn audit_query_selects(q: AuditQuery, a: AuditRecord) -> bool {
    &&& match q.target {
        AuditTarget::Tracker(t) => a.tracker_id == t,
        AuditTarget::Car(c) => a.car_id == Some(c),
        AuditTarget::All => true,
    }
    &&& match q.window {
        Some(b) => b.0 <= a.recorded_at <= b.1,
        None => true,
    }
}

/// Reads the target of an audit request.
fn audit_target(choice: &str, target: i32) -> (t: AuditTarget)
    ensures
        t == audit_target_of(choice@, target),
{
    if text_eq(choice, "tracker") {
        AuditTarget::Tracker(target)
    } else if text_eq(choice, "car") {
        AuditTarget::Car(target)
    } else {
        AuditTarget::All
    }
}

/// The audit page's query: only when a choice, a target and a date are
/// all given; a date that does not read leaves the day open.
pub fn audit_page_query(choice: &Option<String>, target: Option<i32>, date: &Option<String>) -> (q:
    Option<AuditQuery>)
    ensures
        match (choice, target, date) {
            (Some(c), Some(t), Some(d)) => q matches Some(v) && v.target == audit_target_of(
                c@,
                t,
            ) && window_of_date(v.window, d@),
            _ => q is None,
        },
{
    match (choice, target, date) {
        (Some(c), Some(t), Some(d)) => Some(
            AuditQuery {
                target: audit_target(c.as_str(), t),
                window: wib_date_bounds(d.as_str()),
            },
        ),
        _ => None,
    }
}

/// The export's query: the target when a choice and a target are both
/// given, else everyone; the day when a date is given and reads.
pub fn audit_export_query(choice: &Option<String>, target: Option<i32>, date: &Option<String>) -> (q:
    AuditQuery)
    ensures
        q.target == match (choice, target) {
            (Some(c), Some(t)) => audit_target_of(c@, t),
            _ => AuditTarget::All,
        },
        match date {
            Some(d) => window_of_date(q.window, d@),
            None => q.window is None,
        },
{
    let t = match (choice, target) {
        (Some(c), Some(t)) => audit_target(c.as_str(), t),
        _ => AuditTarget::All,
    };
    let window = match date {
        Some(d) => wib_date_bounds(d.as_str()),
        None => None,
    };
    AuditQuery { target: t, window }
}

/// An audit record as the audit page shows it, its times in WIB.
pub struct FormattedAuditRecord {
    pub audit_id: i64,
    pub car_id: Option<i32>,
    pub tracker_id: i32,
    pub latitude: String,
    pub longitude: String,
    pub recorded_at_wib: String,
    pub time_wib: String,
    pub created_at_wib: String,
}

/// The WIB time of day of a UTC second, as the audit page prints it.
pub open spec fn wib_clock_field(secs: int) -> Option<Seq<char>> {
    if secs <= i64::MAX - WIB_OFFSET {
        formatted_utc(secs + WIB_OFFSET, clock_pattern())
    } else {
        None
    }
}

/// Whether every time of an audit record can be read.
pub open spec fn audit_times_readable(a: AuditRecord) -> bool {
    &&& wib_field(a.recorded_at as int) is Some
    &&& wib_clock_field(a.recorded_at as int) is Some
    &&& wib_field(a.created_at as int) is Some
}

/// Whether `f` shows the audit record `a`.
pub open spec fn shows_audit_record(a: AuditRecord, f: FormattedAuditRecord) -> bool {
    &&& f.audit_id == a.audit_id
    &&& f.car_id == a.car_id
    &&& f.tracker_id == a.tracker_id
    &&& f.latitude@ == a.latitude@
    &&& f.longitude@ == a.longitude@
    &&& wib_field(a.recorded_at as int) == Some(f.recorded_at_wib@)
    &&& wib_clock_field(a.recorded_at as int) == Some(f.time_wib@)
    &&& wib_field(a.created_at as int) == Some(f.created_at_wib@)
}

/// An audit record as the page shows it; `None` when one of its times lies
/// beyond chrono's calendar.
pub fn format_audit_record(a: &AuditRecord) -> (r: Option<FormattedAuditRecord>)
    ensures
        audit_times_readable(*a) ==> (r matches Some(f) && shows_audit_record(*a, f)),
        !audit_times_readable(*a) ==> r is None,
{
    let recorded_at_wib = match wib_datetime_text(a.recorded_at) {
        Some(s) => s,
        None => return None,
    };
    let time_wib = match wib_clock_text(a.recorded_at) {
        Some(s) => s,
        None => return None,
    };
    let created_at_wib = match wib_datetime_text(a.created_at) {
        Some(s) => s,
        None => return None,
    };
    Some(
        FormattedAuditRecord {
            audit_id: a.audit_id,
            car_id: a.car_id,
            tracker_id: a.tracker_id,
            latitude: a.latitude.clone(),
            longitude: a.longitude.clone(),
            recorded_at_wib,
            time_wib,
            created_at_wib,
        },
    )
}

/// The audit page.
pub struct AuditTemplate {
    pub username: String,
    pub role: String,
    pub trackers: Vec<TrackerRecord>,
    pub cars: Vec<CarRecord>,
    pub selected_choice: Option<String>,
    pub selected_target: Option<i32>,
    pub selected_date: Option<String>,
    pub audit_records: Vec<FormattedAuditRecord>,
    pub error: Option<String>,
}

/// The audit page when the trackers or the cars could not be listed: what
/// was listed so far, no selection, no records, and the error.
pub fn audit_page_unlisted(user: &AuthenticatedUser, trackers: Vec<TrackerRecord>, error: String) -> (t:
    AuditTemplate)
    ensures
        t.username@ == user.username@,
        t.role@ == user.role@,
        t.trackers == trackers,
        t.cars@.len() == 0,
        t.selected_choice is None,
        t.selected_target is None,
        t.selected_date is None,
        t.audit_records@.len() == 0,
        t.error == Some(error),
{
    AuditTemplate {
        username: user.username.clone(),
        role: user.role.clone(),
        trackers,
        cars: Vec::new(),
        selected_choice: None,
        selected_target: None,
        selected_date: None,
        audit_records: Vec::new(),
        error: Some(error),
    }
}

/// The audit page when the query of the selection failed: the selection,
/// no records, and the error.
pub fn audit_page_unqueried(
    user: &AuthenticatedUser,
    trackers: Vec<TrackerRecord>,
    cars: Vec<CarRecord>,
    choice: String,
    target: i32,
    date: String,
    error: String,
) -> (t: AuditTemplate)
    ensures
        t.username@ == user.username@,
        t.role@ == user.role@,
        t.trackers == trackers,
        t.cars == cars,
        t.selected_choice == Some(choice),
        t.selected_target == Some(target),
        t.selected_date == Some(date),
        t.audit_records@.len() == 0,
        t.error == Some(error),
{
    AuditTemplate {
        username: user.username.clone(),
        role: user.role.clone(),
        trackers,
        cars,
        selected_choice: Some(choice),
        selected_target: Some(target),
        selected_date: Some(date),
        audit_records: Vec::new(),
        error: Some(error),
    }
}

/// The audit page with the records of the selection (none when nothing was
/// selected), in the order given; an internal error when a record's time
/// lies beyond chrono's calendar.
pub fn audit_page_shown(
    user: &AuthenticatedUser,
    trackers: Vec<TrackerRecord>,
    cars: Vec<CarRecord>,
    choice: Option<String>,
    target: Option<i32>,
    date: Option<String>,
    records: &Vec<AuditRecord>,
) -> (r: Result<AuditTemplate, PageError>)
    ensures
        (forall|i: int| 0 <= i < records@.len() ==> audit_times_readable(#[trigger] records@[i]))
            ==> r is Ok,
        r is Err ==> r == Err::<AuditTemplate, PageError>(PageError::InternalServerError),
        r matches Ok(t) ==> {
            &&& t.username@ == user.username@
            &&& t.role@ == user.role@
            &&& t.trackers == trackers
            &&& t.cars == cars
            &&& t.selected_choice == choice
            &&& t.selected_target == target
            &&& t.selected_date == date
            &&& t.error is None
            &&& t.audit_records@.len() == records@.len()
            &&& forall|i: int|
                0 <= i < records@.len() ==> shows_audit_record(
                    records@[i],
                    #[trigger] t.audit_records@[i],
                )
        },
{
    let mut shown: Vec<FormattedAuditRecord> = Vec::new();
    let mut i: usize = 0;
    while i < records.len()
        invariant
            i <= records@.len(),
            shown@.len() == i,
            forall|k: int| 0 <= k < i ==> shows_audit_record(records@[k], #[trigger] shown@[k]),
            forall|k: int| 0 <= k < i ==> audit_times_readable(#[trigger] records@[k]),
        decreases records@.len() - i,
    {
        match format_audit_record(&records[i]) {
            Some(f) => shown.push(f),
            None => return Err(PageError::InternalServerError),
        }
        i = i + 1;
    }
    Ok(
        AuditTemplate {
            username: user.username.clone(),
            role: user.role.clone(),
            trackers,
            cars,
            selected_choice: choice,
            selected_target: target,
            selected_date: date,
            audit_records: shown,
            error: None,
        },
    )
}

/// A CSV document sent as a download.
pub struct CsvResponse(pub Vec<u8>);

/// The file name the audit export is offered under.
pub open spec fn audit_export_disposition() -> Seq<char> {
    "attachment; filename=\"audit_export.csv\""@
}

impl CsvResponse {
    /// The `Content-Disposition` header of the download.
    pub fn disposition(&self) -> (d: &'static str)
        ensures
            d@ == audit_export_disposition(),
    {
        "attachment; filename=\"audit_export.csv\""
    }
}


/// The car form never offers a tracker fitted to another car, offers every
/// listed tracker that is fitted to no car, and keeps offering the tracker
/// of the car being edited.
pub proof fn law_offered_trackers(
    cars: Seq<CarRecord>,
    editing: Option<i32>,
    trackers: Seq<TrackerRecord>,
)
    ensures
        forall|i: int|
            0 <= i < offered_trackers(cars, editing, trackers).len() ==> !fitted_elsewhere(
                cars,
                editing,
                #[trigger] offered_trackers(cars, editing, trackers)[i].tracker_id,
            ),
        forall|i: int|
            0 <= i < trackers.len() && (editing == Some(trackers[i].tracker_id) || forall|j: int|
                0 <= j < cars.len() ==> cars[j].tracker_id != Some(trackers[i].tracker_id))
                ==> offered_trackers(cars, editing, trackers).contains(#[trigger] trackers[i]),
{
    let keep = |t: TrackerRecord| !fitted_elsewhere(cars, editing, t.tracker_id);
    assert forall|i: int| 0 <= i < offered_trackers(cars, editing, trackers).len() implies !fitted_elsewhere(
        cars,
        editing,
        #[trigger] offered_trackers(cars, editing, trackers)[i].tracker_id,
    ) by {
        trackers.lemma_filter_pred(keep, i);
    }
    assert forall|i: int|
        0 <= i < trackers.len() && (editing == Some(trackers[i].tracker_id) || forall|j: int|
            0 <= j < cars.len() ==> cars[j].tracker_id != Some(trackers[i].tracker_id))
            implies offered_trackers(cars, editing, trackers).contains(#[trigger] trackers[i]) by {
        trackers.lemma_filter_contains(keep, i);
    }
}

/// The export of a selection lists the records the audit page lists: when
/// a choice, a target and a date are all given, both queries select the
/// same records.
pub proof fn law_export_selects_what_page_lists(
    page_query: AuditQuery,
    export_query: AuditQuery,
    choice: Seq<char>,
    target: i32,
    date: Seq<char>,
    a: AuditRecord,
)
    requires
        page_query.target == audit_target_of(choice, target),
        window_of_date(page_query.window, date),
        export_query.target == audit_target_of(choice, target),
        window_of_date(export_query.window, date),
    ensures
        audit_query_selects(page_query, a) == audit_query_selects(export_query, a),
{
}

} // verus!
