//! The dashboard: recent activities in words, the first error to report,
//! and the latest report of each tracker on the map.
use vstd::prelude::*;
use vstd::string::*;
use crate::auth::AuthenticatedUser;
use crate::time::{
    elapsed_seconds, elapsed_secs, format_relative_time, relative_time_text, span_fits, Stamp,
};

verus! {

broadcast use vstd::string::group_string_axioms;

/// The kinds of activity.
#[derive(PartialEq, Eq, Structural, Clone, Copy, Debug)]
pub enum ActivityKind {
    Delivery,
    Meeting,
    TrialT1,
}

/// How the dashboard names a kind of activity.
pub open spec fn activity_label(k: ActivityKind) -> Seq<char> {
    match k {
        ActivityKind::Delivery => "Delivery"@,
        ActivityKind::Meeting => "Meeting"@,
        ActivityKind::TrialT1 => "Trial T1"@,
    }
}

impl ActivityKind {
    /// How the dashboard names this kind of activity.
    pub fn label(&self) -> (s: &'static str)
        ensures
            s@ == activity_label(*self),
    {
        match self {
            ActivityKind::Delivery => "Delivery",
            ActivityKind::Meeting => "Meeting",
            ActivityKind::TrialT1 => "Trial T1",
        }
    }
}

/// An activity as the dashboard reads it: whether it has finished, when it
/// was created, the name of its contact when the contact is
/// known, and its kind.
pub struct ActivityRow {
    pub finished: bool,
    pub created_at: Stamp,
    pub contact_name: Option<String>,
    pub kind: ActivityKind,
}

/// An activity as the dashboard lists it.
pub struct FormattedActivity {
    pub is_active: bool,
    pub time_ago: String,
    pub contact_name: String,
    pub activity_type: String,
}

/// The name shown for an activity's contact.
pub open spec fn contact_label(name: Option<String>) -> Seq<char> {
    match name {
        Some(n) => n@,
        None => "Unknown Contact"@,
    }
}

/// Whether `f` lists `a` as seen at `now`.
pub open spec fn lists_activity(a: ActivityRow, now: Stamp, f: FormattedActivity) -> bool {
    &&& f.is_active == !a.finished
    &&& f.time_ago@ == relative_time_text(elapsed_secs(now, a.created_at))
    &&& f.contact_name@ == contact_label(a.contact_name)
    &&& f.activity_type@ == activity_label(a.kind)
}

/// Whether the age of an activity seen at `now` can be counted in seconds.
pub open spec fn age_fits(a: ActivityRow, now: Stamp) -> bool {
    span_fits(now, a.created_at)
}

/// An activity as the dashboard lists it at `now`: active until finished,
/// its age in words, its contact's name or `Unknown Contact`, its kind.
pub fn format_activity(a: ActivityRow, now: Stamp) -> (f: FormattedActivity)
    requires
        age_fits(a, now),
    ensures
        lists_activity(a, now, f),
{
    let contact_name = match a.contact_name {
        Some(n) => n,
        None => String::from_str("Unknown Contact"),
    };
    FormattedActivity {
        is_active: !a.finished,
        time_ago: format_relative_time(elapsed_seconds(now, a.created_at)),
        contact_name,
        activity_type: String::from_str(a.kind.label()),
    }
}

/// The dashboard's list of recent activities at `now`, one entry per
/// activity, in the order given.
pub fn format_activities(rows: Vec<ActivityRow>, now: Stamp) -> (r: Vec<FormattedActivity>)
    requires
        forall|i: int| 0 <= i < rows@.len() ==> age_fits(#[trigger] rows@[i], now),
    ensures
        r@.len() == rows@.len(),
        forall|i: int|
            0 <= i < rows@.len() ==> lists_activity(rows@[i], now, #[trigger] r@[i]),
{
    let ghost given = rows@;
    let mut rows = rows;
    let mut r: Vec<FormattedActivity> = Vec::new();
    while rows.len() > 0
        invariant
            r@.len() + rows@.len() == given.len(),
            rows@ == given.subrange(r@.len() as int, given.len() as int),
            forall|i: int| 0 <= i < given.len() ==> age_fits(#[trigger] given[i], now),
            forall|i: int| 0 <= i < r@.len() ==> lists_activity(given[i], now, #[trigger] r@[i]),
        decreases rows@.len(),
    {
        let ghost k = r@.len() as int;
        let a = rows.remove(0);
        assert(a == given[k]);
        assert(rows@ =~= given.subrange(k + 1, given.len() as int));
        r.push(format_activity(a, now));
    }
    r
}

/// The first error the dashboard reports: listing the activities, then
/// reaching the live store, then listing the trips, then listing the
/// trackers, each later one with a prefix that says which step failed.
pub open spec fn dashboard_error_text(
    activities: Option<String>,
    store: Option<String>,
    trips: Option<String>,
    trackers: Option<String>,
) -> Option<Seq<char>> {
    match (activities, store, trips, trackers) {
        (Some(e), _, _, _) => Some(e@),
        (None, Some(e), _, _) => Some("Redis connection failed: "@ + e@),
        (None, None, Some(e), _) => Some("Failed to get active trips: "@ + e@),
        (None, None, None, Some(e)) => Some("Failed to get trackers: "@ + e@),
        _ => None,
    }
}

/// A prefix and a detail.
fn prefixed(prefix: &str, detail: String) -> (s: String)
    ensures
        s@ == prefix@ + detail@,
{
    let mut s = String::from_str(prefix);
    s.append(detail.as_str());
    s
}

/// The error the dashboard shows, from what failed while it was fetched.
pub fn dashboard_error(
    activities: Option<String>,
    store: Option<String>,
    trips: Option<String>,
    trackers: Option<String>,
) -> (r: Option<String>)
    ensures
        match r {
            Some(s) => dashboard_error_text(activities, store, trips, trackers) == Some(s@),
            None => dashboard_error_text(activities, store, trips, trackers) is None,
        },
{
    match (activities, store, trips, trackers) {
        (Some(e), _, _, _) => Some(e),
        (None, Some(e), _, _) => Some(prefixed("Redis connection failed: ", e)),
        (None, None, Some(e), _) => Some(prefixed("Failed to get active trips: ", e)),
        (None, None, None, Some(e)) => Some(prefixed("Failed to get trackers: ", e)),
        _ => None,
    }
}

/// Where the latest report of a tracker stands among the reports on the
/// map, by the reports' tracker numbers: the first whose number is the
/// tracker's, read as unsigned.
pub fn payload_index(payload_ids: &Vec<u32>, tracker_id: i32) -> (r: Option<usize>)
    ensures
        match r {
            Some(i) => i < payload_ids@.len() && payload_ids@[i as int] == tracker_id as u32
                && forall|j: int| 0 <= j < i ==> payload_ids@[j] != tracker_id as u32,
            None => forall|j: int|
                0 <= j < payload_ids@.len() ==> payload_ids@[j] != tracker_id as u32,
        },
{
    let wanted = tracker_id as u32;
    let mut i: usize = 0;
    while i < payload_ids.len()
        invariant
            i <= payload_ids@.len(),
            wanted == tracker_id as u32,
            forall|j: int| 0 <= j < i ==> payload_ids@[j] != wanted,
        decreases payload_ids@.len() - i,
    {
        if payload_ids[i] == wanted {
            return Some(i);
        }
        i = i + 1;
    }
    None
}


/// What a count query of the dashboard shows: its count, or zero when it
/// failed.
pub fn count_or_zero(counted: Result<u64, String>) -> (n: u64)
    ensures
        match counted {
            Ok(c) => n == c,
            Err(_) => n == 0,
        },
{
    match counted {
        Ok(c) => c,
        Err(_) => 0,
    }
}

/// The dashboard's counts of the day and of the fleet.
pub struct DashboardCounts {
    pub active_activities_today: u64,
    pub all_activities_today: u64,
    pub assigned_cars: u64,
    pub all_cars: u64,
    pub total_trackers: u64,
    pub car_checks_today: u64,
}

/// What the dashboard fetched once the live store was reached: the active
/// trips, the trackers with their cars, and the latest reports read for
/// those trackers.
pub struct LiveParts<T, P, A> {
    pub trips: Result<Vec<A>, String>,
    pub trackers: Result<Vec<T>, String>,
    pub payloads: Vec<P>,
}

/// The dashboard page, over the types of its trackers, reports and trips.
pub struct DashboardTemplate<T, P, A> {
    pub error: Option<String>,
    pub username: String,
    pub role: String,
    pub active_activities_today: u64,
    pub all_activities_today: u64,
    pub assigned_cars: u64,
    pub all_cars: u64,
    pub total_trackers: u64,
    pub car_checks_today: u64,
    pub activities: Vec<FormattedActivity>,
    pub trackers: Vec<T>,
    pub tracker_payloads: Vec<P>,
    pub active_trips: Vec<A>,
}

/// The failure text of a fetch, if it failed.
pub open spec fn failure<V>(r: Result<V, String>) -> Option<String> {
    match r {
        Ok(_) => None,
        Err(e) => Some(e),
    }
}

/// The failure of a live-store step, if the store was reached.
pub open spec fn live_failure<V, T, P, A>(
    live: Result<LiveParts<T, P, A>, String>,
    step: spec_fn(LiveParts<T, P, A>) -> Result<V, String>,
) -> Option<String> {
    match live {
        Ok(l) => failure(step(l)),
        Err(_) => None,
    }
}

/// The failure text of a fetch, if it failed.
fn failure_of<V>(r: &Result<V, String>) -> (e: Option<String>)
    ensures
        e == failure(*r),
{
    match r {
        Ok(_) => None,
        Err(e) => Some(e.clone()),
    }
}

/// The dashboard a user sees: the counts as given; the recent activities
/// when they were listed, else none; the active trips, the trackers and
/// their latest reports as far as the live store gave them, else none; and
/// the first failure, in the order the dashboard fetches (activities, live
/// store, trips, trackers), as its error.
pub fn dashboard_page<T, P, A>(
    user: &AuthenticatedUser,
    counts: DashboardCounts,
    activities: Result<Vec<FormattedActivity>, String>,
    live: Result<LiveParts<T, P, A>, String>,
) -> (t: DashboardTemplate<T, P, A>)
    ensures
        t.username@ == user.username@,
        t.role@ == user.role@,
        t.active_activities_today == counts.active_activities_today,
        t.all_activities_today == counts.all_activities_today,
        t.assigned_cars == counts.assigned_cars,
        t.all_cars == counts.all_cars,
        t.total_trackers == counts.total_trackers,
        t.car_checks_today == counts.car_checks_today,
        match activities {
            Ok(v) => t.activities@ == v@,
            Err(_) => t.activities@.len() == 0,
        },
        match live {
            Ok(l) => {
                &&& match l.trips {
                    Ok(a) => t.active_trips@ == a@,
                    Err(_) => t.active_trips@.len() == 0,
                }
                &&& match l.trackers {
                    Ok(v) => t.trackers@ == v@ && t.tracker_payloads@ == l.payloads@,
                    Err(_) => t.trackers@.len() == 0 && t.tracker_payloads@.len() == 0,
                }
            },
            Err(_) => t.active_trips@.len() == 0 && t.trackers@.len() == 0
                && t.tracker_payloads@.len() == 0,
        },
        match t.error {
            Some(s) => dashboard_error_text(
                failure(activities),
                failure(live),
                live_failure(live, |l: LiveParts<T, P, A>| l.trips),
                live_failure(live, |l: LiveParts<T, P, A>| l.trackers),
            ) == Some(s@),
            None => dashboard_error_text(
                failure(activities),
                failure(live),
                live_failure(live, |l: LiveParts<T, P, A>| l.trips),
                live_failure(live, |l: LiveParts<T, P, A>| l.trackers),
            ) is None,
        },
{
    let activities_error = failure_of(&activities);
    let activities = match activities {
        Ok(v) => v,
        Err(_) => Vec::new(),
    };
    let (store_error, trips_error, trackers_error, trackers, tracker_payloads, active_trips) =
        match live {
        Ok(l) => {
            let trips_error = failure_of(&l.trips);
            let trackers_error = failure_of(&l.trackers);
            let active_trips = match l.trips {
                Ok(a) => a,
                Err(_) => Vec::new(),
            };
            let (trackers, tracker_payloads) = match l.trackers {
                Ok(v) => (v, l.payloads),
                Err(_) => (Vec::new(), Vec::new()),
            };
            (None, trips_error, trackers_error, trackers, tracker_payloads, active_trips)
        },
        Err(e) => (Some(e), None, None, Vec::new(), Vec::new(), Vec::new()),
    };
    let error = dashboard_error(activities_error, store_error, trips_error, trackers_error);
    DashboardTemplate {
        error,
        username: user.username.clone(),
        role: user.role.clone(),
        active_activities_today: counts.active_activities_today,
        all_activities_today: counts.all_activities_today,
        assigned_cars: counts.assigned_cars,
        all_cars: counts.all_cars,
        total_trackers: counts.total_trackers,
        car_checks_today: counts.car_checks_today,
        activities,
        trackers,
        tracker_payloads,
        active_trips,
    }
}

} // verus!
