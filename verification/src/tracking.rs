//! Tracker reports: where the live state of a tracker is kept, what a report
//! stores as a hardware test row, and which reports go on to trip checks.
use vstd::prelude::*;
use vstd::string::*;
use crate::models::{PayloadConnection, PayloadDateTime, PayloadNetwork, PayloadSatellites, PayloadStats};
use crate::error::MqttError;
use crate::text::{i64_text, lemma_signed_decimal_injective, signed_decimal};

verus! {

broadcast use vstd::string::group_string_axioms;

/// The key under which a tracker's latest report is kept.
pub open spec fn live_key_text(tracker_id: int) -> Seq<char> {
    "tracker:"@ + signed_decimal(tracker_id) + ":live"@
}

/// The key of the list of a tracker's past reports.
pub open spec fn history_key_text(tracker_id: int) -> Seq<char> {
    "tracker:"@ + signed_decimal(tracker_id) + ":history"@
}

/// The key of the place where a tracker was last audited.
pub open spec fn last_audit_key_text(tracker_id: int) -> Seq<char> {
    "tracker:"@ + signed_decimal(tracker_id) + ":last_audit_location"@
}

/// `tracker:` and a tracker's number, then `suffix`.
fn tracker_key(tracker_id: i64, suffix: &str) -> (k: String)
    ensures
        k@ == "tracker:"@ + signed_decimal(tracker_id as int) + suffix@,
{
    let mut k = String::from_str("tracker:");
    k.append(i64_text(tracker_id).as_str());
    k.append(suffix);
    k
}

/// The key under which a tracker's latest report is kept.
pub fn live_key(tracker_id: i64) -> (k: String)
    ensures
        k@ == live_key_text(tracker_id as int),
{
    tracker_key(tracker_id, ":live")
}

/// The key of the list of a tracker's past reports.
pub fn history_key(tracker_id: i64) -> (k: String)
    ensures
        k@ == history_key_text(tracker_id as int),
{
    tracker_key(tracker_id, ":history")
}

/// The key of the place where a tracker was last audited.
pub fn last_audit_key(tracker_id: i64) -> (k: String)
    ensures
        k@ == last_audit_key_text(tracker_id as int),
{
    tracker_key(tracker_id, ":last_audit_location")
}

/// The counters and flags of a tracker's report: everything in it but its
/// measured quantities (position, altitude, speed, course, precision).
pub struct ReportCounters {
    pub id: u32,
    pub uptime: u32,
    pub connection: PayloadConnection,
    pub network: PayloadNetwork,
    pub location_age: Option<u32>,
    pub location_valid: bool,
    pub altitude_age: Option<u32>,
    pub altitude_valid: bool,
    pub speed_age: Option<u32>,
    pub speed_valid: bool,
    pub course_age: Option<u32>,
    pub course_valid: bool,
    pub datetime: PayloadDateTime,
    pub satellites: PayloadSatellites,
    pub dop_age: Option<u32>,
    pub dop_valid: bool,
    pub stats: PayloadStats,
}

/// The columns of a hardware test row that come from a report's counters
/// and flags; flags are stored as 1 or 0.
pub struct HardwareTestColumns {
    pub tracker_id: i32,
    pub uptime: u32,
    pub connection_interval: u32,
    pub connection_retries: u32,
    pub connection_sequence_id: u32,
    pub connection_iteration_id: u32,
    pub network_rssi: Option<u32>,
    pub network_lac: Option<String>,
    pub network_ci: Option<String>,
    pub location_age: Option<u32>,
    pub location_valid: i8,
    pub altitude_age: Option<u32>,
    pub altitude_valid: i8,
    pub speed_age: Option<u32>,
    pub speed_valid: i8,
    pub course_age: Option<u32>,
    pub course_valid: i8,
    pub datetime_iso8601: Option<String>,
    pub datetime_year: Option<u32>,
    pub datetime_month: Option<u32>,
    pub datetime_day: Option<u32>,
    pub datetime_hour: Option<u32>,
    pub datetime_minute: Option<u32>,
    pub datetime_second: Option<u32>,
    pub datetime_centisecond: Option<u32>,
    pub datetime_age: Option<u32>,
    pub datetime_valid: i8,
    pub satellites_visible: Option<u32>,
    pub satellites_used: Option<u32>,
    pub satellites_carrier_to_noise: Option<u32>,
    pub satellites_age: Option<u32>,
    pub satellites_valid: i8,
    pub dop_age: Option<u32>,
    pub dop_valid: i8,
    pub stats_chars_processed: Option<u32>,
    pub stats_sentences_with_fix: Option<u32>,
    pub stats_failed_checksum: Option<u32>,
    pub stats_passed_checksum: Option<u32>,
}

/// A flag as a column: 1 or 0.
pub open spec fn flag_column(b: bool) -> i8 {
    if b {
        1
    } else {
        0
    }
}

/// A small optional count widened for its column.
pub open spec fn widened(v: Option<u8>) -> Option<u32> {
    match v {
        Some(x) => Some(x as u32),
        None => None,
    }
}

/// A flag as a column.
fn flag(b: bool) -> (v: i8)
    ensures
        v == flag_column(b),
{
    if b {
        1
    } else {
        0
    }
}

/// A small optional count widened for its column.
fn widen(v: Option<u8>) -> (w: Option<u32>)
    ensures
        w == widened(v),
{
    match v {
        Some(x) => Some(x as u32),
        None => None,
    }
}

/// The hardware test columns a report's counters fill: the tracker's
/// number as a signed column, each count as it came (the small ones
/// widened), each flag as 1 or 0, each text unchanged.
pub fn hardware_test_columns(r: ReportCounters) -> (c: HardwareTestColumns)
    ensures
        c.tracker_id == r.id as i32,
        c.uptime == r.uptime,
        c.connection_interval == r.connection.interval,
        c.connection_retries == r.connection.retries,
        c.connection_sequence_id == r.connection.sequence_id,
        c.connection_iteration_id == r.connection.iteration_id,
        c.network_rssi == r.network.rssi,
        c.network_lac == r.network.lac,
        c.network_ci == r.network.ci,
        c.location_age == r.location_age,
        c.location_valid == flag_column(r.location_valid),
        c.altitude_age == r.altitude_age,
        c.altitude_valid == flag_column(r.altitude_valid),
        c.speed_age == r.speed_age,
        c.speed_valid == flag_column(r.speed_valid),
        c.course_age == r.course_age,
        c.course_valid == flag_column(r.course_valid),
        c.datetime_iso8601 == r.datetime.iso8601,
        c.datetime_year == r.datetime.year,
        c.datetime_month == widened(r.datetime.month),
        c.datetime_day == widened(r.datetime.day),
        c.datetime_hour == widened(r.datetime.hour),
        c.datetime_minute == widened(r.datetime.minute),
        c.datetime_second == widened(r.datetime.second),
        c.datetime_centisecond == r.datetime.centisecond,
        c.datetime_age == r.datetime.age,
        c.datetime_valid == flag_column(r.datetime.valid),
        c.satellites_visible == widened(r.satellites.visible),
        c.satellites_used == widened(r.satellites.used),
        c.satellites_carrier_to_noise == widened(r.satellites.carrier_to_noise),
        c.satellites_age == r.satellites.age,
        c.satellites_valid == flag_column(r.satellites.valid),
        c.dop_age == r.dop_age,
        c.dop_valid == flag_column(r.dop_valid),
        c.stats_chars_processed == r.stats.chars_processed,
        c.stats_sentences_with_fix == r.stats.sentences_with_fix,
        c.stats_failed_checksum == r.stats.failed_checksum,
        c.stats_passed_checksum == r.stats.passed_checksum,
{
    HardwareTestColumns {
        tracker_id: r.id as i32,
        uptime: r.uptime,
        connection_interval: r.connection.interval,
        connection_retries: r.connection.retries,
        connection_sequence_id: r.connection.sequence_id,
        connection_iteration_id: r.connection.iteration_id,
        network_rssi: r.network.rssi,
        network_lac: r.network.lac,
        network_ci: r.network.ci,
        location_age: r.location_age,
        location_valid: flag(r.location_valid),
        altitude_age: r.altitude_age,
        altitude_valid: flag(r.altitude_valid),
        speed_age: r.speed_age,
        speed_valid: flag(r.speed_valid),
        course_age: r.course_age,
        course_valid: flag(r.course_valid),
        datetime_iso8601: r.datetime.iso8601,
        datetime_year: r.datetime.year,
        datetime_month: widen(r.datetime.month),
        datetime_day: widen(r.datetime.day),
        datetime_hour: widen(r.datetime.hour),
        datetime_minute: widen(r.datetime.minute),
        datetime_second: widen(r.datetime.second),
        datetime_centisecond: r.datetime.centisecond,
        datetime_age: r.datetime.age,
        datetime_valid: flag(r.datetime.valid),
        satellites_visible: widen(r.satellites.visible),
        satellites_used: widen(r.satellites.used),
        satellites_carrier_to_noise: widen(r.satellites.carrier_to_noise),
        satellites_age: r.satellites.age,
        satellites_valid: flag(r.satellites.valid),
        dop_age: r.dop_age,
        dop_valid: flag(r.dop_valid),
        stats_chars_processed: r.stats.chars_processed,
        stats_sentences_with_fix: r.stats.sentences_with_fix,
        stats_failed_checksum: r.stats.failed_checksum,
        stats_passed_checksum: r.stats.passed_checksum,
    }
}

/// The refusal of a report whose position is not valid.
pub open spec fn invalid_location_text() -> Seq<char> {
    "Location is not valid."@
}

/// Where a report goes after its test row is stored: a report whose
/// position is not valid stops there with an error; any other is kept as
/// the tracker's latest, under its live key.
pub fn live_report_key(tracker_id: u32, location_valid: bool) -> (r: Result<String, String>)
    ensures
        location_valid ==> (r matches Ok(k) && k@ == live_key_text(tracker_id as int)),
        !location_valid ==> (r matches Err(e) && e@ == invalid_location_text()),
{
    if !location_valid {
        return Err(String::from_str("Location is not valid."));
    }
    Ok(live_key(tracker_id as i64))
}

/// The first of the candidates that is within reach, if any: a report
/// finishes at most one trip, the first one in the list it is close to.
pub fn first_within(within: &Vec<bool>) -> (r: Option<usize>)
    ensures
        match r {
            Some(i) => i < within@.len() && within@[i as int] && forall|j: int|
                0 <= j < i ==> !within@[j],
            None => forall|j: int| 0 <= j < within@.len() ==> !within@[j],
        },
{
    let mut i: usize = 0;
    while i < within.len()
        invariant
            i <= within@.len(),
            forall|j: int| 0 <= j < i ==> !within@[j],
        decreases within@.len() - i,
    {
        if within[i] {
            return Some(i);
        }
        i = i + 1;
    }
    None
}


/// The middle of a text framed by a prefix and a suffix.
proof fn lemma_unframe(p: Seq<char>, a: Seq<char>, b: Seq<char>, q: Seq<char>)
    requires
        p + a + q == p + b + q,
    ensures
        a == b,
{
    let x = p + a + q;
    let y = p + b + q;
    assert(x.len() == y.len());
    assert(x.subrange(p.len() as int, (p.len() + a.len()) as int) =~= a);
    assert(y.subrange(p.len() as int, (p.len() + b.len()) as int) =~= b);
}

/// Two different trackers never share a key: not for their latest report,
/// nor for their history, nor for their last audited place.
pub proof fn law_tracker_keys_distinct(a: int, b: int)
    requires
        a != b,
    ensures
        live_key_text(a) != live_key_text(b),
        history_key_text(a) != history_key_text(b),
        last_audit_key_text(a) != last_audit_key_text(b),
{
    if live_key_text(a) == live_key_text(b) {
        lemma_unframe("tracker:"@, signed_decimal(a), signed_decimal(b), ":live"@);
        lemma_signed_decimal_injective(a, b);
    }
    if history_key_text(a) == history_key_text(b) {
        lemma_unframe("tracker:"@, signed_decimal(a), signed_decimal(b), ":history"@);
        lemma_signed_decimal_injective(a, b);
    }
    if last_audit_key_text(a) == last_audit_key_text(b) {
        lemma_unframe(
            "tracker:"@,
            signed_decimal(a),
            signed_decimal(b),
            ":last_audit_location"@,
        );
        lemma_signed_decimal_injective(a, b);
    }
}


/// What reading a tracker's latest report gave.
#[derive(PartialEq, Eq, Structural, Clone, Copy, Debug)]
pub enum LiveRead {
    /// The store could not be read; the tracker counts as silent.
    Unreadable,
    /// No report is kept for the tracker.
    Absent,
    /// A report is kept but does not parse; the tracker is left out.
    Malformed,
    /// A report was read.
    Report,
}

/// Which trackers an audit round covers, by their place in the list read:
/// every tracker but those whose kept report does not parse, each with
/// whether a report of it was read.
pub open spec fn audit_round(reads: Seq<LiveRead>) -> Seq<(usize, bool)>
    decreases reads.len(),
{
    if reads.len() == 0 {
        Seq::empty()
    } else {
        let rest = audit_round(reads.drop_last());
        let i = (reads.len() - 1) as usize;
        match reads.last() {
            LiveRead::Malformed => rest,
            LiveRead::Report => rest.push((i, true)),
            _ => rest.push((i, false)),
        }
    }
}

/// The trackers an audit round covers.
pub fn audit_round_entries(reads: &Vec<LiveRead>) -> (r: Vec<(usize, bool)>)
    ensures
        r@ == audit_round(reads@),
{
    let mut r: Vec<(usize, bool)> = Vec::new();
    let mut i: usize = 0;
    while i < reads.len()
        invariant
            i <= reads@.len(),
            r@ == audit_round(reads@.subrange(0, i as int)),
        decreases reads@.len() - i,
    {
        let ghost prefix = reads@.subrange(0, i + 1);
        assert(prefix.drop_last() =~= reads@.subrange(0, i as int));
        assert(prefix.last() == reads@[i as int]);
        match reads[i] {
            LiveRead::Malformed => {},
            LiveRead::Report => r.push((i, true)),
            _ => r.push((i, false)),
        }
        i = i + 1;
    }
    assert(reads@.subrange(0, reads@.len() as int) =~= reads@);
    r
}

/// An audit round covers every tracker whose kept report parses, in the
/// order read, and no other: each entry names such a tracker by its place,
/// with whether a report of it was read.
pub proof fn law_audit_round_covers(reads: Seq<LiveRead>)
    requires
        reads.len() <= usize::MAX,
    ensures
        audit_round(reads).len() <= reads.len(),
        forall|k: int|
            0 <= k < audit_round(reads).len() ==> {
                let e = #[trigger] audit_round(reads)[k];
                &&& e.0 < reads.len()
                &&& reads[e.0 as int] != LiveRead::Malformed
                &&& e.1 == (reads[e.0 as int] == LiveRead::Report)
            },
        forall|i: int|
            0 <= i < reads.len() && reads[i] != LiveRead::Malformed ==> exists|k: int|
                0 <= k < audit_round(reads).len() && #[trigger] audit_round(reads)[k].0 == i,
        forall|k1: int, k2: int|
            0 <= k1 < k2 < audit_round(reads).len() ==> audit_round(reads)[k1].0 < audit_round(
                reads,
            )[k2].0,
    decreases reads.len(),
{
    if reads.len() > 0 {
        let front = reads.drop_last();
        law_audit_round_covers(front);
        let rest = audit_round(front);
        let r = audit_round(reads);
        let n = (reads.len() - 1) as int;
        assert forall|k: int| 0 <= k < rest.len() implies r[k] == rest[k] && front[rest[k].0 as int]
            == reads[rest[k].0 as int] by {
        }
        assert forall|i: int|
            0 <= i < reads.len() && reads[i] != LiveRead::Malformed implies exists|k: int|
                0 <= k < r.len() && #[trigger] r[k].0 == i by {
            if i < n {
                assert(front[i] == reads[i]);
                let k = choose|k: int| 0 <= k < rest.len() && #[trigger] rest[k].0 == i;
                assert(r[k] == rest[k]);
            } else {
                assert(reads.last() == reads[i]);
                assert(r == rest.push((n as usize, reads[i] == LiveRead::Report)));
                assert(r[r.len() - 1].0 == i);
            }
        }
    }
}

/// Where a tracker stands against its last audited place.
#[derive(PartialEq, Eq, Structural, Clone, Copy, Debug)]
pub enum LastPlace {
    /// It was never audited.
    Unknown,
    /// It is within ten metres of where it was last audited.
    Near,
    /// It has moved ten metres or more since.
    Far,
}

/// Whether a tracker is audited this round: it must report a position, and
/// must not be within ten metres of where it was last audited.
pub fn should_audit(has_position: bool, last: LastPlace) -> (b: bool)
    ensures
        b == (has_position && last != LastPlace::Near),
{
    has_position && !matches!(last, LastPlace::Near)
}

/// Whether place `j` of `ids` holds the last occurrence of its number.
pub open spec fn is_last_occurrence(ids: Seq<i32>, j: int) -> bool {
    &&& 0 <= j < ids.len()
    &&& forall|k: int| j < k < ids.len() ==> ids[k] != ids[j]
}

/// Whether a number is among the kept ones.
pub open spec fn kept_once(r: Seq<(i32, usize)>, x: i32) -> bool {
    exists|k: int| 0 <= k < r.len() && #[trigger] r[k].0 == x
}

/// Keeps, for each number, only its last occurrence: what a map filled in
/// order holds, where a later entry under the same key replaces the earlier.
/// Each number of `ids` is kept once, with the place of its last
/// occurrence, in the order of those places.
pub fn last_occurrences(ids: &Vec<i32>) -> (r: Vec<(i32, usize)>)
    ensures
        forall|k: int|
            0 <= k < r@.len() ==> is_last_occurrence(ids@, #[trigger] r@[k].1 as int) && ids@[r@[k].1 as int]
                == r@[k].0,
        forall|j: int| 0 <= j < ids@.len() ==> kept_once(r@, #[trigger] ids@[j]),
        forall|k1: int, k2: int| 0 <= k1 < k2 < r@.len() ==> r@[k1].1 < r@[k2].1,
        forall|k1: int, k2: int| 0 <= k1 < k2 < r@.len() ==> r@[k1].0 != r@[k2].0,
{
    let n = ids.len();
    let mut r: Vec<(i32, usize)> = Vec::new();
    let mut j: usize = 0;
    while j < n
        invariant
            j <= n,
            n == ids@.len(),
            forall|k: int|
                0 <= k < r@.len() ==> is_last_occurrence(ids@, #[trigger] r@[k].1 as int) && ids@[r@[k].1 as int]
                    == r@[k].0 && r@[k].1 < j,
            forall|i: int|
                0 <= i < j && is_last_occurrence(ids@, i) ==> exists|k: int|
                    0 <= k < r@.len() && #[trigger] r@[k].1 == i,
            forall|k1: int, k2: int| 0 <= k1 < k2 < r@.len() ==> r@[k1].1 < r@[k2].1,
        decreases n - j,
    {
        let mut later = false;
        let mut m: usize = j + 1;
        while m < n
            invariant
                j < n,
                j + 1 <= m <= n,
                n == ids@.len(),
                later <==> exists|q: int| j < q < m && ids@[q] == ids@[j as int],
            decreases n - m,
        {
            if ids[m] == ids[j] {
                later = true;
            }
            m = m + 1;
        }
        let ghost before = r@;
        if !later {
            r.push((ids[j], j));
        }
        proof {
            if later {
                assert(!is_last_occurrence(ids@, j as int));
            } else {
                assert(is_last_occurrence(ids@, j as int));
                assert(r@[r@.len() - 1].1 == j);
            }
            assert forall|i: int|
                0 <= i < j + 1 && is_last_occurrence(ids@, i) implies exists|k: int|
                    0 <= k < r@.len() && #[trigger] r@[k].1 == i by {
                if i < j {
                    let k = choose|k: int| 0 <= k < before.len() && #[trigger] before[k].1 == i;
                    assert(r@[k] == before[k]);
                } else {
                    assert(r@[r@.len() - 1].1 == i);
                }
            }
        }
        j = j + 1;
    }
    assert forall|k1: int, k2: int| 0 <= k1 < k2 < r@.len() implies r@[k1].0 != r@[k2].0 by {
        assert(is_last_occurrence(ids@, r@[k1].1 as int));
        assert(r@[k1].1 < r@[k2].1);
    }
    assert forall|j: int| 0 <= j < ids@.len() implies kept_once(r@, #[trigger] ids@[j]) by {
        lemma_last_occurrence_exists(ids@, j);
        let last = choose|q: int| ends_run(ids@, j, q);
        assert(is_last_occurrence(ids@, last));
        let k = choose|k: int| 0 <= k < r@.len() && #[trigger] r@[k].1 == last;
        assert(r@[k].0 == ids@[j]);
    }
    r
}

/// Whether `q` is the last place, from `j` on, of the number at `j`.
spec fn ends_run(ids: Seq<i32>, j: int, q: int) -> bool {
    &&& j <= q < ids.len()
    &&& ids[q] == ids[j]
    &&& forall|p: int| q < p < ids.len() ==> ids[p] != ids[j]
}

/// Every position has a last occurrence of its number at or after it.
proof fn lemma_last_occurrence_exists(ids: Seq<i32>, j: int)
    requires
        0 <= j < ids.len(),
    ensures
        exists|q: int| ends_run(ids, j, q),
    decreases ids.len() - j,
{
    if exists|p: int| j < p < ids.len() && ids[p] == ids[j] {
        let p = choose|p: int| j < p < ids.len() && ids[p] == ids[j];
        lemma_last_occurrence_exists(ids, p);
        let q = choose|q: int| ends_run(ids, p, q);
        assert(ends_run(ids, j, q));
    } else {
        assert(ends_run(ids, j, j));
    }
}


/// What fetching one tracker's latest report for a page gave.
pub enum ReportFetch<P> {
    /// The store could not be read, with the failure's text.
    Failed(String),
    /// No report is kept for the tracker.
    Missing,
    /// A report is kept but does not parse.
    Unparsable,
    /// A report was read.
    Parsed(P),
}

/// Takes one fetched report into the reports a page shows: a parsed report
/// is shown after the earlier ones, a missing or unparsable one is passed
/// over, and a failed read either stops the page with its text (the live
/// map) or is passed over too (the dashboard).
pub fn take_report<P>(shown: &mut Vec<P>, fetched: ReportFetch<P>, stop_on_failure: bool) -> (stop:
    Option<String>)
    ensures
        match fetched {
            ReportFetch::Parsed(p) => final(shown)@ == old(shown)@.push(p) && stop is None,
            ReportFetch::Failed(e) => final(shown)@ == old(shown)@ && if stop_on_failure {
                stop == Some(e)
            } else {
                stop is None
            },
            _ => final(shown)@ == old(shown)@ && stop is None,
        },
{
    match fetched {
        ReportFetch::Parsed(p) => {
            shown.push(p);
            None
        },
        ReportFetch::Failed(e) => if stop_on_failure {
            Some(e)
        } else {
            None
        },
        _ => None,
    }
}


/// A report of the API's MQTT feed goes on only with both coordinates of
/// its position; without either it is refused as `InvalidLocation`.
pub fn reported_position(has_latitude: bool, has_longitude: bool) -> (r: Result<(), MqttError>)
    ensures
        (has_latitude && has_longitude) ==> r is Ok,
        !(has_latitude && has_longitude) ==> r matches Err(MqttError::InvalidLocation),
{
    if !has_latitude || !has_longitude {
        return Err(MqttError::InvalidLocation);
    }
    Ok(())
}


/// The numbers of the audit row a report adds: the car joined to its
/// tracker, stored after passing through a byte (the audit's car column is
/// filled from a `u8`), and the report's tracker number.
pub struct AuditRowIds {
    pub car_id: Option<i32>,
    pub tracker_id: i32,
}

/// The car number an audit row stores: the joined car's number cut to a
/// byte, then widened back.
pub open spec fn audit_car_column(car_id: Option<i32>) -> Option<i32> {
    match car_id {
        Some(c) => Some(((c as u8) as i32)),
        None => None,
    }
}

/// The car column of an audit row holds the joined car's number as an
/// unsigned byte: never negative, and a number that fits a byte is kept as it
/// is; no joined car leaves the column empty.
pub proof fn law_audit_car_column_keeps_bytes(car_id: Option<i32>)
    ensures
        audit_car_column(car_id) matches Some(x) ==> 0 <= x <= 255,
        car_id matches Some(c) ==> (0 <= c <= 255 ==> audit_car_column(car_id) == Some(c)),
        car_id is None ==> audit_car_column(car_id) is None,
{
    if let Some(c) = car_id {
        let x: i32 = (c as u8) as i32;
        assert(0 <= x <= 255);
        if 0 <= c <= 255 {
            assert(((c as u8) as i32) == c) by (bit_vector)
                requires
                    0 <= c <= 255,
            ;
        }
    }
}

/// The numbers of the audit row for a report of tracker `report_id`, whose
/// tracker is joined to the car `joined_car`, if any.
pub fn audit_row_ids(joined_car: Option<i32>, report_id: u8) -> (r: AuditRowIds)
    ensures
        r.car_id == audit_car_column(joined_car),
        r.tracker_id == report_id as i32,
        r.car_id matches Some(x) ==> 0 <= x <= 255,
        joined_car matches Some(c) ==> (0 <= c <= 255 ==> r.car_id == Some(c)),
        joined_car is None ==> r.car_id is None,
{
    let car_id = match joined_car {
        Some(c) => Some((c as u8) as i32),
        None => None,
    };
    proof {
        law_audit_car_column_keeps_bytes(joined_car);
    }
    AuditRowIds { car_id, tracker_id: report_id as i32 }
}


/// Whether a place is among the picked ones.
pub open spec fn picked(r: Seq<usize>, i: int) -> bool {
    exists|k: int| 0 <= k < r.len() && r[k] == i
}

/// Every candidate that is within reach, in order: what a report of the
/// API's feed completes, as its handler's documentation says (every activity
/// within a hundred metres is completed).
pub fn all_within(within: &Vec<bool>) -> (r: Vec<usize>)
    ensures
        forall|k: int| 0 <= k < r@.len() ==> r@[k] < within@.len() && within@[r@[k] as int],
        forall|k1: int, k2: int| 0 <= k1 < k2 < r@.len() ==> r@[k1] < r@[k2],
        forall|i: int| 0 <= i < within@.len() && within@[i] ==> #[trigger] picked(r@, i),
{
    let mut r: Vec<usize> = Vec::new();
    let mut i: usize = 0;
    while i < within.len()
        invariant
            i <= within@.len(),
            forall|k: int| 0 <= k < r@.len() ==> r@[k] < i && within@[r@[k] as int],
            forall|k1: int, k2: int| 0 <= k1 < k2 < r@.len() ==> r@[k1] < r@[k2],
            forall|j: int| 0 <= j < i && within@[j] ==> #[trigger] picked(r@, j),
        decreases within@.len() - i,
    {
        let ghost before = r@;
        if within[i] {
            r.push(i);
        }
        proof {
            assert forall|j: int| 0 <= j < i + 1 && within@[j] implies #[trigger] picked(r@, j) by {
                if j < i {
                    assert(picked(before, j));
                    let k = choose|k: int| 0 <= k < before.len() && before[k] == j;
                    assert(r@[k] == before[k]);
                } else {
                    assert(r@[r@.len() - 1] == j);
                }
            }
        }
        i = i + 1;
    }
    r
}

} // verus!
