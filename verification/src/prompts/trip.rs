//! The prompt orchestrator: planning a birding day and finding a species.
//!
//! Each composition is an ordered sequence of dispatcher calls. The
//! decisions live here as a step machine from state and transport outcome
//! to the next request or the finished document; the caller performs each
//! network round trip between steps. Every step's failure aborts the whole
//! composition and names the step that failed; a partial document is never
//! produced.

use vstd::prelude::*;

use crate::api::client::{decode_failure_text, decoded_of, is_success, kind_decode, prepared_for,
    unreadable_body_text, ApiClient, DecodedResponse, DecodedView, PreparedRequest,
    TransportOutcome};
use crate::api::endpoint::ResponseKind;
use crate::api::error::ApiError;
use crate::fixed::{fixed_chars, push_fixed};
use crate::json::parse::json_parse_spec;
use crate::text::{dec_digits, push_dec, push_str_chars, string_from_chars};
use crate::tools::hotspot::{FetchRegionHotspotsRequest, Hotspot, HotspotView};
use crate::tools::observations::{FetchNotableRecentRequest, FetchSpeciesRecentRequest,
    Observation, ObsView};
use crate::tools::region::GetRegionInfoRequest;

verus! {

broadcast use vstd::seq::group_seq_axioms, vstd::std_specs::vec::group_vec_axioms,
    vstd::string::group_string_axioms;

/// A sighting count, or the placeholder for an unknown one, so every
/// listed line has the same shape.
pub open spec fn count_text(c: Option<u32>) -> Seq<char> {
    match c {
        Some(n) => dec_digits(n as nat),
        None => "X"@,
    }
}

/// An all-time species total, or the placeholder for an unknown one.
pub open spec fn species_total_text(c: Option<u32>) -> Seq<char> {
    match c {
        Some(n) => dec_digits(n as nat),
        None => "?"@,
    }
}

/// One rendered notable sighting.
pub open spec fn notable_line(o: ObsView) -> Seq<char> {
    "- **"@ + o.common_name + "** ("@ + o.scientific_name + ") at "@ + o.location + " on "@
        + o.observation_date + " (count: "@ + count_text(o.count) + ")"@
}

/// One rendered plain observation.
pub open spec fn observation_line(o: ObsView) -> Seq<char> {
    "- "@ + o.common_name + " at "@ + o.location + " on "@ + o.observation_date + " (count: "@
        + count_text(o.count) + ")"@
}

/// One rendered hotspot.
pub open spec fn hotspot_line(h: HotspotView) -> Seq<char> {
    "- **"@ + h.name + "** (ID: "@ + h.location_id + ") — "@ + fixed_chars(h.latitude) + "°N, "@
        + fixed_chars(h.longitude) + "°W — "@ + species_total_text(h.num_species_all_time)
        + " species all-time"@
}

/// Lines joined by single newlines, with no trailing newline.
pub open spec fn join_lines(lines: Seq<Seq<char>>) -> Seq<char>
    decreases lines.len(),
{
    if lines.len() == 0 {
        Seq::empty()
    } else if lines.len() == 1 {
        lines[0]
    } else {
        join_lines(lines.drop_last()) + seq!['\n'] + lines.last()
    }
}

/// The smaller of a length and a cap.
pub open spec fn capped(len: int, cap: int) -> int {
    if len < cap {
        len
    } else {
        cap
    }
}

/// The rendered notable-sightings section: an explicit sentence when there
/// are none, else one line per sighting, the first fifteen at most, in
/// response order.
pub open spec fn format_notable_spec(s: Seq<ObsView>) -> Seq<char> {
    if s.len() == 0 {
        "No notable sightings in the last 7 days."@
    } else {
        join_lines(s.take(capped(s.len() as int, 15)).map_values(|o: ObsView| notable_line(o)))
    }
}

/// The rendered hotspot section: an explicit sentence when there are none,
/// else one line per hotspot, the first ten at most, in response order.
pub open spec fn format_hotspots_spec(s: Seq<HotspotView>) -> Seq<char> {
    if s.len() == 0 {
        "No hotspots found."@
    } else {
        join_lines(s.take(capped(s.len() as int, 10)).map_values(|h: HotspotView| hotspot_line(h)))
    }
}

/// The rendered plain-observations section: an explicit sentence when
/// there are none, else one line per observation, the first twenty at
/// most, in response order.
pub open spec fn format_observations_spec(s: Seq<ObsView>) -> Seq<char> {
    if s.len() == 0 {
        "No recent observations found."@
    } else {
        join_lines(
            s.take(capped(s.len() as int, 20)).map_values(|o: ObsView| observation_line(o)),
        )
    }
}

/// Appends a count or its placeholder.
fn push_count(out: &mut Vec<char>, c: &Option<u32>)
    ensures
        final(out)@ == old(out)@ + count_text(*c),
{
    match c {
        Some(n) => push_dec(out, *n as u64),
        None => push_str_chars(out, "X"),
    }
}

/// Appends an all-time total or its placeholder.
fn push_species_total(out: &mut Vec<char>, c: &Option<u32>)
    ensures
        final(out)@ == old(out)@ + species_total_text(*c),
{
    match c {
        Some(n) => push_dec(out, *n as u64),
        None => push_str_chars(out, "?"),
    }
}

/// Appends one notable-sighting line.
fn push_notable_line(out: &mut Vec<char>, o: &Observation)
    ensures
        final(out)@ == old(out)@ + notable_line(o@),
{
    push_str_chars(out, "- **");
    push_str_chars(out, o.common_name.as_str());
    push_str_chars(out, "** (");
    push_str_chars(out, o.scientific_name.as_str());
    push_str_chars(out, ") at ");
    push_str_chars(out, o.location.as_str());
    push_str_chars(out, " on ");
    push_str_chars(out, o.observation_date.as_str());
    push_str_chars(out, " (count: ");
    push_count(out, &o.count);
    push_str_chars(out, ")");
}

/// Appends one plain observation line.
fn push_observation_line(out: &mut Vec<char>, o: &Observation)
    ensures
        final(out)@ == old(out)@ + observation_line(o@),
{
    push_str_chars(out, "- ");
    push_str_chars(out, o.common_name.as_str());
    push_str_chars(out, " at ");
    push_str_chars(out, o.location.as_str());
    push_str_chars(out, " on ");
    push_str_chars(out, o.observation_date.as_str());
    push_str_chars(out, " (count: ");
    push_count(out, &o.count);
    push_str_chars(out, ")");
}

/// Appends one hotspot line.
fn push_hotspot_line(out: &mut Vec<char>, h: &Hotspot)
    ensures
        final(out)@ == old(out)@ + hotspot_line(h@),
{
    push_str_chars(out, "- **");
    push_str_chars(out, h.name.as_str());
    push_str_chars(out, "** (ID: ");
    push_str_chars(out, h.location_id.as_str());
    push_str_chars(out, ") — ");
    push_fixed(out, &h.latitude);
    push_str_chars(out, "°N, ");
    push_fixed(out, &h.longitude);
    push_str_chars(out, "°W — ");
    push_species_total(out, &h.num_species_all_time);
    push_str_chars(out, " species all-time");
}

/// Renders the notable-sightings section.
pub fn format_notable(observations: &Vec<Observation>) -> (r: String)
    ensures
        r@ == format_notable_spec(crate::tools::observations::obs_views(observations@)),
{
    let ghost views = crate::tools::observations::obs_views(observations@);
    if observations.len() == 0 {
        return String::from_str("No notable sightings in the last 7 days.");
    }
    let cap: usize = if observations.len() < 15 {
        observations.len()
    } else {
        15
    };
    let ghost lines = views.take(cap as int).map_values(|o: ObsView| notable_line(o));
    let mut out: Vec<char> = Vec::new();
    let mut i: usize = 0;
    while i < cap
        invariant
            0 < cap <= observations@.len(),
            views == crate::tools::observations::obs_views(observations@),
            lines == views.take(cap as int).map_values(|o: ObsView| notable_line(o)),
            lines.len() == cap,
            i <= cap,
            out@ == join_lines(lines.take(i as int)),
        decreases cap - i,
    {
        if i > 0 {
            out.push('\n');
        }
        push_notable_line(&mut out, &observations[i]);
        proof {
            assert(lines[i as int] == notable_line(views[i as int]));
            assert(lines.take(i + 1).drop_last() =~= lines.take(i as int));
            assert(out@ =~= join_lines(lines.take(i + 1)));
        }
        i += 1;
    }
    proof {
        assert(lines.take(cap as int) =~= lines);
    }
    string_from_chars(&out)
}

/// Renders the hotspot section.
pub fn format_hotspots(hotspots: &Vec<Hotspot>) -> (r: String)
    ensures
        r@ == format_hotspots_spec(crate::tools::hotspot::hotspot_views(hotspots@)),
{
    let ghost views = crate::tools::hotspot::hotspot_views(hotspots@);
    if hotspots.len() == 0 {
        return String::from_str("No hotspots found.");
    }
    let cap: usize = if hotspots.len() < 10 {
        hotspots.len()
    } else {
        10
    };
    let ghost lines = views.take(cap as int).map_values(|h: HotspotView| hotspot_line(h));
    let mut out: Vec<char> = Vec::new();
    let mut i: usize = 0;
    while i < cap
        invariant
            0 < cap <= hotspots@.len(),
            views == crate::tools::hotspot::hotspot_views(hotspots@),
            lines == views.take(cap as int).map_values(|h: HotspotView| hotspot_line(h)),
            lines.len() == cap,
            i <= cap,
            out@ == join_lines(lines.take(i as int)),
        decreases cap - i,
    {
        if i > 0 {
            out.push('\n');
        }
        push_hotspot_line(&mut out, &hotspots[i]);
        proof {
            assert(lines[i as int] == hotspot_line(views[i as int]));
            assert(lines.take(i + 1).drop_last() =~= lines.take(i as int));
            assert(out@ =~= join_lines(lines.take(i + 1)));
        }
        i += 1;
    }
    proof {
        assert(lines.take(cap as int) =~= lines);
    }
    string_from_chars(&out)
}

/// Renders the plain-observations section.
pub fn format_observations(observations: &Vec<Observation>) -> (r: String)
    ensures
        r@ == format_observations_spec(crate::tools::observations::obs_views(observations@)),
{
    let ghost views = crate::tools::observations::obs_views(observations@);
    if observations.len() == 0 {
        return String::from_str("No recent observations found.");
    }
    let cap: usize = if observations.len() < 20 {
        observations.len()
    } else {
        20
    };
    let ghost lines = views.take(cap as int).map_values(|o: ObsView| observation_line(o));
    let mut out: Vec<char> = Vec::new();
    let mut i: usize = 0;
    while i < cap
        invariant
            0 < cap <= observations@.len(),
            views == crate::tools::observations::obs_views(observations@),
            lines == views.take(cap as int).map_values(|o: ObsView| observation_line(o)),
            lines.len() == cap,
            i <= cap,
            out@ == join_lines(lines.take(i as int)),
        decreases cap - i,
    {
        if i > 0 {
            out.push('\n');
        }
        push_observation_line(&mut out, &observations[i]);
        proof {
            assert(lines[i as int] == observation_line(views[i as int]));
            assert(lines.take(i + 1).drop_last() =~= lines.take(i as int));
            assert(out@ =~= join_lines(lines.take(i + 1)));
        }
        i += 1;
    }
    proof {
        assert(lines.take(cap as int) =~= lines);
    }
    string_from_chars(&out)
}

/// The target-species section of a day-trip document.
pub open spec fn target_info_text(species: Seq<char>, obs_text: Seq<char>) -> Seq<char> {
    "\n\n### Target Species: "@ + species + "\nRecent sightings (last 14 days):\n"@ + obs_text
}

/// The task portion of every day-trip document.
pub open spec fn day_trip_task_text() -> Seq<char> {
    "\n\n## Your Task\n\nCreate an hour-by-hour itinerary that:\n1. Maximizes chances of seeing rare/notable species\n2. Considers travel time between locations (use coordinates to estimate)\n3. Accounts for bird activity patterns (dawn chorus, midday lull, evening activity)\n4. Prioritizes locations with recent activity\n5. Lists specific species to look for at each stop\n6. Suggests observation techniques and tips\n\nFormat your response as a clear, actionable schedule with times, locations, and targets.\n\nYou have access to additional tools if you need real-time data:\n- fetch_hotspot_recent: Get latest observations at a specific hotspot\n- fetch_species_nearest: Find where a species was recently seen\n- get_region_info: Get details about regions"@
}

/// The finished day-trip document.
pub open spec fn day_trip_document(
    duration_hours: u32,
    region_name: Seq<char>,
    notable_text: Seq<char>,
    hotspots_text: Seq<char>,
    target_info: Seq<char>,
) -> Seq<char> {
    "Plan a "@ + dec_digits(duration_hours as nat) + "-hour birding day trip in "@ + region_name
        + ".\n\n## Available Data\n\n### Recent Notable/Rare Sightings (last 7 days)\n"@
        + notable_text + "\n\n### Nearby Hotspots\n"@ + hotspots_text + target_info
        + day_trip_task_text()
}

/// Assembles the finished day-trip document.
fn build_day_trip_document(
    duration_hours: u32,
    region_name: &String,
    notable_text: &String,
    hotspots_text: &String,
    target_info: &String,
) -> (r: String)
    ensures
        r@ == day_trip_document(
            duration_hours,
            region_name@,
            notable_text@,
            hotspots_text@,
            target_info@,
        ),
{
    let mut out: Vec<char> = Vec::new();
    push_str_chars(&mut out, "Plan a ");
    push_dec(&mut out, duration_hours as u64);
    push_str_chars(&mut out, "-hour birding day trip in ");
    push_str_chars(&mut out, region_name.as_str());
    push_str_chars(
        &mut out,
        ".\n\n## Available Data\n\n### Recent Notable/Rare Sightings (last 7 days)\n",
    );
    push_str_chars(&mut out, notable_text.as_str());
    push_str_chars(&mut out, "\n\n### Nearby Hotspots\n");
    push_str_chars(&mut out, hotspots_text.as_str());
    push_str_chars(&mut out, target_info.as_str());
    push_str_chars(
        &mut out,
        "\n\n## Your Task\n\nCreate an hour-by-hour itinerary that:\n1. Maximizes chances of seeing rare/notable species\n2. Considers travel time between locations (use coordinates to estimate)\n3. Accounts for bird activity patterns (dawn chorus, midday lull, evening activity)\n4. Prioritizes locations with recent activity\n5. Lists specific species to look for at each stop\n6. Suggests observation techniques and tips\n\nFormat your response as a clear, actionable schedule with times, locations, and targets.\n\nYou have access to additional tools if you need real-time data:\n- fetch_hotspot_recent: Get latest observations at a specific hotspot\n- fetch_species_nearest: Find where a species was recently seen\n- get_region_info: Get details about regions",
    );
    string_from_chars(&out)
}

/// The validated arguments of a day-trip composition.
#[derive(Debug, Clone)]
pub struct DayTripArgs {
    pub region: String,
    pub duration_hours: u32,
    pub target_species: Option<String>,
}

/// Validates the caller's day-trip arguments: the region is required, the
/// duration defaults to six hours, and the target species is optional.
pub fn parse_day_trip_args(
    region: Option<String>,
    duration_hours: Option<u64>,
    target_species: Option<String>,
) -> (r: Result<DayTripArgs, String>)
    ensures
        match region {
            None => r matches Err(m) && m@ == "Missing required argument: region"@,
            Some(rc) => r matches Ok(a) && a.region == rc && a.duration_hours == (match
                duration_hours {
                None => 6u32,
                Some(d) => d as u32,
            }) && a.target_species == target_species,
        },
{
    let region = match region {
        Some(rc) => rc,
        None => {
            return Err(String::from_str("Missing required argument: region"));
        },
    };
    let duration_hours: u32 = match duration_hours {
        Some(d) => d as u32,
        None => 6,
    };
    Ok(DayTripArgs { region, duration_hours, target_species })
}

/// Where a day-trip composition stands between two remote calls.
#[derive(Debug)]
pub enum DayTripState {
    FetchRegionInfo { args: DayTripArgs },
    FetchNotable { args: DayTripArgs, region_name: String },
    FetchHotspots { args: DayTripArgs, region_name: String, notable_text: String },
    FetchSpecies {
        args: DayTripArgs,
        region_name: String,
        notable_text: String,
        hotspots_text: String,
    },
}

/// What a successful step yields: another request to perform, or the
/// finished document.
#[derive(Debug)]
pub enum DayTripStep {
    Continue(DayTripState, PreparedRequest),
    Done(String),
}

/// Whether the transport reported a success status.
pub open spec fn outcome_success(outcome: TransportOutcome) -> bool {
    match outcome {
        TransportOutcome::Response { status, .. } => is_success(status),
        _ => false,
    }
}

/// The error text a failed step surfaces: the step's name, then the full
/// display text of the underlying failure — the network cause, the status
/// with the verbatim body, or the deserialization report.
pub open spec fn step_failure_text(
    prefix: Seq<char>,
    kind: ResponseKind,
    outcome: TransportOutcome,
    m: Seq<char>,
) -> bool {
    match outcome {
        TransportOutcome::Failure { message } => m == prefix + ("Network error: "@ + message@),
        TransportOutcome::Response { status, body } => if !is_success(status) {
            m == prefix + ("eBird API returned "@ + dec_digits(status as nat) + ": "@ + (match
            body {
                Ok(t) => t@,
                Err(_) => unreadable_body_text(),
            }))
        } else {
            m == prefix + ("Failed to deserialize API response: "@ + decode_failure_text(
                kind,
                body,
            ))
        },
    }
}

/// The notable-sightings request of a day trip: the last seven days.
pub open spec fn day_trip_notable_request(args: DayTripArgs) -> FetchNotableRecentRequest {
    FetchNotableRecentRequest { region_code: args.region, back: Some(7u32) }
}

/// The hotspot request of a day trip: the last seven days.
pub open spec fn day_trip_hotspot_request(args: DayTripArgs) -> FetchRegionHotspotsRequest {
    FetchRegionHotspotsRequest { region_code: args.region, back: Some(7u32) }
}

/// The target-species request of a day trip: the last fourteen days.
pub open spec fn day_trip_species_request(
    args: DayTripArgs,
    species: String,
) -> FetchSpeciesRecentRequest {
    FetchSpeciesRecentRequest {
        region_code: args.region,
        species_code: species,
        back: Some(14u32),
    }
}

/// What one step of the day-trip composition guarantees, state by state:
/// a failure aborts with the failing step named; a success either hands
/// back the next request with the data gathered so far, or the finished
/// document.
pub open spec fn day_trip_step_spec(
    client: ApiClient,
    state: DayTripState,
    outcome: TransportOutcome,
    r: Result<DayTripStep, String>,
) -> bool {
    match state {
        DayTripState::FetchRegionInfo { args } => match r {
            Err(m) => step_failure_text(
                "Failed to fetch region info: "@,
                ResponseKind::RegionInfoRecord,
                outcome,
                m@,
            )
                && decoded_of(outcome, ResponseKind::RegionInfoRecord) is None,
            Ok(step) => outcome_success(outcome) && match step {
                DayTripStep::Continue(next, req) => match next {
                    DayTripState::FetchNotable { args: a2, region_name } => a2 == args && (
                    match decoded_of(outcome, ResponseKind::RegionInfoRecord) {
                        Some(DecodedView::Region(rv)) => region_name@ == rv.result,
                        _ => false,
                    }) && prepared_for(client, req, day_trip_notable_request(args)),
                    _ => false,
                },
                DayTripStep::Done(_) => false,
            },
        },
        DayTripState::FetchNotable { args, region_name } => match r {
            Err(m) => step_failure_text(
                "Failed to fetch notable sightings: "@,
                ResponseKind::ObservationList,
                outcome,
                m@,
            )
                && decoded_of(outcome, ResponseKind::ObservationList) is None,
            Ok(step) => outcome_success(outcome) && match step {
                DayTripStep::Continue(next, req) => match next {
                    DayTripState::FetchHotspots { args: a2, region_name: rn2, notable_text } => a2
                        == args && rn2 == region_name && (match decoded_of(
                        outcome,
                        ResponseKind::ObservationList,
                    ) {
                        Some(DecodedView::Observations(os)) => notable_text@
                            == format_notable_spec(os),
                        _ => false,
                    }) && prepared_for(client, req, day_trip_hotspot_request(args)),
                    _ => false,
                },
                DayTripStep::Done(_) => false,
            },
        },
        DayTripState::FetchHotspots { args, region_name, notable_text } => match r {
            Err(m) => step_failure_text(
                "Failed to fetch hotspots: "@,
                ResponseKind::HotspotList,
                outcome,
                m@,
            )
                && decoded_of(outcome, ResponseKind::HotspotList) is None,
            Ok(step) => outcome_success(outcome) && match args.target_species {
                None => match step {
                    DayTripStep::Done(doc) => match decoded_of(
                        outcome,
                        ResponseKind::HotspotList,
                    ) {
                        Some(DecodedView::Hotspots(hs)) => doc@ == day_trip_document(
                            args.duration_hours,
                            region_name@,
                            notable_text@,
                            format_hotspots_spec(hs),
                            Seq::empty(),
                        ),
                        _ => false,
                    },
                    _ => false,
                },
                Some(species) => match step {
                    DayTripStep::Continue(next, req) => match next {
                        DayTripState::FetchSpecies {
                            args: a2,
                            region_name: rn2,
                            notable_text: nt2,
                            hotspots_text,
                        } => a2 == args && rn2 == region_name && nt2 == notable_text && (
                        match decoded_of(outcome, ResponseKind::HotspotList) {
                            Some(DecodedView::Hotspots(hs)) => hotspots_text@
                                == format_hotspots_spec(hs),
                            _ => false,
                        }) && prepared_for(client, req, day_trip_species_request(args, species)),
                        _ => false,
                    },
                    _ => false,
                },
            },
        },
        DayTripState::FetchSpecies { args, region_name, notable_text, hotspots_text } => match r {
            Err(m) => match args.target_species {
                Some(_) => step_failure_text(
                    "Failed to fetch species observations: "@,
                    ResponseKind::ObservationList,
                    outcome,
                    m@,
                ) && decoded_of(outcome, ResponseKind::ObservationList) is None,
                None => if decoded_of(outcome, ResponseKind::ObservationList) is Some {
                    m@ == "Failed to fetch species observations: no target species was requested"@
                } else {
                    step_failure_text(
                        "Failed to fetch species observations: "@,
                        ResponseKind::ObservationList,
                        outcome,
                        m@,
                    )
                },
            },
            Ok(step) => outcome_success(outcome) && match (args.target_species, step) {
                (Some(species), DayTripStep::Done(doc)) => match decoded_of(
                    outcome,
                    ResponseKind::ObservationList,
                ) {
                    Some(DecodedView::Observations(os)) => doc@ == day_trip_document(
                        args.duration_hours,
                        region_name@,
                        notable_text@,
                        hotspots_text@,
                        target_info_text(species@, format_observations_spec(os)),
                    ),
                    _ => false,
                },
                _ => false,
            },
        },
    }
}

/// Begins a day-trip composition: the first call resolves the region.
pub fn day_trip_start(client: &ApiClient, args: DayTripArgs) -> (r: (
    DayTripState,
    PreparedRequest,
))
    ensures
        r.0 == (DayTripState::FetchRegionInfo { args }),
        prepared_for(
            *client,
            r.1,
            (GetRegionInfoRequest { region_code: args.region }),
        ),
{
    let request = GetRegionInfoRequest { region_code: args.region.clone() };
    let prepared = client.prepare(&request);
    (DayTripState::FetchRegionInfo { args }, prepared)
}

/// Builds the step-failure message: the step's name, then the error.
fn failure_message(prefix: &str, e: &ApiError) -> (r: String)
    ensures
        r@ == prefix@ + e.spec_message(),
{
    let mut m = String::from_str(prefix);
    let detail = e.message();
    m.append(detail.as_str());
    m
}

/// Advances a day-trip composition by one completed call.
pub fn day_trip_step(client: &ApiClient, state: DayTripState, outcome: TransportOutcome) -> (r:
    Result<DayTripStep, String>)
    ensures
        day_trip_step_spec(*client, state, outcome, r),
{
    match state {
        DayTripState::FetchRegionInfo { args } => {
            match client.complete(ResponseKind::RegionInfoRecord, outcome) {
                Err(e) => {
                    let m = failure_message("Failed to fetch region info: ", &e);
                    proof {
                        lemma_failure_message_classified(
                            "Failed to fetch region info: "@,
                            ResponseKind::RegionInfoRecord,
                            outcome,
                            e,
                            m@,
                        );
                    }
                    Err(m)
                },
                Ok(d) => {
                    proof {
                        assert(decoded_of(outcome, ResponseKind::RegionInfoRecord) == Some(d@));
                    }
                    match d {
                        DecodedResponse::Region(info) => {
                            let request = FetchNotableRecentRequest {
                                region_code: args.region.clone(),
                                back: Some(7),
                            };
                            let prepared = client.prepare(&request);
                            Ok(
                                DayTripStep::Continue(
                                    DayTripState::FetchNotable { args, region_name: info.result },
                                    prepared,
                                ),
                            )
                        },
                        _ => {
                            proof {
                                assert(false);
                            }
                            Err(String::new())
                        },
                    }
                },
            }
        },
        DayTripState::FetchNotable { args, region_name } => {
            match client.complete(ResponseKind::ObservationList, outcome) {
                Err(e) => {
                    let m = failure_message("Failed to fetch notable sightings: ", &e);
                    proof {
                        lemma_failure_message_classified(
                            "Failed to fetch notable sightings: "@,
                            ResponseKind::ObservationList,
                            outcome,
                            e,
                            m@,
                        );
                    }
                    Err(m)
                },
                Ok(d) => {
                    proof {
                        assert(decoded_of(outcome, ResponseKind::ObservationList) == Some(d@));
                    }
                    match d {
                        DecodedResponse::Observations(list) => {
                            let notable_text = format_notable(&list);
                            let request = FetchRegionHotspotsRequest {
                                region_code: args.region.clone(),
                                back: Some(7),
                            };
                            let prepared = client.prepare(&request);
                            Ok(
                                DayTripStep::Continue(
                                    DayTripState::FetchHotspots {
                                        args,
                                        region_name,
                                        notable_text,
                                    },
                                    prepared,
                                ),
                            )
                        },
                        _ => {
                            proof {
                                assert(false);
                            }
                            Err(String::new())
                        },
                    }
                },
            }
        },
        DayTripState::FetchHotspots { args, region_name, notable_text } => {
            match client.complete(ResponseKind::HotspotList, outcome) {
                Err(e) => {
                    let m = failure_message("Failed to fetch hotspots: ", &e);
                    proof {
                        lemma_failure_message_classified(
                            "Failed to fetch hotspots: "@,
                            ResponseKind::HotspotList,
                            outcome,
                            e,
                            m@,
                        );
                    }
                    Err(m)
                },
                Ok(d) => {
                    proof {
                        assert(decoded_of(outcome, ResponseKind::HotspotList) == Some(d@));
                    }
                    match d {
                        DecodedResponse::Hotspots(list) => {
                            let hotspots_text = format_hotspots(&list);
                            match &args.target_species {
                                None => {
                                    let doc = build_day_trip_document(
                                        args.duration_hours,
                                        &region_name,
                                        &notable_text,
                                        &hotspots_text,
                                        &String::new(),
                                    );
                                    Ok(DayTripStep::Done(doc))
                                },
                                Some(species) => {
                                    let request = FetchSpeciesRecentRequest {
                                        region_code: args.region.clone(),
                                        species_code: species.clone(),
                                        back: Some(14),
                                    };
                                    let prepared = client.prepare(&request);
                                    Ok(
                                        DayTripStep::Continue(
                                            DayTripState::FetchSpecies {
                                                args,
                                                region_name,
                                                notable_text,
                                                hotspots_text,
                                            },
                                            prepared,
                                        ),
                                    )
                                },
                            }
                        },
                        _ => {
                            proof {
                                assert(false);
                            }
                            Err(String::new())
                        },
                    }
                },
            }
        },
        DayTripState::FetchSpecies { args, region_name, notable_text, hotspots_text } => {
            match client.complete(ResponseKind::ObservationList, outcome) {
                Err(e) => {
                    let m = failure_message("Failed to fetch species observations: ", &e);
                    proof {
                        lemma_failure_message_classified(
                            "Failed to fetch species observations: "@,
                            ResponseKind::ObservationList,
                            outcome,
                            e,
                            m@,
                        );
                    }
                    Err(m)
                },
                Ok(d) => {
                    proof {
                        assert(decoded_of(outcome, ResponseKind::ObservationList) == Some(d@));
                    }
                    match d {
                        DecodedResponse::Observations(list) => {
                            match &args.target_species {
                                Some(species) => {
                                    let obs_text = format_observations(&list);
                                    let mut target: Vec<char> = Vec::new();
                                    push_str_chars(&mut target, "\n\n### Target Species: ");
                                    push_str_chars(&mut target, species.as_str());
                                    push_str_chars(
                                        &mut target,
                                        "\nRecent sightings (last 14 days):\n",
                                    );
                                    push_str_chars(&mut target, obs_text.as_str());
                                    let target_info = string_from_chars(&target);
                                    let doc = build_day_trip_document(
                                        args.duration_hours,
                                        &region_name,
                                        &notable_text,
                                        &hotspots_text,
                                        &target_info,
                                    );
                                    Ok(DayTripStep::Done(doc))
                                },
                                None => {
                                    // This state is only ever entered with a
                                    // target species; refuse rather than
                                    // build a half document.
                                    Err(
                                        String::from_str(
                                            "Failed to fetch species observations: no target species was requested",
                                        ),
                                    )
                                },
                            }
                        },
                        _ => {
                            proof {
                                assert(false);
                            }
                            Err(String::new())
                        },
                    }
                },
            }
        },
    }
}

/// A step-failure message is exactly the step's name followed by the
/// display text of the error it wraps, and such an error only arises from
/// an outcome that denotes no payload.
proof fn lemma_failure_message_classified(
    prefix: Seq<char>,
    kind: ResponseKind,
    outcome: TransportOutcome,
    e: ApiError,
    m: Seq<char>,
)
    requires
        m == prefix + e.spec_message(),
        match outcome {
            TransportOutcome::Failure { message } => e matches ApiError::Network {
                message: em,
            } && em == message,
            TransportOutcome::Response { status, body } => if !is_success(status) {
                e matches ApiError::HttpError { status: s, body: b } && s == status && b@
                    == (match body {
                    Ok(t) => t@,
                    Err(_) => unreadable_body_text(),
                })
            } else {
                e matches ApiError::Deserialization { message: dm } && dm@
                    == decode_failure_text(kind, body) && (match body {
                    Ok(text) => match json_parse_spec(text@) {
                        Some(j) => kind_decode(kind, j) is None,
                        None => true,
                    },
                    Err(_) => true,
                })
            },
        },
    ensures
        step_failure_text(prefix, kind, outcome, m),
        decoded_of(outcome, kind) is None,
{
}

/// The validated arguments of a species-finding composition.
#[derive(Debug, Clone)]
pub struct FindSpeciesArgs {
    pub species_code: String,
    pub region: String,
}

/// Validates the caller's species-finder arguments: both the species code
/// and the region are required.
pub fn parse_find_species_args(species_code: Option<String>, region: Option<String>) -> (r:
    Result<FindSpeciesArgs, String>)
    ensures
        match (species_code, region) {
            (None, _) => r matches Err(m) && m@ == "Missing required argument: species_code"@,
            (Some(_), None) => r matches Err(m) && m@ == "Missing required argument: region"@,
            (Some(sc), Some(rc)) => r matches Ok(a) && a.species_code == sc && a.region == rc,
        },
{
    let species_code = match species_code {
        Some(sc) => sc,
        None => {
            return Err(String::from_str("Missing required argument: species_code"));
        },
    };
    let region = match region {
        Some(rc) => rc,
        None => {
            return Err(String::from_str("Missing required argument: region"));
        },
    };
    Ok(FindSpeciesArgs { species_code, region })
}

/// The task portion of every species-finder document.
pub open spec fn find_species_task_text() -> Seq<char> {
    "\n\n## Your Task\n\nBased on these recent sightings, recommend:\n1. **Top 3 locations** with the highest probability of seeing this species\n2. **Best times of day** based on when it's been observed\n3. **Identification tips** specific to this species\n4. **Habitat preferences** where it's been found\n5. **Recent trends** (increasing/stable/decreasing sightings)\n\nIf there are no recent sightings, suggest:\n- Whether it's currently in range (seasonal patterns)\n- Where it was last seen (use fetch_historic or expand the search)\n- Alternative species to look for instead\n\nYou can use these tools for more information:\n- fetch_hotspot_recent: Check specific hotspot activity\n- fetch_species_nearest: Find nearest sightings by coordinates"@
}

/// The finished species-finder document.
pub open spec fn find_species_document(
    species: Seq<char>,
    region: Seq<char>,
    obs_text: Seq<char>,
) -> Seq<char> {
    "Find the best locations and times to see **"@ + species + "** in "@ + region
        + ".\n\n## Recent Sightings (last 14 days)\n"@ + obs_text + find_species_task_text()
}

/// The sightings request of a species finder: the last fourteen days.
pub open spec fn find_species_request_spec(args: FindSpeciesArgs) -> FetchSpeciesRecentRequest {
    FetchSpeciesRecentRequest {
        region_code: args.region,
        species_code: args.species_code,
        back: Some(14u32),
    }
}

/// Begins a species-finding composition: one call fetches the recent
/// sightings.
pub fn find_species_start(client: &ApiClient, args: &FindSpeciesArgs) -> (r: PreparedRequest)
    ensures
        prepared_for(*client, r, find_species_request_spec(*args)),
{
    let request = FetchSpeciesRecentRequest {
        region_code: args.region.clone(),
        species_code: args.species_code.clone(),
        back: Some(14),
    };
    client.prepare(&request)
}

/// What the finish of a species-finding composition guarantees.
pub open spec fn find_species_finish_spec(
    args: FindSpeciesArgs,
    outcome: TransportOutcome,
    r: Result<String, String>,
) -> bool {
    match r {
        Err(m) => step_failure_text(
            "Failed to fetch species observations: "@,
            ResponseKind::ObservationList,
            outcome,
            m@,
        ) && decoded_of(outcome, ResponseKind::ObservationList) is None,
        Ok(doc) => outcome_success(outcome) && match decoded_of(
            outcome,
            ResponseKind::ObservationList,
        ) {
            Some(DecodedView::Observations(os)) => doc@ == find_species_document(
                args.species_code@,
                args.region@,
                format_observations_spec(os),
            ),
            _ => false,
        },
    }
}

/// Finishes a species-finding composition from its one completed call.
pub fn find_species_finish(
    client: &ApiClient,
    args: &FindSpeciesArgs,
    outcome: TransportOutcome,
) -> (r: Result<String, String>)
    ensures
        find_species_finish_spec(*args, outcome, r),
{
    match client.complete(ResponseKind::ObservationList, outcome) {
        Err(e) => {
            let m = failure_message("Failed to fetch species observations: ", &e);
            proof {
                lemma_failure_message_classified(
                    "Failed to fetch species observations: "@,
                    ResponseKind::ObservationList,
                    outcome,
                    e,
                    m@,
                );
            }
            Err(m)
        },
        Ok(d) => {
            proof {
                assert(decoded_of(outcome, ResponseKind::ObservationList) == Some(d@));
            }
            match d {
                DecodedResponse::Observations(list) => {
                    let obs_text = format_observations(&list);
                    let mut out: Vec<char> = Vec::new();
                    push_str_chars(&mut out, "Find the best locations and times to see **");
                    push_str_chars(&mut out, args.species_code.as_str());
                    push_str_chars(&mut out, "** in ");
                    push_str_chars(&mut out, args.region.as_str());
                    push_str_chars(&mut out, ".\n\n## Recent Sightings (last 14 days)\n");
                    push_str_chars(&mut out, obs_text.as_str());
                    push_str_chars(
                        &mut out,
                        "\n\n## Your Task\n\nBased on these recent sightings, recommend:\n1. **Top 3 locations** with the highest probability of seeing this species\n2. **Best times of day** based on when it's been observed\n3. **Identification tips** specific to this species\n4. **Habitat preferences** where it's been found\n5. **Recent trends** (increasing/stable/decreasing sightings)\n\nIf there are no recent sightings, suggest:\n- Whether it's currently in range (seasonal patterns)\n- Where it was last seen (use fetch_historic or expand the search)\n- Alternative species to look for instead\n\nYou can use these tools for more information:\n- fetch_hotspot_recent: Check specific hotspot activity\n- fetch_species_nearest: Find nearest sightings by coordinates",
                    );
                    Ok(string_from_chars(&out))
                },
                _ => {
                    proof {
                        assert(false);
                    }
                    Err(String::new())
                },
            }
        },
    }
}


/// How many times `c` occurs in `s`.
pub open spec fn count_char(s: Seq<char>, c: char) -> nat
    decreases s.len(),
{
    if s.len() == 0 {
        0
    } else {
        count_char(s.drop_last(), c) + (if s.last() == c {
            1nat
        } else {
            0nat
        })
    }
}

/// Occurrences add up over concatenation.
pub proof fn lemma_count_char_concat(a: Seq<char>, b: Seq<char>, c: char)
    ensures
        count_char(a + b, c) == count_char(a, c) + count_char(b, c),
    decreases b.len(),
{
    if b.len() == 0 {
        assert(a + b =~= a);
    } else {
        lemma_count_char_concat(a, b.drop_last(), c);
        assert((a + b).drop_last() =~= a + b.drop_last());
        assert((a + b).last() == b.last());
    }
}

/// Joining `n` single-line texts yields exactly `n - 1` separators.
pub proof fn lemma_join_lines_count(lines: Seq<Seq<char>>)
    requires
        lines.len() > 0,
        forall|k: int| 0 <= k < lines.len() ==> count_char(#[trigger] lines[k], '\n') == 0,
    ensures
        count_char(join_lines(lines), '\n') == lines.len() - 1,
    decreases lines.len(),
{
    if lines.len() == 1 {
    } else {
        lemma_join_lines_count(lines.drop_last());
        lemma_count_char_concat(join_lines(lines.drop_last()), seq!['\n'], '\n');
        lemma_count_char_concat(
            join_lines(lines.drop_last()) + seq!['\n'],
            lines.last(),
            '\n',
        );
        assert(count_char(seq!['\n'], '\n') == 1) by {
            reveal_with_fuel(count_char, 3);
            assert(seq!['\n'].drop_last() =~= Seq::<char>::empty());
        }
    }
}

/// List truncation: with at least fifteen notable sightings, each of whose
/// rendered lines holds no newline, the rendered section is the join of
/// exactly the first fifteen lines, in response order, with exactly
/// fourteen separators; the rest are left out without error.
pub proof fn lemma_notable_section_truncates(s: Seq<ObsView>)
    requires
        s.len() >= 15,
        forall|k: int| 0 <= k < 15 ==> count_char(#[trigger] notable_line(s[k]), '\n') == 0,
    ensures
        format_notable_spec(s) == join_lines(
            s.take(15).map_values(|o: ObsView| notable_line(o)),
        ),
        count_char(format_notable_spec(s), '\n') == 14,
    decreases s.len(),
{
    let lines = s.take(15).map_values(|o: ObsView| notable_line(o));
    assert(forall|k: int| 0 <= k < lines.len() ==> #[trigger] lines[k] == notable_line(s[k]));
    lemma_join_lines_count(lines);
}

/// List truncation for the hotspot section: ten lines at most.
pub proof fn lemma_hotspot_section_truncates(s: Seq<HotspotView>)
    requires
        s.len() >= 10,
        forall|k: int| 0 <= k < 10 ==> count_char(#[trigger] hotspot_line(s[k]), '\n') == 0,
    ensures
        format_hotspots_spec(s) == join_lines(
            s.take(10).map_values(|h: HotspotView| hotspot_line(h)),
        ),
        count_char(format_hotspots_spec(s), '\n') == 9,
{
    let lines = s.take(10).map_values(|h: HotspotView| hotspot_line(h));
    assert(forall|k: int| 0 <= k < lines.len() ==> #[trigger] lines[k] == hotspot_line(s[k]));
    lemma_join_lines_count(lines);
}

/// List truncation for the plain-observation section: twenty lines at
/// most.
pub proof fn lemma_observation_section_truncates(s: Seq<ObsView>)
    requires
        s.len() >= 20,
        forall|k: int| 0 <= k < 20 ==> count_char(#[trigger] observation_line(s[k]), '\n')
            == 0,
    ensures
        format_observations_spec(s) == join_lines(
            s.take(20).map_values(|o: ObsView| observation_line(o)),
        ),
        count_char(format_observations_spec(s), '\n') == 19,
{
    let lines = s.take(20).map_values(|o: ObsView| observation_line(o));
    assert(forall|k: int|
        0 <= k < lines.len() ==> #[trigger] lines[k] == observation_line(s[k]));
    lemma_join_lines_count(lines);
}

} // verus!
