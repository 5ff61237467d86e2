//! The weather client: the data model of the two remote services, the error
//! taxonomy of one refresh attempt, and the refresh session itself.
//!
//! One refresh is one resolve-then-fetch round trip. The network transport
//! and JSON decoding live outside the library; they hand decoded responses
//! (or a transport failure message) to the session steps here, which make
//! every decision: picking the top-ranked lookup candidate, parsing its
//! numeric identifier, translating failures into the error taxonomy, and
//! upholding the guarantee that a successful refresh carries a non-empty
//! forecast sequence.

use vstd::prelude::*;

verus! {

// ---------------------------------------------------------------------------
// Location lookup: response data model
// ---------------------------------------------------------------------------
/// One lookup candidate. Latitude and longitude are carried in millionths of
/// a degree so that no floating point enters the library; the transport
/// collaborator scales the decoded coordinates on the way in.
#[derive(Debug, Clone, PartialEq)]
pub struct WeatherLocationResult {
    pub id: String,
    pub name: String,
    pub container: String,
    pub country: String,
    pub latitude_micro_deg: i64,
    pub longitude_micro_deg: i64,
}

/// Mathematical model of one lookup candidate.
pub struct WeatherLocationResultView {
    pub id: Seq<char>,
    pub name: Seq<char>,
    pub container: Seq<char>,
    pub country: Seq<char>,
    pub latitude_micro_deg: int,
    pub longitude_micro_deg: int,
}

impl View for WeatherLocationResult {
    type V = WeatherLocationResultView;

    open spec fn view(&self) -> WeatherLocationResultView {
        WeatherLocationResultView {
            id: self.id@,
            name: self.name@,
            container: self.container@,
            country: self.country@,
            latitude_micro_deg: self.latitude_micro_deg as int,
            longitude_micro_deg: self.longitude_micro_deg as int,
        }
    }
}

/// The candidate list of one lookup response, ordered by the remote
/// service's own importance ranking, together with its reported match count.
#[derive(Debug, Clone, PartialEq)]
pub struct WeatherLocationResults {
    pub results: Vec<WeatherLocationResult>,
    pub total_results: u32,
}

/// Mathematical model of the candidate list.
pub struct WeatherLocationResultsView {
    pub results: Seq<WeatherLocationResultView>,
    pub total_results: int,
}

impl View for WeatherLocationResults {
    type V = WeatherLocationResultsView;

    open spec fn view(&self) -> WeatherLocationResultsView {
        WeatherLocationResultsView {
            results: self.results@.map_values(|r: WeatherLocationResult| r@),
            total_results: self.total_results as int,
        }
    }
}

/// The wrapper object the lookup service puts around its candidate list.
#[derive(Debug, Clone, PartialEq)]
pub struct WeatherLocationWrappedResults {
    pub results: WeatherLocationResults,
}

impl View for WeatherLocationWrappedResults {
    type V = WeatherLocationResultsView;

    open spec fn view(&self) -> WeatherLocationResultsView {
        self.results@
    }
}

/// One decoded lookup response.
#[derive(Debug, Clone, PartialEq)]
pub struct WeatherLocationResponse {
    pub response: WeatherLocationWrappedResults,
}

impl View for WeatherLocationResponse {
    type V = WeatherLocationResultsView;

    open spec fn view(&self) -> WeatherLocationResultsView {
        self.response@
    }
}

impl WeatherLocationResultsView {
    /// The external contract of the lookup service: a positive match count
    /// comes with at least one candidate.
    pub open spec fn wf(self) -> bool {
        self.total_results > 0 ==> self.results.len() > 0
    }
}

// ---------------------------------------------------------------------------
// Forecast: response data model
// ---------------------------------------------------------------------------
/// One sub-period report inside a day's detailed breakdown.
#[derive(Debug, Clone, PartialEq)]
pub struct WeatherDetailedReport {
    pub weather_type: u8,
    pub weather_type_text: String,
}

/// Mathematical model of one sub-period report.
pub struct WeatherDetailedReportView {
    pub weather_type: int,
    pub weather_type_text: Seq<char>,
}

impl View for WeatherDetailedReport {
    type V = WeatherDetailedReportView;

    open spec fn view(&self) -> WeatherDetailedReportView {
        WeatherDetailedReportView {
            weather_type: self.weather_type as int,
            weather_type_text: self.weather_type_text@,
        }
    }
}

/// A day's detailed multi-period breakdown.
#[derive(Debug, Clone, PartialEq)]
pub struct WeatherDetailedForecast {
    pub issue_date: String,
    pub last_updated: String,
    pub reports: Vec<WeatherDetailedReport>,
}

/// Mathematical model of a day's detailed breakdown.
pub struct WeatherDetailedForecastView {
    pub issue_date: Seq<char>,
    pub last_updated: Seq<char>,
    pub reports: Seq<WeatherDetailedReportView>,
}

impl View for WeatherDetailedForecast {
    type V = WeatherDetailedForecastView;

    open spec fn view(&self) -> WeatherDetailedForecastView {
        WeatherDetailedForecastView {
            issue_date: self.issue_date@,
            last_updated: self.last_updated@,
            reports: self.reports@.map_values(|r: WeatherDetailedReport| r@),
        }
    }
}

/// A day's summary record: the only part of a forecast the dispatcher reads.
/// Temperatures are tenths of a degree Celsius, wind speed tenths of a kph,
/// precipitation probability tenths of a percent; sunrise and sunset are
/// opaque timestamp strings, not parsed further.
#[derive(Debug, Clone, PartialEq)]
pub struct WeatherSummaryReport {
    pub sunrise: String,
    pub sunset: String,
    pub max_temp_deci_c: i64,
    pub min_temp_deci_c: i64,
    pub wind_speed_deci_kph: i64,
    pub wind_direction: String,
    pub weather_type: u8,
    pub weather_type_text: String,
    pub precipitation_probability_deci_percent: i64,
}

/// Mathematical model of a day's summary record.
pub struct WeatherSummaryReportView {
    pub sunrise: Seq<char>,
    pub sunset: Seq<char>,
    pub max_temp_deci_c: int,
    pub min_temp_deci_c: int,
    pub wind_speed_deci_kph: int,
    pub wind_direction: Seq<char>,
    pub weather_type: int,
    pub weather_type_text: Seq<char>,
    pub precipitation_probability_deci_percent: int,
}

impl View for WeatherSummaryReport {
    type V = WeatherSummaryReportView;

    open spec fn view(&self) -> WeatherSummaryReportView {
        WeatherSummaryReportView {
            sunrise: self.sunrise@,
            sunset: self.sunset@,
            max_temp_deci_c: self.max_temp_deci_c as int,
            min_temp_deci_c: self.min_temp_deci_c as int,
            wind_speed_deci_kph: self.wind_speed_deci_kph as int,
            wind_direction: self.wind_direction@,
            weather_type: self.weather_type as int,
            weather_type_text: self.weather_type_text@,
            precipitation_probability_deci_percent: self.precipitation_probability_deci_percent
                as int,
        }
    }
}

/// A day's summary section: issue timestamps plus the summary record.
#[derive(Debug, Clone, PartialEq)]
pub struct WeatherSummaryForecast {
    pub issue_date: String,
    pub last_updated: String,
    pub report: WeatherSummaryReport,
}

/// Mathematical model of a day's summary section.
pub struct WeatherSummaryForecastView {
    pub issue_date: Seq<char>,
    pub last_updated: Seq<char>,
    pub report: WeatherSummaryReportView,
}

impl View for WeatherSummaryForecast {
    type V = WeatherSummaryForecastView;

    open spec fn view(&self) -> WeatherSummaryForecastView {
        WeatherSummaryForecastView {
            issue_date: self.issue_date@,
            last_updated: self.last_updated@,
            report: self.report@,
        }
    }
}

/// One per-day entry of a forecast.
#[derive(Debug, Clone, PartialEq)]
pub struct WeatherForecast {
    pub detailed: WeatherDetailedForecast,
    pub summary: WeatherSummaryForecast,
}

/// Mathematical model of one per-day entry.
pub struct WeatherForecastView {
    pub detailed: WeatherDetailedForecastView,
    pub summary: WeatherSummaryForecastView,
}

impl View for WeatherForecast {
    type V = WeatherForecastView;

    open spec fn view(&self) -> WeatherForecastView {
        WeatherForecastView { detailed: self.detailed@, summary: self.summary@ }
    }
}

/// One decoded forecast response: an ordered sequence of per-day entries.
/// When the sequence is non-empty, entry 0 is today and is the only entry
/// the dispatcher ever reads.
#[derive(Debug, Clone, PartialEq)]
pub struct WeatherForecastResponse {
    pub forecasts: Vec<WeatherForecast>,
}

/// Mathematical model of one forecast response.
pub struct WeatherForecastResponseView {
    pub forecasts: Seq<WeatherForecastView>,
}

impl View for WeatherForecastResponse {
    type V = WeatherForecastResponseView;

    open spec fn view(&self) -> WeatherForecastResponseView {
        WeatherForecastResponseView {
            forecasts: self.forecasts@.map_values(|f: WeatherForecast| f@),
        }
    }
}

// ---------------------------------------------------------------------------
// Error taxonomy
// ---------------------------------------------------------------------------
/// Why resolving a place name failed.
#[derive(Debug, Clone, PartialEq)]
pub enum ResolutionError {
    /// The remote service reported zero matches: a valid response, not a
    /// transport failure.
    NoResultsFound,
    /// A network or decode failure on the lookup round trip.
    Transport(String),
    /// The top-ranked candidate's identifier is not in the expected numeric
    /// form; the offending identifier is carried along.
    MalformedIdentifier(String),
}

/// Mathematical model of a resolution error.
pub enum ResolutionErrorView {
    NoResultsFound,
    Transport(Seq<char>),
    MalformedIdentifier(Seq<char>),
}

impl View for ResolutionError {
    type V = ResolutionErrorView;

    open spec fn view(&self) -> ResolutionErrorView {
        match self {
            ResolutionError::NoResultsFound => ResolutionErrorView::NoResultsFound,
            ResolutionError::Transport(m) => ResolutionErrorView::Transport(m@),
            ResolutionError::MalformedIdentifier(m) => ResolutionErrorView::MalformedIdentifier(
                m@,
            ),
        }
    }
}

/// Why fetching a forecast failed.
#[derive(Debug, Clone, PartialEq)]
pub enum FetchError {
    /// A network failure on the forecast round trip.
    Transport(String),
    /// The response did not match the expected schema.
    Decode(String),
}

/// Mathematical model of a fetch error.
pub enum FetchErrorView {
    Transport(Seq<char>),
    Decode(Seq<char>),
}

impl View for FetchError {
    type V = FetchErrorView;

    open spec fn view(&self) -> FetchErrorView {
        match self {
            FetchError::Transport(m) => FetchErrorView::Transport(m@),
            FetchError::Decode(m) => FetchErrorView::Decode(m@),
        }
    }
}

/// The uniform error of one refresh attempt, as the poll loop sees it.
#[derive(Debug, Clone, PartialEq)]
pub enum RefreshError {
    Resolution(ResolutionError),
    Fetch(FetchError),
}

/// Mathematical model of a refresh error.
pub enum RefreshErrorView {
    Resolution(ResolutionErrorView),
    Fetch(FetchErrorView),
}

impl View for RefreshError {
    type V = RefreshErrorView;

    open spec fn view(&self) -> RefreshErrorView {
        match self {
            RefreshError::Resolution(e) => RefreshErrorView::Resolution(e@),
            RefreshError::Fetch(e) => RefreshErrorView::Fetch(e@),
        }
    }
}

impl RefreshErrorView {
    /// The human-readable cause shown in the status sink.
    pub open spec fn message_view(self) -> Seq<char> {
        match self {
            RefreshErrorView::Resolution(ResolutionErrorView::NoResultsFound) => {
                "No results found"@
            },
            RefreshErrorView::Resolution(ResolutionErrorView::Transport(m)) => m,
            RefreshErrorView::Resolution(ResolutionErrorView::MalformedIdentifier(id)) => {
                "Malformed location identifier: "@ + id
            },
            RefreshErrorView::Fetch(FetchErrorView::Transport(m)) => m,
            RefreshErrorView::Fetch(FetchErrorView::Decode(m)) => m,
        }
    }
}

impl RefreshError {
    /// The human-readable cause shown in the status sink.
    pub fn message(&self) -> (r: String)
        ensures
            r@ == self@.message_view(),
    {
        match self {
            RefreshError::Resolution(ResolutionError::NoResultsFound) => {
                String::from_str("No results found")
            },
            RefreshError::Resolution(ResolutionError::Transport(m)) => m.clone(),
            RefreshError::Resolution(ResolutionError::MalformedIdentifier(id)) => {
                String::from_str("Malformed location identifier: ").concat(id.as_str())
            },
            RefreshError::Fetch(FetchError::Transport(m)) => m.clone(),
            RefreshError::Fetch(FetchError::Decode(m)) => m.clone(),
        }
    }
}

// ---------------------------------------------------------------------------
// The outcome of one refresh attempt
// ---------------------------------------------------------------------------
/// The tagged outcome of one refresh attempt, delivered in order to the
/// update dispatcher. `Waiting` always precedes the terminal outcome of the
/// same attempt, and exactly one terminal outcome is produced per attempt.
#[derive(Debug, Clone, PartialEq)]
pub enum RefreshOutcome {
    /// A refresh has started.
    Waiting,
    /// The refresh succeeded; the forecast sequence is non-empty.
    Received(WeatherForecastResponse),
    /// The refresh failed, with a human-readable cause.
    Error(String),
}

/// Mathematical model of a refresh outcome.
pub enum RefreshOutcomeView {
    Waiting,
    Received(WeatherForecastResponseView),
    Error(Seq<char>),
}

impl View for RefreshOutcome {
    type V = RefreshOutcomeView;

    open spec fn view(&self) -> RefreshOutcomeView {
        match self {
            RefreshOutcome::Waiting => RefreshOutcomeView::Waiting,
            RefreshOutcome::Received(r) => RefreshOutcomeView::Received(r@),
            RefreshOutcome::Error(m) => RefreshOutcomeView::Error(m@),
        }
    }
}

// ---------------------------------------------------------------------------
// Location identifiers: decimal parsing
// ---------------------------------------------------------------------------
/// Whether `c` is a decimal digit.
pub open spec fn is_dec_digit(c: char) -> bool {
    48 <= c as u32 <= 57
}

/// The numeric value of a decimal digit.
pub open spec fn dec_digit_value(c: char) -> int {
    c as u32 - 48
}

/// Whether every character of `s` is a decimal digit.
pub open spec fn all_dec_digits(s: Seq<char>) -> bool {
    forall|i: int| 0 <= i < s.len() ==> is_dec_digit(#[trigger] s[i])
}

/// The value of a decimal digit string, most significant digit first.
pub open spec fn dec_value(s: Seq<char>) -> int
    decreases s.len(),
{
    if s.len() == 0 {
        0
    } else {
        dec_value(s.drop_last()) * 10 + dec_digit_value(s.last())
    }
}

/// Whether `s` is a well-formed location identifier: a non-empty decimal
/// digit string whose value fits the numeric identifier type.
pub open spec fn location_id_wf(s: Seq<char>) -> bool {
    &&& s.len() > 0
    &&& all_dec_digits(s)
    &&& dec_value(s) <= u64::MAX
}

/// A digit string's value is never negative.
proof fn lemma_dec_value_nonneg(s: Seq<char>)
    requires
        all_dec_digits(s),
    ensures
        dec_value(s) >= 0,
    decreases s.len(),
{
    if s.len() > 0 {
        assert(all_dec_digits(s.drop_last())) by {
            assert(forall|i: int|
                0 <= i < s.drop_last().len() ==> #[trigger] s.drop_last()[i] == s[i]);
        }
        lemma_dec_value_nonneg(s.drop_last());
    }
}

/// A prefix of a digit string never has a larger value than the whole
/// string.
proof fn lemma_dec_value_take_le(s: Seq<char>, k: int)
    requires
        all_dec_digits(s),
        0 <= k <= s.len(),
    ensures
        dec_value(s.take(k)) <= dec_value(s),
    decreases s.len() - k,
{
    if k < s.len() {
        assert(s.take(k + 1).drop_last() =~= s.take(k));
        assert(s.take(k + 1).last() == s[k]);
        assert(all_dec_digits(s.take(k))) by {
            assert(forall|i: int| 0 <= i < k ==> #[trigger] s.take(k)[i] == s[i]);
        }
        lemma_dec_value_nonneg(s.take(k));
        lemma_dec_value_take_le(s, k + 1);
    } else {
        assert(s.take(k) =~= s);
    }
}

/// What parsing an identifier string yields: its value when it is
/// well-formed, and a malformed-identifier error carrying the string
/// otherwise.
pub open spec fn parse_location_id_spec(s: Seq<char>) -> Result<int, ResolutionErrorView> {
    if location_id_wf(s) {
        Ok(dec_value(s))
    } else {
        Err(ResolutionErrorView::MalformedIdentifier(s))
    }
}

/// Mathematical model of a parsed identifier result.
pub open spec fn located_id_view(r: Result<u64, ResolutionError>) -> Result<
    int,
    ResolutionErrorView,
> {
    match r {
        Ok(v) => Ok(v as int),
        Err(e) => Err(e@),
    }
}

/// Parse a location identifier: succeeds exactly on non-empty decimal digit
/// strings whose value fits, and returns that value.
pub fn parse_location_id(s: &str) -> (r: Result<u64, ResolutionError>)
    ensures
        located_id_view(r) == parse_location_id_spec(s@),
{
    let n = s.unicode_len();
    if n == 0 {
        return Err(ResolutionError::MalformedIdentifier(String::from_str(s)));
    }
    let mut value: u64 = 0;
    let mut i: usize = 0;
    while i < n
        invariant
            i <= n,
            n == s@.len(),
            forall|j: int| 0 <= j < i ==> is_dec_digit(#[trigger] s@[j]),
            value as int == dec_value(s@.take(i as int)),
        decreases n - i,
    {
        let c = s.get_char(i);
        let code = c as u32;
        if code < 48 || code > 57 {
            assert(!is_dec_digit(s@[i as int]));
            return Err(ResolutionError::MalformedIdentifier(String::from_str(s)));
        }
        let digit = (code - 48) as u64;
        proof {
            assert(s@.take(i as int + 1).drop_last() =~= s@.take(i as int));
            assert(s@.take(i as int + 1).last() == s@[i as int]);
            vstd::arithmetic::div_mod::lemma_fundamental_div_mod(
                u64::MAX as int - digit as int,
                10,
            );
        }
        if value > (u64::MAX - digit) / 10 {
            proof {
                assert(dec_value(s@.take(i as int + 1)) > u64::MAX);
                if all_dec_digits(s@) {
                    lemma_dec_value_take_le(s@, i as int + 1);
                }
                assert(!location_id_wf(s@));
            }
            return Err(ResolutionError::MalformedIdentifier(String::from_str(s)));
        }
        value = value * 10 + digit;
        i = i + 1;
    }
    proof {
        assert(s@.take(n as int) =~= s@);
    }
    Ok(value)
}

// ---------------------------------------------------------------------------
// The weather client: one refresh session
// ---------------------------------------------------------------------------
/// Where one refresh session stands. The session owner performs the named
/// round trip and feeds the decoded reply back into the next step; a
/// resolution failure completes the session without a forecast round trip
/// ever being requested.
#[derive(Debug, PartialEq)]
pub enum RefreshPhase {
    /// The location lookup round trip is owed for this place name.
    AwaitingLookup { location: String },
    /// The forecast round trip is owed for this resolved identifier.
    AwaitingForecast { location_id: u64 },
    /// The refresh attempt is over, one way or the other.
    Complete { outcome: Result<WeatherForecastResponse, RefreshError> },
}

/// Mathematical model of a refresh session phase.
pub enum RefreshPhaseView {
    AwaitingLookup(Seq<char>),
    AwaitingForecast(int),
    Complete(Result<WeatherForecastResponseView, RefreshErrorView>),
}

impl View for RefreshPhase {
    type V = RefreshPhaseView;

    open spec fn view(&self) -> RefreshPhaseView {
        match self {
            RefreshPhase::AwaitingLookup { location } => RefreshPhaseView::AwaitingLookup(
                location@,
            ),
            RefreshPhase::AwaitingForecast { location_id } => RefreshPhaseView::AwaitingForecast(
                *location_id as int,
            ),
            RefreshPhase::Complete { outcome } => RefreshPhaseView::Complete(
                match outcome {
                    Ok(r) => Ok(r@),
                    Err(e) => Err(e@),
                },
            ),
        }
    }
}

/// What resolving a decoded lookup response yields: `NoResultsFound` exactly
/// when the service reported zero matches, the parsed identifier of the
/// top-ranked candidate otherwise, or a malformed-identifier error when that
/// identifier does not parse.
pub open spec fn resolve_location_spec(r: WeatherLocationResultsView) -> Result<
    int,
    ResolutionErrorView,
> {
    if r.total_results == 0 {
        Err(ResolutionErrorView::NoResultsFound)
    } else {
        parse_location_id_spec(r.results[0].id)
    }
}

/// Mathematical model of a lookup reply: the decoded response, or the
/// transport failure message.
pub open spec fn lookup_reply_view(r: Result<WeatherLocationResponse, String>) -> Result<
    WeatherLocationResultsView,
    Seq<char>,
> {
    match r {
        Ok(resp) => Ok(resp@),
        Err(m) => Err(m@),
    }
}

/// What the session does with a lookup reply: a transport failure or a
/// resolution error completes the attempt; a resolved identifier moves the
/// session to the forecast round trip.
pub open spec fn process_lookup_spec(reply: Result<WeatherLocationResultsView, Seq<char>>)
    -> RefreshPhaseView {
    match reply {
        Err(m) => RefreshPhaseView::Complete(
            Err(RefreshErrorView::Resolution(ResolutionErrorView::Transport(m))),
        ),
        Ok(resp) => match resolve_location_spec(resp) {
            Ok(id) => RefreshPhaseView::AwaitingForecast(id),
            Err(e) => RefreshPhaseView::Complete(Err(RefreshErrorView::Resolution(e))),
        },
    }
}

/// Mathematical model of a forecast reply: the decoded response, or the
/// fetch error.
pub open spec fn forecast_reply_view(r: Result<WeatherForecastResponse, FetchError>) -> Result<
    WeatherForecastResponseView,
    FetchErrorView,
> {
    match r {
        Ok(resp) => Ok(resp@),
        Err(e) => Err(e@),
    }
}

/// What the session does with a forecast reply: a fetch error completes the
/// attempt with that error; a decoded response with no entries breaks the
/// schema guarantee and completes as a decode error; otherwise the attempt
/// succeeds with the response.
pub open spec fn process_forecast_spec(reply: Result<WeatherForecastResponseView, FetchErrorView>)
    -> RefreshPhaseView {
    match reply {
        Err(e) => RefreshPhaseView::Complete(Err(RefreshErrorView::Fetch(e))),
        Ok(resp) => {
            if resp.forecasts.len() == 0 {
                RefreshPhaseView::Complete(
                    Err(
                        RefreshErrorView::Fetch(
                            FetchErrorView::Decode("Forecast response contained no forecasts"@),
                        ),
                    ),
                )
            } else {
                RefreshPhaseView::Complete(Ok(resp))
            }
        },
    }
}

/// The weather client: composes the location resolver and the forecast
/// fetcher into one resolve-then-fetch session per refresh. It never caches
/// a resolved identifier between refreshes; every session starts with a
/// fresh lookup.
pub struct WeatherAPI;

impl WeatherAPI {
    pub fn new() -> (c: Self) {
        WeatherAPI
    }

    /// Begin one refresh for a place name: the session first owes the
    /// location lookup round trip.
    pub fn start_refresh(&self, location: String) -> (p: RefreshPhase)
        ensures
            p@ == RefreshPhaseView::AwaitingLookup(location@),
    {
        RefreshPhase::AwaitingLookup { location }
    }

    /// Resolve a decoded lookup response to the identifier of the top-ranked
    /// match. Zero reported matches yield `NoResultsFound`; otherwise the
    /// first candidate's identifier is parsed, and the parse failing is a
    /// `MalformedIdentifier` error.
    pub fn get_location_id(&self, response: &WeatherLocationResponse) -> (r: Result<
        u64,
        ResolutionError,
    >)
        requires
            response@.wf(),
        ensures
            located_id_view(r) == resolve_location_spec(response@),
    {
        if response.response.results.total_results == 0 {
            return Err(ResolutionError::NoResultsFound);
        }
        let first = &response.response.results.results[0];
        parse_location_id(first.id.as_str())
    }

    /// Feed the lookup reply into the session: completes the attempt on any
    /// resolution failure (so no forecast round trip is ever requested for
    /// it), and otherwise moves on to the forecast round trip.
    pub fn process_lookup(&self, reply: Result<WeatherLocationResponse, String>) -> (p:
        RefreshPhase)
        requires
            reply matches Ok(resp) ==> resp@.wf(),
        ensures
            p@ == process_lookup_spec(lookup_reply_view(reply)),
    {
        match reply {
            Err(m) => RefreshPhase::Complete {
                outcome: Err(RefreshError::Resolution(ResolutionError::Transport(m))),
            },
            Ok(resp) => match self.get_location_id(&resp) {
                Ok(id) => RefreshPhase::AwaitingForecast { location_id: id },
                Err(e) => RefreshPhase::Complete { outcome: Err(RefreshError::Resolution(e)) },
            },
        }
    }

    /// Feed the forecast reply into the session: the attempt completes, and
    /// a successful outcome is guaranteed to carry a non-empty forecast
    /// sequence (an empty one breaks the aggregation service's schema and is
    /// reported as a decode error).
    pub fn process_forecast(&self, reply: Result<WeatherForecastResponse, FetchError>) -> (p:
        RefreshPhase)
        ensures
            p@ == process_forecast_spec(forecast_reply_view(reply)),
            p@ matches RefreshPhaseView::Complete(Ok(resp)) ==> resp.forecasts.len() > 0,
    {
        match reply {
            Err(e) => RefreshPhase::Complete { outcome: Err(RefreshError::Fetch(e)) },
            Ok(resp) => {
                if resp.forecasts.len() == 0 {
                    RefreshPhase::Complete {
                        outcome: Err(
                            RefreshError::Fetch(
                                FetchError::Decode(
                                    String::from_str("Forecast response contained no forecasts"),
                                ),
                            ),
                        ),
                    }
                } else {
                    RefreshPhase::Complete { outcome: Ok(resp) }
                }
            },
        }
    }
}

/// A lookup that reports zero matches always resolves to `NoResultsFound`
/// and completes the session, so the forecast round trip is never requested
/// for it.
pub proof fn lemma_zero_matches_never_fetches(resp: WeatherLocationResultsView)
    requires
        resp.total_results == 0,
    ensures
        process_lookup_spec(Ok(resp)) == RefreshPhaseView::Complete(
            Err(RefreshErrorView::Resolution(ResolutionErrorView::NoResultsFound)),
        ),
        !(process_lookup_spec(Ok(resp)) is AwaitingForecast),
{
}

} // verus!
