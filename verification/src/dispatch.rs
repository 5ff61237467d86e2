//! The update dispatcher: translates each refresh outcome into a fixed,
//! deterministically ordered series of per-sink updates and fans them out to
//! the display sinks.
//!
//! * `Waiting` marks the busy and loading sinks active and sets the status
//!   text to the in-progress indicator.
//! * `Received` reads entry 0 of the forecast — and nothing else — and
//!   updates the temperature range, condition category and wind direction
//!   sinks, then marks the busy sinks inactive with the completion status.
//! * `Error` puts the busy and loading sinks into the distinct error-display
//!   mode and shows the error message, leaving the previously displayed
//!   temperature, condition and wind values untouched.

use vstd::prelude::*;

use crate::client::RefreshOutcome;
use crate::client::RefreshOutcomeView;
use crate::client::WeatherForecastResponseView;
use crate::components::main_holding::MainHolding;
use crate::components::main_holding::MainHoldingMessage;
use crate::components::main_holding::MainHoldingState;
use crate::components::main_holding::MainHoldingStateView;
use crate::components::spinner::Spinner;
use crate::components::spinner::SpinnerMessage;
use crate::components::spinner::SpinnerState;
use crate::components::temperature_range::TemperatureRange;
use crate::components::temperature_range::TemperatureRangeMessage;
use crate::components::temperature_range::TemperatureRangeState;
use crate::components::weather_display::WeatherDisplay;
use crate::components::weather_display::WeatherDisplayMessage;
use crate::components::weather_display::WeatherDisplayState;
use crate::components::weather_image::category_of;
use crate::components::weather_image::weather_type_category;
use crate::components::weather_image::WeatherImage;
use crate::components::weather_image::WeatherImageMessage;
use crate::components::weather_image::WeatherImageState;
use crate::components::weather_image::WeatherType;
use crate::components::wind_direction::WindDirectionComponent;
use crate::components::wind_direction::WindDirectionMessage;
use crate::components::wind_direction::WindDirectionState;
use crate::components::wind_direction::WindDirectionStateView;

verus! {

/// One per-sink update call, addressed to the sink whose message it carries.
#[derive(Debug, PartialEq)]
pub enum SinkUpdate {
    Spinner(SpinnerMessage),
    WeatherDisplay(WeatherDisplayMessage),
    MainHolding(MainHoldingMessage),
    TemperatureRange(TemperatureRangeMessage),
    WeatherImage(WeatherImageMessage),
    WindDirection(WindDirectionMessage),
}

/// Mathematical model of one per-sink update call.
pub enum SinkUpdateView {
    Spinner { animating: bool, error: bool },
    WeatherDisplay { is_loading: bool, error: bool },
    MainHolding { is_loading: bool, error: bool, value: Seq<char> },
    TemperatureRange { min_temperature_deci_c: int, max_temperature_deci_c: int },
    WeatherImage { weather_type: WeatherType },
    WindDirection { direction: Seq<char> },
}

impl View for SinkUpdate {
    type V = SinkUpdateView;

    open spec fn view(&self) -> SinkUpdateView {
        match self {
            SinkUpdate::Spinner(m) => SinkUpdateView::Spinner {
                animating: m.animating,
                error: m.error,
            },
            SinkUpdate::WeatherDisplay(m) => SinkUpdateView::WeatherDisplay {
                is_loading: m.is_loading,
                error: m.error,
            },
            SinkUpdate::MainHolding(m) => SinkUpdateView::MainHolding {
                is_loading: m.is_loading,
                error: m.error,
                value: m.value@,
            },
            SinkUpdate::TemperatureRange(m) => SinkUpdateView::TemperatureRange {
                min_temperature_deci_c: m.min_temperature_deci_c as int,
                max_temperature_deci_c: m.max_temperature_deci_c as int,
            },
            SinkUpdate::WeatherImage(m) => SinkUpdateView::WeatherImage {
                weather_type: m.weather_type,
            },
            SinkUpdate::WindDirection(m) => SinkUpdateView::WindDirection {
                direction: m.direction@,
            },
        }
    }
}

/// Mathematical model of a series of updates.
pub open spec fn updates_view(updates: Seq<SinkUpdate>) -> Seq<SinkUpdateView> {
    updates.map_values(|u: SinkUpdate| u@)
}

/// The fixed series of per-sink updates each outcome translates into, in
/// the exact order they are delivered.
pub open spec fn dispatch_spec(outcome: RefreshOutcomeView) -> Seq<SinkUpdateView> {
    match outcome {
        RefreshOutcomeView::Waiting => seq![
            SinkUpdateView::Spinner { animating: true, error: false },
            SinkUpdateView::WeatherDisplay { is_loading: true, error: false },
            SinkUpdateView::MainHolding { is_loading: true, error: false, value: "Loading"@ },
        ],
        RefreshOutcomeView::Received(resp) => {
            let report = resp.forecasts[0].summary.report;
            seq![
                SinkUpdateView::TemperatureRange {
                    min_temperature_deci_c: report.min_temp_deci_c,
                    max_temperature_deci_c: report.max_temp_deci_c,
                },
                SinkUpdateView::WeatherImage { weather_type: category_of(report.weather_type) },
                SinkUpdateView::WindDirection { direction: report.wind_direction },
                SinkUpdateView::Spinner { animating: false, error: false },
                SinkUpdateView::WeatherDisplay { is_loading: false, error: false },
                SinkUpdateView::MainHolding { is_loading: false, error: false, value: "Loaded"@ },
            ]
        },
        RefreshOutcomeView::Error(msg) => seq![
            SinkUpdateView::Spinner { animating: true, error: true },
            SinkUpdateView::WeatherDisplay { is_loading: true, error: true },
            SinkUpdateView::MainHolding { is_loading: true, error: true, value: msg },
        ],
    }
}

/// Translate one refresh outcome into its fixed series of per-sink updates.
pub fn dispatch(outcome: &RefreshOutcome) -> (updates: Vec<SinkUpdate>)
    requires
        outcome@ matches RefreshOutcomeView::Received(resp) ==> resp.forecasts.len() > 0,
    ensures
        updates_view(updates@) == dispatch_spec(outcome@),
{
    let mut updates: Vec<SinkUpdate> = Vec::new();
    match outcome {
        RefreshOutcome::Waiting => {
            updates.push(SinkUpdate::Spinner(SpinnerMessage::new(true, false)));
            updates.push(
                SinkUpdate::WeatherDisplay(WeatherDisplayMessage { is_loading: true, error: false }),
            );
            updates.push(
                SinkUpdate::MainHolding(
                    MainHoldingMessage {
                        is_loading: true,
                        error: false,
                        value: String::from_str("Loading"),
                    },
                ),
            );
        },
        RefreshOutcome::Received(resp) => {
            let report = &resp.forecasts[0].summary.report;
            updates.push(
                SinkUpdate::TemperatureRange(
                    TemperatureRangeMessage::new((report.min_temp_deci_c, report.max_temp_deci_c)),
                ),
            );
            updates.push(
                SinkUpdate::WeatherImage(
                    WeatherImageMessage::new(weather_type_category(report.weather_type)),
                ),
            );
            updates.push(
                SinkUpdate::WindDirection(WindDirectionMessage::new(report.wind_direction.clone())),
            );
            updates.push(SinkUpdate::Spinner(SpinnerMessage::new(false, false)));
            updates.push(
                SinkUpdate::WeatherDisplay(
                    WeatherDisplayMessage { is_loading: false, error: false },
                ),
            );
            updates.push(
                SinkUpdate::MainHolding(
                    MainHoldingMessage {
                        is_loading: false,
                        error: false,
                        value: String::from_str("Loaded"),
                    },
                ),
            );
        },
        RefreshOutcome::Error(msg) => {
            updates.push(SinkUpdate::Spinner(SpinnerMessage::new(true, true)));
            updates.push(
                SinkUpdate::WeatherDisplay(WeatherDisplayMessage { is_loading: true, error: true }),
            );
            updates.push(
                SinkUpdate::MainHolding(
                    MainHoldingMessage { is_loading: true, error: true, value: msg.clone() },
                ),
            );
        },
    }
    proof {
        assert(updates_view(updates@) =~= dispatch_spec(outcome@));
    }
    updates
}

/// The five display sinks (plus the status line) behind their narrow update
/// interfaces, owned together so one outcome can be fanned out to all of
/// them on the thread that owns display state.
pub struct Dashboard {
    pub spinner: Spinner,
    pub spinner_state: SpinnerState,
    pub weather_display: WeatherDisplay,
    pub weather_display_state: WeatherDisplayState,
    pub main_holding: MainHolding,
    pub main_holding_state: MainHoldingState,
    pub temperature_range: TemperatureRange,
    pub temperature_range_state: TemperatureRangeState,
    pub weather_image: WeatherImage,
    pub weather_image_state: WeatherImageState,
    pub wind_direction: WindDirectionComponent,
    pub wind_direction_state: WindDirectionState,
}

/// Mathematical model of the displayed state of every sink.
pub struct DashboardView {
    pub spinner: SpinnerState,
    pub weather_display: WeatherDisplayState,
    pub main_holding: MainHoldingStateView,
    pub temperature_range: TemperatureRangeState,
    pub weather_image: WeatherImageState,
    pub wind_direction: WindDirectionStateView,
}

impl View for Dashboard {
    type V = DashboardView;

    open spec fn view(&self) -> DashboardView {
        DashboardView {
            spinner: self.spinner_state,
            weather_display: self.weather_display_state,
            main_holding: self.main_holding_state@,
            temperature_range: self.temperature_range_state,
            weather_image: self.weather_image_state,
            wind_direction: self.wind_direction_state@,
        }
    }
}

/// What one update does to the displayed state: exactly what the addressed
/// sink's own update entry point does, and nothing to any other sink.
pub open spec fn apply_spec(d: DashboardView, u: SinkUpdateView) -> DashboardView {
    match u {
        SinkUpdateView::Spinner { animating, error } => DashboardView {
            spinner: SpinnerState { animating, error, status: 0, value: d.spinner.value },
            weather_display: d.weather_display,
            main_holding: d.main_holding,
            temperature_range: d.temperature_range,
            weather_image: d.weather_image,
            wind_direction: d.wind_direction,
        },
        SinkUpdateView::WeatherDisplay { is_loading, error } => DashboardView {
            spinner: d.spinner,
            weather_display: WeatherDisplayState { is_loading, error },
            main_holding: d.main_holding,
            temperature_range: d.temperature_range,
            weather_image: d.weather_image,
            wind_direction: d.wind_direction,
        },
        SinkUpdateView::MainHolding { is_loading, error, value } => DashboardView {
            spinner: d.spinner,
            weather_display: d.weather_display,
            main_holding: MainHoldingStateView { is_loading, error, value },
            temperature_range: d.temperature_range,
            weather_image: d.weather_image,
            wind_direction: d.wind_direction,
        },
        SinkUpdateView::TemperatureRange { min_temperature_deci_c, max_temperature_deci_c } => {
            DashboardView {
                spinner: d.spinner,
                weather_display: d.weather_display,
                main_holding: d.main_holding,
                temperature_range: TemperatureRangeState {
                    min_temperature_deci_c: min_temperature_deci_c as i64,
                    max_temperature_deci_c: max_temperature_deci_c as i64,
                },
                weather_image: d.weather_image,
                wind_direction: d.wind_direction,
            }
        },
        SinkUpdateView::WeatherImage { weather_type } => DashboardView {
            spinner: d.spinner,
            weather_display: d.weather_display,
            main_holding: d.main_holding,
            temperature_range: d.temperature_range,
            weather_image: WeatherImageState { weather_image: weather_type },
            wind_direction: d.wind_direction,
        },
        SinkUpdateView::WindDirection { direction } => DashboardView {
            spinner: d.spinner,
            weather_display: d.weather_display,
            main_holding: d.main_holding,
            temperature_range: d.temperature_range,
            weather_image: d.weather_image,
            wind_direction: WindDirectionStateView { direction },
        },
    }
}

/// What a series of updates does to the displayed state, applied in order.
pub open spec fn apply_all_spec(d: DashboardView, us: Seq<SinkUpdateView>) -> DashboardView
    decreases us.len(),
{
    if us.len() == 0 {
        d
    } else {
        apply_spec(apply_all_spec(d, us.drop_last()), us.last())
    }
}

impl Dashboard {
    /// All sinks in their initial placeholder state.
    pub fn new() -> (d: Self)
        ensures
            d@.spinner == (SpinnerState { animating: false, error: false, status: 0, value: ' ' }),
            d@.weather_display == (WeatherDisplayState { is_loading: true, error: false }),
            d@.main_holding == (MainHoldingStateView {
                is_loading: false,
                error: false,
                value: Seq::<char>::empty(),
            }),
            d@.temperature_range == (TemperatureRangeState {
                min_temperature_deci_c: 0,
                max_temperature_deci_c: 0,
            }),
            d@.weather_image == (WeatherImageState { weather_image: WeatherType::Unknown }),
            d@.wind_direction == (WindDirectionStateView { direction: Seq::<char>::empty() }),
    {
        Dashboard {
            spinner: Spinner::new(),
            spinner_state: SpinnerState::new(),
            weather_display: WeatherDisplay::new(),
            weather_display_state: WeatherDisplayState::new(),
            main_holding: MainHolding::new(),
            main_holding_state: MainHoldingState::new(),
            temperature_range: TemperatureRange::new(),
            temperature_range_state: TemperatureRangeState::new(),
            weather_image: WeatherImage::new(),
            weather_image_state: WeatherImageState::new(),
            wind_direction: WindDirectionComponent::new(),
            wind_direction_state: WindDirectionState::new(),
        }
    }

    /// Route one update to the sink it addresses, through that sink's own
    /// update entry point.
    pub fn apply(&mut self, update: &SinkUpdate)
        ensures
            final(self)@ == apply_spec(old(self)@, update@),
    {
        match update {
            SinkUpdate::Spinner(m) => {
                self.spinner.message(
                    SpinnerMessage::new(m.animating, m.error),
                    &mut self.spinner_state,
                );
            },
            SinkUpdate::WeatherDisplay(m) => {
                self.weather_display.message(
                    WeatherDisplayMessage { is_loading: m.is_loading, error: m.error },
                    &mut self.weather_display_state,
                );
            },
            SinkUpdate::MainHolding(m) => {
                self.main_holding.message(
                    MainHoldingMessage {
                        is_loading: m.is_loading,
                        error: m.error,
                        value: m.value.clone(),
                    },
                    &mut self.main_holding_state,
                );
            },
            SinkUpdate::TemperatureRange(m) => {
                self.temperature_range.message(
                    TemperatureRangeMessage::new(
                        (m.min_temperature_deci_c, m.max_temperature_deci_c),
                    ),
                    &mut self.temperature_range_state,
                );
            },
            SinkUpdate::WeatherImage(m) => {
                self.weather_image.message(
                    WeatherImageMessage::new(m.weather_type),
                    &mut self.weather_image_state,
                );
            },
            SinkUpdate::WindDirection(m) => {
                self.wind_direction.message(
                    WindDirectionMessage::new(m.direction.clone()),
                    &mut self.wind_direction_state,
                );
            },
        }
    }

    /// Fan one refresh outcome out to every sink: translate it with
    /// [`dispatch`] and apply the updates in their fixed order.
    pub fn handle_outcome(&mut self, outcome: &RefreshOutcome)
        requires
            outcome@ matches RefreshOutcomeView::Received(resp) ==> resp.forecasts.len() > 0,
        ensures
            final(self)@ == apply_all_spec(old(self)@, dispatch_spec(outcome@)),
    {
        let updates = dispatch(outcome);
        let ghost views = updates_view(updates@);
        let n = updates.len();
        let mut idx: usize = 0;
        while idx < n
            invariant
                idx <= n,
                n == updates@.len(),
                views == updates_view(updates@),
                views == dispatch_spec(outcome@),
                self@ == apply_all_spec(old(self)@, views.take(idx as int)),
            decreases n - idx,
        {
            self.apply(&updates[idx]);
            proof {
                let taken = views.take(idx as int + 1);
                assert(taken.drop_last() =~= views.take(idx as int));
                assert(taken.last() == views[idx as int]);
            }
            idx = idx + 1;
        }
        proof {
            assert(views.take(n as int) =~= views);
        }
    }
}

/// On a successful refresh the dispatcher reads forecast entry 0 and nothing
/// else: two responses that agree on entry 0 produce the very same series of
/// updates, whatever their remaining entries hold.
pub proof fn lemma_dispatch_reads_only_first_entry(
    a: WeatherForecastResponseView,
    b: WeatherForecastResponseView,
)
    requires
        a.forecasts.len() > 0,
        b.forecasts.len() > 0,
        a.forecasts[0] == b.forecasts[0],
    ensures
        dispatch_spec(RefreshOutcomeView::Received(a)) == dispatch_spec(
            RefreshOutcomeView::Received(b),
        ),
{
    assert(dispatch_spec(RefreshOutcomeView::Received(a)) =~= dispatch_spec(
        RefreshOutcomeView::Received(b),
    ));
}

/// A failed refresh touches no weather value: after fanning out an error
/// outcome the temperature range, condition category and wind direction
/// sinks display exactly what they displayed before, while the busy and
/// loading sinks sit in the error-display mode and the status line carries
/// the message.
pub proof fn lemma_error_preserves_weather_sinks(d: DashboardView, msg: Seq<char>)
    ensures
        ({
            let d2 = apply_all_spec(d, dispatch_spec(RefreshOutcomeView::Error(msg)));
            &&& d2.temperature_range == d.temperature_range
            &&& d2.weather_image == d.weather_image
            &&& d2.wind_direction == d.wind_direction
            &&& d2.main_holding.value == msg
            &&& d2.main_holding.error
            &&& d2.spinner.error
            &&& d2.spinner.animating
            &&& d2.weather_display.error
        }),
{
    reveal_with_fuel(apply_all_spec, 4);
    let us = dispatch_spec(RefreshOutcomeView::Error(msg));
    assert(us.drop_last() =~= seq![
        SinkUpdateView::Spinner { animating: true, error: true },
        SinkUpdateView::WeatherDisplay { is_loading: true, error: true },
    ]);
    assert(us.drop_last().drop_last() =~= seq![
        SinkUpdateView::Spinner { animating: true, error: true },
    ]);
    assert(us.drop_last().drop_last().drop_last() =~= Seq::<SinkUpdateView>::empty());
}

} // verus!
