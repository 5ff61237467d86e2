use weathema::client::FetchError;
use weathema::client::RefreshError;
use weathema::client::RefreshOutcome;
use weathema::client::ResolutionError;
use weathema::client::WeatherAPI;
use weathema::client::WeatherDetailedForecast;
use weathema::client::WeatherForecast;
use weathema::client::WeatherForecastResponse;
use weathema::client::WeatherLocationResponse;
use weathema::client::WeatherLocationResult;
use weathema::client::WeatherLocationResults;
use weathema::client::WeatherLocationWrappedResults;
use weathema::client::WeatherSummaryForecast;
use weathema::client::WeatherSummaryReport;
use weathema::poll::PollEvent;
use weathema::poll::PollLoop;
use weathema::poll::DEFAULT_POLL_INTERVAL_SECS;

fn day_entry(weather_type: u8, min_deci_c: i64, max_deci_c: i64, wind: &str) -> WeatherForecast {
    WeatherForecast {
        detailed: WeatherDetailedForecast {
            issue_date: "2024-01-01T00:00:00Z".to_string(),
            last_updated: "2024-01-01T00:00:00Z".to_string(),
            reports: Vec::new(),
        },
        summary: WeatherSummaryForecast {
            issue_date: "2024-01-01T00:00:00Z".to_string(),
            last_updated: "2024-01-01T00:00:00Z".to_string(),
            report: WeatherSummaryReport {
                sunrise: "08:00".to_string(),
                sunset: "16:00".to_string(),
                max_temp_deci_c: max_deci_c,
                min_temp_deci_c: min_deci_c,
                wind_speed_deci_kph: 120,
                wind_direction: wind.to_string(),
                weather_type,
                weather_type_text: "".to_string(),
                precipitation_probability_deci_percent: 300,
            },
        },
    }
}

fn one_day_response() -> WeatherForecastResponse {
    WeatherForecastResponse { forecasts: vec![day_entry(3, 40, 90, "SW")] }
}

#[test]
fn startup_location_triggers_initial_refresh() {
    let (lp, step) = PollLoop::new(Some("Dyserth".to_string()), DEFAULT_POLL_INTERVAL_SECS);
    assert!(lp.is_refreshing());
    assert_eq!(step.emits, vec![RefreshOutcome::Waiting]);
    assert_eq!(step.start_refresh, Some("Dyserth".to_string()));
    assert!(!step.shutdown);
}

#[test]
fn no_startup_location_starts_idle() {
    let (lp, step) = PollLoop::new(None, 5);
    assert!(!lp.is_refreshing());
    assert_eq!(lp.poll_interval_secs(), 5);
    assert!(step.emits.is_empty());
    assert_eq!(step.start_refresh, None);
    assert!(!step.shutdown);
}

#[test]
fn new_location_while_idle_starts_refresh() {
    let (mut lp, _) = PollLoop::new(None, DEFAULT_POLL_INTERVAL_SECS);
    let step = lp.step(PollEvent::NewLocation("London".to_string()));
    assert!(lp.is_refreshing());
    assert_eq!(step.emits, vec![RefreshOutcome::Waiting]);
    assert_eq!(step.start_refresh, Some("London".to_string()));
}

#[test]
fn timer_while_idle_repolls_current_location() {
    let (mut lp, _) = PollLoop::new(Some("Dyserth".to_string()), DEFAULT_POLL_INTERVAL_SECS);
    let finish = lp.step(PollEvent::RefreshFinished(Ok(one_day_response())));
    assert_eq!(finish.emits, vec![RefreshOutcome::Received(one_day_response())]);
    assert!(!lp.is_refreshing());

    let step = lp.step(PollEvent::TimerElapsed);
    assert!(lp.is_refreshing());
    assert_eq!(step.emits, vec![RefreshOutcome::Waiting]);
    assert_eq!(step.start_refresh, Some("Dyserth".to_string()));
}

#[test]
fn timer_with_no_location_ever_given_does_nothing() {
    let (mut lp, _) = PollLoop::new(None, DEFAULT_POLL_INTERVAL_SECS);
    let step = lp.step(PollEvent::TimerElapsed);
    assert!(!lp.is_refreshing());
    assert!(step.emits.is_empty());
    assert_eq!(step.start_refresh, None);
    assert!(!step.shutdown);
}

#[test]
fn no_second_waiting_while_refresh_in_flight() {
    let (mut lp, startup) = PollLoop::new(Some("Dyserth".to_string()), DEFAULT_POLL_INTERVAL_SECS);
    assert_eq!(startup.emits, vec![RefreshOutcome::Waiting]);

    // A location submitted mid-refresh is queued: nothing emitted, nothing
    // started.
    let queued = lp.step(PollEvent::NewLocation("London".to_string()));
    assert!(queued.emits.is_empty());
    assert_eq!(queued.start_refresh, None);
    assert!(lp.is_refreshing());

    // The latest submission wins.
    let requeued = lp.step(PollEvent::NewLocation("Paris".to_string()));
    assert!(requeued.emits.is_empty());
    assert_eq!(requeued.start_refresh, None);

    // Only when the running attempt finishes does the queued refresh start,
    // its Waiting following the terminal outcome.
    let finish = lp.step(PollEvent::RefreshFinished(Ok(one_day_response())));
    assert_eq!(
        finish.emits,
        vec![RefreshOutcome::Received(one_day_response()), RefreshOutcome::Waiting]
    );
    assert_eq!(finish.start_refresh, Some("Paris".to_string()));
    assert!(lp.is_refreshing());
}

#[test]
fn failed_refresh_keeps_the_loop_alive() {
    let (mut lp, _) = PollLoop::new(Some("Nowhere".to_string()), DEFAULT_POLL_INTERVAL_SECS);
    let finish = lp.step(PollEvent::RefreshFinished(Err(RefreshError::Resolution(
        ResolutionError::NoResultsFound,
    ))));
    assert_eq!(finish.emits, vec![RefreshOutcome::Error("No results found".to_string())]);
    assert!(!finish.shutdown);
    assert!(!lp.is_refreshing());

    // The loop still accepts a new location on the next cycle.
    let step = lp.step(PollEvent::NewLocation("London".to_string()));
    assert_eq!(step.emits, vec![RefreshOutcome::Waiting]);
    assert_eq!(step.start_refresh, Some("London".to_string()));
}

#[test]
fn fetch_failure_message_reaches_the_outcome() {
    let (mut lp, _) = PollLoop::new(Some("Dyserth".to_string()), DEFAULT_POLL_INTERVAL_SECS);
    let finish = lp.step(PollEvent::RefreshFinished(Err(RefreshError::Fetch(
        FetchError::Transport("timed out".to_string()),
    ))));
    assert_eq!(finish.emits, vec![RefreshOutcome::Error("timed out".to_string())]);
}

#[test]
fn input_closed_shuts_the_loop_down() {
    let (mut lp, _) = PollLoop::new(None, DEFAULT_POLL_INTERVAL_SECS);
    let step = lp.step(PollEvent::InputClosed);
    assert!(step.shutdown);
    assert!(step.emits.is_empty());
    assert_eq!(step.start_refresh, None);
}

#[test]
fn end_to_end_startup_scenario() {
    // Startup location, resolved through a canned lookup, fetched through a
    // canned 14-entry forecast, delivered back to the loop.
    let (mut lp, startup) = PollLoop::new(Some("Dyserth".to_string()), DEFAULT_POLL_INTERVAL_SECS);
    assert_eq!(startup.emits, vec![RefreshOutcome::Waiting]);
    assert_eq!(startup.start_refresh, Some("Dyserth".to_string()));

    let api = WeatherAPI::new();
    let lookup = WeatherLocationResponse {
        response: WeatherLocationWrappedResults {
            results: WeatherLocationResults {
                results: vec![WeatherLocationResult {
                    id: "2650584".to_string(),
                    name: "Dyserth".to_string(),
                    container: "Denbighshire".to_string(),
                    country: "GB".to_string(),
                    latitude_micro_deg: 53_300_320,
                    longitude_micro_deg: -3_412_620,
                }],
                total_results: 1,
            },
        },
    };
    assert_eq!(api.get_location_id(&lookup), Ok(2650584));

    let mut entries = vec![day_entry(3, 40, 90, "SW")];
    for _ in 1..14 {
        entries.push(day_entry(7, 10, 60, "N"));
    }
    let response = WeatherForecastResponse { forecasts: entries };

    let finish = lp.step(PollEvent::RefreshFinished(Ok(response.clone())));
    assert_eq!(finish.emits, vec![RefreshOutcome::Received(response)]);
    assert!(!lp.is_refreshing());
}
