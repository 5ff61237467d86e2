use weathema::client::FetchError;
use weathema::client::RefreshError;
use weathema::client::RefreshPhase;
use weathema::client::ResolutionError;
use weathema::client::WeatherAPI;
use weathema::client::WeatherDetailedForecast;
use weathema::client::WeatherForecast;
use weathema::client::WeatherForecastResponse;
use weathema::client::WeatherLocationResponse;
use weathema::client::WeatherLocationResult;
use weathema::client::WeatherLocationResults;
use weathema::client::WeatherLocationWrappedResults;
use weathema::client::WeatherSummaryForecast;
use weathema::client::WeatherSummaryReport;
use weathema::client::parse_location_id;

fn location_response(
    total_results: u32,
    candidates: Vec<WeatherLocationResult>,
) -> WeatherLocationResponse {
    WeatherLocationResponse {
        response: WeatherLocationWrappedResults {
            results: WeatherLocationResults { results: candidates, total_results },
        },
    }
}

fn candidate(
    id: &str,
    name: &str,
    container: &str,
    country: &str,
    latitude_micro_deg: i64,
    longitude_micro_deg: i64,
) -> WeatherLocationResult {
    WeatherLocationResult {
        id: id.to_string(),
        name: name.to_string(),
        container: container.to_string(),
        country: country.to_string(),
        latitude_micro_deg,
        longitude_micro_deg,
    }
}

fn day_forecast(weather_type: u8, min_deci_c: i64, max_deci_c: i64, wind: &str) -> WeatherForecast {
    WeatherForecast {
        detailed: WeatherDetailedForecast {
            issue_date: "2024-01-01T00:00:00Z".to_string(),
            last_updated: "2024-01-01T00:00:00Z".to_string(),
            reports: Vec::new(),
        },
        summary: WeatherSummaryForecast {
            issue_date: "2024-01-01T00:00:00Z".to_string(),
            last_updated: "2024-01-01T00:00:00Z".to_string(),
            report: WeatherSummaryReport {
                sunrise: "08:00".to_string(),
                sunset: "16:00".to_string(),
                max_temp_deci_c: max_deci_c,
                min_temp_deci_c: min_deci_c,
                wind_speed_deci_kph: 120,
                wind_direction: wind.to_string(),
                weather_type,
                weather_type_text: "".to_string(),
                precipitation_probability_deci_percent: 300,
            },
        },
    }
}

#[test]
fn test() {
    let result = location_response(
        1,
        vec![candidate("2650584", "Dyserth", "Denbighshire", "GB", 53_300_320, -3_412_620)],
    );

    assert_eq!(result.response.results.total_results, 1);
    assert_eq!(result.response.results.results[0].id, "2650584");
    assert_eq!(result.response.results.results[0].name, "Dyserth");
    assert_eq!(result.response.results.results[0].container, "Denbighshire");
    assert_eq!(result.response.results.results[0].country, "GB");
    assert_eq!(result.response.results.results[0].latitude_micro_deg, 53_300_320);
    assert_eq!(result.response.results.results[0].longitude_micro_deg, -3_412_620);

    let api = WeatherAPI::new();
    assert_eq!(api.get_location_id(&result), Ok(2650584));
}

#[test]
fn deserialize_weather_location_response() {
    let result = location_response(
        1,
        vec![candidate("12345", "London", "England", "UK", 51_507_400, -127_800)],
    );

    assert_eq!(result.response.results.total_results, 1);
    assert_eq!(result.response.results.results[0].id, "12345");
    assert_eq!(result.response.results.results[0].name, "London");
    assert_eq!(result.response.results.results[0].container, "England");
    assert_eq!(result.response.results.results[0].country, "UK");
    assert_eq!(result.response.results.results[0].latitude_micro_deg, 51_507_400);
    assert_eq!(result.response.results.results[0].longitude_micro_deg, -127_800);

    let api = WeatherAPI::new();
    assert_eq!(api.get_location_id(&result), Ok(12345));
}

#[test]
fn decode_weather_forecast() {
    let mut forecasts = Vec::new();
    forecasts.push(day_forecast(3, 40, 90, "SW"));
    for _ in 1..14 {
        forecasts.push(day_forecast(7, 10, 60, "N"));
    }
    let result = WeatherForecastResponse { forecasts };

    assert_eq!(result.forecasts.len(), 14);
    assert_eq!(result.forecasts[0].summary.report.weather_type, 3);
}

#[test]
fn resolver_returns_top_ranked_candidate() {
    let api = WeatherAPI::new();
    let response = location_response(
        2,
        vec![
            candidate("12345", "London", "England", "UK", 51_507_400, -127_800),
            candidate("99999", "London", "Ontario", "CA", 42_983_900, -81_233_100),
        ],
    );
    assert_eq!(api.get_location_id(&response), Ok(12345));
}

#[test]
fn resolver_zero_matches_is_no_results_found() {
    let api = WeatherAPI::new();
    let response = location_response(0, Vec::new());
    assert_eq!(api.get_location_id(&response), Err(ResolutionError::NoResultsFound));
}

#[test]
fn resolver_rejects_malformed_identifier() {
    let api = WeatherAPI::new();
    let response = location_response(
        1,
        vec![candidate("26a50", "Dyserth", "Denbighshire", "GB", 53_300_320, -3_412_620)],
    );
    assert_eq!(
        api.get_location_id(&response),
        Err(ResolutionError::MalformedIdentifier("26a50".to_string()))
    );
}

#[test]
fn parse_location_id_accepts_digits() {
    assert_eq!(parse_location_id("0"), Ok(0));
    assert_eq!(parse_location_id("2650584"), Ok(2650584));
    assert_eq!(parse_location_id("18446744073709551615"), Ok(u64::MAX));
}

#[test]
fn parse_location_id_rejects_empty_and_non_digits() {
    assert_eq!(
        parse_location_id(""),
        Err(ResolutionError::MalformedIdentifier("".to_string()))
    );
    assert_eq!(
        parse_location_id("12 45"),
        Err(ResolutionError::MalformedIdentifier("12 45".to_string()))
    );
    assert_eq!(
        parse_location_id("-5"),
        Err(ResolutionError::MalformedIdentifier("-5".to_string()))
    );
}

#[test]
fn parse_location_id_rejects_overflow() {
    assert_eq!(
        parse_location_id("18446744073709551616"),
        Err(ResolutionError::MalformedIdentifier("18446744073709551616".to_string()))
    );
    assert_eq!(
        parse_location_id("99999999999999999999999"),
        Err(ResolutionError::MalformedIdentifier("99999999999999999999999".to_string()))
    );
}

#[test]
fn session_zero_matches_completes_without_fetch() {
    let api = WeatherAPI::new();
    let phase = api.start_refresh("Nowhere".to_string());
    assert_eq!(phase, RefreshPhase::AwaitingLookup { location: "Nowhere".to_string() });

    let next = api.process_lookup(Ok(location_response(0, Vec::new())));
    assert_eq!(
        next,
        RefreshPhase::Complete {
            outcome: Err(RefreshError::Resolution(ResolutionError::NoResultsFound)),
        }
    );
}

#[test]
fn session_resolves_then_awaits_forecast() {
    let api = WeatherAPI::new();
    let response = location_response(
        1,
        vec![candidate("2650584", "Dyserth", "Denbighshire", "GB", 53_300_320, -3_412_620)],
    );
    let next = api.process_lookup(Ok(response));
    assert_eq!(next, RefreshPhase::AwaitingForecast { location_id: 2650584 });
}

#[test]
fn session_lookup_transport_failure_completes() {
    let api = WeatherAPI::new();
    let next = api.process_lookup(Err("connection refused".to_string()));
    assert_eq!(
        next,
        RefreshPhase::Complete {
            outcome: Err(RefreshError::Resolution(ResolutionError::Transport(
                "connection refused".to_string()
            ))),
        }
    );
}

#[test]
fn session_forecast_success_keeps_response() {
    let api = WeatherAPI::new();
    let response = WeatherForecastResponse { forecasts: vec![day_forecast(3, 40, 90, "SW")] };
    let next = api.process_forecast(Ok(response.clone()));
    assert_eq!(next, RefreshPhase::Complete { outcome: Ok(response) });
}

#[test]
fn session_forecast_errors_complete() {
    let api = WeatherAPI::new();
    let next = api.process_forecast(Err(FetchError::Transport("timed out".to_string())));
    assert_eq!(
        next,
        RefreshPhase::Complete {
            outcome: Err(RefreshError::Fetch(FetchError::Transport("timed out".to_string()))),
        }
    );

    let empty = api.process_forecast(Ok(WeatherForecastResponse { forecasts: Vec::new() }));
    assert_eq!(
        empty,
        RefreshPhase::Complete {
            outcome: Err(RefreshError::Fetch(FetchError::Decode(
                "Forecast response contained no forecasts".to_string()
            ))),
        }
    );

    let decode = api.process_forecast(Err(FetchError::Decode("missing field".to_string())));
    assert_eq!(
        decode,
        RefreshPhase::Complete {
            outcome: Err(RefreshError::Fetch(FetchError::Decode("missing field".to_string()))),
        }
    );
}

#[test]
fn refresh_error_messages() {
    assert_eq!(
        RefreshError::Resolution(ResolutionError::NoResultsFound).message(),
        "No results found"
    );
    assert_eq!(
        RefreshError::Resolution(ResolutionError::Transport("boom".to_string())).message(),
        "boom"
    );
    assert_eq!(
        RefreshError::Resolution(ResolutionError::MalformedIdentifier("26a50".to_string()))
            .message(),
        "Malformed location identifier: 26a50"
    );
    assert_eq!(
        RefreshError::Fetch(FetchError::Transport("timed out".to_string())).message(),
        "timed out"
    );
    assert_eq!(
        RefreshError::Fetch(FetchError::Decode("missing field".to_string())).message(),
        "missing field"
    );
}
