use weathema::client::RefreshOutcome;
use weathema::client::WeatherDetailedForecast;
use weathema::client::WeatherForecast;
use weathema::client::WeatherForecastResponse;
use weathema::client::WeatherSummaryForecast;
use weathema::client::WeatherSummaryReport;
use weathema::components::weather_image::image_path;
use weathema::components::weather_image::weather_type_category;
use weathema::components::weather_image::WeatherType;
use weathema::dispatch::dispatch;
use weathema::dispatch::Dashboard;
use weathema::dispatch::SinkUpdate;

fn day_entry(weather_type: u8, min_deci_c: i64, max_deci_c: i64, wind: &str) -> WeatherForecast {
    WeatherForecast {
        detailed: WeatherDetailedForecast {
            issue_date: "2024-01-01T00:00:00Z".to_string(),
            last_updated: "2024-01-01T00:00:00Z".to_string(),
            reports: Vec::new(),
        },
        summary: WeatherSummaryForecast {
            issue_date: "2024-01-01T00:00:00Z".to_string(),
            last_updated: "2024-01-01T00:00:00Z".to_string(),
            report: WeatherSummaryReport {
                sunrise: "08:00".to_string(),
                sunset: "16:00".to_string(),
                max_temp_deci_c: max_deci_c,
                min_temp_deci_c: min_deci_c,
                wind_speed_deci_kph: 120,
                wind_direction: wind.to_string(),
                weather_type,
                weather_type_text: "".to_string(),
                precipitation_probability_deci_percent: 300,
            },
        },
    }
}

fn forecast(entries: Vec<WeatherForecast>) -> WeatherForecastResponse {
    WeatherForecastResponse { forecasts: entries }
}

#[test]
fn condition_code_mapping_is_exact() {
    assert_eq!(weather_type_category(0), WeatherType::Sunny);
    assert_eq!(weather_type_category(1), WeatherType::Sunny);
    assert_eq!(weather_type_category(2), WeatherType::PartlyCloudy);
    assert_eq!(weather_type_category(3), WeatherType::PartlyCloudy);
    assert_eq!(weather_type_category(4), WeatherType::PartlyCloudy);
    assert_eq!(weather_type_category(5), WeatherType::Cloudy);
    assert_eq!(weather_type_category(6), WeatherType::Cloudy);
    assert_eq!(weather_type_category(7), WeatherType::Cloudy);
    assert_eq!(weather_type_category(8), WeatherType::Cloudy);
    assert_eq!(weather_type_category(9), WeatherType::Rainy);
    assert_eq!(weather_type_category(10), WeatherType::Rainy);
    assert_eq!(weather_type_category(11), WeatherType::Rainy);
    assert_eq!(weather_type_category(12), WeatherType::Rainy);
    assert_eq!(weather_type_category(20), WeatherType::Snowy);
    assert_eq!(weather_type_category(13), WeatherType::Unknown);
    assert_eq!(weather_type_category(19), WeatherType::Unknown);
    assert_eq!(weather_type_category(100), WeatherType::Unknown);
}

#[test]
fn image_paths_follow_the_category() {
    assert_eq!(image_path(WeatherType::Sunny), "src/images/sunny.txt");
    assert_eq!(image_path(WeatherType::PartlyCloudy), "src/images/partly-cloudy.txt");
    assert_eq!(image_path(WeatherType::Cloudy), "src/images/cloudy.txt");
    assert_eq!(image_path(WeatherType::Rainy), "src/images/rainy.txt");
    assert_eq!(image_path(WeatherType::Snowy), "src/images/snowy.txt");
    assert_eq!(image_path(WeatherType::Stormy), "src/images/stormy.txt");
    assert_eq!(image_path(WeatherType::Unknown), "src/images/unknown.txt");
}

#[test]
fn dispatch_waiting_marks_busy_sinks_active() {
    let updates = dispatch(&RefreshOutcome::Waiting);
    assert_eq!(updates.len(), 3);
    match &updates[0] {
        SinkUpdate::Spinner(m) => {
            assert!(m.animating);
            assert!(!m.error);
        },
        other => panic!("expected a spinner update, got {:?}", other),
    }
    match &updates[1] {
        SinkUpdate::WeatherDisplay(m) => {
            assert!(m.is_loading);
            assert!(!m.error);
        },
        other => panic!("expected a loading banner update, got {:?}", other),
    }
    match &updates[2] {
        SinkUpdate::MainHolding(m) => {
            assert!(m.is_loading);
            assert!(!m.error);
            assert_eq!(m.value, "Loading");
        },
        other => panic!("expected a status update, got {:?}", other),
    }
}

#[test]
fn dispatch_received_reads_entry_zero_in_fixed_order() {
    let resp = forecast(vec![day_entry(3, 40, 90, "SW"), day_entry(20, -50, 10, "N")]);
    let updates = dispatch(&RefreshOutcome::Received(resp));
    assert_eq!(updates.len(), 6);
    match &updates[0] {
        SinkUpdate::TemperatureRange(m) => {
            assert_eq!(m.min_temperature_deci_c, 40);
            assert_eq!(m.max_temperature_deci_c, 90);
        },
        other => panic!("expected a temperature update, got {:?}", other),
    }
    match &updates[1] {
        SinkUpdate::WeatherImage(m) => assert_eq!(m.weather_type, WeatherType::PartlyCloudy),
        other => panic!("expected a condition update, got {:?}", other),
    }
    match &updates[2] {
        SinkUpdate::WindDirection(m) => assert_eq!(m.direction, "SW"),
        other => panic!("expected a wind update, got {:?}", other),
    }
    match &updates[3] {
        SinkUpdate::Spinner(m) => assert!(!m.animating),
        other => panic!("expected a spinner update, got {:?}", other),
    }
    match &updates[4] {
        SinkUpdate::WeatherDisplay(m) => assert!(!m.is_loading),
        other => panic!("expected a loading banner update, got {:?}", other),
    }
    match &updates[5] {
        SinkUpdate::MainHolding(m) => {
            assert!(!m.is_loading);
            assert_eq!(m.value, "Loaded");
        },
        other => panic!("expected a status update, got {:?}", other),
    }
}

#[test]
fn dispatch_ignores_entries_past_the_first() {
    let a = forecast(vec![day_entry(3, 40, 90, "SW"), day_entry(20, -50, 10, "N")]);
    let b = forecast(vec![day_entry(3, 40, 90, "SW"), day_entry(0, 300, 350, "E")]);
    assert_eq!(dispatch(&RefreshOutcome::Received(a)), dispatch(&RefreshOutcome::Received(b)));
}

#[test]
fn end_to_end_received_scenario() {
    let mut dashboard = Dashboard::new();
    dashboard.handle_outcome(&RefreshOutcome::Waiting);
    assert!(dashboard.spinner_state.animating);
    assert!(dashboard.weather_display_state.is_loading);
    assert_eq!(dashboard.main_holding_state.value, "Loading");

    let mut entries = vec![day_entry(3, 40, 90, "SW")];
    for _ in 1..14 {
        entries.push(day_entry(7, 10, 60, "N"));
    }
    dashboard.handle_outcome(&RefreshOutcome::Received(forecast(entries)));

    assert_eq!(dashboard.temperature_range_state.min_temperature_deci_c, 40);
    assert_eq!(dashboard.temperature_range_state.max_temperature_deci_c, 90);
    assert_eq!(dashboard.weather_image_state.weather_image, WeatherType::PartlyCloudy);
    assert_eq!(dashboard.wind_direction_state.direction, "SW");
    assert!(!dashboard.spinner_state.animating);
    assert!(!dashboard.weather_display_state.is_loading);
    assert_eq!(dashboard.main_holding_state.value, "Loaded");
}

#[test]
fn error_scenario_leaves_weather_values_untouched() {
    let mut dashboard = Dashboard::new();
    dashboard.handle_outcome(&RefreshOutcome::Received(forecast(vec![day_entry(
        3, 40, 90, "SW",
    )])));

    dashboard.handle_outcome(&RefreshOutcome::Waiting);
    assert!(dashboard.spinner_state.animating);

    dashboard.handle_outcome(&RefreshOutcome::Error("No results found".to_string()));
    assert_eq!(dashboard.main_holding_state.value, "No results found");
    assert!(dashboard.main_holding_state.error);
    assert!(dashboard.spinner_state.error);
    assert!(dashboard.weather_display_state.error);
    assert_eq!(dashboard.temperature_range_state.min_temperature_deci_c, 40);
    assert_eq!(dashboard.temperature_range_state.max_temperature_deci_c, 90);
    assert_eq!(dashboard.weather_image_state.weather_image, WeatherType::PartlyCloudy);
    assert_eq!(dashboard.wind_direction_state.direction, "SW");
}

#[test]
fn dashboard_starts_in_placeholder_state() {
    let dashboard = Dashboard::new();
    assert!(!dashboard.spinner_state.animating);
    assert_eq!(dashboard.spinner_state.value, ' ');
    assert!(dashboard.weather_display_state.is_loading);
    assert!(!dashboard.main_holding_state.is_loading);
    assert_eq!(dashboard.main_holding_state.value, "");
    assert_eq!(dashboard.temperature_range_state.min_temperature_deci_c, 0);
    assert_eq!(dashboard.temperature_range_state.max_temperature_deci_c, 0);
    assert_eq!(dashboard.weather_image_state.weather_image, WeatherType::Unknown);
    assert_eq!(dashboard.wind_direction_state.direction, "");
}
