use zeroclaw::tools::traits::ToolResult;
use serde_json::Value;
use zeroclaw::tools::json::{fixed_at, integer_at, text_at};
use zeroclaw::tools::weather_api::{
    build_location_line, choose_key, current_summary_from, description, endpoint, extract_percentage,
    forecast_summary_from, interpret_reply, interpret_response, location_line_from, name,
    normalize_days, percentage_from, plan_request, read_args, read_body, read_current, read_document,
    read_forecast, read_location, read_percentage, summarize_current, summarize_forecast, Current,
    DayDetails, ForecastDay, HttpReply, Location, ParsedBody, Percentage, ToolError, WeatherArgs,
    WeatherDocument,
};

fn json(text: &str) -> Value {
    serde_json::from_str(text).unwrap()
}

const CURRENT_JSON: &str = r#"{
    "location": {
        "name": "London",
        "region": "City of London",
        "country": "United Kingdom",
        "lat": 51.52,
        "lon": -0.11
    },
    "current": {
        "temp_c": 13.5,
        "feelslike_c": 12.1,
        "humidity": 82,
        "wind_kph": 10.2,
        "wind_dir": "SW",
        "last_updated": "2026-02-15 09:00",
        "condition": {"text": "Partly cloudy"}
    }
}"#;

const FORECAST_JSON: &str = r#"{
    "location": {
        "name": "Newark",
        "region": "New Jersey",
        "country": "USA",
        "lat": 40.73,
        "lon": -74.17
    },
    "forecast": {
        "forecastday": [
            {
                "date": "2026-02-15",
                "day": {
                    "maxtemp_c": 8.0,
                    "mintemp_c": -1.0,
                    "daily_chance_of_rain": 55,
                    "condition": {"text": "Light rain"}
                }
            },
            {
                "date": "2026-02-16",
                "day": {
                    "maxtemp_c": 4.0,
                    "mintemp_c": -3.5,
                    "daily_chance_of_rain": 20,
                    "condition": {"text": "Sunny"}
                }
            }
        ]
    }
}"#;

fn text(s: &str) -> Option<String> {
    Some(s.to_string())
}

fn one_decimal(x: f64) -> Option<String> {
    Some(format!("{:.1}", x))
}

fn two_decimals(x: f64) -> Option<String> {
    Some(format!("{:.2}", x))
}

fn no_decimals(x: f64) -> Percentage {
    Percentage::Number(format!("{:.0}", x))
}

fn london() -> Location {
    Location {
        name: text("London"),
        region: text("City of London"),
        country: text("United Kingdom"),
        lat: two_decimals(51.52),
        lon: two_decimals(-0.11),
    }
}

fn newark() -> Location {
    Location {
        name: text("Newark"),
        region: text("New Jersey"),
        country: text("USA"),
        lat: two_decimals(40.73),
        lon: two_decimals(-74.17),
    }
}

fn empty_document() -> WeatherDocument {
    WeatherDocument { pretty: None, error_message: None, location: None, current: None, forecast: None }
}

fn current_sample() -> WeatherDocument {
    WeatherDocument {
        pretty: text("{\n  \"pretty\": true\n}"),
        error_message: None,
        location: Some(london()),
        current: Some(Current {
            condition: text("Partly cloudy"),
            temp_c: one_decimal(13.5),
            feelslike_c: one_decimal(12.1),
            humidity: Some(82),
            wind_kph: one_decimal(10.2),
            wind_dir: text("SW"),
            last_updated: text("2026-02-15 09:00"),
        }),
        forecast: None,
    }
}

fn day(date: &str, max: f64, min: f64, rain: Option<Percentage>, condition: &str) -> ForecastDay {
    ForecastDay {
        date: text(date),
        day: Some(DayDetails {
            condition: text(condition),
            maxtemp_c: one_decimal(max),
            mintemp_c: one_decimal(min),
            daily_chance_of_rain: rain,
        }),
    }
}

fn forecast_sample() -> WeatherDocument {
    WeatherDocument {
        pretty: text("{}"),
        error_message: None,
        location: Some(newark()),
        current: None,
        forecast: Some(vec![
            day("2026-02-15", 8.0, -1.0, Some(no_decimals(55.0)), "Light rain"),
            day("2026-02-16", 4.0, -3.5, Some(no_decimals(20.0)), "Sunny"),
        ]),
    }
}

fn args(api_key: Option<&str>, query: Option<&str>, days: Option<i64>) -> WeatherArgs {
    WeatherArgs { api_key: api_key.map(String::from), query: query.map(String::from), days }
}

fn current_of(document: &WeatherDocument) -> Option<String> {
    current_summary_from(&document.location, &document.current)
}

fn forecast_of(document: &WeatherDocument, days: usize) -> Option<String> {
    forecast_summary_from(&document.location, &document.forecast, days)
}

fn response(days: u8, success: bool, status: &str, body: &str, parsed: ParsedBody) -> Result<ToolResult, ToolError> {
    interpret_response(days, success, status, body, &parsed)
}

fn failure(result: &ToolResult) -> String {
    assert!(!result.success);
    assert_eq!(result.output, "");
    result.error.clone().unwrap()
}

#[test]
fn current_summary_formats() {
    let sample = json(CURRENT_JSON);

    let summary = summarize_current(&sample).unwrap();
    assert!(summary.contains("London"));
    assert!(summary.contains("Partly cloudy"));
}

#[test]
fn forecast_summary_formats_multiple_days() {
    let sample = json(FORECAST_JSON);

    let summary = summarize_forecast(&sample, 3).unwrap();
    assert!(summary.contains("Forecast"));
    assert!(summary.contains("Light rain"));
    assert!(summary.contains("Sunny"));
    assert!(summary.contains("Forecast (next 2 day(s))"));
}

#[test]
fn the_current_summary_in_full() {
    assert_eq!(
        current_of(&current_sample()).unwrap(),
        "Location: London, City of London, United Kingdom (lat 51.52, lon -0.11)\nCurrent: Partly cloudy, temp 13.5 C (feels 12.1 C), humidity 82%\nWind: 10.2 kph SW\nLast updated: 2026-02-15 09:00"
    );
}

#[test]
fn the_current_summary_fills_in_what_may_be_missing() {
    let mut sample = current_sample();
    if let Some(current) = sample.current.as_mut() {
        current.wind_dir = None;
        current.last_updated = None;
        current.humidity = Some(-5);
    }
    assert_eq!(
        current_of(&sample).unwrap(),
        "Location: London, City of London, United Kingdom (lat 51.52, lon -0.11)\nCurrent: Partly cloudy, temp 13.5 C (feels 12.1 C), humidity -5%\nWind: 10.2 kph \nLast updated: unknown"
    );
}

#[test]
fn the_current_summary_needs_its_fields() {
    let mut sample = current_sample();
    sample.location = None;
    assert_eq!(current_of(&sample), None);
    let mut sample = current_sample();
    sample.current = None;
    assert_eq!(current_of(&sample), None);
    let mut sample = current_sample();
    sample.current.as_mut().unwrap().condition = None;
    assert_eq!(current_of(&sample), None);
    let mut sample = current_sample();
    sample.current.as_mut().unwrap().temp_c = None;
    assert_eq!(current_of(&sample), None);
    let mut sample = current_sample();
    sample.current.as_mut().unwrap().feelslike_c = None;
    assert_eq!(current_of(&sample), None);
    let mut sample = current_sample();
    sample.current.as_mut().unwrap().humidity = None;
    assert_eq!(current_of(&sample), None);
    let mut sample = current_sample();
    sample.current.as_mut().unwrap().wind_kph = None;
    assert_eq!(current_of(&sample), None);
    assert_eq!(current_of(&empty_document()), None);
}

#[test]
fn the_location_line_shows_what_is_known() {
    assert_eq!(
        location_line_from(&Some(london())).unwrap(),
        "Location: London, City of London, United Kingdom (lat 51.52, lon -0.11)"
    );
    let mut place = london();
    place.region = text("");
    place.lon = None;
    assert_eq!(location_line_from(&Some(place)).unwrap(), "Location: London, United Kingdom");
    let mut place = london();
    place.region = None;
    place.lat = None;
    assert_eq!(location_line_from(&Some(place)).unwrap(), "Location: London, United Kingdom");
    let mut place = london();
    place.name = None;
    assert_eq!(location_line_from(&Some(place)), None);
    let mut place = london();
    place.country = None;
    assert_eq!(location_line_from(&Some(place)), None);
    assert_eq!(location_line_from(&None), None);
}

#[test]
fn the_forecast_summary_in_full() {
    assert_eq!(
        forecast_of(&forecast_sample(), 3).unwrap(),
        "Location: Newark, New Jersey, USA (lat 40.73, lon -74.17)\nForecast (next 2 day(s)):\n2026-02-15: Light rain, min -1.0 C / max 8.0 C (rain chance 55%)\n2026-02-16: Sunny, min -3.5 C / max 4.0 C (rain chance 20%)"
    );
}

#[test]
fn the_forecast_shows_no_more_days_than_asked_for() {
    assert_eq!(
        forecast_of(&forecast_sample(), 1).unwrap(),
        "Location: Newark, New Jersey, USA (lat 40.73, lon -74.17)\nForecast (next 1 day(s)):\n2026-02-15: Light rain, min -1.0 C / max 8.0 C (rain chance 55%)"
    );
    assert_eq!(
        forecast_of(&forecast_sample(), 0).unwrap(),
        "Location: Newark, New Jersey, USA (lat 40.73, lon -74.17)\nForecast (next 0 day(s)):"
    );
}

#[test]
fn a_day_without_a_chance_of_rain_says_nothing_of_rain() {
    let mut sample = forecast_sample();
    sample.forecast = Some(vec![
        day("2026-03-01", 1.5, 0.5, None, "Fog"),
        day("2026-03-02", 2.0, 1.0, Some(Percentage::Other), "Mist"),
        day("2026-03-03", 3.0, 2.0, Some(Percentage::Text("  ".to_string())), "Haze"),
        day("2026-03-04", 4.0, 3.0, Some(Percentage::Text(" 40 ".to_string())), "Rain"),
    ]);
    assert_eq!(
        forecast_of(&sample, 7).unwrap(),
        "Location: Newark, New Jersey, USA (lat 40.73, lon -74.17)\nForecast (next 4 day(s)):\n2026-03-01: Fog, min 0.5 C / max 1.5 C\n2026-03-02: Mist, min 1.0 C / max 2.0 C\n2026-03-03: Haze, min 2.0 C / max 3.0 C\n2026-03-04: Rain, min 3.0 C / max 4.0 C (rain chance 40%)"
    );
}

#[test]
fn the_forecast_summary_needs_every_day_shown() {
    let mut sample = forecast_sample();
    sample.forecast.as_mut().unwrap()[1].date = None;
    assert_eq!(forecast_of(&sample, 2), None);
    assert_eq!(forecast_of(&sample, 7), None);
    assert!(forecast_of(&sample, 1).is_some());
    let mut sample = forecast_sample();
    sample.forecast.as_mut().unwrap()[0].day = None;
    assert_eq!(forecast_of(&sample, 1), None);
    let mut sample = forecast_sample();
    sample.forecast.as_mut().unwrap()[0].day.as_mut().unwrap().maxtemp_c = None;
    assert_eq!(forecast_of(&sample, 2), None);
    let mut sample = forecast_sample();
    sample.forecast = None;
    assert_eq!(forecast_of(&sample, 2), None);
    let mut sample = forecast_sample();
    sample.location = None;
    assert_eq!(forecast_of(&sample, 2), None);
}

#[test]
fn a_share_gets_its_percent_sign() {
    assert_eq!(percentage_from(&Some(Percentage::Text("55".to_string()))), text("55%"));
    assert_eq!(percentage_from(&Some(Percentage::Text(" 55% ".to_string()))), text("55%"));
    assert_eq!(percentage_from(&Some(Percentage::Text("%".to_string()))), text("%"));
    assert_eq!(percentage_from(&Some(Percentage::Text("5 5".to_string()))), text("5 5%"));
    assert_eq!(percentage_from(&Some(Percentage::Text("".to_string()))), None);
    assert_eq!(percentage_from(&Some(Percentage::Text(" \t".to_string()))), None);
    assert_eq!(percentage_from(&Some(no_decimals(54.6))), text("55%"));
    assert_eq!(percentage_from(&Some(no_decimals(20.0))), text("20%"));
    assert_eq!(percentage_from(&Some(Percentage::Other)), None);
    assert_eq!(percentage_from(&None), None);
}

#[test]
fn days_are_kept_between_one_and_seven() {
    assert_eq!(normalize_days(None), 1);
    assert_eq!(normalize_days(Some(1)), 1);
    assert_eq!(normalize_days(Some(3)), 3);
    assert_eq!(normalize_days(Some(7)), 7);
    assert_eq!(normalize_days(Some(8)), 7);
    assert_eq!(normalize_days(Some(263)), 7);
    assert_eq!(normalize_days(Some(0)), 1);
    assert_eq!(normalize_days(Some(-4)), 1);
    assert_eq!(normalize_days(Some(i64::MAX)), 7);
    assert_eq!(normalize_days(Some(i64::MIN)), 1);
}

#[test]
fn the_endpoint_goes_by_the_days() {
    assert_eq!(endpoint(1), "current.json");
    assert_eq!(endpoint(0), "current.json");
    assert_eq!(endpoint(2), "forecast.json");
    assert_eq!(endpoint(7), "forecast.json");
}

#[test]
fn the_key_of_the_arguments_comes_first() {
    assert_eq!(choose_key(&text(" abc "), &text("env")), text("abc"));
    assert_eq!(choose_key(&text("   "), &text(" env\n")), text("env"));
    assert_eq!(choose_key(&text(""), &text("env")), text("env"));
    assert_eq!(choose_key(&None, &text("env")), text("env"));
    assert_eq!(choose_key(&None, &text("  ")), None);
    assert_eq!(choose_key(&None, &None), None);
    assert_eq!(choose_key(&text("k"), &None), text("k"));
}

#[test]
fn a_request_for_the_current_conditions() {
    let request = plan_request(&args(Some(" secret "), Some(" London "), None), &None).unwrap();
    assert_eq!(request.url, "https://api.weatherapi.com/v1/current.json");
    assert_eq!(request.api_key, "secret");
    assert_eq!(request.query, " London ");
    assert_eq!(request.days, 1);
    assert!(!request.sends_days());
}

#[test]
fn a_request_for_a_forecast() {
    let request = plan_request(&args(None, Some("07102"), Some(12)), &text("from-env")).unwrap();
    assert_eq!(request.url, "https://api.weatherapi.com/v1/forecast.json");
    assert_eq!(request.api_key, "from-env");
    assert_eq!(request.query, "07102");
    assert_eq!(request.days, 7);
    assert!(request.sends_days());
}

#[test]
fn a_request_needs_a_key_and_a_query() {
    let error = plan_request(&args(None, Some("London"), None), &None).unwrap_err();
    assert!(matches!(error, ToolError::MissingApiKey));
    assert_eq!(
        error.message(),
        "WeatherAPI key not provided. Pass 'api_key', set WEATHER_API_KEY, or rerun `zeroclaw onboard`."
    );
    let error = plan_request(&args(Some(" "), None, None), &text("")).unwrap_err();
    assert!(matches!(error, ToolError::MissingApiKey));
    let error = plan_request(&args(Some("k"), None, None), &None).unwrap_err();
    assert!(matches!(error, ToolError::MissingQuery));
    assert_eq!(error.message(), "Missing 'query' parameter");
    let error = plan_request(&args(Some("k"), Some("  \n"), Some(3)), &None).unwrap_err();
    assert!(matches!(error, ToolError::MissingQuery));
    let error = plan_request(&args(Some("k"), Some(""), None), &None).unwrap_err();
    assert!(matches!(error, ToolError::MissingQuery));
}

#[test]
fn a_request_that_could_not_be_sent_is_a_failed_result() {
    let reply = HttpReply::SendFailed("connection refused".to_string());
    let result = interpret_reply(1, &reply).unwrap();
    assert_eq!(failure(&result), "WeatherAPI request failed: connection refused");
    let reply = HttpReply::BodyFailed("timed out".to_string());
    let result = interpret_reply(3, &reply).unwrap();
    assert_eq!(failure(&result), "Failed to read WeatherAPI response: timed out");
}

#[test]
fn an_error_of_the_service_is_a_failed_result() {
    let mut document = empty_document();
    document.error_message = text("API key is invalid.");
    let body = "{\"error\":{\"code\":2006,\"message\":\"API key is invalid.\"}}";
    let result = response(1, false, "401 Unauthorized", body, ParsedBody::Document(document)).unwrap();
    assert_eq!(failure(&result), "WeatherAPI error (401 Unauthorized): API key is invalid.");
}

#[test]
fn an_error_without_a_message_shows_the_body() {
    let parsed = ParsedBody::Unreadable("expected value at line 1 column 1".to_string());
    let result = response(1, false, "502 Bad Gateway", "<html>bad gateway</html>", parsed).unwrap();
    assert_eq!(failure(&result), "WeatherAPI error (502 Bad Gateway): <html>bad gateway</html>");
    let parsed = ParsedBody::Document(current_sample());
    let result = response(2, false, "400 Bad Request", "{\"oops\":1}", parsed).unwrap();
    assert_eq!(failure(&result), "WeatherAPI error (400 Bad Request): {\"oops\":1}");
}

#[test]
fn a_success_with_an_unreadable_body_is_an_error() {
    let parsed = ParsedBody::Unreadable("expected ident at line 1 column 2".to_string());
    let error = response(1, true, "200 OK", "not json", parsed).unwrap_err();
    assert!(matches!(error, ToolError::UnreadableResponse(_)));
    assert_eq!(
        error.message(),
        "Failed to parse WeatherAPI response: expected ident at line 1 column 2"
    );
}

#[test]
fn a_success_is_summarized_by_the_days_asked_for() {
    let result = response(1, true, "200 OK", "{...}", ParsedBody::Document(current_sample())).unwrap();
    assert!(result.success);
    assert_eq!(result.error, None);
    assert_eq!(result.output, current_of(&current_sample()).unwrap());
    let result = response(2, true, "200 OK", "{...}", ParsedBody::Document(forecast_sample())).unwrap();
    assert!(result.success);
    assert_eq!(result.output, forecast_of(&forecast_sample(), 2).unwrap());
    let result = response(7, true, "200 OK", "{...}", ParsedBody::Document(forecast_sample())).unwrap();
    assert_eq!(result.output, forecast_of(&forecast_sample(), 7).unwrap());
}

#[test]
fn a_success_without_a_summary_shows_the_document() {
    let result = response(1, true, "200 OK", "{\"a\":1}", ParsedBody::Document(forecast_sample())).unwrap();
    assert!(result.success);
    assert_eq!(result.output, "{}");
    let result = response(4, true, "200 OK", "{\"a\":1}", ParsedBody::Document(empty_document())).unwrap();
    assert!(result.success);
    assert_eq!(result.output, "{\"a\":1}");
    assert_eq!(result.error, None);
}

#[test]
fn the_current_summary_of_a_document() {
    assert_eq!(
        summarize_current(&json(CURRENT_JSON)).unwrap(),
        "Location: London, City of London, United Kingdom (lat 51.52, lon -0.11)\nCurrent: Partly cloudy, temp 13.5 C (feels 12.1 C), humidity 82%\nWind: 10.2 kph SW\nLast updated: 2026-02-15 09:00"
    );
    assert_eq!(summarize_current(&json(FORECAST_JSON)), None);
    assert_eq!(summarize_current(&json("{}")), None);
    assert_eq!(summarize_current(&json("[1, 2]")), None);
    assert_eq!(summarize_current(&json("null")), None);
}

#[test]
fn the_forecast_summary_of_a_document() {
    assert_eq!(
        summarize_forecast(&json(FORECAST_JSON), 3).unwrap(),
        "Location: Newark, New Jersey, USA (lat 40.73, lon -74.17)\nForecast (next 2 day(s)):\n2026-02-15: Light rain, min -1.0 C / max 8.0 C (rain chance 55%)\n2026-02-16: Sunny, min -3.5 C / max 4.0 C (rain chance 20%)"
    );
    assert_eq!(
        summarize_forecast(&json(FORECAST_JSON), 1).unwrap(),
        "Location: Newark, New Jersey, USA (lat 40.73, lon -74.17)\nForecast (next 1 day(s)):\n2026-02-15: Light rain, min -1.0 C / max 8.0 C (rain chance 55%)"
    );
    assert_eq!(summarize_forecast(&json(CURRENT_JSON), 3), None);
    let not_a_list = r#"{"location": {"name": "X", "country": "Y"}, "forecast": {"forecastday": {"date": "d"}}}"#;
    assert_eq!(summarize_forecast(&json(not_a_list), 3), None);
    let no_days = r#"{"location": {"name": "X", "country": "Y"}, "forecast": {"forecastday": []}}"#;
    assert_eq!(
        summarize_forecast(&json(no_days), 3).unwrap(),
        "Location: X, Y\nForecast (next 0 day(s)):"
    );
}

#[test]
fn the_location_line_of_a_document() {
    assert_eq!(
        build_location_line(&json(CURRENT_JSON)).unwrap(),
        "Location: London, City of London, United Kingdom (lat 51.52, lon -0.11)"
    );
    let whole_numbers = r#"{"location": {"name": "Null Island", "region": "", "country": "Nowhere", "lat": 0, "lon": -12}}"#;
    assert_eq!(
        build_location_line(&json(whole_numbers)).unwrap(),
        "Location: Null Island, Nowhere (lat 0.00, lon -12.00)"
    );
    let texts_for_numbers = r#"{"location": {"name": "A", "country": "B", "lat": "51.52", "lon": 1.005}}"#;
    assert_eq!(build_location_line(&json(texts_for_numbers)).unwrap(), "Location: A, B");
    let name_is_no_text = r#"{"location": {"name": 7, "country": "B"}}"#;
    assert_eq!(build_location_line(&json(name_is_no_text)), None);
    assert_eq!(build_location_line(&json(r#"{"location": "London"}"#)), None);
    assert_eq!(build_location_line(&json(r#"{"place": {}}"#)), None);
}

#[test]
fn a_document_is_read_field_by_field() {
    let document = read_document(&json(CURRENT_JSON));
    let place = document.location.unwrap();
    assert_eq!(place.name, text("London"));
    assert_eq!(place.region, text("City of London"));
    assert_eq!(place.country, text("United Kingdom"));
    assert_eq!(place.lat, text("51.52"));
    assert_eq!(place.lon, text("-0.11"));
    let current = document.current.unwrap();
    assert_eq!(current.condition, text("Partly cloudy"));
    assert_eq!(current.temp_c, text("13.5"));
    assert_eq!(current.feelslike_c, text("12.1"));
    assert_eq!(current.humidity, Some(82));
    assert_eq!(current.wind_kph, text("10.2"));
    assert_eq!(current.wind_dir, text("SW"));
    assert_eq!(current.last_updated, text("2026-02-15 09:00"));
    assert!(document.forecast.is_none());
    assert_eq!(document.error_message, None);
    assert_eq!(document.pretty, serde_json::to_string_pretty(&json(CURRENT_JSON)).ok());
    assert!(document.pretty.unwrap().starts_with("{\n  \"current\": {\n"));
}

#[test]
fn what_is_of_another_kind_is_not_read() {
    let odd = r#"{"current": {"temp_c": "13.5", "humidity": 82.5, "wind_kph": 10, "wind_dir": 3, "condition": "cloudy"}}"#;
    let current = read_current(&json(odd)).unwrap();
    assert_eq!(current.temp_c, None);
    assert_eq!(current.humidity, None);
    assert_eq!(current.wind_kph, text("10.0"));
    assert_eq!(current.wind_dir, None);
    assert_eq!(current.condition, None);
    assert_eq!(current.feelslike_c, None);
    assert!(read_current(&json("{}")).is_none());
    assert!(read_location(&json("[]")).is_none());
    let big = r#"{"current": {"humidity": 9223372036854775808}}"#;
    assert_eq!(read_current(&json(big)).unwrap().humidity, None);
    let negative = r#"{"current": {"humidity": -3}}"#;
    assert_eq!(read_current(&json(negative)).unwrap().humidity, Some(-3));
}

#[test]
fn the_days_of_a_forecast_are_read_in_order() {
    let days = read_forecast(&json(FORECAST_JSON)).unwrap();
    assert_eq!(days.len(), 2);
    assert_eq!(days[0].date, text("2026-02-15"));
    assert_eq!(days[1].date, text("2026-02-16"));
    let first = days[0].day.as_ref().unwrap();
    assert_eq!(first.condition, text("Light rain"));
    assert_eq!(first.maxtemp_c, text("8.0"));
    assert_eq!(first.mintemp_c, text("-1.0"));
    assert!(matches!(&first.daily_chance_of_rain, Some(Percentage::Number(n)) if n == "55"));
    let second = days[1].day.as_ref().unwrap();
    assert_eq!(second.mintemp_c, text("-3.5"));
    assert!(read_forecast(&json(CURRENT_JSON)).is_none());
    assert!(read_forecast(&json(r#"{"forecast": {}}"#)).is_none());
    assert!(read_forecast(&json(r#"{"forecast": {"forecastday": 3}}"#)).is_none());
    let mixed = read_forecast(&json(r#"{"forecast": {"forecastday": [1, {"date": "d"}, {"day": {}}]}}"#)).unwrap();
    assert_eq!(mixed.len(), 3);
    assert!(mixed[0].date.is_none() && mixed[0].day.is_none());
    assert!(mixed[1].date.is_some() && mixed[1].day.is_none());
    assert!(mixed[2].date.is_none() && mixed[2].day.is_some());
}

#[test]
fn a_share_is_read_as_text_or_number() {
    assert!(matches!(read_percentage(&json("\" 40 \"")), Percentage::Text(t) if t == " 40 "));
    assert!(matches!(read_percentage(&json("55")), Percentage::Number(n) if n == "55"));
    assert!(matches!(read_percentage(&json("54.5")), Percentage::Number(n) if n == "54"));
    assert!(matches!(read_percentage(&json("55.5")), Percentage::Number(n) if n == "56"));
    assert!(matches!(read_percentage(&json("-0.4")), Percentage::Number(n) if n == "-0"));
    assert!(matches!(read_percentage(&json("null")), Percentage::Other));
    assert!(matches!(read_percentage(&json("true")), Percentage::Other));
    assert!(matches!(read_percentage(&json("[55]")), Percentage::Other));
    assert_eq!(extract_percentage(Some(&json("55"))), text("55%"));
    assert_eq!(extract_percentage(Some(&json("19.5"))), text("20%"));
    assert_eq!(extract_percentage(Some(&json("\"70\""))), text("70%"));
    assert_eq!(extract_percentage(Some(&json("\" 70% \""))), text("70%"));
    assert_eq!(extract_percentage(Some(&json("\"  \""))), None);
    assert_eq!(extract_percentage(Some(&json("{}"))), None);
    assert_eq!(extract_percentage(None), None);
}

#[test]
fn the_arguments_of_a_call_are_read() {
    let args = read_args(&json(r#"{"api_key": " k ", "query": "London", "days": 3}"#));
    assert_eq!(args.api_key, text(" k "));
    assert_eq!(args.query, text("London"));
    assert_eq!(args.days, Some(3));
    let args = read_args(&json(r#"{"api_key": 5, "query": ["London"], "days": "3"}"#));
    assert_eq!(args.api_key, None);
    assert_eq!(args.query, None);
    assert_eq!(args.days, None);
    let args = read_args(&json(r#"{"days": 2.5}"#));
    assert_eq!(args.days, None);
    let args = read_args(&json("\"London\""));
    assert!(args.api_key.is_none() && args.query.is_none() && args.days.is_none());
    let request = plan_request(&read_args(&json(r#"{"query": "Paris", "days": 40}"#)), &text("env-key")).unwrap();
    assert_eq!(request.url, "https://api.weatherapi.com/v1/forecast.json");
    assert_eq!(request.days, 7);
    assert_eq!(request.query, "Paris");
    assert_eq!(request.api_key, "env-key");
}

#[test]
fn a_body_is_read_as_a_document_or_not_at_all() {
    assert!(matches!(read_body(CURRENT_JSON), ParsedBody::Document(_)));
    assert!(matches!(read_body("7"), ParsedBody::Document(_)));
    match read_body("not json") {
        ParsedBody::Unreadable(detail) => {
            assert_eq!(detail, serde_json::from_str::<Value>("not json").unwrap_err().to_string());
            assert_eq!(detail, "expected ident at line 1 column 2");
        }
        other => panic!("expected an unreadable body, got {:?}", other),
    }
    assert!(matches!(read_body(""), ParsedBody::Unreadable(_)));
    assert!(matches!(read_body("{\"a\":1} x"), ParsedBody::Unreadable(_)));
}

#[test]
fn a_reply_with_a_report_is_a_result_with_its_summary() {
    let reply = HttpReply::Response { success: true, status: "200 OK".to_string(), body: CURRENT_JSON.to_string() };
    let result = interpret_reply(1, &reply).unwrap();
    assert!(result.success);
    assert_eq!(result.error, None);
    assert_eq!(
        result.output,
        "Location: London, City of London, United Kingdom (lat 51.52, lon -0.11)\nCurrent: Partly cloudy, temp 13.5 C (feels 12.1 C), humidity 82%\nWind: 10.2 kph SW\nLast updated: 2026-02-15 09:00"
    );
    let reply = HttpReply::Response { success: true, status: "200 OK".to_string(), body: FORECAST_JSON.to_string() };
    let result = interpret_reply(5, &reply).unwrap();
    assert!(result.output.ends_with("2026-02-16: Sunny, min -3.5 C / max 4.0 C (rain chance 20%)"));
    assert!(result.output.contains("\nForecast (next 2 day(s)):\n"));
}

#[test]
fn a_reply_without_a_summary_shows_the_document_laid_out() {
    let reply = HttpReply::Response { success: true, status: "200 OK".to_string(), body: "{\"b\":[1,2],\"a\":null}".to_string() };
    let result = interpret_reply(1, &reply).unwrap();
    assert!(result.success);
    assert_eq!(result.output, "{\n  \"a\": null,\n  \"b\": [\n    1,\n    2\n  ]\n}");
    let result = interpret_reply(3, &reply).unwrap();
    assert_eq!(result.output, "{\n  \"a\": null,\n  \"b\": [\n    1,\n    2\n  ]\n}");
}

#[test]
fn a_reply_with_an_error_of_the_service_says_so() {
    let reply = HttpReply::Response {
        success: false,
        status: "401 Unauthorized".to_string(),
        body: "{\"error\":{\"code\":2006,\"message\":\"API key is invalid.\"}}".to_string(),
    };
    let result = interpret_reply(1, &reply).unwrap();
    assert_eq!(failure(&result), "WeatherAPI error (401 Unauthorized): API key is invalid.");
    let reply = HttpReply::Response {
        success: false,
        status: "500 Internal Server Error".to_string(),
        body: "{\"error\":\"boom\"}".to_string(),
    };
    let result = interpret_reply(1, &reply).unwrap();
    assert_eq!(failure(&result), "WeatherAPI error (500 Internal Server Error): {\"error\":\"boom\"}");
    let reply = HttpReply::Response {
        success: false,
        status: "502 Bad Gateway".to_string(),
        body: "<html>bad gateway</html>".to_string(),
    };
    let result = interpret_reply(2, &reply).unwrap();
    assert_eq!(failure(&result), "WeatherAPI error (502 Bad Gateway): <html>bad gateway</html>");
}

#[test]
fn a_reply_with_success_and_no_document_is_an_error() {
    let reply = HttpReply::Response { success: true, status: "200 OK".to_string(), body: "<html>".to_string() };
    let error = interpret_reply(1, &reply).unwrap_err();
    assert!(matches!(error, ToolError::UnreadableResponse(_)));
    assert_eq!(
        error.message(),
        format!(
            "Failed to parse WeatherAPI response: {}",
            serde_json::from_str::<Value>("<html>").unwrap_err()
        )
    );
}

#[test]
fn the_tool_has_its_name_and_description() {
    assert_eq!(name(), "weather_api");
    assert_eq!(description(), "Fetch current weather or a 7-day forecast using WeatherAPI.com");
}

#[test]
fn results_are_made_for_success_and_failure() {
    let ok = ToolResult::ok("fine".to_string());
    assert!(ok.success);
    assert_eq!(ok.output, "fine");
    assert_eq!(ok.error, None);
    let failed = ToolResult::failed("broken".to_string());
    assert!(!failed.success);
    assert_eq!(failed.output, "");
    assert_eq!(failed.error, Some("broken".to_string()));
}

#[test]
fn a_number_is_written_with_any_count_of_decimals() {
    let data = json(r#"{"a": 1.5, "b": 7, "c": "1.5", "d": -0.125, "e": 1e308}"#);
    assert_eq!(fixed_at(&data, "a", 0), text("2"));
    assert_eq!(fixed_at(&data, "a", 1), text("1.5"));
    assert_eq!(fixed_at(&data, "a", 3), text("1.500"));
    assert_eq!(fixed_at(&data, "b", 2), text("7.00"));
    assert_eq!(fixed_at(&data, "c", 2), None);
    assert_eq!(fixed_at(&data, "d", 2), text("-0.12"));
    assert_eq!(fixed_at(&data, "missing", 2), None);
    let longest = fixed_at(&data, "a", 255).unwrap();
    assert_eq!(longest.len(), 2 + 255);
    assert!(longest.starts_with("1.5000"));
    let wide = fixed_at(&data, "e", 255).unwrap();
    assert_eq!(wide.len(), 309 + 1 + 255);
    assert_eq!(fixed_at(&json("[1.5]"), "a", 255), None);
}

#[test]
fn members_are_read_by_their_kind() {
    let data = json(r#"{"t": "text", "n": 5, "x": 5.5, "o": {"t": "inner"}}"#);
    assert_eq!(text_at(&data, "t"), text("text"));
    assert_eq!(text_at(&data, "n"), None);
    assert_eq!(text_at(&data, "o"), None);
    assert_eq!(text_at(&data, "none"), None);
    assert_eq!(integer_at(&data, "n"), Some(5));
    assert_eq!(integer_at(&data, "x"), None);
    assert_eq!(integer_at(&data, "t"), None);
    assert_eq!(text_at(&json("\"t\""), "t"), None);
}
