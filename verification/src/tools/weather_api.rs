//! The weather tool: current conditions and forecasts of up to seven days.
//!
//! The tool is called with arguments, asks the weather service once, and
//! turns the answer into a short summary. Here stands what it decides: which
//! request to make, what it reads of the answer, and what the answer comes
//! to. The request itself is made elsewhere.

use crate::decimal::{decimal, digits_of, format_i64, push_decimal, push_digits};
use crate::text::{
    blank,
    ends_with_char,
    lemma_blank_iff_trimmed_empty,
    opt_view,
    push_char,
    trim,
    trimmed,
};
use crate::tools::json::{
    error_text,
    fixed,
    fixed_at,
    integer,
    integer_at,
    items,
    json_error_text,
    json_fixed,
    json_integer,
    json_items,
    json_member,
    json_parse,
    json_pretty,
    json_text,
    member,
    member_fixed,
    member_integer,
    member_text,
    parse,
    pretty,
    text,
    text_at,
};
use crate::tools::traits::{ToolResult, ToolResultView};
use serde_json::Value;
use vstd::prelude::*;
use vstd::string::StringExecFns;

verus! {

/// Where the weather service is reached.
pub open spec fn base_url() -> Seq<char> {
    "https://api.weatherapi.com/v1"@
}

/// The name under which the tool is called.
pub open spec fn tool_name_text() -> Seq<char> {
    "weather_api"@
}

/// What the tool does, in a line.
pub open spec fn tool_description_text() -> Seq<char> {
    "Fetch current weather or a 7-day forecast using WeatherAPI.com"@
}

/// The name under which the tool is called.
pub fn name() -> (r: &'static str)
    ensures
        r@ == tool_name_text(),
{
    "weather_api"
}

/// What the tool does, in a line.
pub fn description() -> (r: &'static str)
    ensures
        r@ == tool_description_text(),
{
    "Fetch current weather or a 7-day forecast using WeatherAPI.com"
}

/// What the arguments of a call hold: the text under `api_key` and under
/// `query`, and the integer under `days`, each if it is there and of that
/// kind.
#[derive(Debug, Clone)]
pub struct WeatherArgs {
    pub api_key: Option<String>,
    pub query: Option<String>,
    pub days: Option<i64>,
}

/// What `WeatherArgs` hold, as mathematical values.
pub ghost struct WeatherArgsView {
    pub api_key: Option<Seq<char>>,
    pub query: Option<Seq<char>>,
    pub days: Option<i64>,
}

impl View for WeatherArgs {
    type V = WeatherArgsView;

    open spec fn view(&self) -> WeatherArgsView {
        WeatherArgsView {
            api_key: opt_view(self.api_key),
            query: opt_view(self.query),
            days: self.days,
        }
    }
}

/// What a document of arguments holds for the tool.
pub open spec fn args_in(args: Value) -> WeatherArgsView {
    WeatherArgsView {
        api_key: member_text(args, "api_key"@),
        query: member_text(args, "query"@),
        days: member_integer(args, "days"@),
    }
}

/// Reads the arguments of a call.
pub fn read_args(args: &Value) -> (r: WeatherArgs)
    ensures
        r@ == args_in(*args),
{
    WeatherArgs {
        api_key: text_at(args, "api_key"),
        query: text_at(args, "query"),
        days: integer_at(args, "days"),
    }
}

/// Why a call of the tool could not be answered at all.
#[derive(Debug)]
pub enum ToolError {
    /// No key in the arguments and none in the environment.
    MissingApiKey,
    /// No query in the arguments, or a blank one.
    MissingQuery,
    /// The service answered with success and a body that cannot be read. The
    /// text says what is wrong with it.
    UnreadableResponse(String),
}

/// What is said where no key is given.
pub open spec fn missing_api_key_text() -> Seq<char> {
    "WeatherAPI key not provided. Pass 'api_key', set WEATHER_API_KEY, or rerun `zeroclaw onboard`."@
}

/// What is said where no query is given.
pub open spec fn missing_query_text() -> Seq<char> {
    "Missing 'query' parameter"@
}

/// What is said of a body that cannot be read, with what is wrong with it.
pub open spec fn unreadable_response_text(detail: Seq<char>) -> Seq<char> {
    "Failed to parse WeatherAPI response: "@ + detail
}

impl ToolError {
    /// The text of the error.
    pub open spec fn text(self) -> Seq<char> {
        match self {
            ToolError::MissingApiKey => missing_api_key_text(),
            ToolError::MissingQuery => missing_query_text(),
            ToolError::UnreadableResponse(detail) => unreadable_response_text(detail@),
        }
    }

    /// The text of the error.
    pub fn message(&self) -> (r: String)
        ensures
            r@ == self.text(),
    {
        match self {
            ToolError::MissingApiKey =>
                "WeatherAPI key not provided. Pass 'api_key', set WEATHER_API_KEY, or rerun `zeroclaw onboard`.".to_owned(),
            ToolError::MissingQuery => "Missing 'query' parameter".to_owned(),
            ToolError::UnreadableResponse(detail) => {
                let mut r = String::new();
                r.append("Failed to parse WeatherAPI response: ");
                r.append(detail.as_str());
                r
            },
        }
    }
}

/// A key as it is used: trimmed, and only if something is left of it.
pub open spec fn usable_key(key: Option<Seq<char>>) -> Option<Seq<char>> {
    match key {
        Some(text) => if trimmed(text).len() > 0 {
            Some(trimmed(text))
        } else {
            None
        },
        None => None,
    }
}

/// The key of a call: that of the arguments, else that of the environment.
pub open spec fn chosen_key(argument: Option<Seq<char>>, environment: Option<Seq<char>>) -> Option<
    Seq<char>,
> {
    match usable_key(argument) {
        Some(key) => Some(key),
        None => usable_key(environment),
    }
}

/// The query of a call: the text given, as it stands, unless nothing is
/// left of it when it is trimmed.
pub open spec fn chosen_query(query: Option<Seq<char>>) -> Option<Seq<char>> {
    match query {
        Some(text) => if trimmed(text).len() == 0 {
            None
        } else {
            Some(text)
        },
        None => None,
    }
}

/// The number of days of a call: one if none is given, and never less than
/// one nor more than seven.
pub open spec fn normalized_days(days: Option<i64>) -> u8 {
    match days {
        Some(n) => if n < 1 {
            1u8
        } else if n > 7 {
            7u8
        } else {
            n as u8
        },
        None => 1u8,
    }
}

/// The endpoint for so many days: the forecast for more than one day, the
/// current conditions for one.
pub open spec fn endpoint_text(days: u8) -> Seq<char> {
    if days > 1 {
        "forecast.json"@
    } else {
        "current.json"@
    }
}

/// The address to get for so many days.
pub open spec fn url_text(days: u8) -> Seq<char> {
    base_url() + seq!['/'] + endpoint_text(days)
}

/// The request that a call makes of the weather service.
#[derive(Debug)]
pub struct WeatherRequest {
    /// The address to get.
    pub url: String,
    pub api_key: String,
    pub query: String,
    /// The days asked for, from one to seven. They are sent with the request
    /// only if they are more than one.
    pub days: u8,
}

impl WeatherRequest {
    /// Whether the request names the number of days.
    pub fn sends_days(&self) -> (r: bool)
        ensures
            r == (self.days > 1),
    {
        self.days > 1
    }
}

/// The number of days of a call: one if none is given, and never less than
/// one nor more than seven.
pub fn normalize_days(days: Option<i64>) -> (r: u8)
    ensures
        r == normalized_days(days),
        1 <= r <= 7,
{
    match days {
        Some(n) => if n < 1 {
            1
        } else if n > 7 {
            7
        } else {
            n as u8
        },
        None => 1,
    }
}

/// The endpoint for so many days: the forecast for more than one day, the
/// current conditions for one.
pub fn endpoint(days: u8) -> (r: &'static str)
    ensures
        r@ == endpoint_text(days),
{
    if days > 1 {
        "forecast.json"
    } else {
        "current.json"
    }
}

fn usable(key: &Option<String>) -> (r: Option<String>)
    ensures
        opt_view(r) == usable_key(opt_view(*key)),
{
    match key {
        Some(text) => {
            let t = trim(text.as_str());
            if t.as_str().unicode_len() > 0 {
                Some(t)
            } else {
                None
            }
        },
        None => None,
    }
}

/// The key of a call: that of the arguments, else that of the environment;
/// each trimmed, and passed over if nothing is left of it.
pub fn choose_key(argument: &Option<String>, environment: &Option<String>) -> (r: Option<String>)
    ensures
        opt_view(r) == chosen_key(opt_view(*argument), opt_view(*environment)),
{
    match usable(argument) {
        Some(key) => Some(key),
        None => usable(environment),
    }
}

/// Which request to make for the arguments of a call, with the key that the
/// environment holds, if it holds one.
pub fn plan_request(args: &WeatherArgs, env_api_key: &Option<String>) -> (r: Result<
    WeatherRequest,
    ToolError,
>)
    ensures
        match r {
            Ok(request) => {
                &&& chosen_key(args@.api_key, opt_view(*env_api_key)) == Some(
                    request.api_key@,
                )
                &&& chosen_query(args@.query) == Some(request.query@)
                &&& request.days == normalized_days(args.days)
                &&& request.url@ == url_text(request.days)
            },
            Err(ToolError::MissingApiKey) => chosen_key(
                args@.api_key,
                opt_view(*env_api_key),
            ).is_none(),
            Err(ToolError::MissingQuery) => chosen_key(
                args@.api_key,
                opt_view(*env_api_key),
            ).is_some() && chosen_query(args@.query).is_none(),
            Err(ToolError::UnreadableResponse(_)) => false,
        },
{
    let api_key = match choose_key(&args.api_key, env_api_key) {
        Some(key) => key,
        None => {
            return Err(ToolError::MissingApiKey);
        },
    };
    let query = match &args.query {
        Some(text) => {
            proof {
                lemma_blank_iff_trimmed_empty(text@);
            }
            if blank(text.as_str()) {
                return Err(ToolError::MissingQuery);
            }
            text.clone()
        },
        None => {
            return Err(ToolError::MissingQuery);
        },
    };
    let days = normalize_days(args.days);
    let mut url = String::new();
    url.append("https://api.weatherapi.com/v1");
    push_char(&mut url, '/');
    url.append(endpoint(days));
    Ok(WeatherRequest { url, api_key, query, days })
}

/// The place of a report. `lat` and `lon` are written with two decimals.
#[derive(Debug)]
pub struct Location {
    pub name: Option<String>,
    pub region: Option<String>,
    pub country: Option<String>,
    pub lat: Option<String>,
    pub lon: Option<String>,
}

/// What a `Location` holds, as mathematical values.
pub ghost struct LocationView {
    pub name: Option<Seq<char>>,
    pub region: Option<Seq<char>>,
    pub country: Option<Seq<char>>,
    pub lat: Option<Seq<char>>,
    pub lon: Option<Seq<char>>,
}

impl View for Location {
    type V = LocationView;

    open spec fn view(&self) -> LocationView {
        LocationView {
            name: opt_view(self.name),
            region: opt_view(self.region),
            country: opt_view(self.country),
            lat: opt_view(self.lat),
            lon: opt_view(self.lon),
        }
    }
}

/// The current conditions. Temperatures and wind speed are written with one
/// decimal; `condition` is the text of the condition.
#[derive(Debug)]
pub struct Current {
    pub condition: Option<String>,
    pub temp_c: Option<String>,
    pub feelslike_c: Option<String>,
    pub humidity: Option<i64>,
    pub wind_kph: Option<String>,
    pub wind_dir: Option<String>,
    pub last_updated: Option<String>,
}

/// What `Current` holds, as mathematical values.
pub ghost struct CurrentView {
    pub condition: Option<Seq<char>>,
    pub temp_c: Option<Seq<char>>,
    pub feelslike_c: Option<Seq<char>>,
    pub humidity: Option<i64>,
    pub wind_kph: Option<Seq<char>>,
    pub wind_dir: Option<Seq<char>>,
    pub last_updated: Option<Seq<char>>,
}

impl View for Current {
    type V = CurrentView;

    open spec fn view(&self) -> CurrentView {
        CurrentView {
            condition: opt_view(self.condition),
            temp_c: opt_view(self.temp_c),
            feelslike_c: opt_view(self.feelslike_c),
            humidity: self.humidity,
            wind_kph: opt_view(self.wind_kph),
            wind_dir: opt_view(self.wind_dir),
            last_updated: opt_view(self.last_updated),
        }
    }
}

/// A share as the service gives it.
#[derive(Debug)]
pub enum Percentage {
    /// As a text.
    Text(String),
    /// As a number, written without decimals.
    Number(String),
    /// As something else.
    Other,
}

/// What a `Percentage` holds, as mathematical values.
pub ghost enum PercentageView {
    Text(Seq<char>),
    Number(Seq<char>),
    Other,
}

impl View for Percentage {
    type V = PercentageView;

    open spec fn view(&self) -> PercentageView {
        match self {
            Percentage::Text(text) => PercentageView::Text(text@),
            Percentage::Number(number) => PercentageView::Number(number@),
            Percentage::Other => PercentageView::Other,
        }
    }
}

/// The details of a day. Temperatures are written with one decimal;
/// `condition` is the text of the condition.
#[derive(Debug)]
pub struct DayDetails {
    pub condition: Option<String>,
    pub maxtemp_c: Option<String>,
    pub mintemp_c: Option<String>,
    pub daily_chance_of_rain: Option<Percentage>,
}

/// What `DayDetails` hold, as mathematical values.
pub ghost struct DayDetailsView {
    pub condition: Option<Seq<char>>,
    pub maxtemp_c: Option<Seq<char>>,
    pub mintemp_c: Option<Seq<char>>,
    pub daily_chance_of_rain: Option<PercentageView>,
}

impl View for DayDetails {
    type V = DayDetailsView;

    open spec fn view(&self) -> DayDetailsView {
        DayDetailsView {
            condition: opt_view(self.condition),
            maxtemp_c: opt_view(self.maxtemp_c),
            mintemp_c: opt_view(self.mintemp_c),
            daily_chance_of_rain: opt_view(self.daily_chance_of_rain),
        }
    }
}

/// One day of a forecast.
#[derive(Debug)]
pub struct ForecastDay {
    pub date: Option<String>,
    pub day: Option<DayDetails>,
}

/// What a `ForecastDay` holds, as mathematical values.
pub ghost struct ForecastDayView {
    pub date: Option<Seq<char>>,
    pub day: Option<DayDetailsView>,
}

impl View for ForecastDay {
    type V = ForecastDayView;

    open spec fn view(&self) -> ForecastDayView {
        ForecastDayView { date: opt_view(self.date), day: opt_view(self.day) }
    }
}

/// The views of a list of days.
pub open spec fn day_views(days: Seq<ForecastDay>) -> Seq<ForecastDayView> {
    days.map_values(|day: ForecastDay| day@)
}

/// The views of the days of a forecast, if there is one.
pub open spec fn forecast_view(forecast: Option<Vec<ForecastDay>>) -> Option<Seq<ForecastDayView>> {
    match forecast {
        Some(days) => Some(day_views(days@)),
        None => None,
    }
}

/// The document of an answer, as far as the tool reads it. A field is `None`
/// where the document does not hold it, or holds something of another kind.
#[derive(Debug)]
pub struct WeatherDocument {
    /// The whole document, laid out for reading, if that could be made.
    pub pretty: Option<String>,
    /// The message of the error that the document reports.
    pub error_message: Option<String>,
    pub location: Option<Location>,
    pub current: Option<Current>,
    /// The days of the forecast.
    pub forecast: Option<Vec<ForecastDay>>,
}

/// What a `WeatherDocument` holds, as mathematical values.
pub ghost struct WeatherDocumentView {
    pub pretty: Option<Seq<char>>,
    pub error_message: Option<Seq<char>>,
    pub location: Option<LocationView>,
    pub current: Option<CurrentView>,
    pub forecast: Option<Seq<ForecastDayView>>,
}

impl View for WeatherDocument {
    type V = WeatherDocumentView;

    open spec fn view(&self) -> WeatherDocumentView {
        WeatherDocumentView {
            pretty: opt_view(self.pretty),
            error_message: opt_view(self.error_message),
            location: opt_view(self.location),
            current: opt_view(self.current),
            forecast: forecast_view(self.forecast),
        }
    }
}

/// What the body of an answer holds.
#[derive(Debug)]
pub enum ParsedBody {
    /// Nothing that can be read; the text says what is wrong.
    Unreadable(String),
    /// A document.
    Document(WeatherDocument),
}

/// What a `ParsedBody` holds, as mathematical values.
pub ghost enum ParsedBodyView {
    Unreadable(Seq<char>),
    Document(WeatherDocumentView),
}

impl View for ParsedBody {
    type V = ParsedBodyView;

    open spec fn view(&self) -> ParsedBodyView {
        match self {
            ParsedBody::Unreadable(detail) => ParsedBodyView::Unreadable(detail@),
            ParsedBody::Document(document) => ParsedBodyView::Document(document@),
        }
    }
}

/// How the service answered.
#[derive(Debug)]
pub enum HttpReply {
    /// The request could not be sent; the text says why.
    SendFailed(String),
    /// An answer came and its body could not be read; the text says why.
    BodyFailed(String),
    /// An answer came: whether its status is a success, the status in words,
    /// and the body.
    Response { success: bool, status: String, body: String },
}

/// What an `HttpReply` holds, as mathematical values.
pub ghost enum HttpReplyView {
    SendFailed(Seq<char>),
    BodyFailed(Seq<char>),
    Response { success: bool, status: Seq<char>, body: Seq<char> },
}

impl View for HttpReply {
    type V = HttpReplyView;

    open spec fn view(&self) -> HttpReplyView {
        match self {
            HttpReply::SendFailed(detail) => HttpReplyView::SendFailed(detail@),
            HttpReply::BodyFailed(detail) => HttpReplyView::BodyFailed(detail@),
            HttpReply::Response { success, status, body } => HttpReplyView::Response {
                success: *success,
                status: status@,
                body: body@,
            },
        }
    }
}

// What a document holds

/// The text of the condition in a part of a document.
pub open spec fn condition_in(part: Value) -> Option<Seq<char>> {
    match json_member(part, "condition"@) {
        Some(condition) => member_text(condition, "text"@),
        None => None,
    }
}

/// The place that a document reports.
pub open spec fn location_in(data: Value) -> Option<LocationView> {
    match json_member(data, "location"@) {
        Some(place) => Some(
            LocationView {
                name: member_text(place, "name"@),
                region: member_text(place, "region"@),
                country: member_text(place, "country"@),
                lat: member_fixed(place, "lat"@, 2),
                lon: member_fixed(place, "lon"@, 2),
            },
        ),
        None => None,
    }
}

/// The current conditions that a document reports.
pub open spec fn current_in(data: Value) -> Option<CurrentView> {
    match json_member(data, "current"@) {
        Some(current) => Some(
            CurrentView {
                condition: condition_in(current),
                temp_c: member_fixed(current, "temp_c"@, 1),
                feelslike_c: member_fixed(current, "feelslike_c"@, 1),
                humidity: member_integer(current, "humidity"@),
                wind_kph: member_fixed(current, "wind_kph"@, 1),
                wind_dir: member_text(current, "wind_dir"@),
                last_updated: member_text(current, "last_updated"@),
            },
        ),
        None => None,
    }
}

/// The share that a value gives: its text if it is a string, else the
/// number without decimals if it is a number.
pub open spec fn percentage_in(value: Value) -> PercentageView {
    match json_text(value) {
        Some(text) => PercentageView::Text(text),
        None => match json_fixed(value, 0) {
            Some(number) => PercentageView::Number(number),
            None => match json_integer(value) {
                Some(number) => PercentageView::Number(decimal(number as int)),
                None => PercentageView::Other,
            },
        },
    }
}

/// The share under `daily_chance_of_rain`, if there is such a member.
pub open spec fn rain_in(details: Value) -> Option<PercentageView> {
    match json_member(details, "daily_chance_of_rain"@) {
        Some(value) => Some(percentage_in(value)),
        None => None,
    }
}

/// The day that an item of a forecast reports.
pub open spec fn day_in(item: Value) -> ForecastDayView {
    ForecastDayView {
        date: member_text(item, "date"@),
        day: match json_member(item, "day"@) {
            Some(details) => Some(
                DayDetailsView {
                    condition: condition_in(details),
                    maxtemp_c: member_fixed(details, "maxtemp_c"@, 1),
                    mintemp_c: member_fixed(details, "mintemp_c"@, 1),
                    daily_chance_of_rain: rain_in(details),
                },
            ),
            None => None,
        },
    }
}

/// The days of the forecast that a document reports: the items under
/// `forecast.forecastday`, if that is an array.
pub open spec fn forecast_in(data: Value) -> Option<Seq<ForecastDayView>> {
    match json_member(data, "forecast"@) {
        Some(forecast) => match json_member(forecast, "forecastday"@) {
            Some(list) => match json_items(list) {
                Some(days) => Some(days.map_values(|item: Value| day_in(item))),
                None => None,
            },
            None => None,
        },
        None => None,
    }
}

/// The message of the error that a document reports: the text under
/// `error.message`.
pub open spec fn error_message_in(data: Value) -> Option<Seq<char>> {
    match json_member(data, "error"@) {
        Some(error) => member_text(error, "message"@),
        None => None,
    }
}

/// What the tool reads of a document.
pub open spec fn document_in(data: Value) -> WeatherDocumentView {
    WeatherDocumentView {
        pretty: json_pretty(data),
        error_message: error_message_in(data),
        location: location_in(data),
        current: current_in(data),
        forecast: forecast_in(data),
    }
}

/// What the tool reads of a body: the document that the text denotes, or why
/// it denotes none.
pub open spec fn body_in(body: Seq<char>) -> ParsedBodyView {
    match json_parse(body) {
        Ok(data) => ParsedBodyView::Document(document_in(data)),
        Err(error) => ParsedBodyView::Unreadable(json_error_text(error)),
    }
}

fn read_condition(part: &Value) -> (r: Option<String>)
    ensures
        opt_view(r) == condition_in(*part),
{
    match member(part, "condition") {
        Some(condition) => text_at(condition, "text"),
        None => None,
    }
}

/// Reads the place that a document reports.
pub fn read_location(data: &Value) -> (r: Option<Location>)
    ensures
        opt_view(r) == location_in(*data),
{
    match member(data, "location") {
        Some(place) => Some(
            Location {
                name: text_at(place, "name"),
                region: text_at(place, "region"),
                country: text_at(place, "country"),
                lat: fixed_at(place, "lat", 2),
                lon: fixed_at(place, "lon", 2),
            },
        ),
        None => None,
    }
}

/// Reads the current conditions that a document reports.
pub fn read_current(data: &Value) -> (r: Option<Current>)
    ensures
        opt_view(r) == current_in(*data),
{
    match member(data, "current") {
        Some(current) => Some(
            Current {
                condition: read_condition(current),
                temp_c: fixed_at(current, "temp_c", 1),
                feelslike_c: fixed_at(current, "feelslike_c", 1),
                humidity: integer_at(current, "humidity"),
                wind_kph: fixed_at(current, "wind_kph", 1),
                wind_dir: text_at(current, "wind_dir"),
                last_updated: text_at(current, "last_updated"),
            },
        ),
        None => None,
    }
}

/// Reads the share that a value gives.
pub fn read_percentage(value: &Value) -> (r: Percentage)
    ensures
        r@ == percentage_in(*value),
{
    match text(value) {
        Some(t) => Percentage::Text(t.to_owned()),
        None => match fixed(value, 0) {
            Some(number) => Percentage::Number(number),
            None => match integer(value) {
                Some(number) => Percentage::Number(format_i64(number)),
                None => Percentage::Other,
            },
        },
    }
}

fn read_day(item: &Value) -> (r: ForecastDay)
    ensures
        r@ == day_in(*item),
{
    ForecastDay {
        date: text_at(item, "date"),
        day: match member(item, "day") {
            Some(details) => Some(
                DayDetails {
                    condition: read_condition(details),
                    maxtemp_c: fixed_at(details, "maxtemp_c", 1),
                    mintemp_c: fixed_at(details, "mintemp_c", 1),
                    daily_chance_of_rain: match member(details, "daily_chance_of_rain") {
                        Some(value) => Some(read_percentage(value)),
                        None => None,
                    },
                },
            ),
            None => None,
        },
    }
}

/// Reads the days of the forecast that a document reports.
pub fn read_forecast(data: &Value) -> (r: Option<Vec<ForecastDay>>)
    ensures
        forecast_view(r) == forecast_in(*data),
{
    let forecast = match member(data, "forecast") {
        Some(forecast) => forecast,
        None => {
            return None;
        },
    };
    let list = match member(forecast, "forecastday") {
        Some(list) => list,
        None => {
            return None;
        },
    };
    let days = match items(list) {
        Some(days) => days,
        None => {
            return None;
        },
    };
    let ghost all = days@.map_values(|item: Value| day_in(item));
    let mut out: Vec<ForecastDay> = Vec::new();
    let mut i: usize = 0;
    while i < days.len()
        invariant
            i <= days.len(),
            all == days@.map_values(|item: Value| day_in(item)),
            day_views(out@) == all.take(i as int),
        decreases days.len() - i,
    {
        let ghost before = out@;
        let day = read_day(&days[i]);
        out.push(day);
        assert(day_views(out@) == day_views(before).push(day@));
        assert(all.take(i + 1) == all.take(i as int).push(all[i as int]));
        i = i + 1;
    }
    assert(all.take(days.len() as int) == all);
    Some(out)
}

fn read_error_message(data: &Value) -> (r: Option<String>)
    ensures
        opt_view(r) == error_message_in(*data),
{
    match member(data, "error") {
        Some(error) => text_at(error, "message"),
        None => None,
    }
}

/// Reads of a document what the tool needs of it.
pub fn read_document(data: &Value) -> (r: WeatherDocument)
    ensures
        r@ == document_in(*data),
{
    WeatherDocument {
        pretty: pretty(data),
        error_message: read_error_message(data),
        location: read_location(data),
        current: read_current(data),
        forecast: read_forecast(data),
    }
}

/// Reads the body of an answer.
pub fn read_body(body: &str) -> (r: ParsedBody)
    ensures
        r@ == body_in(body@),
{
    match parse(body) {
        Ok(data) => ParsedBody::Document(read_document(&data)),
        Err(error) => ParsedBody::Unreadable(error_text(&error)),
    }
}

// What is made of it

/// A share with its percent sign: a text is trimmed and gets the sign if it
/// has none, and a blank text is no share; a number gets the sign.
pub open spec fn percentage_text(value: Option<PercentageView>) -> Option<Seq<char>> {
    match value {
        Some(PercentageView::Text(text)) => {
            let t = trimmed(text);
            if t.len() == 0 {
                None
            } else if ends_with_char(t, '%') {
                Some(t)
            } else {
                Some(t.push('%'))
            }
        },
        Some(PercentageView::Number(number)) => Some(number.push('%')),
        _ => None,
    }
}

/// The share with its percent sign.
pub fn percentage_from(value: &Option<Percentage>) -> (r: Option<String>)
    ensures
        opt_view(r) == percentage_text(opt_view(*value)),
{
    match value {
        Some(Percentage::Text(text)) => {
            let t = trim(text.as_str());
            let n = t.as_str().unicode_len();
            if n == 0 {
                None
            } else if t.as_str().get_char(n - 1) == '%' {
                Some(t)
            } else {
                let mut t = t;
                push_char(&mut t, '%');
                Some(t)
            }
        },
        Some(Percentage::Number(number)) => {
            let mut t = number.clone();
            push_char(&mut t, '%');
            Some(t)
        },
        _ => None,
    }
}

/// The share that a value gives, with its percent sign.
pub fn extract_percentage(value: Option<&Value>) -> (r: Option<String>)
    ensures
        opt_view(r) == percentage_text(
            match value {
                Some(v) => Some(percentage_in(*v)),
                None => None,
            },
        ),
{
    match value {
        Some(v) => {
            let share = Some(read_percentage(v));
            percentage_from(&share)
        },
        None => None,
    }
}

/// The region of a place as the line shows it: the region and a comma, or
/// nothing where there is no region or an empty one.
pub open spec fn region_part(region: Option<Seq<char>>) -> Seq<char> {
    match region {
        Some(r) => if r.len() > 0 {
            r + ", "@
        } else {
            Seq::empty()
        },
        None => Seq::empty(),
    }
}

/// The coordinates of a place as the line shows them, where both are known.
pub open spec fn coordinates_part(lat: Option<Seq<char>>, lon: Option<Seq<char>>) -> Seq<char> {
    match (lat, lon) {
        (Some(lat), Some(lon)) => " (lat "@ + lat + ", lon "@ + lon + ")"@,
        _ => Seq::empty(),
    }
}

/// The line that names the place: name, region, country and coordinates. It
/// needs a name and a country.
pub open spec fn location_line(location: Option<LocationView>) -> Option<Seq<char>> {
    match location {
        Some(place) => match (place.name, place.country) {
            (Some(name), Some(country)) => Some(
                "Location: "@ + name + ", "@ + region_part(place.region) + country
                    + coordinates_part(place.lat, place.lon),
            ),
            _ => None,
        },
        None => None,
    }
}

/// The line that names the place.
pub fn location_line_from(location: &Option<Location>) -> (r: Option<String>)
    ensures
        opt_view(r) == location_line(opt_view(*location)),
{
    let place = match location {
        Some(place) => place,
        None => {
            return None;
        },
    };
    let name = match &place.name {
        Some(name) => name,
        None => {
            return None;
        },
    };
    let country = match &place.country {
        Some(country) => country,
        None => {
            return None;
        },
    };
    let mut line = String::new();
    line.append("Location: ");
    line.append(name.as_str());
    line.append(", ");
    match &place.region {
        Some(region) => {
            if region.as_str().unicode_len() > 0 {
                line.append(region.as_str());
                line.append(", ");
            }
        },
        None => {},
    }
    assert(line@ =~= "Location: "@ + name@ + ", "@ + region_part(opt_view(place.region)));
    line.append(country.as_str());
    match (&place.lat, &place.lon) {
        (Some(lat), Some(lon)) => {
            line.append(" (lat ");
            line.append(lat.as_str());
            line.append(", lon ");
            line.append(lon.as_str());
            line.append(")");
        },
        _ => {},
    }
    assert(line@ =~= "Location: "@ + name@ + ", "@ + region_part(opt_view(place.region))
        + country@ + coordinates_part(opt_view(place.lat), opt_view(place.lon)));
    Some(line)
}

/// The line that names the place that a document reports.
pub fn build_location_line(data: &Value) -> (r: Option<String>)
    ensures
        opt_view(r) == location_line(location_in(*data)),
{
    let location = read_location(data);
    location_line_from(&location)
}

/// A text, or `default` where there is none.
pub open spec fn text_or(text: Option<Seq<char>>, default: Seq<char>) -> Seq<char> {
    match text {
        Some(t) => t,
        None => default,
    }
}

/// The summary of the current conditions: the place, the conditions with
/// temperature and humidity, the wind, and when the report was made. It
/// needs the place, the conditions, both temperatures, the humidity and the
/// wind speed.
pub open spec fn current_summary(location: Option<LocationView>, current: Option<CurrentView>) -> Option<
    Seq<char>,
> {
    match (location_line(location), current) {
        (Some(place), Some(current)) => match (
            current.condition,
            current.temp_c,
            current.feelslike_c,
            current.humidity,
            current.wind_kph,
        ) {
            (Some(condition), Some(temp), Some(feels_like), Some(humidity), Some(wind)) => Some(
                place + "\nCurrent: "@ + condition + ", temp "@ + temp + " C (feels "@ + feels_like
                    + " C), humidity "@ + decimal(humidity as int) + "%\nWind: "@ + wind
                    + " kph "@ + text_or(current.wind_dir, Seq::empty()) + "\nLast updated: "@
                    + text_or(current.last_updated, "unknown"@),
            ),
            _ => None,
        },
        _ => None,
    }
}

/// The summary of the current conditions.
pub fn current_summary_from(location: &Option<Location>, current: &Option<Current>) -> (r: Option<
    String,
>)
    ensures
        opt_view(r) == current_summary(opt_view(*location), opt_view(*current)),
{
    let place = match location_line_from(location) {
        Some(place) => place,
        None => {
            return None;
        },
    };
    let current = match current {
        Some(current) => current,
        None => {
            return None;
        },
    };
    match (
        &current.condition,
        &current.temp_c,
        &current.feelslike_c,
        &current.humidity,
        &current.wind_kph,
    ) {
        (Some(condition), Some(temp), Some(feels_like), Some(humidity), Some(wind)) => {
            let mut s = String::new();
            s.append(place.as_str());
            s.append("\nCurrent: ");
            s.append(condition.as_str());
            s.append(", temp ");
            s.append(temp.as_str());
            s.append(" C (feels ");
            s.append(feels_like.as_str());
            s.append(" C), humidity ");
            push_decimal(&mut s, *humidity);
            s.append("%\nWind: ");
            s.append(wind.as_str());
            s.append(" kph ");
            match &current.wind_dir {
                Some(direction) => {
                    s.append(direction.as_str());
                },
                None => {},
            }
            s.append("\nLast updated: ");
            match &current.last_updated {
                Some(updated) => {
                    s.append(updated.as_str());
                },
                None => {
                    s.append("unknown");
                },
            }
            assert(s@ =~= place@ + "\nCurrent: "@ + condition@ + ", temp "@ + temp@
                + " C (feels "@ + feels_like@ + " C), humidity "@ + decimal(*humidity as int)
                + "%\nWind: "@ + wind@ + " kph "@ + text_or(
                opt_view(current.wind_dir),
                Seq::empty(),
            ) + "\nLast updated: "@ + text_or(opt_view(current.last_updated), "unknown"@));
            Some(s)
        },
        _ => None,
    }
}

/// The summary of the current conditions that a document reports.
pub fn summarize_current(data: &Value) -> (r: Option<String>)
    ensures
        opt_view(r) == current_summary(location_in(*data), current_in(*data)),
{
    let location = read_location(data);
    let current = read_current(data);
    current_summary_from(&location, &current)
}

/// The line of one day of a forecast: date, conditions, lowest and highest
/// temperature, and the chance of rain where it is known. It needs the date,
/// the conditions and both temperatures.
pub open spec fn day_line(day: ForecastDayView) -> Option<Seq<char>> {
    match (day.date, day.day) {
        (Some(date), Some(details)) => match (
            details.condition,
            details.maxtemp_c,
            details.mintemp_c,
        ) {
            (Some(condition), Some(max), Some(min)) => {
                let line = date + ": "@ + condition + ", min "@ + min + " C / max "@ + max
                    + " C"@;
                match percentage_text(details.daily_chance_of_rain) {
                    Some(rain) => Some(line + " (rain chance "@ + rain + ")"@),
                    None => Some(line),
                }
            },
            _ => None,
        },
        _ => None,
    }
}

/// The lines of the first `n` days, each after a line feed; none if one of
/// those days has no line.
pub open spec fn day_lines(days: Seq<ForecastDayView>, n: int) -> Option<Seq<char>>
    decreases n,
{
    if n <= 0 {
        Some(Seq::empty())
    } else {
        match (day_lines(days, n - 1), day_line(days[n - 1])) {
            (Some(before), Some(line)) => Some(before + seq!['\n'] + line),
            _ => None,
        }
    }
}

/// The lesser of the days asked for and the days there are.
pub open spec fn days_shown(asked: usize, there: nat) -> nat {
    if asked <= there {
        asked as nat
    } else {
        there
    }
}

/// The summary of a forecast: the place, how many days follow, and a line
/// for each of them. Days are shown as far as they were asked for and are
/// there. It needs the place and the days, and a line for each day shown.
pub open spec fn forecast_summary(
    location: Option<LocationView>,
    forecast: Option<Seq<ForecastDayView>>,
    days: usize,
) -> Option<Seq<char>> {
    match (location_line(location), forecast) {
        (Some(place), Some(forecast)) => {
            let shown = days_shown(days, forecast.len());
            match day_lines(forecast, shown as int) {
                Some(lines) => Some(
                    place + "\nForecast (next "@ + digits_of(shown) + " day(s)):"@ + lines,
                ),
                None => None,
            }
        },
        _ => None,
    }
}

fn day_line_from(day: &ForecastDay) -> (r: Option<String>)
    ensures
        opt_view(r) == day_line(day@),
{
    let date = match &day.date {
        Some(date) => date,
        None => {
            return None;
        },
    };
    let details = match &day.day {
        Some(details) => details,
        None => {
            return None;
        },
    };
    match (&details.condition, &details.maxtemp_c, &details.mintemp_c) {
        (Some(condition), Some(max), Some(min)) => {
            let mut s = String::new();
            s.append(date.as_str());
            s.append(": ");
            s.append(condition.as_str());
            s.append(", min ");
            s.append(min.as_str());
            s.append(" C / max ");
            s.append(max.as_str());
            s.append(" C");
            let ghost line = date@ + ": "@ + condition@ + ", min "@ + min@ + " C / max "@ + max@
                + " C"@;
            assert(s@ =~= line);
            match percentage_from(&details.daily_chance_of_rain) {
                Some(rain) => {
                    s.append(" (rain chance ");
                    s.append(rain.as_str());
                    s.append(")");
                    assert(s@ =~= line + " (rain chance "@ + rain@ + ")"@);
                },
                None => {},
            }
            Some(s)
        },
        _ => None,
    }
}

/// Where the first `k` days have no lines, no greater number of days has.
proof fn lemma_day_lines_none(days: Seq<ForecastDayView>, k: int, n: int)
    requires
        0 <= k <= n,
        day_lines(days, k).is_none(),
    ensures
        day_lines(days, n).is_none(),
    decreases n - k,
{
    if k < n {
        lemma_day_lines_none(days, k, n - 1);
    }
}

/// The summary of a forecast of up to `days` days.
pub fn forecast_summary_from(
    location: &Option<Location>,
    forecast: &Option<Vec<ForecastDay>>,
    days: usize,
) -> (r: Option<String>)
    ensures
        opt_view(r) == forecast_summary(opt_view(*location), forecast_view(*forecast), days),
{
    let place = match location_line_from(location) {
        Some(place) => place,
        None => {
            return None;
        },
    };
    let list = match forecast {
        Some(list) => list,
        None => {
            return None;
        },
    };
    let ghost all = day_views(list@);
    let requested: usize = if days <= list.len() {
        days
    } else {
        list.len()
    };
    let mut s = String::new();
    s.append(place.as_str());
    s.append("\nForecast (next ");
    push_digits(&mut s, requested as u64);
    s.append(" day(s)):");
    let ghost head = place@ + "\nForecast (next "@ + digits_of(requested as nat) + " day(s)):"@;
    assert(s@ =~= head + Seq::<char>::empty());
    let mut i: usize = 0;
    while i < requested
        invariant
            i <= requested <= list.len(),
            all == day_views(list@),
            location_line(opt_view(*location)) == Some(place@),
            forecast_view(*forecast) == Some(all),
            requested == days_shown(days, all.len()),
            day_lines(all, i as int).is_some(),
            s@ == head + day_lines(all, i as int).unwrap(),
        decreases requested - i,
    {
        assert(all[i as int] == list@[i as int]@);
        match day_line_from(&list[i]) {
            Some(line) => {
                let ghost before = day_lines(all, i as int).unwrap();
                push_char(&mut s, '\n');
                s.append(line.as_str());
                assert(s@ =~= head + (before + seq!['\n'] + line@));
            },
            None => {
                proof {
                    assert(day_lines(all, i + 1).is_none());
                    lemma_day_lines_none(all, i + 1, requested as int);
                }
                return None;
            },
        }
        i = i + 1;
    }
    Some(s)
}

/// The summary of the forecast that a document reports, of up to `days`
/// days.
pub fn summarize_forecast(data: &Value, days: usize) -> (r: Option<String>)
    ensures
        opt_view(r) == forecast_summary(location_in(*data), forecast_in(*data), days),
{
    let location = read_location(data);
    let forecast = read_forecast(data);
    forecast_summary_from(&location, &forecast, days)
}

/// What is said of a request that could not be sent.
pub open spec fn request_failed_text(detail: Seq<char>) -> Seq<char> {
    "WeatherAPI request failed: "@ + detail
}

/// What is said of a body that did not arrive.
pub open spec fn body_failed_text(detail: Seq<char>) -> Seq<char> {
    "Failed to read WeatherAPI response: "@ + detail
}

/// What is said of an answer whose status is no success.
pub open spec fn service_error_text(status: Seq<char>, detail: Seq<char>) -> Seq<char> {
    "WeatherAPI error ("@ + status + "): "@ + detail
}

/// A result that says what failed.
pub open spec fn failure(reason: Seq<char>) -> ToolResultView {
    ToolResultView { success: false, output: Seq::empty(), error: Some(reason) }
}

/// What the service says went wrong: the message of its document, or the
/// whole body where there is no such message.
pub open spec fn error_detail(body: Seq<char>, parsed: ParsedBodyView) -> Seq<char> {
    match parsed {
        ParsedBodyView::Document(document) => text_or(document.error_message, body),
        ParsedBodyView::Unreadable(_) => body,
    }
}

/// The output of a call that went well: the summary, or the document laid
/// out for reading where no summary can be made, or the body where that
/// cannot be made either.
pub open spec fn output_text(days: u8, body: Seq<char>, document: WeatherDocumentView) -> Seq<
    char,
> {
    let summary = if days > 1 {
        forecast_summary(document.location, document.forecast, days as usize)
    } else {
        current_summary(document.location, document.current)
    };
    match summary {
        Some(text) => text,
        None => text_or(document.pretty, body),
    }
}

/// What an answer comes to, for a request of `days` days, with what its body
/// holds. A status that is no success is a result that says what failed. A
/// success with an unreadable body is an error, with what is wrong with the
/// body. A success with a document is a result with its summary.
pub open spec fn response_outcome(
    days: u8,
    success: bool,
    status: Seq<char>,
    body: Seq<char>,
    parsed: ParsedBodyView,
) -> Result<ToolResultView, Seq<char>> {
    if !success {
        Ok(failure(service_error_text(status, error_detail(body, parsed))))
    } else {
        match parsed {
            ParsedBodyView::Unreadable(detail) => Err(detail),
            ParsedBodyView::Document(document) => Ok(
                ToolResultView {
                    success: true,
                    output: output_text(days, body, document),
                    error: None,
                },
            ),
        }
    }
}

/// What a reply comes to, for a request of `days` days. A request that
/// could not be sent and a body that could not be read are results that say
/// what failed; an answer is judged by its status and by what its body
/// holds.
pub open spec fn reply_outcome(days: u8, reply: HttpReplyView) -> Result<ToolResultView, Seq<char>> {
    match reply {
        HttpReplyView::SendFailed(detail) => Ok(failure(request_failed_text(detail))),
        HttpReplyView::BodyFailed(detail) => Ok(failure(body_failed_text(detail))),
        HttpReplyView::Response { success, status, body } => response_outcome(
            days,
            success,
            status,
            body,
            body_in(body),
        ),
    }
}

/// A failure on the side of the service is never an error of the call: a
/// reply comes to an error only where the service answered with success and
/// a body that is no document.
pub proof fn lemma_only_an_unreadable_success_is_an_error(days: u8, reply: HttpReplyView)
    ensures
        reply_outcome(days, reply).is_err() <==> (reply matches HttpReplyView::Response {
            success,
            body,
            ..
        } && success && json_parse(body).is_err()),
        reply_outcome(days, reply) matches Ok(result) ==> (result.success <==> result.error.is_none()),
{
}

/// What an answer comes to, for a request of `days` days, with what its body
/// holds.
pub fn interpret_response(days: u8, success: bool, status: &str, body: &str, parsed: &ParsedBody) -> (r:
    Result<ToolResult, ToolError>)
    ensures
        match r {
            Ok(result) => response_outcome(days, success, status@, body@, parsed@) == Ok::<
                ToolResultView,
                Seq<char>,
            >(result@),
            Err(ToolError::UnreadableResponse(detail)) => response_outcome(
                days,
                success,
                status@,
                body@,
                parsed@,
            ) == Err::<ToolResultView, Seq<char>>(detail@),
            Err(_) => false,
        },
{
    if !success {
        let mut text = String::new();
        text.append("WeatherAPI error (");
        text.append(status);
        text.append("): ");
        match parsed {
            ParsedBody::Document(document) => match &document.error_message {
                Some(message) => {
                    text.append(message.as_str());
                },
                None => {
                    text.append(body);
                },
            },
            ParsedBody::Unreadable(_) => {
                text.append(body);
            },
        }
        assert(text@ =~= service_error_text(status@, error_detail(body@, parsed@)));
        Ok(ToolResult::failed(text))
    } else {
        match parsed {
            ParsedBody::Unreadable(detail) => Err(ToolError::UnreadableResponse(detail.clone())),
            ParsedBody::Document(document) => {
                let summary = if days > 1 {
                    forecast_summary_from(&document.location, &document.forecast, days as usize)
                } else {
                    current_summary_from(&document.location, &document.current)
                };
                let output = match summary {
                    Some(text) => text,
                    None => match &document.pretty {
                        Some(pretty) => pretty.clone(),
                        None => body.to_owned(),
                    },
                };
                Ok(ToolResult::ok(output))
            },
        }
    }
}

/// What a reply comes to, for a request of `days` days.
pub fn interpret_reply(days: u8, reply: &HttpReply) -> (r: Result<ToolResult, ToolError>)
    ensures
        match r {
            Ok(result) => reply_outcome(days, reply@) == Ok::<ToolResultView, Seq<char>>(result@),
            Err(ToolError::UnreadableResponse(detail)) => reply_outcome(days, reply@) == Err::<
                ToolResultView,
                Seq<char>,
            >(detail@),
            Err(_) => false,
        },
{
    match reply {
        HttpReply::SendFailed(detail) => {
            let mut text = String::new();
            text.append("WeatherAPI request failed: ");
            text.append(detail.as_str());
            Ok(ToolResult::failed(text))
        },
        HttpReply::BodyFailed(detail) => {
            let mut text = String::new();
            text.append("Failed to read WeatherAPI response: ");
            text.append(detail.as_str());
            Ok(ToolResult::failed(text))
        },
        HttpReply::Response { success, status, body } => {
            let parsed = read_body(body.as_str());
            interpret_response(days, *success, status.as_str(), body.as_str(), &parsed)
        },
    }
}

} // verus!
