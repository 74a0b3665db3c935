use cmdbot::embed::{Color, EmbedType};
use cmdbot::shutdown::{
    classify_reaction, confirmation_text, decide_shutdown, ReactionOutcome, CHECK_MARK, CROSS_MARK,
};
use cmdbot::weather::{render_weather, WeatherInfo};

fn sample_info() -> WeatherInfo {
    WeatherInfo {
        city_id: 2643743,
        name: "London".to_string(),
        country: Some("GB".to_string()),
        condition: Some("Clouds".to_string()),
        temp_c: 11,
        temp_f: 51,
        wind_speed: 4,
        wind_deg: 181,
        humidity: 81,
        cloudiness: Some(75),
        pressure: 1013,
        timezone: Some(3600),
        sunrise: Some(0),
        sunset: Some(43200),
    }
}

#[test]
fn weather_card_location_and_url() {
    let card = render_weather(&sample_info(), 0);
    assert_eq!(card.location, "London, GB");
    assert_eq!(card.url, "https://openweathermap.org/city/2643743");
}

#[test]
fn weather_card_fields_in_order() {
    let card = render_weather(&sample_info(), 0);
    let names: Vec<&str> = card.fields.iter().map(|f| f.name.as_str()).collect();
    assert_eq!(
        names,
        vec![
            "Condition",
            "Temperature",
            "Wind",
            "Humidity",
            "Cloudiness",
            "Pressure",
            "Sunrise",
            "Sunset",
            "Current Date",
        ]
    );
}

#[test]
fn weather_card_field_values() {
    let card = render_weather(&sample_info(), 0);
    let value_of = |name: &str| -> String {
        card.fields
            .iter()
            .find(|f| f.name == name)
            .map(|f| f.value.clone())
            .expect("field present")
    };
    assert_eq!(value_of("Condition"), "Clouds");
    assert_eq!(value_of("Temperature"), "11\u{b0}C/51\u{b0}F");
    assert_eq!(value_of("Wind"), "4 m/s, South");
    assert_eq!(value_of("Humidity"), "81%");
    assert_eq!(value_of("Cloudiness"), "75%");
    // the separator comes from the number-formatting locale
    assert_eq!(value_of("Pressure"), "1,013 mbar");
    // sunrise at epoch with a +01:00 offset is one in the morning, local time
    assert_eq!(value_of("Sunrise"), "01:00 AM");
    // sunset at noon UTC with a +01:00 offset
    assert_eq!(value_of("Sunset"), "01:00 PM");
    // the current-date rendering comes from the calendar formatter
    assert_eq!(value_of("Current Date"), "Jan 01, 1970, 01:00:00 AM (UTC+01:00)");
}

#[test]
fn weather_card_without_optional_parts() {
    let mut info = sample_info();
    info.country = None;
    info.condition = None;
    info.cloudiness = None;
    info.timezone = None;
    info.wind_deg = 400;
    let card = render_weather(&info, 0);
    assert_eq!(card.location, "London");
    let names: Vec<&str> = card.fields.iter().map(|f| f.name.as_str()).collect();
    assert_eq!(names, vec!["Temperature", "Wind", "Humidity", "Pressure"]);
    let wind = card.fields.iter().find(|f| f.name == "Wind").unwrap();
    // an out-of-range bearing gets no direction name
    assert_eq!(wind.value, "4 m/s");
}

#[test]
fn pressure_grouping_large_value() {
    let mut info = sample_info();
    info.pressure = 1234567;
    info.timezone = None;
    let card = render_weather(&info, 0);
    let p = card.fields.iter().find(|f| f.name == "Pressure").unwrap();
    assert_eq!(p.value, "1,234,567 mbar");
}

#[test]
fn embed_titles_and_colors() {
    assert_eq!(EmbedType::Success.to_string(), "Success");
    assert_eq!(EmbedType::Failure.reply_title(), "Failure!");
    assert_eq!(EmbedType::Warning.reply_title(), "Warning!");
    assert_eq!(
        EmbedType::Success.get_color(),
        Color { red: 0x70, green: 0x55, blue: 0x44 }
    );
    assert_eq!(
        EmbedType::Failure.get_color(),
        Color { red: 0xef, green: 0x43, blue: 0x3f }
    );
    assert_eq!(
        EmbedType::Confirmation.get_color(),
        Color { red: 0x78, green: 0xb4, blue: 0x54 }
    );
    assert_eq!(
        EmbedType::Warning.get_color(),
        Color { red: 0xff, green: 0xf2, blue: 0x36 }
    );
}

#[test]
fn reactions_classified_against_the_two_options() {
    assert_eq!(
        classify_reaction(&CHECK_MARK.to_string()),
        Some(ReactionOutcome::Affirmative)
    );
    assert_eq!(
        classify_reaction(&CROSS_MARK.to_string()),
        Some(ReactionOutcome::Negative)
    );
    assert_eq!(classify_reaction("\u{1F44D}"), None);
    assert_eq!(classify_reaction(""), None);
    assert_eq!(classify_reaction("ab"), None);
}

#[test]
fn shutdown_decision_outcomes() {
    let yes = decide_shutdown(&ReactionOutcome::Affirmative);
    assert!(yes.delete_prompt && yes.terminate);
    let no = decide_shutdown(&ReactionOutcome::Negative);
    assert!(no.delete_prompt && !no.terminate);
    let timeout = decide_shutdown(&ReactionOutcome::TimedOut);
    assert!(timeout.delete_prompt && !timeout.terminate);
    assert_eq!(confirmation_text(), "Are you sure?");
}
