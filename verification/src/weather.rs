//! Rendering of a weather report as a reply card. The report arrives as
//! plain values (the caller converts the provider's raw response); this
//! module builds the location line, the provider URL, and the field list.
use vstd::prelude::*;
use vstd::string::*;

use num_format::{Locale, ToFormattedString};

use crate::text::{dec_str, digit_char, u64_to_string};
use crate::wind::{get_wind_direction, wind_direction_spec};

verus! {

/// A weather report reduced to plain values.
pub struct WeatherInfo {
    /// The provider's city identifier, for the card's link.
    pub city_id: u64,
    /// The location's name.
    pub name: String,
    /// The location's country code, when the report carries one.
    pub country: Option<String>,
    /// The leading weather condition, when the report carries one.
    pub condition: Option<String>,
    /// Temperature in whole degrees Celsius and Fahrenheit.
    pub temp_c: u64,
    pub temp_f: u64,
    /// Wind speed in whole metres per second.
    pub wind_speed: u64,
    /// Wind bearing in whole degrees.
    pub wind_deg: i32,
    /// Relative humidity in percent.
    pub humidity: u64,
    /// Cloud cover in percent, when the report carries it.
    pub cloudiness: Option<u64>,
    /// Pressure in millibars.
    pub pressure: u64,
    /// The location's UTC offset in seconds, when the report carries it.
    pub timezone: Option<i32>,
    /// Sunrise and sunset as Unix timestamps, when the report carries them.
    pub sunrise: Option<u32>,
    pub sunset: Option<u32>,
}

/// The report's mathematical shadow.
#[verifier::ext_equal]
pub ghost struct InfoView {
    pub city_id: nat,
    pub name: Seq<char>,
    pub country: Option<Seq<char>>,
    pub condition: Option<Seq<char>>,
    pub temp_c: nat,
    pub temp_f: nat,
    pub wind_speed: nat,
    pub wind_deg: int,
    pub humidity: nat,
    pub cloudiness: Option<nat>,
    pub pressure: nat,
    pub timezone: Option<int>,
    pub sunrise: Option<int>,
    pub sunset: Option<int>,
}

impl View for WeatherInfo {
    type V = InfoView;

    open spec fn view(&self) -> InfoView {
        InfoView {
            city_id: self.city_id as nat,
            name: self.name@,
            country: match self.country {
                Some(c) => Some(c@),
                None => None,
            },
            condition: match self.condition {
                Some(c) => Some(c@),
                None => None,
            },
            temp_c: self.temp_c as nat,
            temp_f: self.temp_f as nat,
            wind_speed: self.wind_speed as nat,
            wind_deg: self.wind_deg as int,
            humidity: self.humidity as nat,
            cloudiness: match self.cloudiness {
                Some(c) => Some(c as nat),
                None => None,
            },
            pressure: self.pressure as nat,
            timezone: match self.timezone {
                Some(t) => Some(t as int),
                None => None,
            },
            sunrise: match self.sunrise {
                Some(s) => Some(s as int),
                None => None,
            },
            sunset: match self.sunset {
                Some(s) => Some(s as int),
                None => None,
            },
        }
    }
}

/// One field of the card.
pub struct WeatherField {
    pub name: String,
    pub value: String,
    pub inline: bool,
}

#[verifier::ext_equal]
pub ghost struct FieldView {
    pub name: Seq<char>,
    pub value: Seq<char>,
    pub inline: bool,
}

impl View for WeatherField {
    type V = FieldView;

    open spec fn view(&self) -> FieldView {
        FieldView { name: self.name@, value: self.value@, inline: self.inline }
    }
}

pub open spec fn fields_view(fs: Seq<WeatherField>) -> Seq<FieldView> {
    fs.map_values(|f: WeatherField| f@)
}

/// The rendered card.
pub struct WeatherCard {
    pub location: String,
    pub url: String,
    pub fields: Vec<WeatherField>,
}

/// A number below one thousand as exactly three digits, zero-padded.
pub open spec fn pad3(n: int) -> Seq<char> {
    seq![digit_char(n / 100), digit_char((n / 10) % 10), digit_char(n % 10)]
}

/// Decimal digits grouped in threes from the right, separated by commas.
pub open spec fn grouped_dec(n: nat) -> Seq<char>
    decreases n,
{
    if n < 1000 {
        dec_str(n)
    } else {
        grouped_dec(n / 1000) + ","@ + pad3((n % 1000) as int)
    }
}

/// Relies on num_format's `ToFormattedString` with `Locale::en`, whose
/// grouping is `Standard` and whose separator is a comma: the decimal digits
/// grouped in threes from the right.
#[verifier::external_body]
fn grouped_u64(n: u64) -> (r: String)
    ensures
        r@ == grouped_dec(n as nat),
{
    n.to_formatted_string(&Locale::en)
}

/// A number below one hundred as exactly two digits, zero-padded.
pub open spec fn pad2(n: int) -> Seq<char> {
    seq![digit_char(n / 10), digit_char(n % 10)]
}

/// The 12-hour clock rendering of a second-of-day: zero-padded hour and
/// minute with the AM/PM marker, hours running 12, 01 .. 11.
pub open spec fn clock12_text(secs_of_day: int) -> Seq<char> {
    let h24 = secs_of_day / 3600;
    let m = (secs_of_day % 3600) / 60;
    let h12 = if h24 % 12 == 0 {
        12
    } else {
        h24 % 12
    };
    pad2(h12) + ":"@ + pad2(m) + " "@ + (if h24 < 12 {
        "AM"@
    } else {
        "PM"@
    })
}

/// Relies on chrono's `DateTime::from_timestamp`, `FixedOffset::east_opt` and
/// `format("%I:%M %p")`: the local moment's zero-padded 12-hour clock time,
/// which depends only on the moment's second of day at the given offset.
#[verifier::external_body]
fn clock_time_text(secs: i64, offset_secs: i32) -> (r: String)
    requires
        -86400 < offset_secs < 86400,
        0 <= secs <= 253402300799,
    ensures
        r@ == clock12_text((secs + offset_secs) % 86400),
{
    let offset = chrono::FixedOffset::east_opt(offset_secs).unwrap();
    let moment = chrono::DateTime::<chrono::Utc>::from_timestamp(secs, 0).unwrap();
    moment.with_timezone(&offset).format("%I:%M %p").to_string()
}

/// What chrono's `format("%b %d, %Y, %r (UTC%:z)")` renders for a moment at
/// an offset: month, day, year, 12-hour time and the offset itself. The full
/// calendar rendering is not restated here; it is a function of the two
/// arguments alone.
pub uninterp spec fn date_text_of(secs: int, offset_secs: int) -> Seq<char>;

/// Relies on chrono's `DateTime::from_timestamp`, `FixedOffset::east_opt` and
/// `format("%b %d, %Y, %r (UTC%:z)")`: the rendering depends on the
/// timestamp and the offset alone.
#[verifier::external_body]
fn local_date_text(secs: i64, offset_secs: i32) -> (r: String)
    requires
        -86400 < offset_secs < 86400,
        0 <= secs <= 253402300799,
    ensures
        r@ == date_text_of(secs as int, offset_secs as int),
{
    let offset = chrono::FixedOffset::east_opt(offset_secs).unwrap();
    let moment = chrono::DateTime::<chrono::Utc>::from_timestamp(secs, 0).unwrap();
    moment.with_timezone(&offset).format("%b %d, %Y, %r (UTC%:z)").to_string()
}

/// The card's location line: the name, with the country code when present.
pub open spec fn location_spec(w: InfoView) -> Seq<char> {
    match w.country {
        Some(c) => w.name + ", "@ + c,
        None => w.name,
    }
}

/// The card's link to the provider's page for the city.
pub open spec fn url_spec(w: InfoView) -> Seq<char> {
    "https://openweathermap.org/city/"@ + dec_str(w.city_id)
}

/// The temperature line, in both units.
pub open spec fn temp_text(c: nat, f: nat) -> Seq<char> {
    dec_str(c) + "\u{b0}C/"@ + dec_str(f) + "\u{b0}F"@
}

/// The wind line: speed, and the compass direction when the bearing has one.
pub open spec fn wind_text(speed: nat, deg: int) -> Seq<char> {
    dec_str(speed) + " m/s"@ + (match wind_direction_spec(deg) {
        Some(d) => ", "@ + d,
        None => Seq::<char>::empty(),
    })
}

/// The card's field list, in order: condition (when present), temperature,
/// wind, humidity, cloudiness (when present), pressure, and, when the report
/// carries a UTC offset, sunrise and sunset (when present) and the current
/// local date.
pub open spec fn weather_fields(w: InfoView, now_secs: int) -> Seq<FieldView> {
    (match w.condition {
        Some(c) => seq![FieldView { name: "Condition"@, value: c, inline: true }],
        None => Seq::empty(),
    }) + seq![
        FieldView { name: "Temperature"@, value: temp_text(w.temp_c, w.temp_f), inline: true },
        FieldView { name: "Wind"@, value: wind_text(w.wind_speed, w.wind_deg), inline: true },
        FieldView { name: "Humidity"@, value: dec_str(w.humidity) + "%"@, inline: true },
    ] + (match w.cloudiness {
        Some(c) => seq![FieldView { name: "Cloudiness"@, value: dec_str(c) + "%"@, inline: true }],
        None => Seq::empty(),
    }) + seq![
        FieldView { name: "Pressure"@, value: grouped_dec(w.pressure) + " mbar"@, inline: true },
    ] + (match w.timezone {
        Some(off) => (match w.sunrise {
            Some(s) => seq![
                FieldView {
                    name: "Sunrise"@,
                    value: clock12_text((s + off) % 86400),
                    inline: true,
                },
            ],
            None => Seq::empty(),
        }) + (match w.sunset {
            Some(s) => seq![
                FieldView { name: "Sunset"@, value: clock12_text((s + off) % 86400), inline: true },
            ],
            None => Seq::empty(),
        }) + seq![
            FieldView {
                name: "Current Date"@,
                value: date_text_of(now_secs, off),
                inline: false,
            },
        ],
        None => Seq::empty(),
    })
}

/// Renders the report as a reply card: the location line, the provider URL,
/// and the fields exactly as `weather_fields` states. `now_secs` is the
/// current Unix time, read by the caller.
pub fn render_weather(w: &WeatherInfo, now_secs: i64) -> (r: WeatherCard)
    requires
        match w.timezone {
            Some(off) => -86400 < off < 86400 && 0 <= now_secs <= 253402300799,
            None => true,
        },
    ensures
        r.location@ == location_spec(w@),
        r.url@ == url_spec(w@),
        fields_view(r.fields@) == weather_fields(w@, now_secs as int),
{
    let location = match &w.country {
        Some(c) => {
            let mut l = w.name.clone();
            l.append(", ");
            l.append(c.as_str());
            l
        },
        None => w.name.clone(),
    };
    let mut url = String::from_str("https://openweathermap.org/city/");
    let id_text = u64_to_string(w.city_id);
    url.append(id_text.as_str());
    let mut fields: Vec<WeatherField> = Vec::new();
    if let Some(c) = &w.condition {
        fields.push(
            WeatherField { name: String::from_str("Condition"), value: c.clone(), inline: true },
        );
    }
    let mut temp = u64_to_string(w.temp_c);
    temp.append("\u{b0}C/");
    let temp_f_text = u64_to_string(w.temp_f);
    temp.append(temp_f_text.as_str());
    temp.append("\u{b0}F");
    fields.push(WeatherField { name: String::from_str("Temperature"), value: temp, inline: true });
    let mut wind = u64_to_string(w.wind_speed);
    wind.append(" m/s");
    match get_wind_direction(w.wind_deg) {
        Some(d) => {
            wind.append(", ");
            wind.append(d.as_str());
        },
        None => {},
    }
    fields.push(WeatherField { name: String::from_str("Wind"), value: wind, inline: true });
    let mut humidity = u64_to_string(w.humidity);
    humidity.append("%");
    fields.push(
        WeatherField { name: String::from_str("Humidity"), value: humidity, inline: true },
    );
    if let Some(c) = w.cloudiness {
        let mut cl = u64_to_string(c);
        cl.append("%");
        fields.push(WeatherField { name: String::from_str("Cloudiness"), value: cl, inline: true });
    }
    let mut pressure = grouped_u64(w.pressure);
    pressure.append(" mbar");
    fields.push(
        WeatherField { name: String::from_str("Pressure"), value: pressure, inline: true },
    );
    if let Some(off) = w.timezone {
        if let Some(s) = w.sunrise {
            let t = clock_time_text(s as i64, off);
            fields.push(WeatherField { name: String::from_str("Sunrise"), value: t, inline: true });
        }
        if let Some(s) = w.sunset {
            let t = clock_time_text(s as i64, off);
            fields.push(WeatherField { name: String::from_str("Sunset"), value: t, inline: true });
        }
        let d = local_date_text(now_secs, off);
        fields.push(
            WeatherField { name: String::from_str("Current Date"), value: d, inline: false },
        );
    }
    proof {
        assert(fields_view(fields@) =~~= weather_fields(w@, now_secs as int));
    }
    WeatherCard { location, url, fields }
}

} // verus!
