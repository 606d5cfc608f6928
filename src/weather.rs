//! The meteorological and hydrological data of an IMO289 message: type 8,
//! designated area code 200, functional ID 31. AIS-catcher sends scaled values.

use vstd::prelude::*;
use crate::decimal::{fixed3_text, is_decimal, is_decimal_text, round_to_thousandths};
use crate::json::{coerced_u64, number_text, AisMessage};
use crate::station::DecodeError;
use crate::text::{nat_digits, u64_to_text};

verus! {

/// The `airtemp` of a message that lacks it.
pub const AIRTEMP_NA: &'static str = "-1024";

/// The `cdepth2` of a message that lacks it.
pub const CDEPTH2_NA: u64 = 31;

/// The `cdepth3` of a message that lacks it.
pub const CDEPTH3_NA: u64 = 31;

/// The `cdir` of a message that lacks it.
pub const CDIR_NA: u64 = 360;

/// The `cdir2` of a message that lacks it.
pub const CDIR2_NA: u64 = 360;

/// The `cdir3` of a message that lacks it.
pub const CDIR3_NA: u64 = 360;

/// The `cspeed` of a message that lacks it.
pub const CSPEED_NA: &'static str = "25.5";

/// The `cspeed2` of a message that lacks it.
pub const CSPEED2_NA: &'static str = "25.5";

/// The `cspeed3` of a message that lacks it.
pub const CSPEED3_NA: &'static str = "25.5";

/// The `dewpoint` of a message that lacks it.
pub const DEWPOINT_NA: &'static str = "50.1";

/// The `ice` of a message that lacks it.
pub const ICE_NA: u64 = 3;

/// The `lat` of a message that lacks it.
pub const LAT_NA: &'static str = "91";

/// The `leveltrend` of a message that lacks it.
pub const LEVELTREND_NA: u64 = 3;

/// The `lon` of a message that lacks it.
pub const LON_NA: &'static str = "181";

/// The `preciptype` of a message that lacks it.
pub const PRECIPTYPE_NA: u64 = 7;

/// The `pressure` of a message that lacks it.
pub const PRESSURE_NA: u64 = 511;

/// The `pressuretend` of a message that lacks it.
pub const PRESSURETEND_NA: u64 = 3;

/// The `salinity` of a message that lacks it.
pub const SALINITY_NA: &'static str = "511";

/// The `seastate` of a message that lacks it.
pub const SEASTATE_NA: u64 = 13;

/// The `swellheight` of a message that lacks it.
pub const SWELLHEIGHT_NA: &'static str = "25.5";

/// The `swellperiod` of a message that lacks it.
pub const SWELLPERIOD_NA: u64 = 360;

/// The `visgreater` of a message that lacks it.
pub const VISGREATER_NA: &'static str = "1";

/// The `visibility` of a message that lacks it.
pub const VISIBILITY_NA: &'static str = "12.7";

/// The `waterlevel` of a message that lacks it.
pub const WATERLEVEL_NA: &'static str = "30.01";

/// The `watertemp` of a message that lacks it.
pub const WATERTEMP_NA: &'static str = "50.1";

/// The `waveheight` of a message that lacks it.
pub const WAVEHEIGHT_NA: &'static str = "25.5";

/// The `waveperiod` of a message that lacks it.
pub const WAVEPERIOD_NA: u64 = 63;

/// The `wdir` of a message that lacks it.
pub const WDIR_NA: u64 = 360;

/// The `wgust` of a message that lacks it.
pub const WGUST_NA: u64 = 127;

/// The `wgustdir` of a message that lacks it.
pub const WGUSTDIR_NA: u64 = 360;

/// The `wspeed` of a message that lacks it.
pub const WSPEED_NA: u64 = 127;

/// The weather data of a message. Where a field is absent from the message it holds
/// the value that marks "not available". Fractional values are decimal text.
#[derive(Debug, Clone)]
pub struct AisType8Dac200Fid31 {
    /// Air temperature, dry bulb, -60 to +60 C in 0.1 C; -1024 = N/A
    pub airtemp: String,
    /// Depth of the second current measurement in metres; 31 = N/A
    pub cdepth2: u64,
    /// Depth of the third current measurement in metres; 31 = N/A
    pub cdepth3: u64,
    /// Surface current bearing in degrees; 360 = N/A
    pub cdir: u64,
    /// Current bearing at the second depth in degrees; 360 = N/A
    pub cdir2: u64,
    /// Current bearing at the third depth in degrees; 360 = N/A
    pub cdir3: u64,
    /// Surface current speed in knots; 25.5 = N/A
    pub cspeed: String,
    /// Current speed at the second depth in knots; 25.5 = N/A
    pub cspeed2: String,
    /// Current speed at the third depth in knots; 25.5 = N/A
    pub cspeed3: String,
    /// Dew point, -20 to +50 C in 0.1 C; 50.1 = N/A
    pub dewpoint: String,
    /// Ice, 0 no, 1 yes; 3 = N/A
    pub ice: u64,
    /// Latitude, north positive, in degrees; 91 = N/A
    pub lat: String,
    /// Water level trend, 0 steady, 1 decreasing, 2 increasing; 3 = N/A
    pub leveltrend: u64,
    /// Longitude, east positive, in degrees; 181 = N/A
    pub lon: String,
    /// Precipitation type, 1 rain, 2 thunderstorm, 3 freezing rain, 4 mixed or ice, 5 snow; 7 = N/A
    pub preciptype: u64,
    /// Air pressure, 800 to 1200 hPa, 0 = 799 or less, 402 = 1201 or more; 511 = N/A
    pub pressure: u64,
    /// Air pressure tendency, 0 steady, 1 decreasing, 2 increasing; 3 = N/A
    pub pressuretend: u64,
    /// Salinity in 0.1 per mille; 511 = N/A
    pub salinity: String,
    /// Sea state on the Beaufort scale; 13 = N/A
    pub seastate: u64,
    /// Swell height in metres; 25.5 = N/A
    pub swellheight: String,
    /// Swell period in seconds; 360 = N/A
    pub swellperiod: u64,
    /// Whether visibility is greater than the value given; 1 = N/A
    pub visgreater: String,
    /// Visibility in nautical miles; 12.7 = N/A
    pub visibility: String,
    /// Water level, -10.0 to +30.0 m in 0.01 m; 30.01 = N/A
    pub waterlevel: String,
    /// Water temperature in 0.1 C; 50.1 = N/A
    pub watertemp: String,
    /// Wave height in metres, 0 to 25 m in 0.1 m; 25.5 = N/A
    pub waveheight: String,
    /// Wave period in seconds, 0 to 60; 63 = N/A
    pub waveperiod: u64,
    /// Wind bearing in degrees true, 0 to 359; 360 = N/A
    pub wdir: u64,
    /// Wind gust speed in knots, 126 = 126 or more; 127 = N/A
    pub wgust: u64,
    /// Wind gust bearing in degrees true, 0 to 359; 360 = N/A
    pub wgustdir: u64,
    /// Wind speed in knots, 126 = 126 or more; 127 = N/A
    pub wspeed: u64,
}

/// A fractional field: its default where absent, the decimal text of a number where
/// present, and `None` (it cannot be read) where present as anything else.
pub open spec fn decimal_field(m: AisMessage, key: Seq<char>, default: Seq<char>) -> Option<Seq<char>> {
    match m.field(key) {
        None => Some(default),
        Some(v) => number_text(v),
    }
}

/// An integer field: its default where absent or not a number, else the number
/// coerced to an unsigned integer (a fraction truncated toward zero).
pub open spec fn integer_field(m: AisMessage, key: Seq<char>, default: u64) -> u64 {
    match m.field(key) {
        None => default,
        Some(v) => match coerced_u64(v) {
            Some(n) => n,
            None => default,
        },
    }
}

/// Why the weather data of `m` cannot be decoded: the first fractional field, in
/// alphabetical order, that is present and not a number. `None` where it can.
pub open spec fn weather_error(m: AisMessage) -> Option<DecodeError> {
    if decimal_field(m, "airtemp"@, AIRTEMP_NA@) is None {
        Some(DecodeError::UnsupportedType("airtemp"))
    } else if decimal_field(m, "cspeed"@, CSPEED_NA@) is None {
        Some(DecodeError::UnsupportedType("cspeed"))
    } else if decimal_field(m, "cspeed2"@, CSPEED2_NA@) is None {
        Some(DecodeError::UnsupportedType("cspeed2"))
    } else if decimal_field(m, "cspeed3"@, CSPEED3_NA@) is None {
        Some(DecodeError::UnsupportedType("cspeed3"))
    } else if decimal_field(m, "dewpoint"@, DEWPOINT_NA@) is None {
        Some(DecodeError::UnsupportedType("dewpoint"))
    } else if decimal_field(m, "lat"@, LAT_NA@) is None {
        Some(DecodeError::UnsupportedType("lat"))
    } else if decimal_field(m, "lon"@, LON_NA@) is None {
        Some(DecodeError::UnsupportedType("lon"))
    } else if decimal_field(m, "salinity"@, SALINITY_NA@) is None {
        Some(DecodeError::UnsupportedType("salinity"))
    } else if decimal_field(m, "swellheight"@, SWELLHEIGHT_NA@) is None {
        Some(DecodeError::UnsupportedType("swellheight"))
    } else if decimal_field(m, "visgreater"@, VISGREATER_NA@) is None {
        Some(DecodeError::UnsupportedType("visgreater"))
    } else if decimal_field(m, "visibility"@, VISIBILITY_NA@) is None {
        Some(DecodeError::UnsupportedType("visibility"))
    } else if decimal_field(m, "waterlevel"@, WATERLEVEL_NA@) is None {
        Some(DecodeError::UnsupportedType("waterlevel"))
    } else if decimal_field(m, "watertemp"@, WATERTEMP_NA@) is None {
        Some(DecodeError::UnsupportedType("watertemp"))
    } else if decimal_field(m, "waveheight"@, WAVEHEIGHT_NA@) is None {
        Some(DecodeError::UnsupportedType("waveheight"))
    } else {
        None
    }
}

/// Whether every field of `w` holds what `m` gives for it.
pub open spec fn weather_decoded(w: AisType8Dac200Fid31, m: AisMessage) -> bool {
    &&& decimal_field(m, "airtemp"@, AIRTEMP_NA@) == Some(w.airtemp@)
    &&& w.cdepth2 == integer_field(m, "cdepth2"@, CDEPTH2_NA)
    &&& w.cdepth3 == integer_field(m, "cdepth3"@, CDEPTH3_NA)
    &&& w.cdir == integer_field(m, "cdir"@, CDIR_NA)
    &&& w.cdir2 == integer_field(m, "cdir2"@, CDIR2_NA)
    &&& w.cdir3 == integer_field(m, "cdir3"@, CDIR3_NA)
    &&& decimal_field(m, "cspeed"@, CSPEED_NA@) == Some(w.cspeed@)
    &&& decimal_field(m, "cspeed2"@, CSPEED2_NA@) == Some(w.cspeed2@)
    &&& decimal_field(m, "cspeed3"@, CSPEED3_NA@) == Some(w.cspeed3@)
    &&& decimal_field(m, "dewpoint"@, DEWPOINT_NA@) == Some(w.dewpoint@)
    &&& w.ice == integer_field(m, "ice"@, ICE_NA)
    &&& decimal_field(m, "lat"@, LAT_NA@) == Some(w.lat@)
    &&& w.leveltrend == integer_field(m, "leveltrend"@, LEVELTREND_NA)
    &&& decimal_field(m, "lon"@, LON_NA@) == Some(w.lon@)
    &&& w.preciptype == integer_field(m, "preciptype"@, PRECIPTYPE_NA)
    &&& w.pressure == integer_field(m, "pressure"@, PRESSURE_NA)
    &&& w.pressuretend == integer_field(m, "pressuretend"@, PRESSURETEND_NA)
    &&& decimal_field(m, "salinity"@, SALINITY_NA@) == Some(w.salinity@)
    &&& w.seastate == integer_field(m, "seastate"@, SEASTATE_NA)
    &&& decimal_field(m, "swellheight"@, SWELLHEIGHT_NA@) == Some(w.swellheight@)
    &&& w.swellperiod == integer_field(m, "swellperiod"@, SWELLPERIOD_NA)
    &&& decimal_field(m, "visgreater"@, VISGREATER_NA@) == Some(w.visgreater@)
    &&& decimal_field(m, "visibility"@, VISIBILITY_NA@) == Some(w.visibility@)
    &&& decimal_field(m, "waterlevel"@, WATERLEVEL_NA@) == Some(w.waterlevel@)
    &&& decimal_field(m, "watertemp"@, WATERTEMP_NA@) == Some(w.watertemp@)
    &&& decimal_field(m, "waveheight"@, WAVEHEIGHT_NA@) == Some(w.waveheight@)
    &&& w.waveperiod == integer_field(m, "waveperiod"@, WAVEPERIOD_NA)
    &&& w.wdir == integer_field(m, "wdir"@, WDIR_NA)
    &&& w.wgust == integer_field(m, "wgust"@, WGUST_NA)
    &&& w.wgustdir == integer_field(m, "wgustdir"@, WGUSTDIR_NA)
    &&& w.wspeed == integer_field(m, "wspeed"@, WSPEED_NA)
}

/// A coordinate as published: rounded to three places where it is decimal text.
pub open spec fn coordinate_text(s: Seq<char>) -> Seq<char> {
    if is_decimal_text(s) {
        fixed3_text(s)
    } else {
        s
    }
}

/// The query fields of the weather data, in alphabetical order of their names.
pub open spec fn weather_args(w: AisType8Dac200Fid31) -> Seq<(Seq<char>, Seq<char>)> {
    seq![
        ("airtemp"@, w.airtemp@),
        ("cdepth2"@, nat_digits(w.cdepth2 as nat)),
        ("cdepth3"@, nat_digits(w.cdepth3 as nat)),
        ("cdir"@, nat_digits(w.cdir as nat)),
        ("cdir2"@, nat_digits(w.cdir2 as nat)),
        ("cdir3"@, nat_digits(w.cdir3 as nat)),
        ("cspeed"@, w.cspeed@),
        ("cspeed2"@, w.cspeed2@),
        ("cspeed3"@, w.cspeed3@),
        ("dewpoint"@, w.dewpoint@),
        ("ice"@, nat_digits(w.ice as nat)),
        ("lat"@, coordinate_text(w.lat@)),
        ("leveltrend"@, nat_digits(w.leveltrend as nat)),
        ("lon"@, coordinate_text(w.lon@)),
        ("preciptype"@, nat_digits(w.preciptype as nat)),
        ("pressure"@, nat_digits(w.pressure as nat)),
        ("pressuretend"@, nat_digits(w.pressuretend as nat)),
        ("salinity"@, w.salinity@),
        ("seastate"@, nat_digits(w.seastate as nat)),
        ("swellheight"@, w.swellheight@),
        ("swellperiod"@, nat_digits(w.swellperiod as nat)),
        ("visgreater"@, w.visgreater@),
        ("visibility"@, w.visibility@),
        ("waterlevel"@, w.waterlevel@),
        ("watertemp"@, w.watertemp@),
        ("waveheight"@, w.waveheight@),
        ("waveperiod"@, nat_digits(w.waveperiod as nat)),
        ("wdir"@, nat_digits(w.wdir as nat)),
        ("wgust"@, nat_digits(w.wgust as nat)),
        ("wgustdir"@, nat_digits(w.wgustdir as nat)),
        ("wspeed"@, nat_digits(w.wspeed as nat)),
    ]
}

/// Loads a fractional field.
fn load_decimal(msg: &AisMessage, field: &str, default: &str) -> (r: Option<String>)
    ensures
        match r {
            Some(t) => decimal_field(*msg, field@, default@) == Some(t@),
            None => decimal_field(*msg, field@, default@) is None,
        },
{
    match msg.position(field) {
        Some(i) => msg.msg[i].1.as_number_text(),
        None => Some(String::from_str(default)),
    }
}

/// Loads an integer field. Be gracious in what is accepted: upstream may send a
/// fractional value where the field is an integer, and it is truncated.
fn load_u64(msg: &AisMessage, field: &str, default: u64) -> (r: u64)
    ensures
        r == integer_field(*msg, field@, default),
{
    match msg.position(field) {
        Some(i) => match msg.msg[i].1.as_coerced_u64() {
            Some(n) => n,
            None => default,
        },
        None => default,
    }
}

fn coordinate_to_text(s: &String) -> (r: String)
    ensures
        r@ == coordinate_text(s@),
{
    if is_decimal(s.as_str()) {
        round_to_thousandths(s.as_str())
    } else {
        s.clone()
    }
}

impl AisType8Dac200Fid31 {
    /// Decodes the weather data of a message.
    pub fn from_message(f: &AisMessage) -> (r: Result<Self, DecodeError>)
        ensures
            match r {
                Ok(w) => weather_error(*f) is None && weather_decoded(w, *f),
                Err(e) => weather_error(*f) == Some(e),
            },
    {
        let airtemp = match load_decimal(f, "airtemp", AIRTEMP_NA) {
            Some(t) => t,
            None => {
                return Err(DecodeError::UnsupportedType("airtemp"));
            },
        };
        let cspeed = match load_decimal(f, "cspeed", CSPEED_NA) {
            Some(t) => t,
            None => {
                return Err(DecodeError::UnsupportedType("cspeed"));
            },
        };
        let cspeed2 = match load_decimal(f, "cspeed2", CSPEED2_NA) {
            Some(t) => t,
            None => {
                return Err(DecodeError::UnsupportedType("cspeed2"));
            },
        };
        let cspeed3 = match load_decimal(f, "cspeed3", CSPEED3_NA) {
            Some(t) => t,
            None => {
                return Err(DecodeError::UnsupportedType("cspeed3"));
            },
        };
        let dewpoint = match load_decimal(f, "dewpoint", DEWPOINT_NA) {
            Some(t) => t,
            None => {
                return Err(DecodeError::UnsupportedType("dewpoint"));
            },
        };
        let lat = match load_decimal(f, "lat", LAT_NA) {
            Some(t) => t,
            None => {
                return Err(DecodeError::UnsupportedType("lat"));
            },
        };
        let lon = match load_decimal(f, "lon", LON_NA) {
            Some(t) => t,
            None => {
                return Err(DecodeError::UnsupportedType("lon"));
            },
        };
        let salinity = match load_decimal(f, "salinity", SALINITY_NA) {
            Some(t) => t,
            None => {
                return Err(DecodeError::UnsupportedType("salinity"));
            },
        };
        let swellheight = match load_decimal(f, "swellheight", SWELLHEIGHT_NA) {
            Some(t) => t,
            None => {
                return Err(DecodeError::UnsupportedType("swellheight"));
            },
        };
        let visgreater = match load_decimal(f, "visgreater", VISGREATER_NA) {
            Some(t) => t,
            None => {
                return Err(DecodeError::UnsupportedType("visgreater"));
            },
        };
        let visibility = match load_decimal(f, "visibility", VISIBILITY_NA) {
            Some(t) => t,
            None => {
                return Err(DecodeError::UnsupportedType("visibility"));
            },
        };
        let waterlevel = match load_decimal(f, "waterlevel", WATERLEVEL_NA) {
            Some(t) => t,
            None => {
                return Err(DecodeError::UnsupportedType("waterlevel"));
            },
        };
        let watertemp = match load_decimal(f, "watertemp", WATERTEMP_NA) {
            Some(t) => t,
            None => {
                return Err(DecodeError::UnsupportedType("watertemp"));
            },
        };
        let waveheight = match load_decimal(f, "waveheight", WAVEHEIGHT_NA) {
            Some(t) => t,
            None => {
                return Err(DecodeError::UnsupportedType("waveheight"));
            },
        };
        let cdepth2 = load_u64(f, "cdepth2", CDEPTH2_NA);
        let cdepth3 = load_u64(f, "cdepth3", CDEPTH3_NA);
        let cdir = load_u64(f, "cdir", CDIR_NA);
        let cdir2 = load_u64(f, "cdir2", CDIR2_NA);
        let cdir3 = load_u64(f, "cdir3", CDIR3_NA);
        let ice = load_u64(f, "ice", ICE_NA);
        let leveltrend = load_u64(f, "leveltrend", LEVELTREND_NA);
        let preciptype = load_u64(f, "preciptype", PRECIPTYPE_NA);
        let pressure = load_u64(f, "pressure", PRESSURE_NA);
        let pressuretend = load_u64(f, "pressuretend", PRESSURETEND_NA);
        let seastate = load_u64(f, "seastate", SEASTATE_NA);
        let swellperiod = load_u64(f, "swellperiod", SWELLPERIOD_NA);
        let waveperiod = load_u64(f, "waveperiod", WAVEPERIOD_NA);
        let wdir = load_u64(f, "wdir", WDIR_NA);
        let wgust = load_u64(f, "wgust", WGUST_NA);
        let wgustdir = load_u64(f, "wgustdir", WGUSTDIR_NA);
        let wspeed = load_u64(f, "wspeed", WSPEED_NA);
        Ok(AisType8Dac200Fid31 {
            airtemp,
            cdepth2,
            cdepth3,
            cdir,
            cdir2,
            cdir3,
            cspeed,
            cspeed2,
            cspeed3,
            dewpoint,
            ice,
            lat,
            leveltrend,
            lon,
            preciptype,
            pressure,
            pressuretend,
            salinity,
            seastate,
            swellheight,
            swellperiod,
            visgreater,
            visibility,
            waterlevel,
            watertemp,
            waveheight,
            waveperiod,
            wdir,
            wgust,
            wgustdir,
            wspeed,
        })
    }

    /// The query fields of the weather data, in alphabetical order of their names;
    /// coordinates are written with three places after the point.
    pub fn as_query_arguments(&self) -> (r: Vec<(&str, String)>)
        ensures
            r.deep_view() == weather_args(*self),
    {
        let mut r: Vec<(&str, String)> = Vec::new();
        r.push(("airtemp", self.airtemp.clone()));
        r.push(("cdepth2", u64_to_text(self.cdepth2)));
        r.push(("cdepth3", u64_to_text(self.cdepth3)));
        r.push(("cdir", u64_to_text(self.cdir)));
        r.push(("cdir2", u64_to_text(self.cdir2)));
        r.push(("cdir3", u64_to_text(self.cdir3)));
        r.push(("cspeed", self.cspeed.clone()));
        r.push(("cspeed2", self.cspeed2.clone()));
        r.push(("cspeed3", self.cspeed3.clone()));
        r.push(("dewpoint", self.dewpoint.clone()));
        r.push(("ice", u64_to_text(self.ice)));
        r.push(("lat", coordinate_to_text(&self.lat)));
        r.push(("leveltrend", u64_to_text(self.leveltrend)));
        r.push(("lon", coordinate_to_text(&self.lon)));
        r.push(("preciptype", u64_to_text(self.preciptype)));
        r.push(("pressure", u64_to_text(self.pressure)));
        r.push(("pressuretend", u64_to_text(self.pressuretend)));
        r.push(("salinity", self.salinity.clone()));
        r.push(("seastate", u64_to_text(self.seastate)));
        r.push(("swellheight", self.swellheight.clone()));
        r.push(("swellperiod", u64_to_text(self.swellperiod)));
        r.push(("visgreater", self.visgreater.clone()));
        r.push(("visibility", self.visibility.clone()));
        r.push(("waterlevel", self.waterlevel.clone()));
        r.push(("watertemp", self.watertemp.clone()));
        r.push(("waveheight", self.waveheight.clone()));
        r.push(("waveperiod", u64_to_text(self.waveperiod)));
        r.push(("wdir", u64_to_text(self.wdir)));
        r.push(("wgust", u64_to_text(self.wgust)));
        r.push(("wgustdir", u64_to_text(self.wgustdir)));
        r.push(("wspeed", u64_to_text(self.wspeed)));
        assert(r.deep_view() =~= weather_args(*self));
        r
    }
}

/// A field that a message lacks holds its "not available" value.
pub proof fn lemma_absent_field_is_default(m: AisMessage, w: AisType8Dac200Fid31)
    requires
        weather_decoded(w, m),
    ensures
        m.field("airtemp"@) is None ==> w.airtemp@ == AIRTEMP_NA@,
        m.field("cdepth2"@) is None ==> w.cdepth2 == CDEPTH2_NA,
        m.field("cdepth3"@) is None ==> w.cdepth3 == CDEPTH3_NA,
        m.field("cdir"@) is None ==> w.cdir == CDIR_NA,
        m.field("cdir2"@) is None ==> w.cdir2 == CDIR2_NA,
        m.field("cdir3"@) is None ==> w.cdir3 == CDIR3_NA,
        m.field("cspeed"@) is None ==> w.cspeed@ == CSPEED_NA@,
        m.field("cspeed2"@) is None ==> w.cspeed2@ == CSPEED2_NA@,
        m.field("cspeed3"@) is None ==> w.cspeed3@ == CSPEED3_NA@,
        m.field("dewpoint"@) is None ==> w.dewpoint@ == DEWPOINT_NA@,
        m.field("ice"@) is None ==> w.ice == ICE_NA,
        m.field("lat"@) is None ==> w.lat@ == LAT_NA@,
        m.field("leveltrend"@) is None ==> w.leveltrend == LEVELTREND_NA,
        m.field("lon"@) is None ==> w.lon@ == LON_NA@,
        m.field("preciptype"@) is None ==> w.preciptype == PRECIPTYPE_NA,
        m.field("pressure"@) is None ==> w.pressure == PRESSURE_NA,
        m.field("pressuretend"@) is None ==> w.pressuretend == PRESSURETEND_NA,
        m.field("salinity"@) is None ==> w.salinity@ == SALINITY_NA@,
        m.field("seastate"@) is None ==> w.seastate == SEASTATE_NA,
        m.field("swellheight"@) is None ==> w.swellheight@ == SWELLHEIGHT_NA@,
        m.field("swellperiod"@) is None ==> w.swellperiod == SWELLPERIOD_NA,
        m.field("visgreater"@) is None ==> w.visgreater@ == VISGREATER_NA@,
        m.field("visibility"@) is None ==> w.visibility@ == VISIBILITY_NA@,
        m.field("waterlevel"@) is None ==> w.waterlevel@ == WATERLEVEL_NA@,
        m.field("watertemp"@) is None ==> w.watertemp@ == WATERTEMP_NA@,
        m.field("waveheight"@) is None ==> w.waveheight@ == WAVEHEIGHT_NA@,
        m.field("waveperiod"@) is None ==> w.waveperiod == WAVEPERIOD_NA,
        m.field("wdir"@) is None ==> w.wdir == WDIR_NA,
        m.field("wgust"@) is None ==> w.wgust == WGUST_NA,
        m.field("wgustdir"@) is None ==> w.wgustdir == WGUSTDIR_NA,
        m.field("wspeed"@) is None ==> w.wspeed == WSPEED_NA,
{
}

} // verus!
