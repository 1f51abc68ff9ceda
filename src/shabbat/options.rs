//! The request's parameters, the location-method policy, and the query
//! parameters that a parameter set puts on the wire.

use crate::text::{decimal, padded_digits, push_decimal, push_padded, signed_decimal, signed_text, unsigned_text};
use vstd::prelude::*;
use vstd::string::StringExecFns;

verus! {

/// How the service is told to find the location.
#[derive(Clone, Copy, Debug, PartialEq, Eq, Structural)]
#[non_exhaustive]
pub enum Geo {
    Geoname,
    Zip,
    City,
    Pos,
}

/// Whether Torah and Haftarah readings are included for a regular Shabbat.
#[derive(Clone, Copy, Debug, PartialEq, Eq, Structural)]
#[non_exhaustive]
pub enum Leyning {
    On,
    Off,
}

/// Which transliteration convention the service uses in its text.
#[derive(Clone, Copy, Debug, PartialEq, Eq, Structural)]
pub enum Transliteration {
    Ashkenazic,
    Sephardic,
}

/// A latitude or longitude in millionths of a degree (31.76904 is 31769040).
#[derive(Clone, Copy, Debug, PartialEq, Eq, Structural)]
pub struct Coordinate {
    pub micro_degrees: i32,
}

/// The location fields; each one belongs to exactly one location method.
#[derive(Clone, Copy, Debug, PartialEq, Eq, Structural)]
pub enum LocationField {
    GeonameId,
    Zip,
    City,
    Latitude,
    Longitude,
    Tzid,
}

/// The query parameters the service knows, in the order they are sent.
#[derive(Clone, Copy, Debug, PartialEq, Eq, Structural)]
pub enum ParamKey {
    Cfg,
    Havdalah,
    MinutesBeforeSunset,
    Transliteration,
    Leyning,
    Geo,
    GeonameId,
    Zip,
    City,
    Latitude,
    Longitude,
    Tzid,
    GregorianYear,
    GregorianMonth,
    GregorianDay,
}

/// Every optional parameter of a Shabbat times request; `None` is "never set".
#[derive(Debug)]
pub struct ShabbatOptions {
    pub havdalah: Option<u16>,
    pub minutes_before_sunset: Option<u16>,
    pub transliteration: Option<Transliteration>,
    pub leyning: Option<Leyning>,
    pub geo: Option<Geo>,
    pub geoname_id: Option<u32>,
    pub zip: Option<String>,
    pub city: Option<String>,
    pub latitude: Option<Coordinate>,
    pub longitude: Option<Coordinate>,
    pub tzid: Option<String>,
    pub gregorian_year: Option<i32>,
    pub gregorian_month: Option<u32>,
    pub gregorian_day: Option<u32>,
}

/// The location method that assigning `field` selects: the coordinate
/// fields (latitude, longitude, time zone) all select `Pos`.
pub open spec fn method_for(field: LocationField) -> Geo {
    match field {
        LocationField::GeonameId => Geo::Geoname,
        LocationField::Zip => Geo::Zip,
        LocationField::City => Geo::City,
        LocationField::Latitude => Geo::Pos,
        LocationField::Longitude => Geo::Pos,
        LocationField::Tzid => Geo::Pos,
    }
}

/// The location method selected by assigning `field`, whatever was selected before.
pub fn select_method(field: LocationField) -> (r: Geo)
    ensures
        r == method_for(field),
{
    match field {
        LocationField::GeonameId => Geo::Geoname,
        LocationField::Zip => Geo::Zip,
        LocationField::City => Geo::City,
        LocationField::Latitude => Geo::Pos,
        LocationField::Longitude => Geo::Pos,
        LocationField::Tzid => Geo::Pos,
    }
}

/// The wire parameter that carries a location field.
pub open spec fn location_key(field: LocationField) -> ParamKey {
    match field {
        LocationField::GeonameId => ParamKey::GeonameId,
        LocationField::Zip => ParamKey::Zip,
        LocationField::City => ParamKey::City,
        LocationField::Latitude => ParamKey::Latitude,
        LocationField::Longitude => ParamKey::Longitude,
        LocationField::Tzid => ParamKey::Tzid,
    }
}

/// `after` is `before` with `field` assigned a value and the location
/// method switched to the one `field` belongs to; nothing else changed.
pub open spec fn location_assigned(
    before: ShabbatOptions,
    field: LocationField,
    after: ShabbatOptions,
) -> bool {
    &&& after.geo == Some(method_for(field))
    &&& match field {
        LocationField::GeonameId => after.geoname_id is Some && after == (ShabbatOptions {
            geoname_id: after.geoname_id,
            geo: after.geo,
            ..before
        }),
        LocationField::Zip => after.zip is Some && after == (ShabbatOptions {
            zip: after.zip,
            geo: after.geo,
            ..before
        }),
        LocationField::City => after.city is Some && after == (ShabbatOptions {
            city: after.city,
            geo: after.geo,
            ..before
        }),
        LocationField::Latitude => after.latitude is Some && after == (ShabbatOptions {
            latitude: after.latitude,
            geo: after.geo,
            ..before
        }),
        LocationField::Longitude => after.longitude is Some && after == (ShabbatOptions {
            longitude: after.longitude,
            geo: after.geo,
            ..before
        }),
        LocationField::Tzid => after.tzid is Some && after == (ShabbatOptions {
            tzid: after.tzid,
            geo: after.geo,
            ..before
        }),
    }
}

/// The text of an optional string, `None` kept as `None`.
pub open spec fn opt_view(s: Option<String>) -> Option<Seq<char>> {
    match s {
        Some(t) => Some(t@),
        None => None,
    }
}

/// The parameter's name in the query string.
pub open spec fn key_name(k: ParamKey) -> Seq<char> {
    match k {
        ParamKey::Cfg => "cfg"@,
        ParamKey::Havdalah => "m"@,
        ParamKey::MinutesBeforeSunset => "b"@,
        ParamKey::Transliteration => "a"@,
        ParamKey::Leyning => "leyning"@,
        ParamKey::Geo => "geo"@,
        ParamKey::GeonameId => "geonameid"@,
        ParamKey::Zip => "zip"@,
        ParamKey::City => "city"@,
        ParamKey::Latitude => "latitude"@,
        ParamKey::Longitude => "longitude"@,
        ParamKey::Tzid => "tzid"@,
        ParamKey::GregorianYear => "gy"@,
        ParamKey::GregorianMonth => "gm"@,
        ParamKey::GregorianDay => "gd"@,
    }
}

pub open spec fn geo_text(g: Geo) -> Seq<char> {
    match g {
        Geo::Geoname => "geoname"@,
        Geo::Zip => "zip"@,
        Geo::City => "city"@,
        Geo::Pos => "pos"@,
    }
}

pub open spec fn leyning_text(l: Leyning) -> Seq<char> {
    match l {
        Leyning::On => "on"@,
        Leyning::Off => "off"@,
    }
}

/// Ashkenazic transliteration is asked for with `on`, Sephardic with `off`.
pub open spec fn transliteration_text(t: Transliteration) -> Seq<char> {
    match t {
        Transliteration::Ashkenazic => "on"@,
        Transliteration::Sephardic => "off"@,
    }
}

/// Degrees in decimal notation with six fractional digits (`-23.547500`).
pub open spec fn coordinate_text(c: Coordinate) -> Seq<char> {
    let m = c.micro_degrees as int;
    let magnitude = if m < 0 { -m } else { m };
    let sign = if m < 0 { seq!['-'] } else { seq![] };
    sign + decimal((magnitude / 1_000_000) as nat) + seq!['.'] + padded_digits(
        (magnitude % 1_000_000) as nat,
        6,
    )
}

/// Whether the field that `k` carries has been set (the format flag always is).
pub open spec fn is_set(o: ShabbatOptions, k: ParamKey) -> bool {
    match k {
        ParamKey::Cfg => true,
        ParamKey::Havdalah => o.havdalah is Some,
        ParamKey::MinutesBeforeSunset => o.minutes_before_sunset is Some,
        ParamKey::Transliteration => o.transliteration is Some,
        ParamKey::Leyning => o.leyning is Some,
        ParamKey::Geo => o.geo is Some,
        ParamKey::GeonameId => o.geoname_id is Some,
        ParamKey::Zip => o.zip is Some,
        ParamKey::City => o.city is Some,
        ParamKey::Latitude => o.latitude is Some,
        ParamKey::Longitude => o.longitude is Some,
        ParamKey::Tzid => o.tzid is Some,
        ParamKey::GregorianYear => o.gregorian_year is Some,
        ParamKey::GregorianMonth => o.gregorian_month is Some,
        ParamKey::GregorianDay => o.gregorian_day is Some,
    }
}

/// The wire value of the parameter `k`, or `None` where its field is unset.
/// The format flag is always `json`.
pub open spec fn field_text(o: ShabbatOptions, k: ParamKey) -> Option<Seq<char>> {
    match k {
        ParamKey::Cfg => Some("json"@),
        ParamKey::Havdalah => match o.havdalah {
            Some(n) => Some(decimal(n as nat)),
            None => None,
        },
        ParamKey::MinutesBeforeSunset => match o.minutes_before_sunset {
            Some(n) => Some(decimal(n as nat)),
            None => None,
        },
        ParamKey::Transliteration => match o.transliteration {
            Some(t) => Some(transliteration_text(t)),
            None => None,
        },
        ParamKey::Leyning => match o.leyning {
            Some(l) => Some(leyning_text(l)),
            None => None,
        },
        ParamKey::Geo => match o.geo {
            Some(g) => Some(geo_text(g)),
            None => None,
        },
        ParamKey::GeonameId => match o.geoname_id {
            Some(n) => Some(decimal(n as nat)),
            None => None,
        },
        ParamKey::Zip => opt_view(o.zip),
        ParamKey::City => opt_view(o.city),
        ParamKey::Latitude => match o.latitude {
            Some(c) => Some(coordinate_text(c)),
            None => None,
        },
        ParamKey::Longitude => match o.longitude {
            Some(c) => Some(coordinate_text(c)),
            None => None,
        },
        ParamKey::Tzid => opt_view(o.tzid),
        ParamKey::GregorianYear => match o.gregorian_year {
            Some(y) => Some(signed_decimal(y as int)),
            None => None,
        },
        ParamKey::GregorianMonth => match o.gregorian_month {
            Some(n) => Some(decimal(n as nat)),
            None => None,
        },
        ParamKey::GregorianDay => match o.gregorian_day {
            Some(n) => Some(decimal(n as nat)),
            None => None,
        },
    }
}

/// The order in which parameters go on the wire.
pub open spec fn wire_order() -> Seq<ParamKey> {
    seq![
        ParamKey::Cfg,
        ParamKey::Havdalah,
        ParamKey::MinutesBeforeSunset,
        ParamKey::Transliteration,
        ParamKey::Leyning,
        ParamKey::Geo,
        ParamKey::GeonameId,
        ParamKey::Zip,
        ParamKey::City,
        ParamKey::Latitude,
        ParamKey::Longitude,
        ParamKey::Tzid,
        ParamKey::GregorianYear,
        ParamKey::GregorianMonth,
        ParamKey::GregorianDay,
    ]
}

/// The pair for `k`, or nothing where it has no value.
pub open spec fn entry(k: ParamKey, v: Option<Seq<char>>) -> Seq<(ParamKey, Seq<char>)> {
    match v {
        Some(t) => seq![(k, t)],
        None => seq![],
    }
}

/// The pairs for `keys`, in their order, skipping those without a value.
pub open spec fn params_for(o: ShabbatOptions, keys: Seq<ParamKey>) -> Seq<(ParamKey, Seq<char>)>
    decreases keys.len(),
{
    if keys.len() == 0 {
        seq![]
    } else {
        params_for(o, keys.drop_last()) + entry(keys.last(), field_text(o, keys.last()))
    }
}

/// The query string of a request, as (parameter, value) pairs.
pub open spec fn query_of(o: ShabbatOptions) -> Seq<(ParamKey, Seq<char>)> {
    params_for(o, wire_order())
}

/// The text view of exec pairs.
pub open spec fn pairs_view(v: Seq<(ParamKey, String)>) -> Seq<(ParamKey, Seq<char>)> {
    v.map_values(|p: (ParamKey, String)| (p.0, p.1@))
}

proof fn lemma_params_for_contains(o: ShabbatOptions, keys: Seq<ParamKey>, k: ParamKey, t: Seq<char>)
    ensures
        params_for(o, keys).contains((k, t)) <==> (keys.contains(k) && field_text(o, k) == Some(t)),
    decreases keys.len(),
{
    if keys.len() > 0 {
        let rest = keys.drop_last();
        lemma_params_for_contains(o, rest, k, t);
        let e = entry(keys.last(), field_text(o, keys.last()));
        let whole = params_for(o, keys);
        assert(whole == params_for(o, rest) + e);
        if whole.contains((k, t)) {
            let i = choose|i: int| 0 <= i < whole.len() && whole[i] == (k, t);
            if i < params_for(o, rest).len() {
                assert(params_for(o, rest)[i] == (k, t));
                assert(params_for(o, rest).contains((k, t)));
                let j = choose|j: int| 0 <= j < rest.len() && rest[j] == k;
                assert(keys[j] == k);
            } else {
                assert(e[i - params_for(o, rest).len()] == (k, t));
                assert(keys[keys.len() - 1] == k);
            }
        }
        if keys.contains(k) && field_text(o, k) == Some(t) {
            let j = choose|j: int| 0 <= j < keys.len() && keys[j] == k;
            if j < keys.len() - 1 {
                assert(rest[j] == k);
                let i = choose|i: int|
                    0 <= i < params_for(o, rest).len() && params_for(o, rest)[i] == (k, t);
                assert(whole[i] == (k, t));
            } else {
                assert(whole[whole.len() - 1] == (k, t));
            }
        }
    }
}

proof fn lemma_params_for_unset(o: ShabbatOptions, keys: Seq<ParamKey>)
    requires
        keys.len() >= 1,
        keys[0] == ParamKey::Cfg,
        forall|i: int| 1 <= i < keys.len() ==> !is_set(o, #[trigger] keys[i]),
    ensures
        params_for(o, keys) == seq![(ParamKey::Cfg, "json"@)],
    decreases keys.len(),
{
    if keys.len() == 1 {
        assert(keys.drop_last().len() == 0);
        assert(params_for(o, keys.drop_last()) == Seq::<(ParamKey, Seq<char>)>::empty());
        assert(keys.last() == ParamKey::Cfg);
        assert(params_for(o, keys) =~= seq![(ParamKey::Cfg, "json"@)]);
    } else {
        let rest = keys.drop_last();
        assert(rest[0] == ParamKey::Cfg);
        assert forall|i: int| 1 <= i < rest.len() implies !is_set(o, #[trigger] rest[i]) by {
            assert(rest[i] == keys[i]);
        }
        lemma_params_for_unset(o, rest);
        assert(!is_set(o, keys[keys.len() - 1]));
        assert(field_text(o, keys.last()) is None);
        assert(params_for(o, keys) =~= seq![(ParamKey::Cfg, "json"@)]);
    }
}

/// With no field set, the query is the format flag alone.
pub proof fn lemma_empty_query(o: ShabbatOptions)
    requires
        forall|k: ParamKey| k != ParamKey::Cfg ==> !is_set(o, k),
    ensures
        query_of(o) == seq![(ParamKey::Cfg, "json"@)],
{
    let w = wire_order();
    assert forall|i: int| 1 <= i < w.len() implies !is_set(o, #[trigger] w[i]) by {
        assert(w[i] != ParamKey::Cfg);
    }
    lemma_params_for_unset(o, w);
}

proof fn lemma_wire_order_complete(k: ParamKey)
    ensures
        wire_order().contains(k),
{
    let w = wire_order();
    match k {
        ParamKey::Cfg => assert(w[0] == k),
        ParamKey::Havdalah => assert(w[1] == k),
        ParamKey::MinutesBeforeSunset => assert(w[2] == k),
        ParamKey::Transliteration => assert(w[3] == k),
        ParamKey::Leyning => assert(w[4] == k),
        ParamKey::Geo => assert(w[5] == k),
        ParamKey::GeonameId => assert(w[6] == k),
        ParamKey::Zip => assert(w[7] == k),
        ParamKey::City => assert(w[8] == k),
        ParamKey::Latitude => assert(w[9] == k),
        ParamKey::Longitude => assert(w[10] == k),
        ParamKey::Tzid => assert(w[11] == k),
        ParamKey::GregorianYear => assert(w[12] == k),
        ParamKey::GregorianMonth => assert(w[13] == k),
        ParamKey::GregorianDay => assert(w[14] == k),
    }
}

/// A parameter is on the wire exactly when its field has been set, and then
/// with the field's wire value; a field set to zero is sent as `0`.
pub proof fn lemma_only_set_fields_sent(o: ShabbatOptions, k: ParamKey, t: Seq<char>)
    ensures
        query_of(o).contains((k, t)) <==> field_text(o, k) == Some(t),
        (exists|v: Seq<char>| query_of(o).contains((k, v))) <==> is_set(o, k),
        o.havdalah == Some(0u16) ==> query_of(o).contains((ParamKey::Havdalah, seq!['0'])),
        o.minutes_before_sunset == Some(0u16) ==> query_of(o).contains(
            (ParamKey::MinutesBeforeSunset, seq!['0']),
        ),
        o.geoname_id == Some(0u32) ==> query_of(o).contains((ParamKey::GeonameId, seq!['0'])),
        o.gregorian_year == Some(0i32) ==> query_of(o).contains(
            (ParamKey::GregorianYear, seq!['0']),
        ),
        o.gregorian_month == Some(0u32) ==> query_of(o).contains(
            (ParamKey::GregorianMonth, seq!['0']),
        ),
        o.gregorian_day == Some(0u32) ==> query_of(o).contains((ParamKey::GregorianDay, seq!['0'])),
{
    lemma_wire_order_complete(k);
    lemma_params_for_contains(o, wire_order(), k, t);
    assert(decimal(0) == seq!['0']);
    if is_set(o, k) {
        let v = field_text(o, k).unwrap();
        lemma_params_for_contains(o, wire_order(), k, v);
    }
    if exists|v: Seq<char>| query_of(o).contains((k, v)) {
        let v = choose|v: Seq<char>| query_of(o).contains((k, v));
        lemma_params_for_contains(o, wire_order(), k, v);
    }
    let zero_keys = seq![
        ParamKey::Havdalah,
        ParamKey::MinutesBeforeSunset,
        ParamKey::GeonameId,
        ParamKey::GregorianYear,
        ParamKey::GregorianMonth,
        ParamKey::GregorianDay,
    ];
    assert forall|i: int|
        0 <= i < zero_keys.len() && field_text(o, zero_keys[i]) == Some(
            seq!['0'],
        ) implies query_of(o).contains((zero_keys[i], seq!['0'])) by {
        lemma_wire_order_complete(zero_keys[i]);
        lemma_params_for_contains(o, wire_order(), zero_keys[i], seq!['0']);
    }
    assert(zero_keys[0] == ParamKey::Havdalah);
    assert(zero_keys[1] == ParamKey::MinutesBeforeSunset);
    assert(zero_keys[2] == ParamKey::GeonameId);
    assert(zero_keys[3] == ParamKey::GregorianYear);
    assert(zero_keys[4] == ParamKey::GregorianMonth);
    assert(zero_keys[5] == ParamKey::GregorianDay);
}

/// The most recently assigned location field decides the location method on
/// the wire, and assigning it leaves the other location fields as they were:
/// after latitude, longitude or a time zone the method is `pos`, even where a
/// zip code, city or geoname id set earlier is still held.
pub proof fn lemma_last_location_wins(
    before: ShabbatOptions,
    field: LocationField,
    after: ShabbatOptions,
    other: LocationField,
    t: Seq<char>,
)
    requires
        location_assigned(before, field, after),
    ensures
        query_of(after).contains((ParamKey::Geo, t)) <==> t == geo_text(method_for(field)),
        (field is Latitude || field is Longitude || field is Tzid) ==> query_of(after).contains(
            (ParamKey::Geo, "pos"@),
        ),
        other != field ==> field_text(after, location_key(other)) == field_text(
            before,
            location_key(other),
        ),
{
    lemma_wire_order_complete(ParamKey::Geo);
    lemma_params_for_contains(after, wire_order(), ParamKey::Geo, t);
    lemma_params_for_contains(after, wire_order(), ParamKey::Geo, "pos"@);
}

impl ParamKey {
    /// The parameter's name in the query string.
    pub fn name(&self) -> (r: &'static str)
        ensures
            r@ == key_name(*self),
    {
        match self {
            ParamKey::Cfg => "cfg",
            ParamKey::Havdalah => "m",
            ParamKey::MinutesBeforeSunset => "b",
            ParamKey::Transliteration => "a",
            ParamKey::Leyning => "leyning",
            ParamKey::Geo => "geo",
            ParamKey::GeonameId => "geonameid",
            ParamKey::Zip => "zip",
            ParamKey::City => "city",
            ParamKey::Latitude => "latitude",
            ParamKey::Longitude => "longitude",
            ParamKey::Tzid => "tzid",
            ParamKey::GregorianYear => "gy",
            ParamKey::GregorianMonth => "gm",
            ParamKey::GregorianDay => "gd",
        }
    }
}

impl Coordinate {
    /// The coordinate in decimal degrees, six fractional digits.
    pub fn to_text(&self) -> (r: String)
        ensures
            r@ == coordinate_text(*self),
    {
        let mut out = String::new();
        let magnitude: u64 = if self.micro_degrees < 0 {
            out.append("-");
            proof {
                reveal_strlit("-");
            }
            (-(self.micro_degrees as i64)) as u64
        } else {
            self.micro_degrees as u64
        };
        push_decimal(&mut out, magnitude / 1_000_000);
        out.append(".");
        proof {
            reveal_strlit(".");
        }
        push_padded(&mut out, magnitude % 1_000_000, 6);
        assert(out@ =~= coordinate_text(*self));
        out
    }
}

fn literal(s: &str) -> (r: String)
    ensures
        r@ == s@,
{
    String::from_str(s)
}

fn clone_text(s: &Option<String>) -> (r: Option<String>)
    ensures
        opt_view(r) == opt_view(*s),
{
    match s {
        Some(t) => Some(t.clone()),
        None => None,
    }
}

impl Default for ShabbatOptions {
    fn default() -> (r: ShabbatOptions)
        ensures
            forall|k: ParamKey| k != ParamKey::Cfg ==> !is_set(r, k),
    {
        ShabbatOptions {
            havdalah: None,
            minutes_before_sunset: None,
            transliteration: None,
            leyning: None,
            geo: None,
            geoname_id: None,
            zip: None,
            city: None,
            latitude: None,
            longitude: None,
            tzid: None,
            gregorian_year: None,
            gregorian_month: None,
            gregorian_day: None,
        }
    }
}

impl ShabbatOptions {
    /// The wire value of parameter `key`, `None` where its field is unset.
    pub fn wire_value(&self, key: ParamKey) -> (r: Option<String>)
        ensures
            opt_view(r) == field_text(*self, key),
    {
        match key {
            ParamKey::Cfg => Some(literal("json")),
            ParamKey::Havdalah => match self.havdalah {
                Some(n) => Some(unsigned_text(n as u64)),
                None => None,
            },
            ParamKey::MinutesBeforeSunset => match self.minutes_before_sunset {
                Some(n) => Some(unsigned_text(n as u64)),
                None => None,
            },
            ParamKey::Transliteration => match self.transliteration {
                Some(Transliteration::Ashkenazic) => Some(literal("on")),
                Some(Transliteration::Sephardic) => Some(literal("off")),
                None => None,
            },
            ParamKey::Leyning => match self.leyning {
                Some(Leyning::On) => Some(literal("on")),
                Some(Leyning::Off) => Some(literal("off")),
                None => None,
            },
            ParamKey::Geo => match self.geo {
                Some(Geo::Geoname) => Some(literal("geoname")),
                Some(Geo::Zip) => Some(literal("zip")),
                Some(Geo::City) => Some(literal("city")),
                Some(Geo::Pos) => Some(literal("pos")),
                None => None,
            },
            ParamKey::GeonameId => match self.geoname_id {
                Some(n) => Some(unsigned_text(n as u64)),
                None => None,
            },
            ParamKey::Zip => clone_text(&self.zip),
            ParamKey::City => clone_text(&self.city),
            ParamKey::Latitude => match self.latitude {
                Some(c) => Some(c.to_text()),
                None => None,
            },
            ParamKey::Longitude => match self.longitude {
                Some(c) => Some(c.to_text()),
                None => None,
            },
            ParamKey::Tzid => clone_text(&self.tzid),
            ParamKey::GregorianYear => match self.gregorian_year {
                Some(y) => Some(signed_text(y as i64)),
                None => None,
            },
            ParamKey::GregorianMonth => match self.gregorian_month {
                Some(n) => Some(unsigned_text(n as u64)),
                None => None,
            },
            ParamKey::GregorianDay => match self.gregorian_day {
                Some(n) => Some(unsigned_text(n as u64)),
                None => None,
            },
        }
    }

    /// Whether the location method is coordinates while latitude or longitude
    /// is still unset: a request the service will refuse. It is sent as it
    /// is all the same; this lets a caller catch the mistake first.
    pub fn coordinates_incomplete(&self) -> (r: bool)
        ensures
            r == (self.geo == Some(Geo::Pos) && (self.latitude is None || self.longitude is None)),
    {
        match self.geo {
            Some(Geo::Pos) => self.latitude.is_none() || self.longitude.is_none(),
            _ => false,
        }
    }

    /// The query parameters of this request: the format flag `cfg=json`,
    /// then every set field under its wire name, in wire order.
    pub fn query(&self) -> (r: Vec<(ParamKey, String)>)
        ensures
            pairs_view(r@) == query_of(*self),
    {
        let keys: Vec<ParamKey> = vec![
            ParamKey::Cfg,
            ParamKey::Havdalah,
            ParamKey::MinutesBeforeSunset,
            ParamKey::Transliteration,
            ParamKey::Leyning,
            ParamKey::Geo,
            ParamKey::GeonameId,
            ParamKey::Zip,
            ParamKey::City,
            ParamKey::Latitude,
            ParamKey::Longitude,
            ParamKey::Tzid,
            ParamKey::GregorianYear,
            ParamKey::GregorianMonth,
            ParamKey::GregorianDay,
        ];
        assert(keys@ =~= wire_order());
        let mut out: Vec<(ParamKey, String)> = Vec::new();
        let mut i: usize = 0;
        while i < keys.len()
            invariant
                keys@ == wire_order(),
                i <= keys.len(),
                pairs_view(out@) == params_for(*self, keys@.take(i as int)),
            decreases keys.len() - i,
        {
            let k = keys[i];
            let v = self.wire_value(k);
            proof {
                assert(keys@.take(i + 1).drop_last() =~= keys@.take(i as int));
                assert(keys@.take(i + 1).last() == k);
            }
            match v {
                Some(t) => {
                    out.push((k, t));
                },
                None => {},
            }
            assert(pairs_view(out@) =~= params_for(*self, keys@.take(i + 1)));
            i += 1;
        }
        assert(keys@.take(keys.len() as int) =~= keys@);
        out
    }
}

} // verus!
