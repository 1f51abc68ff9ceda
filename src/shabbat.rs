//! The Shabbat times request: its option builder, query and reply.

pub mod options;
pub mod response;

pub use self::options::{Coordinate, Geo, Leyning, LocationField, ParamKey, ShabbatOptions, Transliteration};
pub use self::response::{DateTime, Item, Location, Shabbat};

use self::options::{location_assigned, method_for, opt_view, pairs_view, query_of, select_method};
use vstd::prelude::*;
use vstd::string::StringExecFns;

verus! {

/// Builder for one Shabbat times request. Each setter records one field;
/// a location field also switches the location method to its own.
#[derive(Debug)]
pub struct ShabbatHandler {
    pub options: ShabbatOptions,
}

impl ShabbatHandler {
    /// A request with no field set.
    pub fn new() -> (r: Self)
        ensures
            query_of(r.options) == seq![(ParamKey::Cfg, "json"@)],
            forall|k: ParamKey| k != ParamKey::Cfg ==> !options::is_set(r.options, k),
    {
        let r = ShabbatHandler { options: ShabbatOptions::default() };
        proof {
            options::lemma_empty_query(r.options);
        }
        r
    }

    /// Set the havdalah time in minutes past sundown.
    pub fn havdalah(self, havdalah: u16) -> (r: Self)
        ensures
            r.options == (ShabbatOptions { havdalah: Some(havdalah), ..self.options }),
    {
        let mut s = self;
        s.options.havdalah = Some(havdalah);
        s
    }

    /// Candle lighting time in minutes before sunset.
    pub fn minutes_before_sunset(self, minutes_before_sunset: u16) -> (r: Self)
        ensures
            r.options == (ShabbatOptions {
                minutes_before_sunset: Some(minutes_before_sunset),
                ..self.options
            }),
    {
        let mut s = self;
        s.options.minutes_before_sunset = Some(minutes_before_sunset);
        s
    }

    /// Use Sephardic or Ashkenazic transliterations.
    pub fn transliteration(self, transliteration: Transliteration) -> (r: Self)
        ensures
            r.options == (ShabbatOptions { transliteration: Some(transliteration), ..self.options }),
    {
        let mut s = self;
        s.options.transliteration = Some(transliteration);
        s
    }

    /// Include Torah and Haftarah readings for a regular Shabbat.
    pub fn leyning(self, leyning: Leyning) -> (r: Self)
        ensures
            r.options == (ShabbatOptions { leyning: Some(leyning), ..self.options }),
    {
        let mut s = self;
        s.options.leyning = Some(leyning);
        s
    }

    /// Set the location method directly. The location setters below set it
    /// too, so this is rarely needed.
    pub fn geo(self, geo: Geo) -> (r: Self)
        ensures
            r.options == (ShabbatOptions { geo: Some(geo), ..self.options }),
    {
        let mut s = self;
        s.options.geo = Some(geo);
        s
    }

    /// The GeoNames identifier of the location.
    pub fn geoname_id(self, geoname_id: u32) -> (r: Self)
        ensures
            location_assigned(self.options, LocationField::GeonameId, r.options),
            r.options.geoname_id == Some(geoname_id),
    {
        let mut s = self;
        s.options.geoname_id = Some(geoname_id);
        s.options.geo = Some(select_method(LocationField::GeonameId));
        s
    }

    /// The 5 digit US zip code of the location.
    pub fn zip(self, zip: &str) -> (r: Self)
        ensures
            location_assigned(self.options, LocationField::Zip, r.options),
            opt_view(r.options.zip) == Some(zip@),
    {
        let mut s = self;
        s.options.zip = Some(String::from_str(zip));
        s.options.geo = Some(select_method(LocationField::Zip));
        s
    }

    /// A legacy city identifier, such as GB-London.
    pub fn city(self, city: &str) -> (r: Self)
        ensures
            location_assigned(self.options, LocationField::City, r.options),
            opt_view(r.options.city) == Some(city@),
    {
        let mut s = self;
        s.options.city = Some(String::from_str(city));
        s.options.geo = Some(select_method(LocationField::City));
        s
    }

    /// The latitude of the location.
    pub fn latitude(self, latitude: Coordinate) -> (r: Self)
        ensures
            location_assigned(self.options, LocationField::Latitude, r.options),
            r.options.latitude == Some(latitude),
    {
        let mut s = self;
        s.options.latitude = Some(latitude);
        s.options.geo = Some(select_method(LocationField::Latitude));
        s
    }

    /// The longitude of the location.
    pub fn longitude(self, longitude: Coordinate) -> (r: Self)
        ensures
            location_assigned(self.options, LocationField::Longitude, r.options),
            r.options.longitude == Some(longitude),
    {
        let mut s = self;
        s.options.longitude = Some(longitude);
        s.options.geo = Some(select_method(LocationField::Longitude));
        s
    }

    /// A time zone identifier, such as America/Los_Angeles.
    pub fn tzid(self, tzid: &str) -> (r: Self)
        ensures
            location_assigned(self.options, LocationField::Tzid, r.options),
            opt_view(r.options.tzid) == Some(tzid@),
    {
        let mut s = self;
        s.options.tzid = Some(String::from_str(tzid));
        s.options.geo = Some(select_method(LocationField::Tzid));
        s
    }

    /// The Gregorian year to ask about.
    pub fn gregorian_year(self, gregorian_year: i32) -> (r: Self)
        ensures
            r.options == (ShabbatOptions { gregorian_year: Some(gregorian_year), ..self.options }),
    {
        let mut s = self;
        s.options.gregorian_year = Some(gregorian_year);
        s
    }

    /// The Gregorian month to ask about; not checked for range.
    pub fn gregorian_month(self, gregorian_month: u32) -> (r: Self)
        ensures
            r.options == (ShabbatOptions { gregorian_month: Some(gregorian_month), ..self.options }),
    {
        let mut s = self;
        s.options.gregorian_month = Some(gregorian_month);
        s
    }

    /// The Gregorian day to ask about; not checked for range.
    pub fn gregorian_day(self, gregorian_day: u32) -> (r: Self)
        ensures
            r.options == (ShabbatOptions { gregorian_day: Some(gregorian_day), ..self.options }),
    {
        let mut s = self;
        s.options.gregorian_day = Some(gregorian_day);
        s
    }

    /// The query parameters this request sends.
    pub fn query(&self) -> (r: Vec<(ParamKey, String)>)
        ensures
            pairs_view(r@) == query_of(self.options),
    {
        self.options.query()
    }
}

} // verus!
