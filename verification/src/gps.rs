//! Turning the fixes reported by the GPS daemon into the flight stack's GPS
//! readings.
//!
//! Readings are generic in the number type `F` of coordinates and errors.

use vstd::prelude::*;

verus! {

/// A GPS reading: position, and where the fix has them, altitude, speed,
/// climb and track, each with its error estimate when the daemon gives one.
#[derive(Clone, Copy, Debug)]
pub struct GPSData<F> {
    pub latitude: F,
    pub lat_err: Option<F>,
    pub longitude: F,
    pub lon_err: Option<F>,
    pub altitude: Option<F>,
    pub alt_err: Option<F>,
    pub speed: Option<F>,
    pub speed_err: Option<F>,
    pub climb: Option<F>,
    pub climb_err: Option<F>,
    pub track: Option<F>,
    pub track_err: Option<F>,
}

/// The fields of a time-position-velocity report of the GPS daemon that the
/// flight stack reads, by kind of fix.
#[derive(Clone, Copy, Debug)]
pub enum TpvFix<F> {
    /// Three dimensional fix, with speed and climb.
    Fix3D {
        lat: F,
        lat_err: Option<F>,
        lon: F,
        lon_err: Option<F>,
        alt: F,
        alt_err: Option<F>,
        track: Option<F>,
        track_err: Option<F>,
        speed: F,
        speed_err: Option<F>,
        climb: F,
        climb_err: Option<F>,
    },
    /// Two dimensional fix, with speed.
    Fix2D {
        lat: F,
        lat_err: Option<F>,
        lon: F,
        lon_err: Option<F>,
        track: Option<F>,
        track_err: Option<F>,
        speed: F,
        speed_err: Option<F>,
    },
    /// Position with whatever else the daemon sent.
    LatLonOnly {
        lat: F,
        lat_err: Option<F>,
        lon: F,
        lon_err: Option<F>,
        alt: Option<F>,
        alt_err: Option<F>,
        track: Option<F>,
        track_err: Option<F>,
        speed: Option<F>,
        speed_err: Option<F>,
        climb: Option<F>,
        climb_err: Option<F>,
    },
    /// No fix.
    NoFix,
    /// No usable data.
    Nothing,
}

/// A report of the GPS daemon: a position report, or anything else.
#[derive(Clone, Copy, Debug)]
pub enum GpsdResponse<F> {
    Tpv(TpvFix<F>),
    Other,
}

/// The reading a report gives: a fix keeps every field it has; a two
/// dimensional fix has no altitude or climb; no fix gives no reading.
pub open spec fn tpv_reading<F>(response: TpvFix<F>) -> Option<GPSData<F>> {
    match response {
        TpvFix::Fix3D {
            lat,
            lat_err,
            lon,
            lon_err,
            alt,
            alt_err,
            track,
            track_err,
            speed,
            speed_err,
            climb,
            climb_err,
        } => Some(
            GPSData {
                latitude: lat,
                lat_err,
                longitude: lon,
                lon_err,
                altitude: Some(alt),
                alt_err,
                speed: Some(speed),
                speed_err,
                climb: Some(climb),
                climb_err,
                track,
                track_err,
            },
        ),
        TpvFix::Fix2D { lat, lat_err, lon, lon_err, track, track_err, speed, speed_err } => Some(
            GPSData {
                latitude: lat,
                lat_err,
                longitude: lon,
                lon_err,
                altitude: None,
                alt_err: None,
                speed: Some(speed),
                speed_err,
                climb: None,
                climb_err: None,
                track,
                track_err,
            },
        ),
        TpvFix::LatLonOnly {
            lat,
            lat_err,
            lon,
            lon_err,
            alt,
            alt_err,
            track,
            track_err,
            speed,
            speed_err,
            climb,
            climb_err,
        } => Some(
            GPSData {
                latitude: lat,
                lat_err,
                longitude: lon,
                lon_err,
                altitude: alt,
                alt_err,
                speed,
                speed_err,
                climb,
                climb_err,
                track,
                track_err,
            },
        ),
        _ => None,
    }
}

/// The GPS reading of a position report.
pub fn process_tpv_response<F>(response: TpvFix<F>) -> (reading: Option<GPSData<F>>)
    ensures
        reading == tpv_reading(response),
{
    match response {
        TpvFix::Fix3D {
            lat,
            lat_err,
            lon,
            lon_err,
            alt,
            alt_err,
            track,
            track_err,
            speed,
            speed_err,
            climb,
            climb_err,
        } => Some(
            GPSData {
                latitude: lat,
                lat_err: lat_err,
                longitude: lon,
                lon_err: lon_err,
                altitude: Some(alt),
                alt_err: alt_err,
                speed: Some(speed),
                speed_err: speed_err,
                climb: Some(climb),
                climb_err: climb_err,
                track: track,
                track_err: track_err,
            },
        ),
        TpvFix::Fix2D { lat, lat_err, lon, lon_err, track, track_err, speed, speed_err } => Some(
            GPSData {
                latitude: lat,
                lat_err: lat_err,
                longitude: lon,
                lon_err: lon_err,
                altitude: None,
                alt_err: None,
                speed: Some(speed),
                speed_err: speed_err,
                climb: None,
                climb_err: None,
                track: track,
                track_err: track_err,
            },
        ),
        TpvFix::LatLonOnly {
            lat,
            lat_err,
            lon,
            lon_err,
            alt,
            alt_err,
            track,
            track_err,
            speed,
            speed_err,
            climb,
            climb_err,
        } => Some(
            GPSData {
                latitude: lat,
                lat_err: lat_err,
                longitude: lon,
                lon_err: lon_err,
                altitude: alt,
                alt_err: alt_err,
                speed: speed,
                speed_err: speed_err,
                climb: climb,
                climb_err: climb_err,
                track: track,
                track_err: track_err,
            },
        ),
        _ => None,
    }
}

/// The GPS reading of any report of the daemon: only position reports give
/// one.
pub fn process_gps_response<F>(response: GpsdResponse<F>) -> (reading: Option<GPSData<F>>)
    ensures
        reading == (match response {
            GpsdResponse::Tpv(tpv) => tpv_reading(tpv),
            GpsdResponse::Other => None,
        }),
{
    match response {
        GpsdResponse::Tpv(tpv_response) => process_tpv_response(tpv_response),
        _ => None,
    }
}

/// A reading always carries the position of its report, and it carries an
/// altitude for a three dimensional fix and none for a two dimensional one.
pub proof fn lemma_reading_keeps_position<F>(response: TpvFix<F>)
    ensures
        tpv_reading(response) is Some <==> !(response is NoFix || response is Nothing),
        response matches TpvFix::Fix3D { lat, lon, .. } ==> tpv_reading(response).unwrap().latitude
            == lat && tpv_reading(response).unwrap().longitude == lon,
        response matches TpvFix::Fix2D { lat, lon, .. } ==> tpv_reading(response).unwrap().latitude
            == lat && tpv_reading(response).unwrap().longitude == lon,
        response matches TpvFix::LatLonOnly { lat, lon, .. } ==> tpv_reading(
            response,
        ).unwrap().latitude == lat && tpv_reading(response).unwrap().longitude == lon,
        response is Fix3D ==> tpv_reading(response).unwrap().altitude is Some,
        response is Fix2D ==> tpv_reading(response).unwrap().altitude is None
            && tpv_reading(response).unwrap().climb is None,
{
}

/// A reading keeps every field its report has: a three dimensional fix
/// carries its position, altitude, speed, climb and track with all their
/// error estimates; a two dimensional fix its position, speed and track with
/// their error estimates and no altitude or climb; a position-only report
/// passes each of its optional fields through unchanged.
pub proof fn lemma_reading_keeps_report_fields<F>(response: TpvFix<F>)
    ensures
        response matches TpvFix::Fix3D {
            lat,
            lat_err,
            lon,
            lon_err,
            alt,
            alt_err,
            track,
            track_err,
            speed,
            speed_err,
            climb,
            climb_err,
        } ==> ({
            let d = tpv_reading(response).unwrap();
            &&& tpv_reading(response) is Some
            &&& d.latitude == lat && d.lat_err == lat_err
            &&& d.longitude == lon && d.lon_err == lon_err
            &&& d.altitude == Some(alt) && d.alt_err == alt_err
            &&& d.track == track && d.track_err == track_err
            &&& d.speed == Some(speed) && d.speed_err == speed_err
            &&& d.climb == Some(climb) && d.climb_err == climb_err
        }),
        response matches TpvFix::Fix2D {
            lat,
            lat_err,
            lon,
            lon_err,
            track,
            track_err,
            speed,
            speed_err,
        } ==> ({
            let d = tpv_reading(response).unwrap();
            &&& tpv_reading(response) is Some
            &&& d.latitude == lat && d.lat_err == lat_err
            &&& d.longitude == lon && d.lon_err == lon_err
            &&& d.altitude is None && d.alt_err is None
            &&& d.track == track && d.track_err == track_err
            &&& d.speed == Some(speed) && d.speed_err == speed_err
            &&& d.climb is None && d.climb_err is None
        }),
        response matches TpvFix::LatLonOnly {
            lat,
            lat_err,
            lon,
            lon_err,
            alt,
            alt_err,
            track,
            track_err,
            speed,
            speed_err,
            climb,
            climb_err,
        } ==> ({
            let d = tpv_reading(response).unwrap();
            &&& tpv_reading(response) is Some
            &&& d.latitude == lat && d.lat_err == lat_err
            &&& d.longitude == lon && d.lon_err == lon_err
            &&& d.altitude == alt && d.alt_err == alt_err
            &&& d.track == track && d.track_err == track_err
            &&& d.speed == speed && d.speed_err == speed_err
            &&& d.climb == climb && d.climb_err == climb_err
        }),
        (response is NoFix || response is Nothing) ==> tpv_reading(response) is None,
{
}

} // verus!
