use safeflight::gps::{process_gps_response, process_tpv_response, GpsdResponse, TpvFix};

#[test]
fn three_dimensional_fix_keeps_everything() {
    let reading = process_tpv_response(TpvFix::Fix3D {
        lat: 42.0,
        lat_err: Some(1.0),
        lon: -83.0,
        lon_err: None,
        alt: 250.0,
        alt_err: Some(3.0),
        track: Some(90.0),
        track_err: None,
        speed: 2.0,
        speed_err: Some(0.5),
        climb: -0.5,
        climb_err: None,
    })
    .unwrap();
    assert_eq!(reading.latitude, 42.0);
    assert_eq!(reading.lat_err, Some(1.0));
    assert_eq!(reading.longitude, -83.0);
    assert_eq!(reading.altitude, Some(250.0));
    assert_eq!(reading.alt_err, Some(3.0));
    assert_eq!(reading.speed, Some(2.0));
    assert_eq!(reading.climb, Some(-0.5));
    assert_eq!(reading.track, Some(90.0));
}

#[test]
fn two_dimensional_fix_has_no_altitude_or_climb() {
    let reading = process_tpv_response(TpvFix::Fix2D {
        lat: 1.0,
        lat_err: None,
        lon: 2.0,
        lon_err: Some(0.1),
        track: None,
        track_err: None,
        speed: 3.0,
        speed_err: None,
    })
    .unwrap();
    assert_eq!(reading.altitude, None);
    assert_eq!(reading.alt_err, None);
    assert_eq!(reading.climb, None);
    assert_eq!(reading.speed, Some(3.0));
    assert_eq!(reading.lon_err, Some(0.1));
}

#[test]
fn position_only_fix_passes_optional_fields_through() {
    let reading = process_tpv_response(TpvFix::LatLonOnly {
        lat: 1.0,
        lat_err: None,
        lon: 2.0,
        lon_err: None,
        alt: None,
        alt_err: None,
        track: None,
        track_err: None,
        speed: Some(4.0),
        speed_err: None,
        climb: Some(1.5),
        climb_err: None,
    })
    .unwrap();
    assert_eq!(reading.altitude, None);
    assert_eq!(reading.speed, Some(4.0));
    assert_eq!(reading.climb, Some(1.5));
}

#[test]
fn no_fix_gives_no_reading() {
    assert!(process_tpv_response::<f64>(TpvFix::NoFix).is_none());
    assert!(process_tpv_response::<f64>(TpvFix::Nothing).is_none());
    assert!(process_gps_response::<f64>(GpsdResponse::Other).is_none());
    assert!(process_gps_response::<f64>(GpsdResponse::Tpv(TpvFix::NoFix)).is_none());
}
