use multi_harp_patina::settings::{
    check_channel, config_settings, measurement_control_edges, Setting,
    check_acquisition_time, check_binning, check_channel_offset, check_dead_time,
    check_histogram_len, check_marker_holdoff_time, check_offset, check_overflow_compression,
    check_stop_count, check_sync_div, check_trigger_level, check_trigger_output,
};
use multi_harp_patina::{MeasurementControlMode, MultiHarpConfig, PatinaError, TriggerEdge};

fn rejected_name<T>(r: Result<(), PatinaError<T>>) -> String {
    match r {
        Err(PatinaError::ArgumentError(name, _, _)) => name,
        _ => panic!("expected an argument error"),
    }
}

#[test]
fn range_checks_accept_their_bounds() {
    assert!(check_sync_div(1).is_ok());
    assert!(check_sync_div(16).is_ok());
    assert!(check_trigger_level(-1200).is_ok());
    assert!(check_channel_offset(99999).is_ok());
    assert!(check_dead_time(800).is_ok());
    assert!(check_binning(24).is_ok());
    assert!(check_offset(0).is_ok());
    assert!(check_trigger_output(16777215).is_ok());
    assert!(check_marker_holdoff_time(25500).is_ok());
    assert!(check_overflow_compression(255).is_ok());
    assert!(check_acquisition_time(360000000).is_ok());
    assert!(check_stop_count(1).is_ok());
}

#[test]
fn range_checks_reject_outside() {
    assert_eq!(rejected_name(check_sync_div(17)), "sync_div");
    assert_eq!(rejected_name(check_sync_div(0)), "sync_div");
    assert_eq!(rejected_name(check_trigger_level(1201)), "level");
    assert_eq!(rejected_name(check_channel_offset(-100000)), "offset");
    assert_eq!(rejected_name(check_dead_time(799)), "deadtime");
    assert_eq!(rejected_name(check_binning(-1)), "binning");
    assert_eq!(rejected_name(check_offset(100000001)), "offset");
    assert_eq!(rejected_name(check_trigger_output(-1)), "period");
    assert_eq!(rejected_name(check_marker_holdoff_time(25501)), "holdofftime");
    assert_eq!(rejected_name(check_overflow_compression(256)), "holdtime");
    assert_eq!(rejected_name(check_acquisition_time(0)), "acquisition_time");
    assert_eq!(rejected_name(check_stop_count(0)), "stopcount");
    assert_eq!(
        check_sync_div(20),
        Err(PatinaError::ArgumentError(
            "sync_div".to_string(),
            20,
            "Sync divider must be between 1 and 16".to_string()
        ))
    );
}

#[test]
fn histogram_length_codes() {
    assert_eq!(check_histogram_len(0), Ok(1024));
    assert_eq!(check_histogram_len(3), Ok(8192));
    assert_eq!(check_histogram_len(6), Ok(65536));
    assert!(matches!(check_histogram_len(7), Err(PatinaError::ArgumentError(_, 7, _))));
}

#[test]
fn default_config_sets_nothing() {
    let c = MultiHarpConfig::default();
    assert!(c.sync_div.is_none());
    assert!(c.input_edges.is_none());
    assert!(c.marker_enable.is_none());
    assert!(c.meas_control.is_none());
    assert!(c.marker_holdoff.is_none());
}

#[test]
fn channel_must_exist() {
    assert!(check_channel(0, 4).is_ok());
    assert!(check_channel(3, 4).is_ok());
    assert!(matches!(check_channel(4, 4), Err(PatinaError::ArgumentError(_, 4, _))));
    assert!(matches!(check_channel(-1, 4), Err(PatinaError::ArgumentError(_, -1, _))));
}

#[test]
fn control_modes_need_their_edges() {
    let r = Some(TriggerEdge::Rising);
    let f = Some(TriggerEdge::Falling);
    assert_eq!(measurement_control_edges(MeasurementControlMode::C1Gated, r, f), Ok((1, 0)));
    assert_eq!(measurement_control_edges(MeasurementControlMode::C1StartCtcStop, f, None), Ok((0, 0)));
    assert_eq!(measurement_control_edges(MeasurementControlMode::C1StartCtcStop, r, None), Ok((1, 0)));
    assert_eq!(measurement_control_edges(MeasurementControlMode::C1StartC2Stop, r, r), Ok((1, 1)));
    assert_eq!(measurement_control_edges(MeasurementControlMode::SingleShotCtc, r, r), Ok((0, 0)));
    match measurement_control_edges(MeasurementControlMode::C1Gated, r, None) {
        Err(PatinaError::ArgumentError(name, value, _)) => {
            assert_eq!(name, "mode");
            assert_eq!(value, "1");
        }
        other => panic!("unexpected {:?}", other),
    }
    assert!(matches!(
        measurement_control_edges(MeasurementControlMode::C1StartC2Stop, None, r),
        Err(PatinaError::ArgumentError(_, _, _))
    ));
}

#[test]
fn config_lists_its_settings_in_order() {
    let config = MultiHarpConfig {
        binning: Some(0),
        sync_channel_offset: Some(10),
        sync_div: Some(2),
        sync_trigger_edge: Some((-60, TriggerEdge::Falling)),
        input_edges: Some(vec![(0, -100, TriggerEdge::Falling), (1, -90, TriggerEdge::Rising)]),
        input_enables: Some(vec![(0, true), (1, false)]),
        marker_holdoff: Some(7),
        ..Default::default()
    };
    let settings = config_settings(&config);
    assert_eq!(
        settings,
        vec![
            Setting::SyncDiv(2),
            Setting::SyncEdgeTrigger(-60, TriggerEdge::Falling),
            Setting::SyncChannelOffset(10),
            Setting::InputEdgeTrigger(0, -100, TriggerEdge::Falling),
            Setting::InputEdgeTrigger(1, -90, TriggerEdge::Rising),
            Setting::InputChannelEnable(0, true),
            Setting::InputChannelEnable(1, false),
            Setting::Binning(0),
            Setting::MarkerHoldoff(7),
        ]
    );
    assert_eq!(settings[0].label(), "sync divider");
    assert_eq!(settings[8].label(), "marker holdoff time");
    assert!(config_settings(&MultiHarpConfig::default()).is_empty());
}
