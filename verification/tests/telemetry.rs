use terralib::binary32::Binary32;
use terralib::influxdb::{telemetry_point, Config, TelemetryPoint};
use terralib::types::{ActuatorValues, SensorValues, TerrariumState};

fn number(value: f32) -> Binary32 {
    Binary32::from_bits(value.to_bits())
}

#[test]
fn where_the_points_go() {
    let config = Config {
        address: "http://influx.local:8086".to_string(),
        org: "plants".to_string(),
        bucket: "oasis".to_string(),
        token: "SECRET".to_string(),
    };
    assert_eq!(
        config.write_url(),
        "http://influx.local:8086/api/v2/write?bucket=oasis&org=plants"
    );
    assert_eq!(config.authorization(), "Token SECRET");
    assert_eq!(config.clone(), config);
}

#[test]
fn a_point_records_the_state() {
    let state = TerrariumState {
        actuators: ActuatorValues { lights: number(0.6), mist: true, fans: false },
        sensors: Some(SensorValues { temp: number(22.5), humid: number(0.75) }),
        cpu_temp: Some(number(41.0)),
    };
    assert_eq!(
        telemetry_point(&state),
        TelemetryPoint {
            temperature: number(22.5),
            humidity: number(0.75),
            lights: number(0.6),
            mist: number(1.0),
            fans: number(0.0),
            cpu_temp: Some(number(41.0)),
        }
    );
}

#[test]
fn missing_readings_are_minus_one() {
    let state = TerrariumState {
        actuators: ActuatorValues { lights: number(0.0), mist: false, fans: true },
        sensors: None,
        cpu_temp: None,
    };
    assert_eq!(
        telemetry_point(&state),
        TelemetryPoint {
            temperature: number(-1.0),
            humidity: number(-1.0),
            lights: number(0.0),
            mist: number(0.0),
            fans: number(1.0),
            cpu_temp: None,
        }
    );
}
