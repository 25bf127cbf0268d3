use terralib::binary32::Binary32;
use terralib::client::{create_update_data, ControlCommand};
use terralib::types::{Actuator, ActuatorOverride, ActuatorOverrideSet, ActuatorValue};

fn number(value: f32) -> Binary32 {
    Binary32::from_bits(value.to_bits())
}

/// Writes a control command out as a request body does: every actuator by
/// its name, every value as a JSON boolean or number.
fn body_of(data: &ActuatorOverrideSet) -> String {
    let entries: Vec<String> = data
        .updates
        .iter()
        .map(|entry| {
            let value = match entry.value {
                ActuatorValue::Bool(on) => serde_json::to_string(&on).unwrap(),
                ActuatorValue::Float(level) => {
                    serde_json::to_string(&f32::from_bits(level.to_bits())).unwrap()
                }
            };
            format!(
                "{{\"actuator\":{},\"value\":{},\"duration_secs\":{}}}",
                serde_json::to_string(entry.actuator.name()).unwrap(),
                value,
                entry.duration_secs
            )
        })
        .collect();
    format!("{{\"updates\":[{}]}}", entries.join(","))
}

#[test]
fn serialize() {
    let data = ActuatorOverrideSet {
        updates: vec![
            ActuatorOverride {
                actuator: Actuator::Mist,
                value: ActuatorValue::Bool(true),
                duration_secs: 10,
            },
            ActuatorOverride {
                actuator: Actuator::Lights,
                value: ActuatorValue::Float(number(0.5)),
                duration_secs: 15,
            },
        ],
    };

    assert_eq!(
        body_of(&data),
        "{\"updates\":[{\"actuator\":\"mist\",\"value\":true,\"duration_secs\":10},{\"actuator\":\"lights\",\"value\":0.5,\"duration_secs\":15}]}".to_string()
    );
}

#[test]
fn a_command_of_the_client_as_a_request_body() {
    let cmds = vec![
        ControlCommand { actuator: Actuator::Mist, value: number(1.0), duration: number(10.0) },
        ControlCommand { actuator: Actuator::Lights, value: number(0.5), duration: number(10.0) },
    ];
    let update_data = create_update_data(&cmds);
    assert_eq!(
        body_of(&update_data),
        "{\"updates\":[{\"actuator\":\"mist\",\"value\":true,\"duration_secs\":10},{\"actuator\":\"lights\",\"value\":0.5,\"duration_secs\":10}]}".to_string()
    );
    let parsed: serde_json::Value = serde_json::from_str(&body_of(&update_data)).unwrap();
    let first = &parsed["updates"][0];
    assert_eq!(Actuator::from_name(first["actuator"].as_str().unwrap()), Some(Actuator::Mist));
    assert_eq!(first["value"].as_bool(), Some(true));
    assert_eq!(first["duration_secs"].as_u64(), Some(10));
}
