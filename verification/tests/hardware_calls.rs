use terralib::binary32::Binary32;
use terralib::config::{HumidityMode, Schedule, TerrariumConfig};
use terralib::controller::TerrariumController;
use terralib::terrarium::Terrarium;
use terralib::time::TimeOfDay;
use terralib::types::{
    Actuator, ActuatorOverride, ActuatorOverrideSet, ActuatorValue, ActuatorValues, SensorValues,
};

fn number(value: f32) -> Binary32 {
    Binary32::from_bits(value.to_bits())
}

/// A terrarium that writes down what is asked of it.
struct Recorder {
    asked: ActuatorValues,
    calls: Vec<String>,
    reading: Option<SensorValues>,
}

impl Recorder {
    fn new() -> Recorder {
        Recorder { asked: ActuatorValues::default(), calls: Vec::new(), reading: None }
    }
}

impl Terrarium for Recorder {
    fn requested(&self) -> ActuatorValues {
        self.asked
    }

    fn set_lights(&mut self, val: Binary32) {
        self.asked.lights = val;
        self.calls.push(format!("set_lights {}", f32::from_bits(val.to_bits())));
    }

    fn set_lights_with_fade(&mut self, val: Binary32, fade_ms: i32) {
        self.asked.lights = val;
        self.calls.push(format!("fade {} {}", f32::from_bits(val.to_bits()), fade_ms));
    }

    fn get_lights(&self) -> Binary32 {
        self.asked.lights
    }

    fn set_mist(&mut self, on: bool) {
        self.asked.mist = on;
        self.calls.push(format!("mist {on}"));
    }

    fn get_mist(&self) -> bool {
        false
    }

    fn set_fans(&mut self, on: bool) {
        self.asked.fans = on;
        self.calls.push(format!("fans {on}"));
    }

    fn get_fans(&self) -> bool {
        false
    }

    fn read_sensors(&mut self) -> Option<SensorValues> {
        self.calls.push("read_sensors".to_string());
        self.reading
    }

    fn read_cpu_temp(&mut self) -> Option<Binary32> {
        None
    }
}

fn noon() -> TimeOfDay {
    TimeOfDay::from_hms(12, 0, 0).unwrap()
}

#[test]
fn a_tick_sets_mister_and_fans_every_time_and_fades_the_lights_when_they_change() {
    let mut ctl = TerrariumController::new(Recorder::new(), TerrariumConfig::default());
    ctl.run_at(0, noon());
    assert_eq!(ctl.terrarium().calls, vec!["mist false", "fans false"]);

    let cmd = ActuatorOverrideSet {
        updates: vec![ActuatorOverride {
            actuator: Actuator::Lights,
            value: ActuatorValue::Float(number(0.5)),
            duration_secs: 60,
        }],
    };
    ctl.handle_control_cmd_at(&cmd, 0).unwrap();
    ctl.terrarium_mut().calls.clear();
    ctl.run_at(1, noon());
    assert_eq!(ctl.terrarium().calls, vec!["fade 0.5 100", "mist false", "fans false"]);
    ctl.terrarium_mut().calls.clear();
    ctl.run_at(2, noon());
    assert_eq!(ctl.terrarium().calls, vec!["mist false", "fans false"]);
}

#[test]
fn the_sensor_is_read_only_where_the_schedule_follows_it() {
    let auto = TerrariumConfig {
        schedule: Some(Schedule {
            mist_mode: HumidityMode::Auto,
            humidity_setpoint: Some(number(0.8)),
            ..Schedule::default()
        }),
        ..TerrariumConfig::default()
    };
    let mut recorder = Recorder::new();
    recorder.reading = Some(SensorValues { temp: number(20.0), humid: number(0.5) });
    let mut ctl = TerrariumController::new(recorder, auto);
    ctl.run_at(0, noon());
    assert_eq!(ctl.terrarium().calls, vec!["read_sensors", "mist true", "fans false"]);

    let manual = TerrariumConfig {
        schedule: Some(Schedule { humidity_setpoint: Some(number(0.8)), ..Schedule::default() }),
        ..TerrariumConfig::default()
    };
    let mut ctl = TerrariumController::new(Recorder::new(), manual);
    ctl.run_at(0, noon());
    assert_eq!(ctl.terrarium().calls, vec!["mist false", "fans false"]);
}

#[test]
fn a_taken_light_is_not_even_looked_at() {
    let mut ctl = TerrariumController::new(Recorder::new(), TerrariumConfig::default());
    let cmd = ActuatorOverrideSet {
        updates: vec![ActuatorOverride {
            actuator: Actuator::Lights,
            value: ActuatorValue::Float(number(0.5)),
            duration_secs: 60,
        }],
    };
    ctl.handle_control_cmd_at(&cmd, 0).unwrap();
    ctl.takeover_lights();
    ctl.run_at(1, noon());
    assert_eq!(ctl.terrarium().calls, vec!["mist false", "fans false"]);
}
