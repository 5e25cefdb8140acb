use hwinfo::thermal::{
    choose_temperature, collect_cpu_temp, sensor_kind, CpuTemperature, JudgedSensor, SensorKind,
    ThermalSensor,
};

fn sensor(label: &str, reading: i64) -> ThermalSensor {
    ThermalSensor { label: label.to_string(), reading }
}

fn judged(kind: SensorKind, reading: i64) -> JudgedSensor {
    JudgedSensor { kind, reading }
}

#[test]
fn kinds_by_label() {
    assert_eq!(sensor_kind("coretemp package id 0"), SensorKind::Package);
    assert_eq!(sensor_kind("k10temp tctl"), SensorKind::Package);
    assert_eq!(sensor_kind("coretemp core 0"), SensorKind::Core);
    assert_eq!(sensor_kind("cpu fan"), SensorKind::Core);
    assert_eq!(sensor_kind("nvme composite"), SensorKind::Other);
    assert_eq!(sensor_kind(""), SensorKind::Other);
    assert_eq!(sensor_kind("Package"), SensorKind::Other);
}

#[test]
fn package_sensor_is_preferred_when_it_comes_last() {
    let sensors = vec![sensor("Core 0", 50), sensor("Core 1", 55), sensor("Package id 0", 52)];
    assert_eq!(collect_cpu_temp(&sensors), CpuTemperature { main: Some(2), max: Some(1) });
}

#[test]
fn package_sensor_is_preferred_when_it_comes_first() {
    let sensors = vec![sensor("Package id 0", 52), sensor("Core 0", 50), sensor("Core 1", 55)];
    assert_eq!(collect_cpu_temp(&sensors), CpuTemperature { main: Some(0), max: Some(2) });
}

#[test]
fn package_sensor_is_preferred_even_at_zero_degrees() {
    let sensors = vec![sensor("core 0", 40), sensor("TCTL", 0), sensor("core 1", 45)];
    assert_eq!(collect_cpu_temp(&sensors), CpuTemperature { main: Some(1), max: Some(2) });
}

#[test]
fn first_of_several_package_sensors() {
    let sensors = vec![sensor("acpitz", 90), sensor("Package id 0", 50), sensor("Package id 1", 60)];
    assert_eq!(collect_cpu_temp(&sensors), CpuTemperature { main: Some(1), max: Some(2) });
}

#[test]
fn first_core_sensor_without_a_package_sensor() {
    let sensors = vec![sensor("nvme", 30), sensor("CPU", 0), sensor("Core 0", 44)];
    assert_eq!(collect_cpu_temp(&sensors), CpuTemperature { main: Some(1), max: Some(2) });
}

#[test]
fn labels_are_judged_without_regard_to_case() {
    let sensors = vec![sensor("CORE 0", 1), sensor("k10temp Tctl", 2)];
    assert_eq!(collect_cpu_temp(&sensors), CpuTemperature { main: Some(1), max: Some(1) });
}

#[test]
fn no_sensor_no_temperature() {
    assert_eq!(collect_cpu_temp(&Vec::new()), CpuTemperature::default());
    assert_eq!(CpuTemperature::default(), CpuTemperature { main: None, max: None });
    let sensors = vec![sensor("nvme", 30), sensor("acpitz", 50)];
    assert_eq!(collect_cpu_temp(&sensors), CpuTemperature { main: None, max: None });
}

#[test]
fn highest_reading_must_be_above_zero() {
    let sensors = vec![judged(SensorKind::Core, -5), judged(SensorKind::Package, 0)];
    assert_eq!(choose_temperature(&sensors), CpuTemperature { main: Some(1), max: None });
}

#[test]
fn first_of_equal_readings_is_the_highest() {
    let sensors = vec![
        judged(SensorKind::Other, 99),
        judged(SensorKind::Core, 60),
        judged(SensorKind::Package, 60),
        judged(SensorKind::Core, 59),
    ];
    assert_eq!(choose_temperature(&sensors), CpuTemperature { main: Some(2), max: Some(1) });
}

#[test]
fn extreme_readings() {
    let sensors = vec![judged(SensorKind::Core, i64::MIN), judged(SensorKind::Core, i64::MAX)];
    assert_eq!(choose_temperature(&sensors), CpuTemperature { main: Some(0), max: Some(1) });
}
