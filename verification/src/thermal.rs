//! Which of the thermal sensors tell the temperature of the processor.
//!
//! A reading is handled as an integer that orders as the temperatures do,
//! with zero for zero degrees. The choice names the sensors by their
//! position, so that the caller can report the temperatures as it read them.

use vstd::prelude::*;
use crate::text::{chars_of, contains, contains_seq};

verus! {

/// The lower-case form of a text, as `str::to_lowercase` gives it.
pub uninterp spec fn lowercase_of(s: Seq<char>) -> Seq<char>;

/// `str::to_lowercase`: the text with every character replaced by its
/// lower-case form, which depends on the text alone.
#[verifier::external_body]
pub(crate) fn to_lowercase(s: &str) -> (out: String)
    ensures
        out@ == lowercase_of(s@),
{
    s.to_lowercase()
}

/// What a thermal sensor measures, judged by its label.
#[derive(Clone, Copy, Debug, PartialEq, Eq, Structural)]
pub enum SensorKind {
    /// The processor as a whole.
    Package,
    /// One core, or the processor without saying more.
    Core,
    /// Something else.
    Other,
}

/// One thermal sensor as the metrics source lists it.
#[derive(Clone, Debug, PartialEq, Eq)]
pub struct ThermalSensor {
    pub label: String,
    pub reading: i64,
}

/// The view of [`ThermalSensor`]: its texts as sequences of characters.
pub struct ThermalSensorView {
    pub label: Seq<char>,
    pub reading: i64,
}

impl View for ThermalSensor {
    type V = ThermalSensorView;

    open spec fn view(&self) -> ThermalSensorView {
        ThermalSensorView { label: self.label@, reading: self.reading }
    }
}

impl DeepView for ThermalSensor {
    type V = ThermalSensorView;

    open spec fn deep_view(&self) -> ThermalSensorView {
        self@
    }
}

/// A sensor whose label has been judged.
#[derive(Clone, Copy, Debug, PartialEq, Eq, Structural)]
pub struct JudgedSensor {
    pub kind: SensorKind,
    pub reading: i64,
}

/// The sensors that give the temperature of the processor: `main` the one to
/// report as its temperature, `max` the one with the highest reading above
/// zero. `None` where no sensor qualifies; the temperature to report is then
/// zero.
#[derive(Clone, Copy, Debug, PartialEq, Eq, Structural)]
pub struct CpuTemperature {
    pub main: Option<usize>,
    pub max: Option<usize>,
}

impl Default for CpuTemperature {
    fn default() -> (out: Self)
        ensures
            out == (CpuTemperature { main: None, max: None }),
    {
        CpuTemperature { main: None, max: None }
    }
}

/// What a sensor measures, by its label in lower case: the package where the
/// label holds `package` or `tctl`, else a core where it holds `core` or
/// `cpu`.
pub open spec fn sensor_kind_of(lower_label: Seq<char>) -> SensorKind {
    if contains_seq(lower_label, "package"@) || contains_seq(lower_label, "tctl"@) {
        SensorKind::Package
    } else if contains_seq(lower_label, "core"@) || contains_seq(lower_label, "cpu"@) {
        SensorKind::Core
    } else {
        SensorKind::Other
    }
}

/// Whether `main` is the sensor to report: the first package sensor; where
/// there is none, the first core sensor; none where there is neither.
pub open spec fn is_main_of(main: Option<usize>, sensors: Seq<JudgedSensor>) -> bool {
    match main {
        Some(m) => {
            &&& m < sensors.len()
            &&& sensors[m as int].kind != SensorKind::Other
            &&& forall|j: int| 0 <= j < m ==> (#[trigger] sensors[j]).kind != sensors[m as int].kind
            &&& sensors[m as int].kind == SensorKind::Core ==> forall|j: int|
                0 <= j < sensors.len() ==> (#[trigger] sensors[j]).kind != SensorKind::Package
        },
        None => forall|j: int|
            0 <= j < sensors.len() ==> (#[trigger] sensors[j]).kind == SensorKind::Other,
    }
}

/// Whether `max` is the hottest sensor: the first of the package and core
/// sensors whose reading is the highest, if that is above zero.
pub open spec fn is_max_of(max: Option<usize>, sensors: Seq<JudgedSensor>) -> bool {
    match max {
        Some(x) => {
            &&& x < sensors.len()
            &&& sensors[x as int].kind != SensorKind::Other
            &&& sensors[x as int].reading > 0
            &&& forall|j: int|
                0 <= j < sensors.len() && (#[trigger] sensors[j]).kind != SensorKind::Other
                    ==> sensors[j].reading <= sensors[x as int].reading
            &&& forall|j: int|
                0 <= j < x && (#[trigger] sensors[j]).kind != SensorKind::Other
                    ==> sensors[j].reading < sensors[x as int].reading
        },
        None => forall|j: int|
            0 <= j < sensors.len() && (#[trigger] sensors[j]).kind != SensorKind::Other
                ==> sensors[j].reading <= 0,
    }
}

/// Whether `choice` names the sensors that give the processor's temperature.
pub open spec fn is_temperature_of(choice: CpuTemperature, sensors: Seq<JudgedSensor>) -> bool {
    is_main_of(choice.main, sensors) && is_max_of(choice.max, sensors)
}

/// The sensors with their labels judged.
pub open spec fn judged_of(sensors: Seq<ThermalSensorView>) -> Seq<JudgedSensor> {
    Seq::new(
        sensors.len(),
        |i: int|
            JudgedSensor {
                kind: sensor_kind_of(lowercase_of(sensors[i].label)),
                reading: sensors[i].reading,
            },
    )
}

/// Where a package sensor is listed, the sensor to report is a package
/// sensor, wherever in the list the core sensors stand.
pub proof fn lemma_package_preferred(choice: CpuTemperature, sensors: Seq<JudgedSensor>, p: int)
    requires
        is_temperature_of(choice, sensors),
        0 <= p < sensors.len(),
        sensors[p].kind == SensorKind::Package,
    ensures
        choice.main is Some,
        sensors[choice.main->0 as int].kind == SensorKind::Package,
        choice.main->0 <= p,
{
}

/// The sensors have one choice: two choices for the same sensors are the
/// same.
pub proof fn lemma_temperature_is_unique(
    a: CpuTemperature,
    b: CpuTemperature,
    sensors: Seq<JudgedSensor>,
)
    requires
        is_temperature_of(a, sensors),
        is_temperature_of(b, sensors),
    ensures
        a == b,
{
    if let Some(m) = a.main {
        assert(sensors[m as int].kind != SensorKind::Other);
    }
    if let Some(m) = b.main {
        assert(sensors[m as int].kind != SensorKind::Other);
    }
    if let Some(x) = a.max {
        assert(sensors[x as int].reading > 0);
    }
    if let Some(x) = b.max {
        assert(sensors[x as int].reading > 0);
    }
}

/// Judges a sensor by its label, given in lower case.
pub fn sensor_kind(lower_label: &str) -> (kind: SensorKind)
    ensures
        kind == sensor_kind_of(lower_label@),
{
    let label = chars_of(lower_label);
    let package = chars_of("package");
    let tctl = chars_of("tctl");
    let core = chars_of("core");
    let cpu = chars_of("cpu");
    if contains(label.as_slice(), package.as_slice()) || contains(
        label.as_slice(),
        tctl.as_slice(),
    ) {
        SensorKind::Package
    } else if contains(label.as_slice(), core.as_slice()) || contains(
        label.as_slice(),
        cpu.as_slice(),
    ) {
        SensorKind::Core
    } else {
        SensorKind::Other
    }
}

/// Chooses, among sensors whose labels have been judged, those that give the
/// temperature of the processor.
pub fn choose_temperature(sensors: &Vec<JudgedSensor>) -> (choice: CpuTemperature)
    ensures
        is_temperature_of(choice, sensors@),
{
    let mut package: Option<usize> = None;
    let mut core: Option<usize> = None;
    let mut max: Option<usize> = None;
    let mut i: usize = 0;
    while i < sensors.len()
        invariant
            i <= sensors.len(),
            match package {
                Some(m) => m < i && sensors[m as int].kind == SensorKind::Package && forall|j: int|
                    0 <= j < m ==> (#[trigger] sensors[j]).kind != SensorKind::Package,
                None => forall|j: int|
                    0 <= j < i ==> (#[trigger] sensors[j]).kind != SensorKind::Package,
            },
            match core {
                Some(m) => m < i && sensors[m as int].kind == SensorKind::Core && forall|j: int|
                    0 <= j < m ==> (#[trigger] sensors[j]).kind != SensorKind::Core,
                None => forall|j: int| 0 <= j < i ==> (#[trigger] sensors[j]).kind != SensorKind::Core,
            },
            max is Some ==> max->0 < i,
            is_max_of(max, sensors@.take(i as int)),
        decreases sensors.len() - i,
    {
        let sensor = sensors[i];
        let ghost before = sensors@.take(i as int);
        let ghost after = sensors@.take(i + 1);
        proof {
            assert(forall|j: int| 0 <= j < i ==> before[j] == after[j]);
            assert(after[i as int] == sensor);
        }
        match sensor.kind {
            SensorKind::Package => {
                if package.is_none() {
                    package = Some(i);
                }
            },
            SensorKind::Core => {
                if core.is_none() {
                    core = Some(i);
                }
            },
            SensorKind::Other => {},
        }
        if sensor.kind != SensorKind::Other && sensor.reading > 0 {
            let higher = match max {
                Some(x) => sensor.reading > sensors[x].reading,
                None => true,
            };
            if higher {
                max = Some(i);
            }
        }
        i += 1;
    }
    assert(sensors@.take(i as int) == sensors@);
    let main = match package {
        Some(m) => Some(m),
        None => core,
    };
    CpuTemperature { main, max }
}

/// Chooses, among the thermal sensors that the metrics source lists, those
/// that give the temperature of the processor.
pub fn collect_cpu_temp(sensors: &Vec<ThermalSensor>) -> (choice: CpuTemperature)
    ensures
        is_temperature_of(choice, judged_of(sensors.deep_view())),
{
    let mut judged: Vec<JudgedSensor> = Vec::new();
    let mut i: usize = 0;
    while i < sensors.len()
        invariant
            i <= sensors.len(),
            judged@ == judged_of(sensors.deep_view()).take(i as int),
        decreases sensors.len() - i,
    {
        let lower = to_lowercase(sensors[i].label.as_str());
        judged.push(JudgedSensor { kind: sensor_kind(lower.as_str()), reading: sensors[i].reading });
        i += 1;
    }
    assert(judged@ == judged_of(sensors.deep_view()));
    choose_temperature(&judged)
}

} // verus!
