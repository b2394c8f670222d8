//! Identifiers and persisted layout of the Telemetry dashboard.
use vstd::prelude::*;
use crate::text::str_eq;

verus! {

broadcast use vstd::string::group_string_axioms;

/// An identifier of a dashboard card that the layout persists by key.
pub trait LayoutId: Copy + Sized {
    /// The stable persisted key.
    spec fn id_key(self) -> Seq<char>;

    /// The position of the id in declaration order.
    spec fn id_index(self) -> nat;

    /// The number of ids.
    spec fn id_count() -> nat;

    /// The id persisted under `key`.
    spec fn id_from_key(key: Seq<char>) -> Option<Self>;

    fn layout_key(self) -> (r: &'static str)
        ensures
            r@ == self.id_key(),
    ;

    fn layout_from_key(key: &str) -> (r: Option<Self>)
        ensures
            r == Self::id_from_key(key@),
    ;

    fn layout_index(self) -> (r: usize)
        ensures
            r == self.id_index(),
            r < Self::id_count(),
    ;

    fn same(self, other: Self) -> (r: bool)
        ensures
            r == (self == other),
    ;

    proof fn lemma_index_injective(a: Self, b: Self)
        ensures
            a.id_index() < Self::id_count(),
            a.id_index() == b.id_index() ==> a == b,
    ;

    proof fn lemma_from_key(key: Seq<char>)
        ensures
            Self::id_from_key(key) matches Some(id) ==> id.id_key() == key,
    ;

    /// Every id, in index order.
    spec fn id_all() -> Seq<Self>;

    /// The key of an id leads back to it, and the ids in index order are
    /// each at their own index.
    proof fn lemma_all(id: Self)
        ensures
            Self::id_from_key(id.id_key()) == Some(id),
            Self::id_all().len() == Self::id_count(),
            forall|i: int| 0 <= i < Self::id_count() ==> (#[trigger] Self::id_all()[i]).id_index() == i,
            Self::id_all()[id.id_index() as int] == id,
    ;
}

/// Chart shown on the Telemetry dashboard.
#[derive(Debug, Clone, Copy, PartialEq, Eq, Structural)]
pub enum ChartId {
    Speed,
    Pedal,
    BrakePressure,
    Abs,
    Steering,
    SteeringTorque,
    Rpm,
    Gear,
    Dynamics,
    Yaw,
    WheelSlip,
    Tyre,
    Suspension,
    Fuel,
    Delta,
}

impl ChartId {
    /// The stable key under which this id is persisted.
    pub open spec fn spec_key(self) -> Seq<char> {
        match self {
            ChartId::Speed => "speed"@,
            ChartId::Pedal => "pedal"@,
            ChartId::BrakePressure => "brake_pressure"@,
            ChartId::Abs => "abs"@,
            ChartId::Steering => "steering"@,
            ChartId::SteeringTorque => "steering_torque"@,
            ChartId::Rpm => "rpm"@,
            ChartId::Gear => "gear"@,
            ChartId::Dynamics => "dynamics"@,
            ChartId::Yaw => "yaw"@,
            ChartId::WheelSlip => "wheel_slip"@,
            ChartId::Tyre => "tyre"@,
            ChartId::Suspension => "suspension"@,
            ChartId::Fuel => "fuel"@,
            ChartId::Delta => "delta"@,
        }
    }

    /// The display title.
    pub open spec fn spec_title(self) -> Seq<char> {
        match self {
            ChartId::Speed => "Speed"@,
            ChartId::Pedal => "Pedal"@,
            ChartId::BrakePressure => "Brake pressure (IBT)"@,
            ChartId::Abs => "ABS activity"@,
            ChartId::Steering => "Steering"@,
            ChartId::SteeringTorque => "Steering torque"@,
            ChartId::Rpm => "Engine RPM"@,
            ChartId::Gear => "Gear"@,
            ChartId::Dynamics => "Vehicle dynamics"@,
            ChartId::Yaw => "Yaw rate"@,
            ChartId::WheelSlip => "Wheel slip"@,
            ChartId::Tyre => "Tyre temperature"@,
            ChartId::Suspension => "Suspension travel"@,
            ChartId::Fuel => "Fuel used"@,
            ChartId::Delta => "Delta"@,
        }
    }

    /// The position of this id in declaration order.
    pub open spec fn spec_index(self) -> nat {
        match self {
            ChartId::Speed => 0,
            ChartId::Pedal => 1,
            ChartId::BrakePressure => 2,
            ChartId::Abs => 3,
            ChartId::Steering => 4,
            ChartId::SteeringTorque => 5,
            ChartId::Rpm => 6,
            ChartId::Gear => 7,
            ChartId::Dynamics => 8,
            ChartId::Yaw => 9,
            ChartId::WheelSlip => 10,
            ChartId::Tyre => 11,
            ChartId::Suspension => 12,
            ChartId::Fuel => 13,
            ChartId::Delta => 14,
        }
    }

    /// Every id, in declaration order.
    pub open spec fn spec_all() -> Seq<ChartId> {
        seq![ChartId::Speed, ChartId::Pedal, ChartId::BrakePressure, ChartId::Abs, ChartId::Steering, ChartId::SteeringTorque, ChartId::Rpm, ChartId::Gear, ChartId::Dynamics, ChartId::Yaw, ChartId::WheelSlip, ChartId::Tyre, ChartId::Suspension, ChartId::Fuel, ChartId::Delta]
    }

    /// The stable key under which this id is persisted.
    pub fn key(self) -> (r: &'static str)
        ensures
            r@ == self.spec_key(),
    {
        match self {
            ChartId::Speed => "speed",
            ChartId::Pedal => "pedal",
            ChartId::BrakePressure => "brake_pressure",
            ChartId::Abs => "abs",
            ChartId::Steering => "steering",
            ChartId::SteeringTorque => "steering_torque",
            ChartId::Rpm => "rpm",
            ChartId::Gear => "gear",
            ChartId::Dynamics => "dynamics",
            ChartId::Yaw => "yaw",
            ChartId::WheelSlip => "wheel_slip",
            ChartId::Tyre => "tyre",
            ChartId::Suspension => "suspension",
            ChartId::Fuel => "fuel",
            ChartId::Delta => "delta",
        }
    }

    /// The id persisted under `key`, if any.
    pub fn from_key(key: &str) -> (r: Option<Self>)
        ensures
            r == Self::spec_from_key(key@),
    {
        if str_eq(key, "speed") {
            Some(ChartId::Speed)
        } else if str_eq(key, "pedal") {
            Some(ChartId::Pedal)
        } else if str_eq(key, "brake_pressure") {
            Some(ChartId::BrakePressure)
        } else if str_eq(key, "abs") {
            Some(ChartId::Abs)
        } else if str_eq(key, "steering") {
            Some(ChartId::Steering)
        } else if str_eq(key, "steering_torque") {
            Some(ChartId::SteeringTorque)
        } else if str_eq(key, "rpm") {
            Some(ChartId::Rpm)
        } else if str_eq(key, "gear") {
            Some(ChartId::Gear)
        } else if str_eq(key, "dynamics") {
            Some(ChartId::Dynamics)
        } else if str_eq(key, "yaw") {
            Some(ChartId::Yaw)
        } else if str_eq(key, "wheel_slip") {
            Some(ChartId::WheelSlip)
        } else if str_eq(key, "tyre") {
            Some(ChartId::Tyre)
        } else if str_eq(key, "suspension") {
            Some(ChartId::Suspension)
        } else if str_eq(key, "fuel") {
            Some(ChartId::Fuel)
        } else if str_eq(key, "delta") {
            Some(ChartId::Delta)
        } else {
            None
        }
    }

    /// The id whose key is `key`.
    pub open spec fn spec_from_key(key: Seq<char>) -> Option<Self> {
        if key == "speed"@ {
            Some(ChartId::Speed)
        } else if key == "pedal"@ {
            Some(ChartId::Pedal)
        } else if key == "brake_pressure"@ {
            Some(ChartId::BrakePressure)
        } else if key == "abs"@ {
            Some(ChartId::Abs)
        } else if key == "steering"@ {
            Some(ChartId::Steering)
        } else if key == "steering_torque"@ {
            Some(ChartId::SteeringTorque)
        } else if key == "rpm"@ {
            Some(ChartId::Rpm)
        } else if key == "gear"@ {
            Some(ChartId::Gear)
        } else if key == "dynamics"@ {
            Some(ChartId::Dynamics)
        } else if key == "yaw"@ {
            Some(ChartId::Yaw)
        } else if key == "wheel_slip"@ {
            Some(ChartId::WheelSlip)
        } else if key == "tyre"@ {
            Some(ChartId::Tyre)
        } else if key == "suspension"@ {
            Some(ChartId::Suspension)
        } else if key == "fuel"@ {
            Some(ChartId::Fuel)
        } else if key == "delta"@ {
            Some(ChartId::Delta)
        } else {
            None
        }
    }

    /// `from_key` inverts `key`: it finds an id exactly for the key that id is persisted under.
    pub proof fn lemma_key_round_trip(id: Self, key: Seq<char>)
        ensures
            Self::spec_from_key(id.spec_key()) == Some(id),
            Self::spec_from_key(key) == Some(id) <==> id.spec_key() == key,
            Self::spec_from_key(key) is None <==> forall|other: Self| other.spec_key() != key,
    {
        reveal_strlit("speed");
        reveal_strlit("pedal");
        reveal_strlit("brake_pressure");
        reveal_strlit("abs");
        reveal_strlit("steering");
        reveal_strlit("steering_torque");
        reveal_strlit("rpm");
        reveal_strlit("gear");
        reveal_strlit("dynamics");
        reveal_strlit("yaw");
        reveal_strlit("wheel_slip");
        reveal_strlit("tyre");
        reveal_strlit("suspension");
        reveal_strlit("fuel");
        reveal_strlit("delta");
        assert forall|other: Self| Self::spec_from_key(#[trigger] other.spec_key()) == Some(other) by {
            match other {
                ChartId::Speed => {
                },
                ChartId::Pedal => {
                    assert("pedal"@.len() != "speed"@.len() || "pedal"@[0] != "speed"@[0]);
                },
                ChartId::BrakePressure => {
                    assert("brake_pressure"@.len() != "speed"@.len() || "brake_pressure"@[0] != "speed"@[0]);
                    assert("brake_pressure"@.len() != "pedal"@.len() || "brake_pressure"@[0] != "pedal"@[0]);
                },
                ChartId::Abs => {
                    assert("abs"@.len() != "speed"@.len() || "abs"@[0] != "speed"@[0]);
                    assert("abs"@.len() != "pedal"@.len() || "abs"@[0] != "pedal"@[0]);
                    assert("abs"@.len() != "brake_pressure"@.len() || "abs"@[0] != "brake_pressure"@[0]);
                },
                ChartId::Steering => {
                    assert("steering"@.len() != "speed"@.len() || "steering"@[0] != "speed"@[0]);
                    assert("steering"@.len() != "pedal"@.len() || "steering"@[0] != "pedal"@[0]);
                    assert("steering"@.len() != "brake_pressure"@.len() || "steering"@[0] != "brake_pressure"@[0]);
                    assert("steering"@.len() != "abs"@.len() || "steering"@[0] != "abs"@[0]);
                },
                ChartId::SteeringTorque => {
                    assert("steering_torque"@.len() != "speed"@.len() || "steering_torque"@[0] != "speed"@[0]);
                    assert("steering_torque"@.len() != "pedal"@.len() || "steering_torque"@[0] != "pedal"@[0]);
                    assert("steering_torque"@.len() != "brake_pressure"@.len() || "steering_torque"@[0] != "brake_pressure"@[0]);
                    assert("steering_torque"@.len() != "abs"@.len() || "steering_torque"@[0] != "abs"@[0]);
                    assert("steering_torque"@.len() != "steering"@.len() || "steering_torque"@[0] != "steering"@[0]);
                },
                ChartId::Rpm => {
                    assert("rpm"@.len() != "speed"@.len() || "rpm"@[0] != "speed"@[0]);
                    assert("rpm"@.len() != "pedal"@.len() || "rpm"@[0] != "pedal"@[0]);
                    assert("rpm"@.len() != "brake_pressure"@.len() || "rpm"@[0] != "brake_pressure"@[0]);
                    assert("rpm"@.len() != "abs"@.len() || "rpm"@[0] != "abs"@[0]);
                    assert("rpm"@.len() != "steering"@.len() || "rpm"@[0] != "steering"@[0]);
                    assert("rpm"@.len() != "steering_torque"@.len() || "rpm"@[0] != "steering_torque"@[0]);
                },
                ChartId::Gear => {
                    assert("gear"@.len() != "speed"@.len() || "gear"@[0] != "speed"@[0]);
                    assert("gear"@.len() != "pedal"@.len() || "gear"@[0] != "pedal"@[0]);
                    assert("gear"@.len() != "brake_pressure"@.len() || "gear"@[0] != "brake_pressure"@[0]);
                    assert("gear"@.len() != "abs"@.len() || "gear"@[0] != "abs"@[0]);
                    assert("gear"@.len() != "steering"@.len() || "gear"@[0] != "steering"@[0]);
                    assert("gear"@.len() != "steering_torque"@.len() || "gear"@[0] != "steering_torque"@[0]);
                    assert("gear"@.len() != "rpm"@.len() || "gear"@[0] != "rpm"@[0]);
                },
                ChartId::Dynamics => {
                    assert("dynamics"@.len() != "speed"@.len() || "dynamics"@[0] != "speed"@[0]);
                    assert("dynamics"@.len() != "pedal"@.len() || "dynamics"@[0] != "pedal"@[0]);
                    assert("dynamics"@.len() != "brake_pressure"@.len() || "dynamics"@[0] != "brake_pressure"@[0]);
                    assert("dynamics"@.len() != "abs"@.len() || "dynamics"@[0] != "abs"@[0]);
                    assert("dynamics"@.len() != "steering"@.len() || "dynamics"@[0] != "steering"@[0]);
                    assert("dynamics"@.len() != "steering_torque"@.len() || "dynamics"@[0] != "steering_torque"@[0]);
                    assert("dynamics"@.len() != "rpm"@.len() || "dynamics"@[0] != "rpm"@[0]);
                    assert("dynamics"@.len() != "gear"@.len() || "dynamics"@[0] != "gear"@[0]);
                },
                ChartId::Yaw => {
                    assert("yaw"@.len() != "speed"@.len() || "yaw"@[0] != "speed"@[0]);
                    assert("yaw"@.len() != "pedal"@.len() || "yaw"@[0] != "pedal"@[0]);
                    assert("yaw"@.len() != "brake_pressure"@.len() || "yaw"@[0] != "brake_pressure"@[0]);
                    assert("yaw"@.len() != "abs"@.len() || "yaw"@[0] != "abs"@[0]);
                    assert("yaw"@.len() != "steering"@.len() || "yaw"@[0] != "steering"@[0]);
                    assert("yaw"@.len() != "steering_torque"@.len() || "yaw"@[0] != "steering_torque"@[0]);
                    assert("yaw"@.len() != "rpm"@.len() || "yaw"@[0] != "rpm"@[0]);
                    assert("yaw"@.len() != "gear"@.len() || "yaw"@[0] != "gear"@[0]);
                    assert("yaw"@.len() != "dynamics"@.len() || "yaw"@[0] != "dynamics"@[0]);
                },
                ChartId::WheelSlip => {
                    assert("wheel_slip"@.len() != "speed"@.len() || "wheel_slip"@[0] != "speed"@[0]);
                    assert("wheel_slip"@.len() != "pedal"@.len() || "wheel_slip"@[0] != "pedal"@[0]);
                    assert("wheel_slip"@.len() != "brake_pressure"@.len() || "wheel_slip"@[0] != "brake_pressure"@[0]);
                    assert("wheel_slip"@.len() != "abs"@.len() || "wheel_slip"@[0] != "abs"@[0]);
                    assert("wheel_slip"@.len() != "steering"@.len() || "wheel_slip"@[0] != "steering"@[0]);
                    assert("wheel_slip"@.len() != "steering_torque"@.len() || "wheel_slip"@[0] != "steering_torque"@[0]);
                    assert("wheel_slip"@.len() != "rpm"@.len() || "wheel_slip"@[0] != "rpm"@[0]);
                    assert("wheel_slip"@.len() != "gear"@.len() || "wheel_slip"@[0] != "gear"@[0]);
                    assert("wheel_slip"@.len() != "dynamics"@.len() || "wheel_slip"@[0] != "dynamics"@[0]);
                    assert("wheel_slip"@.len() != "yaw"@.len() || "wheel_slip"@[0] != "yaw"@[0]);
                },
                ChartId::Tyre => {
                    assert("tyre"@.len() != "speed"@.len() || "tyre"@[0] != "speed"@[0]);
                    assert("tyre"@.len() != "pedal"@.len() || "tyre"@[0] != "pedal"@[0]);
                    assert("tyre"@.len() != "brake_pressure"@.len() || "tyre"@[0] != "brake_pressure"@[0]);
                    assert("tyre"@.len() != "abs"@.len() || "tyre"@[0] != "abs"@[0]);
                    assert("tyre"@.len() != "steering"@.len() || "tyre"@[0] != "steering"@[0]);
                    assert("tyre"@.len() != "steering_torque"@.len() || "tyre"@[0] != "steering_torque"@[0]);
                    assert("tyre"@.len() != "rpm"@.len() || "tyre"@[0] != "rpm"@[0]);
                    assert("tyre"@.len() != "gear"@.len() || "tyre"@[0] != "gear"@[0]);
                    assert("tyre"@.len() != "dynamics"@.len() || "tyre"@[0] != "dynamics"@[0]);
                    assert("tyre"@.len() != "yaw"@.len() || "tyre"@[0] != "yaw"@[0]);
                    assert("tyre"@.len() != "wheel_slip"@.len() || "tyre"@[0] != "wheel_slip"@[0]);
                },
                ChartId::Suspension => {
                    assert("suspension"@.len() != "speed"@.len() || "suspension"@[0] != "speed"@[0]);
                    assert("suspension"@.len() != "pedal"@.len() || "suspension"@[0] != "pedal"@[0]);
                    assert("suspension"@.len() != "brake_pressure"@.len() || "suspension"@[0] != "brake_pressure"@[0]);
                    assert("suspension"@.len() != "abs"@.len() || "suspension"@[0] != "abs"@[0]);
                    assert("suspension"@.len() != "steering"@.len() || "suspension"@[0] != "steering"@[0]);
                    assert("suspension"@.len() != "steering_torque"@.len() || "suspension"@[0] != "steering_torque"@[0]);
                    assert("suspension"@.len() != "rpm"@.len() || "suspension"@[0] != "rpm"@[0]);
                    assert("suspension"@.len() != "gear"@.len() || "suspension"@[0] != "gear"@[0]);
                    assert("suspension"@.len() != "dynamics"@.len() || "suspension"@[0] != "dynamics"@[0]);
                    assert("suspension"@.len() != "yaw"@.len() || "suspension"@[0] != "yaw"@[0]);
                    assert("suspension"@.len() != "wheel_slip"@.len() || "suspension"@[0] != "wheel_slip"@[0]);
                    assert("suspension"@.len() != "tyre"@.len() || "suspension"@[0] != "tyre"@[0]);
                },
                ChartId::Fuel => {
                    assert("fuel"@.len() != "speed"@.len() || "fuel"@[0] != "speed"@[0]);
                    assert("fuel"@.len() != "pedal"@.len() || "fuel"@[0] != "pedal"@[0]);
                    assert("fuel"@.len() != "brake_pressure"@.len() || "fuel"@[0] != "brake_pressure"@[0]);
                    assert("fuel"@.len() != "abs"@.len() || "fuel"@[0] != "abs"@[0]);
                    assert("fuel"@.len() != "steering"@.len() || "fuel"@[0] != "steering"@[0]);
                    assert("fuel"@.len() != "steering_torque"@.len() || "fuel"@[0] != "steering_torque"@[0]);
                    assert("fuel"@.len() != "rpm"@.len() || "fuel"@[0] != "rpm"@[0]);
                    assert("fuel"@.len() != "gear"@.len() || "fuel"@[0] != "gear"@[0]);
                    assert("fuel"@.len() != "dynamics"@.len() || "fuel"@[0] != "dynamics"@[0]);
                    assert("fuel"@.len() != "yaw"@.len() || "fuel"@[0] != "yaw"@[0]);
                    assert("fuel"@.len() != "wheel_slip"@.len() || "fuel"@[0] != "wheel_slip"@[0]);
                    assert("fuel"@.len() != "tyre"@.len() || "fuel"@[0] != "tyre"@[0]);
                    assert("fuel"@.len() != "suspension"@.len() || "fuel"@[0] != "suspension"@[0]);
                },
                ChartId::Delta => {
                    assert("delta"@.len() != "speed"@.len() || "delta"@[0] != "speed"@[0]);
                    assert("delta"@.len() != "pedal"@.len() || "delta"@[0] != "pedal"@[0]);
                    assert("delta"@.len() != "brake_pressure"@.len() || "delta"@[0] != "brake_pressure"@[0]);
                    assert("delta"@.len() != "abs"@.len() || "delta"@[0] != "abs"@[0]);
                    assert("delta"@.len() != "steering"@.len() || "delta"@[0] != "steering"@[0]);
                    assert("delta"@.len() != "steering_torque"@.len() || "delta"@[0] != "steering_torque"@[0]);
                    assert("delta"@.len() != "rpm"@.len() || "delta"@[0] != "rpm"@[0]);
                    assert("delta"@.len() != "gear"@.len() || "delta"@[0] != "gear"@[0]);
                    assert("delta"@.len() != "dynamics"@.len() || "delta"@[0] != "dynamics"@[0]);
                    assert("delta"@.len() != "yaw"@.len() || "delta"@[0] != "yaw"@[0]);
                    assert("delta"@.len() != "wheel_slip"@.len() || "delta"@[0] != "wheel_slip"@[0]);
                    assert("delta"@.len() != "tyre"@.len() || "delta"@[0] != "tyre"@[0]);
                    assert("delta"@.len() != "suspension"@.len() || "delta"@[0] != "suspension"@[0]);
                    assert("delta"@.len() != "fuel"@.len() || "delta"@[0] != "fuel"@[0]);
                },
            }
        }
        if forall|other: Self| other.spec_key() != key {
            assert(ChartId::Speed.spec_key() != key);
            assert(ChartId::Pedal.spec_key() != key);
            assert(ChartId::BrakePressure.spec_key() != key);
            assert(ChartId::Abs.spec_key() != key);
            assert(ChartId::Steering.spec_key() != key);
            assert(ChartId::SteeringTorque.spec_key() != key);
            assert(ChartId::Rpm.spec_key() != key);
            assert(ChartId::Gear.spec_key() != key);
            assert(ChartId::Dynamics.spec_key() != key);
            assert(ChartId::Yaw.spec_key() != key);
            assert(ChartId::WheelSlip.spec_key() != key);
            assert(ChartId::Tyre.spec_key() != key);
            assert(ChartId::Suspension.spec_key() != key);
            assert(ChartId::Fuel.spec_key() != key);
            assert(ChartId::Delta.spec_key() != key);
        }
        assert(Self::spec_from_key(id.spec_key()) == Some(id));
    }

    /// Distinct ids have distinct keys.
    pub proof fn lemma_key_injective()
        ensures
            forall|a: Self, b: Self| a.spec_key() == b.spec_key() ==> a == b,
    {
        reveal_strlit("speed");
        reveal_strlit("pedal");
        reveal_strlit("brake_pressure");
        reveal_strlit("abs");
        reveal_strlit("steering");
        reveal_strlit("steering_torque");
        reveal_strlit("rpm");
        reveal_strlit("gear");
        reveal_strlit("dynamics");
        reveal_strlit("yaw");
        reveal_strlit("wheel_slip");
        reveal_strlit("tyre");
        reveal_strlit("suspension");
        reveal_strlit("fuel");
        reveal_strlit("delta");
        assert forall|a: Self, b: Self| a.spec_key() == b.spec_key() implies a == b by {
            assert(a.spec_key().len() == b.spec_key().len());
            assert(a.spec_key()[0] == b.spec_key()[0]);
        }
    }

    /// The display title.
    pub fn title(self) -> (r: &'static str)
        ensures
            r@ == self.spec_title(),
    {
        match self {
            ChartId::Speed => "Speed",
            ChartId::Pedal => "Pedal",
            ChartId::BrakePressure => "Brake pressure (IBT)",
            ChartId::Abs => "ABS activity",
            ChartId::Steering => "Steering",
            ChartId::SteeringTorque => "Steering torque",
            ChartId::Rpm => "Engine RPM",
            ChartId::Gear => "Gear",
            ChartId::Dynamics => "Vehicle dynamics",
            ChartId::Yaw => "Yaw rate",
            ChartId::WheelSlip => "Wheel slip",
            ChartId::Tyre => "Tyre temperature",
            ChartId::Suspension => "Suspension travel",
            ChartId::Fuel => "Fuel used",
            ChartId::Delta => "Delta",
        }
    }

    /// The position of this id in declaration order.
    pub fn index(self) -> (r: usize)
        ensures
            r == self.spec_index(),
            r < 15,
    {
        match self {
            ChartId::Speed => 0,
            ChartId::Pedal => 1,
            ChartId::BrakePressure => 2,
            ChartId::Abs => 3,
            ChartId::Steering => 4,
            ChartId::SteeringTorque => 5,
            ChartId::Rpm => 6,
            ChartId::Gear => 7,
            ChartId::Dynamics => 8,
            ChartId::Yaw => 9,
            ChartId::WheelSlip => 10,
            ChartId::Tyre => 11,
            ChartId::Suspension => 12,
            ChartId::Fuel => 13,
            ChartId::Delta => 14,
        }
    }

    /// Every id, in declaration order.
    pub fn all() -> (r: Vec<Self>)
        ensures
            r@ == Self::spec_all(),
    {
        let r = vec![ChartId::Speed, ChartId::Pedal, ChartId::BrakePressure, ChartId::Abs, ChartId::Steering, ChartId::SteeringTorque, ChartId::Rpm, ChartId::Gear, ChartId::Dynamics, ChartId::Yaw, ChartId::WheelSlip, ChartId::Tyre, ChartId::Suspension, ChartId::Fuel, ChartId::Delta];
        assert(r@ =~= Self::spec_all());
        r
    }

}

impl LayoutId for ChartId {
    open spec fn id_key(self) -> Seq<char> {
        self.spec_key()
    }

    open spec fn id_index(self) -> nat {
        self.spec_index()
    }

    open spec fn id_count() -> nat {
        15
    }

    open spec fn id_from_key(key: Seq<char>) -> Option<Self> {
        Self::spec_from_key(key)
    }

    fn layout_key(self) -> (r: &'static str) {
        self.key()
    }

    fn layout_from_key(key: &str) -> (r: Option<Self>) {
        Self::from_key(key)
    }

    fn layout_index(self) -> (r: usize) {
        self.index()
    }

    fn same(self, other: Self) -> (r: bool) {
        self == other
    }

    proof fn lemma_index_injective(a: Self, b: Self) {
    }

    open spec fn id_all() -> Seq<Self> {
        Self::spec_all()
    }

    proof fn lemma_all(id: Self) {
        Self::lemma_key_round_trip(id, id.spec_key());
        assert forall|i: int| 0 <= i < 15 implies (#[trigger] Self::spec_all()[i]).spec_index() == i by {
            if i == 0 {
                assert(Self::spec_all()[0].spec_index() == 0);
            } else if i == 1 {
                assert(Self::spec_all()[1].spec_index() == 1);
            } else if i == 2 {
                assert(Self::spec_all()[2].spec_index() == 2);
            } else if i == 3 {
                assert(Self::spec_all()[3].spec_index() == 3);
            } else if i == 4 {
                assert(Self::spec_all()[4].spec_index() == 4);
            } else if i == 5 {
                assert(Self::spec_all()[5].spec_index() == 5);
            } else if i == 6 {
                assert(Self::spec_all()[6].spec_index() == 6);
            } else if i == 7 {
                assert(Self::spec_all()[7].spec_index() == 7);
            } else if i == 8 {
                assert(Self::spec_all()[8].spec_index() == 8);
            } else if i == 9 {
                assert(Self::spec_all()[9].spec_index() == 9);
            } else if i == 10 {
                assert(Self::spec_all()[10].spec_index() == 10);
            } else if i == 11 {
                assert(Self::spec_all()[11].spec_index() == 11);
            } else if i == 12 {
                assert(Self::spec_all()[12].spec_index() == 12);
            } else if i == 13 {
                assert(Self::spec_all()[13].spec_index() == 13);
            } else if i == 14 {
                assert(Self::spec_all()[14].spec_index() == 14);
            }
        }
        assert(Self::spec_all()[id.spec_index() as int].spec_index() == id.spec_index());
    }

    proof fn lemma_from_key(key: Seq<char>) {
        match Self::spec_from_key(key) {
            Some(id) => Self::lemma_key_round_trip(id, key),
            None => {},
        }
    }

}

/// Card of the lap analysis panel.
#[derive(Debug, Clone, Copy, PartialEq, Eq, Structural)]
pub enum LapAnalysisCardId {
    Cursor,
    ReferenceCursor,
    Vehicle,
    Inputs,
    Dynamics,
    Tyres,
    Wheels,
}

impl LapAnalysisCardId {
    /// The stable key under which this id is persisted.
    pub open spec fn spec_key(self) -> Seq<char> {
        match self {
            LapAnalysisCardId::Cursor => "cursor"@,
            LapAnalysisCardId::ReferenceCursor => "reference_cursor"@,
            LapAnalysisCardId::Vehicle => "vehicle"@,
            LapAnalysisCardId::Inputs => "inputs"@,
            LapAnalysisCardId::Dynamics => "dynamics"@,
            LapAnalysisCardId::Tyres => "tyres"@,
            LapAnalysisCardId::Wheels => "wheels"@,
        }
    }

    /// The display title.
    pub open spec fn spec_title(self) -> Seq<char> {
        match self {
            LapAnalysisCardId::Cursor => "Cursor"@,
            LapAnalysisCardId::ReferenceCursor => "Reference cursor"@,
            LapAnalysisCardId::Vehicle => "Vehicle"@,
            LapAnalysisCardId::Inputs => "Inputs"@,
            LapAnalysisCardId::Dynamics => "Dynamics"@,
            LapAnalysisCardId::Tyres => "Tyres"@,
            LapAnalysisCardId::Wheels => "Wheels"@,
        }
    }

    /// The position of this id in declaration order.
    pub open spec fn spec_index(self) -> nat {
        match self {
            LapAnalysisCardId::Cursor => 0,
            LapAnalysisCardId::ReferenceCursor => 1,
            LapAnalysisCardId::Vehicle => 2,
            LapAnalysisCardId::Inputs => 3,
            LapAnalysisCardId::Dynamics => 4,
            LapAnalysisCardId::Tyres => 5,
            LapAnalysisCardId::Wheels => 6,
        }
    }

    /// Every id, in declaration order.
    pub open spec fn spec_all() -> Seq<LapAnalysisCardId> {
        seq![LapAnalysisCardId::Cursor, LapAnalysisCardId::ReferenceCursor, LapAnalysisCardId::Vehicle, LapAnalysisCardId::Inputs, LapAnalysisCardId::Dynamics, LapAnalysisCardId::Tyres, LapAnalysisCardId::Wheels]
    }

    /// The stable key under which this id is persisted.
    pub fn key(self) -> (r: &'static str)
        ensures
            r@ == self.spec_key(),
    {
        match self {
            LapAnalysisCardId::Cursor => "cursor",
            LapAnalysisCardId::ReferenceCursor => "reference_cursor",
            LapAnalysisCardId::Vehicle => "vehicle",
            LapAnalysisCardId::Inputs => "inputs",
            LapAnalysisCardId::Dynamics => "dynamics",
            LapAnalysisCardId::Tyres => "tyres",
            LapAnalysisCardId::Wheels => "wheels",
        }
    }

    /// The id persisted under `key`, if any.
    pub fn from_key(key: &str) -> (r: Option<Self>)
        ensures
            r == Self::spec_from_key(key@),
    {
        if str_eq(key, "cursor") {
            Some(LapAnalysisCardId::Cursor)
        } else if str_eq(key, "reference_cursor") {
            Some(LapAnalysisCardId::ReferenceCursor)
        } else if str_eq(key, "vehicle") {
            Some(LapAnalysisCardId::Vehicle)
        } else if str_eq(key, "inputs") {
            Some(LapAnalysisCardId::Inputs)
        } else if str_eq(key, "dynamics") {
            Some(LapAnalysisCardId::Dynamics)
        } else if str_eq(key, "tyres") {
            Some(LapAnalysisCardId::Tyres)
        } else if str_eq(key, "wheels") {
            Some(LapAnalysisCardId::Wheels)
        } else {
            None
        }
    }

    /// The id whose key is `key`.
    pub open spec fn spec_from_key(key: Seq<char>) -> Option<Self> {
        if key == "cursor"@ {
            Some(LapAnalysisCardId::Cursor)
        } else if key == "reference_cursor"@ {
            Some(LapAnalysisCardId::ReferenceCursor)
        } else if key == "vehicle"@ {
            Some(LapAnalysisCardId::Vehicle)
        } else if key == "inputs"@ {
            Some(LapAnalysisCardId::Inputs)
        } else if key == "dynamics"@ {
            Some(LapAnalysisCardId::Dynamics)
        } else if key == "tyres"@ {
            Some(LapAnalysisCardId::Tyres)
        } else if key == "wheels"@ {
            Some(LapAnalysisCardId::Wheels)
        } else {
            None
        }
    }

    /// `from_key` inverts `key`: it finds an id exactly for the key that id is persisted under.
    pub proof fn lemma_key_round_trip(id: Self, key: Seq<char>)
        ensures
            Self::spec_from_key(id.spec_key()) == Some(id),
            Self::spec_from_key(key) == Some(id) <==> id.spec_key() == key,
            Self::spec_from_key(key) is None <==> forall|other: Self| other.spec_key() != key,
    {
        reveal_strlit("cursor");
        reveal_strlit("reference_cursor");
        reveal_strlit("vehicle");
        reveal_strlit("inputs");
        reveal_strlit("dynamics");
        reveal_strlit("tyres");
        reveal_strlit("wheels");
        assert forall|other: Self| Self::spec_from_key(#[trigger] other.spec_key()) == Some(other) by {
            match other {
                LapAnalysisCardId::Cursor => {
                },
                LapAnalysisCardId::ReferenceCursor => {
                    assert("reference_cursor"@.len() != "cursor"@.len() || "reference_cursor"@[0] != "cursor"@[0]);
                },
                LapAnalysisCardId::Vehicle => {
                    assert("vehicle"@.len() != "cursor"@.len() || "vehicle"@[0] != "cursor"@[0]);
                    assert("vehicle"@.len() != "reference_cursor"@.len() || "vehicle"@[0] != "reference_cursor"@[0]);
                },
                LapAnalysisCardId::Inputs => {
                    assert("inputs"@.len() != "cursor"@.len() || "inputs"@[0] != "cursor"@[0]);
                    assert("inputs"@.len() != "reference_cursor"@.len() || "inputs"@[0] != "reference_cursor"@[0]);
                    assert("inputs"@.len() != "vehicle"@.len() || "inputs"@[0] != "vehicle"@[0]);
                },
                LapAnalysisCardId::Dynamics => {
                    assert("dynamics"@.len() != "cursor"@.len() || "dynamics"@[0] != "cursor"@[0]);
                    assert("dynamics"@.len() != "reference_cursor"@.len() || "dynamics"@[0] != "reference_cursor"@[0]);
                    assert("dynamics"@.len() != "vehicle"@.len() || "dynamics"@[0] != "vehicle"@[0]);
                    assert("dynamics"@.len() != "inputs"@.len() || "dynamics"@[0] != "inputs"@[0]);
                },
                LapAnalysisCardId::Tyres => {
                    assert("tyres"@.len() != "cursor"@.len() || "tyres"@[0] != "cursor"@[0]);
                    assert("tyres"@.len() != "reference_cursor"@.len() || "tyres"@[0] != "reference_cursor"@[0]);
                    assert("tyres"@.len() != "vehicle"@.len() || "tyres"@[0] != "vehicle"@[0]);
                    assert("tyres"@.len() != "inputs"@.len() || "tyres"@[0] != "inputs"@[0]);
                    assert("tyres"@.len() != "dynamics"@.len() || "tyres"@[0] != "dynamics"@[0]);
                },
                LapAnalysisCardId::Wheels => {
                    assert("wheels"@.len() != "cursor"@.len() || "wheels"@[0] != "cursor"@[0]);
                    assert("wheels"@.len() != "reference_cursor"@.len() || "wheels"@[0] != "reference_cursor"@[0]);
                    assert("wheels"@.len() != "vehicle"@.len() || "wheels"@[0] != "vehicle"@[0]);
                    assert("wheels"@.len() != "inputs"@.len() || "wheels"@[0] != "inputs"@[0]);
                    assert("wheels"@.len() != "dynamics"@.len() || "wheels"@[0] != "dynamics"@[0]);
                    assert("wheels"@.len() != "tyres"@.len() || "wheels"@[0] != "tyres"@[0]);
                },
            }
        }
        if forall|other: Self| other.spec_key() != key {
            assert(LapAnalysisCardId::Cursor.spec_key() != key);
            assert(LapAnalysisCardId::ReferenceCursor.spec_key() != key);
            assert(LapAnalysisCardId::Vehicle.spec_key() != key);
            assert(LapAnalysisCardId::Inputs.spec_key() != key);
            assert(LapAnalysisCardId::Dynamics.spec_key() != key);
            assert(LapAnalysisCardId::Tyres.spec_key() != key);
            assert(LapAnalysisCardId::Wheels.spec_key() != key);
        }
        assert(Self::spec_from_key(id.spec_key()) == Some(id));
    }

    /// Distinct ids have distinct keys.
    pub proof fn lemma_key_injective()
        ensures
            forall|a: Self, b: Self| a.spec_key() == b.spec_key() ==> a == b,
    {
        reveal_strlit("cursor");
        reveal_strlit("reference_cursor");
        reveal_strlit("vehicle");
        reveal_strlit("inputs");
        reveal_strlit("dynamics");
        reveal_strlit("tyres");
        reveal_strlit("wheels");
        assert forall|a: Self, b: Self| a.spec_key() == b.spec_key() implies a == b by {
            assert(a.spec_key().len() == b.spec_key().len());
            assert(a.spec_key()[0] == b.spec_key()[0]);
        }
    }

    /// The display title.
    pub fn title(self) -> (r: &'static str)
        ensures
            r@ == self.spec_title(),
    {
        match self {
            LapAnalysisCardId::Cursor => "Cursor",
            LapAnalysisCardId::ReferenceCursor => "Reference cursor",
            LapAnalysisCardId::Vehicle => "Vehicle",
            LapAnalysisCardId::Inputs => "Inputs",
            LapAnalysisCardId::Dynamics => "Dynamics",
            LapAnalysisCardId::Tyres => "Tyres",
            LapAnalysisCardId::Wheels => "Wheels",
        }
    }

    /// The position of this id in declaration order.
    pub fn index(self) -> (r: usize)
        ensures
            r == self.spec_index(),
            r < 7,
    {
        match self {
            LapAnalysisCardId::Cursor => 0,
            LapAnalysisCardId::ReferenceCursor => 1,
            LapAnalysisCardId::Vehicle => 2,
            LapAnalysisCardId::Inputs => 3,
            LapAnalysisCardId::Dynamics => 4,
            LapAnalysisCardId::Tyres => 5,
            LapAnalysisCardId::Wheels => 6,
        }
    }

    /// Every id, in declaration order.
    pub fn all() -> (r: Vec<Self>)
        ensures
            r@ == Self::spec_all(),
    {
        let r = vec![LapAnalysisCardId::Cursor, LapAnalysisCardId::ReferenceCursor, LapAnalysisCardId::Vehicle, LapAnalysisCardId::Inputs, LapAnalysisCardId::Dynamics, LapAnalysisCardId::Tyres, LapAnalysisCardId::Wheels];
        assert(r@ =~= Self::spec_all());
        r
    }

}

impl LayoutId for LapAnalysisCardId {
    open spec fn id_key(self) -> Seq<char> {
        self.spec_key()
    }

    open spec fn id_index(self) -> nat {
        self.spec_index()
    }

    open spec fn id_count() -> nat {
        7
    }

    open spec fn id_from_key(key: Seq<char>) -> Option<Self> {
        Self::spec_from_key(key)
    }

    fn layout_key(self) -> (r: &'static str) {
        self.key()
    }

    fn layout_from_key(key: &str) -> (r: Option<Self>) {
        Self::from_key(key)
    }

    fn layout_index(self) -> (r: usize) {
        self.index()
    }

    fn same(self, other: Self) -> (r: bool) {
        self == other
    }

    proof fn lemma_index_injective(a: Self, b: Self) {
    }

    open spec fn id_all() -> Seq<Self> {
        Self::spec_all()
    }

    proof fn lemma_all(id: Self) {
        Self::lemma_key_round_trip(id, id.spec_key());
        assert forall|i: int| 0 <= i < 7 implies (#[trigger] Self::spec_all()[i]).spec_index() == i by {
            if i == 0 {
                assert(Self::spec_all()[0].spec_index() == 0);
            } else if i == 1 {
                assert(Self::spec_all()[1].spec_index() == 1);
            } else if i == 2 {
                assert(Self::spec_all()[2].spec_index() == 2);
            } else if i == 3 {
                assert(Self::spec_all()[3].spec_index() == 3);
            } else if i == 4 {
                assert(Self::spec_all()[4].spec_index() == 4);
            } else if i == 5 {
                assert(Self::spec_all()[5].spec_index() == 5);
            } else if i == 6 {
                assert(Self::spec_all()[6].spec_index() == 6);
            }
        }
        assert(Self::spec_all()[id.spec_index() as int].spec_index() == id.spec_index());
    }

    proof fn lemma_from_key(key: Seq<char>) {
        match Self::spec_from_key(key) {
            Some(id) => Self::lemma_key_round_trip(id, key),
            None => {},
        }
    }

}

/// Card of the session setup panel.
#[derive(Debug, Clone, Copy, PartialEq, Eq, Structural)]
pub enum SetupCardId {
    Session,
    Reference,
    Laps,
    Charts,
}

impl SetupCardId {
    /// The stable key under which this id is persisted.
    pub open spec fn spec_key(self) -> Seq<char> {
        match self {
            SetupCardId::Session => "session"@,
            SetupCardId::Reference => "reference"@,
            SetupCardId::Laps => "laps"@,
            SetupCardId::Charts => "charts"@,
        }
    }

    /// The display title.
    pub open spec fn spec_title(self) -> Seq<char> {
        match self {
            SetupCardId::Session => "Session"@,
            SetupCardId::Reference => "Reference"@,
            SetupCardId::Laps => "My laps"@,
            SetupCardId::Charts => "Charts"@,
        }
    }

    /// The position of this id in declaration order.
    pub open spec fn spec_index(self) -> nat {
        match self {
            SetupCardId::Session => 0,
            SetupCardId::Reference => 1,
            SetupCardId::Laps => 2,
            SetupCardId::Charts => 3,
        }
    }

    /// Every id, in declaration order.
    pub open spec fn spec_all() -> Seq<SetupCardId> {
        seq![SetupCardId::Session, SetupCardId::Reference, SetupCardId::Laps, SetupCardId::Charts]
    }

    /// The stable key under which this id is persisted.
    pub fn key(self) -> (r: &'static str)
        ensures
            r@ == self.spec_key(),
    {
        match self {
            SetupCardId::Session => "session",
            SetupCardId::Reference => "reference",
            SetupCardId::Laps => "laps",
            SetupCardId::Charts => "charts",
        }
    }

    /// The id persisted under `key`, if any.
    pub fn from_key(key: &str) -> (r: Option<Self>)
        ensures
            r == Self::spec_from_key(key@),
    {
        if str_eq(key, "session") {
            Some(SetupCardId::Session)
        } else if str_eq(key, "reference") {
            Some(SetupCardId::Reference)
        } else if str_eq(key, "laps") {
            Some(SetupCardId::Laps)
        } else if str_eq(key, "charts") {
            Some(SetupCardId::Charts)
        } else {
            None
        }
    }

    /// The id whose key is `key`.
    pub open spec fn spec_from_key(key: Seq<char>) -> Option<Self> {
        if key == "session"@ {
            Some(SetupCardId::Session)
        } else if key == "reference"@ {
            Some(SetupCardId::Reference)
        } else if key == "laps"@ {
            Some(SetupCardId::Laps)
        } else if key == "charts"@ {
            Some(SetupCardId::Charts)
        } else {
            None
        }
    }

    /// `from_key` inverts `key`: it finds an id exactly for the key that id is persisted under.
    pub proof fn lemma_key_round_trip(id: Self, key: Seq<char>)
        ensures
            Self::spec_from_key(id.spec_key()) == Some(id),
            Self::spec_from_key(key) == Some(id) <==> id.spec_key() == key,
            Self::spec_from_key(key) is None <==> forall|other: Self| other.spec_key() != key,
    {
        reveal_strlit("session");
        reveal_strlit("reference");
        reveal_strlit("laps");
        reveal_strlit("charts");
        assert forall|other: Self| Self::spec_from_key(#[trigger] other.spec_key()) == Some(other) by {
            match other {
                SetupCardId::Session => {
                },
                SetupCardId::Reference => {
                    assert("reference"@.len() != "session"@.len() || "reference"@[0] != "session"@[0]);
                },
                SetupCardId::Laps => {
                    assert("laps"@.len() != "session"@.len() || "laps"@[0] != "session"@[0]);
                    assert("laps"@.len() != "reference"@.len() || "laps"@[0] != "reference"@[0]);
                },
                SetupCardId::Charts => {
                    assert("charts"@.len() != "session"@.len() || "charts"@[0] != "session"@[0]);
                    assert("charts"@.len() != "reference"@.len() || "charts"@[0] != "reference"@[0]);
                    assert("charts"@.len() != "laps"@.len() || "charts"@[0] != "laps"@[0]);
                },
            }
        }
        if forall|other: Self| other.spec_key() != key {
            assert(SetupCardId::Session.spec_key() != key);
            assert(SetupCardId::Reference.spec_key() != key);
            assert(SetupCardId::Laps.spec_key() != key);
            assert(SetupCardId::Charts.spec_key() != key);
        }
        assert(Self::spec_from_key(id.spec_key()) == Some(id));
    }

    /// Distinct ids have distinct keys.
    pub proof fn lemma_key_injective()
        ensures
            forall|a: Self, b: Self| a.spec_key() == b.spec_key() ==> a == b,
    {
        reveal_strlit("session");
        reveal_strlit("reference");
        reveal_strlit("laps");
        reveal_strlit("charts");
        assert forall|a: Self, b: Self| a.spec_key() == b.spec_key() implies a == b by {
            assert(a.spec_key().len() == b.spec_key().len());
            assert(a.spec_key()[0] == b.spec_key()[0]);
        }
    }

    /// The display title.
    pub fn title(self) -> (r: &'static str)
        ensures
            r@ == self.spec_title(),
    {
        match self {
            SetupCardId::Session => "Session",
            SetupCardId::Reference => "Reference",
            SetupCardId::Laps => "My laps",
            SetupCardId::Charts => "Charts",
        }
    }

    /// The position of this id in declaration order.
    pub fn index(self) -> (r: usize)
        ensures
            r == self.spec_index(),
            r < 4,
    {
        match self {
            SetupCardId::Session => 0,
            SetupCardId::Reference => 1,
            SetupCardId::Laps => 2,
            SetupCardId::Charts => 3,
        }
    }

    /// Every id, in declaration order.
    pub fn all() -> (r: Vec<Self>)
        ensures
            r@ == Self::spec_all(),
    {
        let r = vec![SetupCardId::Session, SetupCardId::Reference, SetupCardId::Laps, SetupCardId::Charts];
        assert(r@ =~= Self::spec_all());
        r
    }

}

impl LayoutId for SetupCardId {
    open spec fn id_key(self) -> Seq<char> {
        self.spec_key()
    }

    open spec fn id_index(self) -> nat {
        self.spec_index()
    }

    open spec fn id_count() -> nat {
        4
    }

    open spec fn id_from_key(key: Seq<char>) -> Option<Self> {
        Self::spec_from_key(key)
    }

    fn layout_key(self) -> (r: &'static str) {
        self.key()
    }

    fn layout_from_key(key: &str) -> (r: Option<Self>) {
        Self::from_key(key)
    }

    fn layout_index(self) -> (r: usize) {
        self.index()
    }

    fn same(self, other: Self) -> (r: bool) {
        self == other
    }

    proof fn lemma_index_injective(a: Self, b: Self) {
    }

    open spec fn id_all() -> Seq<Self> {
        Self::spec_all()
    }

    proof fn lemma_all(id: Self) {
        Self::lemma_key_round_trip(id, id.spec_key());
        assert forall|i: int| 0 <= i < 4 implies (#[trigger] Self::spec_all()[i]).spec_index() == i by {
            if i == 0 {
                assert(Self::spec_all()[0].spec_index() == 0);
            } else if i == 1 {
                assert(Self::spec_all()[1].spec_index() == 1);
            } else if i == 2 {
                assert(Self::spec_all()[2].spec_index() == 2);
            } else if i == 3 {
                assert(Self::spec_all()[3].spec_index() == 3);
            }
        }
        assert(Self::spec_all()[id.spec_index() as int].spec_index() == id.spec_index());
    }

    proof fn lemma_from_key(key: Seq<char>) {
        match Self::spec_from_key(key) {
            Some(id) => Self::lemma_key_round_trip(id, key),
            None => {},
        }
    }

}

} // verus!
