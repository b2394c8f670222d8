//! Telemetry channels that only some cars or sources publish: each value is
//! kept with whether it is available, so that a missing channel is never
//! taken for a real zero.
use vstd::prelude::*;
use super::frame::F32Bits;

verus! {

/// Whether the single-precision value with bit pattern `bits` is neither
/// infinite nor NaN: its exponent bits are not all ones.
pub open spec fn finite_bits(bits: F32Bits) -> bool {
    (bits.0 >> 23u32) & 0xffu32 != 0xffu32
}

/// Whether `bits` holds a finite single-precision value.
pub fn is_finite_f32(bits: F32Bits) -> (r: bool)
    ensures
        r == finite_bits(bits),
{
    (bits.0 >> 23u32) & 0xffu32 != 0xffu32
}

/// A fixed number of optional single-precision telemetry values.
#[derive(Debug, PartialEq, Eq)]
pub struct OptionalTelemetryValues {
    values: Vec<F32Bits>,
    available: Vec<bool>,
}

impl View for OptionalTelemetryValues {
    type V = Seq<Option<F32Bits>>;

    closed spec fn view(&self) -> Seq<Option<F32Bits>> {
        Seq::new(
            self.values@.len(),
            |i: int|
                if self.available@[i] {
                    Some(self.values@[i])
                } else {
                    None
                },
        )
    }
}

impl OptionalTelemetryValues {
    #[verifier::type_invariant]
    closed spec fn inv(self) -> bool {
        self.values@.len() == self.available@.len()
    }

    /// `len` channels, none of them available.
    pub fn unavailable(len: usize) -> (r: Self)
        ensures
            r@ == Seq::new(len as nat, |i: int| None::<F32Bits>),
    {
        let mut values: Vec<F32Bits> = Vec::new();
        let mut available: Vec<bool> = Vec::new();
        let mut i: usize = 0;
        while i < len
            invariant
                i <= len,
                values@.len() == i,
                available@.len() == i,
                forall|j: int| 0 <= j < i ==> !available@[j],
            decreases len - i,
        {
            values.push(F32Bits(0));
            available.push(false);
            i = i + 1;
        }
        let r = OptionalTelemetryValues { values, available };
        assert(r@ =~= Seq::new(len as nat, |i: int| None::<F32Bits>));
        r
    }

    /// The channels of `values`, each available where it is present.
    pub fn from_options(values: &[Option<F32Bits>]) -> (r: Self)
        ensures
            r@ == values@,
    {
        let mut stored: Vec<F32Bits> = Vec::new();
        let mut available: Vec<bool> = Vec::new();
        let mut i: usize = 0;
        while i < values.len()
            invariant
                i <= values@.len(),
                stored@.len() == i,
                available@.len() == i,
                forall|j: int|
                    0 <= j < i ==> (if available@[j] {
                        Some(stored@[j])
                    } else {
                        None
                    }) == values@[j],
            decreases values@.len() - i,
        {
            match values[i] {
                Some(value) => {
                    stored.push(value);
                    available.push(true);
                },
                None => {
                    stored.push(F32Bits(0));
                    available.push(false);
                },
            }
            i = i + 1;
        }
        let r = OptionalTelemetryValues { values: stored, available };
        assert(r@ =~= values@);
        r
    }

    /// The number of channels.
    pub fn len(&self) -> (r: usize)
        ensures
            r == self@.len(),
    {
        self.values.len()
    }

    /// The value of channel `index`, when it is available.
    pub fn get(&self, index: usize) -> (r: Option<F32Bits>)
        ensures
            r == (if index < self@.len() {
                self@[index as int]
            } else {
                None
            }),
    {
        proof {
            use_type_invariant(self);
        }
        if index < self.available.len() && self.available[index] {
            Some(self.values[index])
        } else {
            None
        }
    }

    /// Every channel, in order.
    pub fn to_options(&self) -> (r: Vec<Option<F32Bits>>)
        ensures
            r@ == self@,
    {
        proof {
            use_type_invariant(self);
        }
        let mut out: Vec<Option<F32Bits>> = Vec::new();
        let mut i: usize = 0;
        while i < self.values.len()
            invariant
                i <= self.values@.len(),
                self.values@.len() == self.available@.len(),
                out@ == self@.take(i as int),
            decreases self.values@.len() - i,
        {
            out.push(if self.available[i] {
                Some(self.values[i])
            } else {
                None
            });
            i = i + 1;
            assert(out@ =~= self@.take(i as int));
        }
        assert(self@.take(self@.len() as int) =~= self@);
        out
    }

    /// Whether every available value is finite; missing channels do not count.
    pub fn is_finite(&self) -> (r: bool)
        ensures
            r == (forall|i: int|
                0 <= i < self@.len() ==> (#[trigger] self@[i] matches Some(b) ==> finite_bits(b))),
    {
        proof {
            use_type_invariant(self);
        }
        let mut i: usize = 0;
        while i < self.values.len()
            invariant
                i <= self.values@.len(),
                self.values@.len() == self.available@.len(),
                forall|j: int| 0 <= j < i ==> (#[trigger] self@[j] matches Some(b) ==> finite_bits(b)),
            decreases self.values@.len() - i,
        {
            if self.available[i] && !is_finite_f32(self.values[i]) {
                assert(self@[i as int] == Some(self.values@[i as int]));
                return false;
            }
            i = i + 1;
        }
        true
    }
}

/// Whether every value of `values` is finite.
pub open spec fn all_finite(values: Seq<F32Bits>) -> bool {
    forall|i: int| 0 <= i < values.len() ==> finite_bits(#[trigger] values[i])
}

/// Whether every available value of `values` is finite.
pub open spec fn available_finite(values: Seq<Option<F32Bits>>) -> bool {
    forall|i: int| 0 <= i < values.len() ==> (#[trigger] values[i] matches Some(b) ==> finite_bits(b))
}

/// Whether every value of `values` is finite.
pub fn all_finite_f32(values: &[F32Bits]) -> (r: bool)
    ensures
        r == all_finite(values@),
{
    let mut i: usize = 0;
    while i < values.len()
        invariant
            i <= values@.len(),
            forall|j: int| 0 <= j < i ==> finite_bits(#[trigger] values@[j]),
        decreases values@.len() - i,
    {
        if !is_finite_f32(values[i]) {
            return false;
        }
        i = i + 1;
    }
    true
}

/// A snapshot of the telemetry that the desktop reads. Distances are in
/// metres, lap times in milliseconds, temperatures in Celsius, speed in
/// kilometres per hour, and pedal inputs in `0.0..=1.0`; each floating-point
/// value is held as its bit pattern.
#[derive(Debug, PartialEq, Eq)]
pub struct TelemetrySample {
    pub packet_id: i32,
    pub speed_kmh: F32Bits,
    pub rpm: i32,
    /// iRacing's encoding: -1 is reverse, 0 neutral, 1 and up the forward gears.
    pub gear: i32,
    pub throttle: F32Bits,
    pub brake: F32Bits,
    pub clutch: F32Bits,
    pub steering_angle: F32Bits,
    pub fuel_litres: F32Bits,
    pub acceleration_g: [F32Bits; 3],
    pub yaw_rate_rad_s: F32Bits,
    pub wheel_slip: [F32Bits; 4],
    pub tyre_core_temperature_c: [F32Bits; 4],
    pub suspension_travel_m: [F32Bits; 4],
    /// Brake-line pressure at LF, RF, LR and RR; only recorded telemetry has it.
    pub brake_line_pressure_bar: OptionalTelemetryValues,
    pub abs_active: Option<bool>,
    pub steering_wheel_torque_nm: OptionalTelemetryValues,
    /// Carcass temperatures of LF, RF, LR and RR, inner, middle and outer each.
    pub tyre_carcass_temperature_imo_c: OptionalTelemetryValues,
    /// Hot tyre pressure at LF, RF, LR and RR; only recorded telemetry has it.
    pub tyre_pressure_kpa: OptionalTelemetryValues,
    pub current_lap_ms: i32,
    pub last_lap_ms: i32,
    pub best_lap_ms: i32,
    pub completed_laps: i32,
    pub position: i32,
    pub in_pit: bool,
    pub normalized_car_position: F32Bits,
    pub session_time_left_s: F32Bits,
}

/// Whether every floating-point value of the sample is finite, its
/// unavailable channels aside.
pub open spec fn sample_is_finite(s: TelemetrySample) -> bool {
    &&& all_finite(
        seq![
            s.speed_kmh,
            s.throttle,
            s.brake,
            s.clutch,
            s.steering_angle,
            s.fuel_litres,
            s.yaw_rate_rad_s,
            s.normalized_car_position,
            s.session_time_left_s,
        ],
    )
    &&& all_finite(s.acceleration_g@)
    &&& all_finite(s.wheel_slip@)
    &&& all_finite(s.tyre_core_temperature_c@)
    &&& all_finite(s.suspension_travel_m@)
    &&& available_finite(s.brake_line_pressure_bar@)
    &&& available_finite(s.steering_wheel_torque_nm@)
    &&& available_finite(s.tyre_carcass_temperature_imo_c@)
    &&& available_finite(s.tyre_pressure_kpa@)
}

impl Default for TelemetrySample {
    fn default() -> (r: Self)
        ensures
            r.packet_id == 0 && r.rpm == 0 && r.gear == 0,
            r.speed_kmh == F32Bits(0),
            r.brake_line_pressure_bar@.len() == 4,
            r.steering_wheel_torque_nm@.len() == 1,
            r.tyre_carcass_temperature_imo_c@.len() == 12,
            r.tyre_pressure_kpa@.len() == 4,
            available_finite(r.brake_line_pressure_bar@),
            available_finite(r.steering_wheel_torque_nm@),
            available_finite(r.tyre_carcass_temperature_imo_c@),
            available_finite(r.tyre_pressure_kpa@),
            sample_is_finite(r),
    {
        let zero = F32Bits(0);
        let r = TelemetrySample {
            packet_id: 0,
            speed_kmh: zero,
            rpm: 0,
            gear: 0,
            throttle: zero,
            brake: zero,
            clutch: zero,
            steering_angle: zero,
            fuel_litres: zero,
            acceleration_g: [zero, zero, zero],
            yaw_rate_rad_s: zero,
            wheel_slip: [zero, zero, zero, zero],
            tyre_core_temperature_c: [zero, zero, zero, zero],
            suspension_travel_m: [zero, zero, zero, zero],
            brake_line_pressure_bar: OptionalTelemetryValues::unavailable(4),
            abs_active: None,
            steering_wheel_torque_nm: OptionalTelemetryValues::unavailable(1),
            tyre_carcass_temperature_imo_c: OptionalTelemetryValues::unavailable(12),
            tyre_pressure_kpa: OptionalTelemetryValues::unavailable(4),
            current_lap_ms: 0,
            last_lap_ms: 0,
            best_lap_ms: 0,
            completed_laps: 0,
            position: 0,
            in_pit: false,
            normalized_car_position: zero,
            session_time_left_s: zero,
        };
        assert((0u32 >> 23u32) & 0xffu32 != 0xffu32) by (bit_vector);
        assert(finite_bits(zero));
        r
    }
}

impl TelemetrySample {
    /// Whether every floating-point value is finite; channels that are not
    /// available do not count.
    pub fn is_finite(&self) -> (r: bool)
        ensures
            r == sample_is_finite(*self),
    {
        let scalars = [
            self.speed_kmh,
            self.throttle,
            self.brake,
            self.clutch,
            self.steering_angle,
            self.fuel_litres,
            self.yaw_rate_rad_s,
            self.normalized_car_position,
            self.session_time_left_s,
        ];
        let a = all_finite_f32(&scalars);
        assert(scalars@ =~= seq![
            self.speed_kmh,
            self.throttle,
            self.brake,
            self.clutch,
            self.steering_angle,
            self.fuel_litres,
            self.yaw_rate_rad_s,
            self.normalized_car_position,
            self.session_time_left_s,
        ]);
        a && all_finite_f32(&self.acceleration_g) && all_finite_f32(&self.wheel_slip)
            && all_finite_f32(&self.tyre_core_temperature_c) && all_finite_f32(
            &self.suspension_travel_m,
        ) && self.brake_line_pressure_bar.is_finite() && self.steering_wheel_torque_nm.is_finite()
            && self.tyre_carcass_temperature_imo_c.is_finite() && self.tyre_pressure_kpa.is_finite()
    }
}

} // verus!
