//! Direct HID force-feedback driver for SIMAGIC wheelbases.
//!
//! This driver synthesizes, without hardware, the exact byte sequence the
//! device would receive over the wire. The command format was reverse-
//! engineered from USB packet captures; several codes are assumed rather
//! than confirmed and are preserved exactly as documented.

use crate::effects::ConditionParams;
use crate::effects::ConditionType;
use crate::effects::Effect;
use crate::effects::WaveType;
use crate::error::FFBError;
use crate::error::FFBResult;
use crate::hex::format_decimal_u8;
use crate::hex::format_hex;
use crate::hex::format_hex_byte;
use crate::hex::spec_decimal_u8;
use crate::hex::spec_hex_byte;
use crate::hex::spec_hex_line;
use vstd::prelude::*;

verus! {

/// HID report structure for SIMAGIC FFB commands.
/// All reports are 21 bytes with report ID 0x01.
#[derive(Clone, Copy, Debug)]
pub struct FfbReport {
    /// Always 0x01.
    pub report_id: u8,
    /// Command type.
    pub command: u8,
    /// Effect type.
    pub effect_type: u8,
    /// Command-specific data.
    pub data: [u8; 18],
}

impl Default for FfbReport {
    fn default() -> (r: FfbReport)
        ensures
            r.report_id == 0x01u8,
            r.command == 0x00u8,
            r.effect_type == 0x00u8,
            r.data@.len() == 18,
            forall|i: int| 0 <= i < 18 ==> r.data@[i] == 0u8,
    {
        FfbReport { report_id: 0x01, command: 0x00, effect_type: 0x00, data: [0u8; 18] }
    }
}

impl FfbReport {
    /// The 21 wire bytes of this report: id, command, effect type, data.
    pub fn to_bytes(&self) -> (r: [u8; 21])
        ensures
            r@ == seq![self.report_id, self.command, self.effect_type] + self.data@,
    {
        let b: [u8; 21] = [
            self.report_id,
            self.command,
            self.effect_type,
            self.data[0],
            self.data[1],
            self.data[2],
            self.data[3],
            self.data[4],
            self.data[5],
            self.data[6],
            self.data[7],
            self.data[8],
            self.data[9],
            self.data[10],
            self.data[11],
            self.data[12],
            self.data[13],
            self.data[14],
            self.data[15],
            self.data[16],
            self.data[17],
        ];
        proof {
            assert(b@ =~= seq![self.report_id, self.command, self.effect_type] + self.data@);
        }
        b
    }
}

/// Command types of the SIMAGIC FFB protocol.
#[derive(Clone, Copy, Debug, PartialEq, Eq, Structural)]
pub enum FfbCommand {
    /// Set effect parameters (duration, etc.).
    SetEffect,
    /// Set condition effect parameters.
    SetConditionParams,
    /// Set constant force magnitude.
    SetConstantMagnitude,
    /// Start/run effect.
    StartEffect,
    /// Stop effect (assumed).
    StopEffect,
}

/// The wire byte of a command.
pub open spec fn spec_command_code(c: FfbCommand) -> u8 {
    match c {
        FfbCommand::SetEffect => 0x01u8,
        FfbCommand::SetConditionParams => 0x03u8,
        FfbCommand::SetConstantMagnitude => 0x05u8,
        FfbCommand::StartEffect => 0x0Au8,
        FfbCommand::StopEffect => 0x0Bu8,
    }
}

impl FfbCommand {
    /// The wire byte of this command.
    pub fn code(&self) -> (r: u8)
        ensures
            r == spec_command_code(*self),
    {
        match self {
            FfbCommand::SetEffect => 0x01,
            FfbCommand::SetConditionParams => 0x03,
            FfbCommand::SetConstantMagnitude => 0x05,
            FfbCommand::StartEffect => 0x0A,
            FfbCommand::StopEffect => 0x0B,
        }
    }
}

/// Effect types of the SIMAGIC FFB protocol. Several codes are assumed from
/// incomplete captures and must be emitted as documented, not corrected.
#[derive(Clone, Copy, Debug, PartialEq, Eq, Structural)]
pub enum SimagicEffectType {
    Constant,
    Sine,
    Damper,
    Spring,
    Ramp,
    Square,
    Triangle,
    /// Assumed.
    SawtoothUp,
    /// Assumed.
    SawtoothDown,
    /// Confirmed from captures.
    Friction,
    /// Confirmed from captures (not 0x08).
    Inertia,
}

/// The wire byte of an effect type.
pub open spec fn spec_effect_type_code(t: SimagicEffectType) -> u8 {
    match t {
        SimagicEffectType::Constant => 0x01u8,
        SimagicEffectType::Sine => 0x02u8,
        SimagicEffectType::Damper => 0x05u8,
        SimagicEffectType::Spring => 0x06u8,
        SimagicEffectType::Ramp => 0x0Eu8,
        SimagicEffectType::Square => 0x0Fu8,
        SimagicEffectType::Triangle => 0x10u8,
        SimagicEffectType::SawtoothUp => 0x11u8,
        SimagicEffectType::SawtoothDown => 0x12u8,
        SimagicEffectType::Friction => 0x07u8,
        SimagicEffectType::Inertia => 0x09u8,
    }
}

/// The protocol effect type of a model effect.
pub open spec fn spec_effect_type_of(effect: Effect) -> SimagicEffectType {
    match effect {
        Effect::Constant { .. } => SimagicEffectType::Constant,
        Effect::Periodic { effect, .. } => match effect.wave_type {
            WaveType::Sine => SimagicEffectType::Sine,
            WaveType::Square => SimagicEffectType::Square,
            WaveType::Triangle => SimagicEffectType::Triangle,
            WaveType::SawtoothUp => SimagicEffectType::SawtoothUp,
            WaveType::SawtoothDown => SimagicEffectType::SawtoothDown,
        },
        Effect::Ramp { .. } => SimagicEffectType::Ramp,
        Effect::Condition { effect, .. } => match effect.condition_type {
            ConditionType::Spring => SimagicEffectType::Spring,
            ConditionType::Damper => SimagicEffectType::Damper,
            ConditionType::Friction => SimagicEffectType::Friction,
            ConditionType::Inertia => SimagicEffectType::Inertia,
        },
    }
}

impl SimagicEffectType {
    /// The wire byte of this effect type.
    pub fn code(&self) -> (r: u8)
        ensures
            r == spec_effect_type_code(*self),
    {
        match self {
            SimagicEffectType::Constant => 0x01,
            SimagicEffectType::Sine => 0x02,
            SimagicEffectType::Damper => 0x05,
            SimagicEffectType::Spring => 0x06,
            SimagicEffectType::Ramp => 0x0E,
            SimagicEffectType::Square => 0x0F,
            SimagicEffectType::Triangle => 0x10,
            SimagicEffectType::SawtoothUp => 0x11,
            SimagicEffectType::SawtoothDown => 0x12,
            SimagicEffectType::Friction => 0x07,
            SimagicEffectType::Inertia => 0x09,
        }
    }

    /// The protocol effect type for a model effect (and, for periodic
    /// effects, its wave shape; for condition effects, its condition kind).
    pub fn of_effect(effect: &Effect) -> (r: SimagicEffectType)
        ensures
            r == spec_effect_type_of(*effect),
    {
        match effect {
            Effect::Constant { .. } => SimagicEffectType::Constant,
            Effect::Periodic { effect, .. } => match effect.wave_type {
                WaveType::Sine => SimagicEffectType::Sine,
                WaveType::Square => SimagicEffectType::Square,
                WaveType::Triangle => SimagicEffectType::Triangle,
                WaveType::SawtoothUp => SimagicEffectType::SawtoothUp,
                WaveType::SawtoothDown => SimagicEffectType::SawtoothDown,
            },
            Effect::Ramp { .. } => SimagicEffectType::Ramp,
            Effect::Condition { effect, .. } => match effect.condition_type {
                ConditionType::Spring => SimagicEffectType::Spring,
                ConditionType::Damper => SimagicEffectType::Damper,
                ConditionType::Friction => SimagicEffectType::Friction,
                ConditionType::Inertia => SimagicEffectType::Inertia,
            },
        }
    }
}

/// The 16-bit two's-complement bit pattern of a signed value in the i16
/// range, as an integer in 0..65536.
pub open spec fn spec_i16_bits(n: int) -> int {
    if n >= 0 {
        n
    } else {
        n + 65536
    }
}

/// Low byte of a little-endian 16-bit value.
pub open spec fn spec_le_lo(n: int) -> u8 {
    (n % 256) as u8
}

/// High byte of a little-endian 16-bit value.
pub open spec fn spec_le_hi(n: int) -> u8 {
    ((n / 256) % 256) as u8
}

fn u16_le(v: u16) -> (r: (u8, u8))
    ensures
        r.0 == spec_le_lo(v as int),
        r.1 == spec_le_hi(v as int),
{
    ((v % 256) as u8, (v / 256) as u8)
}

fn i16_le(v: i16) -> (r: (u8, u8))
    ensures
        r.0 == spec_le_lo(spec_i16_bits(v as int)),
        r.1 == spec_le_hi(spec_i16_bits(v as int)),
{
    let n: i32 = v as i32;
    let bits: u32 = if n >= 0 {
        n as u32
    } else {
        (n + 65536) as u32
    };
    ((bits % 256) as u8, (bits / 256) as u8)
}

/// Magnitude quantization of the constant-force command. The device path
/// scales through the native -32767..32767 range and back, which collapses
/// magnitude 1 to 0, keeps 0 and the extremes unchanged, and moves every
/// other value one unit toward zero.
pub open spec fn spec_quantize_magnitude(m: int) -> int {
    if m == 1 {
        0
    } else if m == 0 || m == 10000 || m == -10000 {
        m
    } else if m > 0 {
        m - 1
    } else {
        m + 1
    }
}

/// Quantize a constant-force magnitude as the wire format requires.
pub fn quantize_magnitude(magnitude: i16) -> (r: i16)
    ensures
        r == spec_quantize_magnitude(magnitude as int),
{
    if magnitude == 1 {
        0
    } else if magnitude == 10000 || magnitude == -10000 || magnitude == 0 {
        magnitude
    } else if magnitude > 0 {
        magnitude - 1
    } else {
        magnitude + 1
    }
}

/// Condition center offset on the wire: `offset / 3.28`, rounded away from
/// zero (up for non-negative values, down for negative ones).
pub open spec fn spec_encode_condition_offset(o: int) -> int {
    if o >= 0 {
        (o * 25 + 81) / 82
    } else {
        -(((-o) * 25 + 81) / 82)
    }
}

/// Encode a condition center offset for the wire.
pub fn encode_condition_offset(offset: i16) -> (r: i16)
    ensures
        r == spec_encode_condition_offset(offset as int),
{
    if offset >= 0 {
        let v: u32 = offset as u32;
        ((v * 25 + 81) / 82) as i16
    } else {
        let v: u32 = (-(offset as i32)) as u32;
        let m: u32 = (v * 25 + 81) / 82;
        (-(m as i32)) as i16
    }
}

/// Condition coefficient on the wire: unchanged at 0 or at/above 10000,
/// otherwise decremented by one unit.
pub open spec fn spec_encode_condition_coefficient(c: int) -> int {
    if c == 0 || c >= 10000 {
        c
    } else {
        c - 1
    }
}

/// Encode a condition coefficient for the wire.
pub fn encode_condition_coefficient(coefficient: i16) -> (r: i16)
    requires
        coefficient != i16::MIN,
    ensures
        r == spec_encode_condition_coefficient(coefficient as int),
{
    if coefficient == 0 || coefficient >= 10000 {
        coefficient
    } else {
        coefficient - 1
    }
}

/// Condition saturation on the wire: `saturation / 2 - 1`, saturating at 0.
pub open spec fn spec_encode_condition_saturation(s: int) -> int {
    if s / 2 >= 1 {
        s / 2 - 1
    } else {
        0
    }
}

/// Encode a condition saturation for the wire.
pub fn encode_condition_saturation(saturation: u16) -> (r: u16)
    ensures
        r == spec_encode_condition_saturation(saturation as int),
{
    let h = saturation / 2;
    if h >= 1 {
        h - 1
    } else {
        0
    }
}

/// Condition dead band on the wire: `dead_band / 6.56` rounded strictly up
/// (a value landing exactly on an integer still rounds up, an observed
/// quirk of the device's conversion); 0 stays 0.
pub open spec fn spec_encode_dead_band(d: int) -> int {
    if d == 0 {
        0
    } else {
        d * 25 / 164 + 1
    }
}

/// Encode a condition dead band for the wire.
pub fn encode_dead_band(dead_band: u16) -> (r: u16)
    ensures
        r == spec_encode_dead_band(dead_band as int),
{
    if dead_band == 0 {
        0
    } else {
        let v: u32 = dead_band as u32;
        (v * 25 / 164 + 1) as u16
    }
}

/// The SET_EFFECT report: slot, duration clamped to 0xFFFF little-endian,
/// start delay 0, then protocol constants of unknown meaning observed in
/// captures (0x00 0x00, 0xFF 0xFF, 0x04 0x3F), emitted unchanged.
pub open spec fn spec_set_effect_report(t: SimagicEffectType, duration_ms: u32) -> Seq<u8> {
    let dur: int = if duration_ms > 0xFFFF {
        0xFFFF
    } else {
        duration_ms as int
    };
    seq![
        0x01u8,
        spec_command_code(FfbCommand::SetEffect),
        spec_effect_type_code(t),
        0x01u8,
        spec_le_lo(dur),
        spec_le_hi(dur),
        0x00u8,
        0x00u8,
        0x00u8,
        0x00u8,
        0xFFu8,
        0xFFu8,
        0x04u8,
        0x3Fu8,
        0u8,
        0u8,
        0u8,
        0u8,
        0u8,
        0u8,
        0u8,
    ]
}

/// The SET_CONSTANT_MAGNITUDE report: the quantized magnitude little-endian;
/// the effect-type byte carries the effect slot.
pub open spec fn spec_set_constant_magnitude_report(effect_slot: u8, magnitude: i16) -> Seq<u8> {
    let bits = spec_i16_bits(spec_quantize_magnitude(magnitude as int));
    seq![
        0x01u8,
        spec_command_code(FfbCommand::SetConstantMagnitude),
        effect_slot,
        spec_le_lo(bits),
        spec_le_hi(bits),
        0u8,
        0u8,
        0u8,
        0u8,
        0u8,
        0u8,
        0u8,
        0u8,
        0u8,
        0u8,
        0u8,
        0u8,
        0u8,
        0u8,
        0u8,
        0u8,
    ]
}

/// The SET_CONDITION_PARAMS report: each encoded field little-endian at its
/// documented byte offset.
pub open spec fn spec_set_condition_params_report(t: SimagicEffectType, p: ConditionParams) -> Seq<
    u8,
> {
    let off = spec_i16_bits(spec_encode_condition_offset(p.offset as int));
    let pc = spec_i16_bits(spec_encode_condition_coefficient(p.positive_coefficient as int));
    let nc = spec_i16_bits(spec_encode_condition_coefficient(p.negative_coefficient as int));
    let ps = spec_encode_condition_saturation(p.positive_saturation as int);
    let ns = spec_encode_condition_saturation(p.negative_saturation as int);
    let db = spec_encode_dead_band(p.dead_band as int);
    seq![
        0x01u8,
        spec_command_code(FfbCommand::SetConditionParams),
        spec_effect_type_code(t),
        0x00u8,
        spec_le_lo(off),
        spec_le_hi(off),
        spec_le_lo(pc),
        spec_le_hi(pc),
        spec_le_lo(nc),
        spec_le_hi(nc),
        spec_le_lo(ps),
        spec_le_hi(ps),
        spec_le_lo(ns),
        spec_le_hi(ns),
        spec_le_lo(db),
        spec_le_hi(db),
        0u8,
        0u8,
        0u8,
        0u8,
        0u8,
    ]
}

/// The START_EFFECT report: slot, then play count 1 (play once).
pub open spec fn spec_start_effect_report(t: SimagicEffectType, effect_slot: u8) -> Seq<u8> {
    seq![
        0x01u8,
        spec_command_code(FfbCommand::StartEffect),
        spec_effect_type_code(t),
        effect_slot,
        0x01u8,
        0u8,
        0u8,
        0u8,
        0u8,
        0u8,
        0u8,
        0u8,
        0u8,
        0u8,
        0u8,
        0u8,
        0u8,
        0u8,
        0u8,
        0u8,
        0u8,
    ]
}

/// The STOP_EFFECT report (assumed command): slot only.
pub open spec fn spec_stop_effect_report(t: SimagicEffectType, effect_slot: u8) -> Seq<u8> {
    seq![
        0x01u8,
        spec_command_code(FfbCommand::StopEffect),
        spec_effect_type_code(t),
        effect_slot,
        0u8,
        0u8,
        0u8,
        0u8,
        0u8,
        0u8,
        0u8,
        0u8,
        0u8,
        0u8,
        0u8,
        0u8,
        0u8,
        0u8,
        0u8,
        0u8,
        0u8,
    ]
}

/// The report sequence the direct encoder emits for an effect, in emission
/// order. Constant effects prepend a magnitude report unless the magnitude
/// is one of the observed no-op values 0 and -1; periodic and ramp effects
/// have no dedicated shape report (a documented protocol gap); condition
/// effects prepend their X-axis parameter report.
pub open spec fn spec_apply_reports(e: Effect, slot: u8) -> Seq<Seq<u8>> {
    let t = spec_effect_type_of(e);
    match e {
        Effect::Constant { params, force } => {
            let tail = seq![
                spec_set_effect_report(t, params.duration),
                spec_start_effect_report(t, slot),
            ];
            if force.magnitude != 0 && force.magnitude != -1 {
                seq![spec_set_constant_magnitude_report(slot, force.magnitude)] + tail
            } else {
                tail
            }
        },
        Effect::Periodic { params, .. } => seq![
            spec_set_effect_report(t, params.duration),
            spec_start_effect_report(t, slot),
        ],
        Effect::Ramp { params, .. } => seq![
            spec_set_effect_report(t, params.duration),
            spec_start_effect_report(t, slot),
        ],
        Effect::Condition { params, effect } => seq![
            spec_set_condition_params_report(t, effect.x_axis),
            spec_set_effect_report(t, params.duration),
            spec_start_effect_report(t, slot),
        ],
    }
}

/// The hex lines the direct encoder returns for an effect: each report of
/// `spec_apply_reports`, formatted as space-separated uppercase hex pairs.
pub open spec fn spec_apply_hex(e: Effect, slot: u8) -> Seq<Seq<char>> {
    spec_apply_reports(e, slot).map_values(|r: Seq<u8>| spec_hex_line(r))
}

/// Direct HID FFB device driver.
pub struct SimagicDriver {
    /// Current effect slot.
    current_effect_slot: u8,
    /// Whether the device is initialized.
    initialized: bool,
}

impl SimagicDriver {
    /// Whether `initialize` has completed and `shutdown` has not.
    pub closed spec fn spec_initialized(&self) -> bool {
        self.initialized
    }

    /// The effect slot the driver writes into.
    pub closed spec fn spec_slot(&self) -> u8 {
        self.current_effect_slot
    }

    pub fn new() -> (r: SimagicDriver)
        ensures
            r.spec_slot() == 1u8,
            !r.spec_initialized(),
    {
        SimagicDriver { current_effect_slot: 1, initialized: false }
    }

    /// Create the SET_EFFECT command report.
    pub fn create_set_effect_report(&self, effect_type: SimagicEffectType, duration_ms: u32) -> (r:
        [u8; 21])
        ensures
            r@ == spec_set_effect_report(effect_type, duration_ms),
    {
        let mut report = FfbReport::default();
        report.command = FfbCommand::SetEffect.code();
        report.effect_type = effect_type.code();
        let duration: u16 = if duration_ms > 0xFFFF {
            0xFFFF
        } else {
            duration_ms as u16
        };
        let (dlo, dhi) = u16_le(duration);
        report.data = [
            0x01,
            dlo,
            dhi,
            0x00,
            0x00,
            0x00,
            0x00,
            0xFF,
            0xFF,
            0x04,
            0x3F,
            0x00,
            0x00,
            0x00,
            0x00,
            0x00,
            0x00,
            0x00,
        ];
        let bytes = report.to_bytes();
        proof {
            assert(bytes@ =~= spec_set_effect_report(effect_type, duration_ms));
        }
        bytes
    }

    /// Create the SET_CONSTANT_MAGNITUDE command report.
    pub fn create_set_constant_magnitude_report(&self, effect_slot: u8, magnitude: i16) -> (r: [u8;
        21])
        ensures
            r@ == spec_set_constant_magnitude_report(effect_slot, magnitude),
    {
        let mut report = FfbReport::default();
        report.command = FfbCommand::SetConstantMagnitude.code();
        report.effect_type = effect_slot;
        let adjusted = quantize_magnitude(magnitude);
        let (mlo, mhi) = i16_le(adjusted);
        report.data = [
            mlo,
            mhi,
            0x00,
            0x00,
            0x00,
            0x00,
            0x00,
            0x00,
            0x00,
            0x00,
            0x00,
            0x00,
            0x00,
            0x00,
            0x00,
            0x00,
            0x00,
            0x00,
        ];
        let bytes = report.to_bytes();
        proof {
            assert(bytes@ =~= spec_set_constant_magnitude_report(effect_slot, magnitude));
        }
        bytes
    }

    /// Create the SET_CONDITION_PARAMS command report (X axis only).
    #[verifier::rlimit(50)]
    pub fn create_set_condition_params_report(
        &self,
        effect_type: SimagicEffectType,
        params: &ConditionParams,
    ) -> (r: [u8; 21])
        requires
            params.positive_coefficient != i16::MIN,
            params.negative_coefficient != i16::MIN,
        ensures
            r@ == spec_set_condition_params_report(effect_type, *params),
    {
        let mut report = FfbReport::default();
        report.command = FfbCommand::SetConditionParams.code();
        report.effect_type = effect_type.code();
        let (off_lo, off_hi) = i16_le(encode_condition_offset(params.offset));
        let (pc_lo, pc_hi) = i16_le(encode_condition_coefficient(params.positive_coefficient));
        let (nc_lo, nc_hi) = i16_le(encode_condition_coefficient(params.negative_coefficient));
        let (ps_lo, ps_hi) = u16_le(encode_condition_saturation(params.positive_saturation));
        let (ns_lo, ns_hi) = u16_le(encode_condition_saturation(params.negative_saturation));
        let (db_lo, db_hi) = u16_le(encode_dead_band(params.dead_band));
        report.data = [
            0x00,
            off_lo,
            off_hi,
            pc_lo,
            pc_hi,
            nc_lo,
            nc_hi,
            ps_lo,
            ps_hi,
            ns_lo,
            ns_hi,
            db_lo,
            db_hi,
            0x00,
            0x00,
            0x00,
            0x00,
            0x00,
        ];
        let bytes = report.to_bytes();
        proof {
            assert(bytes@ =~= spec_set_condition_params_report(effect_type, *params));
        }
        bytes
    }

    /// Create the START_EFFECT command report.
    pub fn create_start_effect_report(&self, effect_type: SimagicEffectType, effect_slot: u8) -> (r:
        [u8; 21])
        ensures
            r@ == spec_start_effect_report(effect_type, effect_slot),
    {
        let mut report = FfbReport::default();
        report.command = FfbCommand::StartEffect.code();
        report.effect_type = effect_type.code();
        report.data = [
            effect_slot,
            0x01,
            0x00,
            0x00,
            0x00,
            0x00,
            0x00,
            0x00,
            0x00,
            0x00,
            0x00,
            0x00,
            0x00,
            0x00,
            0x00,
            0x00,
            0x00,
            0x00,
        ];
        let bytes = report.to_bytes();
        proof {
            assert(bytes@ =~= spec_start_effect_report(effect_type, effect_slot));
        }
        bytes
    }

    /// Create the STOP_EFFECT command report (assumed command).
    pub fn create_stop_effect_report(&self, effect_type: SimagicEffectType, effect_slot: u8) -> (r:
        [u8; 21])
        ensures
            r@ == spec_stop_effect_report(effect_type, effect_slot),
    {
        let mut report = FfbReport::default();
        report.command = FfbCommand::StopEffect.code();
        report.effect_type = effect_type.code();
        report.data = [
            effect_slot,
            0x00,
            0x00,
            0x00,
            0x00,
            0x00,
            0x00,
            0x00,
            0x00,
            0x00,
            0x00,
            0x00,
            0x00,
            0x00,
            0x00,
            0x00,
            0x00,
            0x00,
        ];
        let bytes = report.to_bytes();
        proof {
            assert(bytes@ =~= spec_stop_effect_report(effect_type, effect_slot));
        }
        bytes
    }

    /// Format a report as a hex string for display.
    pub fn format_report(report: &[u8; 21]) -> (r: String)
        ensures
            r@ == spec_hex_line(report@),
    {
        format_hex(report.as_slice())
    }

    /// Mark the device as initialized. The hardware-free driver has no
    /// device to enumerate, so this cannot fail.
    pub fn initialize(&mut self) -> (r: FFBResult<()>)
        ensures
            final(self).spec_initialized(),
            final(self).spec_slot() == old(self).spec_slot(),
            r matches Ok(()),
    {
        self.initialized = true;
        Ok(())
    }

    /// Synthesize the wire reports for one effect, in emission order, as hex
    /// strings. Fails if and only if the driver is not initialized.
    pub fn apply_effect(&mut self, effect: &Effect) -> (r: FFBResult<Vec<String>>)
        requires
            effect.spec_condition_coeffs_above_min(),
        ensures
            *final(self) == *old(self),
            old(self).spec_initialized() <==> (r matches Ok(lines) && lines.deep_view()
                == spec_apply_hex(*effect, old(self).spec_slot())),
            !old(self).spec_initialized() <==> (r matches Err(FFBError::DeviceError(m)) && m@
                == "Device not initialized"@),
    {
        if !self.initialized {
            return Err(FFBError::DeviceError(String::from_str("Device not initialized")));
        }
        let effect_type = SimagicEffectType::of_effect(effect);
        let mut generated_reports: Vec<String> = Vec::new();
        match effect {
            Effect::Constant { params, force } => {
                // Observed device behavior: magnitudes 0 and -1 are no-ops,
                // so no magnitude report is sent for them.
                if force.magnitude != 0 && force.magnitude != -1 {
                    let magnitude_report = self.create_set_constant_magnitude_report(
                        self.current_effect_slot,
                        force.magnitude,
                    );
                    generated_reports.push(SimagicDriver::format_report(&magnitude_report));
                }
                let effect_report = self.create_set_effect_report(effect_type, params.duration);
                generated_reports.push(SimagicDriver::format_report(&effect_report));
                let start_report = self.create_start_effect_report(
                    effect_type,
                    self.current_effect_slot,
                );
                generated_reports.push(SimagicDriver::format_report(&start_report));
            },
            Effect::Periodic { params, .. } => {
                let effect_report = self.create_set_effect_report(effect_type, params.duration);
                generated_reports.push(SimagicDriver::format_report(&effect_report));
                let start_report = self.create_start_effect_report(
                    effect_type,
                    self.current_effect_slot,
                );
                generated_reports.push(SimagicDriver::format_report(&start_report));
            },
            Effect::Ramp { params, .. } => {
                let effect_report = self.create_set_effect_report(effect_type, params.duration);
                generated_reports.push(SimagicDriver::format_report(&effect_report));
                let start_report = self.create_start_effect_report(
                    effect_type,
                    self.current_effect_slot,
                );
                generated_reports.push(SimagicDriver::format_report(&start_report));
            },
            Effect::Condition { params, effect: condition } => {
                let condition_report = self.create_set_condition_params_report(
                    effect_type,
                    &condition.x_axis,
                );
                generated_reports.push(SimagicDriver::format_report(&condition_report));
                let effect_report = self.create_set_effect_report(effect_type, params.duration);
                generated_reports.push(SimagicDriver::format_report(&effect_report));
                let start_report = self.create_start_effect_report(
                    effect_type,
                    self.current_effect_slot,
                );
                generated_reports.push(SimagicDriver::format_report(&start_report));
            },
        }
        proof {
            assert(generated_reports.deep_view() =~= spec_apply_hex(
                *effect,
                old(self).spec_slot(),
            ));
        }
        Ok(generated_reports)
    }

    /// Stop all effects; the hardware-free driver tracks no live effect, so
    /// this never fails.
    pub fn stop_all_effects(&mut self) -> (r: FFBResult<()>)
        ensures
            *final(self) == *old(self),
            r matches Ok(()),
    {
        Ok(())
    }

    /// Stop everything and mark the device as released.
    pub fn shutdown(&mut self) -> (r: FFBResult<()>)
        ensures
            !final(self).spec_initialized(),
            final(self).spec_slot() == old(self).spec_slot(),
            r matches Ok(()),
    {
        match self.stop_all_effects() {
            Ok(()) => {},
            Err(e) => {
                return Err(e);
            },
        }
        self.initialized = false;
        Ok(())
    }

    /// Stable backend identifier for logging.
    pub fn name(&self) -> (r: &str)
        ensures
            r@ == "SIMAGIC"@,
    {
        "SIMAGIC"
    }
}

impl Default for SimagicDriver {
    fn default() -> (r: SimagicDriver)
        ensures
            r.spec_slot() == 1u8,
            !r.spec_initialized(),
    {
        SimagicDriver::new()
    }
}

impl crate::driver::FfbDriver for SimagicDriver {
    fn initialize(&mut self) -> FFBResult<()> {
        SimagicDriver::initialize(self)
    }

    fn apply_effect(&mut self, effect: &Effect) -> FFBResult<Vec<String>> {
        SimagicDriver::apply_effect(self, effect)
    }

    fn stop_all_effects(&mut self) -> FFBResult<()> {
        SimagicDriver::stop_all_effects(self)
    }

    fn shutdown(&mut self) -> FFBResult<()> {
        SimagicDriver::shutdown(self)
    }

    fn name(&self) -> &str {
        SimagicDriver::name(self)
    }
}

/// One line of the comparison report, for a byte position where the two
/// reports differ.
pub open spec fn spec_diff_line(i: u8, expected: u8, actual: u8) -> Seq<char> {
    "byte "@ + spec_decimal_u8(i) + ": expected "@ + spec_hex_byte(expected) + ", got "@
        + spec_hex_byte(actual)
}

/// The comparison lines for the byte positions below `n` where the two
/// reports differ, in position order.
pub open spec fn spec_diff_lines(expected: Seq<u8>, actual: Seq<u8>, n: int) -> Seq<Seq<char>>
    decreases n,
{
    if n <= 0 {
        Seq::empty()
    } else if expected[n - 1] == actual[n - 1] {
        spec_diff_lines(expected, actual, n - 1)
    } else {
        spec_diff_lines(expected, actual, n - 1).push(
            spec_diff_line((n - 1) as u8, expected[n - 1], actual[n - 1]),
        )
    }
}

/// How many byte positions below `n` hold the same value in both reports.
pub open spec fn spec_match_count(expected: Seq<u8>, actual: Seq<u8>, n: int) -> int
    decreases n,
{
    if n <= 0 {
        0
    } else if expected[n - 1] == actual[n - 1] {
        spec_match_count(expected, actual, n - 1) + 1
    } else {
        spec_match_count(expected, actual, n - 1)
    }
}

/// The text of the comparison report for two 21-byte reports.
pub open spec fn spec_compare_text(expected: Seq<u8>, actual: Seq<u8>) -> Seq<char> {
    if spec_diff_lines(expected, actual, 21).len() == 0 {
        "OK: All 21 bytes match"@
    } else {
        "FAIL: "@ + spec_decimal_u8(spec_match_count(expected, actual, 21) as u8)
            + "/21 bytes match. Differences:\n  "@ + crate::hex::spec_join_lines(
            spec_diff_lines(expected, actual, 21),
            "\n  "@,
        )
    }
}

/// There is no difference line below `n` exactly when the reports agree on
/// every byte position below `n`; the match count then reaches `n`.
pub proof fn lemma_diff_lines_empty(expected: Seq<u8>, actual: Seq<u8>, n: int)
    requires
        0 <= n,
    ensures
        (spec_diff_lines(expected, actual, n).len() == 0) <==> (forall|i: int|
            0 <= i < n ==> expected[i] == actual[i]),
        0 <= spec_match_count(expected, actual, n) <= n,
    decreases n,
{
    if n > 0 {
        lemma_diff_lines_empty(expected, actual, n - 1);
    }
}

/// Compare two reports; the flag says whether all 21 bytes match, and the
/// text shows every differing byte.
pub fn compare_reports(expected: &[u8; 21], actual: &[u8; 21]) -> (r: (bool, String))
    ensures
        r.0 == (expected@ =~= actual@),
        r.1@ == spec_compare_text(expected@, actual@),
{
    let mut differences: Vec<String> = Vec::new();
    let mut match_count: u8 = 0;
    let mut i: usize = 0;
    while i < 21
        invariant
            i <= 21,
            expected@.len() == 21,
            actual@.len() == 21,
            match_count as int == spec_match_count(expected@, actual@, i as int),
            differences.deep_view() == spec_diff_lines(expected@, actual@, i as int),
        decreases 21 - i,
    {
        proof {
            lemma_diff_lines_empty(expected@, actual@, i as int);
        }
        if expected[i] == actual[i] {
            match_count = match_count + 1;
        } else {
            let mut line = String::from_str("byte ");
            line.append(format_decimal_u8(i as u8).as_str());
            line.append(": expected ");
            line.append(format_hex_byte(expected[i]).as_str());
            line.append(", got ");
            line.append(format_hex_byte(actual[i]).as_str());
            differences.push(line);
        }
        proof {
            assert(differences.deep_view() =~= spec_diff_lines(
                expected@,
                actual@,
                i as int + 1,
            ));
        }
        i = i + 1;
    }
    let matches = differences.len() == 0;
    proof {
        lemma_diff_lines_empty(expected@, actual@, 21);
    }
    let report = if matches {
        String::from_str("OK: All 21 bytes match")
    } else {
        let mut s = String::from_str("FAIL: ");
        s.append(format_decimal_u8(match_count).as_str());
        s.append("/21 bytes match. Differences:\n  ");
        let ghost lines = spec_diff_lines(expected@, actual@, 21);
        let ghost sep = "\n  "@;
        let mut j: usize = 0;
        while j < differences.len()
            invariant
                j <= differences@.len(),
                differences.deep_view() == lines,
                sep == "\n  "@,
                s@ == "FAIL: "@ + spec_decimal_u8(spec_match_count(expected@, actual@, 21) as u8)
                    + "/21 bytes match. Differences:\n  "@ + crate::hex::spec_join_lines(
                    lines.take(j as int),
                    sep,
                ),
            decreases differences@.len() - j,
        {
            proof {
                crate::hex::lemma_join_lines_push(lines.take(j as int), sep, lines[j as int]);
                assert(lines.take(j as int).push(lines[j as int]) =~= lines.take(j as int + 1));
            }
            if j > 0 {
                s.append("\n  ");
            }
            s.append(differences[j].as_str());
            j = j + 1;
        }
        proof {
            assert(lines.take(differences@.len() as int) =~= lines);
        }
        s
    };
    (matches, report)
}

/// Every report the direct encoder emits is exactly 21 bytes and carries
/// report ID 0x01 in its first byte.
pub proof fn lemma_reports_wire_shape(e: Effect, slot: u8)
    ensures
        forall|i: int|
            0 <= i < spec_apply_reports(e, slot).len() ==> (#[trigger] spec_apply_reports(
                e,
                slot,
            )[i]).len() == 21 && spec_apply_reports(e, slot)[i][0] == 0x01u8,
{
}

/// The direct protocol encoder is a pure function of the effect and the
/// slot: two runs on an identical effect yield byte-identical report
/// sequences.
pub proof fn lemma_direct_encoder_idempotent(
    effect: Effect,
    slot: u8,
    first: Seq<Seq<char>>,
    second: Seq<Seq<char>>,
)
    requires
        first == spec_apply_hex(effect, slot),
        second == spec_apply_hex(effect, slot),
    ensures
        first == second,
{
}

} // verus!

