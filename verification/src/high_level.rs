//! High-level protocol: EEPROM image assembly and status-page decoding.
//!
//! The status decoder turns the two fixed memory-mapped byte regions —
//! the configuration/calibration image and the live status page — into a
//! structured snapshot of scaled physical-unit fields, including the mode
//! classification decision procedure.
//!
//! Scaled quantities are carried as integers in fixed sub-units so the
//! decoded values stay exact: voltages and phase currents in tenths,
//! current ratios in sixteenths.

use vstd::prelude::*;
use crate::error::MapError;
use crate::low_level::{
    LowLevelCommands, LowLevelProtocol, answer_check, decoded_buffer, decoded_payload,
    frame_bytes, zero_page,
};

verus! {

/// The device's operating mode: the five base hardware modes reported
/// directly, plus the refined modes synthesized by the classifier.
#[derive(Debug, PartialEq, Eq, Copy, Clone, Structural)]
pub enum MapModeExtended {
    /// Inverter off, no grid present at the input.
    PowerOff,
    /// Inverter off, but grid present at the input.
    PowerOffExternalPowerPresent,
    /// Inverter on, generating from the accumulator, no grid present.
    PowerOnGeneratingNoExternalPower,
    /// Inverter on, translating the grid present at the input.
    PowerOnTranslatingExternalPower,
    /// Inverter on, translating the grid and charging the accumulator.
    PowerOnTranslatingExternalPowerAndCharging,
    /// Forced generation.
    ForcedGeneration,
    /// Tariff grid, maximum rate: forced generation.
    SellingBackToGridMaxRateForcedGeneration,
    /// Tariff grid, minimum rate.
    SellingBackToGridMinRate,
    /// Translation with eco pumping.
    TranslationECOPumping,
    /// Translation with selling back to the grid.
    TranslationSellingBackToGrid,
    /// Waiting for an external charge.
    WaitingForExternalCharge,
    /// Tariff grid: translation with eco pumping.
    SellingBackToGridTranslationEcoPumping,
    /// Tariff grid: translation with selling back to the grid.
    SellingBackToGridTranslation,
    /// Maximum-power pumping.
    Pmax,
}

impl MapModeExtended {
    /// Decodes the raw mode byte against the five-value base
    /// enumeration: the device reports only the base hardware modes on
    /// the wire.  Any other raw value — the synthesized refined values
    /// included — is unrecognized and a fatal decode error, never a
    /// silent default.
    pub open spec fn spec_from_raw(value: u8) -> Option<MapModeExtended> {
        if value == 0 {
            Some(MapModeExtended::PowerOff)
        } else if value == 1 {
            Some(MapModeExtended::PowerOffExternalPowerPresent)
        } else if value == 2 {
            Some(MapModeExtended::PowerOnGeneratingNoExternalPower)
        } else if value == 3 {
            Some(MapModeExtended::PowerOnTranslatingExternalPower)
        } else if value == 4 {
            Some(MapModeExtended::PowerOnTranslatingExternalPowerAndCharging)
        } else {
            None
        }
    }

    /// Decodes the raw mode byte against the five-value base enumeration.
    pub fn from_raw(value: u8) -> (r: Option<MapModeExtended>)
        ensures
            r == Self::spec_from_raw(value),
    {
        if value == 0 {
            Some(MapModeExtended::PowerOff)
        } else if value == 1 {
            Some(MapModeExtended::PowerOffExternalPowerPresent)
        } else if value == 2 {
            Some(MapModeExtended::PowerOnGeneratingNoExternalPower)
        } else if value == 3 {
            Some(MapModeExtended::PowerOnTranslatingExternalPower)
        } else if value == 4 {
            Some(MapModeExtended::PowerOnTranslatingExternalPowerAndCharging)
        } else {
            None
        }
    }
}

impl Default for MapModeExtended {
    /// The "never read" mode.
    fn default() -> (r: Self)
        ensures
            r == MapModeExtended::PowerOff,
    {
        MapModeExtended::PowerOff
    }
}

/// One decoded status snapshot.
///
/// Scaled fields are carried in fixed sub-units: `u_acc`, `u_acc_optim`,
/// `i_acc_avg`, `i_mppt_avg` and the phase currents `i_ph1..i_ph3`,
/// `i_acc_3ph` in tenths of their unit; `i_net_16_4` and
/// `i_acc_med_a_u16` in sixteenths of an ampere.  Equality is structural,
/// field by field, and is the basis of change detection.
#[derive(Debug, PartialEq, Eq, Copy, Clone, Structural)]
pub struct MapInfo {
    pub mode: MapModeExtended,
    pub status_char: u8,
    /// Accumulator voltage, tenths of a volt.
    pub u_acc: u16,
    pub i_acc: u32,
    pub p_load: u32,
    pub f_acc_over: u8,
    pub f_net_over: u8,
    pub u_net: i32,
    pub i_net: u8,
    pub p_net: u32,
    pub tf_net: u8,
    pub th_f_map: u8,
    pub u_ou_t_med: u32,
    pub tf_net_limit: u8,
    pub u_net_limit: u32,
    pub rs_err_sis: u8,
    pub rs_err_job_m: u8,
    pub rs_err_job: u8,
    pub rs_warning: u8,
    /// Temperature, degrees: the raw byte minus fifty, taken over the
    /// whole unsigned byte range (0..=255 decodes to -50..=205), so
    /// every raw value decodes and none can fault.
    pub temp_grad0: i16,
    pub temp_grad1: i16,
    pub temp_grad2: i16,
    /// Grid-current ratio, sixteenths of an ampere.
    pub i_net_16_4: u16,
    /// Averaged accumulator current, sixteenths of an ampere.
    pub i_acc_med_a_u16: u16,
    pub temp_off: u8,
    pub e_net: u32,
    pub e_acc: u32,
    pub e_acc_charge: u32,
    pub u_acc_optim: u16,
    pub i_acc_avg: u16,
    pub i_mppt_avg: u16,
    pub i2_c_err: u8,
    pub relay1: u8,
    pub relay2: u8,
    pub flag_eco: u8,
    pub rs_err_dop: u8,
    pub flag_u_net2: u8,
    /// Phase currents, tenths of an ampere, sign from bit 7 of the high
    /// byte.
    pub i_ph1: i32,
    pub i_ph2: i32,
    pub i_ph3: i32,
    pub i_acc_3ph: i32,
    pub maps_count: u8,
}

impl MapInfo {
    /// The all-zero snapshot standing for "never read".
    pub open spec fn spec_default() -> MapInfo {
        MapInfo {
            mode: MapModeExtended::PowerOff,
            status_char: 0,
            u_acc: 0,
            i_acc: 0,
            p_load: 0,
            f_acc_over: 0,
            f_net_over: 0,
            u_net: 0,
            i_net: 0,
            p_net: 0,
            tf_net: 0,
            th_f_map: 0,
            u_ou_t_med: 0,
            tf_net_limit: 0,
            u_net_limit: 0,
            rs_err_sis: 0,
            rs_err_job_m: 0,
            rs_err_job: 0,
            rs_warning: 0,
            temp_grad0: 0,
            temp_grad1: 0,
            temp_grad2: 0,
            i_net_16_4: 0,
            i_acc_med_a_u16: 0,
            temp_off: 0,
            e_net: 0,
            e_acc: 0,
            e_acc_charge: 0,
            u_acc_optim: 0,
            i_acc_avg: 0,
            i_mppt_avg: 0,
            i2_c_err: 0,
            relay1: 0,
            relay2: 0,
            flag_eco: 0,
            rs_err_dop: 0,
            flag_u_net2: 0,
            i_ph1: 0,
            i_ph2: 0,
            i_ph3: 0,
            i_acc_3ph: 0,
            maps_count: 0,
        }
    }
}

impl Default for MapInfo {
    /// The all-zero snapshot standing for "never read".
    fn default() -> (r: Self)
        ensures
            r == MapInfo::spec_default(),
    {
        MapInfo {
            mode: MapModeExtended::PowerOff,
            status_char: 0,
            u_acc: 0,
            i_acc: 0,
            p_load: 0,
            f_acc_over: 0,
            f_net_over: 0,
            u_net: 0,
            i_net: 0,
            p_net: 0,
            tf_net: 0,
            th_f_map: 0,
            u_ou_t_med: 0,
            tf_net_limit: 0,
            u_net_limit: 0,
            rs_err_sis: 0,
            rs_err_job_m: 0,
            rs_err_job: 0,
            rs_warning: 0,
            temp_grad0: 0,
            temp_grad1: 0,
            temp_grad2: 0,
            i_net_16_4: 0,
            i_acc_med_a_u16: 0,
            temp_off: 0,
            e_net: 0,
            e_acc: 0,
            e_acc_charge: 0,
            u_acc_optim: 0,
            i_acc_avg: 0,
            i_mppt_avg: 0,
            i2_c_err: 0,
            relay1: 0,
            relay2: 0,
            flag_eco: 0,
            rs_err_dop: 0,
            flag_u_net2: 0,
            i_ph1: 0,
            i_ph2: 0,
            i_ph3: 0,
            i_acc_3ph: 0,
            maps_count: 0,
        }
    }
}

/// The refinement decision table of the classifier.
///
/// Eligible "active, on-grid" modes branch on the tariff/eco selector
/// (`net_up_eco`: tariff or forced generation, eco pumping, sell to
/// grid), then on the network-algorithm selector and individual eco-flag
/// bits; everything else passes through unchanged.
pub open spec fn spec_refine_mode(
    mode: MapModeExtended,
    net_alg: u8,
    flag_eco: u8,
    net_up_eco: u8,
    net_up_load: u8,
    unet: i32,
) -> MapModeExtended {
    if net_up_eco == 0 {
        // tariff grid or forced generation
        if mode == MapModeExtended::PowerOnGeneratingNoExternalPower {
            if unet > 100 {
                if net_alg == 2 {
                    MapModeExtended::ForcedGeneration
                } else if net_alg == 3 {
                    if flag_eco & 2 == 0 {
                        MapModeExtended::SellingBackToGridMaxRateForcedGeneration
                    } else {
                        MapModeExtended::SellingBackToGridMinRate
                    }
                } else {
                    MapModeExtended::PowerOnGeneratingNoExternalPower
                }
            } else {
                MapModeExtended::PowerOnGeneratingNoExternalPower
            }
        } else {
            mode
        }
    } else if net_up_eco == 1 {
        // eco pumping
        if mode == MapModeExtended::PowerOnTranslatingExternalPower {
            if net_alg == 2 {
                if flag_eco & 1 > 0 {
                    MapModeExtended::WaitingForExternalCharge
                } else {
                    MapModeExtended::TranslationECOPumping
                }
            } else if net_alg == 3 {
                if flag_eco & 2 > 0 {
                    MapModeExtended::SellingBackToGridMinRate
                } else {
                    MapModeExtended::SellingBackToGridTranslationEcoPumping
                }
            } else {
                mode
            }
        } else {
            mode
        }
    } else if net_up_eco == 2 {
        // sell to the grid
        if mode == MapModeExtended::PowerOnTranslatingExternalPower {
            if net_alg == 2 {
                if flag_eco & 1 > 0 {
                    MapModeExtended::WaitingForExternalCharge
                } else {
                    MapModeExtended::TranslationSellingBackToGrid
                }
            } else {
                mode
            }
        } else {
            mode
        }
    } else {
        mode
    }
}

/// The classifier as shipped: an entry guard meant to admit only the two
/// active on-grid base modes into refinement.
///
/// The guard is written as a disjunction of two inequalities, which holds
/// for every input — a mode is never equal to two distinct values at
/// once — so the raw mode is returned unchanged in every call and the
/// refinement table is never reached.  The observed behavior is kept;
/// whether the dead table reflects intended-but-never-activated rules is
/// an open question, so the table stays independently exposed and tested.
pub open spec fn spec_real_mode(
    mode: MapModeExtended,
    net_alg: u8,
    flag_eco: u8,
    net_up_eco: u8,
    net_up_load: u8,
    unet: i32,
) -> MapModeExtended {
    if mode != MapModeExtended::PowerOnGeneratingNoExternalPower || mode
        != MapModeExtended::PowerOnTranslatingExternalPower {
        mode
    } else {
        spec_refine_mode(mode, net_alg, flag_eco, net_up_eco, net_up_load, unet)
    }
}

/// Classifier law: with the entry guard as written, classification
/// returns the raw mode unchanged for every input.
pub proof fn lemma_real_mode_is_identity(
    mode: MapModeExtended,
    net_alg: u8,
    flag_eco: u8,
    net_up_eco: u8,
    net_up_load: u8,
    unet: i32,
)
    ensures
        spec_real_mode(mode, net_alg, flag_eco, net_up_eco, net_up_load, unet) == mode,
{
}

/// A signed phase current in tenths of an ampere: a 15-bit magnitude
/// from the low byte and the seven low bits of the high byte, negated
/// when bit 7 of the high byte is set.
pub open spec fn spec_phase_current(lo: u8, hi: u8) -> int {
    if hi & 0x80 == 0 {
        lo + (hi & 0x7F) * 256
    } else {
        -(lo + (hi & 0x7F) * 256)
    }
}

/// The snapshot fields taken from the optional eco/relay/phase-current
/// page, everything else carried over from `info`.
pub open spec fn spec_decode_small(info: MapInfo, page: Seq<u8>) -> MapInfo
    recommends
        page.len() == 560,
{
    let i_ph1 = spec_phase_current(page[2], page[3]);
    let i_ph2 = spec_phase_current(page[4], page[5]);
    let i_ph3 = spec_phase_current(page[6], page[7]);
    MapInfo {
        flag_eco: page[0x5F],
        relay1: page[0x60] & 0x01,
        relay2: page[0x60] & 0x02,
        flag_u_net2: page[1],
        i_ph1: i_ph1 as i32,
        i_ph2: i_ph2 as i32,
        i_ph3: i_ph3 as i32,
        i_acc_3ph: (i_ph1 + i_ph2 + i_ph3) as i32,
        ..info
    }
}

/// The snapshot fields taken from the required main status page, with the
/// mode byte decoded against the base enumeration and passed through the
/// classifier together with the configuration flags.
pub open spec fn spec_decode_main(info: MapInfo, eeprom: Seq<u8>, page: Seq<u8>) -> Result<
    MapInfo,
    MapError,
>
    recommends
        eeprom.len() == 560,
        page.len() == 560,
{
    match MapModeExtended::spec_from_raw(page[1]) {
        None => Err(MapError::UnknownMode { value: page[1] }),
        Some(base) => Ok(
            MapInfo {
                mode: spec_real_mode(
                    base,
                    eeprom[0x16B],
                    info.flag_eco,
                    eeprom[0x13C],
                    eeprom[0x13B],
                    info.u_net,
                ),
                maps_count: if page[0x155] == 0xFF {
                    1
                } else {
                    page[0x155]
                },
                u_net: if page[0x23] > 0 {
                    (page[0x23] + 100) as i32
                } else {
                    page[0x23] as i32
                },
                status_char: page[3],
                u_acc: (page[6] * 256 + page[7]) as u16,
                i_acc: (page[9] * 2) as u32,
                p_load: (page[0x0A] * 100) as u32,
                f_acc_over: page[0x1D],
                f_net_over: page[0x1E],
                i_net: page[0x24],
                p_net: (page[0x25] * 100) as u32,
                tf_net: page[0x26],
                th_f_map: page[0x27],
                u_ou_t_med: if page[0x28] > 0 {
                    (page[0x28] + 100) as u32
                } else {
                    page[0x28] as u32
                },
                tf_net_limit: page[0x29],
                u_net_limit: if page[0x2A] > 0 {
                    (page[0x2A] + 100) as u32
                } else {
                    page[0x2A] as u32
                },
                rs_err_sis: page[0x2B],
                rs_err_job_m: page[0x2C],
                rs_err_job: page[0x2D],
                rs_warning: page[0x2E],
                temp_grad0: (page[0x2F] - 50) as i16,
                temp_grad1: (page[0x30] - 50) as i16,
                temp_grad2: (page[0x31] - 50) as i16,
                i_net_16_4: if page[0x24] < 16 {
                    page[0x32] as u16
                } else {
                    (page[0x32] * 4) as u16
                },
                i_acc_med_a_u16: (page[0x34] * 256 + page[0x33]) as u16,
                temp_off: page[0x3D],
                e_net: (page[0x50] * 0x10000 + page[0x4F] * 0x100 + page[0x4E]) as u32,
                e_acc: (page[0x53] * 0x10000 + page[0x52] * 0x100 + page[0x51]) as u32,
                e_acc_charge: (page[0x56] * 0x10000 + page[0x55] * 0x100 + page[0x54]) as u32,
                i2_c_err: page[0x5B],
                rs_err_dop: page[0x48],
                ..info
            },
        ),
    }
}

/// The view of an optional received frame.
pub open spec fn opt_view(raw: Option<&[u8]>) -> Option<Seq<u8>> {
    match raw {
        Some(s) => Some(s@),
        None => None,
    }
}

/// The whole status read as a function of the configuration image and
/// the two raw page answers.
///
/// The optional page is advisory telemetry: when it is missing or fails
/// validation, the eco flag is set to the sentinel and decoding
/// continues.  A failure of the required page aborts the read with that
/// error; an unrecognized mode byte is a fatal decode error.
pub open spec fn spec_read_status(
    eeprom: Seq<u8>,
    raw_small: Option<Seq<u8>>,
    raw_main: Seq<u8>,
) -> Result<MapInfo, MapError>
    recommends
        eeprom.len() == 560,
        2 <= raw_main.len() <= 560,
{
    let info0 = MapInfo::spec_default();
    let info1 = match raw_small {
        Some(raw) => if answer_check(raw) is Ok {
            spec_decode_small(info0, decoded_buffer(raw))
        } else {
            MapInfo { flag_eco: 255, ..info0 }
        },
        None => MapInfo { flag_eco: 255, ..info0 },
    };
    match answer_check(raw_main) {
        Err(e) => Err(e),
        Ok(u) => spec_decode_main(info1, eeprom, decoded_buffer(raw_main)),
    }
}

/// Idempotence law: decoding the same configuration image and the same
/// raw status pages twice yields bit-identical snapshots — the decode is
/// a function of its inputs alone.
pub proof fn lemma_read_status_deterministic(
    eeprom: Seq<u8>,
    raw_small: Option<Seq<u8>>,
    raw_main: Seq<u8>,
    r1: Result<MapInfo, MapError>,
    r2: Result<MapInfo, MapError>,
)
    requires
        r1 == spec_read_status(eeprom, raw_small, raw_main),
        r2 == spec_read_status(eeprom, raw_small, raw_main),
    ensures
        r1 == r2,
{
}

/// Boundary law: the current-ratio threshold is strict-less-than, so a
/// companion grid current of exactly 16 already takes the divide-by-4
/// branch.  In the sixteenths carried here, the raw byte is scaled by 4
/// at and above the threshold and kept unscaled below it.
pub proof fn lemma_current_ratio_boundary(info: MapInfo, eeprom: Seq<u8>, page: Seq<u8>)
    requires
        spec_decode_main(info, eeprom, page) is Ok,
    ensures
        page[0x24] >= 16 ==> spec_decode_main(info, eeprom, page)->Ok_0.i_net_16_4 == page[0x32]
            * 4,
        page[0x24] < 16 ==> spec_decode_main(info, eeprom, page)->Ok_0.i_net_16_4 == page[0x32],
{
}

/// Boundary law: the device reports grid voltage, averaged output
/// voltage and the voltage limit as offset-from-100 deltas, but only on
/// the positive side — a raw delta of 0 receives no +100 offset; every
/// positive delta does.
pub proof fn lemma_voltage_offset_boundary(info: MapInfo, eeprom: Seq<u8>, page: Seq<u8>)
    requires
        spec_decode_main(info, eeprom, page) is Ok,
    ensures
        page[0x23] == 0 ==> spec_decode_main(info, eeprom, page)->Ok_0.u_net == 0,
        page[0x23] >= 1 ==> spec_decode_main(info, eeprom, page)->Ok_0.u_net == page[0x23] + 100,
        page[0x28] == 0 ==> spec_decode_main(info, eeprom, page)->Ok_0.u_ou_t_med == 0,
        page[0x28] >= 1 ==> spec_decode_main(info, eeprom, page)->Ok_0.u_ou_t_med == page[0x28]
            + 100,
        page[0x2A] == 0 ==> spec_decode_main(info, eeprom, page)->Ok_0.u_net_limit == 0,
        page[0x2A] >= 1 ==> spec_decode_main(info, eeprom, page)->Ok_0.u_net_limit == page[0x2A]
            + 100,
{
}

/// Sign law: a phase-current high byte with bit 7 set decodes to a
/// negative current of exactly the magnitude that the same byte with
/// bit 7 clear decodes to.
pub proof fn lemma_phase_current_sign(lo: u8, hi: u8)
    requires
        hi & 0x80 != 0,
    ensures
        spec_phase_current(lo, hi) == -spec_phase_current(lo, (hi & 0x7F) as u8),
{
    assert((hi & 0x7F) & 0x80 == 0) by (bit_vector);
    assert((hi & 0x7F) & 0x7F == hi & 0x7F) by (bit_vector);
}

/// `base` with `with` written over it starting at `at`.
pub open spec fn overwrite(base: Seq<u8>, at: int, with: Seq<u8>) -> Seq<u8>
    recommends
        0 <= at,
        at + with.len() <= base.len(),
{
    base.take(at) + with + base.skip(at + with.len())
}

/// What the configuration loader returns: the first failing answer's
/// error, or — with both pages valid — the device-presence verdict on
/// the assembled image.
pub open spec fn spec_load_result(
    old_eeprom: Seq<u8>,
    raw_low: Seq<u8>,
    raw_high: Seq<u8>,
) -> Result<(), MapError>
    recommends
        old_eeprom.len() == 560,
        2 <= raw_low.len() <= 560,
        2 <= raw_high.len() <= 560,
{
    match answer_check(raw_low) {
        Err(e) => Err(e),
        Ok(u) => match answer_check(raw_high) {
            Err(e) => Err(e),
            Ok(v) => {
                let image = overwrite(
                    overwrite(old_eeprom, 0, decoded_payload(raw_low)),
                    0x100,
                    decoded_payload(raw_high),
                );
                if image[0] == 3 {
                    Ok(())
                } else {
                    Err(MapError::NotFound)
                }
            },
        },
    }
}

/// Writes `src` over `dest` starting at `at`, leaving the rest as it
/// was.
fn copy_into(dest: &mut Vec<u8>, at: usize, src: &[u8])
    requires
        at + src@.len() <= old(dest)@.len(),
    ensures
        final(dest)@ == overwrite(old(dest)@, at as int, src@),
{
    let total = dest.len();
    let mut k: usize = 0;
    while k < src.len()
        invariant
            k <= src@.len(),
            at + src@.len() <= total,
            total == dest@.len(),
            dest@.len() == old(dest)@.len(),
            forall|m: int| 0 <= m < k ==> dest@[at + m] == src@[m],
            forall|m: int|
                0 <= m < dest@.len() && !(at <= m < at + k) ==> dest@[m] == old(dest)@[m],
        decreases src@.len() - k,
    {
        dest[at + k] = src[k];
        k += 1;
    }
    proof {
        assert(dest@ =~= overwrite(old(dest)@, at as int, src@));
    }
}

/// The device-presence check on a freshly assembled configuration
/// image: byte 0 must hold the device-present marker 3, else the device
/// is absent and the session must abort before any status read.
pub fn check_device_present(eeprom: &Vec<u8>) -> (r: Result<(), MapError>)
    requires
        eeprom@.len() == 560,
    ensures
        r is Ok <==> eeprom@[0] == 3,
        r == (if eeprom@[0] == 3 {
            Ok::<(), MapError>(())
        } else {
            Err::<(), MapError>(MapError::NotFound)
        }),
{
    if eeprom[0] == 3 {
        Ok(())
    } else {
        Err(MapError::NotFound)
    }
}

/// The high-level protocol session over one serial link.
pub struct HighLevelProtocol {
    pub low_level_protocol: LowLevelProtocol,
}

impl HighLevelProtocol {
    /// The session invariant, inherited from the codec state.
    pub open spec fn wf(&self) -> bool {
        self.low_level_protocol.wf()
    }

    /// A fresh session with a zeroed page buffer.
    pub fn new() -> (r: Result<Self, MapError>)
        ensures
            r is Ok,
            r matches Ok(p) ==> p.wf() && p.low_level_protocol.buffer@ == zero_page()
                && p.low_level_protocol.last_read_bytes_index == 0
                && p.low_level_protocol.sum == 0,
    {
        Ok(HighLevelProtocol { low_level_protocol: LowLevelProtocol::new() })
    }

    /// The request frame for the first half of the configuration image.
    pub fn eeprom_request_low(&mut self) -> (frame: Vec<u8>)
        requires
            old(self).wf(),
        ensures
            final(self).wf(),
            frame@ == frame_bytes(LowLevelCommands::ToRead, 0, 0xFF, zero_page()),
    {
        self.low_level_protocol.send_command_clean_buffer(LowLevelCommands::ToRead, 0, 0xFF)
    }

    /// The request frame for the second half of the configuration image.
    pub fn eeprom_request_high(&mut self) -> (frame: Vec<u8>)
        requires
            old(self).wf(),
        ensures
            final(self).wf(),
            frame@ == frame_bytes(LowLevelCommands::ToRead, 0x100, 0xFF, zero_page()),
    {
        self.low_level_protocol.send_command_clean_buffer(LowLevelCommands::ToRead, 0x100, 0xFF)
    }

    /// The request frame for the optional eco/relay/phase-current page.
    pub fn status_request_small(&mut self) -> (frame: Vec<u8>)
        requires
            old(self).wf(),
        ensures
            final(self).wf(),
            frame@ == frame_bytes(LowLevelCommands::ToRead, 0x527, 0x5F, zero_page()),
    {
        self.low_level_protocol.send_command_clean_buffer(LowLevelCommands::ToRead, 0x527, 0x5F)
    }

    /// The request frame for the required main status page.
    pub fn status_request_main(&mut self) -> (frame: Vec<u8>)
        requires
            old(self).wf(),
        ensures
            final(self).wf(),
            frame@ == frame_bytes(LowLevelCommands::ToRead, 0x400, 0xFF, zero_page()),
    {
        self.low_level_protocol.send_command_clean_buffer(LowLevelCommands::ToRead, 0x400, 0xFF)
    }

    /// Assembles the 560-byte configuration image from the two raw page
    /// answers, validating each against the frame codec, then verifies
    /// device presence on the assembled image.
    ///
    /// The first answer's content lands at offset 0, the second's at
    /// offset 0x100; a validation failure propagates and leaves the
    /// image as far as it got.  With both answers valid, the image must
    /// open with the device-present marker, else the device is absent
    /// and the session must abort before any status read.
    pub fn read_eeprom_to_buffer(
        &mut self,
        eeprom: &mut Vec<u8>,
        raw_low: &[u8],
        raw_high: &[u8],
    ) -> (r: Result<(), MapError>)
        requires
            old(self).wf(),
            old(eeprom)@.len() == 560,
            2 <= raw_low@.len() <= 560,
            2 <= raw_high@.len() <= 560,
            0x100 + decoded_payload(raw_high@).len() <= 560,
        ensures
            final(self).wf(),
            final(eeprom)@.len() == 560,
            r == spec_load_result(old(eeprom)@, raw_low@, raw_high@),
            answer_check(raw_low@) is Err ==> final(eeprom)@ == old(eeprom)@,
            answer_check(raw_low@) is Ok ==> final(eeprom)@ == (if answer_check(
                raw_high@,
            ) is Ok {
                overwrite(
                    overwrite(old(eeprom)@, 0, decoded_payload(raw_low@)),
                    0x100,
                    decoded_payload(raw_high@),
                )
            } else {
                overwrite(old(eeprom)@, 0, decoded_payload(raw_low@))
            }),
    {
        match self.low_level_protocol.read_answer(raw_low) {
            Err(e) => {
                return Err(e);
            },
            Ok(u) => {},
        }
        let slice_low = self.low_level_protocol.get_actually_read_slice();
        proof {
            assert(slice_low@ =~= decoded_payload(raw_low@));
        }
        copy_into(eeprom, 0, slice_low);
        match self.low_level_protocol.read_answer(raw_high) {
            Err(e) => {
                return Err(e);
            },
            Ok(u) => {},
        }
        let slice_high = self.low_level_protocol.get_actually_read_slice();
        proof {
            assert(slice_high@ =~= decoded_payload(raw_high@));
        }
        copy_into(eeprom, 0x100, slice_high);
        let r = check_device_present(eeprom);
        proof {
            let image = overwrite(
                overwrite(old(eeprom)@, 0, decoded_payload(raw_low@)),
                0x100,
                decoded_payload(raw_high@),
            );
            assert(eeprom@ == image);
            if image[0] == 3 {
                assert(r is Ok);
                assert(r == Ok::<(), MapError>(()));
            } else {
                assert(r == Err::<(), MapError>(MapError::NotFound));
            }
        }
        r
    }

    /// Reads the whole 560-byte configuration image from the two raw
    /// page answers, device presence verified; see
    /// [`Self::read_eeprom_to_buffer`].
    pub fn read_eeprom(&mut self, raw_low: &[u8], raw_high: &[u8]) -> (r: Result<
        Vec<u8>,
        MapError,
    >)
        requires
            old(self).wf(),
            2 <= raw_low@.len() <= 560,
            2 <= raw_high@.len() <= 560,
            0x100 + decoded_payload(raw_high@).len() <= 560,
        ensures
            final(self).wf(),
            r is Ok <==> spec_load_result(zero_page(), raw_low@, raw_high@) is Ok,
            r matches Ok(image) ==> image@ == overwrite(
                overwrite(zero_page(), 0, decoded_payload(raw_low@)),
                0x100,
                decoded_payload(raw_high@),
            ) && image@[0] == 3,
            r matches Err(e) ==> Err::<(), MapError>(e) == spec_load_result(
                zero_page(),
                raw_low@,
                raw_high@,
            ),
    {
        let mut eeprom = crate::low_level::zeroed_buffer();
        match self.read_eeprom_to_buffer(&mut eeprom, raw_low, raw_high) {
            Ok(u) => Ok(eeprom),
            Err(e) => Err(e),
        }
    }

    /// The classifier as shipped; see [`spec_real_mode`].  The entry
    /// guard holds for every input, so the result always equals the raw
    /// mode.
    pub fn real_mode(
        &self,
        mode: MapModeExtended,
        net_alg: u8,
        flag_eco: u8,
        net_up_eco: u8,
        net_up_load: u8,
        unet: i32,
    ) -> (r: MapModeExtended)
        ensures
            r == spec_real_mode(mode, net_alg, flag_eco, net_up_eco, net_up_load, unet),
            r == mode,
    {
        if mode != MapModeExtended::PowerOnGeneratingNoExternalPower || mode
            != MapModeExtended::PowerOnTranslatingExternalPower {
            return mode;
        }
        refine_mode(mode, net_alg, flag_eco, net_up_eco, net_up_load, unet)
    }

    /// Decodes one status poll from the configuration image and the two
    /// raw page answers.
    ///
    /// The optional eco/relay/phase-current page is advisory: when it is
    /// missing or fails validation, the eco flag is set to the sentinel
    /// 255 and its fields stay at their defaults.  A validation failure
    /// of the required main page aborts the poll; an unrecognized raw
    /// mode byte is a fatal decode error.
    pub fn read_status(
        &mut self,
        eeprom: &Vec<u8>,
        raw_small: Option<&[u8]>,
        raw_main: &[u8],
    ) -> (r: Result<MapInfo, MapError>)
        requires
            old(self).wf(),
            eeprom@.len() == 560,
            raw_small matches Some(s) ==> 2 <= s@.len() <= 560,
            2 <= raw_main@.len() <= 560,
        ensures
            final(self).wf(),
            r == spec_read_status(eeprom@, opt_view(raw_small), raw_main@),
    {
        let ghost info0 = MapInfo::spec_default();
        let mut map_info = MapInfo::default();
        match raw_small {
            Some(raw) => {
                match self.low_level_protocol.read_answer(raw) {
                    Ok(u) => {
                        map_info.flag_eco = self.low_level_protocol.buffer[0x5F];
                        map_info.relay1 = self.low_level_protocol.buffer[0x60] & 0x01;
                        map_info.relay2 = self.low_level_protocol.buffer[0x60] & 0x02;
                        map_info.flag_u_net2 = self.low_level_protocol.buffer[1];
                        // three-phase currents: 15-bit magnitude, bit 7 of
                        // the high byte is the sign
                        let m1: u32 = self.low_level_protocol.buffer[2] as u32
                            + ((self.low_level_protocol.buffer[3] & 0x7F) as u32) * 256;
                        let m2: u32 = self.low_level_protocol.buffer[4] as u32
                            + ((self.low_level_protocol.buffer[5] & 0x7F) as u32) * 256;
                        let m3: u32 = self.low_level_protocol.buffer[6] as u32
                            + ((self.low_level_protocol.buffer[7] & 0x7F) as u32) * 256;
                        map_info.i_ph1 = if self.low_level_protocol.buffer[3] & 0x80 == 0 {
                            m1 as i32
                        } else {
                            0 - (m1 as i32)
                        };
                        map_info.i_ph2 = if self.low_level_protocol.buffer[5] & 0x80 == 0 {
                            m2 as i32
                        } else {
                            0 - (m2 as i32)
                        };
                        map_info.i_ph3 = if self.low_level_protocol.buffer[7] & 0x80 == 0 {
                            m3 as i32
                        } else {
                            0 - (m3 as i32)
                        };
                        map_info.i_acc_3ph = map_info.i_ph1 + map_info.i_ph2 + map_info.i_ph3;
                        proof {
                            assert(map_info == spec_decode_small(info0, decoded_buffer(raw@)));
                        }
                    },
                    Err(e) => {
                        map_info.flag_eco = 255;
                    },
                }
            },
            None => {
                map_info.flag_eco = 255;
            },
        }
        let ghost info1 = map_info;
        match self.low_level_protocol.read_answer(raw_main) {
            Err(e) => {
                return Err(e);
            },
            Ok(u) => {},
        }
        let mode_raw = self.low_level_protocol.buffer[1];
        let base = match MapModeExtended::from_raw(mode_raw) {
            None => {
                return Err(MapError::UnknownMode { value: mode_raw });
            },
            Some(m) => m,
        };
        // the classifier sees the grid voltage as it stands here, before
        // the field is decoded below
        map_info.mode = self.real_mode(
            base,
            eeprom[0x16B],
            map_info.flag_eco,
            eeprom[0x13C],
            eeprom[0x13B],
            map_info.u_net,
        );
        map_info.maps_count = if self.low_level_protocol.buffer[0x155] == 0xFF {
            1
        } else {
            self.low_level_protocol.buffer[0x155]
        };
        map_info.u_net = self.low_level_protocol.buffer[0x23] as i32;
        if map_info.u_net > 0 {
            map_info.u_net = map_info.u_net + 100;
        }
        map_info.status_char = self.low_level_protocol.buffer[3];
        map_info.u_acc = (self.low_level_protocol.buffer[6] as u16) * 256
            + self.low_level_protocol.buffer[7] as u16;
        map_info.i_acc = self.low_level_protocol.buffer[9] as u32 * 2;
        map_info.p_load = self.low_level_protocol.buffer[0x0A] as u32 * 100;
        map_info.f_acc_over = self.low_level_protocol.buffer[0x1D];
        map_info.f_net_over = self.low_level_protocol.buffer[0x1E];
        map_info.i_net = self.low_level_protocol.buffer[0x24];
        map_info.p_net = self.low_level_protocol.buffer[0x25] as u32 * 100;
        map_info.tf_net = self.low_level_protocol.buffer[0x26];
        map_info.th_f_map = self.low_level_protocol.buffer[0x27];
        map_info.u_ou_t_med = self.low_level_protocol.buffer[0x28] as u32;
        if map_info.u_ou_t_med > 0 {
            map_info.u_ou_t_med = map_info.u_ou_t_med + 100;
        }
        map_info.tf_net_limit = self.low_level_protocol.buffer[0x29];
        map_info.u_net_limit = self.low_level_protocol.buffer[0x2A] as u32;
        if map_info.u_net_limit > 0 {
            map_info.u_net_limit = map_info.u_net_limit + 100;
        }
        map_info.rs_err_sis = self.low_level_protocol.buffer[0x2B];
        map_info.rs_err_job_m = self.low_level_protocol.buffer[0x2C];
        map_info.rs_err_job = self.low_level_protocol.buffer[0x2D];
        map_info.rs_warning = self.low_level_protocol.buffer[0x2E];
        map_info.temp_grad0 = self.low_level_protocol.buffer[0x2F] as i16 - 50;
        map_info.temp_grad1 = self.low_level_protocol.buffer[0x30] as i16 - 50;
        map_info.temp_grad2 = self.low_level_protocol.buffer[0x31] as i16 - 50;
        // current ratio: divide by 16 below the threshold, else by 4;
        // carried here in sixteenths
        if map_info.i_net < 16 {
            map_info.i_net_16_4 = self.low_level_protocol.buffer[0x32] as u16;
        } else {
            map_info.i_net_16_4 = self.low_level_protocol.buffer[0x32] as u16 * 4;
        }
        map_info.i_acc_med_a_u16 = self.low_level_protocol.buffer[0x34] as u16 * 256
            + self.low_level_protocol.buffer[0x33] as u16;
        map_info.temp_off = self.low_level_protocol.buffer[0x3D];
        map_info.e_net = self.low_level_protocol.buffer[0x50] as u32 * 65536
            + self.low_level_protocol.buffer[0x4F] as u32 * 256
            + self.low_level_protocol.buffer[0x4E] as u32;
        map_info.e_acc = self.low_level_protocol.buffer[0x53] as u32 * 65536
            + self.low_level_protocol.buffer[0x52] as u32 * 256
            + self.low_level_protocol.buffer[0x51] as u32;
        map_info.e_acc_charge = self.low_level_protocol.buffer[0x56] as u32 * 65536
            + self.low_level_protocol.buffer[0x55] as u32 * 256
            + self.low_level_protocol.buffer[0x54] as u32;
        map_info.i2_c_err = self.low_level_protocol.buffer[0x5B];
        map_info.rs_err_dop = self.low_level_protocol.buffer[0x48];
        proof {
            assert(map_info == spec_decode_main(
                info1,
                eeprom@,
                decoded_buffer(raw_main@),
            )->Ok_0);
        }
        Ok(map_info)
    }
}

/// The refinement decision table of the classifier; see
/// [`spec_refine_mode`].
pub fn refine_mode(
    mode: MapModeExtended,
    net_alg: u8,
    flag_eco: u8,
    net_up_eco: u8,
    net_up_load: u8,
    unet: i32,
) -> (r: MapModeExtended)
    ensures
        r == spec_refine_mode(mode, net_alg, flag_eco, net_up_eco, net_up_load, unet),
{
    if net_up_eco == 0 {
        // tariff grid or forced generation
        if mode == MapModeExtended::PowerOnGeneratingNoExternalPower {
            if unet > 100 {
                if net_alg == 2 {
                    return MapModeExtended::ForcedGeneration;
                } else if net_alg == 3 {
                    if flag_eco & 2 == 0 {
                        return MapModeExtended::SellingBackToGridMaxRateForcedGeneration;
                    } else {
                        return MapModeExtended::SellingBackToGridMinRate;
                    }
                }
            }
            MapModeExtended::PowerOnGeneratingNoExternalPower
        } else {
            mode
        }
    } else if net_up_eco == 1 {
        // eco pumping
        if mode == MapModeExtended::PowerOnTranslatingExternalPower {
            if net_alg == 2 {
                if flag_eco & 1 > 0 {
                    MapModeExtended::WaitingForExternalCharge
                } else {
                    MapModeExtended::TranslationECOPumping
                }
            } else if net_alg == 3 {
                if flag_eco & 2 > 0 {
                    MapModeExtended::SellingBackToGridMinRate
                } else {
                    MapModeExtended::SellingBackToGridTranslationEcoPumping
                }
            } else {
                mode
            }
        } else {
            mode
        }
    } else if net_up_eco == 2 {
        // sell to the grid
        if mode == MapModeExtended::PowerOnTranslatingExternalPower {
            if net_alg == 2 {
                if flag_eco & 1 > 0 {
                    MapModeExtended::WaitingForExternalCharge
                } else {
                    MapModeExtended::TranslationSellingBackToGrid
                }
            } else {
                mode
            }
        } else {
            mode
        }
    } else {
        mode
    }
}

} // verus!
