use map_bridge::error::MapError;
use map_bridge::high_level::{
    check_device_present, refine_mode, HighLevelProtocol, MapModeExtended,
};

/// Builds a raw answer frame around a page payload: status byte, escaped
/// payload, checksum trailer, terminator.
fn make_answer(payload: &[u8]) -> Vec<u8> {
    let mut raw = vec![0x6Fu8];
    for &b in payload {
        if b == 0x0A {
            raw.push(0xDB);
            raw.push(0xDC);
        } else if b == 0xDB {
            raw.push(0xDB);
            raw.push(0xDD);
        } else {
            raw.push(b);
        }
    }
    let sum = raw.iter().fold(0u8, |a, &b| a.wrapping_add(b));
    let trailer = 0u8.wrapping_sub(sum);
    assert!(trailer != 0x0A, "fixture payload would elide the trailer");
    raw.push(trailer);
    raw.push(0x0A);
    raw
}

fn eeprom_image(net_alg: u8, net_up_eco: u8, net_up_load: u8) -> Vec<u8> {
    let mut e = vec![0u8; 560];
    e[0] = 3;
    e[0x16B] = net_alg;
    e[0x13C] = net_up_eco;
    e[0x13B] = net_up_load;
    e
}

/// A main status page payload (256 bytes) with the given raw mode byte.
fn main_page(mode_raw: u8) -> Vec<u8> {
    let mut p = vec![0u8; 256];
    p[0] = mode_raw;
    p
}

#[test]
fn status_scenario_grid_voltage_offset() {
    // configuration byte 0 = 3, mode byte 3 (translating grid),
    // grid-voltage raw delta 5 -> decoded grid voltage 105
    let eeprom = eeprom_image(0, 0, 0);
    assert!(check_device_present(&eeprom).is_ok());
    let mut p = main_page(3);
    p[0x22] = 5;
    let raw_main = make_answer(&p);
    let mut proto = HighLevelProtocol::new().unwrap();
    let info = proto.read_status(&eeprom, None, &raw_main).unwrap();
    assert_eq!(info.mode, MapModeExtended::PowerOnTranslatingExternalPower);
    assert_eq!(info.u_net, 105);
    // the optional page was missing: sentinel eco flag, default phases
    assert_eq!(info.flag_eco, 255);
    assert_eq!(info.i_ph1, 0);
}

#[test]
fn decode_is_idempotent() {
    let eeprom = eeprom_image(2, 1, 0);
    let mut p = main_page(4);
    p[0x22] = 7;
    p[5] = 0x01;
    p[6] = 0x90;
    let raw_main = make_answer(&p);
    let mut small = vec![0u8; 96];
    small[0x5E] = 1;
    let raw_small = make_answer(&small);
    let mut proto = HighLevelProtocol::new().unwrap();
    let a = proto
        .read_status(&eeprom, Some(&raw_small), &raw_main)
        .unwrap();
    let b = proto
        .read_status(&eeprom, Some(&raw_small), &raw_main)
        .unwrap();
    assert_eq!(a, b);
}

#[test]
fn current_ratio_threshold_is_strict() {
    let eeprom = eeprom_image(0, 0, 0);
    // companion grid current exactly 16: the divide-by-4 branch
    let mut p = main_page(0);
    p[0x23] = 16;
    p[0x31] = 32;
    let mut proto = HighLevelProtocol::new().unwrap();
    let info = proto
        .read_status(&eeprom, None, &make_answer(&p))
        .unwrap();
    assert_eq!(info.i_net, 16);
    // 32 raw / 4 = 8 amperes = 128 sixteenths
    assert_eq!(info.i_net_16_4, 128);

    // companion 15: the divide-by-16 branch; 32 raw / 16 = 2 amperes
    p[0x23] = 15;
    let info = proto
        .read_status(&eeprom, None, &make_answer(&p))
        .unwrap();
    assert_eq!(info.i_net_16_4, 32);
}

#[test]
fn voltage_delta_offset_boundary() {
    let eeprom = eeprom_image(0, 0, 0);
    let mut p = main_page(0);
    p[0x22] = 0; // grid voltage delta
    p[0x27] = 0; // averaged output voltage delta
    p[0x29] = 0; // voltage limit delta
    let mut proto = HighLevelProtocol::new().unwrap();
    let info = proto
        .read_status(&eeprom, None, &make_answer(&p))
        .unwrap();
    assert_eq!(info.u_net, 0);
    assert_eq!(info.u_ou_t_med, 0);
    assert_eq!(info.u_net_limit, 0);

    p[0x22] = 1;
    p[0x27] = 2;
    p[0x29] = 3;
    let info = proto
        .read_status(&eeprom, None, &make_answer(&p))
        .unwrap();
    assert_eq!(info.u_net, 101);
    assert_eq!(info.u_ou_t_med, 102);
    assert_eq!(info.u_net_limit, 103);
}

#[test]
fn phase_current_sign_bit() {
    let eeprom = eeprom_image(0, 0, 0);
    let raw_main = make_answer(&main_page(0));
    // low byte 0x10, high byte 0x01: 0x10 + 0x100 = 272 tenths
    let mut small = vec![0u8; 96];
    small[1] = 0x10;
    small[2] = 0x01;
    let mut proto = HighLevelProtocol::new().unwrap();
    let info = proto
        .read_status(&eeprom, Some(&make_answer(&small)), &raw_main)
        .unwrap();
    assert_eq!(info.i_ph1, 272);

    // the same magnitude with bit 7 set is the negated current
    small[2] = 0x81;
    let info = proto
        .read_status(&eeprom, Some(&make_answer(&small)), &raw_main)
        .unwrap();
    assert_eq!(info.i_ph1, -272);
    assert_eq!(info.i_acc_3ph, -272);
}

#[test]
fn small_page_decodes_flags_and_relays() {
    let eeprom = eeprom_image(0, 0, 0);
    let raw_main = make_answer(&main_page(0));
    let mut small = vec![0u8; 96];
    small[0] = 9;
    small[0x5E] = 4;
    small[0x5F] = 0b11;
    let mut proto = HighLevelProtocol::new().unwrap();
    let info = proto
        .read_status(&eeprom, Some(&make_answer(&small)), &raw_main)
        .unwrap();
    assert_eq!(info.flag_u_net2, 9);
    assert_eq!(info.flag_eco, 4);
    assert_eq!(info.relay1, 1);
    assert_eq!(info.relay2, 2);
}

#[test]
fn small_page_failure_is_tolerated() {
    let eeprom = eeprom_image(0, 0, 0);
    let mut p = main_page(2);
    p[0x22] = 9;
    let raw_main = make_answer(&p);
    let mut proto = HighLevelProtocol::new().unwrap();
    // an invalid optional page: sentinel eco flag, the rest decodes
    let bad_small = [0x65u8, 0x00];
    let info = proto
        .read_status(&eeprom, Some(&bad_small), &raw_main)
        .unwrap();
    assert_eq!(info.flag_eco, 255);
    assert_eq!(info.u_net, 109);
    assert_eq!(info.mode, MapModeExtended::PowerOnGeneratingNoExternalPower);
}

#[test]
fn main_page_failure_aborts() {
    let eeprom = eeprom_image(0, 0, 0);
    let mut raw_main = make_answer(&main_page(0));
    let n = raw_main.len();
    raw_main[n - 2] = raw_main[n - 2].wrapping_add(1);
    let mut proto = HighLevelProtocol::new().unwrap();
    let r = proto.read_status(&eeprom, None, &raw_main);
    assert!(matches!(r, Err(MapError::ChecksumFailed { .. })));
}

#[test]
fn unknown_mode_byte_is_fatal() {
    let eeprom = eeprom_image(0, 0, 0);
    let raw_main = make_answer(&main_page(9));
    let mut proto = HighLevelProtocol::new().unwrap();
    let r = proto.read_status(&eeprom, None, &raw_main);
    assert_eq!(r, Err(MapError::UnknownMode { value: 9 }));
}

#[test]
fn main_page_scaled_fields() {
    let eeprom = eeprom_image(0, 0, 0);
    let mut p = main_page(1);
    p[2] = 0x41; // status char
    p[5] = 0x01; // accumulator voltage high
    p[6] = 0x90; // accumulator voltage low: 0x190 = 400 tenths
    p[8] = 7; // accumulator current: 14
    p[9] = 3; // load power: 300
    p[0x24] = 2; // grid power: 200
    p[0x2E] = 30; // temperature raw: 30 - 50 = -20
    p[0x2F] = 80; // temperature raw: 80 - 50 = 30
    p[0x4D] = 0x01; // energy low byte
    p[0x4E] = 0x02; // energy middle byte
    p[0x4F] = 0x03; // energy high byte: 0x030201
    p[0x29] = 7; // grid voltage limit raw: 107
    p[0x27] = 0; // averaged output voltage raw: stays 0
    let mut proto = HighLevelProtocol::new().unwrap();
    let info = proto
        .read_status(&eeprom, None, &make_answer(&p))
        .unwrap();
    assert_eq!(info.mode, MapModeExtended::PowerOffExternalPowerPresent);
    assert_eq!(info.status_char, 0x41);
    assert_eq!(info.u_acc, 400);
    assert_eq!(info.i_acc, 14);
    assert_eq!(info.p_load, 300);
    assert_eq!(info.p_net, 200);
    assert_eq!(info.temp_grad0, -20);
    assert_eq!(info.temp_grad1, 30);
    assert_eq!(info.e_net, 0x030201);
    assert_eq!(info.u_net_limit, 107);
    assert_eq!(info.u_ou_t_med, 0);
    assert_eq!(info.maps_count, 0);
}

#[test]
fn classifier_returns_raw_mode_unchanged() {
    // regression: the entry guard admits every input, so even inputs
    // aimed at the refinement table leave the mode untouched
    let proto = HighLevelProtocol::new().unwrap();
    let gen = MapModeExtended::PowerOnGeneratingNoExternalPower;
    let tra = MapModeExtended::PowerOnTranslatingExternalPower;
    let cases = [
        (MapModeExtended::PowerOff, 2, 0, 0, 0, 150),
        (gen, 2, 0, 0, 0, 150),
        (gen, 3, 0, 0, 0, 150),
        (gen, 3, 2, 0, 0, 150),
        (tra, 2, 1, 1, 0, 0),
        (tra, 3, 0, 1, 0, 0),
        (tra, 2, 1, 2, 0, 0),
        (tra, 2, 0, 2, 0, 0),
        (MapModeExtended::PowerOnTranslatingExternalPowerAndCharging, 2, 0, 2, 0, 0),
    ];
    for &(mode, net_alg, flag_eco, net_up_eco, net_up_load, unet) in cases.iter() {
        assert_eq!(
            proto.real_mode(mode, net_alg, flag_eco, net_up_eco, net_up_load, unet),
            mode
        );
    }
}

#[test]
fn refinement_table_decides_by_selectors() {
    let gen = MapModeExtended::PowerOnGeneratingNoExternalPower;
    let tra = MapModeExtended::PowerOnTranslatingExternalPower;
    // tariff / forced generation
    assert_eq!(
        refine_mode(gen, 2, 0, 0, 0, 150),
        MapModeExtended::ForcedGeneration
    );
    assert_eq!(
        refine_mode(gen, 3, 0, 0, 0, 150),
        MapModeExtended::SellingBackToGridMaxRateForcedGeneration
    );
    assert_eq!(
        refine_mode(gen, 3, 2, 0, 0, 150),
        MapModeExtended::SellingBackToGridMinRate
    );
    // no refinement at or below the grid-voltage threshold
    assert_eq!(refine_mode(gen, 2, 0, 0, 0, 100), gen);
    // eco pumping
    assert_eq!(
        refine_mode(tra, 2, 1, 1, 0, 0),
        MapModeExtended::WaitingForExternalCharge
    );
    assert_eq!(
        refine_mode(tra, 2, 0, 1, 0, 0),
        MapModeExtended::TranslationECOPumping
    );
    assert_eq!(
        refine_mode(tra, 3, 2, 1, 0, 0),
        MapModeExtended::SellingBackToGridMinRate
    );
    assert_eq!(
        refine_mode(tra, 3, 0, 1, 0, 0),
        MapModeExtended::SellingBackToGridTranslationEcoPumping
    );
    // sell to the grid
    assert_eq!(
        refine_mode(tra, 2, 1, 2, 0, 0),
        MapModeExtended::WaitingForExternalCharge
    );
    assert_eq!(
        refine_mode(tra, 2, 0, 2, 0, 0),
        MapModeExtended::TranslationSellingBackToGrid
    );
    // ineligible selectors pass through
    assert_eq!(refine_mode(tra, 5, 0, 2, 0, 0), tra);
    assert_eq!(refine_mode(gen, 2, 0, 1, 0, 150), gen);
    assert_eq!(refine_mode(tra, 2, 0, 3, 0, 0), tra);
}

#[test]
fn device_presence_check() {
    let mut eeprom = vec![0u8; 560];
    eeprom[0] = 3;
    assert!(check_device_present(&eeprom).is_ok());
    eeprom[0] = 0;
    assert_eq!(check_device_present(&eeprom), Err(MapError::NotFound));
}

#[test]
fn eeprom_image_assembly() {
    let mut low = vec![0u8; 256];
    low[0] = 3;
    low[1] = 0xAA;
    low[255] = 0x11;
    let mut high = vec![0u8; 256];
    high[0] = 0xBB;
    high[255] = 0xCD;
    let raw_low = make_answer(&low);
    let raw_high = make_answer(&high);
    let mut proto = HighLevelProtocol::new().unwrap();
    let image = proto.read_eeprom(&raw_low, &raw_high).unwrap();
    assert_eq!(image.len(), 560);
    assert_eq!(image[0], 3);
    assert_eq!(image[1], 0xAA);
    assert_eq!(image[255], 0x11);
    assert_eq!(image[0x100], 0xBB);
    assert_eq!(image[0x100 + 255], 0xCD);
    assert_eq!(image[530], 0);
}

#[test]
fn eeprom_read_rejects_absent_device() {
    // both pages valid, but byte 0 of the image is not the
    // device-present marker
    let mut low = vec![0u8; 256];
    low[0] = 0;
    let high = vec![0u8; 256];
    let mut proto = HighLevelProtocol::new().unwrap();
    let r = proto.read_eeprom(&make_answer(&low), &make_answer(&high));
    assert_eq!(r, Err(MapError::NotFound));
}

#[test]
fn eeprom_read_propagates_validation_failure() {
    let mut proto = HighLevelProtocol::new().unwrap();
    let good = make_answer(&[0u8; 256]);
    let bad = [0x65u8, 0x00];
    let r = proto.read_eeprom(&bad, &good);
    assert_eq!(r, Err(MapError::FirstByteis65DontKnowWhatItMeans));

    let mut eeprom = vec![7u8; 560];
    let r = proto.read_eeprom_to_buffer(&mut eeprom, &bad, &good);
    assert_eq!(r, Err(MapError::FirstByteis65DontKnowWhatItMeans));
    // untouched when the first page already fails
    assert!(eeprom.iter().all(|&b| b == 7));
}
