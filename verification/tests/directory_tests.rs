use nrf52_rust_primer::bme680_map::BME680FieldMap;
use nrf52_rust_primer::chip_map::{Field, FieldMapProvider};
use nrf52_rust_primer::names::str_eq;

fn entry(name: &str) -> Field {
    *BME680FieldMap::get_field(name).unwrap()
}

fn expect(name: &str, reg: u8, offset: u8, bits: u8, writable: bool) {
    assert_eq!(entry(name), Field { reg, offset, bits, writable }, "{}", name);
}

#[test]
fn control_fields_match_the_register_map() {
    expect("status", 0x73, 0, 8, true);
    expect("reset", 0xe0, 0, 8, true);
    expect("Id", 0xd0, 0, 8, false);
    expect("chip_id", 0xd0, 0, 8, false);
    expect("Config", 0x75, 0, 8, true);
    expect("filter", 0x75, 2, 3, true);
    expect("ctrl_meas", 0x74, 0, 8, true);
    expect("osrs_t", 0x74, 5, 3, true);
    expect("osrs_p", 0x74, 2, 3, true);
    expect("mode", 0x74, 0, 2, true);
    expect("Ctrl_hum", 0x72, 0, 8, true);
    expect("osrs_h", 0x72, 0, 3, true);
    expect("ctrl_gas_1", 0x71, 0, 8, true);
    expect("ctrl_gas_0", 0x70, 4, 2, true);
    expect("run_gas", 0x71, 4, 1, true);
    expect("nb_conv", 0x71, 0, 4, true);
    expect("heat_off", 0x70, 3, 1, true);
}

#[test]
fn heater_profile_fields_match_the_register_map() {
    for profile in 0..10u8 {
        expect(&format!("gas_wait_{}", profile), 0x64 + profile, 0, 8, true);
        expect(&format!("res_heat_{}", profile), 0x5a + profile, 0, 8, true);
    }
}

#[test]
fn data_fields_match_the_register_map() {
    expect("gas_r_lsb", 0x2b, 0, 8, false);
    expect("gas_range_r", 0x2b, 0, 4, false);
    expect("heat_stab_r", 0x2b, 4, 1, false);
    expect("gas_valid_r", 0x2b, 5, 1, false);
    expect("gas_r_msb", 0x2a, 0, 8, false);
    expect("hum_lsb", 0x26, 0, 8, false);
    expect("hum_msb", 0x25, 0, 8, false);
    expect("temp_xlsb", 0x24, 4, 4, false);
    expect("temp_lsb", 0x23, 0, 8, false);
    expect("temp_msb", 0x22, 0, 8, false);
    expect("press_xlsb", 0x21, 4, 4, false);
    expect("press_lsb", 0x20, 0, 8, false);
    expect("press_msb", 0x1f, 0, 8, false);
}

#[test]
fn calibration_fields_match_the_register_map() {
    expect("par_t1", 0xe9, 0, 8, false);
    expect("par_t2", 0x8a, 0, 8, false);
    expect("par_t3", 0x8c, 0, 8, false);
    expect("par_p1", 0x8e, 0, 8, false);
    expect("par_p2", 0x90, 0, 8, false);
    expect("par_p3", 0x92, 0, 8, false);
    expect("par_p4", 0x94, 0, 8, false);
    expect("par_p5", 0x96, 0, 8, false);
    expect("par_p6", 0x99, 0, 8, false);
    expect("par_p7", 0x98, 0, 8, false);
    expect("par_p8", 0x9c, 0, 8, false);
    expect("par_p9", 0x9e, 0, 8, false);
    expect("par_p10", 0xa0, 0, 8, false);
    expect("par_h1", 0xe2, 0, 8, false);
    expect("par_h2", 0xe1, 0, 8, false);
    expect("par_h3", 0xe4, 0, 8, false);
    expect("par_h4", 0xe5, 0, 8, false);
    expect("par_h5", 0xe6, 0, 8, false);
    expect("par_h6", 0xe7, 0, 8, false);
    expect("par_h7", 0xe8, 0, 8, false);
    expect("par_g1", 0xed, 0, 8, false);
    expect("par_g2", 0xeb, 0, 8, false);
    expect("par_g3", 0xee, 0, 8, false);
    expect("res_heat_range", 0x02, 4, 2, false);
    expect("res_heat_val", 0x00, 0, 8, false);
    expect("range_switching_error", 0x04, 0, 8, false);
}

#[test]
fn unknown_names_have_no_field() {
    for name in ["", "nope", "statu", "status ", " status", "gas_wait_10", "res_heat_10",
        "gas_wait_", "res_heat_", "gas_wait_00", "par_t4", "par_p11"]
    {
        assert!(BME680FieldMap::get_field(name).is_none(), "{:?}", name);
    }
}

#[test]
fn lookup_regards_case() {
    assert!(BME680FieldMap::get_field("Status").is_none());
    assert!(BME680FieldMap::get_field("STATUS").is_none());
    assert!(BME680FieldMap::get_field("id").is_none());
    assert!(BME680FieldMap::get_field("Id").is_some());
    assert!(BME680FieldMap::get_field("config").is_none());
    assert!(BME680FieldMap::get_field("Config").is_some());
    assert!(BME680FieldMap::get_field("ctrl_hum").is_none());
}

#[test]
fn every_field_lies_inside_its_register() {
    let mut names: Vec<String> = vec![
        "status", "reset", "Id", "chip_id", "Config", "filter", "ctrl_meas", "osrs_t", "osrs_p",
        "mode", "Ctrl_hum", "osrs_h", "ctrl_gas_1", "ctrl_gas_0", "run_gas", "nb_conv",
        "heat_off", "gas_r_lsb", "gas_range_r", "heat_stab_r", "gas_valid_r", "gas_r_msb",
        "hum_lsb", "hum_msb", "temp_xlsb", "temp_lsb", "temp_msb", "press_xlsb", "press_lsb",
        "press_msb", "par_t1", "par_t2", "par_t3", "par_p1", "par_p2", "par_p3", "par_p4",
        "par_p5", "par_p6", "par_p7", "par_p8", "par_p9", "par_p10", "par_h1", "par_h2",
        "par_h3", "par_h4", "par_h5", "par_h6", "par_h7", "par_g1", "par_g2", "par_g3",
        "res_heat_range", "res_heat_val", "range_switching_error",
    ].into_iter().map(String::from).collect();
    for profile in 0..10 {
        names.push(format!("gas_wait_{}", profile));
        names.push(format!("res_heat_{}", profile));
    }
    assert_eq!(names.len(), 76);
    for name in &names {
        let f = entry(name);
        assert!(f.bits >= 1, "{}", name);
        assert!(f.offset + f.bits <= 8, "{}", name);
    }
}

#[test]
fn names_are_compared_character_for_character() {
    assert!(str_eq("", ""));
    assert!(str_eq("mode", "mode"));
    assert!(!str_eq("mode", "Mode"));
    assert!(!str_eq("mode", "mod"));
    assert!(!str_eq("mode", "modes"));
    assert!(!str_eq("par_t1", "par_t2"));
    assert!(str_eq("größe", "größe"));
    assert!(!str_eq("größe", "grosse"));
}
