//! The register map of the BME680 environmental sensor.
//!
//! Each entry names a field and gives the address of its register, the
//! position and width of its bits and whether the device lets it be written.
//! The entries follow the sensor's data sheet. Some of them overlap on
//! purpose: a whole register and the fields inside it each have a name.
//!
//! The map is stated as a plain table, [`bme680_field`]. The lookup does not
//! walk the table: it goes by the length of the name and by one of its
//! bytes, which leaves four entries at most to compare the name with.

use vstd::prelude::*;
use vstd::string::StringSliceAdditionalSpecFns;
use vstd::utf8::{is_ascii_chars, is_ascii_chars_encode_utf8};

use crate::chip_map::{Field, FieldMapProvider};
use crate::names::{decimal_digits, digit_char, spec_indexed_name, str_eq};

verus! {

/// The field that the sensor's register map holds under `name`.
pub open spec fn bme680_field(name: Seq<char>) -> Option<Field> {
    if name == "status"@ {
        Some(Field { reg: 0x73, offset: 0, bits: 8, writable: true })
    } else if name == "reset"@ {
        Some(Field { reg: 0xe0, offset: 0, bits: 8, writable: true })
    } else if name == "Id"@ {
        Some(Field { reg: 0xd0, offset: 0, bits: 8, writable: false })
    } else if name == "chip_id"@ {
        Some(Field { reg: 0xd0, offset: 0, bits: 8, writable: false })
    } else if name == "Config"@ {
        Some(Field { reg: 0x75, offset: 0, bits: 8, writable: true })
    } else if name == "filter"@ {
        Some(Field { reg: 0x75, offset: 2, bits: 3, writable: true })
    } else if name == "ctrl_meas"@ {
        Some(Field { reg: 0x74, offset: 0, bits: 8, writable: true })
    } else if name == "osrs_t"@ {
        Some(Field { reg: 0x74, offset: 5, bits: 3, writable: true })
    } else if name == "osrs_p"@ {
        Some(Field { reg: 0x74, offset: 2, bits: 3, writable: true })
    } else if name == "mode"@ {
        Some(Field { reg: 0x74, offset: 0, bits: 2, writable: true })
    } else if name == "Ctrl_hum"@ {
        Some(Field { reg: 0x72, offset: 0, bits: 8, writable: true })
    } else if name == "osrs_h"@ {
        Some(Field { reg: 0x72, offset: 0, bits: 3, writable: true })
    } else if name == "ctrl_gas_1"@ {
        Some(Field { reg: 0x71, offset: 0, bits: 8, writable: true })
    } else if name == "ctrl_gas_0"@ {
        Some(Field { reg: 0x70, offset: 4, bits: 2, writable: true })
    } else if name == "run_gas"@ {
        Some(Field { reg: 0x71, offset: 4, bits: 1, writable: true })
    } else if name == "nb_conv"@ {
        Some(Field { reg: 0x71, offset: 0, bits: 4, writable: true })
    } else if name == "heat_off"@ {
        Some(Field { reg: 0x70, offset: 3, bits: 1, writable: true })
    } else if name == "gas_wait_9"@ {
        Some(Field { reg: 0x6d, offset: 0, bits: 8, writable: true })
    } else if name == "gas_wait_8"@ {
        Some(Field { reg: 0x6c, offset: 0, bits: 8, writable: true })
    } else if name == "gas_wait_7"@ {
        Some(Field { reg: 0x6b, offset: 0, bits: 8, writable: true })
    } else if name == "gas_wait_6"@ {
        Some(Field { reg: 0x6a, offset: 0, bits: 8, writable: true })
    } else if name == "gas_wait_5"@ {
        Some(Field { reg: 0x69, offset: 0, bits: 8, writable: true })
    } else if name == "gas_wait_4"@ {
        Some(Field { reg: 0x68, offset: 0, bits: 8, writable: true })
    } else if name == "gas_wait_3"@ {
        Some(Field { reg: 0x67, offset: 0, bits: 8, writable: true })
    } else if name == "gas_wait_2"@ {
        Some(Field { reg: 0x66, offset: 0, bits: 8, writable: true })
    } else if name == "gas_wait_1"@ {
        Some(Field { reg: 0x65, offset: 0, bits: 8, writable: true })
    } else if name == "gas_wait_0"@ {
        Some(Field { reg: 0x64, offset: 0, bits: 8, writable: true })
    } else if name == "res_heat_9"@ {
        Some(Field { reg: 0x63, offset: 0, bits: 8, writable: true })
    } else if name == "res_heat_8"@ {
        Some(Field { reg: 0x62, offset: 0, bits: 8, writable: true })
    } else if name == "res_heat_7"@ {
        Some(Field { reg: 0x61, offset: 0, bits: 8, writable: true })
    } else if name == "res_heat_6"@ {
        Some(Field { reg: 0x60, offset: 0, bits: 8, writable: true })
    } else if name == "res_heat_5"@ {
        Some(Field { reg: 0x5f, offset: 0, bits: 8, writable: true })
    } else if name == "res_heat_4"@ {
        Some(Field { reg: 0x5e, offset: 0, bits: 8, writable: true })
    } else if name == "res_heat_3"@ {
        Some(Field { reg: 0x5d, offset: 0, bits: 8, writable: true })
    } else if name == "res_heat_2"@ {
        Some(Field { reg: 0x5c, offset: 0, bits: 8, writable: true })
    } else if name == "res_heat_1"@ {
        Some(Field { reg: 0x5b, offset: 0, bits: 8, writable: true })
    } else if name == "res_heat_0"@ {
        Some(Field { reg: 0x5a, offset: 0, bits: 8, writable: true })
    } else if name == "gas_r_lsb"@ {
        Some(Field { reg: 0x2b, offset: 0, bits: 8, writable: false })
    } else if name == "gas_range_r"@ {
        Some(Field { reg: 0x2b, offset: 0, bits: 4, writable: false })
    } else if name == "heat_stab_r"@ {
        Some(Field { reg: 0x2b, offset: 4, bits: 1, writable: false })
    } else if name == "gas_valid_r"@ {
        Some(Field { reg: 0x2b, offset: 5, bits: 1, writable: false })
    } else if name == "gas_r_msb"@ {
        Some(Field { reg: 0x2a, offset: 0, bits: 8, writable: false })
    } else if name == "hum_lsb"@ {
        Some(Field { reg: 0x26, offset: 0, bits: 8, writable: false })
    } else if name == "hum_msb"@ {
        Some(Field { reg: 0x25, offset: 0, bits: 8, writable: false })
    } else if name == "temp_xlsb"@ {
        Some(Field { reg: 0x24, offset: 4, bits: 4, writable: false })
    } else if name == "temp_lsb"@ {
        Some(Field { reg: 0x23, offset: 0, bits: 8, writable: false })
    } else if name == "temp_msb"@ {
        Some(Field { reg: 0x22, offset: 0, bits: 8, writable: false })
    } else if name == "press_xlsb"@ {
        Some(Field { reg: 0x21, offset: 4, bits: 4, writable: false })
    } else if name == "press_lsb"@ {
        Some(Field { reg: 0x20, offset: 0, bits: 8, writable: false })
    } else if name == "press_msb"@ {
        Some(Field { reg: 0x1f, offset: 0, bits: 8, writable: false })
    } else if name == "par_t1"@ {
        Some(Field { reg: 0xe9, offset: 0, bits: 8, writable: false })
    } else if name == "par_t2"@ {
        Some(Field { reg: 0x8a, offset: 0, bits: 8, writable: false })
    } else if name == "par_t3"@ {
        Some(Field { reg: 0x8c, offset: 0, bits: 8, writable: false })
    } else if name == "par_p1"@ {
        Some(Field { reg: 0x8e, offset: 0, bits: 8, writable: false })
    } else if name == "par_p2"@ {
        Some(Field { reg: 0x90, offset: 0, bits: 8, writable: false })
    } else if name == "par_p3"@ {
        Some(Field { reg: 0x92, offset: 0, bits: 8, writable: false })
    } else if name == "par_p4"@ {
        Some(Field { reg: 0x94, offset: 0, bits: 8, writable: false })
    } else if name == "par_p5"@ {
        Some(Field { reg: 0x96, offset: 0, bits: 8, writable: false })
    } else if name == "par_p6"@ {
        Some(Field { reg: 0x99, offset: 0, bits: 8, writable: false })
    } else if name == "par_p7"@ {
        Some(Field { reg: 0x98, offset: 0, bits: 8, writable: false })
    } else if name == "par_p8"@ {
        Some(Field { reg: 0x9c, offset: 0, bits: 8, writable: false })
    } else if name == "par_p9"@ {
        Some(Field { reg: 0x9e, offset: 0, bits: 8, writable: false })
    } else if name == "par_p10"@ {
        Some(Field { reg: 0xa0, offset: 0, bits: 8, writable: false })
    } else if name == "par_h1"@ {
        Some(Field { reg: 0xe2, offset: 0, bits: 8, writable: false })
    } else if name == "par_h2"@ {
        Some(Field { reg: 0xe1, offset: 0, bits: 8, writable: false })
    } else if name == "par_h3"@ {
        Some(Field { reg: 0xe4, offset: 0, bits: 8, writable: false })
    } else if name == "par_h4"@ {
        Some(Field { reg: 0xe5, offset: 0, bits: 8, writable: false })
    } else if name == "par_h5"@ {
        Some(Field { reg: 0xe6, offset: 0, bits: 8, writable: false })
    } else if name == "par_h6"@ {
        Some(Field { reg: 0xe7, offset: 0, bits: 8, writable: false })
    } else if name == "par_h7"@ {
        Some(Field { reg: 0xe8, offset: 0, bits: 8, writable: false })
    } else if name == "par_g1"@ {
        Some(Field { reg: 0xed, offset: 0, bits: 8, writable: false })
    } else if name == "par_g2"@ {
        Some(Field { reg: 0xeb, offset: 0, bits: 8, writable: false })
    } else if name == "par_g3"@ {
        Some(Field { reg: 0xee, offset: 0, bits: 8, writable: false })
    } else if name == "res_heat_range"@ {
        Some(Field { reg: 0x02, offset: 4, bits: 2, writable: false })
    } else if name == "res_heat_val"@ {
        Some(Field { reg: 0x00, offset: 0, bits: 8, writable: false })
    } else if name == "range_switching_error"@ {
        Some(Field { reg: 0x04, offset: 0, bits: 8, writable: false })
    } else {
        None
    }
}

/// What the bytes of a name tell when the name is one of the entries of
/// 2 characters: its length and, for the lookup to go by, byte 0.
proof fn lemma_names_of_length_2(name: &str)
    ensures
        name@ == "Id"@ ==> name.spec_bytes().len() == 2 && name.spec_bytes()[0] == 0x49,
{
    reveal_strlit("Id");
    assert(is_ascii_chars("Id"@));
    is_ascii_chars_encode_utf8("Id"@);
}

/// What the bytes of a name tell when the name is one of the entries of
/// 4 characters: its length and, for the lookup to go by, byte 0.
proof fn lemma_names_of_length_4(name: &str)
    ensures
        name@ == "mode"@ ==> name.spec_bytes().len() == 4 && name.spec_bytes()[0] == 0x6d,
{
    reveal_strlit("mode");
    assert(is_ascii_chars("mode"@));
    is_ascii_chars_encode_utf8("mode"@);
}

/// What the bytes of a name tell when the name is one of the entries of
/// 5 characters: its length and, for the lookup to go by, byte 0.
proof fn lemma_names_of_length_5(name: &str)
    ensures
        name@ == "reset"@ ==> name.spec_bytes().len() == 5 && name.spec_bytes()[0] == 0x72,
{
    reveal_strlit("reset");
    assert(is_ascii_chars("reset"@));
    is_ascii_chars_encode_utf8("reset"@);
}

/// What the bytes of a name tell when the name is one of the entries of
/// 6 characters: its length and, for the lookup to go by, byte 5.
proof fn lemma_names_of_length_6(name: &str)
    ensures
        name@ == "status"@ ==> name.spec_bytes().len() == 6 && name.spec_bytes()[5] == 0x73,
        name@ == "Config"@ ==> name.spec_bytes().len() == 6 && name.spec_bytes()[5] == 0x67,
        name@ == "filter"@ ==> name.spec_bytes().len() == 6 && name.spec_bytes()[5] == 0x72,
        name@ == "osrs_t"@ ==> name.spec_bytes().len() == 6 && name.spec_bytes()[5] == 0x74,
        name@ == "osrs_p"@ ==> name.spec_bytes().len() == 6 && name.spec_bytes()[5] == 0x70,
        name@ == "osrs_h"@ ==> name.spec_bytes().len() == 6 && name.spec_bytes()[5] == 0x68,
        name@ == "par_t1"@ ==> name.spec_bytes().len() == 6 && name.spec_bytes()[5] == 0x31,
        name@ == "par_t2"@ ==> name.spec_bytes().len() == 6 && name.spec_bytes()[5] == 0x32,
        name@ == "par_t3"@ ==> name.spec_bytes().len() == 6 && name.spec_bytes()[5] == 0x33,
        name@ == "par_p1"@ ==> name.spec_bytes().len() == 6 && name.spec_bytes()[5] == 0x31,
        name@ == "par_p2"@ ==> name.spec_bytes().len() == 6 && name.spec_bytes()[5] == 0x32,
        name@ == "par_p3"@ ==> name.spec_bytes().len() == 6 && name.spec_bytes()[5] == 0x33,
        name@ == "par_p4"@ ==> name.spec_bytes().len() == 6 && name.spec_bytes()[5] == 0x34,
        name@ == "par_p5"@ ==> name.spec_bytes().len() == 6 && name.spec_bytes()[5] == 0x35,
        name@ == "par_p6"@ ==> name.spec_bytes().len() == 6 && name.spec_bytes()[5] == 0x36,
        name@ == "par_p7"@ ==> name.spec_bytes().len() == 6 && name.spec_bytes()[5] == 0x37,
        name@ == "par_p8"@ ==> name.spec_bytes().len() == 6 && name.spec_bytes()[5] == 0x38,
        name@ == "par_p9"@ ==> name.spec_bytes().len() == 6 && name.spec_bytes()[5] == 0x39,
        name@ == "par_h1"@ ==> name.spec_bytes().len() == 6 && name.spec_bytes()[5] == 0x31,
        name@ == "par_h2"@ ==> name.spec_bytes().len() == 6 && name.spec_bytes()[5] == 0x32,
        name@ == "par_h3"@ ==> name.spec_bytes().len() == 6 && name.spec_bytes()[5] == 0x33,
        name@ == "par_h4"@ ==> name.spec_bytes().len() == 6 && name.spec_bytes()[5] == 0x34,
        name@ == "par_h5"@ ==> name.spec_bytes().len() == 6 && name.spec_bytes()[5] == 0x35,
        name@ == "par_h6"@ ==> name.spec_bytes().len() == 6 && name.spec_bytes()[5] == 0x36,
        name@ == "par_h7"@ ==> name.spec_bytes().len() == 6 && name.spec_bytes()[5] == 0x37,
        name@ == "par_g1"@ ==> name.spec_bytes().len() == 6 && name.spec_bytes()[5] == 0x31,
        name@ == "par_g2"@ ==> name.spec_bytes().len() == 6 && name.spec_bytes()[5] == 0x32,
        name@ == "par_g3"@ ==> name.spec_bytes().len() == 6 && name.spec_bytes()[5] == 0x33,
        "par_t1"@ != "par_p1"@,
        "par_t1"@ != "par_h1"@,
        "par_t1"@ != "par_g1"@,
        "par_p1"@ != "par_h1"@,
        "par_p1"@ != "par_g1"@,
        "par_h1"@ != "par_g1"@,
        "par_t2"@ != "par_p2"@,
        "par_t2"@ != "par_h2"@,
        "par_t2"@ != "par_g2"@,
        "par_p2"@ != "par_h2"@,
        "par_p2"@ != "par_g2"@,
        "par_h2"@ != "par_g2"@,
        "par_t3"@ != "par_p3"@,
        "par_t3"@ != "par_h3"@,
        "par_t3"@ != "par_g3"@,
        "par_p3"@ != "par_h3"@,
        "par_p3"@ != "par_g3"@,
        "par_h3"@ != "par_g3"@,
        "par_p4"@ != "par_h4"@,
        "par_p5"@ != "par_h5"@,
        "par_p6"@ != "par_h6"@,
        "par_p7"@ != "par_h7"@,
{
    reveal_strlit("status");
    reveal_strlit("Config");
    reveal_strlit("filter");
    reveal_strlit("osrs_t");
    reveal_strlit("osrs_p");
    reveal_strlit("osrs_h");
    reveal_strlit("par_t1");
    reveal_strlit("par_t2");
    reveal_strlit("par_t3");
    reveal_strlit("par_p1");
    reveal_strlit("par_p2");
    reveal_strlit("par_p3");
    reveal_strlit("par_p4");
    reveal_strlit("par_p5");
    reveal_strlit("par_p6");
    reveal_strlit("par_p7");
    reveal_strlit("par_p8");
    reveal_strlit("par_p9");
    reveal_strlit("par_h1");
    reveal_strlit("par_h2");
    reveal_strlit("par_h3");
    reveal_strlit("par_h4");
    reveal_strlit("par_h5");
    reveal_strlit("par_h6");
    reveal_strlit("par_h7");
    reveal_strlit("par_g1");
    reveal_strlit("par_g2");
    reveal_strlit("par_g3");
    assert(is_ascii_chars("status"@));
    is_ascii_chars_encode_utf8("status"@);
    assert(is_ascii_chars("Config"@));
    is_ascii_chars_encode_utf8("Config"@);
    assert(is_ascii_chars("filter"@));
    is_ascii_chars_encode_utf8("filter"@);
    assert(is_ascii_chars("osrs_t"@));
    is_ascii_chars_encode_utf8("osrs_t"@);
    assert(is_ascii_chars("osrs_p"@));
    is_ascii_chars_encode_utf8("osrs_p"@);
    assert(is_ascii_chars("osrs_h"@));
    is_ascii_chars_encode_utf8("osrs_h"@);
    assert(is_ascii_chars("par_t1"@));
    is_ascii_chars_encode_utf8("par_t1"@);
    assert(is_ascii_chars("par_t2"@));
    is_ascii_chars_encode_utf8("par_t2"@);
    assert(is_ascii_chars("par_t3"@));
    is_ascii_chars_encode_utf8("par_t3"@);
    assert(is_ascii_chars("par_p1"@));
    is_ascii_chars_encode_utf8("par_p1"@);
    assert(is_ascii_chars("par_p2"@));
    is_ascii_chars_encode_utf8("par_p2"@);
    assert(is_ascii_chars("par_p3"@));
    is_ascii_chars_encode_utf8("par_p3"@);
    assert(is_ascii_chars("par_p4"@));
    is_ascii_chars_encode_utf8("par_p4"@);
    assert(is_ascii_chars("par_p5"@));
    is_ascii_chars_encode_utf8("par_p5"@);
    assert(is_ascii_chars("par_p6"@));
    is_ascii_chars_encode_utf8("par_p6"@);
    assert(is_ascii_chars("par_p7"@));
    is_ascii_chars_encode_utf8("par_p7"@);
    assert(is_ascii_chars("par_p8"@));
    is_ascii_chars_encode_utf8("par_p8"@);
    assert(is_ascii_chars("par_p9"@));
    is_ascii_chars_encode_utf8("par_p9"@);
    assert(is_ascii_chars("par_h1"@));
    is_ascii_chars_encode_utf8("par_h1"@);
    assert(is_ascii_chars("par_h2"@));
    is_ascii_chars_encode_utf8("par_h2"@);
    assert(is_ascii_chars("par_h3"@));
    is_ascii_chars_encode_utf8("par_h3"@);
    assert(is_ascii_chars("par_h4"@));
    is_ascii_chars_encode_utf8("par_h4"@);
    assert(is_ascii_chars("par_h5"@));
    is_ascii_chars_encode_utf8("par_h5"@);
    assert(is_ascii_chars("par_h6"@));
    is_ascii_chars_encode_utf8("par_h6"@);
    assert(is_ascii_chars("par_h7"@));
    is_ascii_chars_encode_utf8("par_h7"@);
    assert(is_ascii_chars("par_g1"@));
    is_ascii_chars_encode_utf8("par_g1"@);
    assert(is_ascii_chars("par_g2"@));
    is_ascii_chars_encode_utf8("par_g2"@);
    assert(is_ascii_chars("par_g3"@));
    is_ascii_chars_encode_utf8("par_g3"@);
    assert("par_t1"@[4] != "par_p1"@[4]);
    assert("par_t1"@[4] != "par_h1"@[4]);
    assert("par_t1"@[4] != "par_g1"@[4]);
    assert("par_p1"@[4] != "par_h1"@[4]);
    assert("par_p1"@[4] != "par_g1"@[4]);
    assert("par_h1"@[4] != "par_g1"@[4]);
    assert("par_t2"@[4] != "par_p2"@[4]);
    assert("par_t2"@[4] != "par_h2"@[4]);
    assert("par_t2"@[4] != "par_g2"@[4]);
    assert("par_p2"@[4] != "par_h2"@[4]);
    assert("par_p2"@[4] != "par_g2"@[4]);
    assert("par_h2"@[4] != "par_g2"@[4]);
    assert("par_t3"@[4] != "par_p3"@[4]);
    assert("par_t3"@[4] != "par_h3"@[4]);
    assert("par_t3"@[4] != "par_g3"@[4]);
    assert("par_p3"@[4] != "par_h3"@[4]);
    assert("par_p3"@[4] != "par_g3"@[4]);
    assert("par_h3"@[4] != "par_g3"@[4]);
    assert("par_p4"@[4] != "par_h4"@[4]);
    assert("par_p5"@[4] != "par_h5"@[4]);
    assert("par_p6"@[4] != "par_h6"@[4]);
    assert("par_p7"@[4] != "par_h7"@[4]);
}

/// What the bytes of a name tell when the name is one of the entries of
/// 7 characters: its length and, for the lookup to go by, byte 4.
proof fn lemma_names_of_length_7(name: &str)
    ensures
        name@ == "chip_id"@ ==> name.spec_bytes().len() == 7 && name.spec_bytes()[4] == 0x5f,
        name@ == "run_gas"@ ==> name.spec_bytes().len() == 7 && name.spec_bytes()[4] == 0x67,
        name@ == "nb_conv"@ ==> name.spec_bytes().len() == 7 && name.spec_bytes()[4] == 0x6f,
        name@ == "hum_lsb"@ ==> name.spec_bytes().len() == 7 && name.spec_bytes()[4] == 0x6c,
        name@ == "hum_msb"@ ==> name.spec_bytes().len() == 7 && name.spec_bytes()[4] == 0x6d,
        name@ == "par_p10"@ ==> name.spec_bytes().len() == 7 && name.spec_bytes()[4] == 0x70,
{
    reveal_strlit("chip_id");
    reveal_strlit("run_gas");
    reveal_strlit("nb_conv");
    reveal_strlit("hum_lsb");
    reveal_strlit("hum_msb");
    reveal_strlit("par_p10");
    assert(is_ascii_chars("chip_id"@));
    is_ascii_chars_encode_utf8("chip_id"@);
    assert(is_ascii_chars("run_gas"@));
    is_ascii_chars_encode_utf8("run_gas"@);
    assert(is_ascii_chars("nb_conv"@));
    is_ascii_chars_encode_utf8("nb_conv"@);
    assert(is_ascii_chars("hum_lsb"@));
    is_ascii_chars_encode_utf8("hum_lsb"@);
    assert(is_ascii_chars("hum_msb"@));
    is_ascii_chars_encode_utf8("hum_msb"@);
    assert(is_ascii_chars("par_p10"@));
    is_ascii_chars_encode_utf8("par_p10"@);
}

/// What the bytes of a name tell when the name is one of the entries of
/// 8 characters: its length and, for the lookup to go by, byte 5.
proof fn lemma_names_of_length_8(name: &str)
    ensures
        name@ == "Ctrl_hum"@ ==> name.spec_bytes().len() == 8 && name.spec_bytes()[5] == 0x68,
        name@ == "heat_off"@ ==> name.spec_bytes().len() == 8 && name.spec_bytes()[5] == 0x6f,
        name@ == "temp_lsb"@ ==> name.spec_bytes().len() == 8 && name.spec_bytes()[5] == 0x6c,
        name@ == "temp_msb"@ ==> name.spec_bytes().len() == 8 && name.spec_bytes()[5] == 0x6d,
{
    reveal_strlit("Ctrl_hum");
    reveal_strlit("heat_off");
    reveal_strlit("temp_lsb");
    reveal_strlit("temp_msb");
    assert(is_ascii_chars("Ctrl_hum"@));
    is_ascii_chars_encode_utf8("Ctrl_hum"@);
    assert(is_ascii_chars("heat_off"@));
    is_ascii_chars_encode_utf8("heat_off"@);
    assert(is_ascii_chars("temp_lsb"@));
    is_ascii_chars_encode_utf8("temp_lsb"@);
    assert(is_ascii_chars("temp_msb"@));
    is_ascii_chars_encode_utf8("temp_msb"@);
}

/// What the bytes of a name tell when the name is one of the entries of
/// 9 characters: its length and, for the lookup to go by, byte 0.
proof fn lemma_names_of_length_9(name: &str)
    ensures
        name@ == "ctrl_meas"@ ==> name.spec_bytes().len() == 9 && name.spec_bytes()[0] == 0x63,
        name@ == "gas_r_lsb"@ ==> name.spec_bytes().len() == 9 && name.spec_bytes()[0] == 0x67,
        name@ == "gas_r_msb"@ ==> name.spec_bytes().len() == 9 && name.spec_bytes()[0] == 0x67,
        name@ == "temp_xlsb"@ ==> name.spec_bytes().len() == 9 && name.spec_bytes()[0] == 0x74,
        name@ == "press_lsb"@ ==> name.spec_bytes().len() == 9 && name.spec_bytes()[0] == 0x70,
        name@ == "press_msb"@ ==> name.spec_bytes().len() == 9 && name.spec_bytes()[0] == 0x70,
        "gas_r_lsb"@ != "gas_r_msb"@,
        "press_lsb"@ != "press_msb"@,
{
    reveal_strlit("ctrl_meas");
    reveal_strlit("gas_r_lsb");
    reveal_strlit("gas_r_msb");
    reveal_strlit("temp_xlsb");
    reveal_strlit("press_lsb");
    reveal_strlit("press_msb");
    assert(is_ascii_chars("ctrl_meas"@));
    is_ascii_chars_encode_utf8("ctrl_meas"@);
    assert(is_ascii_chars("gas_r_lsb"@));
    is_ascii_chars_encode_utf8("gas_r_lsb"@);
    assert(is_ascii_chars("gas_r_msb"@));
    is_ascii_chars_encode_utf8("gas_r_msb"@);
    assert(is_ascii_chars("temp_xlsb"@));
    is_ascii_chars_encode_utf8("temp_xlsb"@);
    assert(is_ascii_chars("press_lsb"@));
    is_ascii_chars_encode_utf8("press_lsb"@);
    assert(is_ascii_chars("press_msb"@));
    is_ascii_chars_encode_utf8("press_msb"@);
    assert("gas_r_lsb"@[6] != "gas_r_msb"@[6]);
    assert("press_lsb"@[6] != "press_msb"@[6]);
}

/// What the bytes of a name tell when the name is one of the entries of
/// 10 characters: its length and, for the lookup to go by, byte 9.
proof fn lemma_names_of_length_10(name: &str)
    ensures
        name@ == "ctrl_gas_1"@ ==> name.spec_bytes().len() == 10 && name.spec_bytes()[9] == 0x31,
        name@ == "ctrl_gas_0"@ ==> name.spec_bytes().len() == 10 && name.spec_bytes()[9] == 0x30,
        name@ == "gas_wait_9"@ ==> name.spec_bytes().len() == 10 && name.spec_bytes()[9] == 0x39,
        name@ == "gas_wait_8"@ ==> name.spec_bytes().len() == 10 && name.spec_bytes()[9] == 0x38,
        name@ == "gas_wait_7"@ ==> name.spec_bytes().len() == 10 && name.spec_bytes()[9] == 0x37,
        name@ == "gas_wait_6"@ ==> name.spec_bytes().len() == 10 && name.spec_bytes()[9] == 0x36,
        name@ == "gas_wait_5"@ ==> name.spec_bytes().len() == 10 && name.spec_bytes()[9] == 0x35,
        name@ == "gas_wait_4"@ ==> name.spec_bytes().len() == 10 && name.spec_bytes()[9] == 0x34,
        name@ == "gas_wait_3"@ ==> name.spec_bytes().len() == 10 && name.spec_bytes()[9] == 0x33,
        name@ == "gas_wait_2"@ ==> name.spec_bytes().len() == 10 && name.spec_bytes()[9] == 0x32,
        name@ == "gas_wait_1"@ ==> name.spec_bytes().len() == 10 && name.spec_bytes()[9] == 0x31,
        name@ == "gas_wait_0"@ ==> name.spec_bytes().len() == 10 && name.spec_bytes()[9] == 0x30,
        name@ == "res_heat_9"@ ==> name.spec_bytes().len() == 10 && name.spec_bytes()[9] == 0x39,
        name@ == "res_heat_8"@ ==> name.spec_bytes().len() == 10 && name.spec_bytes()[9] == 0x38,
        name@ == "res_heat_7"@ ==> name.spec_bytes().len() == 10 && name.spec_bytes()[9] == 0x37,
        name@ == "res_heat_6"@ ==> name.spec_bytes().len() == 10 && name.spec_bytes()[9] == 0x36,
        name@ == "res_heat_5"@ ==> name.spec_bytes().len() == 10 && name.spec_bytes()[9] == 0x35,
        name@ == "res_heat_4"@ ==> name.spec_bytes().len() == 10 && name.spec_bytes()[9] == 0x34,
        name@ == "res_heat_3"@ ==> name.spec_bytes().len() == 10 && name.spec_bytes()[9] == 0x33,
        name@ == "res_heat_2"@ ==> name.spec_bytes().len() == 10 && name.spec_bytes()[9] == 0x32,
        name@ == "res_heat_1"@ ==> name.spec_bytes().len() == 10 && name.spec_bytes()[9] == 0x31,
        name@ == "res_heat_0"@ ==> name.spec_bytes().len() == 10 && name.spec_bytes()[9] == 0x30,
        name@ == "press_xlsb"@ ==> name.spec_bytes().len() == 10 && name.spec_bytes()[9] == 0x62,
        "ctrl_gas_1"@ != "gas_wait_1"@,
        "ctrl_gas_1"@ != "res_heat_1"@,
        "gas_wait_1"@ != "res_heat_1"@,
        "ctrl_gas_0"@ != "gas_wait_0"@,
        "ctrl_gas_0"@ != "res_heat_0"@,
        "gas_wait_0"@ != "res_heat_0"@,
        "gas_wait_9"@ != "res_heat_9"@,
        "gas_wait_8"@ != "res_heat_8"@,
        "gas_wait_7"@ != "res_heat_7"@,
        "gas_wait_6"@ != "res_heat_6"@,
        "gas_wait_5"@ != "res_heat_5"@,
        "gas_wait_4"@ != "res_heat_4"@,
        "gas_wait_3"@ != "res_heat_3"@,
        "gas_wait_2"@ != "res_heat_2"@,
{
    reveal_strlit("ctrl_gas_1");
    reveal_strlit("ctrl_gas_0");
    reveal_strlit("gas_wait_9");
    reveal_strlit("gas_wait_8");
    reveal_strlit("gas_wait_7");
    reveal_strlit("gas_wait_6");
    reveal_strlit("gas_wait_5");
    reveal_strlit("gas_wait_4");
    reveal_strlit("gas_wait_3");
    reveal_strlit("gas_wait_2");
    reveal_strlit("gas_wait_1");
    reveal_strlit("gas_wait_0");
    reveal_strlit("res_heat_9");
    reveal_strlit("res_heat_8");
    reveal_strlit("res_heat_7");
    reveal_strlit("res_heat_6");
    reveal_strlit("res_heat_5");
    reveal_strlit("res_heat_4");
    reveal_strlit("res_heat_3");
    reveal_strlit("res_heat_2");
    reveal_strlit("res_heat_1");
    reveal_strlit("res_heat_0");
    reveal_strlit("press_xlsb");
    assert(is_ascii_chars("ctrl_gas_1"@));
    is_ascii_chars_encode_utf8("ctrl_gas_1"@);
    assert(is_ascii_chars("ctrl_gas_0"@));
    is_ascii_chars_encode_utf8("ctrl_gas_0"@);
    assert(is_ascii_chars("gas_wait_9"@));
    is_ascii_chars_encode_utf8("gas_wait_9"@);
    assert(is_ascii_chars("gas_wait_8"@));
    is_ascii_chars_encode_utf8("gas_wait_8"@);
    assert(is_ascii_chars("gas_wait_7"@));
    is_ascii_chars_encode_utf8("gas_wait_7"@);
    assert(is_ascii_chars("gas_wait_6"@));
    is_ascii_chars_encode_utf8("gas_wait_6"@);
    assert(is_ascii_chars("gas_wait_5"@));
    is_ascii_chars_encode_utf8("gas_wait_5"@);
    assert(is_ascii_chars("gas_wait_4"@));
    is_ascii_chars_encode_utf8("gas_wait_4"@);
    assert(is_ascii_chars("gas_wait_3"@));
    is_ascii_chars_encode_utf8("gas_wait_3"@);
    assert(is_ascii_chars("gas_wait_2"@));
    is_ascii_chars_encode_utf8("gas_wait_2"@);
    assert(is_ascii_chars("gas_wait_1"@));
    is_ascii_chars_encode_utf8("gas_wait_1"@);
    assert(is_ascii_chars("gas_wait_0"@));
    is_ascii_chars_encode_utf8("gas_wait_0"@);
    assert(is_ascii_chars("res_heat_9"@));
    is_ascii_chars_encode_utf8("res_heat_9"@);
    assert(is_ascii_chars("res_heat_8"@));
    is_ascii_chars_encode_utf8("res_heat_8"@);
    assert(is_ascii_chars("res_heat_7"@));
    is_ascii_chars_encode_utf8("res_heat_7"@);
    assert(is_ascii_chars("res_heat_6"@));
    is_ascii_chars_encode_utf8("res_heat_6"@);
    assert(is_ascii_chars("res_heat_5"@));
    is_ascii_chars_encode_utf8("res_heat_5"@);
    assert(is_ascii_chars("res_heat_4"@));
    is_ascii_chars_encode_utf8("res_heat_4"@);
    assert(is_ascii_chars("res_heat_3"@));
    is_ascii_chars_encode_utf8("res_heat_3"@);
    assert(is_ascii_chars("res_heat_2"@));
    is_ascii_chars_encode_utf8("res_heat_2"@);
    assert(is_ascii_chars("res_heat_1"@));
    is_ascii_chars_encode_utf8("res_heat_1"@);
    assert(is_ascii_chars("res_heat_0"@));
    is_ascii_chars_encode_utf8("res_heat_0"@);
    assert(is_ascii_chars("press_xlsb"@));
    is_ascii_chars_encode_utf8("press_xlsb"@);
    assert("ctrl_gas_1"@[0] != "gas_wait_1"@[0]);
    assert("ctrl_gas_1"@[0] != "res_heat_1"@[0]);
    assert("gas_wait_1"@[0] != "res_heat_1"@[0]);
    assert("ctrl_gas_0"@[0] != "gas_wait_0"@[0]);
    assert("ctrl_gas_0"@[0] != "res_heat_0"@[0]);
    assert("gas_wait_0"@[0] != "res_heat_0"@[0]);
    assert("gas_wait_9"@[0] != "res_heat_9"@[0]);
    assert("gas_wait_8"@[0] != "res_heat_8"@[0]);
    assert("gas_wait_7"@[0] != "res_heat_7"@[0]);
    assert("gas_wait_6"@[0] != "res_heat_6"@[0]);
    assert("gas_wait_5"@[0] != "res_heat_5"@[0]);
    assert("gas_wait_4"@[0] != "res_heat_4"@[0]);
    assert("gas_wait_3"@[0] != "res_heat_3"@[0]);
    assert("gas_wait_2"@[0] != "res_heat_2"@[0]);
}

/// What the bytes of a name tell when the name is one of the entries of
/// 11 characters: its length and, for the lookup to go by, byte 4.
proof fn lemma_names_of_length_11(name: &str)
    ensures
        name@ == "gas_range_r"@ ==> name.spec_bytes().len() == 11 && name.spec_bytes()[4] == 0x72,
        name@ == "heat_stab_r"@ ==> name.spec_bytes().len() == 11 && name.spec_bytes()[4] == 0x5f,
        name@ == "gas_valid_r"@ ==> name.spec_bytes().len() == 11 && name.spec_bytes()[4] == 0x76,
{
    reveal_strlit("gas_range_r");
    reveal_strlit("heat_stab_r");
    reveal_strlit("gas_valid_r");
    assert(is_ascii_chars("gas_range_r"@));
    is_ascii_chars_encode_utf8("gas_range_r"@);
    assert(is_ascii_chars("heat_stab_r"@));
    is_ascii_chars_encode_utf8("heat_stab_r"@);
    assert(is_ascii_chars("gas_valid_r"@));
    is_ascii_chars_encode_utf8("gas_valid_r"@);
}

/// What the bytes of a name tell when the name is one of the entries of
/// 12 characters: its length and, for the lookup to go by, byte 0.
proof fn lemma_names_of_length_12(name: &str)
    ensures
        name@ == "res_heat_val"@ ==> name.spec_bytes().len() == 12 && name.spec_bytes()[0] == 0x72,
{
    reveal_strlit("res_heat_val");
    assert(is_ascii_chars("res_heat_val"@));
    is_ascii_chars_encode_utf8("res_heat_val"@);
}

/// What the bytes of a name tell when the name is one of the entries of
/// 14 characters: its length and, for the lookup to go by, byte 0.
proof fn lemma_names_of_length_14(name: &str)
    ensures
        name@ == "res_heat_range"@ ==> name.spec_bytes().len() == 14
            && name.spec_bytes()[0] == 0x72,
{
    reveal_strlit("res_heat_range");
    assert(is_ascii_chars("res_heat_range"@));
    is_ascii_chars_encode_utf8("res_heat_range"@);
}

/// What the bytes of a name tell when the name is one of the entries of
/// 21 characters: its length and, for the lookup to go by, byte 0.
proof fn lemma_names_of_length_21(name: &str)
    ensures
        name@ == "range_switching_error"@ ==> name.spec_bytes().len() == 21
            && name.spec_bytes()[0] == 0x72,
{
    reveal_strlit("range_switching_error");
    assert(is_ascii_chars("range_switching_error"@));
    is_ascii_chars_encode_utf8("range_switching_error"@);
}

/// The directory of the BME680's fields.
#[derive(Copy, Clone, Debug)]
pub struct BME680FieldMap;

impl FieldMapProvider for BME680FieldMap {
    open spec fn lookup(name: Seq<char>) -> Option<Field> {
        bme680_field(name)
    }

    proof fn lemma_lookup_wf(name: Seq<char>) {
    }

    fn get_field(name: &str) -> (r: Option<&'static Field>) {
        let bytes = name.as_bytes();
        proof {
            lemma_names_of_length_2(name);
            lemma_names_of_length_4(name);
            lemma_names_of_length_5(name);
            lemma_names_of_length_6(name);
            lemma_names_of_length_7(name);
            lemma_names_of_length_8(name);
            lemma_names_of_length_9(name);
            lemma_names_of_length_10(name);
            lemma_names_of_length_11(name);
            lemma_names_of_length_12(name);
            lemma_names_of_length_14(name);
            lemma_names_of_length_21(name);
        }
        match bytes.len() {
            2 => {
                if str_eq(name, "Id") {
                    Some(&Field { reg: 0xd0, offset: 0, bits: 8, writable: false })
                } else {
                    None
                }
            },
            4 => {
                if str_eq(name, "mode") {
                    Some(&Field { reg: 0x74, offset: 0, bits: 2, writable: true })
                } else {
                    None
                }
            },
            5 => {
                if str_eq(name, "reset") {
                    Some(&Field { reg: 0xe0, offset: 0, bits: 8, writable: true })
                } else {
                    None
                }
            },
            6 => match bytes[5] {
                // '1'
                0x31 => {
                    if str_eq(name, "par_t1") {
                        Some(&Field { reg: 0xe9, offset: 0, bits: 8, writable: false })
                    } else if str_eq(name, "par_p1") {
                        Some(&Field { reg: 0x8e, offset: 0, bits: 8, writable: false })
                    } else if str_eq(name, "par_h1") {
                        Some(&Field { reg: 0xe2, offset: 0, bits: 8, writable: false })
                    } else if str_eq(name, "par_g1") {
                        Some(&Field { reg: 0xed, offset: 0, bits: 8, writable: false })
                    } else {
                        None
                    }
                },
                // '2'
                0x32 => {
                    if str_eq(name, "par_t2") {
                        Some(&Field { reg: 0x8a, offset: 0, bits: 8, writable: false })
                    } else if str_eq(name, "par_p2") {
                        Some(&Field { reg: 0x90, offset: 0, bits: 8, writable: false })
                    } else if str_eq(name, "par_h2") {
                        Some(&Field { reg: 0xe1, offset: 0, bits: 8, writable: false })
                    } else if str_eq(name, "par_g2") {
                        Some(&Field { reg: 0xeb, offset: 0, bits: 8, writable: false })
                    } else {
                        None
                    }
                },
                // '3'
                0x33 => {
                    if str_eq(name, "par_t3") {
                        Some(&Field { reg: 0x8c, offset: 0, bits: 8, writable: false })
                    } else if str_eq(name, "par_p3") {
                        Some(&Field { reg: 0x92, offset: 0, bits: 8, writable: false })
                    } else if str_eq(name, "par_h3") {
                        Some(&Field { reg: 0xe4, offset: 0, bits: 8, writable: false })
                    } else if str_eq(name, "par_g3") {
                        Some(&Field { reg: 0xee, offset: 0, bits: 8, writable: false })
                    } else {
                        None
                    }
                },
                // '4'
                0x34 => {
                    if str_eq(name, "par_p4") {
                        Some(&Field { reg: 0x94, offset: 0, bits: 8, writable: false })
                    } else if str_eq(name, "par_h4") {
                        Some(&Field { reg: 0xe5, offset: 0, bits: 8, writable: false })
                    } else {
                        None
                    }
                },
                // '5'
                0x35 => {
                    if str_eq(name, "par_p5") {
                        Some(&Field { reg: 0x96, offset: 0, bits: 8, writable: false })
                    } else if str_eq(name, "par_h5") {
                        Some(&Field { reg: 0xe6, offset: 0, bits: 8, writable: false })
                    } else {
                        None
                    }
                },
                // '6'
                0x36 => {
                    if str_eq(name, "par_p6") {
                        Some(&Field { reg: 0x99, offset: 0, bits: 8, writable: false })
                    } else if str_eq(name, "par_h6") {
                        Some(&Field { reg: 0xe7, offset: 0, bits: 8, writable: false })
                    } else {
                        None
                    }
                },
                // '7'
                0x37 => {
                    if str_eq(name, "par_p7") {
                        Some(&Field { reg: 0x98, offset: 0, bits: 8, writable: false })
                    } else if str_eq(name, "par_h7") {
                        Some(&Field { reg: 0xe8, offset: 0, bits: 8, writable: false })
                    } else {
                        None
                    }
                },
                // '8'
                0x38 => {
                    if str_eq(name, "par_p8") {
                        Some(&Field { reg: 0x9c, offset: 0, bits: 8, writable: false })
                    } else {
                        None
                    }
                },
                // '9'
                0x39 => {
                    if str_eq(name, "par_p9") {
                        Some(&Field { reg: 0x9e, offset: 0, bits: 8, writable: false })
                    } else {
                        None
                    }
                },
                // 'g'
                0x67 => {
                    if str_eq(name, "Config") {
                        Some(&Field { reg: 0x75, offset: 0, bits: 8, writable: true })
                    } else {
                        None
                    }
                },
                // 'h'
                0x68 => {
                    if str_eq(name, "osrs_h") {
                        Some(&Field { reg: 0x72, offset: 0, bits: 3, writable: true })
                    } else {
                        None
                    }
                },
                // 'p'
                0x70 => {
                    if str_eq(name, "osrs_p") {
                        Some(&Field { reg: 0x74, offset: 2, bits: 3, writable: true })
                    } else {
                        None
                    }
                },
                // 'r'
                0x72 => {
                    if str_eq(name, "filter") {
                        Some(&Field { reg: 0x75, offset: 2, bits: 3, writable: true })
                    } else {
                        None
                    }
                },
                // 's'
                0x73 => {
                    if str_eq(name, "status") {
                        Some(&Field { reg: 0x73, offset: 0, bits: 8, writable: true })
                    } else {
                        None
                    }
                },
                // 't'
                0x74 => {
                    if str_eq(name, "osrs_t") {
                        Some(&Field { reg: 0x74, offset: 5, bits: 3, writable: true })
                    } else {
                        None
                    }
                },
                _ => None,
            },
            7 => match bytes[4] {
                // '_'
                0x5f => {
                    if str_eq(name, "chip_id") {
                        Some(&Field { reg: 0xd0, offset: 0, bits: 8, writable: false })
                    } else {
                        None
                    }
                },
                // 'g'
                0x67 => {
                    if str_eq(name, "run_gas") {
                        Some(&Field { reg: 0x71, offset: 4, bits: 1, writable: true })
                    } else {
                        None
                    }
                },
                // 'l'
                0x6c => {
                    if str_eq(name, "hum_lsb") {
                        Some(&Field { reg: 0x26, offset: 0, bits: 8, writable: false })
                    } else {
                        None
                    }
                },
                // 'm'
                0x6d => {
                    if str_eq(name, "hum_msb") {
                        Some(&Field { reg: 0x25, offset: 0, bits: 8, writable: false })
                    } else {
                        None
                    }
                },
                // 'o'
                0x6f => {
                    if str_eq(name, "nb_conv") {
                        Some(&Field { reg: 0x71, offset: 0, bits: 4, writable: true })
                    } else {
                        None
                    }
                },
                // 'p'
                0x70 => {
                    if str_eq(name, "par_p10") {
                        Some(&Field { reg: 0xa0, offset: 0, bits: 8, writable: false })
                    } else {
                        None
                    }
                },
                _ => None,
            },
            8 => match bytes[5] {
                // 'h'
                0x68 => {
                    if str_eq(name, "Ctrl_hum") {
                        Some(&Field { reg: 0x72, offset: 0, bits: 8, writable: true })
                    } else {
                        None
                    }
                },
                // 'l'
                0x6c => {
                    if str_eq(name, "temp_lsb") {
                        Some(&Field { reg: 0x23, offset: 0, bits: 8, writable: false })
                    } else {
                        None
                    }
                },
                // 'm'
                0x6d => {
                    if str_eq(name, "temp_msb") {
                        Some(&Field { reg: 0x22, offset: 0, bits: 8, writable: false })
                    } else {
                        None
                    }
                },
                // 'o'
                0x6f => {
                    if str_eq(name, "heat_off") {
                        Some(&Field { reg: 0x70, offset: 3, bits: 1, writable: true })
                    } else {
                        None
                    }
                },
                _ => None,
            },
            9 => match bytes[0] {
                // 'c'
                0x63 => {
                    if str_eq(name, "ctrl_meas") {
                        Some(&Field { reg: 0x74, offset: 0, bits: 8, writable: true })
                    } else {
                        None
                    }
                },
                // 'g'
                0x67 => {
                    if str_eq(name, "gas_r_lsb") {
                        Some(&Field { reg: 0x2b, offset: 0, bits: 8, writable: false })
                    } else if str_eq(name, "gas_r_msb") {
                        Some(&Field { reg: 0x2a, offset: 0, bits: 8, writable: false })
                    } else {
                        None
                    }
                },
                // 'p'
                0x70 => {
                    if str_eq(name, "press_lsb") {
                        Some(&Field { reg: 0x20, offset: 0, bits: 8, writable: false })
                    } else if str_eq(name, "press_msb") {
                        Some(&Field { reg: 0x1f, offset: 0, bits: 8, writable: false })
                    } else {
                        None
                    }
                },
                // 't'
                0x74 => {
                    if str_eq(name, "temp_xlsb") {
                        Some(&Field { reg: 0x24, offset: 4, bits: 4, writable: false })
                    } else {
                        None
                    }
                },
                _ => None,
            },
            10 => match bytes[9] {
                // '0'
                0x30 => {
                    if str_eq(name, "ctrl_gas_0") {
                        Some(&Field { reg: 0x70, offset: 4, bits: 2, writable: true })
                    } else if str_eq(name, "gas_wait_0") {
                        Some(&Field { reg: 0x64, offset: 0, bits: 8, writable: true })
                    } else if str_eq(name, "res_heat_0") {
                        Some(&Field { reg: 0x5a, offset: 0, bits: 8, writable: true })
                    } else {
                        None
                    }
                },
                // '1'
                0x31 => {
                    if str_eq(name, "ctrl_gas_1") {
                        Some(&Field { reg: 0x71, offset: 0, bits: 8, writable: true })
                    } else if str_eq(name, "gas_wait_1") {
                        Some(&Field { reg: 0x65, offset: 0, bits: 8, writable: true })
                    } else if str_eq(name, "res_heat_1") {
                        Some(&Field { reg: 0x5b, offset: 0, bits: 8, writable: true })
                    } else {
                        None
                    }
                },
                // '2'
                0x32 => {
                    if str_eq(name, "gas_wait_2") {
                        Some(&Field { reg: 0x66, offset: 0, bits: 8, writable: true })
                    } else if str_eq(name, "res_heat_2") {
                        Some(&Field { reg: 0x5c, offset: 0, bits: 8, writable: true })
                    } else {
                        None
                    }
                },
                // '3'
                0x33 => {
                    if str_eq(name, "gas_wait_3") {
                        Some(&Field { reg: 0x67, offset: 0, bits: 8, writable: true })
                    } else if str_eq(name, "res_heat_3") {
                        Some(&Field { reg: 0x5d, offset: 0, bits: 8, writable: true })
                    } else {
                        None
                    }
                },
                // '4'
                0x34 => {
                    if str_eq(name, "gas_wait_4") {
                        Some(&Field { reg: 0x68, offset: 0, bits: 8, writable: true })
                    } else if str_eq(name, "res_heat_4") {
                        Some(&Field { reg: 0x5e, offset: 0, bits: 8, writable: true })
                    } else {
                        None
                    }
                },
                // '5'
                0x35 => {
                    if str_eq(name, "gas_wait_5") {
                        Some(&Field { reg: 0x69, offset: 0, bits: 8, writable: true })
                    } else if str_eq(name, "res_heat_5") {
                        Some(&Field { reg: 0x5f, offset: 0, bits: 8, writable: true })
                    } else {
                        None
                    }
                },
                // '6'
                0x36 => {
                    if str_eq(name, "gas_wait_6") {
                        Some(&Field { reg: 0x6a, offset: 0, bits: 8, writable: true })
                    } else if str_eq(name, "res_heat_6") {
                        Some(&Field { reg: 0x60, offset: 0, bits: 8, writable: true })
                    } else {
                        None
                    }
                },
                // '7'
                0x37 => {
                    if str_eq(name, "gas_wait_7") {
                        Some(&Field { reg: 0x6b, offset: 0, bits: 8, writable: true })
                    } else if str_eq(name, "res_heat_7") {
                        Some(&Field { reg: 0x61, offset: 0, bits: 8, writable: true })
                    } else {
                        None
                    }
                },
                // '8'
                0x38 => {
                    if str_eq(name, "gas_wait_8") {
                        Some(&Field { reg: 0x6c, offset: 0, bits: 8, writable: true })
                    } else if str_eq(name, "res_heat_8") {
                        Some(&Field { reg: 0x62, offset: 0, bits: 8, writable: true })
                    } else {
                        None
                    }
                },
                // '9'
                0x39 => {
                    if str_eq(name, "gas_wait_9") {
                        Some(&Field { reg: 0x6d, offset: 0, bits: 8, writable: true })
                    } else if str_eq(name, "res_heat_9") {
                        Some(&Field { reg: 0x63, offset: 0, bits: 8, writable: true })
                    } else {
                        None
                    }
                },
                // 'b'
                0x62 => {
                    if str_eq(name, "press_xlsb") {
                        Some(&Field { reg: 0x21, offset: 4, bits: 4, writable: false })
                    } else {
                        None
                    }
                },
                _ => None,
            },
            11 => match bytes[4] {
                // '_'
                0x5f => {
                    if str_eq(name, "heat_stab_r") {
                        Some(&Field { reg: 0x2b, offset: 4, bits: 1, writable: false })
                    } else {
                        None
                    }
                },
                // 'r'
                0x72 => {
                    if str_eq(name, "gas_range_r") {
                        Some(&Field { reg: 0x2b, offset: 0, bits: 4, writable: false })
                    } else {
                        None
                    }
                },
                // 'v'
                0x76 => {
                    if str_eq(name, "gas_valid_r") {
                        Some(&Field { reg: 0x2b, offset: 5, bits: 1, writable: false })
                    } else {
                        None
                    }
                },
                _ => None,
            },
            12 => {
                if str_eq(name, "res_heat_val") {
                    Some(&Field { reg: 0x00, offset: 0, bits: 8, writable: false })
                } else {
                    None
                }
            },
            14 => {
                if str_eq(name, "res_heat_range") {
                    Some(&Field { reg: 0x02, offset: 4, bits: 2, writable: false })
                } else {
                    None
                }
            },
            21 => {
                if str_eq(name, "range_switching_error") {
                    Some(&Field { reg: 0x04, offset: 0, bits: 8, writable: false })
                } else {
                    None
                }
            },
            _ => None,
        }
    }
}

/// The length of every name of the directory.
proof fn lemma_name_lengths()
    ensures
        "status"@.len() == 6,
        "reset"@.len() == 5,
        "Id"@.len() == 2,
        "chip_id"@.len() == 7,
        "Config"@.len() == 6,
        "filter"@.len() == 6,
        "ctrl_meas"@.len() == 9,
        "osrs_t"@.len() == 6,
        "osrs_p"@.len() == 6,
        "mode"@.len() == 4,
        "Ctrl_hum"@.len() == 8,
        "osrs_h"@.len() == 6,
        "ctrl_gas_1"@.len() == 10,
        "ctrl_gas_0"@.len() == 10,
        "run_gas"@.len() == 7,
        "nb_conv"@.len() == 7,
        "heat_off"@.len() == 8,
        "gas_wait_9"@.len() == 10,
        "gas_wait_8"@.len() == 10,
        "gas_wait_7"@.len() == 10,
        "gas_wait_6"@.len() == 10,
        "gas_wait_5"@.len() == 10,
        "gas_wait_4"@.len() == 10,
        "gas_wait_3"@.len() == 10,
        "gas_wait_2"@.len() == 10,
        "gas_wait_1"@.len() == 10,
        "gas_wait_0"@.len() == 10,
        "res_heat_9"@.len() == 10,
        "res_heat_8"@.len() == 10,
        "res_heat_7"@.len() == 10,
        "res_heat_6"@.len() == 10,
        "res_heat_5"@.len() == 10,
        "res_heat_4"@.len() == 10,
        "res_heat_3"@.len() == 10,
        "res_heat_2"@.len() == 10,
        "res_heat_1"@.len() == 10,
        "res_heat_0"@.len() == 10,
        "gas_r_lsb"@.len() == 9,
        "gas_range_r"@.len() == 11,
        "heat_stab_r"@.len() == 11,
        "gas_valid_r"@.len() == 11,
        "gas_r_msb"@.len() == 9,
        "hum_lsb"@.len() == 7,
        "hum_msb"@.len() == 7,
        "temp_xlsb"@.len() == 9,
        "temp_lsb"@.len() == 8,
        "temp_msb"@.len() == 8,
        "press_xlsb"@.len() == 10,
        "press_lsb"@.len() == 9,
        "press_msb"@.len() == 9,
        "par_t1"@.len() == 6,
        "par_t2"@.len() == 6,
        "par_t3"@.len() == 6,
        "par_p1"@.len() == 6,
        "par_p2"@.len() == 6,
        "par_p3"@.len() == 6,
        "par_p4"@.len() == 6,
        "par_p5"@.len() == 6,
        "par_p6"@.len() == 6,
        "par_p7"@.len() == 6,
        "par_p8"@.len() == 6,
        "par_p9"@.len() == 6,
        "par_p10"@.len() == 7,
        "par_h1"@.len() == 6,
        "par_h2"@.len() == 6,
        "par_h3"@.len() == 6,
        "par_h4"@.len() == 6,
        "par_h5"@.len() == 6,
        "par_h6"@.len() == 6,
        "par_h7"@.len() == 6,
        "par_g1"@.len() == 6,
        "par_g2"@.len() == 6,
        "par_g3"@.len() == 6,
        "res_heat_range"@.len() == 14,
        "res_heat_val"@.len() == 12,
        "range_switching_error"@.len() == 21,
{
    reveal_strlit("status");
    reveal_strlit("reset");
    reveal_strlit("Id");
    reveal_strlit("chip_id");
    reveal_strlit("Config");
    reveal_strlit("filter");
    reveal_strlit("ctrl_meas");
    reveal_strlit("osrs_t");
    reveal_strlit("osrs_p");
    reveal_strlit("mode");
    reveal_strlit("Ctrl_hum");
    reveal_strlit("osrs_h");
    reveal_strlit("ctrl_gas_1");
    reveal_strlit("ctrl_gas_0");
    reveal_strlit("run_gas");
    reveal_strlit("nb_conv");
    reveal_strlit("heat_off");
    reveal_strlit("gas_wait_9");
    reveal_strlit("gas_wait_8");
    reveal_strlit("gas_wait_7");
    reveal_strlit("gas_wait_6");
    reveal_strlit("gas_wait_5");
    reveal_strlit("gas_wait_4");
    reveal_strlit("gas_wait_3");
    reveal_strlit("gas_wait_2");
    reveal_strlit("gas_wait_1");
    reveal_strlit("gas_wait_0");
    reveal_strlit("res_heat_9");
    reveal_strlit("res_heat_8");
    reveal_strlit("res_heat_7");
    reveal_strlit("res_heat_6");
    reveal_strlit("res_heat_5");
    reveal_strlit("res_heat_4");
    reveal_strlit("res_heat_3");
    reveal_strlit("res_heat_2");
    reveal_strlit("res_heat_1");
    reveal_strlit("res_heat_0");
    reveal_strlit("gas_r_lsb");
    reveal_strlit("gas_range_r");
    reveal_strlit("heat_stab_r");
    reveal_strlit("gas_valid_r");
    reveal_strlit("gas_r_msb");
    reveal_strlit("hum_lsb");
    reveal_strlit("hum_msb");
    reveal_strlit("temp_xlsb");
    reveal_strlit("temp_lsb");
    reveal_strlit("temp_msb");
    reveal_strlit("press_xlsb");
    reveal_strlit("press_lsb");
    reveal_strlit("press_msb");
    reveal_strlit("par_t1");
    reveal_strlit("par_t2");
    reveal_strlit("par_t3");
    reveal_strlit("par_p1");
    reveal_strlit("par_p2");
    reveal_strlit("par_p3");
    reveal_strlit("par_p4");
    reveal_strlit("par_p5");
    reveal_strlit("par_p6");
    reveal_strlit("par_p7");
    reveal_strlit("par_p8");
    reveal_strlit("par_p9");
    reveal_strlit("par_p10");
    reveal_strlit("par_h1");
    reveal_strlit("par_h2");
    reveal_strlit("par_h3");
    reveal_strlit("par_h4");
    reveal_strlit("par_h5");
    reveal_strlit("par_h6");
    reveal_strlit("par_h7");
    reveal_strlit("par_g1");
    reveal_strlit("par_g2");
    reveal_strlit("par_g3");
    reveal_strlit("res_heat_range");
    reveal_strlit("res_heat_val");
    reveal_strlit("range_switching_error");
}

/// A number below 256 has between one and three decimal digits, and the
/// first of them is no letter.
proof fn lemma_decimal_shape(index: u8)
    ensures
        index <= 9 ==> decimal_digits(index as nat) =~= seq![digit_char(index as nat)],
        10 <= index <= 99 ==> decimal_digits(index as nat).len() == 2,
        100 <= index ==> decimal_digits(index as nat).len() == 3,
        48 <= decimal_digits(index as nat)[0] as int <= 57,
{
    reveal_with_fuel(decimal_digits, 3);
}

/// The gas-wait register of heater profile `profile`. The sensor has ten
/// profiles, 0 to 9; a higher number names no field.
pub open spec fn gas_wait_field(profile: u8) -> Option<Field> {
    if profile <= 9 {
        Some(Field { reg: (0x64 + profile) as u8, offset: 0, bits: 8, writable: true })
    } else {
        None
    }
}

/// The heater-resistance register of heater profile `profile`.
pub open spec fn res_heat_field(profile: u8) -> Option<Field> {
    if profile <= 9 {
        Some(Field { reg: (0x5a + profile) as u8, offset: 0, bits: 8, writable: true })
    } else {
        None
    }
}

/// The field of a heater profile under its numbered name: the gas wait
/// under `gas_wait_` if `gas` is set, the heater resistance under
/// `res_heat_` if not.
proof fn lemma_numbered_names(gas: bool, profile: u8)
    ensures
        gas ==> bme680_field(spec_indexed_name("gas_wait_"@, profile)) == gas_wait_field(profile),
        !gas ==> bme680_field(spec_indexed_name("res_heat_"@, profile)) == res_heat_field(
            profile,
        ),
{
    lemma_name_lengths();
    lemma_decimal_shape(profile);
    reveal_strlit("gas_wait_");
    reveal_strlit("res_heat_");
    reveal_strlit("ctrl_gas_1");
    reveal_strlit("ctrl_gas_0");
    reveal_strlit("gas_wait_9");
    reveal_strlit("gas_wait_8");
    reveal_strlit("gas_wait_7");
    reveal_strlit("gas_wait_6");
    reveal_strlit("gas_wait_5");
    reveal_strlit("gas_wait_4");
    reveal_strlit("gas_wait_3");
    reveal_strlit("gas_wait_2");
    reveal_strlit("gas_wait_1");
    reveal_strlit("gas_wait_0");
    reveal_strlit("res_heat_9");
    reveal_strlit("res_heat_8");
    reveal_strlit("res_heat_7");
    reveal_strlit("res_heat_6");
    reveal_strlit("res_heat_5");
    reveal_strlit("res_heat_4");
    reveal_strlit("res_heat_3");
    reveal_strlit("res_heat_2");
    reveal_strlit("res_heat_1");
    reveal_strlit("res_heat_0");
    reveal_strlit("gas_range_r");
    reveal_strlit("heat_stab_r");
    reveal_strlit("gas_valid_r");
    reveal_strlit("press_xlsb");
    reveal_strlit("res_heat_val");
    let digits = decimal_digits(profile as nat);
    if gas {
        let name = spec_indexed_name("gas_wait_"@, profile);
        assert(name.len() == 9 + digits.len());
        assert(name[4] == 'w');
        assert(name[9] == digits[0]);
        if profile <= 9 {
            if profile == 0 {
                assert(name =~= "gas_wait_0"@);
            }
            if profile == 1 {
                assert(name =~= "gas_wait_1"@);
            }
            if profile == 2 {
                assert(name =~= "gas_wait_2"@);
            }
            if profile == 3 {
                assert(name =~= "gas_wait_3"@);
            }
            if profile == 4 {
                assert(name =~= "gas_wait_4"@);
            }
            if profile == 5 {
                assert(name =~= "gas_wait_5"@);
            }
            if profile == 6 {
                assert(name =~= "gas_wait_6"@);
            }
            if profile == 7 {
                assert(name =~= "gas_wait_7"@);
            }
            if profile == 8 {
                assert(name =~= "gas_wait_8"@);
            }
            if profile == 9 {
                assert(name =~= "gas_wait_9"@);
            }
        }
    } else {
        let name = spec_indexed_name("res_heat_"@, profile);
        assert(name.len() == 9 + digits.len());
        assert(name[0] == 'r');
        assert(name[2] == 's');
        assert(name[9] == digits[0]);
        if profile <= 9 {
            if profile == 0 {
                assert(name =~= "res_heat_0"@);
            }
            if profile == 1 {
                assert(name =~= "res_heat_1"@);
            }
            if profile == 2 {
                assert(name =~= "res_heat_2"@);
            }
            if profile == 3 {
                assert(name =~= "res_heat_3"@);
            }
            if profile == 4 {
                assert(name =~= "res_heat_4"@);
            }
            if profile == 5 {
                assert(name =~= "res_heat_5"@);
            }
            if profile == 6 {
                assert(name =~= "res_heat_6"@);
            }
            if profile == 7 {
                assert(name =~= "res_heat_7"@);
            }
            if profile == 8 {
                assert(name =~= "res_heat_8"@);
            }
            if profile == 9 {
                assert(name =~= "res_heat_9"@);
            }
        }
    }
}

/// The directory holds the gas-wait field of each of the ten heater
/// profiles under `gas_wait_` and the profile's number, and nothing under
/// that prefix with a higher number.
pub proof fn lemma_gas_wait_names(profile: u8)
    ensures
        bme680_field(spec_indexed_name("gas_wait_"@, profile)) == gas_wait_field(profile),
{
    lemma_numbered_names(true, profile);
}

/// The directory holds the heater-resistance field of each of the ten
/// heater profiles under `res_heat_` and the profile's number, and nothing
/// under that prefix with a higher number.
pub proof fn lemma_res_heat_names(profile: u8)
    ensures
        bme680_field(spec_indexed_name("res_heat_"@, profile)) == res_heat_field(profile),
{
    lemma_numbered_names(false, profile);
}

/// Where the driver's accesses by name go in the register map: the fields
/// of a measurement, of the set-up and of the heater correction.
pub proof fn lemma_driver_fields()
    ensures
        bme680_field("mode"@) == Some(Field { reg: 0x74, offset: 0, bits: 2, writable: true }),
        bme680_field("temp_msb"@) == Some(Field { reg: 0x22, offset: 0, bits: 8, writable: false }),
        bme680_field("press_msb"@) == Some(
            Field { reg: 0x1f, offset: 0, bits: 8, writable: false },
        ),
        bme680_field("osrs_h"@) == Some(Field { reg: 0x72, offset: 0, bits: 3, writable: true }),
        bme680_field("osrs_t"@) == Some(Field { reg: 0x74, offset: 5, bits: 3, writable: true }),
        bme680_field("osrs_p"@) == Some(Field { reg: 0x74, offset: 2, bits: 3, writable: true }),
        bme680_field("filter"@) == Some(Field { reg: 0x75, offset: 2, bits: 3, writable: true }),
        bme680_field("gas_range_r"@) == Some(
            Field { reg: 0x2b, offset: 0, bits: 4, writable: false },
        ),
        bme680_field("run_gas"@) == Some(Field { reg: 0x71, offset: 4, bits: 1, writable: true }),
        bme680_field("nb_conv"@) == Some(Field { reg: 0x71, offset: 0, bits: 4, writable: true }),
        bme680_field("res_heat_range"@) == Some(
            Field { reg: 0x02, offset: 4, bits: 2, writable: false },
        ),
        bme680_field("res_heat_val"@) == Some(
            Field { reg: 0x00, offset: 0, bits: 8, writable: false },
        ),
{
    lemma_name_lengths();
    reveal_strlit("status");
    reveal_strlit("chip_id");
    reveal_strlit("Config");
    reveal_strlit("filter");
    reveal_strlit("ctrl_meas");
    reveal_strlit("osrs_t");
    reveal_strlit("osrs_p");
    reveal_strlit("Ctrl_hum");
    reveal_strlit("osrs_h");
    reveal_strlit("run_gas");
    reveal_strlit("nb_conv");
    reveal_strlit("heat_off");
    reveal_strlit("gas_r_lsb");
    reveal_strlit("gas_r_msb");
    reveal_strlit("temp_xlsb");
    reveal_strlit("temp_lsb");
    reveal_strlit("temp_msb");
    reveal_strlit("press_lsb");
    reveal_strlit("press_msb");
    assert("temp_msb"@[0] != "Ctrl_hum"@[0]);
    assert("temp_msb"@[0] != "heat_off"@[0]);
    assert("temp_msb"@[5] != "temp_lsb"@[5]);
    assert("press_msb"@[0] != "ctrl_meas"@[0]);
    assert("press_msb"@[0] != "gas_r_lsb"@[0]);
    assert("press_msb"@[0] != "gas_r_msb"@[0]);
    assert("press_msb"@[0] != "temp_xlsb"@[0]);
    assert("press_msb"@[6] != "press_lsb"@[6]);
    assert("osrs_h"@[0] != "status"@[0]);
    assert("osrs_h"@[0] != "Config"@[0]);
    assert("osrs_h"@[0] != "filter"@[0]);
    assert("osrs_h"@[5] != "osrs_t"@[5]);
    assert("osrs_h"@[5] != "osrs_p"@[5]);
    assert("osrs_t"@[0] != "status"@[0]);
    assert("osrs_t"@[0] != "Config"@[0]);
    assert("osrs_t"@[0] != "filter"@[0]);
    assert("osrs_p"@[0] != "status"@[0]);
    assert("osrs_p"@[0] != "Config"@[0]);
    assert("osrs_p"@[0] != "filter"@[0]);
    assert("osrs_p"@[5] != "osrs_t"@[5]);
    assert("filter"@[0] != "status"@[0]);
    assert("filter"@[0] != "Config"@[0]);
    assert("run_gas"@[0] != "chip_id"@[0]);
    assert("nb_conv"@[0] != "chip_id"@[0]);
    assert("nb_conv"@[0] != "run_gas"@[0]);
}

/// The register map holds every name under which the driver reads the
/// calibration.
pub proof fn lemma_calibration_names_known()
    ensures
        bme680_field("par_t1"@) is Some,
        bme680_field("par_t2"@) is Some,
        bme680_field("par_t3"@) is Some,
        bme680_field("par_p1"@) is Some,
        bme680_field("par_p2"@) is Some,
        bme680_field("par_p3"@) is Some,
        bme680_field("par_p4"@) is Some,
        bme680_field("par_p5"@) is Some,
        bme680_field("par_p6"@) is Some,
        bme680_field("par_p7"@) is Some,
        bme680_field("par_p8"@) is Some,
        bme680_field("par_p9"@) is Some,
        bme680_field("par_p10"@) is Some,
        bme680_field("par_h1"@) is Some,
        bme680_field("par_h2"@) is Some,
        bme680_field("par_h3"@) is Some,
        bme680_field("par_h4"@) is Some,
        bme680_field("par_h5"@) is Some,
        bme680_field("par_h6"@) is Some,
        bme680_field("par_h7"@) is Some,
        bme680_field("par_g1"@) is Some,
        bme680_field("par_g2"@) is Some,
        bme680_field("par_g3"@) is Some,
{
}

} // verus!
