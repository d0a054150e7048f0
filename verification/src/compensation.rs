//! The fixed-point compensation formulas of the BME680.
//!
//! The sensor's converter gives raw words; the formulas of the data sheet
//! turn them into physical units with the help of the factory calibration.
//! Every shift of those formulas rounds towards minus infinity and every
//! division towards zero, as the data sheet's integer code does. The
//! specifications say so with `/` on mathematical integers, which rounds
//! down for a positive divisor, and with [`div_toward_zero`].

use vstd::prelude::*;

use crate::bme680::CalCodes;

verus! {

/// The largest word that the 20-bit converter gives.
pub const ADC_MAX: u32 = 0xF_FFFF;

/// The bound of the fine temperature: whatever the calibration, the fine
/// temperature of a 20-bit word lies strictly between minus and plus this.
pub const FINE_LIMIT: i32 = 0x400_0000;

/// The word that the converter gives, put together from the three registers
/// that hold it: the 20 bits lie most significant byte first, and the last
/// register holds the lowest four of them in its high nibble.
pub open spec fn spec_adc_word(msb: u8, lsb: u8, xlsb: u8) -> int {
    msb * 4096 + lsb * 16 + xlsb / 16
}

/// Puts the converter's word together from its three registers.
pub fn adc_word(msb: u8, lsb: u8, xlsb: u8) -> (word: u32)
    ensures
        word == spec_adc_word(msb, lsb, xlsb),
        word <= ADC_MAX,
{
    assert((((msb as u32) << 12) | ((lsb as u32) << 4) | ((xlsb as u32) >> 4)) == msb * 4096 + lsb
        * 16 + xlsb / 16 && (((msb as u32) << 12) | ((lsb as u32) << 4) | ((xlsb as u32) >> 4))
        <= 0xF_FFFF) by (bit_vector);
    ((msb as u32) << 12) | ((lsb as u32) << 4) | ((xlsb as u32) >> 4)
}

/// Division that rounds towards zero, as the machine divides.
pub open spec fn div_toward_zero(a: int, b: int) -> int
    recommends
        b != 0,
{
    if a >= 0 {
        a / b
    } else {
        -((-a) / b)
    }
}

/// The fine temperature of a raw temperature word: the intermediate value
/// on which the compensation of every other measurement rests.
pub open spec fn spec_t_fine(temp_adc: int, par_t1: int, par_t2: int, par_t3: int) -> int {
    let var1 = temp_adc / 8 - par_t1 * 2;
    let var2 = (var1 * par_t2) / 2048;
    let half = var1 / 2;
    let var3 = (((half * half) / 4096) * (par_t3 * 16)) / 16384;
    var2 + var3
}

/// The temperature in hundredths of a degree Celsius that belongs to a fine
/// temperature.
pub open spec fn spec_temp_comp(t_fine: int) -> int {
    (t_fine * 5 + 128) / 256
}

impl CalCodes {
    /// The fine temperature that this calibration gives for the raw word
    /// `temp_adc`.
    pub open spec fn spec_fine_temperature(&self, temp_adc: u32) -> int {
        spec_t_fine(temp_adc as int, self.par_t1 as int, self.par_t2 as int, self.par_t3 as int)
    }

    /// The temperature in hundredths of a degree Celsius that this
    /// calibration gives for the raw word `temp_adc`.
    pub open spec fn spec_temperature(&self, temp_adc: u32) -> int {
        spec_temp_comp(self.spec_fine_temperature(temp_adc))
    }

    /// Computes the fine temperature of a raw temperature word. The products
    /// are formed in 64 bits: the square of a 16-bit coefficient does not fit
    /// in 32.
    pub fn fine_temperature(&self, temp_adc: u32) -> (t_fine: i32)
        requires
            temp_adc <= ADC_MAX,
        ensures
            t_fine == self.spec_fine_temperature(temp_adc),
            -FINE_LIMIT < t_fine < FINE_LIMIT,
    {
        let par_t1 = self.par_t1;
        let par_t2 = self.par_t2;
        let par_t3 = self.par_t3;
        let adc: i32 = temp_adc as i32;
        let t1: i32 = par_t1 as i32;
        let t2: i64 = par_t2 as i64;
        let t3: i64 = par_t3 as i64;
        assert(adc >> 3 == adc / 8 && t1 << 1 == t1 * 2 && t3 << 4 == t3 * 16) by (bit_vector)
            requires
                0 <= adc <= 0xF_FFFF,
                0 <= t1 <= 0xFFFF,
                -0x8000 <= t3 <= 0x7FFF,
        ;
        let var1: i64 = ((adc >> 3) - (t1 << 1)) as i64;
        assert(-0x2_0000 < var1 < 0x2_0000);
        assert(-0x1_0000_0000 < var1 * t2 < 0x1_0000_0000) by (nonlinear_arith)
            requires
                -0x2_0000 < var1 < 0x2_0000,
                -0x8000 <= t2 <= 0x7FFF,
        ;
        let prod: i64 = var1 * t2;
        let half: i64 = var1 >> 1;
        assert(prod >> 11 == prod / 2048 && half == var1 / 2) by (bit_vector)
            requires
                half == var1 >> 1,
        ;
        let var2: i64 = prod >> 11;
        assert(0 <= half * half <= 0x1_0000_0000) by (nonlinear_arith)
            requires
                -0x1_0000 <= half <= 0x1_0000,
        ;
        let square: i64 = half * half;
        assert(square >> 12 == square / 4096) by (bit_vector);
        let scaled: i64 = square >> 12;
        let t3_16: i64 = t3 << 4;
        assert(-0x80_0000_0000 <= scaled * t3_16 <= 0x80_0000_0000) by (nonlinear_arith)
            requires
                0 <= scaled <= 0x10_0000,
                -0x8_0000 <= t3_16 <= 0x7_FFF0,
        ;
        let prod3: i64 = scaled * t3_16;
        assert(prod3 >> 14 == prod3 / 16384) by (bit_vector);
        let var3: i64 = prod3 >> 14;
        (var2 + var3) as i32
    }
}

/// Computes the temperature in hundredths of a degree Celsius from a fine
/// temperature.
pub fn temperature_from_fine(t_fine: i32) -> (temp_comp: i32)
    requires
        i32::MIN <= t_fine * 5,
        t_fine * 5 + 128 <= i32::MAX,
    ensures
        temp_comp == spec_temp_comp(t_fine as int),
{
    let scaled: i32 = t_fine * 5 + 128;
    assert(scaled >> 8 == scaled / 256) by (bit_vector);
    scaled >> 8
}

/// Splits a temperature in hundredths of a degree into whole degrees and
/// the hundredths that remain, for printing. Both parts carry the sign of
/// the temperature.
pub fn temperature_parts(temp_comp: i32) -> (parts: (i32, i32))
    ensures
        parts.0 == div_toward_zero(temp_comp as int, 100),
        parts.1 == temp_comp - 100 * parts.0,
        -100 < parts.1 < 100,
{
    (temp_comp / 100, temp_comp % 100)
}

/// The heater-resistance code that makes the hot plate reach `target_temp`
/// degrees Celsius at an ambient temperature of `amb_temp` degrees, before
/// it is cut down to a byte.
pub open spec fn spec_res_heat(
    amb_temp: int,
    target_temp: int,
    par_g1: int,
    par_g2: int,
    par_g3: int,
    res_heat_range: int,
    res_heat_val: int,
) -> int {
    let var1 = div_toward_zero(amb_temp * par_g3, 10) * 256;
    let var2 = (par_g1 + 784) * div_toward_zero(
        div_toward_zero((par_g2 + 154_009) * target_temp * 5, 100) + 3_276_800,
        10,
    );
    let var3 = var1 + var2 / 2;
    let var4 = div_toward_zero(var3, res_heat_range + 4);
    let var5 = 131 * res_heat_val + 65_536;
    let res_heat_x100 = (div_toward_zero(var4, var5) - 250) * 34;
    div_toward_zero(res_heat_x100 + 50, 100)
}

impl CalCodes {
    /// The byte that the heater-resistance register takes for this
    /// calibration: the low eight bits of the resistance code.
    pub open spec fn spec_heater_resistance(
        &self,
        amb_temp: i32,
        target_temp: i16,
        res_heat_range: u8,
        res_heat_val: u8,
    ) -> u8 {
        (spec_res_heat(
            amb_temp as int,
            target_temp as int,
            self.par_g1 as int,
            self.par_g2 as int,
            self.par_g3 as int,
            res_heat_range as int,
            res_heat_val as int,
        ) % 256) as u8
    }

    /// Computes the heater-resistance byte for a target temperature of the
    /// hot plate. `res_heat_range` and `res_heat_val` are the two correction
    /// values that the sensor holds beside its gas coefficients. The
    /// arithmetic is done in 64 bits, where no product of the formula can
    /// overflow.
    pub fn heater_resistance(
        &self,
        amb_temp: i32,
        target_temp: i16,
        res_heat_range: u8,
        res_heat_val: u8,
    ) -> (res_heat_x: u8)
        ensures
            res_heat_x == self.spec_heater_resistance(
                amb_temp,
                target_temp,
                res_heat_range,
                res_heat_val,
            ),
    {
        let amb: i64 = amb_temp as i64;
        let target: i64 = target_temp as i64;
        let g1: i64 = self.par_g1 as i64;
        let g2: i64 = self.par_g2 as i64;
        let g3: i64 = self.par_g3 as i64;
        let range: i64 = res_heat_range as i64;
        let val: i64 = res_heat_val as i64;

        assert(-0x40_0000_0000 <= amb * g3 <= 0x40_0000_0000) by (nonlinear_arith)
            requires
                -0x8000_0000 <= amb <= 0x7FFF_FFFF,
                -128 <= g3 <= 127,
        ;
        let ambient: i64 = (amb * g3) / 10;
        let var1: i64 = ambient * 256;
        assert(-0x20_0000_0000 <= (g2 + 154_009) * target <= 0x20_0000_0000) by (nonlinear_arith)
            requires
                -0x8000 <= g2 <= 0x7FFF,
                -0x8000 <= target <= 0x7FFF,
        ;
        let slope: i64 = ((((g2 + 154_009) * target * 5) / 100) + 3_276_800) / 10;
        assert(-0x1000_0000_0000 <= (g1 + 784) * slope <= 0x1000_0000_0000) by (nonlinear_arith)
            requires
                -128 <= g1 <= 127,
                -0x1_0000_0000 <= slope <= 0x1_0000_0000,
        ;
        let var2: i64 = (g1 + 784) * slope;
        assert(var2 >> 1 == var2 / 2) by (bit_vector);
        let var3: i64 = var1 + (var2 >> 1);
        let var4: i64 = var3 / (range + 4);
        let var5: i64 = 131 * val + 65_536;
        let ratio: i64 = var4 / var5;
        assert(-0x1000_0000_0000 <= ratio <= 0x1000_0000_0000) by (nonlinear_arith)
            requires
                -0x1000_0000_0000 <= var4 <= 0x1000_0000_0000,
                var5 >= 1,
                ratio == div_toward_zero(var4 as int, var5 as int),
        ;
        let res_heat_x100: i64 = (ratio - 250) * 34;
        let res_heat: i64 = (res_heat_x100 + 50) / 100;
        assert(#[verifier::truncate] (res_heat as u8) == res_heat % 256) by (bit_vector);
        #[verifier::truncate]
        (res_heat as u8)
    }
}

/// The pressure formula's offset term: it depends on the temperature and on
/// the coefficients 4 to 6.
pub open spec fn spec_press_offset(t_fine: int, par_p4: int, par_p5: int, par_p6: int) -> int {
    let var1 = t_fine / 2 - 64000;
    let quarter = var1 / 4;
    let var2 = (((quarter * quarter) / 2048) * par_p6) / 4 + (var1 * par_p5) * 2;
    var2 / 4 + par_p4 * 65536
}

/// The pressure formula's scale term: it depends on the temperature and on
/// the coefficients 1 to 3.
pub open spec fn spec_press_scale(t_fine: int, par_p1: int, par_p2: int, par_p3: int) -> int {
    let var1 = t_fine / 2 - 64000;
    let quarter = var1 / 4;
    let curve = ((((quarter * quarter) / 8192) * (par_p3 * 32)) / 8 + (par_p2 * var1) / 2)
        / 262144;
    ((32768 + curve) * par_p1) / 32768
}

/// The raw pressure word with the offset taken off, divided by the scale.
/// Whether the doubling comes before or after the division depends on the
/// size of the dividend, as in the data sheet, where that keeps the dividend
/// inside 32 bits.
pub open spec fn spec_press_scaled(press_adc: int, offset: int, scale: int) -> int {
    let raw = ((1048576 - press_adc) - offset / 4096) * 3125;
    if raw >= 0x4000_0000 {
        div_toward_zero(raw, scale) * 2
    } else {
        div_toward_zero(raw * 2, scale)
    }
}

/// The scaled pressure with the correction of the coefficients 7 to 10: a
/// constant, a linear, a quadratic and a cubic term.
pub open spec fn spec_press_corrected(
    press: int,
    par_p7: int,
    par_p8: int,
    par_p9: int,
    par_p10: int,
) -> int {
    let eighth = press / 8;
    let var1 = (par_p9 * ((eighth * eighth) / 8192)) / 4096;
    let var2 = ((press / 4) * par_p8) / 8192;
    let part = press / 256;
    let var3 = (part * part * part * par_p10) / 131072;
    press + (var1 + var2 + var3 + par_p7 * 128) / 16
}

/// The pressure in pascal that belongs to the raw pressure word `press_adc`
/// at the fine temperature `t_fine`, before it is cut down to 32 bits. A
/// calibration whose scale term is zero allows no division; the pressure is
/// then given as zero.
pub open spec fn spec_press_comp(press_adc: int, t_fine: int, cal: CalCodes) -> int {
    let offset = spec_press_offset(
        t_fine,
        cal.par_p4 as int,
        cal.par_p5 as int,
        cal.par_p6 as int,
    );
    let scale = spec_press_scale(t_fine, cal.par_p1 as int, cal.par_p2 as int, cal.par_p3 as int);
    if scale == 0 {
        0
    } else {
        spec_press_corrected(
            spec_press_scaled(press_adc, offset, scale),
            cal.par_p7 as int,
            cal.par_p8 as int,
            cal.par_p9 as int,
            cal.par_p10 as int,
        )
    }
}

/// The product of two numbers is as far from zero as the product of their
/// bounds at most.
proof fn lemma_product_bound(a: int, b: int, bound_a: int, bound_b: int)
    by (nonlinear_arith)
    requires
        -bound_a <= a <= bound_a,
        -bound_b <= b <= bound_b,
    ensures
        -(bound_a * bound_b) <= a * b <= bound_a * bound_b,
{
}

/// A quotient is no further from zero than its dividend.
proof fn lemma_quotient_bound(a: int, b: int, bound: int)
    by (nonlinear_arith)
    requires
        b != 0,
        -bound <= a <= bound,
    ensures
        -bound <= div_toward_zero(a, b) <= bound,
{
}

/// Division by a positive number, rounded towards minus infinity: what a
/// shift to the right that keeps the sign gives for a power of two.
fn div_floor(x: i128, d: i128) -> (q: i128)
    requires
        0 < d,
        -0x4000_0000_0000_0000_0000_0000_0000_0000 < x,
    ensures
        q == x / d,
{
    let q = x / d;
    let r = x % d;
    if r < 0 {
        assert(q - 1 == x / d) by (nonlinear_arith)
            requires
                x < 0,
                d > 0,
                r < 0,
                r == -((-x) % d as int),
                q == -((-x) / d as int),
        ;
        q - 1
    } else {
        assert(q == x / d) by (nonlinear_arith)
            requires
                d > 0,
                r >= 0,
                r == (if x >= 0 {
                    x as int % d as int
                } else {
                    -((-x) % d as int)
                }),
                q == (if x >= 0 {
                    x as int / d as int
                } else {
                    -((-x) / d as int)
                }),
        ;
        q
    }
}

fn press_offset(t_fine: i32, par_p4: i16, par_p5: i16, par_p6: i8) -> (offset: i128)
    requires
        -FINE_LIMIT < t_fine < FINE_LIMIT,
    ensures
        offset == spec_press_offset(t_fine as int, par_p4 as int, par_p5 as int, par_p6 as int),
        -0x400_0000_0000 <= offset <= 0x400_0000_0000,
{
    let var1: i128 = div_floor(t_fine as i128, 2) - 64000;
    let quarter: i128 = div_floor(var1, 4);
    proof {
        lemma_product_bound(quarter as int, quarter as int, 0x100_0000, 0x100_0000);
    }
    let bend: i128 = div_floor(quarter * quarter, 2048);
    proof {
        lemma_product_bound(bend as int, par_p6 as int, 0x20_0000_0000, 0x80);
        lemma_product_bound(var1 as int, par_p5 as int, 0x400_0000, 0x8000);
    }
    let var2: i128 = div_floor(bend * (par_p6 as i128), 4) + (var1 * (par_p5 as i128)) * 2;
    div_floor(var2, 4) + (par_p4 as i128) * 65536
}

fn press_scale(t_fine: i32, par_p1: u16, par_p2: i16, par_p3: i8) -> (scale: i128)
    requires
        -FINE_LIMIT < t_fine < FINE_LIMIT,
    ensures
        scale == spec_press_scale(t_fine as int, par_p1 as int, par_p2 as int, par_p3 as int),
        -0x2000_0000 <= scale <= 0x2000_0000,
{
    let var1: i128 = div_floor(t_fine as i128, 2) - 64000;
    let quarter: i128 = div_floor(var1, 4);
    proof {
        lemma_product_bound(quarter as int, quarter as int, 0x100_0000, 0x100_0000);
    }
    let bend: i128 = div_floor(quarter * quarter, 8192);
    let slope: i128 = (par_p3 as i128) * 32;
    proof {
        lemma_product_bound(bend as int, slope as int, 0x8_0000_0000, 0x1000);
        lemma_product_bound(par_p2 as int, var1 as int, 0x8000, 0x400_0000);
    }
    let curve: i128 = div_floor(
        div_floor(bend * slope, 8) + div_floor((par_p2 as i128) * var1, 2),
        262144,
    );
    proof {
        lemma_product_bound(32768 + curve, par_p1 as int, 0x1000_0000, 0x1_0000);
    }
    div_floor((32768 + curve) * (par_p1 as i128), 32768)
}

fn press_scaled(press_adc: u32, offset: i128, scale: i128) -> (press: i128)
    requires
        press_adc <= ADC_MAX,
        -0x400_0000_0000 <= offset <= 0x400_0000_0000,
        scale != 0,
    ensures
        press == spec_press_scaled(press_adc as int, offset as int, scale as int),
        -0x1000_0000_0000 <= press <= 0x1000_0000_0000,
{
    let raw: i128 = ((1048576 - (press_adc as i128)) - div_floor(offset, 4096)) * 3125;
    if raw >= 0x4000_0000 {
        proof {
            lemma_quotient_bound(raw as int, scale as int, 0x800_0000_0000);
        }
        (raw / scale) * 2
    } else {
        proof {
            lemma_quotient_bound(raw * 2, scale as int, 0x1000_0000_0000);
        }
        (raw * 2) / scale
    }
}

fn press_corrected(press: i128, par_p7: i8, par_p8: i16, par_p9: i16, par_p10: u8) -> (out: i128)
    requires
        -0x1000_0000_0000 <= press <= 0x1000_0000_0000,
    ensures
        out == spec_press_corrected(
            press as int,
            par_p7 as int,
            par_p8 as int,
            par_p9 as int,
            par_p10 as int,
        ),
{
    let eighth: i128 = div_floor(press, 8);
    proof {
        lemma_product_bound(eighth as int, eighth as int, 0x200_0000_0000, 0x200_0000_0000);
    }
    let square: i128 = div_floor(eighth * eighth, 8192);
    proof {
        lemma_product_bound(par_p9 as int, square as int, 0x8000, 0x20_0000_0000_0000_0000);
    }
    let var1: i128 = div_floor((par_p9 as i128) * square, 4096);
    let quarter: i128 = div_floor(press, 4);
    proof {
        lemma_product_bound(quarter as int, par_p8 as int, 0x400_0000_0000, 0x8000);
    }
    let var2: i128 = div_floor(quarter * (par_p8 as i128), 8192);
    let part: i128 = div_floor(press, 256);
    proof {
        lemma_product_bound(part as int, part as int, 0x10_0000_0000, 0x10_0000_0000);
        lemma_product_bound(part * part, part as int, 0x100_0000_0000_0000_0000, 0x10_0000_0000);
        lemma_product_bound(
            part * part * part,
            par_p10 as int,
            0x1000_0000_0000_0000_0000_0000_0000,
            0x100,
        );
    }
    let var3: i128 = div_floor(part * part * part * (par_p10 as i128), 131072);
    press + div_floor(var1 + var2 + var3 + (par_p7 as i128) * 128, 16)
}

impl CalCodes {
    /// The pressure in pascal that this calibration gives for the raw word
    /// `press_adc` at the fine temperature `t_fine`: the low 32 bits of the
    /// formula's value.
    pub open spec fn spec_pressure(&self, t_fine: i32, press_adc: u32) -> u32 {
        (spec_press_comp(press_adc as int, t_fine as int, *self) % 0x1_0000_0000) as u32
    }

    /// Computes the pressure in pascal from a raw pressure word and the fine
    /// temperature of the same measurement. The arithmetic is exact: it is
    /// done in 128 bits, where no term of the formula can overflow, and
    /// agrees with the data sheet's 32-bit code wherever that does not
    /// overflow.
    pub fn pressure(&self, t_fine: i32, press_adc: u32) -> (press_comp: u32)
        requires
            -FINE_LIMIT < t_fine < FINE_LIMIT,
            press_adc <= ADC_MAX,
        ensures
            press_comp == self.spec_pressure(t_fine, press_adc),
    {
        let offset = press_offset(t_fine, self.par_p4, self.par_p5, self.par_p6);
        let scale = press_scale(t_fine, self.par_p1, self.par_p2, self.par_p3);
        if scale == 0 {
            return 0;
        }
        let press = press_scaled(press_adc, offset, scale);
        let out = press_corrected(press, self.par_p7, self.par_p8, self.par_p9, self.par_p10);
        assert(#[verifier::truncate] (out as u32) == out % 0x1_0000_0000) by (bit_vector);
        #[verifier::truncate]
        (out as u32)
    }
}

/// The heater-resistance byte is a function of the ambient temperature, the
/// target temperature, the three gas coefficients and the two correction
/// values, and of nothing else: two calibrations that agree in the gas
/// coefficients give the same byte for the same temperatures and
/// corrections, whatever their other coefficients are.
pub proof fn lemma_heater_resistance_deterministic(
    a: CalCodes,
    b: CalCodes,
    amb_temp: i32,
    target_temp: i16,
    res_heat_range: u8,
    res_heat_val: u8,
)
    requires
        a.par_g1 == b.par_g1,
        a.par_g2 == b.par_g2,
        a.par_g3 == b.par_g3,
    ensures
        a.spec_heater_resistance(amb_temp, target_temp, res_heat_range, res_heat_val)
            == b.spec_heater_resistance(amb_temp, target_temp, res_heat_range, res_heat_val),
{
}

} // verus!
