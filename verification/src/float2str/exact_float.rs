//! For each binary exponent of a float, the neighbouring fractions that show
//! the scaling to be exact.

use vstd::prelude::*;
use vstd::arithmetic::power::{pow, lemma_pow0, lemma_pow1, lemma_pow_adds};
use vstd::arithmetic::power2::{pow2, lemma2_to64, lemma2_to64_rest, lemma_pow2_adds};
use crate::float2str::common::{spec_log10_pow2, spec_log10_pow5, spec_pow5bits};
use crate::float2str::exact::{
    fixed_point_product, lemma_power_product_exact, lemma_reciprocal_product_exact,
};
use crate::float2str::f2s::{float_factor, float_q, float_scaled, float_shift};

verus! {

/// The powers of five and of two that scale single-precision values.
proof fn lemma_float_powers()
    ensures
        pow(5, 0) == 1,
        pow(5, 1) == 5,
        pow(5, 2) == 25,
        pow(5, 3) == 125,
        pow(5, 4) == 625,
        pow(5, 5) == 3125,
        pow(5, 6) == 15625,
        pow(5, 7) == 78125,
        pow(5, 8) == 390625,
        pow(5, 9) == 1953125,
        pow(5, 10) == 9765625,
        pow(5, 11) == 48828125,
        pow(5, 12) == 244140625,
        pow(5, 13) == 1220703125,
        pow(5, 14) == 6103515625,
        pow(5, 15) == 30517578125,
        pow(5, 16) == 152587890625,
        pow(5, 17) == 762939453125,
        pow(5, 18) == 3814697265625,
        pow(5, 19) == 19073486328125,
        pow(5, 20) == 95367431640625,
        pow(5, 21) == 476837158203125,
        pow(5, 22) == 2384185791015625,
        pow(5, 23) == 11920928955078125,
        pow(5, 24) == 59604644775390625,
        pow(5, 25) == 298023223876953125,
        pow(5, 26) == 1490116119384765625,
        pow(5, 27) == 7450580596923828125,
        pow(5, 28) == 37252902984619140625,
        pow(5, 29) == 186264514923095703125,
        pow(5, 30) == 931322574615478515625,
        pow(5, 31) == 4656612873077392578125,
        pow(5, 32) == 23283064365386962890625,
        pow(5, 33) == 116415321826934814453125,
        pow(5, 34) == 582076609134674072265625,
        pow(5, 35) == 2910383045673370361328125,
        pow(5, 36) == 14551915228366851806640625,
        pow(5, 37) == 72759576141834259033203125,
        pow(5, 38) == 363797880709171295166015625,
        pow(5, 39) == 1818989403545856475830078125,
        pow(5, 40) == 9094947017729282379150390625,
        pow(5, 41) == 45474735088646411895751953125,
        pow(5, 42) == 227373675443232059478759765625,
        pow(5, 43) == 1136868377216160297393798828125,
        pow(5, 44) == 5684341886080801486968994140625,
        pow(5, 45) == 28421709430404007434844970703125,
        pow(5, 46) == 142108547152020037174224853515625,
        pow2(0) == 0x1,
        pow2(1) == 0x2,
        pow2(2) == 0x4,
        pow2(3) == 0x8,
        pow2(4) == 0x10,
        pow2(5) == 0x20,
        pow2(6) == 0x40,
        pow2(7) == 0x80,
        pow2(8) == 0x100,
        pow2(9) == 0x200,
        pow2(10) == 0x400,
        pow2(11) == 0x800,
        pow2(12) == 0x1000,
        pow2(13) == 0x2000,
        pow2(14) == 0x4000,
        pow2(15) == 0x8000,
        pow2(16) == 0x10000,
        pow2(17) == 0x20000,
        pow2(18) == 0x40000,
        pow2(19) == 0x80000,
        pow2(20) == 0x100000,
        pow2(21) == 0x200000,
        pow2(22) == 0x400000,
        pow2(23) == 0x800000,
        pow2(24) == 0x1000000,
        pow2(25) == 0x2000000,
        pow2(26) == 0x4000000,
        pow2(27) == 0x8000000,
        pow2(28) == 0x10000000,
        pow2(29) == 0x20000000,
        pow2(30) == 0x40000000,
        pow2(31) == 0x80000000,
        pow2(32) == 0x100000000,
        pow2(33) == 0x200000000,
        pow2(34) == 0x400000000,
        pow2(35) == 0x800000000,
        pow2(36) == 0x1000000000,
        pow2(37) == 0x2000000000,
        pow2(38) == 0x4000000000,
        pow2(39) == 0x8000000000,
        pow2(40) == 0x10000000000,
        pow2(41) == 0x20000000000,
        pow2(42) == 0x40000000000,
        pow2(43) == 0x80000000000,
        pow2(44) == 0x100000000000,
        pow2(45) == 0x200000000000,
        pow2(46) == 0x400000000000,
        pow2(47) == 0x800000000000,
        pow2(48) == 0x1000000000000,
        pow2(49) == 0x2000000000000,
        pow2(50) == 0x4000000000000,
        pow2(51) == 0x8000000000000,
        pow2(52) == 0x10000000000000,
        pow2(53) == 0x20000000000000,
        pow2(54) == 0x40000000000000,
        pow2(55) == 0x80000000000000,
        pow2(56) == 0x100000000000000,
        pow2(57) == 0x200000000000000,
        pow2(58) == 0x400000000000000,
        pow2(59) == 0x800000000000000,
        pow2(60) == 0x1000000000000000,
        pow2(61) == 0x2000000000000000,
        pow2(62) == 0x4000000000000000,
        pow2(63) == 0x8000000000000000,
        pow2(64) == 0x10000000000000000,
        pow2(65) == 0x20000000000000000,
        pow2(66) == 0x40000000000000000,
        pow2(67) == 0x80000000000000000,
        pow2(68) == 0x100000000000000000,
        pow2(69) == 0x200000000000000000,
        pow2(70) == 0x400000000000000000,
        pow2(71) == 0x800000000000000000,
        pow2(72) == 0x1000000000000000000,
        pow2(73) == 0x2000000000000000000,
        pow2(74) == 0x4000000000000000000,
        pow2(75) == 0x8000000000000000000,
        pow2(76) == 0x10000000000000000000,
        pow2(77) == 0x20000000000000000000,
        pow2(78) == 0x40000000000000000000,
        pow2(79) == 0x80000000000000000000,
        pow2(80) == 0x100000000000000000000,
        pow2(81) == 0x200000000000000000000,
        pow2(82) == 0x400000000000000000000,
        pow2(83) == 0x800000000000000000000,
        pow2(84) == 0x1000000000000000000000,
        pow2(85) == 0x2000000000000000000000,
        pow2(86) == 0x4000000000000000000000,
        pow2(87) == 0x8000000000000000000000,
        pow2(88) == 0x10000000000000000000000,
        pow2(89) == 0x20000000000000000000000,
        pow2(90) == 0x40000000000000000000000,
        pow2(91) == 0x80000000000000000000000,
        pow2(92) == 0x100000000000000000000000,
        pow2(93) == 0x200000000000000000000000,
        pow2(94) == 0x400000000000000000000000,
        pow2(95) == 0x800000000000000000000000,
        pow2(96) == 0x1000000000000000000000000,
        pow2(97) == 0x2000000000000000000000000,
        pow2(98) == 0x4000000000000000000000000,
        pow2(99) == 0x8000000000000000000000000,
        pow2(100) == 0x10000000000000000000000000,
        pow2(101) == 0x20000000000000000000000000,
        pow2(102) == 0x40000000000000000000000000,
        pow2(103) == 0x80000000000000000000000000,
        pow2(104) == 0x100000000000000000000000000,
        pow2(105) == 0x200000000000000000000000000,
{
    lemma2_to64();
    lemma2_to64_rest();
    lemma_pow0(5);
    lemma_pow1(5);
    lemma_pow_adds(5, 1, 1);
    assert(pow(5, 2) == 25);
    lemma_pow_adds(5, 2, 1);
    assert(pow(5, 3) == 125);
    lemma_pow_adds(5, 3, 1);
    assert(pow(5, 4) == 625);
    lemma_pow_adds(5, 4, 1);
    assert(pow(5, 5) == 3125);
    lemma_pow_adds(5, 5, 1);
    assert(pow(5, 6) == 15625);
    lemma_pow_adds(5, 6, 1);
    assert(pow(5, 7) == 78125);
    lemma_pow_adds(5, 7, 1);
    assert(pow(5, 8) == 390625);
    lemma_pow_adds(5, 8, 1);
    assert(pow(5, 9) == 1953125);
    lemma_pow_adds(5, 9, 1);
    assert(pow(5, 10) == 9765625);
    lemma_pow_adds(5, 10, 1);
    assert(pow(5, 11) == 48828125);
    lemma_pow_adds(5, 11, 1);
    assert(pow(5, 12) == 244140625);
    lemma_pow_adds(5, 12, 1);
    assert(pow(5, 13) == 1220703125);
    lemma_pow_adds(5, 13, 1);
    assert(pow(5, 14) == 6103515625);
    lemma_pow_adds(5, 14, 1);
    assert(pow(5, 15) == 30517578125);
    lemma_pow_adds(5, 15, 1);
    assert(pow(5, 16) == 152587890625);
    lemma_pow_adds(5, 16, 1);
    assert(pow(5, 17) == 762939453125);
    lemma_pow_adds(5, 17, 1);
    assert(pow(5, 18) == 3814697265625);
    lemma_pow_adds(5, 18, 1);
    assert(pow(5, 19) == 19073486328125);
    lemma_pow_adds(5, 19, 1);
    assert(pow(5, 20) == 95367431640625);
    lemma_pow_adds(5, 20, 1);
    assert(pow(5, 21) == 476837158203125);
    lemma_pow_adds(5, 21, 1);
    assert(pow(5, 22) == 2384185791015625);
    lemma_pow_adds(5, 22, 1);
    assert(pow(5, 23) == 11920928955078125);
    lemma_pow_adds(5, 23, 1);
    assert(pow(5, 24) == 59604644775390625);
    lemma_pow_adds(5, 24, 1);
    assert(pow(5, 25) == 298023223876953125);
    lemma_pow_adds(5, 25, 1);
    assert(pow(5, 26) == 1490116119384765625);
    lemma_pow_adds(5, 26, 1);
    assert(pow(5, 27) == 7450580596923828125);
    lemma_pow_adds(5, 27, 1);
    assert(pow(5, 28) == 37252902984619140625);
    lemma_pow_adds(5, 28, 1);
    assert(pow(5, 29) == 186264514923095703125);
    lemma_pow_adds(5, 29, 1);
    assert(pow(5, 30) == 931322574615478515625);
    lemma_pow_adds(5, 30, 1);
    assert(pow(5, 31) == 4656612873077392578125);
    lemma_pow_adds(5, 31, 1);
    assert(pow(5, 32) == 23283064365386962890625);
    lemma_pow_adds(5, 32, 1);
    assert(pow(5, 33) == 116415321826934814453125);
    lemma_pow_adds(5, 33, 1);
    assert(pow(5, 34) == 582076609134674072265625);
    lemma_pow_adds(5, 34, 1);
    assert(pow(5, 35) == 2910383045673370361328125);
    lemma_pow_adds(5, 35, 1);
    assert(pow(5, 36) == 14551915228366851806640625);
    lemma_pow_adds(5, 36, 1);
    assert(pow(5, 37) == 72759576141834259033203125);
    lemma_pow_adds(5, 37, 1);
    assert(pow(5, 38) == 363797880709171295166015625);
    lemma_pow_adds(5, 38, 1);
    assert(pow(5, 39) == 1818989403545856475830078125);
    lemma_pow_adds(5, 39, 1);
    assert(pow(5, 40) == 9094947017729282379150390625);
    lemma_pow_adds(5, 40, 1);
    assert(pow(5, 41) == 45474735088646411895751953125);
    lemma_pow_adds(5, 41, 1);
    assert(pow(5, 42) == 227373675443232059478759765625);
    lemma_pow_adds(5, 42, 1);
    assert(pow(5, 43) == 1136868377216160297393798828125);
    lemma_pow_adds(5, 43, 1);
    assert(pow(5, 44) == 5684341886080801486968994140625);
    lemma_pow_adds(5, 44, 1);
    assert(pow(5, 45) == 28421709430404007434844970703125);
    lemma_pow_adds(5, 45, 1);
    assert(pow(5, 46) == 142108547152020037174224853515625);
    lemma_pow2_adds(64, 1);
    assert(pow2(65) == 0x20000000000000000);
    lemma_pow2_adds(65, 1);
    assert(pow2(66) == 0x40000000000000000);
    lemma_pow2_adds(66, 1);
    assert(pow2(67) == 0x80000000000000000);
    lemma_pow2_adds(67, 1);
    assert(pow2(68) == 0x100000000000000000);
    lemma_pow2_adds(68, 1);
    assert(pow2(69) == 0x200000000000000000);
    lemma_pow2_adds(69, 1);
    assert(pow2(70) == 0x400000000000000000);
    lemma_pow2_adds(70, 1);
    assert(pow2(71) == 0x800000000000000000);
    lemma_pow2_adds(71, 1);
    assert(pow2(72) == 0x1000000000000000000);
    lemma_pow2_adds(72, 1);
    assert(pow2(73) == 0x2000000000000000000);
    lemma_pow2_adds(73, 1);
    assert(pow2(74) == 0x4000000000000000000);
    lemma_pow2_adds(74, 1);
    assert(pow2(75) == 0x8000000000000000000);
    lemma_pow2_adds(75, 1);
    assert(pow2(76) == 0x10000000000000000000);
    lemma_pow2_adds(76, 1);
    assert(pow2(77) == 0x20000000000000000000);
    lemma_pow2_adds(77, 1);
    assert(pow2(78) == 0x40000000000000000000);
    lemma_pow2_adds(78, 1);
    assert(pow2(79) == 0x80000000000000000000);
    lemma_pow2_adds(79, 1);
    assert(pow2(80) == 0x100000000000000000000);
    lemma_pow2_adds(80, 1);
    assert(pow2(81) == 0x200000000000000000000);
    lemma_pow2_adds(81, 1);
    assert(pow2(82) == 0x400000000000000000000);
    lemma_pow2_adds(82, 1);
    assert(pow2(83) == 0x800000000000000000000);
    lemma_pow2_adds(83, 1);
    assert(pow2(84) == 0x1000000000000000000000);
    lemma_pow2_adds(84, 1);
    assert(pow2(85) == 0x2000000000000000000000);
    lemma_pow2_adds(85, 1);
    assert(pow2(86) == 0x4000000000000000000000);
    lemma_pow2_adds(86, 1);
    assert(pow2(87) == 0x8000000000000000000000);
    lemma_pow2_adds(87, 1);
    assert(pow2(88) == 0x10000000000000000000000);
    lemma_pow2_adds(88, 1);
    assert(pow2(89) == 0x20000000000000000000000);
    lemma_pow2_adds(89, 1);
    assert(pow2(90) == 0x40000000000000000000000);
    lemma_pow2_adds(90, 1);
    assert(pow2(91) == 0x80000000000000000000000);
    lemma_pow2_adds(91, 1);
    assert(pow2(92) == 0x100000000000000000000000);
    lemma_pow2_adds(92, 1);
    assert(pow2(93) == 0x200000000000000000000000);
    lemma_pow2_adds(93, 1);
    assert(pow2(94) == 0x400000000000000000000000);
    lemma_pow2_adds(94, 1);
    assert(pow2(95) == 0x800000000000000000000000);
    lemma_pow2_adds(95, 1);
    assert(pow2(96) == 0x1000000000000000000000000);
    lemma_pow2_adds(96, 1);
    assert(pow2(97) == 0x2000000000000000000000000);
    lemma_pow2_adds(97, 1);
    assert(pow2(98) == 0x4000000000000000000000000);
    lemma_pow2_adds(98, 1);
    assert(pow2(99) == 0x8000000000000000000000000);
    lemma_pow2_adds(99, 1);
    assert(pow2(100) == 0x10000000000000000000000000);
    lemma_pow2_adds(100, 1);
    assert(pow2(101) == 0x20000000000000000000000000);
    lemma_pow2_adds(101, 1);
    assert(pow2(102) == 0x40000000000000000000000000);
    lemma_pow2_adds(102, 1);
    assert(pow2(103) == 0x80000000000000000000000000);
    lemma_pow2_adds(103, 1);
    assert(pow2(104) == 0x100000000000000000000000000);
    lemma_pow2_adds(104, 1);
    assert(pow2(105) == 0x200000000000000000000000000);
}

proof fn lemma_exact_0(m: nat, e2: int)
    requires
        -151 <= e2 < -135,
        m < 0x400_0000,
    ensures
        fixed_point_product(m, float_factor(e2, float_q(e2)), float_shift(e2, float_q(e2)) as nat) == float_scaled(m, e2),
{
    reveal(spec_log10_pow2);
    reveal(spec_log10_pow5);
    reveal(spec_pow5bits);
    lemma_float_powers();
    if e2 == -151 {
        lemma_power_product_exact(m, 2019483917365790221, 46, 105, 59, 60419369, 17246681, 202434645, 57784876);
    } else if e2 == -150 {
        lemma_power_product_exact(m, 2019483917365790221, 46, 104, 58, 120838738, 17246681, 444112121, 63385800);
    } else if e2 == -149 {
        lemma_power_product_exact(m, 1615587133892632177, 45, 104, 60, 80351809, 57340967, 40486929, 28892438);
    } else if e2 == -148 {
        lemma_power_product_exact(m, 1615587133892632177, 45, 103, 59, 160703618, 57340967, 40486929, 14446219);
    } else if e2 == -147 {
        lemma_power_product_exact(m, 1615587133892632177, 45, 102, 58, 201190547, 35893593, 282164405, 50339812);
    } else if e2 == -146 {
        lemma_power_product_exact(m, 1292469707114105741, 44, 102, 60, 31891904, 28448529, 56432881, 50339812);
    } else if e2 == -145 {
        lemma_power_product_exact(m, 1292469707114105741, 44, 101, 59, 120216689, 53618435, 56432881, 25169906);
    } else if e2 == -144 {
        lemma_power_product_exact(m, 1292469707114105741, 44, 100, 58, 296866259, 66203388, 56432881, 12584953);
    } else if e2 == -143 {
        lemma_power_product_exact(m, 1292469707114105741, 44, 99, 57, 522597783, 58271600, 112865762, 12584953);
    } else if e2 == -142 {
        lemma_power_product_exact(m, 2067951531382569187, 43, 99, 60, 14226947, 7931788, 112865762, 62924765);
    } else if e2 == -141 {
        lemma_power_product_exact(m, 2067951531382569187, 43, 98, 59, 239958471, 66890659, 225731524, 62924765);
    } else if e2 == -140 {
        lemma_power_product_exact(m, 2067951531382569187, 43, 97, 58, 465689995, 64907712, 451463048, 62924765);
    } else if e2 == -139 {
        lemma_power_product_exact(m, 1654361225106055349, 42, 97, 60, 93137999, 64907712, 78911052, 54992977);
    } else if e2 == -138 {
        lemma_power_product_exact(m, 1654361225106055349, 42, 96, 59, 93137999, 32453856, 157822104, 54992977);
    } else if e2 == -137 {
        lemma_power_product_exact(m, 1654361225106055349, 42, 95, 58, 93137999, 16226928, 315644208, 54992977);
    } else if e2 == -136 {
        lemma_power_product_exact(m, 1323488980084844279, 41, 95, 60, 67264357, 58595519, 25873642, 22539121);
    }
}

proof fn lemma_exact_1(m: nat, e2: int)
    requires
        -135 <= e2 < -119,
        m < 0x400_0000,
    ensures
        fixed_point_product(m, float_factor(e2, float_q(e2)), float_shift(e2, float_q(e2)) as nat) == float_scaled(m, e2),
{
    reveal(spec_log10_pow2);
    reveal(spec_log10_pow5);
    reveal(spec_pow5bits);
    lemma_float_powers();
    if e2 == -135 {
        lemma_power_product_exact(m, 1323488980084844279, 41, 94, 59, 93137999, 40567320, 144885283, 63106441);
    } else if e2 == -134 {
        lemma_power_product_exact(m, 1323488980084844279, 41, 93, 58, 93137999, 20283660, 289770566, 63106441);
    } else if e2 == -133 {
        lemma_power_product_exact(m, 1323488980084844279, 41, 92, 57, 93137999, 10141830, 579541132, 63106441);
    } else if e2 == -132 {
        lemma_power_product_exact(m, 2117582368135750847, 40, 92, 60, 93137999, 50709150, 60025427, 32680951);
    } else if e2 == -131 {
        lemma_power_product_exact(m, 2117582368135750847, 40, 91, 59, 93137999, 25354575, 213188853, 58035526);
    } else if e2 == -130 {
        lemma_power_product_exact(m, 2117582368135750847, 40, 90, 58, 186275998, 25354575, 399464851, 54372338);
    } else if e2 == -129 {
        lemma_power_product_exact(m, 1694065894508600678, 39, 90, 60, 94772291, 64498679, 5382571, 3663188);
    } else if e2 == -128 {
        lemma_power_product_exact(m, 1694065894508600678, 39, 89, 59, 194927153, 66330273, 5382571, 1831594);
    } else if e2 == -127 {
        lemma_power_product_exact(m, 1694065894508600678, 39, 88, 58, 389854306, 66330273, 5382571, 915797);
    } else if e2 == -126 {
        lemma_power_product_exact(m, 1355252715606880542, 38, 88, 60, 76894347, 65414476, 5382571, 4578985);
    } else if e2 == -125 {
        lemma_power_product_exact(m, 1355252715606880542, 38, 87, 59, 141485199, 60181148, 152250341, 64760133);
    } else if e2 == -124 {
        lemma_power_product_exact(m, 1355252715606880542, 38, 86, 58, 141485199, 30090574, 304500682, 64760133);
    } else if e2 == -123 {
        lemma_power_product_exact(m, 1355252715606880542, 38, 85, 57, 141485199, 15045287, 609001364, 64760133);
    } else if e2 == -122 {
        lemma_power_product_exact(m, 2168404344971008868, 37, 85, 60, 47981966, 25511589, 93503233, 49714846);
    } else if e2 == -121 {
        lemma_power_product_exact(m, 2168404344971008868, 37, 84, 59, 189467165, 50369012, 93503233, 24857423);
    } else if e2 == -120 {
        lemma_power_product_exact(m, 2168404344971008868, 37, 83, 58, 376473631, 50041929, 187006466, 24857423);
    }
}

proof fn lemma_exact_2(m: nat, e2: int)
    requires
        -119 <= e2 < -103,
        m < 0x400_0000,
    ensures
        fixed_point_product(m, float_factor(e2, float_q(e2)), float_shift(e2, float_q(e2)) as nat) == float_scaled(m, e2),
{
    reveal(spec_log10_pow2);
    reveal(spec_log10_pow5);
    reveal(spec_pow5bits);
    lemma_float_powers();
    if e2 == -119 {
        lemma_power_product_exact(m, 1734723475976807094, 36, 83, 60, 37893433, 25184506, 73326167, 48733597);
    } else if e2 == -118 {
        lemma_power_product_exact(m, 1734723475976807094, 36, 82, 59, 37893433, 12592253, 184545767, 61325850);
    } else if e2 == -117 {
        lemma_power_product_exact(m, 1734723475976807094, 36, 81, 58, 75786866, 12592253, 336119499, 55847431);
    } else if e2 == -116 {
        lemma_power_product_exact(m, 1387778780781445675, 35, 81, 60, 75786866, 62961265, 6594407, 5478419);
    } else if e2 == -115 {
        lemma_power_product_exact(m, 1387778780781445675, 35, 80, 59, 151573732, 62961265, 82381273, 34219842);
    } else if e2 == -114 {
        lemma_power_product_exact(m, 1387778780781445675, 35, 79, 58, 303147464, 62961265, 82381273, 17109921);
    } else if e2 == -113 {
        lemma_power_product_exact(m, 1387778780781445675, 35, 78, 57, 550291283, 57145514, 164762546, 17109921);
    } else if e2 == -112 {
        lemma_power_product_exact(m, 2220446049250313080, 34, 78, 60, 11200729, 5815751, 119959630, 62286601);
    } else if e2 == -111 {
        lemma_power_product_exact(m, 2220446049250313080, 34, 77, 59, 175963275, 45682678, 153561817, 39866927);
    } else if e2 == -110 {
        lemma_power_product_exact(m, 2220446049250313080, 34, 76, 58, 175963275, 22841339, 483086909, 62708266);
    } else if e2 == -109 {
        lemma_power_product_exact(m, 1776356839400250464, 33, 76, 60, 35192655, 22841339, 95967704, 62286601);
    } else if e2 == -108 {
        lemma_power_product_exact(m, 1776356839400250464, 33, 75, 59, 70385310, 22841339, 201545669, 65405309);
    } else if e2 == -107 {
        lemma_power_product_exact(m, 1776356839400250464, 33, 74, 58, 140770620, 22841339, 412701599, 66964663);
    } else if e2 == -106 {
        lemma_power_product_exact(m, 1421085471520200371, 32, 74, 60, 28154124, 22841339, 74852111, 60727247);
    } else if e2 == -105 {
        lemma_power_product_exact(m, 1421085471520200371, 32, 73, 59, 56308248, 22841339, 159314483, 64625632);
    } else if e2 == -104 {
        lemma_power_product_exact(m, 1421085471520200371, 32, 72, 58, 112616496, 22841339, 271930979, 55154155);
    }
}

proof fn lemma_exact_3(m: nat, e2: int)
    requires
        -103 <= e2 < -87,
        m < 0x400_0000,
    ensures
        fixed_point_product(m, float_factor(e2, float_q(e2)), float_shift(e2, float_q(e2)) as nat) == float_scaled(m, e2),
{
    reveal(spec_log10_pow2);
    reveal(spec_log10_pow5);
    reveal(spec_pow5bits);
    lemma_float_powers();
    if e2 == -103 {
        lemma_power_product_exact(m, 1421085471520200371, 32, 71, 57, 225232992, 22841339, 609780467, 61839086);
    } else if e2 == -102 {
        lemma_power_product_exact(m, 2273736754432320594, 31, 71, 60, 71414002, 36211201, 76909495, 38997747);
    } else if e2 == -101 {
        lemma_power_product_exact(m, 2273736754432320594, 31, 70, 59, 148323497, 37604474, 153818990, 38997747);
    } else if e2 == -100 {
        lemma_power_product_exact(m, 2273736754432320594, 31, 69, 58, 148323497, 18802237, 455961477, 57799984);
    } else if e2 == -99 {
        lemma_power_product_exact(m, 1818989403545856475, 30, 69, 60, 86795901, 55013438, 61527596, 38997747);
    } else if e2 == -98 {
        lemma_power_product_exact(m, 1818989403545856475, 30, 68, 59, 209851093, 66504466, 123055192, 38997747);
    } else if e2 == -97 {
        lemma_power_product_exact(m, 1818989403545856475, 30, 67, 58, 209851093, 33252233, 246110384, 38997747);
    } else if e2 == -96 {
        lemma_power_product_exact(m, 1455191522836685180, 29, 67, 60, 76688579, 60758952, 56473935, 44743261);
    } else if e2 == -95 {
        lemma_power_product_exact(m, 1455191522836685180, 29, 66, 59, 76688579, 30379476, 112947870, 44743261);
    } else if e2 == -94 {
        lemma_power_product_exact(m, 1455191522836685180, 29, 65, 58, 76688579, 15189738, 302584319, 59932999);
    } else if e2 == -93 {
        lemma_power_product_exact(m, 1164153218269348144, 28, 65, 60, 31509431, 31205429, 45179148, 44743261);
    } else if e2 == -92 {
        lemma_power_product_exact(m, 1164153218269348144, 28, 64, 59, 76688579, 37974345, 90358296, 44743261);
    } else if e2 == -91 {
        lemma_power_product_exact(m, 1164153218269348144, 28, 63, 58, 153377158, 37974345, 167046875, 41358803);
    } else if e2 == -90 {
        lemma_power_product_exact(m, 1164153218269348144, 28, 62, 57, 320424033, 39666574, 334093750, 41358803);
    } else if e2 == -89 {
        lemma_power_product_exact(m, 1862645149230957031, 27, 62, 60, 53149033, 32897658, 66818750, 41358803);
    } else if e2 == -88 {
        lemma_power_product_exact(m, 1862645149230957031, 27, 61, 59, 186786533, 57807632, 133637500, 41358803);
    }
}

proof fn lemma_exact_4(m: nat, e2: int)
    requires
        -87 <= e2 < -71,
        m < 0x400_0000,
    ensures
        fixed_point_product(m, float_factor(e2, float_q(e2)), float_shift(e2, float_q(e2)) as nat) == float_scaled(m, e2),
{
    reveal(spec_log10_pow2);
    reveal(spec_log10_pow5);
    reveal(spec_pow5bits);
    lemma_float_powers();
    if e2 == -87 {
        lemma_power_product_exact(m, 1862645149230957031, 27, 60, 58, 186786533, 28903816, 267275000, 41358803);
    } else if e2 == -86 {
        lemma_power_product_exact(m, 1490116119384765625, 26, 60, 60, 79876533, 61801474, 53455000, 41358803);
    } else if e2 == -85 {
        lemma_power_product_exact(m, 1490116119384765625, 26, 59, 59, 79876533, 30900737, 106910000, 41358803);
    } else if e2 == -84 {
        lemma_power_product_exact(m, 1490116119384765625, 26, 58, 58, 186786533, 36129770, 213820000, 41358803);
    } else if e2 == -83 {
        lemma_power_product_exact(m, 1192092895507812500, 25, 58, 60, 58494533, 56572441, 42764000, 41358803);
    } else if e2 == -82 {
        lemma_power_product_exact(m, 1192092895507812500, 25, 57, 59, 101258533, 48965622, 85528000, 41358803);
    } else if e2 == -81 {
        lemma_power_product_exact(m, 1192092895507812500, 25, 56, 58, 272314533, 65841614, 171056000, 41358803);
    } else if e2 == -80 {
        lemma_power_product_exact(m, 1192092895507812500, 25, 55, 57, 272314533, 32920807, 342112000, 41358803);
    } else if e2 == -79 {
        lemma_power_product_exact(m, 1907348632812500000, 24, 55, 60, 67047333, 40527626, 68422400, 41358803);
    } else if e2 == -78 {
        lemma_power_product_exact(m, 1907348632812500000, 24, 54, 59, 203892133, 61622616, 136844800, 41358803);
    } else if e2 == -77 {
        lemma_power_product_exact(m, 1907348632812500000, 24, 53, 58, 203892133, 30811308, 273689600, 41358803);
    } else if e2 == -76 {
        lemma_power_product_exact(m, 1525878906250000000, 23, 53, 60, 39678373, 29980131, 54737920, 41358803);
    } else if e2 == -75 {
        lemma_power_product_exact(m, 1525878906250000000, 23, 52, 59, 94416293, 35669467, 109475840, 41358803);
    } else if e2 == -74 {
        lemma_power_product_exact(m, 1525878906250000000, 23, 51, 58, 203892133, 38514135, 218951680, 41358803);
    } else if e2 == -73 {
        lemma_power_product_exact(m, 1220703125000000000, 22, 51, 60, 28730789, 27135463, 43790336, 41358803);
    } else if e2 == -72 {
        lemma_power_product_exact(m, 1220703125000000000, 22, 50, 59, 72521125, 34247133, 87580672, 41358803);
    }
}

proof fn lemma_exact_5(m: nat, e2: int)
    requires
        -71 <= e2 < -55,
        m < 0x400_0000,
    ensures
        fixed_point_product(m, float_factor(e2, float_q(e2)), float_shift(e2, float_q(e2)) as nat) == float_scaled(m, e2),
{
    reveal(spec_log10_pow2);
    reveal(spec_log10_pow5);
    reveal(spec_pow5bits);
    lemma_float_powers();
    if e2 == -71 {
        lemma_power_product_exact(m, 1220703125000000000, 22, 49, 58, 160101797, 37802968, 175161344, 41358803);
    } else if e2 == -70 {
        lemma_power_product_exact(m, 1220703125000000000, 22, 48, 57, 510424485, 60260287, 350322688, 41358803);
    } else if e2 == -69 {
        lemma_power_product_exact(m, 1953125000000000000, 21, 48, 60, 102084897, 60260287, 44067997, 26013154);
    } else if e2 == -68 {
        lemma_power_product_exact(m, 1953125000000000000, 21, 47, 59, 204169794, 60260287, 44067997, 13006577);
    } else if e2 == -67 {
        lemma_power_product_exact(m, 1953125000000000000, 21, 46, 58, 408339588, 60260287, 248237791, 36633432);
    } else if e2 == -66 {
        lemma_power_product_exact(m, 1562500000000000000, 20, 46, 60, 46413520, 34247133, 67274757, 49640009);
    } else if e2 == -65 {
        lemma_power_product_exact(m, 1562500000000000000, 20, 45, 59, 113688277, 41943571, 134549514, 49640009);
    } else if e2 == -64 {
        lemma_power_product_exact(m, 1562500000000000000, 20, 44, 58, 227376554, 41943571, 248237791, 45791790);
    } else if e2 == -63 {
        lemma_power_product_exact(m, 1250000000000000000, 19, 44, 60, 37130816, 34247133, 57992053, 53488228);
    } else if e2 == -62 {
        lemma_power_product_exact(m, 1250000000000000000, 19, 43, 59, 132253685, 60991247, 57992053, 26744114);
    } else if e2 == -61 {
        lemma_power_product_exact(m, 1250000000000000000, 19, 42, 58, 264507370, 60991247, 57992053, 13372057);
    } else if e2 == -60 {
        lemma_power_product_exact(m, 1250000000000000000, 19, 41, 57, 322499423, 37181652, 438483529, 50553709);
    } else if e2 == -59 {
        lemma_power_product_exact(m, 2000000000000000000, 18, 41, 60, 105802948, 60991247, 110893527, 63925766);
    } else if e2 == -58 {
        lemma_power_product_exact(m, 2000000000000000000, 18, 40, 59, 211605896, 60991247, 110893527, 31962883);
    } else if e2 == -57 {
        lemma_power_product_exact(m, 2000000000000000000, 18, 39, 58, 322499423, 46477065, 221787054, 31962883);
    } else if e2 == -56 {
        lemma_power_product_exact(m, 1600000000000000000, 17, 39, 60, 76497432, 55122209, 24214937, 17448701);
    }
}

proof fn lemma_exact_6(m: nat, e2: int)
    requires
        -55 <= e2 < -39,
        m < 0x400_0000,
    ensures
        fixed_point_product(m, float_factor(e2, float_q(e2)), float_shift(e2, float_q(e2)) as nat) == float_scaled(m, e2),
{
    reveal(spec_log10_pow2);
    reveal(spec_log10_pow5);
    reveal(spec_pow5bits);
    lemma_float_powers();
    if e2 == -55 {
        lemma_power_product_exact(m, 1600000000000000000, 17, 38, 59, 149142243, 53734156, 48429874, 17448701);
    } else if e2 == -54 {
        lemma_power_product_exact(m, 1600000000000000000, 17, 37, 58, 149142243, 26867078, 246001991, 44315779);
    } else if e2 == -53 {
        lemma_power_product_exact(m, 1280000000000000000, 16, 37, 60, 10456499, 9418377, 65490251, 58988374);
    } else if e2 == -52 {
        lemma_power_product_exact(m, 1280000000000000000, 16, 36, 59, 20912998, 9418377, 128229245, 57749318);
    } else if e2 == -51 {
        lemma_power_product_exact(m, 1280000000000000000, 16, 35, 58, 170055241, 38293036, 128229245, 28874659);
    } else if e2 == -50 {
        lemma_power_product_exact(m, 1280000000000000000, 16, 34, 57, 426513731, 48021177, 256458490, 28874659);
    } else if e2 == -49 {
        lemma_power_product_exact(m, 2048000000000000000, 15, 34, 60, 118763543, 66857931, 51291698, 28874659);
    } else if e2 == -48 {
        lemma_power_product_exact(m, 2048000000000000000, 15, 33, 59, 170055241, 47866295, 102583396, 28874659);
    } else if e2 == -47 {
        lemma_power_product_exact(m, 2048000000000000000, 15, 32, 58, 272638637, 38370477, 205166792, 28874659);
    } else if e2 == -46 {
        lemma_power_product_exact(m, 1638400000000000000, 14, 32, 60, 13494369, 9495818, 83717471, 58910933);
    } else if e2 == -45 {
        lemma_power_product_exact(m, 1638400000000000000, 14, 31, 59, 13494369, 4747909, 180929311, 63658842);
    } else if e2 == -44 {
        lemma_power_product_exact(m, 1638400000000000000, 14, 30, 58, 26988738, 4747909, 369850477, 65064784);
    } else if e2 == -43 {
        lemma_power_product_exact(m, 1310720000000000000, 13, 30, 60, 26988738, 23739545, 52379105, 46073148);
    } else if e2 == -42 {
        lemma_power_product_exact(m, 1310720000000000000, 13, 29, 59, 106356581, 46776119, 52379105, 23036574);
    } else if e2 == -41 {
        lemma_power_product_exact(m, 1310720000000000000, 13, 28, 58, 212713162, 46776119, 265092267, 58294406);
    } else if e2 == -40 {
        lemma_power_product_exact(m, 1310720000000000000, 13, 27, 57, 425426324, 46776119, 265092267, 29147203);
    }
}

proof fn lemma_exact_7(m: nat, e2: int)
    requires
        -39 <= e2 < -23,
        m < 0x400_0000,
    ensures
        fixed_point_product(m, float_factor(e2, float_q(e2)), float_shift(e2, float_q(e2)) as nat) == float_scaled(m, e2),
{
    reveal(spec_log10_pow2);
    reveal(spec_log10_pow5);
    reveal(spec_pow5bits);
    lemma_float_powers();
    if e2 == -39 {
        lemma_power_product_exact(m, 2097152000000000000, 12, 27, 60, 118430773, 65108006, 20951642, 11518287);
    } else if e2 == -38 {
        lemma_power_product_exact(m, 2097152000000000000, 12, 26, 59, 202237341, 55590577, 41903284, 11518287);
    } else if e2 == -37 {
        lemma_power_product_exact(m, 2097152000000000000, 12, 25, 58, 244140625, 33554432, 327947193, 45072719);
    } else if e2 == -36 {
        lemma_power_product_exact(m, 1677721600000000000, 11, 25, 60, 48828125, 33554432, 83806568, 57591435);
    } else if e2 == -35 {
        lemma_power_product_exact(m, 1677721600000000000, 11, 24, 59, 48828125, 16777216, 167613136, 57591435);
    } else if e2 == -34 {
        lemma_power_product_exact(m, 1677721600000000000, 11, 23, 58, 48828125, 8388608, 384054397, 65980043);
    } else if e2 == -33 {
        lemma_power_product_exact(m, 1342177280000000000, 10, 23, 60, 9765625, 8388608, 71554397, 61464759);
    } else if e2 == -32 {
        lemma_power_product_exact(m, 1342177280000000000, 10, 22, 59, 9765625, 4194304, 152874419, 65659063);
    } else if e2 == -31 {
        lemma_power_product_exact(m, 1342177280000000000, 10, 21, 58, 9765625, 2097152, 305748838, 65659063);
    } else if e2 == -30 {
        lemma_power_product_exact(m, 1342177280000000000, 10, 20, 57, 9765625, 1048576, 621263301, 66707639);
    } else if e2 == -29 {
        lemma_power_product_exact(m, 2147483648000000000, 9, 20, 60, 1953125, 1048576, 123216426, 66151315);
    } else if e2 == -28 {
        lemma_power_product_exact(m, 2147483648000000000, 9, 19, 59, 1953125, 524288, 248385977, 66675603);
    } else if e2 == -27 {
        lemma_power_product_exact(m, 2147483648000000000, 9, 18, 58, 1953125, 262144, 498725079, 66937747);
    } else if e2 == -26 {
        lemma_power_product_exact(m, 1717986918400000000, 8, 18, 60, 390625, 262144, 99896954, 67039711);
    } else if e2 == -25 {
        lemma_power_product_exact(m, 1717986918400000000, 8, 17, 59, 390625, 131072, 199793908, 67039711);
    } else if e2 == -24 {
        lemma_power_product_exact(m, 1717986918400000000, 8, 16, 58, 390625, 65536, 399978441, 67105247);
    }
}

proof fn lemma_exact_8(m: nat, e2: int)
    requires
        -23 <= e2 < -7,
        m < 0x400_0000,
    ensures
        fixed_point_product(m, float_factor(e2, float_q(e2)), float_shift(e2, float_q(e2)) as nat) == float_scaled(m, e2),
{
    reveal(spec_log10_pow2);
    reveal(spec_log10_pow5);
    reveal(spec_pow5bits);
    lemma_float_powers();
    if e2 == -23 {
        lemma_power_product_exact(m, 1374389534720000000, 7, 16, 60, 78125, 65536, 79978441, 67090779);
    } else if e2 == -22 {
        lemma_power_product_exact(m, 1374389534720000000, 7, 15, 59, 78125, 32768, 159956882, 67090779);
    } else if e2 == -21 {
        lemma_power_product_exact(m, 1374389534720000000, 7, 14, 58, 78125, 16384, 319991889, 67107163);
    } else if e2 == -20 {
        lemma_power_product_exact(m, 1374389534720000000, 7, 13, 57, 78125, 8192, 639983778, 67107163);
    } else if e2 == -19 {
        lemma_power_product_exact(m, 2199023255552000000, 6, 13, 60, 15625, 8192, 127999403, 67108551);
    } else if e2 == -18 {
        lemma_power_product_exact(m, 2199023255552000000, 6, 12, 59, 15625, 4096, 255998806, 67108551);
    } else if e2 == -17 {
        lemma_power_product_exact(m, 2199023255552000000, 6, 11, 58, 15625, 2048, 511997612, 67108551);
    } else if e2 == -16 {
        lemma_power_product_exact(m, 1759218604441600000, 5, 11, 60, 3125, 2048, 102397612, 67107299);
    } else if e2 == -15 {
        lemma_power_product_exact(m, 1759218604441600000, 5, 10, 59, 3125, 1024, 204798349, 67108323);
    } else if e2 == -14 {
        lemma_power_product_exact(m, 1759218604441600000, 5, 9, 58, 3125, 512, 409599823, 67108835);
    } else if e2 == -13 {
        lemma_power_product_exact(m, 1407374883553280000, 4, 9, 60, 625, 512, 81919823, 67108719);
    } else if e2 == -12 {
        lemma_power_product_exact(m, 1407374883553280000, 4, 8, 59, 625, 256, 163839646, 67108719);
    } else if e2 == -11 {
        lemma_power_product_exact(m, 1407374883553280000, 4, 7, 58, 625, 128, 327679917, 67108847);
    } else if e2 == -10 {
        lemma_power_product_exact(m, 1407374883553280000, 4, 6, 57, 625, 64, 655359834, 67108847);
    } else if e2 == -9 {
        lemma_power_product_exact(m, 2251799813685248000, 3, 6, 60, 125, 64, 131071959, 67108843);
    } else if e2 == -8 {
        lemma_power_product_exact(m, 2251799813685248000, 3, 5, 59, 125, 32, 262143918, 67108843);
    }
}

proof fn lemma_exact_9(m: nat, e2: int)
    requires
        -7 <= e2 < 9,
        m < 0x400_0000,
    ensures
        fixed_point_product(m, float_factor(e2, float_q(e2)), float_shift(e2, float_q(e2)) as nat) == float_scaled(m, e2),
{
    reveal(spec_log10_pow2);
    reveal(spec_log10_pow5);
    reveal(spec_pow5bits);
    lemma_float_powers();
    if e2 == -7 {
        lemma_power_product_exact(m, 2251799813685248000, 3, 4, 58, 125, 16, 524287961, 67108859);
    } else if e2 == -6 {
        lemma_power_product_exact(m, 1801439850948198400, 2, 4, 60, 25, 16, 104857586, 67108855);
    } else if e2 == -5 {
        lemma_power_product_exact(m, 1801439850948198400, 2, 3, 59, 25, 8, 209715197, 67108863);
    } else if e2 == -4 {
        lemma_power_product_exact(m, 1801439850948198400, 2, 2, 58, 25, 4, 419430394, 67108863);
    } else if e2 == -3 {
        lemma_power_product_exact(m, 1441151880758558720, 1, 2, 60, 5, 4, 83886079, 67108863);
    } else if e2 == -2 {
        lemma_power_product_exact(m, 1441151880758558720, 1, 1, 59, 5, 2, 167772158, 67108863);
    } else if e2 == -1 {
        lemma_power_product_exact(m, 1441151880758558720, 1, 0, 58, 5, 1, 335544316, 67108863);
    } else if e2 == 0 {
        lemma_reciprocal_product_exact(m, 2305843009213693953, 0, 0, 61, 1, 1, 67108864, 67108863);
    } else if e2 == 1 {
        lemma_reciprocal_product_exact(m, 2305843009213693953, 0, 1, 60, 2, 1, 134217727, 67108863);
    } else if e2 == 2 {
        lemma_reciprocal_product_exact(m, 2305843009213693953, 0, 2, 59, 4, 1, 268435453, 67108863);
    } else if e2 == 3 {
        lemma_reciprocal_product_exact(m, 2305843009213693953, 0, 3, 58, 8, 1, 536870905, 67108863);
    } else if e2 == 4 {
        lemma_reciprocal_product_exact(m, 1844674407370955162, 1, 3, 60, 8, 5, 107374181, 67108863);
    } else if e2 == 5 {
        lemma_reciprocal_product_exact(m, 1844674407370955162, 1, 4, 59, 16, 5, 214748349, 67108859);
    } else if e2 == 6 {
        lemma_reciprocal_product_exact(m, 1844674407370955162, 1, 5, 58, 32, 5, 429496717, 67108862);
    } else if e2 == 7 {
        lemma_reciprocal_product_exact(m, 1475739525896764130, 2, 5, 60, 32, 25, 85899337, 67108857);
    } else if e2 == 8 {
        lemma_reciprocal_product_exact(m, 1475739525896764130, 2, 6, 59, 64, 25, 171798633, 67108841);
    }
}

proof fn lemma_exact_10(m: nat, e2: int)
    requires
        9 <= e2 < 25,
        m < 0x400_0000,
    ensures
        fixed_point_product(m, float_factor(e2, float_q(e2)), float_shift(e2, float_q(e2)) as nat) == float_scaled(m, e2),
{
    reveal(spec_log10_pow2);
    reveal(spec_log10_pow5);
    reveal(spec_pow5bits);
    lemma_float_powers();
    if e2 == 9 {
        lemma_reciprocal_product_exact(m, 1475739525896764130, 2, 7, 58, 128, 25, 343597353, 67108858);
    } else if e2 == 10 {
        lemma_reciprocal_product_exact(m, 1180591620717411304, 3, 7, 60, 128, 125, 68719445, 67108833);
    } else if e2 == 11 {
        lemma_reciprocal_product_exact(m, 1180591620717411304, 3, 8, 59, 256, 125, 137438933, 67108854);
    } else if e2 == 12 {
        lemma_reciprocal_product_exact(m, 1180591620717411304, 3, 9, 58, 512, 125, 274877653, 67108802);
    } else if e2 == 13 {
        lemma_reciprocal_product_exact(m, 1180591620717411304, 3, 10, 57, 1024, 125, 549755093, 67108776);
    } else if e2 == 14 {
        lemma_reciprocal_product_exact(m, 1888946593147858086, 4, 10, 60, 1024, 625, 109950609, 67108526);
    } else if e2 == 15 {
        lemma_reciprocal_product_exact(m, 1888946593147858086, 4, 11, 59, 2048, 625, 219901585, 67108638);
    } else if e2 == 16 {
        lemma_reciprocal_product_exact(m, 1888946593147858086, 4, 12, 58, 4096, 625, 439803537, 67108694);
    } else if e2 == 17 {
        lemma_reciprocal_product_exact(m, 1511157274518286469, 5, 12, 60, 4096, 3125, 87959069, 67107444);
    } else if e2 == 18 {
        lemma_reciprocal_product_exact(m, 1511157274518286469, 5, 13, 59, 8192, 3125, 175916573, 67106847);
    } else if e2 == 19 {
        lemma_reciprocal_product_exact(m, 1511157274518286469, 5, 14, 58, 16384, 3125, 351839773, 67108111);
    } else if e2 == 20 {
        lemma_reciprocal_product_exact(m, 1208925819614629175, 6, 14, 60, 16384, 15625, 70361401, 67101861);
    } else if e2 == 21 {
        lemma_reciprocal_product_exact(m, 1208925819614629175, 6, 15, 59, 32768, 15625, 140730681, 67105618);
    } else if e2 == 22 {
        lemma_reciprocal_product_exact(m, 1208925819614629175, 6, 16, 58, 65536, 15625, 281436473, 67099684);
    } else if e2 == 23 {
        lemma_reciprocal_product_exact(m, 1208925819614629175, 6, 17, 57, 131072, 15625, 562848057, 67096717);
    } else if e2 == 24 {
        lemma_reciprocal_product_exact(m, 1934281311383406680, 7, 17, 60, 131072, 78125, 112543397, 67081092);
    }
}

proof fn lemma_exact_11(m: nat, e2: int)
    requires
        25 <= e2 < 41,
        m < 0x400_0000,
    ensures
        fixed_point_product(m, float_factor(e2, float_q(e2)), float_shift(e2, float_q(e2)) as nat) == float_scaled(m, e2),
{
    reveal(spec_log10_pow2);
    reveal(spec_log10_pow5);
    reveal(spec_pow5bits);
    lemma_float_powers();
    if e2 == 25 {
        lemma_reciprocal_product_exact(m, 1934281311383406680, 7, 18, 59, 262144, 78125, 225003173, 67056171);
    } else if e2 == 26 {
        lemma_reciprocal_product_exact(m, 1934281311383406680, 7, 19, 58, 524288, 78125, 450184869, 67082773);
    } else if e2 == 27 {
        lemma_reciprocal_product_exact(m, 1547425049106725344, 8, 19, 60, 524288, 390625, 89722401, 66848398);
    } else if e2 == 28 {
        lemma_reciprocal_product_exact(m, 1547425049106725344, 8, 20, 59, 1048576, 390625, 179899937, 67017949);
    } else if e2 == 29 {
        lemma_reciprocal_product_exact(m, 1547425049106725344, 8, 21, 58, 2097152, 390625, 359206433, 66907412);
    } else if e2 == 30 {
        lemma_reciprocal_product_exact(m, 1237940039285380275, 9, 21, 60, 2097152, 1953125, 70163565, 65344912);
    } else if e2 == 31 {
        lemma_reciprocal_product_exact(m, 1237940039285380275, 9, 22, 59, 4194304, 1953125, 141466733, 65875581);
    } else if e2 == 32 {
        lemma_reciprocal_product_exact(m, 1237940039285380275, 9, 23, 58, 8388608, 1953125, 279878765, 65164353);
    } else if e2 == 33 {
        lemma_reciprocal_product_exact(m, 1237940039285380275, 9, 24, 57, 16777216, 1953125, 573480045, 66761864);
    } else if e2 == 34 {
        lemma_reciprocal_product_exact(m, 1980704062856608440, 10, 24, 60, 16777216, 9765625, 114696009, 66761864);
    } else if e2 == 35 {
        lemma_reciprocal_product_exact(m, 1980704062856608440, 10, 25, 59, 33554432, 9765625, 215359305, 62677807);
    } else if e2 == 36 {
        lemma_reciprocal_product_exact(m, 1980704062856608440, 10, 26, 58, 67108864, 9765625, 450240329, 65518591);
    } else if e2 == 37 {
        lemma_reciprocal_product_exact(m, 1584563250285286752, 11, 26, 60, 67108864, 48828125, 76626293, 55752966);
    } else if e2 == 38 {
        lemma_reciprocal_product_exact(m, 1584563250285286752, 11, 27, 59, 134217728, 48828125, 76626293, 27876483);
    } else if e2 == 39 {
        lemma_reciprocal_product_exact(m, 1584563250285286752, 11, 28, 58, 268435456, 48828125, 210844021, 38352304);
    } else if e2 == 40 {
        lemma_reciprocal_product_exact(m, 1267650600228229402, 12, 28, 60, 11518287, 10475821, 72624577, 66051668);
    }
}

proof fn lemma_exact_12(m: nat, e2: int)
    requires
        41 <= e2 < 57,
        m < 0x400_0000,
    ensures
        fixed_point_product(m, float_factor(e2, float_q(e2)), float_shift(e2, float_q(e2)) as nat) == float_scaled(m, e2),
{
    reveal(spec_log10_pow2);
    reveal(spec_log10_pow5);
    reveal(spec_pow5bits);
    lemma_float_powers();
    if e2 == 41 {
        lemma_reciprocal_product_exact(m, 1267650600228229402, 12, 29, 59, 23036574, 10475821, 141734299, 64453297);
    } else if e2 == 42 {
        lemma_reciprocal_product_exact(m, 1267650600228229402, 12, 30, 58, 46073148, 10475821, 256917169, 58416201);
    } else if e2 == 43 {
        lemma_reciprocal_product_exact(m, 1267650600228229402, 12, 31, 57, 302990317, 34446011, 513834338, 58416201);
    } else if e2 == 44 {
        lemma_reciprocal_product_exact(m, 2028240960365167043, 13, 31, 60, 115885841, 65873474, 23739545, 13494369);
    } else if e2 == 45 {
        lemma_reciprocal_product_exact(m, 2028240960365167043, 13, 32, 59, 163364931, 46431106, 210844021, 59925475);
    } else if e2 == 46 {
        lemma_reciprocal_product_exact(m, 2028240960365167043, 13, 33, 58, 163364931, 23215553, 421688042, 59925475);
    } else if e2 == 47 {
        lemma_reciprocal_product_exact(m, 1622592768292133634, 14, 33, 60, 87398387, 62100289, 18991636, 13494369);
    } else if e2 == 48 {
        lemma_reciprocal_product_exact(m, 1622592768292133634, 14, 34, 59, 144373295, 51291698, 182356567, 64786067);
    } else if e2 == 49 {
        lemma_reciprocal_product_exact(m, 1622592768292133634, 14, 35, 58, 144373295, 25645849, 364713134, 64786067);
    } else if e2 == 50 {
        lemma_reciprocal_product_exact(m, 1298074214633706908, 15, 35, 60, 28874659, 25645849, 47091885, 41825996);
    } else if e2 == 51 {
        lemma_reciprocal_product_exact(m, 1298074214633706908, 15, 36, 59, 57749318, 25645849, 104841203, 46558847);
    } else if e2 == 52 {
        lemma_reciprocal_product_exact(m, 1298074214633706908, 15, 37, 58, 115498636, 25645849, 278089157, 61748197);
    } else if e2 == 53 {
        lemma_reciprocal_product_exact(m, 1298074214633706908, 15, 38, 57, 230997272, 25645849, 393587793, 43697023);
    } else if e2 == 54 {
        lemma_reciprocal_product_exact(m, 2076918743413931052, 16, 38, 60, 106080259, 58886373, 18836754, 10456499);
    } else if e2 == 55 {
        lemma_reciprocal_product_exact(m, 2076918743413931052, 16, 39, 59, 124917013, 34671436, 162590521, 45127935);
    } else if e2 == 56 {
        lemma_reciprocal_product_exact(m, 2076918743413931052, 16, 40, 58, 124917013, 17335718, 450098055, 62463653);
    }
}

proof fn lemma_exact_13(m: nat, e2: int)
    requires
        57 <= e2 < 73,
        m < 0x400_0000,
    ensures
        fixed_point_product(m, float_factor(e2, float_q(e2)), float_shift(e2, float_q(e2)) as nat) == float_scaled(m, e2),
{
    reveal(spec_log10_pow2);
    reveal(spec_log10_pow5);
    reveal(spec_pow5bits);
    lemma_float_powers();
    if e2 == 57 {
        lemma_reciprocal_product_exact(m, 1661534994731144842, 17, 40, 60, 34897402, 24214937, 90019611, 62463653);
    } else if e2 == 58 {
        lemma_reciprocal_product_exact(m, 1661534994731144842, 17, 41, 59, 124917013, 43339295, 180039222, 62463653);
    } else if e2 == 59 {
        lemma_reciprocal_product_exact(m, 1661534994731144842, 17, 42, 58, 249834026, 43339295, 304956235, 52901474);
    } else if e2 == 60 {
        lemma_reciprocal_product_exact(m, 1329227995784915873, 18, 42, 60, 66860285, 57992053, 60991247, 52901474);
    } else if e2 == 61 {
        lemma_reciprocal_product_exact(m, 1329227995784915873, 18, 43, 59, 133720570, 57992053, 60991247, 26450737);
    } else if e2 == 62 {
        lemma_reciprocal_product_exact(m, 1329227995784915873, 18, 44, 58, 194711817, 42221395, 121982494, 26450737);
    } else if e2 == 63 {
        lemma_reciprocal_product_exact(m, 1329227995784915873, 18, 45, 57, 316694311, 34336066, 560659299, 60786803);
    } else if e2 == 64 {
        lemma_reciprocal_product_exact(m, 2126764793255865397, 19, 45, 60, 106976456, 57992053, 34247133, 18565408);
    } else if e2 == 65 {
        lemma_reciprocal_product_exact(m, 2126764793255865397, 19, 46, 59, 213952912, 57992053, 34247133, 9282704);
    } else if e2 == 66 {
        lemma_reciprocal_product_exact(m, 2126764793255865397, 19, 47, 58, 462152957, 62633405, 34247133, 4641352);
    } else if e2 == 67 {
        lemma_reciprocal_product_exact(m, 1701411834604692318, 20, 47, 60, 65032885, 44067997, 34247133, 23206760);
    } else if e2 == 68 {
        lemma_reciprocal_product_exact(m, 1701411834604692318, 20, 48, 59, 164312903, 55671377, 34247133, 11603380);
    } else if e2 == 69 {
        lemma_reciprocal_product_exact(m, 1701411834604692318, 20, 49, 58, 362872939, 61473067, 34247133, 5801690);
    } else if e2 == 70 {
        lemma_reciprocal_product_exact(m, 1361129467683753854, 21, 49, 60, 52026308, 44067997, 34247133, 29008450);
    } else if e2 == 71 {
        lemma_reciprocal_product_exact(m, 1361129467683753854, 21, 50, 59, 138299749, 58572222, 34247133, 14504225);
    } else if e2 == 72 {
        lemma_reciprocal_product_exact(m, 1361129467683753854, 21, 51, 58, 206794015, 43790336, 275288281, 58294561);
    }
}

proof fn lemma_exact_14(m: nat, e2: int)
    requires
        73 <= e2 < 89,
        m < 0x400_0000,
    ensures
        fixed_point_product(m, float_factor(e2, float_q(e2)), float_shift(e2, float_q(e2)) as nat) == float_scaled(m, e2),
{
    reveal(spec_log10_pow2);
    reveal(spec_log10_pow5);
    reveal(spec_pow5bits);
    lemma_float_powers();
    if e2 == 73 {
        lemma_reciprocal_product_exact(m, 1361129467683753854, 21, 52, 57, 206794015, 21895168, 550576562, 58294561);
    } else if e2 == 74 {
        lemma_reciprocal_product_exact(m, 2177807148294006167, 22, 52, 60, 41358803, 21895168, 95629729, 50625957);
    } else if e2 == 75 {
        lemma_reciprocal_product_exact(m, 2177807148294006167, 22, 53, 59, 41358803, 10947584, 232618261, 61573541);
    } else if e2 == 76 {
        lemma_reciprocal_product_exact(m, 2177807148294006167, 22, 54, 58, 41358803, 5473792, 506595325, 67047333);
    } else if e2 == 77 {
        lemma_reciprocal_product_exact(m, 1742245718635204933, 23, 54, 60, 41358803, 27368960, 101319065, 67047333);
    } else if e2 == 78 {
        lemma_reciprocal_product_exact(m, 1742245718635204933, 23, 55, 59, 41358803, 13684480, 202638130, 67047333);
    } else if e2 == 79 {
        lemma_reciprocal_product_exact(m, 1742245718635204933, 23, 56, 58, 41358803, 6842240, 405276260, 67047333);
    } else if e2 == 80 {
        lemma_reciprocal_product_exact(m, 1393796574908163947, 24, 56, 60, 41358803, 34211200, 81055252, 67047333);
    } else if e2 == 81 {
        lemma_reciprocal_product_exact(m, 1393796574908163947, 24, 57, 59, 41358803, 17105600, 162110504, 67047333);
    } else if e2 == 82 {
        lemma_reciprocal_product_exact(m, 1393796574908163947, 24, 58, 58, 41358803, 8552800, 324221008, 67047333);
    } else if e2 == 83 {
        lemma_reciprocal_product_exact(m, 1393796574908163947, 24, 59, 57, 41358803, 4276400, 648442016, 67047333);
    } else if e2 == 84 {
        lemma_reciprocal_product_exact(m, 2230074519853062315, 25, 59, 60, 41358803, 21382000, 113144882, 58494533);
    } else if e2 == 85 {
        lemma_reciprocal_product_exact(m, 2230074519853062315, 25, 60, 59, 41358803, 10691000, 226289764, 58494533);
    } else if e2 == 86 {
        lemma_reciprocal_product_exact(m, 2230074519853062315, 25, 61, 58, 41358803, 5345500, 493938331, 63840033);
    } else if e2 == 87 {
        lemma_reciprocal_product_exact(m, 1784059615882449852, 26, 61, 60, 41358803, 26727500, 82244145, 53149033);
    } else if e2 == 88 {
        lemma_reciprocal_product_exact(m, 1784059615882449852, 26, 62, 59, 41358803, 13363750, 205847093, 66512783);
    }
}

proof fn lemma_exact_15(m: nat, e2: int)
    requires
        89 <= e2 < 103,
        m < 0x400_0000,
    ensures
        fixed_point_product(m, float_factor(e2, float_q(e2)), float_shift(e2, float_q(e2)) as nat) == float_scaled(m, e2),
{
    reveal(spec_log10_pow2);
    reveal(spec_log10_pow5);
    reveal(spec_pow5bits);
    lemma_float_powers();
    if e2 == 89 {
        lemma_reciprocal_product_exact(m, 1784059615882449852, 26, 63, 58, 41358803, 6681875, 411694186, 66512783);
    } else if e2 == 90 {
        lemma_reciprocal_product_exact(m, 1427247692705959882, 27, 63, 60, 41358803, 33409375, 65795316, 53149033);
    } else if e2 == 91 {
        lemma_reciprocal_product_exact(m, 1427247692705959882, 27, 64, 59, 82717606, 33409375, 107154119, 43279204);
    } else if e2 == 92 {
        lemma_reciprocal_product_exact(m, 1427247692705959882, 27, 65, 58, 165435212, 33409375, 272589331, 55048977);
    } else if e2 == 93 {
        lemma_reciprocal_product_exact(m, 1427247692705959882, 27, 66, 57, 330870424, 33409375, 438024543, 44229176);
    } else if e2 == 94 {
        lemma_reciprocal_product_exact(m, 2283596308329535810, 28, 66, 60, 44743261, 22589574, 107154119, 54099005);
    } else if e2 == 95 {
        lemma_reciprocal_product_exact(m, 2283596308329535810, 28, 67, 59, 44743261, 11294787, 259051499, 65393792);
    } else if e2 == 96 {
        lemma_reciprocal_product_exact(m, 2283596308329535810, 28, 68, 58, 527511065, 66581257, 438024543, 55286470);
    } else if e2 == 97 {
        lemma_reciprocal_product_exact(m, 1826877046663628648, 29, 68, 60, 105502213, 66581257, 16015691, 10107322);
    } else if e2 == 98 {
        lemma_reciprocal_product_exact(m, 1826877046663628648, 29, 69, 59, 211004426, 66581257, 16015691, 5053661);
    } else if e2 == 99 {
        lemma_reciprocal_product_exact(m, 1826877046663628648, 29, 70, 58, 422008852, 66581257, 227020117, 35817459);
    } else if e2 == 100 {
        lemma_reciprocal_product_exact(m, 1461501637330902919, 30, 70, 60, 38997747, 30763798, 71029129, 56032103);
    } else if e2 == 101 {
        lemma_reciprocal_product_exact(m, 1461501637330902919, 30, 71, 59, 38997747, 15381899, 142058258, 56032103);
    } else if e2 == 102 {
        lemma_reciprocal_product_exact(m, 1461501637330902919, 30, 72, 58, 77995494, 15381899, 337046993, 66470799);
    }
}

/// For every binary exponent of a finite float and every value of up to 26
/// bits, the product with the factor from the table, cut by the shift, is the
/// exact integer part of the value scaled to decimal.
pub proof fn lemma_float_scaling_exact(m: nat, e2: int)
    requires
        -151 <= e2 <= 102,
        m < 0x400_0000,
    ensures
        fixed_point_product(m, float_factor(e2, float_q(e2)), float_shift(e2, float_q(e2)) as nat) == float_scaled(m, e2),
{
    if e2 < -135 {
        lemma_exact_0(m, e2);
    } else if e2 < -119 {
        lemma_exact_1(m, e2);
    } else if e2 < -103 {
        lemma_exact_2(m, e2);
    } else if e2 < -87 {
        lemma_exact_3(m, e2);
    } else if e2 < -71 {
        lemma_exact_4(m, e2);
    } else if e2 < -55 {
        lemma_exact_5(m, e2);
    } else if e2 < -39 {
        lemma_exact_6(m, e2);
    } else if e2 < -23 {
        lemma_exact_7(m, e2);
    } else if e2 < -7 {
        lemma_exact_8(m, e2);
    } else if e2 < 9 {
        lemma_exact_9(m, e2);
    } else if e2 < 25 {
        lemma_exact_10(m, e2);
    } else if e2 < 41 {
        lemma_exact_11(m, e2);
    } else if e2 < 57 {
        lemma_exact_12(m, e2);
    } else if e2 < 73 {
        lemma_exact_13(m, e2);
    } else if e2 < 89 {
        lemma_exact_14(m, e2);
    } else if e2 < 103 {
        lemma_exact_15(m, e2);
    }
}

} // verus!
