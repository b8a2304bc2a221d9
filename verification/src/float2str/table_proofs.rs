//! Every entry of the tables is what its index asks for. The powers of five
//! and of two are written out entry by entry, so that each entry is compared
//! with numbers alone.

use vstd::prelude::*;
use vstd::arithmetic::power::{pow, lemma_pow0, lemma_pow1, lemma_pow_adds};
use vstd::arithmetic::power2::{pow2, lemma2_to64, lemma2_to64_rest, lemma_pow2_adds};
use crate::float2str::common::spec_pow5bits;
use crate::float2str::tables::{wide, DOUBLE_POW5_INV_SPLIT, DOUBLE_POW5_SPLIT};

verus! {

/// `value` is what entry `i` of the table of powers is to hold: the 125
/// leading bits of `5^i`, that is `floor(5^i * 2^125 / 2^bits)`, where `bits`
/// is the length of `5^i` in binary.
pub open spec fn is_pow5_entry(i: nat, value: nat) -> bool {
    let bits = spec_pow5bits(i as int) as nat;
    value * pow2(bits) <= pow(5, i) * pow2(125) < (value + 1) * pow2(bits)
}

/// `value` is what entry `q` of the table of reciprocals is to hold:
/// `floor(2^(bits + 124) / 5^q) + 1`, where `bits` is the length of `5^q` in
/// binary.
pub open spec fn is_pow5_inv_entry(q: nat, value: nat) -> bool {
    let bits = spec_pow5bits(q as int) as nat;
    (value - 1) * pow(5, q) <= pow2(bits + 124) < value * pow(5, q)
}

proof fn lemma_entries_0(i: int)
    requires
        0 <= i < 16,
    ensures
        pow(5, 15) == 30517578125int,
        pow2(35) == 0x800000000int,
        is_pow5_inv_entry(i as nat, wide(DOUBLE_POW5_INV_SPLIT[i])),
        i < 326 ==> is_pow5_entry(i as nat, wide(DOUBLE_POW5_SPLIT[i])),
{
    lemma2_to64();
    lemma2_to64_rest();
    lemma_pow1(5);
    lemma_pow2_adds(64, 60);
    lemma_pow2_adds(64, 61);
    assert(pow2(124) == 0x10000000000000000000000000000000int);
    assert(pow2(125) == 0x20000000000000000000000000000000int);
    lemma_pow0(5);
    lemma_pow_adds(5, 0, 1);
    assert(pow(5, 1) == 5int);
    lemma_pow2_adds(1, 2);
    assert(pow2(3) == 0x8int);
    lemma_pow_adds(5, 1, 1);
    assert(pow(5, 2) == 25int);
    lemma_pow2_adds(3, 2);
    assert(pow2(5) == 0x20int);
    lemma_pow_adds(5, 2, 1);
    assert(pow(5, 3) == 125int);
    lemma_pow2_adds(5, 2);
    assert(pow2(7) == 0x80int);
    lemma_pow_adds(5, 3, 1);
    assert(pow(5, 4) == 625int);
    lemma_pow2_adds(7, 3);
    assert(pow2(10) == 0x400int);
    lemma_pow_adds(5, 4, 1);
    assert(pow(5, 5) == 3125int);
    lemma_pow2_adds(10, 2);
    assert(pow2(12) == 0x1000int);
    lemma_pow_adds(5, 5, 1);
    assert(pow(5, 6) == 15625int);
    lemma_pow2_adds(12, 2);
    assert(pow2(14) == 0x4000int);
    lemma_pow_adds(5, 6, 1);
    assert(pow(5, 7) == 78125int);
    lemma_pow2_adds(14, 3);
    assert(pow2(17) == 0x20000int);
    lemma_pow_adds(5, 7, 1);
    assert(pow(5, 8) == 390625int);
    lemma_pow2_adds(17, 2);
    assert(pow2(19) == 0x80000int);
    lemma_pow_adds(5, 8, 1);
    assert(pow(5, 9) == 1953125int);
    lemma_pow2_adds(19, 2);
    assert(pow2(21) == 0x200000int);
    lemma_pow_adds(5, 9, 1);
    assert(pow(5, 10) == 9765625int);
    lemma_pow2_adds(21, 3);
    assert(pow2(24) == 0x1000000int);
    lemma_pow_adds(5, 10, 1);
    assert(pow(5, 11) == 48828125int);
    lemma_pow2_adds(24, 2);
    assert(pow2(26) == 0x4000000int);
    lemma_pow_adds(5, 11, 1);
    assert(pow(5, 12) == 244140625int);
    lemma_pow2_adds(26, 2);
    assert(pow2(28) == 0x10000000int);
    lemma_pow_adds(5, 12, 1);
    assert(pow(5, 13) == 1220703125int);
    lemma_pow2_adds(28, 3);
    assert(pow2(31) == 0x80000000int);
    lemma_pow_adds(5, 13, 1);
    assert(pow(5, 14) == 6103515625int);
    lemma_pow2_adds(31, 2);
    assert(pow2(33) == 0x200000000int);
    lemma_pow_adds(5, 14, 1);
    assert(pow(5, 15) == 30517578125int);
    lemma_pow2_adds(33, 2);
    assert(pow2(35) == 0x800000000int);
    reveal(spec_pow5bits);
    if i == 0 {
        assert(spec_pow5bits(0) == 1);
        lemma_pow2_adds(1, 124);
        assert(wide(DOUBLE_POW5_INV_SPLIT[0]) == 42535295865117307932921825928971026433int);
        assert(wide(DOUBLE_POW5_SPLIT[0]) == 21267647932558653966460912964485513216int);
    } else if i == 1 {
        assert(spec_pow5bits(1) == 3);
        lemma_pow2_adds(3, 124);
        assert(wide(DOUBLE_POW5_INV_SPLIT[1]) == 34028236692093846346337460743176821146int);
        assert(wide(DOUBLE_POW5_SPLIT[1]) == 26584559915698317458076141205606891520int);
    } else if i == 2 {
        assert(spec_pow5bits(2) == 5);
        lemma_pow2_adds(5, 124);
        assert(wide(DOUBLE_POW5_INV_SPLIT[2]) == 27222589353675077077069968594541456917int);
        assert(wide(DOUBLE_POW5_SPLIT[2]) == 33230699894622896822595176507008614400int);
    } else if i == 3 {
        assert(spec_pow5bits(3) == 7);
        lemma_pow2_adds(7, 124);
        assert(wide(DOUBLE_POW5_INV_SPLIT[3]) == 21778071482940061661655974875633165534int);
        assert(wide(DOUBLE_POW5_SPLIT[3]) == 41538374868278621028243970633760768000int);
    } else if i == 4 {
        assert(spec_pow5bits(4) == 10);
        lemma_pow2_adds(10, 124);
        assert(wide(DOUBLE_POW5_INV_SPLIT[4]) == 34844914372704098658649559801013064854int);
        assert(wide(DOUBLE_POW5_SPLIT[4]) == 25961484292674138142652481646100480000int);
    } else if i == 5 {
        assert(spec_pow5bits(5) == 12);
        lemma_pow2_adds(12, 124);
        assert(wide(DOUBLE_POW5_INV_SPLIT[5]) == 27875931498163278926919647840810451883int);
        assert(wide(DOUBLE_POW5_SPLIT[5]) == 32451855365842672678315602057625600000int);
    } else if i == 6 {
        assert(spec_pow5bits(6) == 14);
        lemma_pow2_adds(14, 124);
        assert(wide(DOUBLE_POW5_INV_SPLIT[6]) == 22300745198530623141535718272648361506int);
        assert(wide(DOUBLE_POW5_SPLIT[6]) == 40564819207303340847894502572032000000int);
    } else if i == 7 {
        assert(spec_pow5bits(7) == 17);
        lemma_pow2_adds(17, 124);
        assert(wide(DOUBLE_POW5_INV_SPLIT[7]) == 35681192317648997026457149236237378410int);
        assert(wide(DOUBLE_POW5_SPLIT[7]) == 25353012004564588029934064107520000000int);
    } else if i == 8 {
        assert(spec_pow5bits(8) == 19);
        lemma_pow2_adds(19, 124);
        assert(wide(DOUBLE_POW5_INV_SPLIT[8]) == 28544953854119197621165719388989902728int);
        assert(wide(DOUBLE_POW5_SPLIT[8]) == 31691265005705735037417580134400000000int);
    } else if i == 9 {
        assert(spec_pow5bits(9) == 21);
        lemma_pow2_adds(21, 124);
        assert(wide(DOUBLE_POW5_INV_SPLIT[9]) == 22835963083295358096932575511191922183int);
        assert(wide(DOUBLE_POW5_SPLIT[9]) == 39614081257132168796771975168000000000int);
    } else if i == 10 {
        assert(spec_pow5bits(10) == 24);
        lemma_pow2_adds(24, 124);
        assert(wide(DOUBLE_POW5_INV_SPLIT[10]) == 36537540933272572955092120817907075492int);
        assert(wide(DOUBLE_POW5_SPLIT[10]) == 24758800785707605497982484480000000000int);
    } else if i == 11 {
        assert(spec_pow5bits(11) == 26);
        lemma_pow2_adds(26, 124);
        assert(wide(DOUBLE_POW5_INV_SPLIT[11]) == 29230032746618058364073696654325660394int);
        assert(wide(DOUBLE_POW5_SPLIT[11]) == 30948500982134506872478105600000000000int);
    } else if i == 12 {
        assert(spec_pow5bits(12) == 28);
        lemma_pow2_adds(28, 124);
        assert(wide(DOUBLE_POW5_INV_SPLIT[12]) == 23384026197294446691258957323460528315int);
        assert(wide(DOUBLE_POW5_SPLIT[12]) == 38685626227668133590597632000000000000int);
    } else if i == 13 {
        assert(spec_pow5bits(13) == 31);
        lemma_pow2_adds(31, 124);
        assert(wide(DOUBLE_POW5_INV_SPLIT[13]) == 37414441915671114706014331717536845304int);
        assert(wide(DOUBLE_POW5_SPLIT[13]) == 24178516392292583494123520000000000000int);
    } else if i == 14 {
        assert(spec_pow5bits(14) == 33);
        lemma_pow2_adds(33, 124);
        assert(wide(DOUBLE_POW5_INV_SPLIT[14]) == 29931553532536891764811465374029476243int);
        assert(wide(DOUBLE_POW5_SPLIT[14]) == 30223145490365729367654400000000000000int);
    } else if i == 15 {
        assert(spec_pow5bits(15) == 35);
        lemma_pow2_adds(35, 124);
        assert(wide(DOUBLE_POW5_INV_SPLIT[15]) == 23945242826029513411849172299223580995int);
        assert(wide(DOUBLE_POW5_SPLIT[15]) == 37778931862957161709568000000000000000int);
    }
}

proof fn lemma_entries_1(i: int)
    requires
        16 <= i < 32,
    ensures
        pow(5, 31) == 4656612873077392578125int,
        pow2(72) == 0x1000000000000000000int,
        is_pow5_inv_entry(i as nat, wide(DOUBLE_POW5_INV_SPLIT[i])),
        i < 326 ==> is_pow5_entry(i as nat, wide(DOUBLE_POW5_SPLIT[i])),
{
    lemma2_to64();
    lemma2_to64_rest();
    lemma_pow1(5);
    lemma_pow2_adds(64, 60);
    lemma_pow2_adds(64, 61);
    assert(pow2(124) == 0x10000000000000000000000000000000int);
    assert(pow2(125) == 0x20000000000000000000000000000000int);
    lemma_entries_0(15);
    lemma_pow_adds(5, 15, 1);
    assert(pow(5, 16) == 152587890625int);
    lemma_pow2_adds(35, 3);
    assert(pow2(38) == 0x4000000000int);
    lemma_pow_adds(5, 16, 1);
    assert(pow(5, 17) == 762939453125int);
    lemma_pow2_adds(38, 2);
    assert(pow2(40) == 0x10000000000int);
    lemma_pow_adds(5, 17, 1);
    assert(pow(5, 18) == 3814697265625int);
    lemma_pow2_adds(40, 2);
    assert(pow2(42) == 0x40000000000int);
    lemma_pow_adds(5, 18, 1);
    assert(pow(5, 19) == 19073486328125int);
    lemma_pow2_adds(42, 3);
    assert(pow2(45) == 0x200000000000int);
    lemma_pow_adds(5, 19, 1);
    assert(pow(5, 20) == 95367431640625int);
    lemma_pow2_adds(45, 2);
    assert(pow2(47) == 0x800000000000int);
    lemma_pow_adds(5, 20, 1);
    assert(pow(5, 21) == 476837158203125int);
    lemma_pow2_adds(47, 2);
    assert(pow2(49) == 0x2000000000000int);
    lemma_pow_adds(5, 21, 1);
    assert(pow(5, 22) == 2384185791015625int);
    lemma_pow2_adds(49, 3);
    assert(pow2(52) == 0x10000000000000int);
    lemma_pow_adds(5, 22, 1);
    assert(pow(5, 23) == 11920928955078125int);
    lemma_pow2_adds(52, 2);
    assert(pow2(54) == 0x40000000000000int);
    lemma_pow_adds(5, 23, 1);
    assert(pow(5, 24) == 59604644775390625int);
    lemma_pow2_adds(54, 2);
    assert(pow2(56) == 0x100000000000000int);
    lemma_pow_adds(5, 24, 1);
    assert(pow(5, 25) == 298023223876953125int);
    lemma_pow2_adds(56, 3);
    assert(pow2(59) == 0x800000000000000int);
    lemma_pow_adds(5, 25, 1);
    assert(pow(5, 26) == 1490116119384765625int);
    lemma_pow2_adds(59, 2);
    assert(pow2(61) == 0x2000000000000000int);
    lemma_pow_adds(5, 26, 1);
    assert(pow(5, 27) == 7450580596923828125int);
    lemma_pow2_adds(61, 2);
    assert(pow2(63) == 0x8000000000000000int);
    lemma_pow_adds(5, 27, 1);
    assert(pow(5, 28) == 37252902984619140625int);
    lemma_pow2_adds(63, 3);
    assert(pow2(66) == 0x40000000000000000int);
    lemma_pow_adds(5, 28, 1);
    assert(pow(5, 29) == 186264514923095703125int);
    lemma_pow2_adds(66, 2);
    assert(pow2(68) == 0x100000000000000000int);
    lemma_pow_adds(5, 29, 1);
    assert(pow(5, 30) == 931322574615478515625int);
    lemma_pow2_adds(68, 2);
    assert(pow2(70) == 0x400000000000000000int);
    lemma_pow_adds(5, 30, 1);
    assert(pow(5, 31) == 4656612873077392578125int);
    lemma_pow2_adds(70, 2);
    assert(pow2(72) == 0x1000000000000000000int);
    reveal(spec_pow5bits);
    if i == 16 {
        assert(spec_pow5bits(16) == 38);
        lemma_pow2_adds(38, 124);
        assert(wide(DOUBLE_POW5_INV_SPLIT[16]) == 38312388521647221458958675678757729591int);
        assert(wide(DOUBLE_POW5_SPLIT[16]) == 23611832414348226068480000000000000000int);
    } else if i == 17 {
        assert(spec_pow5bits(17) == 40);
        lemma_pow2_adds(40, 124);
        assert(wide(DOUBLE_POW5_INV_SPLIT[17]) == 30649910817317777167166940543006183673int);
        assert(wide(DOUBLE_POW5_SPLIT[17]) == 29514790517935282585600000000000000000int);
    } else if i == 18 {
        assert(spec_pow5bits(18) == 42);
        lemma_pow2_adds(42, 124);
        assert(wide(DOUBLE_POW5_INV_SPLIT[18]) == 24519928653854221733733552434404946938int);
        assert(wide(DOUBLE_POW5_SPLIT[18]) == 36893488147419103232000000000000000000int);
    } else if i == 19 {
        assert(spec_pow5bits(19) == 45);
        lemma_pow2_adds(45, 124);
        assert(wide(DOUBLE_POW5_INV_SPLIT[19]) == 39231885846166754773973683895047915101int);
        assert(wide(DOUBLE_POW5_SPLIT[19]) == 23058430092136939520000000000000000000int);
    } else if i == 20 {
        assert(spec_pow5bits(20) == 47);
        lemma_pow2_adds(47, 124);
        assert(wide(DOUBLE_POW5_INV_SPLIT[20]) == 31385508676933403819178947116038332081int);
        assert(wide(DOUBLE_POW5_SPLIT[20]) == 28823037615171174400000000000000000000int);
    } else if i == 21 {
        assert(spec_pow5bits(21) == 49);
        lemma_pow2_adds(49, 124);
        assert(wide(DOUBLE_POW5_INV_SPLIT[21]) == 25108406941546723055343157692830665665int);
        assert(wide(DOUBLE_POW5_SPLIT[21]) == 36028797018963968000000000000000000000int);
    } else if i == 22 {
        assert(spec_pow5bits(22) == 52);
        lemma_pow2_adds(52, 124);
        assert(wide(DOUBLE_POW5_INV_SPLIT[22]) == 40173451106474756888549052308529065064int);
        assert(wide(DOUBLE_POW5_SPLIT[22]) == 22517998136852480000000000000000000000int);
    } else if i == 23 {
        assert(spec_pow5bits(23) == 54);
        lemma_pow2_adds(54, 124);
        assert(wide(DOUBLE_POW5_INV_SPLIT[23]) == 32138760885179805510839241846823252051int);
        assert(wide(DOUBLE_POW5_SPLIT[23]) == 28147497671065600000000000000000000000int);
    } else if i == 24 {
        assert(spec_pow5bits(24) == 56);
        lemma_pow2_adds(56, 124);
        assert(wide(DOUBLE_POW5_INV_SPLIT[24]) == 25711008708143844408671393477458601641int);
        assert(wide(DOUBLE_POW5_SPLIT[24]) == 35184372088832000000000000000000000000int);
    } else if i == 25 {
        assert(spec_pow5bits(25) == 59);
        lemma_pow2_adds(59, 124);
        assert(wide(DOUBLE_POW5_INV_SPLIT[25]) == 41137613933030151053874229563933762625int);
        assert(wide(DOUBLE_POW5_SPLIT[25]) == 21990232555520000000000000000000000000int);
    } else if i == 26 {
        assert(spec_pow5bits(26) == 61);
        lemma_pow2_adds(61, 124);
        assert(wide(DOUBLE_POW5_INV_SPLIT[26]) == 32910091146424120843099383651147010100int);
        assert(wide(DOUBLE_POW5_SPLIT[26]) == 27487790694400000000000000000000000000int);
    } else if i == 27 {
        assert(spec_pow5bits(27) == 63);
        lemma_pow2_adds(63, 124);
        assert(wide(DOUBLE_POW5_INV_SPLIT[27]) == 26328072917139296674479506920917608080int);
        assert(wide(DOUBLE_POW5_SPLIT[27]) == 34359738368000000000000000000000000000int);
    } else if i == 28 {
        assert(spec_pow5bits(28) == 66);
        lemma_pow2_adds(66, 124);
        assert(wide(DOUBLE_POW5_INV_SPLIT[28]) == 42124916667422874679167211073468172928int);
        assert(wide(DOUBLE_POW5_SPLIT[28]) == 21474836480000000000000000000000000000int);
    } else if i == 29 {
        assert(spec_pow5bits(29) == 68);
        lemma_pow2_adds(68, 124);
        assert(wide(DOUBLE_POW5_INV_SPLIT[29]) == 33699933333938299743333768858774538343int);
        assert(wide(DOUBLE_POW5_SPLIT[29]) == 26843545600000000000000000000000000000int);
    } else if i == 30 {
        assert(spec_pow5bits(30) == 70);
        lemma_pow2_adds(70, 124);
        assert(wide(DOUBLE_POW5_INV_SPLIT[30]) == 26959946667150639794667015087019630674int);
        assert(wide(DOUBLE_POW5_SPLIT[30]) == 33554432000000000000000000000000000000int);
    } else if i == 31 {
        assert(spec_pow5bits(31) == 72);
        lemma_pow2_adds(72, 124);
        assert(wide(DOUBLE_POW5_INV_SPLIT[31]) == 21567957333720511835733612069615704539int);
        assert(wide(DOUBLE_POW5_SPLIT[31]) == 41943040000000000000000000000000000000int);
    }
}

proof fn lemma_entries_2(i: int)
    requires
        32 <= i < 48,
    ensures
        pow(5, 47) == 710542735760100185871124267578125int,
        pow2(110) == 0x4000000000000000000000000000int,
        is_pow5_inv_entry(i as nat, wide(DOUBLE_POW5_INV_SPLIT[i])),
        i < 326 ==> is_pow5_entry(i as nat, wide(DOUBLE_POW5_SPLIT[i])),
{
    lemma2_to64();
    lemma2_to64_rest();
    lemma_pow1(5);
    lemma_pow2_adds(64, 60);
    lemma_pow2_adds(64, 61);
    assert(pow2(124) == 0x10000000000000000000000000000000int);
    assert(pow2(125) == 0x20000000000000000000000000000000int);
    lemma_entries_1(31);
    lemma_pow_adds(5, 31, 1);
    assert(pow(5, 32) == 23283064365386962890625int);
    lemma_pow2_adds(72, 3);
    assert(pow2(75) == 0x8000000000000000000int);
    lemma_pow_adds(5, 32, 1);
    assert(pow(5, 33) == 116415321826934814453125int);
    lemma_pow2_adds(75, 2);
    assert(pow2(77) == 0x20000000000000000000int);
    lemma_pow_adds(5, 33, 1);
    assert(pow(5, 34) == 582076609134674072265625int);
    lemma_pow2_adds(77, 2);
    assert(pow2(79) == 0x80000000000000000000int);
    lemma_pow_adds(5, 34, 1);
    assert(pow(5, 35) == 2910383045673370361328125int);
    lemma_pow2_adds(79, 3);
    assert(pow2(82) == 0x400000000000000000000int);
    lemma_pow_adds(5, 35, 1);
    assert(pow(5, 36) == 14551915228366851806640625int);
    lemma_pow2_adds(82, 2);
    assert(pow2(84) == 0x1000000000000000000000int);
    lemma_pow_adds(5, 36, 1);
    assert(pow(5, 37) == 72759576141834259033203125int);
    lemma_pow2_adds(84, 2);
    assert(pow2(86) == 0x4000000000000000000000int);
    lemma_pow_adds(5, 37, 1);
    assert(pow(5, 38) == 363797880709171295166015625int);
    lemma_pow2_adds(86, 3);
    assert(pow2(89) == 0x20000000000000000000000int);
    lemma_pow_adds(5, 38, 1);
    assert(pow(5, 39) == 1818989403545856475830078125int);
    lemma_pow2_adds(89, 2);
    assert(pow2(91) == 0x80000000000000000000000int);
    lemma_pow_adds(5, 39, 1);
    assert(pow(5, 40) == 9094947017729282379150390625int);
    lemma_pow2_adds(91, 2);
    assert(pow2(93) == 0x200000000000000000000000int);
    lemma_pow_adds(5, 40, 1);
    assert(pow(5, 41) == 45474735088646411895751953125int);
    lemma_pow2_adds(93, 3);
    assert(pow2(96) == 0x1000000000000000000000000int);
    lemma_pow_adds(5, 41, 1);
    assert(pow(5, 42) == 227373675443232059478759765625int);
    lemma_pow2_adds(96, 2);
    assert(pow2(98) == 0x4000000000000000000000000int);
    lemma_pow_adds(5, 42, 1);
    assert(pow(5, 43) == 1136868377216160297393798828125int);
    lemma_pow2_adds(98, 2);
    assert(pow2(100) == 0x10000000000000000000000000int);
    lemma_pow_adds(5, 43, 1);
    assert(pow(5, 44) == 5684341886080801486968994140625int);
    lemma_pow2_adds(100, 3);
    assert(pow2(103) == 0x80000000000000000000000000int);
    lemma_pow_adds(5, 44, 1);
    assert(pow(5, 45) == 28421709430404007434844970703125int);
    lemma_pow2_adds(103, 2);
    assert(pow2(105) == 0x200000000000000000000000000int);
    lemma_pow_adds(5, 45, 1);
    assert(pow(5, 46) == 142108547152020037174224853515625int);
    lemma_pow2_adds(105, 2);
    assert(pow2(107) == 0x800000000000000000000000000int);
    lemma_pow_adds(5, 46, 1);
    assert(pow(5, 47) == 710542735760100185871124267578125int);
    lemma_pow2_adds(107, 3);
    assert(pow2(110) == 0x4000000000000000000000000000int);
    reveal(spec_pow5bits);
    if i == 32 {
        assert(spec_pow5bits(32) == 75);
        lemma_pow2_adds(75, 124);
        assert(wide(DOUBLE_POW5_INV_SPLIT[32]) == 34508731733952818937173779311385127263int);
        assert(wide(DOUBLE_POW5_SPLIT[32]) == 26214400000000000000000000000000000000int);
    } else if i == 33 {
        assert(spec_pow5bits(33) == 77);
        lemma_pow2_adds(77, 124);
        assert(wide(DOUBLE_POW5_INV_SPLIT[33]) == 27606985387162255149739023449108101810int);
        assert(wide(DOUBLE_POW5_SPLIT[33]) == 32768000000000000000000000000000000000int);
    } else if i == 34 {
        assert(spec_pow5bits(34) == 79);
        lemma_pow2_adds(79, 124);
        assert(wide(DOUBLE_POW5_INV_SPLIT[34]) == 22085588309729804119791218759286481448int);
        assert(wide(DOUBLE_POW5_SPLIT[34]) == 40960000000000000000000000000000000000int);
    } else if i == 35 {
        assert(spec_pow5bits(35) == 82);
        lemma_pow2_adds(82, 124);
        assert(wide(DOUBLE_POW5_INV_SPLIT[35]) == 35336941295567686591665950014858370317int);
        assert(wide(DOUBLE_POW5_SPLIT[35]) == 25600000000000000000000000000000000000int);
    } else if i == 36 {
        assert(spec_pow5bits(36) == 84);
        lemma_pow2_adds(84, 124);
        assert(wide(DOUBLE_POW5_INV_SPLIT[36]) == 28269553036454149273332760011886696254int);
        assert(wide(DOUBLE_POW5_SPLIT[36]) == 32000000000000000000000000000000000000int);
    } else if i == 37 {
        assert(spec_pow5bits(37) == 86);
        lemma_pow2_adds(86, 124);
        assert(wide(DOUBLE_POW5_INV_SPLIT[37]) == 22615642429163319418666208009509357003int);
        assert(wide(DOUBLE_POW5_SPLIT[37]) == 40000000000000000000000000000000000000int);
    } else if i == 38 {
        assert(spec_pow5bits(38) == 89);
        lemma_pow2_adds(89, 124);
        assert(wide(DOUBLE_POW5_INV_SPLIT[38]) == 36185027886661311069865932815214971205int);
        assert(wide(DOUBLE_POW5_SPLIT[38]) == 25000000000000000000000000000000000000int);
    } else if i == 39 {
        assert(spec_pow5bits(39) == 91);
        lemma_pow2_adds(91, 124);
        assert(wide(DOUBLE_POW5_INV_SPLIT[39]) == 28948022309329048855892746252171976964int);
        assert(wide(DOUBLE_POW5_SPLIT[39]) == 31250000000000000000000000000000000000int);
    } else if i == 40 {
        assert(spec_pow5bits(40) == 93);
        lemma_pow2_adds(93, 124);
        assert(wide(DOUBLE_POW5_INV_SPLIT[40]) == 23158417847463239084714197001737581571int);
        assert(wide(DOUBLE_POW5_SPLIT[40]) == 39062500000000000000000000000000000000int);
    } else if i == 41 {
        assert(spec_pow5bits(41) == 96);
        lemma_pow2_adds(96, 124);
        assert(wide(DOUBLE_POW5_INV_SPLIT[41]) == 37053468555941182535542715202780130514int);
        assert(wide(DOUBLE_POW5_SPLIT[41]) == 24414062500000000000000000000000000000int);
    } else if i == 42 {
        assert(spec_pow5bits(42) == 98);
        lemma_pow2_adds(98, 124);
        assert(wide(DOUBLE_POW5_INV_SPLIT[42]) == 29642774844752946028434172162224104411int);
        assert(wide(DOUBLE_POW5_SPLIT[42]) == 30517578125000000000000000000000000000int);
    } else if i == 43 {
        assert(spec_pow5bits(43) == 100);
        lemma_pow2_adds(100, 124);
        assert(wide(DOUBLE_POW5_INV_SPLIT[43]) == 23714219875802356822747337729779283529int);
        assert(wide(DOUBLE_POW5_SPLIT[43]) == 38146972656250000000000000000000000000int);
    } else if i == 44 {
        assert(spec_pow5bits(44) == 103);
        lemma_pow2_adds(103, 124);
        assert(wide(DOUBLE_POW5_INV_SPLIT[44]) == 37942751801283770916395740367646853646int);
        assert(wide(DOUBLE_POW5_SPLIT[44]) == 23841857910156250000000000000000000000int);
    } else if i == 45 {
        assert(spec_pow5bits(45) == 105);
        lemma_pow2_adds(105, 124);
        assert(wide(DOUBLE_POW5_INV_SPLIT[45]) == 30354201441027016733116592294117482917int);
        assert(wide(DOUBLE_POW5_SPLIT[45]) == 29802322387695312500000000000000000000int);
    } else if i == 46 {
        assert(spec_pow5bits(46) == 107);
        lemma_pow2_adds(107, 124);
        assert(wide(DOUBLE_POW5_INV_SPLIT[46]) == 24283361152821613386493273835293986334int);
        assert(wide(DOUBLE_POW5_SPLIT[46]) == 37252902984619140625000000000000000000int);
    } else if i == 47 {
        assert(spec_pow5bits(47) == 110);
        lemma_pow2_adds(110, 124);
        assert(wide(DOUBLE_POW5_INV_SPLIT[47]) == 38853377844514581418389238136470378133int);
        assert(wide(DOUBLE_POW5_SPLIT[47]) == 23283064365386962890625000000000000000int);
    }
}

proof fn lemma_entries_3(i: int)
    requires
        48 <= i < 64,
    ensures
        pow(5, 63) == 108420217248550443400745280086994171142578125int,
        pow2(147) == 0x8000000000000000000000000000000000000int,
        is_pow5_inv_entry(i as nat, wide(DOUBLE_POW5_INV_SPLIT[i])),
        i < 326 ==> is_pow5_entry(i as nat, wide(DOUBLE_POW5_SPLIT[i])),
{
    lemma2_to64();
    lemma2_to64_rest();
    lemma_pow1(5);
    lemma_pow2_adds(64, 60);
    lemma_pow2_adds(64, 61);
    assert(pow2(124) == 0x10000000000000000000000000000000int);
    assert(pow2(125) == 0x20000000000000000000000000000000int);
    lemma_entries_2(47);
    lemma_pow_adds(5, 47, 1);
    assert(pow(5, 48) == 3552713678800500929355621337890625int);
    lemma_pow2_adds(110, 2);
    assert(pow2(112) == 0x10000000000000000000000000000int);
    lemma_pow_adds(5, 48, 1);
    assert(pow(5, 49) == 17763568394002504646778106689453125int);
    lemma_pow2_adds(112, 2);
    assert(pow2(114) == 0x40000000000000000000000000000int);
    lemma_pow_adds(5, 49, 1);
    assert(pow(5, 50) == 88817841970012523233890533447265625int);
    lemma_pow2_adds(114, 3);
    assert(pow2(117) == 0x200000000000000000000000000000int);
    lemma_pow_adds(5, 50, 1);
    assert(pow(5, 51) == 444089209850062616169452667236328125int);
    lemma_pow2_adds(117, 2);
    assert(pow2(119) == 0x800000000000000000000000000000int);
    lemma_pow_adds(5, 51, 1);
    assert(pow(5, 52) == 2220446049250313080847263336181640625int);
    lemma_pow2_adds(119, 2);
    assert(pow2(121) == 0x2000000000000000000000000000000int);
    lemma_pow_adds(5, 52, 1);
    assert(pow(5, 53) == 11102230246251565404236316680908203125int);
    lemma_pow2_adds(121, 3);
    assert(pow2(124) == 0x10000000000000000000000000000000int);
    lemma_pow_adds(5, 53, 1);
    assert(pow(5, 54) == 55511151231257827021181583404541015625int);
    lemma_pow2_adds(124, 2);
    assert(pow2(126) == 0x40000000000000000000000000000000int);
    lemma_pow_adds(5, 54, 1);
    assert(pow(5, 55) == 277555756156289135105907917022705078125int);
    lemma_pow2_adds(126, 2);
    assert(pow2(128) == 0x100000000000000000000000000000000int);
    lemma_pow_adds(5, 55, 1);
    assert(pow(5, 56) == 1387778780781445675529539585113525390625int);
    lemma_pow2_adds(128, 3);
    assert(pow2(131) == 0x800000000000000000000000000000000int);
    lemma_pow_adds(5, 56, 1);
    assert(pow(5, 57) == 6938893903907228377647697925567626953125int);
    lemma_pow2_adds(131, 2);
    assert(pow2(133) == 0x2000000000000000000000000000000000int);
    lemma_pow_adds(5, 57, 1);
    assert(pow(5, 58) == 34694469519536141888238489627838134765625int);
    lemma_pow2_adds(133, 2);
    assert(pow2(135) == 0x8000000000000000000000000000000000int);
    lemma_pow_adds(5, 58, 1);
    assert(pow(5, 59) == 173472347597680709441192448139190673828125int);
    lemma_pow2_adds(135, 2);
    assert(pow2(137) == 0x20000000000000000000000000000000000int);
    lemma_pow_adds(5, 59, 1);
    assert(pow(5, 60) == 867361737988403547205962240695953369140625int);
    lemma_pow2_adds(137, 3);
    assert(pow2(140) == 0x100000000000000000000000000000000000int);
    lemma_pow_adds(5, 60, 1);
    assert(pow(5, 61) == 4336808689942017736029811203479766845703125int);
    lemma_pow2_adds(140, 2);
    assert(pow2(142) == 0x400000000000000000000000000000000000int);
    lemma_pow_adds(5, 61, 1);
    assert(pow(5, 62) == 21684043449710088680149056017398834228515625int);
    lemma_pow2_adds(142, 2);
    assert(pow2(144) == 0x1000000000000000000000000000000000000int);
    lemma_pow_adds(5, 62, 1);
    assert(pow(5, 63) == 108420217248550443400745280086994171142578125int);
    lemma_pow2_adds(144, 3);
    assert(pow2(147) == 0x8000000000000000000000000000000000000int);
    reveal(spec_pow5bits);
    if i == 48 {
        assert(spec_pow5bits(48) == 112);
        lemma_pow2_adds(112, 124);
        assert(wide(DOUBLE_POW5_INV_SPLIT[48]) == 31082702275611665134711390509176302507int);
        assert(wide(DOUBLE_POW5_SPLIT[48]) == 29103830456733703613281250000000000000int);
    } else if i == 49 {
        assert(spec_pow5bits(49) == 114);
        lemma_pow2_adds(114, 124);
        assert(wide(DOUBLE_POW5_INV_SPLIT[49]) == 24866161820489332107769112407341042006int);
        assert(wide(DOUBLE_POW5_SPLIT[49]) == 36379788070917129516601562500000000000int);
    } else if i == 50 {
        assert(spec_pow5bits(50) == 117);
        lemma_pow2_adds(117, 124);
        assert(wide(DOUBLE_POW5_INV_SPLIT[50]) == 39785858912782931372430579851745667209int);
        assert(wide(DOUBLE_POW5_SPLIT[50]) == 22737367544323205947875976562500000000int);
    } else if i == 51 {
        assert(spec_pow5bits(51) == 119);
        lemma_pow2_adds(119, 124);
        assert(wide(DOUBLE_POW5_INV_SPLIT[51]) == 31828687130226345097944463881396533767int);
        assert(wide(DOUBLE_POW5_SPLIT[51]) == 28421709430404007434844970703125000000int);
    } else if i == 52 {
        assert(spec_pow5bits(52) == 121);
        lemma_pow2_adds(121, 124);
        assert(wide(DOUBLE_POW5_INV_SPLIT[52]) == 25462949704181076078355571105117227014int);
        assert(wide(DOUBLE_POW5_SPLIT[52]) == 35527136788005009293556213378906250000int);
    } else if i == 53 {
        assert(spec_pow5bits(53) == 124);
        lemma_pow2_adds(124, 124);
        assert(wide(DOUBLE_POW5_INV_SPLIT[53]) == 40740719526689721725368913768187563222int);
        assert(wide(DOUBLE_POW5_SPLIT[53]) == 22204460492503130808472633361816406250int);
    } else if i == 54 {
        assert(spec_pow5bits(54) == 126);
        lemma_pow2_adds(126, 124);
        assert(wide(DOUBLE_POW5_INV_SPLIT[54]) == 32592575621351777380295131014550050577int);
        assert(wide(DOUBLE_POW5_SPLIT[54]) == 27755575615628913510590791702270507812int);
    } else if i == 55 {
        assert(spec_pow5bits(55) == 128);
        lemma_pow2_adds(128, 124);
        assert(wide(DOUBLE_POW5_INV_SPLIT[55]) == 26074060497081421904236104811640040462int);
        assert(wide(DOUBLE_POW5_SPLIT[55]) == 34694469519536141888238489627838134765int);
    } else if i == 56 {
        assert(spec_pow5bits(56) == 131);
        lemma_pow2_adds(131, 124);
        assert(wide(DOUBLE_POW5_INV_SPLIT[56]) == 41718496795330275046777767698624064739int);
        assert(wide(DOUBLE_POW5_SPLIT[56]) == 21684043449710088680149056017398834228int);
    } else if i == 57 {
        assert(spec_pow5bits(57) == 133);
        lemma_pow2_adds(133, 124);
        assert(wide(DOUBLE_POW5_INV_SPLIT[57]) == 33374797436264220037422214158899251791int);
        assert(wide(DOUBLE_POW5_SPLIT[57]) == 27105054312137610850186320021748542785int);
    } else if i == 58 {
        assert(spec_pow5bits(58) == 135);
        lemma_pow2_adds(135, 124);
        assert(wide(DOUBLE_POW5_INV_SPLIT[58]) == 26699837949011376029937771327119401433int);
        assert(wide(DOUBLE_POW5_SPLIT[58]) == 33881317890172013562732900027185678482int);
    } else if i == 59 {
        assert(spec_pow5bits(59) == 137);
        lemma_pow2_adds(137, 124);
        assert(wide(DOUBLE_POW5_INV_SPLIT[59]) == 21359870359209100823950217061695521147int);
        assert(wide(DOUBLE_POW5_SPLIT[59]) == 42351647362715016953416125033982098102int);
    } else if i == 60 {
        assert(spec_pow5bits(60) == 140);
        lemma_pow2_adds(140, 124);
        assert(wide(DOUBLE_POW5_INV_SPLIT[60]) == 34175792574734561318320347298712833834int);
        assert(wide(DOUBLE_POW5_SPLIT[60]) == 26469779601696885595885078146238811314int);
    } else if i == 61 {
        assert(spec_pow5bits(61) == 142);
        lemma_pow2_adds(142, 124);
        assert(wide(DOUBLE_POW5_INV_SPLIT[61]) == 27340634059787649054656277838970267067int);
        assert(wide(DOUBLE_POW5_SPLIT[61]) == 33087224502121106994856347682798514142int);
    } else if i == 62 {
        assert(spec_pow5bits(62) == 144);
        lemma_pow2_adds(144, 124);
        assert(wide(DOUBLE_POW5_INV_SPLIT[62]) == 21872507247830119243725022271176213654int);
        assert(wide(DOUBLE_POW5_SPLIT[62]) == 41359030627651383743570434603498142678int);
    } else if i == 63 {
        assert(spec_pow5bits(63) == 147);
        lemma_pow2_adds(147, 124);
        assert(wide(DOUBLE_POW5_INV_SPLIT[63]) == 34996011596528190789960035633881941846int);
        assert(wide(DOUBLE_POW5_SPLIT[63]) == 25849394142282114839731521627186339173int);
    }
}

proof fn lemma_entries_4(i: int)
    requires
        64 <= i < 80,
    ensures
        pow(5, 79) == 16543612251060553497428173841399257071316242218017578125int,
        pow2(184) == 0x10000000000000000000000000000000000000000000000int,
        is_pow5_inv_entry(i as nat, wide(DOUBLE_POW5_INV_SPLIT[i])),
        i < 326 ==> is_pow5_entry(i as nat, wide(DOUBLE_POW5_SPLIT[i])),
{
    lemma2_to64();
    lemma2_to64_rest();
    lemma_pow1(5);
    lemma_pow2_adds(64, 60);
    lemma_pow2_adds(64, 61);
    assert(pow2(124) == 0x10000000000000000000000000000000int);
    assert(pow2(125) == 0x20000000000000000000000000000000int);
    lemma_entries_3(63);
    lemma_pow_adds(5, 63, 1);
    assert(pow(5, 64) == 542101086242752217003726400434970855712890625int);
    lemma_pow2_adds(147, 2);
    assert(pow2(149) == 0x20000000000000000000000000000000000000int);
    lemma_pow_adds(5, 64, 1);
    assert(pow(5, 65) == 2710505431213761085018632002174854278564453125int);
    lemma_pow2_adds(149, 2);
    assert(pow2(151) == 0x80000000000000000000000000000000000000int);
    lemma_pow_adds(5, 65, 1);
    assert(pow(5, 66) == 13552527156068805425093160010874271392822265625int);
    lemma_pow2_adds(151, 3);
    assert(pow2(154) == 0x400000000000000000000000000000000000000int);
    lemma_pow_adds(5, 66, 1);
    assert(pow(5, 67) == 67762635780344027125465800054371356964111328125int);
    lemma_pow2_adds(154, 2);
    assert(pow2(156) == 0x1000000000000000000000000000000000000000int);
    lemma_pow_adds(5, 67, 1);
    assert(pow(5, 68) == 338813178901720135627329000271856784820556640625int);
    lemma_pow2_adds(156, 2);
    assert(pow2(158) == 0x4000000000000000000000000000000000000000int);
    lemma_pow_adds(5, 68, 1);
    assert(pow(5, 69) == 1694065894508600678136645001359283924102783203125int);
    lemma_pow2_adds(158, 3);
    assert(pow2(161) == 0x20000000000000000000000000000000000000000int);
    lemma_pow_adds(5, 69, 1);
    assert(pow(5, 70) == 8470329472543003390683225006796419620513916015625int);
    lemma_pow2_adds(161, 2);
    assert(pow2(163) == 0x80000000000000000000000000000000000000000int);
    lemma_pow_adds(5, 70, 1);
    assert(pow(5, 71) == 42351647362715016953416125033982098102569580078125int);
    lemma_pow2_adds(163, 2);
    assert(pow2(165) == 0x200000000000000000000000000000000000000000int);
    lemma_pow_adds(5, 71, 1);
    assert(pow(5, 72) == 211758236813575084767080625169910490512847900390625int);
    lemma_pow2_adds(165, 3);
    assert(pow2(168) == 0x1000000000000000000000000000000000000000000int);
    lemma_pow_adds(5, 72, 1);
    assert(pow(5, 73) == 1058791184067875423835403125849552452564239501953125int);
    lemma_pow2_adds(168, 2);
    assert(pow2(170) == 0x4000000000000000000000000000000000000000000int);
    lemma_pow_adds(5, 73, 1);
    assert(pow(5, 74) == 5293955920339377119177015629247762262821197509765625int);
    lemma_pow2_adds(170, 2);
    assert(pow2(172) == 0x10000000000000000000000000000000000000000000int);
    lemma_pow_adds(5, 74, 1);
    assert(pow(5, 75) == 26469779601696885595885078146238811314105987548828125int);
    lemma_pow2_adds(172, 3);
    assert(pow2(175) == 0x80000000000000000000000000000000000000000000int);
    lemma_pow_adds(5, 75, 1);
    assert(pow(5, 76) == 132348898008484427979425390731194056570529937744140625int);
    lemma_pow2_adds(175, 2);
    assert(pow2(177) == 0x200000000000000000000000000000000000000000000int);
    lemma_pow_adds(5, 76, 1);
    assert(pow(5, 77) == 661744490042422139897126953655970282852649688720703125int);
    lemma_pow2_adds(177, 2);
    assert(pow2(179) == 0x800000000000000000000000000000000000000000000int);
    lemma_pow_adds(5, 77, 1);
    assert(pow(5, 78) == 3308722450212110699485634768279851414263248443603515625int);
    lemma_pow2_adds(179, 3);
    assert(pow2(182) == 0x4000000000000000000000000000000000000000000000int);
    lemma_pow_adds(5, 78, 1);
    assert(pow(5, 79) == 16543612251060553497428173841399257071316242218017578125int);
    lemma_pow2_adds(182, 2);
    assert(pow2(184) == 0x10000000000000000000000000000000000000000000000int);
    reveal(spec_pow5bits);
    if i == 64 {
        assert(spec_pow5bits(64) == 149);
        lemma_pow2_adds(149, 124);
        assert(wide(DOUBLE_POW5_INV_SPLIT[64]) == 27996809277222552631968028507105553477int);
        assert(wide(DOUBLE_POW5_SPLIT[64]) == 32311742677852643549664402033982923967int);
    } else if i == 65 {
        assert(spec_pow5bits(65) == 151);
        lemma_pow2_adds(151, 124);
        assert(wide(DOUBLE_POW5_INV_SPLIT[65]) == 22397447421778042105574422805684442782int);
        assert(wide(DOUBLE_POW5_SPLIT[65]) == 40389678347315804437080502542478654959int);
    } else if i == 66 {
        assert(spec_pow5bits(66) == 154);
        lemma_pow2_adds(154, 124);
        assert(wide(DOUBLE_POW5_INV_SPLIT[66]) == 35835915874844867368919076489095108450int);
        assert(wide(DOUBLE_POW5_SPLIT[66]) == 25243548967072377773175314089049159349int);
    } else if i == 67 {
        assert(spec_pow5bits(67) == 156);
        lemma_pow2_adds(156, 124);
        assert(wide(DOUBLE_POW5_INV_SPLIT[67]) == 28668732699875893895135261191276086760int);
        assert(wide(DOUBLE_POW5_SPLIT[67]) == 31554436208840472216469142611311449186int);
    } else if i == 68 {
        assert(spec_pow5bits(68) == 158);
        lemma_pow2_adds(158, 124);
        assert(wide(DOUBLE_POW5_INV_SPLIT[68]) == 22934986159900715116108208953020869408int);
        assert(wide(DOUBLE_POW5_SPLIT[68]) == 39443045261050590270586428264139311483int);
    } else if i == 69 {
        assert(spec_pow5bits(69) == 161);
        lemma_pow2_adds(161, 124);
        assert(wide(DOUBLE_POW5_INV_SPLIT[69]) == 36695977855841144185773134324833391053int);
        assert(wide(DOUBLE_POW5_SPLIT[69]) == 24651903288156618919116517665087069677int);
    } else if i == 70 {
        assert(spec_pow5bits(70) == 163);
        lemma_pow2_adds(163, 124);
        assert(wide(DOUBLE_POW5_INV_SPLIT[70]) == 29356782284672915348618507459866712843int);
        assert(wide(DOUBLE_POW5_SPLIT[70]) == 30814879110195773648895647081358837096int);
    } else if i == 71 {
        assert(spec_pow5bits(71) == 165);
        lemma_pow2_adds(165, 124);
        assert(wide(DOUBLE_POW5_INV_SPLIT[71]) == 23485425827738332278894805967893370274int);
        assert(wide(DOUBLE_POW5_SPLIT[71]) == 38518598887744717061119558851698546370int);
    } else if i == 72 {
        assert(spec_pow5bits(72) == 168);
        lemma_pow2_adds(168, 124);
        assert(wide(DOUBLE_POW5_INV_SPLIT[72]) == 37576681324381331646231689548629392439int);
        assert(wide(DOUBLE_POW5_SPLIT[72]) == 24074124304840448163199724282311591481int);
    } else if i == 73 {
        assert(spec_pow5bits(73) == 170);
        lemma_pow2_adds(170, 124);
        assert(wide(DOUBLE_POW5_INV_SPLIT[73]) == 30061345059505065316985351638903513951int);
        assert(wide(DOUBLE_POW5_SPLIT[73]) == 30092655381050560203999655352889489352int);
    } else if i == 74 {
        assert(spec_pow5bits(74) == 172);
        lemma_pow2_adds(172, 124);
        assert(wide(DOUBLE_POW5_INV_SPLIT[74]) == 24049076047604052253588281311122811161int);
        assert(wide(DOUBLE_POW5_SPLIT[74]) == 37615819226313200254999569191111861690int);
    } else if i == 75 {
        assert(spec_pow5bits(75) == 175);
        lemma_pow2_adds(175, 124);
        assert(wide(DOUBLE_POW5_INV_SPLIT[75]) == 38478521676166483605741250097796497857int);
        assert(wide(DOUBLE_POW5_SPLIT[75]) == 23509887016445750159374730744444913556int);
    } else if i == 76 {
        assert(spec_pow5bits(76) == 177);
        lemma_pow2_adds(177, 124);
        assert(wide(DOUBLE_POW5_INV_SPLIT[76]) == 30782817340933186884593000078237198286int);
        assert(wide(DOUBLE_POW5_SPLIT[76]) == 29387358770557187699218413430556141945int);
    } else if i == 77 {
        assert(spec_pow5bits(77) == 179);
        lemma_pow2_adds(179, 124);
        assert(wide(DOUBLE_POW5_INV_SPLIT[77]) == 24626253872746549507674400062589758629int);
        assert(wide(DOUBLE_POW5_SPLIT[77]) == 36734198463196484624023016788195177431int);
    } else if i == 78 {
        assert(spec_pow5bits(78) == 182);
        lemma_pow2_adds(182, 124);
        assert(wide(DOUBLE_POW5_INV_SPLIT[78]) == 39402006196394479212279040100143613806int);
        assert(wide(DOUBLE_POW5_SPLIT[78]) == 22958874039497802890014385492621985894int);
    } else if i == 79 {
        assert(spec_pow5bits(79) == 184);
        lemma_pow2_adds(184, 124);
        assert(wide(DOUBLE_POW5_INV_SPLIT[79]) == 31521604957115583369823232080114891045int);
        assert(wide(DOUBLE_POW5_SPLIT[79]) == 28698592549372253612517981865777482368int);
    }
}

proof fn lemma_entries_5(i: int)
    requires
        80 <= i < 96,
    ensures
        pow(5, 95) == 2524354896707237777317531408904915934954260592348873615264892578125int,
        pow2(221) == 0x20000000000000000000000000000000000000000000000000000000int,
        is_pow5_inv_entry(i as nat, wide(DOUBLE_POW5_INV_SPLIT[i])),
        i < 326 ==> is_pow5_entry(i as nat, wide(DOUBLE_POW5_SPLIT[i])),
{
    lemma2_to64();
    lemma2_to64_rest();
    lemma_pow1(5);
    lemma_pow2_adds(64, 60);
    lemma_pow2_adds(64, 61);
    assert(pow2(124) == 0x10000000000000000000000000000000int);
    assert(pow2(125) == 0x20000000000000000000000000000000int);
    lemma_entries_4(79);
    lemma_pow_adds(5, 79, 1);
    assert(pow(5, 80) == 82718061255302767487140869206996285356581211090087890625int);
    lemma_pow2_adds(184, 2);
    assert(pow2(186) == 0x40000000000000000000000000000000000000000000000int);
    lemma_pow_adds(5, 80, 1);
    assert(pow(5, 81) == 413590306276513837435704346034981426782906055450439453125int);
    lemma_pow2_adds(186, 3);
    assert(pow2(189) == 0x200000000000000000000000000000000000000000000000int);
    lemma_pow_adds(5, 81, 1);
    assert(pow(5, 82) == 2067951531382569187178521730174907133914530277252197265625int);
    lemma_pow2_adds(189, 2);
    assert(pow2(191) == 0x800000000000000000000000000000000000000000000000int);
    lemma_pow_adds(5, 82, 1);
    assert(pow(5, 83) == 10339757656912845935892608650874535669572651386260986328125int);
    lemma_pow2_adds(191, 2);
    assert(pow2(193) == 0x2000000000000000000000000000000000000000000000000int);
    lemma_pow_adds(5, 83, 1);
    assert(pow(5, 84) == 51698788284564229679463043254372678347863256931304931640625int);
    lemma_pow2_adds(193, 3);
    assert(pow2(196) == 0x10000000000000000000000000000000000000000000000000int);
    lemma_pow_adds(5, 84, 1);
    assert(pow(5, 85) == 258493941422821148397315216271863391739316284656524658203125int);
    lemma_pow2_adds(196, 2);
    assert(pow2(198) == 0x40000000000000000000000000000000000000000000000000int);
    lemma_pow_adds(5, 85, 1);
    assert(pow(5, 86) == 1292469707114105741986576081359316958696581423282623291015625int);
    lemma_pow2_adds(198, 2);
    assert(pow2(200) == 0x100000000000000000000000000000000000000000000000000int);
    lemma_pow_adds(5, 86, 1);
    assert(pow(5, 87) == 6462348535570528709932880406796584793482907116413116455078125int);
    lemma_pow2_adds(200, 3);
    assert(pow2(203) == 0x800000000000000000000000000000000000000000000000000int);
    lemma_pow_adds(5, 87, 1);
    assert(pow(5, 88) == 32311742677852643549664402033982923967414535582065582275390625int);
    lemma_pow2_adds(203, 2);
    assert(pow2(205) == 0x2000000000000000000000000000000000000000000000000000int);
    lemma_pow_adds(5, 88, 1);
    assert(pow(5, 89) == 161558713389263217748322010169914619837072677910327911376953125int);
    lemma_pow2_adds(205, 2);
    assert(pow2(207) == 0x8000000000000000000000000000000000000000000000000000int);
    lemma_pow_adds(5, 89, 1);
    assert(pow(5, 90) == 807793566946316088741610050849573099185363389551639556884765625int);
    lemma_pow2_adds(207, 2);
    assert(pow2(209) == 0x20000000000000000000000000000000000000000000000000000int);
    lemma_pow_adds(5, 90, 1);
    assert(pow(5, 91) == 4038967834731580443708050254247865495926816947758197784423828125int);
    lemma_pow2_adds(209, 3);
    assert(pow2(212) == 0x100000000000000000000000000000000000000000000000000000int);
    lemma_pow_adds(5, 91, 1);
    assert(pow(5, 92) == 20194839173657902218540251271239327479634084738790988922119140625int);
    lemma_pow2_adds(212, 2);
    assert(pow2(214) == 0x400000000000000000000000000000000000000000000000000000int);
    lemma_pow_adds(5, 92, 1);
    assert(pow(5, 93) == 100974195868289511092701256356196637398170423693954944610595703125int);
    lemma_pow2_adds(214, 2);
    assert(pow2(216) == 0x1000000000000000000000000000000000000000000000000000000int);
    lemma_pow_adds(5, 93, 1);
    assert(pow(5, 94) == 504870979341447555463506281780983186990852118469774723052978515625int);
    lemma_pow2_adds(216, 3);
    assert(pow2(219) == 0x8000000000000000000000000000000000000000000000000000000int);
    lemma_pow_adds(5, 94, 1);
    assert(pow(5, 95) == 2524354896707237777317531408904915934954260592348873615264892578125int);
    lemma_pow2_adds(219, 2);
    assert(pow2(221) == 0x20000000000000000000000000000000000000000000000000000000int);
    reveal(spec_pow5bits);
    if i == 80 {
        assert(spec_pow5bits(80) == 186);
        lemma_pow2_adds(186, 124);
        assert(wide(DOUBLE_POW5_INV_SPLIT[80]) == 25217283965692466695858585664091912836int);
        assert(wide(DOUBLE_POW5_SPLIT[80]) == 35873240686715317015647477332221852960int);
    } else if i == 81 {
        assert(spec_pow5bits(81) == 189);
        lemma_pow2_adds(189, 124);
        assert(wide(DOUBLE_POW5_INV_SPLIT[81]) == 40347654345107946713373737062547060537int);
        assert(wide(DOUBLE_POW5_SPLIT[81]) == 22420775429197073134779673332638658100int);
    } else if i == 82 {
        assert(spec_pow5bits(82) == 191);
        lemma_pow2_adds(191, 124);
        assert(wide(DOUBLE_POW5_INV_SPLIT[82]) == 32278123476086357370698989650037648430int);
        assert(wide(DOUBLE_POW5_SPLIT[82]) == 28025969286496341418474591665798322625int);
    } else if i == 83 {
        assert(spec_pow5bits(83) == 193);
        lemma_pow2_adds(193, 124);
        assert(wide(DOUBLE_POW5_INV_SPLIT[83]) == 25822498780869085896559191720030118744int);
        assert(wide(DOUBLE_POW5_SPLIT[83]) == 35032461608120426773093239582247903282int);
    } else if i == 84 {
        assert(spec_pow5bits(84) == 196);
        lemma_pow2_adds(196, 124);
        assert(wide(DOUBLE_POW5_INV_SPLIT[84]) == 41315998049390537434494706752048189990int);
        assert(wide(DOUBLE_POW5_SPLIT[84]) == 21895288505075266733183274738904939551int);
    } else if i == 85 {
        assert(spec_pow5bits(85) == 198);
        lemma_pow2_adds(198, 124);
        assert(wide(DOUBLE_POW5_INV_SPLIT[85]) == 33052798439512429947595765401638551992int);
        assert(wide(DOUBLE_POW5_SPLIT[85]) == 27369110631344083416479093423631174439int);
    } else if i == 86 {
        assert(spec_pow5bits(86) == 200);
        lemma_pow2_adds(200, 124);
        assert(wide(DOUBLE_POW5_INV_SPLIT[86]) == 26442238751609943958076612321310841594int);
        assert(wide(DOUBLE_POW5_SPLIT[86]) == 34211388289180104270598866779538968048int);
    } else if i == 87 {
        assert(spec_pow5bits(87) == 203);
        lemma_pow2_adds(203, 124);
        assert(wide(DOUBLE_POW5_INV_SPLIT[87]) == 42307582002575910332922579714097346550int);
        assert(wide(DOUBLE_POW5_SPLIT[87]) == 21382117680737565169124291737211855030int);
    } else if i == 88 {
        assert(spec_pow5bits(88) == 205);
        lemma_pow2_adds(205, 124);
        assert(wide(DOUBLE_POW5_INV_SPLIT[88]) == 33846065602060728266338063771277877240int);
        assert(wide(DOUBLE_POW5_SPLIT[88]) == 26727647100921956461405364671514818788int);
    } else if i == 89 {
        assert(spec_pow5bits(89) == 207);
        lemma_pow2_adds(207, 124);
        assert(wide(DOUBLE_POW5_INV_SPLIT[89]) == 27076852481648582613070451017022301792int);
        assert(wide(DOUBLE_POW5_SPLIT[89]) == 33409558876152445576756705839393523485int);
    } else if i == 90 {
        assert(spec_pow5bits(90) == 209);
        lemma_pow2_adds(209, 124);
        assert(wide(DOUBLE_POW5_INV_SPLIT[90]) == 21661481985318866090456360813617841434int);
        assert(wide(DOUBLE_POW5_SPLIT[90]) == 41761948595190556970945882299241904356int);
    } else if i == 91 {
        assert(spec_pow5bits(91) == 212);
        lemma_pow2_adds(212, 124);
        assert(wide(DOUBLE_POW5_INV_SPLIT[91]) == 34658371176510185744730177301788546293int);
        assert(wide(DOUBLE_POW5_SPLIT[91]) == 26101217871994098106841176437026190222int);
    } else if i == 92 {
        assert(spec_pow5bits(92) == 214);
        lemma_pow2_adds(214, 124);
        assert(wide(DOUBLE_POW5_INV_SPLIT[92]) == 27726696941208148595784141841430837035int);
        assert(wide(DOUBLE_POW5_SPLIT[92]) == 32626522339992622633551470546282737778int);
    } else if i == 93 {
        assert(spec_pow5bits(93) == 216);
        lemma_pow2_adds(216, 124);
        assert(wide(DOUBLE_POW5_INV_SPLIT[93]) == 22181357552966518876627313473144669628int);
        assert(wide(DOUBLE_POW5_SPLIT[93]) == 40783152924990778291939338182853422223int);
    } else if i == 94 {
        assert(spec_pow5bits(94) == 219);
        lemma_pow2_adds(219, 124);
        assert(wide(DOUBLE_POW5_INV_SPLIT[94]) == 35490172084746430202603701557031471404int);
        assert(wide(DOUBLE_POW5_SPLIT[94]) == 25489470578119236432462086364283388889int);
    } else if i == 95 {
        assert(spec_pow5bits(95) == 221);
        lemma_pow2_adds(221, 124);
        assert(wide(DOUBLE_POW5_INV_SPLIT[95]) == 28392137667797144162082961245625177124int);
        assert(wide(DOUBLE_POW5_SPLIT[95]) == 31861838222649045540577607955354236111int);
    }
}

proof fn lemma_entries_6(i: int)
    requires
        96 <= i < 112,
    ensures
        pow(5, 111) == 385185988877447170611195588516985463707620329643077639047987759113311767578125int,
        pow2(258) == 0x40000000000000000000000000000000000000000000000000000000000000000int,
        is_pow5_inv_entry(i as nat, wide(DOUBLE_POW5_INV_SPLIT[i])),
        i < 326 ==> is_pow5_entry(i as nat, wide(DOUBLE_POW5_SPLIT[i])),
{
    lemma2_to64();
    lemma2_to64_rest();
    lemma_pow1(5);
    lemma_pow2_adds(64, 60);
    lemma_pow2_adds(64, 61);
    assert(pow2(124) == 0x10000000000000000000000000000000int);
    assert(pow2(125) == 0x20000000000000000000000000000000int);
    lemma_entries_5(95);
    lemma_pow_adds(5, 95, 1);
    assert(pow(5, 96) == 12621774483536188886587657044524579674771302961744368076324462890625int);
    lemma_pow2_adds(221, 2);
    assert(pow2(223) == 0x80000000000000000000000000000000000000000000000000000000int);
    lemma_pow_adds(5, 96, 1);
    assert(pow(5, 97) == 63108872417680944432938285222622898373856514808721840381622314453125int);
    lemma_pow2_adds(223, 3);
    assert(pow2(226) == 0x400000000000000000000000000000000000000000000000000000000int);
    lemma_pow_adds(5, 97, 1);
    assert(pow(5, 98) == 315544362088404722164691426113114491869282574043609201908111572265625int);
    lemma_pow2_adds(226, 2);
    assert(pow2(228) == 0x1000000000000000000000000000000000000000000000000000000000int);
    lemma_pow_adds(5, 98, 1);
    assert(pow(5, 99) == 1577721810442023610823457130565572459346412870218046009540557861328125int);
    lemma_pow2_adds(228, 2);
    assert(pow2(230) == 0x4000000000000000000000000000000000000000000000000000000000int);
    lemma_pow_adds(5, 99, 1);
    assert(pow(5, 100) == 7888609052210118054117285652827862296732064351090230047702789306640625int);
    lemma_pow2_adds(230, 3);
    assert(pow2(233) == 0x20000000000000000000000000000000000000000000000000000000000int);
    lemma_pow_adds(5, 100, 1);
    assert(pow(5, 101) == 39443045261050590270586428264139311483660321755451150238513946533203125int);
    lemma_pow2_adds(233, 2);
    assert(pow2(235) == 0x80000000000000000000000000000000000000000000000000000000000int);
    lemma_pow_adds(5, 101, 1);
    assert(pow(5, 102) == 197215226305252951352932141320696557418301608777255751192569732666015625int);
    lemma_pow2_adds(235, 2);
    assert(pow2(237) == 0x200000000000000000000000000000000000000000000000000000000000int);
    lemma_pow_adds(5, 102, 1);
    assert(pow(5, 103) == 986076131526264756764660706603482787091508043886278755962848663330078125int);
    lemma_pow2_adds(237, 3);
    assert(pow2(240) == 0x1000000000000000000000000000000000000000000000000000000000000int);
    lemma_pow_adds(5, 103, 1);
    assert(pow(5, 104) == 4930380657631323783823303533017413935457540219431393779814243316650390625int);
    lemma_pow2_adds(240, 2);
    assert(pow2(242) == 0x4000000000000000000000000000000000000000000000000000000000000int);
    lemma_pow_adds(5, 104, 1);
    assert(pow(5, 105) == 24651903288156618919116517665087069677287701097156968899071216583251953125int);
    lemma_pow2_adds(242, 2);
    assert(pow2(244) == 0x10000000000000000000000000000000000000000000000000000000000000int);
    lemma_pow_adds(5, 105, 1);
    assert(pow(5, 106) == 123259516440783094595582588325435348386438505485784844495356082916259765625int);
    lemma_pow2_adds(244, 3);
    assert(pow2(247) == 0x80000000000000000000000000000000000000000000000000000000000000int);
    lemma_pow_adds(5, 106, 1);
    assert(pow(5, 107) == 616297582203915472977912941627176741932192527428924222476780414581298828125int);
    lemma_pow2_adds(247, 2);
    assert(pow2(249) == 0x200000000000000000000000000000000000000000000000000000000000000int);
    lemma_pow_adds(5, 107, 1);
    assert(pow(5, 108) == 3081487911019577364889564708135883709660962637144621112383902072906494140625int);
    lemma_pow2_adds(249, 2);
    assert(pow2(251) == 0x800000000000000000000000000000000000000000000000000000000000000int);
    lemma_pow_adds(5, 108, 1);
    assert(pow(5, 109) == 15407439555097886824447823540679418548304813185723105561919510364532470703125int);
    lemma_pow2_adds(251, 3);
    assert(pow2(254) == 0x4000000000000000000000000000000000000000000000000000000000000000int);
    lemma_pow_adds(5, 109, 1);
    assert(pow(5, 110) == 77037197775489434122239117703397092741524065928615527809597551822662353515625int);
    lemma_pow2_adds(254, 2);
    assert(pow2(256) == 0x10000000000000000000000000000000000000000000000000000000000000000int);
    lemma_pow_adds(5, 110, 1);
    assert(pow(5, 111) == 385185988877447170611195588516985463707620329643077639047987759113311767578125int);
    lemma_pow2_adds(256, 2);
    assert(pow2(258) == 0x40000000000000000000000000000000000000000000000000000000000000000int);
    reveal(spec_pow5bits);
    if i == 96 {
        assert(spec_pow5bits(96) == 223);
        lemma_pow2_adds(223, 124);
        assert(wide(DOUBLE_POW5_INV_SPLIT[96]) == 22713710134237715329666368996500141699int);
        assert(wide(DOUBLE_POW5_SPLIT[96]) == 39827297778311306925722009944192795139int);
    } else if i == 97 {
        assert(spec_pow5bits(97) == 226);
        lemma_pow2_adds(226, 124);
        assert(wide(DOUBLE_POW5_INV_SPLIT[97]) == 36341936214780344527466190394400226718int);
        assert(wide(DOUBLE_POW5_SPLIT[97]) == 24892061111444566828576256215120496962int);
    } else if i == 98 {
        assert(spec_pow5bits(98) == 228);
        lemma_pow2_adds(228, 124);
        assert(wide(DOUBLE_POW5_INV_SPLIT[98]) == 29073548971824275621972952315520181375int);
        assert(wide(DOUBLE_POW5_SPLIT[98]) == 31115076389305708535720320268900621202int);
    } else if i == 99 {
        assert(spec_pow5bits(99) == 230);
        lemma_pow2_adds(230, 124);
        assert(wide(DOUBLE_POW5_INV_SPLIT[99]) == 23258839177459420497578361852416145100int);
        assert(wide(DOUBLE_POW5_SPLIT[99]) == 38893845486632135669650400336125776503int);
    } else if i == 100 {
        assert(spec_pow5bits(100) == 233);
        lemma_pow2_adds(233, 124);
        assert(wide(DOUBLE_POW5_INV_SPLIT[100]) == 37214142683935072796125378963865832159int);
        assert(wide(DOUBLE_POW5_SPLIT[100]) == 24308653429145084793531500210078610314int);
    } else if i == 101 {
        assert(spec_pow5bits(101) == 235);
        lemma_pow2_adds(235, 124);
        assert(wide(DOUBLE_POW5_INV_SPLIT[101]) == 29771314147148058236900303171092665728int);
        assert(wide(DOUBLE_POW5_SPLIT[101]) == 30385816786431355991914375262598262893int);
    } else if i == 102 {
        assert(spec_pow5bits(102) == 237);
        lemma_pow2_adds(237, 124);
        assert(wide(DOUBLE_POW5_INV_SPLIT[102]) == 23817051317718446589520242536874132582int);
        assert(wide(DOUBLE_POW5_SPLIT[102]) == 37982270983039194989892969078247828616int);
    } else if i == 103 {
        assert(spec_pow5bits(103) == 240);
        lemma_pow2_adds(240, 124);
        assert(wide(DOUBLE_POW5_INV_SPLIT[103]) == 38107282108349514543232388058998612131int);
        assert(wide(DOUBLE_POW5_SPLIT[103]) == 23738919364399496868683105673904892885int);
    } else if i == 104 {
        assert(spec_pow5bits(104) == 242);
        lemma_pow2_adds(242, 124);
        assert(wide(DOUBLE_POW5_INV_SPLIT[104]) == 30485825686679611634585910447198889705int);
        assert(wide(DOUBLE_POW5_SPLIT[104]) == 29673649205499371085853882092381116106int);
    } else if i == 105 {
        assert(spec_pow5bits(105) == 244);
        lemma_pow2_adds(244, 124);
        assert(wide(DOUBLE_POW5_INV_SPLIT[105]) == 24388660549343689307668728357759111764int);
        assert(wide(DOUBLE_POW5_SPLIT[105]) == 37092061506874213857317352615476395133int);
    } else if i == 106 {
        assert(spec_pow5bits(106) == 247);
        lemma_pow2_adds(247, 124);
        assert(wide(DOUBLE_POW5_INV_SPLIT[106]) == 39021856878949902892269965372414578822int);
        assert(wide(DOUBLE_POW5_SPLIT[106]) == 23182538441796383660823345384672746958int);
    } else if i == 107 {
        assert(spec_pow5bits(107) == 249);
        lemma_pow2_adds(249, 124);
        assert(wide(DOUBLE_POW5_INV_SPLIT[107]) == 31217485503159922313815972297931663058int);
        assert(wide(DOUBLE_POW5_SPLIT[107]) == 28978173052245479576029181730840933698int);
    } else if i == 108 {
        assert(spec_pow5bits(108) == 251);
        lemma_pow2_adds(251, 124);
        assert(wide(DOUBLE_POW5_INV_SPLIT[108]) == 24973988402527937851052777838345330446int);
        assert(wide(DOUBLE_POW5_SPLIT[108]) == 36222716315306849470036477163551167122int);
    } else if i == 109 {
        assert(spec_pow5bits(109) == 254);
        lemma_pow2_adds(254, 124);
        assert(wide(DOUBLE_POW5_INV_SPLIT[109]) == 39958381444044700561684444541352528714int);
        assert(wide(DOUBLE_POW5_SPLIT[109]) == 22639197697066780918772798227219479451int);
    } else if i == 110 {
        assert(spec_pow5bits(110) == 256);
        lemma_pow2_adds(256, 124);
        assert(wide(DOUBLE_POW5_INV_SPLIT[110]) == 31966705155235760449347555633082022971int);
        assert(wide(DOUBLE_POW5_SPLIT[110]) == 28298997121333476148465997784024349314int);
    } else if i == 111 {
        assert(spec_pow5bits(111) == 258);
        lemma_pow2_adds(258, 124);
        assert(wide(DOUBLE_POW5_INV_SPLIT[111]) == 25573364124188608359478044506465618377int);
        assert(wide(DOUBLE_POW5_SPLIT[111]) == 35373746401666845185582497230030436643int);
    }
}

proof fn lemma_entries_7(i: int)
    requires
        112 <= i < 128,
    ensures
        pow(5, 127) == 58774717541114375398436826861112283890933277838604376075437585313920862972736358642578125int,
        pow2(295) == 0x80000000000000000000000000000000000000000000000000000000000000000000000000int,
        is_pow5_inv_entry(i as nat, wide(DOUBLE_POW5_INV_SPLIT[i])),
        i < 326 ==> is_pow5_entry(i as nat, wide(DOUBLE_POW5_SPLIT[i])),
{
    lemma2_to64();
    lemma2_to64_rest();
    lemma_pow1(5);
    lemma_pow2_adds(64, 60);
    lemma_pow2_adds(64, 61);
    assert(pow2(124) == 0x10000000000000000000000000000000int);
    assert(pow2(125) == 0x20000000000000000000000000000000int);
    lemma_entries_6(111);
    lemma_pow_adds(5, 111, 1);
    assert(pow(5, 112) == 1925929944387235853055977942584927318538101648215388195239938795566558837890625int);
    lemma_pow2_adds(258, 3);
    assert(pow2(261) == 0x200000000000000000000000000000000000000000000000000000000000000000int);
    lemma_pow_adds(5, 112, 1);
    assert(pow(5, 113) == 9629649721936179265279889712924636592690508241076940976199693977832794189453125int);
    lemma_pow2_adds(261, 2);
    assert(pow2(263) == 0x800000000000000000000000000000000000000000000000000000000000000000int);
    lemma_pow_adds(5, 113, 1);
    assert(pow(5, 114) == 48148248609680896326399448564623182963452541205384704880998469889163970947265625int);
    lemma_pow2_adds(263, 2);
    assert(pow2(265) == 0x2000000000000000000000000000000000000000000000000000000000000000000int);
    lemma_pow_adds(5, 114, 1);
    assert(pow(5, 115) == 240741243048404481631997242823115914817262706026923524404992349445819854736328125int);
    lemma_pow2_adds(265, 3);
    assert(pow2(268) == 0x10000000000000000000000000000000000000000000000000000000000000000000int);
    lemma_pow_adds(5, 115, 1);
    assert(pow(5, 116) == 1203706215242022408159986214115579574086313530134617622024961747229099273681640625int);
    lemma_pow2_adds(268, 2);
    assert(pow2(270) == 0x40000000000000000000000000000000000000000000000000000000000000000000int);
    lemma_pow_adds(5, 116, 1);
    assert(pow(5, 117) == 6018531076210112040799931070577897870431567650673088110124808736145496368408203125int);
    lemma_pow2_adds(270, 2);
    assert(pow2(272) == 0x100000000000000000000000000000000000000000000000000000000000000000000int);
    lemma_pow_adds(5, 117, 1);
    assert(pow(5, 118) == 30092655381050560203999655352889489352157838253365440550624043680727481842041015625int);
    lemma_pow2_adds(272, 2);
    assert(pow2(274) == 0x400000000000000000000000000000000000000000000000000000000000000000000int);
    lemma_pow_adds(5, 118, 1);
    assert(pow(5, 119) == 150463276905252801019998276764447446760789191266827202753120218403637409210205078125int);
    lemma_pow2_adds(274, 3);
    assert(pow2(277) == 0x2000000000000000000000000000000000000000000000000000000000000000000000int);
    lemma_pow_adds(5, 119, 1);
    assert(pow(5, 120) == 752316384526264005099991383822237233803945956334136013765601092018187046051025390625int);
    lemma_pow2_adds(277, 2);
    assert(pow2(279) == 0x8000000000000000000000000000000000000000000000000000000000000000000000int);
    lemma_pow_adds(5, 120, 1);
    assert(pow(5, 121) == 3761581922631320025499956919111186169019729781670680068828005460090935230255126953125int);
    lemma_pow2_adds(279, 2);
    assert(pow2(281) == 0x20000000000000000000000000000000000000000000000000000000000000000000000int);
    lemma_pow_adds(5, 121, 1);
    assert(pow(5, 122) == 18807909613156600127499784595555930845098648908353400344140027300454676151275634765625int);
    lemma_pow2_adds(281, 3);
    assert(pow2(284) == 0x100000000000000000000000000000000000000000000000000000000000000000000000int);
    lemma_pow_adds(5, 122, 1);
    assert(pow(5, 123) == 94039548065783000637498922977779654225493244541767001720700136502273380756378173828125int);
    lemma_pow2_adds(284, 2);
    assert(pow2(286) == 0x400000000000000000000000000000000000000000000000000000000000000000000000int);
    lemma_pow_adds(5, 123, 1);
    assert(pow(5, 124) == 470197740328915003187494614888898271127466222708835008603500682511366903781890869140625int);
    lemma_pow2_adds(286, 2);
    assert(pow2(288) == 0x1000000000000000000000000000000000000000000000000000000000000000000000000int);
    lemma_pow_adds(5, 124, 1);
    assert(pow(5, 125) == 2350988701644575015937473074444491355637331113544175043017503412556834518909454345703125int);
    lemma_pow2_adds(288, 3);
    assert(pow2(291) == 0x8000000000000000000000000000000000000000000000000000000000000000000000000int);
    lemma_pow_adds(5, 125, 1);
    assert(pow(5, 126) == 11754943508222875079687365372222456778186655567720875215087517062784172594547271728515625int);
    lemma_pow2_adds(291, 2);
    assert(pow2(293) == 0x20000000000000000000000000000000000000000000000000000000000000000000000000int);
    lemma_pow_adds(5, 126, 1);
    assert(pow(5, 127) == 58774717541114375398436826861112283890933277838604376075437585313920862972736358642578125int);
    lemma_pow2_adds(293, 2);
    assert(pow2(295) == 0x80000000000000000000000000000000000000000000000000000000000000000000000000int);
    reveal(spec_pow5bits);
    if i == 112 {
        assert(spec_pow5bits(112) == 261);
        lemma_pow2_adds(261, 124);
        assert(wide(DOUBLE_POW5_INV_SPLIT[112]) == 40917382598701773375164871210344989403int);
        assert(wide(DOUBLE_POW5_SPLIT[112]) == 22108591501041778240989060768769022902int);
    } else if i == 113 {
        assert(spec_pow5bits(113) == 263);
        lemma_pow2_adds(263, 124);
        assert(wide(DOUBLE_POW5_INV_SPLIT[113]) == 32733906078961418700131896968275991523int);
        assert(wide(DOUBLE_POW5_SPLIT[113]) == 27635739376302222801236325960961278627int);
    } else if i == 114 {
        assert(spec_pow5bits(114) == 265);
        lemma_pow2_adds(265, 124);
        assert(wide(DOUBLE_POW5_INV_SPLIT[114]) == 26187124863169134960105517574620793218int);
        assert(wide(DOUBLE_POW5_SPLIT[114]) == 34544674220377778501545407451201598284int);
    } else if i == 115 {
        assert(spec_pow5bits(115) == 268);
        lemma_pow2_adds(268, 124);
        assert(wide(DOUBLE_POW5_INV_SPLIT[115]) == 41899399781070615936168828119393269149int);
        assert(wide(DOUBLE_POW5_SPLIT[115]) == 21590421387736111563465879657000998927int);
    } else if i == 116 {
        assert(spec_pow5bits(116) == 270);
        lemma_pow2_adds(270, 124);
        assert(wide(DOUBLE_POW5_INV_SPLIT[116]) == 33519519824856492748935062495514615319int);
        assert(wide(DOUBLE_POW5_SPLIT[116]) == 26988026734670139454332349571251248659int);
    } else if i == 117 {
        assert(spec_pow5bits(117) == 272);
        lemma_pow2_adds(272, 124);
        assert(wide(DOUBLE_POW5_INV_SPLIT[117]) == 26815615859885194199148049996411692255int);
        assert(wide(DOUBLE_POW5_SPLIT[117]) == 33735033418337674317915436964064060824int);
    } else if i == 118 {
        assert(spec_pow5bits(118) == 274);
        lemma_pow2_adds(274, 124);
        assert(wide(DOUBLE_POW5_INV_SPLIT[118]) == 21452492687908155359318439997129353804int);
        assert(wide(DOUBLE_POW5_SPLIT[118]) == 42168791772922092897394296205080076030int);
    } else if i == 119 {
        assert(spec_pow5bits(119) == 277);
        lemma_pow2_adds(277, 124);
        assert(wide(DOUBLE_POW5_INV_SPLIT[119]) == 34323988300653048574909503995406966087int);
        assert(wide(DOUBLE_POW5_SPLIT[119]) == 26355494858076308060871435128175047519int);
    } else if i == 120 {
        assert(spec_pow5bits(120) == 279);
        lemma_pow2_adds(279, 124);
        assert(wide(DOUBLE_POW5_INV_SPLIT[120]) == 27459190640522438859927603196325572870int);
        assert(wide(DOUBLE_POW5_SPLIT[120]) == 32944368572595385076089293910218809399int);
    } else if i == 121 {
        assert(spec_pow5bits(121) == 281);
        lemma_pow2_adds(281, 124);
        assert(wide(DOUBLE_POW5_INV_SPLIT[121]) == 21967352512417951087942082557060458296int);
        assert(wide(DOUBLE_POW5_SPLIT[121]) == 41180460715744231345111617387773511748int);
    } else if i == 122 {
        assert(spec_pow5bits(122) == 284);
        lemma_pow2_adds(284, 124);
        assert(wide(DOUBLE_POW5_INV_SPLIT[122]) == 35147764019868721740707332091296733273int);
        assert(wide(DOUBLE_POW5_SPLIT[122]) == 25737787947340144590694760867358444843int);
    } else if i == 123 {
        assert(spec_pow5bits(123) == 286);
        lemma_pow2_adds(286, 124);
        assert(wide(DOUBLE_POW5_INV_SPLIT[123]) == 28118211215894977392565865673037386618int);
        assert(wide(DOUBLE_POW5_SPLIT[123]) == 32172234934175180738368451084198056053int);
    } else if i == 124 {
        assert(spec_pow5bits(124) == 288);
        lemma_pow2_adds(288, 124);
        assert(wide(DOUBLE_POW5_INV_SPLIT[124]) == 22494568972715981914052692538429909295int);
        assert(wide(DOUBLE_POW5_SPLIT[124]) == 40215293667718975922960563855247570067int);
    } else if i == 125 {
        assert(spec_pow5bits(125) == 291);
        lemma_pow2_adds(291, 124);
        assert(wide(DOUBLE_POW5_INV_SPLIT[125]) == 35991310356345571062484308061487854871int);
        assert(wide(DOUBLE_POW5_SPLIT[125]) == 25134558542324359951850352409529731292int);
    } else if i == 126 {
        assert(spec_pow5bits(126) == 293);
        lemma_pow2_adds(293, 124);
        assert(wide(DOUBLE_POW5_INV_SPLIT[126]) == 28793048285076456849987446449190283897int);
        assert(wide(DOUBLE_POW5_SPLIT[126]) == 31418198177905449939812940511912164115int);
    } else if i == 127 {
        assert(spec_pow5bits(127) == 295);
        lemma_pow2_adds(295, 124);
        assert(wide(DOUBLE_POW5_INV_SPLIT[127]) == 23034438628061165479989957159352227118int);
        assert(wide(DOUBLE_POW5_SPLIT[127]) == 39272747722381812424766175639890205143int);
    }
}

proof fn lemma_entries_8(i: int)
    requires
        128 <= i < 144,
    ensures
        pow(5, 143) == 8968310171678829253911869333055463240193676428009700939245237016894662929189507849514484405517578125int,
        pow2(333) == 0x200000000000000000000000000000000000000000000000000000000000000000000000000000000000int,
        is_pow5_inv_entry(i as nat, wide(DOUBLE_POW5_INV_SPLIT[i])),
        i < 326 ==> is_pow5_entry(i as nat, wide(DOUBLE_POW5_SPLIT[i])),
{
    lemma2_to64();
    lemma2_to64_rest();
    lemma_pow1(5);
    lemma_pow2_adds(64, 60);
    lemma_pow2_adds(64, 61);
    assert(pow2(124) == 0x10000000000000000000000000000000int);
    assert(pow2(125) == 0x20000000000000000000000000000000int);
    lemma_entries_7(127);
    lemma_pow_adds(5, 127, 1);
    assert(pow(5, 128) == 293873587705571876992184134305561419454666389193021880377187926569604314863681793212890625int);
    lemma_pow2_adds(295, 3);
    assert(pow2(298) == 0x400000000000000000000000000000000000000000000000000000000000000000000000000int);
    lemma_pow_adds(5, 128, 1);
    assert(pow(5, 129) == 1469367938527859384960920671527807097273331945965109401885939632848021574318408966064453125int);
    lemma_pow2_adds(298, 2);
    assert(pow2(300) == 0x1000000000000000000000000000000000000000000000000000000000000000000000000000int);
    lemma_pow_adds(5, 129, 1);
    assert(pow(5, 130) == 7346839692639296924804603357639035486366659729825547009429698164240107871592044830322265625int);
    lemma_pow2_adds(300, 2);
    assert(pow2(302) == 0x4000000000000000000000000000000000000000000000000000000000000000000000000000int);
    lemma_pow_adds(5, 130, 1);
    assert(pow(5, 131) == 36734198463196484624023016788195177431833298649127735047148490821200539357960224151611328125int);
    lemma_pow2_adds(302, 3);
    assert(pow2(305) == 0x20000000000000000000000000000000000000000000000000000000000000000000000000000int);
    lemma_pow_adds(5, 131, 1);
    assert(pow(5, 132) == 183670992315982423120115083940975887159166493245638675235742454106002696789801120758056640625int);
    lemma_pow2_adds(305, 2);
    assert(pow2(307) == 0x80000000000000000000000000000000000000000000000000000000000000000000000000000int);
    lemma_pow_adds(5, 132, 1);
    assert(pow(5, 133) == 918354961579912115600575419704879435795832466228193376178712270530013483949005603790283203125int);
    lemma_pow2_adds(307, 2);
    assert(pow2(309) == 0x200000000000000000000000000000000000000000000000000000000000000000000000000000int);
    lemma_pow_adds(5, 133, 1);
    assert(pow(5, 134) == 4591774807899560578002877098524397178979162331140966880893561352650067419745028018951416015625int);
    lemma_pow2_adds(309, 3);
    assert(pow2(312) == 0x1000000000000000000000000000000000000000000000000000000000000000000000000000000int);
    lemma_pow_adds(5, 134, 1);
    assert(pow(5, 135) == 22958874039497802890014385492621985894895811655704834404467806763250337098725140094757080078125int);
    lemma_pow2_adds(312, 2);
    assert(pow2(314) == 0x4000000000000000000000000000000000000000000000000000000000000000000000000000000int);
    lemma_pow_adds(5, 135, 1);
    assert(pow(5, 136) == 114794370197489014450071927463109929474479058278524172022339033816251685493625700473785400390625int);
    lemma_pow2_adds(314, 2);
    assert(pow2(316) == 0x10000000000000000000000000000000000000000000000000000000000000000000000000000000int);
    lemma_pow_adds(5, 136, 1);
    assert(pow(5, 137) == 573971850987445072250359637315549647372395291392620860111695169081258427468128502368927001953125int);
    lemma_pow2_adds(316, 3);
    assert(pow2(319) == 0x80000000000000000000000000000000000000000000000000000000000000000000000000000000int);
    lemma_pow_adds(5, 137, 1);
    assert(pow(5, 138) == 2869859254937225361251798186577748236861976456963104300558475845406292137340642511844635009765625int);
    lemma_pow2_adds(319, 2);
    assert(pow2(321) == 0x200000000000000000000000000000000000000000000000000000000000000000000000000000000int);
    lemma_pow_adds(5, 138, 1);
    assert(pow(5, 139) == 14349296274686126806258990932888741184309882284815521502792379227031460686703212559223175048828125int);
    lemma_pow2_adds(321, 2);
    assert(pow2(323) == 0x800000000000000000000000000000000000000000000000000000000000000000000000000000000int);
    lemma_pow_adds(5, 139, 1);
    assert(pow(5, 140) == 71746481373430634031294954664443705921549411424077607513961896135157303433516062796115875244140625int);
    lemma_pow2_adds(323, 3);
    assert(pow2(326) == 0x4000000000000000000000000000000000000000000000000000000000000000000000000000000000int);
    lemma_pow_adds(5, 140, 1);
    assert(pow(5, 141) == 358732406867153170156474773322218529607747057120388037569809480675786517167580313980579376220703125int);
    lemma_pow2_adds(326, 2);
    assert(pow2(328) == 0x10000000000000000000000000000000000000000000000000000000000000000000000000000000000int);
    lemma_pow_adds(5, 141, 1);
    assert(pow(5, 142) == 1793662034335765850782373866611092648038735285601940187849047403378932585837901569902896881103515625int);
    lemma_pow2_adds(328, 2);
    assert(pow2(330) == 0x40000000000000000000000000000000000000000000000000000000000000000000000000000000000int);
    lemma_pow_adds(5, 142, 1);
    assert(pow(5, 143) == 8968310171678829253911869333055463240193676428009700939245237016894662929189507849514484405517578125int);
    lemma_pow2_adds(330, 3);
    assert(pow2(333) == 0x200000000000000000000000000000000000000000000000000000000000000000000000000000000000int);
    reveal(spec_pow5bits);
    if i == 128 {
        assert(spec_pow5bits(128) == 298);
        lemma_pow2_adds(298, 124);
        assert(wide(DOUBLE_POW5_INV_SPLIT[128]) == 36855101804897864767983931454963563388int);
        assert(wide(DOUBLE_POW5_SPLIT[128]) == 24545467326488632765478859774931378214int);
    } else if i == 129 {
        assert(spec_pow5bits(129) == 300);
        lemma_pow2_adds(300, 124);
        assert(wide(DOUBLE_POW5_INV_SPLIT[129]) == 29484081443918291814387145163970850711int);
        assert(wide(DOUBLE_POW5_SPLIT[129]) == 30681834158110790956848574718664222768int);
    } else if i == 130 {
        assert(spec_pow5bits(130) == 302);
        lemma_pow2_adds(302, 124);
        assert(wide(DOUBLE_POW5_INV_SPLIT[130]) == 23587265155134633451509716131176680569int);
        assert(wide(DOUBLE_POW5_SPLIT[130]) == 38352292697638488696060718398330278460int);
    } else if i == 131 {
        assert(spec_pow5bits(131) == 305);
        lemma_pow2_adds(305, 124);
        assert(wide(DOUBLE_POW5_INV_SPLIT[131]) == 37739624248215413522415545809882688910int);
        assert(wide(DOUBLE_POW5_SPLIT[131]) == 23970182936024055435037948998956424037int);
    } else if i == 132 {
        assert(spec_pow5bits(132) == 307);
        lemma_pow2_adds(307, 124);
        assert(wide(DOUBLE_POW5_INV_SPLIT[132]) == 30191699398572330817932436647906151128int);
        assert(wide(DOUBLE_POW5_SPLIT[132]) == 29962728670030069293797436248695530047int);
    } else if i == 133 {
        assert(spec_pow5bits(133) == 309);
        lemma_pow2_adds(309, 124);
        assert(wide(DOUBLE_POW5_INV_SPLIT[133]) == 24153359518857864654345949318324920902int);
        assert(wide(DOUBLE_POW5_SPLIT[133]) == 37453410837537586617246795310869412559int);
    } else if i == 134 {
        assert(spec_pow5bits(134) == 312);
        lemma_pow2_adds(312, 124);
        assert(wide(DOUBLE_POW5_INV_SPLIT[134]) == 38645375230172583446953518909319873443int);
        assert(wide(DOUBLE_POW5_SPLIT[134]) == 23408381773460991635779247069293382849int);
    } else if i == 135 {
        assert(spec_pow5bits(135) == 314);
        lemma_pow2_adds(314, 124);
        assert(wide(DOUBLE_POW5_INV_SPLIT[135]) == 30916300184138066757562815127455898755int);
        assert(wide(DOUBLE_POW5_SPLIT[135]) == 29260477216826239544724058836616728561int);
    } else if i == 136 {
        assert(spec_pow5bits(136) == 316);
        lemma_pow2_adds(316, 124);
        assert(wide(DOUBLE_POW5_INV_SPLIT[136]) == 24733040147310453406050252101964719004int);
        assert(wide(DOUBLE_POW5_SPLIT[136]) == 36575596521032799430905073545770910702int);
    } else if i == 137 {
        assert(spec_pow5bits(137) == 319);
        lemma_pow2_adds(319, 124);
        assert(wide(DOUBLE_POW5_INV_SPLIT[137]) == 39572864235696725449680403363143550406int);
        assert(wide(DOUBLE_POW5_SPLIT[137]) == 22859747825645499644315670966106819189int);
    } else if i == 138 {
        assert(spec_pow5bits(138) == 321);
        lemma_pow2_adds(321, 124);
        assert(wide(DOUBLE_POW5_INV_SPLIT[138]) == 31658291388557380359744322690514840325int);
        assert(wide(DOUBLE_POW5_SPLIT[138]) == 28574684782056874555394588707633523986int);
    } else if i == 139 {
        assert(spec_pow5bits(139) == 323);
        lemma_pow2_adds(323, 124);
        assert(wide(DOUBLE_POW5_INV_SPLIT[139]) == 25326633110845904287795458152411872260int);
        assert(wide(DOUBLE_POW5_SPLIT[139]) == 35718355977571093194243235884541904982int);
    } else if i == 140 {
        assert(spec_pow5bits(140) == 326);
        lemma_pow2_adds(326, 124);
        assert(wide(DOUBLE_POW5_INV_SPLIT[140]) == 40522612977353446860472733043858995616int);
        assert(wide(DOUBLE_POW5_SPLIT[140]) == 22323972485981933246402022427838690614int);
    } else if i == 141 {
        assert(spec_pow5bits(141) == 328);
        lemma_pow2_adds(328, 124);
        assert(wide(DOUBLE_POW5_INV_SPLIT[141]) == 32418090381882757488378186435087196493int);
        assert(wide(DOUBLE_POW5_SPLIT[141]) == 27904965607477416558002528034798363267int);
    } else if i == 142 {
        assert(spec_pow5bits(142) == 330);
        lemma_pow2_adds(330, 124);
        assert(wide(DOUBLE_POW5_INV_SPLIT[142]) == 25934472305506205990702549148069757194int);
        assert(wide(DOUBLE_POW5_SPLIT[142]) == 34881207009346770697503160043497954084int);
    } else if i == 143 {
        assert(spec_pow5bits(143) == 333);
        lemma_pow2_adds(333, 124);
        assert(wide(DOUBLE_POW5_INV_SPLIT[143]) == 41495155688809929585124078636911611511int);
        assert(wide(DOUBLE_POW5_SPLIT[143]) == 21800754380841731685939475027186221303int);
    }
}

proof fn lemma_entries_9(i: int)
    requires
        144 <= i < 160,
    ensures
        pow(5, 159) == 1368455531567204170823954671181558721953380802613784933356511995986124104185410743639295105822384357452392578125int,
        pow2(370) == 0x400000000000000000000000000000000000000000000000000000000000000000000000000000000000000000000int,
        is_pow5_inv_entry(i as nat, wide(DOUBLE_POW5_INV_SPLIT[i])),
        i < 326 ==> is_pow5_entry(i as nat, wide(DOUBLE_POW5_SPLIT[i])),
{
    lemma2_to64();
    lemma2_to64_rest();
    lemma_pow1(5);
    lemma_pow2_adds(64, 60);
    lemma_pow2_adds(64, 61);
    assert(pow2(124) == 0x10000000000000000000000000000000int);
    assert(pow2(125) == 0x20000000000000000000000000000000int);
    lemma_entries_8(143);
    lemma_pow_adds(5, 143, 1);
    assert(pow(5, 144) == 44841550858394146269559346665277316200968382140048504696226185084473314645947539247572422027587890625int);
    lemma_pow2_adds(333, 2);
    assert(pow2(335) == 0x800000000000000000000000000000000000000000000000000000000000000000000000000000000000int);
    lemma_pow_adds(5, 144, 1);
    assert(pow(5, 145) == 224207754291970731347796733326386581004841910700242523481130925422366573229737696237862110137939453125int);
    lemma_pow2_adds(335, 2);
    assert(pow2(337) == 0x2000000000000000000000000000000000000000000000000000000000000000000000000000000000000int);
    lemma_pow_adds(5, 145, 1);
    assert(pow(5, 146) == 1121038771459853656738983666631932905024209553501212617405654627111832866148688481189310550689697265625int);
    lemma_pow2_adds(337, 3);
    assert(pow2(340) == 0x10000000000000000000000000000000000000000000000000000000000000000000000000000000000000int);
    lemma_pow_adds(5, 146, 1);
    assert(pow(5, 147) == 5605193857299268283694918333159664525121047767506063087028273135559164330743442405946552753448486328125int);
    lemma_pow2_adds(340, 2);
    assert(pow2(342) == 0x40000000000000000000000000000000000000000000000000000000000000000000000000000000000000int);
    lemma_pow_adds(5, 147, 1);
    assert(pow(5, 148) == 28025969286496341418474591665798322625605238837530315435141365677795821653717212029732763767242431640625int);
    lemma_pow2_adds(342, 2);
    assert(pow2(344) == 0x100000000000000000000000000000000000000000000000000000000000000000000000000000000000000int);
    lemma_pow_adds(5, 148, 1);
    assert(pow(5, 149) == 140129846432481707092372958328991613128026194187651577175706828388979108268586060148663818836212158203125int);
    lemma_pow2_adds(344, 2);
    assert(pow2(346) == 0x400000000000000000000000000000000000000000000000000000000000000000000000000000000000000int);
    lemma_pow_adds(5, 149, 1);
    assert(pow(5, 150) == 700649232162408535461864791644958065640130970938257885878534141944895541342930300743319094181060791015625int);
    lemma_pow2_adds(346, 3);
    assert(pow2(349) == 0x2000000000000000000000000000000000000000000000000000000000000000000000000000000000000000int);
    lemma_pow_adds(5, 150, 1);
    assert(pow(5, 151) == 3503246160812042677309323958224790328200654854691289429392670709724477706714651503716595470905303955078125int);
    lemma_pow2_adds(349, 2);
    assert(pow2(351) == 0x8000000000000000000000000000000000000000000000000000000000000000000000000000000000000000int);
    lemma_pow_adds(5, 151, 1);
    assert(pow(5, 152) == 17516230804060213386546619791123951641003274273456447146963353548622388533573257518582977354526519775390625int);
    lemma_pow2_adds(351, 2);
    assert(pow2(353) == 0x20000000000000000000000000000000000000000000000000000000000000000000000000000000000000000int);
    lemma_pow_adds(5, 152, 1);
    assert(pow(5, 153) == 87581154020301066932733098955619758205016371367282235734816767743111942667866287592914886772632598876953125int);
    lemma_pow2_adds(353, 3);
    assert(pow2(356) == 0x100000000000000000000000000000000000000000000000000000000000000000000000000000000000000000int);
    lemma_pow_adds(5, 153, 1);
    assert(pow(5, 154) == 437905770101505334663665494778098791025081856836411178674083838715559713339331437964574433863162994384765625int);
    lemma_pow2_adds(356, 2);
    assert(pow2(358) == 0x400000000000000000000000000000000000000000000000000000000000000000000000000000000000000000int);
    lemma_pow_adds(5, 154, 1);
    assert(pow(5, 155) == 2189528850507526673318327473890493955125409284182055893370419193577798566696657189822872169315814971923828125int);
    lemma_pow2_adds(358, 2);
    assert(pow2(360) == 0x1000000000000000000000000000000000000000000000000000000000000000000000000000000000000000000int);
    lemma_pow_adds(5, 155, 1);
    assert(pow(5, 156) == 10947644252537633366591637369452469775627046420910279466852095967888992833483285949114360846579074859619140625int);
    lemma_pow2_adds(360, 3);
    assert(pow2(363) == 0x8000000000000000000000000000000000000000000000000000000000000000000000000000000000000000000int);
    lemma_pow_adds(5, 156, 1);
    assert(pow(5, 157) == 54738221262688166832958186847262348878135232104551397334260479839444964167416429745571804232895374298095703125int);
    lemma_pow2_adds(363, 2);
    assert(pow2(365) == 0x20000000000000000000000000000000000000000000000000000000000000000000000000000000000000000000int);
    lemma_pow_adds(5, 157, 1);
    assert(pow(5, 158) == 273691106313440834164790934236311744390676160522756986671302399197224820837082148727859021164476871490478515625int);
    lemma_pow2_adds(365, 2);
    assert(pow2(367) == 0x80000000000000000000000000000000000000000000000000000000000000000000000000000000000000000000int);
    lemma_pow_adds(5, 158, 1);
    assert(pow(5, 159) == 1368455531567204170823954671181558721953380802613784933356511995986124104185410743639295105822384357452392578125int);
    lemma_pow2_adds(367, 3);
    assert(pow2(370) == 0x400000000000000000000000000000000000000000000000000000000000000000000000000000000000000000000int);
    reveal(spec_pow5bits);
    if i == 144 {
        assert(spec_pow5bits(144) == 335);
        lemma_pow2_adds(335, 124);
        assert(wide(DOUBLE_POW5_INV_SPLIT[144]) == 33196124551047943668099262909529289209int);
        assert(wide(DOUBLE_POW5_SPLIT[144]) == 27250942976052164607424343783982776628int);
    } else if i == 145 {
        assert(spec_pow5bits(145) == 337);
        lemma_pow2_adds(337, 124);
        assert(wide(DOUBLE_POW5_INV_SPLIT[145]) == 26556899640838354934479410327623431367int);
        assert(wide(DOUBLE_POW5_SPLIT[145]) == 34063678720065205759280429729978470785int);
    } else if i == 146 {
        assert(spec_pow5bits(146) == 340);
        lemma_pow2_adds(340, 124);
        assert(wide(DOUBLE_POW5_INV_SPLIT[146]) == 42491039425341367895167056524197490187int);
        assert(wide(DOUBLE_POW5_SPLIT[146]) == 21289799200040753599550268581236544241int);
    } else if i == 147 {
        assert(spec_pow5bits(147) == 342);
        lemma_pow2_adds(342, 124);
        assert(wide(DOUBLE_POW5_INV_SPLIT[147]) == 33992831540273094316133645219357992150int);
        assert(wide(DOUBLE_POW5_SPLIT[147]) == 26612249000050941999437835726545680301int);
    } else if i == 148 {
        assert(spec_pow5bits(148) == 344);
        lemma_pow2_adds(344, 124);
        assert(wide(DOUBLE_POW5_INV_SPLIT[148]) == 27194265232218475452906916175486393720int);
        assert(wide(DOUBLE_POW5_SPLIT[148]) == 33265311250063677499297294658182100376int);
    } else if i == 149 {
        assert(spec_pow5bits(149) == 346);
        lemma_pow2_adds(346, 124);
        assert(wide(DOUBLE_POW5_INV_SPLIT[149]) == 21755412185774780362325532940389114976int);
        assert(wide(DOUBLE_POW5_SPLIT[149]) == 41581639062579596874121618322727625471int);
    } else if i == 150 {
        assert(spec_pow5bits(150) == 349);
        lemma_pow2_adds(349, 124);
        assert(wide(DOUBLE_POW5_INV_SPLIT[150]) == 34808659497239648579720852704622583961int);
        assert(wide(DOUBLE_POW5_SPLIT[150]) == 25988524414112248046326011451704765919int);
    } else if i == 151 {
        assert(spec_pow5bits(151) == 351);
        lemma_pow2_adds(351, 124);
        assert(wide(DOUBLE_POW5_INV_SPLIT[151]) == 27846927597791718863776682163698067169int);
        assert(wide(DOUBLE_POW5_SPLIT[151]) == 32485655517640310057907514314630957399int);
    } else if i == 152 {
        assert(spec_pow5bits(152) == 353);
        lemma_pow2_adds(353, 124);
        assert(wide(DOUBLE_POW5_INV_SPLIT[152]) == 22277542078233375091021345730958453735int);
        assert(wide(DOUBLE_POW5_SPLIT[152]) == 40607069397050387572384392893288696749int);
    } else if i == 153 {
        assert(spec_pow5bits(153) == 356);
        lemma_pow2_adds(356, 124);
        assert(wide(DOUBLE_POW5_INV_SPLIT[153]) == 35644067325173400145634153169533525976int);
        assert(wide(DOUBLE_POW5_SPLIT[153]) == 25379418373156492232740245558305435468int);
    } else if i == 154 {
        assert(spec_pow5bits(154) == 358);
        lemma_pow2_adds(358, 124);
        assert(wide(DOUBLE_POW5_INV_SPLIT[154]) == 28515253860138720116507322535626820781int);
        assert(wide(DOUBLE_POW5_SPLIT[154]) == 31724272966445615290925306947881794335int);
    } else if i == 155 {
        assert(spec_pow5bits(155) == 360);
        lemma_pow2_adds(360, 124);
        assert(wide(DOUBLE_POW5_INV_SPLIT[155]) == 22812203088110976093205858028501456625int);
        assert(wide(DOUBLE_POW5_SPLIT[155]) == 39655341208057019113656633684852242919int);
    } else if i == 156 {
        assert(spec_pow5bits(156) == 363);
        lemma_pow2_adds(363, 124);
        assert(wide(DOUBLE_POW5_INV_SPLIT[156]) == 36499524940977561749129372845602330600int);
        assert(wide(DOUBLE_POW5_SPLIT[156]) == 24784588255035636946035396053032651824int);
    } else if i == 157 {
        assert(spec_pow5bits(157) == 365);
        lemma_pow2_adds(365, 124);
        assert(wide(DOUBLE_POW5_INV_SPLIT[157]) == 29199619952782049399303498276481864480int);
        assert(wide(DOUBLE_POW5_SPLIT[157]) == 30980735318794546182544245066290814780int);
    } else if i == 158 {
        assert(spec_pow5bits(158) == 367);
        lemma_pow2_adds(367, 124);
        assert(wide(DOUBLE_POW5_INV_SPLIT[158]) == 23359695962225639519442798621185491584int);
        assert(wide(DOUBLE_POW5_SPLIT[158]) == 38725919148493182728180306332863518475int);
    } else if i == 159 {
        assert(spec_pow5bits(159) == 370);
        lemma_pow2_adds(370, 124);
        assert(wide(DOUBLE_POW5_INV_SPLIT[159]) == 37375513539561023231108477793896786534int);
        assert(wide(DOUBLE_POW5_SPLIT[159]) == 24203699467808239205112691458039699047int);
    }
}

proof fn lemma_entries_10(i: int)
    requires
        160 <= i < 176,
    ensures
        pow(5, 175) == 208809742975952784854729411496209521782437256258206929528276366575031143827119559271132676059323785011656582355499267578125int,
        pow2(407) == 0x800000000000000000000000000000000000000000000000000000000000000000000000000000000000000000000000000000int,
        is_pow5_inv_entry(i as nat, wide(DOUBLE_POW5_INV_SPLIT[i])),
        i < 326 ==> is_pow5_entry(i as nat, wide(DOUBLE_POW5_SPLIT[i])),
{
    lemma2_to64();
    lemma2_to64_rest();
    lemma_pow1(5);
    lemma_pow2_adds(64, 60);
    lemma_pow2_adds(64, 61);
    assert(pow2(124) == 0x10000000000000000000000000000000int);
    assert(pow2(125) == 0x20000000000000000000000000000000int);
    lemma_entries_9(159);
    lemma_pow_adds(5, 159, 1);
    assert(pow(5, 160) == 6842277657836020854119773355907793609766904013068924666782559979930620520927053718196475529111921787261962890625int);
    lemma_pow2_adds(370, 2);
    assert(pow2(372) == 0x1000000000000000000000000000000000000000000000000000000000000000000000000000000000000000000000int);
    lemma_pow_adds(5, 160, 1);
    assert(pow(5, 161) == 34211388289180104270598866779538968048834520065344623333912799899653102604635268590982377645559608936309814453125int);
    lemma_pow2_adds(372, 2);
    assert(pow2(374) == 0x4000000000000000000000000000000000000000000000000000000000000000000000000000000000000000000000int);
    lemma_pow_adds(5, 161, 1);
    assert(pow(5, 162) == 171056941445900521352994333897694840244172600326723116669563999498265513023176342954911888227798044681549072265625int);
    lemma_pow2_adds(374, 3);
    assert(pow2(377) == 0x20000000000000000000000000000000000000000000000000000000000000000000000000000000000000000000000int);
    lemma_pow_adds(5, 162, 1);
    assert(pow(5, 163) == 855284707229502606764971669488474201220863001633615583347819997491327565115881714774559441138990223407745361328125int);
    lemma_pow2_adds(377, 2);
    assert(pow2(379) == 0x80000000000000000000000000000000000000000000000000000000000000000000000000000000000000000000000int);
    lemma_pow_adds(5, 163, 1);
    assert(pow(5, 164) == 4276423536147513033824858347442371006104315008168077916739099987456637825579408573872797205694951117038726806640625int);
    lemma_pow2_adds(379, 2);
    assert(pow2(381) == 0x200000000000000000000000000000000000000000000000000000000000000000000000000000000000000000000000int);
    lemma_pow_adds(5, 164, 1);
    assert(pow(5, 165) == 21382117680737565169124291737211855030521575040840389583695499937283189127897042869363986028474755585193634033203125int);
    lemma_pow2_adds(381, 3);
    assert(pow2(384) == 0x1000000000000000000000000000000000000000000000000000000000000000000000000000000000000000000000000int);
    lemma_pow_adds(5, 165, 1);
    assert(pow(5, 166) == 106910588403687825845621458686059275152607875204201947918477499686415945639485214346819930142373777925968170166015625int);
    lemma_pow2_adds(384, 2);
    assert(pow2(386) == 0x4000000000000000000000000000000000000000000000000000000000000000000000000000000000000000000000000int);
    lemma_pow_adds(5, 166, 1);
    assert(pow(5, 167) == 534552942018439129228107293430296375763039376021009739592387498432079728197426071734099650711868889629840850830078125int);
    lemma_pow2_adds(386, 2);
    assert(pow2(388) == 0x10000000000000000000000000000000000000000000000000000000000000000000000000000000000000000000000000int);
    lemma_pow_adds(5, 167, 1);
    assert(pow(5, 168) == 2672764710092195646140536467151481878815196880105048697961937492160398640987130358670498253559344448149204254150390625int);
    lemma_pow2_adds(388, 3);
    assert(pow2(391) == 0x80000000000000000000000000000000000000000000000000000000000000000000000000000000000000000000000000int);
    lemma_pow_adds(5, 168, 1);
    assert(pow(5, 169) == 13363823550460978230702682335757409394075984400525243489809687460801993204935651793352491267796722240746021270751953125int);
    lemma_pow2_adds(391, 2);
    assert(pow2(393) == 0x200000000000000000000000000000000000000000000000000000000000000000000000000000000000000000000000000int);
    lemma_pow_adds(5, 169, 1);
    assert(pow(5, 170) == 66819117752304891153513411678787046970379922002626217449048437304009966024678258966762456338983611203730106353759765625int);
    lemma_pow2_adds(393, 2);
    assert(pow2(395) == 0x800000000000000000000000000000000000000000000000000000000000000000000000000000000000000000000000000int);
    lemma_pow_adds(5, 170, 1);
    assert(pow(5, 171) == 334095588761524455767567058393935234851899610013131087245242186520049830123391294833812281694918056018650531768798828125int);
    lemma_pow2_adds(395, 3);
    assert(pow2(398) == 0x4000000000000000000000000000000000000000000000000000000000000000000000000000000000000000000000000000int);
    lemma_pow_adds(5, 171, 1);
    assert(pow(5, 172) == 1670477943807622278837835291969676174259498050065655436226210932600249150616956474169061408474590280093252658843994140625int);
    lemma_pow2_adds(398, 2);
    assert(pow2(400) == 0x10000000000000000000000000000000000000000000000000000000000000000000000000000000000000000000000000000int);
    lemma_pow_adds(5, 172, 1);
    assert(pow(5, 173) == 8352389719038111394189176459848380871297490250328277181131054663001245753084782370845307042372951400466263294219970703125int);
    lemma_pow2_adds(400, 2);
    assert(pow2(402) == 0x40000000000000000000000000000000000000000000000000000000000000000000000000000000000000000000000000000int);
    lemma_pow_adds(5, 173, 1);
    assert(pow(5, 174) == 41761948595190556970945882299241904356487451251641385905655273315006228765423911854226535211864757002331316471099853515625int);
    lemma_pow2_adds(402, 3);
    assert(pow2(405) == 0x200000000000000000000000000000000000000000000000000000000000000000000000000000000000000000000000000000int);
    lemma_pow_adds(5, 174, 1);
    assert(pow(5, 175) == 208809742975952784854729411496209521782437256258206929528276366575031143827119559271132676059323785011656582355499267578125int);
    lemma_pow2_adds(405, 2);
    assert(pow2(407) == 0x800000000000000000000000000000000000000000000000000000000000000000000000000000000000000000000000000000int);
    reveal(spec_pow5bits);
    if i == 160 {
        assert(spec_pow5bits(160) == 372);
        lemma_pow2_adds(372, 124);
        assert(wide(DOUBLE_POW5_INV_SPLIT[160]) == 29900410831648818584886782235117429227int);
        assert(wide(DOUBLE_POW5_SPLIT[160]) == 30254624334760299006390864322549623809int);
    } else if i == 161 {
        assert(spec_pow5bits(161) == 374);
        lemma_pow2_adds(374, 124);
        assert(wide(DOUBLE_POW5_INV_SPLIT[161]) == 23920328665319054867909425788093943382int);
        assert(wide(DOUBLE_POW5_SPLIT[161]) == 37818280418450373757988580403187029761int);
    } else if i == 162 {
        assert(spec_pow5bits(162) == 377);
        lemma_pow2_adds(377, 124);
        assert(wide(DOUBLE_POW5_INV_SPLIT[162]) == 38272525864510487788655081260950309411int);
        assert(wide(DOUBLE_POW5_SPLIT[162]) == 23636425261531483598742862751991893600int);
    } else if i == 163 {
        assert(spec_pow5bits(163) == 379);
        lemma_pow2_adds(379, 124);
        assert(wide(DOUBLE_POW5_INV_SPLIT[163]) == 30618020691608390230924065008760247529int);
        assert(wide(DOUBLE_POW5_SPLIT[163]) == 29545531576914354498428578439989867001int);
    } else if i == 164 {
        assert(spec_pow5bits(164) == 381);
        lemma_pow2_adds(381, 124);
        assert(wide(DOUBLE_POW5_INV_SPLIT[164]) == 24494416553286712184739252007008198023int);
        assert(wide(DOUBLE_POW5_SPLIT[164]) == 36931914471142943123035723049987333751int);
    } else if i == 165 {
        assert(spec_pow5bits(165) == 384);
        lemma_pow2_adds(384, 124);
        assert(wide(DOUBLE_POW5_INV_SPLIT[165]) == 39191066485258739495582803211213116837int);
        assert(wide(DOUBLE_POW5_SPLIT[165]) == 23082446544464339451897326906242083594int);
    } else if i == 166 {
        assert(spec_pow5bits(166) == 386);
        lemma_pow2_adds(386, 124);
        assert(wide(DOUBLE_POW5_INV_SPLIT[166]) == 31352853188206991596466242568970493469int);
        assert(wide(DOUBLE_POW5_SPLIT[166]) == 28853058180580424314871658632802604493int);
    } else if i == 167 {
        assert(spec_pow5bits(167) == 388);
        lemma_pow2_adds(388, 124);
        assert(wide(DOUBLE_POW5_INV_SPLIT[167]) == 25082282550565593277172994055176394776int);
        assert(wide(DOUBLE_POW5_SPLIT[167]) == 36066322725725530393589573291003255616int);
    } else if i == 168 {
        assert(spec_pow5bits(168) == 391);
        lemma_pow2_adds(391, 124);
        assert(wide(DOUBLE_POW5_INV_SPLIT[168]) == 40131652080904949243476790488282231641int);
        assert(wide(DOUBLE_POW5_SPLIT[168]) == 22541451703578456495993483306877034760int);
    } else if i == 169 {
        assert(spec_pow5bits(169) == 393);
        lemma_pow2_adds(393, 124);
        assert(wide(DOUBLE_POW5_INV_SPLIT[169]) == 32105321664723959394781432390625785313int);
        assert(wide(DOUBLE_POW5_SPLIT[169]) == 28176814629473070619991854133596293450int);
    } else if i == 170 {
        assert(spec_pow5bits(170) == 395);
        lemma_pow2_adds(395, 124);
        assert(wide(DOUBLE_POW5_INV_SPLIT[170]) == 25684257331779167515825145912500628250int);
        assert(wide(DOUBLE_POW5_SPLIT[170]) == 35221018286841338274989817666995366813int);
    } else if i == 171 {
        assert(spec_pow5bits(171) == 398);
        lemma_pow2_adds(398, 124);
        assert(wide(DOUBLE_POW5_INV_SPLIT[171]) == 41094811730846668025320233460001005200int);
        assert(wide(DOUBLE_POW5_SPLIT[171]) == 22013136429275836421868636041872104258int);
    } else if i == 172 {
        assert(spec_pow5bits(172) == 400);
        lemma_pow2_adds(400, 124);
        assert(wide(DOUBLE_POW5_INV_SPLIT[172]) == 32875849384677334420256186768000804160int);
        assert(wide(DOUBLE_POW5_SPLIT[172]) == 27516420536594795527335795052340130322int);
    } else if i == 173 {
        assert(spec_pow5bits(173) == 402);
        lemma_pow2_adds(402, 124);
        assert(wide(DOUBLE_POW5_INV_SPLIT[173]) == 26300679507741867536204949414400643328int);
        assert(wide(DOUBLE_POW5_SPLIT[173]) == 34395525670743494409169743815425162903int);
    } else if i == 174 {
        assert(spec_pow5bits(174) == 405);
        lemma_pow2_adds(405, 124);
        assert(wide(DOUBLE_POW5_INV_SPLIT[174]) == 42081087212386988057927919063041029325int);
        assert(wide(DOUBLE_POW5_SPLIT[174]) == 21497203544214684005731089884640726814int);
    } else if i == 175 {
        assert(spec_pow5bits(175) == 407);
        lemma_pow2_adds(407, 124);
        assert(wide(DOUBLE_POW5_INV_SPLIT[175]) == 33664869769909590446342335250432823460int);
        assert(wide(DOUBLE_POW5_SPLIT[175]) == 26871504430268355007163862355800908518int);
    }
}

proof fn lemma_entries_11(i: int)
    requires
        176 <= i < 192,
    ensures
        pow(5, 191) == 31861838222649045540577607955354236111822091103852375721477717067723258030261163218861797494403653718819668938522227108478546142578125int,
        pow2(444) == 0x1000000000000000000000000000000000000000000000000000000000000000000000000000000000000000000000000000000000000000int,
        is_pow5_inv_entry(i as nat, wide(DOUBLE_POW5_INV_SPLIT[i])),
        i < 326 ==> is_pow5_entry(i as nat, wide(DOUBLE_POW5_SPLIT[i])),
{
    lemma2_to64();
    lemma2_to64_rest();
    lemma_pow1(5);
    lemma_pow2_adds(64, 60);
    lemma_pow2_adds(64, 61);
    assert(pow2(124) == 0x10000000000000000000000000000000int);
    assert(pow2(125) == 0x20000000000000000000000000000000int);
    lemma_entries_10(175);
    lemma_pow_adds(5, 175, 1);
    assert(pow(5, 176) == 1044048714879763924273647057481047608912186281291034647641381832875155719135597796355663380296618925058282911777496337890625int);
    lemma_pow2_adds(407, 2);
    assert(pow2(409) == 0x2000000000000000000000000000000000000000000000000000000000000000000000000000000000000000000000000000000int);
    lemma_pow_adds(5, 176, 1);
    assert(pow(5, 177) == 5220243574398819621368235287405238044560931406455173238206909164375778595677988981778316901483094625291414558887481689453125int);
    lemma_pow2_adds(409, 2);
    assert(pow2(411) == 0x8000000000000000000000000000000000000000000000000000000000000000000000000000000000000000000000000000000int);
    lemma_pow_adds(5, 177, 1);
    assert(pow(5, 178) == 26101217871994098106841176437026190222804657032275866191034545821878892978389944908891584507415473126457072794437408447265625int);
    lemma_pow2_adds(411, 3);
    assert(pow2(414) == 0x40000000000000000000000000000000000000000000000000000000000000000000000000000000000000000000000000000000int);
    lemma_pow_adds(5, 178, 1);
    assert(pow(5, 179) == 130506089359970490534205882185130951114023285161379330955172729109394464891949724544457922537077365632285363972187042236328125int);
    lemma_pow2_adds(414, 2);
    assert(pow2(416) == 0x100000000000000000000000000000000000000000000000000000000000000000000000000000000000000000000000000000000int);
    lemma_pow_adds(5, 179, 1);
    assert(pow(5, 180) == 652530446799852452671029410925654755570116425806896654775863645546972324459748622722289612685386828161426819860935211181640625int);
    lemma_pow2_adds(416, 2);
    assert(pow2(418) == 0x400000000000000000000000000000000000000000000000000000000000000000000000000000000000000000000000000000000int);
    lemma_pow_adds(5, 180, 1);
    assert(pow(5, 181) == 3262652233999262263355147054628273777850582129034483273879318227734861622298743113611448063426934140807134099304676055908203125int);
    lemma_pow2_adds(418, 3);
    assert(pow2(421) == 0x2000000000000000000000000000000000000000000000000000000000000000000000000000000000000000000000000000000000int);
    lemma_pow_adds(5, 181, 1);
    assert(pow(5, 182) == 16313261169996311316775735273141368889252910645172416369396591138674308111493715568057240317134670704035670496523380279541015625int);
    lemma_pow2_adds(421, 2);
    assert(pow2(423) == 0x8000000000000000000000000000000000000000000000000000000000000000000000000000000000000000000000000000000000int);
    lemma_pow_adds(5, 182, 1);
    assert(pow(5, 183) == 81566305849981556583878676365706844446264553225862081846982955693371540557468577840286201585673353520178352482616901397705078125int);
    lemma_pow2_adds(423, 2);
    assert(pow2(425) == 0x20000000000000000000000000000000000000000000000000000000000000000000000000000000000000000000000000000000000int);
    lemma_pow_adds(5, 183, 1);
    assert(pow(5, 184) == 407831529249907782919393381828534222231322766129310409234914778466857702787342889201431007928366767600891762413084506988525390625int);
    lemma_pow2_adds(425, 3);
    assert(pow2(428) == 0x100000000000000000000000000000000000000000000000000000000000000000000000000000000000000000000000000000000000int);
    lemma_pow_adds(5, 184, 1);
    assert(pow(5, 185) == 2039157646249538914596966909142671111156613830646552046174573892334288513936714446007155039641833838004458812065422534942626953125int);
    lemma_pow2_adds(428, 2);
    assert(pow2(430) == 0x400000000000000000000000000000000000000000000000000000000000000000000000000000000000000000000000000000000000int);
    lemma_pow_adds(5, 185, 1);
    assert(pow(5, 186) == 10195788231247694572984834545713355555783069153232760230872869461671442569683572230035775198209169190022294060327112674713134765625int);
    lemma_pow2_adds(430, 2);
    assert(pow2(432) == 0x1000000000000000000000000000000000000000000000000000000000000000000000000000000000000000000000000000000000000int);
    lemma_pow_adds(5, 186, 1);
    assert(pow(5, 187) == 50978941156238472864924172728566777778915345766163801154364347308357212848417861150178875991045845950111470301635563373565673828125int);
    lemma_pow2_adds(432, 3);
    assert(pow2(435) == 0x8000000000000000000000000000000000000000000000000000000000000000000000000000000000000000000000000000000000000int);
    lemma_pow_adds(5, 187, 1);
    assert(pow(5, 188) == 254894705781192364324620863642833888894576728830819005771821736541786064242089305750894379955229229750557351508177816867828369140625int);
    lemma_pow2_adds(435, 2);
    assert(pow2(437) == 0x20000000000000000000000000000000000000000000000000000000000000000000000000000000000000000000000000000000000000int);
    lemma_pow_adds(5, 188, 1);
    assert(pow(5, 189) == 1274473528905961821623104318214169444472883644154095028859108682708930321210446528754471899776146148752786757540889084339141845703125int);
    lemma_pow2_adds(437, 2);
    assert(pow2(439) == 0x80000000000000000000000000000000000000000000000000000000000000000000000000000000000000000000000000000000000000int);
    lemma_pow_adds(5, 189, 1);
    assert(pow(5, 190) == 6372367644529809108115521591070847222364418220770475144295543413544651606052232643772359498880730743763933787704445421695709228515625int);
    lemma_pow2_adds(439, 3);
    assert(pow2(442) == 0x400000000000000000000000000000000000000000000000000000000000000000000000000000000000000000000000000000000000000int);
    lemma_pow_adds(5, 190, 1);
    assert(pow(5, 191) == 31861838222649045540577607955354236111822091103852375721477717067723258030261163218861797494403653718819668938522227108478546142578125int);
    lemma_pow2_adds(442, 2);
    assert(pow2(444) == 0x1000000000000000000000000000000000000000000000000000000000000000000000000000000000000000000000000000000000000000int);
    reveal(spec_pow5bits);
    if i == 176 {
        assert(spec_pow5bits(176) == 409);
        lemma_pow2_adds(409, 124);
        assert(wide(DOUBLE_POW5_INV_SPLIT[176]) == 26931895815927672357073868200346258768int);
        assert(wide(DOUBLE_POW5_SPLIT[176]) == 33589380537835443758954827944751135647int);
    } else if i == 177 {
        assert(spec_pow5bits(177) == 411);
        lemma_pow2_adds(411, 124);
        assert(wide(DOUBLE_POW5_INV_SPLIT[177]) == 21545516652742137885659094560277007015int);
        assert(wide(DOUBLE_POW5_SPLIT[177]) == 41986725672294304698693534930938919559int);
    } else if i == 178 {
        assert(spec_pow5bits(178) == 414);
        lemma_pow2_adds(414, 124);
        assert(wide(DOUBLE_POW5_INV_SPLIT[178]) == 34472826644387420617054551296443211223int);
        assert(wide(DOUBLE_POW5_SPLIT[178]) == 26241703545183940436683459331836824724int);
    } else if i == 179 {
        assert(spec_pow5bits(179) == 416);
        lemma_pow2_adds(416, 124);
        assert(wide(DOUBLE_POW5_INV_SPLIT[179]) == 27578261315509936493643641037154568979int);
        assert(wide(DOUBLE_POW5_SPLIT[179]) == 32802129431479925545854324164796030906int);
    } else if i == 180 {
        assert(spec_pow5bits(180) == 418);
        lemma_pow2_adds(418, 124);
        assert(wide(DOUBLE_POW5_INV_SPLIT[180]) == 22062609052407949194914912829723655183int);
        assert(wide(DOUBLE_POW5_SPLIT[180]) == 41002661789349906932317905205995038632int);
    } else if i == 181 {
        assert(spec_pow5bits(181) == 421);
        lemma_pow2_adds(421, 124);
        assert(wide(DOUBLE_POW5_INV_SPLIT[181]) == 35300174483852718711863860527557848292int);
        assert(wide(DOUBLE_POW5_SPLIT[181]) == 25626663618343691832698690753746899145int);
    } else if i == 182 {
        assert(spec_pow5bits(182) == 423);
        lemma_pow2_adds(423, 124);
        assert(wide(DOUBLE_POW5_INV_SPLIT[182]) == 28240139587082174969491088422046278634int);
        assert(wide(DOUBLE_POW5_SPLIT[182]) == 32033329522929614790873363442183623931int);
    } else if i == 183 {
        assert(spec_pow5bits(183) == 425);
        lemma_pow2_adds(425, 124);
        assert(wide(DOUBLE_POW5_INV_SPLIT[183]) == 22592111669665739975592870737637022907int);
        assert(wide(DOUBLE_POW5_SPLIT[183]) == 40041661903662018488591704302729529914int);
    } else if i == 184 {
        assert(spec_pow5bits(184) == 428);
        lemma_pow2_adds(428, 124);
        assert(wide(DOUBLE_POW5_INV_SPLIT[184]) == 36147378671465183960948593180219236651int);
        assert(wide(DOUBLE_POW5_SPLIT[184]) == 25026038689788761555369815189205956196int);
    } else if i == 185 {
        assert(spec_pow5bits(185) == 430);
        lemma_pow2_adds(430, 124);
        assert(wide(DOUBLE_POW5_INV_SPLIT[185]) == 28917902937172147168758874544175389321int);
        assert(wide(DOUBLE_POW5_SPLIT[185]) == 31282548362235951944212268986507445245int);
    } else if i == 186 {
        assert(spec_pow5bits(186) == 432);
        lemma_pow2_adds(432, 124);
        assert(wide(DOUBLE_POW5_INV_SPLIT[186]) == 23134322349737717735007099635340311457int);
        assert(wide(DOUBLE_POW5_SPLIT[186]) == 39103185452794939930265336233134306557int);
    } else if i == 187 {
        assert(spec_pow5bits(187) == 435);
        lemma_pow2_adds(435, 124);
        assert(wide(DOUBLE_POW5_INV_SPLIT[187]) == 37014915759580348376011359416544498331int);
        assert(wide(DOUBLE_POW5_SPLIT[187]) == 24439490907996837456415835145708941598int);
    } else if i == 188 {
        assert(spec_pow5bits(188) == 437);
        lemma_pow2_adds(437, 124);
        assert(wide(DOUBLE_POW5_INV_SPLIT[188]) == 29611932607664278700809087533235598665int);
        assert(wide(DOUBLE_POW5_SPLIT[188]) == 30549363634996046820519793932136176997int);
    } else if i == 189 {
        assert(spec_pow5bits(189) == 439);
        lemma_pow2_adds(439, 124);
        assert(wide(DOUBLE_POW5_INV_SPLIT[189]) == 23689546086131422960647270026588478932int);
        assert(wide(DOUBLE_POW5_SPLIT[189]) == 38186704543745058525649742415170221247int);
    } else if i == 190 {
        assert(spec_pow5bits(190) == 442);
        lemma_pow2_adds(442, 124);
        assert(wide(DOUBLE_POW5_INV_SPLIT[190]) == 37903273737810276737035632042541566291int);
        assert(wide(DOUBLE_POW5_SPLIT[190]) == 23866690339840661578531089009481388279int);
    } else if i == 191 {
        assert(spec_pow5bits(191) == 444);
        lemma_pow2_adds(444, 124);
        assert(wide(DOUBLE_POW5_INV_SPLIT[191]) == 30322618990248221389628505634033253033int);
        assert(wide(DOUBLE_POW5_SPLIT[191]) == 29833362924800826973163861261851735349int);
    }
}

proof fn lemma_entries_12(i: int)
    requires
        192 <= i < 208,
    ensures
        pow(5, 207) == 4861730685829016958706300042015722062961134506813411822735247355304452214090143313424956893066963763247630148089939439159934408962726593017578125int,
        pow2(481) == 0x2000000000000000000000000000000000000000000000000000000000000000000000000000000000000000000000000000000000000000000000000int,
        is_pow5_inv_entry(i as nat, wide(DOUBLE_POW5_INV_SPLIT[i])),
        i < 326 ==> is_pow5_entry(i as nat, wide(DOUBLE_POW5_SPLIT[i])),
{
    lemma2_to64();
    lemma2_to64_rest();
    lemma_pow1(5);
    lemma_pow2_adds(64, 60);
    lemma_pow2_adds(64, 61);
    assert(pow2(124) == 0x10000000000000000000000000000000int);
    assert(pow2(125) == 0x20000000000000000000000000000000int);
    lemma_entries_11(191);
    lemma_pow_adds(5, 191, 1);
    assert(pow(5, 192) == 159309191113245227702888039776771180559110455519261878607388585338616290151305816094308987472018268594098344692611135542392730712890625int);
    lemma_pow2_adds(444, 2);
    assert(pow2(446) == 0x4000000000000000000000000000000000000000000000000000000000000000000000000000000000000000000000000000000000000000int);
    lemma_pow_adds(5, 192, 1);
    assert(pow(5, 193) == 796545955566226138514440198883855902795552277596309393036942926693081450756529080471544937360091342970491723463055677711963653564453125int);
    lemma_pow2_adds(446, 3);
    assert(pow2(449) == 0x20000000000000000000000000000000000000000000000000000000000000000000000000000000000000000000000000000000000000000int);
    lemma_pow_adds(5, 193, 1);
    assert(pow(5, 194) == 3982729777831130692572200994419279513977761387981546965184714633465407253782645402357724686800456714852458617315278388559818267822265625int);
    lemma_pow2_adds(449, 2);
    assert(pow2(451) == 0x80000000000000000000000000000000000000000000000000000000000000000000000000000000000000000000000000000000000000000int);
    lemma_pow_adds(5, 194, 1);
    assert(pow(5, 195) == 19913648889155653462861004972096397569888806939907734825923573167327036268913227011788623434002283574262293086576391942799091339111328125int);
    lemma_pow2_adds(451, 2);
    assert(pow2(453) == 0x200000000000000000000000000000000000000000000000000000000000000000000000000000000000000000000000000000000000000000int);
    lemma_pow_adds(5, 195, 1);
    assert(pow(5, 196) == 99568244445778267314305024860481987849444034699538674129617865836635181344566135058943117170011417871311465432881959713995456695556640625int);
    lemma_pow2_adds(453, 3);
    assert(pow2(456) == 0x1000000000000000000000000000000000000000000000000000000000000000000000000000000000000000000000000000000000000000000int);
    lemma_pow_adds(5, 196, 1);
    assert(pow(5, 197) == 497841222228891336571525124302409939247220173497693370648089329183175906722830675294715585850057089356557327164409798569977283477783203125int);
    lemma_pow2_adds(456, 2);
    assert(pow2(458) == 0x4000000000000000000000000000000000000000000000000000000000000000000000000000000000000000000000000000000000000000000int);
    lemma_pow_adds(5, 197, 1);
    assert(pow(5, 198) == 2489206111144456682857625621512049696236100867488466853240446645915879533614153376473577929250285446782786635822048992849886417388916015625int);
    lemma_pow2_adds(458, 2);
    assert(pow2(460) == 0x10000000000000000000000000000000000000000000000000000000000000000000000000000000000000000000000000000000000000000000int);
    lemma_pow_adds(5, 198, 1);
    assert(pow(5, 199) == 12446030555722283414288128107560248481180504337442334266202233229579397668070766882367889646251427233913933179110244964249432086944580078125int);
    lemma_pow2_adds(460, 3);
    assert(pow2(463) == 0x80000000000000000000000000000000000000000000000000000000000000000000000000000000000000000000000000000000000000000000int);
    lemma_pow_adds(5, 199, 1);
    assert(pow(5, 200) == 62230152778611417071440640537801242405902521687211671331011166147896988340353834411839448231257136169569665895551224821247160434722900390625int);
    lemma_pow2_adds(463, 2);
    assert(pow2(465) == 0x200000000000000000000000000000000000000000000000000000000000000000000000000000000000000000000000000000000000000000000int);
    lemma_pow_adds(5, 200, 1);
    assert(pow(5, 201) == 311150763893057085357203202689006212029512608436058356655055830739484941701769172059197241156285680847848329477756124106235802173614501953125int);
    lemma_pow2_adds(465, 2);
    assert(pow2(467) == 0x800000000000000000000000000000000000000000000000000000000000000000000000000000000000000000000000000000000000000000000int);
    lemma_pow_adds(5, 201, 1);
    assert(pow(5, 202) == 1555753819465285426786016013445031060147563042180291783275279153697424708508845860295986205781428404239241647388780620531179010868072509765625int);
    lemma_pow2_adds(467, 3);
    assert(pow2(470) == 0x4000000000000000000000000000000000000000000000000000000000000000000000000000000000000000000000000000000000000000000000int);
    lemma_pow_adds(5, 202, 1);
    assert(pow(5, 203) == 7778769097326427133930080067225155300737815210901458916376395768487123542544229301479931028907142021196208236943903102655895054340362548828125int);
    lemma_pow2_adds(470, 2);
    assert(pow2(472) == 0x10000000000000000000000000000000000000000000000000000000000000000000000000000000000000000000000000000000000000000000000int);
    lemma_pow_adds(5, 203, 1);
    assert(pow(5, 204) == 38893845486632135669650400336125776503689076054507294581881978842435617712721146507399655144535710105981041184719515513279475271701812744140625int);
    lemma_pow2_adds(472, 2);
    assert(pow2(474) == 0x40000000000000000000000000000000000000000000000000000000000000000000000000000000000000000000000000000000000000000000000int);
    lemma_pow_adds(5, 204, 1);
    assert(pow(5, 205) == 194469227433160678348252001680628882518445380272536472909409894212178088563605732536998275722678550529905205923597577566397376358509063720703125int);
    lemma_pow2_adds(474, 2);
    assert(pow2(476) == 0x100000000000000000000000000000000000000000000000000000000000000000000000000000000000000000000000000000000000000000000000int);
    lemma_pow_adds(5, 205, 1);
    assert(pow(5, 206) == 972346137165803391741260008403144412592226901362682364547049471060890442818028662684991378613392752649526029617987887831986881792545318603515625int);
    lemma_pow2_adds(476, 3);
    assert(pow2(479) == 0x800000000000000000000000000000000000000000000000000000000000000000000000000000000000000000000000000000000000000000000000int);
    lemma_pow_adds(5, 206, 1);
    assert(pow(5, 207) == 4861730685829016958706300042015722062961134506813411822735247355304452214090143313424956893066963763247630148089939439159934408962726593017578125int);
    lemma_pow2_adds(479, 2);
    assert(pow2(481) == 0x2000000000000000000000000000000000000000000000000000000000000000000000000000000000000000000000000000000000000000000000000int);
    reveal(spec_pow5bits);
    if i == 192 {
        assert(spec_pow5bits(192) == 446);
        lemma_pow2_adds(446, 124);
        assert(wide(DOUBLE_POW5_INV_SPLIT[192]) == 24258095192198577111702804507226602426int);
        assert(wide(DOUBLE_POW5_SPLIT[192]) == 37291703656001033716454826577314669186int);
    } else if i == 193 {
        assert(spec_pow5bits(193) == 449);
        lemma_pow2_adds(449, 124);
        assert(wide(DOUBLE_POW5_INV_SPLIT[193]) == 38812952307517723378724487211562563882int);
        assert(wide(DOUBLE_POW5_SPLIT[193]) == 23307314785000646072784266610821668241int);
    } else if i == 194 {
        assert(spec_pow5bits(194) == 451);
        lemma_pow2_adds(451, 124);
        assert(wide(DOUBLE_POW5_INV_SPLIT[194]) == 31050361846014178702979589769250051106int);
        assert(wide(DOUBLE_POW5_SPLIT[194]) == 29134143481250807590980333263527085302int);
    } else if i == 195 {
        assert(spec_pow5bits(195) == 453);
        lemma_pow2_adds(453, 124);
        assert(wide(DOUBLE_POW5_INV_SPLIT[195]) == 24840289476811342962383671815400040885int);
        assert(wide(DOUBLE_POW5_SPLIT[195]) == 36417679351563509488725416579408856627int);
    } else if i == 196 {
        assert(spec_pow5bits(196) == 456);
        lemma_pow2_adds(456, 124);
        assert(wide(DOUBLE_POW5_INV_SPLIT[196]) == 39744463162898148739813874904640065415int);
        assert(wide(DOUBLE_POW5_SPLIT[196]) == 22761049594727193430453385362130535392int);
    } else if i == 197 {
        assert(spec_pow5bits(197) == 458);
        lemma_pow2_adds(458, 124);
        assert(wide(DOUBLE_POW5_INV_SPLIT[197]) == 31795570530318518991851099923712052332int);
        assert(wide(DOUBLE_POW5_SPLIT[197]) == 28451311993408991788066731702663169240int);
    } else if i == 198 {
        assert(spec_pow5bits(198) == 460);
        lemma_pow2_adds(460, 124);
        assert(wide(DOUBLE_POW5_INV_SPLIT[198]) == 25436456424254815193480879938969641866int);
        assert(wide(DOUBLE_POW5_SPLIT[198]) == 35564139991761239735083414628328961550int);
    } else if i == 199 {
        assert(spec_pow5bits(199) == 463);
        lemma_pow2_adds(463, 124);
        assert(wide(DOUBLE_POW5_INV_SPLIT[199]) == 40698330278807704309569407902351426985int);
        assert(wide(DOUBLE_POW5_SPLIT[199]) == 22227587494850774834427134142705600969int);
    } else if i == 200 {
        assert(spec_pow5bits(200) == 465);
        lemma_pow2_adds(465, 124);
        assert(wide(DOUBLE_POW5_INV_SPLIT[200]) == 32558664223046163447655526321881141588int);
        assert(wide(DOUBLE_POW5_SPLIT[200]) == 27784484368563468543033917678382001211int);
    } else if i == 201 {
        assert(spec_pow5bits(201) == 467);
        lemma_pow2_adds(467, 124);
        assert(wide(DOUBLE_POW5_INV_SPLIT[201]) == 26046931378436930758124421057504913271int);
        assert(wide(DOUBLE_POW5_SPLIT[201]) == 34730605460704335678792397097977501514int);
    } else if i == 202 {
        assert(spec_pow5bits(202) == 470);
        lemma_pow2_adds(470, 124);
        assert(wide(DOUBLE_POW5_INV_SPLIT[202]) == 41675090205499089212999073692007861233int);
        assert(wide(DOUBLE_POW5_SPLIT[202]) == 21706628412940209799245248186235938446int);
    } else if i == 203 {
        assert(spec_pow5bits(203) == 472);
        lemma_pow2_adds(472, 124);
        assert(wide(DOUBLE_POW5_INV_SPLIT[203]) == 33340072164399271370399258953606288986int);
        assert(wide(DOUBLE_POW5_SPLIT[203]) == 27133285516175262249056560232794923058int);
    } else if i == 204 {
        assert(spec_pow5bits(204) == 474);
        lemma_pow2_adds(474, 124);
        assert(wide(DOUBLE_POW5_INV_SPLIT[204]) == 26672057731519417096319407162885031189int);
        assert(wide(DOUBLE_POW5_SPLIT[204]) == 33916606895219077811320700290993653822int);
    } else if i == 205 {
        assert(spec_pow5bits(205) == 476);
        lemma_pow2_adds(476, 124);
        assert(wide(DOUBLE_POW5_INV_SPLIT[205]) == 21337646185215533677055525730308024951int);
        assert(wide(DOUBLE_POW5_SPLIT[205]) == 42395758619023847264150875363742067278int);
    } else if i == 206 {
        assert(spec_pow5bits(206) == 479);
        lemma_pow2_adds(479, 124);
        assert(wide(DOUBLE_POW5_INV_SPLIT[206]) == 34140233896344853883288841168492839922int);
        assert(wide(DOUBLE_POW5_SPLIT[206]) == 26497349136889904540094297102338792048int);
    } else if i == 207 {
        assert(spec_pow5bits(207) == 481);
        lemma_pow2_adds(481, 124);
        assert(wide(DOUBLE_POW5_INV_SPLIT[207]) == 27312187117075883106631072934794271938int);
        assert(wide(DOUBLE_POW5_SPLIT[207]) == 33121686421112380675117871377923490061int);
    }
}

proof fn lemma_entries_13(i: int)
    requires
        208 <= i < 224,
    ensures
        pow(5, 223) == 741841230137484277146347052309527902673512955751558200490607811783516268019125871799462416544641687507267783827200231805409913476978545077145099639892578125int,
        pow2(518) == 0x4000000000000000000000000000000000000000000000000000000000000000000000000000000000000000000000000000000000000000000000000000000000int,
        is_pow5_inv_entry(i as nat, wide(DOUBLE_POW5_INV_SPLIT[i])),
        i < 326 ==> is_pow5_entry(i as nat, wide(DOUBLE_POW5_SPLIT[i])),
{
    lemma2_to64();
    lemma2_to64_rest();
    lemma_pow1(5);
    lemma_pow2_adds(64, 60);
    lemma_pow2_adds(64, 61);
    assert(pow2(124) == 0x10000000000000000000000000000000int);
    assert(pow2(125) == 0x20000000000000000000000000000000int);
    lemma_entries_12(207);
    lemma_pow_adds(5, 207, 1);
    assert(pow(5, 208) == 24308653429145084793531500210078610314805672534067059113676236776522261070450716567124784465334818816238150740449697195799672044813632965087890625int);
    lemma_pow2_adds(481, 2);
    assert(pow2(483) == 0x8000000000000000000000000000000000000000000000000000000000000000000000000000000000000000000000000000000000000000000000000int);
    lemma_pow_adds(5, 208, 1);
    assert(pow(5, 209) == 121543267145725423967657501050393051574028362670335295568381183882611305352253582835623922326674094081190753702248485978998360224068164825439453125int);
    lemma_pow2_adds(483, 3);
    assert(pow2(486) == 0x40000000000000000000000000000000000000000000000000000000000000000000000000000000000000000000000000000000000000000000000000int);
    lemma_pow_adds(5, 209, 1);
    assert(pow(5, 210) == 607716335728627119838287505251965257870141813351676477841905919413056526761267914178119611633370470405953768511242429894991801120340824127197265625int);
    lemma_pow2_adds(486, 2);
    assert(pow2(488) == 0x100000000000000000000000000000000000000000000000000000000000000000000000000000000000000000000000000000000000000000000000000int);
    lemma_pow_adds(5, 210, 1);
    assert(pow(5, 211) == 3038581678643135599191437526259826289350709066758382389209529597065282633806339570890598058166852352029768842556212149474959005601704120635986328125int);
    lemma_pow2_adds(488, 2);
    assert(pow2(490) == 0x400000000000000000000000000000000000000000000000000000000000000000000000000000000000000000000000000000000000000000000000000int);
    lemma_pow_adds(5, 211, 1);
    assert(pow(5, 212) == 15192908393215677995957187631299131446753545333791911946047647985326413169031697854452990290834261760148844212781060747374795028008520603179931640625int);
    lemma_pow2_adds(490, 3);
    assert(pow2(493) == 0x2000000000000000000000000000000000000000000000000000000000000000000000000000000000000000000000000000000000000000000000000000int);
    lemma_pow_adds(5, 212, 1);
    assert(pow(5, 213) == 75964541966078389979785938156495657233767726668959559730238239926632065845158489272264951454171308800744221063905303736873975140042603015899658203125int);
    lemma_pow2_adds(493, 2);
    assert(pow2(495) == 0x8000000000000000000000000000000000000000000000000000000000000000000000000000000000000000000000000000000000000000000000000000int);
    lemma_pow_adds(5, 213, 1);
    assert(pow(5, 214) == 379822709830391949898929690782478286168838633344797798651191199633160329225792446361324757270856544003721105319526518684369875700213015079498291015625int);
    lemma_pow2_adds(495, 2);
    assert(pow2(497) == 0x20000000000000000000000000000000000000000000000000000000000000000000000000000000000000000000000000000000000000000000000000000int);
    lemma_pow_adds(5, 214, 1);
    assert(pow(5, 215) == 1899113549151959749494648453912391430844193166723988993255955998165801646128962231806623786354282720018605526597632593421849378501065075397491455078125int);
    lemma_pow2_adds(497, 3);
    assert(pow2(500) == 0x100000000000000000000000000000000000000000000000000000000000000000000000000000000000000000000000000000000000000000000000000000int);
    lemma_pow_adds(5, 215, 1);
    assert(pow(5, 216) == 9495567745759798747473242269561957154220965833619944966279779990829008230644811159033118931771413600093027632988162967109246892505325376987457275390625int);
    lemma_pow2_adds(500, 2);
    assert(pow2(502) == 0x400000000000000000000000000000000000000000000000000000000000000000000000000000000000000000000000000000000000000000000000000000int);
    lemma_pow_adds(5, 216, 1);
    assert(pow(5, 217) == 47477838728798993737366211347809785771104829168099724831398899954145041153224055795165594658857068000465138164940814835546234462526626884937286376953125int);
    lemma_pow2_adds(502, 2);
    assert(pow2(504) == 0x1000000000000000000000000000000000000000000000000000000000000000000000000000000000000000000000000000000000000000000000000000000int);
    lemma_pow_adds(5, 217, 1);
    assert(pow(5, 218) == 237389193643994968686831056739048928855524145840498624156994499770725205766120278975827973294285340002325690824704074177731172312633134424686431884765625int);
    lemma_pow2_adds(504, 3);
    assert(pow2(507) == 0x8000000000000000000000000000000000000000000000000000000000000000000000000000000000000000000000000000000000000000000000000000000int);
    lemma_pow_adds(5, 218, 1);
    assert(pow(5, 219) == 1186945968219974843434155283695244644277620729202493120784972498853626028830601394879139866471426700011628454123520370888655861563165672123432159423828125int);
    lemma_pow2_adds(507, 2);
    assert(pow2(509) == 0x20000000000000000000000000000000000000000000000000000000000000000000000000000000000000000000000000000000000000000000000000000000int);
    lemma_pow_adds(5, 219, 1);
    assert(pow(5, 220) == 5934729841099874217170776418476223221388103646012465603924862494268130144153006974395699332357133500058142270617601854443279307815828360617160797119140625int);
    lemma_pow2_adds(509, 2);
    assert(pow2(511) == 0x80000000000000000000000000000000000000000000000000000000000000000000000000000000000000000000000000000000000000000000000000000000int);
    lemma_pow_adds(5, 220, 1);
    assert(pow(5, 221) == 29673649205499371085853882092381116106940518230062328019624312471340650720765034871978496661785667500290711353088009272216396539079141803085803985595703125int);
    lemma_pow2_adds(511, 3);
    assert(pow2(514) == 0x400000000000000000000000000000000000000000000000000000000000000000000000000000000000000000000000000000000000000000000000000000000int);
    lemma_pow_adds(5, 221, 1);
    assert(pow(5, 222) == 148368246027496855429269410461905580534702591150311640098121562356703253603825174359892483308928337501453556765440046361081982695395709015429019927978515625int);
    lemma_pow2_adds(514, 2);
    assert(pow2(516) == 0x1000000000000000000000000000000000000000000000000000000000000000000000000000000000000000000000000000000000000000000000000000000000int);
    lemma_pow_adds(5, 222, 1);
    assert(pow(5, 223) == 741841230137484277146347052309527902673512955751558200490607811783516268019125871799462416544641687507267783827200231805409913476978545077145099639892578125int);
    lemma_pow2_adds(516, 2);
    assert(pow2(518) == 0x4000000000000000000000000000000000000000000000000000000000000000000000000000000000000000000000000000000000000000000000000000000000int);
    reveal(spec_pow5bits);
    if i == 208 {
        assert(spec_pow5bits(208) == 483);
        lemma_pow2_adds(483, 124);
        assert(wide(DOUBLE_POW5_INV_SPLIT[208]) == 21849749693660706485304858347835417550int);
        assert(wide(DOUBLE_POW5_SPLIT[208]) == 41402108026390475843897339222404362576int);
    } else if i == 209 {
        assert(spec_pow5bits(209) == 486);
        lemma_pow2_adds(486, 124);
        assert(wide(DOUBLE_POW5_INV_SPLIT[209]) == 34959599509857130376487773356536668080int);
        assert(wide(DOUBLE_POW5_SPLIT[209]) == 25876317516494047402435837014002726610int);
    } else if i == 210 {
        assert(spec_pow5bits(210) == 488);
        lemma_pow2_adds(488, 124);
        assert(wide(DOUBLE_POW5_INV_SPLIT[210]) == 27967679607885704301190218685229334464int);
        assert(wide(DOUBLE_POW5_SPLIT[210]) == 32345396895617559253044796267503408262int);
    } else if i == 211 {
        assert(spec_pow5bits(211) == 490);
        lemma_pow2_adds(490, 124);
        assert(wide(DOUBLE_POW5_INV_SPLIT[211]) == 22374143686308563440952174948183467571int);
        assert(wide(DOUBLE_POW5_SPLIT[211]) == 40431746119521949066305995334379260328int);
    } else if i == 212 {
        assert(spec_pow5bits(212) == 493);
        lemma_pow2_adds(493, 124);
        assert(wide(DOUBLE_POW5_INV_SPLIT[212]) == 35798629898093701505523479917093548114int);
        assert(wide(DOUBLE_POW5_SPLIT[212]) == 25269841324701218166441247083987037705int);
    } else if i == 213 {
        assert(spec_pow5bits(213) == 495);
        lemma_pow2_adds(495, 124);
        assert(wide(DOUBLE_POW5_INV_SPLIT[213]) == 28638903918474961204418783933674838491int);
        assert(wide(DOUBLE_POW5_SPLIT[213]) == 31587301655876522708051558854983797131int);
    } else if i == 214 {
        assert(spec_pow5bits(214) == 497);
        lemma_pow2_adds(497, 124);
        assert(wide(DOUBLE_POW5_INV_SPLIT[214]) == 22911123134779968963535027146939870793int);
        assert(wide(DOUBLE_POW5_SPLIT[214]) == 39484127069845653385064448568729746414int);
    } else if i == 215 {
        assert(spec_pow5bits(215) == 500);
        lemma_pow2_adds(500, 124);
        assert(wide(DOUBLE_POW5_INV_SPLIT[215]) == 36657797015647950341656043435103793269int);
        assert(wide(DOUBLE_POW5_SPLIT[215]) == 24677579418653533365665280355456091509int);
    } else if i == 216 {
        assert(spec_pow5bits(216) == 502);
        lemma_pow2_adds(502, 124);
        assert(wide(DOUBLE_POW5_INV_SPLIT[216]) == 29326237612518360273324834748083034615int);
        assert(wide(DOUBLE_POW5_SPLIT[216]) == 30846974273316916707081600444320114386int);
    } else if i == 217 {
        assert(spec_pow5bits(217) == 504);
        lemma_pow2_adds(504, 124);
        assert(wide(DOUBLE_POW5_INV_SPLIT[217]) == 23460990090014688218659867798466427692int);
        assert(wide(DOUBLE_POW5_SPLIT[217]) == 38558717841646145883852000555400142982int);
    } else if i == 218 {
        assert(spec_pow5bits(218) == 507);
        lemma_pow2_adds(507, 124);
        assert(wide(DOUBLE_POW5_INV_SPLIT[218]) == 37537584144023501149855788477546284307int);
        assert(wide(DOUBLE_POW5_SPLIT[218]) == 24099198651028841177407500347125089364int);
    } else if i == 219 {
        assert(spec_pow5bits(219) == 509);
        lemma_pow2_adds(509, 124);
        assert(wide(DOUBLE_POW5_INV_SPLIT[219]) == 30030067315218800919884630782037027446int);
        assert(wide(DOUBLE_POW5_SPLIT[219]) == 30123998313786051471759375433906361705int);
    } else if i == 220 {
        assert(spec_pow5bits(220) == 511);
        lemma_pow2_adds(511, 124);
        assert(wide(DOUBLE_POW5_INV_SPLIT[220]) == 24024053852175040735907704625629621957int);
        assert(wide(DOUBLE_POW5_SPLIT[220]) == 37654997892232564339699219292382952131int);
    } else if i == 221 {
        assert(spec_pow5bits(221) == 514);
        lemma_pow2_adds(514, 124);
        assert(wide(DOUBLE_POW5_INV_SPLIT[221]) == 38438486163480065177452327401007395130int);
        assert(wide(DOUBLE_POW5_SPLIT[221]) == 23534373682645352712312012057739345082int);
    } else if i == 222 {
        assert(spec_pow5bits(222) == 516);
        lemma_pow2_adds(516, 124);
        assert(wide(DOUBLE_POW5_INV_SPLIT[222]) == 30750788930784052141961861920805916104int);
        assert(wide(DOUBLE_POW5_SPLIT[222]) == 29417967103306690890390015072174181352int);
    } else if i == 223 {
        assert(spec_pow5bits(223) == 518);
        lemma_pow2_adds(518, 124);
        assert(wide(DOUBLE_POW5_INV_SPLIT[223]) == 24600631144627241713569489536644732884int);
        assert(wide(DOUBLE_POW5_SPLIT[223]) == 36772458879133363612987518840217726691int);
    }
}

proof fn lemma_entries_14(i: int)
    requires
        224 <= i < 240,
    ensures
        pow(5, 239) == 113195988485333904593863991136097397258531639976739227369782686124193766482410563934244143149511976243174405491210972870698534160915915691703048651106655597686767578125int,
        pow2(555) == 0x8000000000000000000000000000000000000000000000000000000000000000000000000000000000000000000000000000000000000000000000000000000000000000000int,
        is_pow5_inv_entry(i as nat, wide(DOUBLE_POW5_INV_SPLIT[i])),
        i < 326 ==> is_pow5_entry(i as nat, wide(DOUBLE_POW5_SPLIT[i])),
{
    lemma2_to64();
    lemma2_to64_rest();
    lemma_pow1(5);
    lemma_pow2_adds(64, 60);
    lemma_pow2_adds(64, 61);
    assert(pow2(124) == 0x10000000000000000000000000000000int);
    assert(pow2(125) == 0x20000000000000000000000000000000int);
    lemma_entries_13(223);
    lemma_pow_adds(5, 223, 1);
    assert(pow(5, 224) == 3709206150687421385731735261547639513367564778757791002453039058917581340095629358997312082723208437536338919136001159027049567384892725385725498199462890625int);
    lemma_pow2_adds(518, 3);
    assert(pow2(521) == 0x20000000000000000000000000000000000000000000000000000000000000000000000000000000000000000000000000000000000000000000000000000000000int);
    lemma_pow_adds(5, 224, 1);
    assert(pow(5, 225) == 18546030753437106928658676307738197566837823893788955012265195294587906700478146794986560413616042187681694595680005795135247836924463626928627490997314453125int);
    lemma_pow2_adds(521, 2);
    assert(pow2(523) == 0x80000000000000000000000000000000000000000000000000000000000000000000000000000000000000000000000000000000000000000000000000000000000int);
    lemma_pow_adds(5, 225, 1);
    assert(pow(5, 226) == 92730153767185534643293381538690987834189119468944775061325976472939533502390733974932802068080210938408472978400028975676239184622318134643137454986572265625int);
    lemma_pow2_adds(523, 2);
    assert(pow2(525) == 0x200000000000000000000000000000000000000000000000000000000000000000000000000000000000000000000000000000000000000000000000000000000000int);
    lemma_pow_adds(5, 226, 1);
    assert(pow(5, 227) == 463650768835927673216466907693454939170945597344723875306629882364697667511953669874664010340401054692042364892000144878381195923111590673215687274932861328125int);
    lemma_pow2_adds(525, 3);
    assert(pow2(528) == 0x1000000000000000000000000000000000000000000000000000000000000000000000000000000000000000000000000000000000000000000000000000000000000int);
    lemma_pow_adds(5, 227, 1);
    assert(pow(5, 228) == 2318253844179638366082334538467274695854727986723619376533149411823488337559768349373320051702005273460211824460000724391905979615557953366078436374664306640625int);
    lemma_pow2_adds(528, 2);
    assert(pow2(530) == 0x4000000000000000000000000000000000000000000000000000000000000000000000000000000000000000000000000000000000000000000000000000000000000int);
    lemma_pow_adds(5, 228, 1);
    assert(pow(5, 229) == 11591269220898191830411672692336373479273639933618096882665747059117441687798841746866600258510026367301059122300003621959529898077789766830392181873321533203125int);
    lemma_pow2_adds(530, 2);
    assert(pow2(532) == 0x10000000000000000000000000000000000000000000000000000000000000000000000000000000000000000000000000000000000000000000000000000000000000int);
    lemma_pow_adds(5, 229, 1);
    assert(pow(5, 230) == 57956346104490959152058363461681867396368199668090484413328735295587208438994208734333001292550131836505295611500018109797649490388948834151960909366607666015625int);
    lemma_pow2_adds(532, 3);
    assert(pow2(535) == 0x80000000000000000000000000000000000000000000000000000000000000000000000000000000000000000000000000000000000000000000000000000000000000int);
    lemma_pow_adds(5, 230, 1);
    assert(pow(5, 231) == 289781730522454795760291817308409336981840998340452422066643676477936042194971043671665006462750659182526478057500090548988247451944744170759804546833038330078125int);
    lemma_pow2_adds(535, 2);
    assert(pow2(537) == 0x200000000000000000000000000000000000000000000000000000000000000000000000000000000000000000000000000000000000000000000000000000000000000int);
    lemma_pow_adds(5, 231, 1);
    assert(pow(5, 232) == 1448908652612273978801459086542046684909204991702262110333218382389680210974855218358325032313753295912632390287500452744941237259723720853799022734165191650390625int);
    lemma_pow2_adds(537, 2);
    assert(pow2(539) == 0x800000000000000000000000000000000000000000000000000000000000000000000000000000000000000000000000000000000000000000000000000000000000000int);
    lemma_pow_adds(5, 232, 1);
    assert(pow(5, 233) == 7244543263061369894007295432710233424546024958511310551666091911948401054874276091791625161568766479563161951437502263724706186298618604268995113670825958251953125int);
    lemma_pow2_adds(539, 3);
    assert(pow2(542) == 0x4000000000000000000000000000000000000000000000000000000000000000000000000000000000000000000000000000000000000000000000000000000000000000int);
    lemma_pow_adds(5, 233, 1);
    assert(pow(5, 234) == 36222716315306849470036477163551167122730124792556552758330459559742005274371380458958125807843832397815809757187511318623530931493093021344975568354129791259765625int);
    lemma_pow2_adds(542, 2);
    assert(pow2(544) == 0x10000000000000000000000000000000000000000000000000000000000000000000000000000000000000000000000000000000000000000000000000000000000000000int);
    lemma_pow_adds(5, 234, 1);
    assert(pow(5, 235) == 181113581576534247350182385817755835613650623962782763791652297798710026371856902294790629039219161989079048785937556593117654657465465106724877841770648956298828125int);
    lemma_pow2_adds(544, 2);
    assert(pow2(546) == 0x40000000000000000000000000000000000000000000000000000000000000000000000000000000000000000000000000000000000000000000000000000000000000000int);
    lemma_pow_adds(5, 235, 1);
    assert(pow(5, 236) == 905567907882671236750911929088779178068253119813913818958261488993550131859284511473953145196095809945395243929687782965588273287327325533624389208853244781494140625int);
    lemma_pow2_adds(546, 2);
    assert(pow2(548) == 0x100000000000000000000000000000000000000000000000000000000000000000000000000000000000000000000000000000000000000000000000000000000000000000int);
    lemma_pow_adds(5, 236, 1);
    assert(pow(5, 237) == 4527839539413356183754559645443895890341265599069569094791307444967750659296422557369765725980479049726976219648438914827941366436636627668121946044266223907470703125int);
    lemma_pow2_adds(548, 3);
    assert(pow2(551) == 0x800000000000000000000000000000000000000000000000000000000000000000000000000000000000000000000000000000000000000000000000000000000000000000int);
    lemma_pow_adds(5, 237, 1);
    assert(pow(5, 238) == 22639197697066780918772798227219479451706327995347845473956537224838753296482112786848828629902395248634881098242194574139706832183183138340609730221331119537353515625int);
    lemma_pow2_adds(551, 2);
    assert(pow2(553) == 0x2000000000000000000000000000000000000000000000000000000000000000000000000000000000000000000000000000000000000000000000000000000000000000000int);
    lemma_pow_adds(5, 238, 1);
    assert(pow(5, 239) == 113195988485333904593863991136097397258531639976739227369782686124193766482410563934244143149511976243174405491210972870698534160915915691703048651106655597686767578125int);
    lemma_pow2_adds(553, 2);
    assert(pow2(555) == 0x8000000000000000000000000000000000000000000000000000000000000000000000000000000000000000000000000000000000000000000000000000000000000000000int);
    reveal(spec_pow5bits);
    if i == 224 {
        assert(spec_pow5bits(224) == 521);
        lemma_pow2_adds(521, 124);
        assert(wide(DOUBLE_POW5_INV_SPLIT[224]) == 39361009831403586741711183258631572614int);
        assert(wide(DOUBLE_POW5_SPLIT[224]) == 22982786799458352258117199275136079181int);
    } else if i == 225 {
        assert(spec_pow5bits(225) == 523);
        lemma_pow2_adds(523, 124);
        assert(wide(DOUBLE_POW5_INV_SPLIT[225]) == 31488807865122869393368946606905258091int);
        assert(wide(DOUBLE_POW5_SPLIT[225]) == 28728483499322940322646499093920098977int);
    } else if i == 226 {
        assert(spec_pow5bits(226) == 525);
        lemma_pow2_adds(525, 124);
        assert(wide(DOUBLE_POW5_INV_SPLIT[226]) == 25191046292098295514695157285524206473int);
        assert(wide(DOUBLE_POW5_SPLIT[226]) == 35910604374153675403308123867400123721int);
    } else if i == 227 {
        assert(spec_pow5bits(227) == 528);
        lemma_pow2_adds(528, 124);
        assert(wide(DOUBLE_POW5_INV_SPLIT[227]) == 40305674067357272823512251656838730356int);
        assert(wide(DOUBLE_POW5_SPLIT[227]) == 22444127733846047127067577417125077326int);
    } else if i == 228 {
        assert(spec_pow5bits(228) == 530);
        lemma_pow2_adds(530, 124);
        assert(wide(DOUBLE_POW5_INV_SPLIT[228]) == 32244539253885818258809801325470984285int);
        assert(wide(DOUBLE_POW5_SPLIT[228]) == 28055159667307558908834471771406346657int);
    } else if i == 229 {
        assert(spec_pow5bits(229) == 532);
        lemma_pow2_adds(532, 124);
        assert(wide(DOUBLE_POW5_INV_SPLIT[229]) == 25795631403108654607047841060376787428int);
        assert(wide(DOUBLE_POW5_SPLIT[229]) == 35068949584134448636043089714257933322int);
    } else if i == 230 {
        assert(spec_pow5bits(230) == 535);
        lemma_pow2_adds(535, 124);
        assert(wide(DOUBLE_POW5_INV_SPLIT[230]) == 41273010244973847371276545696602859885int);
        assert(wide(DOUBLE_POW5_SPLIT[230]) == 21918093490084030397526931071411208326int);
    } else if i == 231 {
        assert(spec_pow5bits(231) == 537);
        lemma_pow2_adds(537, 124);
        assert(wide(DOUBLE_POW5_INV_SPLIT[231]) == 33018408195979077897021236557282287908int);
        assert(wide(DOUBLE_POW5_SPLIT[231]) == 27397616862605037996908663839264010407int);
    } else if i == 232 {
        assert(spec_pow5bits(232) == 539);
        lemma_pow2_adds(539, 124);
        assert(wide(DOUBLE_POW5_INV_SPLIT[232]) == 26414726556783262317616989245825830326int);
        assert(wide(DOUBLE_POW5_SPLIT[232]) == 34247021078256297496135829799080013009int);
    } else if i == 233 {
        assert(spec_pow5bits(233) == 542);
        lemma_pow2_adds(542, 124);
        assert(wide(DOUBLE_POW5_INV_SPLIT[233]) == 42263562490853219708187182793321328522int);
        assert(wide(DOUBLE_POW5_SPLIT[233]) == 21404388173910185935084893624425008131int);
    } else if i == 234 {
        assert(spec_pow5bits(234) == 544);
        lemma_pow2_adds(544, 124);
        assert(wide(DOUBLE_POW5_INV_SPLIT[234]) == 33810849992682575766549746234657062818int);
        assert(wide(DOUBLE_POW5_SPLIT[234]) == 26755485217387732418856117030531260163int);
    } else if i == 235 {
        assert(spec_pow5bits(235) == 546);
        lemma_pow2_adds(546, 124);
        assert(wide(DOUBLE_POW5_INV_SPLIT[235]) == 27048679994146060613239796987725650254int);
        assert(wide(DOUBLE_POW5_SPLIT[235]) == 33444356521734665523570146288164075204int);
    } else if i == 236 {
        assert(spec_pow5bits(236) == 548);
        lemma_pow2_adds(548, 124);
        assert(wide(DOUBLE_POW5_INV_SPLIT[236]) == 21638943995316848490591837590180520204int);
        assert(wide(DOUBLE_POW5_SPLIT[236]) == 41805445652168331904462682860205094006int);
    } else if i == 237 {
        assert(spec_pow5bits(237) == 551);
        lemma_pow2_adds(551, 124);
        assert(wide(DOUBLE_POW5_INV_SPLIT[237]) == 34622310392506957584946940144288832325int);
        assert(wide(DOUBLE_POW5_SPLIT[237]) == 26128403532605207440289176787628183753int);
    } else if i == 238 {
        assert(spec_pow5bits(238) == 553);
        lemma_pow2_adds(553, 124);
        assert(wide(DOUBLE_POW5_INV_SPLIT[238]) == 27697848314005566067957552115431065860int);
        assert(wide(DOUBLE_POW5_SPLIT[238]) == 32660504415756509300361470984535229692int);
    } else if i == 239 {
        assert(spec_pow5bits(239) == 555);
        lemma_pow2_adds(555, 124);
        assert(wide(DOUBLE_POW5_INV_SPLIT[239]) == 22158278651204452854366041692344852688int);
        assert(wide(DOUBLE_POW5_SPLIT[239]) == 40825630519695636625451838730669037115int);
    }
}

proof fn lemma_entries_15(i: int)
    requires
        240 <= i < 256,
    ensures
        pow(5, 255) == 17272337110188889250772703725600799142232000728872562770047406940337183606324854115943015006944576453121094587892299327193990197893663893387306007554116149549372494220733642578125int,
        pow2(593) == 0x20000000000000000000000000000000000000000000000000000000000000000000000000000000000000000000000000000000000000000000000000000000000000000000000000000int,
        is_pow5_inv_entry(i as nat, wide(DOUBLE_POW5_INV_SPLIT[i])),
        i < 326 ==> is_pow5_entry(i as nat, wide(DOUBLE_POW5_SPLIT[i])),
{
    lemma2_to64();
    lemma2_to64_rest();
    lemma_pow1(5);
    lemma_pow2_adds(64, 60);
    lemma_pow2_adds(64, 61);
    assert(pow2(124) == 0x10000000000000000000000000000000int);
    assert(pow2(125) == 0x20000000000000000000000000000000int);
    lemma_entries_14(239);
    lemma_pow_adds(5, 239, 1);
    assert(pow(5, 240) == 565979942426669522969319955680486986292658199883696136848913430620968832412052819671220715747559881215872027456054864353492670804579578458515243255533277988433837890625int);
    lemma_pow2_adds(555, 3);
    assert(pow2(558) == 0x40000000000000000000000000000000000000000000000000000000000000000000000000000000000000000000000000000000000000000000000000000000000000000000int);
    lemma_pow_adds(5, 240, 1);
    assert(pow(5, 241) == 2829899712133347614846599778402434931463290999418480684244567153104844162060264098356103578737799406079360137280274321767463354022897892292576216277666389942169189453125int);
    lemma_pow2_adds(558, 2);
    assert(pow2(560) == 0x100000000000000000000000000000000000000000000000000000000000000000000000000000000000000000000000000000000000000000000000000000000000000000000int);
    lemma_pow_adds(5, 241, 1);
    assert(pow(5, 242) == 14149498560666738074232998892012174657316454997092403421222835765524220810301320491780517893688997030396800686401371608837316770114489461462881081388331949710845947265625int);
    lemma_pow2_adds(560, 2);
    assert(pow2(562) == 0x400000000000000000000000000000000000000000000000000000000000000000000000000000000000000000000000000000000000000000000000000000000000000000000int);
    lemma_pow_adds(5, 242, 1);
    assert(pow(5, 243) == 70747492803333690371164994460060873286582274985462017106114178827621104051506602458902589468444985151984003432006858044186583850572447307314405406941659748554229736328125int);
    lemma_pow2_adds(562, 3);
    assert(pow2(565) == 0x2000000000000000000000000000000000000000000000000000000000000000000000000000000000000000000000000000000000000000000000000000000000000000000000int);
    lemma_pow_adds(5, 243, 1);
    assert(pow(5, 244) == 353737464016668451855824972300304366432911374927310085530570894138105520257533012294512947342224925759920017160034290220932919252862236536572027034708298742771148681640625int);
    lemma_pow2_adds(565, 2);
    assert(pow2(567) == 0x8000000000000000000000000000000000000000000000000000000000000000000000000000000000000000000000000000000000000000000000000000000000000000000000int);
    lemma_pow_adds(5, 244, 1);
    assert(pow(5, 245) == 1768687320083342259279124861501521832164556874636550427652854470690527601287665061472564736711124628799600085800171451104664596264311182682860135173541493713855743408203125int);
    lemma_pow2_adds(567, 2);
    assert(pow2(569) == 0x20000000000000000000000000000000000000000000000000000000000000000000000000000000000000000000000000000000000000000000000000000000000000000000000int);
    lemma_pow_adds(5, 245, 1);
    assert(pow(5, 246) == 8843436600416711296395624307507609160822784373182752138264272353452638006438325307362823683555623143998000429000857255523322981321555913414300675867707468569278717041015625int);
    lemma_pow2_adds(569, 3);
    assert(pow2(572) == 0x100000000000000000000000000000000000000000000000000000000000000000000000000000000000000000000000000000000000000000000000000000000000000000000000int);
    lemma_pow_adds(5, 246, 1);
    assert(pow(5, 247) == 44217183002083556481978121537538045804113921865913760691321361767263190032191626536814118417778115719990002145004286277616614906607779567071503379338537342846393585205078125int);
    lemma_pow2_adds(572, 2);
    assert(pow2(574) == 0x400000000000000000000000000000000000000000000000000000000000000000000000000000000000000000000000000000000000000000000000000000000000000000000000int);
    lemma_pow_adds(5, 247, 1);
    assert(pow(5, 248) == 221085915010417782409890607687690229020569609329568803456606808836315950160958132684070592088890578599950010725021431388083074533038897835357516896692686714231967926025390625int);
    lemma_pow2_adds(574, 2);
    assert(pow2(576) == 0x1000000000000000000000000000000000000000000000000000000000000000000000000000000000000000000000000000000000000000000000000000000000000000000000000int);
    lemma_pow_adds(5, 248, 1);
    assert(pow(5, 249) == 1105429575052088912049453038438451145102848046647844017283034044181579750804790663420352960444452892999750053625107156940415372665194489176787584483463433571159839630126953125int);
    lemma_pow2_adds(576, 3);
    assert(pow2(579) == 0x8000000000000000000000000000000000000000000000000000000000000000000000000000000000000000000000000000000000000000000000000000000000000000000000000int);
    lemma_pow_adds(5, 249, 1);
    assert(pow(5, 250) == 5527147875260444560247265192192255725514240233239220086415170220907898754023953317101764802222264464998750268125535784702076863325972445883937922417317167855799198150634765625int);
    lemma_pow2_adds(579, 2);
    assert(pow2(581) == 0x20000000000000000000000000000000000000000000000000000000000000000000000000000000000000000000000000000000000000000000000000000000000000000000000000int);
    lemma_pow_adds(5, 250, 1);
    assert(pow(5, 251) == 27635739376302222801236325960961278627571201166196100432075851104539493770119766585508824011111322324993751340627678923510384316629862229419689612086585839278995990753173828125int);
    lemma_pow2_adds(581, 2);
    assert(pow2(583) == 0x80000000000000000000000000000000000000000000000000000000000000000000000000000000000000000000000000000000000000000000000000000000000000000000000000int);
    lemma_pow_adds(5, 251, 1);
    assert(pow(5, 252) == 138178696881511114006181629804806393137856005830980502160379255522697468850598832927544120055556611624968756703138394617551921583149311147098448060432929196394979953765869140625int);
    lemma_pow2_adds(583, 3);
    assert(pow2(586) == 0x400000000000000000000000000000000000000000000000000000000000000000000000000000000000000000000000000000000000000000000000000000000000000000000000000int);
    lemma_pow_adds(5, 252, 1);
    assert(pow(5, 253) == 690893484407555570030908149024031965689280029154902510801896277613487344252994164637720600277783058124843783515691973087759607915746555735492240302164645981974899768829345703125int);
    lemma_pow2_adds(586, 2);
    assert(pow2(588) == 0x1000000000000000000000000000000000000000000000000000000000000000000000000000000000000000000000000000000000000000000000000000000000000000000000000000int);
    lemma_pow_adds(5, 253, 1);
    assert(pow(5, 254) == 3454467422037777850154540745120159828446400145774512554009481388067436721264970823188603001388915290624218917578459865438798039578732778677461201510823229909874498844146728515625int);
    lemma_pow2_adds(588, 2);
    assert(pow2(590) == 0x4000000000000000000000000000000000000000000000000000000000000000000000000000000000000000000000000000000000000000000000000000000000000000000000000000int);
    lemma_pow_adds(5, 254, 1);
    assert(pow(5, 255) == 17272337110188889250772703725600799142232000728872562770047406940337183606324854115943015006944576453121094587892299327193990197893663893387306007554116149549372494220733642578125int);
    lemma_pow2_adds(590, 3);
    assert(pow2(593) == 0x20000000000000000000000000000000000000000000000000000000000000000000000000000000000000000000000000000000000000000000000000000000000000000000000000000int);
    reveal(spec_pow5bits);
    if i == 240 {
        assert(spec_pow5bits(240) == 558);
        lemma_pow2_adds(558, 124);
        assert(wide(DOUBLE_POW5_INV_SPLIT[240]) == 35453245841927124566985666707751764301int);
        assert(wide(DOUBLE_POW5_SPLIT[240]) == 25516019074809772890907399206668148197int);
    } else if i == 241 {
        assert(spec_pow5bits(241) == 560);
        lemma_pow2_adds(560, 124);
        assert(wide(DOUBLE_POW5_INV_SPLIT[241]) == 28362596673541699653588533366201411441int);
        assert(wide(DOUBLE_POW5_SPLIT[241]) == 31895023843512216113634249008335185246int);
    } else if i == 242 {
        assert(spec_pow5bits(242) == 562);
        lemma_pow2_adds(562, 124);
        assert(wide(DOUBLE_POW5_INV_SPLIT[242]) == 22690077338833359722870826692961129153int);
        assert(wide(DOUBLE_POW5_SPLIT[242]) == 39868779804390270142042811260418981558int);
    } else if i == 243 {
        assert(spec_pow5bits(243) == 565);
        lemma_pow2_adds(565, 124);
        assert(wide(DOUBLE_POW5_INV_SPLIT[243]) == 36304123742133375556593322708737806644int);
        assert(wide(DOUBLE_POW5_SPLIT[243]) == 24917987377743918838776757037761863473int);
    } else if i == 244 {
        assert(spec_pow5bits(244) == 567);
        lemma_pow2_adds(567, 124);
        assert(wide(DOUBLE_POW5_INV_SPLIT[244]) == 29043298993706700445274658166990245316int);
        assert(wide(DOUBLE_POW5_SPLIT[244]) == 31147484222179898548470946297202329342int);
    } else if i == 245 {
        assert(spec_pow5bits(245) == 569);
        lemma_pow2_adds(569, 124);
        assert(wide(DOUBLE_POW5_INV_SPLIT[245]) == 23234639194965360356219726533592196253int);
        assert(wide(DOUBLE_POW5_SPLIT[245]) == 38934355277724873185588682871502911677int);
    } else if i == 246 {
        assert(spec_pow5bits(246) == 572);
        lemma_pow2_adds(572, 124);
        assert(wide(DOUBLE_POW5_INV_SPLIT[246]) == 37175422711944576569951562453747514004int);
        assert(wide(DOUBLE_POW5_SPLIT[246]) == 24333972048578045740992926794689319798int);
    } else if i == 247 {
        assert(spec_pow5bits(247) == 574);
        lemma_pow2_adds(574, 124);
        assert(wide(DOUBLE_POW5_INV_SPLIT[247]) == 29740338169555661255961249962998011203int);
        assert(wide(DOUBLE_POW5_SPLIT[247]) == 30417465060722557176241158493361649748int);
    } else if i == 248 {
        assert(spec_pow5bits(248) == 576);
        lemma_pow2_adds(576, 124);
        assert(wide(DOUBLE_POW5_INV_SPLIT[248]) == 23792270535644529004768999970398408963int);
        assert(wide(DOUBLE_POW5_SPLIT[248]) == 38021831325903196470301448116702062185int);
    } else if i == 249 {
        assert(spec_pow5bits(249) == 579);
        lemma_pow2_adds(579, 124);
        assert(wide(DOUBLE_POW5_INV_SPLIT[249]) == 38067632857031246407630399952637454340int);
        assert(wide(DOUBLE_POW5_SPLIT[249]) == 23763644578689497793938405072938788865int);
    } else if i == 250 {
        assert(spec_pow5bits(250) == 581);
        lemma_pow2_adds(581, 124);
        assert(wide(DOUBLE_POW5_INV_SPLIT[250]) == 30454106285624997126104319962109963472int);
        assert(wide(DOUBLE_POW5_SPLIT[250]) == 29704555723361872242423006341173486082int);
    } else if i == 251 {
        assert(spec_pow5bits(251) == 583);
        lemma_pow2_adds(583, 124);
        assert(wide(DOUBLE_POW5_INV_SPLIT[251]) == 24363285028499997700883455969687970778int);
        assert(wide(DOUBLE_POW5_SPLIT[251]) == 37130694654202340303028757926466857602int);
    } else if i == 252 {
        assert(spec_pow5bits(252) == 586);
        lemma_pow2_adds(586, 124);
        assert(wide(DOUBLE_POW5_INV_SPLIT[252]) == 38981256045599996321413529551500753244int);
        assert(wide(DOUBLE_POW5_SPLIT[252]) == 23206684158876462689392973704041786001int);
    } else if i == 253 {
        assert(spec_pow5bits(253) == 588);
        lemma_pow2_adds(588, 124);
        assert(wide(DOUBLE_POW5_INV_SPLIT[253]) == 31185004836479997057130823641200602595int);
        assert(wide(DOUBLE_POW5_SPLIT[253]) == 29008355198595578361741217130052232502int);
    } else if i == 254 {
        assert(spec_pow5bits(254) == 590);
        lemma_pow2_adds(590, 124);
        assert(wide(DOUBLE_POW5_INV_SPLIT[254]) == 24948003869183997645704658912960482076int);
        assert(wide(DOUBLE_POW5_SPLIT[254]) == 36260443998244472952176521412565290627int);
    } else if i == 255 {
        assert(spec_pow5bits(255) == 593);
        lemma_pow2_adds(593, 124);
        assert(wide(DOUBLE_POW5_INV_SPLIT[255]) == 39916806190694396233127454260736771322int);
        assert(wide(DOUBLE_POW5_SPLIT[255]) == 22662777498902795595110325882853306642int);
    }
}

proof fn lemma_entries_16(i: int)
    requires
        256 <= i < 272,
    ensures
        pow(5, 271) == 2635549485807630806087143512817504751927490345592126887519440756277036072742439898062593842612392647265792020857589619017637664473520491544693909844072898795985793185536749660968780517578125int,
        pow2(630) == 0x40000000000000000000000000000000000000000000000000000000000000000000000000000000000000000000000000000000000000000000000000000000000000000000000000000000000000int,
        is_pow5_inv_entry(i as nat, wide(DOUBLE_POW5_INV_SPLIT[i])),
        i < 326 ==> is_pow5_entry(i as nat, wide(DOUBLE_POW5_SPLIT[i])),
{
    lemma2_to64();
    lemma2_to64_rest();
    lemma_pow1(5);
    lemma_pow2_adds(64, 60);
    lemma_pow2_adds(64, 61);
    assert(pow2(124) == 0x10000000000000000000000000000000int);
    assert(pow2(125) == 0x20000000000000000000000000000000int);
    lemma_entries_15(255);
    lemma_pow_adds(5, 255, 1);
    assert(pow(5, 256) == 86361685550944446253863518628003995711160003644362813850237034701685918031624270579715075034722882265605472939461496635969950989468319466936530037770580747746862471103668212890625int);
    lemma_pow2_adds(593, 2);
    assert(pow2(595) == 0x80000000000000000000000000000000000000000000000000000000000000000000000000000000000000000000000000000000000000000000000000000000000000000000000000000int);
    lemma_pow_adds(5, 256, 1);
    assert(pow(5, 257) == 431808427754722231269317593140019978555800018221814069251185173508429590158121352898575375173614411328027364697307483179849754947341597334682650188852903738734312355518341064453125int);
    lemma_pow2_adds(595, 2);
    assert(pow2(597) == 0x200000000000000000000000000000000000000000000000000000000000000000000000000000000000000000000000000000000000000000000000000000000000000000000000000000int);
    lemma_pow_adds(5, 257, 1);
    assert(pow(5, 258) == 2159042138773611156346587965700099892779000091109070346255925867542147950790606764492876875868072056640136823486537415899248774736707986673413250944264518693671561777591705322265625int);
    lemma_pow2_adds(597, 3);
    assert(pow2(600) == 0x1000000000000000000000000000000000000000000000000000000000000000000000000000000000000000000000000000000000000000000000000000000000000000000000000000000int);
    lemma_pow_adds(5, 258, 1);
    assert(pow(5, 259) == 10795210693868055781732939828500499463895000455545351731279629337710739753953033822464384379340360283200684117432687079496243873683539933367066254721322593468357808887958526611328125int);
    lemma_pow2_adds(600, 2);
    assert(pow2(602) == 0x4000000000000000000000000000000000000000000000000000000000000000000000000000000000000000000000000000000000000000000000000000000000000000000000000000000int);
    lemma_pow_adds(5, 259, 1);
    assert(pow(5, 260) == 53976053469340278908664699142502497319475002277726758656398146688553698769765169112321921896701801416003420587163435397481219368417699666835331273606612967341789044439792633056640625int);
    lemma_pow2_adds(602, 2);
    assert(pow2(604) == 0x10000000000000000000000000000000000000000000000000000000000000000000000000000000000000000000000000000000000000000000000000000000000000000000000000000000int);
    lemma_pow_adds(5, 260, 1);
    assert(pow(5, 261) == 269880267346701394543323495712512486597375011388633793281990733442768493848825845561609609483509007080017102935817176987406096842088498334176656368033064836708945222198963165283203125int);
    lemma_pow2_adds(604, 3);
    assert(pow2(607) == 0x80000000000000000000000000000000000000000000000000000000000000000000000000000000000000000000000000000000000000000000000000000000000000000000000000000000int);
    lemma_pow_adds(5, 261, 1);
    assert(pow(5, 262) == 1349401336733506972716617478562562432986875056943168966409953667213842469244129227808048047417545035400085514679085884937030484210442491670883281840165324183544726110994815826416015625int);
    lemma_pow2_adds(607, 2);
    assert(pow2(609) == 0x200000000000000000000000000000000000000000000000000000000000000000000000000000000000000000000000000000000000000000000000000000000000000000000000000000000int);
    lemma_pow_adds(5, 262, 1);
    assert(pow(5, 263) == 6747006683667534863583087392812812164934375284715844832049768336069212346220646139040240237087725177000427573395429424685152421052212458354416409200826620917723630554974079132080078125int);
    lemma_pow2_adds(609, 2);
    assert(pow2(611) == 0x800000000000000000000000000000000000000000000000000000000000000000000000000000000000000000000000000000000000000000000000000000000000000000000000000000000int);
    lemma_pow_adds(5, 263, 1);
    assert(pow(5, 264) == 33735033418337674317915436964064060824671876423579224160248841680346061731103230695201201185438625885002137866977147123425762105261062291772082046004133104588618152774870395660400390625int);
    lemma_pow2_adds(611, 2);
    assert(pow2(613) == 0x2000000000000000000000000000000000000000000000000000000000000000000000000000000000000000000000000000000000000000000000000000000000000000000000000000000000int);
    lemma_pow_adds(5, 264, 1);
    assert(pow(5, 265) == 168675167091688371589577184820320304123359382117896120801244208401730308655516153476006005927193129425010689334885735617128810526305311458860410230020665522943090763874351978302001953125int);
    lemma_pow2_adds(613, 3);
    assert(pow2(616) == 0x10000000000000000000000000000000000000000000000000000000000000000000000000000000000000000000000000000000000000000000000000000000000000000000000000000000000int);
    lemma_pow_adds(5, 265, 1);
    assert(pow(5, 266) == 843375835458441857947885924101601520616796910589480604006221042008651543277580767380030029635965647125053446674428678085644052631526557294302051150103327614715453819371759891510009765625int);
    lemma_pow2_adds(616, 2);
    assert(pow2(618) == 0x40000000000000000000000000000000000000000000000000000000000000000000000000000000000000000000000000000000000000000000000000000000000000000000000000000000000int);
    lemma_pow_adds(5, 266, 1);
    assert(pow(5, 267) == 4216879177292209289739429620508007603083984552947403020031105210043257716387903836900150148179828235625267233372143390428220263157632786471510255750516638073577269096858799457550048828125int);
    lemma_pow2_adds(618, 2);
    assert(pow2(620) == 0x100000000000000000000000000000000000000000000000000000000000000000000000000000000000000000000000000000000000000000000000000000000000000000000000000000000000int);
    lemma_pow_adds(5, 267, 1);
    assert(pow(5, 268) == 21084395886461046448697148102540038015419922764737015100155526050216288581939519184500750740899141178126336166860716952141101315788163932357551278752583190367886345484293997287750244140625int);
    lemma_pow2_adds(620, 3);
    assert(pow2(623) == 0x800000000000000000000000000000000000000000000000000000000000000000000000000000000000000000000000000000000000000000000000000000000000000000000000000000000000int);
    lemma_pow_adds(5, 268, 1);
    assert(pow(5, 269) == 105421979432305232243485740512700190077099613823685075500777630251081442909697595922503753704495705890631680834303584760705506578940819661787756393762915951839431727421469986438751220703125int);
    lemma_pow2_adds(623, 2);
    assert(pow2(625) == 0x2000000000000000000000000000000000000000000000000000000000000000000000000000000000000000000000000000000000000000000000000000000000000000000000000000000000000int);
    lemma_pow_adds(5, 269, 1);
    assert(pow(5, 270) == 527109897161526161217428702563500950385498069118425377503888151255407214548487979612518768522478529453158404171517923803527532894704098308938781968814579759197158637107349932193756103515625int);
    lemma_pow2_adds(625, 2);
    assert(pow2(627) == 0x8000000000000000000000000000000000000000000000000000000000000000000000000000000000000000000000000000000000000000000000000000000000000000000000000000000000000int);
    lemma_pow_adds(5, 270, 1);
    assert(pow(5, 271) == 2635549485807630806087143512817504751927490345592126887519440756277036072742439898062593842612392647265792020857589619017637664473520491544693909844072898795985793185536749660968780517578125int);
    lemma_pow2_adds(627, 3);
    assert(pow2(630) == 0x40000000000000000000000000000000000000000000000000000000000000000000000000000000000000000000000000000000000000000000000000000000000000000000000000000000000000int);
    reveal(spec_pow5bits);
    if i == 256 {
        assert(spec_pow5bits(256) == 595);
        lemma_pow2_adds(595, 124);
        assert(wide(DOUBLE_POW5_INV_SPLIT[256]) == 31933444952555516986501963408589417058int);
        assert(wide(DOUBLE_POW5_SPLIT[256]) == 28328471873628494493887907353566633302int);
    } else if i == 257 {
        assert(spec_pow5bits(257) == 597);
        lemma_pow2_adds(597, 124);
        assert(wide(DOUBLE_POW5_INV_SPLIT[257]) == 25546755962044413589201570726871533646int);
        assert(wide(DOUBLE_POW5_SPLIT[257]) == 35410589842035618117359884191958291628int);
    } else if i == 258 {
        assert(spec_pow5bits(258) == 600);
        lemma_pow2_adds(600, 124);
        assert(wide(DOUBLE_POW5_INV_SPLIT[258]) == 40874809539271061742722513162994453834int);
        assert(wide(DOUBLE_POW5_SPLIT[258]) == 22131618651272261323349927619973932267int);
    } else if i == 259 {
        assert(spec_pow5bits(259) == 602);
        lemma_pow2_adds(602, 124);
        assert(wide(DOUBLE_POW5_INV_SPLIT[259]) == 32699847631416849394178010530395563067int);
        assert(wide(DOUBLE_POW5_SPLIT[259]) == 27664523314090326654187409524967415334int);
    } else if i == 260 {
        assert(spec_pow5bits(260) == 604);
        lemma_pow2_adds(604, 124);
        assert(wide(DOUBLE_POW5_INV_SPLIT[260]) == 26159878105133479515342408424316450454int);
        assert(wide(DOUBLE_POW5_SPLIT[260]) == 34580654142612908317734261906209269168int);
    } else if i == 261 {
        assert(spec_pow5bits(261) == 607);
        lemma_pow2_adds(607, 124);
        assert(wide(DOUBLE_POW5_INV_SPLIT[261]) == 41855804968213567224547853478906320726int);
        assert(wide(DOUBLE_POW5_SPLIT[261]) == 21612908839133067698583913691380793230int);
    } else if i == 262 {
        assert(spec_pow5bits(262) == 609);
        lemma_pow2_adds(609, 124);
        assert(wide(DOUBLE_POW5_INV_SPLIT[262]) == 33484643974570853779638282783125056581int);
        assert(wide(DOUBLE_POW5_SPLIT[262]) == 27016136048916334623229892114225991537int);
    } else if i == 263 {
        assert(spec_pow5bits(263) == 611);
        lemma_pow2_adds(611, 124);
        assert(wide(DOUBLE_POW5_INV_SPLIT[263]) == 26787715179656683023710626226500045265int);
        assert(wide(DOUBLE_POW5_SPLIT[263]) == 33770170061145418279037365142782489422int);
    } else if i == 264 {
        assert(spec_pow5bits(264) == 613);
        lemma_pow2_adds(613, 124);
        assert(wide(DOUBLE_POW5_INV_SPLIT[264]) == 21430172143725346418968500981200036212int);
        assert(wide(DOUBLE_POW5_SPLIT[264]) == 42212712576431772848796706428478111778int);
    } else if i == 265 {
        assert(spec_pow5bits(265) == 616);
        lemma_pow2_adds(616, 124);
        assert(wide(DOUBLE_POW5_INV_SPLIT[265]) == 34288275429960554270349601569920057938int);
        assert(wide(DOUBLE_POW5_SPLIT[265]) == 26382945360269858030497941517798819861int);
    } else if i == 266 {
        assert(spec_pow5bits(266) == 618);
        lemma_pow2_adds(618, 124);
        assert(wide(DOUBLE_POW5_INV_SPLIT[266]) == 27430620343968443416279681255936046351int);
        assert(wide(DOUBLE_POW5_SPLIT[266]) == 32978681700337322538122426897248524826int);
    } else if i == 267 {
        assert(spec_pow5bits(267) == 620);
        lemma_pow2_adds(620, 124);
        assert(wide(DOUBLE_POW5_INV_SPLIT[267]) == 21944496275174754733023745004748837081int);
        assert(wide(DOUBLE_POW5_SPLIT[267]) == 41223352125421653172653033621560656033int);
    } else if i == 268 {
        assert(spec_pow5bits(268) == 623);
        lemma_pow2_adds(623, 124);
        assert(wide(DOUBLE_POW5_INV_SPLIT[268]) == 35111194040279607572837992007598139329int);
        assert(wide(DOUBLE_POW5_SPLIT[268]) == 25764595078388533232908146013475410020int);
    } else if i == 269 {
        assert(spec_pow5bits(269) == 625);
        lemma_pow2_adds(625, 124);
        assert(wide(DOUBLE_POW5_INV_SPLIT[269]) == 28088955232223686058270393606078511463int);
        assert(wide(DOUBLE_POW5_SPLIT[269]) == 32205743847985666541135182516844262526int);
    } else if i == 270 {
        assert(spec_pow5bits(270) == 627);
        lemma_pow2_adds(627, 124);
        assert(wide(DOUBLE_POW5_INV_SPLIT[270]) == 22471164185778948846616314884862809171int);
        assert(wide(DOUBLE_POW5_SPLIT[270]) == 40257179809982083176418978146055328157int);
    } else if i == 271 {
        assert(spec_pow5bits(271) == 630);
        lemma_pow2_adds(630, 124);
        assert(wide(DOUBLE_POW5_INV_SPLIT[271]) == 35953862697246318154586103815780494673int);
        assert(wide(DOUBLE_POW5_SPLIT[271]) == 25160737381238801985261861341284580098int);
    }
}

proof fn lemma_entries_17(i: int)
    requires
        272 <= i < 288,
    ensures
        pow(5, 287) == 402152936677189759229605638552475700672529654783954908373938103679967662466802962961211218660338233530546878182615603487798715892565992972517991614391006286008574399648551889185910113155841827392578125int,
        pow2(667) == 0x80000000000000000000000000000000000000000000000000000000000000000000000000000000000000000000000000000000000000000000000000000000000000000000000000000000000000000000000int,
        is_pow5_inv_entry(i as nat, wide(DOUBLE_POW5_INV_SPLIT[i])),
        i < 326 ==> is_pow5_entry(i as nat, wide(DOUBLE_POW5_SPLIT[i])),
{
    lemma2_to64();
    lemma2_to64_rest();
    lemma_pow1(5);
    lemma_pow2_adds(64, 60);
    lemma_pow2_adds(64, 61);
    assert(pow2(124) == 0x10000000000000000000000000000000int);
    assert(pow2(125) == 0x20000000000000000000000000000000int);
    lemma_entries_16(271);
    lemma_pow_adds(5, 271, 1);
    assert(pow(5, 272) == 13177747429038154030435717564087523759637451727960634437597203781385180363712199490312969213061963236328960104287948095088188322367602457723469549220364493979928965927683748304843902587890625int);
    lemma_pow2_adds(630, 2);
    assert(pow2(632) == 0x100000000000000000000000000000000000000000000000000000000000000000000000000000000000000000000000000000000000000000000000000000000000000000000000000000000000000int);
    lemma_pow_adds(5, 272, 1);
    assert(pow(5, 273) == 65888737145190770152178587820437618798187258639803172187986018906925901818560997451564846065309816181644800521439740475440941611838012288617347746101822469899644829638418741524219512939453125int);
    lemma_pow2_adds(632, 2);
    assert(pow2(634) == 0x400000000000000000000000000000000000000000000000000000000000000000000000000000000000000000000000000000000000000000000000000000000000000000000000000000000000000int);
    lemma_pow_adds(5, 273, 1);
    assert(pow(5, 274) == 329443685725953850760892939102188093990936293199015860939930094534629509092804987257824230326549080908224002607198702377204708059190061443086738730509112349498224148192093707621097564697265625int);
    lemma_pow2_adds(634, 3);
    assert(pow2(637) == 0x2000000000000000000000000000000000000000000000000000000000000000000000000000000000000000000000000000000000000000000000000000000000000000000000000000000000000000int);
    lemma_pow_adds(5, 274, 1);
    assert(pow(5, 275) == 1647218428629769253804464695510940469954681465995079304699650472673147545464024936289121151632745404541120013035993511886023540295950307215433693652545561747491120740960468538105487823486328125int);
    lemma_pow2_adds(637, 2);
    assert(pow2(639) == 0x8000000000000000000000000000000000000000000000000000000000000000000000000000000000000000000000000000000000000000000000000000000000000000000000000000000000000000int);
    lemma_pow_adds(5, 275, 1);
    assert(pow(5, 276) == 8236092143148846269022323477554702349773407329975396523498252363365737727320124681445605758163727022705600065179967559430117701479751536077168468262727808737455603704802342690527439117431640625int);
    lemma_pow2_adds(639, 2);
    assert(pow2(641) == 0x20000000000000000000000000000000000000000000000000000000000000000000000000000000000000000000000000000000000000000000000000000000000000000000000000000000000000000int);
    lemma_pow_adds(5, 276, 1);
    assert(pow(5, 277) == 41180460715744231345111617387773511748867036649876982617491261816828688636600623407228028790818635113528000325899837797150588507398757680385842341313639043687278018524011713452637195587158203125int);
    lemma_pow2_adds(641, 3);
    assert(pow2(644) == 0x100000000000000000000000000000000000000000000000000000000000000000000000000000000000000000000000000000000000000000000000000000000000000000000000000000000000000000int);
    lemma_pow_adds(5, 277, 1);
    assert(pow(5, 278) == 205902303578721156725558086938867558744335183249384913087456309084143443183003117036140143954093175567640001629499188985752942536993788401929211706568195218436390092620058567263185977935791015625int);
    lemma_pow2_adds(644, 2);
    assert(pow2(646) == 0x400000000000000000000000000000000000000000000000000000000000000000000000000000000000000000000000000000000000000000000000000000000000000000000000000000000000000000int);
    lemma_pow_adds(5, 278, 1);
    assert(pow(5, 279) == 1029511517893605783627790434694337793721675916246924565437281545420717215915015585180700719770465877838200008147495944928764712684968942009646058532840976092181950463100292836315929889678955078125int);
    lemma_pow2_adds(646, 2);
    assert(pow2(648) == 0x1000000000000000000000000000000000000000000000000000000000000000000000000000000000000000000000000000000000000000000000000000000000000000000000000000000000000000000int);
    lemma_pow_adds(5, 279, 1);
    assert(pow(5, 280) == 5147557589468028918138952173471688968608379581234622827186407727103586079575077925903503598852329389191000040737479724643823563424844710048230292664204880460909752315501464181579649448394775390625int);
    lemma_pow2_adds(648, 3);
    assert(pow2(651) == 0x8000000000000000000000000000000000000000000000000000000000000000000000000000000000000000000000000000000000000000000000000000000000000000000000000000000000000000000int);
    lemma_pow_adds(5, 280, 1);
    assert(pow(5, 281) == 25737787947340144590694760867358444843041897906173114135932038635517930397875389629517517994261646945955000203687398623219117817124223550241151463321024402304548761577507320907898247241973876953125int);
    lemma_pow2_adds(651, 2);
    assert(pow2(653) == 0x20000000000000000000000000000000000000000000000000000000000000000000000000000000000000000000000000000000000000000000000000000000000000000000000000000000000000000000int);
    lemma_pow_adds(5, 281, 1);
    assert(pow(5, 282) == 128688939736700722953473804336792224215209489530865570679660193177589651989376948147587589971308234729775001018436993116095589085621117751205757316605122011522743807887536604539491236209869384765625int);
    lemma_pow2_adds(653, 2);
    assert(pow2(655) == 0x80000000000000000000000000000000000000000000000000000000000000000000000000000000000000000000000000000000000000000000000000000000000000000000000000000000000000000000int);
    lemma_pow_adds(5, 282, 1);
    assert(pow(5, 283) == 643444698683503614767369021683961121076047447654327853398300965887948259946884740737937949856541173648875005092184965580477945428105588756028786583025610057613719039437683022697456181049346923828125int);
    lemma_pow2_adds(655, 3);
    assert(pow2(658) == 0x400000000000000000000000000000000000000000000000000000000000000000000000000000000000000000000000000000000000000000000000000000000000000000000000000000000000000000000int);
    lemma_pow_adds(5, 283, 1);
    assert(pow(5, 284) == 3217223493417518073836845108419805605380237238271639266991504829439741299734423703689689749282705868244375025460924827902389727140527943780143932915128050288068595197188415113487280905246734619140625int);
    lemma_pow2_adds(658, 2);
    assert(pow2(660) == 0x1000000000000000000000000000000000000000000000000000000000000000000000000000000000000000000000000000000000000000000000000000000000000000000000000000000000000000000000int);
    lemma_pow_adds(5, 284, 1);
    assert(pow(5, 285) == 16086117467087590369184225542099028026901186191358196334957524147198706498672118518448448746413529341221875127304624139511948635702639718900719664575640251440342975985942075567436404526233673095703125int);
    lemma_pow2_adds(660, 2);
    assert(pow2(662) == 0x4000000000000000000000000000000000000000000000000000000000000000000000000000000000000000000000000000000000000000000000000000000000000000000000000000000000000000000000int);
    lemma_pow_adds(5, 285, 1);
    assert(pow(5, 286) == 80430587335437951845921127710495140134505930956790981674787620735993532493360592592242243732067646706109375636523120697559743178513198594503598322878201257201714879929710377837182022631168365478515625int);
    lemma_pow2_adds(662, 3);
    assert(pow2(665) == 0x20000000000000000000000000000000000000000000000000000000000000000000000000000000000000000000000000000000000000000000000000000000000000000000000000000000000000000000000int);
    lemma_pow_adds(5, 286, 1);
    assert(pow(5, 287) == 402152936677189759229605638552475700672529654783954908373938103679967662466802962961211218660338233530546878182615603487798715892565992972517991614391006286008574399648551889185910113155841827392578125int);
    lemma_pow2_adds(665, 2);
    assert(pow2(667) == 0x80000000000000000000000000000000000000000000000000000000000000000000000000000000000000000000000000000000000000000000000000000000000000000000000000000000000000000000000int);
    reveal(spec_pow5bits);
    if i == 272 {
        assert(spec_pow5bits(272) == 632);
        lemma_pow2_adds(632, 124);
        assert(wide(DOUBLE_POW5_INV_SPLIT[272]) == 28763090157797054523668883052624395738int);
        assert(wide(DOUBLE_POW5_SPLIT[272]) == 31450921726548502481577326676605725123int);
    } else if i == 273 {
        assert(spec_pow5bits(273) == 634);
        lemma_pow2_adds(634, 124);
        assert(wide(DOUBLE_POW5_INV_SPLIT[273]) == 23010472126237643618935106442099516591int);
        assert(wide(DOUBLE_POW5_SPLIT[273]) == 39313652158185628101971658345757156403int);
    } else if i == 274 {
        assert(spec_pow5bits(274) == 637);
        lemma_pow2_adds(637, 124);
        assert(wide(DOUBLE_POW5_INV_SPLIT[274]) == 36816755401980229790296170307359226545int);
        assert(wide(DOUBLE_POW5_SPLIT[274]) == 24571032598866017563732286466098222752int);
    } else if i == 275 {
        assert(spec_pow5bits(275) == 639);
        lemma_pow2_adds(639, 124);
        assert(wide(DOUBLE_POW5_INV_SPLIT[275]) == 29453404321584183832236936245887381236int);
        assert(wide(DOUBLE_POW5_SPLIT[275]) == 30713790748582521954665358082622778440int);
    } else if i == 276 {
        assert(spec_pow5bits(276) == 641);
        lemma_pow2_adds(641, 124);
        assert(wide(DOUBLE_POW5_INV_SPLIT[276]) == 23562723457267347065789548996709904989int);
        assert(wide(DOUBLE_POW5_SPLIT[276]) == 38392238435728152443331697603278473050int);
    } else if i == 277 {
        assert(spec_pow5bits(277) == 644);
        lemma_pow2_adds(644, 124);
        assert(wide(DOUBLE_POW5_INV_SPLIT[277]) == 37700357531627755305263278394735847982int);
        assert(wide(DOUBLE_POW5_SPLIT[277]) == 23995149022330095277082311002049045656int);
    } else if i == 278 {
        assert(spec_pow5bits(278) == 646);
        lemma_pow2_adds(646, 124);
        assert(wide(DOUBLE_POW5_INV_SPLIT[278]) == 30160286025302204244210622715788678386int);
        assert(wide(DOUBLE_POW5_SPLIT[278]) == 29993936277912619096352888752561307070int);
    } else if i == 279 {
        assert(spec_pow5bits(279) == 648);
        lemma_pow2_adds(648, 124);
        assert(wide(DOUBLE_POW5_INV_SPLIT[279]) == 24128228820241763395368498172630942709int);
        assert(wide(DOUBLE_POW5_SPLIT[279]) == 37492420347390773870441110940701633838int);
    } else if i == 280 {
        assert(spec_pow5bits(280) == 651);
        lemma_pow2_adds(651, 124);
        assert(wide(DOUBLE_POW5_INV_SPLIT[280]) == 38605166112386821432589597076209508334int);
        assert(wide(DOUBLE_POW5_SPLIT[280]) == 23432762717119233669025694337938521149int);
    } else if i == 281 {
        assert(spec_pow5bits(281) == 653);
        lemma_pow2_adds(653, 124);
        assert(wide(DOUBLE_POW5_INV_SPLIT[281]) == 30884132889909457146071677660967606667int);
        assert(wide(DOUBLE_POW5_SPLIT[281]) == 29290953396399042086282117922423151436int);
    } else if i == 282 {
        assert(spec_pow5bits(282) == 655);
        lemma_pow2_adds(655, 124);
        assert(wide(DOUBLE_POW5_INV_SPLIT[282]) == 24707306311927565716857342128774085334int);
        assert(wide(DOUBLE_POW5_SPLIT[282]) == 36613691745498802607852647403028939295int);
    } else if i == 283 {
        assert(spec_pow5bits(283) == 658);
        lemma_pow2_adds(658, 124);
        assert(wide(DOUBLE_POW5_INV_SPLIT[283]) == 39531690099084105146971747406038536534int);
        assert(wide(DOUBLE_POW5_SPLIT[283]) == 22883557340936751629907904626893087059int);
    } else if i == 284 {
        assert(spec_pow5bits(284) == 660);
        lemma_pow2_adds(660, 124);
        assert(wide(DOUBLE_POW5_INV_SPLIT[284]) == 31625352079267284117577397924830829227int);
        assert(wide(DOUBLE_POW5_SPLIT[284]) == 28604446676170939537384880783616358824int);
    } else if i == 285 {
        assert(spec_pow5bits(285) == 662);
        lemma_pow2_adds(662, 124);
        assert(wide(DOUBLE_POW5_INV_SPLIT[285]) == 25300281663413827294061918339864663382int);
        assert(wide(DOUBLE_POW5_SPLIT[285]) == 35755558345213674421731100979520448530int);
    } else if i == 286 {
        assert(spec_pow5bits(286) == 665);
        lemma_pow2_adds(665, 124);
        assert(wide(DOUBLE_POW5_INV_SPLIT[286]) == 40480450661462123670499069343783461410int);
        assert(wide(DOUBLE_POW5_SPLIT[286]) == 22347223965758546513581938112200280331int);
    } else if i == 287 {
        assert(spec_pow5bits(287) == 667);
        lemma_pow2_adds(667, 124);
        assert(wide(DOUBLE_POW5_INV_SPLIT[287]) == 32384360529169698936399255475026769128int);
        assert(wide(DOUBLE_POW5_SPLIT[287]) == 27934029957198183141977422640250350414int);
    }
}

proof fn lemma_entries_18(i: int)
    requires
        288 <= i < 304,
    ensures
        pow(5, 303) == 61363668316221581913697149437328445537190193906243119563894363964838815684021448205751223550466649403464794644564148481414598982630308986285093935301362043153163818305748274106736772637304966337978839874267578125int,
        pow2(704) == 0x100000000000000000000000000000000000000000000000000000000000000000000000000000000000000000000000000000000000000000000000000000000000000000000000000000000000000000000000000000000int,
        is_pow5_inv_entry(i as nat, wide(DOUBLE_POW5_INV_SPLIT[i])),
        i < 326 ==> is_pow5_entry(i as nat, wide(DOUBLE_POW5_SPLIT[i])),
{
    lemma2_to64();
    lemma2_to64_rest();
    lemma_pow1(5);
    lemma_pow2_adds(64, 60);
    lemma_pow2_adds(64, 61);
    assert(pow2(124) == 0x10000000000000000000000000000000int);
    assert(pow2(125) == 0x20000000000000000000000000000000int);
    lemma_entries_17(287);
    lemma_pow_adds(5, 287, 1);
    assert(pow(5, 288) == 2010764683385948796148028192762378503362648273919774541869690518399838312334014814806056093301691167652734390913078017438993579462829964862589958071955031430042871998242759445929550565779209136962890625int);
    lemma_pow2_adds(667, 2);
    assert(pow2(669) == 0x200000000000000000000000000000000000000000000000000000000000000000000000000000000000000000000000000000000000000000000000000000000000000000000000000000000000000000000000int);
    lemma_pow_adds(5, 288, 1);
    assert(pow(5, 289) == 10053823416929743980740140963811892516813241369598872709348452591999191561670074074030280466508455838263671954565390087194967897314149824312949790359775157150214359991213797229647752828896045684814453125int);
    lemma_pow2_adds(669, 3);
    assert(pow2(672) == 0x1000000000000000000000000000000000000000000000000000000000000000000000000000000000000000000000000000000000000000000000000000000000000000000000000000000000000000000000000int);
    lemma_pow_adds(5, 289, 1);
    assert(pow(5, 290) == 50269117084648719903700704819059462584066206847994363546742262959995957808350370370151402332542279191318359772826950435974839486570749121564748951798875785751071799956068986148238764144480228424072265625int);
    lemma_pow2_adds(672, 2);
    assert(pow2(674) == 0x4000000000000000000000000000000000000000000000000000000000000000000000000000000000000000000000000000000000000000000000000000000000000000000000000000000000000000000000000int);
    lemma_pow_adds(5, 290, 1);
    assert(pow(5, 291) == 251345585423243599518503524095297312920331034239971817733711314799979789041751851850757011662711395956591798864134752179874197432853745607823744758994378928755358999780344930741193820722401142120361328125int);
    lemma_pow2_adds(674, 2);
    assert(pow2(676) == 0x10000000000000000000000000000000000000000000000000000000000000000000000000000000000000000000000000000000000000000000000000000000000000000000000000000000000000000000000000int);
    lemma_pow_adds(5, 291, 1);
    assert(pow(5, 292) == 1256727927116217997592517620476486564601655171199859088668556573999898945208759259253785058313556979782958994320673760899370987164268728039118723794971894643776794998901724653705969103612005710601806640625int);
    lemma_pow2_adds(676, 3);
    assert(pow2(679) == 0x80000000000000000000000000000000000000000000000000000000000000000000000000000000000000000000000000000000000000000000000000000000000000000000000000000000000000000000000000int);
    lemma_pow_adds(5, 292, 1);
    assert(pow(5, 293) == 6283639635581089987962588102382432823008275855999295443342782869999494726043796296268925291567784898914794971603368804496854935821343640195593618974859473218883974994508623268529845518060028553009033203125int);
    lemma_pow2_adds(679, 2);
    assert(pow2(681) == 0x200000000000000000000000000000000000000000000000000000000000000000000000000000000000000000000000000000000000000000000000000000000000000000000000000000000000000000000000000int);
    lemma_pow_adds(5, 293, 1);
    assert(pow(5, 294) == 31418198177905449939812940511912164115041379279996477216713914349997473630218981481344626457838924494573974858016844022484274679106718200977968094874297366094419874972543116342649227590300142765045166015625int);
    lemma_pow2_adds(681, 2);
    assert(pow2(683) == 0x800000000000000000000000000000000000000000000000000000000000000000000000000000000000000000000000000000000000000000000000000000000000000000000000000000000000000000000000000int);
    lemma_pow_adds(5, 294, 1);
    assert(pow(5, 295) == 157090990889527249699064702559560820575206896399982386083569571749987368151094907406723132289194622472869874290084220112421373395533591004889840474371486830472099374862715581713246137951500713825225830078125int);
    lemma_pow2_adds(683, 2);
    assert(pow2(685) == 0x2000000000000000000000000000000000000000000000000000000000000000000000000000000000000000000000000000000000000000000000000000000000000000000000000000000000000000000000000000int);
    lemma_pow_adds(5, 295, 1);
    assert(pow(5, 296) == 785454954447636248495323512797804102876034481999911930417847858749936840755474537033615661445973112364349371450421100562106866977667955024449202371857434152360496874313577908566230689757503569126129150390625int);
    lemma_pow2_adds(685, 3);
    assert(pow2(688) == 0x10000000000000000000000000000000000000000000000000000000000000000000000000000000000000000000000000000000000000000000000000000000000000000000000000000000000000000000000000000int);
    lemma_pow_adds(5, 296, 1);
    assert(pow(5, 297) == 3927274772238181242476617563989020514380172409999559652089239293749684203777372685168078307229865561821746857252105502810534334888339775122246011859287170761802484371567889542831153448787517845630645751953125int);
    lemma_pow2_adds(688, 2);
    assert(pow2(690) == 0x40000000000000000000000000000000000000000000000000000000000000000000000000000000000000000000000000000000000000000000000000000000000000000000000000000000000000000000000000000int);
    lemma_pow_adds(5, 297, 1);
    assert(pow(5, 298) == 19636373861190906212383087819945102571900862049997798260446196468748421018886863425840391536149327809108734286260527514052671674441698875611230059296435853809012421857839447714155767243937589228153228759765625int);
    lemma_pow2_adds(690, 2);
    assert(pow2(692) == 0x100000000000000000000000000000000000000000000000000000000000000000000000000000000000000000000000000000000000000000000000000000000000000000000000000000000000000000000000000000int);
    lemma_pow_adds(5, 298, 1);
    assert(pow(5, 299) == 98181869305954531061915439099725512859504310249988991302230982343742105094434317129201957680746639045543671431302637570263358372208494378056150296482179269045062109289197238570778836219687946140766143798828125int);
    lemma_pow2_adds(692, 3);
    assert(pow2(695) == 0x800000000000000000000000000000000000000000000000000000000000000000000000000000000000000000000000000000000000000000000000000000000000000000000000000000000000000000000000000000int);
    lemma_pow_adds(5, 299, 1);
    assert(pow(5, 300) == 490909346529772655309577195498627564297521551249944956511154911718710525472171585646009788403733195227718357156513187851316791861042471890280751482410896345225310546445986192853894181098439730703830718994140625int);
    lemma_pow2_adds(695, 2);
    assert(pow2(697) == 0x2000000000000000000000000000000000000000000000000000000000000000000000000000000000000000000000000000000000000000000000000000000000000000000000000000000000000000000000000000000int);
    lemma_pow_adds(5, 300, 1);
    assert(pow(5, 301) == 2454546732648863276547885977493137821487607756249724782555774558593552627360857928230048942018665976138591785782565939256583959305212359451403757412054481726126552732229930964269470905492198653519153594970703125int);
    lemma_pow2_adds(697, 2);
    assert(pow2(699) == 0x8000000000000000000000000000000000000000000000000000000000000000000000000000000000000000000000000000000000000000000000000000000000000000000000000000000000000000000000000000000int);
    lemma_pow_adds(5, 301, 1);
    assert(pow(5, 302) == 12272733663244316382739429887465689107438038781248623912778872792967763136804289641150244710093329880692958928912829696282919796526061797257018787060272408630632763661149654821347354527460993267595767974853515625int);
    lemma_pow2_adds(699, 3);
    assert(pow2(702) == 0x40000000000000000000000000000000000000000000000000000000000000000000000000000000000000000000000000000000000000000000000000000000000000000000000000000000000000000000000000000000int);
    lemma_pow_adds(5, 302, 1);
    assert(pow(5, 303) == 61363668316221581913697149437328445537190193906243119563894363964838815684021448205751223550466649403464794644564148481414598982630308986285093935301362043153163818305748274106736772637304966337978839874267578125int);
    lemma_pow2_adds(702, 2);
    assert(pow2(704) == 0x100000000000000000000000000000000000000000000000000000000000000000000000000000000000000000000000000000000000000000000000000000000000000000000000000000000000000000000000000000000int);
    reveal(spec_pow5bits);
    if i == 288 {
        assert(spec_pow5bits(288) == 669);
        lemma_pow2_adds(669, 124);
        assert(wide(DOUBLE_POW5_INV_SPLIT[288]) == 25907488423335759149119404380021415303int);
        assert(wide(DOUBLE_POW5_SPLIT[288]) == 34917537446497728927471778300312938018int);
    } else if i == 289 {
        assert(spec_pow5bits(289) == 672);
        lemma_pow2_adds(672, 124);
        assert(wide(DOUBLE_POW5_INV_SPLIT[289]) == 41451981477337214638591047008034264484int);
        assert(wide(DOUBLE_POW5_SPLIT[289]) == 21823460904061080579669861437695586261int);
    } else if i == 290 {
        assert(spec_pow5bits(290) == 674);
        lemma_pow2_adds(674, 124);
        assert(wide(DOUBLE_POW5_INV_SPLIT[290]) == 33161585181869771710872837606427411587int);
        assert(wide(DOUBLE_POW5_SPLIT[290]) == 27279326130076350724587326797119482826int);
    } else if i == 291 {
        assert(spec_pow5bits(291) == 676);
        lemma_pow2_adds(676, 124);
        assert(wide(DOUBLE_POW5_INV_SPLIT[291]) == 26529268145495817368698270085141929270int);
        assert(wide(DOUBLE_POW5_SPLIT[291]) == 34099157662595438405734158496399353533int);
    } else if i == 292 {
        assert(spec_pow5bits(292) == 679);
        lemma_pow2_adds(679, 124);
        assert(wide(DOUBLE_POW5_INV_SPLIT[292]) == 42446829032793307789917232136227086832int);
        assert(wide(DOUBLE_POW5_SPLIT[292]) == 21311973539122149003583849060249595958int);
    } else if i == 293 {
        assert(spec_pow5bits(293) == 681);
        lemma_pow2_adds(681, 124);
        assert(wide(DOUBLE_POW5_INV_SPLIT[293]) == 33957463226234646231933785708981669466int);
        assert(wide(DOUBLE_POW5_SPLIT[293]) == 26639966923902686254479811325311994947int);
    } else if i == 294 {
        assert(spec_pow5bits(294) == 683);
        lemma_pow2_adds(683, 124);
        assert(wide(DOUBLE_POW5_INV_SPLIT[294]) == 27165970580987716985547028567185335573int);
        assert(wide(DOUBLE_POW5_SPLIT[294]) == 33299958654878357818099764156639993684int);
    } else if i == 295 {
        assert(spec_pow5bits(295) == 685);
        lemma_pow2_adds(685, 124);
        assert(wide(DOUBLE_POW5_INV_SPLIT[295]) == 21732776464790173588437622853748268458int);
        assert(wide(DOUBLE_POW5_SPLIT[295]) == 41624948318597947272624705195799992106int);
    } else if i == 296 {
        assert(spec_pow5bits(296) == 688);
        lemma_pow2_adds(688, 124);
        assert(wide(DOUBLE_POW5_INV_SPLIT[296]) == 34772442343664277741500196565997229533int);
        assert(wide(DOUBLE_POW5_SPLIT[296]) == 26015592699123717045390440747374995066int);
    } else if i == 297 {
        assert(spec_pow5bits(297) == 690);
        lemma_pow2_adds(690, 124);
        assert(wide(DOUBLE_POW5_INV_SPLIT[297]) == 27817953874931422193200157252797783626int);
        assert(wide(DOUBLE_POW5_SPLIT[297]) == 32519490873904646306738050934218743833int);
    } else if i == 298 {
        assert(spec_pow5bits(298) == 692);
        lemma_pow2_adds(692, 124);
        assert(wide(DOUBLE_POW5_INV_SPLIT[298]) == 22254363099945137754560125802238226901int);
        assert(wide(DOUBLE_POW5_SPLIT[298]) == 40649363592380807883422563667773429791int);
    } else if i == 299 {
        assert(spec_pow5bits(299) == 695);
        lemma_pow2_adds(695, 124);
        assert(wide(DOUBLE_POW5_INV_SPLIT[299]) == 35606980959912220407296201283581163042int);
        assert(wide(DOUBLE_POW5_SPLIT[299]) == 25405852245238004927139102292358393619int);
    } else if i == 300 {
        assert(spec_pow5bits(300) == 697);
        lemma_pow2_adds(697, 124);
        assert(wide(DOUBLE_POW5_INV_SPLIT[300]) == 28485584767929776325836961026864930433int);
        assert(wide(DOUBLE_POW5_SPLIT[300]) == 31757315306547506158923877865447992024int);
    } else if i == 301 {
        assert(spec_pow5bits(301) == 699);
        lemma_pow2_adds(699, 124);
        assert(wide(DOUBLE_POW5_INV_SPLIT[301]) == 22788467814343821060669568821491944347int);
        assert(wide(DOUBLE_POW5_SPLIT[301]) == 39696644133184382698654847331809990030int);
    } else if i == 302 {
        assert(spec_pow5bits(302) == 702);
        lemma_pow2_adds(702, 124);
        assert(wide(DOUBLE_POW5_INV_SPLIT[302]) == 36461548502950113697071310114387110955int);
        assert(wide(DOUBLE_POW5_SPLIT[302]) == 24810402583240239186659279582381243769int);
    } else if i == 303 {
        assert(spec_pow5bits(303) == 704);
        lemma_pow2_adds(704, 124);
        assert(wide(DOUBLE_POW5_INV_SPLIT[303]) == 29169238802360090957657048091509688764int);
        assert(wide(DOUBLE_POW5_SPLIT[303]) == 31013003229050298983324099477976554711int);
    }
}

proof fn lemma_entries_19(i: int)
    requires
        304 <= i < 320,
    ensures
        pow(5, 319) == 9363352709384396654311698827717353139830046677588366632674310907720766553347999298973270195078529266886107581262840039278350674839829862409224538467615057854181490830344890458181270238846582998348822002299129962921142578125int,
        pow2(741) == 0x200000000000000000000000000000000000000000000000000000000000000000000000000000000000000000000000000000000000000000000000000000000000000000000000000000000000000000000000000000000000000000int,
        is_pow5_inv_entry(i as nat, wide(DOUBLE_POW5_INV_SPLIT[i])),
        i < 326 ==> is_pow5_entry(i as nat, wide(DOUBLE_POW5_SPLIT[i])),
{
    lemma2_to64();
    lemma2_to64_rest();
    lemma_pow1(5);
    lemma_pow2_adds(64, 60);
    lemma_pow2_adds(64, 61);
    assert(pow2(124) == 0x10000000000000000000000000000000int);
    assert(pow2(125) == 0x20000000000000000000000000000000int);
    lemma_entries_18(303);
    lemma_pow_adds(5, 303, 1);
    assert(pow(5, 304) == 306818341581107909568485747186642227685950969531215597819471819824194078420107241028756117752333247017323973222820742407072994913151544931425469676506810215765819091528741370533683863186524831689894199371337890625int);
    lemma_pow2_adds(704, 2);
    assert(pow2(706) == 0x400000000000000000000000000000000000000000000000000000000000000000000000000000000000000000000000000000000000000000000000000000000000000000000000000000000000000000000000000000000int);
    lemma_pow_adds(5, 304, 1);
    assert(pow(5, 305) == 1534091707905539547842428735933211138429754847656077989097359099120970392100536205143780588761666235086619866114103712035364974565757724657127348382534051078829095457643706852668419315932624158449470996856689453125int);
    lemma_pow2_adds(706, 3);
    assert(pow2(709) == 0x2000000000000000000000000000000000000000000000000000000000000000000000000000000000000000000000000000000000000000000000000000000000000000000000000000000000000000000000000000000000int);
    lemma_pow_adds(5, 305, 1);
    assert(pow(5, 306) == 7670458539527697739212143679666055692148774238280389945486795495604851960502681025718902943808331175433099330570518560176824872828788623285636741912670255394145477288218534263342096579663120792247354984283447265625int);
    lemma_pow2_adds(709, 2);
    assert(pow2(711) == 0x8000000000000000000000000000000000000000000000000000000000000000000000000000000000000000000000000000000000000000000000000000000000000000000000000000000000000000000000000000000000int);
    lemma_pow_adds(5, 306, 1);
    assert(pow(5, 307) == 38352292697638488696060718398330278460743871191401949727433977478024259802513405128594514719041655877165496652852592800884124364143943116428183709563351276970727386441092671316710482898315603961236774921417236328125int);
    lemma_pow2_adds(711, 2);
    assert(pow2(713) == 0x20000000000000000000000000000000000000000000000000000000000000000000000000000000000000000000000000000000000000000000000000000000000000000000000000000000000000000000000000000000000int);
    lemma_pow_adds(5, 307, 1);
    assert(pow(5, 308) == 191761463488192443480303591991651392303719355957009748637169887390121299012567025642972573595208279385827483264262964004420621820719715582140918547816756384853636932205463356583552414491578019806183874607086181640625int);
    lemma_pow2_adds(713, 3);
    assert(pow2(716) == 0x100000000000000000000000000000000000000000000000000000000000000000000000000000000000000000000000000000000000000000000000000000000000000000000000000000000000000000000000000000000000int);
    lemma_pow_adds(5, 308, 1);
    assert(pow(5, 309) == 958807317440962217401517959958256961518596779785048743185849436950606495062835128214862867976041396929137416321314820022103109103598577910704592739083781924268184661027316782917762072457890099030919373035430908203125int);
    lemma_pow2_adds(716, 2);
    assert(pow2(718) == 0x400000000000000000000000000000000000000000000000000000000000000000000000000000000000000000000000000000000000000000000000000000000000000000000000000000000000000000000000000000000000int);
    lemma_pow_adds(5, 309, 1);
    assert(pow(5, 310) == 4794036587204811087007589799791284807592983898925243715929247184753032475314175641074314339880206984645687081606574100110515545517992889553522963695418909621340923305136583914588810362289450495154596865177154541015625int);
    lemma_pow2_adds(718, 2);
    assert(pow2(720) == 0x1000000000000000000000000000000000000000000000000000000000000000000000000000000000000000000000000000000000000000000000000000000000000000000000000000000000000000000000000000000000000int);
    lemma_pow_adds(5, 310, 1);
    assert(pow(5, 311) == 23970182936024055435037948998956424037964919494626218579646235923765162376570878205371571699401034923228435408032870500552577727589964447767614818477094548106704616525682919572944051811447252475772984325885772705078125int);
    lemma_pow2_adds(720, 3);
    assert(pow2(723) == 0x8000000000000000000000000000000000000000000000000000000000000000000000000000000000000000000000000000000000000000000000000000000000000000000000000000000000000000000000000000000000000int);
    lemma_pow_adds(5, 311, 1);
    assert(pow(5, 312) == 119850914680120277175189744994782120189824597473131092898231179618825811882854391026857858497005174616142177040164352502762888637949822238838074092385472740533523082628414597864720259057236262378864921629428863525390625int);
    lemma_pow2_adds(723, 2);
    assert(pow2(725) == 0x20000000000000000000000000000000000000000000000000000000000000000000000000000000000000000000000000000000000000000000000000000000000000000000000000000000000000000000000000000000000000int);
    lemma_pow_adds(5, 312, 1);
    assert(pow(5, 313) == 599254573400601385875948724973910600949122987365655464491155898094129059414271955134289292485025873080710885200821762513814443189749111194190370461927363702667615413142072989323601295286181311894324608147144317626953125int);
    lemma_pow2_adds(725, 2);
    assert(pow2(727) == 0x80000000000000000000000000000000000000000000000000000000000000000000000000000000000000000000000000000000000000000000000000000000000000000000000000000000000000000000000000000000000000int);
    lemma_pow_adds(5, 313, 1);
    assert(pow(5, 314) == 2996272867003006929379743624869553004745614936828277322455779490470645297071359775671446462425129365403554426004108812569072215948745555970951852309636818513338077065710364946618006476430906559471623040735721588134765625int);
    lemma_pow2_adds(727, 3);
    assert(pow2(730) == 0x400000000000000000000000000000000000000000000000000000000000000000000000000000000000000000000000000000000000000000000000000000000000000000000000000000000000000000000000000000000000000int);
    lemma_pow_adds(5, 314, 1);
    assert(pow(5, 315) == 14981364335015034646898718124347765023728074684141386612278897452353226485356798878357232312125646827017772130020544062845361079743727779854759261548184092566690385328551824733090032382154532797358115203678607940673828125int);
    lemma_pow2_adds(730, 2);
    assert(pow2(732) == 0x1000000000000000000000000000000000000000000000000000000000000000000000000000000000000000000000000000000000000000000000000000000000000000000000000000000000000000000000000000000000000000int);
    lemma_pow_adds(5, 315, 1);
    assert(pow(5, 316) == 74906821675075173234493590621738825118640373420706933061394487261766132426783994391786161560628234135088860650102720314226805398718638899273796307740920462833451926642759123665450161910772663986790576018393039703369140625int);
    lemma_pow2_adds(732, 2);
    assert(pow2(734) == 0x4000000000000000000000000000000000000000000000000000000000000000000000000000000000000000000000000000000000000000000000000000000000000000000000000000000000000000000000000000000000000000int);
    lemma_pow_adds(5, 316, 1);
    assert(pow(5, 317) == 374534108375375866172467953108694125593201867103534665306972436308830662133919971958930807803141170675444303250513601571134026993593194496368981538704602314167259633213795618327250809553863319933952880091965198516845703125int);
    lemma_pow2_adds(734, 3);
    assert(pow2(737) == 0x20000000000000000000000000000000000000000000000000000000000000000000000000000000000000000000000000000000000000000000000000000000000000000000000000000000000000000000000000000000000000000int);
    lemma_pow_adds(5, 317, 1);
    assert(pow(5, 318) == 1872670541876879330862339765543470627966009335517673326534862181544153310669599859794654039015705853377221516252568007855670134967965972481844907693523011570836298166068978091636254047769316599669764400459825992584228515625int);
    lemma_pow2_adds(737, 2);
    assert(pow2(739) == 0x80000000000000000000000000000000000000000000000000000000000000000000000000000000000000000000000000000000000000000000000000000000000000000000000000000000000000000000000000000000000000000int);
    lemma_pow_adds(5, 318, 1);
    assert(pow(5, 319) == 9363352709384396654311698827717353139830046677588366632674310907720766553347999298973270195078529266886107581262840039278350674839829862409224538467615057854181490830344890458181270238846582998348822002299129962921142578125int);
    lemma_pow2_adds(739, 2);
    assert(pow2(741) == 0x200000000000000000000000000000000000000000000000000000000000000000000000000000000000000000000000000000000000000000000000000000000000000000000000000000000000000000000000000000000000000000int);
    reveal(spec_pow5bits);
    if i == 304 {
        assert(spec_pow5bits(304) == 706);
        lemma_pow2_adds(706, 124);
        assert(wide(DOUBLE_POW5_INV_SPLIT[304]) == 23335391041888072766125638473207751011int);
        assert(wide(DOUBLE_POW5_SPLIT[304]) == 38766254036312873729155124347470693389int);
    } else if i == 305 {
        assert(spec_pow5bits(305) == 709);
        lemma_pow2_adds(709, 124);
        assert(wide(DOUBLE_POW5_INV_SPLIT[305]) == 37336625667020916425801021557132401617int);
        assert(wide(DOUBLE_POW5_SPLIT[305]) == 24228908772695546080721952717169183368int);
    } else if i == 306 {
        assert(spec_pow5bits(306) == 711);
        lemma_pow2_adds(711, 124);
        assert(wide(DOUBLE_POW5_INV_SPLIT[306]) == 29869300533616733140640817245705921294int);
        assert(wide(DOUBLE_POW5_SPLIT[306]) == 30286135965869432600902440896461479210int);
    } else if i == 307 {
        assert(spec_pow5bits(307) == 713);
        lemma_pow2_adds(713, 124);
        assert(wide(DOUBLE_POW5_INV_SPLIT[307]) == 23895440426893386512512653796564737035int);
        assert(wide(DOUBLE_POW5_SPLIT[307]) == 37857669957336790751128051120576849012int);
    } else if i == 308 {
        assert(spec_pow5bits(308) == 716);
        lemma_pow2_adds(716, 124);
        assert(wide(DOUBLE_POW5_INV_SPLIT[308]) == 38232704683029418420020246074503579256int);
        assert(wide(DOUBLE_POW5_SPLIT[308]) == 23661043723335494219455031950360530633int);
    } else if i == 309 {
        assert(spec_pow5bits(309) == 718);
        lemma_pow2_adds(718, 124);
        assert(wide(DOUBLE_POW5_INV_SPLIT[309]) == 30586163746423534736016196859602863405int);
        assert(wide(DOUBLE_POW5_SPLIT[309]) == 29576304654169367774318789937950663291int);
    } else if i == 310 {
        assert(spec_pow5bits(310) == 720);
        lemma_pow2_adds(720, 124);
        assert(wide(DOUBLE_POW5_INV_SPLIT[310]) == 24468930997138827788812957487682290724int);
        assert(wide(DOUBLE_POW5_SPLIT[310]) == 36970380817711709717898487422438329114int);
    } else if i == 311 {
        assert(spec_pow5bits(311) == 723);
        lemma_pow2_adds(723, 124);
        assert(wide(DOUBLE_POW5_INV_SPLIT[311]) == 39150289595422124462100731980291665158int);
        assert(wide(DOUBLE_POW5_SPLIT[311]) == 23106488011069818573686554639023955696int);
    } else if i == 312 {
        assert(spec_pow5bits(312) == 725);
        lemma_pow2_adds(725, 124);
        assert(wide(DOUBLE_POW5_INV_SPLIT[312]) == 31320231676337699569680585584233332127int);
        assert(wide(DOUBLE_POW5_SPLIT[312]) == 28883110013837273217108193298779944620int);
    } else if i == 313 {
        assert(spec_pow5bits(313) == 727);
        lemma_pow2_adds(727, 124);
        assert(wide(DOUBLE_POW5_INV_SPLIT[313]) == 25056185341070159655744468467386665702int);
        assert(wide(DOUBLE_POW5_SPLIT[313]) == 36103887517296591521385241623474930775int);
    } else if i == 314 {
        assert(spec_pow5bits(314) == 730);
        lemma_pow2_adds(730, 124);
        assert(wide(DOUBLE_POW5_INV_SPLIT[314]) == 40089896545712255449191149547818665122int);
        assert(wide(DOUBLE_POW5_SPLIT[314]) == 22564929698310369700865776014671831734int);
    } else if i == 315 {
        assert(spec_pow5bits(315) == 732);
        lemma_pow2_adds(732, 124);
        assert(wide(DOUBLE_POW5_INV_SPLIT[315]) == 32071917236569804359352919638254932098int);
        assert(wide(DOUBLE_POW5_SPLIT[315]) == 28206162122887962126082220018339789668int);
    } else if i == 316 {
        assert(spec_pow5bits(316) == 734);
        lemma_pow2_adds(734, 124);
        assert(wide(DOUBLE_POW5_INV_SPLIT[316]) == 25657533789255843487482335710603945678int);
        assert(wide(DOUBLE_POW5_SPLIT[316]) == 35257702653609952657602775022924737085int);
    } else if i == 317 {
        assert(spec_pow5bits(317) == 737);
        lemma_pow2_adds(737, 124);
        assert(wide(DOUBLE_POW5_INV_SPLIT[317]) == 41052054062809349579971737136966313085int);
        assert(wide(DOUBLE_POW5_SPLIT[317]) == 22036064158506220411001734389327960678int);
    } else if i == 318 {
        assert(spec_pow5bits(318) == 739);
        lemma_pow2_adds(739, 124);
        assert(wide(DOUBLE_POW5_INV_SPLIT[318]) == 32841643250247479663977389709573050468int);
        assert(wide(DOUBLE_POW5_SPLIT[318]) == 27545080198132775513752167986659950848int);
    } else if i == 319 {
        assert(spec_pow5bits(319) == 741);
        lemma_pow2_adds(741, 124);
        assert(wide(DOUBLE_POW5_INV_SPLIT[319]) == 26273314600197983731181911767658440375int);
        assert(wide(DOUBLE_POW5_SPLIT[319]) == 34431350247665969392190209983324938560int);
    }
}

proof fn lemma_entries_20(i: int)
    requires
        320 <= i < 336,
    ensures
        pow(5, 335) == 1428734239102843727769729435381676199314887493528498326518907304034540794883422744594310027325215037061478817941717535290275676702854898438907552866762551552456892521720106576260569799628690032707034607284413141314871609210968017578125int,
        pow2(778) == 0x400000000000000000000000000000000000000000000000000000000000000000000000000000000000000000000000000000000000000000000000000000000000000000000000000000000000000000000000000000000000000000000000000int,
        is_pow5_inv_entry(i as nat, wide(DOUBLE_POW5_INV_SPLIT[i])),
        i < 326 ==> is_pow5_entry(i as nat, wide(DOUBLE_POW5_SPLIT[i])),
{
    lemma2_to64();
    lemma2_to64_rest();
    lemma_pow1(5);
    lemma_pow2_adds(64, 60);
    lemma_pow2_adds(64, 61);
    assert(pow2(124) == 0x10000000000000000000000000000000int);
    assert(pow2(125) == 0x20000000000000000000000000000000int);
    lemma_entries_19(319);
    lemma_pow_adds(5, 319, 1);
    assert(pow(5, 320) == 46816763546921983271558494138586765699150233387941833163371554538603832766739996494866350975392646334430537906314200196391753374199149312046122692338075289270907454151724452290906351194232914991744110011495649814605712890625int);
    lemma_pow2_adds(741, 3);
    assert(pow2(744) == 0x1000000000000000000000000000000000000000000000000000000000000000000000000000000000000000000000000000000000000000000000000000000000000000000000000000000000000000000000000000000000000000000int);
    lemma_pow_adds(5, 320, 1);
    assert(pow(5, 321) == 234083817734609916357792470692933828495751166939709165816857772693019163833699982474331754876963231672152689531571000981958766870995746560230613461690376446354537270758622261454531755971164574958720550057478249073028564453125int);
    lemma_pow2_adds(744, 2);
    assert(pow2(746) == 0x4000000000000000000000000000000000000000000000000000000000000000000000000000000000000000000000000000000000000000000000000000000000000000000000000000000000000000000000000000000000000000000int);
    lemma_pow_adds(5, 321, 1);
    assert(pow(5, 322) == 1170419088673049581788962353464669142478755834698545829084288863465095819168499912371658774384816158360763447657855004909793834354978732801153067308451882231772686353793111307272658779855822874793602750287391245365142822265625int);
    lemma_pow2_adds(746, 2);
    assert(pow2(748) == 0x10000000000000000000000000000000000000000000000000000000000000000000000000000000000000000000000000000000000000000000000000000000000000000000000000000000000000000000000000000000000000000000int);
    lemma_pow_adds(5, 322, 1);
    assert(pow(5, 323) == 5852095443365247908944811767323345712393779173492729145421444317325479095842499561858293871924080791803817238289275024548969171774893664005765336542259411158863431768965556536363293899279114373968013751436956226825714111328125int);
    lemma_pow2_adds(748, 2);
    assert(pow2(750) == 0x40000000000000000000000000000000000000000000000000000000000000000000000000000000000000000000000000000000000000000000000000000000000000000000000000000000000000000000000000000000000000000000int);
    lemma_pow_adds(5, 323, 1);
    assert(pow(5, 324) == 29260477216826239544724058836616728561968895867463645727107221586627395479212497809291469359620403959019086191446375122744845858874468320028826682711297055794317158844827782681816469496395571869840068757184781134128570556640625int);
    lemma_pow2_adds(750, 3);
    assert(pow2(753) == 0x200000000000000000000000000000000000000000000000000000000000000000000000000000000000000000000000000000000000000000000000000000000000000000000000000000000000000000000000000000000000000000000int);
    lemma_pow_adds(5, 324, 1);
    assert(pow(5, 325) == 146302386084131197723620294183083642809844479337318228635536107933136977396062489046457346798102019795095430957231875613724229294372341600144133413556485278971585794224138913409082347481977859349200343785923905670642852783203125int);
    lemma_pow2_adds(753, 2);
    assert(pow2(755) == 0x800000000000000000000000000000000000000000000000000000000000000000000000000000000000000000000000000000000000000000000000000000000000000000000000000000000000000000000000000000000000000000000int);
    lemma_pow_adds(5, 325, 1);
    assert(pow(5, 326) == 731511930420655988618101470915418214049222396686591143177680539665684886980312445232286733990510098975477154786159378068621146471861708000720667067782426394857928971120694567045411737409889296746001718929619528353214263916015625int);
    lemma_pow2_adds(755, 2);
    assert(pow2(757) == 0x2000000000000000000000000000000000000000000000000000000000000000000000000000000000000000000000000000000000000000000000000000000000000000000000000000000000000000000000000000000000000000000000int);
    lemma_pow_adds(5, 326, 1);
    assert(pow(5, 327) == 3657559652103279943090507354577091070246111983432955715888402698328424434901562226161433669952550494877385773930796890343105732359308540003603335338912131974289644855603472835227058687049446483730008594648097641766071319580078125int);
    lemma_pow2_adds(757, 3);
    assert(pow2(760) == 0x10000000000000000000000000000000000000000000000000000000000000000000000000000000000000000000000000000000000000000000000000000000000000000000000000000000000000000000000000000000000000000000000int);
    lemma_pow_adds(5, 327, 1);
    assert(pow(5, 328) == 18287798260516399715452536772885455351230559917164778579442013491642122174507811130807168349762752474386928869653984451715528661796542700018016676694560659871448224278017364176135293435247232418650042973240488208830356597900390625int);
    lemma_pow2_adds(760, 2);
    assert(pow2(762) == 0x40000000000000000000000000000000000000000000000000000000000000000000000000000000000000000000000000000000000000000000000000000000000000000000000000000000000000000000000000000000000000000000000int);
    lemma_pow_adds(5, 328, 1);
    assert(pow(5, 329) == 91438991302581998577262683864427276756152799585823892897210067458210610872539055654035841748813762371934644348269922258577643308982713500090083383472803299357241121390086820880676467176236162093250214866202441044151782989501953125int);
    lemma_pow2_adds(762, 2);
    assert(pow2(764) == 0x100000000000000000000000000000000000000000000000000000000000000000000000000000000000000000000000000000000000000000000000000000000000000000000000000000000000000000000000000000000000000000000000int);
    lemma_pow_adds(5, 329, 1);
    assert(pow(5, 330) == 457194956512909992886313419322136383780763997929119464486050337291053054362695278270179208744068811859673221741349611292888216544913567500450416917364016496786205606950434104403382335881180810466251074331012205220758914947509765625int);
    lemma_pow2_adds(764, 3);
    assert(pow2(767) == 0x800000000000000000000000000000000000000000000000000000000000000000000000000000000000000000000000000000000000000000000000000000000000000000000000000000000000000000000000000000000000000000000000int);
    lemma_pow_adds(5, 330, 1);
    assert(pow(5, 331) == 2285974782564549964431567096610681918903819989645597322430251686455265271813476391350896043720344059298366108706748056464441082724567837502252084586820082483931028034752170522016911679405904052331255371655061026103794574737548828125int);
    lemma_pow2_adds(767, 2);
    assert(pow2(769) == 0x2000000000000000000000000000000000000000000000000000000000000000000000000000000000000000000000000000000000000000000000000000000000000000000000000000000000000000000000000000000000000000000000000int);
    lemma_pow_adds(5, 331, 1);
    assert(pow(5, 332) == 11429873912822749822157835483053409594519099948227986612151258432276326359067381956754480218601720296491830543533740282322205413622839187511260422934100412419655140173760852610084558397029520261656276858275305130518972873687744140625int);
    lemma_pow2_adds(769, 2);
    assert(pow2(771) == 0x8000000000000000000000000000000000000000000000000000000000000000000000000000000000000000000000000000000000000000000000000000000000000000000000000000000000000000000000000000000000000000000000000int);
    lemma_pow_adds(5, 332, 1);
    assert(pow(5, 333) == 57149369564113749110789177415267047972595499741139933060756292161381631795336909783772401093008601482459152717668701411611027068114195937556302114670502062098275700868804263050422791985147601308281384291376525652594864368438720703125int);
    lemma_pow2_adds(771, 3);
    assert(pow2(774) == 0x40000000000000000000000000000000000000000000000000000000000000000000000000000000000000000000000000000000000000000000000000000000000000000000000000000000000000000000000000000000000000000000000000int);
    lemma_pow_adds(5, 333, 1);
    assert(pow(5, 334) == 285746847820568745553945887076335239862977498705699665303781460806908158976684548918862005465043007412295763588343507058055135340570979687781510573352510310491378504344021315252113959925738006541406921456882628262974321842193603515625int);
    lemma_pow2_adds(774, 2);
    assert(pow2(776) == 0x100000000000000000000000000000000000000000000000000000000000000000000000000000000000000000000000000000000000000000000000000000000000000000000000000000000000000000000000000000000000000000000000000int);
    lemma_pow_adds(5, 334, 1);
    assert(pow(5, 335) == 1428734239102843727769729435381676199314887493528498326518907304034540794883422744594310027325215037061478817941717535290275676702854898438907552866762551552456892521720106576260569799628690032707034607284413141314871609210968017578125int);
    lemma_pow2_adds(776, 2);
    assert(pow2(778) == 0x400000000000000000000000000000000000000000000000000000000000000000000000000000000000000000000000000000000000000000000000000000000000000000000000000000000000000000000000000000000000000000000000000int);
    reveal(spec_pow5bits);
    if i == 320 {
        assert(spec_pow5bits(320) == 744);
        lemma_pow2_adds(744, 124);
        assert(wide(DOUBLE_POW5_INV_SPLIT[320]) == 42037303360316773969891058828253504599int);
        assert(wide(DOUBLE_POW5_SPLIT[320]) == 21519593904791230870118881239578086600int);
    } else if i == 321 {
        assert(spec_pow5bits(321) == 746);
        lemma_pow2_adds(746, 124);
        assert(wide(DOUBLE_POW5_INV_SPLIT[321]) == 33629842688253419175912847062602803679int);
        assert(wide(DOUBLE_POW5_SPLIT[321]) == 26899492380989038587648601549472608250int);
    } else if i == 322 {
        assert(spec_pow5bits(322) == 748);
        lemma_pow2_adds(748, 124);
        assert(wide(DOUBLE_POW5_INV_SPLIT[322]) == 26903874150602735340730277650082242944int);
        assert(wide(DOUBLE_POW5_SPLIT[322]) == 33624365476236298234560751936840760312int);
    } else if i == 323 {
        assert(spec_pow5bits(323) == 750);
        lemma_pow2_adds(750, 124);
        assert(wide(DOUBLE_POW5_INV_SPLIT[323]) == 21523099320482188272584222120065794355int);
        assert(wide(DOUBLE_POW5_SPLIT[323]) == 42030456845295372793200939921050950390int);
    } else if i == 324 {
        assert(spec_pow5bits(324) == 753);
        lemma_pow2_adds(753, 124);
        assert(wide(DOUBLE_POW5_INV_SPLIT[324]) == 34436958912771501236134755392105270968int);
        assert(wide(DOUBLE_POW5_SPLIT[324]) == 26269035528309607995750587450656843994int);
    } else if i == 325 {
        assert(spec_pow5bits(325) == 755);
        lemma_pow2_adds(755, 124);
        assert(wide(DOUBLE_POW5_INV_SPLIT[325]) == 27549567130217200988907804313684216774int);
        assert(wide(DOUBLE_POW5_SPLIT[325]) == 32836294410387009994688234313321054992int);
    } else if i == 326 {
        assert(spec_pow5bits(326) == 757);
        lemma_pow2_adds(757, 124);
        assert(wide(DOUBLE_POW5_INV_SPLIT[326]) == 22039653704173760791126243450947373419int);
    } else if i == 327 {
        assert(spec_pow5bits(327) == 760);
        lemma_pow2_adds(760, 124);
        assert(wide(DOUBLE_POW5_INV_SPLIT[327]) == 35263445926678017265801989521515797471int);
    } else if i == 328 {
        assert(spec_pow5bits(328) == 762);
        lemma_pow2_adds(762, 124);
        assert(wide(DOUBLE_POW5_INV_SPLIT[328]) == 28210756741342413812641591617212637977int);
    } else if i == 329 {
        assert(spec_pow5bits(329) == 764);
        lemma_pow2_adds(764, 124);
        assert(wide(DOUBLE_POW5_INV_SPLIT[329]) == 22568605393073931050113273293770110382int);
    } else if i == 330 {
        assert(spec_pow5bits(330) == 767);
        lemma_pow2_adds(767, 124);
        assert(wide(DOUBLE_POW5_INV_SPLIT[330]) == 36109768628918289680181237270032176610int);
    } else if i == 331 {
        assert(spec_pow5bits(331) == 769);
        lemma_pow2_adds(769, 124);
        assert(wide(DOUBLE_POW5_INV_SPLIT[331]) == 28887814903134631744144989816025741288int);
    } else if i == 332 {
        assert(spec_pow5bits(332) == 771);
        lemma_pow2_adds(771, 124);
        assert(wide(DOUBLE_POW5_INV_SPLIT[332]) == 23110251922507705395315991852820593031int);
    } else if i == 333 {
        assert(spec_pow5bits(333) == 774);
        lemma_pow2_adds(774, 124);
        assert(wide(DOUBLE_POW5_INV_SPLIT[333]) == 36976403076012328632505586964512948849int);
    } else if i == 334 {
        assert(spec_pow5bits(334) == 776);
        lemma_pow2_adds(776, 124);
        assert(wide(DOUBLE_POW5_INV_SPLIT[334]) == 29581122460809862906004469571610359079int);
    } else if i == 335 {
        assert(spec_pow5bits(335) == 778);
        lemma_pow2_adds(778, 124);
        assert(wide(DOUBLE_POW5_INV_SPLIT[335]) == 23664897968647890324803575657288287263int);
    }
}

proof fn lemma_entries_21(i: int)
    requires
        336 <= i < 342,
    ensures
        pow(5, 341) == 22323972485981933246402022427838690614295117086382786351857926625539699920053480384286094176956484954085606530339336488910557448482107788107930513543164868007138945651876665254071403119198281761047415738818955333044868893921375274658203125int,
        pow2(792) == 0x1000000000000000000000000000000000000000000000000000000000000000000000000000000000000000000000000000000000000000000000000000000000000000000000000000000000000000000000000000000000000000000000000000000int,
        is_pow5_inv_entry(i as nat, wide(DOUBLE_POW5_INV_SPLIT[i])),
{
    lemma2_to64();
    lemma2_to64_rest();
    lemma_pow1(5);
    lemma_pow2_adds(64, 60);
    lemma_pow2_adds(64, 61);
    assert(pow2(124) == 0x10000000000000000000000000000000int);
    assert(pow2(125) == 0x20000000000000000000000000000000int);
    lemma_entries_20(335);
    lemma_pow_adds(5, 335, 1);
    assert(pow(5, 336) == 7143671195514218638848647176908380996574437467642491632594536520172703974417113722971550136626075185307394089708587676451378383514274492194537764333812757762284462608600532881302848998143450163535173036422065706574358046054840087890625int);
    lemma_pow2_adds(778, 3);
    assert(pow2(781) == 0x2000000000000000000000000000000000000000000000000000000000000000000000000000000000000000000000000000000000000000000000000000000000000000000000000000000000000000000000000000000000000000000000000000int);
    lemma_pow_adds(5, 336, 1);
    assert(pow(5, 337) == 35718355977571093194243235884541904982872187338212458162972682600863519872085568614857750683130375926536970448542938382256891917571372460972688821669063788811422313043002664406514244990717250817675865182110328532871790230274200439453125int);
    lemma_pow2_adds(781, 2);
    assert(pow2(783) == 0x8000000000000000000000000000000000000000000000000000000000000000000000000000000000000000000000000000000000000000000000000000000000000000000000000000000000000000000000000000000000000000000000000000int);
    lemma_pow_adds(5, 337, 1);
    assert(pow(5, 338) == 178591779887855465971216179422709524914360936691062290814863413004317599360427843074288753415651879632684852242714691911284459587856862304863444108345318944057111565215013322032571224953586254088379325910551642664358951151371002197265625int);
    lemma_pow2_adds(783, 2);
    assert(pow2(785) == 0x20000000000000000000000000000000000000000000000000000000000000000000000000000000000000000000000000000000000000000000000000000000000000000000000000000000000000000000000000000000000000000000000000000int);
    lemma_pow_adds(5, 338, 1);
    assert(pow(5, 339) == 892958899439277329856080897113547624571804683455311454074317065021587996802139215371443767078259398163424261213573459556422297939284311524317220541726594720285557826075066610162856124767931270441896629552758213321794755756855010986328125int);
    lemma_pow2_adds(785, 3);
    assert(pow2(788) == 0x100000000000000000000000000000000000000000000000000000000000000000000000000000000000000000000000000000000000000000000000000000000000000000000000000000000000000000000000000000000000000000000000000000int);
    lemma_pow_adds(5, 339, 1);
    assert(pow(5, 340) == 4464794497196386649280404485567738122859023417276557270371585325107939984010696076857218835391296990817121306067867297782111489696421557621586102708632973601427789130375333050814280623839656352209483147763791066608973778784275054931640625int);
    lemma_pow2_adds(788, 2);
    assert(pow2(790) == 0x400000000000000000000000000000000000000000000000000000000000000000000000000000000000000000000000000000000000000000000000000000000000000000000000000000000000000000000000000000000000000000000000000000int);
    lemma_pow_adds(5, 340, 1);
    assert(pow(5, 341) == 22323972485981933246402022427838690614295117086382786351857926625539699920053480384286094176956484954085606530339336488910557448482107788107930513543164868007138945651876665254071403119198281761047415738818955333044868893921375274658203125int);
    lemma_pow2_adds(790, 2);
    assert(pow2(792) == 0x1000000000000000000000000000000000000000000000000000000000000000000000000000000000000000000000000000000000000000000000000000000000000000000000000000000000000000000000000000000000000000000000000000000int);
    reveal(spec_pow5bits);
    if i == 336 {
        assert(spec_pow5bits(336) == 781);
        lemma_pow2_adds(781, 124);
        assert(wide(DOUBLE_POW5_INV_SPLIT[336]) == 37863836749836624519685721051661259621int);
    } else if i == 337 {
        assert(spec_pow5bits(337) == 783);
        lemma_pow2_adds(783, 124);
        assert(wide(DOUBLE_POW5_INV_SPLIT[337]) == 30291069399869299615748576841329007697int);
    } else if i == 338 {
        assert(spec_pow5bits(338) == 785);
        lemma_pow2_adds(785, 124);
        assert(wide(DOUBLE_POW5_INV_SPLIT[338]) == 24232855519895439692598861473063206158int);
    } else if i == 339 {
        assert(spec_pow5bits(339) == 788);
        lemma_pow2_adds(788, 124);
        assert(wide(DOUBLE_POW5_INV_SPLIT[339]) == 38772568831832703508158178356901129852int);
    } else if i == 340 {
        assert(spec_pow5bits(340) == 790);
        lemma_pow2_adds(790, 124);
        assert(wide(DOUBLE_POW5_INV_SPLIT[340]) == 31018055065466162806526542685520903882int);
    } else if i == 341 {
        assert(spec_pow5bits(341) == 792);
        lemma_pow2_adds(792, 124);
        assert(wide(DOUBLE_POW5_INV_SPLIT[341]) == 24814444052372930245221234148416723105int);
    }
}

/// Every entry of both tables holds what its index asks for.
pub proof fn lemma_table_entry(i: int)
    requires
        0 <= i < 342,
    ensures
        is_pow5_inv_entry(i as nat, wide(DOUBLE_POW5_INV_SPLIT[i])),
        i < 326 ==> is_pow5_entry(i as nat, wide(DOUBLE_POW5_SPLIT[i])),
{
    if i < 16 {
        lemma_entries_0(i);
    } else if i < 32 {
        lemma_entries_1(i);
    } else if i < 48 {
        lemma_entries_2(i);
    } else if i < 64 {
        lemma_entries_3(i);
    } else if i < 80 {
        lemma_entries_4(i);
    } else if i < 96 {
        lemma_entries_5(i);
    } else if i < 112 {
        lemma_entries_6(i);
    } else if i < 128 {
        lemma_entries_7(i);
    } else if i < 144 {
        lemma_entries_8(i);
    } else if i < 160 {
        lemma_entries_9(i);
    } else if i < 176 {
        lemma_entries_10(i);
    } else if i < 192 {
        lemma_entries_11(i);
    } else if i < 208 {
        lemma_entries_12(i);
    } else if i < 224 {
        lemma_entries_13(i);
    } else if i < 240 {
        lemma_entries_14(i);
    } else if i < 256 {
        lemma_entries_15(i);
    } else if i < 272 {
        lemma_entries_16(i);
    } else if i < 288 {
        lemma_entries_17(i);
    } else if i < 304 {
        lemma_entries_18(i);
    } else if i < 320 {
        lemma_entries_19(i);
    } else if i < 336 {
        lemma_entries_20(i);
    } else if i < 342 {
        lemma_entries_21(i);
    }
}

} // verus!
