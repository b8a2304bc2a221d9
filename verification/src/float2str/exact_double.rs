//! For each binary exponent of a double, the neighbouring fractions that show
//! the scaling to be exact.

use vstd::prelude::*;
use crate::float2str::d2s::double_scaled;
use crate::float2str::exact::{
    fixed_point_product, lemma_double_down_exact, lemma_double_up_exact,
    lemma_double_up_exact_small,
};
use crate::float2str::tables::wide;
use crate::float2str::common::{spec_log10_pow2, spec_log10_pow5, spec_pow5bits};
use crate::float2str::d2s::{double_multiplier, double_shift};
use crate::float2str::exact::{lemma_shift_powers, lemma_small_powers};
use vstd::arithmetic::power2::{lemma2_to64, lemma2_to64_rest};

verus! {

proof fn lemma_exact_0(m: nat, e2: int)
    requires
        -1076 <= e2 < -1060,
        m < 0x80_0000_0000_0000,
    ensures
        fixed_point_product(m, wide(double_multiplier(e2)), double_shift(e2) as nat) == double_scaled(m, e2),
{
    reveal(spec_log10_pow2);
    reveal(spec_log10_pow5);
    reveal(spec_pow5bits);
    lemma_shift_powers();
    if e2 == -1076 {
        lemma_double_down_exact(m, -1076, 465695023195339441, 37703088819494795, 32931890100779056, 2666195504826559);
    } else if e2 == -1075 {
        lemma_double_down_exact(m, -1075, 893809594505467169, 36181815191120031, 65863780201558112, 2666195504826559);
    } else if e2 == -1074 {
        lemma_double_down_exact(m, -1074, 1223128495513257729, 24756396357626413, 2577984551429631682, 52178988220079385);
    } else if e2 == -1073 {
        lemma_double_down_exact(m, -1073, 3801113046942889411, 38467692288852899, 1354856055916373953, 13711295931226486);
    } else if e2 == -1072 {
        lemma_double_down_exact(m, -1072, 218280187022028301, 11045100426399927, 918295681872317351, 46466278803332576);
    } else if e2 == -1071 {
        lemma_double_down_exact(m, -1071, 436560374044056602, 11045100426399927, 1791416429960430555, 45323340254466142);
    } else if e2 == -1070 {
        lemma_double_down_exact(m, -1070, 4455953608008974314, 56368440680866069, 1791416429960430555, 22661670127233071);
    } else if e2 == -1069 {
        lemma_double_down_exact(m, -1069, 873120748088113204, 55225502131999635, 358283285992086111, 22661670127233071);
    } else if e2 == -1068 {
        lemma_double_down_exact(m, -1068, 514837462096027093, 16281916002383282, 716566571984172222, 22661670127233071);
    } else if e2 == -1067 {
        lemma_double_down_exact(m, -1067, 3381103750032715981, 53464298255657783, 1433133143968344444, 22661670127233071);
    } else if e2 == -1066 {
        lemma_double_down_exact(m, -1066, 22275848463947367, 1761203876341852, 470285765168132359, 37182382253274501);
    } else if e2 == -1065 {
        lemma_double_down_exact(m, -1065, 22275848463947367, 880601938170926, 918295681872317351, 36301780315103575);
    } else if e2 == -1064 {
        lemma_double_down_exact(m, -1064, 22275848463947367, 440300969085463, 1836591363744634702, 36301780315103575);
    } else if e2 == -1063 {
        lemma_double_down_exact(m, -1063, 22275848463947367, 2201504845427315, 362863103056137467, 35861479346018112);
    } else if e2 == -1062 {
        lemma_double_down_exact(m, -1062, 770277903040169668, 38062984191445427, 362863103056137467, 17930739673009056);
    } else if e2 == -1061 {
        lemma_double_down_exact(m, -1061, 1540555806080339336, 38062984191445427, 362863103056137467, 8965369836504528);
    }
}

proof fn lemma_exact_1(m: nat, e2: int)
    requires
        -1060 <= e2 < -1044,
        m < 0x80_0000_0000_0000,
    ensures
        fixed_point_product(m, wide(double_multiplier(e2)), double_shift(e2) as nat) == double_scaled(m, e2),
{
    reveal(spec_log10_pow2);
    reveal(spec_log10_pow5);
    reveal(spec_pow5bits);
    lemma_shift_powers();
    if e2 == -1060 {
        lemma_double_down_exact(m, -1060, 3081111612160678672, 38062984191445427, 362863103056137467, 4482684918252264);
    } else if e2 == -1059 {
        lemma_double_down_exact(m, -1059, 543649701820908241, 33580299273193163, 362863103056137467, 22413424591261320);
    } else if e2 == -1058 {
        lemma_double_down_exact(m, -1058, 1087299403641816482, 33580299273193163, 362863103056137467, 11206712295630660);
    } else if e2 == -1057 {
        lemma_double_down_exact(m, -1057, 2537461910339770431, 39183655421008493, 362863103056137467, 5603356147815330);
    } else if e2 == -1056 {
        lemma_double_down_exact(m, -1056, 289774520234271606, 22373586977562503, 652637623290409073, 50390367716639153);
    } else if e2 == -1055 {
        lemma_double_down_exact(m, -1055, 942412143524680679, 36381977347100828, 362863103056137467, 14008390369538325);
    } else if e2 == -1054 {
        lemma_double_down_exact(m, -1054, 942412143524680679, 18190988673550414, 2610550493161636292, 50390367716639153);
    } else if e2 == -1053 {
        lemma_double_down_exact(m, -1053, 43337187482481149, 4182598304012089, 379028706252425742, 36581165415594913);
    } else if e2 == -1052 {
        lemma_double_down_exact(m, -1052, 86674374964962298, 4182598304012089, 769063393594756083, 37112275075851857);
    } else if e2 == -1051 {
        lemma_double_down_exact(m, -1051, 1884824287049361358, 45477471683876035, 855737768559718381, 20647436689931973);
    } else if e2 == -1050 {
        lemma_double_down_exact(m, -1050, 2740562055609079739, 33062454186904004, 1711475537119436762, 20647436689931973);
    } else if e2 == -1049 {
        lemma_double_down_exact(m, -1049, 619653107311766706, 37377829905980329, 136477803725958757, 8232419192959942);
    } else if e2 == -1048 {
        lemma_double_down_exact(m, -1048, 1239306214623533412, 37377829905980329, 136477803725958757, 4116209596479971);
    } else if e2 == -1047 {
        lemma_double_down_exact(m, -1047, 2467606448157162225, 37211858137150034, 272955607451917514, 4116209596479971);
    } else if e2 == -1046 {
        lemma_double_down_exact(m, -1046, 220565682179514931, 16630810154750179, 272955607451917514, 20581047982399855);
    } else if e2 == -1045 {
        lemma_double_down_exact(m, -1045, 493521289631432445, 18605929068575017, 1039432504535267473, 39186977050974872);
    }
}

proof fn lemma_exact_2(m: nat, e2: int)
    requires
        -1044 <= e2 < -1028,
        m < 0x80_0000_0000_0000,
    ensures
        fixed_point_product(m, wide(double_multiplier(e2)), double_shift(e2) as nat) == double_scaled(m, e2),
{
    reveal(spec_log10_pow2);
    reveal(spec_log10_pow5);
    reveal(spec_pow5bits);
    lemma_shift_powers();
    if e2 == -1044 {
        lemma_double_down_exact(m, -1044, 987042579262864890, 18605929068575017, 2026475083798132363, 38199417594062453);
    } else if e2 == -1043 {
        lemma_double_down_exact(m, -1043, 197408515852572978, 18605929068575017, 447206956977548539, 42149655421712129);
    } else if e2 == -1042 {
        lemma_double_down_exact(m, -1042, 394817031705145956, 18605929068575017, 1039432504535267473, 48983721313718590);
    } else if e2 == -1041 {
        lemma_double_down_exact(m, -1041, 789634063410291912, 18605929068575017, 1829066567945559385, 43097789725434312);
    } else if e2 == -1040 {
        lemma_double_down_exact(m, -1040, 1579268126820583824, 18605929068575017, 3408334694766143209, 40154823931292173);
    } else if e2 == -1039 {
        lemma_double_down_exact(m, -1039, 847641499642360070, 49931855617440773, 365813313589111877, 21548894862717156);
    } else if e2 == -1038 {
        lemma_double_down_exact(m, -1038, 1329469685695608263, 39157408186082195, 365813313589111877, 10774447431358578);
    } else if e2 == -1037 {
        lemma_double_down_exact(m, -1037, 2658939371391216526, 39157408186082195, 365813313589111877, 5387223715679289);
    } else if e2 == -1036 {
        lemma_double_down_exact(m, -1036, 312299886124776179, 22995737039044328, 365813313589111877, 26936118578396445);
    } else if e2 == -1035 {
        lemma_double_down_exact(m, -1035, 312299886124776179, 11497868519522164, 731626627178223754, 26936118578396445);
    } else if e2 == -1034 {
        lemma_double_down_exact(m, -1034, 1775553140481223687, 32685052838157527, 1463253254356447508, 26936118578396445);
    } else if e2 == -1033 {
        lemma_double_down_exact(m, -1033, 480030582546155209, 44182921357679691, 167730696421379030, 15438250058874281);
    } else if e2 == -1032 {
        lemma_double_down_exact(m, -1032, 312299886124776179, 14372335649402705, 647761278967534239, 29810585708276986);
    } else if e2 == -1031 {
        lemma_double_down_exact(m, -1031, 1920122330184620836, 44182921357679691, 647761278967534239, 14905292854138493);
    } else if e2 == -1030 {
        lemma_double_down_exact(m, -1030, 3863406167087223553, 44449399960047585, 1295522557935068478, 14905292854138493);
    } else if e2 == -1029 {
        lemma_double_down_exact(m, -1029, 513576721830431015, 29544107105909092, 268369114274206448, 15438250058874281);
    }
}

proof fn lemma_exact_3(m: nat, e2: int)
    requires
        -1028 <= e2 < -1012,
        m < 0x80_0000_0000_0000,
    ensures
        fixed_point_product(m, wide(double_multiplier(e2)), double_shift(e2) as nat) == double_scaled(m, e2),
{
    reveal(spec_log10_pow2);
    reveal(spec_log10_pow5);
    reveal(spec_pow5bits);
    lemma_shift_powers();
    if e2 == -1028 {
        lemma_double_down_exact(m, -1028, 513576721830431015, 14772053552954546, 1563891672209274926, 44982357164783373);
    } else if e2 == -1027 {
        lemma_double_down_exact(m, -1027, 513576721830431015, 7386026776477273, 2614206622588118837, 37596330388306100);
    } else if e2 == -1026 {
        lemma_double_down_exact(m, -1026, 102715344366086203, 7386026776477273, 559899735266394777, 40261116411985040);
    } else if e2 == -1025 {
        lemma_double_down_exact(m, -1025, 205430688732172406, 7386026776477273, 1176191801462911995, 42288638535424339);
    } else if e2 == -1024 {
        lemma_double_down_exact(m, -1024, 410861377464344812, 7386026776477273, 2203345245123774025, 39609386208905352);
    } else if e2 == -1023 {
        lemma_double_down_exact(m, -1023, 410861377464344812, 36930133882386365, 29807671560409993, 2679252326518987);
    } else if e2 == -1022 {
        lemma_double_down_exact(m, -1022, 381053705903934819, 17125440777933689, 440669049024754805, 19804693104452676);
    } else if e2 == -1021 {
        lemma_double_down_exact(m, -1021, 1643445509857379248, 36930133882386365, 440669049024754805, 9902346552226338);
    } else if e2 == -1020 {
        lemma_double_down_exact(m, -1020, 3286891019714758496, 36930133882386365, 440669049024754805, 4951173276113169);
    } else if e2 == -1019 {
        lemma_double_down_exact(m, -1019, 642876725566229666, 36115471128536755, 88133809804950961, 4951173276113169);
    } else if e2 == -1018 {
        lemma_double_down_exact(m, -1018, 1436081013810788315, 40338015306777638, 176267619609901922, 4951173276113169);
    } else if e2 == -1017 {
        lemma_double_down_exact(m, -1017, 2846221970690003691, 39973700757841495, 352535239219803844, 4951173276113169);
    } else if e2 == -1016 {
        lemma_double_down_exact(m, -1016, 287216202762157663, 20169007653388819, 352535239219803844, 24755866380565845);
    } else if e2 == -1015 {
        lemma_double_down_exact(m, -1015, 639751441981961507, 22462437016977332, 1344821920421569195, 47218303397543177);
    } else if e2 == -1014 {
        lemma_double_down_exact(m, -1014, 639751441981961507, 11231218508488666, 2689643840843138390, 47218303397543177);
    } else if e2 == -1013 {
        lemma_double_down_exact(m, -1013, 101822673813333829, 8937789144900153, 436106094355293849, 38280514252643024);
    }
}

proof fn lemma_exact_4(m: nat, e2: int)
    requires
        -1012 <= e2 < -996,
        m < 0x80_0000_0000_0000,
    ensures
        fixed_point_product(m, wide(double_multiplier(e2)), double_shift(e2) as nat) == double_scaled(m, e2),
{
    reveal(spec_log10_pow2);
    reveal(spec_log10_pow5);
    reveal(spec_pow5bits);
    lemma_shift_powers();
    if e2 == -1012 {
        lemma_double_down_exact(m, -1012, 639751441981961507, 28078046271221665, 436106094355293849, 19140257126321512);
    } else if e2 == -1011 {
        lemma_double_down_exact(m, -1011, 1715608978319216863, 37648174834382421, 436106094355293849, 9570128563160756);
    } else if e2 == -1010 {
        lemma_double_down_exact(m, -1010, 3431217956638433726, 37648174834382421, 436106094355293849, 4785064281580378);
    } else if e2 == -1009 {
        lemma_double_down_exact(m, -1009, 337358715843451666, 18507917708060909, 773464810198745515, 42433239115962799);
    } else if e2 == -1008 {
        lemma_double_down_exact(m, -1008, 1110823526042197181, 30470578412011854, 436106094355293849, 11962660703950945);
    } else if e2 == -1007 {
        lemma_double_down_exact(m, -1007, 1110823526042197181, 15235289206005927, 3093859240794982060, 42433239115962799);
    } else if e2 == -1006 {
        lemma_double_down_exact(m, -1006, 492051677883200769, 33743206914066836, 126720170275795643, 8690032201895963);
    } else if e2 == -1005 {
        lemma_double_down_exact(m, -1005, 492051677883200769, 16871603457033418, 1237543696317992824, 42433239115962799);
    } else if e2 == -1004 {
        lemma_double_down_exact(m, -1004, 492051677883200769, 8435801728516709, 2475087392635985648, 42433239115962799);
    } else if e2 == -1003 {
        lemma_double_down_exact(m, -1003, 193854870509283947, 16617372983654164, 298196807373916822, 25561635658929381);
    } else if e2 == -1002 {
        lemma_double_down_exact(m, -1002, 790248485257117591, 33870322150756463, 596393614747833644, 25561635658929381);
    } else if e2 == -1001 {
        lemma_double_down_exact(m, -1001, 2967139070519186417, 63586301055599385, 1386642100004951235, 29715978904842922);
    } else if e2 == -1000 {
        lemma_double_down_exact(m, -1000, 4547636041033421599, 48728311603177924, 1386642100004951235, 14857989452421461);
    } else if e2 == -999 {
        lemma_double_down_exact(m, -999, 942366581020548388, 50487695134410627, 277328420000990247, 14857989452421461);
    } else if e2 == -998 {
        lemma_double_down_exact(m, -998, 1774351841023519129, 47530831745837505, 554656840001980494, 14857989452421461);
    } else if e2 == -997 {
        lemma_double_down_exact(m, -997, 3438322361029460611, 46052400051550944, 1109313680003960988, 14857989452421461);
    }
}

proof fn lemma_exact_5(m: nat, e2: int)
    requires
        -996 <= e2 < -980,
        m < 0x80_0000_0000_0000,
    ensures
        fixed_point_product(m, wide(double_multiplier(e2)), double_shift(e2) as nat) == double_scaled(m, e2),
{
    reveal(spec_log10_pow2);
    reveal(spec_log10_pow5);
    reveal(spec_pow5bits);
    lemma_shift_powers();
    if e2 == -996 {
        lemma_double_down_exact(m, -996, 243939000204307727, 16336421146708022, 621435679595345534, 41617104968691261);
    } else if e2 == -995 {
        lemma_double_down_exact(m, -995, 243939000204307727, 8168210573354011, 1242871359190691068, 41617104968691261);
    } else if e2 == -994 {
        lemma_double_down_exact(m, -994, 487878000408615454, 8168210573354011, 2462566360212229703, 41229078917730658);
    } else if e2 == -993 {
        lemma_double_down_exact(m, -993, 190515928529615695, 15948395095747419, 297362071878999759, 24892657771022636);
    } else if e2 == -992 {
        lemma_double_down_exact(m, -992, 975756000817230908, 40841052866770055, 297362071878999759, 12446328885511318);
    } else if e2 == -991 {
        lemma_double_down_exact(m, -991, 1951512001634461816, 40841052866770055, 297362071878999759, 6223164442755659);
    } else if e2 == -990 {
        lemma_double_down_exact(m, -990, 4033046504787460129, 42201601983029834, 594724143757999518, 6223164442755659);
    } else if e2 == -989 {
        lemma_double_down_exact(m, -989, 449774814702692315, 23532108654762857, 1044498958460691833, 54647930868541152);
    } else if e2 == -988 {
        lemma_double_down_exact(m, -988, 899549629405384630, 23532108654762857, 1044498958460691833, 27323965434270576);
    } else if e2 == -987 {
        lemma_double_down_exact(m, -987, 2843598217271461093, 37194091371898145, 1044498958460691833, 13661982717135288);
    } else if e2 == -986 {
        lemma_double_down_exact(m, -986, 359819851762153852, 23532108654762857, 324859254936384129, 21245696276150726);
    } else if e2 == -985 {
        lemma_double_down_exact(m, -985, 719639703524307704, 23532108654762857, 1044498958460691833, 34154956792838220);
    } else if e2 == -984 {
        lemma_double_down_exact(m, -984, 2483778365509307241, 40609587051181967, 1044498958460691833, 17077478396419110);
    } else if e2 == -983 {
        lemma_double_down_exact(m, -983, 78956089717584715, 6454630258343747, 491806330437598828, 40204980173689321);
    } else if e2 == -982 {
        lemma_double_down_exact(m, -982, 157912179435169430, 6454630258343747, 886586779025522403, 36239065732704028);
    } else if e2 == -981 {
        lemma_double_down_exact(m, -981, 1202411137895861263, 24574163124695761, 886586779025522403, 18119532866352014);
    }
}

proof fn lemma_exact_6(m: nat, e2: int)
    requires
        -980 <= e2 < -964,
        m < 0x80_0000_0000_0000,
    ensures
        fixed_point_product(m, wide(double_multiplier(e2)), double_shift(e2) as nat) == double_scaled(m, e2),
{
    reveal(spec_log10_pow2);
    reveal(spec_log10_pow5);
    reveal(spec_pow5bits);
    lemma_shift_powers();
    if e2 == -980 {
        lemma_double_down_exact(m, -980, 3291409054817244929, 33633929557871768, 886586779025522403, 9059766433176007);
    } else if e2 == -979 {
        lemma_double_down_exact(m, -979, 126329743548135544, 6454630258343747, 760257035477386859, 38844201907536288);
    } else if e2 == -978 {
        lemma_double_down_exact(m, -978, 2278492532243586982, 58208092682567529, 1012916522573657947, 25876731212111891);
    } else if e2 == -977 {
        lemma_double_down_exact(m, -977, 1265576009669929035, 16165680735227819, 2025833045147315894, 25876731212111891);
    } else if e2 == -976 {
        lemma_double_down_exact(m, -976, 253115201933985807, 16165680735227819, 760257035477386859, 48555252384420360);
    } else if e2 == -975 {
        lemma_double_down_exact(m, -975, 506230403867971614, 16165680735227819, 1266487439345358473, 40443306927437999);
    } else if e2 == -974 {
        lemma_double_down_exact(m, -974, 1012460807735943228, 16165680735227819, 2785178650949273315, 44470174566560728);
    } else if e2 == -973 {
        lemma_double_down_exact(m, -973, 455425077546088565, 36358229109578367, 101610652643766098, 8111945456982361);
    } else if e2 == -972 {
        lemma_double_down_exact(m, -972, 353814424902322467, 14123141826298003, 557035730189854663, 22235087283280364);
    } else if e2 == -971 {
        lemma_double_down_exact(m, -971, 1821700310184354260, 36358229109578367, 557035730189854663, 11117543641640182);
    } else if e2 == -970 {
        lemma_double_down_exact(m, -970, 171644393883887041, 17128740010955824, 192695668152983811, 19229489098622543);
    } else if e2 == -969 {
        lemma_double_down_exact(m, -969, 171644393883887041, 8564370005477912, 557035730189854663, 27793859104100455);
    } else if e2 == -968 {
        lemma_double_down_exact(m, -968, 2399787314643305693, 59869903210939866, 1114071460379709326, 27793859104100455);
    } else if e2 == -967 {
        lemma_double_down_exact(m, -967, 4627930235402724345, 57728810709570388, 2228142920759418652, 27793859104100455);
    } else if e2 == -966 {
        lemma_double_down_exact(m, -966, 925586047080544869, 57728810709570388, 376970826598328914, 23511674101361499);
    } else if e2 == -965 {
        lemma_double_down_exact(m, -965, 925586047080544869, 28864405354785194, 753941653196657828, 23511674101361499);
    }
}

proof fn lemma_exact_7(m: nat, e2: int)
    requires
        -964 <= e2 < -948,
        m < 0x80_0000_0000_0000,
    ensures
        fixed_point_product(m, wide(double_multiplier(e2)), double_shift(e2) as nat) == double_scaled(m, e2),
{
    reveal(spec_log10_pow2);
    reveal(spec_log10_pow5);
    reveal(spec_pow5bits);
    lemma_shift_powers();
    if e2 == -964 {
        lemma_double_down_exact(m, -964, 925586047080544869, 14432202677392597, 2433469353473860525, 37943876778754096);
    } else if e2 == -963 {
        lemma_double_down_exact(m, -963, 438892176385772764, 34217136608208889, 47801694308999341, 3726740170545207);
    } else if e2 == -962 {
        lemma_double_down_exact(m, -962, 1364478223466317633, 53189074997585937, 486693870694772105, 18971938389377048);
    } else if e2 == -961 {
        lemma_double_down_exact(m, -961, 2242262576237863161, 43703105802897413, 486693870694772105, 9485969194688524);
    } else if e2 == -960 {
        lemma_double_down_exact(m, -960, 392825867597729162, 38282114315405109, 97338774138954421, 9485969194688524);
    } else if e2 == -959 {
        lemma_double_down_exact(m, -959, 785651735195458324, 38282114315405109, 97338774138954421, 4742984597344262);
    } else if e2 == -958 {
        lemma_double_down_exact(m, -958, 1571303470390916648, 38282114315405109, 97338774138954421, 2371492298672131);
    } else if e2 == -957 {
        lemma_double_down_exact(m, -957, 3031385082475232963, 36927249397743537, 194677548277908842, 2371492298672131);
    } else if e2 == -956 {
        lemma_double_down_exact(m, -956, 645212526150628361, 39298741696415668, 194677548277908842, 11857461493360655);
    } else if e2 == -955 {
        lemma_double_down_exact(m, -955, 1423922719262263729, 43364293834929144, 389355096555817684, 11857461493360655);
    } else if e2 == -954 {
        lemma_double_down_exact(m, -954, 2981343105485534465, 45397069904185882, 778710193111635368, 11857461493360655);
    } else if e2 == -953 {
        lemma_double_down_exact(m, -953, 596268621097106893, 45397069904185882, 182441572014528475, 13890237562617393);
    } else if e2 == -952 {
        lemma_double_down_exact(m, -952, 596268621097106893, 22698534952092941, 364883144029056950, 13890237562617393);
    } else if e2 == -951 {
        lemma_double_down_exact(m, -951, 1192537242194213786, 22698534952092941, 961151765126163843, 18294386257355167);
    } else if e2 == -950 {
        lemma_double_down_exact(m, -950, 523291992291295503, 49801218598923656, 145953257611622780, 13890237562617393);
    } else if e2 == -949 {
        lemma_double_down_exact(m, -949, 523291992291295503, 24900609299461828, 291906515223245560, 13890237562617393);
    }
}

proof fn lemma_exact_8(m: nat, e2: int)
    requires
        -948 <= e2 < -932,
        m < 0x80_0000_0000_0000,
    ensures
        fixed_point_product(m, wide(double_multiplier(e2)), double_shift(e2) as nat) == double_scaled(m, e2),
{
    reveal(spec_log10_pow2);
    reveal(spec_log10_pow5);
    reveal(spec_pow5bits);
    lemma_shift_powers();
    if e2 == -948 {
        lemma_double_down_exact(m, -948, 523291992291295503, 12450304649730914, 1630397015029082126, 38790846862079221);
    } else if e2 == -947 {
        lemma_double_down_exact(m, -947, 523291992291295503, 6225152324865457, 3260794030058164252, 38790846862079221);
    } else if e2 == -946 {
        lemma_double_down_exact(m, -946, 523291992291295503, 31125761624327285, 233525212178596448, 13890237562617393);
    } else if e2 == -945 {
        lemma_double_down_exact(m, -945, 1803401189052482957, 53633761217799624, 756817204469891951, 22507999593472339);
    } else if e2 == -944 {
        lemma_double_down_exact(m, -944, 1803401189052482957, 26816880608899812, 1513634408939783902, 22507999593472339);
    } else if e2 == -943 {
        lemma_double_down_exact(m, -943, 57953356022539811, 4308881015427473, 528427356556607115, 39289020705094654);
    } else if e2 == -942 {
        lemma_double_down_exact(m, -942, 115906712045079622, 4308881015427473, 992054204736925603, 36880034414257219);
    } else if e2 == -941 {
        lemma_double_down_exact(m, -941, 1803401189052482957, 33521100761124765, 1571587764962323713, 29212219745697292);
    } else if e2 == -940 {
        lemma_double_down_exact(m, -940, 453405607446560289, 42138862791979711, 221592183356401045, 20594457714842346);
    } else if e2 == -939 {
        lemma_double_down_exact(m, -939, 906811214893120578, 42138862791979711, 221592183356401045, 10297228857421173);
    } else if e2 == -938 {
        lemma_double_down_exact(m, -938, 1128403398249521623, 26218045824700442, 443184366712802090, 10297228857421173);
    } else if e2 == -937 {
        lemma_double_down_exact(m, -937, 1128403398249521623, 13109022912350221, 3143175529924647426, 36515274682121615);
    } else if e2 == -936 {
        lemma_double_down_exact(m, -936, 773855904879279951, 44950656846908759, 177273746685120836, 10297228857421173);
    } else if e2 == -935 {
        lemma_double_down_exact(m, -935, 951129651564400787, 27623942852164966, 354547493370241672, 10297228857421173);
    } else if e2 == -934 {
        lemma_double_down_exact(m, -934, 951129651564400787, 13811971426082483, 2611354289869284918, 37921171709586139);
    } else if e2 == -933 {
        lemma_double_down_exact(m, -933, 238632863277663646, 17326713994743793, 473863925009073495, 34406429140924829);
    }
}

proof fn lemma_exact_9(m: nat, e2: int)
    requires
        -932 <= e2 < -916,
        m < 0x80_0000_0000_0000,
    ensures
        fixed_point_product(m, wide(double_multiplier(e2)), double_shift(e2) as nat) == double_scaled(m, e2),
{
    reveal(spec_log10_pow2);
    reveal(spec_log10_pow5);
    reveal(spec_pow5bits);
    lemma_shift_powers();
    if e2 == -932 {
        lemma_double_down_exact(m, -932, 712496788286737141, 25866571567834311, 1660224638304884131, 60273000708759140);
    } else if e2 == -931 {
        lemma_double_down_exact(m, -931, 1424993576573474282, 25866571567834311, 3085218214878358413, 56003071922213881);
    } else if e2 == -930 {
        lemma_double_down_exact(m, -930, 143860078275848947, 13056785208198534, 379091140007258796, 34406429140924829);
    } else if e2 == -929 {
        lemma_double_down_exact(m, -929, 143860078275848947, 6528392604099267, 902042358290366539, 40934821745024096);
    } else if e2 == -928 {
        lemma_double_down_exact(m, -928, 2091804873132430972, 47463214349123363, 902042358290366539, 20467410872512048);
    } else if e2 == -927 {
        lemma_double_down_exact(m, -927, 3281567387974495405, 37229508912867339, 902042358290366539, 10233705436256024);
    } else if e2 == -926 {
        lemma_double_down_exact(m, -926, 656313477594899081, 37229508912867339, 245728880695467458, 13939018268412781);
    } else if e2 == -925 {
        lemma_double_down_exact(m, -925, 410584596899431623, 11645245322227279, 902042358290366539, 25584263590640060);
    } else if e2 == -924 {
        lemma_double_down_exact(m, -924, 2625253910379596324, 37229508912867339, 902042358290366539, 12792131795320030);
    } else if e2 == -923 {
        lemma_double_down_exact(m, -923, 344642310417845957, 24437377117547309, 212757737454674625, 15085904741505532);
    } else if e2 == -922 {
        lemma_double_down_exact(m, -922, 689284620835691914, 24437377117547309, 902042358290366539, 31980329488300075);
    } else if e2 == -921 {
        lemma_double_down_exact(m, -921, 1591326979126058453, 28208853302923692, 1804084716580733078, 31980329488300075);
    } else if e2 == -920 {
        lemma_double_down_exact(m, -920, 442435196870815478, 39214409509456119, 42551547490934925, 3771476185376383);
    } else if e2 == -919 {
        lemma_double_down_exact(m, -919, 825399124289229803, 36578847588921783, 85103094981869850, 3771476185376383);
    } else if e2 == -918 {
        lemma_double_down_exact(m, -918, 1761533169089798153, 39032542814030998, 170206189963739700, 3771476185376383);
    } else if e2 == -917 {
        lemma_double_down_exact(m, -917, 1761533169089798153, 19516271407015499, 3863478718107075706, 42804018999407381);
    }
}

proof fn lemma_exact_10(m: nat, e2: int)
    requires
        -916 <= e2 < -900,
        m < 0x80_0000_0000_0000,
    ensures
        fixed_point_product(m, wide(double_multiplier(e2)), double_shift(e2) as nat) == double_scaled(m, e2),
{
    reveal(spec_log10_pow2);
    reveal(spec_log10_pow5);
    reveal(spec_pow5bits);
    lemma_shift_powers();
    if e2 == -916 {
        lemma_double_down_exact(m, -916, 672213553321864073, 37237738069055367, 68082475985495880, 3771476185376383);
    } else if e2 == -915 {
        lemma_double_down_exact(m, -915, 1421120789162318753, 39361988054097790, 136164951970991760, 3771476185376383);
    } else if e2 == -914 {
        lemma_double_down_exact(m, -914, 1693450693104302273, 23452470212425278, 3659231290150588066, 50676416610226939);
    } else if e2 == -913 {
        lemma_double_down_exact(m, -913, 549665096547971489, 38061351169222347, 54465980788396704, 3771476185376383);
    } else if e2 == -912 {
        lemma_double_down_exact(m, -912, 1148790885220335233, 39773794604181280, 108931961576793408, 3771476185376383);
    } else if e2 == -911 {
        lemma_double_down_exact(m, -911, 1584518731527508865, 27429849672843406, 1802382654681095681, 31201325858219789);
    } else if e2 == -910 {
        lemma_double_down_exact(m, -910, 316903746305501773, 27429849672843406, 217863923153586816, 18857380926881915);
    } else if e2 == -909 {
        lemma_double_down_exact(m, -909, 316903746305501773, 13714924836421703, 1069535338918177178, 46287230599725321);
    } else if e2 == -908 {
        lemma_double_down_exact(m, -908, 633807492611003546, 13714924836421703, 2020246577834682497, 43716002554495215);
    } else if e2 == -907 {
        lemma_double_down_exact(m, -907, 1267614985222007092, 13714924836421703, 2654054070445686043, 28715463695458459);
    } else if e2 == -906 {
        lemma_double_down_exact(m, -906, 784333811133538627, 42430388531880162, 301052637045070162, 16286152881651809);
    } else if e2 == -905 {
        lemma_double_down_exact(m, -905, 784333811133538627, 21215194265940081, 602105274090140324, 16286152881651809);
    } else if e2 == -904 {
        lemma_double_down_exact(m, -904, 1568667622267077254, 21215194265940081, 1386439085223678951, 18750673573795945);
    } else if e2 == -903 {
        lemma_double_down_exact(m, -903, 386624939270774772, 26144235650228353, 204396402227376469, 13821632189507673);
    } else if e2 == -902 {
        lemma_double_down_exact(m, -902, 1364271220039700785, 46127169570096366, 591021341498151241, 19982933919868013);
    } else if e2 == -901 {
        lemma_double_down_exact(m, -901, 2546313903036003267, 43046518704916196, 1182042682996302482, 19982933919868013);
    }
}

proof fn lemma_exact_11(m: nat, e2: int)
    requires
        -900 <= e2 < -884,
        m < 0x80_0000_0000_0000,
    ensures
        fixed_point_product(m, wide(double_multiplier(e2)), double_shift(e2) as nat) == double_scaled(m, e2),
{
    reveal(spec_log10_pow2);
    reveal(spec_log10_pow5);
    reveal(spec_pow5bits);
    lemma_shift_powers();
    if e2 == -900 {
        lemma_double_down_exact(m, -900, 272854244007940157, 23063584785048183, 636334194980422168, 53787500029243699);
    } else if e2 == -899 {
        lemma_double_down_exact(m, -899, 545708488015880314, 23063584785048183, 363479950972482011, 15361957622097758);
    } else if e2 == -898 {
        lemma_double_down_exact(m, -898, 1091416976031760628, 23063584785048183, 1454896927004242639, 30744563596097062);
    } else if e2 == -897 {
        lemma_double_down_exact(m, -897, 3637730879067763895, 38435866583096714, 1454896927004242639, 15372281798048531);
    } else if e2 == -896 {
        lemma_double_down_exact(m, -896, 195424622862919, 10324175950773, 682012238686492652, 36030333586566605);
    } else if e2 == -895 {
        lemma_double_down_exact(m, -895, 727546175813552779, 19217933291548357, 727155326567826941, 19207609115597584);
    } else if e2 == -894 {
        lemma_double_down_exact(m, -894, 1455092351627105558, 19217933291548357, 3637340029822038057, 48039671140895506);
    } else if e2 == -893 {
        lemma_double_down_exact(m, -893, 436605875337276835, 28832062025297922, 145274725615275053, 9593480381848019);
    } else if e2 == -892 {
        lemma_double_down_exact(m, -892, 436605875337276835, 14416031012648961, 1163761201905103776, 38425542407145941);
    } else if e2 == -891 {
        lemma_double_down_exact(m, -891, 873211750674553670, 14416031012648961, 1600367077242380611, 26420786709897451);
    } else if e2 == -890 {
        lemma_double_down_exact(m, -890, 174642350134910734, 14416031012648961, 552512976432916207, 45607747473593489);
    } else if e2 == -889 {
        lemma_double_down_exact(m, -889, 349284700269821468, 14416031012648961, 1076440026837648409, 44427920255770186);
    } else if e2 == -888 {
        lemma_double_down_exact(m, -888, 698569400539642936, 14416031012648961, 1775009427377291345, 36629991140534054);
    } else if e2 == -887 {
        lemma_double_down_exact(m, -887, 4947157655833868562, 51046022153183015, 1775009427377291345, 18314995570267027);
    } else if e2 == -886 {
        lemma_double_down_exact(m, -886, 1042136915603827603, 53765159492977778, 355001885475458269, 18314995570267027);
    } else if e2 == -885 {
        lemma_double_down_exact(m, -885, 1752140686554744141, 45197575316755916, 710003770950916538, 18314995570267027);
    }
}

proof fn lemma_exact_12(m: nat, e2: int)
    requires
        -884 <= e2 < -868,
        m < 0x80_0000_0000_0000,
    ensures
        fixed_point_product(m, wide(double_multiplier(e2)), double_shift(e2) as nat) == double_scaled(m, e2),
{
    reveal(spec_log10_pow2);
    reveal(spec_log10_pow5);
    reveal(spec_pow5bits);
    lemma_shift_powers();
    if e2 == -884 {
        lemma_double_down_exact(m, -884, 3172148228456577217, 40913783228644985, 1420007541901833076, 18314995570267027);
    } else if e2 == -883 {
        lemma_double_down_exact(m, -883, 66426628930582213, 4283792088110931, 622887994734846520, 40169472794003963);
    } else if e2 == -882 {
        lemma_double_down_exact(m, -882, 132853257861164426, 4283792088110931, 1220727655110086437, 39361800793501171);
    } else if e2 == -881 {
        lemma_double_down_exact(m, -881, 2972868341664830578, 47929384969723033, 1353580912971250863, 21822796440806051);
    } else if e2 == -880 {
        lemma_double_down_exact(m, -880, 323857485738715943, 26106588528916982, 705865941493818977, 56900805146196291);
    } else if e2 == -879 {
        lemma_double_down_exact(m, -879, 323857485738715943, 13053294264458491, 1087874397248922011, 43847510881737800);
    } else if e2 == -878 {
        lemma_double_down_exact(m, -878, 647714971477431886, 13053294264458491, 2383304340203785783, 48030343969785882);
    } else if e2 == -877 {
        lemma_double_down_exact(m, -877, 1295429942954863772, 13053294264458491, 3678734283158649555, 37068466249351432);
    } else if e2 == -876 {
        lemma_double_down_exact(m, -876, 559683086323133861, 28198005072941023, 176063770308596050, 8870461176410409);
    } else if e2 == -875 {
        lemma_double_down_exact(m, -875, 1855113029277997633, 46732238197616739, 735746856631729911, 18534233124675716);
    } else if e2 == -874 {
        lemma_double_down_exact(m, -874, 2974479201924265355, 37465121635278881, 735746856631729911, 9267116562337858);
    } else if e2 == -873 {
        lemma_double_down_exact(m, -873, 594895840384853071, 37465121635278881, 140851016246876840, 8870461176410409);
    } else if e2 == -872 {
        lemma_double_down_exact(m, -872, 454044824137976231, 14297330229434236, 735746856631729911, 23167791405844645);
    } else if e2 == -871 {
        lemma_double_down_exact(m, -871, 3397032250664895875, 53484247926406408, 1471493713263459822, 23167791405844645);
    } else if e2 == -870 {
        lemma_double_down_exact(m, -870, 566725637135477703, 44613786749995999, 112680812997501472, 8870461176410409);
    } else if e2 == -869 {
        lemma_double_down_exact(m, -869, 679406450132979175, 26742123963203204, 1584174526260961294, 62354709102816817);
    }
}

proof fn lemma_exact_13(m: nat, e2: int)
    requires
        -868 <= e2 < -852,
        m < 0x80_0000_0000_0000,
    ensures
        fixed_point_product(m, wide(double_multiplier(e2)), double_shift(e2) as nat) == double_scaled(m, e2),
{
    reveal(spec_log10_pow2);
    reveal(spec_log10_pow5);
    reveal(spec_pow5bits);
    lemma_shift_powers();
    if e2 == -868 {
        lemma_double_down_exact(m, -868, 679406450132979175, 13371061981601602, 2488942602388943413, 48983647121215215);
    } else if e2 == -867 {
        lemma_double_down_exact(m, -867, 135881290026595835, 13371061981601602, 450723251990005888, 44352305882052045);
    } else if e2 == -866 {
        lemma_double_down_exact(m, -866, 135881290026595835, 6685530990800801, 765565213953415941, 37666774891251244);
    } else if e2 == -865 {
        lemma_double_down_exact(m, -865, 271762580053191670, 6685530990800801, 1580852954112990951, 38889980418028025);
    } else if e2 == -864 {
        lemma_double_down_exact(m, -864, 543525160106383340, 6685530990800801, 2939665854378949301, 36158817686016015);
    } else if e2 == -863 {
        lemma_double_down_exact(m, -863, 108705032021276668, 6685530990800801, 656860181932139273, 40397937623263254);
    } else if e2 == -862 {
        lemma_double_down_exact(m, -862, 217410064042553336, 6685530990800801, 1309090374059799281, 40255561784034030);
    } else if e2 == -861 {
        lemma_double_down_exact(m, -861, 434820128085106672, 6685530990800801, 2613550758315119297, 40184373864419418);
    } else if e2 == -860 {
        lemma_double_down_exact(m, -860, 434820128085106672, 33427654954004005, 870566254131109197, 66926497827622622);
    } else if e2 == -859 {
        lemma_double_down_exact(m, -859, 869640256170213344, 33427654954004005, 1740206510301322541, 66890903867815316);
    } else if e2 == -858 {
        lemma_double_down_exact(m, -858, 1739280512340426688, 33427654954004005, 3479487022641749229, 66873106887911663);
    } else if e2 == -857 {
        lemma_double_down_exact(m, -857, 347670902875906167, 33409857974100352, 696267803712708187, 66908700847718969);
    } else if e2 == -856 {
        lemma_double_down_exact(m, -856, 347670902875906167, 16704928987050176, 1044864704549510207, 50203771860668793);
    } else if e2 == -855 {
        lemma_double_down_exact(m, -855, 347670902875906167, 8352464493525088, 1742058506223114247, 41851307367143705);
    } else if e2 == -854 {
        lemma_double_down_exact(m, -854, 347670902875906167, 4176232246762544, 3136446109570322327, 37675075120381161);
    } else if e2 == -853 {
        lemma_double_down_exact(m, -853, 347670902875906167, 20881161233812720, 905425944214789399, 54380004107431337);
    }
}

proof fn lemma_exact_14(m: nat, e2: int)
    requires
        -852 <= e2 < -836,
        m < 0x80_0000_0000_0000,
    ensures
        fixed_point_product(m, wide(double_multiplier(e2)), double_shift(e2) as nat) == double_scaled(m, e2),
{
    reveal(spec_log10_pow2);
    reveal(spec_log10_pow5);
    reveal(spec_pow5bits);
    lemma_shift_powers();
    if e2 == -852 {
        lemma_double_down_exact(m, -852, 347670902875906167, 10440580616906360, 1463180985553672631, 43939423490524977);
    } else if e2 == -851 {
        lemma_double_down_exact(m, -851, 347670902875906167, 5220290308453180, 2578691068231439095, 38719133182071797);
    } else if e2 == -850 {
        lemma_double_down_exact(m, -850, 347670902875906167, 26101451542265900, 168067310770381652, 12617681639805897);
    } else if e2 == -849 {
        lemma_double_down_exact(m, -849, 347670902875906167, 13050725771132950, 1031476427292575638, 38719133182071797);
    } else if e2 == -848 {
        lemma_double_down_exact(m, -848, 347670902875906167, 6525362885566475, 2062952854585151276, 38719133182071797);
    } else if e2 == -847 {
        lemma_double_down_exact(m, -847, 347670902875906167, 32626814427832375, 203988029191486555, 19143044525372372);
    } else if e2 == -846 {
        lemma_double_down_exact(m, -846, 695341805751812334, 32626814427832375, 203988029191486555, 9571522262686186);
    } else if e2 == -845 {
        lemma_double_down_exact(m, -845, 1594671640695111223, 37412575559175468, 203988029191486555, 4785761131343093);
    } else if e2 == -844 {
        lemma_double_down_exact(m, -844, 1594671640695111223, 18706287779587734, 3597319339773195556, 42198336690518561);
    } else if e2 == -843 {
        lemma_double_down_exact(m, -843, 615529100575975759, 36102305321821554, 81595211676594622, 4785761131343093);
    } else if e2 == -842 {
        lemma_double_down_exact(m, -842, 1268290793988732735, 37194197186283149, 163190423353189244, 4785761131343093);
    } else if e2 == -841 {
        lemma_double_down_exact(m, -841, 1431481217341921979, 20989979158813121, 1757862064048300467, 25775740290156214);
    } else if e2 == -840 {
        lemma_double_down_exact(m, -840, 90467735444557303, 6632695764783842, 416848582150935791, 30561501421499307);
    } else if e2 == -839 {
        lemma_double_down_exact(m, -839, 924164899746428885, 33877849303891228, 833697164301871582, 30561501421499307);
    } else if e2 == -838 {
        lemma_double_down_exact(m, -838, 924164899746428885, 16938924651945614, 2591559228350172049, 47500426073444921);
    } else if e2 == -837 {
        lemma_double_down_exact(m, -837, 184832979949285777, 16938924651945614, 558396448908028502, 51173959195822851);
    }
}

proof fn lemma_exact_15(m: nat, e2: int)
    requires
        -836 <= e2 < -820,
        m < 0x80_0000_0000_0000,
    ensures
        fixed_point_product(m, wide(double_multiplier(e2)), double_shift(e2) as nat) == double_scaled(m, e2),
{
    reveal(spec_log10_pow2);
    reveal(spec_log10_pow5);
    reveal(spec_pow5bits);
    lemma_shift_powers();
    if e2 == -836 {
        lemma_double_down_exact(m, -836, 184832979949285777, 8469462325972807, 931959917866771227, 42704496869850044);
    } else if e2 == -835 {
        lemma_double_down_exact(m, -835, 369665959898571554, 8469462325972807, 1671291837663914335, 38291173086870636);
    } else if e2 == -834 {
        lemma_double_down_exact(m, -834, 739331919797143108, 8469462325972807, 3149955677258200551, 36084511195380932);
    } else if e2 == -833 {
        lemma_double_down_exact(m, -833, 739331919797143108, 42347311629864035, 334258367532782867, 19145586543435318);
    } else if e2 == -832 {
        lemma_double_down_exact(m, -832, 1478663839594286216, 42347311629864035, 334258367532782867, 9572793271717659);
    } else if e2 == -831 {
        lemma_double_down_exact(m, -831, 1144405472061503349, 16387259179073188, 1812922207127069083, 25960052450790847);
    } else if e2 == -830 {
        lemma_double_down_exact(m, -830, 95177747399187523, 6814465907355529, 573338987666378211, 41049500451232766);
    } else if e2 == -829 {
        lemma_double_down_exact(m, -829, 954049977263128303, 34153682040327441, 763694482464753257, 27339216132971912);
    } else if e2 == -828 {
        lemma_double_down_exact(m, -828, 1908099954526256606, 34153682040327441, 763694482464753257, 13669608066485956);
    } else if e2 == -827 {
        lemma_double_down_exact(m, -827, 457307688170350725, 40927471695908072, 76596698573600633, 6855142159130427);
    } else if e2 == -826 {
        lemma_double_down_exact(m, -826, 610501085317551991, 27318878007084463, 1374195567782305248, 61492898173299353);
    } else if e2 == -825 {
        lemma_double_down_exact(m, -825, 1221002170635103982, 27318878007084463, 763694482464753257, 17087010083107445);
    } else if e2 == -824 {
        lemma_double_down_exact(m, -824, 4426700994370065203, 49521822052180417, 1984696653099857239, 22202944045095954);
    } else if e2 == -823 {
        lemma_double_down_exact(m, -823, 91461537634070145, 5115933961988509, 704235126222875209, 39391644757640644);
    } else if e2 == -822 {
        lemma_double_down_exact(m, -822, 182923075268140290, 5115933961988509, 1435927427295436369, 40159558226774358);
    } else if e2 == -821 {
        lemma_double_down_exact(m, -821, 2167619728367997529, 30311647037364197, 1801773577831716949, 25195713075375688);
    }
}

proof fn lemma_exact_16(m: nat, e2: int)
    requires
        -820 <= e2 < -804,
        m < 0x80_0000_0000_0000,
    ensures
        fixed_point_product(m, wide(double_multiplier(e2)), double_shift(e2) as nat) == double_scaled(m, e2),
{
    reveal(spec_log10_pow2);
    reveal(spec_log10_pow5);
    reveal(spec_pow5bits);
    lemma_shift_powers();
    if e2 == -820 {
        lemma_double_down_exact(m, -820, 73169230107256116, 5115933961988509, 557896666008362977, 39007688023073787);
    } else if e2 == -819 {
        lemma_double_down_exact(m, -819, 146338460214512232, 5115933961988509, 1070081276759155789, 37409612878496675);
    } else if e2 == -818 {
        lemma_double_down_exact(m, -818, 292676920429024464, 5115933961988509, 2094450498260741413, 36610575306208119);
    } else if e2 == -817 {
        lemma_double_down_exact(m, -817, 292676920429024464, 25579669809942545, 301819331480538497, 26378707382231101);
    } else if e2 == -816 {
        lemma_double_down_exact(m, -816, 594496251909562961, 25979188596086823, 1198134914870639955, 52357895978317924);
    } else if e2 == -815 {
        lemma_double_down_exact(m, -815, 1188992503819125922, 25979188596086823, 1198134914870639955, 26178947989158962);
    } else if e2 == -814 {
        lemma_double_down_exact(m, -814, 3576119922508891799, 39068662590666304, 1198134914870639955, 13089473994579481);
    } else if e2 == -813 {
        lemma_double_down_exact(m, -813, 700596126819355907, 38269625018377748, 239626982974127991, 13089473994579481);
    } else if e2 == -812 {
        lemma_double_down_exact(m, -812, 1659104058715867871, 45313760498347836, 479253965948255982, 13089473994579481);
    } else if e2 == -811 {
        lemma_double_down_exact(m, -811, 3576119922508891799, 48835828238332880, 958507931896511964, 13089473994579481);
    } else if e2 == -810 {
        lemma_double_down_exact(m, -810, 523522398122475967, 35746354243753399, 434985533774035997, 29701015729144006);
    } else if e2 == -809 {
        lemma_double_down_exact(m, -809, 1482030330018987931, 50596862108325402, 434985533774035997, 14850507864572003);
    } else if e2 == -808 {
        lemma_double_down_exact(m, -808, 1482030330018987931, 25298431054162701, 869971067548071994, 14850507864572003);
    } else if e2 == -807 {
        lemma_double_down_exact(m, -807, 70829491478751976, 6045338514609393, 470400279513411985, 40148938918734704);
    } else if e2 == -806 {
        lemma_double_down_exact(m, -806, 1082459541984327922, 46194277433344097, 470400279513411985, 20074469459367352);
    } else if e2 == -805 {
        lemma_double_down_exact(m, -805, 1694518804455243859, 36157042703660421, 470400279513411985, 10037234729683676);
    }
}

proof fn lemma_exact_17(m: nat, e2: int)
    requires
        -804 <= e2 < -788,
        m < 0x80_0000_0000_0000,
    ensures
        fixed_point_product(m, wide(double_multiplier(e2)), double_shift(e2) as nat) == double_scaled(m, e2),
{
    reveal(spec_log10_pow2);
    reveal(spec_log10_pow5);
    reveal(spec_pow5bits);
    lemma_shift_powers();
    if e2 == -804 {
        lemma_double_down_exact(m, -804, 3389037608910487718, 36157042703660421, 470400279513411985, 5018617364841838);
    } else if e2 == -803 {
        lemma_double_down_exact(m, -803, 754796043635380602, 40263927302730641, 94080055902682397, 5018617364841838);
    } else if e2 == -802 {
        lemma_double_down_exact(m, -802, 1415512031368078807, 37754618620309722, 94080055902682397, 2509308682420919);
    } else if e2 == -801 {
        lemma_double_down_exact(m, -801, 2732632814005632365, 36442470087101294, 188160111805364794, 2509308682420919);
    } else if e2 == -800 {
        lemma_double_down_exact(m, -800, 546526562801126473, 36442470087101294, 188160111805364794, 12546543412104595);
    } else if e2 == -799 {
        lemma_double_down_exact(m, -799, 1299167010022585649, 43314321867759837, 376320223610729588, 12546543412104595);
    } else if e2 == -798 {
        lemma_double_down_exact(m, -798, 2428127680854774413, 40476976052036811, 752640447221459176, 12546543412104595);
    } else if e2 == -797 {
        lemma_double_down_exact(m, -797, 34041267838079377, 2837345815723026, 446269036678744783, 37196604719015741);
    } else if e2 == -796 {
        lemma_double_down_exact(m, -796, 34041267838079377, 1418672907861513, 892538073357489566, 37196604719015741);
    } else if e2 == -795 {
        lemma_double_down_exact(m, -795, 3146726860238154212, 65570062876246001, 1539322162280997729, 32075694984192244);
    } else if e2 == -794 {
        lemma_double_down_exact(m, -794, 4754131558195310695, 49532215384149879, 1539322162280997729, 16037847492096122);
    } else if e2 == -793 {
        lemma_double_down_exact(m, -793, 362330460997126549, 18875193307819148, 588495850641935590, 30657022076330731);
    } else if e2 == -792 {
        lemma_double_down_exact(m, -792, 362330460997126549, 9437596653909574, 1539322162280997729, 40094618730240305);
    } else if e2 == -791 {
        lemma_double_down_exact(m, -791, 362330460997126549, 4718798326954787, 3078644324561995458, 40094618730240305);
    } else if e2 == -790 {
        lemma_double_down_exact(m, -790, 362330460997126549, 23593991634773935, 470796680513548472, 30657022076330731);
    } else if e2 == -789 {
        lemma_double_down_exact(m, -789, 833127141510675021, 27125506855552333, 1774720502537771965, 57782528931883064);
    }
}

proof fn lemma_exact_18(m: nat, e2: int)
    requires
        -788 <= e2 < -772,
        m < 0x80_0000_0000_0000,
    ensures
        fixed_point_product(m, wide(double_multiplier(e2)), double_shift(e2) as nat) == double_scaled(m, e2),
{
    reveal(spec_log10_pow2);
    reveal(spec_log10_pow5);
    reveal(spec_pow5bits);
    lemma_shift_powers();
    if e2 == -788 {
        lemma_double_down_exact(m, -788, 1666254283021350042, 27125506855552333, 1774720502537771965, 28891264465941532);
    } else if e2 == -787 {
        lemma_double_down_exact(m, -787, 246477880991132470, 20062476413995537, 354944100507554393, 28891264465941532);
    } else if e2 == -786 {
        lemma_double_down_exact(m, -786, 1202843962997373726, 48953740879937069, 354944100507554393, 14445632232970766);
    } else if e2 == -785 {
        lemma_double_down_exact(m, -785, 2050743825487193059, 41730924763451686, 354944100507554393, 7222816116485383);
    } else if e2 == -784 {
        lemma_double_down_exact(m, -784, 4180408428532519417, 42533910731181992, 709888201015108786, 7222816116485383);
    } else if e2 == -783 {
        lemma_double_down_exact(m, -783, 552126405300460369, 28088278498211226, 157761795714648417, 8025802084215689);
    } else if e2 == -782 {
        lemma_double_down_exact(m, -782, 552126405300460369, 14044139249105613, 1419776402030217572, 36114080582426915);
    } else if e2 == -781 {
        lemma_double_down_exact(m, -781, 1971902807330677941, 25079109915766264, 867649996729757203, 11034970666660651);
    } else if e2 == -780 {
        lemma_double_down_exact(m, -780, 47320562774232707, 3009168582444962, 583726620084360961, 37119841838633483);
    } else if e2 == -779 {
        lemma_double_down_exact(m, -779, 47320562774232707, 1504584291222481, 1167453240168721922, 37119841838633483);
    } else if e2 == -778 {
        lemma_double_down_exact(m, -778, 3849164489112890468, 61193190498193179, 1877261681782212527, 29844303103485349);
    } else if e2 == -777 {
        lemma_double_down_exact(m, -777, 413308786575828671, 32853471685930311, 318667661027363257, 25330550229817906);
    } else if e2 == -776 {
        lemma_double_down_exact(m, -776, 826617573151657342, 32853471685930311, 318667661027363257, 12665275114908953);
    } else if e2 == -775 {
        lemma_double_down_exact(m, -775, 2798520380482335283, 55612845086349943, 1145285234179020599, 22759373400419632);
    } else if e2 == -774 {
        lemma_double_down_exact(m, -774, 101589982424858817, 10094098285510679, 434155357205008880, 43138179003523407);
    } else if e2 == -773 {
        lemma_double_down_exact(m, -773, 203179964849717634, 10094098285510679, 738925304479585331, 36710236930027722);
    }
}

proof fn lemma_exact_19(m: nat, e2: int)
    requires
        -772 <= e2 < -756,
        m < 0x80_0000_0000_0000,
    ensures
        fixed_point_product(m, wide(double_multiplier(e2)), double_shift(e2) as nat) == double_scaled(m, e2),
{
    reveal(spec_log10_pow2);
    reveal(spec_log10_pow5);
    reveal(spec_pow5bits);
    lemma_shift_powers();
    if e2 == -772 {
        lemma_double_down_exact(m, -772, 406359929699435268, 10094098285510679, 1145285234179020599, 28449216750524540);
    } else if e2 == -771 {
        lemma_double_down_exact(m, -771, 3103290327756911734, 38543315036035219, 1145285234179020599, 14224608375262270);
    } else if e2 == -770 {
        lemma_double_down_exact(m, -770, 391601018715578227, 24318706660772949, 362083196747864145, 22485628554765452);
    } else if e2 == -769 {
        lemma_double_down_exact(m, -769, 783202037431156454, 24318706660772949, 1145285234179020599, 35561520938155675);
    } else if e2 == -768 {
        lemma_double_down_exact(m, -768, 1928487271610177053, 29940113799464312, 2290570468358041198, 35561520938155675);
    } else if e2 == -767 {
        lemma_double_down_exact(m, -767, 480154484618720473, 37272426223494300, 72416639349572829, 5621407138691363);
    } else if e2 == -766 {
        lemma_double_down_exact(m, -766, 1059487599415303105, 41121841666512602, 144833278699145658, 5621407138691363);
    } else if e2 == -765 {
        lemma_double_down_exact(m, -765, 1928487271610177053, 37425142249330390, 289666557398291316, 5621407138691363);
    } else if e2 == -764 {
        lemma_double_down_exact(m, -764, 211897519883060621, 20560920833256301, 501564077281351937, 48667956526713116);
    } else if e2 == -763 {
        lemma_double_down_exact(m, -763, 423795039766121242, 20560920833256301, 501564077281351937, 24333978263356558);
    } else if e2 == -762 {
        lemma_double_down_exact(m, -762, 1850718234094946358, 44894899096612859, 501564077281351937, 12166989131678279);
    } else if e2 == -761 {
        lemma_double_down_exact(m, -761, 3355410465939002169, 40697933245823848, 1003128154562703874, 12166989131678279);
    } else if e2 == -760 {
        lemma_double_down_exact(m, -760, 470456462275259659, 28530944114145569, 1003128154562703874, 60834945658391395);
    } else if e2 == -759 {
        lemma_double_down_exact(m, -759, 1473584616837963533, 44682944886268482, 532671692287444215, 16152000772122913);
    } else if e2 == -758 {
        lemma_double_down_exact(m, -758, 1473584616837963533, 22341472443134241, 1065343384574888430, 16152000772122913);
    } else if e2 == -757 {
        lemma_double_down_exact(m, -757, 621309909178052789, 47099359127179553, 213068676914977686, 16152000772122913);
    }
}

proof fn lemma_exact_20(m: nat, e2: int)
    requires
        -756 <= e2 < -740,
        m < 0x80_0000_0000_0000,
    ensures
        fixed_point_product(m, wide(double_multiplier(e2)), double_shift(e2) as nat) == double_scaled(m, e2),
{
    reveal(spec_log10_pow2);
    reveal(spec_log10_pow5);
    reveal(spec_pow5bits);
    lemma_shift_powers();
    if e2 == -756 {
        lemma_double_down_exact(m, -756, 1260515939922985847, 47777680721774146, 426137353829955372, 16152000772122913);
    } else if e2 == -755 {
        lemma_double_down_exact(m, -755, 1260515939922985847, 23888840360887073, 852274707659910744, 16152000772122913);
    } else if e2 == -754 {
        lemma_double_down_exact(m, -754, 333751434437212190, 31625679949651233, 259261636611349277, 24567161955481666);
    } else if e2 == -753 {
        lemma_double_down_exact(m, -753, 926764505485773657, 43909260927392066, 259261636611349277, 12283580977740833);
    } else if e2 == -752 {
        lemma_double_down_exact(m, -752, 926764505485773657, 21954630463696033, 2372052284194245868, 56192841905132899);
    } else if e2 == -751 {
        lemma_double_down_exact(m, -751, 1853529010971547314, 21954630463696033, 1445287778708472211, 17119105720718433);
    } else if e2 == -750 {
        lemma_double_down_exact(m, -750, 534002295099539504, 31625679949651233, 125761062836464401, 7448056234763233);
    } else if e2 == -749 {
        lemma_double_down_exact(m, -749, 1727767948135082913, 51162548041858466, 659763357936003905, 19536868092207233);
    } else if e2 == -748 {
        lemma_double_down_exact(m, -748, 3047294664007090723, 45118142113136466, 1319526715872007810, 19536868092207233);
    } else if e2 == -747 {
        lemma_double_down_exact(m, -747, 672146575437476665, 49758897735817233, 263905343174401562, 19536868092207233);
    } else if e2 == -746 {
        lemma_double_down_exact(m, -746, 1463862604960681351, 54184751006219466, 527810686348803124, 19536868092207233);
    } else if e2 == -745 {
        lemma_double_down_exact(m, -745, 2519483977658287599, 46629243595316966, 1055621372697606248, 19536868092207233);
    } else if e2 == -744 {
        lemma_double_down_exact(m, -744, 408241232263075103, 37777537054512500, 129476028086906229, 11981360681304733);
    } else if e2 == -743 {
        lemma_double_down_exact(m, -743, 667193288436887561, 30870129208560983, 258952056173812458, 11981360681304733);
    } else if e2 == -742 {
        lemma_double_down_exact(m, -742, 2260531921484475141, 52295874153493841, 926145344610700019, 21425744944932858);
    } else if e2 == -741 {
        lemma_double_down_exact(m, -741, 3594918498358250263, 41583001681027412, 926145344610700019, 10712872472466429);
    }
}

proof fn lemma_exact_21(m: nat, e2: int)
    requires
        -740 <= e2 < -724,
        m < 0x80_0000_0000_0000,
    ensures
        fixed_point_product(m, wide(double_multiplier(e2)), double_shift(e2) as nat) == double_scaled(m, e2),
{
    reveal(spec_log10_pow2);
    reveal(spec_log10_pow5);
    reveal(spec_pow5bits);
    lemma_shift_powers();
    if e2 == -740 {
        lemma_double_down_exact(m, -740, 348525561827370045, 20157256736094554, 926145344610700019, 53564362362332145);
    } else if e2 == -739 {
        lemma_double_down_exact(m, -739, 348525561827370045, 10078628368047277, 1503765127394029993, 43485733994284868);
    } else if e2 == -738 {
        lemma_double_down_exact(m, -738, 2200816251048770083, 31821495365189711, 1503765127394029993, 21742866997142434);
    } else if e2 == -737 {
        lemma_double_down_exact(m, -737, 139410224730948018, 10078628368047277, 527893554277393867, 38163936409381231);
    } else if e2 == -736 {
        lemma_double_down_exact(m, -736, 278820449461896036, 10078628368047277, 1224944677932133957, 44278539124808808);
    } else if e2 == -735 {
        lemma_double_down_exact(m, -735, 557640898923792072, 10078628368047277, 1782585576855926029, 32217897930451681);
    } else if e2 == -734 {
        lemma_double_down_exact(m, -734, 424180143122123695, 38332500645879258, 133460755801668377, 12060641194357127);
    } else if e2 == -733 {
        lemma_double_down_exact(m, -733, 691101654725460449, 31226891517296756, 266921511603336754, 12060641194357127);
    } else if e2 == -732 {
        lemma_double_down_exact(m, -732, 691101654725460449, 15613445758648378, 1916046332657594406, 43287532711653883);
    } else if e2 == -731 {
        lemma_double_down_exact(m, -731, 691101654725460449, 7806722879324189, 3832092665315188812, 43287532711653883);
    } else if e2 == -730 {
        lemma_double_down_exact(m, -730, 339344114497698956, 19166250322939629, 351757540227761493, 19867364073681316);
    } else if e2 == -729 {
        lemma_double_down_exact(m, -729, 1382203309450920898, 39033614396620945, 351757540227761493, 9933682036840658);
    } else if e2 == -728 {
        lemma_double_down_exact(m, -728, 2764406618901841796, 39033614396620945, 351757540227761493, 4966841018420329);
    } else if e2 == -727 {
        lemma_double_down_exact(m, -727, 763935847917025255, 53934137451881932, 351757540227761493, 24834205092101645);
    } else if e2 == -726 {
        lemma_double_down_exact(m, -726, 763935847917025255, 26967068725940966, 703515080455522986, 24834205092101645);
    } else if e2 == -725 {
        lemma_double_down_exact(m, -725, 763935847917025255, 13483534362970483, 2170966008828071227, 38317739455072128);
    }
}

proof fn lemma_exact_22(m: nat, e2: int)
    requires
        -724 <= e2 < -708,
        m < 0x80_0000_0000_0000,
    ensures
        fixed_point_product(m, wide(double_multiplier(e2)), double_shift(e2) as nat) == double_scaled(m, e2),
{
    reveal(spec_log10_pow2);
    reveal(spec_log10_pow5);
    reveal(spec_pow5bits);
    lemma_shift_powers();
    if e2 == -724 {
        lemma_double_down_exact(m, -724, 152787169583405051, 13483534362970483, 490307143410615666, 43269819282685327);
    } else if e2 == -723 {
        lemma_double_down_exact(m, -723, 305574339166810102, 13483534362970483, 948668652160830819, 41860211185798388);
    } else if e2 == -722 {
        lemma_double_down_exact(m, -722, 611148678333620204, 13483534362970483, 2170966008828071227, 47897174318840160);
    } else if e2 == -721 {
        lemma_double_down_exact(m, -721, 1222297356667240408, 13483534362970483, 3393263365495311635, 37432121522390563);
    } else if e2 == -720 {
        lemma_double_down_exact(m, -720, 543644683568178081, 29985550292461852, 135007989530884246, 7446571229928711);
    } else if e2 == -719 {
        lemma_double_down_exact(m, -719, 543644683568178081, 14992775146230926, 1357305346198124654, 37432121522390563);
    } else if e2 == -718 {
        lemma_double_down_exact(m, -718, 543644683568178081, 7496387573115463, 2714610692396249308, 37432121522390563);
    } else if e2 == -717 {
        lemma_double_down_exact(m, -717, 543644683568178081, 37481937865577315, 216735328338343013, 14942958803044174);
    } else if e2 == -716 {
        lemma_double_down_exact(m, -716, 1087289367136356162, 37481937865577315, 216735328338343013, 7471479401522087);
    } else if e2 == -715 {
        lemma_double_down_exact(m, -715, 1304024695474699175, 22476708633549701, 3041520047626084376, 52424896668621489);
    } else if e2 == -714 {
        lemma_double_down_exact(m, -714, 260804939094939835, 22476708633549701, 172665717581746191, 14880688374060734);
    } else if e2 == -713 {
        lemma_double_down_exact(m, -713, 521609878189879670, 22476708633549701, 1215885473961505531, 52393761454129769);
    } else if e2 == -712 {
        lemma_double_down_exact(m, -712, 1043219756379759340, 22476708633549701, 694275595771625861, 14958526410290034);
    } else if e2 == -711 {
        lemma_double_down_exact(m, -711, 2086439512759518680, 22476708633549701, 2780715108531144541, 29955971838694718);
    } else if e2 == -710 {
        lemma_double_down_exact(m, -710, 417287902551903736, 22476708633549701, 276987693219722125, 14919607392175384);
    } else if e2 == -709 {
        lemma_double_down_exact(m, -709, 834575805103807472, 22476708633549701, 1946139303427337069, 52413220963187094);
    }
}

proof fn lemma_exact_23(m: nat, e2: int)
    requires
        -708 <= e2 < -692,
        m < 0x80_0000_0000_0000,
    ensures
        fixed_point_product(m, wide(double_multiplier(e2)), double_shift(e2) as nat) == double_scaled(m, e2),
{
    reveal(spec_log10_pow2);
    reveal(spec_log10_pow5);
    reveal(spec_pow5bits);
    lemma_shift_powers();
    if e2 == -708 {
        lemma_double_down_exact(m, -708, 1669151610207614944, 22476708633549701, 3615290913634952013, 48683319115143248);
    } else if e2 == -707 {
        lemma_double_down_exact(m, -707, 561200837328726444, 37785506206871585, 55397538643944425, 3729901848043846);
    } else if e2 == -706 {
        lemma_double_down_exact(m, -706, 1122401674657452888, 37785506206871585, 55397538643944425, 1864950924021923);
    } else if e2 == -705 {
        lemma_double_down_exact(m, -705, 2174954908892396963, 36609786881644061, 110795077287888850, 1864950924021923);
    } else if e2 == -704 {
        lemma_double_down_exact(m, -704, 446551703201330903, 37582762334510311, 22159015457577770, 1864950924021923);
    } else if e2 == -703 {
        lemma_double_down_exact(m, -703, 867572996895308533, 36508414945463424, 44318030915155540, 1864950924021923);
    } else if e2 == -702 {
        lemma_double_down_exact(m, -702, 1753933615198419333, 36903716712950942, 88636061830311080, 1864950924021923);
    } else if e2 == -701 {
        lemma_double_down_exact(m, -701, 3526654851804640933, 37101367596694701, 177272123660622160, 1864950924021923);
    } else if e2 == -700 {
        lemma_double_down_exact(m, -700, 690300873234686373, 36310764061719665, 35454424732124432, 1864950924021923);
    } else if e2 == -699 {
        lemma_double_down_exact(m, -699, 1434843792609299445, 37737366733090024, 70908849464248864, 1864950924021923);
    } else if e2 == -698 {
        lemma_double_down_exact(m, -698, 2853020781894276725, 37518192606764242, 141817698928497728, 1864950924021923);
    } else if e2 == -697 {
        lemma_double_down_exact(m, -697, 570604156378855345, 37518192606764242, 141817698928497728, 9324754620109615);
    } else if e2 == -696 {
        lemma_double_down_exact(m, -696, 570604156378855345, 18759096303382121, 854239554235850801, 28083850923491736);
    } else if e2 == -695 {
        lemma_double_down_exact(m, -695, 2849687421229412292, 46842947226873857, 854239554235850801, 14041925461745868);
    } else if e2 == -694 {
        lemma_double_down_exact(m, -694, 228241662551542138, 18759096303382121, 625997891684308663, 51450531005347219);
    } else if e2 == -693 {
        lemma_double_down_exact(m, -693, 456483325103084276, 18759096303382121, 1310722879338935077, 53863909957746791);
    }
}

proof fn lemma_exact_24(m: nat, e2: int)
    requires
        -692 <= e2 < -676,
        m < 0x80_0000_0000_0000,
    ensures
        fixed_point_product(m, wide(double_multiplier(e2)), double_shift(e2) as nat) == double_scaled(m, e2),
{
    reveal(spec_log10_pow2);
    reveal(spec_log10_pow5);
    reveal(spec_pow5bits);
    lemma_shift_powers();
    if e2 == -692 {
        lemma_double_down_exact(m, -692, 1767206204442019353, 36311503130564456, 854239554235850801, 17552406827182335);
    } else if e2 == -691 {
        lemma_double_down_exact(m, -691, 1767206204442019353, 18155751565282228, 5242891517355740308, 53863909957746791);
    } else if e2 == -690 {
        lemma_double_down_exact(m, -690, 376932079276530971, 19362441041482014, 695137062582744191, 35708158392464563);
    } else if e2 == -689 {
        lemma_double_down_exact(m, -689, 376932079276530971, 9681220520741007, 1390274125165488382, 35708158392464563);
    } else if e2 == -688 {
        lemma_double_down_exact(m, -688, 1767206204442019353, 22694689456602785, 4547754454772996117, 58402847849067348);
    } else if e2 == -687 {
        lemma_double_down_exact(m, -687, 504214072599016259, 32375909977343792, 254563986644970576, 16345717350982549);
    } else if e2 == -686 {
        lemma_double_down_exact(m, -686, 504214072599016259, 16187954988671896, 1517556118487973670, 48721627328326341);
    } else if e2 == -685 {
        lemma_double_down_exact(m, -685, 504214072599016259, 8093977494335948, 2530898164376931081, 40627649833990393);
    } else if e2 == -684 {
        lemma_double_down_exact(m, -684, 504214072599016259, 40469887471679740, 102808374796173209, 8251739856646601);
    } else if e2 == -683 {
        lemma_double_down_exact(m, -683, 504214072599016259, 20234943735839870, 1214044894790378936, 48721627328326341);
    } else if e2 == -682 {
        lemma_double_down_exact(m, -682, 504214072599016259, 10117471867919935, 1923875716981741613, 38604155460406406);
    } else if e2 == -681 {
        lemma_double_down_exact(m, -681, 1008428145198032518, 10117471867919935, 2932303862179774131, 29419549598123138);
    } else if e2 == -680 {
        lemma_double_down_exact(m, -680, 825338630841290699, 41402753477316407, 183089514356741819, 9184605862283268);
    } else if e2 == -679 {
        lemma_double_down_exact(m, -679, 1467587747325839579, 36810450546174773, 183089514356741819, 4592302931141634);
    } else if e2 == -678 {
        lemma_double_down_exact(m, -678, 2935175494651679158, 36810450546174773, 183089514356741819, 2296151465570817);
    } else if e2 == -677 {
        lemma_double_down_exact(m, -677, 696888807544380923, 43698904942887224, 183089514356741819, 11480757327854085);
    }
}

proof fn lemma_exact_25(m: nat, e2: int)
    requires
        -676 <= e2 < -660,
        m < 0x80_0000_0000_0000,
    ensures
        fixed_point_product(m, wide(double_multiplier(e2)), double_shift(e2) as nat) == double_scaled(m, e2),
{
    reveal(spec_log10_pow2);
    reveal(spec_log10_pow5);
    reveal(spec_pow5bits);
    lemma_shift_powers();
    if e2 == -676 {
        lemma_double_down_exact(m, -676, 696888807544380923, 21849452471443612, 1063067836257864561, 33330209799297697);
    } else if e2 == -675 {
        lemma_double_down_exact(m, -675, 696888807544380923, 10924726235721806, 2126135672515729122, 33330209799297697);
    } else if e2 == -674 {
        lemma_double_down_exact(m, -674, 132283911532358914, 10368695143589527, 432320984479663095, 33886240891429976);
    } else if e2 == -673 {
        lemma_double_down_exact(m, -673, 1129209792024044018, 44254936035019503, 432320984479663095, 16943120445714988);
    } else if e2 == -672 {
        lemma_double_down_exact(m, -672, 2258419584048088036, 44254936035019503, 432320984479663095, 8471560222857494);
    } else if e2 == -671 {
        lemma_double_down_exact(m, -671, 442671449233503037, 43371915495090141, 86464196895932619, 8471560222857494);
    } else if e2 == -670 {
        lemma_double_down_exact(m, -670, 798878701571073455, 39136135383661394, 86464196895932619, 4235780111428747);
    } else if e2 == -669 {
        lemma_double_down_exact(m, -669, 1490592276738534407, 36511188137545685, 172928393791865238, 4235780111428747);
    } else if e2 == -668 {
        lemma_double_down_exact(m, -668, 3046947820865321549, 37316604570202204, 345856787583730476, 4235780111428747);
    } else if e2 == -667 {
        lemma_double_down_exact(m, -667, 332704134106079929, 20373484124487216, 345856787583730476, 21178900557143735);
    } else if e2 == -666 {
        lemma_double_down_exact(m, -666, 1024417709273540881, 31365642619387343, 691713575167460952, 21178900557143735);
    } else if e2 == -665 {
        lemma_double_down_exact(m, -665, 2048835418547081762, 31365642619387343, 1716131284441001833, 26272271588265539);
    } else if e2 == -664 {
        lemma_double_down_exact(m, -664, 542848737351848324, 41552384681630951, 210144603245768395, 16085529526021931);
    } else if e2 == -663 {
        lemma_double_down_exact(m, -663, 332704134106079929, 12733427577804510, 752993340597616719, 28818957103826441);
    } else if e2 == -662 {
        lemma_double_down_exact(m, -662, 3344677496496546805, 64004627996555137, 1505986681195233438, 28818957103826441);
    } else if e2 == -661 {
        lemma_double_down_exact(m, -661, 500819816702694645, 47919098470533206, 168115682596614716, 16085529526021931);
    }
}

proof fn lemma_exact_26(m: nat, e2: int)
    requires
        -660 <= e2 < -644,
        m < 0x80_0000_0000_0000,
    ensures
        fixed_point_product(m, wide(double_multiplier(e2)), double_shift(e2) as nat) == double_scaled(m, e2),
{
    reveal(spec_log10_pow2);
    reveal(spec_log10_pow5);
    reveal(spec_pow5bits);
    lemma_shift_powers();
    if e2 == -660 {
        lemma_double_down_exact(m, -660, 500819816702694645, 23959549235266603, 336231365193229432, 16085529526021931);
    } else if e2 == -659 {
        lemma_double_down_exact(m, -659, 1838690815301313367, 43982088615910870, 837051181895924077, 20022539380644267);
    } else if e2 == -658 {
        lemma_double_down_exact(m, -658, 3512793179093161521, 42013583688599702, 1674102363791848154, 20022539380644267);
    } else if e2 == -657 {
        lemma_double_down_exact(m, -657, 400655853362155716, 23959549235266603, 236067401852690503, 14117024598710763);
    } else if e2 == -656 {
        lemma_double_down_exact(m, -656, 1438034961939157651, 42997836152255286, 636723255214846219, 19038286916988683);
    } else if e2 == -655 {
        lemma_double_down_exact(m, -655, 1438034961939157651, 21498918076127643, 1273446510429692438, 19038286916988683);
    } else if e2 == -654 {
        lemma_double_down_exact(m, -654, 608131675077556103, 45458467311394246, 221771611784045445, 16577655757849723);
    } else if e2 == -653 {
        lemma_double_down_exact(m, -653, 608131675077556103, 22729233655697123, 443543223568090890, 16577655757849723);
    } else if e2 == -652 {
        lemma_double_down_exact(m, -652, 2267938248800759199, 42382678362470546, 1051674898645646993, 19653444706773423);
    } else if e2 == -651 {
        lemma_double_down_exact(m, -651, 519423030363937925, 48534256260317946, 177417289427236356, 16577655757849723);
    } else if e2 == -650 {
        lemma_double_down_exact(m, -650, 519423030363937925, 24267128130158973, 354834578854472712, 16577655757849723);
    } else if e2 == -649 {
        lemma_double_down_exact(m, -649, 1913103669946286487, 44689520074163321, 874257609218410637, 20422391944004348);
    } else if e2 == -648 {
        lemma_double_down_exact(m, -648, 3826207339892572974, 44689520074163321, 874257609218410637, 10211195972002174);
    } else if e2 == -647 {
        lemma_double_down_exact(m, -647, 415538424291150340, 24267128130158973, 874257609218410637, 51055979860010870);
    } else if e2 == -646 {
        lemma_double_down_exact(m, -646, 831076848582300680, 24267128130158973, 874257609218410637, 25527989930005435);
    } else if e2 == -645 {
        lemma_double_down_exact(m, -645, 1705334457800711317, 24897559030082204, 1748515218436821274, 25527989930005435);
    }
}

proof fn lemma_exact_27(m: nat, e2: int)
    requires
        -644 <= e2 < -628,
        m < 0x80_0000_0000_0000,
    ensures
        fixed_point_product(m, wide(double_multiplier(e2)), double_shift(e2) as nat) == double_scaled(m, e2),
{
    reveal(spec_log10_pow2);
    reveal(spec_log10_pow5);
    reveal(spec_pow5bits);
    lemma_shift_powers();
    if e2 == -644 {
        lemma_double_down_exact(m, -644, 332430739432920272, 24267128130158973, 708042239501950501, 51686410759934101);
    } else if e2 == -643 {
        lemma_double_down_exact(m, -643, 1040472978934870773, 37976769445046537, 375611500069030229, 13709641314887564);
    } else if e2 == -642 {
        lemma_double_down_exact(m, -642, 2080945957869741546, 37976769445046537, 375611500069030229, 6854820657443782);
    } else if e2 == -641 {
        lemma_double_down_exact(m, -641, 115699991518724126, 10557486815271409, 491311491587754355, 44831590102490319);
    } else if e2 == -640 {
        lemma_double_down_exact(m, -640, 607011483106478481, 27694538458880864, 375611500069030229, 17137051643609455);
    } else if e2 == -639 {
        lemma_double_down_exact(m, -639, 607011483106478481, 13847269229440432, 1965245966351017420, 44831590102490319);
    } else if e2 == -638 {
        lemma_double_down_exact(m, -638, 607011483106478481, 6923634614720216, 3323480449595556359, 37907955487770103);
    } else if e2 == -637 {
        lemma_double_down_exact(m, -637, 607011483106478481, 34618173073601080, 179086903433928487, 10213417028889239);
    } else if e2 == -636 {
        lemma_double_down_exact(m, -636, 607011483106478481, 17309086536800540, 1572196773080813936, 44831590102490319);
    } else if e2 == -635 {
        lemma_double_down_exact(m, -635, 607011483106478481, 8654543268400270, 2537382063055149391, 36177046834090049);
    } else if e2 == -634 {
        lemma_double_down_exact(m, -634, 220937367116744299, 15750212776311571, 386074115989734182, 27522503565689779);
    } else if e2 == -633 {
        lemma_double_down_exact(m, -633, 607011483106478481, 21636358171000675, 1379159715085946845, 49158861736690454);
    } else if e2 == -632 {
        lemma_double_down_exact(m, -632, 1214022966212956962, 21636358171000675, 1379159715085946845, 24579430868345227);
    } else if e2 == -631 {
        lemma_double_down_exact(m, -631, 662359080178578224, 59022929118312921, 275831943017189369, 24579430868345227);
    } else if e2 == -630 {
        lemma_double_down_exact(m, -630, 386527137161388855, 17221749124983847, 551663886034378738, 24579430868345227);
    } else if e2 == -629 {
        lemma_double_down_exact(m, -629, 938191023195767593, 20900589996664537, 1103327772068757476, 24579430868345227);
    }
}

proof fn lemma_exact_28(m: nat, e2: int)
    requires
        -628 <= e2 < -612,
        m < 0x80_0000_0000_0000,
    ensures
        fixed_point_product(m, wide(double_multiplier(e2)), double_shift(e2) as nat) == double_scaled(m, e2),
{
    reveal(spec_log10_pow2);
    reveal(spec_log10_pow5);
    reveal(spec_pow5bits);
    lemma_shift_powers();
    if e2 == -628 {
        lemma_double_down_exact(m, -628, 2041518795264525069, 22740010432504882, 2206655544137514952, 24579430868345227);
    } else if e2 == -627 {
        lemma_double_down_exact(m, -627, 309221709729111084, 17221749124983847, 474358458602100967, 26418851304185572);
    } else if e2 == -626 {
        lemma_double_down_exact(m, -626, 1567160336662424102, 43640600429169419, 474358458602100967, 13209425652092786);
    } else if e2 == -625 {
        lemma_double_down_exact(m, -625, 2659962214722747237, 37035887603123026, 474358458602100967, 6604712826046393);
    } else if e2 == -624 {
        lemma_double_down_exact(m, -624, 437120751224129254, 30431174777076633, 474358458602100967, 33023564130231965);
    } else if e2 == -623 {
        lemma_double_down_exact(m, -623, 911479209826230221, 31727369453654299, 1860196127030432155, 64750933583886264);
    } else if e2 == -622 {
        lemma_double_down_exact(m, -622, 1822958419652460442, 31727369453654299, 1860196127030432155, 32375466791943132);
    } else if e2 == -621 {
        lemma_double_down_exact(m, -621, 334801518028114718, 29134980100498967, 372039225406086431, 32375466791943132);
    } else if e2 == -620 {
        lemma_double_down_exact(m, -620, 1041642261462315867, 45322713496470533, 372039225406086431, 16187733395971566);
    } else if e2 == -619 {
        lemma_double_down_exact(m, -619, 1711245297518545303, 37228846798484750, 372039225406086431, 8093866697985783);
    } else if e2 == -618 {
        lemma_double_down_exact(m, -618, 3943480649955063889, 42896023493199724, 744078450812172862, 8093866697985783);
    } else if e2 == -617 {
        lemma_double_down_exact(m, -617, 491064749666143633, 26708290097228158, 253013701146029229, 13761043392700757);
    } else if e2 == -616 {
        lemma_double_down_exact(m, -616, 491064749666143633, 13354145048614079, 1488156901624345724, 40469333489928915);
    } else if e2 == -615 {
        lemma_double_down_exact(m, -615, 1979221651290489357, 26911739269271497, 997092151958202091, 13557594220657418);
    } else if e2 == -614 {
        lemma_double_down_exact(m, -614, 530257390029659551, 36049900264526206, 2992530525182965, 203449172043339);
    } else if e2 == -613 {
        lemma_double_down_exact(m, -613, 985122029857470231, 33487087207556867, 991107090907836161, 33690536379600206);
    }
}

proof fn lemma_exact_29(m: nat, e2: int)
    requires
        -612 <= e2 < -596,
        m < 0x80_0000_0000_0000,
    ensures
        fixed_point_product(m, wide(double_multiplier(e2)), double_shift(e2) as nat) == double_scaled(m, e2),
{
    reveal(spec_log10_pow2);
    reveal(spec_log10_pow5);
    reveal(spec_pow5bits);
    lemma_shift_powers();
    if e2 == -612 {
        lemma_double_down_exact(m, -612, 2961351150622776623, 50332355397356970, 991107090907836161, 16845268189800103);
    } else if e2 == -611 {
        lemma_double_down_exact(m, -611, 426117327753292369, 36212336346772511, 2394024420146372, 203449172043339);
    } else if e2 == -610 {
        lemma_double_down_exact(m, -610, 849859650119200213, 36111419899221757, 4788048840292744, 203449172043339);
    } else if e2 == -609 {
        lemma_double_down_exact(m, -609, 988713066487689789, 21005722944239294, 1987002230655965066, 42214895060521927);
    } else if e2 == -608 {
        lemma_double_down_exact(m, -608, 988713066487689789, 10502861472119647, 3974004461311930132, 42214895060521927);
    } else if e2 == -607 {
        lemma_double_down_exact(m, -607, 787140014117917636, 41807996716435249, 201573052369772153, 10706310644162986);
    } else if e2 == -606 {
        lemma_double_down_exact(m, -606, 1372706975866063119, 36454841394353756, 201573052369772153, 5353155322081493);
    } else if e2 == -605 {
        lemma_double_down_exact(m, -605, 2178999185345151731, 28933731341339864, 4761144475429847768, 63220618004761221);
    } else if e2 == -604 {
        lemma_double_down_exact(m, -604, 355170616121121485, 23580576019258371, 758316720860665791, 50346352629665836);
    } else if e2 == -603 {
        lemma_double_down_exact(m, -603, 710341232242242970, 23580576019258371, 1468657953102908761, 48753752334091289);
    } else if e2 == -602 {
        lemma_double_down_exact(m, -602, 2178999185345151731, 36167164176674830, 758316720860665791, 12586588157416459);
    } else if e2 == -601 {
        lemma_double_down_exact(m, -601, 284136492896897188, 23580576019258371, 190043735066871415, 15771788748565553);
    } else if e2 == -600 {
        lemma_double_down_exact(m, -600, 568272985793794376, 23580576019258371, 474180227963768603, 19676182383911962);
    } else if e2 == -599 {
        lemma_double_down_exact(m, -599, 1136545971587588752, 23580576019258371, 1610726199551357355, 33418667211214352);
    } else if e2 == -598 {
        lemma_double_down_exact(m, -598, 3883818142726534859, 40289909624865547, 1610726199551357355, 16709333605607176);
    } else if e2 == -597 {
        lemma_double_down_exact(m, -597, 984510983534091620, 51065545673863151, 322145239910271471, 16709333605607176);
    }
}

proof fn lemma_exact_30(m: nat, e2: int)
    requires
        -596 <= e2 < -580,
        m < 0x80_0000_0000_0000,
    ensures
        fixed_point_product(m, wide(double_multiplier(e2)), double_shift(e2) as nat) == double_scaled(m, e2),
{
    reveal(spec_log10_pow2);
    reveal(spec_log10_pow5);
    reveal(spec_pow5bits);
    lemma_shift_powers();
    if e2 == -596 {
        lemma_double_down_exact(m, -596, 1646876727157911769, 42710878871059563, 322145239910271471, 8354666802803588);
    } else if e2 == -595 {
        lemma_double_down_exact(m, -595, 2971608214405552067, 38533545469657769, 322145239910271471, 4177333401401794);
    } else if e2 == -594 {
        lemma_double_down_exact(m, -594, 787608786827273296, 51065545673863151, 322145239910271471, 20886667007008970);
    } else if e2 == -593 {
        lemma_double_down_exact(m, -593, 1253072333744275121, 40622212170358666, 322145239910271471, 10443333503504485);
    } else if e2 == -592 {
        lemma_double_down_exact(m, -592, 2541653293385361005, 41197773092188303, 644290479820542942, 10443333503504485);
    } else if e2 == -591 {
        lemma_double_down_exact(m, -591, 508330658677072201, 41197773092188303, 135959821143470741, 11018894425334122);
    } else if e2 == -590 {
        lemma_double_down_exact(m, -590, 1016661317354144402, 41197773092188303, 135959821143470741, 5509447212667061);
    } else if e2 == -589 {
        lemma_double_down_exact(m, -589, 1152621138497615143, 23353610152427682, 2577161919282171768, 52216667517522425);
    } else if e2 == -588 {
        lemma_double_down_exact(m, -588, 1152621138497615143, 11676805076213841, 4001702700066728393, 40539862441308584);
    } else if e2 == -587 {
        lemma_double_down_exact(m, -587, 1152621138497615143, 58384025381069205, 569816312313822650, 28863057365094743);
    } else if e2 == -586 {
        lemma_double_down_exact(m, -586, 582804826183792493, 14760484007987231, 1722437450811437793, 43623541373081974);
    } else if e2 == -585 {
        lemma_double_down_exact(m, -585, 1165609652367584986, 14760484007987231, 1722437450811437793, 21811770686540987);
    } else if e2 == -584 {
        lemma_double_down_exact(m, -584, 354878301258263433, 22469681337420706, 455853049851058120, 28863057365094743);
    } else if e2 == -583 {
        lemma_double_down_exact(m, -583, 354878301258263433, 11234840668710353, 911706099702116240, 28863057365094743);
    } else if e2 == -582 {
        lemma_double_down_exact(m, -582, 1266584400960379673, 20048949016902548, 3089996600364612153, 48912006381997291);
    } else if e2 == -581 {
        lemma_double_down_exact(m, -581, 172537081317840185, 13655572989228511, 364682439880846496, 28863057365094743);
    }
}

proof fn lemma_exact_31(m: nat, e2: int)
    requires
        -580 <= e2 < -564,
        m < 0x80_0000_0000_0000,
    ensures
        fixed_point_product(m, wide(double_multiplier(e2)), double_shift(e2) as nat) == double_scaled(m, e2),
{
    reveal(spec_log10_pow2);
    reveal(spec_log10_pow5);
    reveal(spec_pow5bits);
    lemma_shift_powers();
    if e2 == -580 {
        lemma_double_down_exact(m, -580, 537219521198686681, 21259315177161627, 729364879761692992, 28863057365094743);
    } else if e2 == -579 {
        lemma_double_down_exact(m, -579, 1266584400960379673, 25061186271128185, 2725314160483765657, 53924243636222928);
    } else if e2 == -578 {
        lemma_double_down_exact(m, -578, 138029665054272148, 13655572989228511, 330175023617278459, 32664928459061301);
    } else if e2 == -577 {
        lemma_double_down_exact(m, -577, 468204688671550607, 23160250724144906, 1128554735906107525, 55825179183206207);
    } else if e2 == -576 {
        lemma_double_down_exact(m, -576, 468204688671550607, 11580125362072453, 1788904783140664443, 44245053821133754);
    } else if e2 == -575 {
        lemma_double_down_exact(m, -575, 936409377343101214, 11580125362072453, 2725314160483765657, 33702652272639330);
    } else if e2 == -574 {
        lemma_double_down_exact(m, -574, 16782794309107597, 1037723813578029, 583970696851841677, 36108426725223656);
    } else if e2 == -573 {
        lemma_double_down_exact(m, -573, 919626583033993617, 28431451498392118, 886060994415778423, 27393727684814089);
    } else if e2 == -572 {
        lemma_double_down_exact(m, -572, 919626583033993617, 14215725749196059, 2691748571865550463, 41609453434010148);
    } else if e2 == -571 {
        lemma_double_down_exact(m, -571, 197351552054084801, 15253449562774088, 524923478925824015, 40571729620432119);
    } else if e2 == -570 {
        lemma_double_down_exact(m, -570, 197351552054084801, 7626724781387044, 1049846957851648030, 40571729620432119);
    } else if e2 == -569 {
        lemma_double_down_exact(m, -569, 197351552054084801, 3813362390693522, 1902342363649211259, 36758367229738597);
    } else if e2 == -568 {
        lemma_double_down_exact(m, -568, 197351552054084801, 19066811953467610, 419938783140659212, 40571729620432119);
    } else if e2 == -567 {
        lemma_double_down_exact(m, -567, 197351552054084801, 9533405976733805, 839877566281318424, 40571729620432119);
    } else if e2 == -566 {
        lemma_double_down_exact(m, -566, 1431932222443572827, 34585973775316767, 1037229118335403225, 25052567798582962);
    } else if e2 == -565 {
        lemma_double_down_exact(m, -565, 2863864444887145654, 34585973775316767, 1037229118335403225, 12526283899291481);
    }
}

proof fn lemma_exact_32(m: nat, e2: int)
    requires
        -564 <= e2 < -548,
        m < 0x80_0000_0000_0000,
    ensures
        fixed_point_product(m, wide(double_multiplier(e2)), double_shift(e2) as nat) == double_scaled(m, e2),
{
    reveal(spec_log10_pow2);
    reveal(spec_log10_pow5);
    reveal(spec_pow5bits);
    lemma_shift_powers();
    if e2 == -564 {
        lemma_double_down_exact(m, -564, 789406208216339204, 47667029883669025, 207445823667080645, 12526283899291481);
    } else if e2 == -563 {
        lemma_double_down_exact(m, -563, 1411743679217581139, 42622940790771734, 414891647334161290, 12526283899291481);
    } else if e2 == -562 {
        lemma_double_down_exact(m, -562, 3071310268554226299, 46364038193968829, 829783294668322580, 12526283899291481);
    } else if e2 == -561 {
        lemma_double_down_exact(m, -561, 581960384549258559, 43925932480471930, 165956658933664516, 12526283899291481);
    } else if e2 == -560 {
        lemma_double_down_exact(m, -560, 1245787020283916623, 47015534038818927, 331913317867329032, 12526283899291481);
    } else if e2 == -559 {
        lemma_double_down_exact(m, -559, 2241526973885903719, 42297192868346685, 663826635734658064, 12526283899291481);
    } else if e2 == -558 {
        lemma_double_down_exact(m, -558, 315540067630249131, 29770908969055204, 663826635734658064, 62631419496457405);
    } else if e2 == -557 {
        lemma_double_down_exact(m, -557, 315540067630249131, 14885454484527602, 1012113203839066997, 47745965011929803);
    } else if e2 == -556 {
        lemma_double_down_exact(m, -556, 315540067630249131, 7442727242263801, 1708686340047884863, 40303237769666002);
    } else if e2 == -555 {
        lemma_double_down_exact(m, -555, 631080135260498262, 7442727242263801, 3601926745829379649, 42479800611624404);
    } else if e2 == -554 {
        lemma_double_down_exact(m, -554, 163126840198821637, 9619290084222203, 467953295061676625, 27594346127096802);
    } else if e2 == -553 {
        lemma_double_down_exact(m, -553, 1262160270520996524, 37213636211319005, 467953295061676625, 13797173063548401);
    } else if e2 == -552 {
        lemma_double_down_exact(m, -552, 1730113565582673149, 25505404637433703, 935906590123353250, 13797173063548401);
    } else if e2 == -551 {
        lemma_double_down_exact(m, -551, 607025657434649249, 44743984805878109, 187181318024670650, 13797173063548401);
    } else if e2 == -550 {
        lemma_double_down_exact(m, -550, 1168569611508661199, 43067751998261656, 374362636049341300, 13797173063548401);
    } else if e2 == -549 {
        lemma_double_down_exact(m, -549, 1917294883607343799, 35331049062679229, 748725272098682600, 13797173063548401);
    }
}

proof fn lemma_exact_33(m: nat, e2: int)
    requires
        -548 <= e2 < -532,
        m < 0x80_0000_0000_0000,
    ensures
        fixed_point_product(m, wide(double_multiplier(e2)), double_shift(e2) as nat) == double_scaled(m, e2),
{
    reveal(spec_log10_pow2);
    reveal(spec_log10_pow5);
    reveal(spec_pow5bits);
    lemma_shift_powers();
    if e2 == -548 {
        lemma_double_down_exact(m, -548, 419844339409978599, 38683514677912135, 149745054419736520, 13797173063548401);
    } else if e2 == -547 {
        lemma_double_down_exact(m, -547, 869079502669188159, 40037516934278669, 299490108839473040, 13797173063548401);
    } else if e2 == -546 {
        lemma_double_down_exact(m, -546, 1767549829187607279, 40714518062461936, 598980217678946080, 13797173063548401);
    } else if e2 == -545 {
        lemma_double_down_exact(m, -545, 1767549829187607279, 20357259031230968, 4733060093733106718, 54511691126010337);
    } else if e2 == -544 {
        lemma_double_down_exact(m, -544, 809181480901293551, 46597602901961236, 239592087071578432, 13797173063548401);
    } else if e2 == -543 {
        lemma_double_down_exact(m, -543, 1288365655044450415, 37095974514529019, 479184174143156864, 13797173063548401);
    } else if e2 == -542 {
        lemma_double_down_exact(m, -542, 1767549829187607279, 25446573789038710, 958368348286313728, 13797173063548401);
    } else if e2 == -541 {
        lemma_double_down_exact(m, -541, 515346262017780166, 37095974514529019, 221511043134266781, 15944945401606493);
    } else if e2 == -540 {
        lemma_double_down_exact(m, -540, 293835218883513385, 10575514556461263, 736857305152046947, 26520459958067756);
    } else if e2 == -539 {
        lemma_double_down_exact(m, -539, 2061385048071120664, 37095974514529019, 736857305152046947, 13260229979033878);
    } else if e2 == -538 {
        lemma_double_down_exact(m, -538, 117534087553405354, 10575514556461263, 501789130045236239, 45150120782246864);
    } else if e2 == -537 {
        lemma_double_down_exact(m, -537, 235068175106810708, 10575514556461263, 736857305152046947, 33150574947584695);
    } else if e2 == -536 {
        lemma_double_down_exact(m, -536, 971925480258857655, 21863044752022979, 1473714610304093894, 33150574947584695);
    } else if e2 == -535 {
        lemma_double_down_exact(m, -535, 2445640090562951549, 27506809849803837, 5393069311171139337, 60657384797388532);
    } else if e2 == -534 {
        lemma_double_down_exact(m, -534, 388770192103543062, 21863044752022979, 890559322148779301, 50081870240927269);
    } else if e2 == -533 {
        lemma_double_down_exact(m, -533, 777540384207086124, 21863044752022979, 2056869898459408487, 57835502248498103);
    }
}

proof fn lemma_exact_34(m: nat, e2: int)
    requires
        -532 <= e2 < -516,
        m < 0x80_0000_0000_0000,
    ensures
        fixed_point_product(m, wide(double_multiplier(e2)), double_shift(e2) as nat) == double_scaled(m, e2),
{
    reveal(spec_log10_pow2);
    reveal(spec_log10_pow5);
    reveal(spec_pow5bits);
    lemma_shift_powers();
    if e2 == -532 {
        lemma_double_down_exact(m, -532, 2834410282666494611, 39849273500260541, 1279329514252322363, 17986228748237562);
    } else if e2 == -531 {
        lemma_double_down_exact(m, -531, 55150250832369977, 3876816003785417, 562376253431512662, 39532535691977389);
    } else if e2 == -530 {
        lemma_double_down_exact(m, -530, 110300501664739954, 3876816003785417, 1058728510922842455, 37211939863023071);
    } else if e2 == -529 {
        lemma_double_down_exact(m, -529, 2999861035163604542, 52719203878164739, 1389630015917062317, 24421193937189661);
    } else if e2 == -528 {
        lemma_double_down_exact(m, -528, 322046203849308445, 28298009940975078, 101445200519828537, 8913929922047993);
    } else if e2 == -527 {
        lemma_double_down_exact(m, -527, 322046203849308445, 14149004970487539, 846982808738273964, 37211939863023071);
    } else if e2 == -526 {
        lemma_double_down_exact(m, -526, 644092407698616890, 14149004970487539, 1813121420286199299, 39829477387242844);
    } else if e2 == -525 {
        lemma_double_down_exact(m, -525, 3101306235683433079, 34063743664108961, 1813121420286199299, 19914738693621422);
    } else if e2 == -524 {
        lemma_double_down_exact(m, -524, 257636963079446756, 14149004970487539, 782573567968412275, 42977673586156954);
    } else if e2 == -523 {
        lemma_double_down_exact(m, -523, 515273926158893512, 14149004970487539, 1813121420286199299, 49786846734053555);
    } else if e2 == -522 {
        lemma_double_down_exact(m, -522, 1030547852317787024, 14149004970487539, 2328395346445092811, 31967925852270547);
    } else if e2 == -521 {
        lemma_double_down_exact(m, -521, 671788639752575967, 46116930822758086, 313029427187364910, 21488836793078477);
    } else if e2 == -520 {
        lemma_double_down_exact(m, -520, 671788639752575967, 23058465411379043, 626058854374729820, 21488836793078477);
    } else if e2 == -519 {
        lemma_double_down_exact(m, -519, 1343577279505151934, 23058465411379043, 1297847494127305787, 22273651102228760);
    } else if e2 == -518 {
        lemma_double_down_exact(m, -518, 546576868877630003, 46901745131908369, 250423541749891928, 21488836793078477);
    } else if e2 == -517 {
        lemma_double_down_exact(m, -517, 296153327127738075, 12706454169414946, 797000410627521931, 34195290962493423);
    }
}

proof fn lemma_exact_35(m: nat, e2: int)
    requires
        -516 <= e2 < -500,
        m < 0x80_0000_0000_0000,
    ensures
        fixed_point_product(m, wide(double_multiplier(e2)), double_shift(e2) as nat) == double_scaled(m, e2),
{
    reveal(spec_log10_pow2);
    reveal(spec_log10_pow5);
    reveal(spec_pow5bits);
    lemma_shift_powers();
    if e2 == -516 {
        lemma_double_down_exact(m, -516, 296153327127738075, 6353227084707473, 1594000821255043862, 34195290962493423);
    } else if e2 == -515 {
        lemma_double_down_exact(m, -515, 1890154148382781937, 20274259023600448, 5078155790892869661, 54469549986093871);
    } else if e2 == -514 {
        lemma_double_down_exact(m, -514, 118461330851095230, 6353227084707473, 705540839871829637, 37839024270927510);
    } else if e2 == -513 {
        lemma_double_down_exact(m, -513, 236922661702190460, 6353227084707473, 1416308824978401017, 37979193389586174);
    } else if e2 == -512 {
        lemma_double_down_exact(m, -512, 1890154148382781937, 25342823779500560, 1416308824978401017, 18989596694793087);
    } else if e2 == -511 {
        lemma_double_down_exact(m, -511, 94769064680876184, 6353227084707473, 563387242850515361, 37768939711598178);
    } else if e2 == -510 {
        lemma_double_down_exact(m, -510, 189538129361752368, 6353227084707473, 1132001630935772465, 37944151109921508);
    } else if e2 == -509 {
        lemma_double_down_exact(m, -509, 1890154148382781937, 31678529724375700, 1511077889659277201, 25325302639668227);
    } else if e2 == -508 {
        lemma_double_down_exact(m, -508, 605476584910659229, 50738210978498119, 226400326187154493, 18972075554960754);
    } else if e2 == -507 {
        lemma_double_down_exact(m, -507, 984552843634163965, 41252173201017742, 226400326187154493, 9486037777480377);
    } else if e2 == -506 {
        lemma_double_down_exact(m, -506, 1890154148382781937, 39598162155469625, 452800652374308986, 9486037777480377);
    } else if e2 == -505 {
        lemma_double_down_exact(m, -505, 1437353496008472951, 15056062188994624, 2342954800757090923, 24542099966475001);
    } else if e2 == -504 {
        lemma_double_down_exact(m, -504, 393821137453665586, 20626086600508871, 649711221101141779, 34028137743955378);
    } else if e2 == -503 {
        lemma_double_down_exact(m, -503, 1437353496008472951, 37640155472486560, 649711221101141779, 17014068871977689);
    } else if e2 == -502 {
        lemma_double_down_exact(m, -502, 2736775938210756509, 35834146608220969, 1299422442202283558, 17014068871977689);
    } else if e2 == -501 {
        lemma_double_down_exact(m, -501, 602527609164627059, 39446164336752151, 232298277679218833, 15208060007712098);
    }
}

proof fn lemma_exact_36(m: nat, e2: int)
    requires
        -500 <= e2 < -484,
        m < 0x80_0000_0000_0000,
    ensures
        fixed_point_product(m, wide(double_multiplier(e2)), double_shift(e2) as nat) == double_scaled(m, e2),
{
    reveal(spec_log10_pow2);
    reveal(spec_log10_pow5);
    reveal(spec_pow5bits);
    lemma_shift_powers();
    if e2 == -500 {
        lemma_double_down_exact(m, -500, 1205055218329254118, 39446164336752151, 232298277679218833, 7604030003856049);
    } else if e2 == -499 {
        lemma_double_down_exact(m, -499, 1901950051366910617, 31129127174160149, 464596555358437666, 7604030003856049);
    } else if e2 == -498 {
        lemma_double_down_exact(m, -498, 194551388130007057, 15921067166448051, 464596555358437666, 38020150019280245);
    } else if e2 == -497 {
        lemma_double_down_exact(m, -497, 389102776260014114, 15921067166448051, 659147943488444723, 26970608592864148);
    } else if e2 == -496 {
        lemma_double_down_exact(m, -496, 2096501439496917674, 42891675759312199, 659147943488444723, 13485304296432074);
    } else if e2 == -495 {
        lemma_double_down_exact(m, -495, 3533854935505390625, 36149023611096162, 659147943488444723, 6742652148216037);
    } else if e2 == -494 {
        lemma_double_down_exact(m, -494, 47623043612633402, 2435762870015977, 659147943488444723, 33713260741080185);
    } else if e2 == -493 {
        lemma_double_down_exact(m, -493, 706770987101078125, 18074511805548081, 2025066874077967571, 51787772546628266);
    } else if e2 == -492 {
        lemma_double_down_exact(m, -492, 1413541974202156250, 18074511805548081, 2025066874077967571, 25893886273314133);
    } else if e2 == -491 {
        lemma_double_down_exact(m, -491, 282708394840431250, 18074511805548081, 611524899875811321, 39096872338830260);
    } else if e2 == -490 {
        lemma_double_down_exact(m, -490, 565416789680862500, 18074511805548081, 1176941689556673821, 37622947974963211);
    } else if e2 == -489 {
        lemma_double_down_exact(m, -489, 1130833579361725000, 18074511805548081, 2873192058599261321, 45923241695803727);
    } else if e2 == -488 {
        lemma_double_down_exact(m, -488, 226166715872345000, 18074511805548081, 611524899875811321, 48871090423537825);
    } else if e2 == -487 {
        lemma_double_down_exact(m, -487, 452333431744690000, 18074511805548081, 1290025047492846321, 51547312920091034);
    } else if e2 == -486 {
        lemma_double_down_exact(m, -486, 904666863489380000, 18074511805548081, 2194691910982226321, 43848168265593598);
    } else if e2 == -485 {
        lemma_double_down_exact(m, -485, 180933372697876000, 18074511805548081, 385358184003466321, 38495723272487180);
    }
}

proof fn lemma_exact_37(m: nat, e2: int)
    requires
        -484 <= e2 < -468,
        m < 0x80_0000_0000_0000,
    ensures
        fixed_point_product(m, wide(double_multiplier(e2)), double_shift(e2) as nat) == double_scaled(m, e2),
{
    reveal(spec_log10_pow2);
    reveal(spec_log10_pow5);
    reveal(spec_pow5bits);
    lemma_shift_powers();
    if e2 == -484 {
        lemma_double_down_exact(m, -484, 361866745395752000, 18074511805548081, 747224929399218321, 37322373441791671);
    } else if e2 == -483 {
        lemma_double_down_exact(m, -483, 723733490791504000, 18074511805548081, 1832825165586474321, 45772954429217957);
    } else if e2 == -482 {
        lemma_double_down_exact(m, -482, 1447466981583008000, 18074511805548081, 2556558656377978321, 31923733117383019);
    } else if e2 == -481 {
        lemma_double_down_exact(m, -481, 289493396316601600, 18074511805548081, 819598278478368721, 51171594753626609);
    } else if e2 == -480 {
        lemma_double_down_exact(m, -480, 578986792633203200, 18074511805548081, 1688078467428173521, 52697565085135426);
    } else if e2 == -479 {
        lemma_double_down_exact(m, -479, 1157973585266406400, 18074511805548081, 2846052052694579921, 44423294348115794);
    } else if e2 == -478 {
        lemma_double_down_exact(m, -478, 231594717053281280, 18074511805548081, 530104882161767121, 41371353685098160);
    } else if e2 == -477 {
        lemma_double_down_exact(m, -477, 463189434106562560, 18074511805548081, 993294316268329681, 38760188648097161);
    } else if e2 == -476 {
        lemma_double_down_exact(m, -476, 926378868213125120, 18074511805548081, 2382862618588017361, 46491862032370702);
    } else if e2 == -475 {
        lemma_double_down_exact(m, -475, 185275773642625024, 18074511805548081, 530104882161767121, 51714192106372700);
    } else if e2 == -474 {
        lemma_double_down_exact(m, -474, 370551547285250048, 18074511805548081, 900656429447017169, 43931607858734431);
    } else if e2 == -473 {
        lemma_double_down_exact(m, -473, 741103094570500096, 18074511805548081, 2012311071302767313, 49077571637689337);
    } else if e2 == -472 {
        lemma_double_down_exact(m, -472, 1482206189141000192, 18074511805548081, 2753414165873267409, 33576041721618709);
    } else if e2 == -471 {
        lemma_double_down_exact(m, -471, 42199642481746595, 2572981889477453, 596013697024321697, 36339939348713892);
    } else if e2 == -470 {
        lemma_double_down_exact(m, -470, 84399284963493190, 2572981889477453, 1186808691768774027, 36180842900699117);
    } else if e2 == -469 {
        lemma_double_down_exact(m, -469, 1440006546659253597, 21949894284565738, 1271207976732267217, 19376912395088285);
    }
}

proof fn lemma_exact_38(m: nat, e2: int)
    requires
        -468 <= e2 < -452,
        m < 0x80_0000_0000_0000,
    ensures
        fixed_point_product(m, wide(double_multiplier(e2)), double_shift(e2) as nat) == double_scaled(m, e2),
{
    reveal(spec_log10_pow2);
    reveal(spec_log10_pow5);
    reveal(spec_pow5bits);
    lemma_shift_powers();
    if e2 == -468 {
        lemma_double_down_exact(m, -468, 33759713985397276, 2572981889477453, 494734555068129869, 37705978517460006);
    } else if e2 == -467 {
        lemma_double_down_exact(m, -467, 67519427970794552, 2572981889477453, 967370550863691733, 36863862485072174);
    } else if e2 == -466 {
        lemma_double_down_exact(m, -466, 2880013093318507194, 54874735711414345, 1372487118688459045, 26150876910968446);
    } else if e2 == -465 {
        lemma_double_down_exact(m, -465, 135038855941589104, 12864909447387265, 274497423737691809, 26150876910968446);
    } else if e2 == -464 {
        lemma_double_down_exact(m, -464, 819072559358561826, 39015786358355711, 274497423737691809, 13075438455484223);
    } else if e2 == -463 {
        lemma_double_down_exact(m, -463, 1642564830571637253, 39121050862404190, 548994847475383618, 13075438455484223);
    } else if e2 == -462 {
        lemma_double_down_exact(m, -462, 3838544220473171725, 45711402342170541, 1097989694950767236, 13075438455484223);
    } else if e2 == -461 {
        lemma_double_down_exact(m, -461, 767708844094634345, 45711402342170541, 330280850856132891, 19665789935250574);
    } else if e2 == -460 {
        lemma_double_down_exact(m, -460, 1535417688189268690, 45711402342170541, 330280850856132891, 9832894967625287);
    } else if e2 == -459 {
        lemma_double_down_exact(m, -459, 1865698539045401581, 27772148654897914, 660561701712265782, 9832894967625287);
    } else if e2 == -458 {
        lemma_double_down_exact(m, -458, 498180509184311711, 37078721102280806, 23197313218279153, 1726536247977947);
    } else if e2 == -457 {
        lemma_double_down_exact(m, -457, 590969762057428323, 21992433047096297, 637364388493986629, 23718969295074244);
    } else if e2 == -456 {
        lemma_double_down_exact(m, -456, 2456668301102829904, 45711402342170541, 637364388493986629, 11859484647537122);
    } else if e2 == -455 {
        lemma_double_down_exact(m, -455, 363860782521768655, 33851917694633419, 273503605972217974, 25445505543052191);
    } else if e2 == -454 {
        lemma_double_down_exact(m, -454, 1365085953537523939, 63500629313476224, 637364388493986629, 29648711618842805);
    } else if e2 == -453 {
        lemma_double_down_exact(m, -453, 1365085953537523939, 31750314656738112, 1274728776987973258, 29648711618842805);
    }
}

proof fn lemma_exact_39(m: nat, e2: int)
    requires
        -452 <= e2 < -436,
        m < 0x80_0000_0000_0000,
    ensures
        fixed_point_product(m, wide(double_multiplier(e2)), double_shift(e2) as nat) == double_scaled(m, e2),
{
    reveal(spec_log10_pow2);
    reveal(spec_log10_pow5);
    reveal(spec_pow5bits);
    lemma_shift_powers();
    if e2 == -452 {
        lemma_double_down_exact(m, -452, 1365085953537523939, 15875157328369056, 3914543507513470455, 45523868947211861);
    } else if e2 == -451 {
        lemma_double_down_exact(m, -451, 582177252034829848, 33851917694633419, 200731449467864243, 11671951252578442);
    } else if e2 == -450 {
        lemma_double_down_exact(m, -450, 1365085953537523939, 39687893320922640, 200731449467864243, 5835975626289221);
    } else if e2 == -449 {
        lemma_double_down_exact(m, -449, 1365085953537523939, 19843946660461320, 3131634806010776364, 45523868947211861);
    } else if e2 == -448 {
        lemma_double_down_exact(m, -448, 305156642053572484, 22179966442054977, 353309770494650485, 25679922286750541);
    } else if e2 == -447 {
        lemma_double_down_exact(m, -447, 658466412548222969, 23929944364402759, 706619540989300970, 25679922286750541);
    } else if e2 == -446 {
        lemma_double_down_exact(m, -446, 1365085953537523939, 24804933325576650, 2778325035516125879, 50484855612327191);
    } else if e2 == -445 {
        lemma_double_down_exact(m, -445, 234494687954642387, 21304977480881086, 282647816395720388, 25679922286750541);
    } else if e2 == -444 {
        lemma_double_down_exact(m, -444, 234494687954642387, 10652488740440543, 565295632791440776, 25679922286750541);
    } else if e2 == -443 {
        lemma_double_down_exact(m, -443, 799790320746083163, 18166205513595542, 1930381586328964715, 43846127800346083);
    } else if e2 == -442 {
        lemma_double_down_exact(m, -442, 799790320746083163, 9083102756797771, 3860763172657929430, 43846127800346083);
    } else if e2 == -441 {
        lemma_double_down_exact(m, -441, 27637686214497277, 1569385983642772, 661601889673596778, 37568583865774995);
    } else if e2 == -440 {
        lemma_double_down_exact(m, -440, 27637686214497277, 784692991821386, 1295566093132696279, 36783890873953609);
    } else if e2 == -439 {
        lemma_double_down_exact(m, -439, 27637686214497277, 392346495910693, 2563494500050895281, 36391544378042916);
    } else if e2 == -438 {
        lemma_double_down_exact(m, -438, 27637686214497277, 1961732479553465, 523753974495977967, 37176237369864302);
    } else if e2 == -437 {
        lemma_double_down_exact(m, -437, 634304719353967075, 22511583644039081, 579029346924972521, 20549851164485616);
    }
}

proof fn lemma_exact_40(m: nat, e2: int)
    requires
        -436 <= e2 < -420,
        m < 0x80_0000_0000_0000,
    ensures
        fixed_point_product(m, wide(double_multiplier(e2)), double_shift(e2) as nat) == double_scaled(m, e2),
{
    reveal(spec_log10_pow2);
    reveal(spec_log10_pow5);
    reveal(spec_pow5bits);
    lemma_shift_powers();
    if e2 == -436 {
        lemma_double_down_exact(m, -436, 1268609438707934150, 22511583644039081, 1847638785632906671, 32786509226281889);
    } else if e2 == -435 {
        lemma_double_down_exact(m, -435, 253721887741586830, 22511583644039081, 579029346924972521, 51374627911214040);
    } else if e2 == -434 {
        lemma_double_down_exact(m, -434, 507443775483173660, 22511583644039081, 1086473122408146181, 48198897599646101);
    } else if e2 == -433 {
        lemma_double_down_exact(m, -433, 1014887550966347320, 22511583644039081, 1593916897891319841, 35355240621842591);
    } else if e2 == -432 {
        lemma_double_down_exact(m, -432, 2608804448857667161, 28933412132940836, 5796638244640306843, 64288652754783427);
    } else if e2 == -431 {
        lemma_double_down_exact(m, -431, 405955020386538928, 22511583644039081, 984984367311511449, 54620726088547856);
    } else if e2 == -430 {
        lemma_double_down_exact(m, -430, 811910040773077856, 22511583644039081, 1796894408084589305, 49821946688313009);
    } else if e2 == -429 {
        lemma_double_down_exact(m, -429, 2608804448857667161, 36166765166176045, 984984367311511449, 13655181522136964);
    } else if e2 == -428 {
        lemma_double_down_exact(m, -428, 452531159156159995, 31367985765941198, 266226604077675727, 18453960922371811);
    } else if e2 == -427 {
        lemma_double_down_exact(m, -427, 452531159156159995, 15683992882970599, 1437515526467671444, 49821946688313009);
    } else if e2 == -426 {
        lemma_double_down_exact(m, -426, 1890046685623831439, 32752969785641804, 984984367311511449, 17068976902671205);
    } else if e2 == -425 {
        lemma_double_down_exact(m, -425, 181012463662463998, 15683992882970599, 441946976324119455, 38292905864444228);
    } else if e2 == -424 {
        lemma_double_down_exact(m, -424, 362024927324927996, 15683992882970599, 1165996830973975447, 50514438698163312);
    } else if e2 == -423 {
        lemma_double_down_exact(m, -423, 724049854649855992, 15683992882970599, 1165996830973975447, 25257219349081656);
    } else if e2 == -422 {
        lemma_double_down_exact(m, -422, 3780093371247662878, 40941212232052255, 1165996830973975447, 12628609674540828);
    } else if e2 == -421 {
        lemma_double_down_exact(m, -421, 812439249914679883, 43996595440482026, 176778790529647782, 9573226466111057);
    }
}

proof fn lemma_exact_41(m: nat, e2: int)
    requires
        -420 <= e2 < -404,
        m < 0x80_0000_0000_0000,
    ensures
        fixed_point_product(m, wide(double_multiplier(e2)), double_shift(e2) as nat) == double_scaled(m, e2),
{
    reveal(spec_log10_pow2);
    reveal(spec_log10_pow5);
    reveal(spec_pow5bits);
    lemma_shift_powers();
    if e2 == -420 {
        lemma_double_down_exact(m, -420, 812439249914679883, 21998297720241013, 1165996830973975447, 31571524186352070);
    } else if e2 == -419 {
        lemma_double_down_exact(m, -419, 2790875330803335213, 37784059813417048, 1165996830973975447, 15785762093176035);
    } else if e2 == -418 {
        lemma_double_down_exact(m, -418, 791374432355462132, 53569821906593083, 374622398618513315, 25358988559287092);
    } else if e2 == -417 {
        lemma_double_down_exact(m, -417, 1208126466092410949, 40890327626949537, 374622398618513315, 12679494279643546);
    } else if e2 == -416 {
        lemma_double_down_exact(m, -416, 2416252932184821898, 40890327626949537, 374622398618513315, 6339747139821773);
    } else if e2 == -415 {
        lemma_double_down_exact(m, -415, 468216459368552660, 39618212499381587, 74924479723702663, 6339747139821773);
    } else if e2 == -414 {
        lemma_double_down_exact(m, -414, 992687817434471301, 41998221239066999, 149848959447405326, 6339747139821773);
    } else if e2 == -413 {
        lemma_double_down_exact(m, -413, 1741932614671497931, 36848478469087932, 299697918894810652, 6339747139821773);
    } else if e2 == -412 {
        lemma_double_down_exact(m, -412, 2940724290250740539, 31103733514187512, 599395837789621304, 6339747139821773);
    } else if e2 == -411 {
        lemma_double_down_exact(m, -411, 468265690492223847, 24763986374365739, 1067661528281845151, 56462722073474604);
    } else if e2 == -410 {
        lemma_double_down_exact(m, -410, 936531380984447694, 24763986374365739, 2004192909266292845, 52995347411103041);
    } else if e2 == -409 {
        lemma_double_down_exact(m, -409, 2940724290250740539, 38879666892734390, 1067661528281845151, 14115680518368651);
    } else if e2 == -408 {
        lemma_double_down_exact(m, -408, 535692799131189125, 35412292230362827, 265984364575328013, 17583055180740214);
    } else if e2 == -407 {
        lemma_double_down_exact(m, -407, 1337369962837706263, 44203819820732934, 265984364575328013, 8791527590370107);
    } else if e2 == -406 {
        lemma_double_down_exact(m, -406, 1337369962837706263, 22101909910366467, 3206708654826068552, 52995347411103041);
    } else if e2 == -405 {
        lemma_double_down_exact(m, -405, 428554239304951300, 35412292230362827, 51707244922852363, 4272672860743854);
    }
}

proof fn lemma_exact_42(m: nat, e2: int)
    requires
        -404 <= e2 < -388,
        m < 0x80_0000_0000_0000,
    ensures
        fixed_point_product(m, wide(double_multiplier(e2)), double_shift(e2) as nat) == double_scaled(m, e2),
{
    reveal(spec_log10_pow2);
    reveal(spec_log10_pow5);
    reveal(spec_pow5bits);
    lemma_shift_powers();
    if e2 == -404 {
        lemma_double_down_exact(m, -404, 908815723532754963, 37548628660734754, 51707244922852363, 2136336430371927);
    } else if e2 == -403 {
        lemma_double_down_exact(m, -403, 908815723532754963, 18774314330367377, 1921045936911214652, 39684965091106681);
    } else if e2 == -402 {
        lemma_double_down_exact(m, -402, 1817631447065509926, 18774314330367377, 4647493107509479541, 48003954041104406);
    } else if e2 == -401 {
        lemma_double_down_exact(m, -401, 1251659114976716003, 64641931941099856, 565972332088793923, 29229639710737029);
    } else if e2 == -400 {
        lemma_double_down_exact(m, -400, 1251659114976716003, 32320965970549928, 1131944664177587846, 29229639710737029);
    } else if e2 == -399 {
        lemma_double_down_exact(m, -399, 1251659114976716003, 16160482985274964, 3515548443331891695, 45390122696011993);
    } else if e2 == -398 {
        lemma_double_down_exact(m, -398, 548549426310337664, 35412292230362827, 154560262356040675, 9977830465649166);
    } else if e2 == -397 {
        lemma_double_down_exact(m, -397, 1251659114976716003, 40401207463187410, 154560262356040675, 4988915232824583);
    } else if e2 == -396 {
        lemma_double_down_exact(m, -396, 1251659114976716003, 20200603731593705, 2812438754665513356, 45390122696011993);
    } else if e2 == -395 {
        lemma_double_down_exact(m, -395, 447945750725304493, 36147120631248946, 61824104942416270, 4988915232824583);
    } else if e2 == -394 {
        lemma_double_down_exact(m, -394, 942538590264634653, 38029221246922805, 123648209884832540, 4988915232824583);
    } else if e2 == -393 {
        lemma_double_down_exact(m, -393, 1313483219919132273, 26497983472698277, 2874262859607929626, 57984882178221137);
    } else if e2 == -392 {
        lemma_double_down_exact(m, -392, 2626966439838264546, 26497983472698277, 1560779639688797353, 15743449352761430);
    } else if e2 == -391 {
        lemma_double_down_exact(m, -391, 769431096425869097, 38805924901210486, 98918567907866032, 4988915232824583);
    } else if e2 == -390 {
        lemma_double_down_exact(m, -390, 1165105368057333225, 29380792916254409, 1362942503873065289, 34369708149078992);
    } else if e2 == -389 {
        lemma_double_down_exact(m, -389, 3693153239987731739, 46565646990793905, 1362942503873065289, 17184854074539496);
    }
}

proof fn lemma_exact_43(m: nat, e2: int)
    requires
        -388 <= e2 < -372,
        m < 0x80_0000_0000_0000,
    ensures
        fixed_point_product(m, wide(double_multiplier(e2)), double_shift(e2) as nat) == double_scaled(m, e2),
{
    reveal(spec_log10_pow2);
    reveal(spec_log10_pow5);
    reveal(spec_pow5bits);
    lemma_shift_powers();
    if e2 == -388 {
        lemma_double_down_exact(m, -388, 466042147222933290, 29380792916254409, 430858209427198709, 27162684540188662);
    } else if e2 == -387 {
        lemma_double_down_exact(m, -387, 932084294445866580, 29380792916254409, 430858209427198709, 13581342270094331);
    } else if e2 == -386 {
        lemma_double_down_exact(m, -386, 3227111092764798449, 50861860509428779, 1362942503873065289, 21481067593174370);
    } else if e2 == -385 {
        lemma_double_down_exact(m, -385, 372833717778346632, 29380792916254409, 244441350538025393, 19262959217108623);
    } else if e2 == -384 {
        lemma_double_down_exact(m, -384, 745667435556693264, 29380792916254409, 617275068316372025, 24321876066681516);
    } else if e2 == -383 {
        lemma_double_down_exact(m, -383, 2108609939429758553, 41541730949595167, 617275068316372025, 12160938033340758);
    } else if e2 == -382 {
        lemma_double_down_exact(m, -382, 380239748143916883, 37455522281205223, 123455013663274405, 12160938033340758);
    } else if e2 == -381 {
        lemma_double_down_exact(m, -381, 760479496287833766, 37455522281205223, 123455013663274405, 6080469016670379);
    } else if e2 == -380 {
        lemma_double_down_exact(m, -380, 1624664591930754601, 40009402698948938, 246910027326548810, 6080469016670379);
    } else if e2 == -379 {
        lemma_double_down_exact(m, -379, 3106124755890047461, 38246108399485606, 493820054653097620, 6080469016670379);
    } else if e2 == -378 {
        lemma_double_down_exact(m, -378, 637024482624559361, 39218816580668555, 98764010930619524, 6080469016670379);
    } else if e2 == -377 {
        lemma_double_down_exact(m, -377, 1328372559138896029, 40891049848680604, 197528021861239048, 6080469016670379);
    } else if e2 == -376 {
        lemma_double_down_exact(m, -376, 2513540690306330317, 38686931974351439, 395056043722478096, 6080469016670379);
    } else if e2 == -375 {
        lemma_double_down_exact(m, -375, 344685720572274825, 26525993941010681, 395056043722478096, 30402345083351895);
    } else if e2 == -374 {
        lemma_double_down_exact(m, -374, 739741764294752921, 28464169512181288, 1529853851739709113, 58866514595533183);
    } else if e2 == -373 {
        lemma_double_down_exact(m, -373, 739741764294752921, 14232084756090644, 2319965939184665305, 44634429839442539);
    }
}

proof fn lemma_exact_44(m: nat, e2: int)
    requires
        -372 <= e2 < -356,
        m < 0x80_0000_0000_0000,
    ensures
        fixed_point_product(m, wide(double_multiplier(e2)), double_shift(e2) as nat) == double_scaled(m, e2),
{
    reveal(spec_log10_pow2);
    reveal(spec_log10_pow5);
    reveal(spec_pow5bits);
    lemma_shift_powers();
    if e2 == -372 {
        lemma_double_down_exact(m, -372, 275748576457819860, 26525993941010681, 188244611379113201, 18108435898431858);
    } else if e2 == -371 {
        lemma_double_down_exact(m, -371, 739741764294752921, 35580211890226610, 188244611379113201, 9054217949215929);
    } else if e2 == -370 {
        lemma_double_down_exact(m, -370, 739741764294752921, 17790105945113305, 1855972751347732244, 44634429839442539);
    } else if e2 == -369 {
        lemma_double_down_exact(m, -369, 1479483528589505842, 17790105945113305, 4075198044231991007, 49002373837391227);
    } else if e2 == -368 {
        lemma_double_down_exact(m, -368, 441197722332511776, 26525993941010681, 519142903128497033, 31212267892277922);
    } else if e2 == -367 {
        lemma_double_down_exact(m, -367, 1401538347793520585, 42132127887149642, 519142903128497033, 15606133946138961);
    } else if e2 == -366 {
        lemma_double_down_exact(m, -366, 2439824154050514651, 36672197889713782, 1038285806256994066, 15606133946138961);
    } else if e2 == -365 {
        lemma_double_down_exact(m, -365, 280307669558704117, 21066063943574821, 757978136698289949, 56964605787119984);
    } else if e2 == -364 {
        lemma_double_down_exact(m, -364, 560615339117408234, 21066063943574821, 1318593475815698183, 49548366837134813);
    } else if e2 == -363 {
        lemma_double_down_exact(m, -363, 1879208814933106417, 35307215390354817, 757978136698289949, 14241151446779996);
    } else if e2 == -362 {
        lemma_double_down_exact(m, -362, 442197660568879205, 41540801433959296, 78945119032352686, 7416238949985171);
    } else if e2 == -361 {
        lemma_double_down_exact(m, -361, 600087898633584577, 28186639666964819, 1358066035331874526, 63789518283914809);
    } else if e2 == -360 {
        lemma_double_down_exact(m, -360, 1958153933965459103, 45988078975439814, 757978136698289949, 17801439308474995);
    } else if e2 == -359 {
        lemma_double_down_exact(m, -359, 1958153933965459103, 22994039487719907, 1515956273396579898, 17801439308474995);
    } else if e2 == -358 {
        lemma_double_down_exact(m, -358, 88439532113775841, 5192600179244912, 631560952258821488, 37081194749925855);
    } else if e2 == -357 {
        lemma_double_down_exact(m, -357, 88439532113775841, 2596300089622456, 1263121904517642976, 37081194749925855);
    }
}

proof fn lemma_exact_45(m: nat, e2: int)
    requires
        -356 <= e2 < -340,
        m < 0x80_0000_0000_0000,
    ensures
        fixed_point_product(m, wide(double_multiplier(e2)), double_shift(e2) as nat) == double_scaled(m, e2),
{
    reveal(spec_log10_pow2);
    reveal(spec_log10_pow5);
    reveal(spec_pow5bits);
    lemma_shift_powers();
    if e2 == -356 {
        lemma_double_down_exact(m, -356, 88439532113775841, 1298150044811228, 2526243809035285952, 37081194749925855);
    } else if e2 == -355 {
        lemma_double_down_exact(m, -355, 88439532113775841, 6490750224056140, 558312481075322695, 40975644884359539);
    } else if e2 == -354 {
        lemma_double_down_exact(m, -354, 88439532113775841, 3245375112028070, 1028185430036869549, 37730269772331469);
    } else if e2 == -353 {
        lemma_double_down_exact(m, -353, 88439532113775841, 1622687556014035, 1967931327959963257, 36107582216317434);
    } else if e2 == -352 {
        lemma_double_down_exact(m, -352, 88439532113775841, 8113437780070175, 446649984860258156, 40975644884359539);
    } else if e2 == -351 {
        lemma_double_down_exact(m, -351, 176879064227551682, 8113437780070175, 888847645429137361, 40771416892355207);
    } else if e2 == -350 {
        lemma_double_down_exact(m, -350, 2485211547768481450, 56998292452495557, 1065726709656689043, 24442427336212691);
    } else if e2 == -349 {
        lemma_double_down_exact(m, -349, 1419484838111792407, 16277932558141433, 3550938257425170493, 40720359894354124);
    } else if e2 == -348 {
        lemma_double_down_exact(m, -348, 425400219004399827, 24391370338211608, 568684400102992753, 32606922114283949);
    } else if e2 == -347 {
        lemma_double_down_exact(m, -347, 425400219004399827, 12195685169105804, 1562769019210385333, 44802607283389753);
    } else if e2 == -346 {
        lemma_double_down_exact(m, -346, 425400219004399827, 6097842584552902, 2700137819416370839, 38704764698836851);
    } else if e2 == -345 {
        lemma_double_down_exact(m, -345, 795267695285914064, 56998292452495557, 369867476281514237, 26509079529731047);
    } else if e2 == -344 {
        lemma_double_down_exact(m, -344, 425400219004399827, 15244606461382255, 1165135171567428301, 41753685991113302);
    } else if e2 == -343 {
        lemma_double_down_exact(m, -343, 850800438008799654, 15244606461382255, 1165135171567428301, 20876842995556651);
    } else if e2 == -342 {
        lemma_double_down_exact(m, -342, 44426194178308472, 3980133393033463, 358760927736937119, 32141316063905443);
    } else if e2 == -341 {
        lemma_double_down_exact(m, -341, 403187121915245591, 18060724728469453, 1120708977389119829, 50202040792374896);
    }
}

proof fn lemma_exact_46(m: nat, e2: int)
    requires
        -340 <= e2 < -324,
        m < 0x80_0000_0000_0000,
    ensures
        fixed_point_product(m, wide(double_multiplier(e2)), double_shift(e2) as nat) == double_scaled(m, e2),
{
    reveal(spec_log10_pow2);
    reveal(spec_log10_pow5);
    reveal(spec_pow5bits);
    lemma_shift_powers();
    if e2 == -340 {
        lemma_double_down_exact(m, -340, 806374243830491182, 18060724728469453, 1927083221219611011, 43161745124656901);
    } else if e2 == -339 {
        lemma_double_down_exact(m, -339, 1612748487660982364, 18060724728469453, 4346205952711084557, 48671959655032630);
    } else if e2 == -338 {
        lemma_double_down_exact(m, -338, 98407902054372507, 5510214530375729, 727077369171629801, 40711692868965704);
    } else if e2 == -337 {
        lemma_double_down_exact(m, -337, 196815804108745014, 5510214530375729, 1317524781497864843, 36886490025610039);
    } else if e2 == -336 {
        lemma_double_down_exact(m, -336, 1514340585606609857, 21198352277992884, 1120708977389119829, 15688137747617155);
    } else if e2 == -335 {
        lemma_double_down_exact(m, -335, 381594438764819977, 26708566808368613, 369557269312149926, 25866060964858581);
    } else if e2 == -334 {
        lemma_double_down_exact(m, -334, 1514340585606609857, 52995880694982210, 751151708076969903, 26287313886613597);
    } else if e2 == -333 {
        lemma_double_down_exact(m, -333, 1514340585606609857, 26497940347491105, 1502303416153939806, 26287313886613597);
    } else if e2 == -332 {
        lemma_double_down_exact(m, -332, 608143668133177953, 53206507155859718, 298053249340253951, 26076687425736089);
    } else if e2 == -331 {
        lemma_double_down_exact(m, -331, 608143668133177953, 26603253577929859, 596106498680507902, 26076687425736089);
    } else if e2 == -330 {
        lemma_double_down_exact(m, -330, 1216287336266355906, 26603253577929859, 1204250166813685855, 26339970501832974);
    } else if e2 == -329 {
        lemma_double_down_exact(m, -329, 3636824839346397667, 39773238828846346, 1204250166813685855, 13169985250916487);
    } else if e2 == -328 {
        lemma_double_down_exact(m, -328, 746624438993551615, 40826371133233886, 240850033362737171, 13169985250916487);
    } else if e2 == -327 {
        lemma_double_down_exact(m, -327, 1710024572444500299, 46753156068449917, 481700066725474342, 13169985250916487);
    } else if e2 == -326 {
        lemma_double_down_exact(m, -326, 3155124772620923325, 43131555910599689, 963400133450948684, 13169985250916487);
    } else if e2 == -325 {
        lemma_double_down_exact(m, -325, 298649775597420646, 20413185566616943, 332375178926764019, 22718370343982746);
    }
}

proof fn lemma_exact_47(m: nat, e2: int)
    requires
        -324 <= e2 < -308,
        m < 0x80_0000_0000_0000,
    ensures
        fixed_point_product(m, wide(double_multiplier(e2)), double_shift(e2) as nat) == double_scaled(m, e2),
{
    reveal(spec_log10_pow2);
    reveal(spec_log10_pow5);
    reveal(spec_pow5bits);
    lemma_shift_powers();
    if e2 == -324 {
        lemma_double_down_exact(m, -324, 1262049909048369330, 43131555910599689, 332375178926764019, 11359185171991373);
    } else if e2 == -323 {
        lemma_double_down_exact(m, -323, 929674730121605311, 15886185369304158, 1594425087975133349, 27245370541295531);
    } else if e2 == -322 {
        lemma_double_down_exact(m, -322, 424854766502257579, 36299370935921101, 79965197117090153, 6832184974678588);
    } else if e2 == -321 {
        lemma_double_down_exact(m, -321, 849709533004515158, 36299370935921101, 79965197117090153, 3416092487339294);
    } else if e2 == -320 {
        lemma_double_down_exact(m, -320, 1699419066009030316, 36299370935921101, 79965197117090153, 1708046243669647);
    } else if e2 == -319 {
        lemma_double_down_exact(m, -319, 1939314657360300775, 20711754833465021, 2099245051594481081, 22419801077134668);
    } else if e2 == -318 {
        lemma_double_down_exact(m, -318, 387862931472060155, 20711754833465021, 935656257178300616, 49963740885278277);
    } else if e2 == -317 {
        lemma_double_down_exact(m, -317, 775725862944120310, 20711754833465021, 2099245051594481081, 56049502692836670);
    } else if e2 == -316 {
        lemma_double_down_exact(m, -316, 1551451725888240620, 20711754833465021, 2099245051594481081, 28024751346418335);
    } else if e2 == -315 {
        lemma_double_down_exact(m, -315, 310290345177648124, 20711754833465021, 237502980528592337, 15853227731301549);
    } else if e2 == -314 {
        lemma_double_down_exact(m, -314, 620580690355296248, 20711754833465021, 547793325706240461, 18282491282383285);
    } else if e2 == -313 {
        lemma_double_down_exact(m, -313, 1241161380710592496, 20711754833465021, 1168374016061536709, 19497123057924153);
    } else if e2 == -312 {
        lemma_double_down_exact(m, -312, 277347222001740814, 23141018384546757, 204559857352685027, 17067859506842417);
    } else if e2 == -311 {
        lemma_double_down_exact(m, -311, 1036601523357907469, 43245457330241344, 481907079354425841, 20104438945694587);
    } else if e2 == -310 {
        lemma_double_down_exact(m, -310, 2000415682066759151, 41727167610815259, 963814158708851682, 20104438945694587);
    } else if e2 == -309 {
        lemma_double_down_exact(m, -309, 4891858158193314197, 51020242223949510, 1927628317417703364, 20104438945694587);
    }
}

proof fn lemma_exact_48(m: nat, e2: int)
    requires
        -308 <= e2 < -292,
        m < 0x80_0000_0000_0000,
    ensures
        fixed_point_product(m, wide(double_multiplier(e2)), double_shift(e2) as nat) == double_scaled(m, e2),
{
    reveal(spec_log10_pow2);
    reveal(spec_log10_pow5);
    reveal(spec_pow5bits);
    lemma_shift_powers();
    if e2 == -308 {
        lemma_double_down_exact(m, -308, 858396164545948290, 44763747049667429, 178205358811959179, 9293074613134251);
    } else if e2 == -307 {
        lemma_double_down_exact(m, -307, 1393012240981825827, 36321485444535091, 356410717623918358, 9293074613134251);
    } else if e2 == -306 {
        lemma_double_down_exact(m, -306, 1749422958605744185, 22807280028834671, 4211667352459325086, 54907634670803593);
    } else if e2 == -305 {
        lemma_double_down_exact(m, -305, 349884591721148837, 22807280028834671, 712821435247836716, 46465373065671255);
    } else if e2 == -304 {
        lemma_double_down_exact(m, -304, 699769183442297674, 22807280028834671, 1762475210411283227, 57443606576087634);
    } else if e2 == -303 {
        lemma_double_down_exact(m, -303, 1399538366884595348, 22807280028834671, 3162013577295878575, 51529083316878488);
    } else if e2 == -302 {
        lemma_double_down_exact(m, -302, 134732935966243918, 10978233510416379, 497669779492931797, 40550849806462109);
    } else if e2 == -301 {
        lemma_double_down_exact(m, -301, 269465871932487836, 10978233510416379, 632402715459175715, 25764541658439244);
    } else if e2 == -300 {
        lemma_double_down_exact(m, -300, 1803737174783327102, 36742775168855623, 632402715459175715, 12882270829219622);
    } else if e2 == -299 {
        lemma_double_down_exact(m, -299, 3607474349566654204, 36742775168855623, 632402715459175715, 6441135414609811);
    } else if e2 == -298 {
        lemma_double_down_exact(m, -298, 824902401546281058, 42008896722862273, 126480543091835143, 6441135414609811);
    } else if e2 == -297 {
        lemma_double_down_exact(m, -297, 1457305117005456773, 37107286897955664, 252961086183670286, 6441135414609811);
    } else if e2 == -296 {
        lemma_double_down_exact(m, -296, 2975071634107478489, 37877049692807265, 505922172367340572, 6441135414609811);
    } else if e2 == -295 {
        lemma_double_down_exact(m, -295, 392645457874559469, 24994778863587643, 505922172367340572, 32205677073049055);
    } else if e2 == -294 {
        lemma_double_down_exact(m, -294, 898567630241900041, 28600227968318349, 1011844344734681144, 32205677073049055);
    } else if e2 == -293 {
        lemma_double_down_exact(m, -293, 1910411974976581185, 30402952520683702, 3934100664445943473, 62608629593732757);
    }
}

proof fn lemma_exact_49(m: nat, e2: int)
    requires
        -292 <= e2 < -276,
        m < 0x80_0000_0000_0000,
    ensures
        fixed_point_product(m, wide(double_multiplier(e2)), double_shift(e2) as nat) == double_scaled(m, e2),
{
    reveal(spec_log10_pow2);
    reveal(spec_log10_pow5);
    reveal(spec_pow5bits);
    lemma_shift_powers();
    if e2 == -292 {
        lemma_double_down_exact(m, -292, 382082394995316237, 30402952520683702, 113276714492781103, 9013622761826765);
    } else if e2 == -291 {
        lemma_double_down_exact(m, -291, 382082394995316237, 15201476260341851, 990718218976194680, 39416575282510467);
    } else if e2 == -290 {
        lemma_double_down_exact(m, -290, 764164789990632474, 15201476260341851, 2136965403962143391, 42510502031768010);
    } else if e2 == -289 {
        lemma_double_down_exact(m, -289, 183938751200077301, 18295403009599394, 396287287590477872, 39416575282510467);
    } else if e2 == -288 {
        lemma_double_down_exact(m, -288, 183938751200077301, 9147701504799697, 792574575180955744, 39416575282510467);
    } else if e2 == -287 {
        lemma_double_down_exact(m, -287, 367877502400154602, 9147701504799697, 1344390828781187647, 33429839898454779);
    } else if e2 == -286 {
        lemma_double_down_exact(m, -286, 1712268331181342249, 21288770701627238, 2688781657562375294, 33429839898454779);
    } else if e2 == -285 {
        lemma_double_down_exact(m, -285, 735755004800309204, 45738507523998485, 195302665276206609, 12141069196827541);
    } else if e2 == -284 {
        lemma_double_down_exact(m, -284, 1321663000628929031, 41080857557240554, 390605330552413218, 12141069196827541);
    } else if e2 == -283 {
        lemma_double_down_exact(m, -283, 2102873661733755467, 32681497975447818, 781210661104826436, 12141069196827541);
    } else if e2 == -282 {
        lemma_double_down_exact(m, -282, 108090467904820519, 8399359581792736, 565029725295185398, 43906626820552233);
    } else if e2 == -281 {
        lemma_double_down_exact(m, -281, 108090467904820519, 4199679790896368, 1021968982685550277, 39706947029655865);
    } else if e2 == -280 {
        lemma_double_down_exact(m, -280, 108090467904820519, 2099839895448184, 1935847497466280035, 37607107134207681);
    } else if e2 == -279 {
        lemma_double_down_exact(m, -279, 108090467904820519, 10499199477240920, 387169499493256007, 37607107134207681);
    } else if e2 == -278 {
        lemma_double_down_exact(m, -278, 108090467904820519, 5249599738620460, 774338998986512014, 37607107134207681);
    } else if e2 == -277 {
        lemma_double_down_exact(m, -277, 108090467904820519, 2624799869310230, 1548677997973024028, 37607107134207681);
    }
}

proof fn lemma_exact_50(m: nat, e2: int)
    requires
        -276 <= e2 < -260,
        m < 0x80_0000_0000_0000,
    ensures
        fixed_point_product(m, wide(double_multiplier(e2)), double_shift(e2) as nat) == double_scaled(m, e2),
{
    reveal(spec_log10_pow2);
    reveal(spec_log10_pow5);
    reveal(spec_pow5bits);
    lemma_shift_powers();
    if e2 == -276 {
        lemma_double_down_exact(m, -276, 108090467904820519, 1312399934655115, 2989265528041227537, 36294707199552566);
    } else if e2 == -275 {
        lemma_double_down_exact(m, -275, 108090467904820519, 6561999673275575, 641089292770173715, 38919507068862796);
    } else if e2 == -274 {
        lemma_double_down_exact(m, -274, 216180935809641038, 6561999673275575, 1073451164389455791, 32583752880982548);
    } else if e2 == -273 {
        lemma_double_down_exact(m, -273, 2579264200398193658, 39145752554258123, 1073451164389455791, 16291876440491274);
    } else if e2 == -272 {
        lemma_double_down_exact(m, -272, 560579730173316819, 42539875133593574, 128217858554034743, 9729876767215699);
    } else if e2 == -271 {
        lemma_double_down_exact(m, -271, 817015447281386305, 30999814334012486, 256435717108069486, 9729876767215699);
    } else if e2 == -270 {
        lemma_double_down_exact(m, -270, 817015447281386305, 15499907167006243, 2146902328778911582, 40729691101228185);
    } else if e2 == -269 {
        lemma_double_down_exact(m, -269, 163403089456277261, 15499907167006243, 512871434216138972, 48649383836078495);
    } else if e2 == -268 {
        lemma_double_down_exact(m, -268, 326806178912554522, 15499907167006243, 1003080702584970755, 47574552668548612);
    } else if e2 == -267 {
        lemma_double_down_exact(m, -267, 653612357825109044, 15499907167006243, 1656693060410079799, 39287183501280549);
    } else if e2 == -266 {
        lemma_double_down_exact(m, -266, 1307224715650218088, 15499907167006243, 3617530133885406931, 42893452501149639);
    } else if e2 == -265 {
        lemma_double_down_exact(m, -265, 705376294099235635, 41818621333619756, 200616140516994151, 11893638167137153);
    } else if e2 == -264 {
        lemma_double_down_exact(m, -264, 1106608575133223937, 32802948833947031, 401232281033988302, 11893638167137153);
    } else if e2 == -263 {
        lemma_double_down_exact(m, -263, 3721058006433660113, 55151242334489123, 1507840856167212239, 22348293500542092);
    } else if e2 == -262 {
        lemma_double_down_exact(m, -262, 141075258819847127, 10454655333404939, 520314044428282350, 38558880168875887);
    } else if e2 == -261 {
        lemma_double_down_exact(m, -261, 282150517639694254, 10454655333404939, 1225690338527517985, 45416078417950291);
    }
}

proof fn lemma_exact_51(m: nat, e2: int)
    requires
        -260 <= e2 < -244,
        m < 0x80_0000_0000_0000,
    ensures
        fixed_point_product(m, wide(double_multiplier(e2)), double_shift(e2) as nat) == double_scaled(m, e2),
{
    reveal(spec_log10_pow2);
    reveal(spec_log10_pow5);
    reveal(spec_pow5bits);
    lemma_shift_powers();
    if e2 == -260 {
        lemma_double_down_exact(m, -260, 564301035279388508, 10454655333404939, 1507840856167212239, 27935366875677615);
    } else if e2 == -259 {
        lemma_double_down_exact(m, -259, 37012449934190657, 3428599124537202, 416251235542625880, 38558880168875887);
    } else if e2 == -258 {
        lemma_double_down_exact(m, -258, 37012449934190657, 1714299562268601, 795490021151061103, 36844580606607286);
    } else if e2 == -257 {
        lemma_double_down_exact(m, -257, 1017564720756205045, 23565188990109446, 943539820887823731, 21850889427840845);
    } else if e2 == -256 {
        lemma_double_down_exact(m, -256, 1017564720756205045, 11782594495054723, 3922209083288057552, 45416078417950291);
    } else if e2 == -255 {
        lemma_double_down_exact(m, -255, 203512944151241009, 11782594495054723, 666001976868201408, 38558880168875887);
    } else if e2 == -254 {
        lemma_double_down_exact(m, -254, 407025888302482018, 11782594495054723, 1276540809321924435, 36953331827020028);
    } else if e2 == -253 {
        lemma_double_down_exact(m, -253, 814051776604964036, 11782594495054723, 2904644362531852507, 42041854903619460);
    } else if e2 == -252 {
        lemma_double_down_exact(m, -252, 558743614740579149, 40436306561763601, 255308161864384887, 18476665913510014);
    } else if e2 == -251 {
        lemma_double_down_exact(m, -251, 1117487229481158298, 40436306561763601, 255308161864384887, 9238332956755007);
    } else if e2 == -250 {
        lemma_double_down_exact(m, -250, 1372795391345543185, 24837319759259304, 1883411715074312959, 34075652716014311);
    } else if e2 == -249 {
        lemma_double_down_exact(m, -249, 274559078269108637, 24837319759259304, 236057245459661137, 21354345024515731);
    } else if e2 == -248 {
        lemma_double_down_exact(m, -248, 274559078269108637, 12418659879629652, 1021232647457539548, 46191664783775035);
    } else if e2 == -247 {
        lemma_double_down_exact(m, -247, 274559078269108637, 6209329939814826, 1767906216645970459, 39982334843960209);
    } else if e2 == -246 {
        lemma_double_down_exact(m, -246, 274559078269108637, 3104664969907413, 3261253355022832281, 36877669874052796);
    } else if e2 == -245 {
        lemma_double_down_exact(m, -245, 274559078269108637, 15523324849537065, 762074302312209911, 43086999813867622);
    }
}

proof fn lemma_exact_52(m: nat, e2: int)
    requires
        -244 <= e2 < -228,
        m < 0x80_0000_0000_0000,
    ensures
        fixed_point_product(m, wide(double_multiplier(e2)), double_shift(e2) as nat) == double_scaled(m, e2),
{
    reveal(spec_log10_pow2);
    reveal(spec_log10_pow5);
    reveal(spec_pow5bits);
    lemma_shift_powers();
    if e2 == -244 {
        lemma_double_down_exact(m, -244, 549118156538217274, 15523324849537065, 1311192458850427185, 37066824756470876);
    } else if e2 == -243 {
        lemma_double_down_exact(m, -243, 1098236313076434548, 15523324849537065, 3507665085003296281, 49580062077309568);
    } else if e2 == -242 {
        lemma_double_down_exact(m, -242, 573759329536263674, 40549799491214449, 262238491770085437, 18533412378235438);
    } else if e2 == -241 {
        lemma_double_down_exact(m, -241, 1147518659072527348, 40549799491214449, 262238491770085437, 9266706189117719);
    } else if e2 == -240 {
        lemma_double_down_exact(m, -240, 2458711117922954533, 43441665218401522, 524476983540170874, 9266706189117719);
    } else if e2 == -239 {
        lemma_double_down_exact(m, -239, 281951430168522557, 24908252840166084, 242525553371648317, 21425278105422511);
    } else if e2 == -238 {
        lemma_double_down_exact(m, -238, 281951430168522557, 12454126420083042, 1048953967080341748, 46333530945588595);
    } else if e2 == -237 {
        lemma_double_down_exact(m, -237, 281951430168522557, 6227063210041521, 1815956503992160939, 40106467735547074);
    } else if e2 == -236 {
        lemma_double_down_exact(m, -236, 563902860337045114, 6227063210041521, 3507665085003296281, 38734423497898100);
    } else if e2 == -235 {
        lemma_double_down_exact(m, -235, 814313589068068279, 44961486707939621, 250410728731023165, 13826170657732016);
    } else if e2 == -234 {
        lemma_double_down_exact(m, -234, 1378216449405113393, 38048401379073613, 250410728731023165, 6913085328866008);
    } else if e2 == -233 {
        lemma_double_down_exact(m, -233, 2756432898810226786, 38048401379073613, 250410728731023165, 3456542664433004);
    } else if e2 == -232 {
        lemma_double_down_exact(m, -232, 552818485977222934, 38154129660315889, 50082145746204633, 3456542664433004);
    } else if e2 == -231 {
        lemma_double_down_exact(m, -231, 1055554826208241235, 36425858328099387, 50082145746204633, 1728271332216502);
    } else if e2 == -230 {
        lemma_double_down_exact(m, -230, 2111109652416482470, 36425858328099387, 50082145746204633, 864135666108251);
    } else if e2 == -229 {
        lemma_double_down_exact(m, -229, 422221930483296494, 36425858328099387, 50082145746204633, 4320678330541255);
    }
}

proof fn lemma_exact_53(m: nat, e2: int)
    requires
        -228 <= e2 < -212,
        m < 0x80_0000_0000_0000,
    ensures
        fixed_point_product(m, wide(double_multiplier(e2)), double_shift(e2) as nat) == double_scaled(m, e2),
{
    reveal(spec_log10_pow2);
    reveal(spec_log10_pow5);
    reveal(spec_pow5bits);
    lemma_shift_powers();
    if e2 == -228 {
        lemma_double_down_exact(m, -228, 872961242199138191, 37655981651485341, 100164291492409266, 4320678330541255);
    } else if e2 == -227 {
        lemma_double_down_exact(m, -227, 1774439865630821585, 38271043313178318, 200328582984818532, 4320678330541255);
    } else if e2 == -226 {
        lemma_double_down_exact(m, -226, 2575754197570095713, 27776878317671669, 2976411363539732777, 32097556648212924);
    } else if e2 == -225 {
        lemma_double_down_exact(m, -225, 354887973126164317, 19135521656589159, 755545139095801381, 40738913309295434);
    } else if e2 == -224 {
        lemma_double_down_exact(m, -224, 709775946252328634, 19135521656589159, 755545139095801381, 20369456654647717);
    } else if e2 == -223 {
        lemma_double_down_exact(m, -223, 1465321085348130015, 19752489155618438, 2976411363539732777, 40121945810266155);
    } else if e2 == -222 {
        lemma_double_down_exact(m, -222, 293064217069626003, 19752489155618438, 631897626982724753, 42589815806383271);
    } else if e2 == -221 {
        lemma_double_down_exact(m, -221, 293064217069626003, 9876244577809219, 1263795253965449506, 42589815806383271);
    } else if e2 == -220 {
        lemma_double_down_exact(m, -220, 586128434139252006, 9876244577809219, 2142987905174327515, 36109274769905464);
    } else if e2 == -219 {
        lemma_double_down_exact(m, -219, 157530853104386503, 13271948119140631, 428597581034865503, 36109274769905464);
    } else if e2 == -218 {
        lemma_double_down_exact(m, -218, 1172256868278504012, 49381222889046095, 428597581034865503, 18054637384952732);
    } else if e2 == -217 {
        lemma_double_down_exact(m, -217, 1915916155522142521, 40353904196569729, 428597581034865503, 9027318692476366);
    } else if e2 == -216 {
        lemma_double_down_exact(m, -216, 3831832311044285042, 40353904196569729, 428597581034865503, 4513659346238183);
    } else if e2 == -215 {
        lemma_double_down_exact(m, -215, 423488397380964606, 22299266811616997, 428597581034865503, 22568296731190915);
    } else if e2 == -214 {
        lemma_double_down_exact(m, -214, 852085978415830109, 22433781771403956, 1709281140485561115, 45002078502594871);
    } else if e2 == -213 {
        lemma_double_down_exact(m, -213, 852085978415830109, 11216890885701978, 3418562280971122230, 45002078502594871);
    }
}

proof fn lemma_exact_54(m: nat, e2: int)
    requires
        -212 <= e2 < -196,
        m < 0x80_0000_0000_0000,
    ensures
        fixed_point_product(m, wide(double_multiplier(e2)), double_shift(e2) as nat) == double_scaled(m, e2),
{
    reveal(spec_log10_pow2);
    reveal(spec_log10_pow5);
    reveal(spec_pow5bits);
    lemma_shift_powers();
    if e2 == -212 {
        lemma_double_down_exact(m, -212, 168373522221605663, 11082375925915019, 683712456194224446, 45002078502594871);
    } else if e2 == -211 {
        lemma_double_down_exact(m, -211, 852085978415830109, 28042227214254945, 515338933972618783, 16959851288339926);
    } else if e2 == -210 {
        lemma_double_down_exact(m, -210, 2219510890804279001, 36522152858424908, 515338933972618783, 8479925644169963);
    } else if e2 == -209 {
        lemma_double_down_exact(m, -209, 237766604571808287, 19562301570084982, 515338933972618783, 42399628220849815);
    } else if e2 == -208 {
        lemma_double_down_exact(m, -208, 237766604571808287, 9781150785042491, 1030677867945237566, 42399628220849815);
    } else if e2 == -207 {
        lemma_double_down_exact(m, -207, 475533209143616574, 9781150785042491, 1743977681660662427, 35871540287988644);
    } else if e2 == -206 {
        lemma_double_down_exact(m, -206, 4439021781608558002, 45652691073031135, 1743977681660662427, 17935770143994322);
    } else if e2 == -205 {
        lemma_double_down_exact(m, -205, 539008819989579115, 27716920929036813, 1204968861671083312, 61961929790934797);
    } else if e2 == -204 {
        lemma_double_down_exact(m, -204, 1078017639979158230, 27716920929036813, 665960041681504197, 17122504430948992);
    } else if e2 == -203 {
        lemma_double_down_exact(m, -203, 2156035279958316460, 27716920929036813, 665960041681504197, 8561252215474496);
    } else if e2 == -202 {
        lemma_double_down_exact(m, -202, 431207055991663292, 27716920929036813, 234752985689840905, 15089340148335667);
    } else if e2 == -201 {
        lemma_double_down_exact(m, -201, 862414111983326584, 27716920929036813, 665960041681504197, 21403130538686240);
    } else if e2 == -200 {
        lemma_double_down_exact(m, -200, 1724828223966653168, 27716920929036813, 665960041681504197, 10701565269343120);
    } else if e2 == -199 {
        lemma_double_down_exact(m, -199, 290355264577758749, 23329146050044266, 187802388551872724, 15089340148335667);
    } else if e2 == -198 {
        lemma_double_down_exact(m, -198, 290355264577758749, 11664573025022133, 956315306259262946, 38418486198379933);
    } else if e2 == -197 {
        lemma_double_down_exact(m, -197, 1246670570837021695, 25041529611701033, 665960041681504197, 13376956586678900);
    }
}

proof fn lemma_exact_55(m: nat, e2: int)
    requires
        -196 <= e2 < -180,
        m < 0x80_0000_0000_0000,
    ensures
        fixed_point_product(m, wide(double_multiplier(e2)), double_shift(e2) as nat) == double_scaled(m, e2),
{
    reveal(spec_log10_pow2);
    reveal(spec_log10_pow5);
    reveal(spec_pow5bits);
    lemma_shift_powers();
    if e2 == -196 {
        lemma_double_down_exact(m, -196, 3159301183355547587, 31730007905040483, 665960041681504197, 6688478293339450);
    } else if e2 == -195 {
        lemma_double_down_exact(m, -195, 498668228334808678, 25041529611701033, 1164628270016312875, 58483921078398283);
    } else if e2 == -194 {
        lemma_double_down_exact(m, -194, 997336456669617356, 25041529611701033, 665960041681504197, 16721195733348625);
    } else if e2 == -193 {
        lemma_double_down_exact(m, -193, 3657969411690356265, 45922892284225862, 1663296498351121553, 20881362672524829);
    } else if e2 == -192 {
        lemma_double_down_exact(m, -192, 731593882338071253, 45922892284225862, 200108733674979047, 12561028794172421);
    } else if e2 == -191 {
        lemma_double_down_exact(m, -191, 731593882338071253, 22961446142112931, 1863405232026100600, 58483921078398283);
    } else if e2 == -190 {
        lemma_double_down_exact(m, -190, 1463187764676142506, 22961446142112931, 1131811349688029347, 17761237468142676);
    } else if e2 == -189 {
        lemma_double_down_exact(m, -189, 358912835932851133, 28161654816083186, 745362092810440240, 58483921078398283);
    } else if e2 == -188 {
        lemma_double_down_exact(m, -188, 358912835932851133, 14080827408041593, 1131811349688029347, 44403093670356690);
    } else if e2 == -187 {
        lemma_double_down_exact(m, -187, 717825671865702266, 14080827408041593, 1849637021553731613, 36282374243219938);
    } else if e2 == -186 {
        lemma_double_down_exact(m, -186, 60767998808675037, 5960107980904841, 413985677822327081, 40603597135683760);
    } else if e2 == -185 {
        lemma_double_down_exact(m, -185, 657057673057027229, 32222014529651562, 535521675439677155, 26261906548746721);
    } else if e2 == -184 {
        lemma_double_down_exact(m, -184, 657057673057027229, 16111007264825781, 1728101023936381539, 42372913813572502);
    } else if e2 == -183 {
        lemma_double_down_exact(m, -183, 1314115346114054458, 16111007264825781, 3042216370050435997, 37297464171612032);
    } else if e2 == -182 {
        lemma_double_down_exact(m, -182, 442849002881156367, 27146564887691092, 428417340351741724, 26261906548746721);
    } else if e2 == -181 {
        lemma_double_down_exact(m, -181, 442849002881156367, 13573282443845546, 1299683683584639815, 39835188992592267);
    }
}

proof fn lemma_exact_56(m: nat, e2: int)
    requires
        -180 <= e2 < -164,
        m < 0x80_0000_0000_0000,
    ensures
        fixed_point_product(m, wide(double_multiplier(e2)), double_shift(e2) as nat) == double_scaled(m, e2),
{
    reveal(spec_log10_pow2);
    reveal(spec_log10_pow5);
    reveal(spec_pow5bits);
    lemma_shift_powers();
    if e2 == -180 {
        lemma_double_down_exact(m, -180, 442849002881156367, 6786641221922773, 2599367367169279630, 39835188992592267);
    } else if e2 == -179 {
        lemma_double_down_exact(m, -179, 442849002881156367, 33933206109613865, 77024470552699559, 5901982882978402);
    } else if e2 == -178 {
        lemma_double_down_exact(m, -178, 962722476315012293, 36884197551103066, 77024470552699559, 2950991441489201);
    } else if e2 == -177 {
        lemma_double_down_exact(m, -177, 962722476315012293, 18442098775551533, 2079493893735423704, 39835188992592267);
    } else if e2 == -176 {
        lemma_double_down_exact(m, -176, 161734707041922635, 15491107334062332, 477518355189244388, 45737171875570669);
    } else if e2 == -175 {
        lemma_double_down_exact(m, -175, 161734707041922635, 7745553667031166, 793302003336566141, 37991618208539503);
    } else if e2 == -174 {
        lemma_double_down_exact(m, -174, 161734707041922635, 3872776833515583, 1586604006673132282, 37991618208539503);
    } else if e2 == -173 {
        lemma_double_down_exact(m, -173, 323469414083845270, 3872776833515583, 3042216370050435997, 36423304855089875);
    } else if e2 == -172 {
        lemma_double_down_exact(m, -172, 64693882816769054, 3872776833515583, 648542705829980999, 38823781435372804);
    } else if e2 == -171 {
        lemma_double_down_exact(m, -171, 129387765633538108, 3872776833515583, 1295481533997671539, 38775774885264317);
    } else if e2 == -170 {
        lemma_double_down_exact(m, -170, 258775531267076216, 3872776833515583, 2459971424699514511, 36815383193452282);
    } else if e2 == -169 {
        lemma_double_down_exact(m, -169, 258775531267076216, 19363884167577915, 699014709953563875, 52306490527514614);
    } else if e2 == -168 {
        lemma_double_down_exact(m, -168, 517551062534152432, 19363884167577915, 699014709953563875, 26153245263757307);
    } else if e2 == -167 {
        lemma_double_down_exact(m, -167, 1216565772487716307, 22758564715667611, 1398029419907127750, 26153245263757307);
    } else if e2 == -166 {
        lemma_double_down_exact(m, -166, 657354004524865207, 61486333050823441, 279605883981425550, 26153245263757307);
    } else if e2 == -165 {
        lemma_double_down_exact(m, -165, 377748120543439657, 17666543893533067, 559211767962851100, 26153245263757307);
    }
}

proof fn lemma_exact_57(m: nat, e2: int)
    requires
        -164 <= e2 < -148,
        m < 0x80_0000_0000_0000,
    ensures
        fixed_point_product(m, wide(double_multiplier(e2)), double_shift(e2) as nat) == double_scaled(m, e2),
{
    reveal(spec_log10_pow2);
    reveal(spec_log10_pow5);
    reveal(spec_pow5bits);
    lemma_shift_powers();
    if e2 == -164 {
        lemma_double_down_exact(m, -164, 936959888506290757, 21909894578645187, 1118423535925702200, 26153245263757307);
    } else if e2 == -163 {
        lemma_double_down_exact(m, -163, 2055383424431992957, 24031569921201247, 2236847071851404400, 26153245263757307);
    } else if e2 == -162 {
        lemma_double_down_exact(m, -162, 265905766950869437, 15544868550977007, 447369414370280880, 26153245263757307);
    } else if e2 == -161 {
        lemma_double_down_exact(m, -161, 713275181321150317, 20849056907367157, 894738828740561760, 26153245263757307);
    } else if e2 == -160 {
        lemma_double_down_exact(m, -160, 1608014010061712077, 23501151085562232, 1789477657481123520, 26153245263757307);
    } else if e2 == -159 {
        lemma_double_down_exact(m, -159, 176431884076813261, 12892774372781932, 357895531496224704, 26153245263757307);
    } else if e2 == -158 {
        lemma_double_down_exact(m, -158, 1608014010061712077, 58752877713905580, 715791062992449408, 26153245263757307);
    } else if e2 == -157 {
        lemma_double_down_exact(m, -157, 3039596136046610893, 55529684120710097, 1431582125984898816, 26153245263757307);
    } else if e2 == -156 {
        lemma_double_down_exact(m, -156, 176431884076813261, 16115967965977415, 251030048381617111, 22930051670561824);
    } else if e2 == -155 {
        lemma_double_down_exact(m, -155, 854923864916860744, 39046019636539239, 251030048381617111, 11465025835280912);
    } else if e2 == -154 {
        lemma_double_down_exact(m, -154, 1709847729833721488, 39046019636539239, 251030048381617111, 5732512917640456);
    } else if e2 == -153 {
        lemma_double_down_exact(m, -153, 3168665411285825865, 36179763177719011, 251030048381617111, 2866256458820228);
    } else if e2 == -152 {
        lemma_double_down_exact(m, -152, 633733082257165173, 36179763177719011, 251030048381617111, 14331282294101140);
    } else if e2 == -151 {
        lemma_double_down_exact(m, -151, 1267466164514330346, 36179763177719011, 251030048381617111, 7165641147050570);
    } else if e2 == -150 {
        lemma_double_down_exact(m, -150, 2534932329028660692, 36179763177719011, 251030048381617111, 3582820573525285);
    } else if e2 == -149 {
        lemma_double_down_exact(m, -149, 657604494834702405, 46928224898294866, 251030048381617111, 17914102867626425);
    }
}

proof fn lemma_exact_58(m: nat, e2: int)
    requires
        -148 <= e2 < -132,
        m < 0x80_0000_0000_0000,
    ensures
        fixed_point_product(m, wide(double_multiplier(e2)), double_shift(e2) as nat) == double_scaled(m, e2),
{
    reveal(spec_log10_pow2);
    reveal(spec_log10_pow5);
    reveal(spec_pow5bits);
    lemma_shift_powers();
    if e2 == -148 {
        lemma_double_down_exact(m, -148, 1159664591597936627, 41378215316773858, 502060096763234222, 17914102867626425);
    } else if e2 == -147 {
        lemma_double_down_exact(m, -147, 1159664591597936627, 20689107658386929, 1004120193526468444, 17914102867626425);
    } else if e2 == -146 {
        lemma_double_down_exact(m, -146, 263041797933880962, 23464112449147433, 633580995730174703, 56517313393639779);
    } else if e2 == -145 {
        lemma_double_down_exact(m, -145, 896622793664055665, 39990712921393606, 370539197796293741, 16526600472246173);
    } else if e2 == -144 {
        lemma_double_down_exact(m, -144, 896622793664055665, 19995356460696803, 741078395592587482, 16526600472246173);
    } else if e2 == -143 {
        lemma_double_down_exact(m, -143, 1793245587328111330, 19995356460696803, 1637701189256643147, 18260978466471488);
    } else if e2 == -142 {
        lemma_double_down_exact(m, -142, 358649117465622266, 19995356460696803, 920402954325398615, 51314179410963834);
    } else if e2 == -141 {
        lemma_double_down_exact(m, -141, 717298234931244532, 19995356460696803, 1637701189256643147, 45652446166178720);
    } else if e2 == -140 {
        lemma_double_down_exact(m, -140, 1434596469862489064, 19995356460696803, 3072297659119132211, 42821579543786163);
    } else if e2 == -139 {
        lemma_double_down_exact(m, -139, 165056462336005363, 11502756593519132, 368161181730159446, 25657089705481917);
    } else if e2 == -138 {
        lemma_double_down_exact(m, -138, 165056462336005363, 5751378296759566, 901378825796324255, 31408468002241483);
    } else if e2 == -137 {
        lemma_double_down_exact(m, -137, 3770571765521302383, 65692625152862749, 1802757651592648510, 31408468002241483);
    } else if e2 == -136 {
        lemma_double_down_exact(m, -136, 165056462336005363, 14378445741898915, 360551530318529702, 31408468002241483);
    } else if e2 == -135 {
        lemma_double_down_exact(m, -135, 525607992654535065, 22893456872070199, 721103060637059404, 31408468002241483);
    } else if e2 == -134 {
        lemma_double_down_exact(m, -134, 1246711053291594469, 27150962437155841, 1442206121274118808, 31408468002241483);
    } else if e2 == -133 {
        lemma_double_down_exact(m, -133, 2688917174565713277, 29279715219698662, 5573329417113950893, 60688183221940145);
    }
}

proof fn lemma_exact_59(m: nat, e2: int)
    requires
        -132 <= e2 < -116,
        m < 0x80_0000_0000_0000,
    ensures
        fixed_point_product(m, wide(double_multiplier(e2)), double_shift(e2) as nat) == double_scaled(m, e2),
{
    reveal(spec_log10_pow2);
    reveal(spec_log10_pow5);
    reveal(spec_pow5bits);
    lemma_shift_powers();
    if e2 == -132 {
        lemma_double_down_exact(m, -132, 420486394123628052, 22893456872070199, 615981462106152391, 33537220784784304);
    } else if e2 == -131 {
        lemma_double_down_exact(m, -131, 1456954250353408495, 39662067264462351, 615981462106152391, 16768610392392152);
    } else if e2 == -130 {
        lemma_double_down_exact(m, -130, 2913908500706816990, 39662067264462351, 615981462106152391, 8384305196196076);
    } else if e2 == -129 {
        lemma_double_down_exact(m, -129, 549581938176574405, 37402608547944322, 33199761964788993, 2259458716518029);
    } else if e2 == -128 {
        lemma_double_down_exact(m, -128, 549581938176574405, 18701304273972161, 615981462106152391, 20960762990490190);
    } else if e2 == -127 {
        lemma_double_down_exact(m, -127, 2331126800565453592, 39662067264462351, 615981462106152391, 10480381495245095);
    } else if e2 == -126 {
        lemma_double_down_exact(m, -126, 219832775270629762, 18701304273972161, 615981462106152391, 52401907476225475);
    } else if e2 == -125 {
        lemma_double_down_exact(m, -125, 835814237376782153, 35551605875098818, 396148686835522629, 16850301601126657);
    } else if e2 == -124 {
        lemma_double_down_exact(m, -124, 835814237376782153, 17775802937549409, 2463925848424609564, 52401907476225475);
    } else if e2 == -123 {
        lemma_double_down_exact(m, -123, 1671628474753564306, 17775802937549409, 4971368560554956023, 52864658144436851);
    } else if e2 == -122 {
        lemma_double_down_exact(m, -122, 8703372741147379, 462750668211376, 679443982262763100, 36125438511650181);
    } else if e2 == -121 {
        lemma_double_down_exact(m, -121, 8703372741147379, 231375334105688, 1358887964525526200, 36125438511650181);
    } else if e2 == -120 {
        lemma_double_down_exact(m, -120, 8703372741147379, 115687667052844, 2717775929051052400, 36125438511650181);
    } else if e2 == -119 {
        lemma_double_down_exact(m, -119, 8703372741147379, 578438335264220, 543555185810210480, 36125438511650181);
    } else if e2 == -118 {
        lemma_double_down_exact(m, -118, 8703372741147379, 289219167632110, 1087110371620420960, 36125438511650181);
    } else if e2 == -117 {
        lemma_double_down_exact(m, -117, 8703372741147379, 144609583816055, 2174220743240841920, 36125438511650181);
    }
}

proof fn lemma_exact_60(m: nat, e2: int)
    requires
        -116 <= e2 < -100,
        m < 0x80_0000_0000_0000,
    ensures
        fixed_point_product(m, wide(double_multiplier(e2)), double_shift(e2) as nat) == double_scaled(m, e2),
{
    reveal(spec_log10_pow2);
    reveal(spec_log10_pow5);
    reveal(spec_pow5bits);
    lemma_shift_powers();
    if e2 == -116 {
        lemma_double_down_exact(m, -116, 8703372741147379, 723047919080275, 434844148648168384, 36125438511650181);
    } else if e2 == -115 {
        lemma_double_down_exact(m, -115, 17406745482294758, 723047919080275, 878716158446684713, 36500441192372103);
    } else if e2 == -114 {
        lemma_double_down_exact(m, -114, 1070190358751927051, 22226984151127564, 1035376867787337535, 21503936232047289);
    } else if e2 == -113 {
        lemma_double_down_exact(m, -113, 1070190358751927051, 11113492075563782, 4211134453078529172, 43730920383174853);
    } else if e2 == -112 {
        lemma_double_down_exact(m, -112, 1070190358751927051, 55567460377818910, 414150747114935014, 21503936232047289);
    } else if e2 == -111 {
        lemma_double_down_exact(m, -111, 1070190358751927051, 27783730188909455, 828301494229870028, 21503936232047289);
    } else if e2 == -110 {
        lemma_double_down_exact(m, -110, 2140380717503854102, 27783730188909455, 1898491852981797079, 24643833210478372);
    } else if e2 == -109 {
        lemma_double_down_exact(m, -109, 476453916405182225, 30923627167340538, 234565051883125202, 15224142275185123);
    } else if e2 == -108 {
        lemma_double_down_exact(m, -108, 476453916405182225, 15461813583670269, 1422037936576614854, 46147769442525661);
    } else if e2 == -107 {
        lemma_double_down_exact(m, -107, 952907832810364450, 15461813583670269, 2851399685792161529, 46266605096768234);
    } else if e2 == -106 {
        lemma_double_down_exact(m, -106, 190581566562072890, 15461813583670269, 564420887047286849, 45791262479797942);
    } else if e2 == -105 {
        lemma_double_down_exact(m, -105, 381163133124145780, 15461813583670269, 945584020171432629, 38357444823569240);
    } else if e2 == -104 {
        lemma_double_down_exact(m, -104, 762326266248291560, 15461813583670269, 2470236552668015749, 50102349579125158);
    } else if e2 == -103 {
        lemma_double_down_exact(m, -103, 1524652532496583120, 15461813583670269, 2470236552668015749, 25051174789562579);
    } else if e2 == -102 {
        lemma_double_down_exact(m, -102, 304930506499316624, 15461813583670269, 945584020171432629, 47946806029461550);
    } else if e2 == -101 {
        lemma_double_down_exact(m, -101, 609861012998633248, 15461813583670269, 1555445033170065877, 39435216598401044);
    }
}

proof fn lemma_exact_61(m: nat, e2: int)
    requires
        -100 <= e2 < -84,
        m < 0x80_0000_0000_0000,
    ensures
        fixed_point_product(m, wide(double_multiplier(e2)), double_shift(e2) as nat) == double_scaled(m, e2),
{
    reveal(spec_log10_pow2);
    reveal(spec_log10_pow5);
    reveal(spec_pow5bits);
    lemma_shift_powers();
    if e2 == -100 {
        lemma_double_down_exact(m, -100, 1219722025997266496, 15461813583670269, 2775167059167332373, 35179421882870791);
    } else if e2 == -99 {
        lemma_double_down_exact(m, -99, 176799803764893423, 11206018868140016, 689322614702586227, 43691011313931297);
    } else if e2 == -98 {
        lemma_double_down_exact(m, -98, 176799803764893423, 5603009434070008, 1201845425640279031, 38088001879861289);
    } else if e2 == -97 {
        lemma_double_down_exact(m, -97, 176799803764893423, 2801504717035004, 2403690851280558062, 38088001879861289);
    } else if e2 == -96 {
        lemma_double_down_exact(m, -96, 176799803764893423, 14007523585175020, 516098131009090297, 40889506596896293);
    } else if e2 == -95 {
        lemma_double_down_exact(m, -95, 176799803764893423, 7003761792587510, 1032196262018180594, 40889506596896293);
    } else if e2 == -94 {
        lemma_double_down_exact(m, -94, 176799803764893423, 3501880896293755, 1887592720271467765, 37387625700602538);
    } else if e2 == -93 {
        lemma_double_down_exact(m, -93, 176799803764893423, 17509404481468775, 377518544054293553, 37387625700602538);
    } else if e2 == -92 {
        lemma_double_down_exact(m, -92, 353599607529786846, 17509404481468775, 377518544054293553, 18693812850301269);
    } else if e2 == -91 {
        lemma_double_down_exact(m, -91, 731118151584080399, 18101608665885022, 1486155239692667505, 36795421516186291);
    } else if e2 == -90 {
        lemma_double_down_exact(m, -90, 731118151584080399, 9050804332942511, 2972310479385335010, 36795421516186291);
    } else if e2 == -89 {
        lemma_double_down_exact(m, -89, 136656055707013397, 8458600148526264, 594462095877067002, 36795421516186291);
    } else if e2 == -88 {
        lemma_double_down_exact(m, -88, 136656055707013397, 4229300074263132, 1188924191754134004, 36795421516186291);
    } else if e2 == -87 {
        lemma_double_down_exact(m, -87, 136656055707013397, 2114650037131566, 2377848383508268008, 36795421516186291);
    } else if e2 == -86 {
        lemma_double_down_exact(m, -86, 136656055707013397, 10573250185657830, 502900887843056281, 38910071553317857);
    } else if e2 == -85 {
        lemma_double_down_exact(m, -85, 136656055707013397, 5286625092828915, 1005801775686112562, 38910071553317857);
    }
}

proof fn lemma_exact_62(m: nat, e2: int)
    requires
        -84 <= e2 < -68,
        m < 0x80_0000_0000_0000,
    ensures
        fixed_point_product(m, wide(double_multiplier(e2)), double_shift(e2) as nat) == double_scaled(m, e2),
{
    reveal(spec_log10_pow2);
    reveal(spec_log10_pow5);
    reveal(spec_pow5bits);
    lemma_shift_powers();
    if e2 == -84 {
        lemma_double_down_exact(m, -84, 1142457831393125959, 22098348323073386, 869145719979099165, 16811723230244471);
    } else if e2 == -83 {
        lemma_double_down_exact(m, -83, 447141255409846627, 43244848694389046, 173829143995819833, 16811723230244471);
    } else if e2 == -82 {
        lemma_double_down_exact(m, -82, 794799543401486293, 38434147577438994, 347658287991639666, 16811723230244471);
    } else if e2 == -81 {
        lemma_double_down_exact(m, -81, 1490116119384765625, 36028797018963968, 695316575983279332, 16811723230244471);
    } else if e2 == -80 {
        lemma_double_down_exact(m, -80, 1490116119384765625, 18014398509481984, 4370865390736089914, 52840520249208439);
    } else if e2 == -79 {
        lemma_double_down_exact(m, -79, 298023223876953125, 18014398509481984, 794586704212652414, 48029819132258387);
    } else if e2 == -78 {
        lemma_double_down_exact(m, -78, 298023223876953125, 9007199254740992, 1291150184548351703, 39022619877517395);
    } else if e2 == -77 {
        lemma_double_down_exact(m, -77, 298023223876953125, 4503599627370496, 2582300369096703406, 39022619877517395);
    } else if e2 == -76 {
        lemma_double_down_exact(m, -76, 59604644775390625, 4503599627370496, 496137801958031531, 37487112429619615);
    } else if e2 == -75 {
        lemma_double_down_exact(m, -75, 59604644775390625, 2251799813685248, 992275603916063062, 37487112429619615);
    } else if e2 == -74 {
        lemma_double_down_exact(m, -74, 59604644775390625, 1125899906842624, 1924946563056735499, 36361212522776991);
    } else if e2 == -73 {
        lemma_double_down_exact(m, -73, 11920928955078125, 1125899906842624, 387146727851657374, 36564974631186459);
    } else if e2 == -72 {
        lemma_double_down_exact(m, -72, 11920928955078125, 562949953421312, 774293455703314748, 36564974631186459);
    } else if e2 == -71 {
        lemma_double_down_exact(m, -71, 11920928955078125, 281474976710656, 1536665982451551371, 36283499654475803);
    } else if e2 == -70 {
        lemma_double_down_exact(m, -70, 11920928955078125, 140737488355328, 3061411035948024617, 36142762166120475);
    } else if e2 == -69 {
        lemma_double_down_exact(m, -69, 2384185791015625, 140737488355328, 610468042783962117, 36035672801325191);
    }
}

proof fn lemma_exact_63(m: nat, e2: int)
    requires
        -68 <= e2 < -52,
        m < 0x80_0000_0000_0000,
    ensures
        fixed_point_product(m, wide(double_multiplier(e2)), double_shift(e2) as nat) == double_scaled(m, e2),
{
    reveal(spec_log10_pow2);
    reveal(spec_log10_pow5);
    reveal(spec_pow5bits);
    lemma_shift_powers();
    if e2 == -68 {
        lemma_double_down_exact(m, -68, 2384185791015625, 70368744177664, 1220936085567924234, 36035672801325191);
    } else if e2 == -67 {
        lemma_double_down_exact(m, -67, 2384185791015625, 35184372088832, 2441872171135848468, 36035672801325191);
    } else if e2 == -66 {
        lemma_double_down_exact(m, -66, 476837158203125, 35184372088832, 488747171135848468, 36063175930770083);
    } else if e2 == -65 {
        lemma_double_down_exact(m, -65, 476837158203125, 17592186044416, 977017505113493811, 36045583744725667);
    } else if e2 == -64 {
        lemma_double_down_exact(m, -64, 476837158203125, 8796093022208, 1953558173068784497, 36036787651703459);
    } else if e2 == -63 {
        lemma_double_down_exact(m, -63, 95367431640625, 8796093022208, 390676703342221997, 36033565810572591);
    } else if e2 == -62 {
        lemma_double_down_exact(m, -62, 95367431640625, 4398046511104, 781258039252803369, 36029167764061487);
    } else if e2 == -61 {
        lemma_double_down_exact(m, -61, 95367431640625, 2199023255552, 1562516078505606738, 36029167764061487);
    } else if e2 == -60 {
        lemma_double_down_exact(m, -60, 95367431640625, 1099511627776, 3125032157011213476, 36029167764061487);
    } else if e2 == -59 {
        lemma_double_down_exact(m, -59, 19073486328125, 1099511627776, 625013083524885351, 36029551232823787);
    } else if e2 == -58 {
        lemma_double_down_exact(m, -58, 19073486328125, 549755813888, 1250007093563442577, 36029001477009899);
    } else if e2 == -57 {
        lemma_double_down_exact(m, -57, 19073486328125, 274877906944, 2500014187126885154, 36029001477009899);
    } else if e2 == -56 {
        lemma_double_down_exact(m, -56, 3814697265625, 274877906944, 500002743035088279, 36028994675472791);
    } else if e2 == -55 {
        lemma_double_down_exact(m, -55, 3814697265625, 137438953472, 1000001671372910933, 36028857236519319);
    } else if e2 == -54 {
        lemma_double_down_exact(m, -54, 3814697265625, 68719476736, 2000003342745821866, 36028857236519319);
    } else if e2 == -53 {
        lemma_double_down_exact(m, -53, 762939453125, 68719476736, 400000290988009366, 36028823228833779);
    }
}

proof fn lemma_exact_64(m: nat, e2: int)
    requires
        -52 <= e2 < -36,
        m < 0x80_0000_0000_0000,
    ensures
        fixed_point_product(m, wide(double_multiplier(e2)), double_shift(e2) as nat) == double_scaled(m, e2),
{
    reveal(spec_log10_pow2);
    reveal(spec_log10_pow5);
    reveal(spec_pow5bits);
    lemma_shift_powers();
    if e2 == -52 {
        lemma_double_down_exact(m, -52, 762939453125, 34359738368, 800000581976018732, 36028823228833779);
    } else if e2 == -51 {
        lemma_double_down_exact(m, -51, 762939453125, 17179869184, 1600000401012584339, 36028806048964595);
    } else if e2 == -50 {
        lemma_double_down_exact(m, -50, 762939453125, 8589934592, 3200000039085715553, 36028797459030003);
    } else if e2 == -49 {
        lemma_double_down_exact(m, -49, 152587890625, 8589934592, 640000039085715553, 36028799219294143);
    } else if e2 == -48 {
        lemma_double_down_exact(m, -48, 152587890625, 4294967296, 1280000078171431106, 36028799219294143);
    } else if e2 == -47 {
        lemma_double_down_exact(m, -47, 152587890625, 2147483648, 2560000003754971587, 36028797071810495);
    } else if e2 == -46 {
        lemma_double_down_exact(m, -46, 30517578125, 2147483648, 512000003754971587, 36028797283196603);
    } else if e2 == -45 {
        lemma_double_down_exact(m, -45, 30517578125, 1073741824, 1024000007509943174, 36028797283196603);
    } else if e2 == -44 {
        lemma_double_down_exact(m, -44, 30517578125, 536870912, 2048000015019886348, 36028797283196603);
    } else if e2 == -43 {
        lemma_double_down_exact(m, -43, 6103515625, 536870912, 409600002812855098, 36028797266385319);
    } else if e2 == -42 {
        lemma_double_down_exact(m, -42, 6103515625, 268435456, 819200005625710196, 36028797266385319);
    } else if e2 == -41 {
        lemma_double_down_exact(m, -41, 6103515625, 134217728, 1638400005147904767, 36028797132167591);
    } else if e2 == -40 {
        lemma_double_down_exact(m, -40, 6103515625, 67108864, 3276800004192293909, 36028797065058727);
    } else if e2 == -39 {
        lemma_double_down_exact(m, -39, 1220703125, 67108864, 655360000530184534, 36028797048111171);
    } else if e2 == -38 {
        lemma_double_down_exact(m, -38, 1220703125, 33554432, 1310720001060369068, 36028797048111171);
    } else if e2 == -37 {
        lemma_double_down_exact(m, -37, 1220703125, 16777216, 2621440000900035011, 36028797031333955);
    }
}

proof fn lemma_exact_65(m: nat, e2: int)
    requires
        -36 <= e2 < -20,
        m < 0x80_0000_0000_0000,
    ensures
        fixed_point_product(m, wide(double_multiplier(e2)), double_shift(e2) as nat) == double_scaled(m, e2),
{
    reveal(spec_log10_pow2);
    reveal(spec_log10_pow5);
    reveal(spec_pow5bits);
    lemma_shift_powers();
    if e2 == -36 {
        lemma_double_down_exact(m, -36, 244140625, 16777216, 524288000167613136, 36028797030482255);
    } else if e2 == -35 {
        lemma_double_down_exact(m, -35, 244140625, 8388608, 1048576000091085647, 36028797022093647);
    } else if e2 == -34 {
        lemma_double_down_exact(m, -34, 244140625, 4194304, 2097152000182171294, 36028797022093647);
    } else if e2 == -33 {
        lemma_double_down_exact(m, -33, 48828125, 4194304, 419430400035686919, 36028797022029451);
    } else if e2 == -32 {
        lemma_double_down_exact(m, -32, 48828125, 2097152, 838860800022545713, 36028797019932299);
    } else if e2 == -31 {
        lemma_double_down_exact(m, -31, 48828125, 1048576, 1677721600045091426, 36028797019932299);
    } else if e2 == -30 {
        lemma_double_down_exact(m, -30, 48828125, 524288, 3355443200041354727, 36028797019408011);
    } else if e2 == -29 {
        lemma_double_down_exact(m, -29, 9765625, 524288, 671088640002292227, 36028797019087031);
    } else if e2 == -28 {
        lemma_double_down_exact(m, -28, 9765625, 262144, 1342177280004584454, 36028797019087031);
    } else if e2 == -27 {
        lemma_double_down_exact(m, -27, 9765625, 131072, 2684354560009168908, 36028797019087031);
    } else if e2 == -26 {
        lemma_double_down_exact(m, -26, 1953125, 131072, 536870912001356408, 36028797019054995);
    } else if e2 == -25 {
        lemma_double_down_exact(m, -25, 1953125, 65536, 1073741824000759691, 36028797018989459);
    } else if e2 == -24 {
        lemma_double_down_exact(m, -24, 1953125, 32768, 2147483648001519382, 36028797018989459);
    } else if e2 == -23 {
        lemma_double_down_exact(m, -23, 390625, 32768, 429496729600347507, 36028797018993119);
    } else if e2 == -22 {
        lemma_double_down_exact(m, -22, 390625, 16384, 858993459200304389, 36028797018976735);
    } else if e2 == -21 {
        lemma_double_down_exact(m, -21, 390625, 8192, 1717986918400218153, 36028797018968543);
    }
}

proof fn lemma_exact_66(m: nat, e2: int)
    requires
        -20 <= e2 < -4,
        m < 0x80_0000_0000_0000,
    ensures
        fixed_point_product(m, wide(double_multiplier(e2)), double_shift(e2) as nat) == double_scaled(m, e2),
{
    reveal(spec_log10_pow2);
    reveal(spec_log10_pow5);
    reveal(spec_pow5bits);
    lemma_shift_powers();
    if e2 == -20 {
        lemma_double_down_exact(m, -20, 390625, 4096, 3435973836800045681, 36028797018964447);
    } else if e2 == -19 {
        lemma_double_down_exact(m, -19, 78125, 4096, 687194767360045681, 36028797018966363);
    } else if e2 == -18 {
        lemma_double_down_exact(m, -18, 78125, 2048, 1374389534720013237, 36028797018964315);
    } else if e2 == -17 {
        lemma_double_down_exact(m, -17, 78125, 1024, 2748779069440026474, 36028797018964315);
    } else if e2 == -16 {
        lemma_double_down_exact(m, -16, 15625, 1024, 549755813888010849, 36028797018964679);
    } else if e2 == -15 {
        lemma_double_down_exact(m, -15, 15625, 512, 1099511627776006073, 36028797018964167);
    } else if e2 == -14 {
        lemma_double_down_exact(m, -14, 15625, 256, 2199023255552012146, 36028797018964167);
    } else if e2 == -13 {
        lemma_double_down_exact(m, -13, 3125, 256, 439804651110402771, 36028797018964195);
    } else if e2 == -12 {
        lemma_double_down_exact(m, -12, 3125, 128, 879609302220802417, 36028797018964067);
    } else if e2 == -11 {
        lemma_double_down_exact(m, -11, 3125, 64, 1759218604441601709, 36028797018964003);
    } else if e2 == -10 {
        lemma_double_down_exact(m, -10, 3125, 32, 3518437208883200293, 36028797018963971);
    } else if e2 == -9 {
        lemma_double_down_exact(m, -9, 625, 32, 703687441776640293, 36028797018963983);
    } else if e2 == -8 {
        lemma_double_down_exact(m, -8, 625, 16, 1407374883553280586, 36028797018963983);
    } else if e2 == -7 {
        lemma_double_down_exact(m, -7, 625, 8, 2814749767106560547, 36028797018963975);
    } else if e2 == -6 {
        lemma_double_down_exact(m, -6, 125, 8, 562949953421312047, 36028797018963971);
    } else if e2 == -5 {
        lemma_double_down_exact(m, -5, 125, 4, 1125899906842624094, 36028797018963971);
    }
}

proof fn lemma_exact_67(m: nat, e2: int)
    requires
        -4 <= e2 < 12,
        m < 0x80_0000_0000_0000,
    ensures
        fixed_point_product(m, wide(double_multiplier(e2)), double_shift(e2) as nat) == double_scaled(m, e2),
{
    reveal(spec_log10_pow2);
    reveal(spec_log10_pow5);
    reveal(spec_pow5bits);
    lemma_shift_powers();
    lemma_small_powers();
    lemma2_to64();
    lemma2_to64_rest();
    if e2 == -4 {
        lemma_double_down_exact(m, -4, 125, 2, 2251799813685248063, 36028797018963969);
    } else if e2 == -3 {
        lemma_double_down_exact(m, -3, 25, 2, 450359962737049613, 36028797018963969);
    } else if e2 == -2 {
        lemma_double_down_exact(m, -2, 25, 1, 900719925474099201, 36028797018963968);
    } else if e2 == -1 {
        lemma_double_down_exact(m, -1, 5, 1, 180143985094819841, 36028797018963968);
    } else if e2 == 0 {
        lemma_double_up_exact(m, 0, 1, 1, 36028797018963969, 36028797018963968);
    } else if e2 == 1 {
        lemma_double_up_exact(m, 1, 2, 1, 72057594037927937, 36028797018963968);
    } else if e2 == 2 {
        lemma_double_up_exact(m, 2, 4, 1, 144115188075855873, 36028797018963968);
    } else if e2 == 3 {
        lemma_double_up_exact(m, 3, 8, 1, 288230376151711745, 36028797018963968);
    } else if e2 == 4 {
        lemma_double_up_exact(m, 4, 16, 1, 576460752303423489, 36028797018963968);
    } else if e2 == 5 {
        lemma_double_up_exact(m, 5, 32, 1, 1152921504606846977, 36028797018963968);
    } else if e2 == 6 {
        lemma_double_up_exact(m, 6, 64, 1, 2305843009213693953, 36028797018963968);
    } else if e2 == 7 {
        lemma_double_up_exact_small(m, 7, 461168601842738765, 36028797018963966);
    } else if e2 == 8 {
        lemma_double_up_exact_small(m, 8, 922337203685477453, 36028797018963963);
    } else if e2 == 9 {
        lemma_double_up_exact_small(m, 9, 1844674407370954957, 36028797018963964);
    } else if e2 == 10 {
        lemma_double_up_exact_small(m, 10, 368934881474190889, 36028797018963954);
    } else if e2 == 11 {
        lemma_double_up_exact_small(m, 11, 737869762948381737, 36028797018963952);
    }
}

proof fn lemma_exact_68(m: nat, e2: int)
    requires
        12 <= e2 < 28,
        m < 0x80_0000_0000_0000,
    ensures
        fixed_point_product(m, wide(double_multiplier(e2)), double_shift(e2) as nat) == double_scaled(m, e2),
{
    reveal(spec_log10_pow2);
    reveal(spec_log10_pow5);
    reveal(spec_pow5bits);
    lemma_shift_powers();
    lemma_small_powers();
    lemma2_to64();
    lemma2_to64_rest();
    if e2 == 12 {
        lemma_double_up_exact_small(m, 12, 1475739525896763433, 36028797018963951);
    } else if e2 == 13 {
        lemma_double_up_exact_small(m, 13, 2951479051793527849, 36028797018963963);
    } else if e2 == 14 {
        lemma_double_up_exact_small(m, 14, 590295810358704341, 36028797018963888);
    } else if e2 == 15 {
        lemma_double_up_exact_small(m, 15, 1180591620717410517, 36028797018963944);
    } else if e2 == 16 {
        lemma_double_up_exact_small(m, 16, 2361183241434814677, 36028797018963847);
    } else if e2 == 17 {
        lemma_double_up_exact_small(m, 17, 472236648286961297, 36028797018963722);
    } else if e2 == 18 {
        lemma_double_up_exact_small(m, 18, 944473296573922961, 36028797018963736);
    } else if e2 == 19 {
        lemma_double_up_exact_small(m, 19, 1888946593147846289, 36028797018963743);
    } else if e2 == 20 {
        lemma_double_up_exact_small(m, 20, 377789318629549597, 36028797018961868);
    } else if e2 == 21 {
        lemma_double_up_exact_small(m, 21, 755578637259105821, 36028797018962184);
    } else if e2 == 22 {
        lemma_double_up_exact_small(m, 22, 1511157274518218269, 36028797018962342);
    } else if e2 == 23 {
        lemma_double_up_exact_small(m, 23, 3022314549036443165, 36028797018962421);
    } else if e2 == 24 {
        lemma_double_up_exact_small(m, 24, 604462909807288633, 36028797018962421);
    } else if e2 == 25 {
        lemma_double_up_exact_small(m, 25, 1208925819614421305, 36028797018957773);
    } else if e2 == 26 {
        lemma_double_up_exact_small(m, 26, 2417851639228686649, 36028797018955449);
    } else if e2 == 27 {
        lemma_double_up_exact_small(m, 27, 483570327844898469, 36028797018892949);
    }
}

proof fn lemma_exact_69(m: nat, e2: int)
    requires
        28 <= e2 < 44,
        m < 0x80_0000_0000_0000,
    ensures
        fixed_point_product(m, wide(double_multiplier(e2)), double_shift(e2) as nat) == double_scaled(m, e2),
{
    reveal(spec_log10_pow2);
    reveal(spec_log10_pow5);
    reveal(spec_pow5bits);
    lemma_shift_powers();
    lemma_small_powers();
    lemma2_to64();
    lemma2_to64_rest();
    if e2 == 28 {
        lemma_double_up_exact_small(m, 28, 967140655691024037, 36028797018938662);
    } else if e2 == 29 {
        lemma_double_up_exact_small(m, 29, 1934281311381178021, 36028797018922456);
    } else if e2 == 30 {
        lemma_double_up_exact_small(m, 30, 386856262272880161, 36028797018609956);
    } else if e2 == 31 {
        lemma_double_up_exact_small(m, 31, 773712524547264033, 36028797018679978);
    } else if e2 == 32 {
        lemma_double_up_exact_small(m, 32, 1547425049096031777, 36028797018714989);
    } else if e2 == 33 {
        lemma_double_up_exact_small(m, 33, 3094850098210344481, 36028797018927807);
    } else if e2 == 34 {
        lemma_double_up_exact_small(m, 34, 618970019621936237, 36028797017755932);
    } else if e2 == 35 {
        lemma_double_up_exact_small(m, 35, 1237940039274372205, 36028797018643591);
    } else if e2 == 36 {
        lemma_double_up_exact_small(m, 36, 2475880078512135277, 36028797018110858);
    } else if e2 == 37 {
        lemma_double_up_exact_small(m, 37, 495176015595052873, 36028797010298358);
    } else if e2 == 38 {
        lemma_double_up_exact_small(m, 38, 990352031209627465, 36028797011008554);
    } else if e2 == 39 {
        lemma_double_up_exact_small(m, 39, 1980704062438776649, 36028797011363652);
    } else if e2 == 40 {
        lemma_double_up_exact_small(m, 40, 396140812273006965, 36028796991832402);
    } else if e2 == 41 {
        lemma_double_up_exact_small(m, 41, 792281624335169909, 36028796982244326);
    } else if e2 == 42 {
        lemma_double_up_exact_small(m, 42, 1584563248459495797, 36028796977450288);
    } else if e2 == 43 {
        lemma_double_up_exact_small(m, 43, 3169126496708147573, 36028796975053269);
    }
}

proof fn lemma_exact_70(m: nat, e2: int)
    requires
        44 <= e2 < 60,
        m < 0x80_0000_0000_0000,
    ensures
        fixed_point_product(m, wide(double_multiplier(e2)), double_shift(e2) as nat) == double_scaled(m, e2),
{
    reveal(spec_log10_pow2);
    reveal(spec_log10_pow5);
    reveal(spec_pow5bits);
    lemma_shift_powers();
    lemma_small_powers();
    lemma2_to64();
    lemma2_to64_rest();
    if e2 == 44 {
        lemma_double_up_exact_small(m, 44, 633825296764649137, 36028796828568894);
    } else if e2 == 45 {
        lemma_double_up_exact_small(m, 45, 1267650594346122929, 36028796851784447);
    } else if e2 == 46 {
        lemma_double_up_exact_small(m, 46, 2535301198099005105, 36028796985462536);
    } else if e2 == 47 {
        lemma_double_up_exact_small(m, 47, 507060239619801021, 36028796985462536);
    } else if e2 == 48 {
        lemma_double_up_exact_small(m, 48, 1014120470813032381, 36028796686090643);
    } else if e2 == 49 {
        lemma_double_up_exact_small(m, 49, 2028240898839756733, 36028795926053134);
    } else if e2 == 50 {
        lemma_double_up_exact_small(m, 50, 405648138536265305, 36028792263943759);
    } else if e2 == 51 {
        lemma_double_up_exact_small(m, 51, 811296254771373657, 36028791273573442);
    } else if e2 == 52 {
        lemma_double_up_exact_small(m, 52, 1622592624680543833, 36028793830146096);
    } else if e2 == 53 {
        lemma_double_up_exact_small(m, 53, 3245185364498884185, 36028795108432423);
    } else if e2 == 54 {
        lemma_double_up_exact_small(m, 54, 649037072899776837, 36028795108432423);
    } else if e2 == 55 {
        lemma_double_up_exact_small(m, 55, 1298073838973624645, 36028786592302149);
    } else if e2 == 56 {
        lemma_double_up_exact_small(m, 56, 2596147371121320261, 36028782334237012);
    } else if e2 == 57 {
        lemma_double_up_exact_small(m, 57, 519228154810310721, 36028690781502637);
    } else if e2 == 58 {
        lemma_double_up_exact_small(m, 58, 1038459326887993409, 36028795463993506);
    } else if e2 == 59 {
        lemma_double_up_exact_small(m, 59, 2076917272996847681, 36028771511293628);
    }
}

proof fn lemma_exact_71(m: nat, e2: int)
    requires
        60 <= e2 < 76,
        m < 0x80_0000_0000_0000,
    ensures
        fixed_point_product(m, wide(double_multiplier(e2)), double_shift(e2) as nat) == double_scaled(m, e2),
{
    reveal(spec_log10_pow2);
    reveal(spec_log10_pow5);
    reveal(spec_pow5bits);
    lemma_shift_powers();
    lemma_small_powers();
    lemma2_to64();
    lemma2_to64_rest();
    if e2 == 60 {
        lemma_double_up_exact_small(m, 60, 415379936162160653, 36028466335512378);
    } else if e2 == 61 {
        lemma_double_up_exact_small(m, 61, 830766633042911245, 36028759534943689);
    } else if e2 == 62 {
        lemma_double_up_exact_small(m, 62, 1661522434618368013, 36028524664932782);
    } else if e2 == 63 {
        lemma_double_up_exact_small(m, 63, 3323069222141370381, 36028788699653891);
    } else if e2 == 64 {
        lemma_double_up_exact_small(m, 64, 664557549432931945, 36025736941841391);
    } else if e2 == 65 {
        lemma_double_up_exact_small(m, 65, 1329190338190968425, 36027776307834758);
    } else if e2 == 66 {
        lemma_double_up_exact_small(m, 66, 2658315178218686057, 36026888642198629);
    } else if e2 == 67 {
        lemma_double_up_exact_small(m, 67, 531550445653052949, 36019259247667379);
    } else if e2 == 68 {
        lemma_double_up_exact_small(m, 68, 1063256676659482133, 36024537460747752);
    } else if e2 == 69 {
        lemma_double_up_exact_small(m, 69, 2126106188718919189, 36017639824123876);
    } else if e2 == 70 {
        lemma_double_up_exact_small(m, 70, 424996057762415313, 35998566337795751);
    } else if e2 == 71 {
        lemma_double_up_exact_small(m, 71, 849460322642084561, 35976044033155688);
    } else if e2 == 72 {
        lemma_double_up_exact_small(m, 72, 1700640652215108305, 36012466596655969);
    } else if e2 == 73 {
        lemma_double_up_exact_small(m, 73, 3398497711733785297, 35982994162585797);
    } else if e2 == 74 {
        lemma_double_up_exact_small(m, 74, 677898102495808861, 35887626730945172);
    } else if e2 == 75 {
        lemma_double_up_exact_small(m, 75, 1344430847346642269, 35586788218988211);
    }
}

proof fn lemma_exact_72(m: nat, e2: int)
    requires
        76 <= e2 < 92,
        m < 0x80_0000_0000_0000,
    ensures
        fixed_point_product(m, wide(double_multiplier(e2)), double_shift(e2) as nat) == double_scaled(m, e2),
{
    reveal(spec_log10_pow2);
    reveal(spec_log10_pow5);
    reveal(spec_pow5bits);
    lemma_shift_powers();
    lemma_small_powers();
    lemma2_to64();
    lemma2_to64_rest();
    if e2 == 76 {
        lemma_double_up_exact_small(m, 76, 2695510735557791069, 35674787542111293);
    } else if e2 == 77 {
        lemma_double_up_exact_small(m, 77, 517484868900179833, 34244276067501918);
    } else if e2 == 78 {
        lemma_double_up_exact_small(m, 78, 1021888027165675385, 33811438570860334);
    } else if e2 == 79 {
        lemma_double_up_exact_small(m, 79, 2174809531772522361, 35979205613555167);
    } else if e2 == 80 {
        lemma_double_up_exact_small(m, 80, 348492793508990949, 28826648240508292);
    } else if e2 == 81 {
        lemma_double_up_exact_small(m, 81, 636723169660702693, 26334253075332271);
    } else if e2 == 82 {
        lemma_double_up_exact_small(m, 82, 1501414298115837925, 31048519970283323);
    } else if e2 == 83 {
        lemma_double_up_exact_small(m, 83, 3230796555026108389, 33405653417758849);
    } else if e2 == 84 {
        lemma_double_up_exact(m, 84, 276177892680255903, 14278062402553651, 876743611926591073, 45326582372836974);
    } else if e2 == 85 {
        lemma_double_up_exact(m, 85, 552355785360511806, 14278062402553651, 876743611926591073, 22663291186418487);
    } else if e2 == 86 {
        lemma_double_up_exact(m, 86, 1429099397287102879, 18470676794486069, 3182586621140285025, 41133967980904556);
    } else if e2 == 87 {
        lemma_double_up_exact(m, 87, 156064748830988869, 10085448010621233, 636517324228057005, 41133967980904556);
    } else if e2 == 88 {
        lemma_double_up_exact(m, 88, 1585164146118091748, 51219415991525789, 636517324228057005, 20566983990452278);
    } else if e2 == 89 {
        lemma_double_up_exact(m, 89, 2533810968008126491, 40935923996299650, 636517324228057005, 10283491995226139);
    } else if e2 == 90 {
        lemma_double_up_exact(m, 90, 496955530478344075, 40143748057880026, 127303464845611401, 10283491995226139);
    } else if e2 == 91 {
        lemma_double_up_exact(m, 91, 1006169389860789679, 40638858019392291, 254606929691222802, 10283491995226139);
    }
}

proof fn lemma_exact_73(m: nat, e2: int)
    requires
        92 <= e2 < 108,
        m < 0x80_0000_0000_0000,
    ensures
        fixed_point_product(m, wide(double_multiplier(e2)), double_shift(e2) as nat) == double_scaled(m, e2),
{
    reveal(spec_log10_pow2);
    reveal(spec_log10_pow5);
    reveal(spec_pow5bits);
    lemma_shift_powers();
    if e2 == 92 {
        lemma_double_up_exact(m, 92, 2279204038316903689, 46028158997761493, 509213859382445604, 10283491995226139);
    } else if e2 == 93 {
        lemma_double_up_exact(m, 93, 3806845616464240501, 38439317491719955, 1018427718764891208, 10283491995226139);
    } else if e2 == 94 {
        lemma_double_up_exact(m, 94, 353998035786891617, 17872333501267677, 1018427718764891208, 51417459976130695);
    } else if e2 == 95 {
        lemma_double_up_exact(m, 95, 1372425754551782825, 34644896738699186, 664429682977999591, 16772563237431509);
    } else if e2 == 96 {
        lemma_double_up_exact(m, 96, 1372425754551782825, 17322448369349593, 4073710875059564832, 51417459976130695);
    } else if e2 == 97 {
        lemma_double_up_exact(m, 97, 274485150910356565, 17322448369349593, 779889064135286052, 49217919448458359);
    } else if e2 == 98 {
        lemma_double_up_exact(m, 98, 548970301820713130, 17322448369349593, 1603344516866355747, 50592632278253569);
    } else if e2 == 99 {
        lemma_double_up_exact(m, 99, 1097940603641426260, 17322448369349593, 3250255422328495137, 51279988693151174);
    } else if e2 == 100 {
        lemma_double_up_exact(m, 100, 219588120728285252, 17322448369349593, 615197973589072113, 48530563033560754);
    } else if e2 == 101 {
        lemma_double_up_exact(m, 101, 439176241456570504, 17322448369349593, 1054374215045642617, 41587729886129970);
    } else if e2 == 102 {
        lemma_double_up_exact(m, 102, 878352482913141008, 17322448369349593, 1932726697958783625, 38116313312414578);
    } else if e2 == 103 {
        lemma_double_up_exact(m, 103, 105261803729627558, 10379615221918809, 386545339591756725, 38116313312414578);
    } else if e2 == 104 {
        lemma_double_up_exact(m, 104, 983614286642768566, 48495928534333387, 386545339591756725, 19058156656207289);
    } else if e2 == 105 {
        lemma_double_up_exact(m, 105, 2143250305418038741, 52835199251477627, 773090679183513450, 19058156656207289);
    } else if e2 == 106 {
        lemma_double_up_exact(m, 106, 1370159626234525291, 16888521297635169, 2916340984601552191, 35946677953842458);
    } else if e2 == 107 {
        lemma_double_up_exact(m, 107, 751687082887714531, 46326293175761267, 309236271673405380, 19058156656207289);
    }
}

proof fn lemma_exact_74(m: nat, e2: int)
    requires
        108 <= e2 < 124,
        m < 0x80_0000_0000_0000,
    ensures
        fixed_point_product(m, wide(double_multiplier(e2)), double_shift(e2) as nat) == double_scaled(m, e2),
{
    reveal(spec_log10_pow2);
    reveal(spec_log10_pow5);
    reveal(spec_pow5bits);
    lemma_shift_powers();
    if e2 == 108 {
        lemma_double_up_exact(m, 108, 1679395897907930671, 51750381572191567, 618472543346810760, 19058156656207289);
    } else if e2 == 109 {
        lemma_double_up_exact(m, 109, 2297868441254741431, 35404269114199428, 1236945086693621520, 19058156656207289);
    } else if e2 == 110 {
        lemma_double_up_exact(m, 110, 566145319883671303, 43614248977546117, 247389017338724304, 19058156656207289);
    } else if e2 == 111 {
        lemma_double_up_exact(m, 111, 1308312371899844215, 50394359473083992, 494778034677448608, 19058156656207289);
    } else if e2 == 112 {
        lemma_double_up_exact(m, 112, 2297868441254741431, 44255336392749285, 989556069354897216, 19058156656207289);
    } else if e2 == 113 {
        lemma_double_up_exact(m, 113, 261662474379968843, 25197179736541996, 204568646214990687, 19699244071410457);
    } else if e2 == 114 {
        lemma_double_up_exact(m, 114, 261662474379968843, 12598589868270998, 932462241189919060, 44896423807952453);
    } else if e2 == 115 {
        lemma_double_up_exact(m, 115, 261662474379968843, 6299294934135499, 1603262007999869277, 38597128873816954);
    } else if e2 == 116 {
        lemma_double_up_exact(m, 116, 523324948759937686, 6299294934135499, 3173236854279682335, 38196449239314974);
    } else if e2 == 117 {
        lemma_double_up_exact(m, 117, 523324948759937686, 31496474670677495, 111322422095998781, 6699974568637479);
    } else if e2 == 118 {
        lemma_double_up_exact(m, 118, 1681297268375811839, 50594699290334982, 634647370855936467, 19098224619657487);
    } else if e2 == 119 {
        lemma_double_up_exact(m, 119, 1681297268375811839, 25297349645167491, 1269294741711872934, 19098224619657487);
    } else if e2 == 120 {
        lemma_double_up_exact(m, 120, 82400505332787781, 6199125025510004, 527690193716782905, 39698997868697399);
    } else if e2 == 121 {
        lemma_double_up_exact(m, 121, 82400505332787781, 3099562512755002, 972979882100778029, 36599435355942397);
    } else if e2 == 122 {
        lemma_double_up_exact(m, 122, 82400505332787781, 1549781256377501, 1945959764201556058, 36599435355942397);
    } else if e2 == 123 {
        lemma_double_up_exact(m, 123, 82400505332787781, 7748906281887505, 422152154973426324, 39698997868697399);
    }
}

proof fn lemma_exact_75(m: nat, e2: int)
    requires
        124 <= e2 < 140,
        m < 0x80_0000_0000_0000,
    ensures
        fixed_point_product(m, wide(double_multiplier(e2)), double_shift(e2) as nat) == double_scaled(m, e2),
{
    reveal(spec_log10_pow2);
    reveal(spec_log10_pow5);
    reveal(spec_pow5bits);
    lemma_shift_powers();
    if e2 == 124 {
        lemma_double_up_exact(m, 124, 164801010665575562, 7748906281887505, 834154681637365229, 39221764639067462);
    } else if e2 == 125 {
        lemma_double_up_exact(m, 125, 1493358724299667477, 35108694883308741, 1163756702968516353, 27359788601421236);
    } else if e2 == 126 {
        lemma_double_up_exact(m, 126, 4150474151567851307, 48788589184019359, 1163756702968516353, 13679894300710618);
    } else if e2 == 127 {
        lemma_double_up_exact(m, 127, 659204042662302248, 38744531409437525, 100910532061242821, 5930988018823113);
    } else if e2 == 128 {
        lemma_double_up_exact(m, 128, 961935638846030711, 28268747732953432, 2125692341814547064, 62468483484729977);
    } else if e2 == 129 {
        lemma_double_up_exact(m, 129, 961935638846030711, 14134373866476716, 3289449044783063417, 48334109618253261);
    } else if e2 == 130 {
        lemma_double_up_exact(m, 130, 688820085427830312, 50606507447083751, 273115553418200399, 20065361885299829);
    } else if e2 == 131 {
        lemma_double_up_exact(m, 131, 961935638846030711, 35335934666191790, 546231106836400798, 20065361885299829);
    } else if e2 == 132 {
        lemma_double_up_exact(m, 132, 961935638846030711, 17667967333095895, 2054397852518832307, 37733329218395724);
    } else if e2 == 133 {
        lemma_double_up_exact(m, 133, 413724024573592994, 37994551069196861, 26105314965354177, 2397394552203934);
    } else if e2 == 134 {
        lemma_double_up_exact(m, 134, 801342734181831811, 36795853793094894, 26105314965354177, 1198697276101967);
    } else if e2 == 135 {
        lemma_double_up_exact(m, 135, 1584502183142457121, 36378386038076952, 52210629930708354, 1198697276101967);
    } else if e2 == 136 {
        lemma_double_up_exact(m, 136, 1897765962726707245, 21785284847344377, 2002187222588123953, 22983982123446344);
    } else if e2 == 137 {
        lemma_double_up_exact(m, 137, 379553192545341449, 21785284847344377, 863527644952099606, 49564056075198589);
    } else if e2 == 138 {
        lemma_double_up_exact(m, 138, 759106385090682898, 21785284847344377, 2002187222588123953, 57459955308615860);
    } else if e2 == 139 {
        lemma_double_up_exact(m, 139, 1518212770181365796, 21785284847344377, 2002187222588123953, 28729977654307930);
    }
}

proof fn lemma_exact_76(m: nat, e2: int)
    requires
        140 <= e2 < 156,
        m < 0x80_0000_0000_0000,
    ensures
        fixed_point_product(m, wide(double_multiplier(e2)), double_shift(e2) as nat) == double_scaled(m, e2),
{
    reveal(spec_log10_pow2);
    reveal(spec_log10_pow5);
    reveal(spec_pow5bits);
    lemma_shift_powers();
    if e2 == 140 {
        lemma_double_up_exact(m, 140, 13257882592218265, 951206426453718, 497232334998976422, 35674670461271483);
    } else if e2 == 141 {
        lemma_double_up_exact(m, 141, 13257882592218265, 475603213226859, 994464669997952844, 35674670461271483);
    } else if e2 == 142 {
        lemma_double_up_exact(m, 142, 1007722552590171109, 18075136837249171, 2996651892586076797, 53749807298520654);
    } else if e2 == 143 {
        lemma_double_up_exact(m, 143, 5303153036887306, 475603213226859, 403163106385018225, 36156917878383929);
    } else if e2 == 144 {
        lemma_double_up_exact(m, 144, 10606306073774612, 475603213226859, 811505890225340787, 36389182648426036);
    } else if e2 == 145 {
        lemma_double_up_exact(m, 145, 1002419399553283803, 22475020243254749, 981206787405734579, 21999417030027890);
    } else if e2 == 146 {
        lemma_double_up_exact(m, 146, 2004838799106567606, 22475020243254749, 4990884385618869791, 55949749001523443);
    } else if e2 == 147 {
        lemma_double_up_exact(m, 147, 213211447199186295, 11950914941467663, 597209117302460437, 33474728758268694);
    } else if e2 == 148 {
        lemma_double_up_exact(m, 148, 1620841129003293464, 45425643699736357, 597209117302460437, 16737364379134347);
    } else if e2 == 149 {
        lemma_double_up_exact(m, 149, 3412468480910674775, 47818868418569699, 1194418234604920874, 16737364379134347);
    } else if e2 == 150 {
        lemma_double_up_exact(m, 150, 170569157759349036, 11950914941467663, 511924538422785919, 35867953477102036);
    } else if e2 == 151 {
        lemma_double_up_exact(m, 151, 1364987392364269910, 47818868418569699, 511924538422785919, 17933976738551018);
    } else if e2 == 152 {
        lemma_double_up_exact(m, 152, 2218050246305753901, 38851880049294190, 511924538422785919, 8966988369275509);
    } else if e2 == 153 {
        lemma_double_up_exact(m, 153, 34070418522922045, 2983926572192154, 443783701376941829, 38867088701993237);
    } else if e2 == 154 {
        lemma_double_up_exact(m, 154, 34070418522922045, 1491963286096077, 853496984230961613, 37375125415897160);
    } else if e2 == 155 {
        lemma_double_up_exact(m, 155, 2183979827782831856, 47818868418569699, 1057919495368493883, 23163452566236811);
    }
}

proof fn lemma_exact_77(m: nat, e2: int)
    requires
        156 <= e2 < 172,
        m < 0x80_0000_0000_0000,
    ensures
        fixed_point_product(m, wide(double_multiplier(e2)), double_shift(e2) as nat) == double_scaled(m, e2),
{
    reveal(spec_log10_pow2);
    reveal(spec_log10_pow5);
    reveal(spec_pow5bits);
    lemma_shift_powers();
    if e2 == 156 {
        lemma_double_up_exact(m, 156, 1126060332414337973, 12327707926166444, 3241899323151325739, 35491160492403255);
    } else if e2 == 157 {
        lemma_double_up_exact(m, 157, 27256334818337636, 1491963286096077, 662702640502598161, 36275163767198911);
    } else if e2 == 158 {
        lemma_double_up_exact(m, 158, 2197607995192000674, 60146576344736143, 1071547662777662701, 29327306529320033);
    } else if e2 == 159 {
        lemma_double_up_exact(m, 159, 1126060332414337973, 15409634907708055, 2143095325555325402, 29327306529320033);
    } else if e2 == 160 {
        lemma_double_up_exact(m, 160, 653831131593932675, 44736941437028088, 181601930773527377, 12425708335515901);
    } else if e2 == 161 {
        lemma_double_up_exact(m, 161, 653831131593932675, 22368470718514044, 1670866124734920104, 57162649772543989);
    } else if e2 == 162 {
        lemma_double_up_exact(m, 162, 653831131593932675, 11184235359257022, 2687901117875907533, 45978414413286967);
    } else if e2 == 163 {
        lemma_double_up_exact(m, 163, 130766226318786535, 11184235359257022, 464875270456536438, 39760070959065461);
    } else if e2 == 164 {
        lemma_double_up_exact(m, 164, 130766226318786535, 5592117679628511, 929750540913072876, 39760070959065461);
    } else if e2 == 165 {
        lemma_double_up_exact(m, 165, 261532452637573070, 5592117679628511, 1845114125144578621, 39452447358232519);
    } else if e2 == 166 {
        lemma_double_up_exact(m, 166, 523064905275146140, 5592117679628511, 3675841293607590111, 39298635557816048);
    } else if e2 == 167 {
        lemma_double_up_exact(m, 167, 104612981055029228, 5592117679628511, 746677824066771727, 39913882759481932);
    } else if e2 == 168 {
        lemma_double_up_exact(m, 168, 209225962110058456, 5592117679628511, 1374355710396947095, 36733294418626499);
    } else if e2 == 169 {
        lemma_double_up_exact(m, 169, 418451924220116912, 5592117679628511, 2838937445167356287, 37939059088013038);
    } else if e2 == 170 {
        lemma_double_up_exact(m, 170, 418451924220116912, 27960588398142555, 902549028409564787, 60307529806527082);
    } else if e2 == 171 {
        lemma_double_up_exact(m, 171, 836903848440233824, 27960588398142555, 1739452876849798611, 58114353301406096);
    }
}

proof fn lemma_exact_78(m: nat, e2: int)
    requires
        172 <= e2 < 188,
        m < 0x80_0000_0000_0000,
    ensures
        fixed_point_product(m, wide(double_multiplier(e2)), double_shift(e2) as nat) == double_scaled(m, e2),
{
    reveal(spec_log10_pow2);
    reveal(spec_log10_pow5);
    reveal(spec_pow5bits);
    lemma_shift_powers();
    if e2 == 172 {
        lemma_double_up_exact(m, 172, 1673807696880467648, 27960588398142555, 3413260573730266259, 57017765048845603);
    } else if e2 == 173 {
        lemma_double_up_exact(m, 173, 321632503382227337, 26864000145582062, 708910186733785637, 59210941553966589);
    } else if e2 == 174 {
        lemma_double_up_exact(m, 174, 321632503382227337, 13432000072791031, 1096187870085343937, 45778941481175558);
    } else if e2 == 175 {
        lemma_double_up_exact(m, 175, 643265006764454674, 13432000072791031, 1739452876849798611, 36321470813378810);
    } else if e2 == 176 {
        lemma_double_up_exact(m, 176, 3025982890378707959, 31592735479480436, 1739452876849798611, 18160735406689405);
    } else if e2 == 177 {
        lemma_double_up_exact(m, 177, 166721430041604017, 8703264738892657, 786365723404097297, 41050206147277184);
    } else if e2 == 178 {
        lemma_double_up_exact(m, 178, 1119808583487305331, 29228367812531249, 786365723404097297, 20525103073638592);
    } else if e2 == 179 {
        lemma_double_up_exact(m, 179, 3025982890378707959, 39490919349350545, 786365723404097297, 10262551536819296);
    } else if e2 == 180 {
        lemma_double_up_exact(m, 180, 290650288714102673, 18965816275711953, 786365723404097297, 51312757684096480);
    } else if e2 == 181 {
        lemma_double_up_exact(m, 181, 581300577428205346, 18965816275711953, 1367666300832302643, 44622195117760193);
    } else if e2 == 182 {
        lemma_double_up_exact(m, 182, 1948966878260507989, 31794005696736073, 786365723404097297, 12828189421024120);
    } else if e2 == 183 {
        lemma_double_up_exact(m, 183, 75247086290462679, 6137626854687833, 485377378242246581, 39590439686369268);
    } else if e2 == 184 {
        lemma_double_up_exact(m, 184, 150494172580925358, 6137626854687833, 786365723404097297, 32070473552560300);
    } else if e2 == 185 {
        lemma_double_up_exact(m, 185, 1873719791970045310, 38208100407248133, 786365723404097297, 16035236776280150);
    } else if e2 == 186 {
        lemma_double_up_exact(m, 186, 3747439583940090620, 38208100407248133, 786365723404097297, 8017618388140075);
    } else if e2 == 187 {
        lemma_double_up_exact(m, 187, 712610110171938951, 36328108873795891, 36877806616079173, 1879991533452242);
    }
}

proof fn lemma_exact_79(m: nat, e2: int)
    requires
        188 <= e2 < 204,
        m < 0x80_0000_0000_0000,
    ensures
        fixed_point_product(m, wide(double_multiplier(e2)), double_shift(e2) as nat) == double_scaled(m, e2),
{
    reveal(spec_log10_pow2);
    reveal(spec_log10_pow5);
    reveal(spec_pow5bits);
    lemma_shift_powers();
    if e2 == 188 {
        lemma_double_up_exact(m, 188, 1425220220343877902, 36328108873795891, 36877806616079173, 939995766726121);
    } else if e2 == 189 {
        lemma_double_up_exact(m, 189, 1462098026959957075, 18634052320261006, 1535853640192115421, 19574048086987127);
    } else if e2 == 190 {
        lemma_double_up_exact(m, 190, 292419605391991415, 18634052320261006, 658594824016141176, 41968083474152617);
    } else if e2 == 191 {
        lemma_double_up_exact(m, 191, 292419605391991415, 9317026160130503, 1317189648032282352, 41968083474152617);
    } else if e2 == 192 {
        lemma_double_up_exact(m, 192, 584839210783982830, 9317026160130503, 2779287674992239427, 44276607137402566);
    } else if e2 == 193 {
        lemma_double_up_exact(m, 193, 116967842156796566, 9317026160130503, 556898674013104673, 44359538644533273);
    } else if e2 == 194 {
        lemma_double_up_exact(m, 194, 233935684313593132, 9317026160130503, 907802200483494371, 36155308562462391);
    } else if e2 == 195 {
        lemma_double_up_exact(m, 195, 467871368627186264, 9317026160130503, 2077480622051460031, 41370219681557453);
    } else if e2 == 196 {
        lemma_double_up_exact(m, 196, 385473309610100274, 38380900718581633, 41199029508542995, 4102115041035441);
    } else if e2 == 197 {
        lemma_double_up_exact(m, 197, 426672339118643269, 21241507879808537, 509070398135729259, 25343622920843978);
    } else if e2 == 198 {
        lemma_double_up_exact(m, 198, 1871485474508745056, 46585130800652515, 509070398135729259, 12671811460421989);
    } else if e2 == 199 {
        lemma_double_up_exact(m, 199, 3398696668915932833, 42300282590959241, 1018140796271458518, 12671811460421989);
    } else if e2 == 200 {
        lemma_double_up_exact(m, 200, 476111174528894863, 29628471130537252, 1018140796271458518, 63359057302109945);
    } else if e2 == 201 {
        lemma_double_up_exact(m, 201, 476111174528894863, 14814235565268626, 1560170418014022173, 48544821736841319);
    } else if e2 == 202 {
        lemma_double_up_exact(m, 202, 476111174528894863, 7407117782634313, 2644229661499149483, 41137703954207006);
    } else if e2 == 203 {
        lemma_double_up_exact(m, 203, 42487477134843939, 3305002741598872, 433623697394050924, 33730586171572693);
    }
}

proof fn lemma_exact_80(m: nat, e2: int)
    requires
        204 <= e2 < 220,
        m < 0x80_0000_0000_0000,
    ensures
        fixed_point_product(m, wide(double_multiplier(e2)), double_shift(e2) as nat) == double_scaled(m, e2),
{
    reveal(spec_log10_pow2);
    reveal(spec_log10_pow5);
    reveal(spec_pow5bits);
    lemma_shift_powers();
    if e2 == 204 {
        lemma_double_up_exact(m, 204, 42487477134843939, 1652501370799436, 909734871922945787, 35383087542372129);
    } else if e2 == 205 {
        lemma_double_up_exact(m, 205, 42487477134843939, 826250685399718, 1861957220980735513, 36209338227771847);
    } else if e2 == 206 {
        lemma_double_up_exact(m, 206, 42487477134843939, 4131253426998590, 355396453342209527, 34556836856972411);
    } else if e2 == 207 {
        lemma_double_up_exact(m, 207, 42487477134843939, 2065626713499295, 710792906684419054, 34556836856972411);
    } else if e2 == 208 {
        lemma_double_up_exact(m, 208, 753280383819262993, 18311231785235853, 2174866197188101101, 52868068642208264);
    } else if e2 == 209 {
        lemma_double_up_exact(m, 209, 1506560767638525986, 18311231785235853, 3681426964826627087, 44745266106339985);
    } else if e2 == 210 {
        lemma_double_up_exact(m, 210, 704594252179035848, 42819343710969591, 133661085909915023, 8122802535868279);
    } else if e2 == 211 {
        lemma_double_up_exact(m, 211, 1372899681728610963, 41716678195155493, 267322171819830046, 8122802535868279);
    } else if e2 == 212 {
        lemma_double_up_exact(m, 212, 1105577509908780917, 16796937829643607, 1640221853548441009, 24919740365511886);
    } else if e2 == 213 {
        lemma_double_up_exact(m, 213, 114186633253824165, 8674135293775328, 534644343639660092, 40614012679341395);
    } else if e2 == 214 {
        lemma_double_up_exact(m, 214, 114186633253824165, 4337067646887664, 955102054025496019, 36276945032453731);
    } else if e2 == 215 {
        lemma_double_up_exact(m, 215, 114186633253824165, 2168533823443832, 1910204108050992038, 36276945032453731);
    } else if e2 == 216 {
        lemma_double_up_exact(m, 216, 22837326650764833, 2168533823443832, 380103222449748227, 36092958991531911);
    } else if e2 == 217 {
        lemma_double_up_exact(m, 217, 22837326650764833, 1084266911721916, 760206444899496454, 36092958991531911);
    } else if e2 == 218 {
        lemma_double_up_exact(m, 218, 22837326650764833, 542133455860958, 1520412889798992908, 36092958991531911);
    } else if e2 == 219 {
        lemma_double_up_exact(m, 219, 22837326650764833, 271066727930479, 3040825779597985816, 36092958991531911);
    }
}

proof fn lemma_exact_81(m: nat, e2: int)
    requires
        220 <= e2 < 236,
        m < 0x80_0000_0000_0000,
    ensures
        fixed_point_product(m, wide(double_multiplier(e2)), double_shift(e2) as nat) == double_scaled(m, e2),
{
    reveal(spec_log10_pow2);
    reveal(spec_log10_pow5);
    reveal(spec_pow5bits);
    lemma_shift_powers();
    if e2 == 220 {
        lemma_double_up_exact(m, 220, 22837326650764833, 1355333639652395, 621867551910056063, 36906159175323348);
    } else if e2 == 221 {
        lemma_double_up_exact(m, 221, 45674653301529666, 1355333639652395, 1215638044829941721, 36072416903142809);
    } else if e2 == 222 {
        lemma_double_up_exact(m, 222, 91349306603059332, 1355333639652395, 2448853683971242703, 36333212586878737);
    } else if e2 == 223 {
        lemma_double_up_exact(m, 223, 91349306603059332, 6776668198261975, 508040598114860407, 37688546226531132);
    } else if e2 == 224 {
        lemma_double_up_exact(m, 224, 182698613206118664, 6776668198261975, 1056136437733216399, 39174277708051491);
    } else if e2 == 225 {
        lemma_double_up_exact(m, 225, 1238835050939335063, 22975472953156733, 873437824527097735, 16198804754894758);
    } else if e2 == 226 {
        lemma_double_up_exact(m, 226, 540084791317656875, 50082145746204633, 174687564905419547, 16198804754894758);
    } else if e2 == 227 {
        lemma_double_up_exact(m, 227, 905482017729894203, 41982743368757254, 174687564905419547, 8099402377447379);
    } else if e2 == 228 {
        lemma_double_up_exact(m, 228, 1604232277351572391, 37190176439273385, 349375129810839094, 8099402377447379);
    } else if e2 == 229 {
        lemma_double_up_exact(m, 229, 3351107926405767861, 38843594163255140, 698750259621678188, 8099402377447379);
    } else if e2 == 230 {
        lemma_double_up_exact(m, 230, 390721481432482297, 22644789408360382, 308028778189195891, 17852222478876513);
    } else if e2 == 231 {
        lemma_double_up_exact(m, 231, 390721481432482297, 11322394704180191, 1397500519243356376, 40497011887236895);
    } else if e2 == 232 {
        lemma_double_up_exact(m, 232, 781442962864964594, 11322394704180191, 2569664963540803267, 37232097999888734);
    } else if e2 == 233 {
        lemma_double_up_exact(m, 233, 511039672929873212, 37022490196811989, 45067214989181897, 3264913887348161);
    } else if e2 == 234 {
        lemma_double_up_exact(m, 234, 826510177854146491, 29938443704124558, 1743154785686656776, 63141801295597277);
    } else if e2 == 235 {
        lemma_double_up_exact(m, 235, 826510177854146491, 14969221852062279, 2659799393519167061, 48172579443534998);
    }
}

proof fn lemma_exact_82(m: nat, e2: int)
    requires
        236 <= e2 < 252,
        m < 0x80_0000_0000_0000,
    ensures
        fixed_point_product(m, wide(double_multiplier(e2)), double_shift(e2) as nat) == double_scaled(m, e2),
{
    reveal(spec_log10_pow2);
    reveal(spec_log10_pow5);
    reveal(spec_pow5bits);
    lemma_shift_powers();
    if e2 == 236 {
        lemma_double_up_exact(m, 236, 93194491588138263, 8439394077365957, 366657843133004114, 33203357591472719);
    } else if e2 == 237 {
        lemma_double_up_exact(m, 237, 459852334721142377, 20821375834419338, 1193168020987150605, 54024733425892057);
    } else if e2 == 238 {
        lemma_double_up_exact(m, 238, 459852334721142377, 10410687917209669, 1926483707253158833, 43614045508682388);
    } else if e2 == 239 {
        lemma_double_up_exact(m, 239, 2846188376695443587, 32217710671550863, 1926483707253158833, 21807022754341194);
    } else if e2 == 240 {
        lemma_double_up_exact(m, 240, 641066690662798914, 36283088867298649, 17414873673717865, 985646919921856);
    } else if e2 == 241 {
        lemma_double_up_exact(m, 241, 1282133381325597828, 36283088867298649, 17414873673717865, 492823459960928);
    } else if e2 == 242 {
        lemma_double_up_exact(m, 242, 2546851888977477791, 36036677137318185, 17414873673717865, 246411729980464);
    } else if e2 == 243 {
        lemma_double_up_exact(m, 243, 509311669152487586, 36032523648019485, 3482974734743573, 246411729980464);
    } else if e2 == 244 {
        lemma_double_up_exact(m, 244, 1018623338304975172, 36032523648019485, 3482974734743573, 123205864990232);
    } else if e2 == 245 {
        lemma_double_up_exact(m, 245, 2037246676609950344, 36032523648019485, 3482974734743573, 61602932495116);
    } else if e2 == 246 {
        lemma_double_up_exact(m, 246, 408842525215887498, 36155729513009717, 3482974734743573, 308014662475580);
    } else if e2 == 247 {
        lemma_double_up_exact(m, 247, 817685050431774996, 36155729513009717, 3482974734743573, 154007331237790);
    } else if e2 == 248 {
        lemma_double_up_exact(m, 248, 1631887126128806419, 36078725847390822, 3482974734743573, 77003665618895);
    } else if e2 == 249 {
        lemma_double_up_exact(m, 249, 3261919301988798583, 36058220678516841, 6965949469487146, 77003665618895);
    } else if e2 == 250 {
        lemma_double_up_exact(m, 250, 655170240185554575, 36212228009754631, 6965949469487146, 385018328094475);
    } else if e2 == 251 {
        lemma_double_up_exact(m, 251, 1316935439786833445, 36394484589364878, 13931898938974292, 385018328094475);
    }
}

proof fn lemma_exact_83(m: nat, e2: int)
    requires
        252 <= e2 < 268,
        m < 0x80_0000_0000_0000,
    ensures
        fixed_point_product(m, wide(double_multiplier(e2)), double_shift(e2) as nat) == double_scaled(m, e2),
{
    reveal(spec_log10_pow2);
    reveal(spec_log10_pow5);
    reveal(spec_pow5bits);
    lemma_shift_powers();
    if e2 == 252 {
        lemma_double_up_exact(m, 252, 2431487354904776805, 33597975418461439, 4890838507687502194, 67580969165017353);
    } else if e2 == 253 {
        lemma_double_up_exact(m, 253, 486297470980955361, 33597975418461439, 1000458739839859306, 69121042477395253);
    } else if e2 == 254 {
        lemma_double_up_exact(m, 254, 972594941961910722, 33597975418461439, 514161268858903945, 17761533529466907);
    } else if e2 == 255 {
        lemma_double_up_exact(m, 255, 1945189883923821444, 33597975418461439, 1486756210820814667, 25679754473964173);
    } else if e2 == 256 {
        lemma_double_up_exact(m, 256, 458433673103006777, 39591104722486330, 205664507543561578, 17761533529466907);
    } else if e2 == 257 {
        lemma_double_up_exact(m, 257, 869762688190129933, 37557085890710072, 411329015087123156, 17761533529466907);
    } else if e2 == 258 {
        lemma_double_up_exact(m, 258, 869762688190129933, 18778542945355036, 822658030174246312, 17761533529466907);
    } else if e2 == 259 {
        lemma_double_up_exact(m, 259, 869762688190129933, 9389271472677518, 3384841436728752490, 36540076474821943);
    } else if e2 == 260 {
        lemma_double_up_exact(m, 260, 192794400844379435, 10406280888565647, 676968287345750498, 36540076474821943);
    } else if e2 == 261 {
        lemma_double_up_exact(m, 261, 869762688190129933, 23473178681693795, 484173886501371063, 13066897793128148);
    } else if e2 == 262 {
        lemma_double_up_exact(m, 262, 1739525376380259866, 23473178681693795, 2223699262881630929, 30006627578257869);
    } else if e2 == 263 {
        lemma_double_up_exact(m, 263, 154235520675503548, 10406280888565647, 638409407176874611, 43073525371386017);
    } else if e2 == 264 {
        lemma_double_up_exact(m, 264, 792644927852378159, 26739903129975832, 484173886501371063, 16333622241410185);
    } else if e2 == 265 {
        lemma_double_up_exact(m, 265, 792644927852378159, 13369951564987916, 2553637628707498444, 43073525371386017);
    } else if e2 == 266 {
        lemma_double_up_exact(m, 266, 88247847510330045, 7442610212143378, 352198540171024057, 29703573806398101);
    } else if e2 == 267 {
        lemma_double_up_exact(m, 267, 792644927852378159, 33424878912469790, 704397080342048114, 29703573806398101);
    }
}

proof fn lemma_exact_84(m: nat, e2: int)
    requires
        268 <= e2 < 284,
        m < 0x80_0000_0000_0000,
    ensures
        fixed_point_product(m, wide(double_multiplier(e2)), double_shift(e2) as nat) == double_scaled(m, e2),
{
    reveal(spec_log10_pow2);
    reveal(spec_log10_pow5);
    reveal(spec_pow5bits);
    lemma_shift_powers();
    if e2 == 268 {
        lemma_double_up_exact(m, 268, 792644927852378159, 16712439456234895, 2201439088536474387, 46416013262632996);
    } else if e2 == 269 {
        lemma_double_up_exact(m, 269, 1585289855704756318, 16712439456234895, 3786728944241230705, 39920446087551393);
    } else if e2 == 270 {
        lemma_double_up_exact(m, 270, 70598278008264036, 3721305106071689, 686747510839982105, 36199140981479704);
    } else if e2 == 271 {
        lemma_double_up_exact(m, 271, 827944066856510177, 21820875596811541, 686747510839982105, 18099570490739852);
    } else if e2 == 272 {
        lemma_double_up_exact(m, 272, 1655888133713020354, 21820875596811541, 2342635644553002459, 30870660842181467);
    } else if e2 == 273 {
        lemma_double_up_exact(m, 273, 557092116369048986, 36706096021098297, 137349502167996421, 9049785245369926);
    } else if e2 == 274 {
        lemma_double_up_exact(m, 274, 1114184232738097972, 36706096021098297, 137349502167996421, 4524892622684963);
    } else if e2 == 275 {
        lemma_double_up_exact(m, 275, 2350329752250065761, 38715064812631482, 274699004335992842, 4524892622684963);
    } else if e2 == 276 {
        lemma_double_up_exact(m, 276, 579945552184410289, 47764850058001408, 274699004335992842, 22624463113424815);
    } else if e2 == 277 {
        lemma_double_up_exact(m, 277, 579945552184410289, 23882425029000704, 549398008671985684, 22624463113424815);
    } else if e2 == 278 {
        lemma_double_up_exact(m, 278, 579945552184410289, 11941212514500352, 2258687121712791946, 46506888142425519);
    } else if e2 == 279 {
        lemma_double_up_exact(m, 279, 579945552184410289, 5970606257250176, 3937428691241173603, 40536281885175343);
    } else if e2 == 280 {
        lemma_double_up_exact(m, 280, 579945552184410289, 29853031286250880, 555507517374470605, 28595069370674991);
    } else if e2 == 281 {
        lemma_double_up_exact(m, 281, 579945552184410289, 14926515643125440, 1690960586933351499, 43521585013800431);
    } else if e2 == 282 {
        lemma_double_up_exact(m, 282, 579945552184410289, 7463257821562720, 2801975621682292709, 36058327192237711);
    } else if e2 == 283 {
        lemma_double_up_exact(m, 283, 135539538284833805, 8721219737138609, 444406013899576484, 28595069370674991);
    }
}

proof fn lemma_exact_85(m: nat, e2: int)
    requires
        284 <= e2 < 300,
        m < 0x80_0000_0000_0000,
    ensures
        fixed_point_product(m, wide(double_multiplier(e2)), double_shift(e2) as nat) == double_scaled(m, e2),
{
    reveal(spec_log10_pow2);
    reveal(spec_log10_pow5);
    reveal(spec_pow5bits);
    lemma_shift_powers();
    if e2 == 284 {
        lemma_double_up_exact(m, 284, 579945552184410289, 18658144553906800, 1468757579983563257, 47253213924581791);
    } else if e2 == 285 {
        lemma_double_up_exact(m, 285, 579945552184410289, 9329072276953400, 2357569607782716225, 37924141647628391);
    } else if e2 == 286 {
        lemma_double_up_exact(m, 286, 108431630627867044, 8721219737138609, 471513921556543245, 37924141647628391);
    } else if e2 == 287 {
        lemma_double_up_exact(m, 287, 579945552184410289, 23322680692383500, 363082290928676201, 14601460955244891);
    } else if e2 == 288 {
        lemma_double_up_exact(m, 288, 579945552184410289, 11661340346191750, 1886055686226172980, 37924141647628391);
    } else if e2 == 289 {
        lemma_double_up_exact(m, 289, 579945552184410289, 5830670173095875, 3772111372452345960, 37924141647628391);
    } else if e2 == 290 {
        lemma_double_up_exact(m, 290, 579945552184410289, 29153350865479375, 174476722306058903, 8770790782149016);
    } else if e2 == 291 {
        lemma_double_up_exact(m, 291, 1159891104368820578, 29153350865479375, 1334367826674879481, 33538746256553883);
    } else if e2 == 292 {
        lemma_double_up_exact(m, 292, 2494258931043700059, 31346048561016629, 2668735653349758962, 33538746256553883);
    } else if e2 == 293 {
        lemma_double_up_exact(m, 293, 394165752825104670, 24767955474404867, 568642475131163573, 35731443952091137);
    } else if e2 == 294 {
        lemma_double_up_exact(m, 294, 962808227956268243, 30249699713248002, 1137284950262327146, 35731443952091137);
    } else if e2 == 295 {
        lemma_double_up_exact(m, 295, 962808227956268243, 15124849856624001, 3237378128480922535, 50856293808715138);
    } else if e2 == 296 {
        lemma_double_up_exact(m, 296, 315332602260083736, 24767955474404867, 647475625696184507, 50856293808715138);
    } else if e2 == 297 {
        lemma_double_up_exact(m, 297, 630665204520167472, 24767955474404867, 647475625696184507, 25428146904357569);
    } else if e2 == 298 {
        lemma_double_up_exact(m, 298, 1278140830216351979, 25098051189381218, 1294951251392369014, 25428146904357569);
    } else if e2 == 299 {
        lemma_double_up_exact(m, 299, 367016002476228682, 36034317188314969, 3362084235203407, 330095714976351);
    }
}

proof fn lemma_exact_86(m: nat, e2: int)
    requires
        300 <= e2 < 316,
        m < 0x80_0000_0000_0000,
    ensures
        fixed_point_product(m, wide(double_multiplier(e2)), double_shift(e2) as nat) == double_scaled(m, e2),
{
    reveal(spec_log10_pow2);
    reveal(spec_log10_pow5);
    reveal(spec_pow5bits);
    lemma_shift_powers();
    if e2 == 300 {
        lemma_double_up_exact(m, 300, 740207352583806859, 36337470775344965, 6724168470406814, 330095714976351);
    } else if e2 == 301 {
        lemma_double_up_exact(m, 301, 1284864998686758793, 31537611844214698, 1298313335627572421, 31867707559191049);
    } else if e2 == 302 {
        lemma_double_up_exact(m, 302, 1284864998686758793, 15768805922107349, 3881491669941903635, 47636513481298398);
    } else if e2 == 303 {
        lemma_double_up_exact(m, 303, 508566664698378066, 31207516129238347, 267731669290002661, 16428997352060051);
    } else if e2 == 304 {
        lemma_double_up_exact(m, 304, 1793431663385136859, 55025772869887546, 776298333988380727, 23818256740649199);
    } else if e2 == 305 {
        lemma_double_up_exact(m, 305, 3346028331361898313, 51331143175592972, 1552596667976761454, 23818256740649199);
    } else if e2 == 306 {
        lemma_double_up_exact(m, 306, 48166999081675081, 3694629694294574, 492922688179909672, 37809430428765367);
    } else if e2 == 307 {
        lemma_double_up_exact(m, 307, 48166999081675081, 1847314847147287, 985845376359819344, 37809430428765367);
    } else if e2 == 308 {
        lemma_double_up_exact(m, 308, 96333998163350162, 1847314847147287, 1901018358911645883, 36454206262281910);
    } else if e2 == 309 {
        lemma_double_up_exact(m, 309, 96333998163350162, 9236574235736435, 399470471414999209, 38301521109429197);
    } else if e2 == 310 {
        lemma_double_up_exact(m, 310, 688472465905049695, 33005621908319251, 495804469578349371, 23769047672582816);
    } else if e2 == 311 {
        lemma_double_up_exact(m, 311, 1376944931810099390, 33005621908319251, 495804469578349371, 11884523836291408);
    } else if e2 == 312 {
        lemma_double_up_exact(m, 312, 3249694333198548151, 38947883826464955, 495804469578349371, 5942261918145704);
    } else if e2 == 313 {
        lemma_double_up_exact(m, 313, 550777972724039756, 33005621908319251, 495804469578349371, 29711309590728520);
    } else if e2 == 314 {
        lemma_double_up_exact(m, 314, 1101555945448079512, 33005621908319251, 495804469578349371, 14855654795364260);
    } else if e2 == 315 {
        lemma_double_up_exact(m, 315, 2698916360474508395, 40433449306001381, 495804469578349371, 7427827397682130);
    }
}

proof fn lemma_exact_87(m: nat, e2: int)
    requires
        316 <= e2 < 332,
        m < 0x80_0000_0000_0000,
    ensures
        fixed_point_product(m, wide(double_multiplier(e2)), double_shift(e2) as nat) == double_scaled(m, e2),
{
    reveal(spec_log10_pow2);
    reveal(spec_log10_pow5);
    reveal(spec_pow5bits);
    lemma_shift_powers();
    if e2 == 316 {
        lemma_double_up_exact(m, 316, 43978802516552308, 3294312317590731, 495804469578349371, 37139136988410650);
    } else if e2 == 317 {
        lemma_double_up_exact(m, 317, 1079566544189803358, 40433449306001381, 495804469578349371, 18569568494205325);
    } else if e2 == 318 {
        lemma_double_up_exact(m, 318, 583762074611453987, 10931940405898028, 1575371013768152729, 29501508900103353);
    } else if e2 == 319 {
        lemma_double_up_exact(m, 319, 420623328793356085, 39384445852875546, 81569372909048951, 7637628088307297);
    } else if e2 == 320 {
        lemma_double_up_exact(m, 320, 583762074611453987, 27329851014745070, 746900820429551889, 34967479103052367);
    } else if e2 == 321 {
        lemma_double_up_exact(m, 321, 583762074611453987, 13664925507372535, 1493801640859103778, 34967479103052367);
    } else if e2 == 322 {
        lemma_double_up_exact(m, 322, 2077563715470557765, 24316202305212451, 2987603281718207556, 34967479103052367);
    } else if e2 == 323 {
        lemma_double_up_exact(m, 323, 415512743094111553, 24316202305212451, 910039566247649791, 53256383989199580);
    } else if e2 == 324 {
        lemma_double_up_exact(m, 324, 831025486188223106, 24316202305212451, 1741065052435872897, 50944394299812241);
    } else if e2 == 325 {
        lemma_double_up_exact(m, 325, 1662050972376446212, 24316202305212451, 910039566247649791, 13314095997299895);
    } else if e2 == 326 {
        lemma_double_up_exact(m, 326, 499166349938631029, 36514614024464068, 31605632023770674, 2311989689387339);
    } else if e2 == 327 {
        lemma_double_up_exact(m, 327, 815222670176337769, 29817255459168729, 878433934223879117, 32129245148556068);
    } else if e2 == 328 {
        lemma_double_up_exact(m, 328, 2508879274576554655, 45881878033446763, 878433934223879117, 16064622574278034);
    } else if e2 == 329 {
        lemma_double_up_exact(m, 329, 125117775606742745, 11440643195503356, 376658079308568186, 34441234837943407);
    } else if e2 == 330 {
        lemma_double_up_exact(m, 330, 125117775606742745, 5720321597751678, 878433934223879117, 40161556435695085);
    } else if e2 == 331 {
        lemma_double_up_exact(m, 331, 125117775606742745, 2860160798875839, 1631750092841015489, 37301395636819246);
    }
}

proof fn lemma_exact_88(m: nat, e2: int)
    requires
        332 <= e2 < 348,
        m < 0x80_0000_0000_0000,
    ensures
        fixed_point_product(m, wide(double_multiplier(e2)), double_shift(e2) as nat) == double_scaled(m, e2),
{
    reveal(spec_log10_pow2);
    reveal(spec_log10_pow5);
    reveal(spec_pow5bits);
    lemma_shift_powers();
    if e2 == 332 {
        lemma_double_up_exact(m, 332, 4014206839322487448, 45881878033446763, 1881985644054500979, 21510858617285462);
    } else if e2 == 333 {
        lemma_double_up_exact(m, 333, 50047110242697098, 2860160798875839, 630807887987073529, 36050273114531335);
    } else if e2 == 334 {
        lemma_double_up_exact(m, 334, 100094220485394196, 2860160798875839, 1281420321142135803, 36616181749958621);
    } else if e2 == 335 {
        lemma_double_up_exact(m, 335, 1982079864539895175, 28318653671044747, 1781891423569106783, 25458492872168908);
    } else if e2 == 336 {
        lemma_double_up_exact(m, 336, 396415972907979035, 28318653671044747, 196227531937190643, 14017849676665552);
    } else if e2 == 337 {
        lemma_double_up_exact(m, 337, 792831945815958070, 28318653671044747, 1781891423569106783, 63646232180422270);
    } else if e2 == 338 {
        lemma_double_up_exact(m, 338, 1585663891631916140, 28318653671044747, 3367555315201022923, 60141769761255882);
    } else if e2 == 339 {
        lemma_double_up_exact(m, 339, 317132778326383228, 28318653671044747, 196227531937190643, 17522312095831940);
    } else if e2 == 340 {
        lemma_double_up_exact(m, 340, 634265556652766456, 28318653671044747, 196227531937190643, 8761156047915970);
    } else if e2 == 341 {
        lemma_double_up_exact(m, 341, 1268531113305532912, 28318653671044747, 2733289758548256467, 61017885366047479);
    } else if e2 == 342 {
        lemma_double_up_exact(m, 342, 2537062226611065824, 28318653671044747, 1464758645242723555, 16349615847501366);
    } else if e2 == 343 {
        lemma_double_up_exact(m, 343, 779351852319797558, 43495573270215539, 292951729048544711, 16349615847501366);
    } else if e2 == 344 {
        lemma_double_up_exact(m, 344, 1558703704639595116, 43495573270215539, 292951729048544711, 8174807923750683);
    } else if e2 == 345 {
        lemma_double_up_exact(m, 345, 3023462349882318671, 42184806444484477, 585903458097089422, 8174807923750683);
    } else if e2 == 346 {
        lemma_double_up_exact(m, 346, 253150395118210081, 17660382673232428, 585903458097089422, 40874039618753415);
    } else if e2 == 347 {
        lemma_double_up_exact(m, 347, 253150395118210081, 8830191336616214, 1171806916194178844, 40874039618753415);
    }
}

proof fn lemma_exact_89(m: nat, e2: int)
    requires
        348 <= e2 < 364,
        m < 0x80_0000_0000_0000,
    ensures
        fixed_point_product(m, wide(double_multiplier(e2)), double_shift(e2) as nat) == double_scaled(m, e2),
{
    reveal(spec_log10_pow2);
    reveal(spec_log10_pow5);
    reveal(spec_pow5bits);
    lemma_shift_powers();
    if e2 == 348 {
        lemma_double_up_exact(m, 348, 253150395118210081, 4415095668308107, 2090463437270147607, 36458943950445308);
    } else if e2 == 349 {
        lemma_double_up_exact(m, 349, 253150395118210081, 22075478341540535, 569982924524955570, 49704230955369629);
    } else if e2 == 350 {
        lemma_double_up_exact(m, 350, 823133319643165651, 35889854648455082, 316832529406745489, 13814376306914547);
    } else if e2 == 351 {
        lemma_double_up_exact(m, 351, 823133319643165651, 17944927324227541, 2279931698099822280, 49704230955369629);
    } else if e2 == 352 {
        lemma_double_up_exact(m, 352, 3103065017742987931, 33824579139798585, 1456798378456656629, 15879651815571044);
    } else if e2 == 353 {
        lemma_double_up_exact(m, 353, 367146980023201195, 20010202832884038, 911972679239928912, 49704230955369629);
    } else if e2 == 354 {
        lemma_double_up_exact(m, 354, 367146980023201195, 10005101416442019, 1456798378456656629, 39699129538927610);
    } else if e2 == 355 {
        lemma_double_up_exact(m, 355, 2191092338503059019, 29854666185905824, 1456798378456656629, 19849564769463805);
    } else if e2 == 356 {
        lemma_double_up_exact(m, 356, 146858792009280478, 10005101416442019, 575645626400973761, 39217215348666911);
    } else if e2 == 357 {
        lemma_double_up_exact(m, 357, 293717584018560956, 10005101416442019, 1309939586447376151, 44621361215438503);
    } else if e2 == 358 {
        lemma_double_up_exact(m, 358, 587435168037121912, 10005101416442019, 1603657170465937107, 27313231315940261);
    } else if e2 == 359 {
        lemma_double_up_exact(m, 359, 587435168037121912, 50025507082210095, 203244400485763039, 17308129899498242);
    } else if e2 == 360 {
        lemma_double_up_exact(m, 360, 971625935588480785, 41371442132460974, 203244400485763039, 8654064949749121);
    } else if e2 == 361 {
        lemma_double_up_exact(m, 361, 1784603537531532941, 37993850965728729, 406488800971526078, 8654064949749121);
    } else if e2 == 362 {
        lemma_double_up_exact(m, 362, 2191092338503059019, 23323957957738925, 3004069940446111175, 31978022907488046);
    } else if e2 == 363 {
        lemma_double_up_exact(m, 363, 388650374235392314, 20685721066230487, 600813988089222235, 31978022907488046);
    }
}

proof fn lemma_exact_90(m: nat, e2: int)
    requires
        364 <= e2 < 380,
        m < 0x80_0000_0000_0000,
    ensures
        fixed_point_product(m, wide(double_multiplier(e2)), double_shift(e2) as nat) == double_scaled(m, e2),
{
    reveal(spec_log10_pow2);
    reveal(spec_log10_pow5);
    reveal(spec_pow5bits);
    lemma_shift_powers();
    if e2 == 364 {
        lemma_double_up_exact(m, 364, 1378114736560006863, 36674732519974510, 600813988089222235, 15989011453744023);
    } else if e2 == 365 {
        lemma_double_up_exact(m, 365, 3781370688916895803, 50315389167475301, 1201627976178444470, 15989011453744023);
    } else if e2 == 366 {
        lemma_double_up_exact(m, 366, 657137950852940181, 43719796938704206, 240325595235688894, 15989011453744023);
    } else if e2 == 367 {
        lemma_double_up_exact(m, 367, 1137789141324317969, 37848909923096126, 480651190471377788, 15989011453744023);
    } else if e2 == 368 {
        lemma_double_up_exact(m, 368, 3060393903209829121, 50902477869036109, 961302380942755576, 15989011453744023);
    } else if e2 == 369 {
        lemma_double_up_exact(m, 369, 419818304453414709, 34913466415292086, 121665772035926158, 10118124438135943);
    } else if e2 == 370 {
        lemma_double_up_exact(m, 370, 419818304453414709, 17456733207646043, 1082968152978681734, 45031590853428029);
    } else if e2 == 371 {
        lemma_double_up_exact(m, 371, 839636608906829418, 17456733207646043, 2342423066338925861, 48700895238183079);
    } else if e2 == 372 {
        lemma_double_up_exact(m, 372, 3182059675245755279, 33078814222914561, 1502786457432096443, 15622081015268518);
    } else if e2 == 373 {
        lemma_double_up_exact(m, 373, 707006639201776013, 36748118607669611, 265259939410106810, 13787428822890993);
    } else if e2 == 374 {
        lemma_double_up_exact(m, 374, 972266578611882823, 25267773715280302, 530519878820213620, 13787428822890993);
    } else if e2 == 375 {
        lemma_double_up_exact(m, 375, 972266578611882823, 12633886857640151, 3005572914864192886, 39055202538171295);
    } else if e2 == 376 {
        lemma_double_up_exact(m, 376, 760058627083797375, 49382005465309762, 212207951528085448, 13787428822890993);
    } else if e2 == 377 {
        lemma_double_up_exact(m, 377, 760058627083797375, 24691002732654881, 424415903056170896, 13787428822890993);
    } else if e2 == 378 {
        lemma_double_up_exact(m, 378, 2704591784307563021, 43930218510427818, 1184474530139968271, 19239215777772937);
    } else if e2 == 379 {
        lemma_double_up_exact(m, 379, 304023450833518950, 24691002732654881, 272404177639411421, 22123070690900042);
    }
}

proof fn lemma_exact_91(m: nat, e2: int)
    requires
        380 <= e2 < 396,
        m < 0x80_0000_0000_0000,
    ensures
        fixed_point_product(m, wide(double_multiplier(e2)), double_shift(e2) as nat) == double_scaled(m, e2),
{
    reveal(spec_log10_pow2);
    reveal(spec_log10_pow5);
    reveal(spec_pow5bits);
    lemma_shift_powers();
    if e2 == 380 {
        lemma_double_up_exact(m, 380, 608046901667037900, 24691002732654881, 880451079306449321, 35752538078104902);
    } else if e2 == 381 {
        lemma_double_up_exact(m, 381, 2096544882640525121, 42567271771707332, 880451079306449321, 17876269039052451);
    } else if e2 == 382 {
        lemma_double_up_exact(m, 382, 3857447041253423763, 39159904924906117, 1760902158612898642, 17876269039052451);
    } else if e2 == 383 {
        lemma_double_up_exact(m, 383, 486437521333630320, 24691002732654881, 1123669839973264481, 57036173963958568);
    } else if e2 == 384 {
        lemma_double_up_exact(m, 384, 972875042667260640, 24691002732654881, 1123669839973264481, 28518086981979284);
    } else if e2 == 385 {
        lemma_double_up_exact(m, 385, 3069419925307785761, 38950046223644523, 1123669839973264481, 14259043490989642);
    } else if e2 == 386 {
        lemma_double_up_exact(m, 386, 389150017066904256, 24691002732654881, 345369805839455969, 21913211989638448);
    } else if e2 == 387 {
        lemma_double_up_exact(m, 387, 778300034133808512, 24691002732654881, 1123669839973264481, 35647608727474105);
    } else if e2 == 388 {
        lemma_double_up_exact(m, 388, 1901969874107072993, 30169305730064493, 2247339679946528962, 35647608727474105);
    } else if e2 == 389 {
        lemma_double_up_exact(m, 389, 242246052485632211, 19212699735245269, 587615858325088180, 46604214722293329);
    } else if e2 == 390 {
        lemma_double_up_exact(m, 390, 829861910810720391, 32908457228769299, 345369805839455969, 13695757493524030);
    } else if e2 == 391 {
        lemma_double_up_exact(m, 391, 1659723821621440782, 32908457228769299, 345369805839455969, 6847878746762015);
    } else if e2 == 392 {
        lemma_double_up_exact(m, 392, 124722880820614575, 12364820988483254, 470092686660070544, 46604214722293329);
    } else if e2 == 393 {
        lemma_double_up_exact(m, 393, 124722880820614575, 6182410494241627, 815462492499526513, 40421804228051702);
    } else if e2 == 394 {
        lemma_double_up_exact(m, 394, 2379262269922740476, 58969035710776583, 1064908254140755663, 26393312608267478);
    } else if e2 == 395 {
        lemma_double_up_exact(m, 395, 3693616285704725289, 45772379406642844, 1064908254140755663, 13196656304133739);
    }
}

proof fn lemma_exact_92(m: nat, e2: int)
    requires
        396 <= e2 < 412,
        m < 0x80_0000_0000_0000,
    ensures
        fixed_point_product(m, wide(double_multiplier(e2)), double_shift(e2) as nat) == double_scaled(m, e2),
{
    reveal(spec_log10_pow2);
    reveal(spec_log10_pow5);
    reveal(spec_pow5bits);
    lemma_shift_powers();
    if e2 == 396 {
        lemma_double_up_exact(m, 396, 99778304656491660, 6182410494241627, 665795035514789023, 41253639543702187);
    } else if e2 == 397 {
        lemma_double_up_exact(m, 397, 199556609312983320, 6182410494241627, 965129949484264003, 29900435513213534);
    } else if e2 == 398 {
        lemma_double_up_exact(m, 398, 2329373117594494646, 36082846007455161, 965129949484264003, 14950217756606767);
    } else if e2 == 399 {
        lemma_double_up_exact(m, 399, 79822643725193328, 6182410494241627, 486194087133104035, 37656625817584073);
    } else if e2 == 400 {
        lemma_double_up_exact(m, 400, 159645287450386656, 6182410494241627, 1044952593209457331, 40466749638637731);
    } else if e2 == 401 {
        lemma_double_up_exact(m, 401, 1204597880659843987, 23324580066439679, 885307305759070675, 17142169572198052);
    } else if e2 == 402 {
        lemma_double_up_exact(m, 402, 496352036052587447, 48054222043406187, 177061461151814135, 17142169572198052);
    } else if e2 == 403 {
        lemma_double_up_exact(m, 403, 815642610953360759, 39483137257307161, 177061461151814135, 8571084786099026);
    } else if e2 == 404 {
        lemma_double_up_exact(m, 404, 1631285221906721518, 39483137257307161, 177061461151814135, 4285542393049513);
    } else if e2 == 405 {
        lemma_double_up_exact(m, 405, 3224838372273048733, 39026509397376389, 354122922303628270, 4285542393049513);
    } else if e2 == 406 {
        lemma_double_up_exact(m, 406, 604328747226199535, 36567478444049964, 70824584460725654, 4285542393049513);
    } else if e2 == 407 {
        lemma_double_up_exact(m, 407, 1312574591833456075, 39711451187272547, 141649168921451308, 4285542393049513);
    } else if e2 == 408 {
        lemma_double_up_exact(m, 408, 2587417112126517847, 39140666362359082, 283298337842902616, 4285542393049513);
    } else if e2 == 409 {
        lemma_double_up_exact(m, 409, 687462425131045139, 51997293541507621, 283298337842902616, 21427711965247565);
    } else if e2 == 410 {
        lemma_double_up_exact(m, 410, 404164087288142523, 15284790788130028, 566596675685805232, 21427711965247565);
    } else if e2 == 411 {
        lemma_double_up_exact(m, 411, 404164087288142523, 7642395394065014, 1537357438659752987, 29070107359312579);
    }
}

proof fn lemma_exact_93(m: nat, e2: int)
    requires
        412 <= e2 < 428,
        m < 0x80_0000_0000_0000,
    ensures
        fixed_point_product(m, wide(double_multiplier(e2)), double_shift(e2) as nat) == double_scaled(m, e2),
{
    reveal(spec_log10_pow2);
    reveal(spec_log10_pow5);
    reveal(spec_pow5bits);
    lemma_shift_powers();
    if e2 == 412 {
        lemma_double_up_exact(m, 412, 15859782098563421, 1499474216947477, 372444523091015681, 35213028536430116);
    } else if e2 == 413 {
        lemma_double_up_exact(m, 413, 776608610379158204, 36712502753377593, 372444523091015681, 17606514268215058);
    } else if e2 == 414 {
        lemma_double_up_exact(m, 414, 1553217220758316408, 36712502753377593, 372444523091015681, 8803257134107529);
    } else if e2 == 415 {
        lemma_double_up_exact(m, 415, 1925661743849332089, 22757879943742561, 4596212533880695540, 54319017021592651);
    } else if e2 == 416 {
        lemma_double_up_exact(m, 416, 87176730297053873, 5151365675527503, 657712315884977489, 38864919995010142);
    } else if e2 == 417 {
        lemma_double_up_exact(m, 417, 1006419237073192981, 29735191348560077, 832065776479085235, 24583825673032574);
    } else if e2 == 418 {
        lemma_double_up_exact(m, 418, 2012838474146385962, 29735191348560077, 832065776479085235, 12291912836516287);
    } else if e2 == 419 {
        lemma_double_up_exact(m, 419, 515120076484032539, 38048741214153802, 166413155295817047, 12291912836516287);
    } else if e2 == 420 {
        lemma_double_up_exact(m, 420, 1180772697667300727, 43608196280109475, 332826310591634094, 12291912836516287);
    } else if e2 == 421 {
        lemma_double_up_exact(m, 421, 2179251629442203009, 40241967394829168, 665652621183268188, 12291912836516287);
    } else if e2 == 422 {
        lemma_double_up_exact(m, 422, 36458753178479689, 3366228885280307, 410441348933910365, 37895961985619286);
    } else if e2 == 423 {
        lemma_double_up_exact(m, 423, 1477140255080455132, 68192021953142049, 702111374361747877, 32412896533930871);
    } else if e2 == 424 {
        lemma_double_up_exact(m, 424, 775028880718707255, 17889562709605589, 1404222748723495754, 32412896533930871);
    } else if e2 == 425 {
        lemma_double_up_exact(m, 425, 2179251629442203009, 25151229621768230, 4987697126889194517, 57564126155699101);
    } else if e2 == 426 {
        lemma_double_up_exact(m, 426, 310011552287482902, 17889562709605589, 629193868004788499, 36308334560813205);
    } else if e2 == 427 {
        lemma_double_up_exact(m, 427, 620023104574965804, 17889562709605589, 1559228524867237205, 44988511344814986);
    }
}

proof fn lemma_exact_94(m: nat, e2: int)
    requires
        428 <= e2 < 444,
        m < 0x80_0000_0000_0000,
    ensures
        fixed_point_product(m, wide(double_multiplier(e2)), double_shift(e2) as nat) == double_scaled(m, e2),
{
    reveal(spec_log10_pow2);
    reveal(spec_log10_pow5);
    reveal(spec_pow5bits);
    lemma_shift_powers();
    if e2 == 428 {
        lemma_double_up_exact(m, 428, 1240046209149931608, 17889562709605589, 1559228524867237205, 22494255672407493);
    } else if e2 == 429 {
        lemma_double_up_exact(m, 429, 304509094229589285, 21965046530805466, 311845704973447441, 22494255672407493);
    } else if e2 == 430 {
        lemma_double_up_exact(m, 430, 1551891914123379049, 55971034610217719, 623691409946894882, 22494255672407493);
    } else if e2 == 431 {
        lemma_double_up_exact(m, 431, 928200504176484167, 16738389468905113, 1247382819893789764, 22494255672407493);
    } else if e2 == 432 {
        lemma_double_up_exact(m, 432, 121803637691835714, 10982523265402733, 440985953409141311, 39761854282914633);
    } else if e2 == 433 {
        lemma_double_up_exact(m, 433, 243607275383671428, 10982523265402733, 562789591100977025, 25372188774158683);
    } else if e2 == 434 {
        lemma_double_up_exact(m, 434, 806396866484648453, 18177356019780708, 1125579182201954050, 25372188774158683);
    } else if e2 == 435 {
        lemma_double_up_exact(m, 435, 806396866484648453, 9088678009890354, 3057555230888556553, 34460866784049037);
    } else if e2 == 436 {
        lemma_double_up_exact(m, 436, 356165193603866833, 20071201275293087, 450231672880781620, 25372188774158683);
    } else if e2 == 437 {
        lemma_double_up_exact(m, 437, 806396866484648453, 22721695024725885, 900463345761563240, 25372188774158683);
    } else if e2 == 438 {
        lemma_double_up_exact(m, 438, 1706860212246211693, 24046941899442284, 3507786903769338173, 49419130673600967);
    } else if e2 == 439 {
        lemma_double_up_exact(m, 439, 266118859027710509, 18745954400576688, 360185338304625296, 25372188774158683);
    } else if e2 == 440 {
        lemma_double_up_exact(m, 440, 1706860212246211693, 60117354748605710, 720370676609250592, 25372188774158683);
    } else if e2 == 441 {
        lemma_double_up_exact(m, 441, 1706860212246211693, 30058677374302855, 1440741353218501184, 25372188774158683);
    } else if e2 == 442 {
        lemma_double_up_exact(m, 442, 501043357865868644, 44118143174735371, 234924498838158135, 20685700174014511);
    } else if e2 == 443 {
        lemma_double_up_exact(m, 443, 735967856704026779, 32401921674374941, 469848997676316270, 20685700174014511);
    }
}

proof fn lemma_exact_95(m: nat, e2: int)
    requires
        444 <= e2 < 460,
        m < 0x80_0000_0000_0000,
    ensures
        fixed_point_product(m, wide(double_multiplier(e2)), double_shift(e2) as nat) == double_scaled(m, e2),
{
    reveal(spec_log10_pow2);
    reveal(spec_log10_pow5);
    reveal(spec_pow5bits);
    lemma_shift_powers();
    if e2 == 444 {
        lemma_double_up_exact(m, 444, 2677752567788396607, 58945732598569667, 1205816854380343049, 26543810924194726);
    } else if e2 == 445 {
        lemma_double_up_exact(m, 445, 4149688281196450165, 45673827136472304, 1205816854380343049, 13271905462097363);
    } else if e2 == 446 {
        lemma_double_up_exact(m, 446, 829937656239290033, 45673827136472304, 375879198141053016, 20685700174014511);
    } else if e2 == 447 {
        lemma_double_up_exact(m, 447, 829937656239290033, 22836913568236152, 751758396282106032, 20685700174014511);
    } else if e2 == 448 {
        lemma_double_up_exact(m, 448, 829937656239290033, 11418456784118076, 3163392105042792130, 43522613742250663);
    } else if e2 == 449 {
        lemma_double_up_exact(m, 449, 197259235230731607, 13569670178339717, 632678421008558426, 43522613742250663);
    } else if e2 == 450 {
        lemma_double_up_exact(m, 450, 829937656239290033, 28546141960295190, 435419185777826819, 14976471781955473);
    } else if e2 == 451 {
        lemma_double_up_exact(m, 451, 829937656239290033, 14273070980147595, 2530713684034233704, 43522613742250663);
    } else if e2 == 452 {
        lemma_double_up_exact(m, 452, 420930503075653983, 36195314810344075, 8180143063272721, 703400801807878);
    } else if e2 == 453 {
        lemma_double_up_exact(m, 453, 841861006151307966, 36195314810344075, 8180143063272721, 351700400903939);
    } else if e2 == 454 {
        lemma_double_up_exact(m, 454, 1651695169415307345, 35506827249917018, 1668055455541852787, 35858527650820957);
    } else if e2 == 455 {
        lemma_double_up_exact(m, 455, 1651695169415307345, 17753413624958509, 3336110911083705574, 35858527650820957);
    } else if e2 == 456 {
        lemma_double_up_exact(m, 456, 330339033883061469, 17753413624958509, 693398640019213822, 37265329254436713);
    } else if e2 == 457 {
        lemma_double_up_exact(m, 457, 660678067766122938, 17753413624958509, 1684415741668398229, 45262785064656120);
    } else if e2 == 458 {
        lemma_double_up_exact(m, 458, 1321356135532245876, 17753413624958509, 3005771877200644105, 40384806157286569);
    } else if e2 == 459 {
        lemma_double_up_exact(m, 459, 119047384651988234, 7997455810219407, 601154375440128821, 40384806157286569);
    }
}

proof fn lemma_exact_96(m: nat, e2: int)
    requires
        460 <= e2 < 476,
        m < 0x80_0000_0000_0000,
    ensures
        fixed_point_product(m, wide(double_multiplier(e2)), double_shift(e2) as nat) == double_scaled(m, e2),
{
    reveal(spec_log10_pow2);
    reveal(spec_log10_pow5);
    reveal(spec_pow5bits);
    lemma_shift_powers();
    if e2 == 460 {
        lemma_double_up_exact(m, 460, 720201760092117055, 24191130983752988, 482106990788140587, 16193675173533581);
    } else if e2 == 461 {
        lemma_double_up_exact(m, 461, 720201760092117055, 12095565491876494, 2404617501760515284, 40384806157286569);
    } else if e2 == 462 {
        lemma_double_up_exact(m, 462, 144040352018423411, 12095565491876494, 532092925521010941, 44681679392038423);
    } else if e2 == 463 {
        lemma_double_up_exact(m, 463, 144040352018423411, 6047782745938247, 920145499023598471, 38633896646100176);
    } else if e2 == 464 {
        lemma_double_up_exact(m, 464, 288080704036846822, 6047782745938247, 1784387611134138937, 37460296560864829);
    } else if e2 == 465 {
        lemma_double_up_exact(m, 465, 576161408073693644, 6047782745938247, 3800952539392066691, 39897387891216279);
    } else if e2 == 466 {
        lemma_double_up_exact(m, 466, 576161408073693644, 30238913729691235, 299261381419458423, 15706256907463291);
    } else if e2 == 467 {
        lemma_double_up_exact(m, 467, 2027745605640539355, 53211499048268498, 875422789493152067, 22972585318577263);
    } else if e2 == 468 {
        lemma_double_up_exact(m, 468, 3778591184626843489, 49578334842711512, 1750845578986304134, 22972585318577263);
    } else if e2 == 469 {
        lemma_double_up_exact(m, 469, 405549121128107871, 26605749524134249, 939747336730088392, 61651427544617817);
    } else if e2 == 470 {
        lemma_double_up_exact(m, 470, 811098242256215742, 26605749524134249, 534198215601980521, 17522839010241784);
    } else if e2 == 471 {
        lemma_double_up_exact(m, 471, 1622196484512431484, 26605749524134249, 2156394700114412005, 35367169029255141);
    } else if e2 == 472 {
        lemma_double_up_exact(m, 472, 328359664443784281, 26927240532905822, 431278940022882401, 35367169029255141);
    } else if e2 == 473 {
        lemma_double_up_exact(m, 473, 328359664443784281, 13463620266452911, 862557880045764802, 35367169029255141);
    } else if e2 == 474 {
        lemma_double_up_exact(m, 474, 1190917544489549083, 24415394647854026, 1725115760091529604, 35367169029255141);
    } else if e2 == 475 {
        lemma_double_up_exact(m, 475, 1190917544489549083, 12207697323927013, 3450231520183059208, 35367169029255141);
    }
}

proof fn lemma_exact_97(m: nat, e2: int)
    requires
        476 <= e2 < 492,
        m < 0x80_0000_0000_0000,
    ensures
        fixed_point_product(m, wide(double_multiplier(e2)), double_shift(e2) as nat) == double_scaled(m, e2),
{
    reveal(spec_log10_pow2);
    reveal(spec_log10_pow5);
    reveal(spec_pow5bits);
    lemma_shift_powers();
    if e2 == 476 {
        lemma_double_up_exact(m, 476, 287191954212145033, 14719543208978809, 451862795138702025, 23159471705328128);
    } else if e2 == 477 {
        lemma_double_up_exact(m, 477, 1478109498701694116, 37879014914306937, 451862795138702025, 11579735852664064);
    } else if e2 == 478 {
        lemma_double_up_exact(m, 478, 2956218997403388232, 37879014914306937, 451862795138702025, 5789867926332032);
    } else if e2 == 479 {
        lemma_double_up_exact(m, 479, 606532462682137702, 38858508486901853, 90372559027740405, 5789867926332032);
    } else if e2 == 480 {
        lemma_double_up_exact(m, 480, 1213064925364275404, 38858508486901853, 90372559027740405, 2894933963166016);
    } else if e2 == 481 {
        lemma_double_up_exact(m, 481, 2335757291700810403, 37411041505318845, 90372559027740405, 1447466981583008);
    } else if e2 == 482 {
        lemma_double_up_exact(m, 482, 456008063923809979, 36518641441961393, 18074511805548081, 1447466981583008);
    } else if e2 == 483 {
        lemma_double_up_exact(m, 483, 912016127847619958, 36518641441961393, 18074511805548081, 723733490791504);
    } else if e2 == 484 {
        lemma_double_up_exact(m, 484, 1805957743889691835, 36156774696565641, 18074511805548081, 361866745395752);
    } else if e2 == 485 {
        lemma_double_up_exact(m, 485, 3611915487779383670, 36156774696565641, 18074511805548081, 180933372697876);
    } else if e2 == 486 {
        lemma_double_up_exact(m, 486, 722383097555876734, 36156774696565641, 18074511805548081, 904666863489380);
    } else if e2 == 487 {
        lemma_double_up_exact(m, 487, 1444766195111753468, 36156774696565641, 18074511805548081, 452333431744690);
    } else if e2 == 488 {
        lemma_double_up_exact(m, 488, 2889532390223506936, 36156774696565641, 18074511805548081, 226166715872345);
    } else if e2 == 489 {
        lemma_double_up_exact(m, 489, 592366087489139852, 37061441560055021, 18074511805548081, 1130833579361725);
    } else if e2 == 490 {
        lemma_double_up_exact(m, 490, 1152675953461130363, 36058641260134248, 36149023611096162, 1130833579361725);
    } else if e2 == 491 {
        lemma_double_up_exact(m, 491, 2309444709016207547, 36122657899854724, 72298047222192324, 1130833579361725);
    }
}

proof fn lemma_exact_98(m: nat, e2: int)
    requires
        492 <= e2 < 508,
        m < 0x80_0000_0000_0000,
    ensures
        fixed_point_product(m, wide(double_multiplier(e2)), double_shift(e2) as nat) == double_scaled(m, e2),
{
    reveal(spec_log10_pow2);
    reveal(spec_log10_pow5);
    reveal(spec_pow5bits);
    lemma_shift_powers();
    if e2 == 492 {
        lemma_double_up_exact(m, 492, 490808160692118439, 38384325058578174, 72298047222192324, 5654167896808625);
    } else if e2 == 493 {
        lemma_double_up_exact(m, 493, 924596444025272383, 36154666219714962, 144596094444384648, 5654167896808625);
    } else if e2 == 494 {
        lemma_double_up_exact(m, 494, 2081365199580349567, 40694004697091981, 289192188888769296, 5654167896808625);
    } else if e2 == 495 {
        lemma_double_up_exact(m, 495, 589788353249331491, 57656508387517856, 289192188888769296, 28270839484043125);
    } else if e2 == 496 {
        lemma_double_up_exact(m, 496, 1168172731026870083, 57099093677802053, 578384377777538592, 28270839484043125);
    } else if e2 == 497 {
        lemma_double_up_exact(m, 497, 589788353249331491, 14414127096879464, 1156768755555077184, 28270839484043125);
    } else if e2 == 498 {
        lemma_double_up_exact(m, 498, 589788353249331491, 7207063548439732, 2903325864359485859, 35477903032482857);
    } else if e2 == 499 {
        lemma_double_up_exact(m, 499, 589788353249331491, 36035317742198660, 108834490272431979, 6649648838723929);
    } else if e2 == 500 {
        lemma_double_up_exact(m, 500, 589788353249331491, 18017658871099330, 807457333794195449, 24667307709823259);
    } else if e2 == 501 {
        lemma_double_up_exact(m, 501, 589788353249331491, 9008829435549665, 2204703020837722389, 33676137145372924);
    } else if e2 == 502 {
        lemma_double_up_exact(m, 502, 30890078431920715, 2359180596825736, 497118117953569346, 37966605387271117);
    } else if e2 == 503 {
        lemma_double_up_exact(m, 503, 30890078431920715, 1179590298412868, 963346157475217977, 36787015088858249);
    } else if e2 == 504 {
        lemma_double_up_exact(m, 504, 30890078431920715, 589795149206434, 1895802236518515239, 36197219939651815);
    } else if e2 == 505 {
        lemma_double_up_exact(m, 505, 6178015686384143, 589795149206434, 382188393354400204, 36486288142682745);
    } else if e2 == 506 {
        lemma_double_up_exact(m, 506, 6178015686384143, 294897574603217, 758198771022416265, 36191390568079528);
    } else if e2 == 507 {
        lemma_double_up_exact(m, 507, 12356031372768286, 294897574603217, 1511916684761281711, 36084447334836001);
    }
}

proof fn lemma_exact_99(m: nat, e2: int)
    requires
        508 <= e2 < 524,
        m < 0x80_0000_0000_0000,
    ensures
        fixed_point_product(m, wide(double_multiplier(e2)), double_shift(e2) as nat) == double_scaled(m, e2),
{
    reveal(spec_log10_pow2);
    reveal(spec_log10_pow5);
    reveal(spec_pow5bits);
    lemma_shift_powers();
    if e2 == 508 {
        lemma_double_up_exact(m, 508, 24712062745536572, 294897574603217, 3031708543611780889, 36178424505515846);
    } else if e2 == 509 {
        lemma_double_up_exact(m, 509, 24712062745536572, 1474487873016085, 621168946369678121, 37063117229325497);
    } else if e2 == 510 {
        lemma_double_up_exact(m, 510, 893001636570580413, 26641241916251216, 843577511079507269, 25166754043235131);
    } else if e2 == 511 {
        lemma_double_up_exact(m, 511, 893001636570580413, 13320620958125608, 2580156658729594951, 38487375001360739);
    } else if e2 == 512 {
        lemma_double_up_exact(m, 512, 575340282335206763, 42910838620408994, 158830677117686825, 11846133085109523);
    } else if e2 == 513 {
        lemma_double_up_exact(m, 513, 893001636570580413, 33301552395314020, 317661354235373650, 11846133085109523);
    } else if e2 == 514 {
        lemma_double_up_exact(m, 514, 893001636570580413, 16650776197657010, 2421325981611908126, 45147685480423543);
    } else if e2 == 515 {
        lemma_double_up_exact(m, 515, 511808011488132033, 47715481732956481, 127064541694149460, 11846133085109523);
    } else if e2 == 516 {
        lemma_double_up_exact(m, 516, 893001636570580413, 41626940494142525, 254129083388298920, 11846133085109523);
    } else if e2 == 517 {
        lemma_double_up_exact(m, 517, 638872553182281493, 14890403704516501, 1147130719958879333, 26736536789626024);
    } else if e2 == 518 {
        lemma_double_up_exact(m, 518, 3572006546282321652, 41626940494142525, 1147130719958879333, 13368268394813012);
    } else if e2 == 519 {
        lemma_double_up_exact(m, 519, 740524186537601061, 43149075803846014, 203303266710639136, 11846133085109523);
    } else if e2 == 520 {
        lemma_double_up_exact(m, 520, 740524186537601061, 21574537901923007, 1887654906496480394, 54995208888955537);
    } else if e2 == 521 {
        lemma_double_up_exact(m, 521, 2628179093034081455, 38284873395439272, 1147130719958879333, 16710335493516265);
    } else if e2 == 522 {
        lemma_double_up_exact(m, 522, 525635818606816291, 38284873395439272, 95859082745246751, 6981930676702781);
    } else if e2 == 523 {
        lemma_double_up_exact(m, 523, 525635818606816291, 19142436697719636, 1242989802704126084, 45266804072142053);
    }
}

proof fn lemma_exact_100(m: nat, e2: int)
    requires
        524 <= e2 < 540,
        m < 0x80_0000_0000_0000,
    ensures
        fixed_point_product(m, wide(double_multiplier(e2)), double_shift(e2) as nat) == double_scaled(m, e2),
{
    reveal(spec_log10_pow2);
    reveal(spec_log10_pow5);
    reveal(spec_pow5bits);
    lemma_shift_powers();
    if e2 == 524 {
        lemma_double_up_exact(m, 524, 525635818606816291, 9571218348859818, 2485979605408252168, 45266804072142053);
    } else if e2 == 525 {
        lemma_double_up_exact(m, 525, 525635818606816291, 47856091744299090, 181814429917560659, 16553149025562599);
    } else if e2 == 526 {
        lemma_double_up_exact(m, 526, 525635818606816291, 23928045872149545, 363628859835121318, 16553149025562599);
    } else if e2 == 527 {
        lemma_double_up_exact(m, 527, 1051271637213632582, 23928045872149545, 889264678441937609, 20240597448856072);
    } else if e2 == 528 {
        lemma_double_up_exact(m, 528, 2102543274427265164, 23928045872149545, 5094351227296467937, 57976390468727126);
    } else if e2 == 529 {
        lemma_double_up_exact(m, 529, 242655719197065511, 13807747147721509, 646608959244872098, 36793746474418671);
    } else if e2 == 530 {
        lemma_double_up_exact(m, 530, 485311438394131022, 13807747147721509, 1374576116836068631, 39108493958791599);
    } else if e2 == 531 {
        lemma_double_up_exact(m, 531, 970622876788262044, 13807747147721509, 1859887555230199653, 26458120553256554);
    } else if e2 == 532 {
        lemma_double_up_exact(m, 532, 16271639669264887, 1157373742186464, 515016966048845208, 36632270957386553);
    } else if e2 == 533 {
        lemma_double_up_exact(m, 533, 16271639669264887, 578686871093232, 1013762292428425529, 36053584086293321);
    } else if e2 == 534 {
        lemma_double_up_exact(m, 534, 16271639669264887, 289343435546616, 2027524584856851058, 36053584086293321);
    } else if e2 == 535 {
        lemma_double_up_exact(m, 535, 16271639669264887, 1446717177733080, 408759244905223189, 36342927521839937);
    } else if e2 == 536 {
        lemma_double_up_exact(m, 536, 16271639669264887, 723358588866540, 817518489810446378, 36342927521839937);
    } else if e2 == 537 {
        lemma_double_up_exact(m, 537, 16271639669264887, 361679294433270, 1635036979620892756, 36342927521839937);
    } else if e2 == 538 {
        lemma_double_up_exact(m, 538, 16271639669264887, 180839647216635, 3253802319572520625, 36162087874623302);
    } else if e2 == 539 {
        lemma_double_up_exact(m, 539, 16271639669264887, 904198236083175, 650760463914504125, 36162087874623302);
    }
}

proof fn lemma_exact_101(m: nat, e2: int)
    requires
        540 <= e2 < 556,
        m < 0x80_0000_0000_0000,
    ensures
        fixed_point_product(m, wide(double_multiplier(e2)), double_shift(e2) as nat) == double_scaled(m, e2),
{
    reveal(spec_log10_pow2);
    reveal(spec_log10_pow5);
    reveal(spec_pow5bits);
    lemma_shift_powers();
    if e2 == 540 {
        lemma_double_up_exact(m, 540, 1203996212669510283, 33452413950725626, 1171452933330980509, 32548215714642451);
    } else if e2 == 541 {
        lemma_double_up_exact(m, 541, 1203996212669510283, 16726206975362813, 3546902079331471301, 49274422690005264);
    } else if e2 == 542 {
        lemma_double_up_exact(m, 542, 520650420274039842, 36165008658975151, 227781930798490147, 15822008739279638);
    } else if e2 == 543 {
        lemma_double_up_exact(m, 543, 1041300840548079684, 36165008658975151, 227781930798490147, 7911004369639819);
    } else if e2 == 544 {
        lemma_double_up_exact(m, 544, 2180210494540530419, 37860015253587123, 455563861596980294, 7911004369639819);
    } else if e2 == 545 {
        lemma_double_up_exact(m, 545, 344929326588710025, 29949010883947304, 110634535008270269, 9606010964251791);
    } else if e2 == 546 {
        lemma_double_up_exact(m, 546, 344929326588710025, 14974505441973652, 911127723193960588, 39555021848199095);
    } else if e2 == 547 {
        lemma_double_up_exact(m, 547, 344929326588710025, 7487252720986826, 1822255446387921176, 39555021848199095);
    } else if e2 == 548 {
        lemma_double_up_exact(m, 548, 344929326588710025, 3743626360493413, 3644510892775842352, 39555021848199095);
    } else if e2 == 549 {
        lemma_double_up_exact(m, 549, 68985865317742005, 3743626360493413, 678118684112936137, 36799175739778716);
    } else if e2 == 550 {
        lemma_double_up_exact(m, 550, 137971730635484010, 3743626360493413, 1367977337290356187, 37117719672356423);
    } else if e2 == 551 {
        lemma_double_up_exact(m, 551, 275943461270968020, 3743626360493413, 2885666374280680297, 39148804818891983);
    } else if e2 == 552 {
        lemma_double_up_exact(m, 552, 55188692254193604, 3743626360493413, 567741299604548929, 38511716953736569);
    } else if e2 == 553 {
        lemma_double_up_exact(m, 553, 110377384508387208, 3743626360493413, 1064439529892291365, 36102177099088643);
    } else if e2 == 554 {
        lemma_double_up_exact(m, 554, 220754769016774416, 3743626360493413, 2278590759484550653, 38641033532258093);
    } else if e2 == 555 {
        lemma_double_up_exact(m, 555, 220754769016774416, 18718131802467065, 544020059503619897, 46128286253244919);
    }
}

proof fn lemma_exact_102(m: nat, e2: int)
    requires
        556 <= e2 < 572,
        m < 0x80_0000_0000_0000,
    ensures
        fixed_point_product(m, wide(double_multiplier(e2)), double_shift(e2) as nat) == double_scaled(m, e2),
{
    reveal(spec_log10_pow2);
    reveal(spec_log10_pow5);
    reveal(spec_pow5bits);
    lemma_shift_powers();
    if e2 == 556 {
        lemma_double_up_exact(m, 556, 441509538033548832, 18718131802467065, 1206284366553943145, 51141340830323057);
    } else if e2 == 557 {
        lemma_double_up_exact(m, 557, 883019076067097664, 18718131802467065, 1647793904587491977, 34929736316395061);
    } else if e2 == 558 {
        lemma_double_up_exact(m, 558, 2530812980654589641, 26823934059431063, 3295587809174983954, 34929736316395061);
    } else if e2 == 559 {
        lemma_double_up_exact(m, 559, 200252664722760203, 10612329545503067, 764774828520394313, 40529011284819990);
    } else if e2 == 560 {
        lemma_double_up_exact(m, 560, 1165280157965914719, 30876835187913062, 764774828520394313, 20264505642409995);
    } else if e2 == 561 {
        lemma_double_up_exact(m, 561, 1165280157965914719, 15438417593956531, 3860109972972618064, 51141340830323057);
    } else if e2 == 562 {
        lemma_double_up_exact(m, 562, 87348231963233381, 5786241497049603, 538965963001340669, 35702923236366526);
    } else if e2 == 563 {
        lemma_double_up_exact(m, 563, 1252628389929148100, 41489164733416129, 538965963001340669, 17851461618183263);
    } else if e2 == 564 {
        lemma_double_up_exact(m, 564, 1791594352930488769, 29670313175799696, 1077931926002681338, 17851461618183263);
    } else if e2 == 565 {
        lemma_double_up_exact(m, 565, 212611070956148191, 17605093054666036, 288440285015511049, 23884071678750093);
    } else if e2 == 566 {
        lemma_double_up_exact(m, 566, 212611070956148191, 8802546527333018, 789491640987170289, 32686618206083111);
    } else if e2 == 567 {
        lemma_double_up_exact(m, 567, 212611070956148191, 4401273263666509, 1578983281974340578, 32686618206083111);
    } else if e2 == 568 {
        lemma_double_up_exact(m, 568, 1791594352930488769, 18543945734874810, 3157966563948681156, 32686618206083111);
    } else if e2 == 569 {
        lemma_double_up_exact(m, 569, 801682169554654784, 41489164733416129, 188230013821179201, 9741399207541792);
    } else if e2 == 570 {
        lemma_double_up_exact(m, 570, 1415134325288130367, 36618465129645233, 188230013821179201, 4870699603770896);
    } else if e2 == 571 {
        lemma_double_up_exact(m, 571, 2830268650576260734, 36618465129645233, 188230013821179201, 2435349801885448);
    }
}

proof fn lemma_exact_103(m: nat, e2: int)
    requires
        572 <= e2 < 588,
        m < 0x80_0000_0000_0000,
    ensures
        fixed_point_product(m, wide(double_multiplier(e2)), double_shift(e2) as nat) == double_scaled(m, e2),
{
    reveal(spec_log10_pow2);
    reveal(spec_log10_pow5);
    reveal(spec_pow5bits);
    lemma_shift_powers();
    if e2 == 572 {
        lemma_double_up_exact(m, 572, 603699732879487987, 39053814931530681, 188230013821179201, 12176749009427240);
    } else if e2 == 573 {
        lemma_double_up_exact(m, 573, 1207399465758975974, 39053814931530681, 188230013821179201, 6088374504713620);
    } else if e2 == 574 {
        lemma_double_up_exact(m, 574, 2414798931517951948, 39053814931530681, 188230013821179201, 3044187252356810);
    } else if e2 == 575 {
        lemma_double_up_exact(m, 575, 558251791832062070, 45142189436244301, 188230013821179201, 15220936261784050);
    } else if e2 == 576 {
        lemma_double_up_exact(m, 576, 928273569842944939, 37531721305352276, 188230013821179201, 7610468130892025);
    } else if e2 == 577 {
        lemma_double_up_exact(m, 577, 928273569842944939, 18765860652676138, 1304733597485303341, 26376328783568163);
    } else if e2 == 578 {
        lemma_double_up_exact(m, 578, 6147207959784158303, 62135587893474395, 2609467194970606682, 26376328783568163);
    } else if e2 == 579 {
        lemma_double_up_exact(m, 579, 35070702911645627, 1772462195446044, 717849352373071177, 36279878459014081);
    } else if e2 == 580 {
        lemma_double_up_exact(m, 580, 35070702911645627, 886231097723022, 1435698704746142354, 36279878459014081);
    } else if e2 == 581 {
        lemma_double_up_exact(m, 581, 35070702911645627, 443115548861511, 2871397409492284708, 36279878459014081);
    } else if e2 == 582 {
        lemma_double_up_exact(m, 582, 35070702911645627, 2215577744307555, 581293622480786067, 36722994007875592);
    } else if e2 == 583 {
        lemma_double_up_exact(m, 583, 721576434127368575, 22792652492552906, 651435028304077321, 20577074748245351);
    } else if e2 == 584 {
        lemma_double_up_exact(m, 584, 721576434127368575, 11396326246276453, 2746022924862891792, 43369727240798257);
    } else if e2 == 585 {
        lemma_double_up_exact(m, 585, 144315286825473715, 11396326246276453, 581293622480786067, 45903742509844490);
    } else if e2 == 586 {
        lemma_double_up_exact(m, 586, 288630573650947430, 11396326246276453, 1158554769782680927, 45744523747475151);
    } else if e2 == 587 {
        lemma_double_up_exact(m, 587, 577261147301894860, 11396326246276453, 2024446490735523217, 39966751243152255);
    }
}

proof fn lemma_exact_104(m: nat, e2: int)
    requires
        588 <= e2 < 604,
        m < 0x80_0000_0000_0000,
    ensures
        fixed_point_product(m, wide(double_multiplier(e2)), double_shift(e2) as nat) == double_scaled(m, e2),
{
    reveal(spec_log10_pow2);
    reveal(spec_log10_pow5);
    reveal(spec_pow5bits);
    lemma_shift_powers();
    if e2 == 588 {
        lemma_double_up_exact(m, 588, 115452229460378972, 11396326246276453, 408115278290217609, 40285188767890933);
    } else if e2 == 589 {
        lemma_double_up_exact(m, 589, 230904458920757944, 11396326246276453, 754471966671354525, 37237083753360146);
    } else if e2 == 590 {
        lemma_double_up_exact(m, 590, 461808917841515888, 11396326246276453, 1678089802354386301, 41411194369232979);
    } else if e2 == 591 {
        lemma_double_up_exact(m, 591, 923617835683031776, 11396326246276453, 3063516555878933965, 37800086554031169);
    } else if e2 == 592 {
        lemma_double_up_exact(m, 592, 310914524507244983, 19181544677351096, 301788786668541810, 18618541876680073);
    } else if e2 == 593 {
        lemma_double_up_exact(m, 593, 310914524507244983, 9590772338675548, 1225406622351573586, 37800086554031169);
    } else if e2 == 594 {
        lemma_double_up_exact(m, 594, 310914524507244983, 4795386169337774, 2450813244703147172, 37800086554031169);
    } else if e2 == 595 {
        lemma_double_up_exact(m, 595, 552345553842078431, 42595472723368943, 241431029334833448, 18618541876680073);
    } else if e2 == 596 {
        lemma_double_up_exact(m, 596, 310914524507244983, 11988465423344435, 793776583176911879, 30607007300024508);
    } else if e2 == 597 {
        lemma_double_up_exact(m, 597, 2209382215368313724, 42595472723368943, 793776583176911879, 15303503650012254);
    } else if e2 == 598 {
        lemma_double_up_exact(m, 598, 283121126438280369, 27291969073356689, 227534330300351141, 21933580103347892);
    } else if e2 == 599 {
        lemma_double_up_exact(m, 599, 566242252876560738, 27291969073356689, 227534330300351141, 10966790051673946);
    } else if e2 == 600 {
        lemma_double_up_exact(m, 600, 1132484505753121476, 27291969073356689, 1360018836053472617, 32775364099193662);
    } else if e2 == 601 {
        lemma_double_up_exact(m, 601, 3624987847559715569, 43679651122953520, 1360018836053472617, 16387682049596831);
    } else if e2 == 602 {
        lemma_double_up_exact(m, 602, 180990035090554067, 10904287023759858, 636058695691256349, 38321262152944723);
    } else if e2 == 603 {
        lemma_double_up_exact(m, 603, 180990035090554067, 5452143511879929, 1272117391382512698, 38321262152944723);
    }
}

proof fn lemma_exact_105(m: nat, e2: int)
    requires
        604 <= e2 < 620,
        m < 0x80_0000_0000_0000,
    ensures
        fixed_point_product(m, wide(double_multiplier(e2)), double_shift(e2) as nat) == double_scaled(m, e2),
{
    reveal(spec_log10_pow2);
    reveal(spec_log10_pow5);
    reveal(spec_pow5bits);
    lemma_shift_powers();
    if e2 == 604 {
        lemma_double_up_exact(m, 604, 361980070181108134, 5452143511879929, 2539047637016391167, 38243133368052113);
    } else if e2 == 605 {
        lemma_double_up_exact(m, 605, 652601555475721487, 49147420391811971, 290621485294613353, 21886702832412326);
    } else if e2 == 606 {
        lemma_double_up_exact(m, 606, 1014581625656829621, 38204068975605808, 290621485294613353, 10943351416206163);
    } else if e2 == 607 {
        lemma_double_up_exact(m, 607, 1014581625656829621, 19102034487802904, 1595824596246056327, 30045385904009067);
    } else if e2 == 608 {
        lemma_double_up_exact(m, 608, 86667731013520583, 8158683071596741, 407907508562185540, 38399390937837333);
    } else if e2 == 609 {
        lemma_double_up_exact(m, 609, 173335462027041166, 8158683071596741, 841246163629788455, 39596403147910519);
    } else if e2 == 610 {
        lemma_double_up_exact(m, 610, 1014581625656829621, 23877543109753630, 667910701602747289, 15718860038156889);
    } else if e2 == 611 {
        lemma_double_up_exact(m, 611, 1014581625656829621, 11938771554876815, 3364984654519153820, 39596403147910519);
    } else if e2 == 612 {
        lemma_double_up_exact(m, 612, 341584694752998857, 20097454626473556, 331412236150831907, 19498948521436963);
    } else if e2 == 613 {
        lemma_double_up_exact(m, 613, 341584694752998857, 10048727313236778, 1345993861807661528, 39596403147910519);
    } else if e2 == 614 {
        lemma_double_up_exact(m, 614, 341584694752998857, 5024363656618389, 2691987723615323056, 39596403147910519);
    } else if e2 == 615 {
        lemma_double_up_exact(m, 615, 675031422624264154, 49645130461147297, 333446727871265297, 24523312178055352);
    } else if e2 == 616 {
        lemma_double_up_exact(m, 616, 1016616117377263011, 37383474372119621, 333446727871265297, 12261656089027676);
    } else if e2 == 617 {
        lemma_double_up_exact(m, 617, 2033232234754526022, 37383474372119621, 333446727871265297, 6130828044513838);
    } else if e2 == 618 {
        lemma_double_up_exact(m, 618, 673403829247917442, 61906786550174973, 333446727871265297, 30654140222569190);
    } else if e2 == 619 {
        lemma_double_up_exact(m, 619, 1013360930624569587, 46579716438890378, 333446727871265297, 15327070111284595);
    }
}

proof fn lemma_exact_106(m: nat, e2: int)
    requires
        620 <= e2 < 636,
        m < 0x80_0000_0000_0000,
    ensures
        fixed_point_product(m, wide(double_multiplier(e2)), double_shift(e2) as nat) == double_scaled(m, e2),
{
    reveal(spec_log10_pow2);
    reveal(spec_log10_pow5);
    reveal(spec_pow5bits);
    lemma_shift_powers();
    if e2 == 620 {
        lemma_double_up_exact(m, 620, 1013360930624569587, 23289858219445189, 666893455742530594, 15327070111284595);
    } else if e2 == 621 {
        lemma_double_up_exact(m, 621, 3706976247616239355, 42598322384810081, 1680254386367100181, 19308464165364892);
    } else if e2 == 622 {
        lemma_double_up_exact(m, 622, 741395249523247871, 42598322384810081, 197463887320604439, 11345676057204298);
    } else if e2 == 623 {
        lemma_double_up_exact(m, 623, 1285326611725891303, 36925484356207932, 197463887320604439, 5672838028602149);
    } else if e2 == 624 {
        lemma_double_up_exact(m, 624, 1285326611725891303, 18462742178103966, 1680254386367100181, 24135580206706115);
    } else if e2 == 625 {
        lemma_double_up_exact(m, 625, 178079767416936485, 12789904149501817, 573007542058145363, 41154094292512562);
    } else if e2 == 626 {
        lemma_double_up_exact(m, 626, 356159534833872970, 12789904149501817, 929167076892018333, 33366951295758098);
    } else if e2 == 627 {
        lemma_double_up_exact(m, 627, 2570653223451782606, 46156855445259915, 929167076892018333, 16683475647879049);
    } else if e2 == 628 {
        lemma_double_up_exact(m, 628, 142463813933549188, 12789904149501817, 501775635091370769, 45047665790889794);
    } else if e2 == 629 {
        lemma_double_up_exact(m, 629, 284927627867098376, 12789904149501817, 786703262958469145, 35313737044946714);
    } else if e2 == 630 {
        lemma_double_up_exact(m, 630, 2143261781651135042, 48103641194448531, 786703262958469145, 17656868522473357);
    } else if e2 == 631 {
        lemma_double_up_exact(m, 631, 2929965044609604187, 32880254858460944, 1573406525916938290, 17656868522473357);
    } else if e2 == 632 {
        lemma_double_up_exact(m, 632, 727195908325890581, 40803194634991221, 314681305183387658, 17656868522473357);
    } else if e2 == 633 {
        lemma_double_up_exact(m, 633, 1671239823876053555, 46886900101205646, 629362610366775316, 17656868522473357);
    } else if e2 == 634 {
        lemma_double_up_exact(m, 634, 2929965044609604187, 41100318573076180, 1258725220733550632, 17656868522473357);
    } else if e2 == 635 {
        lemma_double_up_exact(m, 635, 334247964775210711, 23443450050602823, 255981326407918499, 17953992460558316);
    }
}

proof fn lemma_exact_107(m: nat, e2: int)
    requires
        636 <= e2 < 652,
        m < 0x80_0000_0000_0000,
    ensures
        fixed_point_product(m, wide(double_multiplier(e2)), double_shift(e2) as nat) == double_scaled(m, e2),
{
    reveal(spec_log10_pow2);
    reveal(spec_log10_pow5);
    reveal(spec_pow5bits);
    lemma_shift_powers();
    if e2 == 636 {
        lemma_double_up_exact(m, 636, 668495929550421422, 23443450050602823, 1592973185508761343, 55863896331484804);
    } else if e2 == 637 {
        lemma_double_up_exact(m, 637, 1336991859100842844, 23443450050602823, 1592973185508761343, 27931948165742402);
    } else if e2 == 638 {
        lemma_double_up_exact(m, 638, 216202106538584869, 18954951935463244, 472183432946503368, 41397442511161139);
    } else if e2 == 639 {
        lemma_double_up_exact(m, 639, 216202106538584869, 9477475967731622, 944366865893006736, 41397442511161139);
    } else if e2 == 640 {
        lemma_double_up_exact(m, 640, 216202106538584869, 4738737983865811, 1672531625247428603, 36658704527295328);
    } else if e2 == 641 {
        lemma_double_up_exact(m, 641, 432404213077169738, 4738737983865811, 3402148477556107555, 37284304199110908);
    } else if e2 == 642 {
        lemma_double_up_exact(m, 642, 432404213077169738, 23693689919329055, 248025482434051773, 13590614279781853);
    } else if e2 == 643 {
        lemma_double_up_exact(m, 643, 1545238121665560987, 42335842018884509, 680429695511221511, 18642152099555454);
    } else if e2 == 644 {
        lemma_double_up_exact(m, 644, 3090476243331121974, 42335842018884509, 680429695511221511, 9321076049777727);
    } else if e2 == 645 {
        lemma_double_up_exact(m, 645, 73751492257247186, 5051537819773601, 532926710996727139, 36502304609341433);
    } else if e2 == 646 {
        lemma_double_up_exact(m, 646, 754181187768468697, 25828459034331118, 606678203253974325, 20776921214557517);
    } else if e2 == 647 {
        lemma_double_up_exact(m, 647, 754181187768468697, 12914229517165559, 2721718782044886044, 46605380248888635);
    } else if e2 == 648 {
        lemma_double_up_exact(m, 648, 511509906466878967, 43794226371270278, 242671281301589730, 20776921214557517);
    } else if e2 == 649 {
        lemma_double_up_exact(m, 649, 996852469070058427, 42674034400192656, 485342562603179460, 20776921214557517);
    } else if e2 == 650 {
        lemma_double_up_exact(m, 650, 996852469070058427, 21337017200096328, 970685125206358920, 20776921214557517);
    } else if e2 == 651 {
        lemma_double_up_exact(m, 651, 996852469070058427, 10668508600048164, 3935075188552834694, 42113938414653845);
    }
}

proof fn lemma_exact_108(m: nat, e2: int)
    requires
        652 <= e2 < 668,
        m < 0x80_0000_0000_0000,
    ensures
        fixed_point_product(m, wide(double_multiplier(e2)), double_shift(e2) as nat) == double_scaled(m, e2),
{
    reveal(spec_log10_pow2);
    reveal(spec_log10_pow5);
    reveal(spec_pow5bits);
    lemma_shift_powers();
    if e2 == 652 {
        lemma_double_up_exact(m, 652, 996852469070058427, 53342543000240820, 388274050082543568, 20776921214557517);
    } else if e2 == 653 {
        lemma_double_up_exact(m, 653, 996852469070058427, 26671271500120410, 776548100165087136, 20776921214557517);
    } else if e2 == 654 {
        lemma_double_up_exact(m, 654, 996852469070058427, 13335635750060205, 3546801138470291126, 47448192714677927);
    } else if e2 == 655 {
        lemma_double_up_exact(m, 655, 551857484061965751, 36913036892311777, 111248746252023169, 7441285464497312);
    } else if e2 == 656 {
        lemma_double_up_exact(m, 656, 1103714968123931502, 36913036892311777, 111248746252023169, 3720642732248656);
    } else if e2 == 657 {
        lemma_double_up_exact(m, 657, 2207429936247863004, 36913036892311777, 111248746252023169, 1860321366124328);
    } else if e2 == 658 {
        lemma_double_up_exact(m, 658, 530484984251191136, 44354322356809089, 111248746252023169, 9301606830621640);
    } else if e2 == 659 {
        lemma_double_up_exact(m, 659, 949721222250359103, 39703518941498269, 111248746252023169, 4650803415310820);
    } else if e2 == 660 {
        lemma_double_up_exact(m, 660, 1788193698248695037, 37378117233842859, 111248746252023169, 2325401707655410);
    } else if e2 == 661 {
        lemma_double_up_exact(m, 661, 3465138650245366905, 36215416380015154, 111248746252023169, 1162700853827705);
    } else if e2 == 662 {
        lemma_double_up_exact(m, 662, 693027730049073381, 36215416380015154, 111248746252023169, 5813504269138525);
    } else if e2 == 663 {
        lemma_double_up_exact(m, 663, 1360520207561212395, 35548220997423152, 222497492504046338, 5813504269138525);
    } else if e2 == 664 {
        lemma_double_up_exact(m, 664, 1360520207561212395, 17774110498711576, 3166035400130517466, 41361725266561677);
    } else if e2 == 665 {
        lemma_double_up_exact(m, 665, 272104041512242479, 17774110498711576, 717099026520335155, 46841631844404201);
    } else if e2 == 666 {
        lemma_double_up_exact(m, 666, 272104041512242479, 8887055249355788, 1162094011528427831, 37954576595048413);
    } else if e2 == 667 {
        lemma_double_up_exact(m, 667, 272104041512242479, 4443527624677894, 2324188023056855662, 37954576595048413);
    }
}

proof fn lemma_exact_109(m: nat, e2: int)
    requires
        668 <= e2 < 684,
        m < 0x80_0000_0000_0000,
    ensures
        fixed_point_product(m, wide(double_multiplier(e2)), double_shift(e2) as nat) == double_scaled(m, e2),
{
    reveal(spec_log10_pow2);
    reveal(spec_log10_pow5);
    reveal(spec_pow5bits);
    lemma_shift_powers();
    if e2 == 668 {
        lemma_double_up_exact(m, 668, 272104041512242479, 22217638123389470, 573679221216268124, 46841631844404201);
    } else if e2 == 669 {
        lemma_double_up_exact(m, 669, 272104041512242479, 11108819061694735, 1147358442432536248, 46841631844404201);
    } else if e2 == 670 {
        lemma_double_up_exact(m, 670, 544208083024484958, 11108819061694735, 1963670566969263685, 40084044514744203);
    } else if e2 == 671 {
        lemma_double_up_exact(m, 671, 1088416166048969916, 11108819061694735, 3596294816042718559, 36705250849914204);
    } else if e2 == 672 {
        lemma_double_up_exact(m, 672, 151473969630632221, 7730025396864736, 785468226787705474, 40084044514744203);
    } else if e2 == 673 {
        lemma_double_up_exact(m, 673, 151473969630632221, 3865012698432368, 1419462483944778727, 36219031816311835);
    } else if e2 == 674 {
        lemma_double_up_exact(m, 674, 151473969630632221, 1932506349216184, 2838924967889557454, 36219031816311835);
    } else if e2 == 675 {
        lemma_double_up_exact(m, 675, 151473969630632221, 9662531746080920, 598079787504037935, 38151538165528019);
    } else if e2 == 676 {
        lemma_double_up_exact(m, 676, 151473969630632221, 4831265873040460, 1196159575008075870, 38151538165528019);
    } else if e2 == 677 {
        lemma_double_up_exact(m, 677, 151473969630632221, 2415632936520230, 2392319150016151740, 38151538165528019);
    } else if e2 == 678 {
        lemma_double_up_exact(m, 678, 151473969630632221, 12078164682601150, 478463830003230348, 38151538165528019);
    } else if e2 == 679 {
        lemma_double_up_exact(m, 679, 151473969630632221, 6039082341300575, 956927660006460696, 38151538165528019);
    } else if e2 == 680 {
        lemma_double_up_exact(m, 680, 1411349568898357359, 28134392594714872, 1108401629637092917, 22095310253414297);
    } else if e2 == 681 {
        lemma_double_up_exact(m, 681, 464038677336430137, 46251639618616597, 161090738075165695, 16056227912113722);
    } else if e2 == 682 {
        lemma_double_up_exact(m, 682, 766986616597694579, 38223525662559736, 161090738075165695, 8028113956056861);
    } else if e2 == 683 {
        lemma_double_up_exact(m, 683, 1411349568898357359, 35167990743393590, 322181476150331390, 8028113956056861);
    }
}

proof fn lemma_exact_110(m: nat, e2: int)
    requires
        684 <= e2 < 700,
        m < 0x80_0000_0000_0000,
    ensures
        fixed_point_product(m, wide(double_multiplier(e2)), double_shift(e2) as nat) == double_scaled(m, e2),
{
    reveal(spec_log10_pow2);
    reveal(spec_log10_pow5);
    reveal(spec_pow5bits);
    lemma_shift_powers();
    if e2 == 684 {
        lemma_double_up_exact(m, 684, 1411349568898357359, 17583995371696795, 3467062090097377498, 43196104699450451);
    } else if e2 == 685 {
        lemma_double_up_exact(m, 685, 638114026137562023, 39751293122142809, 128872590460132556, 8028113956056861);
    } else if e2 == 686 {
        lemma_double_up_exact(m, 686, 1282476978438224803, 39945931451213557, 257745180920265112, 8028113956056861);
    } else if e2 == 687 {
        lemma_double_up_exact(m, 687, 1024731797517959691, 15958908747578348, 1540222159358489915, 23987022703635209);
    } else if e2 == 688 {
        lemma_double_up_exact(m, 688, 716687365646261708, 55807521034256531, 308044431871697983, 23987022703635209);
    } else if e2 == 689 {
        lemma_double_up_exact(m, 689, 408642933774563725, 15910249165310661, 616088863743395966, 23987022703635209);
    } else if e2 == 690 {
        lemma_double_up_exact(m, 690, 1024731797517959691, 19948635934472935, 1232177727486791932, 23987022703635209);
    } else if e2 == 691 {
        lemma_double_up_exact(m, 691, 163457173509825490, 15910249165310661, 370903103478657731, 36102183011122031);
    } else if e2 == 692 {
        lemma_double_up_exact(m, 692, 326914347019650980, 15910249165310661, 534360276988483221, 26006216088216346);
    } else if e2 == 693 {
        lemma_double_up_exact(m, 693, 1722549248016268402, 41916465253527007, 534360276988483221, 13003108044108173);
    } else if e2 == 694 {
        lemma_double_up_exact(m, 694, 3325630078981718065, 40462894692925763, 1068720553976966442, 13003108044108173);
    } else if e2 == 695 {
        lemma_double_up_exact(m, 695, 261531477615720784, 15910249165310661, 403594538180622829, 24552645527615102);
    } else if e2 == 696 {
        lemma_double_up_exact(m, 696, 1330252031592687226, 40462894692925763, 403594538180622829, 12276322763807551);
    } else if e2 == 697 {
        lemma_double_up_exact(m, 697, 926657493412064397, 14093285964559106, 1733846569773310055, 26369608728366657);
    } else if e2 == 698 {
        lemma_double_up_exact(m, 698, 233118865502740375, 17727212366062216, 346769313954662011, 26369608728366657);
    } else if e2 == 699 {
        lemma_double_up_exact(m, 699, 1620196121321388419, 61602823639764422, 693538627909324022, 26369608728366657);
    }
}

proof fn lemma_exact_111(m: nat, e2: int)
    requires
        700 <= e2 < 716,
        m < 0x80_0000_0000_0000,
    ensures
        fixed_point_product(m, wide(double_multiplier(e2)), double_shift(e2) as nat) == double_scaled(m, e2),
{
    reveal(spec_log10_pow2);
    reveal(spec_log10_pow5);
    reveal(spec_pow5bits);
    lemma_shift_powers();
    if e2 == 700 {
        lemma_double_up_exact(m, 700, 3007273377140036463, 57171020548248868, 1387077255818648044, 26369608728366657);
    } else if e2 == 701 {
        lemma_double_up_exact(m, 701, 46623773100548075, 4431803091515554, 407978020707138469, 38780178720006651);
    } else if e2 == 702 {
        lemma_double_up_exact(m, 702, 46623773100548075, 2215901545757777, 769332268313728863, 36564277174248874);
    } else if e2 == 703 {
        lemma_double_up_exact(m, 703, 93247546201096150, 2215901545757777, 1608560184123594213, 38225252498944430);
    } else if e2 == 704 {
        lemma_double_up_exact(m, 704, 186495092402192300, 2215901545757777, 2914025830938940313, 34623937069776654);
    } else if e2 == 705 {
        lemma_double_up_exact(m, 705, 37299018480438460, 2215901545757777, 638785703632194253, 37949691057658873);
    } else if e2 == 706 {
        lemma_double_up_exact(m, 706, 74598036960876920, 2215901545757777, 1272869017799648073, 37810008667770541);
    } else if e2 == 707 {
        lemma_double_up_exact(m, 707, 149196073921753840, 2215901545757777, 2541035646134555713, 37740167472826375);
    } else if e2 == 708 {
        lemma_double_up_exact(m, 708, 29839214784350768, 2215901545757777, 511969040798703489, 38019532252603039);
    } else if e2 == 709 {
        lemma_double_up_exact(m, 709, 59678429568701536, 2215901545757777, 1019235692132666545, 37844929265242624);
    } else if e2 == 710 {
        lemma_double_up_exact(m, 710, 119356859137403072, 2215901545757777, 1974090565231891121, 36649676998683528);
    } else if e2 == 711 {
        lemma_double_up_exact(m, 711, 119356859137403072, 11079507728788885, 442560856701339453, 41081480090199082);
    } else if e2 == 712 {
        lemma_double_up_exact(m, 712, 681274574976145597, 31620247773888426, 442560856701339453, 20540740045099541);
    } else if e2 == 713 {
        lemma_double_up_exact(m, 713, 681274574976145597, 15810123886944213, 1566396288378824503, 36350863932043754);
    } else if e2 == 714 {
        lemma_double_up_exact(m, 714, 1362549149952291194, 15810123886944213, 2928945438331115697, 33985555852966090);
    } else if e2 == 715 {
        lemma_double_up_exact(m, 715, 231740402305151577, 13444815807866549, 667327943036836463, 38716172011121418);
    }
}

proof fn lemma_exact_112(m: nat, e2: int)
    requires
        716 <= e2 < 732,
        m < 0x80_0000_0000_0000,
    ensures
        fixed_point_product(m, wide(double_multiplier(e2)), double_shift(e2) as nat) == double_scaled(m, e2),
{
    reveal(spec_log10_pow2);
    reveal(spec_log10_pow5);
    reveal(spec_pow5bits);
    lemma_shift_powers();
    if e2 == 716 {
        lemma_double_up_exact(m, 716, 1130808747647139617, 32802901813427258, 667327943036836463, 19358086005560709);
    } else if e2 == 717 {
        lemma_double_up_exact(m, 717, 1130808747647139617, 16401450906713629, 3596273381367952160, 52160987818987967);
    } else if e2 == 718 {
        lemma_double_up_exact(m, 718, 411554071373549185, 29846266714580178, 307700604900041247, 22314721104407789);
    } else if e2 == 719 {
        lemma_double_up_exact(m, 719, 411554071373549185, 14923133357290089, 1026955281173631679, 37237854461697878);
    } else if e2 == 720 {
        lemma_double_up_exact(m, 720, 823108142747098370, 14923133357290089, 1850063423920730049, 33542060588139028);
    } else if e2 == 721 {
        lemma_double_up_exact(m, 721, 164621628549419674, 14923133357290089, 533090395525372657, 48325236082374428);
    } else if e2 == 722 {
        lemma_double_up_exact(m, 722, 329243257098839348, 14923133357290089, 862333652624212005, 39085751398477303);
    } else if e2 == 723 {
        lemma_double_up_exact(m, 723, 658486514197678696, 14923133357290089, 1850063423920730049, 41927575735173785);
    } else if e2 == 724 {
        lemma_double_up_exact(m, 724, 2508549938118408745, 28425354546231937, 1191576909723051353, 13502221188941848);
    } else if e2 == 725 {
        lemma_double_up_exact(m, 725, 501709987623681749, 28425354546231937, 188156934475687855, 10660396852245366);
    } else if e2 == 726 {
        lemma_double_up_exact(m, 726, 1003419975247363498, 28425354546231937, 2194996884970414851, 62180907518586557);
    } else if e2 == 727 {
        lemma_double_up_exact(m, 727, 2006839950494726996, 28425354546231937, 1191576909723051353, 16877776486177310);
    } else if e2 == 728 {
        lemma_double_up_exact(m, 728, 514211945610575075, 36417096595782403, 75262773790275142, 5330198426122683);
    } else if e2 == 729 {
        lemma_double_up_exact(m, 729, 1041051362142501069, 36864242789320592, 150525547580550284, 5330198426122683);
    } else if e2 == 730 {
        lemma_double_up_exact(m, 730, 1041051362142501069, 18432121394660296, 2383153819446102706, 42194441215443275);
    } else if e2 == 731 {
        lemma_double_up_exact(m, 731, 356210325824780314, 31534044363197909, 328630710492940441, 29092518246905662);
    }
}

proof fn lemma_exact_113(m: nat, e2: int)
    requires
        732 <= e2 < 748,
        m < 0x80_0000_0000_0000,
    ensures
        fixed_point_product(m, wide(double_multiplier(e2)), double_shift(e2) as nat) == double_scaled(m, e2),
{
    reveal(spec_log10_pow2);
    reveal(spec_log10_pow5);
    reveal(spec_pow5bits);
    lemma_shift_powers();
    if e2 == 732 {
        lemma_double_up_exact(m, 732, 1041051362142501069, 46080303486650740, 328630710492940441, 14546259123452831);
    } else if e2 == 733 {
        lemma_double_up_exact(m, 733, 1041051362142501069, 23040151743325370, 657261420985880882, 14546259123452831);
    } else if e2 == 734 {
        lemma_double_up_exact(m, 734, 1041051362142501069, 11520075871662685, 3396625566256763902, 37586410866778201);
    } else if e2 == 735 {
        lemma_double_up_exact(m, 735, 658191290381536096, 36417096595782403, 54694295965852139, 3026183251790146);
    } else if e2 == 736 {
        lemma_double_up_exact(m, 736, 1316382580763072192, 36417096595782403, 54694295965852139, 1513091625895073);
    } else if e2 == 737 {
        lemma_double_up_exact(m, 737, 2027408428319149999, 28043643866209176, 2136797020250854277, 29556735492104249);
    } else if e2 == 738 {
        lemma_double_up_exact(m, 738, 339848530504807433, 23504368988523957, 449237122436511711, 31069827117999322);
    } else if e2 == 739 {
        lemma_double_up_exact(m, 739, 1128934183446126577, 39039282547523618, 449237122436511711, 15534913558999661);
    } else if e2 == 740 {
        lemma_double_up_exact(m, 740, 2925882673192173421, 50589468391761131, 898474244873023422, 15534913558999661);
    } else if e2 == 741 {
        lemma_double_up_exact(m, 741, 46091987714620631, 3984727714762148, 437554367726817112, 37827290647376825);
    } else if e2 == 742 {
        lemma_double_up_exact(m, 742, 46091987714620631, 1992363857381074, 875108735453634224, 37827290647376825);
    } else if e2 == 743 {
        lemma_double_up_exact(m, 743, 46091987714620631, 996181928690537, 1704125483192647817, 36831108718686288);
    } else if e2 == 744 {
        lemma_double_up_exact(m, 744, 92183975429241262, 996181928690537, 3363437040918990533, 36346829075772810);
    } else if e2 == 745 {
        lemma_double_up_exact(m, 745, 92183975429241262, 4980909643452685, 691124203269646359, 37343011004463347);
    } else if e2 == 746 {
        lemma_double_up_exact(m, 746, 783308178698887621, 21161960323958016, 598940227840405097, 16181050680505331);
    } else if e2 == 747 {
        lemma_double_up_exact(m, 747, 783308178698887621, 10580980161979008, 2764496813078585436, 37343011004463347);
    }
}

proof fn lemma_exact_114(m: nat, e2: int)
    requires
        748 <= e2 < 764,
        m < 0x80_0000_0000_0000,
    ensures
        fixed_point_product(m, wide(double_multiplier(e2)), double_shift(e2) as nat) == double_scaled(m, e2),
{
    reveal(spec_log10_pow2);
    reveal(spec_log10_pow5);
    reveal(spec_pow5bits);
    lemma_shift_powers();
    if e2 == 748 {
        lemma_double_up_exact(m, 748, 387070451822948058, 26142869967410701, 396237726875939563, 26762030842484339);
    } else if e2 == 749 {
        lemma_double_up_exact(m, 749, 783308178698887621, 26452450404947520, 1575783632450766747, 53214481247431859);
    } else if e2 == 750 {
        lemma_double_up_exact(m, 750, 783308178698887621, 13226225202473760, 2368259086202645873, 39988256044958099);
    } else if e2 == 751 {
        lemma_double_up_exact(m, 751, 427617906642817227, 36101823571297357, 3666910021196602, 309580437536819);
    } else if e2 == 752 {
        lemma_double_up_exact(m, 752, 783308178698887621, 33065563006184400, 1573950177440168446, 66440706449905619);
    } else if e2 == 753 {
        lemma_double_up_exact(m, 753, 783308178698887621, 16532781503092200, 2364592176181449271, 49907924946813419);
    } else if e2 == 754 {
        lemma_double_up_exact(m, 754, 783308178698887621, 8266390751546100, 3945876173664010921, 41641534195267319);
    } else if e2 == 755 {
        lemma_double_up_exact(m, 755, 150794579705862961, 7956810314009281, 632513598993024660, 33375143443721219);
    } else if e2 == 756 {
        lemma_double_up_exact(m, 756, 783308178698887621, 20665976878865250, 2048335376684936941, 54041120322586469);
    } else if e2 == 757 {
        lemma_double_up_exact(m, 757, 783308178698887621, 10332988439432625, 3313362574670986261, 43708131883153844);
    } else if e2 == 758 {
        lemma_double_up_exact(m, 758, 277297299504467893, 18289798753441906, 506010879194419728, 33375143443721219);
    } else if e2 == 759 {
        lemma_double_up_exact(m, 759, 277297299504467893, 9144899376720953, 1289319057893307349, 42520042820442172);
    } else if e2 == 760 {
        lemma_double_up_exact(m, 760, 3133232714795550484, 51664942197163125, 1289319057893307349, 21260021410221086);
    } else if e2 == 761 {
        lemma_double_up_exact(m, 761, 368782731380448627, 30404920786942039, 182970863751961468, 15085344690279313);
    } else if e2 == 762 {
        lemma_double_up_exact(m, 762, 737565462760897254, 30404920786942039, 551753595132410095, 22745132738610676);
    } else if e2 == 763 {
        lemma_double_up_exact(m, 763, 1475130925521794508, 30404920786942039, 551753595132410095, 11372566369305338);
    }
}

proof fn lemma_exact_115(m: nat, e2: int)
    requires
        764 <= e2 < 780,
        m < 0x80_0000_0000_0000,
    ensures
        fixed_point_product(m, wide(double_multiplier(e2)), double_shift(e2) as nat) == double_scaled(m, e2),
{
    reveal(spec_log10_pow2);
    reveal(spec_log10_pow5);
    reveal(spec_pow5bits);
    lemma_shift_powers();
    if e2 == 764 {
        lemma_double_up_exact(m, 764, 3502015446175999111, 36091203971594708, 551753595132410095, 5686283184652669);
    } else if e2 == 765 {
        lemma_double_up_exact(m, 765, 743247470513948636, 38298940241656815, 110350719026482019, 5686283184652669);
    } else if e2 == 766 {
        lemma_double_up_exact(m, 766, 1515702503699322769, 39051461267112749, 220701438052964038, 5686283184652669);
    } else if e2 == 767 {
        lemma_double_up_exact(m, 767, 3060612570070071035, 39427721779840716, 441402876105928076, 5686283184652669);
    } else if e2 == 768 {
        lemma_double_up_exact(m, 768, 170719637908086131, 10996305856577371, 441402876105928076, 28431415923263345);
    } else if e2 == 769 {
        lemma_double_up_exact(m, 769, 612122514014014207, 19713860889920358, 1494928266225870359, 48145276813183703);
    } else if e2 == 770 {
        lemma_double_up_exact(m, 770, 612122514014014207, 9856930444960179, 2377734018437726511, 38288346368223524);
    } else if e2 == 771 {
        lemma_double_up_exact(m, 771, 503849218734877429, 40567097191457908, 108273295279136778, 8717555033342987);
    } else if e2 == 772 {
        lemma_double_up_exact(m, 772, 503849218734877429, 20283548595728954, 720395809293150985, 29001103629071941);
    } else if e2 == 773 {
        lemma_double_up_exact(m, 773, 503849218734877429, 10141774297864477, 1440791618586301970, 29001103629071941);
    } else if e2 == 774 {
        lemma_double_up_exact(m, 774, 1944640837321179399, 19571438963468209, 4826224074493783339, 48572542592540150);
    } else if e2 == 775 {
        lemma_double_up_exact(m, 775, 215690895017617035, 10853883930125222, 576316647434520788, 29001103629071941);
    } else if e2 == 776 {
        lemma_double_up_exact(m, 776, 1368324189886658611, 34428045594134552, 1152633294869041576, 29001103629071941);
    } else if e2 == 777 {
        lemma_double_up_exact(m, 777, 1368324189886658611, 17214022797067276, 3673590779624741763, 46215126426139217);
    } else if e2 == 778 {
        lemma_double_up_exact(m, 778, 86276358007046814, 5426941965062611, 591836967823237285, 37227636299772881);
    } else if e2 == 779 {
        lemma_double_up_exact(m, 779, 172552716014093628, 5426941965062611, 1195771473872564983, 37608115027605579);
    }
}

proof fn lemma_exact_116(m: nat, e2: int)
    requires
        780 <= e2 < 796,
        m < 0x80_0000_0000_0000,
    ensures
        fixed_point_product(m, wide(double_multiplier(e2)), double_shift(e2) as nat) == double_scaled(m, e2),
{
    reveal(spec_log10_pow2);
    reveal(spec_log10_pow5);
    reveal(spec_pow5bits);
    lemma_shift_powers();
    if e2 == 780 {
        lemma_double_up_exact(m, 780, 1368324189886658611, 21517528496334095, 1023218757858471355, 16090586531271484);
    } else if e2 == 781 {
        lemma_double_up_exact(m, 781, 549749183599881527, 43225296356584539, 204643751571694271, 16090586531271484);
    } else if e2 == 782 {
        lemma_double_up_exact(m, 782, 1099498367199763054, 43225296356584539, 204643751571694271, 8045293265635742);
    } else if e2 == 783 {
        lemma_double_up_exact(m, 783, 1994352982827831837, 39202649723766668, 204643751571694271, 4022646632817871);
    } else if e2 == 784 {
        lemma_double_up_exact(m, 784, 521656847508582930, 51270589622220281, 204643751571694271, 20113233164089355);
    } else if e2 == 785 {
        lemma_double_up_exact(m, 785, 1135588102223665743, 55805144557244173, 409287503143388542, 20113233164089355);
    } else if e2 == 786 {
        lemma_double_up_exact(m, 786, 726300599080277201, 17845955696577409, 1544875605367054285, 37959188860666764);
    } else if e2 == 787 {
        lemma_double_up_exact(m, 787, 1452601198160554402, 17845955696577409, 1544875605367054285, 18979594430333382);
    } else if e2 == 788 {
        lemma_double_up_exact(m, 788, 834650956013732688, 51270589622220281, 308975121073410857, 18979594430333382);
    } else if e2 == 789 {
        lemma_double_up_exact(m, 789, 1360326790954054519, 41780792407053590, 308975121073410857, 9489797215166691);
    } else if e2 == 790 {
        lemma_double_up_exact(m, 790, 2596227275247697947, 39869990633860177, 617950242146821714, 9489797215166691);
    } else if e2 == 791 {
        lemma_double_up_exact(m, 791, 148475309761446561, 11400598988360104, 469474932385375153, 36048387087473351);
    } else if e2 == 792 {
        lemma_double_up_exact(m, 792, 148475309761446561, 5700299494180052, 938949864770750306, 36048387087473351);
    } else if e2 == 793 {
        lemma_double_up_exact(m, 793, 148475309761446561, 2850149747090026, 1877899729541500612, 36048387087473351);
    } else if e2 == 794 {
        lemma_double_up_exact(m, 794, 148475309761446561, 14250748735450130, 464665131765168059, 44598836328743429);
    } else if e2 == 795 {
        lemma_double_up_exact(m, 795, 148475309761446561, 7125374367725065, 780854953768889557, 37473461961018364);
    }
}

proof fn lemma_exact_117(m: nat, e2: int)
    requires
        796 <= e2 < 812,
        m < 0x80_0000_0000_0000,
    ensures
        fixed_point_product(m, wide(double_multiplier(e2)), double_shift(e2) as nat) == double_scaled(m, e2),
{
    reveal(spec_log10_pow2);
    reveal(spec_log10_pow5);
    reveal(spec_pow5bits);
    lemma_shift_powers();
    if e2 == 796 {
        lemma_double_up_exact(m, 796, 1077805573291782679, 25862105348234247, 780854953768889557, 18736730980509182);
    } else if e2 == 797 {
        lemma_double_up_exact(m, 797, 2155611146583565358, 25862105348234247, 5092077246936020273, 61092576186723085);
    } else if e2 == 798 {
        lemma_double_up_exact(m, 798, 393731486372092409, 23619114225704721, 587293220070490983, 35230470838488838);
    } else if e2 == 799 {
        lemma_double_up_exact(m, 799, 1374756192814675801, 41234349644949140, 587293220070490983, 17615235419244419);
    } else if e2 == 800 {
        lemma_double_up_exact(m, 800, 2549342632955657767, 38232410241718989, 1174586440140981966, 17615235419244419);
    } else if e2 == 801 {
        lemma_double_up_exact(m, 801, 40033950534738767, 3001939403230151, 494009281050422927, 37043207241309528);
    } else if e2 == 802 {
        lemma_double_up_exact(m, 802, 80067901069477534, 3001939403230151, 974416687467288131, 36533240040035670);
    } else if e2 == 803 {
        lemma_double_up_exact(m, 803, 2429240781351441466, 45539058249726123, 1134552489606243199, 21268559423247986);
    } else if e2 == 804 {
        lemma_double_up_exact(m, 804, 290964818776830667, 27272438229708288, 130829016637875599, 12262741213557533);
    } else if e2 == 805 {
        lemma_double_up_exact(m, 805, 290964818776830667, 13636219114854144, 843587670829412532, 39535179443265821);
    } else if e2 == 806 {
        lemma_double_up_exact(m, 806, 290964818776830667, 6818109557427072, 1687175341658825064, 39535179443265821);
    } else if e2 == 807 {
        lemma_double_up_exact(m, 807, 290964818776830667, 3409054778713536, 3083385864540819461, 36126124664552285);
    } else if e2 == 808 {
        lemma_double_up_exact(m, 808, 290964818776830667, 17045273893567680, 733063100418896159, 42944234221979357);
    } else if e2 == 809 {
        lemma_double_up_exact(m, 809, 290964818776830667, 8522636946783840, 1466126200837792318, 42944234221979357);
    } else if e2 == 810 {
        lemma_double_up_exact(m, 810, 290964818776830667, 4261318473391920, 2641287582898753969, 38682915748587437);
    } else if e2 == 811 {
        lemma_double_up_exact(m, 811, 290964818776830667, 21306592366959600, 702836407845849194, 51466871168763197);
    }
}

proof fn lemma_exact_118(m: nat, e2: int)
    requires
        812 <= e2 < 828,
        m < 0x80_0000_0000_0000,
    ensures
        fixed_point_product(m, wide(double_multiplier(e2)), double_shift(e2) as nat) == double_scaled(m, e2),
{
    reveal(spec_log10_pow2);
    reveal(spec_log10_pow5);
    reveal(spec_pow5bits);
    lemma_shift_powers();
    if e2 == 812 {
        lemma_double_up_exact(m, 812, 290964818776830667, 10653296183479800, 1114707996914867721, 40813574985283397);
    } else if e2 == 813 {
        lemma_double_up_exact(m, 813, 290964818776830667, 5326648091739900, 2229415993829735442, 40813574985283397);
    } else if e2 == 814 {
        lemma_double_up_exact(m, 814, 290964818776830667, 26633240458699500, 678655053787411622, 62120167352242997);
    } else if e2 == 815 {
        lemma_double_up_exact(m, 815, 290964818776830667, 13316620229349750, 1066345288797992577, 48803547122893247);
    } else if e2 == 816 {
        lemma_double_up_exact(m, 816, 290964818776830667, 6658310114674875, 1841725758819154487, 42145237008218372);
    } else if e2 == 817 {
        lemma_double_up_exact(m, 817, 581929637553661334, 6658310114674875, 3005585033926477155, 34389238733458936);
    } else if e2 == 818 {
        lemma_double_up_exact(m, 818, 581929637553661334, 33291550573374375, 601117006785295431, 34389238733458936);
    } else if e2 == 819 {
        lemma_double_up_exact(m, 819, 1764976281892618099, 50486169940103843, 601117006785295431, 17194619366729468);
    } else if e2 == 820 {
        lemma_double_up_exact(m, 820, 2928835556999940767, 41888860256739109, 601117006785295431, 8597309683364734);
    } else if e2 == 821 {
        lemma_double_up_exact(m, 821, 345320308685869981, 24694240890009641, 255796698099425450, 18292307526814029);
    } else if e2 == 822 {
        lemma_double_up_exact(m, 822, 1291757624157035393, 46187515098421476, 601117006785295431, 21493274208411835);
    } else if e2 == 823 {
        lemma_double_up_exact(m, 823, 2493991637727626255, 44587031757622573, 1202234013570590862, 21493274208411835);
    } else if e2 == 824 {
        lemma_double_up_exact(m, 824, 498798327545525251, 44587031757622573, 204637358479540360, 18292307526814029);
    } else if e2 == 825 {
        lemma_double_up_exact(m, 825, 294160969065984891, 13147362115404272, 703435686025065611, 31439669642218301);
    } else if e2 == 826 {
        lemma_double_up_exact(m, 826, 294160969065984891, 6573681057702136, 1406871372050131222, 31439669642218301);
    } else if e2 == 827 {
        lemma_double_up_exact(m, 827, 294160969065984891, 3286840528851068, 3107903713166247335, 34726510171069369);
    }
}

proof fn lemma_exact_119(m: nat, e2: int)
    requires
        828 <= e2 < 844,
        m < 0x80_0000_0000_0000,
    ensures
        fixed_point_product(m, wide(double_multiplier(e2)), double_shift(e2) as nat) == double_scaled(m, e2),
{
    reveal(spec_log10_pow2);
    reveal(spec_log10_pow5);
    reveal(spec_pow5bits);
    lemma_shift_powers();
    if e2 == 828 {
        lemma_double_up_exact(m, 828, 294160969065984891, 16434202644255340, 621580742633249467, 34726510171069369);
    } else if e2 == 829 {
        lemma_double_up_exact(m, 829, 294160969065984891, 8217101322127670, 1243161485266498934, 34726510171069369);
    } else if e2 == 830 {
        lemma_double_up_exact(m, 830, 294160969065984891, 4108550661063835, 2486322970532997868, 34726510171069369);
    } else if e2 == 831 {
        lemma_double_up_exact(m, 831, 294160969065984891, 20542753305319175, 320768012667008639, 22400858187877864);
    } else if e2 == 832 {
        lemma_double_up_exact(m, 832, 1229857963465987060, 42943611493197039, 320768012667008639, 11200429093938932);
    } else if e2 == 833 {
        lemma_double_up_exact(m, 833, 2138947914264965481, 37343396946227573, 320768012667008639, 5600214546969466);
    } else if e2 == 834 {
        lemma_double_up_exact(m, 834, 171175172719386185, 14942538758349709, 320768012667008639, 28001072734847330);
    } else if e2 == 835 {
        lemma_double_up_exact(m, 835, 983886370772789648, 42943611493197039, 320768012667008639, 14000536367423665);
    } else if e2 == 836 {
        lemma_double_up_exact(m, 836, 663118358105781009, 14471537562886687, 1304654383439798287, 28472073930310352);
    } else if e2 == 837 {
        lemma_double_up_exact(m, 837, 3935545483091158592, 42943611493197039, 1304654383439798287, 14236036965155176);
    } else if e2 == 838 {
        lemma_double_up_exact(m, 838, 526178219930272061, 28707574528041863, 252297943579254165, 13765035769692154);
    } else if e2 == 839 {
        lemma_double_up_exact(m, 839, 1052356439860544122, 28707574528041863, 1304654383439798287, 35590092412887940);
    } else if e2 == 840 {
        lemma_double_up_exact(m, 840, 3409367263160886531, 46502620734485833, 1304654383439798287, 17795046206443970);
    } else if e2 == 841 {
        lemma_double_up_exact(m, 841, 598220141417886625, 40797605838297311, 100919177431701666, 6882517884846077);
    } else if e2 == 842 {
        lemma_double_up_exact(m, 842, 1102816028576394955, 37605097631263848, 201838354863403332, 6882517884846077);
    } else if e2 == 843 {
        lemma_double_up_exact(m, 843, 1102816028576394955, 18802548815631924, 2609308766879596574, 44487615516109925);
    }
}

proof fn lemma_exact_120(m: nat, e2: int)
    requires
        844 <= e2 < 860,
        m < 0x80_0000_0000_0000,
    ensures
        fixed_point_product(m, wide(double_multiplier(e2)), double_shift(e2) as nat) == double_scaled(m, e2),
{
    reveal(spec_log10_pow2);
    reveal(spec_log10_pow5);
    reveal(spec_pow5bits);
    lemma_shift_powers();
    if e2 == 844 {
        lemma_double_up_exact(m, 844, 220563205715278991, 18802548815631924, 624239915442085655, 53215138239862309);
    } else if e2 == 845 {
        lemma_double_up_exact(m, 845, 220563205715278991, 9401274407815962, 1027916625168892319, 43813863832046347);
    } else if e2 == 846 {
        lemma_double_up_exact(m, 846, 220563205715278991, 4700637203907981, 1835270044622505647, 39113226628138366);
    } else if e2 == 847 {
        lemma_double_up_exact(m, 847, 441126411430557982, 4700637203907981, 3599775690344737575, 38359162129701107);
    } else if e2 == 848 {
        lemma_double_up_exact(m, 848, 441126411430557982, 23503186019539905, 278828726638389533, 14855976110161202);
    } else if e2 == 849 {
        lemma_double_up_exact(m, 849, 882252822861115964, 23503186019539905, 2043334372360621461, 54434360094160411);
    } else if e2 == 850 {
        lemma_double_up_exact(m, 850, 2925587195221737425, 38968773056850158, 1161081549499505497, 15465587037310253);
    } else if e2 == 851 {
        lemma_double_up_exact(m, 851, 9153328589189473, 609610927149051, 548504124687589593, 36530329348253954);
    } else if e2 == 852 {
        lemma_double_up_exact(m, 852, 585117439044347485, 19484386528425079, 566810781865968539, 18874775601276028);
    } else if e2 == 853 {
        lemma_double_up_exact(m, 853, 1170234878088694970, 19484386528425079, 2907280538043358479, 48406160857488172);
    } else if e2 == 854 {
        lemma_double_up_exact(m, 854, 234046975617738994, 19484386528425079, 566810781865968539, 47186939003190070);
    } else if e2 == 855 {
        lemma_double_up_exact(m, 855, 468093951235477988, 19484386528425079, 1034904733101446527, 43077856030020114);
    } else if e2 == 856 {
        lemma_double_up_exact(m, 856, 936187902470955976, 19484386528425079, 1971092635572402503, 41023314543435136);
    } else if e2 == 857 {
        lemma_double_up_exact(m, 857, 1872375804941911952, 19484386528425079, 3843468440514314455, 39996043800142647);
    } else if e2 == 858 {
        lemma_double_up_exact(m, 858, 334988428736186170, 17429845041840101, 768693688102862891, 39996043800142647);
    } else if e2 == 859 {
        lemma_double_up_exact(m, 859, 1103682116839049061, 28712944420991374, 433705259366676721, 11283099379151273);
    }
}

proof fn lemma_exact_121(m: nat, e2: int)
    requires
        860 <= e2 < 876,
        m < 0x80_0000_0000_0000,
    ensures
        fixed_point_product(m, wide(double_multiplier(e2)), double_shift(e2) as nat) == double_scaled(m, e2),
{
    reveal(spec_log10_pow2);
    reveal(spec_log10_pow5);
    reveal(spec_pow5bits);
    lemma_shift_powers();
    if e2 == 860 {
        lemma_double_up_exact(m, 860, 1103682116839049061, 14356472210495687, 3074774752411451564, 39996043800142647);
    } else if e2 == 861 {
        lemma_double_up_exact(m, 861, 267990742988948936, 17429845041840101, 567700630861151189, 36922670968798233);
    } else if e2 == 862 {
        lemma_double_up_exact(m, 862, 535981485977897872, 17429845041840101, 835691373850100125, 27176258005319167);
    } else if e2 == 863 {
        lemma_double_up_exact(m, 863, 1371672859827997997, 22303051523579634, 1671382747700200250, 27176258005319167);
    } else if e2 == 864 {
        lemma_double_up_exact(m, 864, 703119760747917897, 57162741607259836, 334276549540040050, 27176258005319167);
    } else if e2 == 865 {
        lemma_double_up_exact(m, 865, 1371672859827997997, 55757628808949085, 668553099080080100, 27176258005319167);
    } else if e2 == 866 {
        lemma_double_up_exact(m, 866, 703119760747917897, 14290685401814959, 1337106198160160200, 27176258005319167);
    } else if e2 == 867 {
        lemma_double_up_exact(m, 867, 2040225958908078097, 20733471703567063, 2674212396320320400, 27176258005319167);
    } else if e2 == 868 {
        lemma_double_up_exact(m, 868, 435698521115885857, 22138584501877814, 534842479264064080, 27176258005319167);
    } else if e2 == 869 {
        lemma_double_up_exact(m, 869, 435698521115885857, 11069292250938907, 1069684958528128160, 27176258005319167);
    } else if e2 == 870 {
        lemma_double_up_exact(m, 870, 1505383479644014017, 19122775128129037, 2139369917056256320, 27176258005319167);
    } else if e2 == 871 {
        lemma_double_up_exact(m, 871, 221761529410260225, 14085101624687684, 427873983411251264, 27176258005319167);
    } else if e2 == 872 {
        lemma_double_up_exact(m, 872, 1933257463055265281, 61395066822982176, 855747966822502528, 27176258005319167);
    } else if e2 == 873 {
        lemma_double_up_exact(m, 873, 3644753396700270337, 57873791416810255, 1711495933645005056, 27176258005319167);
    } else if e2 == 874 {
        lemma_double_up_exact(m, 874, 44352305882052045, 3521275406171921, 469631368947547796, 37285578653782047);
    } else if e2 == 875 {
        lemma_double_up_exact(m, 875, 88704611764104090, 3521275406171921, 957506733650120291, 38009804060836589);
    }
}

proof fn lemma_exact_122(m: nat, e2: int)
    requires
        876 <= e2 < 892,
        m < 0x80_0000_0000_0000,
    ensures
        fixed_point_product(m, wide(double_multiplier(e2)), double_shift(e2) as nat) == double_scaled(m, e2),
{
    reveal(spec_log10_pow2);
    reveal(spec_log10_pow5);
    reveal(spec_pow5bits);
    lemma_shift_powers();
    if e2 == 876 {
        lemma_double_up_exact(m, 876, 177409223528208180, 3521275406171921, 1755848239527057101, 34850641358191939);
    } else if e2 == 877 {
        lemma_double_up_exact(m, 877, 35481844705641636, 3521275406171921, 372056296007033297, 36923465950254776);
    } else if e2 == 878 {
        lemma_double_up_exact(m, 878, 70963689411283272, 3521275406171921, 726874743063449657, 36068110005986993);
    } else if e2 == 879 {
        lemma_double_up_exact(m, 879, 141927378822566544, 3521275406171921, 1507475326587565649, 37401069736939062);
    } else if e2 == 880 {
        lemma_double_up_exact(m, 880, 1791330084232698737, 22221810274641452, 1507475326587565649, 18700534868469531);
    } else if e2 == 881 {
        lemma_double_up_exact(m, 881, 415036968375566365, 25743085680813373, 961256147481566007, 59622880011580514);
    } else if e2 == 882 {
        lemma_double_up_exact(m, 882, 830073936751132730, 25743085680813373, 961256147481566007, 29811440005790257);
    } else if e2 == 883 {
        lemma_double_up_exact(m, 883, 1791330084232698737, 27777262843301815, 3713842379195830751, 57588702849092072);
    } else if e2 == 884 {
        lemma_double_up_exact(m, 884, 332029574700453092, 25743085680813373, 795241360131339461, 61657057174068956);
    } else if e2 == 885 {
        lemma_double_up_exact(m, 885, 664059149400906184, 25743085680813373, 1459300509532245645, 56571614267847851);
    } else if e2 == 886 {
        lemma_double_up_exact(m, 886, 2123359658933151829, 41157349974330612, 795241360131339461, 15414264293517239);
    } else if e2 == 887 {
        lemma_double_up_exact(m, 887, 160677891176015852, 15572199868371163, 211521156318441203, 20499707199738344);
    } else if e2 == 888 {
        lemma_double_up_exact(m, 888, 744398094988914110, 36071907068109507, 211521156318441203, 10249853599869172);
    } else if e2 == 889 {
        lemma_double_up_exact(m, 889, 1488796189977828220, 36071907068109507, 211521156318441203, 5124926799934586);
    } else if e2 == 890 {
        lemma_double_up_exact(m, 890, 2977592379955656440, 36071907068109507, 211521156318441203, 2562463399967293);
    } else if e2 == 891 {
        lemma_double_up_exact(m, 891, 595518475991131288, 36071907068109507, 211521156318441203, 12812316999836465);
    }
}

proof fn lemma_exact_123(m: nat, e2: int)
    requires
        892 <= e2 < 908,
        m < 0x80_0000_0000_0000,
    ensures
        fixed_point_product(m, wide(double_multiplier(e2)), double_shift(e2) as nat) == double_scaled(m, e2),
{
    reveal(spec_log10_pow2);
    reveal(spec_log10_pow5);
    reveal(spec_pow5bits);
    lemma_shift_powers();
    if e2 == 892 {
        lemma_double_up_exact(m, 892, 807039632309572491, 24442112033972986, 423042312636882406, 12812316999836465);
    } else if e2 == 893 {
        lemma_double_up_exact(m, 893, 807039632309572491, 12221056016986493, 2460163889892909794, 37254429033809451);
    } else if e2 == 894 {
        lemma_double_up_exact(m, 894, 153598927869076034, 11629795034136521, 499841776571420423, 37845690016659423);
    } else if e2 == 895 {
        lemma_double_up_exact(m, 895, 307197855738152068, 11629795034136521, 653440704440496457, 24737742525397972);
    } else if e2 == 896 {
        lemma_double_up_exact(m, 896, 1921277120357297050, 36367537559534493, 653440704440496457, 12368871262698986);
    } else if e2 == 897 {
        lemma_double_up_exact(m, 897, 115070143702422363, 10890718805574056, 269185280369037047, 25476818753960437);
    } else if e2 == 898 {
        lemma_double_up_exact(m, 898, 115070143702422363, 5445359402787028, 653440704440496457, 30922178156747465);
    } else if e2 == 899 {
        lemma_double_up_exact(m, 899, 1421951552583415277, 33644857858140979, 1306881408880992914, 30922178156747465);
    } else if e2 == 900 {
        lemma_double_up_exact(m, 900, 5572736066631238745, 65928375865585201, 2728832961464408191, 32283518007444222);
    } else if e2 == 901 {
        lemma_double_up_exact(m, 901, 115070143702422363, 6806699253483785, 499738534811912693, 29560838306050708);
    } else if e2 == 902 {
        lemma_double_up_exact(m, 902, 1229617357028670112, 36367537559534493, 499738534811912693, 14780419153025354);
    } else if e2 == 903 {
        lemma_double_up_exact(m, 903, 2459234714057340224, 36367537559534493, 499738534811912693, 7390209576512677);
    } else if e2 == 904 {
        lemma_double_up_exact(m, 904, 192003821924320429, 14196908829996462, 499738534811912693, 36951047882563385);
    } else if e2 == 905 {
        lemma_double_up_exact(m, 905, 192003821924320429, 7098454414998231, 999477069623825386, 36951047882563385);
    } else if e2 == 906 {
        lemma_double_up_exact(m, 906, 2766969426944932488, 51147956712559847, 1191480891548145815, 22024751148780808);
    } else if e2 == 907 {
        lemma_double_up_exact(m, 907, 622303822158270021, 57517023223771963, 238296178309629163, 22024751148780808);
    }
}

proof fn lemma_exact_124(m: nat, e2: int)
    requires
        908 <= e2 < 924,
        m < 0x80_0000_0000_0000,
    ensures
        fixed_point_product(m, wide(double_multiplier(e2)), double_shift(e2) as nat) == double_scaled(m, e2),
{
    reveal(spec_log10_pow2);
    reveal(spec_log10_pow5);
    reveal(spec_pow5bits);
    lemma_shift_powers();
    if e2 == 908 {
        lemma_double_up_exact(m, 908, 1006311466006910879, 46504647649381559, 238296178309629163, 11012375574390404);
    } else if e2 == 909 {
        lemma_double_up_exact(m, 909, 1774326753704192595, 40998459862186357, 238296178309629163, 5506187787195202);
    } else if e2 == 910 {
        lemma_double_up_exact(m, 910, 3310357329098756027, 38245365968588756, 238296178309629163, 2753093893597601);
    } else if e2 == 911 {
        lemma_double_up_exact(m, 911, 709730701481677038, 40998459862186357, 238296178309629163, 13765469467988005);
    } else if e2 == 912 {
        lemma_double_up_exact(m, 912, 1424619236410564527, 41147434133075186, 476592356619258326, 13765469467988005);
    } else if e2 == 913 {
        lemma_double_up_exact(m, 913, 3330988662887597831, 48104656002513603, 953184713238516652, 13765469467988005);
    } else if e2 == 914 {
        lemma_double_up_exact(m, 914, 94286904634409575, 6808247598549588, 576037094700878352, 41594356945741673);
    } else if e2 == 915 {
        lemma_double_up_exact(m, 915, 94286904634409575, 3404123799274794, 1057787284767347129, 38190233146466879);
    } else if e2 == 916 {
        lemma_double_up_exact(m, 916, 94286904634409575, 1702061899637397, 2021287664900284683, 36488171246829482);
    } else if e2 == 917 {
        lemma_double_up_exact(m, 917, 18857380926881915, 1702061899637397, 399552905188439993, 36063532865331268);
    } else if e2 == 918 {
        lemma_double_up_exact(m, 918, 37714761853763830, 1702061899637397, 814415285579842123, 36754447328677001);
    } else if e2 == 919 {
        lemma_double_up_exact(m, 919, 75429523707527660, 1702061899637397, 1606425284508882553, 36248873610531169);
    } else if e2 == 920 {
        lemma_double_up_exact(m, 920, 150859047415055320, 1702061899637397, 3341304329782018733, 37698148651095650);
    } else if e2 == 921 {
        lemma_double_up_exact(m, 921, 30171809483011064, 1702061899637397, 656013285794034037, 37007234187749917);
    } else if e2 == 922 {
        lemma_double_up_exact(m, 922, 60343618966022128, 1702061899637397, 1289621284937266381, 36375267040067627);
    } else if e2 == 923 {
        lemma_double_up_exact(m, 923, 120687237932044256, 1702061899637397, 2556837283223731069, 36059283466226482);
    }
}

proof fn lemma_exact_125(m: nat, e2: int)
    requires
        924 <= e2 < 940,
        m < 0x80_0000_0000_0000,
    ensures
        fixed_point_product(m, wide(double_multiplier(e2)), double_shift(e2) as nat) == double_scaled(m, e2),
{
    reveal(spec_log10_pow2);
    reveal(spec_log10_pow5);
    reveal(spec_pow5bits);
    lemma_shift_powers();
    if e2 == 924 {
        lemma_double_up_exact(m, 924, 120687237932044256, 8510309498186985, 535504904231155065, 37761345365863879);
    } else if e2 == 925 {
        lemma_double_up_exact(m, 925, 897566618027287833, 31646136930212417, 656192142163199321, 23135827432025432);
    } else if e2 == 926 {
        lemma_double_up_exact(m, 926, 2451325378217774987, 43214050646225133, 656192142163199321, 11567913716012716);
    } else if e2 == 927 {
        lemma_double_up_exact(m, 927, 227788218778275269, 20078223214199701, 200615704606648783, 17683122151664178);
    } else if e2 == 928 {
        lemma_double_up_exact(m, 928, 455576437556550538, 20078223214199701, 656192142163199321, 28919784290031790);
    } else if e2 == 929 {
        lemma_double_up_exact(m, 929, 2223537159439499718, 48998007504231491, 656192142163199321, 14459892145015895);
    } else if e2 == 930 {
        lemma_double_up_exact(m, 930, 1567345017276300397, 17269057679607798, 2879729301602699039, 31728949824623693);
    } else if e2 == 931 {
        lemma_double_up_exact(m, 931, 50992146589980351, 2809165534591903, 700478525246634430, 38589474309976639);
    } else if e2 == 932 {
        lemma_double_up_exact(m, 932, 101984293179960702, 2809165534591903, 1363376430916378993, 37554313129835689);
    } else if e2 == 933 {
        lemma_double_up_exact(m, 933, 3134690034552600794, 43172644199019495, 1465360724096339695, 20181739332213796);
    } else if e2 == 934 {
        lemma_double_up_exact(m, 934, 790112875998457282, 54409306337387107, 293072144819267939, 20181739332213796);
    } else if e2 == 935 {
        lemma_double_up_exact(m, 935, 1287153607177646625, 44318436671280209, 293072144819267939, 10090869666106898);
    } else if e2 == 936 {
        lemma_double_up_exact(m, 936, 2281235069536025311, 39273001838226760, 293072144819267939, 5045434833053449);
    } else if e2 == 937 {
        lemma_double_up_exact(m, 937, 221789298051790711, 19091262506012964, 293072144819267939, 25227174165267245);
    } else if e2 == 938 {
        lemma_double_up_exact(m, 938, 1394077877328862467, 59999979583540972, 586144289638535878, 25227174165267245);
    } else if e2 == 939 {
        lemma_double_up_exact(m, 939, 2566366456605934223, 55227163957037731, 1172288579277071756, 25227174165267245);
    }
}

proof fn lemma_exact_126(m: nat, e2: int)
    requires
        940 <= e2 < 956,
        m < 0x80_0000_0000_0000,
    ensures
        fixed_point_product(m, wide(double_multiplier(e2)), double_shift(e2) as nat) == double_scaled(m, e2),
{
    reveal(spec_log10_pow2);
    reveal(spec_log10_pow5);
    reveal(spec_pow5bits);
    lemma_shift_powers();
    if e2 == 940 {
        lemma_double_up_exact(m, 940, 1394077877328862467, 14999994895885243, 2344577158554143512, 25227174165267245);
    } else if e2 == 941 {
        lemma_double_up_exact(m, 941, 823778308593693840, 44318436671280209, 190099856245056209, 10227179269382002);
    } else if e2 == 942 {
        lemma_double_up_exact(m, 942, 1457456760942331471, 39204847036589208, 190099856245056209, 5113589634691001);
    } else if e2 == 943 {
        lemma_double_up_exact(m, 943, 2978255610902781143, 40056782057058608, 380199712490112418, 5113589634691001);
    } else if e2 == 944 {
        lemma_double_up_exact(m, 944, 519611179682533745, 34943192422367607, 380199712490112418, 25567948173455005);
    } else if e2 == 945 {
        lemma_double_up_exact(m, 945, 1939033251537713653, 65198762720278913, 899810892172646163, 30255570297911306);
    } else if e2 == 946 {
        lemma_double_up_exact(m, 946, 2978255610902781143, 50070977571323260, 899810892172646163, 15127785148955653);
    } else if e2 == 947 {
        lemma_double_up_exact(m, 947, 415688943746026996, 34943192422367607, 68433004680592171, 5752540900043051);
    } else if e2 == 948 {
        lemma_double_up_exact(m, 948, 1315499835918673159, 55291059083572936, 484121948426619167, 20347866661205329);
    } else if e2 == 949 {
        lemma_double_up_exact(m, 949, 1315499835918673159, 27645529541786468, 968243896853238334, 20347866661205329);
    } else if e2 == 950 {
        lemma_double_up_exact(m, 950, 1315499835918673159, 13822764770893234, 4567487465543822986, 47993396202991797);
    } else if e2 == 951 {
        lemma_double_up_exact(m, 951, 138902375626173930, 7297662880581139, 759890333413977439, 39923172332141614);
    } else if e2 == 952 {
        lemma_double_up_exact(m, 952, 1315499835918673159, 34556911927233085, 1037695084666325299, 27259249046651946);
    } else if e2 == 953 {
        lemma_double_up_exact(m, 953, 3668694756503671617, 48186536450559058, 1037695084666325299, 13629624523325973);
    } else if e2 == 954 {
        lemma_double_up_exact(m, 954, 111121900500939144, 7297662880581139, 593207482662568723, 38957471094305309);
    } else if e2 == 955 {
        lemma_double_up_exact(m, 955, 222243801001878288, 7297662880581139, 1148816985167264443, 37722892748605502);
    }
}

proof fn lemma_exact_127(m: nat, e2: int)
    requires
        956 <= e2 < 970,
        m < 0x80_0000_0000_0000,
    ensures
        fixed_point_product(m, wide(double_multiplier(e2)), double_shift(e2) as nat) == double_scaled(m, e2),
{
    reveal(spec_log10_pow2);
    reveal(spec_log10_pow5);
    reveal(spec_pow5bits);
    lemma_shift_powers();
    if e2 == 956 {
        lemma_double_up_exact(m, 956, 2742121572338285462, 45020555629186641, 1148816985167264443, 18861446374302751);
    } else if e2 == 957 {
        lemma_double_up_exact(m, 957, 778187711501109981, 63882002003489392, 370629273666154462, 30425229868024363);
    } else if e2 == 958 {
        lemma_double_up_exact(m, 958, 778187711501109981, 31941001001744696, 741258547332308924, 30425229868024363);
    } else if e2 == 959 {
        lemma_double_up_exact(m, 959, 778187711501109981, 15970500500872348, 2260704806165727829, 46395730368896711);
    } else if e2 == 960 {
        lemma_double_up_exact(m, 960, 778187711501109981, 7985250250436174, 3743221900830345677, 38410480118460537);
    } else if e2 == 961 {
        lemma_double_up_exact(m, 961, 340818415935484838, 17486271634592681, 437369295565625143, 22439979617588189);
    } else if e2 == 962 {
        lemma_double_up_exact(m, 962, 778187711501109981, 19963125626090435, 1652926302632360267, 42403105243678624);
    } else if e2 == 963 {
        lemma_double_up_exact(m, 963, 1556375423002219962, 19963125626090435, 3209301725634580229, 41164678247929747);
    } else if e2 == 964 {
        lemma_double_up_exact(m, 964, 571556450774788851, 36655851347259448, 19310175926028061, 1238426995748877);
    } else if e2 == 965 {
        lemma_double_up_exact(m, 965, 1150861728555630681, 36904330609862879, 38620351852056122, 1238426995748877);
    } else if e2 == 966 {
        lemma_double_up_exact(m, 966, 1575685598928248023, 25263513781550263, 3228611901560608290, 51765454558849403);
    } else if e2 == 967 {
        lemma_double_up_exact(m, 967, 284240838304004707, 22786659790052509, 645722380312121658, 51765454558849403);
    } else if e2 == 968 {
        lemma_double_up_exact(m, 968, 929963218616126365, 37276057174450956, 361481542008116951, 14489397384398447);
    } else if e2 == 969 {
        lemma_double_up_exact(m, 969, 929963218616126365, 18638028587225478, 2582889521248486632, 51765454558849403);
    }
}

/// For every binary exponent of a finite double and every value of up to 55
/// bits, the product with the table entry, cut by the shift, is the exact
/// integer part of the value scaled to decimal.
pub proof fn lemma_double_scaling_exact(m: nat, e2: int)
    requires
        -1076 <= e2 <= 969,
        m < 0x80_0000_0000_0000,
    ensures
        fixed_point_product(m, wide(double_multiplier(e2)), double_shift(e2) as nat) == double_scaled(m, e2),
{
    if e2 < -1060 {
        lemma_exact_0(m, e2);
    } else if e2 < -1044 {
        lemma_exact_1(m, e2);
    } else if e2 < -1028 {
        lemma_exact_2(m, e2);
    } else if e2 < -1012 {
        lemma_exact_3(m, e2);
    } else if e2 < -996 {
        lemma_exact_4(m, e2);
    } else if e2 < -980 {
        lemma_exact_5(m, e2);
    } else if e2 < -964 {
        lemma_exact_6(m, e2);
    } else if e2 < -948 {
        lemma_exact_7(m, e2);
    } else if e2 < -932 {
        lemma_exact_8(m, e2);
    } else if e2 < -916 {
        lemma_exact_9(m, e2);
    } else if e2 < -900 {
        lemma_exact_10(m, e2);
    } else if e2 < -884 {
        lemma_exact_11(m, e2);
    } else if e2 < -868 {
        lemma_exact_12(m, e2);
    } else if e2 < -852 {
        lemma_exact_13(m, e2);
    } else if e2 < -836 {
        lemma_exact_14(m, e2);
    } else if e2 < -820 {
        lemma_exact_15(m, e2);
    } else if e2 < -804 {
        lemma_exact_16(m, e2);
    } else if e2 < -788 {
        lemma_exact_17(m, e2);
    } else if e2 < -772 {
        lemma_exact_18(m, e2);
    } else if e2 < -756 {
        lemma_exact_19(m, e2);
    } else if e2 < -740 {
        lemma_exact_20(m, e2);
    } else if e2 < -724 {
        lemma_exact_21(m, e2);
    } else if e2 < -708 {
        lemma_exact_22(m, e2);
    } else if e2 < -692 {
        lemma_exact_23(m, e2);
    } else if e2 < -676 {
        lemma_exact_24(m, e2);
    } else if e2 < -660 {
        lemma_exact_25(m, e2);
    } else if e2 < -644 {
        lemma_exact_26(m, e2);
    } else if e2 < -628 {
        lemma_exact_27(m, e2);
    } else if e2 < -612 {
        lemma_exact_28(m, e2);
    } else if e2 < -596 {
        lemma_exact_29(m, e2);
    } else if e2 < -580 {
        lemma_exact_30(m, e2);
    } else if e2 < -564 {
        lemma_exact_31(m, e2);
    } else if e2 < -548 {
        lemma_exact_32(m, e2);
    } else if e2 < -532 {
        lemma_exact_33(m, e2);
    } else if e2 < -516 {
        lemma_exact_34(m, e2);
    } else if e2 < -500 {
        lemma_exact_35(m, e2);
    } else if e2 < -484 {
        lemma_exact_36(m, e2);
    } else if e2 < -468 {
        lemma_exact_37(m, e2);
    } else if e2 < -452 {
        lemma_exact_38(m, e2);
    } else if e2 < -436 {
        lemma_exact_39(m, e2);
    } else if e2 < -420 {
        lemma_exact_40(m, e2);
    } else if e2 < -404 {
        lemma_exact_41(m, e2);
    } else if e2 < -388 {
        lemma_exact_42(m, e2);
    } else if e2 < -372 {
        lemma_exact_43(m, e2);
    } else if e2 < -356 {
        lemma_exact_44(m, e2);
    } else if e2 < -340 {
        lemma_exact_45(m, e2);
    } else if e2 < -324 {
        lemma_exact_46(m, e2);
    } else if e2 < -308 {
        lemma_exact_47(m, e2);
    } else if e2 < -292 {
        lemma_exact_48(m, e2);
    } else if e2 < -276 {
        lemma_exact_49(m, e2);
    } else if e2 < -260 {
        lemma_exact_50(m, e2);
    } else if e2 < -244 {
        lemma_exact_51(m, e2);
    } else if e2 < -228 {
        lemma_exact_52(m, e2);
    } else if e2 < -212 {
        lemma_exact_53(m, e2);
    } else if e2 < -196 {
        lemma_exact_54(m, e2);
    } else if e2 < -180 {
        lemma_exact_55(m, e2);
    } else if e2 < -164 {
        lemma_exact_56(m, e2);
    } else if e2 < -148 {
        lemma_exact_57(m, e2);
    } else if e2 < -132 {
        lemma_exact_58(m, e2);
    } else if e2 < -116 {
        lemma_exact_59(m, e2);
    } else if e2 < -100 {
        lemma_exact_60(m, e2);
    } else if e2 < -84 {
        lemma_exact_61(m, e2);
    } else if e2 < -68 {
        lemma_exact_62(m, e2);
    } else if e2 < -52 {
        lemma_exact_63(m, e2);
    } else if e2 < -36 {
        lemma_exact_64(m, e2);
    } else if e2 < -20 {
        lemma_exact_65(m, e2);
    } else if e2 < -4 {
        lemma_exact_66(m, e2);
    } else if e2 < 12 {
        lemma_exact_67(m, e2);
    } else if e2 < 28 {
        lemma_exact_68(m, e2);
    } else if e2 < 44 {
        lemma_exact_69(m, e2);
    } else if e2 < 60 {
        lemma_exact_70(m, e2);
    } else if e2 < 76 {
        lemma_exact_71(m, e2);
    } else if e2 < 92 {
        lemma_exact_72(m, e2);
    } else if e2 < 108 {
        lemma_exact_73(m, e2);
    } else if e2 < 124 {
        lemma_exact_74(m, e2);
    } else if e2 < 140 {
        lemma_exact_75(m, e2);
    } else if e2 < 156 {
        lemma_exact_76(m, e2);
    } else if e2 < 172 {
        lemma_exact_77(m, e2);
    } else if e2 < 188 {
        lemma_exact_78(m, e2);
    } else if e2 < 204 {
        lemma_exact_79(m, e2);
    } else if e2 < 220 {
        lemma_exact_80(m, e2);
    } else if e2 < 236 {
        lemma_exact_81(m, e2);
    } else if e2 < 252 {
        lemma_exact_82(m, e2);
    } else if e2 < 268 {
        lemma_exact_83(m, e2);
    } else if e2 < 284 {
        lemma_exact_84(m, e2);
    } else if e2 < 300 {
        lemma_exact_85(m, e2);
    } else if e2 < 316 {
        lemma_exact_86(m, e2);
    } else if e2 < 332 {
        lemma_exact_87(m, e2);
    } else if e2 < 348 {
        lemma_exact_88(m, e2);
    } else if e2 < 364 {
        lemma_exact_89(m, e2);
    } else if e2 < 380 {
        lemma_exact_90(m, e2);
    } else if e2 < 396 {
        lemma_exact_91(m, e2);
    } else if e2 < 412 {
        lemma_exact_92(m, e2);
    } else if e2 < 428 {
        lemma_exact_93(m, e2);
    } else if e2 < 444 {
        lemma_exact_94(m, e2);
    } else if e2 < 460 {
        lemma_exact_95(m, e2);
    } else if e2 < 476 {
        lemma_exact_96(m, e2);
    } else if e2 < 492 {
        lemma_exact_97(m, e2);
    } else if e2 < 508 {
        lemma_exact_98(m, e2);
    } else if e2 < 524 {
        lemma_exact_99(m, e2);
    } else if e2 < 540 {
        lemma_exact_100(m, e2);
    } else if e2 < 556 {
        lemma_exact_101(m, e2);
    } else if e2 < 572 {
        lemma_exact_102(m, e2);
    } else if e2 < 588 {
        lemma_exact_103(m, e2);
    } else if e2 < 604 {
        lemma_exact_104(m, e2);
    } else if e2 < 620 {
        lemma_exact_105(m, e2);
    } else if e2 < 636 {
        lemma_exact_106(m, e2);
    } else if e2 < 652 {
        lemma_exact_107(m, e2);
    } else if e2 < 668 {
        lemma_exact_108(m, e2);
    } else if e2 < 684 {
        lemma_exact_109(m, e2);
    } else if e2 < 700 {
        lemma_exact_110(m, e2);
    } else if e2 < 716 {
        lemma_exact_111(m, e2);
    } else if e2 < 732 {
        lemma_exact_112(m, e2);
    } else if e2 < 748 {
        lemma_exact_113(m, e2);
    } else if e2 < 764 {
        lemma_exact_114(m, e2);
    } else if e2 < 780 {
        lemma_exact_115(m, e2);
    } else if e2 < 796 {
        lemma_exact_116(m, e2);
    } else if e2 < 812 {
        lemma_exact_117(m, e2);
    } else if e2 < 828 {
        lemma_exact_118(m, e2);
    } else if e2 < 844 {
        lemma_exact_119(m, e2);
    } else if e2 < 860 {
        lemma_exact_120(m, e2);
    } else if e2 < 876 {
        lemma_exact_121(m, e2);
    } else if e2 < 892 {
        lemma_exact_122(m, e2);
    } else if e2 < 908 {
        lemma_exact_123(m, e2);
    } else if e2 < 924 {
        lemma_exact_124(m, e2);
    } else if e2 < 940 {
        lemma_exact_125(m, e2);
    } else if e2 < 956 {
        lemma_exact_126(m, e2);
    } else if e2 < 970 {
        lemma_exact_127(m, e2);
    }
}

} // verus!
