//! Four comparisons of large powers of two and five, written out by
//! squaring and multiplying.

use vstd::prelude::*;
use vstd::arithmetic::power::{pow, lemma_pow1, lemma_pow_adds};

verus! {

proof fn lemma_pow_5_351()
    ensures
        pow(5, 351) == 218007543808417316859394750271862213030225752796706897967362564702536132031772269377793888446840673379742251272845082899517162582833083868241508921319969414132216266131608059121791046085920720322728669324403860674266297792200930416584014892578125int,
{
    lemma_pow1(5);
    lemma_pow_adds(5, 1, 1);
    assert(pow(5, 2) == 25int);
    lemma_pow_adds(5, 2, 2);
    assert(pow(5, 4) == 625int);
    lemma_pow_adds(5, 4, 4);
    assert(pow(5, 8) == 390625int);
    lemma_pow_adds(5, 8, 8);
    assert(pow(5, 16) == 152587890625int);
    lemma_pow_adds(5, 16, 16);
    assert(pow(5, 32) == 23283064365386962890625int);
    lemma_pow_adds(5, 32, 32);
    assert(pow(5, 64) == 542101086242752217003726400434970855712890625int);
    lemma_pow_adds(5, 64, 64);
    assert(pow(5, 128) == 293873587705571876992184134305561419454666389193021880377187926569604314863681793212890625int);
    lemma_pow_adds(5, 128, 128);
    assert(pow(5, 256) == 86361685550944446253863518628003995711160003644362813850237034701685918031624270579715075034722882265605472939461496635969950989468319466936530037770580747746862471103668212890625int);
    lemma_pow_adds(5, 256, 64);
    assert(pow(5, 320) == 46816763546921983271558494138586765699150233387941833163371554538603832766739996494866350975392646334430537906314200196391753374199149312046122692338075289270907454151724452290906351194232914991744110011495649814605712890625int);
    lemma_pow_adds(5, 320, 16);
    assert(pow(5, 336) == 7143671195514218638848647176908380996574437467642491632594536520172703974417113722971550136626075185307394089708587676451378383514274492194537764333812757762284462608600532881302848998143450163535173036422065706574358046054840087890625int);
    lemma_pow_adds(5, 336, 8);
    assert(pow(5, 344) == 2790496560747741655800252803479836326786889635797848293982240828192462490006685048035761772119560619260700816292417061113819681060263473513491314192895608500892368206484583156758925389899785220130926967352369416630608611740171909332275390625int);
    lemma_pow_adds(5, 344, 4);
    assert(pow(5, 348) == 1744060350467338534875158002174897704241806022373655183738900517620289056254178155022351107574725387037938010182760663196137300662664670945932071370559755313057730129052864472974328368687365762581829354595230885394130382337607443332672119140625int);
    lemma_pow_adds(5, 348, 2);
    assert(pow(5, 350) == 43601508761683463371878950054372442606045150559341379593472512940507226406354453875558777689368134675948450254569016579903432516566616773648301784263993882826443253226321611824358209217184144064545733864880772134853259558440186083316802978515625int);
    lemma_pow_adds(5, 350, 1);
    assert(pow(5, 351) == 218007543808417316859394750271862213030225752796706897967362564702536132031772269377793888446840673379742251272845082899517162582833083868241508921319969414132216266131608059121791046085920720322728669324403860674266297792200930416584014892578125int);
}

proof fn lemma_pow_2_815()
    ensures
        pow(2, 815) == 0x800000000000000000000000000000000000000000000000000000000000000000000000000000000000000000000000000000000000000000000000000000000000000000000000000000000000000000000000000000000000000000000000000000000000int,
{
    lemma_pow1(2);
    lemma_pow_adds(2, 1, 1);
    assert(pow(2, 2) == 0x4int);
    lemma_pow_adds(2, 2, 2);
    assert(pow(2, 4) == 0x10int);
    lemma_pow_adds(2, 4, 4);
    assert(pow(2, 8) == 0x100int);
    lemma_pow_adds(2, 8, 8);
    assert(pow(2, 16) == 0x10000int);
    lemma_pow_adds(2, 16, 16);
    assert(pow(2, 32) == 0x100000000int);
    lemma_pow_adds(2, 32, 32);
    assert(pow(2, 64) == 0x10000000000000000int);
    lemma_pow_adds(2, 64, 64);
    assert(pow(2, 128) == 0x100000000000000000000000000000000int);
    lemma_pow_adds(2, 128, 128);
    assert(pow(2, 256) == 0x10000000000000000000000000000000000000000000000000000000000000000int);
    lemma_pow_adds(2, 256, 256);
    assert(pow(2, 512) == 0x100000000000000000000000000000000000000000000000000000000000000000000000000000000000000000000000000000000000000000000000000000000int);
    lemma_pow_adds(2, 512, 256);
    assert(pow(2, 768) == 0x1000000000000000000000000000000000000000000000000000000000000000000000000000000000000000000000000000000000000000000000000000000000000000000000000000000000000000000000000000000000000000000000000int);
    lemma_pow_adds(2, 768, 32);
    assert(pow(2, 800) == 0x100000000000000000000000000000000000000000000000000000000000000000000000000000000000000000000000000000000000000000000000000000000000000000000000000000000000000000000000000000000000000000000000000000000int);
    lemma_pow_adds(2, 800, 8);
    assert(pow(2, 808) == 0x10000000000000000000000000000000000000000000000000000000000000000000000000000000000000000000000000000000000000000000000000000000000000000000000000000000000000000000000000000000000000000000000000000000000int);
    lemma_pow_adds(2, 808, 4);
    assert(pow(2, 812) == 0x100000000000000000000000000000000000000000000000000000000000000000000000000000000000000000000000000000000000000000000000000000000000000000000000000000000000000000000000000000000000000000000000000000000000int);
    lemma_pow_adds(2, 812, 2);
    assert(pow(2, 814) == 0x400000000000000000000000000000000000000000000000000000000000000000000000000000000000000000000000000000000000000000000000000000000000000000000000000000000000000000000000000000000000000000000000000000000000int);
    lemma_pow_adds(2, 814, 1);
    assert(pow(2, 815) == 0x800000000000000000000000000000000000000000000000000000000000000000000000000000000000000000000000000000000000000000000000000000000000000000000000000000000000000000000000000000000000000000000000000000000000int);
}

proof fn lemma_pow_2_339()
    ensures
        pow(2, 339) == 0x8000000000000000000000000000000000000000000000000000000000000000000000000000000000000int,
{
    lemma_pow1(2);
    lemma_pow_adds(2, 1, 1);
    assert(pow(2, 2) == 0x4int);
    lemma_pow_adds(2, 2, 2);
    assert(pow(2, 4) == 0x10int);
    lemma_pow_adds(2, 4, 4);
    assert(pow(2, 8) == 0x100int);
    lemma_pow_adds(2, 8, 8);
    assert(pow(2, 16) == 0x10000int);
    lemma_pow_adds(2, 16, 16);
    assert(pow(2, 32) == 0x100000000int);
    lemma_pow_adds(2, 32, 32);
    assert(pow(2, 64) == 0x10000000000000000int);
    lemma_pow_adds(2, 64, 64);
    assert(pow(2, 128) == 0x100000000000000000000000000000000int);
    lemma_pow_adds(2, 128, 128);
    assert(pow(2, 256) == 0x10000000000000000000000000000000000000000000000000000000000000000int);
    lemma_pow_adds(2, 256, 64);
    assert(pow(2, 320) == 0x100000000000000000000000000000000000000000000000000000000000000000000000000000000int);
    lemma_pow_adds(2, 320, 16);
    assert(pow(2, 336) == 0x1000000000000000000000000000000000000000000000000000000000000000000000000000000000000int);
    lemma_pow_adds(2, 336, 2);
    assert(pow(2, 338) == 0x4000000000000000000000000000000000000000000000000000000000000000000000000000000000000int);
    lemma_pow_adds(2, 338, 1);
    assert(pow(2, 339) == 0x8000000000000000000000000000000000000000000000000000000000000000000000000000000000000int);
}

proof fn lemma_pow_5_146()
    ensures
        pow(5, 146) == 1121038771459853656738983666631932905024209553501212617405654627111832866148688481189310550689697265625int,
{
    lemma_pow1(5);
    lemma_pow_adds(5, 1, 1);
    assert(pow(5, 2) == 25int);
    lemma_pow_adds(5, 2, 2);
    assert(pow(5, 4) == 625int);
    lemma_pow_adds(5, 4, 4);
    assert(pow(5, 8) == 390625int);
    lemma_pow_adds(5, 8, 8);
    assert(pow(5, 16) == 152587890625int);
    lemma_pow_adds(5, 16, 16);
    assert(pow(5, 32) == 23283064365386962890625int);
    lemma_pow_adds(5, 32, 32);
    assert(pow(5, 64) == 542101086242752217003726400434970855712890625int);
    lemma_pow_adds(5, 64, 64);
    assert(pow(5, 128) == 293873587705571876992184134305561419454666389193021880377187926569604314863681793212890625int);
    lemma_pow_adds(5, 128, 16);
    assert(pow(5, 144) == 44841550858394146269559346665277316200968382140048504696226185084473314645947539247572422027587890625int);
    lemma_pow_adds(5, 144, 2);
    assert(pow(5, 146) == 1121038771459853656738983666631932905024209553501212617405654627111832866148688481189310550689697265625int);
}

proof fn lemma_pow_5_643()
    ensures
        pow(5, 643) == 273976168626050379969086638392640104078851090265504577909075576048826843914441842284268386458213067146986574281164907058366751128345766412792989257832401422572572110587975784957984784011558416727349437143275579318775339956706731557618152946958210597538448756708394069178446987637731556893602501844652940708635684472865892069738682944070120654300539525054140794173817831513982366491766184437984081650307373084936302110037331658531911671161651611328125int,
{
    lemma_pow1(5);
    lemma_pow_adds(5, 1, 1);
    assert(pow(5, 2) == 25int);
    lemma_pow_adds(5, 2, 2);
    assert(pow(5, 4) == 625int);
    lemma_pow_adds(5, 4, 4);
    assert(pow(5, 8) == 390625int);
    lemma_pow_adds(5, 8, 8);
    assert(pow(5, 16) == 152587890625int);
    lemma_pow_adds(5, 16, 16);
    assert(pow(5, 32) == 23283064365386962890625int);
    lemma_pow_adds(5, 32, 32);
    assert(pow(5, 64) == 542101086242752217003726400434970855712890625int);
    lemma_pow_adds(5, 64, 64);
    assert(pow(5, 128) == 293873587705571876992184134305561419454666389193021880377187926569604314863681793212890625int);
    lemma_pow_adds(5, 128, 128);
    assert(pow(5, 256) == 86361685550944446253863518628003995711160003644362813850237034701685918031624270579715075034722882265605472939461496635969950989468319466936530037770580747746862471103668212890625int);
    lemma_pow_adds(5, 256, 256);
    assert(pow(5, 512) == 7458340731200206743290965315462933837376471534600406894271518333206278385070118304936174890400427803361511603255836101453412728095225302660486164829592084691481260792318781377495204074266435262941446554365063914765414217260588507120031686823003222742297563699265350215337206058336516628646003612927433551846968657326499008153319891789578832685947418212890625int);
    lemma_pow_adds(5, 512, 128);
    assert(pow(5, 640) == 2191809349008403039752693107141120832630808722124036623272604608390614751315534738274147091665704537175892594249319256466934009026766131302343914062659211380580576884703806279663878272092467333818795497146204634550202719653653852460945223575665684780307590053667152553427575901101852455148820014757223525669085475782927136557909463552560965234404316200433126353390542652111858931934129475503872653202458984679490416880298653268255293369293212890625int);
    lemma_pow_adds(5, 640, 2);
    assert(pow(5, 642) == 54795233725210075993817327678528020815770218053100915581815115209765368782888368456853677291642613429397314856232981411673350225669153282558597851566480284514514422117595156991596956802311683345469887428655115863755067991341346311523630589391642119507689751341678813835689397527546311378720500368930588141727136894573178413947736588814024130860107905010828158834763566302796473298353236887596816330061474616987260422007466331706382334232330322265625int);
    lemma_pow_adds(5, 642, 1);
    assert(pow(5, 643) == 273976168626050379969086638392640104078851090265504577909075576048826843914441842284268386458213067146986574281164907058366751128345766412792989257832401422572572110587975784957984784011558416727349437143275579318775339956706731557618152946958210597538448756708394069178446987637731556893602501844652940708635684472865892069738682944070120654300539525054140794173817831513982366491766184437984081650307373084936302110037331658531911671161651611328125int);
}

proof fn lemma_pow_2_1493()
    ensures
        pow(2, 1493) == 0x20000000000000000000000000000000000000000000000000000000000000000000000000000000000000000000000000000000000000000000000000000000000000000000000000000000000000000000000000000000000000000000000000000000000000000000000000000000000000000000000000000000000000000000000000000000000000000000000000000000000000000000000000000000000000000000000000000000000000000000000000000000000000int,
{
    lemma_pow1(2);
    lemma_pow_adds(2, 1, 1);
    assert(pow(2, 2) == 0x4int);
    lemma_pow_adds(2, 2, 2);
    assert(pow(2, 4) == 0x10int);
    lemma_pow_adds(2, 4, 4);
    assert(pow(2, 8) == 0x100int);
    lemma_pow_adds(2, 8, 8);
    assert(pow(2, 16) == 0x10000int);
    lemma_pow_adds(2, 16, 16);
    assert(pow(2, 32) == 0x100000000int);
    lemma_pow_adds(2, 32, 32);
    assert(pow(2, 64) == 0x10000000000000000int);
    lemma_pow_adds(2, 64, 64);
    assert(pow(2, 128) == 0x100000000000000000000000000000000int);
    lemma_pow_adds(2, 128, 128);
    assert(pow(2, 256) == 0x10000000000000000000000000000000000000000000000000000000000000000int);
    lemma_pow_adds(2, 256, 256);
    assert(pow(2, 512) == 0x100000000000000000000000000000000000000000000000000000000000000000000000000000000000000000000000000000000000000000000000000000000int);
    lemma_pow_adds(2, 512, 512);
    assert(pow(2, 1024) == 0x10000000000000000000000000000000000000000000000000000000000000000000000000000000000000000000000000000000000000000000000000000000000000000000000000000000000000000000000000000000000000000000000000000000000000000000000000000000000000000000000000000000000000000int);
    lemma_pow_adds(2, 1024, 256);
    assert(pow(2, 1280) == 0x100000000000000000000000000000000000000000000000000000000000000000000000000000000000000000000000000000000000000000000000000000000000000000000000000000000000000000000000000000000000000000000000000000000000000000000000000000000000000000000000000000000000000000000000000000000000000000000000000000000000000000000000000000000int);
    lemma_pow_adds(2, 1280, 128);
    assert(pow(2, 1408) == 0x10000000000000000000000000000000000000000000000000000000000000000000000000000000000000000000000000000000000000000000000000000000000000000000000000000000000000000000000000000000000000000000000000000000000000000000000000000000000000000000000000000000000000000000000000000000000000000000000000000000000000000000000000000000000000000000000000000000000000000int);
    lemma_pow_adds(2, 1408, 64);
    assert(pow(2, 1472) == 0x100000000000000000000000000000000000000000000000000000000000000000000000000000000000000000000000000000000000000000000000000000000000000000000000000000000000000000000000000000000000000000000000000000000000000000000000000000000000000000000000000000000000000000000000000000000000000000000000000000000000000000000000000000000000000000000000000000000000000000000000000000000int);
    lemma_pow_adds(2, 1472, 16);
    assert(pow(2, 1488) == 0x1000000000000000000000000000000000000000000000000000000000000000000000000000000000000000000000000000000000000000000000000000000000000000000000000000000000000000000000000000000000000000000000000000000000000000000000000000000000000000000000000000000000000000000000000000000000000000000000000000000000000000000000000000000000000000000000000000000000000000000000000000000000000int);
    lemma_pow_adds(2, 1488, 4);
    assert(pow(2, 1492) == 0x10000000000000000000000000000000000000000000000000000000000000000000000000000000000000000000000000000000000000000000000000000000000000000000000000000000000000000000000000000000000000000000000000000000000000000000000000000000000000000000000000000000000000000000000000000000000000000000000000000000000000000000000000000000000000000000000000000000000000000000000000000000000000int);
    lemma_pow_adds(2, 1492, 1);
    assert(pow(2, 1493) == 0x20000000000000000000000000000000000000000000000000000000000000000000000000000000000000000000000000000000000000000000000000000000000000000000000000000000000000000000000000000000000000000000000000000000000000000000000000000000000000000000000000000000000000000000000000000000000000000000000000000000000000000000000000000000000000000000000000000000000000000000000000000000000000int);
}

proof fn lemma_pow_2_7804()
    ensures
        pow(2, 7804) == 0x10000000000000000000000000000000000000000000000000000000000000000000000000000000000000000000000000000000000000000000000000000000000000000000000000000000000000000000000000000000000000000000000000000000000000000000000000000000000000000000000000000000000000000000000000000000000000000000000000000000000000000000000000000000000000000000000000000000000000000000000000000000000000000000000000000000000000000000000000000000000000000000000000000000000000000000000000000000000000000000000000000000000000000000000000000000000000000000000000000000000000000000000000000000000000000000000000000000000000000000000000000000000000000000000000000000000000000000000000000000000000000000000000000000000000000000000000000000000000000000000000000000000000000000000000000000000000000000000000000000000000000000000000000000000000000000000000000000000000000000000000000000000000000000000000000000000000000000000000000000000000000000000000000000000000000000000000000000000000000000000000000000000000000000000000000000000000000000000000000000000000000000000000000000000000000000000000000000000000000000000000000000000000000000000000000000000000000000000000000000000000000000000000000000000000000000000000000000000000000000000000000000000000000000000000000000000000000000000000000000000000000000000000000000000000000000000000000000000000000000000000000000000000000000000000000000000000000000000000000000000000000000000000000000000000000000000000000000000000000000000000000000000000000000000000000000000000000000000000000000000000000000000000000000000000000000000000000000000000000000000000000000000000000000000000000000000000000000000000000000000000000000000000000000000000000000000000000000000000000000000000000000000000000000000000000000000000000000000000000000000000000000000000000000000000000000000000000000000000000000000000000000000000000000000000000000000000000000000000000000000000000000000000000000000000000000000000000000000000000000000000000000000000000000000000000000int,
{
    lemma_pow1(2);
    lemma_pow_adds(2, 1, 1);
    assert(pow(2, 2) == 0x4int);
    lemma_pow_adds(2, 2, 2);
    assert(pow(2, 4) == 0x10int);
    lemma_pow_adds(2, 4, 4);
    assert(pow(2, 8) == 0x100int);
    lemma_pow_adds(2, 8, 8);
    assert(pow(2, 16) == 0x10000int);
    lemma_pow_adds(2, 16, 16);
    assert(pow(2, 32) == 0x100000000int);
    lemma_pow_adds(2, 32, 32);
    assert(pow(2, 64) == 0x10000000000000000int);
    lemma_pow_adds(2, 64, 64);
    assert(pow(2, 128) == 0x100000000000000000000000000000000int);
    lemma_pow_adds(2, 128, 128);
    assert(pow(2, 256) == 0x10000000000000000000000000000000000000000000000000000000000000000int);
    lemma_pow_adds(2, 256, 256);
    assert(pow(2, 512) == 0x100000000000000000000000000000000000000000000000000000000000000000000000000000000000000000000000000000000000000000000000000000000int);
    lemma_pow_adds(2, 512, 512);
    assert(pow(2, 1024) == 0x10000000000000000000000000000000000000000000000000000000000000000000000000000000000000000000000000000000000000000000000000000000000000000000000000000000000000000000000000000000000000000000000000000000000000000000000000000000000000000000000000000000000000000int);
    lemma_pow_adds(2, 1024, 1024);
    assert(pow(2, 2048) == 0x100000000000000000000000000000000000000000000000000000000000000000000000000000000000000000000000000000000000000000000000000000000000000000000000000000000000000000000000000000000000000000000000000000000000000000000000000000000000000000000000000000000000000000000000000000000000000000000000000000000000000000000000000000000000000000000000000000000000000000000000000000000000000000000000000000000000000000000000000000000000000000000000000000000000000000000000000000000000000000000000000000000000000000000000000000000int);
    lemma_pow_adds(2, 2048, 2048);
    assert(pow(2, 4096) == 0x10000000000000000000000000000000000000000000000000000000000000000000000000000000000000000000000000000000000000000000000000000000000000000000000000000000000000000000000000000000000000000000000000000000000000000000000000000000000000000000000000000000000000000000000000000000000000000000000000000000000000000000000000000000000000000000000000000000000000000000000000000000000000000000000000000000000000000000000000000000000000000000000000000000000000000000000000000000000000000000000000000000000000000000000000000000000000000000000000000000000000000000000000000000000000000000000000000000000000000000000000000000000000000000000000000000000000000000000000000000000000000000000000000000000000000000000000000000000000000000000000000000000000000000000000000000000000000000000000000000000000000000000000000000000000000000000000000000000000000000000000000000000000000000000000000000000000000000000000000000000000000000000000000000000000000000000000000000000000000000000000000000000000000000000000000000000000000000000000000000000000000int);
    lemma_pow_adds(2, 4096, 2048);
    assert(pow(2, 6144) == 0x1000000000000000000000000000000000000000000000000000000000000000000000000000000000000000000000000000000000000000000000000000000000000000000000000000000000000000000000000000000000000000000000000000000000000000000000000000000000000000000000000000000000000000000000000000000000000000000000000000000000000000000000000000000000000000000000000000000000000000000000000000000000000000000000000000000000000000000000000000000000000000000000000000000000000000000000000000000000000000000000000000000000000000000000000000000000000000000000000000000000000000000000000000000000000000000000000000000000000000000000000000000000000000000000000000000000000000000000000000000000000000000000000000000000000000000000000000000000000000000000000000000000000000000000000000000000000000000000000000000000000000000000000000000000000000000000000000000000000000000000000000000000000000000000000000000000000000000000000000000000000000000000000000000000000000000000000000000000000000000000000000000000000000000000000000000000000000000000000000000000000000000000000000000000000000000000000000000000000000000000000000000000000000000000000000000000000000000000000000000000000000000000000000000000000000000000000000000000000000000000000000000000000000000000000000000000000000000000000000000000000000000000000000000000000000000000000000000000000000000000000000000000000000000000000000000000000000000000000000000000000000000000000000000000000000000000000000000000000000000000000000000000000000000000000000000000000000000000000000000000000000000000000000000000000000000000000int);
    lemma_pow_adds(2, 6144, 1024);
    assert(pow(2, 7168) == 0x10000000000000000000000000000000000000000000000000000000000000000000000000000000000000000000000000000000000000000000000000000000000000000000000000000000000000000000000000000000000000000000000000000000000000000000000000000000000000000000000000000000000000000000000000000000000000000000000000000000000000000000000000000000000000000000000000000000000000000000000000000000000000000000000000000000000000000000000000000000000000000000000000000000000000000000000000000000000000000000000000000000000000000000000000000000000000000000000000000000000000000000000000000000000000000000000000000000000000000000000000000000000000000000000000000000000000000000000000000000000000000000000000000000000000000000000000000000000000000000000000000000000000000000000000000000000000000000000000000000000000000000000000000000000000000000000000000000000000000000000000000000000000000000000000000000000000000000000000000000000000000000000000000000000000000000000000000000000000000000000000000000000000000000000000000000000000000000000000000000000000000000000000000000000000000000000000000000000000000000000000000000000000000000000000000000000000000000000000000000000000000000000000000000000000000000000000000000000000000000000000000000000000000000000000000000000000000000000000000000000000000000000000000000000000000000000000000000000000000000000000000000000000000000000000000000000000000000000000000000000000000000000000000000000000000000000000000000000000000000000000000000000000000000000000000000000000000000000000000000000000000000000000000000000000000000000000000000000000000000000000000000000000000000000000000000000000000000000000000000000000000000000000000000000000000000000000000000000000000000000000000000000000000000000000000000000000000000000000000000000000000000000000000000000000000000000000000000000000000int);
    lemma_pow_adds(2, 7168, 512);
    assert(pow(2, 7680) == 0x1000000000000000000000000000000000000000000000000000000000000000000000000000000000000000000000000000000000000000000000000000000000000000000000000000000000000000000000000000000000000000000000000000000000000000000000000000000000000000000000000000000000000000000000000000000000000000000000000000000000000000000000000000000000000000000000000000000000000000000000000000000000000000000000000000000000000000000000000000000000000000000000000000000000000000000000000000000000000000000000000000000000000000000000000000000000000000000000000000000000000000000000000000000000000000000000000000000000000000000000000000000000000000000000000000000000000000000000000000000000000000000000000000000000000000000000000000000000000000000000000000000000000000000000000000000000000000000000000000000000000000000000000000000000000000000000000000000000000000000000000000000000000000000000000000000000000000000000000000000000000000000000000000000000000000000000000000000000000000000000000000000000000000000000000000000000000000000000000000000000000000000000000000000000000000000000000000000000000000000000000000000000000000000000000000000000000000000000000000000000000000000000000000000000000000000000000000000000000000000000000000000000000000000000000000000000000000000000000000000000000000000000000000000000000000000000000000000000000000000000000000000000000000000000000000000000000000000000000000000000000000000000000000000000000000000000000000000000000000000000000000000000000000000000000000000000000000000000000000000000000000000000000000000000000000000000000000000000000000000000000000000000000000000000000000000000000000000000000000000000000000000000000000000000000000000000000000000000000000000000000000000000000000000000000000000000000000000000000000000000000000000000000000000000000000000000000000000000000000000000000000000000000000000000000000000000000000000000000000000000000000000000000000000000000000000000000000000000000000000000000int);
    lemma_pow_adds(2, 7680, 64);
    assert(pow(2, 7744) == 0x10000000000000000000000000000000000000000000000000000000000000000000000000000000000000000000000000000000000000000000000000000000000000000000000000000000000000000000000000000000000000000000000000000000000000000000000000000000000000000000000000000000000000000000000000000000000000000000000000000000000000000000000000000000000000000000000000000000000000000000000000000000000000000000000000000000000000000000000000000000000000000000000000000000000000000000000000000000000000000000000000000000000000000000000000000000000000000000000000000000000000000000000000000000000000000000000000000000000000000000000000000000000000000000000000000000000000000000000000000000000000000000000000000000000000000000000000000000000000000000000000000000000000000000000000000000000000000000000000000000000000000000000000000000000000000000000000000000000000000000000000000000000000000000000000000000000000000000000000000000000000000000000000000000000000000000000000000000000000000000000000000000000000000000000000000000000000000000000000000000000000000000000000000000000000000000000000000000000000000000000000000000000000000000000000000000000000000000000000000000000000000000000000000000000000000000000000000000000000000000000000000000000000000000000000000000000000000000000000000000000000000000000000000000000000000000000000000000000000000000000000000000000000000000000000000000000000000000000000000000000000000000000000000000000000000000000000000000000000000000000000000000000000000000000000000000000000000000000000000000000000000000000000000000000000000000000000000000000000000000000000000000000000000000000000000000000000000000000000000000000000000000000000000000000000000000000000000000000000000000000000000000000000000000000000000000000000000000000000000000000000000000000000000000000000000000000000000000000000000000000000000000000000000000000000000000000000000000000000000000000000000000000000000000000000000000000000000000000000000000000000000000000000000int);
    lemma_pow_adds(2, 7744, 32);
    assert(pow(2, 7776) == 0x1000000000000000000000000000000000000000000000000000000000000000000000000000000000000000000000000000000000000000000000000000000000000000000000000000000000000000000000000000000000000000000000000000000000000000000000000000000000000000000000000000000000000000000000000000000000000000000000000000000000000000000000000000000000000000000000000000000000000000000000000000000000000000000000000000000000000000000000000000000000000000000000000000000000000000000000000000000000000000000000000000000000000000000000000000000000000000000000000000000000000000000000000000000000000000000000000000000000000000000000000000000000000000000000000000000000000000000000000000000000000000000000000000000000000000000000000000000000000000000000000000000000000000000000000000000000000000000000000000000000000000000000000000000000000000000000000000000000000000000000000000000000000000000000000000000000000000000000000000000000000000000000000000000000000000000000000000000000000000000000000000000000000000000000000000000000000000000000000000000000000000000000000000000000000000000000000000000000000000000000000000000000000000000000000000000000000000000000000000000000000000000000000000000000000000000000000000000000000000000000000000000000000000000000000000000000000000000000000000000000000000000000000000000000000000000000000000000000000000000000000000000000000000000000000000000000000000000000000000000000000000000000000000000000000000000000000000000000000000000000000000000000000000000000000000000000000000000000000000000000000000000000000000000000000000000000000000000000000000000000000000000000000000000000000000000000000000000000000000000000000000000000000000000000000000000000000000000000000000000000000000000000000000000000000000000000000000000000000000000000000000000000000000000000000000000000000000000000000000000000000000000000000000000000000000000000000000000000000000000000000000000000000000000000000000000000000000000000000000000000000000000000000000000000000int);
    lemma_pow_adds(2, 7776, 16);
    assert(pow(2, 7792) == 0x10000000000000000000000000000000000000000000000000000000000000000000000000000000000000000000000000000000000000000000000000000000000000000000000000000000000000000000000000000000000000000000000000000000000000000000000000000000000000000000000000000000000000000000000000000000000000000000000000000000000000000000000000000000000000000000000000000000000000000000000000000000000000000000000000000000000000000000000000000000000000000000000000000000000000000000000000000000000000000000000000000000000000000000000000000000000000000000000000000000000000000000000000000000000000000000000000000000000000000000000000000000000000000000000000000000000000000000000000000000000000000000000000000000000000000000000000000000000000000000000000000000000000000000000000000000000000000000000000000000000000000000000000000000000000000000000000000000000000000000000000000000000000000000000000000000000000000000000000000000000000000000000000000000000000000000000000000000000000000000000000000000000000000000000000000000000000000000000000000000000000000000000000000000000000000000000000000000000000000000000000000000000000000000000000000000000000000000000000000000000000000000000000000000000000000000000000000000000000000000000000000000000000000000000000000000000000000000000000000000000000000000000000000000000000000000000000000000000000000000000000000000000000000000000000000000000000000000000000000000000000000000000000000000000000000000000000000000000000000000000000000000000000000000000000000000000000000000000000000000000000000000000000000000000000000000000000000000000000000000000000000000000000000000000000000000000000000000000000000000000000000000000000000000000000000000000000000000000000000000000000000000000000000000000000000000000000000000000000000000000000000000000000000000000000000000000000000000000000000000000000000000000000000000000000000000000000000000000000000000000000000000000000000000000000000000000000000000000000000000000000000000000000000000000000000int);
    lemma_pow_adds(2, 7792, 8);
    assert(pow(2, 7800) == 0x1000000000000000000000000000000000000000000000000000000000000000000000000000000000000000000000000000000000000000000000000000000000000000000000000000000000000000000000000000000000000000000000000000000000000000000000000000000000000000000000000000000000000000000000000000000000000000000000000000000000000000000000000000000000000000000000000000000000000000000000000000000000000000000000000000000000000000000000000000000000000000000000000000000000000000000000000000000000000000000000000000000000000000000000000000000000000000000000000000000000000000000000000000000000000000000000000000000000000000000000000000000000000000000000000000000000000000000000000000000000000000000000000000000000000000000000000000000000000000000000000000000000000000000000000000000000000000000000000000000000000000000000000000000000000000000000000000000000000000000000000000000000000000000000000000000000000000000000000000000000000000000000000000000000000000000000000000000000000000000000000000000000000000000000000000000000000000000000000000000000000000000000000000000000000000000000000000000000000000000000000000000000000000000000000000000000000000000000000000000000000000000000000000000000000000000000000000000000000000000000000000000000000000000000000000000000000000000000000000000000000000000000000000000000000000000000000000000000000000000000000000000000000000000000000000000000000000000000000000000000000000000000000000000000000000000000000000000000000000000000000000000000000000000000000000000000000000000000000000000000000000000000000000000000000000000000000000000000000000000000000000000000000000000000000000000000000000000000000000000000000000000000000000000000000000000000000000000000000000000000000000000000000000000000000000000000000000000000000000000000000000000000000000000000000000000000000000000000000000000000000000000000000000000000000000000000000000000000000000000000000000000000000000000000000000000000000000000000000000000000000000000000000000000000000000000int);
    lemma_pow_adds(2, 7800, 4);
    assert(pow(2, 7804) == 0x10000000000000000000000000000000000000000000000000000000000000000000000000000000000000000000000000000000000000000000000000000000000000000000000000000000000000000000000000000000000000000000000000000000000000000000000000000000000000000000000000000000000000000000000000000000000000000000000000000000000000000000000000000000000000000000000000000000000000000000000000000000000000000000000000000000000000000000000000000000000000000000000000000000000000000000000000000000000000000000000000000000000000000000000000000000000000000000000000000000000000000000000000000000000000000000000000000000000000000000000000000000000000000000000000000000000000000000000000000000000000000000000000000000000000000000000000000000000000000000000000000000000000000000000000000000000000000000000000000000000000000000000000000000000000000000000000000000000000000000000000000000000000000000000000000000000000000000000000000000000000000000000000000000000000000000000000000000000000000000000000000000000000000000000000000000000000000000000000000000000000000000000000000000000000000000000000000000000000000000000000000000000000000000000000000000000000000000000000000000000000000000000000000000000000000000000000000000000000000000000000000000000000000000000000000000000000000000000000000000000000000000000000000000000000000000000000000000000000000000000000000000000000000000000000000000000000000000000000000000000000000000000000000000000000000000000000000000000000000000000000000000000000000000000000000000000000000000000000000000000000000000000000000000000000000000000000000000000000000000000000000000000000000000000000000000000000000000000000000000000000000000000000000000000000000000000000000000000000000000000000000000000000000000000000000000000000000000000000000000000000000000000000000000000000000000000000000000000000000000000000000000000000000000000000000000000000000000000000000000000000000000000000000000000000000000000000000000000000000000000000000000000000000000000000000000int);
}

proof fn lemma_pow_5_3361()
    ensures
        pow(5, 3361) == 1730551680258914431499807031115776624288475431144629985313619822775375603729374054798588173607847538618426832289867283150939805373077653816380943925705321696532154554068453956658294673993923375587936347266066460359841024839535058181062402128887146586461221650685586186632972148248813883022205891465134000017162706127159094515209427184912688185347632612688175864899716848398097575049662712075492123626408535776729864147918067011737102652677958572573035071819354602272514747376562763402803458731066119939362655904891494091943024469628925688535901915326518299850323300395167330956440541770566980438351436250407864845559451433840519579304518587425041261558150432288831324234795119503626237147128453287164520465870930225420143562006153829133630371753595255767867933843512960763849943799646528996640601551530964280753216319451915741913166305429913689749126091986534361312677069635345721376786727757171521607592155782539605251084504769954968548785901975427894774718427592451232273390960766734263993886370992550969082238116164141584625903462115353848356807126226913320780501443238102479529163318090627754940882607028240440467152643346588973317007091469928237234117470378254318863694997892216490811928888624102904433422369277290535382916234368980604228776172670741947275475995350559445741059285626398050900601599045509413851371768594152518600700083591758489353306045223058971858300659907630870886632996462602608558847633993375802777828097445227735369572982962530630011080278577602397172720131405526964053004216096634713404323614240385939615886310595681170257691530545928789972226281779739355077266598313769984816107810761510981394116968159828143679492841476249749578964229020705518326031932855245777246548541292567456172821198588921832266223152313128025702884611629735169855561263084724188927832414159266847499710975294355300829964711498009206666050705353828961373245925552925543246833325519341382032721189697936401732789549045363937357145973815594248657050588021096341404457554293715379277223984188702213446672235496973497683046544643597426412048924152821777597355004824659158368193698712055942042102738250055411435669082855028838080220011472871720172906708975490888842363755824997553975141685573344835517317835561185691674135397994224950998367181755051868160086931942079930274239331601466468342573007484845535114349919514342701631903764791786670684814453125int,
{
    lemma_pow1(5);
    lemma_pow_adds(5, 1, 1);
    assert(pow(5, 2) == 25int);
    lemma_pow_adds(5, 2, 2);
    assert(pow(5, 4) == 625int);
    lemma_pow_adds(5, 4, 4);
    assert(pow(5, 8) == 390625int);
    lemma_pow_adds(5, 8, 8);
    assert(pow(5, 16) == 152587890625int);
    lemma_pow_adds(5, 16, 16);
    assert(pow(5, 32) == 23283064365386962890625int);
    lemma_pow_adds(5, 32, 32);
    assert(pow(5, 64) == 542101086242752217003726400434970855712890625int);
    lemma_pow_adds(5, 64, 64);
    assert(pow(5, 128) == 293873587705571876992184134305561419454666389193021880377187926569604314863681793212890625int);
    lemma_pow_adds(5, 128, 128);
    assert(pow(5, 256) == 86361685550944446253863518628003995711160003644362813850237034701685918031624270579715075034722882265605472939461496635969950989468319466936530037770580747746862471103668212890625int);
    lemma_pow_adds(5, 256, 256);
    assert(pow(5, 512) == 7458340731200206743290965315462933837376471534600406894271518333206278385070118304936174890400427803361511603255836101453412728095225302660486164829592084691481260792318781377495204074266435262941446554365063914765414217260588507120031686823003222742297563699265350215337206058336516628646003612927433551846968657326499008153319891789578832685947418212890625int);
    lemma_pow_adds(5, 512, 512);
    assert(pow(5, 1024) == 55626846462680034577255817933310101605480399511558295763833185422180110870347954896357078975312775514101683493275895275128810854038836502721400309634442970528269449838300058261990253686064590901798039126173562593355209381270166265416453973718012279499214790991212515897719252957621869994522193843748736289511290126272884996414561770466127838448395124802899527144151299810833802858809753719892490239782222290074816037776586657834841586939662825734294051183140794537141608771803070715941051121170285190347786926570042246331102750604036185540464179153763503857127117918822547579033069472418242684328083352174724579376695971173152319349449321466491373527284227385153411689217559966957882267024615430273115634918212890625int);
    lemma_pow_adds(5, 1024, 1024);
    assert(pow(5, 2048) == 3094346047382578275480183369971197853892556303884969045954098458217021364691229981426352946556259795253241437925401811752196686587974858300172368368138733125186061074284643736990470985187297054554299280845687415532065869107175268273614914079919451498396758201719634752768716320786430383849047583971326289816201205757042613947819180980672005101042630551776963848492580515763228422194205105528219980245495047005616012864622912201600352471713015158045534728307404176895018366960267524059270145304825352506681132363099774878756679292686131556110845011043463378706055597131761908315431198704846311568948881773397779068614881830957489568601480084153293693894869108316525162755529109279622020185143950303962042574196734629855975332530865630162585454286462276973637232439143739157810226810193065511912215461090477312372972236985158496357200031595045778223229181777984057608080727232899920794990550253812318348125460488862923975738912839914768937870513971019200450747608740083773989106089243768942044904738561199032074943292242626646859106725039882814425691037346493790407231123914098041407526301841706149525214943424226821613989004317509345843872795604700727869464468991967905694380830535928512027512496833244483273618867296842941691082751697737211017236389627905793492664437797515223884794021082891431511614939687909024149023453904144326123741074082132970518886413995393818295837875447436245008301682057894055333235883153975009918212890625int);
    lemma_pow_adds(5, 2048, 1024);
    assert(pow(5, 3072) == 172128712480151521010047922430516813262435247589840996395259120722904008028263312406443686283698103445222969567717849514875811240128732676128411481241576385345842559831062012065406921563900368277082994274368269180958599260397991332350408753942216609951414288649466655281761796419478065307511914831952926451040961996605129920230451541584947586490074178808812390116189334842640855236038341350969724087805584246831023307520187065695035097683210688889962779583469219813975699160901592318765202540077233092692301393547755983582470488484679495474250936739651857750711538067850342396565985982110770154387992799893376402518807207269405935993269448113214727736843216243376811178451944136074316908277875687151471342421977069722409398936475840991288385472405641881299609699558537809333499206072336810711697953815727318426864200682554705176537486228776261493678996095805180341839042404673721400195045738469949736243094663526991019216688418133117285696565028119537490870308994276969457718585148276516791002440730377562590147802557812075928403121863541457154206797314547365738857858534284428880934065694806944211226566500572020505683555858898223012636044851924736866134120285173942573267287941587030737671460503854759857164055100956322806160671122334654423374985123906700527521437631201282828394394727623714866127780914491626828946268073730511277646492739263547325669646899964242824612419618757390303744196099739055994072832922994009270973155613482434398099635687912137836460894908829112828204396970531058332561671775640886885046251046195474969578390891427561336469647143164656785122769368776206407777037586467092792450256242516500795439727010561231118916047226350363962960536741949447191427146572076046317153508048460993778706281857641190340679610191391222782965438096861171566678458270220939072379396277433134933870155164741769353929019934629906482827094945295475530871630859539866166305863116544234511465075706495046667389651168436113176635418855314876790193076593991270463908863734119784506101263988847782660432289134752231504816605780482432721210480394918025658665030831404348299502343442087910907160734236238803216735571144369032481336034834384918212890625int);
    lemma_pow_adds(5, 3072, 256);
    assert(pow(5, 3328) == 14865325741499772591508206857906229981920562492931371265885914884395108344267834399821696145236151014640480535307713546627316591483947204019531486477028420839529680844282946978258354143869765201760222767274908915615995186889853445466240527357542142927217966723803457300355935464015038596742287891242552108662754523054014256663594928700186680743027336925037499971281596367060038146910413848389805908162027166192601448683662008605894608086093357778488056409850278473175076239320077731412853059931229288706352220390420507106945014384767962175751961696382314518805320540448055125811041054946214232720382325700261292345731869464090678545521171516029338139685676217857585927297634527056972883908914094358870623944876658950554848916882757693748228920868027587887496287009959496465733375341839636800974155059184700634358452677718933512129251507261253035150374019324905508436391288585849037933654178567814229534331308784289784756315633038625186619488058980649207327089868236244118178227815030285497152744614706258943642639686819274147763743528477239516320459892248673175558021786376900981348531858884182743161986421123024880462111130827103267101524196926844692774928061393702098180651795331717521978238126636296823760324970801596009919912127444485784041825927449771279207051405727401749523472232325005005792454429251535496303542301699129928452077083462137853805627307424270618421571360876985942596174486722723781609080558897053907137035264874308549368916870618468498591731828242743387896071655495121648507641437370325739459805496325954986136925012125097810199586032301898357751129257111322410921983185661621662503199242461693041265193730090270356167621720013210070339682266395568616114071634129897030632053827456165584272360743989881234967652009245823243709873639622747631341281337346684937250331045965556890696556016683039980937880185436049423475185945944854994951476999230131850736365577336986902579959023277697928260497688000852262733469258872099265575448390736356288794791808623303864655826259514594198872537382981422959054833365780109844459033499176708081794450403647666599076553325123115183986605431712072524608046237481326337382848747521457658691795560617446066247847261208187987206456673007662155754758690745596705447102046922280322810379190075271313062554130416422133491636481010395574343940783279549577855505049228668212890625int);
    lemma_pow_adds(5, 3328, 32);
    assert(pow(5, 3360) == 346110336051782886299961406223155324857695086228925997062723964555075120745874810959717634721569507723685366457973456630187961074615530763276188785141064339306430910813690791331658934798784675117587269453213292071968204967907011636212480425777429317292244330137117237326594429649762776604441178293026800003432541225431818903041885436982537637069526522537635172979943369679619515009932542415098424725281707155345972829583613402347420530535591714514607014363870920454502949475312552680560691746213223987872531180978298818388604893925785137707180383065303659970064660079033466191288108354113396087670287250081572969111890286768103915860903717485008252311630086457766264846959023900725247429425690657432904093174186045084028712401230765826726074350719051153573586768702592152769988759929305799328120310306192856150643263890383148382633261085982737949825218397306872262535413927069144275357345551434304321518431156507921050216900953990993709757180395085578954943685518490246454678192153346852798777274198510193816447623232828316925180692423070769671361425245382664156100288647620495905832663618125550988176521405648088093430528669317794663401418293985647446823494075650863772738999578443298162385777724820580886684473855458107076583246873796120845755234534148389455095199070111889148211857125279610180120319809101882770274353718830503720140016718351697870661209044611794371660131981526174177326599292520521711769526798675160555565619489045547073914596592506126002216055715520479434544026281105392810600843219326942680864722848077187923177262119136234051538306109185757994445256355947871015453319662753996963221562152302196278823393631965628735898568295249949915792845804141103665206386571049155449309708258513491234564239717784366453244630462625605140576922325947033971112252616944837785566482831853369499942195058871060165992942299601841333210141070765792274649185110585108649366665103868276406544237939587280346557909809072787471429194763118849731410117604219268280891510858743075855444796837740442689334447099394699536609308928719485282409784830564355519471000964931831673638739742411188408420547650011082287133816571005767616044002294574344034581341795098177768472751164999510795028337114668967103463567112237138334827079598844990199673436351010373632017386388415986054847866320293293668514601496969107022869983902868540326380752958357334136962890625int);
    lemma_pow_adds(5, 3360, 1);
    assert(pow(5, 3361) == 1730551680258914431499807031115776624288475431144629985313619822775375603729374054798588173607847538618426832289867283150939805373077653816380943925705321696532154554068453956658294673993923375587936347266066460359841024839535058181062402128887146586461221650685586186632972148248813883022205891465134000017162706127159094515209427184912688185347632612688175864899716848398097575049662712075492123626408535776729864147918067011737102652677958572573035071819354602272514747376562763402803458731066119939362655904891494091943024469628925688535901915326518299850323300395167330956440541770566980438351436250407864845559451433840519579304518587425041261558150432288831324234795119503626237147128453287164520465870930225420143562006153829133630371753595255767867933843512960763849943799646528996640601551530964280753216319451915741913166305429913689749126091986534361312677069635345721376786727757171521607592155782539605251084504769954968548785901975427894774718427592451232273390960766734263993886370992550969082238116164141584625903462115353848356807126226913320780501443238102479529163318090627754940882607028240440467152643346588973317007091469928237234117470378254318863694997892216490811928888624102904433422369277290535382916234368980604228776172670741947275475995350559445741059285626398050900601599045509413851371768594152518600700083591758489353306045223058971858300659907630870886632996462602608558847633993375802777828097445227735369572982962530630011080278577602397172720131405526964053004216096634713404323614240385939615886310595681170257691530545928789972226281779739355077266598313769984816107810761510981394116968159828143679492841476249749578964229020705518326031932855245777246548541292567456172821198588921832266223152313128025702884611629735169855561263084724188927832414159266847499710975294355300829964711498009206666050705353828961373245925552925543246833325519341382032721189697936401732789549045363937357145973815594248657050588021096341404457554293715379277223984188702213446672235496973497683046544643597426412048924152821777597355004824659158368193698712055942042102738250055411435669082855028838080220011472871720172906708975490888842363755824997553975141685573344835517317835561185691674135397994224950998367181755051868160086931942079930274239331601466468342573007484845535114349919514342701631903764791786670684814453125int);
}

/// Four comparisons of a power of two with a power of five. They bound
/// `log2(5)` between `7804 / 3361` and `1493 / 643`, and between `815 / 351`
/// and `339 / 146`.
pub proof fn lemma_powers_of_two_and_five()
    ensures
        pow(5, 351) < pow(2, 815),
        pow(2, 339) < pow(5, 146),
        pow(5, 643) < pow(2, 1493),
        pow(2, 7804) < pow(5, 3361),
{
    lemma_pow_5_351();
    lemma_pow_2_815();
    lemma_pow_2_339();
    lemma_pow_5_146();
    lemma_pow_5_643();
    lemma_pow_2_1493();
    lemma_pow_2_7804();
    lemma_pow_5_3361();
}

} // verus!
