//! The generator `G` of the `2^40` roots of unity has order exactly `2^40`:
//! `G^(2^39) = M - 1` and `G^(2^40) = 1` modulo `M`, evaluated one squaring at
//! a time, each with the quotient of its reduction.
use vstd::prelude::*;
use vstd::arithmetic::power::pow;
use crate::primality::{pow_mod, lemma_pow_mod_base, lemma_pow_mod_digit, lemma_pow_mod_is_pow};

verus! {

/// One squaring of `G^e mod M`.
proof fn squaring(e: nat, eh: nat, bit: nat, h: int, q: int, r: int)
    requires
        e == 2 * eh + bit,
        bit == 0 || bit == 1,
        eh > 0 || bit == 1,
        pow_mod(23953097886125630542083529559205016746, eh, 340282366920938463463374557953744961537) == h,
        0 <= r < 340282366920938463463374557953744961537,
        bit == 0 ==> h * h == 340282366920938463463374557953744961537 * q + r,
        bit == 1 ==> h * h * 23953097886125630542083529559205016746 == 340282366920938463463374557953744961537 * q + r,
    ensures
        pow_mod(23953097886125630542083529559205016746, e, 340282366920938463463374557953744961537) == r,
{
    lemma_pow_mod_digit(23953097886125630542083529559205016746, 340282366920938463463374557953744961537, e, eh, bit, h, q, r);
}

/// `G^(2^39) = M - 1` and `G^(2^40) = 1` modulo `M`.
pub proof fn lemma_generator_order()
    ensures
        pow(23953097886125630542083529559205016746, 549755813888) % 340282366920938463463374557953744961537 == 340282366920938463463374557953744961536,
        pow(23953097886125630542083529559205016746, 1099511627776) % 340282366920938463463374557953744961537 == 1,
{
    lemma_pow_mod_base(23953097886125630542083529559205016746, 340282366920938463463374557953744961537);
    squaring(1, 0, 1, 1, 0int, 23953097886125630542083529559205016746);
    squaring(2, 1, 0, 23953097886125630542083529559205016746, 1686102349451512992577904068123346632int, 35350638386970032172984936585581935132);
    squaring(4, 2, 0, 35350638386970032172984936585581935132, 3672443111507650331396789844224809073int, 299954005975610588960127445028302232223);
    squaring(8, 4, 0, 299954005975610588960127445028302232223, 264405136578002319102967849755652032417int, 268766450299833026803380043897077376800);
    squaring(16, 8, 0, 268766450299833026803380043897077376800, 212280775699305808600045106713987297451int, 89174229732314908188995092058605097813);
    squaring(32, 16, 0, 89174229732314908188995092058605097813, 23368954789829769977892643732864370097int, 143218246544836534011030291670299423880);
    squaring(64, 32, 0, 143218246544836534011030291670299423880, 60277781446557399292419920951944013930int, 57965223245286836778812812814672043990);
    squaring(128, 64, 0, 57965223245286836778812812814672043990, 9874055879764699872224948784433098001int, 113786451272006480597838504530998532563);
    squaring(256, 128, 0, 113786451272006480597838504530998532563, 38048861039234826539439163523037690440int, 309289104524954779508682525960258742689);
    squaring(512, 256, 0, 309289104524954779508682525960258742689, 281118739837830276365487367343197029868int, 288816269265998269031362754590810763605);
    squaring(1024, 512, 0, 288816269265998269031362754590810763605, 245134175324783434557935413263580479084int, 202477457160817175448865276649579603917);
    squaring(2048, 1024, 0, 202477457160817175448865276649579603917, 120479709334559393790030249372571046249int, 291002859220333128737256428414248618176);
    squaring(4096, 2048, 0, 291002859220333128737256428414248618176, 248859983080123203925089655286347129210int, 262210191456112222089946877103618371206);
    squaring(8192, 4096, 0, 262210191456112222089946877103618371206, 202050388697999861801841254803363789527int, 169373083560288093220735695737231471437);
    squaring(16384, 8192, 0, 169373083560288093220735695737231471437, 84304225617972013112818052472229640660int, 317147576029044052645335895261115550549);
    squaring(32768, 16384, 0, 317147576029044052645335895261115550549, 295585651090959213709839342331360541757int, 171943168142144822891930992597926800892);
    squaring(65536, 32768, 0, 171943168142144822891930992597926800892, 86882118924566315143841291568497437410int, 21541544435346836569580739457897096494);
    squaring(131072, 65536, 0, 21541544435346836569580739457897096494, 1363685520524892001180828348423097803int, 129999756949660917902024189910922888825);
    squaring(262144, 131072, 0, 129999756949660917902024189910922888825, 49664450614619886838548446602897371936int, 282895836292207208096400573424606654993);
    squaring(524288, 262144, 0, 282895836292207208096400573424606654993, 235187191495178360676096503325109477072int, 296306845119133820321445521995708450385);
    squaring(1048576, 524288, 0, 296306845119133820321445521995708450385, 258014387459733909161988607545862459320int, 273165856257350751056968870452379473385);
    squaring(2097152, 1048576, 0, 273165856257350751056968870452379473385, 219287251643423532238130131203928242161int, 283839073377153370490835339938956596768);
    squaring(4194304, 2097152, 0, 283839073377153370490835339938956596768, 236758137968164296433986570517974105205int, 105008128617997753376638997239831545739);
    squaring(8388608, 4194304, 0, 105008128617997753376638997239831545739, 32404579689596183582375582324811201237int, 212059004665593815414574723988717234852);
    squaring(16777216, 8388608, 0, 212059004665593815414574723988717234852, 132152076719892117759204761834908305615int, 58939217512625066836357447684907331649);
    squaring(33554432, 16777216, 0, 58939217512625066836357447684907331649, 10208672851413551887724167944818352728int, 183662900539509792375083495535218036265);
    squaring(67108864, 33554432, 0, 183662900539509792375083495535218036265, 99129617969370732324867680395014240042int, 115107371550849943973561963938279885671);
    squaring(134217728, 67108864, 0, 115107371550849943973561963938279885671, 38937389278310353533809834152902788445int, 143637997944725862918595393408258080276);
    squaring(268435456, 134217728, 0, 143637997944725862918595393408258080276, 60631629667612782957382272877735943725int, 196934114662940666259486270002338730851);
    squaring(536870912, 268435456, 0, 196934114662940666259486270002338730851, 113973127285455706540697980882291376886int, 154861683792053392940461127428578350419);
    squaring(1073741824, 536870912, 0, 154861683792053392940461127428578350419, 70477178479488966767247227098402156735int, 246301224039257635126066389490736973866);
    squaring(2147483648, 1073741824, 0, 246301224039257635126066389490736973866, 178276334187282128774823373070263626402int, 112446981247494782863319391933539286082);
    squaring(4294967296, 2147483648, 0, 112446981247494782863319391933539286082, 37158327379955711344589089668493281057int, 136257249355923752058795611038843206115);
    squaring(8589934592, 4294967296, 0, 136257249355923752058795611038843206115, 54560681971381829186595716979024151607int, 317382179358537364646726782080101653266);
    squaring(17179869184, 8589934592, 0, 317382179358537364646726782080101653266, 296023119522319603170446313356706080260int, 192007975586228866417180181358753507136);
    squaring(34359738368, 17179869184, 0, 192007975586228866417180181358753507136, 108342559805009201810260387437193174047int, 177163815491556666773578150685041292257);
    squaring(68719476736, 34359738368, 0, 177163815491556666773578150685041292257, 92238154458408431751016968037385413980int, 207780475876815746145724302740566066789);
    squaring(137438953472, 68719476736, 0, 207780475876815746145724302740566066789, 126873239263751810723865741054991764016int, 215461094455166043855249150037908117929);
    squaring(274877906944, 137438953472, 0, 215461094455166043855249150037908117929, 136426355687728189081710563348995007059int, 227605400907528469561203326827972759358);
    squaring(549755813888, 274877906944, 0, 227605400907528469561203326827972759358, 152238915554249110003773541846779319044int, 340282366920938463463374557953744961536);
    lemma_pow_mod_is_pow(23953097886125630542083529559205016746, 549755813888, 340282366920938463463374557953744961537);
    squaring(1099511627776, 549755813888, 0, 340282366920938463463374557953744961536, 340282366920938463463374557953744961535int, 1);
    lemma_pow_mod_is_pow(23953097886125630542083529559205016746, 1099511627776, 340282366920938463463374557953744961537);
}

} // verus!
