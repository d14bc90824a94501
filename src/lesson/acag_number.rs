//! All-Cities/All-Gun contest exchanges: a city or county number and a
//! power letter.
use vstd::prelude::*;

use crate::text::{decimal, decimal_spec, push_char};
use crate::random::{random_below, random_byte};

verus! {

/// How a number of a region is written: with a leading "0" or plainly.
pub open spec fn render_number(zero_lead: bool, x: u32) -> Seq<char> {
    if zero_lead {
        seq!['0'] + decimal_spec(x as nat)
    } else {
        decimal_spec(x as nat)
    }
}

/// The written numbers from `lo` to `hi` (inclusive, in order), leaving out
/// those in `excluded`.
pub open spec fn range_numbers(lo: int, hi: int, excluded: Seq<u32>, zero_lead: bool) -> Seq<
    Seq<char>,
>
    decreases hi - lo + 1,
{
    if hi < lo {
        Seq::empty()
    } else {
        range_numbers(lo, hi - 1, excluded, zero_lead) + if excluded.contains(hi as u32) {
            Seq::empty()
        } else {
            seq![render_number(zero_lead, hi as u32)]
        }
    }
}

/// The written numbers of all the ranges, range after range.
pub open spec fn ranges_numbers(ranges: Seq<(u32, u32)>, excluded: Seq<u32>, zero_lead: bool) -> Seq<
    Seq<char>,
>
    decreases ranges.len(),
{
    if ranges.len() == 0 {
        Seq::empty()
    } else {
        ranges_numbers(ranges.drop_last(), excluded, zero_lead) + range_numbers(
            ranges.last().0 as int,
            ranges.last().1 as int,
            excluded,
            zero_lead,
        )
    }
}

/// Ranges whose last one ends in a number that is not left out have some
/// written number.
proof fn lemma_last_range_nonempty(ranges: Seq<(u32, u32)>, excluded: Seq<u32>, zero_lead: bool)
    requires
        ranges.len() > 0,
        ranges.last().0 <= ranges.last().1,
        !excluded.contains(ranges.last().1),
    ensures
        ranges_numbers(ranges, excluded, zero_lead).len() > 0,
{
    let (lo, hi) = ranges.last();
    assert(range_numbers(lo as int, hi as int, excluded, zero_lead).len() > 0);
}

/// The written numbers of the ranges `nrs`, leaving out those in
/// `filter_nrs`; each with a leading "0" when `zero_lead`.
pub fn filter_and_to_string_numbers(nrs: &[(u32, u32)], filter_nrs: &[u32], zero_lead: bool) -> (r:
    Vec<String>)
    ensures
        r@.map_values(|s: String| s@) == ranges_numbers(nrs@, filter_nrs@, zero_lead),
{
    let mut out: Vec<String> = Vec::new();
    let mut i: usize = 0;
    while i < nrs.len()
        invariant
            i <= nrs@.len(),
            out@.map_values(|s: String| s@) == ranges_numbers(nrs@.take(i as int), filter_nrs@, zero_lead),
        decreases nrs@.len() - i,
    {
        let (lo, hi) = nrs[i];
        let ghost before = out@.map_values(|s: String| s@);
        let mut x: u64 = lo as u64;
        proof {
            assert(out@.map_values(|s: String| s@) =~= before + range_numbers(lo as int, x - 1, filter_nrs@, zero_lead));
        }
        while x <= hi as u64
            invariant
                lo as u64 <= x <= hi as u64 + 1 || (x == lo as u64 && lo > hi),
                out@.map_values(|s: String| s@) == before + range_numbers(lo as int, x - 1, filter_nrs@, zero_lead),
            decreases hi as u64 + 1 - x,
        {
            let mut excluded = false;
            let mut k: usize = 0;
            while k < filter_nrs.len()
                invariant
                    k <= filter_nrs@.len(),
                    excluded == exists|j: int| 0 <= j < k && filter_nrs@[j] == x as u32,
                    x <= u32::MAX,
                decreases filter_nrs@.len() - k,
            {
                if filter_nrs[k] == x as u32 {
                    excluded = true;
                }
                k = k + 1;
            }
            proof {
                assert(excluded == filter_nrs@.contains(x as u32));
            }
            let ghost prev = out@.map_values(|s: String| s@);
            if !excluded {
                let written = if zero_lead {
                    let mut s = String::new();
                    push_char(&mut s, '0');
                    let d = decimal(x);
                    s.append(d.as_str());
                    s
                } else {
                    decimal(x)
                };
                out.push(written);
                proof {
                    assert(out@.map_values(|s: String| s@) =~= prev + seq![render_number(zero_lead, x as u32)]);
                }
            } else {
                proof {
                    assert(out@.map_values(|s: String| s@) =~= prev + Seq::<Seq<char>>::empty());
                }
            }
            proof {
                assert(out@.map_values(|s: String| s@) =~= before + range_numbers(lo as int, x as int, filter_nrs@, zero_lead));
            }
            x = x + 1;
        }
        proof {
            assert(nrs@.take(i + 1).drop_last() =~= nrs@.take(i as int));
            assert(out@.map_values(|s: String| s@) =~= ranges_numbers(nrs@.take(i + 1), filter_nrs@, zero_lead));
        }
        i = i + 1;
    }
    proof {
        assert(nrs@.take(i as int) =~= nrs@);
    }
    out
}

/// Region `k` of the All-Cities/All-Gun table, prefecture by prefecture:
/// its ranges of numbers, its retired numbers, and whether its numbers are
/// written with a leading "0".
pub open spec fn acag_region(k: int) -> (Seq<(u32, u32)>, Seq<u32>, bool) {
    if k == 0 {
        // 北海道
        (seq![(101u32, 136u32), (1001u32, 1081u32), (10101u32, 10110u32)], seq![132u32, 1004u32, 1012u32, 1017u32, 1029u32, 1032u32, 1044u32, 1054u32, 1056u32, 1057u32, 1058u32, 1061u32, 1065u32, 1068u32], true)
    } else if k == 1 {
        // 青森
        (seq![(201u32, 210u32), (2001u32, 2008u32)], Seq::<u32>::empty(), true)
    } else if k == 2 {
        // 岩手
        (seq![(301u32, 316u32), (3001u32, 3013u32)], seq![306u32, 312u32, 3003u32, 3011u32, 3012u32], true)
    } else if k == 3 {
        // 秋田
        (seq![(401u32, 415u32), (4001u32, 4009u32)], seq![405u32, 408u32, 4003u32, 4006u32, 4009u32], true)
    } else if k == 4 {
        // 山形
        (seq![(501u32, 513u32), (5001u32, 5011u32)], seq![5004u32, 5009u32, 5010u32], true)
    } else if k == 5 {
        // 宮城
        (seq![(602u32, 616u32), (6001u32, 6016u32), (60101u32, 60105u32)], seq![604u32, 610u32, 6005u32, 6007u32, 6009u32, 6011u32, 6012u32, 6015u32], true)
    } else if k == 6 {
        // 福島
        (seq![(701u32, 720u32), (7001u32, 7017u32)], seq![704u32, 706u32, 709u32, 710u32, 712u32, 713u32, 716u32, 7001u32, 7004u32, 7008u32, 7009u32], true)
    } else if k == 7 {
        // 新潟
        (seq![(802u32, 828u32), (8001u32, 8016u32), (80101u32, 80108u32)], seq![803u32, 807u32, 814u32, 815u32, 817u32, 819u32, 820u32, 821u32, 8003u32, 8005u32, 8006u32, 8009u32, 8010u32, 8012u32, 8014u32], true)
    } else if k == 8 {
        // 長野
        (seq![(901u32, 921u32), (9001u32, 9017u32)], seq![916u32, 917u32, 9007u32, 9016u32], true)
    } else if k == 9 {
        // 東京
        (seq![(100101u32, 100123u32), (1002u32, 1030u32), (10002u32, 10007u32)], seq![1017u32, 1018u32, 1027u32, 10003u32], false)
    } else if k == 10 {
        // 神奈川
        (seq![(1102u32, 1119u32), (11001u32, 11007u32), (110101u32, 110118u32), (110301u32, 110307u32), (111001u32, 111003u32)], seq![1103u32, 1110u32, 11005u32], false)
    } else if k == 11 {
        // 千葉
        (seq![(1202u32, 1239u32), (12001u32, 12011u32), (120101u32, 120106u32)], seq![1209u32, 1214u32, 12003u32, 12005u32, 12007u32, 12009u32, 12010u32, 12012u32], false)
    } else if k == 12 {
        // 埼玉
        (seq![(1302u32, 1346u32), (13001u32, 13009u32), (134401u32, 134410u32)], seq![1305u32, 1313u32, 1320u32, 1326u32, 1335u32, 1344u32, 13005u32], false)
    } else if k == 13 {
        // 茨城
        (seq![(1401u32, 1437u32), (14001u32, 14014u32)], seq![1406u32, 1409u32, 1411u32, 1413u32, 1418u32, 14002u32, 14006u32, 14007u32, 14009u32, 14010u32, 14011u32, 14013u32], false)
    } else if k == 14 {
        // 栃木
        (seq![(1501u32, 1516u32), (15004u32, 15008u32)], seq![1507u32, 1512u32], false)
    } else if k == 15 {
        // 群馬
        (seq![(1601u32, 1612u32), (16001u32, 16010u32)], seq![16002u32, 16006u32, 16008u32], false)
    } else if k == 16 {
        // 群馬
        (seq![(1601u32, 1612u32), (16001u32, 16010u32)], seq![16002u32, 16006u32, 16008u32], false)
    } else if k == 17 {
        // 山梨
        (seq![(1701u32, 1714u32), (17002u32, 17008u32)], seq![1703u32, 17005u32, 17006u32], false)
    } else if k == 18 {
        // 静岡
        (seq![(1803u32, 1827u32), (18006u32, 18011u32), (180101u32, 180103u32), (180201u32, 180207u32)], seq![1804u32, 1810u32, 1818u32, 1819u32, 18007u32], false)
    } else if k == 19 {
        // 岐阜
        (seq![(1901u32, 1921u32), (19001u32, 19018u32)], seq![19002u32, 19004u32, 19006u32, 19009u32, 19010u32, 19013u32, 19014u32, 19016u32, 19018u32], false)
    } else if k == 20 {
        // 岐阜
        (seq![(1901u32, 1921u32), (19001u32, 19018u32)], seq![19002u32, 19004u32, 19006u32, 19009u32, 19010u32, 19013u32, 19014u32, 19016u32, 19018u32], false)
    } else if k == 21 {
        // 愛知
        (seq![(2002u32, 2040u32), (20001u32, 20010u32), (200101u32, 200116u32)], seq![2018u32, 2020u32, 20002u32, 20006u32, 20008u32], false)
    } else if k == 22 {
        // 三重
        (seq![(2101u32, 2117u32), (21006u32, 21016u32)], seq![2106u32, 2113u32, 2114u32, 21007u32, 21010u32, 21011u32, 21013u32], false)
    } else if k == 23 {
        // 京都
        (seq![(2202u32, 2215u32), (22003u32, 22014u32), (220101u32, 220111u32)], seq![22004u32, 22005u32, 22007u32, 22009u32, 22011u32, 22013u32], false)
    } else if k == 24 {
        // 滋賀
        (seq![(2301u32, 2314u32), (23002u32, 23004u32)], seq![2305u32], false)
    } else if k == 25 {
        // 奈良
        (seq![(2401u32, 2412u32), (24001u32, 24010u32)], seq![24003u32, 24006u32, 24008u32], false)
    } else if k == 26 {
        // 大阪
        (seq![(2503u32, 2536u32), (25002u32, 25007u32), (250101u32, 250127u32), (250201u32, 250207u32)], seq![2505u32, 2519u32, 2520u32, 25005u32, 250105u32, 250110u32, 250112u32], false)
    } else if k == 27 {
        // 和歌山
        (seq![(2601u32, 2609u32), (26001u32, 26007u32)], seq![26004u32], false)
    } else if k == 28 {
        // 兵庫
        (seq![(2702u32, 2731u32), (27001u32, 27020u32), (270101u32, 270109u32)], seq![2712u32, 2722u32, 27002u32, 27003u32, 27004u32, 27006u32, 27008u32, 27009u32, 27012u32, 27014u32, 27015u32, 27017u32, 27018u32, 27019u32], false)
    } else if k == 29 {
        // 富山
        (seq![(2801u32, 2811u32), (28003u32, 28004u32)], seq![2803u32], false)
    } else if k == 30 {
        // 福井
        (seq![(2901u32, 2910u32), (29002u32, 29012u32)], seq![2903u32, 29004u32, 29005u32, 29006u32, 29007u32], false)
    } else if k == 31 {
        // 石川
        (seq![(3001u32, 3012u32), (30003u32, 30009u32)], seq![3008u32, 30005u32, 30008u32], false)
    } else if k == 32 {
        // 岡山
        (seq![(3102u32, 3118u32), (31001u32, 31020u32), (310101u32, 310104u32)], seq![3105u32, 3106u32, 3108u32, 31002u32, 31004u32, 31005u32, 31008u32, 31009u32, 31011u32, 31012u32, 31013u32, 31014u32, 31018u32], false)
    } else if k == 33 {
        // 島根
        (seq![(3201u32, 3209u32), (32003u32, 32012u32)], seq![3208u32, 32005u32, 32007u32, 32009u32, 32010u32, 32011u32], false)
    } else if k == 34 {
        // 山口
        (seq![(3301u32, 3316u32), (33002u32, 33006u32)], seq![3305u32, 3309u32, 3314u32, 33004u32], false)
    } else if k == 35 {
        // 鳥取
        (seq![(3401u32, 3404u32), (34001u32, 34006u32)], seq![34002u32], false)
    } else if k == 36 {
        // 広島
        (seq![(3502u32, 3516u32), (35001u32, 35001u32), (35007u32, 35008u32), (35010u32, 35010u32), (35016u32, 35016u32), (350101u32, 350108u32)], seq![3506u32, 3507u32], false)
    } else if k == 37 {
        // 香川
        (seq![(3601u32, 3608u32), (36001u32, 36006u32)], seq![36002u32], false)
    } else if k == 38 {
        // 徳島
        (seq![(3701u32, 3708u32), (37002u32, 37010u32)], seq![37003u32], false)
    } else if k == 39 {
        // 愛媛
        (seq![(3801u32, 3815u32), (38001u32, 38012u32)], seq![3808u32, 3809u32, 3811u32, 3812u32, 38002u32, 38004u32, 38008u32, 38009u32, 38011u32], false)
    } else if k == 40 {
        // 高知
        (seq![(3901u32, 3912u32), (39001u32, 39007u32)], seq![3906u32, 39003u32], false)
    } else if k == 41 {
        // 福岡
        (seq![(4007u32, 4037u32), (40001u32, 40018u32), (400101u32, 400107u32), (402101u32, 402107u32)], seq![4013u32, 4014u32, 4021u32, 4028u32, 40002u32, 40003u32, 40008u32, 40010u32, 40013u32, 40016u32, 40017u32], false)
    } else if k == 42 {
        // 佐賀
        (seq![(4101u32, 4110u32), (41002u32, 41008u32)], seq![41004u32], false)
    } else if k == 43 {
        // 長崎
        (seq![(4201u32, 4214u32), (42004u32, 42009u32)], seq![4206u32, 42005u32, 42008u32], false)
    } else if k == 44 {
        // 熊本
        (seq![(4302u32, 4316u32), (43001u32, 43012u32), (430101u32, 430105u32)], seq![4307u32, 4309u32, 43004u32, 43006u32, 43011u32], false)
    } else if k == 45 {
        // 大分
        (seq![(4401u32, 4415u32), (44005u32, 44005u32), (44009u32, 44010u32)], seq![4409u32], false)
    } else if k == 46 {
        // 宮崎
        (seq![(4501u32, 4509u32), (45001u32, 45006u32)], Seq::<u32>::empty(), false)
    } else if k == 47 {
        // 鹿児島
        (seq![(4601u32, 4626u32), (46001u32, 46011u32)], seq![4602u32, 4605u32, 4608u32, 4609u32, 4611u32, 4612u32, 4613u32, 46002u32, 46004u32, 46007u32, 46012u32], false)
    } else if k == 48 {
        // 沖縄
        (seq![(4701u32, 4715u32), (47001u32, 47005u32)], seq![4702u32, 4703u32, 4705u32, 4707u32], false)
    } else {
        (Seq::empty(), Seq::empty(), false)
    }
}

/// The number of regions of the table.
pub const ACAG_REGIONS: usize = 49;

/// The written numbers of region `k`.
pub open spec fn acag_region_numbers(k: int) -> Seq<Seq<char>> {
    ranges_numbers(acag_region(k).0, acag_region(k).1, acag_region(k).2)
}

/// The written numbers of the first `n` regions, region after region.
pub open spec fn acag_prefix(n: nat) -> Seq<Seq<char>>
    decreases n,
{
    if n == 0 {
        Seq::empty()
    } else {
        acag_prefix((n - 1) as nat) + acag_region_numbers(n - 1)
    }
}

/// All the written numbers of the table.
pub open spec fn acag_numbers_spec() -> Seq<Seq<char>> {
    acag_prefix(ACAG_REGIONS as nat)
}

/// Appends the written numbers of ranges `nrs`, leaving out `retired`.
fn push_region(acc: &mut Vec<String>, nrs: &[(u32, u32)], retired: &[u32], zero_lead: bool)
    ensures
        final(acc)@.map_values(|s: String| s@) == old(acc)@.map_values(|s: String| s@)
            + ranges_numbers(nrs@, retired@, zero_lead),
{
    let mut part = filter_and_to_string_numbers(nrs, retired, zero_lead);
    let ghost a = acc@;
    let ghost p = part@;
    acc.append(&mut part);
    proof {
        assert(acc@ =~= a + p);
        assert(acc@.map_values(|s: String| s@) =~= a.map_values(|s: String| s@) + p.map_values(
            |s: String| s@,
        ));
    }
}

/// Appends the numbers of region 0 (北海道).
fn push_region_0(acc: &mut Vec<String>)
    ensures
        final(acc)@.map_values(|s: String| s@) == old(acc)@.map_values(|s: String| s@)
            + acag_region_numbers(0),
{
    let nrs: [(u32, u32); 3] = [(101, 136), (1001, 1081), (10101, 10110)];
    let retired: [u32; 14] = [132, 1004, 1012, 1017, 1029, 1032, 1044, 1054, 1056, 1057, 1058, 1061, 1065, 1068];
    proof {
        assert(nrs@ =~= acag_region(0).0);
        assert(retired@ =~= acag_region(0).1);
    }
    push_region(acc, &nrs, &retired, true);
}

/// Appends the numbers of region 1 (青森).
fn push_region_1(acc: &mut Vec<String>)
    ensures
        final(acc)@.map_values(|s: String| s@) == old(acc)@.map_values(|s: String| s@)
            + acag_region_numbers(1),
{
    let nrs: [(u32, u32); 2] = [(201, 210), (2001, 2008)];
    let retired: [u32; 0] = [];
    proof {
        assert(nrs@ =~= acag_region(1).0);
        assert(retired@ =~= acag_region(1).1);
    }
    push_region(acc, &nrs, &retired, true);
}

/// Appends the numbers of region 2 (岩手).
fn push_region_2(acc: &mut Vec<String>)
    ensures
        final(acc)@.map_values(|s: String| s@) == old(acc)@.map_values(|s: String| s@)
            + acag_region_numbers(2),
{
    let nrs: [(u32, u32); 2] = [(301, 316), (3001, 3013)];
    let retired: [u32; 5] = [306, 312, 3003, 3011, 3012];
    proof {
        assert(nrs@ =~= acag_region(2).0);
        assert(retired@ =~= acag_region(2).1);
    }
    push_region(acc, &nrs, &retired, true);
}

/// Appends the numbers of region 3 (秋田).
fn push_region_3(acc: &mut Vec<String>)
    ensures
        final(acc)@.map_values(|s: String| s@) == old(acc)@.map_values(|s: String| s@)
            + acag_region_numbers(3),
{
    let nrs: [(u32, u32); 2] = [(401, 415), (4001, 4009)];
    let retired: [u32; 5] = [405, 408, 4003, 4006, 4009];
    proof {
        assert(nrs@ =~= acag_region(3).0);
        assert(retired@ =~= acag_region(3).1);
    }
    push_region(acc, &nrs, &retired, true);
}

/// Appends the numbers of region 4 (山形).
fn push_region_4(acc: &mut Vec<String>)
    ensures
        final(acc)@.map_values(|s: String| s@) == old(acc)@.map_values(|s: String| s@)
            + acag_region_numbers(4),
{
    let nrs: [(u32, u32); 2] = [(501, 513), (5001, 5011)];
    let retired: [u32; 3] = [5004, 5009, 5010];
    proof {
        assert(nrs@ =~= acag_region(4).0);
        assert(retired@ =~= acag_region(4).1);
    }
    push_region(acc, &nrs, &retired, true);
}

/// Appends the numbers of region 5 (宮城).
fn push_region_5(acc: &mut Vec<String>)
    ensures
        final(acc)@.map_values(|s: String| s@) == old(acc)@.map_values(|s: String| s@)
            + acag_region_numbers(5),
{
    let nrs: [(u32, u32); 3] = [(602, 616), (6001, 6016), (60101, 60105)];
    let retired: [u32; 8] = [604, 610, 6005, 6007, 6009, 6011, 6012, 6015];
    proof {
        assert(nrs@ =~= acag_region(5).0);
        assert(retired@ =~= acag_region(5).1);
    }
    push_region(acc, &nrs, &retired, true);
}

/// Appends the numbers of region 6 (福島).
fn push_region_6(acc: &mut Vec<String>)
    ensures
        final(acc)@.map_values(|s: String| s@) == old(acc)@.map_values(|s: String| s@)
            + acag_region_numbers(6),
{
    let nrs: [(u32, u32); 2] = [(701, 720), (7001, 7017)];
    let retired: [u32; 11] = [704, 706, 709, 710, 712, 713, 716, 7001, 7004, 7008, 7009];
    proof {
        assert(nrs@ =~= acag_region(6).0);
        assert(retired@ =~= acag_region(6).1);
    }
    push_region(acc, &nrs, &retired, true);
}

/// Appends the numbers of region 7 (新潟).
fn push_region_7(acc: &mut Vec<String>)
    ensures
        final(acc)@.map_values(|s: String| s@) == old(acc)@.map_values(|s: String| s@)
            + acag_region_numbers(7),
{
    let nrs: [(u32, u32); 3] = [(802, 828), (8001, 8016), (80101, 80108)];
    let retired: [u32; 15] = [803, 807, 814, 815, 817, 819, 820, 821, 8003, 8005, 8006, 8009, 8010, 8012, 8014];
    proof {
        assert(nrs@ =~= acag_region(7).0);
        assert(retired@ =~= acag_region(7).1);
    }
    push_region(acc, &nrs, &retired, true);
}

/// Appends the numbers of region 8 (長野).
fn push_region_8(acc: &mut Vec<String>)
    ensures
        final(acc)@.map_values(|s: String| s@) == old(acc)@.map_values(|s: String| s@)
            + acag_region_numbers(8),
{
    let nrs: [(u32, u32); 2] = [(901, 921), (9001, 9017)];
    let retired: [u32; 4] = [916, 917, 9007, 9016];
    proof {
        assert(nrs@ =~= acag_region(8).0);
        assert(retired@ =~= acag_region(8).1);
    }
    push_region(acc, &nrs, &retired, true);
}

/// Appends the numbers of region 9 (東京).
fn push_region_9(acc: &mut Vec<String>)
    ensures
        final(acc)@.map_values(|s: String| s@) == old(acc)@.map_values(|s: String| s@)
            + acag_region_numbers(9),
{
    let nrs: [(u32, u32); 3] = [(100101, 100123), (1002, 1030), (10002, 10007)];
    let retired: [u32; 4] = [1017, 1018, 1027, 10003];
    proof {
        assert(nrs@ =~= acag_region(9).0);
        assert(retired@ =~= acag_region(9).1);
    }
    push_region(acc, &nrs, &retired, false);
}

/// Appends the numbers of region 10 (神奈川).
fn push_region_10(acc: &mut Vec<String>)
    ensures
        final(acc)@.map_values(|s: String| s@) == old(acc)@.map_values(|s: String| s@)
            + acag_region_numbers(10),
{
    let nrs: [(u32, u32); 5] = [(1102, 1119), (11001, 11007), (110101, 110118), (110301, 110307), (111001, 111003)];
    let retired: [u32; 3] = [1103, 1110, 11005];
    proof {
        assert(nrs@ =~= acag_region(10).0);
        assert(retired@ =~= acag_region(10).1);
    }
    push_region(acc, &nrs, &retired, false);
}

/// Appends the numbers of region 11 (千葉).
fn push_region_11(acc: &mut Vec<String>)
    ensures
        final(acc)@.map_values(|s: String| s@) == old(acc)@.map_values(|s: String| s@)
            + acag_region_numbers(11),
{
    let nrs: [(u32, u32); 3] = [(1202, 1239), (12001, 12011), (120101, 120106)];
    let retired: [u32; 8] = [1209, 1214, 12003, 12005, 12007, 12009, 12010, 12012];
    proof {
        assert(nrs@ =~= acag_region(11).0);
        assert(retired@ =~= acag_region(11).1);
    }
    push_region(acc, &nrs, &retired, false);
}

/// Appends the numbers of region 12 (埼玉).
fn push_region_12(acc: &mut Vec<String>)
    ensures
        final(acc)@.map_values(|s: String| s@) == old(acc)@.map_values(|s: String| s@)
            + acag_region_numbers(12),
{
    let nrs: [(u32, u32); 3] = [(1302, 1346), (13001, 13009), (134401, 134410)];
    let retired: [u32; 7] = [1305, 1313, 1320, 1326, 1335, 1344, 13005];
    proof {
        assert(nrs@ =~= acag_region(12).0);
        assert(retired@ =~= acag_region(12).1);
    }
    push_region(acc, &nrs, &retired, false);
}

/// Appends the numbers of region 13 (茨城).
fn push_region_13(acc: &mut Vec<String>)
    ensures
        final(acc)@.map_values(|s: String| s@) == old(acc)@.map_values(|s: String| s@)
            + acag_region_numbers(13),
{
    let nrs: [(u32, u32); 2] = [(1401, 1437), (14001, 14014)];
    let retired: [u32; 12] = [1406, 1409, 1411, 1413, 1418, 14002, 14006, 14007, 14009, 14010, 14011, 14013];
    proof {
        assert(nrs@ =~= acag_region(13).0);
        assert(retired@ =~= acag_region(13).1);
    }
    push_region(acc, &nrs, &retired, false);
}

/// Appends the numbers of region 14 (栃木).
fn push_region_14(acc: &mut Vec<String>)
    ensures
        final(acc)@.map_values(|s: String| s@) == old(acc)@.map_values(|s: String| s@)
            + acag_region_numbers(14),
{
    let nrs: [(u32, u32); 2] = [(1501, 1516), (15004, 15008)];
    let retired: [u32; 2] = [1507, 1512];
    proof {
        assert(nrs@ =~= acag_region(14).0);
        assert(retired@ =~= acag_region(14).1);
    }
    push_region(acc, &nrs, &retired, false);
}

/// Appends the numbers of region 15 (群馬).
fn push_region_15(acc: &mut Vec<String>)
    ensures
        final(acc)@.map_values(|s: String| s@) == old(acc)@.map_values(|s: String| s@)
            + acag_region_numbers(15),
{
    let nrs: [(u32, u32); 2] = [(1601, 1612), (16001, 16010)];
    let retired: [u32; 3] = [16002, 16006, 16008];
    proof {
        assert(nrs@ =~= acag_region(15).0);
        assert(retired@ =~= acag_region(15).1);
    }
    push_region(acc, &nrs, &retired, false);
}

/// Appends the numbers of region 16 (群馬).
fn push_region_16(acc: &mut Vec<String>)
    ensures
        final(acc)@.map_values(|s: String| s@) == old(acc)@.map_values(|s: String| s@)
            + acag_region_numbers(16),
{
    let nrs: [(u32, u32); 2] = [(1601, 1612), (16001, 16010)];
    let retired: [u32; 3] = [16002, 16006, 16008];
    proof {
        assert(nrs@ =~= acag_region(16).0);
        assert(retired@ =~= acag_region(16).1);
    }
    push_region(acc, &nrs, &retired, false);
}

/// Appends the numbers of region 17 (山梨).
fn push_region_17(acc: &mut Vec<String>)
    ensures
        final(acc)@.map_values(|s: String| s@) == old(acc)@.map_values(|s: String| s@)
            + acag_region_numbers(17),
{
    let nrs: [(u32, u32); 2] = [(1701, 1714), (17002, 17008)];
    let retired: [u32; 3] = [1703, 17005, 17006];
    proof {
        assert(nrs@ =~= acag_region(17).0);
        assert(retired@ =~= acag_region(17).1);
    }
    push_region(acc, &nrs, &retired, false);
}

/// Appends the numbers of region 18 (静岡).
fn push_region_18(acc: &mut Vec<String>)
    ensures
        final(acc)@.map_values(|s: String| s@) == old(acc)@.map_values(|s: String| s@)
            + acag_region_numbers(18),
{
    let nrs: [(u32, u32); 4] = [(1803, 1827), (18006, 18011), (180101, 180103), (180201, 180207)];
    let retired: [u32; 5] = [1804, 1810, 1818, 1819, 18007];
    proof {
        assert(nrs@ =~= acag_region(18).0);
        assert(retired@ =~= acag_region(18).1);
    }
    push_region(acc, &nrs, &retired, false);
}

/// Appends the numbers of region 19 (岐阜).
fn push_region_19(acc: &mut Vec<String>)
    ensures
        final(acc)@.map_values(|s: String| s@) == old(acc)@.map_values(|s: String| s@)
            + acag_region_numbers(19),
{
    let nrs: [(u32, u32); 2] = [(1901, 1921), (19001, 19018)];
    let retired: [u32; 9] = [19002, 19004, 19006, 19009, 19010, 19013, 19014, 19016, 19018];
    proof {
        assert(nrs@ =~= acag_region(19).0);
        assert(retired@ =~= acag_region(19).1);
    }
    push_region(acc, &nrs, &retired, false);
}

/// Appends the numbers of region 20 (岐阜).
fn push_region_20(acc: &mut Vec<String>)
    ensures
        final(acc)@.map_values(|s: String| s@) == old(acc)@.map_values(|s: String| s@)
            + acag_region_numbers(20),
{
    let nrs: [(u32, u32); 2] = [(1901, 1921), (19001, 19018)];
    let retired: [u32; 9] = [19002, 19004, 19006, 19009, 19010, 19013, 19014, 19016, 19018];
    proof {
        assert(nrs@ =~= acag_region(20).0);
        assert(retired@ =~= acag_region(20).1);
    }
    push_region(acc, &nrs, &retired, false);
}

/// Appends the numbers of region 21 (愛知).
fn push_region_21(acc: &mut Vec<String>)
    ensures
        final(acc)@.map_values(|s: String| s@) == old(acc)@.map_values(|s: String| s@)
            + acag_region_numbers(21),
{
    let nrs: [(u32, u32); 3] = [(2002, 2040), (20001, 20010), (200101, 200116)];
    let retired: [u32; 5] = [2018, 2020, 20002, 20006, 20008];
    proof {
        assert(nrs@ =~= acag_region(21).0);
        assert(retired@ =~= acag_region(21).1);
    }
    push_region(acc, &nrs, &retired, false);
}

/// Appends the numbers of region 22 (三重).
fn push_region_22(acc: &mut Vec<String>)
    ensures
        final(acc)@.map_values(|s: String| s@) == old(acc)@.map_values(|s: String| s@)
            + acag_region_numbers(22),
{
    let nrs: [(u32, u32); 2] = [(2101, 2117), (21006, 21016)];
    let retired: [u32; 7] = [2106, 2113, 2114, 21007, 21010, 21011, 21013];
    proof {
        assert(nrs@ =~= acag_region(22).0);
        assert(retired@ =~= acag_region(22).1);
    }
    push_region(acc, &nrs, &retired, false);
}

/// Appends the numbers of region 23 (京都).
fn push_region_23(acc: &mut Vec<String>)
    ensures
        final(acc)@.map_values(|s: String| s@) == old(acc)@.map_values(|s: String| s@)
            + acag_region_numbers(23),
{
    let nrs: [(u32, u32); 3] = [(2202, 2215), (22003, 22014), (220101, 220111)];
    let retired: [u32; 6] = [22004, 22005, 22007, 22009, 22011, 22013];
    proof {
        assert(nrs@ =~= acag_region(23).0);
        assert(retired@ =~= acag_region(23).1);
    }
    push_region(acc, &nrs, &retired, false);
}

/// Appends the numbers of region 24 (滋賀).
fn push_region_24(acc: &mut Vec<String>)
    ensures
        final(acc)@.map_values(|s: String| s@) == old(acc)@.map_values(|s: String| s@)
            + acag_region_numbers(24),
{
    let nrs: [(u32, u32); 2] = [(2301, 2314), (23002, 23004)];
    let retired: [u32; 1] = [2305];
    proof {
        assert(nrs@ =~= acag_region(24).0);
        assert(retired@ =~= acag_region(24).1);
    }
    push_region(acc, &nrs, &retired, false);
}

/// Appends the numbers of region 25 (奈良).
fn push_region_25(acc: &mut Vec<String>)
    ensures
        final(acc)@.map_values(|s: String| s@) == old(acc)@.map_values(|s: String| s@)
            + acag_region_numbers(25),
{
    let nrs: [(u32, u32); 2] = [(2401, 2412), (24001, 24010)];
    let retired: [u32; 3] = [24003, 24006, 24008];
    proof {
        assert(nrs@ =~= acag_region(25).0);
        assert(retired@ =~= acag_region(25).1);
    }
    push_region(acc, &nrs, &retired, false);
}

/// Appends the numbers of region 26 (大阪).
fn push_region_26(acc: &mut Vec<String>)
    ensures
        final(acc)@.map_values(|s: String| s@) == old(acc)@.map_values(|s: String| s@)
            + acag_region_numbers(26),
{
    let nrs: [(u32, u32); 4] = [(2503, 2536), (25002, 25007), (250101, 250127), (250201, 250207)];
    let retired: [u32; 7] = [2505, 2519, 2520, 25005, 250105, 250110, 250112];
    proof {
        assert(nrs@ =~= acag_region(26).0);
        assert(retired@ =~= acag_region(26).1);
    }
    push_region(acc, &nrs, &retired, false);
}

/// Appends the numbers of region 27 (和歌山).
fn push_region_27(acc: &mut Vec<String>)
    ensures
        final(acc)@.map_values(|s: String| s@) == old(acc)@.map_values(|s: String| s@)
            + acag_region_numbers(27),
{
    let nrs: [(u32, u32); 2] = [(2601, 2609), (26001, 26007)];
    let retired: [u32; 1] = [26004];
    proof {
        assert(nrs@ =~= acag_region(27).0);
        assert(retired@ =~= acag_region(27).1);
    }
    push_region(acc, &nrs, &retired, false);
}

/// Appends the numbers of region 28 (兵庫).
fn push_region_28(acc: &mut Vec<String>)
    ensures
        final(acc)@.map_values(|s: String| s@) == old(acc)@.map_values(|s: String| s@)
            + acag_region_numbers(28),
{
    let nrs: [(u32, u32); 3] = [(2702, 2731), (27001, 27020), (270101, 270109)];
    let retired: [u32; 14] = [2712, 2722, 27002, 27003, 27004, 27006, 27008, 27009, 27012, 27014, 27015, 27017, 27018, 27019];
    proof {
        assert(nrs@ =~= acag_region(28).0);
        assert(retired@ =~= acag_region(28).1);
    }
    push_region(acc, &nrs, &retired, false);
}

/// Appends the numbers of region 29 (富山).
fn push_region_29(acc: &mut Vec<String>)
    ensures
        final(acc)@.map_values(|s: String| s@) == old(acc)@.map_values(|s: String| s@)
            + acag_region_numbers(29),
{
    let nrs: [(u32, u32); 2] = [(2801, 2811), (28003, 28004)];
    let retired: [u32; 1] = [2803];
    proof {
        assert(nrs@ =~= acag_region(29).0);
        assert(retired@ =~= acag_region(29).1);
    }
    push_region(acc, &nrs, &retired, false);
}

/// Appends the numbers of region 30 (福井).
fn push_region_30(acc: &mut Vec<String>)
    ensures
        final(acc)@.map_values(|s: String| s@) == old(acc)@.map_values(|s: String| s@)
            + acag_region_numbers(30),
{
    let nrs: [(u32, u32); 2] = [(2901, 2910), (29002, 29012)];
    let retired: [u32; 5] = [2903, 29004, 29005, 29006, 29007];
    proof {
        assert(nrs@ =~= acag_region(30).0);
        assert(retired@ =~= acag_region(30).1);
    }
    push_region(acc, &nrs, &retired, false);
}

/// Appends the numbers of region 31 (石川).
fn push_region_31(acc: &mut Vec<String>)
    ensures
        final(acc)@.map_values(|s: String| s@) == old(acc)@.map_values(|s: String| s@)
            + acag_region_numbers(31),
{
    let nrs: [(u32, u32); 2] = [(3001, 3012), (30003, 30009)];
    let retired: [u32; 3] = [3008, 30005, 30008];
    proof {
        assert(nrs@ =~= acag_region(31).0);
        assert(retired@ =~= acag_region(31).1);
    }
    push_region(acc, &nrs, &retired, false);
}

/// Appends the numbers of region 32 (岡山).
fn push_region_32(acc: &mut Vec<String>)
    ensures
        final(acc)@.map_values(|s: String| s@) == old(acc)@.map_values(|s: String| s@)
            + acag_region_numbers(32),
{
    let nrs: [(u32, u32); 3] = [(3102, 3118), (31001, 31020), (310101, 310104)];
    let retired: [u32; 13] = [3105, 3106, 3108, 31002, 31004, 31005, 31008, 31009, 31011, 31012, 31013, 31014, 31018];
    proof {
        assert(nrs@ =~= acag_region(32).0);
        assert(retired@ =~= acag_region(32).1);
    }
    push_region(acc, &nrs, &retired, false);
}

/// Appends the numbers of region 33 (島根).
fn push_region_33(acc: &mut Vec<String>)
    ensures
        final(acc)@.map_values(|s: String| s@) == old(acc)@.map_values(|s: String| s@)
            + acag_region_numbers(33),
{
    let nrs: [(u32, u32); 2] = [(3201, 3209), (32003, 32012)];
    let retired: [u32; 6] = [3208, 32005, 32007, 32009, 32010, 32011];
    proof {
        assert(nrs@ =~= acag_region(33).0);
        assert(retired@ =~= acag_region(33).1);
    }
    push_region(acc, &nrs, &retired, false);
}

/// Appends the numbers of region 34 (山口).
fn push_region_34(acc: &mut Vec<String>)
    ensures
        final(acc)@.map_values(|s: String| s@) == old(acc)@.map_values(|s: String| s@)
            + acag_region_numbers(34),
{
    let nrs: [(u32, u32); 2] = [(3301, 3316), (33002, 33006)];
    let retired: [u32; 4] = [3305, 3309, 3314, 33004];
    proof {
        assert(nrs@ =~= acag_region(34).0);
        assert(retired@ =~= acag_region(34).1);
    }
    push_region(acc, &nrs, &retired, false);
}

/// Appends the numbers of region 35 (鳥取).
fn push_region_35(acc: &mut Vec<String>)
    ensures
        final(acc)@.map_values(|s: String| s@) == old(acc)@.map_values(|s: String| s@)
            + acag_region_numbers(35),
{
    let nrs: [(u32, u32); 2] = [(3401, 3404), (34001, 34006)];
    let retired: [u32; 1] = [34002];
    proof {
        assert(nrs@ =~= acag_region(35).0);
        assert(retired@ =~= acag_region(35).1);
    }
    push_region(acc, &nrs, &retired, false);
}

/// Appends the numbers of region 36 (広島).
fn push_region_36(acc: &mut Vec<String>)
    ensures
        final(acc)@.map_values(|s: String| s@) == old(acc)@.map_values(|s: String| s@)
            + acag_region_numbers(36),
{
    let nrs: [(u32, u32); 6] = [(3502, 3516), (35001, 35001), (35007, 35008), (35010, 35010), (35016, 35016), (350101, 350108)];
    let retired: [u32; 2] = [3506, 3507];
    proof {
        assert(nrs@ =~= acag_region(36).0);
        assert(retired@ =~= acag_region(36).1);
    }
    push_region(acc, &nrs, &retired, false);
}

/// Appends the numbers of region 37 (香川).
fn push_region_37(acc: &mut Vec<String>)
    ensures
        final(acc)@.map_values(|s: String| s@) == old(acc)@.map_values(|s: String| s@)
            + acag_region_numbers(37),
{
    let nrs: [(u32, u32); 2] = [(3601, 3608), (36001, 36006)];
    let retired: [u32; 1] = [36002];
    proof {
        assert(nrs@ =~= acag_region(37).0);
        assert(retired@ =~= acag_region(37).1);
    }
    push_region(acc, &nrs, &retired, false);
}

/// Appends the numbers of region 38 (徳島).
fn push_region_38(acc: &mut Vec<String>)
    ensures
        final(acc)@.map_values(|s: String| s@) == old(acc)@.map_values(|s: String| s@)
            + acag_region_numbers(38),
{
    let nrs: [(u32, u32); 2] = [(3701, 3708), (37002, 37010)];
    let retired: [u32; 1] = [37003];
    proof {
        assert(nrs@ =~= acag_region(38).0);
        assert(retired@ =~= acag_region(38).1);
    }
    push_region(acc, &nrs, &retired, false);
}

/// Appends the numbers of region 39 (愛媛).
fn push_region_39(acc: &mut Vec<String>)
    ensures
        final(acc)@.map_values(|s: String| s@) == old(acc)@.map_values(|s: String| s@)
            + acag_region_numbers(39),
{
    let nrs: [(u32, u32); 2] = [(3801, 3815), (38001, 38012)];
    let retired: [u32; 9] = [3808, 3809, 3811, 3812, 38002, 38004, 38008, 38009, 38011];
    proof {
        assert(nrs@ =~= acag_region(39).0);
        assert(retired@ =~= acag_region(39).1);
    }
    push_region(acc, &nrs, &retired, false);
}

/// Appends the numbers of region 40 (高知).
fn push_region_40(acc: &mut Vec<String>)
    ensures
        final(acc)@.map_values(|s: String| s@) == old(acc)@.map_values(|s: String| s@)
            + acag_region_numbers(40),
{
    let nrs: [(u32, u32); 2] = [(3901, 3912), (39001, 39007)];
    let retired: [u32; 2] = [3906, 39003];
    proof {
        assert(nrs@ =~= acag_region(40).0);
        assert(retired@ =~= acag_region(40).1);
    }
    push_region(acc, &nrs, &retired, false);
}

/// Appends the numbers of region 41 (福岡).
fn push_region_41(acc: &mut Vec<String>)
    ensures
        final(acc)@.map_values(|s: String| s@) == old(acc)@.map_values(|s: String| s@)
            + acag_region_numbers(41),
{
    let nrs: [(u32, u32); 4] = [(4007, 4037), (40001, 40018), (400101, 400107), (402101, 402107)];
    let retired: [u32; 11] = [4013, 4014, 4021, 4028, 40002, 40003, 40008, 40010, 40013, 40016, 40017];
    proof {
        assert(nrs@ =~= acag_region(41).0);
        assert(retired@ =~= acag_region(41).1);
    }
    push_region(acc, &nrs, &retired, false);
}

/// Appends the numbers of region 42 (佐賀).
fn push_region_42(acc: &mut Vec<String>)
    ensures
        final(acc)@.map_values(|s: String| s@) == old(acc)@.map_values(|s: String| s@)
            + acag_region_numbers(42),
{
    let nrs: [(u32, u32); 2] = [(4101, 4110), (41002, 41008)];
    let retired: [u32; 1] = [41004];
    proof {
        assert(nrs@ =~= acag_region(42).0);
        assert(retired@ =~= acag_region(42).1);
    }
    push_region(acc, &nrs, &retired, false);
}

/// Appends the numbers of region 43 (長崎).
fn push_region_43(acc: &mut Vec<String>)
    ensures
        final(acc)@.map_values(|s: String| s@) == old(acc)@.map_values(|s: String| s@)
            + acag_region_numbers(43),
{
    let nrs: [(u32, u32); 2] = [(4201, 4214), (42004, 42009)];
    let retired: [u32; 3] = [4206, 42005, 42008];
    proof {
        assert(nrs@ =~= acag_region(43).0);
        assert(retired@ =~= acag_region(43).1);
    }
    push_region(acc, &nrs, &retired, false);
}

/// Appends the numbers of region 44 (熊本).
fn push_region_44(acc: &mut Vec<String>)
    ensures
        final(acc)@.map_values(|s: String| s@) == old(acc)@.map_values(|s: String| s@)
            + acag_region_numbers(44),
{
    let nrs: [(u32, u32); 3] = [(4302, 4316), (43001, 43012), (430101, 430105)];
    let retired: [u32; 5] = [4307, 4309, 43004, 43006, 43011];
    proof {
        assert(nrs@ =~= acag_region(44).0);
        assert(retired@ =~= acag_region(44).1);
    }
    push_region(acc, &nrs, &retired, false);
}

/// Appends the numbers of region 45 (大分).
fn push_region_45(acc: &mut Vec<String>)
    ensures
        final(acc)@.map_values(|s: String| s@) == old(acc)@.map_values(|s: String| s@)
            + acag_region_numbers(45),
{
    let nrs: [(u32, u32); 3] = [(4401, 4415), (44005, 44005), (44009, 44010)];
    let retired: [u32; 1] = [4409];
    proof {
        assert(nrs@ =~= acag_region(45).0);
        assert(retired@ =~= acag_region(45).1);
    }
    push_region(acc, &nrs, &retired, false);
}

/// Appends the numbers of region 46 (宮崎).
fn push_region_46(acc: &mut Vec<String>)
    ensures
        final(acc)@.map_values(|s: String| s@) == old(acc)@.map_values(|s: String| s@)
            + acag_region_numbers(46),
{
    let nrs: [(u32, u32); 2] = [(4501, 4509), (45001, 45006)];
    let retired: [u32; 0] = [];
    proof {
        assert(nrs@ =~= acag_region(46).0);
        assert(retired@ =~= acag_region(46).1);
    }
    push_region(acc, &nrs, &retired, false);
}

/// Appends the numbers of region 47 (鹿児島).
fn push_region_47(acc: &mut Vec<String>)
    ensures
        final(acc)@.map_values(|s: String| s@) == old(acc)@.map_values(|s: String| s@)
            + acag_region_numbers(47),
{
    let nrs: [(u32, u32); 2] = [(4601, 4626), (46001, 46011)];
    let retired: [u32; 11] = [4602, 4605, 4608, 4609, 4611, 4612, 4613, 46002, 46004, 46007, 46012];
    proof {
        assert(nrs@ =~= acag_region(47).0);
        assert(retired@ =~= acag_region(47).1);
    }
    push_region(acc, &nrs, &retired, false);
}

/// Appends the numbers of region 48 (沖縄).
fn push_region_48(acc: &mut Vec<String>)
    ensures
        final(acc)@.map_values(|s: String| s@) == old(acc)@.map_values(|s: String| s@)
            + acag_region_numbers(48),
{
    let nrs: [(u32, u32); 2] = [(4701, 4715), (47001, 47005)];
    let retired: [u32; 4] = [4702, 4703, 4705, 4707];
    proof {
        assert(nrs@ =~= acag_region(48).0);
        assert(retired@ =~= acag_region(48).1);
    }
    push_region(acc, &nrs, &retired, false);
}

fn push_region_at(acc: &mut Vec<String>, k: usize)
    requires
        k < ACAG_REGIONS,
    ensures
        final(acc)@.map_values(|s: String| s@) == old(acc)@.map_values(|s: String| s@)
            + acag_region_numbers(k as int),
{
    if k == 0 {
        push_region_0(acc);
    } else if k == 1 {
        push_region_1(acc);
    } else if k == 2 {
        push_region_2(acc);
    } else if k == 3 {
        push_region_3(acc);
    } else if k == 4 {
        push_region_4(acc);
    } else if k == 5 {
        push_region_5(acc);
    } else if k == 6 {
        push_region_6(acc);
    } else if k == 7 {
        push_region_7(acc);
    } else if k == 8 {
        push_region_8(acc);
    } else if k == 9 {
        push_region_9(acc);
    } else if k == 10 {
        push_region_10(acc);
    } else if k == 11 {
        push_region_11(acc);
    } else if k == 12 {
        push_region_12(acc);
    } else if k == 13 {
        push_region_13(acc);
    } else if k == 14 {
        push_region_14(acc);
    } else if k == 15 {
        push_region_15(acc);
    } else if k == 16 {
        push_region_16(acc);
    } else if k == 17 {
        push_region_17(acc);
    } else if k == 18 {
        push_region_18(acc);
    } else if k == 19 {
        push_region_19(acc);
    } else if k == 20 {
        push_region_20(acc);
    } else if k == 21 {
        push_region_21(acc);
    } else if k == 22 {
        push_region_22(acc);
    } else if k == 23 {
        push_region_23(acc);
    } else if k == 24 {
        push_region_24(acc);
    } else if k == 25 {
        push_region_25(acc);
    } else if k == 26 {
        push_region_26(acc);
    } else if k == 27 {
        push_region_27(acc);
    } else if k == 28 {
        push_region_28(acc);
    } else if k == 29 {
        push_region_29(acc);
    } else if k == 30 {
        push_region_30(acc);
    } else if k == 31 {
        push_region_31(acc);
    } else if k == 32 {
        push_region_32(acc);
    } else if k == 33 {
        push_region_33(acc);
    } else if k == 34 {
        push_region_34(acc);
    } else if k == 35 {
        push_region_35(acc);
    } else if k == 36 {
        push_region_36(acc);
    } else if k == 37 {
        push_region_37(acc);
    } else if k == 38 {
        push_region_38(acc);
    } else if k == 39 {
        push_region_39(acc);
    } else if k == 40 {
        push_region_40(acc);
    } else if k == 41 {
        push_region_41(acc);
    } else if k == 42 {
        push_region_42(acc);
    } else if k == 43 {
        push_region_43(acc);
    } else if k == 44 {
        push_region_44(acc);
    } else if k == 45 {
        push_region_45(acc);
    } else if k == 46 {
        push_region_46(acc);
    } else if k == 47 {
        push_region_47(acc);
    } else if k == 48 {
        push_region_48(acc);
    } else {
        assert(false);
    }
}

/// The table has numbers: the first region ends in a number still in use.
proof fn lemma_table_nonempty()
    ensures
        acag_numbers_spec().len() > 0,
{
    let r = acag_region(0);
    assert(!r.1.contains(10110u32));
    lemma_last_range_nonempty(r.0, r.1, r.2);
    lemma_prefix_grows(ACAG_REGIONS as nat);
}

/// Each prefix of the table holds the first region's numbers.
proof fn lemma_prefix_grows(n: nat)
    requires
        n >= 1,
    ensures
        acag_prefix(n).len() >= acag_region_numbers(0).len(),
    decreases n,
{
    if n > 1 {
        lemma_prefix_grows((n - 1) as nat);
    } else {
        assert(acag_prefix(0) =~= Seq::<Seq<char>>::empty());
    }
}

/// The power letter of a draw: H for 0 to 99, M for 100 to 199, L for 200
/// to 224, P above.
pub open spec fn acag_power(draw: u8) -> char {
    if draw <= 99 {
        'H'
    } else if draw <= 199 {
        'M'
    } else if draw <= 224 {
        'L'
    } else {
        'P'
    }
}

/// A source of All-Cities/All-Gun exchanges; it never runs dry.
pub struct ACAGNumberGen {
    acag_nr: Vec<String>,
}

impl Default for ACAGNumberGen {
    fn default() -> (r: Self)
        ensures
            r.numbers().len() > 0,
    {
        Self::new()
    }
}

impl ACAGNumberGen {
    /// The city and county numbers that can be drawn.
    pub closed spec fn numbers(&self) -> Seq<Seq<char>> {
        self.acag_nr@.map_values(|s: String| s@)
    }

    /// The numbers of every prefecture, from the table of valid ranges and
    /// retired numbers (see [`acag_region`]).
    pub fn new() -> (r: Self)
        ensures
            r.numbers() == acag_numbers_spec(),
            r.numbers().len() > 0,
    {
        let mut acag_nr: Vec<String> = Vec::new();
        let mut k: usize = 0;
        while k < ACAG_REGIONS
            invariant
                k <= ACAG_REGIONS,
                acag_nr@.map_values(|s: String| s@) == acag_prefix(k as nat),
            decreases ACAG_REGIONS - k,
        {
            push_region_at(&mut acag_nr, k);
            k = k + 1;
        }
        proof {
            lemma_table_nonempty();
        }
        ACAGNumberGen { acag_nr }
    }

    /// How many numbers the table holds.
    pub fn len(&self) -> (r: usize)
        ensures
            r == self.numbers().len(),
    {
        self.acag_nr.len()
    }

    /// The exchange for number `index` of the table and power draw `power`.
    pub fn number_at(&self, index: usize, power: u8) -> (r: String)
        requires
            index < self.numbers().len(),
        ensures
            r@ == self.numbers()[index as int].push(acag_power(power)),
    {
        let mut s = self.acag_nr[index].clone();
        let c = if power <= 99 {
            'H'
        } else if power <= 199 {
            'M'
        } else if power <= 224 {
            'L'
        } else {
            'P'
        };
        push_char(&mut s, c);
        s
    }

    /// Draws an exchange: a random number of the table and a random power.
    /// Nothing is drawn only from an empty table.
    pub fn next(&self) -> (r: Option<String>)
        ensures
            r is None <==> self.numbers().len() == 0,
            r matches Some(s) ==> exists|i: int, p: u8|
                0 <= i < self.numbers().len() && s@ == self.numbers()[i].push(acag_power(p)),
    {
        if self.acag_nr.len() == 0 {
            return None;
        }
        let idx = random_below(self.acag_nr.len());
        let power = random_byte();
        let s = self.number_at(idx, power);
        Some(s)
    }
}

} // verus!
