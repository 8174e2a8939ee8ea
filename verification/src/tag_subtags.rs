//! What the language-tag tables say about a tag's code: its region is the
//! market named by its region subtag, and its language the one named by its
//! primary subtag.

use vstd::prelude::*;

use crate::codes::{
    lang_by_rank, lang_code, market_by_rank, market_code, pair_rank, tag_code, tag_lang,
    tag_region, Lang, LanguageTag, Market,
};
use crate::codes::{lemma_lang_rank, lemma_market_rank};

verus! {

pub open spec fn is_ascii_upper_letter(c: char) -> bool {
    'A' <= c <= 'Z'
}

/// Position `i` of `code` starts a region subtag: two upper-case ASCII
/// letters that make up a whole subtag other than the first.
pub open spec fn region_subtag_at(code: Seq<char>, i: int) -> bool {
    &&& 1 <= i
    &&& i + 2 <= code.len()
    &&& code[i - 1] == '-'
    &&& is_ascii_upper_letter(code[i])
    &&& is_ascii_upper_letter(code[i + 1])
    &&& (i + 2 == code.len() || code[i + 2] == '-')
}

/// The primary (first) subtag of `code` is `p`.
pub open spec fn primary_subtag_is(code: Seq<char>, p: Seq<char>) -> bool {
    &&& p.len() <= code.len()
    &&& code.take(p.len() as int) == p
    &&& (code.len() == p.len() || code[p.len() as int] == '-')
}

spec fn region_law(t: LanguageTag) -> bool {
    let c = tag_code(t);
    &&& (tag_region(t) matches Some(m) ==> (exists|i: int|
        region_subtag_at(c, i) && #[trigger] c.subrange(i, i + 2) == market_code(m)))
    &&& (tag_region(t) matches Some(m) ==> (forall|i: int|
        #[trigger] region_subtag_at(c, i) ==> c.subrange(i, i + 2) == market_code(m)))
    &&& (tag_region(t) is None ==> (forall|i: int, m: Market|
        #![trigger region_subtag_at(c, i), market_code(m)]
        region_subtag_at(c, i) ==> c.subrange(i, i + 2) != market_code(m)))
}

spec fn lang_law(t: LanguageTag) -> bool {
    &&& (tag_lang(t) matches Some(l) ==> primary_subtag_is(tag_code(t), lang_code(l)))
    &&& (tag_lang(t) is None ==> (forall|l: Lang|
        !primary_subtag_is(tag_code(t), #[trigger] lang_code(l))))
}

proof fn lemma_region_cases(c: Seq<char>)
    requires
        c.len() <= 14,
    ensures
        forall|i: int|
            #[trigger] region_subtag_at(c, i) ==> (i == 1 || i == 2 || i == 3 || i == 4 || i == 5
                || i == 6 || i == 7 || i == 8 || i == 9 || i == 10 || i == 11 || i == 12),
{
}

/// No market has a code whose rank no market holds.
proof fn lemma_no_market_with_code(r: Seq<char>)
    requires
        market_by_rank(pair_rank(r)) is None,
    ensures
        forall|m: Market| #[trigger] market_code(m) != r,
{
    assert forall|m: Market| #[trigger] market_code(m) != r by {
        lemma_market_rank(m);
    }
}

/// Every language code has two letters.
proof fn lemma_lang_codes_two_letters()
    ensures
        forall|l: Lang| (#[trigger] lang_code(l)).len() == 2,
{
    assert forall|l: Lang| (#[trigger] lang_code(l)).len() == 2 by {
        lemma_lang_rank(l);
        if lang_code(l).len() != 2 {
            assert(pair_rank(lang_code(l)) == -1);
            assert(lang_by_rank(-1) is None);
        }
    }
}


#[verifier::spinoff_prover]
#[verifier::rlimit(80)]
proof fn lemma_tag_subtags_part0(x: LanguageTag)
    requires
        x is Af || x is AfZa || x is Am || x is AmEt || x is Ar || x is ArAe || x is ArBh || x is ArDz || x is ArEg || x is ArIq || x is ArJo || x is ArKw || x is ArLb || x is ArLy || x is ArMa || x is ArOm || x is ArQa || x is ArSa || x is ArSy || x is ArTn || x is ArYe || x is As || x is AsIn || x is Az || x is AzArab || x is AzArabAz || x is AzCyrl || x is AzCyrlAz || x is AzLatn || x is AzLatnAz || x is Be || x is BeBy || x is Bg || x is BgBg || x is Bn || x is BnBd || x is BnIn || x is Bs || x is BsCyrl || x is BsCyrlBa || x is BsLatn || x is BsLatnBa || x is Ca,
    ensures
        region_law(x),
        lang_law(x),
{
    match x {
        LanguageTag::Af => {
            reveal_strlit("af");
            lemma_region_cases(tag_code(x));
            reveal_strlit("af");
            assert(tag_code(x).take(2) =~= lang_code(Lang::Af));
        },
        LanguageTag::AfZa => {
            reveal_strlit("af-ZA");
            lemma_region_cases(tag_code(x));
            reveal_strlit("ZA");
            assert(tag_code(x).subrange(3, 5) =~= market_code(Market::Za));
            assert(region_subtag_at(tag_code(x), 3));
            reveal_strlit("af");
            assert(tag_code(x).take(2) =~= lang_code(Lang::Af));
        },
        LanguageTag::Am => {
            reveal_strlit("am");
            lemma_region_cases(tag_code(x));
            reveal_strlit("am");
            assert(tag_code(x).take(2) =~= lang_code(Lang::Am));
        },
        LanguageTag::AmEt => {
            reveal_strlit("am-ET");
            lemma_region_cases(tag_code(x));
            reveal_strlit("ET");
            assert(tag_code(x).subrange(3, 5) =~= market_code(Market::Et));
            assert(region_subtag_at(tag_code(x), 3));
            reveal_strlit("am");
            assert(tag_code(x).take(2) =~= lang_code(Lang::Am));
        },
        LanguageTag::Ar => {
            reveal_strlit("ar");
            lemma_region_cases(tag_code(x));
            reveal_strlit("ar");
            assert(tag_code(x).take(2) =~= lang_code(Lang::Ar));
        },
        LanguageTag::ArAe => {
            reveal_strlit("ar-AE");
            lemma_region_cases(tag_code(x));
            reveal_strlit("AE");
            assert(tag_code(x).subrange(3, 5) =~= market_code(Market::Ae));
            assert(region_subtag_at(tag_code(x), 3));
            reveal_strlit("ar");
            assert(tag_code(x).take(2) =~= lang_code(Lang::Ar));
        },
        LanguageTag::ArBh => {
            reveal_strlit("ar-BH");
            lemma_region_cases(tag_code(x));
            reveal_strlit("BH");
            assert(tag_code(x).subrange(3, 5) =~= market_code(Market::Bh));
            assert(region_subtag_at(tag_code(x), 3));
            reveal_strlit("ar");
            assert(tag_code(x).take(2) =~= lang_code(Lang::Ar));
        },
        LanguageTag::ArDz => {
            reveal_strlit("ar-DZ");
            lemma_region_cases(tag_code(x));
            reveal_strlit("DZ");
            assert(tag_code(x).subrange(3, 5) =~= market_code(Market::Dz));
            assert(region_subtag_at(tag_code(x), 3));
            reveal_strlit("ar");
            assert(tag_code(x).take(2) =~= lang_code(Lang::Ar));
        },
        LanguageTag::ArEg => {
            reveal_strlit("ar-EG");
            lemma_region_cases(tag_code(x));
            reveal_strlit("EG");
            assert(tag_code(x).subrange(3, 5) =~= market_code(Market::Eg));
            assert(region_subtag_at(tag_code(x), 3));
            reveal_strlit("ar");
            assert(tag_code(x).take(2) =~= lang_code(Lang::Ar));
        },
        LanguageTag::ArIq => {
            reveal_strlit("ar-IQ");
            lemma_region_cases(tag_code(x));
            reveal_strlit("IQ");
            assert(tag_code(x).subrange(3, 5) =~= market_code(Market::Iq));
            assert(region_subtag_at(tag_code(x), 3));
            reveal_strlit("ar");
            assert(tag_code(x).take(2) =~= lang_code(Lang::Ar));
        },
        LanguageTag::ArJo => {
            reveal_strlit("ar-JO");
            lemma_region_cases(tag_code(x));
            reveal_strlit("JO");
            assert(tag_code(x).subrange(3, 5) =~= market_code(Market::Jo));
            assert(region_subtag_at(tag_code(x), 3));
            reveal_strlit("ar");
            assert(tag_code(x).take(2) =~= lang_code(Lang::Ar));
        },
        LanguageTag::ArKw => {
            reveal_strlit("ar-KW");
            lemma_region_cases(tag_code(x));
            reveal_strlit("KW");
            assert(tag_code(x).subrange(3, 5) =~= market_code(Market::Kw));
            assert(region_subtag_at(tag_code(x), 3));
            reveal_strlit("ar");
            assert(tag_code(x).take(2) =~= lang_code(Lang::Ar));
        },
        LanguageTag::ArLb => {
            reveal_strlit("ar-LB");
            lemma_region_cases(tag_code(x));
            reveal_strlit("LB");
            assert(tag_code(x).subrange(3, 5) =~= market_code(Market::Lb));
            assert(region_subtag_at(tag_code(x), 3));
            reveal_strlit("ar");
            assert(tag_code(x).take(2) =~= lang_code(Lang::Ar));
        },
        LanguageTag::ArLy => {
            reveal_strlit("ar-LY");
            lemma_region_cases(tag_code(x));
            reveal_strlit("LY");
            assert(tag_code(x).subrange(3, 5) =~= market_code(Market::Ly));
            assert(region_subtag_at(tag_code(x), 3));
            reveal_strlit("ar");
            assert(tag_code(x).take(2) =~= lang_code(Lang::Ar));
        },
        LanguageTag::ArMa => {
            reveal_strlit("ar-MA");
            lemma_region_cases(tag_code(x));
            reveal_strlit("MA");
            assert(tag_code(x).subrange(3, 5) =~= market_code(Market::Ma));
            assert(region_subtag_at(tag_code(x), 3));
            reveal_strlit("ar");
            assert(tag_code(x).take(2) =~= lang_code(Lang::Ar));
        },
        LanguageTag::ArOm => {
            reveal_strlit("ar-OM");
            lemma_region_cases(tag_code(x));
            reveal_strlit("OM");
            assert(tag_code(x).subrange(3, 5) =~= market_code(Market::Om));
            assert(region_subtag_at(tag_code(x), 3));
            reveal_strlit("ar");
            assert(tag_code(x).take(2) =~= lang_code(Lang::Ar));
        },
        LanguageTag::ArQa => {
            reveal_strlit("ar-QA");
            lemma_region_cases(tag_code(x));
            reveal_strlit("QA");
            assert(tag_code(x).subrange(3, 5) =~= market_code(Market::Qa));
            assert(region_subtag_at(tag_code(x), 3));
            reveal_strlit("ar");
            assert(tag_code(x).take(2) =~= lang_code(Lang::Ar));
        },
        LanguageTag::ArSa => {
            reveal_strlit("ar-SA");
            lemma_region_cases(tag_code(x));
            reveal_strlit("SA");
            assert(tag_code(x).subrange(3, 5) =~= market_code(Market::Sa));
            assert(region_subtag_at(tag_code(x), 3));
            reveal_strlit("ar");
            assert(tag_code(x).take(2) =~= lang_code(Lang::Ar));
        },
        LanguageTag::ArSy => {
            reveal_strlit("ar-SY");
            lemma_region_cases(tag_code(x));
            reveal_strlit("SY");
            assert(tag_code(x).subrange(3, 5) =~= market_code(Market::Sy));
            assert(region_subtag_at(tag_code(x), 3));
            reveal_strlit("ar");
            assert(tag_code(x).take(2) =~= lang_code(Lang::Ar));
        },
        LanguageTag::ArTn => {
            reveal_strlit("ar-TN");
            lemma_region_cases(tag_code(x));
            reveal_strlit("TN");
            assert(tag_code(x).subrange(3, 5) =~= market_code(Market::Tn));
            assert(region_subtag_at(tag_code(x), 3));
            reveal_strlit("ar");
            assert(tag_code(x).take(2) =~= lang_code(Lang::Ar));
        },
        LanguageTag::ArYe => {
            reveal_strlit("ar-YE");
            lemma_region_cases(tag_code(x));
            reveal_strlit("YE");
            assert(tag_code(x).subrange(3, 5) =~= market_code(Market::Ye));
            assert(region_subtag_at(tag_code(x), 3));
            reveal_strlit("ar");
            assert(tag_code(x).take(2) =~= lang_code(Lang::Ar));
        },
        LanguageTag::As => {
            reveal_strlit("as");
            lemma_region_cases(tag_code(x));
            reveal_strlit("as");
            assert(tag_code(x).take(2) =~= lang_code(Lang::As));
        },
        LanguageTag::AsIn => {
            reveal_strlit("as-IN");
            lemma_region_cases(tag_code(x));
            reveal_strlit("IN");
            assert(tag_code(x).subrange(3, 5) =~= market_code(Market::In));
            assert(region_subtag_at(tag_code(x), 3));
            reveal_strlit("as");
            assert(tag_code(x).take(2) =~= lang_code(Lang::As));
        },
        LanguageTag::Az => {
            reveal_strlit("az");
            lemma_region_cases(tag_code(x));
            reveal_strlit("az");
            assert(tag_code(x).take(2) =~= lang_code(Lang::Az));
        },
        LanguageTag::AzArab => {
            reveal_strlit("az-Arab");
            lemma_region_cases(tag_code(x));
            reveal_strlit("az");
            assert(tag_code(x).take(2) =~= lang_code(Lang::Az));
        },
        LanguageTag::AzArabAz => {
            reveal_strlit("az-Arab-AZ");
            lemma_region_cases(tag_code(x));
            reveal_strlit("AZ");
            assert(tag_code(x).subrange(8, 10) =~= market_code(Market::Az));
            assert(region_subtag_at(tag_code(x), 8));
            reveal_strlit("az");
            assert(tag_code(x).take(2) =~= lang_code(Lang::Az));
        },
        LanguageTag::AzCyrl => {
            reveal_strlit("az-Cyrl");
            lemma_region_cases(tag_code(x));
            reveal_strlit("az");
            assert(tag_code(x).take(2) =~= lang_code(Lang::Az));
        },
        LanguageTag::AzCyrlAz => {
            reveal_strlit("az-Cyrl-AZ");
            lemma_region_cases(tag_code(x));
            reveal_strlit("AZ");
            assert(tag_code(x).subrange(8, 10) =~= market_code(Market::Az));
            assert(region_subtag_at(tag_code(x), 8));
            reveal_strlit("az");
            assert(tag_code(x).take(2) =~= lang_code(Lang::Az));
        },
        LanguageTag::AzLatn => {
            reveal_strlit("az-Latn");
            lemma_region_cases(tag_code(x));
            reveal_strlit("az");
            assert(tag_code(x).take(2) =~= lang_code(Lang::Az));
        },
        LanguageTag::AzLatnAz => {
            reveal_strlit("az-Latn-AZ");
            lemma_region_cases(tag_code(x));
            reveal_strlit("AZ");
            assert(tag_code(x).subrange(8, 10) =~= market_code(Market::Az));
            assert(region_subtag_at(tag_code(x), 8));
            reveal_strlit("az");
            assert(tag_code(x).take(2) =~= lang_code(Lang::Az));
        },
        LanguageTag::Be => {
            reveal_strlit("be");
            lemma_region_cases(tag_code(x));
            reveal_strlit("be");
            assert(tag_code(x).take(2) =~= lang_code(Lang::Be));
        },
        LanguageTag::BeBy => {
            reveal_strlit("be-BY");
            lemma_region_cases(tag_code(x));
            reveal_strlit("BY");
            assert(tag_code(x).subrange(3, 5) =~= market_code(Market::By));
            assert(region_subtag_at(tag_code(x), 3));
            reveal_strlit("be");
            assert(tag_code(x).take(2) =~= lang_code(Lang::Be));
        },
        LanguageTag::Bg => {
            reveal_strlit("bg");
            lemma_region_cases(tag_code(x));
            reveal_strlit("bg");
            assert(tag_code(x).take(2) =~= lang_code(Lang::Bg));
        },
        LanguageTag::BgBg => {
            reveal_strlit("bg-BG");
            lemma_region_cases(tag_code(x));
            reveal_strlit("BG");
            assert(tag_code(x).subrange(3, 5) =~= market_code(Market::Bg));
            assert(region_subtag_at(tag_code(x), 3));
            reveal_strlit("bg");
            assert(tag_code(x).take(2) =~= lang_code(Lang::Bg));
        },
        LanguageTag::Bn => {
            reveal_strlit("bn");
            lemma_region_cases(tag_code(x));
            reveal_strlit("bn");
            assert(tag_code(x).take(2) =~= lang_code(Lang::Bn));
        },
        LanguageTag::BnBd => {
            reveal_strlit("bn-BD");
            lemma_region_cases(tag_code(x));
            reveal_strlit("BD");
            assert(tag_code(x).subrange(3, 5) =~= market_code(Market::Bd));
            assert(region_subtag_at(tag_code(x), 3));
            reveal_strlit("bn");
            assert(tag_code(x).take(2) =~= lang_code(Lang::Bn));
        },
        LanguageTag::BnIn => {
            reveal_strlit("bn-IN");
            lemma_region_cases(tag_code(x));
            reveal_strlit("IN");
            assert(tag_code(x).subrange(3, 5) =~= market_code(Market::In));
            assert(region_subtag_at(tag_code(x), 3));
            reveal_strlit("bn");
            assert(tag_code(x).take(2) =~= lang_code(Lang::Bn));
        },
        LanguageTag::Bs => {
            reveal_strlit("bs");
            lemma_region_cases(tag_code(x));
            reveal_strlit("bs");
            assert(tag_code(x).take(2) =~= lang_code(Lang::Bs));
        },
        LanguageTag::BsCyrl => {
            reveal_strlit("bs-Cyrl");
            lemma_region_cases(tag_code(x));
            reveal_strlit("bs");
            assert(tag_code(x).take(2) =~= lang_code(Lang::Bs));
        },
        LanguageTag::BsCyrlBa => {
            reveal_strlit("bs-Cyrl-BA");
            lemma_region_cases(tag_code(x));
            reveal_strlit("BA");
            assert(tag_code(x).subrange(8, 10) =~= market_code(Market::Ba));
            assert(region_subtag_at(tag_code(x), 8));
            reveal_strlit("bs");
            assert(tag_code(x).take(2) =~= lang_code(Lang::Bs));
        },
        LanguageTag::BsLatn => {
            reveal_strlit("bs-Latn");
            lemma_region_cases(tag_code(x));
            reveal_strlit("bs");
            assert(tag_code(x).take(2) =~= lang_code(Lang::Bs));
        },
        LanguageTag::BsLatnBa => {
            reveal_strlit("bs-Latn-BA");
            lemma_region_cases(tag_code(x));
            reveal_strlit("BA");
            assert(tag_code(x).subrange(8, 10) =~= market_code(Market::Ba));
            assert(region_subtag_at(tag_code(x), 8));
            reveal_strlit("bs");
            assert(tag_code(x).take(2) =~= lang_code(Lang::Bs));
        },
        LanguageTag::Ca => {
            reveal_strlit("ca");
            lemma_region_cases(tag_code(x));
            reveal_strlit("ca");
            assert(tag_code(x).take(2) =~= lang_code(Lang::Ca));
        },
        _ => {},
    }
}

#[verifier::spinoff_prover]
#[verifier::rlimit(80)]
proof fn lemma_tag_subtags_part1(x: LanguageTag)
    requires
        x is CaEs || x is CaEsValencia || x is ChrCher || x is ChrCherUs || x is ChrLatn || x is Co || x is Cs || x is CsCz || x is Cy || x is CyGb || x is Da || x is DaDk || x is De || x is DeAt || x is DeCh || x is DeDe || x is DeLi || x is DeLu || x is El || x is ElGr || x is En || x is En011 || x is En014 || x is En018 || x is En021 || x is En029 || x is En053 || x is EnAu || x is EnBz || x is EnCa || x is EnGb || x is EnHk || x is EnId || x is EnIe || x is EnIn || x is EnJm || x is EnKz || x is EnMt || x is EnMy || x is EnNz || x is EnPh || x is EnPk || x is EnSg,
    ensures
        region_law(x),
        lang_law(x),
{
    match x {
        LanguageTag::CaEs => {
            reveal_strlit("ca-ES");
            lemma_region_cases(tag_code(x));
            reveal_strlit("ES");
            assert(tag_code(x).subrange(3, 5) =~= market_code(Market::Es));
            assert(region_subtag_at(tag_code(x), 3));
            reveal_strlit("ca");
            assert(tag_code(x).take(2) =~= lang_code(Lang::Ca));
        },
        LanguageTag::CaEsValencia => {
            reveal_strlit("ca-ES-valencia");
            lemma_region_cases(tag_code(x));
            reveal_strlit("ES");
            assert(tag_code(x).subrange(3, 5) =~= market_code(Market::Es));
            assert(region_subtag_at(tag_code(x), 3));
            reveal_strlit("ca");
            assert(tag_code(x).take(2) =~= lang_code(Lang::Ca));
        },
        LanguageTag::ChrCher => {
            reveal_strlit("chr-Cher");
            lemma_region_cases(tag_code(x));
            lemma_lang_codes_two_letters();
        },
        LanguageTag::ChrCherUs => {
            reveal_strlit("chr-Cher-US");
            lemma_region_cases(tag_code(x));
            reveal_strlit("US");
            assert(tag_code(x).subrange(9, 11) =~= market_code(Market::Us));
            assert(region_subtag_at(tag_code(x), 9));
            lemma_lang_codes_two_letters();
        },
        LanguageTag::ChrLatn => {
            reveal_strlit("chr-Latn");
            lemma_region_cases(tag_code(x));
            lemma_lang_codes_two_letters();
        },
        LanguageTag::Co => {
            reveal_strlit("co");
            lemma_region_cases(tag_code(x));
            reveal_strlit("co");
            assert(tag_code(x).take(2) =~= lang_code(Lang::Co));
        },
        LanguageTag::Cs => {
            reveal_strlit("cs");
            lemma_region_cases(tag_code(x));
            reveal_strlit("cs");
            assert(tag_code(x).take(2) =~= lang_code(Lang::Cs));
        },
        LanguageTag::CsCz => {
            reveal_strlit("cs-CZ");
            lemma_region_cases(tag_code(x));
            reveal_strlit("CZ");
            assert(tag_code(x).subrange(3, 5) =~= market_code(Market::Cz));
            assert(region_subtag_at(tag_code(x), 3));
            reveal_strlit("cs");
            assert(tag_code(x).take(2) =~= lang_code(Lang::Cs));
        },
        LanguageTag::Cy => {
            reveal_strlit("cy");
            lemma_region_cases(tag_code(x));
            reveal_strlit("cy");
            assert(tag_code(x).take(2) =~= lang_code(Lang::Cy));
        },
        LanguageTag::CyGb => {
            reveal_strlit("cy-GB");
            lemma_region_cases(tag_code(x));
            reveal_strlit("GB");
            assert(tag_code(x).subrange(3, 5) =~= market_code(Market::Gb));
            assert(region_subtag_at(tag_code(x), 3));
            reveal_strlit("cy");
            assert(tag_code(x).take(2) =~= lang_code(Lang::Cy));
        },
        LanguageTag::Da => {
            reveal_strlit("da");
            lemma_region_cases(tag_code(x));
            reveal_strlit("da");
            assert(tag_code(x).take(2) =~= lang_code(Lang::Da));
        },
        LanguageTag::DaDk => {
            reveal_strlit("da-DK");
            lemma_region_cases(tag_code(x));
            reveal_strlit("DK");
            assert(tag_code(x).subrange(3, 5) =~= market_code(Market::Dk));
            assert(region_subtag_at(tag_code(x), 3));
            reveal_strlit("da");
            assert(tag_code(x).take(2) =~= lang_code(Lang::Da));
        },
        LanguageTag::De => {
            reveal_strlit("de");
            lemma_region_cases(tag_code(x));
            reveal_strlit("de");
            assert(tag_code(x).take(2) =~= lang_code(Lang::De));
        },
        LanguageTag::DeAt => {
            reveal_strlit("de-AT");
            lemma_region_cases(tag_code(x));
            reveal_strlit("AT");
            assert(tag_code(x).subrange(3, 5) =~= market_code(Market::At));
            assert(region_subtag_at(tag_code(x), 3));
            reveal_strlit("de");
            assert(tag_code(x).take(2) =~= lang_code(Lang::De));
        },
        LanguageTag::DeCh => {
            reveal_strlit("de-CH");
            lemma_region_cases(tag_code(x));
            reveal_strlit("CH");
            assert(tag_code(x).subrange(3, 5) =~= market_code(Market::Ch));
            assert(region_subtag_at(tag_code(x), 3));
            reveal_strlit("de");
            assert(tag_code(x).take(2) =~= lang_code(Lang::De));
        },
        LanguageTag::DeDe => {
            reveal_strlit("de-DE");
            lemma_region_cases(tag_code(x));
            reveal_strlit("DE");
            assert(tag_code(x).subrange(3, 5) =~= market_code(Market::De));
            assert(region_subtag_at(tag_code(x), 3));
            reveal_strlit("de");
            assert(tag_code(x).take(2) =~= lang_code(Lang::De));
        },
        LanguageTag::DeLi => {
            reveal_strlit("de-LI");
            lemma_region_cases(tag_code(x));
            reveal_strlit("LI");
            assert(tag_code(x).subrange(3, 5) =~= market_code(Market::Li));
            assert(region_subtag_at(tag_code(x), 3));
            reveal_strlit("de");
            assert(tag_code(x).take(2) =~= lang_code(Lang::De));
        },
        LanguageTag::DeLu => {
            reveal_strlit("de-LU");
            lemma_region_cases(tag_code(x));
            reveal_strlit("LU");
            assert(tag_code(x).subrange(3, 5) =~= market_code(Market::Lu));
            assert(region_subtag_at(tag_code(x), 3));
            reveal_strlit("de");
            assert(tag_code(x).take(2) =~= lang_code(Lang::De));
        },
        LanguageTag::El => {
            reveal_strlit("el");
            lemma_region_cases(tag_code(x));
            reveal_strlit("el");
            assert(tag_code(x).take(2) =~= lang_code(Lang::El));
        },
        LanguageTag::ElGr => {
            reveal_strlit("el-GR");
            lemma_region_cases(tag_code(x));
            reveal_strlit("GR");
            assert(tag_code(x).subrange(3, 5) =~= market_code(Market::Gr));
            assert(region_subtag_at(tag_code(x), 3));
            reveal_strlit("el");
            assert(tag_code(x).take(2) =~= lang_code(Lang::El));
        },
        LanguageTag::En => {
            reveal_strlit("en");
            lemma_region_cases(tag_code(x));
            reveal_strlit("en");
            assert(tag_code(x).take(2) =~= lang_code(Lang::En));
        },
        LanguageTag::En011 => {
            reveal_strlit("en-011");
            lemma_region_cases(tag_code(x));
            reveal_strlit("en");
            assert(tag_code(x).take(2) =~= lang_code(Lang::En));
        },
        LanguageTag::En014 => {
            reveal_strlit("en-014");
            lemma_region_cases(tag_code(x));
            reveal_strlit("en");
            assert(tag_code(x).take(2) =~= lang_code(Lang::En));
        },
        LanguageTag::En018 => {
            reveal_strlit("en-018");
            lemma_region_cases(tag_code(x));
            reveal_strlit("en");
            assert(tag_code(x).take(2) =~= lang_code(Lang::En));
        },
        LanguageTag::En021 => {
            reveal_strlit("en-021");
            lemma_region_cases(tag_code(x));
            reveal_strlit("en");
            assert(tag_code(x).take(2) =~= lang_code(Lang::En));
        },
        LanguageTag::En029 => {
            reveal_strlit("en-029");
            lemma_region_cases(tag_code(x));
            reveal_strlit("en");
            assert(tag_code(x).take(2) =~= lang_code(Lang::En));
        },
        LanguageTag::En053 => {
            reveal_strlit("en-053");
            lemma_region_cases(tag_code(x));
            reveal_strlit("en");
            assert(tag_code(x).take(2) =~= lang_code(Lang::En));
        },
        LanguageTag::EnAu => {
            reveal_strlit("en-AU");
            lemma_region_cases(tag_code(x));
            reveal_strlit("AU");
            assert(tag_code(x).subrange(3, 5) =~= market_code(Market::Au));
            assert(region_subtag_at(tag_code(x), 3));
            reveal_strlit("en");
            assert(tag_code(x).take(2) =~= lang_code(Lang::En));
        },
        LanguageTag::EnBz => {
            reveal_strlit("en-BZ");
            lemma_region_cases(tag_code(x));
            reveal_strlit("BZ");
            assert(tag_code(x).subrange(3, 5) =~= market_code(Market::Bz));
            assert(region_subtag_at(tag_code(x), 3));
            reveal_strlit("en");
            assert(tag_code(x).take(2) =~= lang_code(Lang::En));
        },
        LanguageTag::EnCa => {
            reveal_strlit("en-CA");
            lemma_region_cases(tag_code(x));
            reveal_strlit("CA");
            assert(tag_code(x).subrange(3, 5) =~= market_code(Market::Ca));
            assert(region_subtag_at(tag_code(x), 3));
            reveal_strlit("en");
            assert(tag_code(x).take(2) =~= lang_code(Lang::En));
        },
        LanguageTag::EnGb => {
            reveal_strlit("en-GB");
            lemma_region_cases(tag_code(x));
            reveal_strlit("GB");
            assert(tag_code(x).subrange(3, 5) =~= market_code(Market::Gb));
            assert(region_subtag_at(tag_code(x), 3));
            reveal_strlit("en");
            assert(tag_code(x).take(2) =~= lang_code(Lang::En));
        },
        LanguageTag::EnHk => {
            reveal_strlit("en-HK");
            lemma_region_cases(tag_code(x));
            reveal_strlit("HK");
            assert(tag_code(x).subrange(3, 5) =~= market_code(Market::Hk));
            assert(region_subtag_at(tag_code(x), 3));
            reveal_strlit("en");
            assert(tag_code(x).take(2) =~= lang_code(Lang::En));
        },
        LanguageTag::EnId => {
            reveal_strlit("en-ID");
            lemma_region_cases(tag_code(x));
            reveal_strlit("ID");
            assert(tag_code(x).subrange(3, 5) =~= market_code(Market::Id));
            assert(region_subtag_at(tag_code(x), 3));
            reveal_strlit("en");
            assert(tag_code(x).take(2) =~= lang_code(Lang::En));
        },
        LanguageTag::EnIe => {
            reveal_strlit("en-IE");
            lemma_region_cases(tag_code(x));
            reveal_strlit("IE");
            assert(tag_code(x).subrange(3, 5) =~= market_code(Market::Ie));
            assert(region_subtag_at(tag_code(x), 3));
            reveal_strlit("en");
            assert(tag_code(x).take(2) =~= lang_code(Lang::En));
        },
        LanguageTag::EnIn => {
            reveal_strlit("en-IN");
            lemma_region_cases(tag_code(x));
            reveal_strlit("IN");
            assert(tag_code(x).subrange(3, 5) =~= market_code(Market::In));
            assert(region_subtag_at(tag_code(x), 3));
            reveal_strlit("en");
            assert(tag_code(x).take(2) =~= lang_code(Lang::En));
        },
        LanguageTag::EnJm => {
            reveal_strlit("en-JM");
            lemma_region_cases(tag_code(x));
            reveal_strlit("JM");
            assert(tag_code(x).subrange(3, 5) =~= market_code(Market::Jm));
            assert(region_subtag_at(tag_code(x), 3));
            reveal_strlit("en");
            assert(tag_code(x).take(2) =~= lang_code(Lang::En));
        },
        LanguageTag::EnKz => {
            reveal_strlit("en-KZ");
            lemma_region_cases(tag_code(x));
            reveal_strlit("KZ");
            assert(tag_code(x).subrange(3, 5) =~= market_code(Market::Kz));
            assert(region_subtag_at(tag_code(x), 3));
            reveal_strlit("en");
            assert(tag_code(x).take(2) =~= lang_code(Lang::En));
        },
        LanguageTag::EnMt => {
            reveal_strlit("en-MT");
            lemma_region_cases(tag_code(x));
            reveal_strlit("MT");
            assert(tag_code(x).subrange(3, 5) =~= market_code(Market::Mt));
            assert(region_subtag_at(tag_code(x), 3));
            reveal_strlit("en");
            assert(tag_code(x).take(2) =~= lang_code(Lang::En));
        },
        LanguageTag::EnMy => {
            reveal_strlit("en-MY");
            lemma_region_cases(tag_code(x));
            reveal_strlit("MY");
            assert(tag_code(x).subrange(3, 5) =~= market_code(Market::My));
            assert(region_subtag_at(tag_code(x), 3));
            reveal_strlit("en");
            assert(tag_code(x).take(2) =~= lang_code(Lang::En));
        },
        LanguageTag::EnNz => {
            reveal_strlit("en-NZ");
            lemma_region_cases(tag_code(x));
            reveal_strlit("NZ");
            assert(tag_code(x).subrange(3, 5) =~= market_code(Market::Nz));
            assert(region_subtag_at(tag_code(x), 3));
            reveal_strlit("en");
            assert(tag_code(x).take(2) =~= lang_code(Lang::En));
        },
        LanguageTag::EnPh => {
            reveal_strlit("en-PH");
            lemma_region_cases(tag_code(x));
            reveal_strlit("PH");
            assert(tag_code(x).subrange(3, 5) =~= market_code(Market::Ph));
            assert(region_subtag_at(tag_code(x), 3));
            reveal_strlit("en");
            assert(tag_code(x).take(2) =~= lang_code(Lang::En));
        },
        LanguageTag::EnPk => {
            reveal_strlit("en-PK");
            lemma_region_cases(tag_code(x));
            reveal_strlit("PK");
            assert(tag_code(x).subrange(3, 5) =~= market_code(Market::Pk));
            assert(region_subtag_at(tag_code(x), 3));
            reveal_strlit("en");
            assert(tag_code(x).take(2) =~= lang_code(Lang::En));
        },
        LanguageTag::EnSg => {
            reveal_strlit("en-SG");
            lemma_region_cases(tag_code(x));
            reveal_strlit("SG");
            assert(tag_code(x).subrange(3, 5) =~= market_code(Market::Sg));
            assert(region_subtag_at(tag_code(x), 3));
            reveal_strlit("en");
            assert(tag_code(x).take(2) =~= lang_code(Lang::En));
        },
        _ => {},
    }
}

#[verifier::spinoff_prover]
#[verifier::rlimit(80)]
proof fn lemma_tag_subtags_part2(x: LanguageTag)
    requires
        x is EnTt || x is EnUs || x is EnVn || x is EnZa || x is EnZw || x is Es || x is Es019 || x is Es419 || x is EsAr || x is EsBo || x is EsCl || x is EsCo || x is EsCr || x is EsDo || x is EsEc || x is EsEs || x is EsGt || x is EsHn || x is EsMx || x is EsNi || x is EsPa || x is EsPe || x is EsPr || x is EsPy || x is EsSv || x is EsUs || x is EsUy || x is EsVe || x is Et || x is EtEe || x is Eu || x is EuEs || x is Fa || x is FaIr || x is Fi || x is FiFi || x is Fil || x is FilLatn || x is FilPh || x is Fr || x is Fr011 || x is Fr015 || x is Fr021,
    ensures
        region_law(x),
        lang_law(x),
{
    match x {
        LanguageTag::EnTt => {
            reveal_strlit("en-TT");
            lemma_region_cases(tag_code(x));
            reveal_strlit("TT");
            assert(tag_code(x).subrange(3, 5) =~= market_code(Market::Tt));
            assert(region_subtag_at(tag_code(x), 3));
            reveal_strlit("en");
            assert(tag_code(x).take(2) =~= lang_code(Lang::En));
        },
        LanguageTag::EnUs => {
            reveal_strlit("en-US");
            lemma_region_cases(tag_code(x));
            reveal_strlit("US");
            assert(tag_code(x).subrange(3, 5) =~= market_code(Market::Us));
            assert(region_subtag_at(tag_code(x), 3));
            reveal_strlit("en");
            assert(tag_code(x).take(2) =~= lang_code(Lang::En));
        },
        LanguageTag::EnVn => {
            reveal_strlit("en-VN");
            lemma_region_cases(tag_code(x));
            reveal_strlit("VN");
            assert(tag_code(x).subrange(3, 5) =~= market_code(Market::Vn));
            assert(region_subtag_at(tag_code(x), 3));
            reveal_strlit("en");
            assert(tag_code(x).take(2) =~= lang_code(Lang::En));
        },
        LanguageTag::EnZa => {
            reveal_strlit("en-ZA");
            lemma_region_cases(tag_code(x));
            reveal_strlit("ZA");
            assert(tag_code(x).subrange(3, 5) =~= market_code(Market::Za));
            assert(region_subtag_at(tag_code(x), 3));
            reveal_strlit("en");
            assert(tag_code(x).take(2) =~= lang_code(Lang::En));
        },
        LanguageTag::EnZw => {
            reveal_strlit("en-ZW");
            lemma_region_cases(tag_code(x));
            reveal_strlit("ZW");
            assert(tag_code(x).subrange(3, 5) =~= market_code(Market::Zw));
            assert(region_subtag_at(tag_code(x), 3));
            reveal_strlit("en");
            assert(tag_code(x).take(2) =~= lang_code(Lang::En));
        },
        LanguageTag::Es => {
            reveal_strlit("es");
            lemma_region_cases(tag_code(x));
            reveal_strlit("es");
            assert(tag_code(x).take(2) =~= lang_code(Lang::Es));
        },
        LanguageTag::Es019 => {
            reveal_strlit("es-019");
            lemma_region_cases(tag_code(x));
            reveal_strlit("es");
            assert(tag_code(x).take(2) =~= lang_code(Lang::Es));
        },
        LanguageTag::Es419 => {
            reveal_strlit("es-419");
            lemma_region_cases(tag_code(x));
            reveal_strlit("es");
            assert(tag_code(x).take(2) =~= lang_code(Lang::Es));
        },
        LanguageTag::EsAr => {
            reveal_strlit("es-AR");
            lemma_region_cases(tag_code(x));
            reveal_strlit("AR");
            assert(tag_code(x).subrange(3, 5) =~= market_code(Market::Ar));
            assert(region_subtag_at(tag_code(x), 3));
            reveal_strlit("es");
            assert(tag_code(x).take(2) =~= lang_code(Lang::Es));
        },
        LanguageTag::EsBo => {
            reveal_strlit("es-BO");
            lemma_region_cases(tag_code(x));
            reveal_strlit("BO");
            assert(tag_code(x).subrange(3, 5) =~= market_code(Market::Bo));
            assert(region_subtag_at(tag_code(x), 3));
            reveal_strlit("es");
            assert(tag_code(x).take(2) =~= lang_code(Lang::Es));
        },
        LanguageTag::EsCl => {
            reveal_strlit("es-CL");
            lemma_region_cases(tag_code(x));
            reveal_strlit("CL");
            assert(tag_code(x).subrange(3, 5) =~= market_code(Market::Cl));
            assert(region_subtag_at(tag_code(x), 3));
            reveal_strlit("es");
            assert(tag_code(x).take(2) =~= lang_code(Lang::Es));
        },
        LanguageTag::EsCo => {
            reveal_strlit("es-CO");
            lemma_region_cases(tag_code(x));
            reveal_strlit("CO");
            assert(tag_code(x).subrange(3, 5) =~= market_code(Market::Co));
            assert(region_subtag_at(tag_code(x), 3));
            reveal_strlit("es");
            assert(tag_code(x).take(2) =~= lang_code(Lang::Es));
        },
        LanguageTag::EsCr => {
            reveal_strlit("es-CR");
            lemma_region_cases(tag_code(x));
            reveal_strlit("CR");
            assert(tag_code(x).subrange(3, 5) =~= market_code(Market::Cr));
            assert(region_subtag_at(tag_code(x), 3));
            reveal_strlit("es");
            assert(tag_code(x).take(2) =~= lang_code(Lang::Es));
        },
        LanguageTag::EsDo => {
            reveal_strlit("es-DO");
            lemma_region_cases(tag_code(x));
            reveal_strlit("DO");
            assert(tag_code(x).subrange(3, 5) =~= market_code(Market::Do));
            assert(region_subtag_at(tag_code(x), 3));
            reveal_strlit("es");
            assert(tag_code(x).take(2) =~= lang_code(Lang::Es));
        },
        LanguageTag::EsEc => {
            reveal_strlit("es-EC");
            lemma_region_cases(tag_code(x));
            reveal_strlit("EC");
            assert(tag_code(x).subrange(3, 5) =~= market_code(Market::Ec));
            assert(region_subtag_at(tag_code(x), 3));
            reveal_strlit("es");
            assert(tag_code(x).take(2) =~= lang_code(Lang::Es));
        },
        LanguageTag::EsEs => {
            reveal_strlit("es-ES");
            lemma_region_cases(tag_code(x));
            reveal_strlit("ES");
            assert(tag_code(x).subrange(3, 5) =~= market_code(Market::Es));
            assert(region_subtag_at(tag_code(x), 3));
            reveal_strlit("es");
            assert(tag_code(x).take(2) =~= lang_code(Lang::Es));
        },
        LanguageTag::EsGt => {
            reveal_strlit("es-GT");
            lemma_region_cases(tag_code(x));
            reveal_strlit("GT");
            assert(tag_code(x).subrange(3, 5) =~= market_code(Market::Gt));
            assert(region_subtag_at(tag_code(x), 3));
            reveal_strlit("es");
            assert(tag_code(x).take(2) =~= lang_code(Lang::Es));
        },
        LanguageTag::EsHn => {
            reveal_strlit("es-HN");
            lemma_region_cases(tag_code(x));
            reveal_strlit("HN");
            assert(tag_code(x).subrange(3, 5) =~= market_code(Market::Hn));
            assert(region_subtag_at(tag_code(x), 3));
            reveal_strlit("es");
            assert(tag_code(x).take(2) =~= lang_code(Lang::Es));
        },
        LanguageTag::EsMx => {
            reveal_strlit("es-MX");
            lemma_region_cases(tag_code(x));
            reveal_strlit("MX");
            assert(tag_code(x).subrange(3, 5) =~= market_code(Market::Mx));
            assert(region_subtag_at(tag_code(x), 3));
            reveal_strlit("es");
            assert(tag_code(x).take(2) =~= lang_code(Lang::Es));
        },
        LanguageTag::EsNi => {
            reveal_strlit("es-NI");
            lemma_region_cases(tag_code(x));
            reveal_strlit("NI");
            assert(tag_code(x).subrange(3, 5) =~= market_code(Market::Ni));
            assert(region_subtag_at(tag_code(x), 3));
            reveal_strlit("es");
            assert(tag_code(x).take(2) =~= lang_code(Lang::Es));
        },
        LanguageTag::EsPa => {
            reveal_strlit("es-PA");
            lemma_region_cases(tag_code(x));
            reveal_strlit("PA");
            assert(tag_code(x).subrange(3, 5) =~= market_code(Market::Pa));
            assert(region_subtag_at(tag_code(x), 3));
            reveal_strlit("es");
            assert(tag_code(x).take(2) =~= lang_code(Lang::Es));
        },
        LanguageTag::EsPe => {
            reveal_strlit("es-PE");
            lemma_region_cases(tag_code(x));
            reveal_strlit("PE");
            assert(tag_code(x).subrange(3, 5) =~= market_code(Market::Pe));
            assert(region_subtag_at(tag_code(x), 3));
            reveal_strlit("es");
            assert(tag_code(x).take(2) =~= lang_code(Lang::Es));
        },
        LanguageTag::EsPr => {
            reveal_strlit("es-PR");
            lemma_region_cases(tag_code(x));
            reveal_strlit("PR");
            assert(tag_code(x).subrange(3, 5) =~= market_code(Market::Pr));
            assert(region_subtag_at(tag_code(x), 3));
            reveal_strlit("es");
            assert(tag_code(x).take(2) =~= lang_code(Lang::Es));
        },
        LanguageTag::EsPy => {
            reveal_strlit("es-PY");
            lemma_region_cases(tag_code(x));
            reveal_strlit("PY");
            assert(tag_code(x).subrange(3, 5) =~= market_code(Market::Py));
            assert(region_subtag_at(tag_code(x), 3));
            reveal_strlit("es");
            assert(tag_code(x).take(2) =~= lang_code(Lang::Es));
        },
        LanguageTag::EsSv => {
            reveal_strlit("es-SV");
            lemma_region_cases(tag_code(x));
            reveal_strlit("SV");
            assert(tag_code(x).subrange(3, 5) =~= market_code(Market::Sv));
            assert(region_subtag_at(tag_code(x), 3));
            reveal_strlit("es");
            assert(tag_code(x).take(2) =~= lang_code(Lang::Es));
        },
        LanguageTag::EsUs => {
            reveal_strlit("es-US");
            lemma_region_cases(tag_code(x));
            reveal_strlit("US");
            assert(tag_code(x).subrange(3, 5) =~= market_code(Market::Us));
            assert(region_subtag_at(tag_code(x), 3));
            reveal_strlit("es");
            assert(tag_code(x).take(2) =~= lang_code(Lang::Es));
        },
        LanguageTag::EsUy => {
            reveal_strlit("es-UY");
            lemma_region_cases(tag_code(x));
            reveal_strlit("UY");
            assert(tag_code(x).subrange(3, 5) =~= market_code(Market::Uy));
            assert(region_subtag_at(tag_code(x), 3));
            reveal_strlit("es");
            assert(tag_code(x).take(2) =~= lang_code(Lang::Es));
        },
        LanguageTag::EsVe => {
            reveal_strlit("es-VE");
            lemma_region_cases(tag_code(x));
            reveal_strlit("VE");
            assert(tag_code(x).subrange(3, 5) =~= market_code(Market::Ve));
            assert(region_subtag_at(tag_code(x), 3));
            reveal_strlit("es");
            assert(tag_code(x).take(2) =~= lang_code(Lang::Es));
        },
        LanguageTag::Et => {
            reveal_strlit("et");
            lemma_region_cases(tag_code(x));
            reveal_strlit("et");
            assert(tag_code(x).take(2) =~= lang_code(Lang::Et));
        },
        LanguageTag::EtEe => {
            reveal_strlit("et-EE");
            lemma_region_cases(tag_code(x));
            reveal_strlit("EE");
            assert(tag_code(x).subrange(3, 5) =~= market_code(Market::Ee));
            assert(region_subtag_at(tag_code(x), 3));
            reveal_strlit("et");
            assert(tag_code(x).take(2) =~= lang_code(Lang::Et));
        },
        LanguageTag::Eu => {
            reveal_strlit("eu");
            lemma_region_cases(tag_code(x));
            reveal_strlit("eu");
            assert(tag_code(x).take(2) =~= lang_code(Lang::Eu));
        },
        LanguageTag::EuEs => {
            reveal_strlit("eu-ES");
            lemma_region_cases(tag_code(x));
            reveal_strlit("ES");
            assert(tag_code(x).subrange(3, 5) =~= market_code(Market::Es));
            assert(region_subtag_at(tag_code(x), 3));
            reveal_strlit("eu");
            assert(tag_code(x).take(2) =~= lang_code(Lang::Eu));
        },
        LanguageTag::Fa => {
            reveal_strlit("fa");
            lemma_region_cases(tag_code(x));
            reveal_strlit("fa");
            assert(tag_code(x).take(2) =~= lang_code(Lang::Fa));
        },
        LanguageTag::FaIr => {
            reveal_strlit("fa-IR");
            lemma_region_cases(tag_code(x));
            reveal_strlit("IR");
            assert(tag_code(x).subrange(3, 5) =~= market_code(Market::Ir));
            assert(region_subtag_at(tag_code(x), 3));
            reveal_strlit("fa");
            assert(tag_code(x).take(2) =~= lang_code(Lang::Fa));
        },
        LanguageTag::Fi => {
            reveal_strlit("fi");
            lemma_region_cases(tag_code(x));
            reveal_strlit("fi");
            assert(tag_code(x).take(2) =~= lang_code(Lang::Fi));
        },
        LanguageTag::FiFi => {
            reveal_strlit("fi-FI");
            lemma_region_cases(tag_code(x));
            reveal_strlit("FI");
            assert(tag_code(x).subrange(3, 5) =~= market_code(Market::Fi));
            assert(region_subtag_at(tag_code(x), 3));
            reveal_strlit("fi");
            assert(tag_code(x).take(2) =~= lang_code(Lang::Fi));
        },
        LanguageTag::Fil => {
            reveal_strlit("fil");
            lemma_region_cases(tag_code(x));
            lemma_lang_codes_two_letters();
        },
        LanguageTag::FilLatn => {
            reveal_strlit("fil-Latn");
            lemma_region_cases(tag_code(x));
            lemma_lang_codes_two_letters();
        },
        LanguageTag::FilPh => {
            reveal_strlit("fil-PH");
            lemma_region_cases(tag_code(x));
            reveal_strlit("PH");
            assert(tag_code(x).subrange(4, 6) =~= market_code(Market::Ph));
            assert(region_subtag_at(tag_code(x), 4));
            lemma_lang_codes_two_letters();
        },
        LanguageTag::Fr => {
            reveal_strlit("fr");
            lemma_region_cases(tag_code(x));
            reveal_strlit("fr");
            assert(tag_code(x).take(2) =~= lang_code(Lang::Fr));
        },
        LanguageTag::Fr011 => {
            reveal_strlit("fr-011");
            lemma_region_cases(tag_code(x));
            reveal_strlit("fr");
            assert(tag_code(x).take(2) =~= lang_code(Lang::Fr));
        },
        LanguageTag::Fr015 => {
            reveal_strlit("fr-015");
            lemma_region_cases(tag_code(x));
            reveal_strlit("fr");
            assert(tag_code(x).take(2) =~= lang_code(Lang::Fr));
        },
        LanguageTag::Fr021 => {
            reveal_strlit("fr-021");
            lemma_region_cases(tag_code(x));
            reveal_strlit("fr");
            assert(tag_code(x).take(2) =~= lang_code(Lang::Fr));
        },
        _ => {},
    }
}

#[verifier::spinoff_prover]
#[verifier::rlimit(80)]
proof fn lemma_tag_subtags_part3(x: LanguageTag)
    requires
        x is Fr029 || x is Fr155 || x is FrBe || x is FrCa || x is FrCd || x is FrCh || x is FrCi || x is FrCm || x is FrFr || x is FrHt || x is FrLu || x is FrMa || x is FrMc || x is FrMl || x is FrRe || x is FrcLatn || x is FrpLatn || x is Ga || x is GaIe || x is Gd || x is GdGb || x is GdLatn || x is Gl || x is GlEs || x is Gu || x is GuIn || x is Ha || x is HaLatn || x is HaLatnNg || x is He || x is HeIl || x is Hi || x is HiIn || x is Hr || x is HrBa || x is HrHr || x is Hu || x is HuHu || x is Hy || x is HyAm || x is Id || x is IdId || x is IgLatn,
    ensures
        region_law(x),
        lang_law(x),
{
    match x {
        LanguageTag::Fr029 => {
            reveal_strlit("fr-029");
            lemma_region_cases(tag_code(x));
            reveal_strlit("fr");
            assert(tag_code(x).take(2) =~= lang_code(Lang::Fr));
        },
        LanguageTag::Fr155 => {
            reveal_strlit("fr-155");
            lemma_region_cases(tag_code(x));
            reveal_strlit("fr");
            assert(tag_code(x).take(2) =~= lang_code(Lang::Fr));
        },
        LanguageTag::FrBe => {
            reveal_strlit("fr-BE");
            lemma_region_cases(tag_code(x));
            reveal_strlit("BE");
            assert(tag_code(x).subrange(3, 5) =~= market_code(Market::Be));
            assert(region_subtag_at(tag_code(x), 3));
            reveal_strlit("fr");
            assert(tag_code(x).take(2) =~= lang_code(Lang::Fr));
        },
        LanguageTag::FrCa => {
            reveal_strlit("fr-CA");
            lemma_region_cases(tag_code(x));
            reveal_strlit("CA");
            assert(tag_code(x).subrange(3, 5) =~= market_code(Market::Ca));
            assert(region_subtag_at(tag_code(x), 3));
            reveal_strlit("fr");
            assert(tag_code(x).take(2) =~= lang_code(Lang::Fr));
        },
        LanguageTag::FrCd => {
            reveal_strlit("fr-CD");
            lemma_region_cases(tag_code(x));
            reveal_strlit("CD");
            assert(tag_code(x).subrange(3, 5) =~= market_code(Market::Cd));
            assert(region_subtag_at(tag_code(x), 3));
            reveal_strlit("fr");
            assert(tag_code(x).take(2) =~= lang_code(Lang::Fr));
        },
        LanguageTag::FrCh => {
            reveal_strlit("fr-CH");
            lemma_region_cases(tag_code(x));
            reveal_strlit("CH");
            assert(tag_code(x).subrange(3, 5) =~= market_code(Market::Ch));
            assert(region_subtag_at(tag_code(x), 3));
            reveal_strlit("fr");
            assert(tag_code(x).take(2) =~= lang_code(Lang::Fr));
        },
        LanguageTag::FrCi => {
            reveal_strlit("fr-CI");
            lemma_region_cases(tag_code(x));
            reveal_strlit("CI");
            assert(tag_code(x).subrange(3, 5) =~= market_code(Market::Ci));
            assert(region_subtag_at(tag_code(x), 3));
            reveal_strlit("fr");
            assert(tag_code(x).take(2) =~= lang_code(Lang::Fr));
        },
        LanguageTag::FrCm => {
            reveal_strlit("fr-CM");
            lemma_region_cases(tag_code(x));
            reveal_strlit("CM");
            assert(tag_code(x).subrange(3, 5) =~= market_code(Market::Cm));
            assert(region_subtag_at(tag_code(x), 3));
            reveal_strlit("fr");
            assert(tag_code(x).take(2) =~= lang_code(Lang::Fr));
        },
        LanguageTag::FrFr => {
            reveal_strlit("fr-FR");
            lemma_region_cases(tag_code(x));
            reveal_strlit("FR");
            assert(tag_code(x).subrange(3, 5) =~= market_code(Market::Fr));
            assert(region_subtag_at(tag_code(x), 3));
            reveal_strlit("fr");
            assert(tag_code(x).take(2) =~= lang_code(Lang::Fr));
        },
        LanguageTag::FrHt => {
            reveal_strlit("fr-HT");
            lemma_region_cases(tag_code(x));
            reveal_strlit("HT");
            assert(tag_code(x).subrange(3, 5) =~= market_code(Market::Ht));
            assert(region_subtag_at(tag_code(x), 3));
            reveal_strlit("fr");
            assert(tag_code(x).take(2) =~= lang_code(Lang::Fr));
        },
        LanguageTag::FrLu => {
            reveal_strlit("fr-LU");
            lemma_region_cases(tag_code(x));
            reveal_strlit("LU");
            assert(tag_code(x).subrange(3, 5) =~= market_code(Market::Lu));
            assert(region_subtag_at(tag_code(x), 3));
            reveal_strlit("fr");
            assert(tag_code(x).take(2) =~= lang_code(Lang::Fr));
        },
        LanguageTag::FrMa => {
            reveal_strlit("fr-MA");
            lemma_region_cases(tag_code(x));
            reveal_strlit("MA");
            assert(tag_code(x).subrange(3, 5) =~= market_code(Market::Ma));
            assert(region_subtag_at(tag_code(x), 3));
            reveal_strlit("fr");
            assert(tag_code(x).take(2) =~= lang_code(Lang::Fr));
        },
        LanguageTag::FrMc => {
            reveal_strlit("fr-MC");
            lemma_region_cases(tag_code(x));
            reveal_strlit("MC");
            assert(tag_code(x).subrange(3, 5) =~= market_code(Market::Mc));
            assert(region_subtag_at(tag_code(x), 3));
            reveal_strlit("fr");
            assert(tag_code(x).take(2) =~= lang_code(Lang::Fr));
        },
        LanguageTag::FrMl => {
            reveal_strlit("fr-ML");
            lemma_region_cases(tag_code(x));
            reveal_strlit("ML");
            assert(tag_code(x).subrange(3, 5) =~= market_code(Market::Ml));
            assert(region_subtag_at(tag_code(x), 3));
            reveal_strlit("fr");
            assert(tag_code(x).take(2) =~= lang_code(Lang::Fr));
        },
        LanguageTag::FrRe => {
            reveal_strlit("fr-RE");
            lemma_region_cases(tag_code(x));
            reveal_strlit("RE");
            assert(tag_code(x).subrange(3, 5) =~= market_code(Market::Re));
            assert(region_subtag_at(tag_code(x), 3));
            reveal_strlit("fr");
            assert(tag_code(x).take(2) =~= lang_code(Lang::Fr));
        },
        LanguageTag::FrcLatn => {
            reveal_strlit("frc-Latn");
            lemma_region_cases(tag_code(x));
            lemma_lang_codes_two_letters();
        },
        LanguageTag::FrpLatn => {
            reveal_strlit("frp-Latn");
            lemma_region_cases(tag_code(x));
            lemma_lang_codes_two_letters();
        },
        LanguageTag::Ga => {
            reveal_strlit("ga");
            lemma_region_cases(tag_code(x));
            reveal_strlit("ga");
            assert(tag_code(x).take(2) =~= lang_code(Lang::Ga));
        },
        LanguageTag::GaIe => {
            reveal_strlit("ga-IE");
            lemma_region_cases(tag_code(x));
            reveal_strlit("IE");
            assert(tag_code(x).subrange(3, 5) =~= market_code(Market::Ie));
            assert(region_subtag_at(tag_code(x), 3));
            reveal_strlit("ga");
            assert(tag_code(x).take(2) =~= lang_code(Lang::Ga));
        },
        LanguageTag::Gd => {
            reveal_strlit("gd");
            lemma_region_cases(tag_code(x));
            reveal_strlit("gd");
            assert(tag_code(x).take(2) =~= lang_code(Lang::Gd));
        },
        LanguageTag::GdGb => {
            reveal_strlit("gd-GB");
            lemma_region_cases(tag_code(x));
            reveal_strlit("GB");
            assert(tag_code(x).subrange(3, 5) =~= market_code(Market::Gb));
            assert(region_subtag_at(tag_code(x), 3));
            reveal_strlit("gd");
            assert(tag_code(x).take(2) =~= lang_code(Lang::Gd));
        },
        LanguageTag::GdLatn => {
            reveal_strlit("gd-Latn");
            lemma_region_cases(tag_code(x));
            reveal_strlit("gd");
            assert(tag_code(x).take(2) =~= lang_code(Lang::Gd));
        },
        LanguageTag::Gl => {
            reveal_strlit("gl");
            lemma_region_cases(tag_code(x));
            reveal_strlit("gl");
            assert(tag_code(x).take(2) =~= lang_code(Lang::Gl));
        },
        LanguageTag::GlEs => {
            reveal_strlit("gl-ES");
            lemma_region_cases(tag_code(x));
            reveal_strlit("ES");
            assert(tag_code(x).subrange(3, 5) =~= market_code(Market::Es));
            assert(region_subtag_at(tag_code(x), 3));
            reveal_strlit("gl");
            assert(tag_code(x).take(2) =~= lang_code(Lang::Gl));
        },
        LanguageTag::Gu => {
            reveal_strlit("gu");
            lemma_region_cases(tag_code(x));
            reveal_strlit("gu");
            assert(tag_code(x).take(2) =~= lang_code(Lang::Gu));
        },
        LanguageTag::GuIn => {
            reveal_strlit("gu-IN");
            lemma_region_cases(tag_code(x));
            reveal_strlit("IN");
            assert(tag_code(x).subrange(3, 5) =~= market_code(Market::In));
            assert(region_subtag_at(tag_code(x), 3));
            reveal_strlit("gu");
            assert(tag_code(x).take(2) =~= lang_code(Lang::Gu));
        },
        LanguageTag::Ha => {
            reveal_strlit("ha");
            lemma_region_cases(tag_code(x));
            reveal_strlit("ha");
            assert(tag_code(x).take(2) =~= lang_code(Lang::Ha));
        },
        LanguageTag::HaLatn => {
            reveal_strlit("ha-Latn");
            lemma_region_cases(tag_code(x));
            reveal_strlit("ha");
            assert(tag_code(x).take(2) =~= lang_code(Lang::Ha));
        },
        LanguageTag::HaLatnNg => {
            reveal_strlit("ha-Latn-NG");
            lemma_region_cases(tag_code(x));
            reveal_strlit("NG");
            assert(tag_code(x).subrange(8, 10) =~= market_code(Market::Ng));
            assert(region_subtag_at(tag_code(x), 8));
            reveal_strlit("ha");
            assert(tag_code(x).take(2) =~= lang_code(Lang::Ha));
        },
        LanguageTag::He => {
            reveal_strlit("he");
            lemma_region_cases(tag_code(x));
            reveal_strlit("he");
            assert(tag_code(x).take(2) =~= lang_code(Lang::He));
        },
        LanguageTag::HeIl => {
            reveal_strlit("he-IL");
            lemma_region_cases(tag_code(x));
            reveal_strlit("IL");
            assert(tag_code(x).subrange(3, 5) =~= market_code(Market::Il));
            assert(region_subtag_at(tag_code(x), 3));
            reveal_strlit("he");
            assert(tag_code(x).take(2) =~= lang_code(Lang::He));
        },
        LanguageTag::Hi => {
            reveal_strlit("hi");
            lemma_region_cases(tag_code(x));
            reveal_strlit("hi");
            assert(tag_code(x).take(2) =~= lang_code(Lang::Hi));
        },
        LanguageTag::HiIn => {
            reveal_strlit("hi-IN");
            lemma_region_cases(tag_code(x));
            reveal_strlit("IN");
            assert(tag_code(x).subrange(3, 5) =~= market_code(Market::In));
            assert(region_subtag_at(tag_code(x), 3));
            reveal_strlit("hi");
            assert(tag_code(x).take(2) =~= lang_code(Lang::Hi));
        },
        LanguageTag::Hr => {
            reveal_strlit("hr");
            lemma_region_cases(tag_code(x));
            reveal_strlit("hr");
            assert(tag_code(x).take(2) =~= lang_code(Lang::Hr));
        },
        LanguageTag::HrBa => {
            reveal_strlit("hr-BA");
            lemma_region_cases(tag_code(x));
            reveal_strlit("BA");
            assert(tag_code(x).subrange(3, 5) =~= market_code(Market::Ba));
            assert(region_subtag_at(tag_code(x), 3));
            reveal_strlit("hr");
            assert(tag_code(x).take(2) =~= lang_code(Lang::Hr));
        },
        LanguageTag::HrHr => {
            reveal_strlit("hr-HR");
            lemma_region_cases(tag_code(x));
            reveal_strlit("HR");
            assert(tag_code(x).subrange(3, 5) =~= market_code(Market::Hr));
            assert(region_subtag_at(tag_code(x), 3));
            reveal_strlit("hr");
            assert(tag_code(x).take(2) =~= lang_code(Lang::Hr));
        },
        LanguageTag::Hu => {
            reveal_strlit("hu");
            lemma_region_cases(tag_code(x));
            reveal_strlit("hu");
            assert(tag_code(x).take(2) =~= lang_code(Lang::Hu));
        },
        LanguageTag::HuHu => {
            reveal_strlit("hu-HU");
            lemma_region_cases(tag_code(x));
            reveal_strlit("HU");
            assert(tag_code(x).subrange(3, 5) =~= market_code(Market::Hu));
            assert(region_subtag_at(tag_code(x), 3));
            reveal_strlit("hu");
            assert(tag_code(x).take(2) =~= lang_code(Lang::Hu));
        },
        LanguageTag::Hy => {
            reveal_strlit("hy");
            lemma_region_cases(tag_code(x));
            reveal_strlit("hy");
            assert(tag_code(x).take(2) =~= lang_code(Lang::Hy));
        },
        LanguageTag::HyAm => {
            reveal_strlit("hy-AM");
            lemma_region_cases(tag_code(x));
            reveal_strlit("AM");
            assert(tag_code(x).subrange(3, 5) =~= market_code(Market::Am));
            assert(region_subtag_at(tag_code(x), 3));
            reveal_strlit("hy");
            assert(tag_code(x).take(2) =~= lang_code(Lang::Hy));
        },
        LanguageTag::Id => {
            reveal_strlit("id");
            lemma_region_cases(tag_code(x));
            reveal_strlit("id");
            assert(tag_code(x).take(2) =~= lang_code(Lang::Id));
        },
        LanguageTag::IdId => {
            reveal_strlit("id-ID");
            lemma_region_cases(tag_code(x));
            reveal_strlit("ID");
            assert(tag_code(x).subrange(3, 5) =~= market_code(Market::Id));
            assert(region_subtag_at(tag_code(x), 3));
            reveal_strlit("id");
            assert(tag_code(x).take(2) =~= lang_code(Lang::Id));
        },
        LanguageTag::IgLatn => {
            reveal_strlit("ig-Latn");
            lemma_region_cases(tag_code(x));
            reveal_strlit("ig");
            assert(tag_code(x).take(2) =~= lang_code(Lang::Ig));
        },
        _ => {},
    }
}

#[verifier::spinoff_prover]
#[verifier::rlimit(80)]
proof fn lemma_tag_subtags_part4(x: LanguageTag)
    requires
        x is IgNg || x is Is || x is IsIs || x is It || x is ItCh || x is ItIt || x is IuCans || x is IuLatn || x is IuLatnCa || x is Ja || x is JaJp || x is Ka || x is KaGe || x is Kk || x is KkKz || x is Km || x is KmKh || x is Kn || x is KnIn || x is Ko || x is KoKr || x is Kok || x is KokIn || x is KuArab || x is KuArabIq || x is KyCyrl || x is KyKg || x is Lb || x is LbLu || x is Lo || x is LoLa || x is Lt || x is LtLt || x is Lv || x is LvLv || x is Mi || x is MiLatn || x is MiNz || x is Mk || x is MkMk || x is Ml || x is MlIn || x is MnCyrl,
    ensures
        region_law(x),
        lang_law(x),
{
    match x {
        LanguageTag::IgNg => {
            reveal_strlit("ig-NG");
            lemma_region_cases(tag_code(x));
            reveal_strlit("NG");
            assert(tag_code(x).subrange(3, 5) =~= market_code(Market::Ng));
            assert(region_subtag_at(tag_code(x), 3));
            reveal_strlit("ig");
            assert(tag_code(x).take(2) =~= lang_code(Lang::Ig));
        },
        LanguageTag::Is => {
            reveal_strlit("is");
            lemma_region_cases(tag_code(x));
            reveal_strlit("is");
            assert(tag_code(x).take(2) =~= lang_code(Lang::Is));
        },
        LanguageTag::IsIs => {
            reveal_strlit("is-IS");
            lemma_region_cases(tag_code(x));
            reveal_strlit("IS");
            assert(tag_code(x).subrange(3, 5) =~= market_code(Market::Is));
            assert(region_subtag_at(tag_code(x), 3));
            reveal_strlit("is");
            assert(tag_code(x).take(2) =~= lang_code(Lang::Is));
        },
        LanguageTag::It => {
            reveal_strlit("it");
            lemma_region_cases(tag_code(x));
            reveal_strlit("it");
            assert(tag_code(x).take(2) =~= lang_code(Lang::It));
        },
        LanguageTag::ItCh => {
            reveal_strlit("it-CH");
            lemma_region_cases(tag_code(x));
            reveal_strlit("CH");
            assert(tag_code(x).subrange(3, 5) =~= market_code(Market::Ch));
            assert(region_subtag_at(tag_code(x), 3));
            reveal_strlit("it");
            assert(tag_code(x).take(2) =~= lang_code(Lang::It));
        },
        LanguageTag::ItIt => {
            reveal_strlit("it-IT");
            lemma_region_cases(tag_code(x));
            reveal_strlit("IT");
            assert(tag_code(x).subrange(3, 5) =~= market_code(Market::It));
            assert(region_subtag_at(tag_code(x), 3));
            reveal_strlit("it");
            assert(tag_code(x).take(2) =~= lang_code(Lang::It));
        },
        LanguageTag::IuCans => {
            reveal_strlit("iu-Cans");
            lemma_region_cases(tag_code(x));
            reveal_strlit("iu");
            assert(tag_code(x).take(2) =~= lang_code(Lang::Iu));
        },
        LanguageTag::IuLatn => {
            reveal_strlit("iu-Latn");
            lemma_region_cases(tag_code(x));
            reveal_strlit("iu");
            assert(tag_code(x).take(2) =~= lang_code(Lang::Iu));
        },
        LanguageTag::IuLatnCa => {
            reveal_strlit("iu-Latn-CA");
            lemma_region_cases(tag_code(x));
            reveal_strlit("CA");
            assert(tag_code(x).subrange(8, 10) =~= market_code(Market::Ca));
            assert(region_subtag_at(tag_code(x), 8));
            reveal_strlit("iu");
            assert(tag_code(x).take(2) =~= lang_code(Lang::Iu));
        },
        LanguageTag::Ja => {
            reveal_strlit("ja");
            lemma_region_cases(tag_code(x));
            reveal_strlit("ja");
            assert(tag_code(x).take(2) =~= lang_code(Lang::Ja));
        },
        LanguageTag::JaJp => {
            reveal_strlit("ja-JP");
            lemma_region_cases(tag_code(x));
            reveal_strlit("JP");
            assert(tag_code(x).subrange(3, 5) =~= market_code(Market::Jp));
            assert(region_subtag_at(tag_code(x), 3));
            reveal_strlit("ja");
            assert(tag_code(x).take(2) =~= lang_code(Lang::Ja));
        },
        LanguageTag::Ka => {
            reveal_strlit("ka");
            lemma_region_cases(tag_code(x));
            reveal_strlit("ka");
            assert(tag_code(x).take(2) =~= lang_code(Lang::Ka));
        },
        LanguageTag::KaGe => {
            reveal_strlit("ka-GE");
            lemma_region_cases(tag_code(x));
            reveal_strlit("GE");
            assert(tag_code(x).subrange(3, 5) =~= market_code(Market::Ge));
            assert(region_subtag_at(tag_code(x), 3));
            reveal_strlit("ka");
            assert(tag_code(x).take(2) =~= lang_code(Lang::Ka));
        },
        LanguageTag::Kk => {
            reveal_strlit("kk");
            lemma_region_cases(tag_code(x));
            reveal_strlit("kk");
            assert(tag_code(x).take(2) =~= lang_code(Lang::Kk));
        },
        LanguageTag::KkKz => {
            reveal_strlit("kk-KZ");
            lemma_region_cases(tag_code(x));
            reveal_strlit("KZ");
            assert(tag_code(x).subrange(3, 5) =~= market_code(Market::Kz));
            assert(region_subtag_at(tag_code(x), 3));
            reveal_strlit("kk");
            assert(tag_code(x).take(2) =~= lang_code(Lang::Kk));
        },
        LanguageTag::Km => {
            reveal_strlit("km");
            lemma_region_cases(tag_code(x));
            reveal_strlit("km");
            assert(tag_code(x).take(2) =~= lang_code(Lang::Km));
        },
        LanguageTag::KmKh => {
            reveal_strlit("km-KH");
            lemma_region_cases(tag_code(x));
            reveal_strlit("KH");
            assert(tag_code(x).subrange(3, 5) =~= market_code(Market::Kh));
            assert(region_subtag_at(tag_code(x), 3));
            reveal_strlit("km");
            assert(tag_code(x).take(2) =~= lang_code(Lang::Km));
        },
        LanguageTag::Kn => {
            reveal_strlit("kn");
            lemma_region_cases(tag_code(x));
            reveal_strlit("kn");
            assert(tag_code(x).take(2) =~= lang_code(Lang::Kn));
        },
        LanguageTag::KnIn => {
            reveal_strlit("kn-IN");
            lemma_region_cases(tag_code(x));
            reveal_strlit("IN");
            assert(tag_code(x).subrange(3, 5) =~= market_code(Market::In));
            assert(region_subtag_at(tag_code(x), 3));
            reveal_strlit("kn");
            assert(tag_code(x).take(2) =~= lang_code(Lang::Kn));
        },
        LanguageTag::Ko => {
            reveal_strlit("ko");
            lemma_region_cases(tag_code(x));
            reveal_strlit("ko");
            assert(tag_code(x).take(2) =~= lang_code(Lang::Ko));
        },
        LanguageTag::KoKr => {
            reveal_strlit("ko-KR");
            lemma_region_cases(tag_code(x));
            reveal_strlit("KR");
            assert(tag_code(x).subrange(3, 5) =~= market_code(Market::Kr));
            assert(region_subtag_at(tag_code(x), 3));
            reveal_strlit("ko");
            assert(tag_code(x).take(2) =~= lang_code(Lang::Ko));
        },
        LanguageTag::Kok => {
            reveal_strlit("kok");
            lemma_region_cases(tag_code(x));
            lemma_lang_codes_two_letters();
        },
        LanguageTag::KokIn => {
            reveal_strlit("kok-IN");
            lemma_region_cases(tag_code(x));
            reveal_strlit("IN");
            assert(tag_code(x).subrange(4, 6) =~= market_code(Market::In));
            assert(region_subtag_at(tag_code(x), 4));
            lemma_lang_codes_two_letters();
        },
        LanguageTag::KuArab => {
            reveal_strlit("ku-Arab");
            lemma_region_cases(tag_code(x));
            reveal_strlit("ku");
            assert(tag_code(x).take(2) =~= lang_code(Lang::Ku));
        },
        LanguageTag::KuArabIq => {
            reveal_strlit("ku-Arab-IQ");
            lemma_region_cases(tag_code(x));
            reveal_strlit("IQ");
            assert(tag_code(x).subrange(8, 10) =~= market_code(Market::Iq));
            assert(region_subtag_at(tag_code(x), 8));
            reveal_strlit("ku");
            assert(tag_code(x).take(2) =~= lang_code(Lang::Ku));
        },
        LanguageTag::KyCyrl => {
            reveal_strlit("ky-Cyrl");
            lemma_region_cases(tag_code(x));
            reveal_strlit("ky");
            assert(tag_code(x).take(2) =~= lang_code(Lang::Ky));
        },
        LanguageTag::KyKg => {
            reveal_strlit("ky-KG");
            lemma_region_cases(tag_code(x));
            reveal_strlit("KG");
            assert(tag_code(x).subrange(3, 5) =~= market_code(Market::Kg));
            assert(region_subtag_at(tag_code(x), 3));
            reveal_strlit("ky");
            assert(tag_code(x).take(2) =~= lang_code(Lang::Ky));
        },
        LanguageTag::Lb => {
            reveal_strlit("lb");
            lemma_region_cases(tag_code(x));
            reveal_strlit("lb");
            assert(tag_code(x).take(2) =~= lang_code(Lang::Lb));
        },
        LanguageTag::LbLu => {
            reveal_strlit("lb-LU");
            lemma_region_cases(tag_code(x));
            reveal_strlit("LU");
            assert(tag_code(x).subrange(3, 5) =~= market_code(Market::Lu));
            assert(region_subtag_at(tag_code(x), 3));
            reveal_strlit("lb");
            assert(tag_code(x).take(2) =~= lang_code(Lang::Lb));
        },
        LanguageTag::Lo => {
            reveal_strlit("lo");
            lemma_region_cases(tag_code(x));
            reveal_strlit("lo");
            assert(tag_code(x).take(2) =~= lang_code(Lang::Lo));
        },
        LanguageTag::LoLa => {
            reveal_strlit("lo-LA");
            lemma_region_cases(tag_code(x));
            reveal_strlit("LA");
            assert(tag_code(x).subrange(3, 5) =~= market_code(Market::La));
            assert(region_subtag_at(tag_code(x), 3));
            reveal_strlit("lo");
            assert(tag_code(x).take(2) =~= lang_code(Lang::Lo));
        },
        LanguageTag::Lt => {
            reveal_strlit("lt");
            lemma_region_cases(tag_code(x));
            reveal_strlit("lt");
            assert(tag_code(x).take(2) =~= lang_code(Lang::Lt));
        },
        LanguageTag::LtLt => {
            reveal_strlit("lt-LT");
            lemma_region_cases(tag_code(x));
            reveal_strlit("LT");
            assert(tag_code(x).subrange(3, 5) =~= market_code(Market::Lt));
            assert(region_subtag_at(tag_code(x), 3));
            reveal_strlit("lt");
            assert(tag_code(x).take(2) =~= lang_code(Lang::Lt));
        },
        LanguageTag::Lv => {
            reveal_strlit("lv");
            lemma_region_cases(tag_code(x));
            reveal_strlit("lv");
            assert(tag_code(x).take(2) =~= lang_code(Lang::Lv));
        },
        LanguageTag::LvLv => {
            reveal_strlit("lv-LV");
            lemma_region_cases(tag_code(x));
            reveal_strlit("LV");
            assert(tag_code(x).subrange(3, 5) =~= market_code(Market::Lv));
            assert(region_subtag_at(tag_code(x), 3));
            reveal_strlit("lv");
            assert(tag_code(x).take(2) =~= lang_code(Lang::Lv));
        },
        LanguageTag::Mi => {
            reveal_strlit("mi");
            lemma_region_cases(tag_code(x));
            reveal_strlit("mi");
            assert(tag_code(x).take(2) =~= lang_code(Lang::Mi));
        },
        LanguageTag::MiLatn => {
            reveal_strlit("mi-Latn");
            lemma_region_cases(tag_code(x));
            reveal_strlit("mi");
            assert(tag_code(x).take(2) =~= lang_code(Lang::Mi));
        },
        LanguageTag::MiNz => {
            reveal_strlit("mi-NZ");
            lemma_region_cases(tag_code(x));
            reveal_strlit("NZ");
            assert(tag_code(x).subrange(3, 5) =~= market_code(Market::Nz));
            assert(region_subtag_at(tag_code(x), 3));
            reveal_strlit("mi");
            assert(tag_code(x).take(2) =~= lang_code(Lang::Mi));
        },
        LanguageTag::Mk => {
            reveal_strlit("mk");
            lemma_region_cases(tag_code(x));
            reveal_strlit("mk");
            assert(tag_code(x).take(2) =~= lang_code(Lang::Mk));
        },
        LanguageTag::MkMk => {
            reveal_strlit("mk-MK");
            lemma_region_cases(tag_code(x));
            reveal_strlit("MK");
            assert(tag_code(x).subrange(3, 5) =~= market_code(Market::Mk));
            assert(region_subtag_at(tag_code(x), 3));
            reveal_strlit("mk");
            assert(tag_code(x).take(2) =~= lang_code(Lang::Mk));
        },
        LanguageTag::Ml => {
            reveal_strlit("ml");
            lemma_region_cases(tag_code(x));
            reveal_strlit("ml");
            assert(tag_code(x).take(2) =~= lang_code(Lang::Ml));
        },
        LanguageTag::MlIn => {
            reveal_strlit("ml-IN");
            lemma_region_cases(tag_code(x));
            reveal_strlit("IN");
            assert(tag_code(x).subrange(3, 5) =~= market_code(Market::In));
            assert(region_subtag_at(tag_code(x), 3));
            reveal_strlit("ml");
            assert(tag_code(x).take(2) =~= lang_code(Lang::Ml));
        },
        LanguageTag::MnCyrl => {
            reveal_strlit("mn-Cyrl");
            lemma_region_cases(tag_code(x));
            reveal_strlit("mn");
            assert(tag_code(x).take(2) =~= lang_code(Lang::Mn));
        },
        _ => {},
    }
}

#[verifier::spinoff_prover]
#[verifier::rlimit(80)]
proof fn lemma_tag_subtags_part5(x: LanguageTag)
    requires
        x is MnMn || x is MnMong || x is Mr || x is MrIn || x is Ms || x is MsBn || x is MsMy || x is Mt || x is MtMt || x is Nb || x is NbNo || x is Ne || x is NeNp || x is Nl || x is NlBe || x is NlNl || x is Nn || x is NnNo || x is Nso || x is NsoZa || x is Or || x is OrIn || x is Pa || x is PaArab || x is PaArabPk || x is PaDeva || x is PaIn || x is Pl || x is PlPl || x is Prs || x is PrsAf || x is PrsArab || x is Pt || x is PtBr || x is PtPt || x is QucLatn || x is QutGt || x is QutLatn || x is Quz || x is QuzBo || x is QuzEc || x is QuzPe || x is Ro,
    ensures
        region_law(x),
        lang_law(x),
{
    match x {
        LanguageTag::MnMn => {
            reveal_strlit("mn-MN");
            lemma_region_cases(tag_code(x));
            reveal_strlit("MN");
            assert(tag_code(x).subrange(3, 5) =~= market_code(Market::Mn));
            assert(region_subtag_at(tag_code(x), 3));
            reveal_strlit("mn");
            assert(tag_code(x).take(2) =~= lang_code(Lang::Mn));
        },
        LanguageTag::MnMong => {
            reveal_strlit("mn-Mong");
            lemma_region_cases(tag_code(x));
            reveal_strlit("mn");
            assert(tag_code(x).take(2) =~= lang_code(Lang::Mn));
        },
        LanguageTag::Mr => {
            reveal_strlit("mr");
            lemma_region_cases(tag_code(x));
            reveal_strlit("mr");
            assert(tag_code(x).take(2) =~= lang_code(Lang::Mr));
        },
        LanguageTag::MrIn => {
            reveal_strlit("mr-IN");
            lemma_region_cases(tag_code(x));
            reveal_strlit("IN");
            assert(tag_code(x).subrange(3, 5) =~= market_code(Market::In));
            assert(region_subtag_at(tag_code(x), 3));
            reveal_strlit("mr");
            assert(tag_code(x).take(2) =~= lang_code(Lang::Mr));
        },
        LanguageTag::Ms => {
            reveal_strlit("ms");
            lemma_region_cases(tag_code(x));
            reveal_strlit("ms");
            assert(tag_code(x).take(2) =~= lang_code(Lang::Ms));
        },
        LanguageTag::MsBn => {
            reveal_strlit("ms-BN");
            lemma_region_cases(tag_code(x));
            reveal_strlit("BN");
            assert(tag_code(x).subrange(3, 5) =~= market_code(Market::Bn));
            assert(region_subtag_at(tag_code(x), 3));
            reveal_strlit("ms");
            assert(tag_code(x).take(2) =~= lang_code(Lang::Ms));
        },
        LanguageTag::MsMy => {
            reveal_strlit("ms-MY");
            lemma_region_cases(tag_code(x));
            reveal_strlit("MY");
            assert(tag_code(x).subrange(3, 5) =~= market_code(Market::My));
            assert(region_subtag_at(tag_code(x), 3));
            reveal_strlit("ms");
            assert(tag_code(x).take(2) =~= lang_code(Lang::Ms));
        },
        LanguageTag::Mt => {
            reveal_strlit("mt");
            lemma_region_cases(tag_code(x));
            reveal_strlit("mt");
            assert(tag_code(x).take(2) =~= lang_code(Lang::Mt));
        },
        LanguageTag::MtMt => {
            reveal_strlit("mt-MT");
            lemma_region_cases(tag_code(x));
            reveal_strlit("MT");
            assert(tag_code(x).subrange(3, 5) =~= market_code(Market::Mt));
            assert(region_subtag_at(tag_code(x), 3));
            reveal_strlit("mt");
            assert(tag_code(x).take(2) =~= lang_code(Lang::Mt));
        },
        LanguageTag::Nb => {
            reveal_strlit("nb");
            lemma_region_cases(tag_code(x));
            reveal_strlit("nb");
            assert(tag_code(x).take(2) =~= lang_code(Lang::Nb));
        },
        LanguageTag::NbNo => {
            reveal_strlit("nb-NO");
            lemma_region_cases(tag_code(x));
            reveal_strlit("NO");
            assert(tag_code(x).subrange(3, 5) =~= market_code(Market::No));
            assert(region_subtag_at(tag_code(x), 3));
            reveal_strlit("nb");
            assert(tag_code(x).take(2) =~= lang_code(Lang::Nb));
        },
        LanguageTag::Ne => {
            reveal_strlit("ne");
            lemma_region_cases(tag_code(x));
            reveal_strlit("ne");
            assert(tag_code(x).take(2) =~= lang_code(Lang::Ne));
        },
        LanguageTag::NeNp => {
            reveal_strlit("ne-NP");
            lemma_region_cases(tag_code(x));
            reveal_strlit("NP");
            assert(tag_code(x).subrange(3, 5) =~= market_code(Market::Np));
            assert(region_subtag_at(tag_code(x), 3));
            reveal_strlit("ne");
            assert(tag_code(x).take(2) =~= lang_code(Lang::Ne));
        },
        LanguageTag::Nl => {
            reveal_strlit("nl");
            lemma_region_cases(tag_code(x));
            reveal_strlit("nl");
            assert(tag_code(x).take(2) =~= lang_code(Lang::Nl));
        },
        LanguageTag::NlBe => {
            reveal_strlit("nl-BE");
            lemma_region_cases(tag_code(x));
            reveal_strlit("BE");
            assert(tag_code(x).subrange(3, 5) =~= market_code(Market::Be));
            assert(region_subtag_at(tag_code(x), 3));
            reveal_strlit("nl");
            assert(tag_code(x).take(2) =~= lang_code(Lang::Nl));
        },
        LanguageTag::NlNl => {
            reveal_strlit("nl-NL");
            lemma_region_cases(tag_code(x));
            reveal_strlit("NL");
            assert(tag_code(x).subrange(3, 5) =~= market_code(Market::Nl));
            assert(region_subtag_at(tag_code(x), 3));
            reveal_strlit("nl");
            assert(tag_code(x).take(2) =~= lang_code(Lang::Nl));
        },
        LanguageTag::Nn => {
            reveal_strlit("nn");
            lemma_region_cases(tag_code(x));
            reveal_strlit("nn");
            assert(tag_code(x).take(2) =~= lang_code(Lang::Nn));
        },
        LanguageTag::NnNo => {
            reveal_strlit("nn-NO");
            lemma_region_cases(tag_code(x));
            reveal_strlit("NO");
            assert(tag_code(x).subrange(3, 5) =~= market_code(Market::No));
            assert(region_subtag_at(tag_code(x), 3));
            reveal_strlit("nn");
            assert(tag_code(x).take(2) =~= lang_code(Lang::Nn));
        },
        LanguageTag::Nso => {
            reveal_strlit("nso");
            lemma_region_cases(tag_code(x));
            lemma_lang_codes_two_letters();
        },
        LanguageTag::NsoZa => {
            reveal_strlit("nso-ZA");
            lemma_region_cases(tag_code(x));
            reveal_strlit("ZA");
            assert(tag_code(x).subrange(4, 6) =~= market_code(Market::Za));
            assert(region_subtag_at(tag_code(x), 4));
            lemma_lang_codes_two_letters();
        },
        LanguageTag::Or => {
            reveal_strlit("or");
            lemma_region_cases(tag_code(x));
            reveal_strlit("or");
            assert(tag_code(x).take(2) =~= lang_code(Lang::Or));
        },
        LanguageTag::OrIn => {
            reveal_strlit("or-IN");
            lemma_region_cases(tag_code(x));
            reveal_strlit("IN");
            assert(tag_code(x).subrange(3, 5) =~= market_code(Market::In));
            assert(region_subtag_at(tag_code(x), 3));
            reveal_strlit("or");
            assert(tag_code(x).take(2) =~= lang_code(Lang::Or));
        },
        LanguageTag::Pa => {
            reveal_strlit("pa");
            lemma_region_cases(tag_code(x));
            reveal_strlit("pa");
            assert(tag_code(x).take(2) =~= lang_code(Lang::Pa));
        },
        LanguageTag::PaArab => {
            reveal_strlit("pa-Arab");
            lemma_region_cases(tag_code(x));
            reveal_strlit("pa");
            assert(tag_code(x).take(2) =~= lang_code(Lang::Pa));
        },
        LanguageTag::PaArabPk => {
            reveal_strlit("pa-Arab-PK");
            lemma_region_cases(tag_code(x));
            reveal_strlit("PK");
            assert(tag_code(x).subrange(8, 10) =~= market_code(Market::Pk));
            assert(region_subtag_at(tag_code(x), 8));
            reveal_strlit("pa");
            assert(tag_code(x).take(2) =~= lang_code(Lang::Pa));
        },
        LanguageTag::PaDeva => {
            reveal_strlit("pa-Deva");
            lemma_region_cases(tag_code(x));
            reveal_strlit("pa");
            assert(tag_code(x).take(2) =~= lang_code(Lang::Pa));
        },
        LanguageTag::PaIn => {
            reveal_strlit("pa-IN");
            lemma_region_cases(tag_code(x));
            reveal_strlit("IN");
            assert(tag_code(x).subrange(3, 5) =~= market_code(Market::In));
            assert(region_subtag_at(tag_code(x), 3));
            reveal_strlit("pa");
            assert(tag_code(x).take(2) =~= lang_code(Lang::Pa));
        },
        LanguageTag::Pl => {
            reveal_strlit("pl");
            lemma_region_cases(tag_code(x));
            reveal_strlit("pl");
            assert(tag_code(x).take(2) =~= lang_code(Lang::Pl));
        },
        LanguageTag::PlPl => {
            reveal_strlit("pl-PL");
            lemma_region_cases(tag_code(x));
            reveal_strlit("PL");
            assert(tag_code(x).subrange(3, 5) =~= market_code(Market::Pl));
            assert(region_subtag_at(tag_code(x), 3));
            reveal_strlit("pl");
            assert(tag_code(x).take(2) =~= lang_code(Lang::Pl));
        },
        LanguageTag::Prs => {
            reveal_strlit("prs");
            lemma_region_cases(tag_code(x));
            lemma_lang_codes_two_letters();
        },
        LanguageTag::PrsAf => {
            reveal_strlit("prs-AF");
            lemma_region_cases(tag_code(x));
            reveal_strlit("AF");
            assert(tag_code(x).subrange(4, 6) =~= market_code(Market::Af));
            assert(region_subtag_at(tag_code(x), 4));
            lemma_lang_codes_two_letters();
        },
        LanguageTag::PrsArab => {
            reveal_strlit("prs-Arab");
            lemma_region_cases(tag_code(x));
            lemma_lang_codes_two_letters();
        },
        LanguageTag::Pt => {
            reveal_strlit("pt");
            lemma_region_cases(tag_code(x));
            reveal_strlit("pt");
            assert(tag_code(x).take(2) =~= lang_code(Lang::Pt));
        },
        LanguageTag::PtBr => {
            reveal_strlit("pt-BR");
            lemma_region_cases(tag_code(x));
            reveal_strlit("BR");
            assert(tag_code(x).subrange(3, 5) =~= market_code(Market::Br));
            assert(region_subtag_at(tag_code(x), 3));
            reveal_strlit("pt");
            assert(tag_code(x).take(2) =~= lang_code(Lang::Pt));
        },
        LanguageTag::PtPt => {
            reveal_strlit("pt-PT");
            lemma_region_cases(tag_code(x));
            reveal_strlit("PT");
            assert(tag_code(x).subrange(3, 5) =~= market_code(Market::Pt));
            assert(region_subtag_at(tag_code(x), 3));
            reveal_strlit("pt");
            assert(tag_code(x).take(2) =~= lang_code(Lang::Pt));
        },
        LanguageTag::QucLatn => {
            reveal_strlit("quc-Latn");
            lemma_region_cases(tag_code(x));
            lemma_lang_codes_two_letters();
        },
        LanguageTag::QutGt => {
            reveal_strlit("qut-GT");
            lemma_region_cases(tag_code(x));
            reveal_strlit("GT");
            assert(tag_code(x).subrange(4, 6) =~= market_code(Market::Gt));
            assert(region_subtag_at(tag_code(x), 4));
            lemma_lang_codes_two_letters();
        },
        LanguageTag::QutLatn => {
            reveal_strlit("qut-Latn");
            lemma_region_cases(tag_code(x));
            lemma_lang_codes_two_letters();
        },
        LanguageTag::Quz => {
            reveal_strlit("quz");
            lemma_region_cases(tag_code(x));
            lemma_lang_codes_two_letters();
        },
        LanguageTag::QuzBo => {
            reveal_strlit("quz-BO");
            lemma_region_cases(tag_code(x));
            reveal_strlit("BO");
            assert(tag_code(x).subrange(4, 6) =~= market_code(Market::Bo));
            assert(region_subtag_at(tag_code(x), 4));
            lemma_lang_codes_two_letters();
        },
        LanguageTag::QuzEc => {
            reveal_strlit("quz-EC");
            lemma_region_cases(tag_code(x));
            reveal_strlit("EC");
            assert(tag_code(x).subrange(4, 6) =~= market_code(Market::Ec));
            assert(region_subtag_at(tag_code(x), 4));
            lemma_lang_codes_two_letters();
        },
        LanguageTag::QuzPe => {
            reveal_strlit("quz-PE");
            lemma_region_cases(tag_code(x));
            reveal_strlit("PE");
            assert(tag_code(x).subrange(4, 6) =~= market_code(Market::Pe));
            assert(region_subtag_at(tag_code(x), 4));
            lemma_lang_codes_two_letters();
        },
        LanguageTag::Ro => {
            reveal_strlit("ro");
            lemma_region_cases(tag_code(x));
            reveal_strlit("ro");
            assert(tag_code(x).take(2) =~= lang_code(Lang::Ro));
        },
        _ => {},
    }
}

#[verifier::spinoff_prover]
#[verifier::rlimit(80)]
proof fn lemma_tag_subtags_part6(x: LanguageTag)
    requires
        x is RoRo || x is Ru || x is RuRu || x is Rw || x is RwRw || x is SdArab || x is SdArabPk || x is SdDeva || x is Si || x is SiLk || x is Sk || x is SkSk || x is Sl || x is SlSi || x is Sq || x is SqAl || x is SrCyrl || x is SrCyrlBa || x is SrCyrlCs || x is SrCyrlMe || x is SrCyrlRs || x is SrLatn || x is SrLatnBa || x is SrLatnCs || x is SrLatnMe || x is SrLatnRs || x is Sv || x is SvFi || x is SvSe || x is Sw || x is SwKe || x is Ta || x is TaIn || x is Te || x is TeIn || x is TgArab || x is TgCyrl || x is TgCyrlTj || x is TgLatn || x is Th || x is ThTh || x is Ti || x is TiEt,
    ensures
        region_law(x),
        lang_law(x),
{
    match x {
        LanguageTag::RoRo => {
            reveal_strlit("ro-RO");
            lemma_region_cases(tag_code(x));
            reveal_strlit("RO");
            assert(tag_code(x).subrange(3, 5) =~= market_code(Market::Ro));
            assert(region_subtag_at(tag_code(x), 3));
            reveal_strlit("ro");
            assert(tag_code(x).take(2) =~= lang_code(Lang::Ro));
        },
        LanguageTag::Ru => {
            reveal_strlit("ru");
            lemma_region_cases(tag_code(x));
            reveal_strlit("ru");
            assert(tag_code(x).take(2) =~= lang_code(Lang::Ru));
        },
        LanguageTag::RuRu => {
            reveal_strlit("ru-RU");
            lemma_region_cases(tag_code(x));
            reveal_strlit("RU");
            assert(tag_code(x).subrange(3, 5) =~= market_code(Market::Ru));
            assert(region_subtag_at(tag_code(x), 3));
            reveal_strlit("ru");
            assert(tag_code(x).take(2) =~= lang_code(Lang::Ru));
        },
        LanguageTag::Rw => {
            reveal_strlit("rw");
            lemma_region_cases(tag_code(x));
            reveal_strlit("rw");
            assert(tag_code(x).take(2) =~= lang_code(Lang::Rw));
        },
        LanguageTag::RwRw => {
            reveal_strlit("rw-RW");
            lemma_region_cases(tag_code(x));
            reveal_strlit("RW");
            assert(tag_code(x).subrange(3, 5) =~= market_code(Market::Rw));
            assert(region_subtag_at(tag_code(x), 3));
            reveal_strlit("rw");
            assert(tag_code(x).take(2) =~= lang_code(Lang::Rw));
        },
        LanguageTag::SdArab => {
            reveal_strlit("sd-Arab");
            lemma_region_cases(tag_code(x));
            reveal_strlit("sd");
            assert(tag_code(x).take(2) =~= lang_code(Lang::Sd));
        },
        LanguageTag::SdArabPk => {
            reveal_strlit("sd-Arab-PK");
            lemma_region_cases(tag_code(x));
            reveal_strlit("PK");
            assert(tag_code(x).subrange(8, 10) =~= market_code(Market::Pk));
            assert(region_subtag_at(tag_code(x), 8));
            reveal_strlit("sd");
            assert(tag_code(x).take(2) =~= lang_code(Lang::Sd));
        },
        LanguageTag::SdDeva => {
            reveal_strlit("sd-Deva");
            lemma_region_cases(tag_code(x));
            reveal_strlit("sd");
            assert(tag_code(x).take(2) =~= lang_code(Lang::Sd));
        },
        LanguageTag::Si => {
            reveal_strlit("si");
            lemma_region_cases(tag_code(x));
            reveal_strlit("si");
            assert(tag_code(x).take(2) =~= lang_code(Lang::Si));
        },
        LanguageTag::SiLk => {
            reveal_strlit("si-LK");
            lemma_region_cases(tag_code(x));
            reveal_strlit("LK");
            assert(tag_code(x).subrange(3, 5) =~= market_code(Market::Lk));
            assert(region_subtag_at(tag_code(x), 3));
            reveal_strlit("si");
            assert(tag_code(x).take(2) =~= lang_code(Lang::Si));
        },
        LanguageTag::Sk => {
            reveal_strlit("sk");
            lemma_region_cases(tag_code(x));
            reveal_strlit("sk");
            assert(tag_code(x).take(2) =~= lang_code(Lang::Sk));
        },
        LanguageTag::SkSk => {
            reveal_strlit("sk-SK");
            lemma_region_cases(tag_code(x));
            reveal_strlit("SK");
            assert(tag_code(x).subrange(3, 5) =~= market_code(Market::Sk));
            assert(region_subtag_at(tag_code(x), 3));
            reveal_strlit("sk");
            assert(tag_code(x).take(2) =~= lang_code(Lang::Sk));
        },
        LanguageTag::Sl => {
            reveal_strlit("sl");
            lemma_region_cases(tag_code(x));
            reveal_strlit("sl");
            assert(tag_code(x).take(2) =~= lang_code(Lang::Sl));
        },
        LanguageTag::SlSi => {
            reveal_strlit("sl-SI");
            lemma_region_cases(tag_code(x));
            reveal_strlit("SI");
            assert(tag_code(x).subrange(3, 5) =~= market_code(Market::Si));
            assert(region_subtag_at(tag_code(x), 3));
            reveal_strlit("sl");
            assert(tag_code(x).take(2) =~= lang_code(Lang::Sl));
        },
        LanguageTag::Sq => {
            reveal_strlit("sq");
            lemma_region_cases(tag_code(x));
            reveal_strlit("sq");
            assert(tag_code(x).take(2) =~= lang_code(Lang::Sq));
        },
        LanguageTag::SqAl => {
            reveal_strlit("sq-AL");
            lemma_region_cases(tag_code(x));
            reveal_strlit("AL");
            assert(tag_code(x).subrange(3, 5) =~= market_code(Market::Al));
            assert(region_subtag_at(tag_code(x), 3));
            reveal_strlit("sq");
            assert(tag_code(x).take(2) =~= lang_code(Lang::Sq));
        },
        LanguageTag::SrCyrl => {
            reveal_strlit("sr-Cyrl");
            lemma_region_cases(tag_code(x));
            reveal_strlit("sr");
            assert(tag_code(x).take(2) =~= lang_code(Lang::Sr));
        },
        LanguageTag::SrCyrlBa => {
            reveal_strlit("sr-Cyrl-BA");
            lemma_region_cases(tag_code(x));
            reveal_strlit("BA");
            assert(tag_code(x).subrange(8, 10) =~= market_code(Market::Ba));
            assert(region_subtag_at(tag_code(x), 8));
            reveal_strlit("sr");
            assert(tag_code(x).take(2) =~= lang_code(Lang::Sr));
        },
        LanguageTag::SrCyrlCs => {
            reveal_strlit("sr-Cyrl-CS");
            lemma_region_cases(tag_code(x));
            reveal_strlit("CS");
            assert(tag_code(x).subrange(8, 10) =~= "CS"@);
            lemma_no_market_with_code(tag_code(x).subrange(8, 10));
            reveal_strlit("sr");
            assert(tag_code(x).take(2) =~= lang_code(Lang::Sr));
        },
        LanguageTag::SrCyrlMe => {
            reveal_strlit("sr-Cyrl-ME");
            lemma_region_cases(tag_code(x));
            reveal_strlit("ME");
            assert(tag_code(x).subrange(8, 10) =~= market_code(Market::Me));
            assert(region_subtag_at(tag_code(x), 8));
            reveal_strlit("sr");
            assert(tag_code(x).take(2) =~= lang_code(Lang::Sr));
        },
        LanguageTag::SrCyrlRs => {
            reveal_strlit("sr-Cyrl-RS");
            lemma_region_cases(tag_code(x));
            reveal_strlit("RS");
            assert(tag_code(x).subrange(8, 10) =~= market_code(Market::Rs));
            assert(region_subtag_at(tag_code(x), 8));
            reveal_strlit("sr");
            assert(tag_code(x).take(2) =~= lang_code(Lang::Sr));
        },
        LanguageTag::SrLatn => {
            reveal_strlit("sr-Latn");
            lemma_region_cases(tag_code(x));
            reveal_strlit("sr");
            assert(tag_code(x).take(2) =~= lang_code(Lang::Sr));
        },
        LanguageTag::SrLatnBa => {
            reveal_strlit("sr-Latn-BA");
            lemma_region_cases(tag_code(x));
            reveal_strlit("BA");
            assert(tag_code(x).subrange(8, 10) =~= market_code(Market::Ba));
            assert(region_subtag_at(tag_code(x), 8));
            reveal_strlit("sr");
            assert(tag_code(x).take(2) =~= lang_code(Lang::Sr));
        },
        LanguageTag::SrLatnCs => {
            reveal_strlit("sr-Latn-CS");
            lemma_region_cases(tag_code(x));
            reveal_strlit("CS");
            assert(tag_code(x).subrange(8, 10) =~= "CS"@);
            lemma_no_market_with_code(tag_code(x).subrange(8, 10));
            reveal_strlit("sr");
            assert(tag_code(x).take(2) =~= lang_code(Lang::Sr));
        },
        LanguageTag::SrLatnMe => {
            reveal_strlit("sr-Latn-ME");
            lemma_region_cases(tag_code(x));
            reveal_strlit("ME");
            assert(tag_code(x).subrange(8, 10) =~= market_code(Market::Me));
            assert(region_subtag_at(tag_code(x), 8));
            reveal_strlit("sr");
            assert(tag_code(x).take(2) =~= lang_code(Lang::Sr));
        },
        LanguageTag::SrLatnRs => {
            reveal_strlit("sr-Latn-RS");
            lemma_region_cases(tag_code(x));
            reveal_strlit("RS");
            assert(tag_code(x).subrange(8, 10) =~= market_code(Market::Rs));
            assert(region_subtag_at(tag_code(x), 8));
            reveal_strlit("sr");
            assert(tag_code(x).take(2) =~= lang_code(Lang::Sr));
        },
        LanguageTag::Sv => {
            reveal_strlit("sv");
            lemma_region_cases(tag_code(x));
            reveal_strlit("sv");
            assert(tag_code(x).take(2) =~= lang_code(Lang::Sv));
        },
        LanguageTag::SvFi => {
            reveal_strlit("sv-FI");
            lemma_region_cases(tag_code(x));
            reveal_strlit("FI");
            assert(tag_code(x).subrange(3, 5) =~= market_code(Market::Fi));
            assert(region_subtag_at(tag_code(x), 3));
            reveal_strlit("sv");
            assert(tag_code(x).take(2) =~= lang_code(Lang::Sv));
        },
        LanguageTag::SvSe => {
            reveal_strlit("sv-SE");
            lemma_region_cases(tag_code(x));
            reveal_strlit("SE");
            assert(tag_code(x).subrange(3, 5) =~= market_code(Market::Se));
            assert(region_subtag_at(tag_code(x), 3));
            reveal_strlit("sv");
            assert(tag_code(x).take(2) =~= lang_code(Lang::Sv));
        },
        LanguageTag::Sw => {
            reveal_strlit("sw");
            lemma_region_cases(tag_code(x));
            reveal_strlit("sw");
            assert(tag_code(x).take(2) =~= lang_code(Lang::Sw));
        },
        LanguageTag::SwKe => {
            reveal_strlit("sw-KE");
            lemma_region_cases(tag_code(x));
            reveal_strlit("KE");
            assert(tag_code(x).subrange(3, 5) =~= market_code(Market::Ke));
            assert(region_subtag_at(tag_code(x), 3));
            reveal_strlit("sw");
            assert(tag_code(x).take(2) =~= lang_code(Lang::Sw));
        },
        LanguageTag::Ta => {
            reveal_strlit("ta");
            lemma_region_cases(tag_code(x));
            reveal_strlit("ta");
            assert(tag_code(x).take(2) =~= lang_code(Lang::Ta));
        },
        LanguageTag::TaIn => {
            reveal_strlit("ta-IN");
            lemma_region_cases(tag_code(x));
            reveal_strlit("IN");
            assert(tag_code(x).subrange(3, 5) =~= market_code(Market::In));
            assert(region_subtag_at(tag_code(x), 3));
            reveal_strlit("ta");
            assert(tag_code(x).take(2) =~= lang_code(Lang::Ta));
        },
        LanguageTag::Te => {
            reveal_strlit("te");
            lemma_region_cases(tag_code(x));
            reveal_strlit("te");
            assert(tag_code(x).take(2) =~= lang_code(Lang::Te));
        },
        LanguageTag::TeIn => {
            reveal_strlit("te-IN");
            lemma_region_cases(tag_code(x));
            reveal_strlit("IN");
            assert(tag_code(x).subrange(3, 5) =~= market_code(Market::In));
            assert(region_subtag_at(tag_code(x), 3));
            reveal_strlit("te");
            assert(tag_code(x).take(2) =~= lang_code(Lang::Te));
        },
        LanguageTag::TgArab => {
            reveal_strlit("tg-Arab");
            lemma_region_cases(tag_code(x));
            reveal_strlit("tg");
            assert(tag_code(x).take(2) =~= lang_code(Lang::Tg));
        },
        LanguageTag::TgCyrl => {
            reveal_strlit("tg-Cyrl");
            lemma_region_cases(tag_code(x));
            reveal_strlit("tg");
            assert(tag_code(x).take(2) =~= lang_code(Lang::Tg));
        },
        LanguageTag::TgCyrlTj => {
            reveal_strlit("tg-Cyrl-TJ");
            lemma_region_cases(tag_code(x));
            reveal_strlit("TJ");
            assert(tag_code(x).subrange(8, 10) =~= market_code(Market::Tj));
            assert(region_subtag_at(tag_code(x), 8));
            reveal_strlit("tg");
            assert(tag_code(x).take(2) =~= lang_code(Lang::Tg));
        },
        LanguageTag::TgLatn => {
            reveal_strlit("tg-Latn");
            lemma_region_cases(tag_code(x));
            reveal_strlit("tg");
            assert(tag_code(x).take(2) =~= lang_code(Lang::Tg));
        },
        LanguageTag::Th => {
            reveal_strlit("th");
            lemma_region_cases(tag_code(x));
            reveal_strlit("th");
            assert(tag_code(x).take(2) =~= lang_code(Lang::Th));
        },
        LanguageTag::ThTh => {
            reveal_strlit("th-TH");
            lemma_region_cases(tag_code(x));
            reveal_strlit("TH");
            assert(tag_code(x).subrange(3, 5) =~= market_code(Market::Th));
            assert(region_subtag_at(tag_code(x), 3));
            reveal_strlit("th");
            assert(tag_code(x).take(2) =~= lang_code(Lang::Th));
        },
        LanguageTag::Ti => {
            reveal_strlit("ti");
            lemma_region_cases(tag_code(x));
            reveal_strlit("ti");
            assert(tag_code(x).take(2) =~= lang_code(Lang::Ti));
        },
        LanguageTag::TiEt => {
            reveal_strlit("ti-ET");
            lemma_region_cases(tag_code(x));
            reveal_strlit("ET");
            assert(tag_code(x).subrange(3, 5) =~= market_code(Market::Et));
            assert(region_subtag_at(tag_code(x), 3));
            reveal_strlit("ti");
            assert(tag_code(x).take(2) =~= lang_code(Lang::Ti));
        },
        _ => {},
    }
}

#[verifier::spinoff_prover]
#[verifier::rlimit(80)]
proof fn lemma_tag_subtags_part7(x: LanguageTag)
    requires
        x is TkCyrl || x is TkCyrlTr || x is TkLatn || x is TkLatnTr || x is TkTm || x is Tn || x is TnBw || x is TnZa || x is Tr || x is TrTr || x is TtArab || x is TtCyrl || x is TtLatn || x is TtRu || x is UgArab || x is UgCn || x is UgCyrl || x is UgLatn || x is Uk || x is UkUa || x is Ur || x is UrPk || x is Uz || x is UzCyrl || x is UzLatn || x is UzLatnUz || x is Vi || x is ViVn || x is Wo || x is WoSn || x is Xh || x is XhZa || x is YoLatn || x is YoNg || x is ZhHans || x is ZhHansCn || x is ZhHansSg || x is ZhHant || x is ZhHantHk || x is ZhHantMo || x is ZhHantTw || x is Zu || x is ZuZa,
    ensures
        region_law(x),
        lang_law(x),
{
    match x {
        LanguageTag::TkCyrl => {
            reveal_strlit("tk-Cyrl");
            lemma_region_cases(tag_code(x));
            reveal_strlit("tk");
            assert(tag_code(x).take(2) =~= lang_code(Lang::Tk));
        },
        LanguageTag::TkCyrlTr => {
            reveal_strlit("tk-Cyrl-TR");
            lemma_region_cases(tag_code(x));
            reveal_strlit("TR");
            assert(tag_code(x).subrange(8, 10) =~= market_code(Market::Tr));
            assert(region_subtag_at(tag_code(x), 8));
            reveal_strlit("tk");
            assert(tag_code(x).take(2) =~= lang_code(Lang::Tk));
        },
        LanguageTag::TkLatn => {
            reveal_strlit("tk-Latn");
            lemma_region_cases(tag_code(x));
            reveal_strlit("tk");
            assert(tag_code(x).take(2) =~= lang_code(Lang::Tk));
        },
        LanguageTag::TkLatnTr => {
            reveal_strlit("tk-Latn-TR");
            lemma_region_cases(tag_code(x));
            reveal_strlit("TR");
            assert(tag_code(x).subrange(8, 10) =~= market_code(Market::Tr));
            assert(region_subtag_at(tag_code(x), 8));
            reveal_strlit("tk");
            assert(tag_code(x).take(2) =~= lang_code(Lang::Tk));
        },
        LanguageTag::TkTm => {
            reveal_strlit("tk-TM");
            lemma_region_cases(tag_code(x));
            reveal_strlit("TM");
            assert(tag_code(x).subrange(3, 5) =~= market_code(Market::Tm));
            assert(region_subtag_at(tag_code(x), 3));
            reveal_strlit("tk");
            assert(tag_code(x).take(2) =~= lang_code(Lang::Tk));
        },
        LanguageTag::Tn => {
            reveal_strlit("tn");
            lemma_region_cases(tag_code(x));
            reveal_strlit("tn");
            assert(tag_code(x).take(2) =~= lang_code(Lang::Tn));
        },
        LanguageTag::TnBw => {
            reveal_strlit("tn-BW");
            lemma_region_cases(tag_code(x));
            reveal_strlit("BW");
            assert(tag_code(x).subrange(3, 5) =~= market_code(Market::Bw));
            assert(region_subtag_at(tag_code(x), 3));
            reveal_strlit("tn");
            assert(tag_code(x).take(2) =~= lang_code(Lang::Tn));
        },
        LanguageTag::TnZa => {
            reveal_strlit("tn-ZA");
            lemma_region_cases(tag_code(x));
            reveal_strlit("ZA");
            assert(tag_code(x).subrange(3, 5) =~= market_code(Market::Za));
            assert(region_subtag_at(tag_code(x), 3));
            reveal_strlit("tn");
            assert(tag_code(x).take(2) =~= lang_code(Lang::Tn));
        },
        LanguageTag::Tr => {
            reveal_strlit("tr");
            lemma_region_cases(tag_code(x));
            reveal_strlit("tr");
            assert(tag_code(x).take(2) =~= lang_code(Lang::Tr));
        },
        LanguageTag::TrTr => {
            reveal_strlit("tr-TR");
            lemma_region_cases(tag_code(x));
            reveal_strlit("TR");
            assert(tag_code(x).subrange(3, 5) =~= market_code(Market::Tr));
            assert(region_subtag_at(tag_code(x), 3));
            reveal_strlit("tr");
            assert(tag_code(x).take(2) =~= lang_code(Lang::Tr));
        },
        LanguageTag::TtArab => {
            reveal_strlit("tt-Arab");
            lemma_region_cases(tag_code(x));
            reveal_strlit("tt");
            assert(tag_code(x).take(2) =~= lang_code(Lang::Tt));
        },
        LanguageTag::TtCyrl => {
            reveal_strlit("tt-Cyrl");
            lemma_region_cases(tag_code(x));
            reveal_strlit("tt");
            assert(tag_code(x).take(2) =~= lang_code(Lang::Tt));
        },
        LanguageTag::TtLatn => {
            reveal_strlit("tt-Latn");
            lemma_region_cases(tag_code(x));
            reveal_strlit("tt");
            assert(tag_code(x).take(2) =~= lang_code(Lang::Tt));
        },
        LanguageTag::TtRu => {
            reveal_strlit("tt-RU");
            lemma_region_cases(tag_code(x));
            reveal_strlit("RU");
            assert(tag_code(x).subrange(3, 5) =~= market_code(Market::Ru));
            assert(region_subtag_at(tag_code(x), 3));
            reveal_strlit("tt");
            assert(tag_code(x).take(2) =~= lang_code(Lang::Tt));
        },
        LanguageTag::UgArab => {
            reveal_strlit("ug-Arab");
            lemma_region_cases(tag_code(x));
            reveal_strlit("ug");
            assert(tag_code(x).take(2) =~= lang_code(Lang::Ug));
        },
        LanguageTag::UgCn => {
            reveal_strlit("ug-CN");
            lemma_region_cases(tag_code(x));
            reveal_strlit("CN");
            assert(tag_code(x).subrange(3, 5) =~= market_code(Market::Cn));
            assert(region_subtag_at(tag_code(x), 3));
            reveal_strlit("ug");
            assert(tag_code(x).take(2) =~= lang_code(Lang::Ug));
        },
        LanguageTag::UgCyrl => {
            reveal_strlit("ug-Cyrl");
            lemma_region_cases(tag_code(x));
            reveal_strlit("ug");
            assert(tag_code(x).take(2) =~= lang_code(Lang::Ug));
        },
        LanguageTag::UgLatn => {
            reveal_strlit("ug-Latn");
            lemma_region_cases(tag_code(x));
            reveal_strlit("ug");
            assert(tag_code(x).take(2) =~= lang_code(Lang::Ug));
        },
        LanguageTag::Uk => {
            reveal_strlit("uk");
            lemma_region_cases(tag_code(x));
            reveal_strlit("uk");
            assert(tag_code(x).take(2) =~= lang_code(Lang::Uk));
        },
        LanguageTag::UkUa => {
            reveal_strlit("uk-UA");
            lemma_region_cases(tag_code(x));
            reveal_strlit("UA");
            assert(tag_code(x).subrange(3, 5) =~= market_code(Market::Ua));
            assert(region_subtag_at(tag_code(x), 3));
            reveal_strlit("uk");
            assert(tag_code(x).take(2) =~= lang_code(Lang::Uk));
        },
        LanguageTag::Ur => {
            reveal_strlit("ur");
            lemma_region_cases(tag_code(x));
            reveal_strlit("ur");
            assert(tag_code(x).take(2) =~= lang_code(Lang::Ur));
        },
        LanguageTag::UrPk => {
            reveal_strlit("ur-PK");
            lemma_region_cases(tag_code(x));
            reveal_strlit("PK");
            assert(tag_code(x).subrange(3, 5) =~= market_code(Market::Pk));
            assert(region_subtag_at(tag_code(x), 3));
            reveal_strlit("ur");
            assert(tag_code(x).take(2) =~= lang_code(Lang::Ur));
        },
        LanguageTag::Uz => {
            reveal_strlit("uz");
            lemma_region_cases(tag_code(x));
            reveal_strlit("uz");
            assert(tag_code(x).take(2) =~= lang_code(Lang::Uz));
        },
        LanguageTag::UzCyrl => {
            reveal_strlit("uz-Cyrl");
            lemma_region_cases(tag_code(x));
            reveal_strlit("uz");
            assert(tag_code(x).take(2) =~= lang_code(Lang::Uz));
        },
        LanguageTag::UzLatn => {
            reveal_strlit("uz-Latn");
            lemma_region_cases(tag_code(x));
            reveal_strlit("uz");
            assert(tag_code(x).take(2) =~= lang_code(Lang::Uz));
        },
        LanguageTag::UzLatnUz => {
            reveal_strlit("uz-Latn-UZ");
            lemma_region_cases(tag_code(x));
            reveal_strlit("UZ");
            assert(tag_code(x).subrange(8, 10) =~= market_code(Market::Uz));
            assert(region_subtag_at(tag_code(x), 8));
            reveal_strlit("uz");
            assert(tag_code(x).take(2) =~= lang_code(Lang::Uz));
        },
        LanguageTag::Vi => {
            reveal_strlit("vi");
            lemma_region_cases(tag_code(x));
            reveal_strlit("vi");
            assert(tag_code(x).take(2) =~= lang_code(Lang::Vi));
        },
        LanguageTag::ViVn => {
            reveal_strlit("vi-VN");
            lemma_region_cases(tag_code(x));
            reveal_strlit("VN");
            assert(tag_code(x).subrange(3, 5) =~= market_code(Market::Vn));
            assert(region_subtag_at(tag_code(x), 3));
            reveal_strlit("vi");
            assert(tag_code(x).take(2) =~= lang_code(Lang::Vi));
        },
        LanguageTag::Wo => {
            reveal_strlit("wo");
            lemma_region_cases(tag_code(x));
            reveal_strlit("wo");
            assert(tag_code(x).take(2) =~= lang_code(Lang::Wo));
        },
        LanguageTag::WoSn => {
            reveal_strlit("wo-SN");
            lemma_region_cases(tag_code(x));
            reveal_strlit("SN");
            assert(tag_code(x).subrange(3, 5) =~= market_code(Market::Sn));
            assert(region_subtag_at(tag_code(x), 3));
            reveal_strlit("wo");
            assert(tag_code(x).take(2) =~= lang_code(Lang::Wo));
        },
        LanguageTag::Xh => {
            reveal_strlit("xh");
            lemma_region_cases(tag_code(x));
            reveal_strlit("xh");
            assert(tag_code(x).take(2) =~= lang_code(Lang::Xh));
        },
        LanguageTag::XhZa => {
            reveal_strlit("xh-ZA");
            lemma_region_cases(tag_code(x));
            reveal_strlit("ZA");
            assert(tag_code(x).subrange(3, 5) =~= market_code(Market::Za));
            assert(region_subtag_at(tag_code(x), 3));
            reveal_strlit("xh");
            assert(tag_code(x).take(2) =~= lang_code(Lang::Xh));
        },
        LanguageTag::YoLatn => {
            reveal_strlit("yo-Latn");
            lemma_region_cases(tag_code(x));
            reveal_strlit("yo");
            assert(tag_code(x).take(2) =~= lang_code(Lang::Yo));
        },
        LanguageTag::YoNg => {
            reveal_strlit("yo-NG");
            lemma_region_cases(tag_code(x));
            reveal_strlit("NG");
            assert(tag_code(x).subrange(3, 5) =~= market_code(Market::Ng));
            assert(region_subtag_at(tag_code(x), 3));
            reveal_strlit("yo");
            assert(tag_code(x).take(2) =~= lang_code(Lang::Yo));
        },
        LanguageTag::ZhHans => {
            reveal_strlit("zh-Hans");
            lemma_region_cases(tag_code(x));
            reveal_strlit("zh");
            assert(tag_code(x).take(2) =~= lang_code(Lang::Zh));
        },
        LanguageTag::ZhHansCn => {
            reveal_strlit("zh-Hans-CN");
            lemma_region_cases(tag_code(x));
            reveal_strlit("CN");
            assert(tag_code(x).subrange(8, 10) =~= market_code(Market::Cn));
            assert(region_subtag_at(tag_code(x), 8));
            reveal_strlit("zh");
            assert(tag_code(x).take(2) =~= lang_code(Lang::Zh));
        },
        LanguageTag::ZhHansSg => {
            reveal_strlit("zh-Hans-SG");
            lemma_region_cases(tag_code(x));
            reveal_strlit("SG");
            assert(tag_code(x).subrange(8, 10) =~= market_code(Market::Sg));
            assert(region_subtag_at(tag_code(x), 8));
            reveal_strlit("zh");
            assert(tag_code(x).take(2) =~= lang_code(Lang::Zh));
        },
        LanguageTag::ZhHant => {
            reveal_strlit("zh-Hant");
            lemma_region_cases(tag_code(x));
            reveal_strlit("zh");
            assert(tag_code(x).take(2) =~= lang_code(Lang::Zh));
        },
        LanguageTag::ZhHantHk => {
            reveal_strlit("zh-Hant-HK");
            lemma_region_cases(tag_code(x));
            reveal_strlit("HK");
            assert(tag_code(x).subrange(8, 10) =~= market_code(Market::Hk));
            assert(region_subtag_at(tag_code(x), 8));
            reveal_strlit("zh");
            assert(tag_code(x).take(2) =~= lang_code(Lang::Zh));
        },
        LanguageTag::ZhHantMo => {
            reveal_strlit("zh-Hant-MO");
            lemma_region_cases(tag_code(x));
            reveal_strlit("MO");
            assert(tag_code(x).subrange(8, 10) =~= market_code(Market::Mo));
            assert(region_subtag_at(tag_code(x), 8));
            reveal_strlit("zh");
            assert(tag_code(x).take(2) =~= lang_code(Lang::Zh));
        },
        LanguageTag::ZhHantTw => {
            reveal_strlit("zh-Hant-TW");
            lemma_region_cases(tag_code(x));
            reveal_strlit("TW");
            assert(tag_code(x).subrange(8, 10) =~= market_code(Market::Tw));
            assert(region_subtag_at(tag_code(x), 8));
            reveal_strlit("zh");
            assert(tag_code(x).take(2) =~= lang_code(Lang::Zh));
        },
        LanguageTag::Zu => {
            reveal_strlit("zu");
            lemma_region_cases(tag_code(x));
            reveal_strlit("zu");
            assert(tag_code(x).take(2) =~= lang_code(Lang::Zu));
        },
        LanguageTag::ZuZa => {
            reveal_strlit("zu-ZA");
            lemma_region_cases(tag_code(x));
            reveal_strlit("ZA");
            assert(tag_code(x).subrange(3, 5) =~= market_code(Market::Za));
            assert(region_subtag_at(tag_code(x), 3));
            reveal_strlit("zu");
            assert(tag_code(x).take(2) =~= lang_code(Lang::Zu));
        },
        _ => {},
    }
}

proof fn lemma_tag_subtags(x: LanguageTag)
    ensures
        region_law(x),
        lang_law(x),
{
    if x is Af || x is AfZa || x is Am || x is AmEt || x is Ar || x is ArAe || x is ArBh || x is ArDz || x is ArEg || x is ArIq || x is ArJo || x is ArKw || x is ArLb || x is ArLy || x is ArMa || x is ArOm || x is ArQa || x is ArSa || x is ArSy || x is ArTn || x is ArYe || x is As || x is AsIn || x is Az || x is AzArab || x is AzArabAz || x is AzCyrl || x is AzCyrlAz || x is AzLatn || x is AzLatnAz || x is Be || x is BeBy || x is Bg || x is BgBg || x is Bn || x is BnBd || x is BnIn || x is Bs || x is BsCyrl || x is BsCyrlBa || x is BsLatn || x is BsLatnBa || x is Ca {
        lemma_tag_subtags_part0(x);
    } else if x is CaEs || x is CaEsValencia || x is ChrCher || x is ChrCherUs || x is ChrLatn || x is Co || x is Cs || x is CsCz || x is Cy || x is CyGb || x is Da || x is DaDk || x is De || x is DeAt || x is DeCh || x is DeDe || x is DeLi || x is DeLu || x is El || x is ElGr || x is En || x is En011 || x is En014 || x is En018 || x is En021 || x is En029 || x is En053 || x is EnAu || x is EnBz || x is EnCa || x is EnGb || x is EnHk || x is EnId || x is EnIe || x is EnIn || x is EnJm || x is EnKz || x is EnMt || x is EnMy || x is EnNz || x is EnPh || x is EnPk || x is EnSg {
        lemma_tag_subtags_part1(x);
    } else if x is EnTt || x is EnUs || x is EnVn || x is EnZa || x is EnZw || x is Es || x is Es019 || x is Es419 || x is EsAr || x is EsBo || x is EsCl || x is EsCo || x is EsCr || x is EsDo || x is EsEc || x is EsEs || x is EsGt || x is EsHn || x is EsMx || x is EsNi || x is EsPa || x is EsPe || x is EsPr || x is EsPy || x is EsSv || x is EsUs || x is EsUy || x is EsVe || x is Et || x is EtEe || x is Eu || x is EuEs || x is Fa || x is FaIr || x is Fi || x is FiFi || x is Fil || x is FilLatn || x is FilPh || x is Fr || x is Fr011 || x is Fr015 || x is Fr021 {
        lemma_tag_subtags_part2(x);
    } else if x is Fr029 || x is Fr155 || x is FrBe || x is FrCa || x is FrCd || x is FrCh || x is FrCi || x is FrCm || x is FrFr || x is FrHt || x is FrLu || x is FrMa || x is FrMc || x is FrMl || x is FrRe || x is FrcLatn || x is FrpLatn || x is Ga || x is GaIe || x is Gd || x is GdGb || x is GdLatn || x is Gl || x is GlEs || x is Gu || x is GuIn || x is Ha || x is HaLatn || x is HaLatnNg || x is He || x is HeIl || x is Hi || x is HiIn || x is Hr || x is HrBa || x is HrHr || x is Hu || x is HuHu || x is Hy || x is HyAm || x is Id || x is IdId || x is IgLatn {
        lemma_tag_subtags_part3(x);
    } else if x is IgNg || x is Is || x is IsIs || x is It || x is ItCh || x is ItIt || x is IuCans || x is IuLatn || x is IuLatnCa || x is Ja || x is JaJp || x is Ka || x is KaGe || x is Kk || x is KkKz || x is Km || x is KmKh || x is Kn || x is KnIn || x is Ko || x is KoKr || x is Kok || x is KokIn || x is KuArab || x is KuArabIq || x is KyCyrl || x is KyKg || x is Lb || x is LbLu || x is Lo || x is LoLa || x is Lt || x is LtLt || x is Lv || x is LvLv || x is Mi || x is MiLatn || x is MiNz || x is Mk || x is MkMk || x is Ml || x is MlIn || x is MnCyrl {
        lemma_tag_subtags_part4(x);
    } else if x is MnMn || x is MnMong || x is Mr || x is MrIn || x is Ms || x is MsBn || x is MsMy || x is Mt || x is MtMt || x is Nb || x is NbNo || x is Ne || x is NeNp || x is Nl || x is NlBe || x is NlNl || x is Nn || x is NnNo || x is Nso || x is NsoZa || x is Or || x is OrIn || x is Pa || x is PaArab || x is PaArabPk || x is PaDeva || x is PaIn || x is Pl || x is PlPl || x is Prs || x is PrsAf || x is PrsArab || x is Pt || x is PtBr || x is PtPt || x is QucLatn || x is QutGt || x is QutLatn || x is Quz || x is QuzBo || x is QuzEc || x is QuzPe || x is Ro {
        lemma_tag_subtags_part5(x);
    } else if x is RoRo || x is Ru || x is RuRu || x is Rw || x is RwRw || x is SdArab || x is SdArabPk || x is SdDeva || x is Si || x is SiLk || x is Sk || x is SkSk || x is Sl || x is SlSi || x is Sq || x is SqAl || x is SrCyrl || x is SrCyrlBa || x is SrCyrlCs || x is SrCyrlMe || x is SrCyrlRs || x is SrLatn || x is SrLatnBa || x is SrLatnCs || x is SrLatnMe || x is SrLatnRs || x is Sv || x is SvFi || x is SvSe || x is Sw || x is SwKe || x is Ta || x is TaIn || x is Te || x is TeIn || x is TgArab || x is TgCyrl || x is TgCyrlTj || x is TgLatn || x is Th || x is ThTh || x is Ti || x is TiEt {
        lemma_tag_subtags_part6(x);
    } else {
        lemma_tag_subtags_part7(x);
    }
}

/// A tag's region is the market named by its region subtag: when the tag
/// has a region, its market's code is the tag's two-letter region subtag
/// (every such subtag of the code, of which there is one); when it has
/// none, no two-letter subtag of its code is a market's code.
pub proof fn lemma_tag_region_is_region_subtag(t: LanguageTag)
    ensures
        tag_region(t) matches Some(m) ==> (exists|i: int|
            region_subtag_at(tag_code(t), i) && #[trigger] tag_code(t).subrange(i, i + 2)
                == market_code(m)),
        tag_region(t) matches Some(m) ==> (forall|i: int|
            #[trigger] region_subtag_at(tag_code(t), i) ==> tag_code(t).subrange(i, i + 2)
                == market_code(m)),
        tag_region(t) is None ==> (forall|i: int, m: Market|
            #![trigger region_subtag_at(tag_code(t), i), market_code(m)]
            region_subtag_at(tag_code(t), i) ==> tag_code(t).subrange(i, i + 2) != market_code(m)),
{
    lemma_tag_subtags(t);
}

/// A tag's language is the one named by its primary subtag: when the tag
/// has a language, the tag's code starts with that language's code as a
/// whole subtag; when it has none, no language's code is its primary
/// subtag.
pub proof fn lemma_tag_lang_is_primary_subtag(t: LanguageTag)
    ensures
        tag_lang(t) matches Some(l) ==> primary_subtag_is(tag_code(t), lang_code(l)),
        tag_lang(t) is None ==> (forall|l: Lang|
            !primary_subtag_is(tag_code(t), #[trigger] lang_code(l))),
{
    lemma_tag_subtags(t);
}

} // verus!
