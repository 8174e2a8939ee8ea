use std::str::FromStr;

use storelib_rs::codes::{Lang, LanguageTag, Market};
use storelib_rs::locale::Locale;

#[test]
fn production_locale_trail() {
    let trail = Locale::production().dcat_trail();
    assert_eq!(trail, "market=US&languages=en-US&catalogsource=apps");
}

#[test]
fn new_keeps_short_tag_for_backwards_compat() {
    let l = Locale::new(Market::Us, Lang::En, false);
    assert_eq!(l.dcat_trail(), "market=US&languages=en&catalogsource=apps");
    assert!(!l.use_full_tag);
}

#[test]
fn with_full_tag_builder_switches_format() {
    let l = Locale::new(Market::Us, Lang::En, false).with_full_tag(true);
    assert_eq!(l.dcat_trail(), "market=US&languages=en-US&catalogsource=apps");
    let l = l.with_full_tag(false);
    assert_eq!(l.dcat_trail(), "market=US&languages=en&catalogsource=apps");
}

#[test]
fn full_tag_with_neutral_fallback() {
    let l = Locale::new(Market::De, Lang::De, true).with_full_tag(true);
    assert_eq!(l.dcat_trail(), "market=DE&languages=de-DE,en&catalogsource=apps",);
}

#[test]
fn full_tag_neutral_skipped_when_lang_is_en() {
    let l = Locale::new(Market::Gb, Lang::En, true).with_full_tag(true);
    assert_eq!(l.dcat_trail(), "market=GB&languages=en-GB&catalogsource=apps");
}

#[test]
fn locale_with_neutral_fallback() {
    let locale = Locale::new(Market::De, Lang::De, true);
    assert_eq!(locale.dcat_trail(), "market=DE&languages=de,en&catalogsource=apps",);
}

#[test]
fn locale_neutral_skipped_when_lang_is_en() {
    let locale = Locale::new(Market::Us, Lang::En, true);
    assert_eq!(locale.dcat_trail(), "market=US&languages=en&catalogsource=apps",);
}

#[test]
fn market_roundtrip() {
    assert_eq!(Market::Us.as_str(), "US");
    assert_eq!(Market::Jp.as_str(), "JP");
    assert_eq!(Market::Zw.as_str(), "ZW");
    assert_eq!(Market::from_str("us").unwrap(), Market::Us);
    assert_eq!(Market::from_str("ZW").unwrap(), Market::Zw);
    assert!(Market::from_str("XX").is_err());
}

#[test]
fn lang_roundtrip() {
    assert_eq!(Lang::En.as_str(), "en");
    assert_eq!(Lang::Zh.as_str(), "zh");
    assert_eq!(Lang::from_str("EN").unwrap(), Lang::En);
    assert!(Lang::from_str("xx").is_err());
}

#[test]
fn locale_from_tag() {
    let l = Locale::from_tag(LanguageTag::EnUs, false).unwrap();
    assert_eq!(l.market, Market::Us);
    assert_eq!(l.language, Lang::En);

    let l = Locale::from_tag(LanguageTag::ZhHantTw, true).unwrap();
    assert_eq!(l.market, Market::Tw);
    assert_eq!(l.language, Lang::Zh);
    assert!(l.include_neutral);

    assert!(Locale::from_tag(LanguageTag::ZhHant, false).is_err());
    assert!(Locale::from_tag(LanguageTag::ChrCherUs, false).is_err());
    assert!(Locale::from_tag(LanguageTag::En053, false).is_err());
}

#[test]
fn locale_from_tag_dcat_trail_picks_lang_not_tag() {
    let l = Locale::from_tag(LanguageTag::ZhHantTw, false).unwrap();
    assert_eq!(l.dcat_trail(), "market=TW&languages=zh&catalogsource=apps",);
}

#[test]
fn locale_from_tag_three_segment_with_script_and_region() {
    let l = Locale::from_tag(LanguageTag::AzLatnAz, false).unwrap();
    assert_eq!(l.market, Market::Az);
    assert_eq!(l.language, Lang::Az);

    let l = Locale::from_tag(LanguageTag::SrCyrlRs, true).unwrap();
    assert_eq!(l.market, Market::Rs);
    assert_eq!(l.language, Lang::Sr);
}

#[test]
fn locale_from_tag_variant_subtag() {
    let l = Locale::from_tag(LanguageTag::CaEsValencia, false).unwrap();
    assert_eq!(l.market, Market::Es);
    assert_eq!(l.language, Lang::Ca);
}

#[test]
fn language_tag_lang_projection() {
    assert_eq!(LanguageTag::En.lang(), Some(Lang::En));
    assert_eq!(LanguageTag::EnUs.lang(), Some(Lang::En));
    assert_eq!(LanguageTag::ZhHant.lang(), Some(Lang::Zh));
    assert_eq!(LanguageTag::ZhHantTw.lang(), Some(Lang::Zh));
    assert_eq!(LanguageTag::ChrCher.lang(), None);
    assert_eq!(LanguageTag::FilPh.lang(), None);
    assert_eq!(LanguageTag::PrsAf.lang(), None);
}

#[test]
fn language_tag_region_projection() {
    assert_eq!(LanguageTag::En.region(), None);
    assert_eq!(LanguageTag::ZhHant.region(), None);
    assert_eq!(LanguageTag::EnUs.region(), Some(Market::Us));
    assert_eq!(LanguageTag::ZhHantTw.region(), Some(Market::Tw));
    assert_eq!(LanguageTag::SrCyrlBa.region(), Some(Market::Ba));
    assert_eq!(LanguageTag::En053.region(), None);
    assert_eq!(LanguageTag::Es419.region(), None);
}

#[test]
fn locale_dcat_trail_non_en_with_neutral() {
    let l = Locale::new(Market::Jp, Lang::Ja, true);
    assert_eq!(l.dcat_trail(), "market=JP&languages=ja,en&catalogsource=apps",);
}

#[test]
fn locale_dcat_trail_non_en_without_neutral() {
    let l = Locale::new(Market::Jp, Lang::Ja, false);
    assert_eq!(l.dcat_trail(), "market=JP&languages=ja&catalogsource=apps",);
}

#[test]
fn language_tag_roundtrip() {
    assert_eq!(LanguageTag::EnUs.as_str(), "en-US");
    assert_eq!(LanguageTag::ZhHant.as_str(), "zh-Hant");
    assert_eq!(LanguageTag::SrCyrlRs.as_str(), "sr-Cyrl-RS");
    assert_eq!(LanguageTag::CaEsValencia.as_str(), "ca-ES-valencia");
    assert_eq!(LanguageTag::from_str("en-us").unwrap(), LanguageTag::EnUs);
    assert_eq!(LanguageTag::from_str("ZH-HANT").unwrap(), LanguageTag::ZhHant,);
    assert!(LanguageTag::from_str("xx-YY").is_err());
}

#[test]
fn english_names() {
    assert_eq!(Market::Us.english_name(), "United States");
    assert_eq!(Lang::En.english_name(), "English");
    assert_eq!(LanguageTag::EnUs.english_name(), "English");
    assert_eq!(LanguageTag::ZhHant.english_name(), "Chinese (Traditional)",);
}

#[test]
fn every_market_code_parses_back() {
    for m in Market::all() {
        assert_eq!(Market::from_str(m.as_str()).unwrap(), m);
    }
    for l in Lang::all() {
        assert_eq!(Lang::from_str(l.as_str()).unwrap(), l);
    }
    for t in LanguageTag::all() {
        assert_eq!(LanguageTag::from_str(t.as_str()).unwrap(), t);
        assert_eq!(LanguageTag::from_str(&t.as_str().to_uppercase()).unwrap(), t);
    }
}

#[test]
fn from_tag_reports_missing_parts() {
    assert!(Locale::from_tag(LanguageTag::ZhHant, false).is_err());
    let err = Locale::from_tag(LanguageTag::ChrCherUs, false).unwrap_err();
    assert!(!err.is_empty());
}
