//! The locale a DisplayCatalog request is made for: market, language, and
//! how the language list in the query string is spelled.

use vstd::prelude::*;

use crate::codes::{lang_code, market_code, tag_lang, tag_region, Lang, LanguageTag, Market};
use crate::text::{extend_str, str_eq, string_of};

verus! {

/// Combined locale used when forming DisplayCatalog request URLs.
#[derive(Debug, Clone, Copy, PartialEq, Eq, Structural)]
pub struct Locale {
    pub market: Market,
    pub language: Lang,
    pub include_neutral: bool,
    /// When true, [`Self::dcat_trail`] emits the language as a BCP-47 tag
    /// (`<lang>-<market>`, e.g. `en-US`) instead of the bare ISO 639-1 code
    /// (`en`). Microsoft returns more fields (CMS videos among them) for the
    /// full-tag form.
    pub use_full_tag: bool,
}

/// The language component of the query string: `<lang>-<market>` when the
/// full tag is enabled, otherwise `<lang>`.
pub open spec fn language_token_spec(l: Locale) -> Seq<char> {
    if l.use_full_tag {
        lang_code(l.language) + "-"@ + market_code(l.market)
    } else {
        lang_code(l.language)
    }
}

/// The query-string fragment appended to DCat URLs:
/// `market=<M>&languages=<token>[,en]&catalogsource=apps`, where the neutral
/// `,en` fallback is added only when requested and the language is not
/// already English.
pub open spec fn dcat_trail_spec(l: Locale) -> Seq<char> {
    "market="@ + market_code(l.market) + "&languages="@ + language_token_spec(l) + (if l.include_neutral
        && lang_code(l.language) != "en"@ {
        ",en"@
    } else {
        Seq::<char>::empty()
    }) + "&catalogsource=apps"@
}

/// The error `Locale::from_tag` reports when the tag has no ISO 639-1
/// primary subtag.
pub open spec fn no_language_message() -> Seq<char> {
    "language tag has no ISO 639-1 primary subtag"@
}

/// The error `Locale::from_tag` reports when the tag has no ISO 3166-1
/// region subtag.
pub open spec fn no_region_message() -> Seq<char> {
    "language tag has no ISO 3166-1 region subtag"@
}

impl Locale {
    /// Create a new `Locale` with the full-tag form disabled.
    pub fn new(market: Market, language: Lang, include_neutral: bool) -> (r: Self)
        ensures
            r == (Locale { market, language, include_neutral, use_full_tag: false }),
    {
        Locale { market, language, include_neutral, use_full_tag: false }
    }

    /// Default production locale: `US / en`, neutral disabled, full-tag
    /// emission enabled (requests carry `languages=en-US`).
    pub fn production() -> (r: Self)
        ensures
            r == (Locale {
                market: Market::Us,
                language: Lang::En,
                include_neutral: false,
                use_full_tag: true,
            }),
    {
        Locale { market: Market::Us, language: Lang::En, include_neutral: false, use_full_tag: true }
    }

    /// Build a locale from a Microsoft Store BCP-47 tag. Fails when the tag
    /// has no ISO 639-1 primary subtag (e.g. `chr-Cher-US`) or no region that
    /// is a market (e.g. `zh-Hant`, `en-053`); `include_neutral` is passed
    /// through and the full-tag form is off.
    pub fn from_tag(tag: LanguageTag, include_neutral: bool) -> (r: Result<Self, &'static str>)
        ensures
            match (tag_lang(tag), tag_region(tag)) {
                (Some(l), Some(m)) => r == Ok::<Locale, &'static str>(
                    Locale { market: m, language: l, include_neutral, use_full_tag: false },
                ),
                (None, _) => r matches Err(e) && e@ == no_language_message(),
                (Some(_), None) => r matches Err(e) && e@ == no_region_message(),
            },
    {
        let lang = match tag.lang() {
            Some(l) => l,
            None => {
                return Err("language tag has no ISO 639-1 primary subtag");
            },
        };
        let market = match tag.region() {
            Some(m) => m,
            None => {
                return Err("language tag has no ISO 3166-1 region subtag");
            },
        };
        Ok(Locale::new(market, lang, include_neutral))
    }

    /// Set whether the language is emitted in its full-tag form.
    pub fn with_full_tag(self, enabled: bool) -> (r: Self)
        ensures
            r == (Locale { use_full_tag: enabled, ..self }),
    {
        let mut l = self;
        l.use_full_tag = enabled;
        l
    }

    fn language_token(&self) -> (r: Vec<char>)
        ensures
            r@ == language_token_spec(*self),
    {
        let mut v: Vec<char> = Vec::new();
        extend_str(&mut v, self.language.as_str());
        if self.use_full_tag {
            extend_str(&mut v, "-");
            extend_str(&mut v, self.market.as_str());
        }
        v
    }

    /// Builds the trailing query-string fragment appended to DCat URLs, e.g.
    /// `market=US&languages=en&catalogsource=apps` or
    /// `market=DE&languages=de-DE,en&catalogsource=apps`.
    pub fn dcat_trail(&self) -> (r: String)
        ensures
            r@ == dcat_trail_spec(*self),
    {
        let mut v: Vec<char> = Vec::new();
        extend_str(&mut v, "market=");
        extend_str(&mut v, self.market.as_str());
        extend_str(&mut v, "&languages=");
        let token = self.language_token();
        crate::text::extend_chars(&mut v, token.as_slice());
        let neutral = self.include_neutral && !str_eq(self.language.as_str(), "en");
        let ghost before = v@;
        if neutral {
            extend_str(&mut v, ",en");
        }
        assert(v@ =~= before + (if self.include_neutral && lang_code(self.language) != "en"@ {
            ",en"@
        } else {
            Seq::<char>::empty()
        }));
        extend_str(&mut v, "&catalogsource=apps");
        string_of(v.as_slice())
    }
}

} // verus!
