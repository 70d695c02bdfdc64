use vstd::prelude::*;
use vstd::string::*;

use crate::chars::str_eq;

verus! {

/// Whether a language listing asks for source or target languages.
#[derive(Copy, Clone, Debug, PartialEq, Eq, Structural)]
pub enum LanguageType {
    /// Source language
    Source,
    /// Target language
    Target,
}

impl LanguageType {
    /// The value of the `type` query parameter that selects this kind of listing.
    pub open spec fn query_value(self) -> Seq<char> {
        match self {
            LanguageType::Source => "source"@,
            LanguageType::Target => "target"@,
        }
    }

    /// The `type` query parameter of a language listing.
    pub fn as_str(&self) -> (r: &'static str)
        ensures
            r@ == self.query_value(),
    {
        match self {
            LanguageType::Source => "source",
            LanguageType::Target => "target",
        }
    }
}

/// Information about a supported language
#[derive(Clone, Debug)]
pub struct LanguageInfo {
    /// Language code (EN, DE, etc.)
    pub language: String,
    /// Name of the language in English
    pub name: String,
    /// Denotes formality support in case of target language
    pub supports_formality: Option<bool>,
}

/// Language variants.
///
/// While many variants serve as both source and target languages, there are exceptions.
/// When translating text and documents, [`En`](Self::En) and [`Pt`](Self::Pt) may only be
/// used as source languages, and the regional variants [`EnUs`](Self::EnUs),
/// [`EnGb`](Self::EnGb), [`PtBr`](Self::PtBr) and [`PtPt`](Self::PtPt) only as target
/// languages. The remote service enforces this, not the library.
#[derive(Copy, Clone, Debug, PartialEq, Eq, Hash, Structural)]
    pub enum Language {
        /// Arabic
        Ar,
        /// Bulgarian
        Bg,
        /// Czech
        Cs,
        /// Danish
        Da,
        /// German
        De,
        /// Greek
        El,
        /// English
        En,
        /// English (British)
        EnGb,
        /// English (American)
        EnUs,
        /// Spanish
        Es,
        /// Spanish (Latin American)
        Es419,
        /// Estonian
        Et,
        /// Finnish
        Fi,
        /// French
        Fr,
        /// Hungarian
        Hu,
        /// Indonesian
        Id,
        /// Italian
        It,
        /// Japanese
        Ja,
        /// Korean
        Ko,
        /// Lithuanian
        Lt,
        /// Latvian
        Lv,
        /// Norwegian (Bokmal)
        Nb,
        /// Dutch
        Nl,
        /// Polish
        Pl,
        /// Portuguese
        Pt,
        /// Portuguese (Brazilian)
        PtBr,
        /// Portuguese (European)
        PtPt,
        /// Romanian
        Ro,
        /// Russian
        Ru,
        /// Slovak
        Sk,
        /// Slovenian
        Sl,
        /// Swedish
        Sv,
        /// Turkish
        Tr,
        /// Ukrainian
        Uk,
        /// Chinese
        Zh,
        /// Chinese (simplified)
        ZhHans,
        /// Chinese (traditional)
        ZhHant,
    }

impl Language {
    /// The canonical wire code: upper case, regional part after a hyphen.
    pub open spec fn code(self) -> Seq<char> {
        match self {
            Language::Ar => "AR"@,
            Language::Bg => "BG"@,
            Language::Cs => "CS"@,
            Language::Da => "DA"@,
            Language::De => "DE"@,
            Language::El => "EL"@,
            Language::En => "EN"@,
            Language::EnGb => "EN-GB"@,
            Language::EnUs => "EN-US"@,
            Language::Es => "ES"@,
            Language::Es419 => "ES-419"@,
            Language::Et => "ET"@,
            Language::Fi => "FI"@,
            Language::Fr => "FR"@,
            Language::Hu => "HU"@,
            Language::Id => "ID"@,
            Language::It => "IT"@,
            Language::Ja => "JA"@,
            Language::Ko => "KO"@,
            Language::Lt => "LT"@,
            Language::Lv => "LV"@,
            Language::Nb => "NB"@,
            Language::Nl => "NL"@,
            Language::Pl => "PL"@,
            Language::Pt => "PT"@,
            Language::PtBr => "PT-BR"@,
            Language::PtPt => "PT-PT"@,
            Language::Ro => "RO"@,
            Language::Ru => "RU"@,
            Language::Sk => "SK"@,
            Language::Sl => "SL"@,
            Language::Sv => "SV"@,
            Language::Tr => "TR"@,
            Language::Uk => "UK"@,
            Language::Zh => "ZH"@,
            Language::ZhHans => "ZH-HANS"@,
            Language::ZhHant => "ZH-HANT"@,
        }
    }

    /// The canonical wire code of this language, e.g. "EN-US".
    pub fn as_str(&self) -> (r: &'static str)
        ensures
            r@ == self.code(),
    {
        match self {
            Language::Ar => "AR",
            Language::Bg => "BG",
            Language::Cs => "CS",
            Language::Da => "DA",
            Language::De => "DE",
            Language::El => "EL",
            Language::En => "EN",
            Language::EnGb => "EN-GB",
            Language::EnUs => "EN-US",
            Language::Es => "ES",
            Language::Es419 => "ES-419",
            Language::Et => "ET",
            Language::Fi => "FI",
            Language::Fr => "FR",
            Language::Hu => "HU",
            Language::Id => "ID",
            Language::It => "IT",
            Language::Ja => "JA",
            Language::Ko => "KO",
            Language::Lt => "LT",
            Language::Lv => "LV",
            Language::Nb => "NB",
            Language::Nl => "NL",
            Language::Pl => "PL",
            Language::Pt => "PT",
            Language::PtBr => "PT-BR",
            Language::PtPt => "PT-PT",
            Language::Ro => "RO",
            Language::Ru => "RU",
            Language::Sk => "SK",
            Language::Sl => "SL",
            Language::Sv => "SV",
            Language::Tr => "TR",
            Language::Uk => "UK",
            Language::Zh => "ZH",
            Language::ZhHans => "ZH-HANS",
            Language::ZhHant => "ZH-HANT",
        }
    }

    /// Every language, each once.
    pub fn all() -> (r: Vec<Language>)
        ensures
            forall|l: Language| #[trigger] r@.contains(l),
            forall|i: int, j: int| 0 <= i < j < r@.len() ==> r@[i] != r@[j],
    {
        let r =
        vec![Language::Ar, Language::Bg, Language::Cs, Language::Da, Language::De, Language::El, Language::En, Language::EnGb, Language::EnUs, Language::Es, Language::Es419, Language::Et, Language::Fi, Language::Fr, Language::Hu, Language::Id, Language::It, Language::Ja, Language::Ko, Language::Lt, Language::Lv, Language::Nb, Language::Nl, Language::Pl, Language::Pt, Language::PtBr, Language::PtPt, Language::Ro, Language::Ru, Language::Sk, Language::Sl, Language::Sv, Language::Tr, Language::Uk, Language::Zh, Language::ZhHans, Language::ZhHant];
        assert forall|l: Language| #[trigger] r@.contains(l) by {
            assert(r@[position(l)] == l);
        }
        r
    }
}

/// Where a language stands in the list of all languages.
spec fn position(l: Language) -> int {
    match l {
        Language::Ar => 0,
        Language::Bg => 1,
        Language::Cs => 2,
        Language::Da => 3,
        Language::De => 4,
        Language::El => 5,
        Language::En => 6,
        Language::EnGb => 7,
        Language::EnUs => 8,
        Language::Es => 9,
        Language::Es419 => 10,
        Language::Et => 11,
        Language::Fi => 12,
        Language::Fr => 13,
        Language::Hu => 14,
        Language::Id => 15,
        Language::It => 16,
        Language::Ja => 17,
        Language::Ko => 18,
        Language::Lt => 19,
        Language::Lv => 20,
        Language::Nb => 21,
        Language::Nl => 22,
        Language::Pl => 23,
        Language::Pt => 24,
        Language::PtBr => 25,
        Language::PtPt => 26,
        Language::Ro => 27,
        Language::Ru => 28,
        Language::Sk => 29,
        Language::Sl => 30,
        Language::Sv => 31,
        Language::Tr => 32,
        Language::Uk => 33,
        Language::Zh => 34,
        Language::ZhHans => 35,
        Language::ZhHant => 36,
    }
}

/// Reads a canonical code back character by character.
spec fn decode_code(s: Seq<char>) -> Option<Language> {
        if s.len() == 2 && s[0] == 'A' && s[1] == 'R' {
            Some(Language::Ar)
        } else
        if s.len() == 2 && s[0] == 'B' && s[1] == 'G' {
            Some(Language::Bg)
        } else
        if s.len() == 2 && s[0] == 'C' && s[1] == 'S' {
            Some(Language::Cs)
        } else
        if s.len() == 2 && s[0] == 'D' && s[1] == 'A' {
            Some(Language::Da)
        } else
        if s.len() == 2 && s[0] == 'D' && s[1] == 'E' {
            Some(Language::De)
        } else
        if s.len() == 2 && s[0] == 'E' && s[1] == 'L' {
            Some(Language::El)
        } else
        if s.len() == 2 && s[0] == 'E' && s[1] == 'N' {
            Some(Language::En)
        } else
        if s.len() == 5 && s[0] == 'E' && s[1] == 'N' && s[2] == '-' && s[3] == 'G' && s[4] == 'B' {
            Some(Language::EnGb)
        } else
        if s.len() == 5 && s[0] == 'E' && s[1] == 'N' && s[2] == '-' && s[3] == 'U' && s[4] == 'S' {
            Some(Language::EnUs)
        } else
        if s.len() == 2 && s[0] == 'E' && s[1] == 'S' {
            Some(Language::Es)
        } else
        if s.len() == 6 && s[0] == 'E' && s[1] == 'S' && s[2] == '-' && s[3] == '4' && s[4] == '1' && s[5] == '9' {
            Some(Language::Es419)
        } else
        if s.len() == 2 && s[0] == 'E' && s[1] == 'T' {
            Some(Language::Et)
        } else
        if s.len() == 2 && s[0] == 'F' && s[1] == 'I' {
            Some(Language::Fi)
        } else
        if s.len() == 2 && s[0] == 'F' && s[1] == 'R' {
            Some(Language::Fr)
        } else
        if s.len() == 2 && s[0] == 'H' && s[1] == 'U' {
            Some(Language::Hu)
        } else
        if s.len() == 2 && s[0] == 'I' && s[1] == 'D' {
            Some(Language::Id)
        } else
        if s.len() == 2 && s[0] == 'I' && s[1] == 'T' {
            Some(Language::It)
        } else
        if s.len() == 2 && s[0] == 'J' && s[1] == 'A' {
            Some(Language::Ja)
        } else
        if s.len() == 2 && s[0] == 'K' && s[1] == 'O' {
            Some(Language::Ko)
        } else
        if s.len() == 2 && s[0] == 'L' && s[1] == 'T' {
            Some(Language::Lt)
        } else
        if s.len() == 2 && s[0] == 'L' && s[1] == 'V' {
            Some(Language::Lv)
        } else
        if s.len() == 2 && s[0] == 'N' && s[1] == 'B' {
            Some(Language::Nb)
        } else
        if s.len() == 2 && s[0] == 'N' && s[1] == 'L' {
            Some(Language::Nl)
        } else
        if s.len() == 2 && s[0] == 'P' && s[1] == 'L' {
            Some(Language::Pl)
        } else
        if s.len() == 2 && s[0] == 'P' && s[1] == 'T' {
            Some(Language::Pt)
        } else
        if s.len() == 5 && s[0] == 'P' && s[1] == 'T' && s[2] == '-' && s[3] == 'B' && s[4] == 'R' {
            Some(Language::PtBr)
        } else
        if s.len() == 5 && s[0] == 'P' && s[1] == 'T' && s[2] == '-' && s[3] == 'P' && s[4] == 'T' {
            Some(Language::PtPt)
        } else
        if s.len() == 2 && s[0] == 'R' && s[1] == 'O' {
            Some(Language::Ro)
        } else
        if s.len() == 2 && s[0] == 'R' && s[1] == 'U' {
            Some(Language::Ru)
        } else
        if s.len() == 2 && s[0] == 'S' && s[1] == 'K' {
            Some(Language::Sk)
        } else
        if s.len() == 2 && s[0] == 'S' && s[1] == 'L' {
            Some(Language::Sl)
        } else
        if s.len() == 2 && s[0] == 'S' && s[1] == 'V' {
            Some(Language::Sv)
        } else
        if s.len() == 2 && s[0] == 'T' && s[1] == 'R' {
            Some(Language::Tr)
        } else
        if s.len() == 2 && s[0] == 'U' && s[1] == 'K' {
            Some(Language::Uk)
        } else
        if s.len() == 2 && s[0] == 'Z' && s[1] == 'H' {
            Some(Language::Zh)
        } else
        if s.len() == 7 && s[0] == 'Z' && s[1] == 'H' && s[2] == '-' && s[3] == 'H' && s[4] == 'A' && s[5] == 'N' && s[6] == 'S' {
            Some(Language::ZhHans)
        } else
        if s.len() == 7 && s[0] == 'Z' && s[1] == 'H' && s[2] == '-' && s[3] == 'H' && s[4] == 'A' && s[5] == 'N' && s[6] == 'T' {
            Some(Language::ZhHant)
        } else {
            None
        }
}

proof fn lemma_decode_code(l: Language)
    ensures
        decode_code(l.code()) == Some(l),
{
    match l {
        Language::Ar => reveal_strlit("AR"),
        Language::Bg => reveal_strlit("BG"),
        Language::Cs => reveal_strlit("CS"),
        Language::Da => reveal_strlit("DA"),
        Language::De => reveal_strlit("DE"),
        Language::El => reveal_strlit("EL"),
        Language::En => reveal_strlit("EN"),
        Language::EnGb => reveal_strlit("EN-GB"),
        Language::EnUs => reveal_strlit("EN-US"),
        Language::Es => reveal_strlit("ES"),
        Language::Es419 => reveal_strlit("ES-419"),
        Language::Et => reveal_strlit("ET"),
        Language::Fi => reveal_strlit("FI"),
        Language::Fr => reveal_strlit("FR"),
        Language::Hu => reveal_strlit("HU"),
        Language::Id => reveal_strlit("ID"),
        Language::It => reveal_strlit("IT"),
        Language::Ja => reveal_strlit("JA"),
        Language::Ko => reveal_strlit("KO"),
        Language::Lt => reveal_strlit("LT"),
        Language::Lv => reveal_strlit("LV"),
        Language::Nb => reveal_strlit("NB"),
        Language::Nl => reveal_strlit("NL"),
        Language::Pl => reveal_strlit("PL"),
        Language::Pt => reveal_strlit("PT"),
        Language::PtBr => reveal_strlit("PT-BR"),
        Language::PtPt => reveal_strlit("PT-PT"),
        Language::Ro => reveal_strlit("RO"),
        Language::Ru => reveal_strlit("RU"),
        Language::Sk => reveal_strlit("SK"),
        Language::Sl => reveal_strlit("SL"),
        Language::Sv => reveal_strlit("SV"),
        Language::Tr => reveal_strlit("TR"),
        Language::Uk => reveal_strlit("UK"),
        Language::Zh => reveal_strlit("ZH"),
        Language::ZhHans => reveal_strlit("ZH-HANS"),
        Language::ZhHant => reveal_strlit("ZH-HANT"),
    }
}

/// Distinct languages have distinct codes.
pub proof fn lemma_code_injective(a: Language, b: Language)
    requires
        a.code() == b.code(),
    ensures
        a == b,
{
    lemma_decode_code(a);
    lemma_decode_code(b);
}

/// The language whose canonical code is `c`, if there is one.
pub open spec fn language_of_code(c: Seq<char>) -> Option<Language> {
    if exists|l: Language| l.code() == c {
        Some(choose|l: Language| l.code() == c)
    } else {
        None
    }
}

/// What parsing `s` yields: the language whose code is the upper-case form of `s`.
pub open spec fn parse_spec(s: Seq<char>) -> Option<Language> {
    language_of_code(upper_of(s))
}

/// The upper-case form of a string, as `str::to_uppercase` computes it.
pub uninterp spec fn upper_of(s: Seq<char>) -> Seq<char>;

/// Relies on `str::to_uppercase`: the result depends on the characters of `s` alone.
#[verifier::external_body]
fn uppercase(s: &str) -> (r: String)
    ensures
        r@ == upper_of(s@),
{
    s.to_uppercase()
}

/// Error attempting to parse a [`Language`] from a string.
#[derive(Clone, Debug)]
pub struct ParseLanguageError(pub String);

impl ParseLanguageError {
    /// A description of the failure, naming the rejected input.
    pub fn message(&self) -> (r: String)
        ensures
            r@ == "invalid language: "@ + self.0@,
    {
        String::from_str("invalid language: ").concat(self.0.as_str())
    }
}

impl Language {
    /// The language whose canonical code is exactly `code` (no case folding).
    pub fn from_code(code: &str) -> (r: Option<Language>)
        ensures
            r == language_of_code(code@),
    {
        let all = Language::all();
        let mut i: usize = 0;
        while i < all.len()
            invariant
                forall|m: Language| #[trigger] all@.contains(m),
                i <= all@.len(),
                forall|k: int| 0 <= k < i ==> (#[trigger] all@[k]).code() != code@,
            decreases all@.len() - i,
        {
            let l = all[i];
            if str_eq(l.as_str(), code) {
                proof {
                    assert forall|m: Language| #[trigger] m.code() == code@ implies m == l by {
                        lemma_code_injective(m, l);
                    }
                }
                return Some(l);
            }
            i = i + 1;
        }
        proof {
            assert forall|m: Language| #[trigger] m.code() != code@ by {
                assert(all@.contains(m));
            }
        }
        None
    }

    /// Parses a language code, ignoring case: "en-us", "EN-us" and "EN-US" all give
    /// [`Language::EnUs`].
    pub fn parse(s: &str) -> (r: Result<Language, ParseLanguageError>)
        ensures
            match parse_spec(s@) {
                Some(l) => r == Ok::<Language, ParseLanguageError>(l),
                None => r matches Err(e) && e.0@ == s@,
            },
    {
        let upper = uppercase(s);
        match Language::from_code(upper.as_str()) {
            Some(l) => Ok(l),
            None => Err(ParseLanguageError(String::from_str(s))),
        }
    }
}

impl core::str::FromStr for Language {
    type Err = ParseLanguageError;

    fn from_str(s: &str) -> Result<Language, ParseLanguageError> {
        Language::parse(s)
    }
}

/// Parsing then formatting a supported code gives its normalized (upper-case) form.
pub proof fn lemma_format_parse(s: Seq<char>)
    requires
        parse_spec(s) is Some,
    ensures
        parse_spec(s)->0.code() == upper_of(s),
{
}

/// Formatting then reading back a canonical code gives the same language.
pub proof fn lemma_code_round_trip(l: Language)
    ensures
        language_of_code(l.code()) == Some(l),
{
    assert forall|m: Language| #[trigger] m.code() == l.code() implies m == l by {
        lemma_code_injective(m, l);
    }
}

} // verus!
