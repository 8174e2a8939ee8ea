//! Market (ISO 3166-1 alpha-2), language (ISO 639-1) and Microsoft Store
//! BCP-47 language-tag tables, with their canonical codes and English names.

use vstd::prelude::*;

use crate::text::{ascii_lower, ascii_upper, chars_eq, chars_of, lower_chars, upper_chars};

verus! {

/// A Microsoft Store market: an ISO 3166-1 alpha-2 country or region.
#[derive(Debug, Clone, Copy, PartialEq, Eq, Hash, Structural)]
pub enum Market {
    Ad,
    Ae,
    Af,
    Ag,
    Ai,
    Al,
    Am,
    Ao,
    Aq,
    Ar,
    As,
    At,
    Au,
    Aw,
    Ax,
    Az,
    Ba,
    Bb,
    Bd,
    Be,
    Bf,
    Bg,
    Bh,
    Bi,
    Bj,
    Bl,
    Bm,
    Bn,
    Bo,
    Bq,
    Br,
    Bs,
    Bt,
    Bv,
    Bw,
    By,
    Bz,
    Ca,
    Cc,
    Cd,
    Cf,
    Cg,
    Ch,
    Ci,
    Ck,
    Cl,
    Cm,
    Cn,
    Co,
    Cr,
    Cu,
    Cv,
    Cw,
    Cx,
    Cy,
    Cz,
    De,
    Dj,
    Dk,
    Dm,
    Do,
    Dz,
    Ec,
    Ee,
    Eg,
    Eh,
    Er,
    Es,
    Et,
    Fi,
    Fj,
    Fk,
    Fm,
    Fo,
    Fr,
    Ga,
    Gb,
    Gd,
    Ge,
    Gf,
    Gg,
    Gh,
    Gi,
    Gl,
    Gm,
    Gn,
    Gp,
    Gq,
    Gr,
    Gs,
    Gt,
    Gu,
    Gw,
    Gy,
    Hk,
    Hm,
    Hn,
    Hr,
    Ht,
    Hu,
    Id,
    Ie,
    Il,
    Im,
    In,
    Io,
    Iq,
    Ir,
    Is,
    It,
    Je,
    Jm,
    Jo,
    Jp,
    Ke,
    Kg,
    Kh,
    Ki,
    Km,
    Kn,
    Kp,
    Kr,
    Kw,
    Ky,
    Kz,
    La,
    Lb,
    Lc,
    Li,
    Lk,
    Lr,
    Ls,
    Lt,
    Lu,
    Lv,
    Ly,
    Ma,
    Mc,
    Md,
    Me,
    Mf,
    Mg,
    Mh,
    Mk,
    Ml,
    Mm,
    Mn,
    Mo,
    Mp,
    Mq,
    Mr,
    Ms,
    Mt,
    Mu,
    Mv,
    Mw,
    Mx,
    My,
    Mz,
    Na,
    Nc,
    Ne,
    Nf,
    Ng,
    Ni,
    Nl,
    No,
    Np,
    Nr,
    Nu,
    Nz,
    Om,
    Pa,
    Pe,
    Pf,
    Pg,
    Ph,
    Pk,
    Pl,
    Pm,
    Pn,
    Pr,
    Ps,
    Pt,
    Pw,
    Py,
    Qa,
    Re,
    Ro,
    Rs,
    Ru,
    Rw,
    Sa,
    Sb,
    Sc,
    Sd,
    Se,
    Sg,
    Sh,
    Si,
    Sj,
    Sk,
    Sl,
    Sm,
    Sn,
    So,
    Sr,
    Ss,
    St,
    Sv,
    Sx,
    Sy,
    Sz,
    Tc,
    Td,
    Tf,
    Tg,
    Th,
    Tj,
    Tk,
    Tl,
    Tm,
    Tn,
    To,
    Tr,
    Tt,
    Tv,
    Tw,
    Tz,
    Ua,
    Ug,
    Um,
    Us,
    Uy,
    Uz,
    Va,
    Vc,
    Ve,
    Vg,
    Vi,
    Vn,
    Vu,
    Wf,
    Ws,
    Ye,
    Yt,
    Za,
    Zm,
    Zw,
}

/// Number of Market values.
pub const MARKET_COUNT: usize = 249;

/// The canonical code of a Market value.
pub open spec fn market_code(x: Market) -> Seq<char> {
    match x {
        Market::Ad => "AD"@,
        Market::Ae => "AE"@,
        Market::Af => "AF"@,
        Market::Ag => "AG"@,
        Market::Ai => "AI"@,
        Market::Al => "AL"@,
        Market::Am => "AM"@,
        Market::Ao => "AO"@,
        Market::Aq => "AQ"@,
        Market::Ar => "AR"@,
        Market::As => "AS"@,
        Market::At => "AT"@,
        Market::Au => "AU"@,
        Market::Aw => "AW"@,
        Market::Ax => "AX"@,
        Market::Az => "AZ"@,
        Market::Ba => "BA"@,
        Market::Bb => "BB"@,
        Market::Bd => "BD"@,
        Market::Be => "BE"@,
        Market::Bf => "BF"@,
        Market::Bg => "BG"@,
        Market::Bh => "BH"@,
        Market::Bi => "BI"@,
        Market::Bj => "BJ"@,
        Market::Bl => "BL"@,
        Market::Bm => "BM"@,
        Market::Bn => "BN"@,
        Market::Bo => "BO"@,
        Market::Bq => "BQ"@,
        Market::Br => "BR"@,
        Market::Bs => "BS"@,
        Market::Bt => "BT"@,
        Market::Bv => "BV"@,
        Market::Bw => "BW"@,
        Market::By => "BY"@,
        Market::Bz => "BZ"@,
        Market::Ca => "CA"@,
        Market::Cc => "CC"@,
        Market::Cd => "CD"@,
        Market::Cf => "CF"@,
        Market::Cg => "CG"@,
        Market::Ch => "CH"@,
        Market::Ci => "CI"@,
        Market::Ck => "CK"@,
        Market::Cl => "CL"@,
        Market::Cm => "CM"@,
        Market::Cn => "CN"@,
        Market::Co => "CO"@,
        Market::Cr => "CR"@,
        Market::Cu => "CU"@,
        Market::Cv => "CV"@,
        Market::Cw => "CW"@,
        Market::Cx => "CX"@,
        Market::Cy => "CY"@,
        Market::Cz => "CZ"@,
        Market::De => "DE"@,
        Market::Dj => "DJ"@,
        Market::Dk => "DK"@,
        Market::Dm => "DM"@,
        Market::Do => "DO"@,
        Market::Dz => "DZ"@,
        Market::Ec => "EC"@,
        Market::Ee => "EE"@,
        Market::Eg => "EG"@,
        Market::Eh => "EH"@,
        Market::Er => "ER"@,
        Market::Es => "ES"@,
        Market::Et => "ET"@,
        Market::Fi => "FI"@,
        Market::Fj => "FJ"@,
        Market::Fk => "FK"@,
        Market::Fm => "FM"@,
        Market::Fo => "FO"@,
        Market::Fr => "FR"@,
        Market::Ga => "GA"@,
        Market::Gb => "GB"@,
        Market::Gd => "GD"@,
        Market::Ge => "GE"@,
        Market::Gf => "GF"@,
        Market::Gg => "GG"@,
        Market::Gh => "GH"@,
        Market::Gi => "GI"@,
        Market::Gl => "GL"@,
        Market::Gm => "GM"@,
        Market::Gn => "GN"@,
        Market::Gp => "GP"@,
        Market::Gq => "GQ"@,
        Market::Gr => "GR"@,
        Market::Gs => "GS"@,
        Market::Gt => "GT"@,
        Market::Gu => "GU"@,
        Market::Gw => "GW"@,
        Market::Gy => "GY"@,
        Market::Hk => "HK"@,
        Market::Hm => "HM"@,
        Market::Hn => "HN"@,
        Market::Hr => "HR"@,
        Market::Ht => "HT"@,
        Market::Hu => "HU"@,
        Market::Id => "ID"@,
        Market::Ie => "IE"@,
        Market::Il => "IL"@,
        Market::Im => "IM"@,
        Market::In => "IN"@,
        Market::Io => "IO"@,
        Market::Iq => "IQ"@,
        Market::Ir => "IR"@,
        Market::Is => "IS"@,
        Market::It => "IT"@,
        Market::Je => "JE"@,
        Market::Jm => "JM"@,
        Market::Jo => "JO"@,
        Market::Jp => "JP"@,
        Market::Ke => "KE"@,
        Market::Kg => "KG"@,
        Market::Kh => "KH"@,
        Market::Ki => "KI"@,
        Market::Km => "KM"@,
        Market::Kn => "KN"@,
        Market::Kp => "KP"@,
        Market::Kr => "KR"@,
        Market::Kw => "KW"@,
        Market::Ky => "KY"@,
        Market::Kz => "KZ"@,
        Market::La => "LA"@,
        Market::Lb => "LB"@,
        Market::Lc => "LC"@,
        Market::Li => "LI"@,
        Market::Lk => "LK"@,
        Market::Lr => "LR"@,
        Market::Ls => "LS"@,
        Market::Lt => "LT"@,
        Market::Lu => "LU"@,
        Market::Lv => "LV"@,
        Market::Ly => "LY"@,
        Market::Ma => "MA"@,
        Market::Mc => "MC"@,
        Market::Md => "MD"@,
        Market::Me => "ME"@,
        Market::Mf => "MF"@,
        Market::Mg => "MG"@,
        Market::Mh => "MH"@,
        Market::Mk => "MK"@,
        Market::Ml => "ML"@,
        Market::Mm => "MM"@,
        Market::Mn => "MN"@,
        Market::Mo => "MO"@,
        Market::Mp => "MP"@,
        Market::Mq => "MQ"@,
        Market::Mr => "MR"@,
        Market::Ms => "MS"@,
        Market::Mt => "MT"@,
        Market::Mu => "MU"@,
        Market::Mv => "MV"@,
        Market::Mw => "MW"@,
        Market::Mx => "MX"@,
        Market::My => "MY"@,
        Market::Mz => "MZ"@,
        Market::Na => "NA"@,
        Market::Nc => "NC"@,
        Market::Ne => "NE"@,
        Market::Nf => "NF"@,
        Market::Ng => "NG"@,
        Market::Ni => "NI"@,
        Market::Nl => "NL"@,
        Market::No => "NO"@,
        Market::Np => "NP"@,
        Market::Nr => "NR"@,
        Market::Nu => "NU"@,
        Market::Nz => "NZ"@,
        Market::Om => "OM"@,
        Market::Pa => "PA"@,
        Market::Pe => "PE"@,
        Market::Pf => "PF"@,
        Market::Pg => "PG"@,
        Market::Ph => "PH"@,
        Market::Pk => "PK"@,
        Market::Pl => "PL"@,
        Market::Pm => "PM"@,
        Market::Pn => "PN"@,
        Market::Pr => "PR"@,
        Market::Ps => "PS"@,
        Market::Pt => "PT"@,
        Market::Pw => "PW"@,
        Market::Py => "PY"@,
        Market::Qa => "QA"@,
        Market::Re => "RE"@,
        Market::Ro => "RO"@,
        Market::Rs => "RS"@,
        Market::Ru => "RU"@,
        Market::Rw => "RW"@,
        Market::Sa => "SA"@,
        Market::Sb => "SB"@,
        Market::Sc => "SC"@,
        Market::Sd => "SD"@,
        Market::Se => "SE"@,
        Market::Sg => "SG"@,
        Market::Sh => "SH"@,
        Market::Si => "SI"@,
        Market::Sj => "SJ"@,
        Market::Sk => "SK"@,
        Market::Sl => "SL"@,
        Market::Sm => "SM"@,
        Market::Sn => "SN"@,
        Market::So => "SO"@,
        Market::Sr => "SR"@,
        Market::Ss => "SS"@,
        Market::St => "ST"@,
        Market::Sv => "SV"@,
        Market::Sx => "SX"@,
        Market::Sy => "SY"@,
        Market::Sz => "SZ"@,
        Market::Tc => "TC"@,
        Market::Td => "TD"@,
        Market::Tf => "TF"@,
        Market::Tg => "TG"@,
        Market::Th => "TH"@,
        Market::Tj => "TJ"@,
        Market::Tk => "TK"@,
        Market::Tl => "TL"@,
        Market::Tm => "TM"@,
        Market::Tn => "TN"@,
        Market::To => "TO"@,
        Market::Tr => "TR"@,
        Market::Tt => "TT"@,
        Market::Tv => "TV"@,
        Market::Tw => "TW"@,
        Market::Tz => "TZ"@,
        Market::Ua => "UA"@,
        Market::Ug => "UG"@,
        Market::Um => "UM"@,
        Market::Us => "US"@,
        Market::Uy => "UY"@,
        Market::Uz => "UZ"@,
        Market::Va => "VA"@,
        Market::Vc => "VC"@,
        Market::Ve => "VE"@,
        Market::Vg => "VG"@,
        Market::Vi => "VI"@,
        Market::Vn => "VN"@,
        Market::Vu => "VU"@,
        Market::Wf => "WF"@,
        Market::Ws => "WS"@,
        Market::Ye => "YE"@,
        Market::Yt => "YT"@,
        Market::Za => "ZA"@,
        Market::Zm => "ZM"@,
        Market::Zw => "ZW"@,
    }
}

/// The English name of a Market value.
pub open spec fn market_name(x: Market) -> Seq<char> {
    match x {
        Market::Ad => "Andorra"@,
        Market::Ae => "United Arab Emirates"@,
        Market::Af => "Afghanistan"@,
        Market::Ag => "Antigua and Barbuda"@,
        Market::Ai => "Anguilla"@,
        Market::Al => "Albania"@,
        Market::Am => "Armenia"@,
        Market::Ao => "Angola"@,
        Market::Aq => "Antarctica"@,
        Market::Ar => "Argentina"@,
        Market::As => "American Samoa"@,
        Market::At => "Austria"@,
        Market::Au => "Australia"@,
        Market::Aw => "Aruba"@,
        Market::Ax => "Åland Islands"@,
        Market::Az => "Azerbaijan"@,
        Market::Ba => "Bosnia and Herzegovina"@,
        Market::Bb => "Barbados"@,
        Market::Bd => "Bangladesh"@,
        Market::Be => "Belgium"@,
        Market::Bf => "Burkina Faso"@,
        Market::Bg => "Bulgaria"@,
        Market::Bh => "Bahrain"@,
        Market::Bi => "Burundi"@,
        Market::Bj => "Benin"@,
        Market::Bl => "Saint Barthélemy"@,
        Market::Bm => "Bermuda"@,
        Market::Bn => "Brunei Darussalam"@,
        Market::Bo => "Bolivia"@,
        Market::Bq => "Bonaire, Sint Eustatius and Saba"@,
        Market::Br => "Brazil"@,
        Market::Bs => "Bahamas"@,
        Market::Bt => "Bhutan"@,
        Market::Bv => "Bouvet Island"@,
        Market::Bw => "Botswana"@,
        Market::By => "Belarus"@,
        Market::Bz => "Belize"@,
        Market::Ca => "Canada"@,
        Market::Cc => "Cocos (Keeling) Islands"@,
        Market::Cd => "Congo, The Democratic Republic of the"@,
        Market::Cf => "Central African Republic"@,
        Market::Cg => "Congo"@,
        Market::Ch => "Switzerland"@,
        Market::Ci => "Côte d'Ivoire"@,
        Market::Ck => "Cook Islands"@,
        Market::Cl => "Chile"@,
        Market::Cm => "Cameroon"@,
        Market::Cn => "China"@,
        Market::Co => "Colombia"@,
        Market::Cr => "Costa Rica"@,
        Market::Cu => "Cuba"@,
        Market::Cv => "Cabo Verde"@,
        Market::Cw => "Curaçao"@,
        Market::Cx => "Christmas Island"@,
        Market::Cy => "Cyprus"@,
        Market::Cz => "Czechia"@,
        Market::De => "Germany"@,
        Market::Dj => "Djibouti"@,
        Market::Dk => "Denmark"@,
        Market::Dm => "Dominica"@,
        Market::Do => "Dominican Republic"@,
        Market::Dz => "Algeria"@,
        Market::Ec => "Ecuador"@,
        Market::Ee => "Estonia"@,
        Market::Eg => "Egypt"@,
        Market::Eh => "Western Sahara"@,
        Market::Er => "Eritrea"@,
        Market::Es => "Spain"@,
        Market::Et => "Ethiopia"@,
        Market::Fi => "Finland"@,
        Market::Fj => "Fiji"@,
        Market::Fk => "Falkland Islands (Malvinas)"@,
        Market::Fm => "Micronesia, Federated States of"@,
        Market::Fo => "Faroe Islands"@,
        Market::Fr => "France"@,
        Market::Ga => "Gabon"@,
        Market::Gb => "United Kingdom"@,
        Market::Gd => "Grenada"@,
        Market::Ge => "Georgia"@,
        Market::Gf => "French Guiana"@,
        Market::Gg => "Guernsey"@,
        Market::Gh => "Ghana"@,
        Market::Gi => "Gibraltar"@,
        Market::Gl => "Greenland"@,
        Market::Gm => "Gambia"@,
        Market::Gn => "Guinea"@,
        Market::Gp => "Guadeloupe"@,
        Market::Gq => "Equatorial Guinea"@,
        Market::Gr => "Greece"@,
        Market::Gs => "South Georgia and the South Sandwich Islands"@,
        Market::Gt => "Guatemala"@,
        Market::Gu => "Guam"@,
        Market::Gw => "Guinea-Bissau"@,
        Market::Gy => "Guyana"@,
        Market::Hk => "Hong Kong"@,
        Market::Hm => "Heard Island and McDonald Islands"@,
        Market::Hn => "Honduras"@,
        Market::Hr => "Croatia"@,
        Market::Ht => "Haiti"@,
        Market::Hu => "Hungary"@,
        Market::Id => "Indonesia"@,
        Market::Ie => "Ireland"@,
        Market::Il => "Israel"@,
        Market::Im => "Isle of Man"@,
        Market::In => "India"@,
        Market::Io => "British Indian Ocean Territory"@,
        Market::Iq => "Iraq"@,
        Market::Ir => "Iran"@,
        Market::Is => "Iceland"@,
        Market::It => "Italy"@,
        Market::Je => "Jersey"@,
        Market::Jm => "Jamaica"@,
        Market::Jo => "Jordan"@,
        Market::Jp => "Japan"@,
        Market::Ke => "Kenya"@,
        Market::Kg => "Kyrgyzstan"@,
        Market::Kh => "Cambodia"@,
        Market::Ki => "Kiribati"@,
        Market::Km => "Comoros"@,
        Market::Kn => "Saint Kitts and Nevis"@,
        Market::Kp => "North Korea"@,
        Market::Kr => "South Korea"@,
        Market::Kw => "Kuwait"@,
        Market::Ky => "Cayman Islands"@,
        Market::Kz => "Kazakhstan"@,
        Market::La => "Laos"@,
        Market::Lb => "Lebanon"@,
        Market::Lc => "Saint Lucia"@,
        Market::Li => "Liechtenstein"@,
        Market::Lk => "Sri Lanka"@,
        Market::Lr => "Liberia"@,
        Market::Ls => "Lesotho"@,
        Market::Lt => "Lithuania"@,
        Market::Lu => "Luxembourg"@,
        Market::Lv => "Latvia"@,
        Market::Ly => "Libya"@,
        Market::Ma => "Morocco"@,
        Market::Mc => "Monaco"@,
        Market::Md => "Moldova"@,
        Market::Me => "Montenegro"@,
        Market::Mf => "Saint Martin (French part)"@,
        Market::Mg => "Madagascar"@,
        Market::Mh => "Marshall Islands"@,
        Market::Mk => "North Macedonia"@,
        Market::Ml => "Mali"@,
        Market::Mm => "Myanmar"@,
        Market::Mn => "Mongolia"@,
        Market::Mo => "Macao"@,
        Market::Mp => "Northern Mariana Islands"@,
        Market::Mq => "Martinique"@,
        Market::Mr => "Mauritania"@,
        Market::Ms => "Montserrat"@,
        Market::Mt => "Malta"@,
        Market::Mu => "Mauritius"@,
        Market::Mv => "Maldives"@,
        Market::Mw => "Malawi"@,
        Market::Mx => "Mexico"@,
        Market::My => "Malaysia"@,
        Market::Mz => "Mozambique"@,
        Market::Na => "Namibia"@,
        Market::Nc => "New Caledonia"@,
        Market::Ne => "Niger"@,
        Market::Nf => "Norfolk Island"@,
        Market::Ng => "Nigeria"@,
        Market::Ni => "Nicaragua"@,
        Market::Nl => "Netherlands"@,
        Market::No => "Norway"@,
        Market::Np => "Nepal"@,
        Market::Nr => "Nauru"@,
        Market::Nu => "Niue"@,
        Market::Nz => "New Zealand"@,
        Market::Om => "Oman"@,
        Market::Pa => "Panama"@,
        Market::Pe => "Peru"@,
        Market::Pf => "French Polynesia"@,
        Market::Pg => "Papua New Guinea"@,
        Market::Ph => "Philippines"@,
        Market::Pk => "Pakistan"@,
        Market::Pl => "Poland"@,
        Market::Pm => "Saint Pierre and Miquelon"@,
        Market::Pn => "Pitcairn"@,
        Market::Pr => "Puerto Rico"@,
        Market::Ps => "Palestine, State of"@,
        Market::Pt => "Portugal"@,
        Market::Pw => "Palau"@,
        Market::Py => "Paraguay"@,
        Market::Qa => "Qatar"@,
        Market::Re => "Réunion"@,
        Market::Ro => "Romania"@,
        Market::Rs => "Serbia"@,
        Market::Ru => "Russian Federation"@,
        Market::Rw => "Rwanda"@,
        Market::Sa => "Saudi Arabia"@,
        Market::Sb => "Solomon Islands"@,
        Market::Sc => "Seychelles"@,
        Market::Sd => "Sudan"@,
        Market::Se => "Sweden"@,
        Market::Sg => "Singapore"@,
        Market::Sh => "Saint Helena, Ascension and Tristan da Cunha"@,
        Market::Si => "Slovenia"@,
        Market::Sj => "Svalbard and Jan Mayen"@,
        Market::Sk => "Slovakia"@,
        Market::Sl => "Sierra Leone"@,
        Market::Sm => "San Marino"@,
        Market::Sn => "Senegal"@,
        Market::So => "Somalia"@,
        Market::Sr => "Suriname"@,
        Market::Ss => "South Sudan"@,
        Market::St => "Sao Tome and Principe"@,
        Market::Sv => "El Salvador"@,
        Market::Sx => "Sint Maarten (Dutch part)"@,
        Market::Sy => "Syria"@,
        Market::Sz => "Eswatini"@,
        Market::Tc => "Turks and Caicos Islands"@,
        Market::Td => "Chad"@,
        Market::Tf => "French Southern Territories"@,
        Market::Tg => "Togo"@,
        Market::Th => "Thailand"@,
        Market::Tj => "Tajikistan"@,
        Market::Tk => "Tokelau"@,
        Market::Tl => "Timor-Leste"@,
        Market::Tm => "Turkmenistan"@,
        Market::Tn => "Tunisia"@,
        Market::To => "Tonga"@,
        Market::Tr => "Türkiye"@,
        Market::Tt => "Trinidad and Tobago"@,
        Market::Tv => "Tuvalu"@,
        Market::Tw => "Taiwan"@,
        Market::Tz => "Tanzania"@,
        Market::Ua => "Ukraine"@,
        Market::Ug => "Uganda"@,
        Market::Um => "United States Minor Outlying Islands"@,
        Market::Us => "United States"@,
        Market::Uy => "Uruguay"@,
        Market::Uz => "Uzbekistan"@,
        Market::Va => "Holy See (Vatican City State)"@,
        Market::Vc => "Saint Vincent and the Grenadines"@,
        Market::Ve => "Venezuela"@,
        Market::Vg => "Virgin Islands, British"@,
        Market::Vi => "Virgin Islands, U.S."@,
        Market::Vn => "Vietnam"@,
        Market::Vu => "Vanuatu"@,
        Market::Wf => "Wallis and Futuna"@,
        Market::Ws => "Samoa"@,
        Market::Ye => "Yemen"@,
        Market::Yt => "Mayotte"@,
        Market::Za => "South Africa"@,
        Market::Zm => "Zambia"@,
        Market::Zw => "Zimbabwe"@,
    }
}

/// The position of a Market value in the table order.
pub open spec fn market_index(x: Market) -> int {
    match x {
        Market::Ad => 0,
        Market::Ae => 1,
        Market::Af => 2,
        Market::Ag => 3,
        Market::Ai => 4,
        Market::Al => 5,
        Market::Am => 6,
        Market::Ao => 7,
        Market::Aq => 8,
        Market::Ar => 9,
        Market::As => 10,
        Market::At => 11,
        Market::Au => 12,
        Market::Aw => 13,
        Market::Ax => 14,
        Market::Az => 15,
        Market::Ba => 16,
        Market::Bb => 17,
        Market::Bd => 18,
        Market::Be => 19,
        Market::Bf => 20,
        Market::Bg => 21,
        Market::Bh => 22,
        Market::Bi => 23,
        Market::Bj => 24,
        Market::Bl => 25,
        Market::Bm => 26,
        Market::Bn => 27,
        Market::Bo => 28,
        Market::Bq => 29,
        Market::Br => 30,
        Market::Bs => 31,
        Market::Bt => 32,
        Market::Bv => 33,
        Market::Bw => 34,
        Market::By => 35,
        Market::Bz => 36,
        Market::Ca => 37,
        Market::Cc => 38,
        Market::Cd => 39,
        Market::Cf => 40,
        Market::Cg => 41,
        Market::Ch => 42,
        Market::Ci => 43,
        Market::Ck => 44,
        Market::Cl => 45,
        Market::Cm => 46,
        Market::Cn => 47,
        Market::Co => 48,
        Market::Cr => 49,
        Market::Cu => 50,
        Market::Cv => 51,
        Market::Cw => 52,
        Market::Cx => 53,
        Market::Cy => 54,
        Market::Cz => 55,
        Market::De => 56,
        Market::Dj => 57,
        Market::Dk => 58,
        Market::Dm => 59,
        Market::Do => 60,
        Market::Dz => 61,
        Market::Ec => 62,
        Market::Ee => 63,
        Market::Eg => 64,
        Market::Eh => 65,
        Market::Er => 66,
        Market::Es => 67,
        Market::Et => 68,
        Market::Fi => 69,
        Market::Fj => 70,
        Market::Fk => 71,
        Market::Fm => 72,
        Market::Fo => 73,
        Market::Fr => 74,
        Market::Ga => 75,
        Market::Gb => 76,
        Market::Gd => 77,
        Market::Ge => 78,
        Market::Gf => 79,
        Market::Gg => 80,
        Market::Gh => 81,
        Market::Gi => 82,
        Market::Gl => 83,
        Market::Gm => 84,
        Market::Gn => 85,
        Market::Gp => 86,
        Market::Gq => 87,
        Market::Gr => 88,
        Market::Gs => 89,
        Market::Gt => 90,
        Market::Gu => 91,
        Market::Gw => 92,
        Market::Gy => 93,
        Market::Hk => 94,
        Market::Hm => 95,
        Market::Hn => 96,
        Market::Hr => 97,
        Market::Ht => 98,
        Market::Hu => 99,
        Market::Id => 100,
        Market::Ie => 101,
        Market::Il => 102,
        Market::Im => 103,
        Market::In => 104,
        Market::Io => 105,
        Market::Iq => 106,
        Market::Ir => 107,
        Market::Is => 108,
        Market::It => 109,
        Market::Je => 110,
        Market::Jm => 111,
        Market::Jo => 112,
        Market::Jp => 113,
        Market::Ke => 114,
        Market::Kg => 115,
        Market::Kh => 116,
        Market::Ki => 117,
        Market::Km => 118,
        Market::Kn => 119,
        Market::Kp => 120,
        Market::Kr => 121,
        Market::Kw => 122,
        Market::Ky => 123,
        Market::Kz => 124,
        Market::La => 125,
        Market::Lb => 126,
        Market::Lc => 127,
        Market::Li => 128,
        Market::Lk => 129,
        Market::Lr => 130,
        Market::Ls => 131,
        Market::Lt => 132,
        Market::Lu => 133,
        Market::Lv => 134,
        Market::Ly => 135,
        Market::Ma => 136,
        Market::Mc => 137,
        Market::Md => 138,
        Market::Me => 139,
        Market::Mf => 140,
        Market::Mg => 141,
        Market::Mh => 142,
        Market::Mk => 143,
        Market::Ml => 144,
        Market::Mm => 145,
        Market::Mn => 146,
        Market::Mo => 147,
        Market::Mp => 148,
        Market::Mq => 149,
        Market::Mr => 150,
        Market::Ms => 151,
        Market::Mt => 152,
        Market::Mu => 153,
        Market::Mv => 154,
        Market::Mw => 155,
        Market::Mx => 156,
        Market::My => 157,
        Market::Mz => 158,
        Market::Na => 159,
        Market::Nc => 160,
        Market::Ne => 161,
        Market::Nf => 162,
        Market::Ng => 163,
        Market::Ni => 164,
        Market::Nl => 165,
        Market::No => 166,
        Market::Np => 167,
        Market::Nr => 168,
        Market::Nu => 169,
        Market::Nz => 170,
        Market::Om => 171,
        Market::Pa => 172,
        Market::Pe => 173,
        Market::Pf => 174,
        Market::Pg => 175,
        Market::Ph => 176,
        Market::Pk => 177,
        Market::Pl => 178,
        Market::Pm => 179,
        Market::Pn => 180,
        Market::Pr => 181,
        Market::Ps => 182,
        Market::Pt => 183,
        Market::Pw => 184,
        Market::Py => 185,
        Market::Qa => 186,
        Market::Re => 187,
        Market::Ro => 188,
        Market::Rs => 189,
        Market::Ru => 190,
        Market::Rw => 191,
        Market::Sa => 192,
        Market::Sb => 193,
        Market::Sc => 194,
        Market::Sd => 195,
        Market::Se => 196,
        Market::Sg => 197,
        Market::Sh => 198,
        Market::Si => 199,
        Market::Sj => 200,
        Market::Sk => 201,
        Market::Sl => 202,
        Market::Sm => 203,
        Market::Sn => 204,
        Market::So => 205,
        Market::Sr => 206,
        Market::Ss => 207,
        Market::St => 208,
        Market::Sv => 209,
        Market::Sx => 210,
        Market::Sy => 211,
        Market::Sz => 212,
        Market::Tc => 213,
        Market::Td => 214,
        Market::Tf => 215,
        Market::Tg => 216,
        Market::Th => 217,
        Market::Tj => 218,
        Market::Tk => 219,
        Market::Tl => 220,
        Market::Tm => 221,
        Market::Tn => 222,
        Market::To => 223,
        Market::Tr => 224,
        Market::Tt => 225,
        Market::Tv => 226,
        Market::Tw => 227,
        Market::Tz => 228,
        Market::Ua => 229,
        Market::Ug => 230,
        Market::Um => 231,
        Market::Us => 232,
        Market::Uy => 233,
        Market::Uz => 234,
        Market::Va => 235,
        Market::Vc => 236,
        Market::Ve => 237,
        Market::Vg => 238,
        Market::Vi => 239,
        Market::Vn => 240,
        Market::Vu => 241,
        Market::Wf => 242,
        Market::Ws => 243,
        Market::Ye => 244,
        Market::Yt => 245,
        Market::Za => 246,
        Market::Zm => 247,
        Market::Zw => 248,
    }
}

/// The Market value at a position of the table order.
pub open spec fn market_at(i: int) -> Option<Market> {
    if i < 0 || i >= 249 {
        None
    } else {
        if i < 124 {
            if i < 62 {
                if i < 31 {
                    if i < 15 {
                        if i < 7 {
                            if i < 3 {
                                if i < 1 {
                                    Some(Market::Ad)
                                } else {
                                    if i < 2 {
                                        Some(Market::Ae)
                                    } else {
                                        Some(Market::Af)
                                    }
                                }
                            } else {
                                if i < 5 {
                                    if i < 4 {
                                        Some(Market::Ag)
                                    } else {
                                        Some(Market::Ai)
                                    }
                                } else {
                                    if i < 6 {
                                        Some(Market::Al)
                                    } else {
                                        Some(Market::Am)
                                    }
                                }
                            }
                        } else {
                            if i < 11 {
                                if i < 9 {
                                    if i < 8 {
                                        Some(Market::Ao)
                                    } else {
                                        Some(Market::Aq)
                                    }
                                } else {
                                    if i < 10 {
                                        Some(Market::Ar)
                                    } else {
                                        Some(Market::As)
                                    }
                                }
                            } else {
                                if i < 13 {
                                    if i < 12 {
                                        Some(Market::At)
                                    } else {
                                        Some(Market::Au)
                                    }
                                } else {
                                    if i < 14 {
                                        Some(Market::Aw)
                                    } else {
                                        Some(Market::Ax)
                                    }
                                }
                            }
                        }
                    } else {
                        if i < 23 {
                            if i < 19 {
                                if i < 17 {
                                    if i < 16 {
                                        Some(Market::Az)
                                    } else {
                                        Some(Market::Ba)
                                    }
                                } else {
                                    if i < 18 {
                                        Some(Market::Bb)
                                    } else {
                                        Some(Market::Bd)
                                    }
                                }
                            } else {
                                if i < 21 {
                                    if i < 20 {
                                        Some(Market::Be)
                                    } else {
                                        Some(Market::Bf)
                                    }
                                } else {
                                    if i < 22 {
                                        Some(Market::Bg)
                                    } else {
                                        Some(Market::Bh)
                                    }
                                }
                            }
                        } else {
                            if i < 27 {
                                if i < 25 {
                                    if i < 24 {
                                        Some(Market::Bi)
                                    } else {
                                        Some(Market::Bj)
                                    }
                                } else {
                                    if i < 26 {
                                        Some(Market::Bl)
                                    } else {
                                        Some(Market::Bm)
                                    }
                                }
                            } else {
                                if i < 29 {
                                    if i < 28 {
                                        Some(Market::Bn)
                                    } else {
                                        Some(Market::Bo)
                                    }
                                } else {
                                    if i < 30 {
                                        Some(Market::Bq)
                                    } else {
                                        Some(Market::Br)
                                    }
                                }
                            }
                        }
                    }
                } else {
                    if i < 46 {
                        if i < 38 {
                            if i < 34 {
                                if i < 32 {
                                    Some(Market::Bs)
                                } else {
                                    if i < 33 {
                                        Some(Market::Bt)
                                    } else {
                                        Some(Market::Bv)
                                    }
                                }
                            } else {
                                if i < 36 {
                                    if i < 35 {
                                        Some(Market::Bw)
                                    } else {
                                        Some(Market::By)
                                    }
                                } else {
                                    if i < 37 {
                                        Some(Market::Bz)
                                    } else {
                                        Some(Market::Ca)
                                    }
                                }
                            }
                        } else {
                            if i < 42 {
                                if i < 40 {
                                    if i < 39 {
                                        Some(Market::Cc)
                                    } else {
                                        Some(Market::Cd)
                                    }
                                } else {
                                    if i < 41 {
                                        Some(Market::Cf)
                                    } else {
                                        Some(Market::Cg)
                                    }
                                }
                            } else {
                                if i < 44 {
                                    if i < 43 {
                                        Some(Market::Ch)
                                    } else {
                                        Some(Market::Ci)
                                    }
                                } else {
                                    if i < 45 {
                                        Some(Market::Ck)
                                    } else {
                                        Some(Market::Cl)
                                    }
                                }
                            }
                        }
                    } else {
                        if i < 54 {
                            if i < 50 {
                                if i < 48 {
                                    if i < 47 {
                                        Some(Market::Cm)
                                    } else {
                                        Some(Market::Cn)
                                    }
                                } else {
                                    if i < 49 {
                                        Some(Market::Co)
                                    } else {
                                        Some(Market::Cr)
                                    }
                                }
                            } else {
                                if i < 52 {
                                    if i < 51 {
                                        Some(Market::Cu)
                                    } else {
                                        Some(Market::Cv)
                                    }
                                } else {
                                    if i < 53 {
                                        Some(Market::Cw)
                                    } else {
                                        Some(Market::Cx)
                                    }
                                }
                            }
                        } else {
                            if i < 58 {
                                if i < 56 {
                                    if i < 55 {
                                        Some(Market::Cy)
                                    } else {
                                        Some(Market::Cz)
                                    }
                                } else {
                                    if i < 57 {
                                        Some(Market::De)
                                    } else {
                                        Some(Market::Dj)
                                    }
                                }
                            } else {
                                if i < 60 {
                                    if i < 59 {
                                        Some(Market::Dk)
                                    } else {
                                        Some(Market::Dm)
                                    }
                                } else {
                                    if i < 61 {
                                        Some(Market::Do)
                                    } else {
                                        Some(Market::Dz)
                                    }
                                }
                            }
                        }
                    }
                }
            } else {
                if i < 93 {
                    if i < 77 {
                        if i < 69 {
                            if i < 65 {
                                if i < 63 {
                                    Some(Market::Ec)
                                } else {
                                    if i < 64 {
                                        Some(Market::Ee)
                                    } else {
                                        Some(Market::Eg)
                                    }
                                }
                            } else {
                                if i < 67 {
                                    if i < 66 {
                                        Some(Market::Eh)
                                    } else {
                                        Some(Market::Er)
                                    }
                                } else {
                                    if i < 68 {
                                        Some(Market::Es)
                                    } else {
                                        Some(Market::Et)
                                    }
                                }
                            }
                        } else {
                            if i < 73 {
                                if i < 71 {
                                    if i < 70 {
                                        Some(Market::Fi)
                                    } else {
                                        Some(Market::Fj)
                                    }
                                } else {
                                    if i < 72 {
                                        Some(Market::Fk)
                                    } else {
                                        Some(Market::Fm)
                                    }
                                }
                            } else {
                                if i < 75 {
                                    if i < 74 {
                                        Some(Market::Fo)
                                    } else {
                                        Some(Market::Fr)
                                    }
                                } else {
                                    if i < 76 {
                                        Some(Market::Ga)
                                    } else {
                                        Some(Market::Gb)
                                    }
                                }
                            }
                        }
                    } else {
                        if i < 85 {
                            if i < 81 {
                                if i < 79 {
                                    if i < 78 {
                                        Some(Market::Gd)
                                    } else {
                                        Some(Market::Ge)
                                    }
                                } else {
                                    if i < 80 {
                                        Some(Market::Gf)
                                    } else {
                                        Some(Market::Gg)
                                    }
                                }
                            } else {
                                if i < 83 {
                                    if i < 82 {
                                        Some(Market::Gh)
                                    } else {
                                        Some(Market::Gi)
                                    }
                                } else {
                                    if i < 84 {
                                        Some(Market::Gl)
                                    } else {
                                        Some(Market::Gm)
                                    }
                                }
                            }
                        } else {
                            if i < 89 {
                                if i < 87 {
                                    if i < 86 {
                                        Some(Market::Gn)
                                    } else {
                                        Some(Market::Gp)
                                    }
                                } else {
                                    if i < 88 {
                                        Some(Market::Gq)
                                    } else {
                                        Some(Market::Gr)
                                    }
                                }
                            } else {
                                if i < 91 {
                                    if i < 90 {
                                        Some(Market::Gs)
                                    } else {
                                        Some(Market::Gt)
                                    }
                                } else {
                                    if i < 92 {
                                        Some(Market::Gu)
                                    } else {
                                        Some(Market::Gw)
                                    }
                                }
                            }
                        }
                    }
                } else {
                    if i < 108 {
                        if i < 100 {
                            if i < 96 {
                                if i < 94 {
                                    Some(Market::Gy)
                                } else {
                                    if i < 95 {
                                        Some(Market::Hk)
                                    } else {
                                        Some(Market::Hm)
                                    }
                                }
                            } else {
                                if i < 98 {
                                    if i < 97 {
                                        Some(Market::Hn)
                                    } else {
                                        Some(Market::Hr)
                                    }
                                } else {
                                    if i < 99 {
                                        Some(Market::Ht)
                                    } else {
                                        Some(Market::Hu)
                                    }
                                }
                            }
                        } else {
                            if i < 104 {
                                if i < 102 {
                                    if i < 101 {
                                        Some(Market::Id)
                                    } else {
                                        Some(Market::Ie)
                                    }
                                } else {
                                    if i < 103 {
                                        Some(Market::Il)
                                    } else {
                                        Some(Market::Im)
                                    }
                                }
                            } else {
                                if i < 106 {
                                    if i < 105 {
                                        Some(Market::In)
                                    } else {
                                        Some(Market::Io)
                                    }
                                } else {
                                    if i < 107 {
                                        Some(Market::Iq)
                                    } else {
                                        Some(Market::Ir)
                                    }
                                }
                            }
                        }
                    } else {
                        if i < 116 {
                            if i < 112 {
                                if i < 110 {
                                    if i < 109 {
                                        Some(Market::Is)
                                    } else {
                                        Some(Market::It)
                                    }
                                } else {
                                    if i < 111 {
                                        Some(Market::Je)
                                    } else {
                                        Some(Market::Jm)
                                    }
                                }
                            } else {
                                if i < 114 {
                                    if i < 113 {
                                        Some(Market::Jo)
                                    } else {
                                        Some(Market::Jp)
                                    }
                                } else {
                                    if i < 115 {
                                        Some(Market::Ke)
                                    } else {
                                        Some(Market::Kg)
                                    }
                                }
                            }
                        } else {
                            if i < 120 {
                                if i < 118 {
                                    if i < 117 {
                                        Some(Market::Kh)
                                    } else {
                                        Some(Market::Ki)
                                    }
                                } else {
                                    if i < 119 {
                                        Some(Market::Km)
                                    } else {
                                        Some(Market::Kn)
                                    }
                                }
                            } else {
                                if i < 122 {
                                    if i < 121 {
                                        Some(Market::Kp)
                                    } else {
                                        Some(Market::Kr)
                                    }
                                } else {
                                    if i < 123 {
                                        Some(Market::Kw)
                                    } else {
                                        Some(Market::Ky)
                                    }
                                }
                            }
                        }
                    }
                }
            }
        } else {
            if i < 186 {
                if i < 155 {
                    if i < 139 {
                        if i < 131 {
                            if i < 127 {
                                if i < 125 {
                                    Some(Market::Kz)
                                } else {
                                    if i < 126 {
                                        Some(Market::La)
                                    } else {
                                        Some(Market::Lb)
                                    }
                                }
                            } else {
                                if i < 129 {
                                    if i < 128 {
                                        Some(Market::Lc)
                                    } else {
                                        Some(Market::Li)
                                    }
                                } else {
                                    if i < 130 {
                                        Some(Market::Lk)
                                    } else {
                                        Some(Market::Lr)
                                    }
                                }
                            }
                        } else {
                            if i < 135 {
                                if i < 133 {
                                    if i < 132 {
                                        Some(Market::Ls)
                                    } else {
                                        Some(Market::Lt)
                                    }
                                } else {
                                    if i < 134 {
                                        Some(Market::Lu)
                                    } else {
                                        Some(Market::Lv)
                                    }
                                }
                            } else {
                                if i < 137 {
                                    if i < 136 {
                                        Some(Market::Ly)
                                    } else {
                                        Some(Market::Ma)
                                    }
                                } else {
                                    if i < 138 {
                                        Some(Market::Mc)
                                    } else {
                                        Some(Market::Md)
                                    }
                                }
                            }
                        }
                    } else {
                        if i < 147 {
                            if i < 143 {
                                if i < 141 {
                                    if i < 140 {
                                        Some(Market::Me)
                                    } else {
                                        Some(Market::Mf)
                                    }
                                } else {
                                    if i < 142 {
                                        Some(Market::Mg)
                                    } else {
                                        Some(Market::Mh)
                                    }
                                }
                            } else {
                                if i < 145 {
                                    if i < 144 {
                                        Some(Market::Mk)
                                    } else {
                                        Some(Market::Ml)
                                    }
                                } else {
                                    if i < 146 {
                                        Some(Market::Mm)
                                    } else {
                                        Some(Market::Mn)
                                    }
                                }
                            }
                        } else {
                            if i < 151 {
                                if i < 149 {
                                    if i < 148 {
                                        Some(Market::Mo)
                                    } else {
                                        Some(Market::Mp)
                                    }
                                } else {
                                    if i < 150 {
                                        Some(Market::Mq)
                                    } else {
                                        Some(Market::Mr)
                                    }
                                }
                            } else {
                                if i < 153 {
                                    if i < 152 {
                                        Some(Market::Ms)
                                    } else {
                                        Some(Market::Mt)
                                    }
                                } else {
                                    if i < 154 {
                                        Some(Market::Mu)
                                    } else {
                                        Some(Market::Mv)
                                    }
                                }
                            }
                        }
                    }
                } else {
                    if i < 170 {
                        if i < 162 {
                            if i < 158 {
                                if i < 156 {
                                    Some(Market::Mw)
                                } else {
                                    if i < 157 {
                                        Some(Market::Mx)
                                    } else {
                                        Some(Market::My)
                                    }
                                }
                            } else {
                                if i < 160 {
                                    if i < 159 {
                                        Some(Market::Mz)
                                    } else {
                                        Some(Market::Na)
                                    }
                                } else {
                                    if i < 161 {
                                        Some(Market::Nc)
                                    } else {
                                        Some(Market::Ne)
                                    }
                                }
                            }
                        } else {
                            if i < 166 {
                                if i < 164 {
                                    if i < 163 {
                                        Some(Market::Nf)
                                    } else {
                                        Some(Market::Ng)
                                    }
                                } else {
                                    if i < 165 {
                                        Some(Market::Ni)
                                    } else {
                                        Some(Market::Nl)
                                    }
                                }
                            } else {
                                if i < 168 {
                                    if i < 167 {
                                        Some(Market::No)
                                    } else {
                                        Some(Market::Np)
                                    }
                                } else {
                                    if i < 169 {
                                        Some(Market::Nr)
                                    } else {
                                        Some(Market::Nu)
                                    }
                                }
                            }
                        }
                    } else {
                        if i < 178 {
                            if i < 174 {
                                if i < 172 {
                                    if i < 171 {
                                        Some(Market::Nz)
                                    } else {
                                        Some(Market::Om)
                                    }
                                } else {
                                    if i < 173 {
                                        Some(Market::Pa)
                                    } else {
                                        Some(Market::Pe)
                                    }
                                }
                            } else {
                                if i < 176 {
                                    if i < 175 {
                                        Some(Market::Pf)
                                    } else {
                                        Some(Market::Pg)
                                    }
                                } else {
                                    if i < 177 {
                                        Some(Market::Ph)
                                    } else {
                                        Some(Market::Pk)
                                    }
                                }
                            }
                        } else {
                            if i < 182 {
                                if i < 180 {
                                    if i < 179 {
                                        Some(Market::Pl)
                                    } else {
                                        Some(Market::Pm)
                                    }
                                } else {
                                    if i < 181 {
                                        Some(Market::Pn)
                                    } else {
                                        Some(Market::Pr)
                                    }
                                }
                            } else {
                                if i < 184 {
                                    if i < 183 {
                                        Some(Market::Ps)
                                    } else {
                                        Some(Market::Pt)
                                    }
                                } else {
                                    if i < 185 {
                                        Some(Market::Pw)
                                    } else {
                                        Some(Market::Py)
                                    }
                                }
                            }
                        }
                    }
                }
            } else {
                if i < 217 {
                    if i < 201 {
                        if i < 193 {
                            if i < 189 {
                                if i < 187 {
                                    Some(Market::Qa)
                                } else {
                                    if i < 188 {
                                        Some(Market::Re)
                                    } else {
                                        Some(Market::Ro)
                                    }
                                }
                            } else {
                                if i < 191 {
                                    if i < 190 {
                                        Some(Market::Rs)
                                    } else {
                                        Some(Market::Ru)
                                    }
                                } else {
                                    if i < 192 {
                                        Some(Market::Rw)
                                    } else {
                                        Some(Market::Sa)
                                    }
                                }
                            }
                        } else {
                            if i < 197 {
                                if i < 195 {
                                    if i < 194 {
                                        Some(Market::Sb)
                                    } else {
                                        Some(Market::Sc)
                                    }
                                } else {
                                    if i < 196 {
                                        Some(Market::Sd)
                                    } else {
                                        Some(Market::Se)
                                    }
                                }
                            } else {
                                if i < 199 {
                                    if i < 198 {
                                        Some(Market::Sg)
                                    } else {
                                        Some(Market::Sh)
                                    }
                                } else {
                                    if i < 200 {
                                        Some(Market::Si)
                                    } else {
                                        Some(Market::Sj)
                                    }
                                }
                            }
                        }
                    } else {
                        if i < 209 {
                            if i < 205 {
                                if i < 203 {
                                    if i < 202 {
                                        Some(Market::Sk)
                                    } else {
                                        Some(Market::Sl)
                                    }
                                } else {
                                    if i < 204 {
                                        Some(Market::Sm)
                                    } else {
                                        Some(Market::Sn)
                                    }
                                }
                            } else {
                                if i < 207 {
                                    if i < 206 {
                                        Some(Market::So)
                                    } else {
                                        Some(Market::Sr)
                                    }
                                } else {
                                    if i < 208 {
                                        Some(Market::Ss)
                                    } else {
                                        Some(Market::St)
                                    }
                                }
                            }
                        } else {
                            if i < 213 {
                                if i < 211 {
                                    if i < 210 {
                                        Some(Market::Sv)
                                    } else {
                                        Some(Market::Sx)
                                    }
                                } else {
                                    if i < 212 {
                                        Some(Market::Sy)
                                    } else {
                                        Some(Market::Sz)
                                    }
                                }
                            } else {
                                if i < 215 {
                                    if i < 214 {
                                        Some(Market::Tc)
                                    } else {
                                        Some(Market::Td)
                                    }
                                } else {
                                    if i < 216 {
                                        Some(Market::Tf)
                                    } else {
                                        Some(Market::Tg)
                                    }
                                }
                            }
                        }
                    }
                } else {
                    if i < 233 {
                        if i < 225 {
                            if i < 221 {
                                if i < 219 {
                                    if i < 218 {
                                        Some(Market::Th)
                                    } else {
                                        Some(Market::Tj)
                                    }
                                } else {
                                    if i < 220 {
                                        Some(Market::Tk)
                                    } else {
                                        Some(Market::Tl)
                                    }
                                }
                            } else {
                                if i < 223 {
                                    if i < 222 {
                                        Some(Market::Tm)
                                    } else {
                                        Some(Market::Tn)
                                    }
                                } else {
                                    if i < 224 {
                                        Some(Market::To)
                                    } else {
                                        Some(Market::Tr)
                                    }
                                }
                            }
                        } else {
                            if i < 229 {
                                if i < 227 {
                                    if i < 226 {
                                        Some(Market::Tt)
                                    } else {
                                        Some(Market::Tv)
                                    }
                                } else {
                                    if i < 228 {
                                        Some(Market::Tw)
                                    } else {
                                        Some(Market::Tz)
                                    }
                                }
                            } else {
                                if i < 231 {
                                    if i < 230 {
                                        Some(Market::Ua)
                                    } else {
                                        Some(Market::Ug)
                                    }
                                } else {
                                    if i < 232 {
                                        Some(Market::Um)
                                    } else {
                                        Some(Market::Us)
                                    }
                                }
                            }
                        }
                    } else {
                        if i < 241 {
                            if i < 237 {
                                if i < 235 {
                                    if i < 234 {
                                        Some(Market::Uy)
                                    } else {
                                        Some(Market::Uz)
                                    }
                                } else {
                                    if i < 236 {
                                        Some(Market::Va)
                                    } else {
                                        Some(Market::Vc)
                                    }
                                }
                            } else {
                                if i < 239 {
                                    if i < 238 {
                                        Some(Market::Ve)
                                    } else {
                                        Some(Market::Vg)
                                    }
                                } else {
                                    if i < 240 {
                                        Some(Market::Vi)
                                    } else {
                                        Some(Market::Vn)
                                    }
                                }
                            }
                        } else {
                            if i < 245 {
                                if i < 243 {
                                    if i < 242 {
                                        Some(Market::Vu)
                                    } else {
                                        Some(Market::Wf)
                                    }
                                } else {
                                    if i < 244 {
                                        Some(Market::Ws)
                                    } else {
                                        Some(Market::Ye)
                                    }
                                }
                            } else {
                                if i < 247 {
                                    if i < 246 {
                                        Some(Market::Yt)
                                    } else {
                                        Some(Market::Za)
                                    }
                                } else {
                                    if i < 248 {
                                        Some(Market::Zm)
                                    } else {
                                        Some(Market::Zw)
                                    }
                                }
                            }
                        }
                    }
                }
            }
        }
    }
}

/// Every Market value sits at its own position of the table.
pub proof fn lemma_market_index(x: Market)
    ensures
        0 <= market_index(x) < MARKET_COUNT,
        market_at(market_index(x)) == Some(x),
{
}

impl Market {
    /// Canonical code.
    pub fn as_str(&self) -> (r: &'static str)
        ensures
            r@ == market_code(*self),
    {
        match self {
            Market::Ad => "AD",
            Market::Ae => "AE",
            Market::Af => "AF",
            Market::Ag => "AG",
            Market::Ai => "AI",
            Market::Al => "AL",
            Market::Am => "AM",
            Market::Ao => "AO",
            Market::Aq => "AQ",
            Market::Ar => "AR",
            Market::As => "AS",
            Market::At => "AT",
            Market::Au => "AU",
            Market::Aw => "AW",
            Market::Ax => "AX",
            Market::Az => "AZ",
            Market::Ba => "BA",
            Market::Bb => "BB",
            Market::Bd => "BD",
            Market::Be => "BE",
            Market::Bf => "BF",
            Market::Bg => "BG",
            Market::Bh => "BH",
            Market::Bi => "BI",
            Market::Bj => "BJ",
            Market::Bl => "BL",
            Market::Bm => "BM",
            Market::Bn => "BN",
            Market::Bo => "BO",
            Market::Bq => "BQ",
            Market::Br => "BR",
            Market::Bs => "BS",
            Market::Bt => "BT",
            Market::Bv => "BV",
            Market::Bw => "BW",
            Market::By => "BY",
            Market::Bz => "BZ",
            Market::Ca => "CA",
            Market::Cc => "CC",
            Market::Cd => "CD",
            Market::Cf => "CF",
            Market::Cg => "CG",
            Market::Ch => "CH",
            Market::Ci => "CI",
            Market::Ck => "CK",
            Market::Cl => "CL",
            Market::Cm => "CM",
            Market::Cn => "CN",
            Market::Co => "CO",
            Market::Cr => "CR",
            Market::Cu => "CU",
            Market::Cv => "CV",
            Market::Cw => "CW",
            Market::Cx => "CX",
            Market::Cy => "CY",
            Market::Cz => "CZ",
            Market::De => "DE",
            Market::Dj => "DJ",
            Market::Dk => "DK",
            Market::Dm => "DM",
            Market::Do => "DO",
            Market::Dz => "DZ",
            Market::Ec => "EC",
            Market::Ee => "EE",
            Market::Eg => "EG",
            Market::Eh => "EH",
            Market::Er => "ER",
            Market::Es => "ES",
            Market::Et => "ET",
            Market::Fi => "FI",
            Market::Fj => "FJ",
            Market::Fk => "FK",
            Market::Fm => "FM",
            Market::Fo => "FO",
            Market::Fr => "FR",
            Market::Ga => "GA",
            Market::Gb => "GB",
            Market::Gd => "GD",
            Market::Ge => "GE",
            Market::Gf => "GF",
            Market::Gg => "GG",
            Market::Gh => "GH",
            Market::Gi => "GI",
            Market::Gl => "GL",
            Market::Gm => "GM",
            Market::Gn => "GN",
            Market::Gp => "GP",
            Market::Gq => "GQ",
            Market::Gr => "GR",
            Market::Gs => "GS",
            Market::Gt => "GT",
            Market::Gu => "GU",
            Market::Gw => "GW",
            Market::Gy => "GY",
            Market::Hk => "HK",
            Market::Hm => "HM",
            Market::Hn => "HN",
            Market::Hr => "HR",
            Market::Ht => "HT",
            Market::Hu => "HU",
            Market::Id => "ID",
            Market::Ie => "IE",
            Market::Il => "IL",
            Market::Im => "IM",
            Market::In => "IN",
            Market::Io => "IO",
            Market::Iq => "IQ",
            Market::Ir => "IR",
            Market::Is => "IS",
            Market::It => "IT",
            Market::Je => "JE",
            Market::Jm => "JM",
            Market::Jo => "JO",
            Market::Jp => "JP",
            Market::Ke => "KE",
            Market::Kg => "KG",
            Market::Kh => "KH",
            Market::Ki => "KI",
            Market::Km => "KM",
            Market::Kn => "KN",
            Market::Kp => "KP",
            Market::Kr => "KR",
            Market::Kw => "KW",
            Market::Ky => "KY",
            Market::Kz => "KZ",
            Market::La => "LA",
            Market::Lb => "LB",
            Market::Lc => "LC",
            Market::Li => "LI",
            Market::Lk => "LK",
            Market::Lr => "LR",
            Market::Ls => "LS",
            Market::Lt => "LT",
            Market::Lu => "LU",
            Market::Lv => "LV",
            Market::Ly => "LY",
            Market::Ma => "MA",
            Market::Mc => "MC",
            Market::Md => "MD",
            Market::Me => "ME",
            Market::Mf => "MF",
            Market::Mg => "MG",
            Market::Mh => "MH",
            Market::Mk => "MK",
            Market::Ml => "ML",
            Market::Mm => "MM",
            Market::Mn => "MN",
            Market::Mo => "MO",
            Market::Mp => "MP",
            Market::Mq => "MQ",
            Market::Mr => "MR",
            Market::Ms => "MS",
            Market::Mt => "MT",
            Market::Mu => "MU",
            Market::Mv => "MV",
            Market::Mw => "MW",
            Market::Mx => "MX",
            Market::My => "MY",
            Market::Mz => "MZ",
            Market::Na => "NA",
            Market::Nc => "NC",
            Market::Ne => "NE",
            Market::Nf => "NF",
            Market::Ng => "NG",
            Market::Ni => "NI",
            Market::Nl => "NL",
            Market::No => "NO",
            Market::Np => "NP",
            Market::Nr => "NR",
            Market::Nu => "NU",
            Market::Nz => "NZ",
            Market::Om => "OM",
            Market::Pa => "PA",
            Market::Pe => "PE",
            Market::Pf => "PF",
            Market::Pg => "PG",
            Market::Ph => "PH",
            Market::Pk => "PK",
            Market::Pl => "PL",
            Market::Pm => "PM",
            Market::Pn => "PN",
            Market::Pr => "PR",
            Market::Ps => "PS",
            Market::Pt => "PT",
            Market::Pw => "PW",
            Market::Py => "PY",
            Market::Qa => "QA",
            Market::Re => "RE",
            Market::Ro => "RO",
            Market::Rs => "RS",
            Market::Ru => "RU",
            Market::Rw => "RW",
            Market::Sa => "SA",
            Market::Sb => "SB",
            Market::Sc => "SC",
            Market::Sd => "SD",
            Market::Se => "SE",
            Market::Sg => "SG",
            Market::Sh => "SH",
            Market::Si => "SI",
            Market::Sj => "SJ",
            Market::Sk => "SK",
            Market::Sl => "SL",
            Market::Sm => "SM",
            Market::Sn => "SN",
            Market::So => "SO",
            Market::Sr => "SR",
            Market::Ss => "SS",
            Market::St => "ST",
            Market::Sv => "SV",
            Market::Sx => "SX",
            Market::Sy => "SY",
            Market::Sz => "SZ",
            Market::Tc => "TC",
            Market::Td => "TD",
            Market::Tf => "TF",
            Market::Tg => "TG",
            Market::Th => "TH",
            Market::Tj => "TJ",
            Market::Tk => "TK",
            Market::Tl => "TL",
            Market::Tm => "TM",
            Market::Tn => "TN",
            Market::To => "TO",
            Market::Tr => "TR",
            Market::Tt => "TT",
            Market::Tv => "TV",
            Market::Tw => "TW",
            Market::Tz => "TZ",
            Market::Ua => "UA",
            Market::Ug => "UG",
            Market::Um => "UM",
            Market::Us => "US",
            Market::Uy => "UY",
            Market::Uz => "UZ",
            Market::Va => "VA",
            Market::Vc => "VC",
            Market::Ve => "VE",
            Market::Vg => "VG",
            Market::Vi => "VI",
            Market::Vn => "VN",
            Market::Vu => "VU",
            Market::Wf => "WF",
            Market::Ws => "WS",
            Market::Ye => "YE",
            Market::Yt => "YT",
            Market::Za => "ZA",
            Market::Zm => "ZM",
            Market::Zw => "ZW",
        }
    }

    /// English name.
    pub fn english_name(&self) -> (r: &'static str)
        ensures
            r@ == market_name(*self),
    {
        match self {
            Market::Ad => "Andorra",
            Market::Ae => "United Arab Emirates",
            Market::Af => "Afghanistan",
            Market::Ag => "Antigua and Barbuda",
            Market::Ai => "Anguilla",
            Market::Al => "Albania",
            Market::Am => "Armenia",
            Market::Ao => "Angola",
            Market::Aq => "Antarctica",
            Market::Ar => "Argentina",
            Market::As => "American Samoa",
            Market::At => "Austria",
            Market::Au => "Australia",
            Market::Aw => "Aruba",
            Market::Ax => "Åland Islands",
            Market::Az => "Azerbaijan",
            Market::Ba => "Bosnia and Herzegovina",
            Market::Bb => "Barbados",
            Market::Bd => "Bangladesh",
            Market::Be => "Belgium",
            Market::Bf => "Burkina Faso",
            Market::Bg => "Bulgaria",
            Market::Bh => "Bahrain",
            Market::Bi => "Burundi",
            Market::Bj => "Benin",
            Market::Bl => "Saint Barthélemy",
            Market::Bm => "Bermuda",
            Market::Bn => "Brunei Darussalam",
            Market::Bo => "Bolivia",
            Market::Bq => "Bonaire, Sint Eustatius and Saba",
            Market::Br => "Brazil",
            Market::Bs => "Bahamas",
            Market::Bt => "Bhutan",
            Market::Bv => "Bouvet Island",
            Market::Bw => "Botswana",
            Market::By => "Belarus",
            Market::Bz => "Belize",
            Market::Ca => "Canada",
            Market::Cc => "Cocos (Keeling) Islands",
            Market::Cd => "Congo, The Democratic Republic of the",
            Market::Cf => "Central African Republic",
            Market::Cg => "Congo",
            Market::Ch => "Switzerland",
            Market::Ci => "Côte d'Ivoire",
            Market::Ck => "Cook Islands",
            Market::Cl => "Chile",
            Market::Cm => "Cameroon",
            Market::Cn => "China",
            Market::Co => "Colombia",
            Market::Cr => "Costa Rica",
            Market::Cu => "Cuba",
            Market::Cv => "Cabo Verde",
            Market::Cw => "Curaçao",
            Market::Cx => "Christmas Island",
            Market::Cy => "Cyprus",
            Market::Cz => "Czechia",
            Market::De => "Germany",
            Market::Dj => "Djibouti",
            Market::Dk => "Denmark",
            Market::Dm => "Dominica",
            Market::Do => "Dominican Republic",
            Market::Dz => "Algeria",
            Market::Ec => "Ecuador",
            Market::Ee => "Estonia",
            Market::Eg => "Egypt",
            Market::Eh => "Western Sahara",
            Market::Er => "Eritrea",
            Market::Es => "Spain",
            Market::Et => "Ethiopia",
            Market::Fi => "Finland",
            Market::Fj => "Fiji",
            Market::Fk => "Falkland Islands (Malvinas)",
            Market::Fm => "Micronesia, Federated States of",
            Market::Fo => "Faroe Islands",
            Market::Fr => "France",
            Market::Ga => "Gabon",
            Market::Gb => "United Kingdom",
            Market::Gd => "Grenada",
            Market::Ge => "Georgia",
            Market::Gf => "French Guiana",
            Market::Gg => "Guernsey",
            Market::Gh => "Ghana",
            Market::Gi => "Gibraltar",
            Market::Gl => "Greenland",
            Market::Gm => "Gambia",
            Market::Gn => "Guinea",
            Market::Gp => "Guadeloupe",
            Market::Gq => "Equatorial Guinea",
            Market::Gr => "Greece",
            Market::Gs => "South Georgia and the South Sandwich Islands",
            Market::Gt => "Guatemala",
            Market::Gu => "Guam",
            Market::Gw => "Guinea-Bissau",
            Market::Gy => "Guyana",
            Market::Hk => "Hong Kong",
            Market::Hm => "Heard Island and McDonald Islands",
            Market::Hn => "Honduras",
            Market::Hr => "Croatia",
            Market::Ht => "Haiti",
            Market::Hu => "Hungary",
            Market::Id => "Indonesia",
            Market::Ie => "Ireland",
            Market::Il => "Israel",
            Market::Im => "Isle of Man",
            Market::In => "India",
            Market::Io => "British Indian Ocean Territory",
            Market::Iq => "Iraq",
            Market::Ir => "Iran",
            Market::Is => "Iceland",
            Market::It => "Italy",
            Market::Je => "Jersey",
            Market::Jm => "Jamaica",
            Market::Jo => "Jordan",
            Market::Jp => "Japan",
            Market::Ke => "Kenya",
            Market::Kg => "Kyrgyzstan",
            Market::Kh => "Cambodia",
            Market::Ki => "Kiribati",
            Market::Km => "Comoros",
            Market::Kn => "Saint Kitts and Nevis",
            Market::Kp => "North Korea",
            Market::Kr => "South Korea",
            Market::Kw => "Kuwait",
            Market::Ky => "Cayman Islands",
            Market::Kz => "Kazakhstan",
            Market::La => "Laos",
            Market::Lb => "Lebanon",
            Market::Lc => "Saint Lucia",
            Market::Li => "Liechtenstein",
            Market::Lk => "Sri Lanka",
            Market::Lr => "Liberia",
            Market::Ls => "Lesotho",
            Market::Lt => "Lithuania",
            Market::Lu => "Luxembourg",
            Market::Lv => "Latvia",
            Market::Ly => "Libya",
            Market::Ma => "Morocco",
            Market::Mc => "Monaco",
            Market::Md => "Moldova",
            Market::Me => "Montenegro",
            Market::Mf => "Saint Martin (French part)",
            Market::Mg => "Madagascar",
            Market::Mh => "Marshall Islands",
            Market::Mk => "North Macedonia",
            Market::Ml => "Mali",
            Market::Mm => "Myanmar",
            Market::Mn => "Mongolia",
            Market::Mo => "Macao",
            Market::Mp => "Northern Mariana Islands",
            Market::Mq => "Martinique",
            Market::Mr => "Mauritania",
            Market::Ms => "Montserrat",
            Market::Mt => "Malta",
            Market::Mu => "Mauritius",
            Market::Mv => "Maldives",
            Market::Mw => "Malawi",
            Market::Mx => "Mexico",
            Market::My => "Malaysia",
            Market::Mz => "Mozambique",
            Market::Na => "Namibia",
            Market::Nc => "New Caledonia",
            Market::Ne => "Niger",
            Market::Nf => "Norfolk Island",
            Market::Ng => "Nigeria",
            Market::Ni => "Nicaragua",
            Market::Nl => "Netherlands",
            Market::No => "Norway",
            Market::Np => "Nepal",
            Market::Nr => "Nauru",
            Market::Nu => "Niue",
            Market::Nz => "New Zealand",
            Market::Om => "Oman",
            Market::Pa => "Panama",
            Market::Pe => "Peru",
            Market::Pf => "French Polynesia",
            Market::Pg => "Papua New Guinea",
            Market::Ph => "Philippines",
            Market::Pk => "Pakistan",
            Market::Pl => "Poland",
            Market::Pm => "Saint Pierre and Miquelon",
            Market::Pn => "Pitcairn",
            Market::Pr => "Puerto Rico",
            Market::Ps => "Palestine, State of",
            Market::Pt => "Portugal",
            Market::Pw => "Palau",
            Market::Py => "Paraguay",
            Market::Qa => "Qatar",
            Market::Re => "Réunion",
            Market::Ro => "Romania",
            Market::Rs => "Serbia",
            Market::Ru => "Russian Federation",
            Market::Rw => "Rwanda",
            Market::Sa => "Saudi Arabia",
            Market::Sb => "Solomon Islands",
            Market::Sc => "Seychelles",
            Market::Sd => "Sudan",
            Market::Se => "Sweden",
            Market::Sg => "Singapore",
            Market::Sh => "Saint Helena, Ascension and Tristan da Cunha",
            Market::Si => "Slovenia",
            Market::Sj => "Svalbard and Jan Mayen",
            Market::Sk => "Slovakia",
            Market::Sl => "Sierra Leone",
            Market::Sm => "San Marino",
            Market::Sn => "Senegal",
            Market::So => "Somalia",
            Market::Sr => "Suriname",
            Market::Ss => "South Sudan",
            Market::St => "Sao Tome and Principe",
            Market::Sv => "El Salvador",
            Market::Sx => "Sint Maarten (Dutch part)",
            Market::Sy => "Syria",
            Market::Sz => "Eswatini",
            Market::Tc => "Turks and Caicos Islands",
            Market::Td => "Chad",
            Market::Tf => "French Southern Territories",
            Market::Tg => "Togo",
            Market::Th => "Thailand",
            Market::Tj => "Tajikistan",
            Market::Tk => "Tokelau",
            Market::Tl => "Timor-Leste",
            Market::Tm => "Turkmenistan",
            Market::Tn => "Tunisia",
            Market::To => "Tonga",
            Market::Tr => "Türkiye",
            Market::Tt => "Trinidad and Tobago",
            Market::Tv => "Tuvalu",
            Market::Tw => "Taiwan",
            Market::Tz => "Tanzania",
            Market::Ua => "Ukraine",
            Market::Ug => "Uganda",
            Market::Um => "United States Minor Outlying Islands",
            Market::Us => "United States",
            Market::Uy => "Uruguay",
            Market::Uz => "Uzbekistan",
            Market::Va => "Holy See (Vatican City State)",
            Market::Vc => "Saint Vincent and the Grenadines",
            Market::Ve => "Venezuela",
            Market::Vg => "Virgin Islands, British",
            Market::Vi => "Virgin Islands, U.S.",
            Market::Vn => "Vietnam",
            Market::Vu => "Vanuatu",
            Market::Wf => "Wallis and Futuna",
            Market::Ws => "Samoa",
            Market::Ye => "Yemen",
            Market::Yt => "Mayotte",
            Market::Za => "South Africa",
            Market::Zm => "Zambia",
            Market::Zw => "Zimbabwe",
        }
    }

    /// The value at position `i` of the table order.
    pub fn from_index(i: usize) -> (r: Option<Market>)
        ensures
            r == market_at(i as int),
            i < MARKET_COUNT ==> r is Some,
    {
        if i >= 249 {
            None
        } else {
            if i < 124 {
                if i < 62 {
                    if i < 31 {
                        if i < 15 {
                            if i < 7 {
                                if i < 3 {
                                    if i < 1 {
                                        Some(Market::Ad)
                                    } else {
                                        if i < 2 {
                                            Some(Market::Ae)
                                        } else {
                                            Some(Market::Af)
                                        }
                                    }
                                } else {
                                    if i < 5 {
                                        if i < 4 {
                                            Some(Market::Ag)
                                        } else {
                                            Some(Market::Ai)
                                        }
                                    } else {
                                        if i < 6 {
                                            Some(Market::Al)
                                        } else {
                                            Some(Market::Am)
                                        }
                                    }
                                }
                            } else {
                                if i < 11 {
                                    if i < 9 {
                                        if i < 8 {
                                            Some(Market::Ao)
                                        } else {
                                            Some(Market::Aq)
                                        }
                                    } else {
                                        if i < 10 {
                                            Some(Market::Ar)
                                        } else {
                                            Some(Market::As)
                                        }
                                    }
                                } else {
                                    if i < 13 {
                                        if i < 12 {
                                            Some(Market::At)
                                        } else {
                                            Some(Market::Au)
                                        }
                                    } else {
                                        if i < 14 {
                                            Some(Market::Aw)
                                        } else {
                                            Some(Market::Ax)
                                        }
                                    }
                                }
                            }
                        } else {
                            if i < 23 {
                                if i < 19 {
                                    if i < 17 {
                                        if i < 16 {
                                            Some(Market::Az)
                                        } else {
                                            Some(Market::Ba)
                                        }
                                    } else {
                                        if i < 18 {
                                            Some(Market::Bb)
                                        } else {
                                            Some(Market::Bd)
                                        }
                                    }
                                } else {
                                    if i < 21 {
                                        if i < 20 {
                                            Some(Market::Be)
                                        } else {
                                            Some(Market::Bf)
                                        }
                                    } else {
                                        if i < 22 {
                                            Some(Market::Bg)
                                        } else {
                                            Some(Market::Bh)
                                        }
                                    }
                                }
                            } else {
                                if i < 27 {
                                    if i < 25 {
                                        if i < 24 {
                                            Some(Market::Bi)
                                        } else {
                                            Some(Market::Bj)
                                        }
                                    } else {
                                        if i < 26 {
                                            Some(Market::Bl)
                                        } else {
                                            Some(Market::Bm)
                                        }
                                    }
                                } else {
                                    if i < 29 {
                                        if i < 28 {
                                            Some(Market::Bn)
                                        } else {
                                            Some(Market::Bo)
                                        }
                                    } else {
                                        if i < 30 {
                                            Some(Market::Bq)
                                        } else {
                                            Some(Market::Br)
                                        }
                                    }
                                }
                            }
                        }
                    } else {
                        if i < 46 {
                            if i < 38 {
                                if i < 34 {
                                    if i < 32 {
                                        Some(Market::Bs)
                                    } else {
                                        if i < 33 {
                                            Some(Market::Bt)
                                        } else {
                                            Some(Market::Bv)
                                        }
                                    }
                                } else {
                                    if i < 36 {
                                        if i < 35 {
                                            Some(Market::Bw)
                                        } else {
                                            Some(Market::By)
                                        }
                                    } else {
                                        if i < 37 {
                                            Some(Market::Bz)
                                        } else {
                                            Some(Market::Ca)
                                        }
                                    }
                                }
                            } else {
                                if i < 42 {
                                    if i < 40 {
                                        if i < 39 {
                                            Some(Market::Cc)
                                        } else {
                                            Some(Market::Cd)
                                        }
                                    } else {
                                        if i < 41 {
                                            Some(Market::Cf)
                                        } else {
                                            Some(Market::Cg)
                                        }
                                    }
                                } else {
                                    if i < 44 {
                                        if i < 43 {
                                            Some(Market::Ch)
                                        } else {
                                            Some(Market::Ci)
                                        }
                                    } else {
                                        if i < 45 {
                                            Some(Market::Ck)
                                        } else {
                                            Some(Market::Cl)
                                        }
                                    }
                                }
                            }
                        } else {
                            if i < 54 {
                                if i < 50 {
                                    if i < 48 {
                                        if i < 47 {
                                            Some(Market::Cm)
                                        } else {
                                            Some(Market::Cn)
                                        }
                                    } else {
                                        if i < 49 {
                                            Some(Market::Co)
                                        } else {
                                            Some(Market::Cr)
                                        }
                                    }
                                } else {
                                    if i < 52 {
                                        if i < 51 {
                                            Some(Market::Cu)
                                        } else {
                                            Some(Market::Cv)
                                        }
                                    } else {
                                        if i < 53 {
                                            Some(Market::Cw)
                                        } else {
                                            Some(Market::Cx)
                                        }
                                    }
                                }
                            } else {
                                if i < 58 {
                                    if i < 56 {
                                        if i < 55 {
                                            Some(Market::Cy)
                                        } else {
                                            Some(Market::Cz)
                                        }
                                    } else {
                                        if i < 57 {
                                            Some(Market::De)
                                        } else {
                                            Some(Market::Dj)
                                        }
                                    }
                                } else {
                                    if i < 60 {
                                        if i < 59 {
                                            Some(Market::Dk)
                                        } else {
                                            Some(Market::Dm)
                                        }
                                    } else {
                                        if i < 61 {
                                            Some(Market::Do)
                                        } else {
                                            Some(Market::Dz)
                                        }
                                    }
                                }
                            }
                        }
                    }
                } else {
                    if i < 93 {
                        if i < 77 {
                            if i < 69 {
                                if i < 65 {
                                    if i < 63 {
                                        Some(Market::Ec)
                                    } else {
                                        if i < 64 {
                                            Some(Market::Ee)
                                        } else {
                                            Some(Market::Eg)
                                        }
                                    }
                                } else {
                                    if i < 67 {
                                        if i < 66 {
                                            Some(Market::Eh)
                                        } else {
                                            Some(Market::Er)
                                        }
                                    } else {
                                        if i < 68 {
                                            Some(Market::Es)
                                        } else {
                                            Some(Market::Et)
                                        }
                                    }
                                }
                            } else {
                                if i < 73 {
                                    if i < 71 {
                                        if i < 70 {
                                            Some(Market::Fi)
                                        } else {
                                            Some(Market::Fj)
                                        }
                                    } else {
                                        if i < 72 {
                                            Some(Market::Fk)
                                        } else {
                                            Some(Market::Fm)
                                        }
                                    }
                                } else {
                                    if i < 75 {
                                        if i < 74 {
                                            Some(Market::Fo)
                                        } else {
                                            Some(Market::Fr)
                                        }
                                    } else {
                                        if i < 76 {
                                            Some(Market::Ga)
                                        } else {
                                            Some(Market::Gb)
                                        }
                                    }
                                }
                            }
                        } else {
                            if i < 85 {
                                if i < 81 {
                                    if i < 79 {
                                        if i < 78 {
                                            Some(Market::Gd)
                                        } else {
                                            Some(Market::Ge)
                                        }
                                    } else {
                                        if i < 80 {
                                            Some(Market::Gf)
                                        } else {
                                            Some(Market::Gg)
                                        }
                                    }
                                } else {
                                    if i < 83 {
                                        if i < 82 {
                                            Some(Market::Gh)
                                        } else {
                                            Some(Market::Gi)
                                        }
                                    } else {
                                        if i < 84 {
                                            Some(Market::Gl)
                                        } else {
                                            Some(Market::Gm)
                                        }
                                    }
                                }
                            } else {
                                if i < 89 {
                                    if i < 87 {
                                        if i < 86 {
                                            Some(Market::Gn)
                                        } else {
                                            Some(Market::Gp)
                                        }
                                    } else {
                                        if i < 88 {
                                            Some(Market::Gq)
                                        } else {
                                            Some(Market::Gr)
                                        }
                                    }
                                } else {
                                    if i < 91 {
                                        if i < 90 {
                                            Some(Market::Gs)
                                        } else {
                                            Some(Market::Gt)
                                        }
                                    } else {
                                        if i < 92 {
                                            Some(Market::Gu)
                                        } else {
                                            Some(Market::Gw)
                                        }
                                    }
                                }
                            }
                        }
                    } else {
                        if i < 108 {
                            if i < 100 {
                                if i < 96 {
                                    if i < 94 {
                                        Some(Market::Gy)
                                    } else {
                                        if i < 95 {
                                            Some(Market::Hk)
                                        } else {
                                            Some(Market::Hm)
                                        }
                                    }
                                } else {
                                    if i < 98 {
                                        if i < 97 {
                                            Some(Market::Hn)
                                        } else {
                                            Some(Market::Hr)
                                        }
                                    } else {
                                        if i < 99 {
                                            Some(Market::Ht)
                                        } else {
                                            Some(Market::Hu)
                                        }
                                    }
                                }
                            } else {
                                if i < 104 {
                                    if i < 102 {
                                        if i < 101 {
                                            Some(Market::Id)
                                        } else {
                                            Some(Market::Ie)
                                        }
                                    } else {
                                        if i < 103 {
                                            Some(Market::Il)
                                        } else {
                                            Some(Market::Im)
                                        }
                                    }
                                } else {
                                    if i < 106 {
                                        if i < 105 {
                                            Some(Market::In)
                                        } else {
                                            Some(Market::Io)
                                        }
                                    } else {
                                        if i < 107 {
                                            Some(Market::Iq)
                                        } else {
                                            Some(Market::Ir)
                                        }
                                    }
                                }
                            }
                        } else {
                            if i < 116 {
                                if i < 112 {
                                    if i < 110 {
                                        if i < 109 {
                                            Some(Market::Is)
                                        } else {
                                            Some(Market::It)
                                        }
                                    } else {
                                        if i < 111 {
                                            Some(Market::Je)
                                        } else {
                                            Some(Market::Jm)
                                        }
                                    }
                                } else {
                                    if i < 114 {
                                        if i < 113 {
                                            Some(Market::Jo)
                                        } else {
                                            Some(Market::Jp)
                                        }
                                    } else {
                                        if i < 115 {
                                            Some(Market::Ke)
                                        } else {
                                            Some(Market::Kg)
                                        }
                                    }
                                }
                            } else {
                                if i < 120 {
                                    if i < 118 {
                                        if i < 117 {
                                            Some(Market::Kh)
                                        } else {
                                            Some(Market::Ki)
                                        }
                                    } else {
                                        if i < 119 {
                                            Some(Market::Km)
                                        } else {
                                            Some(Market::Kn)
                                        }
                                    }
                                } else {
                                    if i < 122 {
                                        if i < 121 {
                                            Some(Market::Kp)
                                        } else {
                                            Some(Market::Kr)
                                        }
                                    } else {
                                        if i < 123 {
                                            Some(Market::Kw)
                                        } else {
                                            Some(Market::Ky)
                                        }
                                    }
                                }
                            }
                        }
                    }
                }
            } else {
                if i < 186 {
                    if i < 155 {
                        if i < 139 {
                            if i < 131 {
                                if i < 127 {
                                    if i < 125 {
                                        Some(Market::Kz)
                                    } else {
                                        if i < 126 {
                                            Some(Market::La)
                                        } else {
                                            Some(Market::Lb)
                                        }
                                    }
                                } else {
                                    if i < 129 {
                                        if i < 128 {
                                            Some(Market::Lc)
                                        } else {
                                            Some(Market::Li)
                                        }
                                    } else {
                                        if i < 130 {
                                            Some(Market::Lk)
                                        } else {
                                            Some(Market::Lr)
                                        }
                                    }
                                }
                            } else {
                                if i < 135 {
                                    if i < 133 {
                                        if i < 132 {
                                            Some(Market::Ls)
                                        } else {
                                            Some(Market::Lt)
                                        }
                                    } else {
                                        if i < 134 {
                                            Some(Market::Lu)
                                        } else {
                                            Some(Market::Lv)
                                        }
                                    }
                                } else {
                                    if i < 137 {
                                        if i < 136 {
                                            Some(Market::Ly)
                                        } else {
                                            Some(Market::Ma)
                                        }
                                    } else {
                                        if i < 138 {
                                            Some(Market::Mc)
                                        } else {
                                            Some(Market::Md)
                                        }
                                    }
                                }
                            }
                        } else {
                            if i < 147 {
                                if i < 143 {
                                    if i < 141 {
                                        if i < 140 {
                                            Some(Market::Me)
                                        } else {
                                            Some(Market::Mf)
                                        }
                                    } else {
                                        if i < 142 {
                                            Some(Market::Mg)
                                        } else {
                                            Some(Market::Mh)
                                        }
                                    }
                                } else {
                                    if i < 145 {
                                        if i < 144 {
                                            Some(Market::Mk)
                                        } else {
                                            Some(Market::Ml)
                                        }
                                    } else {
                                        if i < 146 {
                                            Some(Market::Mm)
                                        } else {
                                            Some(Market::Mn)
                                        }
                                    }
                                }
                            } else {
                                if i < 151 {
                                    if i < 149 {
                                        if i < 148 {
                                            Some(Market::Mo)
                                        } else {
                                            Some(Market::Mp)
                                        }
                                    } else {
                                        if i < 150 {
                                            Some(Market::Mq)
                                        } else {
                                            Some(Market::Mr)
                                        }
                                    }
                                } else {
                                    if i < 153 {
                                        if i < 152 {
                                            Some(Market::Ms)
                                        } else {
                                            Some(Market::Mt)
                                        }
                                    } else {
                                        if i < 154 {
                                            Some(Market::Mu)
                                        } else {
                                            Some(Market::Mv)
                                        }
                                    }
                                }
                            }
                        }
                    } else {
                        if i < 170 {
                            if i < 162 {
                                if i < 158 {
                                    if i < 156 {
                                        Some(Market::Mw)
                                    } else {
                                        if i < 157 {
                                            Some(Market::Mx)
                                        } else {
                                            Some(Market::My)
                                        }
                                    }
                                } else {
                                    if i < 160 {
                                        if i < 159 {
                                            Some(Market::Mz)
                                        } else {
                                            Some(Market::Na)
                                        }
                                    } else {
                                        if i < 161 {
                                            Some(Market::Nc)
                                        } else {
                                            Some(Market::Ne)
                                        }
                                    }
                                }
                            } else {
                                if i < 166 {
                                    if i < 164 {
                                        if i < 163 {
                                            Some(Market::Nf)
                                        } else {
                                            Some(Market::Ng)
                                        }
                                    } else {
                                        if i < 165 {
                                            Some(Market::Ni)
                                        } else {
                                            Some(Market::Nl)
                                        }
                                    }
                                } else {
                                    if i < 168 {
                                        if i < 167 {
                                            Some(Market::No)
                                        } else {
                                            Some(Market::Np)
                                        }
                                    } else {
                                        if i < 169 {
                                            Some(Market::Nr)
                                        } else {
                                            Some(Market::Nu)
                                        }
                                    }
                                }
                            }
                        } else {
                            if i < 178 {
                                if i < 174 {
                                    if i < 172 {
                                        if i < 171 {
                                            Some(Market::Nz)
                                        } else {
                                            Some(Market::Om)
                                        }
                                    } else {
                                        if i < 173 {
                                            Some(Market::Pa)
                                        } else {
                                            Some(Market::Pe)
                                        }
                                    }
                                } else {
                                    if i < 176 {
                                        if i < 175 {
                                            Some(Market::Pf)
                                        } else {
                                            Some(Market::Pg)
                                        }
                                    } else {
                                        if i < 177 {
                                            Some(Market::Ph)
                                        } else {
                                            Some(Market::Pk)
                                        }
                                    }
                                }
                            } else {
                                if i < 182 {
                                    if i < 180 {
                                        if i < 179 {
                                            Some(Market::Pl)
                                        } else {
                                            Some(Market::Pm)
                                        }
                                    } else {
                                        if i < 181 {
                                            Some(Market::Pn)
                                        } else {
                                            Some(Market::Pr)
                                        }
                                    }
                                } else {
                                    if i < 184 {
                                        if i < 183 {
                                            Some(Market::Ps)
                                        } else {
                                            Some(Market::Pt)
                                        }
                                    } else {
                                        if i < 185 {
                                            Some(Market::Pw)
                                        } else {
                                            Some(Market::Py)
                                        }
                                    }
                                }
                            }
                        }
                    }
                } else {
                    if i < 217 {
                        if i < 201 {
                            if i < 193 {
                                if i < 189 {
                                    if i < 187 {
                                        Some(Market::Qa)
                                    } else {
                                        if i < 188 {
                                            Some(Market::Re)
                                        } else {
                                            Some(Market::Ro)
                                        }
                                    }
                                } else {
                                    if i < 191 {
                                        if i < 190 {
                                            Some(Market::Rs)
                                        } else {
                                            Some(Market::Ru)
                                        }
                                    } else {
                                        if i < 192 {
                                            Some(Market::Rw)
                                        } else {
                                            Some(Market::Sa)
                                        }
                                    }
                                }
                            } else {
                                if i < 197 {
                                    if i < 195 {
                                        if i < 194 {
                                            Some(Market::Sb)
                                        } else {
                                            Some(Market::Sc)
                                        }
                                    } else {
                                        if i < 196 {
                                            Some(Market::Sd)
                                        } else {
                                            Some(Market::Se)
                                        }
                                    }
                                } else {
                                    if i < 199 {
                                        if i < 198 {
                                            Some(Market::Sg)
                                        } else {
                                            Some(Market::Sh)
                                        }
                                    } else {
                                        if i < 200 {
                                            Some(Market::Si)
                                        } else {
                                            Some(Market::Sj)
                                        }
                                    }
                                }
                            }
                        } else {
                            if i < 209 {
                                if i < 205 {
                                    if i < 203 {
                                        if i < 202 {
                                            Some(Market::Sk)
                                        } else {
                                            Some(Market::Sl)
                                        }
                                    } else {
                                        if i < 204 {
                                            Some(Market::Sm)
                                        } else {
                                            Some(Market::Sn)
                                        }
                                    }
                                } else {
                                    if i < 207 {
                                        if i < 206 {
                                            Some(Market::So)
                                        } else {
                                            Some(Market::Sr)
                                        }
                                    } else {
                                        if i < 208 {
                                            Some(Market::Ss)
                                        } else {
                                            Some(Market::St)
                                        }
                                    }
                                }
                            } else {
                                if i < 213 {
                                    if i < 211 {
                                        if i < 210 {
                                            Some(Market::Sv)
                                        } else {
                                            Some(Market::Sx)
                                        }
                                    } else {
                                        if i < 212 {
                                            Some(Market::Sy)
                                        } else {
                                            Some(Market::Sz)
                                        }
                                    }
                                } else {
                                    if i < 215 {
                                        if i < 214 {
                                            Some(Market::Tc)
                                        } else {
                                            Some(Market::Td)
                                        }
                                    } else {
                                        if i < 216 {
                                            Some(Market::Tf)
                                        } else {
                                            Some(Market::Tg)
                                        }
                                    }
                                }
                            }
                        }
                    } else {
                        if i < 233 {
                            if i < 225 {
                                if i < 221 {
                                    if i < 219 {
                                        if i < 218 {
                                            Some(Market::Th)
                                        } else {
                                            Some(Market::Tj)
                                        }
                                    } else {
                                        if i < 220 {
                                            Some(Market::Tk)
                                        } else {
                                            Some(Market::Tl)
                                        }
                                    }
                                } else {
                                    if i < 223 {
                                        if i < 222 {
                                            Some(Market::Tm)
                                        } else {
                                            Some(Market::Tn)
                                        }
                                    } else {
                                        if i < 224 {
                                            Some(Market::To)
                                        } else {
                                            Some(Market::Tr)
                                        }
                                    }
                                }
                            } else {
                                if i < 229 {
                                    if i < 227 {
                                        if i < 226 {
                                            Some(Market::Tt)
                                        } else {
                                            Some(Market::Tv)
                                        }
                                    } else {
                                        if i < 228 {
                                            Some(Market::Tw)
                                        } else {
                                            Some(Market::Tz)
                                        }
                                    }
                                } else {
                                    if i < 231 {
                                        if i < 230 {
                                            Some(Market::Ua)
                                        } else {
                                            Some(Market::Ug)
                                        }
                                    } else {
                                        if i < 232 {
                                            Some(Market::Um)
                                        } else {
                                            Some(Market::Us)
                                        }
                                    }
                                }
                            }
                        } else {
                            if i < 241 {
                                if i < 237 {
                                    if i < 235 {
                                        if i < 234 {
                                            Some(Market::Uy)
                                        } else {
                                            Some(Market::Uz)
                                        }
                                    } else {
                                        if i < 236 {
                                            Some(Market::Va)
                                        } else {
                                            Some(Market::Vc)
                                        }
                                    }
                                } else {
                                    if i < 239 {
                                        if i < 238 {
                                            Some(Market::Ve)
                                        } else {
                                            Some(Market::Vg)
                                        }
                                    } else {
                                        if i < 240 {
                                            Some(Market::Vi)
                                        } else {
                                            Some(Market::Vn)
                                        }
                                    }
                                }
                            } else {
                                if i < 245 {
                                    if i < 243 {
                                        if i < 242 {
                                            Some(Market::Vu)
                                        } else {
                                            Some(Market::Wf)
                                        }
                                    } else {
                                        if i < 244 {
                                            Some(Market::Ws)
                                        } else {
                                            Some(Market::Ye)
                                        }
                                    }
                                } else {
                                    if i < 247 {
                                        if i < 246 {
                                            Some(Market::Yt)
                                        } else {
                                            Some(Market::Za)
                                        }
                                    } else {
                                        if i < 248 {
                                            Some(Market::Zm)
                                        } else {
                                            Some(Market::Zw)
                                        }
                                    }
                                }
                            }
                        }
                    }
                }
            }
        }
    }

    /// Every value, in table order.
    pub fn all() -> (r: Vec<Market>)
        ensures
            r@.len() == MARKET_COUNT,
            forall|i: int| 0 <= i < MARKET_COUNT ==> market_at(i) == Some(#[trigger] r@[i]),
    {
        let mut r: Vec<Market> = Vec::new();
        for i in 0..MARKET_COUNT
            invariant
                r@.len() == i,
                forall|j: int| 0 <= j < i ==> market_at(j) == Some(#[trigger] r@[j]),
        {
            let x = Market::from_index(i).unwrap();
            r.push(x);
        }
        r
    }

    /// The value whose code is `s`, compared without regard to ASCII case.
    pub fn parse_code(s: &str) -> (r: Option<Market>)
        ensures
            r matches Some(x) ==> market_code(x) == ascii_upper(s@),
            r is None ==> forall|x: Market| !(market_code(x) == ascii_upper(s@)),
    {
        let chars = chars_of(s);
        let want = upper_chars(chars.as_slice());
        for i in 0..MARKET_COUNT
            invariant
                want@ == ascii_upper(s@),
                forall|j: int| 0 <= j < i ==> !(market_code(#[trigger] market_at(j)->0) == ascii_upper(s@)),
        {
            let x = Market::from_index(i).unwrap();
            let code = chars_of(x.as_str());
            if chars_eq(code.as_slice(), want.as_slice()) {
                return Some(x);
            }
        }
        assert forall|x: Market| !(market_code(x) == ascii_upper(s@)) by {
            lemma_market_index(x);
            let j = market_index(x);
            assert(market_at(j)->0 == x);
        }
        None
    }
}

/// A language: an ISO 639-1 two-letter code.
#[derive(Debug, Clone, Copy, PartialEq, Eq, Hash, Structural)]
pub enum Lang {
    Aa,
    Ab,
    Ae,
    Af,
    Ak,
    Am,
    An,
    Ar,
    As,
    Av,
    Ay,
    Az,
    Ba,
    Be,
    Bg,
    Bh,
    Bi,
    Bm,
    Bn,
    Bo,
    Br,
    Bs,
    Ca,
    Ce,
    Ch,
    Co,
    Cr,
    Cs,
    Cu,
    Cv,
    Cy,
    Da,
    De,
    Dv,
    Dz,
    Ee,
    El,
    En,
    Eo,
    Es,
    Et,
    Eu,
    Fa,
    Ff,
    Fi,
    Fj,
    Fo,
    Fr,
    Fy,
    Ga,
    Gd,
    Gl,
    Gn,
    Gu,
    Gv,
    Ha,
    He,
    Hi,
    Ho,
    Hr,
    Ht,
    Hu,
    Hy,
    Hz,
    Ia,
    Id,
    Ie,
    Ig,
    Ii,
    Ik,
    Io,
    Is,
    It,
    Iu,
    Ja,
    Jv,
    Ka,
    Kg,
    Ki,
    Kj,
    Kk,
    Kl,
    Km,
    Kn,
    Ko,
    Kr,
    Ks,
    Ku,
    Kv,
    Kw,
    Ky,
    La,
    Lb,
    Lg,
    Li,
    Ln,
    Lo,
    Lt,
    Lu,
    Lv,
    Mg,
    Mh,
    Mi,
    Mk,
    Ml,
    Mn,
    Mr,
    Ms,
    Mt,
    My,
    Na,
    Nb,
    Nd,
    Ne,
    Ng,
    Nl,
    Nn,
    No,
    Nr,
    Nv,
    Ny,
    Oc,
    Oj,
    Om,
    Or,
    Os,
    Pa,
    Pi,
    Pl,
    Ps,
    Pt,
    Qu,
    Rm,
    Rn,
    Ro,
    Ru,
    Rw,
    Sa,
    Sc,
    Sd,
    Se,
    Sg,
    Si,
    Sk,
    Sl,
    Sm,
    Sn,
    So,
    Sq,
    Sr,
    Ss,
    St,
    Su,
    Sv,
    Sw,
    Ta,
    Te,
    Tg,
    Th,
    Ti,
    Tk,
    Tl,
    Tn,
    To,
    Tr,
    Ts,
    Tt,
    Tw,
    Ty,
    Ug,
    Uk,
    Ur,
    Uz,
    Ve,
    Vi,
    Vo,
    Wa,
    Wo,
    Xh,
    Yi,
    Yo,
    Za,
    Zh,
    Zu,
}

/// Number of Lang values.
pub const LANG_COUNT: usize = 184;

/// The canonical code of a Lang value.
pub open spec fn lang_code(x: Lang) -> Seq<char> {
    match x {
        Lang::Aa => "aa"@,
        Lang::Ab => "ab"@,
        Lang::Ae => "ae"@,
        Lang::Af => "af"@,
        Lang::Ak => "ak"@,
        Lang::Am => "am"@,
        Lang::An => "an"@,
        Lang::Ar => "ar"@,
        Lang::As => "as"@,
        Lang::Av => "av"@,
        Lang::Ay => "ay"@,
        Lang::Az => "az"@,
        Lang::Ba => "ba"@,
        Lang::Be => "be"@,
        Lang::Bg => "bg"@,
        Lang::Bh => "bh"@,
        Lang::Bi => "bi"@,
        Lang::Bm => "bm"@,
        Lang::Bn => "bn"@,
        Lang::Bo => "bo"@,
        Lang::Br => "br"@,
        Lang::Bs => "bs"@,
        Lang::Ca => "ca"@,
        Lang::Ce => "ce"@,
        Lang::Ch => "ch"@,
        Lang::Co => "co"@,
        Lang::Cr => "cr"@,
        Lang::Cs => "cs"@,
        Lang::Cu => "cu"@,
        Lang::Cv => "cv"@,
        Lang::Cy => "cy"@,
        Lang::Da => "da"@,
        Lang::De => "de"@,
        Lang::Dv => "dv"@,
        Lang::Dz => "dz"@,
        Lang::Ee => "ee"@,
        Lang::El => "el"@,
        Lang::En => "en"@,
        Lang::Eo => "eo"@,
        Lang::Es => "es"@,
        Lang::Et => "et"@,
        Lang::Eu => "eu"@,
        Lang::Fa => "fa"@,
        Lang::Ff => "ff"@,
        Lang::Fi => "fi"@,
        Lang::Fj => "fj"@,
        Lang::Fo => "fo"@,
        Lang::Fr => "fr"@,
        Lang::Fy => "fy"@,
        Lang::Ga => "ga"@,
        Lang::Gd => "gd"@,
        Lang::Gl => "gl"@,
        Lang::Gn => "gn"@,
        Lang::Gu => "gu"@,
        Lang::Gv => "gv"@,
        Lang::Ha => "ha"@,
        Lang::He => "he"@,
        Lang::Hi => "hi"@,
        Lang::Ho => "ho"@,
        Lang::Hr => "hr"@,
        Lang::Ht => "ht"@,
        Lang::Hu => "hu"@,
        Lang::Hy => "hy"@,
        Lang::Hz => "hz"@,
        Lang::Ia => "ia"@,
        Lang::Id => "id"@,
        Lang::Ie => "ie"@,
        Lang::Ig => "ig"@,
        Lang::Ii => "ii"@,
        Lang::Ik => "ik"@,
        Lang::Io => "io"@,
        Lang::Is => "is"@,
        Lang::It => "it"@,
        Lang::Iu => "iu"@,
        Lang::Ja => "ja"@,
        Lang::Jv => "jv"@,
        Lang::Ka => "ka"@,
        Lang::Kg => "kg"@,
        Lang::Ki => "ki"@,
        Lang::Kj => "kj"@,
        Lang::Kk => "kk"@,
        Lang::Kl => "kl"@,
        Lang::Km => "km"@,
        Lang::Kn => "kn"@,
        Lang::Ko => "ko"@,
        Lang::Kr => "kr"@,
        Lang::Ks => "ks"@,
        Lang::Ku => "ku"@,
        Lang::Kv => "kv"@,
        Lang::Kw => "kw"@,
        Lang::Ky => "ky"@,
        Lang::La => "la"@,
        Lang::Lb => "lb"@,
        Lang::Lg => "lg"@,
        Lang::Li => "li"@,
        Lang::Ln => "ln"@,
        Lang::Lo => "lo"@,
        Lang::Lt => "lt"@,
        Lang::Lu => "lu"@,
        Lang::Lv => "lv"@,
        Lang::Mg => "mg"@,
        Lang::Mh => "mh"@,
        Lang::Mi => "mi"@,
        Lang::Mk => "mk"@,
        Lang::Ml => "ml"@,
        Lang::Mn => "mn"@,
        Lang::Mr => "mr"@,
        Lang::Ms => "ms"@,
        Lang::Mt => "mt"@,
        Lang::My => "my"@,
        Lang::Na => "na"@,
        Lang::Nb => "nb"@,
        Lang::Nd => "nd"@,
        Lang::Ne => "ne"@,
        Lang::Ng => "ng"@,
        Lang::Nl => "nl"@,
        Lang::Nn => "nn"@,
        Lang::No => "no"@,
        Lang::Nr => "nr"@,
        Lang::Nv => "nv"@,
        Lang::Ny => "ny"@,
        Lang::Oc => "oc"@,
        Lang::Oj => "oj"@,
        Lang::Om => "om"@,
        Lang::Or => "or"@,
        Lang::Os => "os"@,
        Lang::Pa => "pa"@,
        Lang::Pi => "pi"@,
        Lang::Pl => "pl"@,
        Lang::Ps => "ps"@,
        Lang::Pt => "pt"@,
        Lang::Qu => "qu"@,
        Lang::Rm => "rm"@,
        Lang::Rn => "rn"@,
        Lang::Ro => "ro"@,
        Lang::Ru => "ru"@,
        Lang::Rw => "rw"@,
        Lang::Sa => "sa"@,
        Lang::Sc => "sc"@,
        Lang::Sd => "sd"@,
        Lang::Se => "se"@,
        Lang::Sg => "sg"@,
        Lang::Si => "si"@,
        Lang::Sk => "sk"@,
        Lang::Sl => "sl"@,
        Lang::Sm => "sm"@,
        Lang::Sn => "sn"@,
        Lang::So => "so"@,
        Lang::Sq => "sq"@,
        Lang::Sr => "sr"@,
        Lang::Ss => "ss"@,
        Lang::St => "st"@,
        Lang::Su => "su"@,
        Lang::Sv => "sv"@,
        Lang::Sw => "sw"@,
        Lang::Ta => "ta"@,
        Lang::Te => "te"@,
        Lang::Tg => "tg"@,
        Lang::Th => "th"@,
        Lang::Ti => "ti"@,
        Lang::Tk => "tk"@,
        Lang::Tl => "tl"@,
        Lang::Tn => "tn"@,
        Lang::To => "to"@,
        Lang::Tr => "tr"@,
        Lang::Ts => "ts"@,
        Lang::Tt => "tt"@,
        Lang::Tw => "tw"@,
        Lang::Ty => "ty"@,
        Lang::Ug => "ug"@,
        Lang::Uk => "uk"@,
        Lang::Ur => "ur"@,
        Lang::Uz => "uz"@,
        Lang::Ve => "ve"@,
        Lang::Vi => "vi"@,
        Lang::Vo => "vo"@,
        Lang::Wa => "wa"@,
        Lang::Wo => "wo"@,
        Lang::Xh => "xh"@,
        Lang::Yi => "yi"@,
        Lang::Yo => "yo"@,
        Lang::Za => "za"@,
        Lang::Zh => "zh"@,
        Lang::Zu => "zu"@,
    }
}

/// The English name of a Lang value.
pub open spec fn lang_name(x: Lang) -> Seq<char> {
    match x {
        Lang::Aa => "Afar"@,
        Lang::Ab => "Abkhazian"@,
        Lang::Ae => "Avestan"@,
        Lang::Af => "Afrikaans"@,
        Lang::Ak => "Akan"@,
        Lang::Am => "Amharic"@,
        Lang::An => "Aragonese"@,
        Lang::Ar => "Arabic"@,
        Lang::As => "Assamese"@,
        Lang::Av => "Avaric"@,
        Lang::Ay => "Aymara"@,
        Lang::Az => "Azerbaijani"@,
        Lang::Ba => "Bashkir"@,
        Lang::Be => "Belarusian"@,
        Lang::Bg => "Bulgarian"@,
        Lang::Bh => "Bihari languages"@,
        Lang::Bi => "Bislama"@,
        Lang::Bm => "Bambara"@,
        Lang::Bn => "Bengali"@,
        Lang::Bo => "Tibetan"@,
        Lang::Br => "Breton"@,
        Lang::Bs => "Bosnian"@,
        Lang::Ca => "Catalan"@,
        Lang::Ce => "Chechen"@,
        Lang::Ch => "Chamorro"@,
        Lang::Co => "Corsican"@,
        Lang::Cr => "Cree"@,
        Lang::Cs => "Czech"@,
        Lang::Cu => "Church Slavic"@,
        Lang::Cv => "Chuvash"@,
        Lang::Cy => "Welsh"@,
        Lang::Da => "Danish"@,
        Lang::De => "German"@,
        Lang::Dv => "Divehi"@,
        Lang::Dz => "Dzongkha"@,
        Lang::Ee => "Ewe"@,
        Lang::El => "Greek, Modern (1453-)"@,
        Lang::En => "English"@,
        Lang::Eo => "Esperanto"@,
        Lang::Es => "Spanish"@,
        Lang::Et => "Estonian"@,
        Lang::Eu => "Basque"@,
        Lang::Fa => "Persian"@,
        Lang::Ff => "Fulah"@,
        Lang::Fi => "Finnish"@,
        Lang::Fj => "Fijian"@,
        Lang::Fo => "Faroese"@,
        Lang::Fr => "French"@,
        Lang::Fy => "Western Frisian"@,
        Lang::Ga => "Irish"@,
        Lang::Gd => "Gaelic"@,
        Lang::Gl => "Galician"@,
        Lang::Gn => "Guarani"@,
        Lang::Gu => "Gujarati"@,
        Lang::Gv => "Manx"@,
        Lang::Ha => "Hausa"@,
        Lang::He => "Hebrew"@,
        Lang::Hi => "Hindi"@,
        Lang::Ho => "Hiri Motu"@,
        Lang::Hr => "Croatian"@,
        Lang::Ht => "Haitian"@,
        Lang::Hu => "Hungarian"@,
        Lang::Hy => "Armenian"@,
        Lang::Hz => "Herero"@,
        Lang::Ia => "Interlingua (International Auxiliary Language Association)"@,
        Lang::Id => "Indonesian"@,
        Lang::Ie => "Interlingue"@,
        Lang::Ig => "Igbo"@,
        Lang::Ii => "Sichuan Yi"@,
        Lang::Ik => "Inupiaq"@,
        Lang::Io => "Ido"@,
        Lang::Is => "Icelandic"@,
        Lang::It => "Italian"@,
        Lang::Iu => "Inuktitut"@,
        Lang::Ja => "Japanese"@,
        Lang::Jv => "Javanese"@,
        Lang::Ka => "Georgian"@,
        Lang::Kg => "Kongo"@,
        Lang::Ki => "Kikuyu"@,
        Lang::Kj => "Kuanyama"@,
        Lang::Kk => "Kazakh"@,
        Lang::Kl => "Kalaallisut"@,
        Lang::Km => "Central Khmer"@,
        Lang::Kn => "Kannada"@,
        Lang::Ko => "Korean"@,
        Lang::Kr => "Kanuri"@,
        Lang::Ks => "Kashmiri"@,
        Lang::Ku => "Kurdish"@,
        Lang::Kv => "Komi"@,
        Lang::Kw => "Cornish"@,
        Lang::Ky => "Kirghiz"@,
        Lang::La => "Latin"@,
        Lang::Lb => "Luxembourgish"@,
        Lang::Lg => "Ganda"@,
        Lang::Li => "Limburgan"@,
        Lang::Ln => "Lingala"@,
        Lang::Lo => "Lao"@,
        Lang::Lt => "Lithuanian"@,
        Lang::Lu => "Luba-Katanga"@,
        Lang::Lv => "Latvian"@,
        Lang::Mg => "Malagasy"@,
        Lang::Mh => "Marshallese"@,
        Lang::Mi => "Maori"@,
        Lang::Mk => "Macedonian"@,
        Lang::Ml => "Malayalam"@,
        Lang::Mn => "Mongolian"@,
        Lang::Mr => "Marathi"@,
        Lang::Ms => "Malay"@,
        Lang::Mt => "Maltese"@,
        Lang::My => "Burmese"@,
        Lang::Na => "Nauru"@,
        Lang::Nb => "Bokmål, Norwegian"@,
        Lang::Nd => "Ndebele, North"@,
        Lang::Ne => "Nepali"@,
        Lang::Ng => "Ndonga"@,
        Lang::Nl => "Dutch"@,
        Lang::Nn => "Norwegian Nynorsk"@,
        Lang::No => "Norwegian"@,
        Lang::Nr => "Ndebele, South"@,
        Lang::Nv => "Navajo"@,
        Lang::Ny => "Chichewa"@,
        Lang::Oc => "Occitan (post 1500)"@,
        Lang::Oj => "Ojibwa"@,
        Lang::Om => "Oromo"@,
        Lang::Or => "Oriya"@,
        Lang::Os => "Ossetian"@,
        Lang::Pa => "Panjabi"@,
        Lang::Pi => "Pali"@,
        Lang::Pl => "Polish"@,
        Lang::Ps => "Pushto"@,
        Lang::Pt => "Portuguese"@,
        Lang::Qu => "Quechua"@,
        Lang::Rm => "Romansh"@,
        Lang::Rn => "Rundi"@,
        Lang::Ro => "Romanian"@,
        Lang::Ru => "Russian"@,
        Lang::Rw => "Kinyarwanda"@,
        Lang::Sa => "Sanskrit"@,
        Lang::Sc => "Sardinian"@,
        Lang::Sd => "Sindhi"@,
        Lang::Se => "Northern Sami"@,
        Lang::Sg => "Sango"@,
        Lang::Si => "Sinhala"@,
        Lang::Sk => "Slovak"@,
        Lang::Sl => "Slovenian"@,
        Lang::Sm => "Samoan"@,
        Lang::Sn => "Shona"@,
        Lang::So => "Somali"@,
        Lang::Sq => "Albanian"@,
        Lang::Sr => "Serbian"@,
        Lang::Ss => "Swati"@,
        Lang::St => "Sotho, Southern"@,
        Lang::Su => "Sundanese"@,
        Lang::Sv => "Swedish"@,
        Lang::Sw => "Swahili"@,
        Lang::Ta => "Tamil"@,
        Lang::Te => "Telugu"@,
        Lang::Tg => "Tajik"@,
        Lang::Th => "Thai"@,
        Lang::Ti => "Tigrinya"@,
        Lang::Tk => "Turkmen"@,
        Lang::Tl => "Tagalog"@,
        Lang::Tn => "Tswana"@,
        Lang::To => "Tonga (Tonga Islands)"@,
        Lang::Tr => "Turkish"@,
        Lang::Ts => "Tsonga"@,
        Lang::Tt => "Tatar"@,
        Lang::Tw => "Twi"@,
        Lang::Ty => "Tahitian"@,
        Lang::Ug => "Uighur"@,
        Lang::Uk => "Ukrainian"@,
        Lang::Ur => "Urdu"@,
        Lang::Uz => "Uzbek"@,
        Lang::Ve => "Venda"@,
        Lang::Vi => "Vietnamese"@,
        Lang::Vo => "Volapük"@,
        Lang::Wa => "Walloon"@,
        Lang::Wo => "Wolof"@,
        Lang::Xh => "Xhosa"@,
        Lang::Yi => "Yiddish"@,
        Lang::Yo => "Yoruba"@,
        Lang::Za => "Zhuang"@,
        Lang::Zh => "Chinese"@,
        Lang::Zu => "Zulu"@,
    }
}

/// The position of a Lang value in the table order.
pub open spec fn lang_index(x: Lang) -> int {
    match x {
        Lang::Aa => 0,
        Lang::Ab => 1,
        Lang::Ae => 2,
        Lang::Af => 3,
        Lang::Ak => 4,
        Lang::Am => 5,
        Lang::An => 6,
        Lang::Ar => 7,
        Lang::As => 8,
        Lang::Av => 9,
        Lang::Ay => 10,
        Lang::Az => 11,
        Lang::Ba => 12,
        Lang::Be => 13,
        Lang::Bg => 14,
        Lang::Bh => 15,
        Lang::Bi => 16,
        Lang::Bm => 17,
        Lang::Bn => 18,
        Lang::Bo => 19,
        Lang::Br => 20,
        Lang::Bs => 21,
        Lang::Ca => 22,
        Lang::Ce => 23,
        Lang::Ch => 24,
        Lang::Co => 25,
        Lang::Cr => 26,
        Lang::Cs => 27,
        Lang::Cu => 28,
        Lang::Cv => 29,
        Lang::Cy => 30,
        Lang::Da => 31,
        Lang::De => 32,
        Lang::Dv => 33,
        Lang::Dz => 34,
        Lang::Ee => 35,
        Lang::El => 36,
        Lang::En => 37,
        Lang::Eo => 38,
        Lang::Es => 39,
        Lang::Et => 40,
        Lang::Eu => 41,
        Lang::Fa => 42,
        Lang::Ff => 43,
        Lang::Fi => 44,
        Lang::Fj => 45,
        Lang::Fo => 46,
        Lang::Fr => 47,
        Lang::Fy => 48,
        Lang::Ga => 49,
        Lang::Gd => 50,
        Lang::Gl => 51,
        Lang::Gn => 52,
        Lang::Gu => 53,
        Lang::Gv => 54,
        Lang::Ha => 55,
        Lang::He => 56,
        Lang::Hi => 57,
        Lang::Ho => 58,
        Lang::Hr => 59,
        Lang::Ht => 60,
        Lang::Hu => 61,
        Lang::Hy => 62,
        Lang::Hz => 63,
        Lang::Ia => 64,
        Lang::Id => 65,
        Lang::Ie => 66,
        Lang::Ig => 67,
        Lang::Ii => 68,
        Lang::Ik => 69,
        Lang::Io => 70,
        Lang::Is => 71,
        Lang::It => 72,
        Lang::Iu => 73,
        Lang::Ja => 74,
        Lang::Jv => 75,
        Lang::Ka => 76,
        Lang::Kg => 77,
        Lang::Ki => 78,
        Lang::Kj => 79,
        Lang::Kk => 80,
        Lang::Kl => 81,
        Lang::Km => 82,
        Lang::Kn => 83,
        Lang::Ko => 84,
        Lang::Kr => 85,
        Lang::Ks => 86,
        Lang::Ku => 87,
        Lang::Kv => 88,
        Lang::Kw => 89,
        Lang::Ky => 90,
        Lang::La => 91,
        Lang::Lb => 92,
        Lang::Lg => 93,
        Lang::Li => 94,
        Lang::Ln => 95,
        Lang::Lo => 96,
        Lang::Lt => 97,
        Lang::Lu => 98,
        Lang::Lv => 99,
        Lang::Mg => 100,
        Lang::Mh => 101,
        Lang::Mi => 102,
        Lang::Mk => 103,
        Lang::Ml => 104,
        Lang::Mn => 105,
        Lang::Mr => 106,
        Lang::Ms => 107,
        Lang::Mt => 108,
        Lang::My => 109,
        Lang::Na => 110,
        Lang::Nb => 111,
        Lang::Nd => 112,
        Lang::Ne => 113,
        Lang::Ng => 114,
        Lang::Nl => 115,
        Lang::Nn => 116,
        Lang::No => 117,
        Lang::Nr => 118,
        Lang::Nv => 119,
        Lang::Ny => 120,
        Lang::Oc => 121,
        Lang::Oj => 122,
        Lang::Om => 123,
        Lang::Or => 124,
        Lang::Os => 125,
        Lang::Pa => 126,
        Lang::Pi => 127,
        Lang::Pl => 128,
        Lang::Ps => 129,
        Lang::Pt => 130,
        Lang::Qu => 131,
        Lang::Rm => 132,
        Lang::Rn => 133,
        Lang::Ro => 134,
        Lang::Ru => 135,
        Lang::Rw => 136,
        Lang::Sa => 137,
        Lang::Sc => 138,
        Lang::Sd => 139,
        Lang::Se => 140,
        Lang::Sg => 141,
        Lang::Si => 142,
        Lang::Sk => 143,
        Lang::Sl => 144,
        Lang::Sm => 145,
        Lang::Sn => 146,
        Lang::So => 147,
        Lang::Sq => 148,
        Lang::Sr => 149,
        Lang::Ss => 150,
        Lang::St => 151,
        Lang::Su => 152,
        Lang::Sv => 153,
        Lang::Sw => 154,
        Lang::Ta => 155,
        Lang::Te => 156,
        Lang::Tg => 157,
        Lang::Th => 158,
        Lang::Ti => 159,
        Lang::Tk => 160,
        Lang::Tl => 161,
        Lang::Tn => 162,
        Lang::To => 163,
        Lang::Tr => 164,
        Lang::Ts => 165,
        Lang::Tt => 166,
        Lang::Tw => 167,
        Lang::Ty => 168,
        Lang::Ug => 169,
        Lang::Uk => 170,
        Lang::Ur => 171,
        Lang::Uz => 172,
        Lang::Ve => 173,
        Lang::Vi => 174,
        Lang::Vo => 175,
        Lang::Wa => 176,
        Lang::Wo => 177,
        Lang::Xh => 178,
        Lang::Yi => 179,
        Lang::Yo => 180,
        Lang::Za => 181,
        Lang::Zh => 182,
        Lang::Zu => 183,
    }
}

/// The Lang value at a position of the table order.
pub open spec fn lang_at(i: int) -> Option<Lang> {
    if i < 0 || i >= 184 {
        None
    } else {
        if i < 92 {
            if i < 46 {
                if i < 23 {
                    if i < 11 {
                        if i < 5 {
                            if i < 2 {
                                if i < 1 {
                                    Some(Lang::Aa)
                                } else {
                                    Some(Lang::Ab)
                                }
                            } else {
                                if i < 3 {
                                    Some(Lang::Ae)
                                } else {
                                    if i < 4 {
                                        Some(Lang::Af)
                                    } else {
                                        Some(Lang::Ak)
                                    }
                                }
                            }
                        } else {
                            if i < 8 {
                                if i < 6 {
                                    Some(Lang::Am)
                                } else {
                                    if i < 7 {
                                        Some(Lang::An)
                                    } else {
                                        Some(Lang::Ar)
                                    }
                                }
                            } else {
                                if i < 9 {
                                    Some(Lang::As)
                                } else {
                                    if i < 10 {
                                        Some(Lang::Av)
                                    } else {
                                        Some(Lang::Ay)
                                    }
                                }
                            }
                        }
                    } else {
                        if i < 17 {
                            if i < 14 {
                                if i < 12 {
                                    Some(Lang::Az)
                                } else {
                                    if i < 13 {
                                        Some(Lang::Ba)
                                    } else {
                                        Some(Lang::Be)
                                    }
                                }
                            } else {
                                if i < 15 {
                                    Some(Lang::Bg)
                                } else {
                                    if i < 16 {
                                        Some(Lang::Bh)
                                    } else {
                                        Some(Lang::Bi)
                                    }
                                }
                            }
                        } else {
                            if i < 20 {
                                if i < 18 {
                                    Some(Lang::Bm)
                                } else {
                                    if i < 19 {
                                        Some(Lang::Bn)
                                    } else {
                                        Some(Lang::Bo)
                                    }
                                }
                            } else {
                                if i < 21 {
                                    Some(Lang::Br)
                                } else {
                                    if i < 22 {
                                        Some(Lang::Bs)
                                    } else {
                                        Some(Lang::Ca)
                                    }
                                }
                            }
                        }
                    }
                } else {
                    if i < 34 {
                        if i < 28 {
                            if i < 25 {
                                if i < 24 {
                                    Some(Lang::Ce)
                                } else {
                                    Some(Lang::Ch)
                                }
                            } else {
                                if i < 26 {
                                    Some(Lang::Co)
                                } else {
                                    if i < 27 {
                                        Some(Lang::Cr)
                                    } else {
                                        Some(Lang::Cs)
                                    }
                                }
                            }
                        } else {
                            if i < 31 {
                                if i < 29 {
                                    Some(Lang::Cu)
                                } else {
                                    if i < 30 {
                                        Some(Lang::Cv)
                                    } else {
                                        Some(Lang::Cy)
                                    }
                                }
                            } else {
                                if i < 32 {
                                    Some(Lang::Da)
                                } else {
                                    if i < 33 {
                                        Some(Lang::De)
                                    } else {
                                        Some(Lang::Dv)
                                    }
                                }
                            }
                        }
                    } else {
                        if i < 40 {
                            if i < 37 {
                                if i < 35 {
                                    Some(Lang::Dz)
                                } else {
                                    if i < 36 {
                                        Some(Lang::Ee)
                                    } else {
                                        Some(Lang::El)
                                    }
                                }
                            } else {
                                if i < 38 {
                                    Some(Lang::En)
                                } else {
                                    if i < 39 {
                                        Some(Lang::Eo)
                                    } else {
                                        Some(Lang::Es)
                                    }
                                }
                            }
                        } else {
                            if i < 43 {
                                if i < 41 {
                                    Some(Lang::Et)
                                } else {
                                    if i < 42 {
                                        Some(Lang::Eu)
                                    } else {
                                        Some(Lang::Fa)
                                    }
                                }
                            } else {
                                if i < 44 {
                                    Some(Lang::Ff)
                                } else {
                                    if i < 45 {
                                        Some(Lang::Fi)
                                    } else {
                                        Some(Lang::Fj)
                                    }
                                }
                            }
                        }
                    }
                }
            } else {
                if i < 69 {
                    if i < 57 {
                        if i < 51 {
                            if i < 48 {
                                if i < 47 {
                                    Some(Lang::Fo)
                                } else {
                                    Some(Lang::Fr)
                                }
                            } else {
                                if i < 49 {
                                    Some(Lang::Fy)
                                } else {
                                    if i < 50 {
                                        Some(Lang::Ga)
                                    } else {
                                        Some(Lang::Gd)
                                    }
                                }
                            }
                        } else {
                            if i < 54 {
                                if i < 52 {
                                    Some(Lang::Gl)
                                } else {
                                    if i < 53 {
                                        Some(Lang::Gn)
                                    } else {
                                        Some(Lang::Gu)
                                    }
                                }
                            } else {
                                if i < 55 {
                                    Some(Lang::Gv)
                                } else {
                                    if i < 56 {
                                        Some(Lang::Ha)
                                    } else {
                                        Some(Lang::He)
                                    }
                                }
                            }
                        }
                    } else {
                        if i < 63 {
                            if i < 60 {
                                if i < 58 {
                                    Some(Lang::Hi)
                                } else {
                                    if i < 59 {
                                        Some(Lang::Ho)
                                    } else {
                                        Some(Lang::Hr)
                                    }
                                }
                            } else {
                                if i < 61 {
                                    Some(Lang::Ht)
                                } else {
                                    if i < 62 {
                                        Some(Lang::Hu)
                                    } else {
                                        Some(Lang::Hy)
                                    }
                                }
                            }
                        } else {
                            if i < 66 {
                                if i < 64 {
                                    Some(Lang::Hz)
                                } else {
                                    if i < 65 {
                                        Some(Lang::Ia)
                                    } else {
                                        Some(Lang::Id)
                                    }
                                }
                            } else {
                                if i < 67 {
                                    Some(Lang::Ie)
                                } else {
                                    if i < 68 {
                                        Some(Lang::Ig)
                                    } else {
                                        Some(Lang::Ii)
                                    }
                                }
                            }
                        }
                    }
                } else {
                    if i < 80 {
                        if i < 74 {
                            if i < 71 {
                                if i < 70 {
                                    Some(Lang::Ik)
                                } else {
                                    Some(Lang::Io)
                                }
                            } else {
                                if i < 72 {
                                    Some(Lang::Is)
                                } else {
                                    if i < 73 {
                                        Some(Lang::It)
                                    } else {
                                        Some(Lang::Iu)
                                    }
                                }
                            }
                        } else {
                            if i < 77 {
                                if i < 75 {
                                    Some(Lang::Ja)
                                } else {
                                    if i < 76 {
                                        Some(Lang::Jv)
                                    } else {
                                        Some(Lang::Ka)
                                    }
                                }
                            } else {
                                if i < 78 {
                                    Some(Lang::Kg)
                                } else {
                                    if i < 79 {
                                        Some(Lang::Ki)
                                    } else {
                                        Some(Lang::Kj)
                                    }
                                }
                            }
                        }
                    } else {
                        if i < 86 {
                            if i < 83 {
                                if i < 81 {
                                    Some(Lang::Kk)
                                } else {
                                    if i < 82 {
                                        Some(Lang::Kl)
                                    } else {
                                        Some(Lang::Km)
                                    }
                                }
                            } else {
                                if i < 84 {
                                    Some(Lang::Kn)
                                } else {
                                    if i < 85 {
                                        Some(Lang::Ko)
                                    } else {
                                        Some(Lang::Kr)
                                    }
                                }
                            }
                        } else {
                            if i < 89 {
                                if i < 87 {
                                    Some(Lang::Ks)
                                } else {
                                    if i < 88 {
                                        Some(Lang::Ku)
                                    } else {
                                        Some(Lang::Kv)
                                    }
                                }
                            } else {
                                if i < 90 {
                                    Some(Lang::Kw)
                                } else {
                                    if i < 91 {
                                        Some(Lang::Ky)
                                    } else {
                                        Some(Lang::La)
                                    }
                                }
                            }
                        }
                    }
                }
            }
        } else {
            if i < 138 {
                if i < 115 {
                    if i < 103 {
                        if i < 97 {
                            if i < 94 {
                                if i < 93 {
                                    Some(Lang::Lb)
                                } else {
                                    Some(Lang::Lg)
                                }
                            } else {
                                if i < 95 {
                                    Some(Lang::Li)
                                } else {
                                    if i < 96 {
                                        Some(Lang::Ln)
                                    } else {
                                        Some(Lang::Lo)
                                    }
                                }
                            }
                        } else {
                            if i < 100 {
                                if i < 98 {
                                    Some(Lang::Lt)
                                } else {
                                    if i < 99 {
                                        Some(Lang::Lu)
                                    } else {
                                        Some(Lang::Lv)
                                    }
                                }
                            } else {
                                if i < 101 {
                                    Some(Lang::Mg)
                                } else {
                                    if i < 102 {
                                        Some(Lang::Mh)
                                    } else {
                                        Some(Lang::Mi)
                                    }
                                }
                            }
                        }
                    } else {
                        if i < 109 {
                            if i < 106 {
                                if i < 104 {
                                    Some(Lang::Mk)
                                } else {
                                    if i < 105 {
                                        Some(Lang::Ml)
                                    } else {
                                        Some(Lang::Mn)
                                    }
                                }
                            } else {
                                if i < 107 {
                                    Some(Lang::Mr)
                                } else {
                                    if i < 108 {
                                        Some(Lang::Ms)
                                    } else {
                                        Some(Lang::Mt)
                                    }
                                }
                            }
                        } else {
                            if i < 112 {
                                if i < 110 {
                                    Some(Lang::My)
                                } else {
                                    if i < 111 {
                                        Some(Lang::Na)
                                    } else {
                                        Some(Lang::Nb)
                                    }
                                }
                            } else {
                                if i < 113 {
                                    Some(Lang::Nd)
                                } else {
                                    if i < 114 {
                                        Some(Lang::Ne)
                                    } else {
                                        Some(Lang::Ng)
                                    }
                                }
                            }
                        }
                    }
                } else {
                    if i < 126 {
                        if i < 120 {
                            if i < 117 {
                                if i < 116 {
                                    Some(Lang::Nl)
                                } else {
                                    Some(Lang::Nn)
                                }
                            } else {
                                if i < 118 {
                                    Some(Lang::No)
                                } else {
                                    if i < 119 {
                                        Some(Lang::Nr)
                                    } else {
                                        Some(Lang::Nv)
                                    }
                                }
                            }
                        } else {
                            if i < 123 {
                                if i < 121 {
                                    Some(Lang::Ny)
                                } else {
                                    if i < 122 {
                                        Some(Lang::Oc)
                                    } else {
                                        Some(Lang::Oj)
                                    }
                                }
                            } else {
                                if i < 124 {
                                    Some(Lang::Om)
                                } else {
                                    if i < 125 {
                                        Some(Lang::Or)
                                    } else {
                                        Some(Lang::Os)
                                    }
                                }
                            }
                        }
                    } else {
                        if i < 132 {
                            if i < 129 {
                                if i < 127 {
                                    Some(Lang::Pa)
                                } else {
                                    if i < 128 {
                                        Some(Lang::Pi)
                                    } else {
                                        Some(Lang::Pl)
                                    }
                                }
                            } else {
                                if i < 130 {
                                    Some(Lang::Ps)
                                } else {
                                    if i < 131 {
                                        Some(Lang::Pt)
                                    } else {
                                        Some(Lang::Qu)
                                    }
                                }
                            }
                        } else {
                            if i < 135 {
                                if i < 133 {
                                    Some(Lang::Rm)
                                } else {
                                    if i < 134 {
                                        Some(Lang::Rn)
                                    } else {
                                        Some(Lang::Ro)
                                    }
                                }
                            } else {
                                if i < 136 {
                                    Some(Lang::Ru)
                                } else {
                                    if i < 137 {
                                        Some(Lang::Rw)
                                    } else {
                                        Some(Lang::Sa)
                                    }
                                }
                            }
                        }
                    }
                }
            } else {
                if i < 161 {
                    if i < 149 {
                        if i < 143 {
                            if i < 140 {
                                if i < 139 {
                                    Some(Lang::Sc)
                                } else {
                                    Some(Lang::Sd)
                                }
                            } else {
                                if i < 141 {
                                    Some(Lang::Se)
                                } else {
                                    if i < 142 {
                                        Some(Lang::Sg)
                                    } else {
                                        Some(Lang::Si)
                                    }
                                }
                            }
                        } else {
                            if i < 146 {
                                if i < 144 {
                                    Some(Lang::Sk)
                                } else {
                                    if i < 145 {
                                        Some(Lang::Sl)
                                    } else {
                                        Some(Lang::Sm)
                                    }
                                }
                            } else {
                                if i < 147 {
                                    Some(Lang::Sn)
                                } else {
                                    if i < 148 {
                                        Some(Lang::So)
                                    } else {
                                        Some(Lang::Sq)
                                    }
                                }
                            }
                        }
                    } else {
                        if i < 155 {
                            if i < 152 {
                                if i < 150 {
                                    Some(Lang::Sr)
                                } else {
                                    if i < 151 {
                                        Some(Lang::Ss)
                                    } else {
                                        Some(Lang::St)
                                    }
                                }
                            } else {
                                if i < 153 {
                                    Some(Lang::Su)
                                } else {
                                    if i < 154 {
                                        Some(Lang::Sv)
                                    } else {
                                        Some(Lang::Sw)
                                    }
                                }
                            }
                        } else {
                            if i < 158 {
                                if i < 156 {
                                    Some(Lang::Ta)
                                } else {
                                    if i < 157 {
                                        Some(Lang::Te)
                                    } else {
                                        Some(Lang::Tg)
                                    }
                                }
                            } else {
                                if i < 159 {
                                    Some(Lang::Th)
                                } else {
                                    if i < 160 {
                                        Some(Lang::Ti)
                                    } else {
                                        Some(Lang::Tk)
                                    }
                                }
                            }
                        }
                    }
                } else {
                    if i < 172 {
                        if i < 166 {
                            if i < 163 {
                                if i < 162 {
                                    Some(Lang::Tl)
                                } else {
                                    Some(Lang::Tn)
                                }
                            } else {
                                if i < 164 {
                                    Some(Lang::To)
                                } else {
                                    if i < 165 {
                                        Some(Lang::Tr)
                                    } else {
                                        Some(Lang::Ts)
                                    }
                                }
                            }
                        } else {
                            if i < 169 {
                                if i < 167 {
                                    Some(Lang::Tt)
                                } else {
                                    if i < 168 {
                                        Some(Lang::Tw)
                                    } else {
                                        Some(Lang::Ty)
                                    }
                                }
                            } else {
                                if i < 170 {
                                    Some(Lang::Ug)
                                } else {
                                    if i < 171 {
                                        Some(Lang::Uk)
                                    } else {
                                        Some(Lang::Ur)
                                    }
                                }
                            }
                        }
                    } else {
                        if i < 178 {
                            if i < 175 {
                                if i < 173 {
                                    Some(Lang::Uz)
                                } else {
                                    if i < 174 {
                                        Some(Lang::Ve)
                                    } else {
                                        Some(Lang::Vi)
                                    }
                                }
                            } else {
                                if i < 176 {
                                    Some(Lang::Vo)
                                } else {
                                    if i < 177 {
                                        Some(Lang::Wa)
                                    } else {
                                        Some(Lang::Wo)
                                    }
                                }
                            }
                        } else {
                            if i < 181 {
                                if i < 179 {
                                    Some(Lang::Xh)
                                } else {
                                    if i < 180 {
                                        Some(Lang::Yi)
                                    } else {
                                        Some(Lang::Yo)
                                    }
                                }
                            } else {
                                if i < 182 {
                                    Some(Lang::Za)
                                } else {
                                    if i < 183 {
                                        Some(Lang::Zh)
                                    } else {
                                        Some(Lang::Zu)
                                    }
                                }
                            }
                        }
                    }
                }
            }
        }
    }
}

/// Every Lang value sits at its own position of the table.
pub proof fn lemma_lang_index(x: Lang)
    ensures
        0 <= lang_index(x) < LANG_COUNT,
        lang_at(lang_index(x)) == Some(x),
{
}

impl Lang {
    /// Canonical code.
    pub fn as_str(&self) -> (r: &'static str)
        ensures
            r@ == lang_code(*self),
    {
        match self {
            Lang::Aa => "aa",
            Lang::Ab => "ab",
            Lang::Ae => "ae",
            Lang::Af => "af",
            Lang::Ak => "ak",
            Lang::Am => "am",
            Lang::An => "an",
            Lang::Ar => "ar",
            Lang::As => "as",
            Lang::Av => "av",
            Lang::Ay => "ay",
            Lang::Az => "az",
            Lang::Ba => "ba",
            Lang::Be => "be",
            Lang::Bg => "bg",
            Lang::Bh => "bh",
            Lang::Bi => "bi",
            Lang::Bm => "bm",
            Lang::Bn => "bn",
            Lang::Bo => "bo",
            Lang::Br => "br",
            Lang::Bs => "bs",
            Lang::Ca => "ca",
            Lang::Ce => "ce",
            Lang::Ch => "ch",
            Lang::Co => "co",
            Lang::Cr => "cr",
            Lang::Cs => "cs",
            Lang::Cu => "cu",
            Lang::Cv => "cv",
            Lang::Cy => "cy",
            Lang::Da => "da",
            Lang::De => "de",
            Lang::Dv => "dv",
            Lang::Dz => "dz",
            Lang::Ee => "ee",
            Lang::El => "el",
            Lang::En => "en",
            Lang::Eo => "eo",
            Lang::Es => "es",
            Lang::Et => "et",
            Lang::Eu => "eu",
            Lang::Fa => "fa",
            Lang::Ff => "ff",
            Lang::Fi => "fi",
            Lang::Fj => "fj",
            Lang::Fo => "fo",
            Lang::Fr => "fr",
            Lang::Fy => "fy",
            Lang::Ga => "ga",
            Lang::Gd => "gd",
            Lang::Gl => "gl",
            Lang::Gn => "gn",
            Lang::Gu => "gu",
            Lang::Gv => "gv",
            Lang::Ha => "ha",
            Lang::He => "he",
            Lang::Hi => "hi",
            Lang::Ho => "ho",
            Lang::Hr => "hr",
            Lang::Ht => "ht",
            Lang::Hu => "hu",
            Lang::Hy => "hy",
            Lang::Hz => "hz",
            Lang::Ia => "ia",
            Lang::Id => "id",
            Lang::Ie => "ie",
            Lang::Ig => "ig",
            Lang::Ii => "ii",
            Lang::Ik => "ik",
            Lang::Io => "io",
            Lang::Is => "is",
            Lang::It => "it",
            Lang::Iu => "iu",
            Lang::Ja => "ja",
            Lang::Jv => "jv",
            Lang::Ka => "ka",
            Lang::Kg => "kg",
            Lang::Ki => "ki",
            Lang::Kj => "kj",
            Lang::Kk => "kk",
            Lang::Kl => "kl",
            Lang::Km => "km",
            Lang::Kn => "kn",
            Lang::Ko => "ko",
            Lang::Kr => "kr",
            Lang::Ks => "ks",
            Lang::Ku => "ku",
            Lang::Kv => "kv",
            Lang::Kw => "kw",
            Lang::Ky => "ky",
            Lang::La => "la",
            Lang::Lb => "lb",
            Lang::Lg => "lg",
            Lang::Li => "li",
            Lang::Ln => "ln",
            Lang::Lo => "lo",
            Lang::Lt => "lt",
            Lang::Lu => "lu",
            Lang::Lv => "lv",
            Lang::Mg => "mg",
            Lang::Mh => "mh",
            Lang::Mi => "mi",
            Lang::Mk => "mk",
            Lang::Ml => "ml",
            Lang::Mn => "mn",
            Lang::Mr => "mr",
            Lang::Ms => "ms",
            Lang::Mt => "mt",
            Lang::My => "my",
            Lang::Na => "na",
            Lang::Nb => "nb",
            Lang::Nd => "nd",
            Lang::Ne => "ne",
            Lang::Ng => "ng",
            Lang::Nl => "nl",
            Lang::Nn => "nn",
            Lang::No => "no",
            Lang::Nr => "nr",
            Lang::Nv => "nv",
            Lang::Ny => "ny",
            Lang::Oc => "oc",
            Lang::Oj => "oj",
            Lang::Om => "om",
            Lang::Or => "or",
            Lang::Os => "os",
            Lang::Pa => "pa",
            Lang::Pi => "pi",
            Lang::Pl => "pl",
            Lang::Ps => "ps",
            Lang::Pt => "pt",
            Lang::Qu => "qu",
            Lang::Rm => "rm",
            Lang::Rn => "rn",
            Lang::Ro => "ro",
            Lang::Ru => "ru",
            Lang::Rw => "rw",
            Lang::Sa => "sa",
            Lang::Sc => "sc",
            Lang::Sd => "sd",
            Lang::Se => "se",
            Lang::Sg => "sg",
            Lang::Si => "si",
            Lang::Sk => "sk",
            Lang::Sl => "sl",
            Lang::Sm => "sm",
            Lang::Sn => "sn",
            Lang::So => "so",
            Lang::Sq => "sq",
            Lang::Sr => "sr",
            Lang::Ss => "ss",
            Lang::St => "st",
            Lang::Su => "su",
            Lang::Sv => "sv",
            Lang::Sw => "sw",
            Lang::Ta => "ta",
            Lang::Te => "te",
            Lang::Tg => "tg",
            Lang::Th => "th",
            Lang::Ti => "ti",
            Lang::Tk => "tk",
            Lang::Tl => "tl",
            Lang::Tn => "tn",
            Lang::To => "to",
            Lang::Tr => "tr",
            Lang::Ts => "ts",
            Lang::Tt => "tt",
            Lang::Tw => "tw",
            Lang::Ty => "ty",
            Lang::Ug => "ug",
            Lang::Uk => "uk",
            Lang::Ur => "ur",
            Lang::Uz => "uz",
            Lang::Ve => "ve",
            Lang::Vi => "vi",
            Lang::Vo => "vo",
            Lang::Wa => "wa",
            Lang::Wo => "wo",
            Lang::Xh => "xh",
            Lang::Yi => "yi",
            Lang::Yo => "yo",
            Lang::Za => "za",
            Lang::Zh => "zh",
            Lang::Zu => "zu",
        }
    }

    /// English name.
    pub fn english_name(&self) -> (r: &'static str)
        ensures
            r@ == lang_name(*self),
    {
        match self {
            Lang::Aa => "Afar",
            Lang::Ab => "Abkhazian",
            Lang::Ae => "Avestan",
            Lang::Af => "Afrikaans",
            Lang::Ak => "Akan",
            Lang::Am => "Amharic",
            Lang::An => "Aragonese",
            Lang::Ar => "Arabic",
            Lang::As => "Assamese",
            Lang::Av => "Avaric",
            Lang::Ay => "Aymara",
            Lang::Az => "Azerbaijani",
            Lang::Ba => "Bashkir",
            Lang::Be => "Belarusian",
            Lang::Bg => "Bulgarian",
            Lang::Bh => "Bihari languages",
            Lang::Bi => "Bislama",
            Lang::Bm => "Bambara",
            Lang::Bn => "Bengali",
            Lang::Bo => "Tibetan",
            Lang::Br => "Breton",
            Lang::Bs => "Bosnian",
            Lang::Ca => "Catalan",
            Lang::Ce => "Chechen",
            Lang::Ch => "Chamorro",
            Lang::Co => "Corsican",
            Lang::Cr => "Cree",
            Lang::Cs => "Czech",
            Lang::Cu => "Church Slavic",
            Lang::Cv => "Chuvash",
            Lang::Cy => "Welsh",
            Lang::Da => "Danish",
            Lang::De => "German",
            Lang::Dv => "Divehi",
            Lang::Dz => "Dzongkha",
            Lang::Ee => "Ewe",
            Lang::El => "Greek, Modern (1453-)",
            Lang::En => "English",
            Lang::Eo => "Esperanto",
            Lang::Es => "Spanish",
            Lang::Et => "Estonian",
            Lang::Eu => "Basque",
            Lang::Fa => "Persian",
            Lang::Ff => "Fulah",
            Lang::Fi => "Finnish",
            Lang::Fj => "Fijian",
            Lang::Fo => "Faroese",
            Lang::Fr => "French",
            Lang::Fy => "Western Frisian",
            Lang::Ga => "Irish",
            Lang::Gd => "Gaelic",
            Lang::Gl => "Galician",
            Lang::Gn => "Guarani",
            Lang::Gu => "Gujarati",
            Lang::Gv => "Manx",
            Lang::Ha => "Hausa",
            Lang::He => "Hebrew",
            Lang::Hi => "Hindi",
            Lang::Ho => "Hiri Motu",
            Lang::Hr => "Croatian",
            Lang::Ht => "Haitian",
            Lang::Hu => "Hungarian",
            Lang::Hy => "Armenian",
            Lang::Hz => "Herero",
            Lang::Ia => "Interlingua (International Auxiliary Language Association)",
            Lang::Id => "Indonesian",
            Lang::Ie => "Interlingue",
            Lang::Ig => "Igbo",
            Lang::Ii => "Sichuan Yi",
            Lang::Ik => "Inupiaq",
            Lang::Io => "Ido",
            Lang::Is => "Icelandic",
            Lang::It => "Italian",
            Lang::Iu => "Inuktitut",
            Lang::Ja => "Japanese",
            Lang::Jv => "Javanese",
            Lang::Ka => "Georgian",
            Lang::Kg => "Kongo",
            Lang::Ki => "Kikuyu",
            Lang::Kj => "Kuanyama",
            Lang::Kk => "Kazakh",
            Lang::Kl => "Kalaallisut",
            Lang::Km => "Central Khmer",
            Lang::Kn => "Kannada",
            Lang::Ko => "Korean",
            Lang::Kr => "Kanuri",
            Lang::Ks => "Kashmiri",
            Lang::Ku => "Kurdish",
            Lang::Kv => "Komi",
            Lang::Kw => "Cornish",
            Lang::Ky => "Kirghiz",
            Lang::La => "Latin",
            Lang::Lb => "Luxembourgish",
            Lang::Lg => "Ganda",
            Lang::Li => "Limburgan",
            Lang::Ln => "Lingala",
            Lang::Lo => "Lao",
            Lang::Lt => "Lithuanian",
            Lang::Lu => "Luba-Katanga",
            Lang::Lv => "Latvian",
            Lang::Mg => "Malagasy",
            Lang::Mh => "Marshallese",
            Lang::Mi => "Maori",
            Lang::Mk => "Macedonian",
            Lang::Ml => "Malayalam",
            Lang::Mn => "Mongolian",
            Lang::Mr => "Marathi",
            Lang::Ms => "Malay",
            Lang::Mt => "Maltese",
            Lang::My => "Burmese",
            Lang::Na => "Nauru",
            Lang::Nb => "Bokmål, Norwegian",
            Lang::Nd => "Ndebele, North",
            Lang::Ne => "Nepali",
            Lang::Ng => "Ndonga",
            Lang::Nl => "Dutch",
            Lang::Nn => "Norwegian Nynorsk",
            Lang::No => "Norwegian",
            Lang::Nr => "Ndebele, South",
            Lang::Nv => "Navajo",
            Lang::Ny => "Chichewa",
            Lang::Oc => "Occitan (post 1500)",
            Lang::Oj => "Ojibwa",
            Lang::Om => "Oromo",
            Lang::Or => "Oriya",
            Lang::Os => "Ossetian",
            Lang::Pa => "Panjabi",
            Lang::Pi => "Pali",
            Lang::Pl => "Polish",
            Lang::Ps => "Pushto",
            Lang::Pt => "Portuguese",
            Lang::Qu => "Quechua",
            Lang::Rm => "Romansh",
            Lang::Rn => "Rundi",
            Lang::Ro => "Romanian",
            Lang::Ru => "Russian",
            Lang::Rw => "Kinyarwanda",
            Lang::Sa => "Sanskrit",
            Lang::Sc => "Sardinian",
            Lang::Sd => "Sindhi",
            Lang::Se => "Northern Sami",
            Lang::Sg => "Sango",
            Lang::Si => "Sinhala",
            Lang::Sk => "Slovak",
            Lang::Sl => "Slovenian",
            Lang::Sm => "Samoan",
            Lang::Sn => "Shona",
            Lang::So => "Somali",
            Lang::Sq => "Albanian",
            Lang::Sr => "Serbian",
            Lang::Ss => "Swati",
            Lang::St => "Sotho, Southern",
            Lang::Su => "Sundanese",
            Lang::Sv => "Swedish",
            Lang::Sw => "Swahili",
            Lang::Ta => "Tamil",
            Lang::Te => "Telugu",
            Lang::Tg => "Tajik",
            Lang::Th => "Thai",
            Lang::Ti => "Tigrinya",
            Lang::Tk => "Turkmen",
            Lang::Tl => "Tagalog",
            Lang::Tn => "Tswana",
            Lang::To => "Tonga (Tonga Islands)",
            Lang::Tr => "Turkish",
            Lang::Ts => "Tsonga",
            Lang::Tt => "Tatar",
            Lang::Tw => "Twi",
            Lang::Ty => "Tahitian",
            Lang::Ug => "Uighur",
            Lang::Uk => "Ukrainian",
            Lang::Ur => "Urdu",
            Lang::Uz => "Uzbek",
            Lang::Ve => "Venda",
            Lang::Vi => "Vietnamese",
            Lang::Vo => "Volapük",
            Lang::Wa => "Walloon",
            Lang::Wo => "Wolof",
            Lang::Xh => "Xhosa",
            Lang::Yi => "Yiddish",
            Lang::Yo => "Yoruba",
            Lang::Za => "Zhuang",
            Lang::Zh => "Chinese",
            Lang::Zu => "Zulu",
        }
    }

    /// The value at position `i` of the table order.
    pub fn from_index(i: usize) -> (r: Option<Lang>)
        ensures
            r == lang_at(i as int),
            i < LANG_COUNT ==> r is Some,
    {
        if i >= 184 {
            None
        } else {
            if i < 92 {
                if i < 46 {
                    if i < 23 {
                        if i < 11 {
                            if i < 5 {
                                if i < 2 {
                                    if i < 1 {
                                        Some(Lang::Aa)
                                    } else {
                                        Some(Lang::Ab)
                                    }
                                } else {
                                    if i < 3 {
                                        Some(Lang::Ae)
                                    } else {
                                        if i < 4 {
                                            Some(Lang::Af)
                                        } else {
                                            Some(Lang::Ak)
                                        }
                                    }
                                }
                            } else {
                                if i < 8 {
                                    if i < 6 {
                                        Some(Lang::Am)
                                    } else {
                                        if i < 7 {
                                            Some(Lang::An)
                                        } else {
                                            Some(Lang::Ar)
                                        }
                                    }
                                } else {
                                    if i < 9 {
                                        Some(Lang::As)
                                    } else {
                                        if i < 10 {
                                            Some(Lang::Av)
                                        } else {
                                            Some(Lang::Ay)
                                        }
                                    }
                                }
                            }
                        } else {
                            if i < 17 {
                                if i < 14 {
                                    if i < 12 {
                                        Some(Lang::Az)
                                    } else {
                                        if i < 13 {
                                            Some(Lang::Ba)
                                        } else {
                                            Some(Lang::Be)
                                        }
                                    }
                                } else {
                                    if i < 15 {
                                        Some(Lang::Bg)
                                    } else {
                                        if i < 16 {
                                            Some(Lang::Bh)
                                        } else {
                                            Some(Lang::Bi)
                                        }
                                    }
                                }
                            } else {
                                if i < 20 {
                                    if i < 18 {
                                        Some(Lang::Bm)
                                    } else {
                                        if i < 19 {
                                            Some(Lang::Bn)
                                        } else {
                                            Some(Lang::Bo)
                                        }
                                    }
                                } else {
                                    if i < 21 {
                                        Some(Lang::Br)
                                    } else {
                                        if i < 22 {
                                            Some(Lang::Bs)
                                        } else {
                                            Some(Lang::Ca)
                                        }
                                    }
                                }
                            }
                        }
                    } else {
                        if i < 34 {
                            if i < 28 {
                                if i < 25 {
                                    if i < 24 {
                                        Some(Lang::Ce)
                                    } else {
                                        Some(Lang::Ch)
                                    }
                                } else {
                                    if i < 26 {
                                        Some(Lang::Co)
                                    } else {
                                        if i < 27 {
                                            Some(Lang::Cr)
                                        } else {
                                            Some(Lang::Cs)
                                        }
                                    }
                                }
                            } else {
                                if i < 31 {
                                    if i < 29 {
                                        Some(Lang::Cu)
                                    } else {
                                        if i < 30 {
                                            Some(Lang::Cv)
                                        } else {
                                            Some(Lang::Cy)
                                        }
                                    }
                                } else {
                                    if i < 32 {
                                        Some(Lang::Da)
                                    } else {
                                        if i < 33 {
                                            Some(Lang::De)
                                        } else {
                                            Some(Lang::Dv)
                                        }
                                    }
                                }
                            }
                        } else {
                            if i < 40 {
                                if i < 37 {
                                    if i < 35 {
                                        Some(Lang::Dz)
                                    } else {
                                        if i < 36 {
                                            Some(Lang::Ee)
                                        } else {
                                            Some(Lang::El)
                                        }
                                    }
                                } else {
                                    if i < 38 {
                                        Some(Lang::En)
                                    } else {
                                        if i < 39 {
                                            Some(Lang::Eo)
                                        } else {
                                            Some(Lang::Es)
                                        }
                                    }
                                }
                            } else {
                                if i < 43 {
                                    if i < 41 {
                                        Some(Lang::Et)
                                    } else {
                                        if i < 42 {
                                            Some(Lang::Eu)
                                        } else {
                                            Some(Lang::Fa)
                                        }
                                    }
                                } else {
                                    if i < 44 {
                                        Some(Lang::Ff)
                                    } else {
                                        if i < 45 {
                                            Some(Lang::Fi)
                                        } else {
                                            Some(Lang::Fj)
                                        }
                                    }
                                }
                            }
                        }
                    }
                } else {
                    if i < 69 {
                        if i < 57 {
                            if i < 51 {
                                if i < 48 {
                                    if i < 47 {
                                        Some(Lang::Fo)
                                    } else {
                                        Some(Lang::Fr)
                                    }
                                } else {
                                    if i < 49 {
                                        Some(Lang::Fy)
                                    } else {
                                        if i < 50 {
                                            Some(Lang::Ga)
                                        } else {
                                            Some(Lang::Gd)
                                        }
                                    }
                                }
                            } else {
                                if i < 54 {
                                    if i < 52 {
                                        Some(Lang::Gl)
                                    } else {
                                        if i < 53 {
                                            Some(Lang::Gn)
                                        } else {
                                            Some(Lang::Gu)
                                        }
                                    }
                                } else {
                                    if i < 55 {
                                        Some(Lang::Gv)
                                    } else {
                                        if i < 56 {
                                            Some(Lang::Ha)
                                        } else {
                                            Some(Lang::He)
                                        }
                                    }
                                }
                            }
                        } else {
                            if i < 63 {
                                if i < 60 {
                                    if i < 58 {
                                        Some(Lang::Hi)
                                    } else {
                                        if i < 59 {
                                            Some(Lang::Ho)
                                        } else {
                                            Some(Lang::Hr)
                                        }
                                    }
                                } else {
                                    if i < 61 {
                                        Some(Lang::Ht)
                                    } else {
                                        if i < 62 {
                                            Some(Lang::Hu)
                                        } else {
                                            Some(Lang::Hy)
                                        }
                                    }
                                }
                            } else {
                                if i < 66 {
                                    if i < 64 {
                                        Some(Lang::Hz)
                                    } else {
                                        if i < 65 {
                                            Some(Lang::Ia)
                                        } else {
                                            Some(Lang::Id)
                                        }
                                    }
                                } else {
                                    if i < 67 {
                                        Some(Lang::Ie)
                                    } else {
                                        if i < 68 {
                                            Some(Lang::Ig)
                                        } else {
                                            Some(Lang::Ii)
                                        }
                                    }
                                }
                            }
                        }
                    } else {
                        if i < 80 {
                            if i < 74 {
                                if i < 71 {
                                    if i < 70 {
                                        Some(Lang::Ik)
                                    } else {
                                        Some(Lang::Io)
                                    }
                                } else {
                                    if i < 72 {
                                        Some(Lang::Is)
                                    } else {
                                        if i < 73 {
                                            Some(Lang::It)
                                        } else {
                                            Some(Lang::Iu)
                                        }
                                    }
                                }
                            } else {
                                if i < 77 {
                                    if i < 75 {
                                        Some(Lang::Ja)
                                    } else {
                                        if i < 76 {
                                            Some(Lang::Jv)
                                        } else {
                                            Some(Lang::Ka)
                                        }
                                    }
                                } else {
                                    if i < 78 {
                                        Some(Lang::Kg)
                                    } else {
                                        if i < 79 {
                                            Some(Lang::Ki)
                                        } else {
                                            Some(Lang::Kj)
                                        }
                                    }
                                }
                            }
                        } else {
                            if i < 86 {
                                if i < 83 {
                                    if i < 81 {
                                        Some(Lang::Kk)
                                    } else {
                                        if i < 82 {
                                            Some(Lang::Kl)
                                        } else {
                                            Some(Lang::Km)
                                        }
                                    }
                                } else {
                                    if i < 84 {
                                        Some(Lang::Kn)
                                    } else {
                                        if i < 85 {
                                            Some(Lang::Ko)
                                        } else {
                                            Some(Lang::Kr)
                                        }
                                    }
                                }
                            } else {
                                if i < 89 {
                                    if i < 87 {
                                        Some(Lang::Ks)
                                    } else {
                                        if i < 88 {
                                            Some(Lang::Ku)
                                        } else {
                                            Some(Lang::Kv)
                                        }
                                    }
                                } else {
                                    if i < 90 {
                                        Some(Lang::Kw)
                                    } else {
                                        if i < 91 {
                                            Some(Lang::Ky)
                                        } else {
                                            Some(Lang::La)
                                        }
                                    }
                                }
                            }
                        }
                    }
                }
            } else {
                if i < 138 {
                    if i < 115 {
                        if i < 103 {
                            if i < 97 {
                                if i < 94 {
                                    if i < 93 {
                                        Some(Lang::Lb)
                                    } else {
                                        Some(Lang::Lg)
                                    }
                                } else {
                                    if i < 95 {
                                        Some(Lang::Li)
                                    } else {
                                        if i < 96 {
                                            Some(Lang::Ln)
                                        } else {
                                            Some(Lang::Lo)
                                        }
                                    }
                                }
                            } else {
                                if i < 100 {
                                    if i < 98 {
                                        Some(Lang::Lt)
                                    } else {
                                        if i < 99 {
                                            Some(Lang::Lu)
                                        } else {
                                            Some(Lang::Lv)
                                        }
                                    }
                                } else {
                                    if i < 101 {
                                        Some(Lang::Mg)
                                    } else {
                                        if i < 102 {
                                            Some(Lang::Mh)
                                        } else {
                                            Some(Lang::Mi)
                                        }
                                    }
                                }
                            }
                        } else {
                            if i < 109 {
                                if i < 106 {
                                    if i < 104 {
                                        Some(Lang::Mk)
                                    } else {
                                        if i < 105 {
                                            Some(Lang::Ml)
                                        } else {
                                            Some(Lang::Mn)
                                        }
                                    }
                                } else {
                                    if i < 107 {
                                        Some(Lang::Mr)
                                    } else {
                                        if i < 108 {
                                            Some(Lang::Ms)
                                        } else {
                                            Some(Lang::Mt)
                                        }
                                    }
                                }
                            } else {
                                if i < 112 {
                                    if i < 110 {
                                        Some(Lang::My)
                                    } else {
                                        if i < 111 {
                                            Some(Lang::Na)
                                        } else {
                                            Some(Lang::Nb)
                                        }
                                    }
                                } else {
                                    if i < 113 {
                                        Some(Lang::Nd)
                                    } else {
                                        if i < 114 {
                                            Some(Lang::Ne)
                                        } else {
                                            Some(Lang::Ng)
                                        }
                                    }
                                }
                            }
                        }
                    } else {
                        if i < 126 {
                            if i < 120 {
                                if i < 117 {
                                    if i < 116 {
                                        Some(Lang::Nl)
                                    } else {
                                        Some(Lang::Nn)
                                    }
                                } else {
                                    if i < 118 {
                                        Some(Lang::No)
                                    } else {
                                        if i < 119 {
                                            Some(Lang::Nr)
                                        } else {
                                            Some(Lang::Nv)
                                        }
                                    }
                                }
                            } else {
                                if i < 123 {
                                    if i < 121 {
                                        Some(Lang::Ny)
                                    } else {
                                        if i < 122 {
                                            Some(Lang::Oc)
                                        } else {
                                            Some(Lang::Oj)
                                        }
                                    }
                                } else {
                                    if i < 124 {
                                        Some(Lang::Om)
                                    } else {
                                        if i < 125 {
                                            Some(Lang::Or)
                                        } else {
                                            Some(Lang::Os)
                                        }
                                    }
                                }
                            }
                        } else {
                            if i < 132 {
                                if i < 129 {
                                    if i < 127 {
                                        Some(Lang::Pa)
                                    } else {
                                        if i < 128 {
                                            Some(Lang::Pi)
                                        } else {
                                            Some(Lang::Pl)
                                        }
                                    }
                                } else {
                                    if i < 130 {
                                        Some(Lang::Ps)
                                    } else {
                                        if i < 131 {
                                            Some(Lang::Pt)
                                        } else {
                                            Some(Lang::Qu)
                                        }
                                    }
                                }
                            } else {
                                if i < 135 {
                                    if i < 133 {
                                        Some(Lang::Rm)
                                    } else {
                                        if i < 134 {
                                            Some(Lang::Rn)
                                        } else {
                                            Some(Lang::Ro)
                                        }
                                    }
                                } else {
                                    if i < 136 {
                                        Some(Lang::Ru)
                                    } else {
                                        if i < 137 {
                                            Some(Lang::Rw)
                                        } else {
                                            Some(Lang::Sa)
                                        }
                                    }
                                }
                            }
                        }
                    }
                } else {
                    if i < 161 {
                        if i < 149 {
                            if i < 143 {
                                if i < 140 {
                                    if i < 139 {
                                        Some(Lang::Sc)
                                    } else {
                                        Some(Lang::Sd)
                                    }
                                } else {
                                    if i < 141 {
                                        Some(Lang::Se)
                                    } else {
                                        if i < 142 {
                                            Some(Lang::Sg)
                                        } else {
                                            Some(Lang::Si)
                                        }
                                    }
                                }
                            } else {
                                if i < 146 {
                                    if i < 144 {
                                        Some(Lang::Sk)
                                    } else {
                                        if i < 145 {
                                            Some(Lang::Sl)
                                        } else {
                                            Some(Lang::Sm)
                                        }
                                    }
                                } else {
                                    if i < 147 {
                                        Some(Lang::Sn)
                                    } else {
                                        if i < 148 {
                                            Some(Lang::So)
                                        } else {
                                            Some(Lang::Sq)
                                        }
                                    }
                                }
                            }
                        } else {
                            if i < 155 {
                                if i < 152 {
                                    if i < 150 {
                                        Some(Lang::Sr)
                                    } else {
                                        if i < 151 {
                                            Some(Lang::Ss)
                                        } else {
                                            Some(Lang::St)
                                        }
                                    }
                                } else {
                                    if i < 153 {
                                        Some(Lang::Su)
                                    } else {
                                        if i < 154 {
                                            Some(Lang::Sv)
                                        } else {
                                            Some(Lang::Sw)
                                        }
                                    }
                                }
                            } else {
                                if i < 158 {
                                    if i < 156 {
                                        Some(Lang::Ta)
                                    } else {
                                        if i < 157 {
                                            Some(Lang::Te)
                                        } else {
                                            Some(Lang::Tg)
                                        }
                                    }
                                } else {
                                    if i < 159 {
                                        Some(Lang::Th)
                                    } else {
                                        if i < 160 {
                                            Some(Lang::Ti)
                                        } else {
                                            Some(Lang::Tk)
                                        }
                                    }
                                }
                            }
                        }
                    } else {
                        if i < 172 {
                            if i < 166 {
                                if i < 163 {
                                    if i < 162 {
                                        Some(Lang::Tl)
                                    } else {
                                        Some(Lang::Tn)
                                    }
                                } else {
                                    if i < 164 {
                                        Some(Lang::To)
                                    } else {
                                        if i < 165 {
                                            Some(Lang::Tr)
                                        } else {
                                            Some(Lang::Ts)
                                        }
                                    }
                                }
                            } else {
                                if i < 169 {
                                    if i < 167 {
                                        Some(Lang::Tt)
                                    } else {
                                        if i < 168 {
                                            Some(Lang::Tw)
                                        } else {
                                            Some(Lang::Ty)
                                        }
                                    }
                                } else {
                                    if i < 170 {
                                        Some(Lang::Ug)
                                    } else {
                                        if i < 171 {
                                            Some(Lang::Uk)
                                        } else {
                                            Some(Lang::Ur)
                                        }
                                    }
                                }
                            }
                        } else {
                            if i < 178 {
                                if i < 175 {
                                    if i < 173 {
                                        Some(Lang::Uz)
                                    } else {
                                        if i < 174 {
                                            Some(Lang::Ve)
                                        } else {
                                            Some(Lang::Vi)
                                        }
                                    }
                                } else {
                                    if i < 176 {
                                        Some(Lang::Vo)
                                    } else {
                                        if i < 177 {
                                            Some(Lang::Wa)
                                        } else {
                                            Some(Lang::Wo)
                                        }
                                    }
                                }
                            } else {
                                if i < 181 {
                                    if i < 179 {
                                        Some(Lang::Xh)
                                    } else {
                                        if i < 180 {
                                            Some(Lang::Yi)
                                        } else {
                                            Some(Lang::Yo)
                                        }
                                    }
                                } else {
                                    if i < 182 {
                                        Some(Lang::Za)
                                    } else {
                                        if i < 183 {
                                            Some(Lang::Zh)
                                        } else {
                                            Some(Lang::Zu)
                                        }
                                    }
                                }
                            }
                        }
                    }
                }
            }
        }
    }

    /// Every value, in table order.
    pub fn all() -> (r: Vec<Lang>)
        ensures
            r@.len() == LANG_COUNT,
            forall|i: int| 0 <= i < LANG_COUNT ==> lang_at(i) == Some(#[trigger] r@[i]),
    {
        let mut r: Vec<Lang> = Vec::new();
        for i in 0..LANG_COUNT
            invariant
                r@.len() == i,
                forall|j: int| 0 <= j < i ==> lang_at(j) == Some(#[trigger] r@[j]),
        {
            let x = Lang::from_index(i).unwrap();
            r.push(x);
        }
        r
    }

    /// The value whose code is `s`, compared without regard to ASCII case.
    pub fn parse_code(s: &str) -> (r: Option<Lang>)
        ensures
            r matches Some(x) ==> lang_code(x) == ascii_lower(s@),
            r is None ==> forall|x: Lang| !(lang_code(x) == ascii_lower(s@)),
    {
        let chars = chars_of(s);
        let want = lower_chars(chars.as_slice());
        for i in 0..LANG_COUNT
            invariant
                want@ == ascii_lower(s@),
                forall|j: int| 0 <= j < i ==> !(lang_code(#[trigger] lang_at(j)->0) == ascii_lower(s@)),
        {
            let x = Lang::from_index(i).unwrap();
            let code = chars_of(x.as_str());
            if chars_eq(code.as_slice(), want.as_slice()) {
                return Some(x);
            }
        }
        assert forall|x: Lang| !(lang_code(x) == ascii_lower(s@)) by {
            lemma_lang_index(x);
            let j = lang_index(x);
            assert(lang_at(j)->0 == x);
        }
        None
    }
}

/// A BCP-47 language tag accepted by the Microsoft Store.
#[derive(Debug, Clone, Copy, PartialEq, Eq, Hash, Structural)]
pub enum LanguageTag {
    Af,
    AfZa,
    Am,
    AmEt,
    Ar,
    ArAe,
    ArBh,
    ArDz,
    ArEg,
    ArIq,
    ArJo,
    ArKw,
    ArLb,
    ArLy,
    ArMa,
    ArOm,
    ArQa,
    ArSa,
    ArSy,
    ArTn,
    ArYe,
    As,
    AsIn,
    Az,
    AzArab,
    AzArabAz,
    AzCyrl,
    AzCyrlAz,
    AzLatn,
    AzLatnAz,
    Be,
    BeBy,
    Bg,
    BgBg,
    Bn,
    BnBd,
    BnIn,
    Bs,
    BsCyrl,
    BsCyrlBa,
    BsLatn,
    BsLatnBa,
    Ca,
    CaEs,
    CaEsValencia,
    ChrCher,
    ChrCherUs,
    ChrLatn,
    Co,
    Cs,
    CsCz,
    Cy,
    CyGb,
    Da,
    DaDk,
    De,
    DeAt,
    DeCh,
    DeDe,
    DeLi,
    DeLu,
    El,
    ElGr,
    En,
    En011,
    En014,
    En018,
    En021,
    En029,
    En053,
    EnAu,
    EnBz,
    EnCa,
    EnGb,
    EnHk,
    EnId,
    EnIe,
    EnIn,
    EnJm,
    EnKz,
    EnMt,
    EnMy,
    EnNz,
    EnPh,
    EnPk,
    EnSg,
    EnTt,
    EnUs,
    EnVn,
    EnZa,
    EnZw,
    Es,
    Es019,
    Es419,
    EsAr,
    EsBo,
    EsCl,
    EsCo,
    EsCr,
    EsDo,
    EsEc,
    EsEs,
    EsGt,
    EsHn,
    EsMx,
    EsNi,
    EsPa,
    EsPe,
    EsPr,
    EsPy,
    EsSv,
    EsUs,
    EsUy,
    EsVe,
    Et,
    EtEe,
    Eu,
    EuEs,
    Fa,
    FaIr,
    Fi,
    FiFi,
    Fil,
    FilLatn,
    FilPh,
    Fr,
    Fr011,
    Fr015,
    Fr021,
    Fr029,
    Fr155,
    FrBe,
    FrCa,
    FrCd,
    FrCh,
    FrCi,
    FrCm,
    FrFr,
    FrHt,
    FrLu,
    FrMa,
    FrMc,
    FrMl,
    FrRe,
    FrcLatn,
    FrpLatn,
    Ga,
    GaIe,
    Gd,
    GdGb,
    GdLatn,
    Gl,
    GlEs,
    Gu,
    GuIn,
    Ha,
    HaLatn,
    HaLatnNg,
    He,
    HeIl,
    Hi,
    HiIn,
    Hr,
    HrBa,
    HrHr,
    Hu,
    HuHu,
    Hy,
    HyAm,
    Id,
    IdId,
    IgLatn,
    IgNg,
    Is,
    IsIs,
    It,
    ItCh,
    ItIt,
    IuCans,
    IuLatn,
    IuLatnCa,
    Ja,
    JaJp,
    Ka,
    KaGe,
    Kk,
    KkKz,
    Km,
    KmKh,
    Kn,
    KnIn,
    Ko,
    KoKr,
    Kok,
    KokIn,
    KuArab,
    KuArabIq,
    KyCyrl,
    KyKg,
    Lb,
    LbLu,
    Lo,
    LoLa,
    Lt,
    LtLt,
    Lv,
    LvLv,
    Mi,
    MiLatn,
    MiNz,
    Mk,
    MkMk,
    Ml,
    MlIn,
    MnCyrl,
    MnMn,
    MnMong,
    Mr,
    MrIn,
    Ms,
    MsBn,
    MsMy,
    Mt,
    MtMt,
    Nb,
    NbNo,
    Ne,
    NeNp,
    Nl,
    NlBe,
    NlNl,
    Nn,
    NnNo,
    Nso,
    NsoZa,
    Or,
    OrIn,
    Pa,
    PaArab,
    PaArabPk,
    PaDeva,
    PaIn,
    Pl,
    PlPl,
    Prs,
    PrsAf,
    PrsArab,
    Pt,
    PtBr,
    PtPt,
    QucLatn,
    QutGt,
    QutLatn,
    Quz,
    QuzBo,
    QuzEc,
    QuzPe,
    Ro,
    RoRo,
    Ru,
    RuRu,
    Rw,
    RwRw,
    SdArab,
    SdArabPk,
    SdDeva,
    Si,
    SiLk,
    Sk,
    SkSk,
    Sl,
    SlSi,
    Sq,
    SqAl,
    SrCyrl,
    SrCyrlBa,
    SrCyrlCs,
    SrCyrlMe,
    SrCyrlRs,
    SrLatn,
    SrLatnBa,
    SrLatnCs,
    SrLatnMe,
    SrLatnRs,
    Sv,
    SvFi,
    SvSe,
    Sw,
    SwKe,
    Ta,
    TaIn,
    Te,
    TeIn,
    TgArab,
    TgCyrl,
    TgCyrlTj,
    TgLatn,
    Th,
    ThTh,
    Ti,
    TiEt,
    TkCyrl,
    TkCyrlTr,
    TkLatn,
    TkLatnTr,
    TkTm,
    Tn,
    TnBw,
    TnZa,
    Tr,
    TrTr,
    TtArab,
    TtCyrl,
    TtLatn,
    TtRu,
    UgArab,
    UgCn,
    UgCyrl,
    UgLatn,
    Uk,
    UkUa,
    Ur,
    UrPk,
    Uz,
    UzCyrl,
    UzLatn,
    UzLatnUz,
    Vi,
    ViVn,
    Wo,
    WoSn,
    Xh,
    XhZa,
    YoLatn,
    YoNg,
    ZhHans,
    ZhHansCn,
    ZhHansSg,
    ZhHant,
    ZhHantHk,
    ZhHantMo,
    ZhHantTw,
    Zu,
    ZuZa,
}

/// Number of LanguageTag values.
pub const LANGUAGETAG_COUNT: usize = 344;

/// The canonical code of a LanguageTag value.
pub open spec fn tag_code(x: LanguageTag) -> Seq<char> {
    match x {
        LanguageTag::Af => "af"@,
        LanguageTag::AfZa => "af-ZA"@,
        LanguageTag::Am => "am"@,
        LanguageTag::AmEt => "am-ET"@,
        LanguageTag::Ar => "ar"@,
        LanguageTag::ArAe => "ar-AE"@,
        LanguageTag::ArBh => "ar-BH"@,
        LanguageTag::ArDz => "ar-DZ"@,
        LanguageTag::ArEg => "ar-EG"@,
        LanguageTag::ArIq => "ar-IQ"@,
        LanguageTag::ArJo => "ar-JO"@,
        LanguageTag::ArKw => "ar-KW"@,
        LanguageTag::ArLb => "ar-LB"@,
        LanguageTag::ArLy => "ar-LY"@,
        LanguageTag::ArMa => "ar-MA"@,
        LanguageTag::ArOm => "ar-OM"@,
        LanguageTag::ArQa => "ar-QA"@,
        LanguageTag::ArSa => "ar-SA"@,
        LanguageTag::ArSy => "ar-SY"@,
        LanguageTag::ArTn => "ar-TN"@,
        LanguageTag::ArYe => "ar-YE"@,
        LanguageTag::As => "as"@,
        LanguageTag::AsIn => "as-IN"@,
        LanguageTag::Az => "az"@,
        LanguageTag::AzArab => "az-Arab"@,
        LanguageTag::AzArabAz => "az-Arab-AZ"@,
        LanguageTag::AzCyrl => "az-Cyrl"@,
        LanguageTag::AzCyrlAz => "az-Cyrl-AZ"@,
        LanguageTag::AzLatn => "az-Latn"@,
        LanguageTag::AzLatnAz => "az-Latn-AZ"@,
        LanguageTag::Be => "be"@,
        LanguageTag::BeBy => "be-BY"@,
        LanguageTag::Bg => "bg"@,
        LanguageTag::BgBg => "bg-BG"@,
        LanguageTag::Bn => "bn"@,
        LanguageTag::BnBd => "bn-BD"@,
        LanguageTag::BnIn => "bn-IN"@,
        LanguageTag::Bs => "bs"@,
        LanguageTag::BsCyrl => "bs-Cyrl"@,
        LanguageTag::BsCyrlBa => "bs-Cyrl-BA"@,
        LanguageTag::BsLatn => "bs-Latn"@,
        LanguageTag::BsLatnBa => "bs-Latn-BA"@,
        LanguageTag::Ca => "ca"@,
        LanguageTag::CaEs => "ca-ES"@,
        LanguageTag::CaEsValencia => "ca-ES-valencia"@,
        LanguageTag::ChrCher => "chr-Cher"@,
        LanguageTag::ChrCherUs => "chr-Cher-US"@,
        LanguageTag::ChrLatn => "chr-Latn"@,
        LanguageTag::Co => "co"@,
        LanguageTag::Cs => "cs"@,
        LanguageTag::CsCz => "cs-CZ"@,
        LanguageTag::Cy => "cy"@,
        LanguageTag::CyGb => "cy-GB"@,
        LanguageTag::Da => "da"@,
        LanguageTag::DaDk => "da-DK"@,
        LanguageTag::De => "de"@,
        LanguageTag::DeAt => "de-AT"@,
        LanguageTag::DeCh => "de-CH"@,
        LanguageTag::DeDe => "de-DE"@,
        LanguageTag::DeLi => "de-LI"@,
        LanguageTag::DeLu => "de-LU"@,
        LanguageTag::El => "el"@,
        LanguageTag::ElGr => "el-GR"@,
        LanguageTag::En => "en"@,
        LanguageTag::En011 => "en-011"@,
        LanguageTag::En014 => "en-014"@,
        LanguageTag::En018 => "en-018"@,
        LanguageTag::En021 => "en-021"@,
        LanguageTag::En029 => "en-029"@,
        LanguageTag::En053 => "en-053"@,
        LanguageTag::EnAu => "en-AU"@,
        LanguageTag::EnBz => "en-BZ"@,
        LanguageTag::EnCa => "en-CA"@,
        LanguageTag::EnGb => "en-GB"@,
        LanguageTag::EnHk => "en-HK"@,
        LanguageTag::EnId => "en-ID"@,
        LanguageTag::EnIe => "en-IE"@,
        LanguageTag::EnIn => "en-IN"@,
        LanguageTag::EnJm => "en-JM"@,
        LanguageTag::EnKz => "en-KZ"@,
        LanguageTag::EnMt => "en-MT"@,
        LanguageTag::EnMy => "en-MY"@,
        LanguageTag::EnNz => "en-NZ"@,
        LanguageTag::EnPh => "en-PH"@,
        LanguageTag::EnPk => "en-PK"@,
        LanguageTag::EnSg => "en-SG"@,
        LanguageTag::EnTt => "en-TT"@,
        LanguageTag::EnUs => "en-US"@,
        LanguageTag::EnVn => "en-VN"@,
        LanguageTag::EnZa => "en-ZA"@,
        LanguageTag::EnZw => "en-ZW"@,
        LanguageTag::Es => "es"@,
        LanguageTag::Es019 => "es-019"@,
        LanguageTag::Es419 => "es-419"@,
        LanguageTag::EsAr => "es-AR"@,
        LanguageTag::EsBo => "es-BO"@,
        LanguageTag::EsCl => "es-CL"@,
        LanguageTag::EsCo => "es-CO"@,
        LanguageTag::EsCr => "es-CR"@,
        LanguageTag::EsDo => "es-DO"@,
        LanguageTag::EsEc => "es-EC"@,
        LanguageTag::EsEs => "es-ES"@,
        LanguageTag::EsGt => "es-GT"@,
        LanguageTag::EsHn => "es-HN"@,
        LanguageTag::EsMx => "es-MX"@,
        LanguageTag::EsNi => "es-NI"@,
        LanguageTag::EsPa => "es-PA"@,
        LanguageTag::EsPe => "es-PE"@,
        LanguageTag::EsPr => "es-PR"@,
        LanguageTag::EsPy => "es-PY"@,
        LanguageTag::EsSv => "es-SV"@,
        LanguageTag::EsUs => "es-US"@,
        LanguageTag::EsUy => "es-UY"@,
        LanguageTag::EsVe => "es-VE"@,
        LanguageTag::Et => "et"@,
        LanguageTag::EtEe => "et-EE"@,
        LanguageTag::Eu => "eu"@,
        LanguageTag::EuEs => "eu-ES"@,
        LanguageTag::Fa => "fa"@,
        LanguageTag::FaIr => "fa-IR"@,
        LanguageTag::Fi => "fi"@,
        LanguageTag::FiFi => "fi-FI"@,
        LanguageTag::Fil => "fil"@,
        LanguageTag::FilLatn => "fil-Latn"@,
        LanguageTag::FilPh => "fil-PH"@,
        LanguageTag::Fr => "fr"@,
        LanguageTag::Fr011 => "fr-011"@,
        LanguageTag::Fr015 => "fr-015"@,
        LanguageTag::Fr021 => "fr-021"@,
        LanguageTag::Fr029 => "fr-029"@,
        LanguageTag::Fr155 => "fr-155"@,
        LanguageTag::FrBe => "fr-BE"@,
        LanguageTag::FrCa => "fr-CA"@,
        LanguageTag::FrCd => "fr-CD"@,
        LanguageTag::FrCh => "fr-CH"@,
        LanguageTag::FrCi => "fr-CI"@,
        LanguageTag::FrCm => "fr-CM"@,
        LanguageTag::FrFr => "fr-FR"@,
        LanguageTag::FrHt => "fr-HT"@,
        LanguageTag::FrLu => "fr-LU"@,
        LanguageTag::FrMa => "fr-MA"@,
        LanguageTag::FrMc => "fr-MC"@,
        LanguageTag::FrMl => "fr-ML"@,
        LanguageTag::FrRe => "fr-RE"@,
        LanguageTag::FrcLatn => "frc-Latn"@,
        LanguageTag::FrpLatn => "frp-Latn"@,
        LanguageTag::Ga => "ga"@,
        LanguageTag::GaIe => "ga-IE"@,
        LanguageTag::Gd => "gd"@,
        LanguageTag::GdGb => "gd-GB"@,
        LanguageTag::GdLatn => "gd-Latn"@,
        LanguageTag::Gl => "gl"@,
        LanguageTag::GlEs => "gl-ES"@,
        LanguageTag::Gu => "gu"@,
        LanguageTag::GuIn => "gu-IN"@,
        LanguageTag::Ha => "ha"@,
        LanguageTag::HaLatn => "ha-Latn"@,
        LanguageTag::HaLatnNg => "ha-Latn-NG"@,
        LanguageTag::He => "he"@,
        LanguageTag::HeIl => "he-IL"@,
        LanguageTag::Hi => "hi"@,
        LanguageTag::HiIn => "hi-IN"@,
        LanguageTag::Hr => "hr"@,
        LanguageTag::HrBa => "hr-BA"@,
        LanguageTag::HrHr => "hr-HR"@,
        LanguageTag::Hu => "hu"@,
        LanguageTag::HuHu => "hu-HU"@,
        LanguageTag::Hy => "hy"@,
        LanguageTag::HyAm => "hy-AM"@,
        LanguageTag::Id => "id"@,
        LanguageTag::IdId => "id-ID"@,
        LanguageTag::IgLatn => "ig-Latn"@,
        LanguageTag::IgNg => "ig-NG"@,
        LanguageTag::Is => "is"@,
        LanguageTag::IsIs => "is-IS"@,
        LanguageTag::It => "it"@,
        LanguageTag::ItCh => "it-CH"@,
        LanguageTag::ItIt => "it-IT"@,
        LanguageTag::IuCans => "iu-Cans"@,
        LanguageTag::IuLatn => "iu-Latn"@,
        LanguageTag::IuLatnCa => "iu-Latn-CA"@,
        LanguageTag::Ja => "ja"@,
        LanguageTag::JaJp => "ja-JP"@,
        LanguageTag::Ka => "ka"@,
        LanguageTag::KaGe => "ka-GE"@,
        LanguageTag::Kk => "kk"@,
        LanguageTag::KkKz => "kk-KZ"@,
        LanguageTag::Km => "km"@,
        LanguageTag::KmKh => "km-KH"@,
        LanguageTag::Kn => "kn"@,
        LanguageTag::KnIn => "kn-IN"@,
        LanguageTag::Ko => "ko"@,
        LanguageTag::KoKr => "ko-KR"@,
        LanguageTag::Kok => "kok"@,
        LanguageTag::KokIn => "kok-IN"@,
        LanguageTag::KuArab => "ku-Arab"@,
        LanguageTag::KuArabIq => "ku-Arab-IQ"@,
        LanguageTag::KyCyrl => "ky-Cyrl"@,
        LanguageTag::KyKg => "ky-KG"@,
        LanguageTag::Lb => "lb"@,
        LanguageTag::LbLu => "lb-LU"@,
        LanguageTag::Lo => "lo"@,
        LanguageTag::LoLa => "lo-LA"@,
        LanguageTag::Lt => "lt"@,
        LanguageTag::LtLt => "lt-LT"@,
        LanguageTag::Lv => "lv"@,
        LanguageTag::LvLv => "lv-LV"@,
        LanguageTag::Mi => "mi"@,
        LanguageTag::MiLatn => "mi-Latn"@,
        LanguageTag::MiNz => "mi-NZ"@,
        LanguageTag::Mk => "mk"@,
        LanguageTag::MkMk => "mk-MK"@,
        LanguageTag::Ml => "ml"@,
        LanguageTag::MlIn => "ml-IN"@,
        LanguageTag::MnCyrl => "mn-Cyrl"@,
        LanguageTag::MnMn => "mn-MN"@,
        LanguageTag::MnMong => "mn-Mong"@,
        LanguageTag::Mr => "mr"@,
        LanguageTag::MrIn => "mr-IN"@,
        LanguageTag::Ms => "ms"@,
        LanguageTag::MsBn => "ms-BN"@,
        LanguageTag::MsMy => "ms-MY"@,
        LanguageTag::Mt => "mt"@,
        LanguageTag::MtMt => "mt-MT"@,
        LanguageTag::Nb => "nb"@,
        LanguageTag::NbNo => "nb-NO"@,
        LanguageTag::Ne => "ne"@,
        LanguageTag::NeNp => "ne-NP"@,
        LanguageTag::Nl => "nl"@,
        LanguageTag::NlBe => "nl-BE"@,
        LanguageTag::NlNl => "nl-NL"@,
        LanguageTag::Nn => "nn"@,
        LanguageTag::NnNo => "nn-NO"@,
        LanguageTag::Nso => "nso"@,
        LanguageTag::NsoZa => "nso-ZA"@,
        LanguageTag::Or => "or"@,
        LanguageTag::OrIn => "or-IN"@,
        LanguageTag::Pa => "pa"@,
        LanguageTag::PaArab => "pa-Arab"@,
        LanguageTag::PaArabPk => "pa-Arab-PK"@,
        LanguageTag::PaDeva => "pa-Deva"@,
        LanguageTag::PaIn => "pa-IN"@,
        LanguageTag::Pl => "pl"@,
        LanguageTag::PlPl => "pl-PL"@,
        LanguageTag::Prs => "prs"@,
        LanguageTag::PrsAf => "prs-AF"@,
        LanguageTag::PrsArab => "prs-Arab"@,
        LanguageTag::Pt => "pt"@,
        LanguageTag::PtBr => "pt-BR"@,
        LanguageTag::PtPt => "pt-PT"@,
        LanguageTag::QucLatn => "quc-Latn"@,
        LanguageTag::QutGt => "qut-GT"@,
        LanguageTag::QutLatn => "qut-Latn"@,
        LanguageTag::Quz => "quz"@,
        LanguageTag::QuzBo => "quz-BO"@,
        LanguageTag::QuzEc => "quz-EC"@,
        LanguageTag::QuzPe => "quz-PE"@,
        LanguageTag::Ro => "ro"@,
        LanguageTag::RoRo => "ro-RO"@,
        LanguageTag::Ru => "ru"@,
        LanguageTag::RuRu => "ru-RU"@,
        LanguageTag::Rw => "rw"@,
        LanguageTag::RwRw => "rw-RW"@,
        LanguageTag::SdArab => "sd-Arab"@,
        LanguageTag::SdArabPk => "sd-Arab-PK"@,
        LanguageTag::SdDeva => "sd-Deva"@,
        LanguageTag::Si => "si"@,
        LanguageTag::SiLk => "si-LK"@,
        LanguageTag::Sk => "sk"@,
        LanguageTag::SkSk => "sk-SK"@,
        LanguageTag::Sl => "sl"@,
        LanguageTag::SlSi => "sl-SI"@,
        LanguageTag::Sq => "sq"@,
        LanguageTag::SqAl => "sq-AL"@,
        LanguageTag::SrCyrl => "sr-Cyrl"@,
        LanguageTag::SrCyrlBa => "sr-Cyrl-BA"@,
        LanguageTag::SrCyrlCs => "sr-Cyrl-CS"@,
        LanguageTag::SrCyrlMe => "sr-Cyrl-ME"@,
        LanguageTag::SrCyrlRs => "sr-Cyrl-RS"@,
        LanguageTag::SrLatn => "sr-Latn"@,
        LanguageTag::SrLatnBa => "sr-Latn-BA"@,
        LanguageTag::SrLatnCs => "sr-Latn-CS"@,
        LanguageTag::SrLatnMe => "sr-Latn-ME"@,
        LanguageTag::SrLatnRs => "sr-Latn-RS"@,
        LanguageTag::Sv => "sv"@,
        LanguageTag::SvFi => "sv-FI"@,
        LanguageTag::SvSe => "sv-SE"@,
        LanguageTag::Sw => "sw"@,
        LanguageTag::SwKe => "sw-KE"@,
        LanguageTag::Ta => "ta"@,
        LanguageTag::TaIn => "ta-IN"@,
        LanguageTag::Te => "te"@,
        LanguageTag::TeIn => "te-IN"@,
        LanguageTag::TgArab => "tg-Arab"@,
        LanguageTag::TgCyrl => "tg-Cyrl"@,
        LanguageTag::TgCyrlTj => "tg-Cyrl-TJ"@,
        LanguageTag::TgLatn => "tg-Latn"@,
        LanguageTag::Th => "th"@,
        LanguageTag::ThTh => "th-TH"@,
        LanguageTag::Ti => "ti"@,
        LanguageTag::TiEt => "ti-ET"@,
        LanguageTag::TkCyrl => "tk-Cyrl"@,
        LanguageTag::TkCyrlTr => "tk-Cyrl-TR"@,
        LanguageTag::TkLatn => "tk-Latn"@,
        LanguageTag::TkLatnTr => "tk-Latn-TR"@,
        LanguageTag::TkTm => "tk-TM"@,
        LanguageTag::Tn => "tn"@,
        LanguageTag::TnBw => "tn-BW"@,
        LanguageTag::TnZa => "tn-ZA"@,
        LanguageTag::Tr => "tr"@,
        LanguageTag::TrTr => "tr-TR"@,
        LanguageTag::TtArab => "tt-Arab"@,
        LanguageTag::TtCyrl => "tt-Cyrl"@,
        LanguageTag::TtLatn => "tt-Latn"@,
        LanguageTag::TtRu => "tt-RU"@,
        LanguageTag::UgArab => "ug-Arab"@,
        LanguageTag::UgCn => "ug-CN"@,
        LanguageTag::UgCyrl => "ug-Cyrl"@,
        LanguageTag::UgLatn => "ug-Latn"@,
        LanguageTag::Uk => "uk"@,
        LanguageTag::UkUa => "uk-UA"@,
        LanguageTag::Ur => "ur"@,
        LanguageTag::UrPk => "ur-PK"@,
        LanguageTag::Uz => "uz"@,
        LanguageTag::UzCyrl => "uz-Cyrl"@,
        LanguageTag::UzLatn => "uz-Latn"@,
        LanguageTag::UzLatnUz => "uz-Latn-UZ"@,
        LanguageTag::Vi => "vi"@,
        LanguageTag::ViVn => "vi-VN"@,
        LanguageTag::Wo => "wo"@,
        LanguageTag::WoSn => "wo-SN"@,
        LanguageTag::Xh => "xh"@,
        LanguageTag::XhZa => "xh-ZA"@,
        LanguageTag::YoLatn => "yo-Latn"@,
        LanguageTag::YoNg => "yo-NG"@,
        LanguageTag::ZhHans => "zh-Hans"@,
        LanguageTag::ZhHansCn => "zh-Hans-CN"@,
        LanguageTag::ZhHansSg => "zh-Hans-SG"@,
        LanguageTag::ZhHant => "zh-Hant"@,
        LanguageTag::ZhHantHk => "zh-Hant-HK"@,
        LanguageTag::ZhHantMo => "zh-Hant-MO"@,
        LanguageTag::ZhHantTw => "zh-Hant-TW"@,
        LanguageTag::Zu => "zu"@,
        LanguageTag::ZuZa => "zu-ZA"@,
    }
}

/// The English name of a LanguageTag value.
pub open spec fn tag_name(x: LanguageTag) -> Seq<char> {
    match x {
        LanguageTag::Af => "Afrikaans"@,
        LanguageTag::AfZa => "Afrikaans"@,
        LanguageTag::Am => "Amharic"@,
        LanguageTag::AmEt => "Amharic"@,
        LanguageTag::Ar => "Arabic"@,
        LanguageTag::ArAe => "Arabic"@,
        LanguageTag::ArBh => "Arabic"@,
        LanguageTag::ArDz => "Arabic"@,
        LanguageTag::ArEg => "Arabic"@,
        LanguageTag::ArIq => "Arabic"@,
        LanguageTag::ArJo => "Arabic"@,
        LanguageTag::ArKw => "Arabic"@,
        LanguageTag::ArLb => "Arabic"@,
        LanguageTag::ArLy => "Arabic"@,
        LanguageTag::ArMa => "Arabic"@,
        LanguageTag::ArOm => "Arabic"@,
        LanguageTag::ArQa => "Arabic"@,
        LanguageTag::ArSa => "Arabic"@,
        LanguageTag::ArSy => "Arabic"@,
        LanguageTag::ArTn => "Arabic"@,
        LanguageTag::ArYe => "Arabic"@,
        LanguageTag::As => "Assamese"@,
        LanguageTag::AsIn => "Assamese"@,
        LanguageTag::Az => "Azerbaijani"@,
        LanguageTag::AzArab => "Azerbaijani"@,
        LanguageTag::AzArabAz => "Azerbaijani"@,
        LanguageTag::AzCyrl => "Azerbaijani"@,
        LanguageTag::AzCyrlAz => "Azerbaijani"@,
        LanguageTag::AzLatn => "Azerbaijani"@,
        LanguageTag::AzLatnAz => "Azerbaijani"@,
        LanguageTag::Be => "Belarusian"@,
        LanguageTag::BeBy => "Belarusian"@,
        LanguageTag::Bg => "Bulgarian"@,
        LanguageTag::BgBg => "Bulgarian"@,
        LanguageTag::Bn => "Bengali"@,
        LanguageTag::BnBd => "Bengali"@,
        LanguageTag::BnIn => "Bengali"@,
        LanguageTag::Bs => "Bosnian"@,
        LanguageTag::BsCyrl => "Bosnian"@,
        LanguageTag::BsCyrlBa => "Bosnian"@,
        LanguageTag::BsLatn => "Bosnian"@,
        LanguageTag::BsLatnBa => "Bosnian"@,
        LanguageTag::Ca => "Catalan"@,
        LanguageTag::CaEs => "Catalan"@,
        LanguageTag::CaEsValencia => "Catalan"@,
        LanguageTag::ChrCher => "Cherokee"@,
        LanguageTag::ChrCherUs => "Cherokee"@,
        LanguageTag::ChrLatn => "Cherokee"@,
        LanguageTag::Co => "Corsican"@,
        LanguageTag::Cs => "Czech"@,
        LanguageTag::CsCz => "Czech"@,
        LanguageTag::Cy => "Welsh"@,
        LanguageTag::CyGb => "Welsh"@,
        LanguageTag::Da => "Danish"@,
        LanguageTag::DaDk => "Danish"@,
        LanguageTag::De => "German"@,
        LanguageTag::DeAt => "German"@,
        LanguageTag::DeCh => "German"@,
        LanguageTag::DeDe => "German"@,
        LanguageTag::DeLi => "German"@,
        LanguageTag::DeLu => "German"@,
        LanguageTag::El => "Greek, Modern (1453-)"@,
        LanguageTag::ElGr => "Greek, Modern (1453-)"@,
        LanguageTag::En => "English"@,
        LanguageTag::En011 => "English"@,
        LanguageTag::En014 => "English"@,
        LanguageTag::En018 => "English"@,
        LanguageTag::En021 => "English"@,
        LanguageTag::En029 => "English"@,
        LanguageTag::En053 => "English"@,
        LanguageTag::EnAu => "English"@,
        LanguageTag::EnBz => "English"@,
        LanguageTag::EnCa => "English"@,
        LanguageTag::EnGb => "English"@,
        LanguageTag::EnHk => "English"@,
        LanguageTag::EnId => "English"@,
        LanguageTag::EnIe => "English"@,
        LanguageTag::EnIn => "English"@,
        LanguageTag::EnJm => "English"@,
        LanguageTag::EnKz => "English"@,
        LanguageTag::EnMt => "English"@,
        LanguageTag::EnMy => "English"@,
        LanguageTag::EnNz => "English"@,
        LanguageTag::EnPh => "English"@,
        LanguageTag::EnPk => "English"@,
        LanguageTag::EnSg => "English"@,
        LanguageTag::EnTt => "English"@,
        LanguageTag::EnUs => "English"@,
        LanguageTag::EnVn => "English"@,
        LanguageTag::EnZa => "English"@,
        LanguageTag::EnZw => "English"@,
        LanguageTag::Es => "Spanish"@,
        LanguageTag::Es019 => "Spanish"@,
        LanguageTag::Es419 => "Spanish"@,
        LanguageTag::EsAr => "Spanish"@,
        LanguageTag::EsBo => "Spanish"@,
        LanguageTag::EsCl => "Spanish"@,
        LanguageTag::EsCo => "Spanish"@,
        LanguageTag::EsCr => "Spanish"@,
        LanguageTag::EsDo => "Spanish"@,
        LanguageTag::EsEc => "Spanish"@,
        LanguageTag::EsEs => "Spanish"@,
        LanguageTag::EsGt => "Spanish"@,
        LanguageTag::EsHn => "Spanish"@,
        LanguageTag::EsMx => "Spanish"@,
        LanguageTag::EsNi => "Spanish"@,
        LanguageTag::EsPa => "Spanish"@,
        LanguageTag::EsPe => "Spanish"@,
        LanguageTag::EsPr => "Spanish"@,
        LanguageTag::EsPy => "Spanish"@,
        LanguageTag::EsSv => "Spanish"@,
        LanguageTag::EsUs => "Spanish"@,
        LanguageTag::EsUy => "Spanish"@,
        LanguageTag::EsVe => "Spanish"@,
        LanguageTag::Et => "Estonian"@,
        LanguageTag::EtEe => "Estonian"@,
        LanguageTag::Eu => "Basque"@,
        LanguageTag::EuEs => "Basque"@,
        LanguageTag::Fa => "Persian"@,
        LanguageTag::FaIr => "Persian"@,
        LanguageTag::Fi => "Finnish"@,
        LanguageTag::FiFi => "Finnish"@,
        LanguageTag::Fil => "Filipino"@,
        LanguageTag::FilLatn => "Filipino"@,
        LanguageTag::FilPh => "Filipino"@,
        LanguageTag::Fr => "French"@,
        LanguageTag::Fr011 => "French"@,
        LanguageTag::Fr015 => "French"@,
        LanguageTag::Fr021 => "French"@,
        LanguageTag::Fr029 => "French"@,
        LanguageTag::Fr155 => "French"@,
        LanguageTag::FrBe => "French"@,
        LanguageTag::FrCa => "French"@,
        LanguageTag::FrCd => "French"@,
        LanguageTag::FrCh => "French"@,
        LanguageTag::FrCi => "French"@,
        LanguageTag::FrCm => "French"@,
        LanguageTag::FrFr => "French"@,
        LanguageTag::FrHt => "French"@,
        LanguageTag::FrLu => "French"@,
        LanguageTag::FrMa => "French"@,
        LanguageTag::FrMc => "French"@,
        LanguageTag::FrMl => "French"@,
        LanguageTag::FrRe => "French"@,
        LanguageTag::FrcLatn => "Cajun French"@,
        LanguageTag::FrpLatn => "Arpitan"@,
        LanguageTag::Ga => "Irish"@,
        LanguageTag::GaIe => "Irish"@,
        LanguageTag::Gd => "Gaelic"@,
        LanguageTag::GdGb => "Gaelic"@,
        LanguageTag::GdLatn => "Gaelic"@,
        LanguageTag::Gl => "Galician"@,
        LanguageTag::GlEs => "Galician"@,
        LanguageTag::Gu => "Gujarati"@,
        LanguageTag::GuIn => "Gujarati"@,
        LanguageTag::Ha => "Hausa"@,
        LanguageTag::HaLatn => "Hausa"@,
        LanguageTag::HaLatnNg => "Hausa"@,
        LanguageTag::He => "Hebrew"@,
        LanguageTag::HeIl => "Hebrew"@,
        LanguageTag::Hi => "Hindi"@,
        LanguageTag::HiIn => "Hindi"@,
        LanguageTag::Hr => "Croatian"@,
        LanguageTag::HrBa => "Croatian"@,
        LanguageTag::HrHr => "Croatian"@,
        LanguageTag::Hu => "Hungarian"@,
        LanguageTag::HuHu => "Hungarian"@,
        LanguageTag::Hy => "Armenian"@,
        LanguageTag::HyAm => "Armenian"@,
        LanguageTag::Id => "Indonesian"@,
        LanguageTag::IdId => "Indonesian"@,
        LanguageTag::IgLatn => "Igbo"@,
        LanguageTag::IgNg => "Igbo"@,
        LanguageTag::Is => "Icelandic"@,
        LanguageTag::IsIs => "Icelandic"@,
        LanguageTag::It => "Italian"@,
        LanguageTag::ItCh => "Italian"@,
        LanguageTag::ItIt => "Italian"@,
        LanguageTag::IuCans => "Inuktitut"@,
        LanguageTag::IuLatn => "Inuktitut"@,
        LanguageTag::IuLatnCa => "Inuktitut"@,
        LanguageTag::Ja => "Japanese"@,
        LanguageTag::JaJp => "Japanese"@,
        LanguageTag::Ka => "Georgian"@,
        LanguageTag::KaGe => "Georgian"@,
        LanguageTag::Kk => "Kazakh"@,
        LanguageTag::KkKz => "Kazakh"@,
        LanguageTag::Km => "Central Khmer"@,
        LanguageTag::KmKh => "Central Khmer"@,
        LanguageTag::Kn => "Kannada"@,
        LanguageTag::KnIn => "Kannada"@,
        LanguageTag::Ko => "Korean"@,
        LanguageTag::KoKr => "Korean"@,
        LanguageTag::Kok => "Konkani (macrolanguage)"@,
        LanguageTag::KokIn => "Konkani (macrolanguage)"@,
        LanguageTag::KuArab => "Kurdish"@,
        LanguageTag::KuArabIq => "Kurdish"@,
        LanguageTag::KyCyrl => "Kirghiz"@,
        LanguageTag::KyKg => "Kirghiz"@,
        LanguageTag::Lb => "Luxembourgish"@,
        LanguageTag::LbLu => "Luxembourgish"@,
        LanguageTag::Lo => "Lao"@,
        LanguageTag::LoLa => "Lao"@,
        LanguageTag::Lt => "Lithuanian"@,
        LanguageTag::LtLt => "Lithuanian"@,
        LanguageTag::Lv => "Latvian"@,
        LanguageTag::LvLv => "Latvian"@,
        LanguageTag::Mi => "Maori"@,
        LanguageTag::MiLatn => "Maori"@,
        LanguageTag::MiNz => "Maori"@,
        LanguageTag::Mk => "Macedonian"@,
        LanguageTag::MkMk => "Macedonian"@,
        LanguageTag::Ml => "Malayalam"@,
        LanguageTag::MlIn => "Malayalam"@,
        LanguageTag::MnCyrl => "Mongolian"@,
        LanguageTag::MnMn => "Mongolian"@,
        LanguageTag::MnMong => "Mongolian"@,
        LanguageTag::Mr => "Marathi"@,
        LanguageTag::MrIn => "Marathi"@,
        LanguageTag::Ms => "Malay"@,
        LanguageTag::MsBn => "Malay"@,
        LanguageTag::MsMy => "Malay"@,
        LanguageTag::Mt => "Maltese"@,
        LanguageTag::MtMt => "Maltese"@,
        LanguageTag::Nb => "Bokmål, Norwegian"@,
        LanguageTag::NbNo => "Bokmål, Norwegian"@,
        LanguageTag::Ne => "Nepali"@,
        LanguageTag::NeNp => "Nepali"@,
        LanguageTag::Nl => "Dutch"@,
        LanguageTag::NlBe => "Dutch"@,
        LanguageTag::NlNl => "Dutch"@,
        LanguageTag::Nn => "Norwegian Nynorsk"@,
        LanguageTag::NnNo => "Norwegian Nynorsk"@,
        LanguageTag::Nso => "Pedi"@,
        LanguageTag::NsoZa => "Pedi"@,
        LanguageTag::Or => "Oriya"@,
        LanguageTag::OrIn => "Oriya"@,
        LanguageTag::Pa => "Panjabi"@,
        LanguageTag::PaArab => "Panjabi"@,
        LanguageTag::PaArabPk => "Panjabi"@,
        LanguageTag::PaDeva => "Panjabi"@,
        LanguageTag::PaIn => "Panjabi"@,
        LanguageTag::Pl => "Polish"@,
        LanguageTag::PlPl => "Polish"@,
        LanguageTag::Prs => "Dari"@,
        LanguageTag::PrsAf => "Dari"@,
        LanguageTag::PrsArab => "Dari"@,
        LanguageTag::Pt => "Portuguese"@,
        LanguageTag::PtBr => "Portuguese"@,
        LanguageTag::PtPt => "Portuguese"@,
        LanguageTag::QucLatn => "K'iche'"@,
        LanguageTag::QutGt => "qut"@,
        LanguageTag::QutLatn => "qut"@,
        LanguageTag::Quz => "Cusco Quechua"@,
        LanguageTag::QuzBo => "Cusco Quechua"@,
        LanguageTag::QuzEc => "Cusco Quechua"@,
        LanguageTag::QuzPe => "Cusco Quechua"@,
        LanguageTag::Ro => "Romanian"@,
        LanguageTag::RoRo => "Romanian"@,
        LanguageTag::Ru => "Russian"@,
        LanguageTag::RuRu => "Russian"@,
        LanguageTag::Rw => "Kinyarwanda"@,
        LanguageTag::RwRw => "Kinyarwanda"@,
        LanguageTag::SdArab => "Sindhi"@,
        LanguageTag::SdArabPk => "Sindhi"@,
        LanguageTag::SdDeva => "Sindhi"@,
        LanguageTag::Si => "Sinhala"@,
        LanguageTag::SiLk => "Sinhala"@,
        LanguageTag::Sk => "Slovak"@,
        LanguageTag::SkSk => "Slovak"@,
        LanguageTag::Sl => "Slovenian"@,
        LanguageTag::SlSi => "Slovenian"@,
        LanguageTag::Sq => "Albanian"@,
        LanguageTag::SqAl => "Albanian"@,
        LanguageTag::SrCyrl => "Serbian"@,
        LanguageTag::SrCyrlBa => "Serbian"@,
        LanguageTag::SrCyrlCs => "Serbian"@,
        LanguageTag::SrCyrlMe => "Serbian"@,
        LanguageTag::SrCyrlRs => "Serbian"@,
        LanguageTag::SrLatn => "Serbian"@,
        LanguageTag::SrLatnBa => "Serbian"@,
        LanguageTag::SrLatnCs => "Serbian"@,
        LanguageTag::SrLatnMe => "Serbian"@,
        LanguageTag::SrLatnRs => "Serbian"@,
        LanguageTag::Sv => "Swedish"@,
        LanguageTag::SvFi => "Swedish"@,
        LanguageTag::SvSe => "Swedish"@,
        LanguageTag::Sw => "Swahili"@,
        LanguageTag::SwKe => "Swahili"@,
        LanguageTag::Ta => "Tamil"@,
        LanguageTag::TaIn => "Tamil"@,
        LanguageTag::Te => "Telugu"@,
        LanguageTag::TeIn => "Telugu"@,
        LanguageTag::TgArab => "Tajik"@,
        LanguageTag::TgCyrl => "Tajik"@,
        LanguageTag::TgCyrlTj => "Tajik"@,
        LanguageTag::TgLatn => "Tajik"@,
        LanguageTag::Th => "Thai"@,
        LanguageTag::ThTh => "Thai"@,
        LanguageTag::Ti => "Tigrinya"@,
        LanguageTag::TiEt => "Tigrinya"@,
        LanguageTag::TkCyrl => "Turkmen"@,
        LanguageTag::TkCyrlTr => "Turkmen"@,
        LanguageTag::TkLatn => "Turkmen"@,
        LanguageTag::TkLatnTr => "Turkmen"@,
        LanguageTag::TkTm => "Turkmen"@,
        LanguageTag::Tn => "Tswana"@,
        LanguageTag::TnBw => "Tswana"@,
        LanguageTag::TnZa => "Tswana"@,
        LanguageTag::Tr => "Turkish"@,
        LanguageTag::TrTr => "Turkish"@,
        LanguageTag::TtArab => "Tatar"@,
        LanguageTag::TtCyrl => "Tatar"@,
        LanguageTag::TtLatn => "Tatar"@,
        LanguageTag::TtRu => "Tatar"@,
        LanguageTag::UgArab => "Uighur"@,
        LanguageTag::UgCn => "Uighur"@,
        LanguageTag::UgCyrl => "Uighur"@,
        LanguageTag::UgLatn => "Uighur"@,
        LanguageTag::Uk => "Ukrainian"@,
        LanguageTag::UkUa => "Ukrainian"@,
        LanguageTag::Ur => "Urdu"@,
        LanguageTag::UrPk => "Urdu"@,
        LanguageTag::Uz => "Uzbek"@,
        LanguageTag::UzCyrl => "Uzbek"@,
        LanguageTag::UzLatn => "Uzbek"@,
        LanguageTag::UzLatnUz => "Uzbek"@,
        LanguageTag::Vi => "Vietnamese"@,
        LanguageTag::ViVn => "Vietnamese"@,
        LanguageTag::Wo => "Wolof"@,
        LanguageTag::WoSn => "Wolof"@,
        LanguageTag::Xh => "Xhosa"@,
        LanguageTag::XhZa => "Xhosa"@,
        LanguageTag::YoLatn => "Yoruba"@,
        LanguageTag::YoNg => "Yoruba"@,
        LanguageTag::ZhHans => "Chinese (Simplified)"@,
        LanguageTag::ZhHansCn => "Chinese (Simplified)"@,
        LanguageTag::ZhHansSg => "Chinese (Simplified)"@,
        LanguageTag::ZhHant => "Chinese (Traditional)"@,
        LanguageTag::ZhHantHk => "Chinese (Traditional)"@,
        LanguageTag::ZhHantMo => "Chinese (Traditional)"@,
        LanguageTag::ZhHantTw => "Chinese (Traditional)"@,
        LanguageTag::Zu => "Zulu"@,
        LanguageTag::ZuZa => "Zulu"@,
    }
}

/// The position of a LanguageTag value in the table order.
pub open spec fn tag_index(x: LanguageTag) -> int {
    match x {
        LanguageTag::Af => 0,
        LanguageTag::AfZa => 1,
        LanguageTag::Am => 2,
        LanguageTag::AmEt => 3,
        LanguageTag::Ar => 4,
        LanguageTag::ArAe => 5,
        LanguageTag::ArBh => 6,
        LanguageTag::ArDz => 7,
        LanguageTag::ArEg => 8,
        LanguageTag::ArIq => 9,
        LanguageTag::ArJo => 10,
        LanguageTag::ArKw => 11,
        LanguageTag::ArLb => 12,
        LanguageTag::ArLy => 13,
        LanguageTag::ArMa => 14,
        LanguageTag::ArOm => 15,
        LanguageTag::ArQa => 16,
        LanguageTag::ArSa => 17,
        LanguageTag::ArSy => 18,
        LanguageTag::ArTn => 19,
        LanguageTag::ArYe => 20,
        LanguageTag::As => 21,
        LanguageTag::AsIn => 22,
        LanguageTag::Az => 23,
        LanguageTag::AzArab => 24,
        LanguageTag::AzArabAz => 25,
        LanguageTag::AzCyrl => 26,
        LanguageTag::AzCyrlAz => 27,
        LanguageTag::AzLatn => 28,
        LanguageTag::AzLatnAz => 29,
        LanguageTag::Be => 30,
        LanguageTag::BeBy => 31,
        LanguageTag::Bg => 32,
        LanguageTag::BgBg => 33,
        LanguageTag::Bn => 34,
        LanguageTag::BnBd => 35,
        LanguageTag::BnIn => 36,
        LanguageTag::Bs => 37,
        LanguageTag::BsCyrl => 38,
        LanguageTag::BsCyrlBa => 39,
        LanguageTag::BsLatn => 40,
        LanguageTag::BsLatnBa => 41,
        LanguageTag::Ca => 42,
        LanguageTag::CaEs => 43,
        LanguageTag::CaEsValencia => 44,
        LanguageTag::ChrCher => 45,
        LanguageTag::ChrCherUs => 46,
        LanguageTag::ChrLatn => 47,
        LanguageTag::Co => 48,
        LanguageTag::Cs => 49,
        LanguageTag::CsCz => 50,
        LanguageTag::Cy => 51,
        LanguageTag::CyGb => 52,
        LanguageTag::Da => 53,
        LanguageTag::DaDk => 54,
        LanguageTag::De => 55,
        LanguageTag::DeAt => 56,
        LanguageTag::DeCh => 57,
        LanguageTag::DeDe => 58,
        LanguageTag::DeLi => 59,
        LanguageTag::DeLu => 60,
        LanguageTag::El => 61,
        LanguageTag::ElGr => 62,
        LanguageTag::En => 63,
        LanguageTag::En011 => 64,
        LanguageTag::En014 => 65,
        LanguageTag::En018 => 66,
        LanguageTag::En021 => 67,
        LanguageTag::En029 => 68,
        LanguageTag::En053 => 69,
        LanguageTag::EnAu => 70,
        LanguageTag::EnBz => 71,
        LanguageTag::EnCa => 72,
        LanguageTag::EnGb => 73,
        LanguageTag::EnHk => 74,
        LanguageTag::EnId => 75,
        LanguageTag::EnIe => 76,
        LanguageTag::EnIn => 77,
        LanguageTag::EnJm => 78,
        LanguageTag::EnKz => 79,
        LanguageTag::EnMt => 80,
        LanguageTag::EnMy => 81,
        LanguageTag::EnNz => 82,
        LanguageTag::EnPh => 83,
        LanguageTag::EnPk => 84,
        LanguageTag::EnSg => 85,
        LanguageTag::EnTt => 86,
        LanguageTag::EnUs => 87,
        LanguageTag::EnVn => 88,
        LanguageTag::EnZa => 89,
        LanguageTag::EnZw => 90,
        LanguageTag::Es => 91,
        LanguageTag::Es019 => 92,
        LanguageTag::Es419 => 93,
        LanguageTag::EsAr => 94,
        LanguageTag::EsBo => 95,
        LanguageTag::EsCl => 96,
        LanguageTag::EsCo => 97,
        LanguageTag::EsCr => 98,
        LanguageTag::EsDo => 99,
        LanguageTag::EsEc => 100,
        LanguageTag::EsEs => 101,
        LanguageTag::EsGt => 102,
        LanguageTag::EsHn => 103,
        LanguageTag::EsMx => 104,
        LanguageTag::EsNi => 105,
        LanguageTag::EsPa => 106,
        LanguageTag::EsPe => 107,
        LanguageTag::EsPr => 108,
        LanguageTag::EsPy => 109,
        LanguageTag::EsSv => 110,
        LanguageTag::EsUs => 111,
        LanguageTag::EsUy => 112,
        LanguageTag::EsVe => 113,
        LanguageTag::Et => 114,
        LanguageTag::EtEe => 115,
        LanguageTag::Eu => 116,
        LanguageTag::EuEs => 117,
        LanguageTag::Fa => 118,
        LanguageTag::FaIr => 119,
        LanguageTag::Fi => 120,
        LanguageTag::FiFi => 121,
        LanguageTag::Fil => 122,
        LanguageTag::FilLatn => 123,
        LanguageTag::FilPh => 124,
        LanguageTag::Fr => 125,
        LanguageTag::Fr011 => 126,
        LanguageTag::Fr015 => 127,
        LanguageTag::Fr021 => 128,
        LanguageTag::Fr029 => 129,
        LanguageTag::Fr155 => 130,
        LanguageTag::FrBe => 131,
        LanguageTag::FrCa => 132,
        LanguageTag::FrCd => 133,
        LanguageTag::FrCh => 134,
        LanguageTag::FrCi => 135,
        LanguageTag::FrCm => 136,
        LanguageTag::FrFr => 137,
        LanguageTag::FrHt => 138,
        LanguageTag::FrLu => 139,
        LanguageTag::FrMa => 140,
        LanguageTag::FrMc => 141,
        LanguageTag::FrMl => 142,
        LanguageTag::FrRe => 143,
        LanguageTag::FrcLatn => 144,
        LanguageTag::FrpLatn => 145,
        LanguageTag::Ga => 146,
        LanguageTag::GaIe => 147,
        LanguageTag::Gd => 148,
        LanguageTag::GdGb => 149,
        LanguageTag::GdLatn => 150,
        LanguageTag::Gl => 151,
        LanguageTag::GlEs => 152,
        LanguageTag::Gu => 153,
        LanguageTag::GuIn => 154,
        LanguageTag::Ha => 155,
        LanguageTag::HaLatn => 156,
        LanguageTag::HaLatnNg => 157,
        LanguageTag::He => 158,
        LanguageTag::HeIl => 159,
        LanguageTag::Hi => 160,
        LanguageTag::HiIn => 161,
        LanguageTag::Hr => 162,
        LanguageTag::HrBa => 163,
        LanguageTag::HrHr => 164,
        LanguageTag::Hu => 165,
        LanguageTag::HuHu => 166,
        LanguageTag::Hy => 167,
        LanguageTag::HyAm => 168,
        LanguageTag::Id => 169,
        LanguageTag::IdId => 170,
        LanguageTag::IgLatn => 171,
        LanguageTag::IgNg => 172,
        LanguageTag::Is => 173,
        LanguageTag::IsIs => 174,
        LanguageTag::It => 175,
        LanguageTag::ItCh => 176,
        LanguageTag::ItIt => 177,
        LanguageTag::IuCans => 178,
        LanguageTag::IuLatn => 179,
        LanguageTag::IuLatnCa => 180,
        LanguageTag::Ja => 181,
        LanguageTag::JaJp => 182,
        LanguageTag::Ka => 183,
        LanguageTag::KaGe => 184,
        LanguageTag::Kk => 185,
        LanguageTag::KkKz => 186,
        LanguageTag::Km => 187,
        LanguageTag::KmKh => 188,
        LanguageTag::Kn => 189,
        LanguageTag::KnIn => 190,
        LanguageTag::Ko => 191,
        LanguageTag::KoKr => 192,
        LanguageTag::Kok => 193,
        LanguageTag::KokIn => 194,
        LanguageTag::KuArab => 195,
        LanguageTag::KuArabIq => 196,
        LanguageTag::KyCyrl => 197,
        LanguageTag::KyKg => 198,
        LanguageTag::Lb => 199,
        LanguageTag::LbLu => 200,
        LanguageTag::Lo => 201,
        LanguageTag::LoLa => 202,
        LanguageTag::Lt => 203,
        LanguageTag::LtLt => 204,
        LanguageTag::Lv => 205,
        LanguageTag::LvLv => 206,
        LanguageTag::Mi => 207,
        LanguageTag::MiLatn => 208,
        LanguageTag::MiNz => 209,
        LanguageTag::Mk => 210,
        LanguageTag::MkMk => 211,
        LanguageTag::Ml => 212,
        LanguageTag::MlIn => 213,
        LanguageTag::MnCyrl => 214,
        LanguageTag::MnMn => 215,
        LanguageTag::MnMong => 216,
        LanguageTag::Mr => 217,
        LanguageTag::MrIn => 218,
        LanguageTag::Ms => 219,
        LanguageTag::MsBn => 220,
        LanguageTag::MsMy => 221,
        LanguageTag::Mt => 222,
        LanguageTag::MtMt => 223,
        LanguageTag::Nb => 224,
        LanguageTag::NbNo => 225,
        LanguageTag::Ne => 226,
        LanguageTag::NeNp => 227,
        LanguageTag::Nl => 228,
        LanguageTag::NlBe => 229,
        LanguageTag::NlNl => 230,
        LanguageTag::Nn => 231,
        LanguageTag::NnNo => 232,
        LanguageTag::Nso => 233,
        LanguageTag::NsoZa => 234,
        LanguageTag::Or => 235,
        LanguageTag::OrIn => 236,
        LanguageTag::Pa => 237,
        LanguageTag::PaArab => 238,
        LanguageTag::PaArabPk => 239,
        LanguageTag::PaDeva => 240,
        LanguageTag::PaIn => 241,
        LanguageTag::Pl => 242,
        LanguageTag::PlPl => 243,
        LanguageTag::Prs => 244,
        LanguageTag::PrsAf => 245,
        LanguageTag::PrsArab => 246,
        LanguageTag::Pt => 247,
        LanguageTag::PtBr => 248,
        LanguageTag::PtPt => 249,
        LanguageTag::QucLatn => 250,
        LanguageTag::QutGt => 251,
        LanguageTag::QutLatn => 252,
        LanguageTag::Quz => 253,
        LanguageTag::QuzBo => 254,
        LanguageTag::QuzEc => 255,
        LanguageTag::QuzPe => 256,
        LanguageTag::Ro => 257,
        LanguageTag::RoRo => 258,
        LanguageTag::Ru => 259,
        LanguageTag::RuRu => 260,
        LanguageTag::Rw => 261,
        LanguageTag::RwRw => 262,
        LanguageTag::SdArab => 263,
        LanguageTag::SdArabPk => 264,
        LanguageTag::SdDeva => 265,
        LanguageTag::Si => 266,
        LanguageTag::SiLk => 267,
        LanguageTag::Sk => 268,
        LanguageTag::SkSk => 269,
        LanguageTag::Sl => 270,
        LanguageTag::SlSi => 271,
        LanguageTag::Sq => 272,
        LanguageTag::SqAl => 273,
        LanguageTag::SrCyrl => 274,
        LanguageTag::SrCyrlBa => 275,
        LanguageTag::SrCyrlCs => 276,
        LanguageTag::SrCyrlMe => 277,
        LanguageTag::SrCyrlRs => 278,
        LanguageTag::SrLatn => 279,
        LanguageTag::SrLatnBa => 280,
        LanguageTag::SrLatnCs => 281,
        LanguageTag::SrLatnMe => 282,
        LanguageTag::SrLatnRs => 283,
        LanguageTag::Sv => 284,
        LanguageTag::SvFi => 285,
        LanguageTag::SvSe => 286,
        LanguageTag::Sw => 287,
        LanguageTag::SwKe => 288,
        LanguageTag::Ta => 289,
        LanguageTag::TaIn => 290,
        LanguageTag::Te => 291,
        LanguageTag::TeIn => 292,
        LanguageTag::TgArab => 293,
        LanguageTag::TgCyrl => 294,
        LanguageTag::TgCyrlTj => 295,
        LanguageTag::TgLatn => 296,
        LanguageTag::Th => 297,
        LanguageTag::ThTh => 298,
        LanguageTag::Ti => 299,
        LanguageTag::TiEt => 300,
        LanguageTag::TkCyrl => 301,
        LanguageTag::TkCyrlTr => 302,
        LanguageTag::TkLatn => 303,
        LanguageTag::TkLatnTr => 304,
        LanguageTag::TkTm => 305,
        LanguageTag::Tn => 306,
        LanguageTag::TnBw => 307,
        LanguageTag::TnZa => 308,
        LanguageTag::Tr => 309,
        LanguageTag::TrTr => 310,
        LanguageTag::TtArab => 311,
        LanguageTag::TtCyrl => 312,
        LanguageTag::TtLatn => 313,
        LanguageTag::TtRu => 314,
        LanguageTag::UgArab => 315,
        LanguageTag::UgCn => 316,
        LanguageTag::UgCyrl => 317,
        LanguageTag::UgLatn => 318,
        LanguageTag::Uk => 319,
        LanguageTag::UkUa => 320,
        LanguageTag::Ur => 321,
        LanguageTag::UrPk => 322,
        LanguageTag::Uz => 323,
        LanguageTag::UzCyrl => 324,
        LanguageTag::UzLatn => 325,
        LanguageTag::UzLatnUz => 326,
        LanguageTag::Vi => 327,
        LanguageTag::ViVn => 328,
        LanguageTag::Wo => 329,
        LanguageTag::WoSn => 330,
        LanguageTag::Xh => 331,
        LanguageTag::XhZa => 332,
        LanguageTag::YoLatn => 333,
        LanguageTag::YoNg => 334,
        LanguageTag::ZhHans => 335,
        LanguageTag::ZhHansCn => 336,
        LanguageTag::ZhHansSg => 337,
        LanguageTag::ZhHant => 338,
        LanguageTag::ZhHantHk => 339,
        LanguageTag::ZhHantMo => 340,
        LanguageTag::ZhHantTw => 341,
        LanguageTag::Zu => 342,
        LanguageTag::ZuZa => 343,
    }
}

/// The LanguageTag value at a position of the table order.
pub open spec fn tag_at(i: int) -> Option<LanguageTag> {
    if i < 0 || i >= 344 {
        None
    } else {
        if i < 172 {
            if i < 86 {
                if i < 43 {
                    if i < 21 {
                        if i < 10 {
                            if i < 5 {
                                if i < 2 {
                                    if i < 1 {
                                        Some(LanguageTag::Af)
                                    } else {
                                        Some(LanguageTag::AfZa)
                                    }
                                } else {
                                    if i < 3 {
                                        Some(LanguageTag::Am)
                                    } else {
                                        if i < 4 {
                                            Some(LanguageTag::AmEt)
                                        } else {
                                            Some(LanguageTag::Ar)
                                        }
                                    }
                                }
                            } else {
                                if i < 7 {
                                    if i < 6 {
                                        Some(LanguageTag::ArAe)
                                    } else {
                                        Some(LanguageTag::ArBh)
                                    }
                                } else {
                                    if i < 8 {
                                        Some(LanguageTag::ArDz)
                                    } else {
                                        if i < 9 {
                                            Some(LanguageTag::ArEg)
                                        } else {
                                            Some(LanguageTag::ArIq)
                                        }
                                    }
                                }
                            }
                        } else {
                            if i < 15 {
                                if i < 12 {
                                    if i < 11 {
                                        Some(LanguageTag::ArJo)
                                    } else {
                                        Some(LanguageTag::ArKw)
                                    }
                                } else {
                                    if i < 13 {
                                        Some(LanguageTag::ArLb)
                                    } else {
                                        if i < 14 {
                                            Some(LanguageTag::ArLy)
                                        } else {
                                            Some(LanguageTag::ArMa)
                                        }
                                    }
                                }
                            } else {
                                if i < 18 {
                                    if i < 16 {
                                        Some(LanguageTag::ArOm)
                                    } else {
                                        if i < 17 {
                                            Some(LanguageTag::ArQa)
                                        } else {
                                            Some(LanguageTag::ArSa)
                                        }
                                    }
                                } else {
                                    if i < 19 {
                                        Some(LanguageTag::ArSy)
                                    } else {
                                        if i < 20 {
                                            Some(LanguageTag::ArTn)
                                        } else {
                                            Some(LanguageTag::ArYe)
                                        }
                                    }
                                }
                            }
                        }
                    } else {
                        if i < 32 {
                            if i < 26 {
                                if i < 23 {
                                    if i < 22 {
                                        Some(LanguageTag::As)
                                    } else {
                                        Some(LanguageTag::AsIn)
                                    }
                                } else {
                                    if i < 24 {
                                        Some(LanguageTag::Az)
                                    } else {
                                        if i < 25 {
                                            Some(LanguageTag::AzArab)
                                        } else {
                                            Some(LanguageTag::AzArabAz)
                                        }
                                    }
                                }
                            } else {
                                if i < 29 {
                                    if i < 27 {
                                        Some(LanguageTag::AzCyrl)
                                    } else {
                                        if i < 28 {
                                            Some(LanguageTag::AzCyrlAz)
                                        } else {
                                            Some(LanguageTag::AzLatn)
                                        }
                                    }
                                } else {
                                    if i < 30 {
                                        Some(LanguageTag::AzLatnAz)
                                    } else {
                                        if i < 31 {
                                            Some(LanguageTag::Be)
                                        } else {
                                            Some(LanguageTag::BeBy)
                                        }
                                    }
                                }
                            }
                        } else {
                            if i < 37 {
                                if i < 34 {
                                    if i < 33 {
                                        Some(LanguageTag::Bg)
                                    } else {
                                        Some(LanguageTag::BgBg)
                                    }
                                } else {
                                    if i < 35 {
                                        Some(LanguageTag::Bn)
                                    } else {
                                        if i < 36 {
                                            Some(LanguageTag::BnBd)
                                        } else {
                                            Some(LanguageTag::BnIn)
                                        }
                                    }
                                }
                            } else {
                                if i < 40 {
                                    if i < 38 {
                                        Some(LanguageTag::Bs)
                                    } else {
                                        if i < 39 {
                                            Some(LanguageTag::BsCyrl)
                                        } else {
                                            Some(LanguageTag::BsCyrlBa)
                                        }
                                    }
                                } else {
                                    if i < 41 {
                                        Some(LanguageTag::BsLatn)
                                    } else {
                                        if i < 42 {
                                            Some(LanguageTag::BsLatnBa)
                                        } else {
                                            Some(LanguageTag::Ca)
                                        }
                                    }
                                }
                            }
                        }
                    }
                } else {
                    if i < 64 {
                        if i < 53 {
                            if i < 48 {
                                if i < 45 {
                                    if i < 44 {
                                        Some(LanguageTag::CaEs)
                                    } else {
                                        Some(LanguageTag::CaEsValencia)
                                    }
                                } else {
                                    if i < 46 {
                                        Some(LanguageTag::ChrCher)
                                    } else {
                                        if i < 47 {
                                            Some(LanguageTag::ChrCherUs)
                                        } else {
                                            Some(LanguageTag::ChrLatn)
                                        }
                                    }
                                }
                            } else {
                                if i < 50 {
                                    if i < 49 {
                                        Some(LanguageTag::Co)
                                    } else {
                                        Some(LanguageTag::Cs)
                                    }
                                } else {
                                    if i < 51 {
                                        Some(LanguageTag::CsCz)
                                    } else {
                                        if i < 52 {
                                            Some(LanguageTag::Cy)
                                        } else {
                                            Some(LanguageTag::CyGb)
                                        }
                                    }
                                }
                            }
                        } else {
                            if i < 58 {
                                if i < 55 {
                                    if i < 54 {
                                        Some(LanguageTag::Da)
                                    } else {
                                        Some(LanguageTag::DaDk)
                                    }
                                } else {
                                    if i < 56 {
                                        Some(LanguageTag::De)
                                    } else {
                                        if i < 57 {
                                            Some(LanguageTag::DeAt)
                                        } else {
                                            Some(LanguageTag::DeCh)
                                        }
                                    }
                                }
                            } else {
                                if i < 61 {
                                    if i < 59 {
                                        Some(LanguageTag::DeDe)
                                    } else {
                                        if i < 60 {
                                            Some(LanguageTag::DeLi)
                                        } else {
                                            Some(LanguageTag::DeLu)
                                        }
                                    }
                                } else {
                                    if i < 62 {
                                        Some(LanguageTag::El)
                                    } else {
                                        if i < 63 {
                                            Some(LanguageTag::ElGr)
                                        } else {
                                            Some(LanguageTag::En)
                                        }
                                    }
                                }
                            }
                        }
                    } else {
                        if i < 75 {
                            if i < 69 {
                                if i < 66 {
                                    if i < 65 {
                                        Some(LanguageTag::En011)
                                    } else {
                                        Some(LanguageTag::En014)
                                    }
                                } else {
                                    if i < 67 {
                                        Some(LanguageTag::En018)
                                    } else {
                                        if i < 68 {
                                            Some(LanguageTag::En021)
                                        } else {
                                            Some(LanguageTag::En029)
                                        }
                                    }
                                }
                            } else {
                                if i < 72 {
                                    if i < 70 {
                                        Some(LanguageTag::En053)
                                    } else {
                                        if i < 71 {
                                            Some(LanguageTag::EnAu)
                                        } else {
                                            Some(LanguageTag::EnBz)
                                        }
                                    }
                                } else {
                                    if i < 73 {
                                        Some(LanguageTag::EnCa)
                                    } else {
                                        if i < 74 {
                                            Some(LanguageTag::EnGb)
                                        } else {
                                            Some(LanguageTag::EnHk)
                                        }
                                    }
                                }
                            }
                        } else {
                            if i < 80 {
                                if i < 77 {
                                    if i < 76 {
                                        Some(LanguageTag::EnId)
                                    } else {
                                        Some(LanguageTag::EnIe)
                                    }
                                } else {
                                    if i < 78 {
                                        Some(LanguageTag::EnIn)
                                    } else {
                                        if i < 79 {
                                            Some(LanguageTag::EnJm)
                                        } else {
                                            Some(LanguageTag::EnKz)
                                        }
                                    }
                                }
                            } else {
                                if i < 83 {
                                    if i < 81 {
                                        Some(LanguageTag::EnMt)
                                    } else {
                                        if i < 82 {
                                            Some(LanguageTag::EnMy)
                                        } else {
                                            Some(LanguageTag::EnNz)
                                        }
                                    }
                                } else {
                                    if i < 84 {
                                        Some(LanguageTag::EnPh)
                                    } else {
                                        if i < 85 {
                                            Some(LanguageTag::EnPk)
                                        } else {
                                            Some(LanguageTag::EnSg)
                                        }
                                    }
                                }
                            }
                        }
                    }
                }
            } else {
                if i < 129 {
                    if i < 107 {
                        if i < 96 {
                            if i < 91 {
                                if i < 88 {
                                    if i < 87 {
                                        Some(LanguageTag::EnTt)
                                    } else {
                                        Some(LanguageTag::EnUs)
                                    }
                                } else {
                                    if i < 89 {
                                        Some(LanguageTag::EnVn)
                                    } else {
                                        if i < 90 {
                                            Some(LanguageTag::EnZa)
                                        } else {
                                            Some(LanguageTag::EnZw)
                                        }
                                    }
                                }
                            } else {
                                if i < 93 {
                                    if i < 92 {
                                        Some(LanguageTag::Es)
                                    } else {
                                        Some(LanguageTag::Es019)
                                    }
                                } else {
                                    if i < 94 {
                                        Some(LanguageTag::Es419)
                                    } else {
                                        if i < 95 {
                                            Some(LanguageTag::EsAr)
                                        } else {
                                            Some(LanguageTag::EsBo)
                                        }
                                    }
                                }
                            }
                        } else {
                            if i < 101 {
                                if i < 98 {
                                    if i < 97 {
                                        Some(LanguageTag::EsCl)
                                    } else {
                                        Some(LanguageTag::EsCo)
                                    }
                                } else {
                                    if i < 99 {
                                        Some(LanguageTag::EsCr)
                                    } else {
                                        if i < 100 {
                                            Some(LanguageTag::EsDo)
                                        } else {
                                            Some(LanguageTag::EsEc)
                                        }
                                    }
                                }
                            } else {
                                if i < 104 {
                                    if i < 102 {
                                        Some(LanguageTag::EsEs)
                                    } else {
                                        if i < 103 {
                                            Some(LanguageTag::EsGt)
                                        } else {
                                            Some(LanguageTag::EsHn)
                                        }
                                    }
                                } else {
                                    if i < 105 {
                                        Some(LanguageTag::EsMx)
                                    } else {
                                        if i < 106 {
                                            Some(LanguageTag::EsNi)
                                        } else {
                                            Some(LanguageTag::EsPa)
                                        }
                                    }
                                }
                            }
                        }
                    } else {
                        if i < 118 {
                            if i < 112 {
                                if i < 109 {
                                    if i < 108 {
                                        Some(LanguageTag::EsPe)
                                    } else {
                                        Some(LanguageTag::EsPr)
                                    }
                                } else {
                                    if i < 110 {
                                        Some(LanguageTag::EsPy)
                                    } else {
                                        if i < 111 {
                                            Some(LanguageTag::EsSv)
                                        } else {
                                            Some(LanguageTag::EsUs)
                                        }
                                    }
                                }
                            } else {
                                if i < 115 {
                                    if i < 113 {
                                        Some(LanguageTag::EsUy)
                                    } else {
                                        if i < 114 {
                                            Some(LanguageTag::EsVe)
                                        } else {
                                            Some(LanguageTag::Et)
                                        }
                                    }
                                } else {
                                    if i < 116 {
                                        Some(LanguageTag::EtEe)
                                    } else {
                                        if i < 117 {
                                            Some(LanguageTag::Eu)
                                        } else {
                                            Some(LanguageTag::EuEs)
                                        }
                                    }
                                }
                            }
                        } else {
                            if i < 123 {
                                if i < 120 {
                                    if i < 119 {
                                        Some(LanguageTag::Fa)
                                    } else {
                                        Some(LanguageTag::FaIr)
                                    }
                                } else {
                                    if i < 121 {
                                        Some(LanguageTag::Fi)
                                    } else {
                                        if i < 122 {
                                            Some(LanguageTag::FiFi)
                                        } else {
                                            Some(LanguageTag::Fil)
                                        }
                                    }
                                }
                            } else {
                                if i < 126 {
                                    if i < 124 {
                                        Some(LanguageTag::FilLatn)
                                    } else {
                                        if i < 125 {
                                            Some(LanguageTag::FilPh)
                                        } else {
                                            Some(LanguageTag::Fr)
                                        }
                                    }
                                } else {
                                    if i < 127 {
                                        Some(LanguageTag::Fr011)
                                    } else {
                                        if i < 128 {
                                            Some(LanguageTag::Fr015)
                                        } else {
                                            Some(LanguageTag::Fr021)
                                        }
                                    }
                                }
                            }
                        }
                    }
                } else {
                    if i < 150 {
                        if i < 139 {
                            if i < 134 {
                                if i < 131 {
                                    if i < 130 {
                                        Some(LanguageTag::Fr029)
                                    } else {
                                        Some(LanguageTag::Fr155)
                                    }
                                } else {
                                    if i < 132 {
                                        Some(LanguageTag::FrBe)
                                    } else {
                                        if i < 133 {
                                            Some(LanguageTag::FrCa)
                                        } else {
                                            Some(LanguageTag::FrCd)
                                        }
                                    }
                                }
                            } else {
                                if i < 136 {
                                    if i < 135 {
                                        Some(LanguageTag::FrCh)
                                    } else {
                                        Some(LanguageTag::FrCi)
                                    }
                                } else {
                                    if i < 137 {
                                        Some(LanguageTag::FrCm)
                                    } else {
                                        if i < 138 {
                                            Some(LanguageTag::FrFr)
                                        } else {
                                            Some(LanguageTag::FrHt)
                                        }
                                    }
                                }
                            }
                        } else {
                            if i < 144 {
                                if i < 141 {
                                    if i < 140 {
                                        Some(LanguageTag::FrLu)
                                    } else {
                                        Some(LanguageTag::FrMa)
                                    }
                                } else {
                                    if i < 142 {
                                        Some(LanguageTag::FrMc)
                                    } else {
                                        if i < 143 {
                                            Some(LanguageTag::FrMl)
                                        } else {
                                            Some(LanguageTag::FrRe)
                                        }
                                    }
                                }
                            } else {
                                if i < 147 {
                                    if i < 145 {
                                        Some(LanguageTag::FrcLatn)
                                    } else {
                                        if i < 146 {
                                            Some(LanguageTag::FrpLatn)
                                        } else {
                                            Some(LanguageTag::Ga)
                                        }
                                    }
                                } else {
                                    if i < 148 {
                                        Some(LanguageTag::GaIe)
                                    } else {
                                        if i < 149 {
                                            Some(LanguageTag::Gd)
                                        } else {
                                            Some(LanguageTag::GdGb)
                                        }
                                    }
                                }
                            }
                        }
                    } else {
                        if i < 161 {
                            if i < 155 {
                                if i < 152 {
                                    if i < 151 {
                                        Some(LanguageTag::GdLatn)
                                    } else {
                                        Some(LanguageTag::Gl)
                                    }
                                } else {
                                    if i < 153 {
                                        Some(LanguageTag::GlEs)
                                    } else {
                                        if i < 154 {
                                            Some(LanguageTag::Gu)
                                        } else {
                                            Some(LanguageTag::GuIn)
                                        }
                                    }
                                }
                            } else {
                                if i < 158 {
                                    if i < 156 {
                                        Some(LanguageTag::Ha)
                                    } else {
                                        if i < 157 {
                                            Some(LanguageTag::HaLatn)
                                        } else {
                                            Some(LanguageTag::HaLatnNg)
                                        }
                                    }
                                } else {
                                    if i < 159 {
                                        Some(LanguageTag::He)
                                    } else {
                                        if i < 160 {
                                            Some(LanguageTag::HeIl)
                                        } else {
                                            Some(LanguageTag::Hi)
                                        }
                                    }
                                }
                            }
                        } else {
                            if i < 166 {
                                if i < 163 {
                                    if i < 162 {
                                        Some(LanguageTag::HiIn)
                                    } else {
                                        Some(LanguageTag::Hr)
                                    }
                                } else {
                                    if i < 164 {
                                        Some(LanguageTag::HrBa)
                                    } else {
                                        if i < 165 {
                                            Some(LanguageTag::HrHr)
                                        } else {
                                            Some(LanguageTag::Hu)
                                        }
                                    }
                                }
                            } else {
                                if i < 169 {
                                    if i < 167 {
                                        Some(LanguageTag::HuHu)
                                    } else {
                                        if i < 168 {
                                            Some(LanguageTag::Hy)
                                        } else {
                                            Some(LanguageTag::HyAm)
                                        }
                                    }
                                } else {
                                    if i < 170 {
                                        Some(LanguageTag::Id)
                                    } else {
                                        if i < 171 {
                                            Some(LanguageTag::IdId)
                                        } else {
                                            Some(LanguageTag::IgLatn)
                                        }
                                    }
                                }
                            }
                        }
                    }
                }
            }
        } else {
            if i < 258 {
                if i < 215 {
                    if i < 193 {
                        if i < 182 {
                            if i < 177 {
                                if i < 174 {
                                    if i < 173 {
                                        Some(LanguageTag::IgNg)
                                    } else {
                                        Some(LanguageTag::Is)
                                    }
                                } else {
                                    if i < 175 {
                                        Some(LanguageTag::IsIs)
                                    } else {
                                        if i < 176 {
                                            Some(LanguageTag::It)
                                        } else {
                                            Some(LanguageTag::ItCh)
                                        }
                                    }
                                }
                            } else {
                                if i < 179 {
                                    if i < 178 {
                                        Some(LanguageTag::ItIt)
                                    } else {
                                        Some(LanguageTag::IuCans)
                                    }
                                } else {
                                    if i < 180 {
                                        Some(LanguageTag::IuLatn)
                                    } else {
                                        if i < 181 {
                                            Some(LanguageTag::IuLatnCa)
                                        } else {
                                            Some(LanguageTag::Ja)
                                        }
                                    }
                                }
                            }
                        } else {
                            if i < 187 {
                                if i < 184 {
                                    if i < 183 {
                                        Some(LanguageTag::JaJp)
                                    } else {
                                        Some(LanguageTag::Ka)
                                    }
                                } else {
                                    if i < 185 {
                                        Some(LanguageTag::KaGe)
                                    } else {
                                        if i < 186 {
                                            Some(LanguageTag::Kk)
                                        } else {
                                            Some(LanguageTag::KkKz)
                                        }
                                    }
                                }
                            } else {
                                if i < 190 {
                                    if i < 188 {
                                        Some(LanguageTag::Km)
                                    } else {
                                        if i < 189 {
                                            Some(LanguageTag::KmKh)
                                        } else {
                                            Some(LanguageTag::Kn)
                                        }
                                    }
                                } else {
                                    if i < 191 {
                                        Some(LanguageTag::KnIn)
                                    } else {
                                        if i < 192 {
                                            Some(LanguageTag::Ko)
                                        } else {
                                            Some(LanguageTag::KoKr)
                                        }
                                    }
                                }
                            }
                        }
                    } else {
                        if i < 204 {
                            if i < 198 {
                                if i < 195 {
                                    if i < 194 {
                                        Some(LanguageTag::Kok)
                                    } else {
                                        Some(LanguageTag::KokIn)
                                    }
                                } else {
                                    if i < 196 {
                                        Some(LanguageTag::KuArab)
                                    } else {
                                        if i < 197 {
                                            Some(LanguageTag::KuArabIq)
                                        } else {
                                            Some(LanguageTag::KyCyrl)
                                        }
                                    }
                                }
                            } else {
                                if i < 201 {
                                    if i < 199 {
                                        Some(LanguageTag::KyKg)
                                    } else {
                                        if i < 200 {
                                            Some(LanguageTag::Lb)
                                        } else {
                                            Some(LanguageTag::LbLu)
                                        }
                                    }
                                } else {
                                    if i < 202 {
                                        Some(LanguageTag::Lo)
                                    } else {
                                        if i < 203 {
                                            Some(LanguageTag::LoLa)
                                        } else {
                                            Some(LanguageTag::Lt)
                                        }
                                    }
                                }
                            }
                        } else {
                            if i < 209 {
                                if i < 206 {
                                    if i < 205 {
                                        Some(LanguageTag::LtLt)
                                    } else {
                                        Some(LanguageTag::Lv)
                                    }
                                } else {
                                    if i < 207 {
                                        Some(LanguageTag::LvLv)
                                    } else {
                                        if i < 208 {
                                            Some(LanguageTag::Mi)
                                        } else {
                                            Some(LanguageTag::MiLatn)
                                        }
                                    }
                                }
                            } else {
                                if i < 212 {
                                    if i < 210 {
                                        Some(LanguageTag::MiNz)
                                    } else {
                                        if i < 211 {
                                            Some(LanguageTag::Mk)
                                        } else {
                                            Some(LanguageTag::MkMk)
                                        }
                                    }
                                } else {
                                    if i < 213 {
                                        Some(LanguageTag::Ml)
                                    } else {
                                        if i < 214 {
                                            Some(LanguageTag::MlIn)
                                        } else {
                                            Some(LanguageTag::MnCyrl)
                                        }
                                    }
                                }
                            }
                        }
                    }
                } else {
                    if i < 236 {
                        if i < 225 {
                            if i < 220 {
                                if i < 217 {
                                    if i < 216 {
                                        Some(LanguageTag::MnMn)
                                    } else {
                                        Some(LanguageTag::MnMong)
                                    }
                                } else {
                                    if i < 218 {
                                        Some(LanguageTag::Mr)
                                    } else {
                                        if i < 219 {
                                            Some(LanguageTag::MrIn)
                                        } else {
                                            Some(LanguageTag::Ms)
                                        }
                                    }
                                }
                            } else {
                                if i < 222 {
                                    if i < 221 {
                                        Some(LanguageTag::MsBn)
                                    } else {
                                        Some(LanguageTag::MsMy)
                                    }
                                } else {
                                    if i < 223 {
                                        Some(LanguageTag::Mt)
                                    } else {
                                        if i < 224 {
                                            Some(LanguageTag::MtMt)
                                        } else {
                                            Some(LanguageTag::Nb)
                                        }
                                    }
                                }
                            }
                        } else {
                            if i < 230 {
                                if i < 227 {
                                    if i < 226 {
                                        Some(LanguageTag::NbNo)
                                    } else {
                                        Some(LanguageTag::Ne)
                                    }
                                } else {
                                    if i < 228 {
                                        Some(LanguageTag::NeNp)
                                    } else {
                                        if i < 229 {
                                            Some(LanguageTag::Nl)
                                        } else {
                                            Some(LanguageTag::NlBe)
                                        }
                                    }
                                }
                            } else {
                                if i < 233 {
                                    if i < 231 {
                                        Some(LanguageTag::NlNl)
                                    } else {
                                        if i < 232 {
                                            Some(LanguageTag::Nn)
                                        } else {
                                            Some(LanguageTag::NnNo)
                                        }
                                    }
                                } else {
                                    if i < 234 {
                                        Some(LanguageTag::Nso)
                                    } else {
                                        if i < 235 {
                                            Some(LanguageTag::NsoZa)
                                        } else {
                                            Some(LanguageTag::Or)
                                        }
                                    }
                                }
                            }
                        }
                    } else {
                        if i < 247 {
                            if i < 241 {
                                if i < 238 {
                                    if i < 237 {
                                        Some(LanguageTag::OrIn)
                                    } else {
                                        Some(LanguageTag::Pa)
                                    }
                                } else {
                                    if i < 239 {
                                        Some(LanguageTag::PaArab)
                                    } else {
                                        if i < 240 {
                                            Some(LanguageTag::PaArabPk)
                                        } else {
                                            Some(LanguageTag::PaDeva)
                                        }
                                    }
                                }
                            } else {
                                if i < 244 {
                                    if i < 242 {
                                        Some(LanguageTag::PaIn)
                                    } else {
                                        if i < 243 {
                                            Some(LanguageTag::Pl)
                                        } else {
                                            Some(LanguageTag::PlPl)
                                        }
                                    }
                                } else {
                                    if i < 245 {
                                        Some(LanguageTag::Prs)
                                    } else {
                                        if i < 246 {
                                            Some(LanguageTag::PrsAf)
                                        } else {
                                            Some(LanguageTag::PrsArab)
                                        }
                                    }
                                }
                            }
                        } else {
                            if i < 252 {
                                if i < 249 {
                                    if i < 248 {
                                        Some(LanguageTag::Pt)
                                    } else {
                                        Some(LanguageTag::PtBr)
                                    }
                                } else {
                                    if i < 250 {
                                        Some(LanguageTag::PtPt)
                                    } else {
                                        if i < 251 {
                                            Some(LanguageTag::QucLatn)
                                        } else {
                                            Some(LanguageTag::QutGt)
                                        }
                                    }
                                }
                            } else {
                                if i < 255 {
                                    if i < 253 {
                                        Some(LanguageTag::QutLatn)
                                    } else {
                                        if i < 254 {
                                            Some(LanguageTag::Quz)
                                        } else {
                                            Some(LanguageTag::QuzBo)
                                        }
                                    }
                                } else {
                                    if i < 256 {
                                        Some(LanguageTag::QuzEc)
                                    } else {
                                        if i < 257 {
                                            Some(LanguageTag::QuzPe)
                                        } else {
                                            Some(LanguageTag::Ro)
                                        }
                                    }
                                }
                            }
                        }
                    }
                }
            } else {
                if i < 301 {
                    if i < 279 {
                        if i < 268 {
                            if i < 263 {
                                if i < 260 {
                                    if i < 259 {
                                        Some(LanguageTag::RoRo)
                                    } else {
                                        Some(LanguageTag::Ru)
                                    }
                                } else {
                                    if i < 261 {
                                        Some(LanguageTag::RuRu)
                                    } else {
                                        if i < 262 {
                                            Some(LanguageTag::Rw)
                                        } else {
                                            Some(LanguageTag::RwRw)
                                        }
                                    }
                                }
                            } else {
                                if i < 265 {
                                    if i < 264 {
                                        Some(LanguageTag::SdArab)
                                    } else {
                                        Some(LanguageTag::SdArabPk)
                                    }
                                } else {
                                    if i < 266 {
                                        Some(LanguageTag::SdDeva)
                                    } else {
                                        if i < 267 {
                                            Some(LanguageTag::Si)
                                        } else {
                                            Some(LanguageTag::SiLk)
                                        }
                                    }
                                }
                            }
                        } else {
                            if i < 273 {
                                if i < 270 {
                                    if i < 269 {
                                        Some(LanguageTag::Sk)
                                    } else {
                                        Some(LanguageTag::SkSk)
                                    }
                                } else {
                                    if i < 271 {
                                        Some(LanguageTag::Sl)
                                    } else {
                                        if i < 272 {
                                            Some(LanguageTag::SlSi)
                                        } else {
                                            Some(LanguageTag::Sq)
                                        }
                                    }
                                }
                            } else {
                                if i < 276 {
                                    if i < 274 {
                                        Some(LanguageTag::SqAl)
                                    } else {
                                        if i < 275 {
                                            Some(LanguageTag::SrCyrl)
                                        } else {
                                            Some(LanguageTag::SrCyrlBa)
                                        }
                                    }
                                } else {
                                    if i < 277 {
                                        Some(LanguageTag::SrCyrlCs)
                                    } else {
                                        if i < 278 {
                                            Some(LanguageTag::SrCyrlMe)
                                        } else {
                                            Some(LanguageTag::SrCyrlRs)
                                        }
                                    }
                                }
                            }
                        }
                    } else {
                        if i < 290 {
                            if i < 284 {
                                if i < 281 {
                                    if i < 280 {
                                        Some(LanguageTag::SrLatn)
                                    } else {
                                        Some(LanguageTag::SrLatnBa)
                                    }
                                } else {
                                    if i < 282 {
                                        Some(LanguageTag::SrLatnCs)
                                    } else {
                                        if i < 283 {
                                            Some(LanguageTag::SrLatnMe)
                                        } else {
                                            Some(LanguageTag::SrLatnRs)
                                        }
                                    }
                                }
                            } else {
                                if i < 287 {
                                    if i < 285 {
                                        Some(LanguageTag::Sv)
                                    } else {
                                        if i < 286 {
                                            Some(LanguageTag::SvFi)
                                        } else {
                                            Some(LanguageTag::SvSe)
                                        }
                                    }
                                } else {
                                    if i < 288 {
                                        Some(LanguageTag::Sw)
                                    } else {
                                        if i < 289 {
                                            Some(LanguageTag::SwKe)
                                        } else {
                                            Some(LanguageTag::Ta)
                                        }
                                    }
                                }
                            }
                        } else {
                            if i < 295 {
                                if i < 292 {
                                    if i < 291 {
                                        Some(LanguageTag::TaIn)
                                    } else {
                                        Some(LanguageTag::Te)
                                    }
                                } else {
                                    if i < 293 {
                                        Some(LanguageTag::TeIn)
                                    } else {
                                        if i < 294 {
                                            Some(LanguageTag::TgArab)
                                        } else {
                                            Some(LanguageTag::TgCyrl)
                                        }
                                    }
                                }
                            } else {
                                if i < 298 {
                                    if i < 296 {
                                        Some(LanguageTag::TgCyrlTj)
                                    } else {
                                        if i < 297 {
                                            Some(LanguageTag::TgLatn)
                                        } else {
                                            Some(LanguageTag::Th)
                                        }
                                    }
                                } else {
                                    if i < 299 {
                                        Some(LanguageTag::ThTh)
                                    } else {
                                        if i < 300 {
                                            Some(LanguageTag::Ti)
                                        } else {
                                            Some(LanguageTag::TiEt)
                                        }
                                    }
                                }
                            }
                        }
                    }
                } else {
                    if i < 322 {
                        if i < 311 {
                            if i < 306 {
                                if i < 303 {
                                    if i < 302 {
                                        Some(LanguageTag::TkCyrl)
                                    } else {
                                        Some(LanguageTag::TkCyrlTr)
                                    }
                                } else {
                                    if i < 304 {
                                        Some(LanguageTag::TkLatn)
                                    } else {
                                        if i < 305 {
                                            Some(LanguageTag::TkLatnTr)
                                        } else {
                                            Some(LanguageTag::TkTm)
                                        }
                                    }
                                }
                            } else {
                                if i < 308 {
                                    if i < 307 {
                                        Some(LanguageTag::Tn)
                                    } else {
                                        Some(LanguageTag::TnBw)
                                    }
                                } else {
                                    if i < 309 {
                                        Some(LanguageTag::TnZa)
                                    } else {
                                        if i < 310 {
                                            Some(LanguageTag::Tr)
                                        } else {
                                            Some(LanguageTag::TrTr)
                                        }
                                    }
                                }
                            }
                        } else {
                            if i < 316 {
                                if i < 313 {
                                    if i < 312 {
                                        Some(LanguageTag::TtArab)
                                    } else {
                                        Some(LanguageTag::TtCyrl)
                                    }
                                } else {
                                    if i < 314 {
                                        Some(LanguageTag::TtLatn)
                                    } else {
                                        if i < 315 {
                                            Some(LanguageTag::TtRu)
                                        } else {
                                            Some(LanguageTag::UgArab)
                                        }
                                    }
                                }
                            } else {
                                if i < 319 {
                                    if i < 317 {
                                        Some(LanguageTag::UgCn)
                                    } else {
                                        if i < 318 {
                                            Some(LanguageTag::UgCyrl)
                                        } else {
                                            Some(LanguageTag::UgLatn)
                                        }
                                    }
                                } else {
                                    if i < 320 {
                                        Some(LanguageTag::Uk)
                                    } else {
                                        if i < 321 {
                                            Some(LanguageTag::UkUa)
                                        } else {
                                            Some(LanguageTag::Ur)
                                        }
                                    }
                                }
                            }
                        }
                    } else {
                        if i < 333 {
                            if i < 327 {
                                if i < 324 {
                                    if i < 323 {
                                        Some(LanguageTag::UrPk)
                                    } else {
                                        Some(LanguageTag::Uz)
                                    }
                                } else {
                                    if i < 325 {
                                        Some(LanguageTag::UzCyrl)
                                    } else {
                                        if i < 326 {
                                            Some(LanguageTag::UzLatn)
                                        } else {
                                            Some(LanguageTag::UzLatnUz)
                                        }
                                    }
                                }
                            } else {
                                if i < 330 {
                                    if i < 328 {
                                        Some(LanguageTag::Vi)
                                    } else {
                                        if i < 329 {
                                            Some(LanguageTag::ViVn)
                                        } else {
                                            Some(LanguageTag::Wo)
                                        }
                                    }
                                } else {
                                    if i < 331 {
                                        Some(LanguageTag::WoSn)
                                    } else {
                                        if i < 332 {
                                            Some(LanguageTag::Xh)
                                        } else {
                                            Some(LanguageTag::XhZa)
                                        }
                                    }
                                }
                            }
                        } else {
                            if i < 338 {
                                if i < 335 {
                                    if i < 334 {
                                        Some(LanguageTag::YoLatn)
                                    } else {
                                        Some(LanguageTag::YoNg)
                                    }
                                } else {
                                    if i < 336 {
                                        Some(LanguageTag::ZhHans)
                                    } else {
                                        if i < 337 {
                                            Some(LanguageTag::ZhHansCn)
                                        } else {
                                            Some(LanguageTag::ZhHansSg)
                                        }
                                    }
                                }
                            } else {
                                if i < 341 {
                                    if i < 339 {
                                        Some(LanguageTag::ZhHant)
                                    } else {
                                        if i < 340 {
                                            Some(LanguageTag::ZhHantHk)
                                        } else {
                                            Some(LanguageTag::ZhHantMo)
                                        }
                                    }
                                } else {
                                    if i < 342 {
                                        Some(LanguageTag::ZhHantTw)
                                    } else {
                                        if i < 343 {
                                            Some(LanguageTag::Zu)
                                        } else {
                                            Some(LanguageTag::ZuZa)
                                        }
                                    }
                                }
                            }
                        }
                    }
                }
            }
        }
    }
}

/// Every LanguageTag value sits at its own position of the table.
pub proof fn lemma_tag_index(x: LanguageTag)
    ensures
        0 <= tag_index(x) < LANGUAGETAG_COUNT,
        tag_at(tag_index(x)) == Some(x),
{
}

impl LanguageTag {
    /// Canonical code.
    pub fn as_str(&self) -> (r: &'static str)
        ensures
            r@ == tag_code(*self),
    {
        match self {
            LanguageTag::Af => "af",
            LanguageTag::AfZa => "af-ZA",
            LanguageTag::Am => "am",
            LanguageTag::AmEt => "am-ET",
            LanguageTag::Ar => "ar",
            LanguageTag::ArAe => "ar-AE",
            LanguageTag::ArBh => "ar-BH",
            LanguageTag::ArDz => "ar-DZ",
            LanguageTag::ArEg => "ar-EG",
            LanguageTag::ArIq => "ar-IQ",
            LanguageTag::ArJo => "ar-JO",
            LanguageTag::ArKw => "ar-KW",
            LanguageTag::ArLb => "ar-LB",
            LanguageTag::ArLy => "ar-LY",
            LanguageTag::ArMa => "ar-MA",
            LanguageTag::ArOm => "ar-OM",
            LanguageTag::ArQa => "ar-QA",
            LanguageTag::ArSa => "ar-SA",
            LanguageTag::ArSy => "ar-SY",
            LanguageTag::ArTn => "ar-TN",
            LanguageTag::ArYe => "ar-YE",
            LanguageTag::As => "as",
            LanguageTag::AsIn => "as-IN",
            LanguageTag::Az => "az",
            LanguageTag::AzArab => "az-Arab",
            LanguageTag::AzArabAz => "az-Arab-AZ",
            LanguageTag::AzCyrl => "az-Cyrl",
            LanguageTag::AzCyrlAz => "az-Cyrl-AZ",
            LanguageTag::AzLatn => "az-Latn",
            LanguageTag::AzLatnAz => "az-Latn-AZ",
            LanguageTag::Be => "be",
            LanguageTag::BeBy => "be-BY",
            LanguageTag::Bg => "bg",
            LanguageTag::BgBg => "bg-BG",
            LanguageTag::Bn => "bn",
            LanguageTag::BnBd => "bn-BD",
            LanguageTag::BnIn => "bn-IN",
            LanguageTag::Bs => "bs",
            LanguageTag::BsCyrl => "bs-Cyrl",
            LanguageTag::BsCyrlBa => "bs-Cyrl-BA",
            LanguageTag::BsLatn => "bs-Latn",
            LanguageTag::BsLatnBa => "bs-Latn-BA",
            LanguageTag::Ca => "ca",
            LanguageTag::CaEs => "ca-ES",
            LanguageTag::CaEsValencia => "ca-ES-valencia",
            LanguageTag::ChrCher => "chr-Cher",
            LanguageTag::ChrCherUs => "chr-Cher-US",
            LanguageTag::ChrLatn => "chr-Latn",
            LanguageTag::Co => "co",
            LanguageTag::Cs => "cs",
            LanguageTag::CsCz => "cs-CZ",
            LanguageTag::Cy => "cy",
            LanguageTag::CyGb => "cy-GB",
            LanguageTag::Da => "da",
            LanguageTag::DaDk => "da-DK",
            LanguageTag::De => "de",
            LanguageTag::DeAt => "de-AT",
            LanguageTag::DeCh => "de-CH",
            LanguageTag::DeDe => "de-DE",
            LanguageTag::DeLi => "de-LI",
            LanguageTag::DeLu => "de-LU",
            LanguageTag::El => "el",
            LanguageTag::ElGr => "el-GR",
            LanguageTag::En => "en",
            LanguageTag::En011 => "en-011",
            LanguageTag::En014 => "en-014",
            LanguageTag::En018 => "en-018",
            LanguageTag::En021 => "en-021",
            LanguageTag::En029 => "en-029",
            LanguageTag::En053 => "en-053",
            LanguageTag::EnAu => "en-AU",
            LanguageTag::EnBz => "en-BZ",
            LanguageTag::EnCa => "en-CA",
            LanguageTag::EnGb => "en-GB",
            LanguageTag::EnHk => "en-HK",
            LanguageTag::EnId => "en-ID",
            LanguageTag::EnIe => "en-IE",
            LanguageTag::EnIn => "en-IN",
            LanguageTag::EnJm => "en-JM",
            LanguageTag::EnKz => "en-KZ",
            LanguageTag::EnMt => "en-MT",
            LanguageTag::EnMy => "en-MY",
            LanguageTag::EnNz => "en-NZ",
            LanguageTag::EnPh => "en-PH",
            LanguageTag::EnPk => "en-PK",
            LanguageTag::EnSg => "en-SG",
            LanguageTag::EnTt => "en-TT",
            LanguageTag::EnUs => "en-US",
            LanguageTag::EnVn => "en-VN",
            LanguageTag::EnZa => "en-ZA",
            LanguageTag::EnZw => "en-ZW",
            LanguageTag::Es => "es",
            LanguageTag::Es019 => "es-019",
            LanguageTag::Es419 => "es-419",
            LanguageTag::EsAr => "es-AR",
            LanguageTag::EsBo => "es-BO",
            LanguageTag::EsCl => "es-CL",
            LanguageTag::EsCo => "es-CO",
            LanguageTag::EsCr => "es-CR",
            LanguageTag::EsDo => "es-DO",
            LanguageTag::EsEc => "es-EC",
            LanguageTag::EsEs => "es-ES",
            LanguageTag::EsGt => "es-GT",
            LanguageTag::EsHn => "es-HN",
            LanguageTag::EsMx => "es-MX",
            LanguageTag::EsNi => "es-NI",
            LanguageTag::EsPa => "es-PA",
            LanguageTag::EsPe => "es-PE",
            LanguageTag::EsPr => "es-PR",
            LanguageTag::EsPy => "es-PY",
            LanguageTag::EsSv => "es-SV",
            LanguageTag::EsUs => "es-US",
            LanguageTag::EsUy => "es-UY",
            LanguageTag::EsVe => "es-VE",
            LanguageTag::Et => "et",
            LanguageTag::EtEe => "et-EE",
            LanguageTag::Eu => "eu",
            LanguageTag::EuEs => "eu-ES",
            LanguageTag::Fa => "fa",
            LanguageTag::FaIr => "fa-IR",
            LanguageTag::Fi => "fi",
            LanguageTag::FiFi => "fi-FI",
            LanguageTag::Fil => "fil",
            LanguageTag::FilLatn => "fil-Latn",
            LanguageTag::FilPh => "fil-PH",
            LanguageTag::Fr => "fr",
            LanguageTag::Fr011 => "fr-011",
            LanguageTag::Fr015 => "fr-015",
            LanguageTag::Fr021 => "fr-021",
            LanguageTag::Fr029 => "fr-029",
            LanguageTag::Fr155 => "fr-155",
            LanguageTag::FrBe => "fr-BE",
            LanguageTag::FrCa => "fr-CA",
            LanguageTag::FrCd => "fr-CD",
            LanguageTag::FrCh => "fr-CH",
            LanguageTag::FrCi => "fr-CI",
            LanguageTag::FrCm => "fr-CM",
            LanguageTag::FrFr => "fr-FR",
            LanguageTag::FrHt => "fr-HT",
            LanguageTag::FrLu => "fr-LU",
            LanguageTag::FrMa => "fr-MA",
            LanguageTag::FrMc => "fr-MC",
            LanguageTag::FrMl => "fr-ML",
            LanguageTag::FrRe => "fr-RE",
            LanguageTag::FrcLatn => "frc-Latn",
            LanguageTag::FrpLatn => "frp-Latn",
            LanguageTag::Ga => "ga",
            LanguageTag::GaIe => "ga-IE",
            LanguageTag::Gd => "gd",
            LanguageTag::GdGb => "gd-GB",
            LanguageTag::GdLatn => "gd-Latn",
            LanguageTag::Gl => "gl",
            LanguageTag::GlEs => "gl-ES",
            LanguageTag::Gu => "gu",
            LanguageTag::GuIn => "gu-IN",
            LanguageTag::Ha => "ha",
            LanguageTag::HaLatn => "ha-Latn",
            LanguageTag::HaLatnNg => "ha-Latn-NG",
            LanguageTag::He => "he",
            LanguageTag::HeIl => "he-IL",
            LanguageTag::Hi => "hi",
            LanguageTag::HiIn => "hi-IN",
            LanguageTag::Hr => "hr",
            LanguageTag::HrBa => "hr-BA",
            LanguageTag::HrHr => "hr-HR",
            LanguageTag::Hu => "hu",
            LanguageTag::HuHu => "hu-HU",
            LanguageTag::Hy => "hy",
            LanguageTag::HyAm => "hy-AM",
            LanguageTag::Id => "id",
            LanguageTag::IdId => "id-ID",
            LanguageTag::IgLatn => "ig-Latn",
            LanguageTag::IgNg => "ig-NG",
            LanguageTag::Is => "is",
            LanguageTag::IsIs => "is-IS",
            LanguageTag::It => "it",
            LanguageTag::ItCh => "it-CH",
            LanguageTag::ItIt => "it-IT",
            LanguageTag::IuCans => "iu-Cans",
            LanguageTag::IuLatn => "iu-Latn",
            LanguageTag::IuLatnCa => "iu-Latn-CA",
            LanguageTag::Ja => "ja",
            LanguageTag::JaJp => "ja-JP",
            LanguageTag::Ka => "ka",
            LanguageTag::KaGe => "ka-GE",
            LanguageTag::Kk => "kk",
            LanguageTag::KkKz => "kk-KZ",
            LanguageTag::Km => "km",
            LanguageTag::KmKh => "km-KH",
            LanguageTag::Kn => "kn",
            LanguageTag::KnIn => "kn-IN",
            LanguageTag::Ko => "ko",
            LanguageTag::KoKr => "ko-KR",
            LanguageTag::Kok => "kok",
            LanguageTag::KokIn => "kok-IN",
            LanguageTag::KuArab => "ku-Arab",
            LanguageTag::KuArabIq => "ku-Arab-IQ",
            LanguageTag::KyCyrl => "ky-Cyrl",
            LanguageTag::KyKg => "ky-KG",
            LanguageTag::Lb => "lb",
            LanguageTag::LbLu => "lb-LU",
            LanguageTag::Lo => "lo",
            LanguageTag::LoLa => "lo-LA",
            LanguageTag::Lt => "lt",
            LanguageTag::LtLt => "lt-LT",
            LanguageTag::Lv => "lv",
            LanguageTag::LvLv => "lv-LV",
            LanguageTag::Mi => "mi",
            LanguageTag::MiLatn => "mi-Latn",
            LanguageTag::MiNz => "mi-NZ",
            LanguageTag::Mk => "mk",
            LanguageTag::MkMk => "mk-MK",
            LanguageTag::Ml => "ml",
            LanguageTag::MlIn => "ml-IN",
            LanguageTag::MnCyrl => "mn-Cyrl",
            LanguageTag::MnMn => "mn-MN",
            LanguageTag::MnMong => "mn-Mong",
            LanguageTag::Mr => "mr",
            LanguageTag::MrIn => "mr-IN",
            LanguageTag::Ms => "ms",
            LanguageTag::MsBn => "ms-BN",
            LanguageTag::MsMy => "ms-MY",
            LanguageTag::Mt => "mt",
            LanguageTag::MtMt => "mt-MT",
            LanguageTag::Nb => "nb",
            LanguageTag::NbNo => "nb-NO",
            LanguageTag::Ne => "ne",
            LanguageTag::NeNp => "ne-NP",
            LanguageTag::Nl => "nl",
            LanguageTag::NlBe => "nl-BE",
            LanguageTag::NlNl => "nl-NL",
            LanguageTag::Nn => "nn",
            LanguageTag::NnNo => "nn-NO",
            LanguageTag::Nso => "nso",
            LanguageTag::NsoZa => "nso-ZA",
            LanguageTag::Or => "or",
            LanguageTag::OrIn => "or-IN",
            LanguageTag::Pa => "pa",
            LanguageTag::PaArab => "pa-Arab",
            LanguageTag::PaArabPk => "pa-Arab-PK",
            LanguageTag::PaDeva => "pa-Deva",
            LanguageTag::PaIn => "pa-IN",
            LanguageTag::Pl => "pl",
            LanguageTag::PlPl => "pl-PL",
            LanguageTag::Prs => "prs",
            LanguageTag::PrsAf => "prs-AF",
            LanguageTag::PrsArab => "prs-Arab",
            LanguageTag::Pt => "pt",
            LanguageTag::PtBr => "pt-BR",
            LanguageTag::PtPt => "pt-PT",
            LanguageTag::QucLatn => "quc-Latn",
            LanguageTag::QutGt => "qut-GT",
            LanguageTag::QutLatn => "qut-Latn",
            LanguageTag::Quz => "quz",
            LanguageTag::QuzBo => "quz-BO",
            LanguageTag::QuzEc => "quz-EC",
            LanguageTag::QuzPe => "quz-PE",
            LanguageTag::Ro => "ro",
            LanguageTag::RoRo => "ro-RO",
            LanguageTag::Ru => "ru",
            LanguageTag::RuRu => "ru-RU",
            LanguageTag::Rw => "rw",
            LanguageTag::RwRw => "rw-RW",
            LanguageTag::SdArab => "sd-Arab",
            LanguageTag::SdArabPk => "sd-Arab-PK",
            LanguageTag::SdDeva => "sd-Deva",
            LanguageTag::Si => "si",
            LanguageTag::SiLk => "si-LK",
            LanguageTag::Sk => "sk",
            LanguageTag::SkSk => "sk-SK",
            LanguageTag::Sl => "sl",
            LanguageTag::SlSi => "sl-SI",
            LanguageTag::Sq => "sq",
            LanguageTag::SqAl => "sq-AL",
            LanguageTag::SrCyrl => "sr-Cyrl",
            LanguageTag::SrCyrlBa => "sr-Cyrl-BA",
            LanguageTag::SrCyrlCs => "sr-Cyrl-CS",
            LanguageTag::SrCyrlMe => "sr-Cyrl-ME",
            LanguageTag::SrCyrlRs => "sr-Cyrl-RS",
            LanguageTag::SrLatn => "sr-Latn",
            LanguageTag::SrLatnBa => "sr-Latn-BA",
            LanguageTag::SrLatnCs => "sr-Latn-CS",
            LanguageTag::SrLatnMe => "sr-Latn-ME",
            LanguageTag::SrLatnRs => "sr-Latn-RS",
            LanguageTag::Sv => "sv",
            LanguageTag::SvFi => "sv-FI",
            LanguageTag::SvSe => "sv-SE",
            LanguageTag::Sw => "sw",
            LanguageTag::SwKe => "sw-KE",
            LanguageTag::Ta => "ta",
            LanguageTag::TaIn => "ta-IN",
            LanguageTag::Te => "te",
            LanguageTag::TeIn => "te-IN",
            LanguageTag::TgArab => "tg-Arab",
            LanguageTag::TgCyrl => "tg-Cyrl",
            LanguageTag::TgCyrlTj => "tg-Cyrl-TJ",
            LanguageTag::TgLatn => "tg-Latn",
            LanguageTag::Th => "th",
            LanguageTag::ThTh => "th-TH",
            LanguageTag::Ti => "ti",
            LanguageTag::TiEt => "ti-ET",
            LanguageTag::TkCyrl => "tk-Cyrl",
            LanguageTag::TkCyrlTr => "tk-Cyrl-TR",
            LanguageTag::TkLatn => "tk-Latn",
            LanguageTag::TkLatnTr => "tk-Latn-TR",
            LanguageTag::TkTm => "tk-TM",
            LanguageTag::Tn => "tn",
            LanguageTag::TnBw => "tn-BW",
            LanguageTag::TnZa => "tn-ZA",
            LanguageTag::Tr => "tr",
            LanguageTag::TrTr => "tr-TR",
            LanguageTag::TtArab => "tt-Arab",
            LanguageTag::TtCyrl => "tt-Cyrl",
            LanguageTag::TtLatn => "tt-Latn",
            LanguageTag::TtRu => "tt-RU",
            LanguageTag::UgArab => "ug-Arab",
            LanguageTag::UgCn => "ug-CN",
            LanguageTag::UgCyrl => "ug-Cyrl",
            LanguageTag::UgLatn => "ug-Latn",
            LanguageTag::Uk => "uk",
            LanguageTag::UkUa => "uk-UA",
            LanguageTag::Ur => "ur",
            LanguageTag::UrPk => "ur-PK",
            LanguageTag::Uz => "uz",
            LanguageTag::UzCyrl => "uz-Cyrl",
            LanguageTag::UzLatn => "uz-Latn",
            LanguageTag::UzLatnUz => "uz-Latn-UZ",
            LanguageTag::Vi => "vi",
            LanguageTag::ViVn => "vi-VN",
            LanguageTag::Wo => "wo",
            LanguageTag::WoSn => "wo-SN",
            LanguageTag::Xh => "xh",
            LanguageTag::XhZa => "xh-ZA",
            LanguageTag::YoLatn => "yo-Latn",
            LanguageTag::YoNg => "yo-NG",
            LanguageTag::ZhHans => "zh-Hans",
            LanguageTag::ZhHansCn => "zh-Hans-CN",
            LanguageTag::ZhHansSg => "zh-Hans-SG",
            LanguageTag::ZhHant => "zh-Hant",
            LanguageTag::ZhHantHk => "zh-Hant-HK",
            LanguageTag::ZhHantMo => "zh-Hant-MO",
            LanguageTag::ZhHantTw => "zh-Hant-TW",
            LanguageTag::Zu => "zu",
            LanguageTag::ZuZa => "zu-ZA",
        }
    }

    /// English name.
    pub fn english_name(&self) -> (r: &'static str)
        ensures
            r@ == tag_name(*self),
    {
        match self {
            LanguageTag::Af => "Afrikaans",
            LanguageTag::AfZa => "Afrikaans",
            LanguageTag::Am => "Amharic",
            LanguageTag::AmEt => "Amharic",
            LanguageTag::Ar => "Arabic",
            LanguageTag::ArAe => "Arabic",
            LanguageTag::ArBh => "Arabic",
            LanguageTag::ArDz => "Arabic",
            LanguageTag::ArEg => "Arabic",
            LanguageTag::ArIq => "Arabic",
            LanguageTag::ArJo => "Arabic",
            LanguageTag::ArKw => "Arabic",
            LanguageTag::ArLb => "Arabic",
            LanguageTag::ArLy => "Arabic",
            LanguageTag::ArMa => "Arabic",
            LanguageTag::ArOm => "Arabic",
            LanguageTag::ArQa => "Arabic",
            LanguageTag::ArSa => "Arabic",
            LanguageTag::ArSy => "Arabic",
            LanguageTag::ArTn => "Arabic",
            LanguageTag::ArYe => "Arabic",
            LanguageTag::As => "Assamese",
            LanguageTag::AsIn => "Assamese",
            LanguageTag::Az => "Azerbaijani",
            LanguageTag::AzArab => "Azerbaijani",
            LanguageTag::AzArabAz => "Azerbaijani",
            LanguageTag::AzCyrl => "Azerbaijani",
            LanguageTag::AzCyrlAz => "Azerbaijani",
            LanguageTag::AzLatn => "Azerbaijani",
            LanguageTag::AzLatnAz => "Azerbaijani",
            LanguageTag::Be => "Belarusian",
            LanguageTag::BeBy => "Belarusian",
            LanguageTag::Bg => "Bulgarian",
            LanguageTag::BgBg => "Bulgarian",
            LanguageTag::Bn => "Bengali",
            LanguageTag::BnBd => "Bengali",
            LanguageTag::BnIn => "Bengali",
            LanguageTag::Bs => "Bosnian",
            LanguageTag::BsCyrl => "Bosnian",
            LanguageTag::BsCyrlBa => "Bosnian",
            LanguageTag::BsLatn => "Bosnian",
            LanguageTag::BsLatnBa => "Bosnian",
            LanguageTag::Ca => "Catalan",
            LanguageTag::CaEs => "Catalan",
            LanguageTag::CaEsValencia => "Catalan",
            LanguageTag::ChrCher => "Cherokee",
            LanguageTag::ChrCherUs => "Cherokee",
            LanguageTag::ChrLatn => "Cherokee",
            LanguageTag::Co => "Corsican",
            LanguageTag::Cs => "Czech",
            LanguageTag::CsCz => "Czech",
            LanguageTag::Cy => "Welsh",
            LanguageTag::CyGb => "Welsh",
            LanguageTag::Da => "Danish",
            LanguageTag::DaDk => "Danish",
            LanguageTag::De => "German",
            LanguageTag::DeAt => "German",
            LanguageTag::DeCh => "German",
            LanguageTag::DeDe => "German",
            LanguageTag::DeLi => "German",
            LanguageTag::DeLu => "German",
            LanguageTag::El => "Greek, Modern (1453-)",
            LanguageTag::ElGr => "Greek, Modern (1453-)",
            LanguageTag::En => "English",
            LanguageTag::En011 => "English",
            LanguageTag::En014 => "English",
            LanguageTag::En018 => "English",
            LanguageTag::En021 => "English",
            LanguageTag::En029 => "English",
            LanguageTag::En053 => "English",
            LanguageTag::EnAu => "English",
            LanguageTag::EnBz => "English",
            LanguageTag::EnCa => "English",
            LanguageTag::EnGb => "English",
            LanguageTag::EnHk => "English",
            LanguageTag::EnId => "English",
            LanguageTag::EnIe => "English",
            LanguageTag::EnIn => "English",
            LanguageTag::EnJm => "English",
            LanguageTag::EnKz => "English",
            LanguageTag::EnMt => "English",
            LanguageTag::EnMy => "English",
            LanguageTag::EnNz => "English",
            LanguageTag::EnPh => "English",
            LanguageTag::EnPk => "English",
            LanguageTag::EnSg => "English",
            LanguageTag::EnTt => "English",
            LanguageTag::EnUs => "English",
            LanguageTag::EnVn => "English",
            LanguageTag::EnZa => "English",
            LanguageTag::EnZw => "English",
            LanguageTag::Es => "Spanish",
            LanguageTag::Es019 => "Spanish",
            LanguageTag::Es419 => "Spanish",
            LanguageTag::EsAr => "Spanish",
            LanguageTag::EsBo => "Spanish",
            LanguageTag::EsCl => "Spanish",
            LanguageTag::EsCo => "Spanish",
            LanguageTag::EsCr => "Spanish",
            LanguageTag::EsDo => "Spanish",
            LanguageTag::EsEc => "Spanish",
            LanguageTag::EsEs => "Spanish",
            LanguageTag::EsGt => "Spanish",
            LanguageTag::EsHn => "Spanish",
            LanguageTag::EsMx => "Spanish",
            LanguageTag::EsNi => "Spanish",
            LanguageTag::EsPa => "Spanish",
            LanguageTag::EsPe => "Spanish",
            LanguageTag::EsPr => "Spanish",
            LanguageTag::EsPy => "Spanish",
            LanguageTag::EsSv => "Spanish",
            LanguageTag::EsUs => "Spanish",
            LanguageTag::EsUy => "Spanish",
            LanguageTag::EsVe => "Spanish",
            LanguageTag::Et => "Estonian",
            LanguageTag::EtEe => "Estonian",
            LanguageTag::Eu => "Basque",
            LanguageTag::EuEs => "Basque",
            LanguageTag::Fa => "Persian",
            LanguageTag::FaIr => "Persian",
            LanguageTag::Fi => "Finnish",
            LanguageTag::FiFi => "Finnish",
            LanguageTag::Fil => "Filipino",
            LanguageTag::FilLatn => "Filipino",
            LanguageTag::FilPh => "Filipino",
            LanguageTag::Fr => "French",
            LanguageTag::Fr011 => "French",
            LanguageTag::Fr015 => "French",
            LanguageTag::Fr021 => "French",
            LanguageTag::Fr029 => "French",
            LanguageTag::Fr155 => "French",
            LanguageTag::FrBe => "French",
            LanguageTag::FrCa => "French",
            LanguageTag::FrCd => "French",
            LanguageTag::FrCh => "French",
            LanguageTag::FrCi => "French",
            LanguageTag::FrCm => "French",
            LanguageTag::FrFr => "French",
            LanguageTag::FrHt => "French",
            LanguageTag::FrLu => "French",
            LanguageTag::FrMa => "French",
            LanguageTag::FrMc => "French",
            LanguageTag::FrMl => "French",
            LanguageTag::FrRe => "French",
            LanguageTag::FrcLatn => "Cajun French",
            LanguageTag::FrpLatn => "Arpitan",
            LanguageTag::Ga => "Irish",
            LanguageTag::GaIe => "Irish",
            LanguageTag::Gd => "Gaelic",
            LanguageTag::GdGb => "Gaelic",
            LanguageTag::GdLatn => "Gaelic",
            LanguageTag::Gl => "Galician",
            LanguageTag::GlEs => "Galician",
            LanguageTag::Gu => "Gujarati",
            LanguageTag::GuIn => "Gujarati",
            LanguageTag::Ha => "Hausa",
            LanguageTag::HaLatn => "Hausa",
            LanguageTag::HaLatnNg => "Hausa",
            LanguageTag::He => "Hebrew",
            LanguageTag::HeIl => "Hebrew",
            LanguageTag::Hi => "Hindi",
            LanguageTag::HiIn => "Hindi",
            LanguageTag::Hr => "Croatian",
            LanguageTag::HrBa => "Croatian",
            LanguageTag::HrHr => "Croatian",
            LanguageTag::Hu => "Hungarian",
            LanguageTag::HuHu => "Hungarian",
            LanguageTag::Hy => "Armenian",
            LanguageTag::HyAm => "Armenian",
            LanguageTag::Id => "Indonesian",
            LanguageTag::IdId => "Indonesian",
            LanguageTag::IgLatn => "Igbo",
            LanguageTag::IgNg => "Igbo",
            LanguageTag::Is => "Icelandic",
            LanguageTag::IsIs => "Icelandic",
            LanguageTag::It => "Italian",
            LanguageTag::ItCh => "Italian",
            LanguageTag::ItIt => "Italian",
            LanguageTag::IuCans => "Inuktitut",
            LanguageTag::IuLatn => "Inuktitut",
            LanguageTag::IuLatnCa => "Inuktitut",
            LanguageTag::Ja => "Japanese",
            LanguageTag::JaJp => "Japanese",
            LanguageTag::Ka => "Georgian",
            LanguageTag::KaGe => "Georgian",
            LanguageTag::Kk => "Kazakh",
            LanguageTag::KkKz => "Kazakh",
            LanguageTag::Km => "Central Khmer",
            LanguageTag::KmKh => "Central Khmer",
            LanguageTag::Kn => "Kannada",
            LanguageTag::KnIn => "Kannada",
            LanguageTag::Ko => "Korean",
            LanguageTag::KoKr => "Korean",
            LanguageTag::Kok => "Konkani (macrolanguage)",
            LanguageTag::KokIn => "Konkani (macrolanguage)",
            LanguageTag::KuArab => "Kurdish",
            LanguageTag::KuArabIq => "Kurdish",
            LanguageTag::KyCyrl => "Kirghiz",
            LanguageTag::KyKg => "Kirghiz",
            LanguageTag::Lb => "Luxembourgish",
            LanguageTag::LbLu => "Luxembourgish",
            LanguageTag::Lo => "Lao",
            LanguageTag::LoLa => "Lao",
            LanguageTag::Lt => "Lithuanian",
            LanguageTag::LtLt => "Lithuanian",
            LanguageTag::Lv => "Latvian",
            LanguageTag::LvLv => "Latvian",
            LanguageTag::Mi => "Maori",
            LanguageTag::MiLatn => "Maori",
            LanguageTag::MiNz => "Maori",
            LanguageTag::Mk => "Macedonian",
            LanguageTag::MkMk => "Macedonian",
            LanguageTag::Ml => "Malayalam",
            LanguageTag::MlIn => "Malayalam",
            LanguageTag::MnCyrl => "Mongolian",
            LanguageTag::MnMn => "Mongolian",
            LanguageTag::MnMong => "Mongolian",
            LanguageTag::Mr => "Marathi",
            LanguageTag::MrIn => "Marathi",
            LanguageTag::Ms => "Malay",
            LanguageTag::MsBn => "Malay",
            LanguageTag::MsMy => "Malay",
            LanguageTag::Mt => "Maltese",
            LanguageTag::MtMt => "Maltese",
            LanguageTag::Nb => "Bokmål, Norwegian",
            LanguageTag::NbNo => "Bokmål, Norwegian",
            LanguageTag::Ne => "Nepali",
            LanguageTag::NeNp => "Nepali",
            LanguageTag::Nl => "Dutch",
            LanguageTag::NlBe => "Dutch",
            LanguageTag::NlNl => "Dutch",
            LanguageTag::Nn => "Norwegian Nynorsk",
            LanguageTag::NnNo => "Norwegian Nynorsk",
            LanguageTag::Nso => "Pedi",
            LanguageTag::NsoZa => "Pedi",
            LanguageTag::Or => "Oriya",
            LanguageTag::OrIn => "Oriya",
            LanguageTag::Pa => "Panjabi",
            LanguageTag::PaArab => "Panjabi",
            LanguageTag::PaArabPk => "Panjabi",
            LanguageTag::PaDeva => "Panjabi",
            LanguageTag::PaIn => "Panjabi",
            LanguageTag::Pl => "Polish",
            LanguageTag::PlPl => "Polish",
            LanguageTag::Prs => "Dari",
            LanguageTag::PrsAf => "Dari",
            LanguageTag::PrsArab => "Dari",
            LanguageTag::Pt => "Portuguese",
            LanguageTag::PtBr => "Portuguese",
            LanguageTag::PtPt => "Portuguese",
            LanguageTag::QucLatn => "K'iche'",
            LanguageTag::QutGt => "qut",
            LanguageTag::QutLatn => "qut",
            LanguageTag::Quz => "Cusco Quechua",
            LanguageTag::QuzBo => "Cusco Quechua",
            LanguageTag::QuzEc => "Cusco Quechua",
            LanguageTag::QuzPe => "Cusco Quechua",
            LanguageTag::Ro => "Romanian",
            LanguageTag::RoRo => "Romanian",
            LanguageTag::Ru => "Russian",
            LanguageTag::RuRu => "Russian",
            LanguageTag::Rw => "Kinyarwanda",
            LanguageTag::RwRw => "Kinyarwanda",
            LanguageTag::SdArab => "Sindhi",
            LanguageTag::SdArabPk => "Sindhi",
            LanguageTag::SdDeva => "Sindhi",
            LanguageTag::Si => "Sinhala",
            LanguageTag::SiLk => "Sinhala",
            LanguageTag::Sk => "Slovak",
            LanguageTag::SkSk => "Slovak",
            LanguageTag::Sl => "Slovenian",
            LanguageTag::SlSi => "Slovenian",
            LanguageTag::Sq => "Albanian",
            LanguageTag::SqAl => "Albanian",
            LanguageTag::SrCyrl => "Serbian",
            LanguageTag::SrCyrlBa => "Serbian",
            LanguageTag::SrCyrlCs => "Serbian",
            LanguageTag::SrCyrlMe => "Serbian",
            LanguageTag::SrCyrlRs => "Serbian",
            LanguageTag::SrLatn => "Serbian",
            LanguageTag::SrLatnBa => "Serbian",
            LanguageTag::SrLatnCs => "Serbian",
            LanguageTag::SrLatnMe => "Serbian",
            LanguageTag::SrLatnRs => "Serbian",
            LanguageTag::Sv => "Swedish",
            LanguageTag::SvFi => "Swedish",
            LanguageTag::SvSe => "Swedish",
            LanguageTag::Sw => "Swahili",
            LanguageTag::SwKe => "Swahili",
            LanguageTag::Ta => "Tamil",
            LanguageTag::TaIn => "Tamil",
            LanguageTag::Te => "Telugu",
            LanguageTag::TeIn => "Telugu",
            LanguageTag::TgArab => "Tajik",
            LanguageTag::TgCyrl => "Tajik",
            LanguageTag::TgCyrlTj => "Tajik",
            LanguageTag::TgLatn => "Tajik",
            LanguageTag::Th => "Thai",
            LanguageTag::ThTh => "Thai",
            LanguageTag::Ti => "Tigrinya",
            LanguageTag::TiEt => "Tigrinya",
            LanguageTag::TkCyrl => "Turkmen",
            LanguageTag::TkCyrlTr => "Turkmen",
            LanguageTag::TkLatn => "Turkmen",
            LanguageTag::TkLatnTr => "Turkmen",
            LanguageTag::TkTm => "Turkmen",
            LanguageTag::Tn => "Tswana",
            LanguageTag::TnBw => "Tswana",
            LanguageTag::TnZa => "Tswana",
            LanguageTag::Tr => "Turkish",
            LanguageTag::TrTr => "Turkish",
            LanguageTag::TtArab => "Tatar",
            LanguageTag::TtCyrl => "Tatar",
            LanguageTag::TtLatn => "Tatar",
            LanguageTag::TtRu => "Tatar",
            LanguageTag::UgArab => "Uighur",
            LanguageTag::UgCn => "Uighur",
            LanguageTag::UgCyrl => "Uighur",
            LanguageTag::UgLatn => "Uighur",
            LanguageTag::Uk => "Ukrainian",
            LanguageTag::UkUa => "Ukrainian",
            LanguageTag::Ur => "Urdu",
            LanguageTag::UrPk => "Urdu",
            LanguageTag::Uz => "Uzbek",
            LanguageTag::UzCyrl => "Uzbek",
            LanguageTag::UzLatn => "Uzbek",
            LanguageTag::UzLatnUz => "Uzbek",
            LanguageTag::Vi => "Vietnamese",
            LanguageTag::ViVn => "Vietnamese",
            LanguageTag::Wo => "Wolof",
            LanguageTag::WoSn => "Wolof",
            LanguageTag::Xh => "Xhosa",
            LanguageTag::XhZa => "Xhosa",
            LanguageTag::YoLatn => "Yoruba",
            LanguageTag::YoNg => "Yoruba",
            LanguageTag::ZhHans => "Chinese (Simplified)",
            LanguageTag::ZhHansCn => "Chinese (Simplified)",
            LanguageTag::ZhHansSg => "Chinese (Simplified)",
            LanguageTag::ZhHant => "Chinese (Traditional)",
            LanguageTag::ZhHantHk => "Chinese (Traditional)",
            LanguageTag::ZhHantMo => "Chinese (Traditional)",
            LanguageTag::ZhHantTw => "Chinese (Traditional)",
            LanguageTag::Zu => "Zulu",
            LanguageTag::ZuZa => "Zulu",
        }
    }

    /// The value at position `i` of the table order.
    pub fn from_index(i: usize) -> (r: Option<LanguageTag>)
        ensures
            r == tag_at(i as int),
            i < LANGUAGETAG_COUNT ==> r is Some,
    {
        if i >= 344 {
            None
        } else {
            if i < 172 {
                if i < 86 {
                    if i < 43 {
                        if i < 21 {
                            if i < 10 {
                                if i < 5 {
                                    if i < 2 {
                                        if i < 1 {
                                            Some(LanguageTag::Af)
                                        } else {
                                            Some(LanguageTag::AfZa)
                                        }
                                    } else {
                                        if i < 3 {
                                            Some(LanguageTag::Am)
                                        } else {
                                            if i < 4 {
                                                Some(LanguageTag::AmEt)
                                            } else {
                                                Some(LanguageTag::Ar)
                                            }
                                        }
                                    }
                                } else {
                                    if i < 7 {
                                        if i < 6 {
                                            Some(LanguageTag::ArAe)
                                        } else {
                                            Some(LanguageTag::ArBh)
                                        }
                                    } else {
                                        if i < 8 {
                                            Some(LanguageTag::ArDz)
                                        } else {
                                            if i < 9 {
                                                Some(LanguageTag::ArEg)
                                            } else {
                                                Some(LanguageTag::ArIq)
                                            }
                                        }
                                    }
                                }
                            } else {
                                if i < 15 {
                                    if i < 12 {
                                        if i < 11 {
                                            Some(LanguageTag::ArJo)
                                        } else {
                                            Some(LanguageTag::ArKw)
                                        }
                                    } else {
                                        if i < 13 {
                                            Some(LanguageTag::ArLb)
                                        } else {
                                            if i < 14 {
                                                Some(LanguageTag::ArLy)
                                            } else {
                                                Some(LanguageTag::ArMa)
                                            }
                                        }
                                    }
                                } else {
                                    if i < 18 {
                                        if i < 16 {
                                            Some(LanguageTag::ArOm)
                                        } else {
                                            if i < 17 {
                                                Some(LanguageTag::ArQa)
                                            } else {
                                                Some(LanguageTag::ArSa)
                                            }
                                        }
                                    } else {
                                        if i < 19 {
                                            Some(LanguageTag::ArSy)
                                        } else {
                                            if i < 20 {
                                                Some(LanguageTag::ArTn)
                                            } else {
                                                Some(LanguageTag::ArYe)
                                            }
                                        }
                                    }
                                }
                            }
                        } else {
                            if i < 32 {
                                if i < 26 {
                                    if i < 23 {
                                        if i < 22 {
                                            Some(LanguageTag::As)
                                        } else {
                                            Some(LanguageTag::AsIn)
                                        }
                                    } else {
                                        if i < 24 {
                                            Some(LanguageTag::Az)
                                        } else {
                                            if i < 25 {
                                                Some(LanguageTag::AzArab)
                                            } else {
                                                Some(LanguageTag::AzArabAz)
                                            }
                                        }
                                    }
                                } else {
                                    if i < 29 {
                                        if i < 27 {
                                            Some(LanguageTag::AzCyrl)
                                        } else {
                                            if i < 28 {
                                                Some(LanguageTag::AzCyrlAz)
                                            } else {
                                                Some(LanguageTag::AzLatn)
                                            }
                                        }
                                    } else {
                                        if i < 30 {
                                            Some(LanguageTag::AzLatnAz)
                                        } else {
                                            if i < 31 {
                                                Some(LanguageTag::Be)
                                            } else {
                                                Some(LanguageTag::BeBy)
                                            }
                                        }
                                    }
                                }
                            } else {
                                if i < 37 {
                                    if i < 34 {
                                        if i < 33 {
                                            Some(LanguageTag::Bg)
                                        } else {
                                            Some(LanguageTag::BgBg)
                                        }
                                    } else {
                                        if i < 35 {
                                            Some(LanguageTag::Bn)
                                        } else {
                                            if i < 36 {
                                                Some(LanguageTag::BnBd)
                                            } else {
                                                Some(LanguageTag::BnIn)
                                            }
                                        }
                                    }
                                } else {
                                    if i < 40 {
                                        if i < 38 {
                                            Some(LanguageTag::Bs)
                                        } else {
                                            if i < 39 {
                                                Some(LanguageTag::BsCyrl)
                                            } else {
                                                Some(LanguageTag::BsCyrlBa)
                                            }
                                        }
                                    } else {
                                        if i < 41 {
                                            Some(LanguageTag::BsLatn)
                                        } else {
                                            if i < 42 {
                                                Some(LanguageTag::BsLatnBa)
                                            } else {
                                                Some(LanguageTag::Ca)
                                            }
                                        }
                                    }
                                }
                            }
                        }
                    } else {
                        if i < 64 {
                            if i < 53 {
                                if i < 48 {
                                    if i < 45 {
                                        if i < 44 {
                                            Some(LanguageTag::CaEs)
                                        } else {
                                            Some(LanguageTag::CaEsValencia)
                                        }
                                    } else {
                                        if i < 46 {
                                            Some(LanguageTag::ChrCher)
                                        } else {
                                            if i < 47 {
                                                Some(LanguageTag::ChrCherUs)
                                            } else {
                                                Some(LanguageTag::ChrLatn)
                                            }
                                        }
                                    }
                                } else {
                                    if i < 50 {
                                        if i < 49 {
                                            Some(LanguageTag::Co)
                                        } else {
                                            Some(LanguageTag::Cs)
                                        }
                                    } else {
                                        if i < 51 {
                                            Some(LanguageTag::CsCz)
                                        } else {
                                            if i < 52 {
                                                Some(LanguageTag::Cy)
                                            } else {
                                                Some(LanguageTag::CyGb)
                                            }
                                        }
                                    }
                                }
                            } else {
                                if i < 58 {
                                    if i < 55 {
                                        if i < 54 {
                                            Some(LanguageTag::Da)
                                        } else {
                                            Some(LanguageTag::DaDk)
                                        }
                                    } else {
                                        if i < 56 {
                                            Some(LanguageTag::De)
                                        } else {
                                            if i < 57 {
                                                Some(LanguageTag::DeAt)
                                            } else {
                                                Some(LanguageTag::DeCh)
                                            }
                                        }
                                    }
                                } else {
                                    if i < 61 {
                                        if i < 59 {
                                            Some(LanguageTag::DeDe)
                                        } else {
                                            if i < 60 {
                                                Some(LanguageTag::DeLi)
                                            } else {
                                                Some(LanguageTag::DeLu)
                                            }
                                        }
                                    } else {
                                        if i < 62 {
                                            Some(LanguageTag::El)
                                        } else {
                                            if i < 63 {
                                                Some(LanguageTag::ElGr)
                                            } else {
                                                Some(LanguageTag::En)
                                            }
                                        }
                                    }
                                }
                            }
                        } else {
                            if i < 75 {
                                if i < 69 {
                                    if i < 66 {
                                        if i < 65 {
                                            Some(LanguageTag::En011)
                                        } else {
                                            Some(LanguageTag::En014)
                                        }
                                    } else {
                                        if i < 67 {
                                            Some(LanguageTag::En018)
                                        } else {
                                            if i < 68 {
                                                Some(LanguageTag::En021)
                                            } else {
                                                Some(LanguageTag::En029)
                                            }
                                        }
                                    }
                                } else {
                                    if i < 72 {
                                        if i < 70 {
                                            Some(LanguageTag::En053)
                                        } else {
                                            if i < 71 {
                                                Some(LanguageTag::EnAu)
                                            } else {
                                                Some(LanguageTag::EnBz)
                                            }
                                        }
                                    } else {
                                        if i < 73 {
                                            Some(LanguageTag::EnCa)
                                        } else {
                                            if i < 74 {
                                                Some(LanguageTag::EnGb)
                                            } else {
                                                Some(LanguageTag::EnHk)
                                            }
                                        }
                                    }
                                }
                            } else {
                                if i < 80 {
                                    if i < 77 {
                                        if i < 76 {
                                            Some(LanguageTag::EnId)
                                        } else {
                                            Some(LanguageTag::EnIe)
                                        }
                                    } else {
                                        if i < 78 {
                                            Some(LanguageTag::EnIn)
                                        } else {
                                            if i < 79 {
                                                Some(LanguageTag::EnJm)
                                            } else {
                                                Some(LanguageTag::EnKz)
                                            }
                                        }
                                    }
                                } else {
                                    if i < 83 {
                                        if i < 81 {
                                            Some(LanguageTag::EnMt)
                                        } else {
                                            if i < 82 {
                                                Some(LanguageTag::EnMy)
                                            } else {
                                                Some(LanguageTag::EnNz)
                                            }
                                        }
                                    } else {
                                        if i < 84 {
                                            Some(LanguageTag::EnPh)
                                        } else {
                                            if i < 85 {
                                                Some(LanguageTag::EnPk)
                                            } else {
                                                Some(LanguageTag::EnSg)
                                            }
                                        }
                                    }
                                }
                            }
                        }
                    }
                } else {
                    if i < 129 {
                        if i < 107 {
                            if i < 96 {
                                if i < 91 {
                                    if i < 88 {
                                        if i < 87 {
                                            Some(LanguageTag::EnTt)
                                        } else {
                                            Some(LanguageTag::EnUs)
                                        }
                                    } else {
                                        if i < 89 {
                                            Some(LanguageTag::EnVn)
                                        } else {
                                            if i < 90 {
                                                Some(LanguageTag::EnZa)
                                            } else {
                                                Some(LanguageTag::EnZw)
                                            }
                                        }
                                    }
                                } else {
                                    if i < 93 {
                                        if i < 92 {
                                            Some(LanguageTag::Es)
                                        } else {
                                            Some(LanguageTag::Es019)
                                        }
                                    } else {
                                        if i < 94 {
                                            Some(LanguageTag::Es419)
                                        } else {
                                            if i < 95 {
                                                Some(LanguageTag::EsAr)
                                            } else {
                                                Some(LanguageTag::EsBo)
                                            }
                                        }
                                    }
                                }
                            } else {
                                if i < 101 {
                                    if i < 98 {
                                        if i < 97 {
                                            Some(LanguageTag::EsCl)
                                        } else {
                                            Some(LanguageTag::EsCo)
                                        }
                                    } else {
                                        if i < 99 {
                                            Some(LanguageTag::EsCr)
                                        } else {
                                            if i < 100 {
                                                Some(LanguageTag::EsDo)
                                            } else {
                                                Some(LanguageTag::EsEc)
                                            }
                                        }
                                    }
                                } else {
                                    if i < 104 {
                                        if i < 102 {
                                            Some(LanguageTag::EsEs)
                                        } else {
                                            if i < 103 {
                                                Some(LanguageTag::EsGt)
                                            } else {
                                                Some(LanguageTag::EsHn)
                                            }
                                        }
                                    } else {
                                        if i < 105 {
                                            Some(LanguageTag::EsMx)
                                        } else {
                                            if i < 106 {
                                                Some(LanguageTag::EsNi)
                                            } else {
                                                Some(LanguageTag::EsPa)
                                            }
                                        }
                                    }
                                }
                            }
                        } else {
                            if i < 118 {
                                if i < 112 {
                                    if i < 109 {
                                        if i < 108 {
                                            Some(LanguageTag::EsPe)
                                        } else {
                                            Some(LanguageTag::EsPr)
                                        }
                                    } else {
                                        if i < 110 {
                                            Some(LanguageTag::EsPy)
                                        } else {
                                            if i < 111 {
                                                Some(LanguageTag::EsSv)
                                            } else {
                                                Some(LanguageTag::EsUs)
                                            }
                                        }
                                    }
                                } else {
                                    if i < 115 {
                                        if i < 113 {
                                            Some(LanguageTag::EsUy)
                                        } else {
                                            if i < 114 {
                                                Some(LanguageTag::EsVe)
                                            } else {
                                                Some(LanguageTag::Et)
                                            }
                                        }
                                    } else {
                                        if i < 116 {
                                            Some(LanguageTag::EtEe)
                                        } else {
                                            if i < 117 {
                                                Some(LanguageTag::Eu)
                                            } else {
                                                Some(LanguageTag::EuEs)
                                            }
                                        }
                                    }
                                }
                            } else {
                                if i < 123 {
                                    if i < 120 {
                                        if i < 119 {
                                            Some(LanguageTag::Fa)
                                        } else {
                                            Some(LanguageTag::FaIr)
                                        }
                                    } else {
                                        if i < 121 {
                                            Some(LanguageTag::Fi)
                                        } else {
                                            if i < 122 {
                                                Some(LanguageTag::FiFi)
                                            } else {
                                                Some(LanguageTag::Fil)
                                            }
                                        }
                                    }
                                } else {
                                    if i < 126 {
                                        if i < 124 {
                                            Some(LanguageTag::FilLatn)
                                        } else {
                                            if i < 125 {
                                                Some(LanguageTag::FilPh)
                                            } else {
                                                Some(LanguageTag::Fr)
                                            }
                                        }
                                    } else {
                                        if i < 127 {
                                            Some(LanguageTag::Fr011)
                                        } else {
                                            if i < 128 {
                                                Some(LanguageTag::Fr015)
                                            } else {
                                                Some(LanguageTag::Fr021)
                                            }
                                        }
                                    }
                                }
                            }
                        }
                    } else {
                        if i < 150 {
                            if i < 139 {
                                if i < 134 {
                                    if i < 131 {
                                        if i < 130 {
                                            Some(LanguageTag::Fr029)
                                        } else {
                                            Some(LanguageTag::Fr155)
                                        }
                                    } else {
                                        if i < 132 {
                                            Some(LanguageTag::FrBe)
                                        } else {
                                            if i < 133 {
                                                Some(LanguageTag::FrCa)
                                            } else {
                                                Some(LanguageTag::FrCd)
                                            }
                                        }
                                    }
                                } else {
                                    if i < 136 {
                                        if i < 135 {
                                            Some(LanguageTag::FrCh)
                                        } else {
                                            Some(LanguageTag::FrCi)
                                        }
                                    } else {
                                        if i < 137 {
                                            Some(LanguageTag::FrCm)
                                        } else {
                                            if i < 138 {
                                                Some(LanguageTag::FrFr)
                                            } else {
                                                Some(LanguageTag::FrHt)
                                            }
                                        }
                                    }
                                }
                            } else {
                                if i < 144 {
                                    if i < 141 {
                                        if i < 140 {
                                            Some(LanguageTag::FrLu)
                                        } else {
                                            Some(LanguageTag::FrMa)
                                        }
                                    } else {
                                        if i < 142 {
                                            Some(LanguageTag::FrMc)
                                        } else {
                                            if i < 143 {
                                                Some(LanguageTag::FrMl)
                                            } else {
                                                Some(LanguageTag::FrRe)
                                            }
                                        }
                                    }
                                } else {
                                    if i < 147 {
                                        if i < 145 {
                                            Some(LanguageTag::FrcLatn)
                                        } else {
                                            if i < 146 {
                                                Some(LanguageTag::FrpLatn)
                                            } else {
                                                Some(LanguageTag::Ga)
                                            }
                                        }
                                    } else {
                                        if i < 148 {
                                            Some(LanguageTag::GaIe)
                                        } else {
                                            if i < 149 {
                                                Some(LanguageTag::Gd)
                                            } else {
                                                Some(LanguageTag::GdGb)
                                            }
                                        }
                                    }
                                }
                            }
                        } else {
                            if i < 161 {
                                if i < 155 {
                                    if i < 152 {
                                        if i < 151 {
                                            Some(LanguageTag::GdLatn)
                                        } else {
                                            Some(LanguageTag::Gl)
                                        }
                                    } else {
                                        if i < 153 {
                                            Some(LanguageTag::GlEs)
                                        } else {
                                            if i < 154 {
                                                Some(LanguageTag::Gu)
                                            } else {
                                                Some(LanguageTag::GuIn)
                                            }
                                        }
                                    }
                                } else {
                                    if i < 158 {
                                        if i < 156 {
                                            Some(LanguageTag::Ha)
                                        } else {
                                            if i < 157 {
                                                Some(LanguageTag::HaLatn)
                                            } else {
                                                Some(LanguageTag::HaLatnNg)
                                            }
                                        }
                                    } else {
                                        if i < 159 {
                                            Some(LanguageTag::He)
                                        } else {
                                            if i < 160 {
                                                Some(LanguageTag::HeIl)
                                            } else {
                                                Some(LanguageTag::Hi)
                                            }
                                        }
                                    }
                                }
                            } else {
                                if i < 166 {
                                    if i < 163 {
                                        if i < 162 {
                                            Some(LanguageTag::HiIn)
                                        } else {
                                            Some(LanguageTag::Hr)
                                        }
                                    } else {
                                        if i < 164 {
                                            Some(LanguageTag::HrBa)
                                        } else {
                                            if i < 165 {
                                                Some(LanguageTag::HrHr)
                                            } else {
                                                Some(LanguageTag::Hu)
                                            }
                                        }
                                    }
                                } else {
                                    if i < 169 {
                                        if i < 167 {
                                            Some(LanguageTag::HuHu)
                                        } else {
                                            if i < 168 {
                                                Some(LanguageTag::Hy)
                                            } else {
                                                Some(LanguageTag::HyAm)
                                            }
                                        }
                                    } else {
                                        if i < 170 {
                                            Some(LanguageTag::Id)
                                        } else {
                                            if i < 171 {
                                                Some(LanguageTag::IdId)
                                            } else {
                                                Some(LanguageTag::IgLatn)
                                            }
                                        }
                                    }
                                }
                            }
                        }
                    }
                }
            } else {
                if i < 258 {
                    if i < 215 {
                        if i < 193 {
                            if i < 182 {
                                if i < 177 {
                                    if i < 174 {
                                        if i < 173 {
                                            Some(LanguageTag::IgNg)
                                        } else {
                                            Some(LanguageTag::Is)
                                        }
                                    } else {
                                        if i < 175 {
                                            Some(LanguageTag::IsIs)
                                        } else {
                                            if i < 176 {
                                                Some(LanguageTag::It)
                                            } else {
                                                Some(LanguageTag::ItCh)
                                            }
                                        }
                                    }
                                } else {
                                    if i < 179 {
                                        if i < 178 {
                                            Some(LanguageTag::ItIt)
                                        } else {
                                            Some(LanguageTag::IuCans)
                                        }
                                    } else {
                                        if i < 180 {
                                            Some(LanguageTag::IuLatn)
                                        } else {
                                            if i < 181 {
                                                Some(LanguageTag::IuLatnCa)
                                            } else {
                                                Some(LanguageTag::Ja)
                                            }
                                        }
                                    }
                                }
                            } else {
                                if i < 187 {
                                    if i < 184 {
                                        if i < 183 {
                                            Some(LanguageTag::JaJp)
                                        } else {
                                            Some(LanguageTag::Ka)
                                        }
                                    } else {
                                        if i < 185 {
                                            Some(LanguageTag::KaGe)
                                        } else {
                                            if i < 186 {
                                                Some(LanguageTag::Kk)
                                            } else {
                                                Some(LanguageTag::KkKz)
                                            }
                                        }
                                    }
                                } else {
                                    if i < 190 {
                                        if i < 188 {
                                            Some(LanguageTag::Km)
                                        } else {
                                            if i < 189 {
                                                Some(LanguageTag::KmKh)
                                            } else {
                                                Some(LanguageTag::Kn)
                                            }
                                        }
                                    } else {
                                        if i < 191 {
                                            Some(LanguageTag::KnIn)
                                        } else {
                                            if i < 192 {
                                                Some(LanguageTag::Ko)
                                            } else {
                                                Some(LanguageTag::KoKr)
                                            }
                                        }
                                    }
                                }
                            }
                        } else {
                            if i < 204 {
                                if i < 198 {
                                    if i < 195 {
                                        if i < 194 {
                                            Some(LanguageTag::Kok)
                                        } else {
                                            Some(LanguageTag::KokIn)
                                        }
                                    } else {
                                        if i < 196 {
                                            Some(LanguageTag::KuArab)
                                        } else {
                                            if i < 197 {
                                                Some(LanguageTag::KuArabIq)
                                            } else {
                                                Some(LanguageTag::KyCyrl)
                                            }
                                        }
                                    }
                                } else {
                                    if i < 201 {
                                        if i < 199 {
                                            Some(LanguageTag::KyKg)
                                        } else {
                                            if i < 200 {
                                                Some(LanguageTag::Lb)
                                            } else {
                                                Some(LanguageTag::LbLu)
                                            }
                                        }
                                    } else {
                                        if i < 202 {
                                            Some(LanguageTag::Lo)
                                        } else {
                                            if i < 203 {
                                                Some(LanguageTag::LoLa)
                                            } else {
                                                Some(LanguageTag::Lt)
                                            }
                                        }
                                    }
                                }
                            } else {
                                if i < 209 {
                                    if i < 206 {
                                        if i < 205 {
                                            Some(LanguageTag::LtLt)
                                        } else {
                                            Some(LanguageTag::Lv)
                                        }
                                    } else {
                                        if i < 207 {
                                            Some(LanguageTag::LvLv)
                                        } else {
                                            if i < 208 {
                                                Some(LanguageTag::Mi)
                                            } else {
                                                Some(LanguageTag::MiLatn)
                                            }
                                        }
                                    }
                                } else {
                                    if i < 212 {
                                        if i < 210 {
                                            Some(LanguageTag::MiNz)
                                        } else {
                                            if i < 211 {
                                                Some(LanguageTag::Mk)
                                            } else {
                                                Some(LanguageTag::MkMk)
                                            }
                                        }
                                    } else {
                                        if i < 213 {
                                            Some(LanguageTag::Ml)
                                        } else {
                                            if i < 214 {
                                                Some(LanguageTag::MlIn)
                                            } else {
                                                Some(LanguageTag::MnCyrl)
                                            }
                                        }
                                    }
                                }
                            }
                        }
                    } else {
                        if i < 236 {
                            if i < 225 {
                                if i < 220 {
                                    if i < 217 {
                                        if i < 216 {
                                            Some(LanguageTag::MnMn)
                                        } else {
                                            Some(LanguageTag::MnMong)
                                        }
                                    } else {
                                        if i < 218 {
                                            Some(LanguageTag::Mr)
                                        } else {
                                            if i < 219 {
                                                Some(LanguageTag::MrIn)
                                            } else {
                                                Some(LanguageTag::Ms)
                                            }
                                        }
                                    }
                                } else {
                                    if i < 222 {
                                        if i < 221 {
                                            Some(LanguageTag::MsBn)
                                        } else {
                                            Some(LanguageTag::MsMy)
                                        }
                                    } else {
                                        if i < 223 {
                                            Some(LanguageTag::Mt)
                                        } else {
                                            if i < 224 {
                                                Some(LanguageTag::MtMt)
                                            } else {
                                                Some(LanguageTag::Nb)
                                            }
                                        }
                                    }
                                }
                            } else {
                                if i < 230 {
                                    if i < 227 {
                                        if i < 226 {
                                            Some(LanguageTag::NbNo)
                                        } else {
                                            Some(LanguageTag::Ne)
                                        }
                                    } else {
                                        if i < 228 {
                                            Some(LanguageTag::NeNp)
                                        } else {
                                            if i < 229 {
                                                Some(LanguageTag::Nl)
                                            } else {
                                                Some(LanguageTag::NlBe)
                                            }
                                        }
                                    }
                                } else {
                                    if i < 233 {
                                        if i < 231 {
                                            Some(LanguageTag::NlNl)
                                        } else {
                                            if i < 232 {
                                                Some(LanguageTag::Nn)
                                            } else {
                                                Some(LanguageTag::NnNo)
                                            }
                                        }
                                    } else {
                                        if i < 234 {
                                            Some(LanguageTag::Nso)
                                        } else {
                                            if i < 235 {
                                                Some(LanguageTag::NsoZa)
                                            } else {
                                                Some(LanguageTag::Or)
                                            }
                                        }
                                    }
                                }
                            }
                        } else {
                            if i < 247 {
                                if i < 241 {
                                    if i < 238 {
                                        if i < 237 {
                                            Some(LanguageTag::OrIn)
                                        } else {
                                            Some(LanguageTag::Pa)
                                        }
                                    } else {
                                        if i < 239 {
                                            Some(LanguageTag::PaArab)
                                        } else {
                                            if i < 240 {
                                                Some(LanguageTag::PaArabPk)
                                            } else {
                                                Some(LanguageTag::PaDeva)
                                            }
                                        }
                                    }
                                } else {
                                    if i < 244 {
                                        if i < 242 {
                                            Some(LanguageTag::PaIn)
                                        } else {
                                            if i < 243 {
                                                Some(LanguageTag::Pl)
                                            } else {
                                                Some(LanguageTag::PlPl)
                                            }
                                        }
                                    } else {
                                        if i < 245 {
                                            Some(LanguageTag::Prs)
                                        } else {
                                            if i < 246 {
                                                Some(LanguageTag::PrsAf)
                                            } else {
                                                Some(LanguageTag::PrsArab)
                                            }
                                        }
                                    }
                                }
                            } else {
                                if i < 252 {
                                    if i < 249 {
                                        if i < 248 {
                                            Some(LanguageTag::Pt)
                                        } else {
                                            Some(LanguageTag::PtBr)
                                        }
                                    } else {
                                        if i < 250 {
                                            Some(LanguageTag::PtPt)
                                        } else {
                                            if i < 251 {
                                                Some(LanguageTag::QucLatn)
                                            } else {
                                                Some(LanguageTag::QutGt)
                                            }
                                        }
                                    }
                                } else {
                                    if i < 255 {
                                        if i < 253 {
                                            Some(LanguageTag::QutLatn)
                                        } else {
                                            if i < 254 {
                                                Some(LanguageTag::Quz)
                                            } else {
                                                Some(LanguageTag::QuzBo)
                                            }
                                        }
                                    } else {
                                        if i < 256 {
                                            Some(LanguageTag::QuzEc)
                                        } else {
                                            if i < 257 {
                                                Some(LanguageTag::QuzPe)
                                            } else {
                                                Some(LanguageTag::Ro)
                                            }
                                        }
                                    }
                                }
                            }
                        }
                    }
                } else {
                    if i < 301 {
                        if i < 279 {
                            if i < 268 {
                                if i < 263 {
                                    if i < 260 {
                                        if i < 259 {
                                            Some(LanguageTag::RoRo)
                                        } else {
                                            Some(LanguageTag::Ru)
                                        }
                                    } else {
                                        if i < 261 {
                                            Some(LanguageTag::RuRu)
                                        } else {
                                            if i < 262 {
                                                Some(LanguageTag::Rw)
                                            } else {
                                                Some(LanguageTag::RwRw)
                                            }
                                        }
                                    }
                                } else {
                                    if i < 265 {
                                        if i < 264 {
                                            Some(LanguageTag::SdArab)
                                        } else {
                                            Some(LanguageTag::SdArabPk)
                                        }
                                    } else {
                                        if i < 266 {
                                            Some(LanguageTag::SdDeva)
                                        } else {
                                            if i < 267 {
                                                Some(LanguageTag::Si)
                                            } else {
                                                Some(LanguageTag::SiLk)
                                            }
                                        }
                                    }
                                }
                            } else {
                                if i < 273 {
                                    if i < 270 {
                                        if i < 269 {
                                            Some(LanguageTag::Sk)
                                        } else {
                                            Some(LanguageTag::SkSk)
                                        }
                                    } else {
                                        if i < 271 {
                                            Some(LanguageTag::Sl)
                                        } else {
                                            if i < 272 {
                                                Some(LanguageTag::SlSi)
                                            } else {
                                                Some(LanguageTag::Sq)
                                            }
                                        }
                                    }
                                } else {
                                    if i < 276 {
                                        if i < 274 {
                                            Some(LanguageTag::SqAl)
                                        } else {
                                            if i < 275 {
                                                Some(LanguageTag::SrCyrl)
                                            } else {
                                                Some(LanguageTag::SrCyrlBa)
                                            }
                                        }
                                    } else {
                                        if i < 277 {
                                            Some(LanguageTag::SrCyrlCs)
                                        } else {
                                            if i < 278 {
                                                Some(LanguageTag::SrCyrlMe)
                                            } else {
                                                Some(LanguageTag::SrCyrlRs)
                                            }
                                        }
                                    }
                                }
                            }
                        } else {
                            if i < 290 {
                                if i < 284 {
                                    if i < 281 {
                                        if i < 280 {
                                            Some(LanguageTag::SrLatn)
                                        } else {
                                            Some(LanguageTag::SrLatnBa)
                                        }
                                    } else {
                                        if i < 282 {
                                            Some(LanguageTag::SrLatnCs)
                                        } else {
                                            if i < 283 {
                                                Some(LanguageTag::SrLatnMe)
                                            } else {
                                                Some(LanguageTag::SrLatnRs)
                                            }
                                        }
                                    }
                                } else {
                                    if i < 287 {
                                        if i < 285 {
                                            Some(LanguageTag::Sv)
                                        } else {
                                            if i < 286 {
                                                Some(LanguageTag::SvFi)
                                            } else {
                                                Some(LanguageTag::SvSe)
                                            }
                                        }
                                    } else {
                                        if i < 288 {
                                            Some(LanguageTag::Sw)
                                        } else {
                                            if i < 289 {
                                                Some(LanguageTag::SwKe)
                                            } else {
                                                Some(LanguageTag::Ta)
                                            }
                                        }
                                    }
                                }
                            } else {
                                if i < 295 {
                                    if i < 292 {
                                        if i < 291 {
                                            Some(LanguageTag::TaIn)
                                        } else {
                                            Some(LanguageTag::Te)
                                        }
                                    } else {
                                        if i < 293 {
                                            Some(LanguageTag::TeIn)
                                        } else {
                                            if i < 294 {
                                                Some(LanguageTag::TgArab)
                                            } else {
                                                Some(LanguageTag::TgCyrl)
                                            }
                                        }
                                    }
                                } else {
                                    if i < 298 {
                                        if i < 296 {
                                            Some(LanguageTag::TgCyrlTj)
                                        } else {
                                            if i < 297 {
                                                Some(LanguageTag::TgLatn)
                                            } else {
                                                Some(LanguageTag::Th)
                                            }
                                        }
                                    } else {
                                        if i < 299 {
                                            Some(LanguageTag::ThTh)
                                        } else {
                                            if i < 300 {
                                                Some(LanguageTag::Ti)
                                            } else {
                                                Some(LanguageTag::TiEt)
                                            }
                                        }
                                    }
                                }
                            }
                        }
                    } else {
                        if i < 322 {
                            if i < 311 {
                                if i < 306 {
                                    if i < 303 {
                                        if i < 302 {
                                            Some(LanguageTag::TkCyrl)
                                        } else {
                                            Some(LanguageTag::TkCyrlTr)
                                        }
                                    } else {
                                        if i < 304 {
                                            Some(LanguageTag::TkLatn)
                                        } else {
                                            if i < 305 {
                                                Some(LanguageTag::TkLatnTr)
                                            } else {
                                                Some(LanguageTag::TkTm)
                                            }
                                        }
                                    }
                                } else {
                                    if i < 308 {
                                        if i < 307 {
                                            Some(LanguageTag::Tn)
                                        } else {
                                            Some(LanguageTag::TnBw)
                                        }
                                    } else {
                                        if i < 309 {
                                            Some(LanguageTag::TnZa)
                                        } else {
                                            if i < 310 {
                                                Some(LanguageTag::Tr)
                                            } else {
                                                Some(LanguageTag::TrTr)
                                            }
                                        }
                                    }
                                }
                            } else {
                                if i < 316 {
                                    if i < 313 {
                                        if i < 312 {
                                            Some(LanguageTag::TtArab)
                                        } else {
                                            Some(LanguageTag::TtCyrl)
                                        }
                                    } else {
                                        if i < 314 {
                                            Some(LanguageTag::TtLatn)
                                        } else {
                                            if i < 315 {
                                                Some(LanguageTag::TtRu)
                                            } else {
                                                Some(LanguageTag::UgArab)
                                            }
                                        }
                                    }
                                } else {
                                    if i < 319 {
                                        if i < 317 {
                                            Some(LanguageTag::UgCn)
                                        } else {
                                            if i < 318 {
                                                Some(LanguageTag::UgCyrl)
                                            } else {
                                                Some(LanguageTag::UgLatn)
                                            }
                                        }
                                    } else {
                                        if i < 320 {
                                            Some(LanguageTag::Uk)
                                        } else {
                                            if i < 321 {
                                                Some(LanguageTag::UkUa)
                                            } else {
                                                Some(LanguageTag::Ur)
                                            }
                                        }
                                    }
                                }
                            }
                        } else {
                            if i < 333 {
                                if i < 327 {
                                    if i < 324 {
                                        if i < 323 {
                                            Some(LanguageTag::UrPk)
                                        } else {
                                            Some(LanguageTag::Uz)
                                        }
                                    } else {
                                        if i < 325 {
                                            Some(LanguageTag::UzCyrl)
                                        } else {
                                            if i < 326 {
                                                Some(LanguageTag::UzLatn)
                                            } else {
                                                Some(LanguageTag::UzLatnUz)
                                            }
                                        }
                                    }
                                } else {
                                    if i < 330 {
                                        if i < 328 {
                                            Some(LanguageTag::Vi)
                                        } else {
                                            if i < 329 {
                                                Some(LanguageTag::ViVn)
                                            } else {
                                                Some(LanguageTag::Wo)
                                            }
                                        }
                                    } else {
                                        if i < 331 {
                                            Some(LanguageTag::WoSn)
                                        } else {
                                            if i < 332 {
                                                Some(LanguageTag::Xh)
                                            } else {
                                                Some(LanguageTag::XhZa)
                                            }
                                        }
                                    }
                                }
                            } else {
                                if i < 338 {
                                    if i < 335 {
                                        if i < 334 {
                                            Some(LanguageTag::YoLatn)
                                        } else {
                                            Some(LanguageTag::YoNg)
                                        }
                                    } else {
                                        if i < 336 {
                                            Some(LanguageTag::ZhHans)
                                        } else {
                                            if i < 337 {
                                                Some(LanguageTag::ZhHansCn)
                                            } else {
                                                Some(LanguageTag::ZhHansSg)
                                            }
                                        }
                                    }
                                } else {
                                    if i < 341 {
                                        if i < 339 {
                                            Some(LanguageTag::ZhHant)
                                        } else {
                                            if i < 340 {
                                                Some(LanguageTag::ZhHantHk)
                                            } else {
                                                Some(LanguageTag::ZhHantMo)
                                            }
                                        }
                                    } else {
                                        if i < 342 {
                                            Some(LanguageTag::ZhHantTw)
                                        } else {
                                            if i < 343 {
                                                Some(LanguageTag::Zu)
                                            } else {
                                                Some(LanguageTag::ZuZa)
                                            }
                                        }
                                    }
                                }
                            }
                        }
                    }
                }
            }
        }
    }

    /// Every value, in table order.
    pub fn all() -> (r: Vec<LanguageTag>)
        ensures
            r@.len() == LANGUAGETAG_COUNT,
            forall|i: int| 0 <= i < LANGUAGETAG_COUNT ==> tag_at(i) == Some(#[trigger] r@[i]),
    {
        let mut r: Vec<LanguageTag> = Vec::new();
        for i in 0..LANGUAGETAG_COUNT
            invariant
                r@.len() == i,
                forall|j: int| 0 <= j < i ==> tag_at(j) == Some(#[trigger] r@[j]),
        {
            let x = LanguageTag::from_index(i).unwrap();
            r.push(x);
        }
        r
    }

    /// The value whose code is `s`, compared without regard to ASCII case.
    pub fn parse_code(s: &str) -> (r: Option<LanguageTag>)
        ensures
            r matches Some(x) ==> ascii_lower(tag_code(x)) == ascii_lower(s@),
            r is None ==> forall|x: LanguageTag| !(ascii_lower(tag_code(x)) == ascii_lower(s@)),
    {
        let chars = chars_of(s);
        let want = lower_chars(chars.as_slice());
        for i in 0..LANGUAGETAG_COUNT
            invariant
                want@ == ascii_lower(s@),
                forall|j: int| 0 <= j < i ==> !(ascii_lower(tag_code(#[trigger] tag_at(j)->0)) == ascii_lower(s@)),
        {
            let x = LanguageTag::from_index(i).unwrap();
            let code = chars_of(x.as_str());
            let code = lower_chars(code.as_slice());
            if chars_eq(code.as_slice(), want.as_slice()) {
                return Some(x);
            }
        }
        assert forall|x: LanguageTag| !(ascii_lower(tag_code(x)) == ascii_lower(s@)) by {
            lemma_tag_index(x);
            let j = tag_index(x);
            assert(tag_at(j)->0 == x);
        }
        None
    }
}

/// The ISO 639-1 language of a tag's primary subtag, when it has one.
pub open spec fn tag_lang(t: LanguageTag) -> Option<Lang> {
    match t {
        LanguageTag::Af => Some(Lang::Af),
        LanguageTag::AfZa => Some(Lang::Af),
        LanguageTag::Am => Some(Lang::Am),
        LanguageTag::AmEt => Some(Lang::Am),
        LanguageTag::Ar => Some(Lang::Ar),
        LanguageTag::ArAe => Some(Lang::Ar),
        LanguageTag::ArBh => Some(Lang::Ar),
        LanguageTag::ArDz => Some(Lang::Ar),
        LanguageTag::ArEg => Some(Lang::Ar),
        LanguageTag::ArIq => Some(Lang::Ar),
        LanguageTag::ArJo => Some(Lang::Ar),
        LanguageTag::ArKw => Some(Lang::Ar),
        LanguageTag::ArLb => Some(Lang::Ar),
        LanguageTag::ArLy => Some(Lang::Ar),
        LanguageTag::ArMa => Some(Lang::Ar),
        LanguageTag::ArOm => Some(Lang::Ar),
        LanguageTag::ArQa => Some(Lang::Ar),
        LanguageTag::ArSa => Some(Lang::Ar),
        LanguageTag::ArSy => Some(Lang::Ar),
        LanguageTag::ArTn => Some(Lang::Ar),
        LanguageTag::ArYe => Some(Lang::Ar),
        LanguageTag::As => Some(Lang::As),
        LanguageTag::AsIn => Some(Lang::As),
        LanguageTag::Az => Some(Lang::Az),
        LanguageTag::AzArab => Some(Lang::Az),
        LanguageTag::AzArabAz => Some(Lang::Az),
        LanguageTag::AzCyrl => Some(Lang::Az),
        LanguageTag::AzCyrlAz => Some(Lang::Az),
        LanguageTag::AzLatn => Some(Lang::Az),
        LanguageTag::AzLatnAz => Some(Lang::Az),
        LanguageTag::Be => Some(Lang::Be),
        LanguageTag::BeBy => Some(Lang::Be),
        LanguageTag::Bg => Some(Lang::Bg),
        LanguageTag::BgBg => Some(Lang::Bg),
        LanguageTag::Bn => Some(Lang::Bn),
        LanguageTag::BnBd => Some(Lang::Bn),
        LanguageTag::BnIn => Some(Lang::Bn),
        LanguageTag::Bs => Some(Lang::Bs),
        LanguageTag::BsCyrl => Some(Lang::Bs),
        LanguageTag::BsCyrlBa => Some(Lang::Bs),
        LanguageTag::BsLatn => Some(Lang::Bs),
        LanguageTag::BsLatnBa => Some(Lang::Bs),
        LanguageTag::Ca => Some(Lang::Ca),
        LanguageTag::CaEs => Some(Lang::Ca),
        LanguageTag::CaEsValencia => Some(Lang::Ca),
        LanguageTag::ChrCher => None,
        LanguageTag::ChrCherUs => None,
        LanguageTag::ChrLatn => None,
        LanguageTag::Co => Some(Lang::Co),
        LanguageTag::Cs => Some(Lang::Cs),
        LanguageTag::CsCz => Some(Lang::Cs),
        LanguageTag::Cy => Some(Lang::Cy),
        LanguageTag::CyGb => Some(Lang::Cy),
        LanguageTag::Da => Some(Lang::Da),
        LanguageTag::DaDk => Some(Lang::Da),
        LanguageTag::De => Some(Lang::De),
        LanguageTag::DeAt => Some(Lang::De),
        LanguageTag::DeCh => Some(Lang::De),
        LanguageTag::DeDe => Some(Lang::De),
        LanguageTag::DeLi => Some(Lang::De),
        LanguageTag::DeLu => Some(Lang::De),
        LanguageTag::El => Some(Lang::El),
        LanguageTag::ElGr => Some(Lang::El),
        LanguageTag::En => Some(Lang::En),
        LanguageTag::En011 => Some(Lang::En),
        LanguageTag::En014 => Some(Lang::En),
        LanguageTag::En018 => Some(Lang::En),
        LanguageTag::En021 => Some(Lang::En),
        LanguageTag::En029 => Some(Lang::En),
        LanguageTag::En053 => Some(Lang::En),
        LanguageTag::EnAu => Some(Lang::En),
        LanguageTag::EnBz => Some(Lang::En),
        LanguageTag::EnCa => Some(Lang::En),
        LanguageTag::EnGb => Some(Lang::En),
        LanguageTag::EnHk => Some(Lang::En),
        LanguageTag::EnId => Some(Lang::En),
        LanguageTag::EnIe => Some(Lang::En),
        LanguageTag::EnIn => Some(Lang::En),
        LanguageTag::EnJm => Some(Lang::En),
        LanguageTag::EnKz => Some(Lang::En),
        LanguageTag::EnMt => Some(Lang::En),
        LanguageTag::EnMy => Some(Lang::En),
        LanguageTag::EnNz => Some(Lang::En),
        LanguageTag::EnPh => Some(Lang::En),
        LanguageTag::EnPk => Some(Lang::En),
        LanguageTag::EnSg => Some(Lang::En),
        LanguageTag::EnTt => Some(Lang::En),
        LanguageTag::EnUs => Some(Lang::En),
        LanguageTag::EnVn => Some(Lang::En),
        LanguageTag::EnZa => Some(Lang::En),
        LanguageTag::EnZw => Some(Lang::En),
        LanguageTag::Es => Some(Lang::Es),
        LanguageTag::Es019 => Some(Lang::Es),
        LanguageTag::Es419 => Some(Lang::Es),
        LanguageTag::EsAr => Some(Lang::Es),
        LanguageTag::EsBo => Some(Lang::Es),
        LanguageTag::EsCl => Some(Lang::Es),
        LanguageTag::EsCo => Some(Lang::Es),
        LanguageTag::EsCr => Some(Lang::Es),
        LanguageTag::EsDo => Some(Lang::Es),
        LanguageTag::EsEc => Some(Lang::Es),
        LanguageTag::EsEs => Some(Lang::Es),
        LanguageTag::EsGt => Some(Lang::Es),
        LanguageTag::EsHn => Some(Lang::Es),
        LanguageTag::EsMx => Some(Lang::Es),
        LanguageTag::EsNi => Some(Lang::Es),
        LanguageTag::EsPa => Some(Lang::Es),
        LanguageTag::EsPe => Some(Lang::Es),
        LanguageTag::EsPr => Some(Lang::Es),
        LanguageTag::EsPy => Some(Lang::Es),
        LanguageTag::EsSv => Some(Lang::Es),
        LanguageTag::EsUs => Some(Lang::Es),
        LanguageTag::EsUy => Some(Lang::Es),
        LanguageTag::EsVe => Some(Lang::Es),
        LanguageTag::Et => Some(Lang::Et),
        LanguageTag::EtEe => Some(Lang::Et),
        LanguageTag::Eu => Some(Lang::Eu),
        LanguageTag::EuEs => Some(Lang::Eu),
        LanguageTag::Fa => Some(Lang::Fa),
        LanguageTag::FaIr => Some(Lang::Fa),
        LanguageTag::Fi => Some(Lang::Fi),
        LanguageTag::FiFi => Some(Lang::Fi),
        LanguageTag::Fil => None,
        LanguageTag::FilLatn => None,
        LanguageTag::FilPh => None,
        LanguageTag::Fr => Some(Lang::Fr),
        LanguageTag::Fr011 => Some(Lang::Fr),
        LanguageTag::Fr015 => Some(Lang::Fr),
        LanguageTag::Fr021 => Some(Lang::Fr),
        LanguageTag::Fr029 => Some(Lang::Fr),
        LanguageTag::Fr155 => Some(Lang::Fr),
        LanguageTag::FrBe => Some(Lang::Fr),
        LanguageTag::FrCa => Some(Lang::Fr),
        LanguageTag::FrCd => Some(Lang::Fr),
        LanguageTag::FrCh => Some(Lang::Fr),
        LanguageTag::FrCi => Some(Lang::Fr),
        LanguageTag::FrCm => Some(Lang::Fr),
        LanguageTag::FrFr => Some(Lang::Fr),
        LanguageTag::FrHt => Some(Lang::Fr),
        LanguageTag::FrLu => Some(Lang::Fr),
        LanguageTag::FrMa => Some(Lang::Fr),
        LanguageTag::FrMc => Some(Lang::Fr),
        LanguageTag::FrMl => Some(Lang::Fr),
        LanguageTag::FrRe => Some(Lang::Fr),
        LanguageTag::FrcLatn => None,
        LanguageTag::FrpLatn => None,
        LanguageTag::Ga => Some(Lang::Ga),
        LanguageTag::GaIe => Some(Lang::Ga),
        LanguageTag::Gd => Some(Lang::Gd),
        LanguageTag::GdGb => Some(Lang::Gd),
        LanguageTag::GdLatn => Some(Lang::Gd),
        LanguageTag::Gl => Some(Lang::Gl),
        LanguageTag::GlEs => Some(Lang::Gl),
        LanguageTag::Gu => Some(Lang::Gu),
        LanguageTag::GuIn => Some(Lang::Gu),
        LanguageTag::Ha => Some(Lang::Ha),
        LanguageTag::HaLatn => Some(Lang::Ha),
        LanguageTag::HaLatnNg => Some(Lang::Ha),
        LanguageTag::He => Some(Lang::He),
        LanguageTag::HeIl => Some(Lang::He),
        LanguageTag::Hi => Some(Lang::Hi),
        LanguageTag::HiIn => Some(Lang::Hi),
        LanguageTag::Hr => Some(Lang::Hr),
        LanguageTag::HrBa => Some(Lang::Hr),
        LanguageTag::HrHr => Some(Lang::Hr),
        LanguageTag::Hu => Some(Lang::Hu),
        LanguageTag::HuHu => Some(Lang::Hu),
        LanguageTag::Hy => Some(Lang::Hy),
        LanguageTag::HyAm => Some(Lang::Hy),
        LanguageTag::Id => Some(Lang::Id),
        LanguageTag::IdId => Some(Lang::Id),
        LanguageTag::IgLatn => Some(Lang::Ig),
        LanguageTag::IgNg => Some(Lang::Ig),
        LanguageTag::Is => Some(Lang::Is),
        LanguageTag::IsIs => Some(Lang::Is),
        LanguageTag::It => Some(Lang::It),
        LanguageTag::ItCh => Some(Lang::It),
        LanguageTag::ItIt => Some(Lang::It),
        LanguageTag::IuCans => Some(Lang::Iu),
        LanguageTag::IuLatn => Some(Lang::Iu),
        LanguageTag::IuLatnCa => Some(Lang::Iu),
        LanguageTag::Ja => Some(Lang::Ja),
        LanguageTag::JaJp => Some(Lang::Ja),
        LanguageTag::Ka => Some(Lang::Ka),
        LanguageTag::KaGe => Some(Lang::Ka),
        LanguageTag::Kk => Some(Lang::Kk),
        LanguageTag::KkKz => Some(Lang::Kk),
        LanguageTag::Km => Some(Lang::Km),
        LanguageTag::KmKh => Some(Lang::Km),
        LanguageTag::Kn => Some(Lang::Kn),
        LanguageTag::KnIn => Some(Lang::Kn),
        LanguageTag::Ko => Some(Lang::Ko),
        LanguageTag::KoKr => Some(Lang::Ko),
        LanguageTag::Kok => None,
        LanguageTag::KokIn => None,
        LanguageTag::KuArab => Some(Lang::Ku),
        LanguageTag::KuArabIq => Some(Lang::Ku),
        LanguageTag::KyCyrl => Some(Lang::Ky),
        LanguageTag::KyKg => Some(Lang::Ky),
        LanguageTag::Lb => Some(Lang::Lb),
        LanguageTag::LbLu => Some(Lang::Lb),
        LanguageTag::Lo => Some(Lang::Lo),
        LanguageTag::LoLa => Some(Lang::Lo),
        LanguageTag::Lt => Some(Lang::Lt),
        LanguageTag::LtLt => Some(Lang::Lt),
        LanguageTag::Lv => Some(Lang::Lv),
        LanguageTag::LvLv => Some(Lang::Lv),
        LanguageTag::Mi => Some(Lang::Mi),
        LanguageTag::MiLatn => Some(Lang::Mi),
        LanguageTag::MiNz => Some(Lang::Mi),
        LanguageTag::Mk => Some(Lang::Mk),
        LanguageTag::MkMk => Some(Lang::Mk),
        LanguageTag::Ml => Some(Lang::Ml),
        LanguageTag::MlIn => Some(Lang::Ml),
        LanguageTag::MnCyrl => Some(Lang::Mn),
        LanguageTag::MnMn => Some(Lang::Mn),
        LanguageTag::MnMong => Some(Lang::Mn),
        LanguageTag::Mr => Some(Lang::Mr),
        LanguageTag::MrIn => Some(Lang::Mr),
        LanguageTag::Ms => Some(Lang::Ms),
        LanguageTag::MsBn => Some(Lang::Ms),
        LanguageTag::MsMy => Some(Lang::Ms),
        LanguageTag::Mt => Some(Lang::Mt),
        LanguageTag::MtMt => Some(Lang::Mt),
        LanguageTag::Nb => Some(Lang::Nb),
        LanguageTag::NbNo => Some(Lang::Nb),
        LanguageTag::Ne => Some(Lang::Ne),
        LanguageTag::NeNp => Some(Lang::Ne),
        LanguageTag::Nl => Some(Lang::Nl),
        LanguageTag::NlBe => Some(Lang::Nl),
        LanguageTag::NlNl => Some(Lang::Nl),
        LanguageTag::Nn => Some(Lang::Nn),
        LanguageTag::NnNo => Some(Lang::Nn),
        LanguageTag::Nso => None,
        LanguageTag::NsoZa => None,
        LanguageTag::Or => Some(Lang::Or),
        LanguageTag::OrIn => Some(Lang::Or),
        LanguageTag::Pa => Some(Lang::Pa),
        LanguageTag::PaArab => Some(Lang::Pa),
        LanguageTag::PaArabPk => Some(Lang::Pa),
        LanguageTag::PaDeva => Some(Lang::Pa),
        LanguageTag::PaIn => Some(Lang::Pa),
        LanguageTag::Pl => Some(Lang::Pl),
        LanguageTag::PlPl => Some(Lang::Pl),
        LanguageTag::Prs => None,
        LanguageTag::PrsAf => None,
        LanguageTag::PrsArab => None,
        LanguageTag::Pt => Some(Lang::Pt),
        LanguageTag::PtBr => Some(Lang::Pt),
        LanguageTag::PtPt => Some(Lang::Pt),
        LanguageTag::QucLatn => None,
        LanguageTag::QutGt => None,
        LanguageTag::QutLatn => None,
        LanguageTag::Quz => None,
        LanguageTag::QuzBo => None,
        LanguageTag::QuzEc => None,
        LanguageTag::QuzPe => None,
        LanguageTag::Ro => Some(Lang::Ro),
        LanguageTag::RoRo => Some(Lang::Ro),
        LanguageTag::Ru => Some(Lang::Ru),
        LanguageTag::RuRu => Some(Lang::Ru),
        LanguageTag::Rw => Some(Lang::Rw),
        LanguageTag::RwRw => Some(Lang::Rw),
        LanguageTag::SdArab => Some(Lang::Sd),
        LanguageTag::SdArabPk => Some(Lang::Sd),
        LanguageTag::SdDeva => Some(Lang::Sd),
        LanguageTag::Si => Some(Lang::Si),
        LanguageTag::SiLk => Some(Lang::Si),
        LanguageTag::Sk => Some(Lang::Sk),
        LanguageTag::SkSk => Some(Lang::Sk),
        LanguageTag::Sl => Some(Lang::Sl),
        LanguageTag::SlSi => Some(Lang::Sl),
        LanguageTag::Sq => Some(Lang::Sq),
        LanguageTag::SqAl => Some(Lang::Sq),
        LanguageTag::SrCyrl => Some(Lang::Sr),
        LanguageTag::SrCyrlBa => Some(Lang::Sr),
        LanguageTag::SrCyrlCs => Some(Lang::Sr),
        LanguageTag::SrCyrlMe => Some(Lang::Sr),
        LanguageTag::SrCyrlRs => Some(Lang::Sr),
        LanguageTag::SrLatn => Some(Lang::Sr),
        LanguageTag::SrLatnBa => Some(Lang::Sr),
        LanguageTag::SrLatnCs => Some(Lang::Sr),
        LanguageTag::SrLatnMe => Some(Lang::Sr),
        LanguageTag::SrLatnRs => Some(Lang::Sr),
        LanguageTag::Sv => Some(Lang::Sv),
        LanguageTag::SvFi => Some(Lang::Sv),
        LanguageTag::SvSe => Some(Lang::Sv),
        LanguageTag::Sw => Some(Lang::Sw),
        LanguageTag::SwKe => Some(Lang::Sw),
        LanguageTag::Ta => Some(Lang::Ta),
        LanguageTag::TaIn => Some(Lang::Ta),
        LanguageTag::Te => Some(Lang::Te),
        LanguageTag::TeIn => Some(Lang::Te),
        LanguageTag::TgArab => Some(Lang::Tg),
        LanguageTag::TgCyrl => Some(Lang::Tg),
        LanguageTag::TgCyrlTj => Some(Lang::Tg),
        LanguageTag::TgLatn => Some(Lang::Tg),
        LanguageTag::Th => Some(Lang::Th),
        LanguageTag::ThTh => Some(Lang::Th),
        LanguageTag::Ti => Some(Lang::Ti),
        LanguageTag::TiEt => Some(Lang::Ti),
        LanguageTag::TkCyrl => Some(Lang::Tk),
        LanguageTag::TkCyrlTr => Some(Lang::Tk),
        LanguageTag::TkLatn => Some(Lang::Tk),
        LanguageTag::TkLatnTr => Some(Lang::Tk),
        LanguageTag::TkTm => Some(Lang::Tk),
        LanguageTag::Tn => Some(Lang::Tn),
        LanguageTag::TnBw => Some(Lang::Tn),
        LanguageTag::TnZa => Some(Lang::Tn),
        LanguageTag::Tr => Some(Lang::Tr),
        LanguageTag::TrTr => Some(Lang::Tr),
        LanguageTag::TtArab => Some(Lang::Tt),
        LanguageTag::TtCyrl => Some(Lang::Tt),
        LanguageTag::TtLatn => Some(Lang::Tt),
        LanguageTag::TtRu => Some(Lang::Tt),
        LanguageTag::UgArab => Some(Lang::Ug),
        LanguageTag::UgCn => Some(Lang::Ug),
        LanguageTag::UgCyrl => Some(Lang::Ug),
        LanguageTag::UgLatn => Some(Lang::Ug),
        LanguageTag::Uk => Some(Lang::Uk),
        LanguageTag::UkUa => Some(Lang::Uk),
        LanguageTag::Ur => Some(Lang::Ur),
        LanguageTag::UrPk => Some(Lang::Ur),
        LanguageTag::Uz => Some(Lang::Uz),
        LanguageTag::UzCyrl => Some(Lang::Uz),
        LanguageTag::UzLatn => Some(Lang::Uz),
        LanguageTag::UzLatnUz => Some(Lang::Uz),
        LanguageTag::Vi => Some(Lang::Vi),
        LanguageTag::ViVn => Some(Lang::Vi),
        LanguageTag::Wo => Some(Lang::Wo),
        LanguageTag::WoSn => Some(Lang::Wo),
        LanguageTag::Xh => Some(Lang::Xh),
        LanguageTag::XhZa => Some(Lang::Xh),
        LanguageTag::YoLatn => Some(Lang::Yo),
        LanguageTag::YoNg => Some(Lang::Yo),
        LanguageTag::ZhHans => Some(Lang::Zh),
        LanguageTag::ZhHansCn => Some(Lang::Zh),
        LanguageTag::ZhHansSg => Some(Lang::Zh),
        LanguageTag::ZhHant => Some(Lang::Zh),
        LanguageTag::ZhHantHk => Some(Lang::Zh),
        LanguageTag::ZhHantMo => Some(Lang::Zh),
        LanguageTag::ZhHantTw => Some(Lang::Zh),
        LanguageTag::Zu => Some(Lang::Zu),
        LanguageTag::ZuZa => Some(Lang::Zu),
    }
}

/// The market of a tag's region subtag, when it names one.
pub open spec fn tag_region(t: LanguageTag) -> Option<Market> {
    match t {
        LanguageTag::Af => None,
        LanguageTag::AfZa => Some(Market::Za),
        LanguageTag::Am => None,
        LanguageTag::AmEt => Some(Market::Et),
        LanguageTag::Ar => None,
        LanguageTag::ArAe => Some(Market::Ae),
        LanguageTag::ArBh => Some(Market::Bh),
        LanguageTag::ArDz => Some(Market::Dz),
        LanguageTag::ArEg => Some(Market::Eg),
        LanguageTag::ArIq => Some(Market::Iq),
        LanguageTag::ArJo => Some(Market::Jo),
        LanguageTag::ArKw => Some(Market::Kw),
        LanguageTag::ArLb => Some(Market::Lb),
        LanguageTag::ArLy => Some(Market::Ly),
        LanguageTag::ArMa => Some(Market::Ma),
        LanguageTag::ArOm => Some(Market::Om),
        LanguageTag::ArQa => Some(Market::Qa),
        LanguageTag::ArSa => Some(Market::Sa),
        LanguageTag::ArSy => Some(Market::Sy),
        LanguageTag::ArTn => Some(Market::Tn),
        LanguageTag::ArYe => Some(Market::Ye),
        LanguageTag::As => None,
        LanguageTag::AsIn => Some(Market::In),
        LanguageTag::Az => None,
        LanguageTag::AzArab => None,
        LanguageTag::AzArabAz => Some(Market::Az),
        LanguageTag::AzCyrl => None,
        LanguageTag::AzCyrlAz => Some(Market::Az),
        LanguageTag::AzLatn => None,
        LanguageTag::AzLatnAz => Some(Market::Az),
        LanguageTag::Be => None,
        LanguageTag::BeBy => Some(Market::By),
        LanguageTag::Bg => None,
        LanguageTag::BgBg => Some(Market::Bg),
        LanguageTag::Bn => None,
        LanguageTag::BnBd => Some(Market::Bd),
        LanguageTag::BnIn => Some(Market::In),
        LanguageTag::Bs => None,
        LanguageTag::BsCyrl => None,
        LanguageTag::BsCyrlBa => Some(Market::Ba),
        LanguageTag::BsLatn => None,
        LanguageTag::BsLatnBa => Some(Market::Ba),
        LanguageTag::Ca => None,
        LanguageTag::CaEs => Some(Market::Es),
        LanguageTag::CaEsValencia => Some(Market::Es),
        LanguageTag::ChrCher => None,
        LanguageTag::ChrCherUs => Some(Market::Us),
        LanguageTag::ChrLatn => None,
        LanguageTag::Co => None,
        LanguageTag::Cs => None,
        LanguageTag::CsCz => Some(Market::Cz),
        LanguageTag::Cy => None,
        LanguageTag::CyGb => Some(Market::Gb),
        LanguageTag::Da => None,
        LanguageTag::DaDk => Some(Market::Dk),
        LanguageTag::De => None,
        LanguageTag::DeAt => Some(Market::At),
        LanguageTag::DeCh => Some(Market::Ch),
        LanguageTag::DeDe => Some(Market::De),
        LanguageTag::DeLi => Some(Market::Li),
        LanguageTag::DeLu => Some(Market::Lu),
        LanguageTag::El => None,
        LanguageTag::ElGr => Some(Market::Gr),
        LanguageTag::En => None,
        LanguageTag::En011 => None,
        LanguageTag::En014 => None,
        LanguageTag::En018 => None,
        LanguageTag::En021 => None,
        LanguageTag::En029 => None,
        LanguageTag::En053 => None,
        LanguageTag::EnAu => Some(Market::Au),
        LanguageTag::EnBz => Some(Market::Bz),
        LanguageTag::EnCa => Some(Market::Ca),
        LanguageTag::EnGb => Some(Market::Gb),
        LanguageTag::EnHk => Some(Market::Hk),
        LanguageTag::EnId => Some(Market::Id),
        LanguageTag::EnIe => Some(Market::Ie),
        LanguageTag::EnIn => Some(Market::In),
        LanguageTag::EnJm => Some(Market::Jm),
        LanguageTag::EnKz => Some(Market::Kz),
        LanguageTag::EnMt => Some(Market::Mt),
        LanguageTag::EnMy => Some(Market::My),
        LanguageTag::EnNz => Some(Market::Nz),
        LanguageTag::EnPh => Some(Market::Ph),
        LanguageTag::EnPk => Some(Market::Pk),
        LanguageTag::EnSg => Some(Market::Sg),
        LanguageTag::EnTt => Some(Market::Tt),
        LanguageTag::EnUs => Some(Market::Us),
        LanguageTag::EnVn => Some(Market::Vn),
        LanguageTag::EnZa => Some(Market::Za),
        LanguageTag::EnZw => Some(Market::Zw),
        LanguageTag::Es => None,
        LanguageTag::Es019 => None,
        LanguageTag::Es419 => None,
        LanguageTag::EsAr => Some(Market::Ar),
        LanguageTag::EsBo => Some(Market::Bo),
        LanguageTag::EsCl => Some(Market::Cl),
        LanguageTag::EsCo => Some(Market::Co),
        LanguageTag::EsCr => Some(Market::Cr),
        LanguageTag::EsDo => Some(Market::Do),
        LanguageTag::EsEc => Some(Market::Ec),
        LanguageTag::EsEs => Some(Market::Es),
        LanguageTag::EsGt => Some(Market::Gt),
        LanguageTag::EsHn => Some(Market::Hn),
        LanguageTag::EsMx => Some(Market::Mx),
        LanguageTag::EsNi => Some(Market::Ni),
        LanguageTag::EsPa => Some(Market::Pa),
        LanguageTag::EsPe => Some(Market::Pe),
        LanguageTag::EsPr => Some(Market::Pr),
        LanguageTag::EsPy => Some(Market::Py),
        LanguageTag::EsSv => Some(Market::Sv),
        LanguageTag::EsUs => Some(Market::Us),
        LanguageTag::EsUy => Some(Market::Uy),
        LanguageTag::EsVe => Some(Market::Ve),
        LanguageTag::Et => None,
        LanguageTag::EtEe => Some(Market::Ee),
        LanguageTag::Eu => None,
        LanguageTag::EuEs => Some(Market::Es),
        LanguageTag::Fa => None,
        LanguageTag::FaIr => Some(Market::Ir),
        LanguageTag::Fi => None,
        LanguageTag::FiFi => Some(Market::Fi),
        LanguageTag::Fil => None,
        LanguageTag::FilLatn => None,
        LanguageTag::FilPh => Some(Market::Ph),
        LanguageTag::Fr => None,
        LanguageTag::Fr011 => None,
        LanguageTag::Fr015 => None,
        LanguageTag::Fr021 => None,
        LanguageTag::Fr029 => None,
        LanguageTag::Fr155 => None,
        LanguageTag::FrBe => Some(Market::Be),
        LanguageTag::FrCa => Some(Market::Ca),
        LanguageTag::FrCd => Some(Market::Cd),
        LanguageTag::FrCh => Some(Market::Ch),
        LanguageTag::FrCi => Some(Market::Ci),
        LanguageTag::FrCm => Some(Market::Cm),
        LanguageTag::FrFr => Some(Market::Fr),
        LanguageTag::FrHt => Some(Market::Ht),
        LanguageTag::FrLu => Some(Market::Lu),
        LanguageTag::FrMa => Some(Market::Ma),
        LanguageTag::FrMc => Some(Market::Mc),
        LanguageTag::FrMl => Some(Market::Ml),
        LanguageTag::FrRe => Some(Market::Re),
        LanguageTag::FrcLatn => None,
        LanguageTag::FrpLatn => None,
        LanguageTag::Ga => None,
        LanguageTag::GaIe => Some(Market::Ie),
        LanguageTag::Gd => None,
        LanguageTag::GdGb => Some(Market::Gb),
        LanguageTag::GdLatn => None,
        LanguageTag::Gl => None,
        LanguageTag::GlEs => Some(Market::Es),
        LanguageTag::Gu => None,
        LanguageTag::GuIn => Some(Market::In),
        LanguageTag::Ha => None,
        LanguageTag::HaLatn => None,
        LanguageTag::HaLatnNg => Some(Market::Ng),
        LanguageTag::He => None,
        LanguageTag::HeIl => Some(Market::Il),
        LanguageTag::Hi => None,
        LanguageTag::HiIn => Some(Market::In),
        LanguageTag::Hr => None,
        LanguageTag::HrBa => Some(Market::Ba),
        LanguageTag::HrHr => Some(Market::Hr),
        LanguageTag::Hu => None,
        LanguageTag::HuHu => Some(Market::Hu),
        LanguageTag::Hy => None,
        LanguageTag::HyAm => Some(Market::Am),
        LanguageTag::Id => None,
        LanguageTag::IdId => Some(Market::Id),
        LanguageTag::IgLatn => None,
        LanguageTag::IgNg => Some(Market::Ng),
        LanguageTag::Is => None,
        LanguageTag::IsIs => Some(Market::Is),
        LanguageTag::It => None,
        LanguageTag::ItCh => Some(Market::Ch),
        LanguageTag::ItIt => Some(Market::It),
        LanguageTag::IuCans => None,
        LanguageTag::IuLatn => None,
        LanguageTag::IuLatnCa => Some(Market::Ca),
        LanguageTag::Ja => None,
        LanguageTag::JaJp => Some(Market::Jp),
        LanguageTag::Ka => None,
        LanguageTag::KaGe => Some(Market::Ge),
        LanguageTag::Kk => None,
        LanguageTag::KkKz => Some(Market::Kz),
        LanguageTag::Km => None,
        LanguageTag::KmKh => Some(Market::Kh),
        LanguageTag::Kn => None,
        LanguageTag::KnIn => Some(Market::In),
        LanguageTag::Ko => None,
        LanguageTag::KoKr => Some(Market::Kr),
        LanguageTag::Kok => None,
        LanguageTag::KokIn => Some(Market::In),
        LanguageTag::KuArab => None,
        LanguageTag::KuArabIq => Some(Market::Iq),
        LanguageTag::KyCyrl => None,
        LanguageTag::KyKg => Some(Market::Kg),
        LanguageTag::Lb => None,
        LanguageTag::LbLu => Some(Market::Lu),
        LanguageTag::Lo => None,
        LanguageTag::LoLa => Some(Market::La),
        LanguageTag::Lt => None,
        LanguageTag::LtLt => Some(Market::Lt),
        LanguageTag::Lv => None,
        LanguageTag::LvLv => Some(Market::Lv),
        LanguageTag::Mi => None,
        LanguageTag::MiLatn => None,
        LanguageTag::MiNz => Some(Market::Nz),
        LanguageTag::Mk => None,
        LanguageTag::MkMk => Some(Market::Mk),
        LanguageTag::Ml => None,
        LanguageTag::MlIn => Some(Market::In),
        LanguageTag::MnCyrl => None,
        LanguageTag::MnMn => Some(Market::Mn),
        LanguageTag::MnMong => None,
        LanguageTag::Mr => None,
        LanguageTag::MrIn => Some(Market::In),
        LanguageTag::Ms => None,
        LanguageTag::MsBn => Some(Market::Bn),
        LanguageTag::MsMy => Some(Market::My),
        LanguageTag::Mt => None,
        LanguageTag::MtMt => Some(Market::Mt),
        LanguageTag::Nb => None,
        LanguageTag::NbNo => Some(Market::No),
        LanguageTag::Ne => None,
        LanguageTag::NeNp => Some(Market::Np),
        LanguageTag::Nl => None,
        LanguageTag::NlBe => Some(Market::Be),
        LanguageTag::NlNl => Some(Market::Nl),
        LanguageTag::Nn => None,
        LanguageTag::NnNo => Some(Market::No),
        LanguageTag::Nso => None,
        LanguageTag::NsoZa => Some(Market::Za),
        LanguageTag::Or => None,
        LanguageTag::OrIn => Some(Market::In),
        LanguageTag::Pa => None,
        LanguageTag::PaArab => None,
        LanguageTag::PaArabPk => Some(Market::Pk),
        LanguageTag::PaDeva => None,
        LanguageTag::PaIn => Some(Market::In),
        LanguageTag::Pl => None,
        LanguageTag::PlPl => Some(Market::Pl),
        LanguageTag::Prs => None,
        LanguageTag::PrsAf => Some(Market::Af),
        LanguageTag::PrsArab => None,
        LanguageTag::Pt => None,
        LanguageTag::PtBr => Some(Market::Br),
        LanguageTag::PtPt => Some(Market::Pt),
        LanguageTag::QucLatn => None,
        LanguageTag::QutGt => Some(Market::Gt),
        LanguageTag::QutLatn => None,
        LanguageTag::Quz => None,
        LanguageTag::QuzBo => Some(Market::Bo),
        LanguageTag::QuzEc => Some(Market::Ec),
        LanguageTag::QuzPe => Some(Market::Pe),
        LanguageTag::Ro => None,
        LanguageTag::RoRo => Some(Market::Ro),
        LanguageTag::Ru => None,
        LanguageTag::RuRu => Some(Market::Ru),
        LanguageTag::Rw => None,
        LanguageTag::RwRw => Some(Market::Rw),
        LanguageTag::SdArab => None,
        LanguageTag::SdArabPk => Some(Market::Pk),
        LanguageTag::SdDeva => None,
        LanguageTag::Si => None,
        LanguageTag::SiLk => Some(Market::Lk),
        LanguageTag::Sk => None,
        LanguageTag::SkSk => Some(Market::Sk),
        LanguageTag::Sl => None,
        LanguageTag::SlSi => Some(Market::Si),
        LanguageTag::Sq => None,
        LanguageTag::SqAl => Some(Market::Al),
        LanguageTag::SrCyrl => None,
        LanguageTag::SrCyrlBa => Some(Market::Ba),
        LanguageTag::SrCyrlCs => None,
        LanguageTag::SrCyrlMe => Some(Market::Me),
        LanguageTag::SrCyrlRs => Some(Market::Rs),
        LanguageTag::SrLatn => None,
        LanguageTag::SrLatnBa => Some(Market::Ba),
        LanguageTag::SrLatnCs => None,
        LanguageTag::SrLatnMe => Some(Market::Me),
        LanguageTag::SrLatnRs => Some(Market::Rs),
        LanguageTag::Sv => None,
        LanguageTag::SvFi => Some(Market::Fi),
        LanguageTag::SvSe => Some(Market::Se),
        LanguageTag::Sw => None,
        LanguageTag::SwKe => Some(Market::Ke),
        LanguageTag::Ta => None,
        LanguageTag::TaIn => Some(Market::In),
        LanguageTag::Te => None,
        LanguageTag::TeIn => Some(Market::In),
        LanguageTag::TgArab => None,
        LanguageTag::TgCyrl => None,
        LanguageTag::TgCyrlTj => Some(Market::Tj),
        LanguageTag::TgLatn => None,
        LanguageTag::Th => None,
        LanguageTag::ThTh => Some(Market::Th),
        LanguageTag::Ti => None,
        LanguageTag::TiEt => Some(Market::Et),
        LanguageTag::TkCyrl => None,
        LanguageTag::TkCyrlTr => Some(Market::Tr),
        LanguageTag::TkLatn => None,
        LanguageTag::TkLatnTr => Some(Market::Tr),
        LanguageTag::TkTm => Some(Market::Tm),
        LanguageTag::Tn => None,
        LanguageTag::TnBw => Some(Market::Bw),
        LanguageTag::TnZa => Some(Market::Za),
        LanguageTag::Tr => None,
        LanguageTag::TrTr => Some(Market::Tr),
        LanguageTag::TtArab => None,
        LanguageTag::TtCyrl => None,
        LanguageTag::TtLatn => None,
        LanguageTag::TtRu => Some(Market::Ru),
        LanguageTag::UgArab => None,
        LanguageTag::UgCn => Some(Market::Cn),
        LanguageTag::UgCyrl => None,
        LanguageTag::UgLatn => None,
        LanguageTag::Uk => None,
        LanguageTag::UkUa => Some(Market::Ua),
        LanguageTag::Ur => None,
        LanguageTag::UrPk => Some(Market::Pk),
        LanguageTag::Uz => None,
        LanguageTag::UzCyrl => None,
        LanguageTag::UzLatn => None,
        LanguageTag::UzLatnUz => Some(Market::Uz),
        LanguageTag::Vi => None,
        LanguageTag::ViVn => Some(Market::Vn),
        LanguageTag::Wo => None,
        LanguageTag::WoSn => Some(Market::Sn),
        LanguageTag::Xh => None,
        LanguageTag::XhZa => Some(Market::Za),
        LanguageTag::YoLatn => None,
        LanguageTag::YoNg => Some(Market::Ng),
        LanguageTag::ZhHans => None,
        LanguageTag::ZhHansCn => Some(Market::Cn),
        LanguageTag::ZhHansSg => Some(Market::Sg),
        LanguageTag::ZhHant => None,
        LanguageTag::ZhHantHk => Some(Market::Hk),
        LanguageTag::ZhHantMo => Some(Market::Mo),
        LanguageTag::ZhHantTw => Some(Market::Tw),
        LanguageTag::Zu => None,
        LanguageTag::ZuZa => Some(Market::Za),
    }
}

impl LanguageTag {
    /// The ISO 639-1 language of the primary subtag; `None` when the
    /// primary subtag is not a two-letter ISO 639-1 code (e.g. `chr`).
    pub fn lang(&self) -> (r: Option<Lang>)
        ensures
            r == tag_lang(*self),
    {
        match self {
            LanguageTag::Af => Some(Lang::Af),
            LanguageTag::AfZa => Some(Lang::Af),
            LanguageTag::Am => Some(Lang::Am),
            LanguageTag::AmEt => Some(Lang::Am),
            LanguageTag::Ar => Some(Lang::Ar),
            LanguageTag::ArAe => Some(Lang::Ar),
            LanguageTag::ArBh => Some(Lang::Ar),
            LanguageTag::ArDz => Some(Lang::Ar),
            LanguageTag::ArEg => Some(Lang::Ar),
            LanguageTag::ArIq => Some(Lang::Ar),
            LanguageTag::ArJo => Some(Lang::Ar),
            LanguageTag::ArKw => Some(Lang::Ar),
            LanguageTag::ArLb => Some(Lang::Ar),
            LanguageTag::ArLy => Some(Lang::Ar),
            LanguageTag::ArMa => Some(Lang::Ar),
            LanguageTag::ArOm => Some(Lang::Ar),
            LanguageTag::ArQa => Some(Lang::Ar),
            LanguageTag::ArSa => Some(Lang::Ar),
            LanguageTag::ArSy => Some(Lang::Ar),
            LanguageTag::ArTn => Some(Lang::Ar),
            LanguageTag::ArYe => Some(Lang::Ar),
            LanguageTag::As => Some(Lang::As),
            LanguageTag::AsIn => Some(Lang::As),
            LanguageTag::Az => Some(Lang::Az),
            LanguageTag::AzArab => Some(Lang::Az),
            LanguageTag::AzArabAz => Some(Lang::Az),
            LanguageTag::AzCyrl => Some(Lang::Az),
            LanguageTag::AzCyrlAz => Some(Lang::Az),
            LanguageTag::AzLatn => Some(Lang::Az),
            LanguageTag::AzLatnAz => Some(Lang::Az),
            LanguageTag::Be => Some(Lang::Be),
            LanguageTag::BeBy => Some(Lang::Be),
            LanguageTag::Bg => Some(Lang::Bg),
            LanguageTag::BgBg => Some(Lang::Bg),
            LanguageTag::Bn => Some(Lang::Bn),
            LanguageTag::BnBd => Some(Lang::Bn),
            LanguageTag::BnIn => Some(Lang::Bn),
            LanguageTag::Bs => Some(Lang::Bs),
            LanguageTag::BsCyrl => Some(Lang::Bs),
            LanguageTag::BsCyrlBa => Some(Lang::Bs),
            LanguageTag::BsLatn => Some(Lang::Bs),
            LanguageTag::BsLatnBa => Some(Lang::Bs),
            LanguageTag::Ca => Some(Lang::Ca),
            LanguageTag::CaEs => Some(Lang::Ca),
            LanguageTag::CaEsValencia => Some(Lang::Ca),
            LanguageTag::ChrCher => None,
            LanguageTag::ChrCherUs => None,
            LanguageTag::ChrLatn => None,
            LanguageTag::Co => Some(Lang::Co),
            LanguageTag::Cs => Some(Lang::Cs),
            LanguageTag::CsCz => Some(Lang::Cs),
            LanguageTag::Cy => Some(Lang::Cy),
            LanguageTag::CyGb => Some(Lang::Cy),
            LanguageTag::Da => Some(Lang::Da),
            LanguageTag::DaDk => Some(Lang::Da),
            LanguageTag::De => Some(Lang::De),
            LanguageTag::DeAt => Some(Lang::De),
            LanguageTag::DeCh => Some(Lang::De),
            LanguageTag::DeDe => Some(Lang::De),
            LanguageTag::DeLi => Some(Lang::De),
            LanguageTag::DeLu => Some(Lang::De),
            LanguageTag::El => Some(Lang::El),
            LanguageTag::ElGr => Some(Lang::El),
            LanguageTag::En => Some(Lang::En),
            LanguageTag::En011 => Some(Lang::En),
            LanguageTag::En014 => Some(Lang::En),
            LanguageTag::En018 => Some(Lang::En),
            LanguageTag::En021 => Some(Lang::En),
            LanguageTag::En029 => Some(Lang::En),
            LanguageTag::En053 => Some(Lang::En),
            LanguageTag::EnAu => Some(Lang::En),
            LanguageTag::EnBz => Some(Lang::En),
            LanguageTag::EnCa => Some(Lang::En),
            LanguageTag::EnGb => Some(Lang::En),
            LanguageTag::EnHk => Some(Lang::En),
            LanguageTag::EnId => Some(Lang::En),
            LanguageTag::EnIe => Some(Lang::En),
            LanguageTag::EnIn => Some(Lang::En),
            LanguageTag::EnJm => Some(Lang::En),
            LanguageTag::EnKz => Some(Lang::En),
            LanguageTag::EnMt => Some(Lang::En),
            LanguageTag::EnMy => Some(Lang::En),
            LanguageTag::EnNz => Some(Lang::En),
            LanguageTag::EnPh => Some(Lang::En),
            LanguageTag::EnPk => Some(Lang::En),
            LanguageTag::EnSg => Some(Lang::En),
            LanguageTag::EnTt => Some(Lang::En),
            LanguageTag::EnUs => Some(Lang::En),
            LanguageTag::EnVn => Some(Lang::En),
            LanguageTag::EnZa => Some(Lang::En),
            LanguageTag::EnZw => Some(Lang::En),
            LanguageTag::Es => Some(Lang::Es),
            LanguageTag::Es019 => Some(Lang::Es),
            LanguageTag::Es419 => Some(Lang::Es),
            LanguageTag::EsAr => Some(Lang::Es),
            LanguageTag::EsBo => Some(Lang::Es),
            LanguageTag::EsCl => Some(Lang::Es),
            LanguageTag::EsCo => Some(Lang::Es),
            LanguageTag::EsCr => Some(Lang::Es),
            LanguageTag::EsDo => Some(Lang::Es),
            LanguageTag::EsEc => Some(Lang::Es),
            LanguageTag::EsEs => Some(Lang::Es),
            LanguageTag::EsGt => Some(Lang::Es),
            LanguageTag::EsHn => Some(Lang::Es),
            LanguageTag::EsMx => Some(Lang::Es),
            LanguageTag::EsNi => Some(Lang::Es),
            LanguageTag::EsPa => Some(Lang::Es),
            LanguageTag::EsPe => Some(Lang::Es),
            LanguageTag::EsPr => Some(Lang::Es),
            LanguageTag::EsPy => Some(Lang::Es),
            LanguageTag::EsSv => Some(Lang::Es),
            LanguageTag::EsUs => Some(Lang::Es),
            LanguageTag::EsUy => Some(Lang::Es),
            LanguageTag::EsVe => Some(Lang::Es),
            LanguageTag::Et => Some(Lang::Et),
            LanguageTag::EtEe => Some(Lang::Et),
            LanguageTag::Eu => Some(Lang::Eu),
            LanguageTag::EuEs => Some(Lang::Eu),
            LanguageTag::Fa => Some(Lang::Fa),
            LanguageTag::FaIr => Some(Lang::Fa),
            LanguageTag::Fi => Some(Lang::Fi),
            LanguageTag::FiFi => Some(Lang::Fi),
            LanguageTag::Fil => None,
            LanguageTag::FilLatn => None,
            LanguageTag::FilPh => None,
            LanguageTag::Fr => Some(Lang::Fr),
            LanguageTag::Fr011 => Some(Lang::Fr),
            LanguageTag::Fr015 => Some(Lang::Fr),
            LanguageTag::Fr021 => Some(Lang::Fr),
            LanguageTag::Fr029 => Some(Lang::Fr),
            LanguageTag::Fr155 => Some(Lang::Fr),
            LanguageTag::FrBe => Some(Lang::Fr),
            LanguageTag::FrCa => Some(Lang::Fr),
            LanguageTag::FrCd => Some(Lang::Fr),
            LanguageTag::FrCh => Some(Lang::Fr),
            LanguageTag::FrCi => Some(Lang::Fr),
            LanguageTag::FrCm => Some(Lang::Fr),
            LanguageTag::FrFr => Some(Lang::Fr),
            LanguageTag::FrHt => Some(Lang::Fr),
            LanguageTag::FrLu => Some(Lang::Fr),
            LanguageTag::FrMa => Some(Lang::Fr),
            LanguageTag::FrMc => Some(Lang::Fr),
            LanguageTag::FrMl => Some(Lang::Fr),
            LanguageTag::FrRe => Some(Lang::Fr),
            LanguageTag::FrcLatn => None,
            LanguageTag::FrpLatn => None,
            LanguageTag::Ga => Some(Lang::Ga),
            LanguageTag::GaIe => Some(Lang::Ga),
            LanguageTag::Gd => Some(Lang::Gd),
            LanguageTag::GdGb => Some(Lang::Gd),
            LanguageTag::GdLatn => Some(Lang::Gd),
            LanguageTag::Gl => Some(Lang::Gl),
            LanguageTag::GlEs => Some(Lang::Gl),
            LanguageTag::Gu => Some(Lang::Gu),
            LanguageTag::GuIn => Some(Lang::Gu),
            LanguageTag::Ha => Some(Lang::Ha),
            LanguageTag::HaLatn => Some(Lang::Ha),
            LanguageTag::HaLatnNg => Some(Lang::Ha),
            LanguageTag::He => Some(Lang::He),
            LanguageTag::HeIl => Some(Lang::He),
            LanguageTag::Hi => Some(Lang::Hi),
            LanguageTag::HiIn => Some(Lang::Hi),
            LanguageTag::Hr => Some(Lang::Hr),
            LanguageTag::HrBa => Some(Lang::Hr),
            LanguageTag::HrHr => Some(Lang::Hr),
            LanguageTag::Hu => Some(Lang::Hu),
            LanguageTag::HuHu => Some(Lang::Hu),
            LanguageTag::Hy => Some(Lang::Hy),
            LanguageTag::HyAm => Some(Lang::Hy),
            LanguageTag::Id => Some(Lang::Id),
            LanguageTag::IdId => Some(Lang::Id),
            LanguageTag::IgLatn => Some(Lang::Ig),
            LanguageTag::IgNg => Some(Lang::Ig),
            LanguageTag::Is => Some(Lang::Is),
            LanguageTag::IsIs => Some(Lang::Is),
            LanguageTag::It => Some(Lang::It),
            LanguageTag::ItCh => Some(Lang::It),
            LanguageTag::ItIt => Some(Lang::It),
            LanguageTag::IuCans => Some(Lang::Iu),
            LanguageTag::IuLatn => Some(Lang::Iu),
            LanguageTag::IuLatnCa => Some(Lang::Iu),
            LanguageTag::Ja => Some(Lang::Ja),
            LanguageTag::JaJp => Some(Lang::Ja),
            LanguageTag::Ka => Some(Lang::Ka),
            LanguageTag::KaGe => Some(Lang::Ka),
            LanguageTag::Kk => Some(Lang::Kk),
            LanguageTag::KkKz => Some(Lang::Kk),
            LanguageTag::Km => Some(Lang::Km),
            LanguageTag::KmKh => Some(Lang::Km),
            LanguageTag::Kn => Some(Lang::Kn),
            LanguageTag::KnIn => Some(Lang::Kn),
            LanguageTag::Ko => Some(Lang::Ko),
            LanguageTag::KoKr => Some(Lang::Ko),
            LanguageTag::Kok => None,
            LanguageTag::KokIn => None,
            LanguageTag::KuArab => Some(Lang::Ku),
            LanguageTag::KuArabIq => Some(Lang::Ku),
            LanguageTag::KyCyrl => Some(Lang::Ky),
            LanguageTag::KyKg => Some(Lang::Ky),
            LanguageTag::Lb => Some(Lang::Lb),
            LanguageTag::LbLu => Some(Lang::Lb),
            LanguageTag::Lo => Some(Lang::Lo),
            LanguageTag::LoLa => Some(Lang::Lo),
            LanguageTag::Lt => Some(Lang::Lt),
            LanguageTag::LtLt => Some(Lang::Lt),
            LanguageTag::Lv => Some(Lang::Lv),
            LanguageTag::LvLv => Some(Lang::Lv),
            LanguageTag::Mi => Some(Lang::Mi),
            LanguageTag::MiLatn => Some(Lang::Mi),
            LanguageTag::MiNz => Some(Lang::Mi),
            LanguageTag::Mk => Some(Lang::Mk),
            LanguageTag::MkMk => Some(Lang::Mk),
            LanguageTag::Ml => Some(Lang::Ml),
            LanguageTag::MlIn => Some(Lang::Ml),
            LanguageTag::MnCyrl => Some(Lang::Mn),
            LanguageTag::MnMn => Some(Lang::Mn),
            LanguageTag::MnMong => Some(Lang::Mn),
            LanguageTag::Mr => Some(Lang::Mr),
            LanguageTag::MrIn => Some(Lang::Mr),
            LanguageTag::Ms => Some(Lang::Ms),
            LanguageTag::MsBn => Some(Lang::Ms),
            LanguageTag::MsMy => Some(Lang::Ms),
            LanguageTag::Mt => Some(Lang::Mt),
            LanguageTag::MtMt => Some(Lang::Mt),
            LanguageTag::Nb => Some(Lang::Nb),
            LanguageTag::NbNo => Some(Lang::Nb),
            LanguageTag::Ne => Some(Lang::Ne),
            LanguageTag::NeNp => Some(Lang::Ne),
            LanguageTag::Nl => Some(Lang::Nl),
            LanguageTag::NlBe => Some(Lang::Nl),
            LanguageTag::NlNl => Some(Lang::Nl),
            LanguageTag::Nn => Some(Lang::Nn),
            LanguageTag::NnNo => Some(Lang::Nn),
            LanguageTag::Nso => None,
            LanguageTag::NsoZa => None,
            LanguageTag::Or => Some(Lang::Or),
            LanguageTag::OrIn => Some(Lang::Or),
            LanguageTag::Pa => Some(Lang::Pa),
            LanguageTag::PaArab => Some(Lang::Pa),
            LanguageTag::PaArabPk => Some(Lang::Pa),
            LanguageTag::PaDeva => Some(Lang::Pa),
            LanguageTag::PaIn => Some(Lang::Pa),
            LanguageTag::Pl => Some(Lang::Pl),
            LanguageTag::PlPl => Some(Lang::Pl),
            LanguageTag::Prs => None,
            LanguageTag::PrsAf => None,
            LanguageTag::PrsArab => None,
            LanguageTag::Pt => Some(Lang::Pt),
            LanguageTag::PtBr => Some(Lang::Pt),
            LanguageTag::PtPt => Some(Lang::Pt),
            LanguageTag::QucLatn => None,
            LanguageTag::QutGt => None,
            LanguageTag::QutLatn => None,
            LanguageTag::Quz => None,
            LanguageTag::QuzBo => None,
            LanguageTag::QuzEc => None,
            LanguageTag::QuzPe => None,
            LanguageTag::Ro => Some(Lang::Ro),
            LanguageTag::RoRo => Some(Lang::Ro),
            LanguageTag::Ru => Some(Lang::Ru),
            LanguageTag::RuRu => Some(Lang::Ru),
            LanguageTag::Rw => Some(Lang::Rw),
            LanguageTag::RwRw => Some(Lang::Rw),
            LanguageTag::SdArab => Some(Lang::Sd),
            LanguageTag::SdArabPk => Some(Lang::Sd),
            LanguageTag::SdDeva => Some(Lang::Sd),
            LanguageTag::Si => Some(Lang::Si),
            LanguageTag::SiLk => Some(Lang::Si),
            LanguageTag::Sk => Some(Lang::Sk),
            LanguageTag::SkSk => Some(Lang::Sk),
            LanguageTag::Sl => Some(Lang::Sl),
            LanguageTag::SlSi => Some(Lang::Sl),
            LanguageTag::Sq => Some(Lang::Sq),
            LanguageTag::SqAl => Some(Lang::Sq),
            LanguageTag::SrCyrl => Some(Lang::Sr),
            LanguageTag::SrCyrlBa => Some(Lang::Sr),
            LanguageTag::SrCyrlCs => Some(Lang::Sr),
            LanguageTag::SrCyrlMe => Some(Lang::Sr),
            LanguageTag::SrCyrlRs => Some(Lang::Sr),
            LanguageTag::SrLatn => Some(Lang::Sr),
            LanguageTag::SrLatnBa => Some(Lang::Sr),
            LanguageTag::SrLatnCs => Some(Lang::Sr),
            LanguageTag::SrLatnMe => Some(Lang::Sr),
            LanguageTag::SrLatnRs => Some(Lang::Sr),
            LanguageTag::Sv => Some(Lang::Sv),
            LanguageTag::SvFi => Some(Lang::Sv),
            LanguageTag::SvSe => Some(Lang::Sv),
            LanguageTag::Sw => Some(Lang::Sw),
            LanguageTag::SwKe => Some(Lang::Sw),
            LanguageTag::Ta => Some(Lang::Ta),
            LanguageTag::TaIn => Some(Lang::Ta),
            LanguageTag::Te => Some(Lang::Te),
            LanguageTag::TeIn => Some(Lang::Te),
            LanguageTag::TgArab => Some(Lang::Tg),
            LanguageTag::TgCyrl => Some(Lang::Tg),
            LanguageTag::TgCyrlTj => Some(Lang::Tg),
            LanguageTag::TgLatn => Some(Lang::Tg),
            LanguageTag::Th => Some(Lang::Th),
            LanguageTag::ThTh => Some(Lang::Th),
            LanguageTag::Ti => Some(Lang::Ti),
            LanguageTag::TiEt => Some(Lang::Ti),
            LanguageTag::TkCyrl => Some(Lang::Tk),
            LanguageTag::TkCyrlTr => Some(Lang::Tk),
            LanguageTag::TkLatn => Some(Lang::Tk),
            LanguageTag::TkLatnTr => Some(Lang::Tk),
            LanguageTag::TkTm => Some(Lang::Tk),
            LanguageTag::Tn => Some(Lang::Tn),
            LanguageTag::TnBw => Some(Lang::Tn),
            LanguageTag::TnZa => Some(Lang::Tn),
            LanguageTag::Tr => Some(Lang::Tr),
            LanguageTag::TrTr => Some(Lang::Tr),
            LanguageTag::TtArab => Some(Lang::Tt),
            LanguageTag::TtCyrl => Some(Lang::Tt),
            LanguageTag::TtLatn => Some(Lang::Tt),
            LanguageTag::TtRu => Some(Lang::Tt),
            LanguageTag::UgArab => Some(Lang::Ug),
            LanguageTag::UgCn => Some(Lang::Ug),
            LanguageTag::UgCyrl => Some(Lang::Ug),
            LanguageTag::UgLatn => Some(Lang::Ug),
            LanguageTag::Uk => Some(Lang::Uk),
            LanguageTag::UkUa => Some(Lang::Uk),
            LanguageTag::Ur => Some(Lang::Ur),
            LanguageTag::UrPk => Some(Lang::Ur),
            LanguageTag::Uz => Some(Lang::Uz),
            LanguageTag::UzCyrl => Some(Lang::Uz),
            LanguageTag::UzLatn => Some(Lang::Uz),
            LanguageTag::UzLatnUz => Some(Lang::Uz),
            LanguageTag::Vi => Some(Lang::Vi),
            LanguageTag::ViVn => Some(Lang::Vi),
            LanguageTag::Wo => Some(Lang::Wo),
            LanguageTag::WoSn => Some(Lang::Wo),
            LanguageTag::Xh => Some(Lang::Xh),
            LanguageTag::XhZa => Some(Lang::Xh),
            LanguageTag::YoLatn => Some(Lang::Yo),
            LanguageTag::YoNg => Some(Lang::Yo),
            LanguageTag::ZhHans => Some(Lang::Zh),
            LanguageTag::ZhHansCn => Some(Lang::Zh),
            LanguageTag::ZhHansSg => Some(Lang::Zh),
            LanguageTag::ZhHant => Some(Lang::Zh),
            LanguageTag::ZhHantHk => Some(Lang::Zh),
            LanguageTag::ZhHantMo => Some(Lang::Zh),
            LanguageTag::ZhHantTw => Some(Lang::Zh),
            LanguageTag::Zu => Some(Lang::Zu),
            LanguageTag::ZuZa => Some(Lang::Zu),
        }
    }

    /// The market named by the region subtag; `None` when the tag has no
    /// region, or a UN M.49 numeric one (e.g. `en-053`).
    pub fn region(&self) -> (r: Option<Market>)
        ensures
            r == tag_region(*self),
    {
        match self {
            LanguageTag::Af => None,
            LanguageTag::AfZa => Some(Market::Za),
            LanguageTag::Am => None,
            LanguageTag::AmEt => Some(Market::Et),
            LanguageTag::Ar => None,
            LanguageTag::ArAe => Some(Market::Ae),
            LanguageTag::ArBh => Some(Market::Bh),
            LanguageTag::ArDz => Some(Market::Dz),
            LanguageTag::ArEg => Some(Market::Eg),
            LanguageTag::ArIq => Some(Market::Iq),
            LanguageTag::ArJo => Some(Market::Jo),
            LanguageTag::ArKw => Some(Market::Kw),
            LanguageTag::ArLb => Some(Market::Lb),
            LanguageTag::ArLy => Some(Market::Ly),
            LanguageTag::ArMa => Some(Market::Ma),
            LanguageTag::ArOm => Some(Market::Om),
            LanguageTag::ArQa => Some(Market::Qa),
            LanguageTag::ArSa => Some(Market::Sa),
            LanguageTag::ArSy => Some(Market::Sy),
            LanguageTag::ArTn => Some(Market::Tn),
            LanguageTag::ArYe => Some(Market::Ye),
            LanguageTag::As => None,
            LanguageTag::AsIn => Some(Market::In),
            LanguageTag::Az => None,
            LanguageTag::AzArab => None,
            LanguageTag::AzArabAz => Some(Market::Az),
            LanguageTag::AzCyrl => None,
            LanguageTag::AzCyrlAz => Some(Market::Az),
            LanguageTag::AzLatn => None,
            LanguageTag::AzLatnAz => Some(Market::Az),
            LanguageTag::Be => None,
            LanguageTag::BeBy => Some(Market::By),
            LanguageTag::Bg => None,
            LanguageTag::BgBg => Some(Market::Bg),
            LanguageTag::Bn => None,
            LanguageTag::BnBd => Some(Market::Bd),
            LanguageTag::BnIn => Some(Market::In),
            LanguageTag::Bs => None,
            LanguageTag::BsCyrl => None,
            LanguageTag::BsCyrlBa => Some(Market::Ba),
            LanguageTag::BsLatn => None,
            LanguageTag::BsLatnBa => Some(Market::Ba),
            LanguageTag::Ca => None,
            LanguageTag::CaEs => Some(Market::Es),
            LanguageTag::CaEsValencia => Some(Market::Es),
            LanguageTag::ChrCher => None,
            LanguageTag::ChrCherUs => Some(Market::Us),
            LanguageTag::ChrLatn => None,
            LanguageTag::Co => None,
            LanguageTag::Cs => None,
            LanguageTag::CsCz => Some(Market::Cz),
            LanguageTag::Cy => None,
            LanguageTag::CyGb => Some(Market::Gb),
            LanguageTag::Da => None,
            LanguageTag::DaDk => Some(Market::Dk),
            LanguageTag::De => None,
            LanguageTag::DeAt => Some(Market::At),
            LanguageTag::DeCh => Some(Market::Ch),
            LanguageTag::DeDe => Some(Market::De),
            LanguageTag::DeLi => Some(Market::Li),
            LanguageTag::DeLu => Some(Market::Lu),
            LanguageTag::El => None,
            LanguageTag::ElGr => Some(Market::Gr),
            LanguageTag::En => None,
            LanguageTag::En011 => None,
            LanguageTag::En014 => None,
            LanguageTag::En018 => None,
            LanguageTag::En021 => None,
            LanguageTag::En029 => None,
            LanguageTag::En053 => None,
            LanguageTag::EnAu => Some(Market::Au),
            LanguageTag::EnBz => Some(Market::Bz),
            LanguageTag::EnCa => Some(Market::Ca),
            LanguageTag::EnGb => Some(Market::Gb),
            LanguageTag::EnHk => Some(Market::Hk),
            LanguageTag::EnId => Some(Market::Id),
            LanguageTag::EnIe => Some(Market::Ie),
            LanguageTag::EnIn => Some(Market::In),
            LanguageTag::EnJm => Some(Market::Jm),
            LanguageTag::EnKz => Some(Market::Kz),
            LanguageTag::EnMt => Some(Market::Mt),
            LanguageTag::EnMy => Some(Market::My),
            LanguageTag::EnNz => Some(Market::Nz),
            LanguageTag::EnPh => Some(Market::Ph),
            LanguageTag::EnPk => Some(Market::Pk),
            LanguageTag::EnSg => Some(Market::Sg),
            LanguageTag::EnTt => Some(Market::Tt),
            LanguageTag::EnUs => Some(Market::Us),
            LanguageTag::EnVn => Some(Market::Vn),
            LanguageTag::EnZa => Some(Market::Za),
            LanguageTag::EnZw => Some(Market::Zw),
            LanguageTag::Es => None,
            LanguageTag::Es019 => None,
            LanguageTag::Es419 => None,
            LanguageTag::EsAr => Some(Market::Ar),
            LanguageTag::EsBo => Some(Market::Bo),
            LanguageTag::EsCl => Some(Market::Cl),
            LanguageTag::EsCo => Some(Market::Co),
            LanguageTag::EsCr => Some(Market::Cr),
            LanguageTag::EsDo => Some(Market::Do),
            LanguageTag::EsEc => Some(Market::Ec),
            LanguageTag::EsEs => Some(Market::Es),
            LanguageTag::EsGt => Some(Market::Gt),
            LanguageTag::EsHn => Some(Market::Hn),
            LanguageTag::EsMx => Some(Market::Mx),
            LanguageTag::EsNi => Some(Market::Ni),
            LanguageTag::EsPa => Some(Market::Pa),
            LanguageTag::EsPe => Some(Market::Pe),
            LanguageTag::EsPr => Some(Market::Pr),
            LanguageTag::EsPy => Some(Market::Py),
            LanguageTag::EsSv => Some(Market::Sv),
            LanguageTag::EsUs => Some(Market::Us),
            LanguageTag::EsUy => Some(Market::Uy),
            LanguageTag::EsVe => Some(Market::Ve),
            LanguageTag::Et => None,
            LanguageTag::EtEe => Some(Market::Ee),
            LanguageTag::Eu => None,
            LanguageTag::EuEs => Some(Market::Es),
            LanguageTag::Fa => None,
            LanguageTag::FaIr => Some(Market::Ir),
            LanguageTag::Fi => None,
            LanguageTag::FiFi => Some(Market::Fi),
            LanguageTag::Fil => None,
            LanguageTag::FilLatn => None,
            LanguageTag::FilPh => Some(Market::Ph),
            LanguageTag::Fr => None,
            LanguageTag::Fr011 => None,
            LanguageTag::Fr015 => None,
            LanguageTag::Fr021 => None,
            LanguageTag::Fr029 => None,
            LanguageTag::Fr155 => None,
            LanguageTag::FrBe => Some(Market::Be),
            LanguageTag::FrCa => Some(Market::Ca),
            LanguageTag::FrCd => Some(Market::Cd),
            LanguageTag::FrCh => Some(Market::Ch),
            LanguageTag::FrCi => Some(Market::Ci),
            LanguageTag::FrCm => Some(Market::Cm),
            LanguageTag::FrFr => Some(Market::Fr),
            LanguageTag::FrHt => Some(Market::Ht),
            LanguageTag::FrLu => Some(Market::Lu),
            LanguageTag::FrMa => Some(Market::Ma),
            LanguageTag::FrMc => Some(Market::Mc),
            LanguageTag::FrMl => Some(Market::Ml),
            LanguageTag::FrRe => Some(Market::Re),
            LanguageTag::FrcLatn => None,
            LanguageTag::FrpLatn => None,
            LanguageTag::Ga => None,
            LanguageTag::GaIe => Some(Market::Ie),
            LanguageTag::Gd => None,
            LanguageTag::GdGb => Some(Market::Gb),
            LanguageTag::GdLatn => None,
            LanguageTag::Gl => None,
            LanguageTag::GlEs => Some(Market::Es),
            LanguageTag::Gu => None,
            LanguageTag::GuIn => Some(Market::In),
            LanguageTag::Ha => None,
            LanguageTag::HaLatn => None,
            LanguageTag::HaLatnNg => Some(Market::Ng),
            LanguageTag::He => None,
            LanguageTag::HeIl => Some(Market::Il),
            LanguageTag::Hi => None,
            LanguageTag::HiIn => Some(Market::In),
            LanguageTag::Hr => None,
            LanguageTag::HrBa => Some(Market::Ba),
            LanguageTag::HrHr => Some(Market::Hr),
            LanguageTag::Hu => None,
            LanguageTag::HuHu => Some(Market::Hu),
            LanguageTag::Hy => None,
            LanguageTag::HyAm => Some(Market::Am),
            LanguageTag::Id => None,
            LanguageTag::IdId => Some(Market::Id),
            LanguageTag::IgLatn => None,
            LanguageTag::IgNg => Some(Market::Ng),
            LanguageTag::Is => None,
            LanguageTag::IsIs => Some(Market::Is),
            LanguageTag::It => None,
            LanguageTag::ItCh => Some(Market::Ch),
            LanguageTag::ItIt => Some(Market::It),
            LanguageTag::IuCans => None,
            LanguageTag::IuLatn => None,
            LanguageTag::IuLatnCa => Some(Market::Ca),
            LanguageTag::Ja => None,
            LanguageTag::JaJp => Some(Market::Jp),
            LanguageTag::Ka => None,
            LanguageTag::KaGe => Some(Market::Ge),
            LanguageTag::Kk => None,
            LanguageTag::KkKz => Some(Market::Kz),
            LanguageTag::Km => None,
            LanguageTag::KmKh => Some(Market::Kh),
            LanguageTag::Kn => None,
            LanguageTag::KnIn => Some(Market::In),
            LanguageTag::Ko => None,
            LanguageTag::KoKr => Some(Market::Kr),
            LanguageTag::Kok => None,
            LanguageTag::KokIn => Some(Market::In),
            LanguageTag::KuArab => None,
            LanguageTag::KuArabIq => Some(Market::Iq),
            LanguageTag::KyCyrl => None,
            LanguageTag::KyKg => Some(Market::Kg),
            LanguageTag::Lb => None,
            LanguageTag::LbLu => Some(Market::Lu),
            LanguageTag::Lo => None,
            LanguageTag::LoLa => Some(Market::La),
            LanguageTag::Lt => None,
            LanguageTag::LtLt => Some(Market::Lt),
            LanguageTag::Lv => None,
            LanguageTag::LvLv => Some(Market::Lv),
            LanguageTag::Mi => None,
            LanguageTag::MiLatn => None,
            LanguageTag::MiNz => Some(Market::Nz),
            LanguageTag::Mk => None,
            LanguageTag::MkMk => Some(Market::Mk),
            LanguageTag::Ml => None,
            LanguageTag::MlIn => Some(Market::In),
            LanguageTag::MnCyrl => None,
            LanguageTag::MnMn => Some(Market::Mn),
            LanguageTag::MnMong => None,
            LanguageTag::Mr => None,
            LanguageTag::MrIn => Some(Market::In),
            LanguageTag::Ms => None,
            LanguageTag::MsBn => Some(Market::Bn),
            LanguageTag::MsMy => Some(Market::My),
            LanguageTag::Mt => None,
            LanguageTag::MtMt => Some(Market::Mt),
            LanguageTag::Nb => None,
            LanguageTag::NbNo => Some(Market::No),
            LanguageTag::Ne => None,
            LanguageTag::NeNp => Some(Market::Np),
            LanguageTag::Nl => None,
            LanguageTag::NlBe => Some(Market::Be),
            LanguageTag::NlNl => Some(Market::Nl),
            LanguageTag::Nn => None,
            LanguageTag::NnNo => Some(Market::No),
            LanguageTag::Nso => None,
            LanguageTag::NsoZa => Some(Market::Za),
            LanguageTag::Or => None,
            LanguageTag::OrIn => Some(Market::In),
            LanguageTag::Pa => None,
            LanguageTag::PaArab => None,
            LanguageTag::PaArabPk => Some(Market::Pk),
            LanguageTag::PaDeva => None,
            LanguageTag::PaIn => Some(Market::In),
            LanguageTag::Pl => None,
            LanguageTag::PlPl => Some(Market::Pl),
            LanguageTag::Prs => None,
            LanguageTag::PrsAf => Some(Market::Af),
            LanguageTag::PrsArab => None,
            LanguageTag::Pt => None,
            LanguageTag::PtBr => Some(Market::Br),
            LanguageTag::PtPt => Some(Market::Pt),
            LanguageTag::QucLatn => None,
            LanguageTag::QutGt => Some(Market::Gt),
            LanguageTag::QutLatn => None,
            LanguageTag::Quz => None,
            LanguageTag::QuzBo => Some(Market::Bo),
            LanguageTag::QuzEc => Some(Market::Ec),
            LanguageTag::QuzPe => Some(Market::Pe),
            LanguageTag::Ro => None,
            LanguageTag::RoRo => Some(Market::Ro),
            LanguageTag::Ru => None,
            LanguageTag::RuRu => Some(Market::Ru),
            LanguageTag::Rw => None,
            LanguageTag::RwRw => Some(Market::Rw),
            LanguageTag::SdArab => None,
            LanguageTag::SdArabPk => Some(Market::Pk),
            LanguageTag::SdDeva => None,
            LanguageTag::Si => None,
            LanguageTag::SiLk => Some(Market::Lk),
            LanguageTag::Sk => None,
            LanguageTag::SkSk => Some(Market::Sk),
            LanguageTag::Sl => None,
            LanguageTag::SlSi => Some(Market::Si),
            LanguageTag::Sq => None,
            LanguageTag::SqAl => Some(Market::Al),
            LanguageTag::SrCyrl => None,
            LanguageTag::SrCyrlBa => Some(Market::Ba),
            LanguageTag::SrCyrlCs => None,
            LanguageTag::SrCyrlMe => Some(Market::Me),
            LanguageTag::SrCyrlRs => Some(Market::Rs),
            LanguageTag::SrLatn => None,
            LanguageTag::SrLatnBa => Some(Market::Ba),
            LanguageTag::SrLatnCs => None,
            LanguageTag::SrLatnMe => Some(Market::Me),
            LanguageTag::SrLatnRs => Some(Market::Rs),
            LanguageTag::Sv => None,
            LanguageTag::SvFi => Some(Market::Fi),
            LanguageTag::SvSe => Some(Market::Se),
            LanguageTag::Sw => None,
            LanguageTag::SwKe => Some(Market::Ke),
            LanguageTag::Ta => None,
            LanguageTag::TaIn => Some(Market::In),
            LanguageTag::Te => None,
            LanguageTag::TeIn => Some(Market::In),
            LanguageTag::TgArab => None,
            LanguageTag::TgCyrl => None,
            LanguageTag::TgCyrlTj => Some(Market::Tj),
            LanguageTag::TgLatn => None,
            LanguageTag::Th => None,
            LanguageTag::ThTh => Some(Market::Th),
            LanguageTag::Ti => None,
            LanguageTag::TiEt => Some(Market::Et),
            LanguageTag::TkCyrl => None,
            LanguageTag::TkCyrlTr => Some(Market::Tr),
            LanguageTag::TkLatn => None,
            LanguageTag::TkLatnTr => Some(Market::Tr),
            LanguageTag::TkTm => Some(Market::Tm),
            LanguageTag::Tn => None,
            LanguageTag::TnBw => Some(Market::Bw),
            LanguageTag::TnZa => Some(Market::Za),
            LanguageTag::Tr => None,
            LanguageTag::TrTr => Some(Market::Tr),
            LanguageTag::TtArab => None,
            LanguageTag::TtCyrl => None,
            LanguageTag::TtLatn => None,
            LanguageTag::TtRu => Some(Market::Ru),
            LanguageTag::UgArab => None,
            LanguageTag::UgCn => Some(Market::Cn),
            LanguageTag::UgCyrl => None,
            LanguageTag::UgLatn => None,
            LanguageTag::Uk => None,
            LanguageTag::UkUa => Some(Market::Ua),
            LanguageTag::Ur => None,
            LanguageTag::UrPk => Some(Market::Pk),
            LanguageTag::Uz => None,
            LanguageTag::UzCyrl => None,
            LanguageTag::UzLatn => None,
            LanguageTag::UzLatnUz => Some(Market::Uz),
            LanguageTag::Vi => None,
            LanguageTag::ViVn => Some(Market::Vn),
            LanguageTag::Wo => None,
            LanguageTag::WoSn => Some(Market::Sn),
            LanguageTag::Xh => None,
            LanguageTag::XhZa => Some(Market::Za),
            LanguageTag::YoLatn => None,
            LanguageTag::YoNg => Some(Market::Ng),
            LanguageTag::ZhHans => None,
            LanguageTag::ZhHansCn => Some(Market::Cn),
            LanguageTag::ZhHansSg => Some(Market::Sg),
            LanguageTag::ZhHant => None,
            LanguageTag::ZhHantHk => Some(Market::Hk),
            LanguageTag::ZhHantMo => Some(Market::Mo),
            LanguageTag::ZhHantTw => Some(Market::Tw),
            LanguageTag::Zu => None,
            LanguageTag::ZuZa => Some(Market::Za),
        }
    }
}


impl std::str::FromStr for Market {
    type Err = String;

    /// Parses a code case-insensitively; the error names the rejected text.
    fn from_str(s: &str) -> (r: Result<Market, String>)
        ensures
            match r {
                Ok(v) => market_code(v) == ascii_upper(s@),
                Err(e) => (forall|x: Market| !(market_code(x) == ascii_upper(s@))) && e@ == "unknown market code: "@ + s@,
            },
    {
        match Market::parse_code(s) {
            Some(v) => Ok(v),
            None => {
                let mut m = chars_of("unknown market code: ");
                crate::text::extend_str(&mut m, s);
                Err(crate::text::string_of(m.as_slice()))
            },
        }
    }
}

impl std::str::FromStr for Lang {
    type Err = String;

    /// Parses a code case-insensitively; the error names the rejected text.
    fn from_str(s: &str) -> (r: Result<Lang, String>)
        ensures
            match r {
                Ok(v) => lang_code(v) == ascii_lower(s@),
                Err(e) => (forall|x: Lang| !(lang_code(x) == ascii_lower(s@))) && e@ == "unknown language code: "@ + s@,
            },
    {
        match Lang::parse_code(s) {
            Some(v) => Ok(v),
            None => {
                let mut m = chars_of("unknown language code: ");
                crate::text::extend_str(&mut m, s);
                Err(crate::text::string_of(m.as_slice()))
            },
        }
    }
}

impl std::str::FromStr for LanguageTag {
    type Err = String;

    /// Parses a code case-insensitively; the error names the rejected text.
    fn from_str(s: &str) -> (r: Result<LanguageTag, String>)
        ensures
            match r {
                Ok(v) => ascii_lower(tag_code(v)) == ascii_lower(s@),
                Err(e) => (forall|x: LanguageTag| !(ascii_lower(tag_code(x)) == ascii_lower(s@))) && e@ == "unknown language tag code: "@ + s@,
            },
    {
        match LanguageTag::parse_code(s) {
            Some(v) => Ok(v),
            None => {
                let mut m = chars_of("unknown language tag code: ");
                crate::text::extend_str(&mut m, s);
                Err(crate::text::string_of(m.as_slice()))
            },
        }
    }
}


// ---------------------------------------------------------------------------
// Codes read back
// ---------------------------------------------------------------------------

/// A number that tells two-character codes apart.
pub open spec fn pair_rank(s: Seq<char>) -> int {
    if s.len() == 2 {
        (s[0] as int) * 65536 + (s[1] as int)
    } else {
        -1
    }
}

/// The Market value whose code has rank `r`.
pub open spec fn market_by_rank(r: int) -> Option<Market> {
    if r < 4915290 {
        if r < 4522051 {
            if r < 4325459 {
                if r < 4259930 {
                    if r < 4259919 {
                        if r < 4259911 {
                            if r < 4259909 {
                                if r == 4259908 {
                                    Some(Market::Ad)
                                } else {
                                    None
                                }
                            } else {
                                if r < 4259910 {
                                    if r == 4259909 {
                                        Some(Market::Ae)
                                    } else {
                                        None
                                    }
                                } else {
                                    if r == 4259910 {
                                        Some(Market::Af)
                                    } else {
                                        None
                                    }
                                }
                            }
                        } else {
                            if r < 4259916 {
                                if r < 4259913 {
                                    if r == 4259911 {
                                        Some(Market::Ag)
                                    } else {
                                        None
                                    }
                                } else {
                                    if r == 4259913 {
                                        Some(Market::Ai)
                                    } else {
                                        None
                                    }
                                }
                            } else {
                                if r < 4259917 {
                                    if r == 4259916 {
                                        Some(Market::Al)
                                    } else {
                                        None
                                    }
                                } else {
                                    if r == 4259917 {
                                        Some(Market::Am)
                                    } else {
                                        None
                                    }
                                }
                            }
                        }
                    } else {
                        if r < 4259924 {
                            if r < 4259922 {
                                if r < 4259921 {
                                    if r == 4259919 {
                                        Some(Market::Ao)
                                    } else {
                                        None
                                    }
                                } else {
                                    if r == 4259921 {
                                        Some(Market::Aq)
                                    } else {
                                        None
                                    }
                                }
                            } else {
                                if r < 4259923 {
                                    if r == 4259922 {
                                        Some(Market::Ar)
                                    } else {
                                        None
                                    }
                                } else {
                                    if r == 4259923 {
                                        Some(Market::As)
                                    } else {
                                        None
                                    }
                                }
                            }
                        } else {
                            if r < 4259927 {
                                if r < 4259925 {
                                    if r == 4259924 {
                                        Some(Market::At)
                                    } else {
                                        None
                                    }
                                } else {
                                    if r == 4259925 {
                                        Some(Market::Au)
                                    } else {
                                        None
                                    }
                                }
                            } else {
                                if r < 4259928 {
                                    if r == 4259927 {
                                        Some(Market::Aw)
                                    } else {
                                        None
                                    }
                                } else {
                                    if r == 4259928 {
                                        Some(Market::Ax)
                                    } else {
                                        None
                                    }
                                }
                            }
                        }
                    }
                } else {
                    if r < 4325449 {
                        if r < 4325445 {
                            if r < 4325442 {
                                if r < 4325441 {
                                    if r == 4259930 {
                                        Some(Market::Az)
                                    } else {
                                        None
                                    }
                                } else {
                                    if r == 4325441 {
                                        Some(Market::Ba)
                                    } else {
                                        None
                                    }
                                }
                            } else {
                                if r < 4325444 {
                                    if r == 4325442 {
                                        Some(Market::Bb)
                                    } else {
                                        None
                                    }
                                } else {
                                    if r == 4325444 {
                                        Some(Market::Bd)
                                    } else {
                                        None
                                    }
                                }
                            }
                        } else {
                            if r < 4325447 {
                                if r < 4325446 {
                                    if r == 4325445 {
                                        Some(Market::Be)
                                    } else {
                                        None
                                    }
                                } else {
                                    if r == 4325446 {
                                        Some(Market::Bf)
                                    } else {
                                        None
                                    }
                                }
                            } else {
                                if r < 4325448 {
                                    if r == 4325447 {
                                        Some(Market::Bg)
                                    } else {
                                        None
                                    }
                                } else {
                                    if r == 4325448 {
                                        Some(Market::Bh)
                                    } else {
                                        None
                                    }
                                }
                            }
                        }
                    } else {
                        if r < 4325454 {
                            if r < 4325452 {
                                if r < 4325450 {
                                    if r == 4325449 {
                                        Some(Market::Bi)
                                    } else {
                                        None
                                    }
                                } else {
                                    if r == 4325450 {
                                        Some(Market::Bj)
                                    } else {
                                        None
                                    }
                                }
                            } else {
                                if r < 4325453 {
                                    if r == 4325452 {
                                        Some(Market::Bl)
                                    } else {
                                        None
                                    }
                                } else {
                                    if r == 4325453 {
                                        Some(Market::Bm)
                                    } else {
                                        None
                                    }
                                }
                            }
                        } else {
                            if r < 4325457 {
                                if r < 4325455 {
                                    if r == 4325454 {
                                        Some(Market::Bn)
                                    } else {
                                        None
                                    }
                                } else {
                                    if r == 4325455 {
                                        Some(Market::Bo)
                                    } else {
                                        None
                                    }
                                }
                            } else {
                                if r < 4325458 {
                                    if r == 4325457 {
                                        Some(Market::Bq)
                                    } else {
                                        None
                                    }
                                } else {
                                    if r == 4325458 {
                                        Some(Market::Br)
                                    } else {
                                        None
                                    }
                                }
                            }
                        }
                    }
                }
            } else {
                if r < 4390989 {
                    if r < 4390979 {
                        if r < 4325463 {
                            if r < 4325460 {
                                if r == 4325459 {
                                    Some(Market::Bs)
                                } else {
                                    None
                                }
                            } else {
                                if r < 4325462 {
                                    if r == 4325460 {
                                        Some(Market::Bt)
                                    } else {
                                        None
                                    }
                                } else {
                                    if r == 4325462 {
                                        Some(Market::Bv)
                                    } else {
                                        None
                                    }
                                }
                            }
                        } else {
                            if r < 4325466 {
                                if r < 4325465 {
                                    if r == 4325463 {
                                        Some(Market::Bw)
                                    } else {
                                        None
                                    }
                                } else {
                                    if r == 4325465 {
                                        Some(Market::By)
                                    } else {
                                        None
                                    }
                                }
                            } else {
                                if r < 4390977 {
                                    if r == 4325466 {
                                        Some(Market::Bz)
                                    } else {
                                        None
                                    }
                                } else {
                                    if r == 4390977 {
                                        Some(Market::Ca)
                                    } else {
                                        None
                                    }
                                }
                            }
                        }
                    } else {
                        if r < 4390984 {
                            if r < 4390982 {
                                if r < 4390980 {
                                    if r == 4390979 {
                                        Some(Market::Cc)
                                    } else {
                                        None
                                    }
                                } else {
                                    if r == 4390980 {
                                        Some(Market::Cd)
                                    } else {
                                        None
                                    }
                                }
                            } else {
                                if r < 4390983 {
                                    if r == 4390982 {
                                        Some(Market::Cf)
                                    } else {
                                        None
                                    }
                                } else {
                                    if r == 4390983 {
                                        Some(Market::Cg)
                                    } else {
                                        None
                                    }
                                }
                            }
                        } else {
                            if r < 4390987 {
                                if r < 4390985 {
                                    if r == 4390984 {
                                        Some(Market::Ch)
                                    } else {
                                        None
                                    }
                                } else {
                                    if r == 4390985 {
                                        Some(Market::Ci)
                                    } else {
                                        None
                                    }
                                }
                            } else {
                                if r < 4390988 {
                                    if r == 4390987 {
                                        Some(Market::Ck)
                                    } else {
                                        None
                                    }
                                } else {
                                    if r == 4390988 {
                                        Some(Market::Cl)
                                    } else {
                                        None
                                    }
                                }
                            }
                        }
                    }
                } else {
                    if r < 4391001 {
                        if r < 4390997 {
                            if r < 4390991 {
                                if r < 4390990 {
                                    if r == 4390989 {
                                        Some(Market::Cm)
                                    } else {
                                        None
                                    }
                                } else {
                                    if r == 4390990 {
                                        Some(Market::Cn)
                                    } else {
                                        None
                                    }
                                }
                            } else {
                                if r < 4390994 {
                                    if r == 4390991 {
                                        Some(Market::Co)
                                    } else {
                                        None
                                    }
                                } else {
                                    if r == 4390994 {
                                        Some(Market::Cr)
                                    } else {
                                        None
                                    }
                                }
                            }
                        } else {
                            if r < 4390999 {
                                if r < 4390998 {
                                    if r == 4390997 {
                                        Some(Market::Cu)
                                    } else {
                                        None
                                    }
                                } else {
                                    if r == 4390998 {
                                        Some(Market::Cv)
                                    } else {
                                        None
                                    }
                                }
                            } else {
                                if r < 4391000 {
                                    if r == 4390999 {
                                        Some(Market::Cw)
                                    } else {
                                        None
                                    }
                                } else {
                                    if r == 4391000 {
                                        Some(Market::Cx)
                                    } else {
                                        None
                                    }
                                }
                            }
                        }
                    } else {
                        if r < 4456523 {
                            if r < 4456517 {
                                if r < 4391002 {
                                    if r == 4391001 {
                                        Some(Market::Cy)
                                    } else {
                                        None
                                    }
                                } else {
                                    if r == 4391002 {
                                        Some(Market::Cz)
                                    } else {
                                        None
                                    }
                                }
                            } else {
                                if r < 4456522 {
                                    if r == 4456517 {
                                        Some(Market::De)
                                    } else {
                                        None
                                    }
                                } else {
                                    if r == 4456522 {
                                        Some(Market::Dj)
                                    } else {
                                        None
                                    }
                                }
                            }
                        } else {
                            if r < 4456527 {
                                if r < 4456525 {
                                    if r == 4456523 {
                                        Some(Market::Dk)
                                    } else {
                                        None
                                    }
                                } else {
                                    if r == 4456525 {
                                        Some(Market::Dm)
                                    } else {
                                        None
                                    }
                                }
                            } else {
                                if r < 4456538 {
                                    if r == 4456527 {
                                        Some(Market::Do)
                                    } else {
                                        None
                                    }
                                } else {
                                    if r == 4456538 {
                                        Some(Market::Dz)
                                    } else {
                                        None
                                    }
                                }
                            }
                        }
                    }
                }
            }
        } else {
            if r < 4653145 {
                if r < 4653124 {
                    if r < 4587593 {
                        if r < 4522056 {
                            if r < 4522053 {
                                if r == 4522051 {
                                    Some(Market::Ec)
                                } else {
                                    None
                                }
                            } else {
                                if r < 4522055 {
                                    if r == 4522053 {
                                        Some(Market::Ee)
                                    } else {
                                        None
                                    }
                                } else {
                                    if r == 4522055 {
                                        Some(Market::Eg)
                                    } else {
                                        None
                                    }
                                }
                            }
                        } else {
                            if r < 4522067 {
                                if r < 4522066 {
                                    if r == 4522056 {
                                        Some(Market::Eh)
                                    } else {
                                        None
                                    }
                                } else {
                                    if r == 4522066 {
                                        Some(Market::Er)
                                    } else {
                                        None
                                    }
                                }
                            } else {
                                if r < 4522068 {
                                    if r == 4522067 {
                                        Some(Market::Es)
                                    } else {
                                        None
                                    }
                                } else {
                                    if r == 4522068 {
                                        Some(Market::Et)
                                    } else {
                                        None
                                    }
                                }
                            }
                        }
                    } else {
                        if r < 4587599 {
                            if r < 4587595 {
                                if r < 4587594 {
                                    if r == 4587593 {
                                        Some(Market::Fi)
                                    } else {
                                        None
                                    }
                                } else {
                                    if r == 4587594 {
                                        Some(Market::Fj)
                                    } else {
                                        None
                                    }
                                }
                            } else {
                                if r < 4587597 {
                                    if r == 4587595 {
                                        Some(Market::Fk)
                                    } else {
                                        None
                                    }
                                } else {
                                    if r == 4587597 {
                                        Some(Market::Fm)
                                    } else {
                                        None
                                    }
                                }
                            }
                        } else {
                            if r < 4653121 {
                                if r < 4587602 {
                                    if r == 4587599 {
                                        Some(Market::Fo)
                                    } else {
                                        None
                                    }
                                } else {
                                    if r == 4587602 {
                                        Some(Market::Fr)
                                    } else {
                                        None
                                    }
                                }
                            } else {
                                if r < 4653122 {
                                    if r == 4653121 {
                                        Some(Market::Ga)
                                    } else {
                                        None
                                    }
                                } else {
                                    if r == 4653122 {
                                        Some(Market::Gb)
                                    } else {
                                        None
                                    }
                                }
                            }
                        }
                    }
                } else {
                    if r < 4653134 {
                        if r < 4653128 {
                            if r < 4653126 {
                                if r < 4653125 {
                                    if r == 4653124 {
                                        Some(Market::Gd)
                                    } else {
                                        None
                                    }
                                } else {
                                    if r == 4653125 {
                                        Some(Market::Ge)
                                    } else {
                                        None
                                    }
                                }
                            } else {
                                if r < 4653127 {
                                    if r == 4653126 {
                                        Some(Market::Gf)
                                    } else {
                                        None
                                    }
                                } else {
                                    if r == 4653127 {
                                        Some(Market::Gg)
                                    } else {
                                        None
                                    }
                                }
                            }
                        } else {
                            if r < 4653132 {
                                if r < 4653129 {
                                    if r == 4653128 {
                                        Some(Market::Gh)
                                    } else {
                                        None
                                    }
                                } else {
                                    if r == 4653129 {
                                        Some(Market::Gi)
                                    } else {
                                        None
                                    }
                                }
                            } else {
                                if r < 4653133 {
                                    if r == 4653132 {
                                        Some(Market::Gl)
                                    } else {
                                        None
                                    }
                                } else {
                                    if r == 4653133 {
                                        Some(Market::Gm)
                                    } else {
                                        None
                                    }
                                }
                            }
                        }
                    } else {
                        if r < 4653139 {
                            if r < 4653137 {
                                if r < 4653136 {
                                    if r == 4653134 {
                                        Some(Market::Gn)
                                    } else {
                                        None
                                    }
                                } else {
                                    if r == 4653136 {
                                        Some(Market::Gp)
                                    } else {
                                        None
                                    }
                                }
                            } else {
                                if r < 4653138 {
                                    if r == 4653137 {
                                        Some(Market::Gq)
                                    } else {
                                        None
                                    }
                                } else {
                                    if r == 4653138 {
                                        Some(Market::Gr)
                                    } else {
                                        None
                                    }
                                }
                            }
                        } else {
                            if r < 4653141 {
                                if r < 4653140 {
                                    if r == 4653139 {
                                        Some(Market::Gs)
                                    } else {
                                        None
                                    }
                                } else {
                                    if r == 4653140 {
                                        Some(Market::Gt)
                                    } else {
                                        None
                                    }
                                }
                            } else {
                                if r < 4653143 {
                                    if r == 4653141 {
                                        Some(Market::Gu)
                                    } else {
                                        None
                                    }
                                } else {
                                    if r == 4653143 {
                                        Some(Market::Gw)
                                    } else {
                                        None
                                    }
                                }
                            }
                        }
                    }
                }
            } else {
                if r < 4784211 {
                    if r < 4784196 {
                        if r < 4718670 {
                            if r < 4718667 {
                                if r == 4653145 {
                                    Some(Market::Gy)
                                } else {
                                    None
                                }
                            } else {
                                if r < 4718669 {
                                    if r == 4718667 {
                                        Some(Market::Hk)
                                    } else {
                                        None
                                    }
                                } else {
                                    if r == 4718669 {
                                        Some(Market::Hm)
                                    } else {
                                        None
                                    }
                                }
                            }
                        } else {
                            if r < 4718676 {
                                if r < 4718674 {
                                    if r == 4718670 {
                                        Some(Market::Hn)
                                    } else {
                                        None
                                    }
                                } else {
                                    if r == 4718674 {
                                        Some(Market::Hr)
                                    } else {
                                        None
                                    }
                                }
                            } else {
                                if r < 4718677 {
                                    if r == 4718676 {
                                        Some(Market::Ht)
                                    } else {
                                        None
                                    }
                                } else {
                                    if r == 4718677 {
                                        Some(Market::Hu)
                                    } else {
                                        None
                                    }
                                }
                            }
                        }
                    } else {
                        if r < 4784206 {
                            if r < 4784204 {
                                if r < 4784197 {
                                    if r == 4784196 {
                                        Some(Market::Id)
                                    } else {
                                        None
                                    }
                                } else {
                                    if r == 4784197 {
                                        Some(Market::Ie)
                                    } else {
                                        None
                                    }
                                }
                            } else {
                                if r < 4784205 {
                                    if r == 4784204 {
                                        Some(Market::Il)
                                    } else {
                                        None
                                    }
                                } else {
                                    if r == 4784205 {
                                        Some(Market::Im)
                                    } else {
                                        None
                                    }
                                }
                            }
                        } else {
                            if r < 4784209 {
                                if r < 4784207 {
                                    if r == 4784206 {
                                        Some(Market::In)
                                    } else {
                                        None
                                    }
                                } else {
                                    if r == 4784207 {
                                        Some(Market::Io)
                                    } else {
                                        None
                                    }
                                }
                            } else {
                                if r < 4784210 {
                                    if r == 4784209 {
                                        Some(Market::Iq)
                                    } else {
                                        None
                                    }
                                } else {
                                    if r == 4784210 {
                                        Some(Market::Ir)
                                    } else {
                                        None
                                    }
                                }
                            }
                        }
                    }
                } else {
                    if r < 4915272 {
                        if r < 4849743 {
                            if r < 4849733 {
                                if r < 4784212 {
                                    if r == 4784211 {
                                        Some(Market::Is)
                                    } else {
                                        None
                                    }
                                } else {
                                    if r == 4784212 {
                                        Some(Market::It)
                                    } else {
                                        None
                                    }
                                }
                            } else {
                                if r < 4849741 {
                                    if r == 4849733 {
                                        Some(Market::Je)
                                    } else {
                                        None
                                    }
                                } else {
                                    if r == 4849741 {
                                        Some(Market::Jm)
                                    } else {
                                        None
                                    }
                                }
                            }
                        } else {
                            if r < 4915269 {
                                if r < 4849744 {
                                    if r == 4849743 {
                                        Some(Market::Jo)
                                    } else {
                                        None
                                    }
                                } else {
                                    if r == 4849744 {
                                        Some(Market::Jp)
                                    } else {
                                        None
                                    }
                                }
                            } else {
                                if r < 4915271 {
                                    if r == 4915269 {
                                        Some(Market::Ke)
                                    } else {
                                        None
                                    }
                                } else {
                                    if r == 4915271 {
                                        Some(Market::Kg)
                                    } else {
                                        None
                                    }
                                }
                            }
                        }
                    } else {
                        if r < 4915280 {
                            if r < 4915277 {
                                if r < 4915273 {
                                    if r == 4915272 {
                                        Some(Market::Kh)
                                    } else {
                                        None
                                    }
                                } else {
                                    if r == 4915273 {
                                        Some(Market::Ki)
                                    } else {
                                        None
                                    }
                                }
                            } else {
                                if r < 4915278 {
                                    if r == 4915277 {
                                        Some(Market::Km)
                                    } else {
                                        None
                                    }
                                } else {
                                    if r == 4915278 {
                                        Some(Market::Kn)
                                    } else {
                                        None
                                    }
                                }
                            }
                        } else {
                            if r < 4915287 {
                                if r < 4915282 {
                                    if r == 4915280 {
                                        Some(Market::Kp)
                                    } else {
                                        None
                                    }
                                } else {
                                    if r == 4915282 {
                                        Some(Market::Kr)
                                    } else {
                                        None
                                    }
                                }
                            } else {
                                if r < 4915289 {
                                    if r == 4915287 {
                                        Some(Market::Kw)
                                    } else {
                                        None
                                    }
                                } else {
                                    if r == 4915289 {
                                        Some(Market::Ky)
                                    } else {
                                        None
                                    }
                                }
                            }
                        }
                    }
                }
            }
        }
    } else {
        if r < 5308481 {
            if r < 5046359 {
                if r < 5046341 {
                    if r < 4980819 {
                        if r < 4980803 {
                            if r < 4980801 {
                                if r == 4915290 {
                                    Some(Market::Kz)
                                } else {
                                    None
                                }
                            } else {
                                if r < 4980802 {
                                    if r == 4980801 {
                                        Some(Market::La)
                                    } else {
                                        None
                                    }
                                } else {
                                    if r == 4980802 {
                                        Some(Market::Lb)
                                    } else {
                                        None
                                    }
                                }
                            }
                        } else {
                            if r < 4980811 {
                                if r < 4980809 {
                                    if r == 4980803 {
                                        Some(Market::Lc)
                                    } else {
                                        None
                                    }
                                } else {
                                    if r == 4980809 {
                                        Some(Market::Li)
                                    } else {
                                        None
                                    }
                                }
                            } else {
                                if r < 4980818 {
                                    if r == 4980811 {
                                        Some(Market::Lk)
                                    } else {
                                        None
                                    }
                                } else {
                                    if r == 4980818 {
                                        Some(Market::Lr)
                                    } else {
                                        None
                                    }
                                }
                            }
                        }
                    } else {
                        if r < 4980825 {
                            if r < 4980821 {
                                if r < 4980820 {
                                    if r == 4980819 {
                                        Some(Market::Ls)
                                    } else {
                                        None
                                    }
                                } else {
                                    if r == 4980820 {
                                        Some(Market::Lt)
                                    } else {
                                        None
                                    }
                                }
                            } else {
                                if r < 4980822 {
                                    if r == 4980821 {
                                        Some(Market::Lu)
                                    } else {
                                        None
                                    }
                                } else {
                                    if r == 4980822 {
                                        Some(Market::Lv)
                                    } else {
                                        None
                                    }
                                }
                            }
                        } else {
                            if r < 5046339 {
                                if r < 5046337 {
                                    if r == 4980825 {
                                        Some(Market::Ly)
                                    } else {
                                        None
                                    }
                                } else {
                                    if r == 5046337 {
                                        Some(Market::Ma)
                                    } else {
                                        None
                                    }
                                }
                            } else {
                                if r < 5046340 {
                                    if r == 5046339 {
                                        Some(Market::Mc)
                                    } else {
                                        None
                                    }
                                } else {
                                    if r == 5046340 {
                                        Some(Market::Md)
                                    } else {
                                        None
                                    }
                                }
                            }
                        }
                    }
                } else {
                    if r < 5046351 {
                        if r < 5046347 {
                            if r < 5046343 {
                                if r < 5046342 {
                                    if r == 5046341 {
                                        Some(Market::Me)
                                    } else {
                                        None
                                    }
                                } else {
                                    if r == 5046342 {
                                        Some(Market::Mf)
                                    } else {
                                        None
                                    }
                                }
                            } else {
                                if r < 5046344 {
                                    if r == 5046343 {
                                        Some(Market::Mg)
                                    } else {
                                        None
                                    }
                                } else {
                                    if r == 5046344 {
                                        Some(Market::Mh)
                                    } else {
                                        None
                                    }
                                }
                            }
                        } else {
                            if r < 5046349 {
                                if r < 5046348 {
                                    if r == 5046347 {
                                        Some(Market::Mk)
                                    } else {
                                        None
                                    }
                                } else {
                                    if r == 5046348 {
                                        Some(Market::Ml)
                                    } else {
                                        None
                                    }
                                }
                            } else {
                                if r < 5046350 {
                                    if r == 5046349 {
                                        Some(Market::Mm)
                                    } else {
                                        None
                                    }
                                } else {
                                    if r == 5046350 {
                                        Some(Market::Mn)
                                    } else {
                                        None
                                    }
                                }
                            }
                        }
                    } else {
                        if r < 5046355 {
                            if r < 5046353 {
                                if r < 5046352 {
                                    if r == 5046351 {
                                        Some(Market::Mo)
                                    } else {
                                        None
                                    }
                                } else {
                                    if r == 5046352 {
                                        Some(Market::Mp)
                                    } else {
                                        None
                                    }
                                }
                            } else {
                                if r < 5046354 {
                                    if r == 5046353 {
                                        Some(Market::Mq)
                                    } else {
                                        None
                                    }
                                } else {
                                    if r == 5046354 {
                                        Some(Market::Mr)
                                    } else {
                                        None
                                    }
                                }
                            }
                        } else {
                            if r < 5046357 {
                                if r < 5046356 {
                                    if r == 5046355 {
                                        Some(Market::Ms)
                                    } else {
                                        None
                                    }
                                } else {
                                    if r == 5046356 {
                                        Some(Market::Mt)
                                    } else {
                                        None
                                    }
                                }
                            } else {
                                if r < 5046358 {
                                    if r == 5046357 {
                                        Some(Market::Mu)
                                    } else {
                                        None
                                    }
                                } else {
                                    if r == 5046358 {
                                        Some(Market::Mv)
                                    } else {
                                        None
                                    }
                                }
                            }
                        }
                    }
                }
            } else {
                if r < 5111898 {
                    if r < 5111878 {
                        if r < 5046362 {
                            if r < 5046360 {
                                if r == 5046359 {
                                    Some(Market::Mw)
                                } else {
                                    None
                                }
                            } else {
                                if r < 5046361 {
                                    if r == 5046360 {
                                        Some(Market::Mx)
                                    } else {
                                        None
                                    }
                                } else {
                                    if r == 5046361 {
                                        Some(Market::My)
                                    } else {
                                        None
                                    }
                                }
                            }
                        } else {
                            if r < 5111875 {
                                if r < 5111873 {
                                    if r == 5046362 {
                                        Some(Market::Mz)
                                    } else {
                                        None
                                    }
                                } else {
                                    if r == 5111873 {
                                        Some(Market::Na)
                                    } else {
                                        None
                                    }
                                }
                            } else {
                                if r < 5111877 {
                                    if r == 5111875 {
                                        Some(Market::Nc)
                                    } else {
                                        None
                                    }
                                } else {
                                    if r == 5111877 {
                                        Some(Market::Ne)
                                    } else {
                                        None
                                    }
                                }
                            }
                        }
                    } else {
                        if r < 5111887 {
                            if r < 5111881 {
                                if r < 5111879 {
                                    if r == 5111878 {
                                        Some(Market::Nf)
                                    } else {
                                        None
                                    }
                                } else {
                                    if r == 5111879 {
                                        Some(Market::Ng)
                                    } else {
                                        None
                                    }
                                }
                            } else {
                                if r < 5111884 {
                                    if r == 5111881 {
                                        Some(Market::Ni)
                                    } else {
                                        None
                                    }
                                } else {
                                    if r == 5111884 {
                                        Some(Market::Nl)
                                    } else {
                                        None
                                    }
                                }
                            }
                        } else {
                            if r < 5111890 {
                                if r < 5111888 {
                                    if r == 5111887 {
                                        Some(Market::No)
                                    } else {
                                        None
                                    }
                                } else {
                                    if r == 5111888 {
                                        Some(Market::Np)
                                    } else {
                                        None
                                    }
                                }
                            } else {
                                if r < 5111893 {
                                    if r == 5111890 {
                                        Some(Market::Nr)
                                    } else {
                                        None
                                    }
                                } else {
                                    if r == 5111893 {
                                        Some(Market::Nu)
                                    } else {
                                        None
                                    }
                                }
                            }
                        }
                    }
                } else {
                    if r < 5242956 {
                        if r < 5242950 {
                            if r < 5242945 {
                                if r < 5177421 {
                                    if r == 5111898 {
                                        Some(Market::Nz)
                                    } else {
                                        None
                                    }
                                } else {
                                    if r == 5177421 {
                                        Some(Market::Om)
                                    } else {
                                        None
                                    }
                                }
                            } else {
                                if r < 5242949 {
                                    if r == 5242945 {
                                        Some(Market::Pa)
                                    } else {
                                        None
                                    }
                                } else {
                                    if r == 5242949 {
                                        Some(Market::Pe)
                                    } else {
                                        None
                                    }
                                }
                            }
                        } else {
                            if r < 5242952 {
                                if r < 5242951 {
                                    if r == 5242950 {
                                        Some(Market::Pf)
                                    } else {
                                        None
                                    }
                                } else {
                                    if r == 5242951 {
                                        Some(Market::Pg)
                                    } else {
                                        None
                                    }
                                }
                            } else {
                                if r < 5242955 {
                                    if r == 5242952 {
                                        Some(Market::Ph)
                                    } else {
                                        None
                                    }
                                } else {
                                    if r == 5242955 {
                                        Some(Market::Pk)
                                    } else {
                                        None
                                    }
                                }
                            }
                        }
                    } else {
                        if r < 5242963 {
                            if r < 5242958 {
                                if r < 5242957 {
                                    if r == 5242956 {
                                        Some(Market::Pl)
                                    } else {
                                        None
                                    }
                                } else {
                                    if r == 5242957 {
                                        Some(Market::Pm)
                                    } else {
                                        None
                                    }
                                }
                            } else {
                                if r < 5242962 {
                                    if r == 5242958 {
                                        Some(Market::Pn)
                                    } else {
                                        None
                                    }
                                } else {
                                    if r == 5242962 {
                                        Some(Market::Pr)
                                    } else {
                                        None
                                    }
                                }
                            }
                        } else {
                            if r < 5242967 {
                                if r < 5242964 {
                                    if r == 5242963 {
                                        Some(Market::Ps)
                                    } else {
                                        None
                                    }
                                } else {
                                    if r == 5242964 {
                                        Some(Market::Pt)
                                    } else {
                                        None
                                    }
                                }
                            } else {
                                if r < 5242969 {
                                    if r == 5242967 {
                                        Some(Market::Pw)
                                    } else {
                                        None
                                    }
                                } else {
                                    if r == 5242969 {
                                        Some(Market::Py)
                                    } else {
                                        None
                                    }
                                }
                            }
                        }
                    }
                }
            }
        } else {
            if r < 5505096 {
                if r < 5439563 {
                    if r < 5439554 {
                        if r < 5374035 {
                            if r < 5374021 {
                                if r == 5308481 {
                                    Some(Market::Qa)
                                } else {
                                    None
                                }
                            } else {
                                if r < 5374031 {
                                    if r == 5374021 {
                                        Some(Market::Re)
                                    } else {
                                        None
                                    }
                                } else {
                                    if r == 5374031 {
                                        Some(Market::Ro)
                                    } else {
                                        None
                                    }
                                }
                            }
                        } else {
                            if r < 5374039 {
                                if r < 5374037 {
                                    if r == 5374035 {
                                        Some(Market::Rs)
                                    } else {
                                        None
                                    }
                                } else {
                                    if r == 5374037 {
                                        Some(Market::Ru)
                                    } else {
                                        None
                                    }
                                }
                            } else {
                                if r < 5439553 {
                                    if r == 5374039 {
                                        Some(Market::Rw)
                                    } else {
                                        None
                                    }
                                } else {
                                    if r == 5439553 {
                                        Some(Market::Sa)
                                    } else {
                                        None
                                    }
                                }
                            }
                        }
                    } else {
                        if r < 5439559 {
                            if r < 5439556 {
                                if r < 5439555 {
                                    if r == 5439554 {
                                        Some(Market::Sb)
                                    } else {
                                        None
                                    }
                                } else {
                                    if r == 5439555 {
                                        Some(Market::Sc)
                                    } else {
                                        None
                                    }
                                }
                            } else {
                                if r < 5439557 {
                                    if r == 5439556 {
                                        Some(Market::Sd)
                                    } else {
                                        None
                                    }
                                } else {
                                    if r == 5439557 {
                                        Some(Market::Se)
                                    } else {
                                        None
                                    }
                                }
                            }
                        } else {
                            if r < 5439561 {
                                if r < 5439560 {
                                    if r == 5439559 {
                                        Some(Market::Sg)
                                    } else {
                                        None
                                    }
                                } else {
                                    if r == 5439560 {
                                        Some(Market::Sh)
                                    } else {
                                        None
                                    }
                                }
                            } else {
                                if r < 5439562 {
                                    if r == 5439561 {
                                        Some(Market::Si)
                                    } else {
                                        None
                                    }
                                } else {
                                    if r == 5439562 {
                                        Some(Market::Sj)
                                    } else {
                                        None
                                    }
                                }
                            }
                        }
                    }
                } else {
                    if r < 5439574 {
                        if r < 5439567 {
                            if r < 5439565 {
                                if r < 5439564 {
                                    if r == 5439563 {
                                        Some(Market::Sk)
                                    } else {
                                        None
                                    }
                                } else {
                                    if r == 5439564 {
                                        Some(Market::Sl)
                                    } else {
                                        None
                                    }
                                }
                            } else {
                                if r < 5439566 {
                                    if r == 5439565 {
                                        Some(Market::Sm)
                                    } else {
                                        None
                                    }
                                } else {
                                    if r == 5439566 {
                                        Some(Market::Sn)
                                    } else {
                                        None
                                    }
                                }
                            }
                        } else {
                            if r < 5439571 {
                                if r < 5439570 {
                                    if r == 5439567 {
                                        Some(Market::So)
                                    } else {
                                        None
                                    }
                                } else {
                                    if r == 5439570 {
                                        Some(Market::Sr)
                                    } else {
                                        None
                                    }
                                }
                            } else {
                                if r < 5439572 {
                                    if r == 5439571 {
                                        Some(Market::Ss)
                                    } else {
                                        None
                                    }
                                } else {
                                    if r == 5439572 {
                                        Some(Market::St)
                                    } else {
                                        None
                                    }
                                }
                            }
                        }
                    } else {
                        if r < 5505091 {
                            if r < 5439577 {
                                if r < 5439576 {
                                    if r == 5439574 {
                                        Some(Market::Sv)
                                    } else {
                                        None
                                    }
                                } else {
                                    if r == 5439576 {
                                        Some(Market::Sx)
                                    } else {
                                        None
                                    }
                                }
                            } else {
                                if r < 5439578 {
                                    if r == 5439577 {
                                        Some(Market::Sy)
                                    } else {
                                        None
                                    }
                                } else {
                                    if r == 5439578 {
                                        Some(Market::Sz)
                                    } else {
                                        None
                                    }
                                }
                            }
                        } else {
                            if r < 5505094 {
                                if r < 5505092 {
                                    if r == 5505091 {
                                        Some(Market::Tc)
                                    } else {
                                        None
                                    }
                                } else {
                                    if r == 5505092 {
                                        Some(Market::Td)
                                    } else {
                                        None
                                    }
                                }
                            } else {
                                if r < 5505095 {
                                    if r == 5505094 {
                                        Some(Market::Tf)
                                    } else {
                                        None
                                    }
                                } else {
                                    if r == 5505095 {
                                        Some(Market::Tg)
                                    } else {
                                        None
                                    }
                                }
                            }
                        }
                    }
                }
            } else {
                if r < 5570649 {
                    if r < 5505108 {
                        if r < 5505101 {
                            if r < 5505099 {
                                if r < 5505098 {
                                    if r == 5505096 {
                                        Some(Market::Th)
                                    } else {
                                        None
                                    }
                                } else {
                                    if r == 5505098 {
                                        Some(Market::Tj)
                                    } else {
                                        None
                                    }
                                }
                            } else {
                                if r < 5505100 {
                                    if r == 5505099 {
                                        Some(Market::Tk)
                                    } else {
                                        None
                                    }
                                } else {
                                    if r == 5505100 {
                                        Some(Market::Tl)
                                    } else {
                                        None
                                    }
                                }
                            }
                        } else {
                            if r < 5505103 {
                                if r < 5505102 {
                                    if r == 5505101 {
                                        Some(Market::Tm)
                                    } else {
                                        None
                                    }
                                } else {
                                    if r == 5505102 {
                                        Some(Market::Tn)
                                    } else {
                                        None
                                    }
                                }
                            } else {
                                if r < 5505106 {
                                    if r == 5505103 {
                                        Some(Market::To)
                                    } else {
                                        None
                                    }
                                } else {
                                    if r == 5505106 {
                                        Some(Market::Tr)
                                    } else {
                                        None
                                    }
                                }
                            }
                        }
                    } else {
                        if r < 5570625 {
                            if r < 5505111 {
                                if r < 5505110 {
                                    if r == 5505108 {
                                        Some(Market::Tt)
                                    } else {
                                        None
                                    }
                                } else {
                                    if r == 5505110 {
                                        Some(Market::Tv)
                                    } else {
                                        None
                                    }
                                }
                            } else {
                                if r < 5505114 {
                                    if r == 5505111 {
                                        Some(Market::Tw)
                                    } else {
                                        None
                                    }
                                } else {
                                    if r == 5505114 {
                                        Some(Market::Tz)
                                    } else {
                                        None
                                    }
                                }
                            }
                        } else {
                            if r < 5570637 {
                                if r < 5570631 {
                                    if r == 5570625 {
                                        Some(Market::Ua)
                                    } else {
                                        None
                                    }
                                } else {
                                    if r == 5570631 {
                                        Some(Market::Ug)
                                    } else {
                                        None
                                    }
                                }
                            } else {
                                if r < 5570643 {
                                    if r == 5570637 {
                                        Some(Market::Um)
                                    } else {
                                        None
                                    }
                                } else {
                                    if r == 5570643 {
                                        Some(Market::Us)
                                    } else {
                                        None
                                    }
                                }
                            }
                        }
                    }
                } else {
                    if r < 5636181 {
                        if r < 5636165 {
                            if r < 5636161 {
                                if r < 5570650 {
                                    if r == 5570649 {
                                        Some(Market::Uy)
                                    } else {
                                        None
                                    }
                                } else {
                                    if r == 5570650 {
                                        Some(Market::Uz)
                                    } else {
                                        None
                                    }
                                }
                            } else {
                                if r < 5636163 {
                                    if r == 5636161 {
                                        Some(Market::Va)
                                    } else {
                                        None
                                    }
                                } else {
                                    if r == 5636163 {
                                        Some(Market::Vc)
                                    } else {
                                        None
                                    }
                                }
                            }
                        } else {
                            if r < 5636169 {
                                if r < 5636167 {
                                    if r == 5636165 {
                                        Some(Market::Ve)
                                    } else {
                                        None
                                    }
                                } else {
                                    if r == 5636167 {
                                        Some(Market::Vg)
                                    } else {
                                        None
                                    }
                                }
                            } else {
                                if r < 5636174 {
                                    if r == 5636169 {
                                        Some(Market::Vi)
                                    } else {
                                        None
                                    }
                                } else {
                                    if r == 5636174 {
                                        Some(Market::Vn)
                                    } else {
                                        None
                                    }
                                }
                            }
                        }
                    } else {
                        if r < 5832788 {
                            if r < 5701715 {
                                if r < 5701702 {
                                    if r == 5636181 {
                                        Some(Market::Vu)
                                    } else {
                                        None
                                    }
                                } else {
                                    if r == 5701702 {
                                        Some(Market::Wf)
                                    } else {
                                        None
                                    }
                                }
                            } else {
                                if r < 5832773 {
                                    if r == 5701715 {
                                        Some(Market::Ws)
                                    } else {
                                        None
                                    }
                                } else {
                                    if r == 5832773 {
                                        Some(Market::Ye)
                                    } else {
                                        None
                                    }
                                }
                            }
                        } else {
                            if r < 5898317 {
                                if r < 5898305 {
                                    if r == 5832788 {
                                        Some(Market::Yt)
                                    } else {
                                        None
                                    }
                                } else {
                                    if r == 5898305 {
                                        Some(Market::Za)
                                    } else {
                                        None
                                    }
                                }
                            } else {
                                if r < 5898327 {
                                    if r == 5898317 {
                                        Some(Market::Zm)
                                    } else {
                                        None
                                    }
                                } else {
                                    if r == 5898327 {
                                        Some(Market::Zw)
                                    } else {
                                        None
                                    }
                                }
                            }
                        }
                    }
                }
            }
        }
    }
}

pub(crate) proof fn lemma_market_rank(x: Market)
    ensures
        market_by_rank(pair_rank(market_code(x))) == Some(x),
        ascii_upper(market_code(x)) == market_code(x),
{
    match x {
        Market::Ad => {
            reveal_strlit("AD");
            assert(ascii_upper(market_code(x)) =~= market_code(x));
        },
        Market::Ae => {
            reveal_strlit("AE");
            assert(ascii_upper(market_code(x)) =~= market_code(x));
        },
        Market::Af => {
            reveal_strlit("AF");
            assert(ascii_upper(market_code(x)) =~= market_code(x));
        },
        Market::Ag => {
            reveal_strlit("AG");
            assert(ascii_upper(market_code(x)) =~= market_code(x));
        },
        Market::Ai => {
            reveal_strlit("AI");
            assert(ascii_upper(market_code(x)) =~= market_code(x));
        },
        Market::Al => {
            reveal_strlit("AL");
            assert(ascii_upper(market_code(x)) =~= market_code(x));
        },
        Market::Am => {
            reveal_strlit("AM");
            assert(ascii_upper(market_code(x)) =~= market_code(x));
        },
        Market::Ao => {
            reveal_strlit("AO");
            assert(ascii_upper(market_code(x)) =~= market_code(x));
        },
        Market::Aq => {
            reveal_strlit("AQ");
            assert(ascii_upper(market_code(x)) =~= market_code(x));
        },
        Market::Ar => {
            reveal_strlit("AR");
            assert(ascii_upper(market_code(x)) =~= market_code(x));
        },
        Market::As => {
            reveal_strlit("AS");
            assert(ascii_upper(market_code(x)) =~= market_code(x));
        },
        Market::At => {
            reveal_strlit("AT");
            assert(ascii_upper(market_code(x)) =~= market_code(x));
        },
        Market::Au => {
            reveal_strlit("AU");
            assert(ascii_upper(market_code(x)) =~= market_code(x));
        },
        Market::Aw => {
            reveal_strlit("AW");
            assert(ascii_upper(market_code(x)) =~= market_code(x));
        },
        Market::Ax => {
            reveal_strlit("AX");
            assert(ascii_upper(market_code(x)) =~= market_code(x));
        },
        Market::Az => {
            reveal_strlit("AZ");
            assert(ascii_upper(market_code(x)) =~= market_code(x));
        },
        Market::Ba => {
            reveal_strlit("BA");
            assert(ascii_upper(market_code(x)) =~= market_code(x));
        },
        Market::Bb => {
            reveal_strlit("BB");
            assert(ascii_upper(market_code(x)) =~= market_code(x));
        },
        Market::Bd => {
            reveal_strlit("BD");
            assert(ascii_upper(market_code(x)) =~= market_code(x));
        },
        Market::Be => {
            reveal_strlit("BE");
            assert(ascii_upper(market_code(x)) =~= market_code(x));
        },
        Market::Bf => {
            reveal_strlit("BF");
            assert(ascii_upper(market_code(x)) =~= market_code(x));
        },
        Market::Bg => {
            reveal_strlit("BG");
            assert(ascii_upper(market_code(x)) =~= market_code(x));
        },
        Market::Bh => {
            reveal_strlit("BH");
            assert(ascii_upper(market_code(x)) =~= market_code(x));
        },
        Market::Bi => {
            reveal_strlit("BI");
            assert(ascii_upper(market_code(x)) =~= market_code(x));
        },
        Market::Bj => {
            reveal_strlit("BJ");
            assert(ascii_upper(market_code(x)) =~= market_code(x));
        },
        Market::Bl => {
            reveal_strlit("BL");
            assert(ascii_upper(market_code(x)) =~= market_code(x));
        },
        Market::Bm => {
            reveal_strlit("BM");
            assert(ascii_upper(market_code(x)) =~= market_code(x));
        },
        Market::Bn => {
            reveal_strlit("BN");
            assert(ascii_upper(market_code(x)) =~= market_code(x));
        },
        Market::Bo => {
            reveal_strlit("BO");
            assert(ascii_upper(market_code(x)) =~= market_code(x));
        },
        Market::Bq => {
            reveal_strlit("BQ");
            assert(ascii_upper(market_code(x)) =~= market_code(x));
        },
        Market::Br => {
            reveal_strlit("BR");
            assert(ascii_upper(market_code(x)) =~= market_code(x));
        },
        Market::Bs => {
            reveal_strlit("BS");
            assert(ascii_upper(market_code(x)) =~= market_code(x));
        },
        Market::Bt => {
            reveal_strlit("BT");
            assert(ascii_upper(market_code(x)) =~= market_code(x));
        },
        Market::Bv => {
            reveal_strlit("BV");
            assert(ascii_upper(market_code(x)) =~= market_code(x));
        },
        Market::Bw => {
            reveal_strlit("BW");
            assert(ascii_upper(market_code(x)) =~= market_code(x));
        },
        Market::By => {
            reveal_strlit("BY");
            assert(ascii_upper(market_code(x)) =~= market_code(x));
        },
        Market::Bz => {
            reveal_strlit("BZ");
            assert(ascii_upper(market_code(x)) =~= market_code(x));
        },
        Market::Ca => {
            reveal_strlit("CA");
            assert(ascii_upper(market_code(x)) =~= market_code(x));
        },
        Market::Cc => {
            reveal_strlit("CC");
            assert(ascii_upper(market_code(x)) =~= market_code(x));
        },
        Market::Cd => {
            reveal_strlit("CD");
            assert(ascii_upper(market_code(x)) =~= market_code(x));
        },
        Market::Cf => {
            reveal_strlit("CF");
            assert(ascii_upper(market_code(x)) =~= market_code(x));
        },
        Market::Cg => {
            reveal_strlit("CG");
            assert(ascii_upper(market_code(x)) =~= market_code(x));
        },
        Market::Ch => {
            reveal_strlit("CH");
            assert(ascii_upper(market_code(x)) =~= market_code(x));
        },
        Market::Ci => {
            reveal_strlit("CI");
            assert(ascii_upper(market_code(x)) =~= market_code(x));
        },
        Market::Ck => {
            reveal_strlit("CK");
            assert(ascii_upper(market_code(x)) =~= market_code(x));
        },
        Market::Cl => {
            reveal_strlit("CL");
            assert(ascii_upper(market_code(x)) =~= market_code(x));
        },
        Market::Cm => {
            reveal_strlit("CM");
            assert(ascii_upper(market_code(x)) =~= market_code(x));
        },
        Market::Cn => {
            reveal_strlit("CN");
            assert(ascii_upper(market_code(x)) =~= market_code(x));
        },
        Market::Co => {
            reveal_strlit("CO");
            assert(ascii_upper(market_code(x)) =~= market_code(x));
        },
        Market::Cr => {
            reveal_strlit("CR");
            assert(ascii_upper(market_code(x)) =~= market_code(x));
        },
        Market::Cu => {
            reveal_strlit("CU");
            assert(ascii_upper(market_code(x)) =~= market_code(x));
        },
        Market::Cv => {
            reveal_strlit("CV");
            assert(ascii_upper(market_code(x)) =~= market_code(x));
        },
        Market::Cw => {
            reveal_strlit("CW");
            assert(ascii_upper(market_code(x)) =~= market_code(x));
        },
        Market::Cx => {
            reveal_strlit("CX");
            assert(ascii_upper(market_code(x)) =~= market_code(x));
        },
        Market::Cy => {
            reveal_strlit("CY");
            assert(ascii_upper(market_code(x)) =~= market_code(x));
        },
        Market::Cz => {
            reveal_strlit("CZ");
            assert(ascii_upper(market_code(x)) =~= market_code(x));
        },
        Market::De => {
            reveal_strlit("DE");
            assert(ascii_upper(market_code(x)) =~= market_code(x));
        },
        Market::Dj => {
            reveal_strlit("DJ");
            assert(ascii_upper(market_code(x)) =~= market_code(x));
        },
        Market::Dk => {
            reveal_strlit("DK");
            assert(ascii_upper(market_code(x)) =~= market_code(x));
        },
        Market::Dm => {
            reveal_strlit("DM");
            assert(ascii_upper(market_code(x)) =~= market_code(x));
        },
        Market::Do => {
            reveal_strlit("DO");
            assert(ascii_upper(market_code(x)) =~= market_code(x));
        },
        Market::Dz => {
            reveal_strlit("DZ");
            assert(ascii_upper(market_code(x)) =~= market_code(x));
        },
        Market::Ec => {
            reveal_strlit("EC");
            assert(ascii_upper(market_code(x)) =~= market_code(x));
        },
        Market::Ee => {
            reveal_strlit("EE");
            assert(ascii_upper(market_code(x)) =~= market_code(x));
        },
        Market::Eg => {
            reveal_strlit("EG");
            assert(ascii_upper(market_code(x)) =~= market_code(x));
        },
        Market::Eh => {
            reveal_strlit("EH");
            assert(ascii_upper(market_code(x)) =~= market_code(x));
        },
        Market::Er => {
            reveal_strlit("ER");
            assert(ascii_upper(market_code(x)) =~= market_code(x));
        },
        Market::Es => {
            reveal_strlit("ES");
            assert(ascii_upper(market_code(x)) =~= market_code(x));
        },
        Market::Et => {
            reveal_strlit("ET");
            assert(ascii_upper(market_code(x)) =~= market_code(x));
        },
        Market::Fi => {
            reveal_strlit("FI");
            assert(ascii_upper(market_code(x)) =~= market_code(x));
        },
        Market::Fj => {
            reveal_strlit("FJ");
            assert(ascii_upper(market_code(x)) =~= market_code(x));
        },
        Market::Fk => {
            reveal_strlit("FK");
            assert(ascii_upper(market_code(x)) =~= market_code(x));
        },
        Market::Fm => {
            reveal_strlit("FM");
            assert(ascii_upper(market_code(x)) =~= market_code(x));
        },
        Market::Fo => {
            reveal_strlit("FO");
            assert(ascii_upper(market_code(x)) =~= market_code(x));
        },
        Market::Fr => {
            reveal_strlit("FR");
            assert(ascii_upper(market_code(x)) =~= market_code(x));
        },
        Market::Ga => {
            reveal_strlit("GA");
            assert(ascii_upper(market_code(x)) =~= market_code(x));
        },
        Market::Gb => {
            reveal_strlit("GB");
            assert(ascii_upper(market_code(x)) =~= market_code(x));
        },
        Market::Gd => {
            reveal_strlit("GD");
            assert(ascii_upper(market_code(x)) =~= market_code(x));
        },
        Market::Ge => {
            reveal_strlit("GE");
            assert(ascii_upper(market_code(x)) =~= market_code(x));
        },
        Market::Gf => {
            reveal_strlit("GF");
            assert(ascii_upper(market_code(x)) =~= market_code(x));
        },
        Market::Gg => {
            reveal_strlit("GG");
            assert(ascii_upper(market_code(x)) =~= market_code(x));
        },
        Market::Gh => {
            reveal_strlit("GH");
            assert(ascii_upper(market_code(x)) =~= market_code(x));
        },
        Market::Gi => {
            reveal_strlit("GI");
            assert(ascii_upper(market_code(x)) =~= market_code(x));
        },
        Market::Gl => {
            reveal_strlit("GL");
            assert(ascii_upper(market_code(x)) =~= market_code(x));
        },
        Market::Gm => {
            reveal_strlit("GM");
            assert(ascii_upper(market_code(x)) =~= market_code(x));
        },
        Market::Gn => {
            reveal_strlit("GN");
            assert(ascii_upper(market_code(x)) =~= market_code(x));
        },
        Market::Gp => {
            reveal_strlit("GP");
            assert(ascii_upper(market_code(x)) =~= market_code(x));
        },
        Market::Gq => {
            reveal_strlit("GQ");
            assert(ascii_upper(market_code(x)) =~= market_code(x));
        },
        Market::Gr => {
            reveal_strlit("GR");
            assert(ascii_upper(market_code(x)) =~= market_code(x));
        },
        Market::Gs => {
            reveal_strlit("GS");
            assert(ascii_upper(market_code(x)) =~= market_code(x));
        },
        Market::Gt => {
            reveal_strlit("GT");
            assert(ascii_upper(market_code(x)) =~= market_code(x));
        },
        Market::Gu => {
            reveal_strlit("GU");
            assert(ascii_upper(market_code(x)) =~= market_code(x));
        },
        Market::Gw => {
            reveal_strlit("GW");
            assert(ascii_upper(market_code(x)) =~= market_code(x));
        },
        Market::Gy => {
            reveal_strlit("GY");
            assert(ascii_upper(market_code(x)) =~= market_code(x));
        },
        Market::Hk => {
            reveal_strlit("HK");
            assert(ascii_upper(market_code(x)) =~= market_code(x));
        },
        Market::Hm => {
            reveal_strlit("HM");
            assert(ascii_upper(market_code(x)) =~= market_code(x));
        },
        Market::Hn => {
            reveal_strlit("HN");
            assert(ascii_upper(market_code(x)) =~= market_code(x));
        },
        Market::Hr => {
            reveal_strlit("HR");
            assert(ascii_upper(market_code(x)) =~= market_code(x));
        },
        Market::Ht => {
            reveal_strlit("HT");
            assert(ascii_upper(market_code(x)) =~= market_code(x));
        },
        Market::Hu => {
            reveal_strlit("HU");
            assert(ascii_upper(market_code(x)) =~= market_code(x));
        },
        Market::Id => {
            reveal_strlit("ID");
            assert(ascii_upper(market_code(x)) =~= market_code(x));
        },
        Market::Ie => {
            reveal_strlit("IE");
            assert(ascii_upper(market_code(x)) =~= market_code(x));
        },
        Market::Il => {
            reveal_strlit("IL");
            assert(ascii_upper(market_code(x)) =~= market_code(x));
        },
        Market::Im => {
            reveal_strlit("IM");
            assert(ascii_upper(market_code(x)) =~= market_code(x));
        },
        Market::In => {
            reveal_strlit("IN");
            assert(ascii_upper(market_code(x)) =~= market_code(x));
        },
        Market::Io => {
            reveal_strlit("IO");
            assert(ascii_upper(market_code(x)) =~= market_code(x));
        },
        Market::Iq => {
            reveal_strlit("IQ");
            assert(ascii_upper(market_code(x)) =~= market_code(x));
        },
        Market::Ir => {
            reveal_strlit("IR");
            assert(ascii_upper(market_code(x)) =~= market_code(x));
        },
        Market::Is => {
            reveal_strlit("IS");
            assert(ascii_upper(market_code(x)) =~= market_code(x));
        },
        Market::It => {
            reveal_strlit("IT");
            assert(ascii_upper(market_code(x)) =~= market_code(x));
        },
        Market::Je => {
            reveal_strlit("JE");
            assert(ascii_upper(market_code(x)) =~= market_code(x));
        },
        Market::Jm => {
            reveal_strlit("JM");
            assert(ascii_upper(market_code(x)) =~= market_code(x));
        },
        Market::Jo => {
            reveal_strlit("JO");
            assert(ascii_upper(market_code(x)) =~= market_code(x));
        },
        Market::Jp => {
            reveal_strlit("JP");
            assert(ascii_upper(market_code(x)) =~= market_code(x));
        },
        Market::Ke => {
            reveal_strlit("KE");
            assert(ascii_upper(market_code(x)) =~= market_code(x));
        },
        Market::Kg => {
            reveal_strlit("KG");
            assert(ascii_upper(market_code(x)) =~= market_code(x));
        },
        Market::Kh => {
            reveal_strlit("KH");
            assert(ascii_upper(market_code(x)) =~= market_code(x));
        },
        Market::Ki => {
            reveal_strlit("KI");
            assert(ascii_upper(market_code(x)) =~= market_code(x));
        },
        Market::Km => {
            reveal_strlit("KM");
            assert(ascii_upper(market_code(x)) =~= market_code(x));
        },
        Market::Kn => {
            reveal_strlit("KN");
            assert(ascii_upper(market_code(x)) =~= market_code(x));
        },
        Market::Kp => {
            reveal_strlit("KP");
            assert(ascii_upper(market_code(x)) =~= market_code(x));
        },
        Market::Kr => {
            reveal_strlit("KR");
            assert(ascii_upper(market_code(x)) =~= market_code(x));
        },
        Market::Kw => {
            reveal_strlit("KW");
            assert(ascii_upper(market_code(x)) =~= market_code(x));
        },
        Market::Ky => {
            reveal_strlit("KY");
            assert(ascii_upper(market_code(x)) =~= market_code(x));
        },
        Market::Kz => {
            reveal_strlit("KZ");
            assert(ascii_upper(market_code(x)) =~= market_code(x));
        },
        Market::La => {
            reveal_strlit("LA");
            assert(ascii_upper(market_code(x)) =~= market_code(x));
        },
        Market::Lb => {
            reveal_strlit("LB");
            assert(ascii_upper(market_code(x)) =~= market_code(x));
        },
        Market::Lc => {
            reveal_strlit("LC");
            assert(ascii_upper(market_code(x)) =~= market_code(x));
        },
        Market::Li => {
            reveal_strlit("LI");
            assert(ascii_upper(market_code(x)) =~= market_code(x));
        },
        Market::Lk => {
            reveal_strlit("LK");
            assert(ascii_upper(market_code(x)) =~= market_code(x));
        },
        Market::Lr => {
            reveal_strlit("LR");
            assert(ascii_upper(market_code(x)) =~= market_code(x));
        },
        Market::Ls => {
            reveal_strlit("LS");
            assert(ascii_upper(market_code(x)) =~= market_code(x));
        },
        Market::Lt => {
            reveal_strlit("LT");
            assert(ascii_upper(market_code(x)) =~= market_code(x));
        },
        Market::Lu => {
            reveal_strlit("LU");
            assert(ascii_upper(market_code(x)) =~= market_code(x));
        },
        Market::Lv => {
            reveal_strlit("LV");
            assert(ascii_upper(market_code(x)) =~= market_code(x));
        },
        Market::Ly => {
            reveal_strlit("LY");
            assert(ascii_upper(market_code(x)) =~= market_code(x));
        },
        Market::Ma => {
            reveal_strlit("MA");
            assert(ascii_upper(market_code(x)) =~= market_code(x));
        },
        Market::Mc => {
            reveal_strlit("MC");
            assert(ascii_upper(market_code(x)) =~= market_code(x));
        },
        Market::Md => {
            reveal_strlit("MD");
            assert(ascii_upper(market_code(x)) =~= market_code(x));
        },
        Market::Me => {
            reveal_strlit("ME");
            assert(ascii_upper(market_code(x)) =~= market_code(x));
        },
        Market::Mf => {
            reveal_strlit("MF");
            assert(ascii_upper(market_code(x)) =~= market_code(x));
        },
        Market::Mg => {
            reveal_strlit("MG");
            assert(ascii_upper(market_code(x)) =~= market_code(x));
        },
        Market::Mh => {
            reveal_strlit("MH");
            assert(ascii_upper(market_code(x)) =~= market_code(x));
        },
        Market::Mk => {
            reveal_strlit("MK");
            assert(ascii_upper(market_code(x)) =~= market_code(x));
        },
        Market::Ml => {
            reveal_strlit("ML");
            assert(ascii_upper(market_code(x)) =~= market_code(x));
        },
        Market::Mm => {
            reveal_strlit("MM");
            assert(ascii_upper(market_code(x)) =~= market_code(x));
        },
        Market::Mn => {
            reveal_strlit("MN");
            assert(ascii_upper(market_code(x)) =~= market_code(x));
        },
        Market::Mo => {
            reveal_strlit("MO");
            assert(ascii_upper(market_code(x)) =~= market_code(x));
        },
        Market::Mp => {
            reveal_strlit("MP");
            assert(ascii_upper(market_code(x)) =~= market_code(x));
        },
        Market::Mq => {
            reveal_strlit("MQ");
            assert(ascii_upper(market_code(x)) =~= market_code(x));
        },
        Market::Mr => {
            reveal_strlit("MR");
            assert(ascii_upper(market_code(x)) =~= market_code(x));
        },
        Market::Ms => {
            reveal_strlit("MS");
            assert(ascii_upper(market_code(x)) =~= market_code(x));
        },
        Market::Mt => {
            reveal_strlit("MT");
            assert(ascii_upper(market_code(x)) =~= market_code(x));
        },
        Market::Mu => {
            reveal_strlit("MU");
            assert(ascii_upper(market_code(x)) =~= market_code(x));
        },
        Market::Mv => {
            reveal_strlit("MV");
            assert(ascii_upper(market_code(x)) =~= market_code(x));
        },
        Market::Mw => {
            reveal_strlit("MW");
            assert(ascii_upper(market_code(x)) =~= market_code(x));
        },
        Market::Mx => {
            reveal_strlit("MX");
            assert(ascii_upper(market_code(x)) =~= market_code(x));
        },
        Market::My => {
            reveal_strlit("MY");
            assert(ascii_upper(market_code(x)) =~= market_code(x));
        },
        Market::Mz => {
            reveal_strlit("MZ");
            assert(ascii_upper(market_code(x)) =~= market_code(x));
        },
        Market::Na => {
            reveal_strlit("NA");
            assert(ascii_upper(market_code(x)) =~= market_code(x));
        },
        Market::Nc => {
            reveal_strlit("NC");
            assert(ascii_upper(market_code(x)) =~= market_code(x));
        },
        Market::Ne => {
            reveal_strlit("NE");
            assert(ascii_upper(market_code(x)) =~= market_code(x));
        },
        Market::Nf => {
            reveal_strlit("NF");
            assert(ascii_upper(market_code(x)) =~= market_code(x));
        },
        Market::Ng => {
            reveal_strlit("NG");
            assert(ascii_upper(market_code(x)) =~= market_code(x));
        },
        Market::Ni => {
            reveal_strlit("NI");
            assert(ascii_upper(market_code(x)) =~= market_code(x));
        },
        Market::Nl => {
            reveal_strlit("NL");
            assert(ascii_upper(market_code(x)) =~= market_code(x));
        },
        Market::No => {
            reveal_strlit("NO");
            assert(ascii_upper(market_code(x)) =~= market_code(x));
        },
        Market::Np => {
            reveal_strlit("NP");
            assert(ascii_upper(market_code(x)) =~= market_code(x));
        },
        Market::Nr => {
            reveal_strlit("NR");
            assert(ascii_upper(market_code(x)) =~= market_code(x));
        },
        Market::Nu => {
            reveal_strlit("NU");
            assert(ascii_upper(market_code(x)) =~= market_code(x));
        },
        Market::Nz => {
            reveal_strlit("NZ");
            assert(ascii_upper(market_code(x)) =~= market_code(x));
        },
        Market::Om => {
            reveal_strlit("OM");
            assert(ascii_upper(market_code(x)) =~= market_code(x));
        },
        Market::Pa => {
            reveal_strlit("PA");
            assert(ascii_upper(market_code(x)) =~= market_code(x));
        },
        Market::Pe => {
            reveal_strlit("PE");
            assert(ascii_upper(market_code(x)) =~= market_code(x));
        },
        Market::Pf => {
            reveal_strlit("PF");
            assert(ascii_upper(market_code(x)) =~= market_code(x));
        },
        Market::Pg => {
            reveal_strlit("PG");
            assert(ascii_upper(market_code(x)) =~= market_code(x));
        },
        Market::Ph => {
            reveal_strlit("PH");
            assert(ascii_upper(market_code(x)) =~= market_code(x));
        },
        Market::Pk => {
            reveal_strlit("PK");
            assert(ascii_upper(market_code(x)) =~= market_code(x));
        },
        Market::Pl => {
            reveal_strlit("PL");
            assert(ascii_upper(market_code(x)) =~= market_code(x));
        },
        Market::Pm => {
            reveal_strlit("PM");
            assert(ascii_upper(market_code(x)) =~= market_code(x));
        },
        Market::Pn => {
            reveal_strlit("PN");
            assert(ascii_upper(market_code(x)) =~= market_code(x));
        },
        Market::Pr => {
            reveal_strlit("PR");
            assert(ascii_upper(market_code(x)) =~= market_code(x));
        },
        Market::Ps => {
            reveal_strlit("PS");
            assert(ascii_upper(market_code(x)) =~= market_code(x));
        },
        Market::Pt => {
            reveal_strlit("PT");
            assert(ascii_upper(market_code(x)) =~= market_code(x));
        },
        Market::Pw => {
            reveal_strlit("PW");
            assert(ascii_upper(market_code(x)) =~= market_code(x));
        },
        Market::Py => {
            reveal_strlit("PY");
            assert(ascii_upper(market_code(x)) =~= market_code(x));
        },
        Market::Qa => {
            reveal_strlit("QA");
            assert(ascii_upper(market_code(x)) =~= market_code(x));
        },
        Market::Re => {
            reveal_strlit("RE");
            assert(ascii_upper(market_code(x)) =~= market_code(x));
        },
        Market::Ro => {
            reveal_strlit("RO");
            assert(ascii_upper(market_code(x)) =~= market_code(x));
        },
        Market::Rs => {
            reveal_strlit("RS");
            assert(ascii_upper(market_code(x)) =~= market_code(x));
        },
        Market::Ru => {
            reveal_strlit("RU");
            assert(ascii_upper(market_code(x)) =~= market_code(x));
        },
        Market::Rw => {
            reveal_strlit("RW");
            assert(ascii_upper(market_code(x)) =~= market_code(x));
        },
        Market::Sa => {
            reveal_strlit("SA");
            assert(ascii_upper(market_code(x)) =~= market_code(x));
        },
        Market::Sb => {
            reveal_strlit("SB");
            assert(ascii_upper(market_code(x)) =~= market_code(x));
        },
        Market::Sc => {
            reveal_strlit("SC");
            assert(ascii_upper(market_code(x)) =~= market_code(x));
        },
        Market::Sd => {
            reveal_strlit("SD");
            assert(ascii_upper(market_code(x)) =~= market_code(x));
        },
        Market::Se => {
            reveal_strlit("SE");
            assert(ascii_upper(market_code(x)) =~= market_code(x));
        },
        Market::Sg => {
            reveal_strlit("SG");
            assert(ascii_upper(market_code(x)) =~= market_code(x));
        },
        Market::Sh => {
            reveal_strlit("SH");
            assert(ascii_upper(market_code(x)) =~= market_code(x));
        },
        Market::Si => {
            reveal_strlit("SI");
            assert(ascii_upper(market_code(x)) =~= market_code(x));
        },
        Market::Sj => {
            reveal_strlit("SJ");
            assert(ascii_upper(market_code(x)) =~= market_code(x));
        },
        Market::Sk => {
            reveal_strlit("SK");
            assert(ascii_upper(market_code(x)) =~= market_code(x));
        },
        Market::Sl => {
            reveal_strlit("SL");
            assert(ascii_upper(market_code(x)) =~= market_code(x));
        },
        Market::Sm => {
            reveal_strlit("SM");
            assert(ascii_upper(market_code(x)) =~= market_code(x));
        },
        Market::Sn => {
            reveal_strlit("SN");
            assert(ascii_upper(market_code(x)) =~= market_code(x));
        },
        Market::So => {
            reveal_strlit("SO");
            assert(ascii_upper(market_code(x)) =~= market_code(x));
        },
        Market::Sr => {
            reveal_strlit("SR");
            assert(ascii_upper(market_code(x)) =~= market_code(x));
        },
        Market::Ss => {
            reveal_strlit("SS");
            assert(ascii_upper(market_code(x)) =~= market_code(x));
        },
        Market::St => {
            reveal_strlit("ST");
            assert(ascii_upper(market_code(x)) =~= market_code(x));
        },
        Market::Sv => {
            reveal_strlit("SV");
            assert(ascii_upper(market_code(x)) =~= market_code(x));
        },
        Market::Sx => {
            reveal_strlit("SX");
            assert(ascii_upper(market_code(x)) =~= market_code(x));
        },
        Market::Sy => {
            reveal_strlit("SY");
            assert(ascii_upper(market_code(x)) =~= market_code(x));
        },
        Market::Sz => {
            reveal_strlit("SZ");
            assert(ascii_upper(market_code(x)) =~= market_code(x));
        },
        Market::Tc => {
            reveal_strlit("TC");
            assert(ascii_upper(market_code(x)) =~= market_code(x));
        },
        Market::Td => {
            reveal_strlit("TD");
            assert(ascii_upper(market_code(x)) =~= market_code(x));
        },
        Market::Tf => {
            reveal_strlit("TF");
            assert(ascii_upper(market_code(x)) =~= market_code(x));
        },
        Market::Tg => {
            reveal_strlit("TG");
            assert(ascii_upper(market_code(x)) =~= market_code(x));
        },
        Market::Th => {
            reveal_strlit("TH");
            assert(ascii_upper(market_code(x)) =~= market_code(x));
        },
        Market::Tj => {
            reveal_strlit("TJ");
            assert(ascii_upper(market_code(x)) =~= market_code(x));
        },
        Market::Tk => {
            reveal_strlit("TK");
            assert(ascii_upper(market_code(x)) =~= market_code(x));
        },
        Market::Tl => {
            reveal_strlit("TL");
            assert(ascii_upper(market_code(x)) =~= market_code(x));
        },
        Market::Tm => {
            reveal_strlit("TM");
            assert(ascii_upper(market_code(x)) =~= market_code(x));
        },
        Market::Tn => {
            reveal_strlit("TN");
            assert(ascii_upper(market_code(x)) =~= market_code(x));
        },
        Market::To => {
            reveal_strlit("TO");
            assert(ascii_upper(market_code(x)) =~= market_code(x));
        },
        Market::Tr => {
            reveal_strlit("TR");
            assert(ascii_upper(market_code(x)) =~= market_code(x));
        },
        Market::Tt => {
            reveal_strlit("TT");
            assert(ascii_upper(market_code(x)) =~= market_code(x));
        },
        Market::Tv => {
            reveal_strlit("TV");
            assert(ascii_upper(market_code(x)) =~= market_code(x));
        },
        Market::Tw => {
            reveal_strlit("TW");
            assert(ascii_upper(market_code(x)) =~= market_code(x));
        },
        Market::Tz => {
            reveal_strlit("TZ");
            assert(ascii_upper(market_code(x)) =~= market_code(x));
        },
        Market::Ua => {
            reveal_strlit("UA");
            assert(ascii_upper(market_code(x)) =~= market_code(x));
        },
        Market::Ug => {
            reveal_strlit("UG");
            assert(ascii_upper(market_code(x)) =~= market_code(x));
        },
        Market::Um => {
            reveal_strlit("UM");
            assert(ascii_upper(market_code(x)) =~= market_code(x));
        },
        Market::Us => {
            reveal_strlit("US");
            assert(ascii_upper(market_code(x)) =~= market_code(x));
        },
        Market::Uy => {
            reveal_strlit("UY");
            assert(ascii_upper(market_code(x)) =~= market_code(x));
        },
        Market::Uz => {
            reveal_strlit("UZ");
            assert(ascii_upper(market_code(x)) =~= market_code(x));
        },
        Market::Va => {
            reveal_strlit("VA");
            assert(ascii_upper(market_code(x)) =~= market_code(x));
        },
        Market::Vc => {
            reveal_strlit("VC");
            assert(ascii_upper(market_code(x)) =~= market_code(x));
        },
        Market::Ve => {
            reveal_strlit("VE");
            assert(ascii_upper(market_code(x)) =~= market_code(x));
        },
        Market::Vg => {
            reveal_strlit("VG");
            assert(ascii_upper(market_code(x)) =~= market_code(x));
        },
        Market::Vi => {
            reveal_strlit("VI");
            assert(ascii_upper(market_code(x)) =~= market_code(x));
        },
        Market::Vn => {
            reveal_strlit("VN");
            assert(ascii_upper(market_code(x)) =~= market_code(x));
        },
        Market::Vu => {
            reveal_strlit("VU");
            assert(ascii_upper(market_code(x)) =~= market_code(x));
        },
        Market::Wf => {
            reveal_strlit("WF");
            assert(ascii_upper(market_code(x)) =~= market_code(x));
        },
        Market::Ws => {
            reveal_strlit("WS");
            assert(ascii_upper(market_code(x)) =~= market_code(x));
        },
        Market::Ye => {
            reveal_strlit("YE");
            assert(ascii_upper(market_code(x)) =~= market_code(x));
        },
        Market::Yt => {
            reveal_strlit("YT");
            assert(ascii_upper(market_code(x)) =~= market_code(x));
        },
        Market::Za => {
            reveal_strlit("ZA");
            assert(ascii_upper(market_code(x)) =~= market_code(x));
        },
        Market::Zm => {
            reveal_strlit("ZM");
            assert(ascii_upper(market_code(x)) =~= market_code(x));
        },
        Market::Zw => {
            reveal_strlit("ZW");
            assert(ascii_upper(market_code(x)) =~= market_code(x));
        },
    }
}

/// Every Market code is in canonical case and names that value alone, so
/// reading a value's code back gives the value.
pub proof fn lemma_market_code_reads_back(x: Market, y: Market)
    ensures
        ascii_upper(market_code(x)) == market_code(x),
        market_code(y) == ascii_upper(market_code(x)) ==> y == x,
{
    lemma_market_rank(x);
    lemma_market_rank(y);
}

/// The Lang value whose code has rank `r`.
pub open spec fn lang_by_rank(r: int) -> Option<Lang> {
    if r < 7077986 {
        if r < 6684783 {
            if r < 6488165 {
                if r < 6357114 {
                    if r < 6357101 {
                        if r < 6357093 {
                            if r < 6357090 {
                                if r == 6357089 {
                                    Some(Lang::Aa)
                                } else {
                                    None
                                }
                            } else {
                                if r == 6357090 {
                                    Some(Lang::Ab)
                                } else {
                                    None
                                }
                            }
                        } else {
                            if r < 6357094 {
                                if r == 6357093 {
                                    Some(Lang::Ae)
                                } else {
                                    None
                                }
                            } else {
                                if r < 6357099 {
                                    if r == 6357094 {
                                        Some(Lang::Af)
                                    } else {
                                        None
                                    }
                                } else {
                                    if r == 6357099 {
                                        Some(Lang::Ak)
                                    } else {
                                        None
                                    }
                                }
                            }
                        }
                    } else {
                        if r < 6357107 {
                            if r < 6357102 {
                                if r == 6357101 {
                                    Some(Lang::Am)
                                } else {
                                    None
                                }
                            } else {
                                if r < 6357106 {
                                    if r == 6357102 {
                                        Some(Lang::An)
                                    } else {
                                        None
                                    }
                                } else {
                                    if r == 6357106 {
                                        Some(Lang::Ar)
                                    } else {
                                        None
                                    }
                                }
                            }
                        } else {
                            if r < 6357110 {
                                if r == 6357107 {
                                    Some(Lang::As)
                                } else {
                                    None
                                }
                            } else {
                                if r < 6357113 {
                                    if r == 6357110 {
                                        Some(Lang::Av)
                                    } else {
                                        None
                                    }
                                } else {
                                    if r == 6357113 {
                                        Some(Lang::Ay)
                                    } else {
                                        None
                                    }
                                }
                            }
                        }
                    }
                } else {
                    if r < 6422637 {
                        if r < 6422631 {
                            if r < 6422625 {
                                if r == 6357114 {
                                    Some(Lang::Az)
                                } else {
                                    None
                                }
                            } else {
                                if r < 6422629 {
                                    if r == 6422625 {
                                        Some(Lang::Ba)
                                    } else {
                                        None
                                    }
                                } else {
                                    if r == 6422629 {
                                        Some(Lang::Be)
                                    } else {
                                        None
                                    }
                                }
                            }
                        } else {
                            if r < 6422632 {
                                if r == 6422631 {
                                    Some(Lang::Bg)
                                } else {
                                    None
                                }
                            } else {
                                if r < 6422633 {
                                    if r == 6422632 {
                                        Some(Lang::Bh)
                                    } else {
                                        None
                                    }
                                } else {
                                    if r == 6422633 {
                                        Some(Lang::Bi)
                                    } else {
                                        None
                                    }
                                }
                            }
                        }
                    } else {
                        if r < 6422642 {
                            if r < 6422638 {
                                if r == 6422637 {
                                    Some(Lang::Bm)
                                } else {
                                    None
                                }
                            } else {
                                if r < 6422639 {
                                    if r == 6422638 {
                                        Some(Lang::Bn)
                                    } else {
                                        None
                                    }
                                } else {
                                    if r == 6422639 {
                                        Some(Lang::Bo)
                                    } else {
                                        None
                                    }
                                }
                            }
                        } else {
                            if r < 6422643 {
                                if r == 6422642 {
                                    Some(Lang::Br)
                                } else {
                                    None
                                }
                            } else {
                                if r < 6488161 {
                                    if r == 6422643 {
                                        Some(Lang::Bs)
                                    } else {
                                        None
                                    }
                                } else {
                                    if r == 6488161 {
                                        Some(Lang::Ca)
                                    } else {
                                        None
                                    }
                                }
                            }
                        }
                    }
                }
            } else {
                if r < 6553722 {
                    if r < 6488181 {
                        if r < 6488175 {
                            if r < 6488168 {
                                if r == 6488165 {
                                    Some(Lang::Ce)
                                } else {
                                    None
                                }
                            } else {
                                if r == 6488168 {
                                    Some(Lang::Ch)
                                } else {
                                    None
                                }
                            }
                        } else {
                            if r < 6488178 {
                                if r == 6488175 {
                                    Some(Lang::Co)
                                } else {
                                    None
                                }
                            } else {
                                if r < 6488179 {
                                    if r == 6488178 {
                                        Some(Lang::Cr)
                                    } else {
                                        None
                                    }
                                } else {
                                    if r == 6488179 {
                                        Some(Lang::Cs)
                                    } else {
                                        None
                                    }
                                }
                            }
                        }
                    } else {
                        if r < 6553697 {
                            if r < 6488182 {
                                if r == 6488181 {
                                    Some(Lang::Cu)
                                } else {
                                    None
                                }
                            } else {
                                if r < 6488185 {
                                    if r == 6488182 {
                                        Some(Lang::Cv)
                                    } else {
                                        None
                                    }
                                } else {
                                    if r == 6488185 {
                                        Some(Lang::Cy)
                                    } else {
                                        None
                                    }
                                }
                            }
                        } else {
                            if r < 6553701 {
                                if r == 6553697 {
                                    Some(Lang::Da)
                                } else {
                                    None
                                }
                            } else {
                                if r < 6553718 {
                                    if r == 6553701 {
                                        Some(Lang::De)
                                    } else {
                                        None
                                    }
                                } else {
                                    if r == 6553718 {
                                        Some(Lang::Dv)
                                    } else {
                                        None
                                    }
                                }
                            }
                        }
                    }
                } else {
                    if r < 6619252 {
                        if r < 6619246 {
                            if r < 6619237 {
                                if r == 6553722 {
                                    Some(Lang::Dz)
                                } else {
                                    None
                                }
                            } else {
                                if r < 6619244 {
                                    if r == 6619237 {
                                        Some(Lang::Ee)
                                    } else {
                                        None
                                    }
                                } else {
                                    if r == 6619244 {
                                        Some(Lang::El)
                                    } else {
                                        None
                                    }
                                }
                            }
                        } else {
                            if r < 6619247 {
                                if r == 6619246 {
                                    Some(Lang::En)
                                } else {
                                    None
                                }
                            } else {
                                if r < 6619251 {
                                    if r == 6619247 {
                                        Some(Lang::Eo)
                                    } else {
                                        None
                                    }
                                } else {
                                    if r == 6619251 {
                                        Some(Lang::Es)
                                    } else {
                                        None
                                    }
                                }
                            }
                        }
                    } else {
                        if r < 6684774 {
                            if r < 6619253 {
                                if r == 6619252 {
                                    Some(Lang::Et)
                                } else {
                                    None
                                }
                            } else {
                                if r < 6684769 {
                                    if r == 6619253 {
                                        Some(Lang::Eu)
                                    } else {
                                        None
                                    }
                                } else {
                                    if r == 6684769 {
                                        Some(Lang::Fa)
                                    } else {
                                        None
                                    }
                                }
                            }
                        } else {
                            if r < 6684777 {
                                if r == 6684774 {
                                    Some(Lang::Ff)
                                } else {
                                    None
                                }
                            } else {
                                if r < 6684778 {
                                    if r == 6684777 {
                                        Some(Lang::Fi)
                                    } else {
                                        None
                                    }
                                } else {
                                    if r == 6684778 {
                                        Some(Lang::Fj)
                                    } else {
                                        None
                                    }
                                }
                            }
                        }
                    }
                }
            }
        } else {
            if r < 6881387 {
                if r < 6815849 {
                    if r < 6750316 {
                        if r < 6684793 {
                            if r < 6684786 {
                                if r == 6684783 {
                                    Some(Lang::Fo)
                                } else {
                                    None
                                }
                            } else {
                                if r == 6684786 {
                                    Some(Lang::Fr)
                                } else {
                                    None
                                }
                            }
                        } else {
                            if r < 6750305 {
                                if r == 6684793 {
                                    Some(Lang::Fy)
                                } else {
                                    None
                                }
                            } else {
                                if r < 6750308 {
                                    if r == 6750305 {
                                        Some(Lang::Ga)
                                    } else {
                                        None
                                    }
                                } else {
                                    if r == 6750308 {
                                        Some(Lang::Gd)
                                    } else {
                                        None
                                    }
                                }
                            }
                        }
                    } else {
                        if r < 6750326 {
                            if r < 6750318 {
                                if r == 6750316 {
                                    Some(Lang::Gl)
                                } else {
                                    None
                                }
                            } else {
                                if r < 6750325 {
                                    if r == 6750318 {
                                        Some(Lang::Gn)
                                    } else {
                                        None
                                    }
                                } else {
                                    if r == 6750325 {
                                        Some(Lang::Gu)
                                    } else {
                                        None
                                    }
                                }
                            }
                        } else {
                            if r < 6815841 {
                                if r == 6750326 {
                                    Some(Lang::Gv)
                                } else {
                                    None
                                }
                            } else {
                                if r < 6815845 {
                                    if r == 6815841 {
                                        Some(Lang::Ha)
                                    } else {
                                        None
                                    }
                                } else {
                                    if r == 6815845 {
                                        Some(Lang::He)
                                    } else {
                                        None
                                    }
                                }
                            }
                        }
                    }
                } else {
                    if r < 6815866 {
                        if r < 6815860 {
                            if r < 6815855 {
                                if r == 6815849 {
                                    Some(Lang::Hi)
                                } else {
                                    None
                                }
                            } else {
                                if r < 6815858 {
                                    if r == 6815855 {
                                        Some(Lang::Ho)
                                    } else {
                                        None
                                    }
                                } else {
                                    if r == 6815858 {
                                        Some(Lang::Hr)
                                    } else {
                                        None
                                    }
                                }
                            }
                        } else {
                            if r < 6815861 {
                                if r == 6815860 {
                                    Some(Lang::Ht)
                                } else {
                                    None
                                }
                            } else {
                                if r < 6815865 {
                                    if r == 6815861 {
                                        Some(Lang::Hu)
                                    } else {
                                        None
                                    }
                                } else {
                                    if r == 6815865 {
                                        Some(Lang::Hy)
                                    } else {
                                        None
                                    }
                                }
                            }
                        }
                    } else {
                        if r < 6881381 {
                            if r < 6881377 {
                                if r == 6815866 {
                                    Some(Lang::Hz)
                                } else {
                                    None
                                }
                            } else {
                                if r < 6881380 {
                                    if r == 6881377 {
                                        Some(Lang::Ia)
                                    } else {
                                        None
                                    }
                                } else {
                                    if r == 6881380 {
                                        Some(Lang::Id)
                                    } else {
                                        None
                                    }
                                }
                            }
                        } else {
                            if r < 6881383 {
                                if r == 6881381 {
                                    Some(Lang::Ie)
                                } else {
                                    None
                                }
                            } else {
                                if r < 6881385 {
                                    if r == 6881383 {
                                        Some(Lang::Ig)
                                    } else {
                                        None
                                    }
                                } else {
                                    if r == 6881385 {
                                        Some(Lang::Ii)
                                    } else {
                                        None
                                    }
                                }
                            }
                        }
                    }
                }
            } else {
                if r < 7012459 {
                    if r < 6946913 {
                        if r < 6881395 {
                            if r < 6881391 {
                                if r == 6881387 {
                                    Some(Lang::Ik)
                                } else {
                                    None
                                }
                            } else {
                                if r == 6881391 {
                                    Some(Lang::Io)
                                } else {
                                    None
                                }
                            }
                        } else {
                            if r < 6881396 {
                                if r == 6881395 {
                                    Some(Lang::Is)
                                } else {
                                    None
                                }
                            } else {
                                if r < 6881397 {
                                    if r == 6881396 {
                                        Some(Lang::It)
                                    } else {
                                        None
                                    }
                                } else {
                                    if r == 6881397 {
                                        Some(Lang::Iu)
                                    } else {
                                        None
                                    }
                                }
                            }
                        }
                    } else {
                        if r < 7012455 {
                            if r < 6946934 {
                                if r == 6946913 {
                                    Some(Lang::Ja)
                                } else {
                                    None
                                }
                            } else {
                                if r < 7012449 {
                                    if r == 6946934 {
                                        Some(Lang::Jv)
                                    } else {
                                        None
                                    }
                                } else {
                                    if r == 7012449 {
                                        Some(Lang::Ka)
                                    } else {
                                        None
                                    }
                                }
                            }
                        } else {
                            if r < 7012457 {
                                if r == 7012455 {
                                    Some(Lang::Kg)
                                } else {
                                    None
                                }
                            } else {
                                if r < 7012458 {
                                    if r == 7012457 {
                                        Some(Lang::Ki)
                                    } else {
                                        None
                                    }
                                } else {
                                    if r == 7012458 {
                                        Some(Lang::Kj)
                                    } else {
                                        None
                                    }
                                }
                            }
                        }
                    }
                } else {
                    if r < 7012467 {
                        if r < 7012462 {
                            if r < 7012460 {
                                if r == 7012459 {
                                    Some(Lang::Kk)
                                } else {
                                    None
                                }
                            } else {
                                if r < 7012461 {
                                    if r == 7012460 {
                                        Some(Lang::Kl)
                                    } else {
                                        None
                                    }
                                } else {
                                    if r == 7012461 {
                                        Some(Lang::Km)
                                    } else {
                                        None
                                    }
                                }
                            }
                        } else {
                            if r < 7012463 {
                                if r == 7012462 {
                                    Some(Lang::Kn)
                                } else {
                                    None
                                }
                            } else {
                                if r < 7012466 {
                                    if r == 7012463 {
                                        Some(Lang::Ko)
                                    } else {
                                        None
                                    }
                                } else {
                                    if r == 7012466 {
                                        Some(Lang::Kr)
                                    } else {
                                        None
                                    }
                                }
                            }
                        }
                    } else {
                        if r < 7012471 {
                            if r < 7012469 {
                                if r == 7012467 {
                                    Some(Lang::Ks)
                                } else {
                                    None
                                }
                            } else {
                                if r < 7012470 {
                                    if r == 7012469 {
                                        Some(Lang::Ku)
                                    } else {
                                        None
                                    }
                                } else {
                                    if r == 7012470 {
                                        Some(Lang::Kv)
                                    } else {
                                        None
                                    }
                                }
                            }
                        } else {
                            if r < 7012473 {
                                if r == 7012471 {
                                    Some(Lang::Kw)
                                } else {
                                    None
                                }
                            } else {
                                if r < 7077985 {
                                    if r == 7012473 {
                                        Some(Lang::Ky)
                                    } else {
                                        None
                                    }
                                } else {
                                    if r == 7077985 {
                                        Some(Lang::La)
                                    } else {
                                        None
                                    }
                                }
                            }
                        }
                    }
                }
            }
        }
    } else {
        if r < 7536739 {
            if r < 7209068 {
                if r < 7143531 {
                    if r < 7078004 {
                        if r < 7077993 {
                            if r < 7077991 {
                                if r == 7077986 {
                                    Some(Lang::Lb)
                                } else {
                                    None
                                }
                            } else {
                                if r == 7077991 {
                                    Some(Lang::Lg)
                                } else {
                                    None
                                }
                            }
                        } else {
                            if r < 7077998 {
                                if r == 7077993 {
                                    Some(Lang::Li)
                                } else {
                                    None
                                }
                            } else {
                                if r < 7077999 {
                                    if r == 7077998 {
                                        Some(Lang::Ln)
                                    } else {
                                        None
                                    }
                                } else {
                                    if r == 7077999 {
                                        Some(Lang::Lo)
                                    } else {
                                        None
                                    }
                                }
                            }
                        }
                    } else {
                        if r < 7143527 {
                            if r < 7078005 {
                                if r == 7078004 {
                                    Some(Lang::Lt)
                                } else {
                                    None
                                }
                            } else {
                                if r < 7078006 {
                                    if r == 7078005 {
                                        Some(Lang::Lu)
                                    } else {
                                        None
                                    }
                                } else {
                                    if r == 7078006 {
                                        Some(Lang::Lv)
                                    } else {
                                        None
                                    }
                                }
                            }
                        } else {
                            if r < 7143528 {
                                if r == 7143527 {
                                    Some(Lang::Mg)
                                } else {
                                    None
                                }
                            } else {
                                if r < 7143529 {
                                    if r == 7143528 {
                                        Some(Lang::Mh)
                                    } else {
                                        None
                                    }
                                } else {
                                    if r == 7143529 {
                                        Some(Lang::Mi)
                                    } else {
                                        None
                                    }
                                }
                            }
                        }
                    }
                } else {
                    if r < 7143545 {
                        if r < 7143538 {
                            if r < 7143532 {
                                if r == 7143531 {
                                    Some(Lang::Mk)
                                } else {
                                    None
                                }
                            } else {
                                if r < 7143534 {
                                    if r == 7143532 {
                                        Some(Lang::Ml)
                                    } else {
                                        None
                                    }
                                } else {
                                    if r == 7143534 {
                                        Some(Lang::Mn)
                                    } else {
                                        None
                                    }
                                }
                            }
                        } else {
                            if r < 7143539 {
                                if r == 7143538 {
                                    Some(Lang::Mr)
                                } else {
                                    None
                                }
                            } else {
                                if r < 7143540 {
                                    if r == 7143539 {
                                        Some(Lang::Ms)
                                    } else {
                                        None
                                    }
                                } else {
                                    if r == 7143540 {
                                        Some(Lang::Mt)
                                    } else {
                                        None
                                    }
                                }
                            }
                        }
                    } else {
                        if r < 7209060 {
                            if r < 7209057 {
                                if r == 7143545 {
                                    Some(Lang::My)
                                } else {
                                    None
                                }
                            } else {
                                if r < 7209058 {
                                    if r == 7209057 {
                                        Some(Lang::Na)
                                    } else {
                                        None
                                    }
                                } else {
                                    if r == 7209058 {
                                        Some(Lang::Nb)
                                    } else {
                                        None
                                    }
                                }
                            }
                        } else {
                            if r < 7209061 {
                                if r == 7209060 {
                                    Some(Lang::Nd)
                                } else {
                                    None
                                }
                            } else {
                                if r < 7209063 {
                                    if r == 7209061 {
                                        Some(Lang::Ne)
                                    } else {
                                        None
                                    }
                                } else {
                                    if r == 7209063 {
                                        Some(Lang::Ng)
                                    } else {
                                        None
                                    }
                                }
                            }
                        }
                    }
                }
            } else {
                if r < 7340129 {
                    if r < 7209081 {
                        if r < 7209071 {
                            if r < 7209070 {
                                if r == 7209068 {
                                    Some(Lang::Nl)
                                } else {
                                    None
                                }
                            } else {
                                if r == 7209070 {
                                    Some(Lang::Nn)
                                } else {
                                    None
                                }
                            }
                        } else {
                            if r < 7209074 {
                                if r == 7209071 {
                                    Some(Lang::No)
                                } else {
                                    None
                                }
                            } else {
                                if r < 7209078 {
                                    if r == 7209074 {
                                        Some(Lang::Nr)
                                    } else {
                                        None
                                    }
                                } else {
                                    if r == 7209078 {
                                        Some(Lang::Nv)
                                    } else {
                                        None
                                    }
                                }
                            }
                        }
                    } else {
                        if r < 7274605 {
                            if r < 7274595 {
                                if r == 7209081 {
                                    Some(Lang::Ny)
                                } else {
                                    None
                                }
                            } else {
                                if r < 7274602 {
                                    if r == 7274595 {
                                        Some(Lang::Oc)
                                    } else {
                                        None
                                    }
                                } else {
                                    if r == 7274602 {
                                        Some(Lang::Oj)
                                    } else {
                                        None
                                    }
                                }
                            }
                        } else {
                            if r < 7274610 {
                                if r == 7274605 {
                                    Some(Lang::Om)
                                } else {
                                    None
                                }
                            } else {
                                if r < 7274611 {
                                    if r == 7274610 {
                                        Some(Lang::Or)
                                    } else {
                                        None
                                    }
                                } else {
                                    if r == 7274611 {
                                        Some(Lang::Os)
                                    } else {
                                        None
                                    }
                                }
                            }
                        }
                    }
                } else {
                    if r < 7471213 {
                        if r < 7340147 {
                            if r < 7340137 {
                                if r == 7340129 {
                                    Some(Lang::Pa)
                                } else {
                                    None
                                }
                            } else {
                                if r < 7340140 {
                                    if r == 7340137 {
                                        Some(Lang::Pi)
                                    } else {
                                        None
                                    }
                                } else {
                                    if r == 7340140 {
                                        Some(Lang::Pl)
                                    } else {
                                        None
                                    }
                                }
                            }
                        } else {
                            if r < 7340148 {
                                if r == 7340147 {
                                    Some(Lang::Ps)
                                } else {
                                    None
                                }
                            } else {
                                if r < 7405685 {
                                    if r == 7340148 {
                                        Some(Lang::Pt)
                                    } else {
                                        None
                                    }
                                } else {
                                    if r == 7405685 {
                                        Some(Lang::Qu)
                                    } else {
                                        None
                                    }
                                }
                            }
                        }
                    } else {
                        if r < 7471221 {
                            if r < 7471214 {
                                if r == 7471213 {
                                    Some(Lang::Rm)
                                } else {
                                    None
                                }
                            } else {
                                if r < 7471215 {
                                    if r == 7471214 {
                                        Some(Lang::Rn)
                                    } else {
                                        None
                                    }
                                } else {
                                    if r == 7471215 {
                                        Some(Lang::Ro)
                                    } else {
                                        None
                                    }
                                }
                            }
                        } else {
                            if r < 7471223 {
                                if r == 7471221 {
                                    Some(Lang::Ru)
                                } else {
                                    None
                                }
                            } else {
                                if r < 7536737 {
                                    if r == 7471223 {
                                        Some(Lang::Rw)
                                    } else {
                                        None
                                    }
                                } else {
                                    if r == 7536737 {
                                        Some(Lang::Sa)
                                    } else {
                                        None
                                    }
                                }
                            }
                        }
                    }
                }
            }
        } else {
            if r < 7602284 {
                if r < 7536754 {
                    if r < 7536747 {
                        if r < 7536741 {
                            if r < 7536740 {
                                if r == 7536739 {
                                    Some(Lang::Sc)
                                } else {
                                    None
                                }
                            } else {
                                if r == 7536740 {
                                    Some(Lang::Sd)
                                } else {
                                    None
                                }
                            }
                        } else {
                            if r < 7536743 {
                                if r == 7536741 {
                                    Some(Lang::Se)
                                } else {
                                    None
                                }
                            } else {
                                if r < 7536745 {
                                    if r == 7536743 {
                                        Some(Lang::Sg)
                                    } else {
                                        None
                                    }
                                } else {
                                    if r == 7536745 {
                                        Some(Lang::Si)
                                    } else {
                                        None
                                    }
                                }
                            }
                        }
                    } else {
                        if r < 7536750 {
                            if r < 7536748 {
                                if r == 7536747 {
                                    Some(Lang::Sk)
                                } else {
                                    None
                                }
                            } else {
                                if r < 7536749 {
                                    if r == 7536748 {
                                        Some(Lang::Sl)
                                    } else {
                                        None
                                    }
                                } else {
                                    if r == 7536749 {
                                        Some(Lang::Sm)
                                    } else {
                                        None
                                    }
                                }
                            }
                        } else {
                            if r < 7536751 {
                                if r == 7536750 {
                                    Some(Lang::Sn)
                                } else {
                                    None
                                }
                            } else {
                                if r < 7536753 {
                                    if r == 7536751 {
                                        Some(Lang::So)
                                    } else {
                                        None
                                    }
                                } else {
                                    if r == 7536753 {
                                        Some(Lang::Sq)
                                    } else {
                                        None
                                    }
                                }
                            }
                        }
                    }
                } else {
                    if r < 7602273 {
                        if r < 7536757 {
                            if r < 7536755 {
                                if r == 7536754 {
                                    Some(Lang::Sr)
                                } else {
                                    None
                                }
                            } else {
                                if r < 7536756 {
                                    if r == 7536755 {
                                        Some(Lang::Ss)
                                    } else {
                                        None
                                    }
                                } else {
                                    if r == 7536756 {
                                        Some(Lang::St)
                                    } else {
                                        None
                                    }
                                }
                            }
                        } else {
                            if r < 7536758 {
                                if r == 7536757 {
                                    Some(Lang::Su)
                                } else {
                                    None
                                }
                            } else {
                                if r < 7536759 {
                                    if r == 7536758 {
                                        Some(Lang::Sv)
                                    } else {
                                        None
                                    }
                                } else {
                                    if r == 7536759 {
                                        Some(Lang::Sw)
                                    } else {
                                        None
                                    }
                                }
                            }
                        }
                    } else {
                        if r < 7602280 {
                            if r < 7602277 {
                                if r == 7602273 {
                                    Some(Lang::Ta)
                                } else {
                                    None
                                }
                            } else {
                                if r < 7602279 {
                                    if r == 7602277 {
                                        Some(Lang::Te)
                                    } else {
                                        None
                                    }
                                } else {
                                    if r == 7602279 {
                                        Some(Lang::Tg)
                                    } else {
                                        None
                                    }
                                }
                            }
                        } else {
                            if r < 7602281 {
                                if r == 7602280 {
                                    Some(Lang::Th)
                                } else {
                                    None
                                }
                            } else {
                                if r < 7602283 {
                                    if r == 7602281 {
                                        Some(Lang::Ti)
                                    } else {
                                        None
                                    }
                                } else {
                                    if r == 7602283 {
                                        Some(Lang::Tk)
                                    } else {
                                        None
                                    }
                                }
                            }
                        }
                    }
                }
            } else {
                if r < 7667834 {
                    if r < 7602292 {
                        if r < 7602287 {
                            if r < 7602286 {
                                if r == 7602284 {
                                    Some(Lang::Tl)
                                } else {
                                    None
                                }
                            } else {
                                if r == 7602286 {
                                    Some(Lang::Tn)
                                } else {
                                    None
                                }
                            }
                        } else {
                            if r < 7602290 {
                                if r == 7602287 {
                                    Some(Lang::To)
                                } else {
                                    None
                                }
                            } else {
                                if r < 7602291 {
                                    if r == 7602290 {
                                        Some(Lang::Tr)
                                    } else {
                                        None
                                    }
                                } else {
                                    if r == 7602291 {
                                        Some(Lang::Ts)
                                    } else {
                                        None
                                    }
                                }
                            }
                        }
                    } else {
                        if r < 7667815 {
                            if r < 7602295 {
                                if r == 7602292 {
                                    Some(Lang::Tt)
                                } else {
                                    None
                                }
                            } else {
                                if r < 7602297 {
                                    if r == 7602295 {
                                        Some(Lang::Tw)
                                    } else {
                                        None
                                    }
                                } else {
                                    if r == 7602297 {
                                        Some(Lang::Ty)
                                    } else {
                                        None
                                    }
                                }
                            }
                        } else {
                            if r < 7667819 {
                                if r == 7667815 {
                                    Some(Lang::Ug)
                                } else {
                                    None
                                }
                            } else {
                                if r < 7667826 {
                                    if r == 7667819 {
                                        Some(Lang::Uk)
                                    } else {
                                        None
                                    }
                                } else {
                                    if r == 7667826 {
                                        Some(Lang::Ur)
                                    } else {
                                        None
                                    }
                                }
                            }
                        }
                    }
                } else {
                    if r < 7864424 {
                        if r < 7733359 {
                            if r < 7733349 {
                                if r == 7667834 {
                                    Some(Lang::Uz)
                                } else {
                                    None
                                }
                            } else {
                                if r < 7733353 {
                                    if r == 7733349 {
                                        Some(Lang::Ve)
                                    } else {
                                        None
                                    }
                                } else {
                                    if r == 7733353 {
                                        Some(Lang::Vi)
                                    } else {
                                        None
                                    }
                                }
                            }
                        } else {
                            if r < 7798881 {
                                if r == 7733359 {
                                    Some(Lang::Vo)
                                } else {
                                    None
                                }
                            } else {
                                if r < 7798895 {
                                    if r == 7798881 {
                                        Some(Lang::Wa)
                                    } else {
                                        None
                                    }
                                } else {
                                    if r == 7798895 {
                                        Some(Lang::Wo)
                                    } else {
                                        None
                                    }
                                }
                            }
                        }
                    } else {
                        if r < 7995489 {
                            if r < 7929961 {
                                if r == 7864424 {
                                    Some(Lang::Xh)
                                } else {
                                    None
                                }
                            } else {
                                if r < 7929967 {
                                    if r == 7929961 {
                                        Some(Lang::Yi)
                                    } else {
                                        None
                                    }
                                } else {
                                    if r == 7929967 {
                                        Some(Lang::Yo)
                                    } else {
                                        None
                                    }
                                }
                            }
                        } else {
                            if r < 7995496 {
                                if r == 7995489 {
                                    Some(Lang::Za)
                                } else {
                                    None
                                }
                            } else {
                                if r < 7995509 {
                                    if r == 7995496 {
                                        Some(Lang::Zh)
                                    } else {
                                        None
                                    }
                                } else {
                                    if r == 7995509 {
                                        Some(Lang::Zu)
                                    } else {
                                        None
                                    }
                                }
                            }
                        }
                    }
                }
            }
        }
    }
}

pub(crate) proof fn lemma_lang_rank(x: Lang)
    ensures
        lang_by_rank(pair_rank(lang_code(x))) == Some(x),
        ascii_lower(lang_code(x)) == lang_code(x),
{
    match x {
        Lang::Aa => {
            reveal_strlit("aa");
            assert(ascii_lower(lang_code(x)) =~= lang_code(x));
        },
        Lang::Ab => {
            reveal_strlit("ab");
            assert(ascii_lower(lang_code(x)) =~= lang_code(x));
        },
        Lang::Ae => {
            reveal_strlit("ae");
            assert(ascii_lower(lang_code(x)) =~= lang_code(x));
        },
        Lang::Af => {
            reveal_strlit("af");
            assert(ascii_lower(lang_code(x)) =~= lang_code(x));
        },
        Lang::Ak => {
            reveal_strlit("ak");
            assert(ascii_lower(lang_code(x)) =~= lang_code(x));
        },
        Lang::Am => {
            reveal_strlit("am");
            assert(ascii_lower(lang_code(x)) =~= lang_code(x));
        },
        Lang::An => {
            reveal_strlit("an");
            assert(ascii_lower(lang_code(x)) =~= lang_code(x));
        },
        Lang::Ar => {
            reveal_strlit("ar");
            assert(ascii_lower(lang_code(x)) =~= lang_code(x));
        },
        Lang::As => {
            reveal_strlit("as");
            assert(ascii_lower(lang_code(x)) =~= lang_code(x));
        },
        Lang::Av => {
            reveal_strlit("av");
            assert(ascii_lower(lang_code(x)) =~= lang_code(x));
        },
        Lang::Ay => {
            reveal_strlit("ay");
            assert(ascii_lower(lang_code(x)) =~= lang_code(x));
        },
        Lang::Az => {
            reveal_strlit("az");
            assert(ascii_lower(lang_code(x)) =~= lang_code(x));
        },
        Lang::Ba => {
            reveal_strlit("ba");
            assert(ascii_lower(lang_code(x)) =~= lang_code(x));
        },
        Lang::Be => {
            reveal_strlit("be");
            assert(ascii_lower(lang_code(x)) =~= lang_code(x));
        },
        Lang::Bg => {
            reveal_strlit("bg");
            assert(ascii_lower(lang_code(x)) =~= lang_code(x));
        },
        Lang::Bh => {
            reveal_strlit("bh");
            assert(ascii_lower(lang_code(x)) =~= lang_code(x));
        },
        Lang::Bi => {
            reveal_strlit("bi");
            assert(ascii_lower(lang_code(x)) =~= lang_code(x));
        },
        Lang::Bm => {
            reveal_strlit("bm");
            assert(ascii_lower(lang_code(x)) =~= lang_code(x));
        },
        Lang::Bn => {
            reveal_strlit("bn");
            assert(ascii_lower(lang_code(x)) =~= lang_code(x));
        },
        Lang::Bo => {
            reveal_strlit("bo");
            assert(ascii_lower(lang_code(x)) =~= lang_code(x));
        },
        Lang::Br => {
            reveal_strlit("br");
            assert(ascii_lower(lang_code(x)) =~= lang_code(x));
        },
        Lang::Bs => {
            reveal_strlit("bs");
            assert(ascii_lower(lang_code(x)) =~= lang_code(x));
        },
        Lang::Ca => {
            reveal_strlit("ca");
            assert(ascii_lower(lang_code(x)) =~= lang_code(x));
        },
        Lang::Ce => {
            reveal_strlit("ce");
            assert(ascii_lower(lang_code(x)) =~= lang_code(x));
        },
        Lang::Ch => {
            reveal_strlit("ch");
            assert(ascii_lower(lang_code(x)) =~= lang_code(x));
        },
        Lang::Co => {
            reveal_strlit("co");
            assert(ascii_lower(lang_code(x)) =~= lang_code(x));
        },
        Lang::Cr => {
            reveal_strlit("cr");
            assert(ascii_lower(lang_code(x)) =~= lang_code(x));
        },
        Lang::Cs => {
            reveal_strlit("cs");
            assert(ascii_lower(lang_code(x)) =~= lang_code(x));
        },
        Lang::Cu => {
            reveal_strlit("cu");
            assert(ascii_lower(lang_code(x)) =~= lang_code(x));
        },
        Lang::Cv => {
            reveal_strlit("cv");
            assert(ascii_lower(lang_code(x)) =~= lang_code(x));
        },
        Lang::Cy => {
            reveal_strlit("cy");
            assert(ascii_lower(lang_code(x)) =~= lang_code(x));
        },
        Lang::Da => {
            reveal_strlit("da");
            assert(ascii_lower(lang_code(x)) =~= lang_code(x));
        },
        Lang::De => {
            reveal_strlit("de");
            assert(ascii_lower(lang_code(x)) =~= lang_code(x));
        },
        Lang::Dv => {
            reveal_strlit("dv");
            assert(ascii_lower(lang_code(x)) =~= lang_code(x));
        },
        Lang::Dz => {
            reveal_strlit("dz");
            assert(ascii_lower(lang_code(x)) =~= lang_code(x));
        },
        Lang::Ee => {
            reveal_strlit("ee");
            assert(ascii_lower(lang_code(x)) =~= lang_code(x));
        },
        Lang::El => {
            reveal_strlit("el");
            assert(ascii_lower(lang_code(x)) =~= lang_code(x));
        },
        Lang::En => {
            reveal_strlit("en");
            assert(ascii_lower(lang_code(x)) =~= lang_code(x));
        },
        Lang::Eo => {
            reveal_strlit("eo");
            assert(ascii_lower(lang_code(x)) =~= lang_code(x));
        },
        Lang::Es => {
            reveal_strlit("es");
            assert(ascii_lower(lang_code(x)) =~= lang_code(x));
        },
        Lang::Et => {
            reveal_strlit("et");
            assert(ascii_lower(lang_code(x)) =~= lang_code(x));
        },
        Lang::Eu => {
            reveal_strlit("eu");
            assert(ascii_lower(lang_code(x)) =~= lang_code(x));
        },
        Lang::Fa => {
            reveal_strlit("fa");
            assert(ascii_lower(lang_code(x)) =~= lang_code(x));
        },
        Lang::Ff => {
            reveal_strlit("ff");
            assert(ascii_lower(lang_code(x)) =~= lang_code(x));
        },
        Lang::Fi => {
            reveal_strlit("fi");
            assert(ascii_lower(lang_code(x)) =~= lang_code(x));
        },
        Lang::Fj => {
            reveal_strlit("fj");
            assert(ascii_lower(lang_code(x)) =~= lang_code(x));
        },
        Lang::Fo => {
            reveal_strlit("fo");
            assert(ascii_lower(lang_code(x)) =~= lang_code(x));
        },
        Lang::Fr => {
            reveal_strlit("fr");
            assert(ascii_lower(lang_code(x)) =~= lang_code(x));
        },
        Lang::Fy => {
            reveal_strlit("fy");
            assert(ascii_lower(lang_code(x)) =~= lang_code(x));
        },
        Lang::Ga => {
            reveal_strlit("ga");
            assert(ascii_lower(lang_code(x)) =~= lang_code(x));
        },
        Lang::Gd => {
            reveal_strlit("gd");
            assert(ascii_lower(lang_code(x)) =~= lang_code(x));
        },
        Lang::Gl => {
            reveal_strlit("gl");
            assert(ascii_lower(lang_code(x)) =~= lang_code(x));
        },
        Lang::Gn => {
            reveal_strlit("gn");
            assert(ascii_lower(lang_code(x)) =~= lang_code(x));
        },
        Lang::Gu => {
            reveal_strlit("gu");
            assert(ascii_lower(lang_code(x)) =~= lang_code(x));
        },
        Lang::Gv => {
            reveal_strlit("gv");
            assert(ascii_lower(lang_code(x)) =~= lang_code(x));
        },
        Lang::Ha => {
            reveal_strlit("ha");
            assert(ascii_lower(lang_code(x)) =~= lang_code(x));
        },
        Lang::He => {
            reveal_strlit("he");
            assert(ascii_lower(lang_code(x)) =~= lang_code(x));
        },
        Lang::Hi => {
            reveal_strlit("hi");
            assert(ascii_lower(lang_code(x)) =~= lang_code(x));
        },
        Lang::Ho => {
            reveal_strlit("ho");
            assert(ascii_lower(lang_code(x)) =~= lang_code(x));
        },
        Lang::Hr => {
            reveal_strlit("hr");
            assert(ascii_lower(lang_code(x)) =~= lang_code(x));
        },
        Lang::Ht => {
            reveal_strlit("ht");
            assert(ascii_lower(lang_code(x)) =~= lang_code(x));
        },
        Lang::Hu => {
            reveal_strlit("hu");
            assert(ascii_lower(lang_code(x)) =~= lang_code(x));
        },
        Lang::Hy => {
            reveal_strlit("hy");
            assert(ascii_lower(lang_code(x)) =~= lang_code(x));
        },
        Lang::Hz => {
            reveal_strlit("hz");
            assert(ascii_lower(lang_code(x)) =~= lang_code(x));
        },
        Lang::Ia => {
            reveal_strlit("ia");
            assert(ascii_lower(lang_code(x)) =~= lang_code(x));
        },
        Lang::Id => {
            reveal_strlit("id");
            assert(ascii_lower(lang_code(x)) =~= lang_code(x));
        },
        Lang::Ie => {
            reveal_strlit("ie");
            assert(ascii_lower(lang_code(x)) =~= lang_code(x));
        },
        Lang::Ig => {
            reveal_strlit("ig");
            assert(ascii_lower(lang_code(x)) =~= lang_code(x));
        },
        Lang::Ii => {
            reveal_strlit("ii");
            assert(ascii_lower(lang_code(x)) =~= lang_code(x));
        },
        Lang::Ik => {
            reveal_strlit("ik");
            assert(ascii_lower(lang_code(x)) =~= lang_code(x));
        },
        Lang::Io => {
            reveal_strlit("io");
            assert(ascii_lower(lang_code(x)) =~= lang_code(x));
        },
        Lang::Is => {
            reveal_strlit("is");
            assert(ascii_lower(lang_code(x)) =~= lang_code(x));
        },
        Lang::It => {
            reveal_strlit("it");
            assert(ascii_lower(lang_code(x)) =~= lang_code(x));
        },
        Lang::Iu => {
            reveal_strlit("iu");
            assert(ascii_lower(lang_code(x)) =~= lang_code(x));
        },
        Lang::Ja => {
            reveal_strlit("ja");
            assert(ascii_lower(lang_code(x)) =~= lang_code(x));
        },
        Lang::Jv => {
            reveal_strlit("jv");
            assert(ascii_lower(lang_code(x)) =~= lang_code(x));
        },
        Lang::Ka => {
            reveal_strlit("ka");
            assert(ascii_lower(lang_code(x)) =~= lang_code(x));
        },
        Lang::Kg => {
            reveal_strlit("kg");
            assert(ascii_lower(lang_code(x)) =~= lang_code(x));
        },
        Lang::Ki => {
            reveal_strlit("ki");
            assert(ascii_lower(lang_code(x)) =~= lang_code(x));
        },
        Lang::Kj => {
            reveal_strlit("kj");
            assert(ascii_lower(lang_code(x)) =~= lang_code(x));
        },
        Lang::Kk => {
            reveal_strlit("kk");
            assert(ascii_lower(lang_code(x)) =~= lang_code(x));
        },
        Lang::Kl => {
            reveal_strlit("kl");
            assert(ascii_lower(lang_code(x)) =~= lang_code(x));
        },
        Lang::Km => {
            reveal_strlit("km");
            assert(ascii_lower(lang_code(x)) =~= lang_code(x));
        },
        Lang::Kn => {
            reveal_strlit("kn");
            assert(ascii_lower(lang_code(x)) =~= lang_code(x));
        },
        Lang::Ko => {
            reveal_strlit("ko");
            assert(ascii_lower(lang_code(x)) =~= lang_code(x));
        },
        Lang::Kr => {
            reveal_strlit("kr");
            assert(ascii_lower(lang_code(x)) =~= lang_code(x));
        },
        Lang::Ks => {
            reveal_strlit("ks");
            assert(ascii_lower(lang_code(x)) =~= lang_code(x));
        },
        Lang::Ku => {
            reveal_strlit("ku");
            assert(ascii_lower(lang_code(x)) =~= lang_code(x));
        },
        Lang::Kv => {
            reveal_strlit("kv");
            assert(ascii_lower(lang_code(x)) =~= lang_code(x));
        },
        Lang::Kw => {
            reveal_strlit("kw");
            assert(ascii_lower(lang_code(x)) =~= lang_code(x));
        },
        Lang::Ky => {
            reveal_strlit("ky");
            assert(ascii_lower(lang_code(x)) =~= lang_code(x));
        },
        Lang::La => {
            reveal_strlit("la");
            assert(ascii_lower(lang_code(x)) =~= lang_code(x));
        },
        Lang::Lb => {
            reveal_strlit("lb");
            assert(ascii_lower(lang_code(x)) =~= lang_code(x));
        },
        Lang::Lg => {
            reveal_strlit("lg");
            assert(ascii_lower(lang_code(x)) =~= lang_code(x));
        },
        Lang::Li => {
            reveal_strlit("li");
            assert(ascii_lower(lang_code(x)) =~= lang_code(x));
        },
        Lang::Ln => {
            reveal_strlit("ln");
            assert(ascii_lower(lang_code(x)) =~= lang_code(x));
        },
        Lang::Lo => {
            reveal_strlit("lo");
            assert(ascii_lower(lang_code(x)) =~= lang_code(x));
        },
        Lang::Lt => {
            reveal_strlit("lt");
            assert(ascii_lower(lang_code(x)) =~= lang_code(x));
        },
        Lang::Lu => {
            reveal_strlit("lu");
            assert(ascii_lower(lang_code(x)) =~= lang_code(x));
        },
        Lang::Lv => {
            reveal_strlit("lv");
            assert(ascii_lower(lang_code(x)) =~= lang_code(x));
        },
        Lang::Mg => {
            reveal_strlit("mg");
            assert(ascii_lower(lang_code(x)) =~= lang_code(x));
        },
        Lang::Mh => {
            reveal_strlit("mh");
            assert(ascii_lower(lang_code(x)) =~= lang_code(x));
        },
        Lang::Mi => {
            reveal_strlit("mi");
            assert(ascii_lower(lang_code(x)) =~= lang_code(x));
        },
        Lang::Mk => {
            reveal_strlit("mk");
            assert(ascii_lower(lang_code(x)) =~= lang_code(x));
        },
        Lang::Ml => {
            reveal_strlit("ml");
            assert(ascii_lower(lang_code(x)) =~= lang_code(x));
        },
        Lang::Mn => {
            reveal_strlit("mn");
            assert(ascii_lower(lang_code(x)) =~= lang_code(x));
        },
        Lang::Mr => {
            reveal_strlit("mr");
            assert(ascii_lower(lang_code(x)) =~= lang_code(x));
        },
        Lang::Ms => {
            reveal_strlit("ms");
            assert(ascii_lower(lang_code(x)) =~= lang_code(x));
        },
        Lang::Mt => {
            reveal_strlit("mt");
            assert(ascii_lower(lang_code(x)) =~= lang_code(x));
        },
        Lang::My => {
            reveal_strlit("my");
            assert(ascii_lower(lang_code(x)) =~= lang_code(x));
        },
        Lang::Na => {
            reveal_strlit("na");
            assert(ascii_lower(lang_code(x)) =~= lang_code(x));
        },
        Lang::Nb => {
            reveal_strlit("nb");
            assert(ascii_lower(lang_code(x)) =~= lang_code(x));
        },
        Lang::Nd => {
            reveal_strlit("nd");
            assert(ascii_lower(lang_code(x)) =~= lang_code(x));
        },
        Lang::Ne => {
            reveal_strlit("ne");
            assert(ascii_lower(lang_code(x)) =~= lang_code(x));
        },
        Lang::Ng => {
            reveal_strlit("ng");
            assert(ascii_lower(lang_code(x)) =~= lang_code(x));
        },
        Lang::Nl => {
            reveal_strlit("nl");
            assert(ascii_lower(lang_code(x)) =~= lang_code(x));
        },
        Lang::Nn => {
            reveal_strlit("nn");
            assert(ascii_lower(lang_code(x)) =~= lang_code(x));
        },
        Lang::No => {
            reveal_strlit("no");
            assert(ascii_lower(lang_code(x)) =~= lang_code(x));
        },
        Lang::Nr => {
            reveal_strlit("nr");
            assert(ascii_lower(lang_code(x)) =~= lang_code(x));
        },
        Lang::Nv => {
            reveal_strlit("nv");
            assert(ascii_lower(lang_code(x)) =~= lang_code(x));
        },
        Lang::Ny => {
            reveal_strlit("ny");
            assert(ascii_lower(lang_code(x)) =~= lang_code(x));
        },
        Lang::Oc => {
            reveal_strlit("oc");
            assert(ascii_lower(lang_code(x)) =~= lang_code(x));
        },
        Lang::Oj => {
            reveal_strlit("oj");
            assert(ascii_lower(lang_code(x)) =~= lang_code(x));
        },
        Lang::Om => {
            reveal_strlit("om");
            assert(ascii_lower(lang_code(x)) =~= lang_code(x));
        },
        Lang::Or => {
            reveal_strlit("or");
            assert(ascii_lower(lang_code(x)) =~= lang_code(x));
        },
        Lang::Os => {
            reveal_strlit("os");
            assert(ascii_lower(lang_code(x)) =~= lang_code(x));
        },
        Lang::Pa => {
            reveal_strlit("pa");
            assert(ascii_lower(lang_code(x)) =~= lang_code(x));
        },
        Lang::Pi => {
            reveal_strlit("pi");
            assert(ascii_lower(lang_code(x)) =~= lang_code(x));
        },
        Lang::Pl => {
            reveal_strlit("pl");
            assert(ascii_lower(lang_code(x)) =~= lang_code(x));
        },
        Lang::Ps => {
            reveal_strlit("ps");
            assert(ascii_lower(lang_code(x)) =~= lang_code(x));
        },
        Lang::Pt => {
            reveal_strlit("pt");
            assert(ascii_lower(lang_code(x)) =~= lang_code(x));
        },
        Lang::Qu => {
            reveal_strlit("qu");
            assert(ascii_lower(lang_code(x)) =~= lang_code(x));
        },
        Lang::Rm => {
            reveal_strlit("rm");
            assert(ascii_lower(lang_code(x)) =~= lang_code(x));
        },
        Lang::Rn => {
            reveal_strlit("rn");
            assert(ascii_lower(lang_code(x)) =~= lang_code(x));
        },
        Lang::Ro => {
            reveal_strlit("ro");
            assert(ascii_lower(lang_code(x)) =~= lang_code(x));
        },
        Lang::Ru => {
            reveal_strlit("ru");
            assert(ascii_lower(lang_code(x)) =~= lang_code(x));
        },
        Lang::Rw => {
            reveal_strlit("rw");
            assert(ascii_lower(lang_code(x)) =~= lang_code(x));
        },
        Lang::Sa => {
            reveal_strlit("sa");
            assert(ascii_lower(lang_code(x)) =~= lang_code(x));
        },
        Lang::Sc => {
            reveal_strlit("sc");
            assert(ascii_lower(lang_code(x)) =~= lang_code(x));
        },
        Lang::Sd => {
            reveal_strlit("sd");
            assert(ascii_lower(lang_code(x)) =~= lang_code(x));
        },
        Lang::Se => {
            reveal_strlit("se");
            assert(ascii_lower(lang_code(x)) =~= lang_code(x));
        },
        Lang::Sg => {
            reveal_strlit("sg");
            assert(ascii_lower(lang_code(x)) =~= lang_code(x));
        },
        Lang::Si => {
            reveal_strlit("si");
            assert(ascii_lower(lang_code(x)) =~= lang_code(x));
        },
        Lang::Sk => {
            reveal_strlit("sk");
            assert(ascii_lower(lang_code(x)) =~= lang_code(x));
        },
        Lang::Sl => {
            reveal_strlit("sl");
            assert(ascii_lower(lang_code(x)) =~= lang_code(x));
        },
        Lang::Sm => {
            reveal_strlit("sm");
            assert(ascii_lower(lang_code(x)) =~= lang_code(x));
        },
        Lang::Sn => {
            reveal_strlit("sn");
            assert(ascii_lower(lang_code(x)) =~= lang_code(x));
        },
        Lang::So => {
            reveal_strlit("so");
            assert(ascii_lower(lang_code(x)) =~= lang_code(x));
        },
        Lang::Sq => {
            reveal_strlit("sq");
            assert(ascii_lower(lang_code(x)) =~= lang_code(x));
        },
        Lang::Sr => {
            reveal_strlit("sr");
            assert(ascii_lower(lang_code(x)) =~= lang_code(x));
        },
        Lang::Ss => {
            reveal_strlit("ss");
            assert(ascii_lower(lang_code(x)) =~= lang_code(x));
        },
        Lang::St => {
            reveal_strlit("st");
            assert(ascii_lower(lang_code(x)) =~= lang_code(x));
        },
        Lang::Su => {
            reveal_strlit("su");
            assert(ascii_lower(lang_code(x)) =~= lang_code(x));
        },
        Lang::Sv => {
            reveal_strlit("sv");
            assert(ascii_lower(lang_code(x)) =~= lang_code(x));
        },
        Lang::Sw => {
            reveal_strlit("sw");
            assert(ascii_lower(lang_code(x)) =~= lang_code(x));
        },
        Lang::Ta => {
            reveal_strlit("ta");
            assert(ascii_lower(lang_code(x)) =~= lang_code(x));
        },
        Lang::Te => {
            reveal_strlit("te");
            assert(ascii_lower(lang_code(x)) =~= lang_code(x));
        },
        Lang::Tg => {
            reveal_strlit("tg");
            assert(ascii_lower(lang_code(x)) =~= lang_code(x));
        },
        Lang::Th => {
            reveal_strlit("th");
            assert(ascii_lower(lang_code(x)) =~= lang_code(x));
        },
        Lang::Ti => {
            reveal_strlit("ti");
            assert(ascii_lower(lang_code(x)) =~= lang_code(x));
        },
        Lang::Tk => {
            reveal_strlit("tk");
            assert(ascii_lower(lang_code(x)) =~= lang_code(x));
        },
        Lang::Tl => {
            reveal_strlit("tl");
            assert(ascii_lower(lang_code(x)) =~= lang_code(x));
        },
        Lang::Tn => {
            reveal_strlit("tn");
            assert(ascii_lower(lang_code(x)) =~= lang_code(x));
        },
        Lang::To => {
            reveal_strlit("to");
            assert(ascii_lower(lang_code(x)) =~= lang_code(x));
        },
        Lang::Tr => {
            reveal_strlit("tr");
            assert(ascii_lower(lang_code(x)) =~= lang_code(x));
        },
        Lang::Ts => {
            reveal_strlit("ts");
            assert(ascii_lower(lang_code(x)) =~= lang_code(x));
        },
        Lang::Tt => {
            reveal_strlit("tt");
            assert(ascii_lower(lang_code(x)) =~= lang_code(x));
        },
        Lang::Tw => {
            reveal_strlit("tw");
            assert(ascii_lower(lang_code(x)) =~= lang_code(x));
        },
        Lang::Ty => {
            reveal_strlit("ty");
            assert(ascii_lower(lang_code(x)) =~= lang_code(x));
        },
        Lang::Ug => {
            reveal_strlit("ug");
            assert(ascii_lower(lang_code(x)) =~= lang_code(x));
        },
        Lang::Uk => {
            reveal_strlit("uk");
            assert(ascii_lower(lang_code(x)) =~= lang_code(x));
        },
        Lang::Ur => {
            reveal_strlit("ur");
            assert(ascii_lower(lang_code(x)) =~= lang_code(x));
        },
        Lang::Uz => {
            reveal_strlit("uz");
            assert(ascii_lower(lang_code(x)) =~= lang_code(x));
        },
        Lang::Ve => {
            reveal_strlit("ve");
            assert(ascii_lower(lang_code(x)) =~= lang_code(x));
        },
        Lang::Vi => {
            reveal_strlit("vi");
            assert(ascii_lower(lang_code(x)) =~= lang_code(x));
        },
        Lang::Vo => {
            reveal_strlit("vo");
            assert(ascii_lower(lang_code(x)) =~= lang_code(x));
        },
        Lang::Wa => {
            reveal_strlit("wa");
            assert(ascii_lower(lang_code(x)) =~= lang_code(x));
        },
        Lang::Wo => {
            reveal_strlit("wo");
            assert(ascii_lower(lang_code(x)) =~= lang_code(x));
        },
        Lang::Xh => {
            reveal_strlit("xh");
            assert(ascii_lower(lang_code(x)) =~= lang_code(x));
        },
        Lang::Yi => {
            reveal_strlit("yi");
            assert(ascii_lower(lang_code(x)) =~= lang_code(x));
        },
        Lang::Yo => {
            reveal_strlit("yo");
            assert(ascii_lower(lang_code(x)) =~= lang_code(x));
        },
        Lang::Za => {
            reveal_strlit("za");
            assert(ascii_lower(lang_code(x)) =~= lang_code(x));
        },
        Lang::Zh => {
            reveal_strlit("zh");
            assert(ascii_lower(lang_code(x)) =~= lang_code(x));
        },
        Lang::Zu => {
            reveal_strlit("zu");
            assert(ascii_lower(lang_code(x)) =~= lang_code(x));
        },
    }
}

/// Every Lang code is in canonical case and names that value alone, so
/// reading a value's code back gives the value.
pub proof fn lemma_lang_code_reads_back(x: Lang, y: Lang)
    ensures
        ascii_lower(lang_code(x)) == lang_code(x),
        lang_code(y) == ascii_lower(lang_code(x)) ==> y == x,
{
    lemma_lang_rank(x);
    lemma_lang_rank(y);
}


/// The code of `s` at position `i`, `0` past its end.
pub open spec fn char_or_zero(s: Seq<char>, i: int) -> int {
    if 0 <= i < s.len() {
        s[i] as int
    } else {
        0
    }
}

/// A number that tells ASCII strings of up to 16 characters apart.
pub open spec fn text_rank(s: Seq<char>) -> int {
    if s.len() <= 16 {
        char_or_zero(s, 0) * 40564819207303340847894502572032 + char_or_zero(s, 1) * 316912650057057350374175801344 + char_or_zero(s, 2) * 2475880078570760549798248448 + char_or_zero(s, 3) * 19342813113834066795298816 + char_or_zero(s, 4) * 151115727451828646838272 + char_or_zero(s, 5) * 1180591620717411303424 + char_or_zero(s, 6) * 9223372036854775808 + char_or_zero(s, 7) * 72057594037927936 + char_or_zero(s, 8) * 562949953421312 + char_or_zero(s, 9) * 4398046511104 + char_or_zero(s, 10) * 34359738368 + char_or_zero(s, 11) * 268435456 + char_or_zero(s, 12) * 2097152 + char_or_zero(s, 13) * 16384 + char_or_zero(s, 14) * 128 + char_or_zero(s, 15) * 1
    } else {
        -1
    }
}

/// The LanguageTag value whose lower-cased code has rank `r`.
pub open spec fn tag_by_rank(r: int) -> Option<LanguageTag> {
    if r < 4292061577600625829627901905993728 {
        if r < 4132020807343195007567116307005440 {
            if r < 4046771014184534145353632440123392 {
                if r < 3971232417864985657538796966641664 {
                    if r < 3971028986930500097977223812743168 {
                        if r < 3971028811334024798952336186671104 {
                            if r < 3969330941964643313436551911833600 {
                                if r < 3967226342499205046792201372172288 {
                                    if r == 3967112553414243911983932681224192 {
                                        Some(LanguageTag::Af)
                                    } else {
                                        None
                                    }
                                } else {
                                    if r == 3967226342499205046792201372172288 {
                                        Some(LanguageTag::AfZa)
                                    } else {
                                        None
                                    }
                                }
                            } else {
                                if r < 3969444327721727879314162191433728 {
                                    if r == 3969330941964643313436551911833600 {
                                        Some(LanguageTag::Am)
                                    } else {
                                        None
                                    }
                                } else {
                                    if r < 3970915505214928600188422790840320 {
                                        if r == 3969444327721727879314162191433728 {
                                            Some(LanguageTag::AmEt)
                                        } else {
                                            None
                                        }
                                    } else {
                                        if r == 3970915505214928600188422790840320 {
                                            Some(LanguageTag::Ar)
                                        } else {
                                            None
                                        }
                                    }
                                }
                            }
                        } else {
                            if r < 3971028872535894416942938156171264 {
                                if r < 3971028831130185095141888922484736 {
                                    if r == 3971028811334024798952336186671104 {
                                        Some(LanguageTag::ArAe)
                                    } else {
                                        None
                                    }
                                } else {
                                    if r == 3971028831130185095141888922484736 {
                                        Some(LanguageTag::ArBh)
                                    } else {
                                        None
                                    }
                                }
                            } else {
                                if r < 3971028889007508709192260661542912 {
                                    if r == 3971028872535894416942938156171264 {
                                        Some(LanguageTag::ArDz)
                                    } else {
                                        None
                                    }
                                } else {
                                    if r < 3971028967889918439046814311120896 {
                                        if r == 3971028889007508709192260661542912 {
                                            Some(LanguageTag::ArEg)
                                        } else {
                                            None
                                        }
                                    } else {
                                        if r == 3971028967889918439046814311120896 {
                                            Some(LanguageTag::ArIq)
                                        } else {
                                            None
                                        }
                                    }
                                }
                            }
                        }
                    } else {
                        if r < 3971029083342334212243900495560704 {
                            if r < 3971029023651621868771584994443264 {
                                if r < 3971029007482239031425919782748160 {
                                    if r == 3971028986930500097977223812743168 {
                                        Some(LanguageTag::ArJo)
                                    } else {
                                        None
                                    }
                                } else {
                                    if r == 3971029007482239031425919782748160 {
                                        Some(LanguageTag::ArKw)
                                    } else {
                                        None
                                    }
                                }
                            } else {
                                if r < 3971029027127283600163643871723520 {
                                    if r == 3971029023651621868771584994443264 {
                                        Some(LanguageTag::ArLb)
                                    } else {
                                        None
                                    }
                                } else {
                                    if r < 3971029042843319255153823142903808 {
                                        if r == 3971029027127283600163643871723520 {
                                            Some(LanguageTag::ArLy)
                                        } else {
                                            None
                                        }
                                    } else {
                                        if r == 3971029042843319255153823142903808 {
                                            Some(LanguageTag::ArMa)
                                        } else {
                                            None
                                        }
                                    }
                                }
                            }
                        } else {
                            if r < 3971029162526975397002111438815232 {
                                if r < 3971029120214571710490090324099072 {
                                    if r == 3971029083342334212243900495560704 {
                                        Some(LanguageTag::ArOm)
                                    } else {
                                        None
                                    }
                                } else {
                                    if r < 3971029158900197938158223914696704 {
                                        if r == 3971029120214571710490090324099072 {
                                            Some(LanguageTag::ArQa)
                                        } else {
                                            None
                                        }
                                    } else {
                                        if r == 3971029158900197938158223914696704 {
                                            Some(LanguageTag::ArSa)
                                        } else {
                                            None
                                        }
                                    }
                                }
                            } else {
                                if r < 3971029180207515508866063118893056 {
                                    if r == 3971029162526975397002111438815232 {
                                        Some(LanguageTag::ArSy)
                                    } else {
                                        None
                                    }
                                } else {
                                    if r < 3971029275561539530969939273842688 {
                                        if r == 3971029180207515508866063118893056 {
                                            Some(LanguageTag::ArTn)
                                        } else {
                                            None
                                        }
                                    } else {
                                        if r == 3971029275561539530969939273842688 {
                                            Some(LanguageTag::ArYe)
                                        } else {
                                            None
                                        }
                                    }
                                }
                            }
                        }
                    }
                } else {
                    if r < 4007994285271604310182201359597568 {
                        if r < 3973564154378005603401801324822528 {
                            if r < 3973450806415385058991416197251072 {
                                if r < 3971345880086628314041702546407424 {
                                    if r == 3971232417864985657538796966641664 {
                                        Some(LanguageTag::As)
                                    } else {
                                        None
                                    }
                                } else {
                                    if r == 3971345880086628314041702546407424 {
                                        Some(LanguageTag::AsIn)
                                    } else {
                                        None
                                    }
                                }
                            } else {
                                if r < 3973564114614406992298302666440704 {
                                    if r == 3973450806415385058991416197251072 {
                                        Some(LanguageTag::Az)
                                    } else {
                                        None
                                    }
                                } else {
                                    if r < 3973564114614410290032741529419776 {
                                        if r == 3973564114614406992298302666440704 {
                                            Some(LanguageTag::AzArab)
                                        } else {
                                            None
                                        }
                                    } else {
                                        if r == 3973564114614410290032741529419776 {
                                            Some(LanguageTag::AzArabAz)
                                        } else {
                                            None
                                        }
                                    }
                                }
                            }
                        } else {
                            if r < 3973564324838929096784462353530880 {
                                if r < 3973564154378008901136240187801600 {
                                    if r == 3973564154378005603401801324822528 {
                                        Some(LanguageTag::AzCyrl)
                                    } else {
                                        None
                                    }
                                } else {
                                    if r < 3973564324838925799050023490551808 {
                                        if r == 3973564154378008901136240187801600 {
                                            Some(LanguageTag::AzCyrlAz)
                                        } else {
                                            None
                                        }
                                    } else {
                                        if r == 3973564324838925799050023490551808 {
                                            Some(LanguageTag::AzLatn)
                                        } else {
                                            None
                                        }
                                    }
                                }
                            } else {
                                if r < 4007360459971490195481453007994880 {
                                    if r == 3973564324838929096784462353530880 {
                                        Some(LanguageTag::AzLatnAz)
                                    } else {
                                        None
                                    }
                                } else {
                                    if r < 4007473788455714057116006135889920 {
                                        if r == 4007360459971490195481453007994880 {
                                            Some(LanguageTag::Be)
                                        } else {
                                            None
                                        }
                                    } else {
                                        if r == 4007473788455714057116006135889920 {
                                            Some(LanguageTag::BeBy)
                                        } else {
                                            None
                                        }
                                    }
                                }
                            }
                        }
                    } else {
                        if r < 4011797237072288998386691469213696 {
                            if r < 4010212673822003711634820590206976 {
                                if r < 4008107611035745077683838844403712 {
                                    if r == 4007994285271604310182201359597568 {
                                        Some(LanguageTag::Bg)
                                    } else {
                                        None
                                    }
                                } else {
                                    if r == 4008107611035745077683838844403712 {
                                        Some(LanguageTag::BgBg)
                                    } else {
                                        None
                                    }
                                }
                            } else {
                                if r < 4010325999132797296780972134498304 {
                                    if r == 4010212673822003711634820590206976 {
                                        Some(LanguageTag::Bn)
                                    } else {
                                        None
                                    }
                                } else {
                                    if r < 4010326136043646368137726169972736 {
                                        if r == 4010325999132797296780972134498304 {
                                            Some(LanguageTag::BnBd)
                                        } else {
                                            None
                                        }
                                    } else {
                                        if r == 4010326136043646368137726169972736 {
                                            Some(LanguageTag::BnIn)
                                        } else {
                                            None
                                        }
                                    }
                                }
                            }
                        } else {
                            if r < 4011910755495829738445298762514432 {
                                if r < 4011910585034909542797076596785152 {
                                    if r == 4011797237072288998386691469213696 {
                                        Some(LanguageTag::Bs)
                                    } else {
                                        None
                                    }
                                } else {
                                    if r < 4011910585034912840984514250407936 {
                                        if r == 4011910585034909542797076596785152 {
                                            Some(LanguageTag::BsCyrl)
                                        } else {
                                            None
                                        }
                                    } else {
                                        if r == 4011910585034912840984514250407936 {
                                            Some(LanguageTag::BsCyrlBa)
                                        } else {
                                            None
                                        }
                                    }
                                }
                            } else {
                                if r < 4011910755495833036632736416137216 {
                                    if r == 4011910755495829738445298762514432 {
                                        Some(LanguageTag::BsLatn)
                                    } else {
                                        None
                                    }
                                } else {
                                    if r < 4046657628578565306927850807361536 {
                                        if r == 4011910755495833036632736416137216 {
                                            Some(LanguageTag::BsLatnBa)
                                        } else {
                                            None
                                        }
                                    } else {
                                        if r == 4046657628578565306927850807361536 {
                                            Some(LanguageTag::Ca)
                                        } else {
                                            None
                                        }
                                    }
                                }
                            }
                        }
                    }
                }
            } else {
                if r < 4132019481964998516993208042389504 {
                    if r < 4087222447785868647775745309933568 {
                        if r < 4051094405679364109833089268580352 {
                            if r < 4049159152968690219043242295427072 {
                                if r < 4046771014238756177019490526576640 {
                                    if r == 4046771014184534145353632440123392 {
                                        Some(LanguageTag::CaEs)
                                    } else {
                                        None
                                    }
                                } else {
                                    if r == 4046771014238756177019490526576640 {
                                        Some(LanguageTag::CaEsValencia)
                                    } else {
                                        None
                                    }
                                }
                            } else {
                                if r < 4049159152968690244894513011097600 {
                                    if r == 4049159152968690219043242295427072 {
                                        Some(LanguageTag::ChrCher)
                                    } else {
                                        None
                                    }
                                } else {
                                    if r < 4049159154320605687114854907772928 {
                                        if r == 4049159152968690244894513011097600 {
                                            Some(LanguageTag::ChrCherUs)
                                        } else {
                                            None
                                        }
                                    } else {
                                        if r == 4049159154320605687114854907772928 {
                                            Some(LanguageTag::ChrLatn)
                                        } else {
                                            None
                                        }
                                    }
                                }
                            }
                        } else {
                            if r < 4052475404257745042155034541817856 {
                                if r < 4052362056279592339234585971785728 {
                                    if r == 4051094405679364109833089268580352 {
                                        Some(LanguageTag::Co)
                                    } else {
                                        None
                                    }
                                } else {
                                    if r == 4052362056279592339234585971785728 {
                                        Some(LanguageTag::Cs)
                                    } else {
                                        None
                                    }
                                }
                            } else {
                                if r < 4054263532179934683336831026593792 {
                                    if r == 4052475404257745042155034541817856 {
                                        Some(LanguageTag::CsCz)
                                    } else {
                                        None
                                    }
                                } else {
                                    if r < 4054376953902562382749659253702656 {
                                        if r == 4054263532179934683336831026593792 {
                                            Some(LanguageTag::Cy)
                                        } else {
                                            None
                                        }
                                    } else {
                                        if r == 4054376953902562382749659253702656 {
                                            Some(LanguageTag::CyGb)
                                        } else {
                                            None
                                        }
                                    }
                                }
                            }
                        }
                    } else {
                        if r < 4088603462533632417443355794866176 {
                            if r < 4088490098386096877177242013138944 {
                                if r < 4087335812840098552752830972690432 {
                                    if r == 4087222447785868647775745309933568 {
                                        Some(LanguageTag::Da)
                                    } else {
                                        None
                                    }
                                } else {
                                    if r == 4087335812840098552752830972690432 {
                                        Some(LanguageTag::DaDk)
                                    } else {
                                        None
                                    }
                                }
                            } else {
                                if r < 4088603406771928987718585111543808 {
                                    if r == 4088490098386096877177242013138944 {
                                        Some(LanguageTag::De)
                                    } else {
                                        None
                                    }
                                } else {
                                    if r < 4088603443644166485964774940082176 {
                                        if r == 4088603406771928987718585111543808 {
                                            Some(LanguageTag::DeAt)
                                        } else {
                                            None
                                        }
                                    } else {
                                        if r == 4088603443644166485964774940082176 {
                                            Some(LanguageTag::DeCh)
                                        } else {
                                            None
                                        }
                                    }
                                }
                            }
                        } else {
                            if r < 4131273306143799619477755746320384 {
                                if r < 4088603617880600237923204744609792 {
                                    if r == 4088603462533632417443355794866176 {
                                        Some(LanguageTag::DeDe)
                                    } else {
                                        None
                                    }
                                } else {
                                    if r < 4088603619693988967345148506669056 {
                                        if r == 4088603617880600237923204744609792 {
                                            Some(LanguageTag::DeLi)
                                        } else {
                                            None
                                        }
                                    } else {
                                        if r == 4088603619693988967345148506669056 {
                                            Some(LanguageTag::DeLu)
                                        } else {
                                            None
                                        }
                                    }
                                }
                            } else {
                                if r < 4131386730284278958119842322841600 {
                                    if r == 4131273306143799619477755746320384 {
                                        Some(LanguageTag::El)
                                    } else {
                                        None
                                    }
                                } else {
                                    if r < 4131907131443913734178504097923072 {
                                        if r == 4131386730284278958119842322841600 {
                                            Some(LanguageTag::ElGr)
                                        } else {
                                            None
                                        }
                                    } else {
                                        if r == 4131907131443913734178504097923072 {
                                            Some(LanguageTag::En)
                                        } else {
                                            None
                                        }
                                    }
                                }
                            }
                        }
                    }
                } else {
                    if r < 4132020592154399116163123209306112 {
                        if r < 4132019482571822610041957452349440 {
                            if r < 4132019481973262658338229921513472 {
                                if r < 4132019481968540291855360276299776 {
                                    if r == 4132019481964998516993208042389504 {
                                        Some(LanguageTag::En011)
                                    } else {
                                        None
                                    }
                                } else {
                                    if r == 4132019481968540291855360276299776 {
                                        Some(LanguageTag::En014)
                                    } else {
                                        None
                                    }
                                }
                            } else {
                                if r < 4132019482116114244445036689227776 {
                                    if r == 4132019481973262658338229921513472 {
                                        Some(LanguageTag::En018)
                                    } else {
                                        None
                                    }
                                } else {
                                    if r < 4132019482125558977410775979655168 {
                                        if r == 4132019482116114244445036689227776 {
                                            Some(LanguageTag::En021)
                                        } else {
                                            None
                                        }
                                    } else {
                                        if r == 4132019482125558977410775979655168 {
                                            Some(LanguageTag::En029)
                                        } else {
                                            None
                                        }
                                    }
                                }
                            }
                        } else {
                            if r < 4132020475644173250803236496998400 {
                                if r < 4132020439980861572171675843166208 {
                                    if r == 4132019482571822610041957452349440 {
                                        Some(LanguageTag::En053)
                                    } else {
                                        None
                                    }
                                } else {
                                    if r < 4132020460079253323264885872656384 {
                                        if r == 4132020439980861572171675843166208 {
                                            Some(LanguageTag::EnAu)
                                        } else {
                                            None
                                        }
                                    } else {
                                        if r == 4132020460079253323264885872656384 {
                                            Some(LanguageTag::EnBz)
                                        } else {
                                            None
                                        }
                                    }
                                }
                            } else {
                                if r < 4132020553166541433591332325031936 {
                                    if r == 4132020475644173250803236496998400 {
                                        Some(LanguageTag::EnCa)
                                    } else {
                                        None
                                    }
                                } else {
                                    if r < 4132020573869396094491856941875200 {
                                        if r == 4132020553166541433591332325031936 {
                                            Some(LanguageTag::EnGb)
                                        } else {
                                            None
                                        }
                                    } else {
                                        if r == 4132020573869396094491856941875200 {
                                            Some(LanguageTag::EnHk)
                                        } else {
                                            None
                                        }
                                    }
                                }
                            }
                        }
                    } else {
                        if r < 4132020671943503210728648739913728 {
                            if r < 4132020593665556390681409677688832 {
                                if r < 4132020592305514843614951856144384 {
                                    if r == 4132020592154399116163123209306112 {
                                        Some(LanguageTag::EnId)
                                    } else {
                                        None
                                    }
                                } else {
                                    if r == 4132020592305514843614951856144384 {
                                        Some(LanguageTag::EnIe)
                                    } else {
                                        None
                                    }
                                }
                            } else {
                                if r < 4132020612857253777063647826149376 {
                                    if r == 4132020593665556390681409677688832 {
                                        Some(LanguageTag::EnIn)
                                    } else {
                                        None
                                    }
                                } else {
                                    if r < 4132020634164571347771487030345728 {
                                        if r == 4132020612857253777063647826149376 {
                                            Some(LanguageTag::EnJm)
                                        } else {
                                            None
                                        }
                                    } else {
                                        if r == 4132020634164571347771487030345728 {
                                            Some(LanguageTag::EnKz)
                                        } else {
                                            None
                                        }
                                    }
                                }
                            }
                        } else {
                            if r < 4132020728158553822808905363750912 {
                                if r < 4132020672699081847987791974105088 {
                                    if r == 4132020671943503210728648739913728 {
                                        Some(LanguageTag::EnMt)
                                    } else {
                                        None
                                    }
                                } else {
                                    if r < 4132020692193010689273687416242176 {
                                        if r == 4132020672699081847987791974105088 {
                                            Some(LanguageTag::EnMy)
                                        } else {
                                            None
                                        }
                                    } else {
                                        if r == 4132020692193010689273687416242176 {
                                            Some(LanguageTag::EnNz)
                                        } else {
                                            None
                                        }
                                    }
                                }
                            } else {
                                if r < 4132020728611901005164391304265728 {
                                    if r == 4132020728158553822808905363750912 {
                                        Some(LanguageTag::EnPh)
                                    } else {
                                        None
                                    }
                                } else {
                                    if r < 4132020786035877436859277102809088 {
                                        if r == 4132020728611901005164391304265728 {
                                            Some(LanguageTag::EnPk)
                                        } else {
                                            None
                                        }
                                    } else {
                                        if r == 4132020786035877436859277102809088 {
                                            Some(LanguageTag::EnSg)
                                        } else {
                                            None
                                        }
                                    }
                                }
                            }
                        }
                    }
                }
            }
        } else {
            if r < 4173851951933090547660167185432576 {
                if r < 4133605290955491927205290302242816 {
                    if r < 4133605040556731539525222491226112 {
                        if r < 4133491694694199020930374976929792 {
                            if r < 4132020845122126870524278016573440 {
                                if r < 4132020826534892393949354455465984 {
                                    if r == 4132020807343195007567116307005440 {
                                        Some(LanguageTag::EnTt)
                                    } else {
                                        None
                                    }
                                } else {
                                    if r == 4132020826534892393949354455465984 {
                                        Some(LanguageTag::EnUs)
                                    } else {
                                        None
                                    }
                                }
                            } else {
                                if r < 4132020920528874868986772788871168 {
                                    if r == 4132020845122126870524278016573440 {
                                        Some(LanguageTag::EnVn)
                                    } else {
                                        None
                                    }
                                } else {
                                    if r < 4132020923853420872927003019313152 {
                                        if r == 4132020920528874868986772788871168 {
                                            Some(LanguageTag::EnZa)
                                        } else {
                                            None
                                        }
                                    } else {
                                        if r == 4132020923853420872927003019313152 {
                                            Some(LanguageTag::EnZw)
                                        } else {
                                            None
                                        }
                                    }
                                }
                            }
                        } else {
                            if r < 4133604122595980992047085393018880 {
                                if r < 4133604045224728536710818211823616 {
                                    if r == 4133491694694199020930374976929792 {
                                        Some(LanguageTag::Es)
                                    } else {
                                        None
                                    }
                                } else {
                                    if r == 4133604045224728536710818211823616 {
                                        Some(LanguageTag::Es019)
                                    } else {
                                        None
                                    }
                                }
                            } else {
                                if r < 4133605002777799676568060781658112 {
                                    if r == 4133604122595980992047085393018880 {
                                        Some(LanguageTag::Es419)
                                    } else {
                                        None
                                    }
                                } else {
                                    if r < 4133605021667265608046641636442112 {
                                        if r == 4133605002777799676568060781658112 {
                                            Some(LanguageTag::EsAr)
                                        } else {
                                            None
                                        }
                                    } else {
                                        if r == 4133605021667265608046641636442112 {
                                            Some(LanguageTag::EsBo)
                                        } else {
                                            None
                                        }
                                    }
                                }
                            }
                        }
                    } else {
                        if r < 4133605080300167859356156609691648 {
                            if r < 4133605041463425904236194372255744 {
                                if r < 4133605041010078721880708431740928 {
                                    if r == 4133605040556731539525222491226112 {
                                        Some(LanguageTag::EsCl)
                                    } else {
                                        None
                                    }
                                } else {
                                    if r == 4133605041010078721880708431740928 {
                                        Some(LanguageTag::EsCo)
                                    } else {
                                        None
                                    }
                                }
                            } else {
                                if r < 4133605060352891835714775227039744 {
                                    if r == 4133605041463425904236194372255744 {
                                        Some(LanguageTag::EsCr)
                                    } else {
                                        None
                                    }
                                } else {
                                    if r < 4133605077882316220126898260279296 {
                                        if r == 4133605060352891835714775227039744 {
                                            Some(LanguageTag::EsDo)
                                        } else {
                                            None
                                        }
                                    } else {
                                        if r == 4133605077882316220126898260279296 {
                                            Some(LanguageTag::EsEc)
                                        } else {
                                            None
                                        }
                                    }
                                }
                            }
                        } else {
                            if r < 4133605235798251407287834206273536 {
                                if r < 4133605119136909814476118847127552 {
                                    if r == 4133605080300167859356156609691648 {
                                        Some(LanguageTag::EsEs)
                                    } else {
                                        None
                                    }
                                } else {
                                    if r < 4133605137573028563599213761396736 {
                                        if r == 4133605119136909814476118847127552 {
                                            Some(LanguageTag::EsGt)
                                        } else {
                                            None
                                        }
                                    } else {
                                        if r == 4133605137573028563599213761396736 {
                                            Some(LanguageTag::EsHn)
                                        } else {
                                            None
                                        }
                                    }
                                }
                            } else {
                                if r < 4133605252874328609344471298998272 {
                                    if r == 4133605235798251407287834206273536 {
                                        Some(LanguageTag::EsMx)
                                    } else {
                                        None
                                    }
                                } else {
                                    if r < 4133605290351029017397975714889728 {
                                        if r == 4133605252874328609344471298998272 {
                                            Some(LanguageTag::EsNi)
                                        } else {
                                            None
                                        }
                                    } else {
                                        if r == 4133605290351029017397975714889728 {
                                            Some(LanguageTag::EsPa)
                                        } else {
                                            None
                                        }
                                    }
                                }
                            }
                        }
                    }
                } else {
                    if r < 4168352086200475329471534315077632 {
                        if r < 4133605390691872045412197215502336 {
                            if r < 4133605293977806476241863239008256 {
                                if r < 4133605292919996384079062711140352 {
                                    if r == 4133605290955491927205290302242816 {
                                        Some(LanguageTag::EsPe)
                                    } else {
                                        None
                                    }
                                } else {
                                    if r == 4133605292919996384079062711140352 {
                                        Some(LanguageTag::EsPr)
                                    } else {
                                        None
                                    }
                                }
                            } else {
                                if r < 4133605351552898635388577684389888 {
                                    if r == 4133605293977806476241863239008256 {
                                        Some(LanguageTag::EsPy)
                                    } else {
                                        None
                                    }
                                } else {
                                    if r < 4133605389785177680701225334472704 {
                                        if r == 4133605351552898635388577684389888 {
                                            Some(LanguageTag::EsSv)
                                        } else {
                                            None
                                        }
                                    } else {
                                        if r == 4133605389785177680701225334472704 {
                                            Some(LanguageTag::EsUs)
                                        } else {
                                            None
                                        }
                                    }
                                }
                            }
                        } else {
                            if r < 4133921990834604732380929729757184 {
                                if r < 4133605407012370610209691074035712 {
                                    if r == 4133605390691872045412197215502336 {
                                        Some(LanguageTag::EsUy)
                                    } else {
                                        None
                                    }
                                } else {
                                    if r < 4133808607344256078280749152731136 {
                                        if r == 4133605407012370610209691074035712 {
                                            Some(LanguageTag::EsVe)
                                        } else {
                                            None
                                        }
                                    } else {
                                        if r == 4133808607344256078280749152731136 {
                                            Some(LanguageTag::Et)
                                        } else {
                                            None
                                        }
                                    }
                                }
                            } else {
                                if r < 4134125519994313135631123328532480 {
                                    if r == 4133921990834604732380929729757184 {
                                        Some(LanguageTag::EtEe)
                                    } else {
                                        None
                                    }
                                } else {
                                    if r < 4134238905600281974056904961294336 {
                                        if r == 4134125519994313135631123328532480 {
                                            Some(LanguageTag::Eu)
                                        } else {
                                            None
                                        }
                                    } else {
                                        if r == 4134238905600281974056904961294336 {
                                            Some(LanguageTag::EuEs)
                                        } else {
                                            None
                                        }
                                    }
                                }
                            }
                        }
                    } else {
                        if r < 4171155669312101342445613801799680 {
                            if r < 4170887387400931788274527721488384 {
                                if r < 4168465549026580895781754482196480 {
                                    if r == 4168352086200475329471534315077632 {
                                        Some(LanguageTag::Fa)
                                    } else {
                                        None
                                    }
                                } else {
                                    if r == 4168465549026580895781754482196480 {
                                        Some(LanguageTag::FaIr)
                                    } else {
                                        None
                                    }
                                }
                            } else {
                                if r < 4171000790838556466016089681166336 {
                                    if r == 4170887387400931788274527721488384 {
                                        Some(LanguageTag::Fi)
                                    } else {
                                        None
                                    }
                                } else {
                                    if r < 4171154782449417430413905932320768 {
                                        if r == 4171000790838556466016089681166336 {
                                            Some(LanguageTag::FiFi)
                                        } else {
                                            None
                                        }
                                    } else {
                                        if r == 4171154782449417430413905932320768 {
                                            Some(LanguageTag::Fil)
                                        } else {
                                            None
                                        }
                                    }
                                }
                            }
                        } else {
                            if r < 4173851951772530087242599248166912 {
                                if r < 4171155669923750556106330942210048 {
                                    if r == 4171155669312101342445613801799680 {
                                        Some(LanguageTag::FilLatn)
                                    } else {
                                        None
                                    }
                                } else {
                                    if r < 4173739601251445304427895303700480 {
                                        if r == 4171155669923750556106330942210048 {
                                            Some(LanguageTag::FilPh)
                                        } else {
                                            None
                                        }
                                    } else {
                                        if r == 4173739601251445304427895303700480 {
                                            Some(LanguageTag::Fr)
                                        } else {
                                            None
                                        }
                                    }
                                }
                            } else {
                                if r < 4173851951777252453725468893380608 {
                                    if r == 4173851951772530087242599248166912 {
                                        Some(LanguageTag::Fr011)
                                    } else {
                                        None
                                    }
                                } else {
                                    if r < 4173851951923645814694427895005184 {
                                        if r == 4173851951777252453725468893380608 {
                                            Some(LanguageTag::Fr015)
                                        } else {
                                            None
                                        }
                                    } else {
                                        if r == 4173851951923645814694427895005184 {
                                            Some(LanguageTag::Fr021)
                                        } else {
                                            None
                                        }
                                    }
                                }
                            }
                        }
                    }
                }
            } else {
                if r < 4209981161781490582429158638354432 {
                    if r < 4173853122559337394595801797230592 {
                        if r < 4173852946509514913215428230643712 {
                            if r < 4173852926713354617025875494830080 {
                                if r < 4173851971724528477366850276032512 {
                                    if r == 4173851951933090547660167185432576 {
                                        Some(LanguageTag::Fr029)
                                    } else {
                                        None
                                    }
                                } else {
                                    if r == 4173851971724528477366850276032512 {
                                        Some(LanguageTag::Fr155)
                                    } else {
                                        None
                                    }
                                }
                            } else {
                                if r < 4173852945451704821052627702775808 {
                                    if r == 4173852926713354617025875494830080 {
                                        Some(LanguageTag::FrBe)
                                    } else {
                                        None
                                    }
                                } else {
                                    if r < 4173852945905052003408113643290624 {
                                        if r == 4173852945451704821052627702775808 {
                                            Some(LanguageTag::FrCa)
                                        } else {
                                            None
                                        }
                                    } else {
                                        if r == 4173852945905052003408113643290624 {
                                            Some(LanguageTag::FrCd)
                                        } else {
                                            None
                                        }
                                    }
                                }
                            }
                        } else {
                            if r < 4173852947265093550474571464835072 {
                                if r < 4173852946660630640667256877481984 {
                                    if r == 4173852946509514913215428230643712 {
                                        Some(LanguageTag::FrCh)
                                    } else {
                                        None
                                    }
                                } else {
                                    if r == 4173852946660630640667256877481984 {
                                        Some(LanguageTag::FrCi)
                                    } else {
                                        None
                                    }
                                }
                            } else {
                                if r < 4173853006049111529235915084922880 {
                                    if r == 4173852947265093550474571464835072 {
                                        Some(LanguageTag::FrCm)
                                    } else {
                                        None
                                    }
                                } else {
                                    if r < 4173853045036969211807705969197056 {
                                        if r == 4173853006049111529235915084922880 {
                                            Some(LanguageTag::FrFr)
                                        } else {
                                            None
                                        }
                                    } else {
                                        if r == 4173853045036969211807705969197056 {
                                            Some(LanguageTag::FrHt)
                                        } else {
                                            None
                                        }
                                    }
                                }
                            }
                        }
                    } else {
                        if r < 4173985600241907721754033199775744 {
                            if r < 4173853139182067414296952949440512 {
                                if r < 4173853138879835959393295655763968 {
                                    if r == 4173853122559337394595801797230592 {
                                        Some(LanguageTag::FrLu)
                                    } else {
                                        None
                                    }
                                } else {
                                    if r == 4173853138879835959393295655763968 {
                                        Some(LanguageTag::FrMa)
                                    } else {
                                        None
                                    }
                                }
                            } else {
                                if r < 4173853140542108961363410770984960 {
                                    if r == 4173853139182067414296952949440512 {
                                        Some(LanguageTag::FrMc)
                                    } else {
                                        None
                                    }
                                } else {
                                    if r < 4173853236198364438370944219611136 {
                                        if r == 4173853140542108961363410770984960 {
                                            Some(LanguageTag::FrMl)
                                        } else {
                                            None
                                        }
                                    } else {
                                        if r == 4173853236198364438370944219611136 {
                                            Some(LanguageTag::FrRe)
                                        } else {
                                            None
                                        }
                                    }
                                }
                            }
                        } else {
                            if r < 4209030366269379779755876575870976 {
                                if r < 4174017786682929141641180577005568 {
                                    if r == 4173985600241907721754033199775744 {
                                        Some(LanguageTag::FrcLatn)
                                    } else {
                                        None
                                    }
                                } else {
                                    if r < 4208916905407778670319428817649664 {
                                        if r == 4174017786682929141641180577005568 {
                                            Some(LanguageTag::FrpLatn)
                                        } else {
                                            None
                                        }
                                    } else {
                                        if r == 4208916905407778670319428817649664 {
                                            Some(LanguageTag::Ga)
                                        } else {
                                            None
                                        }
                                    }
                                }
                            } else {
                                if r < 4209867643357949842370551345053696 {
                                    if r == 4209030366269379779755876575870976 {
                                        Some(LanguageTag::GaIe)
                                    } else {
                                        None
                                    }
                                } else {
                                    if r < 4209981065080577541783379572162560 {
                                        if r == 4209867643357949842370551345053696 {
                                            Some(LanguageTag::Gd)
                                        } else {
                                            None
                                        }
                                    } else {
                                        if r == 4209981065080577541783379572162560 {
                                            Some(LanguageTag::GdGb)
                                        } else {
                                            None
                                        }
                                    }
                                }
                            }
                        }
                    }
                } else {
                    if r < 4252130488037181126473222306398208 {
                        if r < 4249481724615082011167323320221696 {
                            if r < 4212516330164375139599326384226304 {
                                if r < 4212402944558406301173544751464448 {
                                    if r == 4209981161781490582429158638354432 {
                                        Some(LanguageTag::GdLatn)
                                    } else {
                                        None
                                    }
                                } else {
                                    if r == 4212402944558406301173544751464448 {
                                        Some(LanguageTag::Gl)
                                    } else {
                                        None
                                    }
                                }
                            } else {
                                if r < 4215255158408919817326912333676544 {
                                    if r == 4212516330164375139599326384226304 {
                                        Some(LanguageTag::GlEs)
                                    } else {
                                        None
                                    }
                                } else {
                                    if r < 4215368620630562473829817913442304 {
                                        if r == 4215255158408919817326912333676544 {
                                            Some(LanguageTag::Gu)
                                        } else {
                                            None
                                        }
                                    } else {
                                        if r == 4215368620630562473829817913442304 {
                                            Some(LanguageTag::GuIn)
                                        } else {
                                            None
                                        }
                                    }
                                }
                            }
                        } else {
                            if r < 4250749375215310240568820023427072 {
                                if r < 4249595243038622751225930613522432 {
                                    if r == 4249481724615082011167323320221696 {
                                        Some(LanguageTag::Ha)
                                    } else {
                                        None
                                    }
                                } else {
                                    if r < 4249595243038626056195155987267584 {
                                        if r == 4249595243038622751225930613522432 {
                                            Some(LanguageTag::HaLatn)
                                        } else {
                                            None
                                        }
                                    } else {
                                        if r == 4249595243038626056195155987267584 {
                                            Some(LanguageTag::HaLatnNg)
                                        } else {
                                            None
                                        }
                                    }
                                }
                            } else {
                                if r < 4250862837134721442168068309516288 {
                                    if r == 4250749375215310240568820023427072 {
                                        Some(LanguageTag::He)
                                    } else {
                                        None
                                    }
                                } else {
                                    if r < 4252017025815538469970316726632448 {
                                        if r == 4250862837134721442168068309516288 {
                                            Some(LanguageTag::HeIl)
                                        } else {
                                            None
                                        }
                                    } else {
                                        if r == 4252017025815538469970316726632448 {
                                            Some(LanguageTag::Hi)
                                        } else {
                                            None
                                        }
                                    }
                                }
                            }
                        }
                    } else {
                        if r < 4255933421552862793006446148583424 {
                            if r < 4254982564523498388914349912621056 {
                                if r < 4254869239666051986123684308844544 {
                                    if r == 4252130488037181126473222306398208 {
                                        Some(LanguageTag::HiIn)
                                    } else {
                                        None
                                    }
                                } else {
                                    if r == 4254869239666051986123684308844544 {
                                        Some(LanguageTag::Hr)
                                    } else {
                                        None
                                    }
                                }
                            } else {
                                if r < 4254982683149344438599837680664576 {
                                    if r == 4254982564523498388914349912621056 {
                                        Some(LanguageTag::HrBa)
                                    } else {
                                        None
                                    }
                                } else {
                                    if r < 4255819977616223158174806836248576 {
                                        if r == 4254982683149344438599837680664576 {
                                            Some(LanguageTag::HrHr)
                                        } else {
                                            None
                                        }
                                    } else {
                                        if r == 4255819977616223158174806836248576 {
                                            Some(LanguageTag::Hu)
                                        } else {
                                            None
                                        }
                                    }
                                }
                            }
                        } else {
                            if r < 4290997281772556524066340350197760 {
                                if r < 4257087628216451387576303539453952 {
                                    if r == 4255933421552862793006446148583424 {
                                        Some(LanguageTag::HuHu)
                                    } else {
                                        None
                                    }
                                } else {
                                    if r < 4257200935544473405954846109990912 {
                                        if r == 4257087628216451387576303539453952 {
                                            Some(LanguageTag::Hy)
                                        } else {
                                            None
                                        }
                                    } else {
                                        if r == 4257200935544473405954846109990912 {
                                            Some(LanguageTag::HyAm)
                                        } else {
                                            None
                                        }
                                    }
                                }
                            } else {
                                if r < 4291110742483041906050959461580800 {
                                    if r == 4290997281772556524066340350197760 {
                                        Some(LanguageTag::Id)
                                    } else {
                                        None
                                    }
                                } else {
                                    if r < 4292061538146268436176070170902528 {
                                        if r == 4291110742483041906050959461580800 {
                                            Some(LanguageTag::IdId)
                                        } else {
                                            None
                                        }
                                    } else {
                                        if r == 4292061538146268436176070170902528 {
                                            Some(LanguageTag::IgLatn)
                                        } else {
                                            None
                                        }
                                    }
                                }
                            }
                        }
                    }
                }
            }
        }
    } else {
        if r < 4659680330246990631012842191454208 {
            if r < 4456539224695235572800832879460352 {
                if r < 4375877878506197907995073701740544 {
                    if r < 4330724844896375918103741994106880 {
                        if r < 4296181347301806462886204623814656 {
                            if r < 4295864434500633678084001801175040 {
                                if r < 4295750971523412384321952987217920 {
                                    if r == 4292061577600625829627901905993728 {
                                        Some(LanguageTag::IgNg)
                                    } else {
                                        None
                                    }
                                } else {
                                    if r == 4295750971523412384321952987217920 {
                                        Some(LanguageTag::Is)
                                    } else {
                                        None
                                    }
                                }
                            } else {
                                if r < 4296067884173469441672327163019264 {
                                    if r == 4295864434500633678084001801175040 {
                                        Some(LanguageTag::IsIs)
                                    } else {
                                        None
                                    }
                                } else {
                                    if r < 4296181229431539050459860089962496 {
                                        if r == 4296067884173469441672327163019264 {
                                            Some(LanguageTag::It)
                                        } else {
                                            None
                                        }
                                    } else {
                                        if r == 4296181229431539050459860089962496 {
                                            Some(LanguageTag::ItCh)
                                        } else {
                                            None
                                        }
                                    }
                                }
                            }
                        } else {
                            if r < 4296498315247067239081308632121344 {
                                if r < 4296498141154711781710587280490496 {
                                    if r == 4296181347301806462886204623814656 {
                                        Some(LanguageTag::ItIt)
                                    } else {
                                        None
                                    }
                                } else {
                                    if r == 4296498141154711781710587280490496 {
                                        Some(LanguageTag::IuCans)
                                    } else {
                                        None
                                    }
                                }
                            } else {
                                if r < 4296498315247070537831696239165440 {
                                    if r == 4296498315247067239081308632121344 {
                                        Some(LanguageTag::IuLatn)
                                    } else {
                                        None
                                    }
                                } else {
                                    if r < 4330611363029688692863112325365760 {
                                        if r == 4296498315247070537831696239165440 {
                                            Some(LanguageTag::IuLatnCa)
                                        } else {
                                            None
                                        }
                                    } else {
                                        if r == 4330611363029688692863112325365760 {
                                            Some(LanguageTag::Ja)
                                        } else {
                                            None
                                        }
                                    }
                                }
                            }
                        }
                    } else {
                        if r < 4374979134037676721915496937553920 {
                            if r < 4371289604412966915479320995561472 {
                                if r < 4371176182236992033711006827937792 {
                                    if r == 4330724844896375918103741994106880 {
                                        Some(LanguageTag::JaJp)
                                    } else {
                                        None
                                    }
                                } else {
                                    if r == 4371176182236992033711006827937792 {
                                        Some(LanguageTag::Ka)
                                    } else {
                                        None
                                    }
                                }
                            } else {
                                if r < 4374345308737562607214748585951232 {
                                    if r == 4371289604412966915479320995561472 {
                                        Some(LanguageTag::KaGe)
                                    } else {
                                        None
                                    }
                                } else {
                                    if r < 4374458811458220220807731518373888 {
                                        if r == 4374345308737562607214748585951232 {
                                            Some(LanguageTag::Kk)
                                        } else {
                                            None
                                        }
                                    } else {
                                        if r == 4374458811458220220807731518373888 {
                                            Some(LanguageTag::KkKz)
                                        } else {
                                            None
                                        }
                                    }
                                }
                            }
                        } else {
                            if r < 4375409508909376435768776693121024 {
                                if r < 4375092634038251241375564226887680 {
                                    if r == 4374979134037676721915496937553920 {
                                        Some(LanguageTag::Km)
                                    } else {
                                        None
                                    }
                                } else {
                                    if r < 4375296046687733779265871113355264 {
                                        if r == 4375092634038251241375564226887680 {
                                            Some(LanguageTag::KmKh)
                                        } else {
                                            None
                                        }
                                    } else {
                                        if r == 4375296046687733779265871113355264 {
                                            Some(LanguageTag::Kn)
                                        } else {
                                            None
                                        }
                                    }
                                }
                            } else {
                                if r < 4375612959337790836616245289156608 {
                                    if r == 4375409508909376435768776693121024 {
                                        Some(LanguageTag::KnIn)
                                    } else {
                                        None
                                    }
                                } else {
                                    if r < 4375726460849522630594599046873088 {
                                        if r == 4375612959337790836616245289156608 {
                                            Some(LanguageTag::Ko)
                                        } else {
                                            None
                                        }
                                    } else {
                                        if r == 4375726460849522630594599046873088 {
                                            Some(LanguageTag::KoKr)
                                        } else {
                                            None
                                        }
                                    }
                                }
                            }
                        }
                    }
                } else {
                    if r < 4417875862952155826932088517427200 {
                        if r < 4378895585687820202128225689665536 {
                            if r < 4377627743437155114025376813154304 {
                                if r < 4375878764929804491249002651582464 {
                                    if r == 4375877878506197907995073701740544 {
                                        Some(LanguageTag::Kok)
                                    } else {
                                        None
                                    }
                                } else {
                                    if r == 4375878764929804491249002651582464 {
                                        Some(LanguageTag::KokIn)
                                    } else {
                                        None
                                    }
                                }
                            } else {
                                if r < 4377627743437158416223832884903936 {
                                    if r == 4377627743437155114025376813154304 {
                                        Some(LanguageTag::KuArab)
                                    } else {
                                        None
                                    }
                                } else {
                                    if r < 4378895433800981954530372174741504 {
                                        if r == 4377627743437158416223832884903936 {
                                            Some(LanguageTag::KuArabIq)
                                        } else {
                                            None
                                        }
                                    } else {
                                        if r == 4378895433800981954530372174741504 {
                                            Some(LanguageTag::KyCyrl)
                                        } else {
                                            None
                                        }
                                    }
                                }
                            }
                        } else {
                            if r < 4416177778545094177464139791728640 {
                                if r < 4412057914094352431909275506311168 {
                                    if r == 4378895585687820202128225689665536 {
                                        Some(LanguageTag::KyKg)
                                    } else {
                                        None
                                    }
                                } else {
                                    if r < 4412171435402244522077181999841280 {
                                        if r == 4412057914094352431909275506311168 {
                                            Some(LanguageTag::Lb)
                                        } else {
                                            None
                                        }
                                    } else {
                                        if r == 4412171435402244522077181999841280 {
                                            Some(LanguageTag::LbLu)
                                        } else {
                                            None
                                        }
                                    }
                                }
                            } else {
                                if r < 4416291296830671718595473348493312 {
                                    if r == 4416177778545094177464139791728640 {
                                        Some(LanguageTag::Lo)
                                    } else {
                                        None
                                    }
                                } else {
                                    if r < 4417762341795379464216010670735360 {
                                        if r == 4416291296830671718595473348493312 {
                                            Some(LanguageTag::LoLa)
                                        } else {
                                            None
                                        }
                                    } else {
                                        if r == 4417762341795379464216010670735360 {
                                            Some(LanguageTag::Lt)
                                        } else {
                                            None
                                        }
                                    }
                                }
                            }
                        }
                    } else {
                        if r < 4454954682601152129304972557811712 {
                            if r < 4418509688554501396536494162706432 {
                                if r < 4418396167095493578916759022338048 {
                                    if r == 4417875862952155826932088517427200 {
                                        Some(LanguageTag::LtLt)
                                    } else {
                                        None
                                    }
                                } else {
                                    if r == 4418396167095493578916759022338048 {
                                        Some(LanguageTag::Lv)
                                    } else {
                                        None
                                    }
                                }
                            } else {
                                if r < 4454841121852055174209789239492608 {
                                    if r == 4418509688554501396536494162706432 {
                                        Some(LanguageTag::LvLv)
                                    } else {
                                        None
                                    }
                                } else {
                                    if r < 4454954640275595914268396532793344 {
                                        if r == 4454841121852055174209789239492608 {
                                            Some(LanguageTag::Mi)
                                        } else {
                                            None
                                        }
                                    } else {
                                        if r == 4454954640275595914268396532793344 {
                                            Some(LanguageTag::MiLatn)
                                        } else {
                                            None
                                        }
                                    }
                                }
                            }
                        } else {
                            if r < 4455791859802226346260911766896640 {
                                if r < 4455474947152169288910537591095296 {
                                    if r == 4454954682601152129304972557811712 {
                                        Some(LanguageTag::MiNz)
                                    } else {
                                        None
                                    }
                                } else {
                                    if r < 4455588486291717218394224411541504 {
                                        if r == 4455474947152169288910537591095296 {
                                            Some(LanguageTag::Mk)
                                        } else {
                                            None
                                        }
                                    } else {
                                        if r == 4455588486291717218394224411541504 {
                                            Some(LanguageTag::MkMk)
                                        } else {
                                            None
                                        }
                                    }
                                }
                            } else {
                                if r < 4455905322023869002763817346662400 {
                                    if r == 4455791859802226346260911766896640 {
                                        Some(LanguageTag::Ml)
                                    } else {
                                        None
                                    }
                                } else {
                                    if r < 4456539033064961005372045246070784 {
                                        if r == 4455905322023869002763817346662400 {
                                            Some(LanguageTag::MlIn)
                                        } else {
                                            None
                                        }
                                    } else {
                                        if r == 4456539033064961005372045246070784 {
                                            Some(LanguageTag::MnCyrl)
                                        } else {
                                            None
                                        }
                                    }
                                }
                            }
                        }
                    }
                }
            } else {
                if r < 4538936436338818028561851406614528 {
                    if r < 4493301111595783066730132714553344 {
                        if r < 4458123575174576607377969010180096 {
                            if r < 4457693335702568690363156821704704 {
                                if r < 4456539224977166385851372811583488 {
                                    if r == 4456539224695235572800832879460352 {
                                        Some(LanguageTag::MnMn)
                                    } else {
                                        None
                                    }
                                } else {
                                    if r == 4456539224977166385851372811583488 {
                                        Some(LanguageTag::MnMong)
                                    } else {
                                        None
                                    }
                                }
                            } else {
                                if r < 4457806797924211346866062401470464 {
                                    if r == 4457693335702568690363156821704704 {
                                        Some(LanguageTag::Mr)
                                    } else {
                                        None
                                    }
                                } else {
                                    if r < 4458010248352625747713530997506048 {
                                        if r == 4457806797924211346866062401470464 {
                                            Some(LanguageTag::MrIn)
                                        } else {
                                            None
                                        }
                                    } else {
                                        if r == 4458010248352625747713530997506048 {
                                            Some(LanguageTag::Ms)
                                        } else {
                                            None
                                        }
                                    }
                                }
                            }
                        } else {
                            if r < 4458327161002682805063905173307392 {
                                if r < 4458123789607793861522818873688064 {
                                    if r == 4458123575174576607377969010180096 {
                                        Some(LanguageTag::MsBn)
                                    } else {
                                        None
                                    }
                                } else {
                                    if r == 4458123789607793861522818873688064 {
                                        Some(LanguageTag::MsMy)
                                    } else {
                                        None
                                    }
                                }
                            } else {
                                if r < 4458440701502272281614049815298048 {
                                    if r == 4458327161002682805063905173307392 {
                                        Some(LanguageTag::Mt)
                                    } else {
                                        None
                                    }
                                } else {
                                    if r < 4493187552508959113605064511455232 {
                                        if r == 4458440701502272281614049815298048 {
                                            Some(LanguageTag::MtMt)
                                        } else {
                                            None
                                        }
                                    } else {
                                        if r == 4493187552508959113605064511455232 {
                                            Some(LanguageTag::Nb)
                                        } else {
                                            None
                                        }
                                    }
                                }
                            }
                        }
                    } else {
                        if r < 4496470237643006457878388532051968 {
                            if r < 4494251849697069966233083888795648 {
                                if r < 4494138290459130285656187038859264 {
                                    if r == 4493301111595783066730132714553344 {
                                        Some(LanguageTag::NbNo)
                                    } else {
                                        None
                                    }
                                } else {
                                    if r == 4494138290459130285656187038859264 {
                                        Some(LanguageTag::Ne)
                                    } else {
                                        None
                                    }
                                }
                            } else {
                                if r < 4496356679009529687108806269468672 {
                                    if r == 4494251849697069966233083888795648 {
                                        Some(LanguageTag::NeNp)
                                    } else {
                                        None
                                    }
                                } else {
                                    if r < 4496470004471438999706786460598272 {
                                        if r == 4496356679009529687108806269468672 {
                                            Some(LanguageTag::Nl)
                                        } else {
                                            None
                                        }
                                    } else {
                                        if r == 4496470004471438999706786460598272 {
                                            Some(LanguageTag::NlBe)
                                        } else {
                                            None
                                        }
                                    }
                                }
                            }
                        } else {
                            if r < 4498849890248650442982453105655808 {
                                if r < 4496990504309643801809554621071360 {
                                    if r == 4496470237643006457878388532051968 {
                                        Some(LanguageTag::NlNl)
                                    } else {
                                        None
                                    }
                                } else {
                                    if r < 4497104063396467754934622824169472 {
                                        if r == 4496990504309643801809554621071360 {
                                            Some(LanguageTag::Nn)
                                        } else {
                                            None
                                        }
                                    } else {
                                        if r == 4497104063396467754934622824169472 {
                                            Some(LanguageTag::NnNo)
                                        } else {
                                            None
                                        }
                                    }
                                }
                            } else {
                                if r < 4498850779225876701848142704803840 {
                                    if r == 4498849890248650442982453105655808 {
                                        Some(LanguageTag::Nso)
                                    } else {
                                        None
                                    }
                                } else {
                                    if r < 4538822974117175372058945826848768 {
                                        if r == 4498850779225876701848142704803840 {
                                            Some(LanguageTag::NsoZa)
                                        } else {
                                            None
                                        }
                                    } else {
                                        if r == 4538822974117175372058945826848768 {
                                            Some(LanguageTag::Or)
                                        } else {
                                            None
                                        }
                                    }
                                }
                            }
                        }
                    }
                } else {
                    if r < 4580021618624592827607588681023488 {
                        if r < 4574113740495151394453384920563712 {
                            if r < 4574113586472530671257365809987584 {
                                if r < 4574000278273508737950479340797952 {
                                    if r == 4538936436338818028561851406614528 {
                                        Some(LanguageTag::OrIn)
                                    } else {
                                        None
                                    }
                                } else {
                                    if r == 4574000278273508737950479340797952 {
                                        Some(LanguageTag::Pa)
                                    } else {
                                        None
                                    }
                                }
                            } else {
                                if r < 4574113586472533977370083276619776 {
                                    if r == 4574113586472530671257365809987584 {
                                        Some(LanguageTag::PaArab)
                                    } else {
                                        None
                                    }
                                } else {
                                    if r < 4574113642561248756548822569582592 {
                                        if r == 4574113586472533977370083276619776 {
                                            Some(LanguageTag::PaArabPk)
                                        } else {
                                            None
                                        }
                                    } else {
                                        if r == 4574113642561248756548822569582592 {
                                            Some(LanguageTag::PaDeva)
                                        } else {
                                            None
                                        }
                                    }
                                }
                            }
                        } else {
                            if r < 4579672519533514350370067127992320 {
                                if r < 4577486317424136368804595274612736 {
                                    if r == 4574113740495151394453384920563712 {
                                        Some(LanguageTag::PaIn)
                                    } else {
                                        None
                                    }
                                } else {
                                    if r < 4577599914743239367242311127793664 {
                                        if r == 4577486317424136368804595274612736 {
                                            Some(LanguageTag::Pl)
                                        } else {
                                            None
                                        }
                                    } else {
                                        if r == 4577599914743239367242311127793664 {
                                            Some(LanguageTag::PlPl)
                                        } else {
                                            None
                                        }
                                    }
                                }
                            } else {
                                if r < 4579673404738750381043627612700672 {
                                    if r == 4579672519533514350370067127992320 {
                                        Some(LanguageTag::Prs)
                                    } else {
                                        None
                                    }
                                } else {
                                    if r < 4579673404753819209224027178532864 {
                                        if r == 4579673404738750381043627612700672 {
                                            Some(LanguageTag::PrsAf)
                                        } else {
                                            None
                                        }
                                    } else {
                                        if r == 4579673404753819209224027178532864 {
                                            Some(LanguageTag::PrsArab)
                                        } else {
                                            None
                                        }
                                    }
                                }
                            }
                        }
                    } else {
                        if r < 4621191439433751346061341825695744 {
                            if r < 4580135217152621645659933708910592 {
                                if r < 4580134946051006597079341281050624 {
                                    if r == 4580021618624592827607588681023488 {
                                        Some(LanguageTag::Pt)
                                    } else {
                                        None
                                    }
                                } else {
                                    if r == 4580134946051006597079341281050624 {
                                        Some(LanguageTag::PtBr)
                                    } else {
                                        None
                                    }
                                }
                            } else {
                                if r < 4621149349472415643131995255472128 {
                                    if r == 4580135217152621645659933708910592 {
                                        Some(LanguageTag::PtPt)
                                    } else {
                                        None
                                    }
                                } else {
                                    if r < 4621191438699526112104210080202752 {
                                        if r == 4621149349472415643131995255472128 {
                                            Some(LanguageTag::QucLatn)
                                        } else {
                                            None
                                        }
                                    } else {
                                        if r == 4621191438699526112104210080202752 {
                                            Some(LanguageTag::QutGt)
                                        } else {
                                            None
                                        }
                                    }
                                }
                            }
                        } else {
                            if r < 4621206293657696024211655583858688 {
                                if r < 4621205407851538858592932745707520 {
                                    if r == 4621191439433751346061341825695744 {
                                        Some(LanguageTag::QutLatn)
                                    } else {
                                        None
                                    }
                                } else {
                                    if r < 4621206293218515941304778578984960 {
                                        if r == 4621205407851538858592932745707520 {
                                            Some(LanguageTag::Quz)
                                        } else {
                                            None
                                        }
                                    } else {
                                        if r == 4621206293218515941304778578984960 {
                                            Some(LanguageTag::QuzBo)
                                        } else {
                                            None
                                        }
                                    }
                                }
                            } else {
                                if r < 4621206295322330209423205521686528 {
                                    if r == 4621206293657696024211655583858688 {
                                        Some(LanguageTag::QuzEc)
                                    } else {
                                        None
                                    }
                                } else {
                                    if r < 4659566693788914222551506807160832 {
                                        if r == 4621206295322330209423205521686528 {
                                            Some(LanguageTag::QuzPe)
                                        } else {
                                            None
                                        }
                                    } else {
                                        if r == 4659566693788914222551506807160832 {
                                            Some(LanguageTag::Ro)
                                        } else {
                                            None
                                        }
                                    }
                                }
                            }
                        }
                    }
                }
            }
        } else {
            if r < 4739542029565913219256184236670976 {
                if r < 4701195769369929475509131130437632 {
                    if r < 4698863862395989333997904606527488 {
                        if r < 4696758782044611865852171845107712 {
                            if r < 4661581807054027339826059127291904 {
                                if r < 4661468169689256566653751861968896 {
                                    if r == 4659680330246990631012842191454208 {
                                        Some(LanguageTag::RoRo)
                                    } else {
                                        None
                                    }
                                } else {
                                    if r == 4661468169689256566653751861968896 {
                                        Some(LanguageTag::Ru)
                                    } else {
                                        None
                                    }
                                }
                            } else {
                                if r < 4662101994989370681354500213571584 {
                                    if r == 4661581807054027339826059127291904 {
                                        Some(LanguageTag::RuRu)
                                    } else {
                                        None
                                    }
                                } else {
                                    if r < 4662215632656372909430464772571136 {
                                        if r == 4662101994989370681354500213571584 {
                                            Some(LanguageTag::Rw)
                                        } else {
                                            None
                                        }
                                    } else {
                                        if r == 4662215632656372909430464772571136 {
                                            Some(LanguageTag::RwRw)
                                        } else {
                                            None
                                        }
                                    }
                                }
                            }
                        } else {
                            if r < 4696758838133329951143628604702720 {
                                if r < 4696758782044615171964889311739904 {
                                    if r == 4696758782044611865852171845107712 {
                                        Some(LanguageTag::SdArab)
                                    } else {
                                        None
                                    }
                                } else {
                                    if r == 4696758782044615171964889311739904 {
                                        Some(LanguageTag::SdArabPk)
                                    } else {
                                        None
                                    }
                                }
                            } else {
                                if r < 4698230037095875219297156254924800 {
                                    if r == 4696758838133329951143628604702720 {
                                        Some(LanguageTag::SdDeva)
                                    } else {
                                        None
                                    }
                                } else {
                                    if r < 4698343556892610034946776280072192 {
                                        if r == 4698230037095875219297156254924800 {
                                            Some(LanguageTag::Si)
                                        } else {
                                            None
                                        }
                                    } else {
                                        if r == 4698343556892610034946776280072192 {
                                            Some(LanguageTag::SiLk)
                                        } else {
                                            None
                                        }
                                    }
                                }
                            }
                        }
                    } else {
                        if r < 4700878645473237969026863585034240 {
                            if r < 4699180775046046391348278782328832 {
                                if r < 4698977517592415946485992198766592 {
                                    if r == 4698863862395989333997904606527488 {
                                        Some(LanguageTag::Sk)
                                    } else {
                                        None
                                    }
                                } else {
                                    if r == 4698977517592415946485992198766592 {
                                        Some(LanguageTag::SkSk)
                                    } else {
                                        None
                                    }
                                }
                            } else {
                                if r < 4699294429940241548932709080891392 {
                                    if r == 4699180775046046391348278782328832 {
                                        Some(LanguageTag::Sl)
                                    } else {
                                        None
                                    }
                                } else {
                                    if r < 4700765338296331678100149661335552 {
                                        if r == 4699294429940241548932709080891392 {
                                            Some(LanguageTag::SlSi)
                                        } else {
                                            None
                                        }
                                    } else {
                                        if r == 4700765338296331678100149661335552 {
                                            Some(LanguageTag::Sq)
                                        } else {
                                            None
                                        }
                                    }
                                }
                            }
                        } else {
                            if r < 4701195598909012578690461408952320 {
                                if r < 4701195598909009279860908964708352 {
                                    if r == 4700878645473237969026863585034240 {
                                        Some(LanguageTag::SqAl)
                                    } else {
                                        None
                                    }
                                } else {
                                    if r < 4701195598909012578048346618331136 {
                                        if r == 4701195598909009279860908964708352 {
                                            Some(LanguageTag::SrCyrl)
                                        } else {
                                            None
                                        }
                                    } else {
                                        if r == 4701195598909012578048346618331136 {
                                            Some(LanguageTag::SrCyrlBa)
                                        } else {
                                            None
                                        }
                                    }
                                }
                            } else {
                                if r < 4701195598909012584258388292009984 {
                                    if r == 4701195598909012578690461408952320 {
                                        Some(LanguageTag::SrCyrlCs)
                                    } else {
                                        None
                                    }
                                } else {
                                    if r < 4701195598909012587134710710272000 {
                                        if r == 4701195598909012584258388292009984 {
                                            Some(LanguageTag::SrCyrlMe)
                                        } else {
                                            None
                                        }
                                    } else {
                                        if r == 4701195598909012587134710710272000 {
                                            Some(LanguageTag::SrCyrlRs)
                                        } else {
                                            None
                                        }
                                    }
                                }
                            }
                        }
                    }
                } else {
                    if r < 4736373017324364757844962930851840 {
                        if r < 4702349901546616964852020540342272 {
                            if r < 4701195769369932774338683574681600 {
                                if r < 4701195769369932773696568784060416 {
                                    if r == 4701195769369929475509131130437632 {
                                        Some(LanguageTag::SrLatn)
                                    } else {
                                        None
                                    }
                                } else {
                                    if r == 4701195769369932773696568784060416 {
                                        Some(LanguageTag::SrLatnBa)
                                    } else {
                                        None
                                    }
                                }
                            } else {
                                if r < 4701195769369932779906610457739264 {
                                    if r == 4701195769369932774338683574681600 {
                                        Some(LanguageTag::SrLatnCs)
                                    } else {
                                        None
                                    }
                                } else {
                                    if r < 4701195769369932782782932876001280 {
                                        if r == 4701195769369932779906610457739264 {
                                            Some(LanguageTag::SrLatnMe)
                                        } else {
                                            None
                                        }
                                    } else {
                                        if r == 4701195769369932782782932876001280 {
                                            Some(LanguageTag::SrLatnRs)
                                        } else {
                                            None
                                        }
                                    }
                                }
                            }
                        } else {
                            if r < 4702666814196674022202394716143616 {
                                if r < 4702463304984241642593582500020224 {
                                    if r == 4702349901546616964852020540342272 {
                                        Some(LanguageTag::Sv)
                                    } else {
                                        None
                                    }
                                } else {
                                    if r < 4702463555836349212629136251551744 {
                                        if r == 4702463304984241642593582500020224 {
                                            Some(LanguageTag::SvFi)
                                        } else {
                                            None
                                        }
                                    } else {
                                        if r == 4702463555836349212629136251551744 {
                                            Some(LanguageTag::SvSe)
                                        } else {
                                            None
                                        }
                                    }
                                }
                            } else {
                                if r < 4702780313743901359306976064962560 {
                                    if r == 4702666814196674022202394716143616 {
                                        Some(LanguageTag::Sw)
                                    } else {
                                        None
                                    }
                                } else {
                                    if r < 4736259555102722101342057351086080 {
                                        if r == 4702780313743901359306976064962560 {
                                            Some(LanguageTag::SwKe)
                                        } else {
                                            None
                                        }
                                    } else {
                                        if r == 4736259555102722101342057351086080 {
                                            Some(LanguageTag::Ta)
                                        } else {
                                            None
                                        }
                                    }
                                }
                            }
                        }
                    } else {
                        if r < 4738274378965688298214806767271936 {
                            if r < 4737640667924592987246459634057216 {
                                if r < 4737527205702950330743554054291456 {
                                    if r == 4736373017324364757844962930851840 {
                                        Some(LanguageTag::TaIn)
                                    } else {
                                        None
                                    }
                                } else {
                                    if r == 4737527205702950330743554054291456 {
                                        Some(LanguageTag::Te)
                                    } else {
                                        None
                                    }
                                }
                            } else {
                                if r < 4738274339202086378751188875083776 {
                                    if r == 4737640667924592987246459634057216 {
                                        Some(LanguageTag::TeIn)
                                    } else {
                                        None
                                    }
                                } else {
                                    if r < 4738274378965684989854687533465600 {
                                        if r == 4738274339202086378751188875083776 {
                                            Some(LanguageTag::TgArab)
                                        } else {
                                            None
                                        }
                                    } else {
                                        if r == 4738274378965684989854687533465600 {
                                            Some(LanguageTag::TgCyrl)
                                        } else {
                                            None
                                        }
                                    }
                                }
                            }
                        } else {
                            if r < 4738591617739014046761345028718592 {
                                if r < 4738274549426605185502909699194880 {
                                    if r == 4738274378965688298214806767271936 {
                                        Some(LanguageTag::TgCyrlTj)
                                    } else {
                                        None
                                    }
                                } else {
                                    if r < 4738477943653121502794676581695488 {
                                        if r == 4738274549426605185502909699194880 {
                                            Some(LanguageTag::TgLatn)
                                        } else {
                                            None
                                        }
                                    } else {
                                        if r == 4738477943653121502794676581695488 {
                                            Some(LanguageTag::Th)
                                        } else {
                                            None
                                        }
                                    }
                                }
                            } else {
                                if r < 4738794856303178560145050757496832 {
                                    if r == 4738591617739014046761345028718592 {
                                        Some(LanguageTag::ThTh)
                                    } else {
                                        None
                                    }
                                } else {
                                    if r < 4738908242060263126022661037096960 {
                                        if r == 4738794856303178560145050757496832 {
                                            Some(LanguageTag::Ti)
                                        } else {
                                            None
                                        }
                                    } else {
                                        if r == 4738908242060263126022661037096960 {
                                            Some(LanguageTag::TiEt)
                                        } else {
                                            None
                                        }
                                    }
                                }
                            }
                        }
                    }
                }
            } else {
                if r < 4782325486528982688132200048623616 {
                    if r < 4742394203652828124306053160501248 {
                        if r < 4740379419553463846896921636503552 {
                            if r < 4739542200026833414904406402400256 {
                                if r < 4739542029565916527651487842566144 {
                                    if r == 4739542029565913219256184236670976 {
                                        Some(LanguageTag::TkCyrl)
                                    } else {
                                        None
                                    }
                                } else {
                                    if r == 4739542029565916527651487842566144 {
                                        Some(LanguageTag::TkCyrlTr)
                                    } else {
                                        None
                                    }
                                }
                            } else {
                                if r < 4739542200026836723299710008295424 {
                                    if r == 4739542200026833414904406402400256 {
                                        Some(LanguageTag::TkLatn)
                                    } else {
                                        None
                                    }
                                } else {
                                    if r < 4739542356444763856071610790313984 {
                                        if r == 4739542200026836723299710008295424 {
                                            Some(LanguageTag::TkLatnTr)
                                        } else {
                                            None
                                        }
                                    } else {
                                        if r == 4739542356444763856071610790313984 {
                                            Some(LanguageTag::TkTm)
                                        } else {
                                            None
                                        }
                                    }
                                }
                            }
                        } else {
                            if r < 4740493208638424981705190327451648 {
                                if r < 4740492747735456253627817470722048 {
                                    if r == 4740379419553463846896921636503552 {
                                        Some(LanguageTag::Tn)
                                    } else {
                                        None
                                    }
                                } else {
                                    if r == 4740492747735456253627817470722048 {
                                        Some(LanguageTag::TnBw)
                                    } else {
                                        None
                                    }
                                }
                            } else {
                                if r < 4741647070153692076298418339708928 {
                                    if r == 4740493208638424981705190327451648 {
                                        Some(LanguageTag::TnZa)
                                    } else {
                                        None
                                    }
                                } else {
                                    if r < 4741760745750741894783373255114752 {
                                        if r == 4741647070153692076298418339708928 {
                                            Some(LanguageTag::Tr)
                                        } else {
                                            None
                                        }
                                    } else {
                                        if r == 4741760745750741894783373255114752 {
                                            Some(LanguageTag::TrTr)
                                        } else {
                                            None
                                        }
                                    }
                                }
                            }
                        }
                    } else {
                        if r < 4778839196375131759790701716439040 {
                            if r < 4742394413877346931057773984612352 {
                                if r < 4742394243416426735409551818883072 {
                                    if r == 4742394203652828124306053160501248 {
                                        Some(LanguageTag::TtArab)
                                    } else {
                                        None
                                    }
                                } else {
                                    if r == 4742394243416426735409551818883072 {
                                        Some(LanguageTag::TtCyrl)
                                    } else {
                                        None
                                    }
                                }
                            } else {
                                if r < 4742394532818576964171473956634624 {
                                    if r == 4742394413877346931057773984612352 {
                                        Some(LanguageTag::TtLatn)
                                    } else {
                                        None
                                    }
                                } else {
                                    if r < 4778839158409389719599083377655808 {
                                        if r == 4742394532818576964171473956634624 {
                                            Some(LanguageTag::TtRu)
                                        } else {
                                            None
                                        }
                                    } else {
                                        if r == 4778839158409389719599083377655808 {
                                            Some(LanguageTag::UgArab)
                                        } else {
                                            None
                                        }
                                    }
                                }
                            }
                        } else {
                            if r < 4779993500810596015693693611671552 {
                                if r < 4778839198172988330702582036037632 {
                                    if r == 4778839196375131759790701716439040 {
                                        Some(LanguageTag::UgCn)
                                    } else {
                                        None
                                    }
                                } else {
                                    if r < 4778839368633908526350804201766912 {
                                        if r == 4778839198172988330702582036037632 {
                                            Some(LanguageTag::UgCyrl)
                                        } else {
                                            None
                                        }
                                    } else {
                                        if r == 4778839368633908526350804201766912 {
                                            Some(LanguageTag::UgLatn)
                                        } else {
                                            None
                                        }
                                    }
                                }
                            } else {
                                if r < 4780107193181491581331628326125568 {
                                    if r == 4779993500810596015693693611671552 {
                                        Some(LanguageTag::Uk)
                                    } else {
                                        None
                                    }
                                } else {
                                    if r < 4782211889360995417146312842280960 {
                                        if r == 4780107193181491581331628326125568 {
                                            Some(LanguageTag::UkUa)
                                        } else {
                                            None
                                        }
                                    } else {
                                        if r == 4782211889360995417146312842280960 {
                                            Some(LanguageTag::Ur)
                                        } else {
                                            None
                                        }
                                    }
                                }
                            }
                        }
                    }
                } else {
                    if r < 4943633946663578348545375618465792 {
                        if r < 4819924494717785241840839762640896 {
                            if r < 4784860538524072420359691376263168 {
                                if r < 4784747190561451875949306248691712 {
                                    if r == 4782325486528982688132200048623616 {
                                        Some(LanguageTag::UrPk)
                                    } else {
                                        None
                                    }
                                } else {
                                    if r == 4784747190561451875949306248691712 {
                                        Some(LanguageTag::Uz)
                                    } else {
                                        None
                                    }
                                }
                            } else {
                                if r < 4784860708984992616007913541992448 {
                                    if r == 4784860538524072420359691376263168 {
                                        Some(LanguageTag::UzCyrl)
                                    } else {
                                        None
                                    }
                                } else {
                                    if r < 4784860708984995925001351473397760 {
                                        if r == 4784860708984992616007913541992448 {
                                            Some(LanguageTag::UzLatn)
                                        } else {
                                            None
                                        }
                                    } else {
                                        if r == 4784860708984995925001351473397760 {
                                            Some(LanguageTag::UzLatnUz)
                                        } else {
                                            None
                                        }
                                    }
                                }
                            }
                        } else {
                            if r < 4862504445475204721634552852774912 {
                                if r < 4820038208395998378186613681291264 {
                                    if r == 4819924494717785241840839762640896 {
                                        Some(LanguageTag::Vi)
                                    } else {
                                        None
                                    }
                                } else {
                                    if r < 4862390789825430926790979320020992 {
                                        if r == 4820038208395998378186613681291264 {
                                            Some(LanguageTag::ViVn)
                                        } else {
                                            None
                                        }
                                    } else {
                                        if r == 4862390789825430926790979320020992 {
                                            Some(LanguageTag::Wo)
                                        } else {
                                            None
                                        }
                                    }
                                }
                            } else {
                                if r < 4900737220482334866186254591983616 {
                                    if r == 4862504445475204721634552852774912 {
                                        Some(LanguageTag::WoSn)
                                    } else {
                                        None
                                    }
                                } else {
                                    if r < 4900851009567296000994523282931712 {
                                        if r == 4900737220482334866186254591983616 {
                                            Some(LanguageTag::Xh)
                                        } else {
                                            None
                                        }
                                    } else {
                                        if r == 4900851009567296000994523282931712 {
                                            Some(LanguageTag::XhZa)
                                        } else {
                                            None
                                        }
                                    }
                                }
                            }
                        }
                    } else {
                        if r < 4981980299942201623112300370067456 {
                            if r < 4981980299942192399740263515291648 {
                                if r < 4943633986117935741997207353556992 {
                                    if r == 4943633946663578348545375618465792 {
                                        Some(LanguageTag::YoLatn)
                                    } else {
                                        None
                                    }
                                } else {
                                    if r == 4943633986117935741997207353556992 {
                                        Some(LanguageTag::YoNg)
                                    } else {
                                        None
                                    }
                                }
                            } else {
                                if r < 4981980299942195698547825726980096 {
                                    if r == 4981980299942192399740263515291648 {
                                        Some(LanguageTag::ZhHans)
                                    } else {
                                        None
                                    }
                                } else {
                                    if r < 4981980299942195707524238656143360 {
                                        if r == 4981980299942195698547825726980096 {
                                            Some(LanguageTag::ZhHansCn)
                                        } else {
                                            None
                                        }
                                    } else {
                                        if r == 4981980299942195707524238656143360 {
                                            Some(LanguageTag::ZhHansSg)
                                        } else {
                                            None
                                        }
                                    }
                                }
                            }
                        } else {
                            if r < 4981980299942204931529594208518144 {
                                if r < 4981980299942204924721418209329152 {
                                    if r == 4981980299942201623112300370067456 {
                                        Some(LanguageTag::ZhHant)
                                    } else {
                                        None
                                    }
                                } else {
                                    if r < 4981980299942204927553760162480128 {
                                        if r == 4981980299942204924721418209329152 {
                                            Some(LanguageTag::ZhHantHk)
                                        } else {
                                            None
                                        }
                                    } else {
                                        if r == 4981980299942204927553760162480128 {
                                            Some(LanguageTag::ZhHantMo)
                                        } else {
                                            None
                                        }
                                    }
                                }
                            } else {
                                if r < 4985986723347683293436907882545152 {
                                    if r == 4981980299942204931529594208518144 {
                                        Some(LanguageTag::ZhHantTw)
                                    } else {
                                        None
                                    }
                                } else {
                                    if r < 4986100512432644428245176573493248 {
                                        if r == 4985986723347683293436907882545152 {
                                            Some(LanguageTag::Zu)
                                        } else {
                                            None
                                        }
                                    } else {
                                        if r == 4986100512432644428245176573493248 {
                                            Some(LanguageTag::ZuZa)
                                        } else {
                                            None
                                        }
                                    }
                                }
                            }
                        }
                    }
                }
            }
        }
    }
}

#[verifier::spinoff_prover]
#[verifier::rlimit(40)]
proof fn lemma_tag_rank_part0(x: LanguageTag)
    requires
        x is Af || x is AfZa || x is Am || x is AmEt || x is Ar || x is ArAe || x is ArBh || x is ArDz || x is ArEg || x is ArIq || x is ArJo || x is ArKw || x is ArLb || x is ArLy || x is ArMa || x is ArOm || x is ArQa || x is ArSa || x is ArSy || x is ArTn || x is ArYe || x is As || x is AsIn || x is Az || x is AzArab || x is AzArabAz || x is AzCyrl || x is AzCyrlAz || x is AzLatn || x is AzLatnAz || x is Be || x is BeBy || x is Bg || x is BgBg || x is Bn || x is BnBd || x is BnIn || x is Bs || x is BsCyrl || x is BsCyrlBa || x is BsLatn || x is BsLatnBa || x is Ca,
    ensures
        tag_by_rank(text_rank(ascii_lower(tag_code(x)))) == Some(x),
{
    match x {
        LanguageTag::Af => {
            reveal_strlit("af");
            assert(ascii_lower(tag_code(x)) =~= "af"@);
        },
        LanguageTag::AfZa => {
            reveal_strlit("af-ZA");
            reveal_strlit("af-za");
            assert(ascii_lower(tag_code(x)) =~= "af-za"@);
        },
        LanguageTag::Am => {
            reveal_strlit("am");
            assert(ascii_lower(tag_code(x)) =~= "am"@);
        },
        LanguageTag::AmEt => {
            reveal_strlit("am-ET");
            reveal_strlit("am-et");
            assert(ascii_lower(tag_code(x)) =~= "am-et"@);
        },
        LanguageTag::Ar => {
            reveal_strlit("ar");
            assert(ascii_lower(tag_code(x)) =~= "ar"@);
        },
        LanguageTag::ArAe => {
            reveal_strlit("ar-AE");
            reveal_strlit("ar-ae");
            assert(ascii_lower(tag_code(x)) =~= "ar-ae"@);
        },
        LanguageTag::ArBh => {
            reveal_strlit("ar-BH");
            reveal_strlit("ar-bh");
            assert(ascii_lower(tag_code(x)) =~= "ar-bh"@);
        },
        LanguageTag::ArDz => {
            reveal_strlit("ar-DZ");
            reveal_strlit("ar-dz");
            assert(ascii_lower(tag_code(x)) =~= "ar-dz"@);
        },
        LanguageTag::ArEg => {
            reveal_strlit("ar-EG");
            reveal_strlit("ar-eg");
            assert(ascii_lower(tag_code(x)) =~= "ar-eg"@);
        },
        LanguageTag::ArIq => {
            reveal_strlit("ar-IQ");
            reveal_strlit("ar-iq");
            assert(ascii_lower(tag_code(x)) =~= "ar-iq"@);
        },
        LanguageTag::ArJo => {
            reveal_strlit("ar-JO");
            reveal_strlit("ar-jo");
            assert(ascii_lower(tag_code(x)) =~= "ar-jo"@);
        },
        LanguageTag::ArKw => {
            reveal_strlit("ar-KW");
            reveal_strlit("ar-kw");
            assert(ascii_lower(tag_code(x)) =~= "ar-kw"@);
        },
        LanguageTag::ArLb => {
            reveal_strlit("ar-LB");
            reveal_strlit("ar-lb");
            assert(ascii_lower(tag_code(x)) =~= "ar-lb"@);
        },
        LanguageTag::ArLy => {
            reveal_strlit("ar-LY");
            reveal_strlit("ar-ly");
            assert(ascii_lower(tag_code(x)) =~= "ar-ly"@);
        },
        LanguageTag::ArMa => {
            reveal_strlit("ar-MA");
            reveal_strlit("ar-ma");
            assert(ascii_lower(tag_code(x)) =~= "ar-ma"@);
        },
        LanguageTag::ArOm => {
            reveal_strlit("ar-OM");
            reveal_strlit("ar-om");
            assert(ascii_lower(tag_code(x)) =~= "ar-om"@);
        },
        LanguageTag::ArQa => {
            reveal_strlit("ar-QA");
            reveal_strlit("ar-qa");
            assert(ascii_lower(tag_code(x)) =~= "ar-qa"@);
        },
        LanguageTag::ArSa => {
            reveal_strlit("ar-SA");
            reveal_strlit("ar-sa");
            assert(ascii_lower(tag_code(x)) =~= "ar-sa"@);
        },
        LanguageTag::ArSy => {
            reveal_strlit("ar-SY");
            reveal_strlit("ar-sy");
            assert(ascii_lower(tag_code(x)) =~= "ar-sy"@);
        },
        LanguageTag::ArTn => {
            reveal_strlit("ar-TN");
            reveal_strlit("ar-tn");
            assert(ascii_lower(tag_code(x)) =~= "ar-tn"@);
        },
        LanguageTag::ArYe => {
            reveal_strlit("ar-YE");
            reveal_strlit("ar-ye");
            assert(ascii_lower(tag_code(x)) =~= "ar-ye"@);
        },
        LanguageTag::As => {
            reveal_strlit("as");
            assert(ascii_lower(tag_code(x)) =~= "as"@);
        },
        LanguageTag::AsIn => {
            reveal_strlit("as-IN");
            reveal_strlit("as-in");
            assert(ascii_lower(tag_code(x)) =~= "as-in"@);
        },
        LanguageTag::Az => {
            reveal_strlit("az");
            assert(ascii_lower(tag_code(x)) =~= "az"@);
        },
        LanguageTag::AzArab => {
            reveal_strlit("az-Arab");
            reveal_strlit("az-arab");
            assert(ascii_lower(tag_code(x)) =~= "az-arab"@);
        },
        LanguageTag::AzArabAz => {
            reveal_strlit("az-Arab-AZ");
            reveal_strlit("az-arab-az");
            assert(ascii_lower(tag_code(x)) =~= "az-arab-az"@);
        },
        LanguageTag::AzCyrl => {
            reveal_strlit("az-Cyrl");
            reveal_strlit("az-cyrl");
            assert(ascii_lower(tag_code(x)) =~= "az-cyrl"@);
        },
        LanguageTag::AzCyrlAz => {
            reveal_strlit("az-Cyrl-AZ");
            reveal_strlit("az-cyrl-az");
            assert(ascii_lower(tag_code(x)) =~= "az-cyrl-az"@);
        },
        LanguageTag::AzLatn => {
            reveal_strlit("az-Latn");
            reveal_strlit("az-latn");
            assert(ascii_lower(tag_code(x)) =~= "az-latn"@);
        },
        LanguageTag::AzLatnAz => {
            reveal_strlit("az-Latn-AZ");
            reveal_strlit("az-latn-az");
            assert(ascii_lower(tag_code(x)) =~= "az-latn-az"@);
        },
        LanguageTag::Be => {
            reveal_strlit("be");
            assert(ascii_lower(tag_code(x)) =~= "be"@);
        },
        LanguageTag::BeBy => {
            reveal_strlit("be-BY");
            reveal_strlit("be-by");
            assert(ascii_lower(tag_code(x)) =~= "be-by"@);
        },
        LanguageTag::Bg => {
            reveal_strlit("bg");
            assert(ascii_lower(tag_code(x)) =~= "bg"@);
        },
        LanguageTag::BgBg => {
            reveal_strlit("bg-BG");
            reveal_strlit("bg-bg");
            assert(ascii_lower(tag_code(x)) =~= "bg-bg"@);
        },
        LanguageTag::Bn => {
            reveal_strlit("bn");
            assert(ascii_lower(tag_code(x)) =~= "bn"@);
        },
        LanguageTag::BnBd => {
            reveal_strlit("bn-BD");
            reveal_strlit("bn-bd");
            assert(ascii_lower(tag_code(x)) =~= "bn-bd"@);
        },
        LanguageTag::BnIn => {
            reveal_strlit("bn-IN");
            reveal_strlit("bn-in");
            assert(ascii_lower(tag_code(x)) =~= "bn-in"@);
        },
        LanguageTag::Bs => {
            reveal_strlit("bs");
            assert(ascii_lower(tag_code(x)) =~= "bs"@);
        },
        LanguageTag::BsCyrl => {
            reveal_strlit("bs-Cyrl");
            reveal_strlit("bs-cyrl");
            assert(ascii_lower(tag_code(x)) =~= "bs-cyrl"@);
        },
        LanguageTag::BsCyrlBa => {
            reveal_strlit("bs-Cyrl-BA");
            reveal_strlit("bs-cyrl-ba");
            assert(ascii_lower(tag_code(x)) =~= "bs-cyrl-ba"@);
        },
        LanguageTag::BsLatn => {
            reveal_strlit("bs-Latn");
            reveal_strlit("bs-latn");
            assert(ascii_lower(tag_code(x)) =~= "bs-latn"@);
        },
        LanguageTag::BsLatnBa => {
            reveal_strlit("bs-Latn-BA");
            reveal_strlit("bs-latn-ba");
            assert(ascii_lower(tag_code(x)) =~= "bs-latn-ba"@);
        },
        LanguageTag::Ca => {
            reveal_strlit("ca");
            assert(ascii_lower(tag_code(x)) =~= "ca"@);
        },
        _ => {},
    }
}

#[verifier::spinoff_prover]
#[verifier::rlimit(40)]
proof fn lemma_tag_rank_part1(x: LanguageTag)
    requires
        x is CaEs || x is CaEsValencia || x is ChrCher || x is ChrCherUs || x is ChrLatn || x is Co || x is Cs || x is CsCz || x is Cy || x is CyGb || x is Da || x is DaDk || x is De || x is DeAt || x is DeCh || x is DeDe || x is DeLi || x is DeLu || x is El || x is ElGr || x is En || x is En011 || x is En014 || x is En018 || x is En021 || x is En029 || x is En053 || x is EnAu || x is EnBz || x is EnCa || x is EnGb || x is EnHk || x is EnId || x is EnIe || x is EnIn || x is EnJm || x is EnKz || x is EnMt || x is EnMy || x is EnNz || x is EnPh || x is EnPk || x is EnSg,
    ensures
        tag_by_rank(text_rank(ascii_lower(tag_code(x)))) == Some(x),
{
    match x {
        LanguageTag::CaEs => {
            reveal_strlit("ca-ES");
            reveal_strlit("ca-es");
            assert(ascii_lower(tag_code(x)) =~= "ca-es"@);
        },
        LanguageTag::CaEsValencia => {
            reveal_strlit("ca-ES-valencia");
            reveal_strlit("ca-es-valencia");
            assert(ascii_lower(tag_code(x)) =~= "ca-es-valencia"@);
        },
        LanguageTag::ChrCher => {
            reveal_strlit("chr-Cher");
            reveal_strlit("chr-cher");
            assert(ascii_lower(tag_code(x)) =~= "chr-cher"@);
        },
        LanguageTag::ChrCherUs => {
            reveal_strlit("chr-Cher-US");
            reveal_strlit("chr-cher-us");
            assert(ascii_lower(tag_code(x)) =~= "chr-cher-us"@);
        },
        LanguageTag::ChrLatn => {
            reveal_strlit("chr-Latn");
            reveal_strlit("chr-latn");
            assert(ascii_lower(tag_code(x)) =~= "chr-latn"@);
        },
        LanguageTag::Co => {
            reveal_strlit("co");
            assert(ascii_lower(tag_code(x)) =~= "co"@);
        },
        LanguageTag::Cs => {
            reveal_strlit("cs");
            assert(ascii_lower(tag_code(x)) =~= "cs"@);
        },
        LanguageTag::CsCz => {
            reveal_strlit("cs-CZ");
            reveal_strlit("cs-cz");
            assert(ascii_lower(tag_code(x)) =~= "cs-cz"@);
        },
        LanguageTag::Cy => {
            reveal_strlit("cy");
            assert(ascii_lower(tag_code(x)) =~= "cy"@);
        },
        LanguageTag::CyGb => {
            reveal_strlit("cy-GB");
            reveal_strlit("cy-gb");
            assert(ascii_lower(tag_code(x)) =~= "cy-gb"@);
        },
        LanguageTag::Da => {
            reveal_strlit("da");
            assert(ascii_lower(tag_code(x)) =~= "da"@);
        },
        LanguageTag::DaDk => {
            reveal_strlit("da-DK");
            reveal_strlit("da-dk");
            assert(ascii_lower(tag_code(x)) =~= "da-dk"@);
        },
        LanguageTag::De => {
            reveal_strlit("de");
            assert(ascii_lower(tag_code(x)) =~= "de"@);
        },
        LanguageTag::DeAt => {
            reveal_strlit("de-AT");
            reveal_strlit("de-at");
            assert(ascii_lower(tag_code(x)) =~= "de-at"@);
        },
        LanguageTag::DeCh => {
            reveal_strlit("de-CH");
            reveal_strlit("de-ch");
            assert(ascii_lower(tag_code(x)) =~= "de-ch"@);
        },
        LanguageTag::DeDe => {
            reveal_strlit("de-DE");
            reveal_strlit("de-de");
            assert(ascii_lower(tag_code(x)) =~= "de-de"@);
        },
        LanguageTag::DeLi => {
            reveal_strlit("de-LI");
            reveal_strlit("de-li");
            assert(ascii_lower(tag_code(x)) =~= "de-li"@);
        },
        LanguageTag::DeLu => {
            reveal_strlit("de-LU");
            reveal_strlit("de-lu");
            assert(ascii_lower(tag_code(x)) =~= "de-lu"@);
        },
        LanguageTag::El => {
            reveal_strlit("el");
            assert(ascii_lower(tag_code(x)) =~= "el"@);
        },
        LanguageTag::ElGr => {
            reveal_strlit("el-GR");
            reveal_strlit("el-gr");
            assert(ascii_lower(tag_code(x)) =~= "el-gr"@);
        },
        LanguageTag::En => {
            reveal_strlit("en");
            assert(ascii_lower(tag_code(x)) =~= "en"@);
        },
        LanguageTag::En011 => {
            reveal_strlit("en-011");
            assert(ascii_lower(tag_code(x)) =~= "en-011"@);
        },
        LanguageTag::En014 => {
            reveal_strlit("en-014");
            assert(ascii_lower(tag_code(x)) =~= "en-014"@);
        },
        LanguageTag::En018 => {
            reveal_strlit("en-018");
            assert(ascii_lower(tag_code(x)) =~= "en-018"@);
        },
        LanguageTag::En021 => {
            reveal_strlit("en-021");
            assert(ascii_lower(tag_code(x)) =~= "en-021"@);
        },
        LanguageTag::En029 => {
            reveal_strlit("en-029");
            assert(ascii_lower(tag_code(x)) =~= "en-029"@);
        },
        LanguageTag::En053 => {
            reveal_strlit("en-053");
            assert(ascii_lower(tag_code(x)) =~= "en-053"@);
        },
        LanguageTag::EnAu => {
            reveal_strlit("en-AU");
            reveal_strlit("en-au");
            assert(ascii_lower(tag_code(x)) =~= "en-au"@);
        },
        LanguageTag::EnBz => {
            reveal_strlit("en-BZ");
            reveal_strlit("en-bz");
            assert(ascii_lower(tag_code(x)) =~= "en-bz"@);
        },
        LanguageTag::EnCa => {
            reveal_strlit("en-CA");
            reveal_strlit("en-ca");
            assert(ascii_lower(tag_code(x)) =~= "en-ca"@);
        },
        LanguageTag::EnGb => {
            reveal_strlit("en-GB");
            reveal_strlit("en-gb");
            assert(ascii_lower(tag_code(x)) =~= "en-gb"@);
        },
        LanguageTag::EnHk => {
            reveal_strlit("en-HK");
            reveal_strlit("en-hk");
            assert(ascii_lower(tag_code(x)) =~= "en-hk"@);
        },
        LanguageTag::EnId => {
            reveal_strlit("en-ID");
            reveal_strlit("en-id");
            assert(ascii_lower(tag_code(x)) =~= "en-id"@);
        },
        LanguageTag::EnIe => {
            reveal_strlit("en-IE");
            reveal_strlit("en-ie");
            assert(ascii_lower(tag_code(x)) =~= "en-ie"@);
        },
        LanguageTag::EnIn => {
            reveal_strlit("en-IN");
            reveal_strlit("en-in");
            assert(ascii_lower(tag_code(x)) =~= "en-in"@);
        },
        LanguageTag::EnJm => {
            reveal_strlit("en-JM");
            reveal_strlit("en-jm");
            assert(ascii_lower(tag_code(x)) =~= "en-jm"@);
        },
        LanguageTag::EnKz => {
            reveal_strlit("en-KZ");
            reveal_strlit("en-kz");
            assert(ascii_lower(tag_code(x)) =~= "en-kz"@);
        },
        LanguageTag::EnMt => {
            reveal_strlit("en-MT");
            reveal_strlit("en-mt");
            assert(ascii_lower(tag_code(x)) =~= "en-mt"@);
        },
        LanguageTag::EnMy => {
            reveal_strlit("en-MY");
            reveal_strlit("en-my");
            assert(ascii_lower(tag_code(x)) =~= "en-my"@);
        },
        LanguageTag::EnNz => {
            reveal_strlit("en-NZ");
            reveal_strlit("en-nz");
            assert(ascii_lower(tag_code(x)) =~= "en-nz"@);
        },
        LanguageTag::EnPh => {
            reveal_strlit("en-PH");
            reveal_strlit("en-ph");
            assert(ascii_lower(tag_code(x)) =~= "en-ph"@);
        },
        LanguageTag::EnPk => {
            reveal_strlit("en-PK");
            reveal_strlit("en-pk");
            assert(ascii_lower(tag_code(x)) =~= "en-pk"@);
        },
        LanguageTag::EnSg => {
            reveal_strlit("en-SG");
            reveal_strlit("en-sg");
            assert(ascii_lower(tag_code(x)) =~= "en-sg"@);
        },
        _ => {},
    }
}

#[verifier::spinoff_prover]
#[verifier::rlimit(40)]
proof fn lemma_tag_rank_part2(x: LanguageTag)
    requires
        x is EnTt || x is EnUs || x is EnVn || x is EnZa || x is EnZw || x is Es || x is Es019 || x is Es419 || x is EsAr || x is EsBo || x is EsCl || x is EsCo || x is EsCr || x is EsDo || x is EsEc || x is EsEs || x is EsGt || x is EsHn || x is EsMx || x is EsNi || x is EsPa || x is EsPe || x is EsPr || x is EsPy || x is EsSv || x is EsUs || x is EsUy || x is EsVe || x is Et || x is EtEe || x is Eu || x is EuEs || x is Fa || x is FaIr || x is Fi || x is FiFi || x is Fil || x is FilLatn || x is FilPh || x is Fr || x is Fr011 || x is Fr015 || x is Fr021,
    ensures
        tag_by_rank(text_rank(ascii_lower(tag_code(x)))) == Some(x),
{
    match x {
        LanguageTag::EnTt => {
            reveal_strlit("en-TT");
            reveal_strlit("en-tt");
            assert(ascii_lower(tag_code(x)) =~= "en-tt"@);
        },
        LanguageTag::EnUs => {
            reveal_strlit("en-US");
            reveal_strlit("en-us");
            assert(ascii_lower(tag_code(x)) =~= "en-us"@);
        },
        LanguageTag::EnVn => {
            reveal_strlit("en-VN");
            reveal_strlit("en-vn");
            assert(ascii_lower(tag_code(x)) =~= "en-vn"@);
        },
        LanguageTag::EnZa => {
            reveal_strlit("en-ZA");
            reveal_strlit("en-za");
            assert(ascii_lower(tag_code(x)) =~= "en-za"@);
        },
        LanguageTag::EnZw => {
            reveal_strlit("en-ZW");
            reveal_strlit("en-zw");
            assert(ascii_lower(tag_code(x)) =~= "en-zw"@);
        },
        LanguageTag::Es => {
            reveal_strlit("es");
            assert(ascii_lower(tag_code(x)) =~= "es"@);
        },
        LanguageTag::Es019 => {
            reveal_strlit("es-019");
            assert(ascii_lower(tag_code(x)) =~= "es-019"@);
        },
        LanguageTag::Es419 => {
            reveal_strlit("es-419");
            assert(ascii_lower(tag_code(x)) =~= "es-419"@);
        },
        LanguageTag::EsAr => {
            reveal_strlit("es-AR");
            reveal_strlit("es-ar");
            assert(ascii_lower(tag_code(x)) =~= "es-ar"@);
        },
        LanguageTag::EsBo => {
            reveal_strlit("es-BO");
            reveal_strlit("es-bo");
            assert(ascii_lower(tag_code(x)) =~= "es-bo"@);
        },
        LanguageTag::EsCl => {
            reveal_strlit("es-CL");
            reveal_strlit("es-cl");
            assert(ascii_lower(tag_code(x)) =~= "es-cl"@);
        },
        LanguageTag::EsCo => {
            reveal_strlit("es-CO");
            reveal_strlit("es-co");
            assert(ascii_lower(tag_code(x)) =~= "es-co"@);
        },
        LanguageTag::EsCr => {
            reveal_strlit("es-CR");
            reveal_strlit("es-cr");
            assert(ascii_lower(tag_code(x)) =~= "es-cr"@);
        },
        LanguageTag::EsDo => {
            reveal_strlit("es-DO");
            reveal_strlit("es-do");
            assert(ascii_lower(tag_code(x)) =~= "es-do"@);
        },
        LanguageTag::EsEc => {
            reveal_strlit("es-EC");
            reveal_strlit("es-ec");
            assert(ascii_lower(tag_code(x)) =~= "es-ec"@);
        },
        LanguageTag::EsEs => {
            reveal_strlit("es-ES");
            reveal_strlit("es-es");
            assert(ascii_lower(tag_code(x)) =~= "es-es"@);
        },
        LanguageTag::EsGt => {
            reveal_strlit("es-GT");
            reveal_strlit("es-gt");
            assert(ascii_lower(tag_code(x)) =~= "es-gt"@);
        },
        LanguageTag::EsHn => {
            reveal_strlit("es-HN");
            reveal_strlit("es-hn");
            assert(ascii_lower(tag_code(x)) =~= "es-hn"@);
        },
        LanguageTag::EsMx => {
            reveal_strlit("es-MX");
            reveal_strlit("es-mx");
            assert(ascii_lower(tag_code(x)) =~= "es-mx"@);
        },
        LanguageTag::EsNi => {
            reveal_strlit("es-NI");
            reveal_strlit("es-ni");
            assert(ascii_lower(tag_code(x)) =~= "es-ni"@);
        },
        LanguageTag::EsPa => {
            reveal_strlit("es-PA");
            reveal_strlit("es-pa");
            assert(ascii_lower(tag_code(x)) =~= "es-pa"@);
        },
        LanguageTag::EsPe => {
            reveal_strlit("es-PE");
            reveal_strlit("es-pe");
            assert(ascii_lower(tag_code(x)) =~= "es-pe"@);
        },
        LanguageTag::EsPr => {
            reveal_strlit("es-PR");
            reveal_strlit("es-pr");
            assert(ascii_lower(tag_code(x)) =~= "es-pr"@);
        },
        LanguageTag::EsPy => {
            reveal_strlit("es-PY");
            reveal_strlit("es-py");
            assert(ascii_lower(tag_code(x)) =~= "es-py"@);
        },
        LanguageTag::EsSv => {
            reveal_strlit("es-SV");
            reveal_strlit("es-sv");
            assert(ascii_lower(tag_code(x)) =~= "es-sv"@);
        },
        LanguageTag::EsUs => {
            reveal_strlit("es-US");
            reveal_strlit("es-us");
            assert(ascii_lower(tag_code(x)) =~= "es-us"@);
        },
        LanguageTag::EsUy => {
            reveal_strlit("es-UY");
            reveal_strlit("es-uy");
            assert(ascii_lower(tag_code(x)) =~= "es-uy"@);
        },
        LanguageTag::EsVe => {
            reveal_strlit("es-VE");
            reveal_strlit("es-ve");
            assert(ascii_lower(tag_code(x)) =~= "es-ve"@);
        },
        LanguageTag::Et => {
            reveal_strlit("et");
            assert(ascii_lower(tag_code(x)) =~= "et"@);
        },
        LanguageTag::EtEe => {
            reveal_strlit("et-EE");
            reveal_strlit("et-ee");
            assert(ascii_lower(tag_code(x)) =~= "et-ee"@);
        },
        LanguageTag::Eu => {
            reveal_strlit("eu");
            assert(ascii_lower(tag_code(x)) =~= "eu"@);
        },
        LanguageTag::EuEs => {
            reveal_strlit("eu-ES");
            reveal_strlit("eu-es");
            assert(ascii_lower(tag_code(x)) =~= "eu-es"@);
        },
        LanguageTag::Fa => {
            reveal_strlit("fa");
            assert(ascii_lower(tag_code(x)) =~= "fa"@);
        },
        LanguageTag::FaIr => {
            reveal_strlit("fa-IR");
            reveal_strlit("fa-ir");
            assert(ascii_lower(tag_code(x)) =~= "fa-ir"@);
        },
        LanguageTag::Fi => {
            reveal_strlit("fi");
            assert(ascii_lower(tag_code(x)) =~= "fi"@);
        },
        LanguageTag::FiFi => {
            reveal_strlit("fi-FI");
            reveal_strlit("fi-fi");
            assert(ascii_lower(tag_code(x)) =~= "fi-fi"@);
        },
        LanguageTag::Fil => {
            reveal_strlit("fil");
            assert(ascii_lower(tag_code(x)) =~= "fil"@);
        },
        LanguageTag::FilLatn => {
            reveal_strlit("fil-Latn");
            reveal_strlit("fil-latn");
            assert(ascii_lower(tag_code(x)) =~= "fil-latn"@);
        },
        LanguageTag::FilPh => {
            reveal_strlit("fil-PH");
            reveal_strlit("fil-ph");
            assert(ascii_lower(tag_code(x)) =~= "fil-ph"@);
        },
        LanguageTag::Fr => {
            reveal_strlit("fr");
            assert(ascii_lower(tag_code(x)) =~= "fr"@);
        },
        LanguageTag::Fr011 => {
            reveal_strlit("fr-011");
            assert(ascii_lower(tag_code(x)) =~= "fr-011"@);
        },
        LanguageTag::Fr015 => {
            reveal_strlit("fr-015");
            assert(ascii_lower(tag_code(x)) =~= "fr-015"@);
        },
        LanguageTag::Fr021 => {
            reveal_strlit("fr-021");
            assert(ascii_lower(tag_code(x)) =~= "fr-021"@);
        },
        _ => {},
    }
}

#[verifier::spinoff_prover]
#[verifier::rlimit(40)]
proof fn lemma_tag_rank_part3(x: LanguageTag)
    requires
        x is Fr029 || x is Fr155 || x is FrBe || x is FrCa || x is FrCd || x is FrCh || x is FrCi || x is FrCm || x is FrFr || x is FrHt || x is FrLu || x is FrMa || x is FrMc || x is FrMl || x is FrRe || x is FrcLatn || x is FrpLatn || x is Ga || x is GaIe || x is Gd || x is GdGb || x is GdLatn || x is Gl || x is GlEs || x is Gu || x is GuIn || x is Ha || x is HaLatn || x is HaLatnNg || x is He || x is HeIl || x is Hi || x is HiIn || x is Hr || x is HrBa || x is HrHr || x is Hu || x is HuHu || x is Hy || x is HyAm || x is Id || x is IdId || x is IgLatn,
    ensures
        tag_by_rank(text_rank(ascii_lower(tag_code(x)))) == Some(x),
{
    match x {
        LanguageTag::Fr029 => {
            reveal_strlit("fr-029");
            assert(ascii_lower(tag_code(x)) =~= "fr-029"@);
        },
        LanguageTag::Fr155 => {
            reveal_strlit("fr-155");
            assert(ascii_lower(tag_code(x)) =~= "fr-155"@);
        },
        LanguageTag::FrBe => {
            reveal_strlit("fr-BE");
            reveal_strlit("fr-be");
            assert(ascii_lower(tag_code(x)) =~= "fr-be"@);
        },
        LanguageTag::FrCa => {
            reveal_strlit("fr-CA");
            reveal_strlit("fr-ca");
            assert(ascii_lower(tag_code(x)) =~= "fr-ca"@);
        },
        LanguageTag::FrCd => {
            reveal_strlit("fr-CD");
            reveal_strlit("fr-cd");
            assert(ascii_lower(tag_code(x)) =~= "fr-cd"@);
        },
        LanguageTag::FrCh => {
            reveal_strlit("fr-CH");
            reveal_strlit("fr-ch");
            assert(ascii_lower(tag_code(x)) =~= "fr-ch"@);
        },
        LanguageTag::FrCi => {
            reveal_strlit("fr-CI");
            reveal_strlit("fr-ci");
            assert(ascii_lower(tag_code(x)) =~= "fr-ci"@);
        },
        LanguageTag::FrCm => {
            reveal_strlit("fr-CM");
            reveal_strlit("fr-cm");
            assert(ascii_lower(tag_code(x)) =~= "fr-cm"@);
        },
        LanguageTag::FrFr => {
            reveal_strlit("fr-FR");
            reveal_strlit("fr-fr");
            assert(ascii_lower(tag_code(x)) =~= "fr-fr"@);
        },
        LanguageTag::FrHt => {
            reveal_strlit("fr-HT");
            reveal_strlit("fr-ht");
            assert(ascii_lower(tag_code(x)) =~= "fr-ht"@);
        },
        LanguageTag::FrLu => {
            reveal_strlit("fr-LU");
            reveal_strlit("fr-lu");
            assert(ascii_lower(tag_code(x)) =~= "fr-lu"@);
        },
        LanguageTag::FrMa => {
            reveal_strlit("fr-MA");
            reveal_strlit("fr-ma");
            assert(ascii_lower(tag_code(x)) =~= "fr-ma"@);
        },
        LanguageTag::FrMc => {
            reveal_strlit("fr-MC");
            reveal_strlit("fr-mc");
            assert(ascii_lower(tag_code(x)) =~= "fr-mc"@);
        },
        LanguageTag::FrMl => {
            reveal_strlit("fr-ML");
            reveal_strlit("fr-ml");
            assert(ascii_lower(tag_code(x)) =~= "fr-ml"@);
        },
        LanguageTag::FrRe => {
            reveal_strlit("fr-RE");
            reveal_strlit("fr-re");
            assert(ascii_lower(tag_code(x)) =~= "fr-re"@);
        },
        LanguageTag::FrcLatn => {
            reveal_strlit("frc-Latn");
            reveal_strlit("frc-latn");
            assert(ascii_lower(tag_code(x)) =~= "frc-latn"@);
        },
        LanguageTag::FrpLatn => {
            reveal_strlit("frp-Latn");
            reveal_strlit("frp-latn");
            assert(ascii_lower(tag_code(x)) =~= "frp-latn"@);
        },
        LanguageTag::Ga => {
            reveal_strlit("ga");
            assert(ascii_lower(tag_code(x)) =~= "ga"@);
        },
        LanguageTag::GaIe => {
            reveal_strlit("ga-IE");
            reveal_strlit("ga-ie");
            assert(ascii_lower(tag_code(x)) =~= "ga-ie"@);
        },
        LanguageTag::Gd => {
            reveal_strlit("gd");
            assert(ascii_lower(tag_code(x)) =~= "gd"@);
        },
        LanguageTag::GdGb => {
            reveal_strlit("gd-GB");
            reveal_strlit("gd-gb");
            assert(ascii_lower(tag_code(x)) =~= "gd-gb"@);
        },
        LanguageTag::GdLatn => {
            reveal_strlit("gd-Latn");
            reveal_strlit("gd-latn");
            assert(ascii_lower(tag_code(x)) =~= "gd-latn"@);
        },
        LanguageTag::Gl => {
            reveal_strlit("gl");
            assert(ascii_lower(tag_code(x)) =~= "gl"@);
        },
        LanguageTag::GlEs => {
            reveal_strlit("gl-ES");
            reveal_strlit("gl-es");
            assert(ascii_lower(tag_code(x)) =~= "gl-es"@);
        },
        LanguageTag::Gu => {
            reveal_strlit("gu");
            assert(ascii_lower(tag_code(x)) =~= "gu"@);
        },
        LanguageTag::GuIn => {
            reveal_strlit("gu-IN");
            reveal_strlit("gu-in");
            assert(ascii_lower(tag_code(x)) =~= "gu-in"@);
        },
        LanguageTag::Ha => {
            reveal_strlit("ha");
            assert(ascii_lower(tag_code(x)) =~= "ha"@);
        },
        LanguageTag::HaLatn => {
            reveal_strlit("ha-Latn");
            reveal_strlit("ha-latn");
            assert(ascii_lower(tag_code(x)) =~= "ha-latn"@);
        },
        LanguageTag::HaLatnNg => {
            reveal_strlit("ha-Latn-NG");
            reveal_strlit("ha-latn-ng");
            assert(ascii_lower(tag_code(x)) =~= "ha-latn-ng"@);
        },
        LanguageTag::He => {
            reveal_strlit("he");
            assert(ascii_lower(tag_code(x)) =~= "he"@);
        },
        LanguageTag::HeIl => {
            reveal_strlit("he-IL");
            reveal_strlit("he-il");
            assert(ascii_lower(tag_code(x)) =~= "he-il"@);
        },
        LanguageTag::Hi => {
            reveal_strlit("hi");
            assert(ascii_lower(tag_code(x)) =~= "hi"@);
        },
        LanguageTag::HiIn => {
            reveal_strlit("hi-IN");
            reveal_strlit("hi-in");
            assert(ascii_lower(tag_code(x)) =~= "hi-in"@);
        },
        LanguageTag::Hr => {
            reveal_strlit("hr");
            assert(ascii_lower(tag_code(x)) =~= "hr"@);
        },
        LanguageTag::HrBa => {
            reveal_strlit("hr-BA");
            reveal_strlit("hr-ba");
            assert(ascii_lower(tag_code(x)) =~= "hr-ba"@);
        },
        LanguageTag::HrHr => {
            reveal_strlit("hr-HR");
            reveal_strlit("hr-hr");
            assert(ascii_lower(tag_code(x)) =~= "hr-hr"@);
        },
        LanguageTag::Hu => {
            reveal_strlit("hu");
            assert(ascii_lower(tag_code(x)) =~= "hu"@);
        },
        LanguageTag::HuHu => {
            reveal_strlit("hu-HU");
            reveal_strlit("hu-hu");
            assert(ascii_lower(tag_code(x)) =~= "hu-hu"@);
        },
        LanguageTag::Hy => {
            reveal_strlit("hy");
            assert(ascii_lower(tag_code(x)) =~= "hy"@);
        },
        LanguageTag::HyAm => {
            reveal_strlit("hy-AM");
            reveal_strlit("hy-am");
            assert(ascii_lower(tag_code(x)) =~= "hy-am"@);
        },
        LanguageTag::Id => {
            reveal_strlit("id");
            assert(ascii_lower(tag_code(x)) =~= "id"@);
        },
        LanguageTag::IdId => {
            reveal_strlit("id-ID");
            reveal_strlit("id-id");
            assert(ascii_lower(tag_code(x)) =~= "id-id"@);
        },
        LanguageTag::IgLatn => {
            reveal_strlit("ig-Latn");
            reveal_strlit("ig-latn");
            assert(ascii_lower(tag_code(x)) =~= "ig-latn"@);
        },
        _ => {},
    }
}

#[verifier::spinoff_prover]
#[verifier::rlimit(40)]
proof fn lemma_tag_rank_part4(x: LanguageTag)
    requires
        x is IgNg || x is Is || x is IsIs || x is It || x is ItCh || x is ItIt || x is IuCans || x is IuLatn || x is IuLatnCa || x is Ja || x is JaJp || x is Ka || x is KaGe || x is Kk || x is KkKz || x is Km || x is KmKh || x is Kn || x is KnIn || x is Ko || x is KoKr || x is Kok || x is KokIn || x is KuArab || x is KuArabIq || x is KyCyrl || x is KyKg || x is Lb || x is LbLu || x is Lo || x is LoLa || x is Lt || x is LtLt || x is Lv || x is LvLv || x is Mi || x is MiLatn || x is MiNz || x is Mk || x is MkMk || x is Ml || x is MlIn || x is MnCyrl,
    ensures
        tag_by_rank(text_rank(ascii_lower(tag_code(x)))) == Some(x),
{
    match x {
        LanguageTag::IgNg => {
            reveal_strlit("ig-NG");
            reveal_strlit("ig-ng");
            assert(ascii_lower(tag_code(x)) =~= "ig-ng"@);
        },
        LanguageTag::Is => {
            reveal_strlit("is");
            assert(ascii_lower(tag_code(x)) =~= "is"@);
        },
        LanguageTag::IsIs => {
            reveal_strlit("is-IS");
            reveal_strlit("is-is");
            assert(ascii_lower(tag_code(x)) =~= "is-is"@);
        },
        LanguageTag::It => {
            reveal_strlit("it");
            assert(ascii_lower(tag_code(x)) =~= "it"@);
        },
        LanguageTag::ItCh => {
            reveal_strlit("it-CH");
            reveal_strlit("it-ch");
            assert(ascii_lower(tag_code(x)) =~= "it-ch"@);
        },
        LanguageTag::ItIt => {
            reveal_strlit("it-IT");
            reveal_strlit("it-it");
            assert(ascii_lower(tag_code(x)) =~= "it-it"@);
        },
        LanguageTag::IuCans => {
            reveal_strlit("iu-Cans");
            reveal_strlit("iu-cans");
            assert(ascii_lower(tag_code(x)) =~= "iu-cans"@);
        },
        LanguageTag::IuLatn => {
            reveal_strlit("iu-Latn");
            reveal_strlit("iu-latn");
            assert(ascii_lower(tag_code(x)) =~= "iu-latn"@);
        },
        LanguageTag::IuLatnCa => {
            reveal_strlit("iu-Latn-CA");
            reveal_strlit("iu-latn-ca");
            assert(ascii_lower(tag_code(x)) =~= "iu-latn-ca"@);
        },
        LanguageTag::Ja => {
            reveal_strlit("ja");
            assert(ascii_lower(tag_code(x)) =~= "ja"@);
        },
        LanguageTag::JaJp => {
            reveal_strlit("ja-JP");
            reveal_strlit("ja-jp");
            assert(ascii_lower(tag_code(x)) =~= "ja-jp"@);
        },
        LanguageTag::Ka => {
            reveal_strlit("ka");
            assert(ascii_lower(tag_code(x)) =~= "ka"@);
        },
        LanguageTag::KaGe => {
            reveal_strlit("ka-GE");
            reveal_strlit("ka-ge");
            assert(ascii_lower(tag_code(x)) =~= "ka-ge"@);
        },
        LanguageTag::Kk => {
            reveal_strlit("kk");
            assert(ascii_lower(tag_code(x)) =~= "kk"@);
        },
        LanguageTag::KkKz => {
            reveal_strlit("kk-KZ");
            reveal_strlit("kk-kz");
            assert(ascii_lower(tag_code(x)) =~= "kk-kz"@);
        },
        LanguageTag::Km => {
            reveal_strlit("km");
            assert(ascii_lower(tag_code(x)) =~= "km"@);
        },
        LanguageTag::KmKh => {
            reveal_strlit("km-KH");
            reveal_strlit("km-kh");
            assert(ascii_lower(tag_code(x)) =~= "km-kh"@);
        },
        LanguageTag::Kn => {
            reveal_strlit("kn");
            assert(ascii_lower(tag_code(x)) =~= "kn"@);
        },
        LanguageTag::KnIn => {
            reveal_strlit("kn-IN");
            reveal_strlit("kn-in");
            assert(ascii_lower(tag_code(x)) =~= "kn-in"@);
        },
        LanguageTag::Ko => {
            reveal_strlit("ko");
            assert(ascii_lower(tag_code(x)) =~= "ko"@);
        },
        LanguageTag::KoKr => {
            reveal_strlit("ko-KR");
            reveal_strlit("ko-kr");
            assert(ascii_lower(tag_code(x)) =~= "ko-kr"@);
        },
        LanguageTag::Kok => {
            reveal_strlit("kok");
            assert(ascii_lower(tag_code(x)) =~= "kok"@);
        },
        LanguageTag::KokIn => {
            reveal_strlit("kok-IN");
            reveal_strlit("kok-in");
            assert(ascii_lower(tag_code(x)) =~= "kok-in"@);
        },
        LanguageTag::KuArab => {
            reveal_strlit("ku-Arab");
            reveal_strlit("ku-arab");
            assert(ascii_lower(tag_code(x)) =~= "ku-arab"@);
        },
        LanguageTag::KuArabIq => {
            reveal_strlit("ku-Arab-IQ");
            reveal_strlit("ku-arab-iq");
            assert(ascii_lower(tag_code(x)) =~= "ku-arab-iq"@);
        },
        LanguageTag::KyCyrl => {
            reveal_strlit("ky-Cyrl");
            reveal_strlit("ky-cyrl");
            assert(ascii_lower(tag_code(x)) =~= "ky-cyrl"@);
        },
        LanguageTag::KyKg => {
            reveal_strlit("ky-KG");
            reveal_strlit("ky-kg");
            assert(ascii_lower(tag_code(x)) =~= "ky-kg"@);
        },
        LanguageTag::Lb => {
            reveal_strlit("lb");
            assert(ascii_lower(tag_code(x)) =~= "lb"@);
        },
        LanguageTag::LbLu => {
            reveal_strlit("lb-LU");
            reveal_strlit("lb-lu");
            assert(ascii_lower(tag_code(x)) =~= "lb-lu"@);
        },
        LanguageTag::Lo => {
            reveal_strlit("lo");
            assert(ascii_lower(tag_code(x)) =~= "lo"@);
        },
        LanguageTag::LoLa => {
            reveal_strlit("lo-LA");
            reveal_strlit("lo-la");
            assert(ascii_lower(tag_code(x)) =~= "lo-la"@);
        },
        LanguageTag::Lt => {
            reveal_strlit("lt");
            assert(ascii_lower(tag_code(x)) =~= "lt"@);
        },
        LanguageTag::LtLt => {
            reveal_strlit("lt-LT");
            reveal_strlit("lt-lt");
            assert(ascii_lower(tag_code(x)) =~= "lt-lt"@);
        },
        LanguageTag::Lv => {
            reveal_strlit("lv");
            assert(ascii_lower(tag_code(x)) =~= "lv"@);
        },
        LanguageTag::LvLv => {
            reveal_strlit("lv-LV");
            reveal_strlit("lv-lv");
            assert(ascii_lower(tag_code(x)) =~= "lv-lv"@);
        },
        LanguageTag::Mi => {
            reveal_strlit("mi");
            assert(ascii_lower(tag_code(x)) =~= "mi"@);
        },
        LanguageTag::MiLatn => {
            reveal_strlit("mi-Latn");
            reveal_strlit("mi-latn");
            assert(ascii_lower(tag_code(x)) =~= "mi-latn"@);
        },
        LanguageTag::MiNz => {
            reveal_strlit("mi-NZ");
            reveal_strlit("mi-nz");
            assert(ascii_lower(tag_code(x)) =~= "mi-nz"@);
        },
        LanguageTag::Mk => {
            reveal_strlit("mk");
            assert(ascii_lower(tag_code(x)) =~= "mk"@);
        },
        LanguageTag::MkMk => {
            reveal_strlit("mk-MK");
            reveal_strlit("mk-mk");
            assert(ascii_lower(tag_code(x)) =~= "mk-mk"@);
        },
        LanguageTag::Ml => {
            reveal_strlit("ml");
            assert(ascii_lower(tag_code(x)) =~= "ml"@);
        },
        LanguageTag::MlIn => {
            reveal_strlit("ml-IN");
            reveal_strlit("ml-in");
            assert(ascii_lower(tag_code(x)) =~= "ml-in"@);
        },
        LanguageTag::MnCyrl => {
            reveal_strlit("mn-Cyrl");
            reveal_strlit("mn-cyrl");
            assert(ascii_lower(tag_code(x)) =~= "mn-cyrl"@);
        },
        _ => {},
    }
}

#[verifier::spinoff_prover]
#[verifier::rlimit(40)]
proof fn lemma_tag_rank_part5(x: LanguageTag)
    requires
        x is MnMn || x is MnMong || x is Mr || x is MrIn || x is Ms || x is MsBn || x is MsMy || x is Mt || x is MtMt || x is Nb || x is NbNo || x is Ne || x is NeNp || x is Nl || x is NlBe || x is NlNl || x is Nn || x is NnNo || x is Nso || x is NsoZa || x is Or || x is OrIn || x is Pa || x is PaArab || x is PaArabPk || x is PaDeva || x is PaIn || x is Pl || x is PlPl || x is Prs || x is PrsAf || x is PrsArab || x is Pt || x is PtBr || x is PtPt || x is QucLatn || x is QutGt || x is QutLatn || x is Quz || x is QuzBo || x is QuzEc || x is QuzPe || x is Ro,
    ensures
        tag_by_rank(text_rank(ascii_lower(tag_code(x)))) == Some(x),
{
    match x {
        LanguageTag::MnMn => {
            reveal_strlit("mn-MN");
            reveal_strlit("mn-mn");
            assert(ascii_lower(tag_code(x)) =~= "mn-mn"@);
        },
        LanguageTag::MnMong => {
            reveal_strlit("mn-Mong");
            reveal_strlit("mn-mong");
            assert(ascii_lower(tag_code(x)) =~= "mn-mong"@);
        },
        LanguageTag::Mr => {
            reveal_strlit("mr");
            assert(ascii_lower(tag_code(x)) =~= "mr"@);
        },
        LanguageTag::MrIn => {
            reveal_strlit("mr-IN");
            reveal_strlit("mr-in");
            assert(ascii_lower(tag_code(x)) =~= "mr-in"@);
        },
        LanguageTag::Ms => {
            reveal_strlit("ms");
            assert(ascii_lower(tag_code(x)) =~= "ms"@);
        },
        LanguageTag::MsBn => {
            reveal_strlit("ms-BN");
            reveal_strlit("ms-bn");
            assert(ascii_lower(tag_code(x)) =~= "ms-bn"@);
        },
        LanguageTag::MsMy => {
            reveal_strlit("ms-MY");
            reveal_strlit("ms-my");
            assert(ascii_lower(tag_code(x)) =~= "ms-my"@);
        },
        LanguageTag::Mt => {
            reveal_strlit("mt");
            assert(ascii_lower(tag_code(x)) =~= "mt"@);
        },
        LanguageTag::MtMt => {
            reveal_strlit("mt-MT");
            reveal_strlit("mt-mt");
            assert(ascii_lower(tag_code(x)) =~= "mt-mt"@);
        },
        LanguageTag::Nb => {
            reveal_strlit("nb");
            assert(ascii_lower(tag_code(x)) =~= "nb"@);
        },
        LanguageTag::NbNo => {
            reveal_strlit("nb-NO");
            reveal_strlit("nb-no");
            assert(ascii_lower(tag_code(x)) =~= "nb-no"@);
        },
        LanguageTag::Ne => {
            reveal_strlit("ne");
            assert(ascii_lower(tag_code(x)) =~= "ne"@);
        },
        LanguageTag::NeNp => {
            reveal_strlit("ne-NP");
            reveal_strlit("ne-np");
            assert(ascii_lower(tag_code(x)) =~= "ne-np"@);
        },
        LanguageTag::Nl => {
            reveal_strlit("nl");
            assert(ascii_lower(tag_code(x)) =~= "nl"@);
        },
        LanguageTag::NlBe => {
            reveal_strlit("nl-BE");
            reveal_strlit("nl-be");
            assert(ascii_lower(tag_code(x)) =~= "nl-be"@);
        },
        LanguageTag::NlNl => {
            reveal_strlit("nl-NL");
            reveal_strlit("nl-nl");
            assert(ascii_lower(tag_code(x)) =~= "nl-nl"@);
        },
        LanguageTag::Nn => {
            reveal_strlit("nn");
            assert(ascii_lower(tag_code(x)) =~= "nn"@);
        },
        LanguageTag::NnNo => {
            reveal_strlit("nn-NO");
            reveal_strlit("nn-no");
            assert(ascii_lower(tag_code(x)) =~= "nn-no"@);
        },
        LanguageTag::Nso => {
            reveal_strlit("nso");
            assert(ascii_lower(tag_code(x)) =~= "nso"@);
        },
        LanguageTag::NsoZa => {
            reveal_strlit("nso-ZA");
            reveal_strlit("nso-za");
            assert(ascii_lower(tag_code(x)) =~= "nso-za"@);
        },
        LanguageTag::Or => {
            reveal_strlit("or");
            assert(ascii_lower(tag_code(x)) =~= "or"@);
        },
        LanguageTag::OrIn => {
            reveal_strlit("or-IN");
            reveal_strlit("or-in");
            assert(ascii_lower(tag_code(x)) =~= "or-in"@);
        },
        LanguageTag::Pa => {
            reveal_strlit("pa");
            assert(ascii_lower(tag_code(x)) =~= "pa"@);
        },
        LanguageTag::PaArab => {
            reveal_strlit("pa-Arab");
            reveal_strlit("pa-arab");
            assert(ascii_lower(tag_code(x)) =~= "pa-arab"@);
        },
        LanguageTag::PaArabPk => {
            reveal_strlit("pa-Arab-PK");
            reveal_strlit("pa-arab-pk");
            assert(ascii_lower(tag_code(x)) =~= "pa-arab-pk"@);
        },
        LanguageTag::PaDeva => {
            reveal_strlit("pa-Deva");
            reveal_strlit("pa-deva");
            assert(ascii_lower(tag_code(x)) =~= "pa-deva"@);
        },
        LanguageTag::PaIn => {
            reveal_strlit("pa-IN");
            reveal_strlit("pa-in");
            assert(ascii_lower(tag_code(x)) =~= "pa-in"@);
        },
        LanguageTag::Pl => {
            reveal_strlit("pl");
            assert(ascii_lower(tag_code(x)) =~= "pl"@);
        },
        LanguageTag::PlPl => {
            reveal_strlit("pl-PL");
            reveal_strlit("pl-pl");
            assert(ascii_lower(tag_code(x)) =~= "pl-pl"@);
        },
        LanguageTag::Prs => {
            reveal_strlit("prs");
            assert(ascii_lower(tag_code(x)) =~= "prs"@);
        },
        LanguageTag::PrsAf => {
            reveal_strlit("prs-AF");
            reveal_strlit("prs-af");
            assert(ascii_lower(tag_code(x)) =~= "prs-af"@);
        },
        LanguageTag::PrsArab => {
            reveal_strlit("prs-Arab");
            reveal_strlit("prs-arab");
            assert(ascii_lower(tag_code(x)) =~= "prs-arab"@);
        },
        LanguageTag::Pt => {
            reveal_strlit("pt");
            assert(ascii_lower(tag_code(x)) =~= "pt"@);
        },
        LanguageTag::PtBr => {
            reveal_strlit("pt-BR");
            reveal_strlit("pt-br");
            assert(ascii_lower(tag_code(x)) =~= "pt-br"@);
        },
        LanguageTag::PtPt => {
            reveal_strlit("pt-PT");
            reveal_strlit("pt-pt");
            assert(ascii_lower(tag_code(x)) =~= "pt-pt"@);
        },
        LanguageTag::QucLatn => {
            reveal_strlit("quc-Latn");
            reveal_strlit("quc-latn");
            assert(ascii_lower(tag_code(x)) =~= "quc-latn"@);
        },
        LanguageTag::QutGt => {
            reveal_strlit("qut-GT");
            reveal_strlit("qut-gt");
            assert(ascii_lower(tag_code(x)) =~= "qut-gt"@);
        },
        LanguageTag::QutLatn => {
            reveal_strlit("qut-Latn");
            reveal_strlit("qut-latn");
            assert(ascii_lower(tag_code(x)) =~= "qut-latn"@);
        },
        LanguageTag::Quz => {
            reveal_strlit("quz");
            assert(ascii_lower(tag_code(x)) =~= "quz"@);
        },
        LanguageTag::QuzBo => {
            reveal_strlit("quz-BO");
            reveal_strlit("quz-bo");
            assert(ascii_lower(tag_code(x)) =~= "quz-bo"@);
        },
        LanguageTag::QuzEc => {
            reveal_strlit("quz-EC");
            reveal_strlit("quz-ec");
            assert(ascii_lower(tag_code(x)) =~= "quz-ec"@);
        },
        LanguageTag::QuzPe => {
            reveal_strlit("quz-PE");
            reveal_strlit("quz-pe");
            assert(ascii_lower(tag_code(x)) =~= "quz-pe"@);
        },
        LanguageTag::Ro => {
            reveal_strlit("ro");
            assert(ascii_lower(tag_code(x)) =~= "ro"@);
        },
        _ => {},
    }
}

#[verifier::spinoff_prover]
#[verifier::rlimit(40)]
proof fn lemma_tag_rank_part6(x: LanguageTag)
    requires
        x is RoRo || x is Ru || x is RuRu || x is Rw || x is RwRw || x is SdArab || x is SdArabPk || x is SdDeva || x is Si || x is SiLk || x is Sk || x is SkSk || x is Sl || x is SlSi || x is Sq || x is SqAl || x is SrCyrl || x is SrCyrlBa || x is SrCyrlCs || x is SrCyrlMe || x is SrCyrlRs || x is SrLatn || x is SrLatnBa || x is SrLatnCs || x is SrLatnMe || x is SrLatnRs || x is Sv || x is SvFi || x is SvSe || x is Sw || x is SwKe || x is Ta || x is TaIn || x is Te || x is TeIn || x is TgArab || x is TgCyrl || x is TgCyrlTj || x is TgLatn || x is Th || x is ThTh || x is Ti || x is TiEt,
    ensures
        tag_by_rank(text_rank(ascii_lower(tag_code(x)))) == Some(x),
{
    match x {
        LanguageTag::RoRo => {
            reveal_strlit("ro-RO");
            reveal_strlit("ro-ro");
            assert(ascii_lower(tag_code(x)) =~= "ro-ro"@);
        },
        LanguageTag::Ru => {
            reveal_strlit("ru");
            assert(ascii_lower(tag_code(x)) =~= "ru"@);
        },
        LanguageTag::RuRu => {
            reveal_strlit("ru-RU");
            reveal_strlit("ru-ru");
            assert(ascii_lower(tag_code(x)) =~= "ru-ru"@);
        },
        LanguageTag::Rw => {
            reveal_strlit("rw");
            assert(ascii_lower(tag_code(x)) =~= "rw"@);
        },
        LanguageTag::RwRw => {
            reveal_strlit("rw-RW");
            reveal_strlit("rw-rw");
            assert(ascii_lower(tag_code(x)) =~= "rw-rw"@);
        },
        LanguageTag::SdArab => {
            reveal_strlit("sd-Arab");
            reveal_strlit("sd-arab");
            assert(ascii_lower(tag_code(x)) =~= "sd-arab"@);
        },
        LanguageTag::SdArabPk => {
            reveal_strlit("sd-Arab-PK");
            reveal_strlit("sd-arab-pk");
            assert(ascii_lower(tag_code(x)) =~= "sd-arab-pk"@);
        },
        LanguageTag::SdDeva => {
            reveal_strlit("sd-Deva");
            reveal_strlit("sd-deva");
            assert(ascii_lower(tag_code(x)) =~= "sd-deva"@);
        },
        LanguageTag::Si => {
            reveal_strlit("si");
            assert(ascii_lower(tag_code(x)) =~= "si"@);
        },
        LanguageTag::SiLk => {
            reveal_strlit("si-LK");
            reveal_strlit("si-lk");
            assert(ascii_lower(tag_code(x)) =~= "si-lk"@);
        },
        LanguageTag::Sk => {
            reveal_strlit("sk");
            assert(ascii_lower(tag_code(x)) =~= "sk"@);
        },
        LanguageTag::SkSk => {
            reveal_strlit("sk-SK");
            reveal_strlit("sk-sk");
            assert(ascii_lower(tag_code(x)) =~= "sk-sk"@);
        },
        LanguageTag::Sl => {
            reveal_strlit("sl");
            assert(ascii_lower(tag_code(x)) =~= "sl"@);
        },
        LanguageTag::SlSi => {
            reveal_strlit("sl-SI");
            reveal_strlit("sl-si");
            assert(ascii_lower(tag_code(x)) =~= "sl-si"@);
        },
        LanguageTag::Sq => {
            reveal_strlit("sq");
            assert(ascii_lower(tag_code(x)) =~= "sq"@);
        },
        LanguageTag::SqAl => {
            reveal_strlit("sq-AL");
            reveal_strlit("sq-al");
            assert(ascii_lower(tag_code(x)) =~= "sq-al"@);
        },
        LanguageTag::SrCyrl => {
            reveal_strlit("sr-Cyrl");
            reveal_strlit("sr-cyrl");
            assert(ascii_lower(tag_code(x)) =~= "sr-cyrl"@);
        },
        LanguageTag::SrCyrlBa => {
            reveal_strlit("sr-Cyrl-BA");
            reveal_strlit("sr-cyrl-ba");
            assert(ascii_lower(tag_code(x)) =~= "sr-cyrl-ba"@);
        },
        LanguageTag::SrCyrlCs => {
            reveal_strlit("sr-Cyrl-CS");
            reveal_strlit("sr-cyrl-cs");
            assert(ascii_lower(tag_code(x)) =~= "sr-cyrl-cs"@);
        },
        LanguageTag::SrCyrlMe => {
            reveal_strlit("sr-Cyrl-ME");
            reveal_strlit("sr-cyrl-me");
            assert(ascii_lower(tag_code(x)) =~= "sr-cyrl-me"@);
        },
        LanguageTag::SrCyrlRs => {
            reveal_strlit("sr-Cyrl-RS");
            reveal_strlit("sr-cyrl-rs");
            assert(ascii_lower(tag_code(x)) =~= "sr-cyrl-rs"@);
        },
        LanguageTag::SrLatn => {
            reveal_strlit("sr-Latn");
            reveal_strlit("sr-latn");
            assert(ascii_lower(tag_code(x)) =~= "sr-latn"@);
        },
        LanguageTag::SrLatnBa => {
            reveal_strlit("sr-Latn-BA");
            reveal_strlit("sr-latn-ba");
            assert(ascii_lower(tag_code(x)) =~= "sr-latn-ba"@);
        },
        LanguageTag::SrLatnCs => {
            reveal_strlit("sr-Latn-CS");
            reveal_strlit("sr-latn-cs");
            assert(ascii_lower(tag_code(x)) =~= "sr-latn-cs"@);
        },
        LanguageTag::SrLatnMe => {
            reveal_strlit("sr-Latn-ME");
            reveal_strlit("sr-latn-me");
            assert(ascii_lower(tag_code(x)) =~= "sr-latn-me"@);
        },
        LanguageTag::SrLatnRs => {
            reveal_strlit("sr-Latn-RS");
            reveal_strlit("sr-latn-rs");
            assert(ascii_lower(tag_code(x)) =~= "sr-latn-rs"@);
        },
        LanguageTag::Sv => {
            reveal_strlit("sv");
            assert(ascii_lower(tag_code(x)) =~= "sv"@);
        },
        LanguageTag::SvFi => {
            reveal_strlit("sv-FI");
            reveal_strlit("sv-fi");
            assert(ascii_lower(tag_code(x)) =~= "sv-fi"@);
        },
        LanguageTag::SvSe => {
            reveal_strlit("sv-SE");
            reveal_strlit("sv-se");
            assert(ascii_lower(tag_code(x)) =~= "sv-se"@);
        },
        LanguageTag::Sw => {
            reveal_strlit("sw");
            assert(ascii_lower(tag_code(x)) =~= "sw"@);
        },
        LanguageTag::SwKe => {
            reveal_strlit("sw-KE");
            reveal_strlit("sw-ke");
            assert(ascii_lower(tag_code(x)) =~= "sw-ke"@);
        },
        LanguageTag::Ta => {
            reveal_strlit("ta");
            assert(ascii_lower(tag_code(x)) =~= "ta"@);
        },
        LanguageTag::TaIn => {
            reveal_strlit("ta-IN");
            reveal_strlit("ta-in");
            assert(ascii_lower(tag_code(x)) =~= "ta-in"@);
        },
        LanguageTag::Te => {
            reveal_strlit("te");
            assert(ascii_lower(tag_code(x)) =~= "te"@);
        },
        LanguageTag::TeIn => {
            reveal_strlit("te-IN");
            reveal_strlit("te-in");
            assert(ascii_lower(tag_code(x)) =~= "te-in"@);
        },
        LanguageTag::TgArab => {
            reveal_strlit("tg-Arab");
            reveal_strlit("tg-arab");
            assert(ascii_lower(tag_code(x)) =~= "tg-arab"@);
        },
        LanguageTag::TgCyrl => {
            reveal_strlit("tg-Cyrl");
            reveal_strlit("tg-cyrl");
            assert(ascii_lower(tag_code(x)) =~= "tg-cyrl"@);
        },
        LanguageTag::TgCyrlTj => {
            reveal_strlit("tg-Cyrl-TJ");
            reveal_strlit("tg-cyrl-tj");
            assert(ascii_lower(tag_code(x)) =~= "tg-cyrl-tj"@);
        },
        LanguageTag::TgLatn => {
            reveal_strlit("tg-Latn");
            reveal_strlit("tg-latn");
            assert(ascii_lower(tag_code(x)) =~= "tg-latn"@);
        },
        LanguageTag::Th => {
            reveal_strlit("th");
            assert(ascii_lower(tag_code(x)) =~= "th"@);
        },
        LanguageTag::ThTh => {
            reveal_strlit("th-TH");
            reveal_strlit("th-th");
            assert(ascii_lower(tag_code(x)) =~= "th-th"@);
        },
        LanguageTag::Ti => {
            reveal_strlit("ti");
            assert(ascii_lower(tag_code(x)) =~= "ti"@);
        },
        LanguageTag::TiEt => {
            reveal_strlit("ti-ET");
            reveal_strlit("ti-et");
            assert(ascii_lower(tag_code(x)) =~= "ti-et"@);
        },
        _ => {},
    }
}

#[verifier::spinoff_prover]
#[verifier::rlimit(40)]
proof fn lemma_tag_rank_part7(x: LanguageTag)
    requires
        x is TkCyrl || x is TkCyrlTr || x is TkLatn || x is TkLatnTr || x is TkTm || x is Tn || x is TnBw || x is TnZa || x is Tr || x is TrTr || x is TtArab || x is TtCyrl || x is TtLatn || x is TtRu || x is UgArab || x is UgCn || x is UgCyrl || x is UgLatn || x is Uk || x is UkUa || x is Ur || x is UrPk || x is Uz || x is UzCyrl || x is UzLatn || x is UzLatnUz || x is Vi || x is ViVn || x is Wo || x is WoSn || x is Xh || x is XhZa || x is YoLatn || x is YoNg || x is ZhHans || x is ZhHansCn || x is ZhHansSg || x is ZhHant || x is ZhHantHk || x is ZhHantMo || x is ZhHantTw || x is Zu || x is ZuZa,
    ensures
        tag_by_rank(text_rank(ascii_lower(tag_code(x)))) == Some(x),
{
    match x {
        LanguageTag::TkCyrl => {
            reveal_strlit("tk-Cyrl");
            reveal_strlit("tk-cyrl");
            assert(ascii_lower(tag_code(x)) =~= "tk-cyrl"@);
        },
        LanguageTag::TkCyrlTr => {
            reveal_strlit("tk-Cyrl-TR");
            reveal_strlit("tk-cyrl-tr");
            assert(ascii_lower(tag_code(x)) =~= "tk-cyrl-tr"@);
        },
        LanguageTag::TkLatn => {
            reveal_strlit("tk-Latn");
            reveal_strlit("tk-latn");
            assert(ascii_lower(tag_code(x)) =~= "tk-latn"@);
        },
        LanguageTag::TkLatnTr => {
            reveal_strlit("tk-Latn-TR");
            reveal_strlit("tk-latn-tr");
            assert(ascii_lower(tag_code(x)) =~= "tk-latn-tr"@);
        },
        LanguageTag::TkTm => {
            reveal_strlit("tk-TM");
            reveal_strlit("tk-tm");
            assert(ascii_lower(tag_code(x)) =~= "tk-tm"@);
        },
        LanguageTag::Tn => {
            reveal_strlit("tn");
            assert(ascii_lower(tag_code(x)) =~= "tn"@);
        },
        LanguageTag::TnBw => {
            reveal_strlit("tn-BW");
            reveal_strlit("tn-bw");
            assert(ascii_lower(tag_code(x)) =~= "tn-bw"@);
        },
        LanguageTag::TnZa => {
            reveal_strlit("tn-ZA");
            reveal_strlit("tn-za");
            assert(ascii_lower(tag_code(x)) =~= "tn-za"@);
        },
        LanguageTag::Tr => {
            reveal_strlit("tr");
            assert(ascii_lower(tag_code(x)) =~= "tr"@);
        },
        LanguageTag::TrTr => {
            reveal_strlit("tr-TR");
            reveal_strlit("tr-tr");
            assert(ascii_lower(tag_code(x)) =~= "tr-tr"@);
        },
        LanguageTag::TtArab => {
            reveal_strlit("tt-Arab");
            reveal_strlit("tt-arab");
            assert(ascii_lower(tag_code(x)) =~= "tt-arab"@);
        },
        LanguageTag::TtCyrl => {
            reveal_strlit("tt-Cyrl");
            reveal_strlit("tt-cyrl");
            assert(ascii_lower(tag_code(x)) =~= "tt-cyrl"@);
        },
        LanguageTag::TtLatn => {
            reveal_strlit("tt-Latn");
            reveal_strlit("tt-latn");
            assert(ascii_lower(tag_code(x)) =~= "tt-latn"@);
        },
        LanguageTag::TtRu => {
            reveal_strlit("tt-RU");
            reveal_strlit("tt-ru");
            assert(ascii_lower(tag_code(x)) =~= "tt-ru"@);
        },
        LanguageTag::UgArab => {
            reveal_strlit("ug-Arab");
            reveal_strlit("ug-arab");
            assert(ascii_lower(tag_code(x)) =~= "ug-arab"@);
        },
        LanguageTag::UgCn => {
            reveal_strlit("ug-CN");
            reveal_strlit("ug-cn");
            assert(ascii_lower(tag_code(x)) =~= "ug-cn"@);
        },
        LanguageTag::UgCyrl => {
            reveal_strlit("ug-Cyrl");
            reveal_strlit("ug-cyrl");
            assert(ascii_lower(tag_code(x)) =~= "ug-cyrl"@);
        },
        LanguageTag::UgLatn => {
            reveal_strlit("ug-Latn");
            reveal_strlit("ug-latn");
            assert(ascii_lower(tag_code(x)) =~= "ug-latn"@);
        },
        LanguageTag::Uk => {
            reveal_strlit("uk");
            assert(ascii_lower(tag_code(x)) =~= "uk"@);
        },
        LanguageTag::UkUa => {
            reveal_strlit("uk-UA");
            reveal_strlit("uk-ua");
            assert(ascii_lower(tag_code(x)) =~= "uk-ua"@);
        },
        LanguageTag::Ur => {
            reveal_strlit("ur");
            assert(ascii_lower(tag_code(x)) =~= "ur"@);
        },
        LanguageTag::UrPk => {
            reveal_strlit("ur-PK");
            reveal_strlit("ur-pk");
            assert(ascii_lower(tag_code(x)) =~= "ur-pk"@);
        },
        LanguageTag::Uz => {
            reveal_strlit("uz");
            assert(ascii_lower(tag_code(x)) =~= "uz"@);
        },
        LanguageTag::UzCyrl => {
            reveal_strlit("uz-Cyrl");
            reveal_strlit("uz-cyrl");
            assert(ascii_lower(tag_code(x)) =~= "uz-cyrl"@);
        },
        LanguageTag::UzLatn => {
            reveal_strlit("uz-Latn");
            reveal_strlit("uz-latn");
            assert(ascii_lower(tag_code(x)) =~= "uz-latn"@);
        },
        LanguageTag::UzLatnUz => {
            reveal_strlit("uz-Latn-UZ");
            reveal_strlit("uz-latn-uz");
            assert(ascii_lower(tag_code(x)) =~= "uz-latn-uz"@);
        },
        LanguageTag::Vi => {
            reveal_strlit("vi");
            assert(ascii_lower(tag_code(x)) =~= "vi"@);
        },
        LanguageTag::ViVn => {
            reveal_strlit("vi-VN");
            reveal_strlit("vi-vn");
            assert(ascii_lower(tag_code(x)) =~= "vi-vn"@);
        },
        LanguageTag::Wo => {
            reveal_strlit("wo");
            assert(ascii_lower(tag_code(x)) =~= "wo"@);
        },
        LanguageTag::WoSn => {
            reveal_strlit("wo-SN");
            reveal_strlit("wo-sn");
            assert(ascii_lower(tag_code(x)) =~= "wo-sn"@);
        },
        LanguageTag::Xh => {
            reveal_strlit("xh");
            assert(ascii_lower(tag_code(x)) =~= "xh"@);
        },
        LanguageTag::XhZa => {
            reveal_strlit("xh-ZA");
            reveal_strlit("xh-za");
            assert(ascii_lower(tag_code(x)) =~= "xh-za"@);
        },
        LanguageTag::YoLatn => {
            reveal_strlit("yo-Latn");
            reveal_strlit("yo-latn");
            assert(ascii_lower(tag_code(x)) =~= "yo-latn"@);
        },
        LanguageTag::YoNg => {
            reveal_strlit("yo-NG");
            reveal_strlit("yo-ng");
            assert(ascii_lower(tag_code(x)) =~= "yo-ng"@);
        },
        LanguageTag::ZhHans => {
            reveal_strlit("zh-Hans");
            reveal_strlit("zh-hans");
            assert(ascii_lower(tag_code(x)) =~= "zh-hans"@);
        },
        LanguageTag::ZhHansCn => {
            reveal_strlit("zh-Hans-CN");
            reveal_strlit("zh-hans-cn");
            assert(ascii_lower(tag_code(x)) =~= "zh-hans-cn"@);
        },
        LanguageTag::ZhHansSg => {
            reveal_strlit("zh-Hans-SG");
            reveal_strlit("zh-hans-sg");
            assert(ascii_lower(tag_code(x)) =~= "zh-hans-sg"@);
        },
        LanguageTag::ZhHant => {
            reveal_strlit("zh-Hant");
            reveal_strlit("zh-hant");
            assert(ascii_lower(tag_code(x)) =~= "zh-hant"@);
        },
        LanguageTag::ZhHantHk => {
            reveal_strlit("zh-Hant-HK");
            reveal_strlit("zh-hant-hk");
            assert(ascii_lower(tag_code(x)) =~= "zh-hant-hk"@);
        },
        LanguageTag::ZhHantMo => {
            reveal_strlit("zh-Hant-MO");
            reveal_strlit("zh-hant-mo");
            assert(ascii_lower(tag_code(x)) =~= "zh-hant-mo"@);
        },
        LanguageTag::ZhHantTw => {
            reveal_strlit("zh-Hant-TW");
            reveal_strlit("zh-hant-tw");
            assert(ascii_lower(tag_code(x)) =~= "zh-hant-tw"@);
        },
        LanguageTag::Zu => {
            reveal_strlit("zu");
            assert(ascii_lower(tag_code(x)) =~= "zu"@);
        },
        LanguageTag::ZuZa => {
            reveal_strlit("zu-ZA");
            reveal_strlit("zu-za");
            assert(ascii_lower(tag_code(x)) =~= "zu-za"@);
        },
        _ => {},
    }
}

proof fn lemma_tag_rank(x: LanguageTag)
    ensures
        tag_by_rank(text_rank(ascii_lower(tag_code(x)))) == Some(x),
{
    if x is Af || x is AfZa || x is Am || x is AmEt || x is Ar || x is ArAe || x is ArBh || x is ArDz || x is ArEg || x is ArIq || x is ArJo || x is ArKw || x is ArLb || x is ArLy || x is ArMa || x is ArOm || x is ArQa || x is ArSa || x is ArSy || x is ArTn || x is ArYe || x is As || x is AsIn || x is Az || x is AzArab || x is AzArabAz || x is AzCyrl || x is AzCyrlAz || x is AzLatn || x is AzLatnAz || x is Be || x is BeBy || x is Bg || x is BgBg || x is Bn || x is BnBd || x is BnIn || x is Bs || x is BsCyrl || x is BsCyrlBa || x is BsLatn || x is BsLatnBa || x is Ca {
        lemma_tag_rank_part0(x);
    } else if x is CaEs || x is CaEsValencia || x is ChrCher || x is ChrCherUs || x is ChrLatn || x is Co || x is Cs || x is CsCz || x is Cy || x is CyGb || x is Da || x is DaDk || x is De || x is DeAt || x is DeCh || x is DeDe || x is DeLi || x is DeLu || x is El || x is ElGr || x is En || x is En011 || x is En014 || x is En018 || x is En021 || x is En029 || x is En053 || x is EnAu || x is EnBz || x is EnCa || x is EnGb || x is EnHk || x is EnId || x is EnIe || x is EnIn || x is EnJm || x is EnKz || x is EnMt || x is EnMy || x is EnNz || x is EnPh || x is EnPk || x is EnSg {
        lemma_tag_rank_part1(x);
    } else if x is EnTt || x is EnUs || x is EnVn || x is EnZa || x is EnZw || x is Es || x is Es019 || x is Es419 || x is EsAr || x is EsBo || x is EsCl || x is EsCo || x is EsCr || x is EsDo || x is EsEc || x is EsEs || x is EsGt || x is EsHn || x is EsMx || x is EsNi || x is EsPa || x is EsPe || x is EsPr || x is EsPy || x is EsSv || x is EsUs || x is EsUy || x is EsVe || x is Et || x is EtEe || x is Eu || x is EuEs || x is Fa || x is FaIr || x is Fi || x is FiFi || x is Fil || x is FilLatn || x is FilPh || x is Fr || x is Fr011 || x is Fr015 || x is Fr021 {
        lemma_tag_rank_part2(x);
    } else if x is Fr029 || x is Fr155 || x is FrBe || x is FrCa || x is FrCd || x is FrCh || x is FrCi || x is FrCm || x is FrFr || x is FrHt || x is FrLu || x is FrMa || x is FrMc || x is FrMl || x is FrRe || x is FrcLatn || x is FrpLatn || x is Ga || x is GaIe || x is Gd || x is GdGb || x is GdLatn || x is Gl || x is GlEs || x is Gu || x is GuIn || x is Ha || x is HaLatn || x is HaLatnNg || x is He || x is HeIl || x is Hi || x is HiIn || x is Hr || x is HrBa || x is HrHr || x is Hu || x is HuHu || x is Hy || x is HyAm || x is Id || x is IdId || x is IgLatn {
        lemma_tag_rank_part3(x);
    } else if x is IgNg || x is Is || x is IsIs || x is It || x is ItCh || x is ItIt || x is IuCans || x is IuLatn || x is IuLatnCa || x is Ja || x is JaJp || x is Ka || x is KaGe || x is Kk || x is KkKz || x is Km || x is KmKh || x is Kn || x is KnIn || x is Ko || x is KoKr || x is Kok || x is KokIn || x is KuArab || x is KuArabIq || x is KyCyrl || x is KyKg || x is Lb || x is LbLu || x is Lo || x is LoLa || x is Lt || x is LtLt || x is Lv || x is LvLv || x is Mi || x is MiLatn || x is MiNz || x is Mk || x is MkMk || x is Ml || x is MlIn || x is MnCyrl {
        lemma_tag_rank_part4(x);
    } else if x is MnMn || x is MnMong || x is Mr || x is MrIn || x is Ms || x is MsBn || x is MsMy || x is Mt || x is MtMt || x is Nb || x is NbNo || x is Ne || x is NeNp || x is Nl || x is NlBe || x is NlNl || x is Nn || x is NnNo || x is Nso || x is NsoZa || x is Or || x is OrIn || x is Pa || x is PaArab || x is PaArabPk || x is PaDeva || x is PaIn || x is Pl || x is PlPl || x is Prs || x is PrsAf || x is PrsArab || x is Pt || x is PtBr || x is PtPt || x is QucLatn || x is QutGt || x is QutLatn || x is Quz || x is QuzBo || x is QuzEc || x is QuzPe || x is Ro {
        lemma_tag_rank_part5(x);
    } else if x is RoRo || x is Ru || x is RuRu || x is Rw || x is RwRw || x is SdArab || x is SdArabPk || x is SdDeva || x is Si || x is SiLk || x is Sk || x is SkSk || x is Sl || x is SlSi || x is Sq || x is SqAl || x is SrCyrl || x is SrCyrlBa || x is SrCyrlCs || x is SrCyrlMe || x is SrCyrlRs || x is SrLatn || x is SrLatnBa || x is SrLatnCs || x is SrLatnMe || x is SrLatnRs || x is Sv || x is SvFi || x is SvSe || x is Sw || x is SwKe || x is Ta || x is TaIn || x is Te || x is TeIn || x is TgArab || x is TgCyrl || x is TgCyrlTj || x is TgLatn || x is Th || x is ThTh || x is Ti || x is TiEt {
        lemma_tag_rank_part6(x);
    } else {
        lemma_tag_rank_part7(x);
    }
}

/// Two tags whose codes agree but for ASCII case are the same tag, so
/// reading a tag's code back, in any case, gives the tag.
pub proof fn lemma_tag_code_reads_back(x: LanguageTag, y: LanguageTag)
    ensures
        ascii_lower(tag_code(y)) == ascii_lower(tag_code(x)) ==> y == x,
{
    lemma_tag_rank(x);
    lemma_tag_rank(y);
}

} // verus!
