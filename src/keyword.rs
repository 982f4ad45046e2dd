//! Clause tags, statement kinds and the enumerations that render as
//! fixed SQL words.
use vstd::prelude::*;

verus! {

/// The record of which clause an operation appended.
#[derive(Clone, Copy, Debug, PartialEq, Eq, Structural)]
pub enum KeywordList {
    Select, Update, Delete, Insert, Count, Table, Where, Or, And, SetClause,
    Finish, OrderBy, GroupBy, Having, Like, Limit, Offset, IfNotExist, Create, Use, WhereIn,
    WhereNotIn, AndIn, AndNotIn, OrIn, OrNotIn, JsonExtract, JsonContains, NotJsonContains,
    JsonArrayAppend, JsonRemove, JsonSet, JsonReplace, Field, Union, UnionAll, Timezone,
    GlobalTimezone, InnerJoin, LeftJoin, RightJoin, LeftBracketWhere, LeftBracketAnd,
    LeftBracketOr, RightBracket,
}

/// The kind of statement a composer builds; fixed at construction.
#[derive(Clone, Copy, Debug, PartialEq, Eq, Structural)]
pub enum QueryType {
    Select, Update, Delete, Insert, Null, Create, Count,
}

/// The keyword that opens a parenthesised group.
#[derive(Clone, Copy, Debug, PartialEq, Eq, Structural)]
pub enum BracketType {
    Where, And, Or,
}

pub open spec fn bracket_text(b: BracketType) -> Seq<char> {
    match b {
        BracketType::Where => "WHERE"@,
        BracketType::And => "AND"@,
        BracketType::Or => "OR"@,
    }
}

impl BracketType {
    pub fn to_string(&self) -> (r: String)
        ensures
            r@ == bracket_text(*self),
    {
        match self {
            BracketType::Where => String::from_str("WHERE"),
            BracketType::And => String::from_str("AND"),
            BracketType::Or => String::from_str("OR"),
        }
    }
}

/// What a foreign key does when the row it points at changes.
#[derive(Clone, Copy, Debug, PartialEq, Eq, Structural)]
pub enum ForeignKeyActions {
    Cascade, Restrict, SetNull, NoAction, SetDefault,
}

pub open spec fn action_text(a: ForeignKeyActions) -> Seq<char> {
    match a {
        ForeignKeyActions::Cascade => "CASCADE"@,
        ForeignKeyActions::NoAction => "NO ACTION"@,
        ForeignKeyActions::Restrict => "RESTRICT"@,
        ForeignKeyActions::SetNull => "SET NULL"@,
        ForeignKeyActions::SetDefault => "SET DEFAULT"@,
    }
}

impl ForeignKeyActions {
    pub fn to_string(&self) -> (r: String)
        ensures
            r@ == action_text(*self),
    {
        match self {
            ForeignKeyActions::Cascade => String::from_str("CASCADE"),
            ForeignKeyActions::NoAction => String::from_str("NO ACTION"),
            ForeignKeyActions::Restrict => String::from_str("RESTRICT"),
            ForeignKeyActions::SetNull => String::from_str("SET NULL"),
            ForeignKeyActions::SetDefault => String::from_str("SET DEFAULT"),
        }
    }
}

/// A time zone that a statement can be prefixed with.
#[derive(Clone, Copy, Debug, PartialEq, Eq, Structural)]
pub enum Timezone {
    System,
    Istanbul,
    Moscow,
    Kaliningrad,
    Samara,
    Ekaterinburg,
    Omsk,
    Krasnoyarsk,
    Irkutsk,
    Yakutsk,
    Vladivostok,
    Magadan,
    Kamchatka,
    Shanghai,
    London,
    Paris,
    Berlin,
    Madrid,
    Rome,
    Amsterdam,
    Stockholm,
    Oslo,
    Helsinki,
    Athens,
    NewYork,
    Chicago,
    Denver,
    LosAngeles,
    Anchorage,
    Honolulu,
    PuertoRico,
    Riyadh,
    Dubai,
    Qatar,
    Kuwait,
    Bahrain,
    Muscat,
    Aden,
    Baghdad,
    Amman,
    Beirut,
    Damascus,
    Gaza,
    Hebron,
    Cairo,
    Khartoum,
    Tripoli,
    Tunis,
    BuenosAires,
    LaPaz,
    SaoPaulo,
    Manaus,
    Recife,
    Cuiaba,
    PortoVelho,
    Santiago,
    Easter,
    Bogota,
    Guayaquil,
    Galapagos,
    Guyana,
    Asuncion,
    Lima,
    Paramaribo,
    Montevideo,
    Caracas,
    StJohns,
    Halifax,
    Toronto,
    Winnipeg,
    Edmonton,
    Vancouver,
    WhiteHorse,
    MexicoCity,
    Mazatlan,
    Chihuahua,
    Tijuana,
    Cancun,
    Belize,
    CostaRica,
    ElSalvador,
    Guatemala,
    Tegucigalpa,
    Managua,
    Panama,
    Apia,
    Auckland,
    Bougainville,
    Chatham,
    Efate,
    Enderbury,
    Fakaofo,
    Fiji,
    Funafuti,
    Gambier,
    Guadalcanal,
    Guam,
    Johnston,
    Kanton,
    Kiritimati,
    Kosrae,
    Kwajalein,
    Majuro,
    Marquesas,
    Midway,
    Nauru,
    Niue,
    Norfolk,
    Noumea,
    PagoPago,
    Palau,
    Pitcairn,
    Pohnpei,
    PortMoresby,
    Saipan,
    Rarotonga,
    Tahiti,
    Tarawa,
    Truk,
    Wake,
    Wallis,
    Yap,
    Tongatapu,
}

/// The name under which the database knows the time zone.
pub open spec fn timezone_text(t: Timezone) -> Seq<char> {
    match t {
        Timezone::System => "SYSTEM"@,
        Timezone::Istanbul => "Europe/Istanbul"@,
        Timezone::Moscow => "Europe/Moscow"@,
        Timezone::Kaliningrad => "Europe/Kaliningrad"@,
        Timezone::Samara => "Europe/Samara"@,
        Timezone::Ekaterinburg => "Asia/Yekaterinburg"@,
        Timezone::Omsk => "Asia/Omsk"@,
        Timezone::Krasnoyarsk => "Asia/Krasnoyarsk"@,
        Timezone::Irkutsk => "Asia/Irkutsk"@,
        Timezone::Yakutsk => "Asia/Yakutsk"@,
        Timezone::Vladivostok => "Asia/Vladivostok"@,
        Timezone::Magadan => "Asia/Magadan"@,
        Timezone::Kamchatka => "Asia/Kamchatka"@,
        Timezone::Shanghai => "Asia/Shanghai"@,
        Timezone::London => "Europe/London"@,
        Timezone::Paris => "Europe/Paris"@,
        Timezone::Berlin => "Europe/Berlin"@,
        Timezone::Madrid => "Europe/Madrid"@,
        Timezone::Rome => "Europe/Rome"@,
        Timezone::Amsterdam => "Europe/Amsterdam"@,
        Timezone::Stockholm => "Europe/Stockholm"@,
        Timezone::Oslo => "Europe/Oslo"@,
        Timezone::Helsinki => "Europe/Helsinki"@,
        Timezone::Athens => "Europe/Athens"@,
        Timezone::NewYork => "America/New_York"@,
        Timezone::Chicago => "America/Chicago"@,
        Timezone::Denver => "America/Denver"@,
        Timezone::LosAngeles => "America/Los_Angeles"@,
        Timezone::Anchorage => "America/Anchorage"@,
        Timezone::Honolulu => "Pacific/Honolulu"@,
        Timezone::PuertoRico => "America/Puerto_Rico"@,
        Timezone::Riyadh => "Asia/Riyadh"@,
        Timezone::Dubai => "Asia/Dubai"@,
        Timezone::Qatar => "Asia/Qatar"@,
        Timezone::Kuwait => "Asia/Kuwait"@,
        Timezone::Bahrain => "Asia/Bahrain"@,
        Timezone::Muscat => "Asia/Muscat"@,
        Timezone::Aden => "Asia/Aden"@,
        Timezone::Baghdad => "Asia/Baghdad"@,
        Timezone::Amman => "Asia/Amman"@,
        Timezone::Beirut => "Asia/Beirut"@,
        Timezone::Damascus => "Asia/Damascus"@,
        Timezone::Gaza => "Asia/Gaza"@,
        Timezone::Hebron => "Asia/Hebron"@,
        Timezone::Cairo => "Africa/Cairo"@,
        Timezone::Khartoum => "Africa/Khartoum"@,
        Timezone::Tripoli => "Africa/Tripoli"@,
        Timezone::Tunis => "Africa/Tunis"@,
        Timezone::BuenosAires => "America/Argentina/Buenos_Aires"@,
        Timezone::LaPaz => "America/La_Paz"@,
        Timezone::SaoPaulo => "America/Sao_Paulo"@,
        Timezone::Manaus => "America/Manaus"@,
        Timezone::Recife => "America/Recife"@,
        Timezone::Cuiaba => "America/Cuiaba"@,
        Timezone::PortoVelho => "America/Porto_Velho"@,
        Timezone::Santiago => "America/Santiago"@,
        Timezone::Easter => "Pacific/Easter"@,
        Timezone::Bogota => "America/Bogota"@,
        Timezone::Guayaquil => "America/Guayaquil"@,
        Timezone::Galapagos => "Pacific/Galapagos"@,
        Timezone::Guyana => "America/Guyana"@,
        Timezone::Asuncion => "America/Asuncion"@,
        Timezone::Lima => "America/Lima"@,
        Timezone::Paramaribo => "America/Paramaribo"@,
        Timezone::Montevideo => "America/Montevideo"@,
        Timezone::Caracas => "America/Caracas"@,
        Timezone::StJohns => "America/St_Johns"@,
        Timezone::Halifax => "America/Halifax"@,
        Timezone::Toronto => "America/Toronto"@,
        Timezone::Winnipeg => "America/Winnipeg"@,
        Timezone::Edmonton => "America/Edmonton"@,
        Timezone::Vancouver => "America/Vancouver"@,
        Timezone::WhiteHorse => "America/Whitehorse"@,
        Timezone::MexicoCity => "America/Mexico_City"@,
        Timezone::Mazatlan => "America/Mazatlan"@,
        Timezone::Chihuahua => "America/Chihuahua"@,
        Timezone::Tijuana => "America/Tijuana"@,
        Timezone::Cancun => "America/Cancun"@,
        Timezone::Belize => "America/Belize"@,
        Timezone::CostaRica => "America/Costa_Rica"@,
        Timezone::ElSalvador => "America/El_Salvador"@,
        Timezone::Guatemala => "America/Guatemala"@,
        Timezone::Tegucigalpa => "America/Tegucigalpa"@,
        Timezone::Managua => "America/Managua"@,
        Timezone::Panama => "America/Panama"@,
        Timezone::Apia => "Pacific/Apia"@,
        Timezone::Auckland => "Pacific/Auckland"@,
        Timezone::Bougainville => "Pacific/Bougainville"@,
        Timezone::Chatham => "Pacific/Chatham"@,
        Timezone::Efate => "Pacific/Efate"@,
        Timezone::Enderbury => "Pacific/Enderbury"@,
        Timezone::Fakaofo => "Pacific/Fakaofo"@,
        Timezone::Fiji => "Pacific/Fiji"@,
        Timezone::Funafuti => "Pacific/Funafuti"@,
        Timezone::Gambier => "Pacific/Gambier"@,
        Timezone::Guadalcanal => "Pacific/Guadalcanal"@,
        Timezone::Guam => "Pacific/Guam"@,
        Timezone::Johnston => "Pacific/Johnston"@,
        Timezone::Kanton => "Pacific/Kanton"@,
        Timezone::Kiritimati => "Pacific/Kiritimati"@,
        Timezone::Kosrae => "Pacific/Kosrae"@,
        Timezone::Kwajalein => "Pacific/Kwajalein"@,
        Timezone::Majuro => "Pacific/Majuro"@,
        Timezone::Marquesas => "Pacific/Marquesas"@,
        Timezone::Midway => "Pacific/Midway"@,
        Timezone::Nauru => "Pacific/Nauru"@,
        Timezone::Niue => "Pacific/Niue"@,
        Timezone::Norfolk => "Pacific/Norfolk"@,
        Timezone::Noumea => "Pacific/Noumea"@,
        Timezone::PagoPago => "Pacific/Pago_Pago"@,
        Timezone::Palau => "Pacific/Palau"@,
        Timezone::Pitcairn => "Pacific/Pitcairn"@,
        Timezone::Pohnpei => "Pacific/Pohnpei"@,
        Timezone::PortMoresby => "Pacific/Port_Moresby"@,
        Timezone::Saipan => "Pacific/Saipan"@,
        Timezone::Rarotonga => "Pacific/Rarotonga"@,
        Timezone::Tahiti => "Pacific/Tahiti"@,
        Timezone::Tarawa => "Pacific/Tarawa"@,
        Timezone::Truk => "Pacific/Truk"@,
        Timezone::Wake => "Pacific/Wake"@,
        Timezone::Wallis => "Pacific/Wallis"@,
        Timezone::Yap => "Pacific/Yap"@,
        Timezone::Tongatapu => "Pacific/Tongatapu"@,
    }
}

impl Timezone {
    pub fn to_string(&self) -> (r: String)
        ensures
            r@ == timezone_text(*self),
    {
        let name = match self {
            Timezone::System => "SYSTEM",
            Timezone::Istanbul => "Europe/Istanbul",
            Timezone::Moscow => "Europe/Moscow",
            Timezone::Kaliningrad => "Europe/Kaliningrad",
            Timezone::Samara => "Europe/Samara",
            Timezone::Ekaterinburg => "Asia/Yekaterinburg",
            Timezone::Omsk => "Asia/Omsk",
            Timezone::Krasnoyarsk => "Asia/Krasnoyarsk",
            Timezone::Irkutsk => "Asia/Irkutsk",
            Timezone::Yakutsk => "Asia/Yakutsk",
            Timezone::Vladivostok => "Asia/Vladivostok",
            Timezone::Magadan => "Asia/Magadan",
            Timezone::Kamchatka => "Asia/Kamchatka",
            Timezone::Shanghai => "Asia/Shanghai",
            Timezone::London => "Europe/London",
            Timezone::Paris => "Europe/Paris",
            Timezone::Berlin => "Europe/Berlin",
            Timezone::Madrid => "Europe/Madrid",
            Timezone::Rome => "Europe/Rome",
            Timezone::Amsterdam => "Europe/Amsterdam",
            Timezone::Stockholm => "Europe/Stockholm",
            Timezone::Oslo => "Europe/Oslo",
            Timezone::Helsinki => "Europe/Helsinki",
            Timezone::Athens => "Europe/Athens",
            Timezone::NewYork => "America/New_York",
            Timezone::Chicago => "America/Chicago",
            Timezone::Denver => "America/Denver",
            Timezone::LosAngeles => "America/Los_Angeles",
            Timezone::Anchorage => "America/Anchorage",
            Timezone::Honolulu => "Pacific/Honolulu",
            Timezone::PuertoRico => "America/Puerto_Rico",
            Timezone::Riyadh => "Asia/Riyadh",
            Timezone::Dubai => "Asia/Dubai",
            Timezone::Qatar => "Asia/Qatar",
            Timezone::Kuwait => "Asia/Kuwait",
            Timezone::Bahrain => "Asia/Bahrain",
            Timezone::Muscat => "Asia/Muscat",
            Timezone::Aden => "Asia/Aden",
            Timezone::Baghdad => "Asia/Baghdad",
            Timezone::Amman => "Asia/Amman",
            Timezone::Beirut => "Asia/Beirut",
            Timezone::Damascus => "Asia/Damascus",
            Timezone::Gaza => "Asia/Gaza",
            Timezone::Hebron => "Asia/Hebron",
            Timezone::Cairo => "Africa/Cairo",
            Timezone::Khartoum => "Africa/Khartoum",
            Timezone::Tripoli => "Africa/Tripoli",
            Timezone::Tunis => "Africa/Tunis",
            Timezone::BuenosAires => "America/Argentina/Buenos_Aires",
            Timezone::LaPaz => "America/La_Paz",
            Timezone::SaoPaulo => "America/Sao_Paulo",
            Timezone::Manaus => "America/Manaus",
            Timezone::Recife => "America/Recife",
            Timezone::Cuiaba => "America/Cuiaba",
            Timezone::PortoVelho => "America/Porto_Velho",
            Timezone::Santiago => "America/Santiago",
            Timezone::Easter => "Pacific/Easter",
            Timezone::Bogota => "America/Bogota",
            Timezone::Guayaquil => "America/Guayaquil",
            Timezone::Galapagos => "Pacific/Galapagos",
            Timezone::Guyana => "America/Guyana",
            Timezone::Asuncion => "America/Asuncion",
            Timezone::Lima => "America/Lima",
            Timezone::Paramaribo => "America/Paramaribo",
            Timezone::Montevideo => "America/Montevideo",
            Timezone::Caracas => "America/Caracas",
            Timezone::StJohns => "America/St_Johns",
            Timezone::Halifax => "America/Halifax",
            Timezone::Toronto => "America/Toronto",
            Timezone::Winnipeg => "America/Winnipeg",
            Timezone::Edmonton => "America/Edmonton",
            Timezone::Vancouver => "America/Vancouver",
            Timezone::WhiteHorse => "America/Whitehorse",
            Timezone::MexicoCity => "America/Mexico_City",
            Timezone::Mazatlan => "America/Mazatlan",
            Timezone::Chihuahua => "America/Chihuahua",
            Timezone::Tijuana => "America/Tijuana",
            Timezone::Cancun => "America/Cancun",
            Timezone::Belize => "America/Belize",
            Timezone::CostaRica => "America/Costa_Rica",
            Timezone::ElSalvador => "America/El_Salvador",
            Timezone::Guatemala => "America/Guatemala",
            Timezone::Tegucigalpa => "America/Tegucigalpa",
            Timezone::Managua => "America/Managua",
            Timezone::Panama => "America/Panama",
            Timezone::Apia => "Pacific/Apia",
            Timezone::Auckland => "Pacific/Auckland",
            Timezone::Bougainville => "Pacific/Bougainville",
            Timezone::Chatham => "Pacific/Chatham",
            Timezone::Efate => "Pacific/Efate",
            Timezone::Enderbury => "Pacific/Enderbury",
            Timezone::Fakaofo => "Pacific/Fakaofo",
            Timezone::Fiji => "Pacific/Fiji",
            Timezone::Funafuti => "Pacific/Funafuti",
            Timezone::Gambier => "Pacific/Gambier",
            Timezone::Guadalcanal => "Pacific/Guadalcanal",
            Timezone::Guam => "Pacific/Guam",
            Timezone::Johnston => "Pacific/Johnston",
            Timezone::Kanton => "Pacific/Kanton",
            Timezone::Kiritimati => "Pacific/Kiritimati",
            Timezone::Kosrae => "Pacific/Kosrae",
            Timezone::Kwajalein => "Pacific/Kwajalein",
            Timezone::Majuro => "Pacific/Majuro",
            Timezone::Marquesas => "Pacific/Marquesas",
            Timezone::Midway => "Pacific/Midway",
            Timezone::Nauru => "Pacific/Nauru",
            Timezone::Niue => "Pacific/Niue",
            Timezone::Norfolk => "Pacific/Norfolk",
            Timezone::Noumea => "Pacific/Noumea",
            Timezone::PagoPago => "Pacific/Pago_Pago",
            Timezone::Palau => "Pacific/Palau",
            Timezone::Pitcairn => "Pacific/Pitcairn",
            Timezone::Pohnpei => "Pacific/Pohnpei",
            Timezone::PortMoresby => "Pacific/Port_Moresby",
            Timezone::Saipan => "Pacific/Saipan",
            Timezone::Rarotonga => "Pacific/Rarotonga",
            Timezone::Tahiti => "Pacific/Tahiti",
            Timezone::Tarawa => "Pacific/Tarawa",
            Timezone::Truk => "Pacific/Truk",
            Timezone::Wake => "Pacific/Wake",
            Timezone::Wallis => "Pacific/Wallis",
            Timezone::Yap => "Pacific/Yap",
            Timezone::Tongatapu => "Pacific/Tongatapu",
        };
        String::from_str(name)
    }
}

} // verus!
