//! The ISO 4217 currencies a payment can be made in.

use vstd::prelude::*;

use crate::text::same_text;

verus! {

/// How many currencies there are.
pub const CURRENCY_COUNT: u64 = 160;

/// A currency, named by its alphabetic ISO 4217 code.
#[derive(Clone, Copy, Debug, PartialEq, Eq, Structural)]
pub enum Currency {
    AED,
    AFN,
    ALL,
    AMD,
    ANG,
    AOA,
    ARS,
    AUD,
    AWG,
    AZN,
    BAM,
    BBD,
    BDT,
    BGN,
    BHD,
    BIF,
    BMD,
    BND,
    BOB,
    BRL,
    BSD,
    BTN,
    BWP,
    BYN,
    BZD,
    CAD,
    CDF,
    CHF,
    CLF,
    CLP,
    CNY,
    COP,
    CRC,
    CUC,
    CUP,
    CVE,
    CZK,
    DJF,
    DKK,
    DOP,
    DZD,
    EGP,
    ERN,
    ETB,
    EUR,
    FJD,
    FKP,
    GBP,
    GEL,
    GHS,
    GIP,
    GMD,
    GNF,
    GTQ,
    GYD,
    HKD,
    HNL,
    HRK,
    HTG,
    HUF,
    IDR,
    ILS,
    INR,
    IQD,
    IRR,
    ISK,
    JMD,
    JOD,
    JPY,
    KES,
    KGS,
    KHR,
    KMF,
    KPW,
    KRW,
    KWD,
    KYD,
    KZT,
    LAK,
    LBP,
    LKR,
    LRD,
    LSL,
    LYD,
    MAD,
    MDL,
    MGA,
    MKD,
    MMK,
    MNT,
    MOP,
    MRU,
    MUR,
    MVR,
    MWK,
    MXN,
    MYR,
    MZN,
    NAD,
    NGN,
    NIO,
    NOK,
    NPR,
    NZD,
    OMR,
    PAB,
    PEN,
    PGK,
    PHP,
    PKR,
    PLN,
    PYG,
    QAR,
    RON,
    RSD,
    RUB,
    RWF,
    SAR,
    SBD,
    SCR,
    SDG,
    SEK,
    SGD,
    SHP,
    SLE,
    SLL,
    SOS,
    SRD,
    SSP,
    STD,
    STN,
    SVC,
    SYP,
    SZL,
    THB,
    TJS,
    TMT,
    TND,
    TOP,
    TRY,
    TTD,
    TWD,
    TZS,
    UAH,
    UGX,
    USD,
    UYU,
    UZS,
    VES,
    VND,
    VUV,
    WST,
    XAF,
    XCD,
    XOF,
    XPF,
    YER,
    ZAR,
    ZMW,
    ZWL,
}

impl Currency {
    /// The three-letter code of the currency.
    pub open spec fn alpha_code(self) -> Seq<char> {
        match self {
            Currency::AED => "AED"@,
            Currency::AFN => "AFN"@,
            Currency::ALL => "ALL"@,
            Currency::AMD => "AMD"@,
            Currency::ANG => "ANG"@,
            Currency::AOA => "AOA"@,
            Currency::ARS => "ARS"@,
            Currency::AUD => "AUD"@,
            Currency::AWG => "AWG"@,
            Currency::AZN => "AZN"@,
            Currency::BAM => "BAM"@,
            Currency::BBD => "BBD"@,
            Currency::BDT => "BDT"@,
            Currency::BGN => "BGN"@,
            Currency::BHD => "BHD"@,
            Currency::BIF => "BIF"@,
            Currency::BMD => "BMD"@,
            Currency::BND => "BND"@,
            Currency::BOB => "BOB"@,
            Currency::BRL => "BRL"@,
            Currency::BSD => "BSD"@,
            Currency::BTN => "BTN"@,
            Currency::BWP => "BWP"@,
            Currency::BYN => "BYN"@,
            Currency::BZD => "BZD"@,
            Currency::CAD => "CAD"@,
            Currency::CDF => "CDF"@,
            Currency::CHF => "CHF"@,
            Currency::CLF => "CLF"@,
            Currency::CLP => "CLP"@,
            Currency::CNY => "CNY"@,
            Currency::COP => "COP"@,
            Currency::CRC => "CRC"@,
            Currency::CUC => "CUC"@,
            Currency::CUP => "CUP"@,
            Currency::CVE => "CVE"@,
            Currency::CZK => "CZK"@,
            Currency::DJF => "DJF"@,
            Currency::DKK => "DKK"@,
            Currency::DOP => "DOP"@,
            Currency::DZD => "DZD"@,
            Currency::EGP => "EGP"@,
            Currency::ERN => "ERN"@,
            Currency::ETB => "ETB"@,
            Currency::EUR => "EUR"@,
            Currency::FJD => "FJD"@,
            Currency::FKP => "FKP"@,
            Currency::GBP => "GBP"@,
            Currency::GEL => "GEL"@,
            Currency::GHS => "GHS"@,
            Currency::GIP => "GIP"@,
            Currency::GMD => "GMD"@,
            Currency::GNF => "GNF"@,
            Currency::GTQ => "GTQ"@,
            Currency::GYD => "GYD"@,
            Currency::HKD => "HKD"@,
            Currency::HNL => "HNL"@,
            Currency::HRK => "HRK"@,
            Currency::HTG => "HTG"@,
            Currency::HUF => "HUF"@,
            Currency::IDR => "IDR"@,
            Currency::ILS => "ILS"@,
            Currency::INR => "INR"@,
            Currency::IQD => "IQD"@,
            Currency::IRR => "IRR"@,
            Currency::ISK => "ISK"@,
            Currency::JMD => "JMD"@,
            Currency::JOD => "JOD"@,
            Currency::JPY => "JPY"@,
            Currency::KES => "KES"@,
            Currency::KGS => "KGS"@,
            Currency::KHR => "KHR"@,
            Currency::KMF => "KMF"@,
            Currency::KPW => "KPW"@,
            Currency::KRW => "KRW"@,
            Currency::KWD => "KWD"@,
            Currency::KYD => "KYD"@,
            Currency::KZT => "KZT"@,
            Currency::LAK => "LAK"@,
            Currency::LBP => "LBP"@,
            Currency::LKR => "LKR"@,
            Currency::LRD => "LRD"@,
            Currency::LSL => "LSL"@,
            Currency::LYD => "LYD"@,
            Currency::MAD => "MAD"@,
            Currency::MDL => "MDL"@,
            Currency::MGA => "MGA"@,
            Currency::MKD => "MKD"@,
            Currency::MMK => "MMK"@,
            Currency::MNT => "MNT"@,
            Currency::MOP => "MOP"@,
            Currency::MRU => "MRU"@,
            Currency::MUR => "MUR"@,
            Currency::MVR => "MVR"@,
            Currency::MWK => "MWK"@,
            Currency::MXN => "MXN"@,
            Currency::MYR => "MYR"@,
            Currency::MZN => "MZN"@,
            Currency::NAD => "NAD"@,
            Currency::NGN => "NGN"@,
            Currency::NIO => "NIO"@,
            Currency::NOK => "NOK"@,
            Currency::NPR => "NPR"@,
            Currency::NZD => "NZD"@,
            Currency::OMR => "OMR"@,
            Currency::PAB => "PAB"@,
            Currency::PEN => "PEN"@,
            Currency::PGK => "PGK"@,
            Currency::PHP => "PHP"@,
            Currency::PKR => "PKR"@,
            Currency::PLN => "PLN"@,
            Currency::PYG => "PYG"@,
            Currency::QAR => "QAR"@,
            Currency::RON => "RON"@,
            Currency::RSD => "RSD"@,
            Currency::RUB => "RUB"@,
            Currency::RWF => "RWF"@,
            Currency::SAR => "SAR"@,
            Currency::SBD => "SBD"@,
            Currency::SCR => "SCR"@,
            Currency::SDG => "SDG"@,
            Currency::SEK => "SEK"@,
            Currency::SGD => "SGD"@,
            Currency::SHP => "SHP"@,
            Currency::SLE => "SLE"@,
            Currency::SLL => "SLL"@,
            Currency::SOS => "SOS"@,
            Currency::SRD => "SRD"@,
            Currency::SSP => "SSP"@,
            Currency::STD => "STD"@,
            Currency::STN => "STN"@,
            Currency::SVC => "SVC"@,
            Currency::SYP => "SYP"@,
            Currency::SZL => "SZL"@,
            Currency::THB => "THB"@,
            Currency::TJS => "TJS"@,
            Currency::TMT => "TMT"@,
            Currency::TND => "TND"@,
            Currency::TOP => "TOP"@,
            Currency::TRY => "TRY"@,
            Currency::TTD => "TTD"@,
            Currency::TWD => "TWD"@,
            Currency::TZS => "TZS"@,
            Currency::UAH => "UAH"@,
            Currency::UGX => "UGX"@,
            Currency::USD => "USD"@,
            Currency::UYU => "UYU"@,
            Currency::UZS => "UZS"@,
            Currency::VES => "VES"@,
            Currency::VND => "VND"@,
            Currency::VUV => "VUV"@,
            Currency::WST => "WST"@,
            Currency::XAF => "XAF"@,
            Currency::XCD => "XCD"@,
            Currency::XOF => "XOF"@,
            Currency::XPF => "XPF"@,
            Currency::YER => "YER"@,
            Currency::ZAR => "ZAR"@,
            Currency::ZMW => "ZMW"@,
            Currency::ZWL => "ZWL"@,
        }
    }

    /// The place of the currency in the alphabetic order of the codes.
    pub open spec fn ordinal(self) -> u64 {
        match self {
            Currency::AED => 0,
            Currency::AFN => 1,
            Currency::ALL => 2,
            Currency::AMD => 3,
            Currency::ANG => 4,
            Currency::AOA => 5,
            Currency::ARS => 6,
            Currency::AUD => 7,
            Currency::AWG => 8,
            Currency::AZN => 9,
            Currency::BAM => 10,
            Currency::BBD => 11,
            Currency::BDT => 12,
            Currency::BGN => 13,
            Currency::BHD => 14,
            Currency::BIF => 15,
            Currency::BMD => 16,
            Currency::BND => 17,
            Currency::BOB => 18,
            Currency::BRL => 19,
            Currency::BSD => 20,
            Currency::BTN => 21,
            Currency::BWP => 22,
            Currency::BYN => 23,
            Currency::BZD => 24,
            Currency::CAD => 25,
            Currency::CDF => 26,
            Currency::CHF => 27,
            Currency::CLF => 28,
            Currency::CLP => 29,
            Currency::CNY => 30,
            Currency::COP => 31,
            Currency::CRC => 32,
            Currency::CUC => 33,
            Currency::CUP => 34,
            Currency::CVE => 35,
            Currency::CZK => 36,
            Currency::DJF => 37,
            Currency::DKK => 38,
            Currency::DOP => 39,
            Currency::DZD => 40,
            Currency::EGP => 41,
            Currency::ERN => 42,
            Currency::ETB => 43,
            Currency::EUR => 44,
            Currency::FJD => 45,
            Currency::FKP => 46,
            Currency::GBP => 47,
            Currency::GEL => 48,
            Currency::GHS => 49,
            Currency::GIP => 50,
            Currency::GMD => 51,
            Currency::GNF => 52,
            Currency::GTQ => 53,
            Currency::GYD => 54,
            Currency::HKD => 55,
            Currency::HNL => 56,
            Currency::HRK => 57,
            Currency::HTG => 58,
            Currency::HUF => 59,
            Currency::IDR => 60,
            Currency::ILS => 61,
            Currency::INR => 62,
            Currency::IQD => 63,
            Currency::IRR => 64,
            Currency::ISK => 65,
            Currency::JMD => 66,
            Currency::JOD => 67,
            Currency::JPY => 68,
            Currency::KES => 69,
            Currency::KGS => 70,
            Currency::KHR => 71,
            Currency::KMF => 72,
            Currency::KPW => 73,
            Currency::KRW => 74,
            Currency::KWD => 75,
            Currency::KYD => 76,
            Currency::KZT => 77,
            Currency::LAK => 78,
            Currency::LBP => 79,
            Currency::LKR => 80,
            Currency::LRD => 81,
            Currency::LSL => 82,
            Currency::LYD => 83,
            Currency::MAD => 84,
            Currency::MDL => 85,
            Currency::MGA => 86,
            Currency::MKD => 87,
            Currency::MMK => 88,
            Currency::MNT => 89,
            Currency::MOP => 90,
            Currency::MRU => 91,
            Currency::MUR => 92,
            Currency::MVR => 93,
            Currency::MWK => 94,
            Currency::MXN => 95,
            Currency::MYR => 96,
            Currency::MZN => 97,
            Currency::NAD => 98,
            Currency::NGN => 99,
            Currency::NIO => 100,
            Currency::NOK => 101,
            Currency::NPR => 102,
            Currency::NZD => 103,
            Currency::OMR => 104,
            Currency::PAB => 105,
            Currency::PEN => 106,
            Currency::PGK => 107,
            Currency::PHP => 108,
            Currency::PKR => 109,
            Currency::PLN => 110,
            Currency::PYG => 111,
            Currency::QAR => 112,
            Currency::RON => 113,
            Currency::RSD => 114,
            Currency::RUB => 115,
            Currency::RWF => 116,
            Currency::SAR => 117,
            Currency::SBD => 118,
            Currency::SCR => 119,
            Currency::SDG => 120,
            Currency::SEK => 121,
            Currency::SGD => 122,
            Currency::SHP => 123,
            Currency::SLE => 124,
            Currency::SLL => 125,
            Currency::SOS => 126,
            Currency::SRD => 127,
            Currency::SSP => 128,
            Currency::STD => 129,
            Currency::STN => 130,
            Currency::SVC => 131,
            Currency::SYP => 132,
            Currency::SZL => 133,
            Currency::THB => 134,
            Currency::TJS => 135,
            Currency::TMT => 136,
            Currency::TND => 137,
            Currency::TOP => 138,
            Currency::TRY => 139,
            Currency::TTD => 140,
            Currency::TWD => 141,
            Currency::TZS => 142,
            Currency::UAH => 143,
            Currency::UGX => 144,
            Currency::USD => 145,
            Currency::UYU => 146,
            Currency::UZS => 147,
            Currency::VES => 148,
            Currency::VND => 149,
            Currency::VUV => 150,
            Currency::WST => 151,
            Currency::XAF => 152,
            Currency::XCD => 153,
            Currency::XOF => 154,
            Currency::XPF => 155,
            Currency::YER => 156,
            Currency::ZAR => 157,
            Currency::ZMW => 158,
            Currency::ZWL => 159,
        }
    }

    /// The currency at place `i` of the alphabetic order.
    pub open spec fn at_ordinal(i: u64) -> Option<Currency> {
        if i == 0 {
            Some(Currency::AED)
        } else if i == 1 {
            Some(Currency::AFN)
        } else if i == 2 {
            Some(Currency::ALL)
        } else if i == 3 {
            Some(Currency::AMD)
        } else if i == 4 {
            Some(Currency::ANG)
        } else if i == 5 {
            Some(Currency::AOA)
        } else if i == 6 {
            Some(Currency::ARS)
        } else if i == 7 {
            Some(Currency::AUD)
        } else if i == 8 {
            Some(Currency::AWG)
        } else if i == 9 {
            Some(Currency::AZN)
        } else if i == 10 {
            Some(Currency::BAM)
        } else if i == 11 {
            Some(Currency::BBD)
        } else if i == 12 {
            Some(Currency::BDT)
        } else if i == 13 {
            Some(Currency::BGN)
        } else if i == 14 {
            Some(Currency::BHD)
        } else if i == 15 {
            Some(Currency::BIF)
        } else if i == 16 {
            Some(Currency::BMD)
        } else if i == 17 {
            Some(Currency::BND)
        } else if i == 18 {
            Some(Currency::BOB)
        } else if i == 19 {
            Some(Currency::BRL)
        } else if i == 20 {
            Some(Currency::BSD)
        } else if i == 21 {
            Some(Currency::BTN)
        } else if i == 22 {
            Some(Currency::BWP)
        } else if i == 23 {
            Some(Currency::BYN)
        } else if i == 24 {
            Some(Currency::BZD)
        } else if i == 25 {
            Some(Currency::CAD)
        } else if i == 26 {
            Some(Currency::CDF)
        } else if i == 27 {
            Some(Currency::CHF)
        } else if i == 28 {
            Some(Currency::CLF)
        } else if i == 29 {
            Some(Currency::CLP)
        } else if i == 30 {
            Some(Currency::CNY)
        } else if i == 31 {
            Some(Currency::COP)
        } else if i == 32 {
            Some(Currency::CRC)
        } else if i == 33 {
            Some(Currency::CUC)
        } else if i == 34 {
            Some(Currency::CUP)
        } else if i == 35 {
            Some(Currency::CVE)
        } else if i == 36 {
            Some(Currency::CZK)
        } else if i == 37 {
            Some(Currency::DJF)
        } else if i == 38 {
            Some(Currency::DKK)
        } else if i == 39 {
            Some(Currency::DOP)
        } else if i == 40 {
            Some(Currency::DZD)
        } else if i == 41 {
            Some(Currency::EGP)
        } else if i == 42 {
            Some(Currency::ERN)
        } else if i == 43 {
            Some(Currency::ETB)
        } else if i == 44 {
            Some(Currency::EUR)
        } else if i == 45 {
            Some(Currency::FJD)
        } else if i == 46 {
            Some(Currency::FKP)
        } else if i == 47 {
            Some(Currency::GBP)
        } else if i == 48 {
            Some(Currency::GEL)
        } else if i == 49 {
            Some(Currency::GHS)
        } else if i == 50 {
            Some(Currency::GIP)
        } else if i == 51 {
            Some(Currency::GMD)
        } else if i == 52 {
            Some(Currency::GNF)
        } else if i == 53 {
            Some(Currency::GTQ)
        } else if i == 54 {
            Some(Currency::GYD)
        } else if i == 55 {
            Some(Currency::HKD)
        } else if i == 56 {
            Some(Currency::HNL)
        } else if i == 57 {
            Some(Currency::HRK)
        } else if i == 58 {
            Some(Currency::HTG)
        } else if i == 59 {
            Some(Currency::HUF)
        } else if i == 60 {
            Some(Currency::IDR)
        } else if i == 61 {
            Some(Currency::ILS)
        } else if i == 62 {
            Some(Currency::INR)
        } else if i == 63 {
            Some(Currency::IQD)
        } else if i == 64 {
            Some(Currency::IRR)
        } else if i == 65 {
            Some(Currency::ISK)
        } else if i == 66 {
            Some(Currency::JMD)
        } else if i == 67 {
            Some(Currency::JOD)
        } else if i == 68 {
            Some(Currency::JPY)
        } else if i == 69 {
            Some(Currency::KES)
        } else if i == 70 {
            Some(Currency::KGS)
        } else if i == 71 {
            Some(Currency::KHR)
        } else if i == 72 {
            Some(Currency::KMF)
        } else if i == 73 {
            Some(Currency::KPW)
        } else if i == 74 {
            Some(Currency::KRW)
        } else if i == 75 {
            Some(Currency::KWD)
        } else if i == 76 {
            Some(Currency::KYD)
        } else if i == 77 {
            Some(Currency::KZT)
        } else if i == 78 {
            Some(Currency::LAK)
        } else if i == 79 {
            Some(Currency::LBP)
        } else if i == 80 {
            Some(Currency::LKR)
        } else if i == 81 {
            Some(Currency::LRD)
        } else if i == 82 {
            Some(Currency::LSL)
        } else if i == 83 {
            Some(Currency::LYD)
        } else if i == 84 {
            Some(Currency::MAD)
        } else if i == 85 {
            Some(Currency::MDL)
        } else if i == 86 {
            Some(Currency::MGA)
        } else if i == 87 {
            Some(Currency::MKD)
        } else if i == 88 {
            Some(Currency::MMK)
        } else if i == 89 {
            Some(Currency::MNT)
        } else if i == 90 {
            Some(Currency::MOP)
        } else if i == 91 {
            Some(Currency::MRU)
        } else if i == 92 {
            Some(Currency::MUR)
        } else if i == 93 {
            Some(Currency::MVR)
        } else if i == 94 {
            Some(Currency::MWK)
        } else if i == 95 {
            Some(Currency::MXN)
        } else if i == 96 {
            Some(Currency::MYR)
        } else if i == 97 {
            Some(Currency::MZN)
        } else if i == 98 {
            Some(Currency::NAD)
        } else if i == 99 {
            Some(Currency::NGN)
        } else if i == 100 {
            Some(Currency::NIO)
        } else if i == 101 {
            Some(Currency::NOK)
        } else if i == 102 {
            Some(Currency::NPR)
        } else if i == 103 {
            Some(Currency::NZD)
        } else if i == 104 {
            Some(Currency::OMR)
        } else if i == 105 {
            Some(Currency::PAB)
        } else if i == 106 {
            Some(Currency::PEN)
        } else if i == 107 {
            Some(Currency::PGK)
        } else if i == 108 {
            Some(Currency::PHP)
        } else if i == 109 {
            Some(Currency::PKR)
        } else if i == 110 {
            Some(Currency::PLN)
        } else if i == 111 {
            Some(Currency::PYG)
        } else if i == 112 {
            Some(Currency::QAR)
        } else if i == 113 {
            Some(Currency::RON)
        } else if i == 114 {
            Some(Currency::RSD)
        } else if i == 115 {
            Some(Currency::RUB)
        } else if i == 116 {
            Some(Currency::RWF)
        } else if i == 117 {
            Some(Currency::SAR)
        } else if i == 118 {
            Some(Currency::SBD)
        } else if i == 119 {
            Some(Currency::SCR)
        } else if i == 120 {
            Some(Currency::SDG)
        } else if i == 121 {
            Some(Currency::SEK)
        } else if i == 122 {
            Some(Currency::SGD)
        } else if i == 123 {
            Some(Currency::SHP)
        } else if i == 124 {
            Some(Currency::SLE)
        } else if i == 125 {
            Some(Currency::SLL)
        } else if i == 126 {
            Some(Currency::SOS)
        } else if i == 127 {
            Some(Currency::SRD)
        } else if i == 128 {
            Some(Currency::SSP)
        } else if i == 129 {
            Some(Currency::STD)
        } else if i == 130 {
            Some(Currency::STN)
        } else if i == 131 {
            Some(Currency::SVC)
        } else if i == 132 {
            Some(Currency::SYP)
        } else if i == 133 {
            Some(Currency::SZL)
        } else if i == 134 {
            Some(Currency::THB)
        } else if i == 135 {
            Some(Currency::TJS)
        } else if i == 136 {
            Some(Currency::TMT)
        } else if i == 137 {
            Some(Currency::TND)
        } else if i == 138 {
            Some(Currency::TOP)
        } else if i == 139 {
            Some(Currency::TRY)
        } else if i == 140 {
            Some(Currency::TTD)
        } else if i == 141 {
            Some(Currency::TWD)
        } else if i == 142 {
            Some(Currency::TZS)
        } else if i == 143 {
            Some(Currency::UAH)
        } else if i == 144 {
            Some(Currency::UGX)
        } else if i == 145 {
            Some(Currency::USD)
        } else if i == 146 {
            Some(Currency::UYU)
        } else if i == 147 {
            Some(Currency::UZS)
        } else if i == 148 {
            Some(Currency::VES)
        } else if i == 149 {
            Some(Currency::VND)
        } else if i == 150 {
            Some(Currency::VUV)
        } else if i == 151 {
            Some(Currency::WST)
        } else if i == 152 {
            Some(Currency::XAF)
        } else if i == 153 {
            Some(Currency::XCD)
        } else if i == 154 {
            Some(Currency::XOF)
        } else if i == 155 {
            Some(Currency::XPF)
        } else if i == 156 {
            Some(Currency::YER)
        } else if i == 157 {
            Some(Currency::ZAR)
        } else if i == 158 {
            Some(Currency::ZMW)
        } else if i == 159 {
            Some(Currency::ZWL)
        } else {
            None
        }
    }

    /// The currency whose code is `code`, if there is one.
    pub open spec fn of_code(code: Seq<char>) -> Option<Currency> {
        if exists|c: Currency| #[trigger] c.alpha_code() == code {
            Some(choose|c: Currency| #[trigger] c.alpha_code() == code)
        } else {
            None
        }
    }

    /// How many digits the amounts of the currency have after the decimal point.
    pub open spec fn fraction_digits(self) -> nat {
        match self {
            Currency::BIF | Currency::CLP | Currency::DJF | Currency::GNF | Currency::IRR
            | Currency::JPY | Currency::KMF | Currency::KRW | Currency::MGA | Currency::PYG
            | Currency::RWF | Currency::UGX | Currency::VND | Currency::VUV | Currency::XAF
            | Currency::XOF | Currency::XPF => 0,
            Currency::BHD | Currency::IQD | Currency::JOD | Currency::KWD | Currency::LYD
            | Currency::OMR | Currency::TND => 3,
            Currency::CLF => 4,
            _ => 2,
        }
    }

    /// The three-letter code of the currency.
    pub fn code(self) -> (r: &'static str)
        ensures
            r@ == self.alpha_code(),
    {
        match self {
            Currency::AED => "AED",
            Currency::AFN => "AFN",
            Currency::ALL => "ALL",
            Currency::AMD => "AMD",
            Currency::ANG => "ANG",
            Currency::AOA => "AOA",
            Currency::ARS => "ARS",
            Currency::AUD => "AUD",
            Currency::AWG => "AWG",
            Currency::AZN => "AZN",
            Currency::BAM => "BAM",
            Currency::BBD => "BBD",
            Currency::BDT => "BDT",
            Currency::BGN => "BGN",
            Currency::BHD => "BHD",
            Currency::BIF => "BIF",
            Currency::BMD => "BMD",
            Currency::BND => "BND",
            Currency::BOB => "BOB",
            Currency::BRL => "BRL",
            Currency::BSD => "BSD",
            Currency::BTN => "BTN",
            Currency::BWP => "BWP",
            Currency::BYN => "BYN",
            Currency::BZD => "BZD",
            Currency::CAD => "CAD",
            Currency::CDF => "CDF",
            Currency::CHF => "CHF",
            Currency::CLF => "CLF",
            Currency::CLP => "CLP",
            Currency::CNY => "CNY",
            Currency::COP => "COP",
            Currency::CRC => "CRC",
            Currency::CUC => "CUC",
            Currency::CUP => "CUP",
            Currency::CVE => "CVE",
            Currency::CZK => "CZK",
            Currency::DJF => "DJF",
            Currency::DKK => "DKK",
            Currency::DOP => "DOP",
            Currency::DZD => "DZD",
            Currency::EGP => "EGP",
            Currency::ERN => "ERN",
            Currency::ETB => "ETB",
            Currency::EUR => "EUR",
            Currency::FJD => "FJD",
            Currency::FKP => "FKP",
            Currency::GBP => "GBP",
            Currency::GEL => "GEL",
            Currency::GHS => "GHS",
            Currency::GIP => "GIP",
            Currency::GMD => "GMD",
            Currency::GNF => "GNF",
            Currency::GTQ => "GTQ",
            Currency::GYD => "GYD",
            Currency::HKD => "HKD",
            Currency::HNL => "HNL",
            Currency::HRK => "HRK",
            Currency::HTG => "HTG",
            Currency::HUF => "HUF",
            Currency::IDR => "IDR",
            Currency::ILS => "ILS",
            Currency::INR => "INR",
            Currency::IQD => "IQD",
            Currency::IRR => "IRR",
            Currency::ISK => "ISK",
            Currency::JMD => "JMD",
            Currency::JOD => "JOD",
            Currency::JPY => "JPY",
            Currency::KES => "KES",
            Currency::KGS => "KGS",
            Currency::KHR => "KHR",
            Currency::KMF => "KMF",
            Currency::KPW => "KPW",
            Currency::KRW => "KRW",
            Currency::KWD => "KWD",
            Currency::KYD => "KYD",
            Currency::KZT => "KZT",
            Currency::LAK => "LAK",
            Currency::LBP => "LBP",
            Currency::LKR => "LKR",
            Currency::LRD => "LRD",
            Currency::LSL => "LSL",
            Currency::LYD => "LYD",
            Currency::MAD => "MAD",
            Currency::MDL => "MDL",
            Currency::MGA => "MGA",
            Currency::MKD => "MKD",
            Currency::MMK => "MMK",
            Currency::MNT => "MNT",
            Currency::MOP => "MOP",
            Currency::MRU => "MRU",
            Currency::MUR => "MUR",
            Currency::MVR => "MVR",
            Currency::MWK => "MWK",
            Currency::MXN => "MXN",
            Currency::MYR => "MYR",
            Currency::MZN => "MZN",
            Currency::NAD => "NAD",
            Currency::NGN => "NGN",
            Currency::NIO => "NIO",
            Currency::NOK => "NOK",
            Currency::NPR => "NPR",
            Currency::NZD => "NZD",
            Currency::OMR => "OMR",
            Currency::PAB => "PAB",
            Currency::PEN => "PEN",
            Currency::PGK => "PGK",
            Currency::PHP => "PHP",
            Currency::PKR => "PKR",
            Currency::PLN => "PLN",
            Currency::PYG => "PYG",
            Currency::QAR => "QAR",
            Currency::RON => "RON",
            Currency::RSD => "RSD",
            Currency::RUB => "RUB",
            Currency::RWF => "RWF",
            Currency::SAR => "SAR",
            Currency::SBD => "SBD",
            Currency::SCR => "SCR",
            Currency::SDG => "SDG",
            Currency::SEK => "SEK",
            Currency::SGD => "SGD",
            Currency::SHP => "SHP",
            Currency::SLE => "SLE",
            Currency::SLL => "SLL",
            Currency::SOS => "SOS",
            Currency::SRD => "SRD",
            Currency::SSP => "SSP",
            Currency::STD => "STD",
            Currency::STN => "STN",
            Currency::SVC => "SVC",
            Currency::SYP => "SYP",
            Currency::SZL => "SZL",
            Currency::THB => "THB",
            Currency::TJS => "TJS",
            Currency::TMT => "TMT",
            Currency::TND => "TND",
            Currency::TOP => "TOP",
            Currency::TRY => "TRY",
            Currency::TTD => "TTD",
            Currency::TWD => "TWD",
            Currency::TZS => "TZS",
            Currency::UAH => "UAH",
            Currency::UGX => "UGX",
            Currency::USD => "USD",
            Currency::UYU => "UYU",
            Currency::UZS => "UZS",
            Currency::VES => "VES",
            Currency::VND => "VND",
            Currency::VUV => "VUV",
            Currency::WST => "WST",
            Currency::XAF => "XAF",
            Currency::XCD => "XCD",
            Currency::XOF => "XOF",
            Currency::XPF => "XPF",
            Currency::YER => "YER",
            Currency::ZAR => "ZAR",
            Currency::ZMW => "ZMW",
            Currency::ZWL => "ZWL",
        }
    }

    /// The three-letter code of the currency, as an owned string.
    pub fn to_string(self) -> (r: String)
        ensures
            r@ == self.alpha_code(),
    {
        self.code().to_owned()
    }

    /// The place of the currency in the alphabetic order of the codes.
    pub fn index(self) -> (r: u64)
        ensures
            r == self.ordinal(),
            r < CURRENCY_COUNT,
    {
        match self {
            Currency::AED => 0,
            Currency::AFN => 1,
            Currency::ALL => 2,
            Currency::AMD => 3,
            Currency::ANG => 4,
            Currency::AOA => 5,
            Currency::ARS => 6,
            Currency::AUD => 7,
            Currency::AWG => 8,
            Currency::AZN => 9,
            Currency::BAM => 10,
            Currency::BBD => 11,
            Currency::BDT => 12,
            Currency::BGN => 13,
            Currency::BHD => 14,
            Currency::BIF => 15,
            Currency::BMD => 16,
            Currency::BND => 17,
            Currency::BOB => 18,
            Currency::BRL => 19,
            Currency::BSD => 20,
            Currency::BTN => 21,
            Currency::BWP => 22,
            Currency::BYN => 23,
            Currency::BZD => 24,
            Currency::CAD => 25,
            Currency::CDF => 26,
            Currency::CHF => 27,
            Currency::CLF => 28,
            Currency::CLP => 29,
            Currency::CNY => 30,
            Currency::COP => 31,
            Currency::CRC => 32,
            Currency::CUC => 33,
            Currency::CUP => 34,
            Currency::CVE => 35,
            Currency::CZK => 36,
            Currency::DJF => 37,
            Currency::DKK => 38,
            Currency::DOP => 39,
            Currency::DZD => 40,
            Currency::EGP => 41,
            Currency::ERN => 42,
            Currency::ETB => 43,
            Currency::EUR => 44,
            Currency::FJD => 45,
            Currency::FKP => 46,
            Currency::GBP => 47,
            Currency::GEL => 48,
            Currency::GHS => 49,
            Currency::GIP => 50,
            Currency::GMD => 51,
            Currency::GNF => 52,
            Currency::GTQ => 53,
            Currency::GYD => 54,
            Currency::HKD => 55,
            Currency::HNL => 56,
            Currency::HRK => 57,
            Currency::HTG => 58,
            Currency::HUF => 59,
            Currency::IDR => 60,
            Currency::ILS => 61,
            Currency::INR => 62,
            Currency::IQD => 63,
            Currency::IRR => 64,
            Currency::ISK => 65,
            Currency::JMD => 66,
            Currency::JOD => 67,
            Currency::JPY => 68,
            Currency::KES => 69,
            Currency::KGS => 70,
            Currency::KHR => 71,
            Currency::KMF => 72,
            Currency::KPW => 73,
            Currency::KRW => 74,
            Currency::KWD => 75,
            Currency::KYD => 76,
            Currency::KZT => 77,
            Currency::LAK => 78,
            Currency::LBP => 79,
            Currency::LKR => 80,
            Currency::LRD => 81,
            Currency::LSL => 82,
            Currency::LYD => 83,
            Currency::MAD => 84,
            Currency::MDL => 85,
            Currency::MGA => 86,
            Currency::MKD => 87,
            Currency::MMK => 88,
            Currency::MNT => 89,
            Currency::MOP => 90,
            Currency::MRU => 91,
            Currency::MUR => 92,
            Currency::MVR => 93,
            Currency::MWK => 94,
            Currency::MXN => 95,
            Currency::MYR => 96,
            Currency::MZN => 97,
            Currency::NAD => 98,
            Currency::NGN => 99,
            Currency::NIO => 100,
            Currency::NOK => 101,
            Currency::NPR => 102,
            Currency::NZD => 103,
            Currency::OMR => 104,
            Currency::PAB => 105,
            Currency::PEN => 106,
            Currency::PGK => 107,
            Currency::PHP => 108,
            Currency::PKR => 109,
            Currency::PLN => 110,
            Currency::PYG => 111,
            Currency::QAR => 112,
            Currency::RON => 113,
            Currency::RSD => 114,
            Currency::RUB => 115,
            Currency::RWF => 116,
            Currency::SAR => 117,
            Currency::SBD => 118,
            Currency::SCR => 119,
            Currency::SDG => 120,
            Currency::SEK => 121,
            Currency::SGD => 122,
            Currency::SHP => 123,
            Currency::SLE => 124,
            Currency::SLL => 125,
            Currency::SOS => 126,
            Currency::SRD => 127,
            Currency::SSP => 128,
            Currency::STD => 129,
            Currency::STN => 130,
            Currency::SVC => 131,
            Currency::SYP => 132,
            Currency::SZL => 133,
            Currency::THB => 134,
            Currency::TJS => 135,
            Currency::TMT => 136,
            Currency::TND => 137,
            Currency::TOP => 138,
            Currency::TRY => 139,
            Currency::TTD => 140,
            Currency::TWD => 141,
            Currency::TZS => 142,
            Currency::UAH => 143,
            Currency::UGX => 144,
            Currency::USD => 145,
            Currency::UYU => 146,
            Currency::UZS => 147,
            Currency::VES => 148,
            Currency::VND => 149,
            Currency::VUV => 150,
            Currency::WST => 151,
            Currency::XAF => 152,
            Currency::XCD => 153,
            Currency::XOF => 154,
            Currency::XPF => 155,
            Currency::YER => 156,
            Currency::ZAR => 157,
            Currency::ZMW => 158,
            Currency::ZWL => 159,
        }
    }

    /// The currency at place `i` of the alphabetic order, if there is one.
    pub fn from_index(i: u64) -> (r: Option<Currency>)
        ensures
            r == Self::at_ordinal(i),
            r is Some <==> i < CURRENCY_COUNT,
    {
        match i {
            0 => Some(Currency::AED),
            1 => Some(Currency::AFN),
            2 => Some(Currency::ALL),
            3 => Some(Currency::AMD),
            4 => Some(Currency::ANG),
            5 => Some(Currency::AOA),
            6 => Some(Currency::ARS),
            7 => Some(Currency::AUD),
            8 => Some(Currency::AWG),
            9 => Some(Currency::AZN),
            10 => Some(Currency::BAM),
            11 => Some(Currency::BBD),
            12 => Some(Currency::BDT),
            13 => Some(Currency::BGN),
            14 => Some(Currency::BHD),
            15 => Some(Currency::BIF),
            16 => Some(Currency::BMD),
            17 => Some(Currency::BND),
            18 => Some(Currency::BOB),
            19 => Some(Currency::BRL),
            20 => Some(Currency::BSD),
            21 => Some(Currency::BTN),
            22 => Some(Currency::BWP),
            23 => Some(Currency::BYN),
            24 => Some(Currency::BZD),
            25 => Some(Currency::CAD),
            26 => Some(Currency::CDF),
            27 => Some(Currency::CHF),
            28 => Some(Currency::CLF),
            29 => Some(Currency::CLP),
            30 => Some(Currency::CNY),
            31 => Some(Currency::COP),
            32 => Some(Currency::CRC),
            33 => Some(Currency::CUC),
            34 => Some(Currency::CUP),
            35 => Some(Currency::CVE),
            36 => Some(Currency::CZK),
            37 => Some(Currency::DJF),
            38 => Some(Currency::DKK),
            39 => Some(Currency::DOP),
            40 => Some(Currency::DZD),
            41 => Some(Currency::EGP),
            42 => Some(Currency::ERN),
            43 => Some(Currency::ETB),
            44 => Some(Currency::EUR),
            45 => Some(Currency::FJD),
            46 => Some(Currency::FKP),
            47 => Some(Currency::GBP),
            48 => Some(Currency::GEL),
            49 => Some(Currency::GHS),
            50 => Some(Currency::GIP),
            51 => Some(Currency::GMD),
            52 => Some(Currency::GNF),
            53 => Some(Currency::GTQ),
            54 => Some(Currency::GYD),
            55 => Some(Currency::HKD),
            56 => Some(Currency::HNL),
            57 => Some(Currency::HRK),
            58 => Some(Currency::HTG),
            59 => Some(Currency::HUF),
            60 => Some(Currency::IDR),
            61 => Some(Currency::ILS),
            62 => Some(Currency::INR),
            63 => Some(Currency::IQD),
            64 => Some(Currency::IRR),
            65 => Some(Currency::ISK),
            66 => Some(Currency::JMD),
            67 => Some(Currency::JOD),
            68 => Some(Currency::JPY),
            69 => Some(Currency::KES),
            70 => Some(Currency::KGS),
            71 => Some(Currency::KHR),
            72 => Some(Currency::KMF),
            73 => Some(Currency::KPW),
            74 => Some(Currency::KRW),
            75 => Some(Currency::KWD),
            76 => Some(Currency::KYD),
            77 => Some(Currency::KZT),
            78 => Some(Currency::LAK),
            79 => Some(Currency::LBP),
            80 => Some(Currency::LKR),
            81 => Some(Currency::LRD),
            82 => Some(Currency::LSL),
            83 => Some(Currency::LYD),
            84 => Some(Currency::MAD),
            85 => Some(Currency::MDL),
            86 => Some(Currency::MGA),
            87 => Some(Currency::MKD),
            88 => Some(Currency::MMK),
            89 => Some(Currency::MNT),
            90 => Some(Currency::MOP),
            91 => Some(Currency::MRU),
            92 => Some(Currency::MUR),
            93 => Some(Currency::MVR),
            94 => Some(Currency::MWK),
            95 => Some(Currency::MXN),
            96 => Some(Currency::MYR),
            97 => Some(Currency::MZN),
            98 => Some(Currency::NAD),
            99 => Some(Currency::NGN),
            100 => Some(Currency::NIO),
            101 => Some(Currency::NOK),
            102 => Some(Currency::NPR),
            103 => Some(Currency::NZD),
            104 => Some(Currency::OMR),
            105 => Some(Currency::PAB),
            106 => Some(Currency::PEN),
            107 => Some(Currency::PGK),
            108 => Some(Currency::PHP),
            109 => Some(Currency::PKR),
            110 => Some(Currency::PLN),
            111 => Some(Currency::PYG),
            112 => Some(Currency::QAR),
            113 => Some(Currency::RON),
            114 => Some(Currency::RSD),
            115 => Some(Currency::RUB),
            116 => Some(Currency::RWF),
            117 => Some(Currency::SAR),
            118 => Some(Currency::SBD),
            119 => Some(Currency::SCR),
            120 => Some(Currency::SDG),
            121 => Some(Currency::SEK),
            122 => Some(Currency::SGD),
            123 => Some(Currency::SHP),
            124 => Some(Currency::SLE),
            125 => Some(Currency::SLL),
            126 => Some(Currency::SOS),
            127 => Some(Currency::SRD),
            128 => Some(Currency::SSP),
            129 => Some(Currency::STD),
            130 => Some(Currency::STN),
            131 => Some(Currency::SVC),
            132 => Some(Currency::SYP),
            133 => Some(Currency::SZL),
            134 => Some(Currency::THB),
            135 => Some(Currency::TJS),
            136 => Some(Currency::TMT),
            137 => Some(Currency::TND),
            138 => Some(Currency::TOP),
            139 => Some(Currency::TRY),
            140 => Some(Currency::TTD),
            141 => Some(Currency::TWD),
            142 => Some(Currency::TZS),
            143 => Some(Currency::UAH),
            144 => Some(Currency::UGX),
            145 => Some(Currency::USD),
            146 => Some(Currency::UYU),
            147 => Some(Currency::UZS),
            148 => Some(Currency::VES),
            149 => Some(Currency::VND),
            150 => Some(Currency::VUV),
            151 => Some(Currency::WST),
            152 => Some(Currency::XAF),
            153 => Some(Currency::XCD),
            154 => Some(Currency::XOF),
            155 => Some(Currency::XPF),
            156 => Some(Currency::YER),
            157 => Some(Currency::ZAR),
            158 => Some(Currency::ZMW),
            159 => Some(Currency::ZWL),
            _ => None,
        }
    }

    /// The currency whose code is `code`. Codes are matched letter for letter,
    /// in upper case.
    pub fn from_code(code: &str) -> (r: Option<Currency>)
        ensures
            forall|c: Currency| r == Some(c) <==> #[trigger] c.alpha_code() == code@,
            r == Self::of_code(code@),
    {
        let mut i: u64 = 0;
        while i < CURRENCY_COUNT
            invariant
                i <= CURRENCY_COUNT,
                forall|c: Currency| #[trigger] c.ordinal() < i ==> c.alpha_code() != code@,
            decreases CURRENCY_COUNT - i,
        {
            if let Some(candidate) = Self::from_index(i) {
                if same_text(candidate.code(), code) {
                    proof {
                        assert forall|c: Currency| Some(candidate) == Some(c) <==> #[trigger] c.alpha_code()
                            == code@ by {
                            if c.alpha_code() == code@ {
                                law_codes_are_distinct(c, candidate);
                            }
                        }
                    }
                    return Some(candidate);
                }
                proof {
                    assert forall|c: Currency| #[trigger] c.ordinal() < i + 1 implies c.alpha_code()
                        != code@ by {
                        lemma_ordinal_round_trip(c);
                    }
                }
            }
            i = i + 1;
        }
        proof {
            assert forall|c: Currency| #[trigger] c.alpha_code() != code@ by {
                lemma_ordinal_round_trip(c);
            }
        }
        None
    }

    /// How many digits the amounts of the currency have after the decimal point.
    pub fn number_of_digits_after_decimal_point(self) -> (r: u8)
        ensures
            r == self.fraction_digits(),
    {
        match self {
            Currency::BIF | Currency::CLP | Currency::DJF | Currency::GNF | Currency::IRR
            | Currency::JPY | Currency::KMF | Currency::KRW | Currency::MGA | Currency::PYG
            | Currency::RWF | Currency::UGX | Currency::VND | Currency::VUV | Currency::XAF
            | Currency::XOF | Currency::XPF => 0,
            Currency::BHD | Currency::IQD | Currency::JOD | Currency::KWD | Currency::LYD
            | Currency::OMR | Currency::TND => 3,
            Currency::CLF => 4,
            _ => 2,
        }
    }
}

/// A currency is found again at its own place.
pub proof fn lemma_ordinal_round_trip(c: Currency)
    ensures
        Currency::at_ordinal(c.ordinal()) == Some(c),
        c.ordinal() < CURRENCY_COUNT,
{
}

/// Two currencies at the same place are the same currency.
pub proof fn lemma_ordinal_injective(a: Currency, b: Currency)
    requires
        a.ordinal() == b.ordinal(),
    ensures
        a == b,
{
    lemma_ordinal_round_trip(a);
    lemma_ordinal_round_trip(b);
}

/// A three-letter code read as a number in base 26.
spec fn letters_value(s: Seq<char>) -> int {
    ((s[0] as int - 65) * 26 + (s[1] as int - 65)) * 26 + (s[2] as int - 65)
}

/// The value of the letters of each code.
spec fn code_value(c: Currency) -> int {
    match c {
        Currency::AED => 107,
        Currency::AFN => 143,
        Currency::ALL => 297,
        Currency::AMD => 315,
        Currency::ANG => 344,
        Currency::AOA => 364,
        Currency::ARS => 460,
        Currency::AUD => 523,
        Currency::AWG => 578,
        Currency::AZN => 663,
        Currency::BAM => 688,
        Currency::BBD => 705,
        Currency::BDT => 773,
        Currency::BGN => 845,
        Currency::BHD => 861,
        Currency::BIF => 889,
        Currency::BMD => 991,
        Currency::BND => 1017,
        Currency::BOB => 1041,
        Currency::BRL => 1129,
        Currency::BSD => 1147,
        Currency::BTN => 1183,
        Currency::BWP => 1263,
        Currency::BYN => 1313,
        Currency::BZD => 1329,
        Currency::CAD => 1355,
        Currency::CDF => 1435,
        Currency::CHF => 1539,
        Currency::CLF => 1643,
        Currency::CLP => 1653,
        Currency::CNY => 1714,
        Currency::COP => 1731,
        Currency::CRC => 1796,
        Currency::CUC => 1874,
        Currency::CUP => 1887,
        Currency::CVE => 1902,
        Currency::CZK => 2012,
        Currency::DJF => 2267,
        Currency::DKK => 2298,
        Currency::DOP => 2407,
        Currency::DZD => 2681,
        Currency::EGP => 2875,
        Currency::ERN => 3159,
        Currency::ETB => 3199,
        Currency::EUR => 3241,
        Currency::FJD => 3617,
        Currency::FKP => 3655,
        Currency::GBP => 4097,
        Currency::GEL => 4171,
        Currency::GHS => 4256,
        Currency::GIP => 4279,
        Currency::GMD => 4371,
        Currency::GNF => 4399,
        Currency::GTQ => 4566,
        Currency::GYD => 4683,
        Currency::HKD => 4995,
        Currency::HNL => 5081,
        Currency::HRK => 5184,
        Currency::HTG => 5232,
        Currency::HUF => 5257,
        Currency::IDR => 5503,
        Currency::ILS => 5712,
        Currency::INR => 5763,
        Currency::IQD => 5827,
        Currency::IRR => 5867,
        Currency::ISK => 5886,
        Currency::JMD => 6399,
        Currency::JOD => 6451,
        Currency::JPY => 6498,
        Currency::KES => 6882,
        Currency::KGS => 6934,
        Currency::KHR => 6959,
        Currency::KMF => 7077,
        Currency::KPW => 7172,
        Currency::KRW => 7224,
        Currency::KWD => 7335,
        Currency::KYD => 7387,
        Currency::KZT => 7429,
        Currency::LAK => 7446,
        Currency::LBP => 7477,
        Currency::LKR => 7713,
        Currency::LRD => 7881,
        Currency::LSL => 7915,
        Currency::LYD => 8063,
        Currency::MAD => 8115,
        Currency::MDL => 8201,
        Currency::MGA => 8268,
        Currency::MKD => 8375,
        Currency::MMK => 8434,
        Currency::MNT => 8469,
        Currency::MOP => 8491,
        Currency::MRU => 8574,
        Currency::MUR => 8649,
        Currency::MVR => 8675,
        Currency::MWK => 8694,
        Currency::MXN => 8723,
        Currency::MYR => 8753,
        Currency::MZN => 8775,
        Currency::NAD => 8791,
        Currency::NGN => 8957,
        Currency::NIO => 9010,
        Currency::NOK => 9162,
        Currency::NPR => 9195,
        Currency::NZD => 9441,
        Currency::OMR => 9793,
        Currency::PAB => 10141,
        Currency::PEN => 10257,
        Currency::PGK => 10306,
        Currency::PHP => 10337,
        Currency::PKR => 10417,
        Currency::PLN => 10439,
        Currency::PYG => 10770,
        Currency::QAR => 10833,
        Currency::RON => 11869,
        Currency::RSD => 11963,
        Currency::RUB => 12013,
        Currency::RWF => 12069,
        Currency::SAR => 12185,
        Currency::SBD => 12197,
        Currency::SCR => 12237,
        Currency::SDG => 12252,
        Currency::SEK => 12282,
        Currency::SGD => 12327,
        Currency::SHP => 12365,
        Currency::SLE => 12458,
        Currency::SLL => 12465,
        Currency::SOS => 12550,
        Currency::SRD => 12613,
        Currency::SSP => 12651,
        Currency::STD => 12665,
        Currency::STN => 12675,
        Currency::SVC => 12716,
        Currency::SYP => 12807,
        Currency::SZL => 12829,
        Currency::THB => 13027,
        Currency::TJS => 13096,
        Currency::TMT => 13175,
        Currency::TND => 13185,
        Currency::TOP => 13223,
        Currency::TRY => 13310,
        Currency::TTD => 13341,
        Currency::TWD => 13419,
        Currency::TZS => 13512,
        Currency::UAH => 13527,
        Currency::UGX => 13699,
        Currency::USD => 13991,
        Currency::UYU => 14164,
        Currency::UZS => 14188,
        Currency::VES => 14318,
        Currency::VND => 14537,
        Currency::VUV => 14737,
        Currency::WST => 15359,
        Currency::XAF => 15553,
        Currency::XCD => 15603,
        Currency::XOF => 15917,
        Currency::XPF => 15943,
        Currency::YER => 16345,
        Currency::ZAR => 16917,
        Currency::ZMW => 17234,
        Currency::ZWL => 17483,
    }
}

/// The currency whose code has the letters' value `v`.
spec fn of_code_value(v: int) -> Option<Currency> {
    if v == 107 {
        Some(Currency::AED)
    } else if v == 143 {
        Some(Currency::AFN)
    } else if v == 297 {
        Some(Currency::ALL)
    } else if v == 315 {
        Some(Currency::AMD)
    } else if v == 344 {
        Some(Currency::ANG)
    } else if v == 364 {
        Some(Currency::AOA)
    } else if v == 460 {
        Some(Currency::ARS)
    } else if v == 523 {
        Some(Currency::AUD)
    } else if v == 578 {
        Some(Currency::AWG)
    } else if v == 663 {
        Some(Currency::AZN)
    } else if v == 688 {
        Some(Currency::BAM)
    } else if v == 705 {
        Some(Currency::BBD)
    } else if v == 773 {
        Some(Currency::BDT)
    } else if v == 845 {
        Some(Currency::BGN)
    } else if v == 861 {
        Some(Currency::BHD)
    } else if v == 889 {
        Some(Currency::BIF)
    } else if v == 991 {
        Some(Currency::BMD)
    } else if v == 1017 {
        Some(Currency::BND)
    } else if v == 1041 {
        Some(Currency::BOB)
    } else if v == 1129 {
        Some(Currency::BRL)
    } else if v == 1147 {
        Some(Currency::BSD)
    } else if v == 1183 {
        Some(Currency::BTN)
    } else if v == 1263 {
        Some(Currency::BWP)
    } else if v == 1313 {
        Some(Currency::BYN)
    } else if v == 1329 {
        Some(Currency::BZD)
    } else if v == 1355 {
        Some(Currency::CAD)
    } else if v == 1435 {
        Some(Currency::CDF)
    } else if v == 1539 {
        Some(Currency::CHF)
    } else if v == 1643 {
        Some(Currency::CLF)
    } else if v == 1653 {
        Some(Currency::CLP)
    } else if v == 1714 {
        Some(Currency::CNY)
    } else if v == 1731 {
        Some(Currency::COP)
    } else if v == 1796 {
        Some(Currency::CRC)
    } else if v == 1874 {
        Some(Currency::CUC)
    } else if v == 1887 {
        Some(Currency::CUP)
    } else if v == 1902 {
        Some(Currency::CVE)
    } else if v == 2012 {
        Some(Currency::CZK)
    } else if v == 2267 {
        Some(Currency::DJF)
    } else if v == 2298 {
        Some(Currency::DKK)
    } else if v == 2407 {
        Some(Currency::DOP)
    } else if v == 2681 {
        Some(Currency::DZD)
    } else if v == 2875 {
        Some(Currency::EGP)
    } else if v == 3159 {
        Some(Currency::ERN)
    } else if v == 3199 {
        Some(Currency::ETB)
    } else if v == 3241 {
        Some(Currency::EUR)
    } else if v == 3617 {
        Some(Currency::FJD)
    } else if v == 3655 {
        Some(Currency::FKP)
    } else if v == 4097 {
        Some(Currency::GBP)
    } else if v == 4171 {
        Some(Currency::GEL)
    } else if v == 4256 {
        Some(Currency::GHS)
    } else if v == 4279 {
        Some(Currency::GIP)
    } else if v == 4371 {
        Some(Currency::GMD)
    } else if v == 4399 {
        Some(Currency::GNF)
    } else if v == 4566 {
        Some(Currency::GTQ)
    } else if v == 4683 {
        Some(Currency::GYD)
    } else if v == 4995 {
        Some(Currency::HKD)
    } else if v == 5081 {
        Some(Currency::HNL)
    } else if v == 5184 {
        Some(Currency::HRK)
    } else if v == 5232 {
        Some(Currency::HTG)
    } else if v == 5257 {
        Some(Currency::HUF)
    } else if v == 5503 {
        Some(Currency::IDR)
    } else if v == 5712 {
        Some(Currency::ILS)
    } else if v == 5763 {
        Some(Currency::INR)
    } else if v == 5827 {
        Some(Currency::IQD)
    } else if v == 5867 {
        Some(Currency::IRR)
    } else if v == 5886 {
        Some(Currency::ISK)
    } else if v == 6399 {
        Some(Currency::JMD)
    } else if v == 6451 {
        Some(Currency::JOD)
    } else if v == 6498 {
        Some(Currency::JPY)
    } else if v == 6882 {
        Some(Currency::KES)
    } else if v == 6934 {
        Some(Currency::KGS)
    } else if v == 6959 {
        Some(Currency::KHR)
    } else if v == 7077 {
        Some(Currency::KMF)
    } else if v == 7172 {
        Some(Currency::KPW)
    } else if v == 7224 {
        Some(Currency::KRW)
    } else if v == 7335 {
        Some(Currency::KWD)
    } else if v == 7387 {
        Some(Currency::KYD)
    } else if v == 7429 {
        Some(Currency::KZT)
    } else if v == 7446 {
        Some(Currency::LAK)
    } else if v == 7477 {
        Some(Currency::LBP)
    } else if v == 7713 {
        Some(Currency::LKR)
    } else if v == 7881 {
        Some(Currency::LRD)
    } else if v == 7915 {
        Some(Currency::LSL)
    } else if v == 8063 {
        Some(Currency::LYD)
    } else if v == 8115 {
        Some(Currency::MAD)
    } else if v == 8201 {
        Some(Currency::MDL)
    } else if v == 8268 {
        Some(Currency::MGA)
    } else if v == 8375 {
        Some(Currency::MKD)
    } else if v == 8434 {
        Some(Currency::MMK)
    } else if v == 8469 {
        Some(Currency::MNT)
    } else if v == 8491 {
        Some(Currency::MOP)
    } else if v == 8574 {
        Some(Currency::MRU)
    } else if v == 8649 {
        Some(Currency::MUR)
    } else if v == 8675 {
        Some(Currency::MVR)
    } else if v == 8694 {
        Some(Currency::MWK)
    } else if v == 8723 {
        Some(Currency::MXN)
    } else if v == 8753 {
        Some(Currency::MYR)
    } else if v == 8775 {
        Some(Currency::MZN)
    } else if v == 8791 {
        Some(Currency::NAD)
    } else if v == 8957 {
        Some(Currency::NGN)
    } else if v == 9010 {
        Some(Currency::NIO)
    } else if v == 9162 {
        Some(Currency::NOK)
    } else if v == 9195 {
        Some(Currency::NPR)
    } else if v == 9441 {
        Some(Currency::NZD)
    } else if v == 9793 {
        Some(Currency::OMR)
    } else if v == 10141 {
        Some(Currency::PAB)
    } else if v == 10257 {
        Some(Currency::PEN)
    } else if v == 10306 {
        Some(Currency::PGK)
    } else if v == 10337 {
        Some(Currency::PHP)
    } else if v == 10417 {
        Some(Currency::PKR)
    } else if v == 10439 {
        Some(Currency::PLN)
    } else if v == 10770 {
        Some(Currency::PYG)
    } else if v == 10833 {
        Some(Currency::QAR)
    } else if v == 11869 {
        Some(Currency::RON)
    } else if v == 11963 {
        Some(Currency::RSD)
    } else if v == 12013 {
        Some(Currency::RUB)
    } else if v == 12069 {
        Some(Currency::RWF)
    } else if v == 12185 {
        Some(Currency::SAR)
    } else if v == 12197 {
        Some(Currency::SBD)
    } else if v == 12237 {
        Some(Currency::SCR)
    } else if v == 12252 {
        Some(Currency::SDG)
    } else if v == 12282 {
        Some(Currency::SEK)
    } else if v == 12327 {
        Some(Currency::SGD)
    } else if v == 12365 {
        Some(Currency::SHP)
    } else if v == 12458 {
        Some(Currency::SLE)
    } else if v == 12465 {
        Some(Currency::SLL)
    } else if v == 12550 {
        Some(Currency::SOS)
    } else if v == 12613 {
        Some(Currency::SRD)
    } else if v == 12651 {
        Some(Currency::SSP)
    } else if v == 12665 {
        Some(Currency::STD)
    } else if v == 12675 {
        Some(Currency::STN)
    } else if v == 12716 {
        Some(Currency::SVC)
    } else if v == 12807 {
        Some(Currency::SYP)
    } else if v == 12829 {
        Some(Currency::SZL)
    } else if v == 13027 {
        Some(Currency::THB)
    } else if v == 13096 {
        Some(Currency::TJS)
    } else if v == 13175 {
        Some(Currency::TMT)
    } else if v == 13185 {
        Some(Currency::TND)
    } else if v == 13223 {
        Some(Currency::TOP)
    } else if v == 13310 {
        Some(Currency::TRY)
    } else if v == 13341 {
        Some(Currency::TTD)
    } else if v == 13419 {
        Some(Currency::TWD)
    } else if v == 13512 {
        Some(Currency::TZS)
    } else if v == 13527 {
        Some(Currency::UAH)
    } else if v == 13699 {
        Some(Currency::UGX)
    } else if v == 13991 {
        Some(Currency::USD)
    } else if v == 14164 {
        Some(Currency::UYU)
    } else if v == 14188 {
        Some(Currency::UZS)
    } else if v == 14318 {
        Some(Currency::VES)
    } else if v == 14537 {
        Some(Currency::VND)
    } else if v == 14737 {
        Some(Currency::VUV)
    } else if v == 15359 {
        Some(Currency::WST)
    } else if v == 15553 {
        Some(Currency::XAF)
    } else if v == 15603 {
        Some(Currency::XCD)
    } else if v == 15917 {
        Some(Currency::XOF)
    } else if v == 15943 {
        Some(Currency::XPF)
    } else if v == 16345 {
        Some(Currency::YER)
    } else if v == 16917 {
        Some(Currency::ZAR)
    } else if v == 17234 {
        Some(Currency::ZMW)
    } else if v == 17483 {
        Some(Currency::ZWL)
    } else {
        None
    }
}

proof fn lemma_code_value(c: Currency)
    ensures
        c.alpha_code().len() == 3,
        letters_value(c.alpha_code()) == code_value(c),
{
    match c {
        Currency::AED => {
            reveal_strlit("AED");
        },
        Currency::AFN => {
            reveal_strlit("AFN");
        },
        Currency::ALL => {
            reveal_strlit("ALL");
        },
        Currency::AMD => {
            reveal_strlit("AMD");
        },
        Currency::ANG => {
            reveal_strlit("ANG");
        },
        Currency::AOA => {
            reveal_strlit("AOA");
        },
        Currency::ARS => {
            reveal_strlit("ARS");
        },
        Currency::AUD => {
            reveal_strlit("AUD");
        },
        Currency::AWG => {
            reveal_strlit("AWG");
        },
        Currency::AZN => {
            reveal_strlit("AZN");
        },
        Currency::BAM => {
            reveal_strlit("BAM");
        },
        Currency::BBD => {
            reveal_strlit("BBD");
        },
        Currency::BDT => {
            reveal_strlit("BDT");
        },
        Currency::BGN => {
            reveal_strlit("BGN");
        },
        Currency::BHD => {
            reveal_strlit("BHD");
        },
        Currency::BIF => {
            reveal_strlit("BIF");
        },
        Currency::BMD => {
            reveal_strlit("BMD");
        },
        Currency::BND => {
            reveal_strlit("BND");
        },
        Currency::BOB => {
            reveal_strlit("BOB");
        },
        Currency::BRL => {
            reveal_strlit("BRL");
        },
        Currency::BSD => {
            reveal_strlit("BSD");
        },
        Currency::BTN => {
            reveal_strlit("BTN");
        },
        Currency::BWP => {
            reveal_strlit("BWP");
        },
        Currency::BYN => {
            reveal_strlit("BYN");
        },
        Currency::BZD => {
            reveal_strlit("BZD");
        },
        Currency::CAD => {
            reveal_strlit("CAD");
        },
        Currency::CDF => {
            reveal_strlit("CDF");
        },
        Currency::CHF => {
            reveal_strlit("CHF");
        },
        Currency::CLF => {
            reveal_strlit("CLF");
        },
        Currency::CLP => {
            reveal_strlit("CLP");
        },
        Currency::CNY => {
            reveal_strlit("CNY");
        },
        Currency::COP => {
            reveal_strlit("COP");
        },
        Currency::CRC => {
            reveal_strlit("CRC");
        },
        Currency::CUC => {
            reveal_strlit("CUC");
        },
        Currency::CUP => {
            reveal_strlit("CUP");
        },
        Currency::CVE => {
            reveal_strlit("CVE");
        },
        Currency::CZK => {
            reveal_strlit("CZK");
        },
        Currency::DJF => {
            reveal_strlit("DJF");
        },
        Currency::DKK => {
            reveal_strlit("DKK");
        },
        Currency::DOP => {
            reveal_strlit("DOP");
        },
        Currency::DZD => {
            reveal_strlit("DZD");
        },
        Currency::EGP => {
            reveal_strlit("EGP");
        },
        Currency::ERN => {
            reveal_strlit("ERN");
        },
        Currency::ETB => {
            reveal_strlit("ETB");
        },
        Currency::EUR => {
            reveal_strlit("EUR");
        },
        Currency::FJD => {
            reveal_strlit("FJD");
        },
        Currency::FKP => {
            reveal_strlit("FKP");
        },
        Currency::GBP => {
            reveal_strlit("GBP");
        },
        Currency::GEL => {
            reveal_strlit("GEL");
        },
        Currency::GHS => {
            reveal_strlit("GHS");
        },
        Currency::GIP => {
            reveal_strlit("GIP");
        },
        Currency::GMD => {
            reveal_strlit("GMD");
        },
        Currency::GNF => {
            reveal_strlit("GNF");
        },
        Currency::GTQ => {
            reveal_strlit("GTQ");
        },
        Currency::GYD => {
            reveal_strlit("GYD");
        },
        Currency::HKD => {
            reveal_strlit("HKD");
        },
        Currency::HNL => {
            reveal_strlit("HNL");
        },
        Currency::HRK => {
            reveal_strlit("HRK");
        },
        Currency::HTG => {
            reveal_strlit("HTG");
        },
        Currency::HUF => {
            reveal_strlit("HUF");
        },
        Currency::IDR => {
            reveal_strlit("IDR");
        },
        Currency::ILS => {
            reveal_strlit("ILS");
        },
        Currency::INR => {
            reveal_strlit("INR");
        },
        Currency::IQD => {
            reveal_strlit("IQD");
        },
        Currency::IRR => {
            reveal_strlit("IRR");
        },
        Currency::ISK => {
            reveal_strlit("ISK");
        },
        Currency::JMD => {
            reveal_strlit("JMD");
        },
        Currency::JOD => {
            reveal_strlit("JOD");
        },
        Currency::JPY => {
            reveal_strlit("JPY");
        },
        Currency::KES => {
            reveal_strlit("KES");
        },
        Currency::KGS => {
            reveal_strlit("KGS");
        },
        Currency::KHR => {
            reveal_strlit("KHR");
        },
        Currency::KMF => {
            reveal_strlit("KMF");
        },
        Currency::KPW => {
            reveal_strlit("KPW");
        },
        Currency::KRW => {
            reveal_strlit("KRW");
        },
        Currency::KWD => {
            reveal_strlit("KWD");
        },
        Currency::KYD => {
            reveal_strlit("KYD");
        },
        Currency::KZT => {
            reveal_strlit("KZT");
        },
        Currency::LAK => {
            reveal_strlit("LAK");
        },
        Currency::LBP => {
            reveal_strlit("LBP");
        },
        Currency::LKR => {
            reveal_strlit("LKR");
        },
        Currency::LRD => {
            reveal_strlit("LRD");
        },
        Currency::LSL => {
            reveal_strlit("LSL");
        },
        Currency::LYD => {
            reveal_strlit("LYD");
        },
        Currency::MAD => {
            reveal_strlit("MAD");
        },
        Currency::MDL => {
            reveal_strlit("MDL");
        },
        Currency::MGA => {
            reveal_strlit("MGA");
        },
        Currency::MKD => {
            reveal_strlit("MKD");
        },
        Currency::MMK => {
            reveal_strlit("MMK");
        },
        Currency::MNT => {
            reveal_strlit("MNT");
        },
        Currency::MOP => {
            reveal_strlit("MOP");
        },
        Currency::MRU => {
            reveal_strlit("MRU");
        },
        Currency::MUR => {
            reveal_strlit("MUR");
        },
        Currency::MVR => {
            reveal_strlit("MVR");
        },
        Currency::MWK => {
            reveal_strlit("MWK");
        },
        Currency::MXN => {
            reveal_strlit("MXN");
        },
        Currency::MYR => {
            reveal_strlit("MYR");
        },
        Currency::MZN => {
            reveal_strlit("MZN");
        },
        Currency::NAD => {
            reveal_strlit("NAD");
        },
        Currency::NGN => {
            reveal_strlit("NGN");
        },
        Currency::NIO => {
            reveal_strlit("NIO");
        },
        Currency::NOK => {
            reveal_strlit("NOK");
        },
        Currency::NPR => {
            reveal_strlit("NPR");
        },
        Currency::NZD => {
            reveal_strlit("NZD");
        },
        Currency::OMR => {
            reveal_strlit("OMR");
        },
        Currency::PAB => {
            reveal_strlit("PAB");
        },
        Currency::PEN => {
            reveal_strlit("PEN");
        },
        Currency::PGK => {
            reveal_strlit("PGK");
        },
        Currency::PHP => {
            reveal_strlit("PHP");
        },
        Currency::PKR => {
            reveal_strlit("PKR");
        },
        Currency::PLN => {
            reveal_strlit("PLN");
        },
        Currency::PYG => {
            reveal_strlit("PYG");
        },
        Currency::QAR => {
            reveal_strlit("QAR");
        },
        Currency::RON => {
            reveal_strlit("RON");
        },
        Currency::RSD => {
            reveal_strlit("RSD");
        },
        Currency::RUB => {
            reveal_strlit("RUB");
        },
        Currency::RWF => {
            reveal_strlit("RWF");
        },
        Currency::SAR => {
            reveal_strlit("SAR");
        },
        Currency::SBD => {
            reveal_strlit("SBD");
        },
        Currency::SCR => {
            reveal_strlit("SCR");
        },
        Currency::SDG => {
            reveal_strlit("SDG");
        },
        Currency::SEK => {
            reveal_strlit("SEK");
        },
        Currency::SGD => {
            reveal_strlit("SGD");
        },
        Currency::SHP => {
            reveal_strlit("SHP");
        },
        Currency::SLE => {
            reveal_strlit("SLE");
        },
        Currency::SLL => {
            reveal_strlit("SLL");
        },
        Currency::SOS => {
            reveal_strlit("SOS");
        },
        Currency::SRD => {
            reveal_strlit("SRD");
        },
        Currency::SSP => {
            reveal_strlit("SSP");
        },
        Currency::STD => {
            reveal_strlit("STD");
        },
        Currency::STN => {
            reveal_strlit("STN");
        },
        Currency::SVC => {
            reveal_strlit("SVC");
        },
        Currency::SYP => {
            reveal_strlit("SYP");
        },
        Currency::SZL => {
            reveal_strlit("SZL");
        },
        Currency::THB => {
            reveal_strlit("THB");
        },
        Currency::TJS => {
            reveal_strlit("TJS");
        },
        Currency::TMT => {
            reveal_strlit("TMT");
        },
        Currency::TND => {
            reveal_strlit("TND");
        },
        Currency::TOP => {
            reveal_strlit("TOP");
        },
        Currency::TRY => {
            reveal_strlit("TRY");
        },
        Currency::TTD => {
            reveal_strlit("TTD");
        },
        Currency::TWD => {
            reveal_strlit("TWD");
        },
        Currency::TZS => {
            reveal_strlit("TZS");
        },
        Currency::UAH => {
            reveal_strlit("UAH");
        },
        Currency::UGX => {
            reveal_strlit("UGX");
        },
        Currency::USD => {
            reveal_strlit("USD");
        },
        Currency::UYU => {
            reveal_strlit("UYU");
        },
        Currency::UZS => {
            reveal_strlit("UZS");
        },
        Currency::VES => {
            reveal_strlit("VES");
        },
        Currency::VND => {
            reveal_strlit("VND");
        },
        Currency::VUV => {
            reveal_strlit("VUV");
        },
        Currency::WST => {
            reveal_strlit("WST");
        },
        Currency::XAF => {
            reveal_strlit("XAF");
        },
        Currency::XCD => {
            reveal_strlit("XCD");
        },
        Currency::XOF => {
            reveal_strlit("XOF");
        },
        Currency::XPF => {
            reveal_strlit("XPF");
        },
        Currency::YER => {
            reveal_strlit("YER");
        },
        Currency::ZAR => {
            reveal_strlit("ZAR");
        },
        Currency::ZMW => {
            reveal_strlit("ZMW");
        },
        Currency::ZWL => {
            reveal_strlit("ZWL");
        },
    }
}

proof fn lemma_code_value_round_trip(c: Currency)
    ensures
        of_code_value(code_value(c)) == Some(c),
{
}

/// Every code has three letters, and no two currencies share a code.
pub proof fn law_codes_are_distinct(a: Currency, b: Currency)
    ensures
        a.alpha_code().len() == 3,
        a.alpha_code() == b.alpha_code() ==> a == b,
{
    lemma_code_value(a);
    lemma_code_value(b);
    lemma_code_value_round_trip(a);
    lemma_code_value_round_trip(b);
}

/// How many digits each currency has after the point: none, three or four for those
/// listed, and two for every other.
pub proof fn law_digits_after_the_point(c: Currency)
    ensures
        c.fraction_digits() == 0 <==> (c == Currency::BIF || c == Currency::CLP || c
            == Currency::DJF || c == Currency::GNF || c == Currency::IRR || c == Currency::JPY || c
            == Currency::KMF || c == Currency::KRW || c == Currency::MGA || c == Currency::PYG || c
            == Currency::RWF || c == Currency::UGX || c == Currency::VND || c == Currency::VUV || c
            == Currency::XAF || c == Currency::XOF || c == Currency::XPF),
        c.fraction_digits() == 3 <==> (c == Currency::BHD || c == Currency::IQD || c
            == Currency::JOD || c == Currency::KWD || c == Currency::LYD || c == Currency::OMR || c
            == Currency::TND),
        c.fraction_digits() == 4 <==> c == Currency::CLF,
        c.fraction_digits() == 0 || c.fraction_digits() == 2 || c.fraction_digits() == 3
            || c.fraction_digits() == 4,
{
}

/// A code stands for the one currency that has it, and for none if no currency has.
pub proof fn law_code_stands_for_its_currency(code: Seq<char>, c: Currency)
    ensures
        Currency::of_code(code) == Some(c) <==> c.alpha_code() == code,
        Currency::of_code(c.alpha_code()) == Some(c),
{
    if Currency::of_code(code) is Some && c.alpha_code() == code {
        law_codes_are_distinct(Currency::of_code(code)->0, c);
    }
    law_codes_are_distinct(Currency::of_code(c.alpha_code())->0, c);
}

} // verus!
