//! The currencies the platform knows, their codes, symbols and display rules.
//!
//! USDC is the internal settlement currency; users see their local currency.

use vstd::prelude::*;
use crate::decimal::{self, Decimal};
use crate::text::{self, concat2, str_equals, str_to_uppercase};

verus! {

/// Every currency the platform knows about.
#[derive(Debug, Clone, Copy, PartialEq, Eq, Hash, Structural)]
pub enum SupportedCurrency {
    /// internal settlement currency; users never see it
    USDC,
    /// South Africa, the launch market
    ZAR,
    /// Nigeria
    NGN,
    /// Kenya
    KES,
    /// Ghana
    GHS,
    /// Tanzania
    TZS,
    /// Uganda
    UGX,
    /// Zambia
    ZMW,
    /// Malawi
    MWK,
    /// Botswana
    BWP,
    /// Namibia
    NAD,
    /// India
    INR,
    /// Philippines
    PHP,
    /// Indonesia
    IDR,
    /// Vietnam
    VND,
    /// Bangladesh
    BDT,
    /// Mexico
    MXN,
    /// Brazil
    BRL,
    /// Colombia
    COP,
    /// Peru
    PEN,
    /// Chile
    CLP,
    /// Egypt
    EGP,
    /// Morocco
    MAD,
    /// Tunisia
    TND,
    /// United States
    USD,
    /// Europe
    EUR,
    /// United Kingdom
    GBP,
}

/// The ISO-style code of a currency.
pub open spec fn code_spec(c: SupportedCurrency) -> Seq<char> {
    match c {
        SupportedCurrency::USDC => "USDC"@,
        SupportedCurrency::ZAR => "ZAR"@,
        SupportedCurrency::NGN => "NGN"@,
        SupportedCurrency::KES => "KES"@,
        SupportedCurrency::GHS => "GHS"@,
        SupportedCurrency::TZS => "TZS"@,
        SupportedCurrency::UGX => "UGX"@,
        SupportedCurrency::ZMW => "ZMW"@,
        SupportedCurrency::MWK => "MWK"@,
        SupportedCurrency::BWP => "BWP"@,
        SupportedCurrency::NAD => "NAD"@,
        SupportedCurrency::INR => "INR"@,
        SupportedCurrency::PHP => "PHP"@,
        SupportedCurrency::IDR => "IDR"@,
        SupportedCurrency::VND => "VND"@,
        SupportedCurrency::BDT => "BDT"@,
        SupportedCurrency::MXN => "MXN"@,
        SupportedCurrency::BRL => "BRL"@,
        SupportedCurrency::COP => "COP"@,
        SupportedCurrency::PEN => "PEN"@,
        SupportedCurrency::CLP => "CLP"@,
        SupportedCurrency::EGP => "EGP"@,
        SupportedCurrency::MAD => "MAD"@,
        SupportedCurrency::TND => "TND"@,
        SupportedCurrency::USD => "USD"@,
        SupportedCurrency::EUR => "EUR"@,
        SupportedCurrency::GBP => "GBP"@,
    }
}

/// A code as one number: its length, then its characters, in base 256.
spec fn code_number(s: Seq<char>) -> int
    decreases s.len(),
{
    if s.len() == 0 {
        0
    } else {
        code_number(s.drop_last()) * 256 + (s.last() as int)
    }
}

spec fn code_key(s: Seq<char>) -> int {
    code_number(s) + s.len() * pow256(s.len())
}

spec fn pow256(n: nat) -> int
    decreases n,
{
    if n == 0 {
        1
    } else {
        256 * pow256((n - 1) as nat)
    }
}

spec fn expected_code_key(c: SupportedCurrency) -> int {
    match c {
        SupportedCurrency::USDC => 18611389507,
        SupportedCurrency::ZAR => 56246610,
        SupportedCurrency::NGN => 55461710,
        SupportedCurrency::KES => 55264595,
        SupportedCurrency::GHS => 55003219,
        SupportedCurrency::TZS => 55859795,
        SupportedCurrency::UGX => 55920472,
        SupportedCurrency::ZMW => 56249687,
        SupportedCurrency::MWK => 55400267,
        SupportedCurrency::BWP => 54679376,
        SupportedCurrency::NAD => 55460164,
        SupportedCurrency::INR => 55135826,
        SupportedCurrency::PHP => 55593040,
        SupportedCurrency::IDR => 55133266,
        SupportedCurrency::VND => 55987780,
        SupportedCurrency::BDT => 54674516,
        SupportedCurrency::MXN => 55400526,
        SupportedCurrency::BRL => 54678092,
        SupportedCurrency::COP => 54742864,
        SupportedCurrency::PEN => 55592270,
        SupportedCurrency::CLP => 54742096,
        SupportedCurrency::EGP => 54871888,
        SupportedCurrency::MAD => 55394628,
        SupportedCurrency::TND => 55856708,
        SupportedCurrency::USD => 55923524,
        SupportedCurrency::EUR => 54875474,
        SupportedCurrency::GBP => 55001680,
    }
}

spec fn is_upper_ascii(s: Seq<char>) -> bool {
    forall|i: int| 0 <= i < s.len() ==> 'A' <= #[trigger] s[i] <= 'Z'
}

proof fn lemma_key_of_three(s: Seq<char>)
    requires
        s.len() == 3,
    ensures
        code_key(s) == 3 * 16777216 + (s[0] as int) * 65536 + (s[1] as int) * 256 + (s[2] as int),
{
    reveal_with_fuel(code_number, 4);
    reveal_with_fuel(pow256, 4);
    assert(s.drop_last().drop_last().drop_last().len() == 0);
    assert(s.drop_last()[0] == s[0] && s.drop_last()[1] == s[1]);
    assert(s.drop_last().drop_last()[0] == s[0]);
}

proof fn lemma_code_key(c: SupportedCurrency)
    ensures
        code_key(code_spec(c)) == expected_code_key(c),
        3 <= code_spec(c).len() <= 4,
        is_upper_ascii(code_spec(c)),
{
    reveal_with_fuel(code_number, 5);
    reveal_with_fuel(pow256, 5);
    match c {
        SupportedCurrency::USDC => {
            reveal_strlit("USDC");
            let s = "USDC"@;
            assert(s.drop_last() =~= seq!['U', 'S', 'D']);
            lemma_key_of_three(s.drop_last());
            assert(code_number(s) == code_number(s.drop_last()) * 256 + 67);
            assert(pow256(4) == 4294967296);
        },
        SupportedCurrency::ZAR => {
            reveal_strlit("ZAR");
            lemma_key_of_three(code_spec(c));
        },
        SupportedCurrency::NGN => {
            reveal_strlit("NGN");
            lemma_key_of_three(code_spec(c));
        },
        SupportedCurrency::KES => {
            reveal_strlit("KES");
            lemma_key_of_three(code_spec(c));
        },
        SupportedCurrency::GHS => {
            reveal_strlit("GHS");
            lemma_key_of_three(code_spec(c));
        },
        SupportedCurrency::TZS => {
            reveal_strlit("TZS");
            lemma_key_of_three(code_spec(c));
        },
        SupportedCurrency::UGX => {
            reveal_strlit("UGX");
            lemma_key_of_three(code_spec(c));
        },
        SupportedCurrency::ZMW => {
            reveal_strlit("ZMW");
            lemma_key_of_three(code_spec(c));
        },
        SupportedCurrency::MWK => {
            reveal_strlit("MWK");
            lemma_key_of_three(code_spec(c));
        },
        SupportedCurrency::BWP => {
            reveal_strlit("BWP");
            lemma_key_of_three(code_spec(c));
        },
        SupportedCurrency::NAD => {
            reveal_strlit("NAD");
            lemma_key_of_three(code_spec(c));
        },
        SupportedCurrency::INR => {
            reveal_strlit("INR");
            lemma_key_of_three(code_spec(c));
        },
        SupportedCurrency::PHP => {
            reveal_strlit("PHP");
            lemma_key_of_three(code_spec(c));
        },
        SupportedCurrency::IDR => {
            reveal_strlit("IDR");
            lemma_key_of_three(code_spec(c));
        },
        SupportedCurrency::VND => {
            reveal_strlit("VND");
            lemma_key_of_three(code_spec(c));
        },
        SupportedCurrency::BDT => {
            reveal_strlit("BDT");
            lemma_key_of_three(code_spec(c));
        },
        SupportedCurrency::MXN => {
            reveal_strlit("MXN");
            lemma_key_of_three(code_spec(c));
        },
        SupportedCurrency::BRL => {
            reveal_strlit("BRL");
            lemma_key_of_three(code_spec(c));
        },
        SupportedCurrency::COP => {
            reveal_strlit("COP");
            lemma_key_of_three(code_spec(c));
        },
        SupportedCurrency::PEN => {
            reveal_strlit("PEN");
            lemma_key_of_three(code_spec(c));
        },
        SupportedCurrency::CLP => {
            reveal_strlit("CLP");
            lemma_key_of_three(code_spec(c));
        },
        SupportedCurrency::EGP => {
            reveal_strlit("EGP");
            lemma_key_of_three(code_spec(c));
        },
        SupportedCurrency::MAD => {
            reveal_strlit("MAD");
            lemma_key_of_three(code_spec(c));
        },
        SupportedCurrency::TND => {
            reveal_strlit("TND");
            lemma_key_of_three(code_spec(c));
        },
        SupportedCurrency::USD => {
            reveal_strlit("USD");
            lemma_key_of_three(code_spec(c));
        },
        SupportedCurrency::EUR => {
            reveal_strlit("EUR");
            lemma_key_of_three(code_spec(c));
        },
        SupportedCurrency::GBP => {
            reveal_strlit("GBP");
            lemma_key_of_three(code_spec(c));
        },
    }
}

/// Every currency's code is three or four upper-case ASCII letters, and no two
/// currencies share a code.
pub proof fn law_codes_distinct(c: SupportedCurrency, d: SupportedCurrency)
    ensures
        3 <= code_spec(c).len() <= 4,
        forall|i: int| 0 <= i < code_spec(c).len() ==> 'A' <= #[trigger] code_spec(c)[i] <= 'Z',
        c != d ==> code_spec(c) != code_spec(d),
{
    lemma_code_key(c);
    lemma_code_key(d);
}

/// The display symbol of a currency.
pub open spec fn symbol_spec(c: SupportedCurrency) -> Seq<char> {
    match c {
        SupportedCurrency::USDC => "$"@,
        SupportedCurrency::ZAR => "R"@,
        SupportedCurrency::NGN => "₦"@,
        SupportedCurrency::KES => "KSh"@,
        SupportedCurrency::GHS => "GH₵"@,
        SupportedCurrency::TZS => "TSh"@,
        SupportedCurrency::UGX => "USh"@,
        SupportedCurrency::ZMW => "ZK"@,
        SupportedCurrency::MWK => "MK"@,
        SupportedCurrency::BWP => "P"@,
        SupportedCurrency::NAD => "N$"@,
        SupportedCurrency::INR => "₹"@,
        SupportedCurrency::PHP => "₱"@,
        SupportedCurrency::IDR => "Rp"@,
        SupportedCurrency::VND => "₫"@,
        SupportedCurrency::BDT => "৳"@,
        SupportedCurrency::MXN => "MX$"@,
        SupportedCurrency::BRL => "R$"@,
        SupportedCurrency::COP => "COL$"@,
        SupportedCurrency::PEN => "S/"@,
        SupportedCurrency::CLP => "CL$"@,
        SupportedCurrency::EGP => "£"@,
        SupportedCurrency::MAD => "MAD"@,
        SupportedCurrency::TND => "DT"@,
        SupportedCurrency::USD => "$"@,
        SupportedCurrency::EUR => "€"@,
        SupportedCurrency::GBP => "£"@,
    }
}

/// Digits shown after the point: none for VND, IDR, UGX and TZS, two otherwise.
pub open spec fn decimals_spec(c: SupportedCurrency) -> nat {
    match c {
        SupportedCurrency::VND | SupportedCurrency::IDR | SupportedCurrency::UGX
        | SupportedCurrency::TZS => 0,
        _ => 2,
    }
}

/// The currency that an (upper-case) code selects; not every currency can be selected by code.
pub open spec fn code_lookup(s: Seq<char>) -> Option<SupportedCurrency> {
    if s == "USDC"@ {
        Some(SupportedCurrency::USDC)
    } else if s == "ZAR"@ {
        Some(SupportedCurrency::ZAR)
    } else if s == "NGN"@ {
        Some(SupportedCurrency::NGN)
    } else if s == "KES"@ {
        Some(SupportedCurrency::KES)
    } else if s == "GHS"@ {
        Some(SupportedCurrency::GHS)
    } else if s == "INR"@ {
        Some(SupportedCurrency::INR)
    } else if s == "MXN"@ {
        Some(SupportedCurrency::MXN)
    } else if s == "EGP"@ {
        Some(SupportedCurrency::EGP)
    } else if s == "USD"@ {
        Some(SupportedCurrency::USD)
    } else if s == "EUR"@ {
        Some(SupportedCurrency::EUR)
    } else if s == "GBP"@ {
        Some(SupportedCurrency::GBP)
    } else {
        None
    }
}

impl SupportedCurrency {
    pub fn code(&self) -> (r: &'static str)
        ensures
            r@ == code_spec(*self),
    {
        match self {
            SupportedCurrency::USDC => "USDC",
            SupportedCurrency::ZAR => "ZAR",
            SupportedCurrency::NGN => "NGN",
            SupportedCurrency::KES => "KES",
            SupportedCurrency::GHS => "GHS",
            SupportedCurrency::TZS => "TZS",
            SupportedCurrency::UGX => "UGX",
            SupportedCurrency::ZMW => "ZMW",
            SupportedCurrency::MWK => "MWK",
            SupportedCurrency::BWP => "BWP",
            SupportedCurrency::NAD => "NAD",
            SupportedCurrency::INR => "INR",
            SupportedCurrency::PHP => "PHP",
            SupportedCurrency::IDR => "IDR",
            SupportedCurrency::VND => "VND",
            SupportedCurrency::BDT => "BDT",
            SupportedCurrency::MXN => "MXN",
            SupportedCurrency::BRL => "BRL",
            SupportedCurrency::COP => "COP",
            SupportedCurrency::PEN => "PEN",
            SupportedCurrency::CLP => "CLP",
            SupportedCurrency::EGP => "EGP",
            SupportedCurrency::MAD => "MAD",
            SupportedCurrency::TND => "TND",
            SupportedCurrency::USD => "USD",
            SupportedCurrency::EUR => "EUR",
            SupportedCurrency::GBP => "GBP",
        }
    }

    pub fn symbol(&self) -> (r: &'static str)
        ensures
            r@ == symbol_spec(*self),
    {
        match self {
            SupportedCurrency::USDC => "$",
            SupportedCurrency::ZAR => "R",
            SupportedCurrency::NGN => "₦",
            SupportedCurrency::KES => "KSh",
            SupportedCurrency::GHS => "GH₵",
            SupportedCurrency::TZS => "TSh",
            SupportedCurrency::UGX => "USh",
            SupportedCurrency::ZMW => "ZK",
            SupportedCurrency::MWK => "MK",
            SupportedCurrency::BWP => "P",
            SupportedCurrency::NAD => "N$",
            SupportedCurrency::INR => "₹",
            SupportedCurrency::PHP => "₱",
            SupportedCurrency::IDR => "Rp",
            SupportedCurrency::VND => "₫",
            SupportedCurrency::BDT => "৳",
            SupportedCurrency::MXN => "MX$",
            SupportedCurrency::BRL => "R$",
            SupportedCurrency::COP => "COL$",
            SupportedCurrency::PEN => "S/",
            SupportedCurrency::CLP => "CL$",
            SupportedCurrency::EGP => "£",
            SupportedCurrency::MAD => "MAD",
            SupportedCurrency::TND => "DT",
            SupportedCurrency::USD => "$",
            SupportedCurrency::EUR => "€",
            SupportedCurrency::GBP => "£",
        }
    }

    /// Decimal places used for display.
    pub fn decimals(&self) -> (r: u32)
        ensures
            r == decimals_spec(*self),
    {
        match self {
            SupportedCurrency::VND | SupportedCurrency::IDR | SupportedCurrency::UGX
            | SupportedCurrency::TZS => 0,
            _ => 2,
        }
    }

    /// An amount in this currency as users see it: the symbol, then the amount
    /// rounded (halves to even) to the currency's display digits.
    pub fn format(&self, amount: Decimal) -> (r: String)
        ensures
            r@ == symbol_spec(*self) + decimal::decimal_text(decimal::round_dp_spec(amount@, decimals_spec(*self))),
    {
        let rounded = amount.round_dp(self.decimals());
        let text = rounded.to_string();
        concat2(self.symbol(), text.as_str())
    }

    /// The currency named by a code, in any letter case.
    pub fn from_code(code: &str) -> (r: Option<SupportedCurrency>)
        ensures
            r == code_lookup(text::unicode_uppercase(code@)),
            text::all_ascii(code@) ==> r == code_lookup(
                code@.map_values(|c: char| text::ascii_upper(c)),
            ),
    {
        let upper = str_to_uppercase(code);
        let u = upper.as_str();
        if str_equals(u, "USDC") {
            Some(SupportedCurrency::USDC)
        } else if str_equals(u, "ZAR") {
            Some(SupportedCurrency::ZAR)
        } else if str_equals(u, "NGN") {
            Some(SupportedCurrency::NGN)
        } else if str_equals(u, "KES") {
            Some(SupportedCurrency::KES)
        } else if str_equals(u, "GHS") {
            Some(SupportedCurrency::GHS)
        } else if str_equals(u, "INR") {
            Some(SupportedCurrency::INR)
        } else if str_equals(u, "MXN") {
            Some(SupportedCurrency::MXN)
        } else if str_equals(u, "EGP") {
            Some(SupportedCurrency::EGP)
        } else if str_equals(u, "USD") {
            Some(SupportedCurrency::USD)
        } else if str_equals(u, "EUR") {
            Some(SupportedCurrency::EUR)
        } else if str_equals(u, "GBP") {
            Some(SupportedCurrency::GBP)
        } else {
            None
        }
    }

    pub fn is_usdc(&self) -> (r: bool)
        ensures
            r == (*self == SupportedCurrency::USDC),
    {
        *self == SupportedCurrency::USDC
    }
}

/// A money value with its currency.
#[derive(Debug, Clone, Copy)]
pub struct Currency {
    pub amount: Decimal,
    pub currency: SupportedCurrency,
}

impl Currency {
    pub fn new(amount: Decimal, currency: SupportedCurrency) -> (r: Currency)
        ensures
            r.amount@ == amount@,
            r.currency == currency,
    {
        Currency { amount, currency }
    }

    pub fn zar(amount: Decimal) -> (r: Currency)
        ensures
            r.amount@ == amount@,
            r.currency == SupportedCurrency::ZAR,
    {
        Currency::new(amount, SupportedCurrency::ZAR)
    }

    pub fn usdc(amount: Decimal) -> (r: Currency)
        ensures
            r.amount@ == amount@,
            r.currency == SupportedCurrency::USDC,
    {
        Currency::new(amount, SupportedCurrency::USDC)
    }

    pub fn format(&self) -> (r: String)
        ensures
            r@ == symbol_spec(self.currency) + decimal::decimal_text(
                decimal::round_dp_spec(self.amount@, decimals_spec(self.currency)),
            ),
    {
        self.currency.format(self.amount)
    }
}

} // verus!
