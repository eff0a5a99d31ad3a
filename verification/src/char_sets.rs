use crate::text::same_text;
use vstd::prelude::*;

verus! {

pub const ENGLISH_LOWER_CASE: &'static str = "abcdefghijklmnopqrstuvwxyz";

pub const ENGLISH_UPPER_CASE: &'static str = "ABCDEFGHIJKLMNOPQRSTUVWXYZ";

pub const DIGITS: &'static str = "0123456789";

pub const COMMON_SYMBOLS: &'static str = "`~!@#$%^&*()-_=+[]{}|;:'\",.<>?\\/";

pub const TEST_SET: &'static str = "Aa";

/// The sets of characters that a strip can be made of.
#[derive(Clone, Copy, Debug, PartialEq, Eq, Structural)]
pub enum CharSets {
    EnglishLowerCase,
    EnglishUpperCase,
    Digits,
    CommonSymbols,
    TestSet,
}

impl CharSets {
    /// The set that goes by `name`, if there is one.
    pub open spec fn named(name: Seq<char>) -> Option<CharSets> {
        if name == "EnglishLowerCase"@ {
            Some(CharSets::EnglishLowerCase)
        } else if name == "EnglishUpperCase"@ {
            Some(CharSets::EnglishUpperCase)
        } else if name == "Digits"@ {
            Some(CharSets::Digits)
        } else if name == "CommonSymbols"@ {
            Some(CharSets::CommonSymbols)
        } else if name == "TestSet"@ {
            Some(CharSets::TestSet)
        } else {
            None
        }
    }

    /// The characters of the set, in the order in which they are laid out.
    pub open spec fn text(self) -> &'static str {
        match self {
            CharSets::EnglishLowerCase => ENGLISH_LOWER_CASE,
            CharSets::EnglishUpperCase => ENGLISH_UPPER_CASE,
            CharSets::Digits => DIGITS,
            CharSets::CommonSymbols => COMMON_SYMBOLS,
            CharSets::TestSet => TEST_SET,
        }
    }

    /// Finds a set by its name. A name that no set goes by is an error.
    pub fn from_str(s: &str) -> (result: Result<CharSets, &'static str>)
        ensures
            result matches Ok(set) ==> CharSets::named(s@) == Some(set),
            result matches Err(message) ==> CharSets::named(s@) is None
                && message@ == "No matching charset found!"@,
    {
        if same_text(s, "EnglishLowerCase") {
            Ok(CharSets::EnglishLowerCase)
        } else if same_text(s, "EnglishUpperCase") {
            Ok(CharSets::EnglishUpperCase)
        } else if same_text(s, "Digits") {
            Ok(CharSets::Digits)
        } else if same_text(s, "CommonSymbols") {
            Ok(CharSets::CommonSymbols)
        } else if same_text(s, "TestSet") {
            Ok(CharSets::TestSet)
        } else {
            Err("No matching charset found!")
        }
    }
}

impl std::str::FromStr for CharSets {
    type Err = &'static str;

    /// Finds a set by its name, as the inherent `from_str` does.
    fn from_str(s: &str) -> (result: Result<CharSets, &'static str>)
        ensures
            result matches Ok(set) ==> CharSets::named(s@) == Some(set),
            result matches Err(message) ==> CharSets::named(s@) is None
                && message@ == "No matching charset found!"@,
    {
        CharSets::from_str(s)
    }
}

impl From<CharSets> for &'static str {
    fn from(set: CharSets) -> (text: &'static str) {
        match set {
            CharSets::EnglishLowerCase => ENGLISH_LOWER_CASE,
            CharSets::EnglishUpperCase => ENGLISH_UPPER_CASE,
            CharSets::Digits => DIGITS,
            CharSets::CommonSymbols => COMMON_SYMBOLS,
            CharSets::TestSet => TEST_SET,
        }
    }
}

impl vstd::std_specs::convert::FromSpecImpl<CharSets> for &'static str {
    open spec fn obeys_from_spec() -> bool {
        true
    }

    open spec fn from_spec(set: CharSets) -> &'static str {
        set.text()
    }
}

} // verus!
