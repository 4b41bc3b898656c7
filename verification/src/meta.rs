//! Publish metadata carried by a job: title, description, tags, category,
//! visibility and the two notification flags.

use vstd::prelude::*;
use core::str::FromStr;

verus! {

/// Visibility of the published video.
#[derive(Debug, Clone, Copy, PartialEq, Eq, Structural)]
pub enum Privacy {
    Private,
    Unlisted,
    Public,
}

/// The error of parsing an unknown visibility word.
#[derive(Debug, Clone, Copy, PartialEq, Eq, Structural)]
pub struct UnrecognizedPrivacy;

impl Privacy {
    /// The wire word of each visibility, as the publish service spells it.
    pub open spec fn spec_wire_word(self) -> Seq<char> {
        match self {
            Privacy::Private => "private"@,
            Privacy::Unlisted => "unlisted"@,
            Privacy::Public => "public"@,
        }
    }

    /// Returns [`Self::spec_wire_word`] as a borrowed string.
    pub fn wire_word(&self) -> (r: &'static str)
        ensures
            r@ == self.spec_wire_word(),
    {
        match self {
            Privacy::Private => "private",
            Privacy::Unlisted => "unlisted",
            Privacy::Public => "public",
        }
    }

    /// The visibility a wire word names, if any: the exact inverse of
    /// [`Self::spec_wire_word`].
    pub fn parse(s: &String) -> (r: Result<Privacy, UnrecognizedPrivacy>)
        ensures
            s@ == "private"@ ==> r == Ok::<Privacy, UnrecognizedPrivacy>(Privacy::Private),
            s@ == "unlisted"@ ==> r == Ok::<Privacy, UnrecognizedPrivacy>(Privacy::Unlisted),
            s@ == "public"@ ==> r == Ok::<Privacy, UnrecognizedPrivacy>(Privacy::Public),
            s@ != "private"@ && s@ != "unlisted"@ && s@ != "public"@ ==> r == Err::<
                Privacy,
                UnrecognizedPrivacy,
            >(UnrecognizedPrivacy),
    {
        proof {
            reveal_strlit("private");
            reveal_strlit("unlisted");
            reveal_strlit("public");
            assert("private"@.len() == 7);
            assert("unlisted"@.len() == 8);
            assert("public"@.len() == 6);
            assert("private"@[0] == 'p' && "public"@[0] == 'p');
            assert("private"@[1] == 'r' && "public"@[1] == 'u');
        }
        if s.eq(&<String as vstd::string::StringExecFns>::from_str("private")) {
            Ok(Privacy::Private)
        } else if s.eq(&<String as vstd::string::StringExecFns>::from_str("unlisted")) {
            Ok(Privacy::Unlisted)
        } else if s.eq(&<String as vstd::string::StringExecFns>::from_str("public")) {
            Ok(Privacy::Public)
        } else {
            Err(UnrecognizedPrivacy)
        }
    }
}

impl Default for Privacy {
    fn default() -> (r: Self)
        ensures
            r == Privacy::Public,
    {
        Privacy::Public
    }
}

impl FromStr for Privacy {
    type Err = UnrecognizedPrivacy;

    fn from_str(s: &str) -> Result<Self, UnrecognizedPrivacy> {
        Privacy::parse(&<String as vstd::string::StringExecFns>::from_str(s))
    }
}

/// The category identifiers the publish service accepts.
pub open spec fn spec_category_allowed(n: u32) -> bool {
    n == 1 || n == 2 || n == 10 || n == 15 || n == 17 || n == 18 || n == 19 || n == 20 || n == 21
        || n == 22 || n == 23 || n == 24 || n == 25 || n == 26 || n == 27 || n == 28 || n == 29
        || n == 30 || n == 31 || n == 32 || n == 33 || n == 34 || n == 35 || n == 36 || n == 37
        || n == 38 || n == 39 || n == 40 || n == 41 || n == 42 || n == 43 || n == 44
}

/// Decides [`spec_category_allowed`].
pub fn category_allowed(n: u32) -> (r: bool)
    ensures
        r == spec_category_allowed(n),
{
    n == 1 || n == 2 || n == 10 || n == 15 || (17 <= n && n <= 44)
}

/// Publish metadata, validated before admission and immutable afterwards.
#[derive(Debug, Clone, PartialEq, Eq)]
pub struct Metadata {
    pub filename: String,
    pub title: Option<String>,
    pub description: String,
    pub privacy: Privacy,
    pub tags: Vec<String>,
    pub category: u32,
    pub made_for_kids: bool,
    pub notify_subs: bool,
}

} // verus!
