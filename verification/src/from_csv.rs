//! What is left of the old store: how it named acquisitions and owners, and how
//! its numbers are made readable again.
use crate::hackstead::item::Acquisition;
use vstd::prelude::*;

verus! {

/// How an owner came by an item, as the old store put it.
#[derive(Clone, Copy, Debug, PartialEq, Eq, Structural)]
pub enum OldAcquisition {
    Trade,
    Purchase { price: u64 },
    Farmed,
    Crafted,
    Hatched,
}

/// How an old acquisition is put today: a purchase counts as a trade.
pub open spec fn renewed(old: OldAcquisition) -> Acquisition {
    match old {
        OldAcquisition::Trade => Acquisition::Trade,
        OldAcquisition::Purchase { price } => Acquisition::Trade,
        OldAcquisition::Farmed => Acquisition::Farmed,
        OldAcquisition::Crafted => Acquisition::Crafted,
        OldAcquisition::Hatched => Acquisition::Hatched,
    }
}

impl From<OldAcquisition> for Acquisition {
    fn from(old: OldAcquisition) -> (a: Acquisition) {
        match old {
            OldAcquisition::Trade | OldAcquisition::Purchase { .. } => Acquisition::Trade,
            OldAcquisition::Farmed => Acquisition::Farmed,
            OldAcquisition::Crafted => Acquisition::Crafted,
            OldAcquisition::Hatched => Acquisition::Hatched,
        }
    }
}

impl vstd::std_specs::convert::FromSpecImpl<OldAcquisition> for Acquisition {
    open spec fn obeys_from_spec() -> bool {
        true
    }

    open spec fn from_spec(old: OldAcquisition) -> Acquisition {
        renewed(old)
    }
}

/// An owner, as the old store logged one.
#[derive(Debug, PartialEq, Eq)]
pub struct OldOwner {
    pub id: String,
    pub acquisition: OldAcquisition,
}

/// The pattern of a number as the old store exported it: the digits and dots
/// are the group `n`, a sign before them is not part of it.
pub const NUM_UNWRAPPER: &'static str = "Decimal\\('-?(?P<n>[\\d\\.]+)'\\)";

/// What takes the place of an exported number: its group `n`.
pub const NUM_UNWRAPPED: &'static str = "$n";

/// The text that `regex` makes of `haystack` when every match of `pattern`,
/// from the left and without overlap, is replaced by `replacement`, in which
/// `$name` stands for the group of that name; `None` where `regex` does not
/// take `pattern` for a pattern.
pub uninterp spec fn regex_replaced(
    pattern: Seq<char>,
    haystack: Seq<char>,
    replacement: Seq<char>,
) -> Option<Seq<char>>;

/// Compiles `pattern` with `regex::Regex::new` and replaces with
/// `Regex::replace_all`. The result is a function of the three texts alone,
/// and is only named here: [`regex_replaced`].
#[verifier::external_body]
fn regex_replace_all(pattern: &str, haystack: &str, replacement: &str) -> (replaced: Option<String>)
    ensures
        match replaced {
            Some(text) => regex_replaced(pattern@, haystack@, replacement@) == Some(text@),
            None => regex_replaced(pattern@, haystack@, replacement@) is None,
        },
{
    match regex::Regex::new(pattern) {
        Ok(re) => Some(re.replace_all(haystack, replacement).into_owned()),
        Err(_) => None,
    }
}

/// Puts every number that the old store exported back into plain digits.
///
/// `None` where the pattern of such numbers is refused.
pub fn num_unwrapper(text: &str) -> (fixed: Option<String>)
    ensures
        match fixed {
            Some(t) => regex_replaced(NUM_UNWRAPPER@, text@, NUM_UNWRAPPED@) == Some(t@),
            None => regex_replaced(NUM_UNWRAPPER@, text@, NUM_UNWRAPPED@) is None,
        },
{
    regex_replace_all(NUM_UNWRAPPER, text, NUM_UNWRAPPED)
}

/// The text that `str::replace` makes of `text` when every match of `from`,
/// from the left and without overlap, is replaced by `to`.
pub uninterp spec fn str_replaced(text: Seq<char>, from: Seq<char>, to: Seq<char>) -> Seq<char>;

/// Replaces with `str::replace`. The result is a function of the three texts
/// alone, and is only named here: [`str_replaced`].
#[verifier::external_body]
fn replace_all(text: &str, from: &str, to: &str) -> (replaced: String)
    ensures
        replaced@ == str_replaced(text@, from@, to@),
{
    text.replace(from, to)
}

/// What [`json_text`] makes of a text whose numbers were put back into digits:
/// single quotes become double quotes, and `False` becomes `false`.
pub open spec fn requoted(unwrapped: Seq<char>) -> Seq<char> {
    str_replaced(str_replaced(unwrapped, "'"@, "\""@), "False"@, "false"@)
}

/// Turns a value as the old store exported it into JSON: numbers are put back
/// into plain digits, single quotes become double quotes, and `False` becomes
/// `false`.
///
/// `None` where the pattern of exported numbers is refused.
pub fn json_text(text: &str) -> (fixed: Option<String>)
    ensures
        match fixed {
            Some(t) => {
                &&& regex_replaced(NUM_UNWRAPPER@, text@, NUM_UNWRAPPED@) is Some
                &&& t@ == requoted(regex_replaced(NUM_UNWRAPPER@, text@, NUM_UNWRAPPED@)->0)
            },
            None => regex_replaced(NUM_UNWRAPPER@, text@, NUM_UNWRAPPED@) is None,
        },
{
    match num_unwrapper(text) {
        Some(unwrapped) => {
            let quoted = replace_all(unwrapped.as_str(), "'", "\"");
            Some(replace_all(quoted.as_str(), "False", "false"))
        },
        None => None,
    }
}

} // verus!
