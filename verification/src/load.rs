//! Where the rule documents are looked for, how a load can fail, and what
//! the two loads give together.

use vstd::prelude::*;
use crate::merge::{merge_rules, merged_layouts};
use crate::schema::KeyboardLayouts;

verus! {

/// The base rule document of the system.
pub const X11_BASE_RULES: &'static str = "/usr/share/X11/xkb/rules/base.xml";

/// The extras rule document of the system.
pub const X11_EXTRAS_RULES: &'static str = "/usr/share/X11/xkb/rules/base.extras.xml";

/// The environment variable that names another base rule document.
pub const X11_BASE_RULES_XML: &'static str = "X11_BASE_RULES_XML";

/// The environment variable that names another extras rule document.
pub const X11_EXTRA_RULES_XML: &'static str = "X11_EXTRA_RULES_XML";

/// Why a rule document could not be loaded.
#[derive(Debug, Clone, PartialEq, Eq)]
pub enum LoadError {
    /// The file is not there, is unreadable or cannot be opened for another
    /// reason. Holds the platform's message.
    Access(String),
    /// The file was opened, but what it holds is no well-formed XML or does
    /// not follow the schema. Holds the parser's message.
    MalformedData(String),
}

impl LoadError {
    /// The message of the failure, as a sequence of characters.
    pub open spec fn spec_message(&self) -> Seq<char> {
        match self {
            LoadError::Access(message) => message@,
            LoadError::MalformedData(message) => message@,
        }
    }

    /// The message that came with the failure.
    pub fn message(&self) -> (r: &str)
        ensures
            r@ == self.spec_message(),
    {
        match self {
            LoadError::Access(message) => message.as_str(),
            LoadError::MalformedData(message) => message.as_str(),
        }
    }
}

/// Resolves the path at which a rule document is looked for, from its
/// default and from the value of the variable that overrides it, if that
/// variable is set. An overriding value is taken as it is, whatever it holds.
pub fn rules_path<'a>(default_path: &'a str, overriding: Option<&'a str>) -> (path: &'a str)
    ensures
        overriding is Some ==> path@ == overriding->0@,
        overriding is None ==> path@ == default_path@,
{
    match overriding {
        Some(given) => given,
        None => default_path,
    }
}

/// The path of the base rule document, given the value of
/// `X11_BASE_RULES_XML` if it is set.
pub fn base_rules_path<'a>(overriding: Option<&'a str>) -> (path: &'a str)
    ensures
        overriding is Some ==> path@ == overriding->0@,
        overriding is None ==> path@ == X11_BASE_RULES@,
{
    rules_path(X11_BASE_RULES, overriding)
}

/// The path of the extras rule document, given the value of
/// `X11_EXTRA_RULES_XML` if it is set.
pub fn extra_rules_path<'a>(overriding: Option<&'a str>) -> (path: &'a str)
    ensures
        overriding is Some ==> path@ == overriding->0@,
        overriding is None ==> path@ == X11_EXTRAS_RULES@,
{
    rules_path(X11_EXTRAS_RULES, overriding)
}

/// Joins the outcome of loading the base rules with that of loading the
/// extras. Where both loads gave a catalog, the result holds the layouts of
/// the base, then those of the extras. Where a load failed, its failure is
/// the result, unchanged; where both failed, that of the base.
pub fn all_keyboard_layouts(
    base_rules: Result<KeyboardLayouts, LoadError>,
    extras_rules: Result<KeyboardLayouts, LoadError>,
) -> (all: Result<KeyboardLayouts, LoadError>)
    ensures
        all is Ok <==> base_rules is Ok && extras_rules is Ok,
        all is Ok ==> all->Ok_0@ == merged_layouts(base_rules->Ok_0, extras_rules->Ok_0),
        base_rules is Err ==> all == Err::<KeyboardLayouts, LoadError>(base_rules->Err_0),
        base_rules is Ok && extras_rules is Err ==> all == Err::<KeyboardLayouts, LoadError>(
            extras_rules->Err_0,
        ),
{
    match base_rules {
        Err(why) => Err(why),
        Ok(base) => match extras_rules {
            Err(why) => Err(why),
            Ok(extras) => Ok(merge_rules(base, extras)),
        },
    }
}

} // verus!
