//! The names of profile directories: one per launch, never the same twice.

use vstd::prelude::*;
use vstd::string::*;
use crate::text::all_alphanumeric;

verus! {

/// The form in which the time of a launch goes into the name of its profile
/// directory: year, month and day, an underscore, hour, minute and second.
pub const STAMP_FORMAT: &'static str = "%Y%m%d_%H%M%S";

/// How many characters a stamp has at the least: four of the year, two each
/// of month, day, hour, minute and second, and the underscore.
pub const STAMP_LENGTH: usize = 15;

/// How many random characters end the name of a profile directory.
pub const SUFFIX_LENGTH: usize = 6;

/// Formats the local time of this moment with `chrono::Local::now` and
/// `format`. Trusted: it is only held to return for the one format that the
/// library uses. The text depends on the clock; what is claimed of it holds
/// whatever the clock says: `chrono` writes a year in four characters or
/// more and each of the five other fields in two, so that with the
/// underscore there are fifteen at the least.
#[verifier::external_body]
fn local_time(format: &str) -> (stamp: String)
    requires
        format@ == STAMP_FORMAT@,
    ensures
        stamp@.len() >= STAMP_LENGTH,
{
    chrono::Local::now().format(format).to_string()
}

/// Draws `length` characters with `rand::rng` from
/// `rand::distr::Alphanumeric`. Trusted: as that distribution is documented,
/// every character is an ASCII letter or digit, and there are `length` of
/// them; which ones is left to chance.
#[verifier::external_body]
fn random_alphanumeric(length: usize) -> (drawn: String)
    ensures
        drawn@.len() == length,
        all_alphanumeric(drawn@),
{
    rand::Rng::sample_iter(rand::rng(), rand::distr::Alphanumeric).take(length).map(char::from).collect()
}

/// The name of a profile directory: the prefix, the time of the launch and a
/// random suffix, joined by underscores.
pub open spec fn profile_name(prefix: Seq<char>, stamp: Seq<char>, suffix: Seq<char>) -> Seq<
    char,
> {
    prefix + "_"@ + stamp + "_"@ + suffix
}

/// Puts the name of a profile directory together.
pub fn profile_dir_name(prefix: &str, stamp: &str, suffix: &str) -> (name: String)
    ensures
        name@ == profile_name(prefix@, stamp@, suffix@),
{
    let mut name = String::from_str(prefix);
    name.append("_");
    name.append(stamp);
    name.append("_");
    name.append(suffix);
    name
}

/// Makes up the name of the profile directory of a launch that happens now:
/// the stamp is the local time, fifteen characters or more, and the suffix
/// six random letters and digits, so that launches of the same second get
/// different directories.
pub fn fresh_profile_name(prefix: &str) -> (name: String)
    ensures
        exists|stamp: Seq<char>, suffix: Seq<char>|
            #![trigger profile_name(prefix@, stamp, suffix)]
            name@ == profile_name(prefix@, stamp, suffix) && stamp.len() >= STAMP_LENGTH
                && suffix.len() == SUFFIX_LENGTH && all_alphanumeric(suffix),
{
    let stamp = local_time(STAMP_FORMAT);
    let suffix = random_alphanumeric(SUFFIX_LENGTH);
    let name = profile_dir_name(prefix, stamp.as_str(), suffix.as_str());
    assert(name@ == profile_name(prefix@, stamp@, suffix@));
    name
}

} // verus!
