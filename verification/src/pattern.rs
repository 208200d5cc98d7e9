//! The catalog of message templates.
//!
//! Each template is a regular expression over the whole message. All of
//! them share three parts: the route (`Bus 3`, with `Bua` and a missing
//! space tolerated), the clock time (`10:30am`, `6pm`, `5.10`) and the
//! journey (`Karori - Miramar`, `from Naenae to Petone`). What follows the
//! journey tells the templates apart.

use vstd::prelude::*;

verus! {

#[verifier::external_type_specification]
#[verifier::external_body]
pub struct ExRegexError(regex::Error);

/// A kind of notice that the catalog knows how to read.
#[derive(Clone, Copy, Debug, PartialEq, Eq, Structural)]
pub enum Template {
    /// A cancelled journey runs after all.
    Reinstated,
    /// A delay given as `delayed by N minutes`, or as a range of minutes.
    DelayedByMinutes,
    /// A delay given as `will run N minutes late`.
    DelayedRunningLate,
    /// A delay of unknown length.
    DelayedIndeterminate,
    /// Part of the journey is cancelled, between two named stops.
    PartCancelledBetween,
    /// As `PartCancelledBetween`, in a message that names no origin.
    PartCancelledBetweenNoOrigin,
    /// The journey is cancelled from a named stop to its destination.
    PartCancelledFrom,
    /// The whole journey is cancelled.
    FullCancel,
}

/// The number of templates in the catalog.
pub const CATALOG_LEN: usize = 8;

/// The catalog in the order in which its templates are tried. The stricter
/// templates come first: the pattern of a whole cancellation would also
/// match most of the others.
pub open spec fn catalog() -> Seq<Template> {
    seq![
        Template::Reinstated,
        Template::DelayedByMinutes,
        Template::DelayedRunningLate,
        Template::DelayedIndeterminate,
        Template::PartCancelledBetween,
        Template::PartCancelledBetweenNoOrigin,
        Template::PartCancelledFrom,
        Template::FullCancel,
    ]
}

/// The route: `Bus`, or `Bua` as it is sometimes mistyped, and the route's
/// number, which may end in a letter for an express service.
pub const BUS_NUM_RE: &'static str = "Bu[sa] ?(?P<bus_num>[0-9ex]+)";

/// The clock time: an hour, the minute after a colon or a dot where there
/// is one, and `am` or `pm` where the message gives it.
pub const TIME_RE: &'static str =
    "(?P<hour>[0-9]{1,2})(?:[.:](?P<minute>[0-9]{2}))?(?P<period>am|pm|m|)";

/// The journey: origin and destination around `to`, `tp` or a hyphen.
pub const BUS_DEST_RE: &'static str = "(?:from )?(?P<origin>.*?) (?:to|tp|-) (?P<destination>.*?)";

/// The journey of a message that names no origin.
pub const BUS_DEST_ONLY_RE: &'static str = "(?:to|-) (?P<destination>.*?)";

/// What a template expects between the route and the clock time.
pub open spec fn after_route(template: Template) -> Seq<char> {
    match template {
        Template::Reinstated => ": *"@,
        Template::FullCancel => "(?:: +|:| )"@,
        _ => ": "@,
    }
}

/// What a template expects between the clock time and the journey.
pub open spec fn after_time(template: Template) -> Seq<char> {
    match template {
        Template::FullCancel => "[:]? "@,
        _ => " "@,
    }
}

/// How a template expects the journey to be written.
pub open spec fn journey(template: Template) -> Seq<char> {
    match template {
        Template::PartCancelledBetweenNoOrigin => BUS_DEST_ONLY_RE@,
        _ => BUS_DEST_RE@,
    }
}

/// What a template expects after the journey.
pub open spec fn ending(template: Template) -> Seq<char> {
    match template {
        Template::Reinstated =>
            " +(?:is REINSTATED|is reinstated|has been REINSTATED|has been reinstated and will now run|t?hat was(?: previously)? cancelled will now run|will now run)"@,
        Template::DelayedByMinutes =>
            " +(?:is|has been|will be) delayed(?: by)? (?:[0-9]+-)?(?P<delay_mins>[0-9]+) min"@,
        Template::DelayedRunningLate =>
            " +(?:will) run (?:[0-9]+-)?(?P<delay_mins>[0-9]+) minutes? late\\."@,
        Template::DelayedIndeterminate =>
            " (has been|is) delayed(?: due to vehicle breakdown| due to road block|)\\."@,
        Template::PartCancelledBetween =>
            "(?: is| has been| will be|\\. Is|) part[- ]cancelled (?:between|from) (?P<cancelled_from>.*?) (?:and|to|&amp;|&) (?P<cancelled_to>.*?) *\\."@,
        Template::PartCancelledBetweenNoOrigin =>
            " (?:is|has been) part[- ]cancelled between (?P<cancelled_from>.*?) (?:and|to|&amp;|&) (?P<cancelled_to>.*?) *\\."@,
        Template::PartCancelledFrom =>
            " +(?:is|has been) part[- ]cancelled from (?P<cancelled_from>.*?)\\."@,
        Template::FullCancel => " +(?:(?:is|has been|was) |)cancelled"@,
    }
}

/// The regular expression of a template: the route, the clock time and the
/// journey, with what the template expects between and after them.
pub open spec fn pattern_text(template: Template) -> Seq<char> {
    BUS_NUM_RE@ + after_route(template) + TIME_RE@ + after_time(template) + journey(template)
        + ending(template)
}

impl Template {
    fn after_route(&self) -> (r: &'static str)
        ensures
            r@ == after_route(*self),
    {
        match self {
            Template::Reinstated => ": *",
            Template::FullCancel => "(?:: +|:| )",
            _ => ": ",
        }
    }

    fn after_time(&self) -> (r: &'static str)
        ensures
            r@ == after_time(*self),
    {
        match self {
            Template::FullCancel => "[:]? ",
            _ => " ",
        }
    }

    fn journey(&self) -> (r: &'static str)
        ensures
            r@ == journey(*self),
    {
        match self {
            Template::PartCancelledBetweenNoOrigin => BUS_DEST_ONLY_RE,
            _ => BUS_DEST_RE,
        }
    }

    fn ending(&self) -> (r: &'static str)
        ensures
            r@ == ending(*self),
    {
        match self {
            Template::Reinstated =>
                " +(?:is REINSTATED|is reinstated|has been REINSTATED|has been reinstated and will now run|t?hat was(?: previously)? cancelled will now run|will now run)",
            Template::DelayedByMinutes =>
                " +(?:is|has been|will be) delayed(?: by)? (?:[0-9]+-)?(?P<delay_mins>[0-9]+) min",
            Template::DelayedRunningLate =>
                " +(?:will) run (?:[0-9]+-)?(?P<delay_mins>[0-9]+) minutes? late\\.",
            Template::DelayedIndeterminate =>
                " (has been|is) delayed(?: due to vehicle breakdown| due to road block|)\\.",
            Template::PartCancelledBetween =>
                "(?: is| has been| will be|\\. Is|) part[- ]cancelled (?:between|from) (?P<cancelled_from>.*?) (?:and|to|&amp;|&) (?P<cancelled_to>.*?) *\\.",
            Template::PartCancelledBetweenNoOrigin =>
                " (?:is|has been) part[- ]cancelled between (?P<cancelled_from>.*?) (?:and|to|&amp;|&) (?P<cancelled_to>.*?) *\\.",
            Template::PartCancelledFrom =>
                " +(?:is|has been) part[- ]cancelled from (?P<cancelled_from>.*?)\\.",
            Template::FullCancel => " +(?:(?:is|has been|was) |)cancelled",
        }
    }

    /// The regular expression of the template.
    pub fn pattern(&self) -> (r: String)
        ensures
            r@ == pattern_text(*self),
    {
        let mut r = String::from_str(BUS_NUM_RE);
        r.append(self.after_route());
        r.append(TIME_RE);
        r.append(self.after_time());
        r.append(self.journey());
        r.append(self.ending());
        r
    }
}

/// The templates in the order in which they are tried.
pub fn templates() -> (r: Vec<Template>)
    ensures
        r@ == catalog(),
{
    let r = vec![
        Template::Reinstated,
        Template::DelayedByMinutes,
        Template::DelayedRunningLate,
        Template::DelayedIndeterminate,
        Template::PartCancelledBetween,
        Template::PartCancelledBetweenNoOrigin,
        Template::PartCancelledFrom,
        Template::FullCancel,
    ];
    assert(r@ =~= catalog());
    r
}

/// The template at a place in the catalog.
pub fn template_at(place: usize) -> (r: Template)
    requires
        place < CATALOG_LEN,
    ensures
        r == catalog()[place as int],
{
    if place == 0 {
        Template::Reinstated
    } else if place == 1 {
        Template::DelayedByMinutes
    } else if place == 2 {
        Template::DelayedRunningLate
    } else if place == 3 {
        Template::DelayedIndeterminate
    } else if place == 4 {
        Template::PartCancelledBetween
    } else if place == 5 {
        Template::PartCancelledBetweenNoOrigin
    } else if place == 6 {
        Template::PartCancelledFrom
    } else {
        Template::FullCancel
    }
}

/// The capture groups of a match: the text of each group that took part,
/// the whole match first.
pub type Groups = Seq<Option<Seq<char>>>;

/// Whether the regular-expression engine accepts `pattern`.
pub uninterp spec fn regex_accepts(pattern: Seq<char>) -> bool;

/// The capture groups of the leftmost match of `pattern` in `text`, `None`
/// where `pattern` matches nowhere in `text`.
pub uninterp spec fn regex_captures(pattern: Seq<char>, text: Seq<char>) -> Option<
    Seq<Option<Seq<char>>>,
>;

/// The groups of a match as characters.
pub open spec fn groups_view(groups: Seq<Option<String>>) -> Seq<Option<Seq<char>>> {
    Seq::new(
        groups.len(),
        |i: int|
            match groups[i] {
                Some(s) => Some(s@),
                None => None,
            },
    )
}

/// A search result as characters.
pub open spec fn found_view(found: Option<Vec<Option<String>>>) -> Option<
    Seq<Option<Seq<char>>>,
> {
    match found {
        Some(groups) => Some(groups_view(groups@)),
        None => None,
    }
}

/// `regex::Regex::new` on `pattern`, then `regex::Regex::captures` on
/// `text`. It fails exactly where the engine refuses the pattern. Else it
/// gives the capture groups of the leftmost match, each as the text it
/// matched, or `None` where there is no match. Both depend on the
/// arguments alone.
#[verifier::external_body]
pub(crate) fn captures(pattern: &str, text: &str) -> (r: Result<
    Option<Vec<Option<String>>>,
    regex::Error,
>)
    ensures
        r.is_ok() == regex_accepts(pattern@),
        r matches Ok(found) ==> found_view(found) == regex_captures(pattern@, text@),
{
    let re = regex::Regex::new(pattern)?;
    Ok(re.captures(text).map(|c| c.iter().map(|g| g.map(|m| m.as_str().to_string())).collect()))
}

} // verus!
