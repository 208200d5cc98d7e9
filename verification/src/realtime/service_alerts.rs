//! Service alerts as the realtime feed gives them.

use crate::text::same_text;
use vstd::prelude::*;

verus! {

/// One download of the alert feed.
#[derive(Clone, Debug, PartialEq, Eq)]
pub struct ServiceAlertRoot {
    pub header: ServiceAlertHeader,
    pub entity: Vec<ServiceAlertEntity>,
}

/// The alerts of a list of entities, in order.
pub open spec fn alerts_of(entity: Seq<ServiceAlertEntity>) -> Seq<ServiceAlert> {
    Seq::new(entity.len(), |i: int| entity[i].alert)
}

impl ServiceAlertRoot {
    /// The alert of each entity, in the order of the feed.
    pub fn entities(&self) -> (r: Vec<&ServiceAlert>)
        ensures
            Seq::new(r@.len(), |i: int| *r@[i]) == alerts_of(self.entity@),
    {
        let mut r: Vec<&ServiceAlert> = Vec::new();
        let mut i: usize = 0;
        while i < self.entity.len()
            invariant
                i <= self.entity@.len(),
                r@.len() == i,
                forall|k: int| 0 <= k < i ==> *#[trigger] r@[k] == self.entity@[k].alert,
            decreases self.entity.len() - i,
        {
            r.push(&self.entity[i].alert);
            i = i + 1;
        }
        proof {
            assert(Seq::new(r@.len(), |i: int| *r@[i]) =~= alerts_of(self.entity@));
        }
        r
    }
}

/// Whether a download holds every alert or only the changes.
#[derive(Clone, Copy, Debug, PartialEq, Eq, Structural)]
pub enum ServiceAlertIncrementability {
    FullDataset,
    Differential,
}

/// The incrementality that a code of the feed stands for.
pub open spec fn incrementality_of(code: u8) -> Option<ServiceAlertIncrementability> {
    if code == 0 {
        Some(ServiceAlertIncrementability::FullDataset)
    } else if code == 1 {
        Some(ServiceAlertIncrementability::Differential)
    } else {
        None
    }
}

/// Reads the incrementality of a download from its code: 0 for the full
/// dataset, 1 for changes only.
pub fn deserialize_service_alert_incrementability(code: u8) -> (r: Option<
    ServiceAlertIncrementability,
>)
    ensures
        r == incrementality_of(code),
{
    if code == 0 {
        Some(ServiceAlertIncrementability::FullDataset)
    } else if code == 1 {
        Some(ServiceAlertIncrementability::Differential)
    } else {
        None
    }
}

#[derive(Clone, Debug, PartialEq, Eq)]
pub struct ServiceAlertHeader {
    pub gtfs_realtime_version: String,
    /// Seconds since the Unix epoch.
    pub timestamp: i64,
    pub incrementality: ServiceAlertIncrementability,
}

#[derive(Clone, Debug, PartialEq, Eq)]
pub struct ServiceAlertEntity {
    pub alert: ServiceAlert,
    pub id: String,
    /// Seconds since the Unix epoch.
    pub timestamp: i64,
}

#[derive(Clone, Copy, Debug, PartialEq, Eq, Structural)]
pub enum ServiceAlertEffect {
    NoService,
    ReducedService,
    SignificantDelays,
    Detour,
    AdditionalService,
    ModifiedService,
    OtherEffect,
    UnknownEffect,
    StopMoved,
    NoEffect,
    AccessibilityIssue,
}

#[derive(Clone, Copy, Debug, PartialEq, Eq, Structural)]
pub enum ServiceAlertCause {
    UnknownCause,
    OtherCause,
    TechnicalProblem,
    Strike,
    Demonstration,
    Accident,
    Holiday,
    Weather,
    Maintenance,
    Construction,
    PoliceActivity,
    MedicalEmergency,
}

#[derive(Clone, Copy, Debug, PartialEq, Eq, Structural)]
pub enum ServiceAlertSeverity {
    UnknownSeverity,
    Info,
    Warning,
    Severe,
}

#[derive(Clone, Debug, PartialEq, Eq)]
pub struct ServiceAlert {
    pub active_period: Vec<AlertTimeRange>,
    pub effect: ServiceAlertEffect,
    pub cause: ServiceAlertCause,
    pub description_text: Translatation,
    pub header_text: Translatation,
    pub informed_entity: Vec<AlertInformedEntity>,
    pub severity_level: ServiceAlertSeverity,
}

impl ServiceAlert {
    /// The description in English, or in the first language given.
    pub fn description(&self) -> (r: &str)
        ensures
            r@ == text_for(self.description_text.translation@, Some("en"@)),
    {
        self.description_text.get(Some("en"))
    }

    /// The header in English, or in the first language given.
    pub fn header(&self) -> (r: &str)
        ensures
            r@ == text_for(self.header_text.translation@, Some("en"@)),
    {
        self.header_text.get(Some("en"))
    }
}

/// A span of time, in seconds since the Unix epoch.
#[derive(Clone, Copy, Debug, PartialEq, Eq, Structural)]
pub struct AlertTimeRange {
    pub start: i64,
    pub end: i64,
}

/// A text in several languages.
#[derive(Clone, Debug, PartialEq, Eq)]
pub struct Translatation {
    pub translation: Vec<TranslatedText>,
}

#[derive(Clone, Debug, PartialEq, Eq)]
pub struct TranslatedText {
    pub language: String,
    pub text: String,
}

/// The place of the first translation into `lang`, the number of
/// translations where there is none.
pub open spec fn first_in(translation: Seq<TranslatedText>, lang: Seq<char>) -> int
    decreases translation.len(),
{
    if translation.len() == 0 {
        0
    } else if translation[0].language@ == lang {
        0
    } else {
        1 + first_in(translation.subrange(1, translation.len() as int), lang)
    }
}

/// The text of the first translation into `lang`.
pub open spec fn text_in(translation: Seq<TranslatedText>, lang: Seq<char>) -> Option<Seq<char>> {
    let place = first_in(translation, lang);
    if 0 <= place < translation.len() {
        Some(translation[place].text@)
    } else {
        None
    }
}

/// The text of the first translation into `lang`, or of the first
/// translation where there is none into `lang`.
pub open spec fn text_in_or_first(translation: Seq<TranslatedText>, lang: Seq<char>) -> Option<
    Seq<char>,
> {
    match text_in(translation, lang) {
        Some(text) => Some(text),
        None => if translation.len() > 0 {
            Some(translation[0].text@)
        } else {
            None
        },
    }
}

/// The text to show for a wanted language: empty where no language is
/// wanted or nothing is translated.
pub open spec fn text_for(translation: Seq<TranslatedText>, lang: Option<Seq<char>>) -> Seq<char> {
    match lang {
        Some(lang) => match text_in_or_first(translation, lang) {
            Some(text) => text,
            None => Seq::empty(),
        },
        None => Seq::empty(),
    }
}

/// The first translation into `lang` is at a place before which no
/// translation is into `lang`.
pub proof fn lemma_first_in(translation: Seq<TranslatedText>, lang: Seq<char>)
    ensures
        0 <= first_in(translation, lang) <= translation.len(),
        forall|k: int|
            0 <= k < first_in(translation, lang) ==> (#[trigger] translation[k]).language@ != lang,
        first_in(translation, lang) < translation.len() ==> translation[first_in(
            translation,
            lang,
        )].language@ == lang,
    decreases translation.len(),
{
    if translation.len() > 0 && translation[0].language@ != lang {
        let rest = translation.subrange(1, translation.len() as int);
        lemma_first_in(rest, lang);
        assert forall|k: int| 0 <= k < first_in(translation, lang) implies (
        #[trigger] translation[k]).language@ != lang by {
            if k > 0 {
                assert(translation[k] == rest[k - 1]);
            }
        }
    }
}

/// A place before which no translation is into `lang`, and which holds one
/// or is the end, is the place of the first.
pub proof fn lemma_first_in_is(translation: Seq<TranslatedText>, lang: Seq<char>, place: int)
    requires
        0 <= place <= translation.len(),
        forall|k: int| 0 <= k < place ==> (#[trigger] translation[k]).language@ != lang,
        place < translation.len() ==> translation[place].language@ == lang,
    ensures
        first_in(translation, lang) == place,
{
    lemma_first_in(translation, lang);
    let first = first_in(translation, lang);
    if first < place {
        assert(translation[first].language@ != lang);
    }
}

impl Translatation {
    /// The text in `lang`, from the first translation into it.
    pub fn get_by_language(&self, lang: &str) -> (r: Option<&str>)
        ensures
            match r {
                Some(text) => text_in(self.translation@, lang@) == Some(text@),
                None => text_in(self.translation@, lang@).is_none(),
            },
    {
        let mut i: usize = 0;
        while i < self.translation.len()
            invariant
                i <= self.translation@.len(),
                forall|k: int|
                    0 <= k < i ==> (#[trigger] self.translation@[k]).language@ != lang@,
            decreases self.translation.len() - i,
        {
            if same_text(self.translation[i].language.as_str(), lang) {
                proof {
                    lemma_first_in_is(self.translation@, lang@, i as int);
                }
                return Some(self.translation[i].text.as_str());
            }
            i = i + 1;
        }
        proof {
            lemma_first_in_is(self.translation@, lang@, i as int);
        }
        None
    }

    /// The text in `lang`, or the first translation where there is none
    /// into `lang`.
    pub fn get_by_language_or_first(&self, lang: &str) -> (r: Option<&str>)
        ensures
            match r {
                Some(text) => text_in_or_first(self.translation@, lang@) == Some(text@),
                None => text_in_or_first(self.translation@, lang@).is_none(),
            },
    {
        match self.get_by_language(lang) {
            Some(text) => Some(text),
            None => if self.translation.len() > 0 {
                Some(self.translation[0].text.as_str())
            } else {
                None
            },
        }
    }

    /// The text to show for a wanted language: empty where no language is
    /// wanted or nothing is translated.
    pub fn get(&self, lang: Option<&str>) -> (r: &str)
        ensures
            r@ == text_for(
                self.translation@,
                match lang {
                    Some(lang) => Some(lang@),
                    None => None,
                },
            ),
    {
        proof {
            reveal_strlit("");
            assert(""@ =~= Seq::<char>::empty());
        }
        match lang {
            Some(lang) => match self.get_by_language_or_first(lang) {
                Some(text) => text,
                None => "",
            },
            None => "",
        }
    }
}

/// What an alert is about.
#[derive(Clone, Debug, PartialEq, Eq)]
pub enum AlertInformedEntity {
    Route { route_id: String, route_type: i32 },
    Stop { stop_id: String },
    Trip { trip: TripEntity },
}

#[derive(Clone, Debug, PartialEq, Eq)]
pub struct TripEntity {
    pub trip_id: String,
}

} // verus!
