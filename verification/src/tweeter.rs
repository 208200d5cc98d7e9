//! What to post about a service alert.

use crate::db::Database;
use crate::realtime::service_alerts::{
    text_for, ServiceAlertCause, ServiceAlertEffect, ServiceAlertEntity,
};
use vstd::prelude::*;

verus! {

/// The word for an effect that is worth a post.
pub open spec fn effect_word(effect: ServiceAlertEffect) -> Option<Seq<char>> {
    match effect {
        ServiceAlertEffect::NoService => Some("Cancelled"@),
        _ => None,
    }
}

/// The word for a cause that is worth a post.
pub open spec fn cause_word(cause: ServiceAlertCause) -> Option<Seq<char>> {
    match cause {
        ServiceAlertCause::TechnicalProblem => Some("Techincal Issues"@),
        ServiceAlertCause::Strike => Some("Strike"@),
        _ => None,
    }
}

/// The word for the effect of an alert, where the effect is worth a post:
/// only a service that does not run is.
pub fn alert_effect(effect: &ServiceAlertEffect) -> (r: Option<&'static str>)
    ensures
        match r {
            Some(word) => effect_word(*effect) == Some(word@),
            None => effect_word(*effect).is_none(),
        },
{
    match effect {
        ServiceAlertEffect::NoService => Some("Cancelled"),
        _ => None,
    }
}

/// The word for the cause of an alert, where the cause is worth a post:
/// technical problems and strikes are.
pub fn alert_cause(cause: &ServiceAlertCause) -> (r: Option<&'static str>)
    ensures
        match r {
            Some(word) => cause_word(*cause) == Some(word@),
            None => cause_word(*cause).is_none(),
        },
{
    match cause {
        ServiceAlertCause::TechnicalProblem => Some("Techincal Issues"),
        ServiceAlertCause::Strike => Some("Strike"),
        _ => None,
    }
}

/// The text to post for an alert, if any: the header of an alert that a
/// strike stops a service, in English or in the first language given. No
/// other alert is posted, whatever the lookups hold about the routes, stops
/// and trips that it names.
pub fn tweet_service_alert(entity: &ServiceAlertEntity, _db: &Database) -> (r: Option<String>)
    ensures
        match r {
            Some(text) => entity.alert.cause == ServiceAlertCause::Strike && entity.alert.effect
                == ServiceAlertEffect::NoService && text@ == text_for(
                entity.alert.header_text.translation@,
                Some("en"@),
            ),
            None => !(entity.alert.cause == ServiceAlertCause::Strike && entity.alert.effect
                == ServiceAlertEffect::NoService),
        },
{
    let alert = &entity.alert;
    if alert.cause == ServiceAlertCause::Strike && alert.effect == ServiceAlertEffect::NoService {
        Some(String::from_str(alert.header()))
    } else {
        None
    }
}

} // verus!
