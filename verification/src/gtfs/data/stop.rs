//! Kinds of stop and of boarding in the static feed.

use vstd::prelude::*;

verus! {

#[derive(Clone, Copy, Debug, PartialEq, Eq, Structural)]
pub enum StopLocationType {
    /// Where passengers board or leave a vehicle; a platform inside a station.
    StopOrPlatform,
    /// A structure or area that holds one or more platforms.
    Station,
    /// Where passengers enter or leave a station from the street.
    EntranceExit,
    /// A place inside a station that links pathways.
    GenericNode,
    /// A place on a platform where passengers board or leave.
    BoardingArea,
}

/// The kind of stop that a code of the feed stands for.
pub open spec fn stop_location_type_of(code: u8) -> Option<StopLocationType> {
    if code == 0 {
        Some(StopLocationType::StopOrPlatform)
    } else if code == 1 {
        Some(StopLocationType::Station)
    } else if code == 2 {
        Some(StopLocationType::EntranceExit)
    } else if code == 3 {
        Some(StopLocationType::GenericNode)
    } else if code == 4 {
        Some(StopLocationType::BoardingArea)
    } else {
        None
    }
}

/// Reads the kind of stop from its code in the feed.
pub fn deserialize_stop_location_type(code: u8) -> (r: Option<StopLocationType>)
    ensures
        r == stop_location_type_of(code),
{
    match code {
        0 => Some(StopLocationType::StopOrPlatform),
        1 => Some(StopLocationType::Station),
        2 => Some(StopLocationType::EntranceExit),
        3 => Some(StopLocationType::GenericNode),
        4 => Some(StopLocationType::BoardingArea),
        _ => None,
    }
}

#[derive(Clone, Copy, Debug, PartialEq, Eq, Structural)]
pub enum PickupDropoffType {
    Regular,
    NotAvaliable,
    PhoneAgency,
    CoordinateDriver,
}

/// The kind of boarding that a field of the feed stands for; an empty
/// field stands for none.
pub open spec fn pickup_dropoff_type_of(code: Option<u8>) -> Option<PickupDropoffType> {
    match code {
        Some(code) => if code == 0 {
            Some(PickupDropoffType::Regular)
        } else if code == 1 {
            Some(PickupDropoffType::NotAvaliable)
        } else if code == 2 {
            Some(PickupDropoffType::PhoneAgency)
        } else if code == 3 {
            Some(PickupDropoffType::CoordinateDriver)
        } else {
            None
        },
        None => None,
    }
}

/// Reads the kind of boarding from its field in the feed.
pub fn deserialize_pickup_dropoff_type(code: Option<u8>) -> (r: Option<PickupDropoffType>)
    ensures
        r == pickup_dropoff_type_of(code),
{
    match code {
        Some(0) => Some(PickupDropoffType::Regular),
        Some(1) => Some(PickupDropoffType::NotAvaliable),
        Some(2) => Some(PickupDropoffType::PhoneAgency),
        Some(3) => Some(PickupDropoffType::CoordinateDriver),
        _ => None,
    }
}

} // verus!
