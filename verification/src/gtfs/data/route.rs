//! Routes of the static feed, and the kinds of vehicle that serve them.

use vstd::prelude::*;

verus! {

/// The kind of vehicle on a route: the ten basic kinds, and the extended
/// kinds by their hundreds (rail, coach, urban rail, bus, tram, taxi, ...).
#[derive(Clone, Copy, Debug, PartialEq, Eq, Structural)]
pub enum RouteType {
    /// Tram, streetcar or light rail.
    Tram,
    /// Subway or metro.
    Subway,
    /// Intercity or long-distance rail.
    Rail,
    /// Short- and long-distance bus routes.
    Bus,
    /// Boat service.
    Ferry,
    /// Street-level rail cars drawn by a cable beneath the vehicle.
    CableTram,
    /// Cabins or chairs hanging from a cable.
    AerialLift,
    /// Rail for steep inclines.
    Funicular,
    /// Electric buses fed from overhead wires.
    Trolleybus,
    /// Rail on a single rail or beam.
    Monorail,
    RailwayService,
    HighSpeedRailService,
    LongDistanceTrains,
    InterRegionalRailService,
    CarTransportRailService,
    SleeperRailService,
    RegionalRailService,
    TouristRailwayService,
    RailShuttleWithinComplex,
    SuburbanRailway,
    ReplacementRailService,
    SpecialRailService,
    LorryTransportRailService,
    AllRailServices,
    CrossCountryRailService,
    VehicleTransportRailService,
    RackandPinionRailway,
    AdditionalRailService,
    CoachService,
    InternationalCoachService,
    NationalCoachService,
    ShuttleCoachService,
    RegionalCoachService,
    SpecialCoachService,
    SightseeingCoachService,
    TouristCoachService,
    CommuterCoachService,
    AllCoachServices,
    UrbanRailwayService,
    MetroService,
    UndergroundService,
    AllUrbanRailwayServices,
    BusService,
    RegionalBusService,
    ExpressBusService,
    StoppingBusService,
    LocalBusService,
    NightBusService,
    PostBusService,
    SpecialNeedsBus,
    MobilityBusService,
    MobilityBusForRegisteredDisabled,
    SightseeingBus,
    ShuttleBus,
    SchoolBus,
    SchoolandPublicServiceBus,
    RailReplacementBusService,
    DemandandResponseBusService,
    AllBusServices,
    TrolleybusService,
    TramService,
    CityTramService,
    LocalTramService,
    RegionalTramService,
    SightseeingTramService,
    ShuttleTramService,
    AllTramServices,
    WaterTransportService,
    AirService,
    FerryService,
    AerialLiftService,
    FunicularService,
    TaxiService,
    CommunalTaxiService,
    WaterTaxiService,
    RailTaxiService,
    BikeTaxiService,
    LicensedTaxiService,
    PrivateHireServiceVehicle,
    AllTaxiServices,
    MiscellaneousService,
    HorseDrawnCarriage,
}

/// The kind of vehicle that a code of the feed stands for.
pub open spec fn route_type_of(code: u16) -> Option<RouteType> {
    if code == 0 {
        Some(RouteType::Tram)
    } else if code == 1 {
        Some(RouteType::Subway)
    } else if code == 2 {
        Some(RouteType::Rail)
    } else if code == 3 {
        Some(RouteType::Bus)
    } else if code == 4 {
        Some(RouteType::Ferry)
    } else if code == 5 {
        Some(RouteType::CableTram)
    } else if code == 6 {
        Some(RouteType::AerialLift)
    } else if code == 7 {
        Some(RouteType::Funicular)
    } else if code == 11 {
        Some(RouteType::Trolleybus)
    } else if code == 12 {
        Some(RouteType::Monorail)
    } else if code == 100 {
        Some(RouteType::RailwayService)
    } else if code == 101 {
        Some(RouteType::HighSpeedRailService)
    } else if code == 102 {
        Some(RouteType::LongDistanceTrains)
    } else if code == 103 {
        Some(RouteType::InterRegionalRailService)
    } else if code == 104 {
        Some(RouteType::CarTransportRailService)
    } else if code == 105 {
        Some(RouteType::SleeperRailService)
    } else if code == 106 {
        Some(RouteType::RegionalRailService)
    } else if code == 107 {
        Some(RouteType::TouristRailwayService)
    } else if code == 108 {
        Some(RouteType::RailShuttleWithinComplex)
    } else if code == 109 {
        Some(RouteType::SuburbanRailway)
    } else if code == 110 {
        Some(RouteType::ReplacementRailService)
    } else if code == 111 {
        Some(RouteType::SpecialRailService)
    } else if code == 112 {
        Some(RouteType::LorryTransportRailService)
    } else if code == 113 {
        Some(RouteType::AllRailServices)
    } else if code == 114 {
        Some(RouteType::CrossCountryRailService)
    } else if code == 115 {
        Some(RouteType::VehicleTransportRailService)
    } else if code == 116 {
        Some(RouteType::RackandPinionRailway)
    } else if code == 117 {
        Some(RouteType::AdditionalRailService)
    } else if code == 200 {
        Some(RouteType::CoachService)
    } else if code == 201 {
        Some(RouteType::InternationalCoachService)
    } else if code == 202 {
        Some(RouteType::NationalCoachService)
    } else if code == 203 {
        Some(RouteType::ShuttleCoachService)
    } else if code == 204 {
        Some(RouteType::RegionalCoachService)
    } else if code == 205 {
        Some(RouteType::SpecialCoachService)
    } else if code == 206 {
        Some(RouteType::SightseeingCoachService)
    } else if code == 207 {
        Some(RouteType::TouristCoachService)
    } else if code == 208 {
        Some(RouteType::CommuterCoachService)
    } else if code == 209 {
        Some(RouteType::AllCoachServices)
    } else if code == 400 {
        Some(RouteType::UrbanRailwayService)
    } else if code == 401 {
        Some(RouteType::MetroService)
    } else if code == 402 {
        Some(RouteType::UndergroundService)
    } else if code == 403 {
        Some(RouteType::UrbanRailwayService)
    } else if code == 404 {
        Some(RouteType::AllUrbanRailwayServices)
    } else if code == 405 {
        Some(RouteType::Monorail)
    } else if code == 700 {
        Some(RouteType::BusService)
    } else if code == 701 {
        Some(RouteType::RegionalBusService)
    } else if code == 702 {
        Some(RouteType::ExpressBusService)
    } else if code == 703 {
        Some(RouteType::StoppingBusService)
    } else if code == 704 {
        Some(RouteType::LocalBusService)
    } else if code == 705 {
        Some(RouteType::NightBusService)
    } else if code == 706 {
        Some(RouteType::PostBusService)
    } else if code == 707 {
        Some(RouteType::SpecialNeedsBus)
    } else if code == 708 {
        Some(RouteType::MobilityBusService)
    } else if code == 709 {
        Some(RouteType::MobilityBusForRegisteredDisabled)
    } else if code == 710 {
        Some(RouteType::SightseeingBus)
    } else if code == 711 {
        Some(RouteType::ShuttleBus)
    } else if code == 712 {
        Some(RouteType::SchoolBus)
    } else if code == 713 {
        Some(RouteType::SchoolandPublicServiceBus)
    } else if code == 714 {
        Some(RouteType::RailReplacementBusService)
    } else if code == 715 {
        Some(RouteType::DemandandResponseBusService)
    } else if code == 716 {
        Some(RouteType::AllBusServices)
    } else if code == 800 {
        Some(RouteType::TrolleybusService)
    } else if code == 900 {
        Some(RouteType::TramService)
    } else if code == 901 {
        Some(RouteType::CityTramService)
    } else if code == 902 {
        Some(RouteType::LocalTramService)
    } else if code == 903 {
        Some(RouteType::RegionalTramService)
    } else if code == 904 {
        Some(RouteType::SightseeingTramService)
    } else if code == 905 {
        Some(RouteType::ShuttleTramService)
    } else if code == 906 {
        Some(RouteType::AllTramServices)
    } else if code == 1000 {
        Some(RouteType::WaterTransportService)
    } else if code == 1100 {
        Some(RouteType::AirService)
    } else if code == 1200 {
        Some(RouteType::FerryService)
    } else if code == 1300 {
        Some(RouteType::AerialLiftService)
    } else if code == 1400 {
        Some(RouteType::FunicularService)
    } else if code == 1500 {
        Some(RouteType::TaxiService)
    } else if code == 1501 {
        Some(RouteType::CommunalTaxiService)
    } else if code == 1502 {
        Some(RouteType::WaterTaxiService)
    } else if code == 1503 {
        Some(RouteType::RailTaxiService)
    } else if code == 1504 {
        Some(RouteType::BikeTaxiService)
    } else if code == 1505 {
        Some(RouteType::LicensedTaxiService)
    } else if code == 1506 {
        Some(RouteType::PrivateHireServiceVehicle)
    } else if code == 1507 {
        Some(RouteType::AllTaxiServices)
    } else if code == 1700 {
        Some(RouteType::MiscellaneousService)
    } else if code == 1702 {
        Some(RouteType::HorseDrawnCarriage)
    } else {
        None
    }
}

/// Reads the kind of vehicle from its code in the feed; `None` for a code
/// that the feed does not define.
pub fn deserialize_route_type(code: u16) -> (r: Option<RouteType>)
    ensures
        r == route_type_of(code),
{
    match code {
        0 => Some(RouteType::Tram),
        1 => Some(RouteType::Subway),
        2 => Some(RouteType::Rail),
        3 => Some(RouteType::Bus),
        4 => Some(RouteType::Ferry),
        5 => Some(RouteType::CableTram),
        6 => Some(RouteType::AerialLift),
        7 => Some(RouteType::Funicular),
        11 => Some(RouteType::Trolleybus),
        12 => Some(RouteType::Monorail),
        100 => Some(RouteType::RailwayService),
        101 => Some(RouteType::HighSpeedRailService),
        102 => Some(RouteType::LongDistanceTrains),
        103 => Some(RouteType::InterRegionalRailService),
        104 => Some(RouteType::CarTransportRailService),
        105 => Some(RouteType::SleeperRailService),
        106 => Some(RouteType::RegionalRailService),
        107 => Some(RouteType::TouristRailwayService),
        108 => Some(RouteType::RailShuttleWithinComplex),
        109 => Some(RouteType::SuburbanRailway),
        110 => Some(RouteType::ReplacementRailService),
        111 => Some(RouteType::SpecialRailService),
        112 => Some(RouteType::LorryTransportRailService),
        113 => Some(RouteType::AllRailServices),
        114 => Some(RouteType::CrossCountryRailService),
        115 => Some(RouteType::VehicleTransportRailService),
        116 => Some(RouteType::RackandPinionRailway),
        117 => Some(RouteType::AdditionalRailService),
        200 => Some(RouteType::CoachService),
        201 => Some(RouteType::InternationalCoachService),
        202 => Some(RouteType::NationalCoachService),
        203 => Some(RouteType::ShuttleCoachService),
        204 => Some(RouteType::RegionalCoachService),
        205 => Some(RouteType::SpecialCoachService),
        206 => Some(RouteType::SightseeingCoachService),
        207 => Some(RouteType::TouristCoachService),
        208 => Some(RouteType::CommuterCoachService),
        209 => Some(RouteType::AllCoachServices),
        400 => Some(RouteType::UrbanRailwayService),
        401 => Some(RouteType::MetroService),
        402 => Some(RouteType::UndergroundService),
        403 => Some(RouteType::UrbanRailwayService),
        404 => Some(RouteType::AllUrbanRailwayServices),
        405 => Some(RouteType::Monorail),
        700 => Some(RouteType::BusService),
        701 => Some(RouteType::RegionalBusService),
        702 => Some(RouteType::ExpressBusService),
        703 => Some(RouteType::StoppingBusService),
        704 => Some(RouteType::LocalBusService),
        705 => Some(RouteType::NightBusService),
        706 => Some(RouteType::PostBusService),
        707 => Some(RouteType::SpecialNeedsBus),
        708 => Some(RouteType::MobilityBusService),
        709 => Some(RouteType::MobilityBusForRegisteredDisabled),
        710 => Some(RouteType::SightseeingBus),
        711 => Some(RouteType::ShuttleBus),
        712 => Some(RouteType::SchoolBus),
        713 => Some(RouteType::SchoolandPublicServiceBus),
        714 => Some(RouteType::RailReplacementBusService),
        715 => Some(RouteType::DemandandResponseBusService),
        716 => Some(RouteType::AllBusServices),
        800 => Some(RouteType::TrolleybusService),
        900 => Some(RouteType::TramService),
        901 => Some(RouteType::CityTramService),
        902 => Some(RouteType::LocalTramService),
        903 => Some(RouteType::RegionalTramService),
        904 => Some(RouteType::SightseeingTramService),
        905 => Some(RouteType::ShuttleTramService),
        906 => Some(RouteType::AllTramServices),
        1000 => Some(RouteType::WaterTransportService),
        1100 => Some(RouteType::AirService),
        1200 => Some(RouteType::FerryService),
        1300 => Some(RouteType::AerialLiftService),
        1400 => Some(RouteType::FunicularService),
        1500 => Some(RouteType::TaxiService),
        1501 => Some(RouteType::CommunalTaxiService),
        1502 => Some(RouteType::WaterTaxiService),
        1503 => Some(RouteType::RailTaxiService),
        1504 => Some(RouteType::BikeTaxiService),
        1505 => Some(RouteType::LicensedTaxiService),
        1506 => Some(RouteType::PrivateHireServiceVehicle),
        1507 => Some(RouteType::AllTaxiServices),
        1700 => Some(RouteType::MiscellaneousService),
        1702 => Some(RouteType::HorseDrawnCarriage),
        _ => None,
    }
}

/// The name of a kind of vehicle, for display.
pub open spec fn pretty_name_of(kind: RouteType) -> Seq<char> {
    match kind {
        RouteType::Tram => "Tram"@,
        RouteType::Subway => "Subway"@,
        RouteType::Rail => "Rail"@,
        RouteType::Bus => "Bus"@,
        RouteType::Ferry => "Ferry"@,
        RouteType::CableTram => "Cable Tram"@,
        RouteType::AerialLift => "Aerial Lift"@,
        RouteType::Funicular => "Funicular"@,
        RouteType::Trolleybus => "Trolleybus"@,
        RouteType::Monorail => "Monorail"@,
        RouteType::RailwayService => "Railway Service"@,
        RouteType::HighSpeedRailService => "High Speed Rail Service"@,
        RouteType::LongDistanceTrains => "Long Distance Trains"@,
        RouteType::InterRegionalRailService => "Inter Regional Rail Service"@,
        RouteType::CarTransportRailService => "Car Transport Rail Service"@,
        RouteType::SleeperRailService => "Sleeper Rail Service"@,
        RouteType::RegionalRailService => "Regional Rail Service"@,
        RouteType::TouristRailwayService => "Tourist Railway Service"@,
        RouteType::RailShuttleWithinComplex => "Rail Shuttle Within Complex"@,
        RouteType::SuburbanRailway => "Suburban Railway"@,
        RouteType::ReplacementRailService => "Replacement Rail Service"@,
        RouteType::SpecialRailService => "Special Rail Service"@,
        RouteType::LorryTransportRailService => "Lorry Transport Rail Service"@,
        RouteType::AllRailServices => "All Rail Services"@,
        RouteType::CrossCountryRailService => "Cross Country Rail Service"@,
        RouteType::VehicleTransportRailService => "Vehicle Transport Rail Service"@,
        RouteType::RackandPinionRailway => "Rack and Pinion Railway"@,
        RouteType::AdditionalRailService => "Additional Rail Service"@,
        RouteType::CoachService => "Coach Service"@,
        RouteType::InternationalCoachService => "International Coach Service"@,
        RouteType::NationalCoachService => "National Coach Service"@,
        RouteType::ShuttleCoachService => "Shuttle Coach Service"@,
        RouteType::RegionalCoachService => "Regional Coach Service"@,
        RouteType::SpecialCoachService => "Special Coach Service"@,
        RouteType::SightseeingCoachService => "Sightseeing Coach Service"@,
        RouteType::TouristCoachService => "Tourist Coach Service"@,
        RouteType::CommuterCoachService => "Commuter Coach Service"@,
        RouteType::AllCoachServices => "All Coach Services"@,
        RouteType::UrbanRailwayService => "Urban Railway Service"@,
        RouteType::MetroService => "Metro Service"@,
        RouteType::UndergroundService => "Underground Service"@,
        RouteType::AllUrbanRailwayServices => "All Urban Railway Services"@,
        RouteType::BusService => "Bus Service"@,
        RouteType::RegionalBusService => "Regional Bus Service"@,
        RouteType::ExpressBusService => "Express Bus Service"@,
        RouteType::StoppingBusService => "Stopping Bus Service"@,
        RouteType::LocalBusService => "Local Bus Service"@,
        RouteType::NightBusService => "Night Bus Service"@,
        RouteType::PostBusService => "Post Bus Service"@,
        RouteType::SpecialNeedsBus => "Special Needs Bus"@,
        RouteType::MobilityBusService => "Mobility Bus Service"@,
        RouteType::MobilityBusForRegisteredDisabled => "Mobility Bus For Registered Disabled"@,
        RouteType::SightseeingBus => "Sightseeing Bus"@,
        RouteType::ShuttleBus => "Shuttle Bus"@,
        RouteType::SchoolBus => "School Bus"@,
        RouteType::SchoolandPublicServiceBus => "School and Public Service Bus"@,
        RouteType::RailReplacementBusService => "Rail Replacement Bus Service"@,
        RouteType::DemandandResponseBusService => "Demand and Response Bus Service"@,
        RouteType::AllBusServices => "All Bus Services"@,
        RouteType::TrolleybusService => "Trolleybus Service"@,
        RouteType::TramService => "Tram Service"@,
        RouteType::CityTramService => "City Tram Service"@,
        RouteType::LocalTramService => "Local Tram Service"@,
        RouteType::RegionalTramService => "Regional Tram Service"@,
        RouteType::SightseeingTramService => "Sightseeing Tram Service"@,
        RouteType::ShuttleTramService => "Shuttle Tram Service"@,
        RouteType::AllTramServices => "All Tram Services"@,
        RouteType::WaterTransportService => "Water Transport Service"@,
        RouteType::AirService => "Air Service"@,
        RouteType::FerryService => "Ferry Service"@,
        RouteType::AerialLiftService => "Aerial Lift Service"@,
        RouteType::FunicularService => "Funicular Service"@,
        RouteType::TaxiService => "Taxi Service"@,
        RouteType::CommunalTaxiService => "Communal Taxi Service"@,
        RouteType::WaterTaxiService => "Water Taxi Service"@,
        RouteType::RailTaxiService => "Rail Taxi Service"@,
        RouteType::BikeTaxiService => "Bike Taxi Service"@,
        RouteType::LicensedTaxiService => "Licensed Taxi Service"@,
        RouteType::PrivateHireServiceVehicle => "Private Hire Service Vehicle"@,
        RouteType::AllTaxiServices => "All Taxi Services"@,
        RouteType::MiscellaneousService => "Miscellaneous Service"@,
        RouteType::HorseDrawnCarriage => "Horse Drawn Carriage"@,
    }
}

impl RouteType {
    /// The name of the kind of vehicle, for display.
    pub fn pretty_name(&self) -> (r: &'static str)
        ensures
            r@ == pretty_name_of(*self),
    {
        match self {
            RouteType::Tram => "Tram",
            RouteType::Subway => "Subway",
            RouteType::Rail => "Rail",
            RouteType::Bus => "Bus",
            RouteType::Ferry => "Ferry",
            RouteType::CableTram => "Cable Tram",
            RouteType::AerialLift => "Aerial Lift",
            RouteType::Funicular => "Funicular",
            RouteType::Trolleybus => "Trolleybus",
            RouteType::Monorail => "Monorail",
            RouteType::RailwayService => "Railway Service",
            RouteType::HighSpeedRailService => "High Speed Rail Service",
            RouteType::LongDistanceTrains => "Long Distance Trains",
            RouteType::InterRegionalRailService => "Inter Regional Rail Service",
            RouteType::CarTransportRailService => "Car Transport Rail Service",
            RouteType::SleeperRailService => "Sleeper Rail Service",
            RouteType::RegionalRailService => "Regional Rail Service",
            RouteType::TouristRailwayService => "Tourist Railway Service",
            RouteType::RailShuttleWithinComplex => "Rail Shuttle Within Complex",
            RouteType::SuburbanRailway => "Suburban Railway",
            RouteType::ReplacementRailService => "Replacement Rail Service",
            RouteType::SpecialRailService => "Special Rail Service",
            RouteType::LorryTransportRailService => "Lorry Transport Rail Service",
            RouteType::AllRailServices => "All Rail Services",
            RouteType::CrossCountryRailService => "Cross Country Rail Service",
            RouteType::VehicleTransportRailService => "Vehicle Transport Rail Service",
            RouteType::RackandPinionRailway => "Rack and Pinion Railway",
            RouteType::AdditionalRailService => "Additional Rail Service",
            RouteType::CoachService => "Coach Service",
            RouteType::InternationalCoachService => "International Coach Service",
            RouteType::NationalCoachService => "National Coach Service",
            RouteType::ShuttleCoachService => "Shuttle Coach Service",
            RouteType::RegionalCoachService => "Regional Coach Service",
            RouteType::SpecialCoachService => "Special Coach Service",
            RouteType::SightseeingCoachService => "Sightseeing Coach Service",
            RouteType::TouristCoachService => "Tourist Coach Service",
            RouteType::CommuterCoachService => "Commuter Coach Service",
            RouteType::AllCoachServices => "All Coach Services",
            RouteType::UrbanRailwayService => "Urban Railway Service",
            RouteType::MetroService => "Metro Service",
            RouteType::UndergroundService => "Underground Service",
            RouteType::AllUrbanRailwayServices => "All Urban Railway Services",
            RouteType::BusService => "Bus Service",
            RouteType::RegionalBusService => "Regional Bus Service",
            RouteType::ExpressBusService => "Express Bus Service",
            RouteType::StoppingBusService => "Stopping Bus Service",
            RouteType::LocalBusService => "Local Bus Service",
            RouteType::NightBusService => "Night Bus Service",
            RouteType::PostBusService => "Post Bus Service",
            RouteType::SpecialNeedsBus => "Special Needs Bus",
            RouteType::MobilityBusService => "Mobility Bus Service",
            RouteType::MobilityBusForRegisteredDisabled => "Mobility Bus For Registered Disabled",
            RouteType::SightseeingBus => "Sightseeing Bus",
            RouteType::ShuttleBus => "Shuttle Bus",
            RouteType::SchoolBus => "School Bus",
            RouteType::SchoolandPublicServiceBus => "School and Public Service Bus",
            RouteType::RailReplacementBusService => "Rail Replacement Bus Service",
            RouteType::DemandandResponseBusService => "Demand and Response Bus Service",
            RouteType::AllBusServices => "All Bus Services",
            RouteType::TrolleybusService => "Trolleybus Service",
            RouteType::TramService => "Tram Service",
            RouteType::CityTramService => "City Tram Service",
            RouteType::LocalTramService => "Local Tram Service",
            RouteType::RegionalTramService => "Regional Tram Service",
            RouteType::SightseeingTramService => "Sightseeing Tram Service",
            RouteType::ShuttleTramService => "Shuttle Tram Service",
            RouteType::AllTramServices => "All Tram Services",
            RouteType::WaterTransportService => "Water Transport Service",
            RouteType::AirService => "Air Service",
            RouteType::FerryService => "Ferry Service",
            RouteType::AerialLiftService => "Aerial Lift Service",
            RouteType::FunicularService => "Funicular Service",
            RouteType::TaxiService => "Taxi Service",
            RouteType::CommunalTaxiService => "Communal Taxi Service",
            RouteType::WaterTaxiService => "Water Taxi Service",
            RouteType::RailTaxiService => "Rail Taxi Service",
            RouteType::BikeTaxiService => "Bike Taxi Service",
            RouteType::LicensedTaxiService => "Licensed Taxi Service",
            RouteType::PrivateHireServiceVehicle => "Private Hire Service Vehicle",
            RouteType::AllTaxiServices => "All Taxi Services",
            RouteType::MiscellaneousService => "Miscellaneous Service",
            RouteType::HorseDrawnCarriage => "Horse Drawn Carriage",
        }
    }
}

#[derive(Clone, Debug, PartialEq, Eq)]
pub struct Route {
    pub route_id: String,
    pub agency_id: String,
    pub route_short_name: String,
    pub route_long_name: String,
    pub route_desc: String,
    pub route_type: RouteType,
    pub route_url: String,
    pub route_color: String,
    pub route_text_color: String,
}

} // verus!
