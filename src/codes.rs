use vstd::prelude::*;
use crate::error::DecodeReason;

verus! {

/// Whether every character of `s` is a decimal digit.
pub open spec fn all_decimal(s: Seq<char>) -> bool {
    forall|i: int| 0 <= i < s.len() ==> '0' <= #[trigger] s[i] && s[i] <= '9'
}

/// The number written by the decimal digits `s`.
pub open spec fn decimal_value(s: Seq<char>) -> nat
    decreases s.len(),
{
    if s.len() == 0 {
        0
    } else {
        (decimal_value(s.drop_last()) * 10 + (s.last() as int - '0' as int)) as nat
    }
}

/// Whether `s` is a non-empty run of decimal digits whose value fits in a `u64`.
pub open spec fn is_u64_text(s: Seq<char>) -> bool {
    s.len() > 0 && all_decimal(s) && decimal_value(s) <= u64::MAX
}

proof fn lemma_decimal_prefix_grows(s: Seq<char>, i: int)
    requires
        all_decimal(s),
        0 <= i <= s.len(),
    ensures
        decimal_value(s.take(i)) <= decimal_value(s),
    decreases s.len() - i,
{
    if i < s.len() {
        lemma_decimal_prefix_grows(s, i + 1);
        assert(s.take(i + 1).drop_last() =~= s.take(i));
    } else {
        assert(s.take(i) =~= s);
    }
}

/// Reads a non-negative decimal integer.
pub fn parse_u64(s: &str) -> (r: Option<u64>)
    ensures
        r is Some <==> is_u64_text(s@),
        r matches Some(v) ==> v == decimal_value(s@),
{
    let cs = crate::text::chars_of(s);
    if cs.len() == 0 {
        return None;
    }
    let mut value: u64 = 0;
    let mut i: usize = 0;
    while i < cs.len()
        invariant
            cs@ == s@,
            i <= cs@.len(),
            all_decimal(cs@.take(i as int)),
            value == decimal_value(cs@.take(i as int)),
        decreases cs@.len() - i,
    {
        let c = cs[i];
        assert(cs@.take(i as int + 1).drop_last() =~= cs@.take(i as int));
        if c < '0' || c > '9' {
            assert(!all_decimal(s@)) by {
                assert(!('0' <= s@[i as int] && s@[i as int] <= '9'));
            }
            return None;
        }
        let d = (c as u32 - '0' as u32) as u64;
        if value > (u64::MAX - d) / 10 {
            proof {
                assert(decimal_value(cs@.take(i as int + 1)) > u64::MAX);
                if all_decimal(s@) {
                    lemma_decimal_prefix_grows(s@, i as int + 1);
                }
            }
            return None;
        }
        value = value * 10 + d;
        i = i + 1;
    }
    assert(cs@.take(i as int) =~= s@);
    Some(value)
}

/// An enumeration whose labels are written as integer codes.
pub trait CodedEnum: Sized {
    /// The code that writes this label.
    spec fn code_of(&self) -> u64;

    /// The code that writes this label.
    fn code(&self) -> (r: u64)
        ensures
            r == self.code_of();

    /// The label written by `c`, if `c` is one of the enumeration's codes.
    fn from_code(c: u64) -> (r: Option<Self>)
        ensures
            r matches Some(k) ==> k.code_of() == c,
            r is None ==> forall|k: Self| #[trigger] k.code_of() != c;
}

/// Why decoding `s` as a code of `E` fails, or `None` where it names a label.
pub open spec fn code_reason<E: CodedEnum>(s: Seq<char>) -> Option<DecodeReason> {
    if !is_u64_text(s) {
        Some(DecodeReason::NotAnInteger)
    } else if exists|k: E| #[trigger] k.code_of() == decimal_value(s) {
        None
    } else {
        Some(DecodeReason::UnknownCode { value: decimal_value(s) as u64 })
    }
}

/// Decodes a field that holds the integer code of a label of `E`.
pub fn decode_code<E: CodedEnum>(s: &str) -> (r: Result<E, DecodeReason>)
    ensures
        !is_u64_text(s@) ==> r == Err::<E, DecodeReason>(DecodeReason::NotAnInteger),
        is_u64_text(s@) ==> match r {
            Ok(k) => k.code_of() == decimal_value(s@),
            Err(e) => e == DecodeReason::UnknownCode { value: decimal_value(s@) as u64 }
                && forall|k: E| #[trigger] k.code_of() != decimal_value(s@),
        },
        match r {
            Ok(k) => code_reason::<E>(s@) is None && k.code_of() == decimal_value(s@),
            Err(e) => code_reason::<E>(s@) == Some(e),
        },
{
    match parse_u64(s) {
        None => Err(DecodeReason::NotAnInteger),
        Some(c) => match E::from_code(c) {
            Some(k) => Ok(k),
            None => Err(DecodeReason::UnknownCode { value: c }),
        },
    }
}

/// The type of transportation used on a route: the basic GTFS codes and the
/// extended (European HVT) codes.
#[derive(Debug, Clone, Copy, PartialEq, Eq, Structural)]
pub enum RouteKind {
    /// Tram, Streetcar, Light rail.
    /// Any light rail or street level system within a metropolitan area.
    Tram,
    /// Subway, Metro.
    /// Any underground rail system within a metropolitan area.
    Metro,
    /// Rail.
    /// Used for intercity or long-distance travel.
    Rail,
    /// Bus.
    /// Used for short- and long-distance bus routes.
    Bus,
    /// Ferry.
    /// Used for short- and long-distance boat service.
    Ferry,
    /// Cable tram.
    /// Used for street-level rail cars where the cable runs beneath the vehicle,
    /// e.g., cable car in San Francisco.
    CableTram,
    /// Aerial lift, suspended cable car (e.g., gondola lift, aerial tramway).
    /// Cable transport where cabins, cars,
    /// gondolas or open chairs are suspended by means of one or more cables.
    AerialLift,
    /// Funicular.
    /// Any rail system designed for steep inclines.
    Funicular,
    /// Trolleybus.
    /// Electric buses that draw power from overhead wires using poles.
    Trolleybus,
    /// Monorail.
    /// Railway in which the track consists of a single rail or a beam.
    Monorail,
    RailwayServicetApplicable,
    /// TGV (FR), ICE (DE), Eurostar (GB)
    HighSpeedRailService,
    /// InterCity/EuroCity
    LongDistanceTrains,
    /// InterRegio (DE), Cross County Rail (GB)
    InterRegionalRailService,
    CarTransportRailService,
    /// GNER Sleeper (GB)
    SleeperRailService,
    /// TER (FR), Regionalzug (DE)
    RegionalRailService,
    /// Romney, Hythe & Dymchurch (GB)
    TouristRailwayService,
    /// Rail Shuttle (Within Complex)
    /// Gatwick Shuttle (GB), Sky Line (DE)
    RailShuttle,
    /// S-Bahn (DE), RER (FR), S-tog (Kopenhagen)
    SuburbanRailway,
    ReplacementRailService,
    SpecialRailService,
    LorryTransportRailService,
    AllRailService,
    CrossCountryRailService,
    VehicleTransportRailService,
    /// Rochers de Naye (CH), Dolderbahn (CH)
    RackAndPinionRailway,
    AdditionalRailService,
    CoachService,
    /// EuroLine, Touring
    InternationalCoachService,
    /// National Express (GB)
    NationalCoachService,
    /// Roissy Bus (FR), Reading-Heathrow (GB)
    ShuttleCoachService,
    RegionalCoachService,
    SpecialCoachService,
    SightseeingCoachService,
    TouristCoachService,
    CommuterCoachService,
    AllCoachService,
    UrbanRailwayService,
    /// Métro de Paris
    MetroService,
    /// London Underground, U-Bahn
    UndergroundService,
    UrbanRailwayService2,
    AllUrbanRailwayService,
    Monorai,
    BusService,
    /// Eastbourne-Maidstone (GB)
    RegionalBusService,
    /// X19 Wokingham-Heathrow (GB)
    ExpressBusService,
    /// 38 London: Clapton Pond-Victoria (GB)
    StoppingBusService,
    LocalBusService,
    /// N prefixed buses in London (GB)
    NightBusService,
    /// Rural post bus services (GB)
    PostBusService,
    SpecialNeedsBus,
    MobilityBusService,
    MobilityBusRegisteredDisabled,
    SightseeingBus,
    /// 747 Heathrow-Gatwick Airport Service (GB)
    ShuttleBus,
    SchoolBus,
    SchoolandPublicServiceBus,
    RailReplacementBusService,
    DemandandResponseBusService,
    AllBusService,
    TrolleybusService,
    TramService,
    CityTramService,
    /// Munich (DE), Brussels (BE), Croydon (GB)
    LocalTramService,
    RegionalTramService,
    /// Blackpoo lSeafront (GB)
    SightseeingTramService,
    ShuttleTramService,
    AllTramService,
    WaterTransportService,
    AirService,
    FerryService,
    /// Telefèric de Montjuïc (ES), Saleve (CH), Roosevelt Island Tramway (US)
    AerialLiftService,
    TelecabinService,
    CableCarService,
    ElevatorService,
    ChairLiftService,
    DragLiftService,
    SmallTelecabinService,
    AllTelecabinService,
    /// Rigiblick (Zürich, CH)
    FunicularService,
    TaxiService,
    /// Marshrutka (RU), dolmuş (TR)
    CommunalTaxiService,
    WaterTaxiService,
    RailTaxiService,
    BikeTaxiService,
    LicensedTaxiService,
    PrivateHireServiceVehicle,
    AllTaxiService,
    MiscellaneousService,
    /// Cable car outside an aerial-lift network.
    CableCar,
    HorsedrawnCarriage,
}

impl CodedEnum for RouteKind {
    open spec fn code_of(&self) -> u64 {
        match self {
            RouteKind::Tram => 0,
            RouteKind::Metro => 1,
            RouteKind::Rail => 2,
            RouteKind::Bus => 3,
            RouteKind::Ferry => 4,
            RouteKind::CableTram => 5,
            RouteKind::AerialLift => 6,
            RouteKind::Funicular => 7,
            RouteKind::Trolleybus => 11,
            RouteKind::Monorail => 12,
            RouteKind::RailwayServicetApplicable => 100,
            RouteKind::HighSpeedRailService => 101,
            RouteKind::LongDistanceTrains => 102,
            RouteKind::InterRegionalRailService => 103,
            RouteKind::CarTransportRailService => 104,
            RouteKind::SleeperRailService => 105,
            RouteKind::RegionalRailService => 106,
            RouteKind::TouristRailwayService => 107,
            RouteKind::RailShuttle => 108,
            RouteKind::SuburbanRailway => 109,
            RouteKind::ReplacementRailService => 110,
            RouteKind::SpecialRailService => 111,
            RouteKind::LorryTransportRailService => 112,
            RouteKind::AllRailService => 113,
            RouteKind::CrossCountryRailService => 114,
            RouteKind::VehicleTransportRailService => 115,
            RouteKind::RackAndPinionRailway => 116,
            RouteKind::AdditionalRailService => 117,
            RouteKind::CoachService => 200,
            RouteKind::InternationalCoachService => 201,
            RouteKind::NationalCoachService => 202,
            RouteKind::ShuttleCoachService => 203,
            RouteKind::RegionalCoachService => 204,
            RouteKind::SpecialCoachService => 205,
            RouteKind::SightseeingCoachService => 206,
            RouteKind::TouristCoachService => 207,
            RouteKind::CommuterCoachService => 208,
            RouteKind::AllCoachService => 209,
            RouteKind::UrbanRailwayService => 400,
            RouteKind::MetroService => 401,
            RouteKind::UndergroundService => 402,
            RouteKind::UrbanRailwayService2 => 403,
            RouteKind::AllUrbanRailwayService => 404,
            RouteKind::Monorai => 405,
            RouteKind::BusService => 700,
            RouteKind::RegionalBusService => 701,
            RouteKind::ExpressBusService => 702,
            RouteKind::StoppingBusService => 703,
            RouteKind::LocalBusService => 704,
            RouteKind::NightBusService => 705,
            RouteKind::PostBusService => 706,
            RouteKind::SpecialNeedsBus => 707,
            RouteKind::MobilityBusService => 708,
            RouteKind::MobilityBusRegisteredDisabled => 709,
            RouteKind::SightseeingBus => 710,
            RouteKind::ShuttleBus => 711,
            RouteKind::SchoolBus => 712,
            RouteKind::SchoolandPublicServiceBus => 713,
            RouteKind::RailReplacementBusService => 714,
            RouteKind::DemandandResponseBusService => 715,
            RouteKind::AllBusService => 716,
            RouteKind::TrolleybusService => 800,
            RouteKind::TramService => 900,
            RouteKind::CityTramService => 901,
            RouteKind::LocalTramService => 902,
            RouteKind::RegionalTramService => 903,
            RouteKind::SightseeingTramService => 904,
            RouteKind::ShuttleTramService => 905,
            RouteKind::AllTramService => 906,
            RouteKind::WaterTransportService => 1000,
            RouteKind::AirService => 1100,
            RouteKind::FerryService => 1200,
            RouteKind::AerialLiftService => 1300,
            RouteKind::TelecabinService => 1301,
            RouteKind::CableCarService => 1302,
            RouteKind::ElevatorService => 1303,
            RouteKind::ChairLiftService => 1304,
            RouteKind::DragLiftService => 1305,
            RouteKind::SmallTelecabinService => 1306,
            RouteKind::AllTelecabinService => 1307,
            RouteKind::FunicularService => 1400,
            RouteKind::TaxiService => 1500,
            RouteKind::CommunalTaxiService => 1501,
            RouteKind::WaterTaxiService => 1502,
            RouteKind::RailTaxiService => 1503,
            RouteKind::BikeTaxiService => 1504,
            RouteKind::LicensedTaxiService => 1505,
            RouteKind::PrivateHireServiceVehicle => 1506,
            RouteKind::AllTaxiService => 1507,
            RouteKind::MiscellaneousService => 1700,
            RouteKind::CableCar => 1701,
            RouteKind::HorsedrawnCarriage => 1702,
        }
    }

    fn code(&self) -> (r: u64) {
        match self {
            RouteKind::Tram => 0,
            RouteKind::Metro => 1,
            RouteKind::Rail => 2,
            RouteKind::Bus => 3,
            RouteKind::Ferry => 4,
            RouteKind::CableTram => 5,
            RouteKind::AerialLift => 6,
            RouteKind::Funicular => 7,
            RouteKind::Trolleybus => 11,
            RouteKind::Monorail => 12,
            RouteKind::RailwayServicetApplicable => 100,
            RouteKind::HighSpeedRailService => 101,
            RouteKind::LongDistanceTrains => 102,
            RouteKind::InterRegionalRailService => 103,
            RouteKind::CarTransportRailService => 104,
            RouteKind::SleeperRailService => 105,
            RouteKind::RegionalRailService => 106,
            RouteKind::TouristRailwayService => 107,
            RouteKind::RailShuttle => 108,
            RouteKind::SuburbanRailway => 109,
            RouteKind::ReplacementRailService => 110,
            RouteKind::SpecialRailService => 111,
            RouteKind::LorryTransportRailService => 112,
            RouteKind::AllRailService => 113,
            RouteKind::CrossCountryRailService => 114,
            RouteKind::VehicleTransportRailService => 115,
            RouteKind::RackAndPinionRailway => 116,
            RouteKind::AdditionalRailService => 117,
            RouteKind::CoachService => 200,
            RouteKind::InternationalCoachService => 201,
            RouteKind::NationalCoachService => 202,
            RouteKind::ShuttleCoachService => 203,
            RouteKind::RegionalCoachService => 204,
            RouteKind::SpecialCoachService => 205,
            RouteKind::SightseeingCoachService => 206,
            RouteKind::TouristCoachService => 207,
            RouteKind::CommuterCoachService => 208,
            RouteKind::AllCoachService => 209,
            RouteKind::UrbanRailwayService => 400,
            RouteKind::MetroService => 401,
            RouteKind::UndergroundService => 402,
            RouteKind::UrbanRailwayService2 => 403,
            RouteKind::AllUrbanRailwayService => 404,
            RouteKind::Monorai => 405,
            RouteKind::BusService => 700,
            RouteKind::RegionalBusService => 701,
            RouteKind::ExpressBusService => 702,
            RouteKind::StoppingBusService => 703,
            RouteKind::LocalBusService => 704,
            RouteKind::NightBusService => 705,
            RouteKind::PostBusService => 706,
            RouteKind::SpecialNeedsBus => 707,
            RouteKind::MobilityBusService => 708,
            RouteKind::MobilityBusRegisteredDisabled => 709,
            RouteKind::SightseeingBus => 710,
            RouteKind::ShuttleBus => 711,
            RouteKind::SchoolBus => 712,
            RouteKind::SchoolandPublicServiceBus => 713,
            RouteKind::RailReplacementBusService => 714,
            RouteKind::DemandandResponseBusService => 715,
            RouteKind::AllBusService => 716,
            RouteKind::TrolleybusService => 800,
            RouteKind::TramService => 900,
            RouteKind::CityTramService => 901,
            RouteKind::LocalTramService => 902,
            RouteKind::RegionalTramService => 903,
            RouteKind::SightseeingTramService => 904,
            RouteKind::ShuttleTramService => 905,
            RouteKind::AllTramService => 906,
            RouteKind::WaterTransportService => 1000,
            RouteKind::AirService => 1100,
            RouteKind::FerryService => 1200,
            RouteKind::AerialLiftService => 1300,
            RouteKind::TelecabinService => 1301,
            RouteKind::CableCarService => 1302,
            RouteKind::ElevatorService => 1303,
            RouteKind::ChairLiftService => 1304,
            RouteKind::DragLiftService => 1305,
            RouteKind::SmallTelecabinService => 1306,
            RouteKind::AllTelecabinService => 1307,
            RouteKind::FunicularService => 1400,
            RouteKind::TaxiService => 1500,
            RouteKind::CommunalTaxiService => 1501,
            RouteKind::WaterTaxiService => 1502,
            RouteKind::RailTaxiService => 1503,
            RouteKind::BikeTaxiService => 1504,
            RouteKind::LicensedTaxiService => 1505,
            RouteKind::PrivateHireServiceVehicle => 1506,
            RouteKind::AllTaxiService => 1507,
            RouteKind::MiscellaneousService => 1700,
            RouteKind::CableCar => 1701,
            RouteKind::HorsedrawnCarriage => 1702,
        }
    }

    fn from_code(c: u64) -> (r: Option<RouteKind>) {
        match c {
            0 => Some(RouteKind::Tram),
            1 => Some(RouteKind::Metro),
            2 => Some(RouteKind::Rail),
            3 => Some(RouteKind::Bus),
            4 => Some(RouteKind::Ferry),
            5 => Some(RouteKind::CableTram),
            6 => Some(RouteKind::AerialLift),
            7 => Some(RouteKind::Funicular),
            11 => Some(RouteKind::Trolleybus),
            12 => Some(RouteKind::Monorail),
            100 => Some(RouteKind::RailwayServicetApplicable),
            101 => Some(RouteKind::HighSpeedRailService),
            102 => Some(RouteKind::LongDistanceTrains),
            103 => Some(RouteKind::InterRegionalRailService),
            104 => Some(RouteKind::CarTransportRailService),
            105 => Some(RouteKind::SleeperRailService),
            106 => Some(RouteKind::RegionalRailService),
            107 => Some(RouteKind::TouristRailwayService),
            108 => Some(RouteKind::RailShuttle),
            109 => Some(RouteKind::SuburbanRailway),
            110 => Some(RouteKind::ReplacementRailService),
            111 => Some(RouteKind::SpecialRailService),
            112 => Some(RouteKind::LorryTransportRailService),
            113 => Some(RouteKind::AllRailService),
            114 => Some(RouteKind::CrossCountryRailService),
            115 => Some(RouteKind::VehicleTransportRailService),
            116 => Some(RouteKind::RackAndPinionRailway),
            117 => Some(RouteKind::AdditionalRailService),
            200 => Some(RouteKind::CoachService),
            201 => Some(RouteKind::InternationalCoachService),
            202 => Some(RouteKind::NationalCoachService),
            203 => Some(RouteKind::ShuttleCoachService),
            204 => Some(RouteKind::RegionalCoachService),
            205 => Some(RouteKind::SpecialCoachService),
            206 => Some(RouteKind::SightseeingCoachService),
            207 => Some(RouteKind::TouristCoachService),
            208 => Some(RouteKind::CommuterCoachService),
            209 => Some(RouteKind::AllCoachService),
            400 => Some(RouteKind::UrbanRailwayService),
            401 => Some(RouteKind::MetroService),
            402 => Some(RouteKind::UndergroundService),
            403 => Some(RouteKind::UrbanRailwayService2),
            404 => Some(RouteKind::AllUrbanRailwayService),
            405 => Some(RouteKind::Monorai),
            700 => Some(RouteKind::BusService),
            701 => Some(RouteKind::RegionalBusService),
            702 => Some(RouteKind::ExpressBusService),
            703 => Some(RouteKind::StoppingBusService),
            704 => Some(RouteKind::LocalBusService),
            705 => Some(RouteKind::NightBusService),
            706 => Some(RouteKind::PostBusService),
            707 => Some(RouteKind::SpecialNeedsBus),
            708 => Some(RouteKind::MobilityBusService),
            709 => Some(RouteKind::MobilityBusRegisteredDisabled),
            710 => Some(RouteKind::SightseeingBus),
            711 => Some(RouteKind::ShuttleBus),
            712 => Some(RouteKind::SchoolBus),
            713 => Some(RouteKind::SchoolandPublicServiceBus),
            714 => Some(RouteKind::RailReplacementBusService),
            715 => Some(RouteKind::DemandandResponseBusService),
            716 => Some(RouteKind::AllBusService),
            800 => Some(RouteKind::TrolleybusService),
            900 => Some(RouteKind::TramService),
            901 => Some(RouteKind::CityTramService),
            902 => Some(RouteKind::LocalTramService),
            903 => Some(RouteKind::RegionalTramService),
            904 => Some(RouteKind::SightseeingTramService),
            905 => Some(RouteKind::ShuttleTramService),
            906 => Some(RouteKind::AllTramService),
            1000 => Some(RouteKind::WaterTransportService),
            1100 => Some(RouteKind::AirService),
            1200 => Some(RouteKind::FerryService),
            1300 => Some(RouteKind::AerialLiftService),
            1301 => Some(RouteKind::TelecabinService),
            1302 => Some(RouteKind::CableCarService),
            1303 => Some(RouteKind::ElevatorService),
            1304 => Some(RouteKind::ChairLiftService),
            1305 => Some(RouteKind::DragLiftService),
            1306 => Some(RouteKind::SmallTelecabinService),
            1307 => Some(RouteKind::AllTelecabinService),
            1400 => Some(RouteKind::FunicularService),
            1500 => Some(RouteKind::TaxiService),
            1501 => Some(RouteKind::CommunalTaxiService),
            1502 => Some(RouteKind::WaterTaxiService),
            1503 => Some(RouteKind::RailTaxiService),
            1504 => Some(RouteKind::BikeTaxiService),
            1505 => Some(RouteKind::LicensedTaxiService),
            1506 => Some(RouteKind::PrivateHireServiceVehicle),
            1507 => Some(RouteKind::AllTaxiService),
            1700 => Some(RouteKind::MiscellaneousService),
            1701 => Some(RouteKind::CableCar),
            1702 => Some(RouteKind::HorsedrawnCarriage),
            _ => None,
        }
    }
}

/// No two route types share a code, so a decoded code names exactly one label.
pub proof fn lemma_route_kind_code_identifies_label(a: RouteKind, b: RouteKind)
    requires
        a.code_of() == b.code_of(),
    ensures
        a == b,
{
}

/// Whether a rider can board or leave the vehicle anywhere along its path.
#[derive(Debug, Clone, Copy, PartialEq, Eq, Structural)]
pub enum ContinuousStopping {
    /// Continuous stopping pickup or drop-off.
    Yes,
    /// No continuous stopping pickup or drop-off.
    No,
    /// Must phone an agency to arrange continuous stopping pickup or drop-off.
    Phone,
    /// Must coordinate with a driver to arrange continuous stopping pickup or drop-off.
    Driver,
}

impl CodedEnum for ContinuousStopping {
    open spec fn code_of(&self) -> u64 {
        match self {
            ContinuousStopping::Yes => 0,
            ContinuousStopping::No => 1,
            ContinuousStopping::Phone => 2,
            ContinuousStopping::Driver => 3,
        }
    }

    fn code(&self) -> (r: u64) {
        match self {
            ContinuousStopping::Yes => 0,
            ContinuousStopping::No => 1,
            ContinuousStopping::Phone => 2,
            ContinuousStopping::Driver => 3,
        }
    }

    fn from_code(c: u64) -> (r: Option<ContinuousStopping>) {
        match c {
            0 => Some(ContinuousStopping::Yes),
            1 => Some(ContinuousStopping::No),
            2 => Some(ContinuousStopping::Phone),
            3 => Some(ContinuousStopping::Driver),
            _ => None,
        }
    }
}

} // verus!
