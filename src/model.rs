use vstd::prelude::*;

verus! {

/// The category of a planet.
#[derive(Clone, Copy, Debug, PartialEq, Eq, Structural)]
pub enum PlanetType {
    TerrestrialPlanet,
    GasGiant,
    IceGiant,
    DwarfPlanet,
}

/// The name of a category, as stored and as shown.
pub open spec fn planet_type_name(t: PlanetType) -> Seq<char> {
    match t {
        PlanetType::TerrestrialPlanet => "TerrestrialPlanet"@,
        PlanetType::GasGiant => "GasGiant"@,
        PlanetType::IceGiant => "IceGiant"@,
        PlanetType::DwarfPlanet => "DwarfPlanet"@,
    }
}

impl PlanetType {
    /// The name of this category.
    pub fn name(&self) -> (r: String)
        ensures
            r@ == planet_type_name(*self),
    {
        let name = match self {
            PlanetType::TerrestrialPlanet => "TerrestrialPlanet",
            PlanetType::GasGiant => "GasGiant",
            PlanetType::IceGiant => "IceGiant",
            PlanetType::DwarfPlanet => "DwarfPlanet",
        };
        String::from_str(name)
    }
}

/// What the service reads of a stored planet: its identity (once assigned),
/// its name and its category. The rest of the record travels as the
/// serialized document.
#[derive(Debug)]
pub struct PlanetRecord {
    pub id: Option<String>,
    pub name: String,
    pub planet_type: PlanetType,
}

/// The notification published when a planet is created.
#[derive(Debug)]
pub struct PlanetMessage {
    pub id: String,
    pub name: String,
    pub planet_type: PlanetType,
}

impl PlanetMessage {
    /// The notification for a stored planet; `None` when the planet has no
    /// identity yet, as such a planet cannot be published.
    pub fn from_record(source: &PlanetRecord) -> (r: Option<PlanetMessage>)
        ensures
            source.id is None <==> r is None,
            r matches Some(m) ==> {
                &&& source.id matches Some(id) && m.id@ == id@
                &&& m.name@ == source.name@
                &&& m.planet_type == source.planet_type
            },
    {
        match &source.id {
            Some(id) => Some(
                PlanetMessage {
                    id: id.clone(),
                    name: source.name.clone(),
                    planet_type: source.planet_type,
                },
            ),
            None => None,
        }
    }
}

/// The query of a planet listing: an optional category to keep.
#[derive(Debug)]
pub struct GetPlanetsQueryParams {
    pub planet_type: Option<PlanetType>,
}

impl GetPlanetsQueryParams {
    /// The category name that listed records must carry, if any.
    pub fn type_filter(&self) -> (r: Option<String>)
        ensures
            self.planet_type is None <==> r is None,
            r matches Some(n) ==> self.planet_type matches Some(t) && n@ == planet_type_name(t),
    {
        match self.planet_type {
            Some(t) => Some(t.name()),
            None => None,
        }
    }
}

} // verus!
