use vstd::prelude::*;

verus! {

/// The id of the one mission that is defined so far.
pub const FIRST_STEPS_ID: usize = 1;

/// A mission's parameters. Immutable once loaded.
pub struct Mission {
    pub id: usize,
    pub name: String,
    pub description: String,
    pub objectives: Vec<String>,
    /// Width and height of the map, in tiles.
    pub map_size: (u32, u32),
    pub starting_funds: u64,
}

/// Whether the catalog defines a mission with this id.
pub open spec fn is_defined(mission_id: int) -> bool {
    mission_id == FIRST_STEPS_ID
}

impl Mission {
    /// The parameters of the "First Steps" mission, field by field.
    pub open spec fn is_first_steps(&self) -> bool {
        &&& self.id == FIRST_STEPS_ID
        &&& self.name@ == "First Steps"@
        &&& self.description@ == "Establish your first lunar base with basic facilities."@
        &&& self.objectives@.len() == 3
        &&& self.objectives@[0]@ == "Build a Living Module"@
        &&& self.objectives@[1]@ == "Connect power supply"@
        &&& self.objectives@[2]@ == "Establish oxygen production"@
        &&& self.map_size == (64u32, 64u32)
        &&& self.starting_funds == 1_000_000
    }

    /// The mission with id `mission_id`, which must be defined.
    pub fn load(mission_id: usize) -> (r: Mission)
        requires
            is_defined(mission_id as int),
        ensures
            r.is_first_steps(),
    {
        let mut objectives: Vec<String> = Vec::new();
        objectives.push("Build a Living Module".to_owned());
        objectives.push("Connect power supply".to_owned());
        objectives.push("Establish oxygen production".to_owned());
        Mission {
            id: FIRST_STEPS_ID,
            name: "First Steps".to_owned(),
            description: "Establish your first lunar base with basic facilities.".to_owned(),
            objectives,
            map_size: (64, 64),
            starting_funds: 1_000_000,
        }
    }

    /// The mission with id `mission_id`, or nothing when the catalog has no
    /// such mission; never a default in its place.
    pub fn find(mission_id: usize) -> (r: Option<Mission>)
        ensures
            r.is_some() <==> is_defined(mission_id as int),
            r matches Some(m) ==> m.is_first_steps(),
    {
        if mission_id == FIRST_STEPS_ID {
            Some(Mission::load(mission_id))
        } else {
            None
        }
    }
}

} // verus!
