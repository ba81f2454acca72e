use vstd::prelude::*;
use crate::model::{spec_motor_type, string_to_motor_type, MotorModel};

verus! {

/// A motor's entry in the configuration's motor table.
#[derive(Debug)]
pub struct MotorDef {
    pub motor_type: String,
    pub slave_id: u32,
    pub master_id: u32,
}

/// A named entry of the motor table.
#[derive(Debug)]
pub struct MotorEntry {
    pub name: String,
    pub def: MotorDef,
}

/// One leg of the configuration: its bus, its motors by name, and how each joint's
/// readings are mapped.
#[derive(Debug)]
pub struct LegDef {
    pub name: String,
    pub can_port: String,
    pub motors: Vec<String>,
    pub directions: Vec<i32>,
    pub zero_position_indices: usize,
    pub zero_position_sign: i32,
}

/// What a leg needs to know of one of its motors.
#[derive(Debug)]
pub struct MotorSpec {
    pub joint_name: String,
    pub model: MotorModel,
    pub slave_id: u32,
    pub master_id: u32,
}

/// A motor spec with its joint name as characters.
pub struct MotorSpecView {
    pub joint_name: Seq<char>,
    pub model: MotorModel,
    pub slave_id: u32,
    pub master_id: u32,
}

impl View for MotorSpec {
    type V = MotorSpecView;

    open spec fn view(&self) -> MotorSpecView {
        MotorSpecView {
            joint_name: self.joint_name@,
            model: self.model,
            slave_id: self.slave_id,
            master_id: self.master_id,
        }
    }
}

/// Why a leg's motors could not be resolved.
#[derive(Debug)]
pub enum ConfigError {
    /// A leg names a motor that the motor table does not hold.
    MotorNotFound(String),
    /// A motor's type is no known model.
    UnknownMotorType(String),
}

/// A configuration error with its name as characters.
pub enum ConfigFault {
    MotorNotFound(Seq<char>),
    UnknownMotorType(Seq<char>),
}

impl View for ConfigError {
    type V = ConfigFault;

    open spec fn view(&self) -> ConfigFault {
        match self {
            ConfigError::MotorNotFound(name) => ConfigFault::MotorNotFound(name@),
            ConfigError::UnknownMotorType(name) => ConfigFault::UnknownMotorType(name@),
        }
    }
}

/// The definition of the first table entry named `name`, if any.
pub open spec fn spec_lookup(entries: Seq<MotorEntry>, name: Seq<char>) -> Option<MotorDef>
    decreases entries.len(),
{
    if entries.len() == 0 {
        None
    } else if entries[0].name@ == name {
        Some(entries[0].def)
    } else {
        spec_lookup(entries.drop_first(), name)
    }
}

/// The spec of the motor called `name`, or why there is none.
pub open spec fn spec_resolve_motor(entries: Seq<MotorEntry>, name: Seq<char>) -> Result<
    MotorSpecView,
    ConfigFault,
> {
    match spec_lookup(entries, name) {
        None => Err(ConfigFault::MotorNotFound(name)),
        Some(def) => match spec_motor_type(def.motor_type@) {
            None => Err(ConfigFault::UnknownMotorType(def.motor_type@)),
            Some(model) => Ok(
                MotorSpecView {
                    joint_name: name,
                    model,
                    slave_id: def.slave_id,
                    master_id: def.master_id,
                },
            ),
        },
    }
}

/// The specs of the motors called `names`, in order, or the fault of the first one
/// that cannot be resolved.
pub open spec fn spec_resolve_all(entries: Seq<MotorEntry>, names: Seq<Seq<char>>) -> Result<
    Seq<MotorSpecView>,
    ConfigFault,
>
    decreases names.len(),
{
    if names.len() == 0 {
        Ok(Seq::empty())
    } else {
        match spec_resolve_all(entries, names.drop_last()) {
            Err(e) => Err(e),
            Ok(prefix) => match spec_resolve_motor(entries, names.last()) {
                Err(e) => Err(e),
                Ok(s) => Ok(prefix.push(s)),
            },
        }
    }
}

/// The table lookup finds the first entry with the name, however long the table,
/// and finds nothing only when no entry carries the name.
pub proof fn lemma_lookup_finds_first(entries: Seq<MotorEntry>, name: Seq<char>)
    ensures
        spec_lookup(entries, name) is None <==> forall|j: int|
            0 <= j < entries.len() ==> (#[trigger] entries[j]).name@ != name,
        spec_lookup(entries, name) matches Some(d) ==> exists|i: int|
            #![trigger entries[i]]
            0 <= i < entries.len() && entries[i].name@ == name && entries[i].def == d && forall|
                j: int,
            | 0 <= j < i ==> (#[trigger] entries[j]).name@ != name,
    decreases entries.len(),
{
    if entries.len() > 0 {
        let rest = entries.drop_first();
        lemma_lookup_finds_first(rest, name);
        assert forall|j: int| 0 < j < entries.len() implies #[trigger] entries[j] == rest[j - 1] by {}
        if entries[0].name@ != name {
            if let Some(d) = spec_lookup(rest, name) {
                let i = choose|i: int|
                    #![trigger rest[i]]
                    0 <= i < rest.len() && rest[i].name@ == name && rest[i].def == d && forall|
                        j: int,
                    | 0 <= j < i ==> (#[trigger] rest[j]).name@ != name;
                assert(entries[i + 1] == rest[i]);
                assert forall|j: int| 0 <= j < i + 1 implies (#[trigger] entries[j]).name@ != name by {
                    if j > 0 {
                        assert(entries[j] == rest[j - 1]);
                    }
                }
            } else {
                assert forall|j: int| 0 <= j < entries.len() implies (#[trigger] entries[j]).name@ != name by {
                    if j > 0 {
                        assert(entries[j] == rest[j - 1]);
                    }
                }
            }
        } else {
            assert(entries[0].name@ == name);
        }
    }
}

/// Finds the first table entry named `name`.
pub fn find_motor(entries: &Vec<MotorEntry>, name: &String) -> (r: Option<usize>)
    ensures
        match r {
            Some(i) => {
                &&& i < entries@.len()
                &&& entries@[i as int].name@ == name@
                &&& forall|j: int| 0 <= j < i ==> (#[trigger] entries@[j]).name@ != name@
                &&& spec_lookup(entries@, name@) == Some(entries@[i as int].def)
            },
            None => spec_lookup(entries@, name@).is_none(),
        },
        r is None ==> forall|j: int| 0 <= j < entries@.len() ==> (#[trigger] entries@[j]).name@ != name@,
{
    let n = entries.len();
    let mut i: usize = 0;
    assert(entries@.skip(0) =~= entries@);
    while i < n
        invariant
            n == entries@.len(),
            i <= n,
            spec_lookup(entries@, name@) == spec_lookup(entries@.skip(i as int), name@),
            forall|j: int| 0 <= j < i ==> (#[trigger] entries@[j]).name@ != name@,
        decreases n - i,
    {
        assert(entries@.skip(i as int).drop_first() =~= entries@.skip(i + 1));
        if entries[i].name == *name {
            return Some(i);
        }
        i = i + 1;
    }
    None
}

/// Resolves a leg's motor names against the motor table, in the leg's order; the
/// first name that is missing from the table, or whose type is unknown, is the error.
pub fn resolve_motor_specs(leg: &LegDef, entries: &Vec<MotorEntry>) -> (r: Result<
    Vec<MotorSpec>,
    ConfigError,
>)
    ensures
        match r {
            Ok(specs) => spec_resolve_all(entries@, leg.motors@.map_values(|s: String| s@)) == Ok::<
                Seq<MotorSpecView>,
                ConfigFault,
            >(specs@.map_values(|s: MotorSpec| s@)),
            Err(e) => spec_resolve_all(entries@, leg.motors@.map_values(|s: String| s@)) == Err::<
                Seq<MotorSpecView>,
                ConfigFault,
            >(e@),
        },
        r matches Ok(specs) ==> specs@.len() == leg.motors@.len(),
        r matches Ok(specs) ==> forall|i: int|
            0 <= i < specs@.len() ==> exists|j: int|
                    #![trigger entries@[j]]
                    0 <= j < entries@.len() && {
                        &&& entries@[j].name@ == leg.motors@[i]@
                        &&& forall|k: int| 0 <= k < j ==> (#[trigger] entries@[k]).name@ != leg.motors@[i]@
                        &&& (#[trigger] specs@[i]).joint_name@ == leg.motors@[i]@
                        &&& (#[trigger] specs@[i]).slave_id == entries@[j].def.slave_id
                        &&& (#[trigger] specs@[i]).master_id == entries@[j].def.master_id
                        &&& (#[trigger] specs@[i]).model.spec_config_name() == entries@[j].def.motor_type@
                    },
        r matches Err(ConfigError::MotorNotFound(n)) ==> {
            &&& exists|i: int| 0 <= i < leg.motors@.len() && (#[trigger] leg.motors@[i])@ == n@
            &&& forall|j: int| 0 <= j < entries@.len() ==> (#[trigger] entries@[j]).name@ != n@
        },
        r matches Err(ConfigError::UnknownMotorType(t)) ==> {
            &&& exists|i: int, j: int|
                0 <= i < leg.motors@.len() && 0 <= j < entries@.len() && (#[trigger] leg.motors@[i])@
                    == (#[trigger] entries@[j]).name@ && entries@[j].def.motor_type@ == t@
            &&& forall|m: MotorModel| #[trigger] m.spec_config_name() != t@
        },
{
    let ghost names = leg.motors@.map_values(|s: String| s@);
    let mut specs: Vec<MotorSpec> = Vec::new();
    let n = leg.motors.len();
    assert(names.take(0) =~= Seq::<Seq<char>>::empty());
    assert(specs@.map_values(|s: MotorSpec| s@) =~= Seq::<MotorSpecView>::empty());
    for i in 0..n
        invariant
            n == leg.motors@.len(),
            names == leg.motors@.map_values(|s: String| s@),
            spec_resolve_all(entries@, names.take(i as int)) == Ok::<
                Seq<MotorSpecView>,
                ConfigFault,
            >(specs@.map_values(|s: MotorSpec| s@)),
            specs@.len() == i,
            forall|q: int|
                0 <= q < i ==> exists|j: int|
                    #![trigger entries@[j]]
                    0 <= j < entries@.len() && {
                        &&& entries@[j].name@ == leg.motors@[q]@
                        &&& forall|k: int| 0 <= k < j ==> (#[trigger] entries@[k]).name@ != leg.motors@[q]@
                        &&& (#[trigger] specs@[q]).joint_name@ == leg.motors@[q]@
                        &&& (#[trigger] specs@[q]).slave_id == entries@[j].def.slave_id
                        &&& (#[trigger] specs@[q]).master_id == entries@[j].def.master_id
                        &&& (#[trigger] specs@[q]).model.spec_config_name() == entries@[j].def.motor_type@
                    },
    {
        let name = &leg.motors[i];
        assert(names.take(i + 1).drop_last() =~= names.take(i as int));
        assert(names.take(i + 1).last() == name@);
        match find_motor(entries, name) {
            None => {
                proof {
                    lemma_resolve_all_stops(entries@, names, i as int);
                }
                return Err(ConfigError::MotorNotFound(name.clone()));
            },
            Some(k) => {
                let def = &entries[k].def;
                match string_to_motor_type(def.motor_type.as_str()) {
                    Err(unknown) => {
                        proof {
                            assert(leg.motors@[i as int]@ == entries@[k as int].name@);
                            lemma_resolve_all_stops(entries@, names, i as int);
                        }
                        return Err(ConfigError::UnknownMotorType(unknown));
                    },
                    Ok(model) => {
                        let spec = MotorSpec {
                            joint_name: name.clone(),
                            model,
                            slave_id: def.slave_id,
                            master_id: def.master_id,
                        };
                        let ghost before = specs@;
                        specs.push(spec);
                        assert(entries@[k as int].name@ == leg.motors@[i as int]@);
                        assert(specs@.map_values(|s: MotorSpec| s@) =~= before.map_values(
                            |s: MotorSpec| s@,
                        ).push(spec@));
                    },
                }
            },
        }
    }
    assert(names.take(n as int) =~= names);
    Ok(specs)
}

/// Once the motor at position `i` fails to resolve, resolving all names fails the same way.
proof fn lemma_resolve_all_stops(entries: Seq<MotorEntry>, names: Seq<Seq<char>>, i: int)
    requires
        0 <= i < names.len(),
        spec_resolve_all(entries, names.take(i)) is Ok,
        spec_resolve_motor(entries, names[i]) is Err,
    ensures
        spec_resolve_all(entries, names) == Err::<Seq<MotorSpecView>, ConfigFault>(
            spec_resolve_motor(entries, names[i])->Err_0,
        ),
    decreases names.len(),
{
    if i == names.len() - 1 {
        assert(names.drop_last() =~= names.take(i));
    } else {
        assert(names.drop_last().take(i) =~= names.take(i));
        lemma_resolve_all_stops(entries, names.drop_last(), i);
    }
}

/// How one joint's readings and commands are mapped between the motor and the
/// joint: the joint's sign, and whether it is the leg's zero-offset joint (whose
/// offset is the configured zero position, with the leg's sign for commands).
#[derive(Debug)]
pub struct JointTransform {
    pub joint_name: String,
    pub direction: i32,
    pub is_zero_index: bool,
    pub zero_position_sign: i32,
}

/// The transforms of a leg's joints, one per motor in the leg's order.
pub fn joint_transforms(leg: &LegDef) -> (r: Vec<JointTransform>)
    requires
        leg.directions@.len() >= leg.motors@.len(),
    ensures
        r@.len() == leg.motors@.len(),
        forall|i: int|
            0 <= i < r@.len() ==> {
                &&& (#[trigger] r@[i]).joint_name@ == leg.motors@[i]@
                &&& r@[i].direction == leg.directions@[i]
                &&& r@[i].is_zero_index == (i == leg.zero_position_indices)
                &&& r@[i].zero_position_sign == leg.zero_position_sign
            },
{
    let mut r: Vec<JointTransform> = Vec::new();
    let n = leg.motors.len();
    for i in 0..n
        invariant
            n == leg.motors@.len(),
            leg.directions@.len() >= n,
            r@.len() == i,
            forall|k: int|
                0 <= k < i ==> {
                    &&& (#[trigger] r@[k]).joint_name@ == leg.motors@[k]@
                    &&& r@[k].direction == leg.directions@[k]
                    &&& r@[k].is_zero_index == (k == leg.zero_position_indices)
                    &&& r@[k].zero_position_sign == leg.zero_position_sign
                },
    {
        r.push(
            JointTransform {
                joint_name: leg.motors[i].clone(),
                direction: leg.directions[i],
                is_zero_index: leg.zero_position_indices == i,
                zero_position_sign: leg.zero_position_sign,
            },
        );
    }
    r
}

/// A leg has at most one zero-offset joint, and exactly one when its zero index
/// names one of its motors.
pub proof fn lemma_single_zero_joint(leg: LegDef, r: Seq<JointTransform>)
    requires
        r.len() == leg.motors@.len(),
        forall|i: int|
            0 <= i < r.len() ==> (#[trigger] r[i]).is_zero_index == (i
                == leg.zero_position_indices),
    ensures
        forall|i: int, j: int|
            0 <= i < r.len() && 0 <= j < r.len() && (#[trigger] r[i]).is_zero_index && (#[trigger] r[j]).is_zero_index ==> i == j,
        leg.zero_position_indices < leg.motors@.len() ==> r[leg.zero_position_indices as int].is_zero_index,
{
}

} // verus!
