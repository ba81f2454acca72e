use vstd::prelude::*;

verus! {

/// The motor families the controller knows how to drive.
#[allow(non_camel_case_types)]
#[derive(Clone, Copy, Debug, PartialEq, Eq, Structural)]
pub enum MotorModel {
    DM4310,
    DM4310_48V,
    DM4340,
    DM4340_48V,
    DM6006,
    DM8006,
    DM8009,
    DM10010L,
    DM10010,
    DMH3510,
    DMH6215,
    DMG6220,
    RS00,
    RS01,
    RS02,
    RS03,
    RS04,
    RS05,
    RS06,
}

/// Every model, in the order in which configuration names are tried.
pub open spec fn all_motor_models() -> Seq<MotorModel> {
    seq![
        MotorModel::DM4310,
        MotorModel::DM4310_48V,
        MotorModel::DM4340,
        MotorModel::DM4340_48V,
        MotorModel::DM6006,
        MotorModel::DM8006,
        MotorModel::DM8009,
        MotorModel::DM10010L,
        MotorModel::DM10010,
        MotorModel::DMH3510,
        MotorModel::DMH6215,
        MotorModel::DMG6220,
        MotorModel::RS00,
        MotorModel::RS01,
        MotorModel::RS02,
        MotorModel::RS03,
        MotorModel::RS04,
        MotorModel::RS05,
        MotorModel::RS06,
    ]
}

impl MotorModel {
    /// The name that denotes this model in the configuration.
    pub open spec fn spec_config_name(self) -> Seq<char> {
        match self {
            MotorModel::DM4310 => "DM4310"@,
            MotorModel::DM4310_48V => "DM4310_48V"@,
            MotorModel::DM4340 => "DM4340"@,
            MotorModel::DM4340_48V => "DM4340_48V"@,
            MotorModel::DM6006 => "DM6006"@,
            MotorModel::DM8006 => "DM8006"@,
            MotorModel::DM8009 => "DM8009"@,
            MotorModel::DM10010L => "DM10010L"@,
            MotorModel::DM10010 => "DM10010"@,
            MotorModel::DMH3510 => "DMH3510"@,
            MotorModel::DMH6215 => "DMH6215"@,
            MotorModel::DMG6220 => "DMG6220"@,
            MotorModel::RS00 => "RS00"@,
            MotorModel::RS01 => "RS01"@,
            MotorModel::RS02 => "RS02"@,
            MotorModel::RS03 => "RS03"@,
            MotorModel::RS04 => "RS04"@,
            MotorModel::RS05 => "RS05"@,
            MotorModel::RS06 => "RS06"@,
        }
    }

    /// The name that denotes this model in the configuration.
    pub fn config_name(self) -> (r: &'static str)
        ensures
            r@ == self.spec_config_name(),
    {
        match self {
            MotorModel::DM4310 => "DM4310",
            MotorModel::DM4310_48V => "DM4310_48V",
            MotorModel::DM4340 => "DM4340",
            MotorModel::DM4340_48V => "DM4340_48V",
            MotorModel::DM6006 => "DM6006",
            MotorModel::DM8006 => "DM8006",
            MotorModel::DM8009 => "DM8009",
            MotorModel::DM10010L => "DM10010L",
            MotorModel::DM10010 => "DM10010",
            MotorModel::DMH3510 => "DMH3510",
            MotorModel::DMH6215 => "DMH6215",
            MotorModel::DMG6220 => "DMG6220",
            MotorModel::RS00 => "RS00",
            MotorModel::RS01 => "RS01",
            MotorModel::RS02 => "RS02",
            MotorModel::RS03 => "RS03",
            MotorModel::RS04 => "RS04",
            MotorModel::RS05 => "RS05",
            MotorModel::RS06 => "RS06",
        }
    }
}

/// The first of `models` whose configuration name is `s`.
pub open spec fn first_named(models: Seq<MotorModel>, s: Seq<char>) -> Option<MotorModel>
    decreases models.len(),
{
    if models.len() == 0 {
        None
    } else if models[0].spec_config_name() == s {
        Some(models[0])
    } else {
        first_named(models.drop_first(), s)
    }
}

/// The model a configuration name denotes, if any.
pub open spec fn spec_motor_type(s: Seq<char>) -> Option<MotorModel> {
    first_named(all_motor_models(), s)
}

/// Every model has its own configuration name: reading the name of a model gives
/// that model back, so no two models share a name.
pub proof fn lemma_config_name_roundtrip(m: MotorModel)
    ensures
        spec_motor_type(m.spec_config_name()) == Some(m),
{
    reveal_strlit("DM4310");
    reveal_strlit("DM4310_48V");
    reveal_strlit("DM4340");
    reveal_strlit("DM4340_48V");
    reveal_strlit("DM6006");
    reveal_strlit("DM8006");
    reveal_strlit("DM8009");
    reveal_strlit("DM10010L");
    reveal_strlit("DM10010");
    reveal_strlit("DMH3510");
    reveal_strlit("DMH6215");
    reveal_strlit("DMG6220");
    reveal_strlit("RS00");
    reveal_strlit("RS01");
    reveal_strlit("RS02");
    reveal_strlit("RS03");
    reveal_strlit("RS04");
    reveal_strlit("RS05");
    reveal_strlit("RS06");
    let all = all_motor_models();
    match m {
        MotorModel::DM4310 => {
            assert(all_motor_models()[0] == m);
        },
        MotorModel::DM4310_48V => {
            assert(all_motor_models()[1] == m);
            assert("DM4310_48V"@.len() != "DM4310"@.len());
        },
        MotorModel::DM4340 => {
            assert(all_motor_models()[2] == m);
            assert("DM4340"@[4] != "DM4310"@[4]);
            assert("DM4340"@.len() != "DM4310_48V"@.len());
        },
        MotorModel::DM4340_48V => {
            assert(all_motor_models()[3] == m);
            assert("DM4340_48V"@.len() != "DM4310"@.len());
            assert("DM4340_48V"@[4] != "DM4310_48V"@[4]);
            assert("DM4340_48V"@.len() != "DM4340"@.len());
        },
        MotorModel::DM6006 => {
            assert(all_motor_models()[4] == m);
            assert("DM6006"@[2] != "DM4310"@[2]);
            assert("DM6006"@.len() != "DM4310_48V"@.len());
            assert("DM6006"@[2] != "DM4340"@[2]);
            assert("DM6006"@.len() != "DM4340_48V"@.len());
        },
        MotorModel::DM8006 => {
            assert(all_motor_models()[5] == m);
            assert("DM8006"@[2] != "DM4310"@[2]);
            assert("DM8006"@.len() != "DM4310_48V"@.len());
            assert("DM8006"@[2] != "DM4340"@[2]);
            assert("DM8006"@.len() != "DM4340_48V"@.len());
            assert("DM8006"@[2] != "DM6006"@[2]);
        },
        MotorModel::DM8009 => {
            assert(all_motor_models()[6] == m);
            assert("DM8009"@[2] != "DM4310"@[2]);
            assert("DM8009"@.len() != "DM4310_48V"@.len());
            assert("DM8009"@[2] != "DM4340"@[2]);
            assert("DM8009"@.len() != "DM4340_48V"@.len());
            assert("DM8009"@[2] != "DM6006"@[2]);
            assert("DM8009"@[5] != "DM8006"@[5]);
        },
        MotorModel::DM10010L => {
            assert(all_motor_models()[7] == m);
            assert("DM10010L"@.len() != "DM4310"@.len());
            assert("DM10010L"@.len() != "DM4310_48V"@.len());
            assert("DM10010L"@.len() != "DM4340"@.len());
            assert("DM10010L"@.len() != "DM4340_48V"@.len());
            assert("DM10010L"@.len() != "DM6006"@.len());
            assert("DM10010L"@.len() != "DM8006"@.len());
            assert("DM10010L"@.len() != "DM8009"@.len());
        },
        MotorModel::DM10010 => {
            assert(all_motor_models()[8] == m);
            assert("DM10010"@.len() != "DM4310"@.len());
            assert("DM10010"@.len() != "DM4310_48V"@.len());
            assert("DM10010"@.len() != "DM4340"@.len());
            assert("DM10010"@.len() != "DM4340_48V"@.len());
            assert("DM10010"@.len() != "DM6006"@.len());
            assert("DM10010"@.len() != "DM8006"@.len());
            assert("DM10010"@.len() != "DM8009"@.len());
            assert("DM10010"@.len() != "DM10010L"@.len());
        },
        MotorModel::DMH3510 => {
            assert(all_motor_models()[9] == m);
            assert("DMH3510"@.len() != "DM4310"@.len());
            assert("DMH3510"@.len() != "DM4310_48V"@.len());
            assert("DMH3510"@.len() != "DM4340"@.len());
            assert("DMH3510"@.len() != "DM4340_48V"@.len());
            assert("DMH3510"@.len() != "DM6006"@.len());
            assert("DMH3510"@.len() != "DM8006"@.len());
            assert("DMH3510"@.len() != "DM8009"@.len());
            assert("DMH3510"@.len() != "DM10010L"@.len());
            assert("DMH3510"@[2] != "DM10010"@[2]);
        },
        MotorModel::DMH6215 => {
            assert(all_motor_models()[10] == m);
            assert("DMH6215"@.len() != "DM4310"@.len());
            assert("DMH6215"@.len() != "DM4310_48V"@.len());
            assert("DMH6215"@.len() != "DM4340"@.len());
            assert("DMH6215"@.len() != "DM4340_48V"@.len());
            assert("DMH6215"@.len() != "DM6006"@.len());
            assert("DMH6215"@.len() != "DM8006"@.len());
            assert("DMH6215"@.len() != "DM8009"@.len());
            assert("DMH6215"@.len() != "DM10010L"@.len());
            assert("DMH6215"@[2] != "DM10010"@[2]);
            assert("DMH6215"@[3] != "DMH3510"@[3]);
        },
        MotorModel::DMG6220 => {
            assert(all_motor_models()[11] == m);
            assert("DMG6220"@.len() != "DM4310"@.len());
            assert("DMG6220"@.len() != "DM4310_48V"@.len());
            assert("DMG6220"@.len() != "DM4340"@.len());
            assert("DMG6220"@.len() != "DM4340_48V"@.len());
            assert("DMG6220"@.len() != "DM6006"@.len());
            assert("DMG6220"@.len() != "DM8006"@.len());
            assert("DMG6220"@.len() != "DM8009"@.len());
            assert("DMG6220"@.len() != "DM10010L"@.len());
            assert("DMG6220"@[2] != "DM10010"@[2]);
            assert("DMG6220"@[2] != "DMH3510"@[2]);
            assert("DMG6220"@[2] != "DMH6215"@[2]);
        },
        MotorModel::RS00 => {
            assert(all_motor_models()[12] == m);
            assert("RS00"@.len() != "DM4310"@.len());
            assert("RS00"@.len() != "DM4310_48V"@.len());
            assert("RS00"@.len() != "DM4340"@.len());
            assert("RS00"@.len() != "DM4340_48V"@.len());
            assert("RS00"@.len() != "DM6006"@.len());
            assert("RS00"@.len() != "DM8006"@.len());
            assert("RS00"@.len() != "DM8009"@.len());
            assert("RS00"@.len() != "DM10010L"@.len());
            assert("RS00"@.len() != "DM10010"@.len());
            assert("RS00"@.len() != "DMH3510"@.len());
            assert("RS00"@.len() != "DMH6215"@.len());
            assert("RS00"@.len() != "DMG6220"@.len());
        },
        MotorModel::RS01 => {
            assert(all_motor_models()[13] == m);
            assert("RS01"@.len() != "DM4310"@.len());
            assert("RS01"@.len() != "DM4310_48V"@.len());
            assert("RS01"@.len() != "DM4340"@.len());
            assert("RS01"@.len() != "DM4340_48V"@.len());
            assert("RS01"@.len() != "DM6006"@.len());
            assert("RS01"@.len() != "DM8006"@.len());
            assert("RS01"@.len() != "DM8009"@.len());
            assert("RS01"@.len() != "DM10010L"@.len());
            assert("RS01"@.len() != "DM10010"@.len());
            assert("RS01"@.len() != "DMH3510"@.len());
            assert("RS01"@.len() != "DMH6215"@.len());
            assert("RS01"@.len() != "DMG6220"@.len());
            assert("RS01"@[3] != "RS00"@[3]);
        },
        MotorModel::RS02 => {
            assert(all_motor_models()[14] == m);
            assert("RS02"@.len() != "DM4310"@.len());
            assert("RS02"@.len() != "DM4310_48V"@.len());
            assert("RS02"@.len() != "DM4340"@.len());
            assert("RS02"@.len() != "DM4340_48V"@.len());
            assert("RS02"@.len() != "DM6006"@.len());
            assert("RS02"@.len() != "DM8006"@.len());
            assert("RS02"@.len() != "DM8009"@.len());
            assert("RS02"@.len() != "DM10010L"@.len());
            assert("RS02"@.len() != "DM10010"@.len());
            assert("RS02"@.len() != "DMH3510"@.len());
            assert("RS02"@.len() != "DMH6215"@.len());
            assert("RS02"@.len() != "DMG6220"@.len());
            assert("RS02"@[3] != "RS00"@[3]);
            assert("RS02"@[3] != "RS01"@[3]);
        },
        MotorModel::RS03 => {
            assert(all_motor_models()[15] == m);
            assert("RS03"@.len() != "DM4310"@.len());
            assert("RS03"@.len() != "DM4310_48V"@.len());
            assert("RS03"@.len() != "DM4340"@.len());
            assert("RS03"@.len() != "DM4340_48V"@.len());
            assert("RS03"@.len() != "DM6006"@.len());
            assert("RS03"@.len() != "DM8006"@.len());
            assert("RS03"@.len() != "DM8009"@.len());
            assert("RS03"@.len() != "DM10010L"@.len());
            assert("RS03"@.len() != "DM10010"@.len());
            assert("RS03"@.len() != "DMH3510"@.len());
            assert("RS03"@.len() != "DMH6215"@.len());
            assert("RS03"@.len() != "DMG6220"@.len());
            assert("RS03"@[3] != "RS00"@[3]);
            assert("RS03"@[3] != "RS01"@[3]);
            assert("RS03"@[3] != "RS02"@[3]);
        },
        MotorModel::RS04 => {
            assert(all_motor_models()[16] == m);
            assert("RS04"@.len() != "DM4310"@.len());
            assert("RS04"@.len() != "DM4310_48V"@.len());
            assert("RS04"@.len() != "DM4340"@.len());
            assert("RS04"@.len() != "DM4340_48V"@.len());
            assert("RS04"@.len() != "DM6006"@.len());
            assert("RS04"@.len() != "DM8006"@.len());
            assert("RS04"@.len() != "DM8009"@.len());
            assert("RS04"@.len() != "DM10010L"@.len());
            assert("RS04"@.len() != "DM10010"@.len());
            assert("RS04"@.len() != "DMH3510"@.len());
            assert("RS04"@.len() != "DMH6215"@.len());
            assert("RS04"@.len() != "DMG6220"@.len());
            assert("RS04"@[3] != "RS00"@[3]);
            assert("RS04"@[3] != "RS01"@[3]);
            assert("RS04"@[3] != "RS02"@[3]);
            assert("RS04"@[3] != "RS03"@[3]);
        },
        MotorModel::RS05 => {
            assert(all_motor_models()[17] == m);
            assert("RS05"@.len() != "DM4310"@.len());
            assert("RS05"@.len() != "DM4310_48V"@.len());
            assert("RS05"@.len() != "DM4340"@.len());
            assert("RS05"@.len() != "DM4340_48V"@.len());
            assert("RS05"@.len() != "DM6006"@.len());
            assert("RS05"@.len() != "DM8006"@.len());
            assert("RS05"@.len() != "DM8009"@.len());
            assert("RS05"@.len() != "DM10010L"@.len());
            assert("RS05"@.len() != "DM10010"@.len());
            assert("RS05"@.len() != "DMH3510"@.len());
            assert("RS05"@.len() != "DMH6215"@.len());
            assert("RS05"@.len() != "DMG6220"@.len());
            assert("RS05"@[3] != "RS00"@[3]);
            assert("RS05"@[3] != "RS01"@[3]);
            assert("RS05"@[3] != "RS02"@[3]);
            assert("RS05"@[3] != "RS03"@[3]);
            assert("RS05"@[3] != "RS04"@[3]);
        },
        MotorModel::RS06 => {
            assert(all_motor_models()[18] == m);
            assert("RS06"@.len() != "DM4310"@.len());
            assert("RS06"@.len() != "DM4310_48V"@.len());
            assert("RS06"@.len() != "DM4340"@.len());
            assert("RS06"@.len() != "DM4340_48V"@.len());
            assert("RS06"@.len() != "DM6006"@.len());
            assert("RS06"@.len() != "DM8006"@.len());
            assert("RS06"@.len() != "DM8009"@.len());
            assert("RS06"@.len() != "DM10010L"@.len());
            assert("RS06"@.len() != "DM10010"@.len());
            assert("RS06"@.len() != "DMH3510"@.len());
            assert("RS06"@.len() != "DMH6215"@.len());
            assert("RS06"@.len() != "DMG6220"@.len());
            assert("RS06"@[3] != "RS00"@[3]);
            assert("RS06"@[3] != "RS01"@[3]);
            assert("RS06"@[3] != "RS02"@[3]);
            assert("RS06"@[3] != "RS03"@[3]);
            assert("RS06"@[3] != "RS04"@[3]);
            assert("RS06"@[3] != "RS05"@[3]);
        },
    }
    lemma_first_named_index(all, m.spec_config_name(), all.index_of(m));
}

/// When `models[k]` is named `s` and no model before it is, the first match is `models[k]`.
proof fn lemma_first_named_index(models: Seq<MotorModel>, s: Seq<char>, k: int)
    requires
        0 <= k < models.len(),
        models[k].spec_config_name() == s,
        forall|j: int| 0 <= j < k ==> (#[trigger] models[j]).spec_config_name() != s,
    ensures
        first_named(models, s) == Some(models[k]),
    decreases k,
{
    if k > 0 {
        assert forall|j: int| 0 <= j < k - 1 implies (#[trigger] models.drop_first()[j]).spec_config_name() != s by {
            assert(models.drop_first()[j] == models[j + 1]);
        }
        lemma_first_named_index(models.drop_first(), s, k - 1);
    }
}

/// Every model is among the models that configuration names are tried against.
pub proof fn lemma_all_motor_models_complete(m: MotorModel)
    ensures
        all_motor_models().contains(m),
{
    match m {
        MotorModel::DM4310 => {
            assert(all_motor_models()[0] == m);
        },
        MotorModel::DM4310_48V => {
            assert(all_motor_models()[1] == m);
        },
        MotorModel::DM4340 => {
            assert(all_motor_models()[2] == m);
        },
        MotorModel::DM4340_48V => {
            assert(all_motor_models()[3] == m);
        },
        MotorModel::DM6006 => {
            assert(all_motor_models()[4] == m);
        },
        MotorModel::DM8006 => {
            assert(all_motor_models()[5] == m);
        },
        MotorModel::DM8009 => {
            assert(all_motor_models()[6] == m);
        },
        MotorModel::DM10010L => {
            assert(all_motor_models()[7] == m);
        },
        MotorModel::DM10010 => {
            assert(all_motor_models()[8] == m);
        },
        MotorModel::DMH3510 => {
            assert(all_motor_models()[9] == m);
        },
        MotorModel::DMH6215 => {
            assert(all_motor_models()[10] == m);
        },
        MotorModel::DMG6220 => {
            assert(all_motor_models()[11] == m);
        },
        MotorModel::RS00 => {
            assert(all_motor_models()[12] == m);
        },
        MotorModel::RS01 => {
            assert(all_motor_models()[13] == m);
        },
        MotorModel::RS02 => {
            assert(all_motor_models()[14] == m);
        },
        MotorModel::RS03 => {
            assert(all_motor_models()[15] == m);
        },
        MotorModel::RS04 => {
            assert(all_motor_models()[16] == m);
        },
        MotorModel::RS05 => {
            assert(all_motor_models()[17] == m);
        },
        MotorModel::RS06 => {
            assert(all_motor_models()[18] == m);
        },
    }
}

/// The first match of a name among `models` carries that name, and there is no
/// match only when no model carries it.
proof fn lemma_first_named_sound(models: Seq<MotorModel>, s: Seq<char>)
    ensures
        first_named(models, s) matches Some(m) ==> m.spec_config_name() == s && models.contains(m),
        first_named(models, s) is None ==> forall|j: int|
            0 <= j < models.len() ==> (#[trigger] models[j]).spec_config_name() != s,
    decreases models.len(),
{
    if models.len() > 0 {
        lemma_first_named_sound(models.drop_first(), s);
        if first_named(models, s) is None {
            assert forall|j: int| 0 <= j < models.len() implies (#[trigger] models[j]).spec_config_name() != s by {
                if j > 0 {
                    assert(models[j] == models.drop_first()[j - 1]);
                }
            }
        }
        if let Some(m) = first_named(models.drop_first(), s) {
            if models[0].spec_config_name() != s {
                let k = choose|k: int| 0 <= k < models.drop_first().len() && models.drop_first()[k] == m;
                assert(models[k + 1] == m);
            }
        }
    }
}

/// A configuration name denotes a model exactly when that model carries the name;
/// a name that no model carries denotes none.
pub proof fn lemma_motor_type_sound(s: Seq<char>)
    ensures
        spec_motor_type(s) matches Some(m) ==> m.spec_config_name() == s,
        spec_motor_type(s) is None ==> forall|m: MotorModel| #[trigger] m.spec_config_name() != s,
{
    lemma_first_named_sound(all_motor_models(), s);
    if spec_motor_type(s) is None {
        assert forall|m: MotorModel| #[trigger] m.spec_config_name() != s by {
            lemma_all_motor_models_complete(m);
            let k = choose|k: int| 0 <= k < all_motor_models().len() && all_motor_models()[k] == m;
        }
    }
}

/// Whether two strings hold the same characters.
fn same_text(a: &str, b: &str) -> (r: bool)
    ensures
        r == (a@ == b@),
{
    a.to_owned() == b.to_owned()
}

/// Reads a motor type name from the configuration: `Ok` with the model it names,
/// or `Err` with the unknown name.
pub fn string_to_motor_type(s: &str) -> (r: Result<MotorModel, String>)
    ensures
        match r {
            Ok(m) => spec_motor_type(s@) == Some(m),
            Err(name) => spec_motor_type(s@).is_none() && name@ == s@,
        },
        r matches Ok(m) ==> m.spec_config_name() == s@,
        r is Err ==> forall|m: MotorModel| #[trigger] m.spec_config_name() != s@,
{
    proof {
        lemma_motor_type_sound(s@);
    }
    let models: Vec<MotorModel> = vec![
        MotorModel::DM4310,
        MotorModel::DM4310_48V,
        MotorModel::DM4340,
        MotorModel::DM4340_48V,
        MotorModel::DM6006,
        MotorModel::DM8006,
        MotorModel::DM8009,
        MotorModel::DM10010L,
        MotorModel::DM10010,
        MotorModel::DMH3510,
        MotorModel::DMH6215,
        MotorModel::DMG6220,
        MotorModel::RS00,
        MotorModel::RS01,
        MotorModel::RS02,
        MotorModel::RS03,
        MotorModel::RS04,
        MotorModel::RS05,
        MotorModel::RS06,
    ];
    assert(models@ == all_motor_models());
    let n = models.len();
    let mut i: usize = 0;
    assert(models@.skip(0) =~= models@);
    while i < n
        invariant
            n == models@.len(),
            i <= n,
            models@ == all_motor_models(),
            spec_motor_type(s@) == first_named(models@.skip(i as int), s@),
        decreases n - i,
    {
        assert(models@.skip(i as int).drop_first() =~= models@.skip(i + 1));
        let m = models[i];
        if same_text(s, m.config_name()) {
            return Ok(m);
        }
        i = i + 1;
    }
    Err(s.to_owned())
}

} // verus!
