//! The options that the core offers to the frontend: the display rate, which
//! every core has, and the options of the core's own.

use vstd::prelude::*;
use vstd::string::*;
use vstd::utf8::encode_utf8;
use crate::rate_table::{advertised_rates, CoreLogicRate, RateTable};
use crate::retro_string::{
    ascii_bytes_cstring,
    ascii_cstring,
    contains_nul,
    has_byte,
    same_bytes,
    to_ascii_cstring,
};

verus! {

/// The key of the option that selects the display rate.
pub const FRAME_RATE_KEY: &'static str = "refresh_rate";

/// What the frontend shows for the option that selects the display rate.
pub const FRAME_RATE_DESC: &'static str = "Frame rate";

/// An option of the core's own.
#[derive(Clone, Copy, Debug)]
pub struct EnvVar {
    /// The name by which the option is read.
    pub key: &'static str,
    /// What the frontend shows for the option.
    pub desc: &'static str,
    /// The values that the option can take; the first is the default.
    pub values: &'static [&'static str],
}

/// An option of the core's own as the contracts see it: the bytes of its
/// texts.
pub struct EnvVarModel {
    pub key: Seq<u8>,
    pub desc: Seq<u8>,
    pub values: Seq<Seq<u8>>,
}

impl View for EnvVar {
    type V = EnvVarModel;

    open spec fn view(&self) -> EnvVarModel {
        EnvVarModel {
            key: self.key.spec_bytes(),
            desc: self.desc.spec_bytes(),
            values: Seq::new(self.values@.len(), |i: int| self.values@[i].spec_bytes()),
        }
    }
}

/// An option as it goes to the frontend: two strings that end with a zero
/// byte.
#[derive(Debug, PartialEq, Eq)]
pub struct Variable {
    /// The name by which the option is read.
    pub key: Vec<u8>,
    /// What the frontend shows for the option, a semicolon and a blank, and
    /// the values with pipes between them.
    pub value: Vec<u8>,
}

/// An option as it goes to the frontend, as the contracts see it.
pub struct VariableModel {
    pub key: Seq<u8>,
    pub value: Seq<u8>,
}

impl View for Variable {
    type V = VariableModel;

    open spec fn view(&self) -> VariableModel {
        VariableModel { key: self.key@, value: self.value@ }
    }
}

/// Why the options cannot go to the frontend.
#[derive(Clone, Copy, Debug, PartialEq, Eq)]
pub enum VariableError {
    /// The key of an option holds a zero byte.
    KeyContainsNul,
    /// The description of an option holds a zero byte.
    DescContainsNul,
    /// A value of an option holds a zero byte.
    ValueContainsNul,
    /// Two options have the same key, or one has the key of the display rate.
    DuplicateKey,
}

/// How much the frontend logs.
#[derive(Clone, Copy, Debug, PartialEq, Eq)]
pub enum LogLevel {
    LogDebug,
    LogInfo,
    LogWarn,
    LogError,
}

impl LogLevel {
    /// The number by which the frontend knows the level.
    pub fn level(self) -> (number: i32)
        ensures
            number == match self {
                LogLevel::LogDebug => 0i32,
                LogLevel::LogInfo => 1i32,
                LogLevel::LogWarn => 2i32,
                LogLevel::LogError => 3i32,
            },
    {
        match self {
            LogLevel::LogDebug => 0,
            LogLevel::LogInfo => 1,
            LogLevel::LogWarn => 2,
            LogLevel::LogError => 3,
        }
    }
}

/// The values with a pipe behind each.
pub open spec fn piped(values: Seq<Seq<u8>>) -> Seq<u8>
    decreases values.len(),
{
    if values.len() == 0 {
        Seq::empty()
    } else {
        piped(values.drop_last()) + values.last() + "|".spec_bytes()
    }
}

/// The values with a pipe between each two.
pub open spec fn joined(values: Seq<Seq<u8>>) -> Seq<u8>
    decreases values.len(),
{
    if values.len() == 0 {
        Seq::empty()
    } else if values.len() == 1 {
        values.last()
    } else {
        joined(values.drop_last()) + "|".spec_bytes() + values.last()
    }
}

/// What the frontend is given for an option of the core's own: the
/// description, a semicolon and a blank, and the values with a pipe behind
/// each.
pub open spec fn option_text(var: EnvVarModel) -> Seq<u8> {
    var.desc + "; ".spec_bytes() + piped(var.values)
}

/// An option of the core's own as it goes to the frontend.
pub open spec fn variable_of(var: EnvVarModel) -> VariableModel {
    VariableModel { key: ascii_cstring(var.key), value: ascii_cstring(option_text(var)) }
}

/// The bytes of the display rates that a profile offers.
pub open spec fn advertised_bytes(rate: CoreLogicRate) -> Seq<Seq<u8>> {
    Seq::new(advertised_rates(rate).len(), |i: int| encode_utf8(advertised_rates(rate)[i]))
}

/// What the frontend is given for the display rate: the description, a
/// semicolon and a blank, and the rates of the profile with pipes between
/// them. The profile of the highest logic rate has a pipe at the end too.
pub open spec fn frame_rate_text(rate: CoreLogicRate) -> Seq<u8> {
    FRAME_RATE_DESC.spec_bytes() + "; ".spec_bytes() + match rate {
        CoreLogicRate::LogicRate720 => piped(advertised_bytes(rate)),
        _ => joined(advertised_bytes(rate)),
    }
}

/// The option that selects the display rate, as it goes to the frontend.
pub open spec fn frame_rate_variable(rate: CoreLogicRate) -> VariableModel {
    VariableModel {
        key: ascii_cstring(FRAME_RATE_KEY.spec_bytes()),
        value: ascii_cstring(frame_rate_text(rate)),
    }
}

/// What is wrong with an option of the core's own, if anything: a zero byte
/// in its key, else one in its description, else one in a value.
pub open spec fn var_defect(var: EnvVarModel) -> Option<VariableError> {
    if has_byte(var.key, 0) {
        Some(VariableError::KeyContainsNul)
    } else if has_byte(var.desc, 0) {
        Some(VariableError::DescContainsNul)
    } else if exists|i: int| 0 <= i < var.values.len() && has_byte(#[trigger] var.values[i], 0) {
        Some(VariableError::ValueContainsNul)
    } else {
        None
    }
}

/// What is wrong with the first option that has something wrong with it.
pub open spec fn first_defect(vars: Seq<EnvVarModel>) -> Option<VariableError>
    decreases vars.len(),
{
    if vars.len() == 0 {
        None
    } else if var_defect(vars.first()) is Some {
        var_defect(vars.first())
    } else {
        first_defect(vars.drop_first())
    }
}

/// The options as they go to the frontend: the display rate first, then
/// those of the core's own in their order.
pub open spec fn variables_of(rate: CoreLogicRate, vars: Seq<EnvVarModel>) -> Seq<VariableModel> {
    Seq::new(
        vars.len() + 1,
        |i: int|
            if i == 0 {
                frame_rate_variable(rate)
            } else {
                variable_of(vars[i - 1])
            },
    )
}

/// Whether no two options have the same key.
pub open spec fn keys_distinct(variables: Seq<VariableModel>) -> bool {
    forall|i: int, j: int|
        0 <= i < j < variables.len() ==> (#[trigger] variables[i]).key != (
        #[trigger] variables[j]).key
}

/// What setting up the options comes to: the error of the first option that
/// has something wrong with it; else the error that a key occurs twice; else
/// the options as they go to the frontend.
pub open spec fn environment_of(rate: CoreLogicRate, vars: Seq<EnvVarModel>) -> Result<
    Seq<VariableModel>,
    VariableError,
> {
    match first_defect(vars) {
        Some(error) => Err(error),
        None => if keys_distinct(variables_of(rate, vars)) {
            Ok(variables_of(rate, vars))
        } else {
            Err(VariableError::DuplicateKey)
        },
    }
}

proof fn lemma_first_defect_after(vars: Seq<EnvVarModel>, sound: int)
    requires
        0 <= sound <= vars.len(),
        forall|j: int| 0 <= j < sound ==> var_defect(#[trigger] vars[j]) is None,
    ensures
        first_defect(vars) == first_defect(vars.skip(sound)),
    decreases sound,
{
    if sound == 0 {
        assert(vars.skip(0) =~= vars);
    } else {
        lemma_first_defect_after(vars, sound - 1);
        let rest = vars.skip(sound - 1);
        assert(rest.first() == vars[sound - 1]);
        assert(rest.drop_first() =~= vars.skip(sound));
    }
}

proof fn lemma_first_defect_found(vars: Seq<EnvVarModel>, at: int)
    requires
        0 <= at < vars.len(),
        forall|j: int| 0 <= j < at ==> var_defect(#[trigger] vars[j]) is None,
        var_defect(vars[at]) is Some,
    ensures
        first_defect(vars) == var_defect(vars[at]),
{
    lemma_first_defect_after(vars, at);
    assert(vars.skip(at).first() == vars[at]);
}

/// The bytes that the frontend is given for a list of values, with a pipe
/// behind each, or with a pipe between each two.
fn write_values(text: &mut Vec<u8>, values: &[&'static str], pipe_at_end: bool)
    ensures
        final(text)@ == old(text)@ + ({
            let bytes = Seq::new(values@.len(), |i: int| values@[i].spec_bytes());
            if pipe_at_end {
                piped(bytes)
            } else {
                joined(bytes)
            }
        }),
{
    let ghost bytes = Seq::new(values@.len(), |i: int| values@[i].spec_bytes());
    let ghost start = text@;
    let mut k: usize = 0;
    assert(text@ =~= start + piped(bytes.take(0)));
    assert(text@ =~= start + joined(bytes.take(0)));
    while k < values.len()
        invariant
            k <= values@.len(),
            bytes == Seq::new(values@.len(), |i: int| values@[i].spec_bytes()),
            text@ == start + if pipe_at_end {
                piped(bytes.take(k as int))
            } else {
                joined(bytes.take(k as int))
            },
        decreases values@.len() - k,
    {
        proof {
            assert(bytes.take(k + 1).drop_last() =~= bytes.take(k as int));
            assert(bytes.take(k + 1).last() == values@[k as int].spec_bytes());
        }
        if !pipe_at_end && k > 0 {
            text.extend_from_slice("|".as_bytes());
        }
        text.extend_from_slice(values[k].as_bytes());
        if pipe_at_end {
            text.extend_from_slice("|".as_bytes());
        }
        proof {
            if pipe_at_end {
                assert(text@ =~= start + piped(bytes.take(k + 1)));
            } else {
                assert(text@ =~= start + joined(bytes.take(k + 1)));
            }
        }
        k += 1;
    }
    assert(bytes.take(k as int) =~= bytes);
}

/// The option that selects the display rate, as it goes to the frontend.
pub fn frame_rate_option(rate: CoreLogicRate) -> (variable: Variable)
    ensures
        variable@ == frame_rate_variable(rate),
{
    let rates = RateTable::new(rate).options();
    let mut text: Vec<u8> = Vec::new();
    text.extend_from_slice(FRAME_RATE_DESC.as_bytes());
    text.extend_from_slice("; ".as_bytes());
    let pipe_at_end = match rate {
        CoreLogicRate::LogicRate720 => true,
        _ => false,
    };
    write_values(&mut text, rates.as_slice(), pipe_at_end);
    proof {
        let bytes = Seq::new(rates@.len(), |i: int| rates@[i].spec_bytes());
        assert(bytes =~= advertised_bytes(rate));
        assert(text@ =~= frame_rate_text(rate));
    }
    Variable { key: to_ascii_cstring(FRAME_RATE_KEY), value: ascii_bytes_cstring(text.as_slice()) }
}

/// The options of the core's own as the contracts see them.
pub open spec fn models_of(env_vars: Seq<EnvVar>) -> Seq<EnvVarModel> {
    Seq::new(env_vars.len(), |i: int| env_vars[i]@)
}

/// The options that go to the frontend as the contracts see them.
pub open spec fn views_of(variables: Seq<Variable>) -> Seq<VariableModel> {
    Seq::new(variables.len(), |i: int| variables[i]@)
}

/// Whether any of the values holds a zero byte.
fn any_value_contains_nul(values: &[&'static str]) -> (found: bool)
    ensures
        found == exists|i: int|
            0 <= i < values@.len() && has_byte(#[trigger] values@[i].spec_bytes(), 0),
{
    let mut k: usize = 0;
    while k < values.len()
        invariant
            k <= values@.len(),
            forall|i: int| 0 <= i < k ==> !has_byte(#[trigger] values@[i].spec_bytes(), 0),
        decreases values@.len() - k,
    {
        if contains_nul(values[k].as_bytes()) {
            return true;
        }
        k += 1;
    }
    false
}

/// An option of the core's own as it goes to the frontend, or what is wrong
/// with it.
pub fn env_var_option(var: &EnvVar) -> (result: Result<Variable, VariableError>)
    ensures
        match result {
            Ok(variable) => var_defect(var@) is None && variable@ == variable_of(var@),
            Err(error) => var_defect(var@) == Some(error),
        },
{
    if contains_nul(var.key.as_bytes()) {
        return Err(VariableError::KeyContainsNul);
    }
    let key = to_ascii_cstring(var.key);
    if contains_nul(var.desc.as_bytes()) {
        return Err(VariableError::DescContainsNul);
    }
    let mut value_string: Vec<u8> = Vec::new();
    value_string.extend_from_slice(var.desc.as_bytes());
    value_string.extend_from_slice("; ".as_bytes());
    if any_value_contains_nul(var.values) {
        assert(var_defect(var@) == Some(VariableError::ValueContainsNul)) by {
            let i = choose|i: int|
                0 <= i < var.values@.len() && has_byte(#[trigger] var.values@[i].spec_bytes(), 0);
            assert(has_byte(var@.values[i], 0));
        }
        return Err(VariableError::ValueContainsNul);
    }
    write_values(&mut value_string, var.values, true);
    proof {
        assert(Seq::new(var.values@.len(), |i: int| var.values@[i].spec_bytes()) =~= var@.values);
        assert(value_string@ =~= option_text(var@));
        assert forall|i: int| 0 <= i < var@.values.len() implies !has_byte(
            #[trigger] var@.values[i],
            0,
        ) by {
            assert(var@.values[i] == var.values@[i].spec_bytes());
        }
    }
    let value = ascii_bytes_cstring(value_string.as_slice());
    Ok(Variable { key, value })
}

/// Whether no two options have the same key.
pub fn keys_are_distinct(variables: &Vec<Variable>) -> (distinct: bool)
    ensures
        distinct == keys_distinct(views_of(variables@)),
{
    let ghost views = views_of(variables@);
    let mut j: usize = 0;
    while j < variables.len()
        invariant
            j <= variables@.len(),
            views == views_of(variables@),
            forall|a: int, b: int|
                0 <= a < b < j ==> (#[trigger] views[a]).key != (#[trigger] views[b]).key,
        decreases variables@.len() - j,
    {
        let mut i: usize = 0;
        while i < j
            invariant
                i <= j < variables@.len(),
                views == views_of(variables@),
                forall|a: int| 0 <= a < i ==> (#[trigger] views[a]).key != views[j as int].key,
            decreases j - i,
        {
            if same_bytes(variables[i].key.as_slice(), variables[j].key.as_slice()) {
                assert(views[i as int].key == views[j as int].key);
                return false;
            }
            i += 1;
        }
        j += 1;
    }
    true
}

/// The options that the core offers to the frontend: the display rate, then
/// the options of the core's own in their order; or the error of the first
/// option that holds a zero byte; or else the error that a key occurs twice.
pub fn environment_variables(rate: CoreLogicRate, env_vars: &[EnvVar]) -> (result: Result<
    Vec<Variable>,
    VariableError,
>)
    ensures
        match result {
            Ok(variables) => environment_of(rate, models_of(env_vars@)) == Ok::<
                Seq<VariableModel>,
                VariableError,
            >(views_of(variables@)),
            Err(error) => environment_of(rate, models_of(env_vars@)) == Err::<
                Seq<VariableModel>,
                VariableError,
            >(error),
        },
{
    let ghost models = models_of(env_vars@);
    let mut retro_variables: Vec<Variable> = Vec::new();
    retro_variables.push(frame_rate_option(rate));
    let mut n: usize = 0;
    while n < env_vars.len()
        invariant
            n <= env_vars@.len(),
            models == models_of(env_vars@),
            retro_variables@.len() == n + 1,
            retro_variables[0]@ == frame_rate_variable(rate),
            forall|j: int| 0 <= j < n ==> var_defect(#[trigger] models[j]) is None,
            forall|j: int|
                0 <= j < n ==> (#[trigger] retro_variables[j + 1])@ == variable_of(models[j]),
        decreases env_vars@.len() - n,
    {
        assert(models[n as int] == env_vars@[n as int]@);
        match env_var_option(&env_vars[n]) {
            Ok(variable) => {
                retro_variables.push(variable);
            },
            Err(error) => {
                proof {
                    lemma_first_defect_found(models, n as int);
                }
                return Err(error);
            },
        }
        n += 1;
    }
    proof {
        lemma_first_defect_after(models, models.len() as int);
        assert(models.skip(models.len() as int) =~= Seq::<EnvVarModel>::empty());
        assert forall|i: int| 0 <= i < retro_variables@.len() implies views_of(
            retro_variables@,
        )[i] == variables_of(rate, models)[i] by {
            if i > 0 {
                assert(retro_variables[(i - 1) + 1]@ == variable_of(models[i - 1]));
            }
        }
        assert(views_of(retro_variables@) =~= variables_of(rate, models));
    }
    if !keys_are_distinct(&retro_variables) {
        return Err(VariableError::DuplicateKey);
    }
    Ok(retro_variables)
}

} // verus!
