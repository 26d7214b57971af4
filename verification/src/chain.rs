//! The chain generator: from a validated declaration with parameters
//! `p_1, ..., p_N` it builds the N levels of the right-to-left curried chain,
//! peeling parameters from the tail and suffixing the chain name once per
//! level.

use vstd::prelude::*;
use vstd::string::StringExecFns;

use crate::decl::{Declaration, GeneratedLevel};

verus! {

/// The fixed suffix appended to the chain name at every level.
pub open spec fn family_suffix() -> Seq<char> {
    "Family"@
}

/// The chain name after `k` levels: the base name with the suffix repeated
/// `k` times.
pub open spec fn level_name(base: Seq<char>, k: nat) -> Seq<char>
    decreases k,
{
    if k == 0 {
        base
    } else {
        level_name(base, (k - 1) as nat) + family_suffix()
    }
}

/// The mathematical model of one generated level.
pub struct LevelModel {
    pub emitted_name: Seq<char>,
    pub wrapped_name: Seq<char>,
    pub captured_parameters: Seq<Seq<char>>,
    pub constructor_parameter: Seq<char>,
}

/// Level `i` of the chain for a declaration `name<params>`, counting from the
/// first generated level: it wraps the chain name with `i` suffixes, emits it
/// with one more, keeps all but the last `i + 1` parameters captured, and
/// peels the last remaining one into the constructor slot.
pub open spec fn level_model(name: Seq<char>, params: Seq<Seq<char>>, i: int) -> LevelModel {
    LevelModel {
        emitted_name: level_name(name, (i + 1) as nat),
        wrapped_name: level_name(name, i as nat),
        captured_parameters: params.take(params.len() - 1 - i),
        constructor_parameter: params[params.len() - 1 - i],
    }
}

/// The whole chain: one level per parameter, in generation order.
pub open spec fn chain_model(name: Seq<char>, params: Seq<Seq<char>>) -> Seq<LevelModel> {
    Seq::new(params.len(), |i: int| level_model(name, params, i))
}

impl GeneratedLevel {
    /// The model of this level.
    pub open spec fn model(self) -> LevelModel {
        LevelModel {
            emitted_name: self.emitted_name@,
            wrapped_name: self.wrapped_name@,
            captured_parameters: self.captured_parameters.deep_view(),
            constructor_parameter: self.constructor_parameter@,
        }
    }
}

/// The models of a generated level sequence.
pub open spec fn chain_of(levels: Seq<GeneratedLevel>) -> Seq<LevelModel> {
    levels.map_values(|l: GeneratedLevel| l.model())
}

/// Generates the curried chain for a validated declaration: exactly one level
/// per generic parameter, matching the chain model level by level.
pub fn generate_chain(decl: &Declaration) -> (r: Vec<GeneratedLevel>)
    requires
        decl.wf(),
    ensures
        chain_of(r@) == chain_model(decl.name@, decl.parameters.deep_view()),
        r@.len() == decl.parameters@.len(),
{
    let ghost params = decl.parameters.deep_view();
    let n = decl.parameters.len();
    let mut levels: Vec<GeneratedLevel> = Vec::new();
    let mut chain_name: String = decl.name.clone();
    let mut i: usize = 0;
    while i < n
        invariant
            0 <= i <= n,
            n == params.len(),
            params == decl.parameters.deep_view(),
            n == decl.parameters@.len(),
            chain_name@ == level_name(decl.name@, i as nat),
            levels@.len() == i,
            forall|k: int| 0 <= k < i ==> (#[trigger] levels@[k]).model()
                == level_model(decl.name@, params, k),
        decreases n - i,
    {
        let wrapped = chain_name;
        let emitted = wrapped.clone().concat("Family");
        let stop = n - 1 - i;
        let mut captured: Vec<String> = Vec::new();
        let mut j: usize = 0;
        while j < stop
            invariant
                0 <= j <= stop,
                stop < n,
                n == decl.parameters@.len(),
                params == decl.parameters.deep_view(),
                captured@.len() == j,
                forall|k: int| 0 <= k < j ==> (#[trigger] captured@[k])@ == params[k],
            decreases stop - j,
        {
            captured.push(decl.parameters[j].clone());
            j += 1;
        }
        let constructor = decl.parameters[stop].clone();
        proof {
            assert(captured.deep_view() =~= params.take(stop as int));
        }
        levels.push(
            GeneratedLevel {
                emitted_name: emitted.clone(),
                wrapped_name: wrapped,
                captured_parameters: captured,
                constructor_parameter: constructor,
            },
        );
        chain_name = emitted;
        i += 1;
    }
    proof {
        assert(chain_of(levels@) =~= chain_model(decl.name@, params));
    }
    levels
}

} // verus!
