//! The laws of the generated chain: the shape of each level's capability
//! mapping, the round-trip of composing the mappings, the naming scheme and
//! its freedom from collisions, and the strict descent of the captured
//! parameter lists.

use vstd::prelude::*;

use crate::chain::{chain_model, family_suffix, level_name, LevelModel};

verus! {

/// A fully applied type: a head name applied to an ordered argument list.
pub struct TypeApp {
    pub head: Seq<char>,
    pub args: Seq<Seq<char>>,
}

/// One level's capability mapping applied to an argument: the wrapped name
/// applied to the captured parameters followed by the argument.
pub open spec fn apply_level(l: LevelModel, t: Seq<char>) -> TypeApp {
    TypeApp { head: l.wrapped_name, args: l.captured_parameters.push(t) }
}

/// The length of a chain name: each level adds the six suffix characters.
proof fn lemma_level_name_len(base: Seq<char>, k: nat)
    ensures
        level_name(base, k).len() == base.len() + k * 6,
    decreases k,
{
    reveal_strlit("Family");
    if k > 0 {
        lemma_level_name_len(base, (k - 1) as nat);
    }
}

/// A declaration with exactly one generic parameter yields exactly one
/// level; its emitted name is the declaration's name with the suffix
/// appended once, and its capability maps any type `t` to the declaration
/// applied to `t` alone.
pub proof fn lemma_single_parameter_chain(name: Seq<char>, params: Seq<Seq<char>>)
    requires
        params.len() == 1,
    ensures
        chain_model(name, params).len() == 1,
        chain_model(name, params)[0].emitted_name == name + family_suffix(),
        forall|t: Seq<char>| apply_level(chain_model(name, params)[0], t)
            == (TypeApp { head: name, args: seq![t] }),
{
    assert forall|t: Seq<char>| apply_level(chain_model(name, params)[0], t)
        == (TypeApp { head: name, args: seq![t] }) by {
        assert(params.take(0).push(t) =~= seq![t]);
    }
}

/// The round-trip law. Applying level `i`'s mapping to its own constructor
/// parameter yields the chain name with `i` suffixes applied to the first
/// `N - i` original parameters. So each application reconstructs exactly the
/// previous level's emitted marker applied to that level's captured
/// parameters, and composing all the mappings in generation order ends at
/// level `0`, whose application is the original declaration applied to the
/// full original parameter list.
pub proof fn lemma_chain_round_trip(name: Seq<char>, params: Seq<Seq<char>>)
    requires
        params.len() >= 1,
    ensures
        forall|i: int| 0 <= i < params.len()
            ==> apply_level(
                #[trigger] chain_model(name, params)[i],
                chain_model(name, params)[i].constructor_parameter,
            ) == (TypeApp { head: level_name(name, i as nat), args: params.take(params.len() - i) }),
        forall|i: int| 1 <= i < params.len()
            ==> apply_level(
                #[trigger] chain_model(name, params)[i],
                chain_model(name, params)[i].constructor_parameter,
            ) == (TypeApp {
                head: chain_model(name, params)[i - 1].emitted_name,
                args: chain_model(name, params)[i - 1].captured_parameters,
            }),
        apply_level(
            chain_model(name, params)[0],
            chain_model(name, params)[0].constructor_parameter,
        ) == (TypeApp { head: name, args: params }),
{
    let n = params.len() as int;
    assert forall|i: int| 0 <= i < n implies apply_level(
        #[trigger] chain_model(name, params)[i],
        chain_model(name, params)[i].constructor_parameter,
    ) == (TypeApp { head: level_name(name, i as nat), args: params.take(n - i) }) by {
        assert(params.take(n - 1 - i).push(params[n - 1 - i]) =~= params.take(n - i));
    }
    assert(params.take(n) =~= params);
}

/// Naming is deterministic and collision-free: level `i` is emitted under
/// the declaration's name with the suffix repeated `i + 1` times, no two
/// levels share an emitted name, and no level's emitted name is the
/// declaration's own name.
pub proof fn lemma_chain_naming(name: Seq<char>, params: Seq<Seq<char>>)
    requires
        params.len() >= 1,
    ensures
        forall|i: int| 0 <= i < params.len()
            ==> (#[trigger] chain_model(name, params)[i]).emitted_name
                == level_name(name, (i + 1) as nat),
        forall|i: int, j: int| 0 <= i < params.len() && 0 <= j < params.len() && i != j
            ==> (#[trigger] chain_model(name, params)[i]).emitted_name
                != (#[trigger] chain_model(name, params)[j]).emitted_name,
        forall|i: int| 0 <= i < params.len()
            ==> (#[trigger] chain_model(name, params)[i]).emitted_name != name,
{
    assert forall|i: int, j: int|
        0 <= i < params.len() && 0 <= j < params.len() && i != j implies (#[trigger] chain_model(
        name,
        params,
    )[i]).emitted_name != (#[trigger] chain_model(name, params)[j]).emitted_name by {
        lemma_level_name_len(name, (i + 1) as nat);
        lemma_level_name_len(name, (j + 1) as nat);
    }
    assert forall|i: int| 0 <= i < params.len() implies (#[trigger] chain_model(
        name,
        params,
    )[i]).emitted_name != name by {
        lemma_level_name_len(name, 0);
        lemma_level_name_len(name, (i + 1) as nat);
    }
}

/// The captured parameter lists descend strictly: level `i` captures exactly
/// `N - 1 - i` parameters, each level one fewer than the level before it,
/// and the last level captures none.
pub proof fn lemma_captured_parameters_descend(name: Seq<char>, params: Seq<Seq<char>>)
    requires
        params.len() >= 1,
    ensures
        forall|i: int| 0 <= i < params.len()
            ==> (#[trigger] chain_model(name, params)[i]).captured_parameters.len()
                == params.len() - 1 - i,
        forall|i: int| 1 <= i < params.len()
            ==> (#[trigger] chain_model(name, params)[i]).captured_parameters.len()
                == chain_model(name, params)[i - 1].captured_parameters.len() - 1,
        chain_model(name, params)[params.len() - 1].captured_parameters.len() == 0,
{
}

} // verus!
