//! Emulation of higher-kinded type constructors through generated families
//! of marker types. The core is a pipeline of three components: a reader
//! that normalizes one source declaration header, a validator that rejects
//! every non-trivial generic form with a specific diagnostic, and a
//! generator that builds the right-to-left curried chain of marker-type
//! levels, one per generic parameter.

use vstd::prelude::*;

pub mod chain;
pub mod decl;
pub mod families;
pub mod laws;
pub mod validate;

pub use crate::families::BTreeMapFamily;
pub use crate::families::BTreeMapFamilyFamily;
pub use crate::families::BTreeSetFamily;
pub use crate::families::BinaryHeapFamily;
pub use crate::families::HashMapFamily;
pub use crate::families::HashMapFamilyFamily;
pub use crate::families::HashSetFamily;
pub use crate::families::LinkedListFamily;
pub use crate::families::OptionFamily;
pub use crate::families::ResultFamily;
pub use crate::families::ResultFamilyFamily;
pub use crate::families::VecDequeFamily;
pub use crate::families::VecFamily;

use crate::chain::{chain_model, chain_of, LevelModel};
use crate::decl::{read_spec, GeneratedLevel, SourceItem, ValidationError};
use crate::validate::{names_of, validation_outcome};

verus! {

/// The outcome the whole pipeline owes for one source item: the first error
/// the reader or the validator raises, or the full chain model for the
/// declaration's name and bare parameter list.
pub open spec fn pipeline_outcome(item: SourceItem) -> Result<Seq<LevelModel>, ValidationError> {
    match read_spec(item) {
        Err(e) => Err(e),
        Ok(d) => match validation_outcome(d) {
            Some(e) => Err(e),
            None => Ok(chain_model(d.name@, names_of(d.params@))),
        },
    }
}

/// Runs the reader, the validator and the chain generator on one source
/// item. Exactly the inputs `pipeline_outcome` accepts yield a chain, and
/// the chain matches the model level by level; every other input yields
/// exactly the error `pipeline_outcome` assigns to it, and no partial chain.
pub fn derive_family_levels(item: SourceItem) -> (r: Result<
    Vec<GeneratedLevel>,
    ValidationError,
>)
    ensures
        match r {
            Ok(levels) => pipeline_outcome(item) == Ok::<_, ValidationError>(chain_of(levels@)),
            Err(e) => pipeline_outcome(item) == Err::<Seq<LevelModel>, _>(e),
        },
{
    let raw = match decl::read_declaration(item) {
        Ok(d) => d,
        Err(e) => {
            return Err(e);
        },
    };
    let validated = match validate::validate(&raw) {
        Ok(d) => d,
        Err(e) => {
            return Err(e);
        },
    };
    Ok(chain::generate_chain(&validated))
}

} // verus!
