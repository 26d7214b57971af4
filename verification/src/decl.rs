//! The normalized form of a source declaration header, the diagnostics the
//! pipeline can raise, and the record each generated chain level is made of.

use vstd::prelude::*;

verus! {

/// The visibility of the source declaration, kept only as a marker so the
/// emitted levels can repeat it.
#[derive(Clone, Copy, PartialEq, Eq, Structural, Debug)]
pub enum VisibilityMarker {
    /// `pub`
    Public,
    /// A restricted visibility such as `pub(crate)`.
    Restricted,
    /// No visibility keyword.
    Inherited,
}

/// One generic parameter exactly as it stands in the source header.
#[derive(Debug)]
pub enum RawParam {
    /// A type parameter, with the facts validation looks at: whether it
    /// carries any bound and whether it carries any attribute.
    TypeParam { name: String, bounded: bool, attributed: bool },
    /// A lifetime parameter.
    LifetimeParam,
    /// A const parameter.
    ConstParam,
}

/// A declaration header before validation: name, visibility, the raw
/// parameter list in declaration order, and whether a where-clause is
/// attached.
#[derive(Debug)]
pub struct RawDeclaration {
    pub name: String,
    pub visibility: VisibilityMarker,
    pub params: Vec<RawParam>,
    pub has_where_clause: bool,
}

/// One source item as the decode boundary hands it over: a declaration
/// header for the three supported shapes, or anything else.
pub enum SourceItem {
    StructDecl(RawDeclaration),
    EnumDecl(RawDeclaration),
    UnionDecl(RawDeclaration),
    /// A function, trait, module, or any other unsupported shape.
    OtherItem,
}

/// Every way a declaration is rejected. No variant carries a recovery value.
#[derive(Clone, Copy, PartialEq, Eq, Structural, Debug)]
pub enum ValidationError {
    /// The input is not a struct, enum or union declaration.
    UnparsableInput,
    /// A generic parameter is a lifetime or a const parameter.
    LifetimeOrConstParameter,
    /// A type parameter carries a non-empty bound set.
    BoundedParameter,
    /// A type parameter carries an attribute.
    AttributedParameter,
    /// A where-clause is attached to the declaration.
    WhereClausePresent,
    /// No generic parameter remains after the other checks pass.
    EmptyParameterList,
}

impl ValidationError {
    /// The diagnostic text of this error.
    pub open spec fn message_spec(self) -> Seq<char> {
        match self {
            ValidationError::UnparsableInput => "input is not a struct, enum or union declaration"@,
            ValidationError::LifetimeOrConstParameter => "lifetime and const parameters are not supported"@,
            ValidationError::BoundedParameter => "generic bounds are not supported"@,
            ValidationError::AttributedParameter => "attributed parameters are not supported"@,
            ValidationError::WhereClausePresent => "where clauses are not supported"@,
            ValidationError::EmptyParameterList => "at least one generic parameter is required"@,
        }
    }

    /// Renders the human-readable diagnostic for this error.
    pub fn message(&self) -> (r: &'static str)
        ensures
            r@ == self.message_spec(),
    {
        match self {
            ValidationError::UnparsableInput => "input is not a struct, enum or union declaration",
            ValidationError::LifetimeOrConstParameter => "lifetime and const parameters are not supported",
            ValidationError::BoundedParameter => "generic bounds are not supported",
            ValidationError::AttributedParameter => "attributed parameters are not supported",
            ValidationError::WhereClausePresent => "where clauses are not supported",
            ValidationError::EmptyParameterList => "at least one generic parameter is required",
        }
    }
}

/// A validated declaration: the parameter list is non-empty and every entry
/// is a bare identifier.
#[derive(Debug)]
pub struct Declaration {
    pub name: String,
    pub visibility: VisibilityMarker,
    pub parameters: Vec<String>,
}

impl Declaration {
    /// Well-formedness: validation never lets an empty parameter list through.
    pub open spec fn wf(self) -> bool {
        self.parameters@.len() >= 1
    }
}

/// One level of the generated chain, carrying everything the encode boundary
/// needs to render it back into declaration syntax.
#[derive(Debug)]
pub struct GeneratedLevel {
    /// The name of the marker type this level declares.
    pub emitted_name: String,
    /// The name this level's capability mapping applies: the previous level's
    /// emitted name, or the original declaration's name at the first level.
    pub wrapped_name: String,
    /// The parameters not yet peeled, in declaration order.
    pub captured_parameters: Vec<String>,
    /// The single parameter this level peels.
    pub constructor_parameter: String,
}

/// What the reader returns for each shape of source item: the three supported
/// declaration shapes yield their header, everything else is unparsable.
pub open spec fn read_spec(item: SourceItem) -> Result<RawDeclaration, ValidationError> {
    match item {
        SourceItem::StructDecl(d) => Ok(d),
        SourceItem::EnumDecl(d) => Ok(d),
        SourceItem::UnionDecl(d) => Ok(d),
        SourceItem::OtherItem => Err(ValidationError::UnparsableInput),
    }
}

/// Reads one source item into a declaration header. Only the header matters:
/// field and variant bodies were already dropped by the decode boundary.
pub fn read_declaration(item: SourceItem) -> (r: Result<RawDeclaration, ValidationError>)
    ensures
        r == read_spec(item),
{
    match item {
        SourceItem::StructDecl(d) => Ok(d),
        SourceItem::EnumDecl(d) => Ok(d),
        SourceItem::UnionDecl(d) => Ok(d),
        SourceItem::OtherItem => Err(ValidationError::UnparsableInput),
    }
}

} // verus!
