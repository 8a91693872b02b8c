//! The declaration model extractor: validates a raw enumeration declaration
//! and builds the [`EnumModel`] that the codec operates on.
//!
//! The raw declaration is the plain shape of a source-level declaration after
//! surface parsing: whether it was an enumeration at all, the representation
//! annotation if one was present, and for each member its name, whether it
//! carried data fields, and its explicit discriminant if it had one.

use vstd::prelude::*;

use crate::model::Disc;
use crate::model::EnumModel;
use crate::model::Member;
use crate::model::ReprType;

verus! {

/// Why extraction failed. Each failure is fatal: generation aborts.
#[derive(Clone, Copy, PartialEq, Eq, Structural, Debug)]
pub enum ExtractError {
    /// The declaration is not an enumeration.
    NotAnEnum,
    /// The declaration carries no representation-type annotation.
    MissingRepresentation,
    /// A member carries data fields; only unit members are accepted.
    MemberHasFields,
    /// A member has no explicit discriminant; none is inferred.
    MissingDiscriminant,
}

/// One member of a raw declaration.
#[derive(Clone, Debug)]
pub struct RawMember {
    pub name: String,
    /// Whether the member carried data fields in the declaration.
    pub has_fields: bool,
    /// The member's explicit discriminant, if it had one.
    pub discriminant: Option<Disc>,
}

/// A raw declaration, as handed over by whatever parsed the source text.
#[derive(Clone, Debug)]
pub struct RawDecl {
    pub name: String,
    /// Whether the declaration was an enumeration.
    pub is_enum: bool,
    /// The representation-type annotation, if one was present.
    pub repr: Option<ReprType>,
    pub members: Vec<RawMember>,
}

/// The fault of the first faulty member at or after index `i`, in declaration
/// order: carrying data fields counts before a missing discriminant.
pub open spec fn first_fault_from(members: Seq<RawMember>, i: int) -> Option<ExtractError>
    decreases members.len() - i,
{
    if i < 0 || i >= members.len() {
        None
    } else if members[i].has_fields {
        Some(ExtractError::MemberHasFields)
    } else if members[i].discriminant is None {
        Some(ExtractError::MissingDiscriminant)
    } else {
        first_fault_from(members, i + 1)
    }
}

/// The fault of the first faulty member, if any member is faulty.
pub open spec fn first_fault(members: Seq<RawMember>) -> Option<ExtractError> {
    first_fault_from(members, 0)
}

impl RawDecl {
    /// What the surrounding declaration is assumed to guarantee: at least one
    /// member, and every explicit discriminant already fits the annotated
    /// representation type.
    pub open spec fn input_inv(self) -> bool {
        &&& self.members@.len() >= 1
        &&& forall|i: int|
            0 <= i < self.members@.len() ==> match ((#[trigger] self.members@[i]).discriminant,
            self.repr) {
                (Some(d), Some(r)) => d.fits(r),
                _ => true,
            }
    }
}

/// Validate a raw declaration and build the model.
///
/// Fails exactly when the declaration is not an enumeration, lacks a
/// representation annotation, or has a member that carries data fields or
/// lacks an explicit discriminant; the first reason in that order, members
/// scanned in declaration order, decides the error. On success the model
/// carries the declaration's name, representation and members unchanged, in
/// declaration order.
pub fn extract(raw: &RawDecl) -> (r: Result<EnumModel, ExtractError>)
    requires
        raw.input_inv(),
    ensures
        r is Ok <==> raw.is_enum && raw.repr is Some && first_fault(raw.members@) is None,
        r matches Err(e) ==> e == (if !raw.is_enum {
            ExtractError::NotAnEnum
        } else if raw.repr is None {
            ExtractError::MissingRepresentation
        } else {
            first_fault(raw.members@)->0
        }),
        r matches Ok(m) ==> {
            &&& m.wf()
            &&& m.name == raw.name
            &&& Some(m.repr) == raw.repr
            &&& m.members@.len() == raw.members@.len()
            &&& forall|i: int|
                0 <= i < raw.members@.len() ==> {
                    &&& (#[trigger] m.members@[i]).name == raw.members@[i].name
                    &&& Some(m.members@[i].disc) == raw.members@[i].discriminant
                }
        },
{
    if !raw.is_enum {
        return Err(ExtractError::NotAnEnum);
    }
    let repr = match raw.repr {
        Some(r) => r,
        None => { return Err(ExtractError::MissingRepresentation) },
    };
    let mut members: Vec<Member> = Vec::new();
    let n: usize = raw.members.len();
    let mut i: usize = 0;
    while i < n
        invariant
            raw.input_inv(),
            raw.is_enum,
            raw.repr == Some(repr),
            n == raw.members@.len(),
            0 <= i <= n,
            first_fault(raw.members@) == first_fault_from(raw.members@, i as int),
            members@.len() == i,
            forall|j: int|
                0 <= j < i ==> {
                    &&& (#[trigger] members@[j]).name == raw.members@[j].name
                    &&& Some(members@[j].disc) == raw.members@[j].discriminant
                    &&& members@[j].disc.fits(repr)
                },
        decreases n - i,
    {
        let rm = &raw.members[i];
        if rm.has_fields {
            return Err(ExtractError::MemberHasFields);
        }
        let disc = match rm.discriminant {
            Some(d) => d,
            None => { return Err(ExtractError::MissingDiscriminant) },
        };
        members.push(Member { name: rm.name.clone(), disc });
        i = i + 1;
    }
    Ok(EnumModel { name: raw.name.clone(), repr, members })
}

} // verus!
