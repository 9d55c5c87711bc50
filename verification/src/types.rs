//! Descriptors of PostgreSQL types.

use vstd::prelude::*;

verus! {

/// The structural kind of a PostgreSQL type.
#[derive(Debug)]
pub enum Kind {
    /// A type with no members.
    Simple,
    /// An array of the given member type.
    Array(Box<Type>),
    /// A range over the given type.
    Range(Box<Type>),
    /// A domain over the given type.
    Domain(Box<Type>),
}

/// A PostgreSQL type: its object identifier and its kind.
#[derive(Debug)]
pub struct Type {
    pub oid: u32,
    pub kind: Kind,
}

/// Object identifier of `INT4`.
pub const INT4_OID: u32 = 23;

/// Object identifier of `INT4[]`.
pub const INT4_ARRAY_OID: u32 = 1007;

/// Object identifier of `INT2VECTOR`.
pub const INT2_VECTOR_OID: u32 = 22;

/// Object identifier of `OIDVECTOR`.
pub const OID_VECTOR_OID: u32 = 30;

impl Type {
    /// The member type of an array type, and nothing for any other kind.
    pub open spec fn member_spec(self) -> Option<Type> {
        match self.kind {
            Kind::Array(member) => Some(*member),
            _ => None,
        }
    }

    /// Builds a type from its object identifier and its kind.
    pub fn new(oid: u32, kind: Kind) -> (ty: Type)
        ensures
            ty == (Type { oid, kind }),
    {
        Type { oid, kind }
    }

    /// Builds a type of no members.
    pub fn simple(oid: u32) -> (ty: Type)
        ensures
            ty.oid == oid,
            ty.kind == Kind::Simple,
            ty.member_spec() is None,
    {
        Type { oid, kind: Kind::Simple }
    }

    /// Builds the array type whose elements are of type `member`.
    pub fn array_of(oid: u32, member: Type) -> (ty: Type)
        ensures
            ty.oid == oid,
            ty.member_spec() == Some(member),
    {
        Type { oid, kind: Kind::Array(Box::new(member)) }
    }

    /// The `INT4` type.
    pub fn int4() -> (ty: Type)
        ensures
            ty.oid == INT4_OID,
            ty.kind == Kind::Simple,
    {
        Type::simple(INT4_OID)
    }

    /// The `INT4[]` type.
    pub fn int4_array() -> (ty: Type)
        ensures
            ty.oid == INT4_ARRAY_OID,
            ty.member_spec() == Some(Type { oid: INT4_OID, kind: Kind::Simple }),
    {
        Type::array_of(INT4_ARRAY_OID, Type::int4())
    }

    /// The object identifier.
    pub fn oid(&self) -> (oid: u32)
        ensures
            oid == self.oid,
    {
        self.oid
    }

    /// The kind.
    pub fn kind(&self) -> (kind: &Kind)
        ensures
            *kind == self.kind,
    {
        &self.kind
    }

    /// The member type, where this is an array type.
    pub fn member(&self) -> (member: Option<&Type>)
        ensures
            match member {
                Some(m) => self.member_spec() == Some(*m),
                None => self.member_spec() is None,
            },
    {
        match &self.kind {
            Kind::Array(member) => Some(&**member),
            _ => None,
        }
    }
}

} // verus!
