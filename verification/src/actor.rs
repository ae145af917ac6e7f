//! The two kinds of actor and their relational representation.

use vstd::prelude::*;
use vstd::string::*;

verus! {

/// The kind of an actor: an individual or a collective.
#[derive(Debug, Clone, Copy, PartialEq, Eq, Structural)]
pub enum ActorVariant {
    User,
    Group,
}

/// Whether an encoded parameter is SQL NULL.
#[derive(Debug, Clone, Copy, PartialEq, Eq, Structural)]
pub enum IsNull {
    Yes,
    No,
}

/// Why an actor kind was not encoded.
#[derive(Debug, Clone, Copy, PartialEq, Eq, Structural)]
pub enum EncodeError {
    /// The target type is not the actor-kind enumeration in its expected shape.
    WrongType,
}

/// What a relational type is made of, as far as encoding looks at it.
#[derive(Debug, Clone)]
pub enum SqlKind {
    /// An enumerated type with its member labels in declaration order.
    Enumeration(Vec<String>),
    /// Any other kind of type.
    Other,
}

/// A relational type as the driver describes it: its name and its kind.
#[derive(Debug, Clone)]
pub struct SqlType {
    pub name: String,
    pub kind: SqlKind,
}

/// The name of the enumerated type that holds actor kinds.
pub open spec fn enum_name() -> Seq<char> {
    "actors_available"@
}

/// The label of an individual.
pub open spec fn member_label() -> Seq<char> {
    "member"@
}

/// The label of a collective.
pub open spec fn organization_label() -> Seq<char> {
    "organization"@
}

/// The two labels are the expected ones, in either order.
pub open spec fn is_label_pair(first: Seq<char>, second: Seq<char>) -> bool {
    ||| first == member_label() && second == organization_label()
    ||| first == organization_label() && second == member_label()
}

/// The type is the actor-kind enumeration: it carries the expected name, is an
/// enumeration, and its labels are exactly the two expected ones.
pub open spec fn accepted(ty: &SqlType) -> bool {
    &&& ty.name@ == enum_name()
    &&& match ty.kind {
        SqlKind::Enumeration(labels) => {
            &&& labels@.len() == 2
            &&& is_label_pair(labels@[0]@, labels@[1]@)
        },
        SqlKind::Other => false,
    }
}

/// The labels of an enumeration as a set of texts.
pub open spec fn label_set(labels: Seq<String>) -> Set<Seq<char>> {
    Set::new(|label: Seq<char>| exists|i: int| 0 <= i < labels.len() && (#[trigger] labels[i])@ == label)
}

/// Acceptance does not depend on the order of the labels: a type is accepted
/// exactly when it carries the expected name and is an enumeration of two
/// labels which, as a set, are the two expected ones.
pub proof fn lemma_acceptance_by_label_set(ty: SqlType)
    ensures
        accepted(&ty) <==> {
            &&& ty.name@ == enum_name()
            &&& ty.kind is Enumeration
            &&& ty.kind->Enumeration_0@.len() == 2
            &&& label_set(ty.kind->Enumeration_0@) == set![member_label(), organization_label()]
        },
{
    reveal_strlit("member");
    reveal_strlit("organization");
    assert(member_label() != organization_label()) by {
        assert(member_label().len() == 6);
    }
    if ty.kind is Enumeration && ty.kind->Enumeration_0@.len() == 2 {
        let labels = ty.kind->Enumeration_0@;
        let expected = set![member_label(), organization_label()];
        if is_label_pair(labels[0]@, labels[1]@) {
            assert(label_set(labels) =~= expected);
        }
        if label_set(labels) == expected {
            assert(expected.contains(member_label()));
            assert(expected.contains(organization_label()));
        }
    }
}

/// Whether a text reads as a literal does.
fn text_is(s: &String, literal: &str) -> (same: bool)
    ensures
        same == (s@ == literal@),
{
    let other = literal.to_owned();
    *s == other
}

impl ActorVariant {
    /// The label under which this kind is stored.
    pub open spec fn label(self) -> Seq<char> {
        match self {
            ActorVariant::User => member_label(),
            ActorVariant::Group => organization_label(),
        }
    }

    /// The bytes that encode this kind: its label, one byte for each of its
    /// characters, all of which are ASCII.
    pub open spec fn encoding(self) -> Seq<u8> {
        Seq::new(self.label().len(), |i: int| self.label()[i] as u8)
    }

    /// Appends the encoding of this kind to `buf`. The target type is not looked at.
    pub fn to_sql(&self, ty: &SqlType, buf: &mut Vec<u8>) -> (r: Result<IsNull, EncodeError>)
        ensures
            r == Ok::<IsNull, EncodeError>(IsNull::No),
            final(buf)@ == old(buf)@ + self.encoding(),
    {
        let s = match self {
            ActorVariant::User => "member",
            ActorVariant::Group => "organization",
        };
        proof {
            reveal_strlit("member");
            reveal_strlit("organization");
            is_ascii_spec_bytes(s);
        }
        buf.extend_from_slice(s.as_bytes());
        Ok(IsNull::No)
    }

    /// Whether `ty` is the actor-kind enumeration in its expected shape.
    pub fn accepts(ty: &SqlType) -> (ok: bool)
        ensures
            ok == accepted(ty),
    {
        if !text_is(&ty.name, "actors_available") {
            return false;
        }
        match &ty.kind {
            SqlKind::Enumeration(labels) => {
                if labels.len() != 2 {
                    return false;
                }
                let first = &labels[0];
                let second = &labels[1];
                (text_is(first, "member") && text_is(second, "organization")) || (text_is(
                    first,
                    "organization",
                ) && text_is(second, "member"))
            },
            SqlKind::Other => false,
        }
    }

    /// Encodes this kind for `ty` after checking that `ty` accepts it. Nothing is
    /// written where the check fails.
    pub fn to_sql_checked(&self, ty: &SqlType, buf: &mut Vec<u8>) -> (r: Result<IsNull, EncodeError>)
        ensures
            accepted(ty) ==> r == Ok::<IsNull, EncodeError>(IsNull::No),
            accepted(ty) ==> final(buf)@ == old(buf)@ + self.encoding(),
            !accepted(ty) ==> r == Err::<IsNull, EncodeError>(EncodeError::WrongType),
            !accepted(ty) ==> final(buf)@ == old(buf)@,
    {
        if Self::accepts(ty) {
            self.to_sql(ty, buf)
        } else {
            Err(EncodeError::WrongType)
        }
    }
}

} // verus!
