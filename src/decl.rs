//! A plain-value model of a type declaration, as far as the generators read it.
use vstd::prelude::*;

verus! {

/// The identifier that marks a field type as optional.
pub open spec fn option_ident() -> Seq<char> {
    seq!['O', 'p', 't', 'i', 'o', 'n']
}

/// The shape of a field's type: a path, with the identifier of each of its
/// segments in order, or anything else (a reference, a tuple, an array, ...).
pub enum TypeShape {
    Path(Vec<String>),
    Other,
}

impl TypeShape {
    /// A type is optional when it is a path one of whose segments is `Option`.
    pub open spec fn is_option_type(&self) -> bool {
        match self {
            TypeShape::Path(segments) => exists|j: int|
                0 <= j < segments@.len() && #[trigger] segments@[j]@ == option_ident(),
            TypeShape::Other => false,
        }
    }

    pub fn is_optional(&self) -> (r: bool)
        ensures
            r == self.is_option_type(),
    {
        match self {
            TypeShape::Path(segments) => {
                let target = String::from_str("Option");
                proof {
                    reveal_strlit("Option");
                }
                assert(target@ =~= option_ident());
                let mut j: usize = 0;
                while j < segments.len()
                    invariant
                        j <= segments@.len(),
                        target@ == option_ident(),
                        self.is_option_type() == exists|k: int|
                            0 <= k < segments@.len() && #[trigger] segments@[k]@ == option_ident(),
                        forall|k: int| 0 <= k < j ==> #[trigger] segments@[k]@ != option_ident(),
                    decreases segments@.len() - j,
                {
                    if segments[j] == target {
                        assert(segments@[j as int]@ == option_ident());
                        return true;
                    }
                    j = j + 1;
                }
                false
            },
            TypeShape::Other => false,
        }
    }
}

/// A named field of a struct.
pub struct NamedField {
    pub name: String,
    pub ty: TypeShape,
}

/// How the fields of a struct are written.
pub enum FieldsShape {
    Named(Vec<NamedField>),
    Unnamed,
    Unit,
}

/// What kind of data a declaration introduces.
pub enum DataShape {
    Struct(FieldsShape),
    Enum,
    Union,
}

/// A type declaration: its name, how many generic parameters it has, and its data.
pub struct TypeDecl {
    pub name: String,
    pub generic_params: usize,
    pub data: DataShape,
}

} // verus!
