//! The class options that the `with_pyclass` attribute gives an item.
use vstd::prelude::*;

verus! {

/// What kind of item the attribute is placed on.
#[derive(PartialEq, Eq, Structural, Clone, Copy, Debug)]
pub enum ItemKind {
    Struct,
    Enum,
    /// Any other item: a function, a module, an impl, ...
    Other,
}

/// An option of the `pyclass` attribute.
#[derive(PartialEq, Eq, Structural, Clone, Copy, Debug)]
pub enum PyclassOption {
    Subclass,
    Dict,
    GetAll,
    SetAll,
}

impl PyclassOption {
    /// The option's keyword inside `#[pyclass(...)]`.
    pub open spec fn spec_keyword(self) -> Seq<char> {
        match self {
            PyclassOption::Subclass => "subclass"@,
            PyclassOption::Dict => "dict"@,
            PyclassOption::GetAll => "get_all"@,
            PyclassOption::SetAll => "set_all"@,
        }
    }

    pub fn keyword(&self) -> (r: &'static str)
        ensures
            r@ == self.spec_keyword(),
    {
        match self {
            PyclassOption::Subclass => "subclass",
            PyclassOption::Dict => "dict",
            PyclassOption::GetAll => "get_all",
            PyclassOption::SetAll => "set_all",
        }
    }
}

/// Why an item cannot be exposed as a class.
#[derive(PartialEq, Eq, Structural, Clone, Copy, Debug)]
pub enum PyclassError {
    NotStructOrEnum,
}

impl PyclassError {
    pub fn message(&self) -> (r: &'static str)
        ensures
            r@ == "with_pyclass can only be used with structs or enums"@,
    {
        "with_pyclass can only be used with structs or enums"
    }
}

/// The options a struct receives: it can be subclassed, carries an instance
/// dictionary, and exposes a getter and a setter for every field.
pub open spec fn struct_options() -> Seq<PyclassOption> {
    seq![PyclassOption::Subclass, PyclassOption::Dict, PyclassOption::GetAll, PyclassOption::SetAll]
}

/// The options an enum receives: a getter and a setter for every field.
pub open spec fn enum_options() -> Seq<PyclassOption> {
    seq![PyclassOption::GetAll, PyclassOption::SetAll]
}

/// The `pyclass` options for an item, or the error for an item that is
/// neither a struct nor an enum.
pub fn with_pyclass(item: ItemKind) -> (r: Result<Vec<PyclassOption>, PyclassError>)
    ensures
        match item {
            ItemKind::Struct => r is Ok && r->Ok_0@ == struct_options(),
            ItemKind::Enum => r is Ok && r->Ok_0@ == enum_options(),
            ItemKind::Other => r is Err && r->Err_0 == PyclassError::NotStructOrEnum,
        },
{
    match item {
        ItemKind::Struct => {
            let v = vec![
                PyclassOption::Subclass,
                PyclassOption::Dict,
                PyclassOption::GetAll,
                PyclassOption::SetAll,
            ];
            assert(v@ =~= struct_options());
            Ok(v)
        },
        ItemKind::Enum => {
            let v = vec![PyclassOption::GetAll, PyclassOption::SetAll];
            assert(v@ =~= enum_options());
            Ok(v)
        },
        ItemKind::Other => Err(PyclassError::NotStructOrEnum),
    }
}

} // verus!
