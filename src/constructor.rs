//! The constructor that the `WithNew` derive generates for a struct with named
//! fields: required fields first, then optional ones, each group in declaration
//! order, with every optional parameter defaulting to `None`.
use vstd::prelude::*;
use crate::decl::{DataShape, FieldsShape, NamedField, TypeDecl};

verus! {

/// The positions `0..n` in order.
pub open spec fn positions(n: nat) -> Seq<int> {
    Seq::new(n, |i: int| i)
}

/// Holds of a position whose field is optional exactly when `optional` is.
pub open spec fn in_group(fields: Seq<NamedField>, optional: bool) -> spec_fn(int) -> bool {
    |i: int| fields[i].ty.is_option_type() == optional
}

/// The positions among the first `n` fields that belong to a group, in order.
pub open spec fn group_prefix(fields: Seq<NamedField>, optional: bool, n: nat) -> Seq<int> {
    positions(n).filter(in_group(fields, optional))
}

/// The positions of the fields of a group, in declaration order.
pub open spec fn group(fields: Seq<NamedField>, optional: bool) -> Seq<int> {
    group_prefix(fields, optional, fields.len())
}

/// The order of the constructor's parameters: the required fields, then the
/// optional ones.
pub open spec fn param_order(fields: Seq<NamedField>) -> Seq<int> {
    group(fields, false) + group(fields, true)
}

/// The first `n` positions split into the two groups: each group lists, in
/// increasing order, exactly the positions below `n` whose field belongs to it.
proof fn lemma_group_prefix(fields: Seq<NamedField>, n: nat)
    requires
        n <= fields.len(),
    ensures
        group_prefix(fields, false, n).len() + group_prefix(fields, true, n).len() == n,
        forall|b: bool, k: int|
            0 <= k < group_prefix(fields, b, n).len() ==> {
                let i = #[trigger] group_prefix(fields, b, n)[k];
                0 <= i < n && fields[i].ty.is_option_type() == b
            },
        forall|b: bool, j: int, k: int|
            0 <= j < k < group_prefix(fields, b, n).len() ==> #[trigger] group_prefix(
                fields,
                b,
                n,
            )[j] < #[trigger] group_prefix(fields, b, n)[k],
        forall|i: int|
            0 <= i < n ==> #[trigger] group_prefix(
                fields,
                fields[i].ty.is_option_type(),
                n,
            ).contains(i),
    decreases n,
{
    if n > 0 {
        let m = (n - 1) as nat;
        lemma_group_prefix(fields, m);
        reveal(Seq::filter);
        assert(positions(n).drop_last() =~= positions(m));
        let last = m as int;
        let own = fields[last].ty.is_option_type();
        assert(group_prefix(fields, own, n) == group_prefix(fields, own, m).push(last));
        assert(group_prefix(fields, !own, n) == group_prefix(fields, !own, m));
        assert forall|b: bool, k: int| 0 <= k < group_prefix(fields, b, n).len() implies {
            let i = #[trigger] group_prefix(fields, b, n)[k];
            0 <= i < n && fields[i].ty.is_option_type() == b
        } by {
            if b == own && k == group_prefix(fields, b, m).len() {
            } else {
                assert(group_prefix(fields, b, n)[k] == group_prefix(fields, b, m)[k]);
            }
        }
        assert forall|b: bool, j: int, k: int|
            0 <= j < k < group_prefix(fields, b, n).len() implies #[trigger] group_prefix(
            fields,
            b,
            n,
        )[j] < #[trigger] group_prefix(fields, b, n)[k] by {
            assert(group_prefix(fields, b, n)[j] == group_prefix(fields, b, m)[j]);
            if !(b == own && k == group_prefix(fields, b, m).len()) {
                assert(group_prefix(fields, b, n)[k] == group_prefix(fields, b, m)[k]);
            }
        }
        assert forall|i: int| 0 <= i < n implies #[trigger] group_prefix(
            fields,
            fields[i].ty.is_option_type(),
            n,
        ).contains(i) by {
            let b = fields[i].ty.is_option_type();
            if i == last {
                assert(group_prefix(fields, b, n)[group_prefix(fields, b, m).len() as int] == i);
            } else {
                let prev = group_prefix(fields, b, m);
                assert(prev.contains(i));
                let k = choose|k: int| 0 <= k < prev.len() && prev[k] == i;
                assert(group_prefix(fields, b, n)[k] == i);
            }
        }
    }
}

/// The constructor takes every field exactly once: its parameter order is a
/// permutation of the field positions.
pub proof fn lemma_param_order_is_permutation(fields: Seq<NamedField>)
    ensures
        param_order(fields).len() == fields.len(),
        param_order(fields).no_duplicates(),
        forall|i: int| 0 <= i < fields.len() <==> param_order(fields).contains(i),
{
    lemma_group_prefix(fields, fields.len());
    let required = group(fields, false);
    let optional = group(fields, true);
    let order = param_order(fields);
    assert forall|j: int, k: int| 0 <= j < order.len() && 0 <= k < order.len() && j != k implies order[j]
        != order[k] by {
        if j < required.len() && k < required.len() {
            if j < k {
                assert(required[j] < required[k]);
            } else {
                assert(required[k] < required[j]);
            }
        } else if j >= required.len() && k >= required.len() {
            let (a, b) = (j - required.len(), k - required.len());
            if a < b {
                assert(optional[a] < optional[b]);
            } else {
                assert(optional[b] < optional[a]);
            }
        } else if j < required.len() {
            let i = required[j];
            let o = optional[k - required.len()];
            assert(!fields[i].ty.is_option_type());
            assert(fields[o].ty.is_option_type());
        } else {
            let i = required[k];
            let o = optional[j - required.len()];
            assert(!fields[i].ty.is_option_type());
            assert(fields[o].ty.is_option_type());
        }
    }
    assert forall|i: int| 0 <= i < fields.len() <==> order.contains(i) by {
        if 0 <= i < fields.len() {
            let b = fields[i].ty.is_option_type();
            let g = group(fields, b);
            assert(group_prefix(fields, fields[i].ty.is_option_type(), fields.len()).contains(i));
            let k = choose|k: int| 0 <= k < g.len() && g[k] == i;
            if b {
                assert(order[required.len() + k] == i);
            } else {
                assert(order[k] == i);
            }
        }
        if order.contains(i) {
            let k = choose|k: int| 0 <= k < order.len() && order[k] == i;
            if k < required.len() {
                assert(required[k] == i);
            } else {
                assert(optional[k - required.len()] == i);
            }
        }
    }
}

/// A parameter of the generated constructor.
pub struct Param {
    /// Position of the field in the declaration.
    pub field: usize,
    /// Name of the field, which is also the name of the parameter.
    pub name: String,
    /// Whether the parameter's signature entry reads `name = None`.
    pub defaults_to_none: bool,
}

impl Param {
    /// This parameter stands for the field at position `i`.
    pub open spec fn stands_for(&self, fields: Seq<NamedField>, i: int) -> bool {
        &&& self.field as int == i
        &&& self.name@ == fields[i].name@
        &&& self.defaults_to_none == fields[i].ty.is_option_type()
    }
}

/// What the constructor of a struct is made of.
pub struct Constructor {
    /// The struct that receives the constructor.
    pub struct_name: String,
    /// Its parameters, in the order of the signature.
    pub params: Vec<Param>,
}

impl Constructor {
    /// The parameters follow `param_order`, each standing for its field.
    pub open spec fn builds(&self, name: Seq<char>, fields: Seq<NamedField>) -> bool {
        let order = param_order(fields);
        &&& self.struct_name@ == name
        &&& self.params@.len() == order.len()
        &&& forall|k: int|
            0 <= k < order.len() ==> (#[trigger] self.params@[k]).stands_for(fields, order[k])
    }
}

/// Why no constructor can be derived.
#[derive(PartialEq, Eq, Structural, Clone, Copy, Debug)]
pub enum DeriveError {
    /// The struct's fields are unnamed, or it has none in braces.
    FieldsNotNamed,
}

impl DeriveError {
    pub fn message(&self) -> (r: &'static str)
        ensures
            r@ == "AutoPyClass can only be used with structs with named fields"@,
    {
        "AutoPyClass can only be used with structs with named fields"
    }
}

/// Appends to `out` a parameter for each field of one group, in declaration order.
fn push_group(fields: &Vec<NamedField>, optional: bool, out: &mut Vec<Param>)
    ensures
        final(out)@.len() == old(out)@.len() + group(fields@, optional).len(),
        forall|k: int| 0 <= k < old(out)@.len() ==> #[trigger] final(out)@[k] == old(out)@[k],
        forall|k: int|
            0 <= k < group(fields@, optional).len() ==> (#[trigger] final(out)@[old(out)@.len()
                + k]).stands_for(fields@, group(fields@, optional)[k]),
{
    let ghost start = out@.len();
    let mut i: usize = 0;
    while i < fields.len()
        invariant
            i <= fields@.len(),
            start == old(out)@.len(),
            out@.len() == start + group_prefix(fields@, optional, i as nat).len(),
            forall|k: int| 0 <= k < start ==> #[trigger] out@[k] == old(out)@[k],
            forall|k: int|
                0 <= k < group_prefix(fields@, optional, i as nat).len() ==> (#[trigger] out@[start
                    + k]).stands_for(fields@, group_prefix(fields@, optional, i as nat)[k]),
        decreases fields@.len() - i,
    {
        let ghost before = group_prefix(fields@, optional, i as nat);
        proof {
            reveal(Seq::filter);
            assert(positions((i + 1) as nat).drop_last() =~= positions(i as nat));
        }
        if fields[i].ty.is_optional() == optional {
            let p = Param {
                field: i,
                name: fields[i].name.clone(),
                defaults_to_none: optional,
            };
            out.push(p);
            assert(group_prefix(fields@, optional, (i + 1) as nat) == before.push(i as int));
        } else {
            assert(group_prefix(fields@, optional, (i + 1) as nat) == before);
        }
        i = i + 1;
    }
}

/// The parameters of the constructor of a struct with these fields.
pub fn constructor_params(fields: &Vec<NamedField>) -> (r: Vec<Param>)
    ensures
        r@.len() == param_order(fields@).len(),
        forall|k: int|
            0 <= k < param_order(fields@).len() ==> (#[trigger] r@[k]).stands_for(
                fields@,
                param_order(fields@)[k],
            ),
{
    let mut params: Vec<Param> = Vec::new();
    push_group(fields, false, &mut params);
    let ghost first = params@;
    push_group(fields, true, &mut params);
    proof {
        let required = group(fields@, false);
        let order = param_order(fields@);
        assert forall|k: int| 0 <= k < order.len() implies (#[trigger] params@[k]).stands_for(
            fields@,
            order[k],
        ) by {
            if k < required.len() {
                assert(first[0 + k].stands_for(fields@, required[k]));
                assert(params@[k] == first[k]);
            } else {
                let m = k - required.len();
                assert(params@[required.len() + m].stands_for(fields@, group(fields@, true)[m]));
            }
        }
    }
    params
}

/// Derives the constructor of a declaration. A struct with named fields and no
/// generic parameters gets one; a generic struct, an enum or a union gets
/// nothing; a struct whose fields are not named is refused.
pub fn with_new(input: &TypeDecl) -> (r: Result<Option<Constructor>, DeriveError>)
    ensures
        match input.data {
            DataShape::Struct(FieldsShape::Named(fields)) => match r {
                Ok(Some(c)) => input.generic_params == 0 && c.builds(input.name@, fields@),
                Ok(None) => input.generic_params != 0,
                Err(_) => false,
            },
            DataShape::Struct(_) => r == Err::<Option<Constructor>, DeriveError>(
                DeriveError::FieldsNotNamed,
            ),
            _ => r is Ok && r->Ok_0 is None,
        },
{
    match &input.data {
        DataShape::Struct(FieldsShape::Named(fields)) => {
            if input.generic_params == 0 {
                let params = constructor_params(fields);
                Ok(Some(Constructor { struct_name: input.name.clone(), params }))
            } else {
                Ok(None)
            }
        },
        DataShape::Struct(_) => Err(DeriveError::FieldsNotNamed),
        _ => Ok(None),
    }
}

} // verus!
