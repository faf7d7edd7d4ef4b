//! The contract interface model: methods, their mutability, the classifier
//! that partitions them by effect, and the composite (array / tuple) parsers
//! built on the scalar codec.

use vstd::prelude::*;
use vstd::string::{StrSliceExecFns, StringExecFns};

use crate::codec::{encode_scalar, scalar_bytes, scalar_error_spec, scalar_ok};
use crate::error::{ArgumentIssue, Error};
use crate::scan::{split_commas, str_equal, trim_in_set, trimmed, unbracketed, unparenthesized,
    split_commas_spec, TrimSet};

verus! {

broadcast use vstd::seq_lib::group_seq_properties, vstd::string::group_string_axioms;

/// The effect class a method filter selects.
#[derive(Debug, Clone, Copy, PartialEq, Eq, Structural)]
pub enum MethodType {
    /// Read-only methods (view or pure).
    Read,
    /// Methods that may modify state.
    Write,
    /// All methods regardless of their state mutability.
    All,
}

impl MethodType {
    /// The display name of the filter.
    pub fn label(&self) -> (r: String)
        ensures
            *self == MethodType::Read ==> r@ == "Read"@,
            *self == MethodType::Write ==> r@ == "Write"@,
            *self == MethodType::All ==> r@ == "All"@,
    {
        match self {
            MethodType::Read => String::from_str("Read"),
            MethodType::Write => String::from_str("Write"),
            MethodType::All => String::from_str("All"),
        }
    }
}

/// A method's declared state mutability.
#[derive(Debug, Clone, Copy, PartialEq, Eq, Structural)]
pub enum StateMutability {
    /// Reads nothing and changes nothing.
    Pure,
    /// Reads state, changes nothing.
    View,
    /// May change state, accepts no payment.
    NonPayable,
    /// May change state and accept payment.
    Payable,
}

/// One declared parameter: an optional display name and a type tag.
#[derive(Debug, PartialEq, Eq)]
pub struct Param {
    /// The parameter's name, possibly empty.
    pub name: String,
    /// The declared type tag, e.g. `uint256` or `uint256[]`.
    pub ty: String,
}

/// The mathematical content of a [`Param`]: its two texts.
#[verifier::ext_equal]
pub struct ParamView {
    pub name: Seq<char>,
    pub ty: Seq<char>,
}

impl View for Param {
    type V = ParamView;

    open spec fn view(&self) -> ParamView {
        ParamView { name: self.name@, ty: self.ty@ }
    }
}

/// One callable method of a contract interface.
#[derive(Debug, PartialEq, Eq)]
pub struct Function {
    /// The method's name.
    pub name: String,
    /// The declared mutability.
    pub state_mutability: StateMutability,
    /// The declared parameters, in call order.
    pub inputs: Vec<Param>,
    /// The declared outputs, in return order.
    pub outputs: Vec<Param>,
}

/// The mathematical content of a [`Function`].
#[verifier::ext_equal]
pub struct FunctionView {
    pub name: Seq<char>,
    pub state_mutability: StateMutability,
    pub inputs: Seq<ParamView>,
    pub outputs: Seq<ParamView>,
}

/// The views of a parameter list.
pub open spec fn param_views(params: Seq<Param>) -> Seq<ParamView> {
    params.map_values(|p: Param| p@)
}

impl View for Function {
    type V = FunctionView;

    open spec fn view(&self) -> FunctionView {
        FunctionView {
            name: self.name@,
            state_mutability: self.state_mutability,
            inputs: param_views(self.inputs@),
            outputs: param_views(self.outputs@),
        }
    }
}

/// The views of a method list.
pub open spec fn function_views(methods: Seq<Function>) -> Seq<FunctionView> {
    methods.map_values(|f: Function| f@)
}

impl Clone for Param {
    fn clone(&self) -> (r: Self)
        ensures
            r == *self,
    {
        Param { name: self.name.clone(), ty: self.ty.clone() }
    }
}

fn clone_params(params: &Vec<Param>) -> (r: Vec<Param>)
    ensures
        r@ == params@,
{
    let mut r: Vec<Param> = Vec::new();
    let mut i: usize = 0;
    while i < params.len()
        invariant
            0 <= i <= params.len(),
            r@ == params@.take(i as int),
        decreases params.len() - i,
    {
        r.push(params[i].clone());
        proof {
            assert(params@.take(i + 1) =~= params@.take(i as int).push(params@[i as int]));
        }
        i += 1;
    }
    proof {
        assert(params@.take(params@.len() as int) =~= params@);
    }
    r
}

impl Clone for Function {
    fn clone(&self) -> (r: Self)
        ensures
            r@ == self@,
    {
        let r = Function {
            name: self.name.clone(),
            state_mutability: self.state_mutability,
            inputs: clone_params(&self.inputs),
            outputs: clone_params(&self.outputs),
        };
        proof {
            assert(r@ =~~= self@);
        }
        r
    }
}

/// A method counts as a read when it is declared `view` or `pure`.
pub open spec fn is_read_method(m: StateMutability) -> bool {
    m == StateMutability::View || m == StateMutability::Pure
}

/// Whether the filter `mt` selects a method of mutability `m`.
pub open spec fn method_matches(m: StateMutability, mt: MethodType) -> bool {
    match mt {
        MethodType::Read => is_read_method(m),
        MethodType::Write => !is_read_method(m),
        MethodType::All => true,
    }
}

/// Law: the filters partition every method — `All` always selects it, and
/// `Read` selects it exactly when `Write` does not.
pub proof fn lemma_method_partition(m: StateMutability)
    ensures
        method_matches(m, MethodType::All),
        method_matches(m, MethodType::Read) <==> !method_matches(m, MethodType::Write),
{
}

/// The predicate on a method's view that the filter `mt` stands for.
pub open spec fn method_filter(mt: MethodType) -> spec_fn(FunctionView) -> bool {
    |fv: FunctionView| method_matches(fv.state_mutability, mt)
}

/// Partition a method list by effect.
///
/// Returns, keeping the list order, exactly the methods the filter selects:
/// `Read` keeps the `view`/`pure` methods, `Write` everything else, `All`
/// keeps the whole list.  Methods sharing a name all stay; `find_method`
/// resolves such collisions last-write-wins.
pub fn get_methods_by_type(methods: &Vec<Function>, method_type: MethodType) -> (r: Vec<Function>)
    ensures
        function_views(r@) == function_views(methods@).filter(method_filter(method_type)),
{
    let mut r: Vec<Function> = Vec::new();
    let mut i: usize = 0;
    proof {
        assert(function_views(methods@.take(0)).filter(method_filter(method_type))
            =~= Seq::<FunctionView>::empty());
        assert(function_views(r@) =~= Seq::<FunctionView>::empty());
    }
    while i < methods.len()
        invariant
            0 <= i <= methods.len(),
            function_views(r@) == function_views(methods@.take(i as int)).filter(
                method_filter(method_type),
            ),
        decreases methods.len() - i,
    {
        let is_read = matches!(methods[i].state_mutability, StateMutability::View
            | StateMutability::Pure);
        let selected = match method_type {
            MethodType::Read => is_read,
            MethodType::Write => !is_read,
            MethodType::All => true,
        };
        let ghost old_r = r@;
        proof {
            assert(function_views(methods@.take(i + 1)) =~= function_views(
                methods@.take(i as int),
            ).push(methods@[i as int]@));
            function_views(methods@.take(i as int)).lemma_filter_push(
                methods@[i as int]@,
                method_filter(method_type),
            );
            assert(selected == method_filter(method_type)(methods@[i as int]@));
        }
        if selected {
            r.push(methods[i].clone());
            proof {
                assert(function_views(r@) =~= function_views(old_r).push(methods@[i as int]@));
            }
        }
        i += 1;
    }
    proof {
        assert(methods@.take(methods@.len() as int) =~= methods@);
    }
    r
}

/// The method a name selects: the last one of that name, if any.
pub open spec fn method_lookup(methods: Seq<FunctionView>, name: Seq<char>) -> Option<FunctionView>
    decreases methods.len(),
{
    if methods.len() == 0 {
        None
    } else if methods.last().name == name {
        Some(methods.last())
    } else {
        method_lookup(methods.drop_last(), name)
    }
}

/// Look a method up by name; collisions resolve to the latest entry.
pub fn find_method(methods: &Vec<Function>, name: &str) -> (r: Result<Function, Error>)
    ensures
        r is Ok <==> method_lookup(function_views(methods@), name@) is Some,
        r matches Ok(f) ==> Some(f@) == method_lookup(function_views(methods@), name@),
        r matches Err(e) ==> e matches Error::MethodNotFound(s) && s@ == name@,
{
    let mut i: usize = methods.len();
    proof {
        assert(function_views(methods@.take(i as int)) =~= function_views(methods@));
    }
    while i > 0
        invariant
            0 <= i <= methods.len(),
            method_lookup(function_views(methods@), name@) == method_lookup(
                function_views(methods@.take(i as int)),
                name@,
            ),
        decreases i,
    {
        if str_equal(methods[i - 1].name.as_str(), name) {
            proof {
                assert(function_views(methods@.take(i as int)).last() == methods@[i - 1]@);
            }
            return Ok(methods[i - 1].clone());
        }
        proof {
            assert(function_views(methods@.take(i as int)).drop_last() =~= function_views(
                methods@.take(i - 1),
            ));
            assert(function_views(methods@.take(i as int)).last() == methods@[i - 1]@);
        }
        i -= 1;
    }
    proof {
        assert(function_views(methods@.take(0)) =~= Seq::<FunctionView>::empty());
    }
    Err(Error::MethodNotFound(name.to_owned()))
}

/// The text between an array literal's brackets.
pub open spec fn array_inner(v: Seq<char>) -> Seq<char> {
    unbracketed(trimmed(v))
}

/// The text between a tuple literal's parentheses.
pub open spec fn tuple_inner(v: Seq<char>) -> Seq<char> {
    unparenthesized(trimmed(v))
}

/// A composite literal counts as empty when nothing but whitespace stands
/// between its delimiters.
pub open spec fn composite_empty(inner: Seq<char>) -> bool {
    trimmed(inner).len() == 0
}

/// The element texts of a composite literal: the inner text split at every
/// comma, each part trimmed.  An empty literal has no elements.
pub open spec fn composite_parts(inner: Seq<char>) -> Seq<Seq<char>> {
    if composite_empty(inner) {
        Seq::empty()
    } else {
        split_commas_spec(inner).map_values(|p: Seq<char>| trimmed(p))
    }
}

/// Whether every element of an array literal encodes at the element type.
pub open spec fn array_ok(v: Seq<char>, elem: Seq<char>) -> bool {
    forall|i: int| 0 <= i < composite_parts(array_inner(v)).len() ==> scalar_ok(
        elem,
        #[trigger] composite_parts(array_inner(v))[i],
    )
}

/// The encoded segments of an array literal, one per element.
pub open spec fn array_segments(v: Seq<char>, elem: Seq<char>) -> Seq<Seq<u8>> {
    composite_parts(array_inner(v)).map_values(|p: Seq<char>| scalar_bytes(elem, p))
}

/// The error of the first element that fails to encode at `elem`.
pub open spec fn first_element_error(parts: Seq<Seq<char>>, elem: Seq<char>, e: Error) -> bool {
    exists|i: int|
        0 <= i < parts.len() && !scalar_ok(elem, #[trigger] parts[i]) && scalar_error_spec(
            elem,
            parts[i],
            e,
        ) && forall|j: int| 0 <= j < i ==> scalar_ok(elem, #[trigger] parts[j])
}

/// Parse an array (or slice) literal into one encoded segment per element.
///
/// The outer `[` / `]` are stripped (their absence is tolerated) and the
/// rest is split at every comma — flat, with no nesting awareness.  Each
/// part, trimmed, is encoded at `param_type` by the scalar codec; the first
/// failing part aborts the parse with its own error.  A literal holding
/// nothing but whitespace yields the empty sequence.
pub fn parse_array_or_slice_input(input: &str, param_type: &str) -> (r: Result<Vec<Vec<u8>>, Error>)
    ensures
        r is Ok <==> array_ok(input@, param_type@),
        r matches Ok(segs) ==> segs@.map_values(|b: Vec<u8>| b@) == array_segments(
            input@,
            param_type@,
        ),
        r matches Err(e) ==> first_element_error(
            composite_parts(array_inner(input@)),
            param_type@,
            e,
        ),
{
    let t = trim_in_set(input, TrimSet::Whitespace);
    let inner = trim_in_set(t, TrimSet::SquareBrackets);
    let ghost parts_spec = composite_parts(array_inner(input@));
    if trim_in_set(inner, TrimSet::Whitespace).unicode_len() == 0 {
        proof {
            assert(parts_spec =~= Seq::<Seq<char>>::empty());
            assert(Seq::<Vec<u8>>::empty().map_values(|b: Vec<u8>| b@) =~= array_segments(
                input@,
                param_type@,
            ));
        }
        return Ok(Vec::new());
    }
    let parts = split_commas(inner);
    proof {
        assert(parts_spec =~= parts@.map_values(|t2: String| t2@).map_values(
            |p: Seq<char>| trimmed(p),
        ));
    }
    let mut segs: Vec<Vec<u8>> = Vec::new();
    let mut i: usize = 0;
    while i < parts.len()
        invariant
            0 <= i <= parts.len(),
            parts@.len() == parts_spec.len(),
            forall|k: int| 0 <= k < parts@.len() ==> parts_spec[k] == trimmed(
                #[trigger] parts@[k]@,
            ),
            parts_spec == composite_parts(array_inner(input@)),
            forall|k: int| 0 <= k < i ==> scalar_ok(param_type@, #[trigger] parts_spec[k]),
            segs@.map_values(|b: Vec<u8>| b@) == parts_spec.take(i as int).map_values(
                |p: Seq<char>| scalar_bytes(param_type@, p),
            ),
        decreases parts.len() - i,
    {
        let part = trim_in_set(parts[i].as_str(), TrimSet::Whitespace);
        let ghost old_segs = segs@;
        match encode_scalar(part, param_type) {
            Ok(b) => {
                segs.push(b);
                proof {
                    assert(segs@.map_values(|b2: Vec<u8>| b2@) =~= old_segs.map_values(
                        |b2: Vec<u8>| b2@,
                    ).push(b@));
                    assert(parts_spec.take(i + 1) =~= parts_spec.take(i as int).push(
                        parts_spec[i as int],
                    ));
                    assert(parts_spec.take(i + 1).map_values(
                        |p: Seq<char>| scalar_bytes(param_type@, p),
                    ) =~= parts_spec.take(i as int).map_values(
                        |p: Seq<char>| scalar_bytes(param_type@, p),
                    ).push(scalar_bytes(param_type@, parts_spec[i as int])));
                }
            },
            Err(e) => {
                proof {
                    assert(!scalar_ok(param_type@, parts_spec[i as int]));
                    assert(scalar_error_spec(param_type@, parts_spec[i as int], e));
                }
                return Err(e);
            },
        }
        i += 1;
    }
    proof {
        assert(parts_spec.take(parts_spec.len() as int) =~= parts_spec);
    }
    Ok(segs)
}

/// The element type tags a tuple type such as `(uint256, bool)` declares:
/// the text between its parentheses, split at every comma, each part
/// trimmed.  The split is flat, so nested composite element types are not
/// recognised.
pub fn tuple_element_types(ty: &str) -> (r: Vec<String>)
    ensures
        r@.map_values(|t: String| t@) == composite_parts(tuple_inner(ty@)),
{
    let t = trim_in_set(ty, TrimSet::Whitespace);
    let inner = trim_in_set(t, TrimSet::Parentheses);
    let ghost parts_spec = composite_parts(tuple_inner(ty@));
    if trim_in_set(inner, TrimSet::Whitespace).unicode_len() == 0 {
        let r: Vec<String> = Vec::new();
        proof {
            assert(r@.map_values(|t2: String| t2@) =~= parts_spec);
        }
        return r;
    }
    let parts = split_commas(inner);
    proof {
        assert(parts_spec =~= parts@.map_values(|t2: String| t2@).map_values(
            |p: Seq<char>| trimmed(p),
        ));
    }
    let mut r: Vec<String> = Vec::new();
    let mut i: usize = 0;
    while i < parts.len()
        invariant
            0 <= i <= parts.len(),
            parts@.len() == parts_spec.len(),
            forall|k: int| 0 <= k < parts@.len() ==> parts_spec[k] == trimmed(
                #[trigger] parts@[k]@,
            ),
            r@.map_values(|t2: String| t2@) == parts_spec.take(i as int),
        decreases parts.len() - i,
    {
        let ghost old_r = r@;
        r.push(trim_in_set(parts[i].as_str(), TrimSet::Whitespace).to_owned());
        proof {
            assert(r@.map_values(|t2: String| t2@) =~= old_r.map_values(|t2: String| t2@).push(
                parts_spec[i as int],
            ));
            assert(parts_spec.take(i + 1) =~= parts_spec.take(i as int).push(
                parts_spec[i as int],
            ));
        }
        i += 1;
    }
    proof {
        assert(parts_spec.take(parts_spec.len() as int) =~= parts_spec);
    }
    r
}

/// Whether a tuple literal matches its declared element types exactly.
pub open spec fn tuple_ok(v: Seq<char>, types: Seq<Seq<char>>) -> bool {
    let parts = composite_parts(tuple_inner(v));
    parts.len() == types.len() && forall|i: int| 0 <= i < types.len() ==> scalar_ok(
        #[trigger] types[i],
        parts[i],
    )
}

/// The encoded segments of a tuple literal, one per positional element.
pub open spec fn tuple_segments(v: Seq<char>, types: Seq<Seq<char>>) -> Seq<Seq<u8>> {
    Seq::new(types.len(), |i: int| scalar_bytes(types[i], composite_parts(tuple_inner(v))[i]))
}

/// An arity-mismatch report carrying the exact expected and actual counts.
pub open spec fn tuple_arity_error(expected: nat, actual: nat, e: Error) -> bool {
    e matches Error::InvalidArguments(ArgumentIssue::TupleArity { expected: x, actual: y })
        && x == expected && y == actual
}

/// The error of the first tuple element that fails to encode.
pub open spec fn first_tuple_error(parts: Seq<Seq<char>>, types: Seq<Seq<char>>, e: Error) -> bool {
    exists|i: int|
        0 <= i < types.len() && !scalar_ok(#[trigger] types[i], parts[i]) && scalar_error_spec(
            types[i],
            parts[i],
            e,
        ) && forall|j: int| 0 <= j < i ==> scalar_ok(#[trigger] types[j], parts[j])
}

/// Parse a tuple literal into one encoded segment per positional element.
///
/// The outer `(` / `)` are stripped and the rest is split at every comma —
/// flat, with no nesting awareness.  The part count must equal the declared
/// type count exactly, else the parse fails reporting both counts.  Each
/// part, trimmed, is encoded at its positional type; the first failing part
/// aborts the parse with its own error.
pub fn parse_tuple_input(input: &str, param_types: &[String]) -> (r: Result<Vec<Vec<u8>>, Error>)
    ensures
        r is Ok <==> tuple_ok(input@, param_types@.map_values(|t: String| t@)),
        r matches Ok(segs) ==> segs@.map_values(|b: Vec<u8>| b@) == tuple_segments(
            input@,
            param_types@.map_values(|t: String| t@),
        ),
        r matches Err(e) ==> if composite_parts(tuple_inner(input@)).len() != param_types@.len() {
            tuple_arity_error(param_types@.len(), composite_parts(tuple_inner(input@)).len(), e)
        } else {
            first_tuple_error(
                composite_parts(tuple_inner(input@)),
                param_types@.map_values(|t: String| t@),
                e,
            )
        },
{
    let t = trim_in_set(input, TrimSet::Whitespace);
    let inner = trim_in_set(t, TrimSet::Parentheses);
    let ghost parts_spec = composite_parts(tuple_inner(input@));
    let ghost types_spec = param_types@.map_values(|t2: String| t2@);
    let empty = trim_in_set(inner, TrimSet::Whitespace).unicode_len() == 0;
    let parts: Vec<String> = if empty {
        Vec::new()
    } else {
        split_commas(inner)
    };
    proof {
        if empty {
            assert(parts_spec =~= Seq::<Seq<char>>::empty());
        } else {
            assert(parts_spec =~= parts@.map_values(|t2: String| t2@).map_values(
                |p: Seq<char>| trimmed(p),
            ));
        }
    }
    if parts.len() != param_types.len() {
        return Err(Error::InvalidArguments(ArgumentIssue::TupleArity {
            expected: param_types.len(),
            actual: parts.len(),
        }));
    }
    let mut segs: Vec<Vec<u8>> = Vec::new();
    let mut i: usize = 0;
    while i < parts.len()
        invariant
            0 <= i <= parts.len(),
            parts@.len() == parts_spec.len(),
            parts_spec.len() == types_spec.len(),
            types_spec == param_types@.map_values(|t2: String| t2@),
            forall|k: int| 0 <= k < parts@.len() ==> parts_spec[k] == trimmed(
                #[trigger] parts@[k]@,
            ),
            parts_spec == composite_parts(tuple_inner(input@)),
            forall|k: int| 0 <= k < i ==> scalar_ok(#[trigger] types_spec[k], parts_spec[k]),
            segs@.map_values(|b: Vec<u8>| b@) == tuple_segments(input@, types_spec).take(i as int),
        decreases parts.len() - i,
    {
        let part = trim_in_set(parts[i].as_str(), TrimSet::Whitespace);
        let ghost old_segs = segs@;
        match encode_scalar(part, param_types[i].as_str()) {
            Ok(b) => {
                segs.push(b);
                proof {
                    assert(segs@.map_values(|b2: Vec<u8>| b2@) =~= old_segs.map_values(
                        |b2: Vec<u8>| b2@,
                    ).push(b@));
                    assert(tuple_segments(input@, types_spec).take(i + 1) =~= tuple_segments(
                        input@,
                        types_spec,
                    ).take(i as int).push(scalar_bytes(types_spec[i as int], parts_spec[i as int])));
                }
            },
            Err(e) => {
                proof {
                    assert(!scalar_ok(types_spec[i as int], parts_spec[i as int]));
                    assert(scalar_error_spec(types_spec[i as int], parts_spec[i as int], e));
                }
                return Err(e);
            },
        }
        i += 1;
    }
    proof {
        assert(tuple_segments(input@, types_spec).take(types_spec.len() as int) =~= tuple_segments(
            input@,
            types_spec,
        ));
    }
    Ok(segs)
}

} // verus!
