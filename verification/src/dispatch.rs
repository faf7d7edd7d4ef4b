//! The execution dispatcher: routing each argument to the right parser,
//! assembling the call payload, and deciding how an invocation proceeds —
//! as a stateless read call, or as a write transaction that first needs an
//! explicit confirmation and a signing credential.
//!
//! The network steps themselves belong to the provider collaborator; the
//! host performs them only as a plan or a submit decision directs, so an
//! error or a cancellation here means no network traffic at all.

use vstd::prelude::*;
use vstd::string::{StrSliceExecFns, StringExecFns};

use crate::abi::{array_inner, array_ok, array_segments, composite_parts, first_element_error,
    first_tuple_error, is_read_method, param_views, parse_array_or_slice_input, parse_tuple_input,
    tuple_arity_error, tuple_element_types, tuple_inner, tuple_ok, tuple_segments, Function,
    Param, ParamView};
use crate::codec::{encode_scalar, scalar_bytes, scalar_error_spec, scalar_ok};
use crate::context::SessionContext;
use crate::error::{ArgumentIssue, Error};
use crate::scan::{ends_with_spec, ends_with_text};

verus! {

broadcast use vstd::string::group_string_axioms, vstd::seq::Seq::group_seq_flatten;

/// A type tag names an array or slice when it ends in `[]`.
pub open spec fn is_array_type(ty: Seq<char>) -> bool {
    ends_with_spec(ty, "[]"@)
}

/// A type tag names a tuple when it opens with `(` (and is no array).
pub open spec fn is_tuple_type(ty: Seq<char>) -> bool {
    !is_array_type(ty) && ty.len() > 0 && ty[0] == '('
}

/// The element type of an array type tag: the tag without its final `[]`.
pub open spec fn array_elem_type(ty: Seq<char>) -> Seq<char> {
    ty.take(ty.len() - 2)
}

/// Whether one textual value encodes at one declared parameter type.
pub open spec fn argument_ok(ty: Seq<char>, v: Seq<char>) -> bool {
    if is_array_type(ty) {
        array_ok(v, array_elem_type(ty))
    } else if is_tuple_type(ty) {
        tuple_ok(v, composite_parts(tuple_inner(ty)))
    } else {
        scalar_ok(ty, v)
    }
}

/// The encoded segments one value contributes to the payload: one per array
/// or tuple element, a single one for a scalar.
pub open spec fn argument_segments(ty: Seq<char>, v: Seq<char>) -> Seq<Seq<u8>> {
    if is_array_type(ty) {
        array_segments(v, array_elem_type(ty))
    } else if is_tuple_type(ty) {
        tuple_segments(v, composite_parts(tuple_inner(ty)))
    } else {
        seq![scalar_bytes(ty, v)]
    }
}

/// The error one rejected value is reported with.
pub open spec fn argument_error(ty: Seq<char>, v: Seq<char>, e: Error) -> bool {
    if is_array_type(ty) {
        first_element_error(composite_parts(array_inner(v)), array_elem_type(ty), e)
    } else if is_tuple_type(ty) {
        if composite_parts(tuple_inner(v)).len() != composite_parts(tuple_inner(ty)).len() {
            tuple_arity_error(
                composite_parts(tuple_inner(ty)).len(),
                composite_parts(tuple_inner(v)).len(),
                e,
            )
        } else {
            first_tuple_error(composite_parts(tuple_inner(v)), composite_parts(tuple_inner(ty)), e)
        }
    } else {
        scalar_error_spec(ty, v, e)
    }
}

/// Encode one textual value at one declared parameter type, routing to the
/// array parser, the tuple parser or the scalar codec by the type tag's
/// shape.
pub fn encode_argument(value: &str, param_type: &str) -> (r: Result<Vec<Vec<u8>>, Error>)
    ensures
        r is Ok <==> argument_ok(param_type@, value@),
        r matches Ok(segs) ==> segs@.map_values(|b: Vec<u8>| b@) == argument_segments(
            param_type@,
            value@,
        ),
        r matches Err(e) ==> argument_error(param_type@, value@, e),
{
    if ends_with_text(param_type, "[]") {
        proof {
            reveal_strlit("[]");
        }
        let n = param_type.unicode_len();
        let elem = param_type.substring_char(0, n - 2);
        proof {
            assert(elem@ =~= array_elem_type(param_type@));
        }
        parse_array_or_slice_input(value, elem)
    } else if param_type.unicode_len() > 0 && param_type.get_char(0) == '(' {
        let types = tuple_element_types(param_type);
        parse_tuple_input(value, types.as_slice())
    } else {
        match encode_scalar(value, param_type) {
            Ok(b) => {
                let mut segs: Vec<Vec<u8>> = Vec::new();
                segs.push(b);
                proof {
                    assert(segs@.map_values(|b2: Vec<u8>| b2@) =~= seq![
                        scalar_bytes(param_type@, value@),
                    ]);
                }
                Ok(segs)
            },
            Err(e) => Err(e),
        }
    }
}

/// The views of the supplied value texts.
pub open spec fn values_views(values: Seq<String>) -> Seq<Seq<char>> {
    values.map_values(|s: String| s@)
}

/// Whether a value list matches a parameter list: one value per parameter,
/// each encoding at its parameter's type.
pub open spec fn args_ok(inputs: Seq<ParamView>, values: Seq<Seq<char>>) -> bool {
    inputs.len() == values.len() && forall|i: int|
        0 <= i < inputs.len() ==> argument_ok((#[trigger] inputs[i]).ty, values[i])
}

/// The per-parameter segment lists, in declaration order.
pub open spec fn args_segment_lists(inputs: Seq<ParamView>, values: Seq<Seq<char>>) -> Seq<
    Seq<Seq<u8>>,
> {
    Seq::new(inputs.len(), |i: int| argument_segments(inputs[i].ty, values[i]))
}

/// All encoded segments of a call, in declaration order.
pub open spec fn args_segments(inputs: Seq<ParamView>, values: Seq<Seq<char>>) -> Seq<Seq<u8>> {
    args_segment_lists(inputs, values).flatten()
}

/// The error an argument list is rejected with: a count mismatch, or the
/// first value that fails to encode.
pub open spec fn args_error(inputs: Seq<ParamView>, values: Seq<Seq<char>>, e: Error) -> bool {
    if inputs.len() != values.len() {
        e matches Error::InvalidArguments(ArgumentIssue::ArgumentCount { expected, actual })
            && expected == inputs.len() && actual == values.len()
    } else {
        exists|i: int|
            0 <= i < inputs.len() && !argument_ok((#[trigger] inputs[i]).ty, values[i])
                && argument_error(inputs[i].ty, values[i], e) && forall|j: int|
                0 <= j < i ==> argument_ok((#[trigger] inputs[j]).ty, values[j])
    }
}

/// Encode a full argument list against a method's declared parameters.
///
/// One value is required per parameter, in declaration order; the first
/// value that fails to encode aborts the whole encoding with its own error.
pub fn encode_method_args(inputs: &Vec<Param>, values: &Vec<String>) -> (r: Result<
    Vec<Vec<u8>>,
    Error,
>)
    ensures
        r is Ok <==> args_ok(param_views(inputs@), values_views(values@)),
        r matches Ok(segs) ==> segs@.map_values(|b: Vec<u8>| b@) == args_segments(
            param_views(inputs@),
            values_views(values@),
        ),
        r matches Err(e) ==> args_error(param_views(inputs@), values_views(values@), e),
{
    let ghost ivs = param_views(inputs@);
    let ghost vvs = values_views(values@);
    if inputs.len() != values.len() {
        return Err(Error::InvalidArguments(ArgumentIssue::ArgumentCount {
            expected: inputs.len(),
            actual: values.len(),
        }));
    }
    let mut segs: Vec<Vec<u8>> = Vec::new();
    let mut i: usize = 0;
    proof {
        assert(args_segment_lists(ivs, vvs).take(0).flatten() =~= Seq::<Seq<u8>>::empty());
        assert(segs@.map_values(|b: Vec<u8>| b@) =~= Seq::<Seq<u8>>::empty());
    }
    while i < inputs.len()
        invariant
            0 <= i <= inputs.len(),
            ivs == param_views(inputs@),
            vvs == values_views(values@),
            ivs.len() == inputs@.len(),
            vvs.len() == values@.len(),
            inputs@.len() == values@.len(),
            forall|k: int| 0 <= k < i ==> argument_ok((#[trigger] ivs[k]).ty, vvs[k]),
            segs@.map_values(|b: Vec<u8>| b@) == args_segment_lists(ivs, vvs).take(
                i as int,
            ).flatten(),
        decreases inputs.len() - i,
    {
        match encode_argument(values[i].as_str(), inputs[i].ty.as_str()) {
            Ok(mut part) => {
                let ghost old_segs = segs@;
                let ghost part_views = part@.map_values(|b: Vec<u8>| b@);
                segs.append(&mut part);
                proof {
                    assert(part_views == argument_segments(ivs[i as int].ty, vvs[i as int]));
                    assert(segs@.map_values(|b: Vec<u8>| b@) =~= old_segs.map_values(
                        |b: Vec<u8>| b@,
                    ) + part_views);
                    assert(args_segment_lists(ivs, vvs).take(i + 1) =~= args_segment_lists(
                        ivs,
                        vvs,
                    ).take(i as int).push(argument_segments(ivs[i as int].ty, vvs[i as int])));
                }
            },
            Err(e) => {
                proof {
                    assert(!argument_ok(ivs[i as int].ty, vvs[i as int]));
                    assert(argument_error(ivs[i as int].ty, vvs[i as int], e));
                }
                return Err(e);
            },
        }
        i += 1;
    }
    proof {
        assert(args_segment_lists(ivs, vvs).take(ivs.len() as int) =~= args_segment_lists(
            ivs,
            vvs,
        ));
    }
    Ok(segs)
}

/// Concatenate encoded segments, in order, into one call payload.
pub fn concat_segments(segs: &Vec<Vec<u8>>) -> (r: Vec<u8>)
    ensures
        r@ == segs@.map_values(|b: Vec<u8>| b@).flatten(),
{
    let ghost views = segs@.map_values(|b: Vec<u8>| b@);
    let mut payload: Vec<u8> = Vec::new();
    let mut i: usize = 0;
    proof {
        assert(views.take(0).flatten() =~= Seq::<u8>::empty());
    }
    while i < segs.len()
        invariant
            0 <= i <= segs.len(),
            views == segs@.map_values(|b: Vec<u8>| b@),
            views.len() == segs@.len(),
            payload@ == views.take(i as int).flatten(),
        decreases segs.len() - i,
    {
        let seg = &segs[i];
        let m = seg.len();
        let mut j: usize = 0;
        proof {
            assert(seg@.take(0) =~= Seq::<u8>::empty());
            assert(payload@ =~= views.take(i as int).flatten() + seg@.take(0));
        }
        while j < m
            invariant
                0 <= j <= m,
                m == seg@.len(),
                seg == &segs[i as int],
                0 <= i < segs@.len(),
                views == segs@.map_values(|b: Vec<u8>| b@),
                views.len() == segs@.len(),
                payload@ == views.take(i as int).flatten() + seg@.take(j as int),
            decreases m - j,
        {
            payload.push(seg[j]);
            proof {
                assert(seg@.take(j + 1) =~= seg@.take(j as int).push(seg@[j as int]));
            }
            j += 1;
        }
        proof {
            assert(seg@.take(m as int) =~= seg@);
            assert(views.take(i + 1) =~= views.take(i as int).push(views[i as int]));
            assert(views.take(i + 1).flatten() =~= views.take(i as int).flatten() + seg@);
        }
        i += 1;
    }
    proof {
        assert(views.take(views.len() as int) =~= views);
    }
    payload
}

/// How an invocation is to be carried out: a stateless read call, or a
/// state-changing write transaction.
#[derive(Debug)]
pub enum ExecutionPlan {
    /// Query the contract without a transaction.
    Read { address: Vec<u8>, payload: Vec<u8> },
    /// Sign and submit a transaction, once confirmed.
    Write { address: Vec<u8>, payload: Vec<u8> },
}

fn clone_bytes(v: &Vec<u8>) -> (r: Vec<u8>)
    ensures
        r@ == v@,
{
    let mut r: Vec<u8> = Vec::new();
    let mut i: usize = 0;
    while i < v.len()
        invariant
            0 <= i <= v.len(),
            r@ == v@.take(i as int),
        decreases v.len() - i,
    {
        r.push(v[i]);
        proof {
            assert(v@.take(i + 1) =~= v@.take(i as int).push(v@[i as int]));
        }
        i += 1;
    }
    proof {
        assert(v@.take(v@.len() as int) =~= v@);
    }
    r
}

/// Decide how a method invocation proceeds.
///
/// The argument values are encoded first; any value the codec rejects
/// aborts the dispatch before anything else is considered.  A dispatch with
/// no contract selected fails with `NoContractSelected` — in particular,
/// before any network step could happen.  Otherwise the plan carries the
/// selected address and the concatenated payload, and is a read exactly
/// when the method is declared `view` or `pure`.
pub fn plan_execution(function: &Function, values: &Vec<String>, ctx: &SessionContext) -> (r:
    Result<ExecutionPlan, Error>)
    ensures
        r is Ok <==> (args_ok(function@.inputs, values_views(values@))
            && ctx.selected_contract_address is Some),
        r matches Ok(plan) ==> (match plan {
            ExecutionPlan::Read { address, payload } => {
                &&& is_read_method(function@.state_mutability)
                &&& ctx.selected_contract_address matches Some(a)
                &&& address@ == a@
                &&& payload@ == args_segments(function@.inputs, values_views(values@)).flatten()
            },
            ExecutionPlan::Write { address, payload } => {
                &&& !is_read_method(function@.state_mutability)
                &&& ctx.selected_contract_address matches Some(a)
                &&& address@ == a@
                &&& payload@ == args_segments(function@.inputs, values_views(values@)).flatten()
            },
        }),
        r matches Err(e) ==> if !args_ok(function@.inputs, values_views(values@)) {
            args_error(function@.inputs, values_views(values@), e)
        } else {
            e matches Error::NoContractSelected
        },
{
    let segs = encode_method_args(&function.inputs, values)?;
    let address: Vec<u8> = match &ctx.selected_contract_address {
        Some(a) => clone_bytes(a),
        None => {
            return Err(Error::NoContractSelected);
        },
    };
    let payload = concat_segments(&segs);
    let is_read = matches!(function.state_mutability, crate::abi::StateMutability::View
        | crate::abi::StateMutability::Pure);
    if is_read {
        Ok(ExecutionPlan::Read { address, payload })
    } else {
        Ok(ExecutionPlan::Write { address, payload })
    }
}

/// The decision a confirmed or declined write comes to.
#[derive(Debug)]
pub enum WriteDecision {
    /// The user declined; nothing is sent.
    Cancelled,
    /// Sign and send the transaction.
    Submit { address: Vec<u8>, payload: Vec<u8> },
}

/// Gate a write plan on the user's confirmation and the signing credential.
///
/// An unconfirmed write is cancelled outright — the credential is not even
/// consulted, and nothing is submitted.  A confirmed write without a
/// signing credential fails with `NoWalletConfigured`; with one, the plan's
/// address and payload move into the submit decision unchanged.
pub fn authorize_write(plan: ExecutionPlan, confirmed: bool, ctx: &SessionContext) -> (r: Result<
    WriteDecision,
    Error,
>)
    requires
        plan is Write,
    ensures
        !confirmed ==> r matches Ok(WriteDecision::Cancelled),
        confirmed && ctx.signing_key is None ==> r matches Err(Error::NoWalletConfigured),
        confirmed && ctx.signing_key is Some ==> (r matches Ok(d) && d matches
            WriteDecision::Submit { .. }),
        r matches Ok(WriteDecision::Submit { address, payload }) ==> (plan matches
            ExecutionPlan::Write { address: a2, payload: p2 } && address == a2 && payload == p2),
{
    if !confirmed {
        return Ok(WriteDecision::Cancelled);
    }
    match &ctx.signing_key {
        None => Err(Error::NoWalletConfigured),
        Some(_) => match plan {
            ExecutionPlan::Write { address, payload } => Ok(WriteDecision::Submit {
                address,
                payload,
            }),
            ExecutionPlan::Read { address, payload } => Ok(WriteDecision::Submit {
                address,
                payload,
            }),
        },
    }
}

/// The neutral result of a declined write.
pub fn cancelled_message() -> (r: String)
    ensures
        r@ == "Transaction cancelled"@,
{
    String::from_str("Transaction cancelled")
}

/// The display form of a submitted transaction's identifier.
pub fn transaction_sent_message(tx_id: &str) -> (r: String)
    ensures
        r@ == "Transaction sent: "@ + tx_id@,
{
    let mut s = String::from_str("Transaction sent: ");
    s.append(tx_id);
    s
}

} // verus!
