//! The per-method compiler: parameter ordering, register accounting, body
//! assembly and the per-method fallback.

use vstd::prelude::*;
use crate::errors::Error;
use crate::input_node::ArgDesc;
use crate::input_node::InputParam;
use crate::input_node::InputTypes;
use crate::input_node::MarshalStep;
use crate::input_node::get_input_param;
use crate::input_node::get_input_type;
use crate::input_node::duplicate_args;
use crate::input_node::spec_arg_classifies;
use crate::input_node::spec_arg_error_text;
use crate::input_node::spec_error_text;
use crate::input_node::spec_param_of;
use crate::input_node::spec_param_wf;
use crate::input_node::spec_param_cost;
use crate::input_node::spec_step_matches;

verus! {

/// Whether every argument of a signature classifies.
pub open spec fn spec_all_args_classify(args: Seq<ArgDesc>) -> bool {
    forall|i: int| 0 <= i < args.len() ==> spec_arg_classifies(#[trigger] args[i])
}

/// Whether an argument classifies as an `Option` parameter.
pub open spec fn spec_arg_optional(a: ArgDesc) -> bool {
    spec_arg_classifies(a) && spec_param_of(a).input_type is OptionType
}

/// Whether an argument classifies as a `VariableString` parameter.
pub open spec fn spec_arg_string(a: ArgDesc) -> bool {
    spec_arg_classifies(a) && spec_param_of(a).input_type is StringType
}

/// The classified non-`Option` parameters of a signature, in declared
/// order.
pub open spec fn spec_mandatory_params(args: Seq<ArgDesc>) -> Seq<InputParam>
    decreases args.len(),
{
    if args.len() == 0 {
        Seq::empty()
    } else {
        let rest = spec_mandatory_params(args.drop_last());
        let a = args.last();
        if spec_arg_classifies(a) && !spec_arg_optional(a) {
            rest.push(spec_param_of(a))
        } else {
            rest
        }
    }
}

/// The classified `Option` parameters of a signature, in declared order.
pub open spec fn spec_optional_params(args: Seq<ArgDesc>) -> Seq<InputParam>
    decreases args.len(),
{
    if args.len() == 0 {
        Seq::empty()
    } else {
        let rest = spec_optional_params(args.drop_last());
        let a = args.last();
        if spec_arg_optional(a) {
            rest.push(spec_param_of(a))
        } else {
            rest
        }
    }
}

/// The canonical marshalling order of a signature's parameters: the stable
/// partition that keeps every mandatory parameter before every `Option`
/// parameter, each group in declared order.
pub open spec fn spec_sanitised_params(args: Seq<ArgDesc>) -> Seq<InputParam> {
    spec_mandatory_params(args) + spec_optional_params(args)
}

/// Whether some argument classifies as a `VariableString` parameter, which
/// obliges the generated body to acquire the shared buffer first.
pub open spec fn spec_has_string(args: Seq<ArgDesc>) -> bool
    decreases args.len(),
{
    if args.len() == 0 {
        false
    } else {
        spec_has_string(args.drop_last()) || spec_arg_string(args.last())
    }
}

/// The total register cost of a parameter list.
pub open spec fn spec_total_cost(ps: Seq<InputParam>) -> nat
    decreases ps.len(),
{
    if ps.len() == 0 {
        0
    } else {
        spec_total_cost(ps.drop_last()) + spec_param_cost(ps.last())
    }
}

/// Whether `steps` are exactly the marshalling fragments of `ps` in order,
/// each at the register index left free by the parameters before it.
pub open spec fn spec_steps_match(steps: Seq<MarshalStep>, ps: Seq<InputParam>) -> bool {
    &&& steps.len() == ps.len()
    &&& forall|i: int|
        0 <= i < ps.len() ==> spec_step_matches(
            #[trigger] steps[i],
            ps[i],
            spec_total_cost(ps.take(i)) as int,
        )
}

/// The parameter built from a classifiable argument is well formed.
proof fn lemma_param_of_wf(a: ArgDesc)
    requires
        spec_arg_classifies(a),
    ensures
        spec_param_wf(spec_param_of(a)),
{
}

/// Every classified mandatory parameter of a signature is well formed.
proof fn lemma_mandatory_params_wf(args: Seq<ArgDesc>)
    ensures
        forall|i: int|
            0 <= i < spec_mandatory_params(args).len() ==> spec_param_wf(
                #[trigger] spec_mandatory_params(args)[i],
            ),
    decreases args.len(),
{
    if args.len() > 0 {
        lemma_mandatory_params_wf(args.drop_last());
        let rest = spec_mandatory_params(args.drop_last());
        let s = spec_mandatory_params(args);
        let a = args.last();
        assert forall|i: int| 0 <= i < s.len() implies spec_param_wf(s[i]) by {
            if i < rest.len() {
                assert(spec_param_wf(rest[i]));
            } else {
                lemma_param_of_wf(a);
                assert(s[i] == spec_param_of(a));
            }
        };
    }
}

/// Every classified `Option` parameter of a signature is well formed.
proof fn lemma_optional_params_wf(args: Seq<ArgDesc>)
    ensures
        forall|i: int|
            0 <= i < spec_optional_params(args).len() ==> spec_param_wf(
                #[trigger] spec_optional_params(args)[i],
            ),
    decreases args.len(),
{
    if args.len() > 0 {
        lemma_optional_params_wf(args.drop_last());
        let rest = spec_optional_params(args.drop_last());
        let s = spec_optional_params(args);
        let a = args.last();
        assert forall|i: int| 0 <= i < s.len() implies spec_param_wf(s[i]) by {
            if i < rest.len() {
                assert(spec_param_wf(rest[i]));
            } else {
                lemma_param_of_wf(a);
                assert(s[i] == spec_param_of(a));
            }
        };
    }
}

/// Every parameter in the canonical order of a signature is well formed.
pub proof fn lemma_sanitised_params_wf(args: Seq<ArgDesc>)
    ensures
        forall|i: int|
            0 <= i < spec_sanitised_params(args).len() ==> spec_param_wf(
                #[trigger] spec_sanitised_params(args)[i],
            ),
{
    lemma_mandatory_params_wf(args);
    lemma_optional_params_wf(args);
    assert forall|i: int|
        0 <= i < spec_sanitised_params(args).len() implies spec_param_wf(
        spec_sanitised_params(args)[i],
    ) by {
        let m = spec_mandatory_params(args);
        let o = spec_optional_params(args);
        if i < m.len() {
            assert(spec_sanitised_params(args)[i] == m[i]);
        } else {
            assert(spec_sanitised_params(args)[i] == o[i - m.len()]);
        }
    };
}

/// A parameter's register cost is at most one.
pub proof fn lemma_param_cost_le_one(p: InputParam)
    ensures
        spec_param_cost(p) <= 1,
{
}

/// The position of the first argument that fails classification (the
/// length of `args` when every argument classifies).
pub open spec fn spec_first_bad(args: Seq<ArgDesc>) -> int
    decreases args.len(),
{
    if args.len() == 0 {
        0
    } else if spec_arg_classifies(args.first()) {
        1 + spec_first_bad(args.drop_first())
    } else {
        0
    }
}

/// An unclassifiable argument at `i`, with everything before it
/// classifiable, is the first one that fails.
proof fn lemma_first_bad_at(args: Seq<ArgDesc>, i: int)
    requires
        0 <= i < args.len(),
        !spec_arg_classifies(args[i]),
        forall|j: int| 0 <= j < i ==> spec_arg_classifies(#[trigger] args[j]),
    ensures
        spec_first_bad(args) == i,
    decreases i,
{
    if i > 0 {
        lemma_first_bad_at(args.drop_first(), i - 1);
    }
}

/// The view of an optional textual return type.
pub open spec fn spec_ret_view(r: Option<String>) -> Option<Seq<char>> {
    match r {
        Some(s) => Some(s@),
        None => None,
    }
}

/// A method signature as the declaration source hands it over: a name, an
/// ordered argument list and an optional textual return type.
pub struct MethodSig {
    pub ident: String,
    pub args: Vec<ArgDesc>,
    pub ret: Option<String>,
}

/// A method whose arguments have all been classified, ready for body
/// assembly. `args` echoes the declared argument list verbatim;
/// `input_params` holds the classified parameters in canonical marshalling
/// order.
pub struct MethodNode {
    pub ident: String,
    pub args: Vec<ArgDesc>,
    pub input_params: Vec<InputParam>,
    pub ret: Option<String>,
    pub has_string: bool,
}

/// A well-formed method node: every argument classifies, the stored
/// parameters are the canonical order, and the shared-buffer flag records
/// whether any parameter is a `VariableString`.
pub open spec fn spec_node_wf(n: MethodNode) -> bool {
    &&& spec_all_args_classify(n.args@)
    &&& n.input_params@ == spec_sanitised_params(n.args@)
    &&& n.has_string == spec_has_string(n.args@)
}

/// The scoped register-file block of a generated body: the marshalling
/// fragments in order, and the envelope data (operation label and total
/// register count) built after them.
pub struct MarshalBlock {
    pub ipc_buffer_name: String,
    pub msg_name: String,
    pub label: usize,
    pub steps: Vec<MarshalStep>,
    pub msg_len: usize,
}

/// The synthesized body of one method.
pub enum BodyKind {
    /// A real marshalling body: the shared-buffer preamble when some
    /// parameter needs it, then the scoped register-file block and the
    /// envelope.
    Compilable { needs_shared_buffer: bool, block: MarshalBlock },
    /// The deterministic fallback stub whose only behavior is to signal
    /// "not implemented" at call time.
    Unimplemented,
}

/// A generated method: the original name, argument list and return type,
/// echoed verbatim, around a synthesized body.
pub struct MethodBody {
    pub ident: String,
    pub args: Vec<ArgDesc>,
    pub ret: Option<String>,
    pub kind: BodyKind,
}

/// What the compiler owes for one method: the signature echoed verbatim,
/// and either a full marshalling body (when every argument classifies) or
/// the fallback stub (when any argument fails classification).
pub open spec fn spec_method_output(
    r: MethodBody,
    ident: Seq<char>,
    args: Seq<ArgDesc>,
    ret: Option<Seq<char>>,
    ipc_buffer_name: Seq<char>,
    msg_name: Seq<char>,
    label: int,
) -> bool {
    &&& r.ident@ == ident
    &&& r.args@ == args
    &&& spec_ret_view(r.ret) == ret
    &&& (if spec_all_args_classify(args) {
        &&& r.kind matches BodyKind::Compilable { needs_shared_buffer, block }
        &&& needs_shared_buffer == spec_has_string(args)
        &&& block.ipc_buffer_name@ == ipc_buffer_name
        &&& block.msg_name@ == msg_name
        &&& block.label == label
        &&& block.msg_len == spec_total_cost(spec_sanitised_params(args))
        &&& spec_steps_match(block.steps@, spec_sanitised_params(args))
    } else {
        r.kind is Unimplemented
    })
}

impl MethodNode {
    /// Classifies a signature's arguments and builds the node, or reports
    /// the first argument that fails classification.
    pub fn new(method: MethodSig) -> (r: Result<MethodNode, Error>)
        ensures
            r is Ok <==> spec_all_args_classify(method.args@),
            r matches Ok(n) ==> {
                &&& n.ident@ == method.ident@
                &&& n.args@ == method.args@
                &&& spec_ret_view(n.ret) == spec_ret_view(method.ret)
                &&& spec_node_wf(n)
            },
            r matches Err(e) ==> spec_error_text(e) == spec_arg_error_text(
                method.args@[spec_first_bad(method.args@)],
            ),
    {
        let MethodSig { ident, args, ret } = method;
        let echo = duplicate_args(&args);
        match Self::sanitise_params(args) {
            Ok((sanitised, has_string)) => Ok(
                MethodNode { ident, args: echo, input_params: sanitised, ret, has_string },
            ),
            Err(e) => Err(e),
        }
    }

    /// Classifies every argument and partitions the parameters into the
    /// canonical marshalling order: mandatory parameters first, `Option`
    /// parameters last, each group in declared order. Also reports whether
    /// any parameter is a `VariableString`.
    pub fn sanitise_params(params: Vec<ArgDesc>) -> (r: Result<(Vec<InputParam>, bool), Error>)
        ensures
            r is Ok <==> spec_all_args_classify(params@),
            r matches Ok(p) ==> p.0@ == spec_sanitised_params(params@) && p.1 == spec_has_string(
                params@,
            ),
            r matches Err(e) ==> spec_error_text(e) == spec_arg_error_text(
                params@[spec_first_bad(params@)],
            ),
    {
        let ghost all = params@;
        let mut rest = params;
        let mut sanitised: Vec<InputParam> = Vec::new();
        let mut optional_register: Vec<InputParam> = Vec::new();
        let mut has_string = false;
        let ghost mut i: int = 0;
        while rest.len() > 0
            invariant
                all == params@,
                0 <= i <= all.len(),
                rest@ == all.skip(i),
                forall|j: int| 0 <= j < i ==> spec_arg_classifies(#[trigger] all[j]),
                sanitised@ == spec_mandatory_params(all.take(i)),
                optional_register@ == spec_optional_params(all.take(i)),
                has_string == spec_has_string(all.take(i)),
            decreases rest.len(),
        {
            let a = rest.remove(0);
            proof {
                assert(a == all[i]);
                assert(rest@ =~= all.skip(i + 1));
            }
            match get_input_param(a) {
                Ok(p) => {
                    match p.input_type {
                        InputTypes::OptionType => optional_register.push(p),
                        InputTypes::StringType => {
                            sanitised.push(p);
                            has_string = true;
                        },
                        _ => sanitised.push(p),
                    }
                },
                Err(e) => {
                    proof {
                        lemma_first_bad_at(params@, i);
                    }
                    return Err(e);
                },
            }
            proof {
                i = i + 1;
                assert(all.take(i).drop_last() =~= all.take(i - 1));
                assert(all.take(i).last() == all[i - 1]);
            }
        }
        proof {
            assert(all.take(i) =~= all);
        }
        Ok((append_params(sanitised, optional_register), has_string))
    }

    /// Folds over the parameters in canonical order, threading the
    /// register index: each parameter's fragment is produced at the index
    /// left free by the parameters before it, and the final index is the
    /// method's total register count.
    pub fn marshal_all_inputs(&self) -> (r: (Vec<MarshalStep>, usize))
        requires
            forall|i: int|
                0 <= i < self.input_params@.len() ==> spec_param_wf(
                    #[trigger] self.input_params@[i],
                ),
        ensures
            r.1 == spec_total_cost(self.input_params@),
            spec_steps_match(r.0@, self.input_params@),
    {
        let ghost ps = self.input_params@;
        let mut marshalls: Vec<MarshalStep> = Vec::new();
        let mut msg_index: usize = 0;
        let mut i: usize = 0;
        while i < self.input_params.len()
            invariant
                ps == self.input_params@,
                forall|j: int| 0 <= j < ps.len() ==> spec_param_wf(#[trigger] ps[j]),
                i <= ps.len(),
                msg_index <= i,
                msg_index == spec_total_cost(ps.take(i as int)),
                marshalls@.len() == i,
                forall|j: int|
                    0 <= j < i ==> spec_step_matches(
                        #[trigger] marshalls@[j],
                        ps[j],
                        spec_total_cost(ps.take(j)) as int,
                    ),
            decreases ps.len() - i,
        {
            proof {
                lemma_param_cost_le_one(ps[i as int]);
            }
            let step = self.input_params[i].get_marshal_code(&mut msg_index);
            marshalls.push(step);
            i += 1;
            proof {
                assert(ps.take(i as int).drop_last() =~= ps.take(i as int - 1));
                assert(ps.take(i as int).last() == ps[i as int - 1]);
            }
        }
        proof {
            assert(ps.take(ps.len() as int) =~= ps);
        }
        (marshalls, msg_index)
    }

    /// Assembles the scoped register-file block of this method: the
    /// marshalling fragments in canonical order, and the envelope carrying
    /// the caller-supplied operation label and the total register count.
    pub fn marshal_code(&self, ipc_buffer_name: String, msg_name: String, label: usize) -> (r:
        MarshalBlock)
        requires
            spec_node_wf(*self),
        ensures
            r.ipc_buffer_name@ == ipc_buffer_name@,
            r.msg_name@ == msg_name@,
            r.label == label,
            r.msg_len == spec_total_cost(self.input_params@),
            spec_steps_match(r.steps@, self.input_params@),
    {
        proof {
            lemma_sanitised_params_wf(self.args@);
        }
        let (marshalls, msg_len) = self.marshal_all_inputs();
        MarshalBlock { ipc_buffer_name, msg_name, label, steps: marshalls, msg_len }
    }

    /// Assembles the full generated method: the original signature echoed
    /// verbatim around the marshalling body, with the shared-buffer
    /// preamble exactly when some parameter is a `VariableString`.
    pub fn to_method(self, ipc_buffer_name: String, msg_name: String, label: usize) -> (r:
        MethodBody)
        requires
            spec_node_wf(self),
        ensures
            spec_method_output(
                r,
                self.ident@,
                self.args@,
                spec_ret_view(self.ret),
                ipc_buffer_name@,
                msg_name@,
                label as int,
            ),
    {
        let block = self.marshal_code(ipc_buffer_name, msg_name, label);
        let MethodNode { ident, args, ret, has_string, .. } = self;
        MethodBody {
            ident,
            args,
            ret,
            kind: BodyKind::Compilable { needs_shared_buffer: has_string, block },
        }
    }

    /// The fallback for a method with an unclassifiable parameter: the
    /// original signature echoed verbatim around a stub that signals "not
    /// implemented" whenever it is called.
    pub fn to_unimplemented(method: MethodSig) -> (r: MethodBody)
        ensures
            r.ident@ == method.ident@,
            r.args@ == method.args@,
            spec_ret_view(r.ret) == spec_ret_view(method.ret),
            r.kind is Unimplemented,
    {
        let MethodSig { ident, args, ret } = method;
        MethodBody { ident, args, ret, kind: BodyKind::Unimplemented }
    }
}

/// Whether every argument of the list classifies.
pub fn all_args_classify(args: &Vec<ArgDesc>) -> (b: bool)
    ensures
        b == spec_all_args_classify(args@),
{
    let mut i: usize = 0;
    while i < args.len()
        invariant
            i <= args@.len(),
            forall|j: int| 0 <= j < i ==> spec_arg_classifies(#[trigger] args@[j]),
        decreases args@.len() - i,
    {
        if get_input_type(&args[i]).is_err() {
            return false;
        }
        i += 1;
    }
    true
}

/// Compiles one method: a full marshalling body when every argument
/// classifies, the "not implemented" stub otherwise. Either way the
/// original signature is echoed verbatim.
pub fn parse_method(method: MethodSig, ipc_buffer_name: String, msg_name: String, label: usize) -> (r:
    MethodBody)
    ensures
        spec_method_output(
            r,
            method.ident@,
            method.args@,
            spec_ret_view(method.ret),
            ipc_buffer_name@,
            msg_name@,
            label as int,
        ),
{
    if all_args_classify(&method.args) {
        match MethodNode::new(method) {
            Ok(node) => node.to_method(ipc_buffer_name, msg_name, label),
            Err(_) => vstd::pervasive::unreached(),
        }
    } else {
        MethodNode::to_unimplemented(method)
    }
}

/// Compiles a whole interface declaration, one method at a time. A method
/// whose parameters cannot be classified becomes a stub; the others are
/// unaffected. Each method's operation label is its position in the
/// declaration.
pub fn parse_trait(methods: Vec<MethodSig>, ipc_buffer_name: &str, msg_name: &str) -> (r: Vec<
    MethodBody,
>)
    ensures
        r@.len() == methods@.len(),
        forall|i: int|
            0 <= i < methods@.len() ==> spec_method_output(
                #[trigger] r@[i],
                methods@[i].ident@,
                methods@[i].args@,
                spec_ret_view(methods@[i].ret),
                ipc_buffer_name@,
                msg_name@,
                i,
            ),
{
    let ghost all = methods@;
    let mut rest = methods;
    let mut out: Vec<MethodBody> = Vec::new();
    let ghost mut i: int = 0;
    while rest.len() > 0
        invariant
            all == methods@,
            0 <= i <= all.len(),
            rest@ == all.skip(i),
            out@.len() == i,
            forall|j: int|
                0 <= j < i ==> spec_method_output(
                    #[trigger] out@[j],
                    all[j].ident@,
                    all[j].args@,
                    spec_ret_view(all[j].ret),
                    ipc_buffer_name@,
                    msg_name@,
                    j,
                ),
        decreases rest.len(),
    {
        let m = rest.remove(0);
        proof {
            assert(m == all[i]);
            assert(rest@ =~= all.skip(i + 1));
        }
        let label: usize = out.len();
        let body = parse_method(m, ipc_buffer_name.to_owned(), msg_name.to_owned(), label);
        out.push(body);
        proof {
            i = i + 1;
        }
    }
    out
}

/// Concatenates the two halves of the stable partition.
fn append_params(mandatory: Vec<InputParam>, optional: Vec<InputParam>) -> (r: Vec<InputParam>)
    ensures
        r@ == mandatory@ + optional@,
{
    let ghost m = mandatory@;
    let mut r = mandatory;
    let mut rest = optional;
    let ghost all = rest@;
    let ghost mut i: int = 0;
    while rest.len() > 0
        invariant
            0 <= i <= all.len(),
            rest@ == all.skip(i),
            r@ == m + all.take(i),
        decreases rest.len(),
    {
        let p = rest.remove(0);
        proof {
            assert(p == all[i]);
            assert(rest@ =~= all.skip(i + 1));
        }
        r.push(p);
        proof {
            i = i + 1;
            assert(r@ =~= m + all.take(i));
        }
    }
    proof {
        assert(all.take(i) =~= all);
    }
    r
}

} // verus!
