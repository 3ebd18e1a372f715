//! Type descriptors, the transport taxonomy, and the per-parameter compiler.

use vstd::prelude::*;
use vstd::string::StringExecFns;
use crate::errors::Error;

verus! {

/// A source-level type shape, as far as the taxonomy distinguishes shapes.
///
/// Parameter types arrive from the declaration source as syntax; only the
/// shapes below are meaningful to the classifier. Any other source-level
/// shape (a tuple, a multi-argument generic, a function pointer, ...) is
/// carried opaquely as its textual form and never classifies.
#[derive(Debug)]
pub enum TypeDesc {
    /// A bare path with no generic arguments, e.g. `usize`, `bool`, `str`.
    Path(String),
    /// A single-argument generic path, e.g. `Option<bool>`,
    /// `LocalHandle<WindowHandle>`.
    Generic(String, Box<TypeDesc>),
    /// A shared reference `&T`.
    Reference(Box<TypeDesc>),
    /// A raw pointer `*const T`.
    ConstPtr(Box<TypeDesc>),
    /// A raw pointer `*mut T`.
    MutPtr(Box<TypeDesc>),
    /// Any other shape, carried as its textual form.
    Other(String),
}

/// The closed transport taxonomy: every classifiable parameter type falls
/// under exactly one of these variants.
#[derive(Clone, Copy, PartialEq, Eq, Structural, Debug)]
pub enum InputTypes {
    NumberType,
    BoolType,
    LocalHandleType,
    OptionType,
    AbsoluteCptrType,
    StringType,
}

/// Whether `name` is one of the fixed-width integer or raw-pointer path
/// names accepted as `Number`.
pub open spec fn spec_is_number_name(name: Seq<char>) -> bool {
    name == "usize"@ || name == "u8"@ || name == "u64"@
}

/// Whether `name` names one of the enumerated handle kinds accepted inside
/// `LocalHandle<...>`.
pub open spec fn spec_is_handle_kind(name: Seq<char>) -> bool {
    ||| name == "WindowHandle"@
    ||| name == "ViewHandle"@
    ||| name == "ObjectHandle"@
    ||| name == "ConnectionHandle"@
    ||| name == "PublishHandle"@
    ||| name == "ReplyHandle"@
    ||| name == "HandleCapHandle"@
    ||| name == "ProcessHandle"@
    ||| name == "ConnRegistrationHandle"@
    ||| name == "WindowRegistrationHandle"@
    ||| name == "IRQRegistrationHandle"@
    ||| name == "ChannelAuthorityHandle"@
    ||| name == "ChannelHandle"@
}

/// `Number`: a fixed-width integer type or a raw pointer to `u8`.
pub open spec fn spec_is_number_type(ty: TypeDesc) -> bool {
    match ty {
        TypeDesc::Path(name) => spec_is_number_name(name@),
        TypeDesc::ConstPtr(inner) => match *inner {
            TypeDesc::Path(n) => n@ == "u8"@,
            _ => false,
        },
        TypeDesc::MutPtr(inner) => match *inner {
            TypeDesc::Path(n) => n@ == "u8"@,
            _ => false,
        },
        _ => false,
    }
}

/// `Boolean`: the boolean type.
pub open spec fn spec_is_bool_type(ty: TypeDesc) -> bool {
    ty matches TypeDesc::Path(name) && name@ == "bool"@
}

/// `CapabilitySlot`: a reference to the absolute capability pointer type.
pub open spec fn spec_is_cptr_type(ty: TypeDesc) -> bool {
    &&& ty matches TypeDesc::Reference(inner)
    &&& *inner matches TypeDesc::Path(n)
    &&& n@ == "AbsoluteCPtr"@
}

/// `TypedHandle`: a reference to `LocalHandle<K>` for an enumerated kind `K`.
pub open spec fn spec_is_handle_type(ty: TypeDesc) -> bool {
    &&& ty matches TypeDesc::Reference(inner)
    &&& *inner matches TypeDesc::Generic(n, arg)
    &&& n@ == "LocalHandle"@
    &&& *arg matches TypeDesc::Path(k)
    &&& spec_is_handle_kind(k@)
}

/// `VariableString`: a borrowed string slice.
pub open spec fn spec_is_string_type(ty: TypeDesc) -> bool {
    &&& ty matches TypeDesc::Reference(inner)
    &&& *inner matches TypeDesc::Path(n)
    &&& n@ == "str"@
}

/// An `Option<T>` wrapper shape, for any inner type `T`.
pub open spec fn spec_is_option_shape(ty: TypeDesc) -> bool {
    ty matches TypeDesc::Generic(name, _) && name@ == "Option"@
}

/// The inner type of a single-argument generic shape.
pub open spec fn spec_generic_inner(ty: TypeDesc) -> TypeDesc
    recommends
        ty is Generic,
{
    match ty {
        TypeDesc::Generic(_, inner) => *inner,
        _ => ty,
    }
}

/// Classification of a type into a base (non-`Option`) taxonomy variant:
/// the first matching variant in the fixed priority order wins.
pub open spec fn spec_classify_base(ty: TypeDesc) -> Option<InputTypes> {
    if spec_is_number_type(ty) {
        Some(InputTypes::NumberType)
    } else if spec_is_bool_type(ty) {
        Some(InputTypes::BoolType)
    } else if spec_is_cptr_type(ty) {
        Some(InputTypes::AbsoluteCptrType)
    } else if spec_is_handle_type(ty) {
        Some(InputTypes::LocalHandleType)
    } else if spec_is_string_type(ty) {
        Some(InputTypes::StringType)
    } else {
        None
    }
}

/// Full classification, in the fixed priority order `Number`, `Boolean`,
/// `CapabilitySlot`, `TypedHandle`, `Optional`, `VariableString`.
///
/// `Option<T>` classifies exactly when `T` itself classifies as a base
/// variant: optional nesting deeper than one level is rejected.
pub open spec fn spec_classify(ty: TypeDesc) -> Option<InputTypes> {
    if spec_is_number_type(ty) {
        Some(InputTypes::NumberType)
    } else if spec_is_bool_type(ty) {
        Some(InputTypes::BoolType)
    } else if spec_is_cptr_type(ty) {
        Some(InputTypes::AbsoluteCptrType)
    } else if spec_is_handle_type(ty) {
        Some(InputTypes::LocalHandleType)
    } else if spec_is_option_shape(ty) && spec_classify_base(spec_generic_inner(ty)) is Some {
        Some(InputTypes::OptionType)
    } else if spec_is_string_type(ty) {
        Some(InputTypes::StringType)
    } else {
        None
    }
}

/// Whether `ty` classifies at all.
pub open spec fn spec_classifies(ty: TypeDesc) -> bool {
    spec_classify(ty) is Some
}

/// The textual form of a type shape.
pub open spec fn spec_type_text(ty: TypeDesc) -> Seq<char>
    decreases ty,
{
    match ty {
        TypeDesc::Path(name) => name@,
        TypeDesc::Generic(name, inner) => name@ + "<"@ + spec_type_text(*inner) + ">"@,
        TypeDesc::Reference(inner) => "&"@ + spec_type_text(*inner),
        TypeDesc::ConstPtr(inner) => "*const "@ + spec_type_text(*inner),
        TypeDesc::MutPtr(inner) => "*mut "@ + spec_type_text(*inner),
        TypeDesc::Other(text) => text@,
    }
}

/// The textual form carried inside an error value.
pub open spec fn spec_error_text(e: Error) -> Seq<char> {
    match e {
        Error::InvalidArg(s) => s@,
    }
}

/// Renders a type shape into its textual form, for error reporting and for
/// echoing unclassifiable shapes.
pub fn type_text(ty: &TypeDesc) -> (r: String)
    ensures
        r@ == spec_type_text(*ty),
    decreases *ty,
{
    match ty {
        TypeDesc::Path(name) => name.clone(),
        TypeDesc::Generic(name, inner) => {
            let mut s = name.clone();
            s.append("<");
            let inner_text = type_text(inner);
            s.append(inner_text.as_str());
            s.append(">");
            s
        },
        TypeDesc::Reference(inner) => {
            let mut s = String::from_str("&");
            let inner_text = type_text(inner);
            s.append(inner_text.as_str());
            s
        },
        TypeDesc::ConstPtr(inner) => {
            let mut s = String::from_str("*const ");
            let inner_text = type_text(inner);
            s.append(inner_text.as_str());
            s
        },
        TypeDesc::MutPtr(inner) => {
            let mut s = String::from_str("*mut ");
            let inner_text = type_text(inner);
            s.append(inner_text.as_str());
            s
        },
        TypeDesc::Other(text) => text.clone(),
    }
}

/// Compares a string against a literal by characters.
fn string_is(s: &String, lit: &str) -> (b: bool)
    ensures
        b == (s@ == lit@),
{
    let owned: String = lit.to_owned();
    s.eq(&owned)
}

/// Whether `name` is accepted as a `Number` path name.
fn is_number_name(name: &String) -> (b: bool)
    ensures
        b == spec_is_number_name(name@),
{
    string_is(name, "usize") || string_is(name, "u8") || string_is(name, "u64")
}

/// Whether `name` names an enumerated handle kind.
fn is_handle_kind(name: &String) -> (b: bool)
    ensures
        b == spec_is_handle_kind(name@),
{
    string_is(name, "WindowHandle") || string_is(name, "ViewHandle")
        || string_is(name, "ObjectHandle") || string_is(name, "ConnectionHandle")
        || string_is(name, "PublishHandle") || string_is(name, "ReplyHandle")
        || string_is(name, "HandleCapHandle") || string_is(name, "ProcessHandle")
        || string_is(name, "ConnRegistrationHandle")
        || string_is(name, "WindowRegistrationHandle")
        || string_is(name, "IRQRegistrationHandle")
        || string_is(name, "ChannelAuthorityHandle") || string_is(name, "ChannelHandle")
}

/// Whether `ty` matches the `Number` rule.
fn is_number_type(ty: &TypeDesc) -> (b: bool)
    ensures
        b == spec_is_number_type(*ty),
{
    match ty {
        TypeDesc::Path(name) => is_number_name(name),
        TypeDesc::ConstPtr(inner) => match &**inner {
            TypeDesc::Path(n) => string_is(n, "u8"),
            _ => false,
        },
        TypeDesc::MutPtr(inner) => match &**inner {
            TypeDesc::Path(n) => string_is(n, "u8"),
            _ => false,
        },
        _ => false,
    }
}

/// Whether `ty` matches the `Boolean` rule.
fn is_bool_type(ty: &TypeDesc) -> (b: bool)
    ensures
        b == spec_is_bool_type(*ty),
{
    match ty {
        TypeDesc::Path(name) => string_is(name, "bool"),
        _ => false,
    }
}

/// Whether `ty` matches the `CapabilitySlot` rule.
fn is_cptr_type(ty: &TypeDesc) -> (b: bool)
    ensures
        b == spec_is_cptr_type(*ty),
{
    match ty {
        TypeDesc::Reference(inner) => match &**inner {
            TypeDesc::Path(n) => string_is(n, "AbsoluteCPtr"),
            _ => false,
        },
        _ => false,
    }
}

/// Whether `ty` matches the `TypedHandle` rule.
fn is_handle_type(ty: &TypeDesc) -> (b: bool)
    ensures
        b == spec_is_handle_type(*ty),
{
    match ty {
        TypeDesc::Reference(inner) => match &**inner {
            TypeDesc::Generic(n, arg) => match &**arg {
                TypeDesc::Path(k) => string_is(n, "LocalHandle") && is_handle_kind(k),
                _ => false,
            },
            _ => false,
        },
        _ => false,
    }
}

/// Whether `ty` matches the `VariableString` rule.
fn is_string_type(ty: &TypeDesc) -> (b: bool)
    ensures
        b == spec_is_string_type(*ty),
{
    match ty {
        TypeDesc::Reference(inner) => match &**inner {
            TypeDesc::Path(n) => string_is(n, "str"),
            _ => false,
        },
        _ => false,
    }
}

/// Classifies `ty` into a base (non-`Option`) taxonomy variant, trying each
/// rule in the fixed priority order.
fn classify_base(ty: &TypeDesc) -> (r: Option<InputTypes>)
    ensures
        r == spec_classify_base(*ty),
{
    if is_number_type(ty) {
        Some(InputTypes::NumberType)
    } else if is_bool_type(ty) {
        Some(InputTypes::BoolType)
    } else if is_cptr_type(ty) {
        Some(InputTypes::AbsoluteCptrType)
    } else if is_handle_type(ty) {
        Some(InputTypes::LocalHandleType)
    } else if is_string_type(ty) {
        Some(InputTypes::StringType)
    } else {
        None
    }
}

/// Matching and inner-type extraction for the `Optional` rule.
pub struct OptionType {}

impl OptionType {
    /// Whether `ty` is an `Option<T>` wrapper whose inner type `T`
    /// classifies as a base taxonomy variant.
    pub fn is_type(ty: &TypeDesc) -> (b: bool)
        ensures
            b == (spec_is_option_shape(*ty) && spec_classify_base(spec_generic_inner(*ty))
                is Some),
    {
        match ty {
            TypeDesc::Generic(name, inner) => string_is(name, "Option") && classify_base(
                inner,
            ).is_some(),
            _ => false,
        }
    }

    /// The single argument of a one-argument generic shape, or an error
    /// carrying the textual form of `ty` when it has no such argument.
    pub fn get_inner_type(ty: &TypeDesc) -> (r: Result<&TypeDesc, Error>)
        ensures
            r is Ok <==> ty is Generic,
            r matches Ok(t) ==> *t == spec_generic_inner(*ty),
            r matches Err(e) ==> spec_error_text(e) == spec_type_text(*ty),
    {
        match ty {
            TypeDesc::Generic(_, inner) => Ok(&**inner),
            _ => Err(Error::InvalidArg(type_text(ty))),
        }
    }
}

/// Classifies a type shape into its taxonomy variant, or reports the
/// textual form of the offending type.
///
/// The rules are tried in the fixed priority order `Number`, `Boolean`,
/// `CapabilitySlot`, `TypedHandle`, `Optional`, `VariableString`; the first
/// match wins.
pub fn match_type(ty: &TypeDesc) -> (r: Result<InputTypes, Error>)
    ensures
        r is Ok <==> spec_classifies(*ty),
        r matches Ok(v) ==> spec_classify(*ty) == Some(v),
        r matches Err(e) ==> spec_error_text(e) == spec_type_text(*ty),
{
    if is_number_type(ty) {
        Ok(InputTypes::NumberType)
    } else if is_bool_type(ty) {
        Ok(InputTypes::BoolType)
    } else if is_cptr_type(ty) {
        Ok(InputTypes::AbsoluteCptrType)
    } else if is_handle_type(ty) {
        Ok(InputTypes::LocalHandleType)
    } else if OptionType::is_type(ty) {
        Ok(InputTypes::OptionType)
    } else if is_string_type(ty) {
        Ok(InputTypes::StringType)
    } else {
        Err(Error::InvalidArg(type_text(ty)))
    }
}

/// Classification is deterministic over the closed taxonomy: a shape that
/// matches one variant's rule is classified as that variant — no shape
/// matches two variants except through the `Option` wrapper — and a shape
/// that matches no rule never classifies.
pub proof fn lemma_classification_deterministic(ty: TypeDesc)
    ensures
        spec_is_number_type(ty) ==> spec_classify(ty) == Some(InputTypes::NumberType),
        spec_is_bool_type(ty) ==> spec_classify(ty) == Some(InputTypes::BoolType),
        spec_is_cptr_type(ty) ==> spec_classify(ty) == Some(InputTypes::AbsoluteCptrType),
        spec_is_handle_type(ty) ==> spec_classify(ty) == Some(InputTypes::LocalHandleType),
        spec_is_option_shape(ty) && spec_classify_base(spec_generic_inner(ty)) is Some
            ==> spec_classify(ty) == Some(InputTypes::OptionType),
        spec_is_string_type(ty) ==> spec_classify(ty) == Some(InputTypes::StringType),
        !(spec_is_number_type(ty) || spec_is_bool_type(ty) || spec_is_cptr_type(ty)
            || spec_is_handle_type(ty) || spec_is_option_shape(ty) || spec_is_string_type(ty))
            ==> spec_classify(ty) is None,
{
    reveal_strlit("usize");
    reveal_strlit("u8");
    reveal_strlit("u64");
    reveal_strlit("bool");
    reveal_strlit("str");
    reveal_strlit("AbsoluteCPtr");
    assert("usize"@.len() == 5);
    assert("u8"@.len() == 2);
    assert("u64"@.len() == 3);
    assert("bool"@.len() == 4);
    assert("str"@.len() == 3);
    assert("AbsoluteCPtr"@.len() == 12);
}

/// The `Option` rule is exactly one level deep: an `Option` wrapper
/// classifies precisely when its inner type classifies as a base variant,
/// so wrapping a classifiable non-`Option` type classifies, and nesting
/// two `Option` wrappers never does.
pub proof fn lemma_optional_recursion(ty: TypeDesc)
    requires
        spec_is_option_shape(ty),
    ensures
        spec_classifies(ty) <==> spec_classify_base(spec_generic_inner(ty)) is Some,
        spec_is_option_shape(spec_generic_inner(ty)) ==> !spec_classifies(ty),
        !spec_is_option_shape(spec_generic_inner(ty)) ==> (spec_classifies(ty)
            <==> spec_classifies(spec_generic_inner(ty))),
{
}

/// One declared argument of a method signature, as the declaration source
/// hands it over.
#[derive(Debug)]
pub enum ArgDesc {
    /// A plainly named, typed argument `name: ty`.
    Typed { name: String, ty: TypeDesc },
    /// A receiver or an argument with an unsupported pattern, carried as
    /// its textual form.
    Other(String),
}

/// Whether an argument is typed and its type classifies.
pub open spec fn spec_arg_classifies(a: ArgDesc) -> bool {
    a matches ArgDesc::Typed { ty, .. } && spec_classifies(ty)
}

/// The textual form reported when an argument fails classification.
pub open spec fn spec_arg_error_text(a: ArgDesc) -> Seq<char> {
    match a {
        ArgDesc::Typed { ty, .. } => spec_type_text(ty),
        ArgDesc::Other(text) => text@,
    }
}

/// A parameter together with its classified taxonomy variant. Immutable
/// once constructed.
#[derive(Debug)]
pub struct InputParam {
    pub ident: String,
    pub ty: TypeDesc,
    pub input_type: InputTypes,
}

/// A well-formed parameter: the recorded variant is its type's
/// classification.
pub open spec fn spec_param_wf(p: InputParam) -> bool {
    spec_classify(p.ty) == Some(p.input_type)
}

/// The parameter built from a classifiable argument.
pub open spec fn spec_param_of(a: ArgDesc) -> InputParam
    recommends
        spec_arg_classifies(a),
{
    match a {
        ArgDesc::Typed { name, ty } => InputParam {
            ident: name,
            ty,
            input_type: spec_classify(ty).unwrap(),
        },
        ArgDesc::Other(_) => arbitrary(),
    }
}

/// Classifies an argument's declared type, or reports the textual form of
/// whatever failed to classify.
pub fn get_input_type(arg: &ArgDesc) -> (r: Result<InputTypes, Error>)
    ensures
        r is Ok <==> spec_arg_classifies(*arg),
        r matches Ok(v) ==> spec_param_of(*arg).input_type == v,
        r matches Err(e) ==> spec_error_text(e) == spec_arg_error_text(*arg),
{
    match arg {
        ArgDesc::Typed { ty, .. } => match_type(ty),
        ArgDesc::Other(text) => Err(Error::InvalidArg(text.clone())),
    }
}

/// Builds the classified parameter for an argument, or reports the textual
/// form of whatever failed to classify.
pub fn get_input_param(arg: ArgDesc) -> (r: Result<InputParam, Error>)
    ensures
        r is Ok <==> spec_arg_classifies(arg),
        r matches Ok(p) ==> p == spec_param_of(arg),
        r matches Err(e) ==> spec_error_text(e) == spec_arg_error_text(arg),
{
    match arg {
        ArgDesc::Typed { name, ty } => match match_type(&ty) {
            Ok(input_type) => Ok(InputParam { ident: name, ty, input_type }),
            Err(e) => Err(e),
        },
        ArgDesc::Other(text) => Err(Error::InvalidArg(text)),
    }
}

impl TypeDesc {
    /// A deep copy, equal to the original.
    pub fn duplicate(&self) -> (r: TypeDesc)
        ensures
            r == *self,
        decreases *self,
    {
        match self {
            TypeDesc::Path(name) => TypeDesc::Path(name.clone()),
            TypeDesc::Generic(name, inner) => TypeDesc::Generic(
                name.clone(),
                Box::new(inner.duplicate()),
            ),
            TypeDesc::Reference(inner) => TypeDesc::Reference(Box::new(inner.duplicate())),
            TypeDesc::ConstPtr(inner) => TypeDesc::ConstPtr(Box::new(inner.duplicate())),
            TypeDesc::MutPtr(inner) => TypeDesc::MutPtr(Box::new(inner.duplicate())),
            TypeDesc::Other(text) => TypeDesc::Other(text.clone()),
        }
    }
}

impl ArgDesc {
    /// A deep copy, equal to the original.
    pub fn duplicate(&self) -> (r: ArgDesc)
        ensures
            r == *self,
    {
        match self {
            ArgDesc::Typed { name, ty } => ArgDesc::Typed {
                name: name.clone(),
                ty: ty.duplicate(),
            },
            ArgDesc::Other(text) => ArgDesc::Other(text.clone()),
        }
    }
}

/// A deep copy of an argument list, equal to the original.
pub fn duplicate_args(args: &Vec<ArgDesc>) -> (r: Vec<ArgDesc>)
    ensures
        r@ == args@,
{
    let mut out: Vec<ArgDesc> = Vec::new();
    let mut i: usize = 0;
    while i < args.len()
        invariant
            i <= args.len(),
            out@ == args@.take(i as int),
        decreases args.len() - i,
    {
        out.push(args[i].duplicate());
        i += 1;
        proof {
            assert(out@ =~= args@.take(i as int));
        }
    }
    proof {
        assert(args@.take(args@.len() as int) =~= args@);
    }
    out
}

/// One marshalling fragment of a generated method body. Each variant names
/// the runtime statement it stands for; `name` is always the parameter
/// being marshalled.
#[derive(Debug)]
pub enum MarshalStep {
    /// Write the value, cast to a 64-bit word, into the register file at
    /// `index`.
    WriteNumber { name: String, index: usize },
    /// Write the boolean's integer encoding into the register file at
    /// `index`.
    WriteBool { name: String, index: usize },
    /// Write the handle's internal index, as a 64-bit word, into the
    /// register file at `index`.
    WriteHandle { name: String, index: usize },
    /// Install the capability reference into the message's dedicated
    /// receive-slot field.
    SetRecvSlot { name: String },
    /// Copy the string, terminated, into the previously acquired shared
    /// buffer.
    CopyString { name: String },
    /// If the optional value is present, unwrap it and perform the inner
    /// step on the unwrapped value.
    IfPresent { name: String, inner: Box<MarshalStep> },
}

/// The register cost of a base (non-`Option`) taxonomy variant.
pub open spec fn spec_base_cost(v: InputTypes) -> nat {
    match v {
        InputTypes::NumberType => 1,
        InputTypes::BoolType => 1,
        InputTypes::LocalHandleType => 1,
        InputTypes::AbsoluteCptrType => 0,
        InputTypes::StringType => 0,
        InputTypes::OptionType => 0,
    }
}

/// The base variant of an `Option` parameter's inner type.
pub open spec fn spec_inner_variant(p: InputParam) -> InputTypes
    recommends
        spec_param_wf(p),
        p.input_type is OptionType,
{
    spec_classify_base(spec_generic_inner(p.ty)).unwrap()
}

/// The register cost of a classified parameter. An `Option` parameter pays
/// its inner variant's cost unconditionally: the slot is reserved whether
/// or not the value is present at run time.
pub open spec fn spec_param_cost(p: InputParam) -> nat
    recommends
        spec_param_wf(p),
{
    if p.input_type is OptionType {
        spec_base_cost(spec_inner_variant(p))
    } else {
        spec_base_cost(p.input_type)
    }
}

/// Whether `step` is the marshalling fragment of a base variant `v` for a
/// parameter named `name` at register `index`.
pub open spec fn spec_base_step_matches(
    step: MarshalStep,
    v: InputTypes,
    name: Seq<char>,
    index: int,
) -> bool {
    match v {
        InputTypes::NumberType => {
            &&& step matches MarshalStep::WriteNumber { name: n, index: i }
            &&& n@ == name
            &&& i == index
        },
        InputTypes::BoolType => {
            &&& step matches MarshalStep::WriteBool { name: n, index: i }
            &&& n@ == name
            &&& i == index
        },
        InputTypes::LocalHandleType => {
            &&& step matches MarshalStep::WriteHandle { name: n, index: i }
            &&& n@ == name
            &&& i == index
        },
        InputTypes::AbsoluteCptrType => {
            &&& step matches MarshalStep::SetRecvSlot { name: n }
            &&& n@ == name
        },
        InputTypes::StringType => {
            &&& step matches MarshalStep::CopyString { name: n }
            &&& n@ == name
        },
        InputTypes::OptionType => false,
    }
}

/// Whether `step` is the marshalling fragment of parameter `p` when the
/// next free register is `index`.
pub open spec fn spec_step_matches(step: MarshalStep, p: InputParam, index: int) -> bool
    recommends
        spec_param_wf(p),
{
    if p.input_type is OptionType {
        &&& step matches MarshalStep::IfPresent { name: n, inner }
        &&& n@ == p.ident@
        &&& spec_base_step_matches(*inner, spec_inner_variant(p), p.ident@, index)
    } else {
        spec_base_step_matches(step, p.input_type, p.ident@, index)
    }
}

/// Whether a base variant consumes a register.
fn consumes_register(v: InputTypes) -> (b: bool)
    requires
        !(v is OptionType),
    ensures
        b == (spec_base_cost(v) == 1),
{
    match v {
        InputTypes::NumberType => true,
        InputTypes::BoolType => true,
        InputTypes::LocalHandleType => true,
        InputTypes::AbsoluteCptrType => false,
        InputTypes::StringType => false,
        InputTypes::OptionType => vstd::pervasive::unreached(),
    }
}

/// The marshalling fragment of a base variant at a given register index.
fn base_marshal_step(v: InputTypes, ident: &String, index: usize) -> (step: MarshalStep)
    requires
        !(v is OptionType),
    ensures
        spec_base_step_matches(step, v, ident@, index as int),
{
    match v {
        InputTypes::NumberType => MarshalStep::WriteNumber { name: ident.clone(), index },
        InputTypes::BoolType => MarshalStep::WriteBool { name: ident.clone(), index },
        InputTypes::LocalHandleType => MarshalStep::WriteHandle { name: ident.clone(), index },
        InputTypes::AbsoluteCptrType => MarshalStep::SetRecvSlot { name: ident.clone() },
        InputTypes::StringType => MarshalStep::CopyString { name: ident.clone() },
        InputTypes::OptionType => vstd::pervasive::unreached(),
    }
}

impl InputParam {
    /// Produces this parameter's marshalling fragment at the current
    /// register index and advances the index by the parameter's register
    /// cost.
    pub fn get_marshal_code(&self, msg_index: &mut usize) -> (step: MarshalStep)
        requires
            spec_param_wf(*self),
            *old(msg_index) + spec_param_cost(*self) <= usize::MAX,
        ensures
            *final(msg_index) == *old(msg_index) + spec_param_cost(*self),
            spec_step_matches(step, *self, *old(msg_index) as int),
    {
        if let InputTypes::OptionType = self.input_type {
            let inner_ty: &TypeDesc = match &self.ty {
                TypeDesc::Generic(_, inner) => &**inner,
                _ => vstd::pervasive::unreached(),
            };
            let inner_variant: InputTypes = match classify_base(inner_ty) {
                Some(v) => v,
                None => vstd::pervasive::unreached(),
            };
            let inner_step = base_marshal_step(inner_variant, &self.ident, *msg_index);
            if consumes_register(inner_variant) {
                *msg_index += 1;
            }
            MarshalStep::IfPresent { name: self.ident.clone(), inner: Box::new(inner_step) }
        } else {
            let step = base_marshal_step(self.input_type, &self.ident, *msg_index);
            if consumes_register(self.input_type) {
                *msg_index += 1;
            }
            step
        }
    }
}

} // verus!
