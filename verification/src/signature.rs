//! Classification of a whole declaration: its parameters in order, what it
//! returns, its lifetime and generic bounds, and the rule that keeps the ways
//! of reaching the shared state apart.
use crate::attributes::{attributes_of, parse_attributes, recognised, two_modifiers_are_too_many};
use crate::bounds::{listing_is_determined, BoundMap};
use crate::classify::{buffers_respect_their_modes, parse_type, type_class};
use crate::error::{
    outcome, ArgError, ArgErrorView, AttributeErrorView, RetError, RetErrorView, SignatureError,
    SignatureErrorView,
};
use crate::generics::{
    generics_class, lifetime_class, parse_generics, parse_lifetime, text_view, Bounds,
};
use crate::ir::{
    Arg, ArgView, AttributeModifier, Buffer, RefType, RetVal, RetValView, Special,
};
use crate::retval::{parse_return, return_class};
use crate::syntax::{Attribute, FnArg, Signature};
use vstd::prelude::*;
use vstd::string::*;

verus! {

/// A classified declaration.
#[derive(Clone, Debug, PartialEq, Eq)]
pub struct ParsedSignature {
    /// The classification of each parameter, in the order of declaration.
    pub args: Vec<Arg>,
    /// The name of each parameter, in the same order.
    pub names: Vec<String>,
    /// What the function returns.
    pub ret_val: RetVal,
    /// The one lifetime parameter, if there is one.
    pub lifetime: Option<String>,
    /// The bound of each type parameter.
    pub generic_bounds: BoundMap,
}

/// What a [`ParsedSignature`] is to the specifications.
pub struct ParsedSignatureView {
    pub args: Seq<ArgView>,
    pub names: Seq<Seq<char>>,
    pub ret_val: RetValView,
    pub lifetime: Option<Seq<char>>,
    pub generic_bounds: Bounds,
}

/// The views of the arguments, in order.
pub open spec fn arg_views(args: Seq<Arg>) -> Seq<ArgView> {
    Seq::new(args.len(), |i: int| args[i]@)
}

/// The views of the texts, in order.
pub open spec fn text_views(texts: Seq<String>) -> Seq<Seq<char>> {
    Seq::new(texts.len(), |i: int| texts[i]@)
}

impl View for ParsedSignature {
    type V = ParsedSignatureView;

    open spec fn view(&self) -> ParsedSignatureView {
        ParsedSignatureView {
            args: arg_views(self.args@),
            names: text_views(self.names@),
            ret_val: self.ret_val@,
            lifetime: text_view(self.lifetime),
            generic_bounds: self.generic_bounds@,
        }
    }
}

/// The classification of one parameter: `self` is refused; any other
/// parameter classifies by its type under the modifier of its decorators.
pub open spec fn arg_class(arg: FnArg) -> Result<ArgView, ArgErrorView> {
    match arg {
        FnArg::Receiver => Err(ArgErrorView::InvalidSelf),
        FnArg::Typed { attrs, ty, .. } => match attributes_of(attrs@) {
            Err(e) => Err(ArgErrorView::AttributeError(e)),
            Ok(a) => type_class(a, ty),
        },
    }
}

/// The name under which a parameter is listed.
pub open spec fn arg_name(arg: FnArg) -> Seq<char> {
    match arg {
        FnArg::Receiver => "self"@,
        FnArg::Typed { name: Some(name), .. } => name@,
        FnArg::Typed { name: None, .. } => "(complex)"@,
    }
}

/// The classifications of the parameters from `from` on, after those in
/// `done`; the error of the first parameter that does not classify, under
/// that parameter's name.
pub open spec fn args_from(inputs: Seq<FnArg>, from: int, done: Seq<ArgView>) -> Result<
    Seq<ArgView>,
    SignatureErrorView,
>
    decreases inputs.len() - from,
{
    if from < 0 || from >= inputs.len() {
        Ok(done)
    } else {
        match arg_class(inputs[from]) {
            Err(e) => Err(SignatureErrorView::ArgError(arg_name(inputs[from]), e)),
            Ok(a) => args_from(inputs, from + 1, done.push(a)),
        }
    }
}

/// The classifications of all parameters, in order.
pub open spec fn args_class(inputs: Seq<FnArg>) -> Result<Seq<ArgView>, SignatureErrorView> {
    args_from(inputs, 0, Seq::empty())
}

/// The names of all parameters, in order.
pub open spec fn names_of(inputs: Seq<FnArg>) -> Seq<Seq<char>> {
    Seq::new(inputs.len(), |i: int| arg_name(inputs[i]))
}

impl ArgView {
    /// Whether the argument is the whole shared state, behind a reference or
    /// in a shared cell.
    pub open spec fn is_op_state(self) -> bool {
        self == ArgView::RcRefCell(Special::OpState) || (self is Ref && self->Ref_1
            == Special::OpState)
    }

    /// Whether the argument is a value of the shared state that may be
    /// written.
    pub open spec fn is_mut_state(self) -> bool {
        (self is State && self->State_0 == RefType::Mut) || (self is OptionState
            && self->OptionState_0 == RefType::Mut)
    }

    /// Whether the argument is a value of the shared state that is only
    /// read.
    pub open spec fn is_ref_state(self) -> bool {
        (self is State && self->State_0 == RefType::Ref) || (self is OptionState
            && self->OptionState_0 == RefType::Ref)
    }
}

/// Whether some argument is the whole shared state.
pub open spec fn takes_op_state(args: Seq<ArgView>) -> bool {
    exists|i: int| 0 <= i < args.len() && (#[trigger] args[i]).is_op_state()
}

/// Whether some argument is a writable value of the shared state.
pub open spec fn takes_mut_state(args: Seq<ArgView>) -> bool {
    exists|i: int| 0 <= i < args.len() && (#[trigger] args[i]).is_mut_state()
}

/// Whether two arguments are writable values of the shared state.
pub open spec fn takes_mut_state_twice(args: Seq<ArgView>) -> bool {
    exists|i: int, j: int|
        0 <= i < j < args.len() && (#[trigger] args[i]).is_mut_state() && (
        #[trigger] args[j]).is_mut_state()
}

/// Whether some argument is a read-only value of the shared state.
pub open spec fn takes_ref_state(args: Seq<ArgView>) -> bool {
    exists|i: int| 0 <= i < args.len() && (#[trigger] args[i]).is_ref_state()
}

/// Whether the arguments reach the shared state in ways that exclude each
/// other: a declaration may take the whole state, or one writable value of
/// it, or any number of read-only values, and no two of these together.
pub open spec fn state_conflict(args: Seq<ArgView>) -> bool {
    ||| takes_mut_state_twice(args)
    ||| takes_op_state(args) && takes_mut_state(args)
    ||| takes_op_state(args) && takes_ref_state(args)
    ||| takes_mut_state(args) && takes_ref_state(args)
}

/// The classification of a declaration with the given decorators.
///
/// The parameters come first, then the return value, the lifetime and the
/// generic bounds; the first of them that fails gives the error. A
/// declaration that passes all of them must still keep the ways of reaching
/// the shared state apart.
pub open spec fn signature_class(attributes: Seq<Attribute>, signature: Signature) -> Result<
    ParsedSignatureView,
    SignatureErrorView,
> {
    match args_class(signature.inputs@) {
        Err(e) => Err(e),
        Ok(args) => match attributes_of(attributes) {
            Err(e) => Err(SignatureErrorView::RetError(RetErrorView::AttributeError(e))),
            Ok(attrs) => match return_class(signature.is_async, attrs, signature.output) {
                Err(e) => Err(SignatureErrorView::RetError(e)),
                Ok(ret_val) => match lifetime_class(signature.generics) {
                    Err(e) => Err(e),
                    Ok(lifetime) => match generics_class(signature.generics) {
                        Err(e) => Err(e),
                        Ok(generic_bounds) => if state_conflict(args) {
                            Err(SignatureErrorView::InvalidOpStateCombination)
                        } else {
                            Ok(
                                ParsedSignatureView {
                                    args,
                                    names: names_of(signature.inputs@),
                                    ret_val,
                                    lifetime,
                                    generic_bounds,
                                },
                            )
                        },
                    },
                },
            },
        },
    }
}

/// Whether `r` is the classification of the declaration.
pub open spec fn classifies(
    attributes: Seq<Attribute>,
    signature: Signature,
    r: Result<ParsedSignature, SignatureError>,
) -> bool {
    &&& outcome(r) == signature_class(attributes, signature)
    &&& r matches Ok(parsed) ==> parsed.generic_bounds.wf()
}

/// Classifies one parameter.
pub fn parse_arg(arg: &FnArg) -> (r: Result<Arg, ArgError>)
    ensures
        outcome(r) == arg_class(*arg),
{
    match arg {
        FnArg::Receiver => Err(ArgError::InvalidSelf),
        FnArg::Typed { attrs, ty, .. } => match parse_attributes(attrs) {
            Err(e) => Err(ArgError::AttributeError(e)),
            Ok(a) => parse_type(a, ty),
        },
    }
}

fn name_of(arg: &FnArg) -> (name: String)
    ensures
        name@ == arg_name(*arg),
{
    match arg {
        FnArg::Receiver => String::from_str("self"),
        FnArg::Typed { name: Some(name), .. } => name.clone(),
        FnArg::Typed { name: None, .. } => String::from_str("(complex)"),
    }
}

fn reaches_op_state(arg: &Arg) -> (so: bool)
    ensures
        so == arg@.is_op_state(),
{
    matches!(arg, Arg::RcRefCell(Special::OpState) | Arg::Ref(_, Special::OpState))
}

fn reaches_mut_state(arg: &Arg) -> (so: bool)
    ensures
        so == arg@.is_mut_state(),
{
    matches!(arg, Arg::State(RefType::Mut, _) | Arg::OptionState(RefType::Mut, _))
}

fn reaches_ref_state(arg: &Arg) -> (so: bool)
    ensures
        so == arg@.is_ref_state(),
{
    matches!(arg, Arg::State(RefType::Ref, _) | Arg::OptionState(RefType::Ref, _))
}

/// Whether the arguments keep the ways of reaching the shared state apart.
pub fn check_state_combination(args: &Vec<Arg>) -> (apart: bool)
    ensures
        apart == !state_conflict(arg_views(args@)),
{
    let ghost views = arg_views(args@);
    let mut has_opstate = false;
    let mut has_mut_state = false;
    let mut has_ref_state = false;
    let mut i: usize = 0;
    while i < args.len()
        invariant
            i <= args.len(),
            views == arg_views(args@),
            has_opstate == takes_op_state(views.take(i as int)),
            has_mut_state == takes_mut_state(views.take(i as int)),
            has_ref_state == takes_ref_state(views.take(i as int)),
            !takes_mut_state_twice(views.take(i as int)),
        decreases args.len() - i,
    {
        let ghost seen = views.take(i as int);
        let ghost next = views.take(i + 1);
        let ghost arg = views[i as int];
        proof {
            assert(next[i as int] == arg);
            assert(forall|j: int| 0 <= j < i ==> seen[j] == next[j]);
            assert(takes_op_state(next) == (takes_op_state(seen) || arg.is_op_state())) by {
                if takes_op_state(seen) {
                    let j = choose|j: int| 0 <= j < seen.len() && (#[trigger] seen[j]).is_op_state();
                    assert(next[j].is_op_state());
                }
            }
            assert(takes_mut_state(next) == (takes_mut_state(seen) || arg.is_mut_state())) by {
                if takes_mut_state(seen) {
                    let j = choose|j: int|
                        0 <= j < seen.len() && (#[trigger] seen[j]).is_mut_state();
                    assert(next[j].is_mut_state());
                }
            }
            assert(takes_ref_state(next) == (takes_ref_state(seen) || arg.is_ref_state())) by {
                if takes_ref_state(seen) {
                    let j = choose|j: int|
                        0 <= j < seen.len() && (#[trigger] seen[j]).is_ref_state();
                    assert(next[j].is_ref_state());
                }
            }
            assert(takes_mut_state_twice(next) == (takes_mut_state(seen) && arg.is_mut_state()))
                by {
                if takes_mut_state(seen) && arg.is_mut_state() {
                    let j = choose|j: int|
                        0 <= j < seen.len() && (#[trigger] seen[j]).is_mut_state();
                    assert(next[j].is_mut_state() && next[i as int].is_mut_state());
                }
                if takes_mut_state_twice(next) {
                    let (a, b) = choose|a: int, b: int|
                        0 <= a < b < next.len() && (#[trigger] next[a]).is_mut_state() && (
                        #[trigger] next[b]).is_mut_state();
                    assert(seen[a].is_mut_state());
                    if b < i {
                        assert(seen[b].is_mut_state());
                    }
                }
            }
        }
        if reaches_op_state(&args[i]) {
            has_opstate = true;
        } else if reaches_ref_state(&args[i]) {
            has_ref_state = true;
        } else if reaches_mut_state(&args[i]) {
            if has_mut_state {
                proof {
                    lemma_twice_stays(views, i + 1);
                }
                return false;
            }
            has_mut_state = true;
        }
        i += 1;
    }
    assert(views.take(args.len() as int) =~= views);
    // At most one of the three may hold.
    !(has_opstate && has_mut_state || has_opstate && has_ref_state || has_mut_state
        && has_ref_state)
}

/// Two writable values among the first `n` arguments are two among all.
proof fn lemma_twice_stays(args: Seq<ArgView>, n: int)
    requires
        0 <= n <= args.len(),
        takes_mut_state_twice(args.take(n)),
    ensures
        takes_mut_state_twice(args),
{
    let first = args.take(n);
    let (a, b) = choose|a: int, b: int|
        0 <= a < b < first.len() && (#[trigger] first[a]).is_mut_state() && (
        #[trigger] first[b]).is_mut_state();
    assert(args[a].is_mut_state() && args[b].is_mut_state());
}

/// Classifies a declaration: its parameters, what it returns, its lifetime
/// and its generic bounds.
pub fn parse_signature(attributes: Vec<Attribute>, signature: Signature) -> (r: Result<
    ParsedSignature,
    SignatureError,
>)
    ensures
        classifies(attributes@, signature, r),
{
    let inputs = &signature.inputs;
    let mut args: Vec<Arg> = Vec::new();
    let mut names: Vec<String> = Vec::new();
    let mut i: usize = 0;
    assert(arg_views(args@) =~= Seq::<ArgView>::empty());
    while i < inputs.len()
        invariant
            i <= inputs.len(),
            inputs == &signature.inputs,
            args_from(inputs@, i as int, arg_views(args@)) == args_class(inputs@),
            names@.len() == i,
            forall|j: int| 0 <= j < i ==> (#[trigger] names@[j])@ == arg_name(inputs@[j]),
        decreases inputs.len() - i,
    {
        let name = name_of(&inputs[i]);
        let ghost before = arg_views(args@);
        match parse_arg(&inputs[i]) {
            Err(e) => {
                return Err(SignatureError::ArgError(name, e));
            },
            Ok(arg) => {
                names.push(name);
                args.push(arg);
                assert(arg_views(args@) =~= before.push(arg@));
            },
        }
        i += 1;
    }
    assert(text_views(names@) =~= names_of(inputs@));
    let attrs = match parse_attributes(&attributes) {
        Ok(attrs) => attrs,
        Err(e) => {
            return Err(SignatureError::RetError(RetError::AttributeError(e)));
        },
    };
    let ret_val = match parse_return(signature.is_async, attrs, &signature.output) {
        Ok(ret_val) => ret_val,
        Err(e) => {
            return Err(SignatureError::RetError(e));
        },
    };
    let lifetime = match parse_lifetime(&signature.generics) {
        Ok(lifetime) => lifetime,
        Err(e) => {
            return Err(e);
        },
    };
    let generic_bounds = match parse_generics(&signature.generics) {
        Ok(generic_bounds) => generic_bounds,
        Err(e) => {
            return Err(e);
        },
    };
    if !check_state_combination(&args) {
        return Err(SignatureError::InvalidOpStateCombination);
    }
    Ok(ParsedSignature { args, names, ret_val, lifetime, generic_bounds })
}

/// The way in which an argument reaches the shared state.
pub enum StateAccess {
    /// The whole state, behind a reference or in a shared cell.
    Whole,
    /// One value of the state, which may be written.
    Writable,
    /// One value of the state, which is only read.
    ReadOnly,
}

impl ArgView {
    /// The way in which the argument reaches the shared state, if it does.
    pub open spec fn state_access(self) -> Option<StateAccess> {
        if self.is_op_state() {
            Some(StateAccess::Whole)
        } else if self.is_mut_state() {
            Some(StateAccess::Writable)
        } else if self.is_ref_state() {
            Some(StateAccess::ReadOnly)
        } else {
            None
        }
    }
}

/// Whether every step of classification before the rule on the shared state
/// succeeds.
pub open spec fn classifies_up_to_state(attributes: Seq<Attribute>, signature: Signature) -> bool {
    &&& args_class(signature.inputs@) is Ok
    &&& attributes_of(attributes) matches Ok(attrs) && return_class(
        signature.is_async,
        attrs,
        signature.output,
    ) is Ok
    &&& lifetime_class(signature.generics) is Ok
    &&& generics_class(signature.generics) is Ok
}

proof fn lemma_args_from(inputs: Seq<FnArg>, from: int, done: Seq<ArgView>, args: Seq<ArgView>)
    requires
        0 <= from <= inputs.len(),
        args_from(inputs, from, done) == Ok::<_, SignatureErrorView>(args),
    ensures
        args.len() == done.len() + inputs.len() - from,
        forall|k: int| 0 <= k < done.len() ==> args[k] == done[k],
        forall|k: int|
            from <= k < inputs.len() ==> arg_class(#[trigger] inputs[k]) == Ok::<
                _,
                ArgErrorView,
            >(args[done.len() + k - from]),
    decreases inputs.len() - from,
{
    if from < inputs.len() {
        let a = arg_class(inputs[from])->Ok_0;
        lemma_args_from(inputs, from + 1, done.push(a), args);
        assert(args[done.len() as int] == done.push(a)[done.len() as int]);
        assert forall|k: int| 0 <= k < done.len() implies args[k] == done[k] by {
            assert(done.push(a)[k] == done[k]);
        }
    }
}

/// The arguments of a classified declaration are the classifications of its
/// parameters, one for each and in the order of declaration, and the names
/// are the names of the same parameters in the same order.
pub proof fn arguments_follow_the_parameters(
    attributes: Seq<Attribute>,
    signature: Signature,
    parsed: ParsedSignatureView,
)
    requires
        signature_class(attributes, signature) == Ok::<_, SignatureErrorView>(parsed),
    ensures
        parsed.args.len() == signature.inputs@.len(),
        parsed.names.len() == signature.inputs@.len(),
        forall|i: int|
            0 <= i < signature.inputs@.len() ==> arg_class(#[trigger] signature.inputs@[i])
                == Ok::<_, ArgErrorView>(parsed.args[i]) && parsed.names[i] == arg_name(
                signature.inputs@[i],
            ),
{
    lemma_args_from(signature.inputs@, 0, Seq::empty(), parsed.args);
}

/// Classifying a declaration twice gives the same description twice: the
/// outcome is a function of the declaration.
pub proof fn classification_is_a_function(
    attributes: Seq<Attribute>,
    signature: Signature,
    first: Result<ParsedSignature, SignatureError>,
    second: Result<ParsedSignature, SignatureError>,
)
    requires
        classifies(attributes, signature, first),
        classifies(attributes, signature, second),
    ensures
        outcome(first) == outcome(second),
        first is Ok <==> second is Ok,
{
}

/// Two arguments that reach the shared state in different ways are in
/// conflict, whichever two ways they are.
pub proof fn different_accesses_conflict(args: Seq<ArgView>, i: int, j: int)
    requires
        0 <= i < args.len(),
        0 <= j < args.len(),
        args[i].state_access() is Some,
        args[j].state_access() is Some,
        args[i].state_access() != args[j].state_access(),
    ensures
        state_conflict(args),
{
}

/// Two arguments that are writable values of the shared state are in
/// conflict.
pub proof fn two_writable_values_conflict(args: Seq<ArgView>, i: int, j: int)
    requires
        0 <= i < j < args.len(),
        args[i].is_mut_state(),
        args[j].is_mut_state(),
    ensures
        state_conflict(args),
{
}

/// A declaration with two parameters that reach the shared state in
/// different ways is rejected, and where nothing else is wrong with it, it
/// is rejected for that.
pub proof fn state_accesses_exclude_each_other(
    attributes: Seq<Attribute>,
    signature: Signature,
    i: int,
    j: int,
)
    requires
        0 <= i < signature.inputs@.len(),
        0 <= j < signature.inputs@.len(),
        arg_class(signature.inputs@[i]) matches Ok(a) && a.state_access() is Some,
        arg_class(signature.inputs@[j]) matches Ok(b) && b.state_access() is Some,
        arg_class(signature.inputs@[i])->Ok_0.state_access() != arg_class(
            signature.inputs@[j],
        )->Ok_0.state_access(),
    ensures
        signature_class(attributes, signature) is Err,
        classifies_up_to_state(attributes, signature) ==> signature_class(attributes, signature)
            == Err::<ParsedSignatureView, _>(SignatureErrorView::InvalidOpStateCombination),
{
    if args_class(signature.inputs@) is Ok {
        let args = args_class(signature.inputs@)->Ok_0;
        lemma_args_from(signature.inputs@, 0, Seq::empty(), args);
        different_accesses_conflict(args, i, j);
    }
}

/// The arguments of a classified declaration reach the shared state in one
/// way at most, and hold one writable value of it at most.
pub proof fn classified_declarations_keep_state_apart(
    attributes: Seq<Attribute>,
    signature: Signature,
    parsed: ParsedSignatureView,
)
    requires
        signature_class(attributes, signature) == Ok::<_, SignatureErrorView>(parsed),
    ensures
        !state_conflict(parsed.args),
        forall|i: int, j: int|
            0 <= i < parsed.args.len() && 0 <= j < parsed.args.len() && (
            #[trigger] parsed.args[i]).state_access() is Some && (
            #[trigger] parsed.args[j]).state_access() is Some ==> parsed.args[i].state_access()
                == parsed.args[j].state_access(),
        forall|i: int, j: int|
            0 <= i < j < parsed.args.len() ==> !((#[trigger] parsed.args[i]).is_mut_state() && (
            #[trigger] parsed.args[j]).is_mut_state()),
{
    assert forall|i: int, j: int|
        0 <= i < parsed.args.len() && 0 <= j < parsed.args.len() && (
        #[trigger] parsed.args[i]).state_access() is Some && (
        #[trigger] parsed.args[j]).state_access() is Some implies parsed.args[i].state_access()
        == parsed.args[j].state_access() by {
        if parsed.args[i].state_access() != parsed.args[j].state_access() {
            different_accesses_conflict(parsed.args, i, j);
        }
    }
}

/// A parameter whose decorators are all known and of which two ask for a
/// modifier is rejected for having too many.
pub proof fn parameter_with_two_modifiers_is_rejected(arg: FnArg, i: int, j: int)
    requires
        arg matches FnArg::Typed { attrs, .. } && {
            &&& 0 <= i < j < attrs@.len()
            &&& forall|k: int| 0 <= k < attrs@.len() ==> recognised(#[trigger] attrs@[k]) is Some
            &&& recognised(attrs@[i]) matches Some(Some(_))
            &&& recognised(attrs@[j]) matches Some(Some(_))
        },
    ensures
        arg_class(arg) == Err::<ArgView, _>(
            ArgErrorView::AttributeError(AttributeErrorView::TooManyAttributes),
        ),
{
    two_modifiers_are_too_many(arg->Typed_attrs@, i, j);
}

/// A parameter classifies as a buffer only where its decorators ask for the
/// buffer modifier in a mode that the buffer's representation admits.
pub proof fn buffer_parameters_respect_their_modes(arg: FnArg, buffer: Buffer)
    requires
        arg_class(arg) == Ok::<_, ArgErrorView>(ArgView::Buffer(buffer)),
    ensures
        arg matches FnArg::Typed { attrs, .. } && attributes_of(attrs@) matches Ok(site)
            && site.primary matches Some(AttributeModifier::Buffer(mode)) && buffer.admits(mode),
{
    let site = attributes_of(arg->Typed_attrs@)->Ok_0;
    buffers_respect_their_modes(site, arg->Typed_ty, buffer);
}

proof fn lemma_first_failure(inputs: Seq<FnArg>, from: int, done: Seq<ArgView>, at: int)
    requires
        0 <= from <= at < inputs.len(),
        arg_class(inputs[at]) is Err,
    ensures
        args_from(inputs, from, done) is Err,
        (forall|k: int| from <= k < at ==> arg_class(#[trigger] inputs[k]) is Ok) ==> args_from(
            inputs,
            from,
            done,
        ) == Err::<Seq<ArgView>, _>(
            SignatureErrorView::ArgError(arg_name(inputs[at]), arg_class(inputs[at])->Err_0),
        ),
    decreases at - from,
{
    if from < at && arg_class(inputs[from]) is Ok {
        lemma_first_failure(inputs, from + 1, done.push(arg_class(inputs[from])->Ok_0), at);
    }
}

/// A declaration with a parameter that does not classify is rejected; where
/// the parameters before it classify, it is rejected with the error of that
/// parameter under the parameter's name.
pub proof fn first_failing_parameter_decides(
    attributes: Seq<Attribute>,
    signature: Signature,
    at: int,
)
    requires
        0 <= at < signature.inputs@.len(),
        arg_class(signature.inputs@[at]) is Err,
    ensures
        signature_class(attributes, signature) is Err,
        (forall|k: int| 0 <= k < at ==> arg_class(#[trigger] signature.inputs@[k]) is Ok)
            ==> signature_class(attributes, signature) == Err::<ParsedSignatureView, _>(
            SignatureErrorView::ArgError(
                arg_name(signature.inputs@[at]),
                arg_class(signature.inputs@[at])->Err_0,
            ),
        ),
{
    lemma_first_failure(signature.inputs@, 0, Seq::empty(), at);
}

/// A declaration with a parameter whose decorators are all known and of
/// which two ask for a modifier is rejected; where the parameters before it
/// classify, it is rejected for the too many modifiers of that parameter.
pub proof fn declaration_with_two_modifiers_is_rejected(
    attributes: Seq<Attribute>,
    signature: Signature,
    at: int,
    i: int,
    j: int,
)
    requires
        0 <= at < signature.inputs@.len(),
        signature.inputs@[at] matches FnArg::Typed { attrs, .. } && {
            &&& 0 <= i < j < attrs@.len()
            &&& forall|k: int| 0 <= k < attrs@.len() ==> recognised(#[trigger] attrs@[k]) is Some
            &&& recognised(attrs@[i]) matches Some(Some(_))
            &&& recognised(attrs@[j]) matches Some(Some(_))
        },
    ensures
        signature_class(attributes, signature) is Err,
        (forall|k: int| 0 <= k < at ==> arg_class(#[trigger] signature.inputs@[k]) is Ok)
            ==> signature_class(attributes, signature) == Err::<ParsedSignatureView, _>(
            SignatureErrorView::ArgError(
                arg_name(signature.inputs@[at]),
                ArgErrorView::AttributeError(AttributeErrorView::TooManyAttributes),
            ),
        ),
{
    parameter_with_two_modifiers_is_rejected(signature.inputs@[at], i, j);
    first_failing_parameter_decides(attributes, signature, at);
}

/// Every buffer among the arguments of a classified declaration belongs to a
/// parameter whose decorators ask for the buffer modifier, in a mode that the
/// buffer's representation admits.
pub proof fn buffer_arguments_respect_their_modes(
    attributes: Seq<Attribute>,
    signature: Signature,
    parsed: ParsedSignatureView,
    at: int,
    buffer: Buffer,
)
    requires
        signature_class(attributes, signature) == Ok::<_, SignatureErrorView>(parsed),
        0 <= at < parsed.args.len(),
        parsed.args[at] == ArgView::Buffer(buffer),
    ensures
        signature.inputs@[at] matches FnArg::Typed { attrs, .. } && attributes_of(attrs@) matches Ok(
            site,
        ) && site.primary matches Some(AttributeModifier::Buffer(mode)) && buffer.admits(mode),
{
    arguments_follow_the_parameters(attributes, signature, parsed);
    buffer_parameters_respect_their_modes(signature.inputs@[at], buffer);
}

/// Two classifications of one declaration are the same description, down to
/// the order in which the generic bounds are listed.
pub proof fn classified_declarations_agree(
    attributes: Seq<Attribute>,
    signature: Signature,
    first: ParsedSignature,
    second: ParsedSignature,
)
    requires
        classifies(attributes, signature, Ok(first)),
        classifies(attributes, signature, Ok(second)),
    ensures
        first@ == second@,
        first.generic_bounds.listing() == second.generic_bounds.listing(),
{
    listing_is_determined(first.generic_bounds, second.generic_bounds);
}

} // verus!
