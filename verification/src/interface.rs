//! The generated interface: one method declaration per function of the
//! document, in document order, under one name.
//!
//! Parameters have no names in the document. In the declaration the
//! parameter at position `i`, counted from zero, is called `arg<i>`. Every
//! type identifier is looked up in the registry; an identifier without an
//! entry ends the emission. Within a function the result is looked up
//! first, then the parameters in order.

use crate::document::{optional_text, FunctionSignature, FunctionSignatureView};
use crate::error::{AbiError, AbiErrorView, TypePosition};
use crate::registry::TypeRegistry;
use crate::text::{decimal, push_decimal};
use vstd::prelude::*;
use vstd::string::StringExecFns;

verus! {

/// An argument of a method: its synthetic name and its type.
#[derive(Clone, Debug, PartialEq, Eq)]
pub struct Argument {
    pub name: String,
    pub type_ref: String,
}

pub struct ArgumentView {
    pub name: Seq<char>,
    pub type_ref: Seq<char>,
}

impl View for Argument {
    type V = ArgumentView;

    open spec fn view(&self) -> ArgumentView {
        ArgumentView { name: self.name@, type_ref: self.type_ref@ }
    }
}

/// The views of a sequence of arguments, in order.
pub open spec fn arguments_view(args: Seq<Argument>) -> Seq<ArgumentView> {
    Seq::new(args.len(), |i: int| args[i]@)
}

/// A method declaration: its name, its arguments besides the receiver, and
/// its return type, if it returns anything.
#[derive(Clone, Debug, PartialEq, Eq)]
pub struct MethodDecl {
    pub name: String,
    pub args: Vec<Argument>,
    pub result: Option<String>,
}

pub struct MethodDeclView {
    pub name: Seq<char>,
    pub args: Seq<ArgumentView>,
    pub result: Option<Seq<char>>,
}

impl View for MethodDecl {
    type V = MethodDeclView;

    open spec fn view(&self) -> MethodDeclView {
        MethodDeclView {
            name: self.name@,
            args: arguments_view(self.args@),
            result: optional_text(self.result),
        }
    }
}

/// The views of a sequence of method declarations, in order.
pub open spec fn methods_view(methods: Seq<MethodDecl>) -> Seq<MethodDeclView> {
    Seq::new(methods.len(), |i: int| methods[i]@)
}

/// The interface: a name and the methods in document order.
#[derive(Clone, Debug, PartialEq, Eq)]
pub struct GeneratedInterface {
    pub name: String,
    pub methods: Vec<MethodDecl>,
}

pub struct GeneratedInterfaceView {
    pub name: Seq<char>,
    pub methods: Seq<MethodDeclView>,
}

impl View for GeneratedInterface {
    type V = GeneratedInterfaceView;

    open spec fn view(&self) -> GeneratedInterfaceView {
        GeneratedInterfaceView { name: self.name@, methods: methods_view(self.methods@) }
    }
}

/// The name of the argument at `position`: `arg` followed by the position
/// in decimal.
pub open spec fn arg_name(position: nat) -> Seq<char> {
    seq!['a', 'r', 'g'] + decimal(position)
}

/// Whether `i` is the first position in `ids` whose identifier has no entry
/// in `registry`.
pub open spec fn is_first_missing(ids: Seq<u32>, registry: Map<u32, Seq<char>>, i: int) -> bool {
    &&& 0 <= i < ids.len()
    &&& !registry.contains_key(ids[i])
    &&& forall|j: int| 0 <= j < i ==> registry.contains_key(#[trigger] ids[j])
}

/// The first position in `ids` whose identifier has no entry in `registry`.
pub open spec fn first_missing(ids: Seq<u32>, registry: Map<u32, Seq<char>>) -> Option<int> {
    if exists|i: int| is_first_missing(ids, registry, i) {
        Some(choose|i: int| is_first_missing(ids, registry, i))
    } else {
        None
    }
}

/// Whether every type identifier of `function` has an entry in `registry`.
pub open spec fn resolves(function: FunctionSignatureView, registry: Map<u32, Seq<char>>) -> bool {
    &&& function.result matches Some(id) ==> registry.contains_key(id)
    &&& forall|i: int|
        0 <= i < function.params.len() ==> registry.contains_key(#[trigger] function.params[i])
}

/// The first type identifier of `function` that has no entry in `registry`,
/// with its position: the result's where that is missing, else the first
/// missing parameter's.
pub open spec fn unresolved_in(function: FunctionSignatureView, registry: Map<u32, Seq<char>>)
    -> Option<(TypePosition, u32)> {
    if function.result is Some && !registry.contains_key(function.result->0) {
        Some((TypePosition::Result, function.result->0))
    } else {
        match first_missing(function.params, registry) {
            Some(i) => Some((TypePosition::Parameter(i as usize), function.params[i])),
            None => None,
        }
    }
}

/// The arguments for `params`: the one at position `i` is called `arg<i>`
/// and has the type that `registry` holds for `params[i]`.
pub open spec fn arguments_of(params: Seq<u32>, registry: Map<u32, Seq<char>>) -> Seq<
    ArgumentView,
> {
    Seq::new(
        params.len(),
        |i: int| ArgumentView { name: arg_name(i as nat), type_ref: registry[params[i]] },
    )
}

/// The method declaration for `function`, or the error for its first type
/// identifier without an entry in `registry`.
pub open spec fn method_of(function: FunctionSignatureView, registry: Map<u32, Seq<char>>)
    -> Result<MethodDeclView, AbiErrorView> {
    match unresolved_in(function, registry) {
        Some((position, type_id)) => Err(
            AbiErrorView::UnresolvedType { function: function.name, position, type_id },
        ),
        None => Ok(
            MethodDeclView {
                name: function.name,
                args: arguments_of(function.params, registry),
                result: match function.result {
                    Some(id) => Some(registry[id]),
                    None => None,
                },
            },
        ),
    }
}

/// Whether `i` is the first function with a type identifier that has no
/// entry in `registry`.
pub open spec fn is_first_unresolved(
    functions: Seq<FunctionSignatureView>,
    registry: Map<u32, Seq<char>>,
    i: int,
) -> bool {
    &&& 0 <= i < functions.len()
    &&& method_of(functions[i], registry) is Err
    &&& forall|j: int| 0 <= j < i ==> method_of(#[trigger] functions[j], registry) is Ok
}

/// The position of the first function with a type identifier that has no
/// entry in `registry`.
pub open spec fn first_unresolved(
    functions: Seq<FunctionSignatureView>,
    registry: Map<u32, Seq<char>>,
) -> Option<int> {
    if exists|i: int| is_first_unresolved(functions, registry, i) {
        Some(choose|i: int| is_first_unresolved(functions, registry, i))
    } else {
        None
    }
}

/// The interface called `name` for `functions`: one method per function in
/// the same order, or the error of the first function that has one.
pub open spec fn interface_of(
    name: Seq<char>,
    functions: Seq<FunctionSignatureView>,
    registry: Map<u32, Seq<char>>,
) -> Result<GeneratedInterfaceView, AbiErrorView> {
    match first_unresolved(functions, registry) {
        Some(i) => Err(method_of(functions[i], registry)->Err_0),
        None => Ok(
            GeneratedInterfaceView {
                name,
                methods: Seq::new(
                    functions.len(),
                    |i: int| method_of(functions[i], registry)->Ok_0,
                ),
            },
        ),
    }
}

/// The name of the argument at `position`.
pub fn synthetic_arg_name(position: usize) -> (name: String)
    ensures
        name@ == arg_name(position as nat),
{
    proof {
        reveal_strlit("arg");
    }
    let mut name = String::from_str("arg");
    assert(name@ =~= seq!['a', 'r', 'g']);
    push_decimal(&mut name, position as u64);
    name
}

/// Emits the declaration of one function.
#[verifier::loop_isolation(false)]
pub fn emit_method(function: &FunctionSignature, registry: &TypeRegistry) -> (method: Result<
    MethodDecl,
    AbiError,
>)
    ensures
        match method {
            Ok(m) => method_of(function@, registry@) == Ok::<MethodDeclView, AbiErrorView>(m@),
            Err(e) => method_of(function@, registry@) == Err::<MethodDeclView, AbiErrorView>(e@),
        },
{
    let result = match function.result {
        Some(id) => match registry.get(id) {
            Some(type_ref) => Some(type_ref.clone()),
            None => {
                return Err(
                    AbiError::UnresolvedType {
                        function: function.name.clone(),
                        position: TypePosition::Result,
                        type_id: id,
                    },
                );
            },
        },
        None => None,
    };
    let ghost ids = function.params@;
    let mut args: Vec<Argument> = Vec::new();
    let mut i: usize = 0;
    while i < function.params.len()
        invariant
            i <= ids.len(),
            args@.len() == i,
            forall|j: int| 0 <= j < i ==> registry@.contains_key(#[trigger] ids[j]),
            forall|j: int|
                0 <= j < i ==> (#[trigger] args@[j])@ == (ArgumentView {
                    name: arg_name(j as nat),
                    type_ref: registry@[ids[j]],
                }),
        decreases ids.len() - i,
    {
        let id = function.params[i];
        match registry.get(id) {
            Some(type_ref) => {
                args.push(Argument { name: synthetic_arg_name(i), type_ref: type_ref.clone() });
            },
            None => {
                assert(is_first_missing(ids, registry@, i as int));
                return Err(
                    AbiError::UnresolvedType {
                        function: function.name.clone(),
                        position: TypePosition::Parameter(i),
                        type_id: id,
                    },
                );
            },
        }
        i += 1;
    }
    assert(first_missing(ids, registry@) is None);
    assert(arguments_view(args@) =~= arguments_of(ids, registry@));
    Ok(MethodDecl { name: function.name.clone(), args, result })
}

/// Emits the interface called `name`: one method per function, in the order
/// of `functions`. The first function with a type identifier that the
/// registry does not hold ends the emission with its error.
#[verifier::loop_isolation(false)]
pub fn emit_interface(name: String, functions: &Vec<FunctionSignature>, registry: &TypeRegistry)
    -> (interface: Result<GeneratedInterface, AbiError>)
    ensures
        match interface {
            Ok(i) => interface_of(name@, crate::document::functions_view(functions@), registry@)
                == Ok::<GeneratedInterfaceView, AbiErrorView>(i@),
            Err(e) => interface_of(name@, crate::document::functions_view(functions@), registry@)
                == Err::<GeneratedInterfaceView, AbiErrorView>(e@),
        },
{
    let ghost all = crate::document::functions_view(functions@);
    let mut methods: Vec<MethodDecl> = Vec::new();
    let mut i: usize = 0;
    while i < functions.len()
        invariant
            i <= functions.len(),
            methods@.len() == i,
            forall|j: int| 0 <= j < i ==> method_of(#[trigger] all[j], registry@) is Ok,
            forall|j: int|
                0 <= j < i ==> (#[trigger] methods@[j])@ == method_of(all[j], registry@)->Ok_0,
        decreases functions.len() - i,
    {
        assert(all[i as int] == functions@[i as int]@);
        match emit_method(&functions[i], registry) {
            Ok(method) => {
                methods.push(method);
            },
            Err(error) => {
                assert(is_first_unresolved(all, registry@, i as int));
                return Err(error);
            },
        }
        i += 1;
    }
    assert(first_unresolved(all, registry@) is None);
    let interface = GeneratedInterface { name, methods };
    assert(interface@.methods =~= interface_of(name@, all, registry@)->Ok_0.methods);
    Ok(interface)
}

} // verus!
