//! The generated source text.
//!
//! A method is written as `fn name(&self, arg0: T0, arg1: T1) -> R;`, the
//! return type only where there is one. The interface is a trait under the
//! `ext_contract` attribute, one method per line.

use crate::interface::{
    Argument, ArgumentView, GeneratedInterface, GeneratedInterfaceView, MethodDecl,
    MethodDeclView,
};
use vstd::prelude::*;
use vstd::string::StringExecFns;

verus! {

/// One argument as it follows the receiver or another argument.
pub open spec fn argument_text(arg: ArgumentView) -> Seq<char> {
    ", "@ + arg.name + ": "@ + arg.type_ref
}

/// The arguments of a method as they follow the receiver.
pub open spec fn arguments_text(args: Seq<ArgumentView>) -> Seq<char>
    decreases args.len(),
{
    if args.len() == 0 {
        Seq::empty()
    } else {
        arguments_text(args.drop_last()) + argument_text(args.last())
    }
}

/// The return type of a method as it follows the argument list.
pub open spec fn return_text(result: Option<Seq<char>>) -> Seq<char> {
    match result {
        Some(type_ref) => " -> "@ + type_ref,
        None => Seq::empty(),
    }
}

/// The declaration of a method.
pub open spec fn method_text(method: MethodDeclView) -> Seq<char> {
    "fn "@ + method.name + "(&self"@ + arguments_text(method.args) + ")"@ + return_text(
        method.result,
    ) + ";"@
}

/// The methods of an interface, each indented on a line of its own.
pub open spec fn methods_text(methods: Seq<MethodDeclView>) -> Seq<char>
    decreases methods.len(),
{
    if methods.len() == 0 {
        Seq::empty()
    } else {
        methods_text(methods.drop_last()) + "    "@ + method_text(methods.last()) + "\n"@
    }
}

/// The declaration of an interface.
pub open spec fn interface_text(interface: GeneratedInterfaceView) -> Seq<char> {
    "#[near_sdk::ext_contract]\npub trait "@ + interface.name + " {\n"@ + methods_text(
        interface.methods,
    ) + "}\n"@
}

/// Declarations, each followed by a line break.
pub open spec fn declarations_text(declarations: Seq<Seq<char>>) -> Seq<char>
    decreases declarations.len(),
{
    if declarations.len() == 0 {
        Seq::empty()
    } else {
        declarations_text(declarations.drop_last()) + declarations.last() + "\n"@
    }
}

fn push_arguments(out: &mut String, args: &Vec<Argument>)
    ensures
        final(out)@ == old(out)@ + arguments_text(crate::interface::arguments_view(args@)),
{
    let ghost all = crate::interface::arguments_view(args@);
    let mut i: usize = 0;
    assert(all.take(0).len() == 0);
    assert(old(out)@ + arguments_text(all.take(0)) =~= old(out)@);
    while i < args.len()
        invariant
            i <= args.len(),
            all == crate::interface::arguments_view(args@),
            out@ == old(out)@ + arguments_text(all.take(i as int)),
        decreases args.len() - i,
    {
        let ghost before = out@;
        out.append(", ");
        out.append(args[i].name.as_str());
        out.append(": ");
        out.append(args[i].type_ref.as_str());
        proof {
            let next = all.take(i + 1);
            assert(next.drop_last() =~= all.take(i as int));
            assert(next.last() == args@[i as int]@);
            assert(out@ =~= before + argument_text(args@[i as int]@));
            assert(out@ =~= old(out)@ + arguments_text(next));
        }
        i += 1;
    }
    assert(all.take(args.len() as int) =~= all);
}

/// Appends the declaration of `method` to `out`.
pub fn push_method(out: &mut String, method: &MethodDecl)
    ensures
        final(out)@ == old(out)@ + method_text(method@),
{
    out.append("fn ");
    out.append(method.name.as_str());
    out.append("(&self");
    push_arguments(out, &method.args);
    out.append(")");
    match &method.result {
        Some(type_ref) => {
            out.append(" -> ");
            out.append(type_ref.as_str());
        },
        None => {},
    }
    out.append(";");
    assert(out@ =~= old(out)@ + method_text(method@));
}

/// The declaration of `method` as source text.
pub fn render_method(method: &MethodDecl) -> (text: String)
    ensures
        text@ == method_text(method@),
{
    let mut text = String::new();
    push_method(&mut text, method);
    assert(text@ =~= method_text(method@));
    text
}

fn push_methods(out: &mut String, methods: &Vec<MethodDecl>)
    ensures
        final(out)@ == old(out)@ + methods_text(crate::interface::methods_view(methods@)),
{
    let ghost all = crate::interface::methods_view(methods@);
    let mut i: usize = 0;
    assert(all.take(0).len() == 0);
    assert(old(out)@ + methods_text(all.take(0)) =~= old(out)@);
    while i < methods.len()
        invariant
            i <= methods.len(),
            all == crate::interface::methods_view(methods@),
            out@ == old(out)@ + methods_text(all.take(i as int)),
        decreases methods.len() - i,
    {
        let ghost before = out@;
        out.append("    ");
        push_method(out, &methods[i]);
        out.append("\n");
        proof {
            let next = all.take(i + 1);
            assert(next.drop_last() =~= all.take(i as int));
            assert(next.last() == methods@[i as int]@);
            assert(out@ =~= before + "    "@ + method_text(methods@[i as int]@) + "\n"@);
            assert(out@ =~= old(out)@ + methods_text(next));
        }
        i += 1;
    }
    assert(all.take(methods.len() as int) =~= all);
}

/// Appends the declaration of `interface` to `out`.
pub fn push_interface(out: &mut String, interface: &GeneratedInterface)
    ensures
        final(out)@ == old(out)@ + interface_text(interface@),
{
    out.append("#[near_sdk::ext_contract]\npub trait ");
    out.append(interface.name.as_str());
    out.append(" {\n");
    push_methods(out, &interface.methods);
    out.append("}\n");
    assert(out@ =~= old(out)@ + interface_text(interface@));
}

/// The declaration of `interface` as source text.
pub fn render_interface(interface: &GeneratedInterface) -> (text: String)
    ensures
        text@ == interface_text(interface@),
{
    let mut text = String::new();
    push_interface(&mut text, interface);
    assert(text@ =~= interface_text(interface@));
    text
}

/// Appends `declarations` to `out`, each followed by a line break.
pub fn push_declarations(out: &mut String, declarations: &Vec<String>)
    ensures
        final(out)@ == old(out)@ + declarations_text(crate::registry::texts_view(declarations@)),
{
    let ghost all = crate::registry::texts_view(declarations@);
    let mut i: usize = 0;
    assert(all.take(0).len() == 0);
    assert(old(out)@ + declarations_text(all.take(0)) =~= old(out)@);
    while i < declarations.len()
        invariant
            i <= declarations.len(),
            all == crate::registry::texts_view(declarations@),
            out@ == old(out)@ + declarations_text(all.take(i as int)),
        decreases declarations.len() - i,
    {
        let ghost before = out@;
        out.append(declarations[i].as_str());
        out.append("\n");
        proof {
            let next = all.take(i + 1);
            assert(next.drop_last() =~= all.take(i as int));
            assert(next.last() == declarations@[i as int]@);
            assert(out@ =~= before + declarations@[i as int]@ + "\n"@);
            assert(out@ =~= old(out)@ + declarations_text(next));
        }
        i += 1;
    }
    assert(all.take(declarations.len() as int) =~= all);
}

} // verus!
