//! A command handler's definition: its parts as source text, and the rewrite
//! that puts every reference parameter under one lifetime.

use crate::syntax::{
    attrs_of, block_of, input_at, input_count, item_attrs, item_block, item_inputs, item_name,
    item_output, item_vis, name_of, output_of, vis_of,
};
use crate::text::{clone_strings, joined, option_view, push_joined, string_views};
use vstd::prelude::*;
use vstd::string::StringExecFns;

verus! {

/// The lifetime that every reference parameter of a generated function
/// carries, so that one future can borrow them all.
pub open spec fn future_lifetime() -> Seq<char> {
    "'fut"@
}

/// The type of a parameter.
#[derive(Debug, Clone, PartialEq, Eq)]
pub enum ParamType {
    /// A reference at the top of the type: `&'a mut T`.
    Reference { lifetime: Option<String>, mutable: bool, elem: String },
    /// Any other type, as its tokens.
    Other { tokens: String },
}

/// What a [`ParamType`] stands for in contracts.
pub enum ParamTypeView {
    Reference { lifetime: Option<Seq<char>>, mutable: bool, elem: Seq<char> },
    Other { tokens: Seq<char> },
}

impl View for ParamType {
    type V = ParamTypeView;

    open spec fn view(&self) -> ParamTypeView {
        match *self {
            ParamType::Reference { lifetime, mutable, elem } => ParamTypeView::Reference {
                lifetime: option_view(lifetime),
                mutable,
                elem: elem@,
            },
            ParamType::Other { tokens } => ParamTypeView::Other { tokens: tokens@ },
        }
    }
}

impl ParamTypeView {
    /// The same type with a reference's lifetime replaced by the future's;
    /// a type that is no reference stays as it is.
    pub open spec fn normalized(self) -> ParamTypeView {
        match self {
            ParamTypeView::Reference { lifetime, mutable, elem } => ParamTypeView::Reference {
                lifetime: Some(future_lifetime()),
                mutable,
                elem,
            },
            ParamTypeView::Other { tokens } => self,
        }
    }

    /// The type as source text.
    pub open spec fn source(self) -> Seq<char> {
        match self {
            ParamTypeView::Reference { lifetime, mutable, elem } => "& "@ + (match lifetime {
                Some(name) => name + " "@,
                None => Seq::empty(),
            }) + (if mutable {
                "mut "@
            } else {
                Seq::empty()
            }) + elem,
            ParamTypeView::Other { tokens } => tokens,
        }
    }
}

impl ParamType {
    /// The type with a reference's lifetime set to the future's.
    pub fn normalized(&self) -> (out: ParamType)
        ensures
            out@ == self@.normalized(),
    {
        match self {
            ParamType::Reference { lifetime: _, mutable, elem } => ParamType::Reference {
                lifetime: Some(String::from_str("'fut")),
                mutable: *mutable,
                elem: elem.clone(),
            },
            ParamType::Other { tokens } => ParamType::Other { tokens: tokens.clone() },
        }
    }

    /// The type's source text.
    pub fn to_source(&self) -> (out: String)
        ensures
            out@ == self@.source(),
    {
        match self {
            ParamType::Reference { lifetime, mutable, elem } => {
                let mut out = String::from_str("& ");
                match lifetime {
                    Some(name) => {
                        let mut named = name.clone();
                        named.append(" ");
                        out.append(named.as_str());
                    },
                    None => {
                        assert(out@ + Seq::<char>::empty() =~= out@);
                    },
                }
                if *mutable {
                    out.append("mut ");
                } else {
                    assert(out@ + Seq::<char>::empty() =~= out@);
                }
                out.append(elem.as_str());
                out
            },
            ParamType::Other { tokens } => tokens.clone(),
        }
    }
}

/// One parameter of a function.
#[derive(Debug, Clone, PartialEq, Eq)]
pub enum FnInput {
    /// A pattern with its type: `ctx: &CommandContext`.
    Typed { attrs: Vec<String>, pat: String, ty: ParamType },
    /// A `self` receiver without a type, as its tokens.
    Receiver { tokens: String },
}

/// What a [`FnInput`] stands for in contracts.
pub enum FnInputView {
    Typed { attrs: Seq<Seq<char>>, pat: Seq<char>, ty: ParamTypeView },
    Receiver { tokens: Seq<char> },
}

impl View for FnInput {
    type V = FnInputView;

    open spec fn view(&self) -> FnInputView {
        match *self {
            FnInput::Typed { attrs, pat, ty } => FnInputView::Typed {
                attrs: string_views(attrs@),
                pat: pat@,
                ty: ty@,
            },
            FnInput::Receiver { tokens } => FnInputView::Receiver { tokens: tokens@ },
        }
    }
}

impl FnInputView {
    /// The same parameter with its type normalized; a receiver stays as it is.
    pub open spec fn normalized(self) -> FnInputView {
        match self {
            FnInputView::Typed { attrs, pat, ty } => FnInputView::Typed {
                attrs,
                pat,
                ty: ty.normalized(),
            },
            FnInputView::Receiver { tokens } => self,
        }
    }

    /// The parameter as source text.
    pub open spec fn source(self) -> Seq<char> {
        match self {
            FnInputView::Typed { attrs, pat, ty } => joined(attrs, " "@) + " "@ + pat + " : "@
                + ty.source(),
            FnInputView::Receiver { tokens } => tokens,
        }
    }
}

impl FnInput {
    /// The parameter with its type normalized.
    pub fn normalized(&self) -> (out: FnInput)
        ensures
            out@ == self@.normalized(),
    {
        match self {
            FnInput::Typed { attrs, pat, ty } => FnInput::Typed {
                attrs: clone_strings(attrs),
                pat: pat.clone(),
                ty: ty.normalized(),
            },
            FnInput::Receiver { tokens } => FnInput::Receiver { tokens: tokens.clone() },
        }
    }

    /// The parameter's source text.
    pub fn to_source(&self) -> (out: String)
        ensures
            out@ == self@.source(),
    {
        let mut out = String::new();
        match self {
            FnInput::Typed { attrs, pat, ty } => {
                push_joined(&mut out, attrs, " ");
                out.append(" ");
                out.append(pat.as_str());
                out.append(" : ");
                out.append(ty.to_source().as_str());
                assert(out@ =~= self@.source());
            },
            FnInput::Receiver { tokens } => {
                out.append(tokens.as_str());
                assert(out@ =~= self@.source());
            },
        }
        out
    }
}

/// The views of a run of parameters, in order.
pub open spec fn input_views(inputs: Seq<FnInput>) -> Seq<FnInputView> {
    inputs.map_values(|input: FnInput| input@)
}

/// Every parameter of `inputs` normalized, in the same order.
pub open spec fn normalized_inputs(inputs: Seq<FnInputView>) -> Seq<FnInputView> {
    inputs.map_values(|input: FnInputView| input.normalized())
}

/// Normalizes every parameter of a list.
pub fn normalize_inputs(inputs: &Vec<FnInput>) -> (out: Vec<FnInput>)
    ensures
        input_views(out@) == normalized_inputs(input_views(inputs@)),
        out@.len() == inputs@.len(),
        forall|i: int|
            0 <= i < inputs@.len() ==> match (#[trigger] inputs@[i]@) {
                FnInputView::Typed { attrs, pat, ty } => match ty {
                    ParamTypeView::Reference { lifetime, mutable, elem } => out@[i]@
                        == (FnInputView::Typed {
                        attrs,
                        pat,
                        ty: ParamTypeView::Reference {
                            lifetime: Some(future_lifetime()),
                            mutable,
                            elem,
                        },
                    }),
                    ParamTypeView::Other { tokens } => out@[i]@ == inputs@[i]@,
                },
                FnInputView::Receiver { tokens } => out@[i]@ == inputs@[i]@,
            },
{
    let mut out: Vec<FnInput> = Vec::new();
    let mut i: usize = 0;
    while i < inputs.len()
        invariant
            i <= inputs.len(),
            out@.len() == i,
            forall|j: int| 0 <= j < i ==> out@[j]@ == inputs@[j]@.normalized(),
        decreases inputs.len() - i,
    {
        out.push(inputs[i].normalized());
        i += 1;
    }
    proof {
        assert(input_views(out@) =~= normalized_inputs(input_views(inputs@)));
    }
    out
}

/// A function definition taken apart: the handler that a command attribute
/// was written on.
#[derive(Debug, Clone, PartialEq, Eq)]
pub struct SubCommandFunc {
    /// The function's attributes, one text each, as the parser hands them
    /// out. `syn` counts the inner attributes of the body among them, behind
    /// those above the function; all of them are written in front of `fn`
    /// in the generated definition, and `block` does not repeat them.
    pub attrs: Vec<String>,
    /// The visibility; empty where none is written.
    pub vis: String,
    /// The function's name.
    pub name: String,
    /// The parameters, in order.
    pub inputs: Vec<FnInput>,
    /// The return type, where one is written.
    pub output: Option<String>,
    /// The body, braces included, without its inner attributes.
    pub block: String,
}

/// What a [`SubCommandFunc`] stands for in contracts.
pub struct SubCommandFuncView {
    pub attrs: Seq<Seq<char>>,
    pub vis: Seq<char>,
    pub name: Seq<char>,
    pub inputs: Seq<FnInputView>,
    pub output: Option<Seq<char>>,
    pub block: Seq<char>,
}

impl View for SubCommandFunc {
    type V = SubCommandFuncView;

    open spec fn view(&self) -> SubCommandFuncView {
        SubCommandFuncView {
            attrs: string_views(self.attrs@),
            vis: self.vis@,
            name: self.name@,
            inputs: input_views(self.inputs@),
            output: option_view(self.output),
            block: self.block@,
        }
    }
}

/// Why a function cannot be made into a command.
#[derive(Debug, Clone, Copy, PartialEq, Eq)]
pub enum DefinitionError {
    /// The function states no return type.
    MissingReturnType,
    /// The function has no parameter to take the command's context.
    MissingContext,
    /// The first parameter is a `self` receiver, not the command's context.
    ReceiverContext,
}

impl DefinitionError {
    /// The error in words.
    pub fn message(&self) -> (text: String)
        ensures
            text@ == match *self {
                DefinitionError::MissingReturnType => "Expected a return type"@,
                DefinitionError::MissingContext => "Expected a CommandContext parameter"@,
                DefinitionError::ReceiverContext => "Expected CommandContext"@,
            },
    {
        match self {
            DefinitionError::MissingReturnType => String::from_str("Expected a return type"),
            DefinitionError::MissingContext => String::from_str(
                "Expected a CommandContext parameter",
            ),
            DefinitionError::ReceiverContext => String::from_str("Expected CommandContext"),
        }
    }
}

/// A handler in the form that the guards are built around: its return type
/// is stated, its first parameter takes the command's context, and its
/// reference parameters share the future's lifetime.
#[derive(Debug, Clone, PartialEq, Eq)]
pub struct FunctionDescriptor {
    /// The function's attributes, one text each, as in the
    /// [`SubCommandFunc`]: the body's inner attributes among them, where the
    /// parser counted them.
    pub attrs: Vec<String>,
    /// The visibility; empty where none is written.
    pub vis: String,
    /// The function's name.
    pub name: String,
    /// The parameters, in order, normalized.
    pub inputs: Vec<FnInput>,
    /// The pattern of the first parameter, by which the guards name the
    /// command's context.
    pub context: String,
    /// The return type.
    pub return_ty: String,
    /// The body, braces included.
    pub block: String,
}

/// What a [`FunctionDescriptor`] stands for in contracts.
pub struct FunctionDescriptorView {
    pub attrs: Seq<Seq<char>>,
    pub vis: Seq<char>,
    pub name: Seq<char>,
    pub inputs: Seq<FnInputView>,
    pub context: Seq<char>,
    pub return_ty: Seq<char>,
    pub block: Seq<char>,
}

impl View for FunctionDescriptor {
    type V = FunctionDescriptorView;

    open spec fn view(&self) -> FunctionDescriptorView {
        FunctionDescriptorView {
            attrs: string_views(self.attrs@),
            vis: self.vis@,
            name: self.name@,
            inputs: input_views(self.inputs@),
            context: self.context@,
            return_ty: self.return_ty@,
            block: self.block@,
        }
    }
}

/// The view of a descriptor or of the error in its place.
pub open spec fn described_view(outcome: Result<FunctionDescriptor, DefinitionError>) -> Result<
    FunctionDescriptorView,
    DefinitionError,
> {
    match outcome {
        Ok(descriptor) => Ok(descriptor@),
        Err(error) => Err(error),
    }
}

impl SubCommandFuncView {
    /// Whether the function has the shape of a command handler: a stated
    /// return type, and a first parameter that is a pattern with a type,
    /// which takes the command's context.
    pub open spec fn has_handler_shape(self) -> bool {
        &&& self.output is Some
        &&& self.inputs.len() > 0
        &&& self.inputs[0] is Typed
    }

    /// The descriptor of the function, or what its shape lacks. The shape
    /// is tested in this order: return type, first parameter present,
    /// first parameter typed.
    pub open spec fn described(self) -> Result<FunctionDescriptorView, DefinitionError> {
        match self.output {
            None => Err(DefinitionError::MissingReturnType),
            Some(return_ty) => if self.inputs.len() == 0 {
                Err(DefinitionError::MissingContext)
            } else {
                match self.inputs[0] {
                    FnInputView::Receiver { tokens } => Err(DefinitionError::ReceiverContext),
                    FnInputView::Typed { attrs, pat, ty } => Ok(
                        FunctionDescriptorView {
                            attrs: self.attrs,
                            vis: self.vis,
                            name: self.name,
                            inputs: normalized_inputs(self.inputs),
                            context: pat,
                            return_ty,
                            block: self.block,
                        },
                    ),
                }
            },
        }
    }
}

/// The parts of a parsed function, put together.
pub open spec fn taken_apart(item: syn::ItemFn) -> SubCommandFuncView {
    SubCommandFuncView {
        attrs: item_attrs(item),
        vis: item_vis(item),
        name: item_name(item),
        inputs: item_inputs(item),
        output: item_output(item),
        block: item_block(item),
    }
}

impl SubCommandFunc {
    /// Puts the function in the form that the guards are built around.
    ///
    /// It fails where the function states no return type or has no typed
    /// first parameter, and then yields nothing. Otherwise every reference
    /// parameter gets the future's lifetime, every other part stays as it
    /// is, and the first parameter's pattern is noted as the context.
    pub fn describe(self) -> (outcome: Result<FunctionDescriptor, DefinitionError>)
        ensures
            described_view(outcome) == self@.described(),
            outcome is Ok <==> self@.has_handler_shape(),
            self@.output is None <==> outcome == Err::<FunctionDescriptor, _>(
                DefinitionError::MissingReturnType,
            ),
            outcome matches Ok(descriptor) ==> {
                &&& self@.output == Some(descriptor@.return_ty)
                &&& self@.inputs[0] is Typed
                &&& descriptor@.context == self@.inputs[0]->Typed_pat
                &&& descriptor@.inputs == normalized_inputs(self@.inputs)
                &&& descriptor@.attrs == self@.attrs
                &&& descriptor@.vis == self@.vis
                &&& descriptor@.name == self@.name
                &&& descriptor@.block == self@.block
            },
    {
        let SubCommandFunc { attrs, vis, name, inputs, output, block } = self;
        let return_ty = match output {
            Some(return_ty) => return_ty,
            None => {
                return Err(DefinitionError::MissingReturnType);
            },
        };
        if inputs.len() == 0 {
            return Err(DefinitionError::MissingContext);
        }
        let context = match &inputs[0] {
            FnInput::Typed { attrs: _, pat, ty: _ } => pat.clone(),
            FnInput::Receiver { tokens: _ } => {
                return Err(DefinitionError::ReceiverContext);
            },
        };
        let inputs = normalize_inputs(&inputs);
        Ok(FunctionDescriptor { attrs, vis, name, inputs, context, return_ty, block })
    }

    /// Takes a parsed function apart.
    ///
    /// Whatever was parsed as a function is taken, also one without a
    /// return type or without parameters: [`SubCommandFunc::describe`]
    /// tests the shape.
    pub fn from_item(item: &syn::ItemFn) -> (func: SubCommandFunc)
        ensures
            func@ == taken_apart(*item),
    {
        let count = input_count(item);
        let mut inputs: Vec<FnInput> = Vec::new();
        let mut i: usize = 0;
        while i < count
            invariant
                i <= count,
                count == item_inputs(*item).len(),
                inputs@.len() == i,
                forall|j: int| 0 <= j < i ==> inputs@[j]@ == item_inputs(*item)[j],
            decreases count - i,
        {
            inputs.push(input_at(item, i));
            i += 1;
        }
        assert(input_views(inputs@) =~= item_inputs(*item));
        SubCommandFunc {
            attrs: attrs_of(item),
            vis: vis_of(item),
            name: name_of(item),
            inputs,
            output: output_of(item),
            block: block_of(item),
        }
    }
}

} // verus!
