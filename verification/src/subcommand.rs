//! From a handler and its configuration to the function that is put in the
//! handler's place.

use crate::args::{SubCommandArgs, SubCommandArgsView};
use crate::function::{
    input_views, normalized_inputs, DefinitionError, FnInput, FnInputView, FunctionDescriptor,
    FunctionDescriptorView, SubCommandFunc, SubCommandFuncView,
};
use crate::guard::{Body, BodyView};
use crate::text::{joined, push_joined, string_views};
use vstd::prelude::*;
use vstd::string::StringExecFns;

verus! {

/// The function that takes a handler's place: same attributes, visibility
/// and name; the parameters under one lifetime; and a body that runs as one
/// boxed future, whose output is the handler's return type.
#[derive(Debug, Clone, PartialEq, Eq)]
pub struct GeneratedDefinition {
    /// The handler's attributes, all written in front of `fn`: also the
    /// inner attributes of its body, where the parser counted them.
    pub attrs: Vec<String>,
    pub vis: String,
    pub name: String,
    pub inputs: Vec<FnInput>,
    /// The type that the returned future resolves to.
    pub return_ty: String,
    pub body: Body,
}

/// What a [`GeneratedDefinition`] stands for in contracts.
pub struct GeneratedDefinitionView {
    pub attrs: Seq<Seq<char>>,
    pub vis: Seq<char>,
    pub name: Seq<char>,
    pub inputs: Seq<FnInputView>,
    pub return_ty: Seq<char>,
    pub body: BodyView,
}

impl View for GeneratedDefinition {
    type V = GeneratedDefinitionView;

    open spec fn view(&self) -> GeneratedDefinitionView {
        GeneratedDefinitionView {
            attrs: string_views(self.attrs@),
            vis: self.vis@,
            name: self.name@,
            inputs: input_views(self.inputs@),
            return_ty: self.return_ty@,
            body: self.body@,
        }
    }
}

/// The source texts of a run of parameters, in order.
pub open spec fn input_sources(inputs: Seq<FnInputView>) -> Seq<Seq<char>> {
    inputs.map_values(|input: FnInputView| input.source())
}

/// The type of the boxed future that resolves to `return_ty` and lives as
/// long as the parameters: the return type of a generated function.
pub open spec fn future_source(return_ty: Seq<char>) -> Seq<char> {
    "::serenity::futures::future::BoxFuture<'fut, "@ + return_ty + " >"@
}

impl GeneratedDefinitionView {
    /// The definition up to the end of its parameter list.
    pub open spec fn head_source(self) -> Seq<char> {
        joined(self.attrs, " "@) + " "@ + self.vis + " fn "@ + self.name + " <'fut>( "@ + joined(
            input_sources(self.inputs),
            " , "@,
        ) + " )"@
    }

    /// The body in its braces: the handler's body or the guards, as one
    /// future that is boxed.
    pub open spec fn block_source(self) -> Seq<char> {
        " { use ::serenity::futures::future::FutureExt; async move { "@ + self.body.source()
            + " } .boxed() }"@
    }

    /// The definition as source text.
    pub open spec fn source(self) -> Seq<char> {
        self.head_source() + " -> "@ + future_source(self.return_ty) + self.block_source()
    }
}

/// The body for a handler's block: the block alone where no check is
/// configured, else the block behind the guards.
pub open spec fn guarded_body(context: Seq<char>, args: SubCommandArgsView, block: Seq<char>)
    -> BodyView {
    if args.perms_checks.len() == 0 {
        BodyView::Plain { block }
    } else {
        BodyView::Guarded {
            context,
            checks: args.perms_checks,
            works_in_dms: args.works_in_dms,
            block,
        }
    }
}

/// The definition that is generated for a handler in its descriptor's
/// form: the descriptor's parts as they are, and the block alone or behind
/// the guards.
pub open spec fn generated(descriptor: FunctionDescriptorView, args: SubCommandArgsView)
    -> GeneratedDefinitionView {
    GeneratedDefinitionView {
        attrs: descriptor.attrs,
        vis: descriptor.vis,
        name: descriptor.name,
        inputs: descriptor.inputs,
        return_ty: descriptor.return_ty,
        body: guarded_body(descriptor.context, args, descriptor.block),
    }
}

/// What a handler and a configuration are made into: the definition
/// generated for the handler's descriptor, or what the handler's shape
/// lacks.
pub open spec fn formatted(func: SubCommandFuncView, args: SubCommandArgsView) -> Result<
    GeneratedDefinitionView,
    DefinitionError,
> {
    match func.described() {
        Ok(descriptor) => Ok(generated(descriptor, args)),
        Err(error) => Err(error),
    }
}

/// The view of a generation result.
pub open spec fn generated_view(outcome: Result<GeneratedDefinition, DefinitionError>) -> Result<
    GeneratedDefinitionView,
    DefinitionError,
> {
    match outcome {
        Ok(definition) => Ok(definition@),
        Err(error) => Err(error),
    }
}

/// Builds the definition around a handler that has the descriptor's
/// form. With no check configured the body is the handler's block
/// unchanged; with checks it is the block behind the guards.
pub fn generate(descriptor: FunctionDescriptor, args: SubCommandArgs) -> (definition:
    GeneratedDefinition)
    ensures
        definition@ == generated(descriptor@, args@),
        definition@.body.well_formed(),
        args@.perms_checks.len() == 0 ==> definition@.body == (BodyView::Plain {
            block: descriptor@.block,
        }),
        args@.perms_checks.len() > 0 ==> definition@.body is Guarded,
{
    let FunctionDescriptor { attrs, vis, name, inputs, context, return_ty, block } = descriptor;
    let SubCommandArgs { works_in_dms, perms_checks } = args;
    let body = if perms_checks.len() == 0 {
        Body::Plain { block }
    } else {
        Body::Guarded { context, checks: perms_checks, works_in_dms, block }
    };
    GeneratedDefinition { attrs, vis, name, inputs, return_ty, body }
}

/// Makes the function that takes the handler's place.
///
/// It fails, and yields nothing, where the handler states no return type or
/// has no typed first parameter. With no check configured the body is the
/// handler's block unchanged. The handler's return type is never altered:
/// it is the type that the generated function's future resolves to.
pub fn format_subcommand(func: SubCommandFunc, args: SubCommandArgs) -> (outcome: Result<
    GeneratedDefinition,
    DefinitionError,
>)
    ensures
        generated_view(outcome) == formatted(func@, args@),
        outcome is Ok <==> func@.has_handler_shape(),
        func@.output is None <==> outcome == Err::<GeneratedDefinition, _>(
            DefinitionError::MissingReturnType,
        ),
        outcome matches Ok(definition) ==> {
            &&& func@.output == Some(definition@.return_ty)
            &&& definition@.attrs == func@.attrs
            &&& definition@.vis == func@.vis
            &&& definition@.name == func@.name
            &&& definition@.inputs == normalized_inputs(func@.inputs)
            &&& args@.perms_checks.len() == 0 ==> definition@.body == (BodyView::Plain {
                block: func@.block,
            })
            &&& args@.perms_checks.len() > 0 ==> definition@.body is Guarded
            &&& definition@.body.well_formed()
        },
{
    match func.describe() {
        Ok(descriptor) => Ok(generate(descriptor, args)),
        Err(error) => Err(error),
    }
}

/// The source texts of `inputs`.
fn input_texts(inputs: &Vec<FnInput>) -> (texts: Vec<String>)
    ensures
        string_views(texts@) == input_sources(input_views(inputs@)),
{
    let mut texts: Vec<String> = Vec::new();
    let mut i: usize = 0;
    while i < inputs.len()
        invariant
            i <= inputs.len(),
            texts@.len() == i,
            forall|j: int| 0 <= j < i ==> texts@[j]@ == inputs@[j]@.source(),
        decreases inputs.len() - i,
    {
        texts.push(inputs[i].to_source());
        i += 1;
    }
    assert(string_views(texts@) =~= input_sources(input_views(inputs@)));
    texts
}

impl GeneratedDefinition {
    /// The definition up to the end of its parameter list.
    fn head(&self) -> (out: String)
        ensures
            out@ == self@.head_source(),
    {
        let texts = input_texts(&self.inputs);
        let mut out = String::new();
        push_joined(&mut out, &self.attrs, " ");
        assert(out@ =~= joined(self@.attrs, " "@));
        out.append(" ");
        out.append(self.vis.as_str());
        out.append(" fn ");
        out.append(self.name.as_str());
        out.append(" <'fut>( ");
        push_joined(&mut out, &texts, " , ");
        out.append(" )");
        out
    }

    /// The type of the future that the definition returns.
    fn future(&self) -> (out: String)
        ensures
            out@ == future_source(self@.return_ty),
    {
        let mut out = String::from_str("::serenity::futures::future::BoxFuture<'fut, ");
        out.append(self.return_ty.as_str());
        out.append(" >");
        out
    }

    /// The body in its braces.
    fn block(&self) -> (out: String)
        ensures
            out@ == self@.block_source(),
    {
        let mut out = String::from_str(
            " { use ::serenity::futures::future::FutureExt; async move { ",
        );
        out.append(self.body.to_source().as_str());
        out.append(" } .boxed() }");
        out
    }

    /// The definition as source text, ready to be read back as tokens.
    pub fn to_source(&self) -> (out: String)
        ensures
            out@ == self@.source(),
    {
        let mut out = self.head();
        out.append(" -> ");
        out.append(self.future().as_str());
        out.append(self.block().as_str());
        out
    }
}

/// The return type is never altered, only wrapped: the future that a
/// generated function returns resolves to the type that the handler
/// states, and the generated text names that type and no other as the
/// future's output. The result is the text in front of the future's type
/// and the text behind it.
pub proof fn law_return_type_is_wrapped(func: SubCommandFuncView, args: SubCommandArgsView) -> (around:
    (Seq<char>, Seq<char>))
    requires
        formatted(func, args) is Ok,
    ensures
        func.output == Some(formatted(func, args)->Ok_0.return_ty),
        formatted(func, args)->Ok_0.source() == around.0 + future_source(func.output->0)
            + around.1,
{
    let definition = formatted(func, args)->Ok_0;
    (definition.head_source() + " -> "@, definition.block_source())
}

} // verus!
