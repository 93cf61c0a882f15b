use slashy_macros::function::{
    normalize_inputs, DefinitionError, FnInput, FunctionDescriptor, ParamType, SubCommandFunc,
};

fn flatten(stream: proc_macro2::TokenStream, out: &mut Vec<String>) {
    for tree in stream {
        match tree {
            proc_macro2::TokenTree::Group(group) => {
                out.push(format!("open {:?}", group.delimiter()));
                flatten(group.stream(), out);
                out.push(format!("close {:?}", group.delimiter()));
            }
            other => out.push(other.to_string()),
        }
    }
}

fn tokens_of(text: &str) -> Vec<String> {
    let mut out = Vec::new();
    flatten(text.parse::<proc_macro2::TokenStream>().unwrap(), &mut out);
    out
}

fn same_tokens(left: &str, right: &str) -> bool {
    tokens_of(left) == tokens_of(right)
}

fn read(src: &str) -> SubCommandFunc {
    SubCommandFunc::from_item(&syn::parse_str::<syn::ItemFn>(src).unwrap())
}

fn typed(pat: &str, ty: ParamType) -> FnInput {
    FnInput::Typed { attrs: Vec::new(), pat: pat.to_string(), ty }
}

fn reference(lifetime: Option<&str>, mutable: bool, elem: &str) -> ParamType {
    ParamType::Reference {
        lifetime: lifetime.map(|name| name.to_string()),
        mutable,
        elem: elem.to_string(),
    }
}

fn other(tokens: &str) -> ParamType {
    ParamType::Other { tokens: tokens.to_string() }
}

#[test]
fn function_is_taken_apart() {
    let func = read(
        "#[inline] #[doc = \"Answers.\"] pub(crate) async fn ping(ctx: &CommandContext, times: u32) -> CommandResult { ctx.send_str(\"pong\").await?; Ok(()) }",
    );
    assert_eq!(func.attrs.len(), 2);
    assert!(same_tokens(&func.attrs[0], "#[inline]"));
    assert!(same_tokens(&func.attrs[1], "#[doc = \"Answers.\"]"));
    assert!(same_tokens(&func.vis, "pub(crate)"));
    assert_eq!(func.name, "ping");
    assert_eq!(func.inputs.len(), 2);
    assert_eq!(func.inputs[0], typed("ctx", reference(None, false, "CommandContext")));
    assert_eq!(func.inputs[1], typed("times", other("u32")));
    assert_eq!(func.output, Some("CommandResult".to_string()));
    assert!(same_tokens(&func.block, "{ ctx.send_str(\"pong\").await?; Ok(()) }"));
}

#[test]
fn private_function_has_empty_visibility() {
    let func = read("fn quiet(ctx: &Ctx) -> R {}");
    assert_eq!(func.vis, "");
    assert!(func.attrs.is_empty());
    assert!(same_tokens(&func.block, "{}"));
}

#[test]
fn reference_parameters_are_taken_apart() {
    let func = read(
        "fn f(a: &'a mut Vec<u8>, b: &str, c: Option<&'c u8>, #[cold] d: &'d u8) -> R {}",
    );
    assert_eq!(func.inputs.len(), 4);
    match &func.inputs[0] {
        FnInput::Typed { attrs, pat, ty: ParamType::Reference { lifetime, mutable, elem } } => {
            assert!(attrs.is_empty());
            assert_eq!(pat, "a");
            assert_eq!(lifetime.as_deref(), Some("'a"));
            assert!(*mutable);
            assert!(same_tokens(elem, "Vec<u8>"));
        }
        found => panic!("not a reference parameter: {:?}", found),
    }
    assert_eq!(func.inputs[1], typed("b", reference(None, false, "str")));
    match &func.inputs[2] {
        FnInput::Typed { pat, ty: ParamType::Other { tokens }, .. } => {
            assert_eq!(pat, "c");
            assert!(same_tokens(tokens, "Option<&'c u8>"));
        }
        found => panic!("not a plain parameter: {:?}", found),
    }
    match &func.inputs[3] {
        FnInput::Typed { attrs, pat, ty } => {
            assert_eq!(attrs.len(), 1);
            assert!(same_tokens(&attrs[0], "#[cold]"));
            assert_eq!(pat, "d");
            assert_eq!(*ty, reference(Some("'d"), false, "u8"));
        }
        found => panic!("not a typed parameter: {:?}", found),
    }
}

#[test]
fn receiver_is_kept_as_tokens() {
    let func = read("fn f(&mut self, n: u8) -> R {}");
    assert_eq!(func.inputs.len(), 2);
    match &func.inputs[0] {
        FnInput::Receiver { tokens } => assert!(same_tokens(tokens, "&mut self")),
        found => panic!("not a receiver: {:?}", found),
    }
}

#[test]
fn missing_return_type_is_read_as_none() {
    let func = read("fn f(ctx: &Ctx) {}");
    assert_eq!(func.output, None);
}

#[test]
fn function_without_parameters_is_read() {
    let func = read("fn f() -> R {}");
    assert!(func.inputs.is_empty());
    assert_eq!(func.output, Some("R".to_string()));
}

#[test]
fn reference_gets_the_future_lifetime() {
    let input = typed("ctx", reference(None, false, "CommandContext"));
    assert_eq!(input.normalized(), typed("ctx", reference(Some("'fut"), false, "CommandContext")));
    let input = typed("data", reference(Some("'a"), true, "Vec<u8>"));
    assert_eq!(input.normalized(), typed("data", reference(Some("'fut"), true, "Vec<u8>")));
}

#[test]
fn other_parameters_pass_unchanged() {
    let plain = typed("n", other("u32"));
    assert_eq!(plain.normalized(), plain);
    let nested = typed("n", other("Option<&'a u32>"));
    assert_eq!(nested.normalized(), nested);
    let receiver = FnInput::Receiver { tokens: "&'a self".to_string() };
    assert_eq!(receiver.normalized(), receiver);
}

#[test]
fn parameter_attributes_and_pattern_are_kept() {
    let input = FnInput::Typed {
        attrs: vec!["#[cold]".to_string()],
        pat: "(a, b)".to_string(),
        ty: reference(Some("'x"), false, "(u8, u8)"),
    };
    assert_eq!(
        input.normalized(),
        FnInput::Typed {
            attrs: vec!["#[cold]".to_string()],
            pat: "(a, b)".to_string(),
            ty: reference(Some("'fut"), false, "(u8, u8)"),
        }
    );
}

#[test]
fn list_is_normalized_in_order() {
    let inputs = vec![
        typed("ctx", reference(None, false, "Ctx")),
        typed("n", other("u32")),
        typed("s", reference(Some("'s"), true, "String")),
    ];
    let normalized = normalize_inputs(&inputs);
    assert_eq!(
        normalized,
        vec![
            typed("ctx", reference(Some("'fut"), false, "Ctx")),
            typed("n", other("u32")),
            typed("s", reference(Some("'fut"), true, "String")),
        ]
    );
    assert_eq!(normalize_inputs(&normalized), normalized);
    assert!(normalize_inputs(&Vec::new()).is_empty());
}

#[test]
fn parameter_source_text() {
    assert_eq!(
        typed("ctx", reference(Some("'fut"), true, "Ctx")).to_source(),
        " ctx : & 'fut mut Ctx"
    );
    assert_eq!(typed("ctx", reference(None, false, "Ctx")).to_source(), " ctx : & Ctx");
    assert_eq!(typed("n", other("u32")).to_source(), " n : u32");
    assert_eq!(reference(Some("'a"), false, "[u8]").to_source(), "& 'a [u8]");
    assert_eq!(reference(None, true, "T").to_source(), "& mut T");
    assert_eq!(other("Vec<u8>").to_source(), "Vec<u8>");
    assert_eq!(FnInput::Receiver { tokens: "& self".to_string() }.to_source(), "& self");
    let attributed = FnInput::Typed {
        attrs: vec!["#[a]".to_string(), "#[b]".to_string()],
        pat: "n".to_string(),
        ty: other("u8"),
    };
    assert_eq!(attributed.to_source(), "#[a] #[b] n : u8");
}

#[test]
fn normalized_parameter_reads_back_with_the_lifetime() {
    let func = read("fn f(ctx: &'a mut Ctx) -> R {}");
    let text = func.inputs[0].normalized().to_source();
    assert!(same_tokens(&text, "ctx: &'fut mut Ctx"));
}

#[test]
fn handler_is_described() {
    let func = read(
        "#[inline] pub fn ping(ctx: &Ctx, who: &'a mut User, n: u8) -> Outcome { go() }",
    );
    let descriptor = func.clone().describe().unwrap();
    assert_eq!(
        descriptor,
        FunctionDescriptor {
            attrs: func.attrs.clone(),
            vis: func.vis.clone(),
            name: "ping".to_string(),
            inputs: vec![
                typed("ctx", reference(Some("'fut"), false, "Ctx")),
                typed("who", reference(Some("'fut"), true, "User")),
                typed("n", other("u8")),
            ],
            context: "ctx".to_string(),
            return_ty: "Outcome".to_string(),
            block: func.block.clone(),
        }
    );
}

#[test]
fn context_is_the_first_pattern_as_written() {
    let func = read("fn f(mut cx: Ctx, ctx: &Ctx) -> R {}");
    let descriptor = func.describe().unwrap();
    assert!(same_tokens(&descriptor.context, "mut cx"));
}

#[test]
fn function_without_handler_shape_is_not_described() {
    let describe = |src: &str| read(src).describe();
    assert_eq!(describe("fn f(ctx: &Ctx) {}"), Err(DefinitionError::MissingReturnType));
    assert_eq!(describe("fn f() {}"), Err(DefinitionError::MissingReturnType));
    assert_eq!(describe("fn f() -> R {}"), Err(DefinitionError::MissingContext));
    assert_eq!(describe("fn f(&self) -> R {}"), Err(DefinitionError::ReceiverContext));
    assert_eq!(describe("fn f(self, ctx: &Ctx) -> R {}"), Err(DefinitionError::ReceiverContext));
    assert!(describe("fn f(self: Box<Self>) -> R {}").is_ok());
}

#[test]
fn inner_attributes_of_the_body_are_among_the_attributes() {
    let func = read("#[inline] fn f(ctx: &Ctx) -> R { #![allow(unused)] go() }");
    assert_eq!(func.attrs.len(), 2);
    assert!(same_tokens(&func.attrs[0], "#[inline]"));
    assert!(same_tokens(&func.attrs[1], "#![allow(unused)]"));
    assert!(same_tokens(&func.block, "{ go() }"));
}

#[test]
fn taking_apart_is_repeatable() {
    let item = syn::parse_str::<syn::ItemFn>("pub fn f(ctx: &Ctx, n: u8) -> R { go() }").unwrap();
    assert_eq!(SubCommandFunc::from_item(&item), SubCommandFunc::from_item(&item));
}
