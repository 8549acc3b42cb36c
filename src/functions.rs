//! The library's functions: identifier, parameters, examples, native symbol,
//! and compilation of a call site into a node.
use vstd::prelude::*;
use vstd::string::StringExecFns;
use std::sync::Arc;
use crate::arguments::{Argument, ArgumentList, Parameter, names, bound, first, binds, signature, lemma_names_first, lemma_remove_keeps};
use crate::diagnostic::{CompileError, Span};
use crate::eval::{Expr, Node};
use crate::pattern::{CompiledPattern, decode_lossy, grok_accepts, grok_error_of, utf8_lossy};
use crate::value::{Value, KIND_ANY, KIND_BYTES, KIND_BOOLEAN};

verus! {

/// State kept while a program compiles.
#[derive(Debug)]
pub struct CompileContext {
    /// How many literal arguments have been specialised so far.
    pub specializations: u64,
}

/// A documented example: source text and the expected outcome.
#[derive(Debug)]
pub struct Example {
    pub title: &'static str,
    pub source: &'static str,
    pub result: Result<&'static str, &'static str>,
}

/// A literal argument specialised at compile time and shared, by handle,
/// with the native entry point.
#[derive(Debug)]
pub enum CompiledLiteral {
    GrokPattern(Arc<CompiledPattern>),
}

impl CompiledLiteral {
    /// The definition of a compiled pattern.
    pub open spec fn definition(&self) -> Seq<char> {
        match self {
            CompiledLiteral::GrokPattern(p) => p.definition(),
        }
    }
}

/// `get_hostname()`: the host's name.
#[derive(Clone, Copy, Debug)]
pub struct GetHostname;

/// `md5(value)`: the hexadecimal MD5 digest of a byte string.
#[derive(Clone, Copy, Debug)]
pub struct Md5;

/// `parse_grok(value, pattern, remove_empty)`: the named captures of a grok
/// pattern on a byte string.
#[derive(Clone, Copy, Debug)]
pub struct ParseGrok;

impl GetHostname {
    pub fn identifier(&self) -> (r: &'static str)
        ensures
            r@ == "get_hostname"@,
    {
        "get_hostname"
    }

    pub fn parameters(&self) -> (r: Vec<Parameter>)
        ensures
            signature(r@) == Seq::<(Seq<char>, bool)>::empty(),
    {
        let r = Vec::new();
        assert(signature(r@) =~= Seq::<(Seq<char>, bool)>::empty());
        r
    }

    pub fn examples(&self) -> (r: Vec<Example>)
        ensures
            r@.len() == 1,
            r@[0].title@ == "valid"@,
            r@[0].source@ == "get_hostname!() != \"\""@,
            r@[0].result matches Ok(s) && s@ == "true"@,
    {
        vec![Example { title: "valid", source: "get_hostname!() != \"\"", result: Ok("true") }]
    }

    /// None: the function runs in the interpreter only.
    pub fn symbol(&self) -> (r: Option<&'static str>)
        ensures
            r is None,
    {
        None
    }

    pub fn compile(&self, arguments: ArgumentList, ctx: &mut CompileContext) -> (r: Result<Node, CompileError>)
        ensures
            r == Ok::<Node, CompileError>(Node::GetHostname),
            *final(ctx) == *old(ctx),
    {
        Ok(Node::GetHostname)
    }
}

impl Md5 {
    pub fn identifier(&self) -> (r: &'static str)
        ensures
            r@ == "md5"@,
    {
        "md5"
    }

    pub fn parameters(&self) -> (r: Vec<Parameter>)
        ensures
            r@.len() == 1,
            r@[0].keyword@ == "value"@ && r@[0].kind == KIND_ANY && r@[0].required,
            signature(r@) == seq![("value"@, true)],
    {
        let r = vec![Parameter { keyword: String::from_str("value"), kind: KIND_ANY, required: true }];
        assert(signature(r@) =~= seq![("value"@, true)]);
        r
    }

    pub fn examples(&self) -> (r: Vec<Example>)
        ensures
            r@.len() == 1,
            r@[0].title@ == "md5"@,
            r@[0].source@ == "md5(\"foobar\")"@,
            r@[0].result matches Ok(s) && s@ == "3858f62230ac3c915f300c664312c63f"@,
    {
        vec![Example { title: "md5", source: "md5(\"foobar\")", result: Ok("3858f62230ac3c915f300c664312c63f") }]
    }

    /// None: the function runs in the interpreter only.
    pub fn symbol(&self) -> (r: Option<&'static str>)
        ensures
            r is None,
    {
        None
    }

    pub fn compile(&self, arguments: ArgumentList, ctx: &mut CompileContext) -> (r: Result<Node, CompileError>)
        requires
            names(arguments.arguments@, "value"@),
        ensures
            r == Ok::<Node, CompileError>(Node::Md5 { value: Box::new(bound(arguments.arguments@, "value"@)) }),
            *final(ctx) == *old(ctx),
    {
        let mut arguments = arguments;
        let value = arguments.required(&String::from_str("value"));
        Ok(Node::Md5 { value: Box::new(value) })
    }
}

/// The bytes of a literal byte-string argument.
pub open spec fn literal_bytes(argument: Argument) -> Seq<u8> {
    match argument.expr {
        Expr::Literal(Value::Bytes(b)) => b@,
        _ => Seq::empty(),
    }
}

/// The definition a pattern argument compiles from.
pub open spec fn definition_of(argument: Argument) -> Seq<char> {
    utf8_lossy(literal_bytes(argument))
}

/// The specialisation step applies to the pattern argument.
pub open spec fn specialises(pattern: Argument) -> bool {
    pattern.expr matches Expr::Literal(Value::Bytes(_))
}

/// The error for a pattern argument that cannot be specialised, up to the
/// text of grok's description.
pub open spec fn pattern_error(pattern: Argument, e: CompileError) -> bool {
    match pattern.expr {
        Expr::Literal(Value::Bytes(b)) => e matches CompileError::InvalidGrokPattern { message, span }
            && span == pattern.span && !grok_accepts(utf8_lossy(b@))
            && message@ == grok_error_of(utf8_lossy(b@)),
        Expr::Literal(_) => e matches CompileError::ExpectedBytes { keyword, span }
            && keyword@ == "pattern"@ && span == pattern.span,
        _ => e matches CompileError::ExpectedLiteral { keyword, span }
            && keyword@ == "pattern"@ && span == pattern.span,
    }
}

/// What compiling `parse_grok` on the bound arguments gives: the pattern
/// is specialised once, where it is a literal byte string, and the node
/// closes over the value, the compiled pattern and the `remove_empty`
/// expression (`false` where it is left out).
pub open spec fn grok_compiled(args: Seq<Argument>, r: Result<Node, CompileError>, before: u64, after: u64) -> bool {
    let pattern = args[first(args, "pattern"@)];
    &&& r is Ok <==> specialises(pattern) && grok_accepts(definition_of(pattern))
    &&& r matches Err(e) ==> pattern_error(pattern, e)
    &&& after == before + if specialises(pattern) { 1int } else { 0int }
    &&& r matches Ok(n) ==> n matches Node::ParseGrok { value, pattern: p, remove_empty }
        && *value == bound(args, "value"@)
        && p.definition() == definition_of(pattern)
        && *remove_empty == if names(args, "remove_empty"@) {
            bound(args, "remove_empty"@)
        } else {
            Expr::Literal(Value::Boolean(false))
        }
}

impl ParseGrok {
    pub fn identifier(&self) -> (r: &'static str)
        ensures
            r@ == "parse_grok"@,
    {
        "parse_grok"
    }

    pub fn parameters(&self) -> (r: Vec<Parameter>)
        ensures
            r@.len() == 3,
            r@[0].keyword@ == "value"@ && r@[0].kind == KIND_BYTES && r@[0].required,
            r@[1].keyword@ == "pattern"@ && r@[1].kind == KIND_BYTES && r@[1].required,
            r@[2].keyword@ == "remove_empty"@ && r@[2].kind == KIND_BOOLEAN && !r@[2].required,
            signature(r@) == seq![("value"@, true), ("pattern"@, true), ("remove_empty"@, false)],
    {
        let r = vec![
            Parameter { keyword: String::from_str("value"), kind: KIND_BYTES, required: true },
            Parameter { keyword: String::from_str("pattern"), kind: KIND_BYTES, required: true },
            Parameter { keyword: String::from_str("remove_empty"), kind: KIND_BOOLEAN, required: false },
        ];
        assert(signature(r@) =~= seq![("value"@, true), ("pattern"@, true), ("remove_empty"@, false)]);
        r
    }

    pub fn examples(&self) -> (r: Vec<Example>)
        ensures
            r@.len() == 1,
            r@[0].title@ == "parse grok pattern"@,
            r@[0].source@ == "value = \"2020-10-02T23:22:12.223222Z info Hello world\"\npattern = \"%{TIMESTAMP_ISO8601:timestamp} %{LOGLEVEL:level} %{GREEDYDATA:message}\"\n\nparse_grok!(value, pattern)\n"@,
            r@[0].result matches Ok(s) && s@ == "{\n    \"timestamp\": \"2020-10-02T23:22:12.223222Z\",\n    \"level\": \"info\",\n    \"message\": \"Hello world\"\n}\n"@,
    {
        vec![
            Example {
                title: "parse grok pattern",
                source: "value = \"2020-10-02T23:22:12.223222Z info Hello world\"\npattern = \"%{TIMESTAMP_ISO8601:timestamp} %{LOGLEVEL:level} %{GREEDYDATA:message}\"\n\nparse_grok!(value, pattern)\n",
                result: Ok("{\n    \"timestamp\": \"2020-10-02T23:22:12.223222Z\",\n    \"level\": \"info\",\n    \"message\": \"Hello world\"\n}\n"),
            },
        ]
    }

    pub fn symbol(&self) -> (r: Option<&'static str>)
        ensures
            r matches Some(s) && s@ == "vrl_fn_parse_grok"@,
    {
        Some("vrl_fn_parse_grok")
    }

    /// Specialises a pattern argument: it must be a literal byte string, and
    /// its text must compile. This is the one place where a pattern compiles.
    fn specialise(argument: Argument, ctx: &mut CompileContext) -> (r: Result<CompiledPattern, CompileError>)
        requires
            old(ctx).specializations < u64::MAX,
        ensures
            r is Ok <==> specialises(argument) && grok_accepts(definition_of(argument)),
            r matches Ok(p) ==> p.definition() == definition_of(argument),
            r matches Err(e) ==> pattern_error(argument, e),
            final(ctx).specializations == old(ctx).specializations + if specialises(argument) { 1int } else { 0int },
    {
        let span = argument.span;
        match argument.expr {
            Expr::Literal(Value::Bytes(b)) => {
                let text = decode_lossy(b.as_slice());
                match CompiledPattern::compile(text, ctx) {
                    Ok(p) => Ok(p),
                    Err(message) => Err(CompileError::InvalidGrokPattern { message, span }),
                }
            },
            Expr::Literal(_) => Err(CompileError::ExpectedBytes { keyword: String::from_str("pattern"), span }),
            _ => Err(CompileError::ExpectedLiteral { keyword: String::from_str("pattern"), span }),
        }
    }

    /// Compiles a call site. The pattern is specialised here, once; the
    /// node shares it by handle with every evaluation.
    pub fn compile(&self, arguments: ArgumentList, ctx: &mut CompileContext) -> (r: Result<Node, CompileError>)
        requires
            names(arguments.arguments@, "value"@),
            names(arguments.arguments@, "pattern"@),
            old(ctx).specializations < u64::MAX,
        ensures
            grok_compiled(arguments.arguments@, r, old(ctx).specializations, final(ctx).specializations),
    {
        proof {
            reveal_strlit("value");
            reveal_strlit("pattern");
            reveal_strlit("remove_empty");
            assert("value"@.len() != "pattern"@.len());
            assert("value"@.len() != "remove_empty"@.len());
            assert("pattern"@.len() != "remove_empty"@.len());
        }
        let ghost args = arguments.arguments@;
        let mut arguments = arguments;
        let value = arguments.required(&String::from_str("value"));
        proof {
            lemma_names_first(args, "value"@);
            lemma_remove_keeps(args, first(args, "value"@), "pattern"@);
            lemma_remove_keeps(args, first(args, "value"@), "remove_empty"@);
        }
        let ghost rest = arguments.arguments@;
        let pattern = match arguments.take(&String::from_str("pattern")) {
            Some(a) => a,
            None => {
                return Err(CompileError::ExpectedLiteral { keyword: String::from_str("pattern"), span: arguments.span });
            },
        };
        proof {
            lemma_names_first(rest, "pattern"@);
            lemma_remove_keeps(rest, first(rest, "pattern"@), "remove_empty"@);
        }
        let compiled = match ParseGrok::specialise(pattern, ctx) {
            Ok(p) => p,
            Err(e) => {
                return Err(e);
            },
        };
        let remove_empty = match arguments.optional(&String::from_str("remove_empty")) {
            Some(e) => e,
            None => Expr::Literal(Value::Boolean(false)),
        };
        Ok(Node::ParseGrok { value: Box::new(value), pattern: Arc::new(compiled), remove_empty: Box::new(remove_empty) })
    }

    /// Specialises the argument that the native entry point takes compiled:
    /// the pattern. Other arguments have none.
    pub fn compile_argument(&self, keyword: &String, argument: Option<Argument>, ctx: &mut CompileContext) -> (r: Result<Option<CompiledLiteral>, CompileError>)
        requires
            old(ctx).specializations < u64::MAX,
        ensures
            (keyword@ != "pattern"@ || argument is None) ==> r == Ok::<Option<CompiledLiteral>, CompileError>(None)
                && *final(ctx) == *old(ctx),
            (keyword@ == "pattern"@ && argument is Some) ==> ({
                let a = argument.unwrap();
                &&& r is Ok <==> specialises(a) && grok_accepts(definition_of(a))
                &&& r matches Err(e) ==> pattern_error(a, e)
                &&& r matches Ok(c) ==> c matches Some(CompiledLiteral::GrokPattern(p))
                    && p.definition() == definition_of(a)
                &&& final(ctx).specializations == old(ctx).specializations + if specialises(a) { 1int } else { 0int }
            }),
    {
        let is_pattern = *keyword == String::from_str("pattern");
        match argument {
            Some(a) => {
                if is_pattern {
                    match ParseGrok::specialise(a, ctx) {
                        Ok(p) => Ok(Some(CompiledLiteral::GrokPattern(Arc::new(p)))),
                        Err(e) => Err(e),
                    }
                } else {
                    Ok(None)
                }
            },
            None => Ok(None),
        }
    }
}

/// The functions of the library, one variant each.
#[derive(Clone, Copy, Debug, PartialEq, Eq, Structural)]
pub enum Function {
    GetHostname,
    Md5,
    ParseGrok,
}

impl Function {
    /// Keywords and required flags of the function's parameters.
    pub open spec fn spec_signature(self) -> Seq<(Seq<char>, bool)> {
        match self {
            Function::GetHostname => Seq::empty(),
            Function::Md5 => seq![("value"@, true)],
            Function::ParseGrok => seq![("value"@, true), ("pattern"@, true), ("remove_empty"@, false)],
        }
    }

    /// The function with the identifier, if any.
    pub fn from_identifier(identifier: &String) -> (r: Option<Function>)
        ensures
            r == if identifier@ == "get_hostname"@ {
                Some(Function::GetHostname)
            } else if identifier@ == "md5"@ {
                Some(Function::Md5)
            } else if identifier@ == "parse_grok"@ {
                Some(Function::ParseGrok)
            } else {
                None
            },
    {
        if *identifier == String::from_str("get_hostname") {
            Some(Function::GetHostname)
        } else if *identifier == String::from_str("md5") {
            Some(Function::Md5)
        } else if *identifier == String::from_str("parse_grok") {
            Some(Function::ParseGrok)
        } else {
            None
        }
    }

    pub fn parameters(&self) -> (r: Vec<Parameter>)
        ensures
            signature(r@) == self.spec_signature(),
    {
        match self {
            Function::GetHostname => GetHostname.parameters(),
            Function::Md5 => Md5.parameters(),
            Function::ParseGrok => ParseGrok.parameters(),
        }
    }

    /// Binds a call site's arguments, then compiles the call.
    pub fn compile(&self, arguments: Vec<Argument>, span: Span, ctx: &mut CompileContext) -> (r: Result<Node, CompileError>)
        requires
            old(ctx).specializations < u64::MAX,
        ensures
            !binds(self.spec_signature(), arguments@) ==> *final(ctx) == *old(ctx),
            !binds(self.spec_signature(), arguments@) ==> (r matches Err(e) && (e is UnknownKeyword || e is MissingArgument)),
            binds(self.spec_signature(), arguments@) ==> match self {
                Function::GetHostname => r == Ok::<Node, CompileError>(Node::GetHostname) && *final(ctx) == *old(ctx),
                Function::Md5 => r == Ok::<Node, CompileError>(Node::Md5 { value: Box::new(bound(arguments@, "value"@)) })
                    && *final(ctx) == *old(ctx),
                Function::ParseGrok => grok_compiled(arguments@, r, old(ctx).specializations, final(ctx).specializations),
            },
    {
        let parameters = self.parameters();
        let ghost args = arguments@;
        let list = match ArgumentList::bind(&parameters, arguments, span) {
            Ok(list) => list,
            Err(e) => {
                return Err(e);
            },
        };
        let ghost sig = self.spec_signature();
        match self {
            Function::GetHostname => GetHostname.compile(list, ctx),
            Function::Md5 => {
                assert(sig[0].1);
                Md5.compile(list, ctx)
            },
            Function::ParseGrok => {
                assert(sig[0].1);
                assert(sig[1].1);
                ParseGrok.compile(list, ctx)
            },
        }
    }
}

/// A pattern argument that is not a literal is never specialised, and the
/// only error it can give is that a literal was expected.
pub proof fn lemma_non_literal_pattern(pattern: Argument, e: CompileError)
    requires
        !(pattern.expr is Literal),
    ensures
        !specialises(pattern),
        pattern_error(pattern, e) ==> e is ExpectedLiteral,
{
}

/// Compiling `parse_grok` with a pattern that is not a literal fails at
/// compile time with "a literal was expected": no node is produced, so the
/// pattern expression is never evaluated, and nothing is specialised.
pub proof fn lemma_pattern_must_be_literal(args: Seq<Argument>, r: Result<Node, CompileError>, before: u64, after: u64)
    requires
        grok_compiled(args, r, before, after),
        !(args[first(args, "pattern"@)].expr is Literal),
    ensures
        r matches Err(e) && e is ExpectedLiteral,
        after == before,
{
}

/// The definition of the pattern a `parse_grok` node holds.
pub open spec fn node_definition(n: Node) -> Seq<char> {
    match n {
        Node::ParseGrok { pattern, .. } => pattern.definition(),
        _ => Seq::empty(),
    }
}

/// Each compilation of a call site specialises its pattern exactly once:
/// compiling the same call site twice specialises it twice, and both nodes
/// hold a pattern compiled from the same definition.
pub proof fn lemma_specialised_once_per_compile(
    args: Seq<Argument>,
    r1: Result<Node, CompileError>,
    r2: Result<Node, CompileError>,
    c0: u64,
    c1: u64,
    c2: u64,
)
    requires
        grok_compiled(args, r1, c0, c1),
        grok_compiled(args, r2, c1, c2),
        specialises(args[first(args, "pattern"@)]),
    ensures
        c1 == c0 + 1,
        c2 == c0 + 2,
        r1 is Ok <==> r2 is Ok,
        r1 is Ok ==> r1->Ok_0 is ParseGrok && r2->Ok_0 is ParseGrok
            && node_definition(r1->Ok_0) == node_definition(r2->Ok_0),
{
}

} // verus!
