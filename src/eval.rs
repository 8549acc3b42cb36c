//! Compiled expression nodes, their static types and their evaluation.
use vstd::prelude::*;
use vstd::string::StringExecFns;
use std::sync::Arc;
use crate::value::{Value, Model, KIND_ANY, KIND_BYTES, KIND_BOOLEAN, KIND_OBJECT, KIND_INTEGER, KIND_NULL, KIND_ARRAY, entries_model, lemma_object_model};
use crate::digest::{md5_of, hex_encode, md5_digest, hex_ascii};
use crate::pattern::{CompiledPattern, decode_lossy, utf8_lossy, grok_captures};
use crate::host::read_hostname;

verus! {

/// A run-time failure of a function body. It is a value: the surrounding
/// program may handle it.
#[derive(Debug, PartialEq)]
pub enum RuntimeError {
    /// The argument had another kind than the function accepts.
    ExpectedKind { expected: u8, found: u8 },
    /// The input did not match the pattern.
    NoMatch,
    /// The host's name could not be read.
    Hostname { reason: String },
    /// The host's name was read but is empty.
    EmptyHostname,
}

/// Static type of a node: the kinds it may produce and whether it may fail.
#[derive(Clone, Copy, Debug, PartialEq, Eq, Structural)]
pub struct TypeDef {
    pub kind: u8,
    pub fallible: bool,
}

/// A sub-expression handed to a function.
#[derive(Debug)]
pub enum Expr {
    Literal(Value),
    Variable(String),
    Call(Box<Node>),
}

/// A compiled function call.
#[derive(Debug)]
pub enum Node {
    GetHostname,
    Md5 { value: Box<Expr> },
    ParseGrok { value: Box<Expr>, pattern: Arc<CompiledPattern>, remove_empty: Box<Expr> },
}

/// What evaluation reads: the record's variables, and the host's name as read
/// once for the whole program.
pub struct Context {
    pub variables: Vec<(String, Value)>,
    pub hostname: Result<Vec<u8>, String>,
}

pub open spec fn result_model(r: Result<Value, RuntimeError>) -> Result<Model, RuntimeError> {
    match r {
        Ok(v) => Ok(v@),
        Err(e) => Err(e),
    }
}

/// The value bound to `name`: the first binding, or null where there is none.
pub open spec fn lookup(variables: Seq<(String, Value)>, name: Seq<char>) -> Model
    decreases variables.len(),
{
    if variables.len() == 0 {
        Model::Null
    } else if variables[0].0@ == name {
        variables[0].1@
    } else {
        lookup(variables.drop_first(), name)
    }
}

/// The body of `md5`: the hexadecimal MD5 digest of a byte string.
pub open spec fn md5_model(v: Model) -> Result<Model, RuntimeError> {
    match v {
        Model::Bytes(b) => Ok(Model::Bytes(hex_ascii(md5_digest(b)))),
        _ => Err(RuntimeError::ExpectedKind { expected: KIND_BYTES, found: v.kind() }),
    }
}

/// The body of `get_hostname`: the name read for the program; an empty
/// name is a failure.
pub open spec fn hostname_model(h: Result<Vec<u8>, String>) -> Result<Model, RuntimeError> {
    match h {
        Ok(name) => if name@.len() > 0 {
            Ok(Model::Bytes(name@))
        } else {
            Err(RuntimeError::EmptyHostname)
        },
        Err(reason) => Err(RuntimeError::Hostname { reason }),
    }
}

/// The captures that stay: all, or only the non-empty ones.
pub open spec fn kept(captures: Seq<(Seq<char>, Seq<u8>)>, remove_empty: bool) -> Seq<(Seq<char>, Model)>
    decreases captures.len(),
{
    if captures.len() == 0 {
        Seq::empty()
    } else {
        let c = captures.last();
        let rest = kept(captures.drop_last(), remove_empty);
        if !remove_empty || c.1.len() > 0 {
            rest.push((c.0, Model::Bytes(c.1)))
        } else {
            rest
        }
    }
}

/// The body of `parse_grok`.
pub open spec fn parse_grok_model(value: Model, remove_empty: Model, definition: Seq<char>) -> Result<Model, RuntimeError> {
    match value {
        Model::Bytes(b) => match remove_empty {
            Model::Boolean(flag) => match grok_captures(definition, utf8_lossy(b)) {
                Some(captures) => Ok(Model::Object(kept(captures, flag))),
                None => Err(RuntimeError::NoMatch),
            },
            _ => Err(RuntimeError::ExpectedKind { expected: KIND_BOOLEAN, found: remove_empty.kind() }),
        },
        _ => Err(RuntimeError::ExpectedKind { expected: KIND_BYTES, found: value.kind() }),
    }
}

pub open spec fn eval_expr(e: Expr, ctx: Context) -> Result<Model, RuntimeError>
    decreases e,
{
    match e {
        Expr::Literal(v) => Ok(v@),
        Expr::Variable(name) => Ok(lookup(ctx.variables@, name@)),
        Expr::Call(node) => eval_node(*node, ctx),
    }
}

/// Evaluation of a node: arguments left to right, the first failure ends it.
pub open spec fn eval_node(n: Node, ctx: Context) -> Result<Model, RuntimeError>
    decreases n,
{
    match n {
        Node::GetHostname => hostname_model(ctx.hostname),
        Node::Md5 { value } => match eval_expr(*value, ctx) {
            Ok(v) => md5_model(v),
            Err(e) => Err(e),
        },
        Node::ParseGrok { value, pattern, remove_empty } => match eval_expr(*value, ctx) {
            Ok(v) => match eval_expr(*remove_empty, ctx) {
                Ok(flag) => parse_grok_model(v, flag, pattern.definition()),
                Err(e) => Err(e),
            },
            Err(e) => Err(e),
        },
    }
}

pub open spec fn expr_type(e: Expr) -> TypeDef
    decreases e,
{
    match e {
        Expr::Literal(v) => TypeDef { kind: v@.kind(), fallible: false },
        Expr::Variable(_) => TypeDef { kind: KIND_ANY, fallible: false },
        Expr::Call(node) => node_type(*node),
    }
}

/// A node is fallible where an argument is, or where the body may reject an
/// argument or fail by itself.
pub open spec fn node_type(n: Node) -> TypeDef
    decreases n,
{
    match n {
        Node::GetHostname => TypeDef { kind: KIND_BYTES, fallible: true },
        Node::Md5 { value } => TypeDef {
            kind: KIND_BYTES,
            fallible: expr_type(*value).fallible || expr_type(*value).kind != KIND_BYTES,
        },
        Node::ParseGrok { .. } => TypeDef { kind: KIND_OBJECT, fallible: true },
    }
}

/// Hashes a byte string; other kinds are rejected.
pub fn md5(value: Value) -> (r: Result<Value, RuntimeError>)
    ensures
        result_model(r) == md5_model(value@),
{
    match value {
        Value::Bytes(b) => {
            let digest = md5_of(b.as_slice());
            Ok(Value::Bytes(hex_encode(digest.as_slice())))
        },
        other => Err(RuntimeError::ExpectedKind { expected: KIND_BYTES, found: other.kind() }),
    }
}

/// The host's name as read for the program.
pub fn get_hostname(ctx: &Context) -> (r: Result<Value, RuntimeError>)
    ensures
        result_model(r) == hostname_model(ctx.hostname),
        r matches Ok(Value::Bytes(b)) ==> b@.len() > 0,
        r matches Ok(v) ==> v is Bytes,
{
    match &ctx.hostname {
        Ok(name) => if name.len() > 0 {
            Ok(Value::Bytes(name.clone()))
        } else {
            Err(RuntimeError::EmptyHostname)
        },
        Err(reason) => Err(RuntimeError::Hostname { reason: reason.clone() }),
    }
}

/// Matches the text of `value` against a compiled pattern and returns the
/// captures as an object, empty ones left out where `remove_empty` is true.
pub fn parse_grok(value: Value, remove_empty: Value, pattern: &CompiledPattern) -> (r: Result<Value, RuntimeError>)
    ensures
        result_model(r) == parse_grok_model(value@, remove_empty@, pattern.definition()),
{
    let bytes = match value {
        Value::Bytes(b) => b,
        other => {
            return Err(RuntimeError::ExpectedKind { expected: KIND_BYTES, found: other.kind() });
        },
    };
    let remove_empty_flag = match remove_empty {
        Value::Boolean(f) => f,
        other => {
            return Err(RuntimeError::ExpectedKind { expected: KIND_BOOLEAN, found: other.kind() });
        },
    };
    let text = decode_lossy(bytes.as_slice());
    match pattern.captures(text.as_str()) {
        None => Err(RuntimeError::NoMatch),
        Some(captures) => Ok(captures_to_object(captures, remove_empty_flag)),
    }
}

/// The object of a match's captures, in their order; empty ones left out
/// where `remove_empty` is true.
pub fn captures_to_object(captures: Vec<(String, Vec<u8>)>, remove_empty: bool) -> (r: Value)
    ensures
        r@ == Model::Object(kept(captures@.map_values(|c: (String, Vec<u8>)| (c.0@, c.1@)), remove_empty)),
{
    let flag = remove_empty;
    let ghost cs = captures@.map_values(|c: (String, Vec<u8>)| (c.0@, c.1@));
    let mut out: Vec<(String, Value)> = Vec::new();
    let mut i: usize = 0;
    while i < captures.len()
        invariant
            i <= captures.len(),
            cs == captures@.map_values(|c: (String, Vec<u8>)| (c.0@, c.1@)),
            entries_model(out@) == kept(cs.take(i as int), flag),
        decreases captures.len() - i,
    {
        assert(cs.take(i as int + 1).drop_last() =~= cs.take(i as int));
        if !flag || captures[i].1.len() > 0 {
            let name = captures[i].0.clone();
            let data = captures[i].1.clone();
            let ghost before = out@;
            out.push((name, Value::Bytes(data)));
            assert(entries_model(out@) =~= entries_model(before).push((cs[i as int].0, Model::Bytes(cs[i as int].1))));
        }
        i = i + 1;
    }
    assert(cs.take(captures.len() as int) =~= cs);
    proof {
        lemma_object_model(out);
    }
    Value::Object(out)
}

impl Context {
    /// A context over the given variables; the host's name is read now, once
    /// for every call that the program makes.
    pub fn new(variables: Vec<(String, Value)>) -> (r: Context)
        ensures
            r.variables == variables,
    {
        Context { variables, hostname: read_hostname() }
    }

    /// A context with the host's name given.
    pub fn with_hostname(variables: Vec<(String, Value)>, hostname: Result<Vec<u8>, String>) -> (r: Context)
        ensures
            r.variables == variables,
            r.hostname == hostname,
    {
        Context { variables, hostname }
    }

    /// The value bound to `name`, or null.
    pub fn lookup(&self, name: &String) -> (r: Value)
        ensures
            r@ == lookup(self.variables@, name@),
    {
        let mut i: usize = 0;
        assert(self.variables@.skip(0) =~= self.variables@);
        while i < self.variables.len()
            invariant
                i <= self.variables.len(),
                lookup(self.variables@, name@) == lookup(self.variables@.skip(i as int), name@),
            decreases self.variables.len() - i,
        {
            assert(self.variables@.skip(i as int + 1) =~= self.variables@.skip(i as int).drop_first());
            if self.variables[i].0 == *name {
                return self.variables[i].1.duplicate();
            }
            i = i + 1;
        }
        Value::Null
    }
}

impl Expr {
    /// Evaluates the sub-expression.
    pub fn resolve(&self, ctx: &Context) -> (r: Result<Value, RuntimeError>)
        ensures
            result_model(r) == eval_expr(*self, *ctx),
        decreases self,
    {
        match self {
            Expr::Literal(v) => Ok(v.duplicate()),
            Expr::Variable(name) => Ok(ctx.lookup(name)),
            Expr::Call(node) => node.resolve(ctx),
        }
    }

    pub fn type_def(&self) -> (r: TypeDef)
        ensures
            r == expr_type(*self),
        decreases self,
    {
        match self {
            Expr::Literal(v) => TypeDef { kind: v.kind(), fallible: false },
            Expr::Variable(_) => TypeDef { kind: KIND_ANY, fallible: false },
            Expr::Call(node) => node.type_def(),
        }
    }
}

impl Node {
    /// Evaluates the arguments left to right, stopping at the first failure,
    /// then runs the function body on them.
    pub fn resolve(&self, ctx: &Context) -> (r: Result<Value, RuntimeError>)
        ensures
            result_model(r) == eval_node(*self, *ctx),
            r is Err ==> node_type(*self).fallible,
            r matches Ok(v) ==> admits(node_type(*self), v@.kind()),
        decreases self,
    {
        proof {
            lemma_node_type_sound(*self, *ctx);
        }
        match self {
            Node::GetHostname => get_hostname(ctx),
            Node::Md5 { value } => {
                let v = value.resolve(ctx)?;
                md5(v)
            },
            Node::ParseGrok { value, pattern, remove_empty } => {
                let v = value.resolve(ctx)?;
                let flag = remove_empty.resolve(ctx)?;
                parse_grok(v, flag, pattern)
            },
        }
    }

    /// The static type, computed from the node alone.
    pub fn type_def(&self) -> (r: TypeDef)
        ensures
            r == node_type(*self),
        decreases self,
    {
        match self {
            Node::GetHostname => TypeDef { kind: KIND_BYTES, fallible: true },
            Node::Md5 { value } => {
                let t = value.type_def();
                TypeDef { kind: KIND_BYTES, fallible: t.fallible || t.kind != KIND_BYTES }
            },
            Node::ParseGrok { .. } => TypeDef { kind: KIND_OBJECT, fallible: true },
        }
    }
}

/// The kind set of a type admits the kind bit `k`.
pub open spec fn admits(t: TypeDef, k: u8) -> bool {
    t.kind & k == k
}

proof fn lemma_admits_itself(k: u8)
    ensures
        k & k == k,
{
    assert(k & k == k) by (bit_vector);
}

proof fn lemma_any_admits(k: u8)
    requires
        k == 1 || k == 2 || k == 4 || k == 8 || k == 16 || k == 32,
    ensures
        63u8 & k == k,
{
    assert(63u8 & k == k) by (bit_vector)
        requires k == 1 || k == 2 || k == 4 || k == 8 || k == 16 || k == 32;
}

proof fn lemma_bytes_admits_only_bytes(k: u8)
    requires
        k == 1 || k == 2 || k == 4 || k == 8 || k == 16 || k == 32,
        1u8 & k == k,
    ensures
        k == 1,
{
    assert(k == 1) by (bit_vector)
        requires (k == 1 || k == 2 || k == 4 || k == 8 || k == 16 || k == 32) && 1u8 & k == k;
}

/// A sub-expression's static type never under-reports: where evaluation can
/// fail the type is fallible, and a value produced has a kind the type admits.
pub proof fn lemma_expr_type_sound(e: Expr, ctx: Context)
    ensures
        eval_expr(e, ctx) is Err ==> expr_type(e).fallible,
        eval_expr(e, ctx) matches Ok(v) ==> admits(expr_type(e), v.kind()),
    decreases e,
{
    match e {
        Expr::Literal(v) => {
            lemma_admits_itself(v@.kind());
        },
        Expr::Variable(name) => {
            lemma_any_admits(lookup(ctx.variables@, name@).kind());
        },
        Expr::Call(node) => {
            lemma_node_type_sound(*node, ctx);
        },
    }
}

/// A node's static type never under-reports: where `resolve` can return an
/// error, `type_def` is fallible, and a value produced has a kind it admits.
pub proof fn lemma_node_type_sound(n: Node, ctx: Context)
    ensures
        eval_node(n, ctx) is Err ==> node_type(n).fallible,
        eval_node(n, ctx) matches Ok(v) ==> admits(node_type(n), v.kind()),
    decreases n,
{
    lemma_admits_itself(KIND_BYTES);
    lemma_admits_itself(KIND_OBJECT);
    match n {
        Node::GetHostname => {},
        Node::Md5 { value } => {
            lemma_expr_type_sound(*value, ctx);
            if let Ok(v) = eval_expr(*value, ctx) {
                if !expr_type(*value).fallible && expr_type(*value).kind == KIND_BYTES {
                    lemma_bytes_admits_only_bytes(v.kind());
                }
            }
        },
        Node::ParseGrok { .. } => {},
    }
}

/// The name of a kind bit.
pub open spec fn kind_name(k: u8) -> Seq<char> {
    if k == KIND_BYTES {
        "bytes"@
    } else if k == KIND_INTEGER {
        "integer"@
    } else if k == KIND_BOOLEAN {
        "boolean"@
    } else if k == KIND_NULL {
        "null"@
    } else if k == KIND_ARRAY {
        "array"@
    } else if k == KIND_OBJECT {
        "object"@
    } else {
        "any"@
    }
}

fn kind_text(k: u8) -> (r: &'static str)
    ensures
        r@ == kind_name(k),
{
    if k == KIND_BYTES {
        "bytes"
    } else if k == KIND_INTEGER {
        "integer"
    } else if k == KIND_BOOLEAN {
        "boolean"
    } else if k == KIND_NULL {
        "null"
    } else if k == KIND_ARRAY {
        "array"
    } else if k == KIND_OBJECT {
        "object"
    } else {
        "any"
    }
}

impl RuntimeError {
    pub open spec fn spec_message(&self) -> Seq<char> {
        match self {
            RuntimeError::ExpectedKind { expected, found } =>
                "expected "@ + kind_name(*expected) + ", got "@ + kind_name(*found),
            RuntimeError::NoMatch => "unable to parse input with pattern"@,
            RuntimeError::Hostname { reason } => "failed to get hostname: "@ + reason@,
            RuntimeError::EmptyHostname => "failed to get hostname: the name is empty"@,
        }
    }

    /// A human-readable description of the failure.
    pub fn message(&self) -> (r: String)
        ensures
            r@ == self.spec_message(),
    {
        match self {
            RuntimeError::ExpectedKind { expected, found } => String::from_str("expected ")
                .concat(kind_text(*expected))
                .concat(", got ")
                .concat(kind_text(*found)),
            RuntimeError::NoMatch => String::from_str("unable to parse input with pattern"),
            RuntimeError::Hostname { reason } => String::from_str("failed to get hostname: ").concat(reason.as_str()),
            RuntimeError::EmptyHostname => String::from_str("failed to get hostname: the name is empty"),
        }
    }
}

/// The entries whose value is not the empty byte string, in order.
pub open spec fn drop_empty(entries: Seq<(Seq<char>, Model)>) -> Seq<(Seq<char>, Model)>
    decreases entries.len(),
{
    if entries.len() == 0 {
        Seq::empty()
    } else {
        let e = entries.last();
        let rest = drop_empty(entries.drop_last());
        if e.1 == Model::Bytes(Seq::empty()) {
            rest
        } else {
            rest.push(e)
        }
    }
}

proof fn lemma_kept_drop_empty(captures: Seq<(Seq<char>, Seq<u8>)>)
    ensures
        kept(captures, true) == drop_empty(kept(captures, false)),
    decreases captures.len(),
{
    if captures.len() > 0 {
        let c = captures.last();
        lemma_kept_drop_empty(captures.drop_last());
        let all = kept(captures, false);
        assert(all.drop_last() =~= kept(captures.drop_last(), false));
        if c.1.len() == 0 {
            assert(c.1 =~= Seq::<u8>::empty());
        } else {
            assert(Model::Bytes(c.1) != Model::Bytes(Seq::<u8>::empty()));
        }
    }
}

proof fn lemma_drop_empty_has_no_empty(entries: Seq<(Seq<char>, Model)>)
    ensures
        forall|i: int| 0 <= i < drop_empty(entries).len() ==> (#[trigger] drop_empty(entries)[i]).1 != Model::Bytes(Seq::empty()),
        forall|i: int| 0 <= i < drop_empty(entries).len() ==> entries.contains(#[trigger] drop_empty(entries)[i]),
    decreases entries.len(),
{
    if entries.len() > 0 {
        let rest = entries.drop_last();
        lemma_drop_empty_has_no_empty(rest);
        assert forall|i: int| 0 <= i < drop_empty(entries).len() implies entries.contains(#[trigger] drop_empty(entries)[i]) by {
            if i < drop_empty(rest).len() {
                let j = choose|j: int| 0 <= j < rest.len() && rest[j] == drop_empty(rest)[i];
                assert(entries[j] == rest[j]);
            } else {
                assert(entries[entries.len() - 1] == entries.last());
            }
        }
    }
}

/// With `remove_empty` set, `parse_grok` gives what it gives by default,
/// less the entries whose value is the empty byte string: every entry kept
/// is one of the default result's, and none is empty.
pub proof fn lemma_remove_empty_filters(value: Model, definition: Seq<char>)
    ensures
        parse_grok_model(value, Model::Boolean(true), definition) == match parse_grok_model(value, Model::Boolean(false), definition) {
            Ok(Model::Object(o)) => Ok(Model::Object(drop_empty(o))),
            other => other,
        },
        parse_grok_model(value, Model::Boolean(false), definition) matches Ok(Model::Object(o)) ==> (
            forall|i: int| 0 <= i < drop_empty(o).len() ==> (#[trigger] drop_empty(o)[i]).1 != Model::Bytes(Seq::empty())
                && o.contains(drop_empty(o)[i])),
{
    if let Model::Bytes(b) = value {
        if let Some(captures) = grok_captures(definition, utf8_lossy(b)) {
            lemma_kept_drop_empty(captures);
            lemma_drop_empty_has_no_empty(kept(captures, false));
        }
    }
}

} // verus!
