//! Binding a call site's named arguments to a function's parameters.
use vstd::prelude::*;
use crate::diagnostic::{CompileError, Span};
use crate::eval::Expr;
use crate::value::Value;

verus! {

/// A declared parameter: its keyword, the kinds it accepts, whether it must
/// be given.
#[derive(Debug)]
pub struct Parameter {
    pub keyword: String,
    pub kind: u8,
    pub required: bool,
}

/// A named argument of a call site.
#[derive(Debug)]
pub struct Argument {
    pub keyword: String,
    pub expr: Expr,
    pub span: Span,
}

/// The arguments of a call site, bound to the function's parameters.
#[derive(Debug)]
pub struct ArgumentList {
    pub arguments: Vec<Argument>,
    pub span: Span,
}

/// Some argument has the keyword.
pub open spec fn names(args: Seq<Argument>, keyword: Seq<char>) -> bool {
    exists|i: int| 0 <= i < args.len() && (#[trigger] args[i]).keyword@ == keyword
}

/// `i` is the first argument with the keyword.
pub open spec fn is_first(args: Seq<Argument>, keyword: Seq<char>, i: int) -> bool {
    &&& 0 <= i < args.len()
    &&& args[i].keyword@ == keyword
    &&& forall|j: int| 0 <= j < i ==> (#[trigger] args[j]).keyword@ != keyword
}

/// The position of the first argument with the keyword.
pub open spec fn first(args: Seq<Argument>, keyword: Seq<char>) -> int {
    choose|i: int| is_first(args, keyword, i)
}

/// The expression of the first argument with the keyword.
pub open spec fn bound(args: Seq<Argument>, keyword: Seq<char>) -> Expr {
    args[first(args, keyword)].expr
}

/// A parameter list as keywords and whether each is required.
pub open spec fn signature(params: Seq<Parameter>) -> Seq<(Seq<char>, bool)> {
    params.map_values(|p: Parameter| (p.keyword@, p.required))
}

/// Some parameter has the keyword.
pub open spec fn declares(sig: Seq<(Seq<char>, bool)>, keyword: Seq<char>) -> bool {
    exists|j: int| 0 <= j < sig.len() && (#[trigger] sig[j]).0 == keyword
}

/// Every argument names a parameter, and every required parameter is given.
pub open spec fn binds(sig: Seq<(Seq<char>, bool)>, args: Seq<Argument>) -> bool {
    &&& forall|i: int| 0 <= i < args.len() ==> declares(sig, (#[trigger] args[i]).keyword@)
    &&& forall|j: int| 0 <= j < sig.len() && (#[trigger] sig[j]).1 ==> names(args, sig[j].0)
}

pub proof fn lemma_first(args: Seq<Argument>, keyword: Seq<char>, i: int)
    requires
        is_first(args, keyword, i),
    ensures
        first(args, keyword) == i,
        names(args, keyword),
{
    let k = first(args, keyword);
    assert(is_first(args, keyword, k));
    if k < i {
        assert(args[k].keyword@ != keyword);
    }
    if i < k {
        assert(args[i].keyword@ != keyword);
    }
}

pub proof fn lemma_names_first(args: Seq<Argument>, keyword: Seq<char>)
    requires
        names(args, keyword),
    ensures
        is_first(args, keyword, first(args, keyword)),
    decreases args.len(),
{
    let i = choose|i: int| 0 <= i < args.len() && (#[trigger] args[i]).keyword@ == keyword;
    if exists|j: int| 0 <= j < i && (#[trigger] args[j]).keyword@ == keyword {
        let j = choose|j: int| 0 <= j < i && (#[trigger] args[j]).keyword@ == keyword;
        let front = args.take(i);
        assert(front[j] == args[j]);
        lemma_names_first(front, keyword);
        let k = first(front, keyword);
        assert(front[k] == args[k]);
        assert forall|m: int| 0 <= m < k implies (#[trigger] args[m]).keyword@ != keyword by {
            assert(front[m] == args[m]);
        }
        assert(is_first(args, keyword, k));
        lemma_first(args, keyword, k);
    } else {
        assert(is_first(args, keyword, i));
        lemma_first(args, keyword, i);
    }
}

/// Taking one argument out keeps the first argument of every other keyword.
pub proof fn lemma_remove_keeps(args: Seq<Argument>, k: int, keyword: Seq<char>)
    requires
        0 <= k < args.len(),
        args[k].keyword@ != keyword,
    ensures
        names(args.remove(k), keyword) == names(args, keyword),
        names(args, keyword) ==> args.remove(k)[first(args.remove(k), keyword)] == args[first(args, keyword)]
            && bound(args.remove(k), keyword) == bound(args, keyword),
{
    let rest = args.remove(k);
    if names(args, keyword) {
        lemma_names_first(args, keyword);
        let i = first(args, keyword);
        let i2 = if k < i { i - 1 } else { i };
        assert(rest[i2] == args[i]);
        assert forall|j: int| 0 <= j < i2 implies (#[trigger] rest[j]).keyword@ != keyword by {
            if j < k {
                assert(rest[j] == args[j]);
            } else {
                assert(rest[j] == args[j + 1]);
            }
        }
        assert(is_first(rest, keyword, i2));
        lemma_first(rest, keyword, i2);
    }
    if names(rest, keyword) {
        let j = choose|j: int| 0 <= j < rest.len() && (#[trigger] rest[j]).keyword@ == keyword;
        if j < k {
            assert(args[j] == rest[j]);
        } else {
            assert(args[j + 1] == rest[j]);
        }
    }
}

impl ArgumentList {
    /// Binds a call site's arguments to the parameters. Fails on the first
    /// argument that names no parameter, else on the first required
    /// parameter that has no argument.
    pub fn bind(parameters: &Vec<Parameter>, arguments: Vec<Argument>, span: Span) -> (r: Result<ArgumentList, CompileError>)
        ensures
            r is Ok <==> binds(signature(parameters@), arguments@),
            r matches Ok(list) ==> list.arguments == arguments && list.span == span,
            r matches Err(e) ==> match e {
                CompileError::UnknownKeyword { keyword, .. } =>
                    names(arguments@, keyword@) && !declares(signature(parameters@), keyword@),
                CompileError::MissingArgument { keyword, .. } =>
                    declares(signature(parameters@), keyword@) && !names(arguments@, keyword@),
                _ => false,
            },
    {
        let mut i: usize = 0;
        while i < arguments.len()
            invariant
                i <= arguments.len(),
                forall|k: int| 0 <= k < i ==> declares(signature(parameters@), (#[trigger] arguments@[k]).keyword@),
            decreases arguments.len() - i,
        {
            let mut j: usize = 0;
            let mut found = false;
            while j < parameters.len() && !found
                invariant
                    j <= parameters.len(),
                    i < arguments.len(),
                    found ==> declares(signature(parameters@), arguments@[i as int].keyword@),
                    !found ==> forall|m: int| 0 <= m < j ==> (#[trigger] parameters@[m]).keyword@ != arguments@[i as int].keyword@,
                decreases parameters.len() - j,
            {
                if parameters[j].keyword == arguments[i].keyword {
                    found = true;
                    assert(signature(parameters@)[j as int].0 == arguments@[i as int].keyword@);
                }
                j = j + 1;
            }
            if !found {
                assert(names(arguments@, arguments@[i as int].keyword@));
                assert forall|m: int| 0 <= m < signature(parameters@).len() implies (#[trigger] signature(parameters@)[m]).0 != arguments@[i as int].keyword@ by {
                    assert(signature(parameters@)[m].0 == parameters@[m].keyword@);
                }
                return Err(CompileError::UnknownKeyword { keyword: arguments[i].keyword.clone(), span: arguments[i].span });
            }
            i = i + 1;
        }
        let mut j: usize = 0;
        while j < parameters.len()
            invariant
                j <= parameters.len(),
                forall|k: int| 0 <= k < arguments.len() ==> declares(signature(parameters@), (#[trigger] arguments@[k]).keyword@),
                forall|m: int| 0 <= m < j && (#[trigger] signature(parameters@)[m]).1 ==> names(arguments@, signature(parameters@)[m].0),
            decreases parameters.len() - j,
        {
            if parameters[j].required {
                let mut k: usize = 0;
                let mut found = false;
                while k < arguments.len() && !found
                    invariant
                        k <= arguments.len(),
                        j < parameters.len(),
                        found ==> names(arguments@, parameters@[j as int].keyword@),
                        !found ==> forall|m: int| 0 <= m < k ==> (#[trigger] arguments@[m]).keyword@ != parameters@[j as int].keyword@,
                    decreases arguments.len() - k,
                {
                    if arguments[k].keyword == parameters[j].keyword {
                        found = true;
                    }
                    k = k + 1;
                }
                if !found {
                    assert(signature(parameters@)[j as int].0 == parameters@[j as int].keyword@);
                    assert(declares(signature(parameters@), parameters@[j as int].keyword@));
                    return Err(CompileError::MissingArgument { keyword: parameters[j].keyword.clone(), span });
                }
            }
            j = j + 1;
        }
        Ok(ArgumentList { arguments, span })
    }

    /// The position of the first argument with the keyword.
    fn position(&self, keyword: &String) -> (r: Option<usize>)
        ensures
            r matches Some(i) ==> is_first(self.arguments@, keyword@, i as int),
            r is None ==> !names(self.arguments@, keyword@),
    {
        let mut i: usize = 0;
        while i < self.arguments.len()
            invariant
                i <= self.arguments.len(),
                forall|j: int| 0 <= j < i ==> (#[trigger] self.arguments@[j]).keyword@ != keyword@,
            decreases self.arguments.len() - i,
        {
            if self.arguments[i].keyword == *keyword {
                return Some(i);
            }
            i = i + 1;
        }
        None
    }

    /// Takes the first argument with the keyword out of the list.
    pub fn take(&mut self, keyword: &String) -> (r: Option<Argument>)
        ensures
            r is Some <==> names(old(self).arguments@, keyword@),
            r matches Some(a) ==> a == old(self).arguments@[first(old(self).arguments@, keyword@)]
                && final(self).arguments@ == old(self).arguments@.remove(first(old(self).arguments@, keyword@)),
            r is None ==> final(self).arguments@ == old(self).arguments@,
            final(self).span == old(self).span,
    {
        match self.position(keyword) {
            Some(i) => {
                proof {
                    lemma_first(self.arguments@, keyword@, i as int);
                }
                Some(self.arguments.remove(i))
            },
            None => None,
        }
    }

    /// The expression of a required argument; binding has made sure that it
    /// is there.
    pub fn required(&mut self, keyword: &String) -> (r: Expr)
        requires
            names(old(self).arguments@, keyword@),
        ensures
            r == bound(old(self).arguments@, keyword@),
            final(self).arguments@ == old(self).arguments@.remove(first(old(self).arguments@, keyword@)),
            final(self).span == old(self).span,
    {
        match self.take(keyword) {
            Some(a) => a.expr,
            None => Expr::Literal(Value::Null),
        }
    }

    /// The expression of an optional argument, if given.
    pub fn optional(&mut self, keyword: &String) -> (r: Option<Expr>)
        ensures
            r is Some <==> names(old(self).arguments@, keyword@),
            r matches Some(e) ==> e == bound(old(self).arguments@, keyword@)
                && final(self).arguments@ == old(self).arguments@.remove(first(old(self).arguments@, keyword@)),
            r is None ==> final(self).arguments@ == old(self).arguments@,
            final(self).span == old(self).span,
    {
        match self.take(keyword) {
            Some(a) => Some(a.expr),
            None => None,
        }
    }

    /// The value of an argument that must be a literal. Any other expression
    /// is rejected here, at compile time, and never evaluated.
    pub fn required_literal(&mut self, keyword: &String) -> (r: Result<Value, CompileError>)
        requires
            names(old(self).arguments@, keyword@),
        ensures
            r is Ok <==> bound(old(self).arguments@, keyword@) is Literal,
            r matches Ok(v) ==> bound(old(self).arguments@, keyword@) == Expr::Literal(v),
            r matches Err(e) ==> e == (CompileError::ExpectedLiteral {
                keyword: *keyword,
                span: old(self).arguments@[first(old(self).arguments@, keyword@)].span,
            }),
            final(self).arguments@ == old(self).arguments@.remove(first(old(self).arguments@, keyword@)),
            final(self).span == old(self).span,
    {
        match self.take(keyword) {
            Some(a) => match a.expr {
                Expr::Literal(v) => Ok(v),
                _ => Err(CompileError::ExpectedLiteral { keyword: keyword.clone(), span: a.span }),
            },
            None => Err(CompileError::ExpectedLiteral { keyword: keyword.clone(), span: self.span }),
        }
    }
}

} // verus!
