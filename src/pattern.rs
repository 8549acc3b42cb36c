//! Grok patterns: compiled once from their definition, then matched against text.
use vstd::prelude::*;
use crate::functions::CompileContext;

verus! {

#[verifier::external_type_specification]
#[verifier::external_body]
pub struct ExGrokPattern(grok::Pattern);

/// Whether a definition compiles against the default pattern set.
pub uninterp spec fn grok_accepts(definition: Seq<char>) -> bool;

/// Grok's description of why a definition does not compile.
pub uninterp spec fn grok_error_of(definition: Seq<char>) -> Seq<char>;

/// The named captures (name, captured bytes) of the pattern compiled from
/// `definition` on `text`, or `None` where it does not match.
pub uninterp spec fn grok_captures(definition: Seq<char>, text: Seq<char>) -> Option<
    Seq<(Seq<char>, Seq<u8>)>,
>;

/// The text a byte string decodes to, invalid sequences replaced.
pub uninterp spec fn utf8_lossy(data: Seq<u8>) -> Seq<char>;

/// Relies on `String::from_utf8_lossy`: the decoded text depends on the bytes alone.
#[verifier::external_body]
pub(crate) fn decode_lossy(data: &[u8]) -> (r: String)
    ensures
        r@ == utf8_lossy(data@),
{
    String::from_utf8_lossy(data).into_owned()
}

/// Relies on `grok::Grok::with_default_patterns`, `grok::Grok::compile`
/// (aliases only) and `grok::Error`'s `Display`: compiling succeeds exactly
/// for the accepted definitions, and a failure's text depends on the
/// definition alone.
#[verifier::external_body]
fn grok_compile(definition: &str) -> (r: Result<grok::Pattern, String>)
    ensures
        r.is_ok() == grok_accepts(definition@),
        r matches Err(m) ==> m@ == grok_error_of(definition@),
{
    grok::Grok::with_default_patterns().compile(definition, true).map_err(|e| e.to_string())
}

/// A grok pattern compiled from its definition. The only way to build one is
/// [`CompiledPattern::compile`], so `pattern` is always the compiled form of
/// `definition`.
#[derive(Debug)]
pub struct CompiledPattern {
    definition: String,
    pattern: grok::Pattern,
}

/// Relies on `grok::Pattern::match_against` and `grok::Matches::iter`: the
/// captures of a match, each value as its bytes.
#[verifier::external_body]
fn grok_match(p: &CompiledPattern, text: &str) -> (r: Option<Vec<(String, Vec<u8>)>>)
    ensures
        r.is_some() == grok_captures(p.definition(), text@).is_some(),
        r.is_some() ==> r.unwrap()@.map_values(|c: (String, Vec<u8>)| (c.0@, c.1@))
            == grok_captures(p.definition(), text@).unwrap(),
{
    p.pattern.match_against(text).map(
        |m| m.iter().map(|(name, value)| (name.to_string(), value.as_bytes().to_vec())).collect(),
    )
}

impl CompiledPattern {
    /// The definition this pattern was compiled from.
    pub closed spec fn definition(&self) -> Seq<char> {
        self.definition@
    }

    /// Compiles a definition; on failure the error holds grok's description.
    /// Every compilation is counted in the compile context: a pattern cannot
    /// be compiled without one, so evaluation never compiles.
    pub fn compile(definition: String, ctx: &mut CompileContext) -> (r: Result<CompiledPattern, String>)
        requires
            old(ctx).specializations < u64::MAX,
        ensures
            r.is_ok() == grok_accepts(definition@),
            r matches Ok(p) ==> p.definition() == definition@,
            r matches Err(m) ==> m@ == grok_error_of(definition@),
            final(ctx).specializations == old(ctx).specializations + 1,
    {
        ctx.specializations = ctx.specializations + 1;
        match grok_compile(definition.as_str()) {
            Ok(pattern) => Ok(CompiledPattern { definition, pattern }),
            Err(message) => Err(message),
        }
    }

    /// Matches the pattern against `text`.
    pub fn captures(&self, text: &str) -> (r: Option<Vec<(String, Vec<u8>)>>)
        ensures
            r.is_some() == grok_captures(self.definition(), text@).is_some(),
            r.is_some() ==> r.unwrap()@.map_values(|c: (String, Vec<u8>)| (c.0@, c.1@))
                == grok_captures(self.definition(), text@).unwrap(),
    {
        grok_match(self, text)
    }
}

} // verus!
