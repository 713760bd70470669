//! The decisions behind the `#[test]` attribute macros: which harness a test
//! runs under, and where a test's random seed comes from.
//!
//! The token streams themselves are produced outside the library; these
//! functions decide what goes into them.

use vstd::prelude::*;

use crate::strings::str_eq;

verus! {

/// The harness that a Neovim test function expands to.
#[derive(Clone, Copy, Debug, PartialEq, Eq, Structural)]
pub struct TestHarness {
    /// The test function runs asynchronously: it expands to `async_test`,
    /// takes a terminator argument and loses its declared output.
    pub is_async: bool,
}

impl TestHarness {
    /// The harness of a test function, by whether it is `async`.
    pub fn of(is_async: bool) -> (harness: TestHarness)
        ensures
            harness.is_async == is_async,
    {
        TestHarness { is_async }
    }

    /// The name of the expansion function: `sync_test` or `async_test`.
    pub fn expand_fn(&self) -> (name: &'static str)
        ensures
            name@ == if self.is_async {
                "async_test"@
            } else {
                "sync_test"@
            },
    {
        if self.is_async {
            "async_test"
        } else {
            "sync_test"
        }
    }

    /// Whether the generated test takes a terminator argument.
    pub fn takes_terminator(&self) -> (b: bool)
        ensures
            b == self.is_async,
    {
        self.is_async
    }

    /// Whether the generated test keeps the declared output type.
    pub fn keeps_output(&self) -> (b: bool)
        ensures
            b == !self.is_async,
    {
        !self.is_async
    }
}

/// The first parameter of a test function, as the macro sees it.
pub enum FirstParam {
    /// The function takes no parameter.
    Absent,
    /// A `self` receiver.
    Receiver,
    /// A typed parameter whose pattern is not an identifier.
    TypedPattern,
    /// A typed parameter bound to an identifier.
    TypedIdent(String),
}

/// Where the seed of a test's random generator comes from.
#[derive(Debug)]
pub enum Seed {
    /// The test takes no generator.
    Absent,
    /// A random seed, drawn when the test starts.
    RandomlyGenerated,
    /// A seed given in the attribute.
    Specified(SpecifiedSeed),
}

/// A seed given in a test's attribute.
#[derive(Debug)]
pub enum SpecifiedSeed {
    /// An integer literal, as written.
    Literal(String),
    /// The value of the `SEED` environment variable.
    FromEnv,
}

/// Why the first parameter of a test cannot carry a seed.
#[derive(Clone, Copy, Debug, PartialEq, Eq, Structural)]
pub enum SeedError {
    /// The parameter is a receiver: "expected a typed argument".
    ExpectedTypedArgument,
    /// The parameter's pattern is not an identifier: "expected an identifier".
    ExpectedIdentifier,
}

/// The seed of a test, from its first parameter: none without parameters, a
/// random one when the parameter is named `gen`, none for any other name.
pub fn seed_of_first_param(first: &FirstParam) -> (seed: Result<Seed, SeedError>)
    ensures
        match first {
            FirstParam::Absent => seed matches Ok(Seed::Absent),
            FirstParam::Receiver => seed == Err::<Seed, SeedError>(
                SeedError::ExpectedTypedArgument,
            ),
            FirstParam::TypedPattern => seed == Err::<Seed, SeedError>(
                SeedError::ExpectedIdentifier,
            ),
            FirstParam::TypedIdent(name) => if name@ == "gen"@ {
                seed matches Ok(Seed::RandomlyGenerated)
            } else {
                seed matches Ok(Seed::Absent)
            },
        },
{
    match first {
        FirstParam::Absent => Ok(Seed::Absent),
        FirstParam::Receiver => Err(SeedError::ExpectedTypedArgument),
        FirstParam::TypedPattern => Err(SeedError::ExpectedIdentifier),
        FirstParam::TypedIdent(name) => {
            if str_eq(name.as_str(), "gen") {
                Ok(Seed::RandomlyGenerated)
            } else {
                Ok(Seed::Absent)
            }
        },
    }
}

impl Seed {
    /// Whether the test gets a generator built from the seed, and reports
    /// the seed when it fails.
    pub fn uses_generator(&self) -> (b: bool)
        ensures
            b == !(self is Absent),
    {
        match self {
            Seed::Absent => false,
            _ => true,
        }
    }
}

/// A token at the start of a seed attribute.
pub enum SeedToken {
    /// An integer literal, as written.
    IntLiteral(String),
    /// The `$` sign.
    Dollar,
    /// An identifier.
    Ident(String),
    /// Anything else.
    Other,
}

/// Why a seed attribute could not be read.
#[derive(Clone, Copy, Debug, PartialEq, Eq, Structural)]
pub enum SpecifiedSeedError {
    /// Neither an integer nor `$` comes first.
    ExpectedDollar,
    /// No identifier follows the `$`.
    ExpectedIdent,
    /// The identifier after `$` is not `SEED`: "expected `$SEED` or an
    /// integer".
    ExpectedSeedOrInteger,
}

/// Reads a seed attribute: an integer literal, or `$SEED`.
pub fn parse_specified_seed(tokens: &Vec<SeedToken>) -> (seed: Result<
    SpecifiedSeed,
    SpecifiedSeedError,
>)
    ensures
        tokens@.len() > 0 && tokens@[0] is IntLiteral ==> (seed matches Ok(
            SpecifiedSeed::Literal(lit),
        ) && lit@ == tokens@[0]->IntLiteral_0@),
        (tokens@.len() == 0 || !(tokens@[0] is IntLiteral || tokens@[0] is Dollar)) ==> seed
            == Err::<SpecifiedSeed, SpecifiedSeedError>(SpecifiedSeedError::ExpectedDollar),
        tokens@.len() > 0 && tokens@[0] is Dollar ==> if tokens@.len() < 2 || !(
        tokens@[1] is Ident) {
            seed == Err::<SpecifiedSeed, SpecifiedSeedError>(SpecifiedSeedError::ExpectedIdent)
        } else if tokens@[1]->Ident_0@ == "SEED"@ {
            seed matches Ok(SpecifiedSeed::FromEnv)
        } else {
            seed == Err::<SpecifiedSeed, SpecifiedSeedError>(
                SpecifiedSeedError::ExpectedSeedOrInteger,
            )
        },
{
    if tokens.len() == 0 {
        return Err(SpecifiedSeedError::ExpectedDollar);
    }
    match &tokens[0] {
        SeedToken::IntLiteral(lit) => {
            return Ok(SpecifiedSeed::Literal(lit.as_str().to_owned()));
        },
        SeedToken::Dollar => {},
        _ => {
            return Err(SpecifiedSeedError::ExpectedDollar);
        },
    }
    if tokens.len() < 2 {
        return Err(SpecifiedSeedError::ExpectedIdent);
    }
    match &tokens[1] {
        SeedToken::Ident(name) => {
            if str_eq(name.as_str(), "SEED") {
                Ok(SpecifiedSeed::FromEnv)
            } else {
                Err(SpecifiedSeedError::ExpectedSeedOrInteger)
            }
        },
        _ => Err(SpecifiedSeedError::ExpectedIdent),
    }
}

} // verus!
