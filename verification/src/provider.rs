//! The closed set of vendor backends, their text codes and their service addresses.

use vstd::prelude::*;
use crate::error::JvcError;
use crate::text::same_text;

verus! {

/// A vendor backend that builds can be listed and fetched from.
#[derive(Debug, Clone, Copy, PartialEq, Eq, Structural, PartialOrd, Ord, Hash)]
pub enum Provider {
    AdoptOpenJDK,
    Azul,
}

/// The text code under which a provider appears in directory names and on the command line.
pub open spec fn provider_code(p: Provider) -> Seq<char> {
    match p {
        Provider::AdoptOpenJDK => "adoptopenjdk"@,
        Provider::Azul => "azul"@,
    }
}

/// The provider that a text code names, if any.
pub open spec fn provider_of_code(code: Seq<char>) -> Option<Provider> {
    if code == "adoptopenjdk"@ {
        Some(Provider::AdoptOpenJDK)
    } else if code == "azul"@ {
        Some(Provider::Azul)
    } else {
        None
    }
}

/// The address below which a provider's service answers.
pub open spec fn provider_base_url(p: Provider) -> Seq<char> {
    match p {
        Provider::AdoptOpenJDK => "https://api.adoptopenjdk.net/v3"@,
        Provider::Azul => "https://api.azul.com/zulu/download/community/v1.0"@,
    }
}

/// Each provider is found again from its own code.
pub proof fn lemma_provider_code_round_trip(p: Provider)
    ensures
        provider_of_code(provider_code(p)) == Some(p),
{
    reveal_strlit("adoptopenjdk");
    reveal_strlit("azul");
    assert("adoptopenjdk"@.len() != "azul"@.len());
}

/// No provider code holds a dash.
pub proof fn lemma_provider_code_has_no_dash(p: Provider)
    ensures
        !provider_code(p).contains('-'),
{
    reveal_strlit("adoptopenjdk");
    reveal_strlit("azul");
}

impl Provider {
    /// The provider's text code.
    pub fn as_str(&self) -> (code: String)
        ensures
            code@ == provider_code(*self),
    {
        match self {
            Provider::AdoptOpenJDK => "adoptopenjdk".to_owned(),
            Provider::Azul => "azul".to_owned(),
        }
    }

    /// The provider that `code` names. A text that is no provider's code is
    /// refused with `UnknownProviderCode`.
    pub fn from_code(code: &str) -> (r: Result<Provider, JvcError>)
        ensures
            r == match provider_of_code(code@) {
                Some(p) => Ok::<Provider, JvcError>(p),
                None => Err::<Provider, JvcError>(JvcError::UnknownProviderCode),
            },
    {
        if same_text(code, "adoptopenjdk") {
            Ok(Provider::AdoptOpenJDK)
        } else if same_text(code, "azul") {
            Ok(Provider::Azul)
        } else {
            Err(JvcError::UnknownProviderCode)
        }
    }

    /// The address below which the provider's service answers.
    pub fn base_url(&self) -> (url: String)
        ensures
            url@ == provider_base_url(*self),
    {
        match self {
            Provider::AdoptOpenJDK => "https://api.adoptopenjdk.net/v3".to_owned(),
            Provider::Azul => "https://api.azul.com/zulu/download/community/v1.0".to_owned(),
        }
    }

    /// The provider's text code, for display.
    pub fn to_string(&self) -> (code: String)
        ensures
            code@ == provider_code(*self),
    {
        self.as_str()
    }
}

impl std::str::FromStr for Provider {
    type Err = String;

    fn from_str(provider_name: &str) -> (r: Result<Provider, String>)
        ensures
            match provider_of_code(provider_name@) {
                Some(p) => r == Ok::<Provider, String>(p),
                None => r is Err,
            },
    {
        match Provider::from_code(provider_name) {
            Ok(p) => Ok(p),
            Err(_) => Err("Cannot parse provider name ".to_owned().concat(provider_name)),
        }
    }
}

} // verus!
