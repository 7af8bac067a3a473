use vstd::prelude::*;

use crate::errors::LoadError;

verus! {

/// What url::Url::parse makes of a specifier text: the serialization of the
/// parsed URL, or nothing when the text is not a well-formed absolute URL.
/// The outcome depends on the text alone.
pub uninterp spec fn parsed_specifier(s: Seq<char>) -> Option<Seq<char>>;

/// Relies on url::Url::parse: whether a specifier parses, and the
/// serialization of the parsed URL, are functions of the input text.
#[verifier::external_body]
fn parse_specifier_text(s: &str) -> (r: Option<String>)
    ensures
        r is Some <==> parsed_specifier(s@) is Some,
        r matches Some(t) ==> t@ == parsed_specifier(s@).unwrap(),
{
    match url::Url::parse(s) {
        Ok(u) => Some(u.as_str().to_owned()),
        Err(_) => None,
    }
}

/// What url::Url::parse followed by url::Url::join makes of a specifier
/// resolved against its referrer: the serialization of the joined URL, or
/// nothing when the referrer is not a URL or the pair does not join.  An
/// absolute specifier stands alone; a relative one is joined to the
/// referrer.  The outcome depends on the two texts alone.
pub uninterp spec fn resolved_against(spec: Seq<char>, referrer: Seq<char>) -> Option<Seq<char>>;

/// Relies on url::Url::parse and url::Url::join: resolving a specifier
/// against its referrer as base URL is a function of the two texts.
#[verifier::external_body]
fn join_specifier_text(spec: &str, referrer: &str) -> (r: Option<String>)
    ensures
        r is Some <==> resolved_against(spec@, referrer@) is Some,
        r matches Some(t) ==> t@ == resolved_against(spec@, referrer@).unwrap(),
{
    match url::Url::parse(referrer) {
        Ok(base) => match base.join(spec) {
            Ok(u) => Some(u.as_str().to_owned()),
            Err(_) => None,
        },
        Err(_) => None,
    }
}

/// A module specifier: the serialization of an absolute URL naming one
/// module.  Values are built only by [`ModuleSpecifier::resolve`] and
/// [`ModuleSpecifier::resolve_import`], so the text is always a URL the
/// parser accepted.
#[derive(Debug)]
pub struct ModuleSpecifier {
    text: String,
}

impl View for ModuleSpecifier {
    type V = Seq<char>;

    closed spec fn view(&self) -> Seq<char> {
        self.text@
    }
}

impl Clone for ModuleSpecifier {
    fn clone(&self) -> (r: Self)
        ensures
            r@ == self@,
    {
        ModuleSpecifier { text: self.text.clone() }
    }
}

impl ModuleSpecifier {
    /// Parses `input` as a module specifier.  Succeeds exactly when the text
    /// is a well-formed absolute URL; anything else is rejected with
    /// `LoadError::InvalidSpecifier`.
    pub fn resolve(input: &str) -> (r: Result<ModuleSpecifier, LoadError>)
        ensures
            r is Ok <==> parsed_specifier(input@) is Some,
            r matches Ok(m) ==> m@ == parsed_specifier(input@).unwrap(),
            r is Err ==> r == Err::<ModuleSpecifier, LoadError>(LoadError::InvalidSpecifier),
    {
        match parse_specifier_text(input) {
            Some(t) => Ok(ModuleSpecifier { text: t }),
            None => Err(LoadError::InvalidSpecifier),
        }
    }

    /// Resolves `input` against the module that requested it: `referrer` is
    /// the base URL, so a relative specifier is joined to it and an absolute
    /// one stands alone.  Rejected with `LoadError::InvalidSpecifier` exactly
    /// when the pair does not resolve to a URL.
    pub fn resolve_import(input: &str, referrer: &str) -> (r: Result<ModuleSpecifier, LoadError>)
        ensures
            r is Ok <==> resolved_against(input@, referrer@) is Some,
            r matches Ok(m) ==> m@ == resolved_against(input@, referrer@).unwrap(),
            r is Err ==> r == Err::<ModuleSpecifier, LoadError>(LoadError::InvalidSpecifier),
    {
        match join_specifier_text(input, referrer) {
            Some(t) => Ok(ModuleSpecifier { text: t }),
            None => Err(LoadError::InvalidSpecifier),
        }
    }

    /// The specifier text.
    pub fn as_str(&self) -> (r: &str)
        ensures
            r@ == self@,
    {
        self.text.as_str()
    }

    /// Whether two specifiers name the same module.
    pub fn same_as(&self, other: &ModuleSpecifier) -> (r: bool)
        ensures
            r == (self@ == other@),
    {
        self.text == other.text
    }
}

} // verus!
