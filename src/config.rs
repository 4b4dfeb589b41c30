use vstd::prelude::*;

use crate::error::{EngineError, ValueShape};
use crate::signature::{copy_string, Visibility};

verus! {

/// One option token: a key, with or without `= value`.
#[derive(PartialEq, Eq, Clone, Debug)]
pub struct OptionToken {
    pub key: String,
    pub value: Option<String>,
}

/// The interface name given first in the option list, with its visibility.
#[derive(PartialEq, Eq, Clone, Debug)]
pub struct TraitName {
    pub vis: Visibility,
    pub ident: String,
}

/// How asynchronous methods are represented in the interface.
#[derive(PartialEq, Eq, Structural, Clone, Copy, Debug)]
pub enum AsyncMode {
    /// No asynchronous adaptation.
    Plain,
    AsyncTrait,
    AssociatedFuture,
}

/// How the wrapper type satisfies the interface.
#[derive(PartialEq, Eq, Clone, Debug)]
pub enum DelegateBy {
    /// The inner value itself implements the interface.
    SelfBound,
    /// The inner value can be viewed as a dynamic interface reference.
    RefUpcast,
    /// A selector interface of this name picks the implementing type.
    Named(String),
}

/// The mock library that mock surfaces are requested for.
#[derive(PartialEq, Eq, Structural, Clone, Copy, Debug)]
pub enum MockLibrary {
    /// No mock library is in use.
    Absent,
    Mockall,
    Unimock,
}

/// The recognised option keys.
#[derive(PartialEq, Eq, Structural, Clone, Copy, Debug)]
pub enum OptionKey {
    NoDeps,
    Export,
    Debug,
    Mockable,
    MockSurfaceName,
    DelegateBy,
    AsyncMode,
    SendOptOut,
}

/// One resolved option.
#[derive(PartialEq, Eq, Clone, Debug)]
pub enum Extension {
    NoDeps(bool),
    Export(bool),
    Debug(bool),
    Mockable(bool),
    MockSurfaceName(String),
    DelegateBy(DelegateBy),
    AsyncMode(AsyncMode),
    SendOptOut(bool),
}

/// The resolved configuration of one declaration.
#[derive(PartialEq, Eq, Clone, Debug)]
pub struct EntraitAttr {
    pub trait_ident: Option<String>,
    pub trait_visibility: Visibility,
    pub debug: bool,
    pub async_mode: AsyncMode,
    pub mockable: bool,
    pub mock_surface_name: Option<String>,
    pub mock_library: MockLibrary,
    pub delegate_by: DelegateBy,
    pub no_deps: bool,
    pub export: bool,
    pub send_opt_out: bool,
}

/// The key a string names, if it names one.
pub open spec fn key_spec(k: Seq<char>) -> Option<OptionKey> {
    if k == "no_deps"@ {
        Some(OptionKey::NoDeps)
    } else if k == "export"@ {
        Some(OptionKey::Export)
    } else if k == "debug"@ {
        Some(OptionKey::Debug)
    } else if k == "mockable"@ {
        Some(OptionKey::Mockable)
    } else if k == "mock_surface_name"@ {
        Some(OptionKey::MockSurfaceName)
    } else if k == "delegate_by"@ {
        Some(OptionKey::DelegateBy)
    } else if k == "async_mode"@ {
        Some(OptionKey::AsyncMode)
    } else if k == "send_opt_out"@ {
        Some(OptionKey::SendOptOut)
    } else {
        None
    }
}

/// The token's value is read as an identifier: only `mock_surface_name` and
/// `delegate_by` take one.
pub open spec fn reads_ident(tok: OptionToken) -> bool {
    &&& tok.value is Some
    &&& key_spec(tok.key@) == Some(OptionKey::MockSurfaceName) || key_spec(tok.key@) == Some(
        OptionKey::DelegateBy,
    )
}

/// A letter, a digit or `_`, in ASCII.
pub open spec fn ascii_word_char(c: char) -> bool {
    ('a' <= c <= 'z') || ('A' <= c <= 'Z') || ('0' <= c <= '9') || c == '_'
}

/// A plain ASCII identifier: a letter or `_`, then letters, digits or `_`.
pub open spec fn plain_ascii_ident(s: Seq<char>) -> bool {
    &&& s.len() > 0
    &&& !('0' <= s[0] <= '9')
    &&& forall|i: int| 0 <= i < s.len() ==> ascii_word_char(#[trigger] s[i])
}

/// The words syn refuses to read as an identifier.
pub open spec fn syn_reserved(s: Seq<char>) -> bool {
    s == "_"@
    || s == "abstract"@
    || s == "as"@
    || s == "become"@
    || s == "box"@
    || s == "break"@
    || s == "const"@
    || s == "continue"@
    || s == "crate"@
    || s == "do"@
    || s == "else"@
    || s == "enum"@
    || s == "extern"@
    || s == "false"@
    || s == "final"@
    || s == "fn"@
    || s == "for"@
    || s == "if"@
    || s == "impl"@
    || s == "in"@
    || s == "let"@
    || s == "loop"@
    || s == "macro"@
    || s == "match"@
    || s == "mod"@
    || s == "move"@
    || s == "mut"@
    || s == "override"@
    || s == "priv"@
    || s == "pub"@
    || s == "ref"@
    || s == "return"@
    || s == "Self"@
    || s == "self"@
    || s == "static"@
    || s == "struct"@
    || s == "super"@
    || s == "trait"@
    || s == "true"@
    || s == "type"@
    || s == "typeof"@
    || s == "unsafe"@
    || s == "unsized"@
    || s == "use"@
    || s == "virtual"@
    || s == "where"@
    || s == "while"@
    || s == "yield"@
}

/// A text that syn reads as an identifier whichever lexer runs.
pub open spec fn surely_ident(s: Seq<char>) -> bool {
    plain_ascii_ident(s) && !syn_reserved(s)
}

/// The token has a value, and it is surely an identifier.
pub open spec fn value_surely_ident(tok: OptionToken) -> bool {
    match tok.value {
        Some(v) => surely_ident(v@),
        None => false,
    }
}

/// The answer given for the option at `i`; options without one count as not
/// being identifiers.
pub open spec fn ident_at(idents: Seq<bool>, i: int) -> bool {
    0 <= i < idents.len() && idents[i]
}

/// Each option paired with whether its value is an identifier.
pub open spec fn annotate(opts: Seq<OptionToken>, idents: Seq<bool>) -> Seq<(OptionToken, bool)> {
    Seq::new(opts.len(), |i: int| (opts[i], ident_at(idents, i)))
}

/// The boolean a value denotes: a bare key means `true`.
pub open spec fn bool_value_spec(v: Option<String>) -> Option<bool> {
    match v {
        None => Some(true),
        Some(s) => if s@ == "true"@ {
            Some(true)
        } else if s@ == "false"@ {
            Some(false)
        } else {
            None
        },
    }
}

pub open spec fn async_mode_spec(s: Seq<char>) -> Option<AsyncMode> {
    if s == "none"@ {
        Some(AsyncMode::Plain)
    } else if s == "async_trait"@ {
        Some(AsyncMode::AsyncTrait)
    } else if s == "associated_future"@ {
        Some(AsyncMode::AssociatedFuture)
    } else {
        None
    }
}

pub open spec fn invalid(tok: OptionToken, expected: ValueShape) -> Result<Extension, EngineError> {
    Err(EngineError::InvalidOptionValue { name: tok.key, expected })
}

pub open spec fn bool_extension(tok: OptionToken, k: OptionKey) -> Result<Extension, EngineError> {
    match bool_value_spec(tok.value) {
        None => invalid(tok, ValueShape::Bool),
        Some(b) => Ok(
            match k {
                OptionKey::NoDeps => Extension::NoDeps(b),
                OptionKey::Export => Extension::Export(b),
                OptionKey::Debug => Extension::Debug(b),
                OptionKey::Mockable => Extension::Mockable(b),
                _ => Extension::SendOptOut(b),
            },
        ),
    }
}

/// What one option token resolves to, given whether its value is an
/// identifier.
pub open spec fn extension_with(tok: OptionToken, ident_ok: bool) -> Result<Extension, EngineError> {
    match key_spec(tok.key@) {
        None => Err(EngineError::UnknownOption { name: tok.key }),
        Some(k) => match k {
            OptionKey::MockSurfaceName => match tok.value {
                Some(v) if ident_ok => Ok(Extension::MockSurfaceName(v)),
                _ => invalid(tok, ValueShape::Identifier),
            },
            OptionKey::DelegateBy => match tok.value {
                Some(v) if v@ == "Self"@ => Ok(Extension::DelegateBy(DelegateBy::SelfBound)),
                Some(v) if v@ == "ref"@ => Ok(Extension::DelegateBy(DelegateBy::RefUpcast)),
                Some(v) if ident_ok => Ok(Extension::DelegateBy(DelegateBy::Named(v))),
                _ => invalid(tok, ValueShape::DelegationTarget),
            },
            OptionKey::AsyncMode => match tok.value {
                Some(v) if async_mode_spec(v@).is_some() => Ok(
                    Extension::AsyncMode(async_mode_spec(v@).unwrap()),
                ),
                _ => invalid(tok, ValueShape::AsyncMode),
            },
            _ => bool_extension(tok, k),
        },
    }
}

/// The key an extension sets.
pub open spec fn extension_key(x: Extension) -> OptionKey {
    match x {
        Extension::NoDeps(_) => OptionKey::NoDeps,
        Extension::Export(_) => OptionKey::Export,
        Extension::Debug(_) => OptionKey::Debug,
        Extension::Mockable(_) => OptionKey::Mockable,
        Extension::MockSurfaceName(_) => OptionKey::MockSurfaceName,
        Extension::DelegateBy(_) => OptionKey::DelegateBy,
        Extension::AsyncMode(_) => OptionKey::AsyncMode,
        Extension::SendOptOut(_) => OptionKey::SendOptOut,
    }
}

/// The configuration before any option is applied.
pub open spec fn default_attr(name: Option<TraitName>, lib: MockLibrary) -> EntraitAttr {
    EntraitAttr {
        trait_ident: match name {
            Some(n) => Some(n.ident),
            None => None,
        },
        trait_visibility: match name {
            Some(n) => n.vis,
            None => Visibility::Private,
        },
        debug: false,
        async_mode: AsyncMode::Plain,
        mockable: false,
        mock_surface_name: None,
        mock_library: lib,
        delegate_by: DelegateBy::SelfBound,
        no_deps: false,
        export: false,
        send_opt_out: false,
    }
}

/// The configuration with one more option applied.
pub open spec fn apply_spec(a: EntraitAttr, x: Extension) -> EntraitAttr {
    match x {
        Extension::NoDeps(b) => EntraitAttr { no_deps: b, ..a },
        Extension::Export(b) => EntraitAttr { export: b, ..a },
        Extension::Debug(b) => EntraitAttr { debug: b, ..a },
        Extension::Mockable(b) => EntraitAttr { mockable: b, ..a },
        Extension::MockSurfaceName(s) => EntraitAttr { mock_surface_name: Some(s), ..a },
        Extension::DelegateBy(d) => EntraitAttr { delegate_by: d, ..a },
        Extension::AsyncMode(m) => EntraitAttr { async_mode: m, ..a },
        Extension::SendOptOut(b) => EntraitAttr { send_opt_out: b, ..a },
    }
}

/// Resolution of the first `opts.len()` options, each paired with whether its
/// value is an identifier, with the keys seen so far. The first option in
/// order that is unknown, malformed or repeated decides the error.
pub open spec fn resolve_state(name: Option<TraitName>, opts: Seq<(OptionToken, bool)>, lib: MockLibrary) -> Result<
    (EntraitAttr, Seq<OptionKey>),
    EngineError,
>
    decreases opts.len(),
{
    if opts.len() == 0 {
        Ok((default_attr(name, lib), Seq::empty()))
    } else {
        match resolve_state(name, opts.drop_last(), lib) {
            Err(e) => Err(e),
            Ok((a, seen)) => match extension_with(opts.last().0, opts.last().1) {
                Err(e) => Err(e),
                Ok(x) => if seen.contains(extension_key(x)) {
                    Err(EngineError::DuplicateOption { name: opts.last().0.key })
                } else {
                    Ok((apply_spec(a, x), seen.push(extension_key(x))))
                },
            },
        }
    }
}

/// The configuration an option list resolves to.
pub open spec fn resolve_spec(name: Option<TraitName>, opts: Seq<(OptionToken, bool)>, lib: MockLibrary) -> Result<
    EntraitAttr,
    EngineError,
> {
    match resolve_state(name, opts, lib) {
        Ok((a, _)) => Ok(a),
        Err(e) => Err(e),
    }
}

fn str_matches(s: &String, lit: &str) -> (r: bool)
    ensures
        r == (s@ == lit@),
{
    let t = String::from_str(lit);
    *s == t
}

fn option_key(k: &String) -> (r: Option<OptionKey>)
    ensures
        r == key_spec(k@),
{
    if str_matches(k, "no_deps") {
        Some(OptionKey::NoDeps)
    } else if str_matches(k, "export") {
        Some(OptionKey::Export)
    } else if str_matches(k, "debug") {
        Some(OptionKey::Debug)
    } else if str_matches(k, "mockable") {
        Some(OptionKey::Mockable)
    } else if str_matches(k, "mock_surface_name") {
        Some(OptionKey::MockSurfaceName)
    } else if str_matches(k, "delegate_by") {
        Some(OptionKey::DelegateBy)
    } else if str_matches(k, "async_mode") {
        Some(OptionKey::AsyncMode)
    } else if str_matches(k, "send_opt_out") {
        Some(OptionKey::SendOptOut)
    } else {
        None
    }
}

/// Relies on `syn::parse_str::<syn::Ident>`: whether the text parses as a
/// single identifier (keywords and `_` do not, per syn's `accept_as_ident`).
/// The answer on other texts depends on the lexer the process runs with, so
/// only what holds under any lexer is stated: an empty text holds no
/// identifier, and a plain ASCII identifier outside syn's reserved words is
/// one.
#[verifier::external_body]
fn parses_as_ident(s: &str) -> (r: bool)
    ensures
        s@.len() == 0 ==> !r,
        surely_ident(s@) ==> r,
{
    syn::parse_str::<syn::Ident>(s).is_ok()
}

fn invalid_value(tok: &OptionToken, expected: ValueShape) -> (r: Result<Extension, EngineError>)
    ensures
        r == invalid(*tok, expected),
{
    Err(EngineError::InvalidOptionValue { name: copy_string(&tok.key), expected })
}

fn reads_ident_exec(tok: &OptionToken) -> (r: bool)
    ensures
        r == reads_ident(*tok),
{
    if tok.value.is_none() {
        return false;
    }
    match option_key(&tok.key) {
        Some(OptionKey::MockSurfaceName) => true,
        Some(OptionKey::DelegateBy) => true,
        _ => false,
    }
}

/// Asks syn whether the token's value is an identifier, where it is read as
/// one.
fn ident_answer(tok: &OptionToken) -> (r: bool)
    ensures
        !reads_ident(*tok) ==> !r,
        (tok.value matches Some(v) && v@.len() == 0) ==> !r,
        reads_ident(*tok) && value_surely_ident(*tok) ==> r,
{
    if !reads_ident_exec(tok) {
        return false;
    }
    match &tok.value {
        Some(v) => parses_as_ident(v.as_str()),
        None => false,
    }
}

impl Extension {
    /// Resolves one option token.
    ///
    /// A bare boolean key means `true`; an unknown key, or a value of the
    /// wrong shape, is refused. Identifier values are read as syn reads them;
    /// whatever syn answers, the result is what `from_token` gives for that
    /// answer, and it is exact where no identifier is read or the value is a
    /// plain identifier.
    pub fn parse(tok: &OptionToken) -> (r: Result<Extension, EngineError>)
        ensures
            exists|b: bool| r == extension_with(*tok, b),
            !reads_ident(*tok) ==> r == extension_with(*tok, false),
            (tok.value matches Some(v) && v@.len() == 0) ==> r == extension_with(*tok, false),
            reads_ident(*tok) && value_surely_ident(*tok) ==> r == extension_with(*tok, true),
    {
        let ident_ok = ident_answer(tok);
        Extension::from_token(tok, ident_ok)
    }

    /// Resolves one option token, given whether its value is an identifier.
    pub fn from_token(tok: &OptionToken, ident_ok: bool) -> (r: Result<Extension, EngineError>)
        ensures
            r == extension_with(*tok, ident_ok),
    {
        let k = match option_key(&tok.key) {
            None => return Err(EngineError::UnknownOption { name: copy_string(&tok.key) }),
            Some(k) => k,
        };
        match k {
            OptionKey::MockSurfaceName => match &tok.value {
                Some(v) => if ident_ok {
                    Ok(Extension::MockSurfaceName(copy_string(v)))
                } else {
                    invalid_value(tok, ValueShape::Identifier)
                },
                None => invalid_value(tok, ValueShape::Identifier),
            },
            OptionKey::DelegateBy => match &tok.value {
                Some(v) => if str_matches(v, "Self") {
                    Ok(Extension::DelegateBy(DelegateBy::SelfBound))
                } else if str_matches(v, "ref") {
                    Ok(Extension::DelegateBy(DelegateBy::RefUpcast))
                } else if ident_ok {
                    Ok(Extension::DelegateBy(DelegateBy::Named(copy_string(v))))
                } else {
                    invalid_value(tok, ValueShape::DelegationTarget)
                },
                None => invalid_value(tok, ValueShape::DelegationTarget),
            },
            OptionKey::AsyncMode => match &tok.value {
                Some(v) => if str_matches(v, "none") {
                    Ok(Extension::AsyncMode(AsyncMode::Plain))
                } else if str_matches(v, "async_trait") {
                    Ok(Extension::AsyncMode(AsyncMode::AsyncTrait))
                } else if str_matches(v, "associated_future") {
                    Ok(Extension::AsyncMode(AsyncMode::AssociatedFuture))
                } else {
                    invalid_value(tok, ValueShape::AsyncMode)
                },
                None => invalid_value(tok, ValueShape::AsyncMode),
            },
            _ => {
                let b = match &tok.value {
                    None => true,
                    Some(v) => if str_matches(v, "true") {
                        true
                    } else if str_matches(v, "false") {
                        false
                    } else {
                        return invalid_value(tok, ValueShape::Bool);
                    },
                };
                match k {
                    OptionKey::NoDeps => Ok(Extension::NoDeps(b)),
                    OptionKey::Export => Ok(Extension::Export(b)),
                    OptionKey::Debug => Ok(Extension::Debug(b)),
                    OptionKey::Mockable => Ok(Extension::Mockable(b)),
                    _ => Ok(Extension::SendOptOut(b)),
                }
            },
        }
    }

    /// The key this option sets.
    pub fn key(&self) -> (r: OptionKey)
        ensures
            r == extension_key(*self),
    {
        match self {
            Extension::NoDeps(_) => OptionKey::NoDeps,
            Extension::Export(_) => OptionKey::Export,
            Extension::Debug(_) => OptionKey::Debug,
            Extension::Mockable(_) => OptionKey::Mockable,
            Extension::MockSurfaceName(_) => OptionKey::MockSurfaceName,
            Extension::DelegateBy(_) => OptionKey::DelegateBy,
            Extension::AsyncMode(_) => OptionKey::AsyncMode,
            Extension::SendOptOut(_) => OptionKey::SendOptOut,
        }
    }
}

fn contains_key(seen: &Vec<OptionKey>, k: OptionKey) -> (r: bool)
    ensures
        r == seen@.contains(k),
{
    let mut i: usize = 0;
    while i < seen.len()
        invariant
            i <= seen@.len(),
            forall|j: int| 0 <= j < i ==> seen@[j] != k,
        decreases seen@.len() - i,
    {
        if seen[i] == k {
            return true;
        }
        i += 1;
    }
    false
}

fn split_name(name: Option<TraitName>) -> (r: (Option<String>, Visibility))
    ensures
        r.0 == default_attr(name, MockLibrary::Absent).trait_ident,
        r.1 == default_attr(name, MockLibrary::Absent).trait_visibility,
{
    match name {
        Some(n) => (Some(n.ident), n.vis),
        None => (None, Visibility::Private),
    }
}

impl EntraitAttr {
    /// Resolves the interface name and the option list of one declaration,
    /// given for each option whether its value is an identifier.
    ///
    /// Options may come in any order. The first option that is unknown,
    /// malformed or a repetition of an earlier key aborts resolution with its
    /// error; no partial configuration is returned.
    pub fn resolve(
        name: Option<TraitName>,
        options: &Vec<OptionToken>,
        idents: &Vec<bool>,
        mock_library: MockLibrary,
    ) -> (r: Result<EntraitAttr, EngineError>)
        ensures
            r == resolve_spec(name, annotate(options@, idents@), mock_library),
    {
        let ghost name0 = name;
        let ghost ann = annotate(options@, idents@);
        let (trait_ident, trait_visibility) = split_name(name);
        let mut attr = EntraitAttr {
            trait_ident,
            trait_visibility,
            debug: false,
            async_mode: AsyncMode::Plain,
            mockable: false,
            mock_surface_name: None,
            mock_library,
            delegate_by: DelegateBy::SelfBound,
            no_deps: false,
            export: false,
            send_opt_out: false,
        };
        let mut seen: Vec<OptionKey> = Vec::new();
        let mut i: usize = 0;
        assert(ann.subrange(0, 0) =~= Seq::<(OptionToken, bool)>::empty());
        while i < options.len()
            invariant
                name0 == name,
                ann == annotate(options@, idents@),
                i <= options@.len(),
                resolve_state(name0, ann.subrange(0, i as int), mock_library) == Ok::<
                    (EntraitAttr, Seq<OptionKey>),
                    EngineError,
                >((attr, seen@)),
            decreases options@.len() - i,
        {
            let ghost prefix = ann.subrange(0, i as int + 1);
            assert(prefix.drop_last() =~= ann.subrange(0, i as int));
            assert(prefix.last() == ann[i as int]);
            let answer = i < idents.len() && idents[i];
            let x = match Extension::from_token(&options[i], answer) {
                Ok(x) => x,
                Err(e) => {
                    proof {
                        lemma_error_persists(name0, ann, mock_library, i as int + 1);
                    }
                    return Err(e);
                },
            };
            let k = x.key();
            if contains_key(&seen, k) {
                proof {
                    lemma_error_persists(name0, ann, mock_library, i as int + 1);
                }
                return Err(EngineError::DuplicateOption { name: copy_string(&options[i].key) });
            }
            match x {
                Extension::NoDeps(b) => attr.no_deps = b,
                Extension::Export(b) => attr.export = b,
                Extension::Debug(b) => attr.debug = b,
                Extension::Mockable(b) => attr.mockable = b,
                Extension::MockSurfaceName(s) => attr.mock_surface_name = Some(s),
                Extension::DelegateBy(d) => attr.delegate_by = d,
                Extension::AsyncMode(m) => attr.async_mode = m,
                Extension::SendOptOut(b) => attr.send_opt_out = b,
            }
            seen.push(k);
            i += 1;
        }
        assert(ann.subrange(0, i as int) =~= ann);
        Ok(attr)
    }

    /// Resolves the interface name and the option list of one declaration,
    /// asking syn which option values are identifiers.
    ///
    /// Whatever syn answers, the result is what `resolve` gives for those
    /// answers; options whose value is not read as an identifier get `false`,
    /// and plain identifiers get `true`. Where every value read as an
    /// identifier is a plain one, the result is exact.
    pub fn parse(name: Option<TraitName>, options: &Vec<OptionToken>, mock_library: MockLibrary) -> (r:
        Result<EntraitAttr, EngineError>)
        ensures
            exists|idents: Seq<bool>|
                idents.len() == options@.len() && (forall|i: int|
                    0 <= i < options@.len() && !reads_ident(options@[i]) ==> !(#[trigger] idents[i]))
                    && (forall|i: int|
                    0 <= i < options@.len() && reads_ident(options@[i]) && value_surely_ident(options@[i])
                        ==> #[trigger] idents[i])
                    && r == resolve_spec(name, annotate(options@, idents), mock_library),
            (forall|i: int|
                0 <= i < options@.len() && reads_ident(#[trigger] options@[i]) ==> value_surely_ident(options@[i]))
                ==> r == resolve_spec(
                name,
                annotate(options@, Seq::new(options@.len(), |i: int| reads_ident(options@[i]))),
                mock_library,
            ),
            (forall|i: int| 0 <= i < options@.len() ==> !reads_ident(#[trigger] options@[i])) ==> r
                == resolve_spec(name, annotate(options@, Seq::empty()), mock_library),
    {
        let mut idents: Vec<bool> = Vec::new();
        let mut i: usize = 0;
        while i < options.len()
            invariant
                i <= options@.len(),
                idents@.len() == i,
                forall|j: int| 0 <= j < i && !reads_ident(options@[j]) ==> !(#[trigger] idents@[j]),
                forall|j: int|
                    0 <= j < i && reads_ident(options@[j]) && value_surely_ident(options@[j]) ==> #[trigger] idents@[j],
            decreases options@.len() - i,
        {
            idents.push(ident_answer(&options[i]));
            i += 1;
        }
        proof {
            if forall|j: int| 0 <= j < options@.len() ==> !reads_ident(#[trigger] options@[j]) {
                assert(annotate(options@, idents@) =~= annotate(options@, Seq::empty()));
            }
            if forall|j: int|
                0 <= j < options@.len() && reads_ident(#[trigger] options@[j]) ==> value_surely_ident(options@[j]) {
                assert(idents@ =~= Seq::new(options@.len(), |j: int| reads_ident(options@[j])));
            }
        }
        let r = EntraitAttr::resolve(name, options, &idents, mock_library);
        r
    }
}

/// Once a prefix of the options fails, every longer prefix fails alike.
pub proof fn lemma_error_persists(
    name: Option<TraitName>,
    opts: Seq<(OptionToken, bool)>,
    lib: MockLibrary,
    i: int,
)
    requires
        0 <= i <= opts.len(),
        resolve_state(name, opts.subrange(0, i), lib) is Err,
    ensures
        resolve_state(name, opts, lib) == resolve_state(name, opts.subrange(0, i), lib),
    decreases opts.len() - i,
{
    if i < opts.len() {
        assert(opts.subrange(0, i + 1).drop_last() =~= opts.subrange(0, i));
        lemma_error_persists(name, opts, lib, i + 1);
    } else {
        assert(opts.subrange(0, i) =~= opts);
    }
}

/// Two resolution states that agree on everything later options can
/// observe: the same error, or the same configuration and the same set of
/// keys seen.
pub open spec fn states_agree(
    r1: Result<(EntraitAttr, Seq<OptionKey>), EngineError>,
    r2: Result<(EntraitAttr, Seq<OptionKey>), EngineError>,
) -> bool {
    match (r1, r2) {
        (Ok((a1, s1)), Ok((a2, s2))) => a1 == a2 && forall|k: OptionKey| s1.contains(k) == s2.contains(k),
        (Err(e1), Err(e2)) => e1 == e2,
        _ => false,
    }
}

pub proof fn lemma_push_contains(s: Seq<OptionKey>, k: OptionKey, j: OptionKey)
    ensures
        s.push(k).contains(j) == (s.contains(j) || j == k),
{
    if s.contains(j) {
        let i = choose|i: int| 0 <= i < s.len() && s[i] == j;
        assert(s.push(k)[i] == j);
    }
    if j == k {
        assert(s.push(k)[s.len() as int] == j);
    }
    if s.push(k).contains(j) {
        let i = choose|i: int| 0 <= i < s.push(k).len() && s.push(k)[i] == j;
        if i < s.len() {
            assert(s[i] == j);
        }
    }
}

/// Options that follow two agreeing prefixes lead to agreeing states.
pub proof fn lemma_agree_extends(
    name: Option<TraitName>,
    left: Seq<(OptionToken, bool)>,
    right: Seq<(OptionToken, bool)>,
    t: Seq<(OptionToken, bool)>,
    lib: MockLibrary,
)
    requires
        states_agree(resolve_state(name, left, lib), resolve_state(name, right, lib)),
    ensures
        states_agree(resolve_state(name, left + t, lib), resolve_state(name, right + t, lib)),
    decreases t.len(),
{
    if t.len() == 0 {
        assert(left + t =~= left);
        assert(right + t =~= right);
    } else {
        let u = t.drop_last();
        lemma_agree_extends(name, left, right, u, lib);
        assert((left + t).drop_last() =~= left + u);
        assert((right + t).drop_last() =~= right + u);
        assert((left + t).last() == t.last());
        assert((right + t).last() == t.last());
        match (resolve_state(name, left + u, lib), resolve_state(name, right + u, lib)) {
            (Ok((a1, s1)), Ok((a2, s2))) => {
                match extension_with(t.last().0, t.last().1) {
                    Ok(x) => {
                        let k = extension_key(x);
                        assert forall|j: OptionKey| s1.push(k).contains(j) == s2.push(k).contains(j) by {
                            lemma_push_contains(s1, k, j);
                            lemma_push_contains(s2, k, j);
                        }
                    },
                    Err(_) => {},
                }
            },
            _ => {},
        }
    }
}

/// Applying two options of different keys in either order gives the same
/// configuration.
#[verifier::rlimit(40)]
pub proof fn lemma_apply_commutes(a: EntraitAttr, x: Extension, y: Extension)
    requires
        extension_key(x) != extension_key(y),
    ensures
        apply_spec(apply_spec(a, x), y) == apply_spec(apply_spec(a, y), x),
{
    match x {
        Extension::NoDeps(_) => {},
        Extension::Export(_) => {},
        Extension::Debug(_) => {},
        Extension::Mockable(_) => {},
        Extension::MockSurfaceName(_) => {},
        Extension::DelegateBy(_) => {},
        Extension::AsyncMode(_) => {},
        Extension::SendOptOut(_) => {},
    }
}

} // verus!
