//! The enum coercer: the five string-token vocabularies of the schema.
//!
//! `Target`, `Lib` and `Module` are open vocabularies: a token is folded to
//! ASCII uppercase and looked up in a table of canonical uppercase spellings,
//! and an unknown token becomes the `Other` variant carrying the original
//! spelling.  `ModuleResolutionMode` is closed but still case-insensitive.
//! `Jsx` is closed and compared in its fixed lowercase-hyphenated spelling
//! only; both closed domains answer a miss with `None`, which the mapper
//! turns into an error.

use vstd::prelude::*;

use crate::text::{chars_eq_str, chars_vec, to_upper, upper_seq};

verus! {

/// The `target` language level: an open vocabulary.
#[derive(Debug, Clone, PartialEq)]
pub enum Target {
    Es3,
    Es5,
    Es2015,
    Es6,
    Es2016,
    Es7,
    Es2017,
    Es2018,
    Es2019,
    Es2020,
    EsNext,
    /// A token outside the known vocabulary, kept as it was spelled.
    Other(String),
}

/// The mathematical shape of a [`Target`].
pub enum TargetV {
    Es3,
    Es5,
    Es2015,
    Es6,
    Es2016,
    Es7,
    Es2017,
    Es2018,
    Es2019,
    Es2020,
    EsNext,
    Other(Seq<char>),
}

impl View for Target {
    type V = TargetV;

    open spec fn view(&self) -> TargetV {
        match self {
            Target::Es3 => TargetV::Es3,
            Target::Es5 => TargetV::Es5,
            Target::Es2015 => TargetV::Es2015,
            Target::Es6 => TargetV::Es6,
            Target::Es2016 => TargetV::Es2016,
            Target::Es7 => TargetV::Es7,
            Target::Es2017 => TargetV::Es2017,
            Target::Es2018 => TargetV::Es2018,
            Target::Es2019 => TargetV::Es2019,
            Target::Es2020 => TargetV::Es2020,
            Target::EsNext => TargetV::EsNext,
            Target::Other(s) => TargetV::Other(s@),
        }
    }
}

/// The coercion of one token of the open `Target` domain: the uppercase
/// folding of the token is looked up in the table of canonical uppercase
/// spellings, and a miss falls back to `Other` with the original spelling.
pub open spec fn spec_target(s: Seq<char>) -> TargetV {
    let u = upper_seq(s);
    if u == "ES3"@ {
        TargetV::Es3
    } else if u == "ES5"@ {
        TargetV::Es5
    } else if u == "ES2015"@ {
        TargetV::Es2015
    } else if u == "ES6"@ {
        TargetV::Es6
    } else if u == "ES2016"@ {
        TargetV::Es2016
    } else if u == "ES7"@ {
        TargetV::Es7
    } else if u == "ES2017"@ {
        TargetV::Es2017
    } else if u == "ES2018"@ {
        TargetV::Es2018
    } else if u == "ES2019"@ {
        TargetV::Es2019
    } else if u == "ES2020"@ {
        TargetV::Es2020
    } else if u == "ESNEXT"@ {
        TargetV::EsNext
    } else {
        TargetV::Other(s)
    }
}

impl Target {
    /// Coerces one token of this domain; never fails.
    pub fn from_token(s: &String) -> (t: Target)
        ensures
            t@ == spec_target(s@),
    {
        let cv = chars_vec(s.as_str());
        let up = to_upper(&cv);
        if chars_eq_str(&up, "ES3") {
            Target::Es3
        } else if chars_eq_str(&up, "ES5") {
            Target::Es5
        } else if chars_eq_str(&up, "ES2015") {
            Target::Es2015
        } else if chars_eq_str(&up, "ES6") {
            Target::Es6
        } else if chars_eq_str(&up, "ES2016") {
            Target::Es2016
        } else if chars_eq_str(&up, "ES7") {
            Target::Es7
        } else if chars_eq_str(&up, "ES2017") {
            Target::Es2017
        } else if chars_eq_str(&up, "ES2018") {
            Target::Es2018
        } else if chars_eq_str(&up, "ES2019") {
            Target::Es2019
        } else if chars_eq_str(&up, "ES2020") {
            Target::Es2020
        } else if chars_eq_str(&up, "ESNEXT") {
            Target::EsNext
        } else {
            Target::Other(s.clone())
        }
    }
}

/// One `lib` bundle identifier: an open vocabulary.
#[derive(Debug, Clone, PartialEq)]
pub enum Lib {
    Es5,
    Es2015,
    Es6,
    Es2016,
    Es7,
    Es2017,
    Es2018,
    Es2019,
    Es2020,
    EsNext,
    Dom,
    WebWorker,
    ScriptHost,
    DomIterable,
    Es2015Core,
    Es2015Generator,
    Es2015Iterable,
    Es2015Promise,
    Es2015Proxy,
    Es2015Reflect,
    Es2015Symbol,
    Es2015SymbolWellKnown,
    Es2016ArrayInclude,
    Es2017Object,
    Es2017Intl,
    Es2017SharedMemory,
    Es2017String,
    Es2017TypedArrays,
    Es2018Intl,
    Es2018Promise,
    Es2018RegExp,
    Es2019Array,
    Es2019Object,
    Es2019String,
    Es2019Symbol,
    Es2020String,
    Es2020SymbolWellknown,
    EsNextAsyncIterable,
    EsNextArray,
    EsNextIntl,
    EsNextSymbol,
    /// A token outside the known vocabulary, kept as it was spelled.
    Other(String),
}

/// The mathematical shape of a [`Lib`].
pub enum LibV {
    Es5,
    Es2015,
    Es6,
    Es2016,
    Es7,
    Es2017,
    Es2018,
    Es2019,
    Es2020,
    EsNext,
    Dom,
    WebWorker,
    ScriptHost,
    DomIterable,
    Es2015Core,
    Es2015Generator,
    Es2015Iterable,
    Es2015Promise,
    Es2015Proxy,
    Es2015Reflect,
    Es2015Symbol,
    Es2015SymbolWellKnown,
    Es2016ArrayInclude,
    Es2017Object,
    Es2017Intl,
    Es2017SharedMemory,
    Es2017String,
    Es2017TypedArrays,
    Es2018Intl,
    Es2018Promise,
    Es2018RegExp,
    Es2019Array,
    Es2019Object,
    Es2019String,
    Es2019Symbol,
    Es2020String,
    Es2020SymbolWellknown,
    EsNextAsyncIterable,
    EsNextArray,
    EsNextIntl,
    EsNextSymbol,
    Other(Seq<char>),
}

impl View for Lib {
    type V = LibV;

    open spec fn view(&self) -> LibV {
        match self {
            Lib::Es5 => LibV::Es5,
            Lib::Es2015 => LibV::Es2015,
            Lib::Es6 => LibV::Es6,
            Lib::Es2016 => LibV::Es2016,
            Lib::Es7 => LibV::Es7,
            Lib::Es2017 => LibV::Es2017,
            Lib::Es2018 => LibV::Es2018,
            Lib::Es2019 => LibV::Es2019,
            Lib::Es2020 => LibV::Es2020,
            Lib::EsNext => LibV::EsNext,
            Lib::Dom => LibV::Dom,
            Lib::WebWorker => LibV::WebWorker,
            Lib::ScriptHost => LibV::ScriptHost,
            Lib::DomIterable => LibV::DomIterable,
            Lib::Es2015Core => LibV::Es2015Core,
            Lib::Es2015Generator => LibV::Es2015Generator,
            Lib::Es2015Iterable => LibV::Es2015Iterable,
            Lib::Es2015Promise => LibV::Es2015Promise,
            Lib::Es2015Proxy => LibV::Es2015Proxy,
            Lib::Es2015Reflect => LibV::Es2015Reflect,
            Lib::Es2015Symbol => LibV::Es2015Symbol,
            Lib::Es2015SymbolWellKnown => LibV::Es2015SymbolWellKnown,
            Lib::Es2016ArrayInclude => LibV::Es2016ArrayInclude,
            Lib::Es2017Object => LibV::Es2017Object,
            Lib::Es2017Intl => LibV::Es2017Intl,
            Lib::Es2017SharedMemory => LibV::Es2017SharedMemory,
            Lib::Es2017String => LibV::Es2017String,
            Lib::Es2017TypedArrays => LibV::Es2017TypedArrays,
            Lib::Es2018Intl => LibV::Es2018Intl,
            Lib::Es2018Promise => LibV::Es2018Promise,
            Lib::Es2018RegExp => LibV::Es2018RegExp,
            Lib::Es2019Array => LibV::Es2019Array,
            Lib::Es2019Object => LibV::Es2019Object,
            Lib::Es2019String => LibV::Es2019String,
            Lib::Es2019Symbol => LibV::Es2019Symbol,
            Lib::Es2020String => LibV::Es2020String,
            Lib::Es2020SymbolWellknown => LibV::Es2020SymbolWellknown,
            Lib::EsNextAsyncIterable => LibV::EsNextAsyncIterable,
            Lib::EsNextArray => LibV::EsNextArray,
            Lib::EsNextIntl => LibV::EsNextIntl,
            Lib::EsNextSymbol => LibV::EsNextSymbol,
            Lib::Other(s) => LibV::Other(s@),
        }
    }
}

/// The coercion of one token of the open `Lib` domain: the uppercase
/// folding of the token is looked up in the table of canonical uppercase
/// spellings, and a miss falls back to `Other` with the original spelling.
pub open spec fn spec_lib(s: Seq<char>) -> LibV {
    let u = upper_seq(s);
    if u == "ES5"@ {
        LibV::Es5
    } else if u == "ES2015"@ {
        LibV::Es2015
    } else if u == "ES6"@ {
        LibV::Es6
    } else if u == "ES2016"@ {
        LibV::Es2016
    } else if u == "ES7"@ {
        LibV::Es7
    } else if u == "ES2017"@ {
        LibV::Es2017
    } else if u == "ES2018"@ {
        LibV::Es2018
    } else if u == "ES2019"@ {
        LibV::Es2019
    } else if u == "ES2020"@ {
        LibV::Es2020
    } else if u == "ESNEXT"@ {
        LibV::EsNext
    } else if u == "DOM"@ {
        LibV::Dom
    } else if u == "WEBWORKER"@ {
        LibV::WebWorker
    } else if u == "SCRIPTHOST"@ {
        LibV::ScriptHost
    } else if u == "DOM.ITERABLE"@ {
        LibV::DomIterable
    } else if u == "ES2015.CORE"@ {
        LibV::Es2015Core
    } else if u == "ES2015.GENERATOR"@ {
        LibV::Es2015Generator
    } else if u == "ES2015.ITERABLE"@ {
        LibV::Es2015Iterable
    } else if u == "ES2015.PROMISE"@ {
        LibV::Es2015Promise
    } else if u == "ES2015.PROXY"@ {
        LibV::Es2015Proxy
    } else if u == "ES2015.REFLECT"@ {
        LibV::Es2015Reflect
    } else if u == "ES2015.SYMBOL"@ {
        LibV::Es2015Symbol
    } else if u == "ES2015.SYMBOL.WELLKNOWN"@ {
        LibV::Es2015SymbolWellKnown
    } else if u == "ES2016.ARRAY.INCLUDE"@ {
        LibV::Es2016ArrayInclude
    } else if u == "ES2017.OBJECT"@ {
        LibV::Es2017Object
    } else if u == "ES2017.INTL"@ {
        LibV::Es2017Intl
    } else if u == "ES2017.SHAREDMEMORY"@ {
        LibV::Es2017SharedMemory
    } else if u == "ES2017.STRING"@ {
        LibV::Es2017String
    } else if u == "ES2017.TYPEDARRAYS"@ {
        LibV::Es2017TypedArrays
    } else if u == "ES2018.INTL"@ {
        LibV::Es2018Intl
    } else if u == "ES2018.PROMISE"@ {
        LibV::Es2018Promise
    } else if u == "ES2018.REGEXP"@ {
        LibV::Es2018RegExp
    } else if u == "ES2019.ARRAY"@ {
        LibV::Es2019Array
    } else if u == "ES2019.OBJECT"@ {
        LibV::Es2019Object
    } else if u == "ES2019.STRING"@ {
        LibV::Es2019String
    } else if u == "ES2019.SYMBOL"@ {
        LibV::Es2019Symbol
    } else if u == "ES2020.STRING"@ {
        LibV::Es2020String
    } else if u == "ES2020.SYMBOL.WELLKNOWN"@ {
        LibV::Es2020SymbolWellknown
    } else if u == "ESNEXT.ASYNCITERABLE"@ {
        LibV::EsNextAsyncIterable
    } else if u == "ESNEXT.ARRAY"@ {
        LibV::EsNextArray
    } else if u == "ESNEXT.INTL"@ {
        LibV::EsNextIntl
    } else if u == "ESNEXT.SYMBOL"@ {
        LibV::EsNextSymbol
    } else {
        LibV::Other(s)
    }
}

impl Lib {
    /// Coerces one token of this domain; never fails.
    pub fn from_token(s: &String) -> (t: Lib)
        ensures
            t@ == spec_lib(s@),
    {
        let cv = chars_vec(s.as_str());
        let up = to_upper(&cv);
        if chars_eq_str(&up, "ES5") {
            Lib::Es5
        } else if chars_eq_str(&up, "ES2015") {
            Lib::Es2015
        } else if chars_eq_str(&up, "ES6") {
            Lib::Es6
        } else if chars_eq_str(&up, "ES2016") {
            Lib::Es2016
        } else if chars_eq_str(&up, "ES7") {
            Lib::Es7
        } else if chars_eq_str(&up, "ES2017") {
            Lib::Es2017
        } else if chars_eq_str(&up, "ES2018") {
            Lib::Es2018
        } else if chars_eq_str(&up, "ES2019") {
            Lib::Es2019
        } else if chars_eq_str(&up, "ES2020") {
            Lib::Es2020
        } else if chars_eq_str(&up, "ESNEXT") {
            Lib::EsNext
        } else if chars_eq_str(&up, "DOM") {
            Lib::Dom
        } else if chars_eq_str(&up, "WEBWORKER") {
            Lib::WebWorker
        } else if chars_eq_str(&up, "SCRIPTHOST") {
            Lib::ScriptHost
        } else if chars_eq_str(&up, "DOM.ITERABLE") {
            Lib::DomIterable
        } else if chars_eq_str(&up, "ES2015.CORE") {
            Lib::Es2015Core
        } else if chars_eq_str(&up, "ES2015.GENERATOR") {
            Lib::Es2015Generator
        } else if chars_eq_str(&up, "ES2015.ITERABLE") {
            Lib::Es2015Iterable
        } else if chars_eq_str(&up, "ES2015.PROMISE") {
            Lib::Es2015Promise
        } else if chars_eq_str(&up, "ES2015.PROXY") {
            Lib::Es2015Proxy
        } else if chars_eq_str(&up, "ES2015.REFLECT") {
            Lib::Es2015Reflect
        } else if chars_eq_str(&up, "ES2015.SYMBOL") {
            Lib::Es2015Symbol
        } else if chars_eq_str(&up, "ES2015.SYMBOL.WELLKNOWN") {
            Lib::Es2015SymbolWellKnown
        } else if chars_eq_str(&up, "ES2016.ARRAY.INCLUDE") {
            Lib::Es2016ArrayInclude
        } else if chars_eq_str(&up, "ES2017.OBJECT") {
            Lib::Es2017Object
        } else if chars_eq_str(&up, "ES2017.INTL") {
            Lib::Es2017Intl
        } else if chars_eq_str(&up, "ES2017.SHAREDMEMORY") {
            Lib::Es2017SharedMemory
        } else if chars_eq_str(&up, "ES2017.STRING") {
            Lib::Es2017String
        } else if chars_eq_str(&up, "ES2017.TYPEDARRAYS") {
            Lib::Es2017TypedArrays
        } else if chars_eq_str(&up, "ES2018.INTL") {
            Lib::Es2018Intl
        } else if chars_eq_str(&up, "ES2018.PROMISE") {
            Lib::Es2018Promise
        } else if chars_eq_str(&up, "ES2018.REGEXP") {
            Lib::Es2018RegExp
        } else if chars_eq_str(&up, "ES2019.ARRAY") {
            Lib::Es2019Array
        } else if chars_eq_str(&up, "ES2019.OBJECT") {
            Lib::Es2019Object
        } else if chars_eq_str(&up, "ES2019.STRING") {
            Lib::Es2019String
        } else if chars_eq_str(&up, "ES2019.SYMBOL") {
            Lib::Es2019Symbol
        } else if chars_eq_str(&up, "ES2020.STRING") {
            Lib::Es2020String
        } else if chars_eq_str(&up, "ES2020.SYMBOL.WELLKNOWN") {
            Lib::Es2020SymbolWellknown
        } else if chars_eq_str(&up, "ESNEXT.ASYNCITERABLE") {
            Lib::EsNextAsyncIterable
        } else if chars_eq_str(&up, "ESNEXT.ARRAY") {
            Lib::EsNextArray
        } else if chars_eq_str(&up, "ESNEXT.INTL") {
            Lib::EsNextIntl
        } else if chars_eq_str(&up, "ESNEXT.SYMBOL") {
            Lib::EsNextSymbol
        } else {
            Lib::Other(s.clone())
        }
    }
}

/// The `module` kind: an open vocabulary.
#[derive(Debug, Clone, PartialEq)]
pub enum Module {
    CommonJs,
    Es6,
    Es2015,
    Es2020,
    NoModule,
    Umd,
    Amd,
    System,
    EsNext,
    /// A token outside the known vocabulary, kept as it was spelled.
    Other(String),
}

/// The mathematical shape of a [`Module`].
pub enum ModuleV {
    CommonJs,
    Es6,
    Es2015,
    Es2020,
    NoModule,
    Umd,
    Amd,
    System,
    EsNext,
    Other(Seq<char>),
}

impl View for Module {
    type V = ModuleV;

    open spec fn view(&self) -> ModuleV {
        match self {
            Module::CommonJs => ModuleV::CommonJs,
            Module::Es6 => ModuleV::Es6,
            Module::Es2015 => ModuleV::Es2015,
            Module::Es2020 => ModuleV::Es2020,
            Module::NoModule => ModuleV::NoModule,
            Module::Umd => ModuleV::Umd,
            Module::Amd => ModuleV::Amd,
            Module::System => ModuleV::System,
            Module::EsNext => ModuleV::EsNext,
            Module::Other(s) => ModuleV::Other(s@),
        }
    }
}

/// The coercion of one token of the open `Module` domain: the uppercase
/// folding of the token is looked up in the table of canonical uppercase
/// spellings, and a miss falls back to `Other` with the original spelling.
pub open spec fn spec_module(s: Seq<char>) -> ModuleV {
    let u = upper_seq(s);
    if u == "COMMONJS"@ {
        ModuleV::CommonJs
    } else if u == "ES6"@ {
        ModuleV::Es6
    } else if u == "ES2015"@ {
        ModuleV::Es2015
    } else if u == "ES2020"@ {
        ModuleV::Es2020
    } else if u == "NONE"@ {
        ModuleV::NoModule
    } else if u == "UMD"@ {
        ModuleV::Umd
    } else if u == "AMD"@ {
        ModuleV::Amd
    } else if u == "SYSTEM"@ {
        ModuleV::System
    } else if u == "ESNEXT"@ {
        ModuleV::EsNext
    } else {
        ModuleV::Other(s)
    }
}

impl Module {
    /// Coerces one token of this domain; never fails.
    pub fn from_token(s: &String) -> (t: Module)
        ensures
            t@ == spec_module(s@),
    {
        let cv = chars_vec(s.as_str());
        let up = to_upper(&cv);
        if chars_eq_str(&up, "COMMONJS") {
            Module::CommonJs
        } else if chars_eq_str(&up, "ES6") {
            Module::Es6
        } else if chars_eq_str(&up, "ES2015") {
            Module::Es2015
        } else if chars_eq_str(&up, "ES2020") {
            Module::Es2020
        } else if chars_eq_str(&up, "NONE") {
            Module::NoModule
        } else if chars_eq_str(&up, "UMD") {
            Module::Umd
        } else if chars_eq_str(&up, "AMD") {
            Module::Amd
        } else if chars_eq_str(&up, "SYSTEM") {
            Module::System
        } else if chars_eq_str(&up, "ESNEXT") {
            Module::EsNext
        } else {
            Module::Other(s.clone())
        }
    }
}


impl DeepView for Target {
    type V = TargetV;

    open spec fn deep_view(&self) -> TargetV {
        self.view()
    }
}

impl DeepView for Lib {
    type V = LibV;

    open spec fn deep_view(&self) -> LibV {
        self.view()
    }
}

impl DeepView for Module {
    type V = ModuleV;

    open spec fn deep_view(&self) -> ModuleV {
        self.view()
    }
}

/// The `moduleResolution` strategy: a closed vocabulary, matched
/// case-insensitively.
#[derive(Debug, Clone, Copy, PartialEq, Eq, Structural)]
pub enum ModuleResolutionMode {
    Node,
    Classic,
}

/// The coercion of one token of the closed `moduleResolution` domain:
/// case-insensitive, and a miss is a miss.
pub open spec fn spec_module_resolution(s: Seq<char>) -> Option<ModuleResolutionMode> {
    let u = upper_seq(s);
    if u == "NODE"@ {
        Some(ModuleResolutionMode::Node)
    } else if u == "CLASSIC"@ {
        Some(ModuleResolutionMode::Classic)
    } else {
        None
    }
}

impl ModuleResolutionMode {
    /// Coerces one token of this domain; `None` on an unknown token.
    pub fn from_token(s: &String) -> (t: Option<ModuleResolutionMode>)
        ensures
            t == spec_module_resolution(s@),
    {
        let cv = chars_vec(s.as_str());
        let up = to_upper(&cv);
        if chars_eq_str(&up, "NODE") {
            Some(ModuleResolutionMode::Node)
        } else if chars_eq_str(&up, "CLASSIC") {
            Some(ModuleResolutionMode::Classic)
        } else {
            None
        }
    }
}

/// The `jsx` emit mode: a closed vocabulary, compared only in its fixed
/// lowercase-hyphenated spelling — the one domain that is not folded.
#[derive(Debug, Clone, Copy, PartialEq, Eq, Structural)]
pub enum Jsx {
    React,
    ReactJsx,
    ReactJsxdev,
    ReactNative,
    Preserve,
}

/// The coercion of one token of the closed `jsx` domain: an exact,
/// case-sensitive comparison.
pub open spec fn spec_jsx(s: Seq<char>) -> Option<Jsx> {
    if s == "react"@ {
        Some(Jsx::React)
    } else if s == "react-jsx"@ {
        Some(Jsx::ReactJsx)
    } else if s == "react-jsxdev"@ {
        Some(Jsx::ReactJsxdev)
    } else if s == "react-native"@ {
        Some(Jsx::ReactNative)
    } else if s == "preserve"@ {
        Some(Jsx::Preserve)
    } else {
        None
    }
}

impl Jsx {
    /// Coerces one token of this domain; `None` on an unknown token.
    pub fn from_token(s: &String) -> (t: Option<Jsx>)
        ensures
            t == spec_jsx(s@),
    {
        let cv = chars_vec(s.as_str());
        if chars_eq_str(&cv, "react") {
            Some(Jsx::React)
        } else if chars_eq_str(&cv, "react-jsx") {
            Some(Jsx::ReactJsx)
        } else if chars_eq_str(&cv, "react-jsxdev") {
            Some(Jsx::ReactJsxdev)
        } else if chars_eq_str(&cv, "react-native") {
            Some(Jsx::ReactNative)
        } else if chars_eq_str(&cv, "preserve") {
            Some(Jsx::Preserve)
        } else {
            None
        }
    }
}

/// Case does not matter to the `target` domain: two spellings with the same
/// uppercase folding coerce alike whenever one of them hits a known token.
pub proof fn lemma_target_case_insensitive(a: Seq<char>, b: Seq<char>)
    requires
        upper_seq(a) == upper_seq(b),
        !(spec_target(a) is Other),
    ensures
        spec_target(a) == spec_target(b),
{
}

/// Case does not matter to the `lib` domain: two spellings with the same
/// uppercase folding coerce alike whenever one of them hits a known token.
pub proof fn lemma_lib_case_insensitive(a: Seq<char>, b: Seq<char>)
    requires
        upper_seq(a) == upper_seq(b),
        !(spec_lib(a) is Other),
    ensures
        spec_lib(a) == spec_lib(b),
{
}

/// Case does not matter to the `module` domain: two spellings with the same
/// uppercase folding coerce alike whenever one of them hits a known token.
pub proof fn lemma_module_case_insensitive(a: Seq<char>, b: Seq<char>)
    requires
        upper_seq(a) == upper_seq(b),
        !(spec_module(a) is Other),
    ensures
        spec_module(a) == spec_module(b),
{
}

/// Case does not matter to the `moduleResolution` domain at all, known or
/// unknown token alike.
pub proof fn lemma_module_resolution_case_insensitive(a: Seq<char>, b: Seq<char>)
    requires
        upper_seq(a) == upper_seq(b),
    ensures
        spec_module_resolution(a) == spec_module_resolution(b),
{
}

/// A token the `target` domain does not know is kept, spelled as it was, in
/// the fallback variant.
pub proof fn lemma_target_fallback(s: Seq<char>)
    ensures
        spec_target(s) is Other ==> spec_target(s) == TargetV::Other(s),
{
}

/// A token the `lib` domain does not know is kept, spelled as it was, in the
/// fallback variant.
pub proof fn lemma_lib_fallback(s: Seq<char>)
    ensures
        spec_lib(s) is Other ==> spec_lib(s) == LibV::Other(s),
{
}

/// A token the `module` domain does not know is kept, spelled as it was, in
/// the fallback variant.
pub proof fn lemma_module_fallback(s: Seq<char>)
    ensures
        spec_module(s) is Other ==> spec_module(s) == ModuleV::Other(s),
{
}

} // verus!
