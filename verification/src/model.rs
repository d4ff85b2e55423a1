//! The structured records that a scan produces: the class record, its
//! methods and parameters, the transient documentation record, the scanner
//! state flags, and the line categories.

use vstd::prelude::*;

verus! {

/// Semantic category of one physical line, in classification priority order.
#[derive(Clone, Copy, Debug, PartialEq, Eq, Structural)]
pub enum LineType {
    IsPackage,
    IsClass,
    IsImport,
    IsMethod,
    IsStartdoc,
    IsEnddoc,
    IsComment,
    IsOther,
}

/// Scanner state, created fresh per file and mutated by the driver only.
#[derive(Clone, Copy, Debug, PartialEq, Eq, Structural)]
pub struct ParseState {
    /// A class declaration has already been consumed for this file.
    pub class: bool,
    /// Currently between documentation start and end markers.
    pub doc: bool,
    /// Reserved for plain block comments; the driver never sets it.
    pub comment: bool,
    /// A parsed documentation record awaits the next declaration.
    pub doc_ready: bool,
}

/// Mathematical value of a `Param`.
#[verifier::ext_equal]
pub ghost struct ParamV {
    pub name: Seq<char>,
    pub desc: Seq<char>,
}

/// One `@param` entry of a documentation block: name and free-text
/// description.
pub struct Param {
    pub name: String,
    pub desc: String,
}

impl View for Param {
    type V = ParamV;

    open spec fn view(&self) -> ParamV {
        ParamV { name: self.name@, desc: self.desc@ }
    }
}

impl DeepView for Param {
    type V = ParamV;

    open spec fn deep_view(&self) -> ParamV {
        self.view()
    }
}

/// Mathematical value of a `Doc`.
#[verifier::ext_equal]
pub ghost struct DocV {
    pub params: Seq<ParamV>,
    pub description: Seq<char>,
    pub return_desc: Seq<char>,
    pub author: Seq<char>,
    pub version: Seq<char>,
    pub exceptions: Seq<Seq<char>>,
    pub deprecated: Seq<char>,
}

impl DocV {
    /// The record of a documentation block with no recognized content.
    pub open spec fn empty() -> DocV {
        DocV {
            params: Seq::empty(),
            description: Seq::empty(),
            return_desc: Seq::empty(),
            author: Seq::empty(),
            version: Seq::empty(),
            exceptions: Seq::empty(),
            deprecated: Seq::empty(),
        }
    }
}

/// The transient record produced from one completed documentation block.
pub struct Doc {
    pub params: Vec<Param>,
    pub description: String,
    pub return_desc: String,
    pub author: String,
    pub version: String,
    pub exceptions: Vec<String>,
    pub deprecated: String,
}

impl View for Doc {
    type V = DocV;

    open spec fn view(&self) -> DocV {
        DocV {
            params: self.params.deep_view(),
            description: self.description@,
            return_desc: self.return_desc@,
            author: self.author@,
            version: self.version@,
            exceptions: self.exceptions.deep_view(),
            deprecated: self.deprecated@,
        }
    }
}

/// Mathematical value of a `Method`.
#[verifier::ext_equal]
pub ghost struct MethodV {
    pub parameters: Seq<ParamV>,
    pub exceptions: Seq<Seq<char>>,
    pub name: Seq<char>,
    pub privacy: Seq<char>,
    pub description: Seq<char>,
    pub return_type: Seq<char>,
}

impl MethodV {
    /// A freshly constructed method record, before extraction and before any
    /// pending documentation is merged in.
    pub open spec fn empty() -> MethodV {
        MethodV {
            parameters: Seq::empty(),
            exceptions: Seq::empty(),
            name: Seq::empty(),
            privacy: Seq::empty(),
            description: Seq::empty(),
            return_type: Seq::empty(),
        }
    }
}

/// One recognized method declaration, appended to the class record as soon
/// as its line is processed.
pub struct Method {
    pub parameters: Vec<Param>,
    pub exceptions: Vec<String>,
    pub name: String,
    pub privacy: String,
    pub description: String,
    pub return_type: String,
}

impl View for Method {
    type V = MethodV;

    open spec fn view(&self) -> MethodV {
        MethodV {
            parameters: self.parameters.deep_view(),
            exceptions: self.exceptions.deep_view(),
            name: self.name@,
            privacy: self.privacy@,
            description: self.description@,
            return_type: self.return_type@,
        }
    }
}

impl DeepView for Method {
    type V = MethodV;

    open spec fn deep_view(&self) -> MethodV {
        self.view()
    }
}

/// Mathematical value of a `Class`.
#[verifier::ext_equal]
pub ghost struct ClassV {
    pub package_name: Seq<char>,
    pub dependencies: Seq<Seq<char>>,
    pub deprecation: Seq<char>,
    pub access: Seq<char>,
    pub version: Seq<char>,
    pub author: Seq<char>,
    pub class_name: Seq<char>,
    pub description: Seq<char>,
    pub methods: Seq<MethodV>,
}

impl ClassV {
    /// The record that a scan starts from: everything empty.
    pub open spec fn empty() -> ClassV {
        ClassV {
            package_name: Seq::empty(),
            dependencies: Seq::empty(),
            deprecation: Seq::empty(),
            access: Seq::empty(),
            version: Seq::empty(),
            author: Seq::empty(),
            class_name: Seq::empty(),
            description: Seq::empty(),
            methods: Seq::empty(),
        }
    }
}

/// The one structured record assembled per file.
pub struct Class {
    pub package_name: String,
    pub dependencies: Vec<String>,
    pub deprecation: String,
    pub access: String,
    pub version: String,
    pub author: String,
    pub class_name: String,
    pub description: String,
    pub methods: Vec<Method>,
}

impl View for Class {
    type V = ClassV;

    open spec fn view(&self) -> ClassV {
        ClassV {
            package_name: self.package_name@,
            dependencies: self.dependencies.deep_view(),
            deprecation: self.deprecation@,
            access: self.access@,
            version: self.version@,
            author: self.author@,
            class_name: self.class_name@,
            description: self.description@,
            methods: self.methods.deep_view(),
        }
    }
}

} // verus!
