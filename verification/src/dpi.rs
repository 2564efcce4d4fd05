//! Foreign callbacks: host functions that the simulated hardware may call.
//! This module knows their C signatures and writes the C++ source that
//! forwards each import of the model to a function pointer handed over when
//! the library is loaded.

use crate::symbols::spec_dpi_init_symbol;
use crate::text::{decimal, decimal_string, join, joined, text_eq};
use vstd::prelude::*;
use vstd::string::*;

verus! {

/// The primitive types that may cross the callback boundary.
#[derive(Debug, Clone, Copy, PartialEq, Eq, Hash, Structural)]
pub enum DPIPrimitiveType {
    Bool,
    U8,
    U16,
    U32,
    U64,
    I8,
    I16,
    I32,
    I64,
}

impl DPIPrimitiveType {
    /// The name of the type in C.
    pub open spec fn c_name(self) -> Seq<char> {
        match self {
            DPIPrimitiveType::Bool => "svBit"@,
            DPIPrimitiveType::U8 => "uint8_t"@,
            DPIPrimitiveType::U16 => "uint16_t"@,
            DPIPrimitiveType::U32 => "uint32_t"@,
            DPIPrimitiveType::U64 => "uint64_t"@,
            DPIPrimitiveType::I8 => "int8_t"@,
            DPIPrimitiveType::I16 => "int16_t"@,
            DPIPrimitiveType::I32 => "int32_t"@,
            DPIPrimitiveType::I64 => "int64_t"@,
        }
    }

    /// The name of the type on the host side.
    pub open spec fn host_name(self) -> Seq<char> {
        match self {
            DPIPrimitiveType::Bool => "bool"@,
            DPIPrimitiveType::U8 => "u8"@,
            DPIPrimitiveType::U16 => "u16"@,
            DPIPrimitiveType::U32 => "u32"@,
            DPIPrimitiveType::U64 => "u64"@,
            DPIPrimitiveType::I8 => "i8"@,
            DPIPrimitiveType::I16 => "i16"@,
            DPIPrimitiveType::I32 => "i32"@,
            DPIPrimitiveType::I64 => "i64"@,
        }
    }

    /// The name of the type in C.
    pub fn as_c(&self) -> (text: &'static str)
        ensures
            text@ == self.c_name(),
    {
        match self {
            DPIPrimitiveType::Bool => "svBit",
            DPIPrimitiveType::U8 => "uint8_t",
            DPIPrimitiveType::U16 => "uint16_t",
            DPIPrimitiveType::U32 => "uint32_t",
            DPIPrimitiveType::U64 => "uint64_t",
            DPIPrimitiveType::I8 => "int8_t",
            DPIPrimitiveType::I16 => "int16_t",
            DPIPrimitiveType::I32 => "int32_t",
            DPIPrimitiveType::I64 => "int64_t",
        }
    }

    /// The name of the type on the host side.
    pub fn name(&self) -> (text: &'static str)
        ensures
            text@ == self.host_name(),
    {
        match self {
            DPIPrimitiveType::Bool => "bool",
            DPIPrimitiveType::U8 => "u8",
            DPIPrimitiveType::U16 => "u16",
            DPIPrimitiveType::U32 => "u32",
            DPIPrimitiveType::U64 => "u64",
            DPIPrimitiveType::I8 => "i8",
            DPIPrimitiveType::I16 => "i16",
            DPIPrimitiveType::I32 => "i32",
            DPIPrimitiveType::I64 => "i64",
        }
    }
}

/// The primitive type that the host calls `name`, if there is one.
pub open spec fn spec_parse_dpi_primitive_type(name: Seq<char>) -> Option<DPIPrimitiveType> {
    if name == "bool"@ {
        Some(DPIPrimitiveType::Bool)
    } else if name == "u8"@ {
        Some(DPIPrimitiveType::U8)
    } else if name == "u16"@ {
        Some(DPIPrimitiveType::U16)
    } else if name == "u32"@ {
        Some(DPIPrimitiveType::U32)
    } else if name == "u64"@ {
        Some(DPIPrimitiveType::U64)
    } else if name == "i8"@ {
        Some(DPIPrimitiveType::I8)
    } else if name == "i16"@ {
        Some(DPIPrimitiveType::I16)
    } else if name == "i32"@ {
        Some(DPIPrimitiveType::I32)
    } else if name == "i64"@ {
        Some(DPIPrimitiveType::I64)
    } else {
        None
    }
}

/// Recognises the host-side name of a primitive type.
pub fn parse_dpi_primitive_type(name: &str) -> (parsed: Option<DPIPrimitiveType>)
    ensures
        parsed == spec_parse_dpi_primitive_type(name@),
{
    if text_eq(name, "bool") {
        Some(DPIPrimitiveType::Bool)
    } else if text_eq(name, "u8") {
        Some(DPIPrimitiveType::U8)
    } else if text_eq(name, "u16") {
        Some(DPIPrimitiveType::U16)
    } else if text_eq(name, "u32") {
        Some(DPIPrimitiveType::U32)
    } else if text_eq(name, "u64") {
        Some(DPIPrimitiveType::U64)
    } else if text_eq(name, "i8") {
        Some(DPIPrimitiveType::I8)
    } else if text_eq(name, "i16") {
        Some(DPIPrimitiveType::I16)
    } else if text_eq(name, "i32") {
        Some(DPIPrimitiveType::I32)
    } else if text_eq(name, "i64") {
        Some(DPIPrimitiveType::I64)
    } else {
        None
    }
}

/// A host-side name that is recognised is the name of the type it gives.
pub proof fn lemma_parse_gives_named_type(name: Seq<char>)
    ensures
        spec_parse_dpi_primitive_type(name) matches Some(t) ==> t.host_name() == name,
{
}

/// How a parameter of a callback is passed.
#[derive(Debug, Clone, Copy, PartialEq, Eq, Hash, Structural)]
pub enum DPIType {
    /// By value: an input of the callback.
    Input(DPIPrimitiveType),
    /// By pointer: an output, or an input that is also an output.
    Inout(DPIPrimitiveType),
}

impl DPIType {
    /// The C type of the parameter.
    pub open spec fn c_type_text(self) -> Seq<char> {
        match self {
            DPIType::Input(inner) => inner.c_name(),
            DPIType::Inout(inner) => inner.c_name() + "*"@,
        }
    }

    /// The C type of the parameter.
    pub fn c_type(&self) -> (text: String)
        ensures
            text@ == self.c_type_text(),
    {
        match self {
            DPIType::Input(inner) => inner.as_c().to_owned(),
            DPIType::Inout(inner) => {
                let mut text = inner.as_c().to_owned();
                text.append("*");
                text
            },
        }
    }
}

/// One parameter of a callback, as C sees it.
#[derive(Debug, Clone)]
pub struct DpiParameter {
    pub name: String,
    pub c_type: String,
}

/// What a [`DpiParameter`] holds.
pub ghost struct DpiParameterView {
    pub name: Seq<char>,
    pub c_type: Seq<char>,
}

impl View for DpiParameter {
    type V = DpiParameterView;

    open spec fn view(&self) -> DpiParameterView {
        DpiParameterView { name: self.name@, c_type: self.c_type@ }
    }
}

impl DeepView for DpiParameter {
    type V = DpiParameterView;

    open spec fn deep_view(&self) -> DpiParameterView {
        self@
    }
}

/// A host function that the model imports: its name, which is also the
/// name of the import in the hardware description, its return type in C,
/// and its parameters in order.
#[derive(Debug, Clone)]
pub struct DpiFunction {
    pub name: String,
    pub return_type: String,
    pub parameters: Vec<DpiParameter>,
}

/// What a [`DpiFunction`] holds.
pub ghost struct DpiFunctionView {
    pub name: Seq<char>,
    pub return_type: Seq<char>,
    pub parameters: Seq<DpiParameterView>,
}

impl View for DpiFunction {
    type V = DpiFunctionView;

    open spec fn view(&self) -> DpiFunctionView {
        DpiFunctionView {
            name: self.name@,
            return_type: self.return_type@,
            parameters: self.parameters.deep_view(),
        }
    }
}

impl DeepView for DpiFunction {
    type V = DpiFunctionView;

    open spec fn deep_view(&self) -> DpiFunctionView {
        self@
    }
}

/// The declaration of one parameter.
pub open spec fn parameter_text(parameter: DpiParameterView) -> Seq<char> {
    parameter.c_type + " "@ + parameter.name
}

impl DpiFunctionView {
    /// The parameter list of the function in C.
    pub open spec fn parameters_text(self) -> Seq<char> {
        joined(
            Seq::new(self.parameters.len(), |i: int| parameter_text(self.parameters[i])),
            ", "@,
        )
    }

    /// The names of the parameters, as they are passed on.
    pub open spec fn arguments_text(self) -> Seq<char> {
        joined(Seq::new(self.parameters.len(), |i: int| self.parameters[i].name), ","@)
    }

    /// The pointer that holds the host function, and the C function of the
    /// import's name that calls through it.
    pub open spec fn declaration_text(self) -> Seq<char> {
        "static "@ + self.return_type + " (*rust_"@ + self.name + ")("@ + self.parameters_text()
            + ");\nextern \"C\" "@ + self.return_type + " "@ + self.name + "("@
            + self.parameters_text() + ") {\n    return rust_"@ + self.name + "("@
            + self.arguments_text() + ");\n}"@
    }

    /// The statement that takes the host function from place `index` of
    /// the array given at initialization.
    pub open spec fn initializer_text(self, index: int) -> Seq<char> {
        "   rust_"@ + self.name + " = ( "@ + self.return_type + "(*)("@ + self.parameters_text()
            + ") ) callbacks["@ + decimal(index as nat) + "];"@
    }
}

/// The whole callback glue of the model `top`: a declaration for each
/// function, and an initializer that takes the host functions from an
/// array in the order of `functions`.
pub open spec fn dpi_text(top: Seq<char>, functions: Seq<DpiFunctionView>) -> Seq<char> {
    "#include \"svdpi.h\"\n#include \"V"@ + top + "__Dpi.h\"\n#include <stdint.h>\n"@ + joined(
        Seq::new(functions.len(), |i: int| functions[i].declaration_text()),
        "\n"@,
    ) + "\nextern \"C\" void "@ + spec_dpi_init_symbol() + "(void** callbacks) {\n"@ + joined(
        Seq::new(functions.len(), |i: int| functions[i].initializer_text(i)),
        "\n"@,
    ) + "\n}"@
}

impl DpiParameter {
    /// A copy of the parameter.
    pub fn duplicate(&self) -> (copy: Self)
        ensures
            copy@ == self@,
    {
        DpiParameter { name: self.name.clone(), c_type: self.c_type.clone() }
    }
}

/// A copy of a list of callbacks.
pub fn duplicate_functions(functions: &Vec<DpiFunction>) -> (copy: Vec<DpiFunction>)
    ensures
        copy.deep_view() == functions.deep_view(),
{
    let mut copy: Vec<DpiFunction> = Vec::new();
    let mut i: usize = 0;
    while i < functions.len()
        invariant
            i <= functions.len(),
            copy.deep_view() =~= functions.deep_view().take(i as int),
        decreases functions.len() - i,
    {
        let ghost before = copy.deep_view();
        let function = functions[i].duplicate();
        copy.push(function);
        assert(copy.deep_view() =~= before.push(functions[i as int]@));
        i = i + 1;
    }
    assert(functions.deep_view().take(functions.len() as int) =~= functions.deep_view());
    copy
}

impl DpiFunction {
    /// A copy of the function.
    pub fn duplicate(&self) -> (copy: Self)
        ensures
            copy@ == self@,
    {
        let mut parameters: Vec<DpiParameter> = Vec::new();
        let mut i: usize = 0;
        while i < self.parameters.len()
            invariant
                i <= self.parameters.len(),
                parameters.deep_view() =~= self.parameters.deep_view().take(i as int),
            decreases self.parameters.len() - i,
        {
            let ghost before = parameters.deep_view();
            let parameter = self.parameters[i].duplicate();
            parameters.push(parameter);
            assert(parameters.deep_view() =~= before.push(self.parameters[i as int]@));
            i = i + 1;
        }
        assert(self.parameters.deep_view().take(self.parameters.len() as int)
            =~= self.parameters.deep_view());
        DpiFunction {
            name: self.name.clone(),
            return_type: self.return_type.clone(),
            parameters,
        }
    }

    /// Describes a callback without a return value.
    pub fn new(name: &str, parameters: Vec<DpiParameter>) -> (function: Self)
        ensures
            function@ == (DpiFunctionView {
                name: name@,
                return_type: "void"@,
                parameters: parameters.deep_view(),
            }),
    {
        DpiFunction { name: name.to_owned(), return_type: "void".to_owned(), parameters }
    }

    fn parameters_code(&self) -> (text: String)
        ensures
            text@ == self@.parameters_text(),
    {
        let ghost views = self.parameters.deep_view();
        let mut parts: Vec<String> = Vec::new();
        let mut i: usize = 0;
        while i < self.parameters.len()
            invariant
                i <= self.parameters.len(),
                views == self.parameters.deep_view(),
                parts.deep_view() =~= Seq::new(i as nat, |k: int| parameter_text(views[k])),
            decreases self.parameters.len() - i,
        {
            let mut part = self.parameters[i].c_type.clone();
            part.append(" ");
            part.append(self.parameters[i].name.as_str());
            assert(views[i as int] == self.parameters[i as int]@);
            let ghost before = parts.deep_view();
            let ghost added = part@;
            parts.push(part);
            assert(parts.deep_view() =~= before.push(added));
            i = i + 1;
        }
        join(&parts, ", ")
    }

    fn arguments_code(&self) -> (text: String)
        ensures
            text@ == self@.arguments_text(),
    {
        let ghost views = self.parameters.deep_view();
        let mut parts: Vec<String> = Vec::new();
        let mut i: usize = 0;
        while i < self.parameters.len()
            invariant
                i <= self.parameters.len(),
                views == self.parameters.deep_view(),
                parts.deep_view() =~= Seq::new(i as nat, |k: int| views[k].name),
            decreases self.parameters.len() - i,
        {
            assert(views[i as int] == self.parameters[i as int]@);
            let ghost before = parts.deep_view();
            parts.push(self.parameters[i].name.clone());
            assert(parts.deep_view() =~= before.push(views[i as int].name));
            i = i + 1;
        }
        join(&parts, ",")
    }

    /// Writes the declaration of the function.
    pub fn declaration(&self) -> (text: String)
        ensures
            text@ == self@.declaration_text(),
    {
        let parameters = self.parameters_code();
        let arguments = self.arguments_code();
        let mut text = "static ".to_owned();
        text.append(self.return_type.as_str());
        text.append(" (*rust_");
        text.append(self.name.as_str());
        text.append(")(");
        text.append(parameters.as_str());
        text.append(");\nextern \"C\" ");
        text.append(self.return_type.as_str());
        text.append(" ");
        text.append(self.name.as_str());
        text.append("(");
        text.append(parameters.as_str());
        text.append(") {\n    return rust_");
        text.append(self.name.as_str());
        text.append("(");
        text.append(arguments.as_str());
        text.append(");\n}");
        text
    }

    /// Writes the initializer of the function for place `index`.
    pub fn initializer(&self, index: usize) -> (text: String)
        ensures
            text@ == self@.initializer_text(index as int),
    {
        let parameters = self.parameters_code();
        let mut text = "   rust_".to_owned();
        text.append(self.name.as_str());
        text.append(" = ( ");
        text.append(self.return_type.as_str());
        text.append("(*)(");
        text.append(parameters.as_str());
        text.append(") ) callbacks[");
        let place = decimal_string(index as u64);
        text.append(place.as_str());
        text.append("];");
        text
    }
}

/// Writes the callback glue of the model `top_module`.
pub fn build_dpi(top_module: &str, functions: &Vec<DpiFunction>) -> (text: String)
    ensures
        text@ == dpi_text(top_module@, functions.deep_view()),
{
    let ghost views = functions.deep_view();
    let mut declarations: Vec<String> = Vec::new();
    let mut initializers: Vec<String> = Vec::new();
    let mut i: usize = 0;
    while i < functions.len()
        invariant
            i <= functions.len(),
            views == functions.deep_view(),
            declarations.deep_view() =~= Seq::new(i as nat, |k: int| views[k].declaration_text()),
            initializers.deep_view() =~= Seq::new(i as nat, |k: int| views[k].initializer_text(k)),
        decreases functions.len() - i,
    {
        assert(views[i as int] == functions[i as int]@);
        let ghost declared = declarations.deep_view();
        let ghost initialized = initializers.deep_view();
        declarations.push(functions[i].declaration());
        initializers.push(functions[i].initializer(i));
        assert(declarations.deep_view() =~= declared.push(views[i as int].declaration_text()));
        assert(initializers.deep_view() =~= initialized.push(
            views[i as int].initializer_text(i as int),
        ));
        i = i + 1;
    }
    let mut text = "#include \"svdpi.h\"\n#include \"V".to_owned();
    text.append(top_module);
    text.append("__Dpi.h\"\n#include <stdint.h>\n");
    let declared = join(&declarations, "\n");
    text.append(declared.as_str());
    text.append("\nextern \"C\" void ");
    text.append("dpi_init_callback");
    text.append("(void** callbacks) {\n");
    let initialized = join(&initializers, "\n");
    text.append(initialized.as_str());
    text.append("\n}");
    text
}

/// Whether the callback glue has to be written: unless the file on disk
/// could be read and holds exactly the generated text.
pub open spec fn dpi_stale(current: Option<Seq<char>>, generated: Seq<char>) -> bool {
    current != Some(generated)
}

/// What is to be done about the callback glue.
#[derive(Debug, Clone)]
pub enum DpiBinding {
    /// There are no callbacks, and so no glue.
    Absent,
    /// The glue on disk is as it should be.
    Unchanged,
    /// The glue has to be written with `code`.
    Regenerate { code: String },
}

/// What a [`DpiBinding`] holds.
pub ghost enum DpiBindingView {
    Absent,
    Unchanged,
    Regenerate { code: Seq<char> },
}

impl View for DpiBinding {
    type V = DpiBindingView;

    open spec fn view(&self) -> DpiBindingView {
        match self {
            DpiBinding::Absent => DpiBindingView::Absent,
            DpiBinding::Unchanged => DpiBindingView::Unchanged,
            DpiBinding::Regenerate { code } => DpiBindingView::Regenerate { code: code@ },
        }
    }
}

/// What is to be done about the callback glue of the model `top`, given
/// the text that the glue file holds now, if it could be read: nothing if
/// there are no callbacks; nothing if the file holds the generated text;
/// otherwise the text is to be written. Contents are compared, never
/// times.
pub open spec fn spec_bind_dpi(
    top: Seq<char>,
    functions: Seq<DpiFunctionView>,
    current: Option<Seq<char>>,
) -> DpiBindingView {
    if functions.len() == 0 {
        DpiBindingView::Absent
    } else if dpi_stale(current, dpi_text(top, functions)) {
        DpiBindingView::Regenerate { code: dpi_text(top, functions) }
    } else {
        DpiBindingView::Unchanged
    }
}

/// Generates the callback glue, if there are callbacks, and decides
/// whether it has to be written.
pub fn bind_dpi_if_needed(
    top_module: &str,
    dpi_functions: &Vec<DpiFunction>,
    current: &Option<String>,
) -> (binding: DpiBinding)
    ensures
        binding@ == spec_bind_dpi(
            top_module@,
            dpi_functions.deep_view(),
            match current {
                Some(text) => Some(text@),
                None => None,
            },
        ),
{
    if dpi_functions.len() == 0 {
        return DpiBinding::Absent;
    }
    let code = build_dpi(top_module, dpi_functions);
    let unchanged = match current {
        Some(text) => text_eq(text.as_str(), code.as_str()),
        None => false,
    };
    if unchanged {
        DpiBinding::Unchanged
    } else {
        DpiBinding::Regenerate { code }
    }
}

} // verus!
