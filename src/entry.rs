//! The entry-point generator's decisions: which function signatures it
//! accepts, and the symbols, link sections and descriptor strings it emits for
//! each requested role. Token handling stays with the caller; everything that
//! the generated code is made of is decided and proved here.
use vstd::prelude::*;
use vstd::string::StringSliceAdditionalSpecFns;
use crate::bytes::{nul_terminated, push_bytes, push_str, to_c_string};

verus! {

/// The attribute arguments of a registered function. A role is requested when
/// its flag is present, whatever value it carries.
pub struct EntryArgs {
    pub name: Option<Vec<u8>>,
    pub component: Option<bool>,
    pub app: Option<bool>,
    pub cmd: Option<bool>,
    pub desc: Option<Vec<u8>>,
}

/// What the generator reads of the annotated function's signature.
#[derive(Debug, Clone, Copy, PartialEq, Eq, Structural)]
pub struct FnShape {
    pub is_const: bool,
    pub is_unsafe: bool,
    pub is_async: bool,
    pub is_public: bool,
    pub has_abi: bool,
    pub n_params: usize,
    pub n_generics: usize,
    pub has_where_clause: bool,
    pub is_variadic: bool,
    pub returns_value: bool,
}

/// The constraint that a rejected signature breaks.
#[derive(Debug, Clone, Copy, PartialEq, Eq, Structural)]
pub enum SignatureFault {
    Const,
    Unsafe,
    Async,
    Visibility,
    Abi,
    ParamCount,
    Generic,
    WhereClause,
    Variadic,
    ReturnValue,
}

/// Why no code is generated for a function.
#[derive(Debug, Clone, Copy, PartialEq, Eq, Structural)]
pub enum EntryError {
    MissingName,
    Signature(SignatureFault),
}

/// The first constraint, in a fixed order, that the signature breaks.
pub open spec fn first_fault(s: FnShape) -> Option<SignatureFault> {
    if s.is_const {
        Some(SignatureFault::Const)
    } else if s.is_unsafe {
        Some(SignatureFault::Unsafe)
    } else if s.is_async {
        Some(SignatureFault::Async)
    } else if s.is_public {
        Some(SignatureFault::Visibility)
    } else if s.has_abi {
        Some(SignatureFault::Abi)
    } else if s.n_params != 1 {
        Some(SignatureFault::ParamCount)
    } else if s.n_generics != 0 {
        Some(SignatureFault::Generic)
    } else if s.has_where_clause {
        Some(SignatureFault::WhereClause)
    } else if s.is_variadic {
        Some(SignatureFault::Variadic)
    } else if s.returns_value {
        Some(SignatureFault::ReturnValue)
    } else {
        None
    }
}

/// A signature is accepted when it is a private, non-`const`, safe,
/// synchronous, non-generic function of one parameter returning nothing.
pub open spec fn valid_shape(s: FnShape) -> bool {
    &&& !s.is_const
    &&& !s.is_unsafe
    &&& !s.is_async
    &&& !s.is_public
    &&& !s.has_abi
    &&& s.n_params == 1
    &&& s.n_generics == 0
    &&& !s.has_where_clause
    &&& !s.is_variadic
    &&& !s.returns_value
}

/// The diagnostic for each broken constraint.
pub open spec fn fault_text(f: SignatureFault) -> Seq<char> {
    match f {
        SignatureFault::Const => "entry function must not be `const`"@,
        SignatureFault::Unsafe => "entry function must not be `unsafe`"@,
        SignatureFault::Async => "entry function must not be `async`"@,
        SignatureFault::Visibility => "entry function must have default visibility"@,
        SignatureFault::Abi => "entry function must not declare an ABI"@,
        SignatureFault::ParamCount => "entry function must take exactly one parameter"@,
        SignatureFault::Generic => "entry function must not be generic"@,
        SignatureFault::WhereClause => "entry function must not have a `where` clause"@,
        SignatureFault::Variadic => "entry function must not be variadic"@,
        SignatureFault::ReturnValue => "entry function must not return a value"@,
    }
}

impl SignatureFault {
    /// The diagnostic naming the broken constraint.
    pub fn message(&self) -> (r: &'static str)
        ensures
            r@ == fault_text(*self),
    {
        match self {
            SignatureFault::Const => "entry function must not be `const`",
            SignatureFault::Unsafe => "entry function must not be `unsafe`",
            SignatureFault::Async => "entry function must not be `async`",
            SignatureFault::Visibility => "entry function must have default visibility",
            SignatureFault::Abi => "entry function must not declare an ABI",
            SignatureFault::ParamCount => "entry function must take exactly one parameter",
            SignatureFault::Generic => "entry function must not be generic",
            SignatureFault::WhereClause => "entry function must not have a `where` clause",
            SignatureFault::Variadic => "entry function must not be variadic",
            SignatureFault::ReturnValue => "entry function must not return a value",
        }
    }
}

/// Checks the annotated function's signature.
pub fn check_signature(s: &FnShape) -> (r: Result<(), SignatureFault>)
    ensures
        r == (match first_fault(*s) {
            Some(f) => Err(f),
            None => Ok(()),
        }),
        r is Ok <==> valid_shape(*s),
{
    if s.is_const {
        Err(SignatureFault::Const)
    } else if s.is_unsafe {
        Err(SignatureFault::Unsafe)
    } else if s.is_async {
        Err(SignatureFault::Async)
    } else if s.is_public {
        Err(SignatureFault::Visibility)
    } else if s.has_abi {
        Err(SignatureFault::Abi)
    } else if s.n_params != 1 {
        Err(SignatureFault::ParamCount)
    } else if s.n_generics != 0 {
        Err(SignatureFault::Generic)
    } else if s.has_where_clause {
        Err(SignatureFault::WhereClause)
    } else if s.is_variadic {
        Err(SignatureFault::Variadic)
    } else if s.returns_value {
        Err(SignatureFault::ReturnValue)
    } else {
        Ok(())
    }
}

/// Status that every generated wrapper returns to the kernel, whatever the
/// registered function did.
pub const ENTRY_STATUS: i32 = 0;

/// The roles under which a function can be registered.
#[derive(Debug, Clone, Copy, PartialEq, Eq, Structural)]
pub enum Role {
    Component,
    App,
    Cmd,
}

/// Word of the role in the generated symbol names.
pub open spec fn role_tag(r: Role) -> &'static str {
    match r {
        Role::Component => "component",
        Role::App => "app",
        Role::Cmd => "cmd",
    }
}

/// Link section that holds the role's descriptor record.
pub open spec fn role_section(r: Role) -> &'static str {
    match r {
        Role::Component => ".rti_fn.4",
        Role::App => ".rti_fn.6",
        Role::Cmd => "FSymTab",
    }
}

/// Link section of the shell command's name and description strings.
pub open spec fn string_section() -> &'static str {
    ".rodata.name"
}

/// Description recorded for a shell command that gives none.
pub open spec fn default_desc() -> &'static str {
    "No desc"
}

/// The generated symbol `__<name>_<tag><suffix>`.
pub open spec fn symbol(name: Seq<u8>, tag: &str, suffix: &str) -> Seq<u8> {
    "__".spec_bytes() + name + "_".spec_bytes() + tag.spec_bytes() + suffix.spec_bytes()
}

/// Name of the module that holds the generated items.
pub open spec fn module_symbol(name: Seq<u8>) -> Seq<u8> {
    "__init_func_".spec_bytes() + name + "_".spec_bytes()
}

/// Name of the C-ABI trampoline, shared by every role.
pub open spec fn trampoline_symbol(name: Seq<u8>) -> Seq<u8> {
    symbol(name, "main", "_func")
}

/// The NUL-terminated description string of a shell command.
pub open spec fn desc_c_string(desc: Option<Seq<u8>>) -> Seq<u8> {
    match desc {
        Some(d) => nul_terminated(d),
        None => nul_terminated(default_desc().spec_bytes()),
    }
}

/// Builds `__<name>_<tag><suffix>`.
fn make_symbol(name: &Vec<u8>, tag: &str, suffix: &str) -> (r: Vec<u8>)
    ensures
        r@ == symbol(name@, tag, suffix),
{
    let mut out: Vec<u8> = Vec::new();
    push_str(&mut out, "__");
    push_bytes(&mut out, name.as_slice());
    push_str(&mut out, "_");
    push_str(&mut out, tag);
    push_str(&mut out, suffix);
    assert(out@ =~= symbol(name@, tag, suffix));
    out
}

/// Descriptor of a boot-time role: a record in the role's section that points
/// at a zero-argument function returning a status.
pub struct BootDescriptor {
    pub role: Role,
    pub section: Vec<u8>,
    pub record: Vec<u8>,
    pub record_type: Vec<u8>,
    pub func: Vec<u8>,
}

impl BootDescriptor {
    /// The descriptor that the generator emits for `role` under `name`.
    pub open spec fn describes(&self, name: Seq<u8>, role: Role) -> bool {
        &&& self.role == role
        &&& self.section@ == role_section(role).spec_bytes()
        &&& self.record@ == symbol(name, role_tag(role), "_seg")
        &&& self.record_type@ == symbol(name, role_tag(role), "_seg_struct")
        &&& self.func@ == symbol(name, role_tag(role), "_func")
    }
}

/// Descriptor of the shell-command role: the record in the command table, its
/// two NUL-terminated strings, and the symbols they are emitted under.
pub struct ShellDescriptor {
    pub section: Vec<u8>,
    pub record: Vec<u8>,
    pub record_type: Vec<u8>,
    pub string_section: Vec<u8>,
    pub name_symbol: Vec<u8>,
    pub desc_symbol: Vec<u8>,
    pub name_c_string: Vec<u8>,
    pub desc_c_string: Vec<u8>,
}

impl ShellDescriptor {
    /// The descriptor that the generator emits for a command `name`
    /// described by `desc`.
    pub open spec fn describes(&self, name: Seq<u8>, desc: Option<Seq<u8>>) -> bool {
        &&& self.section@ == role_section(Role::Cmd).spec_bytes()
        &&& self.record@ == symbol(name, "cmd", "_seg")
        &&& self.record_type@ == symbol(name, "cmd", "_seg_struct")
        &&& self.string_section@ == string_section().spec_bytes()
        &&& self.name_symbol@ == symbol(name, "cmd", "_namestr")
        &&& self.desc_symbol@ == symbol(name, "cmd", "_descstr")
        &&& self.name_c_string@ == nul_terminated(name)
        &&& self.desc_c_string@ == desc_c_string(desc)
    }
}

/// Everything generated for one registered function: one trampoline, and one
/// descriptor for each requested role.
pub struct EntryPlan {
    pub module: Vec<u8>,
    pub trampoline: Vec<u8>,
    pub component: Option<BootDescriptor>,
    pub app: Option<BootDescriptor>,
    pub cmd: Option<ShellDescriptor>,
}

/// Number of present flags of an optional value.
pub open spec fn count<T>(o: Option<T>) -> nat {
    if o is Some {
        1
    } else {
        0
    }
}

impl EntryArgs {
    /// The name's bytes, when one is given.
    pub open spec fn name_view(&self) -> Option<Seq<u8>> {
        match self.name {
            Some(n) => Some(n@),
            None => None,
        }
    }

    /// The description's bytes, when one is given.
    pub open spec fn desc_view(&self) -> Option<Seq<u8>> {
        match self.desc {
            Some(d) => Some(d@),
            None => None,
        }
    }

    /// Number of roles requested.
    pub open spec fn role_count(&self) -> nat {
        count(self.component) + count(self.app) + count(self.cmd)
    }
}

impl EntryPlan {
    /// Number of descriptor records in the plan.
    pub open spec fn descriptor_count(&self) -> nat {
        count(self.component) + count(self.app) + count(self.cmd)
    }

    /// The plan is the generator's output for a function named `name`
    /// registered with `args`.
    pub open spec fn generated_for(&self, args: &EntryArgs, name: Seq<u8>) -> bool {
        &&& self.module@ == module_symbol(name)
        &&& self.trampoline@ == trampoline_symbol(name)
        &&& (self.component is Some <==> args.component is Some)
        &&& (self.app is Some <==> args.app is Some)
        &&& (self.cmd is Some <==> args.cmd is Some)
        &&& (self.component matches Some(d) ==> d.describes(name, Role::Component))
        &&& (self.app matches Some(d) ==> d.describes(name, Role::App))
        &&& (self.cmd matches Some(d) ==> d.describes(name, args.desc_view()))
    }
}

/// Why generation fails for these arguments and this signature, if it does:
/// a missing name first, then the first broken signature constraint.
pub open spec fn entry_error(args: &EntryArgs, s: FnShape) -> Option<EntryError> {
    if args.name is None {
        Some(EntryError::MissingName)
    } else {
        match first_fault(s) {
            Some(f) => Some(EntryError::Signature(f)),
            None => None,
        }
    }
}

fn boot_descriptor(name: &Vec<u8>, role: Role, tag: &str, section: &str) -> (r: BootDescriptor)
    requires
        tag == role_tag(role),
        section == role_section(role),
    ensures
        r.describes(name@, role),
{
    let mut sec: Vec<u8> = Vec::new();
    push_str(&mut sec, section);
    BootDescriptor {
        role,
        section: sec,
        record: make_symbol(name, tag, "_seg"),
        record_type: make_symbol(name, tag, "_seg_struct"),
        func: make_symbol(name, tag, "_func"),
    }
}

fn shell_descriptor(name: &Vec<u8>, desc: &Option<Vec<u8>>) -> (r: ShellDescriptor)
    ensures
        r.describes(
            name@,
            match desc {
                Some(d) => Some(d@),
                None => None,
            },
        ),
{
    let mut sec: Vec<u8> = Vec::new();
    push_str(&mut sec, "FSymTab");
    let mut strings: Vec<u8> = Vec::new();
    push_str(&mut strings, ".rodata.name");
    let desc_c = match desc {
        Some(d) => to_c_string(d.as_slice()),
        None => to_c_string("No desc".as_bytes()),
    };
    ShellDescriptor {
        section: sec,
        record: make_symbol(name, "cmd", "_seg"),
        record_type: make_symbol(name, "cmd", "_seg_struct"),
        string_section: strings,
        name_symbol: make_symbol(name, "cmd", "_namestr"),
        desc_symbol: make_symbol(name, "cmd", "_descstr"),
        name_c_string: to_c_string(name.as_slice()),
        desc_c_string: desc_c,
    }
}

/// Decides what the entry-point generator emits for a function with signature
/// `shape` registered with `args`: an error when the name is missing or the
/// signature is rejected, else the trampoline and one descriptor per role.
pub fn plan_entry(args: &EntryArgs, shape: &FnShape) -> (r: Result<EntryPlan, EntryError>)
    ensures
        match r {
            Ok(p) => entry_error(args, *shape) is None && p.generated_for(args, args.name_view()->0),
            Err(e) => entry_error(args, *shape) == Some(e),
        },
{
    let name = match &args.name {
        Some(n) => n,
        None => {
            return Err(EntryError::MissingName);
        },
    };
    match check_signature(shape) {
        Err(f) => {
            return Err(EntryError::Signature(f));
        },
        Ok(()) => {},
    }
    let mut module: Vec<u8> = Vec::new();
    push_str(&mut module, "__init_func_");
    push_bytes(&mut module, name.as_slice());
    push_str(&mut module, "_");
    assert(module@ =~= module_symbol(name@));
    let trampoline = make_symbol(name, "main", "_func");
    let component = match args.component {
        Some(_) => Some(boot_descriptor(name, Role::Component, "component", ".rti_fn.4")),
        None => None,
    };
    let app = match args.app {
        Some(_) => Some(boot_descriptor(name, Role::App, "app", ".rti_fn.6")),
        None => None,
    };
    let cmd = match args.cmd {
        Some(_) => Some(shell_descriptor(name, &args.desc)),
        None => None,
    };
    Ok(EntryPlan { module, trampoline, component, app, cmd })
}

/// Registration: with a name and an accepted signature, generation succeeds,
/// and the plan holds exactly one trampoline and one descriptor per requested
/// role; with a rejected signature, it fails naming the broken constraint.
pub proof fn lemma_registration(args: &EntryArgs, shape: FnShape, plan: EntryPlan)
    ensures
        args.name is Some ==> (entry_error(args, shape) is None <==> valid_shape(shape)),
        args.name is Some && !valid_shape(shape) ==> entry_error(args, shape) == Some(
            EntryError::Signature(first_fault(shape)->0),
        ),
        plan.generated_for(args, args.name_view()->0) ==> plan.descriptor_count()
            == args.role_count(),
{
}

} // verus!
