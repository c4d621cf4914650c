use vstd::prelude::*;

verus! {

/// The capability every loadable extension provides.
///
/// An extension reports a name, fixed for the whole life of the object, under
/// which the host registers it, and runs commands on an ordered list of
/// arguments.  What a command does is up to the extension: the host only
/// passes the arguments on and hands the outcome back.
pub trait Plugin: Send + Sync {
    /// Holds of `args` and `outcome` when `execute(args)` may return
    /// `outcome`.  An implementation may narrow it; by default any outcome
    /// is possible.
    open spec fn spec_execute(&self, args: Seq<String>, outcome: Result<(), String>) -> bool {
        true
    }

    /// The name under which the extension is registered, the same for the
    /// whole life of the object.  The host reads it once, when it takes
    /// ownership of the object (see `Extension::new`).
    fn name(&self) -> &str;

    /// Runs a command; an error is a diagnostic that the host does not read.
    fn execute(&self, args: Vec<String>) -> (r: Result<(), String>)
        ensures
            self.spec_execute(args@, r),
    ;
}

/// An extension object together with the name it reported when the host
/// took ownership of it.  That reading is the only one: the name kept here
/// is the name the extension is filed and found under.
pub struct Extension<P> {
    name: String,
    object: P,
}

impl<P: Plugin> Extension<P> {
    /// The name the extension reported.
    pub closed spec fn spec_name(&self) -> Seq<char> {
        self.name@
    }

    /// The extension object.
    pub closed spec fn spec_object(&self) -> P {
        self.object
    }

    /// Takes ownership of an extension object and reads its name, once.
    pub fn new(object: P) -> (r: Self)
        ensures
            r.spec_object() == object,
    {
        let name = object.name().to_owned();
        Extension { name, object }
    }

    /// The name the extension reported.
    pub fn name(&self) -> (r: &str)
        ensures
            r@ == self.spec_name(),
    {
        self.name.as_str()
    }

    /// The extension object.
    pub fn object(&self) -> (r: &P)
        ensures
            *r == self.spec_object(),
    {
        &self.object
    }

    /// Whether the extension reported `name`.
    pub fn is_named(&self, name: &String) -> (r: bool)
        ensures
            r == (self.spec_name() == name@),
    {
        self.name == *name
    }

    /// Runs a command on the extension object: the arguments go to its
    /// `execute` as they are, and its outcome comes back as it is.
    pub fn execute(&self, args: Vec<String>) -> (r: Result<(), String>)
        ensures
            self.spec_object().spec_execute(args@, r),
    {
        self.object.execute(args)
    }
}

/// Why loading an extension or dispatching a command to one failed.
#[derive(Debug, PartialEq, Eq)]
pub enum PluginError {
    /// The module could not be opened; holds the loader's diagnostic.
    LoadError(String),
    /// The module lacks the entry symbol; holds the loader's diagnostic.
    SymbolError(String),
    /// The entry point returned no object, or the load did not complete.
    InitError,
    /// An extension of this name is already registered.
    DuplicateNameError(String),
    /// No extension of this name is registered.
    PluginNotFoundError(String),
    /// The extension's own command failed; holds its diagnostic.
    ExecutionError(String),
}

/// What the host returns for an extension's own outcome: success as is, an
/// error wrapped with its diagnostic untouched.
pub open spec fn dispatched(outcome: Result<(), String>) -> Result<(), PluginError> {
    match outcome {
        Ok(()) => Ok(()),
        Err(e) => Err(PluginError::ExecutionError(e)),
    }
}

impl PluginError {
    /// The text that describes this error.
    pub open spec fn spec_message(&self) -> Seq<char> {
        match self {
            PluginError::LoadError(d) => "Failed to load library: "@ + d@,
            PluginError::SymbolError(d) => "Entry symbol not found: "@ + d@,
            PluginError::InitError => "Plugin initialization failed"@,
            PluginError::DuplicateNameError(n) => "Plugin already registered: "@ + n@,
            PluginError::PluginNotFoundError(n) => "Plugin not found: "@ + n@,
            PluginError::ExecutionError(d) => "Plugin execution failed: "@ + d@,
        }
    }

    /// Describes the error for a person.
    pub fn message(&self) -> (r: String)
        ensures
            r@ == self.spec_message(),
    {
        match self {
            PluginError::LoadError(d) => String::from_str("Failed to load library: ").concat(d.as_str()),
            PluginError::SymbolError(d) => String::from_str("Entry symbol not found: ").concat(d.as_str()),
            PluginError::InitError => String::from_str("Plugin initialization failed"),
            PluginError::DuplicateNameError(n) => String::from_str("Plugin already registered: ").concat(n.as_str()),
            PluginError::PluginNotFoundError(n) => String::from_str("Plugin not found: ").concat(n.as_str()),
            PluginError::ExecutionError(d) => String::from_str("Plugin execution failed: ").concat(d.as_str()),
        }
    }
}

} // verus!
