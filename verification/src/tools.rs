//! The tool registry: the named, described, schema-bearing local actions
//! the router can select.
//!
//! Each tool splits into three steps. `parameters` describes the input it
//! accepts; `prepare` validates a structured input against that schema and
//! turns it into the filesystem action to perform; `conclude` turns the
//! outcome of that action, reported back by the surrounding process, into
//! the tool's result text or error. Only the filesystem step itself — pure
//! I/O — happens outside this crate.

use vstd::prelude::*;

verus! {

use vstd::string::StringExecFns;
use crate::errors::ToolError;

/// One value of a structured tool input. The tools only read text values;
/// anything else counts as absent for a required text field.
#[derive(Debug, Clone)]
pub enum InputValue {
    Text(String),
    Other,
}

/// One named field of a structured tool input.
#[derive(Debug, Clone)]
pub struct InputField {
    pub name: String,
    pub value: InputValue,
}

/// A structured tool input: the named fields of the invocation payload.
#[derive(Debug, Clone)]
pub struct ToolInput {
    pub fields: Vec<InputField>,
}

/// The text value of the first field named `name`, if that field exists
/// and holds text.
pub open spec fn text_of(fields: Seq<InputField>, name: Seq<char>) -> Option<Seq<char>>
    decreases fields.len(),
{
    if fields.len() == 0 {
        None
    } else if fields[0].name@ == name {
        match fields[0].value {
            InputValue::Text(s) => Some(s@),
            InputValue::Other => None,
        }
    } else {
        text_of(fields.drop_first(), name)
    }
}

impl ToolInput {
    /// An input with no fields.
    pub fn empty() -> (r: ToolInput)
        ensures
            r.fields@.len() == 0,
    {
        ToolInput { fields: Vec::new() }
    }

    /// Adds a text field.
    pub fn push_text(&mut self, name: String, value: String)
        ensures
            final(self).fields@ == old(self).fields@.push(
                InputField { name, value: InputValue::Text(value) },
            ),
    {
        self.fields.push(InputField { name, value: InputValue::Text(value) });
    }

    /// Adds a field holding something other than text.
    pub fn push_other(&mut self, name: String)
        ensures
            final(self).fields@ == old(self).fields@.push(
                InputField { name, value: InputValue::Other },
            ),
    {
        self.fields.push(InputField { name, value: InputValue::Other });
    }

    /// The text value of the first field named `name`, if any.
    pub fn get_text(&self, name: &String) -> (r: Option<String>)
        ensures
            r is Some <==> text_of(self.fields@, name@) is Some,
            r matches Some(s) ==> text_of(self.fields@, name@) == Some(s@),
    {
        let n = self.fields.len();
        let mut i: usize = 0;
        proof {
            assert(self.fields@.skip(0) =~= self.fields@);
        }
        while i < n
            invariant
                i <= n,
                n == self.fields@.len(),
                text_of(self.fields@, name@) == text_of(self.fields@.skip(i as int), name@),
            decreases n - i,
        {
            proof {
                assert(self.fields@.skip(i as int).drop_first() =~= self.fields@.skip(i + 1));
                assert(self.fields@.skip(i as int)[0] == self.fields@[i as int]);
            }
            let f = &self.fields[i];
            if f.name == *name {
                match &f.value {
                    InputValue::Text(s) => {
                        return Some(s.clone());
                    },
                    InputValue::Other => {
                        return None;
                    },
                }
            }
            i += 1;
        }
        proof {
            assert(self.fields@.skip(n as int) =~= Seq::<InputField>::empty());
        }
        None
    }
}

/// One property of a tool's parameter schema.
#[derive(Debug, Clone)]
pub struct ParamProperty {
    pub name: String,
    pub value_type: String,
    pub description: String,
    pub required: bool,
}

/// A tool's parameter schema: the named fields it accepts.
#[derive(Debug, Clone)]
pub struct ParamSchema {
    pub properties: Vec<ParamProperty>,
}

/// The filesystem action a validated tool invocation asks for.
#[derive(Debug, Clone)]
pub enum FsAction {
    ReadFile { path: String },
    ChangeDir { path: String },
    ListDir,
    GetCwd,
}

/// What reading a file came to.
#[derive(Debug, Clone)]
pub enum ReadFileOutcome {
    /// The path does not exist.
    Missing,
    /// The path exists but is not a regular file.
    NotRegular,
    /// The full text contents of the file.
    Contents(String),
    /// The read itself failed, with the OS error text.
    Failed(String),
}

/// What changing the working directory came to.
#[derive(Debug, Clone)]
pub enum ChangeDirOutcome {
    Changed,
    /// The OS refused the change, with its error text.
    Failed(String),
}

/// What listing the working directory came to. Entries that could not be
/// read individually are already skipped, not reported.
#[derive(Debug, Clone)]
pub enum ListDirOutcome {
    Entries(Vec<String>),
    /// The directory could not be read at all, with the OS error text.
    Failed(String),
}

/// What resolving the working directory came to.
#[derive(Debug, Clone)]
pub enum GetCwdOutcome {
    Cwd(String),
    /// The OS could not resolve it, with its error text.
    Failed(String),
}

/// The entry names joined by single newlines: empty for no entries, and no
/// trailing newline.
pub open spec fn spec_join_lines(entries: Seq<String>) -> Seq<char>
    decreases entries.len(),
{
    if entries.len() == 0 {
        Seq::<char>::empty()
    } else if entries.len() == 1 {
        entries[0]@
    } else {
        spec_join_lines(entries.drop_last()) + "\n"@ + entries.last()@
    }
}

/// Joins entry names with newlines.
pub fn join_lines(entries: &Vec<String>) -> (r: String)
    ensures
        r@ == spec_join_lines(entries@),
{
    let mut out = String::new();
    let mut i: usize = 0;
    while i < entries.len()
        invariant
            i <= entries@.len(),
            out@ == spec_join_lines(entries@.take(i as int)),
        decreases entries@.len() - i,
    {
        proof {
            assert(entries@.take(i + 1).drop_last() =~= entries@.take(i as int));
            assert(entries@.take(i + 1).last() == entries@[i as int]);
        }
        if i > 0 {
            out.append("\n");
        }
        out.append(entries[i].as_str());
        i += 1;
    }
    proof {
        assert(entries@.take(entries@.len() as int) =~= entries@);
    }
    out
}

/// The `cat` tool: reads the contents of a file.
#[derive(Debug, Clone, Copy)]
pub struct CatTool;

impl CatTool {
    pub fn name(&self) -> (r: String)
        ensures
            r@ == "cat"@,
    {
        String::from_str("cat")
    }

    pub fn description(&self) -> (r: String)
        ensures
            r@ == "Reads the contents of a file."@,
    {
        String::from_str("Reads the contents of a file.")
    }

    /// One required text field: the path of the file to read.
    pub fn parameters(&self) -> (r: ParamSchema)
        ensures
            r.properties@.len() == 1,
            r.properties@[0].name@ == "file_path"@,
            r.properties@[0].value_type@ == "string"@,
            r.properties@[0].description@ == "The path to the file to read."@,
            r.properties@[0].required,
    {
        let mut properties = Vec::new();
        properties.push(
            ParamProperty {
                name: String::from_str("file_path"),
                value_type: String::from_str("string"),
                description: String::from_str("The path to the file to read."),
                required: true,
            },
        );
        ParamSchema { properties }
    }

    /// Validates the input: succeeds, with the file-read action, exactly
    /// when the required text field `file_path` is present.
    pub fn prepare(&self, input: &ToolInput) -> (r: Result<FsAction, ToolError>)
        ensures
            r is Ok <==> text_of(input.fields@, "file_path"@) is Some,
            r matches Ok(a) ==> (a matches FsAction::ReadFile { path } && Some(path@) == text_of(
                input.fields@,
                "file_path"@,
            )),
            r matches Err(e) ==> (e matches ToolError::InvalidToolInput { field } && field@
                == "file_path"@),
    {
        match input.get_text(&String::from_str("file_path")) {
            Some(path) => Ok(FsAction::ReadFile { path }),
            None => Err(ToolError::InvalidToolInput { field: String::from_str("file_path") }),
        }
    }

    /// Interprets the outcome of the read: a missing path is `NotFound`, a
    /// non-file is `NotAFile`, contents are the result text.
    pub fn conclude(&self, path: &String, outcome: ReadFileOutcome) -> (r: Result<
        String,
        ToolError,
    >)
        ensures
            outcome is Missing ==> (r matches Err(ToolError::NotFound { path: p }) && p@
                == path@),
            outcome is NotRegular ==> (r matches Err(ToolError::NotAFile { path: p }) && p@
                == path@),
            outcome matches ReadFileOutcome::Contents(c) ==> (r matches Ok(text) && text@ == c@),
            outcome matches ReadFileOutcome::Failed(d) ==> (r matches Err(
                ToolError::EnvironmentError { detail },
            ) && detail@ == d@),
    {
        match outcome {
            ReadFileOutcome::Missing => Err(ToolError::NotFound { path: path.clone() }),
            ReadFileOutcome::NotRegular => Err(ToolError::NotAFile { path: path.clone() }),
            ReadFileOutcome::Contents(c) => Ok(c),
            ReadFileOutcome::Failed(d) => Err(ToolError::EnvironmentError { detail: d }),
        }
    }
}

/// The `cd` tool: changes the current working directory.
#[derive(Debug, Clone, Copy)]
pub struct CdTool;

impl CdTool {
    pub fn name(&self) -> (r: String)
        ensures
            r@ == "cd"@,
    {
        String::from_str("cd")
    }

    pub fn description(&self) -> (r: String)
        ensures
            r@ == "Change the current working directory. Use this function to change directories."@,
    {
        String::from_str(
            "Change the current working directory. Use this function to change directories.",
        )
    }

    /// One required text field: the path of the directory to change to.
    pub fn parameters(&self) -> (r: ParamSchema)
        ensures
            r.properties@.len() == 1,
            r.properties@[0].name@ == "path"@,
            r.properties@[0].value_type@ == "string"@,
            r.properties@[0].description@ == "The path of the directory to change to."@,
            r.properties@[0].required,
    {
        let mut properties = Vec::new();
        properties.push(
            ParamProperty {
                name: String::from_str("path"),
                value_type: String::from_str("string"),
                description: String::from_str("The path of the directory to change to."),
                required: true,
            },
        );
        ParamSchema { properties }
    }

    /// Validates the input: succeeds, with the directory-change action,
    /// exactly when the required text field `path` is present.
    pub fn prepare(&self, input: &ToolInput) -> (r: Result<FsAction, ToolError>)
        ensures
            r is Ok <==> text_of(input.fields@, "path"@) is Some,
            r matches Ok(a) ==> (a matches FsAction::ChangeDir { path } && Some(path@) == text_of(
                input.fields@,
                "path"@,
            )),
            r matches Err(e) ==> (e matches ToolError::InvalidToolInput { field } && field@
                == "path"@),
    {
        match input.get_text(&String::from_str("path")) {
            Some(path) => Ok(FsAction::ChangeDir { path }),
            None => Err(ToolError::InvalidToolInput { field: String::from_str("path") }),
        }
    }

    /// Interprets the outcome of the change: success confirms the new
    /// path, a refusal is a `DirectoryChangeError`.
    pub fn conclude(&self, path: &String, outcome: ChangeDirOutcome) -> (r: Result<
        String,
        ToolError,
    >)
        ensures
            outcome is Changed ==> (r matches Ok(text) && text@ == "Changed current directory to "@
                + path@),
            outcome matches ChangeDirOutcome::Failed(d) ==> (r matches Err(
                ToolError::DirectoryChangeError { detail },
            ) && detail@ == d@),
    {
        match outcome {
            ChangeDirOutcome::Changed => Ok(
                String::from_str("Changed current directory to ").concat(path.as_str()),
            ),
            ChangeDirOutcome::Failed(d) => Err(ToolError::DirectoryChangeError { detail: d }),
        }
    }
}

/// The `ls` tool: lists the current working directory.
#[derive(Debug, Clone, Copy)]
pub struct ListDirTool;

impl ListDirTool {
    pub fn name(&self) -> (r: String)
        ensures
            r@ == "ls"@,
    {
        String::from_str("ls")
    }

    pub fn description(&self) -> (r: String)
        ensures
            r@ == "Lists all files and directories in the current working directory."@,
    {
        String::from_str("Lists all files and directories in the current working directory.")
    }

    /// No fields: the tool takes no input.
    pub fn parameters(&self) -> (r: ParamSchema)
        ensures
            r.properties@.len() == 0,
    {
        ParamSchema { properties: Vec::new() }
    }

    /// Takes no input: always the listing action.
    pub fn prepare(&self, _input: &ToolInput) -> (r: Result<FsAction, ToolError>)
        ensures
            r matches Ok(a) && a is ListDir,
    {
        Ok(FsAction::ListDir)
    }

    /// Interprets the outcome of the listing: the entry names joined by
    /// newlines.
    pub fn conclude(&self, outcome: ListDirOutcome) -> (r: Result<String, ToolError>)
        ensures
            outcome matches ListDirOutcome::Entries(entries) ==> (r matches Ok(text) && text@
                == spec_join_lines(entries@)),
            outcome matches ListDirOutcome::Failed(d) ==> (r matches Err(
                ToolError::EnvironmentError { detail },
            ) && detail@ == d@),
    {
        match outcome {
            ListDirOutcome::Entries(entries) => Ok(join_lines(&entries)),
            ListDirOutcome::Failed(d) => Err(ToolError::EnvironmentError { detail: d }),
        }
    }
}

/// The `get_cwd` tool: reports the current working directory.
#[derive(Debug, Clone, Copy)]
pub struct GetCwdTool;

impl GetCwdTool {
    pub fn name(&self) -> (r: String)
        ensures
            r@ == "get_cwd"@,
    {
        String::from_str("get_cwd")
    }

    pub fn description(&self) -> (r: String)
        ensures
            r@ == "Returns the current working directory."@,
    {
        String::from_str("Returns the current working directory.")
    }

    /// No fields: the tool takes no input.
    pub fn parameters(&self) -> (r: ParamSchema)
        ensures
            r.properties@.len() == 0,
    {
        ParamSchema { properties: Vec::new() }
    }

    /// Takes no input: always the resolve action.
    pub fn prepare(&self, _input: &ToolInput) -> (r: Result<FsAction, ToolError>)
        ensures
            r matches Ok(a) && a is GetCwd,
    {
        Ok(FsAction::GetCwd)
    }

    /// Interprets the outcome: the absolute path, or `EnvironmentError`.
    pub fn conclude(&self, outcome: GetCwdOutcome) -> (r: Result<String, ToolError>)
        ensures
            outcome matches GetCwdOutcome::Cwd(p) ==> (r matches Ok(text) && text@ == p@),
            outcome matches GetCwdOutcome::Failed(d) ==> (r matches Err(
                ToolError::EnvironmentError { detail },
            ) && detail@ == d@),
    {
        match outcome {
            GetCwdOutcome::Cwd(p) => Ok(p),
            GetCwdOutcome::Failed(d) => Err(ToolError::EnvironmentError { detail: d }),
        }
    }
}

/// Which registered tool a registry entry is.
#[derive(Debug, Clone, Copy, PartialEq, Eq, Structural)]
pub enum ToolKind {
    GetCwd,
    Cd,
    ListDir,
    Cat,
}

impl ToolKind {
    /// The tool's unique name, the stable identifier used in the registry
    /// and in model-facing function schemas.
    pub open spec fn name_spec(&self) -> Seq<char> {
        match self {
            ToolKind::GetCwd => "get_cwd"@,
            ToolKind::Cd => "cd"@,
            ToolKind::ListDir => "ls"@,
            ToolKind::Cat => "cat"@,
        }
    }

    /// The tool's human-readable description, also the text whose
    /// embedding is compared against the query.
    pub open spec fn description_spec(&self) -> Seq<char> {
        match self {
            ToolKind::GetCwd => "Returns the current working directory."@,
            ToolKind::Cd => "Change the current working directory. Use this function to change directories."@,
            ToolKind::ListDir => "Lists all files and directories in the current working directory."@,
            ToolKind::Cat => "Reads the contents of a file."@,
        }
    }

    pub fn name(&self) -> (r: String)
        ensures
            r@ == self.name_spec(),
    {
        match self {
            ToolKind::GetCwd => GetCwdTool.name(),
            ToolKind::Cd => CdTool.name(),
            ToolKind::ListDir => ListDirTool.name(),
            ToolKind::Cat => CatTool.name(),
        }
    }

    pub fn description(&self) -> (r: String)
        ensures
            r@ == self.description_spec(),
    {
        match self {
            ToolKind::GetCwd => GetCwdTool.description(),
            ToolKind::Cd => CdTool.description(),
            ToolKind::ListDir => ListDirTool.description(),
            ToolKind::Cat => CatTool.description(),
        }
    }

    pub fn parameters(&self) -> (r: ParamSchema)
        ensures
            self is Cat ==> r.properties@.len() == 1 && r.properties@[0].name@ == "file_path"@
                && r.properties@[0].required,
            self is Cd ==> r.properties@.len() == 1 && r.properties@[0].name@ == "path"@
                && r.properties@[0].required,
            (self is ListDir || self is GetCwd) ==> r.properties@.len() == 0,
    {
        match self {
            ToolKind::GetCwd => GetCwdTool.parameters(),
            ToolKind::Cd => CdTool.parameters(),
            ToolKind::ListDir => ListDirTool.parameters(),
            ToolKind::Cat => CatTool.parameters(),
        }
    }

    /// Validates a structured input against this tool's schema and builds
    /// the filesystem action it asks for.
    pub fn prepare(&self, input: &ToolInput) -> (r: Result<FsAction, ToolError>)
        ensures
            self is Cat ==> (r is Ok <==> text_of(input.fields@, "file_path"@) is Some),
            self is Cd ==> (r is Ok <==> text_of(input.fields@, "path"@) is Some),
            (self is ListDir || self is GetCwd) ==> r is Ok,
            r matches Err(e) ==> e is InvalidToolInput,
    {
        match self {
            ToolKind::GetCwd => GetCwdTool.prepare(input),
            ToolKind::Cd => CdTool.prepare(input),
            ToolKind::ListDir => ListDirTool.prepare(input),
            ToolKind::Cat => CatTool.prepare(input),
        }
    }
}

/// The first registered tool named `name`, if any.
pub open spec fn lookup_spec(tools: Seq<ToolKind>, name: Seq<char>) -> Option<ToolKind>
    decreases tools.len(),
{
    if tools.len() == 0 {
        None
    } else if tools[0].name_spec() == name {
        Some(tools[0])
    } else {
        lookup_spec(tools.drop_first(), name)
    }
}

/// The fixed, ordered collection of tools, registered once at startup.
#[derive(Debug, Clone)]
pub struct ToolRegistry {
    pub tools: Vec<ToolKind>,
}

impl ToolRegistry {
    /// The standard registry, in registration order.
    pub fn standard() -> (r: ToolRegistry)
        ensures
            r.tools@ == seq![ToolKind::GetCwd, ToolKind::Cd, ToolKind::ListDir, ToolKind::Cat],
    {
        let mut tools = Vec::new();
        tools.push(ToolKind::GetCwd);
        tools.push(ToolKind::Cd);
        tools.push(ToolKind::ListDir);
        tools.push(ToolKind::Cat);
        proof {
            assert(tools@ =~= seq![
                ToolKind::GetCwd,
                ToolKind::Cd,
                ToolKind::ListDir,
                ToolKind::Cat,
            ]);
        }
        ToolRegistry { tools }
    }

    /// How many tools are registered.
    pub fn len(&self) -> (r: usize)
        ensures
            r == self.tools@.len(),
    {
        self.tools.len()
    }

    /// The tool at one registry position.
    pub fn get(&self, i: usize) -> (r: ToolKind)
        requires
            i < self.tools@.len(),
        ensures
            r == self.tools@[i as int],
    {
        self.tools[i]
    }

    /// Looks a tool up by name; fails with `ToolNotFound` exactly when no
    /// registered tool has that name.
    pub fn lookup(&self, name: &String) -> (r: Result<ToolKind, ToolError>)
        ensures
            r is Ok <==> lookup_spec(self.tools@, name@) is Some,
            r matches Ok(t) ==> lookup_spec(self.tools@, name@) == Some(t),
            r matches Err(e) ==> (e matches ToolError::ToolNotFound { name: n } && n@ == name@),
    {
        let n = self.tools.len();
        let mut i: usize = 0;
        proof {
            assert(self.tools@.skip(0) =~= self.tools@);
        }
        while i < n
            invariant
                i <= n,
                n == self.tools@.len(),
                lookup_spec(self.tools@, name@) == lookup_spec(
                    self.tools@.skip(i as int),
                    name@,
                ),
            decreases n - i,
        {
            proof {
                assert(self.tools@.skip(i as int).drop_first() =~= self.tools@.skip(i + 1));
                assert(self.tools@.skip(i as int)[0] == self.tools@[i as int]);
            }
            let t = self.tools[i];
            if t.name() == *name {
                return Ok(t);
            }
            i += 1;
        }
        proof {
            assert(self.tools@.skip(n as int) =~= Seq::<ToolKind>::empty());
        }
        Err(ToolError::ToolNotFound { name: name.clone() })
    }

    /// The descriptions of all registered tools, in registration order:
    /// the texts whose embeddings the router compares against the query.
    pub fn descriptions(&self) -> (r: Vec<String>)
        ensures
            r@.len() == self.tools@.len(),
            forall|i: int| 0 <= i < self.tools@.len() ==> #[trigger] r@[i]@
                == self.tools@[i].description_spec(),
    {
        let mut out: Vec<String> = Vec::new();
        let mut i: usize = 0;
        while i < self.tools.len()
            invariant
                i <= self.tools@.len(),
                out@.len() == i,
                forall|j: int| 0 <= j < i ==> #[trigger] out@[j]@
                    == self.tools@[j].description_spec(),
            decreases self.tools@.len() - i,
        {
            let t = self.tools[i];
            out.push(t.description());
            i += 1;
        }
        out
    }

    /// The names of all registered tools, in registration order.
    pub fn names(&self) -> (r: Vec<String>)
        ensures
            r@.len() == self.tools@.len(),
            forall|i: int| 0 <= i < self.tools@.len() ==> #[trigger] r@[i]@
                == self.tools@[i].name_spec(),
    {
        let mut out: Vec<String> = Vec::new();
        let mut i: usize = 0;
        while i < self.tools.len()
            invariant
                i <= self.tools@.len(),
                out@.len() == i,
                forall|j: int| 0 <= j < i ==> #[trigger] out@[j]@ == self.tools@[j].name_spec(),
            decreases self.tools@.len() - i,
        {
            let t = self.tools[i];
            out.push(t.name());
            i += 1;
        }
        out
    }
}

} // verus!
