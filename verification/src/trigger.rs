//! Triggers: commands that the server runs when files change.

use crate::admin::command_of_root;
use crate::admin::command_with;
use crate::admin::encode_command_of_root;
use crate::admin::encode_command_with;
use crate::codec::decoded;
use crate::codec::defaulted;
use crate::codec::optional;
use crate::codec::required;
use crate::codec::spec_defaulted;
use crate::codec::spec_optional;
use crate::codec::spec_required;
use crate::codec::Decode;
use crate::encode::encoded;
use crate::encode::entry;
use crate::encode::entry_flag;
use crate::encode::entry_some;
use crate::encode::some_text;
use crate::encode::text_array;
use crate::encode::texts;
use crate::encode::ObjectBuilder;
use crate::error::DecodeError;
use crate::error::EncodeError;
use crate::wire::Wire;
use crate::wire::WireView;
use vstd::prelude::*;

verus! {

/// What the command of a trigger is given to read.
#[derive(Debug, Clone, PartialEq)]
pub enum TriggerStdinConfig {
    /// Nothing.
    DevNull,
    /// One record for each file that matched, with the fields named here.
    FieldNames(Vec<String>),
    /// The name of each file that matched, one to a line.
    NamePerLine,
}

/// The mathematical value of a [`TriggerStdinConfig`].
pub ghost enum TriggerStdinConfigView {
    DevNull,
    FieldNames(Seq<Seq<char>>),
    NamePerLine,
}

impl DeepView for TriggerStdinConfig {
    type V = TriggerStdinConfigView;

    open spec fn deep_view(&self) -> TriggerStdinConfigView {
        match self {
            TriggerStdinConfig::DevNull => TriggerStdinConfigView::DevNull,
            TriggerStdinConfig::FieldNames(names) => TriggerStdinConfigView::FieldNames(
                names.deep_view(),
            ),
            TriggerStdinConfig::NamePerLine => TriggerStdinConfigView::NamePerLine,
        }
    }
}

impl TriggerStdinConfigView {
    /// The policy on the wire: the path of the null device for nothing, the
    /// list of the names for records, a fixed word for names.
    pub open spec fn wire(self) -> WireView {
        match self {
            TriggerStdinConfigView::DevNull => WireView::Text("/dev/null"@),
            TriggerStdinConfigView::FieldNames(names) => texts(names),
            TriggerStdinConfigView::NamePerLine => WireView::Text("NAME_PER_LINE"@),
        }
    }

    /// What is written for a policy that may be absent: null where it is.
    pub open spec fn wire_of(this: Option<TriggerStdinConfigView>) -> WireView {
        match this {
            Some(config) => config.wire(),
            None => WireView::Null,
        }
    }
}

impl Default for TriggerStdinConfig {
    fn default() -> (c: TriggerStdinConfig)
        ensures
            c.deep_view() == TriggerStdinConfigView::DevNull,
    {
        TriggerStdinConfig::DevNull
    }
}

impl TriggerStdinConfig {
    /// The policy on the wire.
    pub fn encode(&self) -> (w: Wire)
        ensures
            w@ == self.deep_view().wire(),
    {
        match self {
            TriggerStdinConfig::DevNull => Wire::text("/dev/null"),
            TriggerStdinConfig::FieldNames(names) => text_array(names),
            TriggerStdinConfig::NamePerLine => Wire::text("NAME_PER_LINE"),
        }
    }

    /// What is written for a policy that may be absent: null where it is.
    pub fn serialize(this: &Option<TriggerStdinConfig>) -> (w: Wire)
        ensures
            w@ == TriggerStdinConfigView::wire_of(this.deep_view()),
    {
        match this {
            Some(config) => config.encode(),
            None => Wire::Null,
        }
    }
}

/// The definition of a trigger.
#[derive(Debug, Clone, PartialEq)]
pub struct TriggerRequest {
    /// The name of the trigger.
    pub name: String,
    /// The command to run, with its arguments.
    pub command: Vec<String>,
    /// Whether the names of the files that matched are added to the
    /// arguments of the command.
    pub append_files: bool,
    /// The expression that a file must match. Its content is the
    /// caller's.
    pub expression: Option<Wire>,
    /// What the command is given to read.
    pub stdin: Option<TriggerStdinConfig>,
    /// The file that the output of the command goes to: behind `>` to
    /// overwrite it, behind `>>` to append to it.
    pub stdout: Option<String>,
    /// The file that the errors of the command go to, written as for
    /// `stdout`.
    pub stderr: Option<String>,
    /// The most files that the command is told of on its input.
    pub max_files_stdin: Option<u64>,
    /// The directory that the command runs in, from the watched root.
    pub chdir: Option<String>,
    /// The directory below the watched root that the trigger looks at.
    pub relative_root: Option<String>,
}

/// The mathematical value of a [`TriggerRequest`].
pub ghost struct TriggerRequestView {
    pub name: Seq<char>,
    pub command: Seq<Seq<char>>,
    pub append_files: bool,
    pub expression: Option<WireView>,
    pub stdin: Option<TriggerStdinConfigView>,
    pub stdout: Option<Seq<char>>,
    pub stderr: Option<Seq<char>>,
    pub max_files_stdin: Option<u64>,
    pub chdir: Option<Seq<char>>,
    pub relative_root: Option<Seq<char>>,
}

impl DeepView for TriggerRequest {
    type V = TriggerRequestView;

    open spec fn deep_view(&self) -> TriggerRequestView {
        TriggerRequestView {
            name: self.name.deep_view(),
            command: self.command.deep_view(),
            append_files: self.append_files.deep_view(),
            expression: self.expression.deep_view(),
            stdin: self.stdin.deep_view(),
            stdout: self.stdout.deep_view(),
            stderr: self.stderr.deep_view(),
            max_files_stdin: self.max_files_stdin.deep_view(),
            chdir: self.chdir.deep_view(),
            relative_root: self.relative_root.deep_view(),
        }
    }
}

impl Decode for TriggerRequest {
    /// A definition that the server sends back holds neither the expression
    /// nor the input policy in a form that is read: both come out absent,
    /// whatever the map holds under their keys.
    open spec fn spec_decode(w: WireView) -> Result<TriggerRequestView, DecodeError> {
        let name = spec_required::<String>(w, "name");
        let command = spec_required::<Vec<String>>(w, "command");
        let append_files = spec_defaulted::<bool>(w, "append_files", false);
        let stdout = spec_optional::<String>(w, "stdout");
        let stderr = spec_optional::<String>(w, "stderr");
        let max_files_stdin = spec_optional::<u64>(w, "max_files_stdin");
        let chdir = spec_optional::<String>(w, "chdir");
        let relative_root = spec_optional::<String>(w, "relative_root");
        if name is Err {
            Err(name->Err_0)
        } else if command is Err {
            Err(command->Err_0)
        } else if append_files is Err {
            Err(append_files->Err_0)
        } else if stdout is Err {
            Err(stdout->Err_0)
        } else if stderr is Err {
            Err(stderr->Err_0)
        } else if max_files_stdin is Err {
            Err(max_files_stdin->Err_0)
        } else if chdir is Err {
            Err(chdir->Err_0)
        } else if relative_root is Err {
            Err(relative_root->Err_0)
        } else {
            Ok(
                TriggerRequestView {
                    name: name->Ok_0,
                    command: command->Ok_0,
                    append_files: append_files->Ok_0,
                    expression: None,
                    stdin: None,
                    stdout: stdout->Ok_0,
                    stderr: stderr->Ok_0,
                    max_files_stdin: max_files_stdin->Ok_0,
                    chdir: chdir->Ok_0,
                    relative_root: relative_root->Ok_0,
                },
            )
        }
    }

    fn decode(w: &Wire) -> (r: Result<TriggerRequest, DecodeError>)
        ensures
            decoded(r) == Self::spec_decode(w@),
    {
        let name = required::<String>(w, "name")?;
        let command = required::<Vec<String>>(w, "command")?;
        let append_files = defaulted::<bool>(w, "append_files", false)?;
        let stdout = optional::<String>(w, "stdout")?;
        let stderr = optional::<String>(w, "stderr")?;
        let max_files_stdin = optional::<u64>(w, "max_files_stdin")?;
        let chdir = optional::<String>(w, "chdir")?;
        let relative_root = optional::<String>(w, "relative_root")?;
        Ok(
            TriggerRequest {
                name,
                command,
                append_files,
                expression: None,
                stdin: None,
                stdout,
                stderr,
                max_files_stdin,
                chdir,
                relative_root,
            },
        )
    }
}

impl TriggerRequestView {
    /// The limit on the files as a wire value, where there is a limit that
    /// the wire can hold.
    pub open spec fn max_files_wire(self) -> Option<WireView> {
        match self.max_files_stdin {
            Some(n) => Some(WireView::Integer(n as i64)),
            None => None,
        }
    }

    /// The input policy as a wire value, where there is one.
    pub open spec fn stdin_wire(self) -> Option<WireView> {
        match self.stdin {
            Some(config) => Some(config.wire()),
            None => None,
        }
    }

    /// Whether the definition can be written: the wire holds signed
    /// integers, so a limit above the largest of them cannot.
    pub open spec fn encodable(self) -> bool {
        match self.max_files_stdin {
            Some(n) => n <= i64::MAX,
            None => true,
        }
    }

    /// The map on the wire, for a definition that can be written: the name
    /// and the command always, a flag only where it is set, every other
    /// part only where it is there.
    pub open spec fn wire(self) -> WireView {
        WireView::Object(
            entry("name"@, WireView::Text(self.name)) + entry("command"@, texts(self.command))
                + entry_flag("append_files"@, self.append_files) + entry_some(
                "expression"@,
                self.expression,
            ) + entry_some("stdin"@, self.stdin_wire()) + entry_some(
                "stdout"@,
                some_text(self.stdout),
            ) + entry_some("stderr"@, some_text(self.stderr)) + entry_some(
                "max_files_stdin"@,
                self.max_files_wire(),
            ) + entry_some("chdir"@, some_text(self.chdir)) + entry_some(
                "relative_root"@,
                some_text(self.relative_root),
            ),
        )
    }

    /// What `encode` returns.
    pub open spec fn spec_encode(self) -> Result<WireView, EncodeError> {
        if self.encodable() {
            Ok(self.wire())
        } else {
            Err(EncodeError::IntegerTooLarge("max_files_stdin"))
        }
    }
}

impl TriggerRequest {
    /// The map on the wire, or why there is none.
    pub fn encode(&self) -> (r: Result<Wire, EncodeError>)
        ensures
            encoded(r) == self.deep_view().spec_encode(),
    {
        let max_files = match self.max_files_stdin {
            Some(n) => {
                if n > 0x7fff_ffff_ffff_ffff {
                    return Err(EncodeError::IntegerTooLarge("max_files_stdin"));
                }
                Some(Wire::Integer(n as i64))
            },
            None => None,
        };
        let stdin = match &self.stdin {
            Some(config) => Some(config.encode()),
            None => None,
        };
        let mut b = ObjectBuilder::new();
        b.put_text("name", &self.name);
        b.put("command", text_array(&self.command));
        b.put_flag("append_files", self.append_files);
        b.put_some("expression", self.expression.clone());
        b.put_some("stdin", stdin);
        b.put_some_text("stdout", &self.stdout);
        b.put_some_text("stderr", &self.stderr);
        b.put_some("max_files_stdin", max_files);
        b.put_some_text("chdir", &self.chdir);
        b.put_some_text("relative_root", &self.relative_root);
        assert(b@ =~= self.deep_view().wire()->Object_0);
        Ok(b.finish())
    }
}

impl Default for TriggerRequest {
    /// The definition with no name, no command and nothing else.
    fn default() -> (t: TriggerRequest)
        ensures
            t.deep_view() == (TriggerRequestView {
                name: Seq::empty(),
                command: Seq::empty(),
                append_files: false,
                expression: None,
                stdin: None,
                stdout: None,
                stderr: None,
                max_files_stdin: None,
                chdir: None,
                relative_root: None,
            }),
    {
        let t = TriggerRequest {
            name: String::new(),
            command: Vec::new(),
            append_files: false,
            expression: None,
            stdin: None,
            stdout: None,
            stderr: None,
            max_files_stdin: None,
            chdir: None,
            relative_root: None,
        };
        assert(t.command.deep_view() =~= Seq::empty());
        t
    }
}

/// The command `trigger`: its name, the watched root, the definition.
#[derive(Debug, Clone)]
pub struct TriggerCommand(pub &'static str, pub String, pub TriggerRequest);

impl TriggerCommand {
    /// The command for the watched root `root`, under its name `trigger`,
    /// with the definition of the trigger.
    pub fn new(root: String, definition: TriggerRequest) -> (c: TriggerCommand)
        ensures
            c.0@ == "trigger"@,
            c.1 == root,
            c.2 == definition,
    {
        TriggerCommand("trigger", root, definition)
    }

    /// What `encode` returns: the sequence of the three, where the
    /// definition can be written.
    pub open spec fn spec_encode(&self) -> Result<WireView, EncodeError> {
        match self.2.deep_view().spec_encode() {
            Ok(definition) => Ok(command_with(self.0@, self.1@, definition)),
            Err(e) => Err(e),
        }
    }

    /// The command on the wire, or why there is none.
    pub fn encode(&self) -> (r: Result<Wire, EncodeError>)
        ensures
            encoded(r) == self.spec_encode(),
    {
        match self.2.encode() {
            Ok(definition) => Ok(encode_command_with(self.0, &self.1, definition)),
            Err(e) => Err(e),
        }
    }
}

/// The answer to `trigger`.
#[derive(Debug, Clone, PartialEq)]
pub struct TriggerResponse {
    /// The version of the server.
    pub version: String,
    /// What the server did with the definition.
    pub disposition: String,
    /// The name of the trigger.
    pub triggerid: String,
}

/// The mathematical value of a [`TriggerResponse`].
pub ghost struct TriggerResponseView {
    pub version: Seq<char>,
    pub disposition: Seq<char>,
    pub triggerid: Seq<char>,
}

impl DeepView for TriggerResponse {
    type V = TriggerResponseView;

    open spec fn deep_view(&self) -> TriggerResponseView {
        TriggerResponseView {
            version: self.version.deep_view(),
            disposition: self.disposition.deep_view(),
            triggerid: self.triggerid.deep_view(),
        }
    }
}

impl Decode for TriggerResponse {
    open spec fn spec_decode(w: WireView) -> Result<TriggerResponseView, DecodeError> {
        let version = spec_required::<String>(w, "version");
        let disposition = spec_required::<String>(w, "disposition");
        let triggerid = spec_required::<String>(w, "triggerid");
        if version is Err {
            Err(version->Err_0)
        } else if disposition is Err {
            Err(disposition->Err_0)
        } else if triggerid is Err {
            Err(triggerid->Err_0)
        } else {
            Ok(
                TriggerResponseView {
                    version: version->Ok_0,
                    disposition: disposition->Ok_0,
                    triggerid: triggerid->Ok_0,
                },
            )
        }
    }

    fn decode(w: &Wire) -> (r: Result<TriggerResponse, DecodeError>)
        ensures
            decoded(r) == Self::spec_decode(w@),
    {
        let version = required::<String>(w, "version")?;
        let disposition = required::<String>(w, "disposition")?;
        let triggerid = required::<String>(w, "triggerid")?;
        Ok(TriggerResponse { version, disposition, triggerid })
    }
}

/// The command `trigger-del`: its name, the watched root, the name of the
/// trigger.
#[derive(Debug, Clone)]
pub struct TriggerDelCommand(pub &'static str, pub String, pub String);

impl TriggerDelCommand {
    /// The command for the watched root `root`, under its name `trigger-del`,
    /// with the name of the trigger.
    pub fn new(root: String, name: String) -> (c: TriggerDelCommand)
        ensures
            c.0@ == "trigger-del"@,
            c.1 == root,
            c.2 == name,
    {
        TriggerDelCommand("trigger-del", root, name)
    }

    /// The command on the wire.
    pub open spec fn wire(&self) -> WireView {
        command_with(self.0@, self.1@, WireView::Text(self.2@))
    }

    /// The command on the wire.
    pub fn encode(&self) -> (w: Wire)
        ensures
            w@ == self.wire(),
    {
        encode_command_with(self.0, &self.1, Wire::Text(self.2.clone()))
    }
}

/// The answer to `trigger-del`.
#[derive(Debug, Clone, PartialEq)]
pub struct TriggerDelResponse {
    /// The version of the server.
    pub version: String,
    /// Whether there was such a trigger to delete.
    pub deleted: bool,
    /// The name of the trigger.
    pub trigger: String,
}

/// The mathematical value of a [`TriggerDelResponse`].
pub ghost struct TriggerDelResponseView {
    pub version: Seq<char>,
    pub deleted: bool,
    pub trigger: Seq<char>,
}

impl DeepView for TriggerDelResponse {
    type V = TriggerDelResponseView;

    open spec fn deep_view(&self) -> TriggerDelResponseView {
        TriggerDelResponseView {
            version: self.version.deep_view(),
            deleted: self.deleted.deep_view(),
            trigger: self.trigger.deep_view(),
        }
    }
}

impl Decode for TriggerDelResponse {
    open spec fn spec_decode(w: WireView) -> Result<TriggerDelResponseView, DecodeError> {
        let version = spec_required::<String>(w, "version");
        let deleted = spec_required::<bool>(w, "deleted");
        let trigger = spec_required::<String>(w, "trigger");
        if version is Err {
            Err(version->Err_0)
        } else if deleted is Err {
            Err(deleted->Err_0)
        } else if trigger is Err {
            Err(trigger->Err_0)
        } else {
            Ok(
                TriggerDelResponseView {
                    version: version->Ok_0,
                    deleted: deleted->Ok_0,
                    trigger: trigger->Ok_0,
                },
            )
        }
    }

    fn decode(w: &Wire) -> (r: Result<TriggerDelResponse, DecodeError>)
        ensures
            decoded(r) == Self::spec_decode(w@),
    {
        let version = required::<String>(w, "version")?;
        let deleted = required::<bool>(w, "deleted")?;
        let trigger = required::<String>(w, "trigger")?;
        Ok(TriggerDelResponse { version, deleted, trigger })
    }
}

/// The command `trigger-list`.
#[derive(Debug, Clone)]
pub struct TriggerListCommand(pub &'static str, pub String);

impl TriggerListCommand {
    /// The command for the watched root `root`, under its name `trigger-list`.
    pub fn new(root: String) -> (c: TriggerListCommand)
        ensures
            c.0@ == "trigger-list"@,
            c.1 == root,
    {
        TriggerListCommand("trigger-list", root)
    }

    /// The command on the wire: its name, then the watched root.
    pub open spec fn wire(&self) -> WireView {
        command_of_root(self.0@, self.1@)
    }

    /// The command on the wire.
    pub fn encode(&self) -> (w: Wire)
        ensures
            w@ == self.wire(),
    {
        encode_command_of_root(self.0, &self.1)
    }
}

/// The answer to `trigger-list`.
#[derive(Debug, Clone, PartialEq)]
pub struct TriggerListResponse {
    /// The version of the server.
    pub version: String,
    /// The triggers of the watched root.
    pub triggers: Vec<TriggerRequest>,
}

/// The mathematical value of a [`TriggerListResponse`].
pub ghost struct TriggerListResponseView {
    pub version: Seq<char>,
    pub triggers: Seq<TriggerRequestView>,
}

impl DeepView for TriggerListResponse {
    type V = TriggerListResponseView;

    open spec fn deep_view(&self) -> TriggerListResponseView {
        TriggerListResponseView {
            version: self.version.deep_view(),
            triggers: self.triggers.deep_view(),
        }
    }
}

impl Decode for TriggerListResponse {
    open spec fn spec_decode(w: WireView) -> Result<TriggerListResponseView, DecodeError> {
        let version = spec_required::<String>(w, "version");
        let triggers = spec_required::<Vec<TriggerRequest>>(w, "triggers");
        if version is Err {
            Err(version->Err_0)
        } else if triggers is Err {
            Err(triggers->Err_0)
        } else {
            Ok(
                TriggerListResponseView {
                    version: version->Ok_0,
                    triggers: triggers->Ok_0,
                },
            )
        }
    }

    fn decode(w: &Wire) -> (r: Result<TriggerListResponse, DecodeError>)
        ensures
            decoded(r) == Self::spec_decode(w@),
    {
        let version = required::<String>(w, "version")?;
        let triggers = required::<Vec<TriggerRequest>>(w, "triggers")?;
        Ok(TriggerListResponse { version, triggers })
    }
}
} // verus!
