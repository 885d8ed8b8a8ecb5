//! The tool registry: maps a tool's name to its schema and executor, and
//! dispatches reconstructed tool calls.
//!
//! Registering a tool under a name already present silently replaces the
//! earlier registration; executing an unregistered name fails with a
//! not-found error and no other effect.

use vstd::prelude::*;
use vstd::map::*;

use crate::args::{arg_model, str_eq, ArgModel, ArgValue};
use crate::json::json_arg_of_text;
use crate::json::parse_json_text;
use crate::protocol::{ToolCall, ToolDefinition, ToolResult};

verus! {

/// A capability handler: its registry key, the text and schema shown to the
/// backend, and its executor. The embedding application implements this for
/// tools whose execution needs the outside world; nothing is assumed of
/// what `execute` returns, and the contracts of the other methods are only
/// checked for implementations inside this crate.
pub trait ToolExecutor: Sized {
    /// The registry key. A tool of the crate gives its fixed name; a tool
    /// of the embedding application leaves the default.
    open spec fn spec_name(&self) -> Seq<char> {
        Seq::empty()
    }

    /// The model-facing description.
    open spec fn spec_description(&self) -> Seq<char> {
        Seq::empty()
    }

    /// The declared parameter schema.
    open spec fn spec_parameters(&self) -> ArgModel {
        ArgModel::Null
    }

    /// The registry key, unique among registered tools.
    fn name(&self) -> (r: String)
        ensures
            r@ == self.spec_name(),
    ;

    /// The model-facing description.
    fn description(&self) -> (r: String)
        ensures
            r@ == self.spec_description(),
    ;

    /// The structured document describing the accepted arguments.
    fn parameters(&self) -> (r: ArgValue)
        ensures
            r@ == self.spec_parameters(),
    ;

    /// Runs the tool on structured arguments: its output text, or a failure
    /// text.
    fn execute(&self, arguments: &ArgValue) -> Result<String, String>;
}

/// A dispatch failure.
#[derive(Debug, PartialEq, Eq)]
pub enum ToolFailure {
    /// No tool is registered under the call's name.
    NotFound { name: String },
    /// The call's arguments came string-encoded and do not parse.
    ArgumentParse { raw: String },
    /// The matched handler reported a failure.
    Execution { message: String },
}

/// The model of a [`ToolFailure`].
pub enum ToolFailureModel {
    NotFound { name: Seq<char> },
    ArgumentParse { raw: Seq<char> },
    Execution { message: Seq<char> },
}

impl View for ToolFailure {
    type V = ToolFailureModel;

    open spec fn view(&self) -> ToolFailureModel {
        match self {
            ToolFailure::NotFound { name } => ToolFailureModel::NotFound { name: name@ },
            ToolFailure::ArgumentParse { raw } => ToolFailureModel::ArgumentParse { raw: raw@ },
            ToolFailure::Execution { message } => ToolFailureModel::Execution {
                message: message@,
            },
        }
    }
}

/// The failure's user-visible text.
pub open spec fn failure_message_model(f: ToolFailureModel) -> Seq<char> {
    match f {
        ToolFailureModel::NotFound { name } => "工具 '"@ + name + "' 未找到"@,
        ToolFailureModel::ArgumentParse { raw } => "参数解析失败: "@ + raw,
        ToolFailureModel::Execution { message } => "工具执行失败: "@ + message,
    }
}

impl ToolFailure {
    /// The failure's user-visible text.
    pub fn message(&self) -> (r: String)
        ensures
            r@ == failure_message_model(self@),
    {
        match self {
            ToolFailure::NotFound { name } => {
                let mut s = "工具 '".to_owned();
                s.append(name.as_str());
                s.append("' 未找到");
                s
            },
            ToolFailure::ArgumentParse { raw } => {
                let mut s = "参数解析失败: ".to_owned();
                s.append(raw.as_str());
                s
            },
            ToolFailure::Execution { message } => {
                let mut s = "工具执行失败: ".to_owned();
                s.append(message.as_str());
                s
            },
        }
    }
}

/// Whether a call's arguments were delivered string-encoded and do not
/// parse as a structured value.
pub open spec fn args_unparseable(m: ArgModel) -> bool {
    match m {
        ArgModel::Str(s) => json_arg_of_text(s) is None,
        _ => false,
    }
}

/// The name-keyed table that a registration sequence builds: each entry
/// holds the name the tool gave when it was registered, and a later entry
/// under the same name overwrites an earlier one.
pub open spec fn tools_map<H: ToolExecutor>(s: Seq<(String, H)>) -> Map<Seq<char>, H>
    decreases s.len(),
{
    if s.len() == 0 {
        Map::empty()
    } else {
        tools_map(s.drop_last()).insert(s.last().0@, s.last().1)
    }
}

/// The tool registry. Every tool is stored under the name it gave when it
/// was registered, so the registry's well-formedness and lookup guarantees
/// hold of any implementation of the tool trait, checked or not.
pub struct ToolRegistry<H: ToolExecutor> {
    tools: Vec<(String, H)>,
}

impl<H: ToolExecutor> ToolRegistry<H> {
    /// The stored entries — registration name and tool — in registration
    /// order.
    pub closed spec fn spec_entries(&self) -> Seq<(String, H)> {
        self.tools@
    }

    /// The registered tools, in registration order.
    pub open spec fn spec_tools(&self) -> Seq<H> {
        Seq::new(self.spec_entries().len(), |i: int| self.spec_entries()[i].1)
    }

    /// The registered tools, keyed by their registration names.
    pub open spec fn as_map(&self) -> Map<Seq<char>, H> {
        tools_map(self.spec_entries())
    }

    /// Well-formed: at most one entry per registration name.
    pub open spec fn wf(&self) -> bool {
        forall|i: int, j: int|
            0 <= i < j < self.spec_entries().len() ==> (#[trigger] self.spec_entries()[i]).0@ != (
            #[trigger] self.spec_entries()[j]).0@
    }

    /// An empty registry.
    pub fn new() -> (r: ToolRegistry<H>)
        ensures
            r.wf(),
            r.spec_tools() == Seq::<H>::empty(),
            r.as_map() == Map::<Seq<char>, H>::empty(),
    {
        let r = ToolRegistry { tools: Vec::new() };
        r
    }

    /// Registers a tool by its name; a tool already registered under that
    /// name is silently replaced, every other registration is untouched.
    pub fn register(&mut self, tool: H)
        requires
            old(self).wf(),
        ensures
            final(self).wf(),
            final(self).as_map() == old(self).as_map().insert(tool.spec_name(), tool),
    {
        let key = tool.name();
        let n = self.tools.len();
        let ghost s0 = old(self).spec_entries();
        let ghost p = (key, tool);
        for i in 0..n
            invariant
                n == self.tools@.len(),
                self.spec_entries() == s0,
                s0 == old(self).spec_entries(),
                old(self).wf(),
                p == (key, tool),
                key@ == tool.spec_name(),
                forall|j: int| 0 <= j < i ==> (#[trigger] s0[j]).0@ != key@,
        {
            if str_eq(self.tools[i].0.as_str(), key.as_str()) {
                let removed = self.tools.remove(i);
                self.tools.insert(i, (key, tool));
                proof {
                    assert(self.spec_entries() =~= s0.update(i as int, p));
                    lemma_tools_map_update(s0, i as int, p);
                }
                return ;
            }
        }
        self.tools.push((key, tool));
        proof {
            assert(self.spec_entries().drop_last() =~= s0);
            assert(self.spec_entries().last() == p);
            lemma_tools_map_absent(s0, p.0@);
        }
    }

    /// Looks a tool up by name.
    pub fn get(&self, name: &str) -> (r: Option<&H>)
        requires
            self.wf(),
        ensures
            match r {
                Some(h) => self.as_map().contains_key(name@) && self.as_map()[name@] == *h,
                None => !self.as_map().contains_key(name@),
            },
    {
        let n = self.tools.len();
        for i in 0..n
            invariant
                n == self.tools@.len(),
                self.wf(),
                forall|j: int| 0 <= j < i ==> (#[trigger] self.spec_entries()[j]).0@ != name@,
        {
            if str_eq(self.tools[i].0.as_str(), name) {
                proof {
                    lemma_tools_map_find(self.spec_entries(), i as int);
                }
                return Some(&self.tools[i].1);
            }
        }
        proof {
            lemma_tools_map_absent(self.spec_entries(), name@);
        }
        None
    }

    /// The catalogue shown to the backend: name, description and schema of
    /// every registered tool, in registration order.
    pub fn list_definitions(&self) -> (r: Vec<ToolDefinition>)
        ensures
            catalogue_matches(crate::protocol::defs_model(r@), self.spec_tools()),
    {
        let mut out: Vec<ToolDefinition> = Vec::new();
        let n = self.tools.len();
        for i in 0..n
            invariant
                n == self.tools@.len(),
                out@.len() == i,
                forall|j: int|
                    0 <= j < i ==> (#[trigger] out@[j])@.name == self.spec_tools()[j].spec_name()
                        && out@[j]@.description == self.spec_tools()[j].spec_description()
                        && out@[j]@.parameters == self.spec_tools()[j].spec_parameters(),
        {
            proof {
                assert(self.spec_tools()[i as int] == self.tools@[i as int].1);
            }
            let t = &self.tools[i].1;
            out.push(
                ToolDefinition {
                    name: t.name(),
                    description: t.description(),
                    parameters: t.parameters(),
                },
            );
        }
        out
    }

    /// Dispatches one reconstructed tool call: an unregistered name fails
    /// with a not-found error and no other effect; string-encoded arguments
    /// are decoded first, and a decode failure is an argument-parse error;
    /// any failure of the matched handler comes back as a uniform execution
    /// failure, never as a fault of the registry itself.
    pub fn execute(&self, call: &ToolCall) -> (r: Result<ToolResult, ToolFailure>)
        requires
            self.wf(),
        ensures
            !self.as_map().contains_key(call.name@) <==> (r matches Err(e) && e@ is NotFound),
            r matches Err(e) ==> (e@ matches ToolFailureModel::NotFound { name } ==> name
                == call.name@),
            r matches Err(e) ==> (e@ matches ToolFailureModel::ArgumentParse { raw }
                ==> ArgModel::Str(raw) == call@.arguments),
            self.as_map().contains_key(call.name@) ==> ((r matches Err(e) && e@ is ArgumentParse)
                <==> args_unparseable(call@.arguments)),
            r matches Ok(tr) ==> tr.tool_call_id@ == call.id@,
    {
        let handler = match self.get(call.name.as_str()) {
            Some(h) => h,
            None => {
                return Err(ToolFailure::NotFound { name: call.name.clone() });
            },
        };
        let parsed: ArgValue = match &call.arguments {
            ArgValue::Str(s) => match parse_json_text(s.as_str()) {
                Some(v) => v,
                None => {
                    return Err(ToolFailure::ArgumentParse { raw: s.clone() });
                },
            },
            _ => call.arguments.duplicate(),
        };
        match handler.execute(&parsed) {
            Ok(text) => Ok(ToolResult { tool_call_id: call.id.clone(), content: text }),
            Err(message) => Err(ToolFailure::Execution { message }),
        }
    }
}

impl<H: ToolExecutor> Default for ToolRegistry<H> {
    /// An empty registry.
    fn default() -> (r: ToolRegistry<H>)
        ensures
            r.wf(),
            r.spec_tools() == Seq::<H>::empty(),
    {
        ToolRegistry::new()
    }
}

proof fn lemma_tools_map_update<H: ToolExecutor>(s: Seq<(String, H)>, i: int, p: (String, H))
    requires
        0 <= i < s.len(),
        s[i].0@ == p.0@,
        forall|a: int, b: int|
            0 <= a < b < s.len() ==> (#[trigger] s[a]).0@ != (#[trigger] s[b]).0@,
    ensures
        tools_map(s.update(i, p)) == tools_map(s).insert(p.0@, p.1),
        forall|a: int, b: int|
            0 <= a < b < s.update(i, p).len() ==> (#[trigger] s.update(i, p)[a]).0@ != (
            #[trigger] s.update(i, p)[b]).0@,
    decreases s.len(),
{
    let u = s.update(i, p);
    if i == s.len() - 1 {
        assert(u.drop_last() =~= s.drop_last());
        assert(u.last() == p);
        assert(tools_map(s.drop_last()).insert(s.last().0@, s.last().1).insert(p.0@, p.1)
            =~= tools_map(s.drop_last()).insert(p.0@, p.1));
    } else {
        assert(u.drop_last() =~= s.drop_last().update(i, p));
        assert(u.last() == s.last());
        lemma_tools_map_update(s.drop_last(), i, p);
        assert(s.last().0@ != p.0@);
        assert(tools_map(s.drop_last()).insert(p.0@, p.1).insert(s.last().0@, s.last().1)
            =~= tools_map(s.drop_last()).insert(s.last().0@, s.last().1).insert(p.0@, p.1));
    }
}

proof fn lemma_tools_map_find<H: ToolExecutor>(s: Seq<(String, H)>, i: int)
    requires
        0 <= i < s.len(),
        forall|a: int, b: int|
            0 <= a < b < s.len() ==> (#[trigger] s[a]).0@ != (#[trigger] s[b]).0@,
    ensures
        tools_map(s).contains_key(s[i].0@),
        tools_map(s)[s[i].0@] == s[i].1,
    decreases s.len(),
{
    if i == s.len() - 1 {
    } else {
        lemma_tools_map_find(s.drop_last(), i);
        assert(s.drop_last()[i] == s[i]);
        assert(s.last().0@ != s[i].0@);
    }
}

proof fn lemma_tools_map_absent<H: ToolExecutor>(s: Seq<(String, H)>, name: Seq<char>)
    requires
        forall|j: int| 0 <= j < s.len() ==> (#[trigger] s[j]).0@ != name,
    ensures
        !tools_map(s).contains_key(name),
    decreases s.len(),
{
    if s.len() > 0 {
        lemma_tools_map_absent(s.drop_last(), name);
    }
}

/// Whether a definition list presents exactly a tool list's names,
/// descriptions and schemas, in order.
pub open spec fn catalogue_matches<H: ToolExecutor>(
    defs: Seq<crate::protocol::ToolDefModel>,
    tools: Seq<H>,
) -> bool {
    defs.len() == tools.len() && forall|i: int|
        0 <= i < defs.len() ==> (#[trigger] defs[i]).name == tools[i].spec_name()
            && defs[i].description == tools[i].spec_description() && defs[i].parameters
            == tools[i].spec_parameters()
}

/// The models of an object's entry list.
pub open spec fn pairs_model(s: Seq<(String, ArgValue)>) -> Seq<(Seq<char>, ArgModel)> {
    Seq::new(s.len(), |i: int| (s[i].0@, arg_model(s[i].1)))
}

/// The models of a text list.
pub open spec fn texts_model(s: Seq<String>) -> Seq<Seq<char>> {
    Seq::new(s.len(), |i: int| s[i]@)
}

/// A string-typed property of a parameter schema.
pub open spec fn str_prop(description: Seq<char>) -> ArgModel {
    ArgModel::Obj(
        seq![
            ("type"@, ArgModel::Str("string"@)),
            ("description"@, ArgModel::Str(description)),
        ],
    )
}

/// An object schema: its typed properties and its required property names.
pub open spec fn obj_schema(
    properties: Seq<(Seq<char>, ArgModel)>,
    required: Seq<Seq<char>>,
) -> ArgModel {
    ArgModel::Obj(
        seq![
            ("type"@, ArgModel::Str("object"@)),
            ("properties"@, ArgModel::Obj(properties)),
            ("required"@, ArgModel::Arr(Seq::new(required.len(), |i: int| ArgModel::Str(required[i])))),
        ],
    )
}

/// Builds one string-typed schema property.
pub(crate) fn string_prop(description: &str) -> (r: ArgValue)
    ensures
        r@ == str_prop(description@),
{
    let mut pairs: Vec<(String, ArgValue)> = Vec::new();
    pairs.push(("type".to_owned(), ArgValue::Str("string".to_owned())));
    pairs.push(("description".to_owned(), ArgValue::Str(description.to_owned())));
    let r = ArgValue::Obj(pairs);
    proof {
        assert(pairs@.len() == 2);
        assert(pairs@[0].0@ == "type"@ && arg_model(pairs@[0].1) == ArgModel::Str("string"@));
        assert(pairs@[1].0@ == "description"@ && arg_model(pairs@[1].1) == ArgModel::Str(
            description@,
        ));
        assert(r@->Obj_0 =~= str_prop(description@)->Obj_0);
    }
    r
}

/// Builds one object schema from its properties and required names.
pub(crate) fn schema_object(properties: Vec<(String, ArgValue)>, required: Vec<String>) -> (r:
    ArgValue)
    ensures
        r@ == obj_schema(pairs_model(properties@), texts_model(required@)),
{
    let ghost props = pairs_model(properties@);
    let ghost req = texts_model(required@);
    let mut req_items: Vec<ArgValue> = Vec::new();
    let n = required.len();
    for i in 0..n
        invariant
            n == required@.len(),
            req_items@.len() == i,
            forall|j: int| 0 <= j < i ==> arg_model(#[trigger] req_items@[j]) == ArgModel::Str(
                required@[j]@,
            ),
    {
        req_items.push(ArgValue::Str(required[i].clone()));
    }
    let mut pairs: Vec<(String, ArgValue)> = Vec::new();
    pairs.push(("type".to_owned(), ArgValue::Str("object".to_owned())));
    pairs.push(("properties".to_owned(), ArgValue::Obj(properties)));
    pairs.push(("required".to_owned(), ArgValue::Arr(req_items)));
    let r = ArgValue::Obj(pairs);
    proof {
        assert(arg_model(ArgValue::Arr(req_items))->Arr_0 =~= Seq::new(
            req.len(),
            |i: int| ArgModel::Str(req[i]),
        ));
        assert(pairs@.len() == 3);
        assert(pairs@[0].0@ == "type"@ && arg_model(pairs@[0].1) == ArgModel::Str("object"@));
        assert(pairs@[1].0@ == "properties"@);
        assert(arg_model(pairs@[1].1)->Obj_0 =~= props);
        assert(arg_model(pairs@[1].1) == ArgModel::Obj(props));
        assert(pairs@[2].0@ == "required"@ && arg_model(pairs@[2].1) == ArgModel::Arr(
            Seq::new(req.len(), |i: int| ArgModel::Str(req[i])),
        ));
        assert(r@->Obj_0 =~= obj_schema(props, req)->Obj_0);
    }
    r
}

/// Lists every offered tool with a short description: pure text assembly.
#[derive(Debug)]
pub struct HelpTool {
    available_tools: Vec<String>,
}

/// The short description shown for a known tool name.
pub open spec fn tool_blurb(name: Seq<char>) -> Seq<char> {
    if name == "shell"@ {
        "执行 shell 命令"@
    } else if name == "current_time"@ {
        "获取当前日期和时间"@
    } else if name == "read_file"@ {
        "读取文本文件内容"@
    } else if name == "help"@ {
        "列出所有可用工具"@
    } else {
        "未知工具"@
    }
}

/// The help lines for the names from position `i` on.
pub open spec fn help_lines_from(names: Seq<Seq<char>>, i: int) -> Seq<char>
    decreases names.len() - i,
{
    if i < 0 || i >= names.len() {
        Seq::empty()
    } else {
        "  • "@ + names[i] + ": "@ + tool_blurb(names[i]) + "\n"@ + help_lines_from(names, i + 1)
    }
}

/// The whole help text for a list of tool names.
pub open spec fn help_text(names: Seq<Seq<char>>) -> Seq<char> {
    "📚 可用工具:\n"@ + help_lines_from(names, 0)
}

impl HelpTool {
    /// A help tool offering the given tool names.
    pub fn new(available_tools: Vec<String>) -> (r: HelpTool)
        ensures
            texts_model(r.names()) == texts_model(available_tools@),
    {
        HelpTool { available_tools }
    }

    /// The offered names.
    pub closed spec fn names(&self) -> Seq<String> {
        self.available_tools@
    }
}

impl ToolExecutor for HelpTool {
    open spec fn spec_name(&self) -> Seq<char> {
        "help"@
    }

    open spec fn spec_description(&self) -> Seq<char> {
        "List all available tools and their descriptions"@
    }

    open spec fn spec_parameters(&self) -> ArgModel {
        obj_schema(Seq::empty(), Seq::empty())
    }

    fn name(&self) -> (r: String) {
        "help".to_owned()
    }

    fn description(&self) -> (r: String) {
        "List all available tools and their descriptions".to_owned()
    }

    fn parameters(&self) -> (r: ArgValue) {
        let r = schema_object(Vec::new(), Vec::new());
        proof {
            assert(pairs_model(Seq::<(String, ArgValue)>::empty()) =~= Seq::<(
                Seq<char>,
                ArgModel,
            )>::empty());
            assert(texts_model(Seq::<String>::empty()) =~= Seq::<Seq<char>>::empty());
        }
        r
    }

    /// Assembles the help text; never fails.
    fn execute(&self, _arguments: &ArgValue) -> (r: Result<String, String>) {
        Ok(self.help_message())
    }
}

impl HelpTool {
    /// The help text for the offered names.
    pub fn help_message(&self) -> (r: String)
        ensures
            r@ == help_text(texts_model(self.names())),
    {
        let ghost m = texts_model(self.names());
        let mut acc = "📚 可用工具:\n".to_owned();
        let n = self.available_tools.len();
        for i in 0..n
            invariant
                n == self.available_tools@.len(),
                m == texts_model(self.names()),
                m.len() == n,
                help_text(m) == acc@ + help_lines_from(m, i as int),
        {
            let ghost accpre = acc@;
            let name = &self.available_tools[i];
            acc.append("  • ");
            acc.append(name.as_str());
            acc.append(": ");
            if str_eq(name.as_str(), "shell") {
                acc.append("执行 shell 命令");
            } else if str_eq(name.as_str(), "current_time") {
                acc.append("获取当前日期和时间");
            } else if str_eq(name.as_str(), "read_file") {
                acc.append("读取文本文件内容");
            } else if str_eq(name.as_str(), "help") {
                acc.append("列出所有可用工具");
            } else {
                acc.append("未知工具");
            }
            acc.append("\n");
            proof {
                assert(m[i as int] == self.names()[i as int]@);
                assert(acc@ =~= accpre + ("  • "@ + m[i as int] + ": "@ + tool_blurb(m[i as int])
                    + "\n"@));
                assert(accpre + ("  • "@ + m[i as int] + ": "@ + tool_blurb(m[i as int]) + "\n"@)
                    + help_lines_from(m, i as int + 1) =~= accpre + help_lines_from(m, i as int));
                assert(help_text(m) == acc@ + help_lines_from(m, i as int + 1));
            }
        }
        acc
    }
}

/// Runs a shell command: the command's output text. Its name, description
/// and schema are declared here; execution starts a process, so the
/// embedding application supplies it.
pub struct ShellTool;

impl ShellTool {
    /// The registry key.
    pub fn name(&self) -> (r: String)
        ensures
            r@ == "shell"@,
    {
        "shell".to_owned()
    }

    /// The model-facing description.
    pub fn description(&self) -> (r: String)
        ensures
            r@
                == "Execute a shell command on macOS/Linux. Use 'ifconfig' or 'ip addr' for network information, not 'hostname -I' which may not work on macOS."@,
    {
        "Execute a shell command on macOS/Linux. Use 'ifconfig' or 'ip addr' for network information, not 'hostname -I' which may not work on macOS.".to_owned()
    }

    /// The declared parameter schema: one required string, the command.
    pub fn parameters(&self) -> (r: ArgValue)
        ensures
            r@ == obj_schema(
                seq![
                    (
                        "command"@,
                        str_prop(
                            "Shell command to execute. Use 'curl ifconfig.me' to get public IP, 'ifconfig' for local network info."@,
                        ),
                    ),
                ],
                seq!["command"@],
            ),
    {
        let mut props: Vec<(String, ArgValue)> = Vec::new();
        props.push(
            (
                "command".to_owned(),
                string_prop(
                    "Shell command to execute. Use 'curl ifconfig.me' to get public IP, 'ifconfig' for local network info.",
                ),
            ),
        );
        let mut req: Vec<String> = Vec::new();
        req.push("command".to_owned());
        let r = schema_object(props, req);
        proof {
            assert(pairs_model(props@) =~= seq![
                (
                    "command"@,
                    str_prop(
                        "Shell command to execute. Use 'curl ifconfig.me' to get public IP, 'ifconfig' for local network info."@,
                    ),
                ),
            ]);
            assert(texts_model(req@) =~= seq!["command"@]);
        }
        r
    }
}

/// Tells the current date and time. Its name, description and schema are
/// declared here; execution reads the clock, so the embedding application
/// supplies it.
pub struct CurrentTimeTool;

impl CurrentTimeTool {
    /// The registry key.
    pub fn name(&self) -> (r: String)
        ensures
            r@ == "current_time"@,
    {
        "current_time".to_owned()
    }

    /// The model-facing description.
    pub fn description(&self) -> (r: String)
        ensures
            r@ == "Get current date and time"@,
    {
        "Get current date and time".to_owned()
    }

    /// The declared parameter schema: no parameters.
    pub fn parameters(&self) -> (r: ArgValue)
        ensures
            r@ == obj_schema(Seq::empty(), Seq::empty()),
    {
        let r = schema_object(Vec::new(), Vec::new());
        proof {
            assert(pairs_model(Seq::<(String, ArgValue)>::empty()) =~= Seq::<(
                Seq<char>,
                ArgModel,
            )>::empty());
            assert(texts_model(Seq::<String>::empty()) =~= Seq::<Seq<char>>::empty());
        }
        r
    }
}

/// Reads a text file. Its name, description and schema are declared here;
/// execution touches the file system, so the embedding application supplies
/// it.
pub struct ReadFileTool;

impl ReadFileTool {
    /// The registry key.
    pub fn name(&self) -> (r: String)
        ensures
            r@ == "read_file"@,
    {
        "read_file".to_owned()
    }

    /// The model-facing description.
    pub fn description(&self) -> (r: String)
        ensures
            r@ == "Read contents of a text file"@,
    {
        "Read contents of a text file".to_owned()
    }

    /// The declared parameter schema: one required string, the path.
    pub fn parameters(&self) -> (r: ArgValue)
        ensures
            r@ == obj_schema(
                seq![("path"@, str_prop("Path to the file to read"@))],
                seq!["path"@],
            ),
    {
        let mut props: Vec<(String, ArgValue)> = Vec::new();
        props.push(("path".to_owned(), string_prop("Path to the file to read")));
        let mut req: Vec<String> = Vec::new();
        req.push("path".to_owned());
        let r = schema_object(props, req);
        proof {
            assert(pairs_model(props@) =~= seq![("path"@, str_prop("Path to the file to read"@))]);
            assert(texts_model(req@) =~= seq!["path"@]);
        }
        r
    }
}

/// Registering two tools under one name leaves exactly one entry: the most
/// recently registered, whatever was registered before.
pub proof fn lemma_registry_overwrite<H: ToolExecutor>(m: Map<Seq<char>, H>, first: H, second: H)
    requires
        first.spec_name() == second.spec_name(),
    ensures
        m.insert(first.spec_name(), first).insert(second.spec_name(), second) == m.insert(
            second.spec_name(),
            second,
        ),
        m.insert(first.spec_name(), first).insert(second.spec_name(), second)[second.spec_name()]
            == second,
{
    assert(m.insert(first.spec_name(), first).insert(second.spec_name(), second) =~= m.insert(
        second.spec_name(),
        second,
    ));
}

} // verus!
