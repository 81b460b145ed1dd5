//! The JSON-RPC dispatcher: routing by method and the mode-dependent
//! rendering of initialization, tool listings and tool calls.

use crate::model::{Mode, SkillData};
use crate::scan::opt_view;
use crate::text::{str_eq, strip_prefix};
use vstd::prelude::*;
use vstd::string::*;

verus! {

/// A request's `id`, carried through unread and echoed in the response.
#[verifier::external_type_specification]
#[verifier::external_body]
pub struct ExValue(serde_json::Value);

/// The `arguments` object of a tool call, as far as the dispatcher reads it.
pub struct CallArguments {
    /// `arguments.name`, when it is a string.
    pub name: Option<String>,
}

/// The `params` object of a request, as far as the dispatcher reads it.
pub struct CallParams {
    /// `params.name`, when it is a string.
    pub name: Option<String>,
    /// `params.arguments`, when it is an object.
    pub arguments: Option<CallArguments>,
}

/// One decoded request line.
pub struct Request {
    pub id: Option<serde_json::Value>,
    pub method: String,
    pub params: Option<CallParams>,
}

/// A JSON-RPC error object.
pub struct RpcError {
    pub code: i32,
    pub message: String,
}

/// The result of `initialize`.
pub struct InitializeResult {
    pub protocol_version: String,
    pub server_name: String,
    pub server_version: String,
    pub instructions: String,
}

/// The single string argument that a tool requires, if any.
pub struct ToolArgument {
    pub name: String,
    pub description: String,
}

/// One advertised tool.
pub struct ToolInfo {
    pub name: String,
    pub description: String,
    /// `None` for a tool that takes no arguments.
    pub argument: Option<ToolArgument>,
}

/// The payload of a successful response.
pub enum RpcResult {
    /// Server metadata and instructions.
    Initialize(InitializeResult),
    /// The tool catalog.
    Tools(Vec<ToolInfo>),
    /// One text content block.
    Content(String),
}

/// One response line: exactly one of `result` and `error` is present.
pub struct Response {
    pub jsonrpc: String,
    pub id: Option<serde_json::Value>,
    pub result: Option<RpcResult>,
    pub error: Option<RpcError>,
}

/// The dispatcher's fixed state.
pub struct McpServer {
    pub mode: Mode,
    pub skills: Vec<SkillData>,
    /// The catalog root, as shown in generated text.
    pub skill_folder: String,
}

/// The text that describes one skill.
pub open spec fn skill_block(folder: Seq<char>, s: SkillData) -> Seq<char> {
    "## "@ + s.name@ + "\n\n> Path: "@ + folder + "/"@ + s.relative_path@ + "\n\n"@ + s.description@
        + "\n\n"@
}

/// The blocks of all skills in order, each after `lead`.
pub open spec fn skill_blocks(lead: Seq<char>, folder: Seq<char>, skills: Seq<SkillData>) -> Seq<char>
    decreases skills.len(),
{
    if skills.len() == 0 {
        Seq::empty()
    } else {
        skill_blocks(lead, folder, skills.drop_last()) + lead + skill_block(folder, skills.last())
    }
}

pub open spec fn system_prompt_preamble() -> Seq<char> {
    "\nThis MCP server is just a loader of skills. \nThe loading is completed.\n\nHere are the discovered skills and their brief description. \nRead the corresponding SKILL.md file to get familiar with their details:\n\n"@
}

pub open spec fn single_tool_preamble() -> Seq<char> {
    "Get the content of a skill by name.\n\nAvailable skills:\n\n"@
}

/// The description of a skill's own tool in `tool` mode.
pub open spec fn tool_description(folder: Seq<char>, s: SkillData) -> Seq<char> {
    "Returns the content of the skill file at: "@ + folder + "/"@ + s.relative_path@
        + "\n\n## Skill Description\n"@ + s.description@
}

/// Whether `s` starts with `p`.
pub open spec fn has_prefix(s: Seq<char>, p: Seq<char>) -> bool {
    p.len() <= s.len() && s.subrange(0, p.len() as int) == p
}

/// The skill name that a tool call asks for, if its parameters name one.
pub open spec fn requested_skill(mode: Mode, params: Option<CallParams>) -> Option<Seq<char>> {
    match params {
        None => None,
        Some(p) => match p.name {
            None => None,
            Some(n) => if n@ == "get_skill"@ && mode == Mode::SingleTool {
                match p.arguments {
                    Some(a) => opt_view(a.name),
                    None => None,
                }
            } else if has_prefix(n@, "get_skill_"@) {
                Some(n@.subrange("get_skill_"@.len() as int, n@.len() as int))
            } else {
                None
            },
        },
    }
}

/// `i` is the first position whose skill is named `name`.
pub open spec fn first_match(skills: Seq<SkillData>, name: Seq<char>, i: int) -> bool {
    0 <= i < skills.len() && skills[i].name@ == name && forall|j: int|
        0 <= j < i ==> skills[j].name@ != name
}

/// No skill is named `name`.
pub open spec fn no_match(skills: Seq<SkillData>, name: Seq<char>) -> bool {
    forall|j: int| 0 <= j < skills.len() ==> skills[j].name@ != name
}

/// `r` is an error response with the given id, code and message.
pub open spec fn is_error(r: Response, id: Option<serde_json::Value>, code: int, message: Seq<char>) -> bool {
    &&& r.jsonrpc@ == "2.0"@
    &&& r.id == id
    &&& r.result is None
    &&& r.error matches Some(e) && e.code as int == code && e.message@ == message
}

/// `r` is a success response with the given id.
pub open spec fn is_success(r: Response, id: Option<serde_json::Value>) -> bool {
    r.jsonrpc@ == "2.0"@ && r.id == id && r.result is Some && r.error is None
}

impl McpServer {
    /// The text of the `initialize` instructions in `system_prompt` mode.
    pub open spec fn system_prompt_text(&self) -> Seq<char> {
        system_prompt_preamble() + skill_blocks("\n"@, self.skill_folder@, self.skills@)
    }

    /// The description of the one tool in `single_tool` mode.
    pub open spec fn single_tool_text(&self) -> Seq<char> {
        single_tool_preamble() + skill_blocks(""@, self.skill_folder@, self.skills@)
    }

    /// The `initialize` instructions: empty but in `system_prompt` mode.
    pub open spec fn instructions(&self) -> Seq<char> {
        if self.mode == Mode::SystemPrompt {
            self.system_prompt_text()
        } else {
            Seq::empty()
        }
    }

    /// `tools` is the catalog that `tools/list` advertises in this mode.
    pub open spec fn tools_listed(&self, tools: Seq<ToolInfo>) -> bool {
        match self.mode {
            Mode::Tool => {
                &&& tools.len() == self.skills@.len()
                &&& forall|i: int| #![auto]
                    0 <= i < tools.len() ==> {
                        &&& tools[i].name@ == "get_skill_"@ + self.skills@[i].name@
                        &&& tools[i].description@ == tool_description(self.skill_folder@, self.skills@[i])
                        &&& tools[i].argument is None
                    }
            },
            Mode::SingleTool => {
                &&& tools.len() == 1
                &&& tools[0].name@ == "get_skill"@
                &&& tools[0].description@ == self.single_tool_text()
                &&& tools[0].argument matches Some(a) && a.name@ == "name"@
                    && a.description@ == "The name of the skill to retrieve"@
            },
            Mode::SystemPrompt => tools.len() == 0,
        }
    }

    /// `r` answers `initialize` for the request `id`.
    pub open spec fn initialize_response(&self, id: Option<serde_json::Value>, r: Response) -> bool {
        &&& is_success(r, id)
        &&& r.result matches Some(RpcResult::Initialize(i)) && i.protocol_version@ == "2025-06-18"@
            && i.server_name@ == "agent-skills-mcp"@ && i.server_version@ == "0.1.0"@
            && i.instructions@ == self.instructions()
    }

    /// `r` answers `tools/list` for the request `id`.
    pub open spec fn tools_list_response(&self, id: Option<serde_json::Value>, r: Response) -> bool {
        &&& is_success(r, id)
        &&& r.result matches Some(RpcResult::Tools(t)) && self.tools_listed(t@)
    }

    /// `r` answers `tools/call` with parameters `params` for the request `id`:
    /// the content of the first skill with the requested name, or an error.
    pub open spec fn tools_call_response(
        &self,
        id: Option<serde_json::Value>,
        params: Option<CallParams>,
        r: Response,
    ) -> bool {
        match requested_skill(self.mode, params) {
            Some(x) => {
                &&& forall|i: int|
                    first_match(self.skills@, x, i) ==> is_success(r, id) && (r.result matches Some(
                        RpcResult::Content(t),
                    ) && t@ == self.skills@[i].content@)
                &&& no_match(self.skills@, x) ==> is_error(r, id, -32602, "Tool not found"@)
            },
            None => is_error(r, id, -32602, "Tool not found"@),
        }
    }

    pub fn new(mode: Mode, skills: Vec<SkillData>, skill_folder: &str) -> (r: McpServer)
        ensures
            r.mode == mode,
            r.skills@ == skills@,
            r.skill_folder@ == skill_folder@,
    {
        McpServer { mode, skills, skill_folder: String::from_str(skill_folder) }
    }
}

/// Appends `lead` and the block that describes `s`.
fn push_skill_block(out: &mut String, lead: &str, folder: &str, s: &SkillData)
    ensures
        final(out)@ == old(out)@ + lead@ + skill_block(folder@, *s),
{
    out.append(lead);
    out.append("## ");
    out.append(s.name.as_str());
    out.append("\n\n> Path: ");
    out.append(folder);
    out.append("/");
    out.append(s.relative_path.as_str());
    out.append("\n\n");
    out.append(s.description.as_str());
    out.append("\n\n");
    assert(final(out)@ =~= old(out)@ + lead@ + skill_block(folder@, *s));
}

impl McpServer {
    /// `preamble` followed by the block of each skill, each after `lead`.
    fn build_blocks(&self, preamble: &str, lead: &str) -> (r: String)
        ensures
            r@ == preamble@ + skill_blocks(lead@, self.skill_folder@, self.skills@),
    {
        let mut out = String::from_str(preamble);
        let mut i: usize = 0;
        assert(self.skills@.subrange(0, 0) =~= Seq::<SkillData>::empty());
        while i < self.skills.len()
            invariant
                i <= self.skills@.len(),
                out@ == preamble@ + skill_blocks(lead@, self.skill_folder@, self.skills@.subrange(0, i as int)),
            decreases self.skills@.len() - i,
        {
            push_skill_block(&mut out, lead, self.skill_folder.as_str(), &self.skills[i]);
            assert(self.skills@.subrange(0, i + 1).drop_last() =~= self.skills@.subrange(0, i as int));
            i = i + 1;
            assert(out@ =~= preamble@ + skill_blocks(lead@, self.skill_folder@, self.skills@.subrange(0, i as int)));
        }
        assert(self.skills@.subrange(0, i as int) =~= self.skills@);
        out
    }

    /// The `initialize` instructions of `system_prompt` mode: a preamble and
    /// one block per skill.
    pub fn build_system_prompt_instructions(&self) -> (r: String)
        ensures
            r@ == self.system_prompt_text(),
    {
        self.build_blocks(
            "\nThis MCP server is just a loader of skills. \nThe loading is completed.\n\nHere are the discovered skills and their brief description. \nRead the corresponding SKILL.md file to get familiar with their details:\n\n",
            "\n",
        )
    }

    /// The description of the `get_skill` tool: a preamble and one block per
    /// skill.
    pub fn build_single_tool_description(&self) -> (r: String)
        ensures
            r@ == self.single_tool_text(),
    {
        self.build_blocks("Get the content of a skill by name.\n\nAvailable skills:\n\n", "")
    }

    /// The position of the first skill named `name`.
    pub fn find_skill(&self, name: &str) -> (r: Option<usize>)
        ensures
            match r {
                Some(i) => first_match(self.skills@, name@, i as int),
                None => no_match(self.skills@, name@),
            },
    {
        let mut i: usize = 0;
        while i < self.skills.len()
            invariant
                i <= self.skills@.len(),
                forall|j: int| 0 <= j < i ==> self.skills@[j].name@ != name@,
            decreases self.skills@.len() - i,
        {
            if str_eq(self.skills[i].name.as_str(), name) {
                return Some(i);
            }
            i = i + 1;
        }
        None
    }
}

/// The error response for a tool call that names no known skill.
fn tool_not_found(id: Option<serde_json::Value>) -> (r: Response)
    ensures
        is_error(r, id, -32602, "Tool not found"@),
{
    let error = RpcError { code: -32602, message: String::from_str("Tool not found") };
    Response { jsonrpc: String::from_str("2.0"), id, result: None, error: Some(error) }
}

impl McpServer {
    /// The skill name that a tool call's parameters ask for.
    fn requested_name<'a>(&self, params: &'a Option<CallParams>) -> (r: Option<&'a str>)
        ensures
            match r {
                Some(x) => requested_skill(self.mode, *params) == Some(x@),
                None => requested_skill(self.mode, *params) is None,
            },
    {
        match params {
            None => None,
            Some(p) => match &p.name {
                None => None,
                Some(n) => {
                    if str_eq(n.as_str(), "get_skill") && self.mode == Mode::SingleTool {
                        match &p.arguments {
                            Some(a) => match &a.name {
                                Some(x) => Some(x.as_str()),
                                None => None,
                            },
                            None => None,
                        }
                    } else {
                        let rest = strip_prefix(n.as_str(), "get_skill_");
                        proof {
                            if let Some(t) = rest {
                                let k = "get_skill_"@.len() as int;
                                assert(n@.subrange(0, k) =~= "get_skill_"@);
                                assert(n@.subrange(k, n@.len() as int) =~= t@);
                            }
                        }
                        rest
                    }
                },
            },
        }
    }

    /// Answers `tools/call`: the content of the first skill with the
    /// requested name, or the error -32602 "Tool not found".
    pub fn handle_tools_call(&self, req: Request) -> (r: Response)
        ensures
            self.tools_call_response(req.id, req.params, r),
    {
        let Request { id, method: _, params } = req;
        let found = match self.requested_name(&params) {
            Some(x) => self.find_skill(x),
            None => None,
        };
        match found {
            Some(i) => {
                let text = self.skills[i].content.clone();
                let r = Response {
                    jsonrpc: String::from_str("2.0"),
                    id,
                    result: Some(RpcResult::Content(text)),
                    error: None,
                };
                proof {
                    let x = requested_skill(self.mode, params).unwrap();
                    assert forall|j: int| first_match(self.skills@, x, j) implies j == i by {
                        if j < i {
                            assert(self.skills@[j].name@ == x);
                        } else if j > i {
                            assert(self.skills@[i as int].name@ == x);
                        }
                    }
                }
                r
            },
            None => tool_not_found(id),
        }
    }

    /// The description of a skill's own tool.
    fn build_tool_description(&self, s: &SkillData) -> (r: String)
        ensures
            r@ == tool_description(self.skill_folder@, *s),
    {
        let mut out = String::from_str("Returns the content of the skill file at: ");
        out.append(self.skill_folder.as_str());
        out.append("/");
        out.append(s.relative_path.as_str());
        out.append("\n\n## Skill Description\n");
        out.append(s.description.as_str());
        assert(out@ =~= tool_description(self.skill_folder@, *s));
        out
    }

    /// The tools advertised in this mode.
    fn list_tools(&self) -> (r: Vec<ToolInfo>)
        ensures
            self.tools_listed(r@),
    {
        let mut tools: Vec<ToolInfo> = Vec::new();
        match self.mode {
            Mode::Tool => {
                let mut i: usize = 0;
                while i < self.skills.len()
                    invariant
                        self.mode == Mode::Tool,
                        i <= self.skills@.len(),
                        tools@.len() == i,
                        forall|k: int| #![auto]
                            0 <= k < i ==> {
                                &&& tools@[k].name@ == "get_skill_"@ + self.skills@[k].name@
                                &&& tools@[k].description@ == tool_description(self.skill_folder@, self.skills@[k])
                                &&& tools@[k].argument is None
                            },
                    decreases self.skills@.len() - i,
                {
                    let s = &self.skills[i];
                    let name = crate::text::concat("get_skill_", s.name.as_str());
                    let description = self.build_tool_description(s);
                    tools.push(ToolInfo { name, description, argument: None });
                    i = i + 1;
                }
            },
            Mode::SingleTool => {
                let argument = ToolArgument {
                    name: String::from_str("name"),
                    description: String::from_str("The name of the skill to retrieve"),
                };
                let tool = ToolInfo {
                    name: String::from_str("get_skill"),
                    description: self.build_single_tool_description(),
                    argument: Some(argument),
                };
                tools.push(tool);
            },
            Mode::SystemPrompt => {},
        }
        tools
    }

    /// Answers `tools/list` with the tools of this mode.
    pub fn handle_tools_list(&self, id: Option<serde_json::Value>) -> (r: Response)
        ensures
            self.tools_list_response(id, r),
    {
        let tools = self.list_tools();
        Response { jsonrpc: String::from_str("2.0"), id, result: Some(RpcResult::Tools(tools)), error: None }
    }

    /// Answers `initialize` with the server's metadata and instructions.
    pub fn handle_initialize(&self, id: Option<serde_json::Value>) -> (r: Response)
        ensures
            self.initialize_response(id, r),
    {
        let instructions = match self.mode {
            Mode::SystemPrompt => self.build_system_prompt_instructions(),
            _ => String::new(),
        };
        let init = InitializeResult {
            protocol_version: String::from_str("2025-06-18"),
            server_name: String::from_str("agent-skills-mcp"),
            server_version: String::from_str("0.1.0"),
            instructions,
        };
        Response { jsonrpc: String::from_str("2.0"), id, result: Some(RpcResult::Initialize(init)), error: None }
    }

    /// Routes one request by its method. `notifications/initialized` gets no
    /// response; an unknown method gets the error -32601 "Method not found".
    pub fn handle_request(&self, req: Request) -> (r: Option<Response>)
        ensures
            (req.method@ == "notifications/initialized"@) == (r is None),
            req.method@ == "initialize"@ ==> (r matches Some(x) && self.initialize_response(req.id, x)),
            req.method@ == "tools/list"@ ==> (r matches Some(x) && self.tools_list_response(req.id, x)),
            req.method@ == "tools/call"@ ==> (r matches Some(x) && self.tools_call_response(
                req.id,
                req.params,
                x,
            )),
            !is_known_method(req.method@) ==> (r matches Some(x) && is_error(
                x,
                req.id,
                -32601,
                "Method not found"@,
            )),
    {
        proof {
            reveal_strlit("initialize");
            reveal_strlit("notifications/initialized");
            reveal_strlit("tools/list");
            reveal_strlit("tools/call");
            assert("initialize"@[0] != "tools/list"@[0]);
            assert("initialize"@[0] != "tools/call"@[0]);
            assert("tools/list"@[6] != "tools/call"@[6]);
        }
        if str_eq(req.method.as_str(), "initialize") {
            Some(self.handle_initialize(req.id))
        } else if str_eq(req.method.as_str(), "notifications/initialized") {
            None
        } else if str_eq(req.method.as_str(), "tools/list") {
            Some(self.handle_tools_list(req.id))
        } else if str_eq(req.method.as_str(), "tools/call") {
            Some(self.handle_tools_call(req))
        } else {
            let error = RpcError { code: -32601, message: String::from_str("Method not found") };
            Some(Response { jsonrpc: String::from_str("2.0"), id: req.id, result: None, error: Some(error) })
        }
    }
}

/// Whether the dispatcher has a route for `method`.
pub open spec fn is_known_method(method: Seq<char>) -> bool {
    method == "initialize"@ || method == "notifications/initialized"@ || method == "tools/list"@
        || method == "tools/call"@
}

/// Whenever some skill is named `x`, a first one is.
pub proof fn lemma_first_match_exists(skills: Seq<SkillData>, x: Seq<char>, j: int)
    requires
        0 <= j < skills.len(),
        skills[j].name@ == x,
    ensures
        exists|i: int| first_match(skills, x, i),
    decreases j,
{
    if exists|k: int| 0 <= k < j && skills[k].name@ == x {
        let k = choose|k: int| 0 <= k < j && skills[k].name@ == x;
        lemma_first_match_exists(skills, x, k);
    } else {
        assert(first_match(skills, x, j));
    }
}

/// In `single_tool` mode, calling `get_skill` with the argument `name` set to
/// `x` returns the body of the first skill named `x`, and the error -32602
/// when no skill has that name.
pub proof fn single_tool_call_returns_body(
    server: McpServer,
    id: Option<serde_json::Value>,
    params: CallParams,
    x: Seq<char>,
    r: Response,
)
    requires
        server.mode == Mode::SingleTool,
        params.name matches Some(n) && n@ == "get_skill"@,
        params.arguments matches Some(a) && opt_view(a.name) == Some(x),
        server.tools_call_response(id, Some(params), r),
    ensures
        (exists|j: int| 0 <= j < server.skills@.len() && server.skills@[j].name@ == x) ==> (exists|i: int|
            first_match(server.skills@, x, i) && is_success(r, id) && (r.result matches Some(
                RpcResult::Content(t),
            ) && t@ == server.skills@[i].content@)),
        no_match(server.skills@, x) ==> is_error(r, id, -32602, "Tool not found"@),
{
    assert(requested_skill(server.mode, Some(params)) == Some(x));
    if exists|j: int| 0 <= j < server.skills@.len() && server.skills@[j].name@ == x {
        let j = choose|j: int| 0 <= j < server.skills@.len() && server.skills@[j].name@ == x;
        lemma_first_match_exists(server.skills@, x, j);
    }
}

/// A call of the tool `get_skill_<x>` asks for the skill `x` in any mode,
/// as `get_skill` with the argument `x` does in `single_tool` mode; both then
/// get the same response.
pub proof fn prefixed_tool_matches_get_skill(mode: Mode, single: CallParams, prefixed: CallParams, x: Seq<char>)
    requires
        single.name matches Some(n) && n@ == "get_skill"@,
        single.arguments matches Some(a) && opt_view(a.name) == Some(x),
        prefixed.name matches Some(n) && n@ == "get_skill_"@ + x,
    ensures
        requested_skill(mode, Some(prefixed)) == Some(x),
        requested_skill(Mode::SingleTool, Some(single)) == Some(x),
        requested_skill(mode, Some(prefixed)) == requested_skill(Mode::SingleTool, Some(single)),
{
    let n = prefixed.name.unwrap()@;
    let k = "get_skill_"@.len() as int;
    assert(n.subrange(0, k) =~= "get_skill_"@);
    assert(n.subrange(k, n.len() as int) =~= x);
    reveal_strlit("get_skill_");
    reveal_strlit("get_skill");
    assert(n.len() != "get_skill"@.len());
}

/// In `system_prompt` mode `tools/list` advertises no tool, whatever the catalog.
pub proof fn system_prompt_lists_no_tools(server: McpServer, id: Option<serde_json::Value>, r: Response)
    requires
        server.mode == Mode::SystemPrompt,
        server.tools_list_response(id, r),
    ensures
        r.result matches Some(RpcResult::Tools(t)) && t@.len() == 0,
{
}

/// With an empty catalog `tools/list` still answers: no tool, but the one
/// `get_skill` tool in `single_tool` mode.
pub proof fn empty_catalog_lists_trivially(server: McpServer, id: Option<serde_json::Value>, r: Response)
    requires
        server.skills@.len() == 0,
        server.tools_list_response(id, r),
    ensures
        is_success(r, id),
        r.result matches Some(RpcResult::Tools(t)) && t@.len() == (if server.mode == Mode::SingleTool {
            1int
        } else {
            0int
        }),
{
}

} // verus!
