//! Texts sent to the completion service: system prompts, the grammars
//! that constrain its output, and the message lists of each request.

use vstd::prelude::*;
use crate::text::{join_strings, join_with};

verus! {

/// One message of a chat request.
#[derive(Debug, Clone, PartialEq)]
pub struct ChatMessage {
    pub role: String,
    pub content: String,
}

/// The topics extracted with a fact.
#[derive(Debug, Clone, PartialEq)]
pub struct FactMetadata {
    pub topics: Vec<String>,
}

/// What fact extraction answers.
#[derive(Debug, Clone, PartialEq)]
pub struct ExtractedFact {
    pub fact: String,
    pub metadata: Option<FactMetadata>,
}

/// What query rewriting answers.
#[derive(Debug, Clone, PartialEq)]
pub struct RewrittenQuery {
    pub rewritten_query: String,
}

/// What pronoun resolution answers.
#[derive(Debug, Clone, PartialEq)]
pub struct DisambiguatedText {
    pub disambiguated_text: String,
}

/// What the rewrite of a memory answers.
#[derive(Debug, Clone, PartialEq)]
pub struct ModifiedText {
    pub modified_text: String,
}

/// System prompt that asks for a hypothetical memory answering a question.
pub const HYDE_PROMPT: &'static str = r#"You are a memory retrieval engine. Your sole purpose is to generate a direct, first-person statement that is the most likely answer to the user's question, as if it were a memory record. Do not provide explanations, apologies, or any conversational filler.

<example>
<user_query>我最喜欢什么编程语言？</user_query>
<assistant_response>我最喜欢的编程语言是Rust。</assistant_response>
</example>

<example>
<user_query>明天下午有什么安排？</user_query>
<assistant_response>明天下午3点要和产品开会。</assistant_response>
</example>

<example>
<user_query>Rust有什么优点？</user_query>
<assistant_response>Rust语言的优点是高性能、内存安全和强大的并发支持。</assistant_response>
</example>

Now, generate the memory statement for the user's query."#;

/// System prompt that asks for one answer synthesized from memory snippets.
pub const SYNTHESIS_PROMPT: &'static str = r#"You are a highly intelligent memory retrieval engine. Your task is to **directly and concisely** answer the user's question based on the provided context of memory snippets.

**Core Instructions:**
1.  **Direct Answer First**: Get straight to the point. Your entire response should be the direct answer.
2.  **Be Faithful to Context**: Your answer MUST be based exclusively on the information within the provided memory snippets. Do not add any external information.
3.  **Synthesize, Don't List**: If multiple snippets provide different parts of an answer, integrate them into a single, coherent, and natural-sounding statement.
4.  **NO PREAMBLE**: **Do not use introductory phrases** like 'Based on the context', 'According to my memory', 'The provided information states that', or any similar preambles.

**Example:**
<User_Query>我喜欢什么？</User_Query>
<Context>
- 我喜欢打篮球。
- 我最近开始喜欢听古典音乐。
- 我很喜欢打排球。
</Context>
<Assistant_Response>我喜欢打篮球和排球，并且最近开始欣赏古典音乐。</Assistant_Response>

Now, generate the final answer based on the user's query and the provided context."#;

/// Grammar of a fact with optional topics.
pub const FACT_EXTRACTION_GBNF: &'static str = r#"
ws ::= ([ \t\n\r])*
string ::= "\"" ( [^"\\] | "\\" (["\\/bfnrt] | "u" [0-9a-fA-F]{4}) )* "\""
topics-array ::= "[" ws (string ("," ws string)*)? ws "]"
metadata-object ::= "{" ws "\"topics\"" ws ":" ws topics-array ws "}"
fact-kv ::= "\"fact\"" ws ":" ws string
metadata-kv ::= "\"metadata\"" ws ":" ws metadata-object
extracted-fact-object ::= "{" ws fact-kv ("," ws metadata-kv)? ws "}"
root   ::= extracted-fact-object
"#;

/// System prompt of fact extraction.
pub const FACT_EXTRACTION_SYSTEM: &'static str = r#"你的任务是从用户的输入中，提取出“核心事实”和相关的“主题标签”，并以一个严格的JSON对象格式输出。
**核心指令:**
1.  **提取事实 (fact)**: 将用户想要记录的核心信息，提炼成一个简洁、完整的陈述句。
2.  **提取标签 (topics)**: 提取出与事实最相关的1到3个核心关键词或主题，作为标签。
3.  **JSON格式**: 你的输出必须是严格的、不包含任何其他文本的JSON对象。
**输出格式:**
```json
{
  "fact": "提取出的核心事实。",
  "metadata": { "topics": ["标签一", "标签二"] }
}
```
---
**示例:**
<用户输入>
帮我记一下，我的个人网站是 example.com
</用户输入>
<你的输出>
```json
{
  "fact": "我的个人网站是 example.com。",
  "metadata": { "topics": ["个人网站", "网站地址"] }
}
```
---
现在，请处理以下用户输入。"#;

/// System prompt of query rewriting, before the history.
pub const QUERY_REWRITE_HEAD: &'static str = r#"You are a query rewriting expert. Your job is to take a user query and, using the conversation history, rewrite it into a clear, self-contained question.

**CRITICAL INSTRUCTIONS:**
- If the user's query is already a clear question, return it as is.
- Use the history to resolve pronouns and ambiguity.
- Your output MUST be a valid JSON object with a single field "rewritten_query".

**Conversation History:**
"#;

/// System prompt of query rewriting, after the history.
pub const QUERY_REWRITE_TAIL: &'static str = r#"

**Example:**
- History: "User: 什么是项目Titan？"
- User Query: "那它的核心技术呢？"
- Your Output: {"rewritten_query": "项目Titan的核心技术是什么？"}
"#;

/// Grammar of a rewritten query.
pub const QUERY_REWRITE_GBNF: &'static str = r#"root ::= "{" ws "\"rewritten_query\":" ws string ws "}"
string ::= "\"" (
  [^"\\] |
  "\\" (["\\/bfnrt] | "u" [0-9a-fA-F] [0-9a-fA-F] [0-9a-fA-F] [0-9a-fA-F])
)* "\""
ws ::= [ \t\n\r]*"#;

/// System prompt of task routing, before the history.
pub const ROUTING_HEAD: &'static str = r#"You are a master router. Your only job is to analyze the user's query and decide which single tool to call.

**Tool Descriptions:**
- `SaveTool`: Use when the user wants to **save, remember, record, or take note** of information.
- `RecallTool`: Use when the user wants to **ask a question, find, search, or recall** information.
- `MixedTool`: Use ONLY when the query explicitly contains BOTH a save command AND a recall command.
- `NoTool`: Use if the intent is completely unclear.

**CRITICAL DECISION LOGIC:**
1.  First, check for explicit recall keywords (e.g., "what", "how", "who", "查询", "是什么"). If found, it's likely a `RecallTool` or `MixedTool`.
2.  Next, check for explicit save keywords (e.g., "remember", "record", "记一下"). If found, it's likely a `SaveTool` or `MixedTool`.
3.  **DEFAULT BEHAVIOR:** If the query does **NOT** contain any explicit command or question keywords and is a simple statement of fact (e.g., "Project Titan's core tech is..."), you **MUST** classify it as a `SaveTool`. This is the default action for declarative sentences.

**Your Output MUST be a valid JSON object:**
```json
{
  "tool_to_call": "string, one of [SaveTool, RecallTool, MixedTool, NoTool]"
}
```

**Conversation History (for context):**
"#;

/// System prompt of task routing, after the history.
pub const ROUTING_TAIL: &'static str = r#"
"#;

/// Grammar of a task routing decision.
pub const ROUTING_GBNF: &'static str = r#"root ::= "{" ws "\"tool_to_call\":" ws "\"" ("SaveTool" | "RecallTool" | "MixedTool" | "NoTool") "\"" ws "}"
ws ::= [ \t\n\r]*"#;

/// Prompt of pronoun resolution, before the history.
pub const DISAMBIGUATION_HEAD: &'static str = r#"You are a text rewriting expert. Your ONLY job is to rewrite the user's input into a self-contained phrase by resolving pronouns (like "it", "that", "他", "它") based on the conversation history.

**CRITICAL INSTRUCTIONS:**
1.  **ONLY Resolve Pronouns:** Your primary task is to replace pronouns with the specific entities from the history.
2.  **Maintain Original Intent:** If the input is a question, the output MUST remain a question. If it's a statement, it MUST remain a statement. DO NOT answer the question or change the intent.
3.  **If No Pronouns:** If the input is already clear, return it IDENTICALLY.
4.  **Output JSON:** Your output MUST be a valid JSON object: {"disambiguated_text": "..."}

---
**Example 1: Question with Pronoun**
<History>
User: 我正在学习 MemosAgent 项目。
</History>
<User_Input>
它的优点是什么？
</User_Input>
<Your_Output>
{"disambiguated_text": "MemosAgent项目的优点是什么？"}
</Your_Output>
---
**Example 2: Statement with Pronoun**
<History>
User: 我正在学习 MemosAgent 项目。
</History>
<User_Input>
记一下：它的优点是高内聚低耦合。
</User_Input>
<Your_Output>
{"disambiguated_text": "记一下：MemosAgent项目的优点是高内聚低耦合。"}
</Your_Output>
---
**Example 3: Already Clear**
<History>
...
</History>
<User_Input>
周五下午有什么事？
</User_Input>
<Your_Output>
{"disambiguated_text": "周五下午有什么事？"}
</Your_Output>
---

**Current Task:**

<History>
"#;

/// Prompt of pronoun resolution, between the history and the input.
pub const DISAMBIGUATION_MIDDLE: &'static str = r#"
</History>
<User_Input>
"#;

/// Prompt of pronoun resolution, after the input.
pub const DISAMBIGUATION_TAIL: &'static str = r#"
</User_Input>
<Your_Output>
"#;

/// Grammar of a resolved text.
pub const DISAMBIGUATION_GBNF: &'static str = r#"
root   ::= "{" ws "\"disambiguated_text\"" ws ":" ws string ws "}"
string ::= "\"" (
  [^"\\\\] |
  "\\" (["\\/bfnrt] | "u" [0-9a-fA-F]{4})
)* "\""
ws     ::= ([ \t\n\r])*
"#;

/// System prompt of task decomposition.
pub const INTENT_SYSTEM: &'static str = r#"You are an expert task decomposer. Your job is to analyze the user's query and the conversation history, then break the query down into a precise, executable task list.

**CRITICAL INSTRUCTIONS:**
1.  **CONTEXT IS KING:** ALWAYS use the conversation history (Context) to resolve pronouns (like "it", "its", "that") and ambiguous phrases. The user's current query might only make sense with the history.
2.  **BE PRECISE:** When you use the context, create a SINGLE, complete task. Do NOT create a separate task for the context and another for the user's fragment.
3.  **STICK TO THE CURRENT QUERY:** Your output tasks must only correspond to the actions requested in the **current `user_input`**. Do not re-create tasks from the history.

**Your Output MUST be a valid JSON object:**
```json
{
  "tasks": [
    {
      "intent": "string, one of [SaveIntent, RecallIntent]",
      "text": "string, the specific, complete text of the task"
    }
  ]
}
```

**GOOD Example (Correct Context Usage):**
<Context>
User: 帮我查一下“项目Titan”的核心技术
Assistant: 项目Titan的核心技术是分布式图计算。
</Context>
<user_input>那它的主要应用场景呢？</user_input>
<assistant_response>
{
"tasks": [
{
"intent": "RecallIntent",
"text": "项目Titan的主要应用场景"
}
]
}
</assistant_response>


**BAD Example (Incorrect Decomposition):**
<Context>
User: 帮我查一下“项目Titan”的核心技术
Assistant: 项目Titan的核心技术是分布式图计算。
</Context>
<user_input>那它的主要应用场景呢？</user_input>
<assistant_response>
{
"tasks": [
{
"intent": "RecallIntent",
"text": "项目Titan的核心技术"
},
{
"intent": "RecallIntent",
"text": "主要应用场景"
}
]
}
</assistant_response>


Now, decompose the user's query into a JSON task list."#;

/// Grammar of a task list.
pub const INTENT_GBNF: &'static str = r#"root ::= "{" ws "\"tasks\":" ws "[" ws task (ws "," ws task)* ws "]" ws "}"
task ::= "{" ws "\"intent\":" ws "\"" ("SaveIntent" | "RecallIntent") "\"" ws "," ws "\"text\":" ws string ws "}"
string ::= "\"" (
  [^"\\] |
  "\\" (["\\/bfnrt] | "u" [0-9a-fA-F] [0-9a-fA-F] [0-9a-fA-F] [0-9a-fA-F])
)* "\""
ws ::= [ \t\n\r]*"#;

/// Prompt of a memory rewrite, before the original text.
pub const MODIFICATION_HEAD: &'static str = r#"You are a precise text editor. Your task is to take an original text and a user's modification request, then output the fully rewritten, new version of the text.
Your output MUST be a valid JSON object with a single field "modified_text".

Original Text:
---
"#;

/// Prompt of a memory rewrite, between the original text and the request.
pub const MODIFICATION_MIDDLE: &'static str = r#"
---

User's Modification Request:
---
"#;

/// Prompt of a memory rewrite, after the request.
pub const MODIFICATION_TAIL: &'static str = r#"
---

Now, generate the new, complete text based on the user's request."#;

/// Grammar of a rewritten memory.
pub const MODIFICATION_GBNF: &'static str = r#"root ::= "{" ws "\"modified_text\"" ws ":" ws string ws "}"
string ::= "\"" ( [^"\\] | "\\" (["\\/bfnrt] | "u" [0-9a-fA-F]{4}) )* "\""
ws     ::= ([ \t\n\r])*"#;

/// System prompt of the tool router, before the history.
pub const TOOL_ROUTING_HEAD: &'static str = r#"你是一个判断用户意图的专家。你的任务非常简单：判断用户的输入是一个“需要记录的陈述”还是一个“需要回答的问题”。
**工具描述:**
- `SaveTool`: 用于记录任何事实、想法、陈述或笔记。
- `RecallTool`: 用于回答任何明确或隐含的问题。
- `NoTool`: **仅用于**处理非常简短的、无意义的闲聊。
**关键决策逻辑 (二选一):**
1.  **判断是否为问题**: 如果用户的输入听起来像一个问题，那么**必须**选择 `RecallTool`。
2.  **默认为保存**: 如果用户的输入不是一个明确的问题，那么它就是一条需要记录的信息。**必须**选择 `SaveTool`。
**重要提醒**: 你不需要处理“修改”或“删除”的意图。你的任务不是回答问题，只是做出分类决策。
**输出格式:** 你的回复必须是一个只包含 "tool_to_call" 字段的JSON对象。
**对话历史 (用于参考):**
"#;

/// System prompt of the tool router, after the history.
pub const TOOL_ROUTING_TAIL: &'static str = r#""#;

pub const NO_HISTORY: &'static str = "No history.";

pub const NO_CONVERSATION_HISTORY: &'static str = "No conversation history.";

pub const NO_CONVERSATION_HISTORY_ZH: &'static str = "无对话历史。";

/// The history as the prompts show it: its lines, or `empty` when there are none.
pub open spec fn history_context(history: Seq<String>, empty: Seq<char>) -> Seq<char> {
    if history.len() == 0 {
        empty
    } else {
        join_with(history.map_values(|s: String| s@), "\n"@)
    }
}

pub(crate) fn history_context_exec(history: &Vec<String>, empty: &str) -> (r: String)
    ensures
        r@ == history_context(history@, empty@),
{
    if history.len() == 0 {
        String::from_str(empty)
    } else {
        join_strings(history, "\n")
    }
}

/// A message with this role and content.
pub open spec fn is_message(m: ChatMessage, role: Seq<char>, content: Seq<char>) -> bool {
    m.role@ == role && m.content@ == content
}

pub(crate) fn message(role: &str, content: String) -> (r: ChatMessage)
    ensures
        is_message(r, role@, content@),
{
    ChatMessage { role: String::from_str(role), content }
}

pub fn get_hyde_prompt_v2() -> (r: &'static str)
    ensures
        r@ == HYDE_PROMPT@,
{
    HYDE_PROMPT
}

pub fn get_synthesis_prompt() -> (r: &'static str)
    ensures
        r@ == SYNTHESIS_PROMPT@,
{
    SYNTHESIS_PROMPT
}

pub fn get_fact_extraction_gbnf_schema() -> (r: &'static str)
    ensures
        r@ == FACT_EXTRACTION_GBNF@,
{
    FACT_EXTRACTION_GBNF
}

pub fn get_query_rewrite_gbnf_schema() -> (r: &'static str)
    ensures
        r@ == QUERY_REWRITE_GBNF@,
{
    QUERY_REWRITE_GBNF
}

pub fn get_disambiguation_gbnf_schema() -> (r: &'static str)
    ensures
        r@ == DISAMBIGUATION_GBNF@,
{
    DISAMBIGUATION_GBNF
}

pub fn get_intent_gbnf_schema() -> (r: &'static str)
    ensures
        r@ == INTENT_GBNF@,
{
    INTENT_GBNF
}

pub fn get_text_modification_gbnf_schema() -> (r: &'static str)
    ensures
        r@ == MODIFICATION_GBNF@,
{
    MODIFICATION_GBNF
}

/// Fact extraction: the system prompt, then the user's input.
pub fn get_fact_extraction_prompt(user_input: &str) -> (r: Vec<ChatMessage>)
    ensures
        r@.len() == 2,
        is_message(r@[0], "system"@, FACT_EXTRACTION_SYSTEM@),
        is_message(r@[1], "user"@, user_input@),
{
    let mut r: Vec<ChatMessage> = Vec::new();
    r.push(message("system", String::from_str(FACT_EXTRACTION_SYSTEM)));
    r.push(message("user", String::from_str(user_input)));
    r
}

/// Query rewriting: the system prompt around the history, then the query.
pub fn get_query_rewrite_prompt(user_query: &str, history: &Vec<String>) -> (r: Vec<ChatMessage>)
    ensures
        r@.len() == 2,
        is_message(
            r@[0],
            "system"@,
            QUERY_REWRITE_HEAD@ + history_context(history@, NO_HISTORY@) + QUERY_REWRITE_TAIL@,
        ),
        is_message(r@[1], "user"@, user_query@),
{
    let context = history_context_exec(history, NO_HISTORY);
    let system = String::from_str(QUERY_REWRITE_HEAD).concat(context.as_str()).concat(QUERY_REWRITE_TAIL);
    let mut r: Vec<ChatMessage> = Vec::new();
    r.push(message("system", system));
    r.push(message("user", String::from_str(user_query)));
    r
}

/// Pronoun resolution: one system message holding the history and the input.
pub fn get_disambiguation_prompt(user_input: &str, history: &Vec<String>) -> (r: Vec<ChatMessage>)
    ensures
        r@.len() == 1,
        is_message(
            r@[0],
            "system"@,
            DISAMBIGUATION_HEAD@ + history_context(history@, NO_CONVERSATION_HISTORY@)
                + DISAMBIGUATION_MIDDLE@ + user_input@ + DISAMBIGUATION_TAIL@,
        ),
{
    let context = history_context_exec(history, NO_CONVERSATION_HISTORY);
    let system = String::from_str(DISAMBIGUATION_HEAD).concat(context.as_str()).concat(
        DISAMBIGUATION_MIDDLE,
    ).concat(user_input).concat(DISAMBIGUATION_TAIL);
    let mut r: Vec<ChatMessage> = Vec::new();
    r.push(message("system", system));
    r
}

/// Task decomposition: the system prompt, the history as context when
/// there is any, then the query.
pub fn get_intent_classification_messages(user_query: &str, history: &Vec<String>) -> (r: Vec<ChatMessage>)
    ensures
        is_message(r@[0], "system"@, INTENT_SYSTEM@),
        history@.len() == 0 ==> r@.len() == 2 && is_message(r@[1], "user"@, user_query@),
        history@.len() > 0 ==> r@.len() == 3 && is_message(
            r@[1],
            "user"@,
            "<Context>\n"@ + history_context(history@, NO_HISTORY@) + "\n</Context>"@,
        ) && is_message(r@[2], "user"@, user_query@),
{
    let mut r: Vec<ChatMessage> = Vec::new();
    r.push(message("system", String::from_str(INTENT_SYSTEM)));
    if history.len() > 0 {
        let joined = join_strings(history, "\n");
        r.push(message("user", String::from_str("<Context>\n").concat(joined.as_str()).concat("\n</Context>")));
    }
    r.push(message("user", String::from_str(user_query)));
    r
}

/// The rewrite of a memory: one system message holding the original text
/// and the user's request.
pub fn get_text_modification_prompt(original_text: &str, user_request: &str) -> (r: Vec<ChatMessage>)
    ensures
        r@.len() == 1,
        is_message(
            r@[0],
            "system"@,
            MODIFICATION_HEAD@ + original_text@ + MODIFICATION_MIDDLE@ + user_request@ + MODIFICATION_TAIL@,
        ),
{
    let system = String::from_str(MODIFICATION_HEAD).concat(original_text).concat(MODIFICATION_MIDDLE).concat(
        user_request,
    ).concat(MODIFICATION_TAIL);
    let mut r: Vec<ChatMessage> = Vec::new();
    r.push(message("system", system));
    r
}

/// The tool router: the system prompt around the history, then the query.
pub fn get_tool_routing_prompt(user_query: &str, history: &Vec<String>) -> (r: Vec<ChatMessage>)
    ensures
        r@.len() == 2,
        is_message(
            r@[0],
            "system"@,
            TOOL_ROUTING_HEAD@ + history_context(history@, NO_CONVERSATION_HISTORY_ZH@) + TOOL_ROUTING_TAIL@,
        ),
        is_message(r@[1], "user"@, user_query@),
{
    let context = history_context_exec(history, NO_CONVERSATION_HISTORY_ZH);
    let system = String::from_str(TOOL_ROUTING_HEAD).concat(context.as_str()).concat(TOOL_ROUTING_TAIL);
    let mut r: Vec<ChatMessage> = Vec::new();
    r.push(message("system", system));
    r.push(message("user", String::from_str(user_query)));
    r
}

} // verus!
