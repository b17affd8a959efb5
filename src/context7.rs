use vstd::prelude::*;
use crate::text::{decimal, decimal_string};

verus! {

/// A documentation query: a library as `owner/repo`, with an optional
/// topic, version and page.
pub struct Context7Request {
    pub library: String,
    pub topic: Option<String>,
    pub version: Option<String>,
    pub page: Option<u32>,
}

/// Where and how to reach the documentation service.
pub struct Context7Config {
    pub api_key: Option<String>,
    pub base_url: String,
}

/// One documentation snippet of a response.
pub struct DocSnippet {
    pub title: Option<String>,
    pub content: String,
}

/// The paging information of a response.
pub struct Pagination {
    pub current_page: u32,
    pub total_pages: u32,
    pub has_next: bool,
}

/// A decoded response of the documentation service.
pub struct Context7Response {
    pub snippets: Vec<DocSnippet>,
    pub pagination: Option<Pagination>,
}

/// What a connection test reports.
pub struct TestConnectionResponse {
    pub success: bool,
    pub message: String,
    pub preview: Option<String>,
}

/// The text of a tool call's reply, and whether it reports a failure.
pub struct QueryReply {
    pub text: String,
    pub is_error: bool,
}

/// One property of a tool's input schema.
pub struct SchemaProperty {
    pub name: String,
    /// The JSON type: `string` or `integer`.
    pub value_type: String,
    pub description: String,
    pub minimum: Option<u32>,
    pub maximum: Option<u32>,
}

/// What a client is told about the tool: its name, what it does, and the
/// object its calls take.
pub struct ToolDefinition {
    pub name: String,
    pub description: String,
    pub properties: Vec<SchemaProperty>,
    pub required: Vec<String>,
}

/// The API key setting as shown to a user interface.
pub struct Context7ConfigResponse {
    pub api_key: Option<String>,
}

/// The documentation query tool.
pub struct Context7Tool;

/// The service's address.
pub fn default_base_url() -> (r: String)
    ensures
        r@ == "https://context7.com/api/v2"@,
{
    String::from_str("https://context7.com/api/v2")
}

/// The lowest and highest page a query may ask for.
pub const MIN_PAGE: u32 = 1;
pub const MAX_PAGE: u32 = 10;

pub open spec fn tool_description_text() -> Seq<char> {
    "查询最新的框架和库文档，支持 Next.js、React、Vue、Spring 等主流框架。免费使用无需配置，配置 API Key 后可获得更高速率限制。"@
}

/// Whether `p` is the property `name` of type `value_type`, with the given
/// description and bounds.
pub open spec fn is_property(
    p: SchemaProperty,
    name: Seq<char>,
    value_type: Seq<char>,
    description: Seq<char>,
    minimum: Option<u32>,
    maximum: Option<u32>,
) -> bool {
    p.name@ == name && p.value_type@ == value_type && p.description@ == description
        && p.minimum == minimum && p.maximum == maximum
}

fn property(
    name: &str,
    value_type: &str,
    description: &str,
    minimum: Option<u32>,
    maximum: Option<u32>,
) -> (r: SchemaProperty)
    ensures
        is_property(r, name@, value_type@, description@, minimum, maximum),
{
    SchemaProperty {
        name: String::from_str(name),
        value_type: String::from_str(value_type),
        description: String::from_str(description),
        minimum,
        maximum,
    }
}

/// The configuration used for queries, from the stored API key.
pub fn config_with_key(api_key: Option<String>) -> (r: Context7Config)
    ensures
        r.api_key == api_key,
        r.base_url@ == "https://context7.com/api/v2"@,
{
    Context7Config { api_key, base_url: default_base_url() }
}

/// The query a connection test sends: the core topic of the Spring
/// Framework documentation, first page.
pub fn connection_test_request() -> (r: Context7Request)
    ensures
        r.library@ == "spring-projects/spring-framework"@,
        r.topic matches Some(t) && t@ == "core"@,
        r.version is None,
        r.page == Some(1u32),
{
    Context7Request {
        library: String::from_str("spring-projects/spring-framework"),
        topic: Some(String::from_str("core")),
        version: None,
        page: Some(1),
    }
}

/// The address of a library's code documentation.
pub fn docs_url(base_url: &str, library: &str) -> (r: String)
    ensures
        r@ == base_url@ + "/docs/code/"@ + library@,
{
    String::from_str(base_url).concat("/docs/code/").concat(library)
}

/// The value of the authorization header for an API key.
pub fn bearer_value(api_key: &str) -> (r: String)
    ensures
        r@ == "Bearer "@ + api_key@,
{
    String::from_str("Bearer ").concat(api_key)
}

/// The query parameters of a request, in order: topic, version, page; each
/// only where the request has it.
pub open spec fn query_param_pairs(request: Context7Request) -> Seq<(Seq<char>, Seq<char>)> {
    optional_pair("topic"@, request.topic) + optional_pair("version"@, request.version)
        + match request.page {
        Some(p) => seq![("page"@, decimal(p as nat))],
        None => Seq::empty(),
    }
}

/// A query parameter for an optional field.
pub open spec fn optional_pair(name: Seq<char>, value: Option<String>) -> Seq<(Seq<char>, Seq<char>)> {
    match value {
        Some(v) => seq![(name, v@)],
        None => Seq::empty(),
    }
}

/// The views of a list of name and value pairs.
pub open spec fn pair_views(v: Seq<(String, String)>) -> Seq<(Seq<char>, Seq<char>)> {
    v.map_values(|p: (String, String)| (p.0@, p.1@))
}

pub fn query_params(request: &Context7Request) -> (r: Vec<(String, String)>)
    ensures
        pair_views(r@) == query_param_pairs(*request),
{
    let mut out: Vec<(String, String)> = Vec::new();
    let ghost a = optional_pair("topic"@, request.topic);
    let ghost b = optional_pair("version"@, request.version);
    if let Some(t) = &request.topic {
        out.push((String::from_str("topic"), t.clone()));
    }
    assert(pair_views(out@) =~= a);
    if let Some(v) = &request.version {
        out.push((String::from_str("version"), v.clone()));
    }
    assert(pair_views(out@) =~= a + b);
    if let Some(p) = request.page {
        out.push((String::from_str("page"), decimal_string(p as u64)));
    }
    assert(pair_views(out@) =~= query_param_pairs(*request));
    out
}

/// The most bytes of a snippet that a connection test shows.
pub const PREVIEW_BYTES: usize = 200;

/// How many bytes UTF-8 uses for a character.
pub open spec fn char_utf8_len(c: char) -> nat {
    if (c as u32) < 0x80 {
        1
    } else if (c as u32) < 0x800 {
        2
    } else if (c as u32) < 0x10000 {
        3
    } else {
        4
    }
}

/// How many bytes UTF-8 uses for a text.
pub open spec fn utf8_len(s: Seq<char>) -> nat
    decreases s.len(),
{
    if s.len() == 0 {
        0
    } else {
        char_utf8_len(s[0]) + utf8_len(s.drop_first())
    }
}

/// How many characters from the start of `s` fit in `limit` bytes.
pub open spec fn fit_count(s: Seq<char>, limit: nat) -> nat
    decreases s.len(),
{
    if s.len() == 0 || char_utf8_len(s[0]) > limit {
        0
    } else {
        1 + fit_count(s.drop_first(), (limit - char_utf8_len(s[0])) as nat)
    }
}

/// Some character does not fit exactly when the whole text is too long.
pub proof fn lemma_fit_count_short(s: Seq<char>, limit: nat)
    ensures
        fit_count(s, limit) <= s.len(),
        fit_count(s, limit) < s.len() <==> utf8_len(s) > limit,
    decreases s.len(),
{
    if s.len() > 0 && char_utf8_len(s[0]) <= limit {
        lemma_fit_count_short(s.drop_first(), (limit - char_utf8_len(s[0])) as nat);
    }
}

/// What a connection test shows of a response: the start of its first
/// snippet, at most the preview's bytes and marked when cut, or a notice
/// when there is none.
pub open spec fn preview_text(snippets: Seq<DocSnippet>) -> Seq<char> {
    if snippets.len() == 0 {
        "未找到文档内容"@
    } else if utf8_len(snippets[0].content@) > PREVIEW_BYTES {
        snippets[0].content@.subrange(0, fit_count(snippets[0].content@, PREVIEW_BYTES as nat) as int)
            + "..."@
    } else {
        snippets[0].content@
    }
}

fn utf8_width(c: char) -> (r: usize)
    ensures
        r == char_utf8_len(c),
{
    let v = c as u32;
    if v < 0x80 {
        1
    } else if v < 0x800 {
        2
    } else if v < 0x10000 {
        3
    } else {
        4
    }
}

pub fn test_preview(response: &Context7Response) -> (r: String)
    ensures
        r@ == preview_text(response.snippets@),
{
    if response.snippets.len() == 0 {
        return String::from_str("未找到文档内容");
    }
    let content = response.snippets[0].content.as_str();
    let ghost c = content@;
    let n = content.unicode_len();
    let mut i: usize = 0;
    let mut budget: usize = PREVIEW_BYTES;
    assert(c.subrange(0, n as int) =~= c);
    let mut fits = true;
    while fits && i < n
        invariant
            n == c.len(),
            c == content@,
            i <= n,
            fit_count(c, PREVIEW_BYTES as nat) == i + fit_count(c.subrange(i as int, n as int), budget as nat),
            !fits ==> i < n && fit_count(c.subrange(i as int, n as int), budget as nat) == 0,
        decreases n - i + (if fits { 1int } else { 0int }),
    {
        let w = utf8_width(content.get_char(i));
        if w > budget {
            fits = false;
        } else {
            proof {
                let rest = c.subrange(i as int, n as int);
                assert(rest.drop_first() =~= c.subrange(i + 1, n as int));
            }
            budget = budget - w;
            i = i + 1;
        }
    }
    proof {
        lemma_fit_count_short(c, PREVIEW_BYTES as nat);
    }
    if i < n {
        String::from_str(content.substring_char(0, i)).concat("...")
    } else {
        String::from_str(content)
    }
}

/// The report of a connection test, from the preview it fetched or the
/// reason it failed.
pub fn connection_test_response(outcome: Result<String, String>) -> (r: TestConnectionResponse)
    ensures
        match outcome {
            Ok(p) => r.success && r.message@ == "连接成功! 已获取 Spring Framework 文档"@
                && r.preview == Some(p),
            Err(e) => !r.success && r.message@ == "连接失败: "@ + e@ && r.preview is None,
        },
{
    match outcome {
        Ok(p) => TestConnectionResponse {
            success: true,
            message: String::from_str("连接成功! 已获取 Spring Framework 文档"),
            preview: Some(p),
        },
        Err(e) => TestConnectionResponse {
            success: false,
            message: String::from_str("连接失败: ").concat(e.as_str()),
            preview: None,
        },
    }
}

/// The reply to a documentation query, from the rendered documents or the
/// reason the query failed.
pub fn query_reply(outcome: Result<String, String>) -> (r: QueryReply)
    ensures
        match outcome {
            Ok(t) => !r.is_error && r.text == t,
            Err(e) => r.is_error && r.text@ == "Context7 查询失败: "@ + e@,
        },
{
    match outcome {
        Ok(t) => QueryReply { text: t, is_error: false },
        Err(e) => QueryReply {
            is_error: true,
            text: String::from_str("Context7 查询失败: ").concat(e.as_str()),
        },
    }
}

/// The body of a failed response, or a placeholder when it could not be read.
pub fn error_body_or_placeholder<E>(body: Result<String, E>) -> (r: String)
    ensures
        r@ == match body {
            Ok(b) => b@,
            Err(_) => "无法读取错误信息"@,
        },
{
    match body {
        Ok(b) => b,
        Err(_) => String::from_str("无法读取错误信息"),
    }
}

/// The error of a query that the service answered with a failure status;
/// `status_line` is the status as the HTTP client prints it.
pub fn api_failure_message(status_line: &str, status_code: u16, error_text: &str) -> (r: String)
    ensures
        r@ == "API 请求失败 (状态码: "@ + status_line@ + "): "@ + error_message_text(
            status_code,
            error_text@,
        ),
{
    let detail = Context7Tool::format_error_message(status_code, error_text);
    String::from_str("API 请求失败 (状态码: ").concat(status_line).concat("): ").concat(detail.as_str())
}

/// The stored API key for a key as entered, once surrounding whitespace is
/// removed: none when nothing is left.
pub fn api_key_setting(trimmed: &str) -> (r: Option<String>)
    ensures
        match r {
            Some(k) => trimmed@.len() > 0 && k@ == trimmed@,
            None => trimmed@.len() == 0,
        },
{
    if trimmed.unicode_len() == 0 {
        None
    } else {
        Some(String::from_str(trimmed))
    }
}

/// A character with the Unicode `White_Space` property.
pub open spec fn is_whitespace(c: char) -> bool {
    let v = c as u32;
    (0x09 <= v <= 0x0D) || v == 0x20 || v == 0x85 || v == 0xA0 || v == 0x1680
        || (0x2000 <= v <= 0x200A) || v == 0x2028 || v == 0x2029 || v == 0x202F || v == 0x205F
        || v == 0x3000
}

/// How many whitespace characters a text starts with.
pub open spec fn leading_whitespace(s: Seq<char>) -> nat
    decreases s.len(),
{
    if s.len() > 0 && is_whitespace(s[0]) {
        1 + leading_whitespace(s.drop_first())
    } else {
        0
    }
}

/// How many whitespace characters a text ends with.
pub open spec fn trailing_whitespace(s: Seq<char>) -> nat
    decreases s.len(),
{
    if s.len() > 0 && is_whitespace(s.last()) {
        1 + trailing_whitespace(s.drop_last())
    } else {
        0
    }
}

/// A text without its leading and trailing whitespace.
pub open spec fn trimmed(s: Seq<char>) -> Seq<char> {
    let t = s.subrange(leading_whitespace(s) as int, s.len() as int);
    t.subrange(0, t.len() - trailing_whitespace(t))
}

/// Relies on `str::trim`: the text without its leading and trailing
/// characters of the Unicode `White_Space` property.
#[verifier::external_body]
fn trim(s: &str) -> (r: &str)
    ensures
        r@ == trimmed(s@),
{
    s.trim()
}

/// The stored API key for a key as entered: the key without surrounding
/// whitespace, or none when nothing else is left.
pub fn normalize_api_key(api_key: &str) -> (r: Option<String>)
    ensures
        match r {
            Some(k) => trimmed(api_key@).len() > 0 && k@ == trimmed(api_key@),
            None => trimmed(api_key@).len() == 0,
        },
{
    api_key_setting(trim(api_key))
}

/// The text of a failed request with an HTTP status, for a tool call.
pub open spec fn error_message_text(status_code: u16, error_text: Seq<char>) -> Seq<char> {
    if status_code == 401 {
        "API 密钥无效或已过期，请检查配置"@
    } else if status_code == 404 {
        "库不存在或拼写错误: "@ + error_text
    } else if status_code == 429 {
        "速率限制已达上限，建议配置 API Key 以获得更高速率限制"@
    } else if 500 <= status_code <= 599 {
        "Context7 服务器错误: "@ + error_text
    } else {
        error_text
    }
}

/// The text of a failed connection test with an HTTP status.
pub open spec fn test_error_text(status_code: u16, error_text: Seq<char>) -> Seq<char> {
    if status_code == 401 {
        "API 密钥无效或已过期"@
    } else if status_code == 404 {
        "测试库不存在 (spring-projects/spring-framework)"@
    } else if status_code == 429 {
        "速率限制已达上限，建议配置 API Key"@
    } else if 500 <= status_code <= 599 {
        "Context7 服务器错误: "@ + error_text
    } else {
        "请求失败 (状态码: "@ + decimal(status_code as nat) + "): "@ + error_text
    }
}

/// Explains a failed connection test from its status code and the body the
/// service sent.
pub fn format_test_error(status_code: u16, error_text: &str) -> (r: String)
    ensures
        r@ == test_error_text(status_code, error_text@),
{
    if status_code == 401 {
        String::from_str("API 密钥无效或已过期")
    } else if status_code == 404 {
        String::from_str("测试库不存在 (spring-projects/spring-framework)")
    } else if status_code == 429 {
        String::from_str("速率限制已达上限，建议配置 API Key")
    } else if 500 <= status_code && status_code <= 599 {
        String::from_str("Context7 服务器错误: ").concat(error_text)
    } else {
        let mut s = String::from_str("请求失败 (状态码: ");
        let code = decimal_string(status_code as u64);
        s.append(code.as_str());
        s.append("): ");
        s.append(error_text);
        s
    }
}

impl Context7Tool {
    /// Explains a failed request from its status code and the body the
    /// service sent.
    pub fn format_error_message(status_code: u16, error_text: &str) -> (r: String)
        ensures
            r@ == error_message_text(status_code, error_text@),
    {
        if status_code == 401 {
            String::from_str("API 密钥无效或已过期，请检查配置")
        } else if status_code == 404 {
            String::from_str("库不存在或拼写错误: ").concat(error_text)
        } else if status_code == 429 {
            String::from_str("速率限制已达上限，建议配置 API Key 以获得更高速率限制")
        } else if 500 <= status_code && status_code <= 599 {
            String::from_str("Context7 服务器错误: ").concat(error_text)
        } else {
            String::from_str(error_text)
        }
    }
}

/// A header line for an optional query field.
pub open spec fn optional_line(label: Seq<char>, value: Option<String>) -> Seq<char> {
    match value {
        Some(v) => label + v@ + "\n"@,
        None => Seq::empty(),
    }
}

/// The title block of a formatted response.
pub open spec fn header_text(request: Context7Request) -> Seq<char> {
    "# "@ + request.library@ + " 文档\n\n"@
        + optional_line("**主题**: "@, request.topic)
        + optional_line("**版本**: "@, request.version)
        + "\n---\n\n"@
}

/// The heading of a snippet: its title, or its number when it has none.
pub open spec fn snippet_heading(idx: nat, title: Option<String>) -> Seq<char> {
    match title {
        Some(t) => "## "@ + t@ + "\n\n"@,
        None => "## 片段 "@ + decimal(idx + 1) + "\n\n"@,
    }
}

/// One snippet, at position `idx` (counted from zero), as a section.
pub open spec fn snippet_text(idx: nat, snippet: DocSnippet) -> Seq<char> {
    snippet_heading(idx, snippet.title) + snippet.content@ + "\n\n"@
}

/// The snippets as consecutive sections, numbered from the first.
pub open spec fn snippets_text(snippets: Seq<DocSnippet>) -> Seq<char>
    decreases snippets.len(),
{
    if snippets.len() == 0 {
        Seq::empty()
    } else {
        snippets_text(snippets.drop_last()) + snippet_text(
            (snippets.len() - 1) as nat,
            snippets.last(),
        )
    }
}

/// The body of a formatted response: its sections, or a notice when there
/// is none.
pub open spec fn body_text(snippets: Seq<DocSnippet>) -> Seq<char> {
    if snippets.len() == 0 {
        "未找到相关文档。请尝试调整查询参数。\n"@
    } else {
        snippets_text(snippets)
    }
}

/// A pointer to the next page, when there is one.
pub open spec fn next_page_hint(p: Pagination) -> Seq<char> {
    if p.has_next {
        " | 使用 `page: "@ + decimal((p.current_page + 1) as nat) + "` 查看下一页"@
    } else {
        Seq::empty()
    }
}

/// The paging block of a formatted response.
pub open spec fn pagination_text(pagination: Option<Pagination>) -> Seq<char> {
    match pagination {
        Some(p) => "---\n\n"@ + "📄 第 "@ + decimal(p.current_page as nat) + "/"@
            + decimal(p.total_pages as nat) + " 页"@ + next_page_hint(p) + "\n"@,
        None => Seq::empty(),
    }
}

/// The source line that closes a formatted response.
pub open spec fn footer_text(request: Context7Request) -> Seq<char> {
    "\n🔗 来源: Context7 - "@ + request.library@ + "\n"@
}

/// A response rendered as Markdown for the query that produced it.
pub open spec fn response_text(response: Context7Response, request: Context7Request) -> Seq<char> {
    header_text(request) + body_text(response.snippets@) + pagination_text(response.pagination)
        + footer_text(request)
}

fn append_optional_line(out: &mut String, label: &str, value: &Option<String>)
    ensures
        final(out)@ == old(out)@ + optional_line(label@, *value),
{
    match value {
        Some(v) => {
            out.append(label);
            out.append(v.as_str());
            out.append("\n");
        },
        None => {
            assert(old(out)@ + Seq::<char>::empty() =~= old(out)@);
        },
    }
}

fn append_snippet(out: &mut String, idx: usize, snippet: &DocSnippet)
    requires
        idx < usize::MAX,
    ensures
        final(out)@ == old(out)@ + snippet_text(idx as nat, *snippet),
{
    let ghost start = out@;
    match &snippet.title {
        Some(t) => {
            out.append("## ");
            out.append(t.as_str());
            out.append("\n\n");
        },
        None => {
            out.append("## 片段 ");
            let n = decimal_string(idx as u64 + 1);
            out.append(n.as_str());
            out.append("\n\n");
        },
    }
    out.append(snippet.content.as_str());
    out.append("\n\n");
    assert(out@ =~= start + snippet_text(idx as nat, *snippet));
}

fn append_pagination(out: &mut String, pagination: &Option<Pagination>)
    ensures
        final(out)@ == old(out)@ + pagination_text(*pagination),
{
    let ghost start = out@;
    match pagination {
        Some(p) => {
            out.append("---\n\n");
            out.append("📄 第 ");
            let cur = decimal_string(p.current_page as u64);
            out.append(cur.as_str());
            out.append("/");
            let total = decimal_string(p.total_pages as u64);
            out.append(total.as_str());
            out.append(" 页");
            if p.has_next {
                out.append(" | 使用 `page: ");
                let next = decimal_string(p.current_page as u64 + 1);
                out.append(next.as_str());
                out.append("` 查看下一页");
            }
            out.append("\n");
            assert(out@ =~= start + pagination_text(*pagination));
        },
        None => {
            assert(start + Seq::<char>::empty() =~= start);
        },
    }
}

impl Context7Tool {
    /// The tool's definition: a library to query, required, and an optional
    /// topic, version and page between the lowest and highest page.
    pub fn get_tool_definition() -> (r: ToolDefinition)
        ensures
            r.name@ == "context7"@,
            r.description@ == tool_description_text(),
            r.properties@.len() == 4,
            is_property(
                r.properties@[0],
                "library"@,
                "string"@,
                "库标识符，格式: owner/repo (例如: vercel/next.js, facebook/react, spring-projects/spring-framework)"@,
                None,
                None,
            ),
            is_property(
                r.properties@[1],
                "topic"@,
                "string"@,
                "查询主题 (可选，例如: routing, authentication, core)"@,
                None,
                None,
            ),
            is_property(
                r.properties@[2],
                "version"@,
                "string"@,
                "版本号 (可选，例如: v15.1.8)"@,
                None,
                None,
            ),
            is_property(
                r.properties@[3],
                "page"@,
                "integer"@,
                "分页页码 (可选，默认1，最大10)"@,
                Some(MIN_PAGE),
                Some(MAX_PAGE),
            ),
            r.required@.len() == 1,
            r.required@[0]@ == "library"@,
    {
        let mut properties: Vec<SchemaProperty> = Vec::new();
        properties.push(
            property(
                "library",
                "string",
                "库标识符，格式: owner/repo (例如: vercel/next.js, facebook/react, spring-projects/spring-framework)",
                None,
                None,
            ),
        );
        properties.push(
            property("topic", "string", "查询主题 (可选，例如: routing, authentication, core)", None, None),
        );
        properties.push(property("version", "string", "版本号 (可选，例如: v15.1.8)", None, None));
        properties.push(
            property("page", "integer", "分页页码 (可选，默认1，最大10)", Some(MIN_PAGE), Some(MAX_PAGE)),
        );
        let mut required: Vec<String> = Vec::new();
        required.push(String::from_str("library"));
        ToolDefinition {
            name: String::from_str("context7"),
            description: String::from_str(
                "查询最新的框架和库文档，支持 Next.js、React、Vue、Spring 等主流框架。免费使用无需配置，配置 API Key 后可获得更高速率限制。",
            ),
            properties,
            required,
        }
    }

    /// Renders a response as Markdown: a title with the query's topic and
    /// version, each snippet as a section, the paging, and the source.
    pub fn format_response(response: &Context7Response, request: &Context7Request) -> (r: String)
        ensures
            r@ == response_text(*response, *request),
    {
        let mut out = String::new();
        out.append("# ");
        out.append(request.library.as_str());
        out.append(" 文档\n\n");
        append_optional_line(&mut out, "**主题**: ", &request.topic);
        append_optional_line(&mut out, "**版本**: ", &request.version);
        out.append("\n---\n\n");
        assert(out@ =~= header_text(*request));
        let ghost head = out@;
        let n = response.snippets.len();
        if n == 0 {
            out.append("未找到相关文档。请尝试调整查询参数。\n");
        } else {
            let mut i: usize = 0;
            while i < n
                invariant
                    n == response.snippets@.len(),
                    i <= n,
                    out@ == head + snippets_text(response.snippets@.subrange(0, i as int)),
                decreases n - i,
            {
                let ghost before = out@;
                append_snippet(&mut out, i, &response.snippets[i]);
                proof {
                    let s = response.snippets@;
                    assert(s.subrange(0, i + 1).drop_last() =~= s.subrange(0, i as int));
                    assert(s.subrange(0, i + 1).last() == s[i as int]);
                    assert(out@ =~= head + snippets_text(s.subrange(0, i + 1)));
                }
                i = i + 1;
            }
            assert(response.snippets@.subrange(0, n as int) =~= response.snippets@);
        }
        assert(out@ == head + body_text(response.snippets@));
        append_pagination(&mut out, &response.pagination);
        out.append("\n🔗 来源: Context7 - ");
        out.append(request.library.as_str());
        out.append("\n");
        assert(out@ =~= response_text(*response, *request));
        out
    }
}

} // verus!
