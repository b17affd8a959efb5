use mcp_tools::context7::{
    api_failure_message, api_key_setting, bearer_value, config_with_key, connection_test_request,
    connection_test_response, docs_url, error_body_or_placeholder, format_test_error,
    normalize_api_key, query_params, query_reply, test_preview, Context7Request, Context7Response,
    Context7Tool, DocSnippet, Pagination,
};
use mcp_tools::interaction::{history_count, history_source};
use mcp_tools::text::decimal_string;

fn request(topic: Option<&str>, version: Option<&str>, page: Option<u32>) -> Context7Request {
    Context7Request {
        library: "vercel/next.js".to_string(),
        topic: topic.map(|s| s.to_string()),
        version: version.map(|s| s.to_string()),
        page,
    }
}

#[test]
fn error_messages_by_status() {
    assert_eq!(Context7Tool::format_error_message(401, "x"), "API 密钥无效或已过期，请检查配置");
    assert_eq!(Context7Tool::format_error_message(404, "no lib"), "库不存在或拼写错误: no lib");
    assert_eq!(
        Context7Tool::format_error_message(429, "x"),
        "速率限制已达上限，建议配置 API Key 以获得更高速率限制"
    );
    assert_eq!(Context7Tool::format_error_message(500, "boom"), "Context7 服务器错误: boom");
    assert_eq!(Context7Tool::format_error_message(599, "boom"), "Context7 服务器错误: boom");
    assert_eq!(Context7Tool::format_error_message(600, "odd"), "odd");
    assert_eq!(Context7Tool::format_error_message(403, "forbidden"), "forbidden");
}

#[test]
fn test_errors_by_status() {
    assert_eq!(format_test_error(401, "x"), "API 密钥无效或已过期");
    assert_eq!(format_test_error(404, "x"), "测试库不存在 (spring-projects/spring-framework)");
    assert_eq!(format_test_error(429, "x"), "速率限制已达上限，建议配置 API Key");
    assert_eq!(format_test_error(503, "down"), "Context7 服务器错误: down");
    assert_eq!(format_test_error(403, "nope"), "请求失败 (状态码: 403): nope");
    assert_eq!(format_test_error(0, ""), "请求失败 (状态码: 0): ");
}

#[test]
fn decimals() {
    assert_eq!(decimal_string(0), "0");
    assert_eq!(decimal_string(7), "7");
    assert_eq!(decimal_string(10), "10");
    assert_eq!(decimal_string(65535), "65535");
    assert_eq!(decimal_string(u64::MAX), u64::MAX.to_string());
}

#[test]
fn response_with_titles_and_paging() {
    let resp = Context7Response {
        snippets: vec![
            DocSnippet { title: Some("Routing".to_string()), content: "use app/".to_string() },
            DocSnippet { title: None, content: "second".to_string() },
        ],
        pagination: Some(Pagination { current_page: 2, total_pages: 5, has_next: true }),
    };
    let out = Context7Tool::format_response(&resp, &request(Some("routing"), Some("v15"), Some(2)));
    let expected = "# vercel/next.js 文档\n\n**主题**: routing\n**版本**: v15\n\n---\n\n\
## Routing\n\nuse app/\n\n## 片段 2\n\nsecond\n\n\
---\n\n📄 第 2/5 页 | 使用 `page: 3` 查看下一页\n\
\n🔗 来源: Context7 - vercel/next.js\n";
    assert_eq!(out, expected);
}

#[test]
fn empty_response_has_notice() {
    let resp = Context7Response { snippets: vec![], pagination: None };
    let out = Context7Tool::format_response(&resp, &request(None, None, None));
    let expected = "# vercel/next.js 文档\n\n\n---\n\n未找到相关文档。请尝试调整查询参数。\n\
\n🔗 来源: Context7 - vercel/next.js\n";
    assert_eq!(out, expected);
}

#[test]
fn last_page_has_no_next_hint() {
    let resp = Context7Response {
        snippets: vec![DocSnippet { title: None, content: "a".to_string() }],
        pagination: Some(Pagination { current_page: 3, total_pages: 3, has_next: false }),
    };
    let out = Context7Tool::format_response(&resp, &request(None, None, None));
    assert!(out.contains("## 片段 1\n\na\n\n"));
    assert!(out.contains("📄 第 3/3 页\n"));
    assert!(!out.contains("下一页"));
}

#[test]
fn urls_and_headers() {
    let cfg = config_with_key(None);
    assert_eq!(cfg.base_url, "https://context7.com/api/v2");
    assert_eq!(
        docs_url(&cfg.base_url, "facebook/react"),
        "https://context7.com/api/v2/docs/code/facebook/react"
    );
    assert_eq!(bearer_value("k1"), "Bearer k1");
}

#[test]
fn query_parameters_in_order() {
    let all = query_params(&request(Some("hooks"), Some("v18"), Some(4)));
    assert_eq!(
        all,
        vec![
            ("topic".to_string(), "hooks".to_string()),
            ("version".to_string(), "v18".to_string()),
            ("page".to_string(), "4".to_string()),
        ]
    );
    assert!(query_params(&request(None, None, None)).is_empty());
    let t = connection_test_request();
    assert_eq!(t.library, "spring-projects/spring-framework");
    assert_eq!(
        query_params(&t),
        vec![("topic".to_string(), "core".to_string()), ("page".to_string(), "1".to_string())]
    );
}

#[test]
fn preview_cuts_long_content() {
    let long = "x".repeat(250);
    let resp = Context7Response {
        snippets: vec![DocSnippet { title: None, content: long }],
        pagination: None,
    };
    let p = test_preview(&resp);
    assert_eq!(p, format!("{}...", "x".repeat(200)));
    let short = Context7Response {
        snippets: vec![DocSnippet { title: None, content: "short".to_string() }],
        pagination: None,
    };
    assert_eq!(test_preview(&short), "short");
    let exact = Context7Response {
        snippets: vec![DocSnippet { title: None, content: "y".repeat(200) }],
        pagination: None,
    };
    assert_eq!(test_preview(&exact), "y".repeat(200));
    let none = Context7Response { snippets: vec![], pagination: None };
    assert_eq!(test_preview(&none), "未找到文档内容");
}

#[test]
fn connection_reports() {
    let ok = connection_test_response(Ok("doc".to_string()));
    assert!(ok.success);
    assert_eq!(ok.message, "连接成功! 已获取 Spring Framework 文档");
    assert_eq!(ok.preview, Some("doc".to_string()));
    let err = connection_test_response(Err("timeout".to_string()));
    assert!(!err.success);
    assert_eq!(err.message, "连接失败: timeout");
    assert_eq!(err.preview, None);
}

#[test]
fn query_replies() {
    let ok = query_reply(Ok("# docs".to_string()));
    assert!(!ok.is_error);
    assert_eq!(ok.text, "# docs");
    let err = query_reply(Err("bad".to_string()));
    assert!(err.is_error);
    assert_eq!(err.text, "Context7 查询失败: bad");
}

#[test]
fn failure_messages() {
    assert_eq!(
        api_failure_message("404 Not Found", 404, "missing"),
        "API 请求失败 (状态码: 404 Not Found): 库不存在或拼写错误: missing"
    );
    let unread: Result<String, ()> = Err(());
    assert_eq!(error_body_or_placeholder(unread), "无法读取错误信息");
    let read: Result<String, ()> = Ok("body".to_string());
    assert_eq!(error_body_or_placeholder(read), "body");
}

#[test]
fn api_keys_are_trimmed() {
    assert_eq!(normalize_api_key("  abc \n"), Some("abc".to_string()));
    assert_eq!(normalize_api_key("   "), None);
    assert_eq!(normalize_api_key(""), None);
    assert_eq!(api_key_setting("k"), Some("k".to_string()));
    assert_eq!(api_key_setting(""), None);
}

#[test]
fn history_defaults() {
    assert_eq!(history_source(None), "popup");
    assert_eq!(history_source(Some("cli".to_string())), "cli");
    assert_eq!(history_count(None), 20);
    assert_eq!(history_count(Some(5)), 5);
}

#[test]
fn tool_definition_schema() {
    let def = Context7Tool::get_tool_definition();
    assert_eq!(def.name, "context7");
    assert!(def.description.starts_with("查询最新的框架和库文档"));
    let names: Vec<&str> = def.properties.iter().map(|p| p.name.as_str()).collect();
    assert_eq!(names, vec!["library", "topic", "version", "page"]);
    assert_eq!(def.properties[3].value_type, "integer");
    assert_eq!(def.properties[3].minimum, Some(1));
    assert_eq!(def.properties[3].maximum, Some(10));
    assert_eq!(def.properties[0].minimum, None);
    assert_eq!(def.required, vec!["library".to_string()]);
}

#[test]
fn preview_counts_bytes() {
    let accents = "é".repeat(101);
    let resp = Context7Response {
        snippets: vec![DocSnippet { title: None, content: accents }],
        pagination: None,
    };
    assert_eq!(test_preview(&resp), format!("{}...", "é".repeat(100)));
    let fits = Context7Response {
        snippets: vec![DocSnippet { title: None, content: "é".repeat(100) }],
        pagination: None,
    };
    assert_eq!(test_preview(&fits), "é".repeat(100));
    let mut mixed = "a".to_string();
    mixed.push_str(&"中".repeat(70));
    let cut = Context7Response {
        snippets: vec![DocSnippet { title: None, content: mixed }],
        pagination: None,
    };
    assert_eq!(test_preview(&cut), format!("a{}...", "中".repeat(66)));
}

#[test]
fn api_keys_lose_unicode_whitespace() {
    assert_eq!(normalize_api_key("\u{3000}key\u{a0}"), Some("key".to_string()));
    assert_eq!(normalize_api_key("a b"), Some("a b".to_string()));
}
